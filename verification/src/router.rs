//! The router: a pure decision over one request, dispatching to one of a
//! closed set of handler variants, followed by serialization of the chosen
//! handler's response into the output sink.

use crate::httprequest::{HttpRequest, Method, ReqModel, Resource};
use crate::httpresponse::{wire_of, HttpResponse, RespModel};
use crate::text::{find_char, find_from, str_eq};
use vstd::prelude::*;
use vstd::string::*;
use vstd::utf8::encode_utf8;

verus! {

/// A response-producing strategy. The host application supplies one
/// implementation per variant; their own logic is outside the core.
pub trait Handler {
    fn handle(req: &HttpRequest) -> HttpResponse;
}

/// The closed set of handler variants the router selects among.
#[derive(Clone, Copy, Debug, PartialEq, Eq, Structural)]
pub enum HandlerKind {
    Api,
    StaticPage,
    NotFound,
}

/// The path segment between the first slash of `p` and the next slash or
/// the end of the path; `None` when `p` holds no slash at all.
pub open spec fn second_segment(p: Seq<char>) -> Option<Seq<char>> {
    let i = find_from(p, 0, '/');
    if i >= p.len() {
        None
    } else {
        Some(p.subrange(i + 1, find_from(p, i + 1, '/')))
    }
}

/// The routing decision: any non-GET request goes to the not-found
/// variant; a GET whose first path segment is `api` goes to the API
/// variant; every other GET goes to the static-resource variant, including
/// a bare `/` with nothing after the slash.
pub open spec fn spec_route(m: ReqModel) -> HandlerKind {
    if m.method != Method::Get {
        HandlerKind::NotFound
    } else {
        match second_segment(m.resource) {
            Some(seg) => if seg == "api"@ {
                HandlerKind::Api
            } else {
                HandlerKind::StaticPage
            },
            None => HandlerKind::StaticPage,
        }
    }
}

/// The stateless router: a pure function of one request, holding nothing
/// across calls.
pub struct Router;

impl Router {
    /// The routing decision alone, with the guarded segment lookup: a path
    /// without a second segment falls back to the static-resource variant.
    pub fn select(req: &HttpRequest) -> (t: HandlerKind)
        ensures
            t == spec_route(req@),
    {
        if req.method == Method::Get {
            let p = match &req.resource {
                Resource::Path(s) => s.as_str(),
            };
            let n = p.unicode_len();
            let i = find_char(p, 0, '/');
            if i >= n {
                HandlerKind::StaticPage
            } else {
                let j = find_char(p, i + 1, '/');
                let seg = p.substring_char(i + 1, j);
                if str_eq(seg, "api") {
                    HandlerKind::Api
                } else {
                    HandlerKind::StaticPage
                }
            }
        } else {
            HandlerKind::NotFound
        }
    }

    /// Routes a parsed request: selects the handler variant, lets that
    /// handler produce a response, and appends the response's full wire
    /// bytes to the output sink. Returns the selected variant.
    pub fn route<A: Handler, S: Handler, N: Handler>(req: HttpRequest, sink: &mut Vec<u8>) -> (t:
        HandlerKind)
        ensures
            t == spec_route(req@),
            exists|m: RespModel| final(sink)@ == old(sink)@ + encode_utf8(wire_of(m)),
    {
        let target = Router::select(&req);
        let resp = match target {
            HandlerKind::Api => A::handle(&req),
            HandlerKind::StaticPage => S::handle(&req),
            HandlerKind::NotFound => N::handle(&req),
        };
        resp.send_response(sink);
        proof {
            assert(sink@ == old(sink)@ + encode_utf8(wire_of(resp@)));
        }
        target
    }
}

/// Law: routing is decided by the method gate and the first path segment
/// alone. Non-GET requests reach the not-found variant whatever their
/// path; a GET with first segment `api` reaches the API variant; every
/// other GET reaches the static-resource variant.
pub proof fn lemma_routing(m: ReqModel)
    ensures
        m.method != Method::Get ==> spec_route(m) == HandlerKind::NotFound,
        m.method == Method::Get && second_segment(m.resource) == Some("api"@) ==> spec_route(m)
            == HandlerKind::Api,
        m.method == Method::Get && second_segment(m.resource) != Some("api"@) ==> spec_route(m)
            == HandlerKind::StaticPage,
{
}

} // verus!
