//! The request model and the permissive request parser. Parsing never fails:
//! any line it cannot make sense of leaves the corresponding fields at their
//! defaults, so every input yields a structured request.

use crate::headers::{spec_insert, Headers};
use crate::text::{
    contains_http, find_char, find_from, has_http, scan, scan_from, str_eq, strip_cr,
};
use vstd::prelude::*;
use vstd::string::*;

verus! {

/// An HTTP method token. Unknown or missing tokens map to `Uninitialized`
/// rather than failing: the parser is deliberately permissive.
#[derive(Clone, Copy, Debug, PartialEq, Eq, Structural)]
pub enum Method {
    Get,
    Post,
    Uninitialized,
}

/// An HTTP version token. Exactly one literal is recognized; every other
/// token, well-formed or not, maps to `Uninitialized`.
#[derive(Clone, Copy, Debug, PartialEq, Eq, Structural)]
pub enum Version {
    V1_1,
    Uninitialized,
}

/// The path component of a request.
#[derive(Debug, PartialEq)]
pub enum Resource {
    Path(String),
}

impl Resource {
    /// The wrapped path text.
    pub open spec fn path(&self) -> Seq<char> {
        match self {
            Resource::Path(p) => p@,
        }
    }
}

/// The method denoted by a request-line token.
pub open spec fn method_of(t: Seq<char>) -> Method {
    if t == "GET"@ {
        Method::Get
    } else if t == "POST"@ {
        Method::Post
    } else {
        Method::Uninitialized
    }
}

/// The version denoted by a request-line token.
pub open spec fn version_of(t: Seq<char>) -> Version {
    if t == "HTTP\\1.1"@ {
        Version::V1_1
    } else {
        Version::Uninitialized
    }
}

/// Law: method parsing is total. The two valid request-line tokens map to
/// their variants; every other token maps to `Uninitialized`.
pub proof fn lemma_method_of_total(t: Seq<char>)
    ensures
        t == "GET"@ ==> method_of(t) == Method::Get,
        t == "POST"@ ==> method_of(t) == Method::Post,
        t != "GET"@ && t != "POST"@ ==> method_of(t) == Method::Uninitialized,
{
    reveal_strlit("GET");
    reveal_strlit("POST");
    assert("GET"@.len() == 3);
    assert("POST"@.len() == 4);
}

/// Law: exactly one literal token maps to `V1_1`; every other string,
/// well-formed alternatives included, maps to `Uninitialized`.
pub proof fn lemma_version_of_total(t: Seq<char>)
    ensures
        t == "HTTP\\1.1"@ ==> version_of(t) == Version::V1_1,
        t != "HTTP\\1.1"@ ==> version_of(t) == Version::Uninitialized,
{
}

/// The mathematical value of a parsed request.
#[verifier::ext_equal]
pub struct ReqModel {
    pub method: Method,
    pub version: Version,
    pub resource: Seq<char>,
    pub headers: Seq<(Seq<char>, Seq<char>)>,
    pub body: Seq<char>,
}

/// The state every parse starts from: everything uninitialized or empty.
pub open spec fn init_model() -> ReqModel {
    ReqModel {
        method: Method::Uninitialized,
        version: Version::Uninitialized,
        resource: Seq::empty(),
        headers: Seq::empty(),
        body: Seq::empty(),
    }
}

/// The first three whitespace-delimited tokens of a request line, read as
/// method, path and version; `None` when the line has fewer than three.
pub open spec fn spec_req_line(line: Seq<char>) -> Option<(Method, Seq<char>, Version)> {
    let a0 = scan_from(line, 0, false);
    let e0 = scan_from(line, a0, true);
    let a1 = scan_from(line, e0, false);
    let e1 = scan_from(line, a1, true);
    let a2 = scan_from(line, e1, false);
    let e2 = scan_from(line, a2, true);
    if a2 >= line.len() {
        None
    } else {
        Some(
            (
                method_of(line.subrange(a0, e0)),
                line.subrange(a1, e1),
                version_of(line.subrange(a2, e2)),
            ),
        )
    }
}

/// One line folded into the parse state, by the classification precedence:
/// a line containing `HTTP` is the request line; otherwise a line with a
/// colon is a header, split at its first colon; an empty line is ignored;
/// anything else becomes the body, the last such line winning.
pub open spec fn apply_line(st: ReqModel, line: Seq<char>) -> ReqModel {
    if has_http(line) {
        match spec_req_line(line) {
            Some((m, r, v)) => ReqModel { method: m, resource: r, version: v, ..st },
            None => st,
        }
    } else if find_from(line, 0, ':') < line.len() {
        ReqModel {
            headers: spec_insert(
                st.headers,
                line.subrange(0, find_from(line, 0, ':')),
                line.subrange(find_from(line, 0, ':') + 1, line.len() as int),
            ),
            ..st
        }
    } else if line.len() == 0 {
        st
    } else {
        ReqModel { body: line, ..st }
    }
}

/// The parse state after folding in every line of `s` from position `i` on.
/// Lines are separated by `\n`; a trailing `\r` on a line is removed.
pub open spec fn parse_from(s: Seq<char>, i: int, st: ReqModel) -> ReqModel
    decreases s.len() - i,
{
    if i < 0 || i >= s.len() {
        st
    } else {
        let j = find_from(s, i, '\n');
        if j >= s.len() {
            apply_line(st, strip_cr(s.subrange(i, s.len() as int)))
        } else {
            let nxt = if j + 1 > i + 1 {
                j + 1
            } else {
                i + 1
            };
            parse_from(s, nxt, apply_line(st, strip_cr(s.subrange(i, j))))
        }
    }
}

/// The request denoted by a raw text buffer.
pub open spec fn spec_parse(s: Seq<char>) -> ReqModel {
    parse_from(s, 0, init_model())
}

impl Method {
    /// The method denoted by a request-line token.
    pub fn from(s: &str) -> (r: Method)
        ensures
            r == method_of(s@),
    {
        if str_eq(s, "GET") {
            Method::Get
        } else if str_eq(s, "POST") {
            Method::Post
        } else {
            Method::Uninitialized
        }
    }
}

impl Version {
    /// The version denoted by a request-line token.
    pub fn from(s: &str) -> (r: Version)
        ensures
            r == version_of(s@),
    {
        if str_eq(s, "HTTP\\1.1") {
            Version::V1_1
        } else {
            Version::Uninitialized
        }
    }
}

/// A structured request. All fields are initialized after parsing: headers
/// and body are empty rather than unset, and method, version and resource
/// fall back to their uninitialized or empty variants.
#[derive(Debug)]
pub struct HttpRequest {
    pub method: Method,
    pub version: Version,
    pub resource: Resource,
    pub headers: Headers,
    pub msg_body: String,
}

impl View for HttpRequest {
    type V = ReqModel;

    open spec fn view(&self) -> ReqModel {
        ReqModel {
            method: self.method,
            version: self.version,
            resource: self.resource.path(),
            headers: self.headers@,
            body: self.msg_body@,
        }
    }
}

/// The first three whitespace-delimited tokens of a request line as method,
/// resource and version; `None` when the line has fewer than three tokens.
pub fn process_req_line(s: &str) -> (r: Option<(Method, Resource, Version)>)
    ensures
        (match (r, spec_req_line(s@)) {
            (Some((m, res, v)), Some((sm, sr, sv))) => m == sm && v == sv && (match res {
                Resource::Path(p) => p@ == sr,
            }),
            (None, None) => true,
            _ => false,
        }),
{
    let n = s.unicode_len();
    let a0 = scan(s, 0, false);
    let e0 = scan(s, a0, true);
    let a1 = scan(s, e0, false);
    let e1 = scan(s, a1, true);
    let a2 = scan(s, e1, false);
    if a2 >= n {
        return None;
    }
    let e2 = scan(s, a2, true);
    let m = Method::from(s.substring_char(a0, e0));
    let res = Resource::Path(s.substring_char(a1, e1).to_owned());
    let v = Version::from(s.substring_char(a2, e2));
    Some((m, res, v))
}

/// A header line split at its first colon: the key is the text before it,
/// the value the text after it, kept verbatim. A line without a colon is
/// all key and has an empty value.
pub fn process_header_line(s: &str) -> (r: (String, String))
    ensures
        r.0@ == s@.subrange(0, find_from(s@, 0, ':')),
        find_from(s@, 0, ':') < s@.len() ==> r.1@ == s@.subrange(
            find_from(s@, 0, ':') + 1,
            s@.len() as int,
        ),
        find_from(s@, 0, ':') >= s@.len() ==> r.1@ == Seq::<char>::empty(),
{
    let n = s.unicode_len();
    let i = find_char(s, 0, ':');
    let key = s.substring_char(0, i).to_owned();
    let value = if i < n {
        s.substring_char(i + 1, n).to_owned()
    } else {
        String::new()
    };
    (key, value)
}

/// True when some line of `s` at or after position `i` contains `HTTP` but
/// carries fewer than three tokens: a request line the lenient parser
/// silently skips.
pub open spec fn bad_req_line_from(s: Seq<char>, i: int) -> bool
    decreases s.len() - i,
{
    if i < 0 || i >= s.len() {
        false
    } else {
        let j = find_from(s, i, '\n');
        if j >= s.len() {
            has_http(strip_cr(s.subrange(i, s.len() as int))) && spec_req_line(
                strip_cr(s.subrange(i, s.len() as int)),
            ) is None
        } else {
            let nxt = if j + 1 > i + 1 {
                j + 1
            } else {
                i + 1
            };
            (has_http(strip_cr(s.subrange(i, j))) && spec_req_line(strip_cr(s.subrange(i, j)))
                is None) || bad_req_line_from(s, nxt)
        }
    }
}

/// True when the buffer holds a request line the lenient parser would
/// silently downgrade.
pub open spec fn has_bad_req_line(s: Seq<char>) -> bool {
    bad_req_line_from(s, 0)
}

/// The structured error strict parsing surfaces instead of silently
/// downgrading an unparseable request line.
#[derive(Clone, Copy, Debug, PartialEq, Eq, Structural)]
pub enum ParseError {
    MalformedRequestLine,
}

impl HttpRequest {
    /// The shared parse loop: the parsed request, and whether a request
    /// line was silently skipped for having fewer than three tokens.
    #[verifier::rlimit(60)]
    fn parse_core(req: String) -> (r: (HttpRequest, bool))
        ensures
            r.0@ == spec_parse(req@),
            r.0.headers.wf(),
            r.1 == has_bad_req_line(req@),
    {
        let s = req.as_str();
        let n = s.unicode_len();
        let mut method = Method::Uninitialized;
        let mut version = Version::Uninitialized;
        let mut resource = Resource::Path(String::new());
        let mut headers = Headers::new();
        let mut msg_body = String::new();
        let mut bad = false;
        let mut pos: usize = 0;
        while pos < n
            invariant
                0 <= pos <= n,
                n == req@.len(),
                s@ == req@,
                headers.wf(),
                (spec_parse(req@) == parse_from(
                    req@,
                    pos as int,
                    ReqModel {
                        method: method,
                        version: version,
                        resource: resource.path(),
                        headers: headers@,
                        body: msg_body@,
                    },
                )),
                has_bad_req_line(req@) == (bad || bad_req_line_from(req@, pos as int)),
            decreases n - pos,
        {
            let ghost prev_pos = pos as int;
            let ghost prev_bad = bad;
            let ghost prev = ReqModel {
                method: method,
                version: version,
                resource: resource.path(),
                headers: headers@,
                body: msg_body@,
            };
            let j = find_char(s, pos, '\n');
            let line_end = if j > pos && s.get_char(j - 1) == '\r' {
                j - 1
            } else {
                j
            };
            let line_str = s.substring_char(pos, line_end);
            proof {
                if j > pos && req@[j - 1] == '\r' {
                    assert(req@.subrange(prev_pos, j as int).drop_last() =~= req@.subrange(
                        prev_pos,
                        line_end as int,
                    ));
                    assert(line_str@ == strip_cr(req@.subrange(prev_pos, j as int)));
                } else {
                    assert(line_str@ == strip_cr(req@.subrange(prev_pos, j as int)));
                }
            }
            if contains_http(line_str) {
                match process_req_line(line_str) {
                    Some((m, res, v)) => {
                        method = m;
                        resource = res;
                        version = v;
                    },
                    None => {
                        bad = true;
                    },
                }
            } else {
                let ln = line_str.unicode_len();
                let ci = find_char(line_str, 0, ':');
                if ci < ln {
                    let (k, v) = process_header_line(line_str);
                    headers.insert(k, v);
                } else if ln == 0 {
                } else {
                    msg_body = line_str.to_owned();
                }
            }
            proof {
                let cur = ReqModel {
                    method: method,
                    version: version,
                    resource: resource.path(),
                    headers: headers@,
                    body: msg_body@,
                };
                assert(cur =~= apply_line(prev, strip_cr(req@.subrange(prev_pos, j as int))));
                let line = strip_cr(req@.subrange(prev_pos, j as int));
                assert(bad == (prev_bad || (has_http(line) && spec_req_line(line) is None)));
            }
            pos = if j < n {
                j + 1
            } else {
                n
            };
        }
        let r = HttpRequest { method, version, resource, headers, msg_body };
        proof {
            assert(r@ =~= spec_parse(req@));
        }
        (r, bad)
    }

    /// Parses a raw text buffer into a structured request. Parsing is total:
    /// malformed input yields default fields, never an error. This is the
    /// default, permissive mode; `from_strict` is the opt-in alternative.
    pub fn from(req: String) -> (r: HttpRequest)
        ensures
            r@ == spec_parse(req@),
            r.headers.wf(),
    {
        let (r, _bad) = HttpRequest::parse_core(req);
        r
    }

    /// Strict parsing: a request line that would be silently downgraded by
    /// the permissive mode is surfaced as a structured error instead.
    pub fn from_strict(req: String) -> (r: Result<HttpRequest, ParseError>)
        ensures
            (match r {
                Ok(parsed) => !has_bad_req_line(req@) && parsed@ == spec_parse(req@)
                    && parsed.headers.wf(),
                Err(e) => has_bad_req_line(req@) && e == ParseError::MalformedRequestLine,
            }),
    {
        let (r, bad) = HttpRequest::parse_core(req);
        if bad {
            Err(ParseError::MalformedRequestLine)
        } else {
            Ok(r)
        }
    }
}

} // verus!
