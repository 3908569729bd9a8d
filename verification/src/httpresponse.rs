//! The response model, builder and wire serializer. A response starts from a
//! fixed default, derives its status text from the status code through a
//! total lookup table, and serializes to an exact CRLF-terminated byte
//! sequence whose Content-Length is always computed from the body.

use crate::headers::Headers;
use crate::text::{dec_seq, dec_string, dec_val, lemma_dec_seq_value, str_eq};
use vstd::prelude::*;
use vstd::string::*;
use vstd::utf8::encode_utf8;

verus! {

/// The mathematical value of a response.
#[verifier::ext_equal]
pub struct RespModel {
    pub version: Seq<char>,
    pub status_code: Seq<char>,
    pub status_text: Seq<char>,
    pub headers: Option<Seq<(Seq<char>, Seq<char>)>>,
    pub body: Option<Seq<char>>,
}

/// The status text derived from a status code. The mapping is total: any
/// code outside the table falls back to `Not Found` by design.
pub open spec fn spec_status_text(code: Seq<char>) -> Seq<char> {
    if code == "200"@ {
        "OK"@
    } else if code == "400"@ {
        "Bad Request"@
    } else if code == "404"@ {
        "Not Found"@
    } else if code == "500"@ {
        "Internal Server Error"@
    } else {
        "Not Found"@
    }
}

/// The single-entry header map substituted when a caller supplies none.
pub open spec fn default_headers() -> Seq<(Seq<char>, Seq<char>)> {
    seq![("Content-Type"@, "text/html"@)]
}

/// The response built from a status code, optional headers and optional
/// body: version fixed, status text derived from the code, the default
/// header map substituted when none is given, the body stored as given.
pub open spec fn build_model(
    code: Seq<char>,
    headers: Option<Seq<(Seq<char>, Seq<char>)>>,
    body: Option<Seq<char>>,
) -> RespModel {
    RespModel {
        version: "HTTP/1.1"@,
        status_code: code,
        status_text: spec_status_text(code),
        headers: (match headers {
            Some(h) => Some(h),
            None => Some(default_headers()),
        }),
        body: body,
    }
}

/// Header pairs rendered as `name:value` lines, in order.
pub open spec fn headers_wire(hs: Seq<(Seq<char>, Seq<char>)>) -> Seq<char>
    decreases hs.len(),
{
    if hs.len() == 0 {
        Seq::empty()
    } else {
        headers_wire(hs.drop_last()) + hs.last().0 + ":"@ + hs.last().1 + "\r\n"@
    }
}

/// The header block of the wire text; absent headers render as nothing.
pub open spec fn opt_headers_wire(h: Option<Seq<(Seq<char>, Seq<char>)>>) -> Seq<char> {
    match h {
        Some(hs) => headers_wire(hs),
        None => Seq::empty(),
    }
}

/// The body text serialized; an absent body renders as the empty string.
pub open spec fn body_text(b: Option<Seq<char>>) -> Seq<char> {
    match b {
        Some(s) => s,
        None => Seq::empty(),
    }
}

/// The byte length of the serialized body: the length of its UTF-8
/// encoding, 0 when the body is absent.
pub open spec fn body_byte_len(b: Option<Seq<char>>) -> nat {
    encode_utf8(body_text(b)).len()
}

/// Everything of the wire text before the Content-Length header: the status
/// line and the header block.
pub open spec fn head_of(m: RespModel) -> Seq<char> {
    m.version + " "@ + m.status_code + " "@ + m.status_text + "\r\n"@ + opt_headers_wire(m.headers)
}

/// The exact wire text of a response: status line, header block, a
/// Content-Length always computed from the body, a blank line, the body.
pub open spec fn wire_of(m: RespModel) -> Seq<char> {
    head_of(m) + "Content-Length: "@ + dec_seq(body_byte_len(m.body)) + "\r\n\r\n"@ + body_text(
        m.body,
    )
}

/// A structured response. `status_text` is never set independently: it is
/// derived from `status_code` when the response is built.
#[derive(Debug, PartialEq)]
pub struct HttpResponse {
    pub version: String,
    pub status_code: String,
    pub status_text: String,
    pub headers: Option<Headers>,
    pub body: Option<String>,
}

impl View for HttpResponse {
    type V = RespModel;

    open spec fn view(&self) -> RespModel {
        RespModel {
            version: self.version@,
            status_code: self.status_code@,
            status_text: self.status_text@,
            headers: (match self.headers {
                Some(h) => Some(h@),
                None => None,
            }),
            body: (match self.body {
                Some(b) => Some(b@),
                None => None,
            }),
        }
    }
}

/// The view of an optional header map.
pub open spec fn opt_headers_view(h: Option<Headers>) -> Option<Seq<(Seq<char>, Seq<char>)>> {
    match h {
        Some(hh) => Some(hh@),
        None => None,
    }
}

/// The view of an optional body.
pub open spec fn opt_body_view(b: Option<String>) -> Option<Seq<char>> {
    match b {
        Some(s) => Some(s@),
        None => None,
    }
}

impl Default for HttpResponse {
    /// The fixed starting point of every build: `HTTP/1.1 200 OK` with no
    /// headers and no body yet.
    fn default() -> (r: HttpResponse)
        ensures
            r@ == (RespModel {
                version: "HTTP/1.1"@,
                status_code: "200"@,
                status_text: "OK"@,
                headers: None,
                body: None,
            }),
    {
        let r = HttpResponse {
            version: "HTTP/1.1".to_owned(),
            status_code: "200".to_owned(),
            status_text: "OK".to_owned(),
            headers: None,
            body: None,
        };
        proof {
            assert(r@ =~= (RespModel {
                version: "HTTP/1.1"@,
                status_code: "200"@,
                status_text: "OK"@,
                headers: None,
                body: None,
            }));
        }
        r
    }
}

impl HttpResponse {
    /// Builds a response from a status code, optional headers and optional
    /// body, deriving the status text and substituting the default header
    /// map when none is given.
    pub fn new(status_code: &str, headers: Option<Headers>, body: Option<String>) -> (r:
        HttpResponse)
        ensures
            r@ == build_model(status_code@, opt_headers_view(headers), opt_body_view(body)),
    {
        let mut response = HttpResponse::default();
        response.status_code = status_code.to_owned();
        response.headers = match headers {
            Some(h) => Some(h),
            None => {
                let mut h = Headers::new();
                h.insert("Content-Type".to_owned(), "text/html".to_owned());
                proof {
                    assert(h@ =~= default_headers());
                }
                Some(h)
            },
        };
        response.status_text = if str_eq(status_code, "200") {
            "OK".to_owned()
        } else if str_eq(status_code, "400") {
            "Bad Request".to_owned()
        } else if str_eq(status_code, "404") {
            "Not Found".to_owned()
        } else if str_eq(status_code, "500") {
            "Internal Server Error".to_owned()
        } else {
            "Not Found".to_owned()
        };
        response.body = body;
        proof {
            assert(response@ =~= build_model(
                status_code@,
                opt_headers_view(headers),
                opt_body_view(body),
            ));
        }
        response
    }

    /// The protocol version.
    pub fn version(&self) -> (r: &str)
        ensures
            r@ == self@.version,
    {
        self.version.as_str()
    }

    /// The status code.
    pub fn status_code(&self) -> (r: &str)
        ensures
            r@ == self@.status_code,
    {
        self.status_code.as_str()
    }

    /// The status text.
    pub fn status_text(&self) -> (r: &str)
        ensures
            r@ == self@.status_text,
    {
        self.status_text.as_str()
    }

    /// The header block of the wire text, one `name:value` line per pair in
    /// insertion order; empty when the map is absent.
    pub fn headers(&self) -> (r: String)
        ensures
            r@ == opt_headers_wire(self@.headers),
    {
        match &self.headers {
            None => String::new(),
            Some(h) => {
                let n = h.len();
                let mut out = String::new();
                let mut i: usize = 0;
                while i < n
                    invariant
                        0 <= i <= n,
                        n == h@.len(),
                        out@ == headers_wire(h@.subrange(0, i as int)),
                    decreases n - i,
                {
                    let (k, v) = h.pair_at(i);
                    out.append(k.as_str());
                    out.append(":");
                    out.append(v.as_str());
                    out.append("\r\n");
                    proof {
                        assert(h@.subrange(0, i + 1 as int).drop_last() =~= h@.subrange(
                            0,
                            i as int,
                        ));
                        assert(out@ =~= headers_wire(h@.subrange(0, i + 1 as int)));
                    }
                    i = i + 1;
                }
                proof {
                    assert(h@.subrange(0, n as int) =~= h@);
                }
                out
            },
        }
    }

    /// The body as serialized: its text, or the empty string when absent.
    pub fn body(&self) -> (r: String)
        ensures
            r@ == body_text(self@.body),
    {
        match &self.body {
            Some(b) => b.clone(),
            None => String::new(),
        }
    }

    /// Serializes the response to its exact wire text.
    pub fn to_wire(&self) -> (r: String)
        ensures
            r@ == wire_of(self@),
    {
        let mut out = String::new();
        out.append(self.version.as_str());
        out.append(" ");
        out.append(self.status_code.as_str());
        out.append(" ");
        out.append(self.status_text.as_str());
        out.append("\r\n");
        proof {
            assert(out@ =~= self@.version + " "@ + self@.status_code + " "@ + self@.status_text
                + "\r\n"@);
        }
        let hs = self.headers();
        out.append(hs.as_str());
        proof {
            assert(out@ =~= head_of(self@));
        }
        out.append("Content-Length: ");
        let btext = self.body();
        let blen = btext.as_str().as_bytes().len();
        proof {
            assert(blen as nat == body_byte_len(self@.body));
        }
        let cl = dec_string(blen);
        out.append(cl.as_str());
        proof {
            assert(out@ =~= head_of(self@) + "Content-Length: "@ + dec_seq(
                body_byte_len(self@.body),
            ));
        }
        out.append("\r\n\r\n");
        out.append(btext.as_str());
        proof {
            assert(out@ =~= wire_of(self@));
        }
        out
    }

    /// Serializes the response and appends the full wire byte sequence to
    /// the output sink in one operation.
    pub fn send_response(&self, sink: &mut Vec<u8>)
        ensures
            final(sink)@ == old(sink)@ + encode_utf8(wire_of(self@)),
    {
        let wire = self.to_wire();
        let mut bytes = wire.as_str().as_bytes_vec();
        sink.append(&mut bytes);
    }
}

/// Law: the wire text of a built response always carries a Content-Length
/// equal to the byte length of its body — 0 when the body is absent —
/// whatever header map the caller supplied, including one holding a
/// Content-Length entry of its own.
pub proof fn lemma_wire_content_length(
    code: Seq<char>,
    headers: Option<Seq<(Seq<char>, Seq<char>)>>,
    body: Option<Seq<char>>,
)
    ensures
        ({
            let m = build_model(code, headers, body);
            wire_of(m) == head_of(m) + "Content-Length: "@ + dec_seq(body_byte_len(body))
                + "\r\n\r\n"@ + body_text(body)
        }),
        body is None ==> body_byte_len(body) == 0,
        body matches Some(b) ==> body_byte_len(body) == encode_utf8(b).len(),
        dec_val(dec_seq(body_byte_len(body))) == body_byte_len(body),
{
    assert(encode_utf8(Seq::<char>::empty()).len() == 0);
    lemma_dec_seq_value(body_byte_len(body));
}

/// Law: the status-code to status-text mapping is total. Every code yields
/// one of the four known texts, and every unmapped code falls back to
/// `Not Found`.
pub proof fn lemma_status_text_total(code: Seq<char>)
    ensures
        spec_status_text(code) == "OK"@ || spec_status_text(code) == "Bad Request"@
            || spec_status_text(code) == "Not Found"@ || spec_status_text(code)
            == "Internal Server Error"@,
        code != "200"@ && code != "400"@ && code != "404"@ && code != "500"@ ==> spec_status_text(
            code,
        ) == "Not Found"@,
{
}

} // verus!
