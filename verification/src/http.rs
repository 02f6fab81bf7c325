//! The HTTP request operation: validating the request descriptor a caller
//! hands over, selecting the method, parsing header lines, and folding every
//! outcome of the send into a result envelope.

use vstd::prelude::*;
use vstd::utf8::{
    char_is_scalar, decode_utf8, encode_scalar, encode_utf8, has_width_1_encoding,
    has_width_2_encoding, has_width_3_encoding, last_continuation_byte, leading_byte_width_1,
    leading_byte_width_2, leading_byte_width_3, leading_byte_width_4, second_last_continuation_byte,
    third_last_continuation_byte, valid_utf8,
};
use crate::envelope::{create_http_error, http_response_wf, HttpResponse};
use crate::text::{decode_utf8_bytes, find_char, find_char_spec, trim_spec, trim_str};

verus! {

/// The caller-constructed description of one HTTP request, as its fields
/// arrive over the boundary: URL and method as raw byte strings still to be
/// validated, header lines as raw byte strings, body bytes (empty meaning no
/// body), and the timeout for the whole request in milliseconds.
#[derive(Debug)]
pub struct HttpRequest {
    pub url: Vec<u8>,
    pub method: Vec<u8>,
    pub headers: Vec<Vec<u8>>,
    pub body: Vec<u8>,
    pub timeout_ms: u64,
}

/// The fixed set of HTTP methods the gateway executes.
#[derive(Clone, Copy, PartialEq, Eq, Structural, Debug)]
pub enum Method {
    Get,
    Post,
    Put,
    Delete,
    Patch,
    Head,
}

/// The method a given text selects: a case-sensitive exact match against the
/// fixed set, anything else selecting none.
pub open spec fn method_spec(s: Seq<char>) -> Option<Method> {
    if s == "GET"@ {
        Some(Method::Get)
    } else if s == "POST"@ {
        Some(Method::Post)
    } else if s == "PUT"@ {
        Some(Method::Put)
    } else if s == "DELETE"@ {
        Some(Method::Delete)
    } else if s == "PATCH"@ {
        Some(Method::Patch)
    } else if s == "HEAD"@ {
        Some(Method::Head)
    } else {
        None
    }
}

/// Selects the HTTP method that `method` names, if any.
pub fn parse_method(method: &String) -> (r: Option<Method>)
    ensures
        r == method_spec(method@),
{
    if *method == String::from_str("GET") {
        Some(Method::Get)
    } else if *method == String::from_str("POST") {
        Some(Method::Post)
    } else if *method == String::from_str("PUT") {
        Some(Method::Put)
    } else if *method == String::from_str("DELETE") {
        Some(Method::Delete)
    } else if *method == String::from_str("PATCH") {
        Some(Method::Patch)
    } else if *method == String::from_str("HEAD") {
        Some(Method::Head)
    } else {
        None
    }
}

/// One parsed header: a name and a value, both already trimmed.
#[derive(Debug)]
pub struct Header {
    pub name: String,
    pub value: String,
}

impl View for Header {
    type V = (Seq<char>, Seq<char>);

    open spec fn view(&self) -> (Seq<char>, Seq<char>) {
        (self.name@, self.value@)
    }
}

/// The header a line of text yields: the part before the first colon and the
/// part after it, each with surrounding whitespace removed; none when the
/// line has no colon.
pub open spec fn split_header_spec(line: Seq<char>) -> Option<(Seq<char>, Seq<char>)> {
    match find_char_spec(line, ':') {
        Some(i) => Some((trim_spec(line.take(i)), trim_spec(line.skip(i + 1)))),
        None => None,
    }
}

/// The header a raw header line yields: none when the bytes are not
/// well-formed text or the line has no colon.
pub open spec fn header_of_line(line: Seq<u8>) -> Option<(Seq<char>, Seq<char>)> {
    if valid_utf8(line) {
        split_header_spec(decode_utf8(line))
    } else {
        None
    }
}

/// The headers a sequence of raw lines yields, in order, with the lines that
/// yield none dropped.
pub open spec fn headers_spec(lines: Seq<Seq<u8>>) -> Seq<(Seq<char>, Seq<char>)>
    decreases lines.len(),
{
    if lines.len() == 0 {
        Seq::empty()
    } else {
        headers_spec(lines.drop_last()) + match header_of_line(lines.last()) {
            Some(h) => seq![h],
            None => Seq::empty(),
        }
    }
}

/// Splits one header line at its first colon and trims both parts.
pub fn split_header_line(line: &str) -> (r: Option<Header>)
    ensures
        match r {
            Some(h) => split_header_spec(line@) == Some(h@),
            None => split_header_spec(line@) is None,
        },
{
    match find_char(line, ':') {
        None => None,
        Some(i) => {
            let n = line.unicode_len();
            let name_part = line.substring_char(0, i);
            let value_part = line.substring_char(i + 1, n);
            proof {
                assert(line@.subrange(0, i as int) =~= line@.take(i as int));
                assert(line@.subrange(i + 1, n as int) =~= line@.skip(i + 1));
            }
            let name = trim_str(name_part).to_owned();
            let value = trim_str(value_part).to_owned();
            Some(Header { name, value })
        },
    }
}

/// Parses a sequence of raw header lines, keeping exactly the lines that are
/// well-formed text and contain a colon, in their given order.
pub fn parse_header_lines(lines: &Vec<Vec<u8>>) -> (r: Vec<Header>)
    ensures
        r@.map_values(|h: Header| h@) == headers_spec(lines.deep_view()),
{
    let ghost all_lines: Seq<Seq<u8>> = lines.deep_view();
    let mut out: Vec<Header> = Vec::new();
    let mut i: usize = 0;
    while i < lines.len()
        invariant
            i <= lines.len(),
            all_lines == lines.deep_view(),
            all_lines.len() == lines.len(),
            forall|j: int| 0 <= j < lines.len() ==> all_lines[j] == lines[j]@,
            out@.map_values(|h: Header| h@) == headers_spec(all_lines.take(i as int)),
        decreases lines.len() - i,
    {
        let ghost prev = out@.map_values(|h: Header| h@);
        match decode_utf8_bytes(&lines[i]) {
            Some(text) => {
                match split_header_line(text.as_str()) {
                    Some(h) => {
                        let ghost hv = h@;
                        out.push(h);
                        proof {
                            assert(out@.map_values(|h: Header| h@) =~= prev + seq![hv]);
                        }
                    },
                    None => {},
                }
            },
            None => {},
        }
        proof {
            assert(all_lines.take(i + 1).drop_last() =~= all_lines.take(i as int));
            assert(all_lines.take(i + 1).last() == all_lines[i as int]);
        }
        i = i + 1;
    }
    proof {
        assert(all_lines.take(lines.len() as int) =~= all_lines);
    }
    out
}

/// Checks the parts of a request descriptor that must be validated before
/// any work is spent on it: the descriptor must be present, and its URL and
/// method must be well-formed text. Returns the decoded URL and method, or
/// the error envelope the caller is owed.
pub fn check_http_request(request: Option<&HttpRequest>) -> (r: Result<(String, String), HttpResponse>)
    ensures
        match r {
            Ok(parts) => {
                &&& request matches Some(q)
                &&& valid_utf8(q.url@)
                &&& parts.0@ == decode_utf8(q.url@)
                &&& valid_utf8(q.method@)
                &&& parts.1@ == decode_utf8(q.method@)
            },
            Err(e) => {
                &&& http_response_wf(e)
                &&& e.status_code == 0
                &&& match request {
                    None => e.error matches Some(m) && m@ == "Null request"@,
                    Some(q) => {
                        &&& !(valid_utf8(q.url@) && valid_utf8(q.method@))
                        &&& (!valid_utf8(q.url@) ==> (e.error matches Some(m) && m@
                            == "Invalid URL encoding"@))
                        &&& (valid_utf8(q.url@) ==> (e.error matches Some(m) && m@
                            == "Invalid method encoding"@))
                    },
                }
            },
        },
{
    let q = match request {
        None => {
            return Err(create_http_error(String::from_str("Null request"), 0));
        },
        Some(q) => q,
    };
    let url = match decode_utf8_bytes(&q.url) {
        Some(u) => u,
        None => {
            return Err(create_http_error(String::from_str("Invalid URL encoding"), 0));
        },
    };
    let method = match decode_utf8_bytes(&q.method) {
        Some(m) => m,
        None => {
            return Err(create_http_error(String::from_str("Invalid method encoding"), 0));
        },
    };
    Ok((url, method))
}

/// Everything the sender needs for one request, already validated: the URL,
/// the selected method, the parsed headers, the body to attach if any, and
/// the timeout.
#[derive(Debug)]
pub struct HttpAction {
    pub url: String,
    pub method: Method,
    pub headers: Vec<Header>,
    pub body: Option<Vec<u8>>,
    pub timeout_ms: u64,
}

/// Assembles the action for one request from its decoded method, its raw
/// header lines, and its body bytes. Fails exactly when the method text is
/// outside the fixed set, with the unsupported-method envelope at status
/// zero; header lines that yield no header are dropped without failing the
/// call; an empty body means no body is attached.
pub fn build_http_action(
    url: String,
    method: &String,
    headers: &Vec<Vec<u8>>,
    body: &Vec<u8>,
    timeout_ms: u64,
) -> (r: Result<HttpAction, HttpResponse>)
    ensures
        match r {
            Ok(a) => {
                &&& method_spec(method@) == Some(a.method)
                &&& a.url@ == url@
                &&& a.headers@.map_values(|h: Header| h@) == headers_spec(headers.deep_view())
                &&& (body@.len() == 0 ==> a.body is None)
                &&& (body@.len() > 0 ==> (a.body matches Some(b) && b@ == body@))
                &&& a.timeout_ms == timeout_ms
            },
            Err(e) => {
                &&& method_spec(method@) is None
                &&& http_response_wf(e)
                &&& e.status_code == 0
                &&& e.error matches Some(m) && m@ == "Unsupported HTTP method"@
            },
        },
{
    let m = match parse_method(method) {
        Some(m) => m,
        None => {
            return Err(create_http_error(String::from_str("Unsupported HTTP method"), 0));
        },
    };
    let parsed_headers = parse_header_lines(headers);
    let action_body = if body.len() == 0 {
        None
    } else {
        Some(vstd::slice::slice_to_vec(body.as_slice()))
    };
    Ok(HttpAction { url, method: m, headers: parsed_headers, body: action_body, timeout_ms })
}

/// What came of handing the action to the network, as the surrounding
/// program reports it: the execution context could not be built, the client
/// could not be built, the send failed, the body could not be read after a
/// status arrived, or a status and a decoded body text arrived.
#[derive(Debug)]
pub enum HttpEvent {
    RuntimeFailed,
    ClientFailed(String),
    SendFailed(String),
    ReadFailed(u16, String),
    Received(u16, String),
}

/// Whether `bytes` holds a zero byte anywhere.
fn bytes_contain_nul(bytes: &Vec<u8>) -> (r: bool)
    ensures
        r == bytes@.contains(0u8),
{
    let mut i: usize = 0;
    while i < bytes.len()
        invariant
            i <= bytes.len(),
            forall|j: int| 0 <= j < i ==> bytes@[j] != 0u8,
        decreases bytes.len() - i,
    {
        if bytes[i] == 0u8 {
            assert(bytes@.contains(0u8)) by {
                assert(bytes@[i as int] == 0u8);
            }
            return true;
        }
        i = i + 1;
    }
    false
}

/// Folds the outcome of one HTTP request into its result envelope. Every
/// failure keeps the status already known (zero when none was received); a
/// received body that holds an embedded null byte is rejected whole, never
/// truncated, because the transfer format ends text at its first null byte.
pub fn finish_http(event: HttpEvent) -> (r: HttpResponse)
    ensures
        http_response_wf(r),
        match event {
            HttpEvent::RuntimeFailed => {
                &&& r.status_code == 0
                &&& r.error matches Some(m) && m@ == "Failed to create runtime"@
            },
            HttpEvent::ClientFailed(d) => {
                &&& r.status_code == 0
                &&& r.error matches Some(m) && m@ == "Failed to create client: "@ + d@
            },
            HttpEvent::SendFailed(d) => {
                &&& r.status_code == 0
                &&& r.error matches Some(m) && m@ == "Request failed: "@ + d@
            },
            HttpEvent::ReadFailed(status, d) => {
                &&& r.status_code == status
                &&& r.error matches Some(m) && m@ == "Failed to read response: "@ + d@
            },
            HttpEvent::Received(status, body) => {
                &&& r.status_code == status
                &&& if encode_utf8(body@).contains(0u8) {
                    r.error matches Some(m) && m@ == "Response contains null bytes"@
                } else {
                    r.error is None && (r.body matches Some(b) && b@ == body@)
                }
            },
        },
{
    match event {
        HttpEvent::RuntimeFailed => create_http_error(String::from_str("Failed to create runtime"), 0),
        HttpEvent::ClientFailed(d) => create_http_error(
            String::from_str("Failed to create client: ").concat(d.as_str()),
            0,
        ),
        HttpEvent::SendFailed(d) => create_http_error(
            String::from_str("Request failed: ").concat(d.as_str()),
            0,
        ),
        HttpEvent::ReadFailed(status, d) => create_http_error(
            String::from_str("Failed to read response: ").concat(d.as_str()),
            status,
        ),
        HttpEvent::Received(status, body) => {
            let bytes = body.as_str().as_bytes_vec();
            if bytes_contain_nul(&bytes) {
                create_http_error(String::from_str("Response contains null bytes"), status)
            } else {
                HttpResponse { body: Some(body), status_code: status, error: None }
            }
        },
    }
}

/// A header line that yields no header — one without a colon, or one that is
/// not well-formed text — is dropped without affecting the headers the other
/// lines yield.
pub proof fn lemma_dropped_line_leaves_others(lines: Seq<Seq<u8>>, i: int)
    requires
        0 <= i < lines.len(),
        header_of_line(lines[i]) is None,
    ensures
        headers_spec(lines) == headers_spec(lines.remove(i)),
    decreases lines.len(),
{
    if i == lines.len() - 1 {
        assert(lines.remove(i) =~= lines.drop_last());
    } else {
        lemma_dropped_line_leaves_others(lines.drop_last(), i);
        assert(lines.remove(i).drop_last() =~= lines.drop_last().remove(i));
        assert(lines.remove(i).last() == lines.last());
    }
}

proof fn lemma_encode_scalar_nul(c: char)
    ensures
        encode_scalar(c as u32).contains(0u8) <==> c == '\0',
{
    char_is_scalar(c);
    let s = c as u32;
    let e = encode_scalar(s);
    if has_width_1_encoding(s) {
        assert(e =~= seq![leading_byte_width_1(s)]);
        assert(s <= 0x7F ==> ((s & 0x7F) as u8 == 0 <==> s == 0)) by (bit_vector);
        if s == 0 {
            vstd::utf8::char_u32_cast(c, s);
            assert(c == '\0');
            assert(e[0] == 0u8);
        } else {
            assert(c != '\0');
            if e.contains(0u8) {
                let i = choose|i: int| 0 <= i < e.len() && e[i] == 0u8;
                assert(false);
            }
        }
    } else {
        assert(s >= 0x80);
        assert(c != '\0');
        let ghost x: u32 = s;
        assert((0xC0u8 | ((x >> 6) & 0x1F) as u8) != 0u8) by (bit_vector);
        assert((0xE0u8 | ((x >> 12) & 0x0F) as u8) != 0u8) by (bit_vector);
        assert((0xF0u8 | ((x >> 18) & 0x7) as u8) != 0u8) by (bit_vector);
        assert((0x80u8 | (x & 0x3F) as u8) != 0u8) by (bit_vector);
        assert((0x80u8 | ((x >> 6) & 0x3F) as u8) != 0u8) by (bit_vector);
        assert((0x80u8 | ((x >> 12) & 0x3F) as u8) != 0u8) by (bit_vector);
        if e.contains(0u8) {
            let i = choose|i: int| 0 <= i < e.len() && e[i] == 0u8;
            if has_width_2_encoding(s) {
                assert(e =~= seq![leading_byte_width_2(s), last_continuation_byte(s)]);
                assert(false);
            } else if has_width_3_encoding(s) {
                assert(e =~= seq![
                    leading_byte_width_3(s),
                    second_last_continuation_byte(s),
                    last_continuation_byte(s),
                ]);
                assert(false);
            } else {
                assert(e =~= seq![
                    leading_byte_width_4(s),
                    third_last_continuation_byte(s),
                    second_last_continuation_byte(s),
                    last_continuation_byte(s),
                ]);
                assert(false);
            }
        }
    }
}

/// Text holds a null byte in its transfer encoding exactly when it holds the
/// null character: rejecting bodies by their bytes is the same as rejecting
/// them by their characters, so a success body never loses text to an
/// embedded null byte.
pub proof fn lemma_nul_byte_iff_nul_char(s: Seq<char>)
    ensures
        encode_utf8(s).contains(0u8) <==> s.contains('\0'),
    decreases s.len(),
{
    if s.len() == 0 {
        if encode_utf8(s).contains(0u8) {
            let i = choose|i: int| 0 <= i < encode_utf8(s).len() && encode_utf8(s)[i] == 0u8;
            assert(false);
        }
        if s.contains('\0') {
            let i = choose|i: int| 0 <= i < s.len() && s[i] == '\0';
            assert(false);
        }
    } else {
        lemma_encode_scalar_nul(s[0]);
        lemma_nul_byte_iff_nul_char(s.drop_first());
        let head = encode_scalar(s[0] as u32);
        let tail = encode_utf8(s.drop_first());
        assert(encode_utf8(s) == head + tail);
        if encode_utf8(s).contains(0u8) {
            let i = choose|i: int| 0 <= i < (head + tail).len() && (head + tail)[i] == 0u8;
            if i < head.len() {
                assert(head[i] == 0u8);
                assert(s[0] == '\0');
                assert(s.contains('\0')) by {
                    assert(s[0] == '\0');
                }
            } else {
                assert(tail[i - head.len()] == 0u8);
                assert(tail.contains(0u8));
                let j = choose|j: int| 0 <= j < s.drop_first().len() && s.drop_first()[j] == '\0';
                assert(s[j + 1] == '\0');
                assert(s.contains('\0'));
            }
        }
        if s.contains('\0') {
            let i = choose|i: int| 0 <= i < s.len() && s[i] == '\0';
            if i == 0 {
                assert(head.contains(0u8));
                let k = choose|k: int| 0 <= k < head.len() && head[k] == 0u8;
                assert((head + tail)[k] == 0u8);
                assert(encode_utf8(s).contains(0u8));
            } else {
                assert(s.drop_first()[i - 1] == '\0');
                assert(s.drop_first().contains('\0'));
                let k = choose|k: int| 0 <= k < tail.len() && tail[k] == 0u8;
                assert((head + tail)[head.len() + k] == 0u8);
                assert(encode_utf8(s).contains(0u8));
            }
        }
    }
}

} // verus!
