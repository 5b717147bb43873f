//! Requests and responses as the handler sees them, and the fixed shapes of
//! its responses.

use crate::json::{json_string_literal, string_literal};
use vstd::prelude::*;
use vstd::utf8::{decode_utf8, valid_utf8};

verus! {

/// An inbound HTTP request: its method and, when one was sent, its raw body.
#[derive(Debug, Clone)]
pub struct Request {
    pub method: String,
    pub body: Option<Vec<u8>>,
}

/// A request as plain values: method and raw body.
pub struct RequestModel {
    pub method: Seq<char>,
    pub body: Option<Seq<u8>>,
}

impl View for Request {
    type V = RequestModel;

    open spec fn view(&self) -> RequestModel {
        RequestModel {
            method: self.method@,
            body: match self.body {
                None => None,
                Some(b) => Some(b@),
            },
        }
    }
}

/// One response header.
#[derive(Debug, Clone)]
pub struct Header {
    pub name: String,
    pub value: String,
}

/// An outbound HTTP response.
#[derive(Debug, Clone)]
pub struct Response {
    pub status_code: u16,
    pub headers: Vec<Header>,
    pub body: String,
}

/// A response as plain values: status, headers in order, body text.
pub struct ResponseModel {
    pub status_code: u16,
    pub headers: Seq<(Seq<char>, Seq<char>)>,
    pub body: Seq<char>,
}

impl View for Header {
    type V = (Seq<char>, Seq<char>);

    open spec fn view(&self) -> (Seq<char>, Seq<char>) {
        (self.name@, self.value@)
    }
}

impl View for Response {
    type V = ResponseModel;

    open spec fn view(&self) -> ResponseModel {
        ResponseModel {
            status_code: self.status_code,
            headers: self.headers@.map_values(|h: Header| h@),
            body: self.body@,
        }
    }
}

pub open spec fn content_type_header() -> (Seq<char>, Seq<char>) {
    ("Content-Type"@, "application/json"@)
}

/// The headers that answer a CORS preflight request.
pub open spec fn cors_headers() -> Seq<(Seq<char>, Seq<char>)> {
    seq![
        ("Access-Control-Allow-Origin"@, "*"@),
        ("Access-Control-Allow-Methods"@, "POST, GET, OPTIONS"@),
        ("Access-Control-Allow-Headers"@, "Content-Type, Authorization"@),
    ]
}

/// A JSON response with the given status and body.
pub open spec fn json_response_model(status_code: u16, body: Seq<char>) -> ResponseModel {
    ResponseModel { status_code, headers: seq![content_type_header()], body }
}

/// The body `{"message":<msg>}`.
pub open spec fn message_body(msg: Seq<char>) -> Seq<char> {
    "{\"message\":"@ + json_string_literal(msg) + "}"@
}

/// A JSON response whose body carries only a message.
pub open spec fn message_response(status_code: u16, msg: Seq<char>) -> ResponseModel {
    json_response_model(status_code, message_body(msg))
}

pub open spec fn preflight_message() -> Seq<char> {
    "CORS preflight response"@
}

/// The answer to a preflight request: 200, JSON content type and the CORS
/// headers.
pub open spec fn preflight_model() -> ResponseModel {
    ResponseModel {
        status_code: 200,
        headers: seq![content_type_header()] + cors_headers(),
        body: message_body(preflight_message()),
    }
}

/// Relies on `std::str::from_utf8`: the text that `bytes` encode, when they
/// are valid UTF-8.
#[verifier::external_body]
pub(crate) fn utf8_text(bytes: &[u8]) -> (r: Option<&str>)
    ensures
        r is Some <==> valid_utf8(bytes@),
        r matches Some(s) ==> s@ == decode_utf8(bytes@),
{
    std::str::from_utf8(bytes).ok()
}

/// Whether two texts are the same.
pub fn same_text(a: &str, b: &str) -> (r: bool)
    ensures
        r == (a@ == b@),
{
    let n = a.unicode_len();
    if n != b.unicode_len() {
        return false;
    }
    let mut i: usize = 0;
    while i < n
        invariant
            n == a@.len(),
            n == b@.len(),
            i <= n,
            a@.subrange(0, i as int) == b@.subrange(0, i as int),
        decreases n - i,
    {
        if a.get_char(i) != b.get_char(i) {
            return false;
        }
        assert(a@.subrange(0, i + 1) =~= a@.subrange(0, i as int).push(a@[i as int]));
        assert(b@.subrange(0, i + 1) =~= b@.subrange(0, i as int).push(b@[i as int]));
        i = i + 1;
    }
    assert(a@ =~= a@.subrange(0, n as int));
    assert(b@ =~= b@.subrange(0, n as int));
    true
}

fn header(name: &str, value: &str) -> (h: Header)
    ensures
        h@ == (name@, value@),
{
    Header { name: String::from_str(name), value: String::from_str(value) }
}

/// A response with the given status, a JSON content type and the given body.
pub fn api_gateway_response(status_code: u16, body: String) -> (r: Response)
    ensures
        r@ == json_response_model(status_code, body@),
{
    let mut headers: Vec<Header> = Vec::new();
    headers.push(header("Content-Type", "application/json"));
    let r = Response { status_code, headers, body };
    assert(r@.headers =~= seq![content_type_header()]);
    r
}

/// The JSON body `{"message":<msg>}`, with `msg` written as a JSON string.
pub fn message_json(msg: &str) -> (r: String)
    ensures
        r@ == message_body(msg@),
{
    let literal = string_literal(msg);
    let mut body = String::from_str("{\"message\":");
    body.append(literal.as_str());
    body.append("}");
    body
}

/// A JSON response whose body carries only `msg`.
pub fn message_reply(status_code: u16, msg: &str) -> (r: Response)
    ensures
        r@ == message_response(status_code, msg@),
{
    api_gateway_response(status_code, message_json(msg))
}

/// The answer to a CORS preflight request.
pub fn preflight_response() -> (r: Response)
    ensures
        r@ == preflight_model(),
{
    let mut r = message_reply(200, "CORS preflight response");
    r.headers.push(header("Access-Control-Allow-Origin", "*"));
    r.headers.push(header("Access-Control-Allow-Methods", "POST, GET, OPTIONS"));
    r.headers.push(header("Access-Control-Allow-Headers", "Content-Type, Authorization"));
    assert(r@.headers =~= seq![content_type_header()] + cors_headers());
    r
}

} // verus!
