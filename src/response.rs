use vstd::prelude::*;
use vstd::utf8::encode_utf8;
use vstd::string::StrSliceExecFns;

verus! {

/// What a response is: its status, its content type and its whole body.
pub struct ResponseView {
    pub status: u16,
    pub content_type: Seq<char>,
    pub body: Seq<u8>,
}

pub open spec fn json_content_type() -> Seq<char> {
    "application/json"@
}

pub open spec fn text_content_type() -> Seq<char> {
    "text/plain"@
}

pub const OK: u16 = 200;

pub const BAD_REQUEST: u16 = 400;

pub const NOT_FOUND: u16 = 404;

/// A JSON response with the given status whose body is exactly `body`.
pub open spec fn json_response(status: u16, body: Seq<u8>) -> ResponseView {
    ResponseView { status, content_type: json_content_type(), body }
}

/// A plain-text response with the given status whose body is the UTF-8 text of `text`.
pub open spec fn text_response(status: u16, text: Seq<char>) -> ResponseView {
    ResponseView { status, content_type: text_content_type(), body: encode_utf8(text) }
}

/// An HTTP status code: a number from 100 to 999.
#[derive(Clone, Copy)]
pub struct StatusCode {
    code: u16,
}

impl View for StatusCode {
    type V = u16;

    closed spec fn view(&self) -> u16 {
        self.code
    }
}

impl StatusCode {
    #[verifier::type_invariant]
    closed spec fn in_range(&self) -> bool {
        100 <= self.code <= 999
    }

    /// The status with number `code`, if it lies from 100 to 999.
    pub fn from_u16(code: u16) -> (r: Option<StatusCode>)
        ensures
            r is Some <==> 100 <= code <= 999,
            r matches Some(s) ==> s@ == code,
    {
        if 100 <= code && code <= 999 {
            Some(StatusCode { code })
        } else {
            None
        }
    }

    pub fn ok() -> (r: StatusCode)
        ensures
            r@ == OK,
    {
        StatusCode { code: OK }
    }

    pub fn bad_request() -> (r: StatusCode)
        ensures
            r@ == BAD_REQUEST,
    {
        StatusCode { code: BAD_REQUEST }
    }

    pub fn not_found() -> (r: StatusCode)
        ensures
            r@ == NOT_FOUND,
    {
        StatusCode { code: NOT_FOUND }
    }

    pub fn as_u16(&self) -> (r: u16)
        ensures
            r == self@,
            100 <= r <= 999,
    {
        proof {
            use_type_invariant(self);
        }
        self.code
    }
}

/// A finished response: status code, content type and a fully buffered body.
pub struct MiniResponse {
    code: StatusCode,
    content_type: String,
    bytes: Vec<u8>,
}

impl View for MiniResponse {
    type V = ResponseView;

    closed spec fn view(&self) -> ResponseView {
        ResponseView { status: self.code@, content_type: self.content_type@, body: self.bytes@ }
    }
}

impl MiniResponse {
    fn new(code: StatusCode, content_type: &str, bytes: Vec<u8>) -> (r: MiniResponse)
        ensures
            r@ == (ResponseView { status: code@, content_type: content_type@, body: bytes@ }),
    {
        MiniResponse { code, content_type: String::from_str(content_type), bytes }
    }

    /// A JSON response carrying `bytes` unchanged as its body.
    pub fn json(code: StatusCode, bytes: Vec<u8>) -> (r: MiniResponse)
        ensures
            r@ == json_response(code@, bytes@),
    {
        MiniResponse::new(code, "application/json", bytes)
    }

    /// A plain-text response whose body is the UTF-8 encoding of `text`.
    pub fn text(code: StatusCode, text: &str) -> (r: MiniResponse)
        ensures
            r@ == text_response(code@, text@),
    {
        MiniResponse::new(code, "text/plain", text.as_bytes_vec())
    }

    /// The fixed response for a path that no route matches.
    pub fn not_found() -> (r: MiniResponse)
        ensures
            r@ == text_response(NOT_FOUND, "Not found"@),
    {
        MiniResponse::text(StatusCode::not_found(), "Not found")
    }

    pub fn status(&self) -> (r: u16)
        ensures
            r == self@.status,
            100 <= r <= 999,
    {
        self.code.as_u16()
    }

    pub fn content_type(&self) -> (r: &str)
        ensures
            r@ == self@.content_type,
    {
        self.content_type.as_str()
    }

    pub fn body(&self) -> (r: &Vec<u8>)
        ensures
            r@ == self@.body,
    {
        &self.bytes
    }

    /// Takes the response apart into status, content type and body.
    pub fn into_parts(self) -> (r: (u16, String, Vec<u8>))
        ensures
            r.0 == self@.status,
            100 <= r.0 <= 999,
            r.1@ == self@.content_type,
            r.2@ == self@.body,
    {
        (self.code.as_u16(), self.content_type, self.bytes)
    }
}

/// Conversion of a handler's return value into a response.
pub trait IntoMiniResponse: Sized {
    /// The response that the value converts to.
    spec fn response_spec(&self) -> ResponseView;

    fn into_response(self) -> (r: MiniResponse)
        ensures
            r@ == self.response_spec(),
    ;
}

/// A JSON payload. As a response and as a body extractor it carries the
/// JSON text as bytes.
pub struct Json<T>(pub T);

impl IntoMiniResponse for Json<Vec<u8>> {
    open spec fn response_spec(&self) -> ResponseView {
        json_response(OK, self.0@)
    }

    fn into_response(self) -> (r: MiniResponse) {
        MiniResponse::json(StatusCode::ok(), self.0)
    }
}

impl IntoMiniResponse for (StatusCode, Json<Vec<u8>>) {
    open spec fn response_spec(&self) -> ResponseView {
        json_response(self.0@, self.1.0@)
    }

    fn into_response(self) -> (r: MiniResponse) {
        let (code, payload) = self;
        MiniResponse::json(code, payload.0)
    }
}

impl IntoMiniResponse for &'static str {
    open spec fn response_spec(&self) -> ResponseView {
        text_response(OK, self@)
    }

    fn into_response(self) -> (r: MiniResponse) {
        MiniResponse::text(StatusCode::ok(), self)
    }
}

impl IntoMiniResponse for (StatusCode, &'static str) {
    open spec fn response_spec(&self) -> ResponseView {
        text_response(self.0@, self.1@)
    }

    fn into_response(self) -> (r: MiniResponse) {
        let (code, text) = self;
        MiniResponse::text(code, text)
    }
}

impl<T: IntoMiniResponse, E: IntoMiniResponse> IntoMiniResponse for Result<T, E> {
    open spec fn response_spec(&self) -> ResponseView {
        match self {
            Ok(v) => v.response_spec(),
            Err(e) => e.response_spec(),
        }
    }

    fn into_response(self) -> (r: MiniResponse) {
        match self {
            Ok(v) => v.into_response(),
            Err(e) => e.into_response(),
        }
    }
}

} // verus!
