use vstd::prelude::*;

use crate::request::{Parts, PartsView, Request, RequestView};
use crate::response::{text_response, IntoMiniResponse, Json, MiniResponse, ResponseView, StatusCode,
    BAD_REQUEST};

verus! {

/// Whether serde_json reads `b` as exactly one JSON value: well-formed text,
/// nested at most 128 levels deep, with every number in range.
pub uninterp spec fn is_json_text(b: Seq<u8>) -> bool;

/// Relies on serde_json::from_slice into a `serde_json::Value`: whether it
/// succeeds depends on the bytes alone; only that outcome is kept.
#[verifier::external_body]
fn parses_as_json(b: &[u8]) -> (r: bool)
    ensures
        r == is_json_text(b@),
{
    serde_json::from_slice::<serde_json::Value>(b).is_ok()
}

/// Why an extractor could not produce its value.
#[derive(Debug, Clone, Copy, PartialEq, Eq, Structural)]
pub enum Rejection {
    /// The body is not well-formed JSON.
    InvalidJson,
}

impl IntoMiniResponse for Rejection {
    open spec fn response_spec(&self) -> ResponseView {
        text_response(BAD_REQUEST, "Invalid JSON body"@)
    }

    fn into_response(self) -> (r: MiniResponse) {
        MiniResponse::text(StatusCode::bad_request(), "Invalid JSON body")
    }
}

/// An extractor that reads the whole request, body included. A handler has
/// at most one, in its last position.
pub trait FromRequest<S>: Sized {
    /// `out` is what extraction may give on a request whose content is `req`.
    spec fn from_request_spec(req: RequestView, state: S, out: Result<Self, Rejection>) -> bool;

    fn from_request(req: Request, state: &S) -> (r: Result<Self, Rejection>)
        ensures
            Self::from_request_spec(req@, *state, r),
    ;
}

/// An extractor that reads method, path and headers only, never the body.
pub trait FromRequestParts<S>: Sized {
    /// `out` is what extraction may give on parts whose content is `parts`.
    spec fn from_parts_spec(parts: PartsView, state: S, out: Self) -> bool;

    fn from_request_parts(parts: Parts, state: &S) -> (r: Self)
        ensures
            Self::from_parts_spec(parts@, *state, r),
    ;
}

/// What the JSON body extractor gives on a body: the bytes themselves when
/// they are JSON text, else a rejection.
pub open spec fn json_extraction(body: Seq<u8>, out: Result<Json<Vec<u8>>, Rejection>) -> bool {
    match out {
        Ok(j) => is_json_text(body) && j.0@ == body,
        Err(e) => !is_json_text(body) && e == Rejection::InvalidJson,
    }
}

/// Decides the JSON body extraction from the body and the parser's verdict
/// on it: the body itself when it parsed, else a rejection.
pub fn json_from_body(body: Vec<u8>, parsed: bool) -> (r: Result<Json<Vec<u8>>, Rejection>)
    ensures
        parsed ==> (r matches Ok(j) && j.0@ == body@),
        !parsed ==> r == Err::<Json<Vec<u8>>, Rejection>(Rejection::InvalidJson),
{
    if parsed {
        Ok(Json(body))
    } else {
        Err(Rejection::InvalidJson)
    }
}

impl<S> FromRequest<S> for Json<Vec<u8>> {
    open spec fn from_request_spec(
        req: RequestView,
        state: S,
        out: Result<Json<Vec<u8>>, Rejection>,
    ) -> bool {
        json_extraction(req.body, out)
    }

    fn from_request(req: Request, state: &S) -> (r: Result<Json<Vec<u8>>, Rejection>) {
        let (_parts, body) = req.into_parts();
        let parsed = parses_as_json(body.as_slice());
        json_from_body(body, parsed)
    }
}

/// The bound state of the router, handed to a handler as a clone.
pub struct State<T>(pub T);

impl<S: Clone> FromRequestParts<S> for State<S> {
    open spec fn from_parts_spec(parts: PartsView, state: S, out: State<S>) -> bool {
        cloned(state, out.0)
    }

    fn from_request_parts(parts: Parts, state: &S) -> (r: State<S>) {
        State(state.clone())
    }
}

impl<S: Clone> FromRequest<S> for State<S> {
    open spec fn from_request_spec(req: RequestView, state: S, out: Result<State<S>, Rejection>) -> bool {
        out is Ok && cloned(state, out->Ok_0.0)
    }

    fn from_request(req: Request, state: &S) -> (r: Result<State<S>, Rejection>) {
        Ok(State(state.clone()))
    }
}

/// The parts themselves, as a parts extractor.
impl<S> FromRequestParts<S> for Parts {
    open spec fn from_parts_spec(parts: PartsView, state: S, out: Parts) -> bool {
        out@ == parts
    }

    fn from_request_parts(parts: Parts, state: &S) -> (r: Parts) {
        parts
    }
}

impl<S, T1: FromRequest<S>> FromRequest<S> for (T1,) {
    open spec fn from_request_spec(req: RequestView, state: S, out: Result<(T1,), Rejection>) -> bool {
        match out {
            Ok(t) => T1::from_request_spec(req, state, Ok(t.0)),
            Err(e) => T1::from_request_spec(req, state, Err(e)),
        }
    }

    fn from_request(req: Request, state: &S) -> (r: Result<(T1,), Rejection>) {
        match T1::from_request(req, state) {
            Ok(t1) => Ok((t1,)),
            Err(e) => Err(e),
        }
    }
}

/// The first value is taken from a copy of the parts, before the body
/// extractor consumes the request rebuilt from the untouched parts and body.
impl<S, T1: FromRequestParts<S>, T2: FromRequest<S>> FromRequest<S> for (T1, T2) {
    open spec fn from_request_spec(req: RequestView, state: S, out: Result<(T1, T2), Rejection>) -> bool {
        match out {
            Ok(t) => T1::from_parts_spec(req.parts, state, t.0) && T2::from_request_spec(
                req,
                state,
                Ok(t.1),
            ),
            Err(e) => exists|t1: T1|
                T1::from_parts_spec(req.parts, state, t1) && T2::from_request_spec(
                    req,
                    state,
                    Err(e),
                ),
        }
    }

    fn from_request(req: Request, state: &S) -> (r: Result<(T1, T2), Rejection>) {
        let ghost whole = req@;
        let (parts, body) = req.into_parts();
        let t1 = T1::from_request_parts(parts.duplicate(), state);
        let req = Request::from_parts(parts, body);
        assert(req@ == whole);
        match T2::from_request(req, state) {
            Ok(t2) => Ok((t1, t2)),
            Err(e) => Err(e),
        }
    }
}

} // verus!
