use vstd::prelude::*;

use crate::endpoint::Service;
use crate::extractor::{json_extraction, FromRequest, Rejection};
use crate::middleware::{Layer, LogLayer, LogService};
use crate::request::{Parts, RequestView};
use crate::response::{json_content_type, json_response, IntoMiniResponse, Json, ResponseView, OK};

verus! {

/// A route registered at `p` stays the one reached at `p` whatever is
/// registered afterwards at other paths: lookup depends on the table alone.
pub proof fn route_survives_other_routes<Svc>(
    table: Map<Seq<char>, Svc>,
    p: Seq<char>,
    h: Svc,
    q: Seq<char>,
    g: Svc,
)
    requires
        p != q,
    ensures
        table.insert(p, h).insert(q, g).contains_key(p),
        table.insert(p, h).insert(q, g)[p] == h,
{
}

/// Registering a path twice leaves only the second service reachable there.
pub proof fn route_twice_keeps_second<Svc>(table: Map<Seq<char>, Svc>, p: Seq<char>, a: Svc, b: Svc)
    ensures
        table.insert(p, a).insert(p, b) == table.insert(p, b),
        table.insert(p, a).insert(p, b)[p] == b,
{
    assert(table.insert(p, a).insert(p, b) =~= table.insert(p, b));
}

/// A JSON payload is sent as exactly its bytes, with the JSON content type,
/// so a client that parses the body reads the payload's own text.
pub proof fn json_response_is_payload(j: Json<Vec<u8>>)
    ensures
        j.response_spec().body == j.0@,
        j.response_spec().content_type == json_content_type(),
        j.response_spec().status == OK,
{
}

/// A JSON body that is extracted and returned unchanged comes back as the
/// very bytes that were sent.
pub proof fn json_echo_round_trip(body: Seq<u8>, out: Result<Json<Vec<u8>>, Rejection>)
    requires
        json_extraction(body, out),
        out is Ok,
    ensures
        out->Ok_0.response_spec() == json_response(OK, body),
{
}

/// In a two-value extraction the parts extractor sees the request's complete
/// method, path and headers, although the body extractor consumes the request.
pub proof fn pair_extraction_sees_whole_parts<S, T2: FromRequest<S>>(
    req: RequestView,
    state: S,
    out: Result<(Parts, T2), Rejection>,
)
    requires
        <(Parts, T2)>::from_request_spec(req, state, out),
        out is Ok,
    ensures
        out->Ok_0.0@ == req.parts,
        T2::from_request_spec(req, state, Ok(out->Ok_0.1)),
{
}

/// A service wrapped by the logging layer answers every request as the
/// service it wraps does.
pub proof fn log_layer_keeps_answers<Svc: Service>(
    inner: Svc,
    outer: LogService<Svc>,
    req: RequestView,
    resp: ResponseView,
)
    requires
        LogLayer.wraps(inner, outer),
    ensures
        outer.ready() == inner.ready(),
        outer.answers(req, resp) == inner.answers(req, resp),
{
}

} // verus!
