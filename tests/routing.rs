use mini_router::endpoint::{IntoHandler, Service};
use mini_router::extractor::{json_from_body, FromRequest, Rejection, State};
use mini_router::middleware::LogLayer;
use mini_router::request::{Parts, Request};
use mini_router::response::{IntoMiniResponse, Json, MiniResponse, StatusCode};
use mini_router::router::Router;

fn get(path: &str) -> Request {
    Request::new("GET".to_string(), path.to_string(), Vec::new(), Vec::new())
}

fn post(path: &str, body: &[u8]) -> Request {
    Request::new(
        "POST".to_string(),
        path.to_string(),
        vec![("content-type".to_string(), "application/json".to_string())],
        body.to_vec(),
    )
}

fn hello() -> (StatusCode, Json<Vec<u8>>) {
    (StatusCode::ok(), Json(br#"{"message":"Hello world!"}"#.to_vec()))
}

fn echo(body: Json<Vec<u8>>) -> Json<Vec<u8>> {
    body
}

fn first() -> &'static str {
    "first"
}

fn second() -> &'static str {
    "second"
}

#[test]
fn hello_world_route() {
    let router = Router::stateless().route("/", IntoHandler::<(), ()>::into_handler(hello, ()));
    let resp = router.call(get("/"));
    assert_eq!(resp.status(), 200);
    assert_eq!(resp.content_type(), "application/json");
    assert_eq!(resp.body().as_slice(), br#"{"message":"Hello world!"}"#);
}

#[test]
fn echo_route_returns_body() {
    let h = IntoHandler::<(Json<Vec<u8>>,), ()>::into_handler(echo, ());
    let router = Router::stateless().route("/echo", h);
    let resp = router.call(post("/echo", br#"{"a":1}"#));
    assert_eq!(resp.status(), 200);
    assert_eq!(resp.content_type(), "application/json");
    assert_eq!(resp.body().as_slice(), br#"{"a":1}"#);
}

#[test]
fn missing_route_is_not_found() {
    let router = Router::stateless().route("/", IntoHandler::<(), ()>::into_handler(hello, ()));
    let resp = router.call(get("/missing"));
    assert_eq!(resp.status(), 404);
    assert_eq!(resp.content_type(), "text/plain");
    assert_eq!(resp.body().as_slice(), b"Not found");
}

#[test]
fn empty_router_is_not_found() {
    let router: Router<(), mini_router::endpoint::IntoHandlerStruct<fn() -> &'static str, (), ()>> =
        Router::stateless();
    let resp = router.call(get("/"));
    assert_eq!(resp.status(), 404);
    assert_eq!(resp.body().as_slice(), b"Not found");
}

#[test]
fn paths_match_exactly() {
    let router = Router::stateless().route("/a", IntoHandler::<(), ()>::into_handler(hello, ()));
    assert_eq!(router.call(get("/a/")).status(), 404);
    assert_eq!(router.call(get("/")).status(), 404);
    assert_eq!(router.call(get("/A")).status(), 404);
    assert_eq!(router.call(get("/a")).status(), 200);
}

#[test]
fn second_registration_wins() {
    let f: fn() -> &'static str = first;
    let s: fn() -> &'static str = second;
    let router = Router::stateless()
        .route("/x", IntoHandler::<(), ()>::into_handler(f, ()))
        .route("/x", IntoHandler::<(), ()>::into_handler(s, ()));
    let resp = router.call(get("/x"));
    assert_eq!(resp.status(), 200);
    assert_eq!(resp.body().as_slice(), b"second");
}

#[test]
fn later_routes_leave_earlier_ones() {
    let f: fn() -> &'static str = first;
    let s: fn() -> &'static str = second;
    let router = Router::stateless()
        .route("/one", IntoHandler::<(), ()>::into_handler(f, ()))
        .route("/two", IntoHandler::<(), ()>::into_handler(s, ()));
    assert_eq!(router.call(get("/one")).body().as_slice(), b"first");
    assert_eq!(router.call(get("/two")).body().as_slice(), b"second");
    assert_eq!(router.call(get("/one")).body().as_slice(), b"first");
}

#[test]
fn plain_text_is_not_quoted() {
    let resp = "hello".into_response();
    assert_eq!(resp.status(), 200);
    assert_eq!(resp.content_type(), "text/plain");
    assert_eq!(resp.body().as_slice(), b"hello");
    let resp = (StatusCode::from_u16(201).unwrap(), "made").into_response();
    assert_eq!(resp.status(), 201);
    assert_eq!(resp.body().as_slice(), b"made");
}

#[test]
fn result_converts_either_side() {
    let ok: Result<Json<Vec<u8>>, (StatusCode, &'static str)> = Ok(Json(b"[1,2]".to_vec()));
    let resp = ok.into_response();
    assert_eq!(resp.status(), 200);
    assert_eq!(resp.body().as_slice(), b"[1,2]");
    let err: Result<Json<Vec<u8>>, (StatusCode, &'static str)> = Err((StatusCode::from_u16(500).unwrap(), "broken"));
    let resp = err.into_response();
    assert_eq!(resp.status(), 500);
    assert_eq!(resp.content_type(), "text/plain");
    assert_eq!(resp.body().as_slice(), b"broken");
}

#[test]
fn malformed_json_is_rejected() {
    let h = IntoHandler::<(Json<Vec<u8>>,), ()>::into_handler(echo, ());
    let router = Router::stateless().route("/echo", h);
    let resp = router.call(post("/echo", b"{\"a\":"));
    assert_eq!(resp.status(), 400);
    assert_eq!(resp.content_type(), "text/plain");
    assert_eq!(resp.body().as_slice(), b"Invalid JSON body");
    let r = <Json<Vec<u8>> as FromRequest<()>>::from_request(post("/echo", b"not json"), &());
    assert!(matches!(r, Err(Rejection::InvalidJson)));
    let r = <Json<Vec<u8>> as FromRequest<()>>::from_request(post("/echo", b" [true, null] "), &());
    assert!(r.is_ok());
}

fn path_and_body(parts: Parts, body: Json<Vec<u8>>) -> (StatusCode, Json<Vec<u8>>) {
    let mut out = parts.path.into_bytes();
    out.push(b'|');
    out.extend_from_slice(&body.0);
    out.push(b'|');
    out.extend_from_slice(parts.headers[0].1.as_bytes());
    (StatusCode::ok(), Json(out))
}

#[test]
fn parts_seen_before_body_is_consumed() {
    let h = IntoHandler::<(Parts, Json<Vec<u8>>), ()>::into_handler(path_and_body, ());
    let router = Router::stateless().route("/both", h);
    let resp = router.call(post("/both", b"[7]"));
    assert_eq!(resp.status(), 200);
    assert_eq!(resp.body().as_slice(), b"/both|[7]|application/json");
}

fn status_from_state(s: State<u16>) -> (StatusCode, &'static str) {
    (StatusCode::from_u16(s.0).unwrap(), "state")
}

fn state_and_body(s: State<u16>, body: Json<Vec<u8>>) -> (StatusCode, Json<Vec<u8>>) {
    (StatusCode::from_u16(s.0).unwrap(), body)
}

#[test]
fn state_is_handed_to_handlers() {
    let router = Router::with_state(203u16);
    let h = router.bind::<(State<u16>,), _>(status_from_state);
    let router = router.route("/s", h);
    let resp = router.call(get("/s"));
    assert_eq!(resp.status(), 203);
    assert_eq!(resp.body().as_slice(), b"state");

    let h = IntoHandler::<(State<u16>, Json<Vec<u8>>), u16>::into_handler(state_and_body, 202);
    let resp = h.call(post("/p", b"{}"));
    assert_eq!(resp.status(), 202);
    assert_eq!(resp.body().as_slice(), b"{}");
}

#[test]
fn layer_wraps_every_route() {
    let f: fn() -> &'static str = first;
    let s: fn() -> &'static str = second;
    let router = Router::stateless()
        .route("/a", IntoHandler::<(), ()>::into_handler(f, ()))
        .route("/b", IntoHandler::<(), ()>::into_handler(s, ()))
        .layer(LogLayer);
    assert_eq!(router.call(get("/a")).body().as_slice(), b"first");
    assert_eq!(router.call(get("/b")).body().as_slice(), b"second");
    assert!(router.lookup("/a").is_some());
    assert!(router.lookup("/b").is_some());
    assert!(router.lookup("/c").is_none());
    assert_eq!(router.call(get("/c")).status(), 404);
}

#[test]
fn json_body_parses_back_to_the_value() {
    let value: serde_json::Value =
        serde_json::from_str(r#"{"message":"Hello world!","n":[1,2.5,null,true]}"#).unwrap();
    let bytes = serde_json::to_vec(&value).unwrap();
    let resp: MiniResponse = Json(bytes).into_response();
    let back: serde_json::Value = serde_json::from_slice(resp.body()).unwrap();
    assert_eq!(back, value);
}

#[test]
fn parts_duplicate_is_equal() {
    let req = post("/d", b"1");
    let (parts, body) = req.into_parts();
    let copy = parts.duplicate();
    assert_eq!(copy.method, parts.method);
    assert_eq!(copy.path, parts.path);
    assert_eq!(copy.headers, parts.headers);
    let again = Request::from_parts(parts, body);
    assert_eq!(again.path(), "/d");
    assert_eq!(again.body, b"1".to_vec());
}

#[test]
fn into_service_rebinds_state() {
    let h = IntoHandler::<(), u8>::into_handler(first as fn() -> &'static str, 1u8);
    let _service = h.into_service(2u8);
}

#[test]
fn same_text_compares_characters() {
    assert!(mini_router::same_text("", ""));
    assert!(mini_router::same_text("héllo", "héllo"));
    assert!(!mini_router::same_text("abc", "abd"));
    assert!(!mini_router::same_text("ab", "abc"));
}

#[test]
fn bind_captures_router_state() {
    let router = Router::with_state(207u16);
    let h = router.bind::<(State<u16>, Json<Vec<u8>>), _>(state_and_body);
    let router = router.route("/b", h);
    let resp = router.call(post("/b", b"null"));
    assert_eq!(resp.status(), 207);
    assert_eq!(resp.body().as_slice(), b"null");
}

#[test]
fn status_codes_lie_in_range() {
    assert!(StatusCode::from_u16(0).is_none());
    assert!(StatusCode::from_u16(99).is_none());
    assert!(StatusCode::from_u16(1000).is_none());
    assert_eq!(StatusCode::from_u16(100).unwrap().as_u16(), 100);
    assert_eq!(StatusCode::from_u16(999).unwrap().as_u16(), 999);
    assert_eq!(StatusCode::ok().as_u16(), 200);
    assert_eq!(StatusCode::bad_request().as_u16(), 400);
    assert_eq!(StatusCode::not_found().as_u16(), 404);
}

#[test]
fn json_decision_follows_verdict() {
    match json_from_body(b"{\"a\":1}".to_vec(), true) {
        Ok(j) => assert_eq!(j.0, b"{\"a\":1}".to_vec()),
        Err(_) => panic!("a parsed body is accepted"),
    }
    assert!(matches!(json_from_body(b"{".to_vec(), false), Err(Rejection::InvalidJson)));
}
