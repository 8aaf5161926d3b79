use license_gateway::error::DispatchError;
use license_gateway::request::IncomingRequest;
use license_gateway::responder::{json_response, respond, HandlerResult};
use license_gateway::router::{route, Route};
use license_gateway::status::StatusCode;

fn status(code: u16) -> StatusCode {
    StatusCode::from_u16(code).unwrap()
}

fn decode_failure() -> serde_json::Error {
    serde_json::from_str::<u32>("not a number").unwrap_err()
}

#[test]
fn status_code_bounds() {
    assert!(StatusCode::from_u16(0).is_none());
    assert!(StatusCode::from_u16(99).is_none());
    assert_eq!(StatusCode::from_u16(100).unwrap().as_u16(), 100);
    assert_eq!(StatusCode::from_u16(999).unwrap().as_u16(), 999);
    assert!(StatusCode::from_u16(1000).is_none());
    assert!(StatusCode::from_u16(u16::MAX).is_none());
}

#[test]
fn named_status_codes() {
    assert_eq!(StatusCode::not_found().as_u16(), 404);
    assert_eq!(StatusCode::internal_server_error().as_u16(), 500);
    assert_eq!(StatusCode::from_u16(404), Some(StatusCode::not_found()));
}

#[test]
fn select_finds_the_two_routes() {
    assert_eq!(Route::select("POST", "/license/create"), Some(Route::Create));
    assert_eq!(Route::select("POST", "/license/verify"), Some(Route::Verify));
}

#[test]
fn select_finds_nothing_else() {
    assert_eq!(Route::select("GET", "/license/create"), None);
    assert_eq!(Route::select("POST", "/license/verify/"), None);
    assert_eq!(Route::select("POST", "/license/creat"), None);
    assert_eq!(Route::select("POST", "/license/verifz"), None);
    assert_eq!(Route::select("/license/create", "POST"), None);
    assert_eq!(Route::select("", ""), None);
}

#[test]
fn route_reads_method_and_path_only() {
    let with_body = IncomingRequest::new("POST", "/license/create", vec![1, 2, 3]);
    let without = IncomingRequest::new("POST", "/license/create", Vec::new());
    assert_eq!(route(&with_body).unwrap(), Route::Create);
    assert_eq!(route(&without).unwrap(), Route::Create);
    let verify = IncomingRequest::new("POST", "/license/verify", Vec::new());
    assert_eq!(route(&verify).unwrap(), Route::Verify);
}

#[test]
fn route_rejects_with_not_found() {
    let request = IncomingRequest::new("PATCH", "/license/create", Vec::new());
    assert!(matches!(route(&request), Err(DispatchError::NotFound)));
}

#[test]
fn new_request_keeps_its_parts() {
    let request = IncomingRequest::new("POST", "/a/b", vec![9, 8]);
    assert_eq!(request.method, "POST");
    assert_eq!(request.path, "/a/b");
    assert_eq!(request.body, vec![9, 8]);
}

#[test]
fn respond_pairs_status_and_body() {
    let response = respond(status(201), Ok("{\"id\":1}".to_string())).unwrap();
    assert_eq!(response, (status(201), "{\"id\":1}".to_string()));
}

#[test]
fn respond_reports_the_encoders_failure() {
    let text = decode_failure().to_string();
    let error = respond(status(201), Err(decode_failure())).unwrap_err();
    match &error {
        DispatchError::Serialization(inner) => assert_eq!(inner.to_string(), text),
        other => panic!("got {:?}", other),
    }
    assert_eq!(error.message(), text);
    assert_eq!(error.status().as_u16(), 500);
}

#[test]
fn from_json_error_is_a_serialization_error() {
    let error = DispatchError::from(decode_failure());
    assert!(matches!(error, DispatchError::Serialization(_)));
}

#[test]
fn json_response_encodes_the_payload() {
    let outcome: HandlerResult<Vec<Option<bool>>> = Ok((status(200), vec![Some(true), None]));
    assert_eq!(json_response(outcome).unwrap(), (status(200), "[true,null]".to_string()));
}

#[test]
fn json_response_keeps_an_unusual_status() {
    let outcome: HandlerResult<u8> = Ok((status(999), 0));
    assert_eq!(json_response(outcome).unwrap(), (status(999), "0".to_string()));
}

#[test]
fn json_response_hands_an_error_on() {
    let outcome: HandlerResult<u8> =
        Err(DispatchError::Handler { status: status(409), message: "already issued".to_string() });
    match json_response(outcome) {
        Err(DispatchError::Handler { status: sent, message }) => {
            assert_eq!(sent.as_u16(), 409);
            assert_eq!(message, "already issued");
        }
        other => panic!("got {:?}", other),
    }
}

#[test]
fn from_parts_keeps_a_given_status() {
    let error = DispatchError::from_parts(Some(status(422)), "bad signature".to_string());
    assert_eq!(error.status().as_u16(), 422);
    assert_eq!(error.message(), "bad signature");
    assert!(matches!(error, DispatchError::Handler { .. }));
}

#[test]
fn from_parts_defaults_to_internal_server_error() {
    let error = DispatchError::from_parts(None, "disk full".to_string());
    assert_eq!(error.status(), StatusCode::internal_server_error());
    assert_eq!(error.message(), "disk full");
}
