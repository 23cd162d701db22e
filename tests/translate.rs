use api_response::{
    empty_body_read, handle_empty_response, handle_response, typed_body_read, ApiError, Body,
    BodyRead, ClientError, Status,
};

fn status(code: u16) -> Status {
    Status::from_u16(code).unwrap()
}

/// A real error from the HTTP client: a request to a URL that does not parse.
fn client_error() -> reqwest::Error {
    reqwest::Client::new().get("not a url").build().unwrap_err()
}

fn text(s: &str) -> Body<u32> {
    Body::Text(Ok(s.to_string()))
}

fn empty_text(s: &str) -> Body<()> {
    Body::Text(Ok(s.to_string()))
}

fn api_error(r: Result<u32, ClientError>) -> (u16, String) {
    match r {
        Err(ClientError::ApiError(ApiError { code, text })) => (code.as_u16(), text),
        _ => panic!("expected an ApiError"),
    }
}

fn empty_api_error(r: Result<(), ClientError>) -> (u16, String) {
    match r {
        Err(ClientError::ApiError(ApiError { code, text })) => (code.as_u16(), text),
        _ => panic!("expected an ApiError"),
    }
}

#[test]
fn success_gives_decoded_value() {
    let s = status(200);
    assert_eq!(typed_body_read(&s), BodyRead::Decode);
    assert_eq!(handle_response(s, Body::Decoded(Ok(42u32))).ok(), Some(42));
    let s = status(201);
    assert_eq!(handle_response(s, Body::Decoded(Ok(7u32))).ok(), Some(7));
}

#[test]
fn success_with_undecodable_body_is_parsing_error() {
    let r = handle_response::<u32>(status(200), Body::Decoded(Err(client_error())));
    assert!(matches!(r, Err(ClientError::ParsingError(_))));
}

#[test]
fn unauthorized_from_both_whatever_the_body() {
    let s = status(401);
    assert_eq!(typed_body_read(&s), BodyRead::Text);
    assert_eq!(empty_body_read(&s), BodyRead::Skip);
    assert!(matches!(handle_response(s, text("")), Err(ClientError::Unauthorized)));
    assert!(matches!(
        handle_response(s, text("{\"error\":\"bad credentials\"}")),
        Err(ClientError::Unauthorized)
    ));
    assert!(matches!(handle_empty_response(s, Body::Unread), Err(ClientError::Unauthorized)));
}

#[test]
fn unauthorized_with_unreadable_text_is_parsing_error() {
    let r = handle_response::<u32>(status(401), Body::Text(Err(client_error())));
    assert!(matches!(r, Err(ClientError::ParsingError(_))));
}

#[test]
fn not_found_differs_between_translations() {
    let s = status(404);
    assert_eq!(typed_body_read(&s), BodyRead::Text);
    assert_eq!(empty_body_read(&s), BodyRead::Text);
    match handle_response(s, text("Object Not Found")) {
        Err(ClientError::NotFound(t)) => assert_eq!(t, "Object Not Found"),
        _ => panic!("expected NotFound"),
    }
    assert_eq!(
        empty_api_error(handle_empty_response(s, empty_text("Object Not Found"))),
        (404, "Object Not Found".to_string())
    );
}

#[test]
fn server_error_keeps_code_and_text() {
    let s = status(500);
    assert_eq!(api_error(handle_response(s, text("oops"))), (500, "oops".to_string()));
    assert_eq!(empty_api_error(handle_empty_response(s, empty_text("oops"))), (500, "oops".to_string()));
}

#[test]
fn other_client_error_is_api_error() {
    let s = status(403);
    assert_eq!(api_error(handle_response(s, text("forbidden"))), (403, "forbidden".to_string()));
    let s = status(302);
    assert_eq!(api_error(handle_response(s, text(""))), (302, String::new()));
}

#[test]
fn empty_success_needs_no_body() {
    let s = status(200);
    assert_eq!(empty_body_read(&s), BodyRead::Skip);
    assert!(handle_empty_response(s, Body::Unread).is_ok());
    assert!(handle_empty_response(status(204), Body::Unread).is_ok());
}

#[test]
fn unreadable_text_is_parsing_error() {
    let s = status(503);
    let r = handle_response::<u32>(s, Body::Text(Err(client_error())));
    assert!(matches!(r, Err(ClientError::ParsingError(_))));
    let r = handle_empty_response(s, Body::Text(Err(client_error())));
    assert!(matches!(r, Err(ClientError::ParsingError(_))));
}

#[test]
fn status_range_edges() {
    assert!(Status::from_u16(0).is_none());
    assert!(Status::from_u16(99).is_none());
    assert_eq!(Status::from_u16(100).map(|s| s.as_u16()), Some(100));
    assert_eq!(Status::from_u16(999).map(|s| s.as_u16()), Some(999));
    assert!(Status::from_u16(1000).is_none());
}

#[test]
fn success_class_edges() {
    assert!(!status(199).is_success());
    assert!(status(200).is_success());
    assert!(status(299).is_success());
    assert!(!status(300).is_success());
    assert_eq!(typed_body_read(&status(299)), BodyRead::Decode);
    assert_eq!(typed_body_read(&status(300)), BodyRead::Text);
}

#[test]
fn status_from_http_keeps_code() {
    assert_eq!(Status::from_http(&http::StatusCode::NOT_FOUND).as_u16(), 404);
    assert_eq!(Status::from_http(&http::StatusCode::IM_A_TEAPOT).as_u16(), 418);
    assert!(Status::from_http(&http::StatusCode::OK).is_success());
    assert_eq!(Status::from_http(&http::StatusCode::UNAUTHORIZED), status(401));
}
