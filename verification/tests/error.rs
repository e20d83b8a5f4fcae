use bazaar_realm_client::error::{extract_error_from_response, server_error_from, ClassifiedError, ServerError};

#[test]
fn structured_body_gives_title_and_detail() {
    let body = br#"{"title":"Internal Server Error","detail":"disk full","status":500}"#;
    let error = extract_error_from_response(500, body);
    assert_eq!(
        error,
        ServerError {
            status: 500,
            title: "Internal Server Error".to_string(),
            detail: Some("disk full".to_string()),
        }
    );
}

#[test]
fn unstructured_body_is_the_title() {
    let error = extract_error_from_response(500, b"Internal Server Error");
    assert_eq!(
        error,
        ServerError { status: 500, title: "Internal Server Error".to_string(), detail: None }
    );
}

#[test]
fn empty_body_falls_back_to_the_reason_phrase() {
    let error = extract_error_from_response(404, b"");
    assert_eq!(error, ServerError { status: 404, title: "Not Found".to_string(), detail: None });
}

#[test]
fn body_that_is_no_text_falls_back_to_the_reason_phrase() {
    let error = extract_error_from_response(502, &[0xff, 0xfe, 0x00]);
    assert_eq!(error, ServerError { status: 502, title: "Bad Gateway".to_string(), detail: None });
}

#[test]
fn status_without_a_reason_phrase_is_unknown() {
    let error = extract_error_from_response(599, b"");
    assert_eq!(error, ServerError { status: 599, title: "unknown".to_string(), detail: None });
    let error = extract_error_from_response(42, b"");
    assert_eq!(error, ServerError { status: 42, title: "unknown".to_string(), detail: None });
}

#[test]
fn problem_without_a_title_has_an_empty_one() {
    let error = extract_error_from_response(400, br#"{"detail":"no such shop"}"#);
    assert_eq!(
        error,
        ServerError { status: 400, title: String::new(), detail: Some("no such shop".to_string()) }
    );
}

#[test]
fn server_error_from_prefers_the_problem() {
    let error = server_error_from(
        500,
        Some(("Title".to_string(), None)),
        Some("body".to_string()),
        Some("Internal Server Error".to_string()),
    );
    assert_eq!(error, ServerError { status: 500, title: "Title".to_string(), detail: None });
    let error = server_error_from(500, None, Some("body".to_string()), Some("reason".to_string()));
    assert_eq!(error.title, "body");
    let error = server_error_from(500, None, Some(String::new()), Some("reason".to_string()));
    assert_eq!(error.title, "reason");
    let error = server_error_from(500, None, None, None);
    assert_eq!(error.title, "unknown");
}

#[test]
fn server_error_text_with_and_without_detail() {
    let with = ServerError {
        status: 500,
        title: "Internal Server Error".to_string(),
        detail: Some("Some error detail".to_string()),
    };
    assert_eq!(with.to_text(), "Server 500 Internal Server Error: Some error detail");
    let without =
        ServerError { status: 500, title: "Internal Server Error".to_string(), detail: None };
    assert_eq!(without.to_text(), "Server 500 Internal Server Error");
}

#[test]
fn the_two_classes_stay_apart() {
    let server = ClassifiedError::ServerError(ServerError {
        status: 503,
        title: "Service Unavailable".to_string(),
        detail: None,
    });
    let network = ClassifiedError::network("connection refused".to_string());
    assert!(server.is_server_error());
    assert!(!network.is_server_error());
    assert_eq!(network.to_text(), "connection refused");
    assert_eq!(server.to_text(), "Server 503 Service Unavailable");
    assert_eq!(network, ClassifiedError::NetworkError { message: "connection refused".to_string() });
}
