use pyorion::message::{
    is_success, Request, Response, STATUS_INTERNAL_ERROR, STATUS_NOT_FOUND, STATUS_OK,
};

#[test]
fn status_codes_have_their_classes() {
    assert_eq!(STATUS_OK, 200);
    assert_eq!(STATUS_NOT_FOUND, 404);
    assert_eq!(STATUS_INTERNAL_ERROR, 500);
    assert!(is_success(200));
    assert!(is_success(299));
    assert!(!is_success(199));
    assert!(!is_success(300));
    assert!(!is_success(404));
    assert!(!is_success(500));
    assert!(!is_success(0));
    assert!(!is_success(u16::MAX));
}

#[test]
fn a_success_carries_its_payload_and_no_message() {
    let response = Response::success("1".to_string(), "true".to_string());
    assert_eq!(
        response,
        Response {
            id: "1".to_string(),
            status: 200,
            message: String::new(),
            payload: "true".to_string()
        }
    );
    assert!(response.is_success());
}

#[test]
fn an_unknown_method_is_answered_with_404() {
    let response = Response::not_found("9".to_string());
    assert_eq!(
        response,
        Response {
            id: "9".to_string(),
            status: 404,
            message: "method not found".to_string(),
            payload: "null".to_string()
        }
    );
    assert!(!response.is_success());
}

#[test]
fn a_failure_always_carries_a_message() {
    let told = Response::failure("3".to_string(), "webview is gone".to_string());
    assert_eq!(told.status, 500);
    assert_eq!(told.message, "webview is gone");
    assert_eq!(told.payload, "null");
    assert_eq!(told.id, "3");
    assert!(!told.is_success());
    let untold = Response::failure("3".to_string(), String::new());
    assert_eq!(untold.status, 500);
    assert_eq!(untold.message, "Internal server error");
    assert!(!untold.message.is_empty());
}

#[test]
fn synthetic_responses_name_their_cause() {
    let lost = Response::internal_error("7".to_string());
    assert_eq!(
        lost,
        Response {
            id: "7".to_string(),
            status: 500,
            message: "Internal server error".to_string(),
            payload: "null".to_string()
        }
    );
    let closed = Response::event_loop_closed("8".to_string());
    assert_eq!(
        closed,
        Response {
            id: "8".to_string(),
            status: 500,
            message: "event loop closed".to_string(),
            payload: "null".to_string()
        }
    );
}

#[test]
fn copies_are_equal_to_their_originals() {
    let request = Request::new("1".to_string(), "ping".to_string(), "[]".to_string());
    assert_eq!(request.duplicate(), request);
    assert_eq!(request.id, "1");
    assert_eq!(request.method, "ping");
    assert_eq!(request.params, "[]");
    let response = Response::success("1".to_string(), "1".to_string());
    assert_eq!(response.duplicate(), response);
}
