use taskio_server::errors::{ApiError, ErrorBody};
use taskio_server::routes::health::health_check;
use taskio_server::utils::not_found;

fn body(error: &str, message: &str) -> ErrorBody {
    ErrorBody { error: error.to_string(), message: message.to_string() }
}

#[test]
fn constructors_keep_the_message() {
    assert_eq!(ApiError::not_found("task"), ApiError::NotFound("task".to_string()));
    assert_eq!(ApiError::bad_request("no title"), ApiError::BadRequest("no title".to_string()));
    assert_eq!(ApiError::invalid_uuid(), ApiError::InvalidUuid("Invalid UUID format".to_string()));
}

#[test]
fn not_found_is_answered_404() {
    assert_eq!(
        ApiError::NotFound("task not found".to_string()).into_response(),
        (404, body("NotFound", "task not found"))
    );
}

#[test]
fn bad_request_is_answered_400() {
    assert_eq!(
        ApiError::BadRequest("title is missing".to_string()).into_response(),
        (400, body("BadRequest", "title is missing"))
    );
}

#[test]
fn invalid_identifier_is_answered_400() {
    assert_eq!(
        ApiError::invalid_uuid().into_response(),
        (400, body("InvalidUuid", "Invalid UUID format"))
    );
}

#[test]
fn database_detail_stays_on_the_server() {
    assert_eq!(
        ApiError::Database("connection refused by 10.0.0.7".to_string()).into_response(),
        (500, body("DatabaseError", "Internal server error"))
    );
}

#[test]
fn internal_detail_stays_on_the_server() {
    assert_eq!(
        ApiError::Internal("index out of range".to_string()).into_response(),
        (500, body("InternalError", "Internal server error"))
    );
}

#[test]
fn an_empty_message_is_kept_empty() {
    assert_eq!(ApiError::not_found("").into_response(), (404, body("NotFound", "")));
}

#[test]
fn a_parse_failure_of_the_uuid_crate_converts() {
    let failure = uuid::Uuid::parse_str("not-a-uuid").unwrap_err();
    assert_eq!(ApiError::from(failure), ApiError::InvalidUuid("Invalid UUID format".to_string()));
}

#[test]
fn missing_resource_response() {
    assert_eq!(not_found("task"), (404, body("NotFound", "task not found")));
    assert_eq!(not_found("log"), (404, body("NotFound", "log not found")));
    assert_eq!(not_found(""), (404, body("NotFound", " not found")));
}

#[test]
fn health_probe_answers_ok() {
    let (status, response) = health_check();
    assert_eq!(status, 200);
    assert_eq!(response.status, "ok");
    assert_eq!(response.message, "Taskio API is running");
}
