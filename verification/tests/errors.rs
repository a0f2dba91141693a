use backend_core::errors::{
    ApiError, DatabaseError, ErrorResponse, STATUS_BAD_REQUEST, STATUS_INTERNAL_SERVER_ERROR,
};

fn reported(unique_violation: bool, message: &str, details: Option<&str>) -> DatabaseError {
    DatabaseError::Reported {
        unique_violation,
        message: message.to_string(),
        details: details.map(|d| d.to_string()),
    }
}

#[test]
fn unique_violation_is_a_bad_request_with_details() {
    let error = ApiError::from_database_error(reported(
        true,
        "duplicate key value violates unique constraint",
        Some("Key (email)=(a@b.co) already exists."),
    ));
    assert_eq!(error, ApiError::BadRequest("Key (email)=(a@b.co) already exists.".into()));
}

#[test]
fn unique_violation_without_details_uses_the_message() {
    let error = ApiError::from_database_error(reported(true, "duplicate key", None));
    assert_eq!(error, ApiError::BadRequest("duplicate key".into()));
}

#[test]
fn other_database_errors_are_internal() {
    let expected = ApiError::InternalServerError("Unknown database error".into());
    assert_eq!(ApiError::from_database_error(reported(false, "m", Some("d"))), expected);
    assert_eq!(ApiError::from_database_error(reported(false, "m", None)), expected);
    assert_eq!(ApiError::from_database_error(DatabaseError::Other), expected);
}

#[test]
fn bad_request_is_answered_with_its_message() {
    let error = ApiError::BadRequest("no such page".into());
    assert_eq!(error.status_code(), 400);
    assert_eq!(error.status_code(), STATUS_BAD_REQUEST);
    assert_eq!(error.response_body(), "no such page");
}

#[test]
fn other_errors_are_answered_as_internal() {
    let errors = vec![
        ApiError::BlockingError("a".into()),
        ApiError::CacheError("b".into()),
        ApiError::CannotDecodeJwtToken("c".into()),
        ApiError::CannotEncodeJwtToken("d".into()),
        ApiError::InternalServerError("e".into()),
        ApiError::NotFound("f".into()),
        ApiError::ParseError("g".into()),
        ApiError::PoolError("h".into()),
        ApiError::ValidationError(vec!["i".into()]),
        ApiError::Unauthorized("j".into()),
    ];
    for error in errors {
        assert_eq!(error.status_code(), 500);
        assert_eq!(error.status_code(), STATUS_INTERNAL_SERVER_ERROR);
        assert_eq!(error.response_body(), "Internal Server Error");
    }
}

#[test]
fn message_is_the_payload() {
    assert_eq!(ApiError::BadRequest("a".into()).message(), "a");
    assert_eq!(ApiError::BlockingError("b".into()).message(), "b");
    assert_eq!(ApiError::CacheError("c".into()).message(), "c");
    assert_eq!(ApiError::CannotDecodeJwtToken("d".into()).message(), "d");
    assert_eq!(ApiError::CannotEncodeJwtToken("e".into()).message(), "e");
    assert_eq!(ApiError::InternalServerError("f".into()).message(), "f");
    assert_eq!(ApiError::NotFound("g".into()).message(), "g");
    assert_eq!(ApiError::ParseError("h".into()).message(), "h");
    assert_eq!(ApiError::PoolError("i".into()).message(), "i");
    assert_eq!(ApiError::Unauthorized("j".into()).message(), "j");
    assert_eq!(ApiError::ValidationError(vec!["k".into(), "l".into()]).message(), "");
}

#[test]
fn error_response_of_one_message() {
    let response = ErrorResponse::from_message(&"went wrong".to_string());
    assert_eq!(response.errors(), &vec!["went wrong".to_string()]);
}

#[test]
fn error_response_of_many_messages() {
    let messages = vec!["first".to_string(), "second".to_string()];
    let response = ErrorResponse::from_messages(messages.clone());
    assert_eq!(response.errors(), &messages);
    assert_eq!(ErrorResponse::from_messages(vec![]).errors().len(), 0);
    assert_eq!(response, ErrorResponse::from_messages(messages));
}
