use stock_gateway::errors::ApiError;
use stock_gateway::json::parse;

#[test]
fn message_of_a_request_error() {
    let error = ApiError::ReqwestError("connection refused".to_string());
    assert_eq!(error.message(), "Request error: connection refused");
}

#[test]
fn message_of_a_json_error() {
    let error = ApiError::JsonError("expected value".to_string());
    assert_eq!(error.message(), "JSON parse error: expected value");
}

#[test]
fn message_of_a_missing_resource() {
    let error = ApiError::NotFound("quote data not found".to_string());
    assert_eq!(error.message(), "Resource not found: quote data not found");
}

#[test]
fn message_of_a_service_error() {
    let error = ApiError::ServiceError("503".to_string());
    assert_eq!(error.message(), "Service error: 503");
}

#[test]
fn message_with_an_empty_detail_is_the_prefix() {
    assert_eq!(ApiError::NotFound(String::new()).message(), "Resource not found: ");
}

#[test]
fn only_a_missing_resource_is_reported_as_404() {
    assert_eq!(ApiError::NotFound("x".to_string()).status_code(), 404);
    assert_eq!(ApiError::ReqwestError("x".to_string()).status_code(), 500);
    assert_eq!(ApiError::JsonError("x".to_string()).status_code(), 500);
    assert_eq!(ApiError::ServiceError("x".to_string()).status_code(), 500);
}

#[test]
fn a_parser_error_converts_to_a_json_error_with_its_text() {
    let failure = serde_json::from_str::<serde_json::Value>("not json").unwrap_err();
    let text = failure.to_string();
    assert_eq!(ApiError::from(failure), ApiError::JsonError(text));
}

#[test]
fn a_malformed_text_gives_the_parser_s_words() {
    let outcome = parse("not json");
    assert_eq!(
        outcome,
        Err(ApiError::JsonError("expected ident at line 1 column 2".to_string()))
    );
}

#[test]
fn an_empty_text_gives_the_parser_s_words() {
    let outcome = parse("");
    assert_eq!(
        outcome,
        Err(ApiError::JsonError("EOF while parsing a value at line 1 column 0".to_string()))
    );
}
