use mcp_datadog::error::DatadogError;

fn assert_send_sync<T: Send + Sync>() {}

#[test]
fn test_api_error_display() {
    let error = DatadogError::ApiError("Test error".to_string());
    let error_msg = error.message();
    assert!(error_msg.contains("API request failed"));
    assert!(error_msg.contains("Test error"));
}

#[test]
fn test_auth_error_display() {
    let error = DatadogError::AuthError("Invalid credentials".to_string());
    let error_msg = error.message();
    assert!(error_msg.contains("Authentication failed"));
    assert!(error_msg.contains("Invalid credentials"));
}

#[test]
fn test_date_parse_error_display() {
    let error = DatadogError::DateParseError("Bad format".to_string());
    let error_msg = error.message();
    assert!(error_msg.contains("Invalid date format"));
}

#[test]
fn test_invalid_input_display() {
    let error = DatadogError::InvalidInput("Missing parameter".to_string());
    let error_msg = error.message();
    assert!(error_msg.contains("Invalid input"));
}

#[test]
fn test_rate_limit_error_display() {
    let error = DatadogError::RateLimitError;
    let error_msg = error.message();
    assert!(error_msg.contains("Rate limit exceeded"));
}

#[test]
fn test_timeout_error_display() {
    let error = DatadogError::TimeoutError;
    let error_msg = error.message();
    assert!(error_msg.contains("Timeout occurred"));
}

#[test]
fn test_error_is_send_and_sync() {
    assert_send_sync::<DatadogError>();
}

#[test]
fn test_error_debug_format() {
    let error = DatadogError::ApiError("test".to_string());
    let debug_str = format!("{:?}", error);
    assert!(debug_str.contains("ApiError"));
}

#[test]
fn test_every_error_message() {
    let cases = [
        (
            DatadogError::ApiError("HTTP 500".to_string()),
            "API request failed: HTTP 500",
        ),
        (
            DatadogError::AuthError("denied".to_string()),
            "Authentication failed: denied",
        ),
        (
            DatadogError::DateParseError("soon".to_string()),
            "Invalid date format: soon",
        ),
        (
            DatadogError::NetworkError("refused".to_string()),
            "Network error: refused",
        ),
        (
            DatadogError::JsonError("expected value at line 1 column 1".to_string()),
            "JSON parsing error: expected value at line 1 column 1",
        ),
        (
            DatadogError::InvalidInput(String::new()),
            "Invalid input: ",
        ),
        (DatadogError::RateLimitError, "Rate limit exceeded"),
        (DatadogError::TimeoutError, "Timeout occurred"),
    ];
    for (error, message) in cases {
        assert_eq!(error.message(), message);
    }
}

#[test]
fn test_json_error_conversion() {
    let json_str = "invalid json {";
    let result: serde_json::Result<serde_json::Value> = serde_json::from_str(json_str);
    let error = result.map_err(DatadogError::from).unwrap_err();

    match error {
        DatadogError::JsonError(_) => {}
        _ => panic!("Expected JsonError"),
    }
}

#[test]
fn json_error_keeps_the_codec_diagnostic() {
    let failure = serde_json::from_str::<serde_json::Value>("[1,").unwrap_err();
    let shown = failure.to_string();
    assert!(!shown.is_empty());
    assert_eq!(
        DatadogError::from(failure).message(),
        format!("JSON parsing error: {}", shown)
    );
}

#[test]
fn transport_error_keeps_the_transport_diagnostic() {
    let failure = reqwest::Client::new()
        .get("no address at all")
        .build()
        .unwrap_err();
    let shown = failure.to_string();
    assert!(!shown.is_empty());
    let kept = DatadogError::from(failure);
    assert_eq!(kept, DatadogError::NetworkError(shown.clone()));
    assert_eq!(kept.message(), format!("Network error: {}", shown));
}
