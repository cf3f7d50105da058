use sap_cloud_alm_mcp::error::{ApiError, AuthError, ConfigError};

#[test]
fn test_config_error_missing_field_display() {
    let error = ConfigError::MissingField("tenant".to_string());
    assert_eq!(error.to_string(), "Missing required field: tenant");
}

#[test]
fn test_config_error_invalid_display() {
    let error = ConfigError::Invalid("region must be valid".to_string());
    assert_eq!(error.to_string(), "Invalid configuration: region must be valid");
}

#[test]
fn test_auth_error_no_token_display() {
    let error = AuthError::NoToken;
    assert_eq!(error.to_string(), "No token available");
}

#[test]
fn test_auth_error_token_parse_display() {
    let error = AuthError::TokenParse("invalid JSON".to_string());
    assert_eq!(error.to_string(), "Token parse error: invalid JSON");
}

#[test]
fn test_auth_error_http_client_init_display() {
    let error = AuthError::HttpClientInit("connection timeout".to_string());
    assert_eq!(error.to_string(), "Failed to create HTTP client: connection timeout");
}

#[test]
fn test_auth_error_token_request_failed_display() {
    let error = AuthError::TokenRequestFailed {
        status: 401,
        body: "Invalid credentials".to_string(),
    };
    let display = error.to_string();
    assert!(display.contains("401"));
    assert!(display.contains("Invalid credentials"));
}

#[test]
fn test_api_error_http_error_display() {
    let error = ApiError::HttpError {
        status: 404,
        body: "Resource not found".to_string(),
    };
    let display = error.to_string();
    assert!(display.contains("404"));
    assert!(display.contains("Resource not found"));
}

#[test]
fn test_api_error_odata_error_display() {
    let error = ApiError::ODataError {
        status: 400,
        code: "INVALID_INPUT".to_string(),
        message: "Field 'title' is required".to_string(),
    };
    let display = error.to_string();
    assert!(display.contains("INVALID_INPUT"));
    assert!(display.contains("Field 'title' is required"));
}

#[test]
fn test_api_error_http_client_init_display() {
    let error = ApiError::HttpClientInit("TLS error".to_string());
    assert_eq!(error.to_string(), "Failed to create HTTP client: TLS error");
}

#[test]
fn test_api_error_from_auth_error() {
    let auth_error = AuthError::NoToken;
    let api_error: ApiError = auth_error.into();
    assert!(api_error.to_string().contains("Authentication error"));
}

#[test]
fn test_config_error_debug_format() {
    let error = ConfigError::MissingField("api_key".to_string());
    let debug = format!("{:?}", error);
    assert!(debug.contains("MissingField"));
    assert!(debug.contains("api_key"));
}

#[test]
fn test_auth_error_debug_format() {
    let error = AuthError::TokenParse("unexpected token".to_string());
    let debug = format!("{:?}", error);
    assert!(debug.contains("TokenParse"));
}

#[test]
fn test_api_error_debug_format() {
    let error = ApiError::ODataError {
        status: 500,
        code: "ERR500".to_string(),
        message: "Internal error".to_string(),
    };
    let debug = format!("{:?}", error);
    assert!(debug.contains("ODataError"));
    assert!(debug.contains("ERR500"));
}

#[test]
fn exact_error_texts() {
    let e = AuthError::TokenRequestFailed { status: 401, body: "nope".to_string() };
    assert_eq!(e.to_string(), "Token request failed with status 401: nope");
    let e = ApiError::HttpError { status: 503, body: "down".to_string() };
    assert_eq!(e.to_string(), "HTTP error 503: down");
    let e = ApiError::ODataError {
        status: 400,
        code: "C1".to_string(),
        message: "bad".to_string(),
    };
    assert_eq!(e.to_string(), "OData error [C1]: bad");
    let e = ApiError::Auth(AuthError::NoToken);
    assert_eq!(e.to_string(), "Authentication error: No token available");
    assert_eq!(ConfigError::Io("gone".to_string()).to_string(), "IO error: gone");
    assert_eq!(ConfigError::Json("eof".to_string()).to_string(), "JSON parse error: eof");
    assert_eq!(ApiError::Request("reset".to_string()).to_string(), "HTTP request error: reset");
    assert_eq!(ApiError::JsonParse("x".to_string()).to_string(), "JSON parse error: x");
}
