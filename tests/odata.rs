use sap_cloud_alm_mcp::error::ApiError;
use sap_cloud_alm_mcp::json::parse_json;
use sap_cloud_alm_mcp::odata::{
    delete_outcome, error_envelope, parse_error_response, parse_failure, read_outcome,
    rest_delete_outcome, rest_outcome, HttpMethod, KeyAddressing, ODataClient,
};

fn header_pairs(headers: &[(String, String)]) -> Vec<(&str, &str)> {
    headers.iter().map(|(a, b)| (a.as_str(), b.as_str())).collect()
}

#[test]
fn test_odata_error_response_deserialization() {
    let json = r#"{
        "error": {
            "code": "404",
            "message": "Resource not found"
        }
    }"#;

    let error = error_envelope(&parse_json(json).unwrap()).unwrap();
    assert_eq!(error.error.code, "404");
    assert_eq!(error.error.message, "Resource not found");
}

#[test]
fn get_entity_by_key_scenario() {
    let client = ODataClient::new("https://x".to_string(), false, false);
    let request = client.get_entity_request("/Features", "abc-123", "cached-token");
    assert_eq!(request.method, HttpMethod::Get);
    assert_eq!(request.url, "https://x/Features/abc-123");
    assert_eq!(
        header_pairs(&request.headers),
        vec![("Authorization", "Bearer cached-token"), ("Accept", "application/json")]
    );
    assert!(request.body.is_none());

    let outcome = read_outcome(404, r#"{"error":{"code":"404","message":"not found"}}"#.to_string());
    match outcome {
        Err(ApiError::ODataError { status, code, message }) => {
            assert_eq!(status, 404);
            assert_eq!(code, "404");
            assert_eq!(message, "not found");
        }
        other => panic!("unexpected {:?}", other),
    }
}

#[test]
fn unstructured_json_error_body_is_kept() {
    match parse_error_response(500, r#"{"msg": "oops"}"#) {
        ApiError::HttpError { status, body } => {
            assert_eq!(status, 500);
            assert_eq!(body, r#"{"msg": "oops"}"#);
        }
        other => panic!("unexpected {:?}", other),
    }
}

#[test]
fn non_json_error_body_is_kept() {
    match parse_error_response(502, "<html>bad gateway</html>") {
        ApiError::HttpError { status, body } => {
            assert_eq!(status, 502);
            assert_eq!(body, "<html>bad gateway</html>");
        }
        other => panic!("unexpected {:?}", other),
    }
    match parse_error_response(400, r#"{"error":{"code":7,"message":"m"}}"#) {
        ApiError::HttpError { status, .. } => assert_eq!(status, 400),
        other => panic!("unexpected {:?}", other),
    }
}

#[test]
fn delete_succeeds_on_no_content() {
    assert!(delete_outcome(204, "").is_ok());
    assert!(delete_outcome(200, "{}").is_ok());
    match delete_outcome(404, "gone") {
        Err(ApiError::HttpError { status, body }) => {
            assert_eq!(status, 404);
            assert_eq!(body, "gone");
        }
        other => panic!("unexpected {:?}", other),
    }
}

#[test]
fn success_body_is_handed_back() {
    assert_eq!(read_outcome(201, "{\"a\":1}".to_string()).unwrap(), "{\"a\":1}");
    assert!(read_outcome(299, String::new()).is_ok());
    assert!(read_outcome(300, String::new()).is_err());
}

#[test]
fn parse_failure_quotes_a_bounded_excerpt() {
    let body = "x".repeat(250);
    match parse_failure("expected value", &body) {
        ApiError::JsonParse(m) => {
            assert_eq!(m, format!("Failed to parse response: expected value - Body: {}", "x".repeat(200)));
        }
        other => panic!("unexpected {:?}", other),
    }
    match parse_failure("eof", "short") {
        ApiError::JsonParse(m) => assert_eq!(m, "Failed to parse response: eof - Body: short"),
        other => panic!("unexpected {:?}", other),
    }
}

#[test]
fn sandbox_requests_use_the_api_key_header() {
    let client = ODataClient::new("https://s/calm-features/v1".to_string(), true, false);
    let request = client.create_entity_request("/Features", "{\"title\":\"t\"}".to_string(), "key-1");
    assert_eq!(request.method, HttpMethod::Post);
    assert_eq!(request.url, "https://s/calm-features/v1/Features");
    assert_eq!(
        header_pairs(&request.headers),
        vec![
            ("APIKey", "key-1"),
            ("Content-Type", "application/json"),
            ("Accept", "application/json")
        ]
    );
    assert_eq!(request.body.as_deref(), Some("{\"title\":\"t\"}"));
}

#[test]
fn update_delete_and_expand_urls() {
    let client = ODataClient::new("https://x".to_string(), false, false);
    let patch = client.update_entity_request("/Documents", "u1", "{}".to_string(), "t");
    assert_eq!(patch.method, HttpMethod::Patch);
    assert_eq!(patch.url, "https://x/Documents/u1");
    let delete = client.delete_entity_request("/Documents", "u1", "t");
    assert_eq!(delete.method, HttpMethod::Delete);
    assert_eq!(delete.url, "https://x/Documents/u1");
    let expand = vec!["toProject".to_string(), "toStatus".to_string()];
    let get = client.get_entity_with_expand_request("/Features", "f1", &expand, "t");
    assert_eq!(get.url, "https://x/Features/f1?$expand=toProject,toStatus");
    let plain = client.get_entity_with_expand_request("/Features", "f1", &Vec::new(), "t");
    assert_eq!(plain.url, "https://x/Features/f1");
    let all = client.get_collection_request("/Features", None, "t");
    assert_eq!(all.url, "https://x/Features");
}

#[test]
fn keys_can_be_quoted_or_segments() {
    let client = ODataClient::new("https://x".to_string(), false, false);
    assert_eq!(client.keyed_url("/Features", "abc", KeyAddressing::Segment), "https://x/Features/abc");
    assert_eq!(client.keyed_url("/Features", "abc", KeyAddressing::Quoted), "https://x/Features('abc')");
    let request = client.get_keyed_entity_request("/Features", "k", KeyAddressing::Quoted, "t");
    assert_eq!(request.url, "https://x/Features('k')");
    assert_eq!(request.method, HttpMethod::Get);
}

#[test]
fn structured_errors_from_every_outcome() {
    let body = r#"{"error":{"code":"E1","message":"broken","details":[{"message":"m","code":null}]}}"#;
    match delete_outcome(409, body) {
        Err(ApiError::ODataError { status, code, message }) => {
            assert_eq!((status, code.as_str(), message.as_str()), (409, "E1", "broken"));
        }
        other => panic!("unexpected {:?}", other),
    }
    match read_outcome(400, body.to_string()) {
        Err(ApiError::ODataError { code, .. }) => assert_eq!(code, "E1"),
        other => panic!("unexpected {:?}", other),
    }
}

#[test]
fn malformed_details_fall_back_to_http_error() {
    for body in [
        r#"{"error":{"code":"E1","message":"m","details":"x"}}"#,
        r#"{"error":{"code":"E1","message":"m","details":[{"code":"c"}]}}"#,
        r#"{"error":{"code":"E1","message":"m","details":null}}"#,
    ] {
        match parse_error_response(500, body) {
            ApiError::HttpError { status, body: b } => {
                assert_eq!(status, 500);
                assert_eq!(b, body);
            }
            other => panic!("unexpected {:?}", other),
        }
    }
    assert!(matches!(
        parse_error_response(500, r#"{"error":{"code":"E1","message":"m","details":[]}}"#),
        ApiError::ODataError { .. }
    ));
}

#[test]
fn rest_outcomes_are_plain_http_errors() {
    assert_eq!(rest_outcome(200, "[]".to_string()).unwrap(), "[]");
    match rest_outcome(404, r#"{"error":{"code":"404","message":"nf"}}"#.to_string()) {
        Err(ApiError::HttpError { status, body }) => {
            assert_eq!(status, 404);
            assert!(body.contains("nf"));
        }
        other => panic!("unexpected {:?}", other),
    }
    assert!(rest_delete_outcome(204, String::new()).is_ok());
    assert!(matches!(
        rest_delete_outcome(500, "x".to_string()),
        Err(ApiError::HttpError { status: 500, .. })
    ));
}
