use sap_cloud_alm_mcp::auth::{basic_authorization, CachedToken, OAuth2Client, TokenStep};
use sap_cloud_alm_mcp::config::Config;
use sap_cloud_alm_mcp::error::AuthError;
use sap_cloud_alm_mcp::json::parse_json;
use sap_cloud_alm_mcp::odata::HttpMethod;

fn oauth_config() -> Config {
    Config {
        sandbox: false,
        api_key: None,
        tenant: Some("mycompany".to_string()),
        region: Some("eu10".to_string()),
        client_id: Some("test-client".to_string()),
        client_secret: Some("test-secret".to_string()),
        debug: false,
        timeout_seconds: 30,
        token_refresh_buffer_seconds: 5,
    }
}

const TOKEN_BODY: &str =
    r#"{"access_token":"tok-1","token_type":"bearer","expires_in":3600,"scope":"uaa"}"#;

fn is_fetch(step: &Result<TokenStep, AuthError>) -> bool {
    matches!(step, Ok(TokenStep::Fetch(_)))
}

#[test]
fn empty_cache_asks_for_a_token_exchange() {
    let client = OAuth2Client::new(oauth_config());
    match client.next_step(1_000) {
        Ok(TokenStep::Fetch(req)) => {
            assert_eq!(req.method, HttpMethod::Post);
            assert_eq!(
                req.url,
                "https://mycompany.authentication.eu10.hana.ondemand.com/oauth/token"
            );
            assert_eq!(req.headers[0].0, "Authorization");
            assert_eq!(req.headers[0].1, "Basic dGVzdC1jbGllbnQ6dGVzdC1zZWNyZXQ=");
            assert_eq!(req.headers[1].0, "Content-Type");
            assert_eq!(req.headers[1].1, "application/x-www-form-urlencoded");
            assert_eq!(req.body.as_deref(), Some("grant_type=client_credentials"));
        }
        other => panic!("unexpected {:?}", other),
    }
}

#[test]
fn fresh_token_is_served_from_cache() {
    let mut client = OAuth2Client::new(oauth_config());
    let mut fetches = 0;
    for now in [1_000i64, 1_010] {
        match client.next_step(now) {
            Ok(TokenStep::Fetch(_)) => {
                fetches += 1;
                assert_eq!(client.complete_fetch(now, 200, TOKEN_BODY).unwrap(), "tok-1");
            }
            Ok(TokenStep::Ready(t)) => assert_eq!(t, "tok-1"),
            Err(e) => panic!("unexpected {:?}", e),
        }
    }
    assert_eq!(fetches, 1);
}

#[test]
fn stale_token_is_fetched_again() {
    let mut client = OAuth2Client::new(oauth_config());
    assert_eq!(client.complete_fetch(1_000, 200, TOKEN_BODY).unwrap(), "tok-1");
    // expires at 4600; with a 5 s margin it is stale from 4595 on.
    assert!(matches!(client.next_step(4_594), Ok(TokenStep::Ready(_))));
    assert!(is_fetch(&client.next_step(4_595)));
    assert!(is_fetch(&client.next_step(9_999)));
}

#[test]
fn static_key_is_returned_without_exchange() {
    let mut config = oauth_config();
    config.sandbox = true;
    config.api_key = Some("static-key".to_string());
    let client = OAuth2Client::new(config);
    assert!(client.is_sandbox());
    match client.next_step(0) {
        Ok(TokenStep::Ready(k)) => assert_eq!(k, "static-key"),
        other => panic!("unexpected {:?}", other),
    }
    match client.next_step_now() {
        Ok(TokenStep::Ready(k)) => assert_eq!(k, "static-key"),
        other => panic!("unexpected {:?}", other),
    }
}

#[test]
fn static_mode_without_key_has_no_token() {
    let mut config = oauth_config();
    config.sandbox = true;
    let client = OAuth2Client::new(config);
    assert!(matches!(client.next_step(0), Err(AuthError::NoToken)));
}

#[test]
fn failed_exchange_keeps_status_and_body() {
    let mut client = OAuth2Client::new(oauth_config());
    match client.complete_fetch(0, 401, "Invalid credentials") {
        Err(AuthError::TokenRequestFailed { status, body }) => {
            assert_eq!(status, 401);
            assert_eq!(body, "Invalid credentials");
        }
        other => panic!("unexpected {:?}", other),
    }
    assert!(is_fetch(&client.next_step(0)));
}

#[test]
fn malformed_token_response_is_a_parse_error() {
    let mut client = OAuth2Client::new(oauth_config());
    assert!(matches!(client.complete_fetch(0, 200, "not json"), Err(AuthError::TokenParse(_))));
    assert!(matches!(
        client.complete_fetch(0, 200, r#"{"access_token":"t","token_type":"bearer"}"#),
        Err(AuthError::TokenParse(_))
    ));
    assert!(matches!(
        client.complete_fetch(0, 200, r#"{"access_token":"t","token_type":"bearer","expires_in":1.5}"#),
        Err(AuthError::TokenParse(_))
    ));
    assert!(matches!(
        client.complete_fetch(0, 200, r#"{"access_token":"t","token_type":"b","expires_in":1,"scope":null}"#),
        Err(AuthError::TokenParse(_))
    ));
    assert!(is_fetch(&client.next_step(0)));
    assert_eq!(
        client.complete_fetch(0, 200, r#"{"access_token":"t","token_type":"b","expires_in":60}"#).unwrap(),
        "t"
    );
    assert!(matches!(client.next_step(0), Ok(TokenStep::Ready(_))));
}

#[test]
fn missing_client_secret_is_reported() {
    let mut config = oauth_config();
    config.client_secret = None;
    let client = OAuth2Client::new(config);
    match client.next_step(0) {
        Err(AuthError::TokenParse(m)) => assert_eq!(m, "Missing client_secret"),
        other => panic!("unexpected {:?}", other),
    }
}

#[test]
fn expiry_check_uses_the_margin() {
    let token = CachedToken { access_token: "t".to_string(), expires_at: 100 };
    assert!(!token.is_expired(94, 5));
    assert!(token.is_expired(95, 5));
    assert!(token.is_expired(i64::MAX, u64::MAX));
}

#[test]
fn basic_header_prefix() {
    assert_eq!(basic_authorization("abc="), "Basic abc=");
}

#[test]
fn json_numbers_and_members() {
    let doc = parse_json(r#"{"a": -9223372036854775808, "b": "x"}"#).unwrap();
    match doc {
        sap_cloud_alm_mcp::json::Json::Object(m) => {
            let a = sap_cloud_alm_mcp::json::find_member(&m, "a").unwrap();
            match a {
                sap_cloud_alm_mcp::json::Json::Number(n) => {
                    assert_eq!(sap_cloud_alm_mcp::json::parse_i64(n), Some(i64::MIN))
                }
                other => panic!("unexpected {:?}", other),
            }
            assert_eq!(sap_cloud_alm_mcp::json::find_text(&m, "b"), Some("x".to_string()));
        }
        other => panic!("unexpected {:?}", other),
    }
    assert_eq!(sap_cloud_alm_mcp::json::parse_i64("9223372036854775808"), None);
    assert_eq!(sap_cloud_alm_mcp::json::parse_i64("-12"), Some(-12));
    assert_eq!(sap_cloud_alm_mcp::json::parse_i64("-"), None);
    assert_eq!(sap_cloud_alm_mcp::json::parse_i64("1e3"), None);
    assert!(parse_json("{").is_none());
}

#[test]
fn sandbox_mode_frames_no_token_exchange() {
    let mut config = oauth_config();
    config.sandbox = true;
    let client = OAuth2Client::new(config);
    match client.token_request() {
        Err(AuthError::TokenParse(m)) => assert_eq!(m, "No token URL in sandbox mode"),
        other => panic!("unexpected {:?}", other),
    }
    let mut config = oauth_config();
    config.client_id = None;
    match OAuth2Client::new(config).token_request() {
        Err(AuthError::TokenParse(m)) => assert_eq!(m, "Missing client_id"),
        other => panic!("unexpected {:?}", other),
    }
}

#[test]
fn fetched_token_expires_after_its_lifetime() {
    let mut client = OAuth2Client::new(oauth_config());
    assert_eq!(client.complete_fetch_now(200, TOKEN_BODY).unwrap(), "tok-1");
    assert!(matches!(client.next_step_now(), Ok(TokenStep::Ready(_))));
}
