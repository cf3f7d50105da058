use sap_cloud_alm_mcp::config::{default_timeout, default_token_buffer, Config};
use sap_cloud_alm_mcp::error::ConfigError;

fn oauth_config() -> Config {
    Config {
        sandbox: false,
        api_key: None,
        tenant: Some("mycompany".to_string()),
        region: Some("eu10".to_string()),
        client_id: Some("test-client".to_string()),
        client_secret: Some("test-secret".to_string()),
        debug: false,
        timeout_seconds: 30,
        token_refresh_buffer_seconds: 5,
    }
}

#[test]
fn test_oauth2_url_construction() {
    let config = Config {
        sandbox: false,
        api_key: None,
        tenant: Some("mycompany".to_string()),
        region: Some("eu10".to_string()),
        client_id: Some("test-client".to_string()),
        client_secret: Some("test-secret".to_string()),
        debug: false,
        timeout_seconds: 30,
        token_refresh_buffer_seconds: 5,
    };

    assert_eq!(
        config.token_url(),
        Some("https://mycompany.authentication.eu10.hana.ondemand.com/oauth/token".to_string())
    );
    assert_eq!(config.api_base_url(), "https://mycompany.eu10.alm.cloud.sap");
    assert_eq!(
        config.features_api_url(),
        "https://mycompany.eu10.alm.cloud.sap/api/calm-features/v1"
    );
    assert!(!config.is_sandbox());
}

#[test]
fn test_sandbox_url_construction() {
    let config = Config {
        sandbox: true,
        api_key: Some("test-api-key".to_string()),
        tenant: None,
        region: None,
        client_id: None,
        client_secret: None,
        debug: true,
        timeout_seconds: 30,
        token_refresh_buffer_seconds: 5,
    };

    assert_eq!(config.token_url(), None);
    assert_eq!(config.api_base_url(), "https://sandbox.api.sap.com/SAPCALM");
    assert_eq!(
        config.features_api_url(),
        "https://sandbox.api.sap.com/SAPCALM/calm-features/v1"
    );
    assert!(config.is_sandbox());
}

#[test]
fn service_urls_in_oauth_mode() {
    let config = oauth_config();
    let base = "https://mycompany.eu10.alm.cloud.sap/api";
    assert_eq!(config.documents_api_url(), format!("{}/calm-documents/v1", base));
    assert_eq!(config.tasks_api_url(), format!("{}/calm-tasks/v1", base));
    assert_eq!(config.projects_api_url(), format!("{}/calm-projects/v1", base));
    assert_eq!(config.testmanagement_api_url(), format!("{}/calm-testmanagement/v1", base));
    assert_eq!(config.processhierarchy_api_url(), format!("{}/calm-processhierarchy/v1", base));
    assert_eq!(
        config.analytics_api_url(),
        format!("{}/calm-analytics/v1/odata/v4/analytics", base)
    );
    assert_eq!(config.processmonitoring_api_url(), format!("{}/calm-processmonitoring/v1", base));
    assert_eq!(config.logs_api_url(), format!("{}/calm-logs/v1", base));
    assert_eq!(config.api_path_prefix(), "/api");
}

#[test]
fn defaults_and_timeout() {
    assert_eq!(default_timeout(), 30);
    assert_eq!(default_token_buffer(), 5);
    assert_eq!(oauth_config().timeout(), std::time::Duration::from_secs(30));
}

#[test]
fn validate_accepts_complete_oauth_config() {
    assert!(oauth_config().validate().is_ok());
}

#[test]
fn validate_reports_first_missing_field() {
    let mut c = oauth_config();
    c.tenant = Some(String::new());
    c.client_id = None;
    match c.validate() {
        Err(ConfigError::MissingField(f)) => assert_eq!(f, "tenant"),
        other => panic!("unexpected {:?}", other),
    }
    let mut c = oauth_config();
    c.client_secret = None;
    match c.validate() {
        Err(ConfigError::MissingField(f)) => assert_eq!(f, "client_secret"),
        other => panic!("unexpected {:?}", other),
    }
}

#[test]
fn validate_rejects_unknown_region() {
    let mut c = oauth_config();
    c.region = Some("mars1".to_string());
    match c.validate() {
        Err(ConfigError::Invalid(m)) => assert_eq!(
            m,
            "Invalid region 'mars1'. Valid regions: [\"eu10\", \"eu20\", \"us10\", \"ap10\", \"jp10\", \"eu10-004\", \"ca10\", \"eu11\", \"cn20\"]"
        ),
        other => panic!("unexpected {:?}", other),
    }
    let mut c = oauth_config();
    c.region = Some("eu10-004".to_string());
    assert!(c.validate().is_ok());
}

#[test]
fn validate_sandbox_needs_key() {
    let mut c = oauth_config();
    c.sandbox = true;
    match c.validate() {
        Err(ConfigError::MissingField(f)) => assert_eq!(f, "api_key (required in sandbox mode)"),
        other => panic!("unexpected {:?}", other),
    }
    c.api_key = Some(String::new());
    assert!(c.validate().is_err());
    c.api_key = Some("k".to_string());
    assert!(c.validate().is_ok());
}
