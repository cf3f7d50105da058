//! Service configuration: authentication mode, credentials, and the URLs
//! derived from tenant and region.

use vstd::prelude::*;
use crate::error::ConfigError;

verus! {

/// Main configuration structure.
#[derive(Debug, Clone)]
pub struct Config {
    /// Sandbox mode: a static API key instead of OAuth2.
    pub sandbox: bool,
    /// API key for sandbox mode (required when `sandbox` is set).
    pub api_key: Option<String>,
    /// Tenant identifier; required in OAuth2 mode.
    pub tenant: Option<String>,
    /// Region (such as `eu10`); required in OAuth2 mode.
    pub region: Option<String>,
    /// OAuth2 client ID; required in OAuth2 mode.
    pub client_id: Option<String>,
    /// OAuth2 client secret; required in OAuth2 mode.
    pub client_secret: Option<String>,
    /// Debug logging.
    pub debug: bool,
    /// HTTP request timeout in seconds.
    pub timeout_seconds: u64,
    /// Margin before token expiry at which a token is refreshed, in seconds.
    pub token_refresh_buffer_seconds: u64,
}

/// Default HTTP timeout in seconds.
pub fn default_timeout() -> (r: u64)
    ensures
        r == 30,
{
    30
}

/// Default token refresh margin in seconds.
pub fn default_token_buffer() -> (r: u64)
    ensures
        r == 5,
{
    5
}

/// Whether an optional setting is present and non-empty.
pub open spec fn is_set(o: Option<String>) -> bool {
    o is Some && o->Some_0@.len() > 0
}

/// The regions a tenant may live in.
pub open spec fn is_known_region(r: Seq<char>) -> bool {
    r == "eu10"@ || r == "eu20"@ || r == "us10"@ || r == "ap10"@ || r == "jp10"@
        || r == "eu10-004"@ || r == "ca10"@ || r == "eu11"@ || r == "cn20"@
}

/// The listing of the known regions used in the invalid-region message.
pub open spec fn region_listing() -> Seq<char> {
    "[\"eu10\", \"eu20\", \"us10\", \"ap10\", \"jp10\", \"eu10-004\", \"ca10\", \"eu11\", \"cn20\"]"@
}

/// Message of an unknown region.
pub open spec fn invalid_region_message(r: Seq<char>) -> Seq<char> {
    "Invalid region '"@ + r + "'. Valid regions: "@ + region_listing()
}

/// Field name reported for a missing sandbox key.
pub open spec fn sandbox_key_field() -> Seq<char> {
    "api_key (required in sandbox mode)"@
}

fn is_set_exec(o: &Option<String>) -> (r: bool)
    ensures
        r == is_set(*o),
{
    match o {
        Some(s) => s.unicode_len() > 0,
        None => false,
    }
}

fn known_region(r: &str) -> (b: bool)
    ensures
        b == is_known_region(r@),
{
    let s = r.to_owned();
    s == "eu10".to_owned() || s == "eu20".to_owned() || s == "us10".to_owned()
        || s == "ap10".to_owned() || s == "jp10".to_owned() || s == "eu10-004".to_owned()
        || s == "ca10".to_owned() || s == "eu11".to_owned() || s == "cn20".to_owned()
}

impl Config {
    /// The first setting that the selected mode needs but lacks, if any.
    pub open spec fn missing_field(&self) -> Option<Seq<char>> {
        if self.sandbox {
            if is_set(self.api_key) { None } else { Some(sandbox_key_field()) }
        } else if !is_set(self.tenant) {
            Some("tenant"@)
        } else if !is_set(self.region) {
            Some("region"@)
        } else if !is_set(self.client_id) {
            Some("client_id"@)
        } else if !is_set(self.client_secret) {
            Some("client_secret"@)
        } else {
            None
        }
    }

    /// The configuration is complete for its mode and names a known region.
    pub open spec fn is_valid(&self) -> bool {
        self.missing_field() is None && (self.sandbox || is_known_region(self.region->Some_0@))
    }

    /// Tenant and region are present wherever URLs are derived from them.
    pub open spec fn has_location(&self) -> bool {
        self.sandbox || (self.tenant is Some && self.region is Some)
    }

    /// Checks that the settings the selected mode needs are present and that
    /// the region is known.
    pub fn validate(&self) -> (r: Result<(), ConfigError>)
        ensures
            r is Ok <==> self.is_valid(),
            self.missing_field() is Some ==> (r matches Err(ConfigError::MissingField(f))
                && f@ == self.missing_field()->Some_0),
            self.missing_field() is None && !self.is_valid() ==> (r matches Err(
                ConfigError::Invalid(m),
            ) && m@ == invalid_region_message(self.region->Some_0@)),
    {
        if self.sandbox {
            if !is_set_exec(&self.api_key) {
                return Err(ConfigError::MissingField("api_key (required in sandbox mode)".to_owned()));
            }
            return Ok(());
        }
        if !is_set_exec(&self.tenant) {
            return Err(ConfigError::MissingField("tenant".to_owned()));
        }
        if !is_set_exec(&self.region) {
            return Err(ConfigError::MissingField("region".to_owned()));
        }
        if !is_set_exec(&self.client_id) {
            return Err(ConfigError::MissingField("client_id".to_owned()));
        }
        if !is_set_exec(&self.client_secret) {
            return Err(ConfigError::MissingField("client_secret".to_owned()));
        }
        let region = match &self.region {
            Some(r) => r,
            None => { return Err(ConfigError::MissingField("region".to_owned())); },
        };
        if !known_region(region.as_str()) {
            let listing = "[\"eu10\", \"eu20\", \"us10\", \"ap10\", \"jp10\", \"eu10-004\", \"ca10\", \"eu11\", \"cn20\"]";
            let m = "Invalid region '".to_owned().concat(region.as_str()).concat(
                "'. Valid regions: ",
            ).concat(listing);
            return Err(ConfigError::Invalid(m));
        }
        Ok(())
    }

    /// The OAuth2 token URL for tenant and region.
    pub open spec fn token_url_of(&self) -> Seq<char> {
        "https://"@ + self.tenant->Some_0@ + ".authentication."@ + self.region->Some_0@
            + ".hana.ondemand.com/oauth/token"@
    }

    /// The API base URL of the selected mode.
    pub open spec fn base_url_of(&self) -> Seq<char> {
        if self.sandbox {
            "https://sandbox.api.sap.com/SAPCALM"@
        } else {
            "https://"@ + self.tenant->Some_0@ + "."@ + self.region->Some_0@ + ".alm.cloud.sap"@
        }
    }

    /// The path prefix of the selected mode.
    pub open spec fn path_prefix_of(&self) -> Seq<char> {
        if self.sandbox { ""@ } else { "/api"@ }
    }

    /// The URL of the service whose path is `service`.
    pub open spec fn service_url_of(&self, service: Seq<char>) -> Seq<char> {
        self.base_url_of() + self.path_prefix_of() + service
    }

    /// Get the OAuth2 token URL; `None` in sandbox mode.
    pub fn token_url(&self) -> (r: Option<String>)
        requires
            self.has_location(),
        ensures
            self.sandbox ==> r is None,
            !self.sandbox ==> r is Some && r->Some_0@ == self.token_url_of(),
    {
        if self.sandbox {
            None
        } else {
            let tenant = self.tenant.as_ref().unwrap();
            let region = self.region.as_ref().unwrap();
            Some(
                "https://".to_owned().concat(tenant.as_str()).concat(".authentication.").concat(
                    region.as_str(),
                ).concat(".hana.ondemand.com/oauth/token"),
            )
        }
    }

    /// Get the API base URL.
    pub fn api_base_url(&self) -> (r: String)
        requires
            self.has_location(),
        ensures
            r@ == self.base_url_of(),
    {
        if self.sandbox {
            "https://sandbox.api.sap.com/SAPCALM".to_owned()
        } else {
            let tenant = self.tenant.as_ref().unwrap();
            let region = self.region.as_ref().unwrap();
            "https://".to_owned().concat(tenant.as_str()).concat(".").concat(region.as_str()).concat(
                ".alm.cloud.sap",
            )
        }
    }

    /// The API path prefix: direct paths in sandbox mode, `/api` in OAuth2 mode.
    pub fn api_path_prefix(&self) -> (r: &'static str)
        ensures
            r@ == self.path_prefix_of(),
    {
        if self.sandbox {
            ""
        } else {
            "/api"
        }
    }

    fn service_url(&self, service: &str) -> (r: String)
        requires
            self.has_location(),
        ensures
            r@ == self.service_url_of(service@),
    {
        self.api_base_url().concat(self.api_path_prefix()).concat(service)
    }

    /// Get the Features API URL.
    pub fn features_api_url(&self) -> (r: String)
        requires
            self.has_location(),
        ensures
            r@ == self.service_url_of("/calm-features/v1"@),
    {
        self.service_url("/calm-features/v1")
    }

    /// Get the Documents API URL.
    pub fn documents_api_url(&self) -> (r: String)
        requires
            self.has_location(),
        ensures
            r@ == self.service_url_of("/calm-documents/v1"@),
    {
        self.service_url("/calm-documents/v1")
    }

    /// Get the Tasks API URL.
    pub fn tasks_api_url(&self) -> (r: String)
        requires
            self.has_location(),
        ensures
            r@ == self.service_url_of("/calm-tasks/v1"@),
    {
        self.service_url("/calm-tasks/v1")
    }

    /// Get the Projects API URL.
    pub fn projects_api_url(&self) -> (r: String)
        requires
            self.has_location(),
        ensures
            r@ == self.service_url_of("/calm-projects/v1"@),
    {
        self.service_url("/calm-projects/v1")
    }

    /// Get the Test Management API URL.
    pub fn testmanagement_api_url(&self) -> (r: String)
        requires
            self.has_location(),
        ensures
            r@ == self.service_url_of("/calm-testmanagement/v1"@),
    {
        self.service_url("/calm-testmanagement/v1")
    }

    /// Get the Process Hierarchy API URL.
    pub fn processhierarchy_api_url(&self) -> (r: String)
        requires
            self.has_location(),
        ensures
            r@ == self.service_url_of("/calm-processhierarchy/v1"@),
    {
        self.service_url("/calm-processhierarchy/v1")
    }

    /// Get the Analytics API URL.
    pub fn analytics_api_url(&self) -> (r: String)
        requires
            self.has_location(),
        ensures
            r@ == self.service_url_of("/calm-analytics/v1/odata/v4/analytics"@),
    {
        self.service_url("/calm-analytics/v1/odata/v4/analytics")
    }

    /// Get the Process Monitoring API URL.
    pub fn processmonitoring_api_url(&self) -> (r: String)
        requires
            self.has_location(),
        ensures
            r@ == self.service_url_of("/calm-processmonitoring/v1"@),
    {
        self.service_url("/calm-processmonitoring/v1")
    }

    /// Get the Logs API URL.
    pub fn logs_api_url(&self) -> (r: String)
        requires
            self.has_location(),
        ensures
            r@ == self.service_url_of("/calm-logs/v1"@),
    {
        self.service_url("/calm-logs/v1")
    }

    /// Get the request timeout.
    pub fn timeout(&self) -> (r: std::time::Duration) {
        std::time::Duration::from_secs(self.timeout_seconds)
    }

    /// Check if running in sandbox mode.
    pub fn is_sandbox(&self) -> (r: bool)
        ensures
            r == self.sandbox,
    {
        self.sandbox
    }
}

/// Relies on `Duration::from_secs`: a duration of whole seconds. It panics
/// on no input; its value is opaque here.
pub assume_specification[ std::time::Duration::from_secs ](secs: u64) -> std::time::Duration;

/// A configuration that passes validation has everything URLs are derived from.
pub proof fn lemma_valid_has_location(c: Config)
    requires
        c.is_valid(),
    ensures
        c.has_location(),
{
}

} // verus!
