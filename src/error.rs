//! Error taxonomy of the configuration, credential and request layers.
//!
//! HTTP statuses are carried as their numeric code. Each error renders its
//! human-readable text through `to_string`.

use vstd::prelude::*;
use crate::text::{decimal, decimal_string};

verus! {

/// Configuration-related errors.
#[derive(Debug)]
pub enum ConfigError {
    /// Reading the configuration file failed; holds the reason.
    Io(String),
    /// The configuration file is not valid JSON of the expected shape; holds the reason.
    Json(String),
    /// A field that the selected mode needs is absent or empty.
    MissingField(String),
    /// A field holds a value outside its allowed set.
    Invalid(String),
}

/// Authentication-related errors.
#[derive(Debug)]
pub enum AuthError {
    /// The token request could not be sent or answered (connection, TLS, timeout).
    Request(String),
    /// The token endpoint answered with a non-success status.
    TokenRequestFailed { status: u16, body: String },
    /// The token response, or the settings needed to ask for one, could not be read.
    TokenParse(String),
    /// Static-key mode without a configured key.
    NoToken,
    /// The HTTP transport could not be created.
    HttpClientInit(String),
}

/// API request and response errors.
#[derive(Debug)]
pub enum ApiError {
    /// No credential could be obtained.
    Auth(AuthError),
    /// Transport failure (connection, TLS, timeout).
    Request(String),
    /// Non-success status whose body is not a structured protocol error.
    HttpError { status: u16, body: String },
    /// Non-success status with a structured protocol error body.
    ODataError { status: u16, code: String, message: String },
    /// A success body that does not have the expected shape.
    JsonParse(String),
    /// The HTTP transport could not be created.
    HttpClientInit(String),
}

impl ConfigError {
    /// The text of this error.
    pub open spec fn message(&self) -> Seq<char> {
        match self {
            ConfigError::Io(e) => "IO error: "@ + e@,
            ConfigError::Json(e) => "JSON parse error: "@ + e@,
            ConfigError::MissingField(f) => "Missing required field: "@ + f@,
            ConfigError::Invalid(m) => "Invalid configuration: "@ + m@,
        }
    }

    /// Renders the error text.
    pub fn to_string(&self) -> (r: String)
        ensures
            r@ == self.message(),
    {
        match self {
            ConfigError::Io(e) => "IO error: ".to_owned().concat(e.as_str()),
            ConfigError::Json(e) => "JSON parse error: ".to_owned().concat(e.as_str()),
            ConfigError::MissingField(f) => "Missing required field: ".to_owned().concat(f.as_str()),
            ConfigError::Invalid(m) => "Invalid configuration: ".to_owned().concat(m.as_str()),
        }
    }
}

impl AuthError {
    /// The text of this error.
    pub open spec fn message(&self) -> Seq<char> {
        match self {
            AuthError::Request(e) => "HTTP request error: "@ + e@,
            AuthError::TokenRequestFailed { status, body } =>
                "Token request failed with status "@ + decimal(*status as nat) + ": "@ + body@,
            AuthError::TokenParse(e) => "Token parse error: "@ + e@,
            AuthError::NoToken => "No token available"@,
            AuthError::HttpClientInit(e) => "Failed to create HTTP client: "@ + e@,
        }
    }

    /// Renders the error text.
    pub fn to_string(&self) -> (r: String)
        ensures
            r@ == self.message(),
    {
        match self {
            AuthError::Request(e) => "HTTP request error: ".to_owned().concat(e.as_str()),
            AuthError::TokenRequestFailed { status, body } => {
                let code = decimal_string(*status as u64);
                "Token request failed with status ".to_owned().concat(code.as_str()).concat(
                    ": ",
                ).concat(body.as_str())
            },
            AuthError::TokenParse(e) => "Token parse error: ".to_owned().concat(e.as_str()),
            AuthError::NoToken => "No token available".to_owned(),
            AuthError::HttpClientInit(e) => "Failed to create HTTP client: ".to_owned().concat(
                e.as_str(),
            ),
        }
    }
}

impl ApiError {
    /// The text of this error.
    pub open spec fn message(&self) -> Seq<char> {
        match self {
            ApiError::Auth(e) => "Authentication error: "@ + e.message(),
            ApiError::Request(e) => "HTTP request error: "@ + e@,
            ApiError::HttpError { status, body } =>
                "HTTP error "@ + decimal(*status as nat) + ": "@ + body@,
            ApiError::ODataError { status, code, message } =>
                "OData error ["@ + code@ + "]: "@ + message@,
            ApiError::JsonParse(e) => "JSON parse error: "@ + e@,
            ApiError::HttpClientInit(e) => "Failed to create HTTP client: "@ + e@,
        }
    }

    /// Renders the error text.
    pub fn to_string(&self) -> (r: String)
        ensures
            r@ == self.message(),
    {
        match self {
            ApiError::Auth(e) => {
                let inner = e.to_string();
                "Authentication error: ".to_owned().concat(inner.as_str())
            },
            ApiError::Request(e) => "HTTP request error: ".to_owned().concat(e.as_str()),
            ApiError::HttpError { status, body } => {
                let code = decimal_string(*status as u64);
                "HTTP error ".to_owned().concat(code.as_str()).concat(": ").concat(body.as_str())
            },
            ApiError::ODataError { status, code, message } => "OData error [".to_owned().concat(
                code.as_str(),
            ).concat("]: ").concat(message.as_str()),
            ApiError::JsonParse(e) => "JSON parse error: ".to_owned().concat(e.as_str()),
            ApiError::HttpClientInit(e) => "Failed to create HTTP client: ".to_owned().concat(
                e.as_str(),
            ),
        }
    }
}

impl From<AuthError> for ApiError {
    fn from(e: AuthError) -> (r: ApiError)
        ensures
            r == ApiError::Auth(e),
    {
        ApiError::Auth(e)
    }
}

impl vstd::std_specs::convert::FromSpecImpl<AuthError> for ApiError {
    open spec fn obeys_from_spec() -> bool {
        true
    }

    open spec fn from_spec(e: AuthError) -> ApiError {
        ApiError::Auth(e)
    }
}

} // verus!
