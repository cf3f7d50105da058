//! Verified core of a bridge between SAP Cloud ALM REST/OData services and a
//! tool-invocation protocol: configuration, OData query strings, credential
//! caching decisions, request assembly and response classification.

pub mod api;
pub mod auth;
pub mod config;
pub mod encoding;
pub mod error;
pub mod json;
pub mod odata;
pub mod query;
pub mod text;
pub mod tools;
pub mod url;
