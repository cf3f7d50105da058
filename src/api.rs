//! Entities, requests and request shaping of the individual services.

pub mod analytics;
pub mod documents;
pub mod features;
pub mod logs;
pub mod processhierarchy;
pub mod projects;
pub mod tasks;
pub mod testmanagement;
