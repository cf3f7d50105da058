//! Documents service (OData v4): document entities and requests.

use vstd::prelude::*;

verus! {

/// Document entity.
#[derive(Debug, Clone)]
pub struct Document {
    pub uuid: Option<String>,
    pub display_id: Option<String>,
    pub title: Option<String>,
    pub content: Option<String>,
    pub status_code: Option<i32>,
    pub priority_code: Option<i32>,
    pub type_code: Option<String>,
    pub source_code: Option<String>,
    pub project_id: Option<String>,
    pub scope_id: Option<String>,
    pub modified_at: Option<String>,
    pub created_at: Option<String>,
    pub tags: Vec<String>,
}

/// Document type code.
#[derive(Debug, Clone)]
pub struct DocumentType {
    pub code: String,
    pub name: String,
}

/// Document status code.
#[derive(Debug, Clone)]
pub struct DocumentStatus {
    pub code: String,
    pub name: String,
}

/// Request to create a document.
#[derive(Debug, Clone)]
pub struct CreateDocumentRequest {
    pub title: String,
    pub content: Option<String>,
    pub project_id: Option<String>,
    pub type_code: Option<String>,
    pub status_code: Option<String>,
    pub priority_code: Option<String>,
}

/// Request to update a document.
#[derive(Debug, Clone, Default)]
pub struct UpdateDocumentRequest {
    pub title: Option<String>,
    pub content: Option<String>,
    pub status_code: Option<String>,
    pub priority_code: Option<String>,
    pub type_code: Option<String>,
}

} // verus!
