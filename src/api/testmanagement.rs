//! Test management service (OData v4): test cases, activities and actions.

use vstd::prelude::*;

verus! {

/// Manual Test Case entity.
#[derive(Debug, Clone)]
pub struct TestCase {
    pub uuid: Option<String>,
    pub title: Option<String>,
    pub description: Option<String>,
    pub status_code: Option<String>,
    pub project_id: Option<String>,
    pub modified_at: Option<String>,
    pub created_at: Option<String>,
}

/// Test Activity entity.
#[derive(Debug, Clone)]
pub struct TestActivity {
    pub uuid: Option<String>,
    pub title: Option<String>,
    pub description: Option<String>,
    pub sequence: Option<i32>,
    pub parent_id: Option<String>,
    pub modified_at: Option<String>,
}

/// Test Action entity.
#[derive(Debug, Clone)]
pub struct TestAction {
    pub uuid: Option<String>,
    pub title: Option<String>,
    pub description: Option<String>,
    pub expected_result: Option<String>,
    pub sequence: Option<i32>,
    pub is_evidence_required: Option<bool>,
    pub parent_id: Option<String>,
    pub modified_at: Option<String>,
}

/// Request to create a test case.
#[derive(Debug, Clone)]
pub struct CreateTestCaseRequest {
    pub title: String,
    pub description: Option<String>,
    pub project_id: Option<String>,
}

/// Request to update a test case.
#[derive(Debug, Clone, Default)]
pub struct UpdateTestCaseRequest {
    pub title: Option<String>,
    pub description: Option<String>,
    pub status_code: Option<String>,
}

/// Request to create a test activity.
#[derive(Debug, Clone)]
pub struct CreateTestActivityRequest {
    pub title: String,
    pub parent_id: String,
    pub description: Option<String>,
    pub sequence: Option<i32>,
}

/// Request to create a test action.
#[derive(Debug, Clone)]
pub struct CreateTestActionRequest {
    pub title: String,
    pub parent_id: String,
    pub description: Option<String>,
    pub expected_result: Option<String>,
    pub sequence: Option<i32>,
    pub is_evidence_required: Option<bool>,
}

} // verus!
