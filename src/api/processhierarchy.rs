//! Process hierarchy service (OData v4): hierarchy nodes and requests.

use vstd::prelude::*;

verus! {

/// Hierarchy Node entity.
#[derive(Debug, Clone)]
pub struct HierarchyNode {
    pub uuid: Option<String>,
    pub display_id: Option<String>,
    pub title: Option<String>,
    pub description: Option<String>,
    pub hierarchy_level: Option<i32>,
    pub sequence: Option<i32>,
    pub parent_titles: Option<String>,
    pub parent_node_uuid: Option<String>,
    pub root_node_uuid: Option<String>,
    pub created_at: Option<String>,
    pub modified_at: Option<String>,
}

/// Request to create a hierarchy node.
#[derive(Debug, Clone)]
pub struct CreateHierarchyNodeRequest {
    pub title: String,
    pub description: Option<String>,
    pub parent_node_uuid: Option<String>,
    pub sequence: Option<i32>,
}

/// Request to update a hierarchy node.
#[derive(Debug, Clone, Default)]
pub struct UpdateHierarchyNodeRequest {
    pub title: Option<String>,
    pub description: Option<String>,
    pub sequence: Option<i32>,
}

} // verus!
