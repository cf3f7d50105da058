//! Projects service (REST): project, program, timebox and team entities.

use vstd::prelude::*;

verus! {

/// Project entity.
#[derive(Debug, Clone)]
pub struct Project {
    pub id: Option<String>,
    pub name: Option<String>,
    pub description: Option<String>,
    pub status: Option<String>,
    pub project_type: Option<String>,
    pub program_id: Option<String>,
    pub created_at: Option<String>,
    pub modified_at: Option<String>,
}

/// Program entity.
#[derive(Debug, Clone)]
pub struct Program {
    pub id: Option<String>,
    pub name: Option<String>,
    pub description: Option<String>,
}

/// Timebox (sprint) entity.
#[derive(Debug, Clone)]
pub struct Timebox {
    pub id: Option<String>,
    pub name: Option<String>,
    pub project_id: Option<String>,
    pub start_date: Option<String>,
    pub end_date: Option<String>,
    pub status: Option<String>,
}

/// Team member entity.
#[derive(Debug, Clone)]
pub struct TeamMember {
    pub id: Option<String>,
    pub user_id: Option<String>,
    pub user_name: Option<String>,
    pub email: Option<String>,
    pub role: Option<String>,
    pub project_id: Option<String>,
}

/// Request to create a project.
#[derive(Debug, Clone)]
pub struct CreateProjectRequest {
    pub name: String,
    pub description: Option<String>,
    pub program_id: Option<String>,
}

} // verus!
