//! Tasks service (REST): task entities, requests, and task listing URLs.

use vstd::prelude::*;
use crate::text::views;
use crate::url::{
    number_param, push_number_param, push_repeated_param, push_text_param, repeated_param, text_param,
};

verus! {

/// Task entity.
#[derive(Debug, Clone)]
pub struct Task {
    pub id: Option<String>,
    pub project_id: Option<String>,
    pub title: Option<String>,
    pub description: Option<String>,
    pub task_type: Option<String>,
    pub status: Option<String>,
    pub sub_status: Option<String>,
    pub external_id: Option<String>,
    pub due_date: Option<String>,
    pub priority_id: Option<i32>,
    pub assignee_id: Option<String>,
    pub assignee_name: Option<String>,
    pub timebox_name: Option<String>,
    pub timebox_start_date: Option<String>,
    pub timebox_end_date: Option<String>,
    pub last_changed_date: Option<String>,
}

/// Task comment entity.
#[derive(Debug, Clone)]
pub struct TaskComment {
    pub id: Option<String>,
    pub task_id: Option<String>,
    pub content: Option<String>,
    pub created_at: Option<String>,
    pub created_by: Option<String>,
}

/// Task reference entity.
#[derive(Debug, Clone)]
pub struct TaskReference {
    pub id: Option<String>,
    pub task_id: Option<String>,
    pub external_id: Option<String>,
    pub external_system: Option<String>,
    pub url: Option<String>,
}

/// Workstream entity.
#[derive(Debug, Clone)]
pub struct Workstream {
    pub id: Option<String>,
    pub project_id: Option<String>,
    pub name: Option<String>,
    pub description: Option<String>,
}

/// Deliverable entity.
#[derive(Debug, Clone)]
pub struct Deliverable {
    pub id: Option<String>,
    pub project_id: Option<String>,
    pub name: Option<String>,
    pub description: Option<String>,
}

/// Request to create a task.
#[derive(Debug, Clone)]
pub struct CreateTaskRequest {
    pub project_id: String,
    pub title: String,
    pub task_type: String,
    pub description: Option<String>,
    pub priority_id: Option<i32>,
    pub assignee_id: Option<String>,
    pub due_date: Option<String>,
}

/// Request to update a task.
#[derive(Debug, Clone, Default)]
pub struct UpdateTaskRequest {
    pub title: Option<String>,
    pub description: Option<String>,
    pub status: Option<String>,
    pub priority_id: Option<i32>,
    pub assignee_id: Option<String>,
    pub due_date: Option<String>,
}

/// Request to create a task comment.
#[derive(Debug, Clone)]
pub struct CreateTaskCommentRequest {
    pub content: String,
}

/// Query parameters for listing tasks.
#[derive(Debug, Clone, Default)]
pub struct ListTasksParams {
    pub project_id: String,
    pub offset: Option<u32>,
    pub limit: Option<u32>,
    pub task_type: Option<String>,
    pub status: Option<String>,
    pub sub_status: Option<String>,
    pub assignee_id: Option<String>,
    pub last_changed_date: Option<String>,
    pub tags: Option<Vec<String>>,
}

/// The URL listing the tasks of a project with the given filters, in this
/// order: offset, limit, type, status, subStatus, assigneeId,
/// lastChangedDate, then one percent-encoded `tags` parameter per tag.
pub open spec fn list_tasks_url_of(base: Seq<char>, p: ListTasksParams) -> Seq<char> {
    base + "/tasks?projectId="@ + p.project_id@ + number_param("offset"@, p.offset) + number_param(
        "limit"@,
        p.limit,
    ) + text_param("type"@, p.task_type) + text_param("status"@, p.status) + text_param(
        "subStatus"@,
        p.sub_status,
    ) + text_param("assigneeId"@, p.assignee_id) + text_param(
        "lastChangedDate"@,
        p.last_changed_date,
    ) + match p.tags {
        Some(t) => repeated_param("tags"@, views(t@)),
        None => Seq::empty(),
    }
}

/// Builds the URL listing the tasks of a project.
pub fn list_tasks_url(base_url: &str, params: &ListTasksParams) -> (r: String)
    ensures
        r@ == list_tasks_url_of(base_url@, *params),
{
    let mut url = base_url.to_owned().concat("/tasks?projectId=").concat(params.project_id.as_str());
    push_number_param(&mut url, "offset", params.offset);
    push_number_param(&mut url, "limit", params.limit);
    push_text_param(&mut url, "type", &params.task_type);
    push_text_param(&mut url, "status", &params.status);
    push_text_param(&mut url, "subStatus", &params.sub_status);
    push_text_param(&mut url, "assigneeId", &params.assignee_id);
    push_text_param(&mut url, "lastChangedDate", &params.last_changed_date);
    match &params.tags {
        Some(tags) => push_repeated_param(&mut url, "tags", tags),
        None => {
            assert(url@ + Seq::<char>::empty() =~= url@);
        },
    }
    url
}

} // verus!
