//! Parameters of the tools that expose the service operations, and how
//! each becomes a request or a query.

use vstd::prelude::*;
use crate::api::{documents, features, logs, processhierarchy, projects, tasks, testmanagement};
use crate::query::{build_odata_query, comma_list, comma_separated, is_built_query, ODataQuery};
use crate::text::views;

verus! {

/// Tool parameters: Listing features.
#[derive(Debug, Clone)]
pub struct ListFeaturesParams {
    /// OData $filter expression (e.g., "projectId eq 'abc'")
    pub filter: Option<String>,
    /// Comma-separated list of fields to select
    pub select: Option<String>,
    /// Comma-separated list of navigation properties to expand
    pub expand: Option<String>,
    /// OData $orderby expression (e.g., "createdAt desc")
    pub orderby: Option<String>,
    /// Maximum number of records to return
    pub top: Option<u32>,
    /// Number of records to skip for pagination
    pub skip: Option<u32>,
}

impl ListFeaturesParams {
    /// The OData query of these parameters; `None` when no facet is given.
    pub fn query(self) -> (r: Option<ODataQuery>)
        ensures
            is_built_query(r, self.filter, self.select, self.expand, self.orderby, self.top, self.skip),
    {
        build_odata_query(self.filter, self.select, self.expand, self.orderby, self.top, self.skip)
    }
}

/// Tool parameters: Reading one feature.
#[derive(Debug, Clone)]
pub struct GetFeatureParams {
    /// Feature UUID
    pub uuid: String,
    /// Navigation properties to expand (comma-separated): toProject, toRelease, toScope, toStatus, toPriority, toTransports, toExternalReferences
    pub expand: Option<String>,
}

/// Tool parameters: Creating a feature.
#[derive(Debug, Clone)]
pub struct CreateFeatureParams {
    /// Feature title (required)
    pub title: String,
    /// Project ID (required)
    pub project_id: String,
    /// Feature description
    pub description: Option<String>,
    /// Status code
    pub status_code: Option<String>,
    /// Priority code
    pub priority_code: Option<String>,
    /// Release ID
    pub release_id: Option<String>,
    /// Scope ID
    pub scope_id: Option<String>,
}

impl CreateFeatureParams {
    /// The request these parameters describe; fields the tool does not offer are left unset.
    pub fn into_request(self) -> (r: features::CreateFeatureRequest)
        ensures
            r.title == self.title,
            r.project_id == self.project_id,
            r.description == self.description,
            r.status_code == self.status_code,
            r.priority_code == self.priority_code,
            r.release_id == self.release_id,
            r.scope_id == self.scope_id,
    {
        features::CreateFeatureRequest {
            title: self.title,
            project_id: self.project_id,
            description: self.description,
            status_code: self.status_code,
            priority_code: self.priority_code,
            release_id: self.release_id,
            scope_id: self.scope_id,
        }
    }
}

/// Tool parameters: Updating a feature.
#[derive(Debug, Clone)]
pub struct UpdateFeatureParams {
    /// Feature UUID
    pub uuid: String,
    /// New title
    pub title: Option<String>,
    /// New description
    pub description: Option<String>,
    /// New status code
    pub status_code: Option<String>,
    /// New priority code
    pub priority_code: Option<String>,
}

impl UpdateFeatureParams {
    /// The request these parameters describe; fields the tool does not offer are left unset.
    pub fn into_request(self) -> (r: features::UpdateFeatureRequest)
        ensures
            r.title == self.title,
            r.description == self.description,
            r.status_code == self.status_code,
            r.priority_code == self.priority_code,
            r.release_id is None,
            r.scope_id is None,
    {
        features::UpdateFeatureRequest {
            title: self.title,
            description: self.description,
            status_code: self.status_code,
            priority_code: self.priority_code,
            release_id: None,
            scope_id: None,
        }
    }
}

/// Tool parameters: Addressing an entity by UUID.
#[derive(Debug, Clone)]
pub struct UuidParams {
    /// UUID
    pub uuid: String,
}

/// Tool parameters: Addressing an entity by ID.
#[derive(Debug, Clone)]
pub struct IdParams {
    /// ID
    pub id: String,
}

/// Tool parameters: Listing external references.
#[derive(Debug, Clone)]
pub struct ListExternalReferencesParams {
    /// OData $filter expression
    pub filter: Option<String>,
    /// Comma-separated list of fields to select
    pub select: Option<String>,
    /// Maximum number of records to return
    pub top: Option<u32>,
    /// Number of records to skip for pagination
    pub skip: Option<u32>,
}

impl ListExternalReferencesParams {
    /// The OData query of these parameters; `None` when no facet is given.
    pub fn query(self) -> (r: Option<ODataQuery>)
        ensures
            is_built_query(r, self.filter, self.select, None, None, self.top, self.skip),
    {
        build_odata_query(self.filter, self.select, None, None, self.top, self.skip)
    }
}

/// Tool parameters: Creating an external reference.
#[derive(Debug, Clone)]
pub struct CreateExternalReferenceParams {
    /// Parent feature UUID
    pub parent_uuid: String,
    /// External reference ID
    pub id: String,
    /// Reference name
    pub name: String,
    /// Reference URL
    pub url: String,
}

impl CreateExternalReferenceParams {
    /// The request these parameters describe; fields the tool does not offer are left unset.
    pub fn into_request(self) -> (r: features::CreateExternalReferenceRequest)
        ensures
            r.parent_uuid == self.parent_uuid,
            r.id == self.id,
            r.name == self.name,
            r.url == Some(self.url),
    {
        features::CreateExternalReferenceRequest {
            parent_uuid: self.parent_uuid,
            id: self.id,
            name: self.name,
            url: Some(self.url),
        }
    }
}

/// Tool parameters: Deleting an external reference.
#[derive(Debug, Clone)]
pub struct DeleteExternalReferenceParams {
    /// External reference ID
    pub id: String,
    /// Parent feature UUID
    pub parent_uuid: String,
}

/// Tool parameters: Listing documents.
#[derive(Debug, Clone)]
pub struct ListDocumentsParams {
    /// OData $filter expression
    pub filter: Option<String>,
    /// Comma-separated list of fields to select
    pub select: Option<String>,
    /// OData $orderby expression
    pub orderby: Option<String>,
    /// Maximum number of records to return
    pub top: Option<u32>,
    /// Number of records to skip for pagination
    pub skip: Option<u32>,
}

impl ListDocumentsParams {
    /// The OData query of these parameters; `None` when no facet is given.
    pub fn query(self) -> (r: Option<ODataQuery>)
        ensures
            is_built_query(r, self.filter, self.select, None, self.orderby, self.top, self.skip),
    {
        build_odata_query(self.filter, self.select, None, self.orderby, self.top, self.skip)
    }
}

/// Tool parameters: Creating a document.
#[derive(Debug, Clone)]
pub struct CreateDocumentParams {
    /// Document title (required)
    pub title: String,
    /// HTML content
    pub content: Option<String>,
    /// Project ID
    pub project_id: Option<String>,
    /// Document type code
    pub type_code: Option<String>,
}

impl CreateDocumentParams {
    /// The request these parameters describe; fields the tool does not offer are left unset.
    pub fn into_request(self) -> (r: documents::CreateDocumentRequest)
        ensures
            r.title == self.title,
            r.content == self.content,
            r.project_id == self.project_id,
            r.type_code == self.type_code,
            r.status_code is None,
            r.priority_code is None,
    {
        documents::CreateDocumentRequest {
            title: self.title,
            content: self.content,
            project_id: self.project_id,
            type_code: self.type_code,
            status_code: None,
            priority_code: None,
        }
    }
}

/// Tool parameters: Updating a document.
#[derive(Debug, Clone)]
pub struct UpdateDocumentParams {
    /// Document UUID
    pub uuid: String,
    /// New title
    pub title: Option<String>,
    /// New HTML content
    pub content: Option<String>,
    /// New status code
    pub status_code: Option<String>,
}

impl UpdateDocumentParams {
    /// The request these parameters describe; fields the tool does not offer are left unset.
    pub fn into_request(self) -> (r: documents::UpdateDocumentRequest)
        ensures
            r.title == self.title,
            r.content == self.content,
            r.status_code == self.status_code,
            r.priority_code is None,
            r.type_code is None,
    {
        documents::UpdateDocumentRequest {
            title: self.title,
            content: self.content,
            status_code: self.status_code,
            priority_code: None,
            type_code: None,
        }
    }
}

/// Tool parameters: Listing the tasks of a project.
#[derive(Debug, Clone)]
pub struct ListTasksToolParams {
    /// Project ID (required)
    pub project_id: String,
    /// Task type filter
    pub task_type: Option<String>,
    /// Status filter
    pub status: Option<String>,
    /// Sub-status filter
    pub sub_status: Option<String>,
    /// Assignee ID filter
    pub assignee_id: Option<String>,
    /// Tags filter (comma-separated)
    pub tags: Option<String>,
    /// Number of records to skip
    pub offset: Option<u32>,
    /// Maximum number of records to return
    pub limit: Option<u32>,
}

/// Tool parameters: Creating a task.
#[derive(Debug, Clone)]
pub struct CreateTaskParams {
    /// Project ID (required)
    pub project_id: String,
    /// Task title (required)
    pub title: String,
    /// Task type (required)
    pub task_type: String,
    /// Task description
    pub description: Option<String>,
    /// Assignee ID
    pub assignee_id: Option<String>,
    /// Due date (ISO format)
    pub due_date: Option<String>,
}

impl CreateTaskParams {
    /// The request these parameters describe; fields the tool does not offer are left unset.
    pub fn into_request(self) -> (r: tasks::CreateTaskRequest)
        ensures
            r.project_id == self.project_id,
            r.title == self.title,
            r.task_type == self.task_type,
            r.description == self.description,
            r.priority_id is None,
            r.assignee_id == self.assignee_id,
            r.due_date == self.due_date,
    {
        tasks::CreateTaskRequest {
            project_id: self.project_id,
            title: self.title,
            task_type: self.task_type,
            description: self.description,
            priority_id: None,
            assignee_id: self.assignee_id,
            due_date: self.due_date,
        }
    }
}

/// Tool parameters: Updating a task.
#[derive(Debug, Clone)]
pub struct UpdateTaskParams {
    /// Task UUID
    pub uuid: String,
    /// New title
    pub title: Option<String>,
    /// New description
    pub description: Option<String>,
    /// New status
    pub status: Option<String>,
    /// New assignee ID
    pub assignee_id: Option<String>,
}

impl UpdateTaskParams {
    /// The request these parameters describe; fields the tool does not offer are left unset.
    pub fn into_request(self) -> (r: tasks::UpdateTaskRequest)
        ensures
            r.title == self.title,
            r.description == self.description,
            r.status == self.status,
            r.priority_id is None,
            r.assignee_id == self.assignee_id,
            r.due_date is None,
    {
        tasks::UpdateTaskRequest {
            title: self.title,
            description: self.description,
            status: self.status,
            priority_id: None,
            assignee_id: self.assignee_id,
            due_date: None,
        }
    }
}

/// Tool parameters: Addressing a task.
#[derive(Debug, Clone)]
pub struct TaskIdParams {
    /// Task UUID
    pub task_id: String,
}

/// Tool parameters: Commenting on a task.
#[derive(Debug, Clone)]
pub struct CreateTaskCommentParams {
    /// Task UUID
    pub task_id: String,
    /// Comment content
    pub content: String,
}

impl CreateTaskCommentParams {
    /// The request these parameters describe; fields the tool does not offer are left unset.
    pub fn into_request(self) -> (r: tasks::CreateTaskCommentRequest)
        ensures
            r.content == self.content,
    {
        tasks::CreateTaskCommentRequest {
            content: self.content,
        }
    }
}

/// Tool parameters: Addressing a project.
#[derive(Debug, Clone)]
pub struct ProjectIdParams {
    /// Project ID
    pub project_id: String,
}

/// Tool parameters: Creating a project.
#[derive(Debug, Clone)]
pub struct CreateProjectParams {
    /// Project name (required)
    pub name: String,
    /// Program ID
    pub program_id: Option<String>,
}

impl CreateProjectParams {
    /// The request these parameters describe; fields the tool does not offer are left unset.
    pub fn into_request(self) -> (r: projects::CreateProjectRequest)
        ensures
            r.name == self.name,
            r.description is None,
            r.program_id == self.program_id,
    {
        projects::CreateProjectRequest {
            name: self.name,
            description: None,
            program_id: self.program_id,
        }
    }
}

/// Tool parameters: Listing any OData collection.
#[derive(Debug, Clone)]
pub struct ODataListParams {
    /// OData $filter expression
    pub filter: Option<String>,
    /// Comma-separated list of fields to select
    pub select: Option<String>,
    /// Comma-separated list of navigation properties to expand
    pub expand: Option<String>,
    /// OData $orderby expression
    pub orderby: Option<String>,
    /// Maximum number of records to return
    pub top: Option<u32>,
    /// Number of records to skip for pagination
    pub skip: Option<u32>,
}

impl ODataListParams {
    /// The OData query of these parameters; `None` when no facet is given.
    pub fn query(self) -> (r: Option<ODataQuery>)
        ensures
            is_built_query(r, self.filter, self.select, self.expand, self.orderby, self.top, self.skip),
    {
        build_odata_query(self.filter, self.select, self.expand, self.orderby, self.top, self.skip)
    }
}

/// Tool parameters: Creating a test case.
#[derive(Debug, Clone)]
pub struct CreateTestcaseParams {
    /// Test case title (required)
    pub title: String,
    /// Test case description
    pub description: Option<String>,
    /// Project ID
    pub project_id: Option<String>,
}

impl CreateTestcaseParams {
    /// The request these parameters describe; fields the tool does not offer are left unset.
    pub fn into_request(self) -> (r: testmanagement::CreateTestCaseRequest)
        ensures
            r.title == self.title,
            r.description == self.description,
            r.project_id == self.project_id,
    {
        testmanagement::CreateTestCaseRequest {
            title: self.title,
            description: self.description,
            project_id: self.project_id,
        }
    }
}

/// Tool parameters: Updating a test case.
#[derive(Debug, Clone)]
pub struct UpdateTestcaseParams {
    /// Test case UUID
    pub uuid: String,
    /// New title
    pub title: Option<String>,
    /// New description
    pub description: Option<String>,
    /// New status code
    pub status_code: Option<String>,
}

impl UpdateTestcaseParams {
    /// The request these parameters describe; fields the tool does not offer are left unset.
    pub fn into_request(self) -> (r: testmanagement::UpdateTestCaseRequest)
        ensures
            r.title == self.title,
            r.description == self.description,
            r.status_code == self.status_code,
    {
        testmanagement::UpdateTestCaseRequest {
            title: self.title,
            description: self.description,
            status_code: self.status_code,
        }
    }
}

/// Tool parameters: Creating a test activity.
#[derive(Debug, Clone)]
pub struct CreateTestActivityParams {
    /// Activity title (required)
    pub title: String,
    /// Parent test case UUID (required)
    pub parent_id: String,
    /// Activity description
    pub description: Option<String>,
    /// Sequence number
    pub sequence: Option<i32>,
}

impl CreateTestActivityParams {
    /// The request these parameters describe; fields the tool does not offer are left unset.
    pub fn into_request(self) -> (r: testmanagement::CreateTestActivityRequest)
        ensures
            r.title == self.title,
            r.parent_id == self.parent_id,
            r.description == self.description,
            r.sequence == self.sequence,
    {
        testmanagement::CreateTestActivityRequest {
            title: self.title,
            parent_id: self.parent_id,
            description: self.description,
            sequence: self.sequence,
        }
    }
}

/// Tool parameters: Creating a test action.
#[derive(Debug, Clone)]
pub struct CreateTestActionParams {
    /// Action title (required)
    pub title: String,
    /// Parent activity UUID (required)
    pub parent_id: String,
    /// Action description
    pub description: Option<String>,
    /// Expected result
    pub expected_result: Option<String>,
    /// Sequence number
    pub sequence: Option<i32>,
    /// Whether evidence is required
    pub is_evidence_required: Option<bool>,
}

impl CreateTestActionParams {
    /// The request these parameters describe; fields the tool does not offer are left unset.
    pub fn into_request(self) -> (r: testmanagement::CreateTestActionRequest)
        ensures
            r.title == self.title,
            r.parent_id == self.parent_id,
            r.description == self.description,
            r.expected_result == self.expected_result,
            r.sequence == self.sequence,
            r.is_evidence_required == self.is_evidence_required,
    {
        testmanagement::CreateTestActionRequest {
            title: self.title,
            parent_id: self.parent_id,
            description: self.description,
            expected_result: self.expected_result,
            sequence: self.sequence,
            is_evidence_required: self.is_evidence_required,
        }
    }
}

/// Tool parameters: Reading one hierarchy node.
#[derive(Debug, Clone)]
pub struct GetHierarchyNodeParams {
    /// Node UUID
    pub uuid: String,
    /// Navigation properties to expand (comma-separated): toParentNode, toChildNodes, toExternalReferences
    pub expand: Option<String>,
}

/// Tool parameters: Creating a hierarchy node.
#[derive(Debug, Clone)]
pub struct CreateHierarchyNodeParams {
    /// Node title (required)
    pub title: String,
    /// Parent node UUID
    pub parent_node_uuid: Option<String>,
    /// Node description
    pub description: Option<String>,
    /// Sequence number
    pub sequence: Option<i32>,
}

impl CreateHierarchyNodeParams {
    /// The request these parameters describe; fields the tool does not offer are left unset.
    pub fn into_request(self) -> (r: processhierarchy::CreateHierarchyNodeRequest)
        ensures
            r.title == self.title,
            r.description == self.description,
            r.parent_node_uuid == self.parent_node_uuid,
            r.sequence == self.sequence,
    {
        processhierarchy::CreateHierarchyNodeRequest {
            title: self.title,
            description: self.description,
            parent_node_uuid: self.parent_node_uuid,
            sequence: self.sequence,
        }
    }
}

/// Tool parameters: Updating a hierarchy node.
#[derive(Debug, Clone)]
pub struct UpdateHierarchyNodeParams {
    /// Node UUID
    pub uuid: String,
    /// New title
    pub title: Option<String>,
    /// New description
    pub description: Option<String>,
    /// New sequence
    pub sequence: Option<i32>,
}

impl UpdateHierarchyNodeParams {
    /// The request these parameters describe; fields the tool does not offer are left unset.
    pub fn into_request(self) -> (r: processhierarchy::UpdateHierarchyNodeRequest)
        ensures
            r.title == self.title,
            r.description == self.description,
            r.sequence == self.sequence,
    {
        processhierarchy::UpdateHierarchyNodeRequest {
            title: self.title,
            description: self.description,
            sequence: self.sequence,
        }
    }
}

/// Tool parameters: Querying an analytics dataset.
#[derive(Debug, Clone)]
pub struct QueryDatasetParams {
    /// Data provider name (required)
    pub provider: String,
    /// OData $filter expression
    pub filter: Option<String>,
    /// Comma-separated list of fields to select
    pub select: Option<String>,
    /// OData $orderby expression
    pub orderby: Option<String>,
    /// Maximum number of records to return
    pub top: Option<u32>,
    /// Number of records to skip for pagination
    pub skip: Option<u32>,
}

/// Tool parameters: Reading logs.
#[derive(Debug, Clone)]
pub struct GetLogsToolParams {
    /// Provider name (required)
    pub provider: String,
    /// Log format
    pub format: Option<String>,
    /// API version
    pub version: Option<String>,
    /// Time period (e.g., "1h", "24h")
    pub period: Option<String>,
    /// Start timestamp (ISO format)
    pub from: Option<String>,
    /// End timestamp (ISO format)
    pub to: Option<String>,
    /// Maximum number of logs
    pub limit: Option<u32>,
    /// Offset for pagination
    pub offset: Option<u32>,
    /// Service ID filter
    pub service_id: Option<String>,
}

impl GetLogsToolParams {
    /// The request these parameters describe; fields the tool does not offer are left unset.
    pub fn into_request(self) -> (r: logs::GetLogsParams)
        ensures
            r.provider == self.provider,
            r.format == self.format,
            r.version == self.version,
            r.period == self.period,
            r.from == self.from,
            r.to == self.to,
            r.limit == self.limit,
            r.offset == self.offset,
            r.service_id == self.service_id,
            r.observed_timestamp is None,
            r.on_limit is None,
    {
        logs::GetLogsParams {
            provider: self.provider,
            format: self.format,
            version: self.version,
            period: self.period,
            from: self.from,
            to: self.to,
            limit: self.limit,
            offset: self.offset,
            service_id: self.service_id,
            observed_timestamp: None,
            on_limit: None,
        }
    }
}

impl ListTasksToolParams {
    /// The task listing parameters: tags are a comma-separated list, each trimmed.
    pub fn into_params(self) -> (r: tasks::ListTasksParams)
        ensures
            r.project_id == self.project_id,
            r.task_type == self.task_type,
            r.status == self.status,
            r.sub_status == self.sub_status,
            r.assignee_id == self.assignee_id,
            r.offset == self.offset,
            r.limit == self.limit,
            r.last_changed_date is None,
            match self.tags {
            Some(t) => r.tags matches Some(v) && views(v@) == comma_list(t@),
            None => r.tags is None,
            },
    {
        let tags = match &self.tags {
            Some(t) => Some(comma_separated(t.as_str())),
            None => None,
        };
        tasks::ListTasksParams {
            project_id: self.project_id,
            offset: self.offset,
            limit: self.limit,
            task_type: self.task_type,
            status: self.status,
            sub_status: self.sub_status,
            assignee_id: self.assignee_id,
            last_changed_date: None,
            tags,
        }
    }
}

impl GetFeatureParams {
    /// The relations to expand: the comma-separated list, each trimmed.
    pub fn expand_list(&self) -> (r: Option<Vec<String>>)
        ensures
            match self.expand {
            Some(e) => r matches Some(v) && views(v@) == comma_list(e@),
            None => r is None,
            },
    {
        match &self.expand {
            Some(e) => Some(comma_separated(e.as_str())),
            None => None,
        }
    }
}

impl GetHierarchyNodeParams {
    /// The relations to expand: the comma-separated list, each trimmed.
    pub fn expand_list(&self) -> (r: Option<Vec<String>>)
        ensures
            match self.expand {
            Some(e) => r matches Some(v) && views(v@) == comma_list(e@),
            None => r is None,
            },
    {
        match &self.expand {
            Some(e) => Some(comma_separated(e.as_str())),
            None => None,
        }
    }
}

} // verus!
