use sap_cloud_alm_mcp::api::analytics::dataset_query;
use sap_cloud_alm_mcp::api::features::{
    display_id_query, external_reference_endpoint, feature_uuid, first_feature, Feature,
};
use sap_cloud_alm_mcp::api::logs::{get_logs_url, post_logs_url, GetLogsParams, PostLogsParams};
use sap_cloud_alm_mcp::api::tasks::{list_tasks_url, ListTasksParams};
use sap_cloud_alm_mcp::error::ApiError;
use sap_cloud_alm_mcp::odata::ODataCollection;

fn feature(uuid: Option<&str>) -> Feature {
    Feature {
        uuid: uuid.map(|u| u.to_string()),
        display_id: Some("6-1".to_string()),
        title: None,
        description: None,
        project_id: None,
        status_code: None,
        priority_code: None,
        release_id: None,
        scope_id: None,
        responsible_id: None,
        modified_at: None,
        created_at: None,
        feature_type: None,
        workstream_id: None,
        tags: Vec::new(),
    }
}

#[test]
fn list_tasks_url_with_filters_and_tags() {
    let params = ListTasksParams {
        project_id: "proj-a".to_string(),
        offset: Some(10),
        limit: Some(5),
        task_type: Some("CALMT".to_string()),
        status: None,
        sub_status: None,
        assignee_id: Some("u1".to_string()),
        last_changed_date: None,
        tags: Some(vec!["a b".to_string(), "c&d".to_string()]),
    };
    assert_eq!(
        list_tasks_url("https://t/api", &params),
        "https://t/api/tasks?projectId=proj-a&offset=10&limit=5&type=CALMT&assigneeId=u1&tags=a%20b&tags=c%26d"
    );
    let plain = ListTasksParams { project_id: "proj-b".to_string(), ..Default::default() };
    assert_eq!(list_tasks_url("https://t", &plain), "https://t/tasks?projectId=proj-b");
}

#[test]
fn logs_urls() {
    let params = GetLogsParams {
        provider: "Cloud".to_string(),
        limit: Some(100),
        service_id: Some("s1".to_string()),
        observed_timestamp: Some(false),
        ..Default::default()
    };
    assert_eq!(
        get_logs_url("https://l", &params),
        "https://l/logs?provider=Cloud&limit=100&logsFilters[serviceId]=s1&observedTimestamp=false"
    );
    let post = PostLogsParams {
        use_case: "uc".to_string(),
        service_id: "s".to_string(),
        version: Some("v1".to_string()),
        dev: Some(true),
        tag: Some("a/b".to_string()),
    };
    assert_eq!(
        post_logs_url("https://l", &post),
        "https://l/logs?useCase=uc&serviceId=s&version=v1&dev=true&tag=a%2Fb"
    );
}

#[test]
fn display_id_lookup() {
    assert_eq!(
        display_id_query("6-123").to_query_string(),
        "?$filter=displayId%20eq%20%276-123%27&$top=1"
    );
    let found = ODataCollection {
        context: None,
        count: None,
        next_link: None,
        value: vec![feature(Some("u-1")), feature(Some("u-2"))],
    };
    assert_eq!(first_feature(found, "6-1").unwrap().uuid.as_deref(), Some("u-1"));
    let empty: ODataCollection<Feature> =
        ODataCollection { context: None, count: None, next_link: None, value: Vec::new() };
    match first_feature(empty, "6-9") {
        Err(ApiError::HttpError { status, body }) => {
            assert_eq!(status, 404);
            assert_eq!(body, "Feature with displayId '6-9' not found");
        }
        other => panic!("unexpected {:?}", other),
    }
}

#[test]
fn feature_uuid_required() {
    assert_eq!(feature_uuid(&feature(Some("u"))).unwrap(), "u");
    match feature_uuid(&feature(None)) {
        Err(ApiError::HttpError { status, body }) => {
            assert_eq!(status, 500);
            assert_eq!(body, "Feature UUID is missing");
        }
        other => panic!("unexpected {:?}", other),
    }
    assert_eq!(external_reference_endpoint("r1", "proj-a"), "/ExternalReferences/r1/proj-a");
}

#[test]
fn dataset_query_combines_filters() {
    assert_eq!(
        dataset_query("Tasks", Some("x eq 1".to_string()), Some(10), None).to_query_string(),
        "?$filter=provider%20eq%20%27Tasks%27%20and%20x%20eq%201&$top=10"
    );
    assert_eq!(
        dataset_query("Jobs", None, None, Some(4)).to_query_string(),
        "?$filter=provider%20eq%20%27Jobs%27&$skip=4"
    );
}

#[test]
fn analytics_provider_table() {
    let providers = sap_cloud_alm_mcp::api::analytics::analytics_providers();
    assert_eq!(providers.len(), 17);
    assert_eq!(providers[0], ("Requirements".to_string(), "Requirements analytics data".to_string()));
    assert_eq!(providers[16], ("Messages".to_string(), "Messages analytics data".to_string()));
}
