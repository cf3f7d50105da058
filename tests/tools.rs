use sap_cloud_alm_mcp::tools::{
    CreateExternalReferenceParams, GetFeatureParams, ListTasksToolParams, ODataListParams,
    UpdateFeatureParams,
};

#[test]
fn list_tool_parameters_become_a_query() {
    let params = ODataListParams {
        filter: Some("status eq 'OPEN'".to_string()),
        select: Some("id, title".to_string()),
        expand: None,
        orderby: Some("modifiedAt desc".to_string()),
        top: Some(20),
        skip: None,
    };
    assert_eq!(
        params.query().unwrap().to_query_string(),
        "?$filter=status%20eq%20%27OPEN%27&$select=id,title&$orderby=modifiedAt desc&$top=20"
    );
    let none = ODataListParams { filter: None, select: None, expand: None, orderby: None, top: None, skip: None };
    assert!(none.query().is_none());
}

#[test]
fn task_tags_are_split_and_trimmed() {
    let params = ListTasksToolParams {
        project_id: "p".to_string(),
        task_type: None,
        status: Some("OPEN".to_string()),
        sub_status: None,
        assignee_id: None,
        tags: Some("a, b".to_string()),
        offset: None,
        limit: Some(3),
    };
    let list = params.into_params();
    assert_eq!(list.tags, Some(vec!["a".to_string(), "b".to_string()]));
    assert_eq!(list.status.as_deref(), Some("OPEN"));
    assert_eq!(list.limit, Some(3));
    assert!(list.last_changed_date.is_none());
}

#[test]
fn update_parameters_leave_unoffered_fields_unset() {
    let params = UpdateFeatureParams {
        uuid: "u".to_string(),
        title: Some("t".to_string()),
        description: None,
        status_code: Some("S".to_string()),
        priority_code: None,
    };
    let request = params.into_request();
    assert_eq!(request.title.as_deref(), Some("t"));
    assert_eq!(request.status_code.as_deref(), Some("S"));
    assert!(request.release_id.is_none());
    assert!(request.scope_id.is_none());
}

#[test]
fn external_reference_url_is_always_sent() {
    let params = CreateExternalReferenceParams {
        parent_uuid: "p".to_string(),
        id: "i".to_string(),
        name: "n".to_string(),
        url: "https://e".to_string(),
    };
    let request = params.into_request();
    assert_eq!(request.url.as_deref(), Some("https://e"));
    assert_eq!(request.parent_uuid, "p");
}

#[test]
fn expand_parameter_is_a_trimmed_list() {
    let params = GetFeatureParams { uuid: "u".to_string(), expand: Some("toProject , toStatus".to_string()) };
    assert_eq!(params.expand_list(), Some(vec!["toProject".to_string(), "toStatus".to_string()]));
    let params = GetFeatureParams { uuid: "u".to_string(), expand: None };
    assert_eq!(params.expand_list(), None);
}
