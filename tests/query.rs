use sap_cloud_alm_mcp::query::{build_odata_query, comma_separated, ordering_of, ODataQuery, SortOrder};

#[test]
fn test_empty_query_returns_empty_string() {
    let query = ODataQuery::new();
    assert_eq!(query.to_query_string(), "");
}

#[test]
fn test_query_with_filter() {
    let query = ODataQuery::new().filter("name eq 'test'");
    let result = query.to_query_string();
    assert!(result.starts_with("?$filter="));
    assert!(result.contains("name%20eq%20%27test%27"));
}

#[test]
fn test_query_with_select() {
    let query = ODataQuery::new().select(vec!["name".to_string(), "id".to_string()]);
    assert_eq!(query.to_query_string(), "?$select=name,id");
}

#[test]
fn test_query_with_expand() {
    let query = ODataQuery::new().expand(vec!["toProject".to_string(), "toStatus".to_string()]);
    assert_eq!(query.to_query_string(), "?$expand=toProject,toStatus");
}

#[test]
fn test_query_with_orderby_asc() {
    let query = ODataQuery::new().orderby("modifiedAt", SortOrder::Asc);
    assert_eq!(query.to_query_string(), "?$orderby=modifiedAt asc");
}

#[test]
fn test_query_with_orderby_desc() {
    let query = ODataQuery::new().orderby("createdAt", SortOrder::Desc);
    assert_eq!(query.to_query_string(), "?$orderby=createdAt desc");
}

#[test]
fn test_query_with_multiple_orderby() {
    let query = ODataQuery::new()
        .orderby("status", SortOrder::Asc)
        .orderby("modifiedAt", SortOrder::Desc);
    assert_eq!(query.to_query_string(), "?$orderby=status asc,modifiedAt desc");
}

#[test]
fn test_query_with_top() {
    let query = ODataQuery::new().top(10);
    assert_eq!(query.to_query_string(), "?$top=10");
}

#[test]
fn test_query_with_skip() {
    let query = ODataQuery::new().skip(20);
    assert_eq!(query.to_query_string(), "?$skip=20");
}

#[test]
fn test_query_with_pagination() {
    let query = ODataQuery::new().top(10).skip(20);
    assert_eq!(query.to_query_string(), "?$top=10&$skip=20");
}

#[test]
fn test_query_with_multiple_params() {
    let query = ODataQuery::new()
        .filter("projectId eq 'abc'")
        .select(vec!["id".to_string(), "title".to_string()])
        .orderby("modifiedAt", SortOrder::Desc)
        .top(50);
    let result = query.to_query_string();
    assert!(result.contains("$filter="));
    assert!(result.contains("$select=id,title"));
    assert!(
        result.contains("$orderby=modifiedAt%20desc") || result.contains("$orderby=modifiedAt desc")
    );
    assert!(result.contains("$top=50"));
}

#[test]
fn test_filter_url_encoding_special_characters() {
    let query = ODataQuery::new().filter("name eq 'O'Reilly & Sons'");
    let result = query.to_query_string();
    assert!(result.contains("%27"));
    assert!(result.contains("%26"));
}

#[test]
fn test_sort_order_clone() {
    let asc = SortOrder::Asc;
    let cloned = asc;
    assert!(matches!(cloned, SortOrder::Asc));

    let desc = SortOrder::Desc;
    let cloned = desc;
    assert!(matches!(cloned, SortOrder::Desc));
}

#[test]
fn test_odata_query_clone() {
    let query = ODataQuery::new().filter("test").top(10);
    let cloned = query.clone();
    assert_eq!(cloned.to_query_string(), query.to_query_string());
}

#[test]
fn serializing_twice_gives_the_same_text() {
    let query = ODataQuery::new()
        .filter("a eq 1")
        .expand(vec!["toX".to_string()])
        .skip(3);
    let first = query.to_query_string();
    let second = query.to_query_string();
    assert_eq!(first, second);
    assert_eq!(first, "?$filter=a%20eq%201&$expand=toX&$skip=3");
}

#[test]
fn filter_with_quote_and_ampersand_is_fully_encoded() {
    let result = ODataQuery::new().filter("name eq 'O'Reilly & Sons'").to_query_string();
    assert_eq!(result, "?$filter=name%20eq%20%27O%27Reilly%20%26%20Sons%27");
    let segment = result.trim_start_matches("?$filter=");
    assert!(!segment.contains('\''));
    assert!(!segment.contains('&'));
}

#[test]
fn filter_encoding_keeps_unreserved_and_encodes_utf8_bytes() {
    let result = ODataQuery::new().filter("a-b_c.d~e/é").to_query_string();
    assert_eq!(result, "?$filter=a-b_c.d~e%2F%C3%A9");
}

#[test]
fn every_facet_in_fixed_order() {
    let query = ODataQuery::new()
        .search("x y")
        .count()
        .skip(2)
        .top(1)
        .orderby("f", SortOrder::Desc)
        .expand(vec!["e".to_string()])
        .select(vec!["s".to_string()])
        .filter("q");
    assert_eq!(
        query.to_query_string(),
        "?$filter=q&$select=s&$expand=e&$orderby=f desc&$top=1&$skip=2&$count=true&$search=x%20y"
    );
}

#[test]
fn list_features_scenario_query() {
    let query = build_odata_query(
        Some("projectId eq 'abc'".to_string()),
        None,
        None,
        Some("modifiedAt desc".to_string()),
        Some(50),
        None,
    )
    .unwrap();
    assert_eq!(
        query.to_query_string(),
        "?$filter=projectId%20eq%20%27abc%27&$orderby=modifiedAt desc&$top=50"
    );
}

#[test]
fn build_query_without_facets_is_none() {
    assert!(build_odata_query(None, None, None, None, None, None).is_none());
}

#[test]
fn build_query_splits_and_trims_lists() {
    let query = build_odata_query(
        None,
        Some(" id , title,".to_string()),
        Some("toProject,  toStatus".to_string()),
        Some("  createdAt   DeSc extra".to_string()),
        None,
        Some(5),
    )
    .unwrap();
    assert_eq!(
        query.to_query_string(),
        "?$select=id,title,&$expand=toProject,toStatus&$orderby=createdAt desc&$skip=5"
    );
}

#[test]
fn ordering_defaults_to_ascending() {
    let (field, order) = ordering_of("name");
    assert_eq!(field, "name");
    assert_eq!(order, SortOrder::Asc);
    let (field, order) = ordering_of("name sideways");
    assert_eq!(field, "name");
    assert_eq!(order, SortOrder::Asc);
    let (field, order) = ordering_of("   ");
    assert_eq!(field, "");
    assert_eq!(order, SortOrder::Asc);
}

#[test]
fn comma_separated_keeps_empty_pieces() {
    assert_eq!(comma_separated("a, b ,,c"), vec!["a", "b", "", "c"]);
    assert_eq!(comma_separated(""), vec![""]);
}

#[test]
fn clone_renders_like_the_original() {
    let query = ODataQuery::new()
        .filter("a eq 'b'")
        .select(vec!["x".to_string()])
        .orderby("y", SortOrder::Desc)
        .orderby("z", SortOrder::Asc)
        .count();
    let copy = query.clone();
    assert_eq!(copy.to_query_string(), query.to_query_string());
    assert_eq!(copy.to_query_string(), "?$filter=a%20eq%20%27b%27&$select=x&$orderby=y desc,z asc&$count=true");
}
