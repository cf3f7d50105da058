use sap_cloud_alm_mcp::odata::ODataClient;
use sap_cloud_alm_mcp::query::build_odata_query;

#[test]
fn list_features_url_on_the_wire() {
    let client = ODataClient::new("https://x".to_string(), false, false);
    let query = build_odata_query(
        Some("projectId eq 'abc'".to_string()),
        None,
        None,
        Some("modifiedAt desc".to_string()),
        Some(50),
        None,
    );
    let request = client.get_collection_request("/Features", query, "tok");
    let url = reqwest::Url::parse(&request.url).unwrap();
    assert_eq!(
        url.query(),
        Some("$filter=projectId%20eq%20%27abc%27&$orderby=modifiedAt%20desc&$top=50")
    );
}
