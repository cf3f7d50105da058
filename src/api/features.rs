//! Features service (OData v4): feature entities, requests, and the lookup of a feature by display ID.

use vstd::prelude::*;
use crate::error::ApiError;
use crate::odata::ODataCollection;
use crate::query::{empty_model, ODataQuery, QueryModel};

verus! {

/// Feature entity.
#[derive(Debug, Clone)]
pub struct Feature {
    pub uuid: Option<String>,
    pub display_id: Option<String>,
    pub title: Option<String>,
    pub description: Option<String>,
    pub project_id: Option<String>,
    pub status_code: Option<String>,
    pub priority_code: Option<i32>,
    pub release_id: Option<String>,
    pub scope_id: Option<String>,
    pub responsible_id: Option<String>,
    pub modified_at: Option<String>,
    pub created_at: Option<String>,
    pub feature_type: Option<String>,
    pub workstream_id: Option<String>,
    pub tags: Vec<String>,
}

/// External reference entity.
#[derive(Debug, Clone)]
pub struct ExternalReference {
    pub id: Option<String>,
    pub parent_uuid: Option<String>,
    pub name: Option<String>,
    pub url: Option<String>,
}

/// Priority code entity.
#[derive(Debug, Clone)]
pub struct PriorityCode {
    pub code: String,
    pub name: String,
}

/// Status code entity.
#[derive(Debug, Clone)]
pub struct StatusCode {
    pub code: String,
    pub name: String,
}

/// Request to create a feature.
#[derive(Debug, Clone)]
pub struct CreateFeatureRequest {
    pub title: String,
    pub project_id: String,
    pub description: Option<String>,
    pub priority_code: Option<String>,
    pub status_code: Option<String>,
    pub release_id: Option<String>,
    pub scope_id: Option<String>,
}

/// Request to update a feature.
#[derive(Debug, Clone, Default)]
pub struct UpdateFeatureRequest {
    pub title: Option<String>,
    pub description: Option<String>,
    pub priority_code: Option<String>,
    pub status_code: Option<String>,
    pub release_id: Option<String>,
    pub scope_id: Option<String>,
}

/// Request to create an external reference.
#[derive(Debug, Clone)]
pub struct CreateExternalReferenceRequest {
    pub id: String,
    pub parent_uuid: String,
    pub name: String,
    pub url: Option<String>,
}

/// The filter selecting a feature by display ID.
pub open spec fn display_id_filter(display_id: Seq<char>) -> Seq<char> {
    "displayId eq '"@ + display_id + "'"@
}

/// The body of the error for an unknown display ID.
pub open spec fn display_id_missing(display_id: Seq<char>) -> Seq<char> {
    "Feature with displayId '"@ + display_id + "' not found"@
}

/// The query finding a feature by display ID: that filter, at most one result.
pub fn display_id_query(display_id: &str) -> (r: ODataQuery)
    ensures
        r@ == (QueryModel { filter: Some(display_id_filter(display_id@)), top: Some(1), ..empty_model() }),
{
    let f = "displayId eq '".to_owned().concat(display_id).concat("'");
    ODataQuery::new().filter(f.as_str()).top(1)
}

/// The feature a display-ID lookup found: the first of the collection, or
/// a 404 error naming the display ID when the collection is empty.
pub fn first_feature(collection: ODataCollection<Feature>, display_id: &str) -> (r: Result<Feature, ApiError>)
    ensures
        collection.value.len() > 0 ==> r == Ok::<Feature, ApiError>(collection.value@[0]),
        collection.value.len() == 0 ==> (r matches Err(ApiError::HttpError { status, body })
            && status == 404 && body@ == display_id_missing(display_id@)),
{
    let mut items = collection.value;
    if items.len() == 0 {
        Err(ApiError::HttpError {
            status: 404,
            body: "Feature with displayId '".to_owned().concat(display_id).concat("' not found"),
        })
    } else {
        Ok(items.remove(0))
    }
}

/// The UUID of a feature, or a 500 error when the feature lacks one.
pub fn feature_uuid(feature: &Feature) -> (r: Result<String, ApiError>)
    ensures
        feature.uuid matches Some(u) ==> (r matches Ok(x) && x@ == u@),
        feature.uuid is None ==> (r matches Err(ApiError::HttpError { status, body })
            && status == 500 && body@ == "Feature UUID is missing"@),
{
    match &feature.uuid {
        Some(u) => Ok(u.clone()),
        None => Err(ApiError::HttpError { status: 500, body: "Feature UUID is missing".to_owned() }),
    }
}

/// The endpoint of one external reference of a feature.
pub fn external_reference_endpoint(id: &str, parent_uuid: &str) -> (r: String)
    ensures
        r@ == "/ExternalReferences/"@ + id@ + "/"@ + parent_uuid@,
{
    "/ExternalReferences/".to_owned().concat(id).concat("/").concat(parent_uuid)
}

} // verus!
