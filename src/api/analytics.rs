//! Analytics service (OData v4): dataset queries by provider.

use vstd::prelude::*;
use crate::query::{empty_model, ODataQuery, QueryModel};

verus! {

/// The filter of a dataset query: the provider, joined with `and` to an
/// additional filter when there is one.
pub open spec fn dataset_filter(provider: Seq<char>, additional: Option<Seq<char>>) -> Seq<char> {
    let base = "provider eq '"@ + provider + "'"@;
    match additional {
        Some(extra) => base + " and "@ + extra,
        None => base,
    }
}

/// The query of a dataset by provider name, with optional paging.
pub fn dataset_query(provider: &str, additional_filter: Option<String>, top: Option<u32>, skip: Option<u32>) -> (r: ODataQuery)
    ensures
        r@ == (QueryModel {
            filter: Some(
                dataset_filter(
                    provider@,
                    match additional_filter {
                        Some(f) => Some(f@),
                        None => None,
                    },
                ),
            ),
            top: top,
            skip: skip,
            ..empty_model()
        }),
{
    let base = "provider eq '".to_owned().concat(provider).concat("'");
    let full = match additional_filter {
        Some(extra) => base.concat(" and ").concat(extra.as_str()),
        None => base,
    };
    let mut query = ODataQuery::new().filter(full.as_str());
    if let Some(t) = top {
        query = query.top(t);
    }
    if let Some(s) = skip {
        query = query.skip(s);
    }
    query
}

/// The analytics providers and their descriptions, in listing order.
pub open spec fn provider_table() -> Seq<(Seq<char>, Seq<char>)> {
    seq![
        ("Requirements"@, "Requirements analytics data"@),
        ("Projects"@, "Projects analytics data"@),
        ("Tasks"@, "Tasks analytics data"@),
        ("Defects"@, "Defects analytics data"@),
        ("Tests"@, "Tests analytics data"@),
        ("Features"@, "Features analytics data"@),
        ("ConfigurationItems"@, "Configuration items analytics data"@),
        ("Metrics"@, "Metrics analytics data"@),
        ("Requests"@, "Requests analytics data"@),
        ("Exceptions"@, "Exceptions analytics data"@),
        ("StatusEvents"@, "Status events analytics data"@),
        ("QualityGates"@, "Quality gates analytics data"@),
        ("Jobs"@, "Jobs analytics data"@),
        ("ServiceLevels"@, "Service levels analytics data"@),
        ("ScenarioExecutions"@, "Scenario executions analytics data"@),
        ("MonitoringEvents"@, "Monitoring events analytics data"@),
        ("Messages"@, "Messages analytics data"@)
    ]
}

/// The views of a list of name and description pairs.
pub open spec fn pair_views(v: Seq<(String, String)>) -> Seq<(Seq<char>, Seq<char>)> {
    v.map_values(|p: (String, String)| (p.0@, p.1@))
}

/// The analytics providers, with a description each.
pub fn analytics_providers() -> (r: Vec<(String, String)>)
    ensures
        pair_views(r@) == provider_table(),
{
    let mut v: Vec<(String, String)> = Vec::new();
    v.push(("Requirements".to_owned(), "Requirements analytics data".to_owned()));
    v.push(("Projects".to_owned(), "Projects analytics data".to_owned()));
    v.push(("Tasks".to_owned(), "Tasks analytics data".to_owned()));
    v.push(("Defects".to_owned(), "Defects analytics data".to_owned()));
    v.push(("Tests".to_owned(), "Tests analytics data".to_owned()));
    v.push(("Features".to_owned(), "Features analytics data".to_owned()));
    v.push(("ConfigurationItems".to_owned(), "Configuration items analytics data".to_owned()));
    v.push(("Metrics".to_owned(), "Metrics analytics data".to_owned()));
    v.push(("Requests".to_owned(), "Requests analytics data".to_owned()));
    v.push(("Exceptions".to_owned(), "Exceptions analytics data".to_owned()));
    v.push(("StatusEvents".to_owned(), "Status events analytics data".to_owned()));
    v.push(("QualityGates".to_owned(), "Quality gates analytics data".to_owned()));
    v.push(("Jobs".to_owned(), "Jobs analytics data".to_owned()));
    v.push(("ServiceLevels".to_owned(), "Service levels analytics data".to_owned()));
    v.push(("ScenarioExecutions".to_owned(), "Scenario executions analytics data".to_owned()));
    v.push(("MonitoringEvents".to_owned(), "Monitoring events analytics data".to_owned()));
    v.push(("Messages".to_owned(), "Messages analytics data".to_owned()));
    proof {
        assert(pair_views(v@) =~= provider_table());
    }
    v
}

} // verus!
