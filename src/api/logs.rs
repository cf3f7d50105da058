//! Logs service (REST): parameters and URLs of log retrieval and ingestion.

use vstd::prelude::*;
use crate::url::{
    encoded_param, flag_param, number_param, push_encoded_param, push_flag_param, push_number_param,
    push_text_param, text_param,
};

verus! {

/// Query parameters for getting logs.
#[derive(Debug, Clone, Default)]
pub struct GetLogsParams {
    pub provider: String,
    pub format: Option<String>,
    pub version: Option<String>,
    pub period: Option<String>,
    pub from: Option<String>,
    pub to: Option<String>,
    pub limit: Option<u32>,
    pub offset: Option<u32>,
    pub service_id: Option<String>,
    pub observed_timestamp: Option<bool>,
    pub on_limit: Option<String>,
}

/// Parameters for posting logs.
#[derive(Debug, Clone)]
pub struct PostLogsParams {
    pub use_case: String,
    pub service_id: String,
    pub version: Option<String>,
    pub dev: Option<bool>,
    pub tag: Option<String>,
}

/// The URL reading logs of a provider with the given options, in this order:
/// format, version, period, from, to, limit, offset,
/// `logsFilters[serviceId]`, observedTimestamp, onLimit.
pub open spec fn get_logs_url_of(base: Seq<char>, p: GetLogsParams) -> Seq<char> {
    base + "/logs?provider="@ + p.provider@ + text_param("format"@, p.format) + text_param(
        "version"@,
        p.version,
    ) + text_param("period"@, p.period) + text_param("from"@, p.from) + text_param("to"@, p.to)
        + number_param("limit"@, p.limit) + number_param("offset"@, p.offset) + text_param(
        "logsFilters[serviceId]"@,
        p.service_id,
    ) + flag_param("observedTimestamp"@, p.observed_timestamp) + text_param("onLimit"@, p.on_limit)
}

/// The URL posting logs: use case and service, then version, dev flag and
/// the percent-encoded tag when present.
pub open spec fn post_logs_url_of(base: Seq<char>, p: PostLogsParams) -> Seq<char> {
    base + "/logs?useCase="@ + p.use_case@ + "&serviceId="@ + p.service_id@ + text_param(
        "version"@,
        p.version,
    ) + flag_param("dev"@, p.dev) + encoded_param("tag"@, p.tag)
}

/// Builds the URL reading logs.
pub fn get_logs_url(base_url: &str, params: &GetLogsParams) -> (r: String)
    ensures
        r@ == get_logs_url_of(base_url@, *params),
{
    let mut url = base_url.to_owned().concat("/logs?provider=").concat(params.provider.as_str());
    push_text_param(&mut url, "format", &params.format);
    push_text_param(&mut url, "version", &params.version);
    push_text_param(&mut url, "period", &params.period);
    push_text_param(&mut url, "from", &params.from);
    push_text_param(&mut url, "to", &params.to);
    push_number_param(&mut url, "limit", params.limit);
    push_number_param(&mut url, "offset", params.offset);
    push_text_param(&mut url, "logsFilters[serviceId]", &params.service_id);
    push_flag_param(&mut url, "observedTimestamp", params.observed_timestamp);
    push_text_param(&mut url, "onLimit", &params.on_limit);
    url
}

/// Builds the URL posting logs.
pub fn post_logs_url(base_url: &str, params: &PostLogsParams) -> (r: String)
    ensures
        r@ == post_logs_url_of(base_url@, *params),
{
    let mut url = base_url.to_owned().concat("/logs?useCase=").concat(params.use_case.as_str()).concat(
        "&serviceId=",
    ).concat(params.service_id.as_str());
    push_text_param(&mut url, "version", &params.version);
    push_flag_param(&mut url, "dev", params.dev);
    push_encoded_param(&mut url, "tag", &params.tag);
    url
}

} // verus!
