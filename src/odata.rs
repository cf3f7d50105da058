//! The generic protocol client: URL assembly, header selection, request
//! framing and the classification of responses into payloads or errors.
//!
//! The client decides; a transport outside the library sends each
//! [`HttpRequest`] and hands back the status and body text.

use vstd::prelude::*;
use crate::error::ApiError;
use crate::json::{
    find_member, find_text, is_json, json_doc, lookup, members, parse_json, text_member, Json,
};
use crate::query::{query_string, ODataQuery};
use crate::text::{join, join_strings, prefix, prefix_of, views};

verus! {

/// OData v4 collection response wrapper.
#[derive(Debug)]
pub struct ODataCollection<T> {
    /// `@odata.context`
    pub context: Option<String>,
    /// `@odata.count`
    pub count: Option<i64>,
    /// `@odata.nextLink`
    pub next_link: Option<String>,
    /// The items.
    pub value: Vec<T>,
}

/// OData v4 error response: `{"error": {"code": ..., "message": ...}}`.
#[derive(Debug)]
pub struct ODataErrorResponse {
    pub error: ODataErrorDetail,
}

/// Code and message of an OData error.
#[derive(Debug)]
pub struct ODataErrorDetail {
    pub code: String,
    pub message: String,
}

/// HTTP methods the client issues.
#[derive(Debug, Clone, Copy, PartialEq, Eq, Structural)]
pub enum HttpMethod {
    Get,
    Post,
    Patch,
    Delete,
}

/// How an entity key is written into a URL: as a trailing path segment
/// (`/Features/abc`) or as a quoted key in parentheses (`/Features('abc')`).
#[derive(Debug, Clone, Copy, PartialEq, Eq, Structural)]
pub enum KeyAddressing {
    Segment,
    Quoted,
}

/// The text that addresses `key` in the given style.
pub open spec fn key_suffix(key: Seq<char>, style: KeyAddressing) -> Seq<char> {
    match style {
        KeyAddressing::Segment => "/"@ + key,
        KeyAddressing::Quoted => "('"@ + key + "')"@,
    }
}

/// A request ready to be sent: method, full URL, headers in order, and the
/// JSON body text if any.
#[derive(Debug)]
pub struct HttpRequest {
    pub method: HttpMethod,
    pub url: String,
    pub headers: Vec<(String, String)>,
    pub body: Option<String>,
}

/// OData v4 client for one service base URL.
#[derive(Debug, Clone)]
pub struct ODataClient {
    base_url: String,
    is_sandbox: bool,
    debug: bool,
}

/// Member `key` is absent, null or a string.
pub open spec fn optional_text(fields: Seq<(String, Json)>, key: Seq<char>) -> bool {
    match lookup(fields, key) {
        None => true,
        Some(Json::Null) => true,
        Some(Json::Text(_)) => true,
        _ => false,
    }
}

/// One entry of an error's `details`: an object with a string `message`
/// and an optional string `code` and `target`.
pub open spec fn is_error_item(j: Json) -> bool {
    match j {
        Json::Object(m) => text_member(m@, "message"@) is Some && optional_text(m@, "code"@)
            && optional_text(m@, "target"@),
        _ => false,
    }
}

/// Every entry is an error entry.
pub open spec fn all_error_items(items: Seq<Json>) -> bool {
    forall|i: int| 0 <= i < items.len() ==> is_error_item(#[trigger] items[i])
}

/// The error's `details` are absent or an array of error entries.
pub open spec fn valid_details(inner: Seq<(String, Json)>) -> bool {
    match lookup(inner, "details"@) {
        None => true,
        Some(Json::Array(items)) => all_error_items(items@),
        _ => false,
    }
}

/// The `(code, message)` of a structured error document, if it is one: an
/// object whose `error` member is an object with string `code` and
/// `message`, and `details` absent or an array of error entries.
pub open spec fn envelope(doc: Json) -> Option<(Seq<char>, Seq<char>)> {
    match members(doc) {
        Some(top) => match lookup(top, "error"@) {
            Some(Json::Object(inner)) => match (
                text_member(inner@, "code"@),
                text_member(inner@, "message"@),
            ) {
                (Some(c), Some(m)) => if valid_details(inner@) {
                    Some((c, m))
                } else {
                    None
                },
                _ => None,
            },
            _ => None,
        },
        None => None,
    }
}

/// The envelope found in a response body: none unless the body is JSON.
pub open spec fn body_envelope(body: Seq<char>) -> Option<(Seq<char>, Seq<char>)> {
    if is_json(body) {
        envelope(json_doc(body))
    } else {
        None
    }
}

/// `e` is the error for a non-success `status` with `body`, given the
/// structured envelope found in the body, if any.
pub open spec fn error_for(e: ApiError, status: u16, body: Seq<char>, env: Option<(Seq<char>, Seq<char>)>) -> bool {
    match env {
        Some((c, m)) => e matches ApiError::ODataError { status: s, code, message }
            && s == status && code@ == c && message@ == m,
        None => e matches ApiError::HttpError { status: s, body: b } && s == status && b@ == body,
    }
}

/// A success status: 200 to 299.
pub open spec fn success(status: u16) -> bool {
    200 <= status && status <= 299
}

/// The most characters of a body that a parse error quotes.
pub const BODY_EXCERPT_CHARS: usize = 200;

/// The text of a response parse error.
pub open spec fn parse_failure_text(reason: Seq<char>, body: Seq<char>) -> Seq<char> {
    "Failed to parse response: "@ + reason + " - Body: "@ + prefix(body, BODY_EXCERPT_CHARS as nat)
}

/// The authentication header of a mode for a credential.
pub open spec fn auth_header_of(sandbox: bool, token: Seq<char>) -> (Seq<char>, Seq<char>) {
    if sandbox {
        ("APIKey"@, token)
    } else {
        ("Authorization"@, "Bearer "@ + token)
    }
}

/// The headers of a request: authentication, the content type when a body
/// is sent, then `Accept`.
pub open spec fn headers_of(sandbox: bool, token: Seq<char>, has_body: bool) -> Seq<(Seq<char>, Seq<char>)> {
    let auth = seq![auth_header_of(sandbox, token)];
    let typed = if has_body { auth.push(("Content-Type"@, "application/json"@)) } else { auth };
    typed.push(("Accept"@, "application/json"@))
}

/// The views of a header list.
pub open spec fn header_views(h: Seq<(String, String)>) -> Seq<(Seq<char>, Seq<char>)> {
    h.map_values(|p: (String, String)| (p.0@, p.1@))
}

/// The view of an optional string.
pub open spec fn body_view(o: Option<String>) -> Option<Seq<char>> {
    match o {
        Some(s) => Some(s@),
        None => None,
    }
}

fn optional_text_exec(fields: &Vec<(String, Json)>, key: &str) -> (r: bool)
    ensures
        r == optional_text(fields@, key@),
{
    match find_member(fields, key) {
        None => true,
        Some(Json::Null) => true,
        Some(Json::Text(_)) => true,
        _ => false,
    }
}

fn error_item(j: &Json) -> (r: bool)
    ensures
        r == is_error_item(*j),
{
    match j {
        Json::Object(m) => find_text(m, "message").is_some() && optional_text_exec(m, "code")
            && optional_text_exec(m, "target"),
        _ => false,
    }
}

fn details_valid(inner: &Vec<(String, Json)>) -> (r: bool)
    ensures
        r == valid_details(inner@),
{
    match find_member(inner, "details") {
        None => true,
        Some(Json::Array(items)) => {
            let mut i: usize = 0;
            while i < items.len()
                invariant
                    i <= items.len(),
                    lookup(inner@, "details"@) == Some(Json::Array(*items)),
                    forall|j: int| 0 <= j < i ==> is_error_item(#[trigger] items@[j]),
                decreases items.len() - i,
            {
                if !error_item(&items[i]) {
                    assert(!is_error_item(items@[i as int]));
                    assert(!all_error_items(items@));
                    return false;
                }
                i = i + 1;
            }
            true
        },
        _ => false,
    }
}

/// Reads the structured error envelope of a document.
pub fn error_envelope(doc: &Json) -> (r: Option<ODataErrorResponse>)
    ensures
        match r {
            Some(e) => envelope(*doc) == Some((e.error.code@, e.error.message@)),
            None => envelope(*doc) is None,
        },
{
    match doc {
        Json::Object(top) => match find_member(top, "error") {
            Some(Json::Object(inner)) => {
                let code = find_text(inner, "code");
                let message = find_text(inner, "message");
                match (code, message) {
                    (Some(c), Some(m)) => if details_valid(inner) {
                        Some(ODataErrorResponse { error: ODataErrorDetail { code: c, message: m } })
                    } else {
                        None
                    },
                    _ => None,
                }
            },
            _ => None,
        },
        _ => None,
    }
}

/// The error for a non-success response, given the body and the document
/// it parsed to: a structured error when the document is an error
/// envelope, else a plain HTTP error that keeps the body.
pub fn error_from_document(status: u16, body: &str, doc: Option<Json>) -> (r: ApiError)
    ensures
        error_for(
            r,
            status,
            body@,
            match doc {
                Some(d) => envelope(d),
                None => None,
            },
        ),
{
    let found = match &doc {
        Some(d) => error_envelope(d),
        None => None,
    };
    match found {
        Some(e) => ApiError::ODataError { status, code: e.error.code, message: e.error.message },
        None => ApiError::HttpError { status, body: body.to_owned() },
    }
}

/// The error for a non-success response. Never fails: a body that is not a
/// structured error envelope (or not JSON at all) gives a plain HTTP error
/// with the body kept as it is.
pub fn parse_error_response(status: u16, body: &str) -> (r: ApiError)
    ensures
        error_for(r, status, body@, body_envelope(body@)),
{
    let doc = parse_json(body);
    error_from_document(status, body, doc)
}

/// Whether a status is a success status.
pub fn is_success(status: u16) -> (r: bool)
    ensures
        r == success(status),
{
    200 <= status && status <= 299
}

/// The parse error for a success body that does not have the expected
/// shape: the reason and at most the first 200 characters of the body.
pub fn parse_failure(reason: &str, body: &str) -> (r: ApiError)
    ensures
        r matches ApiError::JsonParse(m) && m@ == parse_failure_text(reason@, body@),
{
    let excerpt = prefix_of(body, BODY_EXCERPT_CHARS);
    ApiError::JsonParse(
        "Failed to parse response: ".to_owned().concat(reason).concat(" - Body: ").concat(
            excerpt.as_str(),
        ),
    )
}

/// The outcome of a read, create or update: the body text to decode on a
/// success status, else the normalized error.
pub fn read_outcome(status: u16, body: String) -> (r: Result<String, ApiError>)
    ensures
        success(status) ==> r == Ok::<String, ApiError>(body),
        !success(status) ==> (r matches Err(e) && error_for(e, status, body@, body_envelope(body@))),
{
    if is_success(status) {
        Ok(body)
    } else {
        Err(parse_error_response(status, body.as_str()))
    }
}

/// The outcome of a delete: success on any success status, including
/// 204 No Content, with no body required; else the normalized error.
pub fn delete_outcome(status: u16, body: &str) -> (r: Result<(), ApiError>)
    ensures
        (success(status) || status == 204) <==> r is Ok,
        !(success(status) || status == 204) ==> (r matches Err(e) && error_for(
            e,
            status,
            body@,
            body_envelope(body@),
        )),
{
    if is_success(status) || status == 204 {
        Ok(())
    } else {
        Err(parse_error_response(status, body))
    }
}

/// The outcome of a REST (non-OData) read or write: the body to decode on
/// a success status, else a plain HTTP error with status and body.
pub fn rest_outcome(status: u16, body: String) -> (r: Result<String, ApiError>)
    ensures
        success(status) ==> r == Ok::<String, ApiError>(body),
        !success(status) ==> (r matches Err(ApiError::HttpError { status: s, body: b })
            && s == status && b@ == body@),
{
    if is_success(status) {
        Ok(body)
    } else {
        Err(ApiError::HttpError { status, body })
    }
}

/// The outcome of a REST (non-OData) delete: success on any success status,
/// including 204 No Content; else a plain HTTP error with status and body.
pub fn rest_delete_outcome(status: u16, body: String) -> (r: Result<(), ApiError>)
    ensures
        (success(status) || status == 204) <==> r is Ok,
        !(success(status) || status == 204) ==> (r matches Err(ApiError::HttpError {
            status: s,
            body: b,
        }) && s == status && b@ == body@),
{
    if is_success(status) || status == 204 {
        Ok(())
    } else {
        Err(ApiError::HttpError { status, body })
    }
}

impl ODataClient {
    /// The service base URL.
    pub closed spec fn base(&self) -> Seq<char> {
        self.base_url@
    }

    /// Whether the static-key header is used.
    pub closed spec fn sandbox(&self) -> bool {
        self.is_sandbox
    }

    /// Whether requests are traced.
    pub closed spec fn traced(&self) -> bool {
        self.debug
    }

    /// Create a client for a service base URL.
    pub fn new(base_url: String, is_sandbox: bool, debug: bool) -> (r: Self)
        ensures
            r.base() == base_url@,
            r.sandbox() == is_sandbox,
            r.traced() == debug,
    {
        ODataClient { base_url, is_sandbox, debug }
    }

    /// Whether requests are traced.
    pub fn debug(&self) -> (r: bool)
        ensures
            r == self.traced(),
    {
        self.debug
    }

    /// The authentication header name and value for a credential:
    /// `APIKey: <key>` in sandbox mode, `Authorization: Bearer <token>` otherwise.
    pub fn auth_header(&self, token: &str) -> (r: (String, String))
        ensures
            (r.0@, r.1@) == auth_header_of(self.sandbox(), token@),
    {
        if self.is_sandbox {
            ("APIKey".to_owned(), token.to_owned())
        } else {
            ("Authorization".to_owned(), "Bearer ".to_owned().concat(token))
        }
    }

    /// Frames a request with the authentication header, the JSON content
    /// type when there is a body, and `Accept: application/json`.
    pub fn request(&self, method: HttpMethod, url: String, token: &str, body: Option<String>) -> (r: HttpRequest)
        ensures
            r.method == method,
            r.url@ == url@,
            header_views(r.headers@) == headers_of(self.sandbox(), token@, body is Some),
            body_view(r.body) == body_view(body),
    {
        let mut headers: Vec<(String, String)> = Vec::new();
        headers.push(self.auth_header(token));
        if body.is_some() {
            headers.push(("Content-Type".to_owned(), "application/json".to_owned()));
        }
        headers.push(("Accept".to_owned(), "application/json".to_owned()));
        proof {
            assert(header_views(headers@) =~= headers_of(self.sandbox(), token@, body is Some));
        }
        HttpRequest { method, url, headers, body }
    }

    /// The URL of a collection: base, endpoint, then the rendered query.
    pub fn collection_url(&self, endpoint: &str, query: Option<ODataQuery>) -> (r: String)
        ensures
            r@ == self.base() + endpoint@ + match query {
                Some(q) => query_string(q@),
                None => Seq::empty(),
            },
    {
        let q = match query {
            Some(q) => q.to_query_string(),
            None => String::new(),
        };
        self.base_url.clone().concat(endpoint).concat(q.as_str())
    }

    /// The URL of one entity: base, endpoint, `/`, key.
    pub fn entity_url(&self, endpoint: &str, key: &str) -> (r: String)
        ensures
            r@ == self.base() + endpoint@ + "/"@ + key@,
    {
        self.base_url.clone().concat(endpoint).concat("/").concat(key)
    }

    /// The URL of one entity, its key written in the given style.
    pub fn keyed_url(&self, endpoint: &str, key: &str, style: KeyAddressing) -> (r: String)
        ensures
            r@ == self.base() + endpoint@ + key_suffix(key@, style),
    {
        match style {
            KeyAddressing::Segment => self.entity_url(endpoint, key),
            KeyAddressing::Quoted => self.base_url.clone().concat(endpoint).concat("('").concat(
                key,
            ).concat("')"),
        }
    }

    /// GET of one entity, its key written in the given style.
    pub fn get_keyed_entity_request(&self, endpoint: &str, key: &str, style: KeyAddressing, token: &str) -> (r: HttpRequest)
        ensures
            r.method == HttpMethod::Get,
            r.url@ == self.base() + endpoint@ + key_suffix(key@, style),
            header_views(r.headers@) == headers_of(self.sandbox(), token@, false),
            r.body is None,
    {
        let url = self.keyed_url(endpoint, key, style);
        self.request(HttpMethod::Get, url, token, None)
    }

    /// The URL of one entity with expanded relations; no query when the list is empty.
    pub fn expand_url(&self, endpoint: &str, key: &str, expand: &Vec<String>) -> (r: String)
        ensures
            r@ == self.base() + endpoint@ + "/"@ + key@ + if expand.len() == 0 {
                Seq::empty()
            } else {
                "?$expand="@ + join(views(expand@), ","@)
            },
    {
        let suffix = if expand.len() == 0 {
            String::new()
        } else {
            "?$expand=".to_owned().concat(join_strings(expand, ",").as_str())
        };
        self.entity_url(endpoint, key).concat(suffix.as_str())
    }

    /// GET of a collection, optionally shaped by a query.
    pub fn get_collection_request(&self, endpoint: &str, query: Option<ODataQuery>, token: &str) -> (r: HttpRequest)
        ensures
            r.method == HttpMethod::Get,
            r.url@ == self.base() + endpoint@ + match query {
                Some(q) => query_string(q@),
                None => Seq::empty(),
            },
            header_views(r.headers@) == headers_of(self.sandbox(), token@, false),
            r.body is None,
    {
        let url = self.collection_url(endpoint, query);
        self.request(HttpMethod::Get, url, token, None)
    }

    /// GET of one entity by key.
    pub fn get_entity_request(&self, endpoint: &str, key: &str, token: &str) -> (r: HttpRequest)
        ensures
            r.method == HttpMethod::Get,
            r.url@ == self.base() + endpoint@ + "/"@ + key@,
            header_views(r.headers@) == headers_of(self.sandbox(), token@, false),
            r.body is None,
    {
        let url = self.entity_url(endpoint, key);
        self.request(HttpMethod::Get, url, token, None)
    }

    /// GET of one entity by key with expanded relations.
    pub fn get_entity_with_expand_request(&self, endpoint: &str, key: &str, expand: &Vec<String>, token: &str) -> (r: HttpRequest)
        ensures
            r.method == HttpMethod::Get,
            r.url@ == self.base() + endpoint@ + "/"@ + key@ + if expand.len() == 0 {
                Seq::empty()
            } else {
                "?$expand="@ + join(views(expand@), ","@)
            },
            header_views(r.headers@) == headers_of(self.sandbox(), token@, false),
            r.body is None,
    {
        let url = self.expand_url(endpoint, key, expand);
        self.request(HttpMethod::Get, url, token, None)
    }

    /// POST creating an entity from a JSON body.
    pub fn create_entity_request(&self, endpoint: &str, body: String, token: &str) -> (r: HttpRequest)
        ensures
            r.method == HttpMethod::Post,
            r.url@ == self.base() + endpoint@,
            header_views(r.headers@) == headers_of(self.sandbox(), token@, true),
            body_view(r.body) == Some(body@),
    {
        let url = self.base_url.clone().concat(endpoint);
        self.request(HttpMethod::Post, url, token, Some(body))
    }

    /// PATCH of an entity by key with a JSON body holding only the fields to change.
    pub fn update_entity_request(&self, endpoint: &str, key: &str, body: String, token: &str) -> (r: HttpRequest)
        ensures
            r.method == HttpMethod::Patch,
            r.url@ == self.base() + endpoint@ + "/"@ + key@,
            header_views(r.headers@) == headers_of(self.sandbox(), token@, true),
            body_view(r.body) == Some(body@),
    {
        let url = self.entity_url(endpoint, key);
        self.request(HttpMethod::Patch, url, token, Some(body))
    }

    /// DELETE of an entity by key.
    pub fn delete_entity_request(&self, endpoint: &str, key: &str, token: &str) -> (r: HttpRequest)
        ensures
            r.method == HttpMethod::Delete,
            r.url@ == self.base() + endpoint@ + "/"@ + key@,
            header_views(r.headers@) == headers_of(self.sandbox(), token@, false),
            r.body is None,
    {
        let url = self.entity_url(endpoint, key);
        self.request(HttpMethod::Delete, url, token, None)
    }
}

/// A non-success body that is a JSON document but not an error envelope
/// yields a plain HTTP error that keeps the raw body.
pub proof fn lemma_unstructured_body_kept(e: ApiError, status: u16, body: Seq<char>, doc: Json)
    requires
        envelope(doc) is None,
        error_for(e, status, body, envelope(doc)),
    ensures
        e matches ApiError::HttpError { status: s, body: b } && s == status && b@ == body,
{
}

} // verus!
