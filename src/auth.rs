//! The credential manager: decides when a cached bearer token can be used,
//! frames the token-exchange request, and caches the token it yields. In
//! static-key mode the configured key is used as it is.
//!
//! The manager holds no lock and sends nothing; whoever shares it guards it
//! and performs the exchange it asks for.

use vstd::prelude::*;
use vstd::utf8::encode_utf8;
use crate::config::Config;
use crate::encoding::{base64_encode, base64_of, unix_now};
use crate::error::AuthError;
use crate::json::{
    find_member, find_text, i64_value, is_json, json_doc, lookup, members, parse_i64, text_member,
    Json,
};
use crate::odata::{body_view, header_views, is_success, success, HttpMethod, HttpRequest};

verus! {

/// A bearer token and the instant, in seconds since the epoch, at which it expires.
#[derive(Debug, Clone)]
pub struct CachedToken {
    pub access_token: String,
    pub expires_at: i128,
}

/// The fields of a token response that the manager uses.
#[derive(Debug)]
pub struct TokenResponse {
    pub access_token: String,
    pub token_type: String,
    pub expires_in: i64,
    pub scope: String,
}

/// What a caller must do to obtain a credential.
#[derive(Debug)]
pub enum TokenStep {
    /// Use this credential.
    Ready(String),
    /// Send this token-exchange request and hand its answer to `complete_fetch`.
    Fetch(HttpRequest),
}

/// OAuth2 client-credentials manager; also serves the static key of sandbox
/// mode. It has no `Debug` form, so that its secrets are not printed.
#[derive(Clone)]
pub struct OAuth2Client {
    config: Config,
    cache: Option<CachedToken>,
}

/// The token is still usable at `now`: `now + buffer` lies before its expiry.
pub open spec fn is_fresh(expires_at: int, now: int, buffer: nat) -> bool {
    now + buffer < expires_at
}

/// The settings a token exchange needs are present.
pub open spec fn can_request(c: Config) -> bool {
    request_refusal(c) is None
}

/// Why no token exchange can be framed for `c`, checked in this order:
/// sandbox mode, no tenant or region, no client ID, no client secret.
pub open spec fn request_refusal(c: Config) -> Option<Seq<char>> {
    if c.sandbox {
        Some("No token URL in sandbox mode"@)
    } else if c.tenant is None || c.region is None {
        Some("No token URL without tenant and region"@)
    } else if c.client_id is None {
        Some("Missing client_id"@)
    } else if c.client_secret is None {
        Some("Missing client_secret"@)
    } else {
        None
    }
}

/// The `Authorization` value of the token exchange for a Base64 text.
pub open spec fn basic_value(encoded: Seq<char>) -> Seq<char> {
    "Basic "@ + encoded
}

/// `req` is the token exchange for configuration `c`: a form POST of
/// `grant_type=client_credentials` to the token URL, authenticated with
/// Base64 of `client_id:client_secret`.
pub open spec fn is_token_request(req: HttpRequest, c: Config) -> bool {
    &&& req.method == HttpMethod::Post
    &&& req.url@ == c.token_url_of()
    &&& header_views(req.headers@) == seq![
        ("Authorization"@, basic_value(base64_of(encode_utf8(c.client_id->Some_0@ + ":"@ + c.client_secret->Some_0@)))),
        ("Content-Type"@, "application/x-www-form-urlencoded"@),
    ]
    &&& body_view(req.body) == Some("grant_type=client_credentials"@)
}

/// The access token and lifetime of a token response document: an object
/// with string `access_token` and `token_type`, integer `expires_in`, and
/// `scope` absent or a string.
pub open spec fn token_of(doc: Json) -> Option<(Seq<char>, i64)> {
    match members(doc) {
        Some(m) => match (text_member(m, "access_token"@), text_member(m, "token_type"@), lookup(m, "expires_in"@)) {
            (Some(t), Some(_), Some(Json::Number(n))) => match i64_value(n@) {
                Some(e) => if lookup(m, "scope"@) is None || text_member(m, "scope"@) is Some {
                    Some((t, e))
                } else {
                    None
                },
                None => None,
            },
            _ => None,
        },
        None => None,
    }
}

impl CachedToken {
    /// Check if the token is expired, given the refresh margin.
    pub fn is_expired(&self, now: i64, buffer_seconds: u64) -> (r: bool)
        ensures
            r == !is_fresh(self.expires_at as int, now as int, buffer_seconds as nat),
    {
        (now as i128) + (buffer_seconds as i128) >= self.expires_at
    }
}

/// The `Authorization` value of the token exchange for a Base64 text.
pub fn basic_authorization(encoded: &str) -> (r: String)
    ensures
        r@ == basic_value(encoded@),
{
    "Basic ".to_owned().concat(encoded)
}

/// Reads a token response document.
pub fn token_response_of(doc: &Json) -> (r: Option<TokenResponse>)
    ensures
        match r {
            Some(t) => token_of(*doc) == Some((t.access_token@, t.expires_in)),
            None => token_of(*doc) is None,
        },
{
    let m = match doc {
        Json::Object(m) => m,
        _ => { return None; },
    };
    let access_token = match find_text(m, "access_token") {
        Some(t) => t,
        None => { return None; },
    };
    let token_type = match find_text(m, "token_type") {
        Some(t) => t,
        None => { return None; },
    };
    let expires_in = match find_member(m, "expires_in") {
        Some(Json::Number(n)) => match parse_i64(n.as_str()) {
            Some(e) => e,
            None => { return None; },
        },
        _ => { return None; },
    };
    let scope = match find_member(m, "scope") {
        None => String::new(),
        Some(Json::Text(s)) => s.clone(),
        Some(_) => { return None; },
    };
    Some(TokenResponse { access_token, token_type, expires_in, scope })
}

impl OAuth2Client {
    /// The configuration.
    pub closed spec fn settings(&self) -> Config {
        self.config
    }

    /// The cached token and its expiry, if any.
    pub closed spec fn cached(&self) -> Option<(Seq<char>, int)> {
        match self.cache {
            Some(c) => Some((c.access_token@, c.expires_at as int)),
            None => None,
        }
    }

    /// The cached token is usable at `now`.
    pub open spec fn serves_cached(&self, now: int) -> bool {
        &&& self.cached() is Some
        &&& is_fresh(self.cached()->Some_0.1, now, self.settings().token_refresh_buffer_seconds as nat)
    }

    /// `r` is the step the manager takes at `now`.
    pub open spec fn step_at(&self, now: int, r: Result<TokenStep, AuthError>) -> bool {
        if self.settings().sandbox {
            match self.settings().api_key {
                Some(k) => r matches Ok(TokenStep::Ready(t)) && t@ == k@,
                None => r matches Err(AuthError::NoToken),
            }
        } else if self.serves_cached(now) {
            r matches Ok(TokenStep::Ready(t)) && t@ == self.cached()->Some_0.0
        } else if can_request(self.settings()) {
            r matches Ok(TokenStep::Fetch(req)) && is_token_request(req, self.settings())
        } else {
            r matches Err(AuthError::TokenParse(m)) && m@ == request_refusal(self.settings())->Some_0
        }
    }

    /// Create a manager with an empty cache.
    pub fn new(config: Config) -> (r: Self)
        ensures
            r.settings() == config,
            r.cached() is None,
    {
        OAuth2Client { config, cache: None }
    }

    /// Check if running in sandbox mode.
    pub fn is_sandbox(&self) -> (r: bool)
        ensures
            r == self.settings().sandbox,
    {
        self.config.sandbox
    }

    /// The token-exchange request of the configuration.
    pub fn token_request(&self) -> (r: Result<HttpRequest, AuthError>)
        ensures
            can_request(self.settings()) ==> (r matches Ok(req) && is_token_request(req, self.settings())),
            !can_request(self.settings()) ==> (r matches Err(AuthError::TokenParse(m)) && m@
                == request_refusal(self.settings())->Some_0),
    {
        if self.config.sandbox {
            return Err(AuthError::TokenParse("No token URL in sandbox mode".to_owned()));
        }
        let (tenant, region) = match (&self.config.tenant, &self.config.region) {
            (Some(t), Some(r)) => (t, r),
            _ => { return Err(AuthError::TokenParse("No token URL without tenant and region".to_owned())); },
        };
        let client_id = match &self.config.client_id {
            Some(c) => c,
            None => { return Err(AuthError::TokenParse("Missing client_id".to_owned())); },
        };
        let client_secret = match &self.config.client_secret {
            Some(c) => c,
            None => { return Err(AuthError::TokenParse("Missing client_secret".to_owned())); },
        };
        let url = "https://".to_owned().concat(tenant.as_str()).concat(".authentication.").concat(
            region.as_str(),
        ).concat(".hana.ondemand.com/oauth/token");
        let credentials = client_id.clone().concat(":").concat(client_secret.as_str());
        let encoded = base64_encode(credentials.as_str());
        let mut headers: Vec<(String, String)> = Vec::new();
        headers.push(("Authorization".to_owned(), basic_authorization(encoded.as_str())));
        headers.push(("Content-Type".to_owned(), "application/x-www-form-urlencoded".to_owned()));
        let req = HttpRequest {
            method: HttpMethod::Post,
            url,
            headers,
            body: Some("grant_type=client_credentials".to_owned()),
        };
        proof {
            assert(header_views(req.headers@) =~= seq![
                ("Authorization"@, basic_value(base64_of(encode_utf8(credentials@)))),
                ("Content-Type"@, "application/x-www-form-urlencoded"@),
            ]);
        }
        Ok(req)
    }

    /// Decides at `now` how a credential is obtained: the static key in
    /// sandbox mode, the cached token while it is fresh, else a token exchange.
    pub fn next_step(&self, now: i64) -> (r: Result<TokenStep, AuthError>)
        ensures
            self.step_at(now as int, r),
    {
        if self.config.sandbox {
            return match &self.config.api_key {
                Some(k) => Ok(TokenStep::Ready(k.clone())),
                None => Err(AuthError::NoToken),
            };
        }
        if let Some(cached) = &self.cache {
            if !cached.is_expired(now, self.config.token_refresh_buffer_seconds) {
                return Ok(TokenStep::Ready(cached.access_token.clone()));
            }
        }
        match self.token_request() {
            Ok(req) => Ok(TokenStep::Fetch(req)),
            Err(e) => Err(e),
        }
    }

    /// Decides as `next_step` does, at the current time.
    pub fn next_step_now(&self) -> (r: Result<TokenStep, AuthError>)
        ensures
            exists|now: i64| self.step_at(now as int, r),
    {
        let now = unix_now();
        self.next_step(now)
    }

    /// Takes a token response document received at `now`: caches its token,
    /// expiring `expires_in` seconds after `now`, and returns it. A document
    /// of another shape leaves the cache as it was.
    pub fn accept_token_document(&mut self, now: i64, doc: &Json) -> (r: Result<String, AuthError>)
        ensures
            final(self).settings() == old(self).settings(),
            match token_of(*doc) {
                Some((t, e)) => r matches Ok(tok) && tok@ == t && final(self).cached() == Some(
                    (t, now + e),
                ),
                None => r matches Err(AuthError::TokenParse(_)) && final(self).cached() == old(
                    self,
                ).cached(),
            },
    {
        match token_response_of(doc) {
            Some(t) => {
                let expires_at = (now as i128) + (t.expires_in as i128);
                self.cache = Some(CachedToken { access_token: t.access_token.clone(), expires_at });
                Ok(t.access_token)
            },
            None => Err(
                AuthError::TokenParse("Failed to parse token response: unexpected shape".to_owned()),
            ),
        }
    }

    /// Takes the answer to a token exchange received at `now`. A non-success
    /// status fails with that status and body; otherwise the body is read as
    /// a token response. Only a token that is returned is cached.
    pub fn complete_fetch(&mut self, now: i64, status: u16, body: &str) -> (r: Result<String, AuthError>)
        ensures
            final(self).settings() == old(self).settings(),
            !success(status) ==> (r matches Err(AuthError::TokenRequestFailed { status: s, body: b })
                && s == status && b@ == body@),
            success(status) && !is_json(body@) ==> r matches Err(AuthError::TokenParse(_)),
            success(status) && is_json(body@) ==> match token_of(json_doc(body@)) {
                Some((t, e)) => (r matches Ok(k) && k@ == t && final(self).cached() == Some(
                    (t, now + e),
                )),
                None => (r matches Err(AuthError::TokenParse(_)) && final(self).cached() == old(
                    self,
                ).cached()),
            },
            r is Err ==> final(self).cached() == old(self).cached(),
            r matches Ok(t) ==> (final(self).cached() matches Some(c) && c.0 == t@),
    {
        if !is_success(status) {
            return Err(AuthError::TokenRequestFailed { status, body: body.to_owned() });
        }
        match crate::json::parse_json(body) {
            Some(doc) => self.accept_token_document(now, &doc),
            None => Err(
                AuthError::TokenParse("Failed to parse token response: not JSON".to_owned()),
            ),
        }
    }

    /// Takes the answer to a token exchange as `complete_fetch` does, at the current time.
    pub fn complete_fetch_now(&mut self, status: u16, body: &str) -> (r: Result<String, AuthError>)
        ensures
            final(self).settings() == old(self).settings(),
            !success(status) ==> (r matches Err(AuthError::TokenRequestFailed { status: s, body: b })
                && s == status && b@ == body@),
            success(status) && !is_json(body@) ==> r matches Err(AuthError::TokenParse(_)),
            success(status) && is_json(body@) ==> match token_of(json_doc(body@)) {
                Some((t, e)) => (r matches Ok(k) && k@ == t && (final(self).cached() matches Some(c)
                    && c.0 == t && i64::MIN <= c.1 - e <= i64::MAX)),
                None => (r matches Err(AuthError::TokenParse(_)) && final(self).cached() == old(
                    self,
                ).cached()),
            },
            r is Err ==> final(self).cached() == old(self).cached(),
            r matches Ok(t) ==> (final(self).cached() matches Some(c) && c.0 == t@),
    {
        let now = unix_now();
        self.complete_fetch(now, status, body)
    }
}

/// Cache hit: from an empty cache, the first decision at `t0` is a token
/// exchange; once its token, with lifetime `e`, has been taken at `t0`, a
/// second decision at any `t1` with `t1 + buffer < t0 + e` serves that token.
/// Two calls within the window thus make exactly one exchange.
pub proof fn lemma_fresh_token_is_served(
    before: OAuth2Client,
    after: OAuth2Client,
    t0: i64,
    t1: i64,
    token: Seq<char>,
    e: i64,
    first: Result<TokenStep, AuthError>,
    second: Result<TokenStep, AuthError>,
)
    requires
        !before.settings().sandbox,
        can_request(before.settings()),
        before.cached() is None,
        before.step_at(t0 as int, first),
        after.settings() == before.settings(),
        after.cached() == Some((token, t0 + e)),
        t1 + before.settings().token_refresh_buffer_seconds < t0 + e,
        after.step_at(t1 as int, second),
    ensures
        first matches Ok(TokenStep::Fetch(req)) && is_token_request(req, before.settings()),
        second matches Ok(TokenStep::Ready(t)) && t@ == token,
{
}

/// Staleness: when the cached token expires within the refresh margin of
/// `now`, the decision is a token exchange (or a configuration error), never
/// the stale token.
pub proof fn lemma_stale_token_is_refetched(c: OAuth2Client, now: i64, r: Result<TokenStep, AuthError>)
    requires
        !c.settings().sandbox,
        c.cached() is Some,
        now + c.settings().token_refresh_buffer_seconds >= c.cached()->Some_0.1,
        can_request(c.settings()),
        c.step_at(now as int, r),
    ensures
        r matches Ok(TokenStep::Fetch(req)) && is_token_request(req, c.settings()),
{
}

/// Static-key bypass: in sandbox mode the decision never asks for an
/// exchange; it is the configured key exactly, or `NoToken` without one.
pub proof fn lemma_static_key_bypass(c: OAuth2Client, now: i64, r: Result<TokenStep, AuthError>)
    requires
        c.settings().sandbox,
        c.step_at(now as int, r),
    ensures
        !(r matches Ok(TokenStep::Fetch(_))),
        c.settings().api_key matches Some(k) ==> (r matches Ok(TokenStep::Ready(t)) && t@ == k@),
{
}

} // verus!
