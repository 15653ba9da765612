//! OAuth 2.0 client support: configuration and tokens, CSRF state checks and
//! the request handling of the loopback redirect callback.

use std::time::{Duration, Instant};

use subtle::ConstantTimeEq;

use vstd::prelude::*;
use vstd::string::StringSliceAdditionalSpecFns;
use vstd::utf8::encode_utf8;

use crate::error::Error;
use crate::streamable_http::validation::{parse_url_parts, parsed_url, url_origin, url_origin_text};
use crate::text::{
    has_prefix,
    chars_of, concat2, decimal, first_index, format_u64, owned, push_all, split_once,
    split_once_chars, split_words, str_eq, string_of, trim_end_char, views, words,
};

verus! {

/// A point in monotonic time (`std::time::Instant`).
#[verifier::external_type_specification]
#[verifier::external_body]
pub struct ExInstant(Instant);

/// OAuth2 client configuration values.
#[derive(Debug, Clone)]
pub struct OAuth2Config {
    /// OAuth client identifier.
    pub client_id: String,
    /// OAuth client secret, if applicable.
    pub client_secret: Option<String>,
    /// Authorization endpoint URL.
    pub auth_url: String,
    /// Token endpoint URL.
    pub token_url: String,
    /// Redirect/callback URL.
    pub redirect_url: String,
    /// Resource audience for MCP.
    pub resource: String,
    /// Requested OAuth scopes.
    pub scopes: Vec<String>,
}

/// OAuth2 token information.
#[derive(Clone)]
pub struct OAuth2Token {
    /// Access token value.
    pub access_token: String,
    /// Optional refresh token value.
    pub refresh_token: Option<String>,
    /// Optional token lifetime.
    pub expires_in: Option<Duration>,
    /// Optional expiration instant.
    pub expires_at: Option<Instant>,
}

/// The debug text of a token, given the debug text of its two time fields:
/// both secrets appear only as `[REDACTED]`.
pub open spec fn redacted_token_text(has_refresh: bool, expires_in: Seq<char>, expires_at: Seq<
    char,
>) -> Seq<char> {
    "OAuth2Token { access_token: \"[REDACTED]\", refresh_token: "@ + (if has_refresh {
        "Some(\"[REDACTED]\")"@
    } else {
        "None"@
    }) + ", expires_in: "@ + expires_in + ", expires_at: "@ + expires_at + " }"@
}

/// The debug text of an optional duration: a function of the duration
/// alone.
pub uninterp spec fn duration_debug_text(d: Option<Duration>) -> Seq<char>;

/// The debug text of an optional instant: a function of the instant alone.
pub uninterp spec fn instant_debug_text(i: Option<Instant>) -> Seq<char>;

/// The debug rendering of an optional duration (`format!("{:?}")`): the named
/// text of this duration.
#[verifier::external_body]
fn debug_duration(d: &Option<Duration>) -> (r: String)
    ensures
        r@ == duration_debug_text(*d),
{
    format!("{:?}", d)
}

/// The debug rendering of an optional instant (`format!("{:?}")`): the named
/// text of this instant.
#[verifier::external_body]
fn debug_instant(i: &Option<Instant>) -> (r: String)
    ensures
        r@ == instant_debug_text(*i),
{
    format!("{:?}", i)
}

/// Assemble the debug text of a token from its parts.
pub fn redacted_debug_text(has_refresh: bool, expires_in: &str, expires_at: &str) -> (s: String)
    ensures
        s@ == redacted_token_text(has_refresh, expires_in@, expires_at@),
{
    let mut s = owned("OAuth2Token { access_token: \"[REDACTED]\", refresh_token: ");
    if has_refresh {
        push_all(&mut s, "Some(\"[REDACTED]\")");
    } else {
        push_all(&mut s, "None");
    }
    push_all(&mut s, ", expires_in: ");
    push_all(&mut s, expires_in);
    push_all(&mut s, ", expires_at: ");
    push_all(&mut s, expires_at);
    push_all(&mut s, " }");
    s
}

/// The debug text of a token: its secrets redacted, its time fields as
/// their debug texts.
pub open spec fn token_debug_text(t: OAuth2Token) -> Seq<char> {
    redacted_token_text(
        t.refresh_token is Some,
        duration_debug_text(t.expires_in),
        instant_debug_text(t.expires_at),
    )
}

/// The debug text of a token does not depend on its secrets: two tokens that
/// differ only in their access and refresh token values, and agree on whether
/// a refresh token is present, have the same debug text.
pub proof fn lemma_debug_text_hides_secrets(t1: OAuth2Token, t2: OAuth2Token)
    requires
        t1.refresh_token is Some == t2.refresh_token is Some,
        t1.expires_in == t2.expires_in,
        t1.expires_at == t2.expires_at,
    ensures
        token_debug_text(t1) == token_debug_text(t2),
{
}

impl OAuth2Token {
    /// The debug text of the token, with the access and refresh tokens
    /// redacted.
    pub fn debug_string(&self) -> (s: String)
        ensures
            s@ == token_debug_text(*self),
    {
        let a = debug_duration(&self.expires_in);
        let b = debug_instant(&self.expires_at);
        redacted_debug_text(self.refresh_token.is_some(), a.as_str(), b.as_str())
    }
}

/// The time from `now` until `later`, or `None` when `later` is before
/// `now`: a function of the two instants alone, which Verus sees only as
/// opaque values.
pub uninterp spec fn duration_between(later: Instant, now: Instant) -> Option<Duration>;

/// The whole nanoseconds of a duration.
pub uninterp spec fn duration_nanos(d: Duration) -> u128;

/// The time from `now` until `later` (`Instant::checked_duration_since`):
/// the named result for these two instants.
#[verifier::external_body]
fn checked_duration_since(later: &Instant, now: &Instant) -> (r: Option<Duration>)
    ensures
        r == duration_between(*later, *now),
{
    later.checked_duration_since(*now)
}

/// The whole nanoseconds of a duration (`Duration::as_nanos`).
#[verifier::external_body]
fn duration_as_nanos(d: &Duration) -> (r: u128)
    ensures
        r == duration_nanos(*d),
{
    d.as_nanos()
}

/// The nanoseconds from `now` until `later`, or `None` when `later` is
/// before `now`.
pub open spec fn nanos_between(later: Instant, now: Instant) -> Option<u128> {
    match duration_between(later, now) {
        Some(d) => Some(duration_nanos(d)),
        None => None,
    }
}

/// The nanoseconds from `now` until `later`, or `None` when `later` is
/// before `now`.
fn nanos_until(later: &Instant, now: &Instant) -> (r: Option<u128>)
    ensures
        r == nanos_between(*later, *now),
{
    match checked_duration_since(later, now) {
        Some(d) => Some(duration_as_nanos(&d)),
        None => None,
    }
}

/// How long before its expiry a token is already treated as expired, in
/// nanoseconds (30 seconds).
pub const REFRESH_LEEWAY_NANOS: u128 = 30_000_000_000;

/// Whether a token with `remaining` nanoseconds left before its expiry
/// (`None` once it has expired) is still fresh: more than the refresh leeway
/// is left.
pub open spec fn fresh_after_spec(remaining: Option<u128>) -> bool {
    remaining matches Some(n) && n > REFRESH_LEEWAY_NANOS
}

/// A token fresh with some time left is fresh with more time left: what is
/// fresh at a later moment was fresh at every earlier one.
pub proof fn lemma_fresh_with_more_time_left(n: u128, m: u128)
    requires
        n <= m,
    ensures
        fresh_after_spec(Some(n)) ==> fresh_after_spec(Some(m)),
{
}

/// Decide freshness from the time left before a token's expiry.
pub fn fresh_after(remaining: Option<u128>) -> (r: bool)
    ensures
        r == fresh_after_spec(remaining),
{
    match remaining {
        Some(n) => n > REFRESH_LEEWAY_NANOS,
        None => false,
    }
}

/// Whether a token is fresh at `now`: it has no expiry, or more than the
/// refresh leeway is left between `now` and its expiry.
pub open spec fn fresh_at(token: OAuth2Token, now: Instant) -> bool {
    match token.expires_at {
        Some(e) => fresh_after_spec(nanos_between(e, now)),
        None => true,
    }
}

/// Returns whether a token is usable without refreshing: it has no expiry,
/// or it expires more than the refresh leeway after `now`.
pub fn token_is_fresh(token: &OAuth2Token, now: Instant) -> (r: bool)
    ensures
        r == fresh_at(*token, now),
{
    match &token.expires_at {
        Some(expires_at) => fresh_after(nanos_until(expires_at, &now)),
        None => true,
    }
}

/// What a request for a usable access token leads to.
#[derive(Debug, Clone)]
pub enum TokenAction {
    /// Use this access token.
    Use(String),
    /// Obtain a new access token with this refresh token.
    Refresh(String),
    /// Fail with this error.
    Fail(Error),
}

/// Whether an error is an authorization failure with the given message.
pub open spec fn is_authorization_failure(e: Error, message: Seq<char>) -> bool {
    e matches Error::AuthorizationFailed(m) && m@ == message
}

/// Whether `r` is how a usable access token is obtained from the cached
/// token, given whether that token is fresh: a fresh token is used as it is,
/// a stale one is refreshed with its refresh token, and without a token or
/// a refresh token the request fails.
pub open spec fn token_action_is(r: TokenAction, token: Option<OAuth2Token>, fresh: bool) -> bool {
    match token {
        None => r matches TokenAction::Fail(e) && is_authorization_failure(e, "No valid token available"@),
        Some(t) => if fresh {
            r == TokenAction::Use(t.access_token)
        } else {
            match t.refresh_token {
                Some(rt) => r == TokenAction::Refresh(rt),
                None => r matches TokenAction::Fail(e) && is_authorization_failure(
                    e,
                    "No valid token available"@,
                ),
            }
        },
    }
}

/// Decide how to obtain a usable access token from the cached token and
/// whether it is fresh.
pub fn token_action_for(token: &Option<OAuth2Token>, fresh: bool) -> (r: TokenAction)
    ensures
        token_action_is(r, *token, fresh),
{
    match token {
        Some(t) => {
            if fresh {
                TokenAction::Use(t.access_token.clone())
            } else {
                match &t.refresh_token {
                    Some(rt) => TokenAction::Refresh(rt.clone()),
                    None => TokenAction::Fail(
                        Error::AuthorizationFailed(owned("No valid token available")),
                    ),
                }
            }
        },
        None => TokenAction::Fail(Error::AuthorizationFailed(owned("No valid token available"))),
    }
}

/// Decide how to obtain a usable access token from the cached token at
/// `now`: the decision of `token_action_for` on the token's freshness
/// (`token_is_fresh`) at `now`.
pub fn valid_token_action(token: &Option<OAuth2Token>, now: Instant) -> (r: TokenAction)
    ensures
        token_action_is(r, *token, *token matches Some(t) && fresh_at(t, now)),
{
    let fresh = match token {
        Some(t) => token_is_fresh(t, now),
        None => false,
    };
    token_action_for(token, fresh)
}

/// Decide how to answer a request to refresh the access token a caller was
/// refused with: when the cached token has already changed it is used; when
/// it is still the caller's, it is refreshed with its refresh token.
pub fn refresh_if_current_action(token: &Option<OAuth2Token>, current_access_token: &str) -> (r:
    TokenAction)
    ensures
        match token {
            None => r matches TokenAction::Fail(e) && is_authorization_failure(
                e,
                "No token available for refresh"@,
            ),
            Some(t) => if t.access_token@ != current_access_token@ {
                r == TokenAction::Use(t.access_token)
            } else {
                match t.refresh_token {
                    Some(rt) => r == TokenAction::Refresh(rt),
                    None => r matches TokenAction::Fail(e) && is_authorization_failure(
                        e,
                        "No refresh token available"@,
                    ),
                }
            },
        },
{
    match token {
        None => TokenAction::Fail(Error::AuthorizationFailed(owned("No token available for refresh"))),
        Some(t) => {
            if !str_eq(t.access_token.as_str(), current_access_token) {
                TokenAction::Use(t.access_token.clone())
            } else {
                match &t.refresh_token {
                    Some(rt) => TokenAction::Refresh(rt.clone()),
                    None => TokenAction::Fail(Error::AuthorizationFailed(owned("No refresh token available"))),
                }
            }
        },
    }
}

/// The `resource` parameter sent with a token refresh: the configured
/// resource, unless it is empty (some providers do not support it).
pub fn refresh_resource_param(config: &OAuth2Config) -> (r: Option<String>)
    ensures
        config.resource@.len() == 0 ==> r is None,
        config.resource@.len() > 0 ==> r == Some(config.resource),
{
    let v = chars_of(config.resource.as_str());
    if v.len() == 0 {
        None
    } else {
        Some(config.resource.clone())
    }
}

/// Client metadata submitted for dynamic client registration (RFC 7591).
#[derive(Debug, Clone)]
pub struct ClientMetadata {
    /// Human-readable client name.
    pub client_name: Option<String>,
    /// Redirect URIs of the client.
    pub redirect_uris: Vec<String>,
    /// Space-separated scopes the client asks for.
    pub scope: Option<String>,
    /// Resource audience the client requests tokens for.
    pub resource: Option<String>,
}

/// Configuration for OAuth 2.0 dynamic client registration (RFC 7591).
#[derive(Debug, Clone)]
pub struct DynamicRegistrationConfig {
    /// Authorization endpoint URL of the identity provider.
    pub auth_url: String,
    /// Token endpoint URL of the identity provider.
    pub token_url: String,
    /// Resource audience the registered client requests tokens for.
    pub resource: String,
    /// Explicit registration endpoint; discovered from the auth URL origin
    /// when `None`.
    pub registration_endpoint: Option<String>,
    /// Client metadata submitted to the registration endpoint.
    pub metadata: ClientMetadata,
}

/// The metadata submitted for registration: the configured metadata, with
/// the configured resource when it names none.
pub fn registration_metadata(config: DynamicRegistrationConfig) -> (m: ClientMetadata)
    ensures
        m.client_name == config.metadata.client_name,
        m.redirect_uris == config.metadata.redirect_uris,
        m.scope == config.metadata.scope,
        m.resource == match config.metadata.resource {
            Some(r) => Some(r),
            None => Some(config.resource),
        },
{
    let DynamicRegistrationConfig { resource, metadata, .. } = config;
    let mut m = metadata;
    if m.resource.is_none() {
        m.resource = Some(resource);
    }
    m
}

/// Where the registration endpoint comes from.
#[derive(Debug, Clone)]
pub enum EndpointSource {
    /// The configured endpoint, used as it is.
    Given(String),
    /// Discovered from the metadata of this issuer.
    Discover(String),
}

/// The error of a dynamic registration configuration with the given text.
pub open spec fn is_configuration_error(e: Error, message: Seq<char>) -> bool {
    e matches Error::InvalidConfiguration(m) && m@ == message
}

/// Where the registration endpoint comes from: the configured one, or the
/// metadata of the auth URL's origin, which must be an http(s) URL.
pub fn registration_endpoint_source(explicit: Option<String>, auth_url: &str) -> (r: core::result::Result<
    EndpointSource,
    Error,
>)
    ensures
        match explicit {
            Some(e) => r matches Ok(EndpointSource::Given(g)) && g == e,
            None => match parsed_url(auth_url@) {
                None => r matches Err(Error::InvalidConfiguration(m)) && has_prefix(
                    m@,
                    "Invalid auth URL: "@,
                ),
                Some((scheme, _, _, _)) => if scheme == "http"@ || scheme == "https"@ {
                    r matches Ok(EndpointSource::Discover(o)) && o@ == url_origin(auth_url@)
                } else {
                    r matches Err(e) && is_configuration_error(e, "Auth URL must use http or https"@)
                },
            },
        },
{
    if let Some(e) = explicit {
        return Ok(EndpointSource::Given(e));
    }
    match parse_url_parts(auth_url) {
        Err(message) => {
            let mut m = owned("Invalid auth URL: ");
            push_all(&mut m, message.as_str());
            proof {
                assert(m@.take(18) =~= "Invalid auth URL: "@) by {
                    reveal_strlit("Invalid auth URL: ");
                }
                reveal_strlit("Invalid auth URL: ");
            }
            Err(Error::InvalidConfiguration(m))
        },
        Ok((scheme, _, _, _)) => {
            if str_eq(scheme.as_str(), "http") || str_eq(scheme.as_str(), "https") {
                Ok(EndpointSource::Discover(url_origin_text(auth_url)))
            } else {
                Err(Error::InvalidConfiguration(owned("Auth URL must use http or https")))
            }
        },
    }
}

/// The registration endpoint found by discovery, or the error when the
/// issuer's metadata names none.
pub fn discovered_endpoint(found: Option<String>) -> (r: core::result::Result<String, Error>)
    ensures
        match found {
            Some(e) => r == Ok::<String, Error>(e),
            None => r matches Err(e) && is_configuration_error(
                e,
                "No registration endpoint found in OAuth metadata"@,
            ),
        },
{
    match found {
        Some(e) => Ok(e),
        None => Err(Error::InvalidConfiguration(owned("No registration endpoint found in OAuth metadata"))),
    }
}

// ---------------------------------------------------------------------------
// CSRF state
// ---------------------------------------------------------------------------

/// Compares two byte strings in time independent of their contents
/// (`<[u8] as subtle::ConstantTimeEq>::ct_eq`): true exactly when they are
/// equal.
#[verifier::external_body]
fn constant_time_eq(a: &[u8], b: &[u8]) -> (r: bool)
    ensures
        r == (a@ == b@),
{
    a.ct_eq(b).into()
}

/// Check the `state` returned to the redirect callback against the CSRF
/// token issued for the flow, in constant time.
pub fn check_csrf_state(state: &str, expected: &str) -> (r: core::result::Result<(), Error>)
    ensures
        r is Ok <==> state.spec_bytes() == expected.spec_bytes(),
        r matches Err(e) ==> e matches Error::AuthorizationFailed(m) && m@
            == "CSRF token mismatch"@,
{
    if constant_time_eq(state.as_bytes(), expected.as_bytes()) {
        Ok(())
    } else {
        Err(Error::AuthorizationFailed(owned("CSRF token mismatch")))
    }
}

// ---------------------------------------------------------------------------
// The redirect callback
// ---------------------------------------------------------------------------

/// Maximum length in bytes of the callback query string.
pub const MAX_CALLBACK_QUERY_LEN: usize = 2048;

/// The name/value pairs of an `application/x-www-form-urlencoded` text, as
/// decoded by `form_urlencoded::parse`.
pub uninterp spec fn urlencoded_pairs(input: Seq<u8>) -> Seq<(Seq<char>, Seq<char>)>;

/// Decode the pairs of a form-urlencoded query (`form_urlencoded::parse`).
#[verifier::external_body]
fn decode_query_pairs(input: &[u8]) -> (r: Vec<(String, String)>)
    ensures
        pair_views(r@) == urlencoded_pairs(input@),
{
    url::form_urlencoded::parse(input).map(|(k, v)| (k.into_owned(), v.into_owned())).collect()
}

/// The views of a list of name/value pairs.
pub open spec fn pair_views(v: Seq<(String, String)>) -> Seq<(Seq<char>, Seq<char>)> {
    v.map_values(|p: (String, String)| (p.0@, p.1@))
}

/// The value of the last pair named `key`, if any.
pub open spec fn last_value(pairs: Seq<(Seq<char>, Seq<char>)>, key: Seq<char>) -> Option<
    Seq<char>,
>
    decreases pairs.len(),
{
    if pairs.len() == 0 {
        None
    } else if pairs.last().0 == key {
        Some(pairs.last().1)
    } else {
        last_value(pairs.drop_last(), key)
    }
}

/// What the callback query's decoded pairs yield: the authorization code and
/// state, or the message of the authorization failure.
pub open spec fn callback_outcome(pairs: Seq<(Seq<char>, Seq<char>)>) -> core::result::Result<
    (Seq<char>, Seq<char>),
    Seq<char>,
> {
    match last_value(pairs, "error"@) {
        Some(error) => Err(
            match last_value(pairs, "error_description"@) {
                Some(description) => "OAuth error ("@ + error + "): "@ + description,
                None => "OAuth error: "@ + error,
            },
        ),
        None => match (last_value(pairs, "code"@), last_value(pairs, "state"@)) {
            (Some(code), Some(state)) => Ok((code, state)),
            (None, _) => Err("Missing authorization code"@),
            (Some(_), None) => Err("Missing state"@),
        },
    }
}

/// Whether an error is an authorization failure with the given message.
pub open spec fn is_auth_failure(e: Error, message: Seq<char>) -> bool {
    e matches Error::AuthorizationFailed(m) && m@ == message
}

fn last_value_of(pairs: &Vec<(String, String)>, key: &str) -> (r: Option<String>)
    ensures
        match r {
            Some(v) => last_value(pair_views(pairs@), key@) == Some(v@),
            None => last_value(pair_views(pairs@), key@) is None,
        },
{
    let mut i = pairs.len();
    assert(pairs@.take(pairs.len() as int) == pairs@);
    while i > 0
        invariant
            i <= pairs.len(),
            last_value(pair_views(pairs@), key@) == last_value(
                pair_views(pairs@.take(i as int)),
                key@,
            ),
        decreases i,
    {
        let ghost prefix = pair_views(pairs@.take(i as int));
        assert(prefix.drop_last() =~= pair_views(pairs@.take(i - 1)));
        assert(prefix.last() == (pairs@[i - 1].0@, pairs@[i - 1].1@));
        if str_eq(pairs[i - 1].0.as_str(), key) {
            return Some(pairs[i - 1].1.clone());
        }
        i = i - 1;
    }
    None
}

/// Interpret the decoded pairs of a callback query: an OAuth `error` becomes
/// an authorization failure (with its description when present); otherwise
/// both `code` and `state` are required. Later pairs override earlier ones.
pub fn callback_result(pairs: &Vec<(String, String)>) -> (r: core::result::Result<
    (String, String),
    Error,
>)
    ensures
        match callback_outcome(pair_views(pairs@)) {
            Ok((code, state)) => r matches Ok((c, s)) && c@ == code && s@ == state,
            Err(m) => r matches Err(e) && is_auth_failure(e, m),
        },
{
    let code = last_value_of(pairs, "code");
    let state = last_value_of(pairs, "state");
    let error = last_value_of(pairs, "error");
    let description = last_value_of(pairs, "error_description");
    if let Some(error) = error {
        let message = match description {
            Some(description) => {
                let mut m = owned("OAuth error (");
                push_all(&mut m, error.as_str());
                push_all(&mut m, "): ");
                push_all(&mut m, description.as_str());
                m
            },
            None => concat2("OAuth error: ", error.as_str()),
        };
        return Err(Error::AuthorizationFailed(message));
    }
    match code {
        None => Err(Error::AuthorizationFailed(owned("Missing authorization code"))),
        Some(code) => match state {
            None => Err(Error::AuthorizationFailed(owned("Missing state"))),
            Some(state) => Ok((code, state)),
        },
    }
}

/// What a callback query yields: the authorization code and state, or the
/// message of the authorization failure.
pub open spec fn query_outcome(query: Option<Seq<char>>) -> core::result::Result<
    (Seq<char>, Seq<char>),
    Seq<char>,
> {
    match query {
        None => Err("Missing callback query"@),
        Some(q) => if q.len() == 0 {
            Err("Missing callback query"@)
        } else if encode_utf8(q).len() > MAX_CALLBACK_QUERY_LEN {
            Err("Callback query is too large"@)
        } else {
            callback_outcome(urlencoded_pairs(encode_utf8(q)))
        },
    }
}

/// Whether a result carries exactly the given outcome.
pub open spec fn has_outcome(
    r: core::result::Result<(String, String), Error>,
    o: core::result::Result<(Seq<char>, Seq<char>), Seq<char>>,
) -> bool {
    match o {
        Ok((code, state)) => r matches Ok((c, s)) && c@ == code && s@ == state,
        Err(m) => r matches Err(e) && is_auth_failure(e, m),
    }
}

/// Parse and validate OAuth callback query parameters.
pub fn parse_callback_query(query: Option<&str>) -> (r: core::result::Result<
    (String, String),
    Error,
>)
    ensures
        has_outcome(
            r,
            query_outcome(
                match query {
                    Some(q) => Some(q@),
                    None => None,
                },
            ),
        ),
{
    let q = match query {
        None => return Err(Error::AuthorizationFailed(owned("Missing callback query"))),
        Some(q) => q,
    };
    if q.is_empty() {
        return Err(Error::AuthorizationFailed(owned("Missing callback query")));
    }
    let bytes = q.as_bytes();
    if bytes.len() > MAX_CALLBACK_QUERY_LEN {
        return Err(Error::AuthorizationFailed(owned("Callback query is too large")));
    }
    let pairs = decode_query_pairs(bytes);
    callback_result(&pairs)
}


/// A request target split into its path and optional query string.
pub open spec fn target_parts(target: Seq<char>) -> (Seq<char>, Option<Seq<char>>) {
    match split_once(target, '?') {
        Some((path, query)) => (path, Some(query)),
        None => (target, None),
    }
}

/// Split a request target into its path and optional query string.
pub fn split_target(target: &str) -> (r: (String, Option<String>))
    ensures
        r.0@ == target_parts(target@).0,
        match (r.1, target_parts(target@).1) {
            (Some(a), Some(b)) => a@ == b,
            (None, None) => true,
            _ => false,
        },
{
    let v = chars_of(target);
    match split_once_chars(&v, '?') {
        Some((path, query)) => (string_of(&path), Some(string_of(&query))),
        None => (owned(target), None),
    }
}

/// The request target named by an HTTP request line, or the message of the
/// failure: the line without trailing carriage returns must start with the
/// method `GET` followed by a target.
pub open spec fn request_line_target(line: Seq<char>) -> core::result::Result<Seq<char>, Seq<char>> {
    let parts = words(trim_end_char(line, '\r'));
    if parts.len() == 0 {
        Err("Missing HTTP method"@)
    } else if parts[0] != "GET"@ {
        Err("Invalid callback method"@)
    } else if parts.len() < 2 {
        Err("Missing callback target"@)
    } else {
        Ok(parts[1])
    }
}

fn strip_trailing_cr(v: &Vec<char>) -> (r: Vec<char>)
    ensures
        r@ == trim_end_char(v@, '\r'),
{
    let mut j = v.len();
    assert(v@.take(v.len() as int) == v@);
    while j > 0 && v[j - 1] == '\r'
        invariant
            j <= v.len(),
            trim_end_char(v@, '\r') == trim_end_char(v@.take(j as int), '\r'),
        decreases j,
    {
        assert(v@.take(j as int).drop_last() == v@.take(j - 1));
        j = j - 1;
    }
    let mut r: Vec<char> = Vec::new();
    let mut k: usize = 0;
    while k < j
        invariant
            k <= j <= v.len(),
            r@ == v@.take(k as int),
        decreases j - k,
    {
        r.push(v[k]);
        assert(v@.take(k + 1) == v@.take(k as int).push(v@[k as int]));
        k = k + 1;
    }
    r
}

/// Parse the HTTP request line and return the request target.
pub fn parse_request_line(line: &str) -> (r: core::result::Result<String, Error>)
    ensures
        match request_line_target(line@) {
            Ok(t) => r matches Ok(s) && s@ == t,
            Err(m) => r matches Err(e) && is_auth_failure(e, m),
        },
{
    let v = chars_of(line);
    let stripped = strip_trailing_cr(&v);
    let text = string_of(&stripped);
    let parts = split_words(text.as_str());
    if parts.len() == 0 {
        return Err(Error::AuthorizationFailed(owned("Missing HTTP method")));
    }
    assert(views(parts@)[0] == parts@[0]@);
    if !str_eq(parts[0].as_str(), "GET") {
        return Err(Error::AuthorizationFailed(owned("Invalid callback method")));
    }
    if parts.len() < 2 {
        return Err(Error::AuthorizationFailed(owned("Missing callback target")));
    }
    assert(views(parts@)[1] == parts@[1]@);
    Ok(parts[1].clone())
}

/// The first line of a request text (as `str::lines` yields it, before
/// trailing carriage returns are removed), or `None` for an empty text.
pub open spec fn first_line(request: Seq<char>) -> Option<Seq<char>> {
    if request.len() == 0 {
        None
    } else {
        match first_index(request, '\n') {
            Some(i) => Some(request.take(i)),
            None => Some(request),
        }
    }
}

/// What the callback server does with one received request.
#[derive(Debug)]
pub enum CallbackStep {
    /// The request is for another path: answer `404 Not Found` and keep
    /// waiting.
    NotFound,
    /// The redirect carried an authorization code and state: answer
    /// `200 OK` with the success page and finish.
    Authorized(String, String),
    /// The redirect was malformed or carried an OAuth error: answer
    /// `400 Bad Request` with the error text and finish with the error.
    Rejected(Error),
    /// The request itself could not be understood: finish with the error
    /// without answering.
    Failed(Error),
}

/// The step the callback server takes for a request text, given the decoded
/// pairs of its query.
pub open spec fn callback_step_spec(request: Seq<char>, step: CallbackStep) -> bool {
    match first_line(request) {
        None => step matches CallbackStep::Failed(e) && is_auth_failure(e, "Missing request line"@),
        Some(line) => match request_line_target(line) {
            Err(m) => step matches CallbackStep::Failed(e) && is_auth_failure(e, m),
            Ok(target) => {
                let (path, query) = target_parts(target);
                if path != "/callback"@ {
                    step is NotFound
                } else {
                    match query_outcome(query) {
                        Ok((code, state)) => step matches CallbackStep::Authorized(c, s) && c@
                            == code && s@ == state,
                        Err(m) => step matches CallbackStep::Rejected(e) && is_auth_failure(e, m),
                    }
                }
            },
        },
    }
}

/// Decide how to answer one request received by the callback server.
pub fn callback_step(request: &str) -> (step: CallbackStep)
    ensures
        callback_step_spec(request@, step),
{
    let v = chars_of(request);
    if v.len() == 0 {
        return CallbackStep::Failed(Error::AuthorizationFailed(owned("Missing request line")));
    }
    let line_chars = match find_char_index(&v, '\n') {
        Some(i) => take_chars(&v, i),
        None => take_chars(&v, v.len()),
    };
    assert(v@.take(v.len() as int) == v@);
    let line = string_of(&line_chars);
    let target = match parse_request_line(line.as_str()) {
        Ok(t) => t,
        Err(e) => return CallbackStep::Failed(e),
    };
    let (path, query) = split_target(target.as_str());
    if !str_eq(path.as_str(), "/callback") {
        return CallbackStep::NotFound;
    }
    let parsed = match &query {
        Some(q) => parse_callback_query(Some(q.as_str())),
        None => parse_callback_query(None),
    };
    match parsed {
        Ok((code, state)) => CallbackStep::Authorized(code, state),
        Err(e) => CallbackStep::Rejected(e),
    }
}

fn find_char_index(v: &Vec<char>, c: char) -> (r: Option<usize>)
    ensures
        match r {
            Some(i) => first_index(v@, c) == Some(i as int) && i < v.len(),
            None => first_index(v@, c) is None,
        },
{
    let r = crate::text::find_char(v, c);
    proof {
        if let Some(i) = r {
            let k = choose|k: int| crate::text::is_first_index(v@, c, k);
        }
    }
    r
}

fn take_chars(v: &Vec<char>, n: usize) -> (r: Vec<char>)
    requires
        n <= v.len(),
    ensures
        r@ == v@.take(n as int),
{
    let mut r: Vec<char> = Vec::new();
    let mut k: usize = 0;
    while k < n
        invariant
            k <= n <= v.len(),
            r@ == v@.take(k as int),
        decreases n - k,
    {
        r.push(v[k]);
        assert(v@.take(k + 1) == v@.take(k as int).push(v@[k as int]));
        k = k + 1;
    }
    r
}

/// The text of a minimal HTTP response that closes the connection.
pub open spec fn http_response_text(status: Seq<char>, content_type: Seq<char>, body_len: nat, body: Seq<char>) -> Seq<char> {
    "HTTP/1.1 "@ + status + "\r\nContent-Type: "@ + content_type + "\r\nContent-Length: "@
        + decimal(body_len) + "\r\nConnection: close\r\n\r\n"@ + body
}

/// Render a minimal HTTP response with the provided body; the length is the
/// body's size in bytes.
pub fn http_response(status: &str, content_type: &str, body: &str) -> (r: String)
    ensures
        r@ == http_response_text(status@, content_type@, body.len() as nat, body@),
{
    let mut r = owned("HTTP/1.1 ");
    push_all(&mut r, status);
    push_all(&mut r, "\r\nContent-Type: ");
    push_all(&mut r, content_type);
    push_all(&mut r, "\r\nContent-Length: ");
    let n = format_u64(body.len() as u64);
    push_all(&mut r, n.as_str());
    push_all(&mut r, "\r\nConnection: close\r\n\r\n");
    push_all(&mut r, body);
    r
}

/// The redirect URL of a loopback callback server on the given port.
pub fn callback_redirect_url(port: u16) -> (r: String)
    ensures
        r@ == "http://127.0.0.1:"@ + decimal(port as nat) + "/callback"@,
{
    let mut r = owned("http://127.0.0.1:");
    let n = format_u64(port as u64);
    push_all(&mut r, n.as_str());
    push_all(&mut r, "/callback");
    r
}

/// The most bytes of a redirect request the callback server reads.
pub const MAX_CALLBACK_REQUEST_LEN: usize = 8192;

/// Where reading a redirect request stands.
#[derive(Debug, Clone, Copy, PartialEq, Eq)]
pub enum ReadState {
    /// More than the limit was read: the request is refused.
    TooLarge,
    /// The headers are complete (a blank line was read).
    Complete,
    /// Keep reading.
    NeedMore,
}

/// Whether the bytes contain the end of the headers, `\r\n\r\n`.
pub open spec fn has_header_end(buffer: Seq<u8>) -> bool {
    exists|i: int| 0 <= i && i + 4 <= buffer.len() && #[trigger] buffer.subrange(i, i + 4) == seq![13u8, 10u8, 13u8, 10u8]
}

/// Decide how reading a redirect request goes on after more bytes arrived.
pub fn callback_read_state(buffer: &Vec<u8>) -> (r: ReadState)
    ensures
        r == if buffer.len() > MAX_CALLBACK_REQUEST_LEN {
            ReadState::TooLarge
        } else if has_header_end(buffer@) {
            ReadState::Complete
        } else {
            ReadState::NeedMore
        },
{
    if buffer.len() > MAX_CALLBACK_REQUEST_LEN {
        return ReadState::TooLarge;
    }
    if buffer.len() < 4 {
        return ReadState::NeedMore;
    }
    let mut i: usize = 0;
    while i + 4 <= buffer.len()
        invariant
            buffer.len() <= MAX_CALLBACK_REQUEST_LEN,
            i <= buffer.len(),
            forall|k: int| 0 <= k < i ==> #[trigger] buffer@.subrange(k, k + 4) != seq![13u8, 10u8, 13u8, 10u8],
        decreases buffer.len() - i,
    {
        if buffer[i] == 13 && buffer[i + 1] == 10 && buffer[i + 2] == 13 && buffer[i + 3] == 10 {
            assert(buffer@.subrange(i as int, i + 4) =~= seq![13u8, 10u8, 13u8, 10u8]);
            return ReadState::Complete;
        }
        proof {
            let w = buffer@.subrange(i as int, i + 4);
            if w == seq![13u8, 10u8, 13u8, 10u8] {
                assert(w[0] == buffer@[i as int]);
                assert(w[1] == buffer@[i + 1]);
                assert(w[2] == buffer@[i + 2]);
                assert(w[3] == buffer@[i + 3]);
            }
        }
        i = i + 1;
    }
    ReadState::NeedMore
}

// ---------------------------------------------------------------------------
// Endpoint URLs of the client configuration
// ---------------------------------------------------------------------------

/// Whether a host, as the URL parser gives it, is a loopback host.
pub open spec fn is_loopback_host(h: Seq<char>) -> bool {
    h == "127.0.0.1"@ || h == "[::1]"@ || h == "localhost"@
}

/// Whether a URL may be used for the OAuth flow: it parses, and uses HTTPS,
/// or plain HTTP to a loopback host.
pub open spec fn https_or_loopback(url: Seq<char>) -> bool {
    match parsed_url(url) {
        Some((scheme, host, _, _)) => scheme == "https"@ || (scheme == "http"@ && match host {
            Some(h) => is_loopback_host(h),
            None => false,
        }),
        None => false,
    }
}

/// The message of a URL that does not parse.
pub open spec fn unparsable_url_message(label: Seq<char>) -> Seq<char> {
    "Invalid "@ + label + ": not a valid URL"@
}

/// The message of a URL that is neither HTTPS nor loopback HTTP.
pub open spec fn insecure_url_message(label: Seq<char>) -> Seq<char> {
    label + " must use HTTPS (plain HTTP is allowed only for loopback hosts)"@
}

/// The refusal of a URL by `require_https_or_loopback`, if any.
pub open spec fn url_refusal(url: Seq<char>, label: Seq<char>) -> Option<Seq<char>> {
    if parsed_url(url) is None {
        Some(unparsable_url_message(label))
    } else if https_or_loopback(url) {
        None
    } else {
        Some(insecure_url_message(label))
    }
}

/// Require that a URL uses HTTPS, or plain HTTP to a loopback host
/// (`127.0.0.1`, `::1`, `localhost`); the refusal is a configuration error
/// naming the URL by `label`.
pub fn require_https_or_loopback(url: &str, label: &str) -> (r: Result<(), Error>)
    ensures
        r is Ok <==> https_or_loopback(url@),
        match url_refusal(url@, label@) {
            None => r is Ok,
            Some(m) => r matches Err(Error::InvalidConfiguration(x)) && x@ == m,
        },
{
    match parse_url_parts(url) {
        Err(_) => {
            let mut m = owned("Invalid ");
            push_all(&mut m, label);
            push_all(&mut m, ": not a valid URL");
            Err(Error::InvalidConfiguration(m))
        },
        Ok((scheme, host, _, _)) => {
            let secure = str_eq(scheme.as_str(), "https");
            let loopback = str_eq(scheme.as_str(), "http") && match &host {
                Some(h) => str_eq(h.as_str(), "127.0.0.1") || str_eq(h.as_str(), "[::1]") || str_eq(
                    h.as_str(),
                    "localhost",
                ),
                None => false,
            };
            if secure || loopback {
                Ok(())
            } else {
                let mut m = owned(label);
                push_all(&mut m, " must use HTTPS (plain HTTP is allowed only for loopback hosts)");
                Err(Error::InvalidConfiguration(m))
            }
        },
    }
}

/// Check the authorization, token and redirect URLs of a client
/// configuration, in that order, each by `require_https_or_loopback`: the
/// first refused gives the error, naming it as the auth, token or redirect
/// URL.
pub fn check_oauth_urls(config: &OAuth2Config) -> (r: Result<(), Error>)
    ensures
        r is Ok <==> (https_or_loopback(config.auth_url@) && https_or_loopback(config.token_url@)
            && https_or_loopback(config.redirect_url@)),
        match url_refusal(config.auth_url@, "auth URL"@) {
            Some(m) => r matches Err(Error::InvalidConfiguration(x)) && x@ == m,
            None => match url_refusal(config.token_url@, "token URL"@) {
                Some(m) => r matches Err(Error::InvalidConfiguration(x)) && x@ == m,
                None => match url_refusal(config.redirect_url@, "redirect URL"@) {
                    Some(m) => r matches Err(Error::InvalidConfiguration(x)) && x@ == m,
                    None => r is Ok,
                },
            },
        },
{
    require_https_or_loopback(config.auth_url.as_str(), "auth URL")?;
    require_https_or_loopback(config.token_url.as_str(), "token URL")?;
    require_https_or_loopback(config.redirect_url.as_str(), "redirect URL")
}

} // verus!
