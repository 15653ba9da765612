//! Server-side OAuth 2.1 resource server support.

use vstd::prelude::*;

use http::header::{HeaderValue, InvalidHeaderValue};
use serde_json::Value;

use crate::text::{
    split_once, split_once_chars, chars_of, eq_ignore_ascii_case, eq_ignore_case, has_prefix, is_ws, owned, push_all, push_char,
    split_words, str_eq, string_of, trim, trim_end_char, trim_str, views, words,
};

verus! {

/// A header value (`http::HeaderValue`).
#[verifier::external_type_specification]
#[verifier::external_body]
pub struct ExHeaderValue(HeaderValue);

/// The error of an invalid header value (`http::header::InvalidHeaderValue`).
#[verifier::external_type_specification]
#[verifier::external_body]
pub struct ExInvalidHeaderValue(InvalidHeaderValue);

/// Relative well-known path prefix for protected resource metadata.
pub const WELL_KNOWN_PROTECTED_RESOURCE_PATH: &'static str = "/.well-known/oauth-protected-resource";

/// Whether every character may stand in an HTTP header value: visible ASCII,
/// horizontal tab, or any non-ASCII character (whose UTF-8 bytes are all
/// above 127).
pub open spec fn valid_header_text(s: Seq<char>) -> bool {
    forall|i: int|
        0 <= i < s.len() ==> {
            let u = #[trigger] s[i] as u32;
            (u >= 32 && u != 127) || u == 9
        }
}

/// The text a header value holds: the characters whose UTF-8 encoding its
/// bytes are.
pub uninterp spec fn header_value_text(h: HeaderValue) -> Seq<char>;

/// Builds a header value from text (`HeaderValue::from_str`). It succeeds
/// exactly when every byte is a tab or at least 32 and not 127; the value
/// then holds the text's bytes (`from_bytes` copies them).
#[verifier::external_body]
pub(crate) fn header_value_from_str(s: &str) -> (r: core::result::Result<HeaderValue, InvalidHeaderValue>)
    ensures
        r is Ok <==> valid_header_text(s@),
        r matches Ok(h) ==> header_value_text(h) == s@,
{
    HeaderValue::from_str(s)
}

/// `value` with backslashes and double quotes escaped by a backslash.
pub open spec fn escape_header(value: Seq<char>) -> Seq<char>
    decreases value.len(),
{
    if value.len() == 0 {
        Seq::empty()
    } else {
        let c = value.last();
        escape_header(value.drop_last()) + if c == '\\' {
            seq!['\\', '\\']
        } else if c == '"' {
            seq!['\\', '"']
        } else {
            seq![c]
        }
    }
}

/// Escape a header parameter value.
pub fn escape_header_value(value: &str) -> (r: String)
    ensures
        r@ == escape_header(value@),
{
    let v = chars_of(value);
    let mut r = String::new();
    let mut i: usize = 0;
    while i < v.len()
        invariant
            i <= v.len(),
            v@ == value@,
            r@ == escape_header(v@.take(i as int)),
        decreases v.len() - i,
    {
        let c = v[i];
        assert(v@.take(i + 1).drop_last() == v@.take(i as int));
        assert(v@.take(i + 1).last() == c);
        if c == '\\' {
            push_char(&mut r, '\\');
            push_char(&mut r, '\\');
        } else if c == '"' {
            push_char(&mut r, '\\');
            push_char(&mut r, '"');
        } else {
            push_char(&mut r, c);
        }
        i = i + 1;
    }
    assert(v@.take(v.len() as int) == v@);
    r
}

/// One `key="value"` challenge parameter.
pub open spec fn param_text(p: (Seq<char>, Seq<char>)) -> Seq<char> {
    p.0 + "=\""@ + escape_header(p.1) + "\""@
}

/// The text of a bearer challenge with the given parameters, in order.
pub open spec fn challenge_text(params: Seq<(Seq<char>, Seq<char>)>) -> Seq<char>
    decreases params.len(),
{
    if params.len() == 0 {
        "Bearer"@
    } else if params.len() == 1 {
        "Bearer "@ + param_text(params[0])
    } else {
        challenge_text(params.drop_last()) + ", "@ + param_text(params.last())
    }
}

/// Builder for `WWW-Authenticate: Bearer ...` challenge headers.
#[derive(Clone, Debug)]
pub struct WwwAuthenticate {
    /// Bearer challenge parameters.
    params: Vec<(&'static str, String)>,
}

impl View for WwwAuthenticate {
    type V = Seq<(Seq<char>, Seq<char>)>;

    closed spec fn view(&self) -> Seq<(Seq<char>, Seq<char>)> {
        self.params@.map_values(|p: (&'static str, String)| (p.0@, p.1@))
    }
}

impl Default for WwwAuthenticate {
    fn default() -> (w: WwwAuthenticate)
        ensures
            w@ == Seq::<(Seq<char>, Seq<char>)>::empty(),
    {
        let w = WwwAuthenticate { params: Vec::new() };
        assert(w@ =~= Seq::<(Seq<char>, Seq<char>)>::empty());
        w
    }
}

impl WwwAuthenticate {
    fn with_param(self, key: &'static str, value: &str) -> (w: WwwAuthenticate)
        ensures
            w@ == self@.push((key@, value@)),
    {
        let mut params = self.params;
        let ghost before = params@;
        params.push((key, owned(value)));
        let w = WwwAuthenticate { params };
        assert(w@ =~= self@.push((key@, value@))) by {
            assert(params@ == before.push((key, params@.last().1)));
        }
        w
    }

    /// Create a bearer challenge with the provided resource metadata URI.
    pub fn bearer(resource_metadata: &str) -> (w: WwwAuthenticate)
        ensures
            w@ == seq![("resource_metadata"@, resource_metadata@)],
    {
        let w = WwwAuthenticate { params: Vec::new() };
        assert(w@ =~= Seq::<(Seq<char>, Seq<char>)>::empty());
        w.resource_metadata(resource_metadata)
    }

    /// Attach a `resource_metadata` parameter.
    pub fn resource_metadata(self, resource_metadata: &str) -> (w: WwwAuthenticate)
        ensures
            w@ == self@.push(("resource_metadata"@, resource_metadata@)),
    {
        self.with_param("resource_metadata", resource_metadata)
    }

    /// Attach an OAuth error code.
    pub fn error(self, error: &str) -> (w: WwwAuthenticate)
        ensures
            w@ == self@.push(("error"@, error@)),
    {
        self.with_param("error", error)
    }

    /// Attach an OAuth error description.
    pub fn error_description(self, description: &str) -> (w: WwwAuthenticate)
        ensures
            w@ == self@.push(("error_description"@, description@)),
    {
        self.with_param("error_description", description)
    }

    /// Attach a required scope hint.
    pub fn scope(self, scope: &str) -> (w: WwwAuthenticate)
        ensures
            w@ == self@.push(("scope"@, scope@)),
    {
        self.with_param("scope", scope)
    }

    /// The challenge text: `Bearer` followed by the quoted, escaped
    /// parameters separated by commas.
    pub fn header_text(&self) -> (s: String)
        ensures
            s@ == challenge_text(self@),
    {
        let mut s = String::new();
        push_all(&mut s, "Bearer");
        let mut i: usize = 0;
        while i < self.params.len()
            invariant
                i <= self.params.len(),
                s@ == challenge_text(self@.take(i as int)),
            decreases self.params.len() - i,
        {
            let ghost before = self@.take(i as int);
            if i == 0 {
                push_char(&mut s, ' ');
            } else {
                push_all(&mut s, ", ");
            }
            let (key, value) = &self.params[i];
            push_all(&mut s, key);
            push_all(&mut s, "=\"");
            let escaped = escape_header_value(value.as_str());
            push_all(&mut s, escaped.as_str());
            push_char(&mut s, '"');
            proof {
                let now = self@.take(i + 1);
                assert(now.drop_last() =~= before);
                assert(now.last() == (key@, value@));
                reveal_strlit("Bearer");
                reveal_strlit("Bearer ");
                reveal_strlit(", ");
                reveal_strlit("=\"");
                reveal_strlit("\"");
                if i == 0 {
                    assert(now.len() == 1);
                    assert(now[0] == now.last());
                }
            }
            i = i + 1;
        }
        assert(self@.take(self.params.len() as int) =~= self@);
        s
    }

    /// Build the final header value.
    pub fn header_value(self) -> (r: core::result::Result<HeaderValue, InvalidHeaderValue>)
        ensures
            r is Ok <==> valid_header_text(challenge_text(self@)),
            r matches Ok(h) ==> header_value_text(h) == challenge_text(self@),
    {
        let text = self.header_text();
        header_value_from_str(text.as_str())
    }

    /// Build a bare 401 bearer challenge.
    pub fn bearer_challenge(resource_metadata: &str) -> (r: core::result::Result<
        HeaderValue,
        InvalidHeaderValue,
    >)
        ensures
            r is Ok <==> valid_header_text(
                challenge_text(seq![("resource_metadata"@, resource_metadata@)]),
            ),
            r matches Ok(h) ==> header_value_text(h) == challenge_text(
                seq![("resource_metadata"@, resource_metadata@)],
            ),
    {
        Self::bearer(resource_metadata).header_value()
    }

    /// Build a 401 invalid-token challenge.
    pub fn invalid_token_challenge(resource_metadata: &str, description: &str) -> (r:
        core::result::Result<HeaderValue, InvalidHeaderValue>)
        ensures
            r is Ok <==> valid_header_text(
                challenge_text(
                    seq![
                        ("resource_metadata"@, resource_metadata@),
                        ("error"@, "invalid_token"@),
                        ("error_description"@, description@),
                    ],
                ),
            ),
            r matches Ok(h) ==> header_value_text(h) == challenge_text(
                seq![
                    ("resource_metadata"@, resource_metadata@),
                    ("error"@, "invalid_token"@),
                    ("error_description"@, description@),
                ],
            ),
    {
        let w = Self::bearer(resource_metadata).error("invalid_token").error_description(
            description,
        );
        assert(w@ =~= seq![
            ("resource_metadata"@, resource_metadata@),
            ("error"@, "invalid_token"@),
            ("error_description"@, description@),
        ]);
        w.header_value()
    }

    /// Build a 403 insufficient-scope challenge.
    pub fn insufficient_scope_challenge(resource_metadata: &str, required_scope: &str) -> (r:
        core::result::Result<HeaderValue, InvalidHeaderValue>)
        ensures
            r is Ok <==> valid_header_text(
                challenge_text(
                    seq![
                        ("resource_metadata"@, resource_metadata@),
                        ("error"@, "insufficient_scope"@),
                        ("scope"@, required_scope@),
                    ],
                ),
            ),
            r matches Ok(h) ==> header_value_text(h) == challenge_text(
                seq![
                    ("resource_metadata"@, resource_metadata@),
                    ("error"@, "insufficient_scope"@),
                    ("scope"@, required_scope@),
                ],
            ),
    {
        let w = Self::bearer(resource_metadata).error("insufficient_scope").scope(required_scope);
        assert(w@ =~= seq![
            ("resource_metadata"@, resource_metadata@),
            ("error"@, "insufficient_scope"@),
            ("scope"@, required_scope@),
        ]);
        w.header_value()
    }
}


/// The normalized form of an externally visible endpoint path: trimmed, `/`
/// when empty, without trailing slashes, and with a leading slash.
pub open spec fn normalized_path(p: Seq<char>) -> Seq<char> {
    let t = trim(p);
    if t.len() == 0 || t == "/"@ {
        "/"@
    } else {
        let u = trim_end_char(t, '/');
        if u.len() > 0 && u[0] == '/' {
            u
        } else {
            "/"@ + u
        }
    }
}

/// The relative protected-resource metadata URI for an endpoint path.
pub open spec fn metadata_uri(p: Seq<char>) -> Seq<char> {
    let n = normalized_path(p);
    if n == "/"@ {
        WELL_KNOWN_PROTECTED_RESOURCE_PATH@
    } else {
        WELL_KNOWN_PROTECTED_RESOURCE_PATH@ + n
    }
}

fn strip_trailing(v: &Vec<char>, c: char) -> (r: Vec<char>)
    ensures
        r@ == trim_end_char(v@, c),
{
    let mut j = v.len();
    assert(v@.take(v.len() as int) == v@);
    while j > 0 && v[j - 1] == c
        invariant
            j <= v.len(),
            trim_end_char(v@, c) == trim_end_char(v@.take(j as int), c),
        decreases j,
    {
        assert(v@.take(j as int).drop_last() == v@.take(j - 1));
        j = j - 1;
    }
    assert(v@.take(v.len() as int) == v@);
    let mut r: Vec<char> = Vec::new();
    let mut k: usize = 0;
    while k < j
        invariant
            k <= j <= v.len(),
            r@ == v@.take(k as int),
        decreases j - k,
    {
        r.push(v[k]);
        assert(v@.take(k + 1) == v@.take(k as int).push(v@[k as int]));
        k = k + 1;
    }
    r
}

/// Normalize an externally visible endpoint path.
pub fn normalize_endpoint_path(endpoint_path: &str) -> (r: String)
    ensures
        r@ == normalized_path(endpoint_path@),
{
    proof {
        reveal_strlit("/");
    }
    let trimmed = trim_str(endpoint_path);
    if trimmed.as_str().is_empty() || str_eq(trimmed.as_str(), "/") {
        return owned("/");
    }
    let t = chars_of(trimmed.as_str());
    let u = strip_trailing(&t, '/');
    if u.len() > 0 && u[0] == '/' {
        string_of(&u)
    } else {
        let mut r = String::new();
        push_char(&mut r, '/');
        let rest = string_of(&u);
        push_all(&mut r, rest.as_str());
        r
    }
}

/// Return the relative protected-resource metadata URI for an endpoint path.
pub fn resource_metadata_relative_uri(endpoint_path: &str) -> (r: String)
    ensures
        r@ == metadata_uri(endpoint_path@),
{
    let n = normalize_endpoint_path(endpoint_path);
    if str_eq(n.as_str(), "/") {
        owned(WELL_KNOWN_PROTECTED_RESOURCE_PATH)
    } else {
        let mut r = owned(WELL_KNOWN_PROTECTED_RESOURCE_PATH);
        push_all(&mut r, n.as_str());
        r
    }
}

/// The paths at which the protected resource metadata is served: the
/// well-known path, and also its endpoint-specific form unless the endpoint
/// is the root.
pub fn protected_resource_paths(endpoint_path: &str) -> (r: Vec<String>)
    ensures
        r@.map_values(|s: String| s@) == if normalized_path(endpoint_path@) == "/"@ {
            seq![WELL_KNOWN_PROTECTED_RESOURCE_PATH@]
        } else {
            seq![WELL_KNOWN_PROTECTED_RESOURCE_PATH@, metadata_uri(endpoint_path@)]
        },
{
    let mut r: Vec<String> = Vec::new();
    r.push(owned(WELL_KNOWN_PROTECTED_RESOURCE_PATH));
    let n = normalize_endpoint_path(endpoint_path);
    if !str_eq(n.as_str(), "/") {
        let p = resource_metadata_relative_uri(endpoint_path);
        r.push(p);
        assert(r@.map_values(|s: String| s@) =~= seq![
            WELL_KNOWN_PROTECTED_RESOURCE_PATH@,
            metadata_uri(endpoint_path@),
        ]);
    } else {
        assert(r@.map_values(|s: String| s@) =~= seq![WELL_KNOWN_PROTECTED_RESOURCE_PATH@]);
    }
    r
}

proof fn lemma_trim_end_char_last(s: Seq<char>, c: char)
    ensures
        trim_end_char(s, c).len() == 0 || trim_end_char(s, c).last() != c,
    decreases s.len(),
{
    if s.len() > 0 && s.last() == c {
        lemma_trim_end_char_last(s.drop_last(), c);
    }
}

proof fn lemma_trim_fixed(s: Seq<char>)
    requires
        s.len() > 0,
        !is_ws(s[0]),
        !is_ws(s.last()),
    ensures
        trim(s) == s,
{
}

/// Normalizing an endpoint path a second time changes nothing, for every
/// path whose trimmed text does not end in whitespace once its trailing
/// slashes are removed.
pub proof fn lemma_normalize_idempotent(p: Seq<char>)
    requires
        ({
            let u = trim_end_char(trim(p), '/');
            u.len() == 0 || !is_ws(u.last())
        }),
    ensures
        normalized_path(normalized_path(p)) == normalized_path(p),
{
    reveal_strlit("/");
    let n = normalized_path(p);
    let t = trim(p);
    let u = trim_end_char(t, '/');
    lemma_trim_end_char_last(t, '/');
    if n == "/"@ {
        lemma_trim_fixed(n);
    } else {
        assert(u.len() > 0);
        if u[0] == '/' {
            assert(n == u);
        } else {
            assert(n == seq!['/'] + u);
            assert(n.last() == u.last());
        }
        assert(n[0] == '/');
        lemma_trim_fixed(n);
        assert(n.len() >= 2 || n[0] != n.last());
        assert(n != "/"@);
        assert(trim_end_char(n, '/') == n);
    }
}

/// `s` without every leading occurrence of `c` (`str::trim_start_matches`).
pub open spec fn trim_start_char(s: Seq<char>, c: char) -> Seq<char>
    decreases s.len(),
{
    if s.len() > 0 && s[0] == c {
        trim_start_char(s.drop_first(), c)
    } else {
        s
    }
}

/// `s` without its leading and trailing slashes (`str::trim_matches('/')`).
pub open spec fn trim_slashes(s: Seq<char>) -> Seq<char> {
    trim_start_char(trim_end_char(s, '/'), '/')
}

proof fn lemma_trim_end_char_prefix(s: Seq<char>, c: char)
    ensures
        trim_end_char(s, c).len() <= s.len(),
        trim_end_char(s, c) == s.take(trim_end_char(s, c).len() as int),
    decreases s.len(),
{
    if s.len() > 0 && s.last() == c {
        lemma_trim_end_char_prefix(s.drop_last(), c);
        let u = trim_end_char(s, c);
        assert(s.drop_last().take(u.len() as int) =~= s.take(u.len() as int));
    } else {
        assert(s.take(s.len() as int) =~= s);
    }
}

proof fn lemma_trim_without_whitespace(s: Seq<char>)
    requires
        forall|i: int| 0 <= i < s.len() ==> !is_ws(#[trigger] s[i]),
    ensures
        trim(s) == s,
{
    if s.len() > 0 {
        lemma_trim_fixed(s);
    }
}

/// For a path without whitespace, the normalized path starts with `/`, ends
/// in `/` only when it is `/` itself, normalizes to itself, and keeps the
/// text that the path has between its leading and trailing slashes.
pub proof fn lemma_normalized_path_shape(p: Seq<char>)
    requires
        forall|i: int| 0 <= i < p.len() ==> !is_ws(#[trigger] p[i]),
    ensures
        normalized_path(normalized_path(p)) == normalized_path(p),
        normalized_path(p).len() > 0 && normalized_path(p)[0] == '/',
        normalized_path(p) == "/"@ || normalized_path(p).last() != '/',
        trim_slashes(normalized_path(p)) == trim_slashes(p),
{
    reveal_strlit("/");
    lemma_trim_without_whitespace(p);
    let r = normalized_path(p);
    let u = trim_end_char(p, '/');
    lemma_trim_end_char_last(p, '/');
    lemma_trim_end_char_prefix(p, '/');
    if u.len() > 0 {
        assert(u.last() == p[u.len() - 1]);
    }
    lemma_normalize_idempotent(p);
    // the text between the slashes
    let e: Seq<char> = Seq::empty();
    assert(trim_end_char(e, '/') == e);
    assert(trim_start_char(e, '/') == e);
    if p.len() == 0 || p == "/"@ {
        assert(r == seq!['/']);
        assert(r.drop_last() =~= e);
        assert(trim_end_char(r, '/') == trim_end_char(e, '/'));
        if p.len() > 0 {
            assert(p.drop_last() =~= e);
            assert(trim_end_char(p, '/') == trim_end_char(e, '/'));
        }
    } else if u.len() == 0 {
        assert(r =~= seq!['/']);
        assert(r.drop_last() =~= e);
        assert(trim_end_char(r, '/') == trim_end_char(e, '/'));
    } else {
        assert(trim_end_char(u, '/') == u);
        if u[0] == '/' {
            assert(r == u);
        } else {
            assert(r == seq!['/'] + u);
            assert(r.last() == u.last());
            assert(trim_end_char(r, '/') == r);
            assert(r.drop_first() =~= u);
            assert(trim_start_char(r, '/') == trim_start_char(u, '/'));
            assert(trim_start_char(u, '/') == u);
        }
    }
}

/// Split a string-based scope claim into its set of scopes: each
/// whitespace-separated scope once, in order of first appearance.
pub fn parse_scope_set(scope: &str) -> (r: Vec<String>)
    ensures
        views(r@).to_set() == words(scope@).to_set(),
        views(r@).no_duplicates(),
{
    let all = split_words(scope);
    let mut r: Vec<String> = Vec::new();
    let mut i: usize = 0;
    while i < all.len()
        invariant
            i <= all.len(),
            views(all@) == words(scope@),
            views(r@).to_set() == views(all@.take(i as int)).to_set(),
            views(r@).no_duplicates(),
        decreases all.len() - i,
    {
        let ghost before = views(r@);
        let ghost seen = views(all@.take(i as int));
        let present = contains_string(&r, all[i].as_str());
        assert(views(all@.take(i + 1)) =~= seen.push(all@[i as int]@));
        proof {
            lemma_push_to_set(seen, all@[i as int]@);
        }
        if !present {
            r.push(all[i].clone());
            assert(views(r@) =~= before.push(all@[i as int]@));
            proof {
                lemma_push_to_set(before, all@[i as int]@);
            }
        } else {
            assert(before.to_set().contains(all@[i as int]@));
            assert(before.to_set().insert(all@[i as int]@) =~= before.to_set());
        }
        i = i + 1;
    }
    assert(all@.take(all.len() as int) == all@);
    r
}

proof fn lemma_push_to_set<A>(s: Seq<A>, x: A)
    ensures
        s.push(x).to_set() == s.to_set().insert(x),
{
    assert forall|a: A| s.push(x).contains(a) <==> s.to_set().insert(x).contains(a) by {
        if s.push(x).contains(a) {
            let k = choose|k: int| 0 <= k < s.push(x).len() && s.push(x)[k] == a;
            if k < s.len() {
                assert(s[k] == a);
            }
        }
        if s.contains(a) {
            let k = choose|k: int| 0 <= k < s.len() && s[k] == a;
            assert(s.push(x)[k] == a);
        }
        if a == x {
            assert(s.push(x)[s.len() as int] == x);
        }
    }
    assert(s.push(x).to_set() =~= s.to_set().insert(x));
}

/// Whether a list of strings contains the given text.
pub fn contains_string(v: &Vec<String>, s: &str) -> (r: bool)
    ensures
        r == views(v@).contains(s@),
{
    let mut i: usize = 0;
    while i < v.len()
        invariant
            i <= v.len(),
            forall|j: int| 0 <= j < i ==> views(v@)[j] != s@,
        decreases v.len() - i,
    {
        if str_eq(v[i].as_str(), s) {
            assert(views(v@)[i as int] == s@);
            return true;
        }
        i = i + 1;
    }
    false
}

/// Validated identity information extracted from a bearer token.
#[derive(Clone, Debug)]
pub struct AuthInfo {
    /// Subject identifier from the validated token.
    pub subject: String,
    /// Granted scopes.
    pub scopes: Vec<String>,
    /// Audience claims accepted for this token.
    pub audiences: Vec<String>,
    /// Remaining custom claims.
    pub extra: Value,
}

impl AuthInfo {
    /// Return true if the token grants the requested scope.
    pub fn has_scope(&self, scope: &str) -> (r: bool)
        ensures
            r == views(self.scopes@).contains(scope@),
    {
        contains_string(&self.scopes, scope)
    }

    /// Return true if the token grants every requested scope.
    pub fn has_all_scopes(&self, scopes: &[&str]) -> (r: bool)
        ensures
            r == forall|i: int|
                0 <= i < scopes@.len() ==> views(self.scopes@).contains(#[trigger] scopes@[i]@),
    {
        let mut i: usize = 0;
        while i < scopes.len()
            invariant
                i <= scopes@.len(),
                forall|j: int| 0 <= j < i ==> views(self.scopes@).contains(#[trigger] scopes@[j]@),
            decreases scopes@.len() - i,
        {
            if !self.has_scope(scopes[i]) {
                return false;
            }
            i = i + 1;
        }
        true
    }
}

/// Errors returned by bearer token validation.
#[derive(Debug, Clone)]
pub enum AuthError {
    /// The token is invalid.
    Invalid,
    /// The token is expired.
    Expired,
    /// Token validation infrastructure is temporarily unavailable.
    Unavailable(String),
}

impl AuthError {
    /// The human-readable text of the error.
    pub fn to_string(&self) -> (s: String)
        ensures
            s@ == match *self {
                AuthError::Invalid => "invalid token"@,
                AuthError::Expired => "expired token"@,
                AuthError::Unavailable(m) => m@,
            },
    {
        match self {
            AuthError::Invalid => owned("invalid token"),
            AuthError::Expired => owned("expired token"),
            AuthError::Unavailable(m) => m.clone(),
        }
    }
}


/// The bearer token carried by an `Authorization` header value: the text
/// after the first space, when the scheme before it is `bearer` in any ASCII
/// case and the token is not empty.
pub open spec fn bearer_token_of(authorization: Seq<char>) -> Option<Seq<char>> {
    match split_once(authorization, ' ') {
        Some((scheme, token)) => if eq_ignore_ascii_case(scheme, "bearer"@) && token.len() > 0 {
            Some(token)
        } else {
            None
        },
        None => None,
    }
}

/// Extract a bearer token from the text of an `Authorization` header.
pub fn bearer_token(authorization: &str) -> (r: Option<String>)
    ensures
        match r {
            Some(t) => bearer_token_of(authorization@) == Some(t@),
            None => bearer_token_of(authorization@) is None,
        },
{
    let v = chars_of(authorization);
    match split_once_chars(&v, ' ') {
        Some((scheme, token)) => {
            let bearer = chars_of("bearer");
            if eq_ignore_case(&scheme, &bearer) && token.len() > 0 {
                Some(string_of(&token))
            } else {
                None
            }
        },
        None => None,
    }
}

/// What the bearer-auth layer answers a request with.
#[derive(Debug)]
pub enum AuthDecision {
    /// The token was accepted: the request proceeds to the protected service.
    Proceed,
    /// `401 Unauthorized` with the given `WWW-Authenticate` challenge.
    Unauthorized(WwwAuthenticate),
    /// `503 Service Unavailable` with the given message as body.
    Unavailable(String),
}

/// The challenge for a request without a bearer token.
pub open spec fn missing_token_challenge(resource_metadata: Seq<char>) -> Seq<(Seq<char>, Seq<char>)> {
    seq![("resource_metadata"@, resource_metadata)]
}

/// The challenge for a rejected bearer token.
pub open spec fn invalid_token_params(resource_metadata: Seq<char>, description: Seq<char>) -> Seq<
    (Seq<char>, Seq<char>),
> {
    seq![
        ("resource_metadata"@, resource_metadata),
        ("error"@, "invalid_token"@),
        ("error_description"@, description),
    ]
}

/// Decide the answer to a request given the token it carried and the
/// validator's verdict on that token (`None` when it was accepted).
pub fn auth_decision(
    resource_metadata: &str,
    has_token: bool,
    verdict: Option<AuthError>,
) -> (d: AuthDecision)
    ensures
        !has_token ==> (d matches AuthDecision::Unauthorized(w) && w@ == missing_token_challenge(
            resource_metadata@,
        )),
        has_token ==> match verdict {
            None => d is Proceed,
            Some(AuthError::Invalid) => (d matches AuthDecision::Unauthorized(w) && w@
                == invalid_token_params(resource_metadata@, "Invalid access token"@)),
            Some(AuthError::Expired) => (d matches AuthDecision::Unauthorized(w) && w@
                == invalid_token_params(resource_metadata@, "Expired access token"@)),
            Some(AuthError::Unavailable(m)) => (d matches AuthDecision::Unavailable(b) && b@
                == m@),
        },
{
    if !has_token {
        return AuthDecision::Unauthorized(WwwAuthenticate::bearer(resource_metadata));
    }
    match verdict {
        None => AuthDecision::Proceed,
        Some(AuthError::Invalid) => {
            let w = WwwAuthenticate::bearer(resource_metadata).error("invalid_token").error_description(
                "Invalid access token",
            );
            assert(w@ =~= invalid_token_params(resource_metadata@, "Invalid access token"@));
            AuthDecision::Unauthorized(w)
        },
        Some(AuthError::Expired) => {
            let w = WwwAuthenticate::bearer(resource_metadata).error("invalid_token").error_description(
                "Expired access token",
            );
            assert(w@ =~= invalid_token_params(resource_metadata@, "Expired access token"@));
            AuthDecision::Unauthorized(w)
        },
        Some(AuthError::Unavailable(m)) => AuthDecision::Unavailable(m),
    }
}

/// The parameters of the challenge in a 403 insufficient-scope response.
pub open spec fn insufficient_scope_params(endpoint_path: Seq<char>, scope: Seq<char>) -> Seq<
    (Seq<char>, Seq<char>),
> {
    seq![
        ("resource_metadata"@, metadata_uri(endpoint_path)),
        ("error"@, "insufficient_scope"@),
        ("scope"@, scope),
    ]
}

/// The challenge of a 403 response describing the required scope for an
/// endpoint.
pub fn insufficient_scope_response(endpoint_path: &str, required_scope: &str) -> (w:
    WwwAuthenticate)
    ensures
        w@ == insufficient_scope_params(endpoint_path@, required_scope@),
{
    let rm = resource_metadata_relative_uri(endpoint_path);
    let w = WwwAuthenticate::bearer(rm.as_str()).error("insufficient_scope").scope(required_scope);
    assert(w@ =~= insufficient_scope_params(endpoint_path@, required_scope@));
    w
}

proof fn lemma_valid_header_concat(a: Seq<char>, b: Seq<char>)
    requires
        valid_header_text(a),
        valid_header_text(b),
    ensures
        valid_header_text(a + b),
{
    assert forall|i: int| 0 <= i < (a + b).len() implies {
        let u = #[trigger] (a + b)[i] as u32;
        (u >= 32 && u != 127) || u == 9
    } by {
        if i < a.len() {
            assert((a + b)[i] == a[i]);
        } else {
            assert((a + b)[i] == b[i - a.len()]);
        }
    }
}

proof fn lemma_escape_keeps_valid(v: Seq<char>)
    requires
        valid_header_text(v),
    ensures
        valid_header_text(escape_header(v)),
    decreases v.len(),
{
    if v.len() > 0 {
        let c = v.last();
        assert(valid_header_text(v.drop_last())) by {
            assert forall|i: int| 0 <= i < v.drop_last().len() implies {
                let u = #[trigger] v.drop_last()[i] as u32;
                (u >= 32 && u != 127) || u == 9
            } by {
                assert(v.drop_last()[i] == v[i]);
            }
        }
        lemma_escape_keeps_valid(v.drop_last());
        assert(v[v.len() - 1] == c);
        let tail = if c == '\\' {
            seq!['\\', '\\']
        } else if c == '"' {
            seq!['\\', '"']
        } else {
            seq![c]
        };
        assert(valid_header_text(tail));
        lemma_valid_header_concat(escape_header(v.drop_last()), tail);
    }
}

/// A challenge whose parameter names and values may all stand in a header
/// (visible ASCII among them) always builds a header value: escaping keeps
/// the text valid, and the quotes, commas and `Bearer` are visible ASCII.
pub proof fn lemma_challenge_builds(params: Seq<(Seq<char>, Seq<char>)>)
    requires
        forall|i: int|
            0 <= i < params.len() ==> valid_header_text(#[trigger] params[i].0) && valid_header_text(
                params[i].1,
            ),
    ensures
        valid_header_text(challenge_text(params)),
    decreases params.len(),
{
    reveal_strlit("Bearer");
    reveal_strlit("Bearer ");
    reveal_strlit(", ");
    reveal_strlit("=\"");
    reveal_strlit("\"");
    let last = params.last();
    if params.len() > 0 {
        assert(valid_header_text(last.0) && valid_header_text(last.1)) by {
            assert(params[params.len() - 1] == last);
        }
        lemma_escape_keeps_valid(last.1);
        lemma_valid_header_concat(last.0, "=\""@);
        lemma_valid_header_concat(last.0 + "=\""@, escape_header(last.1));
        lemma_valid_header_concat(last.0 + "=\""@ + escape_header(last.1), "\""@);
    }
    if params.len() == 1 {
        lemma_valid_header_concat("Bearer "@, param_text(params[0]));
    } else if params.len() > 1 {
        assert forall|i: int| 0 <= i < params.drop_last().len() implies valid_header_text(
            #[trigger] params.drop_last()[i].0,
        ) && valid_header_text(params.drop_last()[i].1) by {
            assert(params.drop_last()[i] == params[i]);
        }
        lemma_challenge_builds(params.drop_last());
        lemma_valid_header_concat(challenge_text(params.drop_last()), ", "@);
        lemma_valid_header_concat(challenge_text(params.drop_last()) + ", "@, param_text(last));
    }
}

/// Each builder appends its parameter after all earlier ones: once a
/// challenge has a parameter, adding one more adds `, key="value"` to its
/// text, the value escaped.
pub proof fn lemma_appended_param_text(params: Seq<(Seq<char>, Seq<char>)>, p: (Seq<char>, Seq<char>))
    requires
        params.len() > 0,
    ensures
        challenge_text(params.push(p)) == challenge_text(params) + ", "@ + p.0 + "=\""@ + escape_header(p.1)
            + "\""@,
{
    assert(params.push(p).drop_last() == params);
    assert(params.push(p).last() == p);
}

} // verus!
