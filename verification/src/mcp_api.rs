//! Inspection of an MCP surface: the identity an inspecting client
//! announces, and the digest that fingerprints a surface.

use vstd::prelude::*;

use sha2::{Digest, Sha256};

use crate::schema::jsonrpc::LATEST_PROTOCOL_VERSION;
use crate::schema::content::Resource;
use crate::schema::jsonrpc::Cursor;
use crate::server::ServerCapabilities;
use crate::schema::prompts::Prompt;
use crate::schema::tools::Tool;
use crate::text::{
    lemma_text_lt_irreflexive, lemma_text_lt_total, lemma_text_lt_transitive, owned, str_lt, text_le,
    text_lt,
};

verus! {

/// Name and version of an MCP implementation.
#[derive(Debug, Clone)]
pub struct Implementation {
    /// Programmatic name.
    pub name: String,
    /// Version text.
    pub version: String,
    /// Human-readable title.
    pub title: Option<String>,
}

impl Implementation {
    /// An implementation with a name and version and no title.
    pub fn new(name: &str, version: &str) -> (r: Self)
        ensures
            r.name@ == name@,
            r.version@ == version@,
            r.title is None,
    {
        Implementation { name: owned(name), version: owned(version), title: None }
    }
}

/// Capabilities a client announces; an inspecting client announces none.
#[derive(Debug, Clone, Copy, PartialEq, Eq, Default)]
pub struct ClientCapabilities {
    /// Whether the client answers roots/list (and notifies root changes).
    pub roots: bool,
    /// Whether the client answers sampling requests.
    pub sampling: bool,
    /// Whether the client answers elicitation requests.
    pub elicitation: bool,
}

/// The version of this library, announced by the inspecting client.
pub const LIBRARY_VERSION: &'static str = "0.1.0";

/// Client identity and protocol settings used when inspecting a server
/// handler.
#[derive(Debug, Clone)]
pub struct McpApiOptions {
    /// MCP protocol version to request during initialization.
    pub protocol_version: String,
    /// Client capabilities to send during initialization.
    pub client_capabilities: ClientCapabilities,
    /// Client implementation metadata to send during initialization.
    pub client_info: Implementation,
}

impl Default for McpApiOptions {
    /// The latest protocol version, no capabilities, and the identity
    /// `tmcp-inspector` at this library's version.
    fn default() -> (r: Self)
        ensures
            r.protocol_version@ == LATEST_PROTOCOL_VERSION@,
            r.client_capabilities == (ClientCapabilities {
                roots: false,
                sampling: false,
                elicitation: false,
            }),
            r.client_info.name@ == "tmcp-inspector"@,
            r.client_info.version@ == LIBRARY_VERSION@,
            r.client_info.title is None,
    {
        McpApiOptions {
            protocol_version: owned(LATEST_PROTOCOL_VERSION),
            client_capabilities: ClientCapabilities { roots: false, sampling: false, elicitation: false },
            client_info: Implementation::new("tmcp-inspector", LIBRARY_VERSION),
        }
    }
}

/// The SHA-256 digest of a byte string.
pub uninterp spec fn sha256(data: Seq<u8>) -> Seq<u8>;

/// The SHA-256 digest of a byte string (`sha2::Sha256::digest`): named, and
/// 32 bytes long.
#[verifier::external_body]
fn sha256_digest(data: &[u8]) -> (r: Vec<u8>)
    ensures
        r@ == sha256(data@),
        r@.len() == 32,
{
    Sha256::digest(data).to_vec()
}


// ---------------------------------------------------------------------------
// Collecting a surface
// ---------------------------------------------------------------------------

/// The lists an inspection collects from a server.
#[derive(Debug, Clone, Copy, PartialEq, Eq)]
pub struct InspectionPlan {
    /// Whether `tools/list` is walked.
    pub tools: bool,
    /// Whether `resources/list` is walked.
    pub resources: bool,
    /// Whether `resources/templates/list` is walked.
    pub resource_templates: bool,
    /// Whether `prompts/list` is walked.
    pub prompts: bool,
}

/// The lists to collect after initialization: exactly those the server
/// advertised a capability for, resource templates going with resources.
pub fn inspection_plan(caps: &ServerCapabilities) -> (r: InspectionPlan)
    ensures
        r.tools == caps.tools is Some,
        r.resources == caps.resources is Some,
        r.resource_templates == caps.resources is Some,
        r.prompts == caps.prompts is Some,
{
    InspectionPlan {
        tools: caps.tools.is_some(),
        resources: caps.resources.is_some(),
        resource_templates: caps.resources.is_some(),
        prompts: caps.prompts.is_some(),
    }
}

/// Takes one page of a paginated listing: its items follow those gathered
/// so far, and the page's cursor is the one to ask with next; `None` means
/// the listing is complete.
pub fn gather_page<T>(gathered: &mut Vec<T>, page: Vec<T>, next_cursor: Option<Cursor>) -> (r: Option<Cursor>)
    ensures
        final(gathered)@ == old(gathered)@ + page@,
        r == next_cursor,
{
    let mut page = page;
    gathered.append(&mut page);
    next_cursor
}

// ---------------------------------------------------------------------------
// Sorting a surface's lists
// ---------------------------------------------------------------------------

/// An item of an API surface, sorted by a text key before the surface is
/// digested.
pub trait TextKeyed {
    /// The key the item sorts by.
    spec fn sort_key(&self) -> Seq<char>;

    /// The key, as text.
    fn key_text(&self) -> (r: &str)
        ensures
            r@ == self.sort_key(),
    ;
}

impl TextKeyed for Tool {
    open spec fn sort_key(&self) -> Seq<char> {
        self.name@
    }

    fn key_text(&self) -> (r: &str) {
        self.name.as_str()
    }
}

impl TextKeyed for Prompt {
    open spec fn sort_key(&self) -> Seq<char> {
        self.name@
    }

    fn key_text(&self) -> (r: &str) {
        self.name.as_str()
    }
}

impl TextKeyed for Resource {
    open spec fn sort_key(&self) -> Seq<char> {
        self.uri@
    }

    fn key_text(&self) -> (r: &str) {
        self.uri.as_str()
    }
}

/// Whether the keys never decrease along the sequence.
pub open spec fn keys_sorted<T: TextKeyed>(s: Seq<T>) -> bool {
    forall|i: int, j: int| 0 <= i < j < s.len() ==> text_le(#[trigger] s[i].sort_key(), #[trigger] s[j].sort_key())
}

/// Whether an item's key is `k`.
pub open spec fn key_is<T: TextKeyed>(k: Seq<char>) -> spec_fn(T) -> bool {
    |x: T| x.sort_key() == k
}

/// The items whose key is `k`, in order.
pub open spec fn with_key<T: TextKeyed>(s: Seq<T>, k: Seq<char>) -> Seq<T> {
    s.filter(key_is(k))
}

proof fn lemma_filter_none<T>(s: Seq<T>, pred: spec_fn(T) -> bool)
    requires
        forall|i: int| 0 <= i < s.len() ==> !pred(#[trigger] s[i]),
    ensures
        s.filter(pred) == Seq::<T>::empty(),
    decreases s.len(),
{
    if s.len() == 0 {
        reveal(Seq::filter);
    } else {
        lemma_filter_none(s.drop_last(), pred);
        s.drop_last().lemma_filter_push(s.last(), pred);
        assert(s.drop_last().push(s.last()) =~= s);
    }
}

/// Inserting `x` at `p`, after every item whose key is not above its own
/// and before every item whose key is, keeps the keys sorted and adds `x`
/// last among the items of its key.
proof fn lemma_insert_keeps_order<T: TextKeyed>(s: Seq<T>, p: int, x: T, k: Seq<char>)
    requires
        keys_sorted(s),
        0 <= p <= s.len(),
        forall|m: int| 0 <= m < p ==> text_le(#[trigger] s[m].sort_key(), x.sort_key()),
        p < s.len() ==> text_lt(x.sort_key(), s[p].sort_key()),
    ensures
        keys_sorted(s.insert(p, x)),
        with_key(s.insert(p, x), k) == (if x.sort_key() == k {
            with_key(s, k).push(x)
        } else {
            with_key(s, k)
        }),
{
    let t = s.insert(p, x);
    let xk = x.sort_key();
    assert forall|m: int| p <= m < s.len() implies text_lt(xk, #[trigger] s[m].sort_key()) by {
        if m > p {
            assert(text_le(s[p].sort_key(), s[m].sort_key()));
            if s[p].sort_key() != s[m].sort_key() {
                lemma_text_lt_transitive(xk, s[p].sort_key(), s[m].sort_key());
            }
        }
    }
    assert forall|i: int, j: int| 0 <= i < j < t.len() implies text_le(
        #[trigger] t[i].sort_key(),
        #[trigger] t[j].sort_key(),
    ) by {
        if j < p {
            assert(t[i] == s[i] && t[j] == s[j]);
        } else if j == p {
            assert(t[i] == s[i]);
        } else if i < p {
            assert(t[i] == s[i] && t[j] == s[j - 1]);
            let a = s[i].sort_key();
            let b = s[j - 1].sort_key();
            assert(text_le(a, xk));
            assert(text_lt(xk, b));
            if a != xk {
                lemma_text_lt_transitive(a, xk, b);
            }
        } else if i == p {
            assert(t[j] == s[j - 1]);
        } else {
            assert(t[i] == s[i - 1] && t[j] == s[j - 1]);
        }
    }
    let pred = key_is::<T>(k);
    assert(s =~= s.take(p) + s.skip(p));
    assert(t =~= s.take(p) + (seq![x] + s.skip(p)));
    Seq::filter_distributes_over_add(s.take(p), s.skip(p), pred);
    Seq::filter_distributes_over_add(s.take(p), seq![x] + s.skip(p), pred);
    s.skip(p).lemma_filter_prepend(x, pred);
    if xk == k {
        assert forall|m: int| 0 <= m < s.skip(p).len() implies !pred(#[trigger] s.skip(p)[m]) by {
            assert(s.skip(p)[m] == s[p + m]);
            lemma_text_lt_irreflexive(xk);
        }
        lemma_filter_none(s.skip(p), pred);
        assert(with_key(t, k) =~= with_key(s, k).push(x));
    } else {
        assert(with_key(t, k) =~= with_key(s, k));
    }
}

/// The items sorted by key, stably: the keys never decrease, and the items
/// of each key keep the order they came in (the order `slice::sort_by` gives
/// with a comparison of the keys).
pub fn sort_by_key_text<T: TextKeyed>(items: Vec<T>) -> (r: Vec<T>)
    ensures
        keys_sorted(r@),
        forall|k: Seq<char>| #[trigger] with_key(r@, k) == with_key(items@, k),
{
    let ghost orig = items@;
    let n: usize = items.len();
    let mut rest = items;
    let mut out: Vec<T> = Vec::new();
    let mut i: usize = 0;
    proof {
        reveal(Seq::filter);
    }
    while rest.len() > 0
        invariant
            i <= orig.len() == n,
            rest@ == orig.skip(i as int),
            keys_sorted(out@),
            forall|k: Seq<char>| #[trigger] with_key(out@, k) == with_key(orig.take(i as int), k),
        decreases rest.len(),
    {
        let x = rest.remove(0);
        assert(x == orig[i as int]);
        let mut p: usize = 0;
        while p < out.len() && !str_lt(x.key_text(), out[p].key_text())
            invariant
                p <= out.len(),
                forall|m: int| 0 <= m < p ==> text_le(#[trigger] out@[m].sort_key(), x.sort_key()),
            decreases out.len() - p,
        {
            proof {
                lemma_text_lt_total(x.sort_key(), out@[p as int].sort_key());
            }
            p = p + 1;
        }
        let ghost before = out@;
        proof {
            assert forall|k: Seq<char>| #[trigger] with_key(before.insert(p as int, x), k) == with_key(
                orig.take(i + 1),
                k,
            ) by {
                lemma_insert_keeps_order(before, p as int, x, k);
                assert(orig.take(i + 1) =~= orig.take(i as int).push(x));
                orig.take(i as int).lemma_filter_push(x, key_is::<T>(k));
            }
            lemma_insert_keeps_order(before, p as int, x, Seq::empty());
        }
        out.insert(p, x);
        proof {
            assert(rest@ =~= orig.skip(i + 1));
        }
        i = i + 1;
    }
    proof {
        assert(orig.take(i as int) =~= orig);
    }
    out
}

proof fn lemma_key_group_has_member<T: TextKeyed>(s: Seq<T>, i: int)
    requires
        0 <= i < s.len(),
    ensures
        with_key(s, s[i].sort_key()).contains(s[i]),
{
    s.lemma_filter_contains(key_is::<T>(s[i].sort_key()), i);
}

/// A list sorted by key is determined by the items of each key in order.
proof fn lemma_sorted_by_groups<T: TextKeyed>(a: Seq<T>, b: Seq<T>)
    requires
        keys_sorted(a),
        keys_sorted(b),
        forall|k: Seq<char>| #[trigger] with_key(a, k) == with_key(b, k),
    ensures
        a == b,
    decreases a.len() + b.len(),
{
    reveal(Seq::filter);
    if a.len() == 0 || b.len() == 0 {
        if a.len() > 0 {
            lemma_key_group_has_member(a, 0);
            assert(with_key(b, a[0].sort_key()) =~= Seq::<T>::empty());
        } else if b.len() > 0 {
            lemma_key_group_has_member(b, 0);
            assert(with_key(a, b[0].sort_key()) =~= Seq::<T>::empty());
        } else {
            assert(a =~= b);
        }
    } else {
        let x = a.last();
        let y = b.last();
        let kx = x.sort_key();
        let ky = y.sort_key();
        lemma_key_group_has_member(a, a.len() - 1);
        lemma_key_group_has_member(b, b.len() - 1);
        assert(with_key(a, kx) == with_key(b, kx));
        assert(with_key(a, ky) == with_key(b, ky));
        b.lemma_filter_contains_rev(key_is::<T>(kx), x);
        a.lemma_filter_contains_rev(key_is::<T>(ky), y);
        let j = choose|j: int| 0 <= j < b.len() && b[j] == x;
        let m = choose|m: int| 0 <= m < a.len() && a[m] == y;
        if j < b.len() - 1 {
            assert(text_le(b[j].sort_key(), b[b.len() - 1].sort_key()));
        }
        if m < a.len() - 1 {
            assert(text_le(a[m].sort_key(), a[a.len() - 1].sort_key()));
        }
        lemma_text_lt_total(kx, ky);
        assert(kx == ky);
        let a0 = a.drop_last();
        let b0 = b.drop_last();
        assert(a0.push(x) =~= a);
        assert(b0.push(y) =~= b);
        a0.lemma_filter_push(x, key_is::<T>(kx));
        b0.lemma_filter_push(y, key_is::<T>(kx));
        let ga = with_key(a0, kx);
        let gb = with_key(b0, kx);
        assert(ga.push(x) == gb.push(y));
        assert(ga.push(x).last() == x);
        assert(gb.push(y).last() == y);
        assert(x == y);
        assert(ga.push(x).drop_last() =~= ga);
        assert(gb.push(y).drop_last() =~= gb);
        assert(ga == gb);
        assert forall|k: Seq<char>| #[trigger] with_key(a0, k) == with_key(b0, k) by {
            if k != kx {
                assert(with_key(a, k) == with_key(b, k));
                a0.lemma_filter_push(x, key_is::<T>(k));
                b0.lemma_filter_push(y, key_is::<T>(k));
            }
        }
        assert(keys_sorted(a0));
        assert(keys_sorted(b0));
        lemma_sorted_by_groups(a0, b0);
    }
}

/// Sorting forgets how a list was arranged: two lists that hold the same
/// items of each key, in the same order within each key, sort to the same
/// list.
pub proof fn lemma_sort_forgets_arrangement<T: TextKeyed>(a: Seq<T>, b: Seq<T>, sorted_a: Seq<T>, sorted_b: Seq<T>)
    requires
        forall|k: Seq<char>| #[trigger] with_key(a, k) == with_key(b, k),
        keys_sorted(sorted_a),
        forall|k: Seq<char>| #[trigger] with_key(sorted_a, k) == with_key(a, k),
        keys_sorted(sorted_b),
        forall|k: Seq<char>| #[trigger] with_key(sorted_b, k) == with_key(b, k),
    ensures
        sorted_a == sorted_b,
{
    assert forall|k: Seq<char>| #[trigger] with_key(sorted_a, k) == with_key(sorted_b, k) by {
        assert(with_key(sorted_a, k) == with_key(a, k));
        assert(with_key(sorted_b, k) == with_key(b, k));
        assert(with_key(a, k) == with_key(b, k));
    }
    lemma_sorted_by_groups(sorted_a, sorted_b);
}

/// Whether no two items share a key.
pub open spec fn distinct_keys<T: TextKeyed>(s: Seq<T>) -> bool {
    forall|i: int, j: int| 0 <= i < j < s.len() ==> #[trigger] s[i].sort_key() != #[trigger] s[j].sort_key()
}

proof fn lemma_key_group_of_distinct<T: TextKeyed>(s: Seq<T>, k: Seq<char>)
    requires
        distinct_keys(s),
    ensures
        (exists|i: int| 0 <= i < s.len() && s[i].sort_key() == k) ==> with_key(s, k) == seq![
            s[choose|i: int| 0 <= i < s.len() && s[i].sort_key() == k],
        ],
        !(exists|i: int| 0 <= i < s.len() && s[i].sort_key() == k) ==> with_key(s, k) == Seq::<T>::empty(),
{
    let pred = key_is::<T>(k);
    if exists|i: int| 0 <= i < s.len() && s[i].sort_key() == k {
        let i = choose|i: int| 0 <= i < s.len() && s[i].sort_key() == k;
        let front = s.take(i);
        let back = s.skip(i + 1);
        assert(s =~= front + (seq![s[i]] + back));
        assert forall|m: int| 0 <= m < front.len() implies !pred(#[trigger] front[m]) by {
            assert(front[m] == s[m]);
        }
        assert forall|m: int| 0 <= m < back.len() implies !pred(#[trigger] back[m]) by {
            assert(back[m] == s[i + 1 + m]);
        }
        lemma_filter_none(front, pred);
        lemma_filter_none(back, pred);
        Seq::filter_distributes_over_add(front, seq![s[i]] + back, pred);
        back.lemma_filter_prepend(s[i], pred);
        assert(with_key(s, k) =~= seq![s[i]]);
    } else {
        assert forall|m: int| 0 <= m < s.len() implies !pred(#[trigger] s[m]) by {}
        lemma_filter_none(s, pred);
    }
}

/// Two lists that hold the same items, each under distinct keys, sort to
/// the same list whatever their arrangement.
pub proof fn lemma_distinct_keys_sort_alike<T: TextKeyed>(a: Seq<T>, b: Seq<T>, sorted_a: Seq<T>, sorted_b: Seq<T>)
    requires
        distinct_keys(a),
        distinct_keys(b),
        forall|x: T| a.contains(x) <==> b.contains(x),
        keys_sorted(sorted_a),
        forall|k: Seq<char>| #[trigger] with_key(sorted_a, k) == with_key(a, k),
        keys_sorted(sorted_b),
        forall|k: Seq<char>| #[trigger] with_key(sorted_b, k) == with_key(b, k),
    ensures
        sorted_a == sorted_b,
{
    assert forall|k: Seq<char>| #[trigger] with_key(a, k) == with_key(b, k) by {
        lemma_key_group_of_distinct(a, k);
        lemma_key_group_of_distinct(b, k);
        if exists|i: int| 0 <= i < a.len() && a[i].sort_key() == k {
            let i = choose|i: int| 0 <= i < a.len() && a[i].sort_key() == k;
            assert(a.contains(a[i]));
            assert(b.contains(a[i]));
            let j = choose|j: int| 0 <= j < b.len() && b[j] == a[i];
            assert(b[j].sort_key() == k);
            let j2 = choose|j: int| 0 <= j < b.len() && b[j].sort_key() == k;
            if j2 != j {
                if j < j2 {
                    assert(b[j].sort_key() != b[j2].sort_key());
                } else {
                    assert(b[j2].sort_key() != b[j].sort_key());
                }
            }
        } else if exists|j: int| 0 <= j < b.len() && b[j].sort_key() == k {
            let j = choose|j: int| 0 <= j < b.len() && b[j].sort_key() == k;
            assert(b.contains(b[j]));
            assert(a.contains(b[j]));
            let i = choose|i: int| 0 <= i < a.len() && a[i] == b[j];
            assert(a[i].sort_key() == k);
        }
    }
    lemma_sort_forgets_arrangement(a, b, sorted_a, sorted_b);
}

/// The lowercase hexadecimal digit of a value below 16.
pub open spec fn hex_digit(d: u8) -> char {
    if d < 10 {
        (d + 48) as char
    } else {
        (d + 87) as char
    }
}

/// Each byte as two lowercase hexadecimal digits, most significant first.
pub open spec fn lower_hex(bytes: Seq<u8>) -> Seq<char>
    decreases bytes.len(),
{
    if bytes.len() == 0 {
        Seq::empty()
    } else {
        lower_hex(bytes.drop_last()) + seq![
            hex_digit(bytes.last() / 16),
            hex_digit(bytes.last() % 16),
        ]
    }
}

fn hex_char(d: u8) -> (c: char)
    requires
        d < 16,
    ensures
        c == hex_digit(d),
{
    if d < 10 {
        (d + 48) as char
    } else {
        (d + 87) as char
    }
}

/// The hex text of a byte string has two digits per byte.
pub proof fn lemma_lower_hex_len(bytes: Seq<u8>)
    ensures
        lower_hex(bytes).len() == 2 * bytes.len(),
    decreases bytes.len(),
{
    if bytes.len() > 0 {
        lemma_lower_hex_len(bytes.drop_last());
    }
}

/// Whether every character is a lowercase hexadecimal digit.
pub open spec fn all_lower_hex_digits(s: Seq<char>) -> bool {
    forall|i: int| 0 <= i < s.len() ==> (('0' <= #[trigger] s[i] && s[i] <= '9') || ('a' <= s[i] && s[i] <= 'f'))
}

/// The hex text holds only lowercase hexadecimal digits.
pub proof fn lemma_lower_hex_digits(bytes: Seq<u8>)
    ensures
        all_lower_hex_digits(lower_hex(bytes)),
    decreases bytes.len(),
{
    if bytes.len() > 0 {
        lemma_lower_hex_digits(bytes.drop_last());
        let prev = lower_hex(bytes.drop_last());
        let tail = seq![hex_digit(bytes.last() / 16), hex_digit(bytes.last() % 16)];
        assert forall|i: int| 0 <= i < lower_hex(bytes).len() implies (('0' <= #[trigger] lower_hex(bytes)[i]
            && lower_hex(bytes)[i] <= '9') || ('a' <= lower_hex(bytes)[i] && lower_hex(bytes)[i] <= 'f')) by {
            if i < prev.len() {
                assert(lower_hex(bytes)[i] == prev[i]);
            } else {
                assert(lower_hex(bytes)[i] == tail[i - prev.len()]);
            }
        }
    }
}

/// Render bytes as lowercase hexadecimal, two digits per byte.
pub fn to_lower_hex(bytes: &[u8]) -> (r: String)
    ensures
        r@ == lower_hex(bytes@),
{
    let mut r = String::new();
    let mut i: usize = 0;
    while i < bytes.len()
        invariant
            i <= bytes.len(),
            r@ == lower_hex(bytes@.take(i as int)),
        decreases bytes.len() - i,
    {
        let b = bytes[i];
        let hi = hex_char(b / 16);
        let lo = hex_char(b % 16);
        crate::text::push_char(&mut r, hi);
        crate::text::push_char(&mut r, lo);
        proof {
            assert(bytes@.take(i + 1).drop_last() == bytes@.take(i as int));
            assert(bytes@.take(i + 1).last() == b);
        }
        i = i + 1;
    }
    assert(bytes@.take(bytes.len() as int) == bytes@);
    r
}

/// Whether `sorted` is `items` as `sort_by_key_text` sorts them: keys never
/// decrease, and the items of each key keep their order.
pub open spec fn sorted_form<T: TextKeyed>(items: Seq<T>, sorted: Seq<T>) -> bool {
    &&& keys_sorted(sorted)
    &&& forall|k: Seq<char>| #[trigger] with_key(sorted, k) == with_key(items, k)
}

/// Whether two lists hold the same items, each list under distinct keys.
pub open spec fn same_distinct_items<T: TextKeyed>(a: Seq<T>, b: Seq<T>) -> bool {
    &&& distinct_keys(a)
    &&& distinct_keys(b)
    &&& forall|x: T| a.contains(x) <==> b.contains(x)
}

/// A surface's digest does not depend on the order in which its lists came:
/// two surfaces that list the same tools, resources, resource templates and
/// prompts, each list under distinct keys, have their lists sorted to the
/// same canonical form, so whatever encoding turns the sorted lists into the
/// canonical bytes, their digests are equal.
pub proof fn lemma_surface_digest_ignores_order<A: TextKeyed, B: TextKeyed, C: TextKeyed, D: TextKeyed>(
    tools: (Seq<A>, Seq<A>),
    resources: (Seq<B>, Seq<B>),
    templates: (Seq<C>, Seq<C>),
    prompts: (Seq<D>, Seq<D>),
    sorted_a: (Seq<A>, Seq<B>, Seq<C>, Seq<D>),
    sorted_b: (Seq<A>, Seq<B>, Seq<C>, Seq<D>),
    encode: spec_fn(Seq<A>, Seq<B>, Seq<C>, Seq<D>) -> Seq<u8>,
)
    requires
        same_distinct_items(tools.0, tools.1),
        same_distinct_items(resources.0, resources.1),
        same_distinct_items(templates.0, templates.1),
        same_distinct_items(prompts.0, prompts.1),
        sorted_form(tools.0, sorted_a.0),
        sorted_form(resources.0, sorted_a.1),
        sorted_form(templates.0, sorted_a.2),
        sorted_form(prompts.0, sorted_a.3),
        sorted_form(tools.1, sorted_b.0),
        sorted_form(resources.1, sorted_b.1),
        sorted_form(templates.1, sorted_b.2),
        sorted_form(prompts.1, sorted_b.3),
    ensures
        sorted_a == sorted_b,
        lower_hex(sha256(encode(sorted_a.0, sorted_a.1, sorted_a.2, sorted_a.3))) == lower_hex(
            sha256(encode(sorted_b.0, sorted_b.1, sorted_b.2, sorted_b.3)),
        ),
{
    lemma_distinct_keys_sort_alike(tools.0, tools.1, sorted_a.0, sorted_b.0);
    lemma_distinct_keys_sort_alike(resources.0, resources.1, sorted_a.1, sorted_b.1);
    lemma_distinct_keys_sort_alike(templates.0, templates.1, sorted_a.2, sorted_b.2);
    lemma_distinct_keys_sort_alike(prompts.0, prompts.1, sorted_a.3, sorted_b.3);
}

/// The fingerprint of an API surface from its canonical JSON bytes (the
/// surface with its lists sorted by `sort_by_key_text`): the SHA-256 digest
/// in lowercase hex.
pub fn surface_digest(canonical_json: &[u8]) -> (r: String)
    ensures
        r@ == lower_hex(sha256(canonical_json@)),
        r@.len() == 64,
        all_lower_hex_digits(r@),
{
    let digest = sha256_digest(canonical_json);
    proof {
        lemma_lower_hex_len(digest@);
        lemma_lower_hex_digits(digest@);
    }
    to_lower_hex(digest.as_slice())
}

} // verus!
