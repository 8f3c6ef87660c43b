//! The serve adapter: the listener's address and the one structural
//! normalization that is applied to the route surface before it is served.

use tower::Layer;
use tower_http::normalize_path::{NormalizePath, NormalizePathLayer};
use vstd::prelude::*;
use vstd::string::*;

verus! {

/// Where the listener attaches.
#[derive(Debug, PartialEq, Eq)]
pub struct ServeParams {
    /// The port to listen on.
    pub port: u16,
    /// The host name or address to bind to.
    pub binding: String,
}

/// The character that stands for the decimal digit `d`.
pub open spec fn digit(d: nat) -> char
    recommends
        d < 10,
{
    if d == 0 {
        '0'
    } else if d == 1 {
        '1'
    } else if d == 2 {
        '2'
    } else if d == 3 {
        '3'
    } else if d == 4 {
        '4'
    } else if d == 5 {
        '5'
    } else if d == 6 {
        '6'
    } else if d == 7 {
        '7'
    } else if d == 8 {
        '8'
    } else {
        '9'
    }
}

/// The decimal numeral of `n`, most significant digit first, without
/// leading zeros.
pub open spec fn decimal(n: nat) -> Seq<char>
    decreases n,
{
    if n < 10 {
        seq![digit(n)]
    } else {
        decimal(n / 10).push(digit(n % 10))
    }
}

/// The text that a listener is bound to: host, a colon, the port in decimal.
pub open spec fn bind_address(binding: Seq<char>, port: nat) -> Seq<char> {
    binding + seq![':'] + decimal(port)
}

fn digit_str(d: u16) -> (s: &'static str)
    requires
        d < 10,
    ensures
        s@ == seq![digit(d as nat)],
{
    proof {
        reveal_strlit("0");
        reveal_strlit("1");
        reveal_strlit("2");
        reveal_strlit("3");
        reveal_strlit("4");
        reveal_strlit("5");
        reveal_strlit("6");
        reveal_strlit("7");
        reveal_strlit("8");
        reveal_strlit("9");
    }
    let s: &'static str = match d {
        0 => "0",
        1 => "1",
        2 => "2",
        3 => "3",
        4 => "4",
        5 => "5",
        6 => "6",
        7 => "7",
        8 => "8",
        _ => "9",
    };
    assert(s@ =~= seq![digit(d as nat)]);
    s
}

fn push_decimal(out: &mut String, n: u16)
    ensures
        final(out)@ == old(out)@ + decimal(n as nat),
    decreases n,
{
    if n >= 10 {
        push_decimal(out, n / 10);
    }
    out.append(digit_str(n % 10));
    assert(out@ =~= old(out)@ + decimal(n as nat));
}

impl ServeParams {
    /// The address handed to the listener.
    pub fn address(&self) -> (a: String)
        ensures
            a@ == bind_address(self.binding@, self.port as nat),
    {
        let mut a = self.binding.clone();
        proof {
            reveal_strlit(":");
        }
        a.append(":");
        push_decimal(&mut a, self.port);
        assert(a@ =~= bind_address(self.binding@, self.port as nat));
        a
    }
}

impl Clone for ServeParams {
    fn clone(&self) -> (c: Self)
        ensures
            c == *self,
    {
        ServeParams { port: self.port, binding: self.binding.clone() }
    }
}

/// The first index at or after `i` at which `s` holds no slash, or the
/// length of `s` where slashes run to its end.
pub open spec fn skip_slashes(s: Seq<char>, i: int) -> int
    decreases s.len() - i,
{
    if 0 <= i < s.len() && s[i] == '/' {
        skip_slashes(s, i + 1)
    } else {
        i
    }
}

/// The least end, not below `lo`, such that `s` holds only slashes from
/// there up to `j`.
pub open spec fn drop_slashes(s: Seq<char>, lo: int, j: int) -> int
    decreases j,
{
    if 0 <= lo < j <= s.len() && s[j - 1] == '/' {
        drop_slashes(s, lo, j - 1)
    } else {
        j
    }
}

/// `s` without the slashes at its start and at its end.
pub open spec fn trim_slashes(s: Seq<char>) -> Seq<char> {
    let a = skip_slashes(s, 0);
    s.subrange(a, drop_slashes(s, a, s.len() as int))
}

/// A path is rewritten when it ends in a slash or starts with two.
pub open spec fn needs_normalizing(p: Seq<char>) -> bool {
    ||| (p.len() >= 1 && p[p.len() - 1] == '/')
    ||| (p.len() >= 2 && p[0] == '/' && p[1] == '/')
}

/// The path by which a request is routed: a path that ends in a slash or
/// starts with two becomes one slash followed by the path without its
/// leading and trailing slashes; any other path stays as it is.
pub open spec fn normalized_path(p: Seq<char>) -> Seq<char> {
    if needs_normalizing(p) {
        seq!['/'] + trim_slashes(p)
    } else {
        p
    }
}

/// Two request paths lead to the same routing decision.
pub open spec fn same_route(p: Seq<char>, q: Seq<char>) -> bool {
    normalized_path(p) == normalized_path(q)
}

/// `a..b` is the part of `s` between its leading and its trailing slashes.
pub open spec fn is_core(s: Seq<char>, a: int, b: int) -> bool {
    &&& 0 <= a <= b <= s.len()
    &&& forall|k: int| 0 <= k < a ==> s[k] == '/'
    &&& forall|k: int| b <= k < s.len() ==> s[k] == '/'
    &&& a < s.len() ==> s[a] != '/'
    &&& a < b ==> s[b - 1] != '/'
}

proof fn lemma_skip_slashes(s: Seq<char>, i: int, a: int)
    requires
        0 <= i <= a <= s.len(),
        forall|k: int| i <= k < a ==> s[k] == '/',
        a < s.len() ==> s[a] != '/',
    ensures
        skip_slashes(s, i) == a,
    decreases a - i,
{
    if i < a {
        lemma_skip_slashes(s, i + 1, a);
    }
}

proof fn lemma_drop_slashes(s: Seq<char>, lo: int, j: int, b: int)
    requires
        0 <= lo <= b <= j <= s.len(),
        forall|k: int| b <= k < j ==> s[k] == '/',
        lo < b ==> s[b - 1] != '/',
    ensures
        drop_slashes(s, lo, j) == b,
    decreases j - b,
{
    if b < j {
        lemma_drop_slashes(s, lo, j - 1, b);
    }
}

proof fn lemma_skip_slashes_bounds(s: Seq<char>, i: int)
    requires
        0 <= i <= s.len(),
    ensures
        i <= skip_slashes(s, i) <= s.len(),
        forall|k: int| i <= k < skip_slashes(s, i) ==> s[k] == '/',
        skip_slashes(s, i) < s.len() ==> s[skip_slashes(s, i)] != '/',
    decreases s.len() - i,
{
    if i < s.len() && s[i] == '/' {
        lemma_skip_slashes_bounds(s, i + 1);
    }
}

proof fn lemma_drop_slashes_bounds(s: Seq<char>, lo: int, j: int)
    requires
        0 <= lo <= j <= s.len(),
    ensures
        lo <= drop_slashes(s, lo, j) <= j,
        forall|k: int| drop_slashes(s, lo, j) <= k < j ==> s[k] == '/',
        lo < drop_slashes(s, lo, j) ==> s[drop_slashes(s, lo, j) - 1] != '/',
    decreases j,
{
    if lo < j && s[j - 1] == '/' {
        lemma_drop_slashes_bounds(s, lo, j - 1);
    }
}

/// Every path has exactly one core, and trimming cuts the path down to it.
pub proof fn lemma_trim_is_core(s: Seq<char>, a: int, b: int)
    requires
        is_core(s, a, b),
    ensures
        trim_slashes(s) == s.subrange(a, b),
{
    lemma_skip_slashes(s, 0, a);
    lemma_drop_slashes(s, a, s.len() as int, b);
}

/// The bounds that trimming cuts at form the core of the path.
pub proof fn lemma_core_exists(s: Seq<char>)
    ensures
        is_core(s, skip_slashes(s, 0), drop_slashes(s, skip_slashes(s, 0), s.len() as int)),
{
    lemma_skip_slashes_bounds(s, 0);
    lemma_drop_slashes_bounds(s, skip_slashes(s, 0), s.len() as int);
}

/// Normalizing is idempotent: a normalized path is routed as it stands.
pub proof fn law_normalization_idempotent(p: Seq<char>)
    ensures
        normalized_path(normalized_path(p)) == normalized_path(p),
{
    if needs_normalizing(p) {
        lemma_core_exists(p);
        let t = trim_slashes(p);
        let q = seq!['/'] + t;
        if t.len() == 0 {
            assert(is_core(q, 1, 1));
            lemma_trim_is_core(q, 1, 1);
            assert(seq!['/'] + q.subrange(1, 1) =~= q);
        } else {
            assert(q[q.len() - 1] == t[t.len() - 1]);
            assert(q[1] == t[0]);
            assert(!needs_normalizing(q));
        }
    }
}

/// A request path, which starts with a slash, is routed as the same path
/// with a slash appended.
pub proof fn law_trailing_slash_same_route(p: Seq<char>)
    requires
        p.len() >= 1,
        p[0] == '/',
    ensures
        same_route(p.push('/'), p),
{
    let q = p.push('/');
    lemma_core_exists(p);
    let a = skip_slashes(p, 0);
    let b = drop_slashes(p, a, p.len() as int);
    assert(q[q.len() - 1] == '/');
    if a == p.len() {
        assert(is_core(q, q.len() as int, q.len() as int));
        lemma_trim_is_core(q, q.len() as int, q.len() as int);
        assert(trim_slashes(q) =~= trim_slashes(p));
    } else {
        assert(is_core(q, a, b));
        lemma_trim_is_core(q, a, b);
        assert(q.subrange(a, b) =~= p.subrange(a, b));
        if !needs_normalizing(p) {
            assert(b == p.len());
            assert(a == 1);
            assert(seq!['/'] + p.subrange(1, p.len() as int) =~= p);
        }
    }
}

/// Normalizes a request path for routing.
pub fn normalize_path(path: &str) -> (out: String)
    ensures
        out@ == normalized_path(path@),
{
    let n: usize = path.unicode_len();
    // `lead` counts the slashes at the start; `end` is one past the last
    // character seen that is no slash, or 0 where none was seen.
    let mut lead: usize = 0;
    let mut end: usize = 0;
    let mut i: usize = 0;
    for c in it: path.chars()
        invariant
            it.seq() == path@,
            n == path@.len(),
            i == it.index(),
            i <= n,
            end <= i,
            lead <= i,
            end == 0 ==> lead == i,
            end > 0 ==> lead < end && path@[lead as int] != '/' && path@[end - 1] != '/',
            forall|k: int| 0 <= k < lead ==> path@[k] == '/',
            forall|k: int| end <= k < i ==> path@[k] == '/',
    {
        if c == '/' {
            if end == 0 {
                lead = i + 1;
            }
        } else {
            end = i + 1;
        }
        i = i + 1;
    }
    let stop: usize = if end == 0 { lead } else { end };
    proof {
        assert(is_core(path@, lead as int, stop as int));
        lemma_trim_is_core(path@, lead as int, stop as int);
    }
    if (n >= 1 && end < n) || lead >= 2 {
        proof {
            reveal_strlit("/");
            assert("/"@ =~= seq!['/']);
        }
        String::from_str("/").concat(path.substring_char(lead, stop))
    } else {
        path.to_owned()
    }
}

/// The service of `tower_http` that rewrites a request's path before the
/// service inside it sees the request. Its contents are not visible here.
#[verifier::external_type_specification]
#[verifier::external_body]
#[verifier::reject_recursive_types(S)]
pub struct ExNormalizePath<S>(NormalizePath<S>);

/// Calls `NormalizePathLayer::trim_trailing_slash().layer(inner)` of
/// `tower_http`. Nothing is claimed of the service that comes back.
#[verifier::external_body]
fn trim_trailing_slash_layer<S>(inner: S) -> NormalizePath<S> {
    NormalizePathLayer::trim_trailing_slash().layer(inner)
}

/// A route surface wrapped, as a whole, in the path normalization. Wrapping
/// the whole surface makes the normalization run before any routing
/// decision is taken inside it.
#[verifier::reject_recursive_types(S)]
pub struct Normalized<S> {
    service: NormalizePath<S>,
    inner: Ghost<S>,
}

impl<S> Normalized<S> {
    /// The surface that was wrapped.
    pub closed spec fn wrapped(&self) -> S {
        self.inner@
    }

    /// Wraps `surface` in the path normalization.
    pub fn wrap(surface: S) -> (n: Self)
        ensures
            n.wrapped() == surface,
    {
        let ghost inner = surface;
        Normalized { service: trim_trailing_slash_layer(surface), inner: Ghost(inner) }
    }

    /// The service that was built around the wrapped surface.
    pub closed spec fn service(&self) -> NormalizePath<S> {
        self.service
    }

    /// Hands out the service for the listener: the one that was built
    /// around the wrapped surface, and no other.
    pub fn into_service(self) -> (service: NormalizePath<S>)
        ensures
            service == self.service(),
    {
        self.service
    }
}

} // verus!
