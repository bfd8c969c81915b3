//! Where a turso connection URL points.

use vstd::prelude::*;
use vstd::string::StrSliceExecFns;

verus! {

/// `s` with `p` removed from its front as many times as it stands there
/// (what `str::trim_start_matches` does with a text pattern).
pub open spec fn trim_start_all(s: Seq<char>, p: Seq<char>) -> Seq<char>
    decreases s.len(),
{
    if 0 < p.len() <= s.len() && s.subrange(0, p.len() as int) == p {
        trim_start_all(s.subrange(p.len() as int, s.len() as int), p)
    } else {
        s
    }
}

/// The scheme a turso URL may start with.
pub open spec fn url_scheme() -> Seq<char> {
    "turso://"@
}

/// The path of the in-memory database.
pub open spec fn memory_path() -> Seq<char> {
    ":memory:"@
}

/// The database path a URL names: the URL without its leading schemes,
/// where nothing (or `:memory:`) means the in-memory database.
pub open spec fn database_path(url: Seq<char>) -> Seq<char> {
    let path = trim_start_all(url, url_scheme());
    if path.len() == 0 || path == memory_path() {
        memory_path()
    } else {
        path
    }
}

/// Whether `p` stands in `s` at character position `i`.
fn occurs_at(s: &str, n: usize, i: usize, p: &str, m: usize) -> (r: bool)
    requires
        n == s@.len(),
        m == p@.len(),
        i <= n,
    ensures
        r == (i + m <= n && s@.subrange(i as int, i + m) == p@),
{
    if m > n - i {
        return false;
    }
    let mut k: usize = 0;
    while k < m
        invariant
            n == s@.len(),
            m == p@.len(),
            i + m <= n,
            k <= m,
            forall|j: int| 0 <= j < k ==> s@[i + j] == p@[j],
        decreases m - k,
    {
        if s.get_char(i + k) != p.get_char(k) {
            assert(s@.subrange(i as int, i + m)[k as int] != p@[k as int]);
            return false;
        }
        k = k + 1;
    }
    assert(s@.subrange(i as int, i + m) =~= p@);
    true
}

/// The database path a URL names (see [`database_path`]).
pub fn local_path(url: &str) -> (r: String)
    ensures
        r@ == database_path(url@),
{
    let scheme = "turso://";
    let memory = ":memory:";
    let n = url.unicode_len();
    let m = scheme.unicode_len();
    proof {
        reveal_strlit("turso://");
    }
    let mut i: usize = 0;
    assert(url@.subrange(0, n as int) =~= url@);
    while occurs_at(url, n, i, scheme, m)
        invariant
            n == url@.len(),
            m == scheme@.len(),
            m == 8,
            scheme@ == url_scheme(),
            i <= n,
            trim_start_all(url@, url_scheme()) == trim_start_all(url@.subrange(i as int, n as int), url_scheme()),
        decreases n - i,
    {
        let ghost rest = url@.subrange(i as int, n as int);
        assert(rest.subrange(0, m as int) =~= url@.subrange(i as int, i + m));
        assert(rest.subrange(m as int, rest.len() as int) =~= url@.subrange(i + m, n as int));
        i = i + m;
    }
    proof {
        let rest = url@.subrange(i as int, n as int);
        if m <= rest.len() {
            assert(rest.subrange(0, m as int) =~= url@.subrange(i as int, i + m));
        }
        assert(trim_start_all(rest, url_scheme()) == rest);
    }
    let path = url.substring_char(i, n);
    let k = path.unicode_len();
    let is_memory = occurs_at(path, k, 0, memory, memory.unicode_len());
    proof {
        reveal_strlit(":memory:");
        if is_memory && k == 8 {
            assert(path@ =~= path@.subrange(0, 8));
        }
        if path@ == memory_path() {
            assert(path@.subrange(0, 8) =~= path@);
        }
    }
    if k == 0 || (is_memory && k == 8) {
        memory.to_owned()
    } else {
        path.to_owned()
    }
}

} // verus!
