//! Which CA certificate the discovery client trusts.
use vstd::prelude::*;
use vstd::string::StrSliceExecFns;

verus! {

/// `p` occurs in `s` at `i`.
pub open spec fn occurs_at(s: Seq<char>, p: Seq<char>, i: int) -> bool {
    0 <= i && i + p.len() <= s.len() && s.subrange(i, i + p.len()) == p
}

/// `p` occurs somewhere in `s`.
pub open spec fn occurs_in(s: Seq<char>, p: Seq<char>) -> bool {
    exists|i: int| occurs_at(s, p, i)
}

fn chars_of(s: &str) -> (r: Vec<char>)
    ensures
        r@ == s@,
{
    let n = s.unicode_len();
    let mut r: Vec<char> = Vec::new();
    let mut i: usize = 0;
    while i < n
        invariant
            n == s@.len(),
            0 <= i <= n,
            r@ == s@.subrange(0, i as int),
        decreases n - i,
    {
        r.push(s.get_char(i));
        assert(r@ =~= s@.subrange(0, i + 1));
        i = i + 1;
    }
    assert(r@ =~= s@);
    r
}

/// Tells whether `p` occurs in `s`.
pub fn contains_text(s: &str, p: &str) -> (r: bool)
    ensures
        r == occurs_in(s@, p@),
{
    let sv = chars_of(s);
    let pv = chars_of(p);
    let n = sv.len();
    let m = pv.len();
    if m > n {
        assert forall|i: int| !occurs_at(s@, p@, i) by {}
        return false;
    }
    let mut i: usize = 0;
    while i <= n - m
        invariant
            sv@ == s@,
            pv@ == p@,
            n == s@.len(),
            m == p@.len(),
            m <= n,
            0 <= i <= n - m + 1,
            forall|k: int| 0 <= k < i ==> !occurs_at(s@, p@, k),
        decreases n - m + 1 - i,
    {
        let mut j: usize = 0;
        while j < m && sv[i + j] == pv[j]
            invariant
                sv@ == s@,
                pv@ == p@,
                n == s@.len(),
                m == p@.len(),
                i + m <= n,
                0 <= j <= m,
                forall|l: int| 0 <= l < j ==> sv@[i + l] == pv@[l],
            decreases m - j,
        {
            j = j + 1;
        }
        if j == m {
            assert(s@.subrange(i as int, i + m) =~= p@);
            assert(occurs_at(s@, p@, i as int));
            return true;
        }
        assert(s@.subrange(i as int, i + m)[j as int] != p@[j as int]);
        i = i + 1;
    }
    assert forall|k: int| !occurs_at(s@, p@, k) by {
        if 0 <= k && k + m <= n {
            assert(k < i);
        }
    }
    false
}

/// The text that marks an embedded certificate as missing.
pub const CA_PLACEHOLDER_MARK: &'static str = "__CA_CERT_PLACEHOLDER__";

/// The CA certificate to trust: the embedded one, unless it holds the
/// placeholder mark, in which case the one read from the configured path.
pub open spec fn ca_pem_spec(embedded: Seq<char>, mark: Seq<char>, from_path: Option<Seq<char>>) -> Option<Seq<char>> {
    if occurs_in(embedded, mark) {
        from_path
    } else {
        Some(embedded)
    }
}

/// Resolves the CA certificate to trust from the embedded text and, where
/// that is only a placeholder, the certificate read from the configured path.
pub fn resolve_ca_pem(embedded: &str, from_path: Option<String>) -> (r: Option<String>)
    ensures
        crate::discover::opt_view(r) == ca_pem_spec(
            embedded@,
            CA_PLACEHOLDER_MARK@,
            crate::discover::opt_view(from_path),
        ),
{
    if contains_text(embedded, CA_PLACEHOLDER_MARK) {
        from_path
    } else {
        Some(embedded.to_string())
    }
}

} // verus!
