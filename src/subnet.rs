//! The candidate addresses of a local /24 subnet and the hosts that answered.
use vstd::prelude::*;
use vstd::string::StrSliceExecFns;
use vstd::string::StringExecFns;

verus! {

/// The number of `.` in `s`.
pub open spec fn dots(s: Seq<char>) -> nat
    decreases s.len(),
{
    if s.len() == 0 {
        0
    } else {
        dots(s.drop_last()) + if s.last() == '.' { 1nat } else { 0nat }
    }
}

/// The index of the last `.` in `s`, or -1.
pub open spec fn last_dot(s: Seq<char>) -> int
    decreases s.len(),
{
    if s.len() == 0 {
        -1
    } else if s.last() == '.' {
        s.len() - 1
    } else {
        last_dot(s.drop_last())
    }
}

/// The first of the four parts of an address is `10`.
pub open spec fn in_ten_range(s: Seq<char>) -> bool {
    s.len() >= 3 && s[0] == '1' && s[1] == '0' && s[2] == '.'
}

/// An address is scanned when it has four parts and the first is not `10`.
pub open spec fn scannable(s: Seq<char>) -> bool {
    dots(s) == 3 && !in_ten_range(s)
}

/// The first three parts of an address, each followed by `.`.
pub open spec fn subnet_prefix(s: Seq<char>) -> Seq<char> {
    s.subrange(0, last_dot(s) + 1)
}

pub open spec fn digit(d: int) -> char {
    seq!['0', '1', '2', '3', '4', '5', '6', '7', '8', '9'][d]
}

/// The decimal digits of `n`.
pub open spec fn decimal(n: nat) -> Seq<char>
    decreases n,
{
    if n < 10 {
        seq![digit(n as int)]
    } else {
        decimal(n / 10) + seq![digit((n % 10) as int)]
    }
}

/// The last part of a host address in a /24 runs from 1 to 254.
pub const HOSTS_PER_SUBNET: usize = 254;

/// The addresses to probe for a local address `s`.
pub open spec fn scan_candidates(s: Seq<char>) -> Seq<Seq<char>> {
    if scannable(s) {
        Seq::new(HOSTS_PER_SUBNET as nat, |k: int| subnet_prefix(s) + decimal((k + 1) as nat))
    } else {
        Seq::empty()
    }
}

/// A local address in `10.x.x.x` gives no address to probe, whatever listens.
pub proof fn lemma_ten_range_not_scanned(s: Seq<char>)
    requires
        in_ten_range(s),
    ensures
        scan_candidates(s).len() == 0,
{
}

fn digit_str(d: usize) -> (r: &'static str)
    requires
        d < 10,
    ensures
        r@ == seq![digit(d as int)],
{
    let all = "0123456789";
    proof {
        reveal_strlit("0123456789");
    }
    let r = all.substring_char(d, d + 1);
    assert(r@ =~= seq![digit(d as int)]);
    r
}

/// The decimal digits of `n`, for `n` below 1000.
fn decimal_string(n: usize) -> (r: String)
    requires
        n < 1000,
    ensures
        r@ == decimal(n as nat),
{
    let mut r = String::new();
    if n >= 100 {
        r.append(digit_str(n / 100));
        r.append(digit_str((n / 10) % 10));
        assert((n / 10) / 10 == n / 100);
        assert(decimal((n / 100) as nat) == seq![digit((n / 100) as int)]);
        assert(decimal((n / 10) as nat) =~= decimal((n / 100) as nat) + seq![digit(((n / 10) % 10) as int)]);
        assert(r@ =~= decimal((n / 10) as nat));
    } else if n >= 10 {
        r.append(digit_str(n / 10));
        assert(r@ =~= decimal((n / 10) as nat));
    }
    assert(n >= 10 ==> r@ =~= decimal((n / 10) as nat));
    r.append(digit_str(n % 10));
    assert(r@ =~= decimal(n as nat));
    r
}

/// The addresses of the local /24 subnet to probe, in order from `.1` to
/// `.254`; none where the local address has not four parts, or where its
/// first part is `10`.
pub fn scan_targets(local_ip: &str) -> (r: Vec<String>)
    ensures
        r.deep_view() == scan_candidates(local_ip@),
{
    let n = local_ip.unicode_len();
    let mut count: usize = 0;
    let mut last: usize = 0;
    let mut seen_dot = false;
    let mut i: usize = 0;
    while i < n
        invariant
            n == local_ip@.len(),
            0 <= i <= n,
            count == dots(local_ip@.subrange(0, i as int)),
            count <= i,
            count > 0 ==> seen_dot,
            seen_dot ==> last < i && last as int == last_dot(local_ip@.subrange(0, i as int)),
            !seen_dot ==> last_dot(local_ip@.subrange(0, i as int)) == -1,
        decreases n - i,
    {
        let c = local_ip.get_char(i);
        assert(local_ip@.subrange(0, i + 1).drop_last() =~= local_ip@.subrange(0, i as int));
        if c == '.' {
            count = count + 1;
            last = i;
            seen_dot = true;
        }
        i = i + 1;
    }
    assert(local_ip@.subrange(0, n as int) =~= local_ip@);
    let mut out: Vec<String> = Vec::new();
    if count != 3 {
        return out;
    }
    if n >= 3 && local_ip.get_char(0) == '1' && local_ip.get_char(1) == '0' && local_ip.get_char(2) == '.' {
        return out;
    }
    let prefix = local_ip.substring_char(0, last + 1);
    let mut k: usize = 1;
    while k <= HOSTS_PER_SUBNET
        invariant
            1 <= k <= HOSTS_PER_SUBNET + 1,
            prefix@ == subnet_prefix(local_ip@),
            out@.len() == k - 1,
            forall|j: int| 0 <= j < k - 1 ==> out@[j]@ == subnet_prefix(local_ip@) + decimal((j + 1) as nat),
        decreases HOSTS_PER_SUBNET + 1 - k,
    {
        let mut a = String::from_str(prefix);
        a.append(decimal_string(k).as_str());
        out.push(a);
        k = k + 1;
    }
    assert(out.deep_view() =~= scan_candidates(local_ip@));
    out
}

/// The candidates whose probe succeeded, in candidate order: the candidate at
/// `i` is kept where `accepted` has `true` at `i`.
pub open spec fn kept(c: Seq<Seq<char>>, accepted: Seq<bool>, n: int) -> Seq<Seq<char>>
    decreases n,
{
    if n <= 0 {
        Seq::empty()
    } else {
        kept(c, accepted, n - 1) + if n - 1 < accepted.len() && accepted[n - 1] {
            seq![c[n - 1]]
        } else {
            Seq::empty()
        }
    }
}

/// The hosts that accepted the probe: `accepted[i]` is the outcome of the probe
/// of `candidates[i]`; a candidate without an outcome is left out.
pub fn accepted_hosts(candidates: &Vec<String>, accepted: &Vec<bool>) -> (r: Vec<String>)
    ensures
        r.deep_view() == kept(candidates.deep_view(), accepted@, candidates@.len() as int),
{
    let mut out: Vec<String> = Vec::new();
    let mut i: usize = 0;
    while i < candidates.len()
        invariant
            0 <= i <= candidates@.len(),
            out.deep_view() == kept(candidates.deep_view(), accepted@, i as int),
        decreases candidates@.len() - i,
    {
        if i < accepted.len() && accepted[i] {
            out.push(candidates[i].clone());
        }
        assert(out.deep_view() =~= kept(candidates.deep_view(), accepted@, i + 1));
        i = i + 1;
    }
    out
}

} // verus!
