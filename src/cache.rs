//! The proxy cache: a map from target URL to proxy URL.
use vstd::prelude::*;

verus! {

/// Target URL to proxy URL, at most one proxy per target string.
pub struct ProxyCache {
    entries: Vec<(String, String)>,
}

/// `e` holds a pair whose target is `k`.
pub open spec fn has_key(e: Seq<(String, String)>, k: Seq<char>) -> bool {
    exists|i: int| 0 <= i < e.len() && (#[trigger] e[i]).0@ == k
}

/// No target appears twice in `e`.
pub open spec fn unique_keys(e: Seq<(String, String)>) -> bool {
    forall|i: int, j: int|
        0 <= i < e.len() && 0 <= j < e.len() && (#[trigger] e[i]).0@ == (#[trigger] e[j]).0@ ==> i == j
}

/// The pairs of `e` as a map of strings.
pub open spec fn map_of(e: Seq<(String, String)>) -> Map<Seq<char>, Seq<char>> {
    Map::new(
        |k: Seq<char>| has_key(e, k),
        |k: Seq<char>| e[choose|i: int| 0 <= i < e.len() && (#[trigger] e[i]).0@ == k].1@,
    )
}

/// Writing the pair at `g`, over the pair with the same target or after
/// the last one, inserts it into the map.
proof fn lemma_write_pair(
    before: Seq<(String, String)>,
    after: Seq<(String, String)>,
    g: int,
    k: Seq<char>,
    v: Seq<char>,
)
    requires
        unique_keys(before),
        unique_keys(after),
        0 <= g < after.len(),
        after[g].0@ == k,
        after[g].1@ == v,
        g < before.len() ==> before[g].0@ == k && after.len() == before.len(),
        g >= before.len() ==> g == before.len() && after.len() == before.len() + 1 && !has_key(before, k),
        forall|a: int| 0 <= a < before.len() && a != g ==> after[a] == before[a],
    ensures
        map_of(after) == map_of(before).insert(k, v),
{
    assert forall|key: Seq<char>| has_key(after, key) <==> (has_key(before, key) || key == k) by {
        if has_key(before, key) {
            let a = choose|a: int| 0 <= a < before.len() && (#[trigger] before[a]).0@ == key;
            if a != g {
                assert(after[a] == before[a]);
            }
            assert(after[a].0@ == key);
        }
        if has_key(after, key) && key != k {
            let a = choose|a: int| 0 <= a < after.len() && (#[trigger] after[a]).0@ == key;
            assert(a != g);
            assert(after[a] == before[a]);
            assert(before[a].0@ == key);
        }
        if key == k {
            assert(after[g].0@ == key);
        }
    }
    assert forall|key: Seq<char>| #[trigger] map_of(after).contains_key(key)
        implies map_of(after)[key] == map_of(before).insert(k, v)[key] by {
        let a = choose|a: int| 0 <= a < after.len() && (#[trigger] after[a]).0@ == key;
        if key == k {
            assert(a == g);
        } else {
            assert(after[a] == before[a]);
            let b = choose|b: int| 0 <= b < before.len() && (#[trigger] before[b]).0@ == key;
            assert(before[a].0@ == key);
            assert(a == b);
        }
    }
    assert(map_of(after) =~= map_of(before).insert(k, v));
}

fn find_key(entries: &Vec<(String, String)>, target: &String) -> (r: Option<usize>)
    ensures
        r is None ==> !has_key(entries@, target@),
        r matches Some(i) ==> i < entries@.len() && entries@[i as int].0@ == target@,
{
    let mut i: usize = 0;
    while i < entries.len()
        invariant
            0 <= i <= entries@.len(),
            forall|j: int| 0 <= j < i ==> (#[trigger] entries@[j]).0@ != target@,
        decreases entries@.len() - i,
    {
        if entries[i].0 == *target {
            return Some(i);
        }
        i = i + 1;
    }
    None
}

impl ProxyCache {
    /// No target appears twice.
    #[verifier::type_invariant]
    spec fn wf(&self) -> bool {
        unique_keys(self.entries@)
    }

    /// The cache as a map of strings.
    pub closed spec fn view(&self) -> Map<Seq<char>, Seq<char>> {
        map_of(self.entries@)
    }
    /// An empty cache.
    pub fn new() -> (r: Self)
        ensures
            r.view() == Map::<Seq<char>, Seq<char>>::empty(),
    {
        let r = ProxyCache { entries: Vec::new() };
        assert(r.view() =~= Map::<Seq<char>, Seq<char>>::empty());
        r
    }

    /// The proxy cached for `target`, if any.
    pub fn lookup(&self, target: &String) -> (r: Option<String>)
        ensures
            r is Some <==> self.view().contains_key(target@),
            r matches Some(p) ==> p@ == self.view()[target@],
    {
        proof {
            use_type_invariant(self);
        }
        match find_key(&self.entries, target) {
            Some(i) => {
                let ghost k = target@;
                assert(has_key(self.entries@, k));
                let ghost j = choose|j: int| 0 <= j < self.entries@.len() && (#[trigger] self.entries@[j]).0@ == k;
                assert(self.entries@[j].0@ == self.entries@[i as int].0@);
                Some(self.entries[i].1.clone())
            },
            None => None,
        }
    }

    /// Maps `target` to `proxy`, in place of what it was mapped to before.
    pub fn insert(&mut self, target: String, proxy: String)
        ensures
            final(self).view() == old(self).view().insert(target@, proxy@),
    {
        let ghost k = target@;
        let ghost v = proxy@;
        proof {
            use_type_invariant(&*self);
        }
        let mut entries: Vec<(String, String)> = Vec::new();
        std::mem::swap(&mut entries, &mut self.entries);
        let ghost before = entries@;
        match find_key(&entries, &target) {
            Some(i) => {
                entries.set(i, (target, proxy));
                assert forall|a: int, b: int|
                    0 <= a < entries@.len() && 0 <= b < entries@.len()
                        && (#[trigger] entries@[a]).0@ == (#[trigger] entries@[b]).0@ implies a == b by {
                    assert(before[a].0@ == entries@[a].0@ || a == i);
                    assert(before[b].0@ == entries@[b].0@ || b == i);
                    if a == i as int && b != i as int {
                        assert(before[b].0@ == before[i as int].0@);
                    } else if b == i as int && a != i as int {
                        assert(before[a].0@ == before[i as int].0@);
                    }
                }
                proof {
                    lemma_write_pair(before, entries@, i as int, k, v);
                }
            },
            None => {
                entries.push((target, proxy));
                let ghost n = before.len() as int;
                assert forall|a: int, b: int|
                    0 <= a < entries@.len() && 0 <= b < entries@.len()
                        && (#[trigger] entries@[a]).0@ == (#[trigger] entries@[b]).0@ implies a == b by {
                    if a < n && b == n {
                        assert(before[a].0@ == k);
                    } else if b < n && a == n {
                        assert(before[b].0@ == k);
                    } else if a < n && b < n {
                        assert(before[a] == entries@[a] && before[b] == entries@[b]);
                    }
                }
                proof {
                    lemma_write_pair(before, entries@, n, k, v);
                }
            },
        }
        self.entries = entries;
    }
    /// The pairs of the cache, each target once.
    pub fn pairs(&self) -> (r: Vec<(String, String)>)
        ensures
            unique_keys(r@),
            map_of(r@) == self@,
    {
        proof {
            use_type_invariant(self);
        }
        let mut out: Vec<(String, String)> = Vec::new();
        let mut i: usize = 0;
        while i < self.entries.len()
            invariant
                0 <= i <= self.entries@.len(),
                out@ == self.entries@.subrange(0, i as int),
            decreases self.entries@.len() - i,
        {
            let e = &self.entries[i];
            out.push((e.0.clone(), e.1.clone()));
            assert(out@ =~= self.entries@.subrange(0, i + 1));
            i = i + 1;
        }
        assert(out@ =~= self.entries@);
        out
    }

    /// A cache that maps each target of `pairs` to its proxy; where a target
    /// appears twice, the later pair wins.
    pub fn from_pairs(pairs: Vec<(String, String)>) -> (r: Self)
        ensures
            r@ == inserted(pairs@),
    {
        let mut c = ProxyCache::new();
        let mut i: usize = 0;
        while i < pairs.len()
            invariant
                0 <= i <= pairs@.len(),
                c@ == inserted(pairs@.subrange(0, i as int)),
            decreases pairs@.len() - i,
        {
            let e = &pairs[i];
            c.insert(e.0.clone(), e.1.clone());
            assert(pairs@.subrange(0, i + 1).drop_last() =~= pairs@.subrange(0, i as int));
            i = i + 1;
        }
        assert(pairs@.subrange(0, pairs@.len() as int) =~= pairs@);
        c
    }

    /// The cache held in the JSON text `b`; an empty cache where `b` is no
    /// JSON object of strings.
    pub fn from_json(b: &[u8]) -> (r: Self)
        ensures
            r@ == match json_string_map(b@) {
                Some(m) => m,
                None => Map::empty(),
            },
    {
        match decode_string_map(b) {
            Some(p) => {
                proof {
                    lemma_inserted_unique(p@);
                }
                ProxyCache::from_pairs(p)
            },
            None => ProxyCache::new(),
        }
    }

    /// The cache as pretty-printed JSON text.
    pub fn to_json(&self) -> (r: Option<Vec<u8>>)
        ensures
            r is Some,
            r matches Some(t) ==> t@ == json_of_string_map(self@),
    {
        let p = self.pairs();
        encode_string_map(&p)
    }
}

/// The map that inserting the pairs of `p` in order builds from empty.
pub open spec fn inserted(p: Seq<(String, String)>) -> Map<Seq<char>, Seq<char>>
    decreases p.len(),
{
    if p.len() == 0 {
        Map::empty()
    } else {
        inserted(p.drop_last()).insert(p.last().0@, p.last().1@)
    }
}

/// The map of strings that `serde_json` decodes from `b` as a JSON object
/// whose values are all strings; `None` where `b` is no such object.
pub uninterp spec fn json_string_map(b: Seq<u8>) -> Option<Map<Seq<char>, Seq<char>>>;

/// The pretty-printed JSON text that `serde_json` writes for a map of strings.
pub uninterp spec fn json_of_string_map(m: Map<Seq<char>, Seq<char>>) -> Seq<u8>;

/// Relies on `serde_json::from_slice` into a `HashMap<String, String>`: the
/// decoded map depends on the bytes alone; its pairs are handed out in the
/// map's own order, each key once.
#[verifier::external_body]
fn decode_string_map(b: &[u8]) -> (r: Option<Vec<(String, String)>>)
    ensures
        r is None <==> json_string_map(b@) is None,
        r matches Some(p) ==> unique_keys(p@) && json_string_map(b@) == Some(map_of(p@)),
{
    serde_json::from_slice::<std::collections::HashMap<String, String>>(b).ok().map(|m| m.into_iter().collect())
}

/// Relies on `serde_json::to_vec_pretty` of a `BTreeMap<String, String>`:
/// the text depends on the map alone, and it fails only where a `Serialize`
/// impl fails or a map key is no string, neither of which a map of strings has.
#[verifier::external_body]
fn encode_string_map(pairs: &Vec<(String, String)>) -> (r: Option<Vec<u8>>)
    requires
        unique_keys(pairs@),
    ensures
        r is Some,
        r matches Some(t) ==> t@ == json_of_string_map(map_of(pairs@)),
{
    let m: std::collections::BTreeMap<String, String> = pairs.iter().cloned().collect();
    serde_json::to_vec_pretty(&m).ok()
}

/// Pairs with distinct targets build the same map inserted in order as read
/// as a whole.
proof fn lemma_inserted_unique(p: Seq<(String, String)>)
    requires
        unique_keys(p),
    ensures
        inserted(p) == map_of(p),
    decreases p.len(),
{
    if p.len() == 0 {
        assert(map_of(p) =~= Map::<Seq<char>, Seq<char>>::empty());
    } else {
        let q = p.drop_last();
        let g = p.len() - 1;
        assert forall|i: int, j: int|
            0 <= i < q.len() && 0 <= j < q.len() && (#[trigger] q[i]).0@ == (#[trigger] q[j]).0@ implies i == j by {
            assert(p[i] == q[i] && p[j] == q[j]);
        }
        lemma_inserted_unique(q);
        if has_key(q, p[g].0@) {
            let a = choose|a: int| 0 <= a < q.len() && (#[trigger] q[a]).0@ == p[g].0@;
            assert(p[a] == q[a]);
        }
        lemma_write_pair(q, p, g, p[g].0@, p[g].1@);
    }
}

/// Once `target -> proxy` is saved, loading the cache finds `proxy` for
/// `target`; saving the same pair again leaves the cache as it was.
pub proof fn lemma_save_then_load(
    c0: ProxyCache,
    c1: ProxyCache,
    c2: ProxyCache,
    target: Seq<char>,
    proxy: Seq<char>,
)
    requires
        c1@ == c0@.insert(target, proxy),
        c2@ == c1@.insert(target, proxy),
    ensures
        c1@.contains_key(target),
        c1@[target] == proxy,
        c2@ == c1@,
{
    assert(c2@ =~= c1@);
}

} // verus!
