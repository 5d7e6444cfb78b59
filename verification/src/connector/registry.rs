//! A map from addresses to listeners, kept as a list of entries in which no
//! address occurs twice. The dispatcher holds its listeners in one.
use vstd::prelude::*;
use crate::pubkey::Pubkey;

verus! {

/// No address occurs in two entries.
pub open spec fn keys_unique<V>(s: Seq<(Pubkey, V)>) -> bool {
    forall|i: int, j: int|
        0 <= i < s.len() && 0 <= j < s.len() && #[trigger] s[i].0 == #[trigger] s[j].0 ==> i == j
}

/// Some entry holds address `k`.
pub open spec fn has_key<V>(s: Seq<(Pubkey, V)>, k: Pubkey) -> bool {
    exists|i: int| 0 <= i < s.len() && #[trigger] s[i].0 == k
}

/// The value of an entry that holds address `k`.
pub open spec fn value_of<V>(s: Seq<(Pubkey, V)>, k: Pubkey) -> V {
    s[choose|i: int| 0 <= i < s.len() && #[trigger] s[i].0 == k].1
}

/// The map the entries describe.
pub open spec fn map_of<V>(s: Seq<(Pubkey, V)>) -> Map<Pubkey, V> {
    Map::new(|k: Pubkey| has_key(s, k), |k: Pubkey| value_of(s, k))
}

/// With unique keys, the value the map gives for the address of entry `i` is
/// that entry's value.
proof fn lemma_value_at<V>(s: Seq<(Pubkey, V)>, i: int)
    requires
        keys_unique(s),
        0 <= i < s.len(),
    ensures
        has_key(s, s[i].0),
        value_of(s, s[i].0) == s[i].1,
{
    let k = s[i].0;
    assert(s[i].0 == k);
    let j = choose|j: int| 0 <= j < s.len() && #[trigger] s[j].0 == k;
    assert(s[j].0 == k);
}

/// The map of entries with unique keys agrees with each entry.
proof fn lemma_map_entries<V>(s: Seq<(Pubkey, V)>)
    requires
        keys_unique(s),
    ensures
        forall|i: int|
            0 <= i < s.len() ==> #[trigger] map_of(s).contains_key(s[i].0) && map_of(s)[s[i].0]
                == s[i].1,
{
    assert forall|i: int| 0 <= i < s.len() implies #[trigger] map_of(s).contains_key(s[i].0)
        && map_of(s)[s[i].0] == s[i].1 by {
        lemma_value_at(s, i);
    }
}

/// Two lists of entries with unique keys that hold the same entries describe
/// the same map.
proof fn lemma_same_entries<V>(a: Seq<(Pubkey, V)>, b: Seq<(Pubkey, V)>, m: Map<Pubkey, V>)
    requires
        keys_unique(a),
        forall|k: Pubkey| #[trigger] has_key(a, k) <==> m.contains_key(k),
        forall|i: int| 0 <= i < a.len() ==> m[#[trigger] a[i].0] == a[i].1,
        b == a,
    ensures
        map_of(b) == m,
{
    assert forall|k: Pubkey| #[trigger] map_of(a).contains_key(k) implies map_of(a)[k] == m[k] by {
        let i = choose|i: int| 0 <= i < a.len() && #[trigger] a[i].0 == k;
        lemma_value_at(a, i);
    }
    assert(map_of(a) =~= m);
}

/// Listeners keyed by address.
pub struct Registry<V> {
    entries: Vec<(Pubkey, V)>,
}

impl<V> Registry<V> {
    /// The entries, in the order they are held.
    pub closed spec fn entries(&self) -> Seq<(Pubkey, V)> {
        self.entries@
    }

    /// No address is held twice.
    pub open spec fn wf(&self) -> bool {
        keys_unique(self.entries())
    }

    /// The map from addresses to listeners.
    pub open spec fn view(&self) -> Map<Pubkey, V> {
        map_of(self.entries())
    }

    /// An empty registry.
    pub fn new() -> (r: Self)
        ensures
            r.wf(),
            r@ == Map::<Pubkey, V>::empty(),
    {
        let r = Registry { entries: Vec::new() };
        assert(r@ =~= Map::<Pubkey, V>::empty());
        r
    }

    /// The position of the entry that holds `k`.
    fn find(&self, k: &Pubkey) -> (r: Option<usize>)
        requires
            self.wf(),
        ensures
            match r {
                Some(i) => i < self.entries().len() && self.entries()[i as int].0 == *k,
                None => !has_key(self.entries(), *k),
            },
    {
        let mut i: usize = 0;
        while i < self.entries.len()
            invariant
                i <= self.entries@.len(),
                forall|j: int| 0 <= j < i ==> #[trigger] self.entries@[j].0 != *k,
            decreases self.entries@.len() - i,
        {
            if self.entries[i].0 == *k {
                return Some(i);
            }
            i = i + 1;
        }
        None
    }

    /// Whether a listener is held for `k`.
    pub fn contains_key(&self, k: &Pubkey) -> (r: bool)
        requires
            self.wf(),
        ensures
            r == self@.contains_key(*k),
    {
        self.find(k).is_some()
    }

    /// The listener held for `k`.
    pub fn get(&self, k: &Pubkey) -> (r: Option<&V>)
        requires
            self.wf(),
        ensures
            match r {
                Some(v) => self@.contains_key(*k) && *v == self@[*k],
                None => !self@.contains_key(*k),
            },
    {
        match self.find(k) {
            Some(i) => {
                proof {
                    lemma_value_at(self.entries(), i as int);
                }
                Some(&self.entries[i].1)
            },
            None => None,
        }
    }

    /// Holds `v` for `k`, in place of the listener held before, which is
    /// returned.
    pub fn insert(&mut self, k: Pubkey, v: V) -> (r: Option<V>)
        requires
            old(self).wf(),
        ensures
            final(self).wf(),
            final(self)@ == old(self)@.insert(k, v),
            match r {
                Some(p) => old(self)@.contains_key(k) && p == old(self)@[k],
                None => !old(self)@.contains_key(k),
            },
    {
        let ghost s0 = self.entries@;
        let ghost m = map_of(s0).insert(k, v);
        let found = self.find(&k);
        let r = match found {
            Some(i) => {
                proof {
                    lemma_value_at(s0, i as int);
                }
                let (_, p) = self.entries.remove(i);
                Some(p)
            },
            None => None,
        };
        let ghost s1 = self.entries@;
        proof {
            lemma_map_entries(s0);
            assert forall|a: int, b: int|
                0 <= a < s1.len() && 0 <= b < s1.len() && #[trigger] s1[a].0 == #[trigger] s1[b].0
                implies a == b by {
                match found {
                    Some(i) => {
                        let a0 = if a < i { a } else { a + 1 };
                        let b0 = if b < i { b } else { b + 1 };
                        assert(s1[a] == s0[a0]);
                        assert(s1[b] == s0[b0]);
                    },
                    None => {},
                }
            }
            assert forall|j: int| 0 <= j < s1.len() implies #[trigger] s1[j].0 != k by {
                match found {
                    Some(i) => {
                        let j0 = if j < i { j } else { j + 1 };
                        assert(s1[j] == s0[j0]);
                    },
                    None => {
                        assert(s1[j] == s0[j]);
                    },
                }
            }
        }
        self.entries.push((k, v));
        let ghost s2 = self.entries@;
        proof {
            assert(keys_unique(s2));
            assert forall|q: Pubkey| #[trigger] has_key(s2, q) <==> m.contains_key(q) by {
                if has_key(s2, q) {
                    let j = choose|j: int| 0 <= j < s2.len() && #[trigger] s2[j].0 == q;
                    if j < s1.len() {
                        match found {
                            Some(i) => {
                                let j0 = if j < i { j } else { j + 1 };
                                assert(s0[j0].0 == q);
                            },
                            None => {
                                assert(s0[j].0 == q);
                            },
                        }
                    }
                }
                if m.contains_key(q) && q != k {
                    let j = choose|j: int| 0 <= j < s0.len() && #[trigger] s0[j].0 == q;
                    match found {
                        Some(i) => {
                            assert(j != i);
                            let j1 = if j < i { j } else { j - 1 };
                            assert(s2[j1] == s0[j]);
                        },
                        None => {
                            assert(s2[j] == s0[j]);
                        },
                    }
                }
                if q == k {
                    assert(s2[s1.len() as int].0 == k);
                }
            }
            assert forall|j: int| 0 <= j < s2.len() implies m[#[trigger] s2[j].0] == s2[j].1 by {
                if j < s1.len() {
                    match found {
                        Some(i) => {
                            let j0 = if j < i { j } else { j + 1 };
                            assert(s2[j] == s0[j0]);
                        },
                        None => {
                            assert(s2[j] == s0[j]);
                        },
                    }
                }
            }
            lemma_same_entries(s2, self.entries@, m);
        }
        r
    }

    /// Drops the listener held for `k` and returns it with its address.
    pub fn remove(&mut self, k: &Pubkey) -> (r: Option<(Pubkey, V)>)
        requires
            old(self).wf(),
        ensures
            final(self).wf(),
            final(self)@ == old(self)@.remove(*k),
            match r {
                Some(p) => old(self)@.contains_key(*k) && p.0 == *k && p.1 == old(self)@[*k],
                None => !old(self)@.contains_key(*k),
            },
    {
        let ghost s0 = self.entries@;
        let ghost m = map_of(s0).remove(*k);
        match self.find(k) {
            Some(i) => {
                proof {
                    lemma_value_at(s0, i as int);
                    lemma_map_entries(s0);
                }
                let p = self.entries.remove(i);
                let ghost s1 = self.entries@;
                proof {
                    assert forall|a: int, b: int|
                        0 <= a < s1.len() && 0 <= b < s1.len() && #[trigger] s1[a].0
                            == #[trigger] s1[b].0 implies a == b by {
                        let a0 = if a < i { a } else { a + 1 };
                        let b0 = if b < i { b } else { b + 1 };
                        assert(s1[a] == s0[a0]);
                        assert(s1[b] == s0[b0]);
                    }
                    assert forall|q: Pubkey| #[trigger] has_key(s1, q) <==> m.contains_key(q) by {
                        if has_key(s1, q) {
                            let j = choose|j: int| 0 <= j < s1.len() && #[trigger] s1[j].0 == q;
                            let j0 = if j < i { j } else { j + 1 };
                            assert(s1[j] == s0[j0]);
                        }
                        if m.contains_key(q) {
                            let j = choose|j: int| 0 <= j < s0.len() && #[trigger] s0[j].0 == q;
                            assert(j != i);
                            let j1 = if j < i { j } else { j - 1 };
                            assert(s1[j1] == s0[j]);
                        }
                    }
                    assert forall|j: int| 0 <= j < s1.len() implies m[#[trigger] s1[j].0]
                        == s1[j].1 by {
                        let j0 = if j < i { j } else { j + 1 };
                        assert(s1[j] == s0[j0]);
                    }
                    lemma_same_entries(s1, self.entries@, m);
                }
                Some(p)
            },
            None => {
                proof {
                    assert(map_of(s0).remove(*k) =~= map_of(s0));
                }
                None
            },
        }
    }
}

} // verus!
