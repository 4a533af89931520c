use vstd::prelude::*;
use crate::states::Address;

verus! {

/// Values keyed by address, each address at most once.
pub struct Table<V> {
    entries: Vec<(Address, V)>,
}

/// Whether no address occurs twice among `s`.
pub open spec fn keys_unique<V>(s: Seq<(Address, V)>) -> bool {
    forall|i: int, j: int| 0 <= i < s.len() && 0 <= j < s.len() && s[i].0 == s[j].0 ==> i == j
}

/// The value that `s` holds under `a`, if any.
pub open spec fn lookup<V>(s: Seq<(Address, V)>, a: Address) -> Option<V> {
    if exists|i: int| 0 <= i < s.len() && s[i].0 == a {
        Some(s[choose|i: int| 0 <= i < s.len() && s[i].0 == a].1)
    } else {
        None
    }
}

proof fn lemma_lookup_at<V>(s: Seq<(Address, V)>, i: int)
    requires
        keys_unique(s),
        0 <= i < s.len(),
    ensures
        lookup(s, s[i].0) == Some(s[i].1),
{
    let a = s[i].0;
    assert(exists|k: int| 0 <= k < s.len() && s[k].0 == a);
    let j = choose|k: int| 0 <= k < s.len() && s[k].0 == a;
    assert(j == i);
}

proof fn lemma_lookup_absent<V>(s: Seq<(Address, V)>, a: Address)
    requires
        forall|i: int| 0 <= i < s.len() ==> s[i].0 != a,
    ensures
        lookup(s, a) == None::<V>,
{
}

impl<V> View for Table<V> {
    type V = Map<Address, V>;

    closed spec fn view(&self) -> Map<Address, V> {
        Map::new(|a: Address| lookup(self.entries@, a) is Some, |a: Address| lookup(self.entries@, a)->Some_0)
    }
}

impl<V: Copy> Table<V> {
    pub closed spec fn wf(&self) -> bool {
        keys_unique(self.entries@)
    }

    pub fn new() -> (r: Table<V>)
        ensures
            r.wf(),
            r@ == Map::<Address, V>::empty(),
    {
        let r = Table { entries: Vec::new() };
        assert(r@ =~= Map::<Address, V>::empty());
        r
    }

    fn index_of(&self, a: &Address) -> (r: Option<usize>)
        requires
            self.wf(),
        ensures
            match r {
                Some(i) => i < self.entries@.len() && self.entries@[i as int].0 == *a,
                None => forall|i: int| 0 <= i < self.entries@.len() ==> self.entries@[i].0 != *a,
            },
    {
        let mut i: usize = 0;
        while i < self.entries.len()
            invariant
                i <= self.entries@.len(),
                forall|j: int| 0 <= j < i ==> self.entries@[j].0 != *a,
            decreases self.entries@.len() - i,
        {
            if self.entries[i].0.same_as(a) {
                return Some(i);
            }
            i = i + 1;
        }
        None
    }

    /// The value held under `a`, if any.
    pub fn get(&self, a: &Address) -> (r: Option<V>)
        requires
            self.wf(),
        ensures
            r == (if self@.contains_key(*a) { Some(self@[*a]) } else { None::<V> }),
    {
        match self.index_of(a) {
            Some(i) => {
                proof {
                    lemma_lookup_at(self.entries@, i as int);
                }
                Some(self.entries[i].1)
            },
            None => {
                proof {
                    lemma_lookup_absent(self.entries@, *a);
                }
                None
            },
        }
    }

    /// Holds `v` under `a`, in place of what was there.
    pub fn insert(&mut self, a: Address, v: V)
        requires
            old(self).wf(),
        ensures
            final(self).wf(),
            final(self)@ == old(self)@.insert(a, v),
    {
        let ghost before = self.entries@;
        match self.index_of(&a) {
            Some(i) => {
                self.entries.set(i, (a, v));
                let ghost after = self.entries@;
                assert forall|k: Address| #[trigger] lookup(after, k) == (if k == a { Some(v) } else { lookup(before, k) }) by {
                    if k == a {
                        lemma_lookup_at(after, i as int);
                    } else if exists|j: int| 0 <= j < before.len() && before[j].0 == k {
                        let j = choose|j: int| 0 <= j < before.len() && before[j].0 == k;
                        lemma_lookup_at(before, j);
                        lemma_lookup_at(after, j);
                    } else {
                        lemma_lookup_absent(before, k);
                        lemma_lookup_absent(after, k);
                    }
                }
            },
            None => {
                self.entries.push((a, v));
                let ghost after = self.entries@;
                assert forall|k: Address| #[trigger] lookup(after, k) == (if k == a { Some(v) } else { lookup(before, k) }) by {
                    if k == a {
                        lemma_lookup_at(after, before.len() as int);
                    } else if exists|j: int| 0 <= j < before.len() && before[j].0 == k {
                        let j = choose|j: int| 0 <= j < before.len() && before[j].0 == k;
                        lemma_lookup_at(before, j);
                        lemma_lookup_at(after, j);
                    } else {
                        lemma_lookup_absent(before, k);
                        lemma_lookup_absent(after, k);
                    }
                }
            },
        }
        assert(self@ =~= old(self)@.insert(a, v));
    }

    /// Drops what is held under `a`.
    pub fn remove(&mut self, a: &Address)
        requires
            old(self).wf(),
        ensures
            final(self).wf(),
            final(self)@ == old(self)@.remove(*a),
    {
        let ghost before = self.entries@;
        match self.index_of(a) {
            Some(i) => {
                self.entries.remove(i);
                let ghost after = self.entries@;
                assert(forall|j: int| 0 <= j < after.len() ==> #[trigger] after[j] == if j < i { before[j] } else { before[j + 1] });
                assert forall|k: Address| #[trigger] lookup(after, k) == (if k == *a { None } else { lookup(before, k) }) by {
                    if k == *a {
                        lemma_lookup_absent(after, k);
                    } else if exists|j: int| 0 <= j < before.len() && before[j].0 == k {
                        let j = choose|j: int| 0 <= j < before.len() && before[j].0 == k;
                        lemma_lookup_at(before, j);
                        if j < i {
                            lemma_lookup_at(after, j);
                        } else {
                            lemma_lookup_at(after, j - 1);
                        }
                    } else {
                        lemma_lookup_absent(before, k);
                        lemma_lookup_absent(after, k);
                    }
                }
            },
            None => {
                proof {
                    lemma_lookup_absent(before, *a);
                }
            },
        }
        assert(self@ =~= old(self)@.remove(*a));
    }
}

} // verus!
