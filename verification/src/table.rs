use crate::keys::Pubkey;
use vstd::prelude::*;

verus! {

/// Whether some slot of `s` carries the key `k`.
pub open spec fn entry_has_key<T>(s: Seq<(Pubkey, T)>, k: Seq<u8>) -> bool {
    exists|i: int| 0 <= i < s.len() && s[i].0@ == k
}

/// The index of the slot carrying `k`; meaningful only under
/// [`entry_has_key`] and [`distinct_keys`].
pub open spec fn entry_index_of<T>(s: Seq<(Pubkey, T)>, k: Seq<u8>) -> int {
    choose|i: int| 0 <= i < s.len() && s[i].0@ == k
}

/// Whether no two slots of `s` carry the same key.
pub open spec fn distinct_keys<T>(s: Seq<(Pubkey, T)>) -> bool {
    forall|i: int, j: int| 0 <= i < j < s.len() ==> s[i].0@ != s[j].0@
}

/// A key-addressed table of fixed-shape records: the model of one record
/// kind's slots in the durable store. Abstractly it is a finite map from
/// 32-byte identities to record contents.
pub struct RecordTable<T> {
    entries: Vec<(Pubkey, T)>,
}

impl<T: View> View for RecordTable<T> {
    type V = Map<Seq<u8>, T::V>;

    closed spec fn view(&self) -> Map<Seq<u8>, T::V> {
        Map::new(
            |k: Seq<u8>| entry_has_key(self.entries@, k),
            |k: Seq<u8>| self.entries@[entry_index_of(self.entries@, k)].1@,
        )
    }
}

/// Under distinct keys, the slot at `i` is the one and only slot its key
/// addresses.
proof fn lemma_entry_at<T>(s: Seq<(Pubkey, T)>, i: int)
    requires
        distinct_keys(s),
        0 <= i < s.len(),
    ensures
        entry_has_key(s, s[i].0@),
        entry_index_of(s, s[i].0@) == i,
{
    let k = s[i].0@;
    assert(entry_has_key(s, k));
    let j: int = entry_index_of(s, k);
    assert(0 <= j < s.len() && s[j].0@ == k);
    if j < i {
        assert(s[j].0@ != s[i].0@);
    } else if i < j {
        assert(s[i].0@ != s[j].0@);
    }
}

/// Removing the slot at `i` removes exactly its key from the table's
/// abstraction and leaves every other slot's content in place.
proof fn lemma_remove_entry<T: View>(s0: Seq<(Pubkey, T)>, i: int)
    requires
        distinct_keys(s0),
        0 <= i < s0.len(),
    ensures
        ({
            let s1 = s0.remove(i);
            let k = s0[i].0@;
            &&& distinct_keys(s1)
            &&& forall|x: Seq<u8>|
                #[trigger] entry_has_key(s1, x) <==> (entry_has_key(s0, x) && x != k)
            &&& forall|x: Seq<u8>|
                #[trigger] entry_has_key(s1, x) ==> s1[entry_index_of(s1, x)].1@ == s0[
                    entry_index_of(s0, x)
                ].1@
        }),
{
    let s1 = s0.remove(i);
    let k = s0[i].0@;
    s0.remove_ensures(i);
    assert forall|a: int, b: int| 0 <= a < b < s1.len() implies s1[a].0@ != s1[b].0@ by {
        let a0: int = if a < i {
            a
        } else {
            a + 1
        };
        let b0: int = if b < i {
            b
        } else {
            b + 1
        };
        assert(s1[a] == s0[a0]);
        assert(s1[b] == s0[b0]);
    }
    assert forall|x: Seq<u8>| #[trigger] entry_has_key(s1, x) implies entry_has_key(s0, x) && x
        != k by {
        let j: int = choose|j: int| 0 <= j < s1.len() && s1[j].0@ == x;
        let j0: int = if j < i {
            j
        } else {
            j + 1
        };
        assert(s1[j] == s0[j0]);
        assert(entry_has_key(s0, x));
        if x == k {
            if j0 < i {
                assert(s0[j0].0@ != s0[i].0@);
            } else {
                assert(s0[i].0@ != s0[j0].0@);
            }
        }
    }
    assert forall|x: Seq<u8>| entry_has_key(s0, x) && x != k implies #[trigger] entry_has_key(
        s1,
        x,
    ) by {
        let j0: int = choose|j: int| 0 <= j < s0.len() && s0[j].0@ == x;
        let j: int = if j0 < i {
            j0
        } else {
            j0 - 1
        };
        assert(s1[j] == s0[j0]);
        assert(entry_has_key(s1, x));
    }
    assert forall|x: Seq<u8>| #[trigger] entry_has_key(s1, x) implies s1[entry_index_of(
        s1,
        x,
    )].1@ == s0[entry_index_of(s0, x)].1@ by {
        let j: int = entry_index_of(s1, x);
        assert(0 <= j < s1.len() && s1[j].0@ == x);
        let j0: int = if j < i {
            j
        } else {
            j + 1
        };
        assert(s1[j] == s0[j0]);
        lemma_entry_at(s0, j0);
    }
}

impl<T: View> RecordTable<T> {
    /// The table is well formed when no two slots share a key.
    pub closed spec fn wf(&self) -> bool {
        distinct_keys(self.entries@)
    }

    /// An empty table: no record under any identity.
    pub fn new() -> (t: RecordTable<T>)
        ensures
            t.wf(),
            t@ == Map::<Seq<u8>, T::V>::empty(),
    {
        let t = RecordTable { entries: Vec::new() };
        proof {
            assert(t@ =~= Map::<Seq<u8>, T::V>::empty());
        }
        t
    }

    /// Look the key up and hand back the record stored under it, if any.
    pub fn get(&self, k: &Pubkey) -> (r: Option<&T>)
        requires
            self.wf(),
        ensures
            match r {
                Some(v) => self@.contains_key(k@) && v@ == self@[k@],
                None => !self@.contains_key(k@),
            },
    {
        let n = self.entries.len();
        let mut i: usize = 0;
        while i < n
            invariant
                n == self.entries.len(),
                i <= n,
                self.wf(),
                forall|j: int| 0 <= j < i ==> self.entries@[j].0@ != k@,
            decreases n - i,
        {
            if self.entries[i].0 == *k {
                proof {
                    lemma_entry_at(self.entries@, i as int);
                }
                return Some(&self.entries[i].1);
            }
            i = i + 1;
        }
        None
    }

    /// Allocate a slot for a fresh key: afterwards the table holds every old
    /// record unchanged, and `v` under `k`.
    pub fn insert(&mut self, k: Pubkey, v: T)
        requires
            old(self).wf(),
            !old(self)@.contains_key(k@),
        ensures
            final(self).wf(),
            final(self)@ == old(self)@.insert(k@, v@),
    {
        let ghost s0 = self.entries@;
        let ghost w = v@;
        self.entries.push((k, v));
        proof {
            let s1 = self.entries@;
            assert(s1 == s0.push((k, v)));
            assert forall|a: int, b: int| 0 <= a < b < s1.len() implies s1[a].0@ != s1[b].0@ by {
                if b == s1.len() - 1 {
                    assert(s1[a] == s0[a]);
                    if s0[a].0@ == k@ {
                        assert(entry_has_key(s0, k@));
                    }
                } else {
                    assert(s1[a] == s0[a]);
                    assert(s1[b] == s0[b]);
                }
            }
            assert forall|x: Seq<u8>| #[trigger] entry_has_key(s1, x) implies entry_has_key(s0, x)
                || x == k@ by {
                let j: int = choose|j: int| 0 <= j < s1.len() && s1[j].0@ == x;
                if j < s0.len() {
                    assert(s0[j].0@ == x);
                    assert(entry_has_key(s0, x));
                } else {
                    assert(s1[j].0@ == k@);
                }
            }
            assert forall|x: Seq<u8>| #[trigger] entry_has_key(s0, x) implies entry_has_key(
                s1,
                x,
            ) by {
                let j: int = choose|j: int| 0 <= j < s0.len() && s0[j].0@ == x;
                assert(s1[j] == s0[j]);
                assert(entry_has_key(s1, x));
            }
            assert(s1[s1.len() - 1].0@ == k@);
            assert(entry_has_key(s1, k@));
            assert forall|x: Seq<u8>| #[trigger] entry_has_key(s1, x) implies self@[x] == old(
                self,
            )@.insert(k@, w)[x] by {
                if x == k@ {
                    lemma_entry_at(s1, s1.len() - 1);
                    assert(self@[x] == s1[s1.len() - 1].1@);
                } else {
                    let j: int = choose|j: int| 0 <= j < s0.len() && s0[j].0@ == x;
                    assert(s1[j] == s0[j]);
                    lemma_entry_at(s0, j);
                    lemma_entry_at(s1, j);
                    assert(self@[x] == s1[j].1@);
                    assert(old(self)@[x] == s0[j].1@);
                }
            }
            assert(self@ =~= old(self)@.insert(k@, w));
        }
    }

    /// Reclaim the slot under `k`, if one exists: afterwards the table holds
    /// every other record unchanged and nothing under `k`.
    pub fn remove(&mut self, k: &Pubkey)
        requires
            old(self).wf(),
        ensures
            final(self).wf(),
            final(self)@ == old(self)@.remove(k@),
    {
        let n = self.entries.len();
        let mut i: usize = 0;
        while i < n
            invariant
                n == self.entries.len(),
                i <= n,
                self.wf(),
                self == old(self),
                forall|j: int| 0 <= j < i ==> self.entries@[j].0@ != k@,
            decreases n - i,
        {
            if self.entries[i].0 == *k {
                proof {
                    lemma_entry_at(self.entries@, i as int);
                    lemma_remove_entry(self.entries@, i as int);
                }
                let ghost s0 = self.entries@;
                let _entry = self.entries.remove(i);
                proof {
                    let s1 = self.entries@;
                    assert(s1 == s0.remove(i as int));
                    assert forall|x: Seq<u8>| #[trigger] entry_has_key(s1, x) implies self@[x]
                        == old(self)@.remove(k@)[x] by {
                        assert(entry_has_key(s0, x) && x != k@);
                        assert(s1[entry_index_of(s1, x)].1@ == s0[entry_index_of(s0, x)].1@);
                    }
                    assert(self@ =~= old(self)@.remove(k@));
                }
                return ;
            }
            i = i + 1;
        }
        proof {
            assert(!entry_has_key(self.entries@, k@));
            assert(self@ =~= old(self)@.remove(k@));
        }
    }
}

} // verus!
