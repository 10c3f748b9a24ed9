//! The notification writer registry.
//!
//! While a client subscribes to a characteristic, the backend holds a
//! native writer for it; the registry keys those writers by the
//! characteristic identifier, one writer per characteristic. The writer
//! itself is an opaque native value carried through.

use crate::uuid::Uuid;
use vstd::prelude::*;

verus! {

/// One registered writer: the characteristic key and the native value.
#[verifier::reject_recursive_types(T)]
pub struct WriterRegistry<T> {
    entries: Vec<(u128, T)>,
}

/// The value stored under `key` in `entries` — the first match, if any.
spec fn spec_find<T>(entries: Seq<(u128, T)>, key: u128) -> Option<T>
    decreases entries.len(),
{
    if entries.len() == 0 {
        None
    } else if entries[0].0 == key {
        Some(entries[0].1)
    } else {
        spec_find(entries.drop_first(), key)
    }
}

/// Finding a key that no entry carries yields nothing.
proof fn lemma_find_none<T>(entries: Seq<(u128, T)>, key: u128)
    requires
        forall|j: int| 0 <= j < entries.len() ==> (#[trigger] entries[j].0) != key,
    ensures
        spec_find(entries, key) is None,
    decreases entries.len(),
{
    if entries.len() == 0 {
    } else {
        assert(forall|j: int|
            0 <= j < entries.drop_first().len() ==> #[trigger] entries.drop_first()[j]
                == entries[j + 1]);
        lemma_find_none(entries.drop_first(), key);
    }
}

/// Finding the key of the first matching entry yields its value.
proof fn lemma_find_at<T>(entries: Seq<(u128, T)>, i: int, key: u128)
    requires
        0 <= i < entries.len(),
        entries[i].0 == key,
        forall|j: int| 0 <= j < i ==> (#[trigger] entries[j].0) != key,
    ensures
        spec_find(entries, key) == Some(entries[i].1),
    decreases i,
{
    if i == 0 {
    } else {
        assert(forall|j: int|
            0 <= j < entries.drop_first().len() ==> #[trigger] entries.drop_first()[j]
                == entries[j + 1]);
        lemma_find_at(entries.drop_first(), i - 1, key);
    }
}

/// Entry lists that agree everywhere except on entries of key `k`
/// agree on the find of every other key.
proof fn lemma_find_agree<T>(before: Seq<(u128, T)>, after: Seq<(u128, T)>, k: u128, key: u128)
    requires
        key != k,
        after.len() == before.len(),
        forall|j: int|
            0 <= j < before.len() ==> ((#[trigger] after[j]) == before[j] || (after[j].0 == k
                && before[j].0 == k)),
    ensures
        spec_find(after, key) == spec_find(before, key),
    decreases before.len(),
{
    if before.len() == 0 {
    } else {
        assert(forall|j: int|
            0 <= j < before.drop_first().len() ==> #[trigger] before.drop_first()[j] == before[j
                + 1]);
        assert(forall|j: int|
            0 <= j < after.drop_first().len() ==> #[trigger] after.drop_first()[j] == after[j + 1]);
        lemma_find_agree(before.drop_first(), after.drop_first(), k, key);
    }
}

impl<T> WriterRegistry<T> {
    /// Each characteristic has at most one writer registered.
    pub closed spec fn wf(&self) -> bool {
        forall|i: int, j: int|
            0 <= i < j < self.entries@.len() ==> (#[trigger] self.entries@[i].0) != (
            #[trigger] self.entries@[j].0)
    }

    /// The writer registered for `key`, if any.
    pub closed spec fn spec_get(&self, key: u128) -> Option<T> {
        spec_find(self.entries@, key)
    }

    /// An empty registry.
    pub fn new() -> (r: WriterRegistry<T>)
        ensures
            r.wf(),
            forall|k: u128| r.spec_get(k) is None,
    {
        WriterRegistry { entries: Vec::new() }
    }

    /// The index of the entry for `key`, if one exists.
    fn find_index(&self, key: u128) -> (r: Option<usize>)
        ensures
            r matches Some(i) ==> i < self.entries@.len() && self.entries@[i as int].0 == key && (
            forall|j: int| 0 <= j < i ==> (#[trigger] self.entries@[j].0) != key),
            r is None ==> forall|j: int|
                0 <= j < self.entries@.len() ==> (#[trigger] self.entries@[j].0) != key,
    {
        let mut i: usize = 0;
        while i < self.entries.len()
            invariant
                i <= self.entries@.len(),
                forall|j: int| 0 <= j < i ==> (#[trigger] self.entries@[j].0) != key,
            decreases self.entries@.len() - i,
        {
            if self.entries[i].0 == key {
                return Some(i);
            }
            i = i + 1;
        }
        None
    }

    /// Registers `value` for the characteristic, replacing a writer the
    /// key already had.
    pub fn insert(&mut self, characteristic: Uuid, value: T)
        requires
            old(self).wf(),
        ensures
            final(self).wf(),
            final(self).spec_get(characteristic.spec_as_u128()) == Some(value),
            forall|k: u128|
                k != characteristic.spec_as_u128() ==> final(self).spec_get(k) == old(
                    self,
                ).spec_get(k),
    {
        let key = characteristic.as_u128();
        match self.find_index(key) {
            Some(i) => {
                let ghost before = self.entries@;
                self.entries.set(i, (key, value));
                proof {
                    lemma_find_at(self.entries@, i as int, key);
                    assert forall|k: u128| k != key implies self.spec_get(k) == spec_find(
                        before,
                        k,
                    ) by {
                        lemma_find_agree(before, self.entries@, key, k);
                    }
                }
            },
            None => {
                let ghost before = self.entries@;
                self.entries.push((key, value));
                proof {
                    assert(self.entries@.drop_last() =~= before);
                    lemma_find_at(self.entries@, before.len() as int, key);
                    assert forall|k: u128| k != key implies self.spec_get(k) == spec_find(
                        before,
                        k,
                    ) by {
                        lemma_find_push_other(before, self.entries@, key, k);
                    }
                }
            },
        }
    }

    /// Removes and returns the writer of the characteristic, if one is
    /// registered.
    pub fn remove(&mut self, characteristic: Uuid) -> (r: Option<T>)
        requires
            old(self).wf(),
        ensures
            final(self).wf(),
            r == old(self).spec_get(characteristic.spec_as_u128()),
            final(self).spec_get(characteristic.spec_as_u128()) is None,
            forall|k: u128|
                k != characteristic.spec_as_u128() ==> final(self).spec_get(k) == old(
                    self,
                ).spec_get(k),
    {
        let key = characteristic.as_u128();
        match self.find_index(key) {
            Some(i) => {
                let ghost before = self.entries@;
                proof {
                    lemma_find_at(before, i as int, key);
                }
                let (_, value) = self.entries.remove(i);
                proof {
                    lemma_remove_effects(before, self.entries@, i as int, key);
                }
                Some(value)
            },
            None => {
                proof {
                    lemma_find_none(self.entries@, key);
                }
                None
            },
        }
    }

    /// Whether the characteristic has a writer registered.
    pub fn contains(&self, characteristic: Uuid) -> (r: bool)
        ensures
            r == (self.spec_get(characteristic.spec_as_u128()) is Some),
    {
        let key = characteristic.as_u128();
        match self.find_index(key) {
            Some(i) => {
                proof {
                    lemma_find_at(self.entries@, i as int, key);
                }
                true
            },
            None => {
                proof {
                    lemma_find_none(self.entries@, key);
                }
                false
            },
        }
    }
}

/// Appending an entry of key `k` leaves the find of every other key as
/// it was.
proof fn lemma_find_push_other<T>(
    before: Seq<(u128, T)>,
    after: Seq<(u128, T)>,
    k: u128,
    key: u128,
)
    requires
        key != k,
        after.len() == before.len() + 1,
        forall|j: int| 0 <= j < before.len() ==> #[trigger] after[j] == before[j],
        after[before.len() as int].0 == k,
    ensures
        spec_find(after, key) == spec_find(before, key),
    decreases before.len(),
{
    if before.len() == 0 {
        assert(after.drop_first().len() == 0);
        assert(spec_find(after.drop_first(), key) is None);
        assert(spec_find::<T>(before, key) is None);
    } else {
        assert(forall|j: int|
            0 <= j < before.drop_first().len() ==> #[trigger] before.drop_first()[j] == before[j
                + 1]);
        assert(forall|j: int|
            0 <= j < after.drop_first().len() ==> #[trigger] after.drop_first()[j] == after[j + 1]);
        lemma_find_push_other(before.drop_first(), after.drop_first(), k, key);
    }
}

/// Removing the single entry of a key: that key finds nothing, every
/// other key is untouched, and uniqueness is kept.
proof fn lemma_remove_effects<T>(before: Seq<(u128, T)>, after: Seq<(u128, T)>, i: int, key: u128)
    requires
        0 <= i < before.len(),
        before[i].0 == key,
        forall|a: int, b: int|
            0 <= a < b < before.len() ==> (#[trigger] before[a].0) != (#[trigger] before[b].0),
        after =~= before.remove(i),
    ensures
        forall|a: int, b: int|
            0 <= a < b < after.len() ==> (#[trigger] after[a].0) != (#[trigger] after[b].0),
        spec_find(after, key) is None,
        forall|k: u128| k != key ==> spec_find(after, k) == spec_find(before, k),
{
    assert forall|j: int| 0 <= j < after.len() implies (#[trigger] after[j].0) != key by {
        if j < i {
            assert(after[j] == before[j]);
        } else {
            assert(after[j] == before[j + 1]);
        }
    }
    lemma_find_none(after, key);
    assert forall|k: u128| k != key implies spec_find(after, k) == spec_find(before, k) by {
        lemma_find_remove_other(before, i, k);
    }
}

/// Removing an entry whose key differs from `key` leaves its find
/// unchanged.
proof fn lemma_find_remove_other<T>(before: Seq<(u128, T)>, i: int, key: u128)
    requires
        0 <= i < before.len(),
        before[i].0 != key,
    ensures
        spec_find(before.remove(i), key) == spec_find(before, key),
    decreases before.len(),
{
    let after = before.remove(i);
    if i == 0 {
        assert(after =~= before.drop_first());
    } else {
        assert(before.len() > 1);
        assert(after[0] == before[0]);
        if before[0].0 == key {
        } else {
            assert(after.drop_first() =~= before.drop_first().remove(i - 1));
            lemma_find_remove_other(before.drop_first(), i - 1, key);
        }
    }
}

} // verus!
