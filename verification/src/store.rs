//! A map from hashes to values.

use vstd::prelude::*;

use crate::grandpa::BlockHash;

verus! {

/// Whether two hashes are equal.
pub fn same_hash(a: &BlockHash, b: &BlockHash) -> (r: bool)
    ensures
        r == (a@ == b@),
{
    let mut i: usize = 0;
    while i < 32
        invariant
            i <= 32,
            forall|j: int| 0 <= j < i ==> a@[j] == b@[j],
        decreases 32 - i,
    {
        if a[i] != b[i] {
            assert(a@[i as int] != b@[i as int]);
            return false;
        }
        i += 1;
    }
    assert(a@ =~= b@);
    true
}

/// A map from hashes to values, which holds one value for each hash at most.
#[derive(Debug)]
pub struct HashStore<V> {
    entries: Vec<(BlockHash, V)>,
}

/// The map that a sequence of entries stands for.
spec fn entry_map<V>(entries: Seq<(BlockHash, V)>) -> Map<Seq<u8>, V>
    decreases entries.len(),
{
    if entries.len() == 0 {
        Map::empty()
    } else {
        entry_map(entries.drop_last()).insert(entries.last().0@, entries.last().1)
    }
}

spec fn distinct<V>(entries: Seq<(BlockHash, V)>) -> bool {
    forall|i: int, j: int|
        0 <= i < j < entries.len() ==> (#[trigger] entries[i]).0@ != (#[trigger] entries[j]).0@
}

proof fn lemma_entry_map<V>(entries: Seq<(BlockHash, V)>)
    requires
        distinct(entries),
    ensures
        forall|i: int|
            0 <= i < entries.len() ==> entry_map(entries).contains_key((#[trigger] entries[i]).0@)
                && entry_map(entries)[entries[i].0@] == entries[i].1,
        forall|key: Seq<u8>| #[trigger]
            entry_map(entries).contains_key(key) ==> exists|i: int|
                0 <= i < entries.len() && (#[trigger] entries[i]).0@ == key,
    decreases entries.len(),
{
    if entries.len() > 0 {
        let front = entries.drop_last();
        lemma_entry_map(front);
        assert forall|i: int| 0 <= i < entries.len() implies entry_map(entries).contains_key(
            (#[trigger] entries[i]).0@,
        ) && entry_map(entries)[entries[i].0@] == entries[i].1 by {
            if i < front.len() {
                assert(front[i] == entries[i]);
            }
        }
        assert forall|key: Seq<u8>| #[trigger]
            entry_map(entries).contains_key(key) implies exists|i: int|
            0 <= i < entries.len() && (#[trigger] entries[i]).0@ == key by {
            if entries.last().0@ == key {
                assert(entries[entries.len() - 1].0@ == key);
            } else {
                assert(entry_map(front).contains_key(key));
                let i = choose|i: int| 0 <= i < front.len() && (#[trigger] front[i]).0@ == key;
                assert(entries[i].0@ == key);
            }
        }
    }
}

impl<V> View for HashStore<V> {
    type V = Map<Seq<u8>, V>;

    closed spec fn view(&self) -> Map<Seq<u8>, V> {
        entry_map(self.entries@)
    }
}

impl<V> HashStore<V> {
    #[verifier::type_invariant]
    spec fn well_formed(self) -> bool {
        distinct(self.entries@)
    }

    /// A map without entries.
    pub fn new() -> (r: Self)
        ensures
            r@ == Map::<Seq<u8>, V>::empty(),
    {
        HashStore { entries: Vec::new() }
    }

    /// Where the entry for `key` stands.
    fn position(&self, key: &BlockHash) -> (r: Option<usize>)
        ensures
            r matches Some(i) ==> i < self.entries@.len() && self.entries@[i as int].0@ == key@,
            r is None ==> forall|i: int|
                0 <= i < self.entries@.len() ==> (#[trigger] self.entries@[i]).0@ != key@,
    {
        let mut i: usize = 0;
        while i < self.entries.len()
            invariant
                i <= self.entries@.len(),
                forall|j: int| 0 <= j < i ==> (#[trigger] self.entries@[j]).0@ != key@,
            decreases self.entries@.len() - i,
        {
            if same_hash(&self.entries[i].0, key) {
                return Some(i);
            }
            i += 1;
        }
        None
    }

    /// The value under `key`, if there is one.
    pub fn get(&self, key: &BlockHash) -> (r: Option<&V>)
        ensures
            r == if self@.contains_key(key@) {
                Some(&self@[key@])
            } else {
                None
            },
    {
        proof {
            use_type_invariant(self);
            lemma_entry_map(self.entries@);
        }
        match self.position(key) {
            Some(i) => {
                assert(self.entries@[i as int].0@ == key@);
                Some(&self.entries[i].1)
            },
            None => None,
        }
    }

    /// Puts `value` under `key`, in place of what was there.
    pub fn insert(&mut self, key: BlockHash, value: V)
        ensures
            final(self)@ == old(self)@.insert(key@, value),
    {
        proof {
            use_type_invariant(&*self);
        }
        let found = self.position(&key);
        let mut entries: Vec<(BlockHash, V)> = Vec::new();
        std::mem::swap(&mut entries, &mut self.entries);
        let ghost before = entries@;
        proof {
            lemma_entry_map(before);
        }
        match found {
            Some(i) => {
                let ghost at = i as int;
                entries[i] = (key, value);
                proof {
                    let after = entries@;
                    assert(distinct(after)) by {
                        assert forall|i: int, j: int| 0 <= i < j < after.len() implies (
                        #[trigger] after[i]).0@ != (#[trigger] after[j]).0@ by {
                            assert(after[i].0@ == before[i].0@);
                            assert(after[j].0@ == before[j].0@);
                        }
                    }
                    lemma_entry_map(after);
                    lemma_replaced(before, after, at, key, value);
                }
            },
            None => {
                entries.push((key, value));
                proof {
                    let after = entries@;
                    assert(after.drop_last() =~= before);
                    assert(distinct(after)) by {
                        assert forall|i: int, j: int| 0 <= i < j < after.len() implies (
                        #[trigger] after[i]).0@ != (#[trigger] after[j]).0@ by {
                            assert(before[i].0@ == after[i].0@);
                            if j < before.len() {
                                assert(before[j].0@ == after[j].0@);
                            }
                        }
                    }
                }
            },
        }
        self.entries = entries;
    }
}

proof fn lemma_replaced<V>(
    before: Seq<(BlockHash, V)>,
    after: Seq<(BlockHash, V)>,
    at: int,
    key: BlockHash,
    value: V,
)
    requires
        distinct(before),
        distinct(after),
        0 <= at < before.len(),
        before[at].0@ == key@,
        after == before.update(at, (key, value)),
    ensures
        entry_map(after) == entry_map(before).insert(key@, value),
{
    lemma_entry_map(before);
    lemma_entry_map(after);
    let a = entry_map(after);
    let b = entry_map(before).insert(key@, value);
    assert forall|k: Seq<u8>| a.contains_key(k) <==> b.contains_key(k) by {
        if a.contains_key(k) {
            let i = choose|i: int| 0 <= i < after.len() && (#[trigger] after[i]).0@ == k;
            assert(before[i].0@ == k);
        }
        if b.contains_key(k) {
            if k == key@ {
                assert(after[at].0@ == k);
            } else {
                let i = choose|i: int| 0 <= i < before.len() && (#[trigger] before[i]).0@ == k;
                assert(after[i].0@ == k);
            }
        }
    }
    assert forall|k: Seq<u8>| a.contains_key(k) implies a[k] == b[k] by {
        let i = choose|i: int| 0 <= i < after.len() && (#[trigger] after[i]).0@ == k;
        if i == at {
            assert(k == key@);
        } else {
            assert(before[i] == after[i]);
        }
    }
    assert(a =~= b);
}

/// A value with the time, in nanoseconds, at which it was put into a store.
#[derive(Debug)]
pub struct Stamped<S> {
    pub value: S,
    pub at: u128,
}

/// How long before `now` the time `at` was.
pub open spec fn age(at: u128, now: u128) -> nat {
    if at <= now {
        (now - at) as nat
    } else {
        0
    }
}

/// The entries that are younger than `max_age` at `now`.
pub open spec fn younger<S>(
    entries: Map<Seq<u8>, Stamped<S>>,
    now: u128,
    max_age: u128,
) -> Map<Seq<u8>, Stamped<S>> {
    entries.restrict(
        Set::new(
            |key: Seq<u8>| entries.contains_key(key) && age(entries[key].at, now) < max_age,
        ),
    )
}

impl<S> HashStore<Stamped<S>> {
    /// Drops the entries that are not younger than `max_age` at `now`.
    pub fn retain_younger(&mut self, now: u128, max_age: u128)
        ensures
            final(self)@ == younger(old(self)@, now, max_age),
    {
        proof {
            use_type_invariant(&*self);
        }
        let mut entries: Vec<(BlockHash, Stamped<S>)> = Vec::new();
        std::mem::swap(&mut entries, &mut self.entries);
        let ghost before = entries@;
        let ghost mut done: int = 0;
        let mut kept: Vec<(BlockHash, Stamped<S>)> = Vec::new();
        proof {
            lemma_entry_map(before);
            assert(entries@ =~= before.skip(0));
        }
        while entries.len() > 0
            invariant
                distinct(before),
                0 <= done <= before.len(),
                entries@ == before.skip(done),
                forall|k: int|
                    0 <= k < kept@.len() ==> age((#[trigger] kept@[k]).1.at, now) < max_age && (
                    exists|i: int| 0 <= i < done && before[i] == kept@[k]),
                forall|i: int|
                    0 <= i < done && age((#[trigger] before[i]).1.at, now) < max_age ==> exists|k:
                        int|
                        0 <= k < kept@.len() && #[trigger] kept@[k] == before[i],
                distinct(kept@),
            decreases entries@.len(),
        {
            let ghost kept_before = kept@;
            let entry = entries.remove(0);
            assert(entry == before[done]);
            if now.saturating_sub(entry.1.at) < max_age {
                kept.push(entry);
                proof {
                    assert forall|i: int, j: int| 0 <= i < j < kept@.len() implies (
                    #[trigger] kept@[i]).0@ != (#[trigger] kept@[j]).0@ by {
                        assert(kept@[i] == kept_before[i]);
                        let p = choose|p: int| 0 <= p < done && before[p] == kept_before[i];
                        if j < kept_before.len() {
                            assert(kept@[j] == kept_before[j]);
                        } else {
                            assert(before[p].0@ != before[done].0@);
                        }
                    }
                }
            }
            proof {
                assert forall|k: int| 0 <= k < kept@.len() implies age(
                    (#[trigger] kept@[k]).1.at,
                    now,
                ) < max_age && (exists|i: int| 0 <= i < done + 1 && before[i] == kept@[k]) by {
                    if k < kept_before.len() {
                        assert(kept@[k] == kept_before[k]);
                        let p = choose|p: int| 0 <= p < done && before[p] == kept_before[k];
                        assert(before[p] == kept@[k]);
                    } else {
                        assert(before[done] == kept@[k]);
                    }
                }
                assert forall|i: int|
                    0 <= i < done + 1 && age((#[trigger] before[i]).1.at, now)
                        < max_age implies exists|k: int|
                    0 <= k < kept@.len() && #[trigger] kept@[k] == before[i] by {
                    if i < done {
                        let k = choose|k: int|
                            0 <= k < kept_before.len() && #[trigger] kept_before[k] == before[i];
                        assert(kept@[k] == before[i]);
                    } else {
                        assert(kept@[kept@.len() - 1] == before[i]);
                    }
                }
                assert(entries@ =~= before.skip(done + 1));
                done = done + 1;
            }
        }
        proof {
            assert(done == before.len());
            lemma_entry_map(kept@);
            lemma_younger(before, kept@, now, max_age);
        }
        self.entries = kept;
    }
}

proof fn lemma_younger<S>(
    before: Seq<(BlockHash, Stamped<S>)>,
    kept: Seq<(BlockHash, Stamped<S>)>,
    now: u128,
    max_age: u128,
)
    requires
        distinct(before),
        distinct(kept),
        forall|k: int|
            0 <= k < kept.len() ==> age((#[trigger] kept[k]).1.at, now) < max_age && (exists|i: int|
                0 <= i < before.len() && before[i] == kept[k]),
        forall|i: int|
            0 <= i < before.len() && age((#[trigger] before[i]).1.at, now) < max_age ==> exists|k:
                int|
                0 <= k < kept.len() && #[trigger] kept[k] == before[i],
    ensures
        entry_map(kept) == younger(entry_map(before), now, max_age),
{
    lemma_entry_map(before);
    lemma_entry_map(kept);
    let a = entry_map(kept);
    let all = entry_map(before);
    let b = younger(all, now, max_age);
    assert forall|key: Seq<u8>| a.contains_key(key) <==> b.contains_key(key) by {
        if a.contains_key(key) {
            let k = choose|k: int| 0 <= k < kept.len() && (#[trigger] kept[k]).0@ == key;
            let i = choose|i: int| 0 <= i < before.len() && before[i] == kept[k];
            assert(before[i].0@ == key);
        }
        if b.contains_key(key) {
            let i = choose|i: int| 0 <= i < before.len() && (#[trigger] before[i]).0@ == key;
            let k = choose|k: int| 0 <= k < kept.len() && #[trigger] kept[k] == before[i];
            assert(kept[k].0@ == key);
        }
    }
    assert forall|key: Seq<u8>| a.contains_key(key) implies a[key] == b[key] by {
        let k = choose|k: int| 0 <= k < kept.len() && (#[trigger] kept[k]).0@ == key;
        let i = choose|i: int| 0 <= i < before.len() && before[i] == kept[k];
        assert(before[i].0@ == key);
    }
    assert(a =~= b);
}

/// The age of something is the time that has passed since, and nothing where the clock went back.
pub proof fn law_age_is_the_time_passed(at: u128, now: u128)
    ensures
        at <= now ==> at + age(at, now) == now,
        at > now ==> age(at, now) == 0,
{
}

/// Exactly the entries that came less than `max_age` ago stay, each with its value.
pub proof fn law_exactly_the_younger_entries_stay<S>(
    entries: Map<Seq<u8>, Stamped<S>>,
    now: u128,
    max_age: u128,
    key: Seq<u8>,
)
    requires
        max_age > 0,
    ensures
        younger(entries, now, max_age).contains_key(key) <==> entries.contains_key(key) && now
            < entries[key].at + max_age,
        younger(entries, now, max_age).contains_key(key) ==> younger(entries, now, max_age)[key]
            == entries[key],
{
}

} // verus!
