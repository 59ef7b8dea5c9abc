//! A finite table from keys to amounts, kept as a list of entries in which no
//! key occurs twice.

use vstd::prelude::*;

verus! {

/// A key of a table: it has a mathematical identity, and two keys can be
/// tested for having the same one.
pub trait TableKey: Sized {
    type Id;

    /// What the key stands for.
    spec fn id(&self) -> Self::Id;

    /// Tells whether two keys stand for the same thing.
    fn same_as(&self, other: &Self) -> (same: bool)
        ensures
            same == (self.id() == other.id()),
    ;
}

impl TableKey for String {
    type Id = Seq<char>;

    open spec fn id(&self) -> Seq<char> {
        self@
    }

    fn same_as(&self, other: &Self) -> (same: bool) {
        *self == *other
    }
}

struct Entry<K> {
    key: K,
    amount: u128,
}

/// A table from keys to amounts. Its view is the map from the identities of
/// the keys it holds to their amounts.
pub struct AmountTable<K: TableKey> {
    entries: Vec<Entry<K>>,
}

/// Whether some entry of `entries` has the key identity `id`.
spec fn holds<K: TableKey>(entries: Seq<Entry<K>>, id: K::Id) -> bool {
    exists|i: int| 0 <= i < entries.len() && (#[trigger] entries[i]).key.id() == id
}

/// The place of an entry of `entries` with the key identity `id`.
spec fn place<K: TableKey>(entries: Seq<Entry<K>>, id: K::Id) -> int {
    choose|i: int| 0 <= i < entries.len() && (#[trigger] entries[i]).key.id() == id
}

/// No key identity occurs in two entries.
spec fn distinct<K: TableKey>(entries: Seq<Entry<K>>) -> bool {
    forall|i: int, j: int|
        0 <= i < j < entries.len() ==> (#[trigger] entries[i]).key.id() != (
        #[trigger] entries[j]).key.id()
}

spec fn as_map<K: TableKey>(entries: Seq<Entry<K>>) -> Map<K::Id, u128> {
    Map::new(|id: K::Id| holds(entries, id), |id: K::Id| entries[place(entries, id)].amount)
}

/// With distinct keys, the map holds each entry's amount under its key.
proof fn lemma_entry_in_map<K: TableKey>(entries: Seq<Entry<K>>, i: int)
    requires
        distinct(entries),
        0 <= i < entries.len(),
    ensures
        as_map(entries).contains_key(entries[i].key.id()),
        as_map(entries)[entries[i].key.id()] == entries[i].amount,
{
    let j = place(entries, entries[i].key.id());
    assert(i == j);
}

/// Putting `entry` in the place of an entry with the same key keeps the keys
/// distinct and sets that key's amount.
proof fn lemma_replace<K: TableKey>(before: Seq<Entry<K>>, i: int, entry: Entry<K>)
    requires
        distinct(before),
        0 <= i < before.len(),
        before[i].key.id() == entry.key.id(),
    ensures
        distinct(before.update(i, entry)),
        as_map(before.update(i, entry)) == as_map(before).insert(entry.key.id(), entry.amount),
{
    let after = before.update(i, entry);
    assert forall|a: int, b: int| 0 <= a < b < after.len() implies (#[trigger] after[a]).key.id()
        != (#[trigger] after[b]).key.id() by {
        assert(before[a].key.id() != before[b].key.id());
    }
    assert forall|id: K::Id| holds(after, id) == holds(before, id) by {
        if holds(before, id) {
            assert(after[place(before, id)].key.id() == id);
        }
        if holds(after, id) {
            assert(before[place(after, id)].key.id() == id);
        }
    }
    assert forall|id: K::Id| holds(after, id) implies as_map(after)[id] == as_map(before).insert(
        entry.key.id(),
        entry.amount,
    )[id] by {
        let j = place(after, id);
        lemma_entry_in_map(after, j);
        lemma_entry_in_map(before, j);
    }
    assert(as_map(after) =~= as_map(before).insert(entry.key.id(), entry.amount));
}

/// Appending an entry whose key is new keeps the keys distinct and adds the
/// key with its amount.
proof fn lemma_append<K: TableKey>(before: Seq<Entry<K>>, entry: Entry<K>)
    requires
        distinct(before),
        !holds(before, entry.key.id()),
    ensures
        distinct(before.push(entry)),
        as_map(before.push(entry)) == as_map(before).insert(entry.key.id(), entry.amount),
{
    let after = before.push(entry);
    let last = before.len() as int;
    assert forall|a: int, b: int| 0 <= a < b < after.len() implies (#[trigger] after[a]).key.id()
        != (#[trigger] after[b]).key.id() by {
        assert(before[a].key.id() == after[a].key.id());
        if b < last {
            assert(before[b].key.id() == after[b].key.id());
        }
    }
    assert(after[last].key.id() == entry.key.id());
    assert forall|id: K::Id| holds(after, id) == (id == entry.key.id() || holds(before, id)) by {
        if holds(before, id) {
            assert(after[place(before, id)].key.id() == id);
        }
        if holds(after, id) && id != entry.key.id() {
            assert(before[place(after, id)].key.id() == id);
        }
    }
    assert forall|id: K::Id| holds(after, id) implies as_map(after)[id] == as_map(before).insert(
        entry.key.id(),
        entry.amount,
    )[id] by {
        let j = place(after, id);
        lemma_entry_in_map(after, j);
        if j < last {
            lemma_entry_in_map(before, j);
        }
    }
    assert(as_map(after) =~= as_map(before).insert(entry.key.id(), entry.amount));
}

impl<K: TableKey> View for AmountTable<K> {
    type V = Map<K::Id, u128>;

    closed spec fn view(&self) -> Map<K::Id, u128> {
        as_map(self.entries@)
    }
}

impl<K: TableKey> AmountTable<K> {
    /// No key occurs twice.
    #[verifier::type_invariant]
    spec fn keys_distinct(self) -> bool {
        distinct(self.entries@)
    }

    /// The empty table.
    pub fn new() -> (table: Self)
        ensures
            table@ == Map::<K::Id, u128>::empty(),
    {
        let table = AmountTable { entries: Vec::new() };
        assert(table@ =~= Map::<K::Id, u128>::empty());
        table
    }

    /// The place of the entry for `key`, if there is one.
    fn find(&self, key: &K) -> (found: Option<usize>)
        ensures
            match found {
                Some(i) => i < self.entries@.len() && self.entries@[i as int].key.id() == key.id(),
                None => !holds(self.entries@, key.id()),
            },
    {
        let mut i: usize = 0;
        while i < self.entries.len()
            invariant
                i <= self.entries@.len(),
                forall|j: int| 0 <= j < i ==> (#[trigger] self.entries@[j]).key.id() != key.id(),
            decreases self.entries@.len() - i,
        {
            if self.entries[i].key.same_as(key) {
                return Some(i);
            }
            i += 1;
        }
        None
    }

    /// The amount held for `key`, if the table has one.
    pub fn get(&self, key: &K) -> (amount: Option<u128>)
        ensures
            amount == (if self@.contains_key(key.id()) {
                Some(self@[key.id()])
            } else {
                None
            }),
    {
        proof {
            use_type_invariant(self);
        }
        match self.find(key) {
            Some(i) => {
                proof {
                    lemma_entry_in_map(self.entries@, i as int);
                }
                Some(self.entries[i].amount)
            },
            None => None,
        }
    }

    /// Sets the amount held for `key`, whether or not the table had one.
    pub fn insert(&mut self, key: K, amount: u128)
        ensures
            final(self)@ == old(self)@.insert(key.id(), amount),
    {
        proof {
            use_type_invariant(&*self);
        }
        let found = self.find(&key);
        let entry = Entry { key, amount };
        // The entries are taken out, changed and put back, so that the table
        // never holds a key twice, not even in between.
        let mut entries: Vec<Entry<K>> = Vec::new();
        core::mem::swap(&mut self.entries, &mut entries);
        match found {
            Some(i) => {
                proof {
                    lemma_replace(entries@, i as int, entry);
                }
                entries.set(i, entry);
            },
            None => {
                proof {
                    lemma_append(entries@, entry);
                }
                entries.push(entry);
            },
        }
        self.entries = entries;
    }
}

} // verus!
