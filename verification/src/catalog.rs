//! Values kept under names. A name that is put in again takes the place of
//! the one that was there.

use vstd::prelude::*;
use vstd::string::StringExecFns;

verus! {

struct Named<V> {
    name: String,
    value: V,
}

/// The index of the last entry with the name, if there is one.
spec fn last_index<V>(entries: Seq<Named<V>>, name: Seq<char>) -> Option<int>
    decreases entries.len(),
{
    if entries.len() == 0 {
        None
    } else if entries.last().name@ == name {
        Some(entries.len() - 1)
    } else {
        last_index(entries.drop_last(), name)
    }
}

proof fn lemma_last_index<V>(entries: Seq<Named<V>>, name: Seq<char>)
    ensures
        last_index(entries, name) matches Some(i) ==> 0 <= i < entries.len()
            && entries[i].name@ == name,
        last_index(entries, name) is None ==> forall|j: int|
            0 <= j < entries.len() ==> (#[trigger] entries[j]).name@ != name,
    decreases entries.len(),
{
    if entries.len() > 0 && entries.last().name@ != name {
        let front = entries.drop_last();
        lemma_last_index(front, name);
        if last_index(entries, name) is None {
            assert forall|j: int| 0 <= j < entries.len() implies (#[trigger] entries[j]).name@
                != name by {
                if j < front.len() {
                    assert(front[j] == entries[j]);
                }
            }
        }
    }
}

/// Where the names of two lists agree, so do the indices found in them.
proof fn lemma_same_names<V>(a: Seq<Named<V>>, b: Seq<Named<V>>, name: Seq<char>)
    requires
        a.len() == b.len(),
        forall|j: int| 0 <= j < a.len() ==> (#[trigger] a[j]).name@ == b[j].name@,
    ensures
        last_index(a, name) == last_index(b, name),
    decreases a.len(),
{
    if a.len() > 0 {
        assert(a.last().name@ == b.last().name@);
        assert forall|j: int| 0 <= j < a.drop_last().len() implies (#[trigger] a.drop_last()[j]).name@
            == b.drop_last()[j].name@ by {
            assert(a[j].name@ == b[j].name@);
        }
        lemma_same_names(a.drop_last(), b.drop_last(), name);
    }
}

/// The names in use, each with the value of the last entry that has it.
spec fn as_map<V>(entries: Seq<Named<V>>) -> Map<Seq<char>, V> {
    Map::new(
        |name: Seq<char>| last_index(entries, name) is Some,
        |name: Seq<char>| entries[last_index(entries, name)->0].value,
    )
}

/// Putting a new entry in the place of the last one with its name changes
/// the value under that name and nothing else.
proof fn lemma_replaced<V>(entries: Seq<Named<V>>, i: int, entry: Named<V>)
    requires
        last_index(entries, entry.name@) == Some(i),
    ensures
        0 <= i < entries.len(),
        as_map(entries.update(i, entry)) == as_map(entries).insert(entry.name@, entry.value),
{
    lemma_last_index(entries, entry.name@);
    let after = entries.update(i, entry);
    assert forall|other: Seq<char>| last_index(after, other) == last_index(entries, other) by {
        assert forall|j: int| 0 <= j < after.len() implies (#[trigger] after[j]).name@
            == entries[j].name@ by {}
        lemma_same_names(after, entries, other);
    }
    assert forall|other: Seq<char>|
        other != entry.name@ && last_index(entries, other) is Some implies last_index(
            entries,
            other,
        )->0 != i && 0 <= last_index(entries, other)->0 < entries.len() by {
        lemma_last_index(entries, other);
    }
    assert(as_map(after) =~= as_map(entries).insert(entry.name@, entry.value));
}

/// A new entry at the end hides the entries with its name.
proof fn lemma_pushed<V>(entries: Seq<Named<V>>, entry: Named<V>)
    ensures
        as_map(entries.push(entry)) == as_map(entries).insert(entry.name@, entry.value),
{
    let after = entries.push(entry);
    assert(after.drop_last() =~= entries);
    assert forall|other: Seq<char>|
        other != entry.name@ && last_index(entries, other) is Some implies 0 <= last_index(
            entries,
            other,
        )->0 < entries.len() by {
        lemma_last_index(entries, other);
    }
    assert(as_map(after) =~= as_map(entries).insert(entry.name@, entry.value));
}

pub struct Catalog<V> {
    entries: Vec<Named<V>>,
}

impl<V> View for Catalog<V> {
    type V = Map<Seq<char>, V>;

    /// The names in use, each with the value that was put under it last.
    closed spec fn view(&self) -> Map<Seq<char>, V> {
        as_map(self.entries@)
    }
}

impl<V> Catalog<V> {
    pub fn new() -> (catalog: Catalog<V>)
        ensures
            catalog@ == Map::<Seq<char>, V>::empty(),
    {
        let catalog = Catalog { entries: Vec::new() };
        assert(catalog@ =~= Map::<Seq<char>, V>::empty());
        catalog
    }

    fn find(&self, name: &str) -> (found: Option<usize>)
        ensures
            match found {
                Some(i) => last_index(self.entries@, name@) == Some(i as int) && i
                    < self.entries.len(),
                None => last_index(self.entries@, name@) is None,
            },
    {
        let wanted = String::from_str(name);
        let mut k: usize = self.entries.len();
        assert(self.entries@.take(k as int) =~= self.entries@);
        while k > 0
            invariant
                k <= self.entries.len(),
                wanted@ == name@,
                last_index(self.entries@, name@) == last_index(
                    self.entries@.take(k as int),
                    name@,
                ),
            decreases k,
        {
            k = k - 1;
            assert(self.entries@.take(k + 1).drop_last() =~= self.entries@.take(k as int));
            if self.entries[k].name == wanted {
                return Some(k);
            }
        }
        None
    }

    /// Puts `value` under `name`. What was under that name is dropped.
    pub fn insert(&mut self, name: &str, value: V)
        ensures
            final(self)@ == old(self)@.insert(name@, value),
    {
        let entry = Named { name: String::from_str(name), value };
        match self.find(name) {
            Some(i) => {
                proof {
                    lemma_replaced(self.entries@, i as int, entry);
                }
                self.entries.set(i, entry);
            },
            None => {
                proof {
                    lemma_pushed(self.entries@, entry);
                }
                self.entries.push(entry);
            },
        }
    }

    /// The value under `name`.
    pub fn get(&self, name: &str) -> (found: Option<&V>)
        ensures
            self@.dom().contains(name@) ==> found == Some(&self@[name@]),
            !self@.dom().contains(name@) ==> found is None,
    {
        match self.find(name) {
            Some(i) => Some(&self.entries[i].value),
            None => None,
        }
    }

    /// Whether there is a value under `name`.
    pub fn contains(&self, name: &str) -> (known: bool)
        ensures
            known == self@.dom().contains(name@),
    {
        self.find(name).is_some()
    }

    /// The value under `name`, for changing it in place.
    pub fn get_mut(&mut self, name: &str) -> (found: Option<&mut V>)
        ensures
            !old(self)@.dom().contains(name@) ==> found is None && final(self)@ == old(self)@,
            old(self)@.dom().contains(name@) ==> {
                &&& found matches Some(value)
                &&& *value == old(self)@[name@]
                &&& final(self)@ == old(self)@.insert(name@, *final(value))
            },
    {
        match self.find(name) {
            Some(i) => {
                let ghost before = self.entries@;
                let value = &mut self.entries[i].value;
                proof {
                    lemma_last_index(before, name@);
                    lemma_replaced(
                        before,
                        i as int,
                        Named { name: before[i as int].name, value: *final(value) },
                    );
                }
                Some(value)
            },
            None => None,
        }
    }
}

} // verus!
