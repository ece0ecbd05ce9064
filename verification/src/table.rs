//! A mapping from names to values in which every name occurs once. The
//! routers keep their channels in one and the dispatch loop its handlers.

use vstd::prelude::*;

verus! {

/// Whether some entry of `entries` stands under `key`.
spec fn holds<T>(entries: Seq<(String, T)>, key: Seq<char>) -> bool {
    exists|i: int| first_at(entries, key, i)
}

/// Whether `i` is the place of the first entry of `entries` under `key`.
spec fn first_at<T>(entries: Seq<(String, T)>, key: Seq<char>, i: int) -> bool {
    &&& 0 <= i < entries.len()
    &&& entries[i].0@ == key
    &&& forall|j: int| 0 <= j < i ==> (#[trigger] entries[j]).0@ != key
}

/// The place of the first entry of `entries` under `key`.
spec fn place<T>(entries: Seq<(String, T)>, key: Seq<char>) -> int {
    choose|i: int| first_at(entries, key, i)
}

/// The mapping that `entries` stands for: each name with the value of the
/// first entry under it.
spec fn mapping<T>(entries: Seq<(String, T)>) -> Map<Seq<char>, T> {
    Map::new(|key: Seq<char>| holds(entries, key), |key: Seq<char>| entries[place(entries, key)].1)
}

/// The first entry under a name is the one that the mapping gives for it.
proof fn lemma_mapping_at<T>(entries: Seq<(String, T)>, key: Seq<char>, i: int)
    requires
        first_at(entries, key, i),
    ensures
        mapping(entries).contains_key(key),
        mapping(entries)[key] == entries[i].1,
{
    let j = place(entries, key);
    assert(first_at(entries, key, j));
    assert(i == j) by {
        if i < j {
            assert(entries[i].0@ != key);
        }
        if j < i {
            assert(entries[j].0@ != key);
        }
    }
}

/// A name under which no entry stands is not in the mapping.
proof fn lemma_mapping_without<T>(entries: Seq<(String, T)>, key: Seq<char>)
    requires
        forall|j: int| 0 <= j < entries.len() ==> (#[trigger] entries[j]).0@ != key,
    ensures
        !mapping(entries).contains_key(key),
{
    if holds(entries, key) {
        let j = place(entries, key);
        assert(first_at(entries, key, j));
        assert(entries[j].0@ != key);
    }
}

/// Replacing the value of the first entry under a name, or adding an entry
/// for a name that has none, puts the value under that name in the mapping
/// and leaves every other name as it was.
proof fn lemma_mapping_put<T>(
    before: Seq<(String, T)>,
    after: Seq<(String, T)>,
    key: Seq<char>,
    value: T,
    i: int,
)
    requires
        first_at(after, key, i),
        after[i].1 == value,
        after.len() == before.len() || (after.len() == before.len() + 1 && i == before.len()),
        forall|j: int| 0 <= j < before.len() && j != i ==> #[trigger] after[j] == before[j],
        i < before.len() ==> before[i].0@ == key,
    ensures
        mapping(after) == mapping(before).insert(key, value),
{
    let target = mapping(before).insert(key, value);
    assert forall|k: Seq<char>| #[trigger] mapping(after).contains_key(k) == target.contains_key(
        k,
    ) by {
        if k == key {
            lemma_mapping_at(after, key, i);
        } else {
            if holds(after, k) {
                let j = place(after, k);
                assert(first_at(after, k, j));
                assert(j != i);
                assert(after[j] == before[j]);
                assert forall|m: int| 0 <= m < j implies (#[trigger] before[m]).0@ != k by {
                    assert(after[m].0@ != k);
                    if m != i {
                        assert(after[m] == before[m]);
                    }
                }
                assert(first_at(before, k, j));
            }
            if holds(before, k) {
                let j = place(before, k);
                assert(first_at(before, k, j));
                assert(j != i);
                assert(after[j] == before[j]);
                assert forall|m: int| 0 <= m < j implies (#[trigger] after[m]).0@ != k by {
                    assert(before[m].0@ != k);
                    if m != i {
                        assert(after[m] == before[m]);
                    }
                }
                assert(first_at(after, k, j));
            }
        }
    }
    assert forall|k: Seq<char>| mapping(after).contains_key(k) implies (#[trigger] mapping(
        after,
    )[k]) == target[k] by {
        if k == key {
            lemma_mapping_at(after, key, i);
        } else {
            let j = place(after, k);
            assert(first_at(after, k, j));
            assert(j != i);
            assert(after[j] == before[j]);
            assert forall|m: int| 0 <= m < j implies (#[trigger] before[m]).0@ != k by {
                assert(after[m].0@ != k);
                if m != i {
                    assert(after[m] == before[m]);
                }
            }
            assert(first_at(before, k, j));
            lemma_mapping_at(before, k, j);
        }
    }
    assert(mapping(after) =~= target);
}

/// A mapping from names to values of type `T`. A name that is inserted again
/// keeps its entry, with the new value in place of the earlier one.
#[derive(Debug, Clone)]
pub struct Table<T> {
    entries: Vec<(String, T)>,
}

impl<T> View for Table<T> {
    type V = Map<Seq<char>, T>;

    closed spec fn view(&self) -> Map<Seq<char>, T> {
        mapping(self.entries@)
    }
}

impl<T> Table<T> {
    /// The empty table.
    pub fn new() -> (table: Table<T>)
        ensures
            table@ == Map::<Seq<char>, T>::empty(),
    {
        let table = Table { entries: Vec::new() };
        assert(table@ =~= Map::<Seq<char>, T>::empty());
        table
    }

    /// The place of the first entry under `key`, if there is one.
    fn position(&self, key: &String) -> (found: Option<usize>)
        ensures
            match found {
                Some(i) => first_at(self.entries@, key@, i as int),
                None => forall|j: int|
                    0 <= j < self.entries@.len() ==> (#[trigger] self.entries@[j]).0@ != key@,
            },
    {
        let mut i: usize = 0;
        while i < self.entries.len()
            invariant
                i <= self.entries@.len(),
                forall|j: int| 0 <= j < i ==> (#[trigger] self.entries@[j]).0@ != key@,
            decreases self.entries@.len() - i,
        {
            if self.entries[i].0 == *key {
                return Some(i);
            }
            i += 1;
        }
        None
    }

    /// The value under `key`, if there is one.
    pub fn get(&self, key: &String) -> (found: Option<&T>)
        ensures
            found == (if self@.contains_key(key@) {
                Some(&self@[key@])
            } else {
                None
            }),
    {
        match self.position(key) {
            Some(i) => {
                proof {
                    lemma_mapping_at(self.entries@, key@, i as int);
                }
                Some(&self.entries[i].1)
            },
            None => {
                proof {
                    lemma_mapping_without(self.entries@, key@);
                }
                None
            },
        }
    }

    /// Puts `value` under `key`. A value that stood there before is replaced.
    pub fn insert(&mut self, key: String, value: T)
        ensures
            final(self)@ == old(self)@.insert(key@, value),
    {
        let ghost before = self.entries@;
        let ghost name = key@;
        match self.position(&key) {
            Some(i) => {
                self.entries.set(i, (key, value));
                proof {
                    assert forall|j: int| 0 <= j < i implies (#[trigger] self.entries@[j]).0@
                        != name by {
                        assert(self.entries@[j] == before[j]);
                    }
                    lemma_mapping_put(before, self.entries@, name, value, i as int);
                }
            },
            None => {
                self.entries.push((key, value));
                proof {
                    assert forall|j: int| 0 <= j < before.len() implies (
                    #[trigger] self.entries@[j]).0@ != name by {
                        assert(self.entries@[j] == before[j]);
                    }
                    lemma_mapping_put(before, self.entries@, name, value, before.len() as int);
                }
            },
        }
    }
}

} // verus!
