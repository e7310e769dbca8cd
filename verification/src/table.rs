//! A table that is keyed by texts.
use crate::text::same_text;
use vstd::prelude::*;

verus! {

/// A table of values under texts, none of which occurs twice.
#[derive(Debug)]
pub struct Table<T> {
    entries: Vec<(String, T)>,
}

/// Whether no text occurs twice in a list of entries.
spec fn distinct<T>(entries: Seq<(String, T)>) -> bool {
    forall|i: int, j: int|
        0 <= i < j < entries.len() ==> (#[trigger] entries[i]).0@ != (#[trigger] entries[j]).0@
}

/// Whether a text occurs in a list of entries.
spec fn occurs<T>(entries: Seq<(String, T)>, key: Seq<char>) -> bool {
    exists|i: int| 0 <= i < entries.len() && (#[trigger] entries[i]).0@ == key
}

/// Where a text occurs in a list of entries.
spec fn position<T>(entries: Seq<(String, T)>, key: Seq<char>) -> int {
    choose|i: int| 0 <= i < entries.len() && (#[trigger] entries[i]).0@ == key
}

/// What a list of entries says of each text.
spec fn contents<T>(entries: Seq<(String, T)>) -> Map<Seq<char>, T> {
    Map::new(
        |key: Seq<char>| occurs(entries, key),
        |key: Seq<char>| entries[position(entries, key)].1,
    )
}

impl<T> View for Table<T> {
    type V = Map<Seq<char>, T>;

    closed spec fn view(&self) -> Map<Seq<char>, T> {
        contents(self.entries@)
    }
}

/// Whether `values` are the values of a table, each under its own key once.
pub open spec fn are_values<K, T>(values: Seq<T>, table: Map<K, T>) -> bool {
    exists|keys: Seq<K>| #[trigger] are_values_under(values, keys, table)
}

/// Whether `values` are the values of a table under these keys, which are all it has.
pub open spec fn are_values_under<K, T>(values: Seq<T>, keys: Seq<K>, table: Map<K, T>) -> bool {
    &&& keys.no_duplicates()
    &&& keys.to_set() == table.dom()
    &&& values.len() == keys.len()
    &&& forall|i: int| 0 <= i < keys.len() ==> #[trigger] values[i] == table[keys[i]]
}

/// Each entry of a list without repetitions counts.
proof fn lemma_entry_counts<T>(entries: Seq<(String, T)>, i: int)
    requires
        distinct(entries),
        0 <= i < entries.len(),
    ensures
        contents(entries).contains_key(entries[i].0@),
        contents(entries)[entries[i].0@] == entries[i].1,
{
    let key = entries[i].0@;
    assert(occurs(entries, key));
    let p = position(entries, key);
    if p < i {
        assert(entries[p].0@ != entries[i].0@);
    } else if i < p {
        assert(entries[i].0@ != entries[p].0@);
    }
}

/// Taking an entry out of a list without repetitions takes its text out of the table.
proof fn lemma_removal<T>(entries: Seq<(String, T)>, i: int)
    requires
        distinct(entries),
        0 <= i < entries.len(),
    ensures
        distinct(entries.remove(i)),
        contents(entries.remove(i)) == contents(entries).remove(entries[i].0@),
{
    let rest = entries.remove(i);
    let expected = contents(entries).remove(entries[i].0@);
    assert forall|a: int, b: int| 0 <= a < b < rest.len() implies (#[trigger] rest[a]).0@ != (
    #[trigger] rest[b]).0@ by {
        let x = if a < i { a } else { a + 1 };
        let y = if b < i { b } else { b + 1 };
        assert(rest[a] == entries[x] && rest[b] == entries[y]);
    }
    assert forall|key: Seq<char>| #[trigger] contents(rest).dom().contains(key) == expected.dom().contains(key)
        && (contents(rest).dom().contains(key) ==> contents(rest)[key] == expected[key]) by {
        if contents(rest).contains_key(key) {
            let p = position(rest, key);
            let x = if p < i { p } else { p + 1 };
            assert(rest[p] == entries[x]);
            lemma_entry_counts(entries, x);
            lemma_entry_counts(entries, i);
            lemma_entry_counts(rest, p);
            if x < i {
                assert(entries[x].0@ != entries[i].0@);
            } else {
                assert(entries[i].0@ != entries[x].0@);
            }
        }
        if expected.contains_key(key) {
            let x = position(entries, key);
            let p = if x < i { x } else { x - 1 };
            assert(entries[x].0@ == key && x != i);
            assert(rest[p] == entries[x]);
            assert(occurs(rest, key));
        }
    }
    assert(contents(rest).dom() =~= expected.dom());
    assert(contents(rest) =~= expected);
}

/// Adding an entry under a new text adds it to the table.
proof fn lemma_addition<T>(entries: Seq<(String, T)>, entry: (String, T))
    requires
        distinct(entries),
        !occurs(entries, entry.0@),
    ensures
        distinct(entries.push(entry)),
        contents(entries.push(entry)) == contents(entries).insert(entry.0@, entry.1),
{
    let more = entries.push(entry);
    let expected = contents(entries).insert(entry.0@, entry.1);
    assert forall|a: int, b: int| 0 <= a < b < more.len() implies (#[trigger] more[a]).0@ != (
    #[trigger] more[b]).0@ by {
        assert(more[a] == entries[a]);
        if b < entries.len() {
            assert(more[b] == entries[b]);
        }
    }
    assert forall|key: Seq<char>| #[trigger] contents(more).dom().contains(key) == expected.dom().contains(key) && (
    contents(more).dom().contains(key) ==> contents(more)[key] == expected[key]) by {
        if contents(more).contains_key(key) {
            let p = position(more, key);
            lemma_entry_counts(more, p);
            if p < entries.len() {
                assert(more[p] == entries[p]);
                lemma_entry_counts(entries, p);
            }
        }
        if expected.contains_key(key) {
            if key == entry.0@ {
                assert(more[entries.len() as int].0@ == key);
            } else {
                let p = position(entries, key);
                assert(more[p] == entries[p]);
            }
            assert(occurs(more, key));
        }
    }
    assert(contents(more).dom() =~= expected.dom());
    assert(contents(more) =~= expected);
}

impl<T> Table<T> {
    /// That no text occurs twice.
    pub closed spec fn wf(&self) -> bool {
        distinct(self.entries@)
    }

    pub fn new() -> (r: Table<T>)
        ensures
            r.wf(),
            r@ == Map::<Seq<char>, T>::empty(),
    {
        let entries: Vec<(String, T)> = Vec::new();
        assert(contents(entries@) =~= Map::<Seq<char>, T>::empty());
        Table { entries }
    }

    fn find(&self, key: &str) -> (r: Option<usize>)
        ensures
            match r {
                Some(i) => i < self.entries@.len() && self.entries@[i as int].0@ == key@,
                None => !occurs(self.entries@, key@),
            },
    {
        let mut i: usize = 0;
        while i < self.entries.len()
            invariant
                i <= self.entries@.len(),
                forall|j: int| 0 <= j < i ==> (#[trigger] self.entries@[j]).0@ != key@,
            decreases self.entries@.len() - i,
        {
            if same_text(self.entries[i].0.as_str(), key) {
                return Some(i);
            }
            i = i + 1;
        }
        None
    }

    /// The value under `key`, if there is one.
    pub fn get(&self, key: &str) -> (r: Option<&T>)
        requires
            self.wf(),
        ensures
            match r {
                Some(value) => self@.contains_key(key@) && *value == self@[key@],
                None => !self@.contains_key(key@),
            },
    {
        match self.find(key) {
            Some(i) => {
                proof {
                    lemma_entry_counts(self.entries@, i as int);
                }
                Some(&self.entries[i].1)
            },
            None => None,
        }
    }

    /// Removes the value under `key`, if there is one.
    pub fn remove(&mut self, key: &str)
        requires
            old(self).wf(),
        ensures
            final(self).wf(),
            final(self)@ == old(self)@.remove(key@),
    {
        match self.find(key) {
            Some(i) => {
                proof {
                    lemma_removal(self.entries@, i as int);
                }
                let _ = self.entries.remove(i);
            },
            None => {
                assert(self@ =~= self@.remove(key@));
            },
        }
    }

    /// Puts a value under `key`, in the place of the one that may be there.
    pub fn insert(&mut self, key: String, value: T)
        requires
            old(self).wf(),
        ensures
            final(self).wf(),
            final(self)@ == old(self)@.insert(key@, value),
    {
        self.remove(key.as_str());
        proof {
            assert(!self@.contains_key(key@));
            lemma_addition(self.entries@, (key, value));
            assert(old(self)@.remove(key@).insert(key@, value) =~= old(self)@.insert(key@, value));
        }
        self.entries.push((key, value));
    }

    /// Empties the table and hands out its values.
    pub fn drain(&mut self) -> (r: Vec<T>)
        requires
            old(self).wf(),
        ensures
            final(self).wf(),
            final(self)@ == Map::<Seq<char>, T>::empty(),
            are_values(r@, old(self)@),
    {
        let mut entries: Vec<(String, T)> = Vec::new();
        std::mem::swap(&mut entries, &mut self.entries);
        assert(self@ =~= Map::<Seq<char>, T>::empty());
        let ghost all = entries@;
        let ghost keys = Seq::new(all.len(), |i: int| all[i].0@);
        let mut values: Vec<T> = Vec::new();
        for entry in it: entries
            invariant
                it.seq() == all,
                distinct(all),
                keys == Seq::new(all.len(), |i: int| all[i].0@),
                values@.len() == it.index(),
                forall|j: int| 0 <= j < it.index() ==> #[trigger] values@[j] == contents(all)[keys[j]],
        {
            proof {
                lemma_entry_counts(all, it.index() as int);
            }
            values.push(entry.1);
        }
        proof {
            assert forall|i: int, j: int| 0 <= i < keys.len() && 0 <= j < keys.len() && i != j implies keys[i]
                != keys[j] by {
                assert(all[i].0@ == keys[i] && all[j].0@ == keys[j]);
            }
            assert forall|key: Seq<char>| keys.to_set().contains(key) == contents(all).dom().contains(
                key,
            ) by {
                if keys.to_set().contains(key) {
                    let i = choose|i: int| 0 <= i < keys.len() && keys[i] == key;
                    assert(all[i].0@ == key);
                    assert(occurs(all, key));
                }
                if contents(all).dom().contains(key) {
                    let i = position(all, key);
                    assert(keys[i] == key);
                }
            }
            assert(keys.to_set() =~= contents(all).dom());
            assert(are_values_under(values@, keys, old(self)@));
        }
        values
    }
}

} // verus!
