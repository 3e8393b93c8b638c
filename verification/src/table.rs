//! A table from text keys to text values, in which a later entry for a key
//! replaces an earlier one.

use vstd::prelude::*;
use crate::text::{chars_of, same_chars};

verus! {

/// One stored entry: a key and the value bound to it.
#[derive(Clone, Debug)]
pub struct Entry {
    pub key: Vec<char>,
    pub value: String,
}

/// The map that a sequence of entries stands for: each entry is inserted in
/// turn, so the last entry for a key is the one that counts.
pub open spec fn entries_map(entries: Seq<Entry>) -> Map<Seq<char>, Seq<char>>
    decreases entries.len(),
{
    if entries.len() == 0 {
        Map::empty()
    } else {
        entries_map(entries.drop_last()).insert(entries.last().key@, entries.last().value@)
    }
}

/// A table from text keys to text values.
#[derive(Clone, Debug)]
pub struct TextMap {
    pub entries: Vec<Entry>,
}

impl View for TextMap {
    type V = Map<Seq<char>, Seq<char>>;

    open spec fn view(&self) -> Map<Seq<char>, Seq<char>> {
        entries_map(self.entries@)
    }
}

impl TextMap {
    /// The empty table.
    pub fn new() -> (table: TextMap)
        ensures
            table@ == Map::<Seq<char>, Seq<char>>::empty(),
    {
        TextMap { entries: Vec::new() }
    }

    /// Binds `key` to `value`, replacing what `key` was bound to.
    pub fn insert(&mut self, key: &str, value: &str)
        ensures
            final(self)@ == old(self)@.insert(key@, value@),
    {
        let entry = Entry { key: chars_of(key), value: value.to_owned() };
        self.entries.push(entry);
        proof {
            assert(final(self).entries@.drop_last() =~= old(self).entries@);
        }
    }

    /// The value bound to `key`, if any.
    pub fn get(&self, key: &str) -> (found: Option<String>)
        ensures
            found is Some == self@.contains_key(key@),
            found is Some ==> found->0@ == self@[key@],
    {
        let wanted = chars_of(key);
        let mut i: usize = self.entries.len();
        proof {
            assert(self.entries@.take(i as int) =~= self.entries@);
        }
        while i > 0
            invariant
                i <= self.entries.len(),
                wanted@ == key@,
                self@.contains_key(key@) == entries_map(self.entries@.take(i as int)).contains_key(
                    key@,
                ),
                self@.contains_key(key@) ==> self@[key@] == entries_map(
                    self.entries@.take(i as int),
                )[key@],
            decreases i,
        {
            proof {
                assert(self.entries@.take(i as int).drop_last() =~= self.entries@.take(i - 1));
                assert(self.entries@.take(i as int).last() == self.entries@[i - 1]);
            }
            i -= 1;
            if same_chars(&self.entries[i].key, &wanted) {
                return Some(self.entries[i].value.clone());
            }
        }
        None
    }

    /// Whether `key` is bound.
    pub fn contains_key(&self, key: &str) -> (bound: bool)
        ensures
            bound == self@.contains_key(key@),
    {
        self.get(key).is_some()
    }
}

} // verus!
