//! A map from names to values, kept as the list of its insertions.

use vstd::prelude::*;
use vstd::string::*;
use crate::text::same_text;

verus! {

/// The map that the insertions `entries` build, one after the other: a
/// later insertion under a name replaces an earlier one.
pub open spec fn built<V>(entries: Seq<(String, V)>) -> Map<Seq<char>, V>
    decreases entries.len(),
{
    if entries.len() == 0 {
        Map::empty()
    } else {
        built(entries.drop_last()).insert(entries.last().0@, entries.last().1)
    }
}

/// A map from names to values.
#[derive(Debug, Clone, PartialEq, Eq)]
pub struct Directory<V> {
    entries: Vec<(String, V)>,
}

impl<V> View for Directory<V> {
    type V = Map<Seq<char>, V>;

    closed spec fn view(&self) -> Map<Seq<char>, V> {
        built(self.entries@)
    }
}

impl<V> Directory<V> {
    /// The map without entries.
    pub fn new() -> (directory: Directory<V>)
        ensures
            directory@ == Map::<Seq<char>, V>::empty(),
    {
        Directory { entries: Vec::new() }
    }

    /// Maps `name` to `value`, in place of what it was mapped to before.
    pub fn put(&mut self, name: &str, value: V)
        ensures
            final(self)@ == old(self)@.insert(name@, value),
    {
        self.entries.push((String::from_str(name), value));
        assert(self.entries@.drop_last() =~= old(self).entries@);
    }

    /// What `name` is mapped to, if anything.
    pub fn get(&self, name: &str) -> (value: Option<&V>)
        ensures
            match value {
                Some(found) => self@.get(name@) == Some(*found),
                None => self@.get(name@) == None::<V>,
            },
    {
        let mut i: usize = self.entries.len();
        assert(self.entries@.take(i as int) =~= self.entries@);
        while i > 0
            invariant
                i <= self.entries.len(),
                self@.get(name@) == built(self.entries@.take(i as int)).get(name@),
            decreases i,
        {
            let ghost prefix = self.entries@.take(i as int);
            assert(prefix.drop_last() =~= self.entries@.take(i - 1));
            assert(prefix.last() == self.entries@[i - 1]);
            i -= 1;
            if same_text(self.entries[i].0.as_str(), name) {
                return Some(&self.entries[i].1);
            }
        }
        None
    }

    /// Whether `name` is mapped to anything.
    pub fn contains(&self, name: &str) -> (present: bool)
        ensures
            present == self@.contains_key(name@),
    {
        self.get(name).is_some()
    }
}

} // verus!
