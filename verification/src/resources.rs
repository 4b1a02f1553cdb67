//! The table of executables packaged with the application, and the lookup
//! of one of them for a platform.

use vstd::prelude::*;
use vstd::string::*;
use crate::text::same_text;

verus! {

/// One packaged executable: the logical name it is asked for by, the
/// platform it was built for, and where it lies.
#[derive(Debug, Clone, PartialEq, Eq)]
pub struct ResourceEntry {
    identifier: String,
    target: String,
    path: String,
}

/// What a [`ResourceEntry`] holds, as character sequences.
pub struct ResourceEntryView {
    pub identifier: Seq<char>,
    pub target: Seq<char>,
    pub path: Seq<char>,
}

impl View for ResourceEntry {
    type V = ResourceEntryView;

    closed spec fn view(&self) -> ResourceEntryView {
        ResourceEntryView { identifier: self.identifier@, target: self.target@, path: self.path@ }
    }
}

impl ResourceEntry {
    /// The entry that offers `identifier` for the platform `target` at `path`.
    pub fn new(identifier: &str, target: &str, path: &str) -> (entry: ResourceEntry)
        ensures
            entry@ == (ResourceEntryView { identifier: identifier@, target: target@, path: path@ }),
    {
        ResourceEntry {
            identifier: String::from_str(identifier),
            target: String::from_str(target),
            path: String::from_str(path),
        }
    }

    /// The logical name of the executable.
    pub fn identifier(&self) -> (identifier: &str)
        ensures
            identifier@ == self@.identifier,
    {
        self.identifier.as_str()
    }

    /// The platform the executable was built for.
    pub fn target(&self) -> (target: &str)
        ensures
            target@ == self@.target,
    {
        self.target.as_str()
    }

    /// Where the executable lies.
    pub fn path(&self) -> (path: &str)
        ensures
            path@ == self@.path,
    {
        self.path.as_str()
    }
}

/// Whether `entry` offers `identifier` for the platform `target`.
pub open spec fn offers(
    entry: ResourceEntryView,
    identifier: Seq<char>,
    target: Seq<char>,
) -> bool {
    entry.identifier == identifier && entry.target == target
}

/// Whether the entry at `index` is the only one of `entries` that offers
/// `identifier` for `target`.
pub open spec fn sole_offer(
    entries: Seq<ResourceEntryView>,
    identifier: Seq<char>,
    target: Seq<char>,
    index: int,
) -> bool {
    &&& 0 <= index < entries.len()
    &&& offers(entries[index], identifier, target)
    &&& forall|other: int|
        0 <= other < entries.len() && offers(#[trigger] entries[other], identifier, target)
            ==> other == index
}

/// The path that `identifier` resolves to on the platform `target`: that of
/// the one entry that offers it. There is none where no entry offers it, be
/// it that the identifier is unknown or that it was not packaged for this
/// platform, and none where several entries do.
pub open spec fn resolve_spec(
    entries: Seq<ResourceEntryView>,
    identifier: Seq<char>,
    target: Seq<char>,
) -> Option<Seq<char>> {
    if exists|index: int| sole_offer(entries, identifier, target, index) {
        Some(entries[choose|index: int| sole_offer(entries, identifier, target, index)].path)
    } else {
        None
    }
}

/// The executables packaged with the application, in the order in which the
/// packaging listed them.
#[derive(Debug, Clone, PartialEq, Eq)]
pub struct ResourceTable {
    entries: Vec<ResourceEntry>,
}

impl View for ResourceTable {
    type V = Seq<ResourceEntryView>;

    closed spec fn view(&self) -> Seq<ResourceEntryView> {
        self.entries@.map_values(|entry: ResourceEntry| entry@)
    }
}

impl ResourceTable {
    /// The table without entries.
    pub fn new() -> (table: ResourceTable)
        ensures
            table@ == Seq::<ResourceEntryView>::empty(),
    {
        let table = ResourceTable { entries: Vec::new() };
        assert(table@ =~= Seq::<ResourceEntryView>::empty());
        table
    }

    /// Appends `entry` to the table.
    pub fn add(&mut self, entry: ResourceEntry)
        ensures
            final(self)@ == old(self)@.push(entry@),
    {
        self.entries.push(entry);
        assert(self@ =~= old(self)@.push(entry@));
    }

    /// The number of entries.
    pub fn len(&self) -> (len: usize)
        ensures
            len == self@.len(),
    {
        self.entries.len()
    }

    /// The path of the executable `identifier` for the platform `target`,
    /// where exactly one entry offers it.
    pub fn resolve(&self, identifier: &str, target: &str) -> (path: Option<String>)
        ensures
            match resolve_spec(self@, identifier@, target@) {
                Some(expected) => path is Some && path->Some_0@ == expected,
                None => path is None,
            },
    {
        let mut found: Option<usize> = None;
        let mut i: usize = 0;
        while i < self.entries.len()
            invariant
                i <= self.entries.len(),
                self@.len() == self.entries.len(),
                match found {
                    Some(first) => first < i && offers(self@[first as int], identifier@, target@)
                        && forall|k: int|
                        0 <= k < i && offers(#[trigger] self@[k], identifier@, target@) ==> k
                            == first,
                    None => forall|k: int|
                        0 <= k < i ==> !offers(#[trigger] self@[k], identifier@, target@),
                },
            decreases self.entries.len() - i,
        {
            let entry = &self.entries[i];
            assert(self@[i as int] == entry@);
            if same_text(entry.identifier.as_str(), identifier) && same_text(
                entry.target.as_str(),
                target,
            ) {
                match found {
                    Some(first) => {
                        assert(forall|index: int|
                            !sole_offer(self@, identifier@, target@, index)) by {
                            assert(offers(self@[first as int], identifier@, target@));
                            assert(offers(self@[i as int], identifier@, target@));
                        }
                        return None;
                    },
                    None => {
                        found = Some(i);
                    },
                }
            }
            i += 1;
        }
        match found {
            Some(first) => {
                assert(sole_offer(self@, identifier@, target@, first as int));
                let path = self.entries[first].path.clone();
                assert(self@[first as int] == self.entries[first as int]@);
                Some(path)
            },
            None => None,
        }
    }
}

} // verus!
