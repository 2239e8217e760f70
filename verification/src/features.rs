//! Feature flags: a small map from names to switches.

use crate::text::text_eq;
use vstd::prelude::*;
use vstd::set_lib::lemma_subset_equality;

verus! {

/// Whether no two entries carry the same name.
pub open spec fn names_distinct(entries: Seq<(String, bool)>) -> bool {
    forall|i: int, j: int|
        0 <= i < j < entries.len() ==> (#[trigger] entries[i]).0@ != (#[trigger] entries[j]).0@
}

/// Whether some entry carries `name`.
pub open spec fn has_name(entries: Seq<(String, bool)>, name: Seq<char>) -> bool {
    exists|i: int| 0 <= i < entries.len() && (#[trigger] entries[i]).0@ == name
}

/// The map that a list of entries stands for.
pub open spec fn entries_map(entries: Seq<(String, bool)>) -> Map<Seq<char>, bool> {
    Map::new(
        |name: Seq<char>| has_name(entries, name),
        |name: Seq<char>|
            entries[choose|i: int| 0 <= i < entries.len() && (#[trigger] entries[i]).0@ == name].1,
    )
}

/// The names that a map of flags switches on.
pub open spec fn enabled_names(flags: Map<Seq<char>, bool>) -> Set<Seq<char>> {
    flags.dom().filter(|name: Seq<char>| flags[name])
}

/// An entry of a list with distinct names is found under its name.
proof fn lemma_entry_is_mapped(entries: Seq<(String, bool)>, i: int)
    requires
        names_distinct(entries),
        0 <= i < entries.len(),
    ensures
        entries_map(entries).contains_key(entries[i].0@),
        entries_map(entries)[entries[i].0@] == entries[i].1,
{
    let name = entries[i].0@;
    assert(has_name(entries, name));
    let j = choose|j: int| 0 <= j < entries.len() && (#[trigger] entries[j]).0@ == name;
    assert(j == i);
}

/// Appending an entry under a new name inserts it into the map.
proof fn lemma_push_inserts(entries: Seq<(String, bool)>, entry: (String, bool))
    requires
        names_distinct(entries),
        !has_name(entries, entry.0@),
    ensures
        names_distinct(entries.push(entry)),
        entries_map(entries.push(entry)) == entries_map(entries).insert(entry.0@, entry.1),
{
    let longer = entries.push(entry);
    assert(names_distinct(longer)) by {
        assert forall|i: int, j: int| 0 <= i < j < longer.len() implies (#[trigger] longer[i]).0@
            != (#[trigger] longer[j]).0@ by {
            if j < entries.len() {
                assert(longer[i] == entries[i]);
                assert(longer[j] == entries[j]);
            } else {
                assert(longer[i] == entries[i]);
            }
        }
    }
    let grown = entries_map(entries).insert(entry.0@, entry.1);
    assert forall|name: Seq<char>| #[trigger]
        entries_map(longer).contains_key(name) == grown.contains_key(name) by {
        if has_name(longer, name) {
            let i = choose|i: int| 0 <= i < longer.len() && (#[trigger] longer[i]).0@ == name;
            if i < entries.len() {
                assert(entries[i] == longer[i]);
            }
        }
        if has_name(entries, name) {
            let i = choose|i: int| 0 <= i < entries.len() && (#[trigger] entries[i]).0@ == name;
            assert(longer[i] == entries[i]);
        }
        if name == entry.0@ {
            assert(longer[entries.len() as int] == entry);
        }
    }
    assert forall|name: Seq<char>| #[trigger] grown.contains_key(name) implies entries_map(
        longer,
    )[name] == grown[name] by {
        if name == entry.0@ {
            assert(longer[entries.len() as int] == entry);
            lemma_entry_is_mapped(longer, entries.len() as int);
        } else {
            let i = choose|i: int| 0 <= i < entries.len() && (#[trigger] entries[i]).0@ == name;
            assert(longer[i] == entries[i]);
            lemma_entry_is_mapped(longer, i);
            lemma_entry_is_mapped(entries, i);
        }
    }
    assert(entries_map(longer) =~= grown);
}

/// Replacing the switch of an entry replaces it in the map.
proof fn lemma_update_inserts(entries: Seq<(String, bool)>, i: int, entry: (String, bool))
    requires
        names_distinct(entries),
        0 <= i < entries.len(),
        entry.0@ == entries[i].0@,
    ensures
        names_distinct(entries.update(i, entry)),
        entries_map(entries.update(i, entry)) == entries_map(entries).insert(entry.0@, entry.1),
{
    let changed = entries.update(i, entry);
    assert(names_distinct(changed)) by {
        assert forall|a: int, b: int| 0 <= a < b < changed.len() implies (#[trigger] changed[a]).0@
            != (#[trigger] changed[b]).0@ by {
            assert(changed[a].0@ == entries[a].0@);
            assert(changed[b].0@ == entries[b].0@);
        }
    }
    let replaced = entries_map(entries).insert(entry.0@, entry.1);
    assert forall|name: Seq<char>| #[trigger]
        entries_map(changed).contains_key(name) == replaced.contains_key(name) by {
        if has_name(changed, name) {
            let j = choose|j: int| 0 <= j < changed.len() && (#[trigger] changed[j]).0@ == name;
            assert(entries[j].0@ == name);
        }
        if has_name(entries, name) {
            let j = choose|j: int| 0 <= j < entries.len() && (#[trigger] entries[j]).0@ == name;
            assert(changed[j].0@ == name);
        }
        if name == entry.0@ {
            assert(changed[i] == entry);
        }
    }
    assert forall|name: Seq<char>| #[trigger] replaced.contains_key(name) implies entries_map(
        changed,
    )[name] == replaced[name] by {
        if name == entry.0@ {
            assert(changed[i] == entry);
            lemma_entry_is_mapped(changed, i);
        } else {
            let j = choose|j: int| 0 <= j < entries.len() && (#[trigger] entries[j]).0@ == name;
            assert(changed[j] == entries[j]);
            lemma_entry_is_mapped(changed, j);
            lemma_entry_is_mapped(entries, j);
        }
    }
    assert(entries_map(changed) =~= replaced);
}

/// A list with distinct names stands for a finite map with one key per
/// entry.
proof fn lemma_map_size(entries: Seq<(String, bool)>)
    requires
        names_distinct(entries),
    ensures
        entries_map(entries).dom().finite(),
        entries_map(entries).dom().len() == entries.len(),
        enabled_names(entries_map(entries)).finite(),
        enabled_names(entries_map(entries)).len() == enabled_entries(entries),
    decreases entries.len(),
{
    if entries.len() == 0 {
        assert(entries_map(entries).dom() =~= Set::<Seq<char>>::empty());
        assert(enabled_names(entries_map(entries)) =~= Set::<Seq<char>>::empty());
    } else {
        let front = entries.drop_last();
        let entry = entries.last();
        assert(entries == front.push(entry));
        assert(names_distinct(front)) by {
            assert forall|i: int, j: int| 0 <= i < j < front.len() implies (#[trigger] front[i]).0@
                != (#[trigger] front[j]).0@ by {
                assert(front[i] == entries[i]);
                assert(front[j] == entries[j]);
            }
        }
        assert(!has_name(front, entry.0@)) by {
            if has_name(front, entry.0@) {
                let i = choose|i: int| 0 <= i < front.len() && (#[trigger] front[i]).0@ == entry.0@;
                assert(front[i] == entries[i]);
                assert(entries[entries.len() - 1] == entry);
            }
        }
        lemma_map_size(front);
        lemma_push_inserts(front, entry);
        let before = entries_map(front);
        let after = entries_map(entries);
        assert(after.dom() =~= before.dom().insert(entry.0@));
        if entry.1 {
            assert(enabled_names(after) =~= enabled_names(before).insert(entry.0@));
        } else {
            assert(enabled_names(after) =~= enabled_names(before));
        }
    }
}

/// How many entries of a list are switched on.
spec fn enabled_entries(entries: Seq<(String, bool)>) -> nat
    decreases entries.len(),
{
    if entries.len() == 0 {
        0
    } else {
        enabled_entries(entries.drop_last()) + if entries.last().1 {
            1nat
        } else {
            0nat
        }
    }
}

/// Named switches. A name occurs at most once; setting a name that is
/// already present replaces its switch. Two values are equal when they hold
/// the same switches under the same names, in whatever order they were set.
#[derive(Debug)]
pub struct FeatureFlags {
    entries: Vec<(String, bool)>,
}

impl View for FeatureFlags {
    type V = Map<Seq<char>, bool>;

    closed spec fn view(&self) -> Map<Seq<char>, bool> {
        entries_map(self.entries@)
    }
}

impl FeatureFlags {
    #[verifier::type_invariant]
    spec fn names_occur_once(self) -> bool {
        names_distinct(self.entries@)
    }

    /// The flags as they were set: each name once, with its switch.
    pub closed spec fn listing(self) -> Seq<(String, bool)> {
        self.entries@
    }

    /// No flags at all.
    pub fn new() -> (flags: FeatureFlags)
        ensures
            flags@ == Map::<Seq<char>, bool>::empty(),
    {
        let flags = FeatureFlags { entries: Vec::new() };
        assert(flags@ =~= Map::<Seq<char>, bool>::empty());
        flags
    }

    /// Where `name` stands among the entries.
    fn position(&self, name: &str) -> (found: Option<usize>)
        ensures
            match found {
                Some(i) => i < self.entries@.len() && self.entries@[i as int].0@ == name@,
                None => !has_name(self.entries@, name@),
            },
    {
        let mut i: usize = 0;
        while i < self.entries.len()
            invariant
                i <= self.entries@.len(),
                forall|j: int| 0 <= j < i ==> (#[trigger] self.entries@[j]).0@ != name@,
            decreases self.entries@.len() - i,
        {
            if text_eq(self.entries[i].0.as_str(), name) {
                return Some(i);
            }
            i += 1;
        }
        None
    }

    /// Looks up the switch set for `name`.
    pub fn get(&self, name: &str) -> (switch: Option<bool>)
        ensures
            switch == if self@.contains_key(name@) {
                Some(self@[name@])
            } else {
                None
            },
    {
        proof {
            use_type_invariant(self);
        }
        match self.position(name) {
            Some(i) => {
                proof {
                    lemma_entry_is_mapped(self.entries@, i as int);
                }
                Some(self.entries[i].1)
            },
            None => None,
        }
    }

    /// Sets the switch for `name`, and returns the switch that it replaces.
    pub fn insert(&mut self, name: String, enabled: bool) -> (previous: Option<bool>)
        ensures
            final(self)@ == old(self)@.insert(name@, enabled),
            previous == if old(self)@.contains_key(name@) {
                Some(old(self)@[name@])
            } else {
                None
            },
    {
        proof {
            use_type_invariant(&*self);
        }
        let found = self.position(name.as_str());
        let mut entries: Vec<(String, bool)> = Vec::new();
        std::mem::swap(&mut self.entries, &mut entries);
        let previous = match found {
            Some(i) => {
                let previous = entries[i].1;
                proof {
                    lemma_entry_is_mapped(entries@, i as int);
                    lemma_update_inserts(entries@, i as int, (name, enabled));
                }
                entries.set(i, (name, enabled));
                Some(previous)
            },
            None => {
                proof {
                    lemma_push_inserts(entries@, (name, enabled));
                }
                entries.push((name, enabled));
                None
            },
        };
        self.entries = entries;
        previous
    }

    /// How many names have a switch.
    pub fn len(&self) -> (count: usize)
        ensures
            self@.dom().finite(),
            count == self@.len(),
    {
        proof {
            use_type_invariant(self);
            lemma_map_size(self.entries@);
        }
        self.entries.len()
    }

    /// Whether no name has a switch.
    pub fn is_empty(&self) -> (empty: bool)
        ensures
            empty == self@.is_empty(),
    {
        proof {
            use_type_invariant(self);
            lemma_map_size(self.entries@);
            if self.entries@.len() > 0 {
                lemma_entry_is_mapped(self.entries@, 0);
            }
        }
        self.entries.len() == 0
    }

    /// How many names are switched on.
    pub fn enabled_count(&self) -> (count: usize)
        ensures
            enabled_names(self@).finite(),
            count == enabled_names(self@).len(),
    {
        proof {
            use_type_invariant(self);
            lemma_map_size(self.entries@);
        }
        let mut count: usize = 0;
        let mut i: usize = 0;
        while i < self.entries.len()
            invariant
                i <= self.entries@.len(),
                count <= i,
                count == enabled_entries(self.entries@.take(i as int)),
            decreases self.entries@.len() - i,
        {
            proof {
                let next = self.entries@.take(i + 1);
                assert(next.drop_last() == self.entries@.take(i as int));
                assert(next.last() == self.entries@[i as int]);
            }
            if self.entries[i].1 {
                count += 1;
            }
            i += 1;
        }
        assert(self.entries@.take(i as int) == self.entries@);
        count
    }

    /// The flags one by one, each name once, in the order in which the names
    /// were first set.
    pub fn entries(&self) -> (list: &Vec<(String, bool)>)
        ensures
            list@ == self.listing(),
            names_distinct(list@),
            self@ == entries_map(list@),
    {
        proof {
            use_type_invariant(self);
        }
        &self.entries
    }
}

impl Clone for FeatureFlags {
    fn clone(&self) -> (copy: FeatureFlags)
        ensures
            copy@ == self@,
            copy.listing() == self.listing(),
    {
        proof {
            use_type_invariant(self);
        }
        let mut entries: Vec<(String, bool)> = Vec::new();
        let mut i: usize = 0;
        while i < self.entries.len()
            invariant
                i <= self.entries@.len(),
                entries@ == self.entries@.take(i as int),
            decreases self.entries@.len() - i,
        {
            let name = self.entries[i].0.clone();
            entries.push((name, self.entries[i].1));
            assert(self.entries@.take(i + 1) == self.entries@.take(i as int).push(
                self.entries@[i as int],
            ));
            i += 1;
        }
        assert(self.entries@.take(i as int) == self.entries@);
        FeatureFlags { entries }
    }
}

impl PartialEq for FeatureFlags {
    fn eq(&self, other: &FeatureFlags) -> (same: bool) {
        proof {
            use_type_invariant(self);
            use_type_invariant(other);
            lemma_map_size(self.entries@);
            lemma_map_size(other.entries@);
        }
        if self.entries.len() != other.entries.len() {
            return false;
        }
        let mut i: usize = 0;
        while i < self.entries.len()
            invariant
                i <= self.entries@.len(),
                names_distinct(self.entries@),
                forall|j: int|
                    0 <= j < i ==> {
                        &&& other@.contains_key((#[trigger] self.entries@[j]).0@)
                        &&& other@[self.entries@[j].0@] == self.entries@[j].1
                    },
            decreases self.entries@.len() - i,
        {
            proof {
                lemma_entry_is_mapped(self.entries@, i as int);
            }
            match other.get(self.entries[i].0.as_str()) {
                Some(switch) => {
                    if switch != self.entries[i].1 {
                        return false;
                    }
                },
                None => {
                    return false;
                },
            }
            i += 1;
        }
        proof {
            assert(self@.dom().subset_of(other@.dom())) by {
                assert forall|name: Seq<char>| self@.dom().contains(name) implies other@.dom().contains(
                    name,
                ) by {
                    let j = choose|j: int|
                        0 <= j < self.entries@.len() && (#[trigger] self.entries@[j]).0@ == name;
                    assert(other@.contains_key(self.entries@[j].0@));
                }
            }
            lemma_subset_equality(self@.dom(), other@.dom());
            assert forall|name: Seq<char>| self@.dom().contains(name) implies self@[name]
                == other@[name] by {
                let j = choose|j: int|
                    0 <= j < self.entries@.len() && (#[trigger] self.entries@[j]).0@ == name;
                lemma_entry_is_mapped(self.entries@, j);
            }
            assert(self@ =~= other@);
        }
        true
    }
}

impl vstd::std_specs::cmp::PartialEqSpecImpl for FeatureFlags {
    open spec fn obeys_eq_spec() -> bool {
        true
    }

    open spec fn eq_spec(&self, other: &FeatureFlags) -> bool {
        self@ == other@
    }
}

} // verus!
