//! The records of which file is shown in which window.

use vstd::hash_map::StringHashMap;
use vstd::prelude::*;

verus! {

/// The label that `m` records for `identity`, if there is one.
pub open spec fn recorded_label(m: Map<Seq<char>, Seq<char>>, identity: Seq<char>) -> Option<
    Seq<char>,
> {
    if m.contains_key(identity) {
        Some(m[identity])
    } else {
        None
    }
}

/// What a lookup answers: the recorded label, provided its window is among the live ones.
pub open spec fn lookup_answer(
    m: Map<Seq<char>, Seq<char>>,
    identity: Seq<char>,
    live: Set<Seq<char>>,
) -> Option<Seq<char>> {
    if m.contains_key(identity) && live.contains(m[identity]) {
        Some(m[identity])
    } else {
        None
    }
}

/// What a lookup leaves behind: the map itself on a hit, and otherwise the map without
/// any entry for `identity`, so that an entry whose window is gone does not survive it.
pub open spec fn after_lookup(
    m: Map<Seq<char>, Seq<char>>,
    identity: Seq<char>,
    live: Set<Seq<char>>,
) -> Map<Seq<char>, Seq<char>> {
    if lookup_answer(m, identity, live) is Some {
        m
    } else {
        m.remove(identity)
    }
}

/// The labels of a snapshot of live windows, as a set.
pub open spec fn live_set(live: Seq<Seq<char>>) -> Set<Seq<char>> {
    Set::new(|label: Seq<char>| live.contains(label))
}

/// Whether `label` is one of the labels in `live`.
pub fn is_live(live: &Vec<String>, label: &String) -> (r: bool)
    ensures
        r == live_set(live.deep_view()).contains(label@),
{
    let mut i: usize = 0;
    while i < live.len()
        invariant
            i <= live.len(),
            forall|j: int| 0 <= j < i ==> live[j]@ != label@,
        decreases live.len() - i,
    {
        if live[i] == *label {
            assert(live.deep_view()[i as int] == label@);
            return true;
        }
        i += 1;
    }
    false
}

/// The mapping from each opened file's identity to the label of the window that shows it.
pub struct SessionRegistry {
    windows: StringHashMap<String>,
}

impl View for SessionRegistry {
    type V = Map<Seq<char>, Seq<char>>;

    closed spec fn view(&self) -> Map<Seq<char>, Seq<char>> {
        self.windows@.map_values(|label: String| label@)
    }
}

impl SessionRegistry {
    /// A registry without entries.
    pub fn new() -> (r: Self)
        ensures
            r@ == Map::<Seq<char>, Seq<char>>::empty(),
    {
        let r = SessionRegistry { windows: StringHashMap::new() };
        r
    }

    /// Records that the window `label` shows `identity`, replacing any earlier record
    /// for the same identity.
    pub fn insert(&mut self, identity: String, label: String)
        ensures
            final(self)@ == old(self)@.insert(identity@, label@),
    {
        self.windows.insert(identity, label);
    }

    /// Drops the record for `identity`; without one, nothing changes.
    pub fn remove(&mut self, identity: &str)
        ensures
            final(self)@ == old(self)@.remove(identity@),
    {
        self.windows.remove(identity);
    }

    /// Whether there is a record for `identity`.
    pub fn contains(&self, identity: &str) -> (r: bool)
        ensures
            r == self@.contains_key(identity@),
    {
        self.windows.contains_key(identity)
    }

    /// The label recorded for `identity`, whether or not its window still exists.
    pub fn label_of(&self, identity: &str) -> (r: Option<String>)
        ensures
            r.deep_view() == recorded_label(self@, identity@),
    {
        match self.windows.get(identity) {
            Some(label) => Some(label.clone()),
            None => None,
        }
    }

    /// The number of records.
    pub fn len(&self) -> (r: usize)
        ensures
            r == self@.len(),
    {
        broadcast use vstd::hash_map::group_hash_map_axioms;

        assert(self@.dom() =~= self.windows@.dom());
        self.windows.len()
    }

    /// Whether there is no record at all.
    pub fn is_empty(&self) -> (r: bool)
        ensures
            r == (self@ == Map::<Seq<char>, Seq<char>>::empty()),
    {
        let r = self.windows.is_empty();
        proof {
            if r {
                assert(self@ =~= Map::<Seq<char>, Seq<char>>::empty());
            } else {
                assert(self@.dom() =~= self.windows@.dom());
            }
        }
        r
    }

    /// Finds the window that shows `identity` among the live windows. A record whose
    /// window is no longer live is dropped on the way, and the answer is then `None`.
    pub fn lookup(&mut self, identity: &str, live: &Vec<String>) -> (r: Option<String>)
        ensures
            r.deep_view() == lookup_answer(old(self)@, identity@, live_set(live.deep_view())),
            final(self)@ == after_lookup(old(self)@, identity@, live_set(live.deep_view())),
    {
        match self.label_of(identity) {
            Some(label) => {
                if is_live(live, &label) {
                    Some(label)
                } else {
                    self.remove(identity);
                    None
                }
            },
            None => None,
        }
    }
}

} // verus!
