//! The names of the routines that a script defines.
use vstd::hash_set::StringHashSet;
use vstd::prelude::*;

verus! {

/// The set of names known to be routines of the script.
pub struct SymbolSet {
    names: StringHashSet,
}

impl View for SymbolSet {
    type V = Set<Seq<char>>;

    closed spec fn view(&self) -> Set<Seq<char>> {
        self.names@
    }
}

impl SymbolSet {
    /// The empty set.
    pub fn new() -> (r: Self)
        ensures
            r@ == Set::<Seq<char>>::empty(),
    {
        SymbolSet { names: StringHashSet::new() }
    }

    /// Adds a name; tells whether it was new.
    pub fn insert(&mut self, name: String) -> (r: bool)
        ensures
            final(self)@ == old(self)@.insert(name@),
            r == !old(self)@.contains(name@),
    {
        self.names.insert(name)
    }

    /// Whether the name is in the set.
    pub fn contains(&self, name: &str) -> (r: bool)
        ensures
            r == self@.contains(name@),
    {
        self.names.contains(name)
    }
}

} // verus!
