//! The town and the places in it.
use vstd::prelude::*;

verus! {

/// A town with its store, blacksmith, field and mine.  The places are type
/// parameters: the town only holds them.
pub struct Town<S, B, F, M> {
    pub name: String,
    pub store: S,
    pub blacksmith: B,
    pub field: F,
    pub mine: M,
}

impl<S, B, F, M> Town<S, B, F, M> {
    /// A town made of the given name and places.
    pub fn new(name: String, store: S, blacksmith: B, field: F, mine: M) -> (t: Self)
        ensures
            t.name == name,
            t.store == store,
            t.blacksmith == blacksmith,
            t.field == field,
            t.mine == mine,
    {
        Town { name, store, blacksmith, field, mine }
    }
}

} // verus!
