use vstd::prelude::*;

verus! {

/// A stored audio source, known by its id.
pub struct Source {
    pub id: String,
}

} // verus!
