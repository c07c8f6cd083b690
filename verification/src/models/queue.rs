use vstd::prelude::*;

verus! {

/// A stored queue, known by its id.
pub struct Queue {
    pub id: String,
}

} // verus!
