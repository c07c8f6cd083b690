use vstd::prelude::*;

verus! {

/// A track that was transmitted, with the Unix times of its first and
/// its latest playback.
pub struct Transmission {
    pub id: String,
    pub href: String,
    pub initially_played: i64,
    pub last_played: i64,
}

} // verus!
