use vstd::prelude::*;

verus! {

/// A row of the transmissions table: a track, with the Unix times of its
/// first and its latest playback.
pub struct Transmission {
    pub id: String,
    pub href: String,
    pub initially_played: u64,
    pub last_played: u64,
}

} // verus!
