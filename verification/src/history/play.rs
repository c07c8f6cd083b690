use vstd::prelude::*;

verus! {

/// One playback of a track, with the Unix times of its first and its
/// latest playback.
pub struct Play {
    pub id: String,
    pub href: String,
    pub initially_played: u64,
    pub last_played: u64,
}

} // verus!
