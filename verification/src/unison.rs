//! How many unison voices an oscillator layer plays, and whether they are
//! spread.
use vstd::prelude::*;

verus! {

/// Most unison voices an oscillator layer plays.
pub const MAX_UNISON: usize = 32;

/// The unison set-up of an oscillator layer for one sample.
#[derive(Clone, Copy, Debug, PartialEq, Eq, Structural)]
pub struct UnisonPlan {
    /// Number of unison voices that sound.
    pub voices: usize,
    /// The voices are detuned and panned apart; a single voice is played at
    /// the base pitch in the middle.
    pub spread: bool,
}

/// The unison set-up for the requested number of voices: at most
/// `MAX_UNISON` voices sound, and they are spread only when more than one was
/// asked for.
pub fn plan_unison(unison_count: usize) -> (r: UnisonPlan)
    ensures
        r.voices == if unison_count < MAX_UNISON {
            unison_count
        } else {
            MAX_UNISON
        },
        r.voices <= MAX_UNISON,
        r.spread == (unison_count > 1),
{
    let voices = if unison_count < MAX_UNISON {
        unison_count
    } else {
        MAX_UNISON
    };
    UnisonPlan { voices, spread: unison_count > 1 }
}

} // verus!
