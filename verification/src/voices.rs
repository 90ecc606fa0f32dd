//! The polyphonic voice pool: which voice a note-on takes, and the phase of
//! each voice's envelope.
//!
//! The pool always holds `MAX_POLY` voices. A note-on takes the first voice
//! whose envelope is idle; when every voice sounds, it takes voice 0 (the
//! first voice is stolen). Only note-on events start voices: the envelope is
//! one-shot, so a note-off and every other event leave the pool as it is.
use vstd::prelude::*;
use crate::envelope::{EnvState, EnvStep, is_sounding, step_outcome};

verus! {

/// Number of voices of the pool.
pub const MAX_POLY: usize = 32;

/// The part of a voice that the pool logic reads: the note it plays and the
/// phase of its envelope.
#[derive(Clone, Copy, Debug, PartialEq, Eq, Structural)]
pub struct Voice {
    pub note: u8,
    pub state: EnvState,
}

/// A MIDI event, as far as the voice pool is concerned.
#[derive(Clone, Copy, Debug, PartialEq, Eq, Structural)]
pub enum MidiEvent {
    /// A note starts.
    NoteOn { note: u8 },
    /// Any other event (note-off, controllers, ...).
    Other,
}

/// A voice that has not played yet, or was reset.
pub open spec fn silent_voice() -> Voice {
    Voice { note: 0, state: EnvState::Idle }
}

/// The state of a voice just after a note-on.
pub open spec fn started_voice(note: u8) -> Voice {
    Voice { note: note, state: EnvState::Attack }
}

/// Some voice of `voices` is idle.
pub open spec fn has_idle(voices: Seq<Voice>) -> bool {
    exists|j: int| 0 <= j < voices.len() && !is_sounding(#[trigger] voices[j].state)
}

/// `i` is the index of the first idle voice of `voices`.
pub open spec fn is_first_idle(voices: Seq<Voice>, i: int) -> bool {
    &&& 0 <= i < voices.len()
    &&& !is_sounding(voices[i].state)
    &&& forall|j: int| 0 <= j < i ==> is_sounding(#[trigger] voices[j].state)
}

/// The voice that a note-on takes: the first idle voice, or voice 0 when all
/// voices sound.
pub open spec fn chosen_voice(voices: Seq<Voice>) -> int {
    if has_idle(voices) {
        choose|i: int| is_first_idle(voices, i)
    } else {
        0
    }
}

/// An event stamped with `timing` (in samples from the start of the block) is
/// due at sample `sample_index` of the block once its timing is not after it.
/// The sample index is taken modulo 2^32, as the event's timing is.
pub fn event_is_due(timing: u32, sample_index: usize) -> (r: bool)
    ensures
        r == (timing <= sample_index as u32),
{
    timing <= sample_index as u32
}

/// Number of sounding voices.
pub open spec fn active_count(voices: Seq<Voice>) -> nat
    decreases voices.len(),
{
    if voices.len() == 0 {
        0
    } else {
        active_count(voices.drop_last()) + if is_sounding(voices.last().state) {
            1nat
        } else {
            0nat
        }
    }
}

/// The pool of voices.
pub struct VoiceBank {
    voices: Vec<Voice>,
}

impl View for VoiceBank {
    type V = Seq<Voice>;

    closed spec fn view(&self) -> Seq<Voice> {
        self.voices@
    }
}

impl VoiceBank {
    #[verifier::type_invariant]
    spec fn holds_every_voice(self) -> bool {
        self.voices@.len() == MAX_POLY
    }

    /// A pool of `MAX_POLY` silent voices.
    pub fn new() -> (r: VoiceBank)
        ensures
            r@ == Seq::new(MAX_POLY as nat, |i: int| silent_voice()),
            r@.len() == MAX_POLY,
            forall|i: int| 0 <= i < MAX_POLY ==> #[trigger] r@[i] == (Voice { note: 0, state: EnvState::Idle }),
    {
        let mut voices: Vec<Voice> = Vec::new();
        let mut k: usize = 0;
        while k < MAX_POLY
            invariant
                k <= MAX_POLY,
                voices@ == Seq::new(k as nat, |i: int| silent_voice()),
            decreases MAX_POLY - k,
        {
            voices.push(Voice { note: 0, state: EnvState::Idle });
            k = k + 1;
        }
        VoiceBank { voices }
    }

    /// Number of voices of the pool; always `MAX_POLY`.
    pub fn len(&self) -> (n: usize)
        ensures
            n == self@.len(),
            n == MAX_POLY,
    {
        proof {
            use_type_invariant(self);
        }
        self.voices.len()
    }

    /// Voice `i`.
    pub fn voice(&self, i: usize) -> (v: Voice)
        requires
            i < MAX_POLY,
        ensures
            v == self@[i as int],
    {
        proof {
            use_type_invariant(self);
        }
        self.voices[i]
    }

    /// Whether voice `i` sounds.
    pub fn is_voice_active(&self, i: usize) -> (r: bool)
        requires
            i < MAX_POLY,
        ensures
            r == is_sounding(self@[i as int].state),
            r == (self@[i as int].state != EnvState::Idle),
    {
        proof {
            use_type_invariant(self);
        }
        self.voices[i].state.is_active()
    }

    /// Makes every voice silent again.
    pub fn reset(&mut self)
        ensures
            final(self)@ == Seq::new(MAX_POLY as nat, |i: int| silent_voice()),
            final(self)@.len() == MAX_POLY,
            forall|i: int| 0 <= i < MAX_POLY ==> #[trigger] final(self)@[i] == (Voice { note: 0, state: EnvState::Idle }),
    {
        *self = VoiceBank::new();
    }

    /// The voice that a note-on would take now.
    pub fn free_voice(&self) -> (idx: usize)
        ensures
            idx == chosen_voice(self@),
            has_idle(self@) ==> is_first_idle(self@, idx as int),
            !has_idle(self@) ==> idx == 0,
            idx < MAX_POLY,
            forall|j: int| 0 <= j < idx ==> #[trigger] self@[j].state != EnvState::Idle,
            self@[idx as int].state == EnvState::Idle || idx == 0,
            (exists|j: int| 0 <= j < self@.len() && #[trigger] self@[j].state == EnvState::Idle)
                ==> self@[idx as int].state == EnvState::Idle,
    {
        proof {
            use_type_invariant(self);
        }
        let n = self.voices.len();
        let mut k: usize = 0;
        while k < n
            invariant
                n == self@.len(),
                n == MAX_POLY,
                k <= n,
                forall|j: int| 0 <= j < k ==> is_sounding(#[trigger] self@[j].state),
            decreases n - k,
        {
            if !self.voices[k].state.is_active() {
                proof {
                    let c = chosen_voice(self@);
                    assert(has_idle(self@));
                    assert(is_first_idle(self@, k as int));
                    assert(is_first_idle(self@, c));
                    if c < k {
                        assert(is_sounding(self@[c].state));
                    }
                    if k < c {
                        assert(is_sounding(self@[k as int].state));
                    }
                }
                return k;
            }
            k = k + 1;
        }
        0
    }

    /// A note-on: the chosen voice starts the note from the beginning of its
    /// attack phase; the other voices are unchanged. Returns the voice taken.
    pub fn note_on(&mut self, note: u8) -> (idx: usize)
        ensures
            idx == chosen_voice(old(self)@),
            idx < MAX_POLY,
            final(self)@ == old(self)@.update(idx as int, started_voice(note)),
            // The voice taken plays the note from the start of its attack.
            final(self)@[idx as int] == (Voice { note: note, state: EnvState::Attack }),
            final(self)@.len() == old(self)@.len(),
            forall|j: int|
                0 <= j < old(self)@.len() && j != idx ==> #[trigger] final(self)@[j] == old(
                    self,
                )@[j],
            // It is the first idle voice, or voice 0 when every voice sounds.
            forall|j: int| 0 <= j < idx ==> #[trigger] old(self)@[j].state != EnvState::Idle,
            old(self)@[idx as int].state == EnvState::Idle || idx == 0,
            (exists|j: int|
                0 <= j < old(self)@.len() && #[trigger] old(self)@[j].state == EnvState::Idle)
                ==> old(self)@[idx as int].state == EnvState::Idle,
    {
        proof {
            use_type_invariant(&*self);
        }
        let idx = self.free_voice();
        self.set_voice(idx, Voice { note, state: EnvState::Attack });
        idx
    }

    /// Handles one MIDI event: a note-on starts a voice and gives its index;
    /// any other event leaves the pool unchanged.
    pub fn handle_event(&mut self, event: MidiEvent) -> (r: Option<usize>)
        ensures
            match event {
                MidiEvent::NoteOn { note } => {
                    &&& r == Some(chosen_voice(old(self)@) as usize)
                    &&& final(self)@ == old(self)@.update(
                        chosen_voice(old(self)@),
                        started_voice(note),
                    )
                },
                MidiEvent::Other => r.is_none() && final(self)@ == old(self)@,
            },
    {
        match event {
            MidiEvent::NoteOn { note } => Some(self.note_on(note)),
            MidiEvent::Other => None,
        }
    }

    /// One sample of the envelope of voice `i` (see `EnvState::step`); the
    /// voice keeps its note and moves to the next phase.
    pub fn advance_voice(&mut self, i: usize, phase_over: bool, below_cutoff: bool) -> (r: EnvStep)
        requires
            i < MAX_POLY,
        ensures
            r == step_outcome(old(self)@[i as int].state, phase_over, below_cutoff),
            final(self)@ == old(self)@.update(
                i as int,
                Voice { note: old(self)@[i as int].note, state: r.next },
            ),
            final(self)@[i as int].note == old(self)@[i as int].note,
            final(self)@[i as int].state == r.next,
            r.restart_clock == (phase_over && (old(self)@[i as int].state == EnvState::Attack
                || old(self)@[i as int].state == EnvState::Multiply)),
    {
        proof {
            use_type_invariant(&*self);
        }
        let v = self.voice(i);
        let r = v.state.step(phase_over, below_cutoff);
        self.set_voice(i, Voice { note: v.note, state: r.next });
        r
    }

    fn set_voice(&mut self, i: usize, v: Voice)
        requires
            i < MAX_POLY,
        ensures
            final(self)@ == old(self)@.update(i as int, v),
    {
        proof {
            use_type_invariant(&*self);
        }
        self.voices[i] = v;
    }
}

proof fn lemma_active_count_update(voices: Seq<Voice>, i: int, v: Voice)
    requires
        0 <= i < voices.len(),
    ensures
        active_count(voices.update(i, v)) + (if is_sounding(voices[i].state) {
            1int
        } else {
            0int
        }) == active_count(voices) + (if is_sounding(v.state) {
            1int
        } else {
            0int
        }),
    decreases voices.len(),
{
    let u = voices.update(i, v);
    if i == voices.len() - 1 {
        assert(u.drop_last() =~= voices.drop_last());
    } else {
        assert(u.drop_last() =~= voices.drop_last().update(i, v));
        lemma_active_count_update(voices.drop_last(), i, v);
    }
}

proof fn lemma_all_sounding_count(voices: Seq<Voice>)
    requires
        !has_idle(voices),
    ensures
        active_count(voices) == voices.len(),
    decreases voices.len(),
{
    if voices.len() > 0 {
        assert(is_sounding(voices[voices.len() - 1].state));
        assert forall|j: int| 0 <= j < voices.drop_last().len() implies is_sounding(
            #[trigger] voices.drop_last()[j].state,
        ) by {
            assert(is_sounding(voices[j].state));
        }
        lemma_all_sounding_count(voices.drop_last());
    }
}

/// A note-on puts the voice it takes at the start of the attack phase with the
/// new note, whatever the note.
pub proof fn lemma_note_on_starts_attack(note: u8)
    ensures
        started_voice(note).state == EnvState::Attack,
        started_voice(note).note == note,
        is_sounding(started_voice(note).state),
{
}

/// When some voice is idle, the first idle voice exists (and a note-on takes
/// it).
pub proof fn lemma_chosen_voice_is_first_idle(voices: Seq<Voice>)
    requires
        has_idle(voices),
    ensures
        is_first_idle(voices, chosen_voice(voices)),
    decreases voices.len(),
{
    let d = voices.drop_last();
    assert forall|j: int| 0 <= j < d.len() implies #[trigger] d[j] == voices[j] by {}
    if has_idle(d) {
        lemma_chosen_voice_is_first_idle(d);
        let c = chosen_voice(d);
        assert(d[c] == voices[c]);
        assert forall|j: int| 0 <= j < c implies is_sounding(#[trigger] voices[j].state) by {
            assert(d[j] == voices[j]);
            assert(is_sounding(d[j].state));
        }
        assert(is_first_idle(voices, c));
    } else {
        let l = voices.len() - 1;
        assert forall|j: int| 0 <= j < l implies is_sounding(#[trigger] voices[j].state) by {
            assert(d[j] == voices[j]);
        }
        let w = choose|j: int| 0 <= j < voices.len() && !is_sounding(#[trigger] voices[j].state);
        assert(w == l);
        assert(is_first_idle(voices, l));
    }
}

/// A note-on never silences a sounding voice. It adds one sounding voice when
/// some voice was idle; when all voices sound, voice 0 is restarted and the
/// number of sounding voices stays the whole pool.
pub proof fn lemma_note_on_activity(voices: Seq<Voice>, note: u8)
    requires
        voices.len() > 0,
    ensures
        ({
            let after = voices.update(chosen_voice(voices), started_voice(note));
            &&& forall|j: int|
                0 <= j < voices.len() && is_sounding(voices[j].state) ==> is_sounding(
                    #[trigger] after[j].state,
                )
            &&& has_idle(voices) ==> active_count(after) == active_count(voices) + 1
            &&& !has_idle(voices) ==> chosen_voice(voices) == 0
            &&& !has_idle(voices) ==> active_count(after) == active_count(voices)
            &&& !has_idle(voices) ==> active_count(voices) == voices.len()
        }),
{
    let c = chosen_voice(voices);
    if has_idle(voices) {
        lemma_chosen_voice_is_first_idle(voices);
    } else {
        lemma_all_sounding_count(voices);
        assert(is_sounding(voices[0].state));
    }
    lemma_active_count_update(voices, c, started_voice(note));
}

} // verus!
