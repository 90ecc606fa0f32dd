//! The phase logic of the one-shot attack / multiply / decay envelope.
//!
//! The envelope rises during the attack phase, holds at full scale during the
//! multiply phase and falls during the decay phase; then it is idle until the
//! next note-on. There is no sustain and no release: a note-off changes
//! nothing. The time and level of the envelope are real numbers that the audio
//! code keeps; this module decides, sample by sample, which phase follows,
//! whether the phase clock restarts, how the level moves and whether the sample
//! is heard.
use vstd::prelude::*;

verus! {

/// Phase of the envelope.
#[derive(Clone, Copy, Debug, PartialEq, Eq, Structural)]
pub enum EnvState {
    Idle,
    Attack,
    Multiply,
    Decay,
}

/// How the envelope's level moves in one sample.
#[derive(Clone, Copy, Debug, PartialEq, Eq, Structural)]
pub enum LevelUpdate {
    /// The level keeps its previous value.
    Hold,
    /// The level is set to full scale.
    Full,
    /// The level is set to zero.
    Zero,
    /// The level follows the quadratic attack ramp, `(time / attack)^2`.
    AttackRamp,
    /// The level follows the decay curve, `(1 - time / decay)^2`.
    DecayCurve,
}

/// What one sample of the envelope does.
#[derive(Clone, Copy, Debug, PartialEq, Eq, Structural)]
pub struct EnvStep {
    /// The phase after the sample.
    pub next: EnvState,
    /// The phase clock is set back to zero.
    pub restart_clock: bool,
    /// How the level moves.
    pub level: LevelUpdate,
    /// The sample gives out the level; otherwise it gives out silence.
    pub audible: bool,
}

/// The envelope sounds in every phase but `Idle`.
pub open spec fn is_sounding(s: EnvState) -> bool {
    s != EnvState::Idle
}

/// The phase that follows `s` after one sample. `phase_over` says that the
/// clock has reached the length of the current phase; `below_cutoff` says that
/// the decay curve has fallen under the early cut-off.
pub open spec fn next_phase(s: EnvState, phase_over: bool, below_cutoff: bool) -> EnvState {
    match s {
        EnvState::Idle => EnvState::Idle,
        EnvState::Attack => if phase_over {
            EnvState::Multiply
        } else {
            EnvState::Attack
        },
        EnvState::Multiply => if phase_over {
            EnvState::Decay
        } else {
            EnvState::Multiply
        },
        EnvState::Decay => if phase_over || below_cutoff {
            EnvState::Idle
        } else {
            EnvState::Decay
        },
    }
}

/// How the level moves in one sample of phase `s`.
pub open spec fn level_update(s: EnvState, phase_over: bool) -> LevelUpdate {
    match s {
        EnvState::Idle => LevelUpdate::Hold,
        EnvState::Attack => if phase_over {
            LevelUpdate::Full
        } else {
            LevelUpdate::AttackRamp
        },
        EnvState::Multiply => LevelUpdate::Full,
        EnvState::Decay => if phase_over {
            LevelUpdate::Zero
        } else {
            LevelUpdate::DecayCurve
        },
    }
}

/// The whole outcome of one sample of phase `s`.
pub open spec fn step_outcome(s: EnvState, phase_over: bool, below_cutoff: bool) -> EnvStep {
    EnvStep {
        next: next_phase(s, phase_over, below_cutoff),
        restart_clock: phase_over && (s == EnvState::Attack || s == EnvState::Multiply),
        level: level_update(s, phase_over),
        audible: is_sounding(next_phase(s, phase_over, below_cutoff)),
    }
}

/// Position of a phase in the one-shot course attack, multiply, decay,
/// finished. An idle envelope counts as finished.
pub open spec fn progress(s: EnvState) -> int {
    match s {
        EnvState::Attack => 0,
        EnvState::Multiply => 1,
        EnvState::Decay => 2,
        EnvState::Idle => 3,
    }
}

/// The phase after a run of samples; each input is the pair
/// (`phase_over`, `below_cutoff`) of one sample.
pub open spec fn run(s: EnvState, inputs: Seq<(bool, bool)>) -> EnvState
    decreases inputs.len(),
{
    if inputs.len() == 0 {
        s
    } else {
        run(next_phase(s, inputs[0].0, inputs[0].1), inputs.drop_first())
    }
}

/// Number of samples of a run that reach the end of their phase.
pub open spec fn phase_ends(inputs: Seq<(bool, bool)>) -> nat
    decreases inputs.len(),
{
    if inputs.len() == 0 {
        0
    } else {
        phase_ends(inputs.drop_first()) + if inputs[0].0 {
            1nat
        } else {
            0nat
        }
    }
}

impl EnvState {
    /// Whether the envelope is producing sound.
    pub fn is_active(&self) -> (r: bool)
        ensures
            r == is_sounding(*self),
            r == (*self != EnvState::Idle),
    {
        match self {
            EnvState::Idle => false,
            _ => true,
        }
    }

    /// One sample of the envelope in phase `self`. `phase_over` is whether
    /// the phase clock, already advanced by this sample, has reached the length
    /// of the phase; `below_cutoff` is whether the decay curve at that time is
    /// under the early cut-off (it is consulted only while decaying before the
    /// end of the phase).
    pub fn step(self, phase_over: bool, below_cutoff: bool) -> (r: EnvStep)
        ensures
            r == step_outcome(self, phase_over, below_cutoff),
            // The phase clock restarts exactly when an attack or a multiply
            // phase ends; a decay sample never restarts it.
            r.restart_clock == (phase_over && (self == EnvState::Attack || self
                == EnvState::Multiply)),
            // The sample is heard exactly when the envelope still sounds after it.
            r.audible == (r.next != EnvState::Idle),
            self == EnvState::Idle ==> r.next == EnvState::Idle && r.level == LevelUpdate::Hold,
            self == EnvState::Attack ==> r.next == (if phase_over {
                EnvState::Multiply
            } else {
                EnvState::Attack
            }) && r.level == (if phase_over {
                LevelUpdate::Full
            } else {
                LevelUpdate::AttackRamp
            }),
            self == EnvState::Multiply ==> r.next == (if phase_over {
                EnvState::Decay
            } else {
                EnvState::Multiply
            }) && r.level == LevelUpdate::Full,
            self == EnvState::Decay ==> r.next == (if phase_over || below_cutoff {
                EnvState::Idle
            } else {
                EnvState::Decay
            }) && r.level == (if phase_over {
                LevelUpdate::Zero
            } else {
                LevelUpdate::DecayCurve
            }),
    {
        match self {
            EnvState::Idle => EnvStep {
                next: EnvState::Idle,
                restart_clock: false,
                level: LevelUpdate::Hold,
                audible: false,
            },
            EnvState::Attack => {
                if phase_over {
                    EnvStep {
                        next: EnvState::Multiply,
                        restart_clock: true,
                        level: LevelUpdate::Full,
                        audible: true,
                    }
                } else {
                    EnvStep {
                        next: EnvState::Attack,
                        restart_clock: false,
                        level: LevelUpdate::AttackRamp,
                        audible: true,
                    }
                }
            },
            EnvState::Multiply => {
                if phase_over {
                    EnvStep {
                        next: EnvState::Decay,
                        restart_clock: true,
                        level: LevelUpdate::Full,
                        audible: true,
                    }
                } else {
                    EnvStep {
                        next: EnvState::Multiply,
                        restart_clock: false,
                        level: LevelUpdate::Full,
                        audible: true,
                    }
                }
            },
            EnvState::Decay => {
                if phase_over {
                    EnvStep {
                        next: EnvState::Idle,
                        restart_clock: false,
                        level: LevelUpdate::Zero,
                        audible: false,
                    }
                } else if below_cutoff {
                    EnvStep {
                        next: EnvState::Idle,
                        restart_clock: false,
                        level: LevelUpdate::DecayCurve,
                        audible: false,
                    }
                } else {
                    EnvStep {
                        next: EnvState::Decay,
                        restart_clock: false,
                        level: LevelUpdate::DecayCurve,
                        audible: true,
                    }
                }
            },
        }
    }
}

/// A sample is heard exactly when the envelope is still sounding after it;
/// an idle envelope gives out silence and stays idle.
pub proof fn lemma_audible_iff_sounding_after(s: EnvState, phase_over: bool, below_cutoff: bool)
    ensures
        step_outcome(s, phase_over, below_cutoff).audible <==> is_sounding(
            step_outcome(s, phase_over, below_cutoff).next,
        ),
        s == EnvState::Idle ==> step_outcome(s, phase_over, below_cutoff).next == EnvState::Idle,
        s == EnvState::Idle ==> !step_outcome(s, phase_over, below_cutoff).audible,
{
}

/// The phase clock restarts exactly when a sample ends an attack or a
/// multiply phase: never while idle, never while decaying, and never in a
/// sample that does not end its phase.
pub proof fn lemma_clock_restarts_only_at_attack_or_multiply_end(
    s: EnvState,
    phase_over: bool,
    below_cutoff: bool,
)
    ensures
        step_outcome(s, phase_over, below_cutoff).restart_clock <==> (phase_over && (s
            == EnvState::Attack || s == EnvState::Multiply)),
        s == EnvState::Decay ==> !step_outcome(s, phase_over, below_cutoff).restart_clock,
        !phase_over ==> !step_outcome(s, phase_over, below_cutoff).restart_clock,
{
}

/// The multiply phase holds the level at full scale on every sample, whatever
/// the inputs, and a sample that ends the attack also lands at full scale.
pub proof fn lemma_multiply_holds_full_scale(phase_over: bool, below_cutoff: bool)
    ensures
        step_outcome(EnvState::Multiply, phase_over, below_cutoff).level == LevelUpdate::Full,
        step_outcome(EnvState::Multiply, phase_over, below_cutoff).audible,
        step_outcome(EnvState::Attack, true, below_cutoff).level == LevelUpdate::Full,
{
}

/// The cut-off only matters while decaying: in every other phase two samples
/// that differ only in `below_cutoff` do the same thing, and in every phase
/// the level update does not depend on it.
pub proof fn lemma_cutoff_only_matters_in_decay(
    s: EnvState,
    phase_over: bool,
    below1: bool,
    below2: bool,
)
    ensures
        step_outcome(s, phase_over, below1).level == step_outcome(s, phase_over, below2).level,
        step_outcome(s, phase_over, below1).restart_clock == step_outcome(
            s,
            phase_over,
            below2,
        ).restart_clock,
        s != EnvState::Decay ==> step_outcome(s, phase_over, below1) == step_outcome(
            s,
            phase_over,
            below2,
        ),
{
}

/// A decay sample before the end of the decay and above the cut-off keeps
/// decaying along the curve, with the clock running on and the sample heard;
/// the decay ends (silently) at its length or under the cut-off.
pub proof fn lemma_decay_runs_its_course(phase_over: bool, below_cutoff: bool)
    ensures
        !phase_over && !below_cutoff ==> step_outcome(EnvState::Decay, phase_over, below_cutoff)
            == (EnvStep {
            next: EnvState::Decay,
            restart_clock: false,
            level: LevelUpdate::DecayCurve,
            audible: true,
        }),
        phase_over || below_cutoff ==> step_outcome(
            EnvState::Decay,
            phase_over,
            below_cutoff,
        ).next == EnvState::Idle && !step_outcome(
            EnvState::Decay,
            phase_over,
            below_cutoff,
        ).audible,
{
}

/// One sample never moves the envelope back to an earlier phase, and moves it
/// on by at most one phase.
pub proof fn lemma_step_moves_forward_by_at_most_one(
    s: EnvState,
    phase_over: bool,
    below_cutoff: bool,
)
    ensures
        progress(s) <= progress(next_phase(s, phase_over, below_cutoff)) <= progress(s) + 1,
        phase_over && s != EnvState::Idle ==> progress(next_phase(s, phase_over, below_cutoff))
            == progress(s) + 1,
{
}

/// Without a new note-on, an idle envelope stays idle whatever happens.
pub proof fn lemma_idle_stays_idle(inputs: Seq<(bool, bool)>)
    ensures
        run(EnvState::Idle, inputs) == EnvState::Idle,
    decreases inputs.len(),
{
    if inputs.len() > 0 {
        lemma_idle_stays_idle(inputs.drop_first());
    }
}

/// Over any run of samples the envelope only moves forward through its
/// phases.
pub proof fn lemma_run_never_goes_back(s: EnvState, inputs: Seq<(bool, bool)>)
    ensures
        progress(s) <= progress(run(s, inputs)),
    decreases inputs.len(),
{
    if inputs.len() > 0 {
        let n = next_phase(s, inputs[0].0, inputs[0].1);
        lemma_run_never_goes_back(n, inputs.drop_first());
    }
}

/// The envelope is one-shot: each sample that reaches the end of its phase
/// moves it on by one phase, so after three such samples it is idle, whatever
/// phase it started in.
pub proof fn lemma_one_shot(s: EnvState, inputs: Seq<(bool, bool)>)
    requires
        phase_ends(inputs) >= 3,
    ensures
        run(s, inputs) == EnvState::Idle,
{
    lemma_progress_counts_phase_ends(s, inputs);
}

proof fn lemma_progress_counts_phase_ends(s: EnvState, inputs: Seq<(bool, bool)>)
    ensures
        progress(run(s, inputs)) >= if progress(s) + phase_ends(inputs) < 3 {
            progress(s) + phase_ends(inputs)
        } else {
            3
        },
    decreases inputs.len(),
{
    if inputs.len() > 0 {
        let n = next_phase(s, inputs[0].0, inputs[0].1);
        lemma_progress_counts_phase_ends(n, inputs.drop_first());
    }
}

} // verus!
