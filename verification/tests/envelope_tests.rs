use unison_supersaw::envelope::{EnvState, EnvStep, LevelUpdate};

fn step(s: EnvState, over: bool, below: bool) -> EnvStep {
    s.step(over, below)
}

#[test]
fn idle_is_silent_and_stays_idle() {
    for over in [false, true] {
        for below in [false, true] {
            let r = step(EnvState::Idle, over, below);
            assert_eq!(r.next, EnvState::Idle);
            assert!(!r.audible);
            assert!(!r.restart_clock);
            assert_eq!(r.level, LevelUpdate::Hold);
        }
    }
    assert!(!EnvState::Idle.is_active());
}

#[test]
fn attack_ramps_then_moves_to_multiply() {
    let r = step(EnvState::Attack, false, false);
    assert_eq!(r.next, EnvState::Attack);
    assert_eq!(r.level, LevelUpdate::AttackRamp);
    assert!(r.audible);
    assert!(!r.restart_clock);

    let r = step(EnvState::Attack, true, false);
    assert_eq!(r.next, EnvState::Multiply);
    assert_eq!(r.level, LevelUpdate::Full);
    assert!(r.audible);
    assert!(r.restart_clock);
}

#[test]
fn multiply_holds_full_then_decays() {
    let r = step(EnvState::Multiply, false, true);
    assert_eq!(r.next, EnvState::Multiply);
    assert_eq!(r.level, LevelUpdate::Full);
    assert!(r.audible);
    assert!(!r.restart_clock);

    let r = step(EnvState::Multiply, true, false);
    assert_eq!(r.next, EnvState::Decay);
    assert_eq!(r.level, LevelUpdate::Full);
    assert!(r.restart_clock);
}

#[test]
fn decay_ends_at_its_length_or_below_cutoff() {
    let r = step(EnvState::Decay, false, false);
    assert_eq!(r.next, EnvState::Decay);
    assert_eq!(r.level, LevelUpdate::DecayCurve);
    assert!(r.audible);

    let r = step(EnvState::Decay, false, true);
    assert_eq!(r.next, EnvState::Idle);
    assert_eq!(r.level, LevelUpdate::DecayCurve);
    assert!(!r.audible);
    assert!(!r.restart_clock);

    let r = step(EnvState::Decay, true, false);
    assert_eq!(r.next, EnvState::Idle);
    assert_eq!(r.level, LevelUpdate::Zero);
    assert!(!r.audible);
    assert!(!r.restart_clock);
}

#[test]
fn one_shot_course_ends_after_three_phase_ends() {
    let mut s = EnvState::Attack;
    let inputs = [
        (false, false),
        (true, false),
        (false, false),
        (false, true),
        (true, false),
        (false, false),
        (true, false),
    ];
    let mut seen = Vec::new();
    for (over, below) in inputs {
        s = step(s, over, below).next;
        seen.push(s);
    }
    assert_eq!(
        seen,
        vec![
            EnvState::Attack,
            EnvState::Multiply,
            EnvState::Multiply,
            EnvState::Multiply,
            EnvState::Decay,
            EnvState::Decay,
            EnvState::Idle,
        ]
    );
}

#[test]
fn every_sounding_phase_is_active() {
    assert!(EnvState::Attack.is_active());
    assert!(EnvState::Multiply.is_active());
    assert!(EnvState::Decay.is_active());
}
