use unison_supersaw::envelope::EnvState;
use unison_supersaw::unison::{plan_unison, MAX_UNISON};
use unison_supersaw::voices::{event_is_due, MidiEvent, Voice, VoiceBank, MAX_POLY};

#[test]
fn new_bank_holds_silent_voices() {
    let bank = VoiceBank::new();
    assert_eq!(bank.len(), MAX_POLY);
    assert_eq!(MAX_POLY, 32);
    for i in 0..MAX_POLY {
        assert_eq!(bank.voice(i), Voice { note: 0, state: EnvState::Idle });
        assert!(!bank.is_voice_active(i));
    }
}

#[test]
fn note_on_takes_first_idle_voice() {
    let mut bank = VoiceBank::new();
    assert_eq!(bank.note_on(60), 0);
    assert_eq!(bank.note_on(64), 1);
    assert_eq!(bank.note_on(67), 2);
    assert_eq!(bank.voice(1), Voice { note: 64, state: EnvState::Attack });
    assert!(bank.is_voice_active(2));
    assert!(!bank.is_voice_active(3));
    assert_eq!(bank.free_voice(), 3);
}

#[test]
fn note_on_reuses_a_voice_that_went_idle() {
    let mut bank = VoiceBank::new();
    bank.note_on(60);
    bank.note_on(62);
    bank.note_on(64);
    // Voice 1 finishes its decay.
    let r = bank.advance_voice(1, true, false);
    assert_eq!(r.next, EnvState::Multiply);
    bank.advance_voice(1, true, false);
    let r = bank.advance_voice(1, true, false);
    assert_eq!(r.next, EnvState::Idle);
    assert_eq!(bank.voice(1), Voice { note: 62, state: EnvState::Idle });
    assert_eq!(bank.note_on(71), 1);
    assert_eq!(bank.voice(1), Voice { note: 71, state: EnvState::Attack });
}

#[test]
fn note_on_steals_first_voice_when_all_sound() {
    let mut bank = VoiceBank::new();
    for k in 0..MAX_POLY {
        assert_eq!(bank.note_on(k as u8), k);
    }
    // Voice 0 moves on to its multiply phase; all voices still sound.
    bank.advance_voice(0, true, false);
    assert_eq!(bank.voice(0).state, EnvState::Multiply);
    assert_eq!(bank.free_voice(), 0);
    assert_eq!(bank.note_on(100), 0);
    assert_eq!(bank.voice(0), Voice { note: 100, state: EnvState::Attack });
    for i in 1..MAX_POLY {
        assert_eq!(bank.voice(i), Voice { note: i as u8, state: EnvState::Attack });
    }
}

#[test]
fn only_note_on_events_start_voices() {
    let mut bank = VoiceBank::new();
    assert_eq!(bank.handle_event(MidiEvent::Other), None);
    assert!(!bank.is_voice_active(0));
    assert_eq!(bank.handle_event(MidiEvent::NoteOn { note: 48 }), Some(0));
    assert_eq!(bank.handle_event(MidiEvent::Other), None);
    assert_eq!(bank.voice(0), Voice { note: 48, state: EnvState::Attack });
    assert!(!bank.is_voice_active(1));
}

#[test]
fn reset_silences_every_voice() {
    let mut bank = VoiceBank::new();
    bank.note_on(1);
    bank.note_on(2);
    bank.reset();
    assert_eq!(bank.len(), MAX_POLY);
    for i in 0..MAX_POLY {
        assert_eq!(bank.voice(i), Voice { note: 0, state: EnvState::Idle });
    }
}

#[test]
fn advance_voice_keeps_the_note_and_other_voices() {
    let mut bank = VoiceBank::new();
    bank.note_on(50);
    bank.note_on(52);
    let r = bank.advance_voice(0, false, false);
    assert!(r.audible);
    assert_eq!(bank.voice(0), Voice { note: 50, state: EnvState::Attack });
    let r = bank.advance_voice(5, true, true);
    assert!(!r.audible);
    assert_eq!(bank.voice(5), Voice { note: 0, state: EnvState::Idle });
    assert_eq!(bank.voice(1), Voice { note: 52, state: EnvState::Attack });
}

#[test]
fn events_are_due_once_their_time_has_come() {
    assert!(event_is_due(0, 0));
    assert!(event_is_due(3, 3));
    assert!(event_is_due(3, 10));
    assert!(!event_is_due(4, 3));
    assert!(!event_is_due(u32::MAX, 0));
}

#[test]
fn unison_is_capped_and_spread_only_for_several_voices() {
    assert_eq!(MAX_UNISON, 32);
    let p = plan_unison(10);
    assert_eq!(p.voices, 10);
    assert!(p.spread);
    let p = plan_unison(1);
    assert_eq!(p.voices, 1);
    assert!(!p.spread);
    let p = plan_unison(0);
    assert_eq!(p.voices, 0);
    assert!(!p.spread);
    let p = plan_unison(32);
    assert_eq!(p.voices, 32);
    let p = plan_unison(100);
    assert_eq!(p.voices, 32);
    assert!(p.spread);
}

fn count_active(bank: &VoiceBank) -> usize {
    (0..MAX_POLY).filter(|&i| bank.is_voice_active(i)).count()
}

#[test]
fn note_on_adds_a_sounding_voice_until_all_sound() {
    let mut bank = VoiceBank::new();
    for k in 0..MAX_POLY {
        assert_eq!(count_active(&bank), k);
        bank.note_on(60);
        assert_eq!(count_active(&bank), k + 1);
    }
    bank.note_on(61);
    assert_eq!(count_active(&bank), MAX_POLY);
}
