use premonition::engine::EngineCore;
use premonition::midi::MidiMessage;
use premonition::voices::{VoiceManager, Voice, CENTER_BEND, MAX_VOICES};

fn actives(vm: &VoiceManager) -> Vec<bool> {
    (0..MAX_VOICES).map(|i| vm.voice(i).active).collect()
}

#[test]
fn new_voice_is_at_rest() {
    let s = Voice::new(3);
    assert!(!s.active);
    assert_eq!(s.note, 60);
    assert_eq!(s.velocity, 100);
    assert_eq!(s.channel, 0);
    assert!(!s.sustain);
    assert!(!s.pedal_held);
    assert_eq!(s.pitch_bend, CENTER_BEND);
}

#[test]
fn round_robin_allocation() {
    let mut vm = VoiceManager::new(8);
    for k in 0..8usize {
        let started = vm.note_on(0, 60 + k as u8, 100);
        assert_eq!(started, vec![k]);
    }
    // the ninth note takes voice 0 again
    let started = vm.note_on(0, 80, 90);
    assert_eq!(started, vec![0]);
    assert_eq!(vm.voice(0).note, 80);
    assert_eq!(vm.voice(0).velocity, 90);
    assert_eq!(vm.voice(1).note, 61);
}

#[test]
fn unison_stacks_voices() {
    let mut vm = VoiceManager::new(8);
    vm.update_params(3);
    assert_eq!(vm.note_on(2, 50, 100), vec![0, 1, 2]);
    assert_eq!(vm.note_on(2, 52, 100), vec![3, 4, 5]);
    assert_eq!(vm.note_on(2, 54, 100), vec![6, 7, 0]);
    assert_eq!(vm.voice(0).note, 54);
    assert_eq!(vm.voice(1).note, 50);
}

#[test]
fn unison_zero_still_plays_one_voice() {
    let mut vm = VoiceManager::new(8);
    vm.update_params(0);
    assert_eq!(vm.note_on(0, 60, 100), vec![0]);
    assert_eq!(vm.note_on(0, 61, 100), vec![1]);
}

#[test]
fn unison_above_polyphony_wraps() {
    let mut vm = VoiceManager::new(8);
    vm.update_params(10);
    assert_eq!(vm.note_on(0, 60, 100), vec![0, 1, 2, 3, 4, 5, 6, 7, 0, 1]);
    assert_eq!(vm.note_on(0, 61, 100)[0], 2);
}

#[test]
fn note_off_releases_matching_voices() {
    let mut vm = VoiceManager::new(8);
    vm.note_on(0, 60, 100);
    vm.note_on(0, 64, 100);
    vm.note_on(1, 60, 100);
    assert_eq!(vm.note_off(0, 60), vec![0]);
    assert_eq!(actives(&vm), vec![false, true, true, false, false, false, false, false]);
    // releasing a note that is not playing does nothing
    assert_eq!(vm.note_off(0, 61), Vec::<usize>::new());
}

#[test]
fn pedal_holds_notes() {
    let mut vm = VoiceManager::new(8);
    vm.note_on(0, 60, 100);
    assert_eq!(vm.set_sustain(0, true), Vec::<usize>::new());
    // the key goes up under the pedal: nothing is released yet
    assert_eq!(vm.note_off(0, 60), Vec::<usize>::new());
    assert!(!vm.voice(0).active);
    assert!(vm.voice(0).pedal_held);
    // lifting the pedal releases exactly the note let go under it
    assert_eq!(vm.set_sustain(0, false), vec![0]);
    assert!(!vm.voice(0).pedal_held);
    assert!(!vm.voice(0).sustain);
    // lifting it again releases nothing more
    assert_eq!(vm.set_sustain(0, false), Vec::<usize>::new());
}

#[test]
fn pedal_lift_spares_keys_still_down() {
    let mut vm = VoiceManager::new(8);
    vm.note_on(0, 60, 100);
    vm.note_on(0, 64, 100);
    vm.set_sustain(0, true);
    vm.note_off(0, 60);
    assert_eq!(vm.set_sustain(0, false), vec![0]);
    assert!(vm.voice(1).active);
    // a note let go with the pedal up is released at once
    assert_eq!(vm.note_off(0, 64), vec![1]);
}

#[test]
fn pedal_on_other_channel_does_not_hold() {
    let mut vm = VoiceManager::new(8);
    vm.note_on(0, 60, 100);
    vm.set_sustain(1, true);
    assert_eq!(vm.note_off(0, 60), vec![0]);
}

#[test]
fn voice_pedal_sequence() {
    let mut v = Voice::new(0);
    v.note_on(0, 60, 100);
    assert!(!v.set_sustain(true));
    assert!(!v.note_off());
    assert!(!v.active);
    assert!(v.set_sustain(false));
    assert!(!v.active && !v.pedal_held);
    // a new note clears the pedal hold
    v.set_sustain(true);
    v.note_on(0, 62, 90);
    v.note_off();
    v.note_on(0, 63, 90);
    assert!(!v.pedal_held);
    assert!(!v.set_sustain(false));
}

#[test]
fn controls_follow_channel() {
    let mut vm = VoiceManager::new(8);
    vm.note_on(0, 60, 100);
    vm.note_on(1, 62, 100);
    vm.set_pitch_bend(1, 10000);
    vm.set_mod_wheel(1, 77);
    assert_eq!(vm.voice(1).pitch_bend, 10000);
    assert_eq!(vm.voice(1).mod_wheel, 77);
    assert_eq!(vm.voice(0).pitch_bend, CENTER_BEND);
    assert_eq!(vm.voice(0).mod_wheel, 0);
}

#[test]
fn aftertouch_reaches_note_or_wildcard() {
    let mut vm = VoiceManager::new(8);
    vm.note_on(0, 60, 100);
    vm.note_on(0, 62, 100);
    vm.set_aftertouch(0, 62, 50);
    assert_eq!(vm.voice(0).aftertouch, 0);
    assert_eq!(vm.voice(1).aftertouch, 50);
    vm.set_aftertouch(0, 128, 20);
    assert_eq!(vm.voice(0).aftertouch, 20);
    assert_eq!(vm.voice(1).aftertouch, 20);
}

#[test]
fn all_notes_off_and_count() {
    let mut vm = VoiceManager::new(8);
    vm.note_on(0, 60, 100);
    vm.note_on(0, 62, 100);
    let idle = vec![true; 8];
    assert_eq!(vm.active_voice_count(&idle), 2);
    let mut ringing = vec![true; 8];
    ringing[5] = false;
    assert_eq!(vm.active_voice_count(&ringing), 3);
    vm.all_notes_off();
    assert_eq!(vm.active_voice_count(&idle), 0);
    assert_eq!(vm.active_voice_count(&ringing), 1);
}

#[test]
fn engine_routes_notes_and_counts_held() {
    let mut e = EngineCore::new();
    let w = e.handle_midi(MidiMessage::NoteOn { channel: 0, note: 60, velocity: 90 });
    assert_eq!(w.started, vec![0]);
    assert!(w.released.is_empty());
    assert_eq!(e.notes_held(), 1);
    let w = e.handle_midi(MidiMessage::NoteOn { channel: 0, note: 60, velocity: 0 });
    assert_eq!(w.released, vec![0]);
    assert_eq!(e.notes_held(), 0);
    // note-offs never take the count below zero
    let w = e.handle_midi(MidiMessage::NoteOff { channel: 0, note: 60 });
    assert!(w.released.is_empty());
    assert_eq!(e.notes_held(), 0);
}

#[test]
fn engine_all_notes_off_releases_every_voice() {
    let mut e = EngineCore::new();
    e.handle_midi(MidiMessage::NoteOn { channel: 0, note: 60, velocity: 90 });
    let w = e.handle_midi(MidiMessage::AllNotesOff { channel: 3 });
    assert_eq!(w.released, (0..8).collect::<Vec<usize>>());
    assert!(!e.voice_manager().voice(0).active);
}

#[test]
fn engine_controls_and_pedal() {
    let mut e = EngineCore::new();
    e.update_params(2);
    let w = e.handle_midi(MidiMessage::NoteOn { channel: 1, note: 70, velocity: 10 });
    assert_eq!(w.started, vec![0, 1]);
    e.handle_midi(MidiMessage::PitchBend { channel: 1, value: 0 });
    assert_eq!(e.voice_manager().voice(1).pitch_bend, 0);
    e.handle_midi(MidiMessage::SustainOn { channel: 1 });
    let w = e.handle_midi(MidiMessage::NoteOff { channel: 1, note: 70 });
    assert!(w.released.is_empty());
    let w = e.handle_midi(MidiMessage::ControlChange { channel: 1, controller: 7, value: 3 });
    assert!(w.started.is_empty() && w.released.is_empty());
    assert!(!e.voice_manager().voice(0).active);
    let w = e.handle_midi(MidiMessage::SustainOff { channel: 1 });
    assert_eq!(w.released, vec![0, 1]);
    assert!(!e.voice_manager().voice(1).pedal_held);
}
