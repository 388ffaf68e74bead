use premonition::console::{
    is_held, key_action, keyboard_message, press_note, release_note, route_midi_event, toggle_note,
    ConsoleMidiAction, KeyAction,
};
use premonition::midi::MidiMessage;
use premonition::params::ParameterId;
use premonition::viz::{braille_dot, braille_grid, viz_stride};

#[test]
fn short_messages_are_dropped() {
    let mut held = vec![1u8];
    assert_eq!(route_midi_event(&mut held, &[0x90, 60]), None);
    assert_eq!(held, vec![1]);
}

#[test]
fn note_on_and_off_track_held_notes() {
    let mut held = Vec::new();
    assert_eq!(
        route_midi_event(&mut held, &[0x90, 60, 100]),
        Some(ConsoleMidiAction::Engine(MidiMessage::NoteOn { channel: 0, note: 60, velocity: 100 }))
    );
    route_midi_event(&mut held, &[0x91, 64, 90]);
    route_midi_event(&mut held, &[0x90, 60, 80]);
    assert_eq!(held, vec![60, 64]);
    assert_eq!(
        route_midi_event(&mut held, &[0x80, 60, 0]),
        Some(ConsoleMidiAction::Engine(MidiMessage::NoteOff { channel: 0, note: 60 }))
    );
    assert_eq!(held, vec![64]);
    route_midi_event(&mut held, &[0x90, 64, 0]);
    assert!(held.is_empty());
}

#[test]
fn controllers_map_to_parameters() {
    let mut held = Vec::new();
    assert_eq!(
        route_midi_event(&mut held, &[0xB0, 74, 127]),
        Some(ConsoleMidiAction::SetParameter { param: ParameterId::FilterCutoff, value: 127 })
    );
    assert_eq!(
        route_midi_event(&mut held, &[0xB0, 71, 5]),
        Some(ConsoleMidiAction::SetParameter { param: ParameterId::FilterResonance, value: 5 })
    );
    assert_eq!(
        route_midi_event(&mut held, &[0xB0, 73, 6]),
        Some(ConsoleMidiAction::SetParameter { param: ParameterId::AmpAttack, value: 6 })
    );
    assert_eq!(
        route_midi_event(&mut held, &[0xB0, 72, 7]),
        Some(ConsoleMidiAction::SetParameter { param: ParameterId::AmpRelease, value: 7 })
    );
    assert_eq!(
        route_midi_event(&mut held, &[0xB2, 1, 64]),
        Some(ConsoleMidiAction::Engine(MidiMessage::ModWheel { channel: 2, value: 64 }))
    );
    assert_eq!(
        route_midi_event(&mut held, &[0xB2, 64, 127]),
        Some(ConsoleMidiAction::Engine(MidiMessage::SustainOn { channel: 2 }))
    );
    assert_eq!(
        route_midi_event(&mut held, &[0xB2, 64, 0]),
        Some(ConsoleMidiAction::Engine(MidiMessage::SustainOff { channel: 2 }))
    );
    assert_eq!(
        route_midi_event(&mut held, &[0xB2, 123, 0]),
        Some(ConsoleMidiAction::Engine(MidiMessage::AllNotesOff { channel: 2 }))
    );
    assert_eq!(
        route_midi_event(&mut held, &[0xB2, 120, 0]),
        Some(ConsoleMidiAction::Engine(MidiMessage::AllNotesOff { channel: 2 }))
    );
    assert_eq!(
        route_midi_event(&mut held, &[0xB5, 7, 100]),
        Some(ConsoleMidiAction::SetParameter { param: ParameterId::MasterVolume, value: 100 })
    );
    assert_eq!(
        route_midi_event(&mut held, &[0xB2, 10, 9]),
        Some(ConsoleMidiAction::SetParameter { param: ParameterId::OscMix, value: 9 })
    );
    assert_eq!(
        route_midi_event(&mut held, &[0xB2, 11, 9]),
        Some(ConsoleMidiAction::UnmappedControl { controller: 11, value: 9 })
    );
}

#[test]
fn bend_pressure_and_other_messages() {
    let mut held = Vec::new();
    assert_eq!(
        route_midi_event(&mut held, &[0xE0, 0, 64, 99]),
        Some(ConsoleMidiAction::Engine(MidiMessage::PitchBend { channel: 0, value: 8192 }))
    );
    assert_eq!(
        route_midi_event(&mut held, &[0xD3, 40, 0]),
        Some(ConsoleMidiAction::Engine(MidiMessage::Aftertouch { channel: 3, note: 40, value: 40 }))
    );
    assert_eq!(
        route_midi_event(&mut held, &[0xC0, 1, 2]),
        Some(ConsoleMidiAction::Other { status: 0xC0, data1: 1, data2: 2 })
    );
    assert_eq!(
        route_midi_event(&mut held, &[0xA0, 1, 2]),
        Some(ConsoleMidiAction::Other { status: 0xA0, data1: 1, data2: 2 })
    );
}

#[test]
fn held_note_helpers() {
    let mut held = vec![60u8, 62, 60];
    assert!(is_held(&held, 62));
    release_note(&mut held, 60);
    assert_eq!(held, vec![62]);
    press_note(&mut held, 62);
    assert_eq!(held, vec![62]);
    press_note(&mut held, 64);
    assert_eq!(held, vec![62, 64]);
}

#[test]
fn key_toggle_twice_restores_held_notes() {
    let mut held = vec![61u8];
    assert!(toggle_note(&mut held, 60));
    assert_eq!(held, vec![61, 60]);
    assert!(!toggle_note(&mut held, 60));
    assert_eq!(held, vec![61]);
}

#[test]
fn keyboard_mapping() {
    assert_eq!(key_action('q'), KeyAction::Quit);
    // 's' saves the preset and so never plays its note
    assert_eq!(key_action('s'), KeyAction::SavePreset);
    assert_eq!(key_action('a'), KeyAction::Note(60));
    assert_eq!(key_action('w'), KeyAction::Note(61));
    assert_eq!(key_action('h'), KeyAction::Note(69));
    assert_eq!(key_action('k'), KeyAction::Note(72));
    assert_eq!(key_action('z'), KeyAction::Ignore);
    assert_eq!(key_action('A'), KeyAction::Ignore);
}

#[test]
fn viz_stride_values() {
    assert_eq!(viz_stride(0), 1);
    assert_eq!(viz_stride(159), 1);
    assert_eq!(viz_stride(320), 2);
    assert_eq!(viz_stride(1600), 10);
}

#[test]
fn braille_dots() {
    assert_eq!(braille_dot(0, 0), 0x01);
    assert_eq!(braille_dot(0, 3), 0x40);
    assert_eq!(braille_dot(1, 0), 0x08);
    assert_eq!(braille_dot(1, 3), 0x80);
    assert_eq!(braille_dot(2, 0), 0);
}

#[test]
fn braille_grid_draws_points() {
    // point 0 at dot row 0, point 1 at dot row 5, point 2 past the bottom
    let grid = braille_grid(&vec![0, 5, 40]);
    assert_eq!(grid.len(), 4);
    assert!(grid.iter().all(|r| r.len() == 80));
    assert_eq!(grid[0][0], 0x01);
    assert_eq!(grid[1][0], 0x10);
    assert_eq!(grid[3][1], 0x40);
    assert_eq!(grid[2][0], 0);
    // two points in one character combine
    let grid = braille_grid(&vec![2, 3]);
    assert_eq!(grid[0][0], 0x04 | 0x80);
    // points past the view's width are not drawn
    let grid = braille_grid(&vec![0; 200]);
    assert_eq!(grid[0][79], 0x01 | 0x08);
}

#[test]
fn keyboard_messages() {
    assert_eq!(
        keyboard_message(60, true),
        MidiMessage::NoteOn { channel: 0, note: 60, velocity: 100 }
    );
    assert_eq!(keyboard_message(72, false), MidiMessage::NoteOff { channel: 0, note: 72 });
}
