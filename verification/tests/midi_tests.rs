use premonition::midi::MidiMessage;
use premonition::params::{get_param_count, get_param_name, ParameterId, PARAM_COUNT};

#[test]
fn note_on_decodes_channel_and_note() {
    assert_eq!(
        MidiMessage::from_bytes(0x93, 60, 100),
        Some(MidiMessage::NoteOn { channel: 3, note: 60, velocity: 100 })
    );
}

#[test]
fn note_on_with_zero_velocity_is_note_off() {
    assert_eq!(
        MidiMessage::from_bytes(0x90, 64, 0),
        Some(MidiMessage::NoteOff { channel: 0, note: 64 })
    );
}

#[test]
fn note_off_decodes() {
    assert_eq!(
        MidiMessage::from_bytes(0x8F, 12, 40),
        Some(MidiMessage::NoteOff { channel: 15, note: 12 })
    );
}

#[test]
fn polyphonic_aftertouch_decodes() {
    assert_eq!(
        MidiMessage::from_bytes(0xA1, 60, 127),
        Some(MidiMessage::Aftertouch { channel: 1, note: 60, value: 127 })
    );
}

#[test]
fn pitch_bend_centre_and_extremes() {
    assert_eq!(
        MidiMessage::from_bytes(0xE0, 0, 64),
        Some(MidiMessage::PitchBend { channel: 0, value: 8192 })
    );
    assert_eq!(
        MidiMessage::from_bytes(0xE2, 127, 127),
        Some(MidiMessage::PitchBend { channel: 2, value: 16383 })
    );
    assert_eq!(
        MidiMessage::from_bytes(0xE0, 0, 0),
        Some(MidiMessage::PitchBend { channel: 0, value: 0 })
    );
}

#[test]
fn pitch_bend_with_out_of_range_data_byte_overlaps_bits() {
    // (1 << 7) | 0xFF == 0xFF
    assert_eq!(
        MidiMessage::from_bytes(0xE0, 0xFF, 1),
        Some(MidiMessage::PitchBend { channel: 0, value: 0xFF })
    );
}

#[test]
fn control_changes_decode() {
    assert_eq!(
        MidiMessage::from_bytes(0xB0, 1, 100),
        Some(MidiMessage::ModWheel { channel: 0, value: 100 })
    );
    assert_eq!(
        MidiMessage::from_bytes(0xB4, 64, 64),
        Some(MidiMessage::SustainOn { channel: 4 })
    );
    assert_eq!(
        MidiMessage::from_bytes(0xB4, 64, 63),
        Some(MidiMessage::SustainOff { channel: 4 })
    );
    assert_eq!(
        MidiMessage::from_bytes(0xB0, 74, 10),
        Some(MidiMessage::ControlChange { channel: 0, controller: 74, value: 10 })
    );
}

#[test]
fn unknown_kinds_are_dropped() {
    assert_eq!(MidiMessage::from_bytes(0xC0, 5, 0), None);
    assert_eq!(MidiMessage::from_bytes(0xD0, 5, 0), None);
    assert_eq!(MidiMessage::from_bytes(0xF8, 0, 0), None);
    assert_eq!(MidiMessage::from_bytes(0x40, 0, 0), None);
}

#[test]
fn parse_control_change_direct() {
    assert_eq!(
        MidiMessage::parse_control_change(9, 7, 99),
        MidiMessage::ControlChange { channel: 9, controller: 7, value: 99 }
    );
}

#[test]
fn parameter_ids_round_trip() {
    for id in 0..PARAM_COUNT {
        assert_eq!(ParameterId::from_raw(id).raw(), id);
    }
    assert_eq!(ParameterId::from_raw(0), ParameterId::Osc1Wave);
    assert_eq!(ParameterId::from_raw(11), ParameterId::FilterCutoff);
    assert_eq!(ParameterId::from_raw(35), ParameterId::MasterVolume);
}

#[test]
fn out_of_range_parameter_is_master_volume() {
    assert_eq!(ParameterId::from_raw(36), ParameterId::MasterVolume);
    assert_eq!(ParameterId::from_raw(u32::MAX), ParameterId::MasterVolume);
}

#[test]
fn parameter_names() {
    assert_eq!(get_param_count(), 36);
    assert_eq!(get_param_name(0), "Osc1 Wave");
    assert_eq!(get_param_name(11), "Filter Cutoff");
    assert_eq!(get_param_name(29), "PolyMod Osc2>Freq");
    assert_eq!(get_param_name(35), "Master Volume");
    assert_eq!(get_param_name(1000), "Master Volume");
}
