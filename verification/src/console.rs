//! The console front end's control logic: what a raw MIDI message from the
//! input port does, which notes are held, and what the computer keyboard
//! plays.

use vstd::prelude::*;
use crate::midi::{self, MidiMessage};
use crate::params::ParameterId;

verus! {

/// What a raw MIDI message makes the console do.
#[derive(Clone, Copy, PartialEq, Eq, Debug, Structural)]
pub enum ConsoleMidiAction {
    /// Hand the message to the engine.
    Engine(MidiMessage),
    /// Set a parameter to a controller's 7-bit position (scaled by 1/127).
    SetParameter { param: ParameterId, value: u8 },
    /// A controller with no mapping: only shown.
    UnmappedControl { controller: u8, value: u8 },
    /// A message the console does not handle: only shown.
    Other { status: u8, data1: u8, data2: u8 },
}

/// What a key of the computer keyboard does.
#[derive(Clone, Copy, PartialEq, Eq, Debug, Structural)]
pub enum KeyAction {
    Quit,
    SavePreset,
    /// Toggle this note.
    Note(u8),
    Ignore,
}

/// The parameter a control-change number is mapped to: 74 filter cutoff,
/// 71 resonance, 73 amplitude attack, 72 amplitude release, 7 master
/// volume, 10 oscillator mix.
pub open spec fn mapped_parameter(controller: u8) -> Option<ParameterId> {
    if controller == 74 {
        Some(ParameterId::FilterCutoff)
    } else if controller == 71 {
        Some(ParameterId::FilterResonance)
    } else if controller == 73 {
        Some(ParameterId::AmpAttack)
    } else if controller == 72 {
        Some(ParameterId::AmpRelease)
    } else if controller == 7 {
        Some(ParameterId::MasterVolume)
    } else if controller == 10 {
        Some(ParameterId::OscMix)
    } else {
        None
    }
}

/// What a control change does at the console.
pub open spec fn spec_control_action(channel: u8, controller: u8, value: u8) -> ConsoleMidiAction {
    if controller == 1 {
        ConsoleMidiAction::Engine(MidiMessage::ModWheel { channel, value })
    } else if controller == 64 {
        if value >= 64 {
            ConsoleMidiAction::Engine(MidiMessage::SustainOn { channel })
        } else {
            ConsoleMidiAction::Engine(MidiMessage::SustainOff { channel })
        }
    } else if mapped_parameter(controller) is Some {
        ConsoleMidiAction::SetParameter { param: mapped_parameter(controller)->0, value }
    } else if controller == 123 || controller == 120 {
        ConsoleMidiAction::Engine(MidiMessage::AllNotesOff { channel })
    } else {
        ConsoleMidiAction::UnmappedControl { controller, value }
    }
}

/// What three bytes of MIDI do at the console: note on (0x9n, velocity 0
/// meaning note off), note off (0x8n), control change (0xBn), pitch bend
/// (0xEn) and channel pressure (0xDn, sent as aftertouch on the note given
/// by its first data byte, with that byte as pressure); other kinds are
/// only shown.
pub open spec fn spec_midi_action(status: u8, data1: u8, data2: u8) -> ConsoleMidiAction {
    let channel = midi::status_channel(status);
    let kind = midi::status_kind(status);
    if kind == 0x9 {
        if data2 > 0 {
            ConsoleMidiAction::Engine(MidiMessage::NoteOn { channel, note: data1, velocity: data2 })
        } else {
            ConsoleMidiAction::Engine(MidiMessage::NoteOff { channel, note: data1 })
        }
    } else if kind == 0x8 {
        ConsoleMidiAction::Engine(MidiMessage::NoteOff { channel, note: data1 })
    } else if kind == 0xB {
        spec_control_action(channel, data1, data2)
    } else if kind == 0xE {
        ConsoleMidiAction::Engine(
            MidiMessage::PitchBend { channel, value: midi::bend_position(data1, data2) },
        )
    } else if kind == 0xD {
        ConsoleMidiAction::Engine(MidiMessage::Aftertouch { channel, note: data1, value: data1 })
    } else {
        ConsoleMidiAction::Other { status, data1, data2 }
    }
}

/// The held notes after a note is pressed: added at the end unless held.
pub open spec fn held_after_press(held: Seq<u8>, note: u8) -> Seq<u8> {
    if held.contains(note) {
        held
    } else {
        held.push(note)
    }
}

/// The held notes after a note is released: every copy of it removed, the
/// others kept in order.
pub open spec fn held_after_release(held: Seq<u8>, note: u8) -> Seq<u8> {
    held.filter(other_than(note))
}

/// The notes other than `note`.
pub open spec fn other_than(note: u8) -> spec_fn(u8) -> bool {
    |x: u8| x != note
}

/// The held notes after the console has acted on a MIDI action.
pub open spec fn held_after_action(held: Seq<u8>, action: ConsoleMidiAction) -> Seq<u8> {
    match action {
        ConsoleMidiAction::Engine(MidiMessage::NoteOn { note, .. }) => held_after_press(held, note),
        ConsoleMidiAction::Engine(MidiMessage::NoteOff { note, .. }) => held_after_release(held, note),
        _ => held,
    }
}

/// No note is held twice.
pub open spec fn no_duplicates(held: Seq<u8>) -> bool {
    forall|a: int, b: int| 0 <= a < b < held.len() ==> held[a] != held[b]
}

/// The note a key of the computer keyboard plays: the home row and the
/// row above it as a piano octave from middle C.
pub open spec fn key_note(c: char) -> Option<u8> {
    if c == 'a' {
        Some(60)
    } else if c == 'w' {
        Some(61)
    } else if c == 's' {
        Some(62)
    } else if c == 'e' {
        Some(63)
    } else if c == 'd' {
        Some(64)
    } else if c == 'f' {
        Some(65)
    } else if c == 't' {
        Some(66)
    } else if c == 'g' {
        Some(67)
    } else if c == 'y' {
        Some(68)
    } else if c == 'h' {
        Some(69)
    } else if c == 'u' {
        Some(70)
    } else if c == 'j' {
        Some(71)
    } else if c == 'k' {
        Some(72)
    } else {
        None
    }
}

/// What a character key does: 'q' quits, 's' saves the current preset
/// (and so never plays its note), a piano key toggles its note.
pub open spec fn spec_key_action(c: char) -> KeyAction {
    if c == 'q' {
        KeyAction::Quit
    } else if c == 's' {
        KeyAction::SavePreset
    } else if key_note(c) is Some {
        KeyAction::Note(key_note(c)->0)
    } else {
        KeyAction::Ignore
    }
}

/// Whether a note is held.
pub fn is_held(held: &Vec<u8>, note: u8) -> (b: bool)
    ensures
        b == held@.contains(note),
{
    let mut i: usize = 0;
    while i < held.len()
        invariant
            i <= held@.len(),
            forall|k: int| 0 <= k < i ==> held@[k] != note,
        decreases held@.len() - i,
    {
        if held[i] == note {
            return true;
        }
        i = i + 1;
    }
    false
}

/// Marks a note held (once).
pub fn press_note(held: &mut Vec<u8>, note: u8)
    ensures
        final(held)@ == held_after_press(old(held)@, note),
{
    if !is_held(held, note) {
        held.push(note);
    }
}

/// Marks a note no longer held.
pub fn release_note(held: &mut Vec<u8>, note: u8)
    ensures
        final(held)@ == held_after_release(old(held)@, note),
{
    let mut kept: Vec<u8> = Vec::new();
    let mut i: usize = 0;
    while i < held.len()
        invariant
            i <= held@.len(),
            kept@ == held@.take(i as int).filter(other_than(note)),
        decreases held@.len() - i,
    {
        proof {
            assert(held@.take(i + 1).drop_last() =~= held@.take(i as int));
            reveal_with_fuel(Seq::<_>::filter, 1);
        }
        if held[i] != note {
            kept.push(held[i]);
        }
        i = i + 1;
    }
    assert(held@.take(held@.len() as int) =~= held@);
    *held = kept;
}

/// Presses a note that is not held, releases one that is; says whether the
/// note now sounds (a note-on is to be sent) or not (a note-off).
pub fn toggle_note(held: &mut Vec<u8>, note: u8) -> (on: bool)
    ensures
        on == !old(held)@.contains(note),
        final(held)@ == if on {
            held_after_press(old(held)@, note)
        } else {
            held_after_release(old(held)@, note)
        },
{
    if is_held(held, note) {
        release_note(held, note);
        false
    } else {
        press_note(held, note);
        true
    }
}

/// What a control change does at the console.
fn control_action(channel: u8, controller: u8, value: u8) -> (action: ConsoleMidiAction)
    ensures
        action == spec_control_action(channel, controller, value),
{
    match controller {
        1 => ConsoleMidiAction::Engine(MidiMessage::ModWheel { channel, value }),
        64 => {
            if value >= 64 {
                ConsoleMidiAction::Engine(MidiMessage::SustainOn { channel })
            } else {
                ConsoleMidiAction::Engine(MidiMessage::SustainOff { channel })
            }
        },
        74 => ConsoleMidiAction::SetParameter { param: ParameterId::FilterCutoff, value },
        71 => ConsoleMidiAction::SetParameter { param: ParameterId::FilterResonance, value },
        73 => ConsoleMidiAction::SetParameter { param: ParameterId::AmpAttack, value },
        72 => ConsoleMidiAction::SetParameter { param: ParameterId::AmpRelease, value },
        7 => ConsoleMidiAction::SetParameter { param: ParameterId::MasterVolume, value },
        10 => ConsoleMidiAction::SetParameter { param: ParameterId::OscMix, value },
        123 | 120 => ConsoleMidiAction::Engine(MidiMessage::AllNotesOff { channel }),
        _ => ConsoleMidiAction::UnmappedControl { controller, value },
    }
}

/// Acts on a raw MIDI message from the input port: messages shorter than
/// three bytes are dropped (`None`); otherwise the first three bytes decide
/// the action, and note-ons and note-offs update the held notes.
pub fn route_midi_event(held: &mut Vec<u8>, message: &[u8]) -> (action: Option<ConsoleMidiAction>)
    ensures
        message@.len() < 3 ==> action is None && final(held)@ == old(held)@,
        message@.len() >= 3 ==> {
            let a = spec_midi_action(message@[0], message@[1], message@[2]);
            &&& action == Some(a)
            &&& final(held)@ == held_after_action(old(held)@, a)
        },
{
    if message.len() < 3 {
        return None;
    }
    let status = message[0];
    let data1 = message[1];
    let data2 = message[2];
    let message_type = status & 0xF0;
    let channel = status & 0x0F;
    assert(message_type == (status / 16) * 16 && channel == status % 16) by (bit_vector)
        requires
            message_type == status & 0xF0,
            channel == status & 0x0F,
    ;
    let action = match message_type {
        0x90 => {
            if data2 > 0 {
                press_note(held, data1);
                ConsoleMidiAction::Engine(MidiMessage::NoteOn { channel, note: data1, velocity: data2 })
            } else {
                release_note(held, data1);
                ConsoleMidiAction::Engine(MidiMessage::NoteOff { channel, note: data1 })
            }
        },
        0x80 => {
            release_note(held, data1);
            ConsoleMidiAction::Engine(MidiMessage::NoteOff { channel, note: data1 })
        },
        0xB0 => control_action(channel, data1, data2),
        0xE0 => {
            let bend_value = ((data2 as u16) << 7) | (data1 as u16);
            ConsoleMidiAction::Engine(MidiMessage::PitchBend { channel, value: bend_value })
        },
        0xD0 => ConsoleMidiAction::Engine(MidiMessage::Aftertouch { channel, note: data1, value: data1 }),
        _ => ConsoleMidiAction::Other { status, data1, data2 },
    };
    Some(action)
}

/// The message a toggled piano key sends: a note-on at velocity 100 when
/// the note now sounds, a note-off when it stops; always on channel 0.
pub fn keyboard_message(note: u8, on: bool) -> (msg: MidiMessage)
    ensures
        msg == if on {
            MidiMessage::NoteOn { channel: 0, note, velocity: 100 }
        } else {
            MidiMessage::NoteOff { channel: 0, note }
        },
{
    if on {
        MidiMessage::NoteOn { channel: 0, note, velocity: 100 }
    } else {
        MidiMessage::NoteOff { channel: 0, note }
    }
}

/// What a character key of the computer keyboard does.
pub fn key_action(c: char) -> (action: KeyAction)
    ensures
        action == spec_key_action(c),
{
    match c {
        'q' => KeyAction::Quit,
        's' => KeyAction::SavePreset,
        'a' => KeyAction::Note(60),
        'w' => KeyAction::Note(61),
        'e' => KeyAction::Note(63),
        'd' => KeyAction::Note(64),
        'f' => KeyAction::Note(65),
        't' => KeyAction::Note(66),
        'g' => KeyAction::Note(67),
        'y' => KeyAction::Note(68),
        'h' => KeyAction::Note(69),
        'u' => KeyAction::Note(70),
        'j' => KeyAction::Note(71),
        'k' => KeyAction::Note(72),
        _ => KeyAction::Ignore,
    }
}

/// Filtering keeps a list free of repeats.
proof fn lemma_filter_keeps_distinct(s: Seq<u8>, p: spec_fn(u8) -> bool)
    requires
        no_duplicates(s),
    ensures
        no_duplicates(s.filter(p)),
    decreases s.len(),
{
    reveal_with_fuel(Seq::<_>::filter, 1);
    if s.len() > 0 {
        let rest = s.drop_last();
        assert(no_duplicates(rest));
        lemma_filter_keeps_distinct(rest, p);
        if p(s.last()) {
            if rest.filter(p).contains(s.last()) {
                rest.lemma_filter_contains_rev(p, s.last());
                let k = choose|k: int| 0 <= k < rest.len() && rest[k] == s.last();
                assert(s[k] == s[s.len() - 1]);
            }
        }
    }
}

/// Filtering with a test that every element passes changes nothing.
proof fn lemma_filter_all_pass(s: Seq<u8>, p: spec_fn(u8) -> bool)
    requires
        forall|i: int| 0 <= i < s.len() ==> p(#[trigger] s[i]),
    ensures
        s.filter(p) == s,
    decreases s.len(),
{
    reveal_with_fuel(Seq::<_>::filter, 1);
    if s.len() > 0 {
        let rest = s.drop_last();
        assert forall|i: int| 0 <= i < rest.len() implies p(#[trigger] rest[i]) by {
            assert(rest[i] == s[i]);
        }
        lemma_filter_all_pass(rest, p);
        assert(rest.push(s.last()) =~= s);
    }
}

/// A pressed note is held; a released note is not; neither makes a note
/// held twice.
pub proof fn lemma_held_notes(held: Seq<u8>, note: u8)
    requires
        no_duplicates(held),
    ensures
        held_after_press(held, note).contains(note),
        !held_after_release(held, note).contains(note),
        no_duplicates(held_after_press(held, note)),
        no_duplicates(held_after_release(held, note)),
{
    let pressed = held_after_press(held, note);
    if !held.contains(note) {
        assert(pressed[held.len() as int] == note);
    }
    let released = held_after_release(held, note);
    if released.contains(note) {
        let k = choose|k: int| 0 <= k < released.len() && released[k] == note;
        held.lemma_filter_pred(other_than(note), k);
    }
    lemma_filter_keeps_distinct(held, other_than(note));
}

/// Pressing a note that is not held and releasing it again gives back the
/// held notes as they were: a key toggled twice leaves nothing behind.
pub proof fn lemma_press_then_release(held: Seq<u8>, note: u8)
    requires
        !held.contains(note),
    ensures
        held_after_release(held_after_press(held, note), note) == held,
{
    reveal_with_fuel(Seq::<_>::filter, 1);
    let pushed = held.push(note);
    assert(pushed.drop_last() =~= held);
    assert forall|i: int| 0 <= i < held.len() implies other_than(note)(#[trigger] held[i]) by {
        assert(held.contains(held[i]));
    }
    lemma_filter_all_pass(held, other_than(note));
}

/// The console keeps the held notes free of repeats, whatever MIDI comes
/// in.
pub proof fn lemma_action_keeps_held_distinct(held: Seq<u8>, action: ConsoleMidiAction)
    requires
        no_duplicates(held),
    ensures
        no_duplicates(held_after_action(held, action)),
{
    match action {
        ConsoleMidiAction::Engine(MidiMessage::NoteOn { note, .. }) => lemma_held_notes(held, note),
        ConsoleMidiAction::Engine(MidiMessage::NoteOff { note, .. }) => lemma_held_notes(held, note),
        _ => {},
    }
}

/// The console keeps the channel of note messages: a note-off byte 0x8n
/// gives a note-off on channel n, a note-on byte 0x9n a note-on on channel
/// n (a note-off at velocity 0), each on the first data byte's note; and
/// for note, pitch-bend and control-change bytes the console hands the
/// engine what the MIDI decoder makes of them, pedal included.
pub proof fn lemma_console_notes_keep_channel(status: u8, data1: u8, data2: u8)
    ensures
        status / 16 == 0x8 ==> spec_midi_action(status, data1, data2) == ConsoleMidiAction::Engine(
            MidiMessage::NoteOff { channel: (status % 16) as u8, note: data1 },
        ),
        status / 16 == 0x9 && data2 > 0 ==> spec_midi_action(status, data1, data2)
            == ConsoleMidiAction::Engine(
            MidiMessage::NoteOn { channel: (status % 16) as u8, note: data1, velocity: data2 },
        ),
        status / 16 == 0x9 && data2 == 0 ==> spec_midi_action(status, data1, data2)
            == ConsoleMidiAction::Engine(
            MidiMessage::NoteOff { channel: (status % 16) as u8, note: data1 },
        ),
        (status / 16 == 0x8 || status / 16 == 0x9 || status / 16 == 0xE) ==> spec_midi_action(
            status,
            data1,
            data2,
        ) == ConsoleMidiAction::Engine(midi::spec_from_bytes(status, data1, data2)->0),
        status / 16 == 0xB && data1 == 64 ==> spec_midi_action(status, data1, data2)
            == ConsoleMidiAction::Engine(midi::spec_from_bytes(status, data1, data2)->0),
{
}

/// The computer keyboard plays the chromatic octave from middle C: the
/// k-th key of "awsedftgyhujk" is note 60 + k, so each key is a semitone
/// above the one before; every one of them but 's' (which saves the
/// preset) plays its note, and 'q' quits.
pub proof fn lemma_keyboard_is_chromatic(k: int)
    requires
        0 <= k < 13,
    ensures
        key_note(seq!['a', 'w', 's', 'e', 'd', 'f', 't', 'g', 'y', 'h', 'u', 'j', 'k'][k])
            == Some((60 + k) as u8),
        k != 2 ==> spec_key_action(seq!['a', 'w', 's', 'e', 'd', 'f', 't', 'g', 'y', 'h', 'u', 'j', 'k'][k])
            == KeyAction::Note((60 + k) as u8),
        spec_key_action('s') == KeyAction::SavePreset,
        spec_key_action('q') == KeyAction::Quit,
{
    let keys = seq!['a', 'w', 's', 'e', 'd', 'f', 't', 'g', 'y', 'h', 'u', 'j', 'k'];
    assert(keys[0] == 'a' && keys[1] == 'w' && keys[2] == 's' && keys[3] == 'e' && keys[4] == 'd');
    assert(keys[5] == 'f' && keys[6] == 't' && keys[7] == 'g' && keys[8] == 'y' && keys[9] == 'h');
    assert(keys[10] == 'u' && keys[11] == 'j' && keys[12] == 'k');
}

} // verus!
