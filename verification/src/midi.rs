//! MIDI channel messages, decoded from their raw bytes.
//!
//! Continuous values (pitch bend, mod wheel, aftertouch) are kept as the
//! integers the bytes carry; the audio side scales them (pitch bend as
//! `(value - 8192) / 8192`, the others as `value / 127`).

use vstd::prelude::*;

verus! {

/// A MIDI message that the engine understands.
#[derive(Clone, Copy, PartialEq, Eq, Debug, Structural)]
pub enum MidiMessage {
    NoteOn { channel: u8, note: u8, velocity: u8 },
    NoteOff { channel: u8, note: u8 },
    /// `value` is the 14-bit bend position; 8192 is the centre.
    PitchBend { channel: u8, value: u16 },
    /// `value` is the controller's 7-bit position.
    ModWheel { channel: u8, value: u8 },
    SustainOn { channel: u8 },
    SustainOff { channel: u8 },
    /// `value` is the 7-bit pressure.
    Aftertouch { channel: u8, note: u8, value: u8 },
    AllNotesOff { channel: u8 },
    ControlChange { channel: u8, controller: u8, value: u8 },
}

/// The message kind: the high nibble of a status byte.
pub open spec fn status_kind(status: u8) -> int {
    (status / 16) as int
}

/// The channel: the low nibble of a status byte.
pub open spec fn status_channel(status: u8) -> u8 {
    (status % 16) as u8
}

/// The bend position of a pitch-bend message: the second data byte above
/// the first, seven bits apart, as `(data2 << 7) | data1` on 16 bits.
pub open spec fn bend_position(data1: u8, data2: u8) -> u16 {
    ((data2 as u16) << 7u16) | (data1 as u16)
}

/// What a control-change message means: controller 1 is the mod wheel,
/// controller 64 the sustain pedal (down from 64 on), any other is passed on.
pub open spec fn spec_control_change(channel: u8, controller: u8, value: u8) -> MidiMessage {
    if controller == 1 {
        MidiMessage::ModWheel { channel, value }
    } else if controller == 64 {
        if value >= 64 {
            MidiMessage::SustainOn { channel }
        } else {
            MidiMessage::SustainOff { channel }
        }
    } else {
        MidiMessage::ControlChange { channel, controller, value }
    }
}

/// The message that three raw bytes stand for, if the engine understands it:
/// note off (0x8n), note on (0x9n; velocity 0 means note off), polyphonic
/// aftertouch (0xAn), control change (0xBn) and pitch bend (0xEn).
pub open spec fn spec_from_bytes(status: u8, data1: u8, data2: u8) -> Option<MidiMessage> {
    let channel = status_channel(status);
    let kind = status_kind(status);
    if kind == 0x8 {
        Some(MidiMessage::NoteOff { channel, note: data1 })
    } else if kind == 0x9 {
        if data2 > 0 {
            Some(MidiMessage::NoteOn { channel, note: data1, velocity: data2 })
        } else {
            Some(MidiMessage::NoteOff { channel, note: data1 })
        }
    } else if kind == 0xA {
        Some(MidiMessage::Aftertouch { channel, note: data1, value: data2 })
    } else if kind == 0xB {
        Some(spec_control_change(channel, data1, data2))
    } else if kind == 0xE {
        Some(MidiMessage::PitchBend { channel, value: bend_position(data1, data2) })
    } else {
        None
    }
}

/// Splits a status byte into its kind nibble (shifted up again, as
/// `0x80`, `0x90`, ...) and its channel.
fn split_status(status: u8) -> (parts: (u8, u8))
    ensures
        parts.0 == status_kind(status) * 16,
        parts.1 == status_channel(status),
{
    let kind = status & 0xF0;
    let channel = status & 0x0F;
    assert(kind == (status / 16) * 16 && channel == status % 16) by (bit_vector)
        requires
            kind == status & 0xF0,
            channel == status & 0x0F,
    ;
    (kind, channel)
}

impl MidiMessage {
    /// Decodes a three-byte MIDI message; `None` for kinds the engine does
    /// not handle.
    pub fn from_bytes(status: u8, data1: u8, data2: u8) -> (msg: Option<MidiMessage>)
        ensures
            msg == spec_from_bytes(status, data1, data2),
    {
        let (message_type, channel) = split_status(status);
        match message_type {
            0x80 => Some(MidiMessage::NoteOff { channel, note: data1 }),
            0x90 => {
                if data2 > 0 {
                    Some(MidiMessage::NoteOn { channel, note: data1, velocity: data2 })
                } else {
                    Some(MidiMessage::NoteOff { channel, note: data1 })
                }
            },
            0xA0 => Some(MidiMessage::Aftertouch { channel, note: data1, value: data2 }),
            0xB0 => Some(Self::parse_control_change(channel, data1, data2)),
            0xE0 => {
                let bend_value = ((data2 as u16) << 7) | (data1 as u16);
                Some(MidiMessage::PitchBend { channel, value: bend_value })
            },
            _ => None,
        }
    }

    /// Decodes a control-change message.
    pub fn parse_control_change(channel: u8, controller: u8, value: u8) -> (msg: MidiMessage)
        ensures
            msg == spec_control_change(channel, controller, value),
    {
        match controller {
            1 => MidiMessage::ModWheel { channel, value },
            64 => {
                if value >= 64 {
                    MidiMessage::SustainOn { channel }
                } else {
                    MidiMessage::SustainOff { channel }
                }
            },
            _ => MidiMessage::ControlChange { channel, controller, value },
        }
    }
}

/// For well-formed data bytes (below 128) the bend position is the 14-bit
/// number `data2 * 128 + data1`, so it lies in `0..16384`.
pub proof fn lemma_bend_position_is_14_bit(data1: u8, data2: u8)
    requires
        data1 < 128,
        data2 < 128,
    ensures
        bend_position(data1, data2) == data2 * 128 + data1,
        bend_position(data1, data2) < 16384,
{
    assert(((data2 as u16) << 7u16) | (data1 as u16) == (data2 as u16) * 128 + (data1 as u16))
        by (bit_vector)
        requires
            data1 < 128,
            data2 < 128,
    ;
}

/// The sustain pedal decodes by the half its value is in: on any channel,
/// controller 64 with a value of 64 or more (up to 255) presses the pedal,
/// a value below 64 lifts it, on the status byte's channel.
pub proof fn lemma_sustain_pedal_decoding(status: u8, value: u8)
    requires
        status / 16 == 0xB,
    ensures
        value >= 64 ==> spec_from_bytes(status, 64, value) == Some(
            MidiMessage::SustainOn { channel: (status % 16) as u8 },
        ),
        value < 64 ==> spec_from_bytes(status, 64, value) == Some(
            MidiMessage::SustainOff { channel: (status % 16) as u8 },
        ),
        value >= 64 ==> spec_control_change(status % 16, 64, value) == (MidiMessage::SustainOn {
            channel: (status % 16) as u8,
        }),
        value < 64 ==> spec_control_change(status % 16, 64, value) == (MidiMessage::SustainOff {
            channel: (status % 16) as u8,
        }),
{
}

/// Note messages keep the channel of their status byte: a note-off byte
/// 0x8n gives a note-off on channel n, a note-on byte 0x9n a note-on on
/// channel n (a note-off there at velocity 0), each on the first data
/// byte's note.
pub proof fn lemma_note_messages_keep_channel(status: u8, data1: u8, data2: u8)
    ensures
        status / 16 == 0x8 ==> spec_from_bytes(status, data1, data2) == Some(
            MidiMessage::NoteOff { channel: (status % 16) as u8, note: data1 },
        ),
        status / 16 == 0x9 && data2 > 0 ==> spec_from_bytes(status, data1, data2) == Some(
            MidiMessage::NoteOn { channel: (status % 16) as u8, note: data1, velocity: data2 },
        ),
        status / 16 == 0x9 && data2 == 0 ==> spec_from_bytes(status, data1, data2) == Some(
            MidiMessage::NoteOff { channel: (status % 16) as u8, note: data1 },
        ),
{
}

} // verus!
