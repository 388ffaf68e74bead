//! The engine's MIDI handling: how each message moves the voice bank, and
//! which voices' signal paths are to be started or released in turn.

use vstd::prelude::*;
use crate::midi::MidiMessage;
use crate::voices;
use crate::voices::{VoiceManager, MAX_VOICES};

verus! {

/// The signal-path work that a message asks for: voices to start (their
/// oscillators retuned to the voice's note and their envelopes triggered)
/// and voices whose envelopes are to be released.
pub struct VoiceWork {
    pub started: Vec<usize>,
    pub released: Vec<usize>,
}

/// The discrete part of the engine: the voice bank and the count of held
/// notes.
pub struct EngineCore {
    voice_manager: VoiceManager,
    notes_held: u8,
}

/// Whether a message is a note-on that starts voices (a note-on with
/// velocity 0 counts as a note-off).
pub open spec fn starts_note(msg: MidiMessage) -> bool {
    msg matches MidiMessage::NoteOn { velocity, .. } && velocity > 0
}

/// The count of held notes after a message: one more after a note-on
/// (with velocity above 0), one fewer, but not below zero, after a note-off
/// (or a note-on with velocity 0), unchanged otherwise.
pub open spec fn held_after_message(held: u8, msg: MidiMessage) -> int {
    match msg {
        MidiMessage::NoteOn { velocity, .. } => if velocity > 0 {
            held + 1
        } else if held > 0 {
            held - 1
        } else {
            0
        },
        MidiMessage::NoteOff { .. } => if held > 0 {
            held - 1
        } else {
            0
        },
        _ => held as int,
    }
}

/// All eight voices, in order.
pub open spec fn all_voices() -> Seq<usize> {
    Seq::new(MAX_VOICES as nat, |i: int| i as usize)
}

impl EngineCore {
    pub closed spec fn voices(&self) -> VoiceManager {
        self.voice_manager
    }

    pub closed spec fn held(&self) -> u8 {
        self.notes_held
    }

    pub open spec fn wf(&self) -> bool {
        self.voices().wf()
    }

    /// A fresh engine: eight voices that have not played, no note held.
    pub fn new() -> (e: EngineCore)
        ensures
            e.wf(),
            e.voices().slots() == Seq::new(MAX_VOICES as nat, |i: int| voices::initial_voice()),
            e.voices().current() == 0,
            e.voices().unison() == 1,
            e.held() == 0,
    {
        EngineCore { voice_manager: VoiceManager::new(MAX_VOICES), notes_held: 0 }
    }

    /// The voice bank.
    pub fn voice_manager(&self) -> (vm: &VoiceManager)
        ensures
            *vm == self.voices(),
    {
        &self.voice_manager
    }

    /// How many notes are held: one more for each note-on, one fewer (down
    /// to zero) for each note-off.
    pub fn notes_held(&self) -> (n: u8)
        ensures
            n == self.held(),
    {
        self.notes_held
    }

    /// Takes the unison count from the parameter set.
    pub fn update_params(&mut self, unison_voices: u8)
        requires
            old(self).wf(),
        ensures
            final(self).wf(),
            final(self).held() == old(self).held(),
            final(self).voices().slots() == old(self).voices().slots(),
            final(self).voices().current() == old(self).voices().current(),
            final(self).voices().unison() == unison_voices,
    {
        self.voice_manager.update_params(unison_voices);
    }

    /// Routes a message to the voice bank. A note-on starts voices round
    /// the bank (velocity 0 is a note-off); a note-off closes the voices
    /// of that note; pitch bend, mod wheel and aftertouch move the voices'
    /// controls; the pedal holds or frees voices; all-notes-off closes
    /// every voice; other controllers are ignored.
    pub fn handle_midi(&mut self, msg: MidiMessage) -> (work: VoiceWork)
        requires
            old(self).wf(),
            starts_note(msg) ==> old(self).held() < u8::MAX,
        ensures
            final(self).wf(),
            match msg {
                MidiMessage::NoteOn { channel, note, velocity } => if velocity > 0 {
                    &&& final(self).voices().slots() == voices::slots_after_note_on(
                        old(self).voices().slots(),
                        old(self).voices().current() as int,
                        voices::voices_per_note(old(self).voices().unison()) as int,
                        channel,
                        note,
                        velocity,
                    )
                    &&& final(self).voices().current() == (old(self).voices().current()
                        + voices::voices_per_note(old(self).voices().unison())) % (MAX_VOICES as nat)
                    &&& work.started@ == Seq::new(
                        voices::voices_per_note(old(self).voices().unison()),
                        |i: int| ((old(self).voices().current() + i) % (MAX_VOICES as int)) as usize,
                    )
                    &&& work.released@ == Seq::<usize>::empty()
                } else {
                    &&& final(self).voices().slots() == voices::slots_after_note_off(
                        old(self).voices().slots(),
                        channel,
                        note,
                    )
                    &&& final(self).voices().current() == old(self).voices().current()
                    &&& work.started@ == Seq::<usize>::empty()
                    &&& voices::lists_note_off_releases(work.released@, old(self).voices().slots(), channel, note)
                },
                MidiMessage::NoteOff { channel, note } => {
                    &&& final(self).voices().slots() == voices::slots_after_note_off(
                        old(self).voices().slots(),
                        channel,
                        note,
                    )
                    &&& final(self).voices().current() == old(self).voices().current()
                    &&& work.started@ == Seq::<usize>::empty()
                    &&& voices::lists_note_off_releases(work.released@, old(self).voices().slots(), channel, note)
                },
                MidiMessage::PitchBend { channel, value } => {
                    &&& final(self).voices().slots() == voices::slots_after_bend(
                        old(self).voices().slots(),
                        channel,
                        value,
                    )
                    &&& final(self).voices().current() == old(self).voices().current()
                    &&& work.started@ == Seq::<usize>::empty()
                    &&& work.released@ == Seq::<usize>::empty()
                },
                MidiMessage::ModWheel { channel, value } => {
                    &&& final(self).voices().slots() == voices::slots_after_mod_wheel(
                        old(self).voices().slots(),
                        channel,
                        value,
                    )
                    &&& final(self).voices().current() == old(self).voices().current()
                    &&& work.started@ == Seq::<usize>::empty()
                    &&& work.released@ == Seq::<usize>::empty()
                },
                MidiMessage::SustainOn { channel } => {
                    &&& final(self).voices().slots() == voices::slots_after_sustain(
                        old(self).voices().slots(),
                        channel,
                        true,
                    )
                    &&& final(self).voices().current() == old(self).voices().current()
                    &&& work.started@ == Seq::<usize>::empty()
                    &&& work.released@ == Seq::<usize>::empty()
                },
                MidiMessage::SustainOff { channel } => {
                    &&& final(self).voices().slots() == voices::slots_after_sustain(
                        old(self).voices().slots(),
                        channel,
                        false,
                    )
                    &&& final(self).voices().current() == old(self).voices().current()
                    &&& work.started@ == Seq::<usize>::empty()
                    &&& voices::lists_pedal_releases(work.released@, old(self).voices().slots(), channel, false)
                },
                MidiMessage::Aftertouch { channel, note, value } => {
                    &&& final(self).voices().slots() == voices::slots_after_aftertouch(
                        old(self).voices().slots(),
                        channel,
                        note,
                        value,
                    )
                    &&& final(self).voices().current() == old(self).voices().current()
                    &&& work.started@ == Seq::<usize>::empty()
                    &&& work.released@ == Seq::<usize>::empty()
                },
                MidiMessage::AllNotesOff { .. } => {
                    &&& final(self).voices().slots() == voices::slots_after_all_notes_off(
                        old(self).voices().slots(),
                    )
                    &&& final(self).voices().current() == old(self).voices().current()
                    &&& work.started@ == Seq::<usize>::empty()
                    &&& work.released@ == all_voices()
                },
                MidiMessage::ControlChange { .. } => {
                    &&& final(self).voices().slots() == old(self).voices().slots()
                    &&& final(self).voices().current() == old(self).voices().current()
                    &&& work.started@ == Seq::<usize>::empty()
                    &&& work.released@ == Seq::<usize>::empty()
                },
            },
            final(self).voices().unison() == old(self).voices().unison(),
            final(self).held() == held_after_message(old(self).held(), msg),
    {
        match msg {
            MidiMessage::NoteOn { channel, note, velocity } => {
                if velocity > 0 {
                    let started = self.voice_manager.note_on(channel, note, velocity);
                    self.notes_held = self.notes_held + 1;
                    VoiceWork { started, released: Vec::new() }
                } else {
                    let released = self.voice_manager.note_off(channel, note);
                    self.notes_held = self.notes_held.saturating_sub(1);
                    VoiceWork { started: Vec::new(), released }
                }
            },
            MidiMessage::NoteOff { channel, note } => {
                let released = self.voice_manager.note_off(channel, note);
                self.notes_held = self.notes_held.saturating_sub(1);
                VoiceWork { started: Vec::new(), released }
            },
            MidiMessage::PitchBend { channel, value } => {
                self.voice_manager.set_pitch_bend(channel, value);
                VoiceWork { started: Vec::new(), released: Vec::new() }
            },
            MidiMessage::ModWheel { channel, value } => {
                self.voice_manager.set_mod_wheel(channel, value);
                VoiceWork { started: Vec::new(), released: Vec::new() }
            },
            MidiMessage::SustainOn { channel } => {
                let _held = self.voice_manager.set_sustain(channel, true);
                VoiceWork { started: Vec::new(), released: Vec::new() }
            },
            MidiMessage::SustainOff { channel } => {
                let released = self.voice_manager.set_sustain(channel, false);
                VoiceWork { started: Vec::new(), released }
            },
            MidiMessage::Aftertouch { channel, note, value } => {
                self.voice_manager.set_aftertouch(channel, note, value);
                VoiceWork { started: Vec::new(), released: Vec::new() }
            },
            MidiMessage::AllNotesOff { .. } => {
                self.voice_manager.all_notes_off();
                let mut released: Vec<usize> = Vec::new();
                let mut i: usize = 0;
                while i < MAX_VOICES
                    invariant
                        i <= MAX_VOICES,
                        released@ == Seq::new(i as nat, |k: int| k as usize),
                    decreases MAX_VOICES - i,
                {
                    released.push(i);
                    i = i + 1;
                }
                VoiceWork { started: Vec::new(), released }
            },
            MidiMessage::ControlChange { .. } => VoiceWork { started: Vec::new(), released: Vec::new() },
        }
    }
}

/// A key pressed and let go again leaves the count of held notes as it
/// was.
pub proof fn lemma_note_on_off_restores_held(held: u8, channel: u8, note: u8, velocity: u8)
    requires
        held < u8::MAX,
        velocity > 0,
    ensures
        held_after_message(
            held_after_message(held, MidiMessage::NoteOn { channel, note, velocity }) as u8,
            MidiMessage::NoteOff { channel, note },
        ) == held,
{
}

} // verus!
