//! Voice allocation: which of the eight voices plays which note.
//!
//! Each voice keeps the discrete state that allocation reads and writes;
//! the per-voice signal path lives beside it and is told which voices to
//! start or release.

use vstd::prelude::*;
use crate::wrap::lemma_wrap;

verus! {

/// Fixed polyphony of the synthesizer.
pub const MAX_VOICES: usize = 8;

/// Pitch-bend position of a wheel at rest.
pub const CENTER_BEND: u16 = 8192;

/// The allocation state of one voice.
#[derive(Clone, Copy, PartialEq, Eq, Debug, Structural)]
pub struct Voice {
    /// Held by a key (or by the pedal after its key went up).
    pub active: bool,
    pub note: u8,
    pub velocity: u8,
    pub channel: u8,
    /// Sustain pedal as seen by this voice.
    pub sustain: bool,
    /// The key went up while the pedal was down: the voice sounds on until
    /// the pedal lifts.
    pub pedal_held: bool,
    /// 14-bit pitch-bend position; `CENTER_BEND` is no bend.
    pub pitch_bend: u16,
    /// 7-bit mod-wheel position.
    pub mod_wheel: u8,
    /// 7-bit aftertouch pressure.
    pub aftertouch: u8,
}

/// A voice that has not played yet: inactive on middle C, velocity 100,
/// channel 0, pedal up, wheels at rest.
pub open spec fn initial_voice() -> Voice {
    Voice {
        active: false,
        note: 60,
        velocity: 100,
        channel: 0,
        sustain: false,
        pedal_held: false,
        pitch_bend: CENTER_BEND,
        mod_wheel: 0,
        aftertouch: 0,
    }
}

/// A voice after a note-on: active on the new note, velocity and channel,
/// no longer held by the pedal.
pub open spec fn voice_after_note_on(s: Voice, channel: u8, note: u8, velocity: u8) -> Voice {
    Voice { active: true, note, velocity, channel, pedal_held: false, ..s }
}

/// A voice whose key went up: inactive, and held by the pedal if the pedal
/// is down.
pub open spec fn voice_after_key_up(s: Voice) -> Voice {
    Voice { active: false, pedal_held: s.sustain, ..s }
}

/// A voice silenced outright: inactive and not held by the pedal.
pub open spec fn voice_silenced(s: Voice) -> Voice {
    Voice { active: false, pedal_held: false, ..s }
}

/// A voice after its pedal is set: lifting the pedal lets go of a voice it
/// held.
pub open spec fn voice_with_sustain(s: Voice, enabled: bool) -> Voice {
    Voice { sustain: enabled, pedal_held: s.pedal_held && enabled, ..s }
}

/// A voice with the pitch bend moved.
pub open spec fn voice_with_bend(s: Voice, bend: u16) -> Voice {
    Voice { pitch_bend: bend, ..s }
}

/// A voice with the mod wheel moved.
pub open spec fn voice_with_mod_wheel(s: Voice, value: u8) -> Voice {
    Voice { mod_wheel: value, ..s }
}

/// A voice with the aftertouch pressure set.
pub open spec fn voice_with_aftertouch(s: Voice, value: u8) -> Voice {
    Voice { aftertouch: value, ..s }
}

/// How many of the first `k` voices sound: active, or amplitude
/// envelope not at rest.
pub open spec fn sounding_count(slots: Seq<Voice>, amp_idle: Seq<bool>, k: int) -> nat
    decreases k,
{
    if k <= 0 {
        0
    } else {
        sounding_count(slots, amp_idle, k - 1) + if slots[k - 1].active || !amp_idle[k - 1] {
            1nat
        } else {
            0nat
        }
    }
}

/// Whether a note-off reaches this voice (which then becomes inactive): it
/// is active on that note and channel.
pub open spec fn note_off_hits(s: Voice, channel: u8, note: u8) -> bool {
    s.active && s.note == note && s.channel == channel
}

/// Whether a note-off releases this voice's envelopes: it reaches the
/// voice and the pedal is up.
pub open spec fn note_off_releases(s: Voice, channel: u8, note: u8) -> bool {
    note_off_hits(s, channel, note) && !s.sustain
}

/// Whether a voice is addressed by a pitch bend, mod wheel or pedal on a
/// channel.
pub open spec fn on_channel(s: Voice, channel: u8) -> bool {
    s.channel == channel
}

/// Whether polyphonic aftertouch reaches a voice: same channel, and the
/// same note or the wildcard note 128.
pub open spec fn aftertouch_reaches(s: Voice, channel: u8, note: u8) -> bool {
    s.channel == channel && (s.note == note || note == 128)
}

/// Whether lifting the pedal releases a voice: its channel, pedal lifted,
/// and its key went up while the pedal was down.
pub open spec fn pedal_up_releases(s: Voice, channel: u8, enabled: bool) -> bool {
    s.channel == channel && !enabled && s.pedal_held
}

impl Voice {
    /// A voice that has not played yet. The index, which sets a voice's
    /// analog variations, does not change its allocation state.
    pub fn new(_voice_index: usize) -> (s: Voice)
        ensures
            s == initial_voice(),
    {
        Voice {
            active: false,
            note: 60,
            velocity: 100,
            channel: 0,
            sustain: false,
            pedal_held: false,
            pitch_bend: CENTER_BEND,
            mod_wheel: 0,
            aftertouch: 0,
        }
    }

    /// Makes the voice play a note.
    pub fn note_on(&mut self, channel: u8, note: u8, velocity: u8)
        ensures
            *final(self) == voice_after_note_on(*old(self), channel, note, velocity),
    {
        self.active = true;
        self.pedal_held = false;
        self.note = note;
        self.velocity = velocity;
        self.channel = channel;
    }

    /// The key goes up: the voice becomes inactive. With the pedal up its
    /// envelopes are to be released, which the result says; with the pedal
    /// down the voice sounds on, held by the pedal.
    pub fn note_off(&mut self) -> (released: bool)
        ensures
            released == !old(self).sustain,
            *final(self) == voice_after_key_up(*old(self)),
    {
        self.active = false;
        self.pedal_held = self.sustain;
        !self.sustain
    }

    /// Sets the pedal; lifting it lets go of a voice whose key went up
    /// while it was down, whose envelopes are then to be released, which
    /// the result says.
    pub fn set_sustain(&mut self, enabled: bool) -> (released: bool)
        ensures
            released == (!enabled && old(self).pedal_held),
            *final(self) == voice_with_sustain(*old(self), enabled),
    {
        let released = !enabled && self.pedal_held;
        self.sustain = enabled;
        self.pedal_held = self.pedal_held && enabled;
        released
    }

    pub fn set_pitch_bend(&mut self, bend: u16)
        ensures
            *final(self) == voice_with_bend(*old(self), bend),
    {
        self.pitch_bend = bend;
    }

    pub fn set_mod_wheel(&mut self, value: u8)
        ensures
            *final(self) == voice_with_mod_wheel(*old(self), value),
    {
        self.mod_wheel = value;
    }

    pub fn set_aftertouch(&mut self, value: u8)
        ensures
            *final(self) == voice_with_aftertouch(*old(self), value),
    {
        self.aftertouch = value;
    }
}

/// Whether the voice `j` is among the `count` voices that a note-on starts
/// when allocation stands at `current`: the voices `current`,
/// `current + 1`, ... taken round the eight voices.
pub open spec fn round_robin_hit(current: int, count: int, j: int) -> bool {
    (j - current) % (MAX_VOICES as int) < count
}

/// The number of voices a note-on starts: the unison count, at least one.
pub open spec fn voices_per_note(unison: nat) -> nat {
    if unison == 0 { 1 } else { unison }
}

/// The voices after a note-on that starts `count` voices from `current` on.
pub open spec fn slots_after_note_on(
    slots: Seq<Voice>,
    current: int,
    count: int,
    channel: u8,
    note: u8,
    velocity: u8,
) -> Seq<Voice> {
    slots.map(
        |j: int, s: Voice|
            if round_robin_hit(current, count, j) {
                voice_after_note_on(s, channel, note, velocity)
            } else {
                s
            },
    )
}

/// The voices after a note-off.
pub open spec fn slots_after_note_off(slots: Seq<Voice>, channel: u8, note: u8) -> Seq<Voice> {
    slots.map(
        |j: int, s: Voice|
            if note_off_hits(s, channel, note) {
                voice_after_key_up(s)
            } else {
                s
            },
    )
}

/// The voices after the pedal of a channel is set.
pub open spec fn slots_after_sustain(slots: Seq<Voice>, channel: u8, enabled: bool) -> Seq<Voice> {
    slots.map(
        |j: int, s: Voice|
            if on_channel(s, channel) {
                voice_with_sustain(s, enabled)
            } else {
                s
            },
    )
}

/// The voices after a pitch bend on a channel.
pub open spec fn slots_after_bend(slots: Seq<Voice>, channel: u8, value: u16) -> Seq<Voice> {
    slots.map(
        |j: int, s: Voice|
            if on_channel(s, channel) {
                voice_with_bend(s, value)
            } else {
                s
            },
    )
}

/// The voices after the mod wheel of a channel moves.
pub open spec fn slots_after_mod_wheel(slots: Seq<Voice>, channel: u8, value: u8) -> Seq<Voice> {
    slots.map(
        |j: int, s: Voice|
            if on_channel(s, channel) {
                voice_with_mod_wheel(s, value)
            } else {
                s
            },
    )
}

/// The voices after polyphonic aftertouch.
pub open spec fn slots_after_aftertouch(
    slots: Seq<Voice>,
    channel: u8,
    note: u8,
    value: u8,
) -> Seq<Voice> {
    slots.map(
        |j: int, s: Voice|
            if aftertouch_reaches(s, channel, note) {
                voice_with_aftertouch(s, value)
            } else {
                s
            },
    )
}

/// The voices after all notes are turned off.
pub open spec fn slots_after_all_notes_off(slots: Seq<Voice>) -> Seq<Voice> {
    slots.map(|j: int, s: Voice| voice_silenced(s))
}

/// `idx` lists voices in increasing order, each once.
pub open spec fn increasing_voices(idx: Seq<usize>) -> bool {
    &&& forall|k: int| 0 <= k < idx.len() ==> #[trigger] idx[k] < MAX_VOICES
    &&& forall|a: int, b: int| 0 <= a < b < idx.len() ==> idx[a] < idx[b]
}

/// `idx` lists, in increasing order, exactly the voices that a note-off
/// releases.
pub open spec fn lists_note_off_releases(idx: Seq<usize>, slots: Seq<Voice>, channel: u8, note: u8) -> bool {
    &&& increasing_voices(idx)
    &&& forall|k: int|
        0 <= k < idx.len() ==> note_off_releases(#[trigger] slots[idx[k] as int], channel, note)
    &&& forall|j: usize|
        j < MAX_VOICES && note_off_releases(slots[j as int], channel, note) ==> #[trigger] idx.contains(j)
}

/// `idx` lists, in increasing order, exactly the voices that setting the
/// pedal releases.
pub open spec fn lists_pedal_releases(idx: Seq<usize>, slots: Seq<Voice>, channel: u8, enabled: bool) -> bool {
    &&& increasing_voices(idx)
    &&& forall|k: int|
        0 <= k < idx.len() ==> pedal_up_releases(#[trigger] slots[idx[k] as int], channel, enabled)
    &&& forall|j: usize|
        j < MAX_VOICES && pedal_up_releases(slots[j as int], channel, enabled) ==> #[trigger] idx.contains(j)
}

/// The bank of eight voices with its round-robin allocation pointer and
/// unison count.
pub struct VoiceManager {
    voices: Vec<Voice>,
    current_voice: usize,
    unison_voices: usize,
}

impl VoiceManager {
    /// The eight voices, in order.
    pub closed spec fn slots(&self) -> Seq<Voice> {
        self.voices@
    }

    /// The voice the next note-on starts with.
    pub closed spec fn current(&self) -> nat {
        self.current_voice as nat
    }

    /// How many voices each note stacks.
    pub closed spec fn unison(&self) -> nat {
        self.unison_voices as nat
    }

    /// Eight voices, a pointer among them, a unison count that came from a
    /// byte.
    pub open spec fn wf(&self) -> bool {
        &&& self.slots().len() == MAX_VOICES
        &&& self.current() < MAX_VOICES
        &&& self.unison() <= 255
    }

    /// Eight voices that have not played, allocation at voice 0, no unison.
    /// The polyphony is fixed: the argument is not read.
    pub fn new(_num_voices: usize) -> (vm: VoiceManager)
        ensures
            vm.wf(),
            vm.slots() == Seq::new(MAX_VOICES as nat, |i: int| initial_voice()),
            vm.current() == 0,
            vm.unison() == 1,
    {
        let mut voices: Vec<Voice> = Vec::new();
        let mut i: usize = 0;
        while i < MAX_VOICES
            invariant
                i <= MAX_VOICES,
                voices@ == Seq::new(i as nat, |k: int| initial_voice()),
            decreases MAX_VOICES - i,
        {
            voices.push(Voice::new(i));
            i = i + 1;
        }
        VoiceManager { voices, current_voice: 0, unison_voices: 1 }
    }

    /// The state of voice `i`.
    pub fn voice(&self, i: usize) -> (s: Voice)
        requires
            self.wf(),
            i < MAX_VOICES,
        ensures
            s == self.slots()[i as int],
    {
        self.voices[i]
    }

    /// The unison count, taken from the parameter set.
    pub fn update_params(&mut self, unison_voices: u8)
        requires
            old(self).wf(),
        ensures
            final(self).wf(),
            final(self).slots() == old(self).slots(),
            final(self).current() == old(self).current(),
            final(self).unison() == unison_voices,
    {
        self.unison_voices = unison_voices as usize;
    }

    /// Starts a note on the next voices round the bank: as many as the
    /// unison count (at least one), from the allocation pointer on, which
    /// then moves past them. Returns the started voices in the order they
    /// were started; their signal paths are to be triggered.
    pub fn note_on(&mut self, channel: u8, note: u8, velocity: u8) -> (started: Vec<usize>)
        requires
            old(self).wf(),
        ensures
            final(self).wf(),
            started@.len() == if old(self).unison() == 0 { 1 } else { old(self).unison() },
            started@ == Seq::new(
                voices_per_note(old(self).unison()),
                |i: int| ((old(self).current() + i) % (MAX_VOICES as int)) as usize,
            ),
            final(self).current() == (old(self).current() + voices_per_note(old(self).unison()))
                % (MAX_VOICES as nat),
            final(self).unison() == old(self).unison(),
            final(self).slots() == slots_after_note_on(
                old(self).slots(),
                old(self).current() as int,
                voices_per_note(old(self).unison()) as int,
                channel,
                note,
                velocity,
            ),
    {
        let num_to_trigger = if self.unison_voices == 0 { 1 } else { self.unison_voices };
        let ghost before = self.voices@;
        let ghost cur = self.current_voice as int;
        let mut started: Vec<usize> = Vec::new();
        let mut i: usize = 0;
        while i < num_to_trigger
            invariant
                i <= num_to_trigger,
                num_to_trigger == voices_per_note(self.unison_voices as nat),
                num_to_trigger <= 255,
                self.current_voice == cur,
                self.unison_voices == old(self).unison_voices,
                0 <= cur < MAX_VOICES,
                self.unison_voices <= 255,
                self.voices@.len() == MAX_VOICES,
                before.len() == MAX_VOICES,
                started@ == Seq::new(i as nat, |k: int| ((cur + k) % (MAX_VOICES as int)) as usize),
                forall|j: int|
                    0 <= j < MAX_VOICES ==> #[trigger] self.voices@[j] == if round_robin_hit(
                        cur,
                        i as int,
                        j,
                    ) {
                        voice_after_note_on(before[j], channel, note, velocity)
                    } else {
                        before[j]
                    },
            decreases num_to_trigger - i,
        {
            let voice_idx = (self.current_voice + i) % MAX_VOICES;
            let mut slot = self.voices[voice_idx];
            slot.note_on(channel, note, velocity);
            self.voices.set(voice_idx, slot);
            started.push(voice_idx);
            proof {
                assert forall|j: int| 0 <= j < MAX_VOICES implies round_robin_hit(cur, i + 1, j)
                    == (round_robin_hit(cur, i as int, j) || j == voice_idx) by {
                    if i < 8 {
                        assert((j == voice_idx) == ((j - cur) % 8 == i));
                    }
                }
            }
            i = i + 1;
        }
        assert(self.voices@ =~= slots_after_note_on(before, cur, num_to_trigger as int, channel, note, velocity));
        self.current_voice = (self.current_voice + num_to_trigger) % MAX_VOICES;
        started
    }

    /// Ends a note: every voice playing it on that channel becomes inactive;
    /// where the pedal is down the voice sounds on, held by the pedal.
    /// Returns, in increasing order, the voices whose envelopes are to be
    /// released now: those the note-off reaches with the pedal up.
    pub fn note_off(&mut self, channel: u8, note: u8) -> (released: Vec<usize>)
        requires
            old(self).wf(),
        ensures
            final(self).wf(),
            final(self).current() == old(self).current(),
            final(self).unison() == old(self).unison(),
            lists_note_off_releases(released@, old(self).slots(), channel, note),
            final(self).slots() == slots_after_note_off(old(self).slots(), channel, note),
    {
        let ghost before = self.voices@;
        let mut released: Vec<usize> = Vec::new();
        let mut j: usize = 0;
        while j < MAX_VOICES
            invariant
                j <= MAX_VOICES,
                self.voices@.len() == MAX_VOICES,
                before.len() == MAX_VOICES,
                self.current_voice < MAX_VOICES,
                self.unison_voices <= 255,
                self.current_voice == old(self).current_voice,
                self.unison_voices == old(self).unison_voices,
                before == old(self).voices@,
                forall|k: int|
                    0 <= k < released.len() ==> #[trigger] released@[k] < j && note_off_releases(
                        before[released@[k] as int],
                        channel,
                        note,
                    ),
                forall|a: int, b: int| 0 <= a < b < released.len() ==> released@[a] < released@[b],
                forall|m: int|
                    0 <= m < j && #[trigger] note_off_releases(before[m], channel, note)
                        ==> released@.contains(m as usize),
                forall|k: int| 0 <= k < MAX_VOICES ==> #[trigger] self.voices@[k] == if k < j && note_off_hits(before[k], channel, note) {
                    voice_after_key_up(before[k])
                } else {
                    before[k]
                },
            decreases MAX_VOICES - j,
        {
            let ghost old_released = released@;
            let mut slot = self.voices[j];
            if slot.active && slot.note == note && slot.channel == channel {
                let gone = slot.note_off();
                self.voices.set(j, slot);
                if gone {
                    released.push(j);
                }
            }
            proof {
                assert forall|m: int|
                    0 <= m < j + 1 && #[trigger] note_off_releases(before[m], channel, note)
                        implies released@.contains(m as usize) by {
                    if m == j {
                        assert(released@.last() == j);
                    } else {
                        let w = choose|w: int| 0 <= w < old_released.len() && old_released[w] == m as usize;
                        assert(released@[w] == m as usize);
                    }
                }
            }
            j = j + 1;
        }
        assert(self.voices@ =~= slots_after_note_off(before, channel, note));
        released
    }

    /// Sets the pedal on every voice of a channel. Returns, in increasing
    /// order, the voices of that channel that the pedal held after their key
    /// went up, when the pedal lifts: their envelopes are to be released.
    pub fn set_sustain(&mut self, channel: u8, enabled: bool) -> (released: Vec<usize>)
        requires
            old(self).wf(),
        ensures
            final(self).wf(),
            final(self).current() == old(self).current(),
            final(self).unison() == old(self).unison(),
            lists_pedal_releases(released@, old(self).slots(), channel, enabled),
            final(self).slots() == slots_after_sustain(old(self).slots(), channel, enabled),
    {
        let ghost before = self.voices@;
        let mut released: Vec<usize> = Vec::new();
        let mut j: usize = 0;
        while j < MAX_VOICES
            invariant
                j <= MAX_VOICES,
                self.voices@.len() == MAX_VOICES,
                before.len() == MAX_VOICES,
                self.current_voice == old(self).current_voice,
                self.unison_voices == old(self).unison_voices,
                before == old(self).voices@,
                old(self).wf(),
                forall|k: int|
                    0 <= k < released.len() ==> #[trigger] released@[k] < j && pedal_up_releases(
                        before[released@[k] as int],
                        channel,
                        enabled,
                    ),
                forall|a: int, b: int| 0 <= a < b < released.len() ==> released@[a] < released@[b],
                forall|m: int|
                    0 <= m < j && #[trigger] pedal_up_releases(before[m], channel, enabled)
                        ==> released@.contains(m as usize),
                forall|k: int|
                    0 <= k < MAX_VOICES ==> #[trigger] self.voices@[k] == if k < j && on_channel(
                        before[k],
                        channel,
                    ) {
                        voice_with_sustain(before[k], enabled)
                    } else {
                        before[k]
                    },
            decreases MAX_VOICES - j,
        {
            let ghost old_released = released@;
            let mut slot = self.voices[j];
            if slot.channel == channel {
                let gone = slot.set_sustain(enabled);
                self.voices.set(j, slot);
                if gone {
                    released.push(j);
                }
            }
            proof {
                assert forall|m: int|
                    0 <= m < j + 1 && #[trigger] pedal_up_releases(before[m], channel, enabled)
                        implies released@.contains(m as usize) by {
                    if m == j {
                        assert(released@.last() == j);
                    } else {
                        let w = choose|w: int| 0 <= w < old_released.len() && old_released[w] == m as usize;
                        assert(released@[w] == m as usize);
                    }
                }
            }
            j = j + 1;
        }
        assert(self.voices@ =~= slots_after_sustain(before, channel, enabled));
        released
    }

    /// Moves the pitch-bend position of every voice on a channel.
    pub fn set_pitch_bend(&mut self, channel: u8, value: u16)
        requires
            old(self).wf(),
        ensures
            final(self).wf(),
            final(self).current() == old(self).current(),
            final(self).unison() == old(self).unison(),
            final(self).slots() == slots_after_bend(old(self).slots(), channel, value),
    {
        let ghost before = self.voices@;
        let mut j: usize = 0;
        while j < MAX_VOICES
            invariant
                j <= MAX_VOICES,
                self.voices@.len() == MAX_VOICES,
                before == old(self).voices@,
                self.current_voice == old(self).current_voice,
                self.unison_voices == old(self).unison_voices,
                old(self).wf(),
                forall|k: int|
                    0 <= k < MAX_VOICES ==> #[trigger] self.voices@[k] == if k < j && on_channel(
                        before[k],
                        channel,
                    ) {
                        voice_with_bend(before[k], value)
                    } else {
                        before[k]
                    },
            decreases MAX_VOICES - j,
        {
            let mut slot = self.voices[j];
            if slot.channel == channel {
                slot.set_pitch_bend(value);
                self.voices.set(j, slot);
            }
            j = j + 1;
        }
        assert(self.voices@ =~= slots_after_bend(before, channel, value));
    }

    /// Moves the mod-wheel position of every voice on a channel.
    pub fn set_mod_wheel(&mut self, channel: u8, value: u8)
        requires
            old(self).wf(),
        ensures
            final(self).wf(),
            final(self).current() == old(self).current(),
            final(self).unison() == old(self).unison(),
            final(self).slots() == slots_after_mod_wheel(old(self).slots(), channel, value),
    {
        let ghost before = self.voices@;
        let mut j: usize = 0;
        while j < MAX_VOICES
            invariant
                j <= MAX_VOICES,
                self.voices@.len() == MAX_VOICES,
                before == old(self).voices@,
                self.current_voice == old(self).current_voice,
                self.unison_voices == old(self).unison_voices,
                old(self).wf(),
                forall|k: int|
                    0 <= k < MAX_VOICES ==> #[trigger] self.voices@[k] == if k < j && on_channel(
                        before[k],
                        channel,
                    ) {
                        voice_with_mod_wheel(before[k], value)
                    } else {
                        before[k]
                    },
            decreases MAX_VOICES - j,
        {
            let mut slot = self.voices[j];
            if slot.channel == channel {
                slot.set_mod_wheel(value);
                self.voices.set(j, slot);
            }
            j = j + 1;
        }
        assert(self.voices@ =~= slots_after_mod_wheel(before, channel, value));
    }

    /// Sets the pressure of every voice on a channel that plays the note
    /// (note 128 reaches every voice of the channel).
    pub fn set_aftertouch(&mut self, channel: u8, note: u8, value: u8)
        requires
            old(self).wf(),
        ensures
            final(self).wf(),
            final(self).current() == old(self).current(),
            final(self).unison() == old(self).unison(),
            final(self).slots() == slots_after_aftertouch(old(self).slots(), channel, note, value),
    {
        let ghost before = self.voices@;
        let mut j: usize = 0;
        while j < MAX_VOICES
            invariant
                j <= MAX_VOICES,
                self.voices@.len() == MAX_VOICES,
                before == old(self).voices@,
                self.current_voice == old(self).current_voice,
                self.unison_voices == old(self).unison_voices,
                old(self).wf(),
                forall|k: int|
                    0 <= k < MAX_VOICES ==> #[trigger] self.voices@[k] == if k < j && aftertouch_reaches(
                        before[k],
                        channel,
                        note,
                    ) {
                        voice_with_aftertouch(before[k], value)
                    } else {
                        before[k]
                    },
            decreases MAX_VOICES - j,
        {
            let mut slot = self.voices[j];
            if slot.channel == channel && (slot.note == note || note == 128) {
                slot.set_aftertouch(value);
                self.voices.set(j, slot);
            }
            j = j + 1;
        }
        assert(self.voices@ =~= slots_after_aftertouch(before, channel, note, value));
    }

    /// Makes every voice inactive and no longer held by the pedal; the
    /// envelopes of all eight voices are to be released.
    pub fn all_notes_off(&mut self)
        requires
            old(self).wf(),
        ensures
            final(self).wf(),
            final(self).current() == old(self).current(),
            final(self).unison() == old(self).unison(),
            final(self).slots() == slots_after_all_notes_off(old(self).slots()),
    {
        let ghost before = self.voices@;
        let mut j: usize = 0;
        while j < MAX_VOICES
            invariant
                j <= MAX_VOICES,
                self.voices@.len() == MAX_VOICES,
                before == old(self).voices@,
                self.current_voice == old(self).current_voice,
                self.unison_voices == old(self).unison_voices,
                old(self).wf(),
                forall|k: int|
                    0 <= k < MAX_VOICES ==> #[trigger] self.voices@[k] == if k < j {
                        voice_silenced(before[k])
                    } else {
                        before[k]
                    },
            decreases MAX_VOICES - j,
        {
            let mut slot = self.voices[j];
            slot.active = false;
            slot.pedal_held = false;
            self.voices.set(j, slot);
            j = j + 1;
        }
        assert(self.voices@ =~= slots_after_all_notes_off(before));
    }

    /// How many voices sound: those that are active or whose amplitude
    /// envelope has not come to rest (`amp_idle[j]` says it has, for voice
    /// `j`).
    pub fn active_voice_count(&self, amp_idle: &Vec<bool>) -> (n: usize)
        requires
            self.wf(),
            amp_idle@.len() == MAX_VOICES,
        ensures
            n == sounding_count(self.slots(), amp_idle@, MAX_VOICES as int),
            n <= MAX_VOICES,
    {
        let mut n: usize = 0;
        let mut j: usize = 0;
        while j < MAX_VOICES
            invariant
                j <= MAX_VOICES,
                self.wf(),
                amp_idle@.len() == MAX_VOICES,
                n == sounding_count(self.slots(), amp_idle@, j as int),
                n <= j,
            decreases MAX_VOICES - j,
        {
            if self.voices[j].active || !amp_idle[j] {
                n = n + 1;
            }
            j = j + 1;
        }
        n
    }
}

/// Where the allocation pointer stands after `k` note-ons that each start
/// `count` voices, from `current` on.
pub open spec fn pointer_after(current: int, count: int, k: nat) -> int
    decreases k,
{
    if k == 0 {
        current
    } else {
        (pointer_after(current, count, (k - 1) as nat) + count) % (MAX_VOICES as int)
    }
}

/// Round-robin: a note-on that stacks at most eight voices starts each of
/// them once (no voice is started twice by one note).
pub proof fn lemma_started_voices_distinct(current: int, count: int, a: int, b: int)
    requires
        0 <= current < MAX_VOICES,
        0 <= a < b < count,
        count <= MAX_VOICES,
    ensures
        (current + a) % (MAX_VOICES as int) != (current + b) % (MAX_VOICES as int),
{
}

/// A note-on that stacks `count` voices starts exactly the voices `count`
/// steps or fewer from the pointer on, round the bank: the voices it
/// reaches are the ones `round_robin_hit` names.
pub proof fn lemma_started_voices_are_hit(current: int, count: int, j: int)
    requires
        0 <= current < MAX_VOICES,
        0 <= j < MAX_VOICES,
        0 <= count,
    ensures
        round_robin_hit(current, count, j) <==> exists|i: int|
            0 <= i < count && #[trigger] ((current + i) % (MAX_VOICES as int)) == j,
{
    let d = (j - current) % 8;
    lemma_wrap(j - current, 8);
    if round_robin_hit(current, count, j) {
        lemma_wrap(current + d, 8);
        assert((current + d) % (MAX_VOICES as int) == j);
    }
    if exists|i: int| 0 <= i < count && #[trigger] ((current + i) % (MAX_VOICES as int)) == j {
        let i = choose|i: int| 0 <= i < count && #[trigger] ((current + i) % (MAX_VOICES as int)) == j;
        vstd::arithmetic::div_mod::lemma_fundamental_div_mod(current + i, 8);
        let q = (current + i) / 8;
        assert(current + i == 8 * q + j);
        assert(d <= i);
    }
}

/// The allocation pointer walks round the bank: after `k` note-ons of
/// `count` voices each it has moved `k * count` voices on.
#[verifier::spinoff_prover]
pub proof fn lemma_pointer_after(current: int, count: int, k: nat)
    requires
        0 <= current < MAX_VOICES,
        0 <= count,
    ensures
        pointer_after(current, count, k) == (current + k * count) % (MAX_VOICES as int),
    decreases k,
{
    if k == 0 {
        assert(k * count == 0) by (nonlinear_arith)
            requires
                k == 0,
        ;
        lemma_wrap(current, 8);
    } else {
        lemma_pointer_after(current, count, (k - 1) as nat);
        let p = current + (k - 1) * count;
        assert(p + count == current + k * count) by (nonlinear_arith)
            requires
                p == current + (k - 1) * count,
        ;
        assert((p % 8 + count) % 8 == (p + count) % 8) by {
            vstd::arithmetic::div_mod::lemma_add_mod_noop(p, count, 8);
            vstd::arithmetic::div_mod::lemma_add_mod_noop(p % 8, count, 8);
            vstd::arithmetic::div_mod::lemma_mod_twice(p, 8);
        }
    }
}

/// Eight single-voice note-ons bring the allocation pointer back where it
/// was.
pub proof fn lemma_pointer_returns(current: int)
    requires
        0 <= current < MAX_VOICES,
    ensures
        pointer_after(current, 1, MAX_VOICES as nat) == current,
{
    lemma_pointer_after(current, 1, MAX_VOICES as nat);
    lemma_wrap(current + 8, 8);
}

/// Eight successive single-voice note-ons start each voice once: the
/// pointer stands on a different voice before each of them.
pub proof fn lemma_eight_notes_start_each_voice_once(current: int, a: nat, b: nat)
    requires
        0 <= current < MAX_VOICES,
        a < b < MAX_VOICES,
    ensures
        pointer_after(current, 1, a) != pointer_after(current, 1, b),
{
    lemma_pointer_after(current, 1, a);
    lemma_pointer_after(current, 1, b);
    lemma_started_voices_distinct(current, MAX_VOICES as int, a as int, b as int);
}

/// A key that goes up makes inactive every voice that its going down
/// started; with the pedal up it releases them at once.
pub proof fn lemma_key_up_closes_started_voices(
    slots: Seq<Voice>,
    current: int,
    count: int,
    channel: u8,
    note: u8,
    velocity: u8,
    j: int,
)
    requires
        0 <= j < slots.len(),
        round_robin_hit(current, count, j),
    ensures
        !slots_after_note_off(
            slots_after_note_on(slots, current, count, channel, note, velocity),
            channel,
            note,
        )[j].active,
        !slots[j].sustain ==> note_off_releases(
            slots_after_note_on(slots, current, count, channel, note, velocity)[j],
            channel,
            note,
        ),
{
}

/// After a note-off, no voice is still active on that note and channel.
pub proof fn lemma_note_off_leaves_no_held_voice(slots: Seq<Voice>, channel: u8, note: u8, j: int)
    requires
        0 <= j < slots.len(),
    ensures
        !note_off_hits(slots_after_note_off(slots, channel, note)[j], channel, note),
{
}

/// While the pedal is down, a note-off releases no voice: the voices it
/// reaches go on sounding, held by the pedal.
pub proof fn lemma_pedal_holds_notes(slots: Seq<Voice>, channel: u8, note: u8, j: int)
    requires
        0 <= j < slots.len(),
        slots[j].sustain,
    ensures
        !note_off_releases(slots[j], channel, note),
        note_off_hits(slots[j], channel, note) ==> slots_after_note_off(slots, channel, note)[j].pedal_held,
{
}

/// The sustain pedal: a note played, the pedal pressed, the key let go and
/// the pedal lifted leaves every voice the note started released, and
/// released when the pedal lifts, not when the key went up.
pub proof fn lemma_pedal_lift_releases_held_note(
    slots: Seq<Voice>,
    current: int,
    count: int,
    channel: u8,
    note: u8,
    velocity: u8,
    j: int,
)
    requires
        0 <= j < slots.len(),
        round_robin_hit(current, count, j),
    ensures
        ({
            let played = slots_after_note_on(slots, current, count, channel, note, velocity);
            let pedalled = slots_after_sustain(played, channel, true);
            let let_go = slots_after_note_off(pedalled, channel, note);
            let lifted = slots_after_sustain(let_go, channel, false);
            &&& !note_off_releases(pedalled[j], channel, note)
            &&& pedal_up_releases(let_go[j], channel, false)
            &&& !lifted[j].active
            &&& !lifted[j].pedal_held
            &&& !lifted[j].sustain
        }),
{
}

/// After all notes are turned off, no voice is active or held by the
/// pedal.
pub proof fn lemma_all_notes_off_closes_all(slots: Seq<Voice>, j: int)
    requires
        0 <= j < slots.len(),
    ensures
        !slots_after_all_notes_off(slots)[j].active,
        !slots_after_all_notes_off(slots)[j].pedal_held,
{
}

/// Unison stacking: a note-on starts exactly as many voices as the unison
/// count says, and one voice when the count is 0.
pub proof fn lemma_unison_count(unison: nat)
    ensures
        unison >= 1 ==> voices_per_note(unison) == unison,
        unison == 0 ==> voices_per_note(unison) == 1,
{
}

/// With a unison count of at most eight, a note-on reaches exactly that
/// many distinct voices: the voices `current`, `current + 1`, ... round
/// the bank, and no other.
pub proof fn lemma_unison_voices_reached(current: int, unison: nat, j: int)
    requires
        0 <= current < MAX_VOICES,
        1 <= unison <= MAX_VOICES,
        0 <= j < MAX_VOICES,
    ensures
        round_robin_hit(current, voices_per_note(unison) as int, j) <==> exists|i: int|
            0 <= i < unison && #[trigger] ((current + i) % 8) == j,
{
    lemma_started_voices_are_hit(current, unison as int, j);
}

/// The performance controls reach every voice on their channel, playing or
/// not, and leave every other voice as it was: after the pitch bend, mod
/// wheel or aftertouch of channel `channel` moves to a value, each voice of
/// that channel (for aftertouch: playing that note, or any note when the
/// note is 128) carries the value, and nothing else changes.
pub proof fn lemma_controls_reach_channel(
    slots: Seq<Voice>,
    channel: u8,
    note: u8,
    bend: u16,
    value: u8,
    j: int,
)
    requires
        0 <= j < slots.len(),
    ensures
        slots_after_bend(slots, channel, bend).len() == slots.len(),
        slots_after_mod_wheel(slots, channel, value).len() == slots.len(),
        slots_after_aftertouch(slots, channel, note, value).len() == slots.len(),
        slots[j].channel == channel ==> slots_after_bend(slots, channel, bend)[j] == (Voice {
            pitch_bend: bend,
            ..slots[j]
        }),
        slots[j].channel != channel ==> slots_after_bend(slots, channel, bend)[j] == slots[j],
        slots[j].channel == channel ==> slots_after_mod_wheel(slots, channel, value)[j] == (Voice {
            mod_wheel: value,
            ..slots[j]
        }),
        slots[j].channel != channel ==> slots_after_mod_wheel(slots, channel, value)[j] == slots[j],
        slots[j].channel == channel && (slots[j].note == note || note == 128)
            ==> slots_after_aftertouch(slots, channel, note, value)[j] == (Voice {
            aftertouch: value,
            ..slots[j]
        }),
        !(slots[j].channel == channel && (slots[j].note == note || note == 128))
            ==> slots_after_aftertouch(slots, channel, note, value)[j] == slots[j],
{
}

} // verus!
