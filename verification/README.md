# Premonition

A Prophet-style polyphonic synthesizer whose control logic is written in
Verus and proved against its contracts.

- `src/` holds the verified library: MIDI decoding (`midi`), parameter
  identifiers and names (`params`), the eight-voice round-robin bank with
  unison and sustain (`voices`), the engine's MIDI routing (`engine`), the
  circular delay lines behind the effects (`delay_line`), the console's MIDI
  and keyboard handling (`console`), the Braille waveform view (`viz`), the
  waveform selectors (`waveforms`), envelope stages (`envelope`), the
  exponent bits of the fast power of two (`pitch`) and the noise generator
  (`rng`).
- `app/` is the program around it: the floating-point signal path
  (oscillators, filter, envelopes' levels, effects), the terminal front end
  with audio and MIDI devices, presets on disk, the C interface and the
  WebAssembly bindings.
- `tests/` exercises the library on concrete values.
