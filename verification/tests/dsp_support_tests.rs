use premonition::delay_line::{read_position, DelayLine};
use premonition::envelope::{next_stage, EnvelopeStage};
use premonition::pitch::exp2_bits;
use premonition::rng::{imperfection_seed, lcg_next, lcg_output, seeded_random_bits};
use premonition::waveforms::{lfo_waveform_from_u8, u8_to_waveform, LfoWaveform, Waveform};

#[test]
fn lcg_steps() {
    assert_eq!(lcg_next(12345), 12345u32.wrapping_mul(1103515245).wrapping_add(12345));
    assert_eq!(lcg_next(0), 12345);
    assert_eq!(lcg_output(0xFFFF_FFFF), 0x7FFF);
    assert_eq!(lcg_output(0x0001_0000), 1);
    assert_eq!(lcg_output(0x8000_0000), 0);
}

#[test]
fn imperfection_seeds() {
    assert_eq!(imperfection_seed(0), 1);
    assert_eq!(imperfection_seed(1), 2654435762);
    assert_eq!(imperfection_seed(2), 2654435761u32.wrapping_mul(2).wrapping_add(1));
    let s = imperfection_seed(3);
    assert_eq!(seeded_random_bits(s), lcg_output(lcg_next(s)));
    assert!(seeded_random_bits(s) < 0x8000);
}

#[test]
fn read_positions_wrap() {
    assert_eq!(read_position(10, 3, 16), 7);
    assert_eq!(read_position(2, 5, 16), 13);
    assert_eq!(read_position(0, 0, 16), 0);
    // the delay is capped at the length less one
    assert_eq!(read_position(5, 100, 16), 6);
}

#[test]
fn delay_line_reads_back_writes() {
    let mut d = DelayLine::new(8, 0i32);
    assert_eq!(d.len(), 8);
    for v in 1..=5 {
        d.write(v);
        d.advance();
    }
    assert_eq!(d.write_pos(), 5);
    assert_eq!(d.read_delayed(1), 5);
    assert_eq!(d.read_delayed(5), 1);
    assert_eq!(d.read_delayed(6), 0);
    assert_eq!(d.current(), 0);
    for v in 6..=10 {
        d.write(v);
        d.advance();
    }
    assert_eq!(d.write_pos(), 2);
    assert_eq!(d.read_delayed(1), 10);
    assert_eq!(d.read_delayed(7), 4);
    d.clear(0);
    assert_eq!(d.write_pos(), 0);
    assert_eq!(d.read_delayed(3), 0);
}

#[test]
fn waveform_selection() {
    assert!(u8_to_waveform(0) == Waveform::Saw);
    assert!(u8_to_waveform(1) == Waveform::Pulse);
    assert!(u8_to_waveform(2) == Waveform::Triangle);
    assert!(u8_to_waveform(3) == Waveform::Saw);
    assert!(Waveform::default() == Waveform::Saw);
    assert!(lfo_waveform_from_u8(0) == LfoWaveform::Triangle);
    assert!(lfo_waveform_from_u8(1) == LfoWaveform::Saw);
    assert!(lfo_waveform_from_u8(2) == LfoWaveform::Square);
    assert!(lfo_waveform_from_u8(3) == LfoWaveform::Random);
    assert!(lfo_waveform_from_u8(200) == LfoWaveform::Random);
    assert!(LfoWaveform::default() == LfoWaveform::Triangle);
}

#[test]
fn envelope_stages_move_forward() {
    assert_eq!(next_stage(EnvelopeStage::Attack, false), EnvelopeStage::Attack);
    assert_eq!(next_stage(EnvelopeStage::Attack, true), EnvelopeStage::Decay);
    assert_eq!(next_stage(EnvelopeStage::Decay, true), EnvelopeStage::Sustain);
    assert_eq!(next_stage(EnvelopeStage::Sustain, true), EnvelopeStage::Sustain);
    assert_eq!(next_stage(EnvelopeStage::Release, true), EnvelopeStage::Idle);
    assert_eq!(next_stage(EnvelopeStage::Idle, true), EnvelopeStage::Idle);
}

#[test]
fn exp2_bits_match_float_powers() {
    assert_eq!(f32::from_bits(exp2_bits(0)), 1.0f32);
    assert_eq!(f32::from_bits(exp2_bits(3)), 8.0f32);
    assert_eq!(f32::from_bits(exp2_bits(-2)), 0.25f32);
    assert_eq!(exp2_bits(-500), 0);
    assert_eq!(exp2_bits(500), 255 << 23);
}
