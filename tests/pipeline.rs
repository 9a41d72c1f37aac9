use tapedeck::decode::{
    next_step, select_track, DecodeOutcome, LoadError, LoopEvent, LoopStep, PositionCounter,
    ReadOutcome,
};
use tapedeck::pcm::{
    block_nanos, frames_to_nanos, full_scale, integer_bits, native_rate, needs_resampling,
    track_nanos, unit_fraction, SampleFormat, OUTPUT_RATE,
};
use tapedeck::queue::SampleQueue;
use tapedeck::spectrum::{
    bar_of_bin, bar_range, bass_bins, beat_may_fire, bin_of_frequency, sector_rgb, BAR_COUNT,
    BIN_COUNT, FFT_SIZE,
};
use tapedeck::window::SampleWindow;

fn to_unit(f: SampleFormat, raw: i64) -> f32 {
    let (num, den) = unit_fraction(f, raw).unwrap();
    num as f32 / den as f32
}

#[test]
fn unsigned_8_bit_samples_map_to_unit_range() {
    assert!((to_unit(SampleFormat::U8, 255) - 0.992).abs() < 1e-3);
    assert!((to_unit(SampleFormat::U8, 128) - 0.0).abs() < 1e-3);
    assert!((to_unit(SampleFormat::U8, 0) - (-1.0)).abs() < 1e-3);
    assert_eq!(unit_fraction(SampleFormat::U8, 255), Some((127, 128)));
}

#[test]
fn wider_formats_use_their_own_full_scale() {
    assert_eq!(unit_fraction(SampleFormat::U16, 0), Some((-32768, 32768)));
    assert_eq!(unit_fraction(SampleFormat::U24, 8388608), Some((0, 8388608)));
    assert_eq!(unit_fraction(SampleFormat::U32, 4294967295), Some((2147483647, 2147483648)));
    assert_eq!(unit_fraction(SampleFormat::S8, -128), Some((-128, 128)));
    assert_eq!(unit_fraction(SampleFormat::S16, 16384), Some((16384, 32768)));
    assert_eq!(unit_fraction(SampleFormat::S32, -2147483648), Some((-2147483648, 2147483648)));
    assert_eq!(unit_fraction(SampleFormat::F32, 0), None);
    assert_eq!(unit_fraction(SampleFormat::F64, 7), None);
    assert_eq!(integer_bits(SampleFormat::S24), Some(24));
    assert_eq!(full_scale(1), 1);
    assert_eq!(full_scale(32), 2147483648);
}

#[test]
fn rates_and_resampling_decision() {
    assert_eq!(native_rate(None), OUTPUT_RATE);
    assert_eq!(native_rate(Some(44100)), 44100);
    assert!(needs_resampling(44100));
    assert!(!needs_resampling(48000));
}

#[test]
fn timing_from_sample_counts() {
    assert_eq!(frames_to_nanos(48000, 48000), 1_000_000_000);
    assert_eq!(frames_to_nanos(1, 3), 333_333_333);
    assert_eq!(block_nanos(96000, 2), 1_000_000_000);
    assert_eq!(track_nanos(Some(441000), 44100), Some(10_000_000_000));
    assert_eq!(track_nanos(None, 44100), None);
    assert_eq!(track_nanos(Some(10), 0), None);
    let mut pos = PositionCounter::new();
    pos.advance(4800, 1);
    pos.advance(4800, 2);
    assert_eq!(pos.nanos(), 150_000_000);
}

#[test]
fn two_drains_return_everything_then_nothing() {
    let mut q: SampleQueue<f32> = SampleQueue::new();
    q.push_all(&[0.5, -0.25]);
    q.push_all(&[1.0]);
    assert_eq!(q.len(), 3);
    let first = q.drain_all();
    let second = q.drain_all();
    assert_eq!(first, vec![0.5, -0.25, 1.0]);
    assert!(second.is_empty());
}

#[test]
fn window_defers_until_full() {
    let mut w: SampleWindow<f32> = SampleWindow::new(FFT_SIZE);
    w.add_samples(&vec![0.1; FFT_SIZE - 1]);
    assert!(w.frame().is_none());
    assert!(!w.is_full());
    w.add_samples(&[0.2]);
    let frame = w.frame().unwrap();
    assert_eq!(frame.len(), FFT_SIZE);
    assert_eq!(frame[FFT_SIZE - 1], 0.2);
}

#[test]
fn window_keeps_only_the_latest_samples() {
    let mut w: SampleWindow<i32> = SampleWindow::new(3);
    w.add_samples(&[1, 2]);
    w.add_samples(&[3, 4, 5]);
    assert_eq!(w.len(), 3);
    assert_eq!(w.frame(), Some(vec![3, 4, 5]));
    w.add_samples(&[]);
    assert_eq!(w.frame(), Some(vec![3, 4, 5]));
    assert_eq!(w.capacity(), 3);
}

#[test]
fn bars_split_bins_evenly_with_remainder_last() {
    assert_eq!(bar_range(0, BAR_COUNT, BIN_COUNT), (0, 32));
    assert_eq!(bar_range(31, BAR_COUNT, BIN_COUNT), (992, 1024));
    assert_eq!(bar_range(2, 3, 10), (6, 10));
    assert_eq!(bar_range(1, 3, 10), (3, 6));
    assert_eq!(bass_bins(BIN_COUNT), 128);
}

#[test]
fn tone_lands_in_its_bar() {
    // 1 kHz at 48 kHz over 2048 points: bin 43, bar 1.
    let bin = bin_of_frequency(1000);
    assert_eq!(bin, 43);
    assert_eq!(bar_of_bin(bin, BAR_COUNT, BIN_COUNT), 1);
    assert_eq!(bar_of_bin(1023, BAR_COUNT, BIN_COUNT), 31);
    assert_eq!(bar_of_bin(9, 3, 10), 2);
}

#[test]
fn beat_cooldown() {
    assert!(!beat_may_fire(199_999_999));
    assert!(beat_may_fire(200_000_000));
}

#[test]
fn hue_sectors_place_components() {
    assert_eq!(sector_rgb(0, 9, 5, 0), (9, 5, 0));
    assert_eq!(sector_rgb(1, 9, 5, 0), (5, 9, 0));
    assert_eq!(sector_rgb(2, 9, 5, 0), (0, 9, 5));
    assert_eq!(sector_rgb(3, 9, 5, 0), (0, 5, 9));
    assert_eq!(sector_rgb(4, 9, 5, 0), (5, 0, 9));
    assert_eq!(sector_rgb(5, 9, 5, 0), (9, 0, 5));
    assert_eq!(sector_rgb(6, 9, 5, 0), (9, 0, 5));
}

#[test]
fn decode_loop_decisions() {
    assert_eq!(next_step(LoopEvent::Paused, 1), LoopStep::Wait);
    assert_eq!(next_step(LoopEvent::Read(ReadOutcome::Packet { track_id: 1 }), 1), LoopStep::Decode);
    assert_eq!(next_step(LoopEvent::Read(ReadOutcome::Packet { track_id: 2 }), 1), LoopStep::Skip);
    assert_eq!(next_step(LoopEvent::Read(ReadOutcome::ResetRequired), 1), LoopStep::ResetDecoder);
    assert_eq!(next_step(LoopEvent::Read(ReadOutcome::Failed), 1), LoopStep::Stop);
    assert_eq!(next_step(LoopEvent::Read(ReadOutcome::EndOfStream), 1), LoopStep::Stop);
    assert_eq!(next_step(LoopEvent::Decode(DecodeOutcome::Decoded), 1), LoopStep::Emit);
    assert_eq!(
        next_step(LoopEvent::Decode(DecodeOutcome::ResetRequired), 1),
        LoopStep::ResetDecoder
    );
    assert_eq!(next_step(LoopEvent::Decode(DecodeOutcome::Failed), 1), LoopStep::Stop);
}

#[test]
fn track_selection() {
    assert_eq!(select_track(&[false, true, true]), Ok(1));
    assert_eq!(select_track(&[false, false]), Err(LoadError::NoSupportedTrack));
    assert_eq!(select_track(&[]), Err(LoadError::NoSupportedTrack));
}

#[test]
fn raw_values_outside_the_format_are_refused() {
    assert_eq!(unit_fraction(SampleFormat::U8, 256), None);
    assert_eq!(unit_fraction(SampleFormat::U8, -1), None);
    assert_eq!(unit_fraction(SampleFormat::S16, 32768), None);
    assert_eq!(unit_fraction(SampleFormat::S16, -32769), None);
    assert_eq!(unit_fraction(SampleFormat::U24, 16777216), None);
    assert_eq!(unit_fraction(SampleFormat::S24, -8388608), Some((-8388608, 8388608)));
}
