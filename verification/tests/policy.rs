use rolling_sampler::buffer_size::{
    BufferSizePolicy, BufferSizeSpec, ResolvedCapacity, TimingContext, resolve,
};

fn timing(sample_rate: u32, tempo_mbpm: u32, sig_num: u32, sig_den: u32) -> TimingContext {
    TimingContext { sample_rate, tempo_mbpm, sig_numerator: sig_num, sig_denominator: sig_den }
}

#[test]
fn duration_two_seconds_at_48k() {
    // 2.0 s at 48000 Hz resolves to exactly 96000 samples.
    let t = timing(48000, 120_000, 4, 4);
    let c = resolve(BufferSizeSpec::Duration { millis: 2000 }, t);
    assert_eq!(c.samples, 96000);
}

#[test]
fn quarter_note_at_120_bpm() {
    // At 120 BPM in 4/4 a quarter note lasts 0.5 s, so the capacity is
    // half the sample rate.
    let t = timing(48000, 120_000, 4, 4);
    let c = resolve(BufferSizeSpec::NoteValue { numerator: 1, denominator: 4 }, t);
    assert_eq!(c.samples, 24000);
    let t2 = timing(44100, 120_000, 4, 4);
    let c2 = resolve(BufferSizeSpec::NoteValue { numerator: 1, denominator: 4 }, t2);
    assert_eq!(c2.samples, 22050);
}

#[test]
fn resolve_is_deterministic() {
    let t = timing(44100, 98_765, 3, 8);
    let s = BufferSizeSpec::NoteValue { numerator: 2, denominator: 1 };
    let c1 = resolve(s, t);
    let c2 = resolve(s, t);
    assert_eq!(c1, c2);
    let d = BufferSizeSpec::Duration { millis: 12345 };
    assert_eq!(resolve(d, t), resolve(d, t));
}

#[test]
fn degenerate_inputs_clamp_to_one_sample() {
    let t = timing(48000, 120_000, 4, 4);
    // Zero duration.
    assert_eq!(resolve(BufferSizeSpec::Duration { millis: 0 }, t).samples, 1);
    // Zero tempo.
    let t0 = timing(48000, 0, 4, 4);
    assert_eq!(
        resolve(BufferSizeSpec::NoteValue { numerator: 1, denominator: 4 }, t0).samples,
        1
    );
    // Zero sample rate.
    let tsr = timing(0, 120_000, 4, 4);
    assert_eq!(resolve(BufferSizeSpec::Duration { millis: 2000 }, tsr).samples, 1);
}

#[test]
fn zero_note_denominator_reads_as_whole_note() {
    let t = timing(48000, 120_000, 4, 4);
    let whole = resolve(BufferSizeSpec::NoteValue { numerator: 1, denominator: 1 }, t);
    let zero_den = resolve(BufferSizeSpec::NoteValue { numerator: 1, denominator: 0 }, t);
    assert_eq!(zero_den, whole);
    // A whole note in 4/4 at 120 BPM lasts 2 s.
    assert_eq!(whole.samples, 96000);
}

#[test]
fn duration_clamps_to_sixty_seconds() {
    let t = timing(1000, 120_000, 4, 4);
    let long = resolve(BufferSizeSpec::Duration { millis: 200_000 }, t);
    let max = resolve(BufferSizeSpec::Duration { millis: 60_000 }, t);
    assert_eq!(long, max);
    assert_eq!(max.samples, 60_000);
}

#[test]
fn default_spec_is_ten_seconds() {
    let s: BufferSizeSpec = Default::default();
    assert_eq!(s, BufferSizeSpec::Duration { millis: 10_000 });
}

#[test]
fn policy_signals_invalidation_on_edges_only() {
    let mut p = BufferSizePolicy::new();
    let t = timing(48000, 120_000, 4, 4);
    let s = BufferSizeSpec::Duration { millis: 1000 };
    // First resolution always invalidates.
    let (c, inv) = p.poll(s, t);
    assert_eq!(c, ResolvedCapacity { samples: 48000 });
    assert!(inv);
    // Same inputs: no edge.
    let (_, inv2) = p.poll(s, t);
    assert!(!inv2);
    // Changed spec: edge again.
    let (c3, inv3) = p.poll(BufferSizeSpec::Duration { millis: 2000 }, t);
    assert!(inv3);
    assert_eq!(c3.samples, 96000);
    // Changed sample rate: edge again.
    let (_, inv4) = p.poll(BufferSizeSpec::Duration { millis: 2000 }, timing(96000, 120_000, 4, 4));
    assert!(inv4);
}
