use rolling_sampler::buffer_size::{BufferSizeSpec, TimingContext};
use rolling_sampler::handoff::SnapshotChannel;
use rolling_sampler::session::CaptureSession;

fn bits(samples: &[f32]) -> Vec<u32> {
    samples.iter().map(|s| s.to_bits()).collect()
}

fn timing() -> TimingContext {
    TimingContext { sample_rate: 4000, tempo_mbpm: 120_000, sig_numerator: 4, sig_denominator: 4 }
}

// One millisecond at 4000 Hz: a four-sample window, handy for tests.
fn small_spec() -> BufferSizeSpec {
    BufferSizeSpec::Duration { millis: 1 }
}

#[test]
fn session_rolls_and_snapshots() {
    let mut s = CaptureSession::new(1, 1);
    let mut ch = SnapshotChannel::new(Vec::new());
    let spec = small_spec();
    let out = s.process_block(&mut ch, &vec![bits(&[0.1, 0.2])], spec, timing(), false, false, false, true);
    assert!(out.is_none());
    // The throttle period is one: every block publishes the new window.
    assert_eq!(ch.try_read(), Some(bits(&[0.1, 0.2])));
    s.process_block(&mut ch, &vec![bits(&[0.3, 0.4, 0.5])], spec, timing(), false, false, false, true);
    // Capacity is four samples: the window rolled.
    assert_eq!(ch.try_read(), Some(bits(&[0.2, 0.3, 0.4, 0.5])));
    assert_eq!(s.current_window()[0], bits(&[0.2, 0.3, 0.4, 0.5]));
}

#[test]
fn clear_request_freezes_and_trims() {
    let mut s = CaptureSession::new(1, 1);
    let mut ch = SnapshotChannel::new(Vec::new());
    let spec = small_spec();
    s.process_block(&mut ch, &vec![bits(&[0.0, 0.5, 0.3, 0.0])], spec, timing(), false, false, false, true);
    // The clear request freezes the window before this block is ingested.
    let out = s.process_block(&mut ch, &vec![bits(&[0.9])], spec, timing(), true, false, false, true);
    let clip = out.expect("the frozen window held sound");
    assert_eq!(clip.channel(0), &bits(&[0.5, 0.3]));
    // Recording restarted with the triggering block.
    assert_eq!(s.current_window()[0], bits(&[0.9]));
}

#[test]
fn silent_window_is_discarded_on_clear() {
    let mut s = CaptureSession::new(1, 1);
    let mut ch = SnapshotChannel::new(Vec::new());
    let spec = small_spec();
    s.process_block(&mut ch, &vec![bits(&[0.0, 0.0])], spec, timing(), false, false, false, true);
    let out = s.process_block(&mut ch, &vec![bits(&[0.1])], spec, timing(), true, false, false, true);
    assert!(out.is_none());
}

#[test]
fn clear_on_play_fires_only_on_the_transport_edge() {
    let mut s = CaptureSession::new(1, 1);
    let mut ch = SnapshotChannel::new(Vec::new());
    let spec = small_spec();
    // Transport stopped; fill the window.
    s.process_block(&mut ch, &vec![bits(&[0.5, 0.5])], spec, timing(), false, false, true, true);
    // Transport starts: the edge freezes the window.
    let out = s.process_block(&mut ch, &vec![bits(&[0.1])], spec, timing(), false, true, true, true);
    assert!(out.is_some());
    // Still playing: no new edge, no freeze.
    let out2 = s.process_block(&mut ch, &vec![bits(&[0.2])], spec, timing(), false, true, true, true);
    assert!(out2.is_none());
}

#[test]
fn clear_on_play_disabled_ignores_the_edge() {
    let mut s = CaptureSession::new(1, 1);
    let mut ch = SnapshotChannel::new(Vec::new());
    let spec = small_spec();
    s.process_block(&mut ch, &vec![bits(&[0.5])], spec, timing(), false, false, false, true);
    let out = s.process_block(&mut ch, &vec![bits(&[0.1])], spec, timing(), false, true, false, true);
    assert!(out.is_none());
}

#[test]
fn capacity_change_discards_inflight_audio() {
    let mut s = CaptureSession::new(1, 1);
    let mut ch = SnapshotChannel::new(Vec::new());
    s.process_block(&mut ch, &vec![bits(&[0.1, 0.2, 0.3])], small_spec(), timing(), false, false, false, true);
    // Doubling the duration invalidates the capacity; the old window is
    // discarded and recording restarts with this block.
    let wider = BufferSizeSpec::Duration { millis: 2 };
    s.process_block(&mut ch, &vec![bits(&[0.4])], wider, timing(), false, false, false, true);
    assert_eq!(s.current_window()[0], bits(&[0.4]));
}

#[test]
fn stereo_blocks_stay_aligned_through_a_freeze() {
    let mut s = CaptureSession::new(2, 1);
    let mut ch = SnapshotChannel::new(Vec::new());
    let spec = small_spec();
    s.process_block(
        &mut ch,
        &vec![bits(&[0.0, 0.5]), bits(&[0.2, 0.0])],
        spec,
        timing(),
        false,
        false,
        false,
        true,
    );
    let out = s.process_block(&mut ch, &vec![bits(&[0.1]), bits(&[0.1])], spec, timing(), true, false, false, true);
    let clip = out.expect("both channels held sound");
    // Frame 0 sounds on the right channel, frame 1 on the left: nothing
    // to trim.
    assert_eq!(clip.channel(0), &bits(&[0.0, 0.5]));
    assert_eq!(clip.channel(1), &bits(&[0.2, 0.0]));
}
