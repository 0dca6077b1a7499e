use rolling_sampler::clip::{Clip, ClipFinalizer, trim};
use rolling_sampler::sample::sample_is_silent;
use rolling_sampler::ring::RollingCaptureBuffer;

fn bits(samples: &[f32]) -> Vec<u32> {
    samples.iter().map(|s| s.to_bits()).collect()
}

#[test]
fn trim_drops_leading_and_trailing_silence() {
    // [0, 0, 0.5, 0.3, 0, 0] trims to [0.5, 0.3].
    let clip = Clip::new(vec![bits(&[0.0, 0.0, 0.5, 0.3, 0.0, 0.0])]);
    let t = trim(&clip).expect("a clip with sound survives trimming");
    assert_eq!(t.channel(0), &bits(&[0.5, 0.3]));
    assert_eq!(t.frames(), 2);
}

#[test]
fn fully_silent_clip_is_discarded() {
    let clip = Clip::new(vec![bits(&[0.0, 0.0, 0.0, 0.0])]);
    assert!(trim(&clip).is_none());
}

#[test]
fn negative_zero_counts_as_silence() {
    let clip = Clip::new(vec![bits(&[-0.0, 0.2, -0.0])]);
    let t = trim(&clip).expect("one loud frame remains");
    assert_eq!(t.channel(0), &bits(&[0.2]));
}

#[test]
fn interior_silence_is_untouched() {
    let clip = Clip::new(vec![bits(&[0.0, 0.4, 0.0, 0.0, 0.2, 0.0])]);
    let t = trim(&clip).expect("sound remains");
    assert_eq!(t.channel(0), &bits(&[0.4, 0.0, 0.0, 0.2]));
}

#[test]
fn trim_is_idempotent() {
    let clip = Clip::new(vec![
        bits(&[0.0, 0.0, 0.5, 0.0, 0.3, 0.0]),
        bits(&[0.0, 0.0, 0.1, 0.0, 0.0, 0.0]),
    ]);
    let once = trim(&clip).expect("sound remains");
    let twice = trim(&once).expect("still sound");
    assert_eq!(once.channel_count(), twice.channel_count());
    for c in 0..once.channel_count() {
        assert_eq!(once.channel(c), twice.channel(c));
    }
}

#[test]
fn frame_is_silent_only_when_every_channel_is() {
    // The second channel sounds at frame 0, so frame 0 survives.
    let clip = Clip::new(vec![bits(&[0.0, 0.5, 0.0]), bits(&[0.2, 0.0, 0.0])]);
    assert!(!clip.frame_silent_at(0));
    assert!(!clip.frame_silent_at(1));
    assert!(clip.frame_silent_at(2));
    let t = trim(&clip).expect("sound remains");
    assert_eq!(t.frames(), 2);
    assert_eq!(t.channel(0), &bits(&[0.0, 0.5]));
    assert_eq!(t.channel(1), &bits(&[0.2, 0.0]));
}

#[test]
fn freeze_captures_the_window_and_resets() {
    let mut buf = RollingCaptureBuffer::new(1, 4);
    buf.ingest(&vec![bits(&[0.0, 0.5, 0.3, 0.0])]);
    let mut fin = ClipFinalizer::new();
    let clip = fin.freeze(&mut buf);
    // The clip holds the window as it was at the freeze...
    assert_eq!(clip.channel(0), &bits(&[0.0, 0.5, 0.3, 0.0]));
    // ...and the buffer restarts empty in the same callback.
    assert_eq!(buf.current_window()[0], Vec::<u32>::new());
    // Finishing with trimming on hands over the trimmed clip.
    let out = fin.finish(clip, true).expect("sound remains");
    assert_eq!(out.channel(0), &bits(&[0.5, 0.3]));
    fin.rearm();
}

#[test]
fn finish_without_trimming_keeps_the_whole_clip() {
    let mut buf = RollingCaptureBuffer::new(1, 4);
    buf.ingest(&vec![bits(&[0.0, 0.5, 0.0, 0.0])]);
    let mut fin = ClipFinalizer::new();
    let clip = fin.freeze(&mut buf);
    let out = fin.finish(clip, false).expect("sound remains");
    assert_eq!(out.channel(0), &bits(&[0.0, 0.5, 0.0, 0.0]));
    fin.rearm();
}

#[test]
fn silent_clip_is_discarded_even_without_trimming() {
    let mut buf = RollingCaptureBuffer::new(1, 3);
    buf.ingest(&vec![bits(&[0.0, 0.0, 0.0])]);
    let mut fin = ClipFinalizer::new();
    let clip = fin.freeze(&mut buf);
    assert!(fin.finish(clip, false).is_none());
    fin.rearm();
}

#[test]
fn silence_is_zero_of_either_sign() {
    assert!(sample_is_silent(0.0f32.to_bits()));
    assert!(sample_is_silent((-0.0f32).to_bits()));
    assert!(!sample_is_silent(0.5f32.to_bits()));
    assert!(!sample_is_silent(f32::NAN.to_bits()));
    assert!(!sample_is_silent(1.0e-38f32.to_bits()));
}
