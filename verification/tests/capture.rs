use rolling_sampler::ring::{ChannelRing, RollingCaptureBuffer};

fn bits(samples: &[f32]) -> Vec<u32> {
    samples.iter().map(|s| s.to_bits()).collect()
}

#[test]
fn window_is_most_recent_capacity_samples() {
    // Ingest more than the capacity: the window is exactly the most
    // recent four samples, in ingestion order.
    let mut r = ChannelRing::with_capacity(4);
    for s in bits(&[0.1, 0.2, 0.3, 0.4, 0.5, 0.6]) {
        r.push_sample(s);
    }
    assert_eq!(r.current_window(), bits(&[0.3, 0.4, 0.5, 0.6]));
}

#[test]
fn window_before_full_holds_everything_ingested() {
    let mut r = ChannelRing::with_capacity(8);
    r.ingest_block(&bits(&[0.1, 0.2, 0.3]));
    assert_eq!(r.current_window(), bits(&[0.1, 0.2, 0.3]));
}

#[test]
fn block_larger_than_capacity_leaves_its_tail() {
    // A single block longer than the capacity overwrites itself: the
    // window has the capacity's length and holds the block's tail.
    let mut r = ChannelRing::with_capacity(3);
    r.ingest_block(&bits(&[0.1, 0.2, 0.3, 0.4, 0.5, 0.6, 0.7]));
    let w = r.current_window();
    assert_eq!(w.len(), 3);
    assert_eq!(w, bits(&[0.5, 0.6, 0.7]));
}

#[test]
fn reset_empties_the_window() {
    let mut r = ChannelRing::with_capacity(4);
    r.ingest_block(&bits(&[0.1, 0.2, 0.3, 0.4, 0.5]));
    r.reset();
    assert_eq!(r.current_window(), Vec::<u32>::new());
    // Recording continues normally after the reset.
    r.push_sample(0.9f32.to_bits());
    assert_eq!(r.current_window(), bits(&[0.9]));
}

#[test]
fn ingest_feeds_every_channel_in_lockstep() {
    let mut b = RollingCaptureBuffer::new(2, 4);
    b.ingest(&vec![bits(&[0.1, 0.2]), bits(&[-0.1, -0.2])]);
    b.ingest(&vec![bits(&[0.3]), bits(&[-0.3])]);
    let w = b.current_window();
    assert_eq!(w.len(), 2);
    assert_eq!(w[0], bits(&[0.1, 0.2, 0.3]));
    assert_eq!(w[1], bits(&[-0.1, -0.2, -0.3]));
    assert_eq!(b.channel_window(1), bits(&[-0.1, -0.2, -0.3]));
}

#[test]
fn rolling_across_blocks_keeps_only_the_tail() {
    let mut b = RollingCaptureBuffer::new(1, 5);
    b.ingest(&vec![bits(&[0.1, 0.2, 0.3])]);
    b.ingest(&vec![bits(&[0.4, 0.5, 0.6])]);
    b.ingest(&vec![bits(&[0.7])]);
    assert_eq!(b.current_window()[0], bits(&[0.3, 0.4, 0.5, 0.6, 0.7]));
}

#[test]
fn resize_restarts_empty_at_the_new_capacity() {
    let mut b = RollingCaptureBuffer::new(1, 3);
    b.ingest(&vec![bits(&[0.1, 0.2, 0.3])]);
    b.resize(5);
    assert_eq!(b.current_window()[0], Vec::<u32>::new());
    b.ingest(&vec![bits(&[0.4, 0.5, 0.6, 0.7, 0.8, 0.9])]);
    assert_eq!(b.current_window()[0], bits(&[0.5, 0.6, 0.7, 0.8, 0.9]));
}
