//! The visualization handoff: a lock-free, single-producer single-consumer
//! channel that carries waveform snapshots from the audio thread to the
//! visualization consumer.
//!
//! The channel is "latest wins": the producer never blocks or waits on the
//! consumer, older unread snapshots are superseded rather than queued, and
//! the consumer never observes a partially written snapshot because every
//! publication is a fully formed, independently owned value cycled through
//! the three slots of a triple buffer.  The loss of intermediate snapshots
//! is deliberate; only the most recent one matters to a repaint.

use crate::ring::RollingCaptureBuffer;
use vstd::prelude::*;

verus! {

/// Both ends of a triple-buffered snapshot channel.  Holding the two ends
/// in one place makes every access sequential, which is exactly the
/// single-producer single-consumer discipline the channel demands; the
/// embedding application hands each end's calls to its own thread.
#[verifier::external_body]
pub struct SnapshotChannel {
    input: triple_buffer::Input<Vec<u32>>,
    output: triple_buffer::Output<Vec<u32>>,
}

/// The snapshot most recently published into the channel (the initial
/// snapshot until the first publication).
pub uninterp spec fn latest_snapshot(ch: SnapshotChannel) -> Seq<u32>;

/// Whether a publication has arrived that the consumer has not read yet.
pub uninterp spec fn has_fresh_snapshot(ch: SnapshotChannel) -> bool;

impl SnapshotChannel {
    /// Relies on triple_buffer::TripleBuffer::new and split: the channel
    /// starts with every slot holding the initial value and with no unread
    /// publication pending (the dirty flag starts cleared).
    #[verifier::external_body]
    pub fn new(initial: Vec<u32>) -> (ch: SnapshotChannel)
        ensures
            latest_snapshot(ch) == initial@,
            !has_fresh_snapshot(ch),
    {
        let (input, output) = triple_buffer::TripleBuffer::new(&initial).split();
        SnapshotChannel { input, output }
    }

    /// Relies on triple_buffer::Input::write: the value moves into the back
    /// buffer and is flagged for the consumer, superseding any unread
    /// predecessor; the producer never blocks or waits on the consumer.
    #[verifier::external_body]
    pub fn publish(&mut self, snapshot: Vec<u32>)
        ensures
            latest_snapshot(*final(self)) == snapshot@,
            has_fresh_snapshot(*final(self)),
    {
        self.input.write(snapshot);
    }

    /// Relies on triple_buffer::Output::update and output_buffer: update
    /// reports whether an unread publication is pending and, exactly when
    /// one is, swaps it into the output buffer, which output_buffer then
    /// returns; nothing ever blocks.
    #[verifier::external_body]
    pub fn try_read(&mut self) -> (r: Option<Vec<u32>>)
        ensures
            r is Some <==> has_fresh_snapshot(*old(self)),
            r matches Some(s) ==> s@ == latest_snapshot(*old(self)),
            latest_snapshot(*final(self)) == latest_snapshot(*old(self)),
            !has_fresh_snapshot(*final(self)),
    {
        if self.output.update() {
            Option::Some(self.output.output_buffer().clone())
        } else {
            Option::None
        }
    }
}

/// What the visualization consumer is shown of a buffer: the window of its
/// primary channel, oldest sample first, suitable for direct line-plotting.
pub open spec fn snapshot_of(b: RollingCaptureBuffer) -> Seq<u32> {
    b.channel(0).window()
}

/// Publishes the primary channel's current window as a fresh snapshot.
pub fn publish_window(ch: &mut SnapshotChannel, buf: &RollingCaptureBuffer)
    requires
        buf.wf(),
    ensures
        latest_snapshot(*final(ch)) == snapshot_of(*buf),
        has_fresh_snapshot(*final(ch)),
{
    proof {
        crate::ring::lemma_windows_uniform(*buf);
    }
    let w = buf.channel_window(0);
    ch.publish(w);
}

/// Counts callbacks so snapshots go out at a UI-relevant rate — once every
/// `period` callbacks — instead of once per callback.
pub struct PublishThrottle {
    period: u32,
    count: u32,
}

impl PublishThrottle {
    /// How many callbacks elapse between publications.
    pub closed spec fn period(self) -> u32 {
        self.period
    }

    /// Callbacks counted since the last publication.
    pub closed spec fn count(self) -> u32 {
        self.count
    }

    /// Well-formedness: the counter stays below the period.
    pub open spec fn wf(self) -> bool {
        self.period() >= 1 && self.count() < self.period()
    }

    /// A throttle that fires on the `period`-th tick and every `period`
    /// ticks thereafter.
    pub fn new(period: u32) -> (t: PublishThrottle)
        requires
            period >= 1,
        ensures
            t.wf(),
            t.period() == period,
            t.count() == 0,
    {
        PublishThrottle { period, count: 0 }
    }

    /// Counts one callback; reports whether a snapshot is due now.  Fires
    /// exactly when the tick completes a full period, and then restarts
    /// the count.
    pub fn tick(&mut self) -> (fire: bool)
        requires
            old(self).wf(),
        ensures
            final(self).wf(),
            final(self).period() == old(self).period(),
            fire == (old(self).count() + 1 == old(self).period()),
            final(self).count() == (if fire {
                0u32
            } else {
                (old(self).count() + 1) as u32
            }),
    {
        let next = self.count + 1;
        if next == self.period {
            self.count = 0;
            true
        } else {
            self.count = next;
            false
        }
    }
}

} // verus!
