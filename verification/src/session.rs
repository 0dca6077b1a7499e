//! The capture session: everything the audio callback does, in order.
//!
//! Once per callback the session decides whether to freeze the window into
//! a clip, re-resolves the capacity and reallocates lazily when the policy
//! signals invalidation, ingests the host's block, and publishes a
//! throttled waveform snapshot.  Freezing and the reset that follows it
//! happen sequentially inside the single callback, so no block is ever
//! split between the old and the new window.  Reallocation never happens
//! on a callback without an invalidation edge, and in-flight audio is
//! discarded — not resampled — when it does.

use crate::buffer_size::{BufferSizePolicy, BufferSizeSpec, TimingContext, resolved_samples};
use crate::clip::{Clip, ClipFinalizer, FinalizePhase, finalize_spec};
use crate::handoff::{
    PublishThrottle, SnapshotChannel, has_fresh_snapshot, latest_snapshot, publish_window,
    snapshot_of,
};
use crate::ring::RollingCaptureBuffer;
use vstd::prelude::*;

verus! {

/// A resolved sample count narrowed to an allocatable length.
pub open spec fn capacity_len_spec(samples: int) -> int {
    if samples > usize::MAX as int {
        usize::MAX as int
    } else {
        samples
    }
}

/// Narrows a resolved sample count to an allocatable length.
fn capacity_len(samples: u64) -> (len: usize)
    requires
        samples >= 1,
    ensures
        len as int == capacity_len_spec(samples as int),
        len >= 1,
{
    if samples > usize::MAX as u64 {
        usize::MAX
    } else {
        samples as usize
    }
}

/// When the window must be frozen: on an explicit clear request, or on the
/// transport's edge into a playing state while clear-on-play is enabled.
/// Both signals are edge-triggered and consumed once.
pub open spec fn freeze_trigger(
    clear_requested: bool,
    playing: bool,
    prev_playing: bool,
    clear_on_play: bool,
) -> bool {
    clear_requested || (clear_on_play && playing && !prev_playing)
}

/// The state the audio callback owns: size policy, rolling buffer,
/// finalizer, and snapshot throttle.
pub struct CaptureSession {
    policy: BufferSizePolicy,
    buffer: RollingCaptureBuffer,
    finalizer: ClipFinalizer,
    throttle: PublishThrottle,
    prev_playing: bool,
}

impl CaptureSession {
    /// The rolling capture buffer the session records into.
    pub closed spec fn buffer(self) -> RollingCaptureBuffer {
        self.buffer
    }

    /// The capacity most recently resolved, if any.
    pub closed spec fn resolved_last(self) -> Option<u64> {
        self.policy.last()
    }

    /// Whether the transport was playing at the end of the last callback.
    pub closed spec fn prev_playing(self) -> bool {
        self.prev_playing
    }

    /// Callbacks between snapshot publications.
    pub closed spec fn publish_period(self) -> u32 {
        self.throttle.period()
    }

    /// Callbacks counted since the last snapshot publication.
    pub closed spec fn publish_count(self) -> u32 {
        self.throttle.count()
    }

    /// How many channels the session records.
    pub open spec fn channel_count(self) -> int {
        self.buffer().channel_count()
    }

    /// Every channel's current window: what a freeze would capture.
    pub open spec fn windows(self) -> Seq<Seq<u32>> {
        self.buffer().windows()
    }

    /// Well-formedness: the buffer and throttle are well formed, the
    /// finalizer is recording, and the buffer's capacity agrees with the
    /// last resolution.
    pub closed spec fn wf(self) -> bool {
        &&& self.buffer.wf()
        &&& self.throttle.wf()
        &&& self.finalizer.phase() == FinalizePhase::Recording
        &&& (self.policy.last() matches Some(s) ==> s >= 1 && self.buffer.capacity()
            == capacity_len_spec(s as int))
    }

    /// A fresh session: empty one-sample rings until the first poll of the
    /// size policy resolves the real capacity and reallocates.
    pub fn new(channel_count: usize, publish_period: u32) -> (s: CaptureSession)
        requires
            channel_count >= 1,
            publish_period >= 1,
        ensures
            s.wf(),
            s.channel_count() == channel_count,
            s.resolved_last() is None,
            !s.prev_playing(),
            s.publish_period() == publish_period,
            s.publish_count() == 0,
            forall|c: int| 0 <= c < channel_count ==> s.buffer().channel(c).ingested()
                == Seq::<u32>::empty(),
    {
        CaptureSession {
            policy: BufferSizePolicy::new(),
            buffer: RollingCaptureBuffer::new(channel_count, 1),
            finalizer: ClipFinalizer::new(),
            throttle: PublishThrottle::new(publish_period),
            prev_playing: false,
        }
    }

    /// Reads every channel's window, oldest frame first.
    pub fn current_window(&self) -> (w: Vec<Vec<u32>>)
        requires
            self.wf(),
        ensures
            w@.len() == self.channel_count(),
            forall|c: int| 0 <= c < w@.len() ==> (#[trigger] w@[c])@ == self.windows()[c],
    {
        self.buffer.current_window()
    }

    /// One audio callback.  In order: freeze and finish a clip when a
    /// trigger fired, re-resolve the capacity and reallocate on an
    /// invalidation edge (discarding in-flight audio), ingest the block,
    /// and publish a snapshot when one is due.  Returns the clip to hand
    /// to the persistence collaborator, or nothing.
    pub fn process_block(
        &mut self,
        ch: &mut SnapshotChannel,
        block: &Vec<Vec<u32>>,
        size_spec: BufferSizeSpec,
        timing: TimingContext,
        clear_requested: bool,
        playing: bool,
        clear_on_play: bool,
        trim_silence: bool,
    ) -> (out: Option<Clip>)
        requires
            old(self).wf(),
            block@.len() == old(self).channel_count(),
            forall|c: int| 0 <= c < block@.len() ==> (#[trigger] block@[c])@.len()
                == block@[0]@.len(),
        ensures
            final(self).wf(),
            final(self).channel_count() == old(self).channel_count(),
            // The capacity now in force is exactly the resolved one.
            final(self).resolved_last() == Some(resolved_samples(size_spec, timing) as u64),
            final(self).buffer().capacity() == capacity_len_spec(
                resolved_samples(size_spec, timing),
            ),
            // A clip comes out exactly when a trigger fired and the frozen
            // window was not entirely silent; it is the old window with
            // silence handled as configured.
            out is Some <==> (freeze_trigger(
                clear_requested,
                playing,
                old(self).prev_playing(),
                clear_on_play,
            ) && finalize_spec(old(self).windows(), trim_silence) is Some),
            out matches Some(t) ==> t.wf() && Option::Some(t@) == finalize_spec(
                old(self).windows(),
                trim_silence,
            ),
            // Each channel now holds: the block alone after a freeze or a
            // reallocation, the old log extended by the block otherwise.
            forall|c: int|
                0 <= c < final(self).channel_count() ==> final(self).buffer().channel(
                    c,
                ).ingested() == (if freeze_trigger(
                    clear_requested,
                    playing,
                    old(self).prev_playing(),
                    clear_on_play,
                ) || old(self).resolved_last() != Some(
                    resolved_samples(size_spec, timing) as u64,
                ) {
                    block@[c]@
                } else {
                    old(self).buffer().channel(c).ingested() + block@[c]@
                }),
            // A snapshot goes out exactly when the throttle fires, and it
            // is the primary channel's window after this block.
            final(self).publish_period() == old(self).publish_period(),
            final(self).publish_count() == (if old(self).publish_count() + 1 == old(
                self,
            ).publish_period() {
                0u32
            } else {
                (old(self).publish_count() + 1) as u32
            }),
            (old(self).publish_count() + 1 == old(self).publish_period()) ==> (latest_snapshot(
                *final(ch),
            ) == snapshot_of(final(self).buffer()) && has_fresh_snapshot(*final(ch))),
            (old(self).publish_count() + 1 != old(self).publish_period()) ==> *final(ch) == *old(
                ch,
            ),
            final(self).prev_playing() == playing,
    {
        let trigger = clear_requested || (clear_on_play && playing && !self.prev_playing);
        let mut out: Option<Clip> = Option::None;
        if trigger {
            let clip = self.finalizer.freeze(&mut self.buffer);
            out = self.finalizer.finish(clip, trim_silence);
            self.finalizer.rearm();
        }
        let (cap, invalidated) = self.policy.poll(size_spec, timing);
        if invalidated {
            let len = capacity_len(cap.samples);
            self.buffer.resize(len);
        }
        self.buffer.ingest(block);
        let fire = self.throttle.tick();
        if fire {
            publish_window(ch, &self.buffer);
        }
        self.prev_playing = playing;
        out
    }
}

} // verus!
