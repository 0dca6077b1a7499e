//! The rolling capture buffer: fixed-capacity rings that always hold the
//! most recent samples ingested on each channel.
//!
//! Each channel owns one ring.  `ingest` writes a block of samples into the
//! ring, advancing a write cursor modulo the capacity; `current_window`
//! reads the logically ordered (oldest-first) view without mutating state;
//! `reset` empties the ring without deallocating; `resize` reallocates and
//! restarts empty.  Reallocation is deliberately kept off the ingest path:
//! the owner resizes lazily, once per policy invalidation, accepting the
//! documented discontinuity that in-flight audio is discarded.
//!
//! A ghost log records every sample ingested since the last reset, so the
//! central contract can be stated directly: the window equals the most
//! recent `capacity` samples of the log, in ingestion order.

use vstd::prelude::*;

verus! {

/// The suffix of `h` holding its most recent `cap` elements (all of `h`
/// when it is shorter than `cap`).
pub open spec fn recent_of(h: Seq<u32>, cap: int) -> Seq<u32> {
    if h.len() <= cap {
        h
    } else {
        h.subrange(h.len() - cap, h.len() as int)
    }
}

/// A fixed-capacity ring holding the most recent samples of one channel.
pub struct ChannelRing {
    storage: Vec<u32>,
    write_cursor: usize,
    filled: usize,
    log: Ghost<Seq<u32>>,
}

impl ChannelRing {
    /// The fixed number of samples this ring can hold.
    pub closed spec fn capacity(self) -> int {
        self.storage.len() as int
    }

    /// Every sample ingested since creation, the last reset, or the last
    /// resize, in ingestion order.
    pub closed spec fn ingested(self) -> Seq<u32> {
        self.log@
    }

    /// The logically ordered (oldest-first) contents: the most recent
    /// `capacity` samples ingested.
    pub open spec fn window(self) -> Seq<u32> {
        recent_of(self.ingested(), self.capacity())
    }

    /// The storage index holding the oldest retained sample.
    spec fn start(self) -> int {
        if self.write_cursor >= self.filled {
            self.write_cursor - self.filled
        } else {
            self.write_cursor + self.capacity() - self.filled
        }
    }

    /// The storage index holding the `i`-th retained sample (oldest first).
    spec fn slot(self, i: int) -> int {
        if self.start() + i < self.capacity() {
            self.start() + i
        } else {
            self.start() + i - self.capacity()
        }
    }

    /// Well-formedness: the cursor points at the next slot to overwrite,
    /// `filled` counts the retained samples, and the retained samples are
    /// exactly the window, laid out in ring order from `start`.
    pub closed spec fn wf(self) -> bool {
        &&& self.storage.len() >= 1
        &&& self.filled <= self.storage.len()
        &&& (self.write_cursor as int) < self.capacity()
        &&& (if self.log@.len() < self.capacity() {
            self.filled == self.log@.len()
        } else {
            self.filled == self.capacity()
        })
        &&& (self.log@.len() < self.capacity() ==> self.write_cursor == self.log@.len())
        &&& (forall|i: int|
            0 <= i < self.filled ==> self.storage@[self.slot(i)] == self.window()[i])
    }

    /// A ring of the given capacity with nothing ingested yet.
    pub fn with_capacity(capacity: usize) -> (r: ChannelRing)
        requires
            capacity >= 1,
        ensures
            r.wf(),
            r.capacity() == capacity,
            r.ingested() == Seq::<u32>::empty(),
    {
        let mut storage: Vec<u32> = Vec::new();
        while storage.len() < capacity
            invariant
                storage.len() <= capacity,
            decreases capacity - storage.len(),
        {
            storage.push(0u32);
        }
        ChannelRing { storage, write_cursor: 0, filled: 0, log: Ghost(Seq::empty()) }
    }

    /// Writes one sample over the oldest retained slot.
    pub fn push_sample(&mut self, s: u32)
        requires
            old(self).wf(),
        ensures
            final(self).wf(),
            final(self).capacity() == old(self).capacity(),
            final(self).ingested() == old(self).ingested().push(s),
    {
        let ghost pre = *old(self);
        let cap = self.storage.len();
        self.storage[self.write_cursor] = s;
        self.write_cursor = self.write_cursor + 1;
        if self.write_cursor == cap {
            self.write_cursor = 0;
        }
        if self.filled < cap {
            self.filled = self.filled + 1;
        }
        self.log = Ghost(self.log@.push(s));
        proof {
            let post = *self;
            let h = pre.log@;
            assert forall|i: int| 0 <= i < post.filled implies post.storage@[post.slot(i)]
                == post.window()[i] by {
                if h.len() < pre.capacity() {
                    // The ring was not yet full: samples stay in place and the
                    // new one lands at index `h.len()`.
                    assert(pre.start() == 0);
                    assert(post.start() == 0);
                    assert(pre.window() == h);
                    assert(post.window() == h.push(s));
                    if i < post.filled - 1 {
                        assert(post.slot(i) == pre.slot(i));
                        assert(post.storage@[post.slot(i)] == pre.storage@[pre.slot(i)]);
                        assert(pre.storage@[pre.slot(i)] == pre.window()[i]);
                        assert(post.window()[i] == h[i]);
                    } else {
                        assert(post.slot(i) == h.len());
                        assert(post.storage@[post.slot(i)] == s);
                        assert(post.window()[i] == s);
                    }
                } else {
                    // The ring was full: every retained sample shifts one
                    // place toward the past and the new one replaces the
                    // oldest.
                    assert(pre.start() == pre.write_cursor);
                    if i < post.filled - 1 {
                        assert(post.slot(i) == pre.slot(i + 1));
                        assert(pre.slot(i + 1) != pre.write_cursor);
                        assert(post.storage@[post.slot(i)] == pre.storage@[pre.slot(i + 1)]);
                        assert(pre.storage@[pre.slot(i + 1)] == pre.window()[i + 1]);
                        assert(pre.window()[i + 1] == h[h.len() - pre.capacity() + i + 1]);
                        assert(post.window()[i] == post.log@[post.log@.len() - post.capacity()
                            + i]);
                        assert(post.log@[post.log@.len() - post.capacity() + i] == h[h.len()
                            - pre.capacity() + i + 1]);
                    } else {
                        assert(post.slot(i) == pre.write_cursor);
                        assert(post.storage@[post.slot(i)] == s);
                        assert(post.window()[i] == post.log@[post.log@.len() - 1]);
                    }
                }
            }
        }
    }

    /// Writes a block of samples, oldest first.  A block longer than the
    /// capacity simply overwrites itself: only its most recent `capacity`
    /// samples remain, which is exactly the rolling-window semantics.
    pub fn ingest_block(&mut self, samples: &Vec<u32>)
        requires
            old(self).wf(),
        ensures
            final(self).wf(),
            final(self).capacity() == old(self).capacity(),
            final(self).ingested() == old(self).ingested() + samples@,
    {
        let n = samples.len();
        let mut k: usize = 0;
        while k < n
            invariant
                k <= n,
                n == samples@.len(),
                self.wf(),
                self.capacity() == old(self).capacity(),
                self.ingested() == old(self).ingested() + samples@.subrange(0, k as int),
            decreases n - k,
        {
            self.push_sample(samples[k]);
            proof {
                assert(samples@.subrange(0, k as int).push(samples@[k as int])
                    =~= samples@.subrange(0, k + 1));
            }
            k = k + 1;
        }
        proof {
            assert(samples@.subrange(0, n as int) =~= samples@);
        }
    }

    /// Empties the ring without deallocating its storage; cheap and safe on
    /// the real-time path.
    pub fn reset(&mut self)
        requires
            old(self).wf(),
        ensures
            final(self).wf(),
            final(self).capacity() == old(self).capacity(),
            final(self).ingested() == Seq::<u32>::empty(),
    {
        self.write_cursor = 0;
        self.filled = 0;
        self.log = Ghost(Seq::empty());
    }

    /// Reads the window, oldest sample first.
    pub fn current_window(&self) -> (w: Vec<u32>)
        requires
            self.wf(),
        ensures
            w@ == self.window(),
    {
        let cap = self.storage.len();
        let start = if self.write_cursor >= self.filled {
            self.write_cursor - self.filled
        } else {
            cap - self.filled + self.write_cursor
        };
        let mut w: Vec<u32> = Vec::new();
        let mut k: usize = 0;
        while k < self.filled
            invariant
                k <= self.filled,
                self.wf(),
                cap == self.capacity(),
                start == self.start(),
                w@.len() == k,
                forall|i: int| 0 <= i < k ==> w@[i] == self.window()[i],
            decreases self.filled - k,
        {
            let idx = if k < cap - start {
                start + k
            } else {
                k - (cap - start)
            };
            assert(idx == self.slot(k as int));
            w.push(self.storage[idx]);
            k = k + 1;
        }
        proof {
            assert(w@ =~= self.window());
        }
        w
    }
}

/// Borrows one ring of a channel vector for in-place mutation.
fn ring_at_mut(v: &mut Vec<ChannelRing>, i: usize) -> (r: &mut ChannelRing)
    requires
        i < old(v).len(),
    ensures
        *r == old(v)@[i as int],
        final(v)@ == old(v)@.update(i as int, *final(r)),
{
    &mut v[i]
}

/// The per-channel rolling capture buffer: one ring per channel, all of the
/// same capacity, fed in lockstep by the audio callback.
pub struct RollingCaptureBuffer {
    channels: Vec<ChannelRing>,
}

impl RollingCaptureBuffer {
    /// How many channels the buffer records.
    pub closed spec fn channel_count(self) -> int {
        self.channels.len() as int
    }

    /// The ring recording channel `c`.
    pub closed spec fn channel(self, c: int) -> ChannelRing {
        self.channels@[c]
    }

    /// The common capacity of every channel's ring.
    pub open spec fn capacity(self) -> int {
        self.channel(0).capacity()
    }

    /// Every channel's window, oldest frame first: what a freeze captures.
    pub open spec fn windows(self) -> Seq<Seq<u32>> {
        Seq::new(self.channel_count() as nat, |c: int| self.channel(c).window())
    }

    /// Well-formedness: at least one channel, all rings well formed, all of
    /// one capacity, and all fed the same number of samples.
    pub closed spec fn wf(self) -> bool {
        &&& self.channels.len() >= 1
        &&& forall|c: int| 0 <= c < self.channels@.len() ==> (#[trigger] self.channels@[c]).wf()
        &&& forall|c: int|
            0 <= c < self.channels@.len() ==> (#[trigger] self.channels@[c]).capacity()
                == self.channels@[0].capacity()
        &&& forall|c: int|
            0 <= c < self.channels@.len() ==> (#[trigger] self.channels@[c]).ingested().len()
                == self.channels@[0].ingested().len()
    }

    /// A buffer of `channel_count` empty rings of the given capacity.
    pub fn new(channel_count: usize, capacity: usize) -> (b: RollingCaptureBuffer)
        requires
            channel_count >= 1,
            capacity >= 1,
        ensures
            b.wf(),
            b.channel_count() == channel_count,
            b.capacity() == capacity,
            forall|c: int| 0 <= c < channel_count ==> b.channel(c).ingested()
                == Seq::<u32>::empty(),
            forall|c: int| 0 <= c < channel_count ==> b.channel(c).capacity() == capacity,
    {
        let mut channels: Vec<ChannelRing> = Vec::new();
        while channels.len() < channel_count
            invariant
                channels.len() <= channel_count,
                capacity >= 1,
                forall|c: int|
                    0 <= c < channels@.len() ==> (#[trigger] channels@[c]).wf()
                        && channels@[c].capacity() == capacity && channels@[c].ingested()
                        == Seq::<u32>::empty(),
            decreases channel_count - channels.len(),
        {
            channels.push(ChannelRing::with_capacity(capacity));
        }
        RollingCaptureBuffer { channels }
    }

    /// Ingests one block delivered by the host: `block[c]` is the run of
    /// samples for channel `c`, and every channel receives the same number
    /// of frames.  Runs in time linear in the block, with no allocation.
    pub fn ingest(&mut self, block: &Vec<Vec<u32>>)
        requires
            old(self).wf(),
            block@.len() == old(self).channel_count(),
            forall|c: int| 0 <= c < block@.len() ==> (#[trigger] block@[c])@.len()
                == block@[0]@.len(),
        ensures
            final(self).wf(),
            final(self).channel_count() == old(self).channel_count(),
            final(self).capacity() == old(self).capacity(),
            forall|c: int|
                0 <= c < final(self).channel_count() ==> final(self).channel(c).ingested()
                    == old(self).channel(c).ingested() + block@[c]@,
    {
        let n = self.channels.len();
        let mut c: usize = 0;
        while c < n
            invariant
                c <= n,
                n == self.channels@.len(),
                n == old(self).channels@.len(),
                block@.len() == n,
                forall|j: int| 0 <= j < block@.len() ==> (#[trigger] block@[j])@.len()
                    == block@[0]@.len(),
                forall|j: int|
                    0 <= j < n ==> (#[trigger] old(self).channels@[j]).wf()
                        && old(self).channels@[j].capacity() == old(self).channels@[0].capacity()
                        && old(self).channels@[j].ingested().len()
                        == old(self).channels@[0].ingested().len(),
                forall|j: int| c <= j < n ==> self.channels@[j] == old(self).channels@[j],
                forall|j: int|
                    0 <= j < c ==> (#[trigger] self.channels@[j]).wf()
                        && self.channels@[j].capacity() == old(self).channels@[j].capacity()
                        && self.channels@[j].ingested() == old(self).channels@[j].ingested()
                        + block@[j]@,
            decreases n - c,
        {
            let ring = ring_at_mut(&mut self.channels, c);
            ring.ingest_block(&block[c]);
            c = c + 1;
        }
    }

    /// Reads one channel's window, oldest frame first.
    pub fn channel_window(&self, c: usize) -> (w: Vec<u32>)
        requires
            self.wf(),
            c < self.channel_count(),
        ensures
            w@ == self.channel(c as int).window(),
    {
        self.channels[c].current_window()
    }

    /// Reads every channel's window, oldest frame first.
    pub fn current_window(&self) -> (w: Vec<Vec<u32>>)
        requires
            self.wf(),
        ensures
            w@.len() == self.channel_count(),
            forall|c: int| 0 <= c < w@.len() ==> (#[trigger] w@[c])@ == self.channel(c).window(),
    {
        let n = self.channels.len();
        let mut w: Vec<Vec<u32>> = Vec::new();
        let mut c: usize = 0;
        while c < n
            invariant
                c <= n,
                n == self.channels@.len(),
                self.wf(),
                w@.len() == c,
                forall|j: int| 0 <= j < c ==> (#[trigger] w@[j])@ == self.channel(j).window(),
            decreases n - c,
        {
            w.push(self.channels[c].current_window());
            c = c + 1;
        }
        w
    }

    /// Empties every channel without deallocating storage; cheap and safe
    /// on the real-time path.
    pub fn reset(&mut self)
        requires
            old(self).wf(),
        ensures
            final(self).wf(),
            final(self).channel_count() == old(self).channel_count(),
            final(self).capacity() == old(self).capacity(),
            forall|c: int| 0 <= c < final(self).channel_count() ==> final(self).channel(
                c,
            ).ingested() == Seq::<u32>::empty(),
    {
        let n = self.channels.len();
        let mut c: usize = 0;
        while c < n
            invariant
                c <= n,
                n == self.channels@.len(),
                n == old(self).channels@.len(),
                forall|j: int| c <= j < n ==> self.channels@[j] == old(self).channels@[j],
                forall|j: int| 0 <= j < n ==> (#[trigger] old(self).channels@[j]).wf(),
                forall|j: int|
                    0 <= j < n ==> (#[trigger] old(self).channels@[j]).capacity()
                        == old(self).channels@[0].capacity(),
                forall|j: int|
                    0 <= j < c ==> (#[trigger] self.channels@[j]).wf()
                        && self.channels@[j].capacity() == old(self).channels@[j].capacity()
                        && self.channels@[j].ingested() == Seq::<u32>::empty(),
            decreases n - c,
        {
            let ring = ring_at_mut(&mut self.channels, c);
            ring.reset();
            c = c + 1;
        }
    }

    /// Replaces every ring with an empty one of the given capacity.  This
    /// allocates, so it must run only where latency is tolerated: the owner
    /// calls it lazily, once per policy invalidation, and the in-flight
    /// rolling history is deliberately discarded rather than resampled.
    pub fn resize(&mut self, capacity: usize)
        requires
            old(self).wf(),
            capacity >= 1,
        ensures
            final(self).wf(),
            final(self).channel_count() == old(self).channel_count(),
            final(self).capacity() == capacity,
            forall|c: int| 0 <= c < final(self).channel_count() ==> final(self).channel(
                c,
            ).ingested() == Seq::<u32>::empty(),
    {
        let n = self.channels.len();
        let fresh = RollingCaptureBuffer::new(n, capacity);
        self.channels = fresh.channels;
    }
}

/// A well-formed buffer has at least one channel and windows of one common
/// length, so a freeze always yields a well-shaped clip.
pub proof fn lemma_windows_uniform(b: RollingCaptureBuffer)
    requires
        b.wf(),
    ensures
        b.channel_count() >= 1,
        b.windows().len() == b.channel_count(),
        forall|c: int| 0 <= c < b.channel_count() ==> (#[trigger] b.windows()[c]).len()
            == b.windows()[0].len(),
{
    assert forall|c: int| 0 <= c < b.channel_count() implies (#[trigger] b.windows()[c]).len()
        == b.windows()[0].len() by {
        assert(b.channel(c).wf());
        assert(b.channel(c).capacity() == b.channel(0).capacity());
        assert(b.channel(c).ingested().len() == b.channel(0).ingested().len());
    }
}

/// An empty ingestion log yields an empty window: after a reset, any
/// `current_window` call returns an empty sequence regardless of prior
/// content.
pub proof fn lemma_reset_window_empty(r: ChannelRing)
    requires
        r.ingested() == Seq::<u32>::empty(),
    ensures
        r.window() == Seq::<u32>::empty(),
{
}

/// The window is exactly the most recent `capacity` samples ingested, in
/// ingestion order: all of them while fewer have been ingested than fit,
/// and precisely the suffix of length `capacity` once more have been.
pub proof fn lemma_window_is_recent(r: ChannelRing)
    requires
        r.wf(),
    ensures
        r.ingested().len() <= r.capacity() ==> r.window() == r.ingested(),
        r.ingested().len() > r.capacity() ==> r.window() == r.ingested().subrange(
            r.ingested().len() - r.capacity(),
            r.ingested().len() as int,
        ),
        r.window().len() == (if r.ingested().len() <= r.capacity() {
            r.ingested().len() as int
        } else {
            r.capacity()
        }),
{
}

} // verus!

