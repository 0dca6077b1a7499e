//! Frozen clips and silence trimming.
//!
//! Freezing the rolling window produces a [`Clip`]: an immutable ordered
//! sequence of samples per channel.  Before a clip is handed to the
//! persistence collaborator, trimming drops the maximal leading and trailing
//! runs of silent frames — a frame is silent only when every channel's
//! sample at that frame is silent — and a clip whose every frame is silent
//! is discarded rather than persisted.  Interior silence is never touched.

use crate::ring::RollingCaptureBuffer;
use crate::sample::{is_silent_sample, sample_is_silent};
use vstd::prelude::*;

verus! {

/// How many frames a per-channel sample matrix holds.
pub open spec fn frames_of(v: Seq<Seq<u32>>) -> int {
    if v.len() == 0 {
        0
    } else {
        v[0].len() as int
    }
}

/// Every channel holds the same number of frames.
pub open spec fn uniform_frames(v: Seq<Seq<u32>>) -> bool {
    forall|c: int| 0 <= c < v.len() ==> (#[trigger] v[c]).len() == frames_of(v)
}

/// A frame is silent only when every channel's sample at it is silent.
pub open spec fn frame_silent(v: Seq<Seq<u32>>, i: int) -> bool {
    forall|c: int| 0 <= c < v.len() ==> is_silent_sample(#[trigger] v[c][i])
}

/// The index of the first non-silent frame at or after `i`, or the frame
/// count when every remaining frame is silent.
pub open spec fn first_loud_from(v: Seq<Seq<u32>>, i: int) -> int
    decreases frames_of(v) - i,
{
    if i < 0 || i >= frames_of(v) {
        frames_of(v)
    } else if !frame_silent(v, i) {
        i
    } else {
        first_loud_from(v, i + 1)
    }
}

/// The index of the last non-silent frame at or before `i`, or `-1` when
/// every frame up to `i` is silent.
pub open spec fn last_loud_from(v: Seq<Seq<u32>>, i: int) -> int
    decreases i + 1,
{
    if i < 0 {
        -1
    } else if !frame_silent(v, i) {
        i
    } else {
        last_loud_from(v, i - 1)
    }
}

/// The frames `[lo, hi)` of every channel.
pub open spec fn slice_frames(v: Seq<Seq<u32>>, lo: int, hi: int) -> Seq<Seq<u32>> {
    v.map_values(|ch: Seq<u32>| ch.subrange(lo, hi))
}

/// What trimming returns: the clip cut down to the span from its first to
/// its last non-silent frame, or nothing when every frame is silent.
pub open spec fn trim_spec(v: Seq<Seq<u32>>) -> Option<Seq<Seq<u32>>> {
    let lo = first_loud_from(v, 0);
    let hi = last_loud_from(v, frames_of(v) - 1);
    if lo == frames_of(v) {
        Option::None
    } else {
        Option::Some(slice_frames(v, lo, hi + 1))
    }
}

/// `first_loud_from(v, i)` lies in `[i, frames]`, points at a non-silent
/// frame unless it is the frame count, and skips only silent frames.
pub proof fn lemma_first_loud_from(v: Seq<Seq<u32>>, i: int)
    requires
        0 <= i <= frames_of(v),
    ensures
        i <= first_loud_from(v, i) <= frames_of(v),
        first_loud_from(v, i) < frames_of(v) ==> !frame_silent(v, first_loud_from(v, i)),
        forall|j: int| i <= j < first_loud_from(v, i) ==> frame_silent(v, j),
    decreases frames_of(v) - i,
{
    if i < frames_of(v) && frame_silent(v, i) {
        lemma_first_loud_from(v, i + 1);
    }
}

/// `last_loud_from(v, i)` lies in `[-1, i]`, points at a non-silent frame
/// unless it is `-1`, and skips only silent frames.
pub proof fn lemma_last_loud_from(v: Seq<Seq<u32>>, i: int)
    requires
        -1 <= i < frames_of(v),
    ensures
        -1 <= last_loud_from(v, i) <= i,
        last_loud_from(v, i) >= 0 ==> !frame_silent(v, last_loud_from(v, i)),
        forall|j: int| last_loud_from(v, i) < j <= i ==> frame_silent(v, j),
    decreases i + 1,
{
    if i >= 0 && frame_silent(v, i) {
        lemma_last_loud_from(v, i - 1);
    }
}

/// An immutable per-channel sequence of samples produced by freezing the
/// rolling window.  Read-only once created.
pub struct Clip {
    channels: Vec<Vec<u32>>,
}

impl View for Clip {
    type V = Seq<Seq<u32>>;

    closed spec fn view(&self) -> Seq<Seq<u32>> {
        self.channels@.map_values(|ch: Vec<u32>| ch@)
    }
}

impl Clip {
    /// Well-formedness: at least one channel, all of one length.
    pub open spec fn wf(self) -> bool {
        self@.len() >= 1 && uniform_frames(self@)
    }

    /// Wraps per-channel sample runs of one common length into a clip.
    pub fn new(channels: Vec<Vec<u32>>) -> (r: Clip)
        requires
            channels@.len() >= 1,
            forall|c: int| 0 <= c < channels@.len() ==> (#[trigger] channels@[c])@.len()
                == channels@[0]@.len(),
        ensures
            r.wf(),
            r@.len() == channels@.len(),
            forall|c: int| 0 <= c < channels@.len() ==> r@[c] == (#[trigger] channels@[c])@,
    {
        let r = Clip { channels };
        r
    }

    /// How many channels the clip holds.
    pub fn channel_count(&self) -> (n: usize)
        ensures
            n == self@.len(),
    {
        self.channels.len()
    }

    /// How many frames each channel holds.
    pub fn frames(&self) -> (n: usize)
        requires
            self.wf(),
        ensures
            n == frames_of(self@),
    {
        self.channels[0].len()
    }

    /// The samples of channel `c`, oldest first.
    pub fn channel(&self, c: usize) -> (r: &Vec<u32>)
        requires
            c < self@.len(),
        ensures
            r@ == self@[c as int],
    {
        &self.channels[c]
    }

    /// Decides whether frame `i` is silent on every channel.
    pub fn frame_silent_at(&self, i: usize) -> (r: bool)
        requires
            self.wf(),
            i < frames_of(self@),
        ensures
            r == frame_silent(self@, i as int),
    {
        let n = self.channels.len();
        let mut c: usize = 0;
        let mut all: bool = true;
        while c < n
            invariant
                c <= n,
                n == self@.len(),
                self.wf(),
                i < frames_of(self@),
                all ==> forall|j: int| 0 <= j < c ==> is_silent_sample(#[trigger] self@[j][i as int]),
                !all ==> !frame_silent(self@, i as int),
            decreases n - c,
        {
            proof {
                assert(self@[c as int] == self.channels@[c as int]@);
                assert(self@[c as int].len() == frames_of(self@));
            }
            if !sample_is_silent(self.channels[c][i]) {
                all = false;
                proof {
                    assert(!is_silent_sample(self@[c as int][i as int]));
                }
            }
            c = c + 1;
        }
        all
    }
}

/// Trims the maximal leading and trailing runs of silent frames from a
/// clip; returns nothing when every frame is silent (such a clip is never
/// persisted).  Interior silence is untouched.  Linear in the clip, one
/// pass per end; runs off the real-time callback.
pub fn trim(clip: &Clip) -> (r: Option<Clip>)
    requires
        clip.wf(),
    ensures
        r is Some <==> trim_spec(clip@) is Some,
        r matches Some(t) ==> t.wf() && Option::Some(t@) == trim_spec(clip@),
{
    let frames = clip.frames();
    let mut lo: usize = 0;
    while lo < frames && clip.frame_silent_at(lo)
        invariant
            lo <= frames,
            frames == frames_of(clip@),
            clip.wf(),
            first_loud_from(clip@, 0) == first_loud_from(clip@, lo as int),
        decreases frames - lo,
    {
        proof {
            assert(first_loud_from(clip@, lo as int) == first_loud_from(clip@, lo as int + 1));
        }
        lo = lo + 1;
    }
    if lo == frames {
        // Every frame was silent: the clip is discarded, nothing persisted.
        proof {
            assert(first_loud_from(clip@, 0) == frames_of(clip@));
        }
        return Option::None;
    }
    assert(first_loud_from(clip@, 0) == lo as int);
    let mut hi_end: usize = frames;
    while hi_end > 0 && clip.frame_silent_at(hi_end - 1)
        invariant
            hi_end <= frames,
            frames == frames_of(clip@),
            clip.wf(),
            lo < frames,
            !frame_silent(clip@, lo as int),
            last_loud_from(clip@, frames - 1) == last_loud_from(clip@, hi_end - 1),
        decreases hi_end,
    {
        proof {
            assert(last_loud_from(clip@, hi_end - 1) == last_loud_from(clip@, hi_end - 2));
        }
        hi_end = hi_end - 1;
    }
    proof {
        if hi_end == 0 {
            lemma_last_loud_from(clip@, -1);
            assert(last_loud_from(clip@, frames - 1) == -1);
            lemma_last_loud_from(clip@, frames - 1);
            assert(frame_silent(clip@, lo as int));
        }
    }
    assert(hi_end > 0);
    assert(last_loud_from(clip@, frames - 1) == hi_end - 1);
    assert(lo < hi_end) by {
        lemma_last_loud_from(clip@, frames - 1);
    }
    let n = clip.channel_count();
    let mut out: Vec<Vec<u32>> = Vec::new();
    let mut c: usize = 0;
    while c < n
        invariant
            c <= n,
            n == clip@.len(),
            clip.wf(),
            lo < hi_end <= frames,
            frames == frames_of(clip@),
            out@.len() == c,
            forall|j: int| 0 <= j < c ==> (#[trigger] out@[j])@ == clip@[j].subrange(
                lo as int,
                hi_end as int,
            ),
        decreases n - c,
    {
        let src = clip.channel(c);
        let mut ch: Vec<u32> = Vec::new();
        let mut j: usize = lo;
        while j < hi_end
            invariant
                lo <= j <= hi_end,
                hi_end <= src@.len(),
                src@ == clip@[c as int],
                ch@.len() == j - lo,
                forall|k: int| 0 <= k < ch@.len() ==> ch@[k] == src@[lo + k],
            decreases hi_end - j,
        {
            ch.push(src[j]);
            j = j + 1;
        }
        proof {
            assert(ch@ =~= clip@[c as int].subrange(lo as int, hi_end as int));
        }
        out.push(ch);
        c = c + 1;
    }
    let trimmed = Clip::new(out);
    proof {
        assert forall|j: int| 0 <= j < trimmed@.len() implies trimmed@[j] == slice_frames(
            clip@,
            lo as int,
            hi_end as int,
        )[j] by {
            assert(trimmed@[j] == out@[j]@);
            assert(out@[j]@ == clip@[j].subrange(lo as int, hi_end as int));
        }
        assert(trimmed@ =~= slice_frames(clip@, lo as int, hi_end as int));
    }
    Option::Some(trimmed)
}

/// A frame of a slice is silent exactly when the frame it came from is.
proof fn lemma_slice_frame_silent(v: Seq<Seq<u32>>, lo: int, hi: int, i: int)
    requires
        uniform_frames(v),
        0 <= lo,
        hi <= frames_of(v),
        0 <= i < hi - lo,
    ensures
        frame_silent(slice_frames(v, lo, hi), i) == frame_silent(v, lo + i),
{
    let t = slice_frames(v, lo, hi);
    assert(t.len() == v.len());
    assert forall|c: int| 0 <= c < v.len() implies #[trigger] t[c][i] == v[c][lo + i] by {
        assert(t[c] == v[c].subrange(lo, hi));
    }
    if frame_silent(v, lo + i) {
        assert forall|c: int| 0 <= c < t.len() implies is_silent_sample(#[trigger] t[c][i]) by {
            assert(is_silent_sample(v[c][lo + i]));
        }
    }
    if frame_silent(t, i) {
        assert forall|c: int| 0 <= c < v.len() implies is_silent_sample(
            #[trigger] v[c][lo + i],
        ) by {
            assert(is_silent_sample(t[c][i]));
        }
    }
}

/// Trimming is idempotent: trimming an already-trimmed clip yields the
/// same clip unchanged.
pub proof fn lemma_trim_idempotent(v: Seq<Seq<u32>>)
    requires
        uniform_frames(v),
    ensures
        trim_spec(v) matches Some(t) ==> trim_spec(t) == Option::Some(t),
{
    if trim_spec(v) is Some {
        let f = frames_of(v);
        let lo = first_loud_from(v, 0);
        let hi = last_loud_from(v, f - 1);
        lemma_first_loud_from(v, 0);
        lemma_last_loud_from(v, f - 1);
        assert(lo < f);
        assert(!frame_silent(v, lo));
        // Every non-silent frame lies at or before the last one found.
        assert(hi >= lo) by {
            if hi < lo {
                assert(frame_silent(v, lo));
            }
        }
        let t = slice_frames(v, lo, hi + 1);
        assert(t.len() == v.len());
        assert(frames_of(t) == hi + 1 - lo);
        assert(uniform_frames(t));
        // A frame of the slice is silent exactly when the frame it came
        // from is silent.
        assert forall|i: int| 0 <= i < frames_of(t) implies frame_silent(t, i) == frame_silent(
            v,
            lo + i,
        ) by {
            lemma_slice_frame_silent(v, lo, hi + 1, i);
        }
        assert(!frame_silent(t, 0));
        assert(first_loud_from(t, 0) == 0);
        assert(!frame_silent(t, frames_of(t) - 1));
        assert(last_loud_from(t, frames_of(t) - 1) == frames_of(t) - 1);
        assert(trim_spec(t) == Option::Some(slice_frames(t, 0, frames_of(t))));
        assert forall|c: int| 0 <= c < t.len() implies #[trigger] slice_frames(
            t,
            0,
            frames_of(t),
        )[c] == t[c] by {
            assert(t[c].subrange(0, frames_of(t)) =~= t[c]);
        }
        assert(slice_frames(t, 0, frames_of(t)) =~= t);
    }
}

/// The phases a capture session passes through around a freeze.
#[derive(Clone, Copy, Debug, PartialEq, Eq, Structural)]
pub enum FinalizePhase {
    /// The rolling buffer is live and filling.
    Recording,
    /// The window has been frozen into a clip awaiting trimming.
    Frozen,
    /// The frozen clip was trimmed and handed out for persistence.
    Trimmed,
    /// The frozen clip was fully silent and dropped.
    Discarded,
}

/// Drives `Recording -> Frozen -> (Trimmed | Discarded) -> Recording`.
///
/// On a trigger the caller freezes the current rolling window into a clip
/// and the buffer restarts empty in the same callback — sequential
/// execution inside the single-threaded callback makes the pair atomic as
/// the audio thread perceives it.  Finishing trims (or passes through) the
/// clip and reports whether anything is to be persisted.
pub struct ClipFinalizer {
    phase: FinalizePhase,
    frozen: Ghost<Seq<Seq<u32>>>,
}

/// What finishing a frozen clip hands to the persistence collaborator:
/// the trimmed clip when trimming is on, the whole clip when it is off,
/// and nothing at all when every frame is silent.
pub open spec fn finalize_spec(v: Seq<Seq<u32>>, trim_silence: bool) -> Option<Seq<Seq<u32>>> {
    if trim_silence {
        trim_spec(v)
    } else if trim_spec(v) is None {
        Option::None
    } else {
        Option::Some(v)
    }
}

impl ClipFinalizer {
    /// The current phase of the state machine.
    pub closed spec fn phase(self) -> FinalizePhase {
        self.phase
    }

    /// The contents of the clip frozen most recently.
    pub closed spec fn frozen_view(self) -> Seq<Seq<u32>> {
        self.frozen@
    }

    /// A finalizer that starts out recording.
    pub fn new() -> (r: ClipFinalizer)
        ensures
            r.phase() == FinalizePhase::Recording,
    {
        ClipFinalizer { phase: FinalizePhase::Recording, frozen: Ghost(Seq::empty()) }
    }

    /// Freezes the current rolling window into an immutable clip and
    /// immediately resets the buffer, so recording continues uninterrupted
    /// in the same callback.
    pub fn freeze(&mut self, buf: &mut RollingCaptureBuffer) -> (clip: Clip)
        requires
            old(self).phase() == FinalizePhase::Recording,
            old(buf).wf(),
        ensures
            clip.wf(),
            clip@ == old(buf).windows(),
            final(self).phase() == FinalizePhase::Frozen,
            final(self).frozen_view() == clip@,
            final(buf).wf(),
            final(buf).channel_count() == old(buf).channel_count(),
            final(buf).capacity() == old(buf).capacity(),
            forall|c: int| 0 <= c < final(buf).channel_count() ==> final(buf).channel(
                c,
            ).ingested() == Seq::<u32>::empty(),
    {
        let w = buf.current_window();
        proof {
            crate::ring::lemma_windows_uniform(*old(buf));
            assert forall|c: int| 0 <= c < w@.len() implies (#[trigger] w@[c])@.len()
                == w@[0]@.len() by {
                assert(w@[c]@ == old(buf).windows()[c]);
                assert(w@[0]@ == old(buf).windows()[0]);
            }
        }
        let clip = Clip::new(w);
        buf.reset();
        proof {
            assert forall|c: int| 0 <= c < clip@.len() implies clip@[c] == old(
                buf,
            ).windows()[c] by {
                assert(clip@[c] == w@[c]@);
                assert(w@[c]@ == old(buf).windows()[c]);
            }
            assert(clip@ =~= old(buf).windows());
        }
        self.phase = FinalizePhase::Frozen;
        self.frozen = Ghost(clip@);
        clip
    }

    /// Finishes a frozen clip: trims it (or checks it for silence when
    /// trimming is off) and returns what is to be persisted, if anything.
    /// Ownership of the clip passes through exactly once.
    pub fn finish(&mut self, clip: Clip, trim_silence: bool) -> (out: Option<Clip>)
        requires
            old(self).phase() == FinalizePhase::Frozen,
            old(self).frozen_view() == clip@,
            clip.wf(),
        ensures
            out is Some <==> finalize_spec(clip@, trim_silence) is Some,
            out matches Some(t) ==> t.wf() && Option::Some(t@) == finalize_spec(
                clip@,
                trim_silence,
            ),
            final(self).phase() == (if out is Some {
                FinalizePhase::Trimmed
            } else {
                FinalizePhase::Discarded
            }),
    {
        let out = if trim_silence {
            trim(&clip)
        } else {
            let frames = clip.frames();
            let mut lo: usize = 0;
            while lo < frames && clip.frame_silent_at(lo)
                invariant
                    lo <= frames,
                    frames == frames_of(clip@),
                    clip.wf(),
                    first_loud_from(clip@, 0) == first_loud_from(clip@, lo as int),
                decreases frames - lo,
            {
                proof {
                    assert(first_loud_from(clip@, lo as int) == first_loud_from(
                        clip@,
                        lo as int + 1,
                    ));
                }
                lo = lo + 1;
            }
            if lo == frames {
                Option::None
            } else {
                Option::Some(clip)
            }
        };
        if out.is_some() {
            self.phase = FinalizePhase::Trimmed;
        } else {
            self.phase = FinalizePhase::Discarded;
        }
        out
    }

    /// Returns the machine to recording once the finished clip has been
    /// handed off (or dropped).
    pub fn rearm(&mut self)
        requires
            old(self).phase() == FinalizePhase::Trimmed || old(self).phase()
                == FinalizePhase::Discarded,
        ensures
            final(self).phase() == FinalizePhase::Recording,
    {
        self.phase = FinalizePhase::Recording;
    }
}

} // verus!
