//! Buffer-size policy: resolving a user-chosen size specification plus live
//! host timing into a concrete sample-count capacity.
//!
//! A size is expressed either as a wall-clock duration or as a musical note
//! value that tracks host tempo.  Timing is carried in integer units so the
//! conversion is exact: durations in milliseconds, tempo in thousandths of a
//! beat per minute.  Degenerate inputs (zero tempo, zero denominator, zero
//! sample rate) are clamped to a minimum capacity of one sample rather than
//! rejected, so audio rendering never halts.

use vstd::prelude::*;

verus! {

/// Longest selectable wall-clock duration, in milliseconds (60 seconds).
pub const MAX_DURATION_MILLIS: u32 = 60_000;

/// User intent for the size of the rolling window.
#[derive(Clone, Copy, Debug, PartialEq, Eq, Structural)]
pub enum BufferSizeSpec {
    /// A wall-clock duration in milliseconds, clamped to
    /// [`MAX_DURATION_MILLIS`].
    Duration { millis: u32 },
    /// A note-length fraction: `numerator / denominator` whole notes
    /// (for instance 1/4 for a quarter note, 2/1 for a breve).
    NoteValue { numerator: u32, denominator: u32 },
}

/// Host-supplied timing, read once per audio callback.
#[derive(Clone, Copy, Debug, PartialEq, Eq, Structural)]
pub struct TimingContext {
    /// Sample rate in Hz.
    pub sample_rate: u32,
    /// Tempo in thousandths of a beat per minute (milli-BPM).
    pub tempo_mbpm: u32,
    /// Time-signature numerator (beats per bar).
    pub sig_numerator: u32,
    /// Time-signature denominator (the note value of one beat).
    pub sig_denominator: u32,
}

/// A concrete capacity derived from a [`BufferSizeSpec`] and a
/// [`TimingContext`]; always at least one sample.
#[derive(Clone, Copy, Debug, PartialEq, Eq, Structural)]
pub struct ResolvedCapacity {
    pub samples: u64,
}

/// The requested duration with the 60-second ceiling applied.
pub open spec fn clamped_millis(millis: u32) -> int {
    if millis > MAX_DURATION_MILLIS {
        MAX_DURATION_MILLIS as int
    } else {
        millis as int
    }
}

/// Samples covered by a wall-clock duration: `millis / 1000` seconds at
/// `sample_rate` samples per second, rounded toward zero.
pub open spec fn duration_raw_samples(millis: u32, t: TimingContext) -> int {
    clamped_millis(millis) * (t.sample_rate as int) / 1000
}

/// Samples covered by a note value.  A fraction `n/d` denotes `n/d` whole
/// notes; one whole note spans `sig_denominator` beats, and one beat lasts
/// `60_000 / tempo_mbpm` seconds.  A zero denominator is read as a whole
/// note; a zero tempo yields zero samples (clamped to one later).
pub open spec fn note_raw_samples(numerator: u32, denominator: u32, t: TimingContext) -> int {
    let d: int = if denominator == 0 { 1 } else { denominator as int };
    if t.tempo_mbpm == 0 {
        0
    } else {
        (numerator as int) * (t.sig_denominator as int) * 60_000 * (t.sample_rate as int)
            / (d * (t.tempo_mbpm as int))
    }
}

/// The unclamped sample count a specification denotes under given timing.
pub open spec fn raw_samples(s: BufferSizeSpec, t: TimingContext) -> int {
    match s {
        BufferSizeSpec::Duration { millis } => duration_raw_samples(millis, t),
        BufferSizeSpec::NoteValue { numerator, denominator } => note_raw_samples(
            numerator,
            denominator,
            t,
        ),
    }
}

/// The resolved capacity: the raw sample count clamped below by one sample
/// and above by the widest representable count.
pub open spec fn resolved_samples(s: BufferSizeSpec, t: TimingContext) -> int {
    let r = raw_samples(s, t);
    if r < 1 {
        1
    } else if r > u64::MAX as int {
        u64::MAX as int
    } else {
        r
    }
}

/// Resolves a size specification and live timing into a concrete capacity.
/// Pure: the result is a function of the two arguments alone.
pub fn resolve(s: BufferSizeSpec, t: TimingContext) -> (c: ResolvedCapacity)
    ensures
        c.samples as int == resolved_samples(s, t),
        c.samples >= 1,
{
    let raw: u128 = match s {
        BufferSizeSpec::Duration { millis } => {
            let m: u128 = if millis > MAX_DURATION_MILLIS {
                MAX_DURATION_MILLIS as u128
            } else {
                millis as u128
            };
            proof {
                assert(m * (t.sample_rate as u128) <= 60_000 * 0xffff_ffff) by (nonlinear_arith)
                    requires
                        m <= 60_000,
                        t.sample_rate <= 0xffff_ffffu32,
                ;
            }
            m * (t.sample_rate as u128) / 1000
        },
        BufferSizeSpec::NoteValue { numerator, denominator } => {
            let d: u128 = if denominator == 0 {
                1u128
            } else {
                denominator as u128
            };
            if t.tempo_mbpm == 0 {
                0
            } else {
                proof {
                    assert((numerator as u128) * (t.sig_denominator as u128) <= 0xffff_ffff
                        * 0xffff_ffff) by (nonlinear_arith)
                        requires
                            numerator <= 0xffff_ffffu32,
                            t.sig_denominator <= 0xffff_ffffu32,
                    ;
                }
                let beats: u128 = (numerator as u128) * (t.sig_denominator as u128);
                proof {
                    assert((0xffff_ffff * 0xffff_ffff * 60_000) * (t.sample_rate as u128) <= (
                    0xffff_ffff * 0xffff_ffff * 60_000) * 0xffff_ffff) by (nonlinear_arith)
                        requires
                            t.sample_rate <= 0xffff_ffffu32,
                    ;
                    assert(beats * 60_000 * (t.sample_rate as u128) <= (0xffff_ffff * 0xffff_ffff
                        * 60_000) * (t.sample_rate as u128)) by (nonlinear_arith)
                        requires
                            beats <= 0xffff_ffff * 0xffff_ffff,
                    ;
                    assert(d * (t.tempo_mbpm as u128) <= 0xffff_ffff * 0xffff_ffff) by (
                    nonlinear_arith)
                        requires
                            d <= 0xffff_ffffu128,
                            t.tempo_mbpm <= 0xffff_ffffu32,
                    ;
                    assert(d * (t.tempo_mbpm as u128) >= 1) by (nonlinear_arith)
                        requires
                            d >= 1,
                            t.tempo_mbpm >= 1,
                    ;
                }
                let numer: u128 = beats * 60_000 * (t.sample_rate as u128);
                let denom: u128 = d * (t.tempo_mbpm as u128);
                numer / denom
            }
        },
    };
    let samples: u64 = if raw < 1 {
        1u64
    } else if raw > u64::MAX as u128 {
        u64::MAX
    } else {
        raw as u64
    };
    ResolvedCapacity { samples }
}

/// Resolution is deterministic: two capacities resolved from identical
/// specification and timing inputs are equal.
pub proof fn lemma_resolve_deterministic(
    s: BufferSizeSpec,
    t: TimingContext,
    c1: ResolvedCapacity,
    c2: ResolvedCapacity,
)
    requires
        c1.samples as int == resolved_samples(s, t),
        c2.samples as int == resolved_samples(s, t),
    ensures
        c1 == c2,
{
}

/// Tracks the last resolved capacity and raises an edge-triggered
/// invalidation signal whenever a fresh resolution differs from it.  The
/// audio-thread owner polls this once per callback and reallocates storage
/// only when the signal is raised.
pub struct BufferSizePolicy {
    last_samples: Option<u64>,
}

impl BufferSizePolicy {
    /// The capacity most recently resolved through this policy, if any.
    pub closed spec fn last(self) -> Option<u64> {
        self.last_samples
    }

    /// A policy that has not resolved anything yet; its first poll always
    /// signals invalidation.
    pub fn new() -> (p: BufferSizePolicy)
        ensures
            p.last() is None,
    {
        BufferSizePolicy { last_samples: None }
    }

    /// Resolves the current specification and timing, and reports whether
    /// the capacity differs from the previous resolution (the edge-triggered
    /// invalidation signal).
    pub fn poll(&mut self, s: BufferSizeSpec, t: TimingContext) -> (r: (ResolvedCapacity, bool))
        ensures
            r.0.samples as int == resolved_samples(s, t),
            r.0.samples >= 1,
            r.1 == (old(self).last() != Some(r.0.samples)),
            final(self).last() == Some(r.0.samples),
    {
        let c = resolve(s, t);
        let invalidated = match self.last_samples {
            Option::None => true,
            Option::Some(prev) => prev != c.samples,
        };
        self.last_samples = Some(c.samples);
        (c, invalidated)
    }
}

impl Default for BufferSizeSpec {
    /// The initial size specification: a ten-second wall-clock window.
    fn default() -> (s: Self)
        ensures
            s == (BufferSizeSpec::Duration { millis: 10_000u32 }),
    {
        BufferSizeSpec::Duration { millis: 10_000 }
    }
}

} // verus!

