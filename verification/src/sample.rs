//! Audio samples as they cross the host boundary.
//!
//! The host hands the core one 32-bit word per sample per channel; the core
//! never interprets the amplitude beyond asking whether it is silence.  A
//! word is silent exactly when its magnitude bits are all zero, i.e. it
//! encodes an amplitude of zero with either sign.

use vstd::prelude::*;

verus! {

/// The sample word that encodes an amplitude of positive zero.
pub const SILENCE_POSITIVE: u32 = 0x0000_0000;

/// The sample word that encodes an amplitude of negative zero.
pub const SILENCE_NEGATIVE: u32 = 0x8000_0000;

/// A sample word is silent when it encodes a zero amplitude of either sign.
pub open spec fn is_silent_sample(s: u32) -> bool {
    s == SILENCE_POSITIVE || s == SILENCE_NEGATIVE
}

/// Decides whether a single sample word is silence.
pub fn sample_is_silent(s: u32) -> (r: bool)
    ensures
        r == is_silent_sample(s),
{
    s == SILENCE_POSITIVE || s == SILENCE_NEGATIVE
}

} // verus!
