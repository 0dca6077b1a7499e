//! Real-time capture core of a rolling sampler.
//!
//! The library continuously records the most recent span of incoming audio
//! into a bounded rolling window, freezes that window into an immutable clip
//! on a trigger, trims leading and trailing silence from the frozen clip, and
//! publishes snapshots of the live waveform to an independently scheduled
//! visualization consumer over a lock-free, latest-wins channel.
//!
//! Audio samples cross the host boundary as raw 32-bit sample words; timing
//! is carried in integer units (milliseconds, thousandths of a beat per
//! minute) so that every capacity computation is exact.

pub mod buffer_size;
pub mod clip;
pub mod handoff;
pub mod ring;
pub mod sample;
pub mod session;
