//! Tone events and the fixed protocol frequencies and durations.
//!
//! A tone event is one (frequency, duration) pair.  Frequencies are held in
//! millihertz and durations in nanoseconds, so that every tone the protocol
//! calls for — including the per-pixel luminance tones, whose duration is a
//! scan time divided by a pixel count — is represented exactly.

use vstd::prelude::*;

verus! {

/// One tone: a frequency in millihertz and a duration in nanoseconds.
#[derive(Clone, Copy, Debug, PartialEq, Eq, Structural)]
pub struct ToneEvent {
    pub freq_mhz: u64,
    pub dur_ns: u64,
}

/// Frequency of a VIS data bit with value 1, in millihertz.
pub const FREQ_VIS_BIT1: u64 = 1_100_000;

/// Frequency of the sync pulse and of the VIS start bits, in millihertz.
pub const FREQ_SYNC: u64 = 1_200_000;

/// Frequency of a VIS data bit with value 0, in millihertz.
pub const FREQ_VIS_BIT0: u64 = 1_300_000;

/// Frequency of a black pixel, in millihertz.
pub const FREQ_BLACK: u64 = 1_500_000;

/// Frequency of the VIS leader tone, in millihertz.
pub const FREQ_VIS_START: u64 = 1_900_000;

/// Frequency of a white pixel, in millihertz.
pub const FREQ_WHITE: u64 = 2_300_000;

/// Width of the luminance band: white minus black, in millihertz.
pub const FREQ_RANGE: u64 = 800_000;

/// Duration of one VIS leader tone, in nanoseconds (300 ms).
pub const NSEC_VIS_START: u64 = 300_000_000;

/// Duration of the first VIS sync gap, in nanoseconds (10 ms).
pub const NSEC_VIS_SYNC: u64 = 10_000_000;

/// Duration of one VIS bit, in nanoseconds (30 ms).
pub const NSEC_VIS_BIT: u64 = 30_000_000;

/// Duration of one scan-line sync pulse, in nanoseconds (7 ms).
pub const NSEC_LINE_SYNC: u64 = 7_000_000;

/// Duration of one VOX priming tone, in nanoseconds (100 ms).
pub const NSEC_VOX_TONE: u64 = 100_000_000;

/// Why an encoding step was refused.
#[derive(Clone, Copy, Debug, PartialEq, Eq, Structural)]
pub enum SstvError {
    /// The pixel grid is narrower or shorter than the scan mode requires.
    ImageTooSmall,
}

} // verus!
