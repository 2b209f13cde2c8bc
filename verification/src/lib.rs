//! A verified encoder for slow-scan television (SSTV) audio.
//!
//! The crate turns a grayscale raster into the tone-event sequence that the
//! SSTV protocol prescribes (VOX priming, VIS header with parity, sync pulses
//! and luminance tones), and turns tone events into the discrete sample grid
//! of a phase-continuous oscillator.  All quantities are exact integers:
//! frequencies in millihertz, durations in nanoseconds, and phases as
//! numerators over a fixed per-generator denominator, so that every step of
//! the signal arithmetic is proved rather than rounded.  Evaluating the sine
//! and performing I/O are left to the (unverified) binary around the crate.

pub mod encoder;
pub mod grid;
pub mod synth;
pub mod tones;
pub mod tuples;
