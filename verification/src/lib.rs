//! Change detection by hash comparison.
//!
//! A [`detector::ChangeDetector`] remembers only the 64-bit digest of the last
//! value it observed. Feeding it a new candidate value reports whether the
//! candidate's digest differs from the stored one, without keeping a copy of
//! the previous value. Detection is probabilistic: two distinct values whose
//! digests collide are reported as unchanged.

pub mod detector;
pub mod hashable;
pub mod history;
