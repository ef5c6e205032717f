//! Repeating a finite, replayable audio source a fixed number of times.
//!
//! The sample cache and its cursors belong to the audio library that hands
//! them in. This crate decides, one pull at a time, whether the live cursor's
//! sample goes out, whether the live cursor is replaced by a fresh copy of the
//! pristine one, or whether playback has ended. It also decides which cursor
//! answers the format queries at a pass boundary, and scales the duration.

pub mod laws;
pub mod playback;
pub mod repeat;

pub use playback::{play, repeated, step, Step};
pub use repeat::{repeat_with_count, RepeatCount, MAX_DURATION_NANOS};
