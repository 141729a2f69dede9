//! Sample-accurate bookkeeping for a stereo spectrum visualizer: splitting an
//! interleaved stereo stream into channels, turning the playback clock into a
//! sample offset, and deciding per frame whether a full analysis window exists.
use vstd::prelude::*;

pub mod channels;
pub mod clock;
pub mod driver;

verus! {

/// Number of samples in one analysis window (the transform size).
pub const WINDOW_SIZE: usize = 1024;

/// Number of frequency bins that carry a directional estimate.
pub const BIN_COUNT: usize = WINDOW_SIZE / 2;

} // verus!
