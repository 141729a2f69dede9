//! Per-frame decisions: whether the playing audio offers a full analysis
//! window, which samples that window holds, and how a toggle drives playback.
use vstd::prelude::*;
use crate::WINDOW_SIZE;
use crate::clock::{offset_of, sample_offset};

verus! {

/// What a frame does with the analysis state.
#[derive(Debug, Clone, Copy, PartialEq, Eq)]
pub enum FrameAction {
    /// Nothing is analysed: the published estimates stay as they are.
    Hold,
    /// Analyse the window of `WINDOW_SIZE` samples starting at `start` in both channels.
    Analyze { start: usize },
}

/// A window of `WINDOW_SIZE` samples starting at `offset` fits in a buffer of `len` samples.
pub open spec fn window_fits(offset: nat, len: nat) -> bool {
    offset + WINDOW_SIZE <= len
}

/// The action owed to a frame, given the playback state and the channel lengths.
pub open spec fn frame_action(
    playing: bool,
    secs: nat,
    nanos: nat,
    rate: nat,
    left_len: nat,
    right_len: nat,
) -> FrameAction {
    let offset = offset_of(secs, nanos, rate);
    if playing && window_fits(offset, left_len) && window_fits(offset, right_len) {
        FrameAction::Analyze { start: offset as usize }
    } else {
        FrameAction::Hold
    }
}

/// Decides what the current frame does: analyse the window at the playback
/// position when the sound is playing and that window lies wholly inside both
/// channels, otherwise hold the previous estimates.
pub fn plan_frame(
    playing: bool,
    secs: u64,
    nanos: u32,
    sample_rate: u32,
    left_len: usize,
    right_len: usize,
) -> (r: FrameAction)
    ensures
        r == frame_action(playing, secs as nat, nanos as nat, sample_rate as nat, left_len as nat, right_len as nat),
        !window_fits(offset_of(secs as nat, nanos as nat, sample_rate as nat), left_len as nat) ==> r == FrameAction::Hold,
        !window_fits(offset_of(secs as nat, nanos as nat, sample_rate as nat), right_len as nat) ==> r == FrameAction::Hold,
        r matches FrameAction::Analyze { start } ==> start + WINDOW_SIZE <= left_len && start + WINDOW_SIZE <= right_len,
{
    if !playing {
        return FrameAction::Hold;
    }
    match sample_offset(secs, nanos, sample_rate) {
        None => FrameAction::Hold,
        Some(offset) => {
            if offset <= left_len && WINDOW_SIZE <= left_len - offset
                && offset <= right_len && WINDOW_SIZE <= right_len - offset
            {
                FrameAction::Analyze { start: offset }
            } else {
                FrameAction::Hold
            }
        },
    }
}

/// Copies the analysis window of `WINDOW_SIZE` samples that starts at `start`.
pub fn analysis_window<T: Copy>(samples: &Vec<T>, start: usize) -> (r: Vec<T>)
    requires
        start + WINDOW_SIZE <= samples@.len(),
    ensures
        r@ == samples@.subrange(start as int, start + WINDOW_SIZE),
{
    let len: usize = samples.len();
    let mut r: Vec<T> = Vec::with_capacity(WINDOW_SIZE);
    let mut i: usize = 0;
    while i < WINDOW_SIZE
        invariant
            i <= WINDOW_SIZE,
            len == samples@.len(),
            start + WINDOW_SIZE <= samples@.len(),
            r@ == samples@.subrange(start as int, start + i),
        decreases WINDOW_SIZE - i,
    {
        r.push(samples[start + i]);
        i = i + 1;
        assert(r@ =~= samples@.subrange(start as int, start + i));
    }
    r
}

/// A command for the playback engine.
#[derive(Debug, Clone, Copy, PartialEq, Eq)]
pub enum Transport {
    Pause,
    Play,
    Resume,
}

/// The command that toggles playback: a playing sound pauses, a stopped one
/// starts from the beginning, and a paused one resumes.
pub fn toggle_action(playing: bool, stopped: bool) -> (r: Transport)
    ensures
        r == (if playing {
            Transport::Pause
        } else if stopped {
            Transport::Play
        } else {
            Transport::Resume
        }),
{
    if playing {
        Transport::Pause
    } else if stopped {
        Transport::Play
    } else {
        Transport::Resume
    }
}

} // verus!
