//! De-interleaving of a stereo sample stream.
use vstd::prelude::*;

verus! {

/// Why a decoded source cannot be analysed.
#[derive(Debug, Clone, Copy, PartialEq, Eq)]
pub enum LoadError {
    /// The source does not carry exactly two channels.
    NotStereo { channels: u16 },
}

/// The two channels of a stereo stream, each in playback order.
#[derive(Debug)]
pub struct StereoSamples {
    pub left: Vec<i16>,
    pub right: Vec<i16>,
}

/// The samples of `s` at the indices with the given parity (0: even, 1: odd).
pub open spec fn lane(s: Seq<i16>, parity: int) -> Seq<i16>
    recommends
        parity == 0 || parity == 1,
{
    Seq::new(((s.len() + 1 - parity) / 2) as nat, |k: int| s[2 * k + parity])
}

/// Splits an interleaved stereo stream (even index: left, odd index: right)
/// into its two channels. Any channel count other than two is refused.
pub fn split_channels(channels: u16, samples: &Vec<i16>) -> (r: Result<StereoSamples, LoadError>)
    ensures
        r is Err <==> channels != 2,
        r matches Err(e) ==> e == (LoadError::NotStereo { channels }),
        r matches Ok(s) ==> {
            &&& s.left@ == lane(samples@, 0)
            &&& s.right@ == lane(samples@, 1)
            &&& s.left@.len() == (samples@.len() + 1) / 2
            &&& s.right@.len() == samples@.len() / 2
        },
{
    if channels != 2 {
        return Err(LoadError::NotStereo { channels });
    }
    let mut left: Vec<i16> = Vec::new();
    let mut right: Vec<i16> = Vec::new();
    let mut i: usize = 0;
    while i < samples.len()
        invariant
            i <= samples@.len(),
            left@.len() == (i + 1) / 2,
            right@.len() == i / 2,
            forall|k: int| 0 <= k < left@.len() ==> #[trigger] left@[k] == samples@[2 * k],
            forall|k: int| 0 <= k < right@.len() ==> #[trigger] right@[k] == samples@[2 * k + 1],
        decreases samples@.len() - i,
    {
        if i % 2 == 0 {
            left.push(samples[i]);
        } else {
            right.push(samples[i]);
        }
        i = i + 1;
    }
    assert(left@ =~= lane(samples@, 0));
    assert(right@ =~= lane(samples@, 1));
    Ok(StereoSamples { left, right })
}

} // verus!
