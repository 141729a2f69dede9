//! From the playback clock to a position in the sample buffers.
use vstd::prelude::*;

verus! {

/// Nanoseconds in one second.
pub const NANOS_PER_SECOND: u128 = 1_000_000_000;

/// The sample index reached after `secs` seconds and `nanos` nanoseconds of
/// playback at `rate` samples per second: `floor(elapsed * rate)`.
pub open spec fn offset_of(secs: nat, nanos: nat, rate: nat) -> nat {
    ((secs * 1_000_000_000 + nanos) * rate) / 1_000_000_000
}

/// Converts an elapsed playback time, given as whole seconds and the
/// nanoseconds past them, to the sample offset at `sample_rate`.
/// Returns `None` when that offset does not fit in a `usize`.
pub fn sample_offset(secs: u64, nanos: u32, sample_rate: u32) -> (r: Option<usize>)
    ensures
        r is None <==> offset_of(secs as nat, nanos as nat, sample_rate as nat) > usize::MAX,
        r matches Some(o) ==> o == offset_of(secs as nat, nanos as nat, sample_rate as nat),
{
    let s: u128 = secs as u128;
    let n: u128 = nanos as u128;
    let rate: u128 = sample_rate as u128;
    assert(s * 1_000_000_000 <= 0xffff_ffff_ffff_ffffu128 * 1_000_000_000) by (nonlinear_arith)
        requires s <= 0xffff_ffff_ffff_ffffu128;
    let total: u128 = s * NANOS_PER_SECOND + n;
    assert(total * rate <= 0x1_0000_0000_0000_0000_0000_0000u128 * 0xffff_ffffu128) by (nonlinear_arith)
        requires total <= 0x1_0000_0000_0000_0000_0000_0000u128, rate <= 0xffff_ffffu128;
    let scaled: u128 = total * rate;
    let o: u128 = scaled / NANOS_PER_SECOND;
    if o <= usize::MAX as u128 {
        Some(o as usize)
    } else {
        None
    }
}

} // verus!
