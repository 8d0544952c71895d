//! The linear part of a grain's envelope, in whole samples.
//!
//! A grain of `duration` samples fades in over its first `slope` samples and
//! fades out over its last `slope` samples. The level returned here is the
//! linear ramp scaled by the slope length: the linear gain is
//! `level / slope`, which the host blends with a smooth curve of the same
//! relative position.

use vstd::prelude::*;

verus! {

/// Slope length actually used: a zero slope is taken as one sample, so that a
/// grain still starts and ends at zero gain.
pub open spec fn slope_of(slope_len: u32) -> int {
    if slope_len == 0 {
        1
    } else {
        slope_len as int
    }
}

/// The linear ramp level of a grain at `age`: the distance to the nearer end
/// of the grain, capped by the slope length. Where the two edges overlap the
/// smaller of the two applies, so the level never exceeds the slope.
pub open spec fn ramp_level(age: int, duration: int, slope: int) -> int {
    let rise = age;
    let fall = duration - age;
    let edge = if rise < fall {
        rise
    } else {
        fall
    };
    if edge < slope {
        edge
    } else {
        slope
    }
}

/// The slope length that levels are measured against (full gain).
pub fn slope_samples(slope_len: u32) -> (r: u32)
    ensures
        r == slope_of(slope_len),
        r >= 1,
{
    if slope_len == 0 {
        1
    } else {
        slope_len
    }
}

/// Linear envelope level of a grain at `age` out of `duration` samples.
pub fn envelope_level(age: u32, duration: u32, slope_len: u32) -> (r: u32)
    requires
        age < duration,
    ensures
        r == ramp_level(age as int, duration as int, slope_of(slope_len)),
        r <= slope_of(slope_len),
{
    let slope: u32 = slope_samples(slope_len);
    let fall: u32 = duration - age;
    let edge: u32 = if age < fall {
        age
    } else {
        fall
    };
    if edge < slope {
        edge
    } else {
        slope
    }
}

/// Envelope boundaries: a grain longer than both of its slopes starts at
/// level zero, ends one step above zero on its last sample, and holds the full
/// level (gain one) at its middle.
pub proof fn lemma_envelope_boundaries(duration: u32, slope_len: u32)
    requires
        duration > 2 * slope_of(slope_len),
    ensures
        ramp_level(0, duration as int, slope_of(slope_len)) == 0,
        ramp_level(duration - 1, duration as int, slope_of(slope_len)) == 1,
        ramp_level(duration as int / 2, duration as int, slope_of(slope_len)) == slope_of(slope_len),
        forall|age: int|
            0 <= age < duration ==> 0 <= #[trigger] ramp_level(age, duration as int, slope_of(slope_len))
                <= slope_of(slope_len),
{
}

} // verus!
