//! Which waveform samples a fractional read position blends, and by how much.

use vstd::prelude::*;
use crate::position::TICKS_PER_SAMPLE;

verus! {

/// A read of the waveform: `buf[index] + (buf[next] - buf[index]) * frac / TICKS_PER_SAMPLE`.
#[derive(Clone, Copy, Debug, PartialEq, Eq, Structural)]
pub struct ReadPlan {
    pub index: usize,
    pub next: usize,
    pub frac: u32,
}

/// The read at tick position `pos` of a waveform of `len >= 1` samples.
/// Negative positions read the first sample; positions at or past the last
/// sample read the last one, with no wraparound or extrapolation.
pub open spec fn plan_at(len: nat, pos: int) -> ReadPlan
    recommends
        len >= 1,
{
    if pos < 0 {
        ReadPlan { index: 0, next: 0, frac: 0 }
    } else if pos / (TICKS_PER_SAMPLE as int) >= len - 1 {
        ReadPlan { index: (len - 1) as usize, next: (len - 1) as usize, frac: 0 }
    } else {
        ReadPlan {
            index: (pos / (TICKS_PER_SAMPLE as int)) as usize,
            next: (pos / (TICKS_PER_SAMPLE as int) + 1) as usize,
            frac: (pos % (TICKS_PER_SAMPLE as int)) as u32,
        }
    }
}

/// Plans the interpolated read at tick position `pos` of a waveform of `len` samples.
pub fn read_plan(len: usize, pos: i64) -> (r: ReadPlan)
    requires
        len >= 1,
    ensures
        r == plan_at(len as nat, pos as int),
        r.index < len,
        r.next < len,
        r.next == r.index || r.next == r.index + 1,
        r.frac < TICKS_PER_SAMPLE,
        pos < 0 ==> r.index == 0 && r.next == 0 && r.frac == 0,
        pos >= (len - 1) * TICKS_PER_SAMPLE ==> r.index == len - 1 && r.next == len - 1 && r.frac
            == 0,
{
    if pos < 0 {
        return ReadPlan { index: 0, next: 0, frac: 0 };
    }
    let p: u64 = pos as u64;
    let base: u64 = p / (TICKS_PER_SAMPLE as u64);
    let frac: u64 = p % (TICKS_PER_SAMPLE as u64);
    proof {
        assert(pos >= (len - 1) * TICKS_PER_SAMPLE ==> base >= len - 1) by (nonlinear_arith)
            requires base == pos / 65536, pos >= 0, len >= 1;
    }
    if base >= (len - 1) as u64 {
        ReadPlan { index: len - 1, next: len - 1, frac: 0 }
    } else {
        ReadPlan { index: base as usize, next: base as usize + 1, frac: frac as u32 }
    }
}

} // verus!
