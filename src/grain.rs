//! A grain: one time-bounded, enveloped read of the waveform.

use vstd::prelude::*;
use crate::envelope::{envelope_level, ramp_level, slope_of};
use crate::position::{clamp_ticks, clamped};
use crate::resample::{plan_at, read_plan, ReadPlan};

verus! {

/// Largest position a grain can hold: the last tick of the last addressable
/// sample. Reads clamp well before it, so saturating here changes no read.
pub const POSITION_LIMIT: i64 = 281474976645120;

/// A playing grain. `position` and `speed` are in ticks; `elapsed` and
/// `duration` count output samples.
#[derive(Clone, Copy, Debug, PartialEq, Eq, Structural)]
pub struct Grain {
    pub position: i64,
    pub elapsed: u32,
    pub duration: u32,
    pub speed: i64,
}

/// What the host needs to produce one grain's sample: the waveform read, and
/// the linear envelope level out of the slope length.
#[derive(Clone, Copy, Debug, PartialEq, Eq, Structural)]
pub struct Tap {
    pub read: ReadPlan,
    pub level: u32,
}

impl Grain {
    /// A grain that is still playing holds a position in range and has not
    /// reached its duration.
    pub open spec fn wf(self) -> bool {
        &&& 0 <= self.position <= POSITION_LIMIT
        &&& self.elapsed < self.duration
    }

    /// The grain one output sample later, or `None` once it has expired.
    pub open spec fn advanced(self) -> Option<Grain> {
        if self.elapsed + 1 >= self.duration {
            None
        } else {
            Some(
                Grain {
                    position: clamped(
                        self.position + self.speed,
                        0,
                        POSITION_LIMIT as int,
                    ) as i64,
                    elapsed: (self.elapsed + 1) as u32,
                    duration: self.duration,
                    speed: self.speed,
                },
            )
        }
    }

    /// The grain's contribution at its current sample.
    pub open spec fn tap_spec(self, wave_len: nat, slope_len: u32) -> Tap {
        Tap {
            read: plan_at(wave_len, self.position as int),
            level: ramp_level(self.elapsed as int, self.duration as int, slope_of(slope_len)) as u32,
        }
    }

    /// Moves the grain on by one output sample; `None` once it has expired.
    pub fn advance(&self) -> (r: Option<Grain>)
        requires
            self.wf(),
        ensures
            r == self.advanced(),
            r matches Some(g) ==> g.wf(),
    {
        if self.elapsed + 1 >= self.duration {
            None
        } else {
            let p: i64 = clamp_ticks(self.position as i128 + self.speed as i128, 0, POSITION_LIMIT);
            Some(
                Grain {
                    position: p,
                    elapsed: self.elapsed + 1,
                    duration: self.duration,
                    speed: self.speed,
                },
            )
        }
    }

    /// The grain's read and envelope level at its current sample.
    pub fn tap(&self, wave_len: usize, slope_len: u32) -> (r: Tap)
        requires
            self.wf(),
            wave_len >= 1,
        ensures
            r == self.tap_spec(wave_len as nat, slope_len),
    {
        let read: ReadPlan = read_plan(wave_len, self.position);
        let level: u32 = envelope_level(self.elapsed, self.duration, slope_len);
        Tap { read, level }
    }
}

} // verus!
