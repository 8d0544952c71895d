//! A voice: a fixed pool of grain slots, a scan position and a trigger
//! countdown, advanced one output sample at a time.

use vstd::prelude::*;
use crate::grain::{Grain, Tap, POSITION_LIMIT};
use crate::position::{clamp_ticks, clamped, wrap, wrapped, Window, TICKS_PER_SAMPLE};

verus! {

/// Number of grain slots in each voice. A grain due while every slot plays is
/// not started.
pub const POOL_CAPACITY: usize = 64;

/// Parameters shared by both voices for one block.
#[derive(Clone, Copy, Debug, PartialEq, Eq, Structural)]
pub struct GrainParams {
    /// The selection window grains start in.
    pub window: Window,
    /// Length of newly started grains, in output samples.
    pub grain_size: u32,
    /// Length of each envelope slope, in output samples.
    pub slope_len: u32,
}

/// Parameters of one voice for one block.
#[derive(Clone, Copy, Debug, PartialEq, Eq, Structural)]
pub struct VoiceParams {
    /// Scan movement per output sample, in ticks (may be negative).
    pub movement: i64,
    /// Playback speed of newly started grains, in ticks per output sample.
    pub speed: i64,
    /// Output samples between grain starts; zero is taken as one.
    pub interval: u32,
    /// Largest start-position jitter, in ticks, either way.
    pub randomness: i64,
}

/// One voice's scheduling state.
pub struct Voice {
    /// Grain slots; `None` is a free slot.
    pub slots: Vec<Option<Grain>>,
    /// Scan position in ticks, relative to the window start.
    pub scan: i64,
    /// Output samples until the next grain is due; due when it is one.
    pub countdown: u32,
}

pub open spec fn slot_wf(s: Option<Grain>) -> bool {
    s matches Some(g) ==> g.wf()
}

/// `i` is the lowest free slot of `s`.
pub open spec fn is_first_free(s: Seq<Option<Grain>>, i: int) -> bool {
    &&& 0 <= i < s.len()
    &&& s[i] is None
    &&& forall|j: int| 0 <= j < i ==> s[j] is Some
}

/// `s` with `g` placed in its lowest free slot, or `s` itself when it is full.
pub open spec fn with_spawn(s: Seq<Option<Grain>>, g: Grain) -> Seq<Option<Grain>> {
    if exists|i: int| is_first_free(s, i) {
        s.update(choose|i: int| is_first_free(s, i), Some(g))
    } else {
        s
    }
}

pub open spec fn advance_slot(s: Option<Grain>) -> Option<Grain> {
    match s {
        Some(g) => g.advanced(),
        None => None,
    }
}

/// A slot's contribution; a waveform shorter than two samples is silent.
pub open spec fn tap_slot(s: Option<Grain>, wave_len: nat, slope_len: u32) -> Option<Tap> {
    match s {
        Some(g) => if wave_len >= 2 {
            Some(g.tap_spec(wave_len, slope_len))
        } else {
            None
        },
        None => None,
    }
}

/// Number of playing grains in `s`.
pub open spec fn count_active(s: Seq<Option<Grain>>) -> nat
    decreases s.len(),
{
    if s.len() == 0 {
        0
    } else {
        count_active(s.drop_last()) + if s.last() is Some {
            1nat
        } else {
            0nat
        }
    }
}

/// A grain is due on this sample.
pub open spec fn spawn_due(countdown: u32) -> bool {
    countdown <= 1
}

/// The countdown after one sample: decremented, and reset to the interval
/// (at least one) when a grain was due.
pub open spec fn next_countdown(countdown: u32, interval: u32) -> u32 {
    if spawn_due(countdown) {
        if interval == 0 {
            1
        } else {
            interval
        }
    } else {
        (countdown - 1) as u32
    }
}

/// Start position of a new grain: scan position plus jitter, clamped into the window.
pub open spec fn spawn_position(w: Window, scan: int, jitter: int) -> int {
    clamped(
        w.start * TICKS_PER_SAMPLE + scan + jitter,
        w.start * TICKS_PER_SAMPLE,
        w.end * TICKS_PER_SAMPLE - 1,
    )
}

pub open spec fn new_grain(p: GrainParams, v: VoiceParams, scan: int, jitter: int) -> Grain {
    Grain {
        position: spawn_position(p.window, scan, jitter) as i64,
        elapsed: 0,
        duration: p.grain_size,
        speed: v.speed,
    }
}

/// The scan position after one sample; it stays put while the window is empty.
pub open spec fn next_scan(scan: int, movement: int, w: Window) -> int {
    if w.len_spec() == 0 {
        scan
    } else {
        wrapped(scan + movement, w.len_ticks_spec())
    }
}

/// The slots once this sample's grain, if one is due and can start, is placed.
/// An empty window or a zero grain size starts none.
pub open spec fn slots_after_spawn(
    pre: Voice,
    p: GrainParams,
    v: VoiceParams,
    jitter: int,
) -> Seq<Option<Grain>> {
    if spawn_due(pre.countdown) && p.window.len_spec() > 0 && p.grain_size > 0 {
        with_spawn(pre.slots@, new_grain(p, v, pre.scan as int, jitter))
    } else {
        pre.slots@
    }
}

/// `post` and `taps` are one sample of `pre`: start a due grain, move the scan
/// position, then let every playing grain contribute and move on.
pub open spec fn stepped(
    pre: Voice,
    post: Voice,
    taps: Seq<Option<Tap>>,
    p: GrainParams,
    v: VoiceParams,
    jitter: int,
    wave_len: nat,
) -> bool {
    let mid = slots_after_spawn(pre, p, v, jitter);
    &&& post.countdown == next_countdown(pre.countdown, v.interval)
    &&& post.scan == next_scan(pre.scan as int, v.movement as int, p.window)
    &&& post.slots@ == mid.map_values(|s: Option<Grain>| advance_slot(s))
    &&& taps == mid.map_values(|s: Option<Grain>| tap_slot(s, wave_len, p.slope_len))
}

impl Voice {
    pub open spec fn wf(&self) -> bool {
        &&& self.slots@.len() == POOL_CAPACITY
        &&& forall|i: int| 0 <= i < self.slots@.len() ==> slot_wf(#[trigger] self.slots@[i])
        &&& 0 <= self.scan <= POSITION_LIMIT
        &&& self.countdown >= 1
    }

    /// A silent voice: no grains, scan at the window start, a grain due on the
    /// first sample.
    pub fn new() -> (v: Voice)
        ensures
            v.wf(),
            v.scan == 0,
            v.countdown == 1,
            forall|i: int| 0 <= i < POOL_CAPACITY ==> (#[trigger] v.slots@[i]) is None,
    {
        let mut slots: Vec<Option<Grain>> = Vec::new();
        let mut i: usize = 0;
        while i < POOL_CAPACITY
            invariant
                i <= POOL_CAPACITY,
                slots@.len() == i,
                forall|j: int| 0 <= j < i ==> (#[trigger] slots@[j]) is None,
            decreases POOL_CAPACITY - i,
        {
            slots.push(None);
            i = i + 1;
        }
        Voice { slots, scan: 0, countdown: 1 }
    }

    /// Number of playing grains.
    pub fn active_count(&self) -> (r: usize)
        requires
            self.wf(),
        ensures
            r == count_active(self.slots@),
    {
        let mut r: usize = 0;
        let mut i: usize = 0;
        while i < self.slots.len()
            invariant
                self.wf(),
                i <= self.slots@.len(),
                r == count_active(self.slots@.take(i as int)),
                r <= i,
            decreases self.slots@.len() - i,
        {
            assert(self.slots@.take(i + 1).drop_last() == self.slots@.take(i as int));
            if self.slots[i].is_some() {
                r = r + 1;
            }
            i = i + 1;
        }
        assert(self.slots@.take(i as int) == self.slots@);
        r
    }

    /// Places `g` in the lowest free slot; returns false, changing nothing,
    /// when every slot plays.
    pub fn try_spawn(&mut self, g: Grain) -> (r: bool)
        requires
            old(self).wf(),
            g.wf(),
        ensures
            final(self).wf(),
            final(self).slots@ == with_spawn(old(self).slots@, g),
            final(self).scan == old(self).scan,
            final(self).countdown == old(self).countdown,
            r == exists|i: int| is_first_free(old(self).slots@, i),
    {
        let ghost pre = self.slots@;
        let mut i: usize = 0;
        while i < self.slots.len()
            invariant
                self.slots@ == pre,
                pre == old(self).slots@,
                old(self).wf(),
                g.wf(),
                self.scan == old(self).scan,
                self.countdown == old(self).countdown,
                i <= pre.len(),
                forall|j: int| 0 <= j < i ==> pre[j] is Some,
            decreases pre.len() - i,
        {
            if self.slots[i].is_none() {
                assert(is_first_free(pre, i as int));
                assert forall|k: int| is_first_free(pre, k) implies k == i by {
                    if k < i {
                        assert(pre[k] is Some);
                    } else if k > i {
                        assert(pre[i as int] is Some);
                    }
                }
                self.slots.set(i, Some(g));
                assert(self.slots@ =~= with_spawn(pre, g));
                assert forall|j: int| 0 <= j < self.slots@.len() implies slot_wf(
                    #[trigger] self.slots@[j],
                ) by {
                    if j != i as int {
                        assert(self.slots@[j] == pre[j]);
                        assert(slot_wf(old(self).slots@[j]));
                    } else {
                        assert(self.slots@[j] == Some(g));
                    }
                }
                return true;
            }
            i = i + 1;
        }
        assert(!exists|k: int| is_first_free(pre, k));
        false
    }

    /// Lets every playing grain contribute its current sample, then moves it on,
    /// freeing the slots of grains that expire.
    pub fn advance_grains(&mut self, wave_len: usize, slope_len: u32) -> (taps: Vec<Option<Tap>>)
        requires
            old(self).wf(),
        ensures
            final(self).wf(),
            final(self).scan == old(self).scan,
            final(self).countdown == old(self).countdown,
            final(self).slots@ == old(self).slots@.map_values(|s: Option<Grain>| advance_slot(s)),
            taps@ == old(self).slots@.map_values(
                |s: Option<Grain>| tap_slot(s, wave_len as nat, slope_len),
            ),
    {
        let ghost pre = self.slots@;
        let mut taps: Vec<Option<Tap>> = Vec::new();
        let mut i: usize = 0;
        while i < self.slots.len()
            invariant
                self.slots@.len() == pre.len(),
                pre.len() == POOL_CAPACITY,
                i <= pre.len(),
                taps@.len() == i,
                forall|j: int| 0 <= j < pre.len() ==> slot_wf(#[trigger] pre[j]),
                forall|j: int| 0 <= j < i ==> #[trigger] self.slots@[j] == advance_slot(pre[j]),
                forall|j: int| i <= j < pre.len() ==> #[trigger] self.slots@[j] == pre[j],
                forall|j: int|
                    0 <= j < i ==> #[trigger] taps@[j] == tap_slot(pre[j], wave_len as nat, slope_len),
                0 <= self.scan <= POSITION_LIMIT,
                self.countdown >= 1,
                self.scan == old(self).scan,
                self.countdown == old(self).countdown,
                pre == old(self).slots@,
            decreases pre.len() - i,
        {
            let s: Option<Grain> = self.slots[i];
            match s {
                Some(g) => {
                    assert(slot_wf(pre[i as int]));
                    if wave_len >= 2 {
                        taps.push(Some(g.tap(wave_len, slope_len)));
                    } else {
                        taps.push(None);
                    }
                    let n: Option<Grain> = g.advance();
                    self.slots.set(i, n);
                },
                None => {
                    taps.push(None);
                },
            }
            i = i + 1;
        }
        assert(self.slots@ =~= pre.map_values(|s: Option<Grain>| advance_slot(s)));
        assert(taps@ =~= pre.map_values(|s: Option<Grain>| tap_slot(s, wave_len as nat, slope_len)));
        assert forall|j: int| 0 <= j < self.slots@.len() implies slot_wf(#[trigger] self.slots@[j]) by {
            assert(slot_wf(pre[j]));
        }
        taps
    }
}


impl Voice {
    /// One output sample of this voice. `jitter` is the offset, in ticks, added
    /// to the scan position should a grain start on this sample.
    pub fn step(&mut self, p: &GrainParams, v: &VoiceParams, jitter: i64, wave_len: usize) -> (taps:
        Vec<Option<Tap>>)
        requires
            old(self).wf(),
        ensures
            final(self).wf(),
            stepped(*old(self), *final(self), taps@, *p, *v, jitter as int, wave_len as nat),
            final(self).scan == next_scan(old(self).scan as int, v.movement as int, p.window),
    {
        if self.countdown <= 1 {
            if p.window.end > p.window.start && p.grain_size > 0 {
                let start: u32 = p.window.start;
                let end: u32 = p.window.end;
                assert(start * TICKS_PER_SAMPLE < end * TICKS_PER_SAMPLE <= u32::MAX * TICKS_PER_SAMPLE)
                    by (nonlinear_arith)
                    requires
                        start < end,
                        end <= u32::MAX,
                ;
                let lo: i64 = start as i64 * TICKS_PER_SAMPLE;
                let hi: i64 = end as i64 * TICKS_PER_SAMPLE - 1;
                let pos: i64 = clamp_ticks(lo as i128 + self.scan as i128 + jitter as i128, lo, hi);
                let g = Grain { position: pos, elapsed: 0, duration: p.grain_size, speed: v.speed };
                let _ = self.try_spawn(g);
            }
            self.countdown =
            if v.interval == 0 {
                1
            } else {
                v.interval
            };
        } else {
            self.countdown = self.countdown - 1;
        }
        if !p.window.is_empty() {
            let len: i64 = p.window.len_ticks();
            self.scan = wrap(self.scan as i128 + v.movement as i128, len);
        }
        self.advance_grains(wave_len, p.slope_len)
    }
}

proof fn lemma_count_active_bounded(s: Seq<Option<Grain>>)
    ensures
        count_active(s) <= s.len(),
    decreases s.len(),
{
    if s.len() > 0 {
        lemma_count_active_bounded(s.drop_last());
    }
}

/// Grain-count bound: however densely grains are asked for, a voice never
/// plays more grains at once than it has slots.
pub proof fn lemma_active_within_capacity(v: Voice)
    requires
        v.wf(),
    ensures
        count_active(v.slots@) <= POOL_CAPACITY,
{
    lemma_count_active_bounded(v.slots@);
}

/// Scan position after `n` samples at a fixed movement over a fixed window.
pub open spec fn scan_after(scan: int, movement: int, w: Window, n: nat) -> int
    decreases n,
{
    if n == 0 {
        scan
    } else {
        next_scan(scan_after(scan, movement, w, (n - 1) as nat), movement, w)
    }
}

/// Scan wrapping: over a non-empty window, `n` samples of movement `m` take a
/// scan position `s` inside the window to `(s + n * m)` reduced modulo the
/// window length.
pub proof fn lemma_scan_after(scan: int, movement: int, w: Window, n: nat)
    requires
        w.len_spec() > 0,
        0 <= scan < w.len_ticks_spec(),
    ensures
        scan_after(scan, movement, w, n) == wrapped(scan + n * movement, w.len_ticks_spec()),
    decreases n,
{
    let len = w.len_ticks_spec();
    if n == 0 {
        vstd::arithmetic::div_mod::lemma_small_mod(scan as nat, len as nat);
        assert(n * movement == 0);
    } else {
        lemma_scan_after(scan, movement, w, (n - 1) as nat);
        let prev = scan + (n - 1) * movement;
        vstd::arithmetic::div_mod::lemma_add_mod_noop_right(movement, prev, len);
        assert(prev + movement == scan + n * movement) by (nonlinear_arith)
            requires
                prev == scan + (n - 1) * movement,
        ;
        assert(scan_after(scan, movement, w, n) == (prev % len + movement) % len);
        assert(prev % len + movement == movement + prev % len);
        assert(movement + prev == prev + movement);
    }
}

/// Opposite movements: two scan positions that start together and move at
/// `m` and `-m` stay mirror images about the start, modulo the window length.
pub proof fn lemma_opposite_scans(scan: int, movement: int, w: Window, n: nat)
    requires
        w.len_spec() > 0,
        0 <= scan < w.len_ticks_spec(),
    ensures
        (scan_after(scan, movement, w, n) + scan_after(scan, -movement, w, n)) % w.len_ticks_spec()
            == (2 * scan) % w.len_ticks_spec(),
{
    let len = w.len_ticks_spec();
    lemma_scan_after(scan, movement, w, n);
    lemma_scan_after(scan, -movement, w, n);
    assert(n * (-movement) == -(n * movement)) by (nonlinear_arith);
    vstd::arithmetic::div_mod::lemma_add_mod_noop(scan + n * movement, scan + n * (-movement), len);
}

} // verus!
