//! Fixed-point positions, the selection window and scan-position wrapping.

use vstd::prelude::*;

verus! {

/// Number of position ticks in one sample of the waveform.
pub const TICKS_PER_SAMPLE: i64 = 65536;

/// Half-open range `[start, end)` of waveform sample indices that grains
/// are drawn from.
#[derive(Clone, Copy, Debug, PartialEq, Eq, Structural)]
pub struct Window {
    pub start: u32,
    pub end: u32,
}

impl Window {
    /// Number of samples in the window; zero when `end <= start`.
    pub open spec fn len_spec(self) -> nat {
        if self.end > self.start {
            (self.end - self.start) as nat
        } else {
            0
        }
    }

    /// Window length in ticks.
    pub open spec fn len_ticks_spec(self) -> int {
        self.len_spec() * TICKS_PER_SAMPLE
    }

    pub fn new(start: u32, end: u32) -> (w: Window)
        ensures
            w.start == start,
            w.end == end,
    {
        Window { start, end }
    }

    pub fn is_empty(&self) -> (r: bool)
        ensures
            r == (self.len_spec() == 0),
    {
        self.end <= self.start
    }

    /// Window length in ticks.
    pub fn len_ticks(&self) -> (r: i64)
        ensures
            r == self.len_ticks_spec(),
            0 <= r <= u32::MAX * TICKS_PER_SAMPLE,
    {
        if self.end > self.start {
            let n: u32 = self.end - self.start;
            assert(n * TICKS_PER_SAMPLE <= u32::MAX * TICKS_PER_SAMPLE) by (nonlinear_arith)
                requires n <= u32::MAX;
            (n as i64) * TICKS_PER_SAMPLE
        } else {
            0
        }
    }
}

/// `pos` reduced into `[0, len)`, Euclidean remainder.
pub open spec fn wrapped(pos: int, len: int) -> int {
    pos % len
}

/// Wraps `pos` into `[0, len)`, also when `pos` is negative or many lengths away.
pub fn wrap(pos: i128, len: i64) -> (r: i64)
    requires
        len > 0,
    ensures
        r == wrapped(pos as int, len as int),
        0 <= r < len,
{
    let l: u128 = len as u128;
    if pos >= 0 {
        let m: u128 = (pos as u128) % l;
        (m as i64)
    } else {
        let q: u128 = ((-(pos + 1)) as u128 + 1) % l;
        proof {
            lemma_neg_mod(-pos as int, len as int);
        }
        if q == 0 {
            0
        } else {
            (l - q) as i64
        }
    }
}

proof fn lemma_neg_mod(a: int, n: int)
    requires
        a > 0,
        n > 0,
    ensures
        a % n == 0 ==> (-a) % n == 0,
        a % n != 0 ==> (-a) % n == n - a % n,
{
    let q = a / n;
    let r = a % n;
    assert(a == q * n + r) by (nonlinear_arith)
        requires q == a / n, r == a % n, n > 0;
    if r == 0 {
        assert(-a == (-q) * n) by (nonlinear_arith)
            requires a == q * n + r, r == 0;
        vstd::arithmetic::div_mod::lemma_mod_multiples_basic(-q, n);
    } else {
        assert(-a == (-q - 1) * n + (n - r)) by (nonlinear_arith)
            requires a == q * n + r;
        vstd::arithmetic::div_mod::lemma_mod_multiples_vanish(-q - 1, n - r, n);
        vstd::arithmetic::div_mod::lemma_small_mod((n - r) as nat, n as nat);
    }
}

/// Clamps `pos` into `[lo, hi]`.
pub open spec fn clamped(pos: int, lo: int, hi: int) -> int {
    if pos < lo {
        lo
    } else if pos > hi {
        hi
    } else {
        pos
    }
}

/// Clamps a wide position into `[lo, hi]`.
pub fn clamp_ticks(pos: i128, lo: i64, hi: i64) -> (r: i64)
    requires
        lo <= hi,
    ensures
        r == clamped(pos as int, lo as int, hi as int),
{
    if pos < lo as i128 {
        lo
    } else if pos > hi as i128 {
        hi
    } else {
        pos as i64
    }
}

} // verus!
