//! The two-voice engine: draws start-position jitter and steps both voices.

use vstd::prelude::*;
use rand::rngs::StdRng;
use crate::grain::Tap;
use crate::voice::{next_scan, scan_after, stepped, GrainParams, Voice, VoiceParams};

verus! {

/// Output samples in one rendered block.
pub const BLOCK_LEN: usize = 128;

/// rand's standard seedable generator, carried through as an opaque value.
#[verifier::external_type_specification]
#[verifier::external_body]
pub struct ExStdRng(StdRng);

/// Relies on rand's `Rng::gen_range` on an inclusive `i64` range: the value
/// drawn lies in `[-max, max]`, which is never empty here.
#[verifier::external_body]
fn draw_jitter(rng: &mut StdRng, max: i64) -> (r: i64)
    requires
        max >= 0,
    ensures
        -max <= r <= max,
{
    rand::Rng::gen_range(rng, -max..=max)
}

/// A jitter that a voice with this randomness may receive: within
/// `[-randomness, randomness]`, and zero when the randomness is not positive.
pub open spec fn jitter_allowed(jitter: int, randomness: i64) -> bool {
    if randomness <= 0 {
        jitter == 0
    } else {
        -randomness <= jitter <= randomness
    }
}

/// The two voices and the random source that jitters grain starts.
pub struct GranularEngine {
    pub voice_1: Voice,
    pub voice_2: Voice,
    pub rng: StdRng,
}

/// The voices after one engine sample, whatever jitters were drawn.
pub open spec fn engine_stepped(
    pre1: Voice,
    pre2: Voice,
    post1: Voice,
    post2: Voice,
    taps1: Seq<Option<Tap>>,
    taps2: Seq<Option<Tap>>,
    p: GrainParams,
    v1: VoiceParams,
    v2: VoiceParams,
    wave_len: nat,
) -> bool {
    &&& exists|j: int|
        jitter_allowed(j, v1.randomness) && #[trigger] stepped(pre1, post1, taps1, p, v1, j, wave_len)
    &&& exists|j: int|
        jitter_allowed(j, v2.randomness) && #[trigger] stepped(pre2, post2, taps2, p, v2, j, wave_len)
}

/// `s1` and `s2` are the voices' states before each sample of `taps` and
/// after the last, each pair one engine sample from the one before.
pub open spec fn block_chain(
    s1: Seq<Voice>,
    s2: Seq<Voice>,
    taps: Seq<(Vec<Option<Tap>>, Vec<Option<Tap>>)>,
    p: GrainParams,
    v1: VoiceParams,
    v2: VoiceParams,
    wave_len: nat,
) -> bool {
    &&& s1.len() == taps.len() + 1
    &&& s2.len() == taps.len() + 1
    &&& forall|k: int|
        0 <= k < taps.len() ==> #[trigger] engine_stepped(
            s1[k],
            s2[k],
            s1[k + 1],
            s2[k + 1],
            taps[k].0@,
            taps[k].1@,
            p,
            v1,
            v2,
            wave_len,
        )
}

/// The voices after a block whose samples gave `taps`.
pub open spec fn block_rendered(
    pre1: Voice,
    pre2: Voice,
    post1: Voice,
    post2: Voice,
    taps: Seq<(Vec<Option<Tap>>, Vec<Option<Tap>>)>,
    p: GrainParams,
    v1: VoiceParams,
    v2: VoiceParams,
    wave_len: nat,
) -> bool {
    exists|s1: Seq<Voice>, s2: Seq<Voice>|
        #[trigger] block_chain(s1, s2, taps, p, v1, v2, wave_len) && s1[0] == pre1 && s2[0] == pre2
            && s1.last() == post1 && s2.last() == post2
}

impl GranularEngine {
    pub open spec fn wf(&self) -> bool {
        self.voice_1.wf() && self.voice_2.wf()
    }

    /// A fresh engine with two silent voices drawing jitter from `rng`.
    pub fn new(rng: StdRng) -> (e: GranularEngine)
        ensures
            e.wf(),
            e.voice_1.scan == 0 && e.voice_1.countdown == 1,
            e.voice_2.scan == 0 && e.voice_2.countdown == 1,
            forall|i: int| 0 <= i < e.voice_1.slots@.len() ==> (#[trigger] e.voice_1.slots@[i]) is None,
            forall|i: int| 0 <= i < e.voice_2.slots@.len() ==> (#[trigger] e.voice_2.slots@[i]) is None,
    {
        GranularEngine { voice_1: Voice::new(), voice_2: Voice::new(), rng }
    }

    /// The jitter for a voice on this sample: drawn only when a grain is due
    /// and the randomness is positive, zero otherwise.
    fn jitter_for(rng: &mut StdRng, voice: &Voice, randomness: i64) -> (r: i64)
        ensures
            jitter_allowed(r as int, randomness),
    {
        if voice.countdown <= 1 && randomness > 0 {
            draw_jitter(rng, randomness)
        } else {
            0
        }
    }

    /// One output sample of both voices; returns each voice's grain taps.
    pub fn step(&mut self, p: &GrainParams, v1: &VoiceParams, v2: &VoiceParams, wave_len: usize) -> (r: (
        Vec<Option<Tap>>,
        Vec<Option<Tap>>,
    ))
        requires
            old(self).wf(),
        ensures
            final(self).wf(),
            engine_stepped(
                old(self).voice_1,
                old(self).voice_2,
                final(self).voice_1,
                final(self).voice_2,
                r.0@,
                r.1@,
                *p,
                *v1,
                *v2,
                wave_len as nat,
            ),
            final(self).voice_1.scan == next_scan(
                old(self).voice_1.scan as int,
                v1.movement as int,
                p.window,
            ),
            final(self).voice_2.scan == next_scan(
                old(self).voice_2.scan as int,
                v2.movement as int,
                p.window,
            ),
    {
        let j1: i64 = Self::jitter_for(&mut self.rng, &self.voice_1, v1.randomness);
        let t1 = self.voice_1.step(p, v1, j1, wave_len);
        let j2: i64 = Self::jitter_for(&mut self.rng, &self.voice_2, v2.randomness);
        let t2 = self.voice_2.step(p, v2, j2, wave_len);
        (t1, t2)
    }

    /// One block of both voices: `BLOCK_LEN` samples in turn, each as `step`
    /// makes it. Entry `k` of the result holds the taps of sample `k`.
    pub fn render_block(
        &mut self,
        p: &GrainParams,
        v1: &VoiceParams,
        v2: &VoiceParams,
        wave_len: usize,
    ) -> (r: Vec<(Vec<Option<Tap>>, Vec<Option<Tap>>)>)
        requires
            old(self).wf(),
        ensures
            final(self).wf(),
            r@.len() == BLOCK_LEN,
            block_rendered(
                old(self).voice_1,
                old(self).voice_2,
                final(self).voice_1,
                final(self).voice_2,
                r@,
                *p,
                *v1,
                *v2,
                wave_len as nat,
            ),
            final(self).voice_1.scan == scan_after(
                old(self).voice_1.scan as int,
                v1.movement as int,
                p.window,
                BLOCK_LEN as nat,
            ),
            final(self).voice_2.scan == scan_after(
                old(self).voice_2.scan as int,
                v2.movement as int,
                p.window,
                BLOCK_LEN as nat,
            ),
    {
        let ghost pre1 = self.voice_1;
        let ghost pre2 = self.voice_2;
        let ghost mut s1: Seq<Voice> = seq![self.voice_1];
        let ghost mut s2: Seq<Voice> = seq![self.voice_2];
        let mut out: Vec<(Vec<Option<Tap>>, Vec<Option<Tap>>)> = Vec::new();
        let mut i: usize = 0;
        while i < BLOCK_LEN
            invariant
                self.wf(),
                i <= BLOCK_LEN,
                out@.len() == i,
                s1.len() == i + 1,
                s2.len() == i + 1,
                s1[0] == pre1,
                s2[0] == pre2,
                s1[i as int] == self.voice_1,
                s2[i as int] == self.voice_2,
                forall|k: int|
                    0 <= k < i ==> #[trigger] engine_stepped(
                        s1[k],
                        s2[k],
                        s1[k + 1],
                        s2[k + 1],
                        out@[k].0@,
                        out@[k].1@,
                        *p,
                        *v1,
                        *v2,
                        wave_len as nat,
                    ),
                self.voice_1.scan == scan_after(pre1.scan as int, v1.movement as int, p.window, i as nat),
                self.voice_2.scan == scan_after(pre2.scan as int, v2.movement as int, p.window, i as nat),
            decreases BLOCK_LEN - i,
        {
            let taps = self.step(p, v1, v2, wave_len);
            proof {
                s1 = s1.push(self.voice_1);
                s2 = s2.push(self.voice_2);
            }
            out.push(taps);
            i = i + 1;
        }
        assert(block_chain(s1, s2, out@, *p, *v1, *v2, wave_len as nat));
        out
    }
}

} // verus!
