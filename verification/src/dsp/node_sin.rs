//! The sine oscillator.
//!
//! The oscillator keeps a phase between zero and one and a sample rate.
//! What a phase sounds like, and how far a frequency moves it in one frame,
//! is arithmetic on samples, which the caller brings along as a function;
//! the node threads the phase through the block and fills its output.

use vstd::prelude::*;
use crate::dsp::binary32::{RATE_44100, ZERO};
use crate::dsp::context::NodeAudioContext;
use crate::dsp::dsp_node::DspNode;
use crate::dsp::node_id::NodeId;
use crate::dsp::procbuf::{ProcBuf, MAX_BLOCK_SIZE};
use crate::dsp::satom::SAtom;

verus! {

/// The input that holds the normalized frequency.
pub const FREQ: usize = 0;

/// The output that carries the signal.
pub const SIG: usize = 0;

/// A sine oscillator.
#[derive(Debug)]
pub struct Sin {
    /// Sample rate
    srate: u32,
    /// Oscillator phase
    phase: u32,
}

impl Clone for Sin {
    fn clone(&self) -> (r: Sin)
        ensures
            r == *self,
    {
        Sin { srate: self.srate, phase: self.phase }
    }
}

/// Whether `phases` and `samples` are what `step` makes of the frequencies
/// `freqs` at sample rate `srate`: frame by frame, `step` takes the phase,
/// the normalized frequency and the sample rate, and gives the sample of
/// the frame and the phase of the next.
pub open spec fn osc_run<F: Fn(u32, u32, u32) -> (u32, u32)>(
    step: F,
    srate: u32,
    freqs: Seq<u32>,
    phases: Seq<u32>,
    samples: Seq<u32>,
) -> bool {
    &&& phases.len() == samples.len() + 1
    &&& samples.len() <= freqs.len()
    &&& forall|i: int|
        0 <= i < samples.len() ==> call_ensures(
            step,
            (#[trigger] phases[i], freqs[i], srate),
            (samples[i], phases[i + 1]),
        )
}

/// Where `step` has one answer to each question, the frequencies, the sample
/// rate and the first phase settle every sample and every phase of a run.
pub proof fn lemma_osc_run_is_settled<F: Fn(u32, u32, u32) -> (u32, u32)>(
    step: F,
    srate: u32,
    freqs: Seq<u32>,
    phases: Seq<u32>,
    samples: Seq<u32>,
    other_phases: Seq<u32>,
    other_samples: Seq<u32>,
)
    requires
        forall|q: (u32, u32, u32), a: (u32, u32), b: (u32, u32)|
            call_ensures(step, q, a) && call_ensures(step, q, b) ==> a == b,
        osc_run(step, srate, freqs, phases, samples),
        osc_run(step, srate, freqs, other_phases, other_samples),
        samples.len() == other_samples.len(),
        phases[0] == other_phases[0],
    ensures
        phases == other_phases,
        samples == other_samples,
{
    assert forall|i: int| 0 <= i < samples.len() implies samples[i] == other_samples[i]
        && phases[i + 1] == other_phases[i + 1] by {
        lemma_osc_run_agrees(step, srate, freqs, phases, samples, other_phases, other_samples, i);
    }
    assert forall|i: int| 0 <= i < phases.len() implies phases[i] == other_phases[i] by {
        if i > 0 {
            assert(samples[i - 1] == other_samples[i - 1] && phases[i - 1 + 1] == other_phases[i
                - 1 + 1]);
        }
    }
    assert(phases =~= other_phases);
    assert(samples =~= other_samples);
}

proof fn lemma_osc_run_agrees<F: Fn(u32, u32, u32) -> (u32, u32)>(
    step: F,
    srate: u32,
    freqs: Seq<u32>,
    phases: Seq<u32>,
    samples: Seq<u32>,
    other_phases: Seq<u32>,
    other_samples: Seq<u32>,
    i: int,
)
    requires
        forall|q: (u32, u32, u32), a: (u32, u32), b: (u32, u32)|
            call_ensures(step, q, a) && call_ensures(step, q, b) ==> a == b,
        osc_run(step, srate, freqs, phases, samples),
        osc_run(step, srate, freqs, other_phases, other_samples),
        samples.len() == other_samples.len(),
        phases[0] == other_phases[0],
        0 <= i < samples.len(),
    ensures
        phases[i] == other_phases[i],
        samples[i] == other_samples[i],
        phases[i + 1] == other_phases[i + 1],
    decreases i,
{
    if i > 0 {
        lemma_osc_run_agrees(
            step,
            srate,
            freqs,
            phases,
            samples,
            other_phases,
            other_samples,
            i - 1,
        );
    }
    assert(call_ensures(step, (phases[i], freqs[i], srate), (samples[i], phases[i + 1])));
    assert(call_ensures(
        step,
        (other_phases[i], freqs[i], srate),
        (other_samples[i], other_phases[i + 1]),
    ));
}

/// What one block does to an oscillator and its surroundings: from phase
/// `phase_before`, `step` made `frames` samples of the frequencies `freqs`
/// and left phase `phase_after`. The samples stand at the start of the
/// signal output, unless that is the null buffer, which takes none; the
/// last of them, or positive zero where there is none, stands in the first
/// feedback slot.
pub open spec fn osc_block<F: Fn(u32, u32, u32) -> (u32, u32)>(
    step: F,
    srate: u32,
    frames: int,
    freqs: Seq<u32>,
    phase_before: u32,
    phase_after: u32,
    sig_before: &ProcBuf,
    sig_after: &ProcBuf,
    led_before: Seq<u32>,
    led_after: Seq<u32>,
) -> bool {
    exists|phases: Seq<u32>, samples: Seq<u32>|
        {
            &&& samples.len() == frames
            &&& #[trigger] osc_run(step, srate, freqs, phases, samples)
            &&& phases[0] == phase_before
            &&& phases[frames] == phase_after
            &&& sig_after.is_null() == sig_before.is_null()
            &&& sig_after@ == (if sig_before.is_null() {
                sig_before@
            } else {
                samples + sig_before@.skip(frames)
            })
            &&& led_after == led_before.update(
                0,
                if frames == 0 {
                    ZERO
                } else {
                    samples[frames - 1]
                },
            )
        }
}

impl Sin {
    /// The sample rate that the oscillator runs at.
    pub closed spec fn spec_srate(&self) -> u32 {
        self.srate
    }

    /// The phase that the next frame starts from.
    pub closed spec fn spec_phase(&self) -> u32 {
        self.phase
    }

    /// An oscillator at rest, at 44100 frames a second.
    pub fn new() -> (r: Sin)
        ensures
            r.srate() == RATE_44100,
            r.phase() == ZERO,
    {
        Sin { srate: RATE_44100, phase: ZERO }
    }

    #[verifier::when_used_as_spec(spec_srate)]
    pub fn srate(&self) -> (r: u32)
        ensures
            r == self.spec_srate(),
    {
        self.srate
    }

    #[verifier::when_used_as_spec(spec_phase)]
    pub fn phase(&self) -> (r: u32)
        ensures
            r == self.spec_phase(),
    {
        self.phase
    }

    /// What a block asks of its surroundings: no more frames than a buffer
    /// holds, the frequency input, the signal output and a feedback slot.
    pub open spec fn pre<T: NodeAudioContext>(
        ctx: &T,
        inputs: Seq<ProcBuf>,
        outputs: Seq<ProcBuf>,
        led: Seq<u32>,
    ) -> bool {
        &&& ctx.frames() <= MAX_BLOCK_SIZE
        &&& inputs.len() > FREQ
        &&& outputs.len() > SIG
        &&& led.len() >= 1
    }

    /// Runs the oscillator for one block: for each frame, in order, `step`
    /// is given the phase, the frame of input `freq` and the sample rate;
    /// the sample that it returns goes to output `sig`, the phase that it
    /// returns to the next frame. The first feedback slot gets the last
    /// sample, or positive zero for a block of no frames.
    pub fn process<T: NodeAudioContext, F: Fn(u32, u32, u32) -> (u32, u32)>(
        &mut self,
        ctx: &mut T,
        _atoms: &[SAtom],
        _params: &[ProcBuf],
        inputs: &[ProcBuf],
        outputs: &mut [ProcBuf],
        led: &mut [u32],
        step: F,
    )
        requires
            Sin::pre(old(ctx), inputs@, old(outputs)@, old(led)@),
            forall|p: u32, f: u32, s: u32| call_requires(step, (p, f, s)),
        ensures
            *final(ctx) == *old(ctx),
            final(self).srate() == old(self).srate(),
            final(outputs)@.len() == old(outputs)@.len(),
            forall|k: int|
                0 <= k < old(outputs)@.len() && k != SIG ==> final(outputs)@[k]
                    == old(outputs)@[k],
            osc_block(
                step,
                old(self).srate(),
                old(ctx).frames() as int,
                inputs@[FREQ as int]@,
                old(self).phase(),
                final(self).phase(),
                &old(outputs)@[SIG as int],
                &final(outputs)@[SIG as int],
                old(led)@,
                final(led)@,
            ),
    {
        let n = ctx.nframes();
        let ghost freqs = inputs@[FREQ as int]@;
        let ghost before = outputs@[SIG as int]@;
        let ghost mut phases: Seq<u32> = seq![self.phase];
        let ghost mut samples: Seq<u32> = Seq::empty();
        let mut last_val: u32 = ZERO;
        let mut frame: usize = 0;
        proof {
            inputs@[FREQ as int].lemma_len();
            outputs@[SIG as int].lemma_len();
        }
        while frame < n
            invariant
                frame <= n,
                n == old(ctx).frames(),
                n <= MAX_BLOCK_SIZE,
                *ctx == *old(ctx),
                inputs@.len() > FREQ,
                freqs == inputs@[FREQ as int]@,
                freqs.len() == MAX_BLOCK_SIZE,
                before == old(outputs)@[SIG as int]@,
                before.len() == MAX_BLOCK_SIZE,
                self.srate == old(self).srate,
                outputs@.len() == old(outputs)@.len(),
                outputs@.len() > SIG,
                forall|k: int|
                    0 <= k < outputs@.len() && k != SIG ==> outputs@[k] == old(outputs)@[k],
                outputs@[SIG as int].is_null() == old(outputs)@[SIG as int].is_null(),
                forall|p: u32, f: u32, s: u32| call_requires(step, (p, f, s)),
                samples.len() == frame,
                osc_run(step, self.srate, freqs, phases, samples),
                phases[0] == old(self).phase(),
                self.phase == phases[frame as int],
                outputs@[SIG as int]@ == (if old(outputs)@[SIG as int].is_null() {
                    before
                } else {
                    samples + before.skip(frame as int)
                }),
                last_val == (if frame == 0 {
                    ZERO
                } else {
                    samples[frame - 1]
                }),
            decreases n - frame,
        {
            let freq = inputs[FREQ].read(frame);
            let (sample, next) = step(self.phase, freq, self.srate);
            outputs[SIG].write(frame, sample);
            proof {
                let ghost grown_phases = phases.push(next);
                let ghost grown_samples = samples.push(sample);
                assert forall|i: int| 0 <= i < grown_samples.len() implies call_ensures(
                    step,
                    (#[trigger] grown_phases[i], freqs[i], self.srate),
                    (grown_samples[i], grown_phases[i + 1]),
                ) by {
                    if i < samples.len() {
                        assert(grown_phases[i] == phases[i]);
                        assert(grown_phases[i + 1] == phases[i + 1]);
                        assert(grown_samples[i] == samples[i]);
                    }
                }
                if !old(outputs)@[SIG as int].is_null() {
                    assert(outputs@[SIG as int]@ =~= grown_samples + before.skip(frame + 1));
                }
                phases = grown_phases;
                samples = grown_samples;
            }
            last_val = sample;
            self.phase = next;
            frame += 1;
        }
        led[0] = last_val;
        proof {
            assert(osc_run(step, old(self).srate(), inputs@[FREQ as int]@, phases, samples));
        }
    }
}

impl DspNode for Sin {
    open spec fn kind() -> NodeId {
        NodeId::Sin(0)
    }

    /// The oscillator rests at phase zero.
    open spec fn at_rest(&self) -> bool {
        self.phase() == ZERO
    }

    /// The sample rate that was last set.
    open spec fn sample_rate(&self) -> Option<u32> {
        Some(self.srate())
    }

    fn outputs() -> (n: usize) {
        1
    }

    fn set_sample_rate(&mut self, srate: u32)
        ensures
            final(self).srate() == srate,
            final(self).phase() == old(self).phase(),
    {
        self.srate = srate;
    }

    fn reset(&mut self)
        ensures
            final(self).phase() == ZERO,
            final(self).srate() == old(self).srate(),
    {
        self.phase = ZERO;
    }
}

} // verus!
