//! The output sink: the node that hands its inputs to the host.

use vstd::prelude::*;
use crate::dsp::binary32::ZERO;
use crate::dsp::context::NodeAudioContext;
use crate::dsp::dsp_node::DspNode;
use crate::dsp::node_id::NodeId;
use crate::dsp::procbuf::{ProcBuf, MAX_BLOCK_SIZE};
use crate::dsp::satom::SAtom;

verus! {

/// The input that feeds output channel 1.
pub const CH1: usize = 0;

/// The input that feeds output channel 2.
pub const CH2: usize = 1;

/// The atom that sends channel 1 to both output channels.
pub const MONO: usize = 0;

/// The (stereo) output port of the host.
#[derive(Debug)]
pub struct Out {
    /// - 0: signal channel 1
    /// - 1: signal channel 2
    input: [u32; 2],
}

impl Clone for Out {
    fn clone(&self) -> (r: Out)
        ensures
            r == *self,
    {
        Out { input: self.input }
    }
}

impl Out {
    /// Whether the atoms ask for channel 1 on both output channels.
    pub open spec fn is_mono(atoms: Seq<SAtom>) -> bool {
        atoms[MONO as int]@.i() > 0
    }

    /// The input that output channel `channel` is fed from.
    pub open spec fn source(atoms: Seq<SAtom>, channel: int) -> int {
        if channel == 0 || Out::is_mono(atoms) {
            CH1 as int
        } else {
            CH2 as int
        }
    }

    /// The two samples that the sink holds for its channels.
    pub closed spec fn held(&self) -> Seq<u32> {
        self.input@
    }

    /// A sink that holds silence.
    pub fn new() -> (r: Out)
        ensures
            r.held() == seq![ZERO, ZERO],
    {
        let r = Out { input: [ZERO, ZERO] };
        assert(r.input@ =~= seq![ZERO, ZERO]);
        r
    }

    /// What a block asks of its surroundings: no more frames than a buffer
    /// holds, two output channels, the `mono` atom, a buffer for each input
    /// that is read, and a feedback slot.
    pub open spec fn pre<T: NodeAudioContext>(
        ctx: &T,
        atoms: Seq<SAtom>,
        inputs: Seq<ProcBuf>,
        led: Seq<u32>,
    ) -> bool {
        &&& ctx.frames() <= MAX_BLOCK_SIZE
        &&& ctx.channels() >= 2
        &&& atoms.len() > MONO
        &&& inputs.len() > CH1
        &&& !Out::is_mono(atoms) ==> inputs.len() > CH2
        &&& led.len() >= 1
    }

    /// What a block leaves behind: on both output channels, each frame of
    /// the block holds the frame of the input that feeds the channel, and
    /// nothing else was written; the first feedback slot holds the last
    /// frame of input `ch1`. A block of no frames leaves the channels and
    /// the feedback slots as they were.
    pub open spec fn post<T: NodeAudioContext>(
        before: &T,
        after: &T,
        atoms: Seq<SAtom>,
        inputs: Seq<ProcBuf>,
        led_before: Seq<u32>,
        led_after: Seq<u32>,
    ) -> bool {
        &&& after.frames() == before.frames()
        &&& after.channels() == before.channels()
        &&& forall|c: int, f: int|
            #[trigger] after.written(c, f) == (if 0 <= c < 2 && 0 <= f < before.frames() {
                inputs[Out::source(atoms, c)]@[f]
            } else {
                before.written(c, f)
            })
        &&& led_after == (if before.frames() == 0 {
            led_before
        } else {
            led_before.update(0, inputs[CH1 as int]@[before.frames() - 1])
        })
    }

    /// Copies one block from the inputs to the two output channels of the
    /// host: input `ch1` to both where the `mono` atom is above zero, else
    /// `ch1` to the first and `ch2` to the second. The first feedback slot
    /// gets the last frame of `ch1`. Of a block of no frames nothing is
    /// read and nothing is written.
    ///
    /// So with `mono` the two channels carry the same signal, and without
    /// it they differ in exactly the frames in which the two inputs differ.
    pub fn process<T: NodeAudioContext>(
        &mut self,
        ctx: &mut T,
        atoms: &[SAtom],
        _params: &[ProcBuf],
        inputs: &[ProcBuf],
        _outputs: &mut [ProcBuf],
        led: &mut [u32],
    )
        requires
            Out::pre(old(ctx), atoms@, inputs@, old(led)@),
        ensures
            *final(self) == *old(self),
            final(_outputs)@ == old(_outputs)@,
            Out::post(old(ctx), final(ctx), atoms@, inputs@, old(led)@, final(led)@),
            Out::is_mono(atoms@) ==> forall|f: int|
                0 <= f < old(ctx).frames() ==> #[trigger] final(ctx).written(0, f)
                    == final(ctx).written(1, f),
            !Out::is_mono(atoms@) ==> forall|f: int|
                0 <= f < old(ctx).frames() ==> (#[trigger] final(ctx).written(0, f)
                    != final(ctx).written(1, f) <==> inputs@[CH1 as int]@[f]
                    != inputs@[CH2 as int]@[f]),
    {
        let n = ctx.nframes();
        let mono = atoms[MONO].i() > 0;
        let mut frame: usize = 0;
        while frame < n
            invariant
                frame <= n,
                n == old(ctx).frames(),
                n <= MAX_BLOCK_SIZE,
                ctx.frames() == n,
                ctx.channels() == old(ctx).channels(),
                ctx.channels() >= 2,
                mono == Out::is_mono(atoms@),
                inputs@.len() > CH1,
                !mono ==> inputs@.len() > CH2,
                forall|c: int, f: int|
                    #[trigger] ctx.written(c, f) == (if 0 <= c < 2 && 0 <= f < frame {
                        inputs@[Out::source(atoms@, c)]@[f]
                    } else {
                        old(ctx).written(c, f)
                    }),
            decreases n - frame,
        {
            let v1 = inputs[CH1].read(frame);
            let v2 = if mono {
                v1
            } else {
                inputs[CH2].read(frame)
            };
            ctx.output(0, frame, v1);
            ctx.output(1, frame, v2);
            frame += 1;
        }
        if n > 0 {
            led[0] = inputs[CH1].read(n - 1);
        }
    }
}

impl DspNode for Out {
    open spec fn kind() -> NodeId {
        NodeId::Out(0)
    }

    /// The sink keeps nothing from block to block.
    open spec fn at_rest(&self) -> bool {
        true
    }

    /// The kind keeps no sample rate.
    open spec fn sample_rate(&self) -> Option<u32> {
        None
    }

    fn outputs() -> (n: usize) {
        0
    }

    fn set_sample_rate(&mut self, _srate: u32)
        ensures
            *final(self) == *old(self),
    {
    }

    fn reset(&mut self)
        ensures
            *final(self) == *old(self),
    {
    }
}

} // verus!
