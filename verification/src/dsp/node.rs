//! The node of a graph slot, whatever its kind, and the factory of nodes.

use vstd::prelude::*;
use crate::dsp::binary32::{RATE_44100, ZERO};
use crate::dsp::context::NodeAudioContext;
use crate::dsp::dsp_node::DspNode;
use crate::dsp::node_amp::Amp;
use crate::dsp::node_id::NodeId;
use crate::dsp::node_info::NodeInfo;
use crate::dsp::node_out::Out;
use crate::dsp::node_sin::{osc_block, Sin, FREQ, SIG};
use crate::dsp::node_test::Test;
use crate::dsp::node_tseq::TSeq;
use crate::dsp::procbuf::ProcBuf;
use crate::dsp::satom::SAtom;

verus! {

/// Holds the complete node program.
#[derive(Debug)]
#[allow(inconsistent_fields)]
pub enum Node {
    /// An empty node that does nothing. It's a placeholder
    /// for non allocated nodes.
    Nop,
    Amp { node: Amp },
    TSeq { node: TSeq },
    Sin { node: Sin },
    Out { node: Out },
    Test { node: Test },
}

impl Clone for Node {
    fn clone(&self) -> (r: Node)
        ensures
            r == *self,
    {
        match self {
            Node::Nop => Node::Nop,
            Node::Amp { node } => Node::Amp { node: node.clone() },
            Node::TSeq { node } => Node::TSeq { node: node.clone() },
            Node::Sin { node } => Node::Sin { node: node.clone() },
            Node::Out { node } => Node::Out { node: node.clone() },
            Node::Test { node } => Node::Test { node: node.clone() },
        }
    }
}

impl Node {
    /// The kind of the node, as its instance 0.
    pub open spec fn kind(&self) -> NodeId {
        match self {
            Node::Nop => NodeId::Nop,
            Node::Amp { .. } => NodeId::Amp(0),
            Node::TSeq { .. } => NodeId::TSeq(0),
            Node::Sin { .. } => NodeId::Sin(0),
            Node::Out { .. } => NodeId::Out(0),
            Node::Test { .. } => NodeId::Test(0),
        }
    }

    /// Whether the node is in the state that it starts from, but for the
    /// sample rate.
    pub open spec fn at_rest(&self) -> bool {
        match self {
            Node::Nop => true,
            Node::Amp { node } => node.at_rest(),
            Node::TSeq { node } => node.at_rest(),
            Node::Sin { node } => node.at_rest(),
            Node::Out { node } => node.at_rest(),
            Node::Test { node } => node.at_rest(),
        }
    }

    /// The sample rate that the node runs at, for a kind that keeps one.
    pub open spec fn sample_rate(&self) -> Option<u32> {
        match self {
            Node::Nop => None,
            Node::Amp { node } => node.sample_rate(),
            Node::TSeq { node } => node.sample_rate(),
            Node::Sin { node } => node.sample_rate(),
            Node::Out { node } => node.sample_rate(),
            Node::Test { node } => node.sample_rate(),
        }
    }

    /// The id of the node as instance `instance`, of which the low eight
    /// bits count.
    pub fn to_id(&self, instance: usize) -> (r: NodeId)
        ensures
            r == self.kind().with_instance((instance % 256) as u8),
    {
        let i: u8 = (instance % 256) as u8;
        match self {
            Node::Nop => NodeId::Nop,
            Node::Amp { .. } => NodeId::Amp(i),
            Node::TSeq { .. } => NodeId::TSeq(i),
            Node::Sin { .. } => NodeId::Sin(i),
            Node::Out { .. } => NodeId::Out(i),
            Node::Test { .. } => NodeId::Test(i),
        }
    }

    /// Brings the node back to rest. Its kind and its sample rate stay, and
    /// a node of a kind that keeps no sample rate, which keeps nothing else
    /// from block to block either, is left as it was.
    pub fn reset(&mut self)
        ensures
            final(self).at_rest(),
            final(self).kind() == old(self).kind(),
            final(self).sample_rate() == old(self).sample_rate(),
            old(self).sample_rate() is None ==> *final(self) == *old(self),
    {
        match self {
            Node::Nop => {},
            Node::Amp { node } => {
                node.reset();
            },
            Node::TSeq { node } => {
                node.reset();
            },
            Node::Sin { node } => {
                node.reset();
            },
            Node::Out { node } => {
                node.reset();
            },
            Node::Test { node } => {
                node.reset();
            },
        }
    }

    /// Tells the node the sample rate that it runs at from now on. A kind
    /// that keeps none is left as it is.
    pub fn set_sample_rate(&mut self, sample_rate: u32)
        ensures
            final(self).kind() == old(self).kind(),
            final(self).at_rest() == old(self).at_rest(),
            final(self).sample_rate() == (if old(self).sample_rate() is Some {
                Some(sample_rate)
            } else {
                None
            }),
            old(self).sample_rate() is None ==> *final(self) == *old(self),
            match (*old(self), *final(self)) {
                (Node::Sin { node: before }, Node::Sin { node: after }) => after.phase()
                    == before.phase(),
                (Node::TSeq { node: before }, Node::TSeq { node: after }) => {
                    &&& after.spec_row() == before.spec_row()
                    &&& after.spec_phase() == before.spec_phase()
                    &&& after.spec_tracks() == before.spec_tracks()
                },
                _ => true,
            },
    {
        match self {
            Node::Nop => {},
            Node::Amp { node } => {
                node.set_sample_rate(sample_rate);
            },
            Node::TSeq { node } => {
                node.set_sample_rate(sample_rate);
            },
            Node::Sin { node } => {
                node.set_sample_rate(sample_rate);
            },
            Node::Out { node } => {
                node.set_sample_rate(sample_rate);
            },
            Node::Test { node } => {
                node.set_sample_rate(sample_rate);
            },
        }
    }

    /// Whether the node is as the factory makes it: at rest, at 44100
    /// frames a second where it keeps a sample rate, and holding silence.
    pub open spec fn is_fresh(&self) -> bool {
        &&& self.at_rest()
        &&& self.sample_rate() is Some ==> self.sample_rate() == Some(RATE_44100)
        &&& self matches Node::Out { node } ==> node.held() == seq![ZERO, ZERO]
    }

    /// Whether this library runs the signal function of the node: that of
    /// the placeholder, of the output sink and of the oscillator.
    pub open spec fn runs_here(&self) -> bool {
        self is Nop || self is Out || self is Sin
    }

    /// What a block asks of its surroundings, by the kind of the node.
    pub open spec fn pre<T: NodeAudioContext, F: Fn(u32, u32, u32) -> (u32, u32)>(
        &self,
        ctx: &T,
        atoms: Seq<SAtom>,
        inputs: Seq<ProcBuf>,
        outputs: Seq<ProcBuf>,
        led: Seq<u32>,
        osc: F,
    ) -> bool {
        match self {
            Node::Out { .. } => Out::pre(ctx, atoms, inputs, led),
            Node::Sin { .. } => {
                &&& Sin::pre(ctx, inputs, outputs, led)
                &&& forall|p: u32, f: u32, s: u32| call_requires(osc, (p, f, s))
            },
            _ => true,
        }
    }

    /// Runs the node for one block and says whether it did. The output
    /// sink copies its inputs to the host; the oscillator fills its output
    /// by `osc`, which stands for its arithmetic on samples; the placeholder
    /// has nothing to do. A node of another kind has its signal function
    /// outside this library: nothing is touched, and the answer is `false`.
    pub fn process<T: NodeAudioContext, F: Fn(u32, u32, u32) -> (u32, u32)>(
        &mut self,
        ctx: &mut T,
        atoms: &[SAtom],
        params: &[ProcBuf],
        inputs: &[ProcBuf],
        outputs: &mut [ProcBuf],
        led: &mut [u32],
        osc: F,
    ) -> (ran: bool)
        requires
            old(self).pre(old(ctx), atoms@, inputs@, old(outputs)@, old(led)@, osc),
        ensures
            ran == old(self).runs_here(),
            final(self).kind() == old(self).kind(),
            match *old(self) {
                Node::Out { .. } => {
                    &&& *final(self) == *old(self)
                    &&& final(outputs)@ == old(outputs)@
                    &&& Out::post(old(ctx), final(ctx), atoms@, inputs@, old(led)@, final(led)@)
                },
                Node::Sin { node: before } => {
                    &&& *final(self) matches Node::Sin { node: after }
                    &&& after.srate() == before.srate()
                    &&& *final(ctx) == *old(ctx)
                    &&& final(outputs)@.len() == old(outputs)@.len()
                    &&& forall|k: int|
                        0 <= k < old(outputs)@.len() && k != SIG ==> final(outputs)@[k]
                            == old(outputs)@[k]
                    &&& osc_block(
                        osc,
                        before.srate(),
                        old(ctx).frames() as int,
                        inputs@[FREQ as int]@,
                        before.phase(),
                        after.phase(),
                        &old(outputs)@[SIG as int],
                        &final(outputs)@[SIG as int],
                        old(led)@,
                        final(led)@,
                    )
                },
                _ => {
                    &&& *final(self) == *old(self)
                    &&& *final(ctx) == *old(ctx)
                    &&& final(outputs)@ == old(outputs)@
                    &&& final(led)@ == old(led)@
                },
            },
    {
        match self {
            Node::Nop => true,
            Node::Out { node } => {
                node.process(ctx, atoms, params, inputs, outputs, led);
                true
            },
            Node::Sin { node } => {
                node.process(ctx, atoms, params, inputs, outputs, led, osc);
                true
            },
            _ => false,
        }
    }
}

/// A fresh node of the kind of `node_id`, at rest, together with the
/// information on that kind for `node_id`; nothing for the placeholder
/// kind, of which there is no node to make.
pub fn node_factory(node_id: NodeId) -> (r: Option<(Node, NodeInfo)>)
    ensures
        r is None <==> node_id is Nop,
        r matches Some((node, info)) ==> {
            &&& node.kind() == node_id.with_instance(0)
            &&& node.is_fresh()
            &&& info.to_id() == node_id
        },
{
    match node_id {
        NodeId::Nop => None,
        NodeId::Amp(_) => Some((Node::Amp { node: Amp::new() }, NodeInfo::from_node_id(node_id))),
        NodeId::TSeq(_) => Some(
            (Node::TSeq { node: TSeq::new() }, NodeInfo::from_node_id(node_id)),
        ),
        NodeId::Sin(_) => Some((Node::Sin { node: Sin::new() }, NodeInfo::from_node_id(node_id))),
        NodeId::Out(_) => Some((Node::Out { node: Out::new() }, NodeInfo::from_node_id(node_id))),
        NodeId::Test(_) => Some(
            (Node::Test { node: Test::new() }, NodeInfo::from_node_id(node_id)),
        ),
    }
}

} // verus!
