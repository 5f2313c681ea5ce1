//! The amplifier.

use vstd::prelude::*;
use crate::dsp::dsp_node::DspNode;
use crate::dsp::node_id::NodeId;

verus! {

/// A simple amplifier. It keeps nothing from block to block.
#[derive(Debug)]
pub struct Amp {}

impl Clone for Amp {
    fn clone(&self) -> (r: Amp)
        ensures
            r == *self,
    {
        Amp {  }
    }
}

impl Amp {
    pub fn new() -> (r: Amp)
        ensures
            r == (Amp {  }),
    {
        Amp {  }
    }
}

impl DspNode for Amp {
    open spec fn kind() -> NodeId {
        NodeId::Amp(0)
    }

    open spec fn at_rest(&self) -> bool {
        true
    }

    /// The kind keeps no sample rate.
    open spec fn sample_rate(&self) -> Option<u32> {
        None
    }

    fn outputs() -> (n: usize) {
        1
    }

    fn set_sample_rate(&mut self, _srate: u32)
        ensures
            *final(self) == *old(self),
    {
    }

    fn reset(&mut self)
        ensures
            *final(self) == *old(self),
    {
    }
}

} // verus!
