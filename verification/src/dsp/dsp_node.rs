//! What every node kind offers the graph that runs it.

use vstd::prelude::*;
use crate::dsp::node_id::NodeId;

verus! {

/// The state of one node of some kind.
///
/// A node starts at rest. Processing moves it on; `reset`, and nothing
/// else, brings it back to rest. Neither `reset` nor `set_sample_rate`
/// allocates, and both are for the time between two blocks.
pub trait DspNode {
    /// The kind that the node is of, as its instance 0.
    spec fn kind() -> NodeId;

    /// Whether the node is in the state that it starts from, but for the
    /// sample rate.
    spec fn at_rest(&self) -> bool;

    /// The sample rate that the node runs at; none for a kind that keeps
    /// none.
    spec fn sample_rate(&self) -> Option<u32>;

    /// The number of outputs of the kind.
    fn outputs() -> (n: usize)
        ensures
            n == Self::kind().output_names().len(),
    ;

    /// Tells the node the sample rate that it runs at from now on. A kind
    /// that keeps a sample rate then runs at `srate`; whether the node is at
    /// rest does not change.
    fn set_sample_rate(&mut self, srate: u32)
        ensures
            final(self).at_rest() == old(self).at_rest(),
            final(self).sample_rate() == (if old(self).sample_rate() is Some {
                Some(srate)
            } else {
                None
            }),
    ;

    /// Brings the node back to rest. Its sample rate stays.
    fn reset(&mut self)
        ensures
            final(self).at_rest(),
            final(self).sample_rate() == old(self).sample_rate(),
    ;
}

} // verus!
