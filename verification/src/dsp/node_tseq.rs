//! The tracker sequencer.

use vstd::prelude::*;
use crate::dsp::binary32::{RATE_44100, ZERO};
use crate::dsp::dsp_node::DspNode;
use crate::dsp::node_id::NodeId;

verus! {

/// The number of tracks, each with an output of its own.
pub const TRACKS: usize = 6;

/// A tracker based sequencer: where in its pattern it stands, and what it
/// last put on each track.
#[derive(Debug)]
pub struct TSeq {
    /// The row of the pattern that plays.
    row: usize,
    /// Sample rate
    srate: u32,
    /// How far the clock has moved into the row.
    phase: u32,
    /// The sample last put on each track.
    tracks: [u32; TRACKS],
}

impl Clone for TSeq {
    fn clone(&self) -> (r: TSeq)
        ensures
            r == *self,
    {
        TSeq { row: self.row, srate: self.srate, phase: self.phase, tracks: self.tracks }
    }
}

impl TSeq {
    /// The sample rate that the sequencer runs at.
    pub closed spec fn spec_srate(&self) -> u32 {
        self.srate
    }

    /// The row of the pattern that plays.
    pub closed spec fn spec_row(&self) -> usize {
        self.row
    }

    /// How far the clock has moved into the row.
    pub closed spec fn spec_phase(&self) -> u32 {
        self.phase
    }

    /// The sample last put on each track.
    pub closed spec fn spec_tracks(&self) -> Seq<u32> {
        self.tracks@
    }

    /// A sequencer at rest, at 44100 frames a second.
    pub fn new() -> (r: TSeq)
        ensures
            r.at_rest(),
            r.srate() == RATE_44100,
    {
        TSeq { row: 0, srate: RATE_44100, phase: ZERO, tracks: TSeq::silent_tracks() }
    }

    fn silent_tracks() -> (r: [u32; TRACKS])
        ensures
            r@ == Seq::new(TRACKS as nat, |i: int| ZERO),
    {
        let r = [ZERO, ZERO, ZERO, ZERO, ZERO, ZERO];
        assert(r@ =~= Seq::new(TRACKS as nat, |i: int| ZERO));
        r
    }

    #[verifier::when_used_as_spec(spec_srate)]
    pub fn srate(&self) -> (r: u32)
        ensures
            r == self.spec_srate(),
    {
        self.srate
    }

    #[verifier::when_used_as_spec(spec_row)]
    pub fn row(&self) -> (r: usize)
        ensures
            r == self.spec_row(),
    {
        self.row
    }

    #[verifier::when_used_as_spec(spec_phase)]
    pub fn phase(&self) -> (r: u32)
        ensures
            r == self.spec_phase(),
    {
        self.phase
    }

    /// The sample last put on track `track`.
    pub fn track(&self, track: usize) -> (r: u32)
        requires
            track < TRACKS,
        ensures
            r == self.spec_tracks()[track as int],
    {
        self.tracks[track]
    }
}

impl DspNode for TSeq {
    open spec fn kind() -> NodeId {
        NodeId::TSeq(0)
    }

    /// The sequencer rests on row 0, at phase zero, with silent tracks.
    open spec fn at_rest(&self) -> bool {
        &&& self.spec_row() == 0
        &&& self.spec_phase() == ZERO
        &&& self.spec_tracks() == Seq::new(TRACKS as nat, |i: int| ZERO)
    }

    /// The sample rate that was last set.
    open spec fn sample_rate(&self) -> Option<u32> {
        Some(self.srate())
    }

    fn outputs() -> (n: usize) {
        TRACKS
    }

    fn set_sample_rate(&mut self, srate: u32)
        ensures
            final(self).srate() == srate,
            final(self).spec_row() == old(self).spec_row(),
            final(self).spec_phase() == old(self).spec_phase(),
            final(self).spec_tracks() == old(self).spec_tracks(),
    {
        self.srate = srate;
    }

    fn reset(&mut self)
        ensures
            final(self).srate() == old(self).srate(),
    {
        self.row = 0;
        self.phase = ZERO;
        self.tracks = TSeq::silent_tracks();
    }
}

} // verus!
