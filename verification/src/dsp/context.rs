//! The audio context of one block: how many frames it has, and the
//! physical output channels that a node may write.

use vstd::prelude::*;
use crate::dsp::procbuf::MAX_BLOCK_SIZE;

verus! {

/// What the host of the graph offers a node while it processes one block.
pub trait NodeAudioContext {
    /// The number of frames of the block.
    spec fn frames(&self) -> nat;

    /// The number of physical output channels.
    spec fn channels(&self) -> nat;

    /// The sample that output channel `channel` holds at `frame`.
    spec fn written(&self, channel: int, frame: int) -> u32;

    /// The number of frames of the block.
    fn nframes(&self) -> (n: usize)
        ensures
            n == self.frames(),
    ;

    /// Writes `v` to output channel `channel` at `frame`, and nothing else.
    fn output(&mut self, channel: usize, frame: usize, v: u32)
        requires
            channel < old(self).channels(),
            frame < old(self).frames(),
        ensures
            final(self).frames() == old(self).frames(),
            final(self).channels() == old(self).channels(),
            forall|c: int, f: int|
                #[trigger] final(self).written(c, f) == (if c == channel && f == frame {
                    v
                } else {
                    old(self).written(c, f)
                }),
    ;
}

/// A context with two output channels held in memory: the stereo output of
/// one block, as a host hands it on or as a test looks at it.
pub struct StereoBlock {
    frames: usize,
    left: [u32; MAX_BLOCK_SIZE],
    right: [u32; MAX_BLOCK_SIZE],
}

impl StereoBlock {
    #[verifier::type_invariant]
    closed spec fn wf(&self) -> bool {
        self.frames <= MAX_BLOCK_SIZE
    }

    /// A silent block of `nframes` frames.
    pub fn new(nframes: usize) -> (r: StereoBlock)
        requires
            nframes <= MAX_BLOCK_SIZE,
        ensures
            r.frames() == nframes,
            r.channels() == 2,
            forall|c: int, f: int| #[trigger] r.written(c, f) == 0,
    {
        let mut r = StereoBlock {
            frames: nframes,
            left: [0u32; MAX_BLOCK_SIZE],
            right: [0u32; MAX_BLOCK_SIZE],
        };
        let mut i: usize = 0;
        while i < MAX_BLOCK_SIZE
            invariant
                i <= MAX_BLOCK_SIZE,
                r.frames == nframes,
                nframes <= MAX_BLOCK_SIZE,
                forall|j: int| 0 <= j < i ==> r.left@[j] == 0 && r.right@[j] == 0,
            decreases MAX_BLOCK_SIZE - i,
        {
            r.left[i] = 0;
            r.right[i] = 0;
            i += 1;
        }
        r
    }

    /// The sample that channel `channel` holds at `frame`.
    pub fn sample(&self, channel: usize, frame: usize) -> (v: u32)
        ensures
            v == self.written(channel as int, frame as int),
    {
        if frame >= MAX_BLOCK_SIZE {
            0
        } else if channel == 0 {
            self.left[frame]
        } else if channel == 1 {
            self.right[frame]
        } else {
            0
        }
    }
}

impl NodeAudioContext for StereoBlock {
    closed spec fn frames(&self) -> nat {
        self.frames as nat
    }

    open spec fn channels(&self) -> nat {
        2
    }

    closed spec fn written(&self, channel: int, frame: int) -> u32 {
        if !(0 <= frame < MAX_BLOCK_SIZE) {
            0
        } else if channel == 0 {
            self.left@[frame]
        } else if channel == 1 {
            self.right@[frame]
        } else {
            0
        }
    }

    fn nframes(&self) -> (n: usize) {
        self.frames
    }

    fn output(&mut self, channel: usize, frame: usize, v: u32) {
        proof {
            use_type_invariant(&*self);
        }
        if channel == 0 {
            self.left[frame] = v;
        } else {
            self.right[frame] = v;
        }
    }
}

} // verus!
