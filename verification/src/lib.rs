//! Node-type registry and per-block signal buffers of a modular synthesizer.
//!
//! Samples and every other single-precision quantity are carried as their
//! IEEE-754 binary32 bit pattern in a `u32`: the library moves and stores
//! them, and the embedding program evaluates them.

pub mod dsp;
