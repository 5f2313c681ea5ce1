//! The DSP layer: buffers, configuration values, the closed set of node
//! kinds with their parameter tables, and the nodes themselves.

pub mod binary32;
pub mod context;
pub mod descriptor;
pub mod dsp_node;
pub mod node;
pub mod node_amp;
pub mod node_id;
pub mod node_info;
pub mod node_out;
pub mod node_sin;
pub mod node_tseq;
pub mod procbuf;
pub mod satom;
pub mod text;
pub mod ui;

pub use context::{NodeAudioContext, StereoBlock};
pub use descriptor::{AtomDesc, ParamCurve, ParamDesc, PITCH_FLOOR, PITCH_OCTAVES};
pub use dsp_node::DspNode;
pub use node::{node_factory, Node};
pub use node_amp::Amp;
pub use node_id::{NodeId, ParamId, Slot};
pub use node_info::NodeInfo;
pub use node_out::Out;
pub use node_sin::Sin;
pub use node_test::Test;
pub use node_tseq::TSeq;
pub use procbuf::{ProcBuf, MAX_BLOCK_SIZE};
pub use satom::{SAtom, SAtomView};
pub use ui::{UICategory, UIType};
