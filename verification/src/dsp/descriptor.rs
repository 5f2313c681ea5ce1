//! What the table of a kind says of each parameter and of each atom.

use vstd::prelude::*;
use crate::dsp::binary32::{CONCERT_PITCH, HALF, MINUS_ONE, ONE, SQRT_HALF, TWO, ZERO};
use crate::dsp::node_id::{NodeId, ParamId};
use crate::dsp::satom::{SAtom, SAtomView};

verus! {

/// The octaves that one unit of the normalized value spans on the pitch
/// curve: the pattern of 10.
pub const PITCH_OCTAVES: u32 = 0x4120_0000;

/// The least frequency that the pitch curve normalizes, any lower one
/// counting as this one: the pattern of 0.01.
pub const PITCH_FLOOR: u32 = 0x3c23_d70a;

/// The family of curves by which a continuous parameter is laid out
/// between its normalized and its physical range.
#[derive(Debug, Clone, Copy, PartialEq, Eq, Structural)]
pub enum ParamCurve {
    /// The physical value is the normalized one.
    Identity,
    /// Evenly between `min` and `max`.
    Linear { min: u32, max: u32 },
    /// Between `min` and `max` by the square of the normalized value.
    Exponential { min: u32, max: u32 },
    /// Between `min` and `max` by the fourth power of the normalized value.
    Quartic { min: u32, max: u32 },
    /// A frequency: `PITCH_OCTAVES` octaves to each side of `CONCERT_PITCH`,
    /// and never below `PITCH_FLOOR`.
    Pitch,
}

/// The row of a continuous parameter.
#[derive(Debug, Clone, Copy, PartialEq, Eq, Structural)]
pub struct ParamDesc {
    /// The curve between the normalized and the physical range.
    pub curve: ParamCurve,
    /// The least normalized value.
    pub min: u32,
    /// The greatest normalized value.
    pub max: u32,
    /// The default, as a physical value.
    pub default: u32,
    /// The default, normalized.
    pub norm_default: u32,
}

/// The row of an atom.
#[derive(Debug, Clone, Copy, PartialEq, Eq, Structural)]
pub struct AtomDesc {
    /// The least setting.
    pub min: i64,
    /// The greatest setting.
    pub max: i64,
    /// The setting of a fresh node.
    pub default: i64,
}

impl NodeId {
    /// The row of continuous parameter `idx`.
    pub open spec fn param_row(self, idx: int) -> ParamDesc {
        let ident_bipolar = ParamDesc {
            curve: ParamCurve::Identity,
            min: MINUS_ONE,
            max: ONE,
            default: ZERO,
            norm_default: ZERO,
        };
        match self {
            NodeId::Amp(_) => if idx == 0 {
                ident_bipolar
            } else if idx == 1 {
                ParamDesc {
                    curve: ParamCurve::Exponential { min: ZERO, max: TWO },
                    min: ZERO,
                    max: ONE,
                    default: ONE,
                    norm_default: SQRT_HALF,
                }
            } else {
                ParamDesc {
                    curve: ParamCurve::Exponential { min: ZERO, max: ONE },
                    min: ZERO,
                    max: ONE,
                    default: ONE,
                    norm_default: ONE,
                }
            },
            NodeId::TSeq(_) => ParamDesc {
                curve: ParamCurve::Identity,
                min: ZERO,
                max: ONE,
                default: ZERO,
                norm_default: ZERO,
            },
            NodeId::Sin(_) => ParamDesc {
                curve: ParamCurve::Pitch,
                min: MINUS_ONE,
                max: ONE,
                default: CONCERT_PITCH,
                norm_default: ZERO,
            },
            NodeId::Test(_) => ParamDesc {
                curve: ParamCurve::Identity,
                min: ZERO,
                max: ONE,
                default: HALF,
                norm_default: HALF,
            },
            _ => ident_bipolar,
        }
    }

    /// The row of atom `idx`, counted among the atoms alone.
    pub open spec fn atom_row(self, idx: int) -> AtomDesc {
        match self {
            NodeId::Amp(_) => AtomDesc { min: 0, max: 1, default: 1 },
            NodeId::TSeq(_) => AtomDesc { min: 0, max: 1, default: 1 },
            NodeId::Test(_) => AtomDesc { min: 0, max: 10, default: 0 },
            _ => AtomDesc { min: 0, max: 1, default: 0 },
        }
    }

    /// The labels by which the settings of atom `idx` are shown, from
    /// setting 0 on.
    pub open spec fn atom_labels(self, idx: int) -> Seq<&'static str> {
        match self {
            NodeId::Nop => seq![],
            NodeId::Amp(_) => seq!["Allow", "Clip"],
            NodeId::TSeq(_) => seq!["RowTrig", "PatTrig", "PatPhase", "RowPhase"],
            NodeId::Sin(_) => seq![],
            NodeId::Out(_) => seq!["Mono", "Stereo"],
            NodeId::Test(_) => seq![
                "Zero",
                "One",
                "Two",
                "Three",
                "Four",
                "Five",
                "Six",
                "Seven",
                "Eigth",
                "Nine",
                "Ten",
            ],
        }
    }

    /// The row of continuous parameter `idx`, if the kind has one there.
    pub fn param_desc(&self, idx: usize) -> (r: Option<ParamDesc>)
        ensures
            r == (if idx < self.param_names().len() {
                Some(self.param_row(idx as int))
            } else {
                None
            }),
    {
        if idx >= self.param_count() {
            return None;
        }
        let ident_bipolar = ParamDesc {
            curve: ParamCurve::Identity,
            min: MINUS_ONE,
            max: ONE,
            default: ZERO,
            norm_default: ZERO,
        };
        Some(
            match self {
                NodeId::Amp(_) => if idx == 0 {
                    ident_bipolar
                } else if idx == 1 {
                    ParamDesc {
                        curve: ParamCurve::Exponential { min: ZERO, max: TWO },
                        min: ZERO,
                        max: ONE,
                        default: ONE,
                        norm_default: SQRT_HALF,
                    }
                } else {
                    ParamDesc {
                        curve: ParamCurve::Exponential { min: ZERO, max: ONE },
                        min: ZERO,
                        max: ONE,
                        default: ONE,
                        norm_default: ONE,
                    }
                },
                NodeId::TSeq(_) => ParamDesc {
                    curve: ParamCurve::Identity,
                    min: ZERO,
                    max: ONE,
                    default: ZERO,
                    norm_default: ZERO,
                },
                NodeId::Sin(_) => ParamDesc {
                    curve: ParamCurve::Pitch,
                    min: MINUS_ONE,
                    max: ONE,
                    default: CONCERT_PITCH,
                    norm_default: ZERO,
                },
                NodeId::Test(_) => ParamDesc {
                    curve: ParamCurve::Identity,
                    min: ZERO,
                    max: ONE,
                    default: HALF,
                    norm_default: HALF,
                },
                _ => ident_bipolar,
            },
        )
    }

    /// The row of atom `idx`, counted among the atoms alone, if the kind
    /// has one there.
    pub fn atom_desc(&self, idx: usize) -> (r: Option<AtomDesc>)
        ensures
            r == (if idx < self.atom_names().len() {
                Some(self.atom_row(idx as int))
            } else {
                None
            }),
    {
        if idx >= self.atom_count() {
            return None;
        }
        Some(
            match self {
                NodeId::Amp(_) => AtomDesc { min: 0, max: 1, default: 1 },
                NodeId::TSeq(_) => AtomDesc { min: 0, max: 1, default: 1 },
                NodeId::Test(_) => AtomDesc { min: 0, max: 10, default: 0 },
                _ => AtomDesc { min: 0, max: 1, default: 0 },
            },
        )
    }

    /// The label of setting `lbl_idx` of atom `idx`, if both exist.
    pub fn atom_label(&self, idx: usize, lbl_idx: usize) -> (r: Option<&'static str>)
        ensures
            r == (if idx < self.atom_names().len() && lbl_idx < self.atom_labels(idx as int).len() {
                Some(self.atom_labels(idx as int)[lbl_idx as int])
            } else {
                None
            }),
    {
        if idx >= self.atom_count() {
            return None;
        }
        match self {
            NodeId::Nop => None,
            NodeId::Amp(_) => match lbl_idx {
                0 => Some("Allow"),
                1 => Some("Clip"),
                _ => None,
            },
            NodeId::TSeq(_) => match lbl_idx {
                0 => Some("RowTrig"),
                1 => Some("PatTrig"),
                2 => Some("PatPhase"),
                3 => Some("RowPhase"),
                _ => None,
            },
            NodeId::Sin(_) => None,
            NodeId::Out(_) => match lbl_idx {
                0 => Some("Mono"),
                1 => Some("Stereo"),
                _ => None,
            },
            NodeId::Test(_) => match lbl_idx {
                0 => Some("Zero"),
                1 => Some("One"),
                2 => Some("Two"),
                3 => Some("Three"),
                4 => Some("Four"),
                5 => Some("Five"),
                6 => Some("Six"),
                7 => Some("Seven"),
                8 => Some("Eigth"),
                9 => Some("Nine"),
                10 => Some("Ten"),
                _ => None,
            },
        }
    }
}

impl ParamId {
    /// The place of the slot among the atoms of its kind, for a slot that
    /// is an atom.
    pub open spec fn atom_index(&self) -> int {
        self.inp() - self.node_id().param_names().len()
    }

    /// The curve of the slot; none for an atom.
    pub fn curve(&self) -> (r: Option<ParamCurve>)
        ensures
            r == (if self.is_atom() {
                None
            } else {
                Some(self.node_id().param_row(self.inp() as int).curve)
            }),
    {
        proof {
            use_type_invariant(self);
        }
        match self.node_id().param_desc(self.inp() as usize) {
            Some(d) => Some(d.curve),
            None => None,
        }
    }

    /// The least and the greatest normalized value of the slot; none for
    /// an atom.
    pub fn param_min_max(&self) -> (r: Option<(u32, u32)>)
        ensures
            r == (if self.is_atom() {
                None
            } else {
                let row = self.node_id().param_row(self.inp() as int);
                Some((row.min, row.max))
            }),
    {
        proof {
            use_type_invariant(self);
        }
        match self.node_id().param_desc(self.inp() as usize) {
            Some(d) => Some((d.min, d.max)),
            None => None,
        }
    }

    /// The label of setting `lbl_idx`, for an atom that has that many.
    pub fn setting_lbl(&self, lbl_idx: usize) -> (r: Option<&'static str>)
        ensures
            r == (if self.is_atom() && lbl_idx < self.node_id().atom_labels(
                self.atom_index(),
            ).len() {
                Some(self.node_id().atom_labels(self.atom_index())[lbl_idx as int])
            } else {
                None
            }),
    {
        proof {
            use_type_invariant(self);
        }
        let node = self.node_id();
        let n = node.param_count();
        let i = self.inp() as usize;
        if i < n {
            None
        } else {
            node.atom_label(i - n, lbl_idx)
        }
    }

    /// The least and the greatest setting of the slot; none for a
    /// continuous parameter.
    pub fn setting_min_max(&self) -> (r: Option<(i64, i64)>)
        ensures
            r == (if self.is_atom() {
                let row = self.node_id().atom_row(self.atom_index());
                Some((row.min, row.max))
            } else {
                None
            }),
    {
        proof {
            use_type_invariant(self);
        }
        let node = self.node_id();
        let n = node.param_count();
        let i = self.inp() as usize;
        if i < n {
            None
        } else {
            match node.atom_desc(i - n) {
                Some(d) => Some((d.min, d.max)),
                None => None,
            }
        }
    }

    /// The normalized default of the slot; positive zero for an atom.
    pub fn norm_def(&self) -> (r: u32)
        ensures
            r == (if self.is_atom() {
                ZERO
            } else {
                self.node_id().param_row(self.inp() as int).norm_default
            }),
    {
        proof {
            use_type_invariant(self);
        }
        match self.node_id().param_desc(self.inp() as usize) {
            Some(d) => d.norm_default,
            None => ZERO,
        }
    }

    /// The value that the slot holds in a fresh node: the default setting
    /// of an atom, the normalized default of a continuous parameter.
    pub fn as_atom_def(&self) -> (r: SAtom)
        ensures
            r@ == (if self.is_atom() {
                SAtomView::Setting(self.node_id().atom_row(self.atom_index()).default)
            } else {
                SAtomView::Param(self.node_id().param_row(self.inp() as int).norm_default)
            }),
    {
        proof {
            use_type_invariant(self);
        }
        let node = self.node_id();
        let n = node.param_count();
        let i = self.inp() as usize;
        if i < n {
            SAtom::param(self.norm_def())
        } else {
            match node.atom_desc(i - n) {
                Some(d) => SAtom::setting(d.default),
                None => SAtom::param(ZERO),
            }
        }
    }
}

} // verus!
