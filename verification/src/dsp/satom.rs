//! The values that configure a node without being smoothed.

use vstd::prelude::*;
use std::sync::Arc;
use crate::dsp::binary32::{from_i64, nearest, to_i64, truncated};

verus! {

/// A configuration value of a node.
#[derive(Debug)]
pub enum SAtom {
    /// A text.
    Str(String),
    /// A snippet of eight samples.
    MicroSample([u32; 8]),
    /// A named audio sample, shared with its other users, and absent until
    /// it is loaded.
    AudioSample((String, Option<Arc<Vec<u32>>>)),
    /// A discrete setting.
    Setting(i64),
    /// A scalar parameter.
    Param(u32),
}

/// What a configuration value holds.
pub enum SAtomView {
    Str(Seq<char>),
    MicroSample(Seq<u32>),
    AudioSample(Seq<char>, Option<Seq<u32>>),
    Setting(i64),
    Param(u32),
}

impl SAtomView {
    /// The empty value of the same variant.
    pub open spec fn default_of(self) -> SAtomView {
        match self {
            SAtomView::Str(_) => SAtomView::Str(Seq::empty()),
            SAtomView::MicroSample(_) => SAtomView::MicroSample(Seq::new(8, |i: int| 0u32)),
            SAtomView::AudioSample(_, _) => SAtomView::AudioSample(Seq::empty(), None),
            SAtomView::Setting(_) => SAtomView::Setting(0),
            SAtomView::Param(_) => SAtomView::Param(0),
        }
    }

    /// The value as a whole number: a setting as it is, a parameter
    /// rounded toward zero, anything else zero.
    pub open spec fn i(self) -> i64 {
        match self {
            SAtomView::Setting(i) => i,
            SAtomView::Param(p) => truncated(p),
            _ => 0,
        }
    }

    /// The value as a sample: a parameter as it is, a setting rounded to
    /// the nearest sample, anything else positive zero.
    pub open spec fn f(self) -> u32 {
        match self {
            SAtomView::Setting(i) => nearest(i as int),
            SAtomView::Param(p) => p,
            _ => 0,
        }
    }
}

impl View for SAtom {
    type V = SAtomView;

    open spec fn view(&self) -> SAtomView {
        match self {
            SAtom::Str(s) => SAtomView::Str(s@),
            SAtom::MicroSample(m) => SAtomView::MicroSample(m@),
            SAtom::AudioSample((name, data)) => SAtomView::AudioSample(
                name@,
                match data {
                    Some(d) => Some(d@),
                    None => None,
                },
            ),
            SAtom::Setting(i) => SAtomView::Setting(*i),
            SAtom::Param(p) => SAtomView::Param(*p),
        }
    }
}

impl Clone for SAtom {
    /// A copy that holds the same; an audio sample stays shared.
    fn clone(&self) -> (r: SAtom)
        ensures
            r@ == self@,
    {
        match self {
            SAtom::Str(s) => SAtom::Str(s.clone()),
            SAtom::MicroSample(m) => SAtom::MicroSample(*m),
            SAtom::AudioSample((name, data)) => {
                let shared = match data {
                    Some(d) => Some(d.clone()),
                    None => None,
                };
                SAtom::AudioSample((name.clone(), shared))
            },
            SAtom::Setting(i) => SAtom::Setting(*i),
            SAtom::Param(p) => SAtom::Param(*p),
        }
    }
}

impl SAtom {
    pub fn str(s: &str) -> (r: SAtom)
        ensures
            r@ == SAtomView::Str(s@),
    {
        SAtom::Str(s.to_owned())
    }

    pub fn setting(s: i64) -> (r: SAtom)
        ensures
            r@ == SAtomView::Setting(s),
    {
        SAtom::Setting(s)
    }

    pub fn param(p: u32) -> (r: SAtom)
        ensures
            r@ == SAtomView::Param(p),
    {
        SAtom::Param(p)
    }

    pub fn micro(m: &[u32; 8]) -> (r: SAtom)
        ensures
            r@ == SAtomView::MicroSample(m@),
    {
        SAtom::MicroSample(*m)
    }

    pub fn audio(s: &str, m: Arc<Vec<u32>>) -> (r: SAtom)
        ensures
            r@ == SAtomView::AudioSample(s@, Some(m@)),
    {
        SAtom::AudioSample((s.to_owned(), Some(m)))
    }

    pub fn audio_unloaded(s: &str) -> (r: SAtom)
        ensures
            r@ == SAtomView::AudioSample(s@, None),
    {
        SAtom::AudioSample((s.to_owned(), None))
    }

    /// The empty value of the same variant.
    pub fn default_of(&self) -> (r: SAtom)
        ensures
            r@ == self@.default_of(),
    {
        match self {
            SAtom::Str(_) => SAtom::Str(String::new()),
            SAtom::MicroSample(_) => {
                let m = [0u32, 0u32, 0u32, 0u32, 0u32, 0u32, 0u32, 0u32];
                assert(m@ =~= Seq::new(8, |i: int| 0u32));
                SAtom::MicroSample(m)
            },
            SAtom::AudioSample(_) => SAtom::AudioSample((String::new(), None)),
            SAtom::Setting(_) => SAtom::Setting(0),
            SAtom::Param(_) => SAtom::Param(0),
        }
    }

    /// Whether the value is a scalar parameter, the one variant that is
    /// smoothed.
    pub fn is_continous(&self) -> (r: bool)
        ensures
            r == (self@ is Param),
    {
        match self {
            SAtom::Param(_) => true,
            _ => false,
        }
    }

    /// The value as a whole number. A value that is neither a setting nor a
    /// parameter counts as zero.
    pub fn i(&self) -> (r: i64)
        ensures
            r == self@.i(),
    {
        match self {
            SAtom::Setting(i) => *i,
            SAtom::Param(p) => to_i64(*p),
            _ => 0,
        }
    }

    /// The value as a sample. A value that is neither a setting nor a
    /// parameter counts as positive zero.
    pub fn f(&self) -> (r: u32)
        ensures
            r == self@.f(),
    {
        match self {
            SAtom::Setting(i) => from_i64(*i),
            SAtom::Param(p) => *p,
            _ => 0,
        }
    }
}

impl From<u32> for SAtom {
    /// A sample as a scalar parameter.
    fn from(n: u32) -> (r: SAtom) {
        SAtom::Param(n)
    }
}

impl vstd::std_specs::convert::FromSpecImpl<u32> for SAtom {
    open spec fn obeys_from_spec() -> bool {
        true
    }

    open spec fn from_spec(n: u32) -> SAtom {
        SAtom::Param(n)
    }
}

} // verus!
