//! What a kind tells a user interface about itself.

use vstd::prelude::*;
use crate::dsp::node_id::NodeId;

verus! {

impl NodeId {
    /// The help texts of the shared index space: the parameters, then the atoms.
    pub open spec fn input_help(self) -> Seq<&'static str> {
        match self {
            NodeId::Nop => seq![],
            NodeId::Amp(_) => seq![
                "Amp inp\nSignal input\nRange: (-1..1)\n",
                "Amp gain\nGain of the input; it can amplify the signal.\nRange: (0..1)\n",
                "Amp att\nAttenuation of the input; it can only lower the signal.\nRange: (0..1)\n",
                "Amp neg_att\nWhether a negative attenuation is allowed or clipped.\n",
            ],
            NodeId::TSeq(_) => seq![
                "TSeq clock\nClock input\nRange: (0..1)\n",
                "TSeq cmode\nHow the clock input drives the sequence.\n",
            ],
            NodeId::Sin(_) => seq!["Sin freq\nFrequency of the oscillator.\n\nRange: (-1..1)\n"],
            NodeId::Out(_) => seq![
                "Out ch1\nAudio channel 1 (left)\nRange: (-1..1)",
                "Out ch2\nAudio channel 2 (right)\nRange: (-1..1)",
                "Out mono\nIf enabled, ch1 will be sent to both output channels\n(UI only)",
            ],
            NodeId::Test(_) => seq![
                "Test f\nA continuous parameter for tests\nRange: (0..1)\n",
                "Test s\nA setting for tests\n",
            ],
        }
    }

    /// The help texts of the outputs, in index order.
    pub open spec fn output_help(self) -> Seq<&'static str> {
        match self {
            NodeId::Nop => seq![],
            NodeId::Amp(_) => seq!["Amp sig\nAmplified signal output\nRange: (-1..1)\n"],
            NodeId::TSeq(_) => seq![
                "TSeq trk1\nTrack 1 signal output\nRange: (-1..1)\n",
                "TSeq trk2\nTrack 2 signal output\nRange: (-1..1)\n",
                "TSeq trk3\nTrack 3 signal output\nRange: (-1..1)\n",
                "TSeq trk4\nTrack 4 signal output\nRange: (-1..1)\n",
                "TSeq trk5\nTrack 5 signal output\nRange: (-1..1)\n",
                "TSeq trk6\nTrack 6 signal output\nRange: (-1..1)\n",
            ],
            NodeId::Sin(_) => seq!["Sin sig\nOscillator signal output.\n\nRange: (-1..1)\n"],
            NodeId::Out(_) => seq![],
            NodeId::Test(_) => seq![],
        }
    }

    /// The help text of slot `idx` of the shared index space.
    pub fn slot_help(&self, idx: usize) -> (r: Option<&'static str>)
        ensures
            self.input_help().len() == self.slot_names().len(),
            r == (if idx < self.input_help().len() {
                Some(self.input_help()[idx as int])
            } else {
                None
            }),
    {
        match self {
            NodeId::Nop => None,
            NodeId::Amp(_) => match idx {
                0 => Some("Amp inp\nSignal input\nRange: (-1..1)\n"),
                1 => Some("Amp gain\nGain of the input; it can amplify the signal.\nRange: (0..1)\n"),
                2 => Some(
                    "Amp att\nAttenuation of the input; it can only lower the signal.\nRange: (0..1)\n",
                ),
                3 => Some("Amp neg_att\nWhether a negative attenuation is allowed or clipped.\n"),
                _ => None,
            },
            NodeId::TSeq(_) => match idx {
                0 => Some("TSeq clock\nClock input\nRange: (0..1)\n"),
                1 => Some("TSeq cmode\nHow the clock input drives the sequence.\n"),
                _ => None,
            },
            NodeId::Sin(_) => match idx {
                0 => Some("Sin freq\nFrequency of the oscillator.\n\nRange: (-1..1)\n"),
                _ => None,
            },
            NodeId::Out(_) => match idx {
                0 => Some("Out ch1\nAudio channel 1 (left)\nRange: (-1..1)"),
                1 => Some("Out ch2\nAudio channel 2 (right)\nRange: (-1..1)"),
                2 => Some("Out mono\nIf enabled, ch1 will be sent to both output channels\n(UI only)"),
                _ => None,
            },
            NodeId::Test(_) => match idx {
                0 => Some("Test f\nA continuous parameter for tests\nRange: (0..1)\n"),
                1 => Some("Test s\nA setting for tests\n"),
                _ => None,
            },
        }
    }

    /// The help text of output `idx`.
    pub fn out_help(&self, idx: usize) -> (r: Option<&'static str>)
        ensures
            self.output_help().len() == self.output_names().len(),
            r == (if idx < self.output_help().len() {
                Some(self.output_help()[idx as int])
            } else {
                None
            }),
    {
        match self {
            NodeId::Nop => None,
            NodeId::Amp(_) => match idx {
                0 => Some("Amp sig\nAmplified signal output\nRange: (-1..1)\n"),
                _ => None,
            },
            NodeId::TSeq(_) => match idx {
                0 => Some("TSeq trk1\nTrack 1 signal output\nRange: (-1..1)\n"),
                1 => Some("TSeq trk2\nTrack 2 signal output\nRange: (-1..1)\n"),
                2 => Some("TSeq trk3\nTrack 3 signal output\nRange: (-1..1)\n"),
                3 => Some("TSeq trk4\nTrack 4 signal output\nRange: (-1..1)\n"),
                4 => Some("TSeq trk5\nTrack 5 signal output\nRange: (-1..1)\n"),
                5 => Some("TSeq trk6\nTrack 6 signal output\nRange: (-1..1)\n"),
                _ => None,
            },
            NodeId::Sin(_) => match idx {
                0 => Some("Sin sig\nOscillator signal output.\n\nRange: (-1..1)\n"),
                _ => None,
            },
            NodeId::Out(_) => None,
            NodeId::Test(_) => None,
        }
    }
}

/// The names and help texts of one kind, laid out for a user interface,
/// together with the node that they were looked up for.
///
/// The five lists are those of the kind's table and never change.
#[derive(Debug)]
pub struct NodeInfo {
    id: NodeId,
    inputs: Vec<&'static str>,
    atoms: Vec<&'static str>,
    outputs: Vec<&'static str>,
    input_help: Vec<&'static str>,
    output_help: Vec<&'static str>,
}

/// Which of the lists of a kind to lay out.
#[derive(Clone, Copy)]
enum Column {
    Inputs,
    Atoms,
    Outputs,
    InputHelp,
    OutputHelp,
}

impl NodeId {
    spec fn column(self, c: Column) -> Seq<&'static str> {
        match c {
            Column::Inputs => self.param_names(),
            Column::Atoms => self.atom_names(),
            Column::Outputs => self.output_names(),
            Column::InputHelp => self.input_help(),
            Column::OutputHelp => self.output_help(),
        }
    }

    fn column_entry(&self, c: Column, idx: usize) -> (r: Option<&'static str>)
        ensures
            r == (if idx < self.column(c).len() {
                Some(self.column(c)[idx as int])
            } else {
                None
            }),
            self.column(c).len() <= 8,
    {
        match c {
            Column::Inputs => self.param_name(idx),
            Column::Atoms => self.atom_name(idx),
            Column::Outputs => self.output_name(idx),
            Column::InputHelp => self.slot_help(idx),
            Column::OutputHelp => self.out_help(idx),
        }
    }

    fn lay_out(&self, c: Column) -> (v: Vec<&'static str>)
        ensures
            v@ == self.column(c),
    {
        let mut v: Vec<&'static str> = Vec::new();
        let mut i: usize = 0;
        loop
            invariant
                i == v@.len(),
                i <= self.column(c).len(),
                forall|j: int| 0 <= j < i ==> v@[j] == self.column(c)[j],
            decreases 8 - i,
        {
            match self.column_entry(c, i) {
                Some(s) => {
                    v.push(s);
                },
                None => {
                    assert(v@ =~= self.column(c));
                    return v;
                },
            }
            i += 1;
        }
    }
}

impl Clone for NodeInfo {
    /// The information on the same kind, for the same node.
    fn clone(&self) -> (r: NodeInfo)
        ensures
            r.to_id() == self.to_id(),
    {
        NodeInfo::from_node_id(self.id)
    }
}

impl NodeInfo {
    /// The node that the lists were looked up for.
    pub closed spec fn spec_to_id(&self) -> NodeId {
        self.id
    }

    /// The five lists are those of the table of the kind.
    #[verifier::type_invariant]
    closed spec fn wf(&self) -> bool {
        &&& self.inputs@ == self.id.param_names()
        &&& self.atoms@ == self.id.atom_names()
        &&& self.outputs@ == self.id.output_names()
        &&& self.input_help@ == self.id.input_help()
        &&& self.output_help@ == self.id.output_help()
    }

    /// The name that `in_name` reports at `idx`: that of the continuous
    /// parameter there, else that of the atom whose atom index is `idx`.
    pub open spec fn spec_in_name(&self, idx: int) -> Option<&'static str> {
        let node = self.to_id();
        if 0 <= idx < node.param_names().len() {
            Some(node.param_names()[idx])
        } else if 0 <= idx < node.atom_names().len() {
            Some(node.atom_names()[idx])
        } else {
            None
        }
    }

    /// The name that `at_name` reports at `idx`.
    pub open spec fn spec_at_name(&self, idx: int) -> Option<&'static str> {
        let node = self.to_id();
        if 0 <= idx < node.atom_names().len() {
            Some(node.atom_names()[idx])
        } else {
            None
        }
    }

    /// The name that `out_name` reports at `idx`.
    pub open spec fn spec_out_name(&self, idx: int) -> Option<&'static str> {
        let node = self.to_id();
        if 0 <= idx < node.output_names().len() {
            Some(node.output_names()[idx])
        } else {
            None
        }
    }

    /// The names that `in_name` reports at one place or another.
    pub open spec fn in_names(&self) -> Set<&'static str> {
        Set::new(|s: &'static str| exists|i: int| self.spec_in_name(i) == Some(s))
    }

    /// The names that `at_name` reports at one place or another.
    pub open spec fn at_names(&self) -> Set<&'static str> {
        Set::new(|s: &'static str| exists|i: int| self.spec_at_name(i) == Some(s))
    }

    /// The names that `out_name` reports at one place or another.
    pub open spec fn out_names(&self) -> Set<&'static str> {
        Set::new(|s: &'static str| exists|i: int| self.spec_out_name(i) == Some(s))
    }

    /// The information on the kind of `nid`, for `nid`.
    pub fn from_node_id(nid: NodeId) -> (r: NodeInfo)
        ensures
            r.to_id() == nid,
    {
        NodeInfo {
            id: nid,
            inputs: nid.lay_out(Column::Inputs),
            atoms: nid.lay_out(Column::Atoms),
            outputs: nid.lay_out(Column::Outputs),
            input_help: nid.lay_out(Column::InputHelp),
            output_help: nid.lay_out(Column::OutputHelp),
        }
    }

    /// The information on the kind that `s` names, for its instance 0;
    /// that on the placeholder kind where `s` names none.
    pub fn from(s: &str) -> (r: NodeInfo)
        ensures
            r.to_id() == NodeId::by_name(s@),
    {
        NodeInfo::from_node_id(NodeId::from_str(s))
    }

    /// The node that the information was looked up for.
    #[verifier::when_used_as_spec(spec_to_id)]
    pub fn to_id(&self) -> (r: NodeId)
        ensures
            r == self.spec_to_id(),
    {
        self.id
    }

    /// The name of continuous parameter `idx`; past the parameters, the
    /// name of the atom whose atom index is `idx`.
    pub fn in_name(&self, idx: usize) -> (r: Option<&'static str>)
        ensures
            r == self.spec_in_name(idx as int),
    {
        proof {
            use_type_invariant(self);
        }
        if idx < self.inputs.len() {
            Some(self.inputs[idx])
        } else if idx < self.atoms.len() {
            Some(self.atoms[idx])
        } else {
            None
        }
    }

    /// The name of atom `idx`, counted among the atoms alone.
    pub fn at_name(&self, idx: usize) -> (r: Option<&'static str>)
        ensures
            r == self.spec_at_name(idx as int),
    {
        proof {
            use_type_invariant(self);
        }
        if idx < self.atoms.len() {
            Some(self.atoms[idx])
        } else {
            None
        }
    }

    /// The name of output `idx`.
    pub fn out_name(&self, idx: usize) -> (r: Option<&'static str>)
        ensures
            r == self.spec_out_name(idx as int),
    {
        proof {
            use_type_invariant(self);
        }
        if idx < self.outputs.len() {
            Some(self.outputs[idx])
        } else {
            None
        }
    }

    /// The help text of slot `idx` of the shared index space.
    pub fn in_help(&self, idx: usize) -> (r: Option<&'static str>)
        ensures
            r == (if idx < self.to_id().input_help().len() {
                Some(self.to_id().input_help()[idx as int])
            } else {
                None
            }),
    {
        proof {
            use_type_invariant(self);
        }
        if idx < self.input_help.len() {
            Some(self.input_help[idx])
        } else {
            None
        }
    }

    /// The help text of output `idx`.
    pub fn out_help(&self, idx: usize) -> (r: Option<&'static str>)
        ensures
            r == (if idx < self.to_id().output_help().len() {
                Some(self.to_id().output_help()[idx as int])
            } else {
                None
            }),
    {
        proof {
            use_type_invariant(self);
        }
        if idx < self.output_help.len() {
            Some(self.output_help[idx])
        } else {
            None
        }
    }

    /// The number of atoms.
    pub fn at_count(&self) -> (n: usize)
        ensures
            n == self.to_id().atom_names().len(),
    {
        proof {
            use_type_invariant(self);
        }
        self.atoms.len()
    }

    /// The number of continuous parameters.
    pub fn in_count(&self) -> (n: usize)
        ensures
            n == self.to_id().param_names().len(),
    {
        proof {
            use_type_invariant(self);
        }
        self.inputs.len()
    }

    /// The number of outputs.
    pub fn out_count(&self) -> (n: usize)
        ensures
            n == self.to_id().output_names().len(),
    {
        proof {
            use_type_invariant(self);
        }
        self.outputs.len()
    }
}

impl NodeId {
    /// Instance 0 of the kind that `ni` informs on.
    pub fn from_node_info(ni: &NodeInfo) -> (r: NodeId)
        ensures
            r == ni.to_id().with_instance(0),
    {
        ni.to_id().to_instance(0)
    }
}

/// Within each list of a kind no name occurs twice, and no kind has more
/// atoms than continuous parameters.
pub proof fn lemma_names_distinct(node: NodeId)
    ensures
        node.param_names().no_duplicates(),
        node.atom_names().no_duplicates(),
        node.output_names().no_duplicates(),
        node.slot_names().no_duplicates(),
        node.atom_names().len() <= node.param_names().len(),
{
    reveal_strlit("inp");
    reveal_strlit("gain");
    reveal_strlit("att");
    reveal_strlit("neg_att");
    reveal_strlit("clock");
    reveal_strlit("cmode");
    reveal_strlit("freq");
    reveal_strlit("ch1");
    reveal_strlit("ch2");
    reveal_strlit("mono");
    reveal_strlit("f");
    reveal_strlit("s");
    reveal_strlit("trk1");
    reveal_strlit("trk2");
    reveal_strlit("trk3");
    reveal_strlit("trk4");
    reveal_strlit("trk5");
    reveal_strlit("trk6");
    assert("ch1"@[2] != "ch2"@[2]);
    assert("clock"@[1] != "cmode"@[1]);
    assert("f"@[0] != "s"@[0]);
    assert("trk1"@[3] == '1');
    assert("trk2"@[3] == '2');
    assert("trk3"@[3] == '3');
    assert("trk4"@[3] == '4');
    assert("trk5"@[3] == '5');
    assert("trk6"@[3] == '6');
    assert(node.slot_names() =~= match node {
        NodeId::Nop => seq![],
        NodeId::Amp(_) => seq!["inp", "gain", "att", "neg_att"],
        NodeId::TSeq(_) => seq!["clock", "cmode"],
        NodeId::Sin(_) => seq!["freq"],
        NodeId::Out(_) => seq!["ch1", "ch2", "mono"],
        NodeId::Test(_) => seq!["f", "s"],
    });
}

/// The counts of a kind are the numbers of distinct names that its name
/// lookups report: `in_name` reports as many names as the kind has
/// continuous parameters, `at_name` as many as it has atoms, and `out_name`
/// as many as it has outputs.
pub proof fn lemma_counts_match_names(info: NodeInfo)
    ensures
        info.in_names().finite(),
        info.in_names().len() == info.to_id().param_names().len(),
        info.at_names().finite(),
        info.at_names().len() == info.to_id().atom_names().len(),
        info.out_names().finite(),
        info.out_names().len() == info.to_id().output_names().len(),
{
    let node = info.to_id();
    lemma_names_distinct(node);
    let params = node.param_names();
    let atoms = node.atom_names();
    let outputs = node.output_names();
    assert forall|s: &'static str| info.in_names().contains(s) <==> params.to_set().contains(
        s,
    ) by {
        if info.in_names().contains(s) {
            let i = choose|i: int| info.spec_in_name(i) == Some(s);
            if !(0 <= i < params.len()) {
                assert(atoms.len() <= params.len());
            }
            assert(params[i] == s);
        }
        if params.to_set().contains(s) {
            let i = choose|i: int| 0 <= i < params.len() && params[i] == s;
            assert(info.spec_in_name(i) == Some(s));
        }
    }
    assert(info.in_names() =~= params.to_set());
    params.unique_seq_to_set();
    assert forall|s: &'static str| info.at_names().contains(s) <==> atoms.to_set().contains(
        s,
    ) by {
        if info.at_names().contains(s) {
            let i = choose|i: int| info.spec_at_name(i) == Some(s);
            assert(atoms[i] == s);
        }
        if atoms.to_set().contains(s) {
            let i = choose|i: int| 0 <= i < atoms.len() && atoms[i] == s;
            assert(info.spec_at_name(i) == Some(s));
        }
    }
    assert(info.at_names() =~= atoms.to_set());
    atoms.unique_seq_to_set();
    assert forall|s: &'static str| info.out_names().contains(s) <==> outputs.to_set().contains(
        s,
    ) by {
        if info.out_names().contains(s) {
            let i = choose|i: int| info.spec_out_name(i) == Some(s);
            assert(outputs[i] == s);
        }
        if outputs.to_set().contains(s) {
            let i = choose|i: int| 0 <= i < outputs.len() && outputs[i] == s;
            assert(info.spec_out_name(i) == Some(s));
        }
    }
    assert(info.out_names() =~= outputs.to_set());
    outputs.unique_seq_to_set();
}

} // verus!
