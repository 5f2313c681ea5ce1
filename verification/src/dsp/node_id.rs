//! Addressing of node kinds and of their parameters.
//!
//! A [`NodeId`] names a kind and an instance of it. Each kind has a fixed
//! table: its continuous parameters, its atoms (discrete settings) and its
//! outputs, each in index order. Seen from outside, parameters and atoms
//! share one index space, the parameters first; a [`ParamId`] is a slot of
//! that space.

use vstd::prelude::*;
use vstd::string::StringExecFns;
use crate::dsp::text::{decimal, push_decimal, str_eq};
use crate::dsp::ui::{UICategory, UIType};

verus! {

/// A node kind together with the number of one instance of it.
#[derive(Debug, Clone, Copy, PartialOrd, PartialEq, Eq, Ord, Hash, Structural)]
pub enum NodeId {
    /// The placeholder of an unallocated slot: no parameters, no instance.
    Nop,
    Amp(u8),
    TSeq(u8),
    Sin(u8),
    Out(u8),
    Test(u8),
}

/// A slot in the shared parameter index space of one node.
#[derive(Debug, Clone, Copy, PartialOrd, PartialEq, Eq, Ord, Hash)]
pub struct ParamId {
    name: &'static str,
    node: NodeId,
    idx: u8,
}

/// Where a place of the shared index space leads in the split storage of a
/// running node.
#[derive(Debug, Clone, Copy, PartialEq, Eq, Structural)]
pub enum Slot {
    /// The continuous parameter of this index.
    Continuous(usize),
    /// The atom of this index, counted among the atoms alone.
    Atom(usize),
    /// Nothing: the kind has no such place.
    Invalid,
}

impl NodeId {
    /// The instance number; the placeholder kind has instance 0.
    pub open spec fn instance_of(self) -> u8 {
        match self {
            NodeId::Nop => 0,
            NodeId::Amp(i) => i,
            NodeId::TSeq(i) => i,
            NodeId::Sin(i) => i,
            NodeId::Out(i) => i,
            NodeId::Test(i) => i,
        }
    }

    /// The same kind with instance number `i`; the placeholder kind stays as it is.
    pub open spec fn with_instance(self, i: u8) -> NodeId {
        match self {
            NodeId::Nop => NodeId::Nop,
            NodeId::Amp(_) => NodeId::Amp(i),
            NodeId::TSeq(_) => NodeId::TSeq(i),
            NodeId::Sin(_) => NodeId::Sin(i),
            NodeId::Out(_) => NodeId::Out(i),
            NodeId::Test(_) => NodeId::Test(i),
        }
    }

    /// Whether both are of one kind, whatever their instances.
    pub open spec fn same_kind(self, other: NodeId) -> bool {
        self.with_instance(0) == other.with_instance(0)
    }

    /// The name of the kind.
    pub open spec fn kind_name(self) -> &'static str {
        match self {
            NodeId::Nop => "nop",
            NodeId::Amp(_) => "amp",
            NodeId::TSeq(_) => "tseq",
            NodeId::Sin(_) => "sin",
            NodeId::Out(_) => "out",
            NodeId::Test(_) => "test",
        }
    }

    /// The kind that `name` names, as instance 0; the placeholder kind for any other text.
    pub open spec fn by_name(name: Seq<char>) -> NodeId {
        if name == "amp"@ {
            NodeId::Amp(0)
        } else if name == "tseq"@ {
            NodeId::TSeq(0)
        } else if name == "sin"@ {
            NodeId::Sin(0)
        } else if name == "out"@ {
            NodeId::Out(0)
        } else if name == "test"@ {
            NodeId::Test(0)
        } else {
            NodeId::Nop
        }
    }

    /// The widget family of the kind.
    pub open spec fn ui_type_of(self) -> UIType {
        UIType::Generic
    }

    /// The palette section of the kind.
    pub open spec fn ui_category_of(self) -> UICategory {
        match self {
            NodeId::Nop => UICategory::Uncategorized,
            NodeId::Amp(_) => UICategory::Signal,
            NodeId::TSeq(_) => UICategory::CV,
            NodeId::Sin(_) => UICategory::Osc,
            NodeId::Out(_) => UICategory::IOUtil,
            NodeId::Test(_) => UICategory::IOUtil,
        }
    }

    /// The node in words: the name of the kind, and for any kind but the
    /// placeholder a blank and the instance number in decimal digits.
    pub open spec fn label(self) -> Seq<char> {
        match self {
            NodeId::Nop => self.kind_name()@,
            _ => self.kind_name()@ + seq![' '] + decimal(self.instance_of() as nat),
        }
    }

    /// The names of the continuous parameters, in index order.
    pub open spec fn param_names(self) -> Seq<&'static str> {
        match self {
            NodeId::Nop => seq![],
            NodeId::Amp(_) => seq!["inp", "gain", "att"],
            NodeId::TSeq(_) => seq!["clock"],
            NodeId::Sin(_) => seq!["freq"],
            NodeId::Out(_) => seq!["ch1", "ch2"],
            NodeId::Test(_) => seq!["f"],
        }
    }

    /// The names of the atoms, in atom index order.
    pub open spec fn atom_names(self) -> Seq<&'static str> {
        match self {
            NodeId::Nop => seq![],
            NodeId::Amp(_) => seq!["neg_att"],
            NodeId::TSeq(_) => seq!["cmode"],
            NodeId::Sin(_) => seq![],
            NodeId::Out(_) => seq!["mono"],
            NodeId::Test(_) => seq!["s"],
        }
    }

    /// The names of the outputs, in index order.
    pub open spec fn output_names(self) -> Seq<&'static str> {
        match self {
            NodeId::Nop => seq![],
            NodeId::Amp(_) => seq!["sig"],
            NodeId::TSeq(_) => seq!["trk1", "trk2", "trk3", "trk4", "trk5", "trk6"],
            NodeId::Sin(_) => seq!["sig"],
            NodeId::Out(_) => seq![],
            NodeId::Test(_) => seq![],
        }
    }

    /// The names of the shared index space: the parameters, then the atoms.
    pub open spec fn slot_names(self) -> Seq<&'static str> {
        self.param_names() + self.atom_names()
    }

    /// The number of continuous parameters of the kind.
    pub fn param_count(&self) -> (n: usize)
        ensures
            n == self.param_names().len(),
    {
        match self {
            NodeId::Nop => 0,
            NodeId::Amp(_) => 3,
            NodeId::TSeq(_) => 1,
            NodeId::Sin(_) => 1,
            NodeId::Out(_) => 2,
            NodeId::Test(_) => 1,
        }
    }

    /// The number of atoms of the kind.
    pub fn atom_count(&self) -> (n: usize)
        ensures
            n == self.atom_names().len(),
    {
        match self {
            NodeId::Nop => 0,
            NodeId::Amp(_) => 1,
            NodeId::TSeq(_) => 1,
            NodeId::Sin(_) => 0,
            NodeId::Out(_) => 1,
            NodeId::Test(_) => 1,
        }
    }

    /// The number of outputs of the kind.
    pub fn output_count(&self) -> (n: usize)
        ensures
            n == self.output_names().len(),
    {
        match self {
            NodeId::Nop => 0,
            NodeId::Amp(_) => 1,
            NodeId::TSeq(_) => 6,
            NodeId::Sin(_) => 1,
            NodeId::Out(_) => 0,
            NodeId::Test(_) => 0,
        }
    }

    /// The name of continuous parameter `idx`, if the kind has one there.
    pub fn param_name(&self, idx: usize) -> (r: Option<&'static str>)
        ensures
            r == (if idx < self.param_names().len() {
                Some(self.param_names()[idx as int])
            } else {
                None
            }),
    {
        match self {
            NodeId::Nop => None,
            NodeId::Amp(_) => match idx {
                0 => Some("inp"),
                1 => Some("gain"),
                2 => Some("att"),
                _ => None,
            },
            NodeId::TSeq(_) => match idx {
                0 => Some("clock"),
                _ => None,
            },
            NodeId::Sin(_) => match idx {
                0 => Some("freq"),
                _ => None,
            },
            NodeId::Out(_) => match idx {
                0 => Some("ch1"),
                1 => Some("ch2"),
                _ => None,
            },
            NodeId::Test(_) => match idx {
                0 => Some("f"),
                _ => None,
            },
        }
    }

    /// The name of atom `idx`, counted among the atoms alone, if the kind has one there.
    pub fn atom_name(&self, idx: usize) -> (r: Option<&'static str>)
        ensures
            r == (if idx < self.atom_names().len() {
                Some(self.atom_names()[idx as int])
            } else {
                None
            }),
    {
        match self {
            NodeId::Nop => None,
            NodeId::Amp(_) => match idx {
                0 => Some("neg_att"),
                _ => None,
            },
            NodeId::TSeq(_) => match idx {
                0 => Some("cmode"),
                _ => None,
            },
            NodeId::Sin(_) => None,
            NodeId::Out(_) => match idx {
                0 => Some("mono"),
                _ => None,
            },
            NodeId::Test(_) => match idx {
                0 => Some("s"),
                _ => None,
            },
        }
    }

    /// The name of output `idx`, if the kind has one there.
    pub fn output_name(&self, idx: usize) -> (r: Option<&'static str>)
        ensures
            r == (if idx < self.output_names().len() {
                Some(self.output_names()[idx as int])
            } else {
                None
            }),
    {
        match self {
            NodeId::Nop => None,
            NodeId::Amp(_) => match idx {
                0 => Some("sig"),
                _ => None,
            },
            NodeId::TSeq(_) => match idx {
                0 => Some("trk1"),
                1 => Some("trk2"),
                2 => Some("trk3"),
                3 => Some("trk4"),
                4 => Some("trk5"),
                5 => Some("trk6"),
                _ => None,
            },
            NodeId::Sin(_) => match idx {
                0 => Some("sig"),
                _ => None,
            },
            NodeId::Out(_) => None,
            NodeId::Test(_) => None,
        }
    }
}

impl ParamId {
    /// The node that the slot belongs to.
    pub closed spec fn spec_node_id(&self) -> NodeId {
        self.node
    }

    /// The index of the slot in the shared index space of its node.
    pub closed spec fn spec_inp(&self) -> u8 {
        self.idx
    }

    /// The name of the slot.
    pub closed spec fn spec_name(&self) -> &'static str {
        self.name
    }

    /// The slot exists in the table of its kind and carries the name found there.
    #[verifier::type_invariant]
    pub open spec fn wf(&self) -> bool {
        &&& self.spec_inp() < self.spec_node_id().slot_names().len()
        &&& self.spec_name() == self.spec_node_id().slot_names()[self.spec_inp() as int]
    }

    /// Whether the slot lies among the atoms of its kind.
    pub open spec fn spec_is_atom(&self) -> bool {
        let node = self.spec_node_id();
        node.param_names().len() <= self.spec_inp() < node.slot_names().len()
    }

    #[verifier::when_used_as_spec(spec_node_id)]
    pub fn node_id(&self) -> (r: NodeId)
        ensures
            r == self.spec_node_id(),
    {
        self.node
    }

    #[verifier::when_used_as_spec(spec_inp)]
    pub fn inp(&self) -> (r: u8)
        ensures
            r == self.spec_inp(),
    {
        self.idx
    }

    #[verifier::when_used_as_spec(spec_name)]
    pub fn name(&self) -> (r: &'static str)
        ensures
            r == self.spec_name(),
    {
        self.name
    }

    /// Whether the slot is an atom of its node rather than a continuous
    /// parameter, decided from the kind and the index alone.
    #[verifier::when_used_as_spec(spec_is_atom)]
    pub fn is_atom(&self) -> (r: bool)
        ensures
            r == self.spec_is_atom(),
    {
        let i = self.idx as usize;
        let n = self.node.param_count();
        i >= n && i - n < self.node.atom_count()
    }
}

impl NodeId {
    /// The slot at `idx` of the shared index space of this node.
    pub closed spec fn slot(self, idx: int) -> ParamId {
        ParamId { name: self.slot_names()[idx], node: self, idx: idx as u8 }
    }

    /// What a slot of the table holds.
    pub proof fn lemma_slot(self, idx: int)
        requires
            0 <= idx < self.slot_names().len(),
        ensures
            self.slot(idx).wf(),
            self.slot(idx).node_id() == self,
            self.slot(idx).inp() == idx,
            self.slot(idx).name() == self.slot_names()[idx],
    {
    }

    /// The slot at `idx` of the shared index space, if there is one.
    pub open spec fn param_at(self, idx: int) -> Option<ParamId> {
        if 0 <= idx < self.slot_names().len() {
            Some(self.slot(idx))
        } else {
            None
        }
    }

    /// The slot of continuous parameter `idx`, if there is one.
    pub open spec fn inp_param_at(self, idx: int) -> Option<ParamId> {
        if 0 <= idx < self.param_names().len() {
            Some(self.slot(idx))
        } else {
            None
        }
    }

    /// The slot of atom `idx`, counted among the atoms alone, if there is one.
    pub open spec fn atom_param_at(self, idx: int) -> Option<ParamId> {
        if 0 <= idx < self.atom_names().len() {
            Some(self.slot(self.param_names().len() + idx))
        } else {
            None
        }
    }

    /// The same kind as instance `instance`, of which the low eight bits count.
    pub fn to_instance(&self, instance: usize) -> (r: NodeId)
        ensures
            r == self.with_instance((instance % 256) as u8),
    {
        let i: u8 = (instance % 256) as u8;
        match self {
            NodeId::Nop => NodeId::Nop,
            NodeId::Amp(_) => NodeId::Amp(i),
            NodeId::TSeq(_) => NodeId::TSeq(i),
            NodeId::Sin(_) => NodeId::Sin(i),
            NodeId::Out(_) => NodeId::Out(i),
            NodeId::Test(_) => NodeId::Test(i),
        }
    }

    /// Whether `other` is of the same kind.
    pub fn eq_variant(&self, other: &NodeId) -> (r: bool)
        ensures
            r == self.same_kind(*other),
    {
        match self {
            NodeId::Nop => matches!(other, NodeId::Nop),
            NodeId::Amp(_) => matches!(other, NodeId::Amp(_)),
            NodeId::TSeq(_) => matches!(other, NodeId::TSeq(_)),
            NodeId::Sin(_) => matches!(other, NodeId::Sin(_)),
            NodeId::Out(_) => matches!(other, NodeId::Out(_)),
            NodeId::Test(_) => matches!(other, NodeId::Test(_)),
        }
    }

    /// The name of the kind.
    pub fn name(&self) -> (r: &'static str)
        ensures
            r == self.kind_name(),
    {
        match self {
            NodeId::Nop => "nop",
            NodeId::Amp(_) => "amp",
            NodeId::TSeq(_) => "tseq",
            NodeId::Sin(_) => "sin",
            NodeId::Out(_) => "out",
            NodeId::Test(_) => "test",
        }
    }

    /// The node in words, such as `sin 3`; the placeholder kind is `nop`.
    pub fn to_string(&self) -> (r: String)
        ensures
            r@ == self.label(),
    {
        let mut r = String::from_str(self.name());
        match self {
            NodeId::Nop => {},
            _ => {
                proof {
                    reveal_strlit(" ");
                    assert(" "@ =~= seq![' ']);
                }
                r.append(" ");
                push_decimal(&mut r, self.instance() as u8);
            },
        }
        r
    }

    /// Instance 0 of the kind that `name` names; the placeholder kind where
    /// `name` names none.
    pub fn from_str(name: &str) -> (r: NodeId)
        ensures
            r == NodeId::by_name(name@),
    {
        if str_eq(name, "amp") {
            NodeId::Amp(0)
        } else if str_eq(name, "tseq") {
            NodeId::TSeq(0)
        } else if str_eq(name, "sin") {
            NodeId::Sin(0)
        } else if str_eq(name, "out") {
            NodeId::Out(0)
        } else if str_eq(name, "test") {
            NodeId::Test(0)
        } else {
            NodeId::Nop
        }
    }

    /// The widget family of the kind.
    pub fn ui_type(&self) -> (r: UIType)
        ensures
            r == self.ui_type_of(),
    {
        UIType::Generic
    }

    /// The palette section of the kind.
    pub fn ui_category(&self) -> (r: UICategory)
        ensures
            r == self.ui_category_of(),
    {
        match self {
            NodeId::Nop => UICategory::Uncategorized,
            NodeId::Amp(_) => UICategory::Signal,
            NodeId::TSeq(_) => UICategory::CV,
            NodeId::Sin(_) => UICategory::Osc,
            NodeId::Out(_) => UICategory::IOUtil,
            NodeId::Test(_) => UICategory::IOUtil,
        }
    }

    /// The instance number.
    pub fn instance(&self) -> (r: usize)
        ensures
            r == self.instance_of(),
    {
        match self {
            NodeId::Nop => 0,
            NodeId::Amp(i) => *i as usize,
            NodeId::TSeq(i) => *i as usize,
            NodeId::Sin(i) => *i as usize,
            NodeId::Out(i) => *i as usize,
            NodeId::Test(i) => *i as usize,
        }
    }

    /// The slot of atom `idx`, counted among the atoms alone: the step from
    /// the split storage of a running node back to the shared index space.
    pub fn atom_param_by_idx(&self, idx: usize) -> (r: Option<ParamId>)
        ensures
            r == self.atom_param_at(idx as int),
            r is Some <==> idx < self.atom_names().len(),
            r matches Some(p) ==> {
                &&& p.node_id() == *self
                &&& p.inp() == self.param_names().len() + idx
                &&& p.name() == self.atom_names()[idx as int]
                &&& p.is_atom()
            },
    {
        match self.atom_name(idx) {
            Some(name) => {
                let at: usize = self.param_count() + idx;
                Some(ParamId { name, node: *self, idx: at as u8 })
            },
            None => None,
        }
    }

    /// The slot of continuous parameter `idx`.
    pub fn inp_param_by_idx(&self, idx: usize) -> (r: Option<ParamId>)
        ensures
            r == self.inp_param_at(idx as int),
            r is Some <==> idx < self.param_names().len(),
            r matches Some(p) ==> {
                &&& p.node_id() == *self
                &&& p.inp() == idx
                &&& p.name() == self.param_names()[idx as int]
                &&& !p.is_atom()
            },
    {
        match self.param_name(idx) {
            Some(name) => Some(ParamId { name, node: *self, idx: idx as u8 }),
            None => None,
        }
    }

    /// Where place `idx` of the shared index space leads: the parameters
    /// come first, the atoms follow them, and past the atoms lies nothing.
    pub fn resolve(&self, idx: usize) -> (r: Slot)
        ensures
            r == (if idx < self.param_names().len() {
                Slot::Continuous(idx)
            } else if idx < self.slot_names().len() {
                Slot::Atom((idx - self.param_names().len()) as usize)
            } else {
                Slot::Invalid
            }),
            r matches Slot::Continuous(i) ==> self.param_at(idx as int) == self.inp_param_at(
                i as int,
            ) && self.param_at(idx as int) is Some,
            r matches Slot::Atom(j) ==> self.param_at(idx as int) == self.atom_param_at(
                j as int,
            ) && self.param_at(idx as int) is Some,
            r is Invalid <==> self.param_at(idx as int) is None,
    {
        let n = self.param_count();
        if idx < n {
            Slot::Continuous(idx)
        } else if idx - n < self.atom_count() {
            Slot::Atom(idx - n)
        } else {
            Slot::Invalid
        }
    }

    /// The slot at `idx` of the shared index space.
    pub fn param_by_idx(&self, idx: usize) -> (r: Option<ParamId>)
        ensures
            r == self.param_at(idx as int),
            r is Some <==> idx < self.slot_names().len(),
            r matches Some(p) ==> {
                &&& p.node_id() == *self
                &&& p.inp() == idx
                &&& p.name() == self.slot_names()[idx as int]
                &&& p.is_atom() == (idx >= self.param_names().len())
            },
    {
        let n = self.param_count();
        if idx < n {
            self.inp_param_by_idx(idx)
        } else {
            self.atom_param_by_idx(idx - n)
        }
    }
}

/// Whether `i` is the first place in `names` that holds `name`.
pub open spec fn first_named(names: Seq<&'static str>, name: Seq<char>, i: int) -> bool {
    &&& 0 <= i < names.len()
    &&& names[i]@ == name
    &&& forall|j: int| 0 <= j < i ==> names[j]@ != name
}

/// The first place in `names` that holds `name`, if any does.
pub open spec fn name_index(names: Seq<&'static str>, name: Seq<char>) -> Option<int> {
    if exists|i: int| first_named(names, name, i) {
        Some(choose|i: int| first_named(names, name, i))
    } else {
        None
    }
}

/// A name is found at `i` exactly if `i` is the first place that holds it.
pub proof fn lemma_name_index(names: Seq<&'static str>, name: Seq<char>, i: int)
    ensures
        name_index(names, name) == Some(i) <==> first_named(names, name, i),
        name_index(names, name) is None <==> forall|j: int|
            0 <= j < names.len() ==> names[j]@ != name,
{
    if first_named(names, name, i) {
        let c = choose|c: int| first_named(names, name, c);
        assert(c == i) by {
            if c < i {
                assert(names[c]@ != name);
            } else if i < c {
                assert(names[i]@ != name);
            }
        }
    }
    if forall|j: int| 0 <= j < names.len() ==> names[j]@ != name {
        assert(!exists|c: int| first_named(names, name, c));
    } else {
        let j = choose|j: int| 0 <= j < names.len() && names[j]@ == name;
        lemma_first_exists(names, name, j);
    }
}

/// Where some place holds `name`, a first one does.
proof fn lemma_first_exists(names: Seq<&'static str>, name: Seq<char>, j: int)
    requires
        0 <= j < names.len(),
        names[j]@ == name,
    ensures
        exists|i: int| first_named(names, name, i),
    decreases j,
{
    if exists|k: int| 0 <= k < j && names[k]@ == name {
        let k = choose|k: int| 0 <= k < j && names[k]@ == name;
        lemma_first_exists(names, name, k);
    } else {
        assert(first_named(names, name, j));
    }
}

/// One of the three name tables of a kind.
#[derive(Clone, Copy)]
enum Table {
    Params,
    Slots,
    Outputs,
}

impl NodeId {
    spec fn table(self, t: Table) -> Seq<&'static str> {
        match t {
            Table::Params => self.param_names(),
            Table::Slots => self.slot_names(),
            Table::Outputs => self.output_names(),
        }
    }

    fn table_name(&self, t: Table, idx: usize) -> (r: Option<&'static str>)
        ensures
            r == (if idx < self.table(t).len() {
                Some(self.table(t)[idx as int])
            } else {
                None
            }),
            self.table(t).len() <= 8,
    {
        match t {
            Table::Params => self.param_name(idx),
            Table::Slots => {
                let n = self.param_count();
                if idx < n {
                    self.param_name(idx)
                } else {
                    self.atom_name(idx - n)
                }
            },
            Table::Outputs => self.output_name(idx),
        }
    }

    fn find(&self, t: Table, name: &str) -> (r: Option<u8>)
        ensures
            r == (match name_index(self.table(t), name@) {
                Some(i) => Some(i as u8),
                None => None,
            }),
            r matches Some(i) ==> first_named(self.table(t), name@, i as int),
    {
        let mut i: usize = 0;
        loop
            invariant
                i <= self.table(t).len(),
                forall|j: int| 0 <= j < i ==> self.table(t)[j]@ != name@,
            decreases 8 - i,
        {
            match self.table_name(t, i) {
                Some(n) => {
                    if str_eq(n, name) {
                        proof {
                            lemma_name_index(self.table(t), name@, i as int);
                        }
                        return Some(i as u8);
                    }
                },
                None => {
                    proof {
                        lemma_name_index(self.table(t), name@, 0);
                    }
                    return None;
                },
            }
            i += 1;
        }
    }

    /// The slot called `name`, among the parameters and then the atoms.
    pub fn inp_param(&self, name: &str) -> (r: Option<ParamId>)
        ensures
            r == (match name_index(self.slot_names(), name@) {
                Some(i) => Some(self.slot(i)),
                None => None,
            }),
            r matches Some(p) ==> {
                &&& p.node_id() == *self
                &&& first_named(self.slot_names(), name@, p.inp() as int)
                &&& p.name()@ == name@
            },
    {
        match self.find(Table::Slots, name) {
            Some(i) => self.param_by_idx(i as usize),
            None => None,
        }
    }

    /// The index of the continuous parameter called `name`.
    pub fn inp(&self, name: &str) -> (r: Option<u8>)
        ensures
            r == (match name_index(self.param_names(), name@) {
                Some(i) => Some(i as u8),
                None => None,
            }),
            r matches Some(i) ==> first_named(self.param_names(), name@, i as int),
    {
        self.find(Table::Params, name)
    }

    /// The index of the output called `name`.
    pub fn out(&self, name: &str) -> (r: Option<u8>)
        ensures
            r == (match name_index(self.output_names(), name@) {
                Some(i) => Some(i as u8),
                None => None,
            }),
            r matches Some(i) ==> first_named(self.output_names(), name@, i as int),
    {
        self.find(Table::Outputs, name)
    }
}

/// Whether a slot is an atom is settled by the family of lookups that
/// yields it: a slot found among the continuous parameters is none, a slot
/// found among the atoms is one, and a slot found by its place in the shared
/// index space is one exactly if that place lies past the parameters, where
/// it is the slot that the atoms yield.
pub proof fn lemma_is_atom_by_family(node: NodeId, idx: int)
    ensures
        node.inp_param_at(idx) matches Some(p) ==> !p.is_atom(),
        node.atom_param_at(idx) matches Some(p) ==> p.is_atom(),
        node.param_at(idx) matches Some(p) ==> (p.is_atom() <==> idx
            >= node.param_names().len()),
        node.param_at(idx) matches Some(p) ==> (!p.is_atom() <==> node.inp_param_at(idx)
            == Some(p)),
        node.param_at(idx) matches Some(p) ==> (p.is_atom() <==> node.atom_param_at(
            idx - node.param_names().len(),
        ) == Some(p)),
{
    if 0 <= idx < node.slot_names().len() {
        node.lemma_slot(idx);
    }
}

/// Every slot that a lookup yields exists in the table of its kind, belongs
/// to the node that was asked, and is yielded by no other place.
pub proof fn lemma_slots_are_valid(node: NodeId, idx: int, other: int)
    ensures
        node.param_at(idx) matches Some(p) ==> p.wf() && p.node_id() == node && p.inp() == idx,
        node.param_at(idx) is Some && node.param_at(idx) == node.param_at(other) ==> idx
            == other,
{
    if 0 <= idx < node.slot_names().len() {
        node.lemma_slot(idx);
        if 0 <= other < node.slot_names().len() {
            node.lemma_slot(other);
        }
    }
}

/// The names of the kinds tell them apart: the name of a kind stands for
/// that kind, as its instance 0.
pub proof fn lemma_name_round_trip(node: NodeId)
    ensures
        NodeId::by_name(node.kind_name()@) == node.with_instance(0),
{
    reveal_strlit("nop");
    reveal_strlit("amp");
    reveal_strlit("tseq");
    reveal_strlit("sin");
    reveal_strlit("out");
    reveal_strlit("test");
    assert("nop"@[0] == 'n');
    assert("amp"@[0] == 'a');
    assert("tseq"@[1] == 's');
    assert("sin"@[0] == 's');
    assert("out"@[0] == 'o');
    assert("test"@[1] == 'e');
}

/// A text that is the name of no kind stands for the placeholder kind, and
/// the placeholder kind has no parameter, no atom and no output.
pub proof fn lemma_unknown_name_is_placeholder(name: Seq<char>)
    requires
        forall|k: int|
            0 <= k < NodeId::kinds().len() ==> (#[trigger] NodeId::kinds()[k]).kind_name()@
                != name,
    ensures
        NodeId::by_name(name) == NodeId::Nop,
        NodeId::Nop.param_names().len() == 0,
        NodeId::Nop.atom_names().len() == 0,
        NodeId::Nop.output_names().len() == 0,
        NodeId::Nop.slot_names().len() == 0,
        forall|idx: int| NodeId::Nop.param_at(idx) is None,
{
    assert(NodeId::kinds()[0].kind_name() == "amp");
    assert(NodeId::kinds()[1].kind_name() == "tseq");
    assert(NodeId::kinds()[2].kind_name() == "sin");
    assert(NodeId::kinds()[3].kind_name() == "out");
    assert(NodeId::kinds()[4].kind_name() == "test");
}

} // verus!
