//! How a node kind presents itself in a user interface.

use vstd::prelude::*;
use crate::dsp::node_id::NodeId;

verus! {

/// The widget family that renders a node kind.
#[derive(Debug, Clone, Copy, PartialOrd, PartialEq, Eq, Structural)]
pub enum UIType {
    Generic,
    LfoA,
    EnvA,
    OscA,
}

/// The palette section under which a node kind is offered.
#[derive(Debug, Clone, Copy, PartialOrd, PartialEq, Eq, Structural)]
pub enum UICategory {
    /// No section: the placeholder kind is offered nowhere.
    Uncategorized,
    Osc,
    Mod,
    NtoM,
    Signal,
    CV,
    IOUtil,
}

impl NodeId {
    /// Instance 0 of every kind that can be instantiated, in declaration order.
    pub open spec fn kinds() -> Seq<NodeId> {
        seq![NodeId::Amp(0), NodeId::TSeq(0), NodeId::Sin(0), NodeId::Out(0), NodeId::Test(0)]
    }

    /// Instance 0 of the kind declared at place `i`.
    pub fn kind_at(i: usize) -> (r: Option<NodeId>)
        ensures
            r == (if i < NodeId::kinds().len() {
                Some(NodeId::kinds()[i as int])
            } else {
                None
            }),
    {
        match i {
            0 => Some(NodeId::Amp(0)),
            1 => Some(NodeId::TSeq(0)),
            2 => Some(NodeId::Sin(0)),
            3 => Some(NodeId::Out(0)),
            4 => Some(NodeId::Test(0)),
            _ => None,
        }
    }
}

/// `s` without its first `skip` items; empty where it has no more than that.
pub open spec fn after_skipping<A>(s: Seq<A>, skip: nat) -> Seq<A> {
    if skip <= s.len() {
        s.skip(skip as int)
    } else {
        Seq::empty()
    }
}

impl UICategory {
    /// The kinds of this section, in declaration order.
    pub open spec fn members(self) -> Seq<NodeId> {
        NodeId::kinds().filter(|k: NodeId| k.ui_category_of() == self)
    }

    /// The kinds of this section, in declaration order, without the first `skip`.
    pub open spec fn listed(self, skip: nat) -> Seq<NodeId> {
        after_skipping(self.members(), skip)
    }

    /// The kinds of this section, in declaration order, without the first
    /// `skip` of them, each as instance 0.
    pub fn node_ids(&self, skip: usize) -> (ids: Vec<NodeId>)
        ensures
            ids@ == self.listed(skip as nat),
    {
        let ghost pred = |k: NodeId| k.ui_category_of() == *self;
        let ghost all = NodeId::kinds();
        let mut ids: Vec<NodeId> = Vec::new();
        let mut left: usize = skip;
        let mut i: usize = 0;
        proof {
            reveal(Seq::filter);
            assert(all.take(0).filter(pred) =~= Seq::<NodeId>::empty());
        }
        while i < 5
            invariant
                i <= 5,
                all == NodeId::kinds(),
                pred == (|k: NodeId| k.ui_category_of() == *self),
                left <= skip,
                skip - left <= all.take(i as int).filter(pred).len(),
                left > 0 ==> skip - left == all.take(i as int).filter(pred).len(),
                ids@ == after_skipping(all.take(i as int).filter(pred), skip as nat),
            decreases 5 - i,
        {
            let kind = NodeId::kind_at(i).unwrap();
            proof {
                reveal(Seq::filter);
                assert(all.take(i + 1).drop_last() =~= all.take(i as int));
                assert(all.take(i + 1).last() == kind);
            }
            if kind.ui_category() == *self {
                if left == 0 {
                    ids.push(kind);
                } else {
                    left -= 1;
                }
            }
            i += 1;
        }
        proof {
            assert(all.take(5) =~= all);
        }
        ids
    }

    /// Hands `fun` the kinds of this section, in declaration order, without
    /// the first `skip` of them, each as instance 0.
    pub fn get_node_ids<F: FnMut(NodeId)>(&self, skip: usize, mut fun: F)
        requires
            forall|i: int|
                0 <= i < self.listed(skip as nat).len() ==> call_requires(
                    fun,
                    (#[trigger] self.listed(skip as nat)[i],),
                ),
        ensures
            forall|i: int|
                0 <= i < self.listed(skip as nat).len() ==> call_ensures(
                    fun,
                    (#[trigger] self.listed(skip as nat)[i],),
                    (),
                ),
    {
        let ids = self.node_ids(skip);
        let ghost fun0 = fun;
        let mut i: usize = 0;
        while i < ids.len()
            invariant
                fun == fun0,
                i <= ids@.len(),
                ids@ == self.listed(skip as nat),
                forall|j: int| 0 <= j < ids@.len() ==> call_requires(fun, (#[trigger] ids@[j],)),
                forall|j: int| 0 <= j < i ==> call_ensures(fun, (#[trigger] ids@[j],), ()),
            decreases ids@.len() - i,
        {
            fun(ids[i]);
            i += 1;
        }
    }
}

} // verus!
