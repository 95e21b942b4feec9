//! A history walk over a precomputed commit order: the order is fixed when
//! the walk is built, and each step hands out the next commit id.

use vstd::prelude::*;
use crate::oid::ObjectId;
use crate::objects::oids_view;

verus! {

/// A walk over commit ids in the order the revision listing produced them.
#[derive(Debug)]
pub struct RevWalk {
    oids: Vec<ObjectId>,
    idx: usize,
}

impl RevWalk {
    /// The ids of the walk, in order.
    pub closed spec fn order(&self) -> Seq<Seq<u8>> {
        oids_view(self.oids@)
    }

    /// How many ids have been handed out.
    pub closed spec fn position(&self) -> nat {
        self.idx as nat
    }

    /// A walk over the given ids, in order.
    pub fn new(oids: Vec<ObjectId>) -> (res: RevWalk)
        ensures
            res.order() == oids_view(oids@),
            res.position() == 0,
    {
        RevWalk { oids, idx: 0 }
    }

    /// The next commit id, or `None` once the walk is over.
    pub fn next_oid(&mut self) -> (res: Option<ObjectId>)
        ensures
            final(self).order() == old(self).order(),
            old(self).position() < old(self).order().len() ==> {
                &&& res matches Some(id) && id@ == old(self).order()[old(self).position() as int]
                &&& final(self).position() == old(self).position() + 1
            },
            old(self).position() >= old(self).order().len() ==> res is None && final(self).position()
                == old(self).position(),
    {
        if self.idx < self.oids.len() {
            let id = self.oids[self.idx].copy();
            self.idx = self.idx + 1;
            Some(id)
        } else {
            None
        }
    }
}

} // verus!
