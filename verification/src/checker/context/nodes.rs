//! The table that records the type of each syntax node.

use vstd::prelude::*;
use crate::checker::types::TypeId;
use crate::range::Range;

verus! {

/// The type that was recorded last for the node at `range`.
pub open spec fn node_type(entries: Seq<(Range, TypeId)>, range: Range) -> Option<TypeId>
    decreases entries.len(),
{
    if entries.len() == 0 {
        None
    } else if entries.last().0 == range {
        Some(entries.last().1)
    } else {
        node_type(entries.drop_last(), range)
    }
}

/// Side table from syntax nodes, named by their spans, to the types that
/// the checker gave them. The checker writes it; the builder reads it.
#[derive(Debug)]
pub struct NodeTypes {
    entries: Vec<(Range, TypeId)>,
}

impl View for NodeTypes {
    type V = Seq<(Range, TypeId)>;

    closed spec fn view(&self) -> Seq<(Range, TypeId)> {
        self.entries@
    }
}

impl NodeTypes {
    pub fn new() -> (r: NodeTypes)
        ensures
            r@.len() == 0,
    {
        NodeTypes { entries: Vec::new() }
    }

    /// Records `type_id` for the node at `range`, in place of what was
    /// recorded for it before.
    pub fn record(&mut self, range: Range, type_id: TypeId)
        ensures
            final(self)@ == old(self)@.push((range, type_id)),
            node_type(final(self)@, range) == Some(type_id),
            forall|other: Range|
                other != range ==> node_type(final(self)@, other) == node_type(old(self)@, other),
    {
        proof {
            assert(self@.push((range, type_id)).drop_last() =~= self@);
        }
        self.entries.push((range, type_id));
    }

    pub fn get(&self, range: Range) -> (r: Option<TypeId>)
        ensures
            r == node_type(self@, range),
    {
        let mut i = self.entries.len();
        proof {
            assert(self.entries@.take(i as int) =~= self.entries@);
        }
        while i > 0
            invariant
                i <= self.entries@.len(),
                node_type(self@, range) == node_type(self.entries@.take(i as int), range),
            decreases i,
        {
            i -= 1;
            proof {
                let upto = self.entries@.take(i + 1);
                assert(upto.drop_last() =~= self.entries@.take(i as int));
                assert(upto.last() == self.entries@[i as int]);
            }
            let entry = self.entries[i];
            if entry.0 == range {
                return Some(entry.1);
            }
        }
        None
    }
}

} // verus!
