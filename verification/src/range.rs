//! Source spans.

use vstd::prelude::*;

verus! {

/// Handle of a loaded source module.
#[derive(Debug, Clone, Copy, PartialEq, Eq, Structural, Hash)]
pub struct ModId(pub u64);

impl ModId {
    pub fn new(id: u64) -> (r: ModId)
        ensures
            r == ModId(id),
    {
        ModId(id)
    }

    pub fn as_u64(&self) -> (r: u64)
        ensures
            r == self.0,
    {
        self.0
    }
}

/// Half-open byte span `[start, end)` inside the module `mod_id`.
#[derive(Debug, Clone, Copy, PartialEq, Eq, Structural, Hash)]
pub struct Range {
    pub start: usize,
    pub end: usize,
    pub mod_id: ModId,
}

impl Range {
    /// The smallest span that covers both `self` and `other`. The result
    /// belongs to the module of `self`.
    pub open spec fn merge(self, other: Range) -> Range {
        Range {
            start: if self.start <= other.start {
                self.start
            } else {
                other.start
            },
            end: if self.end >= other.end {
                self.end
            } else {
                other.end
            },
            mod_id: self.mod_id,
        }
    }

    /// `self` lies inside `outer`.
    pub open spec fn within(self, outer: Range) -> bool {
        outer.start <= self.start && self.end <= outer.end
    }

    pub fn new(start: usize, end: usize, mod_id: ModId) -> (r: Range)
        ensures
            r == (Range { start, end, mod_id }),
    {
        Range { start, end, mod_id }
    }

    pub fn merged_with(&self, other: &Range) -> (r: Range)
        ensures
            r == self.merge(*other),
    {
        let start = if self.start <= other.start {
            self.start
        } else {
            other.start
        };
        let end = if self.end >= other.end {
            self.end
        } else {
            other.end
        };
        Range { start, end, mod_id: self.mod_id }
    }

    pub fn len(&self) -> (r: usize)
        ensures
            r == if self.end >= self.start {
                self.end - self.start
            } else {
                0
            },
    {
        if self.end >= self.start {
            self.end - self.start
        } else {
            0
        }
    }
}

/// The merge of two spans covers both of them, and nothing smaller does.
pub proof fn lemma_merge_is_hull(a: Range, b: Range, c: Range)
    ensures
        a.within(a.merge(b)),
        b.within(a.merge(b)),
        a.within(c) && b.within(c) ==> a.merge(b).within(c),
{
}

/// Merging spans of one module does not depend on the order, and merging a
/// span with itself changes nothing.
pub proof fn lemma_merge_commutes(a: Range, b: Range)
    requires
        a.mod_id == b.mod_id,
    ensures
        a.merge(b) == b.merge(a),
        a.merge(a) == a,
{
}

} // verus!
