//! Bindings that the checker tracks.

use vstd::prelude::*;
use crate::checker::types::TypeId;

verus! {

/// Handle of a binding. Handles are given out in increasing order.
#[derive(Debug, Clone, Copy, PartialEq, Eq, Structural, Hash)]
pub struct ValueId(pub u64);

/// The handle that follows `id`. The last handle follows itself.
pub open spec fn following(id: ValueId) -> ValueId {
    if id.0 < u64::MAX {
        ValueId((id.0 + 1) as u64)
    } else {
        id
    }
}

impl ValueId {
    /// The first handle.
    #[verifier::allow_in_spec]
    pub fn init() -> ValueId
        returns
            ValueId(0),
    {
        ValueId(0)
    }

    #[verifier::allow_in_spec]
    pub fn as_u64(&self) -> u64
        returns
            self.0,
    {
        self.0
    }

    /// Returns the handle held so far and moves on to the one that follows.
    pub fn next_id(&mut self) -> (r: ValueId)
        ensures
            r == *old(self),
            *final(self) == following(*old(self)),
    {
        let current = *self;
        if self.0 < u64::MAX {
            self.0 = self.0 + 1;
        }
        current
    }
}

/// Where a binding comes from. The core never releases an external one.
#[derive(Debug, Clone, Copy, PartialEq, Eq, Structural, Hash)]
pub enum ValueOrigin {
    /// Declared in the scope that holds it.
    Scoped,
    /// Handed in from outside: a parameter or an import.
    External,
}

/// A binding: its handle, its type and whether it may be assigned to.
#[derive(Debug, Clone, Copy, PartialEq, Eq, Structural, Hash)]
pub struct Value {
    pub id: ValueId,
    pub type_id: TypeId,
    pub is_mut: bool,
    pub origin: ValueOrigin,
}

impl Value {
    #[verifier::allow_in_spec]
    pub fn new_scoped(id: ValueId, type_id: TypeId, is_mut: bool) -> Value
        returns
            (Value { id, type_id, is_mut, origin: ValueOrigin::Scoped }),
    {
        Value { id, type_id, is_mut, origin: ValueOrigin::Scoped }
    }

    #[verifier::allow_in_spec]
    pub fn new_external(id: ValueId, type_id: TypeId, is_mut: bool) -> Value
        returns
            (Value { id, type_id, is_mut, origin: ValueOrigin::External }),
    {
        Value { id, type_id, is_mut, origin: ValueOrigin::External }
    }

    #[verifier::allow_in_spec]
    pub fn is_external(&self) -> bool
        returns
            (self.origin == ValueOrigin::External),
    {
        match self.origin {
            ValueOrigin::External => true,
            ValueOrigin::Scoped => false,
        }
    }
}

} // verus!
