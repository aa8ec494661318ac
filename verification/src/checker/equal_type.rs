//! When a value of one type may stand where another type is expected.

use vstd::prelude::*;
use super::types::{lookup, Type, TypeId, TypeStore, TypeView};

verus! {

/// A value of type `found` may stand where `expected` is expected, as far
/// as `depth` references deep: the two handles are the same; or both stand
/// for "no value"; or both are references, the expected one exclusive only
/// if the found one is, to types of which the same holds one level less
/// deep; or the two handles denote the same type, which the store may hold
/// more than once.
pub open spec fn equal_within(
    types: Seq<TypeView>,
    expected: TypeId,
    found: TypeId,
    depth: nat,
) -> bool
    decreases depth,
{
    if expected == found {
        true
    } else if expected.is_empty_type() && found.is_empty_type() {
        true
    } else {
        match (lookup(types, expected), lookup(types, found)) {
            (
                Some(TypeView::Borrow { value: expected_value, mutable: expected_mut }),
                Some(TypeView::Borrow { value: found_value, mutable: found_mut }),
            ) => (found_mut || !expected_mut) && depth > 0 && equal_within(
                types,
                expected_value,
                found_value,
                (depth - 1) as nat,
            ),
            (Some(expected_type), Some(found_type)) => expected_type.alike(found_type),
            _ => false,
        }
    }
}

/// A value of type `found` may stand where `expected` is expected. A chain
/// of references is followed as deep as the store has types, which is as
/// deep as a chain without a cycle can be.
pub open spec fn equal_types(types: Seq<TypeView>, expected: TypeId, found: TypeId) -> bool {
    equal_within(types, expected, found, types.len())
}

/// Wherever the comparison of `a` with `b` passes through two references,
/// the two are both exclusive or both shared.
pub open spec fn same_mutability(types: Seq<TypeView>, a: TypeId, b: TypeId, depth: nat) -> bool
    decreases depth,
{
    if a == b || (a.is_empty_type() && b.is_empty_type()) {
        true
    } else {
        match (lookup(types, a), lookup(types, b)) {
            (
                Some(TypeView::Borrow { value: a_value, mutable: a_mut }),
                Some(TypeView::Borrow { value: b_value, mutable: b_mut }),
            ) => a_mut == b_mut && (depth > 0 ==> same_mutability(
                types,
                a_value,
                b_value,
                (depth - 1) as nat,
            )),
            _ => true,
        }
    }
}

/// See [`equal_types`].
pub fn equal_type_id(store: &TypeStore, expected: TypeId, found: TypeId) -> (r: bool)
    ensures
        r == equal_types(store@, expected, found),
{
    let mut e = expected;
    let mut f = found;
    let mut depth = store.len();
    loop
        invariant
            equal_types(store@, expected, found) == equal_within(store@, e, f, depth as nat),
        decreases depth,
    {
        if e == f {
            return true;
        }
        if e.is_empty_type() && f.is_empty_type() {
            return true;
        }
        match (store.get_type(e), store.get_type(f)) {
            (
                Some(Type::Borrow { value: e_value, mutable: e_mut }),
                Some(Type::Borrow { value: f_value, mutable: f_mut }),
            ) => {
                if *e_mut && !*f_mut {
                    return false;
                }
                if depth == 0 {
                    return false;
                }
                depth = depth - 1;
                e = *e_value;
                f = *f_value;
            },
            (Some(expected_type), Some(found_type)) => {
                return expected_type.same(found_type);
            },
            _ => {
                return false;
            },
        }
    }
}

/// Two handles that denote one type, which is no reference, may stand
/// for each other, whichever is expected.
pub proof fn lemma_equal_by_type(types: Seq<TypeView>, a: TypeId, b: TypeId)
    requires
        lookup(types, a) is Some,
        lookup(types, a) == lookup(types, b),
        !(lookup(types, a) matches Some(TypeView::Borrow { .. })),
    ensures
        equal_types(types, a, b),
        equal_types(types, b, a),
{
}

/// Of two handles of the store that denote no references, either may
/// stand for the other exactly if they are the same handle, or both stand
/// for "no value", or they denote the same type.
pub proof fn lemma_equal_of_plain_types(types: Seq<TypeView>, a: TypeId, b: TypeId)
    requires
        lookup(types, a) is Some,
        lookup(types, b) is Some,
        !(lookup(types, a) matches Some(TypeView::Borrow { .. })),
        !(lookup(types, b) matches Some(TypeView::Borrow { .. })),
    ensures
        equal_types(types, a, b) == (a == b || (a.is_empty_type() && b.is_empty_type()) || lookup(
            types,
            a,
        )->Some_0.alike(lookup(types, b)->Some_0)),
        equal_types(types, a, b) == equal_types(types, b, a),
{
    super::types::lemma_alike(lookup(types, a)->Some_0, lookup(types, b)->Some_0);
}

/// Every type may stand where itself is expected.
pub proof fn lemma_equal_reflexive(types: Seq<TypeView>, a: TypeId)
    ensures
        equal_types(types, a, a),
{
}

/// Where no reference changes from exclusive to shared between the two
/// types, the comparison does not depend on which of them is expected.
pub proof fn lemma_equal_symmetric(types: Seq<TypeView>, a: TypeId, b: TypeId, depth: nat)
    requires
        equal_within(types, a, b, depth),
        same_mutability(types, a, b, depth),
    ensures
        equal_within(types, b, a, depth),
    decreases depth,
{
    if a == b || (a.is_empty_type() && b.is_empty_type()) {
    } else {
        match (lookup(types, a), lookup(types, b)) {
            (
                Some(TypeView::Borrow { value: a_value, mutable: a_mut }),
                Some(TypeView::Borrow { value: b_value, mutable: b_mut }),
            ) => {
                lemma_equal_symmetric(types, a_value, b_value, (depth - 1) as nat);
            },
            (Some(a_type), Some(b_type)) => {
                super::types::lemma_alike(a_type, b_type);
            },
            _ => {},
        }
    }
}

/// Where the comparison holds in one direction and a reference changes
/// from exclusive to shared on the way, it fails in the other direction.
pub proof fn lemma_equal_one_way(types: Seq<TypeView>, a: TypeId, b: TypeId, depth: nat)
    requires
        equal_within(types, a, b, depth),
        !same_mutability(types, a, b, depth),
    ensures
        !equal_within(types, b, a, depth),
    decreases depth,
{
    match (lookup(types, a), lookup(types, b)) {
        (
            Some(TypeView::Borrow { value: a_value, mutable: a_mut }),
            Some(TypeView::Borrow { value: b_value, mutable: b_mut }),
        ) => {
            if a_mut == b_mut {
                lemma_equal_one_way(types, a_value, b_value, (depth - 1) as nat);
            }
        },
        _ => {},
    }
}

/// In a store that begins with the primitive types, an exclusive reference
/// may stand where a shared reference to the same type is expected, and a
/// shared one may not stand where an exclusive one is expected.
pub proof fn lemma_exclusive_decays(
    types: Seq<TypeView>,
    shared: TypeId,
    exclusive: TypeId,
    value: TypeId,
)
    requires
        super::types::seeded(types),
        lookup(types, shared) == Some(TypeView::Borrow { value, mutable: false }),
        lookup(types, exclusive) == Some(TypeView::Borrow { value, mutable: true }),
    ensures
        equal_types(types, shared, exclusive),
        !equal_types(types, exclusive, shared),
{
    super::types::store::lemma_reserved_handles(types);
    assert(equal_within(types, value, value, (types.len() - 1) as nat));
}

} // verus!
