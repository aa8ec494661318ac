//! Resolving number literals against the types that they meet.

use vstd::prelude::*;
use crate::diag::{Diag, DiagKind};
use crate::range::{ModId, Range};
use super::equal_type::{equal_type_id, equal_types};
use super::types::{
    lookup, FloatKind, IntKind, Type, TypeId, TypeStore, TypeView, UsizeKind,
};

verus! {

/// The type of an integer literal of `bits` binary digits that meets the
/// type `expected`: the expected integer type if the literal fits its
/// width, and else `found`, the type that the literal had.
pub open spec fn infer_int(types: Seq<TypeView>, bits: u8, expected: TypeId, found: TypeId) -> TypeId {
    match lookup(types, expected) {
        Some(TypeView::Int(kind)) => match kind {
            IntKind::I8 => if bits <= 8 {
                TypeId::i8()
            } else {
                found
            },
            IntKind::I16 => if bits <= 16 {
                TypeId::i16()
            } else {
                found
            },
            IntKind::I32 => if bits <= 32 {
                TypeId::i32()
            } else {
                found
            },
            IntKind::I64 => if bits <= 64 {
                TypeId::i64()
            } else {
                found
            },
            IntKind::Isize => if bits <= 64 {
                TypeId::isize()
            } else {
                found
            },
        },
        Some(TypeView::Usize(kind)) => match kind {
            UsizeKind::U8 => if bits <= 8 {
                TypeId::u8()
            } else {
                found
            },
            UsizeKind::U16 => if bits <= 16 {
                TypeId::u16()
            } else {
                found
            },
            UsizeKind::U32 => if bits <= 32 {
                TypeId::u32()
            } else {
                found
            },
            UsizeKind::U64 => if bits <= 64 {
                TypeId::u64()
            } else {
                found
            },
            UsizeKind::Usize => if bits <= 64 {
                TypeId::usize()
            } else {
                found
            },
        },
        _ => found,
    }
}

/// The type of a float literal of `bits` bits that meets the type
/// `expected`: as [`infer_int`], with the two float types.
pub open spec fn infer_float(types: Seq<TypeView>, bits: u8, expected: TypeId, found: TypeId) -> TypeId {
    match lookup(types, expected) {
        Some(TypeView::Float(kind)) => match kind {
            FloatKind::F32 => if bits <= 32 {
                TypeId::float32()
            } else {
                found
            },
            FloatKind::F64 => if bits <= 64 {
                TypeId::float64()
            } else {
                found
            },
        },
        _ => found,
    }
}

/// The type of a value of type `found` that meets the type `expected`: a
/// number literal takes the expected type where it fits; any other type
/// stays as it is.
pub open spec fn infer(types: Seq<TypeView>, expected: TypeId, found: TypeId) -> TypeId {
    match lookup(types, found) {
        Some(TypeView::InferInt { bits }) => infer_int(types, bits, expected, found),
        Some(TypeView::InferFloat { bits }) => infer_float(types, bits, expected, found),
        _ => found,
    }
}

/// The type of a value that meets no expected type: an integer literal is
/// an `i32`, a float literal a 64-bit float, any other type stays.
pub open spec fn infer_default(types: Seq<TypeView>, type_id: TypeId) -> TypeId {
    match lookup(types, type_id) {
        Some(TypeView::InferInt { .. }) => TypeId::i32(),
        Some(TypeView::InferFloat { .. }) => TypeId::float64(),
        _ => type_id,
    }
}

/// The common type of two operands, or the two types that do not agree.
/// Each operand is first resolved against the other. They agree if the
/// second may then stand where the first is expected, and the common type
/// is the first; two literals of one kind always agree, on the wider one.
pub open spec fn unify(types: Seq<TypeView>, left: TypeId, right: TypeId) -> Result<
    TypeId,
    (TypeId, TypeId),
> {
    let a = infer(types, right, left);
    let b = infer(types, a, right);
    if equal_types(types, a, b) {
        Ok(a)
    } else {
        match (lookup(types, a), lookup(types, b)) {
            (Some(TypeView::InferInt { bits: x }), Some(TypeView::InferInt { bits: y })) => Ok(
                if x >= y {
                    a
                } else {
                    b
                },
            ),
            (
                Some(TypeView::InferFloat { bits: x }),
                Some(TypeView::InferFloat { bits: y }),
            ) => Ok(
                if x >= y {
                    a
                } else {
                    b
                },
            ),
            _ => Err((a, b)),
        }
    }
}

/// The diagnostic of a handle that the store did not give out. It has no
/// place in the source.
pub open spec fn unknown_handle(handle: TypeId) -> Diag {
    Diag::at(
        DiagKind::IceUnknownHandle { handle },
        Range { start: 0, end: 0, mod_id: ModId(0) },
    )
}

/// [`infer`], where the handles that it looks behind are handles of the
/// store: `found` always, and `expected` where `found` is a literal.
pub open spec fn infer_known(types: Seq<TypeView>, expected: TypeId, found: TypeId) -> Result<
    TypeId,
    Diag,
> {
    match lookup(types, found) {
        None => Err(unknown_handle(found)),
        Some(ty) => if (ty is InferInt || ty is InferFloat) && lookup(types, expected) is None {
            Err(unknown_handle(expected))
        } else {
            Ok(infer(types, expected, found))
        },
    }
}

/// [`infer_default`], where `type_id` is a handle of the store.
pub open spec fn infer_default_known(types: Seq<TypeView>, type_id: TypeId) -> Result<
    TypeId,
    Diag,
> {
    if lookup(types, type_id) is None {
        Err(unknown_handle(type_id))
    } else {
        Ok(infer_default(types, type_id))
    }
}

fn unknown(handle: TypeId) -> (r: Diag)
    ensures
        r == unknown_handle(handle),
{
    Diag::new(DiagKind::IceUnknownHandle { handle }, Range::new(0, 0, ModId::new(0)))
}

/// See [`infer_known`].
pub fn infer_known_type(store: &TypeStore, expected: TypeId, found: TypeId) -> (r: Result<
    TypeId,
    Diag,
>)
    ensures
        r == infer_known(store@, expected, found),
{
    let literal = match store.get_type(found) {
        None => {
            return Err(unknown(found));
        },
        Some(Type::InferInt { .. }) => true,
        Some(Type::InferFloat { .. }) => true,
        Some(_) => false,
    };
    if literal && store.get_type(expected).is_none() {
        return Err(unknown(expected));
    }
    Ok(infer_type(store, expected, found))
}

/// See [`infer_default_known`].
pub fn infer_default_known_type(store: &TypeStore, type_id: TypeId) -> (r: Result<TypeId, Diag>)
    ensures
        r == infer_default_known(store@, type_id),
{
    if store.get_type(type_id).is_none() {
        return Err(unknown(type_id));
    }
    Ok(infer_no_type_anotation(store, type_id))
}

fn infer_int_type(store: &TypeStore, bits: u8, expected: TypeId, found: TypeId) -> (r: TypeId)
    ensures
        r == infer_int(store@, bits, expected, found),
{
    match store.get_type(expected) {
        Some(Type::Int(kind)) => match kind {
            IntKind::I8 => if bits <= 8 {
                TypeId::i8()
            } else {
                found
            },
            IntKind::I16 => if bits <= 16 {
                TypeId::i16()
            } else {
                found
            },
            IntKind::I32 => if bits <= 32 {
                TypeId::i32()
            } else {
                found
            },
            IntKind::I64 => if bits <= 64 {
                TypeId::i64()
            } else {
                found
            },
            IntKind::Isize => if bits <= 64 {
                TypeId::isize()
            } else {
                found
            },
        },
        Some(Type::Usize(kind)) => match kind {
            UsizeKind::U8 => if bits <= 8 {
                TypeId::u8()
            } else {
                found
            },
            UsizeKind::U16 => if bits <= 16 {
                TypeId::u16()
            } else {
                found
            },
            UsizeKind::U32 => if bits <= 32 {
                TypeId::u32()
            } else {
                found
            },
            UsizeKind::U64 => if bits <= 64 {
                TypeId::u64()
            } else {
                found
            },
            UsizeKind::Usize => if bits <= 64 {
                TypeId::usize()
            } else {
                found
            },
        },
        _ => found,
    }
}

fn infer_float_type(store: &TypeStore, bits: u8, expected: TypeId, found: TypeId) -> (r: TypeId)
    ensures
        r == infer_float(store@, bits, expected, found),
{
    match store.get_type(expected) {
        Some(Type::Float(kind)) => match kind {
            FloatKind::F32 => if bits <= 32 {
                TypeId::float32()
            } else {
                found
            },
            FloatKind::F64 => if bits <= 64 {
                TypeId::float64()
            } else {
                found
            },
        },
        _ => found,
    }
}

/// See [`infer`].
pub fn infer_type(store: &TypeStore, expected: TypeId, found: TypeId) -> (r: TypeId)
    ensures
        r == infer(store@, expected, found),
{
    match store.get_type(found) {
        Some(Type::InferInt { bits }) => infer_int_type(store, *bits, expected, found),
        Some(Type::InferFloat { bits }) => infer_float_type(store, *bits, expected, found),
        _ => found,
    }
}

/// See [`infer_default`].
pub fn infer_no_type_anotation(store: &TypeStore, type_id: TypeId) -> (r: TypeId)
    ensures
        r == infer_default(store@, type_id),
{
    match store.get_type(type_id) {
        Some(Type::InferInt { .. }) => TypeId::i32(),
        Some(Type::InferFloat { .. }) => TypeId::float64(),
        _ => type_id,
    }
}

/// See [`unify`].
pub fn unify_types(store: &TypeStore, left: TypeId, right: TypeId) -> (r: Result<
    TypeId,
    (TypeId, TypeId),
>)
    ensures
        r == unify(store@, left, right),
{
    let a = infer_type(store, right, left);
    let b = infer_type(store, a, right);
    if equal_type_id(store, a, b) {
        return Ok(a);
    }
    match (store.get_type(a), store.get_type(b)) {
        (Some(Type::InferInt { bits: x }), Some(Type::InferInt { bits: y })) => Ok(
            if *x >= *y {
                a
            } else {
                b
            },
        ),
        (Some(Type::InferFloat { bits: x }), Some(Type::InferFloat { bits: y })) => Ok(
            if *x >= *y {
                a
            } else {
                b
            },
        ),
        _ => Err((a, b)),
    }
}

/// Resolving a literal against a primitive integer type gives that type
/// exactly when the literal fits the width in the table: 8, 16, 32 and 64
/// bits for the sized types, 64 for the two of pointer size.
pub proof fn lemma_infer_int_table(types: Seq<TypeView>, bits: u8, found: TypeId)
    requires
        super::types::seeded(types),
        lookup(types, found) == Some(TypeView::InferInt { bits }),
    ensures
        infer(types, TypeId::i8(), found) == if bits <= 8 { TypeId::i8() } else { found },
        infer(types, TypeId::i16(), found) == if bits <= 16 { TypeId::i16() } else { found },
        infer(types, TypeId::i32(), found) == if bits <= 32 { TypeId::i32() } else { found },
        infer(types, TypeId::i64(), found) == if bits <= 64 { TypeId::i64() } else { found },
        infer(types, TypeId::isize(), found) == if bits <= 64 { TypeId::isize() } else { found },
        infer(types, TypeId::u8(), found) == if bits <= 8 { TypeId::u8() } else { found },
        infer(types, TypeId::u16(), found) == if bits <= 16 { TypeId::u16() } else { found },
        infer(types, TypeId::u32(), found) == if bits <= 32 { TypeId::u32() } else { found },
        infer(types, TypeId::u64(), found) == if bits <= 64 { TypeId::u64() } else { found },
        infer(types, TypeId::usize(), found) == if bits <= 64 { TypeId::usize() } else { found },
        infer_default(types, found) == TypeId::i32(),
{
    super::types::store::lemma_reserved_handles(types);
    assert(forall|n: super::types::Number|
        lookup(types, #[trigger] super::types::type_id::number_type_id(n)) == Some(
            super::types::number_type(n),
        ));
    assert(super::types::type_id::number_type_id(super::types::Number::I8) == TypeId::i8());
    assert(super::types::type_id::number_type_id(super::types::Number::I16) == TypeId::i16());
    assert(super::types::type_id::number_type_id(super::types::Number::I32) == TypeId::i32());
    assert(super::types::type_id::number_type_id(super::types::Number::I64) == TypeId::i64());
    assert(super::types::type_id::number_type_id(super::types::Number::Isize) == TypeId::isize());
    assert(super::types::type_id::number_type_id(super::types::Number::U8) == TypeId::u8());
    assert(super::types::type_id::number_type_id(super::types::Number::U16) == TypeId::u16());
    assert(super::types::type_id::number_type_id(super::types::Number::U32) == TypeId::u32());
    assert(super::types::type_id::number_type_id(super::types::Number::U64) == TypeId::u64());
    assert(super::types::type_id::number_type_id(super::types::Number::Usize) == TypeId::usize());
}

} // verus!
