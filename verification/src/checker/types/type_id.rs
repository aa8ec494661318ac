//! Handles into the type store.

use vstd::prelude::*;
use vstd::std_specs::convert::FromSpecImpl;
use super::Number;

verus! {

/// Opaque handle of an entry of the type store. The first
/// [`TypeId::LENGTH`] handles are reserved for the primitive types.
#[derive(Debug, Clone, Copy, PartialEq, Eq, Structural, Hash)]
pub struct TypeId(pub u64);

impl TypeId {
    #[verifier::allow_in_spec]
    pub fn void() -> TypeId
        returns
            TypeId(0),
    {
        TypeId(0)
    }

    #[verifier::allow_in_spec]
    pub fn bool() -> TypeId
        returns
            TypeId(1),
    {
        TypeId(1)
    }

    #[verifier::allow_in_spec]
    pub fn str() -> TypeId
        returns
            TypeId(2),
    {
        TypeId(2)
    }

    #[verifier::allow_in_spec]
    pub fn string() -> TypeId
        returns
            TypeId(3),
    {
        TypeId(3)
    }

    #[verifier::allow_in_spec]
    pub fn char() -> TypeId
        returns
            TypeId(4),
    {
        TypeId(4)
    }

    #[verifier::allow_in_spec]
    pub fn i8() -> TypeId
        returns
            TypeId(5),
    {
        TypeId(5)
    }

    #[verifier::allow_in_spec]
    pub fn i16() -> TypeId
        returns
            TypeId(6),
    {
        TypeId(6)
    }

    #[verifier::allow_in_spec]
    pub fn i32() -> TypeId
        returns
            TypeId(7),
    {
        TypeId(7)
    }

    #[verifier::allow_in_spec]
    pub fn i64() -> TypeId
        returns
            TypeId(8),
    {
        TypeId(8)
    }

    #[verifier::allow_in_spec]
    pub fn isize() -> TypeId
        returns
            TypeId(9),
    {
        TypeId(9)
    }

    #[verifier::allow_in_spec]
    pub fn u8() -> TypeId
        returns
            TypeId(10),
    {
        TypeId(10)
    }

    #[verifier::allow_in_spec]
    pub fn u16() -> TypeId
        returns
            TypeId(11),
    {
        TypeId(11)
    }

    #[verifier::allow_in_spec]
    pub fn u32() -> TypeId
        returns
            TypeId(12),
    {
        TypeId(12)
    }

    #[verifier::allow_in_spec]
    pub fn u64() -> TypeId
        returns
            TypeId(13),
    {
        TypeId(13)
    }

    #[verifier::allow_in_spec]
    pub fn usize() -> TypeId
        returns
            TypeId(14),
    {
        TypeId(14)
    }

    #[verifier::allow_in_spec]
    pub fn float32() -> TypeId
        returns
            TypeId(15),
    {
        TypeId(15)
    }

    #[verifier::allow_in_spec]
    pub fn float64() -> TypeId
        returns
            TypeId(16),
    {
        TypeId(16)
    }

    /// Marker for "this statement falls through": not a type of the language.
    #[verifier::allow_in_spec]
    pub fn nothing() -> TypeId
        returns
            TypeId(17),
    {
        TypeId(17)
    }

    /// Number of reserved handles.
    pub const LENGTH: usize = 18;

    pub fn new(id: u64) -> (r: TypeId)
        ensures
            r == TypeId(id),
    {
        TypeId(id)
    }

    pub fn as_usize(&self) -> (r: usize)
        ensures
            r == self.0 as usize,
    {
        self.0 as usize
    }

    /// The handle is one of the reserved ones.
    #[verifier::allow_in_spec]
    pub fn is_known(&self) -> bool
        returns
            (self.0 < 18),
    {
        self.0 < 18
    }

    #[verifier::allow_in_spec]
    pub fn is_nothing(&self) -> bool
        returns
            (self.0 == 17),
    {
        self.0 == 17
    }

    #[verifier::allow_in_spec]
    pub fn is_void(&self) -> bool
        returns
            (self.0 == 0),
    {
        self.0 == 0
    }

    /// `Void` and `Nothing` both stand for "no value".
    #[verifier::allow_in_spec]
    pub fn is_empty_type(&self) -> bool
        returns
            (self.0 == 0 || self.0 == 17),
    {
        self.0 == 0 || self.0 == 17
    }

    /// One of the twelve primitive numeric types.
    #[verifier::allow_in_spec]
    pub fn is_number(&self) -> bool
        returns
            (5 <= self.0 && self.0 <= 16),
    {
        self.0 >= 5 && self.0 <= 16
    }

    /// One of the ten primitive integer types.
    #[verifier::allow_in_spec]
    pub fn is_integer(&self) -> bool
        returns
            (5 <= self.0 && self.0 <= 14),
    {
        self.0 >= 5 && self.0 <= 14
    }

    /// A primitive numeric type that has negative values.
    #[verifier::allow_in_spec]
    pub fn is_signed(&self) -> bool
        returns
            ((5 <= self.0 && self.0 <= 9) || (15 <= self.0 && self.0 <= 16)),
    {
        (self.0 >= 5 && self.0 <= 9) || (self.0 >= 15 && self.0 <= 16)
    }

    #[verifier::allow_in_spec]
    pub fn is_float(&self) -> bool
        returns
            (15 <= self.0 && self.0 <= 16),
    {
        self.0 >= 15 && self.0 <= 16
    }
}

/// The reserved handle of each primitive numeric type.
pub open spec fn number_type_id(number: Number) -> TypeId {
    match number {
        Number::I8 => TypeId::i8(),
        Number::I16 => TypeId::i16(),
        Number::I32 => TypeId::i32(),
        Number::I64 => TypeId::i64(),
        Number::Isize => TypeId::isize(),
        Number::Usize => TypeId::usize(),
        Number::U8 => TypeId::u8(),
        Number::U16 => TypeId::u16(),
        Number::U32 => TypeId::u32(),
        Number::U64 => TypeId::u64(),
        Number::F32 => TypeId::float32(),
        Number::F64 => TypeId::float64(),
    }
}

impl From<&Number> for TypeId {
    fn from(number: &Number) -> (r: TypeId) {
        match number {
            Number::I8 => TypeId::i8(),
            Number::I16 => TypeId::i16(),
            Number::I32 => TypeId::i32(),
            Number::I64 => TypeId::i64(),
            Number::Isize => TypeId::isize(),
            Number::Usize => TypeId::usize(),
            Number::U8 => TypeId::u8(),
            Number::U16 => TypeId::u16(),
            Number::U32 => TypeId::u32(),
            Number::U64 => TypeId::u64(),
            Number::F32 => TypeId::float32(),
            Number::F64 => TypeId::float64(),
        }
    }
}

impl FromSpecImpl<&Number> for TypeId {
    open spec fn obeys_from_spec() -> bool {
        true
    }

    open spec fn from_spec(number: &Number) -> TypeId {
        number_type_id(*number)
    }
}

} // verus!
