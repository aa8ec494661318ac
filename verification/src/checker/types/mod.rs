//! The types of the language and their store.

use vstd::prelude::*;
use crate::range::ModId;

pub mod display;
pub mod store;
pub mod type_id;

pub use store::TypeStore;
pub use type_id::TypeId;

verus! {

/// The primitive numeric types.
#[derive(Debug, Clone, Copy, PartialEq, Eq, Structural, Hash)]
pub enum Number {
    I8,
    I16,
    I32,
    I64,
    Isize,
    U8,
    U16,
    U32,
    U64,
    Usize,
    F32,
    F64,
}

/// Signed integer widths.
#[derive(Debug, Clone, Copy, PartialEq, Eq, Structural, Hash)]
pub enum IntKind {
    I8,
    I16,
    I32,
    I64,
    Isize,
}

/// Unsigned integer widths.
#[derive(Debug, Clone, Copy, PartialEq, Eq, Structural, Hash)]
pub enum UsizeKind {
    U8,
    U16,
    U32,
    U64,
    Usize,
}

/// Floating-point widths.
#[derive(Debug, Clone, Copy, PartialEq, Eq, Structural, Hash)]
pub enum FloatKind {
    F32,
    F64,
}

/// A field of a struct type.
#[derive(Debug, Clone, PartialEq)]
pub struct FieldType {
    pub name: String,
    pub type_id: TypeId,
    pub is_pub: bool,
}

/// A type of the language. Types refer to each other by handle.
#[derive(Debug, Clone, PartialEq)]
pub enum Type {
    Void,
    Bool,
    Str,
    String,
    Char,
    Int(IntKind),
    Usize(UsizeKind),
    Float(FloatKind),
    /// Marker for "no value was returned": see [`TypeId::NOTHING`].
    Nothing,
    /// An integer literal that needs `bits` binary digits, not yet resolved.
    InferInt { bits: u8 },
    /// A float literal that needs a format of `bits` bits, not yet resolved.
    InferFloat { bits: u8 },
    Borrow { value: TypeId, mutable: bool },
    Struct { fields: Vec<FieldType> },
    Fn { params: Vec<TypeId>, ret: TypeId, generics: Vec<TypeId> },
    Alias(TypeId),
    /// What `a..b` makes: a handle that yields values of type `item`.
    Range { item: TypeId },
    /// What `import` makes: a handle of the module `mod_id`.
    Module { mod_id: ModId },
}

/// Mathematical model of a [`Type`].
pub enum TypeView {
    Void,
    Bool,
    Str,
    String,
    Char,
    Int(IntKind),
    Usize(UsizeKind),
    Float(FloatKind),
    Nothing,
    InferInt { bits: u8 },
    InferFloat { bits: u8 },
    Borrow { value: TypeId, mutable: bool },
    Struct { fields: Seq<FieldType> },
    Fn { params: Seq<TypeId>, ret: TypeId, generics: Seq<TypeId> },
    Alias(TypeId),
    Range { item: TypeId },
    Module { mod_id: ModId },
}

impl View for Type {
    type V = TypeView;

    open spec fn view(&self) -> TypeView {
        match *self {
            Type::Void => TypeView::Void,
            Type::Bool => TypeView::Bool,
            Type::Str => TypeView::Str,
            Type::String => TypeView::String,
            Type::Char => TypeView::Char,
            Type::Int(k) => TypeView::Int(k),
            Type::Usize(k) => TypeView::Usize(k),
            Type::Float(k) => TypeView::Float(k),
            Type::Nothing => TypeView::Nothing,
            Type::InferInt { bits } => TypeView::InferInt { bits },
            Type::InferFloat { bits } => TypeView::InferFloat { bits },
            Type::Borrow { value, mutable } => TypeView::Borrow { value, mutable },
            Type::Struct { fields } => TypeView::Struct { fields: fields@ },
            Type::Fn { params, ret, generics } => TypeView::Fn {
                params: params@,
                ret,
                generics: generics@,
            },
            Type::Alias(target) => TypeView::Alias(target),
            Type::Range { item } => TypeView::Range { item },
            Type::Module { mod_id } => TypeView::Module { mod_id },
        }
    }
}

/// The type that each primitive numeric name stands for.
pub open spec fn number_type(number: Number) -> TypeView {
    match number {
        Number::I8 => TypeView::Int(IntKind::I8),
        Number::I16 => TypeView::Int(IntKind::I16),
        Number::I32 => TypeView::Int(IntKind::I32),
        Number::I64 => TypeView::Int(IntKind::I64),
        Number::Isize => TypeView::Int(IntKind::Isize),
        Number::U8 => TypeView::Usize(UsizeKind::U8),
        Number::U16 => TypeView::Usize(UsizeKind::U16),
        Number::U32 => TypeView::Usize(UsizeKind::U32),
        Number::U64 => TypeView::Usize(UsizeKind::U64),
        Number::Usize => TypeView::Usize(UsizeKind::Usize),
        Number::F32 => TypeView::Float(FloatKind::F32),
        Number::F64 => TypeView::Float(FloatKind::F64),
    }
}

impl Number {
    pub fn as_type(&self) -> (r: Type)
        ensures
            r@ == number_type(*self),
    {
        match self {
            Number::I8 => Type::Int(IntKind::I8),
            Number::I16 => Type::Int(IntKind::I16),
            Number::I32 => Type::Int(IntKind::I32),
            Number::I64 => Type::Int(IntKind::I64),
            Number::Isize => Type::Int(IntKind::Isize),
            Number::U8 => Type::Usize(UsizeKind::U8),
            Number::U16 => Type::Usize(UsizeKind::U16),
            Number::U32 => Type::Usize(UsizeKind::U32),
            Number::U64 => Type::Usize(UsizeKind::U64),
            Number::Usize => Type::Usize(UsizeKind::Usize),
            Number::F32 => Type::Float(FloatKind::F32),
            Number::F64 => Type::Float(FloatKind::F64),
        }
    }
}

impl FieldType {
    pub fn new(name: String, type_id: TypeId, is_pub: bool) -> (r: FieldType)
        ensures
            r == (FieldType { name, type_id, is_pub }),
    {
        FieldType { name, type_id, is_pub }
    }
}

/// The types behind the reserved handles, in handle order.
pub open spec fn primitive_types() -> Seq<TypeView> {
    seq![
        TypeView::Void,
        TypeView::Bool,
        TypeView::Str,
        TypeView::String,
        TypeView::Char,
        TypeView::Int(IntKind::I8),
        TypeView::Int(IntKind::I16),
        TypeView::Int(IntKind::I32),
        TypeView::Int(IntKind::I64),
        TypeView::Int(IntKind::Isize),
        TypeView::Usize(UsizeKind::U8),
        TypeView::Usize(UsizeKind::U16),
        TypeView::Usize(UsizeKind::U32),
        TypeView::Usize(UsizeKind::U64),
        TypeView::Usize(UsizeKind::Usize),
        TypeView::Float(FloatKind::F32),
        TypeView::Float(FloatKind::F64),
        TypeView::Nothing,
    ]
}

/// A store's contents begin with the primitive types.
pub open spec fn seeded(types: Seq<TypeView>) -> bool {
    &&& types.len() >= 18
    &&& types.subrange(0, 18) == primitive_types()
}

/// The fields of two lists agree from position `i` on: in their names,
/// character by character, in their types and in whether they are public.
pub open spec fn fields_alike(a: Seq<FieldType>, b: Seq<FieldType>, i: int) -> bool
    decreases a.len() - i,
{
    if i < 0 || i >= a.len() || i >= b.len() {
        true
    } else {
        a[i].name@ == b[i].name@ && a[i].type_id == b[i].type_id && a[i].is_pub == b[i].is_pub
            && fields_alike(a, b, i + 1)
    }
}

impl TypeView {
    /// The two types are the same type: they are equal, or they are
    /// structs of as many fields that agree one by one. The names of
    /// fields are compared by their characters.
    pub open spec fn alike(self, other: TypeView) -> bool {
        self == other || (self matches TypeView::Struct { fields: a } && other matches TypeView::Struct {
            fields: b,
        } && a.len() == b.len() && fields_alike(a, b, 0))
    }

    /// A primitive numeric type, or a number literal not yet resolved.
    pub open spec fn is_numeric(self) -> bool {
        self is Int || self is Usize || self is Float || self is InferInt || self is InferFloat
    }

    /// A primitive integer type, or an integer literal not yet resolved.
    pub open spec fn is_integer(self) -> bool {
        self is Int || self is Usize || self is InferInt
    }

    /// A numeric type that has negative values.
    pub open spec fn is_signed(self) -> bool {
        self is Int || self is Float || self is InferInt || self is InferFloat
    }
}

/// A list of fields agrees with itself.
pub proof fn lemma_fields_alike_reflexive(a: Seq<FieldType>, i: int)
    ensures
        fields_alike(a, a, i),
    decreases a.len() - i,
{
    if 0 <= i < a.len() {
        lemma_fields_alike_reflexive(a, i + 1);
    }
}

/// Two lists of fields agree whichever is taken first.
pub proof fn lemma_fields_alike_symmetric(a: Seq<FieldType>, b: Seq<FieldType>, i: int)
    requires
        a.len() == b.len(),
    ensures
        fields_alike(a, b, i) == fields_alike(b, a, i),
    decreases a.len() - i,
{
    if 0 <= i < a.len() {
        lemma_fields_alike_symmetric(a, b, i + 1);
    }
}

/// Every type is the same type as itself, and two types are the same
/// type whichever is taken first.
pub proof fn lemma_alike(a: TypeView, b: TypeView)
    ensures
        a.alike(a),
        a.alike(b) == b.alike(a),
{
    match (a, b) {
        (TypeView::Struct { fields: x }, TypeView::Struct { fields: y }) => {
            if x.len() == y.len() {
                lemma_fields_alike_symmetric(x, y, 0);
            }
        },
        _ => {},
    }
}

/// Whether two lists hold the same handles in the same order.
pub fn same_ids(a: &Vec<TypeId>, b: &Vec<TypeId>) -> (r: bool)
    ensures
        r == (a@ == b@),
{
    if a.len() != b.len() {
        return false;
    }
    let mut i: usize = 0;
    while i < a.len()
        invariant
            i <= a@.len(),
            a@.len() == b@.len(),
            a@.take(i as int) == b@.take(i as int),
        decreases a@.len() - i,
    {
        if a[i] != b[i] {
            return false;
        }
        proof {
            assert(a@.take(i + 1) =~= a@.take(i as int).push(a@[i as int]));
            assert(b@.take(i + 1) =~= b@.take(i as int).push(b@[i as int]));
        }
        i += 1;
    }
    proof {
        assert(a@.take(i as int) =~= a@);
        assert(b@.take(i as int) =~= b@);
    }
    true
}

/// Whether two lists of fields agree: see [`fields_alike`].
pub fn same_fields(a: &Vec<FieldType>, b: &Vec<FieldType>) -> (r: bool)
    ensures
        r == (a@.len() == b@.len() && fields_alike(a@, b@, 0)),
{
    if a.len() != b.len() {
        return false;
    }
    let mut i = a.len();
    while i > 0
        invariant
            i <= a@.len(),
            a@.len() == b@.len(),
            fields_alike(a@, b@, i as int),
        decreases i,
    {
        i -= 1;
        if !(a[i].name == b[i].name && a[i].type_id == b[i].type_id && a[i].is_pub == b[i].is_pub)
        {
            proof {
                lemma_fields_differ(a@, b@, 0, i as int);
            }
            return false;
        }
    }
    true
}

/// Lists of fields that differ at a position do not agree from any
/// position before it.
pub proof fn lemma_fields_differ(a: Seq<FieldType>, b: Seq<FieldType>, i: int, at: int)
    requires
        0 <= i <= at < a.len(),
        at < b.len(),
        !(a[at].name@ == b[at].name@ && a[at].type_id == b[at].type_id && a[at].is_pub
            == b[at].is_pub),
    ensures
        !fields_alike(a, b, i),
    decreases at - i,
{
    if i < at {
        lemma_fields_differ(a, b, i + 1, at);
    }
}

impl Type {
    /// Whether the two types are the same type: see [`TypeView::alike`].
    pub fn same(&self, other: &Type) -> (r: bool)
        ensures
            r == self@.alike(other@),
    {
        match (self, other) {
            (Type::Void, Type::Void) => true,
            (Type::Bool, Type::Bool) => true,
            (Type::Str, Type::Str) => true,
            (Type::String, Type::String) => true,
            (Type::Char, Type::Char) => true,
            (Type::Nothing, Type::Nothing) => true,
            (Type::Int(a), Type::Int(b)) => *a == *b,
            (Type::Usize(a), Type::Usize(b)) => *a == *b,
            (Type::Float(a), Type::Float(b)) => *a == *b,
            (Type::InferInt { bits: a }, Type::InferInt { bits: b }) => *a == *b,
            (Type::InferFloat { bits: a }, Type::InferFloat { bits: b }) => *a == *b,
            (
                Type::Borrow { value: a, mutable: a_mut },
                Type::Borrow { value: b, mutable: b_mut },
            ) => *a == *b && *a_mut == *b_mut,
            (Type::Alias(a), Type::Alias(b)) => *a == *b,
            (Type::Range { item: a }, Type::Range { item: b }) => *a == *b,
            (Type::Module { mod_id: a }, Type::Module { mod_id: b }) => *a == *b,
            (
                Type::Fn { params: a, ret: a_ret, generics: a_generics },
                Type::Fn { params: b, ret: b_ret, generics: b_generics },
            ) => same_ids(a, b) && *a_ret == *b_ret && same_ids(a_generics, b_generics),
            (Type::Struct { fields: a }, Type::Struct { fields: b }) => {
                proof {
                    lemma_fields_alike_reflexive(a@, 0);
                }
                same_fields(a, b)
            },
            _ => false,
        }
    }

    pub fn is_numeric(&self) -> (r: bool)
        ensures
            r == self@.is_numeric(),
    {
        match self {
            Type::Int(_) => true,
            Type::Usize(_) => true,
            Type::Float(_) => true,
            Type::InferInt { .. } => true,
            Type::InferFloat { .. } => true,
            _ => false,
        }
    }

    pub fn is_integer(&self) -> (r: bool)
        ensures
            r == self@.is_integer(),
    {
        match self {
            Type::Int(_) => true,
            Type::Usize(_) => true,
            Type::InferInt { .. } => true,
            _ => false,
        }
    }

    pub fn is_signed(&self) -> (r: bool)
        ensures
            r == self@.is_signed(),
    {
        match self {
            Type::Int(_) => true,
            Type::Float(_) => true,
            Type::InferInt { .. } => true,
            Type::InferFloat { .. } => true,
            _ => false,
        }
    }
}

/// The entry of `types` that `id` denotes, if there is one.
pub open spec fn lookup(types: Seq<TypeView>, id: TypeId) -> Option<TypeView> {
    if id.0 < types.len() {
        Some(types[id.0 as int])
    } else {
        None
    }
}

} // verus!
