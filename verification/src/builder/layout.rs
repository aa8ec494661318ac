//! How much room a value takes, and whether that room is on the stack.

use vstd::prelude::*;
use crate::checker::types::{
    lookup, FieldType, FloatKind, IntKind, Type, TypeId, TypeStore, TypeView, UsizeKind,
};

verus! {

/// The largest value, in bytes, that is kept on the stack.
pub const STACK_LIMIT: u64 = 64;

/// The room that a value takes: its size in bytes, and whether it is
/// plain data, which holds no string.
#[derive(Debug, Clone, Copy, PartialEq, Eq, Structural)]
pub struct Layout {
    pub size: u64,
    pub plain: bool,
}

impl Layout {
    /// Whether a value of this layout is kept on the heap: it is, unless
    /// it is plain data of at most [`STACK_LIMIT`] bytes.
    #[verifier::allow_in_spec]
    pub fn on_heap(&self) -> bool
        returns
            (!self.plain || self.size > STACK_LIMIT),
    {
        !self.plain || self.size > STACK_LIMIT
    }

    /// The layout of one value of this layout beside one of the other.
    /// The size stops at the largest 64-bit number.
    pub open spec fn beside(self, other: Layout) -> Layout {
        Layout {
            size: if self.size + other.size > u64::MAX {
                u64::MAX
            } else {
                (self.size + other.size) as u64
            },
            plain: self.plain && other.plain,
        }
    }

    pub fn join(&self, other: &Layout) -> (r: Layout)
        ensures
            r == self.beside(*other),
    {
        let size = match self.size.checked_add(other.size) {
            Some(size) => size,
            None => u64::MAX,
        };
        Layout { size, plain: self.plain && other.plain }
    }
}

pub open spec fn plain_of(size: u64) -> Layout {
    Layout { size, plain: true }
}

/// The layout of a value of the type behind `id`, following the types
/// that it is made of `depth` levels deep. Integers and floats take their
/// width, the integers of pointer size and references 8 bytes, a `char`
/// 4; a literal not yet resolved counts as its default type; a struct
/// takes the sum of its fields; a range takes two items. A string slice
/// takes 16 bytes and a string 24, and neither is plain.
pub open spec fn layout_within(types: Seq<TypeView>, id: TypeId, depth: nat) -> Layout
    decreases depth, 0nat,
{
    match lookup(types, id) {
        None => plain_of(0),
        Some(ty) => match ty {
            TypeView::Void => plain_of(0),
            TypeView::Nothing => plain_of(0),
            TypeView::Module { .. } => plain_of(0),
            TypeView::Bool => plain_of(1),
            TypeView::Char => plain_of(4),
            TypeView::Int(kind) => plain_of(
                match kind {
                    IntKind::I8 => 1,
                    IntKind::I16 => 2,
                    IntKind::I32 => 4,
                    IntKind::I64 => 8,
                    IntKind::Isize => 8,
                },
            ),
            TypeView::Usize(kind) => plain_of(
                match kind {
                    UsizeKind::U8 => 1,
                    UsizeKind::U16 => 2,
                    UsizeKind::U32 => 4,
                    UsizeKind::U64 => 8,
                    UsizeKind::Usize => 8,
                },
            ),
            TypeView::Float(kind) => plain_of(
                match kind {
                    FloatKind::F32 => 4,
                    FloatKind::F64 => 8,
                },
            ),
            TypeView::InferInt { .. } => plain_of(4),
            TypeView::InferFloat { .. } => plain_of(8),
            TypeView::Borrow { .. } => plain_of(8),
            TypeView::Fn { .. } => plain_of(8),
            TypeView::Str => Layout { size: 16, plain: false },
            TypeView::String => Layout { size: 24, plain: false },
            TypeView::Alias(target) => if depth > 0 {
                layout_within(types, target, (depth - 1) as nat)
            } else {
                plain_of(0)
            },
            TypeView::Range { item } => if depth > 0 {
                layout_within(types, item, (depth - 1) as nat).beside(
                    layout_within(types, item, (depth - 1) as nat),
                )
            } else {
                plain_of(0)
            },
            TypeView::Struct { fields } => if depth > 0 {
                fields_layout(types, fields, 0, (depth - 1) as nat)
            } else {
                plain_of(0)
            },
        },
    }
}

/// The layout of the fields from position `i` on, one beside the other.
pub open spec fn fields_layout(types: Seq<TypeView>, fields: Seq<FieldType>, i: int, depth: nat) -> Layout
    decreases depth, fields.len() - i + 1,
{
    if i < 0 || i >= fields.len() {
        plain_of(0)
    } else {
        layout_within(types, fields[i].type_id, depth).beside(
            fields_layout(types, fields, i + 1, depth),
        )
    }
}

/// The layout of a value of the type behind `id`. Types are followed as
/// deep as the store has types.
pub open spec fn layout_of(types: Seq<TypeView>, id: TypeId) -> Layout {
    layout_within(types, id, types.len())
}

/// See [`layout_within`].
pub fn layout_upto(store: &TypeStore, id: TypeId, depth: usize) -> (r: Layout)
    ensures
        r == layout_within(store@, id, depth as nat),
    decreases depth, 0nat,
{
    match store.get_type(id) {
        None => Layout { size: 0, plain: true },
        Some(ty) => match ty {
            Type::Void => Layout { size: 0, plain: true },
            Type::Nothing => Layout { size: 0, plain: true },
            Type::Module { .. } => Layout { size: 0, plain: true },
            Type::Bool => Layout { size: 1, plain: true },
            Type::Char => Layout { size: 4, plain: true },
            Type::Int(kind) => Layout {
                size: match kind {
                    IntKind::I8 => 1,
                    IntKind::I16 => 2,
                    IntKind::I32 => 4,
                    IntKind::I64 => 8,
                    IntKind::Isize => 8,
                },
                plain: true,
            },
            Type::Usize(kind) => Layout {
                size: match kind {
                    UsizeKind::U8 => 1,
                    UsizeKind::U16 => 2,
                    UsizeKind::U32 => 4,
                    UsizeKind::U64 => 8,
                    UsizeKind::Usize => 8,
                },
                plain: true,
            },
            Type::Float(kind) => Layout {
                size: match kind {
                    FloatKind::F32 => 4,
                    FloatKind::F64 => 8,
                },
                plain: true,
            },
            Type::InferInt { .. } => Layout { size: 4, plain: true },
            Type::InferFloat { .. } => Layout { size: 8, plain: true },
            Type::Borrow { .. } => Layout { size: 8, plain: true },
            Type::Fn { .. } => Layout { size: 8, plain: true },
            Type::Str => Layout { size: 16, plain: false },
            Type::String => Layout { size: 24, plain: false },
            Type::Alias(target) => if depth > 0 {
                layout_upto(store, *target, depth - 1)
            } else {
                Layout { size: 0, plain: true }
            },
            Type::Range { item } => if depth > 0 {
                let one = layout_upto(store, *item, depth - 1);
                one.join(&one)
            } else {
                Layout { size: 0, plain: true }
            },
            Type::Struct { fields } => if depth > 0 {
                fields_layout_upto(store, fields, 0, depth - 1)
            } else {
                Layout { size: 0, plain: true }
            },
        },
    }
}

/// See [`fields_layout`].
pub fn fields_layout_upto(store: &TypeStore, fields: &Vec<FieldType>, from: usize, depth: usize) -> (r:
    Layout)
    ensures
        r == fields_layout(store@, fields@, from as int, depth as nat),
    decreases depth, fields.len() - from + 1,
{
    if from >= fields.len() {
        Layout { size: 0, plain: true }
    } else {
        let first = layout_upto(store, fields[from].type_id, depth);
        let rest = fields_layout_upto(store, fields, from + 1, depth);
        first.join(&rest)
    }
}

/// The layout of a value of the type behind `id`: see [`layout_of`].
pub fn layout(store: &TypeStore, id: TypeId) -> (r: Layout)
    ensures
        r == layout_of(store@, id),
{
    layout_upto(store, id, store.len())
}

/// The size at which a value of the type behind `type_id` must be kept
/// on the heap, if it must.
pub fn is_need_heap_allocation(store: &TypeStore, type_id: TypeId) -> (r: Option<u64>)
    ensures
        r == if layout_of(store@, type_id).on_heap() {
            Some(layout_of(store@, type_id).size)
        } else {
            None
        },
{
    let found = layout(store, type_id);
    if found.on_heap() {
        Some(found.size)
    } else {
        None
    }
}

} // verus!
