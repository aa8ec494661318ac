//! How types are written in messages and listings.

use vstd::prelude::*;
use vstd::string::StringExecFns;
use super::{lookup, FieldType, FloatKind, IntKind, Type, TypeId, TypeStore, TypeView, UsizeKind};

verus! {

pub open spec fn int_text(kind: IntKind) -> Seq<char> {
    match kind {
        IntKind::I8 => "i8"@,
        IntKind::I16 => "i16"@,
        IntKind::I32 => "i32"@,
        IntKind::I64 => "i64"@,
        IntKind::Isize => "isize"@,
    }
}

pub open spec fn usize_text(kind: UsizeKind) -> Seq<char> {
    match kind {
        UsizeKind::U8 => "u8"@,
        UsizeKind::U16 => "u16"@,
        UsizeKind::U32 => "u32"@,
        UsizeKind::U64 => "u64"@,
        UsizeKind::Usize => "usize"@,
    }
}

/// The letter `f` and the width.
pub open spec fn float_text(kind: FloatKind) -> Seq<char> {
    match kind {
        FloatKind::F32 => "f"@ + "32"@,
        FloatKind::F64 => "f"@ + "64"@,
    }
}

/// How the type behind `id` is written, following the types that it is
/// made of `depth` levels deep; `...` stands for what lies deeper, and `?`
/// for a handle that the store did not give out. A reference is written
/// `&T` or `&mut T`, a struct `struct { name: T, .. }`, a function
/// `fn(T, ..): R`, a range `range<T>`, an alias as what it stands for,
/// and a literal not yet resolved `int` or `float`.
pub open spec fn type_text(types: Seq<TypeView>, id: TypeId, depth: nat) -> Seq<char>
    decreases depth, 0nat,
{
    match lookup(types, id) {
        None => "?"@,
        Some(ty) => match ty {
            TypeView::Void => "void"@,
            TypeView::Bool => "bool"@,
            TypeView::Str => "str"@,
            TypeView::String => "string"@,
            TypeView::Char => "char"@,
            TypeView::Int(kind) => int_text(kind),
            TypeView::Usize(kind) => usize_text(kind),
            TypeView::Float(kind) => float_text(kind),
            TypeView::Nothing => "nothing"@,
            TypeView::InferInt { .. } => "int"@,
            TypeView::InferFloat { .. } => "float"@,
            TypeView::Module { .. } => "module"@,
            TypeView::Borrow { value, mutable } => if depth == 0 {
                "..."@
            } else {
                (if mutable {
                    "&mut "@
                } else {
                    "&"@
                }) + type_text(types, value, (depth - 1) as nat)
            },
            TypeView::Alias(target) => if depth == 0 {
                "..."@
            } else {
                type_text(types, target, (depth - 1) as nat)
            },
            TypeView::Range { item } => if depth == 0 {
                "..."@
            } else {
                "range<"@ + type_text(types, item, (depth - 1) as nat) + ">"@
            },
            TypeView::Struct { fields } => if depth == 0 {
                "..."@
            } else {
                "struct { "@ + fields_text(types, fields, 0, (depth - 1) as nat) + "}"@
            },
            TypeView::Fn { params, ret, .. } => if depth == 0 {
                "..."@
            } else {
                "fn("@ + types_text(types, params, 0, (depth - 1) as nat) + "): "@ + type_text(
                    types,
                    ret,
                    (depth - 1) as nat,
                )
            },
        },
    }
}

/// The fields from position `i` on, each as `name: T` and a comma or,
/// after the last, a space.
pub open spec fn fields_text(types: Seq<TypeView>, fields: Seq<FieldType>, i: int, depth: nat) -> Seq<char>
    decreases depth, fields.len() - i + 1,
{
    if i < 0 || i >= fields.len() {
        Seq::empty()
    } else {
        fields[i].name@ + ": "@ + type_text(types, fields[i].type_id, depth) + (if i
            == fields.len() - 1 {
            " "@
        } else {
            ", "@
        }) + fields_text(types, fields, i + 1, depth)
    }
}

/// The types from position `i` on, with `, ` between them.
pub open spec fn types_text(types: Seq<TypeView>, ids: Seq<TypeId>, i: int, depth: nat) -> Seq<char>
    decreases depth, ids.len() - i + 1,
{
    if i < 0 || i >= ids.len() {
        Seq::empty()
    } else {
        type_text(types, ids[i], depth) + (if i == ids.len() - 1 {
            Seq::<char>::empty()
        } else {
            ", "@
        }) + types_text(types, ids, i + 1, depth)
    }
}

/// How the type behind `id` is written. Types are followed as deep as the
/// store has types.
pub open spec fn display_text(types: Seq<TypeView>, id: TypeId) -> Seq<char> {
    type_text(types, id, types.len())
}

fn int_name(kind: &IntKind) -> (r: &'static str)
    ensures
        r@ == int_text(*kind),
{
    match kind {
        IntKind::I8 => "i8",
        IntKind::I16 => "i16",
        IntKind::I32 => "i32",
        IntKind::I64 => "i64",
        IntKind::Isize => "isize",
    }
}

fn usize_name(kind: &UsizeKind) -> (r: &'static str)
    ensures
        r@ == usize_text(*kind),
{
    match kind {
        UsizeKind::U8 => "u8",
        UsizeKind::U16 => "u16",
        UsizeKind::U32 => "u32",
        UsizeKind::U64 => "u64",
        UsizeKind::Usize => "usize",
    }
}

/// Appends the type behind `id`: see [`type_text`].
pub fn append_type(out: &mut String, store: &TypeStore, id: TypeId, depth: usize)
    ensures
        final(out)@ == old(out)@ + type_text(store@, id, depth as nat),
    decreases depth, 0nat,
{
    match store.get_type(id) {
        None => out.append("?"),
        Some(ty) => match ty {
            Type::Void => out.append("void"),
            Type::Bool => out.append("bool"),
            Type::Str => out.append("str"),
            Type::String => out.append("string"),
            Type::Char => out.append("char"),
            Type::Int(kind) => out.append(int_name(kind)),
            Type::Usize(kind) => out.append(usize_name(kind)),
            Type::Float(kind) => {
                out.append("f");
                match kind {
                    FloatKind::F32 => out.append("32"),
                    FloatKind::F64 => out.append("64"),
                }
                assert(out@ =~= old(out)@ + float_text(*kind));
            },
            Type::Nothing => out.append("nothing"),
            Type::InferInt { .. } => out.append("int"),
            Type::InferFloat { .. } => out.append("float"),
            Type::Module { .. } => out.append("module"),
            Type::Borrow { value, mutable } => {
                if depth == 0 {
                    out.append("...");
                } else {
                    if *mutable {
                        out.append("&mut ");
                    } else {
                        out.append("&");
                    }
                    append_type(out, store, *value, depth - 1);
                    assert(out@ =~= old(out)@ + type_text(store@, id, depth as nat));
                }
            },
            Type::Alias(target) => {
                if depth == 0 {
                    out.append("...");
                } else {
                    append_type(out, store, *target, depth - 1);
                }
            },
            Type::Range { item } => {
                if depth == 0 {
                    out.append("...");
                } else {
                    out.append("range<");
                    append_type(out, store, *item, depth - 1);
                    out.append(">");
                    assert(out@ =~= old(out)@ + type_text(store@, id, depth as nat));
                }
            },
            Type::Struct { fields } => {
                if depth == 0 {
                    out.append("...");
                } else {
                    out.append("struct { ");
                    append_fields(out, store, fields, 0, depth - 1);
                    out.append("}");
                    assert(out@ =~= old(out)@ + type_text(store@, id, depth as nat));
                }
            },
            Type::Fn { params, ret, .. } => {
                if depth == 0 {
                    out.append("...");
                } else {
                    out.append("fn(");
                    append_types(out, store, params, 0, depth - 1);
                    out.append("): ");
                    append_type(out, store, *ret, depth - 1);
                    assert(out@ =~= old(out)@ + type_text(store@, id, depth as nat));
                }
            },
        },
    }
}

/// Appends the fields from position `from` on: see [`fields_text`].
pub fn append_fields(
    out: &mut String,
    store: &TypeStore,
    fields: &Vec<FieldType>,
    from: usize,
    depth: usize,
)
    ensures
        final(out)@ == old(out)@ + fields_text(store@, fields@, from as int, depth as nat),
    decreases depth, fields.len() - from + 1,
{
    if from >= fields.len() {
        assert(out@ =~= old(out)@ + Seq::<char>::empty());
        return ;
    }
    out.append(fields[from].name.as_str());
    out.append(": ");
    append_type(out, store, fields[from].type_id, depth);
    if from == fields.len() - 1 {
        out.append(" ");
    } else {
        out.append(", ");
    }
    append_fields(out, store, fields, from + 1, depth);
    assert(out@ =~= old(out)@ + fields_text(store@, fields@, from as int, depth as nat));
}

/// Appends the types from position `from` on: see [`types_text`].
pub fn append_types(out: &mut String, store: &TypeStore, ids: &Vec<TypeId>, from: usize, depth: usize)
    ensures
        final(out)@ == old(out)@ + types_text(store@, ids@, from as int, depth as nat),
    decreases depth, ids.len() - from + 1,
{
    if from >= ids.len() {
        assert(out@ =~= old(out)@ + Seq::<char>::empty());
        return ;
    }
    append_type(out, store, ids[from], depth);
    if from < ids.len() - 1 {
        out.append(", ");
    } else {
        assert(out@ =~= out@ + Seq::<char>::empty());
    }
    append_types(out, store, ids, from + 1, depth);
    assert(out@ =~= old(out)@ + types_text(store@, ids@, from as int, depth as nat));
}

impl TypeId {
    /// Appends to `text` how this type is written: see [`display_text`].
    pub fn display_type(&self, text: &mut String, store: &TypeStore)
        ensures
            final(text)@ == old(text)@ + display_text(store@, *self),
    {
        append_type(text, store, *self, store.len())
    }
}

impl TypeStore {
    /// How the type behind `type_id` is written: see [`display_text`].
    pub fn display(&self, type_id: TypeId) -> (r: String)
        ensures
            r@ == display_text(self@, type_id),
    {
        let mut text = String::new();
        type_id.display_type(&mut text, self);
        assert(text@ =~= display_text(self@, type_id));
        text
    }
}

} // verus!
