//! Building the types that definitions describe.

use vstd::prelude::*;
use crate::ast;
use crate::diag::Diag;
use super::context::Context;
use super::resolve::resolve_type;
use super::rules::{self, ResolvedFields};
use super::types::FieldType;

verus! {

/// The field of a struct type that a field of a definition describes. The
/// type of the field is recorded at the span of its name.
pub fn synthesise_field(field: &ast::FieldType, ctx: &mut Context) -> (r: Result<FieldType, Diag>)
    requires
        old(ctx).wf(),
    ensures
        final(ctx).wf(),
        match rules::resolve_rule(old(ctx)@, field.ast_type).result {
            Ok(type_id) => r == Ok::<FieldType, Diag>(
                FieldType { name: field.ident.text, type_id, is_pub: field.is_pub },
            ) && final(ctx)@ == rules::resolve_rule(old(ctx)@, field.ast_type).ctx.note(
                field.ident.range,
                type_id,
            ),
            Err(diag) => r == Err::<FieldType, Diag>(diag) && final(ctx)@ == rules::resolve_rule(
                old(ctx)@,
                field.ast_type,
            ).ctx,
        },
{
    match resolve_type(ctx, &field.ast_type) {
        Ok(type_id) => {
            ctx.note_type(field.ident.range, type_id);
            Ok(FieldType { name: field.ident.text.clone(), type_id, is_pub: field.is_pub })
        },
        Err(diag) => Err(diag),
    }
}

/// The fields of the struct type that a definition describes, in the
/// order of the definition: see [`rules::fields_rule`].
#[verifier::loop_isolation(false)]
pub fn synthesise_struct_def(struct_def: &ast::StructType, ctx: &mut Context) -> (r: Result<
    Vec<FieldType>,
    Diag,
>)
    requires
        old(ctx).wf(),
    ensures
        final(ctx).wf(),
        ResolvedFields::of(final(ctx)@, r) == rules::fields_rule(
            old(ctx)@,
            struct_def.fields@,
            0,
            Seq::empty(),
        ),
{
    let fields = &struct_def.fields;
    let ghost goal = rules::fields_rule(ctx@, fields@, 0, Seq::empty());
    let mut done: Vec<FieldType> = Vec::new();
    let mut i: usize = 0;
    while i < fields.len()
        invariant
            i <= fields@.len(),
            ctx.wf(),
            goal == rules::fields_rule(ctx@, fields@, i as int, done@),
        decreases fields@.len() - i,
    {
        match synthesise_field(&fields[i], ctx) {
            Ok(field) => {
                done.push(field);
            },
            Err(diag) => {
                return Err(diag);
            },
        }
        i += 1;
    }
    Ok(done)
}

} // verus!
