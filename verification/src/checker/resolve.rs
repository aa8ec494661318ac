//! Resolving the annotations of bindings, functions and struct fields.

use vstd::prelude::*;
use crate::ast::{AstType, Binding};
use crate::diag::Diag;
use super::context::Context;
use super::rules::{self, Checked, Resolved};
use super::types::{FieldType, Type, TypeId};

verus! {

/// A copy of a list of handles.
pub fn copy_ids(ids: &Vec<TypeId>) -> (r: Vec<TypeId>)
    ensures
        r@ == ids@,
{
    let mut out: Vec<TypeId> = Vec::new();
    let mut i: usize = 0;
    while i < ids.len()
        invariant
            i <= ids@.len(),
            out@ == ids@.take(i as int),
        decreases ids@.len() - i,
    {
        out.push(ids[i]);
        proof {
            assert(ids@.take(i + 1) =~= ids@.take(i as int).push(ids@[i as int]));
        }
        i += 1;
    }
    proof {
        assert(ids@.take(i as int) =~= ids@);
    }
    out
}

/// A copy of the fields of a struct type.
pub fn copy_fields(fields: &Vec<FieldType>) -> (r: Vec<FieldType>)
    ensures
        r@ == fields@,
{
    let mut out: Vec<FieldType> = Vec::new();
    let mut i: usize = 0;
    while i < fields.len()
        invariant
            i <= fields@.len(),
            out@ == fields@.take(i as int),
        decreases fields@.len() - i,
    {
        let field = &fields[i];
        out.push(
            FieldType { name: field.name.clone(), type_id: field.type_id, is_pub: field.is_pub },
        );
        proof {
            assert(fields@.take(i + 1) =~= fields@.take(i as int).push(fields@[i as int]));
        }
        i += 1;
    }
    proof {
        assert(fields@.take(i as int) =~= fields@);
    }
    out
}

/// The type that an annotation denotes: see [`rules::resolve_rule`].
pub fn resolve_type(ctx: &mut Context, ty: &AstType) -> (r: Result<TypeId, Diag>)
    requires
        old(ctx).wf(),
    ensures
        final(ctx).wf(),
        Checked::of(final(ctx)@, r) == rules::resolve_rule(old(ctx)@, *ty),
    decreases ty,
{
    match ty {
        AstType::Void { .. } => Ok(TypeId::void()),
        AstType::Bool { .. } => Ok(TypeId::bool()),
        AstType::Char { .. } => Ok(TypeId::char()),
        AstType::Str { .. } => Ok(TypeId::str()),
        AstType::String { .. } => Ok(TypeId::string()),
        AstType::Number { number, .. } => Ok(TypeId::from(number)),
        AstType::Ident(ident) => match ctx.get_type_value(ident.text.as_str()) {
            Some(value) => Ok(value.type_id),
            None => Err(Diag::unknown_type(&ident.text, ident.range)),
        },
        AstType::Borrow { value, mutable, .. } => {
            let inner = match resolve_type(ctx, value) {
                Ok(inner) => inner,
                Err(diag) => {
                    return Err(diag);
                },
            };
            Ok(ctx.add_type(Type::Borrow { value: inner, mutable: *mutable }))
        },
        AstType::Fn { params, ret, .. } => {
            let param_types = match resolve_types(ctx, params) {
                Ok(param_types) => param_types,
                Err(diag) => {
                    return Err(diag);
                },
            };
            let result = match resolve_type(ctx, ret) {
                Ok(result) => result,
                Err(diag) => {
                    return Err(diag);
                },
            };
            Ok(ctx.add_type(Type::Fn { params: param_types, ret: result, generics: Vec::new() }))
        },
    }
}

/// Resolves a list of annotations: see [`rules::resolve_all`].
#[verifier::loop_isolation(false)]
pub fn resolve_types(ctx: &mut Context, types: &Vec<AstType>) -> (r: Result<Vec<TypeId>, Diag>)
    requires
        old(ctx).wf(),
    ensures
        final(ctx).wf(),
        Resolved::of(final(ctx)@, r) == rules::resolve_all(old(ctx)@, types@, 0, Seq::empty()),
    decreases types, types.len(),
{
    let ghost goal = rules::resolve_all(ctx@, types@, 0, Seq::empty());
    let mut done: Vec<TypeId> = Vec::new();
    let mut i: usize = 0;
    while i < types.len()
        invariant
            i <= types@.len(),
            ctx.wf(),
            goal == rules::resolve_all(ctx@, types@, i as int, done@),
        decreases types@.len() - i,
    {
        match resolve_type(ctx, &types[i]) {
            Ok(type_id) => {
                done.push(type_id);
            },
            Err(diag) => {
                return Err(diag);
            },
        }
        i += 1;
    }
    Ok(done)
}

/// The types of the parameters of a function: see [`rules::params_rule`].
#[verifier::loop_isolation(false)]
pub fn resolve_params(ctx: &mut Context, params: &Vec<Binding>, receiver: Option<TypeId>) -> (r:
    Result<Vec<TypeId>, Diag>)
    requires
        old(ctx).wf(),
    ensures
        final(ctx).wf(),
        Resolved::of(final(ctx)@, r) == rules::params_rule(
            old(ctx)@,
            params@,
            receiver,
            0,
            Seq::empty(),
        ),
{
    let ghost goal = rules::params_rule(ctx@, params@, receiver, 0, Seq::empty());
    let mut done: Vec<TypeId> = Vec::new();
    let mut i: usize = 0;
    while i < params.len()
        invariant
            i <= params@.len(),
            ctx.wf(),
            goal == rules::params_rule(ctx@, params@, receiver, i as int, done@),
        decreases params@.len() - i,
    {
        let param = &params[i];
        match &param.ty {
            Some(ty) => match resolve_type(ctx, ty) {
                Ok(type_id) => {
                    done.push(type_id);
                },
                Err(diag) => {
                    return Err(diag);
                },
            },
            None => {
                let is_self = i == 0 && is_self_name(param.ident.text.as_str());
                if is_self && receiver.is_some() {
                    done.push(receiver.unwrap());
                } else {
                    return Err(Diag::unknown_type(&param.ident.text, param.ident.range));
                }
            },
        }
        i += 1;
    }
    Ok(done)
}

/// Whether `name` is `self`.
pub fn is_self_name(name: &str) -> (r: bool)
    ensures
        r == (name@ == "self"@),
{
    same_text(name, "self")
}

/// Whether two strings hold the same characters.
pub fn same_text(a: &str, b: &str) -> (r: bool)
    ensures
        r == (a@ == b@),
{
    let n = a.unicode_len();
    if n != b.unicode_len() {
        return false;
    }
    let mut i: usize = 0;
    while i < n
        invariant
            i <= n,
            n == a@.len(),
            n == b@.len(),
            a@.take(i as int) == b@.take(i as int),
        decreases n - i,
    {
        if a.get_char(i) != b.get_char(i) {
            return false;
        }
        proof {
            assert(a@.take(i + 1) =~= a@.take(i as int).push(a@[i as int]));
            assert(b@.take(i + 1) =~= b@.take(i as int).push(b@[i as int]));
        }
        i += 1;
    }
    proof {
        assert(a@.take(n as int) =~= a@);
        assert(b@.take(n as int) =~= b@);
    }
    true
}

/// The type of a function: see [`rules::signature_rule`].
pub fn resolve_signature(
    ctx: &mut Context,
    params: &Vec<Binding>,
    ret_type: &Option<AstType>,
    receiver: Option<TypeId>,
) -> (r: Result<TypeId, Diag>)
    requires
        old(ctx).wf(),
    ensures
        final(ctx).wf(),
        Checked::of(final(ctx)@, r) == rules::signature_rule(
            old(ctx)@,
            params@,
            *ret_type,
            receiver,
        ),
{
    let param_types = match resolve_params(ctx, params, receiver) {
        Ok(param_types) => param_types,
        Err(diag) => {
            return Err(diag);
        },
    };
    let ret = match ret_type {
        Some(ty) => match resolve_type(ctx, ty) {
            Ok(ret) => ret,
            Err(diag) => {
                return Err(diag);
            },
        },
        None => TypeId::void(),
    };
    Ok(ctx.add_type(Type::Fn { params: param_types, ret, generics: Vec::new() }))
}

/// Binds the parameters of a function: see [`rules::declare_params`].
#[verifier::loop_isolation(false)]
pub fn declare_params(ctx: &mut Context, params: &Vec<Binding>, types: &Vec<TypeId>)
    requires
        old(ctx).wf(),
    ensures
        final(ctx).wf(),
        final(ctx)@ == rules::declare_params(old(ctx)@, params@, types@, 0),
{
    let ghost goal = rules::declare_params(ctx@, params@, types@, 0);
    let mut i: usize = 0;
    while i < params.len() && i < types.len()
        invariant
            ctx.wf(),
            goal == rules::declare_params(ctx@, params@, types@, i as int),
        decreases params@.len() - i,
    {
        ctx.add_value_external(params[i].ident.text.as_str(), types[i], false);
        i += 1;
    }
}

} // verus!
