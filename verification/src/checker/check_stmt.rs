//! Checking statements.

use vstd::prelude::*;
use crate::ast::{
    Binding, BlockStmt, ConstDelStmt, ConstFnStmt, ExternFnStmt, FnBody, FnStmt, ForStmt, IfStmt,
    ImplStmt, LetStmt, OperatorKind, RetStmt, Stmt, TypeDefKind, TypeDefStmt, WhileStmt,
};
use crate::diag::{Diag, DiagKind};
use crate::range::Range;
use super::check_expr::{check_expr, expect_type, fn_parts, qualified_name};
use super::context::scope::{Namespace, ScopeType};
use super::context::value::ValueOrigin;
use super::context::Context;
use super::equal_type::equal_type_id;
use super::infer::{infer_no_type_anotation, infer_type};
use super::resolve::{declare_params, is_self_name, resolve_signature, resolve_type};
use super::synthesis::synthesise_struct_def;
use super::rules::{self, Checked};
use super::types::{Type, TypeId};

verus! {

/// See [`rules::implicit_return`].
pub fn implicit_return(ctx: &Context, ret: TypeId, found: TypeId, at: Range) -> (r: Result<
    TypeId,
    Diag,
>)
    ensures
        Checked::of(ctx@, r) == rules::implicit_return(ctx@, ret, found, at),
{
    let resolved = infer_type(&ctx.type_store, ret, found);
    if equal_type_id(&ctx.type_store, ret, resolved) {
        Ok(ret)
    } else {
        Err(Diag::new(DiagKind::MissingReturn { expected: ret }, at))
    }
}

/// Checks the body of a function value: see [`rules::body_rule`].
pub fn check_body(ctx: &mut Context, body: &Stmt, ret: TypeId) -> (r: Result<TypeId, Diag>)
    requires
        old(ctx).wf(),
    ensures
        final(ctx).wf(),
        Checked::of(final(ctx)@, r) == rules::body_rule(old(ctx)@, *body, ret),
    decreases body, 2nat,
{
    match body {
        Stmt::Block(block) => check_body_stmts(ctx, &block.stmts, ret, block.range),
        Stmt::Expr(e) => {
            let value = match check_expr(ctx, e) {
                Ok(value) => value,
                Err(diag) => {
                    return Err(diag);
                },
            };
            implicit_return(ctx, ret, value, e.get_range())
        },
        _ => {
            let exit = match check_stmt(ctx, body) {
                Ok(exit) => exit,
                Err(diag) => {
                    return Err(diag);
                },
            };
            if !exit.is_nothing() {
                return Ok(exit);
            }
            implicit_return(ctx, ret, TypeId::void(), body.get_range())
        },
    }
}

/// Checks the statements of a function body: see
/// [`rules::body_stmts_rule`].
#[verifier::loop_isolation(false)]
pub fn check_body_stmts(ctx: &mut Context, stmts: &Vec<Stmt>, ret: TypeId, at: Range) -> (r:
    Result<TypeId, Diag>)
    requires
        old(ctx).wf(),
    ensures
        final(ctx).wf(),
        Checked::of(final(ctx)@, r) == rules::body_stmts_rule(old(ctx)@, stmts@, 0, ret, at),
    decreases stmts,
{
    let ghost goal = rules::body_stmts_rule(ctx@, stmts@, 0, ret, at);
    let mut i: usize = 0;
    while i < stmts.len()
        invariant
            ctx.wf(),
            goal == rules::body_stmts_rule(ctx@, stmts@, i as int, ret, at),
        decreases stmts@.len() - i,
    {
        let stmt = &stmts[i];
        let last = i == stmts.len() - 1;
        match stmt {
            Stmt::Expr(e) => {
                proof {
                    assert(rules::definition_rule(ctx@, *stmt) == rules::check_expr(ctx@, *e));
                    assert(rules::check_stmt(ctx@, *stmt) == rules::check_expr(ctx@, *e).giving(
                        TypeId::nothing(),
                    ));
                }
                let value = match check_expr(ctx, e) {
                    Ok(value) => value,
                    Err(diag) => {
                        return Err(diag);
                    },
                };
                if last {
                    return implicit_return(ctx, ret, value, e.get_range());
                }
            },
            _ => {
                let exit = match check_stmt(ctx, stmt) {
                    Ok(exit) => exit,
                    Err(diag) => {
                        return Err(diag);
                    },
                };
                if !exit.is_nothing() {
                    return Ok(exit);
                }
            },
        }
        i += 1;
    }
    implicit_return(ctx, ret, TypeId::void(), at)
}

/// Checks a function of the given type: see [`rules::function_rule`].
pub fn check_function(
    ctx: &mut Context,
    fn_type: TypeId,
    constant: bool,
    params: &Vec<Binding>,
    body: &FnBody,
) -> (r: Result<TypeId, Diag>)
    requires
        old(ctx).wf(),
    ensures
        final(ctx).wf(),
        Checked::of(final(ctx)@, r) == rules::function_rule(
            old(ctx)@,
            fn_type,
            constant,
            params@,
            *body,
        ),
    decreases body, 0nat,
{
    let (param_types, ret) = fn_parts(&ctx.type_store, fn_type);
    let scope = if constant {
        ScopeType::ConstFn { ret_type: ret }
    } else {
        ScopeType::Fn { ret_type: ret }
    };
    ctx.enter_scope(scope);
    declare_params(ctx, params, &param_types);
    let done = match body {
        FnBody::Block(block) => check_body_stmts(ctx, &block.stmts, ret, block.range),
        FnBody::Expr(e) => match check_expr(ctx, e) {
            Ok(value) => implicit_return(ctx, ret, value, e.get_range()),
            Err(diag) => Err(diag),
        },
    };
    ctx.exit_scope();
    match done {
        Ok(_) => Ok(TypeId::nothing()),
        Err(diag) => Err(diag),
    }
}

/// The exit type of a statement: see [`rules::check_stmt`].
pub fn check_stmt(ctx: &mut Context, stmt: &Stmt) -> (r: Result<TypeId, Diag>)
    requires
        old(ctx).wf(),
    ensures
        final(ctx).wf(),
        Checked::of(final(ctx)@, r) == rules::check_stmt(old(ctx)@, *stmt),
    decreases stmt, 1nat,
{
    let done = match stmt {
        Stmt::Ret(ret_stmt) => {
            return check_ret_stmt(ctx, ret_stmt);
        },
        Stmt::Block(block) => {
            return check_block_stmt(ctx, block);
        },
        Stmt::If(if_stmt) => {
            return check_if_stmt(ctx, if_stmt);
        },
        Stmt::Expr(e) => check_expr(ctx, e),
        Stmt::Let(let_stmt) => check_let_stmt(ctx, let_stmt),
        Stmt::ConstDel(const_del) => check_const_del_stmt(ctx, const_del),
        Stmt::Fn(fn_stmt) => check_fn_stmt(ctx, fn_stmt),
        Stmt::ConstFn(const_fn) => check_const_fn_stmt(ctx, const_fn),
        Stmt::ExternFn(extern_fn) => check_extern_fn_stmt(ctx, extern_fn),
        Stmt::While(while_stmt) => check_while_stmt(ctx, while_stmt),
        Stmt::For(for_stmt) => check_for_stmt(ctx, for_stmt),
        Stmt::TypeDef(type_def) => check_type_def_stmt(ctx, type_def),
        Stmt::Impl(impl_stmt) => check_impl_stmt(ctx, impl_stmt),
    };
    match done {
        Ok(_) => Ok(TypeId::nothing()),
        Err(diag) => Err(diag),
    }
}

/// Binds a name to the value of its initialiser: see [`rules::bind_rule`].
pub fn bind_value(
    ctx: &mut Context,
    binding: &Binding,
    found: TypeId,
    is_mut: bool,
    value_at: Range,
    at: Range,
) -> (r: Result<TypeId, Diag>)
    requires
        old(ctx).wf(),
    ensures
        final(ctx).wf(),
        Checked::of(final(ctx)@, r) == rules::bind_rule(
            old(ctx)@,
            *binding,
            found,
            is_mut,
            value_at,
            at,
        ),
{
    let ty = match &binding.ty {
        Some(annotation) => {
            let wanted = match resolve_type(ctx, annotation) {
                Ok(wanted) => wanted,
                Err(diag) => {
                    return Err(diag);
                },
            };
            let resolved = infer_type(&ctx.type_store, wanted, found);
            if !equal_type_id(&ctx.type_store, wanted, resolved) {
                return Err(
                    Diag::with_secondary(
                        DiagKind::TypeMismatch { expected: wanted, found: resolved },
                        value_at,
                        annotation.get_range(),
                    ),
                );
            }
            wanted
        },
        None => infer_no_type_anotation(&ctx.type_store, found),
    };
    ctx.add_value(binding.ident.text.as_str(), ty, is_mut);
    ctx.note_type(at, ty);
    Ok(TypeId::nothing())
}

pub fn check_let_stmt(ctx: &mut Context, let_stmt: &LetStmt) -> (r: Result<TypeId, Diag>)
    requires
        old(ctx).wf(),
    ensures
        final(ctx).wf(),
        Checked::of(final(ctx)@, r) == rules::let_rule(old(ctx)@, *let_stmt),
    decreases let_stmt, 0nat,
{
    let value = match check_expr(ctx, &let_stmt.expr) {
        Ok(value) => value,
        Err(diag) => {
            return Err(diag);
        },
    };
    bind_value(
        ctx,
        &let_stmt.bind,
        value,
        let_stmt.is_mut(),
        let_stmt.expr.get_range(),
        let_stmt.get_range(),
    )
}

pub fn check_const_del_stmt(ctx: &mut Context, const_del: &ConstDelStmt) -> (r: Result<
    TypeId,
    Diag,
>)
    requires
        old(ctx).wf(),
    ensures
        final(ctx).wf(),
        Checked::of(final(ctx)@, r) == rules::const_rule(old(ctx)@, *const_del),
    decreases const_del, 0nat,
{
    let value = match check_expr(ctx, &const_del.expr) {
        Ok(value) => value,
        Err(diag) => {
            return Err(diag);
        },
    };
    bind_value(
        ctx,
        &const_del.name,
        value,
        false,
        const_del.expr.get_range(),
        const_del.get_range(),
    )
}

pub fn check_fn_stmt(ctx: &mut Context, fn_stmt: &FnStmt) -> (r: Result<TypeId, Diag>)
    requires
        old(ctx).wf(),
    ensures
        final(ctx).wf(),
        Checked::of(final(ctx)@, r) == rules::fn_rule(old(ctx)@, *fn_stmt),
    decreases fn_stmt, 0nat,
{
    let fn_type = match resolve_signature(ctx, &fn_stmt.params, &fn_stmt.ret_type, None) {
        Ok(fn_type) => fn_type,
        Err(diag) => {
            return Err(diag);
        },
    };
    ctx.declare(
        Namespace::Functions,
        fn_stmt.name.text.as_str(),
        fn_type,
        false,
        ValueOrigin::Scoped,
    );
    ctx.note_type(fn_stmt.name.range, fn_type);
    check_function(ctx, fn_type, false, &fn_stmt.params, &fn_stmt.body)
}

pub fn check_const_fn_stmt(ctx: &mut Context, const_fn: &ConstFnStmt) -> (r: Result<TypeId, Diag>)
    requires
        old(ctx).wf(),
    ensures
        final(ctx).wf(),
        Checked::of(final(ctx)@, r) == rules::const_fn_rule(old(ctx)@, *const_fn),
    decreases const_fn, 0nat,
{
    let fn_type = match resolve_signature(ctx, &const_fn.params, &const_fn.ret_type, None) {
        Ok(fn_type) => fn_type,
        Err(diag) => {
            return Err(diag);
        },
    };
    ctx.declare(
        Namespace::Functions,
        const_fn.name.text.as_str(),
        fn_type,
        false,
        ValueOrigin::Scoped,
    );
    ctx.note_type(const_fn.name.range, fn_type);
    check_function(ctx, fn_type, true, &const_fn.params, &const_fn.body)
}

pub fn check_extern_fn_stmt(ctx: &mut Context, extern_fn: &ExternFnStmt) -> (r: Result<
    TypeId,
    Diag,
>)
    requires
        old(ctx).wf(),
    ensures
        final(ctx).wf(),
        Checked::of(final(ctx)@, r) == rules::extern_fn_rule(old(ctx)@, *extern_fn),
{
    let fn_type = match resolve_signature(ctx, &extern_fn.params, &extern_fn.ret_type, None) {
        Ok(fn_type) => fn_type,
        Err(diag) => {
            return Err(diag);
        },
    };
    ctx.declare(
        Namespace::Functions,
        extern_fn.name.text.as_str(),
        fn_type,
        false,
        ValueOrigin::External,
    );
    ctx.note_type(extern_fn.name.range, fn_type);
    Ok(TypeId::nothing())
}

/// See [`rules::returned`].
pub fn returned_type(declared: TypeId) -> (r: TypeId)
    ensures
        r == rules::returned(declared),
{
    if declared.is_nothing() {
        TypeId::void()
    } else {
        declared
    }
}

pub fn check_ret_stmt(ctx: &mut Context, ret_stmt: &RetStmt) -> (r: Result<TypeId, Diag>)
    requires
        old(ctx).wf(),
    ensures
        final(ctx).wf(),
        Checked::of(final(ctx)@, r) == rules::ret_rule(old(ctx)@, *ret_stmt),
    decreases ret_stmt, 0nat,
{
    let declared = match ctx.get_fn_scope_ret_type() {
        Some(declared) => declared,
        None => {
            return Err(Diag::new(DiagKind::ReturnOutsideFunction, ret_stmt.range));
        },
    };
    let met = match &ret_stmt.expr {
        None => expect_type(ctx, declared, TypeId::void(), ret_stmt.range),
        Some(e) => {
            let value = match check_expr(ctx, e) {
                Ok(value) => value,
                Err(diag) => {
                    return Err(diag);
                },
            };
            expect_type(ctx, declared, value, e.get_range())
        },
    };
    match met {
        Ok(_) => Ok(returned_type(declared)),
        Err(diag) => Err(diag),
    }
}

/// Checks the statements of a block: see [`rules::stmts_rule`].
#[verifier::loop_isolation(false)]
pub fn check_stmts(ctx: &mut Context, stmts: &Vec<Stmt>) -> (r: Result<TypeId, Diag>)
    requires
        old(ctx).wf(),
    ensures
        final(ctx).wf(),
        Checked::of(final(ctx)@, r) == rules::stmts_rule(old(ctx)@, stmts@, 0),
    decreases stmts,
{
    let ghost goal = rules::stmts_rule(ctx@, stmts@, 0);
    let mut i: usize = 0;
    while i < stmts.len()
        invariant
            ctx.wf(),
            goal == rules::stmts_rule(ctx@, stmts@, i as int),
        decreases stmts@.len() - i,
    {
        let exit = match check_stmt(ctx, &stmts[i]) {
            Ok(exit) => exit,
            Err(diag) => {
                return Err(diag);
            },
        };
        if !exit.is_nothing() {
            return Ok(exit);
        }
        i += 1;
    }
    Ok(TypeId::nothing())
}

pub fn check_block_stmt(ctx: &mut Context, block: &BlockStmt) -> (r: Result<TypeId, Diag>)
    requires
        old(ctx).wf(),
    ensures
        final(ctx).wf(),
        Checked::of(final(ctx)@, r) == rules::block_rule(old(ctx)@, *block),
    decreases block, 0nat,
{
    ctx.enter_scope(ScopeType::new_block());
    let exit = check_stmts(ctx, &block.stmts);
    ctx.exit_scope();
    exit
}

/// An arm of an `if` statement: see [`rules::arm_rule`].
pub fn check_arm(ctx: &mut Context, arm: &Stmt) -> (r: Result<TypeId, Diag>)
    requires
        old(ctx).wf(),
    ensures
        final(ctx).wf(),
        Checked::of(final(ctx)@, r) == rules::arm_rule(old(ctx)@, *arm),
    decreases arm, 2nat,
{
    ctx.enter_scope(ScopeType::new_block());
    let exit = check_stmt(ctx, arm);
    ctx.exit_scope();
    exit
}

pub fn check_if_stmt(ctx: &mut Context, if_stmt: &IfStmt) -> (r: Result<TypeId, Diag>)
    requires
        old(ctx).wf(),
    ensures
        final(ctx).wf(),
        Checked::of(final(ctx)@, r) == rules::if_stmt_rule(old(ctx)@, *if_stmt),
    decreases if_stmt, 0nat,
{
    let IfStmt { cond, then: then_arm, otherwise, .. } = if_stmt;
    let test = match check_expr(ctx, cond) {
        Ok(test) => test,
        Err(diag) => {
            return Err(diag);
        },
    };
    if !equal_type_id(&ctx.type_store, TypeId::bool(), test) {
        return Err(Diag::type_mismatch(TypeId::bool(), test, cond.get_range()));
    }
    let first = match check_arm(ctx, then_arm) {
        Ok(first) => first,
        Err(diag) => {
            return Err(diag);
        },
    };
    match otherwise {
        None => Ok(TypeId::nothing()),
        Some(other) => {
            let second = match check_arm(ctx, other) {
                Ok(second) => second,
                Err(diag) => {
                    return Err(diag);
                },
            };
            if first.is_nothing() || second.is_nothing() {
                Ok(TypeId::nothing())
            } else if equal_type_id(&ctx.type_store, first, second) {
                Ok(first)
            } else {
                Err(Diag::type_mismatch(first, second, other.get_range()))
            }
        },
    }
}

pub fn check_while_stmt(ctx: &mut Context, while_stmt: &WhileStmt) -> (r: Result<TypeId, Diag>)
    requires
        old(ctx).wf(),
    ensures
        final(ctx).wf(),
        Checked::of(final(ctx)@, r) == rules::while_rule(old(ctx)@, *while_stmt),
    decreases while_stmt, 0nat,
{
    ctx.enter_scope(ScopeType::new_loop());
    let inner = match check_expr(ctx, &while_stmt.test) {
        Err(diag) => Err(diag),
        Ok(test) => if !equal_type_id(&ctx.type_store, TypeId::bool(), test) {
            Err(Diag::type_mismatch(TypeId::bool(), test, while_stmt.test.get_range()))
        } else {
            check_stmt(ctx, &while_stmt.body)
        },
    };
    ctx.exit_scope();
    match inner {
        Ok(_) => Ok(TypeId::nothing()),
        Err(diag) => Err(diag),
    }
}

pub fn check_for_stmt(ctx: &mut Context, for_stmt: &ForStmt) -> (r: Result<TypeId, Diag>)
    requires
        old(ctx).wf(),
    ensures
        final(ctx).wf(),
        Checked::of(final(ctx)@, r) == rules::for_rule(old(ctx)@, *for_stmt),
    decreases for_stmt, 0nat,
{
    let source = match check_expr(ctx, &for_stmt.iterable) {
        Ok(source) => source,
        Err(diag) => {
            return Err(diag);
        },
    };
    let item = match ctx.type_store.get_type(source) {
        Some(Type::Range { item }) => *item,
        _ => {
            return Err(
                Diag::new(
                    DiagKind::InvalidOperator { op: OperatorKind::RANGE, operand_type: source },
                    for_stmt.iterable.get_range(),
                ),
            );
        },
    };
    ctx.enter_scope(ScopeType::new_loop());
    ctx.add_value(for_stmt.value.text.as_str(), item, false);
    match &for_stmt.index {
        Some(index) => {
            ctx.add_value(index.text.as_str(), TypeId::usize(), false);
        },
        None => {},
    }
    let inner = check_stmt(ctx, &for_stmt.body);
    ctx.exit_scope();
    match inner {
        Ok(_) => Ok(TypeId::nothing()),
        Err(diag) => Err(diag),
    }
}

pub fn check_type_def_stmt(ctx: &mut Context, type_def: &TypeDefStmt) -> (r: Result<TypeId, Diag>)
    requires
        old(ctx).wf(),
    ensures
        final(ctx).wf(),
        Checked::of(final(ctx)@, r) == rules::type_def_rule(old(ctx)@, *type_def),
{
    let defined = match &type_def.kind {
        TypeDefKind::Struct(def) => {
            let fields = match synthesise_struct_def(def, ctx) {
                Ok(fields) => fields,
                Err(diag) => {
                    return Err(diag);
                },
            };
            ctx.add_type(Type::Struct { fields })
        },
        TypeDefKind::Alias(target) => match resolve_type(ctx, target) {
            Ok(resolved) => resolved,
            Err(diag) => {
                return Err(diag);
            },
        },
    };
    ctx.declare(Namespace::Types, type_def.name.text.as_str(), defined, false, ValueOrigin::Scoped);
    ctx.note_type(type_def.range, defined);
    Ok(TypeId::nothing())
}

/// Binds the functions of an `impl`: see [`rules::bind_methods`].
#[verifier::loop_isolation(false)]
pub fn bind_methods(ctx: &mut Context, owner: &str, self_type: TypeId, items: &Vec<FnStmt>) -> (r:
    Result<TypeId, Diag>)
    requires
        old(ctx).wf(),
    ensures
        final(ctx).wf(),
        Checked::of(final(ctx)@, r) == rules::bind_methods(
            old(ctx)@,
            owner@,
            self_type,
            items@,
            0,
        ),
{
    let ghost goal = rules::bind_methods(ctx@, owner@, self_type, items@, 0);
    let mut i: usize = 0;
    while i < items.len()
        invariant
            ctx.wf(),
            goal == rules::bind_methods(ctx@, owner@, self_type, items@, i as int),
        decreases items@.len() - i,
    {
        let item = &items[i];
        let fn_type = match resolve_signature(ctx, &item.params, &item.ret_type, Some(self_type)) {
            Ok(fn_type) => fn_type,
            Err(diag) => {
                return Err(diag);
            },
        };
        let name = qualified_name(owner, item.name.text.as_str());
        ctx.declare(Namespace::Functions, name.as_str(), fn_type, false, ValueOrigin::Scoped);
        ctx.note_type(item.name.range, fn_type);
        i += 1;
    }
    Ok(TypeId::nothing())
}

/// Whether the first parameter is `self`: see [`rules::has_receiver`].
pub fn takes_self(params: &Vec<Binding>) -> (r: bool)
    ensures
        r == rules::has_receiver(params@),
{
    params.len() > 0 && is_self_name(params[0].ident.text.as_str())
}

/// Checks the bodies of the functions of an `impl`: see
/// [`rules::methods_rule`].
#[verifier::loop_isolation(false)]
pub fn check_methods(ctx: &mut Context, owner: &str, self_type: TypeId, items: &Vec<FnStmt>) -> (r:
    Result<TypeId, Diag>)
    requires
        old(ctx).wf(),
    ensures
        final(ctx).wf(),
        Checked::of(final(ctx)@, r) == rules::methods_rule(
            old(ctx)@,
            owner@,
            self_type,
            items@,
            0,
        ),
    decreases items,
{
    let ghost goal = rules::methods_rule(ctx@, owner@, self_type, items@, 0);
    let mut i: usize = 0;
    while i < items.len()
        invariant
            ctx.wf(),
            goal == rules::methods_rule(ctx@, owner@, self_type, items@, i as int),
        decreases items@.len() - i,
    {
        let item = &items[i];
        let name = qualified_name(owner, item.name.text.as_str());
        let fn_type = match ctx.get_fn_value(name.as_str()) {
            Some(bound) => bound.type_id,
            None => {
                return Err(Diag::unknown_ident(&item.name.text, item.name.range));
            },
        };
        ctx.enter_scope(ScopeType::new_accessor(self_type, !takes_self(&item.params)));
        let done = check_function(ctx, fn_type, false, &item.params, &item.body);
        ctx.exit_scope();
        match done {
            Ok(_) => {},
            Err(diag) => {
                return Err(diag);
            },
        }
        i += 1;
    }
    Ok(TypeId::nothing())
}

pub fn check_impl_stmt(ctx: &mut Context, impl_stmt: &ImplStmt) -> (r: Result<TypeId, Diag>)
    requires
        old(ctx).wf(),
    ensures
        final(ctx).wf(),
        Checked::of(final(ctx)@, r) == rules::impl_rule(old(ctx)@, *impl_stmt),
    decreases impl_stmt, 0nat,
{
    let self_type = match ctx.get_type_value(impl_stmt.self_name.text.as_str()) {
        Some(named) => named.type_id,
        None => {
            return Err(Diag::unknown_type(&impl_stmt.self_name.text, impl_stmt.self_name.range));
        },
    };
    let owner = impl_stmt.self_name.text.as_str();
    match bind_methods(ctx, owner, self_type, &impl_stmt.items) {
        Ok(_) => {},
        Err(diag) => {
            return Err(diag);
        },
    }
    ctx.enter_scope(ScopeType::new_impl(self_type));
    let done = check_methods(ctx, owner, self_type, &impl_stmt.items);
    ctx.exit_scope();
    done
}

} // verus!
