//! The discipline of the scopes: whatever is checked, and whether or not
//! it passes, the scopes afterwards are those before, but for what the
//! innermost one binds and borrows.

use vstd::prelude::*;
use crate::ast::{
    AssignExpr, AstType, BinaryExpr, Binding, BlockStmt, BorrowExpr, CallExpr, ConstDelStmt,
    ConstFnStmt, DerefExpr, Expr, ExternFnStmt, FiledExpr, FnBody, FnExpr, FnStmt, ForStmt,
    IfExpr, IfStmt, ImplStmt, LetStmt, MemberExpr, PipeExpr, RetStmt, Stmt, StructInitExpr,
    TypeDefStmt, UnaryExpr, WhileStmt,
};
use crate::range::Range;
use super::context::scope::{Namespace, ScopeType};
use super::context::value::ValueOrigin;
use super::context::ContextView;
use super::rules::{
    args_rule, arm_rule, assign_rule, bind_methods, bind_rule, binary_rule, block_rule, body_rule,
    body_stmts_rule, borrow_rule, call_rule, check_expr, check_stmt, const_fn_rule, const_rule,
    declare_params, definition_rule, deref_rule, expr_rule, extern_fn_rule, fields_rule, fn_expr_rule,
    fn_parts, fn_rule, for_rule, function_rule, has_receiver, if_expr_rule, if_stmt_rule,
    impl_rule, inits_rule, let_rule, member_rule, methods_rule, operator_rule, params_rule,
    pipe_rule, qualified, resolve_all, resolve_rule, ret_rule, returned, signature_rule,
    stmts_rule, struct_init_rule, take_borrow, type_def_rule, unary_rule, while_rule,
};
use super::types::{lookup, FieldType, TypeId, TypeView};

verus! {

/// The scopes of `after` are those of `before`, but for what the
/// innermost one binds and borrows.
pub open spec fn framed(before: ContextView, after: ContextView) -> bool {
    &&& after.scopes.len() == before.scopes.len()
    &&& after.scopes.drop_last() =~= before.scopes.drop_last()
    &&& after.top().scope_type == before.top().scope_type
}

proof fn lemma_declare(
    ctx: ContextView,
    space: Namespace,
    name: Seq<char>,
    type_id: TypeId,
    is_mut: bool,
    origin: ValueOrigin,
)
    requires
        ctx.scopes.len() >= 1,
    ensures
        framed(ctx, ctx.declare(space, name, type_id, is_mut, origin)),
{
}

/// What was framed inside a scope is, once the scope is left, the scopes
/// as they were before the scope was entered.
proof fn lemma_leave(ctx: ContextView, scope_type: ScopeType, inside: ContextView)
    requires
        ctx.scopes.len() >= 1,
        framed(ctx.enter(scope_type), inside),
    ensures
        inside.exit().scopes == ctx.scopes,
        framed(ctx, inside.exit()),
{
    let entered = ctx.enter(scope_type);
    assert(entered.scopes.drop_last() =~= ctx.scopes);
    assert(inside.exit().scopes =~= ctx.scopes);
}

proof fn lemma_resolve(ctx: ContextView, ty: AstType)
    requires
        ctx.scopes.len() >= 1,
    ensures
        framed(ctx, resolve_rule(ctx, ty).ctx),
    decreases ty,
{
    match ty {
        AstType::Borrow { value, .. } => {
            lemma_resolve(ctx, *value);
        },
        AstType::Fn { params, ret, .. } => {
            lemma_resolve_all(ctx, params@, 0, Seq::empty());
            let resolved = resolve_all(ctx, params@, 0, Seq::empty());
            if resolved.result is Ok {
                lemma_resolve(resolved.ctx, *ret);
            }
        },
        _ => {},
    }
}

proof fn lemma_resolve_all(ctx: ContextView, types: Seq<AstType>, i: int, done: Seq<TypeId>)
    requires
        ctx.scopes.len() >= 1,
    ensures
        framed(ctx, resolve_all(ctx, types, i, done).ctx),
    decreases types, types.len() - i,
{
    if 0 <= i < types.len() {
        lemma_resolve(ctx, types[i]);
        let one = resolve_rule(ctx, types[i]);
        match one.result {
            Ok(type_id) => {
                lemma_resolve_all(one.ctx, types, i + 1, done.push(type_id));
            },
            Err(_) => {},
        }
    }
}

proof fn lemma_params(
    ctx: ContextView,
    params: Seq<Binding>,
    receiver: Option<TypeId>,
    i: int,
    done: Seq<TypeId>,
)
    requires
        ctx.scopes.len() >= 1,
    ensures
        framed(ctx, params_rule(ctx, params, receiver, i, done).ctx),
    decreases params.len() - i,
{
    if 0 <= i < params.len() {
        match params[i].ty {
            Some(ty) => {
                lemma_resolve(ctx, ty);
                let one = resolve_rule(ctx, ty);
                match one.result {
                    Ok(type_id) => {
                        lemma_params(one.ctx, params, receiver, i + 1, done.push(type_id));
                    },
                    Err(_) => {},
                }
            },
            None => {
                match receiver {
                    Some(self_type) => {
                        if i == 0 && params[i].ident.text@ == "self"@ {
                            lemma_params(ctx, params, receiver, i + 1, done.push(self_type));
                        }
                    },
                    None => {},
                }
            },
        }
    }
}

proof fn lemma_signature(
    ctx: ContextView,
    params: Seq<Binding>,
    ret_type: Option<AstType>,
    receiver: Option<TypeId>,
)
    requires
        ctx.scopes.len() >= 1,
    ensures
        framed(ctx, signature_rule(ctx, params, ret_type, receiver).ctx),
{
    lemma_params(ctx, params, receiver, 0, Seq::empty());
    let resolved = params_rule(ctx, params, receiver, 0, Seq::empty());
    if resolved.result is Ok {
        match ret_type {
            Some(ty) => {
                lemma_resolve(resolved.ctx, ty);
            },
            None => {},
        }
    }
}

proof fn lemma_declare_params(ctx: ContextView, params: Seq<Binding>, types: Seq<TypeId>, i: int)
    requires
        ctx.scopes.len() >= 1,
    ensures
        framed(ctx, declare_params(ctx, params, types, i)),
    decreases params.len() - i,
{
    if 0 <= i < params.len() && i < types.len() {
        let next = ctx.declare(
            Namespace::Values,
            params[i].ident.text@,
            types[i],
            false,
            ValueOrigin::External,
        );
        lemma_declare(
            ctx,
            Namespace::Values,
            params[i].ident.text@,
            types[i],
            false,
            ValueOrigin::External,
        );
        lemma_declare_params(next, params, types, i + 1);
    }
}

proof fn lemma_fields(
    ctx: ContextView,
    fields: Seq<crate::ast::FieldType>,
    i: int,
    done: Seq<FieldType>,
)
    requires
        ctx.scopes.len() >= 1,
    ensures
        framed(ctx, fields_rule(ctx, fields, i, done).ctx),
    decreases fields.len() - i,
{
    if 0 <= i < fields.len() {
        lemma_resolve(ctx, fields[i].ast_type);
        let one = resolve_rule(ctx, fields[i].ast_type);
        match one.result {
            Ok(type_id) => {
                lemma_fields(
                    one.ctx.note(fields[i].ident.range, type_id),
                    fields,
                    i + 1,
                    done.push(
                        FieldType { name: fields[i].ident.text, type_id, is_pub: fields[i].is_pub },
                    ),
                );
            },
            Err(_) => {},
        }
    }
}

proof fn lemma_operator(ctx: ContextView, binary: BinaryExpr, left: TypeId, right: TypeId)
    requires
        ctx.scopes.len() >= 1,
    ensures
        framed(ctx, operator_rule(ctx, binary, left, right).ctx),
{
}

proof fn lemma_take_borrow(ctx: ContextView, borrow: BorrowExpr, place: TypeId)
    requires
        ctx.scopes.len() >= 1,
    ensures
        framed(ctx, take_borrow(ctx, borrow, place).ctx),
{
}

proof fn lemma_bind(
    ctx: ContextView,
    binding: Binding,
    found: TypeId,
    is_mut: bool,
    value_at: Range,
    at: Range,
)
    requires
        ctx.scopes.len() >= 1,
    ensures
        framed(ctx, bind_rule(ctx, binding, found, is_mut, value_at, at).ctx),
{
    match binding.ty {
        Some(annotation) => {
            lemma_resolve(ctx, annotation);
        },
        None => {},
    }
}

proof fn lemma_extern_fn(ctx: ContextView, extern_fn: ExternFnStmt)
    requires
        ctx.scopes.len() >= 1,
    ensures
        framed(ctx, extern_fn_rule(ctx, extern_fn).ctx),
{
    lemma_signature(ctx, extern_fn.params@, extern_fn.ret_type, None);
}

proof fn lemma_type_def(ctx: ContextView, type_def: TypeDefStmt)
    requires
        ctx.scopes.len() >= 1,
    ensures
        framed(ctx, type_def_rule(ctx, type_def).ctx),
{
    match type_def.kind {
        crate::ast::TypeDefKind::Struct(def) => {
            lemma_fields(ctx, def.fields@, 0, Seq::empty());
        },
        crate::ast::TypeDefKind::Alias(target) => {
            lemma_resolve(ctx, target);
        },
    }
}

proof fn lemma_bind_methods(
    ctx: ContextView,
    owner: Seq<char>,
    self_type: TypeId,
    items: Seq<FnStmt>,
    i: int,
)
    requires
        ctx.scopes.len() >= 1,
    ensures
        framed(ctx, bind_methods(ctx, owner, self_type, items, i).ctx),
    decreases items.len() - i,
{
    if 0 <= i < items.len() {
        lemma_signature(ctx, items[i].params@, items[i].ret_type, Some(self_type));
        let signature = signature_rule(ctx, items[i].params@, items[i].ret_type, Some(self_type));
        if !signature.failed() {
            lemma_bind_methods(
                signature.ctx.declare(
                    Namespace::Functions,
                    qualified(owner, items[i].name.text@),
                    signature.ty(),
                    false,
                    ValueOrigin::Scoped,
                ).note(items[i].name.range, signature.ty()),
                owner,
                self_type,
                items,
                i + 1,
            );
        }
    }
}

// ------- expressions -------
/// Checking an expression leaves the scopes as they were, but for what
/// the innermost one binds and borrows.
pub proof fn lemma_expr_framed(ctx: ContextView, e: Expr)
    requires
        ctx.scopes.len() >= 1,
    ensures
        framed(ctx, check_expr(ctx, e).ctx),
    decreases e, 1nat,
{
    lemma_expr_rule(ctx, e);
}

proof fn lemma_expr_rule(ctx: ContextView, e: Expr)
    requires
        ctx.scopes.len() >= 1,
    ensures
        framed(ctx, expr_rule(ctx, e).ctx),
    decreases e, 0nat,
{
    match e {
        Expr::Group(group) => lemma_expr_framed(ctx, *group.expr),
        Expr::Binary(binary) => lemma_binary(ctx, binary),
        Expr::Unary(unary) => lemma_unary(ctx, unary),
        Expr::Assign(assign) => lemma_assign(ctx, assign),
        Expr::Borrow(borrow) => lemma_borrow(ctx, borrow),
        Expr::Deref(deref) => lemma_deref(ctx, deref),
        Expr::Call(call) => lemma_call(ctx, call),
        Expr::If(if_expr) => lemma_if_expr(ctx, if_expr),
        Expr::Member(member) => lemma_member(ctx, member),
        Expr::Pipe(pipe) => lemma_pipe(ctx, pipe),
        Expr::Fn(fn_expr) => lemma_fn_expr(ctx, fn_expr),
        Expr::StructInit(struct_init) => lemma_struct_init(ctx, struct_init),
        _ => {},
    }
}

proof fn lemma_binary(ctx: ContextView, binary: BinaryExpr)
    requires
        ctx.scopes.len() >= 1,
    ensures
        framed(ctx, binary_rule(ctx, binary).ctx),
    decreases binary, 0nat,
{
    lemma_expr_framed(ctx, *binary.left);
    let left = check_expr(ctx, *binary.left);
    if !left.failed() {
        lemma_expr_framed(left.ctx, *binary.right);
        let right = check_expr(left.ctx, *binary.right);
        if !right.failed() {
            lemma_operator(right.ctx, binary, left.ty(), right.ty());
        }
    }
}

proof fn lemma_unary(ctx: ContextView, unary: UnaryExpr)
    requires
        ctx.scopes.len() >= 1,
    ensures
        framed(ctx, unary_rule(ctx, unary).ctx),
    decreases unary, 0nat,
{
    lemma_expr_framed(ctx, *unary.operand);
}

proof fn lemma_assign(ctx: ContextView, assign: AssignExpr)
    requires
        ctx.scopes.len() >= 1,
    ensures
        framed(ctx, assign_rule(ctx, assign).ctx),
    decreases assign, 0nat,
{
    lemma_expr_framed(ctx, *assign.left);
    let left = check_expr(ctx, *assign.left);
    if !left.failed() {
        lemma_expr_framed(left.ctx, *assign.right);
    }
}

proof fn lemma_borrow(ctx: ContextView, borrow: BorrowExpr)
    requires
        ctx.scopes.len() >= 1,
    ensures
        framed(ctx, borrow_rule(ctx, borrow).ctx),
    decreases borrow, 0nat,
{
    lemma_expr_framed(ctx, *borrow.expr);
    let place = check_expr(ctx, *borrow.expr);
    if !place.failed() {
        lemma_take_borrow(place.ctx, borrow, place.ty());
    }
}

proof fn lemma_deref(ctx: ContextView, deref: DerefExpr)
    requires
        ctx.scopes.len() >= 1,
    ensures
        framed(ctx, deref_rule(ctx, deref).ctx),
    decreases deref, 0nat,
{
    lemma_expr_framed(ctx, *deref.expr);
}

proof fn lemma_args(ctx: ContextView, args: Seq<Expr>, params: Seq<TypeId>, i: int)
    requires
        ctx.scopes.len() >= 1,
    ensures
        framed(ctx, args_rule(ctx, args, params, i).ctx),
    decreases args, args.len() - i,
{
    if 0 <= i < args.len() && i < params.len() {
        lemma_expr_framed(ctx, args[i]);
        let arg = check_expr(ctx, args[i]);
        if !arg.failed() {
            lemma_args(arg.ctx, args, params, i + 1);
        }
    }
}

proof fn lemma_call(ctx: ContextView, call: CallExpr)
    requires
        ctx.scopes.len() >= 1,
    ensures
        framed(ctx, call_rule(ctx, call).ctx),
    decreases call, 0nat,
{
    lemma_expr_framed(ctx, *call.callee);
    let callee = check_expr(ctx, *call.callee);
    if !callee.failed() {
        match lookup(callee.ctx.types, callee.ty()) {
            Some(TypeView::Fn { params, ret, .. }) => {
                lemma_args(callee.ctx, call.args@, params, 0);
            },
            _ => {},
        }
    }
}

proof fn lemma_if_expr(ctx: ContextView, if_expr: IfExpr)
    requires
        ctx.scopes.len() >= 1,
    ensures
        framed(ctx, if_expr_rule(ctx, if_expr).ctx),
    decreases if_expr, 0nat,
{
    let IfExpr { cond, then: then_arm, otherwise, .. } = if_expr;
    lemma_expr_framed(ctx, *cond);
    let test = check_expr(ctx, *cond);
    if !test.failed() {
        lemma_expr_framed(test.ctx, *then_arm);
        let first = check_expr(test.ctx, *then_arm);
        if !first.failed() {
            lemma_expr_framed(first.ctx, *otherwise);
        }
    }
}

proof fn lemma_member(ctx: ContextView, member: MemberExpr)
    requires
        ctx.scopes.len() >= 1,
    ensures
        framed(ctx, member_rule(ctx, member).ctx),
    decreases member, 0nat,
{
    lemma_expr_framed(ctx, *member.left);
}

proof fn lemma_pipe(ctx: ContextView, pipe: PipeExpr)
    requires
        ctx.scopes.len() >= 1,
    ensures
        framed(ctx, pipe_rule(ctx, pipe).ctx),
    decreases pipe, 0nat,
{
    lemma_expr_framed(ctx, *pipe.left);
    let left = check_expr(ctx, *pipe.left);
    if !left.failed() {
        lemma_expr_framed(left.ctx, *pipe.right);
    }
}

proof fn lemma_fn_expr(ctx: ContextView, fn_expr: FnExpr)
    requires
        ctx.scopes.len() >= 1,
    ensures
        framed(ctx, fn_expr_rule(ctx, fn_expr).ctx),
    decreases fn_expr, 0nat,
{
    lemma_signature(ctx, fn_expr.params@, fn_expr.ret_type, None);
    let signature = signature_rule(ctx, fn_expr.params@, fn_expr.ret_type, None);
    if !signature.failed() {
        let (param_types, ret) = fn_parts(signature.ctx.types, signature.ty());
        let scope = ScopeType::Fn { ret_type: ret };
        let entered = signature.ctx.enter(scope);
        lemma_declare_params(entered, fn_expr.params@, param_types, 0);
        let inside = declare_params(entered, fn_expr.params@, param_types, 0);
        lemma_body(inside, *fn_expr.body, ret);
        lemma_leave(signature.ctx, scope, body_rule(inside, *fn_expr.body, ret).ctx);
    }
}

proof fn lemma_inits(ctx: ContextView, inits: Seq<FiledExpr>, fields: Seq<FieldType>, i: int)
    requires
        ctx.scopes.len() >= 1,
    ensures
        framed(ctx, inits_rule(ctx, inits, fields, i).ctx),
    decreases inits, inits.len() - i,
{
    if 0 <= i < inits.len() {
        lemma_expr_framed(ctx, inits[i].value);
        let value = check_expr(ctx, inits[i].value);
        if !value.failed() {
            lemma_inits(value.ctx, inits, fields, i + 1);
        }
    }
}

proof fn lemma_struct_init(ctx: ContextView, init: StructInitExpr)
    requires
        ctx.scopes.len() >= 1,
    ensures
        framed(ctx, struct_init_rule(ctx, init).ctx),
    decreases init, 0nat,
{
    match ctx.find(Namespace::Types, init.name.text@) {
        Some(named) => match lookup(ctx.types, named.type_id) {
            Some(TypeView::Struct { fields }) => {
                lemma_inits(ctx, init.fields@, fields, 0);
            },
            _ => {},
        },
        None => {},
    }
}

// ------- function bodies -------
proof fn lemma_body(ctx: ContextView, body: Stmt, ret: TypeId)
    requires
        ctx.scopes.len() >= 1,
    ensures
        framed(ctx, body_rule(ctx, body, ret).ctx),
    decreases body, 2nat,
{
    match body {
        Stmt::Block(block) => {
            lemma_body_stmts(ctx, block.stmts@, 0, ret, block.range);
        },
        Stmt::Expr(e) => {
            lemma_expr_framed(ctx, e);
        },
        _ => {
            lemma_stmt_framed(ctx, body);
        },
    }
}

proof fn lemma_body_stmts(ctx: ContextView, stmts: Seq<Stmt>, i: int, ret: TypeId, at: Range)
    requires
        ctx.scopes.len() >= 1,
    ensures
        framed(ctx, body_stmts_rule(ctx, stmts, i, ret, at).ctx),
    decreases stmts, stmts.len() - i,
{
    if 0 <= i < stmts.len() {
        if i == stmts.len() - 1 && stmts[i] is Expr {
            lemma_expr_framed(ctx, stmts[i]->Expr_0);
        } else {
            lemma_stmt_framed(ctx, stmts[i]);
            let done = check_stmt(ctx, stmts[i]);
            if !done.failed() && done.ty().is_nothing() {
                lemma_body_stmts(done.ctx, stmts, i + 1, ret, at);
            }
        }
    }
}

proof fn lemma_function(
    ctx: ContextView,
    fn_type: TypeId,
    constant: bool,
    params: Seq<Binding>,
    body: FnBody,
)
    requires
        ctx.scopes.len() >= 1,
    ensures
        framed(ctx, function_rule(ctx, fn_type, constant, params, body).ctx),
    decreases body, 0nat,
{
    let (param_types, ret) = fn_parts(ctx.types, fn_type);
    let scope = if constant {
        ScopeType::ConstFn { ret_type: ret }
    } else {
        ScopeType::Fn { ret_type: ret }
    };
    let entered = ctx.enter(scope);
    lemma_declare_params(entered, params, param_types, 0);
    let inside = declare_params(entered, params, param_types, 0);
    match body {
        FnBody::Block(block) => {
            lemma_body_stmts(inside, block.stmts@, 0, ret, block.range);
            lemma_leave(ctx, scope, body_stmts_rule(inside, block.stmts@, 0, ret, block.range).ctx);
        },
        FnBody::Expr(e) => {
            lemma_expr_framed(inside, e);
            lemma_leave(ctx, scope, check_expr(inside, e).ctx);
        },
    }
}

// ------- statements -------
/// Checking a statement leaves the scopes as they were, but for what the
/// innermost one binds and borrows: every scope that the statement opens
/// is left again, whether or not the statement passes.
pub proof fn lemma_stmt_framed(ctx: ContextView, s: Stmt)
    requires
        ctx.scopes.len() >= 1,
    ensures
        framed(ctx, check_stmt(ctx, s).ctx),
    decreases s, 1nat,
{
    match s {
        Stmt::Ret(ret_stmt) => lemma_ret(ctx, ret_stmt),
        Stmt::Block(block) => lemma_block(ctx, block),
        Stmt::If(if_stmt) => lemma_if_stmt(ctx, if_stmt),
        _ => lemma_definition(ctx, s),
    }
}

proof fn lemma_definition(ctx: ContextView, s: Stmt)
    requires
        ctx.scopes.len() >= 1,
    ensures
        framed(ctx, definition_rule(ctx, s).ctx),
    decreases s, 0nat,
{
    match s {
        Stmt::Expr(e) => lemma_expr_framed(ctx, e),
        Stmt::Let(let_stmt) => lemma_let(ctx, let_stmt),
        Stmt::ConstDel(const_del) => lemma_const(ctx, const_del),
        Stmt::Fn(fn_stmt) => lemma_fn(ctx, fn_stmt),
        Stmt::ConstFn(const_fn) => lemma_const_fn(ctx, const_fn),
        Stmt::ExternFn(extern_fn) => lemma_extern_fn(ctx, extern_fn),
        Stmt::While(while_stmt) => lemma_while(ctx, while_stmt),
        Stmt::For(for_stmt) => lemma_for(ctx, for_stmt),
        Stmt::TypeDef(type_def) => lemma_type_def(ctx, type_def),
        Stmt::Impl(impl_stmt) => lemma_impl(ctx, impl_stmt),
        _ => {},
    }
}

proof fn lemma_let(ctx: ContextView, let_stmt: LetStmt)
    requires
        ctx.scopes.len() >= 1,
    ensures
        framed(ctx, let_rule(ctx, let_stmt).ctx),
    decreases let_stmt, 0nat,
{
    lemma_expr_framed(ctx, let_stmt.expr);
    let value = check_expr(ctx, let_stmt.expr);
    if !value.failed() {
        lemma_bind(
            value.ctx,
            let_stmt.bind,
            value.ty(),
            let_stmt.is_mut(),
            let_stmt.expr.span(),
            let_stmt.span(),
        );
    }
}

proof fn lemma_const(ctx: ContextView, const_del: ConstDelStmt)
    requires
        ctx.scopes.len() >= 1,
    ensures
        framed(ctx, const_rule(ctx, const_del).ctx),
    decreases const_del, 0nat,
{
    lemma_expr_framed(ctx, const_del.expr);
    let value = check_expr(ctx, const_del.expr);
    if !value.failed() {
        lemma_bind(
            value.ctx,
            const_del.name,
            value.ty(),
            false,
            const_del.expr.span(),
            const_del.span(),
        );
    }
}

proof fn lemma_fn(ctx: ContextView, fn_stmt: FnStmt)
    requires
        ctx.scopes.len() >= 1,
    ensures
        framed(ctx, fn_rule(ctx, fn_stmt).ctx),
    decreases fn_stmt, 0nat,
{
    lemma_signature(ctx, fn_stmt.params@, fn_stmt.ret_type, None);
    let signature = signature_rule(ctx, fn_stmt.params@, fn_stmt.ret_type, None);
    if !signature.failed() {
        lemma_function(
            signature.ctx.declare(
                Namespace::Functions,
                fn_stmt.name.text@,
                signature.ty(),
                false,
                ValueOrigin::Scoped,
            ).note(fn_stmt.name.range, signature.ty()),
            signature.ty(),
            false,
            fn_stmt.params@,
            fn_stmt.body,
        );
    }
}

proof fn lemma_const_fn(ctx: ContextView, const_fn: ConstFnStmt)
    requires
        ctx.scopes.len() >= 1,
    ensures
        framed(ctx, const_fn_rule(ctx, const_fn).ctx),
    decreases const_fn, 0nat,
{
    lemma_signature(ctx, const_fn.params@, const_fn.ret_type, None);
    let signature = signature_rule(ctx, const_fn.params@, const_fn.ret_type, None);
    if !signature.failed() {
        lemma_function(
            signature.ctx.declare(
                Namespace::Functions,
                const_fn.name.text@,
                signature.ty(),
                false,
                ValueOrigin::Scoped,
            ).note(const_fn.name.range, signature.ty()),
            signature.ty(),
            true,
            const_fn.params@,
            const_fn.body,
        );
    }
}

proof fn lemma_ret(ctx: ContextView, ret_stmt: RetStmt)
    requires
        ctx.scopes.len() >= 1,
    ensures
        framed(ctx, ret_rule(ctx, ret_stmt).ctx),
    decreases ret_stmt, 0nat,
{
    match ret_stmt.expr {
        Some(e) => {
            lemma_expr_framed(ctx, *e);
        },
        None => {},
    }
}

proof fn lemma_stmts(ctx: ContextView, stmts: Seq<Stmt>, i: int)
    requires
        ctx.scopes.len() >= 1,
    ensures
        framed(ctx, stmts_rule(ctx, stmts, i).ctx),
    decreases stmts, stmts.len() - i,
{
    if 0 <= i < stmts.len() {
        lemma_stmt_framed(ctx, stmts[i]);
        let done = check_stmt(ctx, stmts[i]);
        if !done.failed() && done.ty().is_nothing() {
            lemma_stmts(done.ctx, stmts, i + 1);
        }
    }
}

proof fn lemma_block(ctx: ContextView, block: BlockStmt)
    requires
        ctx.scopes.len() >= 1,
    ensures
        framed(ctx, block_rule(ctx, block).ctx),
    decreases block, 0nat,
{
    lemma_stmts(ctx.enter(ScopeType::Block), block.stmts@, 0);
    lemma_leave(
        ctx,
        ScopeType::Block,
        stmts_rule(ctx.enter(ScopeType::Block), block.stmts@, 0).ctx,
    );
}

proof fn lemma_arm(ctx: ContextView, arm: Stmt)
    requires
        ctx.scopes.len() >= 1,
    ensures
        framed(ctx, arm_rule(ctx, arm).ctx),
    decreases arm, 2nat,
{
    lemma_stmt_framed(ctx.enter(ScopeType::Block), arm);
    lemma_leave(ctx, ScopeType::Block, check_stmt(ctx.enter(ScopeType::Block), arm).ctx);
}

proof fn lemma_if_stmt(ctx: ContextView, if_stmt: IfStmt)
    requires
        ctx.scopes.len() >= 1,
    ensures
        framed(ctx, if_stmt_rule(ctx, if_stmt).ctx),
    decreases if_stmt, 0nat,
{
    let IfStmt { cond, then: then_arm, otherwise, .. } = if_stmt;
    lemma_expr_framed(ctx, *cond);
    let test = check_expr(ctx, *cond);
    if !test.failed() {
        lemma_arm(test.ctx, *then_arm);
        let first = arm_rule(test.ctx, *then_arm);
        if !first.failed() {
            match otherwise {
                Some(other) => {
                    lemma_arm(first.ctx, *other);
                },
                None => {},
            }
        }
    }
}

proof fn lemma_while(ctx: ContextView, while_stmt: WhileStmt)
    requires
        ctx.scopes.len() >= 1,
    ensures
        framed(ctx, while_rule(ctx, while_stmt).ctx),
    decreases while_stmt, 0nat,
{
    let entered = ctx.enter(ScopeType::Loop);
    lemma_expr_framed(entered, *while_stmt.test);
    let test = check_expr(entered, *while_stmt.test);
    if test.failed() {
        lemma_leave(ctx, ScopeType::Loop, test.ctx);
    } else if !super::equal_type::equal_types(test.ctx.types, TypeId::bool(), test.ty()) {
        lemma_leave(ctx, ScopeType::Loop, test.ctx);
    } else {
        lemma_stmt_framed(test.ctx, *while_stmt.body);
        lemma_leave(ctx, ScopeType::Loop, check_stmt(test.ctx, *while_stmt.body).ctx);
    }
}

proof fn lemma_for(ctx: ContextView, for_stmt: ForStmt)
    requires
        ctx.scopes.len() >= 1,
    ensures
        framed(ctx, for_rule(ctx, for_stmt).ctx),
    decreases for_stmt, 0nat,
{
    lemma_expr_framed(ctx, *for_stmt.iterable);
    let source = check_expr(ctx, *for_stmt.iterable);
    if !source.failed() {
        match lookup(source.ctx.types, source.ty()) {
            Some(TypeView::Range { item }) => {
                let entered = source.ctx.enter(ScopeType::Loop);
                let with_item = entered.declare(
                    Namespace::Values,
                    for_stmt.value.text@,
                    item,
                    false,
                    ValueOrigin::Scoped,
                );
                lemma_declare(
                    entered,
                    Namespace::Values,
                    for_stmt.value.text@,
                    item,
                    false,
                    ValueOrigin::Scoped,
                );
                let inside = match for_stmt.index {
                    Some(index) => with_item.declare(
                        Namespace::Values,
                        index.text@,
                        TypeId::usize(),
                        false,
                        ValueOrigin::Scoped,
                    ),
                    None => with_item,
                };
                match for_stmt.index {
                    Some(index) => {
                        lemma_declare(
                            with_item,
                            Namespace::Values,
                            index.text@,
                            TypeId::usize(),
                            false,
                            ValueOrigin::Scoped,
                        );
                    },
                    None => {},
                }
                lemma_stmt_framed(inside, *for_stmt.body);
                lemma_leave(source.ctx, ScopeType::Loop, check_stmt(inside, *for_stmt.body).ctx);
            },
            _ => {},
        }
    }
}

proof fn lemma_methods(
    ctx: ContextView,
    owner: Seq<char>,
    self_type: TypeId,
    items: Seq<FnStmt>,
    i: int,
)
    requires
        ctx.scopes.len() >= 1,
    ensures
        framed(ctx, methods_rule(ctx, owner, self_type, items, i).ctx),
    decreases items, items.len() - i,
{
    if 0 <= i < items.len() {
        match ctx.find(Namespace::Functions, qualified(owner, items[i].name.text@)) {
            Some(bound) => {
                let scope = ScopeType::Accessor {
                    self_type,
                    associate: !has_receiver(items[i].params@),
                };
                lemma_function(
                    ctx.enter(scope),
                    bound.type_id,
                    false,
                    items[i].params@,
                    items[i].body,
                );
                let inner = function_rule(
                    ctx.enter(scope),
                    bound.type_id,
                    false,
                    items[i].params@,
                    items[i].body,
                );
                lemma_leave(ctx, scope, inner.ctx);
                if !inner.leave().failed() {
                    lemma_methods(inner.leave().ctx, owner, self_type, items, i + 1);
                }
            },
            None => {},
        }
    }
}

proof fn lemma_impl(ctx: ContextView, impl_stmt: ImplStmt)
    requires
        ctx.scopes.len() >= 1,
    ensures
        framed(ctx, impl_rule(ctx, impl_stmt).ctx),
    decreases impl_stmt, 0nat,
{
    match ctx.find(Namespace::Types, impl_stmt.self_name.text@) {
        Some(named) => {
            lemma_bind_methods(
                ctx,
                impl_stmt.self_name.text@,
                named.type_id,
                impl_stmt.items@,
                0,
            );
            let bound = bind_methods(
                ctx,
                impl_stmt.self_name.text@,
                named.type_id,
                impl_stmt.items@,
                0,
            );
            if !bound.failed() {
                let scope = ScopeType::Impl { self_type: named.type_id };
                lemma_methods(
                    bound.ctx.enter(scope),
                    impl_stmt.self_name.text@,
                    named.type_id,
                    impl_stmt.items@,
                    0,
                );
                lemma_leave(
                    bound.ctx,
                    scope,
                    methods_rule(
                        bound.ctx.enter(scope),
                        impl_stmt.self_name.text@,
                        named.type_id,
                        impl_stmt.items@,
                        0,
                    ).ctx,
                );
            }
        },
        None => {},
    }
}

/// Checking that leaves the scopes framed leaves the return type of the
/// innermost function as it was.
pub proof fn lemma_framed_ret(before: ContextView, after: ContextView)
    requires
        before.scopes.len() >= 1,
        framed(before, after),
    ensures
        after.fn_ret_type() == before.fn_ret_type(),
{
    assert(after.scopes.drop_last() == before.scopes.drop_last());
}

proof fn lemma_enter_ret(ctx: ContextView, scope_type: ScopeType)
    requires
        scope_type.ret_scope() is None,
    ensures
        ctx.enter(scope_type).fn_ret_type() == ctx.fn_ret_type(),
{
    assert(ctx.enter(scope_type).scopes.drop_last() =~= ctx.scopes);
}

/// Where a statement passes the check with an exit type other than
/// `Nothing`, the statement stands in a function, and its exit type is the
/// return type that the function declares: the type that every `ret` in
/// the statement was checked against.
pub proof fn lemma_exit_type_declared(ctx: ContextView, s: Stmt)
    requires
        ctx.scopes.len() >= 1,
    ensures
        match check_stmt(ctx, s).result {
            Ok(exit) => !exit.is_nothing() ==> (ctx.fn_ret_type() matches Some(declared) && exit
                == returned(declared)),
            Err(_) => true,
        },
    decreases s, 0nat,
{
    match s {
        Stmt::Block(block) => {
            lemma_enter_ret(ctx, ScopeType::Block);
            lemma_exit_types_declared(ctx.enter(ScopeType::Block), block.stmts@, 0);
        },
        Stmt::If(if_stmt) => {
            let IfStmt { cond, then: then_arm, otherwise, .. } = if_stmt;
            lemma_expr_framed(ctx, *cond);
            let test = check_expr(ctx, *cond);
            lemma_framed_ret(ctx, test.ctx);
            lemma_enter_ret(test.ctx, ScopeType::Block);
            lemma_exit_type_declared(test.ctx.enter(ScopeType::Block), *then_arm);
        },
        _ => {},
    }
}

/// [`lemma_exit_type_declared`] for the statements of a block from
/// position `i` on.
pub proof fn lemma_exit_types_declared(ctx: ContextView, stmts: Seq<Stmt>, i: int)
    requires
        ctx.scopes.len() >= 1,
        0 <= i,
    ensures
        match stmts_rule(ctx, stmts, i).result {
            Ok(exit) => !exit.is_nothing() ==> (ctx.fn_ret_type() matches Some(declared) && exit
                == returned(declared)),
            Err(_) => true,
        },
    decreases stmts, stmts.len() - i,
{
    if i < stmts.len() {
        lemma_exit_type_declared(ctx, stmts[i]);
        let done = check_stmt(ctx, stmts[i]);
        if !done.failed() && done.ty().is_nothing() {
            lemma_stmt_framed(ctx, stmts[i]);
            lemma_framed_ret(ctx, done.ctx);
            lemma_exit_types_declared(done.ctx, stmts, i + 1);
        }
    }
}

} // verus!
