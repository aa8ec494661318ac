//! What the exit type of a statement says of the paths through it.

use vstd::prelude::*;
use crate::ast::{
    AssignExpr, DerefExpr, Expr, Ident, IfExpr, IfStmt, Literal, NumberLiteral, RetStmt, Stmt,
};
use crate::diag::{Diag, DiagKind};
use crate::text::literal_value;
use super::context::nodes::node_type;
use super::context::scope::{Namespace, ScopeType};
use super::context::value::Value;
use super::context::ContextView;
use super::equal_type::equal_types;
use super::infer::infer;
use super::rules::{
    arm_rule, assign_rule, assignable, check_expr, check_stmt, deref_rule, expr_rule, ident_rule,
    if_expr_rule, literal_rule, ret_rule, returned, stmts_rule,
};
use super::types::{lookup, TypeId, TypeView};

verus! {

/// Every path through the statement ends in a `ret`: the statement is a
/// `ret`, a block that holds such a statement, or an `if` with two arms
/// that both are such statements.
pub open spec fn always_returns(s: Stmt) -> bool
    decreases s,
{
    match s {
        Stmt::Ret(_) => true,
        Stmt::Block(block) => some_returns(block.stmts@, 0),
        Stmt::If(if_stmt) => {
            let IfStmt { then: then_arm, otherwise, .. } = if_stmt;
            match otherwise {
                Some(other) => always_returns(*then_arm) && always_returns(*other),
                None => false,
            }
        },
        _ => false,
    }
}

/// One of the statements from position `i` on returns on every path.
pub open spec fn some_returns(stmts: Seq<Stmt>, i: int) -> bool
    decreases stmts, stmts.len() - i,
{
    if i < 0 || i >= stmts.len() {
        false
    } else {
        always_returns(stmts[i]) || some_returns(stmts, i + 1)
    }
}

/// Where a statement passes the check, its exit type is `Nothing` exactly
/// if control can flow past it: any other exit type means that every path
/// through the statement ends in a `ret`.
pub proof fn lemma_exit_type(ctx: ContextView, s: Stmt)
    ensures
        check_stmt(ctx, s).result matches Ok(exit) ==> (!exit.is_nothing() <==> always_returns(s)),
    decreases s, 0nat,
{
    match s {
        Stmt::Block(block) => {
            lemma_exit_types(ctx.enter(ScopeType::Block), block.stmts@, 0);
        },
        Stmt::If(if_stmt) => {
            let IfStmt { cond, then: then_arm, otherwise, .. } = if_stmt;
            let test = check_expr(ctx, *cond);
            lemma_exit_type(test.ctx.enter(ScopeType::Block), *then_arm);
            let first = arm_rule(test.ctx, *then_arm);
            match otherwise {
                Some(other) => {
                    lemma_exit_type(first.ctx.enter(ScopeType::Block), *other);
                },
                None => {},
            }
        },
        _ => {},
    }
}

/// [`lemma_exit_type`] for the statements of a block from position `i` on.
pub proof fn lemma_exit_types(ctx: ContextView, stmts: Seq<Stmt>, i: int)
    requires
        0 <= i,
    ensures
        stmts_rule(ctx, stmts, i).result matches Ok(exit) ==> (!exit.is_nothing() <==> some_returns(
            stmts,
            i,
        )),
    decreases stmts, stmts.len() - i,
{
    if i < stmts.len() {
        lemma_exit_type(ctx, stmts[i]);
        let done = check_stmt(ctx, stmts[i]);
        if !done.failed() && done.ty().is_nothing() {
            lemma_exit_types(done.ctx, stmts, i + 1);
        }
    }
}

/// Where a `ret` passes the check, what it returns is assignable to the
/// return type that the enclosing function declares, and the exit type of
/// the `ret` is that return type.
pub proof fn lemma_ret_assignable(ctx: ContextView, ret_stmt: RetStmt)
    requires
        ret_rule(ctx, ret_stmt).result is Ok,
    ensures
        ctx.fn_ret_type() matches Some(declared) && ret_rule(ctx, ret_stmt).result == Ok::<
            TypeId,
            crate::diag::Diag,
        >(returned(declared)) && match ret_stmt.expr {
            Some(e) => {
                let value = check_expr(ctx, *e);
                equal_types(
                    value.ctx.types,
                    declared,
                    infer(value.ctx.types, declared, value.ty()),
                )
            },
            None => equal_types(
                ctx.types,
                declared,
                infer(ctx.types, declared, TypeId::void()),
            ),
        },
{
}

/// An `if` whose first arm is an integer literal and whose second arm is a
/// float literal fails, once its condition has passed as a `Bool`: the
/// literal of the first arm is what was expected, that of the second what
/// was found, and the fault lies with the second arm.
pub proof fn lemma_if_literal_arms_disagree(
    ctx: ContextView,
    if_expr: IfExpr,
    whole: NumberLiteral,
    fraction: NumberLiteral,
)
    requires
        ({
            let IfExpr { cond, then: then_arm, otherwise, .. } = if_expr;
            let test = check_expr(ctx, *cond);
            &&& *then_arm == Expr::Literal(Literal::Number(whole))
            &&& *otherwise == Expr::Literal(Literal::Number(fraction))
            &&& !whole.as_dot
            &&& literal_value(whole.text@, whole.base as nat) is Some
            &&& fraction.as_dot
            &&& test.result is Ok
            &&& equal_types(test.ctx.types, TypeId::bool(), test.ty())
            &&& 18 <= test.ctx.types.len() < u64::MAX - 2
        }),
    ensures
        ({
            let done = if_expr_rule(ctx, if_expr);
            match done.result {
                Err(diag) => diag.range == fraction.range && diag.secondary == Some(whole.range)
                    && (diag.kind matches DiagKind::TypeMismatch { expected, found } && lookup(
                    done.ctx.types,
                    expected,
                ) matches Some(TypeView::InferInt { .. }) && lookup(done.ctx.types, found) == Some(
                    TypeView::InferFloat { bits: 32 },
                )),
                Ok(_) => false,
            }
        }),
{
    let IfExpr { cond, then: then_arm, otherwise, .. } = if_expr;
    let test = check_expr(ctx, *cond);
    let first = check_expr(test.ctx, *then_arm);
    assert(expr_rule(test.ctx, *then_arm) == literal_rule(test.ctx, Literal::Number(whole)));
    let a = TypeId(test.ctx.types.len() as u64);
    assert(first.result == Ok::<TypeId, Diag>(a));
    let second = check_expr(first.ctx, *otherwise);
    assert(expr_rule(first.ctx, *otherwise) == literal_rule(first.ctx, Literal::Number(fraction)));
    let b = TypeId((test.ctx.types.len() + 1) as u64);
    assert(second.result == Ok::<TypeId, Diag>(b));
    let types = second.ctx.types;
    assert(lookup(types, a) matches Some(TypeView::InferInt { .. }));
    assert(lookup(types, b) == Some(TypeView::InferFloat { bits: 32 }));
    assert(infer(types, b, a) == a);
    assert(infer(types, a, b) == b);
    assert(!equal_types(types, a, b));
}

/// An assignment through a name that is bound to a reference: `*p = v`
/// with `v` a number literal. Through a shared reference it fails as an
/// assignment to what cannot be written to; through an exclusive one it is
/// the literal that decides. The spans of `p`, of `*p` and of `v` are
/// three different spans.
pub proof fn lemma_assign_through_reference(
    ctx: ContextView,
    assign: AssignExpr,
    deref: DerefExpr,
    pointer: Ident,
    value: NumberLiteral,
    bound: Value,
    pointee: TypeId,
    mutable: bool,
)
    requires
        *assign.left == Expr::Deref(deref),
        *deref.expr == Expr::Ident(pointer),
        *assign.right == Expr::Literal(Literal::Number(value)),
        !value.as_dot,
        literal_value(value.text@, value.base as nat) is Some,
        ctx.find(Namespace::Values, pointer.text@) == Some(bound),
        lookup(ctx.types, bound.type_id) == Some(TypeView::Borrow { value: pointee, mutable }),
        pointer.range != deref.span(),
        pointer.range != value.range,
    ensures
        !mutable ==> assign_rule(ctx, assign).result == Err::<TypeId, Diag>(
            Diag::at(DiagKind::AssignToImmutable, deref.span()),
        ),
        mutable ==> !(assign_rule(ctx, assign).result matches Err(diag)
            && diag.kind is AssignToImmutable),
{
    let name = check_expr(ctx, *deref.expr);
    assert(expr_rule(ctx, *deref.expr) == ident_rule(ctx, pointer));
    assert(name.result == Ok::<TypeId, Diag>(bound.type_id));
    let left = check_expr(ctx, *assign.left);
    assert(expr_rule(ctx, *assign.left) == deref_rule(ctx, deref));
    assert(left.result == Ok::<TypeId, Diag>(pointee));
    assert(left.ctx.node_types == ctx.node_types.push((pointer.range, bound.type_id)).push(
        (deref.span(), pointee),
    ));
    let right = check_expr(left.ctx, *assign.right);
    assert(expr_rule(left.ctx, *assign.right) == literal_rule(left.ctx, Literal::Number(value)));
    assert(right.result is Ok);
    let table = right.ctx.node_types;
    assert(table == left.ctx.node_types.push((value.range, right.ty())));
    assert(table.drop_last() =~= left.ctx.node_types);
    assert(left.ctx.node_types.drop_last() =~= ctx.node_types.push(
        (pointer.range, bound.type_id),
    ));
    assert(node_type(left.ctx.node_types.drop_last(), pointer.range) == Some(bound.type_id));
    assert(node_type(left.ctx.node_types, pointer.range) == Some(bound.type_id));
    assert(node_type(table, pointer.range) == Some(bound.type_id));
    assert(lookup(right.ctx.types, bound.type_id) == lookup(ctx.types, bound.type_id));
    assert(assignable(right.ctx, *assign.left) == mutable);
}

} // verus!
