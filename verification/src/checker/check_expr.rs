//! Checking expressions.

use vstd::prelude::*;
use crate::ast::{
    AssignExpr, AssociateExpr, BaseExpr, BinaryExpr, BorrowExpr, CallExpr, DerefExpr, Expr,
    FiledExpr, FnExpr, Ident, IfExpr, ImportExpr, Literal, MemberExpr, OperatorKind, PipeExpr,
    StructInitExpr, UnaryExpr,
};
use crate::diag::{Diag, DiagKind};
use crate::range::Range;
use crate::text::{bits_of, parse_literal};
use super::check_stmt::check_body;
use super::context::scope::ScopeType;
use super::context::Context;
use super::equal_type::equal_type_id;
use super::infer::{infer_no_type_anotation, infer_type, unify_types};
use super::resolve::{copy_fields, copy_ids, declare_params, resolve_signature};
use super::rules::{self, Checked};
use super::types::{FieldType, Type, TypeId, TypeStore};
use vstd::string::StringExecFns;

verus! {

/// See [`rules::numeric`].
pub fn is_numeric(store: &TypeStore, id: TypeId) -> (r: bool)
    ensures
        r == rules::numeric(store@, id),
{
    match store.get_type(id) {
        Some(ty) => ty.is_numeric(),
        None => false,
    }
}

/// See [`rules::integer`].
pub fn is_integer(store: &TypeStore, id: TypeId) -> (r: bool)
    ensures
        r == rules::integer(store@, id),
{
    match store.get_type(id) {
        Some(ty) => ty.is_integer(),
        None => false,
    }
}

/// See [`rules::signed`].
pub fn is_signed(store: &TypeStore, id: TypeId) -> (r: bool)
    ensures
        r == rules::signed(store@, id),
{
    match store.get_type(id) {
        Some(ty) => ty.is_signed(),
        None => false,
    }
}

/// The type of the first field called `name`: see [`rules::field_from`].
pub fn field_type(fields: &Vec<FieldType>, name: &String) -> (r: Option<TypeId>)
    ensures
        r == match rules::field_from(fields@, name@, 0) {
            Some(field) => Some(field.type_id),
            None => None,
        },
{
    let mut i: usize = 0;
    while i < fields.len()
        invariant
            i <= fields@.len(),
            rules::field_from(fields@, name@, 0) == rules::field_from(fields@, name@, i as int),
        decreases fields@.len() - i,
    {
        if fields[i].name == *name {
            return Some(fields[i].type_id);
        }
        i += 1;
    }
    None
}

/// See [`rules::initialised_before`].
pub fn is_initialised_before(inits: &Vec<FiledExpr>, upto: usize, name: &String) -> (r: bool)
    ensures
        r == rules::initialised_before(inits@, upto as int, name@),
{
    let mut j: usize = 0;
    while j < upto && j < inits.len()
        invariant
            forall|k: int| 0 <= k < j ==> (#[trigger] inits@[k]).name.text@ != name@,
        decreases inits@.len() - j,
    {
        if inits[j].name.text == *name {
            assert(inits@[j as int].name.text@ == name@);
            return true;
        }
        j += 1;
    }
    false
}

/// The position of the first field that no initialiser is for: see
/// [`rules::first_missing`].
pub fn first_missing_field(fields: &Vec<FieldType>, inits: &Vec<FiledExpr>) -> (r: Option<usize>)
    ensures
        match r {
            Some(k) => k < fields@.len() && rules::first_missing(fields@, inits@, 0) == Some(
                fields@[k as int],
            ),
            None => rules::first_missing(fields@, inits@, 0) is None,
        },
{
    let mut i: usize = 0;
    while i < fields.len()
        invariant
            i <= fields@.len(),
            rules::first_missing(fields@, inits@, 0) == rules::first_missing(
                fields@,
                inits@,
                i as int,
            ),
        decreases fields@.len() - i,
    {
        if !is_initialised_before(inits, inits.len(), &fields[i].name) {
            return Some(i);
        }
        i += 1;
    }
    None
}

/// See [`rules::place_root`].
pub fn root_of(e: &Expr) -> (r: Option<&Ident>)
    ensures
        match r {
            Some(ident) => rules::place_root(*e) == Some(*ident),
            None => rules::place_root(*e) is None,
        },
    decreases e,
{
    match e {
        Expr::Ident(ident) => Some(ident),
        Expr::Member(member) => root_of(&member.left),
        Expr::Group(group) => root_of(&group.expr),
        _ => None,
    }
}

/// See [`rules::assignable`].
pub fn is_assignable(ctx: &Context, e: &Expr) -> (r: bool)
    ensures
        r == rules::assignable(ctx@, *e),
    decreases e,
{
    match e {
        Expr::Ident(ident) => match ctx.get_value(ident.text.as_str()) {
            Some(value) => value.is_mut,
            None => false,
        },
        Expr::Deref(deref) => match ctx.node_type(deref.expr.get_range()) {
            Some(pointer) => match ctx.type_store.get_type(pointer) {
                Some(Type::Borrow { mutable, .. }) => *mutable,
                _ => false,
            },
            None => false,
        },
        Expr::Member(member) => is_assignable(ctx, &member.left),
        Expr::Group(group) => is_assignable(ctx, &group.expr),
        _ => false,
    }
}

/// See [`rules::expect`].
pub fn expect_type(ctx: &Context, expected: TypeId, found: TypeId, at: Range) -> (r: Result<
    TypeId,
    Diag,
>)
    ensures
        Checked::of(ctx@, r) == rules::expect(ctx@, expected, found, at),
{
    let resolved = infer_type(&ctx.type_store, expected, found);
    if equal_type_id(&ctx.type_store, expected, resolved) {
        Ok(expected)
    } else {
        Err(Diag::type_mismatch(expected, resolved, at))
    }
}

/// The type of a literal: see [`rules::literal_rule`].
pub(crate) fn check_literal(ctx: &mut Context, literal: &Literal) -> (r: Result<TypeId, Diag>)
    requires
        old(ctx).wf(),
    ensures
        final(ctx).wf(),
        Checked::of(final(ctx)@, r) == rules::literal_rule(old(ctx)@, *literal),
{
    match literal {
        Literal::Number(number) => {
            if number.as_dot {
                Ok(ctx.add_type(Type::InferFloat { bits: 32 }))
            } else {
                match parse_literal(number.text.as_str(), number.base) {
                    Some(value) => Ok(ctx.add_type(Type::InferInt { bits: bits_of(value) })),
                    None => Err(Diag::new(DiagKind::InvalidLiteral, number.range)),
                }
            }
        },
        Literal::String(_) => Ok(TypeId::str()),
        Literal::Char(_) => Ok(TypeId::char()),
        Literal::Bool(_) => Ok(TypeId::bool()),
        Literal::Null(_) => Ok(TypeId::void()),
    }
}

/// The type of a name: see [`rules::ident_rule`].
pub(crate) fn check_ident_expr(ctx: &Context, ident: &Ident) -> (r: Result<TypeId, Diag>)
    ensures
        Checked::of(ctx@, r) == rules::ident_rule(ctx@, *ident),
{
    match ctx.get_value(ident.text.as_str()) {
        Some(value) => Ok(value.type_id),
        None => match ctx.get_fn_value(ident.text.as_str()) {
            Some(value) => Ok(value.type_id),
            None => Err(Diag::unknown_ident(&ident.text, ident.range)),
        },
    }
}

/// `break` and `skip`: see [`rules::jump_rule`].
pub(crate) fn check_jump_expr(ctx: &Context, base: &BaseExpr) -> (r: Result<TypeId, Diag>)
    ensures
        Checked::of(ctx@, r) == rules::jump_rule(ctx@, *base),
{
    if ctx.has_loop_scope() {
        Ok(TypeId::void())
    } else {
        Err(Diag::new(DiagKind::BreakOrSkipOutsideLoop, base.range))
    }
}

/// See [`rules::import_rule`].
pub(crate) fn check_import_expr(ctx: &mut Context, import: &ImportExpr) -> (r: Result<TypeId, Diag>)
    requires
        old(ctx).wf(),
    ensures
        final(ctx).wf(),
        Checked::of(final(ctx)@, r) == rules::import_rule(old(ctx)@, *import),
{
    match import.mod_id {
        Some(mod_id) => Ok(ctx.add_type(Type::Module { mod_id })),
        None => Err(Diag::unknown_ident(&import.path.text, import.range)),
    }
}

/// The name under which a function of an `impl` is bound: see
/// [`rules::qualified`].
pub fn qualified_name(owner: &str, method: &str) -> (r: String)
    ensures
        r@ == rules::qualified(owner@, method@),
{
    let mut name = String::from_str(owner);
    name.append("::");
    name.append(method);
    name
}

/// See [`rules::associate_rule`].
pub(crate) fn check_associate_expr(ctx: &Context, associate: &AssociateExpr) -> (r: Result<TypeId, Diag>)
    ensures
        Checked::of(ctx@, r) == rules::associate_rule(ctx@, *associate),
{
    if ctx.get_type_value(associate.self_name.text.as_str()).is_none() {
        return Err(Diag::unknown_type(&associate.self_name.text, associate.self_name.range));
    }
    let name = qualified_name(associate.self_name.text.as_str(), associate.method.text.as_str());
    match ctx.get_fn_value(name.as_str()) {
        Some(value) => Ok(value.type_id),
        None => Err(Diag::unknown_ident(&associate.method.text, associate.method.range)),
    }
}

/// See [`rules::operator_rule`].
pub(crate) fn check_operator(ctx: &mut Context, binary: &BinaryExpr, left: TypeId, right: TypeId) -> (r:
    Result<TypeId, Diag>)
    requires
        old(ctx).wf(),
    ensures
        final(ctx).wf(),
        Checked::of(final(ctx)@, r) == rules::operator_rule(old(ctx)@, *binary, left, right),
{
    let op = binary.operator.kind;
    let common = unify_types(&ctx.type_store, left, right);
    if op.is_arithmetic() {
        match common {
            Ok(ty) => if is_numeric(&ctx.type_store, ty) {
                Ok(ty)
            } else {
                Err(
                    Diag::new(
                        DiagKind::InvalidOperator { op, operand_type: ty },
                        binary.get_range(),
                    ),
                )
            },
            Err((a, b)) => Err(Diag::type_mismatch(a, b, binary.right.get_range())),
        }
    } else if op.is_comparison() {
        match common {
            Ok(_) => Ok(TypeId::bool()),
            Err((a, b)) => Err(Diag::type_mismatch(a, b, binary.right.get_range())),
        }
    } else if op.is_logical() {
        if !equal_type_id(&ctx.type_store, TypeId::bool(), left) {
            Err(Diag::type_mismatch(TypeId::bool(), left, binary.left.get_range()))
        } else if !equal_type_id(&ctx.type_store, TypeId::bool(), right) {
            Err(Diag::type_mismatch(TypeId::bool(), right, binary.right.get_range()))
        } else {
            Ok(TypeId::bool())
        }
    } else if op.is_bitwise() {
        match common {
            Ok(ty) => if is_integer(&ctx.type_store, ty) {
                Ok(ty)
            } else {
                Err(
                    Diag::new(
                        DiagKind::InvalidOperator { op, operand_type: ty },
                        binary.get_range(),
                    ),
                )
            },
            Err((a, b)) => Err(Diag::type_mismatch(a, b, binary.right.get_range())),
        }
    } else if matches!(op, OperatorKind::RANGE) {
        match common {
            Ok(ty) => if is_integer(&ctx.type_store, ty) {
                let item = infer_no_type_anotation(&ctx.type_store, ty);
                Ok(ctx.add_type(Type::Range { item }))
            } else {
                Err(
                    Diag::new(
                        DiagKind::InvalidOperator { op, operand_type: ty },
                        binary.get_range(),
                    ),
                )
            },
            Err((a, b)) => Err(Diag::type_mismatch(a, b, binary.right.get_range())),
        }
    } else if op.is_compound_assign() {
        let value = infer_type(&ctx.type_store, left, right);
        if !is_assignable(ctx, &binary.left) {
            Err(Diag::new(DiagKind::AssignToImmutable, binary.left.get_range()))
        } else if !equal_type_id(&ctx.type_store, left, value) {
            Err(Diag::type_mismatch(left, value, binary.right.get_range()))
        } else if !is_numeric(&ctx.type_store, left) {
            Err(
                Diag::new(
                    DiagKind::InvalidOperator { op, operand_type: left },
                    binary.get_range(),
                ),
            )
        } else {
            Ok(TypeId::void())
        }
    } else {
        Err(Diag::new(DiagKind::InvalidOperator { op, operand_type: left }, binary.operator.range))
    }
}

/// See [`rules::unary_operator_rule`].
pub(crate) fn check_unary_operator(ctx: &Context, unary: &UnaryExpr, operand: TypeId) -> (r: Result<
    TypeId,
    Diag,
>)
    ensures
        Checked::of(ctx@, r) == rules::unary_operator_rule(ctx@, *unary, operand),
{
    let op = unary.operator.kind;
    if matches!(op, OperatorKind::NOT) && equal_type_id(&ctx.type_store, TypeId::bool(), operand) {
        Ok(TypeId::bool())
    } else if matches!(op, OperatorKind::SUB) && is_signed(&ctx.type_store, operand) {
        Ok(operand)
    } else {
        Err(Diag::new(DiagKind::InvalidOperator { op, operand_type: operand }, unary.get_range()))
    }
}

/// Registers the borrow that `&` takes: see [`rules::take_borrow`].
pub(crate) fn take_borrow(ctx: &mut Context, borrow: &BorrowExpr, place: TypeId) -> (r: Result<
    TypeId,
    Diag,
>)
    requires
        old(ctx).wf(),
    ensures
        final(ctx).wf(),
        Checked::of(final(ctx)@, r) == rules::take_borrow(old(ctx)@, *borrow, place),
{
    let root = match root_of(&borrow.expr) {
        Some(root) => root,
        None => {
            return Err(Diag::new(DiagKind::NotAddressable, borrow.get_range()));
        },
    };
    let value = match ctx.get_value(root.text.as_str()) {
        Some(value) => *value,
        None => {
            return Err(Diag::new(DiagKind::NotAddressable, borrow.get_range()));
        },
    };
    let is_mut = borrow.is_mut();
    let (_, exclusive) = ctx.holds(value.id);
    match ctx.add_scoped_borrow(value.id, is_mut) {
        Some(_) => Ok(ctx.add_type(Type::Borrow { value: place, mutable: is_mut })),
        None => Err(
            Diag::new(
                DiagKind::BorrowConflict {
                    value: root.text.clone(),
                    requested_mut: is_mut,
                    existing_mut: exclusive,
                },
                borrow.get_range(),
            ),
        ),
    }
}

/// Checks an expression and records its type: see [`rules::check_expr`].
pub fn check_expr(ctx: &mut Context, e: &Expr) -> (r: Result<TypeId, Diag>)
    requires
        old(ctx).wf(),
    ensures
        final(ctx).wf(),
        Checked::of(final(ctx)@, r) == rules::check_expr(old(ctx)@, *e),
    decreases e, 1nat,
{
    let result = match e {
        Expr::Literal(literal) => check_literal(ctx, literal),
        Expr::Ident(ident) => check_ident_expr(ctx, ident),
        Expr::Group(group) => check_expr(ctx, &group.expr),
        Expr::Binary(binary) => check_binary_expr(ctx, binary),
        Expr::Unary(unary) => check_unary_expr(ctx, unary),
        Expr::Assign(assign) => check_assign_expr(ctx, assign),
        Expr::Borrow(borrow) => check_borrow_expr(ctx, borrow),
        Expr::Deref(deref) => check_deref_expr(ctx, deref),
        Expr::Call(call) => check_call_expr(ctx, call),
        Expr::If(if_expr) => check_if_expr(ctx, if_expr),
        Expr::Member(member) => check_member_expr(ctx, member),
        Expr::Associate(associate) => check_associate_expr(ctx, associate),
        Expr::Pipe(pipe) => check_pipe_expr(ctx, pipe),
        Expr::Fn(fn_expr) => check_fn_expr(ctx, fn_expr),
        Expr::Import(import) => check_import_expr(ctx, import),
        Expr::Break(base) => check_jump_expr(ctx, base),
        Expr::Skip(base) => check_jump_expr(ctx, base),
        Expr::StructInit(struct_init) => check_struct_init_expr(ctx, struct_init),
    };
    match result {
        Ok(type_id) => {
            ctx.note_type(e.get_range(), type_id);
            Ok(type_id)
        },
        Err(diag) => Err(diag),
    }
}

pub(crate) fn check_binary_expr(ctx: &mut Context, binary: &BinaryExpr) -> (r: Result<TypeId, Diag>)
    requires
        old(ctx).wf(),
    ensures
        final(ctx).wf(),
        Checked::of(final(ctx)@, r) == rules::binary_rule(old(ctx)@, *binary),
    decreases binary, 0nat,
{
    let left = match check_expr(ctx, &binary.left) {
        Ok(left) => left,
        Err(diag) => {
            return Err(diag);
        },
    };
    let right = match check_expr(ctx, &binary.right) {
        Ok(right) => right,
        Err(diag) => {
            return Err(diag);
        },
    };
    check_operator(ctx, binary, left, right)
}

pub(crate) fn check_unary_expr(ctx: &mut Context, unary: &UnaryExpr) -> (r: Result<TypeId, Diag>)
    requires
        old(ctx).wf(),
    ensures
        final(ctx).wf(),
        Checked::of(final(ctx)@, r) == rules::unary_rule(old(ctx)@, *unary),
    decreases unary, 0nat,
{
    let operand = match check_expr(ctx, &unary.operand) {
        Ok(operand) => operand,
        Err(diag) => {
            return Err(diag);
        },
    };
    check_unary_operator(ctx, unary, operand)
}

pub(crate) fn check_assign_expr(ctx: &mut Context, assign: &AssignExpr) -> (r: Result<TypeId, Diag>)
    requires
        old(ctx).wf(),
    ensures
        final(ctx).wf(),
        Checked::of(final(ctx)@, r) == rules::assign_rule(old(ctx)@, *assign),
    decreases assign, 0nat,
{
    let left = match check_expr(ctx, &assign.left) {
        Ok(left) => left,
        Err(diag) => {
            return Err(diag);
        },
    };
    let right = match check_expr(ctx, &assign.right) {
        Ok(right) => right,
        Err(diag) => {
            return Err(diag);
        },
    };
    if !is_assignable(ctx, &assign.left) {
        return Err(Diag::new(DiagKind::AssignToImmutable, assign.left.get_range()));
    }
    match expect_type(ctx, left, right, assign.right.get_range()) {
        Ok(_) => Ok(TypeId::void()),
        Err(diag) => Err(diag),
    }
}

pub(crate) fn check_borrow_expr(ctx: &mut Context, borrow: &BorrowExpr) -> (r: Result<TypeId, Diag>)
    requires
        old(ctx).wf(),
    ensures
        final(ctx).wf(),
        Checked::of(final(ctx)@, r) == rules::borrow_rule(old(ctx)@, *borrow),
    decreases borrow, 0nat,
{
    let place = match check_expr(ctx, &borrow.expr) {
        Ok(place) => place,
        Err(diag) => {
            return Err(diag);
        },
    };
    take_borrow(ctx, borrow, place)
}

pub(crate) fn check_deref_expr(ctx: &mut Context, deref: &DerefExpr) -> (r: Result<TypeId, Diag>)
    requires
        old(ctx).wf(),
    ensures
        final(ctx).wf(),
        Checked::of(final(ctx)@, r) == rules::deref_rule(old(ctx)@, *deref),
    decreases deref, 0nat,
{
    let pointer = match check_expr(ctx, &deref.expr) {
        Ok(pointer) => pointer,
        Err(diag) => {
            return Err(diag);
        },
    };
    match ctx.type_store.get_type(pointer) {
        Some(Type::Borrow { value, .. }) => Ok(*value),
        _ => Err(Diag::cannot_dereference(pointer, deref.get_range())),
    }
}

/// Checks the arguments of a call: see [`rules::args_rule`].
#[verifier::loop_isolation(false)]
pub(crate) fn check_args(ctx: &mut Context, args: &Vec<Expr>, params: &Vec<TypeId>) -> (r: Result<
    TypeId,
    Diag,
>)
    requires
        old(ctx).wf(),
    ensures
        final(ctx).wf(),
        Checked::of(final(ctx)@, r) == rules::args_rule(old(ctx)@, args@, params@, 0),
    decreases args,
{
    let ghost goal = rules::args_rule(ctx@, args@, params@, 0);
    let mut i: usize = 0;
    while i < args.len() && i < params.len()
        invariant
            ctx.wf(),
            goal == rules::args_rule(ctx@, args@, params@, i as int),
        decreases args@.len() - i,
    {
        let arg = match check_expr(ctx, &args[i]) {
            Ok(arg) => arg,
            Err(diag) => {
                return Err(diag);
            },
        };
        match expect_type(ctx, params[i], arg, args[i].get_range()) {
            Ok(_) => {},
            Err(diag) => {
                return Err(diag);
            },
        }
        i += 1;
    }
    Ok(TypeId::void())
}

pub(crate) fn check_call_expr(ctx: &mut Context, call: &CallExpr) -> (r: Result<TypeId, Diag>)
    requires
        old(ctx).wf(),
    ensures
        final(ctx).wf(),
        Checked::of(final(ctx)@, r) == rules::call_rule(old(ctx)@, *call),
    decreases call, 0nat,
{
    let callee = match check_expr(ctx, &call.callee) {
        Ok(callee) => callee,
        Err(diag) => {
            return Err(diag);
        },
    };
    let (params, ret) = match ctx.type_store.get_type(callee) {
        Some(Type::Fn { params, ret, .. }) => (copy_ids(params), *ret),
        _ => {
            return Err(
                Diag::new(DiagKind::NotAFunction { actual: callee }, call.callee.get_range()),
            );
        },
    };
    if params.len() != call.args.len() {
        return Err(
            Diag::new(
                DiagKind::ArityMismatch { expected: params.len(), found: call.args.len() },
                call.range,
            ),
        );
    }
    match check_args(ctx, &call.args, &params) {
        Ok(_) => Ok(ret),
        Err(diag) => Err(diag),
    }
}

pub(crate) fn check_if_expr(ctx: &mut Context, if_expr: &IfExpr) -> (r: Result<TypeId, Diag>)
    requires
        old(ctx).wf(),
    ensures
        final(ctx).wf(),
        Checked::of(final(ctx)@, r) == rules::if_expr_rule(old(ctx)@, *if_expr),
    decreases if_expr, 0nat,
{
    let IfExpr { cond, then: then_arm, otherwise, .. } = if_expr;
    let test = match check_expr(ctx, cond) {
        Ok(test) => test,
        Err(diag) => {
            return Err(diag);
        },
    };
    if !equal_type_id(&ctx.type_store, TypeId::bool(), test) {
        return Err(Diag::type_mismatch(TypeId::bool(), test, cond.get_range()));
    }
    let first = match check_expr(ctx, then_arm) {
        Ok(first) => first,
        Err(diag) => {
            return Err(diag);
        },
    };
    let second = match check_expr(ctx, otherwise) {
        Ok(second) => second,
        Err(diag) => {
            return Err(diag);
        },
    };
    match unify_types(&ctx.type_store, first, second) {
        Ok(ty) => Ok(ty),
        Err((a, b)) => Err(
            Diag::with_secondary(
                DiagKind::TypeMismatch { expected: a, found: b },
                otherwise.get_range(),
                then_arm.get_range(),
            ),
        ),
    }
}

pub(crate) fn check_member_expr(ctx: &mut Context, member: &MemberExpr) -> (r: Result<TypeId, Diag>)
    requires
        old(ctx).wf(),
    ensures
        final(ctx).wf(),
        Checked::of(final(ctx)@, r) == rules::member_rule(old(ctx)@, *member),
    decreases member, 0nat,
{
    let owner = match check_expr(ctx, &member.left) {
        Ok(owner) => owner,
        Err(diag) => {
            return Err(diag);
        },
    };
    let peeled = match ctx.type_store.get_type(owner) {
        Some(Type::Borrow { value, .. }) => *value,
        _ => owner,
    };
    let found = match ctx.type_store.get_type(peeled) {
        Some(Type::Struct { fields }) => field_type(fields, &member.method.text),
        _ => None,
    };
    match found {
        Some(type_id) => Ok(type_id),
        None => Err(Diag::unknown_ident(&member.method.text, member.method.range)),
    }
}

pub(crate) fn check_pipe_expr(ctx: &mut Context, pipe: &PipeExpr) -> (r: Result<TypeId, Diag>)
    requires
        old(ctx).wf(),
    ensures
        final(ctx).wf(),
        Checked::of(final(ctx)@, r) == rules::pipe_rule(old(ctx)@, *pipe),
    decreases pipe, 0nat,
{
    let left = match check_expr(ctx, &pipe.left) {
        Ok(left) => left,
        Err(diag) => {
            return Err(diag);
        },
    };
    let right = match check_expr(ctx, &pipe.right) {
        Ok(right) => right,
        Err(diag) => {
            return Err(diag);
        },
    };
    let (count, first, ret) = match ctx.type_store.get_type(right) {
        Some(Type::Fn { params, ret, .. }) => (
            params.len(),
            if params.len() == 1 {
                params[0]
            } else {
                TypeId::void()
            },
            *ret,
        ),
        _ => {
            return Err(Diag::new(DiagKind::NotAFunction { actual: right }, pipe.right.get_range()));
        },
    };
    if count != 1 {
        return Err(Diag::new(DiagKind::ArityMismatch { expected: count, found: 1 }, pipe.range));
    }
    match expect_type(ctx, first, left, pipe.left.get_range()) {
        Ok(_) => Ok(ret),
        Err(diag) => Err(diag),
    }
}

pub(crate) fn check_fn_expr(ctx: &mut Context, fn_expr: &FnExpr) -> (r: Result<TypeId, Diag>)
    requires
        old(ctx).wf(),
    ensures
        final(ctx).wf(),
        Checked::of(final(ctx)@, r) == rules::fn_expr_rule(old(ctx)@, *fn_expr),
    decreases fn_expr, 0nat,
{
    let fn_type = match resolve_signature(ctx, &fn_expr.params, &fn_expr.ret_type, None) {
        Ok(fn_type) => fn_type,
        Err(diag) => {
            return Err(diag);
        },
    };
    let (param_types, ret) = fn_parts(&ctx.type_store, fn_type);
    ctx.enter_scope(ScopeType::Fn { ret_type: ret });
    declare_params(ctx, &fn_expr.params, &param_types);
    let done = check_body(ctx, &fn_expr.body, ret);
    ctx.exit_scope();
    match done {
        Ok(_) => Ok(fn_type),
        Err(diag) => Err(diag),
    }
}

/// See [`rules::fn_parts`].
pub fn fn_parts(store: &TypeStore, fn_type: TypeId) -> (r: (Vec<TypeId>, TypeId))
    ensures
        (r.0@, r.1) == rules::fn_parts(store@, fn_type),
{
    match store.get_type(fn_type) {
        Some(Type::Fn { params, ret, .. }) => (copy_ids(params), *ret),
        _ => (Vec::new(), TypeId::void()),
    }
}

/// Checks the initialisers of a struct literal: see [`rules::inits_rule`].
#[verifier::loop_isolation(false)]
pub(crate) fn check_inits(ctx: &mut Context, inits: &Vec<FiledExpr>, fields: &Vec<FieldType>) -> (r:
    Result<TypeId, Diag>)
    requires
        old(ctx).wf(),
    ensures
        final(ctx).wf(),
        Checked::of(final(ctx)@, r) == rules::inits_rule(old(ctx)@, inits@, fields@, 0),
    decreases inits,
{
    let ghost goal = rules::inits_rule(ctx@, inits@, fields@, 0);
    let mut i: usize = 0;
    while i < inits.len()
        invariant
            ctx.wf(),
            goal == rules::inits_rule(ctx@, inits@, fields@, i as int),
        decreases inits@.len() - i,
    {
        let init = &inits[i];
        if is_initialised_before(inits, i, &init.name.text) {
            return Err(
                Diag::new(
                    DiagKind::DuplicateFieldInit { name: init.name.text.clone() },
                    init.name.range,
                ),
            );
        }
        let wanted = match field_type(fields, &init.name.text) {
            Some(wanted) => wanted,
            None => {
                return Err(Diag::unknown_ident(&init.name.text, init.name.range));
            },
        };
        let value = match check_expr(ctx, &init.value) {
            Ok(value) => value,
            Err(diag) => {
                return Err(diag);
            },
        };
        match expect_type(ctx, wanted, value, init.value.get_range()) {
            Ok(_) => {},
            Err(diag) => {
                return Err(diag);
            },
        }
        i += 1;
    }
    Ok(TypeId::void())
}

pub(crate) fn check_struct_init_expr(ctx: &mut Context, init: &StructInitExpr) -> (r: Result<
    TypeId,
    Diag,
>)
    requires
        old(ctx).wf(),
    ensures
        final(ctx).wf(),
        Checked::of(final(ctx)@, r) == rules::struct_init_rule(old(ctx)@, *init),
    decreases init, 0nat,
{
    let named = match ctx.get_type_value(init.name.text.as_str()) {
        Some(named) => named.type_id,
        None => {
            return Err(Diag::unknown_type(&init.name.text, init.name.range));
        },
    };
    let fields = match ctx.type_store.get_type(named) {
        Some(Type::Struct { fields }) => copy_fields(fields),
        _ => {
            return Err(Diag::unknown_type(&init.name.text, init.name.range));
        },
    };
    match check_inits(ctx, &init.fields, &fields) {
        Ok(_) => {},
        Err(diag) => {
            return Err(diag);
        },
    }
    match first_missing_field(&fields, &init.fields) {
        Some(k) => Err(
            Diag::new(DiagKind::MissingFieldInit { name: fields[k].name.clone() }, init.range),
        ),
        None => Ok(named),
    }
}

} // verus!
