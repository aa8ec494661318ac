//! The rules of the language, as functions from an environment and a
//! syntax node to the environment afterwards and the type or the
//! diagnostic that the node gets. The checker computes these functions.

use vstd::prelude::*;
use crate::ast::{
    AssignExpr, AssociateExpr, AstType, BaseExpr, BinaryExpr, Binding, BlockStmt, BorrowExpr,
    CallExpr, ConstDelStmt, ConstFnStmt, DerefExpr, Expr, ExternFnStmt, FiledExpr, FnBody, FnExpr,
    FnStmt, ForStmt, Ident, IfExpr, IfStmt, ImplStmt, ImportExpr, LetStmt, Literal, MemberExpr,
    OperatorKind, PipeExpr, RetStmt, Stmt, StructInitExpr, TypeDefKind, TypeDefStmt, UnaryExpr,
    WhileStmt,
};
use crate::diag::{Diag, DiagKind};
use crate::range::Range;
use crate::text::{bit_width, literal_value};
use super::context::scope::{Namespace, ScopeType};
use super::context::value::ValueOrigin;
use super::context::ContextView;
use super::equal_type::equal_types;
use super::infer::{infer, infer_default, unify};
use super::types::type_id::number_type_id;
use super::types::{lookup, FieldType, TypeId, TypeView};

verus! {

/// What checking a node gives: the environment afterwards, and the type of
/// the node or the diagnostic that ended the check.
pub struct Checked {
    pub ctx: ContextView,
    pub result: Result<TypeId, Diag>,
}

impl Checked {
    pub open spec fn of(ctx: ContextView, result: Result<TypeId, Diag>) -> Checked {
        Checked { ctx, result }
    }

    pub open spec fn ok(ctx: ContextView, type_id: TypeId) -> Checked {
        Checked { ctx, result: Ok(type_id) }
    }

    pub open spec fn fail(ctx: ContextView, kind: DiagKind, range: Range) -> Checked {
        Checked { ctx, result: Err(Diag::at(kind, range)) }
    }

    pub open spec fn mismatch(ctx: ContextView, expected: TypeId, found: TypeId, range: Range) -> Checked {
        Checked { ctx, result: Err(Diag::mismatch(expected, found, range)) }
    }

    pub open spec fn failed(self) -> bool {
        self.result is Err
    }

    /// The type, where the check passed.
    pub open spec fn ty(self) -> TypeId {
        match self.result {
            Ok(type_id) => type_id,
            Err(_) => TypeId::nothing(),
        }
    }

    /// This outcome with the innermost scope left.
    pub open spec fn leave(self) -> Checked {
        Checked { ctx: self.ctx.exit(), result: self.result }
    }

    /// This outcome with `type_id` for its type, where the check passed.
    pub open spec fn giving(self, type_id: TypeId) -> Checked {
        match self.result {
            Ok(_) => Checked { ctx: self.ctx, result: Ok(type_id) },
            Err(_) => self,
        }
    }
}

/// What resolving a list of annotations gives.
pub struct Resolved {
    pub ctx: ContextView,
    pub result: Result<Seq<TypeId>, Diag>,
}

impl Resolved {
    pub open spec fn of(ctx: ContextView, result: Result<Vec<TypeId>, Diag>) -> Resolved {
        Resolved {
            ctx,
            result: match result {
                Ok(types) => Ok(types@),
                Err(diag) => Err(diag),
            },
        }
    }
}

/// What resolving the fields of a struct definition gives.
pub struct ResolvedFields {
    pub ctx: ContextView,
    pub result: Result<Seq<FieldType>, Diag>,
}

impl ResolvedFields {
    pub open spec fn of(ctx: ContextView, result: Result<Vec<FieldType>, Diag>) -> ResolvedFields {
        ResolvedFields {
            ctx,
            result: match result {
                Ok(fields) => Ok(fields@),
                Err(diag) => Err(diag),
            },
        }
    }
}

/// The type behind `id` is numeric.
pub open spec fn numeric(types: Seq<TypeView>, id: TypeId) -> bool {
    lookup(types, id) matches Some(ty) && ty.is_numeric()
}

/// The type behind `id` is an integer type.
pub open spec fn integer(types: Seq<TypeView>, id: TypeId) -> bool {
    lookup(types, id) matches Some(ty) && ty.is_integer()
}

/// The type behind `id` is a numeric type with negative values.
pub open spec fn signed(types: Seq<TypeView>, id: TypeId) -> bool {
    lookup(types, id) matches Some(ty) && ty.is_signed()
}

/// The type that a `ret` forces: the declared one, with `Void` for
/// `Nothing`, which is no type that a function can return.
pub open spec fn returned(declared: TypeId) -> TypeId {
    if declared.is_nothing() {
        TypeId::void()
    } else {
        declared
    }
}

/// The type behind a reference, or the type itself where it is none.
pub open spec fn peel(types: Seq<TypeView>, id: TypeId) -> TypeId {
    match lookup(types, id) {
        Some(TypeView::Borrow { value, .. }) => value,
        _ => id,
    }
}

/// The first field from position `from` on that is called `name`.
pub open spec fn field_from(fields: Seq<FieldType>, name: Seq<char>, from: int) -> Option<
    FieldType,
>
    decreases fields.len() - from,
{
    if from < 0 || from >= fields.len() {
        None
    } else if fields[from].name@ == name {
        Some(fields[from])
    } else {
        field_from(fields, name, from + 1)
    }
}

/// One of the first `upto` initialisers is for the field `name`.
pub open spec fn initialised_before(inits: Seq<FiledExpr>, upto: int, name: Seq<char>) -> bool {
    exists|j: int| 0 <= j < upto && j < inits.len() && (#[trigger] inits[j]).name.text@ == name
}

/// The first field from position `from` on that no initialiser is for.
pub open spec fn first_missing(fields: Seq<FieldType>, inits: Seq<FiledExpr>, from: int) -> Option<
    FieldType,
>
    decreases fields.len() - from,
{
    if from < 0 || from >= fields.len() {
        None
    } else if !initialised_before(inits, inits.len() as int, fields[from].name@) {
        Some(fields[from])
    } else {
        first_missing(fields, inits, from + 1)
    }
}

/// The name that owns the place that `e` denotes: `e` itself if it is a
/// name, the owner of the left side if it is a field access.
pub open spec fn place_root(e: Expr) -> Option<Ident>
    decreases e,
{
    match e {
        Expr::Ident(ident) => Some(ident),
        Expr::Member(member) => place_root(*member.left),
        Expr::Group(group) => place_root(*group.expr),
        _ => None,
    }
}

/// `e` denotes a place that may be written to: a name bound as mutable,
/// what an exclusive reference points to, or a field of such a place. The
/// type of a dereferenced operand is the one recorded for it.
pub open spec fn assignable(ctx: ContextView, e: Expr) -> bool
    decreases e,
{
    match e {
        Expr::Ident(ident) => ctx.find(Namespace::Values, ident.text@) matches Some(value)
            && value.is_mut,
        Expr::Deref(deref) => ctx.node_type(deref.expr.span()) matches Some(pointer) && (lookup(
            ctx.types,
            pointer,
        ) matches Some(TypeView::Borrow { mutable, .. }) && mutable),
        Expr::Member(member) => assignable(ctx, *member.left),
        Expr::Group(group) => assignable(ctx, *group.expr),
        _ => false,
    }
}

/// The name under which a function of an `impl` is bound.
pub open spec fn qualified(owner: Seq<char>, method: Seq<char>) -> Seq<char> {
    owner + "::"@ + method
}

/// The parameter types and the return type of the function type `id`.
pub open spec fn fn_parts(types: Seq<TypeView>, id: TypeId) -> (Seq<TypeId>, TypeId) {
    match lookup(types, id) {
        Some(TypeView::Fn { params, ret, .. }) => (params, ret),
        _ => (Seq::empty(), TypeId::void()),
    }
}

/// The first parameter is called `self`.
pub open spec fn has_receiver(params: Seq<Binding>) -> bool {
    params.len() > 0 && params[0].ident.text@ == "self"@
}

// ------- annotations -------
/// The type that an annotation denotes. A reference or function
/// annotation adds its type to the store.
pub open spec fn resolve_rule(ctx: ContextView, ty: AstType) -> Checked
    decreases ty,
{
    match ty {
        AstType::Void { .. } => Checked::ok(ctx, TypeId::void()),
        AstType::Bool { .. } => Checked::ok(ctx, TypeId::bool()),
        AstType::Char { .. } => Checked::ok(ctx, TypeId::char()),
        AstType::Str { .. } => Checked::ok(ctx, TypeId::str()),
        AstType::String { .. } => Checked::ok(ctx, TypeId::string()),
        AstType::Number { number, .. } => Checked::ok(ctx, number_type_id(number)),
        AstType::Ident(ident) => match ctx.find(Namespace::Types, ident.text@) {
            Some(value) => Checked::ok(ctx, value.type_id),
            None => Checked::fail(ctx, DiagKind::UnknownType { name: ident.text }, ident.range),
        },
        AstType::Borrow { value, mutable, .. } => {
            let inner = resolve_rule(ctx, *value);
            if inner.failed() {
                inner
            } else {
                Checked::ok(
                    inner.ctx.add_type(TypeView::Borrow { value: inner.ty(), mutable }),
                    inner.ctx.next_type_id(),
                )
            }
        },
        AstType::Fn { params, ret, .. } => {
            let resolved = resolve_all(ctx, params@, 0, Seq::empty());
            match resolved.result {
                Err(diag) => Checked { ctx: resolved.ctx, result: Err(diag) },
                Ok(param_types) => {
                    let result = resolve_rule(resolved.ctx, *ret);
                    if result.failed() {
                        result
                    } else {
                        Checked::ok(
                            result.ctx.add_type(
                                TypeView::Fn {
                                    params: param_types,
                                    ret: result.ty(),
                                    generics: Seq::empty(),
                                },
                            ),
                            result.ctx.next_type_id(),
                        )
                    }
                },
            }
        },
    }
}

/// Resolves the annotations from position `i` on, after `done`.
pub open spec fn resolve_all(ctx: ContextView, types: Seq<AstType>, i: int, done: Seq<TypeId>) -> Resolved
    decreases types, types.len() - i,
{
    if i < 0 || i >= types.len() {
        Resolved { ctx, result: Ok(done) }
    } else {
        let one = resolve_rule(ctx, types[i]);
        match one.result {
            Err(diag) => Resolved { ctx: one.ctx, result: Err(diag) },
            Ok(type_id) => resolve_all(one.ctx, types, i + 1, done.push(type_id)),
        }
    }
}

/// The types of the parameters from position `i` on, after `done`. A
/// parameter needs an annotation, but for `self` where `receiver` gives
/// its type.
pub open spec fn params_rule(
    ctx: ContextView,
    params: Seq<Binding>,
    receiver: Option<TypeId>,
    i: int,
    done: Seq<TypeId>,
) -> Resolved
    decreases params.len() - i,
{
    if i < 0 || i >= params.len() {
        Resolved { ctx, result: Ok(done) }
    } else {
        match params[i].ty {
            Some(ty) => {
                let one = resolve_rule(ctx, ty);
                match one.result {
                    Err(diag) => Resolved { ctx: one.ctx, result: Err(diag) },
                    Ok(type_id) => params_rule(one.ctx, params, receiver, i + 1, done.push(type_id)),
                }
            },
            None => match receiver {
                Some(self_type) if i == 0 && params[i].ident.text@ == "self"@ => params_rule(
                    ctx,
                    params,
                    receiver,
                    i + 1,
                    done.push(self_type),
                ),
                _ => Resolved {
                    ctx,
                    result: Err(
                        Diag::at(
                            DiagKind::UnknownType { name: params[i].ident.text },
                            params[i].ident.range,
                        ),
                    ),
                },
            },
        }
    }
}

/// The type of a function with the given parameters and return
/// annotation, added to the store. Without a return annotation the
/// function returns `Void`.
pub open spec fn signature_rule(
    ctx: ContextView,
    params: Seq<Binding>,
    ret_type: Option<AstType>,
    receiver: Option<TypeId>,
) -> Checked {
    let resolved = params_rule(ctx, params, receiver, 0, Seq::empty());
    match resolved.result {
        Err(diag) => Checked { ctx: resolved.ctx, result: Err(diag) },
        Ok(param_types) => {
            let result = match ret_type {
                Some(ty) => resolve_rule(resolved.ctx, ty),
                None => Checked::ok(resolved.ctx, TypeId::void()),
            };
            if result.failed() {
                result
            } else {
                Checked::ok(
                    result.ctx.add_type(
                        TypeView::Fn {
                            params: param_types,
                            ret: result.ty(),
                            generics: Seq::empty(),
                        },
                    ),
                    result.ctx.next_type_id(),
                )
            }
        },
    }
}

/// Binds the parameters from position `i` on, each as an external value
/// of its type.
pub open spec fn declare_params(ctx: ContextView, params: Seq<Binding>, types: Seq<TypeId>, i: int) -> ContextView
    decreases params.len() - i,
{
    if i < 0 || i >= params.len() || i >= types.len() {
        ctx
    } else {
        declare_params(
            ctx.declare(
                Namespace::Values,
                params[i].ident.text@,
                types[i],
                false,
                ValueOrigin::External,
            ),
            params,
            types,
            i + 1,
        )
    }
}

/// Resolves the fields of a struct definition from position `i` on.
pub open spec fn fields_rule(
    ctx: ContextView,
    fields: Seq<crate::ast::FieldType>,
    i: int,
    done: Seq<FieldType>,
) -> ResolvedFields
    decreases fields.len() - i,
{
    if i < 0 || i >= fields.len() {
        ResolvedFields { ctx, result: Ok(done) }
    } else {
        let one = resolve_rule(ctx, fields[i].ast_type);
        match one.result {
            Err(diag) => ResolvedFields { ctx: one.ctx, result: Err(diag) },
            Ok(type_id) => fields_rule(
                one.ctx.note(fields[i].ident.range, type_id),
                fields,
                i + 1,
                done.push(
                    FieldType { name: fields[i].ident.text, type_id, is_pub: fields[i].is_pub },
                ),
            ),
        }
    }
}

// ------- expressions -------
/// The type of a literal. A number literal adds its unresolved type to the
/// store: an integer one with the width of its value, a float one with 32
/// bits, the least that holds any float literal.
pub open spec fn literal_rule(ctx: ContextView, literal: Literal) -> Checked {
    match literal {
        Literal::Number(number) => if number.as_dot {
            Checked::ok(ctx.add_type(TypeView::InferFloat { bits: 32 }), ctx.next_type_id())
        } else {
            match literal_value(number.text@, number.base as nat) {
                Some(value) => Checked::ok(
                    ctx.add_type(TypeView::InferInt { bits: bit_width(value as nat) as u8 }),
                    ctx.next_type_id(),
                ),
                None => Checked::fail(ctx, DiagKind::InvalidLiteral, number.range),
            }
        },
        Literal::String(_) => Checked::ok(ctx, TypeId::str()),
        Literal::Char(_) => Checked::ok(ctx, TypeId::char()),
        Literal::Bool(_) => Checked::ok(ctx, TypeId::bool()),
        Literal::Null(_) => Checked::ok(ctx, TypeId::void()),
    }
}

/// The type of a name: that of the value it is bound to, else that of the
/// function it is bound to.
pub open spec fn ident_rule(ctx: ContextView, ident: Ident) -> Checked {
    match ctx.find(Namespace::Values, ident.text@) {
        Some(value) => Checked::ok(ctx, value.type_id),
        None => match ctx.find(Namespace::Functions, ident.text@) {
            Some(value) => Checked::ok(ctx, value.type_id),
            None => Checked::fail(ctx, DiagKind::UnknownIdent { name: ident.text }, ident.range),
        },
    }
}

/// `break` and `skip` stand in a loop only.
pub open spec fn jump_rule(ctx: ContextView, base: BaseExpr) -> Checked {
    if ctx.has_loop_scope() {
        Checked::ok(ctx, TypeId::void())
    } else {
        Checked::fail(ctx, DiagKind::BreakOrSkipOutsideLoop, base.range)
    }
}

/// An import gives a handle of the module that its path was resolved to.
pub open spec fn import_rule(ctx: ContextView, import: ImportExpr) -> Checked {
    match import.mod_id {
        Some(mod_id) => Checked::ok(
            ctx.add_type(TypeView::Module { mod_id }),
            ctx.next_type_id(),
        ),
        None => Checked::fail(
            ctx,
            DiagKind::UnknownIdent { name: import.path.text },
            import.range,
        ),
    }
}

/// `Owner::method` names a function that an `impl` of `Owner` bound.
pub open spec fn associate_rule(ctx: ContextView, associate: AssociateExpr) -> Checked {
    if ctx.find(Namespace::Types, associate.self_name.text@) is None {
        Checked::fail(
            ctx,
            DiagKind::UnknownType { name: associate.self_name.text },
            associate.self_name.range,
        )
    } else {
        match ctx.find(
            Namespace::Functions,
            qualified(associate.self_name.text@, associate.method.text@),
        ) {
            Some(value) => Checked::ok(ctx, value.type_id),
            None => Checked::fail(
                ctx,
                DiagKind::UnknownIdent { name: associate.method.text },
                associate.method.range,
            ),
        }
    }
}

/// The type of a binary expression whose operands have the types `left`
/// and `right`, by the class of its operator.
pub open spec fn operator_rule(ctx: ContextView, binary: BinaryExpr, left: TypeId, right: TypeId) -> Checked {
    let op = binary.operator.kind;
    let common = unify(ctx.types, left, right);
    if op.is_arithmetic() {
        match common {
            Ok(ty) => if numeric(ctx.types, ty) {
                Checked::ok(ctx, ty)
            } else {
                Checked::fail(
                    ctx,
                    DiagKind::InvalidOperator { op, operand_type: ty },
                    binary.span(),
                )
            },
            Err((a, b)) => Checked::mismatch(ctx, a, b, binary.right.span()),
        }
    } else if op.is_comparison() {
        match common {
            Ok(_) => Checked::ok(ctx, TypeId::bool()),
            Err((a, b)) => Checked::mismatch(ctx, a, b, binary.right.span()),
        }
    } else if op.is_logical() {
        if !equal_types(ctx.types, TypeId::bool(), left) {
            Checked::mismatch(ctx, TypeId::bool(), left, binary.left.span())
        } else if !equal_types(ctx.types, TypeId::bool(), right) {
            Checked::mismatch(ctx, TypeId::bool(), right, binary.right.span())
        } else {
            Checked::ok(ctx, TypeId::bool())
        }
    } else if op.is_bitwise() {
        match common {
            Ok(ty) => if integer(ctx.types, ty) {
                Checked::ok(ctx, ty)
            } else {
                Checked::fail(
                    ctx,
                    DiagKind::InvalidOperator { op, operand_type: ty },
                    binary.span(),
                )
            },
            Err((a, b)) => Checked::mismatch(ctx, a, b, binary.right.span()),
        }
    } else if op is RANGE {
        match common {
            Ok(ty) => if integer(ctx.types, ty) {
                Checked::ok(
                    ctx.add_type(TypeView::Range { item: infer_default(ctx.types, ty) }),
                    ctx.next_type_id(),
                )
            } else {
                Checked::fail(
                    ctx,
                    DiagKind::InvalidOperator { op, operand_type: ty },
                    binary.span(),
                )
            },
            Err((a, b)) => Checked::mismatch(ctx, a, b, binary.right.span()),
        }
    } else if op.is_compound_assign() {
        let value = infer(ctx.types, left, right);
        if !assignable(ctx, *binary.left) {
            Checked::fail(ctx, DiagKind::AssignToImmutable, binary.left.span())
        } else if !equal_types(ctx.types, left, value) {
            Checked::mismatch(ctx, left, value, binary.right.span())
        } else if !numeric(ctx.types, left) {
            Checked::fail(
                ctx,
                DiagKind::InvalidOperator { op, operand_type: left },
                binary.span(),
            )
        } else {
            Checked::ok(ctx, TypeId::void())
        }
    } else {
        Checked::fail(
            ctx,
            DiagKind::InvalidOperator { op, operand_type: left },
            binary.operator.range,
        )
    }
}

/// The type of a unary expression whose operand has the type `operand`:
/// `!` on `Bool`, `-` on a signed number.
pub open spec fn unary_operator_rule(ctx: ContextView, unary: UnaryExpr, operand: TypeId) -> Checked {
    let op = unary.operator.kind;
    if op is NOT && equal_types(ctx.types, TypeId::bool(), operand) {
        Checked::ok(ctx, TypeId::bool())
    } else if op is SUB && signed(ctx.types, operand) {
        Checked::ok(ctx, operand)
    } else {
        Checked::fail(ctx, DiagKind::InvalidOperator { op, operand_type: operand }, unary.span())
    }
}

/// Registers the borrow that `&` takes of the place whose type is
/// `place`, and gives the reference type.
pub open spec fn take_borrow(ctx: ContextView, borrow: BorrowExpr, place: TypeId) -> Checked {
    match place_root(*borrow.expr) {
        None => Checked::fail(ctx, DiagKind::NotAddressable, borrow.span()),
        Some(root) => match ctx.find(Namespace::Values, root.text@) {
            None => Checked::fail(ctx, DiagKind::NotAddressable, borrow.span()),
            Some(value) => if ctx.permits(value.id, borrow.is_mut()) {
                let taken = ctx.borrow_scoped(value.id, borrow.is_mut());
                Checked::ok(
                    taken.add_type(TypeView::Borrow { value: place, mutable: borrow.is_mut() }),
                    taken.next_type_id(),
                )
            } else {
                Checked::fail(
                    ctx,
                    DiagKind::BorrowConflict {
                        value: root.text,
                        requested_mut: borrow.is_mut(),
                        existing_mut: ctx.total(value.id, true) > 0,
                    },
                    borrow.span(),
                )
            },
        },
    }
}

/// Checks a value of type `found` against the type `expected` that it
/// meets: the value is resolved against the type and must then be able to
/// stand for it.
pub open spec fn expect(ctx: ContextView, expected: TypeId, found: TypeId, at: Range) -> Checked {
    let resolved = infer(ctx.types, expected, found);
    if equal_types(ctx.types, expected, resolved) {
        Checked::ok(ctx, expected)
    } else {
        Checked::mismatch(ctx, expected, resolved, at)
    }
}

/// A node and the type recorded for it.
pub open spec fn check_expr(ctx: ContextView, e: Expr) -> Checked
    decreases e, 1nat,
{
    let inner = expr_rule(ctx, e);
    match inner.result {
        Ok(type_id) => Checked { ctx: inner.ctx.note(e.span(), type_id), result: Ok(type_id) },
        Err(_) => inner,
    }
}

/// The type of an expression, by its form.
pub open spec fn expr_rule(ctx: ContextView, e: Expr) -> Checked
    decreases e, 0nat,
{
    match e {
        Expr::Literal(literal) => literal_rule(ctx, literal),
        Expr::Ident(ident) => ident_rule(ctx, ident),
        Expr::Group(group) => check_expr(ctx, *group.expr),
        Expr::Binary(binary) => binary_rule(ctx, binary),
        Expr::Unary(unary) => unary_rule(ctx, unary),
        Expr::Assign(assign) => assign_rule(ctx, assign),
        Expr::Borrow(borrow) => borrow_rule(ctx, borrow),
        Expr::Deref(deref) => deref_rule(ctx, deref),
        Expr::Call(call) => call_rule(ctx, call),
        Expr::If(if_expr) => if_expr_rule(ctx, if_expr),
        Expr::Member(member) => member_rule(ctx, member),
        Expr::Associate(associate) => associate_rule(ctx, associate),
        Expr::Pipe(pipe) => pipe_rule(ctx, pipe),
        Expr::Fn(fn_expr) => fn_expr_rule(ctx, fn_expr),
        Expr::Import(import) => import_rule(ctx, import),
        Expr::Break(base) => jump_rule(ctx, base),
        Expr::Skip(base) => jump_rule(ctx, base),
        Expr::StructInit(struct_init) => struct_init_rule(ctx, struct_init),
    }
}

pub open spec fn binary_rule(ctx: ContextView, binary: BinaryExpr) -> Checked
    decreases binary, 0nat,
{
    let left = check_expr(ctx, *binary.left);
    if left.failed() {
        left
    } else {
        let right = check_expr(left.ctx, *binary.right);
        if right.failed() {
            right
        } else {
            operator_rule(right.ctx, binary, left.ty(), right.ty())
        }
    }
}

pub open spec fn unary_rule(ctx: ContextView, unary: UnaryExpr) -> Checked
    decreases unary, 0nat,
{
    let operand = check_expr(ctx, *unary.operand);
    if operand.failed() {
        operand
    } else {
        unary_operator_rule(operand.ctx, unary, operand.ty())
    }
}

/// `left = right`: the left side must be a place that may be written to,
/// and the right side must be assignable to its type.
pub open spec fn assign_rule(ctx: ContextView, assign: AssignExpr) -> Checked
    decreases assign, 0nat,
{
    let left = check_expr(ctx, *assign.left);
    if left.failed() {
        left
    } else {
        let right = check_expr(left.ctx, *assign.right);
        if right.failed() {
            right
        } else if !assignable(right.ctx, *assign.left) {
            Checked::fail(right.ctx, DiagKind::AssignToImmutable, assign.left.span())
        } else {
            expect(right.ctx, left.ty(), right.ty(), assign.right.span()).giving(TypeId::void())
        }
    }
}

pub open spec fn borrow_rule(ctx: ContextView, borrow: BorrowExpr) -> Checked
    decreases borrow, 0nat,
{
    let place = check_expr(ctx, *borrow.expr);
    if place.failed() {
        place
    } else {
        take_borrow(place.ctx, borrow, place.ty())
    }
}

/// `*e`: the type that the reference `e` points to.
pub open spec fn deref_rule(ctx: ContextView, deref: DerefExpr) -> Checked
    decreases deref, 0nat,
{
    let pointer = check_expr(ctx, *deref.expr);
    if pointer.failed() {
        pointer
    } else {
        match lookup(pointer.ctx.types, pointer.ty()) {
            Some(TypeView::Borrow { value, .. }) => Checked::ok(pointer.ctx, value),
            _ => Checked::fail(
                pointer.ctx,
                DiagKind::CannotDereference { actual: pointer.ty() },
                deref.span(),
            ),
        }
    }
}

/// Checks the arguments from position `i` on, each against its parameter.
pub open spec fn args_rule(ctx: ContextView, args: Seq<Expr>, params: Seq<TypeId>, i: int) -> Checked
    decreases args, args.len() - i,
{
    if i < 0 || i >= args.len() || i >= params.len() {
        Checked::ok(ctx, TypeId::void())
    } else {
        let arg = check_expr(ctx, args[i]);
        if arg.failed() {
            arg
        } else {
            let met = expect(arg.ctx, params[i], arg.ty(), args[i].span());
            if met.failed() {
                met
            } else {
                args_rule(arg.ctx, args, params, i + 1)
            }
        }
    }
}

/// `callee(args)`: the callee must be a function of as many parameters as
/// there are arguments, and the call has the function's return type.
pub open spec fn call_rule(ctx: ContextView, call: CallExpr) -> Checked
    decreases call, 0nat,
{
    let callee = check_expr(ctx, *call.callee);
    if callee.failed() {
        callee
    } else {
        match lookup(callee.ctx.types, callee.ty()) {
            Some(TypeView::Fn { params, ret, .. }) => if params.len() != call.args@.len() {
                Checked::fail(
                    callee.ctx,
                    DiagKind::ArityMismatch {
                        expected: params.len() as usize,
                        found: call.args@.len() as usize,
                    },
                    call.range,
                )
            } else {
                args_rule(callee.ctx, call.args@, params, 0).giving(ret)
            },
            _ => Checked::fail(
                callee.ctx,
                DiagKind::NotAFunction { actual: callee.ty() },
                call.callee.span(),
            ),
        }
    }
}

/// `if` as a value: the condition is a `Bool`, and the two arms agree on
/// the type of the whole.
pub open spec fn if_expr_rule(ctx: ContextView, if_expr: IfExpr) -> Checked
    decreases if_expr, 0nat,
{
    let IfExpr { cond, then: then_arm, otherwise, .. } = if_expr;
    let test = check_expr(ctx, *cond);
    if test.failed() {
        test
    } else if !equal_types(test.ctx.types, TypeId::bool(), test.ty()) {
        Checked::mismatch(test.ctx, TypeId::bool(), test.ty(), cond.span())
    } else {
        let first = check_expr(test.ctx, *then_arm);
        if first.failed() {
            first
        } else {
            let second = check_expr(first.ctx, *otherwise);
            if second.failed() {
                second
            } else {
                match unify(second.ctx.types, first.ty(), second.ty()) {
                    Ok(ty) => Checked::ok(second.ctx, ty),
                    Err((a, b)) => Checked {
                        ctx: second.ctx,
                        result: Err(
                            Diag {
                                kind: DiagKind::TypeMismatch { expected: a, found: b },
                                range: otherwise.span(),
                                secondary: Some(then_arm.span()),
                            },
                        ),
                    },
                }
            }
        }
    }
}

/// `left.field`: the type of the field of that name of the struct that
/// `left` is, or is a reference to.
pub open spec fn member_rule(ctx: ContextView, member: MemberExpr) -> Checked
    decreases member, 0nat,
{
    let owner = check_expr(ctx, *member.left);
    if owner.failed() {
        owner
    } else {
        match lookup(owner.ctx.types, peel(owner.ctx.types, owner.ty())) {
            Some(TypeView::Struct { fields }) => match field_from(fields, member.method.text@, 0) {
                Some(field) => Checked::ok(owner.ctx, field.type_id),
                None => Checked::fail(
                    owner.ctx,
                    DiagKind::UnknownIdent { name: member.method.text },
                    member.method.range,
                ),
            },
            _ => Checked::fail(
                owner.ctx,
                DiagKind::UnknownIdent { name: member.method.text },
                member.method.range,
            ),
        }
    }
}

/// `left |> right`: a call of the function `right` with `left` as its one
/// argument.
pub open spec fn pipe_rule(ctx: ContextView, pipe: PipeExpr) -> Checked
    decreases pipe, 0nat,
{
    let left = check_expr(ctx, *pipe.left);
    if left.failed() {
        left
    } else {
        let right = check_expr(left.ctx, *pipe.right);
        if right.failed() {
            right
        } else {
            match lookup(right.ctx.types, right.ty()) {
                Some(TypeView::Fn { params, ret, .. }) => if params.len() != 1 {
                    Checked::fail(
                        right.ctx,
                        DiagKind::ArityMismatch { expected: params.len() as usize, found: 1 },
                        pipe.range,
                    )
                } else {
                    expect(right.ctx, params[0], left.ty(), pipe.left.span()).giving(ret)
                },
                _ => Checked::fail(
                    right.ctx,
                    DiagKind::NotAFunction { actual: right.ty() },
                    pipe.right.span(),
                ),
            }
        }
    }
}

/// A function as a value: its type, once its body is checked in a
/// function scope of its own.
pub open spec fn fn_expr_rule(ctx: ContextView, fn_expr: FnExpr) -> Checked
    decreases fn_expr, 0nat,
{
    let signature = signature_rule(ctx, fn_expr.params@, fn_expr.ret_type, None);
    if signature.failed() {
        signature
    } else {
        let (param_types, ret) = fn_parts(signature.ctx.types, signature.ty());
        let inside = declare_params(
            signature.ctx.enter(ScopeType::Fn { ret_type: ret }),
            fn_expr.params@,
            param_types,
            0,
        );
        body_rule(inside, *fn_expr.body, ret).leave().giving(signature.ty())
    }
}

/// Checks the initialisers of a struct literal from position `i` on: none
/// twice, none for a field that the struct lacks, each value assignable
/// to its field.
pub open spec fn inits_rule(ctx: ContextView, inits: Seq<FiledExpr>, fields: Seq<FieldType>, i: int) -> Checked
    decreases inits, inits.len() - i,
{
    if i < 0 || i >= inits.len() {
        Checked::ok(ctx, TypeId::void())
    } else if initialised_before(inits, i, inits[i].name.text@) {
        Checked::fail(
            ctx,
            DiagKind::DuplicateFieldInit { name: inits[i].name.text },
            inits[i].name.range,
        )
    } else {
        match field_from(fields, inits[i].name.text@, 0) {
            None => Checked::fail(
                ctx,
                DiagKind::UnknownIdent { name: inits[i].name.text },
                inits[i].name.range,
            ),
            Some(field) => {
                let value = check_expr(ctx, inits[i].value);
                if value.failed() {
                    value
                } else {
                    let met = expect(value.ctx, field.type_id, value.ty(), inits[i].value.span());
                    if met.failed() {
                        met
                    } else {
                        inits_rule(value.ctx, inits, fields, i + 1)
                    }
                }
            },
        }
    }
}

/// `Name { field: value, .. }`: the struct type of that name, if the
/// initialisers are those of its fields, each once.
pub open spec fn struct_init_rule(ctx: ContextView, init: StructInitExpr) -> Checked
    decreases init, 0nat,
{
    match ctx.find(Namespace::Types, init.name.text@) {
        None => Checked::fail(ctx, DiagKind::UnknownType { name: init.name.text }, init.name.range),
        Some(named) => match lookup(ctx.types, named.type_id) {
            Some(TypeView::Struct { fields }) => {
                let inits = inits_rule(ctx, init.fields@, fields, 0);
                if inits.failed() {
                    inits
                } else {
                    match first_missing(fields, init.fields@, 0) {
                        Some(field) => Checked::fail(
                            inits.ctx,
                            DiagKind::MissingFieldInit { name: field.name },
                            init.range,
                        ),
                        None => Checked::ok(inits.ctx, named.type_id),
                    }
                }
            },
            _ => Checked::fail(
                ctx,
                DiagKind::UnknownType { name: init.name.text },
                init.name.range,
            ),
        },
    }
}

// ------- function bodies -------
/// What a body gives where it ends without a `ret`: the type `found` of
/// its last expression must be assignable to the declared return type.
pub open spec fn implicit_return(ctx: ContextView, ret: TypeId, found: TypeId, at: Range) -> Checked {
    if equal_types(ctx.types, ret, infer(ctx.types, ret, found)) {
        Checked::ok(ctx, ret)
    } else {
        Checked::fail(ctx, DiagKind::MissingReturn { expected: ret }, at)
    }
}

/// Checks the body of a function that returns `ret`, inside the
/// function's scope.
pub open spec fn body_rule(ctx: ContextView, body: Stmt, ret: TypeId) -> Checked
    decreases body, 2nat,
{
    match body {
        Stmt::Block(block) => body_stmts_rule(ctx, block.stmts@, 0, ret, block.range),
        Stmt::Expr(e) => {
            let value = check_expr(ctx, e);
            if value.failed() {
                value
            } else {
                implicit_return(value.ctx, ret, value.ty(), e.span())
            }
        },
        _ => {
            let done = check_stmt(ctx, body);
            if done.failed() || !done.ty().is_nothing() {
                done
            } else {
                implicit_return(done.ctx, ret, TypeId::void(), body.span())
            }
        },
    }
}

/// Checks the statements of a function body from position `i` on. The
/// body ends at the first statement that returns on every path; an
/// expression in last place is the value of the body; a body that ends
/// otherwise gives no value.
pub open spec fn body_stmts_rule(ctx: ContextView, stmts: Seq<Stmt>, i: int, ret: TypeId, at: Range) -> Checked
    decreases stmts, stmts.len() - i,
{
    if i < 0 || i >= stmts.len() {
        implicit_return(ctx, ret, TypeId::void(), at)
    } else if i == stmts.len() - 1 && stmts[i] is Expr {
        let value = check_expr(ctx, stmts[i]->Expr_0);
        if value.failed() {
            value
        } else {
            implicit_return(value.ctx, ret, value.ty(), stmts[i].span())
        }
    } else {
        let done = check_stmt(ctx, stmts[i]);
        if done.failed() || !done.ty().is_nothing() {
            done
        } else {
            body_stmts_rule(done.ctx, stmts, i + 1, ret, at)
        }
    }
}

/// Checks a function of the given type: opens its scope, binds its
/// parameters, checks its body and leaves the scope.
pub open spec fn function_rule(
    ctx: ContextView,
    fn_type: TypeId,
    constant: bool,
    params: Seq<Binding>,
    body: FnBody,
) -> Checked
    decreases body, 0nat,
{
    let (param_types, ret) = fn_parts(ctx.types, fn_type);
    let scope = if constant {
        ScopeType::ConstFn { ret_type: ret }
    } else {
        ScopeType::Fn { ret_type: ret }
    };
    let inside = declare_params(ctx.enter(scope), params, param_types, 0);
    let done = match body {
        FnBody::Block(block) => body_stmts_rule(inside, block.stmts@, 0, ret, block.range),
        FnBody::Expr(e) => {
            let value = check_expr(inside, e);
            if value.failed() {
                value
            } else {
                implicit_return(value.ctx, ret, value.ty(), e.span())
            }
        },
    };
    done.leave().giving(TypeId::nothing())
}

// ------- statements -------
/// The exit type of a statement: `Nothing` if control can flow past it,
/// else the type that it forces the enclosing function to return.
pub open spec fn check_stmt(ctx: ContextView, s: Stmt) -> Checked
    decreases s, 1nat,
{
    match s {
        Stmt::Ret(ret_stmt) => ret_rule(ctx, ret_stmt),
        Stmt::Block(block) => block_rule(ctx, block),
        Stmt::If(if_stmt) => if_stmt_rule(ctx, if_stmt),
        _ => definition_rule(ctx, s).giving(TypeId::nothing()),
    }
}

/// Checks a statement that control always flows past: an expression, a
/// binding, a definition or a loop.
pub open spec fn definition_rule(ctx: ContextView, s: Stmt) -> Checked
    decreases s, 0nat,
{
    match s {
        Stmt::Expr(e) => check_expr(ctx, e),
        Stmt::Let(let_stmt) => let_rule(ctx, let_stmt),
        Stmt::ConstDel(const_del) => const_rule(ctx, const_del),
        Stmt::Fn(fn_stmt) => fn_rule(ctx, fn_stmt),
        Stmt::ConstFn(const_fn) => const_fn_rule(ctx, const_fn),
        Stmt::ExternFn(extern_fn) => extern_fn_rule(ctx, extern_fn),
        Stmt::While(while_stmt) => while_rule(ctx, while_stmt),
        Stmt::For(for_stmt) => for_rule(ctx, for_stmt),
        Stmt::TypeDef(type_def) => type_def_rule(ctx, type_def),
        Stmt::Impl(impl_stmt) => impl_rule(ctx, impl_stmt),
        _ => Checked::ok(ctx, TypeId::nothing()),
    }
}

/// Binds `name` to a value of the type `found` of its initialiser, which
/// is resolved against the annotation where there is one and else takes
/// its default; records the type of the binding at `at`.
pub open spec fn bind_rule(
    ctx: ContextView,
    binding: Binding,
    found: TypeId,
    is_mut: bool,
    value_at: Range,
    at: Range,
) -> Checked {
    match binding.ty {
        Some(annotation) => {
            let wanted = resolve_rule(ctx, annotation);
            if wanted.failed() {
                wanted
            } else {
                let resolved = infer(wanted.ctx.types, wanted.ty(), found);
                if !equal_types(wanted.ctx.types, wanted.ty(), resolved) {
                    Checked {
                        ctx: wanted.ctx,
                        result: Err(
                            Diag {
                                kind: DiagKind::TypeMismatch {
                                    expected: wanted.ty(),
                                    found: resolved,
                                },
                                range: value_at,
                                secondary: Some(annotation.span()),
                            },
                        ),
                    }
                } else {
                    Checked::ok(
                        wanted.ctx.declare(
                            Namespace::Values,
                            binding.ident.text@,
                            wanted.ty(),
                            is_mut,
                            ValueOrigin::Scoped,
                        ).note(at, wanted.ty()),
                        TypeId::nothing(),
                    )
                }
            }
        },
        None => {
            let ty = infer_default(ctx.types, found);
            Checked::ok(
                ctx.declare(
                    Namespace::Values,
                    binding.ident.text@,
                    ty,
                    is_mut,
                    ValueOrigin::Scoped,
                ).note(at, ty),
                TypeId::nothing(),
            )
        },
    }
}

pub open spec fn let_rule(ctx: ContextView, let_stmt: LetStmt) -> Checked
    decreases let_stmt, 0nat,
{
    let value = check_expr(ctx, let_stmt.expr);
    if value.failed() {
        value
    } else {
        bind_rule(
            value.ctx,
            let_stmt.bind,
            value.ty(),
            let_stmt.is_mut(),
            let_stmt.expr.span(),
            let_stmt.span(),
        )
    }
}

pub open spec fn const_rule(ctx: ContextView, const_del: ConstDelStmt) -> Checked
    decreases const_del, 0nat,
{
    let value = check_expr(ctx, const_del.expr);
    if value.failed() {
        value
    } else {
        bind_rule(
            value.ctx,
            const_del.name,
            value.ty(),
            false,
            const_del.expr.span(),
            const_del.span(),
        )
    }
}

/// A function definition binds its name to its type, so that its body can
/// call it, and then checks the body.
pub open spec fn fn_rule(ctx: ContextView, fn_stmt: FnStmt) -> Checked
    decreases fn_stmt, 0nat,
{
    let signature = signature_rule(ctx, fn_stmt.params@, fn_stmt.ret_type, None);
    if signature.failed() {
        signature
    } else {
        function_rule(
            signature.ctx.declare(
                Namespace::Functions,
                fn_stmt.name.text@,
                signature.ty(),
                false,
                ValueOrigin::Scoped,
            ).note(fn_stmt.name.range, signature.ty()),
            signature.ty(),
            false,
            fn_stmt.params@,
            fn_stmt.body,
        )
    }
}

pub open spec fn const_fn_rule(ctx: ContextView, const_fn: ConstFnStmt) -> Checked
    decreases const_fn, 0nat,
{
    let signature = signature_rule(ctx, const_fn.params@, const_fn.ret_type, None);
    if signature.failed() {
        signature
    } else {
        function_rule(
            signature.ctx.declare(
                Namespace::Functions,
                const_fn.name.text@,
                signature.ty(),
                false,
                ValueOrigin::Scoped,
            ).note(const_fn.name.range, signature.ty()),
            signature.ty(),
            true,
            const_fn.params@,
            const_fn.body,
        )
    }
}

/// A function that is defined elsewhere: its name is bound as an external
/// value of its type.
pub open spec fn extern_fn_rule(ctx: ContextView, extern_fn: ExternFnStmt) -> Checked {
    let signature = signature_rule(ctx, extern_fn.params@, extern_fn.ret_type, None);
    if signature.failed() {
        signature
    } else {
        Checked::ok(
            signature.ctx.declare(
                Namespace::Functions,
                extern_fn.name.text@,
                signature.ty(),
                false,
                ValueOrigin::External,
            ).note(extern_fn.name.range, signature.ty()),
            TypeId::nothing(),
        )
    }
}

/// `ret` stands in a function only, and what it returns must be
/// assignable to the return type that the function declares.
pub open spec fn ret_rule(ctx: ContextView, ret_stmt: RetStmt) -> Checked
    decreases ret_stmt, 0nat,
{
    match ctx.fn_ret_type() {
        None => Checked::fail(ctx, DiagKind::ReturnOutsideFunction, ret_stmt.range),
        Some(declared) => match ret_stmt.expr {
            None => expect(ctx, declared, TypeId::void(), ret_stmt.range).giving(
                returned(declared),
            ),
            Some(e) => {
                let value = check_expr(ctx, *e);
                if value.failed() {
                    value
                } else {
                    expect(value.ctx, declared, value.ty(), e.span()).giving(returned(declared))
                }
            },
        },
    }
}

/// Checks the statements of a block from position `i` on, up to the first
/// one that returns on every path.
pub open spec fn stmts_rule(ctx: ContextView, stmts: Seq<Stmt>, i: int) -> Checked
    decreases stmts, stmts.len() - i,
{
    if i < 0 || i >= stmts.len() {
        Checked::ok(ctx, TypeId::nothing())
    } else {
        let done = check_stmt(ctx, stmts[i]);
        if done.failed() || !done.ty().is_nothing() {
            done
        } else {
            stmts_rule(done.ctx, stmts, i + 1)
        }
    }
}

pub open spec fn block_rule(ctx: ContextView, block: BlockStmt) -> Checked
    decreases block, 0nat,
{
    stmts_rule(ctx.enter(ScopeType::Block), block.stmts@, 0).leave()
}

/// An arm of an `if` statement, in a block scope of its own.
pub open spec fn arm_rule(ctx: ContextView, arm: Stmt) -> Checked
    decreases arm, 2nat,
{
    check_stmt(ctx.enter(ScopeType::Block), arm).leave()
}

/// `if` as a statement: it returns only if both arms do, and then what
/// both return.
pub open spec fn if_stmt_rule(ctx: ContextView, if_stmt: IfStmt) -> Checked
    decreases if_stmt, 0nat,
{
    let IfStmt { cond, then: then_arm, otherwise, .. } = if_stmt;
    let test = check_expr(ctx, *cond);
    if test.failed() {
        test
    } else if !equal_types(test.ctx.types, TypeId::bool(), test.ty()) {
        Checked::mismatch(test.ctx, TypeId::bool(), test.ty(), cond.span())
    } else {
        let first = arm_rule(test.ctx, *then_arm);
        if first.failed() {
            first
        } else {
            match otherwise {
                None => Checked::ok(first.ctx, TypeId::nothing()),
                Some(other) => {
                    let second = arm_rule(first.ctx, *other);
                    if second.failed() {
                        second
                    } else if first.ty().is_nothing() || second.ty().is_nothing() {
                        Checked::ok(second.ctx, TypeId::nothing())
                    } else if equal_types(second.ctx.types, first.ty(), second.ty()) {
                        Checked::ok(second.ctx, first.ty())
                    } else {
                        Checked::mismatch(second.ctx, first.ty(), second.ty(), other.span())
                    }
                },
            }
        }
    }
}

/// `while`: the condition is a `Bool`; control can always flow past.
pub open spec fn while_rule(ctx: ContextView, while_stmt: WhileStmt) -> Checked
    decreases while_stmt, 0nat,
{
    let test = check_expr(ctx.enter(ScopeType::Loop), *while_stmt.test);
    let inner = if test.failed() {
        test
    } else if !equal_types(test.ctx.types, TypeId::bool(), test.ty()) {
        Checked::mismatch(test.ctx, TypeId::bool(), test.ty(), while_stmt.test.span())
    } else {
        check_stmt(test.ctx, *while_stmt.body)
    };
    inner.leave().giving(TypeId::nothing())
}

/// `for`: what is iterated must be a range; the loop binds each item and,
/// where asked for, its index.
pub open spec fn for_rule(ctx: ContextView, for_stmt: ForStmt) -> Checked
    decreases for_stmt, 0nat,
{
    let source = check_expr(ctx, *for_stmt.iterable);
    if source.failed() {
        source
    } else {
        match lookup(source.ctx.types, source.ty()) {
            Some(TypeView::Range { item }) => {
                let with_item = source.ctx.enter(ScopeType::Loop).declare(
                    Namespace::Values,
                    for_stmt.value.text@,
                    item,
                    false,
                    ValueOrigin::Scoped,
                );
                let inside = match for_stmt.index {
                    Some(index) => with_item.declare(
                        Namespace::Values,
                        index.text@,
                        TypeId::usize(),
                        false,
                        ValueOrigin::Scoped,
                    ),
                    None => with_item,
                };
                check_stmt(inside, *for_stmt.body).leave().giving(TypeId::nothing())
            },
            _ => Checked::fail(
                source.ctx,
                DiagKind::InvalidOperator { op: OperatorKind::RANGE, operand_type: source.ty() },
                for_stmt.iterable.span(),
            ),
        }
    }
}

/// A type definition binds its name: to a new struct type, or to the type
/// that the alias stands for.
pub open spec fn type_def_rule(ctx: ContextView, type_def: TypeDefStmt) -> Checked {
    match type_def.kind {
        TypeDefKind::Struct(def) => {
            let fields = fields_rule(ctx, def.fields@, 0, Seq::empty());
            match fields.result {
                Err(diag) => Checked { ctx: fields.ctx, result: Err(diag) },
                Ok(resolved) => Checked::ok(
                    fields.ctx.add_type(TypeView::Struct { fields: resolved }).declare(
                        Namespace::Types,
                        type_def.name.text@,
                        fields.ctx.next_type_id(),
                        false,
                        ValueOrigin::Scoped,
                    ).note(type_def.range, fields.ctx.next_type_id()),
                    TypeId::nothing(),
                ),
            }
        },
        TypeDefKind::Alias(target) => {
            let resolved = resolve_rule(ctx, target);
            if resolved.failed() {
                resolved
            } else {
                Checked::ok(
                    resolved.ctx.declare(
                        Namespace::Types,
                        type_def.name.text@,
                        resolved.ty(),
                        false,
                        ValueOrigin::Scoped,
                    ).note(type_def.range, resolved.ty()),
                    TypeId::nothing(),
                )
            }
        },
    }
}

/// Binds the functions of an `impl` from position `i` on, each under its
/// qualified name, before any body is checked.
pub open spec fn bind_methods(
    ctx: ContextView,
    owner: Seq<char>,
    self_type: TypeId,
    items: Seq<FnStmt>,
    i: int,
) -> Checked
    decreases items.len() - i,
{
    if i < 0 || i >= items.len() {
        Checked::ok(ctx, TypeId::nothing())
    } else {
        let signature = signature_rule(ctx, items[i].params@, items[i].ret_type, Some(self_type));
        if signature.failed() {
            signature
        } else {
            bind_methods(
                signature.ctx.declare(
                    Namespace::Functions,
                    qualified(owner, items[i].name.text@),
                    signature.ty(),
                    false,
                    ValueOrigin::Scoped,
                ).note(items[i].name.range, signature.ty()),
                owner,
                self_type,
                items,
                i + 1,
            )
        }
    }
}

/// Checks the bodies of the functions of an `impl` from position `i` on,
/// each in an accessor scope that gives the type of `self`.
pub open spec fn methods_rule(
    ctx: ContextView,
    owner: Seq<char>,
    self_type: TypeId,
    items: Seq<FnStmt>,
    i: int,
) -> Checked
    decreases items, items.len() - i,
{
    if i < 0 || i >= items.len() {
        Checked::ok(ctx, TypeId::nothing())
    } else {
        match ctx.find(Namespace::Functions, qualified(owner, items[i].name.text@)) {
            None => Checked::fail(
                ctx,
                DiagKind::UnknownIdent { name: items[i].name.text },
                items[i].name.range,
            ),
            Some(bound) => {
                let done = function_rule(
                    ctx.enter(
                        ScopeType::Accessor {
                            self_type,
                            associate: !has_receiver(items[i].params@),
                        },
                    ),
                    bound.type_id,
                    false,
                    items[i].params@,
                    items[i].body,
                ).leave();
                if done.failed() {
                    done
                } else {
                    methods_rule(done.ctx, owner, self_type, items, i + 1)
                }
            },
        }
    }
}

/// `impl Name = { .. }`: the functions are bound as `Name::function` in
/// the scope that holds the `impl`, and checked in a scope of the `impl`.
pub open spec fn impl_rule(ctx: ContextView, impl_stmt: ImplStmt) -> Checked
    decreases impl_stmt, 0nat,
{
    match ctx.find(Namespace::Types, impl_stmt.self_name.text@) {
        None => Checked::fail(
            ctx,
            DiagKind::UnknownType { name: impl_stmt.self_name.text },
            impl_stmt.self_name.range,
        ),
        Some(named) => {
            let bound = bind_methods(
                ctx,
                impl_stmt.self_name.text@,
                named.type_id,
                impl_stmt.items@,
                0,
            );
            if bound.failed() {
                bound
            } else {
                methods_rule(
                    bound.ctx.enter(ScopeType::Impl { self_type: named.type_id }),
                    impl_stmt.self_name.text@,
                    named.type_id,
                    impl_stmt.items@,
                    0,
                ).leave()
            }
        },
    }
}

} // verus!
