//! Lowering expressions.

use vstd::prelude::*;
use crate::ast::{
    AssignExpr, BinaryExpr, CallExpr, Expr, Ident, IfExpr, Literal, OperatorKind, PipeExpr,
    UnaryExpr,
};
use crate::checker::infer::{infer_no_type_anotation, infer_type};
use crate::checker::types::{TypeId, TypeStore};
use crate::diag::{Diag, DiagKind};
use crate::ir::{BasicValue, Bind, Instr, IrBasicValue, Label};
use crate::range::Range;
use crate::text::parse_literal;
use super::rules::{self, Built, BuiltList, BuiltTarget};
use super::Builder;

verus! {

/// See [`rules::settle`].
pub fn settle_type(store: &TypeStore, own: TypeId, other: TypeId) -> (r: TypeId)
    ensures
        r == rules::settle(store@, own, other),
{
    infer_no_type_anotation(store, infer_type(store, other, own))
}

/// See [`rules::base_operator`].
pub fn base_operator(op: OperatorKind) -> (r: OperatorKind)
    ensures
        r == rules::base_operator(op),
{
    match op {
        OperatorKind::ADDEQ => OperatorKind::ADD,
        OperatorKind::SUBEQ => OperatorKind::SUB,
        OperatorKind::MULEQ => OperatorKind::MUL,
        OperatorKind::DIVEQ => OperatorKind::DIV,
        OperatorKind::MODEQ => OperatorKind::MOD,
        _ => op,
    }
}

impl<'br> Builder<'br> {
    /// The register that the node at `at` can define: see
    /// [`rules::can_define`].
    pub fn next_dest(&self, at: Range) -> (r: Result<Bind, Diag>)
        ensures
            r == rules::can_define(self@, at),
    {
        let type_id = match self.node_types.get(at) {
            Some(type_id) => type_id,
            None => {
                return Err(Diag::new(DiagKind::IceMissingType, at));
            },
        };
        if self.ctx.register_count == usize::MAX {
            return Err(Diag::new(DiagKind::IceOutOfRegisters, at));
        }
        Ok(
            Bind {
                register: self.ctx.register_count,
                type_id: infer_no_type_anotation(self.type_store, type_id),
            },
        )
    }

    /// See [`rules::lower_literal`].
    pub fn build_literal(&self, literal: &Literal) -> (r: Result<IrBasicValue, Diag>)
        ensures
            Built::of(self@, r) == rules::lower_literal(self@, *literal),
    {
        let at = literal.get_range();
        let type_id = match self.node_types.get(at) {
            Some(type_id) => type_id,
            None => {
                return Err(Diag::new(DiagKind::IceMissingType, at));
            },
        };
        let value = match literal {
            Literal::Number(number) => {
                if number.as_dot {
                    BasicValue::Float(number.text.clone())
                } else {
                    match parse_literal(number.text.as_str(), number.base) {
                        Some(value) => BasicValue::Int(value),
                        None => {
                            return Err(Diag::new(DiagKind::InvalidLiteral, number.range));
                        },
                    }
                }
            },
            Literal::String(string) => BasicValue::Str(string.text.clone()),
            Literal::Char(character) => BasicValue::Char(character.value),
            Literal::Bool(boolean) => BasicValue::Bool(boolean.value),
            Literal::Null(_) => BasicValue::Void,
        };
        Ok(IrBasicValue { value, type_id })
    }

    /// See [`rules::lower_ident`].
    pub fn build_ident_expr(&self, ident: &Ident) -> (r: Result<IrBasicValue, Diag>)
        ensures
            Built::of(self@, r) == rules::lower_ident(self@, *ident),
    {
        match self.ctx.get_local(ident.text.as_str()) {
            Some(value) => Ok(value.duplicate()),
            None => match self.node_types.get(ident.range) {
                Some(type_id) => Ok(
                    IrBasicValue { value: BasicValue::Global(ident.text.clone()), type_id },
                ),
                None => Err(
                    Diag::new(
                        DiagKind::IceUnboundName { name: ident.text.clone() },
                        ident.range,
                    ),
                ),
            },
        }
    }

    /// See [`rules::lower_operator`].
    pub fn build_operator(&mut self, binary: &BinaryExpr, left: IrBasicValue, right: IrBasicValue) -> (r:
        Result<IrBasicValue, Diag>)
        ensures
            old(self)@.sound() ==> final(self)@.sound(),
            final(self)@.ctx.scopes == old(self)@.ctx.scopes,
            final(self).type_store == old(self).type_store,
            final(self).node_types == old(self).node_types,
            Built::of(final(self)@, r) == rules::lower_operator(old(self)@, *binary, left, right),
    {
        let op = binary.operator.kind;
        if matches!(op, OperatorKind::RANGE) || matches!(op, OperatorKind::NOT) || matches!(
            op,
            OperatorKind::PIPE
        ) {
            return Err(Diag::new(DiagKind::IceMisplaced, binary.get_range()));
        }
        if op.is_compound_assign() && !left.is_register() {
            return Err(Diag::new(DiagKind::IceMisplaced, binary.left.get_range()));
        }
        let dest = match self.next_dest(binary.get_range()) {
            Ok(dest) => dest,
            Err(diag) => {
                return Err(diag);
            },
        };
        let right_type = settle_type(self.type_store, right.type_id, left.type_id);
        if op.is_compound_assign() {
            let sum = Bind { register: dest.register, type_id: left.type_id };
            let target = left.duplicate();
            self.define(
                Instr::Bin {
                    op: base_operator(op),
                    dest: sum,
                    left,
                    right: right.with_new_type(right_type),
                },
            );
            self.emit(Instr::SetValue { dest: target, src: sum.value() });
            Ok(IrBasicValue::void())
        } else {
            let left_type = settle_type(self.type_store, left.type_id, right.type_id);
            self.define(
                Instr::Bin {
                    op,
                    dest,
                    left: left.with_new_type(left_type),
                    right: right.with_new_type(right_type),
                },
            );
            Ok(dest.value())
        }
    }

    /// Lowers an expression: see [`rules::lower_expr`].
    pub fn build_expr(&mut self, e: &Expr) -> (r: Result<IrBasicValue, Diag>)
        ensures
            old(self)@.sound() ==> final(self)@.sound(),
            final(self)@.ctx.scopes == old(self)@.ctx.scopes,
            final(self).type_store == old(self).type_store,
            final(self).node_types == old(self).node_types,
            Built::of(final(self)@, r) == rules::lower_expr(old(self)@, *e),
        decreases e, 1nat,
    {
        match e {
            Expr::Literal(literal) => self.build_literal(literal),
            Expr::Ident(ident) => self.build_ident_expr(ident),
            Expr::Group(group) => self.build_expr(&group.expr),
            Expr::Binary(binary) => self.build_binary_expr(binary),
            Expr::Unary(unary) => self.build_unary_expr(unary),
            Expr::Assign(assign) => self.build_assign_expr(assign),
            Expr::Borrow(borrow) => {
                let place = match self.build_expr(&borrow.expr) {
                    Ok(place) => place,
                    Err(diag) => {
                        return Err(diag);
                    },
                };
                match self.node_types.get(borrow.get_range()) {
                    Some(type_id) => Ok(place.with_new_type(type_id)),
                    None => Err(Diag::new(DiagKind::IceMissingType, borrow.get_range())),
                }
            },
            Expr::Deref(deref) => {
                let pointer = match self.build_expr(&deref.expr) {
                    Ok(pointer) => pointer,
                    Err(diag) => {
                        return Err(diag);
                    },
                };
                let dest = match self.next_dest(deref.get_range()) {
                    Ok(dest) => dest,
                    Err(diag) => {
                        return Err(diag);
                    },
                };
                self.define(Instr::Load { dest, src: pointer });
                Ok(dest.value())
            },
            Expr::Call(call) => self.build_call_expr(call),
            Expr::Pipe(pipe) => self.build_pipe_expr(pipe),
            Expr::If(if_expr) => self.build_if_expr(if_expr),
            Expr::Associate(associate) => match self.node_types.get(associate.range) {
                Some(type_id) => Ok(
                    IrBasicValue {
                        value: BasicValue::Method {
                            owner: associate.self_name.text.clone(),
                            name: associate.method.text.clone(),
                        },
                        type_id,
                    },
                ),
                None => Err(Diag::new(DiagKind::IceMissingType, associate.range)),
            },
            _ => Err(Diag::new(DiagKind::IceMisplaced, e.get_range())),
        }
    }

    pub fn build_binary_expr(&mut self, binary: &BinaryExpr) -> (r: Result<IrBasicValue, Diag>)
        ensures
            old(self)@.sound() ==> final(self)@.sound(),
            final(self)@.ctx.scopes == old(self)@.ctx.scopes,
            final(self).type_store == old(self).type_store,
            final(self).node_types == old(self).node_types,
            Built::of(final(self)@, r) == rules::lower_binary(old(self)@, *binary),
        decreases binary, 0nat,
    {
        let left = match self.build_expr(&binary.left) {
            Ok(left) => left,
            Err(diag) => {
                return Err(diag);
            },
        };
        let right = match self.build_expr(&binary.right) {
            Ok(right) => right,
            Err(diag) => {
                return Err(diag);
            },
        };
        self.build_operator(binary, left, right)
    }

    pub fn build_unary_expr(&mut self, unary: &UnaryExpr) -> (r: Result<IrBasicValue, Diag>)
        ensures
            old(self)@.sound() ==> final(self)@.sound(),
            final(self)@.ctx.scopes == old(self)@.ctx.scopes,
            final(self).type_store == old(self).type_store,
            final(self).node_types == old(self).node_types,
            Built::of(final(self)@, r) == rules::lower_unary(old(self)@, *unary),
        decreases unary, 0nat,
    {
        let operand = match self.build_expr(&unary.operand) {
            Ok(operand) => operand,
            Err(diag) => {
                return Err(diag);
            },
        };
        let dest = match self.next_dest(unary.get_range()) {
            Ok(dest) => dest,
            Err(diag) => {
                return Err(diag);
            },
        };
        self.define(Instr::Un { op: unary.operator.kind, dest, src: operand });
        Ok(dest.value())
    }

    /// The target of an assignment: see [`rules::lower_place`].
    pub fn build_place(&mut self, e: &Expr) -> (r: Result<(bool, IrBasicValue), Diag>)
        ensures
            old(self)@.sound() ==> final(self)@.sound(),
            final(self)@.ctx.scopes == old(self)@.ctx.scopes,
            final(self).type_store == old(self).type_store,
            final(self).node_types == old(self).node_types,
            BuiltTarget::of(final(self)@, r) == rules::lower_place(old(self)@, *e),
        decreases e, 0nat,
    {
        match e {
            Expr::Ident(ident) => match self.ctx.get_local(ident.text.as_str()) {
                Some(value) => if value.is_register() {
                    Ok((false, value.duplicate()))
                } else {
                    Err(Diag::new(DiagKind::IceMisplaced, ident.range))
                },
                None => Err(
                    Diag::new(
                        DiagKind::IceUnboundName { name: ident.text.clone() },
                        ident.range,
                    ),
                ),
            },
            Expr::Deref(deref) => match self.build_expr(&deref.expr) {
                Ok(value) => Ok((true, value)),
                Err(diag) => Err(diag),
            },
            Expr::Group(group) => self.build_place(&group.expr),
            _ => Err(Diag::new(DiagKind::IceMisplaced, e.get_range())),
        }
    }

    pub fn build_assign_expr(&mut self, assign: &AssignExpr) -> (r: Result<IrBasicValue, Diag>)
        ensures
            old(self)@.sound() ==> final(self)@.sound(),
            final(self)@.ctx.scopes == old(self)@.ctx.scopes,
            final(self).type_store == old(self).type_store,
            final(self).node_types == old(self).node_types,
            Built::of(final(self)@, r) == rules::lower_assign(old(self)@, *assign),
        decreases assign, 0nat,
    {
        let (through, target) = match self.build_place(&assign.left) {
            Ok(place) => place,
            Err(diag) => {
                return Err(diag);
            },
        };
        let value = match self.build_expr(&assign.right) {
            Ok(value) => value,
            Err(diag) => {
                return Err(diag);
            },
        };
        if through {
            self.emit(Instr::Store { dest: target, src: value });
        } else {
            let src = value.with_new_type(target.type_id);
            self.emit(Instr::SetValue { dest: target, src });
        }
        Ok(IrBasicValue::void())
    }

    /// Lowers the arguments of a call: see [`rules::lower_args`].
    #[verifier::loop_isolation(false)]
    pub fn build_args(&mut self, args: &Vec<Expr>) -> (r: Result<Vec<IrBasicValue>, Diag>)
        ensures
            old(self)@.sound() ==> final(self)@.sound(),
            final(self)@.ctx.scopes == old(self)@.ctx.scopes,
            final(self).type_store == old(self).type_store,
            final(self).node_types == old(self).node_types,
            BuiltList::of(final(self)@, r) == rules::lower_args(
                old(self)@,
                args@,
                0,
                Seq::empty(),
            ),
        decreases args,
    {
        let ghost goal = rules::lower_args(self@, args@, 0, Seq::empty());
        let mut done: Vec<IrBasicValue> = Vec::new();
        let mut i: usize = 0;
        while i < args.len()
            invariant
                i <= args@.len(),
                self.type_store == old(self).type_store,
                self.node_types == old(self).node_types,
                old(self)@.sound() ==> self@.sound(),
                self@.ctx.scopes == old(self)@.ctx.scopes,
                goal == rules::lower_args(self@, args@, i as int, done@),
            decreases args@.len() - i,
        {
            let value = match self.build_expr(&args[i]) {
                Ok(value) => value,
                Err(diag) => {
                    return Err(diag);
                },
            };
            let settled = infer_no_type_anotation(self.type_store, value.type_id);
            done.push(value.with_new_type(settled));
            i += 1;
        }
        Ok(done)
    }

    pub fn build_call_expr(&mut self, call: &CallExpr) -> (r: Result<IrBasicValue, Diag>)
        ensures
            old(self)@.sound() ==> final(self)@.sound(),
            final(self)@.ctx.scopes == old(self)@.ctx.scopes,
            final(self).type_store == old(self).type_store,
            final(self).node_types == old(self).node_types,
            Built::of(final(self)@, r) == rules::lower_call(old(self)@, *call),
        decreases call, 0nat,
    {
        let callee = match self.build_expr(&call.callee) {
            Ok(callee) => callee,
            Err(diag) => {
                return Err(diag);
            },
        };
        let args = match self.build_args(&call.args) {
            Ok(args) => args,
            Err(diag) => {
                return Err(diag);
            },
        };
        let dest = match self.next_dest(call.get_range()) {
            Ok(dest) => dest,
            Err(diag) => {
                return Err(diag);
            },
        };
        self.define(Instr::Call { dest, callee, args });
        Ok(dest.value())
    }

    pub fn build_pipe_expr(&mut self, pipe: &PipeExpr) -> (r: Result<IrBasicValue, Diag>)
        ensures
            old(self)@.sound() ==> final(self)@.sound(),
            final(self)@.ctx.scopes == old(self)@.ctx.scopes,
            final(self).type_store == old(self).type_store,
            final(self).node_types == old(self).node_types,
            Built::of(final(self)@, r) == rules::lower_pipe(old(self)@, *pipe),
        decreases pipe, 0nat,
    {
        let left = match self.build_expr(&pipe.left) {
            Ok(left) => left,
            Err(diag) => {
                return Err(diag);
            },
        };
        let callee = match self.build_expr(&pipe.right) {
            Ok(callee) => callee,
            Err(diag) => {
                return Err(diag);
            },
        };
        let dest = match self.next_dest(pipe.get_range()) {
            Ok(dest) => dest,
            Err(diag) => {
                return Err(diag);
            },
        };
        let settled = infer_no_type_anotation(self.type_store, left.type_id);
        let mut args: Vec<IrBasicValue> = Vec::new();
        args.push(left.with_new_type(settled));
        proof {
            assert(args@ =~= seq![left.retag(settled)]);
        }
        self.define(Instr::Call { dest, callee, args });
        Ok(dest.value())
    }

    pub fn build_if_expr(&mut self, if_expr: &IfExpr) -> (r: Result<IrBasicValue, Diag>)
        ensures
            old(self)@.sound() ==> final(self)@.sound(),
            final(self)@.ctx.scopes == old(self)@.ctx.scopes,
            final(self).type_store == old(self).type_store,
            final(self).node_types == old(self).node_types,
            Built::of(final(self)@, r) == rules::lower_if_expr(old(self)@, *if_expr),
        decreases if_expr, 0nat,
    {
        let IfExpr { cond, then: then_arm, otherwise, .. } = if_expr;
        let test = match self.build_expr(cond) {
            Ok(test) => test,
            Err(diag) => {
                return Err(diag);
            },
        };
        let dest = match self.next_dest(if_expr.get_range()) {
            Ok(dest) => dest,
            Err(diag) => {
                return Err(diag);
            },
        };
        if self.ctx.label_count > usize::MAX - 3 {
            return Err(Diag::new(DiagKind::IceOutOfRegisters, if_expr.get_range()));
        }
        self.define(Instr::Salloc { dest });
        let first_label = self.new_labels(3);
        let then_label = Label(first_label);
        let else_label = Label(first_label + 1);
        let join_label = Label(first_label + 2);
        self.emit(Instr::Br { cond: test, then_label, else_label });
        self.seal(then_label);
        let first = match self.build_expr(then_arm) {
            Ok(first) => first,
            Err(diag) => {
                return Err(diag);
            },
        };
        self.emit(Instr::SetValue { dest: dest.value(), src: first.with_new_type(dest.type_id) });
        self.emit(Instr::Jmp { label: join_label });
        self.seal(else_label);
        let second = match self.build_expr(otherwise) {
            Ok(second) => second,
            Err(diag) => {
                return Err(diag);
            },
        };
        self.emit(Instr::SetValue { dest: dest.value(), src: second.with_new_type(dest.type_id) });
        self.emit(Instr::Jmp { label: join_label });
        self.seal(join_label);
        Ok(dest.value())
    }
}

} // verus!
