//! How each syntax node is lowered, as functions from the state of the
//! builder and a node to the state afterwards and what the node gives.
//! The builder computes these functions.

use vstd::prelude::*;
use crate::ast::{
    AssignExpr, BinaryExpr, Binding, BlockStmt, CallExpr, ConstDelStmt, Expr, FnBody, FnStmt,
    ForStmt, Ident, IfExpr, IfStmt, LetStmt, Literal, OperatorKind, PipeExpr, RetStmt, Stmt,
    TypeDefKind, TypeDefStmt, UnaryExpr, WhileStmt,
};
use crate::checker::context::nodes::node_type;
use crate::checker::equal_type::equal_types;
use crate::checker::infer::{infer, infer_default};
use crate::checker::rules::fn_parts;
use crate::checker::types::{lookup, TypeId, TypeView};
use crate::diag::{Diag, DiagKind};
use crate::ir::{
    BasicValue, Bind, FunctionView, InstrView, IrBasicValue, IrView, Label, StructView,
};
use crate::range::Range;
use crate::text::literal_value;
use super::context::{
    free_instrs, frees_to_function, frees_to_loop, ContextView, FrameKind,
};
use super::layout::layout_of;

verus! {

/// Mathematical model of a builder: what the checker found out, which the
/// builder only reads; the builder's environment; and the program built
/// so far.
pub struct BuildView {
    pub types: Seq<TypeView>,
    pub nodes: Seq<(Range, TypeId)>,
    pub ctx: ContextView,
    pub ir: IrView,
}

impl BuildView {
    /// The type that the checker recorded for the node at `range`.
    pub open spec fn node(self, range: Range) -> Option<TypeId> {
        node_type(self.nodes, range)
    }

    pub open spec fn on(self, ctx: ContextView) -> BuildView {
        BuildView { ctx, ..self }
    }

    pub open spec fn emit(self, instr: InstrView) -> BuildView {
        self.on(self.ctx.emit(instr))
    }

    pub open spec fn emit_all(self, instrs: Seq<InstrView>) -> BuildView {
        self.on(self.ctx.emit_all(instrs))
    }

    pub open spec fn define(self, instr: InstrView) -> BuildView {
        self.on(self.ctx.define(instr))
    }

    pub open spec fn seal(self, next: Label) -> BuildView {
        self.on(self.ctx.seal(next))
    }

    pub open spec fn push(self, kind: FrameKind) -> BuildView {
        self.on(self.ctx.push(kind))
    }

    pub open spec fn pop(self) -> BuildView {
        self.on(self.ctx.pop())
    }

    pub open spec fn bind(self, name: String, value: IrBasicValue) -> BuildView {
        self.on(self.ctx.bind(name, value))
    }

    pub open spec fn mark_free(self, register: usize) -> BuildView {
        self.on(self.ctx.mark_free(register))
    }

    pub open spec fn take_labels(self, count: usize) -> BuildView {
        self.on(self.ctx.take_labels(count))
    }

    /// Appends a constant, which defines the next register, to the
    /// constants of the program.
    pub open spec fn own(self, instr: InstrView) -> BuildView {
        BuildView {
            ctx: self.ctx.take_register(),
            ir: IrView { globals: self.ir.globals.push(instr), ..self.ir },
            ..self
        }
    }

    /// Appends a struct definition, whose fields took `count` registers.
    pub open spec fn add_struct(self, def: StructView) -> BuildView {
        BuildView {
            ctx: ContextView {
                registers: (self.ctx.registers + def.fields.len()) as usize,
                ..self.ctx
            },
            ir: IrView { structs: self.ir.structs.push(def), ..self.ir },
            ..self
        }
    }

    /// Completes the function under construction: its blocks are those of
    /// the buffer, its scope is left, and the buffer that was set aside
    /// for it is taken up again.
    pub open spec fn finish_function(
        self,
        owner: Option<String>,
        name: String,
        params: Seq<Bind>,
        ret: TypeId,
    ) -> BuildView {
        BuildView {
            ctx: self.ctx.pop().resume(),
            ir: IrView {
                funcs: self.ir.funcs.push(
                    FunctionView {
                        owner,
                        name,
                        params,
                        ret,
                        blocks: Seq::empty() + self.ctx.block.blocks(),
                    },
                ),
                ..self.ir
            },
            ..self
        }
    }

    /// The register that the next defining instruction defines, for a
    /// value of type `type_id`.
    pub open spec fn next_dest(self, type_id: TypeId) -> Bind {
        Bind { register: self.ctx.registers, type_id }
    }

    /// The label that lies `offset` after the next one.
    pub open spec fn label(self, offset: int) -> Label {
        Label((self.ctx.labels + offset) as usize)
    }

    /// There is room for `count` more registers.
    pub open spec fn has_registers(self, count: int) -> bool {
        self.ctx.registers + count <= usize::MAX
    }

    /// There is room for `count` more labels.
    pub open spec fn has_labels(self, count: int) -> bool {
        self.ctx.labels + count <= usize::MAX
    }
}

/// What lowering an expression gives: the state afterwards, and the
/// operand that holds its value.
pub struct Built {
    pub state: BuildView,
    pub result: Result<IrBasicValue, Diag>,
}

impl Built {
    pub open spec fn of(state: BuildView, result: Result<IrBasicValue, Diag>) -> Built {
        Built { state, result }
    }

    pub open spec fn ok(state: BuildView, value: IrBasicValue) -> Built {
        Built { state, result: Ok(value) }
    }

    pub open spec fn fail(state: BuildView, kind: DiagKind, range: Range) -> Built {
        Built { state, result: Err(Diag::at(kind, range)) }
    }

    pub open spec fn failed(self) -> bool {
        self.result is Err
    }

    pub open spec fn value(self) -> IrBasicValue {
        match self.result {
            Ok(value) => value,
            Err(_) => IrBasicValue::void(),
        }
    }

    /// This outcome as that of a statement that control flows past.
    pub open spec fn as_stmt(self) -> BuiltStmt {
        BuiltStmt {
            state: self.state,
            result: match self.result {
                Ok(_) => Ok(false),
                Err(diag) => Err(diag),
            },
        }
    }
}

/// What lowering a statement gives: the state afterwards, and whether the
/// statement ends every path through it with a jump or a return.
pub struct BuiltStmt {
    pub state: BuildView,
    pub result: Result<bool, Diag>,
}

impl BuiltStmt {
    pub open spec fn of(state: BuildView, result: Result<bool, Diag>) -> BuiltStmt {
        BuiltStmt { state, result }
    }

    pub open spec fn ok(state: BuildView, ended: bool) -> BuiltStmt {
        BuiltStmt { state, result: Ok(ended) }
    }

    pub open spec fn fail(state: BuildView, kind: DiagKind, range: Range) -> BuiltStmt {
        BuiltStmt { state, result: Err(Diag::at(kind, range)) }
    }

    pub open spec fn failed(self) -> bool {
        self.result is Err
    }

    pub open spec fn ended(self) -> bool {
        self.result matches Ok(ended) && ended
    }
}

/// What lowering a list of expressions gives.
pub struct BuiltList {
    pub state: BuildView,
    pub result: Result<Seq<IrBasicValue>, Diag>,
}

impl BuiltList {
    pub open spec fn of(state: BuildView, result: Result<Vec<IrBasicValue>, Diag>) -> BuiltList {
        BuiltList {
            state,
            result: match result {
                Ok(values) => Ok(values@),
                Err(diag) => Err(diag),
            },
        }
    }
}

/// What lowering the parameters of a function or the fields of a struct
/// gives: a register for each.
pub struct BuiltBinds {
    pub state: BuildView,
    pub result: Result<Seq<Bind>, Diag>,
}

impl BuiltBinds {
    pub open spec fn of(state: BuildView, result: Result<Vec<Bind>, Diag>) -> BuiltBinds {
        BuiltBinds {
            state,
            result: match result {
                Ok(binds) => Ok(binds@),
                Err(diag) => Err(diag),
            },
        }
    }
}

/// What lowering the target of an assignment gives: the operand to write
/// to, and whether it is a reference to write through.
pub struct BuiltTarget {
    pub state: BuildView,
    pub result: Result<(bool, IrBasicValue), Diag>,
}

impl BuiltTarget {
    pub open spec fn of(state: BuildView, result: Result<(bool, IrBasicValue), Diag>) -> BuiltTarget {
        BuiltTarget { state, result }
    }
}

/// What lowering the two ends of a range gives.
pub struct BuiltEnds {
    pub state: BuildView,
    pub result: Result<(IrBasicValue, IrBasicValue), Diag>,
}

impl BuiltEnds {
    pub open spec fn of(
        state: BuildView,
        result: Result<(IrBasicValue, IrBasicValue), Diag>,
    ) -> BuiltEnds {
        BuiltEnds { state, result }
    }
}

/// The type of an operand of type `own` beside one of type `other`: a
/// literal takes the type of the other operand where it fits, and its
/// default type where the other is a literal too.
pub open spec fn settle(types: Seq<TypeView>, own: TypeId, other: TypeId) -> TypeId {
    infer_default(types, infer(types, other, own))
}

/// The operator that a compound assignment applies.
pub open spec fn base_operator(op: OperatorKind) -> OperatorKind {
    match op {
        OperatorKind::ADDEQ => OperatorKind::ADD,
        OperatorKind::SUBEQ => OperatorKind::SUB,
        OperatorKind::MULEQ => OperatorKind::MUL,
        OperatorKind::DIVEQ => OperatorKind::DIV,
        OperatorKind::MODEQ => OperatorKind::MOD,
        _ => op,
    }
}

// ------- expressions -------
/// A literal is an immediate operand of the type that the checker gave
/// it. An integer literal is held by its value, whatever base it was
/// written in.
pub open spec fn lower_literal(b: BuildView, literal: Literal) -> Built {
    match b.node(literal.span()) {
        None => Built::fail(b, DiagKind::IceMissingType, literal.span()),
        Some(type_id) => match literal {
            Literal::Number(number) => if number.as_dot {
                Built::ok(b, IrBasicValue { value: BasicValue::Float(number.text), type_id })
            } else {
                match literal_value(number.text@, number.base as nat) {
                    Some(value) => Built::ok(
                        b,
                        IrBasicValue { value: BasicValue::Int(value), type_id },
                    ),
                    None => Built::fail(b, DiagKind::InvalidLiteral, number.range),
                }
            },
            Literal::String(string) => Built::ok(
                b,
                IrBasicValue { value: BasicValue::Str(string.text), type_id },
            ),
            Literal::Char(character) => Built::ok(
                b,
                IrBasicValue { value: BasicValue::Char(character.value), type_id },
            ),
            Literal::Bool(boolean) => Built::ok(
                b,
                IrBasicValue { value: BasicValue::Bool(boolean.value), type_id },
            ),
            Literal::Null(_) => Built::ok(b, IrBasicValue { value: BasicValue::Void, type_id }),
        },
    }
}

/// A name is the register that holds the local of that name, or else a
/// global symbol of the type that the checker gave the name.
pub open spec fn lower_ident(b: BuildView, ident: Ident) -> Built {
    match b.ctx.local(ident.text@) {
        Some(value) => Built::ok(b, value),
        None => match b.node(ident.range) {
            Some(type_id) => Built::ok(
                b,
                IrBasicValue { value: BasicValue::Global(ident.text), type_id },
            ),
            None => Built::fail(b, DiagKind::IceUnboundName { name: ident.text }, ident.range),
        },
    }
}

/// Whether the node at `at` can define the next register: the checker
/// recorded a type for it, and a register is left.
pub open spec fn can_define(b: BuildView, at: Range) -> Result<Bind, Diag> {
    match b.node(at) {
        None => Err(Diag::at(DiagKind::IceMissingType, at)),
        Some(type_id) => if b.has_registers(1) {
            Ok(b.next_dest(infer_default(b.types, type_id)))
        } else {
            Err(Diag::at(DiagKind::IceOutOfRegisters, at))
        },
    }
}

/// The instruction of a binary operator on two operands. A compound
/// assignment applies its operator and writes the result to the left
/// operand, which must be a register.
pub open spec fn lower_operator(
    b: BuildView,
    binary: BinaryExpr,
    left: IrBasicValue,
    right: IrBasicValue,
) -> Built {
    let op = binary.operator.kind;
    if op is RANGE || op is NOT || op is PIPE {
        Built::fail(b, DiagKind::IceMisplaced, binary.span())
    } else if op.is_compound_assign() && !left.is_register() {
        Built::fail(b, DiagKind::IceMisplaced, binary.left.span())
    } else {
        match can_define(b, binary.span()) {
            Err(diag) => Built { state: b, result: Err(diag) },
            Ok(dest) => if op.is_compound_assign() {
                let sum = Bind { register: dest.register, type_id: left.type_id };
                Built::ok(
                    b.define(
                        InstrView::Bin {
                            op: base_operator(op),
                            dest: sum,
                            left,
                            right: right.retag(settle(b.types, right.type_id, left.type_id)),
                        },
                    ).emit(InstrView::SetValue { dest: left, src: sum.value() }),
                    IrBasicValue::void(),
                )
            } else {
                Built::ok(
                    b.define(
                        InstrView::Bin {
                            op,
                            dest,
                            left: left.retag(settle(b.types, left.type_id, right.type_id)),
                            right: right.retag(settle(b.types, right.type_id, left.type_id)),
                        },
                    ),
                    dest.value(),
                )
            },
        }
    }
}

pub open spec fn lower_expr(b: BuildView, e: Expr) -> Built
    decreases e, 1nat,
{
    match e {
        Expr::Literal(literal) => lower_literal(b, literal),
        Expr::Ident(ident) => lower_ident(b, ident),
        Expr::Group(group) => lower_expr(b, *group.expr),
        Expr::Binary(binary) => lower_binary(b, binary),
        Expr::Unary(unary) => lower_unary(b, unary),
        Expr::Assign(assign) => lower_assign(b, assign),
        Expr::Borrow(borrow) => {
            let place = lower_expr(b, *borrow.expr);
            if place.failed() {
                place
            } else {
                match place.state.node(borrow.span()) {
                    Some(type_id) => Built::ok(place.state, place.value().retag(type_id)),
                    None => Built::fail(place.state, DiagKind::IceMissingType, borrow.span()),
                }
            }
        },
        Expr::Deref(deref) => {
            let pointer = lower_expr(b, *deref.expr);
            if pointer.failed() {
                pointer
            } else {
                match can_define(pointer.state, deref.span()) {
                    Err(diag) => Built { state: pointer.state, result: Err(diag) },
                    Ok(dest) => Built::ok(
                        pointer.state.define(InstrView::Load { dest, src: pointer.value() }),
                        dest.value(),
                    ),
                }
            }
        },
        Expr::Call(call) => lower_call(b, call),
        Expr::Pipe(pipe) => lower_pipe(b, pipe),
        Expr::If(if_expr) => lower_if_expr(b, if_expr),
        Expr::Associate(associate) => match b.node(associate.range) {
            Some(type_id) => Built::ok(
                b,
                IrBasicValue {
                    value: BasicValue::Method {
                        owner: associate.self_name.text,
                        name: associate.method.text,
                    },
                    type_id,
                },
            ),
            None => Built::fail(b, DiagKind::IceMissingType, associate.range),
        },
        _ => Built::fail(b, DiagKind::IceMisplaced, e.span()),
    }
}

/// Both operands are lowered, the left one first, and one instruction
/// applies the operator to them.
pub open spec fn lower_binary(b: BuildView, binary: BinaryExpr) -> Built
    decreases binary, 0nat,
{
    let left = lower_expr(b, *binary.left);
    if left.failed() {
        left
    } else {
        let right = lower_expr(left.state, *binary.right);
        if right.failed() {
            right
        } else {
            lower_operator(right.state, binary, left.value(), right.value())
        }
    }
}

pub open spec fn lower_unary(b: BuildView, unary: UnaryExpr) -> Built
    decreases unary, 0nat,
{
    let operand = lower_expr(b, *unary.operand);
    if operand.failed() {
        operand
    } else {
        match can_define(operand.state, unary.span()) {
            Err(diag) => Built { state: operand.state, result: Err(diag) },
            Ok(dest) => Built::ok(
                operand.state.define(
                    InstrView::Un { op: unary.operator.kind, dest, src: operand.value() },
                ),
                dest.value(),
            ),
        }
    }
}

/// The target of an assignment: the register of a local, or the
/// reference that a dereference writes through.
pub open spec fn lower_place(b: BuildView, e: Expr) -> BuiltTarget
    decreases e, 0nat,
{
    match e {
        Expr::Ident(ident) => match b.ctx.local(ident.text@) {
            Some(value) => if value.is_register() {
                BuiltTarget { state: b, result: Ok((false, value)) }
            } else {
                BuiltTarget {
                    state: b,
                    result: Err(Diag::at(DiagKind::IceMisplaced, ident.range)),
                }
            },
            None => BuiltTarget {
                state: b,
                result: Err(
                    Diag::at(DiagKind::IceUnboundName { name: ident.text }, ident.range),
                ),
            },
        },
        Expr::Deref(deref) => {
            let pointer = lower_expr(b, *deref.expr);
            match pointer.result {
                Ok(value) => BuiltTarget { state: pointer.state, result: Ok((true, value)) },
                Err(diag) => BuiltTarget { state: pointer.state, result: Err(diag) },
            }
        },
        Expr::Group(group) => lower_place(b, *group.expr),
        _ => BuiltTarget { state: b, result: Err(Diag::at(DiagKind::IceMisplaced, e.span())) },
    }
}

/// The target is lowered, then the value, and one instruction writes the
/// value: to the register of a local, or through a reference.
pub open spec fn lower_assign(b: BuildView, assign: AssignExpr) -> Built
    decreases assign, 0nat,
{
    let place = lower_place(b, *assign.left);
    match place.result {
        Err(diag) => Built { state: place.state, result: Err(diag) },
        Ok((through, target)) => {
            let value = lower_expr(place.state, *assign.right);
            if value.failed() {
                value
            } else if through {
                Built::ok(
                    value.state.emit(InstrView::Store { dest: target, src: value.value() }),
                    IrBasicValue::void(),
                )
            } else {
                Built::ok(
                    value.state.emit(
                        InstrView::SetValue {
                            dest: target,
                            src: value.value().retag(target.type_id),
                        },
                    ),
                    IrBasicValue::void(),
                )
            }
        },
    }
}

/// Lowers the arguments from position `i` on, after `done`. A literal
/// among them takes its default type.
pub open spec fn lower_args(b: BuildView, args: Seq<Expr>, i: int, done: Seq<IrBasicValue>) -> BuiltList
    decreases args, args.len() - i,
{
    if i < 0 || i >= args.len() {
        BuiltList { state: b, result: Ok(done) }
    } else {
        let arg = lower_expr(b, args[i]);
        match arg.result {
            Err(diag) => BuiltList { state: arg.state, result: Err(diag) },
            Ok(value) => lower_args(
                arg.state,
                args,
                i + 1,
                done.push(value.retag(infer_default(b.types, value.type_id))),
            ),
        }
    }
}

/// The callee is lowered, then each argument in order, and one
/// instruction makes the call.
pub open spec fn lower_call(b: BuildView, call: CallExpr) -> Built
    decreases call, 0nat,
{
    let callee = lower_expr(b, *call.callee);
    if callee.failed() {
        callee
    } else {
        let args = lower_args(callee.state, call.args@, 0, Seq::empty());
        match args.result {
            Err(diag) => Built { state: args.state, result: Err(diag) },
            Ok(values) => match can_define(args.state, call.span()) {
                Err(diag) => Built { state: args.state, result: Err(diag) },
                Ok(dest) => Built::ok(
                    args.state.define(
                        InstrView::Call { dest, callee: callee.value(), args: values },
                    ),
                    dest.value(),
                ),
            },
        }
    }
}

/// `left |> right` is the call of `right` with `left` as its argument.
pub open spec fn lower_pipe(b: BuildView, pipe: PipeExpr) -> Built
    decreases pipe, 0nat,
{
    let left = lower_expr(b, *pipe.left);
    if left.failed() {
        left
    } else {
        let right = lower_expr(left.state, *pipe.right);
        if right.failed() {
            right
        } else {
            match can_define(right.state, pipe.span()) {
                Err(diag) => Built { state: right.state, result: Err(diag) },
                Ok(dest) => Built::ok(
                    right.state.define(
                        InstrView::Call {
                            dest,
                            callee: right.value(),
                            args: seq![
                                left.value().retag(
                                    infer_default(b.types, left.value().type_id),
                                ),
                            ],
                        },
                    ),
                    dest.value(),
                ),
            }
        }
    }
}

/// `if` as a value: room for the result is reserved, a branch on the
/// condition leads to a block for each arm, each arm writes its value to
/// the room and jumps to the block where the two paths join.
pub open spec fn lower_if_expr(b: BuildView, if_expr: IfExpr) -> Built
    decreases if_expr, 0nat,
{
    let IfExpr { cond, then: then_arm, otherwise, .. } = if_expr;
    let test = lower_expr(b, *cond);
    if test.failed() {
        test
    } else {
        match can_define(test.state, if_expr.span()) {
            Err(diag) => Built { state: test.state, result: Err(diag) },
            Ok(dest) => if !test.state.has_labels(3) {
                Built::fail(test.state, DiagKind::IceOutOfRegisters, if_expr.span())
            } else {
                let then_label = test.state.label(0);
                let else_label = test.state.label(1);
                let join_label = test.state.label(2);
                let first = lower_expr(
                    test.state.define(InstrView::Salloc { dest }).take_labels(3).emit(
                        InstrView::Br { cond: test.value(), then_label, else_label },
                    ).seal(then_label),
                    *then_arm,
                );
                if first.failed() {
                    first
                } else {
                    let second = lower_expr(
                        first.state.emit(
                            InstrView::SetValue {
                                dest: dest.value(),
                                src: first.value().retag(dest.type_id),
                            },
                        ).emit(InstrView::Jmp { label: join_label }).seal(else_label),
                        *otherwise,
                    );
                    if second.failed() {
                        second
                    } else {
                        Built::ok(
                            second.state.emit(
                                InstrView::SetValue {
                                    dest: dest.value(),
                                    src: second.value().retag(dest.type_id),
                                },
                            ).emit(InstrView::Jmp { label: join_label }).seal(join_label),
                            dest.value(),
                        )
                    }
                }
            },
        }
    }
}

// ------- statements -------
/// `break` and `skip` release what the scopes that they leave hold on the
/// heap, and jump: `break` behind the loop, `skip` to its next round.
pub open spec fn lower_jump(b: BuildView, leave: bool, at: Range) -> BuiltStmt {
    match frees_to_loop(b.ctx.scopes) {
        None => BuiltStmt::fail(b, DiagKind::IceMisplaced, at),
        Some((frees, next, exit)) => BuiltStmt::ok(
            b.emit_all(frees).emit(
                InstrView::Jmp {
                    label: if leave {
                        exit
                    } else {
                        next
                    },
                },
            ),
            true,
        ),
    }
}

/// Releases what the scopes of the function hold on the heap, the
/// innermost first, and returns `value`.
pub open spec fn lower_return(b: BuildView, value: Option<IrBasicValue>, at: Range) -> BuiltStmt {
    match frees_to_function(b.ctx.scopes) {
        None => BuiltStmt::fail(b, DiagKind::IceMisplaced, at),
        Some(frees) => BuiltStmt::ok(b.emit_all(frees).emit(InstrView::Ret { value }), true),
    }
}

/// The value that a function that returns `ret` gives back for `value`:
/// none if the function returns no value, else the value as one of the
/// return type.
pub open spec fn return_value(types: Seq<TypeView>, ret: TypeId, value: Option<IrBasicValue>) -> Option<IrBasicValue> {
    match value {
        Some(value) => if equal_types(types, ret, TypeId::void()) {
            None
        } else {
            Some(value.retag(ret))
        },
        None => None,
    }
}

/// Room for a binding of type `type_id`: on the heap, to be released by
/// the scope, or on the stack, by the layout of the type.
pub open spec fn allocate(b: BuildView, dest: Bind) -> BuildView {
    let layout = layout_of(b.types, dest.type_id);
    if layout.on_heap() {
        b.define(InstrView::Halloc { dest, size: layout.size }).mark_free(dest.register)
    } else {
        b.define(InstrView::Salloc { dest })
    }
}

/// Whether the binding at `at` gets room on the heap: its type is no
/// reference, and too large or not plain enough for the stack.
pub open spec fn binds_on_heap(b: BuildView, at: Range) -> bool {
    b.node(at) matches Some(type_id) && !(lookup(b.types, type_id) matches Some(
        TypeView::Borrow { .. },
    )) && layout_of(b.types, type_id).on_heap()
}

/// Binds `name` to the value `src` in the innermost scope, which must be
/// there: a reference is the register that it came in, without room of
/// its own; any other value gets room, and is written to it.
pub open spec fn lower_binding(b: BuildView, name: String, src: IrBasicValue, at: Range) -> BuiltStmt {
    match b.node(at) {
        None => BuiltStmt::fail(b, DiagKind::IceMissingType, at),
        Some(type_id) => if b.ctx.scopes.len() == 0 {
            BuiltStmt::fail(b, DiagKind::IceMisplaced, at)
        } else if lookup(b.types, type_id) matches Some(TypeView::Borrow { .. }) {
            BuiltStmt::ok(b.bind(name, src.retag(type_id)), false)
        } else if !b.has_registers(1) {
            BuiltStmt::fail(b, DiagKind::IceOutOfRegisters, at)
        } else {
            let dest = b.next_dest(type_id);
            BuiltStmt::ok(
                allocate(b, dest).bind(name, dest.value()).emit(
                    InstrView::SetValue { dest: dest.value(), src: src.retag(type_id) },
                ),
                false,
            )
        },
    }
}

/// A constant is owned by a register of its own, outside any function.
pub open spec fn lower_constant(b: BuildView, name: String, value: IrBasicValue, at: Range) -> BuiltStmt {
    match b.node(at) {
        None => BuiltStmt::fail(b, DiagKind::IceMissingType, at),
        Some(type_id) => if b.ctx.scopes.len() == 0 {
            BuiltStmt::fail(b, DiagKind::IceMisplaced, at)
        } else if !b.has_registers(1) {
            BuiltStmt::fail(b, DiagKind::IceOutOfRegisters, at)
        } else {
            let dest = b.next_dest(type_id);
            BuiltStmt::ok(
                b.own(InstrView::Own { dest, value: value.retag(type_id) }).bind(
                    name,
                    dest.value(),
                ),
                false,
            )
        },
    }
}

/// A register for each field of a struct definition from position `i` on.
pub open spec fn lower_fields(
    b: BuildView,
    fields: Seq<crate::ast::FieldType>,
    i: int,
    done: Seq<Bind>,
) -> Result<Seq<Bind>, Diag>
    decreases fields.len() - i,
{
    if i < 0 || i >= fields.len() {
        Ok(done)
    } else {
        match b.node(fields[i].ident.range) {
            None => Err(Diag::at(DiagKind::IceMissingType, fields[i].ident.range)),
            Some(type_id) => if !b.has_registers(done.len() as int + 1) {
                Err(Diag::at(DiagKind::IceOutOfRegisters, fields[i].ident.range))
            } else {
                lower_fields(
                    b,
                    fields,
                    i + 1,
                    done.push(
                        Bind { register: (b.ctx.registers + done.len()) as usize, type_id },
                    ),
                )
            },
        }
    }
}

/// A struct definition goes to the struct definitions of the program; an
/// alias leaves no trace.
pub open spec fn lower_type_def(b: BuildView, type_def: TypeDefStmt) -> BuiltStmt {
    match type_def.kind {
        TypeDefKind::Alias(_) => BuiltStmt::ok(b, false),
        TypeDefKind::Struct(def) => match lower_fields(b, def.fields@, 0, Seq::empty()) {
            Err(diag) => BuiltStmt { state: b, result: Err(diag) },
            Ok(fields) => BuiltStmt::ok(
                b.add_struct(StructView { struct_id: type_def.name.text, fields }),
                false,
            ),
        },
    }
}

/// Room for each parameter from position `i` on: the parameter is
/// written, as it comes in, to room on the stack, which its name is
/// bound to.
pub open spec fn lower_params(
    b: BuildView,
    params: Seq<Binding>,
    types: Seq<TypeId>,
    i: int,
    done: Seq<Bind>,
) -> BuiltBinds
    decreases params.len() - i,
{
    if i < 0 || i >= params.len() || i >= types.len() {
        BuiltBinds { state: b, result: Ok(done) }
    } else if b.ctx.scopes.len() == 0 {
        BuiltBinds {
            state: b,
            result: Err(Diag::at(DiagKind::IceMisplaced, params[i].ident.range)),
        }
    } else if !b.has_registers(1) {
        BuiltBinds {
            state: b,
            result: Err(Diag::at(DiagKind::IceOutOfRegisters, params[i].ident.range)),
        }
    } else {
        let dest = b.next_dest(types[i]);
        lower_params(
            b.define(InstrView::Salloc { dest }).emit(
                InstrView::SetValue {
                    dest: dest.value(),
                    src: IrBasicValue {
                        value: BasicValue::Global(params[i].ident.text),
                        type_id: types[i],
                    },
                },
            ).bind(params[i].ident.text, dest.value()),
            params,
            types,
            i + 1,
            done.push(dest),
        )
    }
}

pub open spec fn lower_stmt(b: BuildView, s: Stmt) -> BuiltStmt
    decreases s, 1nat,
{
    match s {
        Stmt::Expr(e) => match e {
            Expr::Break(base) => lower_jump(b, true, base.range),
            Expr::Skip(base) => lower_jump(b, false, base.range),
            _ => lower_expr(b, e).as_stmt(),
        },
        Stmt::Let(let_stmt) => lower_let(b, let_stmt),
        Stmt::ConstDel(const_del) => lower_const(b, const_del),
        Stmt::Fn(fn_stmt) => lower_function(b, None, fn_stmt.name, fn_stmt.params@, fn_stmt.body),
        Stmt::ConstFn(const_fn) => lower_function(
            b,
            None,
            const_fn.name,
            const_fn.params@,
            const_fn.body,
        ),
        Stmt::ExternFn(_) => BuiltStmt::ok(b, false),
        Stmt::TypeDef(type_def) => lower_type_def(b, type_def),
        Stmt::Impl(impl_stmt) => lower_methods(b, impl_stmt.self_name.text, impl_stmt.items@, 0),
        Stmt::Ret(ret_stmt) => lower_ret(b, ret_stmt),
        Stmt::Block(block) => lower_block(b, block),
        Stmt::If(if_stmt) => lower_if_stmt(b, if_stmt),
        Stmt::While(while_stmt) => lower_while(b, while_stmt),
        Stmt::For(for_stmt) => lower_for(b, for_stmt),
    }
}

pub open spec fn lower_let(b: BuildView, let_stmt: LetStmt) -> BuiltStmt
    decreases let_stmt, 0nat,
{
    let value = lower_expr(b, let_stmt.expr);
    match value.result {
        Err(diag) => BuiltStmt { state: value.state, result: Err(diag) },
        Ok(src) => lower_binding(value.state, let_stmt.bind.ident.text, src, let_stmt.span()),
    }
}

pub open spec fn lower_const(b: BuildView, const_del: ConstDelStmt) -> BuiltStmt
    decreases const_del, 0nat,
{
    let value = lower_expr(b, const_del.expr);
    match value.result {
        Err(diag) => BuiltStmt { state: value.state, result: Err(diag) },
        Ok(src) => lower_constant(value.state, const_del.name.ident.text, src, const_del.span()),
    }
}

/// The value is lowered; then what the scopes of the function hold on the
/// heap is released, and the function returns.
pub open spec fn lower_ret(b: BuildView, ret_stmt: RetStmt) -> BuiltStmt
    decreases ret_stmt, 0nat,
{
    match b.ctx.ret_type() {
        None => BuiltStmt::fail(b, DiagKind::IceMisplaced, ret_stmt.range),
        Some(ret) => match ret_stmt.expr {
            None => lower_return(b, None, ret_stmt.range),
            Some(e) => {
                let value = lower_expr(b, *e);
                match value.result {
                    Err(diag) => BuiltStmt { state: value.state, result: Err(diag) },
                    Ok(src) => lower_return(
                        value.state,
                        return_value(b.types, ret, Some(src)),
                        ret_stmt.range,
                    ),
                }
            },
        },
    }
}

/// Lowers the statements from position `i` on, up to the first one that
/// ends every path through it.
pub open spec fn lower_stmts(b: BuildView, stmts: Seq<Stmt>, i: int) -> BuiltStmt
    decreases stmts, stmts.len() - i,
{
    if i < 0 || i >= stmts.len() {
        BuiltStmt::ok(b, false)
    } else {
        let done = lower_stmt(b, stmts[i]);
        if done.failed() || done.ended() {
            done
        } else {
            lower_stmts(done.state, stmts, i + 1)
        }
    }
}

/// Leaves the innermost scope, which must be there, at its end: unless control never reaches
/// the end, what the scope holds on the heap is released, and `then`,
/// which is empty or a jump, follows.
pub open spec fn close_scope(done: BuiltStmt, then: Seq<InstrView>) -> BuiltStmt {
    match done.result {
        Err(_) => done,
        Ok(ended) => if ended {
            BuiltStmt::ok(done.state.pop(), true)
        } else {
            BuiltStmt::ok(
                done.state.emit_all(free_instrs(done.state.ctx.top_frees())).emit_all(then).pop(),
                false,
            )
        },
    }
}

/// A block has a scope of its own, which releases at the end of the
/// block what it holds on the heap.
pub open spec fn lower_block(b: BuildView, block: BlockStmt) -> BuiltStmt
    decreases block, 0nat,
{
    close_scope(lower_stmts(b.push(FrameKind::Block), block.stmts@, 0), Seq::empty())
}

/// An arm of an `if` statement, in a scope of its own, which ends with a
/// jump to the block where the paths join.
pub open spec fn lower_arm(b: BuildView, arm: Stmt, join: Label) -> BuiltStmt
    decreases arm, 2nat,
{
    close_scope(lower_stmt(b.push(FrameKind::Block), arm), seq![InstrView::Jmp { label: join }])
}

/// The second arm of an `if` statement: the `else` arm where there is
/// one, and else a jump to the block where the paths join.
pub open spec fn lower_else(b: BuildView, otherwise: Option<Box<Stmt>>, join: Label) -> BuiltStmt
    decreases otherwise, 3nat,
{
    match otherwise {
        Some(other) => lower_arm(b, *other, join),
        None => BuiltStmt::ok(b.emit(InstrView::Jmp { label: join }), false),
    }
}

/// `if` as a statement: a branch on the condition, a block for each arm,
/// and a block where the paths join. Without an `else` the second block
/// only jumps on.
pub open spec fn lower_if_stmt(b: BuildView, if_stmt: IfStmt) -> BuiltStmt
    decreases if_stmt, 0nat,
{
    let IfStmt { cond, then: then_arm, otherwise, range } = if_stmt;
    let test = lower_expr(b, *cond);
    match test.result {
        Err(diag) => BuiltStmt { state: test.state, result: Err(diag) },
        Ok(flag) => if !test.state.has_labels(3) {
            BuiltStmt::fail(test.state, DiagKind::IceOutOfRegisters, range)
        } else {
            let then_label = test.state.label(0);
            let else_label = test.state.label(1);
            let join_label = test.state.label(2);
            let first = lower_arm(
                test.state.take_labels(3).emit(
                    InstrView::Br { cond: flag, then_label, else_label },
                ).seal(then_label),
                *then_arm,
                join_label,
            );
            if first.failed() {
                first
            } else {
                let second = lower_else(first.state.seal(else_label), otherwise, join_label);
                if second.failed() {
                    second
                } else {
                    BuiltStmt::ok(second.state.seal(join_label), first.ended() && second.ended())
                }
            }
        },
    }
}

/// `while`: a block for the condition, which branches into the body or
/// behind the loop, and a block for the body, which jumps back.
pub open spec fn lower_while(b: BuildView, while_stmt: WhileStmt) -> BuiltStmt
    decreases while_stmt, 0nat,
{
    if !b.has_labels(3) {
        BuiltStmt::fail(b, DiagKind::IceOutOfRegisters, while_stmt.range)
    } else {
        let test_label = b.label(0);
        let body_label = b.label(1);
        let exit_label = b.label(2);
        let test = lower_expr(
            b.take_labels(3).emit(InstrView::Jmp { label: test_label }).seal(test_label),
            *while_stmt.test,
        );
        match test.result {
            Err(diag) => BuiltStmt { state: test.state, result: Err(diag) },
            Ok(flag) => {
                let body = close_scope(
                    lower_stmt(
                        test.state.emit(
                            InstrView::Br {
                                cond: flag,
                                then_label: body_label,
                                else_label: exit_label,
                            },
                        ).seal(body_label).push(
                            FrameKind::Loop { next: test_label, exit: exit_label },
                        ),
                        *while_stmt.body,
                    ),
                    seq![InstrView::Jmp { label: test_label }],
                );
                if body.failed() {
                    body
                } else {
                    BuiltStmt::ok(body.state.seal(exit_label), false)
                }
            },
        }
    }
}

/// The two ends of the range that `e` is, lowered in order. Brackets
/// around the range are looked through.
pub open spec fn lower_range(b: BuildView, e: Expr) -> BuiltEnds
    decreases e, 0nat,
{
    match e {
        Expr::Binary(binary) => if binary.operator.kind is RANGE {
            let from = lower_expr(b, *binary.left);
            match from.result {
                Err(diag) => BuiltEnds { state: from.state, result: Err(diag) },
                Ok(first) => {
                    let to = lower_expr(from.state, *binary.right);
                    match to.result {
                        Err(diag) => BuiltEnds { state: to.state, result: Err(diag) },
                        Ok(last) => BuiltEnds { state: to.state, result: Ok((first, last)) },
                    }
                },
            }
        } else {
            BuiltEnds { state: b, result: Err(Diag::at(DiagKind::IceMisplaced, e.span())) }
        },
        Expr::Group(group) => lower_range(b, *group.expr),
        _ => BuiltEnds { state: b, result: Err(Diag::at(DiagKind::IceMisplaced, e.span())) },
    }
}

/// `for` over a range `from..to`: room for the item, which starts at
/// `from`, and for the index where one is asked for; a block that tests
/// the item against `to`; the body; and a block that steps both.
pub open spec fn lower_for(b: BuildView, for_stmt: ForStmt) -> BuiltStmt
    decreases for_stmt, 1nat,
{
    let ends = lower_range(b, *for_stmt.iterable);
    match ends.result {
        Err(diag) => BuiltStmt { state: ends.state, result: Err(diag) },
        Ok((from, to)) => match ends.state.node(for_stmt.iterable.span()) {
            None => BuiltStmt::fail(ends.state, DiagKind::IceMissingType, for_stmt.iterable.span()),
            Some(handle) => match lookup(b.types, handle) {
                Some(TypeView::Range { item }) => if !ends.state.has_registers(5)
                    || !ends.state.has_labels(4) {
                    BuiltStmt::fail(ends.state, DiagKind::IceOutOfRegisters, for_stmt.range)
                } else {
                    for_loop(ends.state, for_stmt, from.retag(item), to.retag(item), item)
                },
                _ => BuiltStmt::fail(
                    ends.state,
                    DiagKind::IceMissingType,
                    for_stmt.iterable.span(),
                ),
            },
        },
    }
}

/// The state at the head of the body of a `for` loop: see [`lower_for`].
pub open spec fn for_head(
    b: BuildView,
    for_stmt: ForStmt,
    from: IrBasicValue,
    to: IrBasicValue,
    item: TypeId,
) -> BuildView {
    let test_label = b.label(0);
    let body_label = b.label(1);
    let step_label = b.label(2);
    let exit_label = b.label(3);
    let slot = b.next_dest(item);
    let with_item = b.define(InstrView::Salloc { dest: slot }).emit(
        InstrView::SetValue { dest: slot.value(), src: from },
    );
    let count = with_item.next_dest(TypeId::usize());
    let with_index = match for_stmt.index {
        Some(_) => with_item.define(InstrView::Salloc { dest: count }).emit(
            InstrView::SetValue {
                dest: count.value(),
                src: IrBasicValue { value: BasicValue::Int(0), type_id: TypeId::usize() },
            },
        ),
        None => with_item,
    };
    let at_test = with_index.take_labels(4).emit(InstrView::Jmp { label: test_label }).seal(
        test_label,
    );
    let flag = at_test.next_dest(TypeId::bool());
    let in_body = at_test.define(
        InstrView::Bin { op: OperatorKind::LT, dest: flag, left: slot.value(), right: to },
    ).emit(
        InstrView::Br { cond: flag.value(), then_label: body_label, else_label: exit_label },
    ).seal(body_label).push(FrameKind::Loop { next: step_label, exit: exit_label }).bind(
        for_stmt.value.text,
        slot.value(),
    );
    match for_stmt.index {
        Some(index) => in_body.bind(index.text, count.value()),
        None => in_body,
    }
}

/// The state behind a `for` loop, from that at the end of its body: see
/// [`lower_for`].
pub open spec fn for_tail(
    b: BuildView,
    start: BuildView,
    for_stmt: ForStmt,
    item: TypeId,
) -> BuildView {
    let test_label = start.label(0);
    let step_label = start.label(2);
    let exit_label = start.label(3);
    let slot = start.next_dest(item);
    let count = Bind { register: (start.ctx.registers + 1) as usize, type_id: TypeId::usize() };
    let at_step = b.seal(step_label);
    let next = at_step.next_dest(item);
    let stepped = at_step.define(
        InstrView::Bin {
            op: OperatorKind::ADD,
            dest: next,
            left: slot.value(),
            right: IrBasicValue { value: BasicValue::Int(1), type_id: item },
        },
    ).emit(InstrView::SetValue { dest: slot.value(), src: next.value() });
    let after = stepped.next_dest(TypeId::usize());
    let counted = match for_stmt.index {
        Some(_) => stepped.define(
            InstrView::Bin {
                op: OperatorKind::ADD,
                dest: after,
                left: count.value(),
                right: IrBasicValue { value: BasicValue::Int(1), type_id: TypeId::usize() },
            },
        ).emit(InstrView::SetValue { dest: count.value(), src: after.value() }),
        None => stepped,
    };
    counted.emit(InstrView::Jmp { label: test_label }).seal(exit_label)
}

pub open spec fn for_loop(
    b: BuildView,
    for_stmt: ForStmt,
    from: IrBasicValue,
    to: IrBasicValue,
    item: TypeId,
) -> BuiltStmt
    decreases for_stmt, 0nat,
{
    let body = close_scope(
        lower_stmt(for_head(b, for_stmt, from, to, item), *for_stmt.body),
        seq![InstrView::Jmp { label: b.label(2) }],
    );
    if body.failed() {
        body
    } else if !body.state.has_registers(2) {
        BuiltStmt::fail(body.state, DiagKind::IceOutOfRegisters, for_stmt.range)
    } else {
        BuiltStmt::ok(for_tail(body.state, b, for_stmt, item), false)
    }
}

/// Ends a function body that control can leave at its end: with the
/// value of its last expression, where it has one.
pub open spec fn lower_end(b: BuildView, ret: TypeId, value: Option<IrBasicValue>, at: Range) -> BuiltStmt {
    lower_return(b, return_value(b.types, ret, value), at)
}

/// Lowers the statements of a function body from position `i` on: see
/// [`lower_stmts`]. An expression in last place is the value that the
/// function returns.
pub open spec fn lower_body_stmts(b: BuildView, stmts: Seq<Stmt>, i: int, ret: TypeId, at: Range) -> BuiltStmt
    decreases stmts, stmts.len() - i,
{
    if i < 0 || i >= stmts.len() {
        lower_end(b, ret, None, at)
    } else if i == stmts.len() - 1 && is_value(stmts[i]) {
        let value = lower_expr(b, stmts[i]->Expr_0);
        match value.result {
            Err(diag) => BuiltStmt { state: value.state, result: Err(diag) },
            Ok(src) => lower_end(value.state, ret, Some(src), at),
        }
    } else {
        let done = lower_stmt(b, stmts[i]);
        if done.failed() || done.ended() {
            done
        } else {
            lower_body_stmts(done.state, stmts, i + 1, ret, at)
        }
    }
}

/// The statement is an expression other than `break` and `skip`.
pub open spec fn is_value(s: Stmt) -> bool {
    s matches Stmt::Expr(e) && !(e is Break) && !(e is Skip)
}

pub open spec fn lower_body(b: BuildView, body: FnBody, ret: TypeId) -> BuiltStmt
    decreases body, 0nat,
{
    match body {
        FnBody::Block(block) => lower_body_stmts(b, block.stmts@, 0, ret, block.range),
        FnBody::Expr(e) => {
            let value = lower_expr(b, e);
            match value.result {
                Err(diag) => BuiltStmt { state: value.state, result: Err(diag) },
                Ok(src) => lower_end(value.state, ret, Some(src), e.span()),
            }
        },
    }
}

/// A function: the buffer of the code around it is set aside; its scope
/// is opened and its parameters get room; its body is lowered; and the
/// function, with the blocks that were emitted for it in the order of
/// emission, is appended to the program.
pub open spec fn lower_function(
    b: BuildView,
    owner: Option<String>,
    name: Ident,
    params: Seq<Binding>,
    body: FnBody,
) -> BuiltStmt
    decreases body, 1nat,
{
    match b.node(name.range) {
        None => BuiltStmt::fail(b, DiagKind::IceMissingType, name.range),
        Some(fn_type) => if !b.has_labels(1) {
            BuiltStmt::fail(b, DiagKind::IceOutOfRegisters, name.range)
        } else {
            let (types, ret) = fn_parts(b.types, fn_type);
            let entered = lower_params(
                b.on(b.ctx.suspend().push(FrameKind::Function { ret })),
                params,
                types,
                0,
                Seq::empty(),
            );
            match entered.result {
                Err(diag) => BuiltStmt { state: entered.state, result: Err(diag) },
                Ok(binds) => {
                    let done = lower_body(entered.state, body, ret);
                    if done.failed() {
                        done
                    } else {
                        BuiltStmt::ok(
                            done.state.finish_function(owner, name.text, binds, ret),
                            false,
                        )
                    }
                },
            }
        },
    }
}

/// The functions of an `impl` from position `i` on, each under the name
/// of the type that owns it.
pub open spec fn lower_methods(b: BuildView, owner: String, items: Seq<FnStmt>, i: int) -> BuiltStmt
    decreases items, items.len() - i,
{
    if i < 0 || i >= items.len() {
        BuiltStmt::ok(b, false)
    } else {
        let done = lower_function(b, Some(owner), items[i].name, items[i].params@, items[i].body);
        if done.failed() {
            done
        } else {
            lower_methods(done.state, owner, items, i + 1)
        }
    }
}

/// The program that the statements from position `i` on are lowered to:
/// the code outside any function is completed with the blocks that were
/// emitted for it.
pub open spec fn lower_program(b: BuildView, stmts: Seq<Stmt>) -> Result<IrView, Diag> {
    let done = lower_stmts(b, stmts, 0);
    match done.result {
        Err(diag) => Err(diag),
        Ok(_) => Ok(IrView { top: done.state.ctx.block.blocks(), ..done.state.ir }),
    }
}

} // verus!
