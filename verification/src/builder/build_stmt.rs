//! Lowering statements and functions.

use vstd::prelude::*;
use crate::ast::{
    Binding, BlockStmt, ConstDelStmt, Expr, FnBody, FnStmt, ForStmt, Ident, IfStmt, LetStmt,
    OperatorKind, Program, RetStmt, Stmt, TypeDefKind, TypeDefStmt, WhileStmt,
};
use crate::checker::check_expr::fn_parts;
use crate::checker::equal_type::equal_type_id;
use crate::checker::types::{Type, TypeId, TypeStore};
use crate::diag::{Diag, DiagKind};
use crate::ir::{
    BasicValue, Bind, Function, Instr, InstrView, IrBasicValue, IrView, Label, StructInstr, IR,
};
use crate::range::Range;
use super::context::FrameKind;
use super::layout::layout;
use super::rules::{self, BuiltBinds, BuiltEnds, BuiltStmt};
use super::Builder;

verus! {

/// See [`rules::return_value`].
pub fn return_value(store: &TypeStore, ret: TypeId, value: Option<IrBasicValue>) -> (r: Option<
    IrBasicValue,
>)
    ensures
        r == rules::return_value(store@, ret, value),
{
    match value {
        Some(value) => if equal_type_id(store, ret, TypeId::void()) {
            None
        } else {
            Some(value.with_new_type(ret))
        },
        None => None,
    }
}

/// A copy of the name of the type that owns a function, where one does.
pub fn copy_owner(owner: &Option<String>) -> (r: Option<String>)
    ensures
        r == *owner,
{
    match owner {
        Some(name) => Some(name.clone()),
        None => None,
    }
}

impl<'br> Builder<'br> {
    /// `break` and `skip`: see [`rules::lower_jump`].
    pub fn build_jump(&mut self, leave: bool, at: Range) -> (r: Result<bool, Diag>)
        ensures
            old(self)@.sound() ==> final(self)@.sound(),
            r is Ok ==> final(self)@.ctx.scopes.len() == old(self)@.ctx.scopes.len(),
            final(self).type_store == old(self).type_store,
            final(self).node_types == old(self).node_types,
            BuiltStmt::of(final(self)@, r) == rules::lower_jump(old(self)@, leave, at),
    {
        match self.loop_frees() {
            None => Err(Diag::new(DiagKind::IceMisplaced, at)),
            Some((frees, next, exit)) => {
                self.emit_frees(&frees);
                self.emit(
                    Instr::Jmp {
                        label: if leave {
                            exit
                        } else {
                            next
                        },
                    },
                );
                Ok(true)
            },
        }
    }

    /// Releases what the function holds and returns: see
    /// [`rules::lower_return`].
    pub fn build_return(&mut self, value: Option<IrBasicValue>, at: Range) -> (r: Result<
        bool,
        Diag,
    >)
        ensures
            old(self)@.sound() ==> final(self)@.sound(),
            r is Ok ==> final(self)@.ctx.scopes.len() == old(self)@.ctx.scopes.len(),
            final(self).type_store == old(self).type_store,
            final(self).node_types == old(self).node_types,
            BuiltStmt::of(final(self)@, r) == rules::lower_return(old(self)@, value, at),
    {
        match self.function_frees() {
            None => Err(Diag::new(DiagKind::IceMisplaced, at)),
            Some(frees) => {
                self.emit_frees(&frees);
                self.emit(Instr::Ret { value });
                Ok(true)
            },
        }
    }

    /// Room for a binding: see [`rules::allocate`].
    pub fn allocate(&mut self, dest: Bind)
        requires
            old(self)@.has_registers(1),
            old(self)@.ctx.scopes.len() > 0,
        ensures
            old(self)@.sound() && dest.register == old(self)@.ctx.registers
                ==> final(self)@.sound(),
            final(self).type_store == old(self).type_store,
            final(self).node_types == old(self).node_types,
            final(self)@ == rules::allocate(old(self)@, dest),
    {
        proof {
            reveal(rules::BuildView::sound);
            if self@.sound() {
                assert(super::sound::held(self@.ctx.scopes, self@.ctx.registers)
                    <= super::sound::at_most(self@, self@.ctx.registers));
            }
        }
        let found = layout(self.type_store, dest.type_id);
        if found.on_heap() {
            self.define(Instr::Halloc { dest, size: found.size });
            self.mark_free(dest.register);
        } else {
            self.define(Instr::Salloc { dest });
        }
    }

    /// Binds a name to a value: see [`rules::lower_binding`].
    pub fn build_binding(&mut self, name: &String, src: IrBasicValue, at: Range) -> (r: Result<
        bool,
        Diag,
    >)
        ensures
            old(self)@.sound() ==> final(self)@.sound(),
            r is Ok ==> final(self)@.ctx.scopes.len() == old(self)@.ctx.scopes.len(),
            final(self).type_store == old(self).type_store,
            final(self).node_types == old(self).node_types,
            BuiltStmt::of(final(self)@, r) == rules::lower_binding(old(self)@, *name, src, at),
            r is Ok ==> old(self)@.ctx.scopes.len() > 0 && final(self)@.ctx.top_frees() == (
            if rules::binds_on_heap(old(self)@, at) {
                old(self)@.ctx.top_frees().push(old(self)@.ctx.registers)
            } else {
                old(self)@.ctx.top_frees()
            }),
    {
        let type_id = match self.node_types.get(at) {
            Some(type_id) => type_id,
            None => {
                return Err(Diag::new(DiagKind::IceMissingType, at));
            },
        };
        if self.ctx.scopes.len() == 0 {
            return Err(Diag::new(DiagKind::IceMisplaced, at));
        }
        let is_borrow = match self.type_store.get_type(type_id) {
            Some(Type::Borrow { .. }) => true,
            _ => false,
        };
        if is_borrow {
            self.bind(name.clone(), src.with_new_type(type_id));
            return Ok(false);
        }
        if self.ctx.register_count == usize::MAX {
            return Err(Diag::new(DiagKind::IceOutOfRegisters, at));
        }
        let dest = Bind { register: self.ctx.register_count, type_id };
        self.allocate(dest);
        self.bind(name.clone(), dest.value());
        self.emit(Instr::SetValue { dest: dest.value(), src: src.with_new_type(type_id) });
        Ok(false)
    }

    /// A constant: see [`rules::lower_constant`].
    pub fn build_constant(&mut self, name: &String, value: IrBasicValue, at: Range) -> (r: Result<
        bool,
        Diag,
    >)
        ensures
            old(self)@.sound() ==> final(self)@.sound(),
            r is Ok ==> final(self)@.ctx.scopes.len() == old(self)@.ctx.scopes.len(),
            final(self).type_store == old(self).type_store,
            final(self).node_types == old(self).node_types,
            BuiltStmt::of(final(self)@, r) == rules::lower_constant(old(self)@, *name, value, at),
    {
        let type_id = match self.node_types.get(at) {
            Some(type_id) => type_id,
            None => {
                return Err(Diag::new(DiagKind::IceMissingType, at));
            },
        };
        if self.ctx.scopes.len() == 0 {
            return Err(Diag::new(DiagKind::IceMisplaced, at));
        }
        if self.ctx.register_count == usize::MAX {
            return Err(Diag::new(DiagKind::IceOutOfRegisters, at));
        }
        let dest = Bind { register: self.ctx.register_count, type_id };
        self.add_global(Instr::Own { dest, value: value.with_new_type(type_id) });
        self.bind(name.clone(), dest.value());
        Ok(false)
    }

    /// A register for each field: see [`rules::lower_fields`].
    pub fn build_fields(&self, fields: &Vec<crate::ast::FieldType>) -> (r: Result<Vec<Bind>, Diag>)
        ensures
            match r {
                Ok(binds) => rules::lower_fields(self@, fields@, 0, Seq::empty()) == Ok::<
                    Seq<Bind>,
                    Diag,
                >(binds@),
                Err(diag) => rules::lower_fields(self@, fields@, 0, Seq::empty()) == Err::<
                    Seq<Bind>,
                    Diag,
                >(diag),
            },
    {
        let mut done: Vec<Bind> = Vec::new();
        let mut i: usize = 0;
        while i < fields.len()
            invariant
                i <= fields@.len(),
                done@.len() == i,
                rules::lower_fields(self@, fields@, 0, Seq::empty()) == rules::lower_fields(
                    self@,
                    fields@,
                    i as int,
                    done@,
                ),
            decreases fields@.len() - i,
        {
            let at = fields[i].ident.range;
            let type_id = match self.node_types.get(at) {
                Some(type_id) => type_id,
                None => {
                    return Err(Diag::new(DiagKind::IceMissingType, at));
                },
            };
            if self.ctx.register_count >= usize::MAX - done.len() {
                return Err(Diag::new(DiagKind::IceOutOfRegisters, at));
            }
            done.push(Bind { register: self.ctx.register_count + done.len(), type_id });
            i += 1;
        }
        Ok(done)
    }

    /// See [`rules::lower_type_def`].
    pub fn build_type_def_stmt(&mut self, type_def: &TypeDefStmt) -> (r: Result<bool, Diag>)
        ensures
            old(self)@.sound() ==> final(self)@.sound(),
            r is Ok ==> final(self)@.ctx.scopes.len() == old(self)@.ctx.scopes.len(),
            final(self).type_store == old(self).type_store,
            final(self).node_types == old(self).node_types,
            BuiltStmt::of(final(self)@, r) == rules::lower_type_def(old(self)@, *type_def),
    {
        match &type_def.kind {
            TypeDefKind::Alias(_) => Ok(false),
            TypeDefKind::Struct(def) => {
                let fields = match self.build_fields(&def.fields) {
                    Ok(fields) => fields,
                    Err(diag) => {
                        return Err(diag);
                    },
                };
                proof {
                    lemma_fields_fit(self@, def.fields@, 0, Seq::empty());
                }
                let count = fields.len();
                let ghost before = self@;
                self.ir.add_struct(StructInstr { struct_id: type_def.name.text.clone(), fields });
                self.ctx.register_count = self.ctx.register_count + count;
                proof {
                    if before.sound() {
                        super::sound::lemma_sound_frame(before, self@);
                    }
                }
                Ok(false)
            },
        }
    }

    /// Room for each parameter: see [`rules::lower_params`].
    #[verifier::loop_isolation(false)]
    pub fn build_params(&mut self, params: &Vec<Binding>, types: &Vec<TypeId>) -> (r: Result<
        Vec<Bind>,
        Diag,
    >)
        ensures
            old(self)@.sound() ==> final(self)@.sound(),
            final(self).type_store == old(self).type_store,
            final(self).node_types == old(self).node_types,
            final(self)@.ctx.scopes.len() == old(self)@.ctx.scopes.len(),
            BuiltBinds::of(final(self)@, r) == rules::lower_params(
                old(self)@,
                params@,
                types@,
                0,
                Seq::empty(),
            ),
    {
        let ghost goal = rules::lower_params(self@, params@, types@, 0, Seq::empty());
        let mut done: Vec<Bind> = Vec::new();
        let mut i: usize = 0;
        while i < params.len() && i < types.len()
            invariant
                self.type_store == old(self).type_store,
                self.node_types == old(self).node_types,
                old(self)@.sound() ==> self@.sound(),
                self@.ctx.scopes.len() == old(self)@.ctx.scopes.len(),
                goal == rules::lower_params(self@, params@, types@, i as int, done@),
            decreases params@.len() - i,
        {
            let name = &params[i].ident;
            if self.ctx.scopes.len() == 0 {
                return Err(Diag::new(DiagKind::IceMisplaced, name.range));
            }
            if self.ctx.register_count == usize::MAX {
                return Err(Diag::new(DiagKind::IceOutOfRegisters, name.range));
            }
            let dest = Bind { register: self.ctx.register_count, type_id: types[i] };
            self.define(Instr::Salloc { dest });
            self.emit(
                Instr::SetValue {
                    dest: dest.value(),
                    src: IrBasicValue {
                        value: BasicValue::Global(name.text.clone()),
                        type_id: types[i],
                    },
                },
            );
            self.bind(name.text.clone(), dest.value());
            done.push(dest);
            i += 1;
        }
        Ok(done)
    }

    /// Lowers a statement: see [`rules::lower_stmt`].
    pub fn build_stmt(&mut self, stmt: &Stmt) -> (r: Result<bool, Diag>)
        ensures
            old(self)@.sound() ==> final(self)@.sound(),
            r is Ok ==> final(self)@.ctx.scopes.len() == old(self)@.ctx.scopes.len(),
            final(self).type_store == old(self).type_store,
            final(self).node_types == old(self).node_types,
            BuiltStmt::of(final(self)@, r) == rules::lower_stmt(old(self)@, *stmt),
        decreases stmt, 1nat,
    {
        match stmt {
            Stmt::Expr(e) => match e {
                Expr::Break(base) => self.build_jump(true, base.range),
                Expr::Skip(base) => self.build_jump(false, base.range),
                _ => match self.build_expr(e) {
                    Ok(_) => Ok(false),
                    Err(diag) => Err(diag),
                },
            },
            Stmt::Let(let_stmt) => self.build_let_stmt(let_stmt),
            Stmt::ConstDel(const_del) => self.build_const_stmt(const_del),
            Stmt::Fn(fn_stmt) => self.build_function(
                &None,
                &fn_stmt.name,
                &fn_stmt.params,
                &fn_stmt.body,
            ),
            Stmt::ConstFn(const_fn) => self.build_function(
                &None,
                &const_fn.name,
                &const_fn.params,
                &const_fn.body,
            ),
            Stmt::ExternFn(_) => Ok(false),
            Stmt::TypeDef(type_def) => self.build_type_def_stmt(type_def),
            Stmt::Impl(impl_stmt) => self.build_methods(
                &impl_stmt.self_name.text,
                &impl_stmt.items,
            ),
            Stmt::Ret(ret_stmt) => self.build_ret_stmt(ret_stmt),
            Stmt::Block(block) => self.build_block_stmt(block),
            Stmt::If(if_stmt) => self.build_if_stmt(if_stmt),
            Stmt::While(while_stmt) => self.build_while_stmt(while_stmt),
            Stmt::For(for_stmt) => self.build_for_stmt(for_stmt),
        }
    }

    pub fn build_let_stmt(&mut self, let_stmt: &LetStmt) -> (r: Result<bool, Diag>)
        ensures
            old(self)@.sound() ==> final(self)@.sound(),
            r is Ok ==> final(self)@.ctx.scopes.len() == old(self)@.ctx.scopes.len(),
            final(self).type_store == old(self).type_store,
            final(self).node_types == old(self).node_types,
            BuiltStmt::of(final(self)@, r) == rules::lower_let(old(self)@, *let_stmt),
            r is Ok ==> old(self)@.ctx.scopes.len() > 0 && final(self)@.ctx.top_frees() == (
            if rules::binds_on_heap(old(self)@, let_stmt.span()) {
                old(self)@.ctx.top_frees().push((final(self)@.ctx.registers - 1) as usize)
            } else {
                old(self)@.ctx.top_frees()
            }),
            r is Ok && old(self)@.sound() && rules::binds_on_heap(old(self)@, let_stmt.span())
                ==> super::sound::occurrences(
                old(self)@.ctx.top_frees(),
                (final(self)@.ctx.registers - 1) as usize,
            ) == 0,
        decreases let_stmt, 0nat,
    {
        let src = match self.build_expr(&let_stmt.expr) {
            Ok(src) => src,
            Err(diag) => {
                return Err(diag);
            },
        };
        proof {
            if old(self)@.sound() && self@.ctx.scopes.len() > 0 {
                lemma_not_held(self@, self@.ctx.registers);
            }
        }
        self.build_binding(&let_stmt.bind.ident.text, src, let_stmt.get_range())
    }

    pub fn build_const_stmt(&mut self, const_stmt: &ConstDelStmt) -> (r: Result<bool, Diag>)
        ensures
            old(self)@.sound() ==> final(self)@.sound(),
            r is Ok ==> final(self)@.ctx.scopes.len() == old(self)@.ctx.scopes.len(),
            final(self).type_store == old(self).type_store,
            final(self).node_types == old(self).node_types,
            BuiltStmt::of(final(self)@, r) == rules::lower_const(old(self)@, *const_stmt),
        decreases const_stmt, 0nat,
    {
        let src = match self.build_expr(&const_stmt.expr) {
            Ok(src) => src,
            Err(diag) => {
                return Err(diag);
            },
        };
        self.build_constant(&const_stmt.name.ident.text, src, const_stmt.get_range())
    }

    pub fn build_ret_stmt(&mut self, ret_stmt: &RetStmt) -> (r: Result<bool, Diag>)
        ensures
            old(self)@.sound() ==> final(self)@.sound(),
            r is Ok ==> final(self)@.ctx.scopes.len() == old(self)@.ctx.scopes.len(),
            final(self).type_store == old(self).type_store,
            final(self).node_types == old(self).node_types,
            BuiltStmt::of(final(self)@, r) == rules::lower_ret(old(self)@, *ret_stmt),
        decreases ret_stmt, 0nat,
    {
        let ret = match self.ctx.get_ret_type() {
            Some(ret) => ret,
            None => {
                return Err(Diag::new(DiagKind::IceMisplaced, ret_stmt.range));
            },
        };
        match &ret_stmt.expr {
            None => self.build_return(None, ret_stmt.range),
            Some(e) => {
                let src = match self.build_expr(e) {
                    Ok(src) => src,
                    Err(diag) => {
                        return Err(diag);
                    },
                };
                let value = return_value(self.type_store, ret, Some(src));
                self.build_return(value, ret_stmt.range)
            },
        }
    }

    /// Lowers the statements of a block: see [`rules::lower_stmts`].
    #[verifier::loop_isolation(false)]
    pub fn build_stmts(&mut self, stmts: &Vec<Stmt>) -> (r: Result<bool, Diag>)
        ensures
            old(self)@.sound() ==> final(self)@.sound(),
            r is Ok ==> final(self)@.ctx.scopes.len() == old(self)@.ctx.scopes.len(),
            final(self).type_store == old(self).type_store,
            final(self).node_types == old(self).node_types,
            BuiltStmt::of(final(self)@, r) == rules::lower_stmts(old(self)@, stmts@, 0),
        decreases stmts,
    {
        let ghost goal = rules::lower_stmts(self@, stmts@, 0);
        let mut i: usize = 0;
        while i < stmts.len()
            invariant
                self.type_store == old(self).type_store,
                self.node_types == old(self).node_types,
                old(self)@.sound() ==> self@.sound(),
                self@.ctx.scopes.len() == old(self)@.ctx.scopes.len(),
                goal == rules::lower_stmts(self@, stmts@, i as int),
            decreases stmts@.len() - i,
        {
            match self.build_stmt(&stmts[i]) {
                Ok(ended) => if ended {
                    return Ok(true);
                },
                Err(diag) => {
                    return Err(diag);
                },
            }
            i += 1;
        }
        Ok(false)
    }

    /// Leaves the innermost scope at its end: see [`rules::close_scope`].
    pub fn close_scope(&mut self, done: Result<bool, Diag>, then: Option<Label>) -> (r: Result<
        bool,
        Diag,
    >)
        requires
            done is Ok ==> old(self)@.ctx.scopes.len() > 0,
        ensures
            old(self)@.sound() ==> final(self)@.sound(),
            r is Ok ==> final(self)@.ctx.scopes.len() == old(self)@.ctx.scopes.len() - 1,
            final(self).type_store == old(self).type_store,
            final(self).node_types == old(self).node_types,
            BuiltStmt::of(final(self)@, r) == rules::close_scope(
                BuiltStmt::of(old(self)@, done),
                match then {
                    Some(label) => seq![InstrView::Jmp { label }],
                    None => Seq::empty(),
                },
            ),
    {
        match done {
            Err(diag) => Err(diag),
            Ok(ended) => {
                if !ended {
                    let frees = self.top_frees();
                    self.emit_frees(&frees);
                    let ghost before = self@;
                    match then {
                        Some(label) => {
                            self.emit(Instr::Jmp { label });
                            proof {
                                assert(before.ctx.block.instrs.push(InstrView::Jmp { label })
                                    =~= before.ctx.block.instrs + seq![InstrView::Jmp { label }]);
                            }
                        },
                        None => {
                            proof {
                                assert(before.ctx.block.instrs + Seq::<InstrView>::empty()
                                    =~= before.ctx.block.instrs);
                            }
                        },
                    }
                }
                self.pop();
                Ok(ended)
            },
        }
    }

    pub fn build_block_stmt(&mut self, block: &BlockStmt) -> (r: Result<bool, Diag>)
        ensures
            old(self)@.sound() ==> final(self)@.sound(),
            r is Ok ==> final(self)@.ctx.scopes.len() == old(self)@.ctx.scopes.len(),
            final(self).type_store == old(self).type_store,
            final(self).node_types == old(self).node_types,
            BuiltStmt::of(final(self)@, r) == rules::lower_block(old(self)@, *block),
        decreases block, 0nat,
    {
        self.push(FrameKind::Block);
        let done = self.build_stmts(&block.stmts);
        self.close_scope(done, None)
    }

    /// An arm of an `if` statement: see [`rules::lower_arm`].
    pub fn build_arm(&mut self, arm: &Stmt, join: Label) -> (r: Result<bool, Diag>)
        ensures
            old(self)@.sound() ==> final(self)@.sound(),
            r is Ok ==> final(self)@.ctx.scopes.len() == old(self)@.ctx.scopes.len(),
            final(self).type_store == old(self).type_store,
            final(self).node_types == old(self).node_types,
            BuiltStmt::of(final(self)@, r) == rules::lower_arm(old(self)@, *arm, join),
        decreases arm, 2nat,
    {
        self.push(FrameKind::Block);
        let done = self.build_stmt(arm);
        self.close_scope(done, Some(join))
    }

    /// The second arm of an `if` statement: see [`rules::lower_else`].
    pub fn build_else(&mut self, otherwise: &Option<Box<Stmt>>, join: Label) -> (r: Result<
        bool,
        Diag,
    >)
        ensures
            old(self)@.sound() ==> final(self)@.sound(),
            r is Ok ==> final(self)@.ctx.scopes.len() == old(self)@.ctx.scopes.len(),
            final(self).type_store == old(self).type_store,
            final(self).node_types == old(self).node_types,
            BuiltStmt::of(final(self)@, r) == rules::lower_else(old(self)@, *otherwise, join),
        decreases otherwise, 3nat,
    {
        match otherwise {
            Some(other) => self.build_arm(other, join),
            None => {
                self.emit(Instr::Jmp { label: join });
                Ok(false)
            },
        }
    }

    pub fn build_if_stmt(&mut self, if_stmt: &IfStmt) -> (r: Result<bool, Diag>)
        ensures
            old(self)@.sound() ==> final(self)@.sound(),
            r is Ok ==> final(self)@.ctx.scopes.len() == old(self)@.ctx.scopes.len(),
            final(self).type_store == old(self).type_store,
            final(self).node_types == old(self).node_types,
            BuiltStmt::of(final(self)@, r) == rules::lower_if_stmt(old(self)@, *if_stmt),
        decreases if_stmt, 0nat,
    {
        let IfStmt { cond, then: then_arm, otherwise, range } = if_stmt;
        let flag = match self.build_expr(cond) {
            Ok(flag) => flag,
            Err(diag) => {
                return Err(diag);
            },
        };
        let first_label = match self.take_labels(3, *range) {
            Ok(first_label) => first_label,
            Err(diag) => {
                return Err(diag);
            },
        };
        let then_label = Label(first_label);
        let else_label = Label(first_label + 1);
        let join_label = Label(first_label + 2);
        self.emit(Instr::Br { cond: flag, then_label, else_label });
        self.seal(then_label);
        let first = match self.build_arm(then_arm, join_label) {
            Ok(first) => first,
            Err(diag) => {
                return Err(diag);
            },
        };
        self.seal(else_label);
        let second = match self.build_else(otherwise, join_label) {
            Ok(second) => second,
            Err(diag) => {
                return Err(diag);
            },
        };
        self.seal(join_label);
        Ok(first && second)
    }

    pub fn build_while_stmt(&mut self, while_stmt: &WhileStmt) -> (r: Result<bool, Diag>)
        ensures
            old(self)@.sound() ==> final(self)@.sound(),
            r is Ok ==> final(self)@.ctx.scopes.len() == old(self)@.ctx.scopes.len(),
            final(self).type_store == old(self).type_store,
            final(self).node_types == old(self).node_types,
            BuiltStmt::of(final(self)@, r) == rules::lower_while(old(self)@, *while_stmt),
        decreases while_stmt, 0nat,
    {
        let first_label = match self.take_labels(3, while_stmt.range) {
            Ok(first_label) => first_label,
            Err(diag) => {
                return Err(diag);
            },
        };
        let test_label = Label(first_label);
        let body_label = Label(first_label + 1);
        let exit_label = Label(first_label + 2);
        self.emit(Instr::Jmp { label: test_label });
        self.seal(test_label);
        let flag = match self.build_expr(&while_stmt.test) {
            Ok(flag) => flag,
            Err(diag) => {
                return Err(diag);
            },
        };
        self.emit(Instr::Br { cond: flag, then_label: body_label, else_label: exit_label });
        self.seal(body_label);
        self.push(FrameKind::Loop { next: test_label, exit: exit_label });
        let done = self.build_stmt(&while_stmt.body);
        match self.close_scope(done, Some(test_label)) {
            Ok(_) => {},
            Err(diag) => {
                return Err(diag);
            },
        }
        self.seal(exit_label);
        Ok(false)
    }

    /// The two ends of a range: see [`rules::lower_range`].
    pub fn build_range(&mut self, e: &Expr) -> (r: Result<(IrBasicValue, IrBasicValue), Diag>)
        ensures
            old(self)@.sound() ==> final(self)@.sound(),
            r is Ok ==> final(self)@.ctx.scopes.len() == old(self)@.ctx.scopes.len(),
            final(self).type_store == old(self).type_store,
            final(self).node_types == old(self).node_types,
            BuiltEnds::of(final(self)@, r) == rules::lower_range(old(self)@, *e),
        decreases e, 0nat,
    {
        match e {
            Expr::Binary(binary) => {
                if !matches!(binary.operator.kind, OperatorKind::RANGE) {
                    return Err(Diag::new(DiagKind::IceMisplaced, e.get_range()));
                }
                let first = match self.build_expr(&binary.left) {
                    Ok(first) => first,
                    Err(diag) => {
                        return Err(diag);
                    },
                };
                let last = match self.build_expr(&binary.right) {
                    Ok(last) => last,
                    Err(diag) => {
                        return Err(diag);
                    },
                };
                Ok((first, last))
            },
            Expr::Group(group) => self.build_range(&group.expr),
            _ => Err(Diag::new(DiagKind::IceMisplaced, e.get_range())),
        }
    }

    pub fn build_for_stmt(&mut self, for_stmt: &ForStmt) -> (r: Result<bool, Diag>)
        ensures
            old(self)@.sound() ==> final(self)@.sound(),
            r is Ok ==> final(self)@.ctx.scopes.len() == old(self)@.ctx.scopes.len(),
            final(self).type_store == old(self).type_store,
            final(self).node_types == old(self).node_types,
            BuiltStmt::of(final(self)@, r) == rules::lower_for(old(self)@, *for_stmt),
        decreases for_stmt, 1nat,
    {
        let (from, to) = match self.build_range(&for_stmt.iterable) {
            Ok(ends) => ends,
            Err(diag) => {
                return Err(diag);
            },
        };
        let at = for_stmt.iterable.get_range();
        let handle = match self.node_types.get(at) {
            Some(handle) => handle,
            None => {
                return Err(Diag::new(DiagKind::IceMissingType, at));
            },
        };
        let item = match self.type_store.get_type(handle) {
            Some(Type::Range { item }) => *item,
            _ => {
                return Err(Diag::new(DiagKind::IceMissingType, at));
            },
        };
        if self.ctx.register_count > usize::MAX - 5 || self.ctx.label_count > usize::MAX - 4 {
            return Err(Diag::new(DiagKind::IceOutOfRegisters, for_stmt.range));
        }
        self.build_for_loop(for_stmt, from.with_new_type(item), to.with_new_type(item), item)
    }

    /// Opens a `for` loop: see [`rules::for_head`].
    pub fn build_for_head(
        &mut self,
        for_stmt: &ForStmt,
        from: IrBasicValue,
        to: IrBasicValue,
        item: TypeId,
    )
        requires
            old(self)@.has_registers(5),
            old(self)@.has_labels(4),
        ensures
            old(self)@.sound() ==> final(self)@.sound(),
            final(self).type_store == old(self).type_store,
            final(self).node_types == old(self).node_types,
            final(self)@ == rules::for_head(old(self)@, *for_stmt, from, to, item),
            final(self)@.ctx.scopes.len() == old(self)@.ctx.scopes.len() + 1,
    {
        let first_label = self.ctx.label_count;
        let test_label = Label(first_label);
        let body_label = Label(first_label + 1);
        let step_label = Label(first_label + 2);
        let exit_label = Label(first_label + 3);
        let slot = Bind { register: self.ctx.register_count, type_id: item };
        let count = Bind { register: self.ctx.register_count + 1, type_id: TypeId::usize() };
        self.define(Instr::Salloc { dest: slot });
        self.emit(Instr::SetValue { dest: slot.value(), src: from });
        match &for_stmt.index {
            Some(_) => {
                self.define(Instr::Salloc { dest: count });
                self.emit(
                    Instr::SetValue {
                        dest: count.value(),
                        src: IrBasicValue { value: BasicValue::Int(0), type_id: TypeId::usize() },
                    },
                );
            },
            None => {},
        }
        self.new_labels(4);
        self.emit(Instr::Jmp { label: test_label });
        self.seal(test_label);
        let flag = Bind { register: self.ctx.register_count, type_id: TypeId::bool() };
        self.define(Instr::Bin { op: OperatorKind::LT, dest: flag, left: slot.value(), right: to });
        self.emit(
            Instr::Br { cond: flag.value(), then_label: body_label, else_label: exit_label },
        );
        self.seal(body_label);
        self.push(FrameKind::Loop { next: step_label, exit: exit_label });
        self.bind(for_stmt.value.text.clone(), slot.value());
        match &for_stmt.index {
            Some(index) => {
                self.bind(index.text.clone(), count.value());
            },
            None => {},
        }
    }

    /// Closes a `for` loop that was opened in the state `start`: see
    /// [`rules::for_tail`].
    fn build_for_tail(
        &mut self,
        Ghost(start): Ghost<rules::BuildView>,
        for_stmt: &ForStmt,
        item: TypeId,
        first_register: usize,
        first_label: usize,
    )
        requires
            old(self)@.has_registers(2),
            start.has_labels(4),
            start.has_registers(2),
            first_register == start.ctx.registers,
            first_label == start.ctx.labels,
        ensures
            old(self)@.sound() ==> final(self)@.sound(),
            final(self).type_store == old(self).type_store,
            final(self).node_types == old(self).node_types,
            final(self)@ == rules::for_tail(old(self)@, start, *for_stmt, item),
            final(self)@.ctx.scopes.len() == old(self)@.ctx.scopes.len(),
    {
        let test_label = Label(first_label);
        let step_label = Label(first_label + 2);
        let exit_label = Label(first_label + 3);
        let slot = Bind { register: first_register, type_id: item };
        let count = Bind { register: first_register + 1, type_id: TypeId::usize() };
        self.seal(step_label);
        let next = Bind { register: self.ctx.register_count, type_id: item };
        self.define(
            Instr::Bin {
                op: OperatorKind::ADD,
                dest: next,
                left: slot.value(),
                right: IrBasicValue { value: BasicValue::Int(1), type_id: item },
            },
        );
        self.emit(Instr::SetValue { dest: slot.value(), src: next.value() });
        match &for_stmt.index {
            Some(_) => {
                let after = Bind { register: self.ctx.register_count, type_id: TypeId::usize() };
                self.define(
                    Instr::Bin {
                        op: OperatorKind::ADD,
                        dest: after,
                        left: count.value(),
                        right: IrBasicValue {
                            value: BasicValue::Int(1),
                            type_id: TypeId::usize(),
                        },
                    },
                );
                self.emit(Instr::SetValue { dest: count.value(), src: after.value() });
            },
            None => {},
        }
        self.emit(Instr::Jmp { label: test_label });
        self.seal(exit_label);
    }

    /// The loop of a `for` statement: see [`rules::for_loop`].
    pub fn build_for_loop(
        &mut self,
        for_stmt: &ForStmt,
        from: IrBasicValue,
        to: IrBasicValue,
        item: TypeId,
    ) -> (r: Result<bool, Diag>)
        requires
            old(self)@.has_registers(5),
            old(self)@.has_labels(4),
        ensures
            old(self)@.sound() ==> final(self)@.sound(),
            r is Ok ==> final(self)@.ctx.scopes.len() == old(self)@.ctx.scopes.len(),
            final(self).type_store == old(self).type_store,
            final(self).node_types == old(self).node_types,
            BuiltStmt::of(final(self)@, r) == rules::for_loop(
                old(self)@,
                *for_stmt,
                from,
                to,
                item,
            ),
        decreases for_stmt, 0nat,
    {
        let first_register = self.ctx.register_count;
        let first_label = self.ctx.label_count;
        let ghost start = self@;
        self.build_for_head(for_stmt, from, to, item);
        let done = self.build_stmt(&for_stmt.body);
        match self.close_scope(done, Some(Label(first_label + 2))) {
            Ok(_) => {},
            Err(diag) => {
                return Err(diag);
            },
        }
        if self.ctx.register_count > usize::MAX - 2 {
            return Err(Diag::new(DiagKind::IceOutOfRegisters, for_stmt.range));
        }
        self.build_for_tail(Ghost(start), for_stmt, item, first_register, first_label);
        Ok(false)
    }

    /// Ends a function body: see [`rules::lower_end`].
    pub fn build_end(&mut self, ret: TypeId, value: Option<IrBasicValue>, at: Range) -> (r: Result<
        bool,
        Diag,
    >)
        ensures
            old(self)@.sound() ==> final(self)@.sound(),
            r is Ok ==> final(self)@.ctx.scopes.len() == old(self)@.ctx.scopes.len(),
            final(self).type_store == old(self).type_store,
            final(self).node_types == old(self).node_types,
            BuiltStmt::of(final(self)@, r) == rules::lower_end(old(self)@, ret, value, at),
    {
        let value = return_value(self.type_store, ret, value);
        self.build_return(value, at)
    }

    /// Lowers the statements of a function body: see
    /// [`rules::lower_body_stmts`].
    #[verifier::loop_isolation(false)]
    pub fn build_body_stmts(&mut self, stmts: &Vec<Stmt>, ret: TypeId, at: Range) -> (r: Result<
        bool,
        Diag,
    >)
        ensures
            old(self)@.sound() ==> final(self)@.sound(),
            r is Ok ==> final(self)@.ctx.scopes.len() == old(self)@.ctx.scopes.len(),
            final(self).type_store == old(self).type_store,
            final(self).node_types == old(self).node_types,
            BuiltStmt::of(final(self)@, r) == rules::lower_body_stmts(
                old(self)@,
                stmts@,
                0,
                ret,
                at,
            ),
        decreases stmts,
    {
        let ghost goal = rules::lower_body_stmts(self@, stmts@, 0, ret, at);
        let mut i: usize = 0;
        while i < stmts.len()
            invariant
                self.type_store == old(self).type_store,
                self.node_types == old(self).node_types,
                old(self)@.sound() ==> self@.sound(),
                self@.ctx.scopes.len() == old(self)@.ctx.scopes.len(),
                goal == rules::lower_body_stmts(self@, stmts@, i as int, ret, at),
            decreases stmts@.len() - i,
        {
            let stmt = &stmts[i];
            let last = i == stmts.len() - 1;
            let value = match stmt {
                Stmt::Expr(e) => match e {
                    Expr::Break(_) => false,
                    Expr::Skip(_) => false,
                    _ => last,
                },
                _ => false,
            };
            if value {
                match stmt {
                    Stmt::Expr(e) => {
                        let src = match self.build_expr(e) {
                            Ok(src) => src,
                            Err(diag) => {
                                return Err(diag);
                            },
                        };
                        return self.build_end(ret, Some(src), at);
                    },
                    _ => {},
                }
            }
            match self.build_stmt(stmt) {
                Ok(ended) => if ended {
                    return Ok(true);
                },
                Err(diag) => {
                    return Err(diag);
                },
            }
            i += 1;
        }
        self.build_end(ret, None, at)
    }

    /// See [`rules::lower_body`].
    pub fn build_body(&mut self, body: &FnBody, ret: TypeId) -> (r: Result<bool, Diag>)
        ensures
            old(self)@.sound() ==> final(self)@.sound(),
            r is Ok ==> final(self)@.ctx.scopes.len() == old(self)@.ctx.scopes.len(),
            final(self).type_store == old(self).type_store,
            final(self).node_types == old(self).node_types,
            BuiltStmt::of(final(self)@, r) == rules::lower_body(old(self)@, *body, ret),
        decreases body, 0nat,
    {
        match body {
            FnBody::Block(block) => self.build_body_stmts(&block.stmts, ret, block.range),
            FnBody::Expr(e) => {
                let src = match self.build_expr(e) {
                    Ok(src) => src,
                    Err(diag) => {
                        return Err(diag);
                    },
                };
                self.build_end(ret, Some(src), e.get_range())
            },
        }
    }

    /// Completes the function under construction: see
    /// [`rules::BuildView::finish_function`].
    pub fn finish_function(
        &mut self,
        owner: Option<String>,
        name: String,
        params: Vec<Bind>,
        ret: TypeId,
    )
        ensures
            old(self)@.sound() ==> final(self)@.sound(),
            final(self).type_store == old(self).type_store,
            final(self).node_types == old(self).node_types,
            final(self)@ == old(self)@.finish_function(owner, name, params@, ret),
            old(self)@.ctx.scopes.len() > 0 ==> final(self)@.ctx.scopes.len() == old(
                self,
            )@.ctx.scopes.len() - 1,
    {
        let func = Function::new(owner, name, params, ret);
        self.push_function_with_blocks(func);
        self.exit_fn_scope();
    }

    /// Lowers a function: see [`rules::lower_function`].
    pub fn build_function(
        &mut self,
        owner: &Option<String>,
        name: &Ident,
        params: &Vec<Binding>,
        body: &FnBody,
    ) -> (r: Result<bool, Diag>)
        ensures
            old(self)@.sound() ==> final(self)@.sound(),
            r is Ok ==> final(self)@.ctx.scopes.len() == old(self)@.ctx.scopes.len(),
            final(self).type_store == old(self).type_store,
            final(self).node_types == old(self).node_types,
            BuiltStmt::of(final(self)@, r) == rules::lower_function(
                old(self)@,
                *owner,
                *name,
                params@,
                *body,
            ),
        decreases body, 1nat,
    {
        let fn_type = match self.node_types.get(name.range) {
            Some(fn_type) => fn_type,
            None => {
                return Err(Diag::new(DiagKind::IceMissingType, name.range));
            },
        };
        if self.ctx.label_count == usize::MAX {
            return Err(Diag::new(DiagKind::IceOutOfRegisters, name.range));
        }
        let (types, ret) = fn_parts(self.type_store, fn_type);
        self.suspend();
        self.push(FrameKind::Function { ret });
        let binds = match self.build_params(params, &types) {
            Ok(binds) => binds,
            Err(diag) => {
                return Err(diag);
            },
        };
        match self.build_body(body, ret) {
            Ok(_) => {},
            Err(diag) => {
                return Err(diag);
            },
        }
        self.finish_function(copy_owner(owner), name.text.clone(), binds, ret);
        Ok(false)
    }

    /// Lowers the functions of an `impl`: see [`rules::lower_methods`].
    #[verifier::loop_isolation(false)]
    pub fn build_methods(&mut self, owner: &String, items: &Vec<FnStmt>) -> (r: Result<bool, Diag>)
        ensures
            old(self)@.sound() ==> final(self)@.sound(),
            r is Ok ==> final(self)@.ctx.scopes.len() == old(self)@.ctx.scopes.len(),
            final(self).type_store == old(self).type_store,
            final(self).node_types == old(self).node_types,
            BuiltStmt::of(final(self)@, r) == rules::lower_methods(old(self)@, *owner, items@, 0),
        decreases items,
    {
        let ghost goal = rules::lower_methods(self@, *owner, items@, 0);
        let mut i: usize = 0;
        while i < items.len()
            invariant
                self.type_store == old(self).type_store,
                self.node_types == old(self).node_types,
                old(self)@.sound() ==> self@.sound(),
                self@.ctx.scopes.len() == old(self)@.ctx.scopes.len(),
                goal == rules::lower_methods(self@, *owner, items@, i as int),
            decreases items@.len() - i,
        {
            let item = &items[i];
            let holder = Some(owner.clone());
            match self.build_function(&holder, &item.name, &item.params, &item.body) {
                Ok(_) => {},
                Err(diag) => {
                    return Err(diag);
                },
            }
            i += 1;
        }
        Ok(false)
    }

    /// Lowers a program and hands out what was built: see
    /// [`rules::lower_program`]. No register is defined twice in what is
    /// handed out. The builder is left with an empty program.
    pub fn build(&mut self, program: &Program) -> (r: Result<IR, Diag>)
        ensures
            final(self).type_store == old(self).type_store,
            final(self).node_types == old(self).node_types,
            match r {
                Ok(ir) => rules::lower_program(old(self)@, program.stmts@) == Ok::<IrView, Diag>(
                    ir@,
                ) && (old(self)@.sound() ==> super::sound::single_assignment(ir@)),
                Err(diag) => rules::lower_program(old(self)@, program.stmts@) == Err::<
                    IrView,
                    Diag,
                >(diag),
            },
    {
        match self.build_stmts(&program.stmts) {
            Ok(_) => {},
            Err(diag) => {
                return Err(diag);
            },
        }
        let ghost done = self@;
        let label = self.ctx.block.label;
        let blocks = self.ctx.block.take_blocks(label);
        let mut ir = IR::new();
        std::mem::swap(&mut self.ir, &mut ir);
        ir.top = blocks;
        proof {
            reveal(rules::BuildView::sound);
            if old(self)@.sound() {
                assert forall|r: usize| #[trigger] super::sound::defs_in_ir(ir@, r) <= 1 by {
                    super::sound::lemma_defs_blocks_push(
                        done.ctx.block.done,
                        crate::ir::BlockView {
                            label: done.ctx.block.label,
                            instrs: done.ctx.block.instrs,
                        },
                        r,
                    );
                    assert(super::sound::total_defs(done, r) <= super::sound::at_most(done, r));
                }
            }
        }
        Ok(ir)
    }
}

/// A sound state records no release of a register that it did not take.
pub proof fn lemma_not_held(b: rules::BuildView, register: usize)
    requires
        b.sound(),
        register >= b.ctx.registers,
        b.ctx.scopes.len() > 0,
    ensures
        super::sound::occurrences(b.ctx.top_frees(), register) == 0,
{
    reveal(rules::BuildView::sound);
    assert(super::sound::held(b.ctx.scopes, register) <= super::sound::at_most(b, register));
}

/// Where every field gets a register, the registers that they take are
/// there to take.
pub proof fn lemma_fields_fit(
    b: rules::BuildView,
    fields: Seq<crate::ast::FieldType>,
    i: int,
    done: Seq<Bind>,
)
    requires
        b.has_registers(done.len() as int),
    ensures
        rules::lower_fields(b, fields, i, done) matches Ok(binds) ==> b.has_registers(
            binds.len() as int,
        ),
    decreases fields.len() - i,
{
    if 0 <= i < fields.len() {
        match b.node(fields[i].ident.range) {
            Some(type_id) => {
                if b.has_registers(done.len() as int + 1) {
                    lemma_fields_fit(
                        b,
                        fields,
                        i + 1,
                        done.push(
                            Bind { register: (b.ctx.registers + done.len()) as usize, type_id },
                        ),
                    );
                }
            },
            None => {},
        }
    }
}

} // verus!
