//! The builder: lowers a checked syntax tree to the intermediate
//! representation.

use vstd::prelude::*;
use crate::checker::context::nodes::NodeTypes;
use crate::checker::types::{TypeId, TypeStore};
use crate::diag::{Diag, DiagKind};
use crate::ir::{Block, Function, Instr, InstrView, IrBasicValue, IrView, Label, IR};
use crate::range::Range;

pub mod build_expr;
pub mod build_stmt;
pub mod context;
pub mod layout;
pub mod rules;
pub mod sound;

use context::{
    free_instrs, frees_to_function, frees_to_loop, BufferView, Context, ContextView, FrameKind,
    ScopeView,
};
use rules::BuildView;
use sound::{
    at_most, held, lemma_defs_blocks_push, lemma_defs_buffers_push, lemma_defs_funcs_push,
    lemma_defs_push, lemma_held_push, lemma_held_top, lemma_occurrences_push, lemma_sound_emit,
    lemma_sound_frame, total_defs,
};

verus! {

/// The builder: what the checker found out, the builder's environment,
/// and the program built so far.
pub struct Builder<'br> {
    pub type_store: &'br TypeStore,
    pub node_types: &'br NodeTypes,
    pub ctx: Context,
    pub ir: IR,
}

impl<'br> View for Builder<'br> {
    type V = BuildView;

    open spec fn view(&self) -> BuildView {
        BuildView {
            types: self.type_store@,
            nodes: self.node_types@,
            ctx: self.ctx@,
            ir: self.ir@,
        }
    }
}

/// The state of a builder that has built nothing: an empty program, and
/// one scope, for the code that stands outside any function.
pub open spec fn initial_view(types: Seq<crate::checker::types::TypeView>, nodes: Seq<(Range, TypeId)>) -> BuildView {
    BuildView {
        types,
        nodes,
        ctx: ContextView::initial().push(FrameKind::Block),
        ir: IrView::empty(),
    }
}

pub proof fn lemma_free_instrs_push(frees: Seq<usize>, register: usize)
    ensures
        free_instrs(frees.push(register)) == free_instrs(frees).push(
            InstrView::Free { value: register },
        ),
{
    assert(free_instrs(frees.push(register)) =~= free_instrs(frees).push(
        InstrView::Free { value: register },
    ));
}

pub proof fn lemma_free_instrs_add(a: Seq<usize>, b: Seq<usize>)
    ensures
        free_instrs(a + b) == free_instrs(a) + free_instrs(b),
{
    assert(free_instrs(a + b) =~= free_instrs(a) + free_instrs(b));
}

impl<'br> Builder<'br> {
    pub fn new(type_store: &'br TypeStore, node_types: &'br NodeTypes) -> (r: Builder<'br>)
        ensures
            r@ == initial_view(type_store@, node_types@),
            r@.sound(),
    {
        let mut ctx = Context::new();
        ctx.push_frame(FrameKind::Block);
        let builder = Builder { type_store, node_types, ctx, ir: IR::new() };
        proof {
            reveal(BuildView::sound);
            let b = builder@;
            assert forall|r: usize| #[trigger] total_defs(b, r) <= at_most(b, r) by {
                reveal_with_fuel(sound::defs_in, 2);
                reveal_with_fuel(sound::defs_in_blocks, 2);
                reveal_with_fuel(sound::defs_in_buffers, 2);
                reveal_with_fuel(sound::defs_in_funcs, 2);
            }
            assert forall|r: usize| #[trigger] held(b.ctx.scopes, r) <= at_most(b, r) by {
                lemma_held_push(
                    Seq::empty(),
                    ScopeView::fresh(FrameKind::Block),
                    r,
                );
            }
        }
        builder
    }

    /// The type that the checker recorded for the node at `range`.
    pub fn get_type_id(&self, range: Range) -> (r: Result<TypeId, Diag>)
        ensures
            r == match self@.node(range) {
                Some(type_id) => Ok::<TypeId, Diag>(type_id),
                None => Err::<TypeId, Diag>(Diag::at(DiagKind::IceMissingType, range)),
            },
    {
        match self.node_types.get(range) {
            Some(type_id) => Ok(type_id),
            None => Err(Diag::new(DiagKind::IceMissingType, range)),
        }
    }

    /// Appends an instruction to the current block.
    pub fn emit(&mut self, instr: Instr)
        ensures
            final(self)@ == old(self)@.emit(instr@),
            final(self).type_store == old(self).type_store,
            final(self).node_types == old(self).node_types,
            old(self)@.sound() && instr@.defined() is None ==> final(self)@.sound(),
    {
        proof {
            if self@.sound() && instr@.defined() is None {
                lemma_sound_emit(self@, self@.emit(instr@), instr@);
            }
        }
        self.ctx.block.add_instr(instr);
    }

    /// Appends an instruction that defines the next register.
    pub fn define(&mut self, instr: Instr)
        requires
            old(self)@.has_registers(1),
        ensures
            final(self)@ == old(self)@.define(instr@),
            final(self).type_store == old(self).type_store,
            final(self).node_types == old(self).node_types,
            old(self)@.sound() && instr@.defined() == Some(old(self)@.ctx.registers)
                ==> final(self)@.sound(),
    {
        proof {
            if self@.sound() && instr@.defined() == Some(self@.ctx.registers) {
                lemma_sound_emit(self@, self@.define(instr@), instr@);
            }
        }
        self.ctx.block.add_instr(instr);
        self.ctx.register_count = self.ctx.register_count + 1;
    }

    /// One `Free` for each of `frees`, in order.
    pub fn emit_frees(&mut self, frees: &Vec<usize>)
        ensures
            final(self)@ == old(self)@.emit_all(free_instrs(frees@)),
            final(self).type_store == old(self).type_store,
            final(self).node_types == old(self).node_types,
            old(self)@.sound() ==> final(self)@.sound(),
    {
        let mut i: usize = 0;
        proof {
            assert(free_instrs(frees@.take(0)) =~= Seq::empty());
            assert(self@.ctx.block.instrs + Seq::<InstrView>::empty() =~= self@.ctx.block.instrs);
        }
        while i < frees.len()
            invariant
                i <= frees@.len(),
                self@ == old(self)@.emit_all(free_instrs(frees@.take(i as int))),
                old(self)@.sound() ==> self@.sound(),
                self.type_store == old(self).type_store,
                self.node_types == old(self).node_types,
            decreases frees@.len() - i,
        {
            self.emit(Instr::Free { value: frees[i] });
            proof {
                assert(frees@.take(i + 1) =~= frees@.take(i as int).push(frees@[i as int]));
                lemma_free_instrs_push(frees@.take(i as int), frees@[i as int]);
                assert(self@.ctx.block.instrs =~= old(self)@.ctx.block.instrs + free_instrs(
                    frees@.take(i + 1),
                ));
            }
            i += 1;
        }
        proof {
            assert(frees@.take(i as int) =~= frees@);
        }
    }

    /// What the innermost scope must release at its end.
    pub fn top_frees(&self) -> (r: Vec<usize>)
        requires
            self@.ctx.scopes.len() > 0,
        ensures
            r@ == self@.ctx.top_frees(),
    {
        let scope = self.ctx.get_current_scope();
        copy_registers(&scope.frees)
    }

    /// Binds `name` in the innermost scope.
    pub fn bind(&mut self, name: String, value: IrBasicValue)
        requires
            old(self)@.ctx.scopes.len() > 0,
        ensures
            final(self)@ == old(self)@.bind(name, value),
            final(self).type_store == old(self).type_store,
            final(self).node_types == old(self).node_types,
            old(self)@.sound() ==> final(self)@.sound(),
    {
        proof {
            reveal(BuildView::sound);
            let before = self@;
            let after = before.bind(name, value);
            if before.sound() {
                assert forall|r: usize| #[trigger]
                    held(after.ctx.scopes, r) <= held(before.ctx.scopes, r) by {
                    if before.ctx.scopes.len() > 0 {
                        lemma_held_top(
                            before.ctx.scopes,
                            ScopeView {
                                locals: before.ctx.top().locals.push((name, value)),
                                ..before.ctx.top()
                            },
                            r,
                        );
                    }
                }
                lemma_sound_frame(before, after);
            }
        }
        self.ctx.add_local(name, value);
    }

    /// Records that the innermost scope must release the heap room that
    /// `register` names.
    pub fn mark_free(&mut self, register: usize)
        requires
            old(self)@.ctx.scopes.len() > 0,
        ensures
            final(self)@ == old(self)@.mark_free(register),
            final(self).type_store == old(self).type_store,
            final(self).node_types == old(self).node_types,
            old(self)@.sound() && register < old(self)@.ctx.registers && held(
                old(self)@.ctx.scopes,
                register,
            ) == 0 ==> final(self)@.sound(),
    {
        proof {
            reveal(BuildView::sound);
            let before = self@;
            let after = before.mark_free(register);
            if before.sound() && register < before.ctx.registers && held(
                before.ctx.scopes,
                register,
            ) == 0 {
                assert forall|r: usize| #[trigger] total_defs(after, r) <= at_most(after, r) by {
                    assert(total_defs(before, r) <= at_most(before, r));
                }
                assert forall|r: usize| #[trigger]
                    held(after.ctx.scopes, r) <= at_most(after, r) by {
                    assert(held(before.ctx.scopes, r) <= at_most(before, r));
                    if before.ctx.scopes.len() > 0 {
                        lemma_held_top(
                            before.ctx.scopes,
                            ScopeView {
                                frees: before.ctx.top().frees.push(register),
                                ..before.ctx.top()
                            },
                            r,
                        );
                        lemma_occurrences_push(before.ctx.top().frees, register, r);
                    }
                }
            }
        }
        self.ctx.add_free_value(register);
    }

    /// Opens a scope of the given kind.
    pub fn push(&mut self, kind: FrameKind)
        ensures
            final(self)@ == old(self)@.push(kind),
            final(self).type_store == old(self).type_store,
            final(self).node_types == old(self).node_types,
            old(self)@.sound() ==> final(self)@.sound(),
    {
        proof {
            reveal(BuildView::sound);
            let before = self@;
            let after = before.push(kind);
            if before.sound() {
                assert forall|r: usize| #[trigger]
                    held(after.ctx.scopes, r) <= held(before.ctx.scopes, r) by {
                    lemma_held_push(
                        before.ctx.scopes,
                        ScopeView::fresh(kind),
                        r,
                    );
                }
                lemma_sound_frame(before, after);
            }
        }
        self.ctx.push_frame(kind);
    }

    /// Leaves the innermost scope.
    pub fn pop(&mut self)
        ensures
            final(self)@ == old(self)@.pop(),
            final(self).type_store == old(self).type_store,
            final(self).node_types == old(self).node_types,
            old(self)@.sound() ==> final(self)@.sound(),
    {
        proof {
            reveal(BuildView::sound);
            let before = self@;
            if before.sound() {
                lemma_sound_frame(before, before.pop());
            }
        }
        self.ctx.pop_scope();
    }

    /// What a `ret` must release: see [`frees_to_function`].
    pub fn function_frees(&self) -> (r: Option<Vec<usize>>)
        ensures
            match r {
                Some(frees) => frees_to_function(self@.ctx.scopes) == Some(free_instrs(frees@)),
                None => frees_to_function(self@.ctx.scopes) is None,
            },
    {
        let mut out: Vec<usize> = Vec::new();
        let mut i = self.ctx.scopes.len();
        proof {
            assert(self@.ctx.scopes.take(i as int) =~= self@.ctx.scopes);
            assert(free_instrs(out@) =~= Seq::empty());
        }
        while i > 0
            invariant
                i <= self.ctx.scopes@.len(),
                frees_to_function(self@.ctx.scopes) == match frees_to_function(
                    self@.ctx.scopes.take(i as int),
                ) {
                    Some(outer) => Some(free_instrs(out@) + outer),
                    None => None,
                },
            decreases i,
        {
            i -= 1;
            let scope = &self.ctx.scopes[i];
            let ghost before = out@;
            proof {
                let upto = self@.ctx.scopes.take(i + 1);
                assert(upto.drop_last() =~= self@.ctx.scopes.take(i as int));
                assert(upto.last() == self@.ctx.scopes[i as int]);
            }
            append_registers(&mut out, &scope.frees);
            proof {
                lemma_free_instrs_add(before, scope.frees@);
                let own = free_instrs(scope.frees@);
                match frees_to_function(self@.ctx.scopes.take(i as int)) {
                    Some(outer) => {
                        assert(free_instrs(before) + (own + outer) =~= (free_instrs(before) + own)
                            + outer);
                    },
                    None => {},
                }
            }
            match scope.kind {
                FrameKind::Function { .. } => {
                    proof {
                        assert(free_instrs(out@) + Seq::<InstrView>::empty() =~= free_instrs(
                            out@,
                        ));
                    }
                    return Some(out);
                },
                _ => {},
            }
        }
        None
    }

    /// What a `break` or `skip` must release, and where each of them
    /// goes: see [`frees_to_loop`].
    pub fn loop_frees(&self) -> (r: Option<(Vec<usize>, Label, Label)>)
        ensures
            match r {
                Some((frees, next, exit)) => frees_to_loop(self@.ctx.scopes) == Some(
                    (free_instrs(frees@), next, exit),
                ),
                None => frees_to_loop(self@.ctx.scopes) is None,
            },
    {
        let mut out: Vec<usize> = Vec::new();
        let mut i = self.ctx.scopes.len();
        proof {
            assert(self@.ctx.scopes.take(i as int) =~= self@.ctx.scopes);
            assert(free_instrs(out@) =~= Seq::empty());
        }
        while i > 0
            invariant
                i <= self.ctx.scopes@.len(),
                frees_to_loop(self@.ctx.scopes) == match frees_to_loop(
                    self@.ctx.scopes.take(i as int),
                ) {
                    Some((outer, next, exit)) => Some((free_instrs(out@) + outer, next, exit)),
                    None => None,
                },
            decreases i,
        {
            i -= 1;
            let scope = &self.ctx.scopes[i];
            let ghost before = out@;
            proof {
                let upto = self@.ctx.scopes.take(i + 1);
                assert(upto.drop_last() =~= self@.ctx.scopes.take(i as int));
                assert(upto.last() == self@.ctx.scopes[i as int]);
            }
            append_registers(&mut out, &scope.frees);
            proof {
                lemma_free_instrs_add(before, scope.frees@);
                let own = free_instrs(scope.frees@);
                match frees_to_loop(self@.ctx.scopes.take(i as int)) {
                    Some((outer, next, exit)) => {
                        assert(free_instrs(before) + (own + outer) =~= (free_instrs(before) + own)
                            + outer);
                    },
                    None => {},
                }
            }
            match scope.kind {
                FrameKind::Loop { next, exit } => {
                    proof {
                        assert(free_instrs(out@) + Seq::<InstrView>::empty() =~= free_instrs(
                            out@,
                        ));
                    }
                    return Some((out, next, exit));
                },
                FrameKind::Function { .. } => {
                    return None;
                },
                FrameKind::Block => {},
            }
        }
        None
    }

    /// Completes the current block and opens the block `next`.
    pub fn seal(&mut self, next: Label)
        ensures
            final(self)@ == old(self)@.seal(next),
            final(self).type_store == old(self).type_store,
            final(self).node_types == old(self).node_types,
            old(self)@.sound() ==> final(self)@.sound(),
    {
        proof {
            reveal(BuildView::sound);
            let before = self@;
            let after = before.seal(next);
            if before.sound() {
                assert forall|r: usize| #[trigger] total_defs(after, r) <= at_most(after, r) by {
                    lemma_defs_blocks_push(
                        before.ctx.block.done,
                        crate::ir::BlockView {
                            label: before.ctx.block.label,
                            instrs: before.ctx.block.instrs,
                        },
                        r,
                    );
                    assert(total_defs(before, r) <= at_most(before, r));
                }
                assert forall|r: usize| #[trigger]
                    held(after.ctx.scopes, r) <= at_most(after, r) by {
                    assert(held(before.ctx.scopes, r) <= at_most(before, r));
                }
            }
        }
        self.ctx.block.seal(next);
    }

    /// Takes `count` labels, if so many are left, and returns the first.
    pub fn take_labels(&mut self, count: usize, at: Range) -> (r: Result<usize, Diag>)
        ensures
            final(self).type_store == old(self).type_store,
            final(self).node_types == old(self).node_types,
            match r {
                Ok(first) => old(self)@.has_labels(count as int) && first == old(self)@.ctx.labels
                    && final(self)@ == old(self)@.take_labels(count),
                Err(diag) => !old(self)@.has_labels(count as int) && final(self)@ == old(self)@
                    && diag == Diag::at(DiagKind::IceOutOfRegisters, at),
            },
            old(self)@.sound() ==> final(self)@.sound(),
    {
        if self.ctx.label_count > usize::MAX - count {
            return Err(Diag::new(DiagKind::IceOutOfRegisters, at));
        }
        Ok(self.new_labels(count))
    }

    /// Takes `count` labels and returns the first.
    pub fn new_labels(&mut self, count: usize) -> (r: usize)
        requires
            old(self)@.has_labels(count as int),
        ensures
            final(self).type_store == old(self).type_store,
            final(self).node_types == old(self).node_types,
            r == old(self)@.ctx.labels,
            final(self)@ == old(self)@.take_labels(count),
            old(self)@.sound() ==> final(self)@.sound(),
    {
        proof {
            if self@.sound() {
                lemma_sound_frame(self@, self@.take_labels(count));
            }
        }
        self.ctx.new_labels(count)
    }

    /// Takes up the buffer that was set aside last.
    pub fn resume(&mut self)
        ensures
            final(self).type_store == old(self).type_store,
            final(self).node_types == old(self).node_types,
            final(self)@ == old(self)@.on(old(self)@.ctx.resume()),
            old(self)@.sound() ==> final(self)@.sound(),
    {
        proof {
            reveal(BuildView::sound);
            let before = self@;
            let after = before.on(before.ctx.resume());
            if before.sound() {
                assert forall|r: usize| #[trigger] total_defs(after, r) <= at_most(after, r) by {
                    reveal_with_fuel(sound::defs_in, 2);
                    reveal_with_fuel(sound::defs_in_blocks, 2);
                    assert(total_defs(before, r) <= at_most(before, r));
                }
                assert forall|r: usize| #[trigger]
                    held(after.ctx.scopes, r) <= at_most(after, r) by {
                    assert(held(before.ctx.scopes, r) <= at_most(before, r));
                }
            }
        }
        self.ctx.resume();
    }

    /// Leaves the scope of the function whose body was lowered, with what
    /// the scope still records, and takes up the code around the
    /// function.
    pub fn exit_fn_scope(&mut self)
        ensures
            final(self).type_store == old(self).type_store,
            final(self).node_types == old(self).node_types,
            final(self)@ == old(self)@.on(old(self)@.ctx.pop().resume()),
            old(self)@.ctx.scopes.len() > 0 ==> final(self)@.ctx.scopes == old(
                self,
            )@.ctx.scopes.drop_last(),
            old(self)@.sound() ==> final(self)@.sound(),
    {
        self.pop();
        self.resume();
    }

    /// Sets the current buffer aside and opens one for a function.
    pub fn suspend(&mut self)
        requires
            old(self)@.has_labels(1),
        ensures
            final(self).type_store == old(self).type_store,
            final(self).node_types == old(self).node_types,
            final(self)@ == old(self)@.on(old(self)@.ctx.suspend()),
            old(self)@.sound() ==> final(self)@.sound(),
    {
        proof {
            reveal(BuildView::sound);
            let before = self@;
            let after = before.on(before.ctx.suspend());
            if before.sound() {
                assert forall|r: usize| #[trigger] total_defs(after, r) <= at_most(after, r) by {
                    lemma_defs_buffers_push(before.ctx.suspended, before.ctx.block, r);
                    reveal_with_fuel(sound::defs_in, 2);
                    reveal_with_fuel(sound::defs_in_blocks, 2);
                    assert(total_defs(before, r) <= at_most(before, r));
                }
                assert forall|r: usize| #[trigger]
                    held(after.ctx.scopes, r) <= at_most(after, r) by {
                    assert(held(before.ctx.scopes, r) <= at_most(before, r));
                }
            }
        }
        self.ctx.suspend();
    }

    /// Appends a constant to the constants of the program.
    pub fn add_global(&mut self, instr: Instr)
        requires
            old(self)@.has_registers(1),
        ensures
            final(self)@ == old(self)@.own(instr@),
            final(self).type_store == old(self).type_store,
            final(self).node_types == old(self).node_types,
            old(self)@.sound() && instr@.defined() == Some(old(self)@.ctx.registers)
                ==> final(self)@.sound(),
    {
        proof {
            reveal(BuildView::sound);
            let before = self@;
            let after = before.own(instr@);
            if before.sound() && instr@.defined() == Some(before.ctx.registers) {
                assert forall|r: usize| #[trigger] total_defs(after, r) <= at_most(after, r) by {
                    lemma_defs_push(before.ir.globals, instr@, r);
                    assert(total_defs(before, r) <= at_most(before, r));
                }
                assert forall|r: usize| #[trigger]
                    held(after.ctx.scopes, r) <= at_most(after, r) by {
                    assert(held(before.ctx.scopes, r) <= at_most(before, r));
                }
            }
        }
        self.ir.add_global(instr);
        self.ctx.register_count = self.ctx.register_count + 1;
    }

    /// Appends a function to the program.
    pub fn add_fn(&mut self, fn_ir: Function)
        ensures
            final(self)@ == (BuildView {
                ir: IrView { funcs: old(self)@.ir.funcs.push(fn_ir@), ..old(self)@.ir },
                ..old(self)@
            }),
            final(self).type_store == old(self).type_store,
            final(self).node_types == old(self).node_types,
    {
        self.ir.add_func(fn_ir);
    }

    /// Appends blocks to the code that stands outside any function.
    pub fn add_blocks(&mut self, blocks: Vec<Block>)
        ensures
            final(self)@ == (BuildView {
                ir: IrView {
                    top: old(self)@.ir.top + crate::ir::block_views(blocks@),
                    ..old(self)@.ir
                },
                ..old(self)@
            }),
            final(self).type_store == old(self).type_store,
            final(self).node_types == old(self).node_types,
    {
        let ghost before = self.ir.top@;
        let ghost added = blocks@;
        let mut blocks = blocks;
        self.ir.top.append(&mut blocks);
        proof {
            assert(crate::ir::block_views(self.ir.top@) =~= crate::ir::block_views(before)
                + crate::ir::block_views(added));
        }
    }

    /// Gives `func` the blocks that were emitted, the current one last,
    /// behind those that it has, and appends it to the program. The
    /// buffer is left empty.
    pub fn push_function_with_blocks(&mut self, func: Function)
        ensures
            final(self)@ == (BuildView {
                ir: IrView {
                    funcs: old(self)@.ir.funcs.push(
                        crate::ir::FunctionView {
                            blocks: func@.blocks + old(self)@.ctx.block.blocks(),
                            ..func@
                        },
                    ),
                    ..old(self)@.ir
                },
                ctx: ContextView {
                    block: BufferView::fresh(old(self)@.ctx.block.label),
                    ..old(self)@.ctx
                },
                ..old(self)@
            }),
            final(self).type_store == old(self).type_store,
            final(self).node_types == old(self).node_types,
            old(self)@.sound() && func@.blocks.len() == 0 ==> final(self)@.sound(),
    {
        proof {
            reveal(BuildView::sound);
            let before = self@;
            let added = crate::ir::FunctionView {
                blocks: func@.blocks + before.ctx.block.blocks(),
                ..func@
            };
            let after = BuildView {
                ir: IrView { funcs: before.ir.funcs.push(added), ..before.ir },
                ctx: ContextView {
                    block: BufferView::fresh(before.ctx.block.label),
                    ..before.ctx
                },
                ..before
            };
            if before.sound() && func@.blocks.len() == 0 {
                assert(added.blocks =~= before.ctx.block.blocks());
                assert forall|r: usize| #[trigger] total_defs(after, r) <= at_most(after, r) by {
                    lemma_defs_funcs_push(before.ir.funcs, added, r);
                    lemma_defs_blocks_push(
                        before.ctx.block.done,
                        crate::ir::BlockView {
                            label: before.ctx.block.label,
                            instrs: before.ctx.block.instrs,
                        },
                        r,
                    );
                    reveal_with_fuel(sound::defs_in, 2);
                    reveal_with_fuel(sound::defs_in_blocks, 2);
                    assert(total_defs(before, r) <= at_most(before, r));
                }
                assert forall|r: usize| #[trigger]
                    held(after.ctx.scopes, r) <= at_most(after, r) by {
                    assert(held(before.ctx.scopes, r) <= at_most(before, r));
                }
            }
        }
        let mut func = func;
        let label = self.ctx.block.label;
        let blocks = self.ctx.block.take_blocks(label);
        func.extend_blocks(blocks);
        self.ir.add_func(func);
    }
}

/// A copy of a list of registers.
pub fn copy_registers(registers: &Vec<usize>) -> (r: Vec<usize>)
    ensures
        r@ == registers@,
{
    let mut out: Vec<usize> = Vec::new();
    append_registers(&mut out, registers);
    proof {
        assert(Seq::<usize>::empty() + registers@ =~= registers@);
    }
    out
}

/// Appends the registers of `more` to `out`.
pub fn append_registers(out: &mut Vec<usize>, more: &Vec<usize>)
    ensures
        final(out)@ == old(out)@ + more@,
{
    let mut i: usize = 0;
    proof {
        assert(old(out)@ + more@.take(0) =~= old(out)@);
    }
    while i < more.len()
        invariant
            i <= more@.len(),
            out@ == old(out)@ + more@.take(i as int),
        decreases more@.len() - i,
    {
        out.push(more[i]);
        proof {
            assert(more@.take(i + 1) =~= more@.take(i as int).push(more@[i as int]));
            assert(out@ =~= old(out)@ + more@.take(i + 1));
        }
        i += 1;
    }
    proof {
        assert(more@.take(i as int) =~= more@);
    }
}

} // verus!
