//! What holds of everything that the builder emits: no register is
//! defined twice, and no heap room is released twice.

use vstd::prelude::*;
use crate::ir::{BlockView, FunctionView, InstrView, IrView};
use super::context::{free_instrs, frees_to_function, BufferView, ScopeView};
use super::rules::BuildView;

verus! {

/// Number of instructions among `instrs` that define the register `r`.
pub open spec fn defs_in(instrs: Seq<InstrView>, r: usize) -> nat
    decreases instrs.len(),
{
    if instrs.len() == 0 {
        0
    } else {
        defs_in(instrs.drop_last(), r) + if instrs.last().defined() == Some(r) {
            1nat
        } else {
            0nat
        }
    }
}

/// Number of instructions in `blocks` that define the register `r`.
pub open spec fn defs_in_blocks(blocks: Seq<BlockView>, r: usize) -> nat
    decreases blocks.len(),
{
    if blocks.len() == 0 {
        0
    } else {
        defs_in_blocks(blocks.drop_last(), r) + defs_in(blocks.last().instrs, r)
    }
}

pub open spec fn defs_in_buffer(buffer: BufferView, r: usize) -> nat {
    defs_in_blocks(buffer.done, r) + defs_in(buffer.instrs, r)
}

pub open spec fn defs_in_buffers(buffers: Seq<BufferView>, r: usize) -> nat
    decreases buffers.len(),
{
    if buffers.len() == 0 {
        0
    } else {
        defs_in_buffers(buffers.drop_last(), r) + defs_in_buffer(buffers.last(), r)
    }
}

/// Number of instructions in `funcs` that define the register `r`.
pub open spec fn defs_in_funcs(funcs: Seq<FunctionView>, r: usize) -> nat
    decreases funcs.len(),
{
    if funcs.len() == 0 {
        0
    } else {
        defs_in_funcs(funcs.drop_last(), r) + defs_in_blocks(funcs.last().blocks, r)
    }
}

/// Number of instructions in the program that define the register `r`.
pub open spec fn defs_in_ir(ir: IrView, r: usize) -> nat {
    defs_in(ir.globals, r) + defs_in_funcs(ir.funcs, r) + defs_in_blocks(ir.top, r)
}

/// Number of instructions that define the register `r`, in the program
/// built so far and in all that is under construction.
pub open spec fn total_defs(b: BuildView, r: usize) -> nat {
    defs_in_buffer(b.ctx.block, r) + defs_in_buffers(b.ctx.suspended, r) + defs_in_ir(b.ir, r)
}

/// How often `r` occurs among `registers`.
pub open spec fn occurrences(registers: Seq<usize>, r: usize) -> nat
    decreases registers.len(),
{
    if registers.len() == 0 {
        0
    } else {
        occurrences(registers.drop_last(), r) + if registers.last() == r {
            1nat
        } else {
            0nat
        }
    }
}

/// How often the scopes record that the heap room of `r` is to be
/// released.
pub open spec fn held(scopes: Seq<ScopeView>, r: usize) -> nat
    decreases scopes.len(),
{
    if scopes.len() == 0 {
        0
    } else {
        held(scopes.drop_last(), r) + occurrences(scopes.last().frees, r)
    }
}

/// How often the scopes from the innermost out to the innermost function
/// record that the heap room of `r` is to be released.
pub open spec fn held_to_function(scopes: Seq<ScopeView>, r: usize) -> nat
    decreases scopes.len(),
{
    if scopes.len() == 0 {
        0
    } else if scopes.last().kind is Function {
        occurrences(scopes.last().frees, r)
    } else {
        occurrences(scopes.last().frees, r) + held_to_function(scopes.drop_last(), r)
    }
}

/// Number of instructions among `instrs` that release the heap room of `r`.
pub open spec fn frees_in(instrs: Seq<InstrView>, r: usize) -> nat
    decreases instrs.len(),
{
    if instrs.len() == 0 {
        0
    } else {
        frees_in(instrs.drop_last(), r) + if instrs.last() == (InstrView::Free { value: r }) {
            1nat
        } else {
            0nat
        }
    }
}

/// One, for a register that was taken; none, for one that was not.
pub open spec fn at_most(b: BuildView, r: usize) -> nat {
    if r < b.ctx.registers {
        1
    } else {
        0
    }
}

impl BuildView {
    /// No register is defined by two instructions, none is defined that
    /// was not taken, and no scope records twice that a heap room is to be
    /// released.
    #[verifier::opaque]
    pub open spec fn sound(self) -> bool {
        &&& forall|r: usize| #[trigger] total_defs(self, r) <= at_most(self, r)
        &&& forall|r: usize| #[trigger] held(self.ctx.scopes, r) <= at_most(self, r)
    }
}

/// No register is defined by two instructions of the program.
pub open spec fn single_assignment(ir: IrView) -> bool {
    forall|r: usize| #[trigger] defs_in_ir(ir, r) <= 1
}

pub proof fn lemma_defs_push(instrs: Seq<InstrView>, instr: InstrView, r: usize)
    ensures
        defs_in(instrs.push(instr), r) == defs_in(instrs, r) + if instr.defined() == Some(r) {
            1nat
        } else {
            0nat
        },
{
    assert(instrs.push(instr).drop_last() =~= instrs);
}

pub proof fn lemma_defs_blocks_push(blocks: Seq<BlockView>, block: BlockView, r: usize)
    ensures
        defs_in_blocks(blocks.push(block), r) == defs_in_blocks(blocks, r) + defs_in(
            block.instrs,
            r,
        ),
{
    assert(blocks.push(block).drop_last() =~= blocks);
}

pub proof fn lemma_defs_buffers_push(buffers: Seq<BufferView>, buffer: BufferView, r: usize)
    ensures
        defs_in_buffers(buffers.push(buffer), r) == defs_in_buffers(buffers, r) + defs_in_buffer(
            buffer,
            r,
        ),
{
    assert(buffers.push(buffer).drop_last() =~= buffers);
}

pub proof fn lemma_defs_funcs_push(funcs: Seq<FunctionView>, func: FunctionView, r: usize)
    ensures
        defs_in_funcs(funcs.push(func), r) == defs_in_funcs(funcs, r) + defs_in_blocks(
            func.blocks,
            r,
        ),
{
    assert(funcs.push(func).drop_last() =~= funcs);
}

pub proof fn lemma_occurrences_push(registers: Seq<usize>, register: usize, r: usize)
    ensures
        occurrences(registers.push(register), r) == occurrences(registers, r) + if register == r {
            1nat
        } else {
            0nat
        },
{
    assert(registers.push(register).drop_last() =~= registers);
}

pub proof fn lemma_held_push(scopes: Seq<ScopeView>, scope: ScopeView, r: usize)
    ensures
        held(scopes.push(scope), r) == held(scopes, r) + occurrences(scope.frees, r),
{
    assert(scopes.push(scope).drop_last() =~= scopes);
}

pub proof fn lemma_held_top(scopes: Seq<ScopeView>, scope: ScopeView, r: usize)
    requires
        scopes.len() > 0,
    ensures
        held(scopes.update(scopes.len() - 1, scope), r) == held(scopes.drop_last(), r)
            + occurrences(scope.frees, r),
{
    assert(scopes.update(scopes.len() - 1, scope).drop_last() =~= scopes.drop_last());
}

pub proof fn lemma_frees_in_push(instrs: Seq<InstrView>, instr: InstrView, r: usize)
    ensures
        frees_in(instrs.push(instr), r) == frees_in(instrs, r) + if instr == (InstrView::Free {
            value: r,
        }) {
            1nat
        } else {
            0nat
        },
{
    assert(instrs.push(instr).drop_last() =~= instrs);
}

pub proof fn lemma_frees_in_add(a: Seq<InstrView>, b: Seq<InstrView>, r: usize)
    ensures
        frees_in(a + b, r) == frees_in(a, r) + frees_in(b, r),
    decreases b.len(),
{
    if b.len() == 0 {
        assert(a + b =~= a);
    } else {
        lemma_frees_in_add(a, b.drop_last(), r);
        assert((a + b).drop_last() =~= a + b.drop_last());
        assert((a + b).last() == b.last());
    }
}

/// The instructions that release a list of heap rooms release each room
/// as often as the list names it.
pub proof fn lemma_frees_of_list(frees: Seq<usize>, r: usize)
    ensures
        frees_in(free_instrs(frees), r) == occurrences(frees, r),
    decreases frees.len(),
{
    if frees.len() == 0 {
        assert(free_instrs(frees) =~= Seq::empty());
    } else {
        lemma_frees_of_list(frees.drop_last(), r);
        assert(free_instrs(frees) =~= free_instrs(frees.drop_last()).push(
            InstrView::Free { value: frees.last() },
        ));
        lemma_frees_in_push(
            free_instrs(frees.drop_last()),
            InstrView::Free { value: frees.last() },
            r,
        );
    }
}

pub proof fn lemma_held_to_function_le(scopes: Seq<ScopeView>, r: usize)
    ensures
        held_to_function(scopes, r) <= held(scopes, r),
    decreases scopes.len(),
{
    if scopes.len() > 0 {
        lemma_held_to_function_le(scopes.drop_last(), r);
    }
}

/// What a `ret` emits releases each heap room as often as the scopes of
/// the function record it.
pub proof fn lemma_frees_to_function(scopes: Seq<ScopeView>, r: usize)
    requires
        frees_to_function(scopes) is Some,
    ensures
        frees_in(frees_to_function(scopes)->Some_0, r) == held_to_function(scopes, r),
    decreases scopes.len(),
{
    if scopes.len() > 0 {
        lemma_frees_of_list(scopes.last().frees, r);
        if !(scopes.last().kind is Function) {
            lemma_frees_to_function(scopes.drop_last(), r);
            lemma_frees_in_add(
                free_instrs(scopes.last().frees),
                frees_to_function(scopes.drop_last())->Some_0,
                r,
            );
        }
    }
}

/// At the end of a scope each heap room that the scope recorded is
/// released by exactly one instruction.
pub proof fn lemma_one_free_at_scope_end(b: BuildView, r: usize)
    requires
        b.sound(),
        b.ctx.scopes.len() > 0,
        occurrences(b.ctx.top_frees(), r) >= 1,
    ensures
        frees_in(free_instrs(b.ctx.top_frees()), r) == 1,
{
    reveal(BuildView::sound);
    lemma_frees_of_list(b.ctx.top_frees(), r);
    assert(held(b.ctx.scopes, r) <= at_most(b, r));
}

/// At a `ret` each heap room that a scope of the function recorded is
/// released by exactly one instruction.
pub proof fn lemma_one_free_at_return(b: BuildView, r: usize)
    requires
        b.sound(),
        frees_to_function(b.ctx.scopes) is Some,
        held_to_function(b.ctx.scopes, r) >= 1,
    ensures
        frees_in(frees_to_function(b.ctx.scopes)->Some_0, r) == 1,
{
    reveal(BuildView::sound);
    lemma_frees_to_function(b.ctx.scopes, r);
    lemma_held_to_function_le(b.ctx.scopes, r);
    assert(held(b.ctx.scopes, r) <= at_most(b, r));
}

pub proof fn lemma_defs_in_funcs_ge(funcs: Seq<FunctionView>, i: int, r: usize)
    requires
        0 <= i < funcs.len(),
    ensures
        defs_in_blocks(funcs[i].blocks, r) <= defs_in_funcs(funcs, r),
    decreases funcs.len(),
{
    if i < funcs.len() - 1 {
        lemma_defs_in_funcs_ge(funcs.drop_last(), i, r);
    }
}

/// In a program in which no register is defined twice, no function
/// defines a register twice.
pub proof fn lemma_function_single_assignment(ir: IrView, i: int, r: usize)
    requires
        single_assignment(ir),
        0 <= i < ir.funcs.len(),
    ensures
        defs_in_blocks(ir.funcs[i].blocks, r) <= 1,
{
    lemma_defs_in_funcs_ge(ir.funcs, i, r);
    assert(defs_in_ir(ir, r) <= 1);
}

/// A state that differs from a sound one only in what does not hold
/// instructions, and that has taken no fewer registers, is sound.
pub proof fn lemma_sound_frame(before: BuildView, after: BuildView)
    requires
        before.sound(),
        after.ctx.block == before.ctx.block,
        after.ctx.suspended == before.ctx.suspended,
        after.ir.globals == before.ir.globals,
        after.ir.funcs == before.ir.funcs,
        after.ir.top == before.ir.top,
        after.ctx.registers >= before.ctx.registers,
        forall|r: usize| #[trigger] held(after.ctx.scopes, r) <= held(before.ctx.scopes, r),
    ensures
        after.sound(),
{
    reveal(BuildView::sound);
    assert forall|r: usize| #[trigger] total_defs(after, r) <= at_most(after, r) by {
        assert(total_defs(before, r) <= at_most(before, r));
    }
    assert forall|r: usize| #[trigger] held(after.ctx.scopes, r) <= at_most(after, r) by {
        assert(held(before.ctx.scopes, r) <= at_most(before, r));
    }
}

/// A state that differs from a sound one only in the instructions of the
/// current block, which define nothing more but perhaps the register that
/// was taken last, is sound.
pub proof fn lemma_sound_emit(before: BuildView, after: BuildView, instr: InstrView)
    requires
        before.sound(),
        after.ctx.block == before.ctx.block.emit(instr),
        after.ctx.suspended == before.ctx.suspended,
        after.ir == before.ir,
        after.ctx.scopes == before.ctx.scopes,
        instr.defined() is None && after.ctx.registers == before.ctx.registers || instr.defined()
            == Some(before.ctx.registers) && after.ctx.registers == before.ctx.registers + 1,
    ensures
        after.sound(),
{
    reveal(BuildView::sound);
    assert forall|r: usize| #[trigger] total_defs(after, r) <= at_most(after, r) by {
        lemma_defs_push(before.ctx.block.instrs, instr, r);
        assert(total_defs(before, r) <= at_most(before, r));
    }
    assert forall|r: usize| #[trigger] held(after.ctx.scopes, r) <= at_most(after, r) by {
        assert(held(before.ctx.scopes, r) <= at_most(before, r));
    }
}

} // verus!
