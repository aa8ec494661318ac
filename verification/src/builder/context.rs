//! The builder's own environment: registers, labels, the names in scope
//! with the registers that hold them, the heap rooms to release, and the
//! blocks under construction.

use vstd::prelude::*;
use crate::checker::types::TypeId;
use crate::ir::{
    block_views, instr_views, Block, BlockView, Instr, InstrView, IrBasicValue, Label,
};

verus! {

/// What opened a scope of the builder.
#[derive(Debug, Clone, Copy, PartialEq, Eq, Structural)]
pub enum FrameKind {
    /// The body of a function that returns `ret`.
    Function { ret: TypeId },
    Block,
    /// The body of a loop: `next` is where `skip` goes, `exit` where
    /// `break` goes.
    Loop { next: Label, exit: Label },
}

/// One scope of the builder.
#[derive(Debug)]
pub struct Scope {
    /// The names bound in this scope with what holds their values, in the
    /// order of binding.
    pub locals: Vec<(String, IrBasicValue)>,
    /// The registers of the heap rooms that this scope must release.
    pub frees: Vec<usize>,
    /// The names whose values are used as they stand, without a load.
    pub dont_load: Vec<String>,
    pub kind: FrameKind,
}

/// Mathematical model of a [`Scope`].
pub struct ScopeView {
    pub locals: Seq<(String, IrBasicValue)>,
    pub frees: Seq<usize>,
    pub dont_load: Seq<String>,
    pub kind: FrameKind,
}

impl ScopeView {
    /// A scope of the given kind that holds nothing.
    pub open spec fn fresh(kind: FrameKind) -> ScopeView {
        ScopeView { locals: Seq::empty(), frees: Seq::empty(), dont_load: Seq::empty(), kind }
    }
}

impl View for Scope {
    type V = ScopeView;

    open spec fn view(&self) -> ScopeView {
        ScopeView {
            locals: self.locals@,
            frees: self.frees@,
            dont_load: self.dont_load@,
            kind: self.kind,
        }
    }
}

/// One of `names` has the characters of `key`.
pub open spec fn listed(names: Seq<String>, key: Seq<char>) -> bool
    decreases names.len(),
{
    if names.len() == 0 {
        false
    } else {
        names.last()@ == key || listed(names.drop_last(), key)
    }
}

/// What was bound last to `name` among `locals`.
pub open spec fn binding_of(locals: Seq<(String, IrBasicValue)>, name: Seq<char>) -> Option<
    IrBasicValue,
>
    decreases locals.len(),
{
    if locals.len() == 0 {
        None
    } else if locals.last().0@ == name {
        Some(locals.last().1)
    } else {
        binding_of(locals.drop_last(), name)
    }
}

/// What `name` is bound to in the innermost scope that binds it, no
/// further out than the innermost function.
pub open spec fn local_in(scopes: Seq<ScopeView>, name: Seq<char>) -> Option<IrBasicValue>
    decreases scopes.len(),
{
    if scopes.len() == 0 {
        None
    } else if binding_of(scopes.last().locals, name) is Some {
        binding_of(scopes.last().locals, name)
    } else if scopes.last().kind is Function {
        None
    } else {
        local_in(scopes.drop_last(), name)
    }
}

/// The return type of the innermost function.
pub open spec fn ret_type_in(scopes: Seq<ScopeView>) -> Option<TypeId>
    decreases scopes.len(),
{
    if scopes.len() == 0 {
        None
    } else {
        match scopes.last().kind {
            FrameKind::Function { ret } => Some(ret),
            _ => ret_type_in(scopes.drop_last()),
        }
    }
}

/// One `Free` for each register of `frees`, in order.
pub open spec fn free_instrs(frees: Seq<usize>) -> Seq<InstrView> {
    Seq::new(frees.len(), |i: int| InstrView::Free { value: frees[i] })
}

/// What a `ret` must release: the heap rooms of every scope from the
/// innermost out to the innermost function, the innermost scope first.
/// `None` outside any function.
pub open spec fn frees_to_function(scopes: Seq<ScopeView>) -> Option<Seq<InstrView>>
    decreases scopes.len(),
{
    if scopes.len() == 0 {
        None
    } else if scopes.last().kind is Function {
        Some(free_instrs(scopes.last().frees))
    } else {
        match frees_to_function(scopes.drop_last()) {
            Some(outer) => Some(free_instrs(scopes.last().frees) + outer),
            None => None,
        }
    }
}

/// What a `break` or `skip` must release, and the loop that it leaves:
/// the heap rooms of every scope from the innermost out to the innermost
/// loop. `None` outside any loop of the innermost function.
pub open spec fn frees_to_loop(scopes: Seq<ScopeView>) -> Option<(Seq<InstrView>, Label, Label)>
    decreases scopes.len(),
{
    if scopes.len() == 0 {
        None
    } else {
        match scopes.last().kind {
            FrameKind::Loop { next, exit } => Some((free_instrs(scopes.last().frees), next, exit)),
            FrameKind::Function { .. } => None,
            FrameKind::Block => match frees_to_loop(scopes.drop_last()) {
                Some((outer, next, exit)) => Some(
                    (free_instrs(scopes.last().frees) + outer, next, exit),
                ),
                None => None,
            },
        }
    }
}

/// The blocks of one function under construction: those that are
/// complete, and the one that instructions are appended to.
#[derive(Debug)]
pub struct BlockBuffer {
    pub label: Label,
    pub instrs: Vec<Instr>,
    pub done: Vec<Block>,
}

/// Mathematical model of a [`BlockBuffer`].
pub struct BufferView {
    pub label: Label,
    pub instrs: Seq<InstrView>,
    pub done: Seq<BlockView>,
}

impl BufferView {
    pub open spec fn fresh(label: Label) -> BufferView {
        BufferView { label, instrs: Seq::empty(), done: Seq::empty() }
    }

    pub open spec fn emit(self, instr: InstrView) -> BufferView {
        BufferView { instrs: self.instrs.push(instr), ..self }
    }

    pub open spec fn emit_all(self, instrs: Seq<InstrView>) -> BufferView {
        BufferView { instrs: self.instrs + instrs, ..self }
    }

    /// Completes the current block and opens the block `next`.
    pub open spec fn seal(self, next: Label) -> BufferView {
        BufferView {
            label: next,
            instrs: Seq::empty(),
            done: self.done.push(BlockView { label: self.label, instrs: self.instrs }),
        }
    }

    /// All blocks, the current one last.
    pub open spec fn blocks(self) -> Seq<BlockView> {
        self.done.push(BlockView { label: self.label, instrs: self.instrs })
    }
}

impl View for BlockBuffer {
    type V = BufferView;

    open spec fn view(&self) -> BufferView {
        BufferView {
            label: self.label,
            instrs: instr_views(self.instrs@),
            done: block_views(self.done@),
        }
    }
}

impl BlockBuffer {
    pub fn new(label: Label) -> (r: BlockBuffer)
        ensures
            r@ == BufferView::fresh(label),
    {
        let buffer = BlockBuffer { label, instrs: Vec::new(), done: Vec::new() };
        proof {
            assert(buffer@.instrs =~= Seq::empty());
            assert(buffer@.done =~= Seq::empty());
        }
        buffer
    }

    pub fn add_instr(&mut self, instr: Instr)
        ensures
            final(self)@ == old(self)@.emit(instr@),
    {
        proof {
            assert(instr_views(self.instrs@.push(instr)) =~= self@.instrs.push(instr@));
        }
        self.instrs.push(instr);
    }

    /// Completes the current block and opens the block `next`.
    pub fn seal(&mut self, next: Label)
        ensures
            final(self)@ == old(self)@.seal(next),
    {
        let mut instrs: Vec<Instr> = Vec::new();
        std::mem::swap(&mut self.instrs, &mut instrs);
        let block = Block { label: self.label, instrs };
        proof {
            assert(block_views(self.done@.push(block)) =~= old(self)@.done.push(block@));
            assert(instr_views(self.instrs@) =~= Seq::empty());
        }
        self.done.push(block);
        self.label = next;
    }

    /// Completes the current block and hands out all blocks. The buffer
    /// is left empty, at the block `next`.
    pub fn take_blocks(&mut self, next: Label) -> (r: Vec<Block>)
        ensures
            block_views(r@) == old(self)@.blocks(),
            final(self)@ == BufferView::fresh(next),
    {
        self.seal(next);
        let mut blocks: Vec<Block> = Vec::new();
        std::mem::swap(&mut self.done, &mut blocks);
        proof {
            assert(block_views(self.done@) =~= Seq::empty());
        }
        blocks
    }
}

/// Mathematical model of a [`Context`].
pub struct ContextView {
    pub scopes: Seq<ScopeView>,
    pub block: BufferView,
    /// The buffers of the functions whose bodies hold the function under
    /// construction, the outermost first.
    pub suspended: Seq<BufferView>,
    /// The number of the next register.
    pub registers: usize,
    /// The number of the next label.
    pub labels: usize,
}

impl ContextView {
    pub open spec fn initial() -> ContextView {
        ContextView {
            scopes: Seq::empty(),
            block: BufferView::fresh(Label(0)),
            suspended: Seq::empty(),
            registers: 1,
            labels: 1,
        }
    }

    pub open spec fn top(self) -> ScopeView {
        self.scopes.last()
    }

    pub open spec fn with_top(self, scope: ScopeView) -> ContextView {
        ContextView { scopes: self.scopes.update(self.scopes.len() - 1, scope), ..self }
    }

    pub open spec fn push(self, kind: FrameKind) -> ContextView {
        ContextView {
            scopes: self.scopes.push(ScopeView::fresh(kind)),
            ..self
        }
    }

    pub open spec fn pop(self) -> ContextView {
        if self.scopes.len() > 0 {
            ContextView { scopes: self.scopes.drop_last(), ..self }
        } else {
            self
        }
    }

    /// Binds `name` in the innermost scope.
    pub open spec fn bind(self, name: String, value: IrBasicValue) -> ContextView
        recommends
            self.scopes.len() > 0,
    {
        self.with_top(ScopeView { locals: self.top().locals.push((name, value)), ..self.top() })
    }

    /// Records that the innermost scope must release the heap room that
    /// `register` names.
    pub open spec fn mark_free(self, register: usize) -> ContextView
        recommends
            self.scopes.len() > 0,
    {
        self.with_top(ScopeView { frees: self.top().frees.push(register), ..self.top() })
    }

    /// Records that what `key` names in the innermost scope is not to be
    /// loaded.
    pub open spec fn mark_dont_load(self, key: String) -> ContextView
        recommends
            self.scopes.len() > 0,
    {
        self.with_top(ScopeView { dont_load: self.top().dont_load.push(key), ..self.top() })
    }

    /// What the innermost scope must release at its end.
    pub open spec fn top_frees(self) -> Seq<usize>
        recommends
            self.scopes.len() > 0,
    {
        self.top().frees
    }

    pub open spec fn local(self, name: Seq<char>) -> Option<IrBasicValue> {
        local_in(self.scopes, name)
    }

    pub open spec fn ret_type(self) -> Option<TypeId> {
        ret_type_in(self.scopes)
    }

    pub open spec fn emit(self, instr: InstrView) -> ContextView {
        ContextView { block: self.block.emit(instr), ..self }
    }

    pub open spec fn emit_all(self, instrs: Seq<InstrView>) -> ContextView {
        ContextView { block: self.block.emit_all(instrs), ..self }
    }

    /// Appends an instruction that defines the next register.
    pub open spec fn define(self, instr: InstrView) -> ContextView {
        ContextView {
            block: self.block.emit(instr),
            registers: (self.registers + 1) as usize,
            ..self
        }
    }

    pub open spec fn seal(self, next: Label) -> ContextView {
        ContextView { block: self.block.seal(next), ..self }
    }

    /// Takes `count` labels.
    pub open spec fn take_labels(self, count: usize) -> ContextView {
        ContextView { labels: (self.labels + count) as usize, ..self }
    }

    /// Takes the next register without defining it in the current block.
    pub open spec fn take_register(self) -> ContextView {
        ContextView { registers: (self.registers + 1) as usize, ..self }
    }

    /// Sets the current buffer aside and opens one for a function, which
    /// takes the next label for its entry block.
    pub open spec fn suspend(self) -> ContextView {
        ContextView {
            block: BufferView::fresh(Label(self.labels)),
            suspended: self.suspended.push(self.block),
            labels: (self.labels + 1) as usize,
            ..self
        }
    }

    /// Takes up the buffer that was set aside last.
    pub open spec fn resume(self) -> ContextView {
        if self.suspended.len() > 0 {
            ContextView {
                block: self.suspended.last(),
                suspended: self.suspended.drop_last(),
                ..self
            }
        } else {
            ContextView { block: BufferView::fresh(self.block.label), ..self }
        }
    }
}

/// The builder's environment.
#[derive(Debug)]
pub struct Context {
    pub scopes: Vec<Scope>,
    pub block: BlockBuffer,
    pub suspended: Vec<BlockBuffer>,
    pub register_count: usize,
    pub label_count: usize,
}

impl View for Context {
    type V = ContextView;

    open spec fn view(&self) -> ContextView {
        ContextView {
            scopes: self.scopes@.map_values(|s: Scope| s@),
            block: self.block@,
            suspended: self.suspended@.map_values(|b: BlockBuffer| b@),
            registers: self.register_count,
            labels: self.label_count,
        }
    }
}

impl Context {
    pub fn new() -> (r: Context)
        ensures
            r@ == ContextView::initial(),
    {
        let ctx = Context {
            scopes: Vec::new(),
            block: BlockBuffer::new(Label(0)),
            suspended: Vec::new(),
            register_count: 1,
            label_count: 1,
        };
        proof {
            assert(ctx@.scopes =~= Seq::empty());
            assert(ctx@.suspended =~= Seq::empty());
        }
        ctx
    }

    /// Opens a scope of the given kind.
    pub fn push_frame(&mut self, kind: FrameKind)
        ensures
            final(self)@ == old(self)@.push(kind),
    {
        let scope = Scope { locals: Vec::new(), frees: Vec::new(), dont_load: Vec::new(), kind };
        proof {
            assert(self.scopes@.push(scope).map_values(|s: Scope| s@) =~= self@.scopes.push(
                scope@,
            ));
        }
        self.scopes.push(scope);
    }

    /// Opens the scope of a function that returns `ret_type`, or a block
    /// scope where no return type is given.
    pub fn push_scope(&mut self, ret_type: Option<TypeId>)
        ensures
            final(self)@ == old(self)@.push(
                match ret_type {
                    Some(ret) => FrameKind::Function { ret },
                    None => FrameKind::Block,
                },
            ),
    {
        match ret_type {
            Some(ret) => self.push_frame(FrameKind::Function { ret }),
            None => self.push_frame(FrameKind::Block),
        }
    }

    pub fn pop_scope(&mut self)
        ensures
            final(self)@ == old(self)@.pop(),
    {
        if self.scopes.len() > 0 {
            proof {
                assert(self.scopes@.drop_last().map_values(|s: Scope| s@)
                    =~= self@.scopes.drop_last());
            }
            self.scopes.pop();
        }
    }

    /// The return type of the innermost function.
    pub fn get_ret_type(&self) -> (r: Option<TypeId>)
        ensures
            r == self@.ret_type(),
    {
        let mut i = self.scopes.len();
        proof {
            assert(self@.scopes.take(i as int) =~= self@.scopes);
        }
        while i > 0
            invariant
                i <= self.scopes@.len(),
                ret_type_in(self@.scopes) == ret_type_in(self@.scopes.take(i as int)),
            decreases i,
        {
            i -= 1;
            proof {
                let upto = self@.scopes.take(i + 1);
                assert(upto.drop_last() =~= self@.scopes.take(i as int));
                assert(upto.last() == self@.scopes[i as int]);
            }
            match self.scopes[i].kind {
                FrameKind::Function { ret } => {
                    return Some(ret);
                },
                _ => {},
            }
        }
        None
    }

    pub fn get_current_scope(&self) -> (r: &Scope)
        requires
            self@.scopes.len() > 0,
        ensures
            r@ == self@.top(),
    {
        &self.scopes[self.scopes.len() - 1]
    }

    /// The innermost scope, to change it in place.
    pub fn get_current_scope_mut(&mut self) -> (r: &mut Scope)
        requires
            old(self)@.scopes.len() > 0,
        ensures
            *r == old(self).scopes@.last(),
            final(self).scopes@ == old(self).scopes@.update(
                old(self).scopes@.len() - 1,
                *final(r),
            ),
            final(self).block == old(self).block,
            final(self).suspended == old(self).suspended,
            final(self).register_count == old(self).register_count,
            final(self).label_count == old(self).label_count,
    {
        let last = self.scopes.len() - 1;
        &mut self.scopes[last]
    }

    /// Takes the next register for a value of type `type_id`.
    pub fn new_register(&mut self, type_id: TypeId) -> (r: IrBasicValue)
        requires
            old(self)@.registers < usize::MAX,
        ensures
            final(self)@ == old(self)@.take_register(),
            r == IrBasicValue::register(old(self)@.registers, type_id),
    {
        let register = self.register_count;
        self.register_count = self.register_count + 1;
        IrBasicValue::register(register, type_id)
    }

    /// Takes `count` labels, the first of which is returned.
    pub fn new_labels(&mut self, count: usize) -> (r: usize)
        requires
            old(self)@.labels + count <= usize::MAX,
        ensures
            final(self)@ == old(self)@.take_labels(count),
            r == old(self)@.labels,
    {
        let first = self.label_count;
        self.label_count = self.label_count + count;
        first
    }

    /// Binds `key` in the innermost scope.
    pub fn add_local(&mut self, key: String, basic_value: IrBasicValue)
        requires
            old(self)@.scopes.len() > 0,
        ensures
            final(self)@ == old(self)@.bind(key, basic_value),
    {
        let mut scope = self.scopes.pop().unwrap();
        let ghost rest = self.scopes@;
        scope.locals.push((key, basic_value));
        proof {
            assert(rest.push(scope).map_values(|s: Scope| s@) =~= old(self)@.bind(
                key,
                basic_value,
            ).scopes);
        }
        self.scopes.push(scope);
    }

    /// Records that the innermost scope must release the heap room that
    /// `register` names.
    pub fn add_free_value(&mut self, register: usize)
        requires
            old(self)@.scopes.len() > 0,
        ensures
            final(self)@ == old(self)@.mark_free(register),
    {
        let mut scope = self.scopes.pop().unwrap();
        let ghost rest = self.scopes@;
        scope.frees.push(register);
        proof {
            assert(rest.push(scope).map_values(|s: Scope| s@) =~= old(self)@.mark_free(
                register,
            ).scopes);
        }
        self.scopes.push(scope);
    }

    /// Sets the current buffer aside and opens one for a function: see
    /// [`ContextView::suspend`].
    pub fn suspend(&mut self)
        requires
            old(self)@.labels < usize::MAX,
        ensures
            final(self)@ == old(self)@.suspend(),
    {
        let mut buffer = BlockBuffer::new(Label(self.label_count));
        std::mem::swap(&mut self.block, &mut buffer);
        proof {
            assert(self.suspended@.push(buffer).map_values(|b: BlockBuffer| b@)
                =~= old(self)@.suspended.push(buffer@));
        }
        self.suspended.push(buffer);
        self.label_count = self.label_count + 1;
    }

    /// Takes up the buffer that was set aside last: see
    /// [`ContextView::resume`].
    pub fn resume(&mut self)
        ensures
            final(self)@ == old(self)@.resume(),
    {
        if self.suspended.len() > 0 {
            proof {
                assert(self.suspended@.drop_last().map_values(|b: BlockBuffer| b@)
                    =~= old(self)@.suspended.drop_last());
            }
            let buffer = self.suspended.pop().unwrap();
            self.block = buffer;
        } else {
            self.block = BlockBuffer::new(self.block.label);
        }
    }

    /// Records that what `key` names in the innermost scope is used as it
    /// stands, without a load.
    pub fn add_dont_load(&mut self, key: String)
        requires
            old(self)@.scopes.len() > 0,
        ensures
            final(self)@ == old(self)@.mark_dont_load(key),
    {
        let mut scope = self.scopes.pop().unwrap();
        let ghost rest = self.scopes@;
        scope.dont_load.push(key);
        proof {
            assert(rest.push(scope).map_values(|s: Scope| s@) =~= old(self)@.mark_dont_load(
                key,
            ).scopes);
        }
        self.scopes.push(scope);
    }

    /// Whether the innermost scope records that what `key` names is not
    /// to be loaded.
    pub fn is_dont_load(&self, key: &str) -> (r: bool)
        requires
            self@.scopes.len() > 0,
        ensures
            r == listed(self@.top().dont_load, key@),
    {
        let names = &self.get_current_scope().dont_load;
        let mut i = names.len();
        proof {
            assert(names@.take(i as int) =~= names@);
        }
        while i > 0
            invariant
                i <= names@.len(),
                names@ == self@.top().dont_load,
                listed(names@, key@) == listed(names@.take(i as int), key@),
            decreases i,
        {
            i -= 1;
            proof {
                let upto = names@.take(i + 1);
                assert(upto.drop_last() =~= names@.take(i as int));
                assert(upto.last() == names@[i as int]);
            }
            if crate::checker::resolve::same_text(names[i].as_str(), key) {
                return true;
            }
        }
        false
    }

    /// What `name` is bound to: see [`local_in`].
    pub fn get_local(&self, name: &str) -> (r: Option<&IrBasicValue>)
        ensures
            match r {
                Some(value) => self@.local(name@) == Some(*value),
                None => self@.local(name@) is None,
            },
    {
        let mut i = self.scopes.len();
        proof {
            assert(self@.scopes.take(i as int) =~= self@.scopes);
        }
        while i > 0
            invariant
                i <= self.scopes@.len(),
                local_in(self@.scopes, name@) == local_in(self@.scopes.take(i as int), name@),
            decreases i,
        {
            i -= 1;
            proof {
                let upto = self@.scopes.take(i + 1);
                assert(upto.drop_last() =~= self@.scopes.take(i as int));
                assert(upto.last() == self@.scopes[i as int]);
            }
            let scope = &self.scopes[i];
            let found = find_binding(&scope.locals, name);
            if found.is_some() {
                return found;
            }
            match scope.kind {
                FrameKind::Function { .. } => {
                    return None;
                },
                _ => {},
            }
        }
        None
    }
}

/// What was bound last to `name`: see [`binding_of`].
pub fn find_binding<'a>(locals: &'a Vec<(String, IrBasicValue)>, name: &str) -> (r: Option<
    &'a IrBasicValue,
>)
    ensures
        match r {
            Some(value) => binding_of(locals@, name@) == Some(*value),
            None => binding_of(locals@, name@) is None,
        },
{
    let mut i = locals.len();
    proof {
        assert(locals@.take(i as int) =~= locals@);
    }
    while i > 0
        invariant
            i <= locals@.len(),
            binding_of(locals@, name@) == binding_of(locals@.take(i as int), name@),
        decreases i,
    {
        i -= 1;
        proof {
            let upto = locals@.take(i + 1);
            assert(upto.drop_last() =~= locals@.take(i as int));
            assert(upto.last() == locals@[i as int]);
        }
        if crate::checker::resolve::same_text(locals[i].0.as_str(), name) {
            return Some(&locals[i].1);
        }
    }
    None
}

impl Default for Context {
    fn default() -> (r: Context)
        ensures
            r@ == ContextView::initial(),
    {
        Context::new()
    }
}

} // verus!
