//! The intermediate representation: functions of basic blocks of
//! three-address instructions over numbered registers.

use vstd::prelude::*;
use crate::ast::OperatorKind;
use crate::checker::types::TypeId;

verus! {

/// What an operand is.
#[derive(Debug, Clone, PartialEq)]
pub enum BasicValue {
    /// The register of that number.
    Register(usize),
    /// An integer literal, by its value.
    Int(u64),
    /// A float literal, as it is written.
    Float(String),
    Str(String),
    Char(char),
    Bool(bool),
    /// A named symbol: a function, or a parameter as it comes in.
    Global(String),
    /// A function of an `impl`, by the names of the type and the function.
    Method { owner: String, name: String },
    /// No value.
    Void,
}

/// An operand with its type.
#[derive(Debug, Clone, PartialEq)]
pub struct IrBasicValue {
    pub value: BasicValue,
    pub type_id: TypeId,
}

impl BasicValue {
    pub fn duplicate(&self) -> (r: BasicValue)
        ensures
            r == *self,
    {
        match self {
            BasicValue::Register(n) => BasicValue::Register(*n),
            BasicValue::Int(v) => BasicValue::Int(*v),
            BasicValue::Float(text) => BasicValue::Float(text.clone()),
            BasicValue::Str(text) => BasicValue::Str(text.clone()),
            BasicValue::Char(c) => BasicValue::Char(*c),
            BasicValue::Bool(b) => BasicValue::Bool(*b),
            BasicValue::Global(name) => BasicValue::Global(name.clone()),
            BasicValue::Method { owner, name } => BasicValue::Method {
                owner: owner.clone(),
                name: name.clone(),
            },
            BasicValue::Void => BasicValue::Void,
        }
    }
}

impl IrBasicValue {
    #[verifier::allow_in_spec]
    pub fn new(value: BasicValue, type_id: TypeId) -> IrBasicValue
        returns
            (IrBasicValue { value, type_id }),
    {
        IrBasicValue { value, type_id }
    }

    /// The register of number `register`, holding a value of type `type_id`.
    #[verifier::allow_in_spec]
    pub fn register(register: usize, type_id: TypeId) -> IrBasicValue
        returns
            (IrBasicValue { value: BasicValue::Register(register), type_id }),
    {
        IrBasicValue { value: BasicValue::Register(register), type_id }
    }

    /// The operand that stands for no value.
    #[verifier::allow_in_spec]
    pub fn void() -> IrBasicValue
        returns
            (IrBasicValue { value: BasicValue::Void, type_id: TypeId::void() }),
    {
        IrBasicValue { value: BasicValue::Void, type_id: TypeId::void() }
    }

    #[verifier::allow_in_spec]
    pub fn is_register(&self) -> bool
        returns
            (self.value is Register),
    {
        match self.value {
            BasicValue::Register(_) => true,
            _ => false,
        }
    }

    #[verifier::allow_in_spec]
    pub fn get_type(&self) -> TypeId
        returns
            self.type_id,
    {
        self.type_id
    }

    /// The same operand, seen as a value of type `type_id`.
    pub open spec fn retag(self, type_id: TypeId) -> IrBasicValue {
        IrBasicValue { value: self.value, type_id }
    }

    pub fn with_new_type(&self, type_id: TypeId) -> (r: IrBasicValue)
        ensures
            r == self.retag(type_id),
    {
        IrBasicValue { value: self.value.duplicate(), type_id }
    }

    pub fn duplicate(&self) -> (r: IrBasicValue)
        ensures
            r == *self,
    {
        IrBasicValue { value: self.value.duplicate(), type_id: self.type_id }
    }
}

/// A register that an instruction defines, with the type of what it holds.
#[derive(Debug, Clone, Copy, PartialEq, Eq, Structural)]
pub struct Bind {
    pub register: usize,
    pub type_id: TypeId,
}

impl Bind {
    /// The register as an operand.
    #[verifier::allow_in_spec]
    pub fn value(&self) -> IrBasicValue
        returns
            (IrBasicValue { value: BasicValue::Register(self.register), type_id: self.type_id }),
    {
        IrBasicValue { value: BasicValue::Register(self.register), type_id: self.type_id }
    }
}

/// The name of a basic block.
#[derive(Debug, Clone, Copy, PartialEq, Eq, Structural, Hash)]
pub struct Label(pub usize);

/// The definition of a struct type: its name and a register for each field.
#[derive(Debug, PartialEq)]
pub struct StructInstr {
    pub struct_id: String,
    pub fields: Vec<Bind>,
}

/// Mathematical model of a [`StructInstr`].
pub struct StructView {
    pub struct_id: String,
    pub fields: Seq<Bind>,
}

impl View for StructInstr {
    type V = StructView;

    open spec fn view(&self) -> StructView {
        StructView { struct_id: self.struct_id, fields: self.fields@ }
    }
}

/// An instruction. Those with a `dest` of type [`Bind`] define that
/// register; `SetValue` and `Store` write to what an earlier one defined.
#[derive(Debug, PartialEq)]
pub enum Instr {
    /// Reserves room on the stack for a value of the type of `dest`.
    Salloc { dest: Bind },
    /// Reserves `size` bytes on the heap.
    Halloc { dest: Bind, size: u64 },
    /// Writes `src` to the room that `dest` names.
    SetValue { dest: IrBasicValue, src: IrBasicValue },
    /// Makes `dest` the owner of the constant `value`.
    Own { dest: Bind, value: IrBasicValue },
    /// Reads what the reference `src` points to.
    Load { dest: Bind, src: IrBasicValue },
    /// Writes `src` to what the reference `dest` points to.
    Store { dest: IrBasicValue, src: IrBasicValue },
    Bin { op: OperatorKind, dest: Bind, left: IrBasicValue, right: IrBasicValue },
    Un { op: OperatorKind, dest: Bind, src: IrBasicValue },
    Call { dest: Bind, callee: IrBasicValue, args: Vec<IrBasicValue> },
    Ret { value: Option<IrBasicValue> },
    Br { cond: IrBasicValue, then_label: Label, else_label: Label },
    Jmp { label: Label },
    /// Releases the heap room that the register `value` names.
    Free { value: usize },
}

/// Mathematical model of an [`Instr`].
pub enum InstrView {
    Salloc { dest: Bind },
    Halloc { dest: Bind, size: u64 },
    SetValue { dest: IrBasicValue, src: IrBasicValue },
    Own { dest: Bind, value: IrBasicValue },
    Load { dest: Bind, src: IrBasicValue },
    Store { dest: IrBasicValue, src: IrBasicValue },
    Bin { op: OperatorKind, dest: Bind, left: IrBasicValue, right: IrBasicValue },
    Un { op: OperatorKind, dest: Bind, src: IrBasicValue },
    Call { dest: Bind, callee: IrBasicValue, args: Seq<IrBasicValue> },
    Ret { value: Option<IrBasicValue> },
    Br { cond: IrBasicValue, then_label: Label, else_label: Label },
    Jmp { label: Label },
    Free { value: usize },
}

impl View for Instr {
    type V = InstrView;

    open spec fn view(&self) -> InstrView {
        match *self {
            Instr::Salloc { dest } => InstrView::Salloc { dest },
            Instr::Halloc { dest, size } => InstrView::Halloc { dest, size },
            Instr::SetValue { dest, src } => InstrView::SetValue { dest, src },
            Instr::Own { dest, value } => InstrView::Own { dest, value },
            Instr::Load { dest, src } => InstrView::Load { dest, src },
            Instr::Store { dest, src } => InstrView::Store { dest, src },
            Instr::Bin { op, dest, left, right } => InstrView::Bin { op, dest, left, right },
            Instr::Un { op, dest, src } => InstrView::Un { op, dest, src },
            Instr::Call { dest, callee, args } => InstrView::Call { dest, callee, args: args@ },
            Instr::Ret { value } => InstrView::Ret { value },
            Instr::Br { cond, then_label, else_label } => InstrView::Br {
                cond,
                then_label,
                else_label,
            },
            Instr::Jmp { label } => InstrView::Jmp { label },
            Instr::Free { value } => InstrView::Free { value },
        }
    }
}

impl InstrView {
    /// The register that the instruction defines, if it defines one.
    pub open spec fn defined(self) -> Option<usize> {
        match self {
            InstrView::Salloc { dest } => Some(dest.register),
            InstrView::Halloc { dest, .. } => Some(dest.register),
            InstrView::Own { dest, .. } => Some(dest.register),
            InstrView::Load { dest, .. } => Some(dest.register),
            InstrView::Bin { dest, .. } => Some(dest.register),
            InstrView::Un { dest, .. } => Some(dest.register),
            InstrView::Call { dest, .. } => Some(dest.register),
            _ => None,
        }
    }
}

impl Instr {
    /// The register that the instruction defines, if it defines one.
    pub fn defined(&self) -> (r: Option<usize>)
        ensures
            r == self@.defined(),
    {
        match self {
            Instr::Salloc { dest } => Some(dest.register),
            Instr::Halloc { dest, .. } => Some(dest.register),
            Instr::Own { dest, .. } => Some(dest.register),
            Instr::Load { dest, .. } => Some(dest.register),
            Instr::Bin { dest, .. } => Some(dest.register),
            Instr::Un { dest, .. } => Some(dest.register),
            Instr::Call { dest, .. } => Some(dest.register),
            _ => None,
        }
    }
}

/// A basic block: a label and the instructions under it, in order.
#[derive(Debug, PartialEq)]
pub struct Block {
    pub label: Label,
    pub instrs: Vec<Instr>,
}

/// Mathematical model of a [`Block`].
pub struct BlockView {
    pub label: Label,
    pub instrs: Seq<InstrView>,
}

/// The models of a list of instructions.
pub open spec fn instr_views(instrs: Seq<Instr>) -> Seq<InstrView> {
    instrs.map_values(|instr: Instr| instr@)
}

/// The models of a list of blocks.
pub open spec fn block_views(blocks: Seq<Block>) -> Seq<BlockView> {
    blocks.map_values(|block: Block| block@)
}

impl View for Block {
    type V = BlockView;

    open spec fn view(&self) -> BlockView {
        BlockView { label: self.label, instrs: instr_views(self.instrs@) }
    }
}

/// A function: its name, with the name of the type whose `impl` holds it
/// where one does; its parameters; its return type; and its blocks in the
/// order in which they were emitted, the entry block first.
#[derive(Debug, PartialEq)]
pub struct Function {
    pub owner: Option<String>,
    pub name: String,
    pub params: Vec<Bind>,
    pub ret: TypeId,
    pub blocks: Vec<Block>,
}

/// Mathematical model of a [`Function`].
pub struct FunctionView {
    pub owner: Option<String>,
    pub name: String,
    pub params: Seq<Bind>,
    pub ret: TypeId,
    pub blocks: Seq<BlockView>,
}

impl View for Function {
    type V = FunctionView;

    open spec fn view(&self) -> FunctionView {
        FunctionView {
            owner: self.owner,
            name: self.name,
            params: self.params@,
            ret: self.ret,
            blocks: block_views(self.blocks@),
        }
    }
}

impl Function {
    pub fn new(owner: Option<String>, name: String, params: Vec<Bind>, ret: TypeId) -> (r:
        Function)
        ensures
            r@ == (FunctionView { owner, name, params: params@, ret, blocks: Seq::empty() }),
    {
        let function = Function { owner, name, params, ret, blocks: Vec::new() };
        proof {
            assert(block_views(function.blocks@) =~= Seq::empty());
        }
        function
    }

    /// Appends `blocks` to the blocks of the function.
    pub fn extend_blocks(&mut self, blocks: Vec<Block>)
        ensures
            final(self)@ == (FunctionView {
                blocks: old(self)@.blocks + block_views(blocks@),
                ..old(self)@
            }),
    {
        let ghost before = self.blocks@;
        let ghost added = blocks@;
        let mut blocks = blocks;
        self.blocks.append(&mut blocks);
        proof {
            assert(block_views(self.blocks@) =~= block_views(before) + block_views(added));
        }
    }
}

/// A program in the intermediate representation: the struct definitions,
/// which come before anything that uses them; the constants; the
/// functions; and the blocks of the code that stands outside any function.
#[derive(Debug, PartialEq)]
pub struct IR {
    pub structs: Vec<StructInstr>,
    pub globals: Vec<Instr>,
    pub funcs: Vec<Function>,
    pub top: Vec<Block>,
}

/// Mathematical model of an [`IR`].
pub struct IrView {
    pub structs: Seq<StructView>,
    pub globals: Seq<InstrView>,
    pub funcs: Seq<FunctionView>,
    pub top: Seq<BlockView>,
}

impl IrView {
    pub open spec fn empty() -> IrView {
        IrView {
            structs: Seq::empty(),
            globals: Seq::empty(),
            funcs: Seq::empty(),
            top: Seq::empty(),
        }
    }
}

impl View for IR {
    type V = IrView;

    open spec fn view(&self) -> IrView {
        IrView {
            structs: self.structs@.map_values(|s: StructInstr| s@),
            globals: instr_views(self.globals@),
            funcs: self.funcs@.map_values(|f: Function| f@),
            top: block_views(self.top@),
        }
    }
}

impl IR {
    pub fn new() -> (r: IR)
        ensures
            r@ == IrView::empty(),
    {
        let ir = IR {
            structs: Vec::new(),
            globals: Vec::new(),
            funcs: Vec::new(),
            top: Vec::new(),
        };
        proof {
            assert(ir@.structs =~= Seq::empty());
            assert(ir@.globals =~= Seq::empty());
            assert(ir@.funcs =~= Seq::empty());
            assert(ir@.top =~= Seq::empty());
        }
        ir
    }

    pub fn add_func(&mut self, func: Function)
        ensures
            final(self)@ == (IrView { funcs: old(self)@.funcs.push(func@), ..old(self)@ }),
    {
        proof {
            assert(self.funcs@.push(func).map_values(|f: Function| f@) =~= self@.funcs.push(
                func@,
            ));
        }
        self.funcs.push(func);
    }

    pub fn add_struct(&mut self, def: StructInstr)
        ensures
            final(self)@ == (IrView { structs: old(self)@.structs.push(def@), ..old(self)@ }),
    {
        proof {
            assert(self.structs@.push(def).map_values(|s: StructInstr| s@)
                =~= self@.structs.push(def@));
        }
        self.structs.push(def);
    }

    pub fn add_global(&mut self, instr: Instr)
        ensures
            final(self)@ == (IrView { globals: old(self)@.globals.push(instr@), ..old(self)@ }),
    {
        proof {
            assert(instr_views(self.globals@.push(instr)) =~= self@.globals.push(instr@));
        }
        self.globals.push(instr);
    }
}

impl Default for IR {
    fn default() -> (r: IR)
        ensures
            r@ == IrView::empty(),
    {
        IR::new()
    }
}

} // verus!
