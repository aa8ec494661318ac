//! Listings of programs in the intermediate representation.

use vstd::prelude::*;
use vstd::string::StringExecFns;
use crate::ast::OperatorKind;
use crate::checker::types::display::display_text;
use crate::checker::types::{TypeId, TypeStore, TypeView};
use crate::ir::{
    block_views, instr_views, BasicValue, Bind, Block, BlockView, Function, FunctionView, Instr,
    InstrView, IrBasicValue, IrView, Label, StructInstr, StructView, IR,
};
use crate::text::{append_decimal, decimal};

verus! {

/// The name of an operator in a listing.
pub open spec fn mnemonic(op: OperatorKind) -> Seq<char> {
    match op {
        OperatorKind::ADD => "add"@,
        OperatorKind::SUB => "sub"@,
        OperatorKind::MUL => "mul"@,
        OperatorKind::DIV => "div"@,
        OperatorKind::MOD => "mod"@,
        OperatorKind::RANGE => "range"@,
        OperatorKind::EQ => "eq"@,
        OperatorKind::NOTEQ => "ne"@,
        OperatorKind::ADDEQ => "addeq"@,
        OperatorKind::SUBEQ => "subeq"@,
        OperatorKind::MULEQ => "muleq"@,
        OperatorKind::DIVEQ => "diveq"@,
        OperatorKind::MODEQ => "modeq"@,
        OperatorKind::LT => "lt"@,
        OperatorKind::GT => "gt"@,
        OperatorKind::AND => "and"@,
        OperatorKind::OR => "or"@,
        OperatorKind::XOR => "xor"@,
        OperatorKind::BOR => "bor"@,
        OperatorKind::SHL => "shl"@,
        OperatorKind::SHR => "shr"@,
        OperatorKind::POW => "pow"@,
        OperatorKind::LE => "le"@,
        OperatorKind::GE => "ge"@,
        OperatorKind::NOT => "not"@,
        OperatorKind::PIPE => "pipe"@,
    }
}

/// A register is written `r` and its number.
pub open spec fn register_text(register: usize) -> Seq<char> {
    "r"@ + decimal(register as nat)
}

/// A label is written `l` and its number.
pub open spec fn label_text(label: Label) -> Seq<char> {
    "l"@ + decimal(label.0 as nat)
}

/// How an operand is written: a register as `r1`; an integer in decimal;
/// a float as in the source; a string between double quotes; a character
/// as `char(n)` with its code; a symbol by its name.
pub open spec fn value_text(value: BasicValue) -> Seq<char> {
    match value {
        BasicValue::Register(register) => register_text(register),
        BasicValue::Int(number) => decimal(number as nat),
        BasicValue::Float(text) => text@,
        BasicValue::Str(text) => "\""@ + text@ + "\""@,
        BasicValue::Char(c) => "char("@ + decimal(c as nat) + ")"@,
        BasicValue::Bool(flag) => if flag {
            "true"@
        } else {
            "false"@
        },
        BasicValue::Global(name) => name@,
        BasicValue::Method { owner, name } => owner@ + "::"@ + name@,
        BasicValue::Void => "void"@,
    }
}

/// The operands of a list, with `, ` between them.
pub open spec fn values_text(values: Seq<IrBasicValue>) -> Seq<char>
    decreases values.len(),
{
    if values.len() == 0 {
        Seq::empty()
    } else {
        values_text(values.drop_last()) + (if values.len() > 1 {
            ", "@
        } else {
            Seq::<char>::empty()
        }) + value_text(values.last().value)
    }
}

/// A register with its type, as `r1: i32`.
pub open spec fn bind_text(types: Seq<TypeView>, bind: Bind) -> Seq<char> {
    register_text(bind.register) + ": "@ + display_text(types, bind.type_id)
}

/// The registers of a list with their types, with `, ` between them.
pub open spec fn binds_text(types: Seq<TypeView>, binds: Seq<Bind>) -> Seq<char>
    decreases binds.len(),
{
    if binds.len() == 0 {
        Seq::empty()
    } else {
        binds_text(types, binds.drop_last()) + (if binds.len() > 1 {
            ", "@
        } else {
            Seq::<char>::empty()
        }) + bind_text(types, binds.last())
    }
}

/// How an instruction is written: its name, what it defines, and its
/// operands.
pub open spec fn instr_text(types: Seq<TypeView>, instr: InstrView) -> Seq<char> {
    match instr {
        InstrView::Salloc { dest } => "salloc "@ + register_text(dest.register) + " "@
            + display_text(types, dest.type_id),
        InstrView::Halloc { dest, size } => "halloc "@ + register_text(dest.register) + " "@
            + decimal(size as nat),
        InstrView::SetValue { dest, src } => "set "@ + value_text(dest.value) + ", "@ + value_text(
            src.value,
        ),
        InstrView::Own { dest, value } => "own "@ + register_text(dest.register) + " "@
            + display_text(types, dest.type_id) + ", "@ + value_text(value.value),
        InstrView::Load { dest, src } => "load "@ + register_text(dest.register) + ", "@
            + value_text(src.value),
        InstrView::Store { dest, src } => "store "@ + value_text(dest.value) + ", "@ + value_text(
            src.value,
        ),
        InstrView::Bin { op, dest, left, right } => "bin "@ + mnemonic(op) + " "@ + register_text(
            dest.register,
        ) + ", "@ + value_text(left.value) + ", "@ + value_text(right.value),
        InstrView::Un { op, dest, src } => "un "@ + mnemonic(op) + " "@ + register_text(
            dest.register,
        ) + ", "@ + value_text(src.value),
        InstrView::Call { dest, callee, args } => "call "@ + register_text(dest.register) + ", "@
            + value_text(callee.value) + "("@ + values_text(args) + ")"@,
        InstrView::Ret { value } => match value {
            Some(value) => "ret "@ + value_text(value.value),
            None => "ret"@,
        },
        InstrView::Br { cond, then_label, else_label } => "br "@ + value_text(cond.value) + ", "@
            + label_text(then_label) + ", "@ + label_text(else_label),
        InstrView::Jmp { label } => "jmp "@ + label_text(label),
        InstrView::Free { value } => "free "@ + register_text(value),
    }
}

/// The instructions of a list, each on a line of its own behind two
/// spaces.
pub open spec fn instrs_text(types: Seq<TypeView>, instrs: Seq<InstrView>) -> Seq<char>
    decreases instrs.len(),
{
    if instrs.len() == 0 {
        Seq::empty()
    } else {
        instrs_text(types, instrs.drop_last()) + "  "@ + instr_text(types, instrs.last()) + "\n"@
    }
}

/// A block: its label and a colon on a line, then its instructions.
pub open spec fn block_text(types: Seq<TypeView>, block: BlockView) -> Seq<char> {
    label_text(block.label) + ":\n"@ + instrs_text(types, block.instrs)
}

pub open spec fn blocks_text(types: Seq<TypeView>, blocks: Seq<BlockView>) -> Seq<char>
    decreases blocks.len(),
{
    if blocks.len() == 0 {
        Seq::empty()
    } else {
        blocks_text(types, blocks.drop_last()) + block_text(types, blocks.last())
    }
}

/// The name of a function, behind that of the type that owns it where
/// one does.
pub open spec fn function_name(func: FunctionView) -> Seq<char> {
    match func.owner {
        Some(owner) => owner@ + "::"@ + func.name@,
        None => func.name@,
    }
}

/// A function: a line `fn name(r1: T, ..): R {`, its blocks, and a line
/// `}`.
pub open spec fn function_text(types: Seq<TypeView>, func: FunctionView) -> Seq<char> {
    "fn "@ + function_name(func) + "("@ + binds_text(types, func.params) + "): "@ + display_text(
        types,
        func.ret,
    ) + " {\n"@ + blocks_text(types, func.blocks) + "}\n"@
}

pub open spec fn functions_text(types: Seq<TypeView>, funcs: Seq<FunctionView>) -> Seq<char>
    decreases funcs.len(),
{
    if funcs.len() == 0 {
        Seq::empty()
    } else {
        functions_text(types, funcs.drop_last()) + function_text(types, funcs.last())
    }
}

/// A struct definition: a line `struct Name { r1: T, .. }`.
pub open spec fn struct_text(types: Seq<TypeView>, def: StructView) -> Seq<char> {
    "struct "@ + def.struct_id@ + " { "@ + binds_text(types, def.fields) + " }\n"@
}

pub open spec fn structs_text(types: Seq<TypeView>, defs: Seq<StructView>) -> Seq<char>
    decreases defs.len(),
{
    if defs.len() == 0 {
        Seq::empty()
    } else {
        structs_text(types, defs.drop_last()) + struct_text(types, defs.last())
    }
}

/// A program: its struct definitions, its constants, its functions, and
/// the blocks of the code outside any function.
pub open spec fn program_text(types: Seq<TypeView>, ir: IrView) -> Seq<char> {
    structs_text(types, ir.structs) + instrs_text(types, ir.globals) + functions_text(
        types,
        ir.funcs,
    ) + blocks_text(types, ir.top)
}

/// Writes listings, with the types as the type store has them.
pub struct Disassembler<'ir> {
    pub type_store: &'ir TypeStore,
}

/// The name of an operator in a listing: see [`mnemonic`].
pub fn operator_name(op: OperatorKind) -> (r: &'static str)
    ensures
        r@ == mnemonic(op),
{
    match op {
        OperatorKind::ADD => "add",
        OperatorKind::SUB => "sub",
        OperatorKind::MUL => "mul",
        OperatorKind::DIV => "div",
        OperatorKind::MOD => "mod",
        OperatorKind::RANGE => "range",
        OperatorKind::EQ => "eq",
        OperatorKind::NOTEQ => "ne",
        OperatorKind::ADDEQ => "addeq",
        OperatorKind::SUBEQ => "subeq",
        OperatorKind::MULEQ => "muleq",
        OperatorKind::DIVEQ => "diveq",
        OperatorKind::MODEQ => "modeq",
        OperatorKind::LT => "lt",
        OperatorKind::GT => "gt",
        OperatorKind::AND => "and",
        OperatorKind::OR => "or",
        OperatorKind::XOR => "xor",
        OperatorKind::BOR => "bor",
        OperatorKind::SHL => "shl",
        OperatorKind::SHR => "shr",
        OperatorKind::POW => "pow",
        OperatorKind::LE => "le",
        OperatorKind::GE => "ge",
        OperatorKind::NOT => "not",
        OperatorKind::PIPE => "pipe",
    }
}

/// Appends a register: see [`register_text`].
pub fn append_register(out: &mut String, register: usize)
    ensures
        final(out)@ == old(out)@ + register_text(register),
{
    out.append("r");
    append_decimal(out, register as u64);
    assert(out@ =~= old(out)@ + register_text(register));
}

/// Appends a label: see [`label_text`].
pub fn append_label(out: &mut String, label: Label)
    ensures
        final(out)@ == old(out)@ + label_text(label),
{
    out.append("l");
    append_decimal(out, label.0 as u64);
    assert(out@ =~= old(out)@ + label_text(label));
}

/// Appends an operand: see [`value_text`].
pub fn append_value(out: &mut String, value: &BasicValue)
    ensures
        final(out)@ == old(out)@ + value_text(*value),
{
    match value {
        BasicValue::Register(register) => append_register(out, *register),
        BasicValue::Int(number) => append_decimal(out, *number),
        BasicValue::Float(text) => out.append(text.as_str()),
        BasicValue::Str(text) => {
            out.append("\"");
            out.append(text.as_str());
            out.append("\"");
        },
        BasicValue::Char(c) => {
            out.append("char(");
            append_decimal(out, *c as u64);
            out.append(")");
        },
        BasicValue::Bool(flag) => {
            if *flag {
                out.append("true");
            } else {
                out.append("false");
            }
        },
        BasicValue::Global(name) => out.append(name.as_str()),
        BasicValue::Method { owner, name } => {
            out.append(owner.as_str());
            out.append("::");
            out.append(name.as_str());
        },
        BasicValue::Void => out.append("void"),
    }
    assert(out@ =~= old(out)@ + value_text(*value));
}

/// Appends the operands of a list: see [`values_text`].
pub fn append_values(out: &mut String, values: &Vec<IrBasicValue>)
    ensures
        final(out)@ == old(out)@ + values_text(values@),
{
    let mut i: usize = 0;
    assert(values@.take(0) =~= Seq::empty());
    assert(out@ =~= old(out)@ + Seq::<char>::empty());
    while i < values.len()
        invariant
            i <= values@.len(),
            out@ == old(out)@ + values_text(values@.take(i as int)),
        decreases values@.len() - i,
    {
        if i > 0 {
            out.append(", ");
        }
        append_value(out, &values[i].value);
        proof {
            let upto = values@.take(i + 1);
            assert(upto.drop_last() =~= values@.take(i as int));
            assert(upto.last() == values@[i as int]);
            assert(out@ =~= old(out)@ + values_text(upto));
        }
        i += 1;
    }
    assert(values@.take(i as int) =~= values@);
}

impl<'ir> Disassembler<'ir> {
    pub fn new(type_store: &'ir TypeStore) -> (r: Disassembler<'ir>)
        ensures
            r.type_store == type_store,
    {
        Disassembler { type_store }
    }

    /// Appends how the type behind `type_id` is written.
    pub fn disassemble_type(&self, type_id: TypeId, output: &mut String)
        ensures
            final(output)@ == old(output)@ + display_text(self.type_store@, type_id),
    {
        type_id.display_type(output, self.type_store)
    }

    /// Appends a register with its type: see [`bind_text`].
    pub fn disassemble_bind(&self, bind: &Bind, output: &mut String)
        ensures
            final(output)@ == old(output)@ + bind_text(self.type_store@, *bind),
    {
        append_register(output, bind.register);
        output.append(": ");
        self.disassemble_type(bind.type_id, output);
        assert(output@ =~= old(output)@ + bind_text(self.type_store@, *bind));
    }

    /// Appends the registers of a list with their types: see
    /// [`binds_text`].
    pub fn disassemble_binds(&self, binds: &Vec<Bind>, output: &mut String)
        ensures
            final(output)@ == old(output)@ + binds_text(self.type_store@, binds@),
    {
        let mut i: usize = 0;
        assert(binds@.take(0) =~= Seq::empty());
        assert(output@ =~= old(output)@ + Seq::<char>::empty());
        while i < binds.len()
            invariant
                i <= binds@.len(),
                output@ == old(output)@ + binds_text(self.type_store@, binds@.take(i as int)),
            decreases binds@.len() - i,
        {
            if i > 0 {
                output.append(", ");
            }
            self.disassemble_bind(&binds[i], output);
            proof {
                let upto = binds@.take(i + 1);
                assert(upto.drop_last() =~= binds@.take(i as int));
                assert(upto.last() == binds@[i as int]);
                assert(output@ =~= old(output)@ + binds_text(self.type_store@, upto));
            }
            i += 1;
        }
        assert(binds@.take(i as int) =~= binds@);
    }

    /// Appends an instruction: see [`instr_text`].
    pub fn disassemble_instr(&self, instr: &Instr, output: &mut String)
        ensures
            final(output)@ == old(output)@ + instr_text(self.type_store@, instr@),
    {
        match instr {
            Instr::Salloc { dest } => {
                output.append("salloc ");
                append_register(output, dest.register);
                output.append(" ");
                self.disassemble_type(dest.type_id, output);
            },
            Instr::Halloc { dest, size } => {
                output.append("halloc ");
                append_register(output, dest.register);
                output.append(" ");
                append_decimal(output, *size);
            },
            Instr::SetValue { dest, src } => {
                output.append("set ");
                append_value(output, &dest.value);
                output.append(", ");
                append_value(output, &src.value);
            },
            Instr::Own { dest, value } => {
                output.append("own ");
                append_register(output, dest.register);
                output.append(" ");
                self.disassemble_type(dest.type_id, output);
                output.append(", ");
                append_value(output, &value.value);
            },
            Instr::Load { dest, src } => {
                output.append("load ");
                append_register(output, dest.register);
                output.append(", ");
                append_value(output, &src.value);
            },
            Instr::Store { dest, src } => {
                output.append("store ");
                append_value(output, &dest.value);
                output.append(", ");
                append_value(output, &src.value);
            },
            Instr::Bin { op, dest, left, right } => {
                output.append("bin ");
                output.append(operator_name(*op));
                output.append(" ");
                append_register(output, dest.register);
                output.append(", ");
                append_value(output, &left.value);
                output.append(", ");
                append_value(output, &right.value);
            },
            Instr::Un { op, dest, src } => {
                output.append("un ");
                output.append(operator_name(*op));
                output.append(" ");
                append_register(output, dest.register);
                output.append(", ");
                append_value(output, &src.value);
            },
            Instr::Call { dest, callee, args } => {
                output.append("call ");
                append_register(output, dest.register);
                output.append(", ");
                append_value(output, &callee.value);
                output.append("(");
                append_values(output, args);
                output.append(")");
            },
            Instr::Ret { value } => match value {
                Some(value) => {
                    output.append("ret ");
                    append_value(output, &value.value);
                },
                None => {
                    output.append("ret");
                },
            },
            Instr::Br { cond, then_label, else_label } => {
                output.append("br ");
                append_value(output, &cond.value);
                output.append(", ");
                append_label(output, *then_label);
                output.append(", ");
                append_label(output, *else_label);
            },
            Instr::Jmp { label } => {
                output.append("jmp ");
                append_label(output, *label);
            },
            Instr::Free { value } => {
                output.append("free ");
                append_register(output, *value);
            },
        }
        assert(output@ =~= old(output)@ + instr_text(self.type_store@, instr@));
    }

    /// Appends the instructions of a list: see [`instrs_text`].
    pub fn disassemble_instrs(&self, instrs: &Vec<Instr>, output: &mut String)
        ensures
            final(output)@ == old(output)@ + instrs_text(self.type_store@, instr_views(instrs@)),
    {
        let ghost views = instr_views(instrs@);
        let mut i: usize = 0;
        assert(views.take(0) =~= Seq::empty());
        assert(output@ =~= old(output)@ + Seq::<char>::empty());
        while i < instrs.len()
            invariant
                i <= instrs@.len(),
                views == instr_views(instrs@),
                output@ == old(output)@ + instrs_text(self.type_store@, views.take(i as int)),
            decreases instrs@.len() - i,
        {
            output.append("  ");
            self.disassemble_instr(&instrs[i], output);
            output.append("\n");
            proof {
                let upto = views.take(i + 1);
                assert(upto.drop_last() =~= views.take(i as int));
                assert(upto.last() == instrs@[i as int]@);
                assert(output@ =~= old(output)@ + instrs_text(self.type_store@, upto));
            }
            i += 1;
        }
        assert(views.take(i as int) =~= views);
    }

    /// Appends a block: see [`block_text`].
    pub fn disassemble_block(&self, block: &Block, output: &mut String)
        ensures
            final(output)@ == old(output)@ + block_text(self.type_store@, block@),
    {
        append_label(output, block.label);
        output.append(":\n");
        self.disassemble_instrs(&block.instrs, output);
        assert(output@ =~= old(output)@ + block_text(self.type_store@, block@));
    }

    /// Appends the blocks of a list: see [`blocks_text`].
    pub fn disassemble_blocks(&self, blocks: &Vec<Block>, output: &mut String)
        ensures
            final(output)@ == old(output)@ + blocks_text(self.type_store@, block_views(blocks@)),
    {
        let ghost views = block_views(blocks@);
        let mut i: usize = 0;
        assert(views.take(0) =~= Seq::empty());
        assert(output@ =~= old(output)@ + Seq::<char>::empty());
        while i < blocks.len()
            invariant
                i <= blocks@.len(),
                views == block_views(blocks@),
                output@ == old(output)@ + blocks_text(self.type_store@, views.take(i as int)),
            decreases blocks@.len() - i,
        {
            self.disassemble_block(&blocks[i], output);
            proof {
                let upto = views.take(i + 1);
                assert(upto.drop_last() =~= views.take(i as int));
                assert(upto.last() == blocks@[i as int]@);
                assert(output@ =~= old(output)@ + blocks_text(self.type_store@, upto));
            }
            i += 1;
        }
        assert(views.take(i as int) =~= views);
    }

    /// Appends a function: see [`function_text`].
    pub fn disassemble_function(&self, func: &Function, output: &mut String)
        ensures
            final(output)@ == old(output)@ + function_text(self.type_store@, func@),
    {
        output.append("fn ");
        match &func.owner {
            Some(owner) => {
                output.append(owner.as_str());
                output.append("::");
            },
            None => {},
        }
        output.append(func.name.as_str());
        assert(output@ =~= old(output)@ + "fn "@ + function_name(func@));
        output.append("(");
        self.disassemble_binds(&func.params, output);
        output.append("): ");
        self.disassemble_type(func.ret, output);
        output.append(" {\n");
        self.disassemble_blocks(&func.blocks, output);
        output.append("}\n");
        assert(output@ =~= old(output)@ + function_text(self.type_store@, func@));
    }

    /// Appends a struct definition: see [`struct_text`].
    pub fn disassemble_struct(&self, def: &StructInstr, output: &mut String)
        ensures
            final(output)@ == old(output)@ + struct_text(self.type_store@, def@),
    {
        output.append("struct ");
        output.append(def.struct_id.as_str());
        output.append(" { ");
        self.disassemble_binds(&def.fields, output);
        output.append(" }\n");
        assert(output@ =~= old(output)@ + struct_text(self.type_store@, def@));
    }

    /// Appends the listing of a program: see [`program_text`].
    pub fn disassemble_program(&self, program: &IR, output: &mut String)
        ensures
            final(output)@ == old(output)@ + program_text(self.type_store@, program@),
    {
        let ghost types = self.type_store@;
        let ghost defs = program@.structs;
        let mut i: usize = 0;
        assert(defs.take(0) =~= Seq::empty());
        assert(output@ =~= old(output)@ + Seq::<char>::empty());
        while i < program.structs.len()
            invariant
                i <= program.structs@.len(),
                defs == program@.structs,
                types == self.type_store@,
                output@ == old(output)@ + structs_text(types, defs.take(i as int)),
            decreases program.structs@.len() - i,
        {
            self.disassemble_struct(&program.structs[i], output);
            proof {
                let upto = defs.take(i + 1);
                assert(upto.drop_last() =~= defs.take(i as int));
                assert(upto.last() == program.structs@[i as int]@);
                assert(output@ =~= old(output)@ + structs_text(types, upto));
            }
            i += 1;
        }
        assert(defs.take(i as int) =~= defs);
        self.disassemble_instrs(&program.globals, output);
        let ghost funcs = program@.funcs;
        let ghost head = output@;
        let mut j: usize = 0;
        assert(funcs.take(0) =~= Seq::empty());
        assert(output@ =~= head + Seq::<char>::empty());
        while j < program.funcs.len()
            invariant
                j <= program.funcs@.len(),
                funcs == program@.funcs,
                types == self.type_store@,
                output@ == head + functions_text(types, funcs.take(j as int)),
            decreases program.funcs@.len() - j,
        {
            self.disassemble_function(&program.funcs[j], output);
            proof {
                let upto = funcs.take(j + 1);
                assert(upto.drop_last() =~= funcs.take(j as int));
                assert(upto.last() == program.funcs@[j as int]@);
                assert(output@ =~= head + functions_text(types, upto));
            }
            j += 1;
        }
        assert(funcs.take(j as int) =~= funcs);
        self.disassemble_blocks(&program.top, output);
        assert(output@ =~= old(output)@ + program_text(types, program@));
    }

    /// The listing of one instruction.
    pub fn instr_to_string(&self, instr: &Instr) -> (r: String)
        ensures
            r@ == instr_text(self.type_store@, instr@),
    {
        let mut out = String::new();
        self.disassemble_instr(instr, &mut out);
        assert(out@ =~= instr_text(self.type_store@, instr@));
        out
    }

    /// The listing of a program.
    pub fn program_to_string(&self, program: &IR) -> (r: String)
        ensures
            r@ == program_text(self.type_store@, program@),
    {
        let mut out = String::new();
        self.disassemble_program(program, &mut out);
        assert(out@ =~= program_text(self.type_store@, program@));
        out
    }
}

/// An integer literal that is written back in decimal reads as the value
/// that it had, in whatever base it was written first.
pub proof fn lemma_literal_round_trip(text: Seq<char>, base: nat)
    requires
        crate::text::literal_value(text, base) is Some,
    ensures
        crate::text::literal_value(
            value_text(BasicValue::Int(crate::text::literal_value(text, base)->Some_0)),
            10,
        ) == crate::text::literal_value(text, base),
{
    let value = crate::text::literal_value(text, base)->Some_0;
    crate::text::lemma_decimal_round_trip(value as nat);
}

} // verus!
