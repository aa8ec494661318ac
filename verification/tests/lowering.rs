use ln_core::ast::{
    AstType, BaseExpr, BinaryExpr, Binding, BlockStmt, BoolLiteral, CallExpr, ConstDelStmt, Expr,
    FieldType, FnBody, FnStmt, ForStmt, Ident, IfExpr, IfStmt, LetStmt, Literal, NumberLiteral,
    Operator, OperatorKind, Program, RetStmt, Stmt, StringLiteral, StructType, TypeDefKind,
    TypeDefStmt, WhileStmt,
};
use ln_core::builder::context::Context as BuildContext;
use ln_core::builder::Builder;
use ln_core::checker::context::Context;
use ln_core::checker::types::{Number, TypeId};
use ln_core::checker::Checker;
use ln_core::diag::DiagKind;
use ln_core::disassembler::Disassembler;
use ln_core::ir::{Bind, Block, Instr, Label, StructInstr, IR};
use ln_core::range::{ModId, Range};

fn span(start: usize, end: usize) -> Range {
    Range::new(start, end, ModId::new(0))
}

fn ident(name: &str, at: usize) -> Ident {
    Ident::new(name.to_string(), span(at, at + name.len()))
}

fn name(text: &str, at: usize) -> Expr {
    Expr::Ident(ident(text, at))
}

fn number(text: &str, at: usize) -> Expr {
    Expr::Literal(Literal::Number(NumberLiteral {
        range: span(at, at + text.len()),
        text: text.to_string(),
        base: 10,
        as_dot: false,
    }))
}

fn boolean(value: bool, at: usize) -> Expr {
    Expr::Literal(Literal::Bool(BoolLiteral { range: span(at, at + 4), value }))
}

fn string(text: &str, at: usize) -> Expr {
    Expr::Literal(Literal::String(StringLiteral {
        range: span(at, at + text.len() + 2),
        text: text.to_string(),
    }))
}

fn i32_type(at: usize) -> AstType {
    AstType::Number { number: Number::I32, range: span(at, at + 3) }
}

fn let_stmt(at: usize, bind: &str, expr: Expr) -> Stmt {
    Stmt::Let(LetStmt {
        bind: Binding { ident: ident(bind, at + 4), ty: None },
        expr,
        mutable: None,
        range: span(at, at + 3),
    })
}

fn binary(left: Expr, kind: OperatorKind, at: usize, right: Expr) -> Expr {
    Expr::Binary(BinaryExpr::new(Box::new(left), Operator { kind, range: span(at, at + 1) }, Box::new(right)))
}

fn block(at: usize, end: usize, stmts: Vec<Stmt>) -> BlockStmt {
    BlockStmt::new(stmts, span(at, end))
}

fn ret(at: usize, expr: Option<Expr>) -> Stmt {
    Stmt::Ret(RetStmt { expr: expr.map(Box::new), range: span(at, at + 3) })
}

fn function(at: usize, fn_name: &str, params: Vec<(&str, AstType)>, ret_type: Option<AstType>, body: FnBody) -> FnStmt {
    FnStmt {
        name: ident(fn_name, at + 3),
        params: params
            .into_iter()
            .enumerate()
            .map(|(i, (param, ty))| Binding { ident: ident(param, at + 10 + 10 * i), ty: Some(ty) })
            .collect(),
        is_pub: false,
        ret_type,
        body,
        range: span(at, at + 2),
        generics: vec![],
    }
}

fn lower(stmts: Vec<Stmt>) -> (Checker, IR) {
    let program = Program { stmts };
    let mut checker = Checker::new(Context::new());
    let checked = checker.check_program(&program);
    assert!(checked.is_ok(), "{:?}", checker.diags);
    let ir = {
        let mut builder = Builder::new(&checker.ctx.type_store, &checker.ctx.node_types);
        builder.build(&program).expect("the program is lowered")
    };
    (checker, ir)
}

fn lines(checker: &Checker, blocks: &Vec<Block>) -> Vec<Vec<String>> {
    let disassembler = Disassembler::new(&checker.ctx.type_store);
    blocks
        .iter()
        .map(|block| block.instrs.iter().map(|instr| disassembler.instr_to_string(instr)).collect())
        .collect()
}

fn defined(ir: &IR) -> Vec<usize> {
    let mut all = vec![];
    let blocks = ir.funcs.iter().flat_map(|f| f.blocks.iter()).chain(ir.top.iter());
    for instr in ir.globals.iter().chain(blocks.flat_map(|b| b.instrs.iter())) {
        if let Some(register) = instr.defined() {
            all.push(register);
        }
    }
    all
}

fn assert_single_assignment(ir: &IR) {
    let mut all = defined(ir);
    let count = all.len();
    all.sort();
    all.dedup();
    assert_eq!(all.len(), count);
}

#[test]
fn values_on_the_heap_are_released_at_the_end_of_the_block() {
    let inner = Stmt::Block(block(0, 40, vec![
        let_stmt(2, "s", string("hi", 10)),
        let_stmt(16, "n", number("3", 24)),
        let_stmt(26, "t", string("yo", 34)),
    ]));
    let (checker, ir) = lower(vec![inner, let_stmt(50, "after", number("1", 62))]);
    assert_eq!(
        lines(&checker, &ir.top),
        vec![vec![
            "halloc r1 16",
            "set r1, \"hi\"",
            "salloc r2 i32",
            "set r2, 3",
            "halloc r3 16",
            "set r3, \"yo\"",
            "free r1",
            "free r3",
            "salloc r4 i32",
            "set r4, 1",
        ]]
    );
    assert_single_assignment(&ir);
}

#[test]
fn a_return_releases_every_scope_of_the_function() {
    let body = FnBody::Block(block(20, 90, vec![
        let_stmt(22, "a", string("x", 30)),
        Stmt::Block(block(35, 80, vec![
            let_stmt(37, "b", string("y", 45)),
            ret(50, Some(number("0", 54))),
            let_stmt(60, "unseen", number("9", 72)),
        ])),
        let_stmt(82, "unseen", number("9", 88)),
    ]));
    let (checker, ir) = lower(vec![Stmt::Fn(function(0, "f", vec![], Some(i32_type(10)), body))]);
    assert_eq!(
        lines(&checker, &ir.funcs[0].blocks),
        vec![vec!["halloc r1 16", "set r1, \"x\"", "halloc r2 16", "set r2, \"y\"", "free r2", "free r1", "ret 0"]]
    );
    // each heap room is released once on the one path through the function
    let frees: Vec<&Instr> = ir.funcs[0].blocks[0].instrs.iter().filter(|i| matches!(i, Instr::Free { .. })).collect();
    assert_eq!(frees, vec![&Instr::Free { value: 2 }, &Instr::Free { value: 1 }]);
    assert_eq!(ir.funcs[0].blocks[0].label, Label(1));
    assert_eq!(ir.top[0].label, Label(0));
}

#[test]
fn a_function_that_ends_without_return() {
    let body = FnBody::Block(block(20, 40, vec![let_stmt(22, "s", string("x", 30))]));
    let (checker, ir) = lower(vec![Stmt::Fn(function(0, "f", vec![], None, body))]);
    assert_eq!(
        lines(&checker, &ir.funcs[0].blocks),
        vec![vec!["halloc r1 16", "set r1, \"x\"", "free r1", "ret"]]
    );
    assert_eq!(ir.funcs[0].ret, TypeId::void());
    assert!(ir.funcs[0].params.is_empty());
}

#[test]
fn calls() {
    let define = Stmt::Fn(function(0, "f", vec![("a", i32_type(12)), ("b", i32_type(22))], Some(i32_type(30)), FnBody::Expr(binary(name("a", 40), OperatorKind::MUL, 42, name("b", 44)))));
    let called = Expr::Call(CallExpr::new(name("f", 60), vec![number("2", 62), name("x", 65)], span(61, 67), vec![]));
    let (checker, ir) = lower(vec![define, let_stmt(46, "x", number("5", 54)), let_stmt(70, "r", called)]);
    assert_eq!(
        lines(&checker, &ir.funcs[0].blocks),
        vec![vec!["salloc r1 i32", "set r1, a", "salloc r2 i32", "set r2, b", "bin mul r3, r1, r2", "ret r3"]]
    );
    assert_eq!(ir.funcs[0].params, vec![Bind { register: 1, type_id: TypeId::i32() }, Bind { register: 2, type_id: TypeId::i32() }]);
    assert_eq!(
        lines(&checker, &ir.top),
        vec![vec!["salloc r4 i32", "set r4, 5", "call r5, f(2, r4)", "salloc r6 i32", "set r6, r5"]]
    );
    assert_single_assignment(&ir);
    let listing = Disassembler::new(&checker.ctx.type_store).program_to_string(&ir);
    assert_eq!(
        listing,
        "fn f(r1: i32, r2: i32): i32 {\nl1:\n  salloc r1 i32\n  set r1, a\n  salloc r2 i32\n  set r2, b\n  bin mul r3, r1, r2\n  ret r3\n}\nl0:\n  salloc r4 i32\n  set r4, 5\n  call r5, f(2, r4)\n  salloc r6 i32\n  set r6, r5\n"
    );
}

#[test]
fn while_loop_with_break() {
    let body = Stmt::Block(block(30, 50, vec![Stmt::Expr(Expr::Break(BaseExpr { range: span(32, 37) }))]));
    let while_stmt = Stmt::While(WhileStmt { test: Box::new(name("c", 26)), body: Box::new(body), range: span(20, 50) });
    let (checker, ir) = lower(vec![let_stmt(0, "c", boolean(true, 8)), while_stmt, let_stmt(60, "z", number("1", 68))]);
    assert_eq!(
        lines(&checker, &ir.top),
        vec![
            vec!["salloc r1 bool", "set r1, true", "jmp l1"],
            vec!["br r1, l2, l3"],
            vec!["jmp l3"],
            vec!["salloc r2 i32", "set r2, 1"],
        ]
    );
    let labels: Vec<Label> = ir.top.iter().map(|b| b.label).collect();
    assert_eq!(labels, vec![Label(0), Label(1), Label(2), Label(3)]);
}

#[test]
fn while_loop_releases_at_every_round_and_at_skip() {
    let body = Stmt::Block(block(30, 70, vec![
        let_stmt(32, "s", string("x", 40)),
        Stmt::If(IfStmt {
            cond: Box::new(name("c", 48)),
            then: Box::new(Stmt::Block(block(50, 60, vec![Stmt::Expr(Expr::Skip(BaseExpr { range: span(52, 56) }))]))),
            otherwise: None,
            range: span(45, 47),
        }),
    ]));
    let while_stmt = Stmt::While(WhileStmt { test: Box::new(name("c", 26)), body: Box::new(body), range: span(20, 70) });
    let (checker, ir) = lower(vec![let_stmt(0, "c", boolean(true, 8)), while_stmt]);
    assert_eq!(
        lines(&checker, &ir.top),
        vec![
            vec!["salloc r1 bool", "set r1, true", "jmp l1"],
            vec!["br r1, l2, l3"],
            vec!["halloc r2 16", "set r2, \"x\"", "br r1, l4, l5"],
            vec!["free r2", "jmp l1"],
            vec!["jmp l6"],
            vec!["free r2", "jmp l1"],
            vec![],
        ]
    );
    let labels: Vec<Label> = ir.top.iter().map(|b| b.label).collect();
    assert_eq!(labels, vec![Label(0), Label(1), Label(2), Label(4), Label(5), Label(6), Label(3)]);
}

#[test]
fn if_as_a_value() {
    let if_expr = Expr::If(IfExpr::new(Box::new(name("c", 23)), Box::new(number("1", 27)), Box::new(number("2", 38)), span(20, 22)));
    let (checker, ir) = lower(vec![let_stmt(0, "c", boolean(true, 8)), let_stmt(12, "v", if_expr)]);
    assert_eq!(
        lines(&checker, &ir.top),
        vec![
            vec!["salloc r1 bool", "set r1, true", "salloc r2 i32", "br r1, l1, l2"],
            vec!["set r2, 1", "jmp l3"],
            vec!["set r2, 2", "jmp l3"],
            vec!["salloc r3 i32", "set r3, r2"],
        ]
    );
    assert_single_assignment(&ir);
}

#[test]
fn if_as_a_statement_that_returns_on_both_paths() {
    let arm = |at: usize, value: &str| Box::new(Stmt::Block(block(at, at + 10, vec![ret(at + 1, Some(number(value, at + 5)))])));
    let body = FnBody::Block(block(20, 90, vec![
        Stmt::If(IfStmt { cond: Box::new(name("c", 33)), then: arm(40, "1"), otherwise: Some(arm(60, "2")), range: span(30, 32) }),
        let_stmt(80, "unseen", number("9", 92)),
    ]));
    let define = function(0, "f", vec![("c", AstType::Bool { range: span(12, 16) })], Some(i32_type(17)), body);
    let (checker, ir) = lower(vec![Stmt::Fn(define)]);
    assert_eq!(
        lines(&checker, &ir.funcs[0].blocks),
        vec![
            vec!["salloc r1 bool", "set r1, c", "br r1, l2, l3"],
            vec!["ret 1"],
            vec!["ret 2"],
            vec![],
        ]
    );
}

#[test]
fn for_loop_over_a_range() {
    let range = binary(number("0", 10), OperatorKind::RANGE, 11, name("n", 13));
    let body = Stmt::Block(block(20, 40, vec![let_stmt(22, "d", binary(name("v", 30), OperatorKind::ADD, 32, name("v", 34)))]));
    let for_stmt = |index: Option<Ident>| Stmt::For(ForStmt { value: ident("v", 5), index, iterable: Box::new(binary(number("0", 10), OperatorKind::RANGE, 11, name("n", 13))), body: Box::new(Stmt::Block(block(20, 40, vec![let_stmt(22, "d", binary(name("v", 30), OperatorKind::ADD, 32, name("v", 34)))]))), range: span(1, 40) });
    let _ = (range, body);
    let (checker, ir) = lower(vec![let_stmt(50, "n", number("3", 58)), for_stmt(None)]);
    // the declaration of n stands first in the program text of this test
    assert_eq!(
        lines(&checker, &ir.top),
        vec![
            vec!["salloc r1 i32", "set r1, 3", "salloc r2 i32", "set r2, 0", "jmp l1"],
            vec!["bin lt r3, r2, r1", "br r3, l2, l4"],
            vec!["bin add r4, r2, r2", "salloc r5 i32", "set r5, r4", "jmp l3"],
            vec!["bin add r6, r2, 1", "set r2, r6", "jmp l1"],
            vec![],
        ]
    );
    let (checker, ir) = lower(vec![let_stmt(50, "n", number("3", 58)), for_stmt(Some(ident("i", 8)))]);
    assert_eq!(
        lines(&checker, &ir.top),
        vec![
            vec!["salloc r1 i32", "set r1, 3", "salloc r2 i32", "set r2, 0", "salloc r3 usize", "set r3, 0", "jmp l1"],
            vec!["bin lt r4, r2, r1", "br r4, l2, l4"],
            vec!["bin add r5, r2, r2", "salloc r6 i32", "set r6, r5", "jmp l3"],
            vec!["bin add r7, r2, 1", "set r2, r7", "bin add r8, r3, 1", "set r3, r8", "jmp l1"],
            vec![],
        ]
    );
    assert_single_assignment(&ir);
}

#[test]
fn definitions_of_structs_and_constants() {
    let point = Stmt::TypeDef(TypeDefStmt {
        name: ident("P", 5),
        range: span(0, 30),
        kind: TypeDefKind::Struct(StructType {
            fields: vec![
                FieldType::new(ident("x", 10), i32_type(13), true),
                FieldType::new(ident("y", 18), AstType::Bool { range: span(21, 25) }, false),
            ],
            range: span(8, 30),
        }),
        is_pub: false,
    });
    let constant = Stmt::ConstDel(ConstDelStmt { name: Binding { ident: ident("K", 46), ty: None }, expr: number("5", 50), range: span(40, 45), is_pub: false });
    let (checker, ir) = lower(vec![point, constant, let_stmt(60, "a", name("K", 68))]);
    assert_eq!(
        ir.structs,
        vec![StructInstr {
            struct_id: "P".to_string(),
            fields: vec![Bind { register: 1, type_id: TypeId::i32() }, Bind { register: 2, type_id: TypeId::bool() }],
        }]
    );
    let disassembler = Disassembler::new(&checker.ctx.type_store);
    let globals: Vec<String> = ir.globals.iter().map(|i| disassembler.instr_to_string(i)).collect();
    assert_eq!(globals, vec!["own r3 i32, 5"]);
    assert_eq!(lines(&checker, &ir.top), vec![vec!["salloc r4 i32", "set r4, r3"]]);
    assert_eq!(
        disassembler.program_to_string(&ir),
        "struct P { r1: i32, r2: bool }\n  own r3 i32, 5\nl0:\n  salloc r4 i32\n  set r4, r3\n"
    );
    assert_single_assignment(&ir);
}

#[test]
fn literals_keep_their_value_in_the_listing() {
    let literal = |text: &str, base: u8, at: usize| {
        Expr::Literal(Literal::Number(NumberLiteral { range: span(at, at + text.len()), text: text.to_string(), base, as_dot: false }))
    };
    let fraction = Expr::Literal(Literal::Number(NumberLiteral { range: span(68, 72), text: "2.50".to_string(), base: 10, as_dot: true }));
    let (checker, ir) = lower(vec![
        let_stmt(0, "a", literal("0x2A", 16, 8)),
        let_stmt(20, "b", literal("0b101010", 2, 28)),
        let_stmt(40, "c", literal("0042", 10, 48)),
        let_stmt(60, "d", fraction),
    ]);
    let listed = lines(&checker, &ir.top);
    assert_eq!(listed[0][1], "set r1, 42");
    assert_eq!(listed[0][3], "set r2, 42");
    assert_eq!(listed[0][5], "set r3, 42");
    assert_eq!(listed[0][6], format!("salloc r4 f{}", 64));
    assert_eq!(listed[0][7], "set r4, 2.50");
}

#[test]
fn the_builder_needs_the_types_of_the_checker() {
    let program = Program { stmts: vec![let_stmt(0, "x", number("1", 8))] };
    let empty = Context::new();
    let mut builder = Builder::new(&empty.type_store, &empty.node_types);
    let diag = builder.build(&program).unwrap_err();
    assert_eq!(diag.kind, DiagKind::IceMissingType);
    assert!(diag.is_fatal());
    assert_eq!(diag.range, span(8, 9));
    // a return outside any function cannot be lowered
    let mut builder = Builder::new(&empty.type_store, &empty.node_types);
    let diag = builder.build(&Program { stmts: vec![ret(0, None)] }).unwrap_err();
    assert_eq!(diag.kind, DiagKind::IceMisplaced);
    let mut builder = Builder::new(&empty.type_store, &empty.node_types);
    let diag = builder.build(&Program { stmts: vec![Stmt::Expr(Expr::Break(BaseExpr { range: span(0, 5) }))] }).unwrap_err();
    assert_eq!(diag.kind, DiagKind::IceMisplaced);
    assert_eq!(builder.get_type_id(span(3, 4)).unwrap_err().kind, DiagKind::IceMissingType);
}

#[test]
fn registers_of_the_builder_context() {
    let mut ctx = BuildContext::new();
    assert_eq!(ctx.register_count, 1);
    assert!(ctx.scopes.is_empty());
    ctx.push_scope(Some(TypeId::i32()));
    ctx.push_scope(None);
    assert_eq!(ctx.get_ret_type(), Some(TypeId::i32()));
    let first = ctx.new_register(TypeId::i8());
    let second = ctx.new_register(TypeId::bool());
    assert!(first.is_register());
    assert_eq!(first, ln_core::ir::IrBasicValue::register(1, TypeId::i8()));
    assert_eq!(second.get_type(), TypeId::bool());
    assert_eq!(ctx.register_count, 3);
    ctx.add_local("x".to_string(), first.duplicate());
    ctx.add_local("y".to_string(), second.duplicate());
    ctx.add_local("x".to_string(), second.with_new_type(TypeId::u8()));
    assert_eq!(ctx.get_local("x"), Some(&second.with_new_type(TypeId::u8())));
    assert_eq!(ctx.get_local("y"), Some(&second));
    assert_eq!(ctx.get_local("z"), None);
    assert_eq!(ctx.get_current_scope().locals.len(), 3);
    ctx.push_scope(Some(TypeId::void()));
    // the locals of the function around are out of reach
    assert_eq!(ctx.get_local("y"), None);
    assert_eq!(ctx.get_ret_type(), Some(TypeId::void()));
    ctx.pop_scope();
    ctx.pop_scope();
    assert_eq!(ctx.get_local("y"), None);
    ctx.pop_scope();
    ctx.pop_scope();
    assert_eq!(ctx.get_ret_type(), None);
    assert_eq!(ctx.new_labels(2), 1);
    assert_eq!(ctx.label_count, 3);
}

#[test]
fn nothing_is_bound_where_no_scope_is_open() {
    let program = Program { stmts: vec![let_stmt(0, "s", string("hi", 8))] };
    let mut checker = Checker::new(Context::new());
    assert!(checker.check_program(&program).is_ok());
    let mut builder = Builder::new(&checker.ctx.type_store, &checker.ctx.node_types);
    builder.pop();
    let diag = builder.build(&program).unwrap_err();
    assert_eq!(diag.kind, DiagKind::IceMisplaced);
    assert!(builder.ctx.block.instrs.is_empty());
}

#[test]
fn functions_keep_the_blocks_that_they_come_with() {
    let empty = Context::new();
    let mut builder = Builder::new(&empty.type_store, &empty.node_types);
    builder.emit(Instr::Jmp { label: Label(7) });
    let mut function = ln_core::ir::Function::new(None, "f".to_string(), vec![], TypeId::void());
    function.extend_blocks(vec![Block { label: Label(5), instrs: vec![Instr::Ret { value: None }] }]);
    builder.push_function_with_blocks(function);
    let blocks = &builder.ir.funcs[0].blocks;
    assert_eq!(blocks.len(), 2);
    assert_eq!(blocks[0], Block { label: Label(5), instrs: vec![Instr::Ret { value: None }] });
    assert_eq!(blocks[1], Block { label: Label(0), instrs: vec![Instr::Jmp { label: Label(7) }] });
    assert!(builder.ctx.block.instrs.is_empty() && builder.ctx.block.done.is_empty());
    builder.add_blocks(vec![Block { label: Label(9), instrs: vec![] }]);
    assert_eq!(builder.ir.top.len(), 1);
    // leaving the scope of a function leaves its scope only
    builder.push(ln_core::builder::context::FrameKind::Function { ret: TypeId::i32() });
    assert_eq!(builder.ctx.scopes.len(), 2);
    builder.exit_fn_scope();
    assert_eq!(builder.ctx.scopes.len(), 1);
}

#[test]
fn names_that_are_not_loaded() {
    let mut ctx = BuildContext::new();
    ctx.push_scope(None);
    assert!(!ctx.is_dont_load("x"));
    ctx.add_dont_load("x".to_string());
    ctx.add_dont_load("self".to_string());
    assert!(ctx.is_dont_load("x") && ctx.is_dont_load("self"));
    assert!(!ctx.is_dont_load("y"));
    ctx.push_scope(None);
    assert!(!ctx.is_dont_load("x"));
    ctx.get_current_scope_mut().frees.push(4);
    assert_eq!(ctx.get_current_scope().frees, vec![4]);
}
