use ln_core::ast::{
    AssignExpr, AstType, BinaryExpr, Binding, BlockStmt, BorrowExpr, DerefExpr, Expr, FnBody,
    FnStmt, Ident, IfExpr, LetStmt, Literal, NumberLiteral, BoolLiteral, Operator, OperatorKind,
    Program, Stmt,
};
use ln_core::builder::Builder;
use ln_core::checker::context::Context;
use ln_core::checker::types::{Number, Type, TypeId};
use ln_core::checker::Checker;
use ln_core::diag::DiagKind;
use ln_core::disassembler::Disassembler;
use ln_core::ir::{BasicValue, Bind, Instr, IrBasicValue, IR};
use ln_core::range::{ModId, Range};

fn span(start: usize, end: usize) -> Range {
    Range::new(start, end, ModId::new(0))
}

fn ident(name: &str, start: usize, end: usize) -> Ident {
    Ident::new(name.to_string(), span(start, end))
}

fn name(text: &str, start: usize, end: usize) -> Expr {
    Expr::Ident(ident(text, start, end))
}

fn number(text: &str, start: usize, end: usize) -> Expr {
    Expr::Literal(Literal::Number(NumberLiteral {
        range: span(start, end),
        text: text.to_string(),
        base: 10,
        as_dot: false,
    }))
}

fn fraction(text: &str, start: usize, end: usize) -> Expr {
    Expr::Literal(Literal::Number(NumberLiteral {
        range: span(start, end),
        text: text.to_string(),
        base: 10,
        as_dot: true,
    }))
}

fn boolean(value: bool, start: usize, end: usize) -> Expr {
    Expr::Literal(Literal::Bool(BoolLiteral { range: span(start, end), value }))
}

fn let_stmt(start: usize, bind: Ident, ty: Option<AstType>, mutable: bool, expr: Expr) -> Stmt {
    Stmt::Let(LetStmt {
        bind: Binding { ident: bind, ty },
        expr,
        mutable: if mutable { Some(span(start + 4, start + 7)) } else { None },
        range: span(start, start + 3),
    })
}

fn check(program: &Program) -> Checker {
    let mut checker = Checker::new(Context::new());
    let _ = checker.check_program(program);
    checker
}

fn build(checker: &Checker, program: &Program) -> IR {
    let mut builder = Builder::new(&checker.ctx.type_store, &checker.ctx.node_types);
    builder.build(program).expect("the program is lowered")
}

fn listing(checker: &Checker, instrs: &Vec<Instr>) -> Vec<String> {
    let disassembler = Disassembler::new(&checker.ctx.type_store);
    instrs.iter().map(|instr| disassembler.instr_to_string(instr)).collect()
}

// let x = 1
#[test]
fn let_without_annotation_defaults_to_i32() {
    let program = Program { stmts: vec![let_stmt(0, ident("x", 4, 5), None, false, number("1", 8, 9))] };
    let checker = check(&program);
    assert!(checker.diags.is_empty());
    let x = checker.ctx.get_value("x").expect("x is bound");
    assert_eq!(x.type_id, TypeId::i32());
    assert!(!x.is_mut);
    let ir = build(&checker, &program);
    assert_eq!(ir.top.len(), 1);
    assert_eq!(
        ir.top[0].instrs,
        vec![
            Instr::Salloc { dest: Bind { register: 1, type_id: TypeId::i32() } },
            Instr::SetValue {
                dest: IrBasicValue::register(1, TypeId::i32()),
                src: IrBasicValue::new(BasicValue::Int(1), TypeId::i32()),
            },
        ]
    );
    assert_eq!(listing(&checker, &ir.top[0].instrs), vec!["salloc r1 i32", "set r1, 1"]);
}

// let y: i8 = 2
#[test]
fn let_with_annotation_resolves_the_literal() {
    let annotation = AstType::Number { number: Number::I8, range: span(7, 9) };
    let program = Program {
        stmts: vec![let_stmt(0, ident("y", 4, 5), Some(annotation), false, number("2", 12, 13))],
    };
    let checker = check(&program);
    assert!(checker.diags.is_empty());
    // the literal itself got the unresolved type of two bits
    let literal = checker.ctx.node_type(span(12, 13)).expect("the literal has a type");
    assert_eq!(checker.ctx.type_store.get_type(literal), Some(&Type::InferInt { bits: 2 }));
    assert_eq!(checker.infer_type(TypeId::i8(), literal), Ok(TypeId::i8()));
    assert_eq!(checker.ctx.get_value("y").unwrap().type_id, TypeId::i8());
    let ir = build(&checker, &program);
    assert_eq!(listing(&checker, &ir.top[0].instrs), vec!["salloc r1 i8", "set r1, 2"]);
}

// let a = 1; let b = &a; let c = &mut a;
#[test]
fn exclusive_borrow_beside_shared_borrow_is_refused() {
    let borrow_shared = Expr::Borrow(BorrowExpr {
        expr: Box::new(name("a", 20, 21)),
        range: span(19, 20),
        mutable: None,
    });
    let borrow_mut = Expr::Borrow(BorrowExpr {
        expr: Box::new(name("a", 36, 37)),
        range: span(31, 32),
        mutable: Some(span(32, 35)),
    });
    let program = Program {
        stmts: vec![
            let_stmt(0, ident("a", 4, 5), None, false, number("1", 8, 9)),
            let_stmt(11, ident("b", 15, 16), None, false, borrow_shared),
            let_stmt(23, ident("c", 27, 28), None, false, borrow_mut),
        ],
    };
    let mut checker = Checker::new(Context::new());
    let result = checker.check_program(&program);
    assert_eq!(checker.diags.len(), 1);
    let diag = result.unwrap_err();
    assert_eq!(
        diag.kind,
        DiagKind::BorrowConflict {
            value: "a".to_string(),
            requested_mut: true,
            existing_mut: false,
        }
    );
    assert_eq!(diag.range, span(31, 37));
    // the first two statements passed: b is a shared reference to an i32
    let b = checker.ctx.get_value("b").unwrap().type_id;
    assert_eq!(
        checker.ctx.type_store.get_type(b),
        Some(&Type::Borrow { value: TypeId::i32(), mutable: false })
    );
    assert!(checker.ctx.get_value("c").is_none());
}

// fn f(x: i32): i32 = { x + 1 }
#[test]
fn function_with_trailing_expression_returns_it() {
    let body = BlockStmt::new(
        vec![Stmt::Expr(Expr::Binary(BinaryExpr::new(
            Box::new(name("x", 22, 23)),
            Operator { kind: OperatorKind::ADD, range: span(24, 25) },
            Box::new(number("1", 26, 27)),
        )))],
        span(20, 29),
    );
    let function = FnStmt {
        name: ident("f", 3, 4),
        params: vec![Binding {
            ident: ident("x", 5, 6),
            ty: Some(AstType::Number { number: Number::I32, range: span(8, 11) }),
        }],
        is_pub: false,
        ret_type: Some(AstType::Number { number: Number::I32, range: span(14, 17) }),
        body: FnBody::Block(body),
        range: span(0, 2),
        generics: vec![],
    };
    let program = Program { stmts: vec![Stmt::Fn(function)] };
    let checker = check(&program);
    assert!(checker.diags.is_empty(), "{:?}", checker.diags);
    let ir = build(&checker, &program);
    assert_eq!(ir.funcs.len(), 1);
    let f = &ir.funcs[0];
    assert_eq!(f.name, "f");
    assert_eq!(f.ret, TypeId::i32());
    assert_eq!(f.params, vec![Bind { register: 1, type_id: TypeId::i32() }]);
    assert_eq!(f.blocks.len(), 1);
    assert_eq!(
        listing(&checker, &f.blocks[0].instrs),
        vec!["salloc r1 i32", "set r1, x", "bin add r2, r1, 1", "ret r2"]
    );
    // nothing stands outside the function
    assert_eq!(ir.top.len(), 1);
    assert!(ir.top[0].instrs.is_empty());
}

// let x = 1; let p = &x; *p = 3
#[test]
fn assignment_through_shared_reference_is_refused() {
    let borrow = Expr::Borrow(BorrowExpr {
        expr: Box::new(name("x", 20, 21)),
        range: span(19, 20),
        mutable: None,
    });
    let target = Expr::Deref(DerefExpr { expr: Box::new(name("p", 24, 25)), range: span(23, 24) });
    let assign = Expr::Assign(AssignExpr {
        left: Box::new(target),
        right: Box::new(number("3", 28, 29)),
        range: span(26, 27),
    });
    let program = Program {
        stmts: vec![
            let_stmt(0, ident("x", 4, 5), None, false, number("1", 8, 9)),
            let_stmt(11, ident("p", 15, 16), None, false, borrow),
            Stmt::Expr(assign),
        ],
    };
    let mut checker = Checker::new(Context::new());
    let diag = checker.check_program(&program).unwrap_err();
    assert_eq!(diag.kind, DiagKind::AssignToImmutable);
    assert_eq!(diag.range, span(23, 25));
}

// let x = 1; let p = &mut x; *p = 3
#[test]
fn assignment_through_exclusive_reference_is_accepted() {
    let borrow = Expr::Borrow(BorrowExpr {
        expr: Box::new(name("x", 24, 25)),
        range: span(19, 20),
        mutable: Some(span(20, 23)),
    });
    let target = Expr::Deref(DerefExpr { expr: Box::new(name("p", 28, 29)), range: span(27, 28) });
    let assign = Expr::Assign(AssignExpr {
        left: Box::new(target),
        right: Box::new(number("3", 32, 33)),
        range: span(30, 31),
    });
    let program = Program {
        stmts: vec![
            let_stmt(0, ident("x", 4, 5), None, true, number("1", 8, 9)),
            let_stmt(11, ident("p", 15, 16), None, false, borrow),
            Stmt::Expr(assign),
        ],
    };
    let checker = check(&program);
    assert!(checker.diags.is_empty(), "{:?}", checker.diags);
    let ir = build(&checker, &program);
    assert_eq!(
        listing(&checker, &ir.top[0].instrs),
        vec!["salloc r1 i32", "set r1, 1", "store r1, 3"]
    );
}

// let cond = true; if cond { 1 } else { 2.0 }
#[test]
fn arms_of_different_kinds_do_not_agree() {
    let if_expr = Expr::If(IfExpr::new(
        Box::new(name("cond", 20, 24)),
        Box::new(number("1", 27, 28)),
        Box::new(fraction("2.0", 38, 41)),
        span(17, 19),
    ));
    let program = Program {
        stmts: vec![
            let_stmt(0, ident("cond", 4, 8), None, false, boolean(true, 11, 15)),
            Stmt::Expr(if_expr),
        ],
    };
    let mut checker = Checker::new(Context::new());
    let diag = checker.check_program(&program).unwrap_err();
    assert_eq!(diag.range, span(38, 41));
    assert_eq!(diag.secondary, Some(span(27, 28)));
    match diag.kind {
        DiagKind::TypeMismatch { expected, found } => {
            assert!(matches!(
                checker.ctx.type_store.get_type(expected),
                Some(Type::InferInt { bits: 1 })
            ));
            assert!(matches!(
                checker.ctx.type_store.get_type(found),
                Some(Type::InferFloat { .. })
            ));
            assert_eq!(checker.display_type(expected), "int");
            assert_eq!(checker.display_type(found), "float");
        }
        other => panic!("{:?}", other),
    }
}
