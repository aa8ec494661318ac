use ln_core::ast::{
    AssignExpr, AssociateExpr, AstType, BaseExpr, BinaryExpr, Binding, BlockStmt, BoolLiteral,
    BorrowExpr, CallExpr, ConstDelStmt, DerefExpr, Expr, ExternFnStmt, FieldType, FiledExpr,
    FnBody, FnStmt, ForStmt, GroupExpr, Ident, IfStmt, ImplStmt, LetStmt, Literal, MemberExpr,
    NumberLiteral, Operator, OperatorKind, PipeExpr, Program, RetStmt, Stmt, StringLiteral,
    StructInitExpr, StructType, TypeDefKind, TypeDefStmt, UnaryExpr, WhileStmt,
};
use ln_core::checker::context::scope::ScopeType;
use ln_core::checker::context::Context;
use ln_core::checker::types::{Number, Type, TypeId};
use ln_core::checker::Checker;
use ln_core::diag::{Diag, DiagKind};
use ln_core::range::{ModId, Range};

fn span(start: usize, end: usize) -> Range {
    Range::new(start, end, ModId::new(0))
}

fn ident(name: &str, at: usize) -> Ident {
    Ident::new(name.to_string(), span(at, at + name.len()))
}

fn name(text: &str, at: usize) -> Expr {
    Expr::Ident(ident(text, at))
}

fn number(text: &str, at: usize) -> Expr {
    Expr::Literal(Literal::Number(NumberLiteral {
        range: span(at, at + text.len()),
        text: text.to_string(),
        base: 10,
        as_dot: false,
    }))
}

fn boolean(value: bool, at: usize) -> Expr {
    Expr::Literal(Literal::Bool(BoolLiteral { range: span(at, at + 4), value }))
}

fn string(text: &str, at: usize) -> Expr {
    Expr::Literal(Literal::String(StringLiteral {
        range: span(at, at + text.len() + 2),
        text: text.to_string(),
    }))
}

fn i32_type(at: usize) -> AstType {
    AstType::Number { number: Number::I32, range: span(at, at + 3) }
}

fn let_stmt(at: usize, bind: &str, ty: Option<AstType>, mutable: bool, expr: Expr) -> Stmt {
    Stmt::Let(LetStmt {
        bind: Binding { ident: ident(bind, at + 4), ty },
        expr,
        mutable: if mutable { Some(span(at + 1, at + 2)) } else { None },
        range: span(at, at + 3),
    })
}

fn binary(left: Expr, kind: OperatorKind, at: usize, right: Expr) -> Expr {
    Expr::Binary(BinaryExpr::new(Box::new(left), Operator { kind, range: span(at, at + 1) }, Box::new(right)))
}

fn block(at: usize, end: usize, stmts: Vec<Stmt>) -> BlockStmt {
    BlockStmt::new(stmts, span(at, end))
}

fn ret(at: usize, expr: Option<Expr>) -> Stmt {
    Stmt::Ret(RetStmt { expr: expr.map(Box::new), range: span(at, at + 3) })
}

fn function(at: usize, fn_name: &str, params: Vec<(&str, AstType)>, ret_type: Option<AstType>, body: FnBody) -> FnStmt {
    FnStmt {
        name: ident(fn_name, at + 3),
        params: params
            .into_iter()
            .enumerate()
            .map(|(i, (param, ty))| Binding { ident: ident(param, at + 10 + 10 * i), ty: Some(ty) })
            .collect(),
        is_pub: false,
        ret_type,
        body,
        range: span(at, at + 2),
        generics: vec![],
    }
}

fn call(callee: Expr, at: usize, end: usize, args: Vec<Expr>) -> Expr {
    Expr::Call(CallExpr::new(callee, args, span(at, end), vec![]))
}

fn first_error(stmts: Vec<Stmt>) -> (Checker, Diag) {
    let mut checker = Checker::new(Context::new());
    let result = checker.check_program(&Program { stmts });
    let diag = result.expect_err("the program has an error");
    (checker, diag)
}

fn passes(stmts: Vec<Stmt>) -> Checker {
    let mut checker = Checker::new(Context::new());
    let result = checker.check_program(&Program { stmts });
    assert_eq!(result, Ok(TypeId::void()), "{:?}", checker.diags);
    assert!(checker.diags.is_empty());
    checker
}

fn point_def(at: usize) -> Stmt {
    Stmt::TypeDef(TypeDefStmt {
        name: ident("P", at + 5),
        range: span(at, at + 30),
        kind: TypeDefKind::Struct(StructType {
            fields: vec![
                FieldType::new(ident("x", at + 10), i32_type(at + 13), true),
                FieldType::new(ident("y", at + 18), AstType::Bool { range: span(at + 21, at + 25) }, false),
            ],
            range: span(at + 8, at + 30),
        }),
        is_pub: false,
    })
}

fn init(at: usize, end: usize, struct_name: &str, fields: Vec<(&str, usize, Expr)>) -> Expr {
    Expr::StructInit(StructInitExpr {
        name: ident(struct_name, at),
        fields: fields
            .into_iter()
            .map(|(field, field_at, value)| FiledExpr { name: ident(field, field_at), value, range: span(field_at, field_at + 4) })
            .collect(),
        range: span(at, end),
    })
}

#[test]
fn unknown_name() {
    let (_, diag) = first_error(vec![Stmt::Expr(name("y", 0))]);
    assert_eq!(diag, Diag::new(DiagKind::UnknownIdent { name: "y".to_string() }, span(0, 1)));
}

#[test]
fn dereference_of_what_is_no_reference() {
    let deref = Expr::Deref(DerefExpr { expr: Box::new(name("x", 12)), range: span(11, 12) });
    let (_, diag) = first_error(vec![let_stmt(0, "x", None, false, number("1", 8)), Stmt::Expr(deref)]);
    assert_eq!(diag, Diag::cannot_dereference(TypeId::i32(), span(11, 13)));
}

#[test]
fn dereference_gives_the_type_behind_the_reference() {
    let borrow = Expr::Borrow(BorrowExpr { expr: Box::new(name("x", 20)), range: span(19, 20), mutable: None });
    let deref = Expr::Deref(DerefExpr { expr: Box::new(name("p", 33)), range: span(32, 33) });
    let checker = passes(vec![
        let_stmt(0, "x", Some(AstType::Number { number: Number::U16, range: span(7, 10) }), false, number("1", 12)),
        let_stmt(14, "p", None, false, borrow),
        let_stmt(24, "y", None, false, deref),
    ]);
    assert_eq!(checker.ctx.get_value("y").unwrap().type_id, TypeId::u16());
    assert_eq!(checker.ctx.node_type(span(32, 34)), Some(TypeId::u16()));
}

#[test]
fn calls_check_arity_and_arguments() {
    let define = || {
        Stmt::Fn(function(0, "f", vec![("a", i32_type(12))], Some(i32_type(30)), FnBody::Expr(name("a", 40))))
    };
    let (_, diag) = first_error(vec![
        define(),
        Stmt::Expr(call(name("f", 50), 51, 57, vec![number("1", 52), number("2", 55)])),
    ]);
    assert_eq!(diag, Diag::new(DiagKind::ArityMismatch { expected: 1, found: 2 }, span(51, 57)));
    let (_, diag) = first_error(vec![define(), Stmt::Expr(call(name("f", 50), 51, 57, vec![boolean(true, 52)]))]);
    assert_eq!(diag, Diag::type_mismatch(TypeId::i32(), TypeId::bool(), span(52, 56)));
    let checker = passes(vec![define(), let_stmt(45, "r", None, false, call(name("f", 60), 61, 64, vec![number("7", 62)]))]);
    assert_eq!(checker.ctx.get_value("r").unwrap().type_id, TypeId::i32());
    let f = checker.ctx.get_fn_value("f").unwrap().type_id;
    assert_eq!(
        checker.ctx.type_store.get_type(f),
        Some(&Type::Fn { params: vec![TypeId::i32()], ret: TypeId::i32(), generics: vec![] })
    );
    assert_eq!(checker.display_type(f), "fn(i32): i32");
}

#[test]
fn call_of_what_is_no_function() {
    let (_, diag) = first_error(vec![
        let_stmt(0, "x", None, false, number("1", 8)),
        Stmt::Expr(call(name("x", 11), 12, 15, vec![number("2", 13)])),
    ]);
    assert_eq!(diag, Diag::new(DiagKind::NotAFunction { actual: TypeId::i32() }, span(11, 12)));
}

#[test]
fn return_outside_function_and_jump_outside_loop() {
    let (_, diag) = first_error(vec![ret(0, Some(number("1", 4)))]);
    assert_eq!(diag, Diag::new(DiagKind::ReturnOutsideFunction, span(0, 3)));
    let (_, diag) = first_error(vec![Stmt::Expr(Expr::Break(BaseExpr { range: span(0, 5) }))]);
    assert_eq!(diag, Diag::new(DiagKind::BreakOrSkipOutsideLoop, span(0, 5)));
    let (_, diag) = first_error(vec![Stmt::Expr(Expr::Skip(BaseExpr { range: span(2, 6) }))]);
    assert_eq!(diag, Diag::new(DiagKind::BreakOrSkipOutsideLoop, span(2, 6)));
}

#[test]
fn function_bodies_must_give_the_declared_type() {
    let falls_off = FnBody::Block(block(20, 40, vec![let_stmt(22, "a", None, false, number("1", 30))]));
    let (checker, diag) = first_error(vec![Stmt::Fn(function(0, "f", vec![], Some(i32_type(10)), falls_off))]);
    assert_eq!(diag, Diag::new(DiagKind::MissingReturn { expected: TypeId::i32() }, span(20, 40)));
    // the scope of the function was left
    assert_eq!(checker.ctx.scopes.len(), 1);
    let wrong = FnBody::Block(block(20, 40, vec![Stmt::Expr(boolean(true, 25))]));
    let (_, diag) = first_error(vec![Stmt::Fn(function(0, "f", vec![], Some(i32_type(10)), wrong))]);
    assert_eq!(diag, Diag::new(DiagKind::MissingReturn { expected: TypeId::i32() }, span(25, 29)));
    let wrong_ret = FnBody::Block(block(20, 40, vec![ret(22, Some(boolean(true, 26)))]));
    let (_, diag) = first_error(vec![Stmt::Fn(function(0, "f", vec![], Some(i32_type(10)), wrong_ret))]);
    assert_eq!(diag, Diag::type_mismatch(TypeId::i32(), TypeId::bool(), span(26, 30)));
    // no return type: the function returns no value
    passes(vec![Stmt::Fn(function(0, "f", vec![], None, FnBody::Block(block(20, 40, vec![]))))]);
    passes(vec![Stmt::Fn(function(0, "f", vec![], None, FnBody::Block(block(20, 40, vec![ret(22, None)]))))]);
    let (_, diag) = first_error(vec![Stmt::Fn(function(0, "f", vec![], Some(i32_type(10)), FnBody::Block(block(20, 40, vec![ret(22, None)]))))]);
    assert_eq!(diag, Diag::type_mismatch(TypeId::i32(), TypeId::void(), span(22, 25)));
    // a function may call itself
    let recursive = FnBody::Expr(call(name("f", 40), 41, 44, vec![number("1", 42)]));
    passes(vec![Stmt::Fn(function(0, "f", vec![("n", i32_type(12))], Some(i32_type(30)), recursive))]);
}

#[test]
fn struct_literals() {
    let full = |at| init(at, at + 30, "P", vec![("x", at + 4, number("1", at + 7)), ("y", at + 10, boolean(true, at + 13))]);
    let checker = passes(vec![point_def(0), let_stmt(40, "p", None, false, full(50))]);
    let p = checker.ctx.get_value("p").unwrap().type_id;
    assert_eq!(checker.ctx.get_type_value("P").unwrap().type_id, p);
    assert_eq!(checker.display_type(p), "struct { x: i32, y: bool }");

    let twice = init(50, 80, "P", vec![("x", 54, number("1", 57)), ("x", 60, number("2", 63))]);
    let (_, diag) = first_error(vec![point_def(0), Stmt::Expr(twice)]);
    assert_eq!(diag, Diag::new(DiagKind::DuplicateFieldInit { name: "x".to_string() }, span(60, 61)));

    let missing = init(50, 80, "P", vec![("x", 54, number("1", 57))]);
    let (_, diag) = first_error(vec![point_def(0), Stmt::Expr(missing)]);
    assert_eq!(diag, Diag::new(DiagKind::MissingFieldInit { name: "y".to_string() }, span(50, 80)));

    let extra = init(50, 80, "P", vec![("x", 54, number("1", 57)), ("z", 60, number("2", 63))]);
    let (_, diag) = first_error(vec![point_def(0), Stmt::Expr(extra)]);
    assert_eq!(diag, Diag::unknown_ident(&"z".to_string(), span(60, 61)));

    let wrong = init(50, 80, "P", vec![("x", 54, boolean(true, 57)), ("y", 62, boolean(true, 65))]);
    let (_, diag) = first_error(vec![point_def(0), Stmt::Expr(wrong)]);
    assert_eq!(diag, Diag::type_mismatch(TypeId::i32(), TypeId::bool(), span(57, 61)));

    let (_, diag) = first_error(vec![Stmt::Expr(init(0, 4, "Q", vec![]))]);
    assert_eq!(diag, Diag::unknown_type(&"Q".to_string(), span(0, 1)));
}

#[test]
fn fields_are_read_through_references() {
    let full = init(50, 80, "P", vec![("x", 54, number("1", 57)), ("y", 60, boolean(true, 63))]);
    let borrow = Expr::Borrow(BorrowExpr { expr: Box::new(name("p", 101)), range: span(100, 101), mutable: None });
    let field = |of: &str, at: usize, field: &str| {
        Expr::Member(MemberExpr { left: Box::new(name(of, at)), method: ident(field, at + 2), range: span(at + 1, at + 2) })
    };
    let checker = passes(vec![
        point_def(0),
        let_stmt(40, "p", None, false, full),
        let_stmt(90, "q", None, false, borrow),
        let_stmt(110, "a", None, false, field("p", 120, "x")),
        let_stmt(130, "b", None, false, field("q", 140, "y")),
    ]);
    assert_eq!(checker.ctx.get_value("a").unwrap().type_id, TypeId::i32());
    assert_eq!(checker.ctx.get_value("b").unwrap().type_id, TypeId::bool());
    let full = init(50, 80, "P", vec![("x", 54, number("1", 57)), ("y", 60, boolean(true, 63))]);
    let (_, diag) = first_error(vec![point_def(0), let_stmt(40, "p", None, false, full), Stmt::Expr(field("p", 120, "w"))]);
    assert_eq!(diag, Diag::unknown_ident(&"w".to_string(), span(122, 123)));
}

#[test]
fn unknown_type_and_mismatched_annotation() {
    let annotation = AstType::Ident(ident("T", 7));
    let (_, diag) = first_error(vec![let_stmt(0, "a", Some(annotation), false, number("1", 11))]);
    assert_eq!(diag, Diag::unknown_type(&"T".to_string(), span(7, 8)));
    let (_, diag) = first_error(vec![let_stmt(0, "a", Some(AstType::Bool { range: span(7, 11) }), false, number("1", 14))]);
    assert_eq!(diag.range, span(14, 15));
    assert_eq!(diag.secondary, Some(span(7, 11)));
    assert!(matches!(diag.kind, DiagKind::TypeMismatch { expected, .. } if expected == TypeId::bool()));
    // a literal that is too wide for the annotation
    let (checker, diag) = first_error(vec![let_stmt(0, "a", Some(AstType::Number { number: Number::U8, range: span(7, 9) }), false, number("256", 12))]);
    match diag.kind {
        DiagKind::TypeMismatch { expected, found } => {
            assert_eq!(expected, TypeId::u8());
            assert_eq!(checker.ctx.type_store.get_type(found), Some(&Type::InferInt { bits: 9 }));
        }
        other => panic!("{:?}", other),
    }
    let checker = passes(vec![let_stmt(0, "a", Some(AstType::Number { number: Number::U8, range: span(7, 9) }), false, number("255", 12))]);
    assert_eq!(checker.ctx.get_value("a").unwrap().type_id, TypeId::u8());
}

#[test]
fn operators_check_their_operands() {
    let (_, diag) = first_error(vec![Stmt::Expr(binary(boolean(true, 0), OperatorKind::ADD, 5, boolean(false, 7)))]);
    assert_eq!(diag, Diag::new(DiagKind::InvalidOperator { op: OperatorKind::ADD, operand_type: TypeId::bool() }, span(0, 11)));
    let (_, diag) = first_error(vec![Stmt::Expr(binary(string("a", 0), OperatorKind::SHL, 5, string("b", 7)))]);
    assert_eq!(diag, Diag::new(DiagKind::InvalidOperator { op: OperatorKind::SHL, operand_type: TypeId::str() }, span(0, 10)));
    let (_, diag) = first_error(vec![Stmt::Expr(binary(number("1", 0), OperatorKind::AND, 2, boolean(false, 5)))]);
    assert!(matches!(diag.kind, DiagKind::TypeMismatch { expected, .. } if expected == TypeId::bool()));
    assert_eq!(diag.range, span(0, 1));
    let (_, diag) = first_error(vec![Stmt::Expr(binary(number("1", 0), OperatorKind::LT, 2, boolean(false, 5)))]);
    assert!(matches!(diag.kind, DiagKind::TypeMismatch { found, .. } if found == TypeId::bool()));
    assert_eq!(diag.range, span(5, 9));
    let (_, diag) = first_error(vec![Stmt::Expr(binary(number("1", 0), OperatorKind::NOT, 2, number("2", 5)))]);
    assert!(matches!(diag.kind, DiagKind::InvalidOperator { op: OperatorKind::NOT, .. }));
    let not = |operand: Expr, kind| Expr::Unary(UnaryExpr { operand: Box::new(operand), operator: Operator { kind, range: span(0, 1) }, range: span(0, 1) });
    let (_, diag) = first_error(vec![Stmt::Expr(not(string("a", 1), OperatorKind::NOT))]);
    assert_eq!(diag, Diag::new(DiagKind::InvalidOperator { op: OperatorKind::NOT, operand_type: TypeId::str() }, span(0, 4)));
    let (_, diag) = first_error(vec![Stmt::Expr(not(boolean(true, 1), OperatorKind::SUB))]);
    assert_eq!(diag, Diag::new(DiagKind::InvalidOperator { op: OperatorKind::SUB, operand_type: TypeId::bool() }, span(0, 5)));
    let checker = passes(vec![
        let_stmt(0, "a", None, false, not(boolean(true, 1), OperatorKind::NOT)),
        let_stmt(10, "b", Some(AstType::Number { number: Number::I64, range: span(17, 20) }), false, number("5", 23)),
        let_stmt(30, "c", None, false, not(name("b", 41), OperatorKind::SUB)),
        let_stmt(50, "d", None, false, binary(name("b", 60), OperatorKind::LE, 62, number("9", 65))),
        let_stmt(70, "e", None, false, binary(number("9", 80), OperatorKind::MUL, 82, name("b", 84))),
        let_stmt(90, "f", None, false, binary(number("1", 100), OperatorKind::ADD, 102, number("300", 104))),
        let_stmt(110, "g", None, false, binary(name("b", 120), OperatorKind::SHR, 122, number("2", 125))),
        let_stmt(130, "h", None, false, binary(name("a", 140), OperatorKind::OR, 142, name("d", 145))),
    ]);
    let ty = |name: &str| checker.ctx.get_value(name).unwrap().type_id;
    assert_eq!(ty("a"), TypeId::bool());
    assert_eq!(ty("c"), TypeId::i64());
    assert_eq!(ty("d"), TypeId::bool());
    assert_eq!(ty("e"), TypeId::i64());
    assert_eq!(ty("f"), TypeId::i32());
    assert_eq!(ty("g"), TypeId::i64());
    assert_eq!(ty("h"), TypeId::bool());
    // the sum of two literals is a literal, of the wider width
    let sum = checker.ctx.node_type(span(100, 107)).unwrap();
    assert_eq!(checker.ctx.type_store.get_type(sum), Some(&Type::InferInt { bits: 9 }));
}

#[test]
fn number_literals() {
    let (_, diag) = first_error(vec![Stmt::Expr(number("12ab", 0))]);
    assert_eq!(diag, Diag::new(DiagKind::InvalidLiteral, span(0, 4)));
    let (_, diag) = first_error(vec![Stmt::Expr(number("99999999999999999999", 0))]);
    assert_eq!(diag.kind, DiagKind::InvalidLiteral);
    let hex = Expr::Literal(Literal::Number(NumberLiteral { range: span(8, 12), text: "0xff".to_string(), base: 16, as_dot: false }));
    let fraction = Expr::Literal(Literal::Number(NumberLiteral { range: span(28, 31), text: "1.5".to_string(), base: 10, as_dot: true }));
    let narrow = Expr::Literal(Literal::Number(NumberLiteral { range: span(50, 53), text: "2.5".to_string(), base: 10, as_dot: true }));
    let narrow_float = AstType::Number { number: Number::F32, range: span(44, 47) };
    let mut checker = passes(vec![
        let_stmt(0, "a", None, false, hex),
        let_stmt(20, "b", None, false, fraction),
        let_stmt(40, "c", Some(narrow_float), false, narrow),
        let_stmt(60, "d", None, false, string("hi", 68)),
    ]);
    let literal = checker.ctx.node_type(span(8, 12)).unwrap();
    assert_eq!(checker.ctx.type_store.get_type(literal), Some(&Type::InferInt { bits: 8 }));
    assert_eq!(checker.ctx.get_value("a").unwrap().type_id, TypeId::i32());
    assert_eq!(checker.ctx.get_value("b").unwrap().type_id, TypeId::float64());
    assert_eq!(checker.ctx.get_value("c").unwrap().type_id, TypeId::float32());
    assert_eq!(checker.ctx.get_value("d").unwrap().type_id, TypeId::str());
    let zero = NumberLiteral { range: span(0, 1), text: "0".to_string(), base: 10, as_dot: false };
    let id = checker.check_literal(&Literal::Number(zero)).unwrap();
    assert_eq!(checker.ctx.type_store.get_type(id), Some(&Type::InferInt { bits: 1 }));
    assert_eq!(checker.check_literal(&Literal::Null(BaseExpr { range: span(0, 4) })), Ok(TypeId::void()));
    assert_eq!(checker.infer_no_type_anotation(id), Ok(TypeId::i32()));
    assert_eq!(checker.infer_type(TypeId::u64(), id), Ok(TypeId::u64()));
    assert_eq!(checker.infer_type(TypeId::u64(), TypeId::bool()), Ok(TypeId::bool()));
    let lost = TypeId::new(9000);
    let nowhere = span(0, 0);
    assert_eq!(
        checker.infer_type(TypeId::u64(), lost),
        Err(Diag::new(DiagKind::IceUnknownHandle { handle: lost }, nowhere))
    );
    assert_eq!(
        checker.infer_type(lost, id),
        Err(Diag::new(DiagKind::IceUnknownHandle { handle: lost }, nowhere))
    );
    assert_eq!(checker.infer_type(lost, TypeId::bool()), Ok(TypeId::bool()));
    assert_eq!(
        checker.infer_no_type_anotation(lost).unwrap_err().message(&checker.ctx.type_store),
        "ice_unknown_handle: the type store has no type 9000"
    );
    // checking the literal recorded its type
    assert_eq!(checker.ctx.node_type(span(0, 1)), Some(id));
    assert!(checker.equal_type_id(TypeId::void(), TypeId::nothing()));
    assert_eq!(checker.equal_type_expected(TypeId::i8(), TypeId::i8(), span(0, 1)), Ok(TypeId::i8()));
    assert_eq!(
        checker.equal_type_expected(TypeId::i8(), TypeId::u8(), span(0, 1)),
        Err(Diag::type_mismatch(TypeId::i8(), TypeId::u8(), span(0, 1)))
    );
    assert_eq!(checker.display_double_type(TypeId::i8(), TypeId::str()), ("i8".to_string(), "str".to_string()));
    assert_eq!(checker.get_stored_type(TypeId::char()), &Type::Char);
}

#[test]
fn only_places_can_be_borrowed() {
    let borrow = Expr::Borrow(BorrowExpr { expr: Box::new(number("1", 1)), range: span(0, 1), mutable: None });
    let (_, diag) = first_error(vec![Stmt::Expr(borrow)]);
    assert_eq!(diag, Diag::new(DiagKind::NotAddressable, span(0, 2)));
}

#[test]
fn borrows_end_with_their_scope() {
    let exclusive = |at: usize| Expr::Borrow(BorrowExpr { expr: Box::new(name("a", at + 5)), range: span(at, at + 1), mutable: Some(span(at + 1, at + 4)) });
    let inner = Stmt::Block(block(10, 40, vec![let_stmt(12, "b", None, false, exclusive(20))]));
    let checker = passes(vec![
        let_stmt(0, "a", None, true, number("1", 8)),
        inner,
        let_stmt(50, "c", None, false, exclusive(60)),
    ]);
    let c = checker.ctx.get_value("c").unwrap().type_id;
    assert_eq!(checker.ctx.type_store.get_type(c), Some(&Type::Borrow { value: TypeId::i32(), mutable: true }));
    assert!(checker.ctx.get_value("b").is_none());
    // in one scope the second exclusive borrow is refused
    let (_, diag) = first_error(vec![
        let_stmt(0, "a", None, true, number("1", 8)),
        let_stmt(12, "b", None, false, exclusive(20)),
        let_stmt(50, "c", None, false, exclusive(60)),
    ]);
    assert_eq!(
        diag.kind,
        DiagKind::BorrowConflict { value: "a".to_string(), requested_mut: true, existing_mut: true }
    );
    // a shared borrow beside an exclusive one is refused too
    let shared = Expr::Borrow(BorrowExpr { expr: Box::new(name("a", 61)), range: span(60, 61), mutable: None });
    let (_, diag) = first_error(vec![
        let_stmt(0, "a", None, true, number("1", 8)),
        let_stmt(12, "b", None, false, exclusive(20)),
        let_stmt(50, "c", None, false, shared),
    ]);
    assert_eq!(
        diag.kind,
        DiagKind::BorrowConflict { value: "a".to_string(), requested_mut: false, existing_mut: true }
    );
}

#[test]
fn assignment_needs_a_mutable_place_and_a_fitting_value() {
    let assign = |to: &str, at: usize, value: Expr| {
        Stmt::Expr(Expr::Assign(AssignExpr { left: Box::new(name(to, at)), right: Box::new(value), range: span(at + 2, at + 3) }))
    };
    let (_, diag) = first_error(vec![let_stmt(0, "a", None, false, number("1", 8)), assign("a", 10, number("2", 14))]);
    assert_eq!(diag, Diag::new(DiagKind::AssignToImmutable, span(10, 11)));
    let (_, diag) = first_error(vec![let_stmt(0, "a", None, true, number("1", 8)), assign("a", 10, boolean(true, 14))]);
    assert_eq!(diag, Diag::type_mismatch(TypeId::i32(), TypeId::bool(), span(14, 18)));
    passes(vec![let_stmt(0, "a", None, true, number("1", 8)), assign("a", 10, number("2", 14))]);
    // through brackets
    let grouped = Expr::Assign(AssignExpr {
        left: Box::new(Expr::Group(GroupExpr { expr: Box::new(name("a", 11)), range: span(10, 13) })),
        right: Box::new(number("2", 16)),
        range: span(14, 15),
    });
    passes(vec![let_stmt(0, "a", None, true, number("1", 8)), Stmt::Expr(grouped)]);
    let compound = |at: usize| Stmt::Expr(binary(name("a", at), OperatorKind::ADDEQ, at + 2, number("2", at + 5)));
    passes(vec![let_stmt(0, "a", None, true, number("1", 8)), compound(10)]);
    let (_, diag) = first_error(vec![let_stmt(0, "a", None, false, number("1", 8)), compound(10)]);
    assert_eq!(diag, Diag::new(DiagKind::AssignToImmutable, span(10, 11)));
}

#[test]
fn loops() {
    let body = |at: usize, stmts: Vec<Stmt>| Box::new(Stmt::Block(block(at, at + 20, stmts)));
    let jump = |at: usize| Stmt::Expr(Expr::Break(BaseExpr { range: span(at, at + 5) }));
    let while_stmt = Stmt::While(WhileStmt { test: Box::new(boolean(true, 6)), body: body(11, vec![jump(13)]), range: span(0, 31) });
    let checker = passes(vec![while_stmt]);
    assert_eq!(checker.ctx.scopes.len(), 1);
    let bad = Stmt::While(WhileStmt { test: Box::new(number("1", 6)), body: body(11, vec![]), range: span(0, 31) });
    let (checker, diag) = first_error(vec![bad]);
    assert!(matches!(diag.kind, DiagKind::TypeMismatch { expected, .. } if expected == TypeId::bool()));
    assert_eq!(diag.range, span(6, 7));
    assert_eq!(checker.ctx.scopes.len(), 1);
    let range = binary(number("0", 60), OperatorKind::RANGE, 61, number("10", 63));
    let use_both = let_stmt(72, "s", None, false, binary(name("i", 80), OperatorKind::EQ, 82, name("v", 85)));
    let for_stmt = Stmt::For(ForStmt {
        value: ident("v", 44),
        index: Some(ident("i", 47)),
        iterable: Box::new(range),
        body: body(70, vec![use_both, Stmt::Expr(Expr::Skip(BaseExpr { range: span(88, 92) }))]),
        range: span(40, 90),
    });
    let (_, diag) = first_error(vec![for_stmt]);
    // the item is an i32 and the index a usize: they do not compare
    assert_eq!(diag, Diag::type_mismatch(TypeId::usize(), TypeId::i32(), span(85, 86)));
    let range = binary(number("0", 60), OperatorKind::RANGE, 61, number("10", 63));
    let for_stmt = Stmt::For(ForStmt {
        value: ident("v", 44),
        index: None,
        iterable: Box::new(range),
        body: body(70, vec![let_stmt(72, "s", None, false, name("v", 80))]),
        range: span(40, 90),
    });
    let checker = passes(vec![for_stmt]);
    let handle = checker.ctx.node_type(span(60, 65)).unwrap();
    assert_eq!(checker.ctx.type_store.get_type(handle), Some(&Type::Range { item: TypeId::i32() }));
    assert!(checker.ctx.get_value("v").is_none());
    let not_a_range = Stmt::For(ForStmt { value: ident("v", 44), index: None, iterable: Box::new(number("3", 60)), body: body(70, vec![]), range: span(40, 90) });
    let (_, diag) = first_error(vec![not_a_range]);
    assert!(matches!(diag.kind, DiagKind::InvalidOperator { op: OperatorKind::RANGE, .. }));
}

#[test]
fn every_failing_statement_gives_one_diagnostic() {
    let mut checker = Checker::new(Context::new());
    let program = Program {
        stmts: vec![
            Stmt::Expr(name("nope", 0)),
            let_stmt(10, "a", None, false, number("1", 18)),
            Stmt::Block(block(20, 50, vec![let_stmt(22, "b", None, false, number("1", 30)), Stmt::Expr(name("gone", 35)), Stmt::Expr(name("unseen", 42))])),
            let_stmt(60, "c", None, false, name("a", 68)),
        ],
    };
    let result = checker.check_program(&program);
    assert_eq!(result, Err(Diag::unknown_ident(&"nope".to_string(), span(0, 4))));
    assert_eq!(
        checker.diags,
        vec![
            Diag::unknown_ident(&"nope".to_string(), span(0, 4)),
            Diag::unknown_ident(&"gone".to_string(), span(35, 39)),
        ]
    );
    // the statements that passed are in force, and the block was left
    assert_eq!(checker.ctx.get_value("c").unwrap().type_id, TypeId::i32());
    assert!(checker.ctx.get_value("b").is_none());
    assert_eq!(checker.ctx.scopes.len(), 1);
    // a second program adds to the diagnostics and reports its own first one
    let again = checker.check_program(&Program { stmts: vec![Stmt::Expr(name("late", 70))] });
    assert_eq!(again, Err(Diag::unknown_ident(&"late".to_string(), span(70, 74))));
    assert_eq!(checker.diags.len(), 3);
}

#[test]
fn exit_types() {
    let mut checker = Checker::new(Context::new());
    checker.ctx.enter_scope(ScopeType::new_fn(TypeId::i32()));
    let falls = Stmt::Block(block(0, 20, vec![let_stmt(2, "a", None, false, number("1", 10))]));
    assert_eq!(checker.check_stmt(&falls), Ok(TypeId::nothing()));
    let returns = block(0, 30, vec![let_stmt(2, "a", None, false, number("1", 10)), ret(12, Some(name("a", 16))), Stmt::Expr(name("unseen", 20))]);
    assert_eq!(checker.check_block_stmt(&returns), Ok(TypeId::i32()));
    let arm = |at: usize, value: &str| Box::new(Stmt::Block(block(at, at + 10, vec![ret(at + 1, Some(number(value, at + 5)))])));
    let both = Stmt::If(IfStmt { cond: Box::new(boolean(true, 43)), then: arm(50, "1"), otherwise: Some(arm(70, "2")), range: span(40, 42) });
    assert_eq!(checker.check_stmt(&both), Ok(TypeId::i32()));
    let one = Stmt::If(IfStmt { cond: Box::new(boolean(true, 43)), then: arm(50, "1"), otherwise: None, range: span(40, 42) });
    assert_eq!(checker.check_stmt(&one), Ok(TypeId::nothing()));
    let other_falls = Stmt::If(IfStmt {
        cond: Box::new(boolean(true, 43)),
        then: arm(50, "1"),
        otherwise: Some(Box::new(Stmt::Block(block(70, 80, vec![])))),
        range: span(40, 42),
    });
    assert_eq!(checker.check_stmt(&other_falls), Ok(TypeId::nothing()));
    let in_loop = Stmt::While(WhileStmt { test: Box::new(boolean(true, 6)), body: arm(50, "1"), range: span(0, 60) });
    assert_eq!(checker.check_stmt(&in_loop), Ok(TypeId::nothing()));
    assert_eq!(checker.check_stmt(&ret(0, Some(number("1", 4)))), Ok(TypeId::i32()));
    assert_eq!(checker.ctx.scopes.len(), 2);
    // a function that returns no value
    checker.ctx.enter_scope(ScopeType::new_fn(TypeId::void()));
    assert_eq!(checker.check_stmt(&ret(0, None)), Ok(TypeId::void()));
    assert_eq!(checker.check_stmt(&Stmt::Expr(number("1", 4))), Ok(TypeId::nothing()));
}

#[test]
fn impl_binds_its_functions_under_the_type() {
    let get = function(60, "get", vec![("self", AstType::Ident(ident("P", 75)))], Some(i32_type(80)), FnBody::Expr(Expr::Member(MemberExpr {
        left: Box::new(name("self", 90)),
        method: ident("x", 95),
        range: span(94, 95),
    })));
    let mut bare_self = function(100, "same", vec![], Some(AstType::Ident(ident("P", 120))), FnBody::Expr(name("self", 130)));
    bare_self.params = vec![Binding { ident: ident("self", 110), ty: None }];
    let make = function(140, "make", vec![], Some(AstType::Ident(ident("P", 160))), FnBody::Expr(init(170, 200, "P", vec![("x", 174, number("1", 177)), ("y", 180, boolean(true, 183))])));
    let implement = Stmt::Impl(ImplStmt { self_name: ident("P", 55), items: vec![get, bare_self, make], range: span(50, 210) });
    let made = call(Expr::Associate(AssociateExpr { self_name: ident("P", 220), method: ident("make", 223), range: span(220, 227) }), 227, 229, vec![]);
    let got = call(Expr::Associate(AssociateExpr { self_name: ident("P", 240), method: ident("get", 243), range: span(240, 246) }), 246, 249, vec![name("p", 247)]);
    let checker = passes(vec![
        point_def(0),
        implement,
        let_stmt(212, "p", None, false, made),
        let_stmt(232, "x", None, false, got),
    ]);
    let p = checker.ctx.get_type_value("P").unwrap().type_id;
    assert_eq!(checker.ctx.get_value("p").unwrap().type_id, p);
    assert_eq!(checker.ctx.get_value("x").unwrap().type_id, TypeId::i32());
    let same = checker.ctx.get_fn_value("P::same").unwrap().type_id;
    assert_eq!(checker.ctx.type_store.get_type(same), Some(&Type::Fn { params: vec![p], ret: p, generics: vec![] }));
    assert!(checker.ctx.get_fn_value("get").is_none());
    assert_eq!(checker.ctx.scopes.len(), 1);
    let gone = Expr::Associate(AssociateExpr { self_name: ident("P", 220), method: ident("lost", 223), range: span(220, 227) });
    let (_, diag) = first_error(vec![point_def(0), Stmt::Expr(gone)]);
    assert_eq!(diag, Diag::unknown_ident(&"lost".to_string(), span(223, 227)));
    let (_, diag) = first_error(vec![Stmt::Impl(ImplStmt { self_name: ident("Z", 55), items: vec![], range: span(50, 60) })]);
    assert_eq!(diag, Diag::unknown_type(&"Z".to_string(), span(55, 56)));
}

#[test]
fn other_definitions() {
    let constant = Stmt::ConstDel(ConstDelStmt { name: Binding { ident: ident("K", 6), ty: None }, expr: number("5", 10), range: span(0, 5), is_pub: false });
    let alias = Stmt::TypeDef(TypeDefStmt { name: ident("Int", 25), range: span(20, 35), kind: TypeDefKind::Alias(AstType::Number { number: Number::I64, range: span(31, 34) }), is_pub: true });
    let external = Stmt::ExternFn(ExternFnStmt {
        name: ident("puts", 50),
        params: vec![Binding { ident: ident("text", 55), ty: Some(AstType::Str { range: span(61, 64) }) }],
        ret_type: None,
        extern_range: span(40, 46),
        range: span(40, 66),
        fn_range: span(47, 49),
        var_packed: None,
        is_pub: false,
    });
    let piped = Expr::Pipe(PipeExpr { left: Box::new(string("hi", 70)), right: Box::new(name("puts", 78)), range: span(75, 77) });
    let checker = passes(vec![
        constant,
        alias,
        external,
        Stmt::Expr(piped),
        let_stmt(90, "n", Some(AstType::Ident(ident("Int", 97))), false, number("7", 103)),
        let_stmt(110, "k", None, false, name("K", 118)),
    ]);
    assert_eq!(checker.ctx.get_value("n").unwrap().type_id, TypeId::i64());
    assert_eq!(checker.ctx.get_value("k").unwrap().type_id, TypeId::i32());
    let k = checker.ctx.get_value("K").unwrap();
    assert_eq!((k.type_id, k.is_mut), (TypeId::i32(), false));
    assert_eq!(checker.ctx.get_type_value("Int").unwrap().type_id, TypeId::i64());
    assert!(checker.ctx.get_fn_value("puts").unwrap().is_external());
    assert_eq!(checker.ctx.node_type(span(70, 82)), Some(TypeId::void()));
    let _ = checker;
    let piped = Expr::Pipe(PipeExpr { left: Box::new(number("1", 70)), right: Box::new(number("2", 78)), range: span(75, 77) });
    let (_, diag) = first_error(vec![Stmt::Expr(piped)]);
    assert!(matches!(diag.kind, DiagKind::NotAFunction { .. }));
    assert_eq!(diag.range, span(78, 79));
}

#[test]
fn a_function_stands_where_its_type_is_written() {
    // fn twice(f: fn(i32): i32, v: i32): i32 = f(f(v)); fn inc(a: i32): i32 = a + 1; twice(inc, 3)
    let fn_type = AstType::Fn { params: vec![i32_type(14)], ret: Box::new(i32_type(20)), range: span(11, 23) };
    let inner = call(name("f", 42), 43, 46, vec![name("v", 44)]);
    let outer = call(name("f", 40), 41, 47, vec![inner]);
    let twice = function(0, "twice", vec![("f", fn_type), ("v", i32_type(28))], Some(i32_type(34)), FnBody::Expr(outer));
    let inc = function(50, "inc", vec![("a", i32_type(62))], Some(i32_type(70)), FnBody::Expr(binary(name("a", 80), OperatorKind::ADD, 82, number("1", 84))));
    let checker = passes(vec![
        Stmt::Fn(twice),
        Stmt::Fn(inc),
        let_stmt(90, "r", None, false, call(name("twice", 100), 105, 113, vec![name("inc", 106), number("3", 111)])),
    ]);
    assert_eq!(checker.ctx.get_value("r").unwrap().type_id, TypeId::i32());
    // the annotation and the function have handles of their own
    let written = checker.ctx.get_value("f").map(|v| v.type_id);
    assert!(written.is_none());
    let inc = checker.ctx.get_fn_value("inc").unwrap().type_id;
    let twice = checker.ctx.get_fn_value("twice").unwrap().type_id;
    match checker.ctx.type_store.get_type(twice) {
        Some(Type::Fn { params, .. }) => {
            assert_ne!(params[0], inc);
            assert!(checker.equal_type_id(params[0], inc));
        }
        other => panic!("{:?}", other),
    }
    // a function of another type is refused
    let fn_type = AstType::Fn { params: vec![i32_type(14)], ret: Box::new(i32_type(20)), range: span(11, 23) };
    let twice = function(0, "twice", vec![("f", fn_type), ("v", i32_type(28))], Some(i32_type(34)), FnBody::Expr(name("v", 40)));
    let not = function(50, "not", vec![("a", AstType::Bool { range: span(62, 66) })], Some(i32_type(70)), FnBody::Expr(number("1", 80)));
    let (_, diag) = first_error(vec![
        Stmt::Fn(twice),
        Stmt::Fn(not),
        Stmt::Expr(call(name("twice", 100), 105, 113, vec![name("not", 106), number("3", 111)])),
    ]);
    assert!(matches!(diag.kind, DiagKind::TypeMismatch { .. }));
    assert_eq!(diag.range, span(106, 109));
}

#[test]
fn checking_a_dereference_records_its_type() {
    let borrow = Expr::Borrow(BorrowExpr { expr: Box::new(name("x", 20)), range: span(19, 20), mutable: None });
    let mut checker = passes(vec![
        let_stmt(0, "x", None, false, number("1", 8)),
        let_stmt(11, "p", None, false, borrow),
    ]);
    let deref = DerefExpr { expr: Box::new(name("p", 31)), range: span(30, 31) };
    assert_eq!(checker.ctx.node_type(span(30, 32)), None);
    assert_eq!(checker.check_deref_expr(&deref), Ok(TypeId::i32()));
    assert_eq!(checker.ctx.node_type(span(30, 32)), Some(TypeId::i32()));
    let wrong = DerefExpr { expr: Box::new(name("x", 41)), range: span(40, 41) };
    assert_eq!(checker.check_deref_expr(&wrong), Err(Diag::cannot_dereference(TypeId::i32(), span(40, 42))));
    assert_eq!(checker.ctx.node_type(span(40, 42)), None);
}

#[test]
fn the_fields_of_a_definition_can_be_changed_in_place() {
    let mut definition = match point_def(0) {
        Stmt::TypeDef(definition) => definition,
        other => panic!("{:?}", other),
    };
    definition.get_struct_def().expect("a struct").fields.pop();
    assert_eq!(definition.get_struct_def().unwrap().fields.len(), 1);
    assert!(definition.get_alias().is_none());
    let mut alias = TypeDefStmt { name: ident("Int", 5), range: span(0, 15), kind: TypeDefKind::Alias(i32_type(11)), is_pub: false };
    assert!(alias.get_struct_def().is_none());
    assert_eq!(alias.get_alias(), Some(&i32_type(11)));
}
