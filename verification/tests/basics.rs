use ln_core::ast::{
    BaseExpr, BinaryExpr, BlockStmt, Expr, Ident, ImportExpr, Literal, NumberLiteral, Operator,
    OperatorKind, RetStmt, Stmt, StringLiteral, ADD_PDE, CMP_PDE, MAX_PDE, MIN_PDE, MUL_PDE,
    UNA_PDE,
};
use ln_core::builder::layout::{is_need_heap_allocation, layout, Layout, STACK_LIMIT};
use ln_core::checker::context::borrow::{Borrow, BorrowId, BorrowStore};
use ln_core::checker::context::scope::{Scope, ScopeId, ScopeType};
use ln_core::checker::context::value::{Value, ValueId, ValueOrigin};
use ln_core::checker::context::Context;
use ln_core::checker::equal_type::equal_type_id;
use ln_core::checker::infer::{infer_no_type_anotation, infer_type, unify_types};
use ln_core::checker::types::{FieldType, IntKind, Number, Type, TypeId, TypeStore};
use ln_core::diag::{Diag, DiagKind};
use ln_core::loader::{Loader, Source};
use ln_core::range::{ModId, Range};
use ln_core::text::{bits_of, decimal_string, digit_of, parse_literal};

fn span(start: usize, end: usize) -> Range {
    Range::new(start, end, ModId::new(0))
}

#[test]
fn merged_range_is_the_hull() {
    let a = span(4, 9);
    let b = span(2, 6);
    assert_eq!(a.merged_with(&b), span(2, 9));
    assert_eq!(b.merged_with(&a), span(2, 9));
    assert_eq!(a.merged_with(&a), a);
    assert_eq!(a.len(), 5);
    assert_eq!(span(7, 3).len(), 0);
    let other = Range::new(0, 1, ModId::new(3));
    assert_eq!(other.merged_with(&a).mod_id, ModId::new(3));
}

#[test]
fn reserved_handles_denote_the_primitive_types() {
    let store = TypeStore::default();
    assert_eq!(store.len(), TypeId::LENGTH);
    assert_eq!(store.get_type(TypeId::void()), Some(&Type::Void));
    assert_eq!(store.get_type(TypeId::bool()), Some(&Type::Bool));
    assert_eq!(store.get_type(TypeId::str()), Some(&Type::Str));
    assert_eq!(store.get_type(TypeId::string()), Some(&Type::String));
    assert_eq!(store.get_type(TypeId::char()), Some(&Type::Char));
    assert_eq!(store.get_type(TypeId::i8()), Some(&Type::Int(IntKind::I8)));
    assert_eq!(store.get_type(TypeId::i32()), Some(&Number::I32.as_type()));
    assert_eq!(store.get_type(TypeId::isize()), Some(&Number::Isize.as_type()));
    assert_eq!(store.get_type(TypeId::u8()), Some(&Number::U8.as_type()));
    assert_eq!(store.get_type(TypeId::usize()), Some(&Number::Usize.as_type()));
    assert_eq!(store.get_type(TypeId::float32()), Some(&Number::F32.as_type()));
    assert_eq!(store.get_type(TypeId::float64()), Some(&Number::F64.as_type()));
    assert_eq!(store.get_type(TypeId::nothing()), Some(&Type::Nothing));
    assert_eq!(TypeId::void(), TypeId::new(0));
    assert_eq!(TypeId::nothing(), TypeId::new(17));
    assert_eq!(TypeId::from(&Number::U64), TypeId::u64());
    assert_eq!(TypeId::from(&Number::F32), TypeId::new(15));
}

#[test]
fn added_types_keep_their_handles() {
    let mut store = TypeStore::default();
    let first = store.add_type(Type::Borrow { value: TypeId::i32(), mutable: true });
    let second = store.add_type(Type::Borrow { value: TypeId::i32(), mutable: true });
    assert_eq!(first, TypeId::new(18));
    assert_eq!(second, TypeId::new(19));
    assert_eq!(store.get_type(first), Some(&Type::Borrow { value: TypeId::i32(), mutable: true }));
    let third = store.add_type(Type::InferInt { bits: 3 });
    assert_eq!(store.get_type(first), Some(&Type::Borrow { value: TypeId::i32(), mutable: true }));
    assert_eq!(store.get_type(third), Some(&Type::InferInt { bits: 3 }));
    assert_eq!(store.get_type(TypeId::i32()), Some(&Number::I32.as_type()));
    assert_eq!(store.get_type(TypeId::new(21)), None);
    let empty = TypeStore::new(vec![]);
    assert_eq!(empty.get_type(TypeId::void()), None);
}

#[test]
fn type_id_classes() {
    assert!(TypeId::i32().is_known());
    assert!(!TypeId::new(18).is_known());
    assert!(TypeId::nothing().is_nothing());
    assert!(!TypeId::void().is_nothing());
    assert!(TypeId::void().is_void());
    assert!(TypeId::void().is_empty_type() && TypeId::nothing().is_empty_type());
    assert!(!TypeId::bool().is_empty_type());
    assert!(TypeId::i8().is_number() && TypeId::float64().is_number());
    assert!(!TypeId::char().is_number() && !TypeId::nothing().is_number());
    assert!(TypeId::usize().is_integer() && !TypeId::float32().is_integer());
    assert!(TypeId::isize().is_signed() && !TypeId::u8().is_signed());
    assert!(TypeId::float32().is_float() && !TypeId::usize().is_float());
    assert_eq!(TypeId::new(42).as_usize(), 42);
}

#[test]
fn types_are_displayed() {
    let mut store = TypeStore::default();
    let shared = store.add_type(Type::Borrow { value: TypeId::i32(), mutable: false });
    let exclusive = store.add_type(Type::Borrow { value: shared, mutable: true });
    let point = store.add_type(Type::Struct {
        fields: vec![
            FieldType::new("x".to_string(), TypeId::i32(), true),
            FieldType::new("next".to_string(), exclusive, false),
        ],
    });
    let function = store.add_type(Type::Fn {
        params: vec![TypeId::i8(), point],
        ret: TypeId::bool(),
        generics: vec![],
    });
    let range = store.add_type(Type::Range { item: TypeId::usize() });
    let alias = store.add_type(Type::Alias(TypeId::float64()));
    let nothing_in = store.add_type(Type::Struct { fields: vec![] });
    let no_params = store.add_type(Type::Fn { params: vec![], ret: TypeId::void(), generics: vec![] });
    assert_eq!(store.display(TypeId::i32()), "i32");
    assert_eq!(store.display(TypeId::float32()), format!("f{}", 32));
    assert_eq!(store.display(TypeId::string()), "string");
    assert_eq!(store.display(shared), "&i32");
    assert_eq!(store.display(exclusive), "&mut &i32");
    assert_eq!(store.display(point), "struct { x: i32, next: &mut &i32 }");
    assert_eq!(store.display(function), "fn(i8, struct { x: i32, next: &mut &i32 }): bool");
    assert_eq!(store.display(range), "range<usize>");
    assert_eq!(store.display(alias), format!("f{}", 64));
    assert_eq!(store.display(nothing_in), "struct { }");
    assert_eq!(store.display(no_params), "fn(): void");
    assert_eq!(store.display(TypeId::new(999)), "?");
    let mut text = String::from("type ");
    TypeId::u16().display_type(&mut text, &store);
    assert_eq!(text, "type u16");
}

#[test]
fn a_reference_to_itself_is_displayed_to_a_depth() {
    // handle 0 is a reference to handle 0
    let store = TypeStore::new(vec![Type::Borrow { value: TypeId::new(0), mutable: false }]);
    assert_eq!(store.display(TypeId::new(0)), "&...");
    assert!(equal_type_id(&store, TypeId::new(0), TypeId::new(0)));
}

#[test]
fn borrow_store_keeps_the_borrow_rule() {
    let mut store = BorrowStore::default();
    let v = ValueId(7);
    let w = ValueId(8);
    assert!(store.can_borrow_as(v, false));
    assert!(store.can_borrow_as(v, true));
    let first = store.add_borrow(v, false);
    let second = store.add_borrow(v, false);
    assert_eq!(first, BorrowId(0));
    assert_eq!(second, BorrowId(1));
    assert_eq!(store.holds(v), (true, false));
    assert!(store.can_borrow_as(v, false));
    assert!(!store.can_borrow_as(v, true));
    assert!(store.conflicts_with_borrow(v, true));
    assert!(store.can_borrow_as(w, true));
    let third = store.add_borrow(w, true);
    assert!(!store.can_borrow_as(w, false));
    assert!(!store.can_borrow_as(w, true));
    assert_eq!(store.get_borrow(third), Some(&Borrow { value_id: w, is_mut: true }));
    store.drop_borrows(first);
    assert!(!store.can_borrow_as(v, true));
    assert_eq!(store.get_borrow(first), None);
    store.drop_borrows(second);
    assert!(store.can_borrow_as(v, true));
    // releasing again, or releasing what was never given out, changes nothing
    store.drop_borrows(second);
    store.drop_borrows(BorrowId(99));
    assert_eq!(store.len(), 3);
    assert_eq!(store.holds(w), (false, true));
    store.drop_borrows(third);
    assert!(store.can_borrow_as(w, true));
    // a new borrow never takes the handle of a released one
    assert_eq!(store.add_borrow(w, false), BorrowId(3));
}

#[test]
fn scope_kinds() {
    assert_eq!(ScopeType::new_fn(TypeId::i32()).ret_scope(), Some(TypeId::i32()));
    assert_eq!(ScopeType::new_const_fn(TypeId::u8()).ret_scope(), Some(TypeId::u8()));
    assert_eq!(ScopeType::new_loop().ret_scope(), None);
    assert_eq!(ScopeType::new_impl(TypeId::new(30)).self_type(), Some(TypeId::new(30)));
    assert_eq!(ScopeType::new_block().self_type(), None);
    assert_eq!(
        ScopeType::new_accessor(TypeId::new(30), false).accessor_type(),
        Some(TypeId::new(30))
    );
    assert_eq!(ScopeType::new_global().accessor_type(), None);
    assert!(ScopeType::new_fn(TypeId::void()).is_fn());
    assert!(ScopeType::new_const_fn(TypeId::void()).is_fn());
    assert!(ScopeType::new_const_fn(TypeId::void()).is_const_fn());
    assert!(!ScopeType::new_fn(TypeId::void()).is_const_fn());
    assert!(ScopeType::new_loop().is_loop() && !ScopeType::new_block().is_loop());
    assert!(ScopeType::new_block().is_block());
    assert!(ScopeType::new_global().is_global());
    assert!(ScopeType::new_impl(TypeId::i8()).is_impl());
    assert!(ScopeType::new_accessor_method(TypeId::i8()).is_accessor());
    assert!(ScopeType::new_accessor_associate(TypeId::i8()).is_accessor_associate());
    assert!(!ScopeType::new_accessor_method(TypeId::i8()).is_accessor_associate());
    assert!(!ScopeType::new_loop().is_accessor_associate());
    assert_eq!(ScopeId(5).as_usize(), 5);
}

#[test]
fn scope_binds_names_in_three_namespaces() {
    let mut scope = Scope::new(ScopeType::new_block());
    assert!(scope.is_block_scope());
    assert!(!scope.has_value("x"));
    assert_eq!(scope.get_value("x"), None);
    let x = Value::new_scoped(ValueId(0), TypeId::i32(), false);
    let f = Value::new_external(ValueId(1), TypeId::new(20), false);
    scope.add_value("x".to_string(), x);
    scope.add_fn_value("f".to_string(), f);
    scope.add_type_value("T".to_string(), Value::new_scoped(ValueId(2), TypeId::new(21), false));
    assert!(scope.has_value("x"));
    assert!(!scope.has_value("f") && !scope.has_value("T"));
    assert!(scope.has_fn_value("f") && !scope.has_fn_value("x"));
    assert!(scope.has_type_value("T") && !scope.has_type_value("x"));
    assert_eq!(scope.get_value("x"), Some(&x));
    assert_eq!(scope.get_fn_value("f"), Some(&f));
    assert_eq!(scope.get_type_value("T").unwrap().type_id, TypeId::new(21));
    assert!(f.is_external() && !x.is_external());
    assert_eq!(f.origin, ValueOrigin::External);
    // a second binding of the name takes the place of the first
    let shadow = Value::new_scoped(ValueId(3), TypeId::bool(), true);
    scope.add_value("x".to_string(), shadow);
    assert_eq!(scope.get_value("x"), Some(&shadow));
    assert_eq!(Scope::default().scope_type, ScopeType::Global);
    assert!(Scope::default().is_global_scope());
    assert_eq!(Scope::new(ScopeType::new_fn(TypeId::i8())).ret_scope(), Some(TypeId::i8()));
    assert!(Scope::new(ScopeType::new_fn(TypeId::i8())).is_fn_scope());
    assert!(Scope::new(ScopeType::new_loop()).is_loop_scope());
    assert!(Scope::new(ScopeType::new_impl(TypeId::i8())).is_impl_scope());
    assert_eq!(Scope::new(ScopeType::new_impl(TypeId::i8())).self_scope(), Some(TypeId::i8()));
    let accessor = Scope::new(ScopeType::new_accessor_associate(TypeId::i8()));
    assert!(accessor.is_accessor_scope() && accessor.is_accessor_associate_scope());
    assert_eq!(accessor.accessor_type(), Some(TypeId::i8()));
}

#[test]
fn scope_borrows() {
    let mut scope = Scope::new(ScopeType::new_block());
    let v = ValueId(1);
    assert!(scope.can_borrow_as(v, true));
    let id = scope.add_borrow_value(v, true);
    assert_eq!(scope.get_borrow_value(id), Some(&Borrow { value_id: v, is_mut: true }));
    assert!(!scope.can_borrow_as(v, false));
    scope.drop_borrows(id);
    assert!(scope.can_borrow_as(v, false));
    assert_eq!(scope.get_borrow_value(id), None);
}

#[test]
fn context_scopes_and_values() {
    let mut ctx = Context::new();
    assert_eq!(ctx.scopes.len(), 1);
    assert!(ctx.get_scope().is_global_scope());
    assert!(!ctx.has_fn_scope() && !ctx.has_loop_scope());
    assert_eq!(ctx.get_fn_scope_ret_type(), None);
    let outer = ctx.add_value("x", TypeId::i32(), false);
    assert_eq!(outer, ValueId(0));
    ctx.enter_scope(ScopeType::new_fn(TypeId::i64()));
    ctx.enter_scope(ScopeType::new_loop());
    ctx.enter_scope(ScopeType::new_fn(TypeId::u8()));
    ctx.enter_scope(ScopeType::new_block());
    assert!(ctx.has_fn_scope() && ctx.has_loop_scope());
    assert_eq!(ctx.get_fn_scope_ret_type(), Some(TypeId::u8()));
    let inner = ctx.add_value_external("x", TypeId::bool(), true);
    assert_eq!(inner, ValueId(1));
    assert_eq!(ctx.value_counter, ValueId(2));
    let found = ctx.get_value("x").unwrap();
    assert_eq!((found.id, found.type_id, found.is_mut), (inner, TypeId::bool(), true));
    assert!(found.is_external());
    ctx.exit_scope();
    ctx.exit_scope();
    assert_eq!(ctx.get_fn_scope_ret_type(), Some(TypeId::i64()));
    let found = ctx.get_value("x").unwrap();
    assert_eq!((found.id, found.type_id), (outer, TypeId::i32()));
    assert_eq!(ctx.get_value("y"), None);
    ctx.exit_scope();
    ctx.exit_scope();
    // the bottom scope is never left
    ctx.exit_scope();
    assert_eq!(ctx.scopes.len(), 1);
    assert!(ctx.get_scope().is_global_scope());
    assert!(ctx.get_value("x").is_some());
    ctx.get_scope_mut().add_fn_value("f".to_string(), Value::new_scoped(ValueId(9), TypeId::i8(), false));
    assert_eq!(ctx.get_fn_value("f").unwrap().id, ValueId(9));
    assert_eq!(ctx.get_type_store().len(), 18);
    let last = ValueId(u64::MAX);
    let mut counter = last;
    assert_eq!(counter.next_id(), last);
    assert_eq!(counter, last);
    assert_eq!(ValueId::init().as_u64(), 0);
}

#[test]
fn context_borrows_over_all_scopes() {
    let mut ctx = Context::default();
    let v = ctx.add_value("v", TypeId::i32(), true);
    assert!(!ctx.conflicts_with_borrow(v, true));
    let wide = ctx.add_borrow(v, false).expect("nothing stands against it");
    ctx.enter_scope(ScopeType::new_block());
    assert_eq!(ctx.add_scoped_borrow(v, false), Some(BorrowId(0)));
    assert_eq!(ctx.holds(v), (true, false));
    assert!(ctx.conflicts_with_borrow(v, true));
    assert_eq!(ctx.add_borrow(v, true), None);
    assert_eq!(ctx.add_scoped_borrow(v, true), None);
    ctx.release_borrow(wide);
    // the borrow of the scope still stands
    assert!(ctx.conflicts_with_borrow(v, true));
    ctx.exit_scope();
    // the scope took its borrow with it
    assert!(!ctx.conflicts_with_borrow(v, true));
    ctx.enter_scope(ScopeType::new_block());
    assert!(ctx.add_scoped_borrow(v, true).is_some());
    ctx.enter_scope(ScopeType::new_block());
    assert!(ctx.conflicts_with_borrow(v, false));
    assert_eq!(ctx.holds(v), (false, true));
    assert_eq!(ctx.add_scoped_borrow(v, false), None);
    ctx.exit_scope();
    ctx.exit_scope();
    assert!(ctx.add_borrow(v, true).is_some());
}

#[test]
fn equality_of_types() {
    let mut store = TypeStore::default();
    let shared = store.add_type(Type::Borrow { value: TypeId::i32(), mutable: false });
    let exclusive = store.add_type(Type::Borrow { value: TypeId::i32(), mutable: true });
    let shared_again = store.add_type(Type::Borrow { value: TypeId::i32(), mutable: false });
    let to_bool = store.add_type(Type::Borrow { value: TypeId::bool(), mutable: false });
    let shared_shared = store.add_type(Type::Borrow { value: shared, mutable: false });
    let shared_exclusive = store.add_type(Type::Borrow { value: exclusive, mutable: false });
    let same_struct = store.add_type(Type::Struct { fields: vec![] });
    let other_struct = store.add_type(Type::Struct { fields: vec![] });
    for id in [TypeId::i32(), shared, exclusive, same_struct, TypeId::new(500)] {
        assert!(equal_type_id(&store, id, id));
    }
    assert!(equal_type_id(&store, TypeId::void(), TypeId::nothing()));
    assert!(equal_type_id(&store, TypeId::nothing(), TypeId::void()));
    assert!(!equal_type_id(&store, TypeId::i32(), TypeId::i64()));
    // two references of one kind to one type
    assert!(equal_type_id(&store, shared, shared_again));
    assert!(equal_type_id(&store, shared_again, shared));
    assert!(!equal_type_id(&store, shared, to_bool));
    // an exclusive reference where a shared one is expected, and not the other way
    assert!(equal_type_id(&store, shared, exclusive));
    assert!(!equal_type_id(&store, exclusive, shared));
    assert!(equal_type_id(&store, shared_shared, shared_exclusive));
    assert!(!equal_type_id(&store, shared_exclusive, shared_shared));
    // a type that the store holds twice is one type
    assert!(equal_type_id(&store, same_struct, other_struct));
    let again = store.add_type(Type::Bool);
    assert!(equal_type_id(&store, TypeId::bool(), again));
    assert!(equal_type_id(&store, again, TypeId::bool()));
    let function = |store: &mut TypeStore, ret: TypeId| {
        store.add_type(Type::Fn { params: vec![TypeId::i32(), shared], ret, generics: vec![] })
    };
    let first = function(&mut store, TypeId::bool());
    let second = function(&mut store, TypeId::bool());
    let third = function(&mut store, TypeId::char());
    assert!(equal_type_id(&store, first, second) && equal_type_id(&store, second, first));
    assert!(!equal_type_id(&store, first, third));
    let point = |store: &mut TypeStore, name: &str, of: TypeId, is_pub: bool| {
        store.add_type(Type::Struct {
            fields: vec![
                FieldType::new("x".to_string(), TypeId::i32(), true),
                FieldType::new(name.to_string(), of, is_pub),
            ],
        })
    };
    let p = point(&mut store, "y", TypeId::bool(), true);
    let same = point(&mut store, "y", TypeId::bool(), true);
    let other_name = point(&mut store, "z", TypeId::bool(), true);
    let other_type = point(&mut store, "y", TypeId::char(), true);
    let hidden = point(&mut store, "y", TypeId::bool(), false);
    assert!(equal_type_id(&store, p, same) && equal_type_id(&store, same, p));
    assert!(!equal_type_id(&store, p, other_name));
    assert!(!equal_type_id(&store, p, other_type));
    assert!(!equal_type_id(&store, p, hidden));
    assert!(!equal_type_id(&store, p, same_struct));
    assert!(!equal_type_id(&store, p, first));
    // a reference is no struct, and a handle of no type is no type
    assert!(!equal_type_id(&store, shared, TypeId::i32()));
    assert!(!equal_type_id(&store, TypeId::new(500), TypeId::new(501)));
    assert!(!equal_type_id(&store, TypeId::new(500), TypeId::i32()));
    assert!(Type::Range { item: TypeId::u8() }.same(&Type::Range { item: TypeId::u8() }));
    assert!(!Type::Alias(TypeId::u8()).same(&Type::Range { item: TypeId::u8() }));
}

#[test]
fn literals_take_the_expected_type_where_they_fit() {
    let mut store = TypeStore::default();
    let one_bit = store.add_type(Type::InferInt { bits: 1 });
    let eight = store.add_type(Type::InferInt { bits: 8 });
    let nine = store.add_type(Type::InferInt { bits: 9 });
    let seventeen = store.add_type(Type::InferInt { bits: 17 });
    let thirty_three = store.add_type(Type::InferInt { bits: 33 });
    let sixty_four = store.add_type(Type::InferInt { bits: 64 });
    let fraction = store.add_type(Type::InferFloat { bits: 32 });
    let wide_fraction = store.add_type(Type::InferFloat { bits: 64 });
    assert_eq!(infer_type(&store, TypeId::i8(), one_bit), TypeId::i8());
    assert_eq!(infer_type(&store, TypeId::i8(), eight), TypeId::i8());
    assert_eq!(infer_type(&store, TypeId::i8(), nine), nine);
    assert_eq!(infer_type(&store, TypeId::u8(), eight), TypeId::u8());
    assert_eq!(infer_type(&store, TypeId::u8(), nine), nine);
    assert_eq!(infer_type(&store, TypeId::i16(), nine), TypeId::i16());
    assert_eq!(infer_type(&store, TypeId::i16(), seventeen), seventeen);
    assert_eq!(infer_type(&store, TypeId::u16(), seventeen), seventeen);
    assert_eq!(infer_type(&store, TypeId::i32(), seventeen), TypeId::i32());
    assert_eq!(infer_type(&store, TypeId::u32(), seventeen), TypeId::u32());
    assert_eq!(infer_type(&store, TypeId::i32(), thirty_three), thirty_three);
    assert_eq!(infer_type(&store, TypeId::u32(), thirty_three), thirty_three);
    assert_eq!(infer_type(&store, TypeId::i64(), thirty_three), TypeId::i64());
    assert_eq!(infer_type(&store, TypeId::u64(), sixty_four), TypeId::u64());
    assert_eq!(infer_type(&store, TypeId::isize(), sixty_four), TypeId::isize());
    assert_eq!(infer_type(&store, TypeId::usize(), sixty_four), TypeId::usize());
    // what is expected is no integer type: the literal stays as it is
    assert_eq!(infer_type(&store, TypeId::bool(), one_bit), one_bit);
    assert_eq!(infer_type(&store, TypeId::float64(), one_bit), one_bit);
    assert_eq!(infer_type(&store, TypeId::new(900), one_bit), one_bit);
    // what is found is no literal: it stays as it is
    assert_eq!(infer_type(&store, TypeId::i8(), TypeId::i64()), TypeId::i64());
    assert_eq!(infer_type(&store, TypeId::i8(), TypeId::new(900)), TypeId::new(900));
    assert_eq!(infer_type(&store, TypeId::float32(), fraction), TypeId::float32());
    assert_eq!(infer_type(&store, TypeId::float64(), fraction), TypeId::float64());
    assert_eq!(infer_type(&store, TypeId::float32(), wide_fraction), wide_fraction);
    assert_eq!(infer_type(&store, TypeId::float64(), wide_fraction), TypeId::float64());
    assert_eq!(infer_type(&store, TypeId::i32(), fraction), fraction);
    assert_eq!(infer_no_type_anotation(&store, sixty_four), TypeId::i32());
    assert_eq!(infer_no_type_anotation(&store, fraction), TypeId::float64());
    assert_eq!(infer_no_type_anotation(&store, TypeId::u8()), TypeId::u8());
    assert_eq!(unify_types(&store, one_bit, TypeId::u16()), Ok(TypeId::u16()));
    assert_eq!(unify_types(&store, TypeId::u16(), one_bit), Ok(TypeId::u16()));
    assert_eq!(unify_types(&store, one_bit, nine), Ok(nine));
    assert_eq!(unify_types(&store, nine, one_bit), Ok(nine));
    assert_eq!(unify_types(&store, fraction, wide_fraction), Ok(wide_fraction));
    assert_eq!(unify_types(&store, one_bit, fraction), Err((one_bit, fraction)));
    assert_eq!(unify_types(&store, TypeId::i8(), TypeId::u8()), Err((TypeId::i8(), TypeId::u8())));
    assert_eq!(unify_types(&store, nine, TypeId::u8()), Err((nine, TypeId::u8())));
}

#[test]
fn number_literals_are_read() {
    assert_eq!(parse_literal("0", 10), Some(0));
    assert_eq!(parse_literal("42", 10), Some(42));
    assert_eq!(parse_literal("007", 10), Some(7));
    assert_eq!(parse_literal("ff", 16), Some(255));
    assert_eq!(parse_literal("0xFf", 16), Some(255));
    assert_eq!(parse_literal("0X10", 16), Some(16));
    assert_eq!(parse_literal("0b101", 2), Some(5));
    assert_eq!(parse_literal("101", 2), Some(5));
    assert_eq!(parse_literal("18446744073709551615", 10), Some(u64::MAX));
    assert_eq!(parse_literal("18446744073709551616", 10), None);
    assert_eq!(parse_literal("0xffffffffffffffff", 16), Some(u64::MAX));
    assert_eq!(parse_literal("0x10000000000000000", 16), None);
    assert_eq!(parse_literal("", 10), None);
    assert_eq!(parse_literal("0x", 16), None);
    assert_eq!(parse_literal("12a", 10), None);
    assert_eq!(parse_literal("102", 2), None);
    assert_eq!(parse_literal("0x10", 10), None);
    assert_eq!(parse_literal("-1", 10), None);
    assert_eq!(parse_literal("1_000", 10), None);
    assert_eq!(parse_literal("1", 0), None);
    assert_eq!(parse_literal("000", 1), Some(0));
    assert_eq!(digit_of('7'), Some(7));
    assert_eq!(digit_of('c'), Some(12));
    assert_eq!(digit_of('F'), Some(15));
    assert_eq!(digit_of('g'), None);
    assert_eq!(digit_of(' '), None);
}

#[test]
fn widths_and_decimal_text() {
    assert_eq!(bits_of(0), 1);
    assert_eq!(bits_of(1), 1);
    assert_eq!(bits_of(2), 2);
    assert_eq!(bits_of(3), 2);
    assert_eq!(bits_of(4), 3);
    assert_eq!(bits_of(255), 8);
    assert_eq!(bits_of(256), 9);
    assert_eq!(bits_of(u32::MAX as u64), 32);
    assert_eq!(bits_of(u64::MAX), 64);
    assert_eq!(decimal_string(0), "0");
    assert_eq!(decimal_string(9), "9");
    assert_eq!(decimal_string(10), "10");
    assert_eq!(decimal_string(1203), "1203");
    assert_eq!(decimal_string(u64::MAX), "18446744073709551615");
    for text in ["0x2A", "0b101010", "42"] {
        let base = if text.starts_with("0x") { 16 } else if text.starts_with("0b") { 2 } else { 10 };
        let value = parse_literal(text, base).unwrap();
        assert_eq!(parse_literal(&decimal_string(value), 10), Some(42));
    }
}

#[test]
fn operators() {
    let at = span(0, 1);
    let op = |kind| Operator { kind, range: at };
    assert_eq!(op(OperatorKind::LT).pde(), CMP_PDE);
    assert_eq!(op(OperatorKind::NOTEQ).pde(), CMP_PDE);
    assert_eq!(op(OperatorKind::ADD).pde(), ADD_PDE);
    assert_eq!(op(OperatorKind::SUB).pde(), ADD_PDE);
    assert_eq!(op(OperatorKind::MOD).pde(), MUL_PDE);
    assert_eq!(op(OperatorKind::POW).pde(), MAX_PDE);
    assert_eq!(op(OperatorKind::NOT).pde(), UNA_PDE);
    assert_eq!(op(OperatorKind::PIPE).pde(), MIN_PDE);
    assert_eq!(op(OperatorKind::RANGE).pde(), MIN_PDE);
    assert_eq!(op(OperatorKind::SHL).pde(), MIN_PDE);
    assert_eq!((MIN_PDE, CMP_PDE, ADD_PDE, MUL_PDE, MAX_PDE, UNA_PDE), (0, 1, 2, 3, 4, 5));
    assert_eq!(op(OperatorKind::PIPE).next_pde(), 1);
    assert_eq!(op(OperatorKind::EQ).next_pde(), 2);
    assert_eq!(op(OperatorKind::ADD).next_pde(), 3);
    assert_eq!(op(OperatorKind::MUL).next_pde(), 4);
    assert_eq!(op(OperatorKind::POW).next_pde(), 4);
    assert_eq!(op(OperatorKind::NOT).next_pde(), 4);
    assert!(op(OperatorKind::POW).is_right_associative());
    assert!(!op(OperatorKind::ADD).is_right_associative());
    assert_eq!(op(OperatorKind::MOD).display(), "get mod");
    assert_eq!(op(OperatorKind::NOTEQ).display(), "compare");
    assert_eq!(op(OperatorKind::AND).display(), "compare");
    assert_eq!(op(OperatorKind::RANGE).display(), "concat");
    assert_eq!(op(OperatorKind::SUBEQ).display(), "sub assign");
    assert_eq!(op(OperatorKind::NOT).display(), "negate");
    assert_eq!(op(OperatorKind::PIPE).to_string(), "|>");
    assert_eq!(op(OperatorKind::NOTEQ).to_string(), "!=");
    assert_eq!(op(OperatorKind::POW).as_str(), "**");
    assert_eq!(op(OperatorKind::SHR).as_str(), ">>");
    assert_eq!(op(OperatorKind::MODEQ).as_str(), "%=");
    assert_eq!(op(OperatorKind::GE).get_range(), at);
    assert!(OperatorKind::DIV.is_arithmetic() && !OperatorKind::EQ.is_arithmetic());
    assert!(OperatorKind::LE.is_comparison() && !OperatorKind::AND.is_comparison());
    assert!(OperatorKind::OR.is_logical() && OperatorKind::XOR.is_bitwise());
    assert!(OperatorKind::DIVEQ.is_compound_assign());
}

#[test]
fn spans_of_nodes() {
    let left = Expr::Ident(Ident::new("a".to_string(), span(0, 1)));
    let right = Expr::Literal(Literal::Number(NumberLiteral {
        range: span(4, 6),
        text: "10".to_string(),
        base: 10,
        as_dot: false,
    }));
    let sum = BinaryExpr::new(
        Box::new(left),
        Operator { kind: OperatorKind::ADD, range: span(2, 3) },
        Box::new(right),
    );
    assert_eq!(sum.get_range(), span(0, 6));
    let ret = RetStmt { expr: Some(Box::new(Expr::Binary(sum))), range: span(10, 13) };
    assert_eq!(ret.get_range(), span(0, 13));
    let bare = RetStmt { expr: None, range: span(20, 23) };
    assert_eq!(bare.get_range(), span(20, 23));
    let inner = BlockStmt::new(vec![Stmt::Ret(bare)], span(18, 25));
    let outer = BlockStmt::new(
        vec![Stmt::Expr(Expr::Skip(BaseExpr { range: span(15, 16) })), Stmt::Block(inner)],
        span(14, 26),
    );
    assert!(outer.ends_with_ret());
    assert_eq!(outer.last_stmt_range(), span(18, 25));
    assert_eq!(outer.get_range(), span(14, 26));
    let block = Stmt::Block(outer);
    assert!(block.is_block());
    assert!(block.ends_with_ret());
    assert_eq!(block.last_stmt_range(), span(18, 25));
    let empty = BlockStmt::new(vec![], span(30, 32));
    assert!(!empty.ends_with_ret());
    assert_eq!(empty.last_stmt_range(), span(30, 32));
    let skip = Stmt::Expr(Expr::Skip(BaseExpr { range: span(15, 16) }));
    assert!(!skip.is_block() && !skip.ends_with_ret());
    assert_eq!(skip.last_stmt_range(), span(15, 16));
    assert_eq!(Stmt::Ret(ret).get_range(), span(0, 13));
}

#[test]
fn import_path_is_unquoted() {
    let import = ImportExpr {
        path: StringLiteral { range: span(7, 18), text: "\"std/io.ln\"".to_string() },
        mod_id: None,
        range: span(0, 18),
    };
    assert_eq!(import.get_path(), "std/io.ln");
    assert_eq!(import.get_range(), span(0, 18));
    let odd = ImportExpr {
        path: StringLiteral { range: span(0, 5), text: "a\"b\"\"c".to_string() },
        mod_id: Some(ModId::new(2)),
        range: span(0, 5),
    };
    assert_eq!(odd.get_path(), "abc");
    let number = NumberLiteral { range: span(0, 4), text: "0x1f".to_string(), base: 16, as_dot: false };
    assert!(number.as_hex() && !number.as_bin() && !number.as_decimal() && !number.as_dot());
}

#[test]
fn layouts() {
    let mut store = TypeStore::default();
    assert_eq!(layout(&store, TypeId::bool()), Layout { size: 1, plain: true });
    assert_eq!(layout(&store, TypeId::char()), Layout { size: 4, plain: true });
    assert_eq!(layout(&store, TypeId::i16()), Layout { size: 2, plain: true });
    assert_eq!(layout(&store, TypeId::float64()), Layout { size: 8, plain: true });
    assert_eq!(layout(&store, TypeId::usize()), Layout { size: 8, plain: true });
    assert_eq!(layout(&store, TypeId::void()), Layout { size: 0, plain: true });
    assert_eq!(layout(&store, TypeId::str()), Layout { size: 16, plain: false });
    assert_eq!(layout(&store, TypeId::string()), Layout { size: 24, plain: false });
    let pointer = store.add_type(Type::Borrow { value: TypeId::string(), mutable: false });
    assert_eq!(layout(&store, pointer), Layout { size: 8, plain: true });
    let small = store.add_type(Type::Struct {
        fields: vec![
            FieldType::new("a".to_string(), TypeId::i32(), true),
            FieldType::new("b".to_string(), TypeId::u8(), true),
            FieldType::new("c".to_string(), pointer, true),
        ],
    });
    assert_eq!(layout(&store, small), Layout { size: 13, plain: true });
    let eight = |store: &mut TypeStore, of: TypeId| {
        let fields = (0..8).map(|i| FieldType::new(format!("f{}", i), of, true)).collect();
        store.add_type(Type::Struct { fields })
    };
    let exactly = eight(&mut store, TypeId::i64());
    assert_eq!(layout(&store, exactly), Layout { size: 64, plain: true });
    assert_eq!(STACK_LIMIT, 64);
    assert_eq!(is_need_heap_allocation(&store, exactly), None);
    let large = store.add_type(Type::Struct {
        fields: vec![
            FieldType::new("head".to_string(), exactly, true),
            FieldType::new("tail".to_string(), TypeId::u8(), true),
        ],
    });
    assert_eq!(is_need_heap_allocation(&store, large), Some(65));
    let named = store.add_type(Type::Struct {
        fields: vec![FieldType::new("name".to_string(), TypeId::string(), true)],
    });
    assert_eq!(layout(&store, named), Layout { size: 24, plain: false });
    assert_eq!(is_need_heap_allocation(&store, named), Some(24));
    assert_eq!(is_need_heap_allocation(&store, TypeId::i32()), None);
    let range = store.add_type(Type::Range { item: TypeId::i32() });
    assert_eq!(layout(&store, range), Layout { size: 8, plain: true });
    let alias = store.add_type(Type::Alias(named));
    assert_eq!(is_need_heap_allocation(&store, alias), Some(24));
}

#[test]
fn messages() {
    let mut store = TypeStore::default();
    let shared = store.add_type(Type::Borrow { value: TypeId::i32(), mutable: false });
    let at = span(0, 1);
    let say = |kind: DiagKind| Diag::new(kind, at).message(&store);
    assert_eq!(
        say(DiagKind::TypeMismatch { expected: TypeId::i8(), found: shared }),
        "expected `i8`, found `&i32`"
    );
    assert_eq!(say(DiagKind::CannotDereference { actual: TypeId::bool() }), "cannot dereference `bool`");
    assert_eq!(
        say(DiagKind::BorrowConflict { value: "a".to_string(), requested_mut: true, existing_mut: false }),
        "cannot borrow `a` as mutable because it is also borrowed as immutable"
    );
    assert_eq!(say(DiagKind::AssignToImmutable), "cannot assign to an immutable value");
    assert_eq!(say(DiagKind::UnknownIdent { name: "zz".to_string() }), "cannot find `zz` in this scope");
    assert_eq!(say(DiagKind::ArityMismatch { expected: 2, found: 10 }), "expected 2 arguments, found 10");
    assert_eq!(say(DiagKind::NotAFunction { actual: TypeId::str() }), "`str` is not a function");
    assert_eq!(say(DiagKind::ReturnOutsideFunction), "cannot return outside of a function");
    assert_eq!(say(DiagKind::BreakOrSkipOutsideLoop), "cannot break or skip outside of a loop");
    assert_eq!(say(DiagKind::MissingReturn { expected: TypeId::u64() }), "missing return of `u64`");
    assert_eq!(say(DiagKind::DuplicateFieldInit { name: "x".to_string() }), "field `x` is initialised twice");
    assert_eq!(say(DiagKind::MissingFieldInit { name: "y".to_string() }), "field `y` is not initialised");
    assert_eq!(say(DiagKind::UnknownType { name: "T".to_string() }), "cannot find type `T`");
    assert_eq!(
        say(DiagKind::InvalidOperator { op: OperatorKind::MOD, operand_type: TypeId::bool() }),
        "cannot get mod `bool`"
    );
    assert_eq!(say(DiagKind::InvalidLiteral), "invalid number literal");
    assert!(say(DiagKind::IceMissingType).starts_with("ice_missing_type"));
    assert!(say(DiagKind::IceUnboundName { name: "q".to_string() }).contains("`q`"));
    assert!(Diag::new(DiagKind::IceOutOfRegisters, at).is_fatal());
    assert!(Diag::new(DiagKind::IceMisplaced, at).is_fatal());
    assert!(!Diag::new(DiagKind::InvalidLiteral, at).is_fatal());
    let with = Diag::with_secondary(DiagKind::NotAddressable, at, span(5, 6));
    assert_eq!(with.secondary, Some(span(5, 6)));
    assert_eq!(with.duplicate(), with);
    assert_eq!(Diag::unknown_type(&"T".to_string(), at).kind, DiagKind::UnknownType { name: "T".to_string() });
    assert_eq!(Diag::cannot_dereference(TypeId::i8(), at).kind, DiagKind::CannotDereference { actual: TypeId::i8() });
}

#[test]
fn loader_keeps_sources_and_trees() {
    let mut loader = Loader::new();
    let main = Source::new("let x = 1".to_string(), "/p/main.ln".to_string(), "main.ln".to_string());
    let lib = Source::new("".to_string(), "/p/lib/mod.ln".to_string(), "lib/mod.ln".to_string());
    let first = loader.register_source(main.clone());
    let second = loader.register_source(lib.clone());
    assert_eq!(first, ModId::new(0));
    assert_eq!(second, ModId::new(1));
    assert_eq!(loader.get_source(first), Some(&main));
    assert_eq!(loader.get_source_unchecked(second), &lib);
    assert_eq!(loader.get_source(ModId::new(2)), None);
    assert_eq!(loader.get_source_result(ModId::new(12)), Err("source for '12' not found".to_string()));
    assert_eq!(loader.get_source_result(first), Ok(&main));
    assert_eq!(loader.get_mod(first), None);
    assert_eq!(loader.get_mod_result(first).unwrap_err(), "ast for '0' not found");
    let tree = ln_core::ast::Program { stmts: vec![] };
    loader.add_mod(first, tree);
    assert_eq!(loader.get_mod(first), Some(&ln_core::ast::Program { stmts: vec![] }));
    // the tree can be changed in place
    match loader.get_mod_result(first) {
        Ok(tree) => tree.stmts.push(ln_core::ast::Stmt::Expr(ln_core::ast::Expr::Skip(BaseExpr { range: span(0, 4) }))),
        Err(message) => panic!("{}", message),
    }
    assert_eq!(loader.get_mod(first).unwrap().stmts.len(), 1);
    loader.get_mod_result(first).unwrap().stmts.clear();
    // the source is still there, and the other module has no tree
    assert_eq!(loader.get_source(first), Some(&main));
    assert_eq!(loader.get_mod(second), None);
    loader.add_mod(ModId::new(7), ln_core::ast::Program { stmts: vec![] });
    assert!(loader.get_mod(ModId::new(7)).is_some());
    assert_eq!(loader.get_source(ModId::new(7)), None);
    assert_eq!(loader.register_source(lib.duplicate()), ModId::new(2));
}
