//! Lexical scopes.

use vstd::prelude::*;
use rustc_hash::FxHashMap;
use crate::checker::types::TypeId;
use super::borrow::{permits, released, borrow_at, Borrow, BorrowId, BorrowStore};
use super::value::{Value, ValueId};

verus! {

/// What kind of construct opened a scope, with what that construct fixes.
#[derive(Debug, Clone, Copy, PartialEq, Eq, Structural)]
pub enum ScopeType {
    Fn { ret_type: TypeId },
    ConstFn { ret_type: TypeId },
    Loop,
    Block,
    Global,
    /// The body of an `impl` of the type `self_type`.
    Impl { self_type: TypeId },
    /// A function of an `impl`: `associate` if it takes no `self`.
    Accessor { self_type: TypeId, associate: bool },
}

impl ScopeType {
    #[verifier::allow_in_spec]
    pub fn new_fn(ret_type: TypeId) -> ScopeType
        returns
            (ScopeType::Fn { ret_type }),
    {
        ScopeType::Fn { ret_type }
    }

    #[verifier::allow_in_spec]
    pub fn new_const_fn(ret_type: TypeId) -> ScopeType
        returns
            (ScopeType::ConstFn { ret_type }),
    {
        ScopeType::ConstFn { ret_type }
    }

    #[verifier::allow_in_spec]
    pub fn new_loop() -> ScopeType
        returns
            ScopeType::Loop,
    {
        ScopeType::Loop
    }

    #[verifier::allow_in_spec]
    pub fn new_block() -> ScopeType
        returns
            ScopeType::Block,
    {
        ScopeType::Block
    }

    #[verifier::allow_in_spec]
    pub fn new_impl(self_type: TypeId) -> ScopeType
        returns
            (ScopeType::Impl { self_type }),
    {
        ScopeType::Impl { self_type }
    }

    #[verifier::allow_in_spec]
    pub fn new_accessor(self_type: TypeId, associate: bool) -> ScopeType
        returns
            (ScopeType::Accessor { self_type, associate }),
    {
        ScopeType::Accessor { self_type, associate }
    }

    #[verifier::allow_in_spec]
    pub fn new_accessor_associate(self_type: TypeId) -> ScopeType
        returns
            (ScopeType::Accessor { self_type, associate: true }),
    {
        ScopeType::Accessor { self_type, associate: true }
    }

    #[verifier::allow_in_spec]
    pub fn new_accessor_method(self_type: TypeId) -> ScopeType
        returns
            (ScopeType::Accessor { self_type, associate: false }),
    {
        ScopeType::Accessor { self_type, associate: false }
    }

    #[verifier::allow_in_spec]
    pub fn new_global() -> ScopeType
        returns
            ScopeType::Global,
    {
        ScopeType::Global
    }

    /// The declared return type, for the two kinds of function scope.
    #[verifier::allow_in_spec]
    pub fn ret_scope(&self) -> Option<TypeId>
        returns
            (match *self {
                ScopeType::Fn { ret_type } => Some(ret_type),
                ScopeType::ConstFn { ret_type } => Some(ret_type),
                _ => None,
            }),
    {
        match self {
            ScopeType::Fn { ret_type } => Some(*ret_type),
            ScopeType::ConstFn { ret_type } => Some(*ret_type),
            _ => None,
        }
    }

    #[verifier::allow_in_spec]
    pub fn self_type(&self) -> Option<TypeId>
        returns
            (match *self {
                ScopeType::Impl { self_type } => Some(self_type),
                _ => None,
            }),
    {
        match self {
            ScopeType::Impl { self_type } => Some(*self_type),
            _ => None,
        }
    }

    #[verifier::allow_in_spec]
    pub fn accessor_type(&self) -> Option<TypeId>
        returns
            (match *self {
                ScopeType::Accessor { self_type, .. } => Some(self_type),
                _ => None,
            }),
    {
        match self {
            ScopeType::Accessor { self_type, .. } => Some(*self_type),
            _ => None,
        }
    }

    #[verifier::allow_in_spec]
    pub fn is_fn(&self) -> bool
        returns
            (*self is Fn || *self is ConstFn),
    {
        match self {
            ScopeType::Fn { .. } => true,
            ScopeType::ConstFn { .. } => true,
            _ => false,
        }
    }

    #[verifier::allow_in_spec]
    pub fn is_const_fn(&self) -> bool
        returns
            (*self is ConstFn),
    {
        match self {
            ScopeType::ConstFn { .. } => true,
            _ => false,
        }
    }

    #[verifier::allow_in_spec]
    pub fn is_loop(&self) -> bool
        returns
            (*self is Loop),
    {
        match self {
            ScopeType::Loop => true,
            _ => false,
        }
    }

    #[verifier::allow_in_spec]
    pub fn is_block(&self) -> bool
        returns
            (*self is Block),
    {
        match self {
            ScopeType::Block => true,
            _ => false,
        }
    }

    #[verifier::allow_in_spec]
    pub fn is_global(&self) -> bool
        returns
            (*self is Global),
    {
        match self {
            ScopeType::Global => true,
            _ => false,
        }
    }

    #[verifier::allow_in_spec]
    pub fn is_impl(&self) -> bool
        returns
            (*self is Impl),
    {
        match self {
            ScopeType::Impl { .. } => true,
            _ => false,
        }
    }

    #[verifier::allow_in_spec]
    pub fn is_accessor(&self) -> bool
        returns
            (*self is Accessor),
    {
        match self {
            ScopeType::Accessor { .. } => true,
            _ => false,
        }
    }

    #[verifier::allow_in_spec]
    pub fn is_accessor_associate(&self) -> bool
        returns
            (*self matches ScopeType::Accessor { associate, .. } && associate),
    {
        match self {
            ScopeType::Accessor { associate, .. } => *associate,
            _ => false,
        }
    }
}

/// Position of a scope in the stack, counted from the bottom.
#[derive(Debug, Clone, Copy, PartialEq, Eq, Structural, Hash)]
pub struct ScopeId(pub usize);

impl ScopeId {
    #[verifier::allow_in_spec]
    pub fn as_usize(&self) -> usize
        returns
            self.0,
    {
        self.0
    }
}

/// The hasher of `rustc_hash`, which the name tables are built with.
#[verifier::external_type_specification]
#[verifier::external_body]
pub struct ExFxBuildHasher(rustc_hash::FxBuildHasher);

/// A table from names to bindings.
pub type NameTable = FxHashMap<String, Value>;

/// What a name table holds: the binding of each name that is bound.
pub uninterp spec fn bound(table: NameTable) -> Map<Seq<char>, Value>;

/// `FxHashMap::default`: a table that binds no name.
#[verifier::external_body]
fn table_new() -> (table: NameTable)
    ensures
        bound(table) == (Map::<Seq<char>, Value>::empty()),
{
    FxHashMap::default()
}

/// `HashMap::insert`: afterwards `name` is bound to `value`, whether or not
/// it was bound before, and every other name is bound as it was.
#[verifier::external_body]
fn table_insert(table: &mut NameTable, name: String, value: Value)
    ensures
        bound(*final(table)) == bound(*old(table)).insert(name@, value),
{
    table.insert(name, value);
}

/// `HashMap::get`: the binding of `name`, if it is bound.
#[verifier::external_body]
fn table_get<'a>(table: &'a NameTable, name: &str) -> (r: Option<&'a Value>)
    ensures
        match r {
            Some(value) => bound(*table).contains_key(name@) && bound(*table)[name@] == *value,
            None => !bound(*table).contains_key(name@),
        },
{
    table.get(name)
}

/// `HashMap::contains_key`: whether `name` is bound.
#[verifier::external_body]
fn table_contains(table: &NameTable, name: &str) -> (r: bool)
    ensures
        r == bound(*table).contains_key(name@),
{
    table.contains_key(name)
}

/// The three kinds of name that a scope binds apart from each other.
#[derive(Debug, Clone, Copy, PartialEq, Eq, Structural)]
pub enum Namespace {
    Values,
    Functions,
    Types,
}

/// One lexical scope: its bindings, the borrows that were taken in it and
/// end with it, and its kind.
#[derive(Debug)]
pub struct Scope {
    pub values: NameTable,
    pub fn_values: NameTable,
    pub type_values: NameTable,
    pub borrow_store: BorrowStore,
    pub scope_type: ScopeType,
}

/// Mathematical model of a [`Scope`].
pub struct ScopeView {
    pub values: Map<Seq<char>, Value>,
    pub fn_values: Map<Seq<char>, Value>,
    pub type_values: Map<Seq<char>, Value>,
    pub borrows: Seq<Option<Borrow>>,
    pub scope_type: ScopeType,
}

impl ScopeView {
    /// A scope of the given kind that binds and borrows nothing.
    pub open spec fn fresh(scope_type: ScopeType) -> ScopeView {
        ScopeView {
            values: Map::empty(),
            fn_values: Map::empty(),
            type_values: Map::empty(),
            borrows: Seq::empty(),
            scope_type,
        }
    }

    pub open spec fn table(self, space: Namespace) -> Map<Seq<char>, Value> {
        match space {
            Namespace::Values => self.values,
            Namespace::Functions => self.fn_values,
            Namespace::Types => self.type_values,
        }
    }

    /// The binding of `name` in the given namespace of this scope.
    pub open spec fn get(self, space: Namespace, name: Seq<char>) -> Option<Value> {
        if self.table(space).contains_key(name) {
            Some(self.table(space)[name])
        } else {
            None
        }
    }

    /// This scope with `name` bound to `value` in the given namespace.
    pub open spec fn bind(self, space: Namespace, name: Seq<char>, value: Value) -> ScopeView {
        match space {
            Namespace::Values => ScopeView { values: self.values.insert(name, value), ..self },
            Namespace::Functions => ScopeView {
                fn_values: self.fn_values.insert(name, value),
                ..self
            },
            Namespace::Types => ScopeView {
                type_values: self.type_values.insert(name, value),
                ..self
            },
        }
    }

    /// This scope with one more borrow.
    pub open spec fn borrow(self, value_id: ValueId, is_mut: bool) -> ScopeView {
        ScopeView { borrows: self.borrows.push(Some(Borrow { value_id, is_mut })), ..self }
    }

    /// This scope with the borrow `id` released.
    pub open spec fn release(self, id: BorrowId) -> ScopeView {
        ScopeView { borrows: released(self.borrows, id), ..self }
    }
}

impl View for Scope {
    type V = ScopeView;

    open spec fn view(&self) -> ScopeView {
        ScopeView {
            values: bound(self.values),
            fn_values: bound(self.fn_values),
            type_values: bound(self.type_values),
            borrows: self.borrow_store@,
            scope_type: self.scope_type,
        }
    }
}

impl Scope {
    pub fn new(scope_type: ScopeType) -> (r: Scope)
        ensures
            r@ == ScopeView::fresh(scope_type),
            r.borrow_store.wf(),
    {
        Scope {
            values: table_new(),
            fn_values: table_new(),
            type_values: table_new(),
            borrow_store: BorrowStore::default(),
            scope_type,
        }
    }

    /// Registers a borrow that ends with this scope. The borrows of this
    /// scope must permit it.
    pub fn add_borrow_value(&mut self, value_id: ValueId, is_mut: bool) -> (id: BorrowId)
        requires
            permits(old(self)@.borrows, value_id, is_mut),
        ensures
            final(self)@ == old(self)@.borrow(value_id, is_mut),
            id.0 == old(self)@.borrows.len(),
            old(self).borrow_store.wf() ==> final(self).borrow_store.wf(),
    {
        self.borrow_store.add_borrow(value_id, is_mut)
    }

    pub fn get_borrow_value(&self, borrow_id: BorrowId) -> (r: Option<&Borrow>)
        ensures
            match r {
                Some(borrow) => borrow_at(self@.borrows, borrow_id) == Some(*borrow),
                None => borrow_at(self@.borrows, borrow_id) is None,
            },
    {
        self.borrow_store.get_borrow(borrow_id)
    }

    pub fn drop_borrows(&mut self, borrow_id: BorrowId)
        ensures
            final(self)@ == old(self)@.release(borrow_id),
            old(self).borrow_store.wf() ==> final(self).borrow_store.wf(),
    {
        self.borrow_store.drop_borrows(borrow_id)
    }

    /// Whether the borrows of this scope alone permit one more.
    pub fn can_borrow_as(&self, value_id: ValueId, is_mut: bool) -> (r: bool)
        ensures
            r == permits(self@.borrows, value_id, is_mut),
    {
        self.borrow_store.can_borrow_as(value_id, is_mut)
    }

    /// Binds `name` in the given namespace. An earlier binding of the same
    /// name in this scope is shadowed.
    pub fn bind(&mut self, space: Namespace, name: String, value: Value)
        ensures
            final(self)@ == old(self)@.bind(space, name@, value),
            final(self).borrow_store == old(self).borrow_store,
    {
        match space {
            Namespace::Values => table_insert(&mut self.values, name, value),
            Namespace::Functions => table_insert(&mut self.fn_values, name, value),
            Namespace::Types => table_insert(&mut self.type_values, name, value),
        }
    }

    /// The binding of `name` in the given namespace.
    pub fn get(&self, space: Namespace, name: &str) -> (r: Option<&Value>)
        ensures
            match r {
                Some(value) => self@.get(space, name@) == Some(*value),
                None => self@.get(space, name@) is None,
            },
    {
        match space {
            Namespace::Values => table_get(&self.values, name),
            Namespace::Functions => table_get(&self.fn_values, name),
            Namespace::Types => table_get(&self.type_values, name),
        }
    }

    pub fn has_value(&self, name: &str) -> (r: bool)
        ensures
            r == self@.values.contains_key(name@),
    {
        table_contains(&self.values, name)
    }

    pub fn has_fn_value(&self, name: &str) -> (r: bool)
        ensures
            r == self@.fn_values.contains_key(name@),
    {
        table_contains(&self.fn_values, name)
    }

    pub fn has_type_value(&self, name: &str) -> (r: bool)
        ensures
            r == self@.type_values.contains_key(name@),
    {
        table_contains(&self.type_values, name)
    }

    pub fn add_value(&mut self, name: String, value: Value)
        ensures
            final(self)@ == old(self)@.bind(Namespace::Values, name@, value),
            final(self).borrow_store == old(self).borrow_store,
    {
        self.bind(Namespace::Values, name, value)
    }

    pub fn add_fn_value(&mut self, name: String, value: Value)
        ensures
            final(self)@ == old(self)@.bind(Namespace::Functions, name@, value),
            final(self).borrow_store == old(self).borrow_store,
    {
        self.bind(Namespace::Functions, name, value)
    }

    pub fn add_type_value(&mut self, name: String, value: Value)
        ensures
            final(self)@ == old(self)@.bind(Namespace::Types, name@, value),
            final(self).borrow_store == old(self).borrow_store,
    {
        self.bind(Namespace::Types, name, value)
    }

    pub fn get_fn_value(&self, name: &str) -> (r: Option<&Value>)
        ensures
            match r {
                Some(value) => self@.get(Namespace::Functions, name@) == Some(*value),
                None => self@.get(Namespace::Functions, name@) is None,
            },
    {
        self.get(Namespace::Functions, name)
    }

    pub fn get_value(&self, name: &str) -> (r: Option<&Value>)
        ensures
            match r {
                Some(value) => self@.get(Namespace::Values, name@) == Some(*value),
                None => self@.get(Namespace::Values, name@) is None,
            },
    {
        self.get(Namespace::Values, name)
    }

    pub fn get_type_value(&self, name: &str) -> (r: Option<&Value>)
        ensures
            match r {
                Some(value) => self@.get(Namespace::Types, name@) == Some(*value),
                None => self@.get(Namespace::Types, name@) is None,
            },
    {
        self.get(Namespace::Types, name)
    }

    #[verifier::allow_in_spec]
    pub fn ret_scope(&self) -> Option<TypeId>
        returns
            self.scope_type.ret_scope(),
    {
        self.scope_type.ret_scope()
    }

    #[verifier::allow_in_spec]
    pub fn accessor_type(&self) -> Option<TypeId>
        returns
            self.scope_type.accessor_type(),
    {
        self.scope_type.accessor_type()
    }

    #[verifier::allow_in_spec]
    pub fn self_scope(&self) -> Option<TypeId>
        returns
            self.scope_type.self_type(),
    {
        self.scope_type.self_type()
    }

    #[verifier::allow_in_spec]
    pub fn is_fn_scope(&self) -> bool
        returns
            self.scope_type.is_fn(),
    {
        self.scope_type.is_fn()
    }

    #[verifier::allow_in_spec]
    pub fn is_impl_scope(&self) -> bool
        returns
            self.scope_type.is_impl(),
    {
        self.scope_type.is_impl()
    }

    #[verifier::allow_in_spec]
    pub fn is_accessor_scope(&self) -> bool
        returns
            self.scope_type.is_accessor(),
    {
        self.scope_type.is_accessor()
    }

    #[verifier::allow_in_spec]
    pub fn is_accessor_associate_scope(&self) -> bool
        returns
            self.scope_type.is_accessor_associate(),
    {
        self.scope_type.is_accessor_associate()
    }

    #[verifier::allow_in_spec]
    pub fn is_loop_scope(&self) -> bool
        returns
            self.scope_type.is_loop(),
    {
        self.scope_type.is_loop()
    }

    #[verifier::allow_in_spec]
    pub fn is_block_scope(&self) -> bool
        returns
            self.scope_type.is_block(),
    {
        self.scope_type.is_block()
    }

    #[verifier::allow_in_spec]
    pub fn is_global_scope(&self) -> bool
        returns
            self.scope_type.is_global(),
    {
        self.scope_type.is_global()
    }
}

impl Default for Scope {
    fn default() -> (r: Scope)
        ensures
            r@ == ScopeView::fresh(ScopeType::Global),
            r.borrow_store.wf(),
    {
        Scope::new(ScopeType::new_global())
    }
}

} // verus!
