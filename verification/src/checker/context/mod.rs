//! The checker's environment: scopes, bindings, borrows and types.

use vstd::prelude::*;
use crate::checker::types::{seeded, primitive_types, Type, TypeId, TypeStore, TypeView};
use crate::range::Range;

pub mod borrow;
pub mod nodes;
pub mod scope;
pub mod value;

use borrow::{
    count, lemma_count_push, lemma_count_released, released, tallies_agree, tallies_permit, Borrow,
    BorrowId, BorrowStore,
};
use nodes::{node_type, NodeTypes};
use scope::{Namespace, Scope, ScopeType, ScopeView};
use value::{following, Value, ValueId, ValueOrigin};

verus! {

/// The binding of `name` in the innermost scope that binds it.
pub open spec fn find_in(scopes: Seq<ScopeView>, space: Namespace, name: Seq<char>) -> Option<
    Value,
>
    decreases scopes.len(),
{
    if scopes.len() == 0 {
        None
    } else if scopes.last().get(space, name) is Some {
        scopes.last().get(space, name)
    } else {
        find_in(scopes.drop_last(), space, name)
    }
}

/// The declared return type of the innermost function scope.
pub open spec fn innermost_ret(scopes: Seq<ScopeView>) -> Option<TypeId>
    decreases scopes.len(),
{
    if scopes.len() == 0 {
        None
    } else if scopes.last().scope_type.ret_scope() is Some {
        scopes.last().scope_type.ret_scope()
    } else {
        innermost_ret(scopes.drop_last())
    }
}

/// Number of live borrows of `value_id` of the given kind that the scopes hold.
pub open spec fn scoped_count(scopes: Seq<ScopeView>, value_id: ValueId, is_mut: bool) -> nat
    decreases scopes.len(),
{
    if scopes.len() == 0 {
        0
    } else {
        scoped_count(scopes.drop_last(), value_id, is_mut) + count(
            scopes.last().borrows,
            value_id,
            is_mut,
        )
    }
}

/// Mathematical model of a [`Context`].
pub struct ContextView {
    pub scopes: Seq<ScopeView>,
    pub borrows: Seq<Option<Borrow>>,
    pub types: Seq<TypeView>,
    pub value_counter: ValueId,
    pub node_types: Seq<(Range, TypeId)>,
}

impl ContextView {
    /// The environment before anything was checked: one global scope, the
    /// primitive types, no borrow.
    pub open spec fn initial() -> ContextView {
        ContextView {
            scopes: seq![ScopeView::fresh(ScopeType::Global)],
            borrows: Seq::empty(),
            types: primitive_types(),
            value_counter: ValueId(0),
            node_types: Seq::empty(),
        }
    }

    /// The innermost scope.
    pub open spec fn top(self) -> ScopeView {
        self.scopes.last()
    }

    /// This environment with `scope` in place of the innermost scope.
    pub open spec fn with_top(self, scope: ScopeView) -> ContextView {
        ContextView { scopes: self.scopes.update(self.scopes.len() - 1, scope), ..self }
    }

    pub open spec fn enter(self, scope_type: ScopeType) -> ContextView {
        ContextView { scopes: self.scopes.push(ScopeView::fresh(scope_type)), ..self }
    }

    /// Leaves the innermost scope, with its bindings and its borrows. The
    /// bottom scope is never left.
    pub open spec fn exit(self) -> ContextView {
        if self.scopes.len() > 1 {
            ContextView { scopes: self.scopes.drop_last(), ..self }
        } else {
            self
        }
    }

    pub open spec fn find(self, space: Namespace, name: Seq<char>) -> Option<Value> {
        find_in(self.scopes, space, name)
    }

    /// Binds `name` in the innermost scope to a new value, which takes the
    /// next handle.
    pub open spec fn declare(
        self,
        space: Namespace,
        name: Seq<char>,
        type_id: TypeId,
        is_mut: bool,
        origin: ValueOrigin,
    ) -> ContextView {
        let value = Value { id: self.value_counter, type_id, is_mut, origin };
        ContextView {
            value_counter: following(self.value_counter),
            ..self.with_top(self.top().bind(space, name, value))
        }
    }

    pub open spec fn has_fn_scope(self) -> bool {
        exists|i: int| 0 <= i < self.scopes.len() && (#[trigger] self.scopes[i]).scope_type.is_fn()
    }

    pub open spec fn has_loop_scope(self) -> bool {
        exists|i: int|
            0 <= i < self.scopes.len() && (#[trigger] self.scopes[i]).scope_type.is_loop()
    }

    pub open spec fn fn_ret_type(self) -> Option<TypeId> {
        innermost_ret(self.scopes)
    }

    /// Number of live borrows of `value_id` of the given kind, in the
    /// context-wide store and in the scopes together.
    pub open spec fn total(self, value_id: ValueId, is_mut: bool) -> nat {
        count(self.borrows, value_id, is_mut) + scoped_count(self.scopes, value_id, is_mut)
    }

    /// No live borrow anywhere stands against a new borrow of `value_id`.
    pub open spec fn permits(self, value_id: ValueId, is_mut: bool) -> bool {
        tallies_permit(self.total(value_id, true), self.total(value_id, false), is_mut)
    }

    /// One more borrow in the context-wide store.
    pub open spec fn borrow_wide(self, value_id: ValueId, is_mut: bool) -> ContextView {
        ContextView { borrows: self.borrows.push(Some(Borrow { value_id, is_mut })), ..self }
    }

    /// One more borrow in the innermost scope.
    pub open spec fn borrow_scoped(self, value_id: ValueId, is_mut: bool) -> ContextView {
        self.with_top(self.top().borrow(value_id, is_mut))
    }

    pub open spec fn release_wide(self, id: BorrowId) -> ContextView {
        ContextView { borrows: released(self.borrows, id), ..self }
    }

    pub open spec fn add_type(self, ty: TypeView) -> ContextView {
        ContextView { types: self.types.push(ty), ..self }
    }

    /// The handle that the next type to be added gets.
    pub open spec fn next_type_id(self) -> TypeId {
        TypeId(self.types.len() as u64)
    }

    pub open spec fn note(self, range: Range, type_id: TypeId) -> ContextView {
        ContextView { node_types: self.node_types.push((range, type_id)), ..self }
    }

    pub open spec fn node_type(self, range: Range) -> Option<TypeId> {
        node_type(self.node_types, range)
    }

    /// There is a scope, the bottom one is global, the type store begins
    /// with the primitive types, and the borrow rule holds of every value
    /// over all live borrows.
    pub open spec fn wf(self) -> bool {
        &&& self.scopes.len() >= 1
        &&& self.scopes[0].scope_type == ScopeType::Global
        &&& seeded(self.types)
        &&& forall|v: ValueId| #[trigger] tallies_agree(self.total(v, true), self.total(v, false))
    }
}

pub proof fn lemma_scoped_count_push(
    scopes: Seq<ScopeView>,
    scope: ScopeView,
    value_id: ValueId,
    is_mut: bool,
)
    ensures
        scoped_count(scopes.push(scope), value_id, is_mut) == scoped_count(
            scopes,
            value_id,
            is_mut,
        ) + count(scope.borrows, value_id, is_mut),
{
    assert(scopes.push(scope).drop_last() =~= scopes);
}

pub proof fn lemma_scoped_count_top(
    scopes: Seq<ScopeView>,
    scope: ScopeView,
    value_id: ValueId,
    is_mut: bool,
)
    requires
        scopes.len() > 0,
    ensures
        scoped_count(scopes.update(scopes.len() - 1, scope), value_id, is_mut) == scoped_count(
            scopes.drop_last(),
            value_id,
            is_mut,
        ) + count(scope.borrows, value_id, is_mut),
{
    assert(scopes.update(scopes.len() - 1, scope).drop_last() =~= scopes.drop_last());
}

/// The checker's environment: the stack of scopes, the store of borrows
/// that outlive their scope, the type store, the counter that numbers the
/// bindings, and the types recorded for the syntax nodes.
#[derive(Debug)]
pub struct Context {
    pub scopes: Vec<Scope>,
    pub borrow_store: BorrowStore,
    pub type_store: TypeStore,
    pub value_counter: ValueId,
    pub node_types: NodeTypes,
}

impl View for Context {
    type V = ContextView;

    open spec fn view(&self) -> ContextView {
        ContextView {
            scopes: self.scopes@.map_values(|s: Scope| s@),
            borrows: self.borrow_store@,
            types: self.type_store@,
            value_counter: self.value_counter,
            node_types: self.node_types@,
        }
    }
}

impl Context {
    pub open spec fn wf(&self) -> bool {
        self@.wf()
    }

    pub fn new() -> (r: Context)
        ensures
            r@ == ContextView::initial(),
            r.wf(),
    {
        let mut scopes: Vec<Scope> = Vec::new();
        scopes.push(Scope::default());
        let ctx = Context {
            scopes,
            borrow_store: BorrowStore::default(),
            type_store: TypeStore::default(),
            value_counter: ValueId::init(),
            node_types: NodeTypes::new(),
        };
        proof {
            assert(ctx@.scopes =~= seq![ScopeView::fresh(ScopeType::Global)]);
            assert(ctx@.node_types =~= Seq::empty());
            assert forall|v: ValueId| #[trigger]
                tallies_agree(ctx@.total(v, true), ctx@.total(v, false)) by {
                reveal_with_fuel(scoped_count, 2);
                assert(ctx@.scopes.drop_last().len() == 0);
            }
        }
        ctx
    }

    pub fn get_type_store(&self) -> (r: &TypeStore)
        ensures
            r@ == self@.types,
    {
        &self.type_store
    }

    pub fn get_scope(&self) -> (r: &Scope)
        requires
            self@.scopes.len() > 0,
        ensures
            r@ == self@.top(),
    {
        &self.scopes[self.scopes.len() - 1]
    }

    /// The innermost scope, to change it in place. What is done to its
    /// borrows is not held against the borrows of the other scopes.
    pub fn get_scope_mut(&mut self) -> (r: &mut Scope)
        requires
            old(self)@.scopes.len() > 0,
        ensures
            *r == old(self).scopes@.last(),
            final(self).scopes@ == old(self).scopes@.update(
                old(self).scopes@.len() - 1,
                *final(r),
            ),
            final(self).borrow_store == old(self).borrow_store,
            final(self).type_store == old(self).type_store,
            final(self).value_counter == old(self).value_counter,
            final(self).node_types == old(self).node_types,
    {
        let last = self.scopes.len() - 1;
        &mut self.scopes[last]
    }

    pub fn enter_scope(&mut self, scope_type: ScopeType)
        ensures
            final(self)@ == old(self)@.enter(scope_type),
            old(self).wf() ==> final(self).wf(),
    {
        let scope = Scope::new(scope_type);
        proof {
            let before = self@;
            let after = before.enter(scope_type);
            assert(self.scopes@.push(scope).map_values(|s: Scope| s@) =~= before.scopes.push(
                scope@,
            ));
            if before.wf() {
                assert forall|v: ValueId| #[trigger]
                    tallies_agree(after.total(v, true), after.total(v, false)) by {
                    lemma_scoped_count_push(before.scopes, scope@, v, true);
                    lemma_scoped_count_push(before.scopes, scope@, v, false);
                    assert(tallies_agree(before.total(v, true), before.total(v, false)));
                }
            }
        }
        self.scopes.push(scope);
    }

    pub fn exit_scope(&mut self)
        ensures
            final(self)@ == old(self)@.exit(),
            old(self).wf() ==> final(self).wf(),
    {
        if self.scopes.len() > 1 {
            proof {
                let before = self@;
                let after = before.exit();
                assert(self.scopes@.drop_last().map_values(|s: Scope| s@)
                    =~= before.scopes.drop_last());
                if before.wf() {
                    assert forall|v: ValueId| #[trigger]
                        tallies_agree(after.total(v, true), after.total(v, false)) by {
                        assert(tallies_agree(before.total(v, true), before.total(v, false)));
                    }
                }
            }
            self.scopes.pop();
        }
    }

    pub fn has_fn_scope(&self) -> (r: bool)
        ensures
            r == self@.has_fn_scope(),
    {
        let mut i: usize = 0;
        while i < self.scopes.len()
            invariant
                i <= self.scopes@.len(),
                forall|j: int| 0 <= j < i ==> !(#[trigger] self@.scopes[j]).scope_type.is_fn(),
            decreases self.scopes@.len() - i,
        {
            if self.scopes[i].is_fn_scope() {
                assert(self@.scopes[i as int].scope_type.is_fn());
                return true;
            }
            i += 1;
        }
        false
    }

    pub fn has_loop_scope(&self) -> (r: bool)
        ensures
            r == self@.has_loop_scope(),
    {
        let mut i: usize = 0;
        while i < self.scopes.len()
            invariant
                i <= self.scopes@.len(),
                forall|j: int| 0 <= j < i ==> !(#[trigger] self@.scopes[j]).scope_type.is_loop(),
            decreases self.scopes@.len() - i,
        {
            if self.scopes[i].is_loop_scope() {
                assert(self@.scopes[i as int].scope_type.is_loop());
                return true;
            }
            i += 1;
        }
        false
    }

    pub fn get_fn_scope_ret_type(&self) -> (r: Option<TypeId>)
        ensures
            r == self@.fn_ret_type(),
    {
        let mut i = self.scopes.len();
        proof {
            assert(self@.scopes.take(i as int) =~= self@.scopes);
        }
        while i > 0
            invariant
                i <= self.scopes@.len(),
                innermost_ret(self@.scopes) == innermost_ret(self@.scopes.take(i as int)),
            decreases i,
        {
            i -= 1;
            proof {
                let upto = self@.scopes.take(i + 1);
                assert(upto.drop_last() =~= self@.scopes.take(i as int));
                assert(upto.last() == self@.scopes[i as int]);
            }
            let found = self.scopes[i].ret_scope();
            if found.is_some() {
                return found;
            }
        }
        None
    }

    /// The binding of `name` in the given namespace, in the innermost
    /// scope that has one.
    pub fn lookup(&self, space: Namespace, name: &str) -> (r: Option<&Value>)
        ensures
            match r {
                Some(value) => self@.find(space, name@) == Some(*value),
                None => self@.find(space, name@) is None,
            },
    {
        let mut i = self.scopes.len();
        proof {
            assert(self@.scopes.take(i as int) =~= self@.scopes);
        }
        while i > 0
            invariant
                i <= self.scopes@.len(),
                find_in(self@.scopes, space, name@) == find_in(
                    self@.scopes.take(i as int),
                    space,
                    name@,
                ),
            decreases i,
        {
            i -= 1;
            proof {
                let upto = self@.scopes.take(i + 1);
                assert(upto.drop_last() =~= self@.scopes.take(i as int));
                assert(upto.last() == self@.scopes[i as int]);
            }
            let found = self.scopes[i].get(space, name);
            if found.is_some() {
                return found;
            }
        }
        None
    }

    pub fn get_value(&self, name: &str) -> (r: Option<&Value>)
        ensures
            match r {
                Some(value) => self@.find(Namespace::Values, name@) == Some(*value),
                None => self@.find(Namespace::Values, name@) is None,
            },
    {
        self.lookup(Namespace::Values, name)
    }

    pub fn get_fn_value(&self, name: &str) -> (r: Option<&Value>)
        ensures
            match r {
                Some(value) => self@.find(Namespace::Functions, name@) == Some(*value),
                None => self@.find(Namespace::Functions, name@) is None,
            },
    {
        self.lookup(Namespace::Functions, name)
    }

    pub fn get_type_value(&self, name: &str) -> (r: Option<&Value>)
        ensures
            match r {
                Some(value) => self@.find(Namespace::Types, name@) == Some(*value),
                None => self@.find(Namespace::Types, name@) is None,
            },
    {
        self.lookup(Namespace::Types, name)
    }

    /// Binds `name` in the innermost scope to a new value and returns the
    /// value's handle.
    pub fn declare(
        &mut self,
        space: Namespace,
        name: &str,
        type_id: TypeId,
        is_mut: bool,
        origin: ValueOrigin,
    ) -> (id: ValueId)
        requires
            old(self)@.scopes.len() > 0,
        ensures
            final(self)@ == old(self)@.declare(space, name@, type_id, is_mut, origin),
            id == old(self)@.value_counter,
            old(self).wf() ==> final(self).wf(),
    {
        let value = Value { id: self.value_counter, type_id, is_mut, origin };
        let last = self.scopes.len() - 1;
        let mut scope = self.scopes.pop().unwrap();
        let ghost rest = self.scopes@;
        scope.bind(space, name.to_owned(), value);
        proof {
            let before = old(self)@;
            let after = before.declare(space, name@, type_id, is_mut, origin);
            assert(rest.push(scope).map_values(|s: Scope| s@) =~= after.scopes);
            if before.wf() {
                assert forall|v: ValueId| #[trigger]
                    tallies_agree(after.total(v, true), after.total(v, false)) by {
                    lemma_scoped_count_top(before.scopes, scope@, v, true);
                    lemma_scoped_count_top(before.scopes, scope@, v, false);
                    assert(tallies_agree(before.total(v, true), before.total(v, false)));
                }
            }
        }
        self.scopes.push(scope);
        self.value_counter.next_id()
    }

    pub fn add_value(&mut self, name: &str, type_id: TypeId, is_mut: bool) -> (id: ValueId)
        requires
            old(self)@.scopes.len() > 0,
        ensures
            final(self)@ == old(self)@.declare(
                Namespace::Values,
                name@,
                type_id,
                is_mut,
                ValueOrigin::Scoped,
            ),
            id == old(self)@.value_counter,
            old(self).wf() ==> final(self).wf(),
    {
        self.declare(Namespace::Values, name, type_id, is_mut, ValueOrigin::Scoped)
    }

    pub fn add_value_external(&mut self, name: &str, type_id: TypeId, is_mut: bool) -> (id:
        ValueId)
        requires
            old(self)@.scopes.len() > 0,
        ensures
            final(self)@ == old(self)@.declare(
                Namespace::Values,
                name@,
                type_id,
                is_mut,
                ValueOrigin::External,
            ),
            id == old(self)@.value_counter,
            old(self).wf() ==> final(self).wf(),
    {
        self.declare(Namespace::Values, name, type_id, is_mut, ValueOrigin::External)
    }

    /// Whether `value_id` has a live shared borrow anywhere, and whether it
    /// has a live exclusive one.
    pub fn holds(&self, value_id: ValueId) -> (r: (bool, bool))
        ensures
            r.0 == (self@.total(value_id, false) > 0),
            r.1 == (self@.total(value_id, true) > 0),
    {
        let (mut shared, mut exclusive) = self.borrow_store.holds(value_id);
        let mut i: usize = 0;
        while i < self.scopes.len()
            invariant
                i <= self.scopes@.len(),
                shared == (count(self@.borrows, value_id, false) + scoped_count(
                    self@.scopes.take(i as int),
                    value_id,
                    false,
                ) > 0),
                exclusive == (count(self@.borrows, value_id, true) + scoped_count(
                    self@.scopes.take(i as int),
                    value_id,
                    true,
                ) > 0),
            decreases self.scopes@.len() - i,
        {
            proof {
                let upto = self@.scopes.take(i + 1);
                assert(upto.drop_last() =~= self@.scopes.take(i as int));
                assert(upto.last() == self@.scopes[i as int]);
            }
            let (s, e) = self.scopes[i].borrow_store.holds(value_id);
            shared = shared || s;
            exclusive = exclusive || e;
            i += 1;
        }
        proof {
            assert(self@.scopes.take(i as int) =~= self@.scopes);
        }
        (shared, exclusive)
    }

    /// Whether a live borrow, in the context-wide store or in any scope,
    /// stands against a new borrow of `value_id` of the given kind.
    pub fn conflicts_with_borrow(&self, value_id: ValueId, is_mut: bool) -> (r: bool)
        ensures
            r == !self@.permits(value_id, is_mut),
    {
        let (shared, exclusive) = self.holds(value_id);
        if is_mut {
            shared || exclusive
        } else {
            exclusive
        }
    }

    /// Registers a borrow that outlives the scopes, unless a live borrow
    /// stands against it.
    pub fn add_borrow(&mut self, value_id: ValueId, is_mut: bool) -> (r: Option<BorrowId>)
        ensures
            match r {
                Some(id) => old(self)@.permits(value_id, is_mut) && final(self)@ == old(
                    self,
                )@.borrow_wide(value_id, is_mut) && id.0 == old(self)@.borrows.len(),
                None => !old(self)@.permits(value_id, is_mut) && final(self)@ == old(self)@,
            },
            old(self).wf() ==> final(self).wf(),
    {
        if self.conflicts_with_borrow(value_id, is_mut) {
            return None;
        }
        proof {
            let before = self@;
            let after = before.borrow_wide(value_id, is_mut);
            if before.wf() {
                assert forall|v: ValueId| #[trigger]
                    tallies_agree(after.total(v, true), after.total(v, false)) by {
                    lemma_count_push(before.borrows, Some(Borrow { value_id, is_mut }), v, true);
                    lemma_count_push(before.borrows, Some(Borrow { value_id, is_mut }), v, false);
                    assert(tallies_agree(before.total(v, true), before.total(v, false)));
                }
            }
        }
        Some(self.borrow_store.add_borrow(value_id, is_mut))
    }

    /// Registers a borrow that ends with the innermost scope, unless a
    /// live borrow stands against it.
    pub fn add_scoped_borrow(&mut self, value_id: ValueId, is_mut: bool) -> (r: Option<BorrowId>)
        requires
            old(self)@.scopes.len() > 0,
        ensures
            match r {
                Some(id) => old(self)@.permits(value_id, is_mut) && final(self)@ == old(
                    self,
                )@.borrow_scoped(value_id, is_mut) && id.0 == old(self)@.top().borrows.len(),
                None => !old(self)@.permits(value_id, is_mut) && final(self)@ == old(self)@,
            },
            old(self).wf() ==> final(self).wf(),
    {
        if self.conflicts_with_borrow(value_id, is_mut) {
            return None;
        }
        let mut scope = self.scopes.pop().unwrap();
        let ghost rest = self.scopes@;
        let ghost before = old(self)@;
        proof {
            assert(before.scopes.last() == scope@);
        }
        let id = scope.add_borrow_value(value_id, is_mut);
        proof {
            let after = before.borrow_scoped(value_id, is_mut);
            assert(rest.push(scope).map_values(|s: Scope| s@) =~= after.scopes);
            if before.wf() {
                assert forall|v: ValueId| #[trigger]
                    tallies_agree(after.total(v, true), after.total(v, false)) by {
                    lemma_scoped_count_top(before.scopes, scope@, v, true);
                    lemma_scoped_count_top(before.scopes, scope@, v, false);
                    lemma_count_push(
                        before.top().borrows,
                        Some(Borrow { value_id, is_mut }),
                        v,
                        true,
                    );
                    lemma_count_push(
                        before.top().borrows,
                        Some(Borrow { value_id, is_mut }),
                        v,
                        false,
                    );
                    assert(tallies_agree(before.total(v, true), before.total(v, false)));
                }
            }
        }
        self.scopes.push(scope);
        Some(id)
    }

    /// Releases a borrow of the context-wide store.
    pub fn release_borrow(&mut self, borrow_id: BorrowId)
        ensures
            final(self)@ == old(self)@.release_wide(borrow_id),
            old(self).wf() ==> final(self).wf(),
    {
        proof {
            let before = self@;
            let after = before.release_wide(borrow_id);
            if before.wf() {
                assert forall|v: ValueId| #[trigger]
                    tallies_agree(after.total(v, true), after.total(v, false)) by {
                    lemma_count_released(before.borrows, borrow_id, v, true);
                    lemma_count_released(before.borrows, borrow_id, v, false);
                    assert(tallies_agree(before.total(v, true), before.total(v, false)));
                }
            }
        }
        self.borrow_store.drop_borrows(borrow_id)
    }

    /// Appends a type to the type store.
    pub fn add_type(&mut self, ty: Type) -> (id: TypeId)
        ensures
            final(self)@ == old(self)@.add_type(ty@),
            id == old(self)@.next_type_id(),
            old(self).wf() ==> final(self).wf(),
    {
        proof {
            let before = self@;
            let after = before.add_type(ty@);
            if before.wf() {
                assert(after.types.subrange(0, 18) =~= before.types.subrange(0, 18));
                assert forall|v: ValueId| #[trigger]
                    tallies_agree(after.total(v, true), after.total(v, false)) by {
                    assert(tallies_agree(before.total(v, true), before.total(v, false)));
                }
            }
        }
        self.type_store.add_type(ty)
    }

    /// Records the type of the syntax node at `range`.
    pub fn note_type(&mut self, range: Range, type_id: TypeId)
        ensures
            final(self)@ == old(self)@.note(range, type_id),
            old(self).wf() ==> final(self).wf(),
    {
        proof {
            let before = self@;
            let after = before.note(range, type_id);
            if before.wf() {
                assert forall|v: ValueId| #[trigger]
                    tallies_agree(after.total(v, true), after.total(v, false)) by {
                    assert(tallies_agree(before.total(v, true), before.total(v, false)));
                }
            }
        }
        self.node_types.record(range, type_id)
    }

    pub fn node_type(&self, range: Range) -> (r: Option<TypeId>)
        ensures
            r == self@.node_type(range),
    {
        self.node_types.get(range)
    }
}

impl Default for Context {
    fn default() -> (r: Context)
        ensures
            r@ == ContextView::initial(),
            r.wf(),
    {
        Context::new()
    }
}

/// In a well-formed environment each value has at most one live exclusive
/// borrow, and never an exclusive one beside a shared one, over the
/// context-wide store and all scopes together.
pub proof fn lemma_context_tallies(ctx: ContextView, value_id: ValueId)
    requires
        ctx.wf(),
    ensures
        ctx.total(value_id, true) <= 1,
        ctx.total(value_id, true) * ctx.total(value_id, false) == 0,
{
    assert(tallies_agree(ctx.total(value_id, true), ctx.total(value_id, false)));
    assert(ctx.total(value_id, true) * ctx.total(value_id, false) == 0) by (nonlinear_arith)
        requires
            ctx.total(value_id, true) == 0 || ctx.total(value_id, false) == 0,
    ;
}

/// In a well-formed environment a borrow may be taken exactly when
/// taking it, in the innermost scope or in the context-wide store, keeps
/// the environment well-formed.
pub proof fn lemma_context_permits_iff(ctx: ContextView, value_id: ValueId, is_mut: bool)
    requires
        ctx.wf(),
    ensures
        ctx.permits(value_id, is_mut) <==> ctx.borrow_scoped(value_id, is_mut).wf(),
        ctx.permits(value_id, is_mut) <==> ctx.borrow_wide(value_id, is_mut).wf(),
{
    let scoped = ctx.borrow_scoped(value_id, is_mut);
    let wide = ctx.borrow_wide(value_id, is_mut);
    let added = Some(Borrow { value_id, is_mut });
    assert forall|v: ValueId, m: bool|
        scoped.total(v, m) == ctx.total(v, m) + if v == value_id && m == is_mut {
            1nat
        } else {
            0nat
        } && wide.total(v, m) == scoped.total(v, m) by {
        lemma_scoped_count_top(ctx.scopes, scoped.top(), v, m);
        lemma_count_push(ctx.top().borrows, added, v, m);
        lemma_count_push(ctx.borrows, added, v, m);
        assert(scoped.top().borrows == ctx.top().borrows.push(added));
    }
    assert(tallies_agree(ctx.total(value_id, true), ctx.total(value_id, false)));
    if ctx.permits(value_id, is_mut) {
        assert forall|v: ValueId| #[trigger]
            tallies_agree(scoped.total(v, true), scoped.total(v, false)) by {
            assert(tallies_agree(ctx.total(v, true), ctx.total(v, false)));
        }
        assert forall|v: ValueId| #[trigger]
            tallies_agree(wide.total(v, true), wide.total(v, false)) by {
            assert(tallies_agree(ctx.total(v, true), ctx.total(v, false)));
        }
    } else {
        assert(!tallies_agree(scoped.total(value_id, true), scoped.total(value_id, false)));
        assert(!tallies_agree(wide.total(value_id, true), wide.total(value_id, false)));
    }
}

} // verus!
