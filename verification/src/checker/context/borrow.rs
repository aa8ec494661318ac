//! Borrow accounting: which values are borrowed, and how.

use vstd::prelude::*;
use super::value::ValueId;

verus! {

/// Handle of a borrow inside the store that gave it out.
#[derive(Debug, Clone, Copy, PartialEq, Eq, Structural, Hash)]
pub struct BorrowId(pub usize);

/// A borrow of the value `value_id`: exclusive if `is_mut`, shared if not.
#[derive(Debug, Clone, Copy, PartialEq, Eq, Structural, Hash)]
pub struct Borrow {
    pub value_id: ValueId,
    pub is_mut: bool,
}

/// Number of live borrows of `value_id` of the given kind among `slots`.
pub open spec fn count(slots: Seq<Option<Borrow>>, value_id: ValueId, is_mut: bool) -> nat
    decreases slots.len(),
{
    if slots.len() == 0 {
        0
    } else {
        count(slots.drop_last(), value_id, is_mut) + if slots.last() == Some(
            Borrow { value_id, is_mut },
        ) {
            1nat
        } else {
            0nat
        }
    }
}

/// Number of live shared borrows of `value_id`.
pub open spec fn live_shared(slots: Seq<Option<Borrow>>, value_id: ValueId) -> nat {
    count(slots, value_id, false)
}

/// Number of live exclusive borrows of `value_id`.
pub open spec fn live_exclusive(slots: Seq<Option<Borrow>>, value_id: ValueId) -> nat {
    count(slots, value_id, true)
}

/// The borrow rule, for one value given its two tallies: at most one
/// exclusive borrow, and never an exclusive one beside a shared one.
pub open spec fn tallies_agree(exclusive: nat, shared: nat) -> bool {
    exclusive <= 1 && (exclusive == 0 || shared == 0)
}

/// Whether one more borrow of the given kind may join the tallies.
pub open spec fn tallies_permit(exclusive: nat, shared: nat, is_mut: bool) -> bool {
    if is_mut {
        exclusive == 0 && shared == 0
    } else {
        exclusive == 0
    }
}

/// The borrow rule holds of every value.
pub open spec fn accounted(slots: Seq<Option<Borrow>>) -> bool {
    forall|v: ValueId| #[trigger]
        tallies_agree(live_exclusive(slots, v), live_shared(slots, v))
}

/// No live borrow stands against a new borrow of `value_id` of the given kind.
pub open spec fn permits(slots: Seq<Option<Borrow>>, value_id: ValueId, is_mut: bool) -> bool {
    tallies_permit(live_exclusive(slots, value_id), live_shared(slots, value_id), is_mut)
}

/// The slots after the borrow `id` was released.
pub open spec fn released(slots: Seq<Option<Borrow>>, id: BorrowId) -> Seq<Option<Borrow>> {
    if id.0 < slots.len() {
        slots.update(id.0 as int, None)
    } else {
        slots
    }
}

/// The live borrow behind `id`, if there is one.
pub open spec fn borrow_at(slots: Seq<Option<Borrow>>, id: BorrowId) -> Option<Borrow> {
    if id.0 < slots.len() {
        slots[id.0 as int]
    } else {
        None
    }
}

pub proof fn lemma_count_push(
    slots: Seq<Option<Borrow>>,
    slot: Option<Borrow>,
    value_id: ValueId,
    is_mut: bool,
)
    ensures
        count(slots.push(slot), value_id, is_mut) == count(slots, value_id, is_mut) + if slot
            == Some(Borrow { value_id, is_mut }) {
            1nat
        } else {
            0nat
        },
{
    assert(slots.push(slot).drop_last() =~= slots);
}

/// Releasing a slot lowers at most the tally that the slot counted for,
/// and that one by one.
pub proof fn lemma_count_released(
    slots: Seq<Option<Borrow>>,
    id: BorrowId,
    value_id: ValueId,
    is_mut: bool,
)
    ensures
        count(released(slots, id), value_id, is_mut) == count(slots, value_id, is_mut) - if borrow_at(
            slots,
            id,
        ) == Some(Borrow { value_id, is_mut }) {
            1int
        } else {
            0int
        },
    decreases slots.len(),
{
    if id.0 < slots.len() {
        let after = slots.update(id.0 as int, None);
        if id.0 == slots.len() - 1 {
            assert(after.drop_last() =~= slots.drop_last());
        } else {
            lemma_count_released(slots.drop_last(), id, value_id, is_mut);
            assert(after.drop_last() =~= slots.drop_last().update(id.0 as int, None));
        }
    }
}

/// The flat list of borrows that were registered, each in a slot of its
/// own; a released borrow leaves its slot empty, so that no handle is ever
/// given out twice.
#[derive(Debug, Clone)]
pub struct BorrowStore {
    slots: Vec<Option<Borrow>>,
}

impl View for BorrowStore {
    type V = Seq<Option<Borrow>>;

    closed spec fn view(&self) -> Seq<Option<Borrow>> {
        self.slots@
    }
}

impl BorrowStore {
    /// The borrow rule holds of this store.
    pub open spec fn wf(&self) -> bool {
        accounted(self@)
    }

    /// Whether `value_id` has a live shared borrow, and whether it has a
    /// live exclusive one.
    pub fn holds(&self, value_id: ValueId) -> (r: (bool, bool))
        ensures
            r.0 == (live_shared(self@, value_id) > 0),
            r.1 == (live_exclusive(self@, value_id) > 0),
    {
        let mut shared = false;
        let mut exclusive = false;
        let mut i: usize = 0;
        while i < self.slots.len()
            invariant
                i <= self.slots@.len(),
                shared == (count(self.slots@.take(i as int), value_id, false) > 0),
                exclusive == (count(self.slots@.take(i as int), value_id, true) > 0),
            decreases self.slots@.len() - i,
        {
            proof {
                let next = self.slots@.take(i + 1);
                assert(next.drop_last() =~= self.slots@.take(i as int));
                assert(next.last() == self.slots@[i as int]);
            }
            match self.slots[i] {
                Some(borrow) => {
                    if borrow.value_id == value_id {
                        if borrow.is_mut {
                            exclusive = true;
                        } else {
                            shared = true;
                        }
                    }
                },
                None => {},
            }
            i += 1;
        }
        proof {
            assert(self.slots@.take(i as int) =~= self.slots@);
        }
        (shared, exclusive)
    }

    /// True iff a borrow of `value_id` of the given kind can join the live
    /// ones: a shared borrow beside no exclusive one, an exclusive borrow
    /// beside none at all.
    pub fn can_borrow_as(&self, value_id: ValueId, is_mut: bool) -> (r: bool)
        ensures
            r == permits(self@, value_id, is_mut),
    {
        let (shared, exclusive) = self.holds(value_id);
        if is_mut {
            !shared && !exclusive
        } else {
            !exclusive
        }
    }

    /// The negation of [`BorrowStore::can_borrow_as`].
    pub fn conflicts_with_borrow(&self, value_id: ValueId, is_mut: bool) -> (r: bool)
        ensures
            r == !permits(self@, value_id, is_mut),
    {
        !self.can_borrow_as(value_id, is_mut)
    }

    /// Registers a borrow that the live ones permit, and returns its handle.
    pub fn add_borrow(&mut self, value_id: ValueId, is_mut: bool) -> (id: BorrowId)
        requires
            permits(old(self)@, value_id, is_mut),
        ensures
            final(self)@ == old(self)@.push(Some(Borrow { value_id, is_mut })),
            id.0 == old(self)@.len(),
            old(self).wf() ==> final(self).wf(),
    {
        let id = BorrowId(self.slots.len());
        proof {
            lemma_add_keeps_accounted(self@, value_id, is_mut);
        }
        self.slots.push(Some(Borrow { value_id, is_mut }));
        id
    }

    pub fn get_borrow(&self, borrow_id: BorrowId) -> (r: Option<&Borrow>)
        ensures
            match r {
                Some(borrow) => borrow_at(self@, borrow_id) == Some(*borrow),
                None => borrow_at(self@, borrow_id) is None,
            },
    {
        if borrow_id.0 < self.slots.len() {
            self.slots[borrow_id.0].as_ref()
        } else {
            None
        }
    }

    /// Releases the borrow behind `borrow_id`. A handle that denotes no
    /// live borrow changes nothing.
    pub fn drop_borrows(&mut self, borrow_id: BorrowId)
        ensures
            final(self)@ == released(old(self)@, borrow_id),
            old(self).wf() ==> final(self).wf(),
    {
        proof {
            lemma_release_keeps_accounted(self@, borrow_id);
        }
        if borrow_id.0 < self.slots.len() {
            self.slots.set(borrow_id.0, None);
        }
    }

    /// Number of slots, live or released.
    pub fn len(&self) -> (r: usize)
        ensures
            r == self@.len(),
    {
        self.slots.len()
    }
}

impl Default for BorrowStore {
    fn default() -> (r: BorrowStore)
        ensures
            r@ == Seq::<Option<Borrow>>::empty(),
            r.wf(),
    {
        BorrowStore { slots: Vec::new() }
    }
}

/// At every instant each value has at most one live exclusive borrow, and
/// the product of its two tallies is zero.
pub proof fn lemma_accounted_tallies(slots: Seq<Option<Borrow>>, value_id: ValueId)
    requires
        accounted(slots),
    ensures
        live_exclusive(slots, value_id) <= 1,
        live_exclusive(slots, value_id) * live_shared(slots, value_id) == 0,
{
    assert(tallies_agree(live_exclusive(slots, value_id), live_shared(slots, value_id)));
    assert(live_exclusive(slots, value_id) * live_shared(slots, value_id) == 0) by (nonlinear_arith)
        requires
            live_exclusive(slots, value_id) == 0 || live_shared(slots, value_id) == 0,
    ;
}

/// A borrow may be added exactly when adding it keeps the borrow rule.
pub proof fn lemma_permits_iff_add_accounted(
    slots: Seq<Option<Borrow>>,
    value_id: ValueId,
    is_mut: bool,
)
    requires
        accounted(slots),
    ensures
        permits(slots, value_id, is_mut) <==> accounted(
            slots.push(Some(Borrow { value_id, is_mut })),
        ),
{
    let after = slots.push(Some(Borrow { value_id, is_mut }));
    if permits(slots, value_id, is_mut) {
        lemma_add_keeps_accounted(slots, value_id, is_mut);
    } else {
        lemma_count_push(slots, Some(Borrow { value_id, is_mut }), value_id, true);
        lemma_count_push(slots, Some(Borrow { value_id, is_mut }), value_id, false);
        assert(tallies_agree(live_exclusive(slots, value_id), live_shared(slots, value_id)));
        assert(!tallies_agree(live_exclusive(after, value_id), live_shared(after, value_id)));
    }
}

pub proof fn lemma_add_keeps_accounted(slots: Seq<Option<Borrow>>, value_id: ValueId, is_mut: bool)
    requires
        permits(slots, value_id, is_mut),
    ensures
        accounted(slots) ==> accounted(slots.push(Some(Borrow { value_id, is_mut }))),
{
    let after = slots.push(Some(Borrow { value_id, is_mut }));
    if accounted(slots) {
        assert forall|v: ValueId| #[trigger]
            tallies_agree(live_exclusive(after, v), live_shared(after, v)) by {
            lemma_count_push(slots, Some(Borrow { value_id, is_mut }), v, true);
            lemma_count_push(slots, Some(Borrow { value_id, is_mut }), v, false);
            assert(tallies_agree(live_exclusive(slots, v), live_shared(slots, v)));
        }
    }
}

pub proof fn lemma_release_keeps_accounted(slots: Seq<Option<Borrow>>, id: BorrowId)
    ensures
        accounted(slots) ==> accounted(released(slots, id)),
{
    let after = released(slots, id);
    if accounted(slots) {
        assert forall|v: ValueId| #[trigger]
            tallies_agree(live_exclusive(after, v), live_shared(after, v)) by {
            lemma_count_released(slots, id, v, true);
            lemma_count_released(slots, id, v, false);
            assert(tallies_agree(live_exclusive(slots, v), live_shared(slots, v)));
        }
    }
}

} // verus!
