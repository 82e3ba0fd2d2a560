//! The verified core shared by both handle variants: a store of context
//! slots, each tracking its strong-owner count, its borrow state, and the
//! context value itself.
//!
//! The store is the mathematical heart of the library. A slot moves through
//! the borrow state machine `Free -> Shared(n) -> Free` and
//! `Free -> Exclusive -> Free`; the transitions `Shared -> Exclusive` and
//! `Exclusive -> Shared` do not exist, so at most one exclusive borrow, or
//! any number of shared borrows, is outstanding at a time. A slot's context
//! value is destroyed exactly when its strong count reaches zero, and a
//! destroyed slot never comes back to life.

use crate::context::Context;
use vstd::prelude::*;

verus! {

/// The borrow state of one context slot.
///
/// Encoding the state as one enum makes the shared/exclusive exclusion
/// structural: a slot with an exclusive borrow cannot simultaneously record
/// shared borrows.
#[derive(Clone, Copy)]
pub enum BorrowFlag {
    /// No borrow is outstanding.
    Free,
    /// Exactly `n >= 1` shared (read) borrows are outstanding.
    Shared(u64),
    /// One exclusive (write) borrow is outstanding; the context value is
    /// held by the write guard for its duration.
    Exclusive,
}

/// One context slot: a strong-owner count, a borrow state, and the context
/// value while the slot is alive and not exclusively borrowed.
pub struct Slot {
    /// Number of strong owners (handles and upgraded weak references).
    pub strong: u64,
    /// Current borrow state.
    pub flag: BorrowFlag,
    /// The context value; `None` once destroyed, and `None` while an
    /// exclusive guard holds the value.
    pub value: Option<Context>,
}

/// A shared borrow may begin only when no exclusive borrow is outstanding
/// and the shared count can still grow.
pub open spec fn can_share(f: BorrowFlag) -> bool {
    match f {
        BorrowFlag::Free => true,
        BorrowFlag::Shared(n) => n < u64::MAX,
        BorrowFlag::Exclusive => false,
    }
}

/// The borrow state after one more shared borrow begins.
pub open spec fn shared_inc(f: BorrowFlag) -> BorrowFlag {
    match f {
        BorrowFlag::Free => BorrowFlag::Shared(1u64),
        BorrowFlag::Shared(n) => BorrowFlag::Shared((n + 1) as u64),
        BorrowFlag::Exclusive => BorrowFlag::Exclusive,
    }
}

/// The borrow state after one shared borrow ends.
pub open spec fn shared_dec(f: BorrowFlag) -> BorrowFlag {
    match f {
        BorrowFlag::Shared(n) => if n == 1 {
            BorrowFlag::Free
        } else {
            BorrowFlag::Shared((n - 1) as u64)
        },
        _ => BorrowFlag::Free,
    }
}

/// Well-formedness of one slot.
///
/// A borrowed slot has at least one strong owner; a recorded shared count is
/// at least one; and the value is present exactly while the slot is alive
/// and not exclusively borrowed. In particular a dead slot (`strong == 0`)
/// is unborrowed and its value is destroyed.
pub open spec fn slot_inv(s: Slot) -> bool {
    &&& !(s.flag is Free) ==> s.strong >= 1
    &&& (s.flag matches BorrowFlag::Shared(n) ==> n >= 1)
    &&& (s.value is Some <==> (s.strong >= 1 && !(s.flag is Exclusive)))
}

/// Whether slot `i` of the store is alive: it exists and still has a strong
/// owner.
pub open spec fn live_slot(s: ContextStore, i: int) -> bool {
    0 <= i < s@.len() && s@[i].strong >= 1
}

/// Whether a weak reference to slot `i` would upgrade to a strong handle:
/// the slot exists, is still alive, and its strong count can still grow.
pub open spec fn upgradable(s: ContextStore, i: int) -> bool {
    0 <= i < s@.len() && 1 <= s@[i].strong < u64::MAX
}

/// The store of context slots. Slots are only ever appended; a dropped
/// context leaves a dead slot behind, which keeps every outstanding weak
/// reference meaningful.
pub struct ContextStore {
    slots: Vec<Slot>,
}

impl View for ContextStore {
    type V = Seq<Slot>;

    closed spec fn view(&self) -> Seq<Slot> {
        self.slots@
    }
}

impl ContextStore {
    /// Every slot of the store is well formed.
    pub open spec fn wf(self) -> bool {
        forall|i: int| 0 <= i < self@.len() ==> slot_inv(#[trigger] self@[i])
    }

    /// An empty store.
    pub fn new() -> (s: ContextStore)
        ensures
            s.wf(),
            s@ == Seq::<Slot>::empty(),
    {
        ContextStore { slots: Vec::new() }
    }

    /// How many slots the store holds, dead ones included.
    pub fn slot_count(&self) -> (n: usize)
        ensures
            n == self@.len(),
    {
        self.slots.len()
    }

    /// The strong-owner count of slot `id`.
    pub fn strong_count(&self, id: usize) -> (n: u64)
        requires
            id < self@.len(),
        ensures
            n == self@[id as int].strong,
    {
        self.slots[id].strong
    }

    /// Whether a shared borrow of slot `id` may begin right now.
    pub fn shared_allowed(&self, id: usize) -> (b: bool)
        requires
            id < self@.len(),
        ensures
            b == can_share(self@[id as int].flag),
    {
        match self.slots[id].flag {
            BorrowFlag::Free => true,
            BorrowFlag::Shared(n) => n < u64::MAX,
            BorrowFlag::Exclusive => false,
        }
    }

    /// Whether no borrow at all is outstanding on slot `id`, so an
    /// exclusive borrow may begin right now.
    pub fn unborrowed(&self, id: usize) -> (b: bool)
        requires
            id < self@.len(),
        ensures
            b == (self@[id as int].flag is Free),
    {
        match self.slots[id].flag {
            BorrowFlag::Free => true,
            _ => false,
        }
    }

    /// Read access to the context value of slot `id`.
    pub fn value_ref(&self, id: usize) -> (c: &Context)
        requires
            id < self@.len(),
            self@[id as int].value is Some,
        ensures
            self@[id as int].value == Some(*c),
    {
        self.slots[id].value.as_ref().unwrap()
    }

    /// Append a fresh slot owning `context`, with one strong owner and no
    /// borrow outstanding. The new slot's index is the old slot count, so
    /// it is distinct from every existing slot.
    pub fn allocate(&mut self, context: Context) -> (id: usize)
        requires
            old(self).wf(),
        ensures
            final(self).wf(),
            id == old(self)@.len(),
            final(self)@ == old(self)@.push(
                (Slot { strong: 1, flag: BorrowFlag::Free, value: Some(context) }),
            ),
    {
        let id = self.slots.len();
        self.slots.push(Slot { strong: 1, flag: BorrowFlag::Free, value: Some(context) });
        assert forall|i: int| 0 <= i < self@.len() implies slot_inv(#[trigger] self@[i]) by {
            if i < old(self)@.len() {
                assert(self@[i] == old(self)@[i]);
            }
        }
        id
    }

    /// Add one strong owner to the live slot `id`.
    pub fn inc_strong(&mut self, id: usize)
        requires
            old(self).wf(),
            id < old(self)@.len(),
            1 <= old(self)@[id as int].strong < u64::MAX,
        ensures
            final(self).wf(),
            final(self)@ == old(self)@.update(
                id as int,
                (Slot {
                    strong: (old(self)@[id as int].strong + 1) as u64,
                    flag: old(self)@[id as int].flag,
                    value: old(self)@[id as int].value,
                }),
            ),
    {
        let n = self.slots[id].strong;
        self.slots[id].strong = n + 1;
        assert(self@ =~= old(self)@.update(
            id as int,
            (Slot {
                strong: (old(self)@[id as int].strong + 1) as u64,
                flag: old(self)@[id as int].flag,
                value: old(self)@[id as int].value,
            }),
        ));
    }

    /// Remove one strong owner from slot `id`. When the last strong owner
    /// goes, the context value is destroyed and the slot stays dead and
    /// unborrowed forever; the last owner may only go while no borrow is
    /// outstanding, since an outstanding guard keeps its originating handle
    /// alive.
    pub fn dec_strong(&mut self, id: usize)
        requires
            old(self).wf(),
            id < old(self)@.len(),
            old(self)@[id as int].strong >= 1,
            old(self)@[id as int].strong == 1 ==> old(self)@[id as int].flag is Free,
        ensures
            final(self).wf(),
            old(self)@[id as int].strong > 1 ==> final(self)@ == old(self)@.update(
                id as int,
                (Slot {
                    strong: (old(self)@[id as int].strong - 1) as u64,
                    flag: old(self)@[id as int].flag,
                    value: old(self)@[id as int].value,
                }),
            ),
            old(self)@[id as int].strong == 1 ==> final(self)@ == old(self)@.update(
                id as int,
                (Slot { strong: 0, flag: BorrowFlag::Free, value: None }),
            ),
    {
        let n = self.slots[id].strong;
        if n == 1 {
            self.slots[id] = Slot { strong: 0, flag: BorrowFlag::Free, value: None };
            assert(self@ =~= old(self)@.update(
                id as int,
                (Slot { strong: 0, flag: BorrowFlag::Free, value: None }),
            ));
        } else {
            self.slots[id].strong = n - 1;
            assert(self@ =~= old(self)@.update(
                id as int,
                (Slot {
                    strong: (old(self)@[id as int].strong - 1) as u64,
                    flag: old(self)@[id as int].flag,
                    value: old(self)@[id as int].value,
                }),
            ));
        }
    }

    /// Begin one shared borrow of the live slot `id`.
    pub fn begin_shared(&mut self, id: usize)
        requires
            old(self).wf(),
            id < old(self)@.len(),
            old(self)@[id as int].strong >= 1,
            can_share(old(self)@[id as int].flag),
        ensures
            final(self).wf(),
            final(self)@ == old(self)@.update(
                id as int,
                (Slot {
                    strong: old(self)@[id as int].strong,
                    flag: shared_inc(old(self)@[id as int].flag),
                    value: old(self)@[id as int].value,
                }),
            ),
    {
        let f = self.slots[id].flag;
        match f {
            BorrowFlag::Free => {
                self.slots[id].flag = BorrowFlag::Shared(1);
            },
            BorrowFlag::Shared(n) => {
                self.slots[id].flag = BorrowFlag::Shared(n + 1);
            },
            BorrowFlag::Exclusive => {
                assert(false);
            },
        }
        assert(self@ =~= old(self)@.update(
            id as int,
            (Slot {
                strong: old(self)@[id as int].strong,
                flag: shared_inc(old(self)@[id as int].flag),
                value: old(self)@[id as int].value,
            }),
        ));
    }

    /// End one shared borrow of slot `id`.
    pub fn end_shared(&mut self, id: usize)
        requires
            old(self).wf(),
            id < old(self)@.len(),
            old(self)@[id as int].flag is Shared,
        ensures
            final(self).wf(),
            final(self)@ == old(self)@.update(
                id as int,
                (Slot {
                    strong: old(self)@[id as int].strong,
                    flag: shared_dec(old(self)@[id as int].flag),
                    value: old(self)@[id as int].value,
                }),
            ),
    {
        let f = self.slots[id].flag;
        match f {
            BorrowFlag::Shared(n) => {
                if n == 1 {
                    self.slots[id].flag = BorrowFlag::Free;
                } else {
                    self.slots[id].flag = BorrowFlag::Shared(n - 1);
                }
            },
            _ => {
                assert(false);
            },
        }
        assert(self@ =~= old(self)@.update(
            id as int,
            (Slot {
                strong: old(self)@[id as int].strong,
                flag: shared_dec(old(self)@[id as int].flag),
                value: old(self)@[id as int].value,
            }),
        ));
    }

    /// Begin the exclusive borrow of the live, unborrowed slot `id`,
    /// handing the context value out to the caller for the duration.
    pub fn begin_exclusive(&mut self, id: usize) -> (c: Context)
        requires
            old(self).wf(),
            id < old(self)@.len(),
            old(self)@[id as int].strong >= 1,
            old(self)@[id as int].flag is Free,
        ensures
            final(self).wf(),
            old(self)@[id as int].value == Some(c),
            final(self)@ == old(self)@.update(
                id as int,
                (Slot {
                    strong: old(self)@[id as int].strong,
                    flag: BorrowFlag::Exclusive,
                    value: None,
                }),
            ),
    {
        let taken = self.slots[id].value.take();
        self.slots[id].flag = BorrowFlag::Exclusive;
        assert(self@ =~= old(self)@.update(
            id as int,
            (Slot {
                strong: old(self)@[id as int].strong,
                flag: BorrowFlag::Exclusive,
                value: None,
            }),
        ));
        taken.unwrap()
    }

    /// End the exclusive borrow of slot `id`, writing the possibly mutated
    /// context value back. Nothing written under the exclusive borrow is
    /// lost: the slot holds exactly `context` afterwards.
    pub fn end_exclusive(&mut self, id: usize, context: Context)
        requires
            old(self).wf(),
            id < old(self)@.len(),
            old(self)@[id as int].flag is Exclusive,
        ensures
            final(self).wf(),
            final(self)@ == old(self)@.update(
                id as int,
                (Slot {
                    strong: old(self)@[id as int].strong,
                    flag: BorrowFlag::Free,
                    value: Some(context),
                }),
            ),
    {
        self.slots[id] = Slot {
            strong: self.slots[id].strong,
            flag: BorrowFlag::Free,
            value: Some(context),
        };
        assert(self@ =~= old(self)@.update(
            id as int,
            (Slot {
                strong: old(self)@[id as int].strong,
                flag: BorrowFlag::Free,
                value: Some(context),
            }),
        ));
    }
}

} // verus!
