//! The library's general guarantees, stated over the same store model the
//! operations' contracts use and proved once and for all.

use crate::store::{live_slot, upgradable, ContextStore, Slot};
use vstd::prelude::*;

verus! {

/// At most one exclusive borrow, or any number of shared borrows, is
/// outstanding on a context at a time — never both kinds at once. A slot's
/// borrow state is a single `BorrowFlag` value, so recording an exclusive
/// borrow and recording shared ones are mutually exclusive by
/// construction; and while the exclusive borrow is out, the context value
/// itself is held by the write guard, out of reach of every other party.
pub proof fn lemma_shared_excludes_exclusive(s: ContextStore, i: int)
    requires
        s.wf(),
        0 <= i < s@.len(),
    ensures
        !(s@[i].flag is Shared && s@[i].flag is Exclusive),
        s@[i].flag is Exclusive ==> s@[i].value is None,
        s@[i].flag is Shared ==> s@[i].value is Some,
{
}

/// Downgrading a live handle and immediately upgrading the result always
/// succeeds and refers to the identical context: `downgrade` returns a
/// weak reference carrying the handle's own slot, and by the contract of
/// `upgrade`, a weak reference to a live slot — which a slot with an
/// outstanding handle is — upgrades to `Some` new handle with that same
/// slot, whose strong count merely grew by one.
pub proof fn lemma_downgrade_then_upgrade(s: ContextStore, i: int)
    requires
        s.wf(),
        live_slot(s, i),
        s@[i].strong < u64::MAX,
    ensures
        upgradable(s, i),
{
}

/// Once the last strong owner of a context is gone, the context is
/// destroyed and every pending or subsequent upgrade of a weak reference
/// to it fails, deterministically: a dead slot holds no value, has no
/// borrow outstanding, and is not upgradable. No operation revives a dead
/// slot — every operation's contract either demands a live slot or, as
/// `upgrade` on a dead one, leaves the store unchanged — so the same holds
/// in every later state of the store.
pub proof fn lemma_dead_slot_stays_dead(s: ContextStore, i: int)
    requires
        s.wf(),
        0 <= i < s@.len(),
        s@[i].strong == 0,
    ensures
        !upgradable(s, i),
        !live_slot(s, i),
        s@[i].value is None,
        s@[i].flag is Free,
{
}

/// A fresh allocation is distinct from every existing slot and leaves
/// every existing slot untouched. With the contract of `new` — the fresh
/// handle's slot is the old slot count — two handles created by `new`
/// never refer to the same context.
pub proof fn lemma_fresh_slot_distinct(s: ContextStore, slot: Slot, i: int)
    requires
        0 <= i < s@.len(),
    ensures
        i != s@.len(),
        s@.push(slot)[i] == s@[i],
{
}

/// Every mutating operation's contract rewrites exactly one slot, and an
/// update at one index leaves every other slot — its counts, its borrow
/// state, and its context — exactly as it was: handles for distinct slots
/// are independent, so mutating through one never affects the other.
pub proof fn lemma_distinct_slots_independent(
    s: ContextStore,
    t: ContextStore,
    slot: Slot,
    i: int,
    j: int,
)
    requires
        0 <= i < s@.len(),
        0 <= j < s@.len(),
        i != j,
        t@ == s@.update(i, slot),
    ensures
        t@[j] == s@[j],
{
}

} // verus!
