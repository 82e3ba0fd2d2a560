//! The shared-handle capability surface and its two variants.
//!
//! Higher-level parser code is written once against [`ContextPtr`] and
//! chooses a variant at construction time: [`SerContextPtr`] for a parser
//! that runs on one thread of control, [`ParContextPtr`] for parsers that
//! share one context graph across threads. Both variants drive the same
//! verified state machine in the [`ContextStore`]; they differ in how a
//! conflicting borrow surfaces (a fail-fast logic error versus waiting for
//! the lock) and in the error type their non-blocking operations return.
//!
//! The verified model makes two things explicit that the executable
//! primitives do implicitly: the shared state lives in a store that every
//! operation takes as a parameter, and guard release and handle disposal
//! are explicit calls that consume the guard or handle. Ownership of those
//! values plays the role of automatic drops: a handle or guard can be
//! spent exactly once.

use crate::context::{Context, WeakContextRef};
use crate::store::{
    can_share, live_slot, shared_dec, shared_inc, upgradable, BorrowFlag, ContextStore, Slot,
};
use vstd::prelude::*;

verus! {

/// Error of `try_borrow` on the single-threaded handle: an exclusive
/// borrow is outstanding on the same call stack, so shared access cannot
/// be granted right now.
#[derive(Clone, Copy, Debug, PartialEq, Eq)]
pub struct BorrowError;

/// Error of `try_borrow_mut` on the single-threaded handle: some borrow is
/// outstanding on the same call stack, so exclusive access cannot be
/// granted right now.
#[derive(Clone, Copy, Debug, PartialEq, Eq)]
pub struct BorrowMutError;

/// Error of the non-blocking operations on the concurrent handle.
#[derive(Clone, Copy, Debug, PartialEq, Eq)]
pub enum LockError {
    /// The lock is held incompatibly at the moment of the call; the access
    /// would have to wait.
    WouldBlock,
    /// The lock became permanently unusable because an exclusive holder
    /// terminated abnormally. Verified holders never terminate abnormally,
    /// so the operations of this library never return this variant; it is
    /// kept because a reader/writer lock's error surface distinguishes the
    /// two cases, and callers of the trait may match on both.
    Poisoned,
}

/// A scoped proof of shared (read) access to one context. Any number of
/// read guards may be outstanding on a slot at once; while any is, no
/// write guard can be created for that slot.
pub struct ReadGuard {
    slot: usize,
}

impl ReadGuard {
    /// The slot this guard grants read access to.
    pub closed spec fn id(&self) -> int {
        self.slot as int
    }

    /// The guard is outstanding on its slot of `s`.
    pub open spec fn valid(&self, s: ContextStore) -> bool {
        0 <= self.id() < s@.len() && s@[self.id()].flag is Shared
    }

    /// Read the guarded context.
    pub fn context<'a>(&self, store: &'a ContextStore) -> (c: &'a Context)
        requires
            store.wf(),
            self.valid(*store),
        ensures
            store@[self.id()].value == Some(*c),
    {
        store.value_ref(self.slot)
    }

    /// End this shared borrow. Consuming the guard is the explicit
    /// analogue of the guard going out of scope; it cannot be ended twice.
    pub fn release(self, store: &mut ContextStore)
        requires
            old(store).wf(),
            self.valid(*old(store)),
        ensures
            final(store).wf(),
            final(store)@ == old(store)@.update(
                self.id(),
                (Slot {
                    strong: old(store)@[self.id()].strong,
                    flag: shared_dec(old(store)@[self.id()].flag),
                    value: old(store)@[self.id()].value,
                }),
            ),
    {
        store.end_shared(self.slot);
    }
}

/// A scoped proof of exclusive (write) access to one context. The guard
/// owns the context value for its whole duration — the slot holds nothing
/// while the guard is out — so no other access can observe or disturb the
/// value until the guard writes it back.
pub struct WriteGuard {
    slot: usize,
    context: Context,
}

impl WriteGuard {
    /// The slot this guard grants write access to.
    pub closed spec fn id(&self) -> int {
        self.slot as int
    }

    /// The guarded context value as the guard currently holds it.
    pub closed spec fn ctx(&self) -> Context {
        self.context
    }

    /// The guard is outstanding on its slot of `s`.
    pub open spec fn valid(&self, s: ContextStore) -> bool {
        0 <= self.id() < s@.len() && s@[self.id()].flag is Exclusive
    }

    /// Read the guarded context.
    pub fn context(&self) -> (c: &Context)
        ensures
            *c == self.ctx(),
    {
        &self.context
    }

    /// Overwrite the guarded context; the new value is what release will
    /// write back.
    pub fn replace(&mut self, context: Context)
        ensures
            final(self).id() == old(self).id(),
            final(self).ctx() == context,
    {
        self.context = context;
    }

    /// End this exclusive borrow, writing the possibly mutated context
    /// back. The slot holds exactly the guard's context afterwards: no
    /// update made under the exclusive borrow is lost.
    pub fn release(self, store: &mut ContextStore)
        requires
            old(store).wf(),
            self.valid(*old(store)),
        ensures
            final(store).wf(),
            final(store)@ == old(store)@.update(
                self.id(),
                (Slot {
                    strong: old(store)@[self.id()].strong,
                    flag: BorrowFlag::Free,
                    value: Some(self.ctx()),
                }),
            ),
    {
        store.end_exclusive(self.slot, self.context);
    }
}

/// The capability set a shared context handle provides, common to the
/// single-threaded and the concurrent variant.
///
/// A handle strongly owns the slot `self.id()` of the store it was created
/// in. The contracts pin every operation down to one transition of the
/// slot's state machine and leave every other slot untouched.
pub trait ContextPtr: Sized {
    /// Error type of `try_borrow`.
    type BorrowError;

    /// Error type of `try_borrow_mut`.
    type BorrowMutError;

    /// The store slot this handle strongly owns.
    spec fn id(&self) -> int;

    /// Whether an error value reports a presently conflicting borrow (as
    /// opposed to a permanently unusable lock). Every error the trait's
    /// operations return satisfies this: a verified exclusive holder never
    /// terminates abnormally, so a lock never poisons.
    spec fn conflict(e: &Self::BorrowError) -> bool;

    /// As `conflict`, for the error type of `try_borrow_mut`.
    spec fn conflict_mut(e: &Self::BorrowMutError) -> bool;

    /// Take ownership of a freshly built context and wrap it in a handle
    /// with exactly one strong owner and no borrow outstanding. The new
    /// slot is fresh: its index is the old slot count, so it is distinct
    /// from the slot of every handle created before, and every existing
    /// slot is left untouched.
    fn new(store: &mut ContextStore, context: Context) -> (r: Self)
        requires
            old(store).wf(),
        ensures
            final(store).wf(),
            r.id() == old(store)@.len(),
            final(store)@ == old(store)@.push(
                (Slot { strong: 1, flag: BorrowFlag::Free, value: Some(context) }),
            ),
    ;

    /// A second handle to the identical context: the strong count grows by
    /// one and nothing else changes. This is the explicit analogue of
    /// cloning a reference-counted pointer.
    fn duplicate(&self, store: &mut ContextStore) -> (r: Self)
        requires
            old(store).wf(),
            live_slot(*old(store), self.id()),
            old(store)@[self.id()].strong < u64::MAX,
        ensures
            final(store).wf(),
            r.id() == self.id(),
            final(store)@ == old(store)@.update(
                self.id(),
                (Slot {
                    strong: (old(store)@[self.id()].strong + 1) as u64,
                    flag: old(store)@[self.id()].flag,
                    value: old(store)@[self.id()].value,
                }),
            ),
    ;

    /// Give this strong handle up. When it was the last strong owner the
    /// context is destroyed on the spot — the slot becomes dead, unborrowed
    /// and empty, and stays so forever. The last owner can only be given up
    /// while no borrow is outstanding, since an outstanding guard borrows
    /// from the handle it came from.
    fn dispose(self, store: &mut ContextStore)
        requires
            old(store).wf(),
            live_slot(*old(store), self.id()),
            old(store)@[self.id()].strong == 1 ==> old(store)@[self.id()].flag is Free,
        ensures
            final(store).wf(),
            old(store)@[self.id()].strong > 1 ==> final(store)@ == old(store)@.update(
                self.id(),
                (Slot {
                    strong: (old(store)@[self.id()].strong - 1) as u64,
                    flag: old(store)@[self.id()].flag,
                    value: old(store)@[self.id()].value,
                }),
            ),
            old(store)@[self.id()].strong == 1 ==> final(store)@ == old(store)@.update(
                self.id(),
                (Slot { strong: 0, flag: BorrowFlag::Free, value: None }),
            ),
    ;

    /// A non-owning reference to the same context. Never fails, touches no
    /// count, and needs no store: the weak reference is pure data.
    fn downgrade(&self) -> (w: WeakContextRef)
        ensures
            w.id() == self.id(),
    ;

    /// Attempt to obtain a strong handle from a weak reference. Succeeds
    /// exactly while the context is still alive (and its strong count can
    /// still grow); once the last strong owner is gone every upgrade of
    /// every weak reference to that slot returns `None`, deterministically
    /// and forever. On success the result is a strong owner of the
    /// identical slot the weak reference points at.
    fn upgrade(w: &WeakContextRef, store: &mut ContextStore) -> (r: Option<Self>)
        requires
            old(store).wf(),
        ensures
            final(store).wf(),
            r is Some <==> upgradable(*old(store), w.id()),
            r matches Some(h) ==> h.id() == w.id() && final(store)@ == old(store)@.update(
                w.id(),
                (Slot {
                    strong: (old(store)@[w.id()].strong + 1) as u64,
                    flag: old(store)@[w.id()].flag,
                    value: old(store)@[w.id()].value,
                }),
            ),
            r is None ==> final(store)@ == old(store)@,
    ;

    /// Obtain shared read access. The precondition states the condition
    /// under which the access is granted: no exclusive borrow outstanding.
    /// The single-threaded variant treats a violation as a same-thread
    /// logic error; the concurrent variant's executable analogue blocks
    /// until the condition holds, and this contract describes the moment
    /// the lock admits the caller.
    fn borrow(&self, store: &mut ContextStore) -> (g: ReadGuard)
        requires
            old(store).wf(),
            live_slot(*old(store), self.id()),
            can_share(old(store)@[self.id()].flag),
        ensures
            final(store).wf(),
            g.id() == self.id(),
            final(store)@ == old(store)@.update(
                self.id(),
                (Slot {
                    strong: old(store)@[self.id()].strong,
                    flag: shared_inc(old(store)@[self.id()].flag),
                    value: old(store)@[self.id()].value,
                }),
            ),
    ;

    /// Attempt shared read access without waiting. Succeeds if and only if
    /// no exclusive borrow is outstanding (and the shared count can still
    /// grow); on failure the store is untouched and the error reports a
    /// presently conflicting borrow, never an unusable lock.
    fn try_borrow(&self, store: &mut ContextStore) -> (r: Result<ReadGuard, Self::BorrowError>)
        requires
            old(store).wf(),
            live_slot(*old(store), self.id()),
        ensures
            final(store).wf(),
            r is Ok <==> can_share(old(store)@[self.id()].flag),
            r matches Ok(g) ==> g.id() == self.id() && final(store)@ == old(store)@.update(
                self.id(),
                (Slot {
                    strong: old(store)@[self.id()].strong,
                    flag: shared_inc(old(store)@[self.id()].flag),
                    value: old(store)@[self.id()].value,
                }),
            ),
            r matches Err(e) ==> Self::conflict(&e) && final(store)@ == old(store)@,
    ;

    /// Obtain exclusive write access, excluding all other readers and
    /// writers for the guard's lifetime. Granted exactly when no borrow of
    /// any kind is outstanding; the returned guard takes the context value
    /// with it. As with `borrow`, the precondition is the grant condition:
    /// fail-fast for the single-threaded variant, the moment the lock
    /// admits the writer for the concurrent one.
    fn borrow_mut(&self, store: &mut ContextStore) -> (g: WriteGuard)
        requires
            old(store).wf(),
            live_slot(*old(store), self.id()),
            old(store)@[self.id()].flag is Free,
        ensures
            final(store).wf(),
            g.id() == self.id(),
            old(store)@[self.id()].value == Some(g.ctx()),
            final(store)@ == old(store)@.update(
                self.id(),
                (Slot {
                    strong: old(store)@[self.id()].strong,
                    flag: BorrowFlag::Exclusive,
                    value: None,
                }),
            ),
    ;

    /// Attempt exclusive write access without waiting. Succeeds if and
    /// only if no borrow of any kind is outstanding; on failure the store
    /// is untouched and the error reports a presently conflicting borrow,
    /// never an unusable lock.
    fn try_borrow_mut(&self, store: &mut ContextStore) -> (r: Result<
        WriteGuard,
        Self::BorrowMutError,
    >)
        requires
            old(store).wf(),
            live_slot(*old(store), self.id()),
        ensures
            final(store).wf(),
            r is Ok <==> old(store)@[self.id()].flag is Free,
            r matches Ok(g) ==> g.id() == self.id() && old(store)@[self.id()].value == Some(
                g.ctx(),
            ) && final(store)@ == old(store)@.update(
                self.id(),
                (Slot {
                    strong: old(store)@[self.id()].strong,
                    flag: BorrowFlag::Exclusive,
                    value: None,
                }),
            ),
            r matches Err(e) ==> Self::conflict_mut(&e) && final(store)@ == old(store)@,
    ;
}

/// The single-threaded handle variant: unsynchronized reference counting
/// and dynamic, fail-fast borrow checking. A conflicting `borrow` or
/// `borrow_mut` can only come from the same call stack — reentrant
/// traversal of a cyclic graph, say — so it is a logic error, and the
/// executable analogue terminates on it; here the grant condition stands
/// in the precondition, and callers wanting recoverability use the `try_*`
/// operations, which report the conflict as an error value.
pub struct SerContextPtr {
    slot: usize,
}

impl ContextPtr for SerContextPtr {
    type BorrowError = BorrowError;

    type BorrowMutError = BorrowMutError;

    closed spec fn id(&self) -> int {
        self.slot as int
    }

    open spec fn conflict(e: &BorrowError) -> bool {
        true
    }

    open spec fn conflict_mut(e: &BorrowMutError) -> bool {
        true
    }

    fn new(store: &mut ContextStore, context: Context) -> (r: Self) {
        let slot = store.allocate(context);
        SerContextPtr { slot }
    }

    fn duplicate(&self, store: &mut ContextStore) -> (r: Self) {
        store.inc_strong(self.slot);
        SerContextPtr { slot: self.slot }
    }

    fn dispose(self, store: &mut ContextStore) {
        store.dec_strong(self.slot);
    }

    fn downgrade(&self) -> (w: WeakContextRef) {
        WeakContextRef { slot: self.slot }
    }

    fn upgrade(w: &WeakContextRef, store: &mut ContextStore) -> (r: Option<Self>) {
        if w.slot < store.slot_count() {
            let n = store.strong_count(w.slot);
            if 1 <= n && n < u64::MAX {
                store.inc_strong(w.slot);
                Some(SerContextPtr { slot: w.slot })
            } else {
                None
            }
        } else {
            None
        }
    }

    fn borrow(&self, store: &mut ContextStore) -> (g: ReadGuard) {
        store.begin_shared(self.slot);
        ReadGuard { slot: self.slot }
    }

    fn try_borrow(&self, store: &mut ContextStore) -> (r: Result<ReadGuard, BorrowError>) {
        if store.shared_allowed(self.slot) {
            store.begin_shared(self.slot);
            Ok(ReadGuard { slot: self.slot })
        } else {
            Err(BorrowError)
        }
    }

    fn borrow_mut(&self, store: &mut ContextStore) -> (g: WriteGuard) {
        let context = store.begin_exclusive(self.slot);
        WriteGuard { slot: self.slot, context }
    }

    fn try_borrow_mut(&self, store: &mut ContextStore) -> (r: Result<WriteGuard, BorrowMutError>) {
        if store.unborrowed(self.slot) {
            let context = store.begin_exclusive(self.slot);
            Ok(WriteGuard { slot: self.slot, context })
        } else {
            Err(BorrowMutError)
        }
    }
}

/// The concurrent handle variant: atomic reference counting and a
/// reader/writer lock. The executable analogues of `borrow` and
/// `borrow_mut` block the calling thread until the lock admits it, so
/// their contracts here describe the moment of admission; `try_borrow` and
/// `try_borrow_mut` never wait and report "currently unavailable" through
/// [`LockError`]. An upgrade racing a final disposal resolves
/// deterministically: once the strong count is observed at zero the
/// upgrade fails, and no context is briefly resurrected.
pub struct ParContextPtr {
    slot: usize,
}

impl ContextPtr for ParContextPtr {
    type BorrowError = LockError;

    type BorrowMutError = LockError;

    closed spec fn id(&self) -> int {
        self.slot as int
    }

    open spec fn conflict(e: &LockError) -> bool {
        e is WouldBlock
    }

    open spec fn conflict_mut(e: &LockError) -> bool {
        e is WouldBlock
    }

    fn new(store: &mut ContextStore, context: Context) -> (r: Self) {
        let slot = store.allocate(context);
        ParContextPtr { slot }
    }

    fn duplicate(&self, store: &mut ContextStore) -> (r: Self) {
        store.inc_strong(self.slot);
        ParContextPtr { slot: self.slot }
    }

    fn dispose(self, store: &mut ContextStore) {
        store.dec_strong(self.slot);
    }

    fn downgrade(&self) -> (w: WeakContextRef) {
        WeakContextRef { slot: self.slot }
    }

    fn upgrade(w: &WeakContextRef, store: &mut ContextStore) -> (r: Option<Self>) {
        if w.slot < store.slot_count() {
            let n = store.strong_count(w.slot);
            if 1 <= n && n < u64::MAX {
                store.inc_strong(w.slot);
                Some(ParContextPtr { slot: w.slot })
            } else {
                None
            }
        } else {
            None
        }
    }

    fn borrow(&self, store: &mut ContextStore) -> (g: ReadGuard) {
        store.begin_shared(self.slot);
        ReadGuard { slot: self.slot }
    }

    fn try_borrow(&self, store: &mut ContextStore) -> (r: Result<ReadGuard, LockError>) {
        if store.shared_allowed(self.slot) {
            store.begin_shared(self.slot);
            Ok(ReadGuard { slot: self.slot })
        } else {
            Err(LockError::WouldBlock)
        }
    }

    fn borrow_mut(&self, store: &mut ContextStore) -> (g: WriteGuard) {
        let context = store.begin_exclusive(self.slot);
        WriteGuard { slot: self.slot, context }
    }

    fn try_borrow_mut(&self, store: &mut ContextStore) -> (r: Result<WriteGuard, LockError>) {
        if store.unborrowed(self.slot) {
            let context = store.begin_exclusive(self.slot);
            Ok(WriteGuard { slot: self.slot, context })
        } else {
            Err(LockError::WouldBlock)
        }
    }
}

} // verus!
