//! Behavioral tests for the concurrent handle variant. The borrow-state
//! machine is the same one the single-threaded variant drives; what these
//! tests pin down in addition is the error surface of the non-blocking
//! operations and the exactness of write-backs under repeated exclusive
//! acquisitions.

use context_ptr::{Context, ContextPtr, ContextStore, LockError, ParContextPtr, WeakContextRef};

#[test]
fn par_mutation_visible_through_duplicate() {
    let mut store = ContextStore::new();
    let ptr = ParContextPtr::new(&mut store, Context::new(8));
    let other = ptr.duplicate(&mut store);

    let mut guard = ptr.borrow_mut(&mut store);
    guard.replace(Context::new(80));
    guard.release(&mut store);

    let guard = other.borrow(&mut store);
    assert_eq!(guard.context(&store).counter, 80);
    guard.release(&mut store);

    ptr.dispose(&mut store);
    other.dispose(&mut store);
}

#[test]
fn par_shared_borrows_coexist() {
    let mut store = ContextStore::new();
    let ptr = ParContextPtr::new(&mut store, Context::new(6));
    let other = ptr.duplicate(&mut store);

    let first = ptr.borrow(&mut store);
    let second = other.try_borrow(&mut store).unwrap();
    assert_eq!(first.context(&store).counter, 6);
    assert_eq!(second.context(&store).counter, 6);
    first.release(&mut store);
    second.release(&mut store);

    ptr.dispose(&mut store);
    other.dispose(&mut store);
}

#[test]
fn par_try_errors_are_would_block() {
    let mut store = ContextStore::new();
    let ptr = ParContextPtr::new(&mut store, Context::new(0));

    let guard = ptr.borrow_mut(&mut store);
    // The writer is out: neither readers nor another writer get in, and
    // the error reports the momentary conflict, never a poisoned lock.
    assert_eq!(ptr.try_borrow(&mut store).err(), Some(LockError::WouldBlock));
    assert_eq!(ptr.try_borrow_mut(&mut store).err(), Some(LockError::WouldBlock));
    guard.release(&mut store);

    let read = ptr.try_borrow(&mut store).unwrap();
    // Readers exclude writers, non-blockingly.
    assert_eq!(ptr.try_borrow_mut(&mut store).err(), Some(LockError::WouldBlock));
    read.release(&mut store);
    ptr.dispose(&mut store);
}

#[test]
fn par_downgrade_upgrade_and_death() {
    let mut store = ContextStore::new();
    let ptr = ParContextPtr::new(&mut store, Context::new(4));
    let weak = ptr.downgrade();

    let up = ParContextPtr::upgrade(&weak, &mut store).unwrap();
    let mut guard = up.borrow_mut(&mut store);
    guard.replace(Context::new(44));
    guard.release(&mut store);
    up.dispose(&mut store);

    let guard = ptr.borrow(&mut store);
    assert_eq!(guard.context(&store).counter, 44);
    guard.release(&mut store);

    ptr.dispose(&mut store);
    assert!(ParContextPtr::upgrade(&weak, &mut store).is_none());
    assert!(ParContextPtr::upgrade(&weak, &mut store).is_none());
}

#[test]
fn par_dangling_weak_never_upgrades() {
    let mut store = ContextStore::new();
    let weak = WeakContextRef { slot: 42 };
    assert!(ParContextPtr::upgrade(&weak, &mut store).is_none());
}

#[test]
fn repeated_exclusive_increments_lose_no_update() {
    // Each round is one successful exclusive acquisition that increments
    // the counter; the final counter equals the number of acquisitions.
    // (The cross-thread form of this scenario needs real threads, which
    // this test harness does not spawn; exclusivity itself is enforced by
    // the one verified state machine both variants share.)
    let mut store = ContextStore::new();
    let ptr = ParContextPtr::new(&mut store, Context::new(0));
    let rounds: u64 = 100;
    for _ in 0..rounds {
        let worker = ptr.duplicate(&mut store);
        let mut guard = worker.borrow_mut(&mut store);
        let next = guard.context().counter + 1;
        guard.replace(Context::new(next));
        guard.release(&mut store);
        worker.dispose(&mut store);
    }
    let guard = ptr.borrow(&mut store);
    assert_eq!(guard.context(&store).counter, rounds);
    guard.release(&mut store);
    ptr.dispose(&mut store);
}

#[test]
fn weak_cycle_across_variants_of_one_graph() {
    // A graph is built once and its weak back-edges are plain data, so a
    // weak reference taken from one handle can be stored in a context and
    // read back later.
    let mut store = ContextStore::new();
    let parent = ParContextPtr::new(&mut store, Context::new(1));
    let child = ParContextPtr::new(&mut store, Context::new(2));

    let mut guard = child.borrow_mut(&mut store);
    let mut ctx = Context::new(guard.context().counter);
    ctx.backlink = Some(parent.downgrade());
    guard.replace(ctx);
    guard.release(&mut store);

    let guard = child.borrow(&mut store);
    let back = guard.context(&store).backlink.unwrap();
    guard.release(&mut store);

    let parent_again = ParContextPtr::upgrade(&back, &mut store).unwrap();
    let guard = parent_again.borrow(&mut store);
    assert_eq!(guard.context(&store).counter, 1);
    guard.release(&mut store);
    parent_again.dispose(&mut store);

    parent.dispose(&mut store);
    child.dispose(&mut store);
    assert!(ParContextPtr::upgrade(&back, &mut store).is_none());
}
