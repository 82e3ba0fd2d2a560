//! The context node held behind the handles, and the weak reference used
//! for back-edges of the context graph.

use vstd::prelude::*;

verus! {

/// A non-owning reference to a context slot.
///
/// Weak references serve as back-edges and cyclic links in the context
/// graph: they never keep a context alive, and following one requires an
/// upgrade, which fails once the last strong owner is gone. A weak
/// reference may also point at a slot that was never allocated (the analogue
/// of a dangling weak pointer); such a reference simply never upgrades.
#[derive(Clone, Copy)]
pub struct WeakContextRef {
    /// Index of the referenced slot in the store.
    pub slot: usize,
}

impl WeakContextRef {
    /// The index of the slot this weak reference points at.
    pub open spec fn id(self) -> int {
        self.slot as int
    }
}

/// One mutable node of the parsing-state graph.
///
/// The parser that consumes this library treats a context as a bundle of
/// match rules and lazily compiled derived data; those collaborators are
/// outside this core, so the node carries a representative payload: a
/// counter mutated under exclusive borrows, a cache that is absent until
/// first populated, and an optional weak back-edge, which is how cyclic
/// graphs are linked without leaking.
pub struct Context {
    /// Mutable payload, updated only under an exclusive borrow.
    pub counter: u64,
    /// Lazily derived data: absent until some exclusive borrow fills it.
    pub derived: Option<u64>,
    /// Weak back-edge to another context, if any; cycles are allowed.
    pub backlink: Option<WeakContextRef>,
}

impl Context {
    /// A fresh context with the given payload, no derived data, and no
    /// back-edge.
    pub fn new(counter: u64) -> (c: Context)
        ensures
            c.counter == counter,
            c.derived is None,
            c.backlink is None,
    {
        Context { counter, derived: None, backlink: None }
    }
}

} // verus!
