//! Shared-ownership handles for the mutable context nodes of a parsing
//! state graph.
//!
//! A context graph may contain cycles, so every node is co-owned by strong
//! handles, linked backwards by weak references, and read or mutated only
//! through scoped borrow guards. Two handle variants expose the same
//! capability surface: one for single-threaded use, whose conflicting
//! borrows are immediate logic errors, and one for concurrent use, whose
//! blocking operations wait for the reader/writer discipline to admit them.
//! Both variants share one verified core, the [`store::ContextStore`],
//! which tracks strong counts, borrow states, and context destruction.

pub mod context;
pub mod handle;
pub mod laws;
pub mod store;

pub use context::{Context, WeakContextRef};
pub use handle::{
    BorrowError, BorrowMutError, ContextPtr, LockError, ParContextPtr, ReadGuard, SerContextPtr,
    WriteGuard,
};
pub use store::{BorrowFlag, ContextStore, Slot};
