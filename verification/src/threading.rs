//! Running a piece of work on the default pool.
//!
//! The default pool has one worker. Work that is handed to it runs to its
//! end before the call returns, so the caller's thread serves as the worker;
//! a caller that wants the work on a thread of its own calls from there.

use vstd::prelude::*;

verus! {

/// Runs `f` on the default pool and returns what `f` returned.
pub fn with_default_thread_pool<F, R>(f: F) -> (result: R) where
    F: FnOnce() -> R + Send,
    R: Send,

    requires
        f.requires(()),
    ensures
        f.ensures((), result),
{
    // The default pool has one worker, whatever number is asked for.
    spawn_thread_pool(1, f)
}

/// Runs `f` on a pool and returns what `f` returned. The pool has one
/// worker whatever `_threads` says.
pub fn spawn_thread_pool<F, R>(_threads: usize, f: F) -> (result: R) where
    F: FnOnce() -> R + Send,
    R: Send,

    requires
        f.requires(()),
    ensures
        f.ensures((), result),
{
    f()
}

} // verus!
