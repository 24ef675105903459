//! Parts of an actor-style runtime and of the compiler in front of it.
//!
//! The centre is the receive engine of a process ([`builtins::receive`]). A
//! process owns a [`mailbox`]. To receive, it starts a receive operation,
//! polls it until a message has arrived or the [`timeout`] has passed, reads
//! the message, and finishes the operation, which copies a message that
//! lives outside the process [`heap`] into it and commits the read. The
//! clock and the scheduler stay outside: every operation that needs the time
//! takes it as an argument, and a poll that finds nothing returns so that the
//! caller can yield. What holds of a process over any sequence of operations
//! is proved in [`trace`].
//!
//! Around it stand the [`term`]s that messages carry, a few built-in
//! functions on them ([`erlang`]), the errors of the parser with their
//! [`diagnostics`] ([`parser::errors`]), and the default thread pool
//! ([`threading`]).

pub mod builtins;
pub mod diagnostics;
pub mod erlang;
pub mod error;
pub mod heap;
pub mod mailbox;
pub mod message;
pub mod parser;
pub mod term;
pub mod threading;
pub mod timeout;
pub mod trace;
