//! Receiving a message: start, wait, read, finish.
//!
//! A receive operation is started on a process, which fixes its timeout and
//! hands out a handle. Each call of [`builtin_receive_wait`] is one pass of
//! the receive loop: it looks at the mailbox under its lock, then at the
//! timeout, and returns with the lock free. Where it returns
//! [`ReceiveState::Ready`] the process is marked as waiting and the caller
//! yields to the scheduler before it calls again. [`builtin_receive_message`]
//! shows the message that was found, and [`builtin_receive_done`] copies it
//! into the process heap where it lives in a fragment, removes it from the
//! mailbox and releases the operation.
//!
//! What each operation does is defined on [`ProcessView`], the mathematical
//! value of a process; the executable functions are proved to follow it.

use vstd::prelude::*;
use crate::error::ReceiveError;
use crate::heap::{Heap, HeapView};
use crate::mailbox::{Mailbox, MailboxView};
use crate::message::{Message, MessageType, MessageView};
use crate::term::{Term, TermView};
use crate::timeout::{timeout_of_term, ReceiveTimeout, Timeout};

verus! {

/// Where a receive operation stands.
#[derive(Clone, Copy, Debug, PartialEq, Eq, Structural)]
pub enum ReceiveState {
    /// An unrecoverable error occurred.
    Error,
    /// Started; no message found yet and the timeout has not passed.
    Ready,
    /// A message was received.
    Received,
    /// The receive timed out.
    Timeout,
}

/// Mathematical value of a receive context.
pub struct ReceiveContextView {
    /// The timeout, fixed at the start.
    pub timeout: ReceiveTimeout,
    /// Position in the mailbox of the message that was received.
    pub message: Option<nat>,
    /// Whether that message lives in a fragment and has to be copied into
    /// the process heap.
    pub message_needs_move: bool,
    /// The state.
    pub state: ReceiveState,
}

impl ReceiveContextView {
    /// A message is recorded exactly in the state `Received`, and only a
    /// recorded message can need a move.
    pub open spec fn wf(self) -> bool {
        &&& self.message is Some <==> self.state == ReceiveState::Received
        &&& self.message_needs_move ==> self.state == ReceiveState::Received
    }

    /// The context of a receive that has just started.
    pub open spec fn ready(timeout: ReceiveTimeout) -> ReceiveContextView {
        ReceiveContextView {
            timeout,
            message: None,
            message_needs_move: false,
            state: ReceiveState::Ready,
        }
    }

    /// The context of a receive that could not start.
    pub open spec fn failed() -> ReceiveContextView {
        ReceiveContextView {
            timeout: ReceiveTimeout::Infinity,
            message: None,
            message_needs_move: false,
            state: ReceiveState::Error,
        }
    }

    /// The context after the message at `position` was found.
    pub open spec fn with_message(
        self,
        position: nat,
        message_type: MessageType,
    ) -> ReceiveContextView {
        ReceiveContextView {
            timeout: self.timeout,
            message: Some(position),
            message_needs_move: message_type == MessageType::HeapFragment,
            state: ReceiveState::Received,
        }
    }

    /// The context after the timeout has passed.
    pub open spec fn with_timeout(self) -> ReceiveContextView {
        ReceiveContextView {
            timeout: self.timeout,
            message: None,
            message_needs_move: false,
            state: ReceiveState::Timeout,
        }
    }
}

/// The context of one receive operation: created when the receive starts,
/// changed while it waits, and read when it finishes to tell what cleanup is
/// due.
#[derive(Clone, Copy, Debug)]
pub struct ReceiveContext {
    timeout: ReceiveTimeout,
    message: Option<usize>,
    message_needs_move: bool,
    state: ReceiveState,
}

impl View for ReceiveContext {
    type V = ReceiveContextView;

    closed spec fn view(&self) -> ReceiveContextView {
        ReceiveContextView {
            timeout: self.timeout,
            message: match self.message {
                Some(position) => Some(position as nat),
                None => None,
            },
            message_needs_move: self.message_needs_move,
            state: self.state,
        }
    }
}

impl ReceiveContext {
    /// The context of a receive that starts when the clock reads `now`.
    pub fn new(now: u64, timeout: Timeout) -> (context: ReceiveContext)
        ensures
            context@ == ReceiveContextView::ready(ReceiveTimeout::starting(now, timeout)),
    {
        let timeout = ReceiveTimeout::new(now, timeout);
        ReceiveContext {
            state: ReceiveState::Ready,
            message_needs_move: false,
            message: None,
            timeout,
        }
    }

    /// The context of a receive that could not start.
    pub fn failed() -> (context: ReceiveContext)
        ensures
            context@ == ReceiveContextView::failed(),
    {
        ReceiveContext {
            state: ReceiveState::Error,
            message_needs_move: false,
            message: None,
            timeout: ReceiveTimeout::Infinity,
        }
    }

    /// Records the message found at `position`. Only a context that is
    /// `Ready` moves on.
    pub fn with_message(&mut self, position: usize, message_type: MessageType)
        requires
            old(self)@.state == ReceiveState::Ready,
        ensures
            final(self)@ == old(self)@.with_message(position as nat, message_type),
    {
        self.state = ReceiveState::Received;
        self.message = Some(position);
        self.message_needs_move = match message_type {
            MessageType::HeapFragment => true,
            MessageType::Process => false,
        };
    }

    /// Records that the timeout has passed. Only a context that is `Ready`
    /// moves on.
    pub fn with_timeout(&mut self)
        requires
            old(self)@.state == ReceiveState::Ready,
        ensures
            final(self)@ == old(self)@.with_timeout(),
    {
        self.state = ReceiveState::Timeout;
        self.message = None;
        self.message_needs_move = false;
    }

    /// Whether the timeout has passed when the clock reads `now`.
    pub fn should_time_out(&self, now: u64) -> (expired: bool)
        ensures
            expired == self@.timeout.expired_at(now),
    {
        self.timeout.is_timed_out(now)
    }

    /// The state.
    pub fn state(&self) -> (state: ReceiveState)
        ensures
            state == self@.state,
    {
        self.state
    }

    /// The timeout.
    pub fn timeout(&self) -> (timeout: ReceiveTimeout)
        ensures
            timeout == self@.timeout,
    {
        self.timeout
    }

    /// Position in the mailbox of the message that was received.
    pub fn message(&self) -> (position: Option<usize>)
        ensures
            match position {
                Some(p) => self@.message == Some(p as nat),
                None => self@.message is None,
            },
    {
        self.message
    }

    /// Whether the message has to be copied into the process heap.
    pub fn message_needs_move(&self) -> (needed: bool)
        ensures
            needed == self@.message_needs_move,
    {
        self.message_needs_move
    }
}

/// Whether a process may run or waits for a message.
#[derive(Clone, Copy, Debug, PartialEq, Eq, Structural)]
pub enum Status {
    Runnable,
    Waiting,
}

/// Names one receive operation of a process.
#[derive(Clone, Copy, Debug, PartialEq, Eq)]
pub struct ContextHandle {
    id: u64,
}

impl View for ContextHandle {
    type V = u64;

    closed spec fn view(&self) -> u64 {
        self.id
    }
}

/// Mathematical value of a process.
pub struct ProcessView {
    pub mailbox: MailboxView,
    pub heap: HeapView,
    pub status: Status,
    /// The receive operation in flight, if any.
    pub receive: Option<ReceiveContextView>,
    /// The handle of the receive that was started last.
    pub handle: u64,
}

impl ProcessView {
    /// Mailbox and heap are in order and the lock is free. With no receive
    /// in flight, or one that has found no message, the cursor is at the
    /// oldest message. A receive that has found a message refers to the
    /// oldest one, the cursor lies just behind it, and the message needs a
    /// move exactly if it lives in a fragment.
    pub open spec fn wf(self) -> bool {
        &&& self.mailbox.wf()
        &&& !self.mailbox.locked
        &&& self.heap.wf()
        &&& match self.receive {
            None => self.mailbox.cursor == 0,
            Some(context) => {
                &&& context.wf()
                &&& if context.state == ReceiveState::Received {
                    &&& self.mailbox.cursor == 1
                    &&& context.message == Some(0nat)
                    &&& context.message_needs_move == (self.mailbox.messages[0].message_type
                        == MessageType::HeapFragment)
                } else {
                    self.mailbox.cursor == 0
                }
            },
        }
    }

    /// Whether `handle` names the receive in flight.
    pub open spec fn owns(self, handle: u64) -> bool {
        self.receive is Some && self.handle == handle
    }

    /// The process after `message` was sent to it: the message is at the
    /// tail of the mailbox and the process may run.
    pub open spec fn send(self, message: MessageView) -> ProcessView {
        ProcessView {
            mailbox: self.mailbox.append(message),
            status: Status::Runnable,
            ..self
        }
    }

    /// Whether a receive can start: none is in flight and a handle is left.
    pub open spec fn can_start(self) -> bool {
        self.receive is None && self.handle < u64::MAX
    }

    /// The process after a receive with `timeout` has started at `now`.
    pub open spec fn start(self, timeout: Timeout, now: u64) -> ProcessView {
        ProcessView {
            mailbox: MailboxView { cursor: 0, ..self.mailbox },
            receive: Some(ReceiveContextView::ready(ReceiveTimeout::starting(now, timeout))),
            handle: (self.handle + 1) as u64,
            ..self
        }
    }

    /// What starting a receive with the term `timeout` returns: the error of
    /// a bad timeout, the error of a process that cannot start one, or the
    /// new handle.
    pub open spec fn start_result(self, timeout: TermView) -> Result<u64, ReceiveError> {
        match timeout_of_term(timeout) {
            Err(error) => Err(error),
            Ok(_) => if self.can_start() {
                Ok((self.handle + 1) as u64)
            } else {
                Err(ReceiveError::UnreachableState)
            },
        }
    }

    /// The process after that start.
    pub open spec fn start_with(self, timeout: TermView, now: u64) -> ProcessView {
        match timeout_of_term(timeout) {
            Err(_) => self,
            Ok(timeout) => if self.can_start() {
                self.start(timeout, now)
            } else {
                self
            },
        }
    }

    /// What one pass of the receive loop at `now` returns. A handle that
    /// names no receive in flight gives `Error`. A receive that is no longer
    /// `Ready` gives its state. Else a message at the cursor gives
    /// `Received`; without one, a timeout that has passed gives `Timeout`;
    /// and otherwise the receive stays `Ready`.
    pub open spec fn wait_result(self, handle: u64, now: u64) -> ReceiveState {
        if !self.owns(handle) {
            ReceiveState::Error
        } else {
            let context = self.receive->0;
            if context.state != ReceiveState::Ready {
                context.state
            } else if self.mailbox.cursor < self.mailbox.messages.len() {
                ReceiveState::Received
            } else if context.timeout.expired_at(now) {
                ReceiveState::Timeout
            } else {
                ReceiveState::Ready
            }
        }
    }

    /// The process after that pass. A found message is recorded and the
    /// cursor moves past it; a timeout that has passed is recorded; in both
    /// cases the process may run. A receive that stays `Ready` leaves the
    /// process waiting. Nothing else changes.
    pub open spec fn wait(self, handle: u64, now: u64) -> ProcessView {
        if !self.owns(handle) || self.receive->0.state != ReceiveState::Ready {
            self
        } else {
            let context = self.receive->0;
            let cursor = self.mailbox.cursor;
            if cursor < self.mailbox.messages.len() {
                ProcessView {
                    mailbox: self.mailbox.advance(),
                    receive: Some(
                        context.with_message(
                            cursor,
                            self.mailbox.messages[cursor as int].message_type,
                        ),
                    ),
                    status: Status::Runnable,
                    ..self
                }
            } else if context.timeout.expired_at(now) {
                ProcessView {
                    receive: Some(context.with_timeout()),
                    status: Status::Runnable,
                    ..self
                }
            } else {
                ProcessView { status: Status::Waiting, ..self }
            }
        }
    }

    /// The message that the receive named by `handle` has found.
    pub open spec fn received(self, handle: u64) -> Option<MessageView> {
        if self.owns(handle) && self.receive->0.message is Some {
            Some(self.mailbox.messages[self.receive->0.message->0 as int])
        } else {
            None
        }
    }

    /// The term of that message.
    pub open spec fn message(self, handle: u64) -> Option<TermView> {
        match self.received(handle) {
            Some(message) => Some(message.data),
            None => None,
        }
    }

    /// Whether the receive named by `handle` has a message that must be
    /// copied into the heap and the heap cannot take it.
    pub open spec fn move_fails(self, handle: u64) -> bool {
        &&& self.owns(handle)
        &&& self.receive->0.state == ReceiveState::Received
        &&& self.receive->0.message_needs_move
        &&& !self.heap.can_hold(self.received(handle)->0.data)
    }

    /// Whether finishing the receive named by `handle` succeeds: it has
    /// timed out, or it has received a message that needs no move or that
    /// the heap can take.
    pub open spec fn done_result(self, handle: u64) -> bool {
        &&& self.owns(handle)
        &&& (self.receive->0.state == ReceiveState::Timeout || self.receive->0.state
            == ReceiveState::Received)
        &&& !self.move_fails(handle)
    }

    /// The process after the receive named by `handle` was finished. A
    /// handle that names no receive in flight changes nothing, and neither
    /// does a move that fails: the message stays and the receive can be
    /// finished later. Else the receive is released and the process may run.
    /// A received message is first copied into the heap where it needs the
    /// move, then removed from the mailbox.
    pub open spec fn done(self, handle: u64) -> ProcessView {
        if !self.owns(handle) || self.move_fails(handle) {
            self
        } else {
            let context = self.receive->0;
            match context.state {
                ReceiveState::Received => ProcessView {
                    heap: if context.message_needs_move {
                        self.heap.with_term(self.received(handle)->0.data)
                    } else {
                        self.heap
                    },
                    mailbox: self.mailbox.commit(),
                    receive: None,
                    status: Status::Runnable,
                    ..self
                },
                ReceiveState::Timeout => ProcessView {
                    mailbox: self.mailbox.commit(),
                    receive: None,
                    status: Status::Runnable,
                    ..self
                },
                _ => ProcessView { receive: None, status: Status::Runnable, ..self },
            }
        }
    }
}

/// A process, as far as receiving touches it: its mailbox, its heap, whether
/// it waits, and the receive operation in flight.
pub struct Process {
    mailbox: Mailbox,
    heap: Heap,
    status: Status,
    receive: Option<ReceiveContext>,
    handle: u64,
}

impl View for Process {
    type V = ProcessView;

    closed spec fn view(&self) -> ProcessView {
        ProcessView {
            mailbox: self.mailbox@,
            heap: self.heap@,
            status: self.status,
            receive: match self.receive {
                Some(context) => Some(context@),
                None => None,
            },
            handle: self.handle,
        }
    }
}

impl Process {
    /// Whether the process is in order.
    pub open spec fn wf(&self) -> bool {
        self@.wf()
    }

    /// A process with an empty mailbox and an empty heap that may grow to
    /// `heap_limit` words.
    pub fn new(heap_limit: usize) -> (process: Process)
        ensures
            process.wf(),
            process@.mailbox == (MailboxView { messages: Seq::empty(), cursor: 0, locked: false }),
            process@.heap == (HeapView {
                terms: Seq::empty(),
                used: 0,
                capacity: 0,
                limit: heap_limit as nat,
            }),
            process@.status == Status::Runnable,
            process@.receive is None,
            process@.handle == 0,
    {
        Process {
            mailbox: Mailbox::new(),
            heap: Heap::new(heap_limit),
            status: Status::Runnable,
            receive: None,
            handle: 0,
        }
    }

    /// Puts `message` into the mailbox and wakes the process.
    pub fn send(&mut self, message: Message)
        requires
            old(self).wf(),
        ensures
            final(self).wf(),
            final(self)@ == old(self)@.send(message@),
    {
        self.mailbox.append(message);
        self.status = Status::Runnable;
    }

    /// Whether the process may run or waits for a message.
    pub fn status(&self) -> (status: Status)
        ensures
            status == self@.status,
    {
        self.status
    }

    /// The mailbox.
    pub fn mailbox(&self) -> (mailbox: &Mailbox)
        ensures
            mailbox@ == self@.mailbox,
    {
        &self.mailbox
    }

    /// The heap.
    pub fn heap(&self) -> (heap: &Heap)
        ensures
            heap@ == self@.heap,
    {
        &self.heap
    }

    /// The state of the receive named by `handle`, or `None` where it names
    /// no receive in flight.
    pub fn receive_state(&self, handle: ContextHandle) -> (state: Option<ReceiveState>)
        ensures
            state == if self@.owns(handle@) {
                Some(self@.receive->0.state)
            } else {
                None
            },
    {
        match self.receive {
            Some(context) => if handle.id == self.handle {
                Some(context.state())
            } else {
                None
            },
            None => None,
        }
    }

    /// Raises the limit of the heap to `limit` words; a lower one is ignored.
    pub fn raise_heap_limit(&mut self, limit: usize)
        requires
            old(self).wf(),
        ensures
            final(self).wf(),
            final(self)@ == (ProcessView {
                heap: old(self)@.heap.with_limit(limit as nat),
                ..old(self)@
            }),
    {
        self.heap.raise_limit(limit);
    }
}

/// Starts a receive when the clock reads `now`. The term `timeout` is the
/// atom `infinity` or a non-negative integer of milliseconds; any other term
/// is rejected with `BadTimeoutValue`, and a process that has a receive in
/// flight, or no handle left, with `UnreachableState`. On an error the
/// process is unchanged.
pub fn builtin_receive_start(process: &mut Process, timeout: &Term, now: u64) -> (started: Result<
    ContextHandle,
    ReceiveError,
>)
    requires
        old(process).wf(),
    ensures
        final(process).wf(),
        final(process)@ == old(process)@.start_with(timeout@, now),
        match started {
            Ok(handle) => old(process)@.start_result(timeout@) == Ok::<u64, ReceiveError>(handle@),
            Err(error) => old(process)@.start_result(timeout@) == Err::<u64, ReceiveError>(error),
        },
{
    let timeout = match Timeout::from_term(timeout) {
        Ok(timeout) => timeout,
        Err(error) => {
            return Err(error);
        },
    };
    if process.receive.is_some() || process.handle == u64::MAX {
        return Err(ReceiveError::UnreachableState);
    }
    let context = ReceiveContext::new(now, timeout);
    process.mailbox.lock();
    process.mailbox.recv_start();
    process.mailbox.unlock();
    process.handle = process.handle + 1;
    process.receive = Some(context);
    Ok(ContextHandle { id: process.handle })
}

/// One pass of the receive loop when the clock reads `now`. Under the
/// mailbox lock it takes the message at the cursor, if there is one, and
/// otherwise checks the timeout. It returns with the lock free. `Ready`
/// means that neither happened: the process is marked as waiting, and the
/// caller yields before the next pass.
pub fn builtin_receive_wait(process: &mut Process, handle: ContextHandle, now: u64) -> (state:
    ReceiveState)
    requires
        old(process).wf(),
    ensures
        final(process).wf(),
        state == old(process)@.wait_result(handle@, now),
        final(process)@ == old(process)@.wait(handle@, now),
{
    let mut context = match process.receive {
        Some(context) => context,
        None => {
            return ReceiveState::Error;
        },
    };
    if handle.id != process.handle {
        return ReceiveState::Error;
    }
    match context.state() {
        ReceiveState::Ready => {},
        finished => {
            return finished;
        },
    }
    process.mailbox.lock();
    let found = match process.mailbox.peek_next() {
        Some(message) => Some(message.message_type),
        None => None,
    };
    match found {
        Some(message_type) => {
            let position = process.mailbox.cursor();
            process.mailbox.advance_cursor();
            context.with_message(position, message_type);
            process.mailbox.unlock();
            process.receive = Some(context);
            process.status = Status::Runnable;
            ReceiveState::Received
        },
        None => {
            if context.should_time_out(now) {
                context.with_timeout();
                process.mailbox.unlock();
                process.receive = Some(context);
                process.status = Status::Runnable;
                ReceiveState::Timeout
            } else {
                process.mailbox.unlock();
                process.status = Status::Waiting;
                ReceiveState::Ready
            }
        },
    }
}

/// The term of the message that the receive named by `handle` has found, or
/// `None` where it has found none. Nothing changes.
pub fn builtin_receive_message(process: &Process, handle: ContextHandle) -> (term: Option<&Term>)
    requires
        process.wf(),
    ensures
        match term {
            Some(t) => process@.message(handle@) == Some(t@),
            None => process@.message(handle@) is None,
        },
{
    let context = match process.receive {
        Some(context) => context,
        None => {
            return None;
        },
    };
    if handle.id != process.handle {
        return None;
    }
    match context.message() {
        Some(position) => match process.mailbox.get(position) {
            Some(message) => Some(&message.data),
            None => None,
        },
        None => None,
    }
}

/// Finishes the receive named by `handle` and says whether that succeeded.
/// A receive that has found a message or timed out succeeds: a message that
/// lives in a fragment is first copied into the process heap, then the
/// message leaves the mailbox, and the receive is released. Where the heap
/// cannot take the message nothing changes and the result is `false`. A
/// receive in any other state is released, the mailbox untouched, with
/// `false`; a handle that names no receive in flight gives `false` and
/// changes nothing.
pub fn builtin_receive_done(process: &mut Process, handle: ContextHandle) -> (success: bool)
    requires
        old(process).wf(),
    ensures
        final(process).wf(),
        success == old(process)@.done_result(handle@),
        final(process)@ == old(process)@.done(handle@),
{
    let context = match process.receive {
        Some(context) => context,
        None => {
            return false;
        },
    };
    if handle.id != process.handle {
        return false;
    }
    match context.state() {
        ReceiveState::Received => {
            if context.message_needs_move() {
                let found = match context.message() {
                    Some(position) => process.mailbox.get(position),
                    None => None,
                };
                let moved = match found {
                    Some(message) => process.heap.relocate(&message.data),
                    None => Err(ReceiveError::UnreachableState),
                };
                if moved.is_err() {
                    return false;
                }
            }
            process.mailbox.lock();
            process.mailbox.commit_read();
            process.mailbox.unlock();
            process.receive = None;
            process.status = Status::Runnable;
            true
        },
        ReceiveState::Timeout => {
            process.mailbox.lock();
            process.mailbox.commit_read();
            process.mailbox.unlock();
            process.receive = None;
            process.status = Status::Runnable;
            true
        },
        _ => {
            process.receive = None;
            process.status = Status::Runnable;
            false
        },
    }
}

} // verus!
