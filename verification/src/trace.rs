//! What holds of a process over any sequence of operations.
//!
//! An [`Event`] is one operation on a process, [`run`] the process after a
//! sequence of them. The laws below are stated over the same functions of
//! [`ProcessView`] that the contracts of the operations use.

use vstd::prelude::*;
use crate::builtins::receive::{ProcessView, ReceiveContextView, ReceiveState, Status};
use crate::heap::lemma_with_term_wf;
use crate::message::{MessageType, MessageView};
use crate::term::TermView;
use crate::timeout::{ReceiveTimeout, Timeout};

verus! {

/// One operation on a process.
pub enum Event {
    /// A message is sent to the process.
    Send(MessageView),
    /// A receive is started with a timeout term, at a clock reading.
    Start(TermView, u64),
    /// One pass of the receive loop, for a handle, at a clock reading.
    Wait(u64, u64),
    /// A receive is finished, for a handle.
    Done(u64),
    /// The heap limit is raised.
    RaiseHeapLimit(nat),
}

/// The process after one operation.
pub open spec fn step(process: ProcessView, event: Event) -> ProcessView {
    match event {
        Event::Send(message) => process.send(message),
        Event::Start(timeout, now) => process.start_with(timeout, now),
        Event::Wait(handle, now) => process.wait(handle, now),
        Event::Done(handle) => process.done(handle),
        Event::RaiseHeapLimit(limit) => ProcessView {
            heap: process.heap.with_limit(limit),
            ..process
        },
    }
}

/// The process after a sequence of operations.
pub open spec fn run(process: ProcessView, events: Seq<Event>) -> ProcessView
    decreases events.len(),
{
    if events.len() == 0 {
        process
    } else {
        step(run(process, events.drop_last()), events.last())
    }
}

/// The messages that a sequence of operations sends, in order.
pub open spec fn sent(events: Seq<Event>) -> Seq<MessageView>
    decreases events.len(),
{
    if events.len() == 0 {
        Seq::empty()
    } else {
        match events.last() {
            Event::Send(message) => sent(events.drop_last()).push(message),
            _ => sent(events.drop_last()),
        }
    }
}

/// The message that an operation delivers for good: the one that a receive
/// has found, when that receive is finished with success.
pub open spec fn delivered_by(process: ProcessView, event: Event) -> Seq<MessageView> {
    match event {
        Event::Done(handle) => if process.done_result(handle) && process.received(handle)
            is Some {
            seq![process.received(handle)->0]
        } else {
            Seq::empty()
        },
        _ => Seq::empty(),
    }
}

/// The messages that a sequence of operations delivers, in order.
pub open spec fn delivered(process: ProcessView, events: Seq<Event>) -> Seq<MessageView>
    decreases events.len(),
{
    if events.len() == 0 {
        Seq::empty()
    } else {
        delivered(process, events.drop_last()) + delivered_by(
            run(process, events.drop_last()),
            events.last(),
        )
    }
}

/// Whether some pass of the receive loop in `events`, for `handle`, ran when
/// the clock had reached `deadline`.
pub open spec fn waited_until(events: Seq<Event>, handle: u64, deadline: int) -> bool {
    exists|i: int| 0 <= i < events.len() && is_wait_from(#[trigger] events[i], handle, deadline)
}

/// Whether `event` is a pass of the receive loop for `handle` when the clock
/// had reached `deadline`.
pub open spec fn is_wait_from(event: Event, handle: u64, deadline: int) -> bool {
    match event {
        Event::Wait(h, now) => h == handle && now >= deadline,
        _ => false,
    }
}

/// Whether `events` holds neither a send nor a start.
pub open spec fn quiet(events: Seq<Event>) -> bool {
    forall|i: int|
        0 <= i < events.len() ==> !((#[trigger] events[i]) is Send) && !(events[i] is Start)
}

/// Every operation keeps a process in order.
pub proof fn law_step_keeps_order(process: ProcessView, event: Event)
    requires
        process.wf(),
    ensures
        step(process, event).wf(),
{
    match event {
        Event::Done(handle) => {
            if process.owns(handle) && !process.move_fails(handle) {
                let context = process.receive->0;
                if context.state == ReceiveState::Received && context.message_needs_move {
                    lemma_with_term_wf(process.heap, process.received(handle)->0.data);
                }
            }
        },
        _ => {},
    }
}

/// Every sequence of operations keeps a process in order.
pub proof fn law_run_keeps_order(process: ProcessView, events: Seq<Event>)
    requires
        process.wf(),
    ensures
        run(process, events).wf(),
    decreases events.len(),
{
    if events.len() > 0 {
        law_run_keeps_order(process, events.drop_last());
        law_step_keeps_order(run(process, events.drop_last()), events.last());
    }
}

/// No message is lost, none is delivered twice, and delivery keeps the order
/// of arrival: after any sequence of operations, the messages delivered so
/// far, followed by those still in the mailbox, are the messages that the
/// mailbox held at first followed by those sent since.
pub proof fn law_no_message_lost(process: ProcessView, events: Seq<Event>)
    requires
        process.wf(),
    ensures
        delivered(process, events) + run(process, events).mailbox.messages
            == process.mailbox.messages + sent(events),
    decreases events.len(),
{
    if events.len() == 0 {
        assert(delivered(process, events) + process.mailbox.messages
            =~= process.mailbox.messages + sent(events));
    } else {
        let before = events.drop_last();
        let middle = run(process, before);
        law_no_message_lost(process, before);
        law_run_keeps_order(process, before);
        let pending = middle.mailbox.messages;
        let after = run(process, events).mailbox.messages;
        let step_delivered = delivered_by(middle, events.last());
        match events.last() {
            Event::Send(message) => {
                assert(after =~= pending.push(message));
                assert(delivered(process, events) + after =~= (delivered(process, before)
                    + pending).push(message));
                assert(process.mailbox.messages + sent(events) =~= (process.mailbox.messages
                    + sent(before)).push(message));
            },
            Event::Done(handle) => {
                if middle.done_result(handle) && middle.received(handle) is Some {
                    assert(middle.mailbox.cursor == 1);
                    assert(after =~= pending.remove(0));
                    assert(step_delivered + after =~= pending);
                    assert(delivered(process, events) + after =~= delivered(process, before) + (
                    step_delivered + after));
                } else {
                    assert(after =~= pending);
                    assert(delivered(process, events) + after =~= delivered(process, before)
                        + pending);
                }
            },
            _ => {
                assert(after =~= pending);
                assert(delivered(process, events) + after =~= delivered(process, before)
                    + pending);
            },
        }
    }
}

/// A receive always shows the oldest message that has not been delivered:
/// what a pass of the receive loop finds is the first message in the mailbox.
pub proof fn law_oldest_first(process: ProcessView, handle: u64, now: u64)
    requires
        process.wf(),
        process.wait_result(handle, now) == ReceiveState::Received,
    ensures
        process.mailbox.messages.len() > 0,
        process.wait(handle, now).received(handle) == Some(process.mailbox.messages[0]),
{
}

/// A receive in flight only moves on. Whatever operation runs, if a receive
/// is in flight afterwards it is the same one, with the timeout that it
/// started with; once it has left `Ready` nothing about it changes until it
/// is released; and no operation puts it into the state `Error`.
pub proof fn law_receive_only_moves_on(process: ProcessView, event: Event)
    requires
        process.wf(),
        process.receive is Some,
    ensures
        step(process, event).receive matches Some(after) ==> {
            let before = process.receive->0;
            &&& step(process, event).handle == process.handle
            &&& after.timeout == before.timeout
            &&& before.state != ReceiveState::Ready ==> after == before
            &&& after.state == ReceiveState::Error ==> before.state == ReceiveState::Error
        },
{
}

/// Within a receive the cursor never moves back: a pass of the receive loop
/// leaves it where it is or moves it on, and removes no message.
pub proof fn law_cursor_never_back(process: ProcessView, handle: u64, now: u64)
    requires
        process.wf(),
    ensures
        process.wait(handle, now).mailbox.cursor >= process.mailbox.cursor,
        process.wait(handle, now).mailbox.messages == process.mailbox.messages,
{
}

/// A pass of the receive loop that leaves the receive `Ready` keeps nothing
/// of its scan: it marks the process as waiting and changes nothing else, so
/// the next pass starts afresh.
pub proof fn law_ready_pass_only_marks_waiting(process: ProcessView, handle: u64, now: u64)
    requires
        process.wf(),
        process.wait_result(handle, now) == ReceiveState::Ready,
    ensures
        process.wait(handle, now) == (ProcessView { status: Status::Waiting, ..process }),
{
}

/// A receive with a bounded timeout ends with the first pass at or after its
/// deadline: with a message if the mailbox holds one, timed out if not.
pub proof fn law_bounded_receive_ends_at_deadline(
    process: ProcessView,
    handle: u64,
    end: u64,
    now: u64,
)
    requires
        process.wf(),
        process.owns(handle),
        process.receive->0 == ReceiveContextView::ready(ReceiveTimeout::Absolute(end)),
        now >= end,
    ensures
        process.wait_result(handle, now) == if process.mailbox.messages.len() > 0 {
            ReceiveState::Received
        } else {
            ReceiveState::Timeout
        },
{
}

/// A receive with a bounded timeout does not time out early. Let a receive
/// with a timeout of `duration` milliseconds start at `start` on a process
/// with an empty mailbox, the deadline lying within the clock's range, and
/// let operations follow that send nothing and start nothing. If the receive
/// is then timed out, one of its passes ran when the clock read at least
/// `start + duration`.
pub proof fn law_timeout_not_early(
    process: ProcessView,
    duration: u64,
    start: u64,
    events: Seq<Event>,
)
    requires
        process.wf(),
        process.can_start(),
        process.mailbox.messages.len() == 0,
        start + duration <= u64::MAX,
        quiet(events),
    ensures
        ({
            let started = process.start(Timeout::Duration(duration), start);
            let end = run(started, events);
            &&& end.mailbox.messages.len() == 0
            &&& end.receive matches Some(context) ==> {
                &&& end.handle == started.handle
                &&& context.timeout == ReceiveTimeout::Absolute((start + duration) as u64)
                &&& context.state != ReceiveState::Received
                &&& context.state == ReceiveState::Timeout ==> waited_until(
                    events,
                    started.handle,
                    start + duration,
                )
            }
        }),
    decreases events.len(),
{
    let started = process.start(Timeout::Duration(duration), start);
    if events.len() > 0 {
        let before = events.drop_last();
        assert forall|i: int| 0 <= i < before.len() implies !((#[trigger] before[i]) is Send) && !(
        before[i] is Start) by {
            assert(before[i] == events[i]);
        }
        law_timeout_not_early(process, duration, start, before);
        assert(started.wf());
        law_run_keeps_order(started, before);
        let middle = run(started, before);
        let end = run(started, events);
        let last = events.last();
        assert(last == events[events.len() - 1]);
        if end.receive is Some && end.receive->0.state == ReceiveState::Timeout {
            if middle.receive is Some && middle.receive->0.state == ReceiveState::Timeout {
                let i = choose|i: int|
                    0 <= i < before.len() && is_wait_from(
                        #[trigger] before[i],
                        started.handle,
                        start + duration,
                    );
                assert(events[i] == before[i]);
            } else {
                assert(is_wait_from(last, started.handle, start + duration));
            }
        }
    }
}

/// A receive with an infinite timeout never times out: whatever operations
/// run, a receive in flight whose timeout is infinite is not in the state
/// `Timeout`, provided that this held at first.
pub proof fn law_infinite_never_times_out(process: ProcessView, events: Seq<Event>)
    requires
        process.wf(),
        process.receive matches Some(context) ==> context.timeout == ReceiveTimeout::Infinity
            ==> context.state != ReceiveState::Timeout,
    ensures
        run(process, events).receive matches Some(context) ==> context.timeout
            == ReceiveTimeout::Infinity ==> context.state != ReceiveState::Timeout,
    decreases events.len(),
{
    if events.len() > 0 {
        law_infinite_never_times_out(process, events.drop_last());
    }
}

/// A receive with an infinite timeout completes only with a message: a pass
/// of its loop gives `Received` where the mailbox holds a message and leaves
/// it `Ready` where the mailbox is empty, whatever the clock reads.
pub proof fn law_infinite_waits_for_message(process: ProcessView, handle: u64, now: u64)
    requires
        process.wf(),
        process.owns(handle),
        process.receive->0 == ReceiveContextView::ready(ReceiveTimeout::Infinity),
    ensures
        process.wait_result(handle, now) == if process.mailbox.messages.len() > 0 {
            ReceiveState::Received
        } else {
            ReceiveState::Ready
        },
{
}

/// Finishing a receive twice: the second call fails and changes nothing, so
/// no message leaves the mailbox twice.
pub proof fn law_done_twice(process: ProcessView, handle: u64)
    requires
        process.wf(),
    ensures
        !process.done(handle).done_result(handle),
        process.done(handle).done(handle) == process.done(handle),
{
}

/// A message that lives in a fragment is in the process heap, unchanged,
/// once its receive is finished with success: the last term of the heap is
/// the term that the receive showed, and the message has left the mailbox,
/// so that its fragment is free.
pub proof fn law_relocation_keeps_content(process: ProcessView, handle: u64)
    requires
        process.wf(),
        process.done_result(handle),
        process.received(handle) matches Some(message) && message.message_type
            == MessageType::HeapFragment,
    ensures
        process.done(handle).heap.terms == process.heap.terms.push(process.message(handle)->0),
        process.done(handle).mailbox.messages == process.mailbox.messages.remove(0),
{
}

/// What is in the process heap stays there, unchanged, whatever operations
/// run: the terms of the heap at first are the first terms of the heap
/// afterwards.
pub proof fn law_heap_terms_stay(process: ProcessView, events: Seq<Event>)
    requires
        process.wf(),
    ensures
        process.heap.terms.is_prefix_of(run(process, events).heap.terms),
    decreases events.len(),
{
    if events.len() > 0 {
        law_heap_terms_stay(process, events.drop_last());
        law_run_keeps_order(process, events.drop_last());
        let middle = run(process, events.drop_last());
        let end = run(process, events);
        assert(middle.heap.terms.is_prefix_of(end.heap.terms));
    }
}

} // verus!
