//! The queue of messages that a process has yet to receive.
//!
//! Messages arrive at the tail. A cursor, apart from the tail, marks the next
//! message that the owner has not read. Reading, advancing and removing
//! happen under the mailbox's lock.

use vstd::prelude::*;
use crate::message::{message_views, Message, MessageView};

verus! {

/// Mathematical value of a mailbox.
pub struct MailboxView {
    /// The messages, oldest first.
    pub messages: Seq<MessageView>,
    /// Position of the next unread message.
    pub cursor: nat,
    /// Whether the lock is held.
    pub locked: bool,
}

impl MailboxView {
    /// The cursor lies within the messages or just behind them.
    pub open spec fn wf(self) -> bool {
        self.cursor <= self.messages.len()
    }

    /// The mailbox with `message` at its tail.
    pub open spec fn append(self, message: MessageView) -> MailboxView {
        MailboxView { messages: self.messages.push(message), ..self }
    }

    /// The mailbox with the cursor one message further.
    pub open spec fn advance(self) -> MailboxView {
        MailboxView { cursor: self.cursor + 1, ..self }
    }

    /// The mailbox without the message that the cursor last passed, the
    /// cursor resting where that message was. With the cursor at the front
    /// there is no such message and nothing changes.
    pub open spec fn commit(self) -> MailboxView {
        if self.cursor == 0 {
            self
        } else {
            MailboxView {
                messages: self.messages.remove(self.cursor - 1),
                cursor: (self.cursor - 1) as nat,
                ..self
            }
        }
    }
}

/// A mailbox.
pub struct Mailbox {
    messages: Vec<Message>,
    cursor: usize,
    locked: bool,
}

impl View for Mailbox {
    type V = MailboxView;

    closed spec fn view(&self) -> MailboxView {
        MailboxView {
            messages: message_views(self.messages@),
            cursor: self.cursor as nat,
            locked: self.locked,
        }
    }
}

impl Mailbox {
    /// Whether the mailbox is in order.
    pub open spec fn wf(&self) -> bool {
        self@.wf()
    }

    /// An empty mailbox, unlocked.
    pub fn new() -> (mailbox: Mailbox)
        ensures
            mailbox.wf(),
            mailbox@.messages == Seq::<MessageView>::empty(),
            mailbox@.cursor == 0,
            !mailbox@.locked,
    {
        let mailbox = Mailbox { messages: Vec::new(), cursor: 0, locked: false };
        assert(mailbox@.messages =~= Seq::<MessageView>::empty());
        mailbox
    }

    /// Takes the lock.
    pub fn lock(&mut self)
        requires
            !old(self)@.locked,
        ensures
            final(self)@ == (MailboxView { locked: true, ..old(self)@ }),
    {
        self.locked = true;
    }

    /// Gives the lock back.
    pub fn unlock(&mut self)
        requires
            old(self)@.locked,
        ensures
            final(self)@ == (MailboxView { locked: false, ..old(self)@ }),
    {
        self.locked = false;
    }

    /// Whether the lock is held.
    pub fn is_locked(&self) -> (locked: bool)
        ensures
            locked == self@.locked,
    {
        self.locked
    }

    /// The number of messages.
    pub fn len(&self) -> (len: usize)
        ensures
            len == self@.messages.len(),
    {
        self.messages.len()
    }

    /// Whether the mailbox holds no message.
    pub fn is_empty(&self) -> (empty: bool)
        ensures
            empty == (self@.messages.len() == 0),
    {
        self.messages.len() == 0
    }

    /// Position of the next unread message.
    pub fn cursor(&self) -> (cursor: usize)
        ensures
            cursor == self@.cursor,
    {
        self.cursor
    }

    /// The message at `index`, if there is one.
    pub fn get(&self, index: usize) -> (message: Option<&Message>)
        ensures
            match message {
                Some(m) => index < self@.messages.len() && m@ == self@.messages[index as int],
                None => index >= self@.messages.len(),
            },
    {
        if index < self.messages.len() {
            Some(&self.messages[index])
        } else {
            None
        }
    }

    /// Puts `message` at the tail, under the lock, which is free again
    /// afterwards.
    pub fn append(&mut self, message: Message)
        requires
            !old(self)@.locked,
        ensures
            final(self)@ == old(self)@.append(message@),
    {
        self.locked = true;
        self.messages.push(message);
        self.locked = false;
        assert(self@.messages =~= old(self)@.messages.push(message@));
    }

    /// Begins a scan: the cursor goes to the oldest message.
    pub fn recv_start(&mut self)
        requires
            old(self)@.locked,
        ensures
            final(self)@ == (MailboxView { cursor: 0, ..old(self)@ }),
    {
        self.cursor = 0;
    }

    /// The message at the cursor, which stays in the mailbox, or `None`
    /// where the cursor has passed every message.
    pub fn peek_next(&self) -> (next: Option<&Message>)
        requires
            self@.locked,
        ensures
            match next {
                Some(m) => self@.cursor < self@.messages.len() && m@
                    == self@.messages[self@.cursor as int],
                None => self@.cursor >= self@.messages.len(),
            },
    {
        if self.cursor < self.messages.len() {
            Some(&self.messages[self.cursor])
        } else {
            None
        }
    }

    /// Moves the cursor past the message that was just peeked.
    pub fn advance_cursor(&mut self)
        requires
            old(self)@.locked,
            old(self)@.cursor < old(self)@.messages.len(),
        ensures
            final(self)@ == old(self)@.advance(),
    {
        let len = self.messages.len();
        assert(self.cursor < len);
        self.cursor = self.cursor + 1;
    }

    /// Removes the message that the cursor last passed.
    pub fn commit_read(&mut self)
        requires
            old(self).wf(),
            old(self)@.locked,
        ensures
            final(self)@ == old(self)@.commit(),
    {
        if self.cursor > 0 {
            self.cursor = self.cursor - 1;
            self.messages.remove(self.cursor);
            assert(self@.messages =~= old(self)@.messages.remove(old(self)@.cursor - 1));
        }
    }
}

} // verus!
