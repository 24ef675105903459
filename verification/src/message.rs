//! Messages as they lie in a mailbox.

use vstd::prelude::*;
use crate::term::{Term, TermView};

verus! {

/// Where the data of a message lives.
#[derive(Clone, Copy, Debug, PartialEq, Eq, Structural)]
pub enum MessageType {
    /// In the heap of the receiving process.
    Process,
    /// In a fragment that the sender allocated, because the receiver's heap
    /// had no room. It is freed when the message leaves the mailbox.
    HeapFragment,
}

/// Mathematical value of a message.
pub struct MessageView {
    pub data: TermView,
    pub message_type: MessageType,
}

/// A message: a term and where it lives.
#[derive(Debug, PartialEq, Eq)]
pub struct Message {
    pub data: Term,
    pub message_type: MessageType,
}

impl View for Message {
    type V = MessageView;

    open spec fn view(&self) -> MessageView {
        MessageView { data: self.data@, message_type: self.message_type }
    }
}

impl Message {
    /// A message whose data lives in the receiver's heap.
    pub fn process(data: Term) -> (message: Message)
        ensures
            message@ == (MessageView { data: data@, message_type: MessageType::Process }),
    {
        Message { data, message_type: MessageType::Process }
    }

    /// A message whose data lives in a fragment of its own.
    pub fn heap_fragment(data: Term) -> (message: Message)
        ensures
            message@ == (MessageView { data: data@, message_type: MessageType::HeapFragment }),
    {
        Message { data, message_type: MessageType::HeapFragment }
    }
}

/// The values of a sequence of messages.
pub open spec fn message_views(messages: Seq<Message>) -> Seq<MessageView> {
    Seq::new(messages.len(), |i: int| messages[i]@)
}

} // verus!
