use lumen::mailbox::Mailbox;
use lumen::message::{Message, MessageType};
use lumen::term::Term;

#[test]
fn new_mailbox_is_empty_and_unlocked() {
    let mailbox = Mailbox::new();
    assert!(mailbox.is_empty());
    assert_eq!(mailbox.len(), 0);
    assert_eq!(mailbox.cursor(), 0);
    assert!(!mailbox.is_locked());
    assert!(mailbox.get(0).is_none());
}

#[test]
fn append_puts_messages_at_the_tail() {
    let mut mailbox = Mailbox::new();
    mailbox.append(Message::process(Term::integer(1)));
    mailbox.append(Message::heap_fragment(Term::integer(2)));
    assert_eq!(mailbox.len(), 2);
    assert!(!mailbox.is_locked());
    assert_eq!(mailbox.get(0), Some(&Message::process(Term::integer(1))));
    assert_eq!(mailbox.get(1), Some(&Message::heap_fragment(Term::integer(2))));
    assert_eq!(mailbox.get(1).unwrap().message_type, MessageType::HeapFragment);
    assert_eq!(mailbox.cursor(), 0);
}

#[test]
fn peek_shows_the_message_at_the_cursor_and_keeps_it() {
    let mut mailbox = Mailbox::new();
    mailbox.append(Message::process(Term::integer(1)));
    mailbox.append(Message::process(Term::integer(2)));
    mailbox.lock();
    assert!(mailbox.is_locked());
    assert_eq!(mailbox.peek_next(), Some(&Message::process(Term::integer(1))));
    assert_eq!(mailbox.peek_next(), Some(&Message::process(Term::integer(1))));
    assert_eq!(mailbox.len(), 2);
    mailbox.advance_cursor();
    assert_eq!(mailbox.cursor(), 1);
    assert_eq!(mailbox.peek_next(), Some(&Message::process(Term::integer(2))));
    mailbox.advance_cursor();
    assert_eq!(mailbox.peek_next(), None);
    assert_eq!(mailbox.len(), 2);
    mailbox.unlock();
    assert!(!mailbox.is_locked());
}

#[test]
fn peek_on_empty_mailbox_is_none() {
    let mut mailbox = Mailbox::new();
    mailbox.lock();
    assert_eq!(mailbox.peek_next(), None);
    mailbox.unlock();
}

#[test]
fn commit_removes_the_message_last_passed() {
    let mut mailbox = Mailbox::new();
    mailbox.append(Message::process(Term::integer(1)));
    mailbox.append(Message::process(Term::integer(2)));
    mailbox.append(Message::process(Term::integer(3)));
    mailbox.lock();
    mailbox.advance_cursor();
    mailbox.advance_cursor();
    mailbox.commit_read();
    assert_eq!(mailbox.len(), 2);
    assert_eq!(mailbox.cursor(), 1);
    assert_eq!(mailbox.get(0), Some(&Message::process(Term::integer(1))));
    assert_eq!(mailbox.get(1), Some(&Message::process(Term::integer(3))));
    assert_eq!(mailbox.peek_next(), Some(&Message::process(Term::integer(3))));
    mailbox.unlock();
}

#[test]
fn commit_with_cursor_at_front_removes_nothing() {
    let mut mailbox = Mailbox::new();
    mailbox.append(Message::process(Term::integer(1)));
    mailbox.lock();
    mailbox.commit_read();
    assert_eq!(mailbox.len(), 1);
    assert_eq!(mailbox.cursor(), 0);
    mailbox.unlock();
}

#[test]
fn recv_start_puts_the_cursor_at_the_front() {
    let mut mailbox = Mailbox::new();
    mailbox.append(Message::process(Term::integer(1)));
    mailbox.lock();
    mailbox.advance_cursor();
    mailbox.recv_start();
    assert_eq!(mailbox.cursor(), 0);
    assert_eq!(mailbox.len(), 1);
    mailbox.unlock();
}
