use lumen::builtins::receive::{ReceiveContext, ReceiveState};
use lumen::error::ReceiveError;
use lumen::message::MessageType;
use lumen::term::Term;
use lumen::timeout::{ReceiveTimeout, Timeout};

#[test]
fn from_millis_takes_zero_and_up() {
    assert_eq!(Timeout::from_millis(0), Ok(Timeout::Duration(0)));
    assert_eq!(Timeout::from_millis(1000), Ok(Timeout::Duration(1000)));
    assert_eq!(Timeout::from_millis(i64::MAX), Ok(Timeout::Duration(i64::MAX as u64)));
}

#[test]
fn from_millis_rejects_negative() {
    assert_eq!(Timeout::from_millis(-1), Err(ReceiveError::BadTimeoutValue));
    assert_eq!(Timeout::from_millis(i64::MIN), Err(ReceiveError::BadTimeoutValue));
}

#[test]
fn from_term_takes_infinity_and_integers() {
    assert_eq!(Timeout::from_term(&Term::atom("infinity")), Ok(Timeout::Infinity));
    assert_eq!(Timeout::from_term(&Term::integer(5)), Ok(Timeout::Duration(5)));
    assert_eq!(Timeout::from_term(&Term::integer(0)), Ok(Timeout::Duration(0)));
}

#[test]
fn from_term_rejects_every_other_shape() {
    let bad = Err(ReceiveError::BadTimeoutValue);
    assert_eq!(Timeout::from_term(&Term::integer(-5)), bad);
    assert_eq!(Timeout::from_term(&Term::atom("forever")), bad);
    assert_eq!(Timeout::from_term(&Term::atom("Infinity")), bad);
    assert_eq!(Timeout::from_term(&Term::Nil), bad);
    assert_eq!(Timeout::from_term(&Term::tuple(vec![Term::integer(1)])), bad);
    assert_eq!(Timeout::from_term(&Term::cons(Term::integer(1), Term::Nil)), bad);
    assert_eq!(Timeout::from_term(&Term::binary(b"infinity".to_vec())), bad);
}

#[test]
fn deadline_is_start_plus_duration() {
    assert_eq!(ReceiveTimeout::new(100, Timeout::Duration(1000)), ReceiveTimeout::Absolute(1100));
    assert_eq!(ReceiveTimeout::new(100, Timeout::Duration(0)), ReceiveTimeout::Absolute(100));
    assert_eq!(ReceiveTimeout::new(100, Timeout::Infinity), ReceiveTimeout::Infinity);
}

#[test]
fn deadline_saturates() {
    assert_eq!(
        ReceiveTimeout::new(u64::MAX - 5, Timeout::Duration(10)),
        ReceiveTimeout::Absolute(u64::MAX)
    );
    assert_eq!(
        ReceiveTimeout::new(1, Timeout::Duration(u64::MAX)),
        ReceiveTimeout::Absolute(u64::MAX)
    );
    assert_eq!(
        ReceiveTimeout::new(0, Timeout::Duration(u64::MAX)),
        ReceiveTimeout::Absolute(u64::MAX)
    );
}

#[test]
fn bounded_expires_at_its_deadline() {
    let timeout = ReceiveTimeout::Absolute(1100);
    assert!(!timeout.is_timed_out(0));
    assert!(!timeout.is_timed_out(1099));
    assert!(timeout.is_timed_out(1100));
    assert!(timeout.is_timed_out(u64::MAX));
}

#[test]
fn infinity_never_expires() {
    assert!(!ReceiveTimeout::Infinity.is_timed_out(0));
    assert!(!ReceiveTimeout::Infinity.is_timed_out(u64::MAX));
}

#[test]
fn default_timeout_is_infinity() {
    assert_eq!(ReceiveTimeout::default(), ReceiveTimeout::Infinity);
}

#[test]
fn new_context_is_ready_without_message() {
    let context = ReceiveContext::new(10, Timeout::Duration(5));
    assert_eq!(context.state(), ReceiveState::Ready);
    assert_eq!(context.message(), None);
    assert!(!context.message_needs_move());
    assert_eq!(context.timeout(), ReceiveTimeout::Absolute(15));
    assert!(!context.should_time_out(14));
    assert!(context.should_time_out(15));
}

#[test]
fn failed_context_is_in_error() {
    let context = ReceiveContext::failed();
    assert_eq!(context.state(), ReceiveState::Error);
    assert_eq!(context.message(), None);
    assert!(!context.message_needs_move());
    assert_eq!(context.timeout(), ReceiveTimeout::Infinity);
}

#[test]
fn with_message_records_position_and_move() {
    let mut context = ReceiveContext::new(0, Timeout::Infinity);
    context.with_message(3, MessageType::HeapFragment);
    assert_eq!(context.state(), ReceiveState::Received);
    assert_eq!(context.message(), Some(3));
    assert!(context.message_needs_move());

    let mut context = ReceiveContext::new(0, Timeout::Infinity);
    context.with_message(0, MessageType::Process);
    assert_eq!(context.state(), ReceiveState::Received);
    assert_eq!(context.message(), Some(0));
    assert!(!context.message_needs_move());
}

#[test]
fn with_timeout_records_no_message() {
    let mut context = ReceiveContext::new(0, Timeout::Duration(1));
    context.with_timeout();
    assert_eq!(context.state(), ReceiveState::Timeout);
    assert_eq!(context.message(), None);
    assert!(!context.message_needs_move());
    assert_eq!(context.timeout(), ReceiveTimeout::Absolute(1));
}
