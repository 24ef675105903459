//! How long a receive waits.

use vstd::prelude::*;
use crate::error::ReceiveError;
use crate::term::{infinity_name, Term, TermView};

verus! {

/// The timeout that a caller asks for.
#[derive(Clone, Copy, Debug, PartialEq, Eq, Structural)]
pub enum Timeout {
    /// Wait until a message arrives.
    Infinity,
    /// Wait at most this many milliseconds.
    Duration(u64),
}

/// The timeout of one receive operation, fixed when the operation starts.
#[derive(Clone, Copy, Debug, PartialEq, Eq, Structural)]
pub enum ReceiveTimeout {
    /// Never expires.
    Infinity,
    /// Expires once the clock has reached this reading.
    Absolute(u64),
}

/// The timeout that a number of milliseconds stands for.
pub open spec fn timeout_of_millis(millis: int) -> Result<Timeout, ReceiveError> {
    if 0 <= millis <= u64::MAX {
        Ok(Timeout::Duration(millis as u64))
    } else {
        Err(ReceiveError::BadTimeoutValue)
    }
}

/// The timeout that a term stands for: the atom `infinity`, or a
/// non-negative integer of milliseconds. Every other term is rejected.
pub open spec fn timeout_of_term(term: TermView) -> Result<Timeout, ReceiveError> {
    match term {
        TermView::Atom(name) => if name == infinity_name() {
            Ok(Timeout::Infinity)
        } else {
            Err(ReceiveError::BadTimeoutValue)
        },
        TermView::SmallInteger(millis) => timeout_of_millis(millis),
        _ => Err(ReceiveError::BadTimeoutValue),
    }
}

/// The clock reading `duration` after `now`, or the last reading there is
/// where the sum lies beyond it.
pub open spec fn deadline(now: u64, duration: u64) -> u64 {
    if now + duration > u64::MAX {
        u64::MAX
    } else {
        (now + duration) as u64
    }
}

impl Timeout {
    /// The timeout of `millis` milliseconds. A negative number is rejected.
    pub fn from_millis(millis: i64) -> (timeout: Result<Timeout, ReceiveError>)
        ensures
            timeout == timeout_of_millis(millis as int),
    {
        if millis >= 0 {
            Ok(Timeout::Duration(millis as u64))
        } else {
            Err(ReceiveError::BadTimeoutValue)
        }
    }

    /// The timeout that `term` stands for.
    pub fn from_term(term: &Term) -> (timeout: Result<Timeout, ReceiveError>)
        ensures
            timeout == timeout_of_term(term@),
    {
        match term {
            Term::SmallInteger(millis) => Timeout::from_millis(*millis),
            Term::Atom(_) => {
                if term.is_infinity() {
                    Ok(Timeout::Infinity)
                } else {
                    Err(ReceiveError::BadTimeoutValue)
                }
            },
            _ => Err(ReceiveError::BadTimeoutValue),
        }
    }
}

impl ReceiveTimeout {
    /// The timeout of a receive that starts at `now`.
    pub open spec fn starting(now: u64, timeout: Timeout) -> ReceiveTimeout {
        match timeout {
            Timeout::Infinity => ReceiveTimeout::Infinity,
            Timeout::Duration(duration) => ReceiveTimeout::Absolute(deadline(now, duration)),
        }
    }

    /// Whether the timeout has passed when the clock reads `now`.
    pub open spec fn expired_at(self, now: u64) -> bool {
        match self {
            ReceiveTimeout::Infinity => false,
            ReceiveTimeout::Absolute(end) => now >= end,
        }
    }

    /// Fixes the timeout of a receive that starts at `now`. The deadline
    /// saturates at the last clock reading.
    pub fn new(now: u64, timeout: Timeout) -> (fixed: ReceiveTimeout)
        ensures
            fixed == ReceiveTimeout::starting(now, timeout),
    {
        match timeout {
            Timeout::Infinity => ReceiveTimeout::Infinity,
            Timeout::Duration(duration) => ReceiveTimeout::Absolute(now.saturating_add(duration)),
        }
    }

    /// Whether the timeout has passed when the clock reads `now`.
    pub fn is_timed_out(&self, now: u64) -> (expired: bool)
        ensures
            expired == self.expired_at(now),
    {
        match self {
            ReceiveTimeout::Infinity => false,
            ReceiveTimeout::Absolute(end) => now >= *end,
        }
    }
}

impl Default for ReceiveTimeout {
    fn default() -> (timeout: ReceiveTimeout)
        ensures
            timeout == ReceiveTimeout::Infinity,
    {
        ReceiveTimeout::Infinity
    }
}

} // verus!
