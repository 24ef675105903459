//! `=<`: whether one term sorts before another or equals it.

use vstd::prelude::*;
use crate::term::{boolean_view, term_le, Comparison, Term};

verus! {

/// The atom `true` where `left` sorts before `right` in the order of terms
/// or is equal to it, the atom `false` otherwise.
pub fn result(left: &Term, right: &Term) -> (answer: Term)
    ensures
        answer@ == boolean_view(term_le(left@, right@)),
{
    match left.compare(right) {
        Comparison::Greater => Term::boolean(false),
        _ => Term::boolean(true),
    }
}

} // verus!
