//! `list_to_tuple/1`: the tuple of a list's elements.

use vstd::prelude::*;
use crate::erlang::BadArgument;
use crate::term::{models, Term, TermView};

verus! {

/// The elements of a proper list, in order; `None` for a list that does not
/// end in the empty list and for a term that is no list.
pub open spec fn list_elements(list: TermView) -> Option<Seq<TermView>>
    decreases list,
{
    match list {
        TermView::Nil => Some(Seq::empty()),
        TermView::Cons(head, tail) => match list_elements(*tail) {
            Some(rest) => Some(seq![*head] + rest),
            None => None,
        },
        _ => None,
    }
}

/// What `list_to_tuple/1` returns for a term.
pub open spec fn tuple_of_list(list: TermView) -> Result<TermView, BadArgument> {
    match list {
        TermView::Nil => Ok(TermView::Tuple(Seq::empty())),
        TermView::Cons(_, _) => match list_elements(list) {
            Some(elements) => Ok(TermView::Tuple(elements)),
            None => Err(BadArgument::ImproperListError),
        },
        _ => Err(BadArgument::TypeError),
    }
}

/// The tuple that holds the elements of `list` in order. A list that does
/// not end in the empty list is rejected as improper, a term that is no
/// list as of the wrong type.
pub fn result(list: &Term) -> (tuple: Result<Term, BadArgument>)
    ensures
        match tuple {
            Ok(term) => tuple_of_list(list@) == Ok::<TermView, BadArgument>(term@),
            Err(error) => tuple_of_list(list@) == Err::<TermView, BadArgument>(error),
        },
{
    match list {
        Term::Nil => {
            let elements: Vec<Term> = Vec::new();
            assert(models(elements@) =~= Seq::<TermView>::empty());
            Ok(Term::tuple(elements))
        },
        Term::Cons(_, _) => {
            let mut elements: Vec<Term> = Vec::new();
            match collect_elements(list, &mut elements) {
                true => {
                    assert(Seq::<TermView>::empty() + list_elements(list@)->0 =~= list_elements(
                        list@,
                    )->0);
                    Ok(Term::tuple(elements))
                },
                false => Err(BadArgument::ImproperListError),
            }
        },
        _ => Err(BadArgument::TypeError),
    }
}

/// Appends copies of the elements of `list` to `elements` and says whether
/// the list is proper. For an improper one, what was appended is of no use.
fn collect_elements(list: &Term, elements: &mut Vec<Term>) -> (proper: bool)
    ensures
        proper == list_elements(list@) is Some,
        proper ==> models(final(elements)@) == models(old(elements)@) + list_elements(list@)->0,
    decreases list,
{
    match list {
        Term::Nil => {
            assert(models(elements@) + Seq::<TermView>::empty() =~= models(elements@));
            true
        },
        Term::Cons(head, tail) => {
            elements.push(head.deep_copy());
            assert(models(elements@) =~= models(old(elements)@) + seq![head@]);
            let proper = collect_elements(tail, elements);
            proof {
                if proper {
                    let rest = list_elements(tail@)->0;
                    assert((models(old(elements)@) + seq![head@]) + rest =~= models(
                        old(elements)@,
                    ) + (seq![head@] + rest));
                }
            }
            proper
        },
        _ => false,
    }
}

} // verus!
