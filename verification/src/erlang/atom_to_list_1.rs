//! `atom_to_list/1`: the characters of an atom's name.

use vstd::prelude::*;
use vstd::string::StrSliceExecFns;
use crate::erlang::BadArgument;
use crate::term::{Term, TermView};

verus! {

/// The list of the code points of `chars` from position `from` on.
pub open spec fn chars_list(chars: Seq<char>, from: int) -> TermView
    decreases chars.len() - from,
{
    if from < 0 || from >= chars.len() {
        TermView::Nil
    } else {
        TermView::Cons(
            Box::new(TermView::SmallInteger(chars[from] as int)),
            Box::new(chars_list(chars, from + 1)),
        )
    }
}

/// What `atom_to_list/1` returns for a term.
pub open spec fn list_of_atom(atom: TermView) -> Result<TermView, BadArgument> {
    match atom {
        TermView::Atom(name) => Ok(chars_list(name, 0)),
        _ => Err(BadArgument::TypeError),
    }
}

/// The list of the code points of the name of `atom`, in order. A term that
/// is no atom is rejected as of the wrong type.
pub fn result(atom: &Term) -> (list: Result<Term, BadArgument>)
    ensures
        match list {
            Ok(term) => list_of_atom(atom@) == Ok::<TermView, BadArgument>(term@),
            Err(error) => list_of_atom(atom@) == Err::<TermView, BadArgument>(error),
        },
{
    match atom {
        Term::Atom(name) => {
            let name = name.as_str();
            let mut list = Term::Nil;
            let mut i: usize = name.unicode_len();
            while i > 0
                invariant
                    i <= name@.len(),
                    list@ == chars_list(name@, i as int),
                decreases i,
            {
                i -= 1;
                let code = name.get_char(i) as u32;
                list = Term::cons(Term::integer(code as i64), list);
            }
            Ok(list)
        },
        _ => Err(BadArgument::TypeError),
    }
}

} // verus!
