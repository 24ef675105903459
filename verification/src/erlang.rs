//! Built-in functions on terms.

use vstd::prelude::*;

pub mod atom_to_list_1;
pub mod is_equal_or_less_than_2;
pub mod list_to_tuple_1;

verus! {

/// Why a built-in function rejects an argument.
#[derive(Clone, Copy, Debug, PartialEq, Eq, Structural)]
pub enum BadArgument {
    /// The argument is not of the type that the function takes.
    TypeError,
    /// The argument is a list that does not end in the empty list.
    ImproperListError,
}

} // verus!
