//! Terms: the values that processes send to each other.
//!
//! A term is held as an owned tree. Its mathematical value is a [`TermView`];
//! every contract in this crate that speaks of a term speaks of that value.
//! The operations follow the tree, one nested call for each level, so the
//! depth of a term that they can take is bounded by the stack.

use vstd::prelude::*;
use vstd::utf8::encode_utf8;

verus! {

/// Mathematical value of a term.
pub enum TermView {
    SmallInteger(int),
    Atom(Seq<char>),
    Tuple(Seq<TermView>),
    Nil,
    Cons(Box<TermView>, Box<TermView>),
    Binary(Seq<u8>),
}

/// A runtime term.
#[derive(Debug, PartialEq, Eq)]
pub enum Term {
    /// A fixed-width integer.
    SmallInteger(i64),
    /// An atom, by its name.
    Atom(String),
    /// A tuple of terms.
    Tuple(Vec<Term>),
    /// The empty list.
    Nil,
    /// A list cell: head and tail. The tail need not be a list.
    Cons(Box<Term>, Box<Term>),
    /// A binary, by its bytes.
    Binary(Vec<u8>),
}

/// Result of comparing two values.
#[derive(Clone, Copy, Debug, PartialEq, Eq, Structural)]
pub enum Comparison {
    Less,
    Equal,
    Greater,
}

/// The name of the atom `infinity`.
pub open spec fn infinity_name() -> Seq<char> {
    "infinity"@
}

/// The name of the atom `true`.
pub open spec fn true_name() -> Seq<char> {
    "true"@
}

/// The name of the atom `false`.
pub open spec fn false_name() -> Seq<char> {
    "false"@
}

/// The atom that stands for a boolean.
pub open spec fn boolean_view(b: bool) -> TermView {
    if b {
        TermView::Atom(true_name())
    } else {
        TermView::Atom(false_name())
    }
}

/// Position of a term's type in the order of types:
/// integer < atom < tuple < empty list < list cell < binary.
pub open spec fn type_rank(t: TermView) -> int {
    match t {
        TermView::SmallInteger(_) => 0,
        TermView::Atom(_) => 1,
        TermView::Tuple(_) => 2,
        TermView::Nil => 3,
        TermView::Cons(_, _) => 4,
        TermView::Binary(_) => 5,
    }
}

pub open spec fn compare_ints(a: int, b: int) -> Comparison {
    if a < b {
        Comparison::Less
    } else if a > b {
        Comparison::Greater
    } else {
        Comparison::Equal
    }
}

/// Lexicographic order of byte strings, from position `from` on.
pub open spec fn compare_bytes_from(a: Seq<u8>, b: Seq<u8>, from: int) -> Comparison
    decreases a.len() - from,
{
    if from < 0 {
        Comparison::Equal
    } else if from >= a.len() {
        if from >= b.len() {
            Comparison::Equal
        } else {
            Comparison::Less
        }
    } else if from >= b.len() {
        Comparison::Greater
    } else if a[from] != b[from] {
        compare_ints(a[from] as int, b[from] as int)
    } else {
        compare_bytes_from(a, b, from + 1)
    }
}

/// Lexicographic order of byte strings.
pub open spec fn compare_bytes(a: Seq<u8>, b: Seq<u8>) -> Comparison {
    compare_bytes_from(a, b, 0)
}

/// The order of terms: first by type, then within the type. Integers by
/// value; atoms by the bytes of their names in UTF-8; binaries by their
/// bytes; tuples by size, then element by element; list cells by head, then
/// tail.
pub open spec fn compare_terms(a: TermView, b: TermView) -> Comparison
    decreases a, 0int,
{
    if type_rank(a) != type_rank(b) {
        compare_ints(type_rank(a), type_rank(b))
    } else {
        match (a, b) {
            (TermView::SmallInteger(x), TermView::SmallInteger(y)) => compare_ints(x, y),
            (TermView::Atom(x), TermView::Atom(y)) => compare_bytes(
                encode_utf8(x),
                encode_utf8(y),
            ),
            (TermView::Tuple(x), TermView::Tuple(y)) => {
                if x.len() != y.len() {
                    compare_ints(x.len() as int, y.len() as int)
                } else {
                    compare_elements(x, y, 0)
                }
            },
            (TermView::Cons(h1, t1), TermView::Cons(h2, t2)) => {
                let heads = compare_terms(*h1, *h2);
                if heads != Comparison::Equal {
                    heads
                } else {
                    compare_terms(*t1, *t2)
                }
            },
            (TermView::Binary(x), TermView::Binary(y)) => compare_bytes(x, y),
            _ => Comparison::Equal,
        }
    }
}

/// Element-wise order of two tuples of one size, from position `from` on.
pub open spec fn compare_elements(x: Seq<TermView>, y: Seq<TermView>, from: int) -> Comparison
    decreases x, x.len() - from,
{
    if from < 0 || from >= x.len() || from >= y.len() {
        Comparison::Equal
    } else {
        let here = compare_terms(x[from], y[from]);
        if here != Comparison::Equal {
            here
        } else {
            compare_elements(x, y, from + 1)
        }
    }
}

/// Whether `a` sorts before `b` or is equal to it.
pub open spec fn term_le(a: TermView, b: TermView) -> bool {
    compare_terms(a, b) != Comparison::Greater
}

/// Heap words that a term occupies beyond the word that refers to it.
/// Integers, atoms and the empty list are immediate. A list cell takes two
/// words, a tuple a header and one word per element, a binary two words and
/// one more per eight bytes; each plus what its parts take.
pub open spec fn heap_words(t: TermView) -> nat
    decreases t, 0int,
{
    match t {
        TermView::Cons(head, tail) => 2 + heap_words(*head) + heap_words(*tail),
        TermView::Tuple(elements) => 1 + elements.len() + elements_words(elements, 0),
        TermView::Binary(bytes) => 2 + bytes.len() / 8,
        _ => 0,
    }
}

/// Heap words of the elements of a tuple from position `from` on.
pub open spec fn elements_words(elements: Seq<TermView>, from: int) -> nat
    decreases elements, elements.len() - from,
{
    if from < 0 || from >= elements.len() {
        0
    } else {
        heap_words(elements[from]) + elements_words(elements, from + 1)
    }
}

/// The values of a sequence of terms.
pub open spec fn models(terms: Seq<Term>) -> Seq<TermView> {
    Seq::new(terms.len(), |i: int| terms[i].model())
}

/// A tuple's value is the tuple of its elements' values.
pub proof fn lemma_tuple_model(elements: Vec<Term>)
    ensures
        Term::Tuple(elements)@ == TermView::Tuple(models(elements@)),
{
    assert(Term::Tuple(elements).model()->Tuple_0 =~= models(elements@));
}

/// The words of a tuple's elements from a later position on are no more
/// than those from an earlier one.
pub proof fn lemma_elements_words_monotone(elements: Seq<TermView>, from: int, to: int)
    requires
        0 <= from <= to,
    ensures
        elements_words(elements, to) <= elements_words(elements, from),
    decreases to - from,
{
    if from < to && from < elements.len() {
        lemma_elements_words_monotone(elements, from + 1, to);
    }
}

impl Term {
    /// The mathematical value that this term denotes.
    pub open spec fn model(&self) -> TermView
        decreases self,
    {
        match self {
            Term::SmallInteger(i) => TermView::SmallInteger(*i as int),
            Term::Atom(name) => TermView::Atom(name@),
            Term::Tuple(elements) => TermView::Tuple(
                Seq::new(
                    elements@.len(),
                    |i: int|
                        if 0 <= i < elements@.len() {
                            elements@[i].model()
                        } else {
                            TermView::Nil
                        },
                ),
            ),
            Term::Nil => TermView::Nil,
            Term::Cons(head, tail) => TermView::Cons(
                Box::new(head.model()),
                Box::new(tail.model()),
            ),
            Term::Binary(bytes) => TermView::Binary(bytes@),
        }
    }
}

impl View for Term {
    type V = TermView;

    open spec fn view(&self) -> TermView {
        self.model()
    }
}

impl Term {
    /// An integer term.
    pub fn integer(value: i64) -> (term: Term)
        ensures
            term@ == TermView::SmallInteger(value as int),
    {
        Term::SmallInteger(value)
    }

    /// The atom of the given name.
    pub fn atom(name: &str) -> (term: Term)
        ensures
            term@ == TermView::Atom(name@),
    {
        Term::Atom(name.to_owned())
    }

    /// The atom `true` or the atom `false`.
    pub fn boolean(value: bool) -> (term: Term)
        ensures
            term@ == boolean_view(value),
    {
        if value {
            Term::atom("true")
        } else {
            Term::atom("false")
        }
    }

    /// A list cell.
    pub fn cons(head: Term, tail: Term) -> (term: Term)
        ensures
            term@ == TermView::Cons(Box::new(head@), Box::new(tail@)),
    {
        Term::Cons(Box::new(head), Box::new(tail))
    }

    /// A tuple of the given elements.
    pub fn tuple(elements: Vec<Term>) -> (term: Term)
        ensures
            term@ == TermView::Tuple(models(elements@)),
    {
        proof {
            lemma_tuple_model(elements);
        }
        Term::Tuple(elements)
    }

    /// A binary of the given bytes.
    pub fn binary(bytes: Vec<u8>) -> (term: Term)
        ensures
            term@ == TermView::Binary(bytes@),
    {
        Term::Binary(bytes)
    }

    /// Whether this term is the atom `infinity`.
    pub fn is_infinity(&self) -> (yes: bool)
        ensures
            yes == (self@ == TermView::Atom(infinity_name())),
    {
        match self {
            Term::Atom(name) => {
                let infinity = "infinity".to_owned();
                *name == infinity
            },
            _ => false,
        }
    }

    /// A copy of this term and of everything it holds.
    pub fn deep_copy(&self) -> (copy: Term)
        ensures
            copy@ == self@,
        decreases self,
    {
        match self {
            Term::SmallInteger(i) => Term::SmallInteger(*i),
            Term::Atom(name) => Term::Atom(name.clone()),
            Term::Tuple(elements) => {
                let copied = deep_copy_all(elements);
                proof {
                    lemma_tuple_model(*elements);
                    lemma_tuple_model(copied);
                }
                Term::Tuple(copied)
            },
            Term::Nil => Term::Nil,
            Term::Cons(head, tail) => Term::Cons(
                Box::new(head.deep_copy()),
                Box::new(tail.deep_copy()),
            ),
            Term::Binary(bytes) => Term::Binary(copy_bytes(bytes)),
        }
    }

    /// The heap words that this term occupies, or `None` where their number
    /// does not fit the machine word.
    pub fn words(&self) -> (count: Option<usize>)
        ensures
            match count {
                Some(n) => n == heap_words(self@),
                None => heap_words(self@) > usize::MAX,
            },
        decreases self,
    {
        match self {
            Term::Cons(head, tail) => {
                let head_words = match head.words() {
                    Some(n) => n,
                    None => {
                        return None;
                    },
                };
                let tail_words = match tail.words() {
                    Some(n) => n,
                    None => {
                        return None;
                    },
                };
                match head_words.checked_add(tail_words) {
                    Some(parts) => parts.checked_add(2),
                    None => None,
                }
            },
            Term::Tuple(elements) => {
                proof {
                    lemma_tuple_model(*elements);
                }
                match words_all(elements) {
                    Some(parts) => match parts.checked_add(elements.len()) {
                        Some(sum) => sum.checked_add(1),
                        None => None,
                    },
                    None => None,
                }
            },
            Term::Binary(bytes) => Some(bytes.len() / 8 + 2),
            _ => Some(0),
        }
    }

    /// How this term sorts against `other` in the order of terms.
    pub fn compare(&self, other: &Term) -> (order: Comparison)
        ensures
            order == compare_terms(self@, other@),
        decreases self,
    {
        match (self, other) {
            (Term::SmallInteger(x), Term::SmallInteger(y)) => {
                if *x < *y {
                    Comparison::Less
                } else if *x > *y {
                    Comparison::Greater
                } else {
                    Comparison::Equal
                }
            },
            (Term::Atom(x), Term::Atom(y)) => compare_byte_slices(
                x.as_str().as_bytes(),
                y.as_str().as_bytes(),
            ),
            (Term::Tuple(x), Term::Tuple(y)) => {
                proof {
                    lemma_tuple_model(*x);
                    lemma_tuple_model(*y);
                }
                if x.len() < y.len() {
                    Comparison::Less
                } else if x.len() > y.len() {
                    Comparison::Greater
                } else {
                    compare_all(x, y)
                }
            },
            (Term::Nil, Term::Nil) => Comparison::Equal,
            (Term::Cons(h1, t1), Term::Cons(h2, t2)) => {
                let heads = h1.compare(h2);
                match heads {
                    Comparison::Equal => t1.compare(t2),
                    _ => heads,
                }
            },
            (Term::Binary(x), Term::Binary(y)) => compare_byte_slices(x.as_slice(), y.as_slice()),
            _ => {
                let left = self.type_rank();
                let right = other.type_rank();
                if left < right {
                    Comparison::Less
                } else {
                    Comparison::Greater
                }
            },
        }
    }

    /// Position of this term's type in the order of types.
    pub fn type_rank(&self) -> (rank: u8)
        ensures
            rank == type_rank(self@),
    {
        match self {
            Term::SmallInteger(_) => 0,
            Term::Atom(_) => 1,
            Term::Tuple(_) => 2,
            Term::Nil => 3,
            Term::Cons(_, _) => 4,
            Term::Binary(_) => 5,
        }
    }
}

/// A copy of a byte vector.
fn copy_bytes(bytes: &Vec<u8>) -> (copy: Vec<u8>)
    ensures
        copy@ == bytes@,
{
    let mut copy: Vec<u8> = Vec::new();
    let mut i: usize = 0;
    while i < bytes.len()
        invariant
            i <= bytes.len(),
            copy@ == bytes@.subrange(0, i as int),
        decreases bytes.len() - i,
    {
        copy.push(bytes[i]);
        i += 1;
        assert(copy@ =~= bytes@.subrange(0, i as int));
    }
    assert(bytes@.subrange(0, i as int) =~= bytes@);
    copy
}

/// Deep copies of the terms of a vector, in order.
fn deep_copy_all(terms: &Vec<Term>) -> (copies: Vec<Term>)
    ensures
        models(copies@) == models(terms@),
    decreases terms,
{
    let mut copies: Vec<Term> = Vec::new();
    let mut i: usize = 0;
    while i < terms.len()
        invariant
            i <= terms.len(),
            copies.len() == i,
            forall|j: int| 0 <= j < i ==> copies@[j]@ == terms@[j]@,
        decreases terms.len() - i,
    {
        copies.push(terms[i].deep_copy());
        i += 1;
    }
    assert(models(copies@) =~= models(terms@));
    copies
}

/// The heap words of the terms of a vector together, or `None` where their
/// number does not fit the machine word.
fn words_all(terms: &Vec<Term>) -> (count: Option<usize>)
    ensures
        match count {
            Some(n) => n == elements_words(models(terms@), 0),
            None => elements_words(models(terms@), 0) > usize::MAX,
        },
    decreases terms,
{
    let ghost values = models(terms@);
    let mut total: usize = 0;
    let mut i: usize = terms.len();
    while i > 0
        invariant
            i <= terms.len(),
            values == models(terms@),
            total == elements_words(values, i as int),
        decreases i,
    {
        i -= 1;
        assert(values[i as int] == terms@[i as int]@);
        proof {
            lemma_elements_words_monotone(values, 0, i as int);
        }
        let here = match terms[i].words() {
            Some(n) => n,
            None => {
                return None;
            },
        };
        total = match total.checked_add(here) {
            Some(sum) => sum,
            None => {
                return None;
            },
        };
    }
    Some(total)
}

/// Lexicographic order of two byte strings.
fn compare_byte_slices(a: &[u8], b: &[u8]) -> (order: Comparison)
    ensures
        order == compare_bytes(a@, b@),
{
    let mut i: usize = 0;
    while i < a.len() && i < b.len()
        invariant
            i <= a.len(),
            i <= b.len(),
            compare_bytes(a@, b@) == compare_bytes_from(a@, b@, i as int),
        decreases a.len() - i,
    {
        if a[i] < b[i] {
            return Comparison::Less;
        } else if a[i] > b[i] {
            return Comparison::Greater;
        }
        i += 1;
    }
    if i < b.len() {
        Comparison::Less
    } else if i < a.len() {
        Comparison::Greater
    } else {
        Comparison::Equal
    }
}

/// Element-wise order of two vectors of terms of one length.
fn compare_all(x: &Vec<Term>, y: &Vec<Term>) -> (order: Comparison)
    requires
        x.len() == y.len(),
    ensures
        order == compare_elements(models(x@), models(y@), 0),
    decreases x,
{
    let ghost xs = models(x@);
    let ghost ys = models(y@);
    let mut i: usize = 0;
    while i < x.len()
        invariant
            i <= x.len(),
            x.len() == y.len(),
            xs == models(x@),
            ys == models(y@),
            compare_elements(xs, ys, 0) == compare_elements(xs, ys, i as int),
        decreases x.len() - i,
    {
        assert(xs[i as int] == x@[i as int]@);
        assert(ys[i as int] == y@[i as int]@);
        let here = x[i].compare(&y[i]);
        match here {
            Comparison::Equal => {},
            _ => {
                return here;
            },
        }
        i += 1;
    }
    Comparison::Equal
}

} // verus!
