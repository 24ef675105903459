//! The heap of a process, as far as receiving touches it.
//!
//! The heap counts the words in use against a capacity that grows on demand
//! up to a limit, and holds the terms that were copied into it.

use vstd::prelude::*;
use crate::error::ReceiveError;
use crate::term::{heap_words, models, Term, TermView};

verus! {

/// The heap words that a sequence of terms occupies.
pub open spec fn total_words(terms: Seq<TermView>) -> nat
    decreases terms.len(),
{
    if terms.len() == 0 {
        0
    } else {
        total_words(terms.drop_last()) + heap_words(terms.last())
    }
}

/// Mathematical value of a heap.
pub struct HeapView {
    /// The terms copied into the heap, oldest first.
    pub terms: Seq<TermView>,
    /// Words in use.
    pub used: nat,
    /// Words allocated.
    pub capacity: nat,
    /// Words that the heap may grow to.
    pub limit: nat,
}

impl HeapView {
    /// The words in use are those of the terms, and fit the capacity, which
    /// fits the limit.
    pub open spec fn wf(self) -> bool {
        &&& self.used == total_words(self.terms)
        &&& self.used <= self.capacity
        &&& self.capacity <= self.limit
    }

    /// Whether the heap can take `term`, growing if need be.
    pub open spec fn can_hold(self, term: TermView) -> bool {
        self.used + heap_words(term) <= self.limit
    }

    /// The heap after it has taken `term`: the capacity grows to what is in
    /// use where it was less.
    pub open spec fn with_term(self, term: TermView) -> HeapView {
        let used = self.used + heap_words(term);
        HeapView {
            terms: self.terms.push(term),
            used,
            capacity: if used > self.capacity {
                used
            } else {
                self.capacity
            },
            limit: self.limit,
        }
    }

    /// The heap with its limit raised to `limit`, or unchanged where `limit`
    /// is not above the present one.
    pub open spec fn with_limit(self, limit: nat) -> HeapView {
        if limit > self.limit {
            HeapView { limit, ..self }
        } else {
            self
        }
    }
}

/// Taking a term keeps a heap in order.
pub proof fn lemma_with_term_wf(heap: HeapView, term: TermView)
    requires
        heap.wf(),
        heap.can_hold(term),
    ensures
        heap.with_term(term).wf(),
{
    assert(heap.terms.push(term).drop_last() =~= heap.terms);
}

/// A heap.
pub struct Heap {
    terms: Vec<Term>,
    used: usize,
    capacity: usize,
    limit: usize,
}

impl View for Heap {
    type V = HeapView;

    closed spec fn view(&self) -> HeapView {
        HeapView {
            terms: models(self.terms@),
            used: self.used as nat,
            capacity: self.capacity as nat,
            limit: self.limit as nat,
        }
    }
}

impl Heap {
    /// Whether the heap is in order.
    pub open spec fn wf(&self) -> bool {
        self@.wf()
    }

    /// An empty heap that may grow to `limit` words.
    pub fn new(limit: usize) -> (heap: Heap)
        ensures
            heap.wf(),
            heap@ == (HeapView { terms: Seq::empty(), used: 0, capacity: 0, limit: limit as nat }),
    {
        let heap = Heap { terms: Vec::new(), used: 0, capacity: 0, limit };
        assert(heap@.terms =~= Seq::<TermView>::empty());
        heap
    }

    /// Words in use.
    pub fn used(&self) -> (used: usize)
        ensures
            used == self@.used,
    {
        self.used
    }

    /// Words allocated.
    pub fn capacity(&self) -> (capacity: usize)
        ensures
            capacity == self@.capacity,
    {
        self.capacity
    }

    /// Words that the heap may grow to.
    pub fn limit(&self) -> (limit: usize)
        ensures
            limit == self@.limit,
    {
        self.limit
    }

    /// The number of terms in the heap.
    pub fn len(&self) -> (len: usize)
        ensures
            len == self@.terms.len(),
    {
        self.terms.len()
    }

    /// The term at `index`, if there is one.
    pub fn get(&self, index: usize) -> (term: Option<&Term>)
        ensures
            match term {
                Some(t) => index < self@.terms.len() && t@ == self@.terms[index as int],
                None => index >= self@.terms.len(),
            },
    {
        if index < self.terms.len() {
            Some(&self.terms[index])
        } else {
            None
        }
    }

    /// Raises the limit to `limit`; a lower one is ignored.
    pub fn raise_limit(&mut self, limit: usize)
        requires
            old(self).wf(),
        ensures
            final(self).wf(),
            final(self)@ == old(self)@.with_limit(limit as nat),
    {
        if limit > self.limit {
            self.limit = limit;
        }
    }

    /// Copies `term`, with all that it holds, into the heap, which grows as
    /// needed. Where the limit does not allow it the heap stays as it is.
    pub fn relocate(&mut self, term: &Term) -> (outcome: Result<(), ReceiveError>)
        requires
            old(self).wf(),
        ensures
            final(self).wf(),
            old(self)@.can_hold(term@) ==> outcome is Ok && final(self)@ == old(self)@.with_term(
                term@,
            ),
            !old(self)@.can_hold(term@) ==> outcome == Err::<(), ReceiveError>(
                ReceiveError::RelocationFailure,
            ) && final(self)@ == old(self)@,
    {
        let words = match term.words() {
            Some(words) => words,
            None => {
                return Err(ReceiveError::RelocationFailure);
            },
        };
        if words > self.limit - self.used {
            return Err(ReceiveError::RelocationFailure);
        }
        proof {
            lemma_with_term_wf(self@, term@);
        }
        let copy = term.deep_copy();
        self.terms.push(copy);
        self.used = self.used + words;
        if self.used > self.capacity {
            self.capacity = self.used;
        }
        assert(self@.terms =~= old(self)@.terms.push(term@));
        Ok(())
    }
}

} // verus!
