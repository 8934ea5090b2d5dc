//! A forward traversal of the live elements of a [`StackVec`].

use crate::model::step;
use crate::stack_vec::StackVec;
use vstd::prelude::*;

verus! {

/// A cursor over the live elements of a stack, oldest first.
///
/// It borrows the stack for reading, so the stack cannot change while the
/// cursor is in use.
pub struct StackVecIterator<'a, T: 'a> {
    vector: &'a StackVec<'a, T>,
    location: usize,
}

impl<'a, T> StackVecIterator<'a, T> {
    #[verifier::type_invariant]
    spec fn inv(&self) -> bool {
        self.location <= self.vector@.len()
    }

    /// The elements that the traversal runs over: the live elements of the
    /// stack when the cursor was made.
    pub closed spec fn items(&self) -> Seq<T> {
        self.vector@
    }

    /// How many elements the cursor has produced.
    pub closed spec fn position(&self) -> nat {
        self.location as nat
    }

    pub(crate) fn start(vector: &'a StackVec<'a, T>) -> (it: StackVecIterator<'a, T>)
        ensures
            it.items() == vector@,
            it.position() == 0,
    {
        StackVecIterator { vector, location: 0 }
    }

    /// Produces the next element, or `None` once all have been produced.
    pub fn next(&mut self) -> (r: Option<&'a T>)
        ensures
            final(self).items() == old(self).items(),
            final(self).position() <= final(self).items().len(),
            match step(old(self).items(), old(self).position()) {
                (Some(item), next) => r == Some(&item) && final(self).position() == next,
                (None, next) => r.is_none() && final(self).position() == next,
            },
    {
        proof {
            use_type_invariant(&*self);
        }
        if self.location >= self.vector.size() {
            None
        } else {
            self.location += 1;
            Some(&self.vector[self.location - 1])
        }
    }
}

} // verus!
