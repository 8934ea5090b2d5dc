//! The stack itself: a borrowed buffer and the count of its live slots.

use crate::iter::StackVecIterator;
use crate::model::{after_pop, after_push, after_set, element_at};
use vstd::prelude::*;

verus! {

/// Why an operation on a [`StackVec`] was refused.
#[derive(Clone, Copy, Debug, PartialEq, Eq, Structural)]
pub enum StackVecError {
    /// A push was attempted while every slot of the buffer was live.
    CapacityExceeded,
    /// A pop was attempted while no slot was live.
    Underflow,
    /// An index at or beyond the live length was used.
    IndexOutOfRange,
}

/// A stack of bounded capacity laid over a borrowed buffer.
///
/// The first `size` slots of the buffer are live; the others hold stale
/// values that no operation reads. The stack never grows the buffer, never
/// frees it, and is viewed as the sequence of its live elements, oldest
/// first.
pub struct StackVec<'a, T: 'a> {
    buffer: &'a mut [T],
    size: usize,
}

impl<'a, T> View for StackVec<'a, T> {
    type V = Seq<T>;

    closed spec fn view(&self) -> Seq<T> {
        self.buffer@.take(self.size as int)
    }
}

impl<'a, T> StackVec<'a, T> {
    #[verifier::type_invariant]
    spec fn inv(&self) -> bool {
        self.size <= self.buffer@.len()
    }

    /// What every slot of the borrowed buffer holds, live or stale.
    pub closed spec fn slots(&self) -> Seq<T> {
        self.buffer@
    }

    /// The number of slots in the borrowed buffer.
    pub open spec fn capacity(&self) -> nat {
        self.slots().len()
    }

    /// The live elements are the leading slots of the buffer. This holds of
    /// every stack that exists while the program runs.
    pub open spec fn live_in_front(&self) -> bool {
        &&& self@.len() <= self.capacity()
        &&& self@ == self.slots().take(self@.len() as int)
    }

    /// Binds an empty stack to `storage`, whatever its slots hold.
    pub fn new(storage: &'a mut [T]) -> (s: StackVec<'a, T>)
        ensures
            s@ == Seq::<T>::empty(),
            s.slots() == old(storage)@,
            s.live_in_front(),
    {
        let s = StackVec { buffer: storage, size: 0 };
        s
    }

    /// The number of live elements.
    pub fn size(&self) -> (n: usize)
        ensures
            n == self@.len(),
            self.live_in_front(),
    {
        proof {
            use_type_invariant(self);
        }
        self.size
    }

    /// The number of slots in the borrowed buffer.
    pub fn buffer_size(&self) -> (n: usize)
        ensures
            n == self.capacity(),
            self.live_in_front(),
    {
        proof {
            use_type_invariant(self);
        }
        self.buffer.len()
    }

    /// Appends `data` behind the live elements, unless every slot is live.
    pub fn push(&mut self, data: T) -> (r: Result<(), StackVecError>)
        ensures
            match after_push(old(self)@, old(self).capacity(), data) {
                Ok(live) => {
                    &&& r.is_ok()
                    &&& final(self)@ == live
                    &&& final(self).slots() == old(self).slots().update(
                        old(self)@.len() as int,
                        data,
                    )
                },
                Err(e) => {
                    &&& r == Err::<(), StackVecError>(e)
                    &&& final(self)@ == old(self)@
                    &&& final(self).slots() == old(self).slots()
                },
            },
            final(self).live_in_front(),
    {
        proof {
            use_type_invariant(&*self);
        }
        let sz: usize = self.size;
        let max_sz: usize = self.buffer_size();

        if sz == max_sz {
            return Err(StackVecError::CapacityExceeded);
        }
        self.buffer[sz] = data;
        self.size += 1;
        assert(self@ =~= old(self)@.push(data));
        Ok(())
    }

    /// Removes the youngest live element and lends out the slot that held
    /// it, unless there is none. The slot is stale from then on: it keeps the
    /// element, or whatever the borrower writes there, until a later push
    /// overwrites it.
    pub fn pop(&mut self) -> (r: Result<&mut T, StackVecError>)
        ensures
            match after_pop(old(self)@) {
                Ok((live, top)) => {
                    &&& r.is_ok()
                    &&& *r.unwrap() == top
                    &&& final(self)@ == live
                    &&& final(self).slots() == old(self).slots().update(
                        live.len() as int,
                        *final(r.unwrap()),
                    )
                },
                Err(e) => {
                    &&& r == Err::<&mut T, StackVecError>(e)
                    &&& final(self)@ == old(self)@
                    &&& final(self).slots() == old(self).slots()
                },
            },
            final(self).live_in_front(),
    {
        proof {
            use_type_invariant(&*self);
        }
        if self.size == 0 {
            return Err(StackVecError::Underflow);
        }
        self.size -= 1;
        assert(self@ =~= old(self)@.drop_last());
        Ok(slot_mut(self.buffer, self.size))
    }

    /// The live element at `index`.
    pub fn get(&self, index: usize) -> (r: Result<&T, StackVecError>)
        ensures
            match element_at(self@, index as nat) {
                Ok(item) => r == Ok::<&T, StackVecError>(&item),
                Err(e) => r == Err::<&T, StackVecError>(e),
            },
            self.live_in_front(),
    {
        proof {
            use_type_invariant(self);
        }
        if index >= self.size {
            return Err(StackVecError::IndexOutOfRange);
        }
        Ok(&self.buffer[index])
    }

    /// Overwrites the live element at `index` with `value`. It cannot make
    /// the stack longer.
    pub fn set(&mut self, index: usize, value: T) -> (r: Result<(), StackVecError>)
        ensures
            match after_set(old(self)@, index as nat, value) {
                Ok(live) => {
                    &&& r.is_ok()
                    &&& final(self)@ == live
                    &&& final(self).slots() == old(self).slots().update(index as int, value)
                },
                Err(e) => {
                    &&& r == Err::<(), StackVecError>(e)
                    &&& final(self)@ == old(self)@
                    &&& final(self).slots() == old(self).slots()
                },
            },
            final(self).live_in_front(),
    {
        proof {
            use_type_invariant(&*self);
        }
        if index >= self.size {
            return Err(StackVecError::IndexOutOfRange);
        }
        self.buffer[index] = value;
        assert(self@ =~= old(self)@.update(index as int, value));
        Ok(())
    }

    /// A traversal of the elements that are live now, oldest first.
    pub fn iter(&'a self) -> (it: StackVecIterator<'a, T>)
        ensures
            it.items() == self@,
            it.position() == 0,
    {
        StackVecIterator::start(self)
    }
}

impl<'a, T> std::ops::Index<usize> for StackVec<'a, T> {
    type Output = T;

    /// The live element at `index`, for callers that know `index` is live.
    fn index(&self, index: usize) -> (out: &T)
        ensures
            *out == self@[index as int],
    {
        proof {
            use_type_invariant(self);
        }
        let live: &[T] = &self.buffer[0..self.size];
        &live[index]
    }
}

impl<'a, T> vstd::std_specs::core::IndexSpecImpl<usize> for StackVec<'a, T> {
    /// Indexing is defined on the live range only.
    open spec fn index_req(&self, index: &usize) -> bool {
        *index < self@.len()
    }
}

/// Lends out one slot of `buffer` for writing.
fn slot_mut<T>(buffer: &mut [T], index: usize) -> (slot: &mut T)
    requires
        index < old(buffer)@.len(),
    ensures
        *slot == old(buffer)@[index as int],
        final(buffer)@ == old(buffer)@.update(index as int, *final(slot)),
    no_unwind
{
    &mut buffer[index]
}

impl<'a, T> std::ops::IndexMut<usize> for StackVec<'a, T> {
    /// The slot of the live element at `index`, lent out for writing, for
    /// callers that know `index` is live.
    fn index_mut(&mut self, index: usize) -> (out: &mut T)
        requires
            index < old(self)@.len(),
        ensures
            *out == old(self)@[index as int],
            final(self)@ == old(self)@.update(index as int, *final(out)),
            final(self).slots() == old(self).slots().update(index as int, *final(out)),
            final(self).live_in_front(),
    {
        proof {
            use_type_invariant(&*self);
        }
        slot_mut(self.buffer, index)
    }
}

} // verus!
