//! Carrying out the commands of a line on a stack.
//!
//! A line arrives as its words, the command word first. A word that stands
//! for an element has been converted by the caller, who hands over what the
//! conversion gave; an index is read here. Each command examines its words
//! before it touches the stack, and a refused command leaves the stack as it
//! was.

use crate::model::{after_pop, after_push, after_set, element_at};
use crate::parse::{index_of, parse_index};
use crate::stack_vec::StackVec;
use vstd::prelude::*;
use vstd::string::StringSliceAdditionalSpecFns;

verus! {

/// Why a command was not carried out.
#[derive(Clone, Copy, Debug, PartialEq, Eq, Structural)]
pub enum CommandError {
    /// The line has the wrong number of words for its command.
    Malformed,
    /// The word for the index does not write an index.
    BadIndex,
    /// The word for the element could not be converted.
    BadValue,
    /// The index is not that of a live element.
    InvalidIndex(usize),
    /// The stack has no free slot.
    Full,
    /// The stack has no live element.
    Empty,
}

/// What `get` answers on a stack whose live elements are `live`.
pub open spec fn get_outcome<T>(live: Seq<T>, words: Seq<&str>) -> Result<T, CommandError> {
    if words.len() != 2 {
        Err(CommandError::Malformed)
    } else {
        match index_of(words[1].spec_bytes()) {
            None => Err(CommandError::BadIndex),
            Some(index) => match element_at(live, index as nat) {
                Ok(item) => Ok(item),
                Err(_) => Err(CommandError::InvalidIndex(index)),
            },
        }
    }
}

/// What `set` answers, and the live elements it leaves, when the conversion
/// of the element word gave `value`.
pub open spec fn set_outcome<T>(live: Seq<T>, words: Seq<&str>, value: Option<T>) -> Result<
    (Seq<T>, T),
    CommandError,
> {
    if words.len() != 3 {
        Err(CommandError::Malformed)
    } else {
        match (index_of(words[1].spec_bytes()), value) {
            (None, _) => Err(CommandError::BadIndex),
            (Some(_), None) => Err(CommandError::BadValue),
            (Some(index), Some(v)) => match after_set(live, index as nat, v) {
                Ok(written) => Ok((written, v)),
                Err(_) => Err(CommandError::InvalidIndex(index)),
            },
        }
    }
}

/// What `push` answers, and the live elements it leaves, when the conversion
/// of the element word gave `value`.
pub open spec fn push_outcome<T>(
    live: Seq<T>,
    capacity: nat,
    words: Seq<&str>,
    value: Option<T>,
) -> Result<(Seq<T>, T), CommandError> {
    if words.len() != 2 {
        Err(CommandError::Malformed)
    } else {
        match value {
            None => Err(CommandError::BadValue),
            Some(v) => match after_push(live, capacity, v) {
                Ok(grown) => Ok((grown, v)),
                Err(_) => Err(CommandError::Full),
            },
        }
    }
}

/// What `pop` answers, and the live elements it leaves.
pub open spec fn pop_outcome<T>(live: Seq<T>, words: Seq<&str>) -> Result<
    (Seq<T>, T),
    CommandError,
> {
    if words.len() != 1 {
        Err(CommandError::Malformed)
    } else {
        match after_pop(live) {
            Ok(rest_and_top) => Ok(rest_and_top),
            Err(_) => Err(CommandError::Empty),
        }
    }
}

/// `print`: the live elements, oldest first, gathered for the caller to
/// show. An empty stack gives an empty listing.
pub fn cmd_print<T: Copy>(vec: &StackVec<T>) -> (listing: Vec<T>)
    ensures
        listing@ == vec@,
{
    let mut listing: Vec<T> = Vec::new();
    let mut items = vec.iter();
    assert(vec@.take(0) =~= listing@);
    loop
        invariant
            items.items() == vec@,
            items.position() <= vec@.len(),
            listing@ == vec@.take(items.position() as int),
        ensures
            listing@ == vec@,
        decreases vec@.len() - items.position(),
    {
        let ghost seen = items.position() as int;
        match items.next() {
            Some(item) => {
                listing.push(*item);
                assert(vec@.take(seen + 1) =~= vec@.take(seen).push(*item));
            },
            None => {
                assert(vec@.take(seen) =~= vec@);
                break ;
            },
        }
    }
    listing
}

/// `get INDEX`: the live element at the index.
pub fn cmd_get<T: Copy>(vec: &StackVec<T>, svec: &Vec<&str>) -> (r: Result<T, CommandError>)
    ensures
        r == get_outcome(vec@, svec@),
{
    if svec.len() != 2 {
        return Err(CommandError::Malformed);
    }
    let idx: usize = match parse_index(svec[1].as_bytes()) {
        Some(v) => v,
        None => return Err(CommandError::BadIndex),
    };
    match vec.get(idx) {
        Ok(item) => Ok(*item),
        Err(_) => Err(CommandError::InvalidIndex(idx)),
    }
}

/// `set INDEX ELEMENT`: overwrites the live element at the index, and
/// answers with the element written. `value` is what converting the element
/// word gave; it is looked at only on a line of three words.
pub fn cmd_set<T: Copy>(s: &mut StackVec<T>, vec: &Vec<&str>, value: Option<T>) -> (r: Result<
    T,
    CommandError,
>)
    ensures
        match set_outcome(old(s)@, vec@, value) {
            Ok((written, v)) => {
                &&& r == Ok::<T, CommandError>(v)
                &&& final(s)@ == written
                &&& final(s).slots() == old(s).slots().update(
                    index_of(vec@[1].spec_bytes()).unwrap() as int,
                    v,
                )
            },
            Err(e) => {
                &&& r == Err::<T, CommandError>(e)
                &&& final(s)@ == old(s)@
                &&& final(s).slots() == old(s).slots()
            },
        },
{
    if vec.len() != 3 {
        return Err(CommandError::Malformed);
    }
    let idx: usize = match parse_index(vec[1].as_bytes()) {
        Some(v) => v,
        None => return Err(CommandError::BadIndex),
    };
    let val: T = match value {
        Some(v) => v,
        None => return Err(CommandError::BadValue),
    };
    match s.set(idx, val) {
        Ok(()) => Ok(val),
        Err(_) => Err(CommandError::InvalidIndex(idx)),
    }
}

/// `push ELEMENT`: appends the element, and answers with it. `value` is
/// what converting the element word gave; it is looked at only on a line of
/// two words.
pub fn cmd_push<T: Copy>(s: &mut StackVec<T>, vec: &Vec<&str>, value: Option<T>) -> (r: Result<
    T,
    CommandError,
>)
    ensures
        match push_outcome(old(s)@, old(s).capacity(), vec@, value) {
            Ok((grown, v)) => {
                &&& r == Ok::<T, CommandError>(v)
                &&& final(s)@ == grown
                &&& final(s).slots() == old(s).slots().update(old(s)@.len() as int, v)
            },
            Err(e) => {
                &&& r == Err::<T, CommandError>(e)
                &&& final(s)@ == old(s)@
                &&& final(s).slots() == old(s).slots()
            },
        },
{
    if vec.len() != 2 {
        return Err(CommandError::Malformed);
    }
    let val: T = match value {
        Some(v) => v,
        None => return Err(CommandError::BadValue),
    };
    match s.push(val) {
        Ok(()) => Ok(val),
        Err(_) => Err(CommandError::Full),
    }
}

/// `pop`: removes the youngest element and answers with the slot that
/// held it.
pub fn cmd_pop<'a, 'b, T>(s: &'a mut StackVec<'b, T>, vec: &Vec<&str>) -> (r: Result<
    &'a mut T,
    CommandError,
>)
    ensures
        match pop_outcome(old(s)@, vec@) {
            Ok((rest, top)) => {
                &&& r.is_ok()
                &&& *r.unwrap() == top
                &&& final(s)@ == rest
                &&& final(s).slots() == old(s).slots().update(
                    rest.len() as int,
                    *final(r.unwrap()),
                )
            },
            Err(e) => {
                &&& r == Err::<&mut T, CommandError>(e)
                &&& final(s)@ == old(s)@
                &&& final(s).slots() == old(s).slots()
            },
        },
{
    if vec.len() != 1 {
        return Err(CommandError::Malformed);
    }
    match s.pop() {
        Ok(v) => Ok(v),
        Err(_) => Err(CommandError::Empty),
    }
}

} // verus!
