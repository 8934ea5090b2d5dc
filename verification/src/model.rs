//! What each operation does, said over the sequence of live elements.

use crate::stack_vec::StackVecError;
use vstd::prelude::*;

verus! {

/// The live elements after pushing `data` onto `live` in a buffer of
/// `capacity` slots, or the refusal when every slot is taken.
pub open spec fn after_push<T>(live: Seq<T>, capacity: nat, data: T) -> Result<
    Seq<T>,
    StackVecError,
> {
    if live.len() >= capacity {
        Err(StackVecError::CapacityExceeded)
    } else {
        Ok(live.push(data))
    }
}

/// The live elements that a pop leaves and the element it hands out, or the
/// refusal when there is none.
pub open spec fn after_pop<T>(live: Seq<T>) -> Result<(Seq<T>, T), StackVecError> {
    if live.len() == 0 {
        Err(StackVecError::Underflow)
    } else {
        Ok((live.drop_last(), live.last()))
    }
}

/// The element at `index`, or the refusal when `index` is not live.
pub open spec fn element_at<T>(live: Seq<T>, index: nat) -> Result<T, StackVecError> {
    if index >= live.len() {
        Err(StackVecError::IndexOutOfRange)
    } else {
        Ok(live[index as int])
    }
}

/// The live elements after writing `value` at `index`, or the refusal when
/// `index` is not live.
pub open spec fn after_set<T>(live: Seq<T>, index: nat, value: T) -> Result<
    Seq<T>,
    StackVecError,
> {
    if index >= live.len() {
        Err(StackVecError::IndexOutOfRange)
    } else {
        Ok(live.update(index as int, value))
    }
}

/// The live elements after pushing each of `values` in turn, a refused push
/// leaving them as they were.
pub open spec fn after_pushes<T>(live: Seq<T>, capacity: nat, values: Seq<T>) -> Seq<T>
    decreases values.len(),
{
    if values.len() == 0 {
        live
    } else {
        match after_push(live, capacity, values.first()) {
            Ok(grown) => after_pushes(grown, capacity, values.drop_first()),
            Err(_) => after_pushes(live, capacity, values.drop_first()),
        }
    }
}

/// How many of the pushes of `values` in turn are accepted.
pub open spec fn accepted_pushes<T>(live: Seq<T>, capacity: nat, values: Seq<T>) -> nat
    decreases values.len(),
{
    if values.len() == 0 {
        0
    } else {
        match after_push(live, capacity, values.first()) {
            Ok(grown) => 1 + accepted_pushes(grown, capacity, values.drop_first()),
            Err(_) => accepted_pushes(live, capacity, values.drop_first()),
        }
    }
}

/// One step of a traversal of `items` that stands at `position`: the element
/// produced, if any, and the position afterwards.
pub open spec fn step<T>(items: Seq<T>, position: nat) -> (Option<T>, nat) {
    if position >= items.len() {
        (None, position)
    } else {
        (Some(items[position as int]), position + 1)
    }
}

/// Everything that a traversal of `items` produces from `position` until it
/// first reports the end.
pub open spec fn produced_from<T>(items: Seq<T>, position: nat) -> Seq<T>
    decreases items.len() - position,
{
    match step(items, position) {
        (Some(item), next) => seq![item] + produced_from(items, next),
        (None, _) => Seq::empty(),
    }
}

} // verus!
