//! Laws that relate the operations to one another, proved over the model.

use crate::model::{
    accepted_pushes, after_pop, after_push, after_pushes, after_set, element_at, produced_from,
    step,
};
use crate::stack_vec::StackVecError;
use vstd::prelude::*;

verus! {

/// However many pushes are attempted, the length grows by exactly the number
/// of pushes that were accepted, and never passes the capacity it started
/// within.
pub proof fn length_counts_accepted_pushes<T>(live: Seq<T>, capacity: nat, values: Seq<T>)
    ensures
        after_pushes(live, capacity, values).len() == live.len() + accepted_pushes(
            live,
            capacity,
            values,
        ),
        live.len() <= capacity ==> after_pushes(live, capacity, values).len() <= capacity,
    decreases values.len(),
{
    if values.len() > 0 {
        match after_push(live, capacity, values.first()) {
            Ok(grown) => length_counts_accepted_pushes(grown, capacity, values.drop_first()),
            Err(_) => length_counts_accepted_pushes(live, capacity, values.drop_first()),
        }
    }
}

/// Pushes that together stay within the capacity are all accepted, and leave
/// the pushed values behind the earlier elements in the order of the pushes:
/// each can be read back at its index.
pub proof fn pushes_within_capacity_all_land<T>(live: Seq<T>, capacity: nat, values: Seq<T>)
    requires
        live.len() + values.len() <= capacity,
    ensures
        accepted_pushes(live, capacity, values) == values.len(),
        after_pushes(live, capacity, values) == live + values,
        forall|i: nat|
            i < live.len() ==> element_at(after_pushes(live, capacity, values), i)
                == Ok::<T, StackVecError>(live[i as int]),
        forall|i: nat|
            i < values.len() ==> element_at(
                after_pushes(live, capacity, values),
                live.len() + i,
            ) == Ok::<T, StackVecError>(values[i as int]),
    decreases values.len(),
{
    if values.len() == 0 {
        assert(live + values =~= live);
    } else {
        let grown = live.push(values.first());
        pushes_within_capacity_all_land(grown, capacity, values.drop_first());
        assert(grown + values.drop_first() =~= live + values);
    }
}

/// A push onto a stack that is not full, followed at once by a pop, hands
/// back the pushed value and leaves the elements as they were before.
pub proof fn push_then_pop_round_trip<T>(live: Seq<T>, capacity: nat, data: T)
    requires
        live.len() < capacity,
    ensures
        after_push(live, capacity, data).is_ok(),
        after_pop(after_push(live, capacity, data).unwrap())
            == Ok::<(Seq<T>, T), StackVecError>((live, data)),
{
    assert(live.push(data).drop_last() =~= live);
}

/// After a write at a live index, a read there gives the written value, a
/// read anywhere else gives what it gave before, and the length is the same.
pub proof fn set_then_get<T>(live: Seq<T>, index: nat, value: T, other: nat)
    requires
        index < live.len(),
    ensures
        after_set(live, index, value).is_ok(),
        after_set(live, index, value).unwrap().len() == live.len(),
        element_at(after_set(live, index, value).unwrap(), index)
            == Ok::<T, StackVecError>(value),
        other != index ==> element_at(after_set(live, index, value).unwrap(), other)
            == element_at(live, other),
{
}

/// A traversal that stands at `position` produces exactly the elements from
/// there to the end, in index order.
pub proof fn traversal_produces_the_rest<T>(items: Seq<T>, position: nat)
    requires
        position <= items.len(),
    ensures
        produced_from(items, position) == items.skip(position as int),
    decreases items.len() - position,
{
    if position < items.len() {
        traversal_produces_the_rest(items, (position + 1) as nat);
        assert(seq![items[position as int]] + items.skip(position as int + 1) =~= items.skip(
            position as int,
        ));
    } else {
        assert(items.skip(position as int) =~= Seq::<T>::empty());
    }
}

/// A fresh traversal of `items` produces as many elements as `items` has,
/// each equal to what a read at its index gives, and then reports the end
/// without moving on.
pub proof fn traversal_matches_reads<T>(items: Seq<T>)
    ensures
        produced_from(items, 0) == items,
        produced_from(items, 0).len() == items.len(),
        forall|i: nat|
            i < items.len() ==> element_at(items, i) == Ok::<T, StackVecError>(
                produced_from(items, 0)[i as int],
            ),
        step(items, items.len()) == (None::<T>, items.len()),
{
    traversal_produces_the_rest(items, 0);
    assert(items.skip(0) =~= items);
}

} // verus!
