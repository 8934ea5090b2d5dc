use stackvec::{StackVec, StackVecError};

#[test]
fn fresh_stack_is_empty_and_reports_buffer_length() {
    let mut store: [f64; 5] = [7.5; 5];
    let s = StackVec::new(&mut store);
    assert_eq!(s.size(), 0);
    assert_eq!(s.buffer_size(), 5);
    assert_eq!(s.get(0), Err(StackVecError::IndexOutOfRange));
}

#[test]
fn capacity_five_walkthrough() {
    let mut store: [f64; 5] = [0.0; 5];
    let mut s = StackVec::new(&mut store);
    assert_eq!(s.push(1.0), Ok(()));
    assert_eq!(s.push(2.0), Ok(()));
    assert_eq!(s.push(3.0), Ok(()));
    assert_eq!(s.size(), 3);
    assert_eq!(s.push(4.0), Ok(()));
    assert_eq!(s.push(5.0), Ok(()));
    assert_eq!(s.size(), 5);
    assert_eq!(s.push(6.0), Err(StackVecError::CapacityExceeded));
    assert_eq!(s.size(), 5);
    assert_eq!(s.pop(), Ok(&mut 5.0));
    assert_eq!(s.size(), 4);
    assert_eq!(s.get(3), Ok(&4.0));
    assert_eq!(s.set(0, 9.0), Ok(()));
    assert_eq!(s.get(0), Ok(&9.0));
    let mut seen: Vec<f64> = Vec::new();
    let mut it = s.iter();
    while let Some(item) = it.next() {
        seen.push(*item);
    }
    assert_eq!(seen, vec![9.0, 2.0, 3.0, 4.0]);
}

#[test]
fn capacity_zero_refuses_everything() {
    let mut store: [f64; 0] = [];
    let mut s = StackVec::new(&mut store);
    assert_eq!(s.push(1.0), Err(StackVecError::CapacityExceeded));
    assert_eq!(s.pop(), Err(StackVecError::Underflow));
    assert_eq!(s.size(), 0);
    assert_eq!(s.buffer_size(), 0);
    assert!(s.iter().next().is_none());
}

#[test]
fn length_equals_number_of_accepted_pushes() {
    let mut store: [u32; 4] = [0; 4];
    let mut s = StackVec::new(&mut store);
    let mut accepted: usize = 0;
    for v in 10..17u32 {
        if s.push(v).is_ok() {
            accepted += 1;
        }
        assert_eq!(s.size(), accepted);
    }
    assert_eq!(accepted, 4);
    for i in 0..4usize {
        assert_eq!(s.get(i), Ok(&(10 + i as u32)));
    }
}

#[test]
fn push_on_full_changes_nothing() {
    let mut store: [i32; 2] = [0; 2];
    let mut s = StackVec::new(&mut store);
    s.push(-1).unwrap();
    s.push(-2).unwrap();
    assert_eq!(s.push(-3), Err(StackVecError::CapacityExceeded));
    assert_eq!(s.size(), 2);
    assert_eq!(s.buffer_size(), 2);
    assert_eq!(s.get(0), Ok(&-1));
    assert_eq!(s.get(1), Ok(&-2));
}

#[test]
fn pop_on_empty_changes_nothing() {
    let mut store: [i32; 2] = [0; 2];
    let mut s = StackVec::new(&mut store);
    assert_eq!(s.pop(), Err(StackVecError::Underflow));
    assert_eq!(s.size(), 0);
    s.push(4).unwrap();
    assert_eq!(s.pop(), Ok(&mut 4));
    assert_eq!(s.pop(), Err(StackVecError::Underflow));
    assert_eq!(s.size(), 0);
}

#[test]
fn push_then_pop_restores_the_stack() {
    let mut store: [u8; 3] = [0; 3];
    let mut s = StackVec::new(&mut store);
    s.push(1).unwrap();
    let before = s.size();
    s.push(200).unwrap();
    assert_eq!(s.pop(), Ok(&mut 200));
    assert_eq!(s.size(), before);
    assert_eq!(s.get(0), Ok(&1));
    assert_eq!(s.get(1), Err(StackVecError::IndexOutOfRange));
}

#[test]
fn index_beyond_length_is_refused_even_within_capacity() {
    let mut store: [u16; 8] = [3; 8];
    let mut s = StackVec::new(&mut store);
    s.push(1).unwrap();
    s.push(2).unwrap();
    assert_eq!(s.get(2), Err(StackVecError::IndexOutOfRange));
    assert_eq!(s.get(7), Err(StackVecError::IndexOutOfRange));
    assert_eq!(s.get(8), Err(StackVecError::IndexOutOfRange));
    assert_eq!(s.get(usize::MAX), Err(StackVecError::IndexOutOfRange));
    assert_eq!(s.set(2, 9), Err(StackVecError::IndexOutOfRange));
    assert_eq!(s.set(usize::MAX, 9), Err(StackVecError::IndexOutOfRange));
    assert_eq!(s.size(), 2);
    assert_eq!(s.get(0), Ok(&1));
    assert_eq!(s.get(1), Ok(&2));
}

#[test]
fn set_cannot_extend_the_stack() {
    let mut store: [u16; 2] = [0; 2];
    let mut s = StackVec::new(&mut store);
    assert_eq!(s.set(0, 5), Err(StackVecError::IndexOutOfRange));
    assert_eq!(s.size(), 0);
}

#[test]
fn set_touches_one_slot_only() {
    let mut store: [i64; 3] = [0; 3];
    let mut s = StackVec::new(&mut store);
    s.push(1).unwrap();
    s.push(2).unwrap();
    s.push(3).unwrap();
    assert_eq!(s.set(1, 20), Ok(()));
    assert_eq!(s.get(0), Ok(&1));
    assert_eq!(s.get(1), Ok(&20));
    assert_eq!(s.get(2), Ok(&3));
    assert_eq!(s.size(), 3);
}

#[test]
fn push_overwrites_the_stale_slot() {
    let mut store: [i64; 2] = [0; 2];
    let mut s = StackVec::new(&mut store);
    s.push(1).unwrap();
    s.push(2).unwrap();
    assert_eq!(s.pop(), Ok(&mut 2));
    s.push(7).unwrap();
    assert_eq!(s.get(1), Ok(&7));
    assert_eq!(s.size(), 2);
}

#[test]
fn indexing_reads_live_elements() {
    let mut store: [i64; 3] = [0; 3];
    let mut s = StackVec::new(&mut store);
    s.push(11).unwrap();
    s.push(12).unwrap();
    assert_eq!(s[0], 11);
    assert_eq!(s[1], 12);
}

#[test]
fn index_assignment_overwrites_a_live_element() {
    let mut store: [i64; 3] = [0; 3];
    let mut s = StackVec::new(&mut store);
    s.push(11).unwrap();
    s.push(12).unwrap();
    s[1] = 40;
    assert_eq!(s[0], 11);
    assert_eq!(s[1], 40);
    assert_eq!(s.get(1), Ok(&40));
    assert_eq!(s.size(), 2);
}

#[test]
fn popped_slot_stays_writable_but_is_no_longer_live() {
    let mut store: [i64; 2] = [0; 2];
    {
        let mut s = StackVec::new(&mut store);
        s.push(1).unwrap();
        s.push(2).unwrap();
        let slot = s.pop().unwrap();
        assert_eq!(*slot, 2);
        *slot = 50;
        assert_eq!(s.size(), 1);
        assert_eq!(s.get(1), Err(StackVecError::IndexOutOfRange));
        assert_eq!(s.get(0), Ok(&1));
    }
    assert_eq!(store, [1, 50]);
}

#[test]
fn traversal_matches_get_and_then_ends() {
    let mut store: [u32; 6] = [99; 6];
    let mut s = StackVec::new(&mut store);
    for v in [5u32, 6, 7] {
        s.push(v).unwrap();
    }
    let mut it = s.iter();
    for i in 0..s.size() {
        assert_eq!(it.next(), Some(s.get(i).unwrap()));
    }
    assert_eq!(it.next(), None);
    assert_eq!(it.next(), None);
}

#[test]
fn traversal_can_be_started_again_and_follows_mutation() {
    let mut store: [u32; 3] = [0; 3];
    let mut s = StackVec::new(&mut store);
    s.push(1).unwrap();
    {
        let mut it = s.iter();
        assert_eq!(it.next(), Some(&1));
        assert_eq!(it.next(), None);
    }
    s.push(2).unwrap();
    let mut it = s.iter();
    assert_eq!(it.next(), Some(&1));
    assert_eq!(it.next(), Some(&2));
    assert_eq!(it.next(), None);
}

#[test]
fn buffer_is_left_to_its_owner() {
    let mut store: [u32; 3] = [0; 3];
    {
        let mut s = StackVec::new(&mut store);
        s.push(4).unwrap();
        s.push(5).unwrap();
        s.pop().unwrap();
    }
    assert_eq!(store, [4, 5, 0]);
}
