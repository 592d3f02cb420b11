use std::collections::VecDeque;
use try_push::{Element, TryPush};

#[test]
fn should_not_add_to_empty_vec_deque() {
    let mut vd = VecDeque::with_capacity(0);
    vd.push_back(1);
    vd.shrink_to_fit();
    assert_eq!(vd.capacity(), vd.len());
    assert_eq!(vd.try_push(1), Element::NotAdded(1));
}

#[test]
fn should_add_to_capable_vec_deque() {
    assert_eq!(VecDeque::with_capacity(10).try_push(1), Element::Added);
}

#[test]
fn should_not_add_front_to_empty_vec_deque() {
    let mut vd = VecDeque::with_capacity(0);
    vd.push_back(1);
    vd.shrink_to_fit();
    assert_eq!(vd.capacity(), vd.len());
    assert_eq!(vd.try_push_front(1), Element::NotAdded(1));
}

#[test]
fn should_add_front_to_capable_vec_deque() {
    assert_eq!(VecDeque::with_capacity(10).try_push_front(1), Element::Added);
}

#[test]
fn refused_append_leaves_zero_capacity_deque_empty() {
    let mut vd: VecDeque<i32> = VecDeque::with_capacity(0);
    assert_eq!(vd.capacity(), 0);
    assert_eq!(vd.try_push(1), Element::NotAdded(1));
    assert!(vd.is_empty());
}

#[test]
fn zero_capacity_deque_refuses_front() {
    let mut vd: VecDeque<i32> = VecDeque::with_capacity(0);
    assert_eq!(vd.try_push_front(1), Element::NotAdded(1));
    assert!(vd.is_empty());
}

#[test]
fn deque_with_room_appends_as_last_element() {
    let mut vd: VecDeque<i32> = VecDeque::with_capacity(4);
    vd.push_back(5);
    vd.push_back(6);
    assert_eq!(vd.try_push(7), Element::Added);
    assert_eq!(vd, VecDeque::from(vec![5, 6, 7]));
    assert_eq!(vd.back(), Some(&7));
}

#[test]
fn empty_capable_deque_takes_front_as_first_element() {
    let mut vd: VecDeque<i32> = VecDeque::with_capacity(10);
    assert_eq!(vd.try_push_front(1), Element::Added);
    assert_eq!(vd.len(), 1);
    assert_eq!(vd.front(), Some(&1));
}

#[test]
fn non_empty_deque_with_room_takes_front_as_first_element() {
    let mut vd: VecDeque<i32> = VecDeque::with_capacity(10);
    vd.push_back(2);
    vd.push_back(3);
    assert_eq!(vd.try_push_front(1), Element::Added);
    assert_eq!(vd, VecDeque::from(vec![1, 2, 3]));
    assert_eq!(vd.front(), Some(&1));
}

#[test]
fn full_deque_refuses_both_ends_and_keeps_its_elements() {
    let mut vd: VecDeque<i32> = VecDeque::with_capacity(3);
    while vd.len() < vd.capacity() {
        vd.push_back(7);
    }
    let before = vd.clone();
    assert_eq!(vd.try_push(9), Element::NotAdded(9));
    assert_eq!(vd, before);
    assert_eq!(vd.try_push_front(9), Element::NotAdded(9));
    assert_eq!(vd, before);
}

#[test]
fn accepted_deque_insertions_do_not_reallocate() {
    let mut vd: VecDeque<i32> = VecDeque::with_capacity(8);
    let capacity = vd.capacity();
    let mut front = true;
    loop {
        let out = if front { vd.try_push_front(1) } else { vd.try_push(2) };
        if out != Element::Added {
            break;
        }
        assert_eq!(vd.capacity(), capacity);
        front = !front;
    }
    assert_eq!(vd.len(), capacity);
    assert_eq!(vd.capacity(), capacity);
}

#[test]
fn full_deque_refuses_append_twice_alike() {
    let mut vd: VecDeque<i32> = VecDeque::from(vec![1, 2, 3]);
    vd.shrink_to_fit();
    assert_eq!(vd.capacity(), vd.len());
    assert_eq!(vd.try_push(4), Element::NotAdded(4));
    assert_eq!(vd, VecDeque::from(vec![1, 2, 3]));
    assert_eq!(vd.try_push(4), Element::NotAdded(4));
    assert_eq!(vd, VecDeque::from(vec![1, 2, 3]));
}

#[test]
fn full_deque_refuses_front_twice_alike() {
    let mut vd: VecDeque<i32> = VecDeque::from(vec![1, 2, 3]);
    vd.shrink_to_fit();
    assert_eq!(vd.capacity(), vd.len());
    assert_eq!(vd.try_push_front(0), Element::NotAdded(0));
    assert_eq!(vd, VecDeque::from(vec![1, 2, 3]));
    assert_eq!(vd.try_push_front(0), Element::NotAdded(0));
    assert_eq!(vd, VecDeque::from(vec![1, 2, 3]));
}

#[test]
fn refused_deque_hands_back_an_owned_element() {
    let mut vd: VecDeque<String> = VecDeque::with_capacity(0);
    match vd.try_push_front(String::from("kept")) {
        Element::NotAdded(back) => assert_eq!(back, "kept"),
        Element::Added => panic!("a deque without capacity took an element"),
    }
    assert!(vd.is_empty());
}
