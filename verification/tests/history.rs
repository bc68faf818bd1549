use f1_telemetry::history::{remember, HISTORY_CAPACITY};
use std::collections::VecDeque;

#[test]
fn history_grows_up_to_its_capacity() {
    let mut h: VecDeque<u32> = VecDeque::new();
    remember(&mut h, 1, 3);
    remember(&mut h, 2, 3);
    remember(&mut h, 3, 3);
    assert_eq!(h, VecDeque::from(vec![1, 2, 3]));
}

#[test]
fn history_drops_the_oldest_first() {
    let mut h: VecDeque<u32> = VecDeque::new();
    for record in 1..=5 {
        remember(&mut h, record, 3);
    }
    assert_eq!(h, VecDeque::from(vec![3, 4, 5]));
    remember(&mut h, 6, 3);
    assert_eq!(h, VecDeque::from(vec![4, 5, 6]));
}

#[test]
fn history_that_is_too_long_is_cut() {
    let mut h: VecDeque<u32> = VecDeque::from(vec![1, 2, 3, 4, 5, 6]);
    remember(&mut h, 7, 2);
    assert_eq!(h, VecDeque::from(vec![6, 7]));
    remember(&mut h, 8, 0);
    assert!(h.is_empty());
    remember(&mut h, 9, 1);
    remember(&mut h, 10, 1);
    assert_eq!(h, VecDeque::from(vec![10]));
}

#[test]
fn history_of_two_hundred() {
    assert_eq!(HISTORY_CAPACITY, 200);
    let mut h: VecDeque<usize> = VecDeque::new();
    for record in 0..450 {
        remember(&mut h, record, HISTORY_CAPACITY);
        assert!(h.len() <= HISTORY_CAPACITY);
    }
    assert_eq!(h.len(), 200);
    assert_eq!(h[0], 250);
    assert_eq!(h[199], 449);
}
