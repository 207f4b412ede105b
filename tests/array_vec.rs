use const_arrayvec::{ArrayVec, CapacityError};
use std::cell::RefCell;
use std::rc::Rc;

#[test]
fn test_equal_to_expected_slice() {
    let mut vector: ArrayVec<u8, 10> = ArrayVec::new();
    vector.push(0);
    vector.push(1);
    vector.push(2);
    assert_eq!(vector.len(), 3);

    vector.try_insert(3, 3).unwrap();

    assert_eq!(vector.as_slice(), &[0, 1, 2, 3]);
    assert_eq!(vector.capacity(), 10);
}

#[test]
fn test_force_insert_and_remove() {
    let mut vector: ArrayVec<u8, 2> = ArrayVec::new();

    // force_insert
    vector.force_insert(0, 2);
    vector.force_insert(1, 4);
    vector.force_insert(0, 4);
    assert_eq!(vector.as_slice(), &[4, 2]);

    // remove
    assert_eq!(vector.remove(0), 4);
    assert_eq!(vector.as_slice(), &[2]);
    assert_eq!(vector.try_remove(1), None);
    assert_eq!(vector.remove(0), 2);
    assert_eq!(vector.len(), 0);

    // swap_remove
    vector = ArrayVec::from([2, 4]);
    assert_eq!(vector.swap_remove(0), 2);
    assert_eq!(vector.as_slice(), &[4]);
    assert_eq!(vector.try_swap_remove(1), None);
    assert_eq!(vector.swap_remove(0), 4);
    assert_eq!(vector.len(), 0);
}

#[test]
fn pushes_count_up_to_full() {
    let mut vector: ArrayVec<u32, 4> = ArrayVec::new();
    assert!(vector.is_empty());
    for i in 0..4u32 {
        assert!(!vector.is_full());
        vector.push(i * 10);
        assert_eq!(vector.len(), (i + 1) as usize);
        assert_eq!(vector.remaining_capacity(), 3 - i as usize);
    }
    assert!(vector.is_full());
    assert_eq!(vector.as_slice(), &[0, 10, 20, 30]);
}

#[test]
fn try_push_when_full_returns_item() {
    let mut vector: ArrayVec<u32, 2> = ArrayVec::new();
    assert!(vector.try_push(1).is_ok());
    assert!(vector.try_push(2).is_ok());
    assert!(vector.is_full());
    assert_eq!(vector.try_push(42), Err(CapacityError(42)));
    assert_eq!(vector.len(), 2);
    assert_eq!(vector.as_slice(), &[1, 2]);
}

#[test]
fn try_insert_when_full_returns_item() {
    let mut vector = ArrayVec::from([1, 2, 3]);
    assert!(vector.is_full());
    assert_eq!(vector.try_insert(1, 7), Err(CapacityError(7)));
    assert_eq!(vector.as_slice(), &[1, 2, 3]);
}

#[test]
fn insert_shifts_right() {
    let mut vector: ArrayVec<u32, 5> = ArrayVec::new();
    vector.push(12);
    vector.push(34);
    vector.try_insert(1, 56).unwrap();
    assert_eq!(vector.as_slice(), &[12, 56, 34]);
    vector.insert(0, 7);
    assert_eq!(vector.as_slice(), &[7, 12, 56, 34]);
    vector.insert_unchecked(4, 9);
    assert_eq!(vector.as_slice(), &[7, 12, 56, 34, 9]);
}

#[test]
fn insert_then_remove_round_trip() {
    let original = [5u32, 6, 7];
    for index in 0..=3usize {
        let mut vector: ArrayVec<u32, 4> = ArrayVec::new();
        for x in original {
            vector.push(x);
        }
        vector.insert(index, 99);
        assert_eq!(vector.as_slice()[index], 99);
        assert_eq!(vector.remove(index), 99);
        assert_eq!(vector.as_slice(), &original);
    }
}

#[test]
fn remove_keeps_order() {
    let mut vector = ArrayVec::from([4, 3, 2]);
    assert_eq!(vector.remove(1), 3);
    assert_eq!(vector.as_slice(), &[4, 2]);
    assert_eq!(vector.try_remove(24), None);
    assert_eq!(vector.as_slice(), &[4, 2]);
    assert_eq!(vector.remove_unchecked(0), 4);
    assert_eq!(vector.as_slice(), &[2]);
}

#[test]
fn swap_remove_moves_last_item() {
    let mut vector = ArrayVec::from([1, 2, 4]);
    assert_eq!(vector.swap_remove(0), 1);
    assert_eq!(vector.as_slice(), &[4, 2]);
    assert_eq!(vector.swap_remove(1), 2);
    assert_eq!(vector.as_slice(), &[4]);
    assert_eq!(vector.swap_remove_unchecked(0), 4);
    assert_eq!(vector.len(), 0);
    assert_eq!(vector.try_swap_remove(0), None);
}

#[test]
fn swap_remove_keeps_same_items() {
    let mut vector = ArrayVec::from([5, 1, 4, 1, 3]);
    let removed = vector.swap_remove(1);
    let mut left: Vec<i32> = vector.as_slice().to_vec();
    left.push(removed);
    left.sort();
    assert_eq!(left, vec![1, 1, 3, 4, 5]);
    assert_eq!(vector.as_slice(), &[5, 3, 4, 1]);
}

#[test]
fn force_insert_when_not_full() {
    let mut vector: ArrayVec<u8, 5> = ArrayVec::new();
    assert_eq!(vector.force_insert(0, 42), None);
    assert_eq!(vector.force_insert(0, 24), None);
    assert_eq!(vector.as_slice(), &[24, 42]);
}

#[test]
fn force_insert_when_full_evicts_last() {
    let mut vector = ArrayVec::from(["He".to_owned(), "ya".to_owned()]);
    let out = vector.force_insert(1, "llo".to_owned()).unwrap();
    assert_eq!(&out, "ya");
    assert_eq!(vector.as_slice(), &["He".to_owned(), "llo".to_owned()]);
    assert_eq!(vector.len(), 2);

    let mut numbers = ArrayVec::from([1, 2, 3]);
    assert_eq!(numbers.force_insert(0, 9), Some(3));
    assert_eq!(numbers.as_slice(), &[9, 1, 2]);
}

#[test]
fn pop_from_end() {
    let mut vector: ArrayVec<u32, 5> = ArrayVec::new();
    assert_eq!(vector.pop(), None);
    vector.push(12);
    vector.push(34);
    assert_eq!(vector.pop(), Some(34));
    assert_eq!(vector.len(), 1);
    assert_eq!(vector.pop(), Some(12));
    assert_eq!(vector.pop(), None);
}

#[test]
fn truncate_and_clear() {
    let mut vector = ArrayVec::from([1, 2, 3, 4]);
    vector.truncate(6);
    assert_eq!(vector.as_slice(), &[1, 2, 3, 4]);
    vector.truncate(2);
    assert_eq!(vector.as_slice(), &[1, 2]);
    vector.clear();
    assert!(vector.is_empty());
    assert_eq!(vector.remaining_capacity(), 4);
}

#[test]
fn extend_from_slice_all_or_nothing() {
    let mut vector: ArrayVec<u8, 4> = ArrayVec::new();
    assert_eq!(vector.try_extend_from_slice(&[1, 2, 3]), Ok(()));
    assert_eq!(vector.as_slice(), &[1, 2, 3]);
    assert_eq!(vector.try_extend_from_slice(&[4, 5]), Err(CapacityError(())));
    assert_eq!(vector.as_slice(), &[1, 2, 3]);
    assert_eq!(vector.try_extend_from_slice(&[4]), Ok(()));
    assert_eq!(vector.as_slice(), &[1, 2, 3, 4]);
    assert_eq!(vector.try_extend_from_slice(&[]), Ok(()));
}

#[test]
fn get_and_replace() {
    let mut vector = ArrayVec::from([10, 20, 30]);
    assert_eq!(*vector.get(1), 20);
    assert_eq!(vector.replace(1, 25), 20);
    assert_eq!(vector.as_slice(), &[10, 25, 30]);
}

#[test]
fn default_clone_and_from() {
    let empty: ArrayVec<u16, 3> = ArrayVec::default();
    assert!(empty.is_empty());
    let full = ArrayVec::from([7u16, 8, 9]);
    assert!(full.is_full());
    let copy = full.clone();
    assert_eq!(copy.as_slice(), &[7, 8, 9]);
    assert_eq!(full.as_slice(), &[7, 8, 9]);
}

#[test]
fn drain_consumed_fully() {
    let mut vector = ArrayVec::from([1, 2, 3, 4, 5, 6]);
    let mut drain = vector.drain(1..4);
    assert_eq!(drain.len(), 3);
    assert_eq!(drain.next(), Some(2));
    assert_eq!(drain.next(), Some(3));
    assert_eq!(drain.next(), Some(4));
    assert_eq!(drain.next(), None);
    drop(drain);
    assert_eq!(vector.as_slice(), &[1, 5, 6]);
}

#[test]
fn drain_abandoned_early() {
    let mut vector = ArrayVec::from([1, 2, 3, 4, 5, 6]);
    let mut drain = vector.drain(2..5);
    assert_eq!(drain.next(), Some(3));
    drop(drain);
    assert_eq!(vector.as_slice(), &[1, 2, 6]);
    assert_eq!(vector.len(), 3);

    let untouched = vector.drain(0..0);
    assert_eq!(untouched.len(), 0);
    drop(untouched);
    assert_eq!(vector.as_slice(), &[1, 2, 6]);

    let all = vector.drain(0..3);
    drop(all);
    assert!(vector.is_empty());
}

struct Recorded {
    id: u32,
    log: Rc<RefCell<Vec<u32>>>,
}

impl Drop for Recorded {
    fn drop(&mut self) {
        self.log.borrow_mut().push(self.id);
    }
}

#[test]
fn drop_tears_down_each_item_once_in_order() {
    let log = Rc::new(RefCell::new(Vec::new()));
    let mut vector: ArrayVec<Recorded, 5> = ArrayVec::new();
    for id in 0..3 {
        vector.push(Recorded { id, log: log.clone() });
    }
    assert!(log.borrow().is_empty());
    drop(vector);
    assert_eq!(*log.borrow(), vec![0, 1, 2]);
}

#[test]
fn drain_drops_unyielded_items_in_order() {
    let log = Rc::new(RefCell::new(Vec::new()));
    let mut vector: ArrayVec<Recorded, 6> = ArrayVec::new();
    for id in 0..6 {
        vector.push(Recorded { id, log: log.clone() });
    }
    let mut drain = vector.drain(1..5);
    let first = drain.next().unwrap();
    assert_eq!(first.id, 1);
    drop(drain);
    assert_eq!(*log.borrow(), vec![2, 3, 4]);
    drop(first);
    let ids: Vec<u32> = vector.as_slice().iter().map(|r| r.id).collect();
    assert_eq!(ids, vec![0, 5]);
}

#[test]
fn capacity_error_describes_itself() {
    let mut vector: ArrayVec<u8, 1> = ArrayVec::new();
    vector.push(1);
    let err = vector.try_push(2).unwrap_err();
    assert_eq!(err, CapacityError(2));
    assert_eq!(err.to_string(), "Insufficient capacity");
}
