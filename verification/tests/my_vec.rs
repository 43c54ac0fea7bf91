use custom_vec::MyVec;
use std::cell::RefCell;
use std::rc::Rc;

/// The least of 4, 8, 16, ... that is at least `len`.
fn least_capacity(len: usize) -> usize {
    let mut capacity: usize = 4;
    while capacity < len {
        capacity *= 2;
    }
    capacity
}

fn filled(count: usize) -> MyVec<usize> {
    let mut vec = MyVec::<usize>::new();
    for value in 0..count {
        assert!(vec.can_push());
        vec.push(value);
    }
    vec
}

#[test]
fn it_works() {
    let mut vec = MyVec::<usize>::new();
    vec.push(1usize);
    vec.push(2usize);
    vec.push(3usize);
    vec.push(4usize);
    vec.push(5usize);

    assert_eq!(*vec.get(3).unwrap(), 4usize);

    assert_eq!(vec.capacity(), 8);
    assert_eq!(vec.length(), 5);
}

#[test]
fn new_vector_is_empty_and_unallocated() {
    let vec = MyVec::<usize>::new();
    assert_eq!(vec.get(0), None);
    assert_eq!(vec.length(), 0);
    assert_eq!(vec.capacity(), 0);
}

#[test]
fn five_pushes() {
    let mut vec = MyVec::<i32>::new();
    for value in [1, 2, 3, 4, 5] {
        vec.push(value);
    }
    assert_eq!(vec.length(), 5);
    assert_eq!(vec.capacity(), 8);
    assert_eq!(vec.get(3), Some(&4));
    assert_eq!(vec.get(0), Some(&1));
    assert_eq!(vec.get(5), None);
}

#[test]
fn first_push_allocates_four_slots() {
    let mut vec = MyVec::<u8>::new();
    vec.push(9);
    assert_eq!(vec.length(), 1);
    assert_eq!(vec.capacity(), 4);
    assert_eq!(vec.get(0), Some(&9));
    assert_eq!(vec.get(1), None);
}

#[test]
fn push_into_spare_capacity_keeps_the_buffer() {
    let mut vec = filled(1);
    for expected_length in 2..=4 {
        vec.push(0);
        assert_eq!(vec.length(), expected_length);
        assert_eq!(vec.capacity(), 4);
    }
}

#[test]
fn push_into_full_buffer_doubles_it() {
    let mut vec = filled(4);
    assert_eq!(vec.capacity(), 4);
    vec.push(4);
    assert_eq!(vec.capacity(), 8);
    let mut vec = filled(8);
    assert_eq!(vec.capacity(), 8);
    vec.push(8);
    assert_eq!(vec.capacity(), 16);
    assert_eq!(vec.length(), 9);
    let mut vec = filled(16);
    assert_eq!(vec.capacity(), 16);
    vec.push(16);
    assert_eq!(vec.capacity(), 32);
}

#[test]
fn length_counts_pushes_and_capacity_holds_them() {
    let mut vec = MyVec::<usize>::new();
    for count in 1..=300 {
        vec.push(count);
        assert_eq!(vec.length(), count);
        assert!(vec.capacity() >= count);
    }
}

#[test]
fn capacity_is_least_doubling_of_four() {
    let mut vec = MyVec::<u16>::new();
    for count in 1..=1100usize {
        vec.push(0);
        assert_eq!(vec.capacity(), least_capacity(count));
    }
    assert_eq!(vec.capacity(), 2048);
}

#[test]
fn values_survive_growth() {
    let mut vec = MyVec::<String>::new();
    for value in 0..100 {
        vec.push(format!("item {}", value));
        for index in 0..=value {
            assert_eq!(vec.get(index), Some(&format!("item {}", index)));
        }
    }
    assert_eq!(vec.capacity(), 128);
}

#[test]
fn get_beyond_length_is_absent() {
    let vec = filled(5);
    assert_eq!(vec.get(4), Some(&4));
    assert_eq!(vec.get(5), None);
    assert_eq!(vec.get(6), None);
    assert_eq!(vec.get(7), None);
    assert_eq!(vec.get(8), None);
    assert_eq!(vec.get(usize::MAX), None);
    let empty = MyVec::<usize>::new();
    assert_eq!(empty.get(0), None);
    assert_eq!(empty.get(1), None);
    assert_eq!(empty.get(usize::MAX), None);
}

#[test]
fn get_does_not_change_the_vector() {
    let vec = filled(6);
    assert_eq!(vec.get(2), Some(&2));
    assert_eq!(vec.get(2), Some(&2));
    assert_eq!(vec.get(9), None);
    assert_eq!(vec.length(), 6);
    assert_eq!(vec.capacity(), 8);
}

struct Recorded {
    id: usize,
    log: Rc<RefCell<Vec<usize>>>,
}

impl Drop for Recorded {
    fn drop(&mut self) {
        self.log.borrow_mut().push(self.id);
    }
}

#[test]
fn drop_releases_each_element_once_in_index_order() {
    let log = Rc::new(RefCell::new(Vec::new()));
    {
        let mut vec = MyVec::<Recorded>::new();
        for id in 0..11 {
            vec.push(Recorded { id, log: Rc::clone(&log) });
        }
        assert_eq!(vec.length(), 11);
        assert_eq!(vec.capacity(), 16);
        assert_eq!(vec.get(7).map(|element| element.id), Some(7));
        // Growth moved the elements twice and dropped none of them.
        assert!(log.borrow().is_empty());
    }
    assert_eq!(*log.borrow(), vec![0, 1, 2, 3, 4, 5, 6, 7, 8, 9, 10]);
    assert_eq!(Rc::strong_count(&log), 1);
}

#[test]
fn drop_of_empty_vector_releases_nothing() {
    let log: Rc<RefCell<Vec<usize>>> = Rc::new(RefCell::new(Vec::new()));
    {
        let vec = MyVec::<Recorded>::new();
        assert_eq!(vec.length(), 0);
    }
    assert!(log.borrow().is_empty());
}

#[test]
fn zero_sized_elements_are_refused() {
    let vec = MyVec::<()>::new();
    assert!(!vec.can_push());
    assert_eq!(vec.capacity(), 0);
    assert_eq!(vec.length(), 0);
    assert_eq!(vec.get(0), None);
    let markers = MyVec::<[u64; 0]>::new();
    assert!(!markers.can_push());
}

#[test]
fn sized_elements_are_accepted() {
    let mut vec = MyVec::<u8>::new();
    for _ in 0..9 {
        assert!(vec.can_push());
        vec.push(1);
    }
    assert!(vec.can_push());
    assert_eq!(vec.capacity(), 16);
}

const LARGE: usize = usize::MAX / 16 + 1;

const LARGEST: usize = usize::MAX / 8;

#[test]
fn first_buffer_of_large_elements_is_within_the_limit() {
    // The compiler admits no type of more than `LARGEST` bytes, and four
    // elements of that size are still within `isize::MAX` bytes.
    let vec = MyVec::<[u8; LARGE]>::new();
    assert!(vec.can_push());
    let vec = MyVec::<[u8; LARGEST]>::new();
    assert!(vec.can_push());
    assert_eq!(vec.capacity(), 0);
}
