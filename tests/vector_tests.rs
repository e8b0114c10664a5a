use std::cell::Cell;
use std::cmp::Ordering;
use std::rc::Rc;

use vector::Vector;

#[test]
fn test_basic_functions() {
    let mut vector = Vector::new();
    vector.push(76);
    vector.push(77);
    assert_eq!(vector.len(), 2);
    assert_eq!(vector.pop(), 77);
    assert_eq!(vector.len(), 1);
    for i in 0..3 {
        vector.push(i);
    }
    assert_eq!(vector.len(), 4);
    assert_eq!(vector, vec![76, 0, 1, 2]);
    vector.delete_inplace(0);
    assert_eq!(vector.len(), 3);
    assert_eq!(vector, vec![0, 1, 2]);
}

#[test]
fn test_macros() {
    let mut vector = Vector::new();
    vector.push(1);
    vector.push(2);
    vector.push(3);
    vector.push(4);
    vector.push(5);
    let mut vector_two = Vector::new();
    vector_two.push(1 + 0);
    vector_two.push({
        let val = 1 + 4;
        val
    });
    vector_two.push(18 / 3);
    assert_eq!(vector, vec![1, 2, 3, 4, 5]);
    assert_eq!(
        vector_two,
        vec![
            1 + 0,
            {
                let val = 1 + 4;
                val
            },
            18 / 3
        ]
    )
}

#[test]
fn pushes_give_length_and_order() {
    let mut v = Vector::new();
    assert_eq!(v.len(), 0);
    for i in 0..7u32 {
        v.push(i * 3);
        assert_eq!(v.len(), (i + 1) as usize);
    }
    assert_eq!(v.as_slice(), &[0, 3, 6, 9, 12, 15, 18][..]);
}

#[test]
fn from_vec_keeps_order() {
    let v = Vector::from_vec(vec![5, 4, 9, 1]);
    assert_eq!(v.len(), 4);
    assert_eq!(v.as_slice(), &[5, 4, 9, 1][..]);
    let empty: Vector<u8> = Vector::from_vec(Vec::new());
    assert_eq!(empty.len(), 0);
}

#[test]
fn push_then_pop_is_identity() {
    let mut v = Vector::from_vec(vec![1, 2, 3]);
    v.push(42);
    assert_eq!(v.pop(), 42);
    assert_eq!(v.len(), 3);
    assert_eq!(v, vec![1, 2, 3]);
}

#[test]
fn delete_shifts_later_elements_left() {
    let mut v = Vector::from_vec(vec![10, 20, 30, 40, 50]);
    v.delete_inplace(2);
    assert_eq!(v, vec![10, 20, 40, 50]);
    v.delete_inplace(3);
    assert_eq!(v, vec![10, 20, 40]);
}

#[test]
fn delete_past_end_is_noop() {
    let mut v = Vector::from_vec(vec![1, 2, 3]);
    v.delete_inplace(3);
    v.delete_inplace(100);
    assert_eq!(v.len(), 3);
    assert_eq!(v, vec![1, 2, 3]);
    let mut empty: Vector<i32> = Vector::new();
    empty.delete_inplace(0);
    assert_eq!(empty.len(), 0);
}

#[test]
fn replace_changes_one_position() {
    let mut v = Vector::from_vec(vec![1, 2, 3, 4]);
    v.replace(1, 99);
    assert_eq!(v, vec![1, 99, 3, 4]);
    v.replace(4, 7);
    assert_eq!(v, vec![1, 99, 3, 4]);
}

#[test]
fn get_reads_without_removing() {
    let v = Vector::from_vec(vec![7, 8, 9]);
    assert_eq!(v.get(0), 7);
    assert_eq!(v.get(2), 9);
    assert_eq!(v.get_unchecked(1), 8);
    assert_eq!(v.len(), 3);
    assert_eq!(v.get_result(1), Some(8));
    assert_eq!(v.get_result(3), None);
    assert_eq!(*v.get_as_ref(2), 9);
}

#[test]
fn equality_against_vec_and_slice() {
    let v = Vector::from_vec(vec![1, 2, 3]);
    assert!(v == vec![1, 2, 3]);
    assert!(v != vec![1, 2]);
    assert!(v != vec![1, 2, 3, 4]);
    assert!(v != vec![1, 5, 3]);
    assert!(v == *[1, 2, 3].as_slice());
    assert!(v == Vector::from_vec(vec![1, 2, 3]));
    assert!(v != Vector::from_vec(vec![3, 2, 1]));
    let empty: Vector<i32> = Vector::new();
    assert!(empty == Vec::<i32>::new());
}

#[test]
fn ordering_is_lexicographic() {
    let v = Vector::from_vec(vec![1, 2, 3]);
    assert_eq!(v.partial_cmp(&vec![1, 2, 4]), Some(Ordering::Less));
    assert_eq!(v.partial_cmp(&vec![1, 2]), Some(Ordering::Greater));
    assert_eq!(v.partial_cmp(&vec![1, 2, 3, 0]), Some(Ordering::Less));
    assert_eq!(v.partial_cmp(&vec![1, 2, 3]), Some(Ordering::Equal));
    assert_eq!(v.partial_cmp(&vec![0, 9, 9, 9]), Some(Ordering::Greater));
    assert!(v < Vector::from_vec(vec![2]));
    assert_eq!(v.partial_cmp([1, 2, 3].as_slice()), Some(Ordering::Equal));
}

struct Counted {
    drops: Rc<Cell<usize>>,
}

impl Drop for Counted {
    fn drop(&mut self) {
        self.drops.set(self.drops.get() + 1);
    }
}

#[test]
fn destruction_finalizes_each_element_once() {
    let drops = Rc::new(Cell::new(0));
    {
        let mut v = Vector::new();
        for _ in 0..5 {
            v.push(Counted { drops: drops.clone() });
        }
        assert_eq!(drops.get(), 0);
    }
    assert_eq!(drops.get(), 5);
}

#[test]
fn delete_and_replace_finalize_the_old_element() {
    let drops = Rc::new(Cell::new(0));
    let mut v = Vector::new();
    for _ in 0..4 {
        v.push(Counted { drops: drops.clone() });
    }
    v.delete_inplace(1);
    assert_eq!(drops.get(), 1);
    v.replace(0, Counted { drops: drops.clone() });
    assert_eq!(drops.get(), 2);
    let popped = v.pop();
    assert_eq!(drops.get(), 2);
    drop(popped);
    assert_eq!(drops.get(), 3);
    drop(v);
    assert_eq!(drops.get(), 5);
}

#[test]
fn growth_keeps_values_and_order() {
    let mut v = Vector::new();
    assert_eq!(v.capacity(), 0);
    v.push(1);
    assert_eq!(v.capacity(), 1);
    v.push(2);
    assert_eq!(v.capacity(), 2);
    v.push(3);
    assert_eq!(v.capacity(), 4);
    for i in 4..=10 {
        v.push(i);
    }
    assert_eq!(v.capacity(), 16);
    assert_eq!(v, vec![1, 2, 3, 4, 5, 6, 7, 8, 9, 10]);
    v.pop();
    v.delete_inplace(0);
    assert_eq!(v.capacity(), 16);
}

#[test]
fn iteration_from_both_ends() {
    let mut it = Vector::from_vec(vec![1, 2, 3, 4]).into_iter();
    assert_eq!(it.next(), Some(1));
    assert_eq!(it.next_back(), Some(4));
    assert_eq!(it.next(), Some(2));
    assert_eq!(it.next(), Some(3));
    assert_eq!(it.next(), None);
    assert_eq!(it.next_back(), None);
    let mut one = Vector::from_vec(vec![9]).into_iter();
    assert_eq!(one.next_back(), Some(9));
    assert_eq!(one.next(), None);
    let mut none = Vector::<u8>::new().into_iter();
    assert_eq!(none.next(), None);
}

#[test]
fn ranges_and_mutable_views() {
    let mut v = Vector::from_vec(vec![1, 2, 3, 4, 5]);
    assert_eq!(v.get_range(1..3), &[2, 3][..]);
    assert_eq!(v.get_range(0..5), &[1, 2, 3, 4, 5][..]);
    assert_eq!(v.get_range(5..5).len(), 0);
    v.get_range_mut(3..5)[0] = 40;
    assert_eq!(v, vec![1, 2, 3, 40, 5]);
    *v.get_as_ref_mut(0) = 10;
    v.as_slice_mut()[4] = 50;
    assert_eq!(v, vec![10, 2, 3, 40, 50]);
}

#[test]
fn indexing_and_slice_views() {
    let v = Vector::from_vec(vec![4, 5, 6]);
    assert_eq!(v[1], 5);
    assert_eq!(&v[0..2], &[4, 5][..]);
    assert_eq!(v.first(), Some(&4));
    assert_eq!(v.iter().sum::<i32>(), 15);
    let mut w = Vector::from_vec(vec![3, 1, 2]);
    w.sort();
    assert_eq!(w, vec![1, 2, 3]);
}
