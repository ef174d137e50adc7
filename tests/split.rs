use vec_split::accessors::{Accessor, AccessorMut, IterateAccessor, IterateAccessorMut};
use vec_split::{set_field, SizedVectorArray, SizedVectorArraySplit, Vector, VectorArray, VectorArraySplit};

#[test]
fn safe_accessor_vec() {
    let vec = vec![(1, 2), (3, 4), (5, 6)];
    let vec = vec.vec_split_safe();
    assert_eq!(vec[0].get(0).unwrap(), &1);
    assert_eq!(vec[1].get(0).unwrap(), &2);
    assert_eq!(vec[0].get(1).unwrap(), &3);
    assert_eq!(vec[1].get(1).unwrap(), &4);
    assert_eq!(vec[0].get(2).unwrap(), &5);
    assert_eq!(vec[1].get(2).unwrap(), &6);
    for dimension in vec {
        for i in 0..2 {
            println!("{}", dimension.get(i).unwrap());
        }
        println!();
    }
}

#[test]
fn fast_accessor_vec() {
    let vec = vec![(1, 2), (3, 4), (5, 6)];
    let vec = vec.vec_split_fast();
    assert_eq!(vec[0].get(0).unwrap(), &1);
    assert_eq!(vec[1].get(0).unwrap(), &2);
    assert_eq!(vec[0].get(1).unwrap(), &3);
    assert_eq!(vec[1].get(1).unwrap(), &4);
    assert_eq!(vec[0].get(2).unwrap(), &5);
    assert_eq!(vec[1].get(2).unwrap(), &6);
    for dimension in vec {
        for i in 0..2 {
            println!("{}", dimension.get(i).unwrap());
        }
        println!();
    }
}

#[test]
fn split_matches_element_fields() {
    let vec = vec![[1u32, 2, 3], [4, 5, 6], [7, 8, 9], [10, 11, 12]];
    let safe = vec.vec_split_safe();
    let fast = vec.vec_split_fast();
    assert_eq!(safe.len(), 3);
    assert_eq!(fast.len(), 3);
    for i in 0..4 {
        for d in 0..3 {
            let expected = VectorArray::get(&vec, i).unwrap().get(d).unwrap();
            assert_eq!(safe[d].get(i), Some(expected));
            assert_eq!(fast[d].get(i), Some(expected));
        }
    }
}

#[test]
fn iteration_yields_each_dimension_in_order() {
    let vec = vec![(1, 2), (3, 4), (5, 6)];
    let safe = vec.vec_split_safe();
    let fast = vec.vec_split_fast();
    let xs: Vec<i32> = safe[0].iter().collect_rest().into_iter().copied().collect();
    let ys: Vec<i32> = safe[1].iter().collect_rest().into_iter().copied().collect();
    assert_eq!(xs, vec![1, 3, 5]);
    assert_eq!(ys, vec![2, 4, 6]);
    let fxs: Vec<i32> = fast[0].iter().collect_rest().into_iter().copied().collect();
    let fys: Vec<i32> = fast[1].iter().collect_rest().into_iter().copied().collect();
    assert_eq!(fxs, xs);
    assert_eq!(fys, ys);
}

#[test]
fn iteration_stops_after_length() {
    let vec = vec![(1, 2), (3, 4), (5, 6)];
    let safe = vec.vec_split_safe();
    let mut it = safe[1].iter();
    assert_eq!(it.next(), Some(&2));
    assert_eq!(it.next(), Some(&4));
    assert_eq!(it.next(), Some(&6));
    assert_eq!(it.next(), None);
    assert_eq!(it.next(), None);
    let mut again = safe[1].iter();
    assert_eq!(again.next(), Some(&2));
}

#[test]
fn get_at_length_is_absent() {
    let vec = vec![(1, 2), (3, 4), (5, 6)];
    let safe = vec.vec_split_safe();
    let fast = vec.vec_split_fast();
    for d in 0..2 {
        assert_eq!(safe[d].get(3), None);
        assert_eq!(fast[d].get(3), None);
        assert_eq!(safe[d].get(usize::MAX), None);
        assert_eq!(fast[d].get(usize::MAX), None);
    }
}

#[test]
fn empty_array_has_no_values() {
    let vec: Vec<(u8, u8)> = Vec::new();
    assert!(vec.is_empty());
    let safe = vec.vec_split_safe();
    let fast = vec.vec_split_fast();
    assert_eq!(safe.len(), 2);
    assert_eq!(safe[0].get(0), None);
    assert_eq!(fast[1].get(0), None);
    assert_eq!(safe[0].iter().collect_rest().len(), 0);
}

#[test]
fn subscript_reads_the_field() {
    let arr = [(7u16, 8u16), (9, 10)];
    let safe = arr.vec_split_safe();
    let fast = arr.vec_split_fast();
    assert_eq!(*safe[1].index(1), 10);
    assert_eq!(*fast[0].index(1), 9);
}

#[test]
fn mutable_split_writes_back_to_array() {
    let mut array = [[0.0f64, 0.0]; 10];
    {
        let mut accs = array.vec_split_fast_mut();
        assert_eq!(accs.len(), 2);
        let mut y_array = accs.pop().unwrap();
        let mut x_array = accs.pop().unwrap();
        let mut it = x_array.iter_mut();
        let mut i: usize = 0;
        while let Some(item) = it.next() {
            *item = i as f64 / 10.0;
            i += 1;
        }
        assert_eq!(i, 10);
        let mut it = y_array.iter_mut();
        let mut i: usize = 0;
        while let Some(item) = it.next() {
            *item = i as f64 * 2.0;
            i += 1;
        }
        assert_eq!(i, 10);
        let xs: Vec<f64> = x_array.iter().collect_rest().into_iter().copied().collect();
        assert_eq!(xs.len(), 10);
    }
    for (i, item) in array.iter().enumerate() {
        assert_eq!(*item, [i as f64 / 10.0, i as f64 * 2.0]);
    }
}

#[test]
fn set_field_writes_one_field() {
    let mut vec = vec![(1, 2, 3), (4, 5, 6)];
    assert!(set_field(&mut vec, 2, 1, 60));
    assert_eq!(vec, vec![(1, 2, 3), (4, 5, 60)]);
    assert!(!set_field(&mut vec, 0, 2, 7));
    assert_eq!(vec, vec![(1, 2, 3), (4, 5, 60)]);
}

#[test]
fn safe_mutable_split_round_trip() {
    let mut vec = vec![(1, 2), (3, 4), (5, 6)];
    {
        let mut accs = vec.vec_split_safe_mut();
        *accs[0].get_mut(1).unwrap() = 30;
        *accs[1].index_mut(2) = 60;
        assert!(accs[1].get_mut(3).is_none());
    }
    assert_eq!(vec, vec![(1, 2), (30, 4), (5, 60)]);
}

#[test]
fn writing_one_dimension_leaves_the_other() {
    let mut vec = vec![(1, 2), (3, 4), (5, 6)];
    {
        let mut accs = vec.vec_split_fast_mut();
        let (first, second) = accs.split_at_mut(1);
        for i in 0..3 {
            let before = *second[0].get(i).unwrap();
            *first[0].get_mut(i).unwrap() = 100 + i as i32;
            assert_eq!(*second[0].get(i).unwrap(), before);
            assert_eq!(*first[0].get(i).unwrap(), 100 + i as i32);
        }
    }
    assert_eq!(vec, vec![(100, 2), (101, 4), (102, 6)]);
}

#[test]
fn mutable_slice_as_array() {
    let mut storage = vec![(1u8, 2u8), (3, 4)];
    let mut slice: &mut [(u8, u8)] = &mut storage[..];
    assert_eq!(SizedVectorArray::len(&slice), 2);
    {
        let mut accs = slice.vec_split_safe_mut();
        *accs[1].get_mut(0).unwrap() = 20;
    }
    let safe = slice.vec_split_safe();
    assert_eq!(safe[1].get(0), Some(&20));
    assert_eq!(storage, vec![(1, 20), (3, 4)]);
}

#[test]
fn vector_get_out_of_range() {
    let mut t = (1, 2);
    assert_eq!(t.get(2), None);
    assert!(t.get_mut(2).is_none());
    *t.get_mut(1).unwrap() = 5;
    assert_eq!(t, (1, 5));
    let mut a = [1, 2, 3];
    assert_eq!(Vector::<i32, 3>::get(&a, 3), None);
    *Vector::<i32, 3>::get_mut(&mut a, 0).unwrap() = 9;
    assert_eq!(a, [9, 2, 3]);
}

#[test]
fn container_get_mut_and_convert_index() {
    let mut vec = vec![[1, 2], [3, 4]];
    *VectorArray::<i32, 2, [i32; 2], usize>::get_mut(&mut vec, 1).unwrap() = [5, 6];
    assert_eq!(vec, vec![[1, 2], [5, 6]]);
    assert!(VectorArray::<i32, 2, [i32; 2], usize>::get_mut(&mut vec, 2).is_none());
    assert_eq!(SizedVectorArray::<i32, 2, [i32; 2], usize>::convert_index(&vec, 1), 1);
}
