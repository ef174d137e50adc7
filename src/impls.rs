//! The vector and array capabilities for std's aggregates: tuples and arrays
//! as vectors; `Vec`, mutable slices and arrays as arrays of vectors.
use vstd::prelude::*;

use crate::columns::{item_mut, split_items_mut};
use crate::{RawVector, SizedVectorArray, Vector, VectorArray};

verus! {

impl<T, const D: usize, V: Vector<T, D>> VectorArray<T, D, V, usize> for Vec<V> {
    open spec fn spec_elems(&self) -> Seq<V> {
        self@
    }

    open spec fn spec_offset(&self, index: usize) -> usize {
        index
    }

    fn get(&self, index: usize) -> (r: Option<&V>) {
        if index < self.len() {
            Some(&self[index])
        } else {
            None
        }
    }

    fn get_mut(&mut self, index: usize) -> (r: Option<&mut V>) {
        if index < self.len() {
            Some(item_mut(self.as_mut_slice(), index))
        } else {
            None
        }
    }

    fn elems_mut(&mut self) -> (r: &mut [V]) {
        self.as_mut_slice()
    }
}

impl<T, const D: usize, V: RawVector<T, D>> SizedVectorArray<T, D, V, usize> for Vec<V> {
    fn ptr(&self) -> (r: &[V]) {
        self.as_slice()
    }

    fn ptr_mut(&mut self) -> (r: &mut [V]) {
        self.as_mut_slice()
    }

    fn len(&self) -> (r: usize) {
        Vec::len(self)
    }

    fn convert_index(&self, index: usize) -> (r: usize) {
        index
    }
}

impl<'s, T, const D: usize, V: Vector<T, D>> VectorArray<T, D, V, usize> for &'s mut [V] {
    open spec fn spec_elems(&self) -> Seq<V> {
        (**self)@
    }

    open spec fn spec_offset(&self, index: usize) -> usize {
        index
    }

    fn get(&self, index: usize) -> (r: Option<&V>) {
        if index < (**self).len() {
            Some(&(**self)[index])
        } else {
            None
        }
    }

    fn get_mut(&mut self, index: usize) -> (r: Option<&mut V>) {
        if index < (**self).len() {
            Some(item_mut(&mut **self, index))
        } else {
            None
        }
    }

    fn elems_mut(&mut self) -> (r: &mut [V]) {
        &mut **self
    }
}

impl<'s, T, const D: usize, V: RawVector<T, D>> SizedVectorArray<T, D, V, usize> for &'s mut [V] {
    fn ptr(&self) -> (r: &[V]) {
        &**self
    }

    fn ptr_mut(&mut self) -> (r: &mut [V]) {
        &mut **self
    }

    fn len(&self) -> (r: usize) {
        (**self).len()
    }

    fn convert_index(&self, index: usize) -> (r: usize) {
        index
    }
}

impl<T, const D: usize, V: Vector<T, D>, const A: usize> VectorArray<T, D, V, usize> for [V; A] {
    open spec fn spec_elems(&self) -> Seq<V> {
        self@
    }

    open spec fn spec_offset(&self, index: usize) -> usize {
        index
    }

    fn get(&self, index: usize) -> (r: Option<&V>) {
        if index < A {
            Some(&self[index])
        } else {
            None
        }
    }

    fn get_mut(&mut self, index: usize) -> (r: Option<&mut V>) {
        if index < A {
            let s: &mut [V] = self;
            Some(item_mut(s, index))
        } else {
            None
        }
    }

    fn elems_mut(&mut self) -> (r: &mut [V]) {
        self
    }
}

impl<T, const D: usize, V: RawVector<T, D>, const A: usize> SizedVectorArray<T, D, V, usize> for [V; A] {
    fn ptr(&self) -> (r: &[V]) {
        self.as_slice()
    }

    fn ptr_mut(&mut self) -> (r: &mut [V]) {
        self
    }

    fn len(&self) -> (r: usize) {
        A
    }

    fn convert_index(&self, index: usize) -> (r: usize) {
        index
    }
}

impl<T> Vector<T, 1> for (T,) {
    open spec fn spec_field(&self, i: int) -> T {
        self.0
    }

    fn get(&self, i: usize) -> (r: Option<&T>) {
        if i == 0 {
            Some(&self.0)
        } else {
            None
        }
    }

    fn get_mut(&mut self, i: usize) -> (r: Option<&mut T>) {
        if i == 0 {
            Some(&mut self.0)
        } else {
            None
        }
    }

    fn fields_mut(&mut self) -> (r: Vec<&mut T>) {
        let (f0,) = self;
        let mut v = Vec::new();
        v.push(f0);
        v
    }
}

impl<T> RawVector<T, 1> for (T,) {
}

impl<T> Vector<T, 2> for (T, T) {
    open spec fn spec_field(&self, i: int) -> T {
        if i == 0 {
            self.0
        } else {
            self.1
        }
    }

    fn get(&self, i: usize) -> (r: Option<&T>) {
        if i == 0 {
            Some(&self.0)
        } else if i == 1 {
            Some(&self.1)
        } else {
            None
        }
    }

    fn get_mut(&mut self, i: usize) -> (r: Option<&mut T>) {
        if i == 0 {
            Some(&mut self.0)
        } else if i == 1 {
            Some(&mut self.1)
        } else {
            None
        }
    }

    fn fields_mut(&mut self) -> (r: Vec<&mut T>) {
        let (f0, f1) = self;
        let mut v = Vec::new();
        v.push(f0);
        v.push(f1);
        v
    }
}

impl<T> RawVector<T, 2> for (T, T) {
}

impl<T> Vector<T, 3> for (T, T, T) {
    open spec fn spec_field(&self, i: int) -> T {
        if i == 0 {
            self.0
        } else if i == 1 {
            self.1
        } else {
            self.2
        }
    }

    fn get(&self, i: usize) -> (r: Option<&T>) {
        if i == 0 {
            Some(&self.0)
        } else if i == 1 {
            Some(&self.1)
        } else if i == 2 {
            Some(&self.2)
        } else {
            None
        }
    }

    fn get_mut(&mut self, i: usize) -> (r: Option<&mut T>) {
        if i == 0 {
            Some(&mut self.0)
        } else if i == 1 {
            Some(&mut self.1)
        } else if i == 2 {
            Some(&mut self.2)
        } else {
            None
        }
    }

    fn fields_mut(&mut self) -> (r: Vec<&mut T>) {
        let (f0, f1, f2) = self;
        let mut v = Vec::new();
        v.push(f0);
        v.push(f1);
        v.push(f2);
        v
    }
}

impl<T> RawVector<T, 3> for (T, T, T) {
}

impl<T> Vector<T, 4> for (T, T, T, T) {
    open spec fn spec_field(&self, i: int) -> T {
        if i == 0 {
            self.0
        } else if i == 1 {
            self.1
        } else if i == 2 {
            self.2
        } else {
            self.3
        }
    }

    fn get(&self, i: usize) -> (r: Option<&T>) {
        if i == 0 {
            Some(&self.0)
        } else if i == 1 {
            Some(&self.1)
        } else if i == 2 {
            Some(&self.2)
        } else if i == 3 {
            Some(&self.3)
        } else {
            None
        }
    }

    fn get_mut(&mut self, i: usize) -> (r: Option<&mut T>) {
        if i == 0 {
            Some(&mut self.0)
        } else if i == 1 {
            Some(&mut self.1)
        } else if i == 2 {
            Some(&mut self.2)
        } else if i == 3 {
            Some(&mut self.3)
        } else {
            None
        }
    }

    fn fields_mut(&mut self) -> (r: Vec<&mut T>) {
        let (f0, f1, f2, f3) = self;
        let mut v = Vec::new();
        v.push(f0);
        v.push(f1);
        v.push(f2);
        v.push(f3);
        v
    }
}

impl<T> RawVector<T, 4> for (T, T, T, T) {
}

impl<T> Vector<T, 5> for (T, T, T, T, T) {
    open spec fn spec_field(&self, i: int) -> T {
        if i == 0 {
            self.0
        } else if i == 1 {
            self.1
        } else if i == 2 {
            self.2
        } else if i == 3 {
            self.3
        } else {
            self.4
        }
    }

    fn get(&self, i: usize) -> (r: Option<&T>) {
        if i == 0 {
            Some(&self.0)
        } else if i == 1 {
            Some(&self.1)
        } else if i == 2 {
            Some(&self.2)
        } else if i == 3 {
            Some(&self.3)
        } else if i == 4 {
            Some(&self.4)
        } else {
            None
        }
    }

    fn get_mut(&mut self, i: usize) -> (r: Option<&mut T>) {
        if i == 0 {
            Some(&mut self.0)
        } else if i == 1 {
            Some(&mut self.1)
        } else if i == 2 {
            Some(&mut self.2)
        } else if i == 3 {
            Some(&mut self.3)
        } else if i == 4 {
            Some(&mut self.4)
        } else {
            None
        }
    }

    fn fields_mut(&mut self) -> (r: Vec<&mut T>) {
        let (f0, f1, f2, f3, f4) = self;
        let mut v = Vec::new();
        v.push(f0);
        v.push(f1);
        v.push(f2);
        v.push(f3);
        v.push(f4);
        v
    }
}

impl<T> RawVector<T, 5> for (T, T, T, T, T) {
}

impl<T> Vector<T, 6> for (T, T, T, T, T, T) {
    open spec fn spec_field(&self, i: int) -> T {
        if i == 0 {
            self.0
        } else if i == 1 {
            self.1
        } else if i == 2 {
            self.2
        } else if i == 3 {
            self.3
        } else if i == 4 {
            self.4
        } else {
            self.5
        }
    }

    fn get(&self, i: usize) -> (r: Option<&T>) {
        if i == 0 {
            Some(&self.0)
        } else if i == 1 {
            Some(&self.1)
        } else if i == 2 {
            Some(&self.2)
        } else if i == 3 {
            Some(&self.3)
        } else if i == 4 {
            Some(&self.4)
        } else if i == 5 {
            Some(&self.5)
        } else {
            None
        }
    }

    fn get_mut(&mut self, i: usize) -> (r: Option<&mut T>) {
        if i == 0 {
            Some(&mut self.0)
        } else if i == 1 {
            Some(&mut self.1)
        } else if i == 2 {
            Some(&mut self.2)
        } else if i == 3 {
            Some(&mut self.3)
        } else if i == 4 {
            Some(&mut self.4)
        } else if i == 5 {
            Some(&mut self.5)
        } else {
            None
        }
    }

    fn fields_mut(&mut self) -> (r: Vec<&mut T>) {
        let (f0, f1, f2, f3, f4, f5) = self;
        let mut v = Vec::new();
        v.push(f0);
        v.push(f1);
        v.push(f2);
        v.push(f3);
        v.push(f4);
        v.push(f5);
        v
    }
}

impl<T> RawVector<T, 6> for (T, T, T, T, T, T) {
}

impl<T> Vector<T, 7> for (T, T, T, T, T, T, T) {
    open spec fn spec_field(&self, i: int) -> T {
        if i == 0 {
            self.0
        } else if i == 1 {
            self.1
        } else if i == 2 {
            self.2
        } else if i == 3 {
            self.3
        } else if i == 4 {
            self.4
        } else if i == 5 {
            self.5
        } else {
            self.6
        }
    }

    fn get(&self, i: usize) -> (r: Option<&T>) {
        if i == 0 {
            Some(&self.0)
        } else if i == 1 {
            Some(&self.1)
        } else if i == 2 {
            Some(&self.2)
        } else if i == 3 {
            Some(&self.3)
        } else if i == 4 {
            Some(&self.4)
        } else if i == 5 {
            Some(&self.5)
        } else if i == 6 {
            Some(&self.6)
        } else {
            None
        }
    }

    fn get_mut(&mut self, i: usize) -> (r: Option<&mut T>) {
        if i == 0 {
            Some(&mut self.0)
        } else if i == 1 {
            Some(&mut self.1)
        } else if i == 2 {
            Some(&mut self.2)
        } else if i == 3 {
            Some(&mut self.3)
        } else if i == 4 {
            Some(&mut self.4)
        } else if i == 5 {
            Some(&mut self.5)
        } else if i == 6 {
            Some(&mut self.6)
        } else {
            None
        }
    }

    fn fields_mut(&mut self) -> (r: Vec<&mut T>) {
        let (f0, f1, f2, f3, f4, f5, f6) = self;
        let mut v = Vec::new();
        v.push(f0);
        v.push(f1);
        v.push(f2);
        v.push(f3);
        v.push(f4);
        v.push(f5);
        v.push(f6);
        v
    }
}

impl<T> RawVector<T, 7> for (T, T, T, T, T, T, T) {
}

impl<T> Vector<T, 8> for (T, T, T, T, T, T, T, T) {
    open spec fn spec_field(&self, i: int) -> T {
        if i == 0 {
            self.0
        } else if i == 1 {
            self.1
        } else if i == 2 {
            self.2
        } else if i == 3 {
            self.3
        } else if i == 4 {
            self.4
        } else if i == 5 {
            self.5
        } else if i == 6 {
            self.6
        } else {
            self.7
        }
    }

    fn get(&self, i: usize) -> (r: Option<&T>) {
        if i == 0 {
            Some(&self.0)
        } else if i == 1 {
            Some(&self.1)
        } else if i == 2 {
            Some(&self.2)
        } else if i == 3 {
            Some(&self.3)
        } else if i == 4 {
            Some(&self.4)
        } else if i == 5 {
            Some(&self.5)
        } else if i == 6 {
            Some(&self.6)
        } else if i == 7 {
            Some(&self.7)
        } else {
            None
        }
    }

    fn get_mut(&mut self, i: usize) -> (r: Option<&mut T>) {
        if i == 0 {
            Some(&mut self.0)
        } else if i == 1 {
            Some(&mut self.1)
        } else if i == 2 {
            Some(&mut self.2)
        } else if i == 3 {
            Some(&mut self.3)
        } else if i == 4 {
            Some(&mut self.4)
        } else if i == 5 {
            Some(&mut self.5)
        } else if i == 6 {
            Some(&mut self.6)
        } else if i == 7 {
            Some(&mut self.7)
        } else {
            None
        }
    }

    fn fields_mut(&mut self) -> (r: Vec<&mut T>) {
        let (f0, f1, f2, f3, f4, f5, f6, f7) = self;
        let mut v = Vec::new();
        v.push(f0);
        v.push(f1);
        v.push(f2);
        v.push(f3);
        v.push(f4);
        v.push(f5);
        v.push(f6);
        v.push(f7);
        v
    }
}

impl<T> RawVector<T, 8> for (T, T, T, T, T, T, T, T) {
}

impl<T> Vector<T, 9> for (T, T, T, T, T, T, T, T, T) {
    open spec fn spec_field(&self, i: int) -> T {
        if i == 0 {
            self.0
        } else if i == 1 {
            self.1
        } else if i == 2 {
            self.2
        } else if i == 3 {
            self.3
        } else if i == 4 {
            self.4
        } else if i == 5 {
            self.5
        } else if i == 6 {
            self.6
        } else if i == 7 {
            self.7
        } else {
            self.8
        }
    }

    fn get(&self, i: usize) -> (r: Option<&T>) {
        if i == 0 {
            Some(&self.0)
        } else if i == 1 {
            Some(&self.1)
        } else if i == 2 {
            Some(&self.2)
        } else if i == 3 {
            Some(&self.3)
        } else if i == 4 {
            Some(&self.4)
        } else if i == 5 {
            Some(&self.5)
        } else if i == 6 {
            Some(&self.6)
        } else if i == 7 {
            Some(&self.7)
        } else if i == 8 {
            Some(&self.8)
        } else {
            None
        }
    }

    fn get_mut(&mut self, i: usize) -> (r: Option<&mut T>) {
        if i == 0 {
            Some(&mut self.0)
        } else if i == 1 {
            Some(&mut self.1)
        } else if i == 2 {
            Some(&mut self.2)
        } else if i == 3 {
            Some(&mut self.3)
        } else if i == 4 {
            Some(&mut self.4)
        } else if i == 5 {
            Some(&mut self.5)
        } else if i == 6 {
            Some(&mut self.6)
        } else if i == 7 {
            Some(&mut self.7)
        } else if i == 8 {
            Some(&mut self.8)
        } else {
            None
        }
    }

    fn fields_mut(&mut self) -> (r: Vec<&mut T>) {
        let (f0, f1, f2, f3, f4, f5, f6, f7, f8) = self;
        let mut v = Vec::new();
        v.push(f0);
        v.push(f1);
        v.push(f2);
        v.push(f3);
        v.push(f4);
        v.push(f5);
        v.push(f6);
        v.push(f7);
        v.push(f8);
        v
    }
}

impl<T> RawVector<T, 9> for (T, T, T, T, T, T, T, T, T) {
}

impl<T> Vector<T, 10> for (T, T, T, T, T, T, T, T, T, T) {
    open spec fn spec_field(&self, i: int) -> T {
        if i == 0 {
            self.0
        } else if i == 1 {
            self.1
        } else if i == 2 {
            self.2
        } else if i == 3 {
            self.3
        } else if i == 4 {
            self.4
        } else if i == 5 {
            self.5
        } else if i == 6 {
            self.6
        } else if i == 7 {
            self.7
        } else if i == 8 {
            self.8
        } else {
            self.9
        }
    }

    fn get(&self, i: usize) -> (r: Option<&T>) {
        if i == 0 {
            Some(&self.0)
        } else if i == 1 {
            Some(&self.1)
        } else if i == 2 {
            Some(&self.2)
        } else if i == 3 {
            Some(&self.3)
        } else if i == 4 {
            Some(&self.4)
        } else if i == 5 {
            Some(&self.5)
        } else if i == 6 {
            Some(&self.6)
        } else if i == 7 {
            Some(&self.7)
        } else if i == 8 {
            Some(&self.8)
        } else if i == 9 {
            Some(&self.9)
        } else {
            None
        }
    }

    fn get_mut(&mut self, i: usize) -> (r: Option<&mut T>) {
        if i == 0 {
            Some(&mut self.0)
        } else if i == 1 {
            Some(&mut self.1)
        } else if i == 2 {
            Some(&mut self.2)
        } else if i == 3 {
            Some(&mut self.3)
        } else if i == 4 {
            Some(&mut self.4)
        } else if i == 5 {
            Some(&mut self.5)
        } else if i == 6 {
            Some(&mut self.6)
        } else if i == 7 {
            Some(&mut self.7)
        } else if i == 8 {
            Some(&mut self.8)
        } else if i == 9 {
            Some(&mut self.9)
        } else {
            None
        }
    }

    fn fields_mut(&mut self) -> (r: Vec<&mut T>) {
        let (f0, f1, f2, f3, f4, f5, f6, f7, f8, f9) = self;
        let mut v = Vec::new();
        v.push(f0);
        v.push(f1);
        v.push(f2);
        v.push(f3);
        v.push(f4);
        v.push(f5);
        v.push(f6);
        v.push(f7);
        v.push(f8);
        v.push(f9);
        v
    }
}

impl<T> RawVector<T, 10> for (T, T, T, T, T, T, T, T, T, T) {
}

impl<T> Vector<T, 11> for (T, T, T, T, T, T, T, T, T, T, T) {
    open spec fn spec_field(&self, i: int) -> T {
        if i == 0 {
            self.0
        } else if i == 1 {
            self.1
        } else if i == 2 {
            self.2
        } else if i == 3 {
            self.3
        } else if i == 4 {
            self.4
        } else if i == 5 {
            self.5
        } else if i == 6 {
            self.6
        } else if i == 7 {
            self.7
        } else if i == 8 {
            self.8
        } else if i == 9 {
            self.9
        } else {
            self.10
        }
    }

    fn get(&self, i: usize) -> (r: Option<&T>) {
        if i == 0 {
            Some(&self.0)
        } else if i == 1 {
            Some(&self.1)
        } else if i == 2 {
            Some(&self.2)
        } else if i == 3 {
            Some(&self.3)
        } else if i == 4 {
            Some(&self.4)
        } else if i == 5 {
            Some(&self.5)
        } else if i == 6 {
            Some(&self.6)
        } else if i == 7 {
            Some(&self.7)
        } else if i == 8 {
            Some(&self.8)
        } else if i == 9 {
            Some(&self.9)
        } else if i == 10 {
            Some(&self.10)
        } else {
            None
        }
    }

    fn get_mut(&mut self, i: usize) -> (r: Option<&mut T>) {
        if i == 0 {
            Some(&mut self.0)
        } else if i == 1 {
            Some(&mut self.1)
        } else if i == 2 {
            Some(&mut self.2)
        } else if i == 3 {
            Some(&mut self.3)
        } else if i == 4 {
            Some(&mut self.4)
        } else if i == 5 {
            Some(&mut self.5)
        } else if i == 6 {
            Some(&mut self.6)
        } else if i == 7 {
            Some(&mut self.7)
        } else if i == 8 {
            Some(&mut self.8)
        } else if i == 9 {
            Some(&mut self.9)
        } else if i == 10 {
            Some(&mut self.10)
        } else {
            None
        }
    }

    fn fields_mut(&mut self) -> (r: Vec<&mut T>) {
        let (f0, f1, f2, f3, f4, f5, f6, f7, f8, f9, f10) = self;
        let mut v = Vec::new();
        v.push(f0);
        v.push(f1);
        v.push(f2);
        v.push(f3);
        v.push(f4);
        v.push(f5);
        v.push(f6);
        v.push(f7);
        v.push(f8);
        v.push(f9);
        v.push(f10);
        v
    }
}

impl<T> RawVector<T, 11> for (T, T, T, T, T, T, T, T, T, T, T) {
}

impl<T, const D: usize> Vector<T, D> for [T; D] {
    open spec fn spec_field(&self, i: int) -> T {
        self@[i]
    }

    fn get(&self, i: usize) -> (r: Option<&T>) {
        if i < D {
            Some(&self[i])
        } else {
            None
        }
    }

    fn get_mut(&mut self, i: usize) -> (r: Option<&mut T>) {
        if i < D {
            let s: &mut [T] = self;
            Some(item_mut(s, i))
        } else {
            None
        }
    }

    fn fields_mut(&mut self) -> (r: Vec<&mut T>) {
        split_items_mut(self)
    }
}

impl<T, const D: usize> RawVector<T, D> for [T; D] {
}

} // verus!
