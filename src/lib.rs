//! Dimension-wise views over arrays of small fixed-size vectors.
//!
//! An array of `D`-field vectors (points, colours, ...) is split into `D`
//! accessors, one per dimension. Each accessor reads, or writes, one field of
//! every element, and the accessors of one mutable split never touch the same
//! field: each holds its own mutable borrows of the fields of its dimension.
use vstd::prelude::*;

pub mod accessors;
pub mod columns;
pub mod fast_accessor;
pub mod impls;
pub mod iter;
pub mod safe_accessor;

use crate::accessors::{Accessor, AccessorMut};
use crate::columns::split_columns_mut;
use crate::fast_accessor::{FastAccessor, FastAccessorMut};
use crate::safe_accessor::{SafeAccessor, SafeAccessorMut};

verus! {

/// A vector-like value: `D` fields of type `T`, addressed by `0..D`.
pub trait Vector<T, const D: usize> {
    /// Field `i` of the vector, for `0 <= i < D`.
    spec fn spec_field(&self, i: int) -> T;

    /// Field `i`, or `None` where `i` is not below `D`.
    fn get(&self, i: usize) -> (r: Option<&T>)
        ensures
            i < D ==> r == Some(&self.spec_field(i as int)),
            i >= D ==> r is None,
    ;

    /// A mutable borrow of field `i`, or `None` where `i` is not below `D`.
    fn get_mut(&mut self, i: usize) -> (r: Option<&mut T>)
        ensures
            i < D ==> r is Some,
            i < D ==> *r.unwrap() == old(self).spec_field(i as int),
            i < D ==> final(self).spec_field(i as int) == *final(r.unwrap()),
            i >= D ==> r is None,
            forall|j: int|
                0 <= j < D && j != i ==> #[trigger] final(self).spec_field(j) == old(self).spec_field(j),
    ;

    /// One mutable borrow per field, in field order.
    fn fields_mut(&mut self) -> (r: Vec<&mut T>)
        ensures
            r@.len() == D,
            forall|j: int| 0 <= j < D ==> *(#[trigger] r@[j]) == old(self).spec_field(j),
            forall|j: int| 0 <= j < D ==> #[trigger] final(self).spec_field(j) == *final(r@[j]),
    ;
}

/// A vector whose fields lie contiguously in memory, without padding, the
/// first at the vector's own address. The fast accessors and the fast splits
/// take only such vectors. They find a field from the element's offset in the
/// storage and the field's number, through safe slice indexing: the marker
/// states a property of the type, and no read in this crate depends on it.
pub trait RawVector<T, const D: usize>: Vector<T, D> {
}

/// The values of dimension `d` of `elems`, one per element.
pub open spec fn column_of<T, const D: usize, V: Vector<T, D>>(elems: Seq<V>, d: int) -> Seq<T> {
    Seq::new(elems.len(), |k: int| elems[k].spec_field(d))
}

/// An array of vectors, addressed by indices of type `I`.
pub trait VectorArray<T, const D: usize, V: Vector<T, D>, I>: Sized {
    /// The elements, in offset order.
    spec fn spec_elems(&self) -> Seq<V>;

    /// The element offset that `index` names; an offset at or past the number
    /// of elements names no element.
    spec fn spec_offset(&self, index: I) -> usize;

    /// The element that `index` names, or `None` where it names none.
    fn get(&self, index: I) -> (r: Option<&V>)
        ensures
            self.spec_offset(index) < self.spec_elems().len() ==> r == Some(
                &self.spec_elems()[self.spec_offset(index) as int],
            ),
            self.spec_offset(index) >= self.spec_elems().len() ==> r is None,
    ;

    /// A mutable borrow of the element that `index` names, or `None` where it
    /// names none.
    fn get_mut(&mut self, index: I) -> (r: Option<&mut V>)
        ensures
            forall|j: I| #[trigger] final(self).spec_offset(j) == old(self).spec_offset(j),
            old(self).spec_offset(index) < old(self).spec_elems().len() ==> {
                &&& r is Some
                &&& *r.unwrap() == old(self).spec_elems()[old(self).spec_offset(index) as int]
                &&& final(self).spec_elems() == old(self).spec_elems().update(
                    old(self).spec_offset(index) as int,
                    *final(r.unwrap()),
                )
            },
            old(self).spec_offset(index) >= old(self).spec_elems().len() ==> {
                &&& r is None
                &&& final(self).spec_elems() == old(self).spec_elems()
            },
    ;

    /// All elements as one mutable slice, in offset order.
    fn elems_mut(&mut self) -> (r: &mut [V])
        ensures
            r@ == old(self).spec_elems(),
            final(self).spec_elems() == final(r)@,
            forall|j: I| #[trigger] final(self).spec_offset(j) == old(self).spec_offset(j),
    ;
}

/// An array of vectors whose elements lie contiguously, so that an accessor
/// can find a field from the element's offset alone.
pub trait SizedVectorArray<T, const D: usize, V: RawVector<T, D>, I>: VectorArray<T, D, V, I> {
    /// The element storage, in offset order.
    fn ptr(&self) -> (r: &[V])
        ensures
            r@ == self.spec_elems(),
    ;

    /// The element storage, mutably, in offset order.
    fn ptr_mut(&mut self) -> (r: &mut [V])
        ensures
            r@ == old(self).spec_elems(),
            final(self).spec_elems() == final(r)@,
            forall|j: I| #[trigger] final(self).spec_offset(j) == old(self).spec_offset(j),
    ;

    /// The number of elements.
    fn len(&self) -> (r: usize)
        ensures
            r == self.spec_elems().len(),
    ;

    /// Whether the array has no element.
    fn is_empty(&self) -> (r: bool)
        ensures
            r == (self.spec_elems().len() == 0),
    {
        self.len() == 0
    }

    /// The element offset that `index` names.
    fn convert_index(&self, index: I) -> (r: usize)
        ensures
            r == self.spec_offset(index),
    ;
}

/// The splits of an array of vectors into its dimensions.
pub trait VectorArraySplit<T, const D: usize, V: Vector<T, D>, I>: VectorArray<T, D, V, I> {
    /// One accessor per dimension, in dimension order, each reading through
    /// the array's own `get`.
    fn vec_split_safe(&self) -> (r: Vec<SafeAccessor<'_, T, D, V, I, Self>>)
        ensures
            r@.len() == D,
            forall|d: int| 0 <= d < D ==> (#[trigger] r@[d]).spec_dim() == d,
            forall|d: int| 0 <= d < D ==> (#[trigger] r@[d]).spec_array() == self,
            forall|d: int|
                0 <= d < D ==> (#[trigger] r@[d]).spec_column() == column_of(self.spec_elems(), d),
            forall|d: int, j: I| 0 <= d < D ==> (#[trigger] r@[d].spec_offset(j)) == self.spec_offset(j),
    ;

    /// One mutable accessor per dimension, in dimension order. Accessor `d`
    /// holds a mutable borrow of field `d` of every element, and of nothing
    /// else; what is written through it is in the array once the split ends.
    fn vec_split_safe_mut<'a>(&'a mut self) -> (r: Vec<SafeAccessorMut<'a, T>>)
        where
            V: 'a,
        ensures
            r@.len() == D,
            forall|d: int|
                0 <= d < D ==> (#[trigger] r@[d]).spec_column() == column_of(old(self).spec_elems(), d),
            forall|d: int| 0 <= d < D ==> (#[trigger] r@[d]).spec_dim() == d,
            forall|d: int|
                0 <= d < D ==> (#[trigger] r@[d]).spec_refs().len() == old(self).spec_elems().len(),
            final(self).spec_elems().len() == old(self).spec_elems().len(),
            forall|d: int, k: int|
                0 <= d < D && 0 <= k < old(self).spec_elems().len() ==>
                final(self).spec_elems()[k].spec_field(d) == *final(#[trigger] r@[d].spec_refs()[k]),
            forall|j: I| #[trigger] final(self).spec_offset(j) == old(self).spec_offset(j),
    ;
}

impl<T, const D: usize, V: Vector<T, D>, I, VA: VectorArray<T, D, V, I>> VectorArraySplit<
    T,
    D,
    V,
    I,
> for VA {
    fn vec_split_safe(&self) -> (r: Vec<SafeAccessor<'_, T, D, V, I, Self>>) {
        let mut array: Vec<SafeAccessor<'_, T, D, V, I, Self>> = Vec::new();
        let mut i: usize = 0;
        while i < D
            invariant
                i <= D,
                array@.len() == i,
                forall|d: int| 0 <= d < i ==> (#[trigger] array@[d]).spec_dim() == d,
                forall|d: int| 0 <= d < i ==> (#[trigger] array@[d]).spec_array() == self,
            decreases D - i,
        {
            array.push(SafeAccessor::new(self, i));
            i = i + 1;
        }
        array
    }

    fn vec_split_safe_mut<'a>(&'a mut self) -> (r: Vec<SafeAccessorMut<'a, T>>)
        where
            V: 'a,
    {
        let elems = self.elems_mut();
        let cols = split_columns_mut(elems);
        SafeAccessorMut::from_columns(cols)
    }
}

/// The splits of an array with contiguous storage into its dimensions.
pub trait SizedVectorArraySplit<T, const D: usize, V: RawVector<T, D>, I>: SizedVectorArray<
    T,
    D,
    V,
    I,
> {
    /// One accessor per dimension, in dimension order, each reading fields
    /// straight out of the element storage.
    fn vec_split_fast(&self) -> (r: Vec<FastAccessor<'_, T, D, V, I, Self>>)
        ensures
            r@.len() == D,
            forall|d: int| 0 <= d < D ==> (#[trigger] r@[d]).spec_dim() == d,
            forall|d: int| 0 <= d < D ==> (#[trigger] r@[d]).spec_array() == self,
            forall|d: int|
                0 <= d < D ==> (#[trigger] r@[d]).spec_column() == column_of(self.spec_elems(), d),
            forall|d: int, j: I| 0 <= d < D ==> (#[trigger] r@[d].spec_offset(j)) == self.spec_offset(j),
    ;

    /// One mutable accessor per dimension, in dimension order, each holding a
    /// mutable borrow of its field of every element of the storage.
    fn vec_split_fast_mut<'a>(&'a mut self) -> (r: Vec<FastAccessorMut<'a, T>>)
        where
            V: 'a,
        ensures
            r@.len() == D,
            forall|d: int|
                0 <= d < D ==> (#[trigger] r@[d]).spec_column() == column_of(old(self).spec_elems(), d),
            forall|d: int| 0 <= d < D ==> (#[trigger] r@[d]).spec_dim() == d,
            forall|d: int|
                0 <= d < D ==> (#[trigger] r@[d]).spec_refs().len() == old(self).spec_elems().len(),
            final(self).spec_elems().len() == old(self).spec_elems().len(),
            forall|d: int, k: int|
                0 <= d < D && 0 <= k < old(self).spec_elems().len() ==>
                final(self).spec_elems()[k].spec_field(d) == *final(#[trigger] r@[d].spec_refs()[k]),
            forall|j: I| #[trigger] final(self).spec_offset(j) == old(self).spec_offset(j),
    ;
}

impl<T, const D: usize, V: RawVector<T, D>, I, VA: SizedVectorArray<T, D, V, I>> SizedVectorArraySplit<
    T,
    D,
    V,
    I,
> for VA {
    fn vec_split_fast(&self) -> (r: Vec<FastAccessor<'_, T, D, V, I, Self>>) {
        let mut array: Vec<FastAccessor<'_, T, D, V, I, Self>> = Vec::new();
        let mut i: usize = 0;
        while i < D
            invariant
                i <= D,
                array@.len() == i,
                forall|d: int| 0 <= d < i ==> (#[trigger] array@[d]).spec_dim() == d,
                forall|d: int| 0 <= d < i ==> (#[trigger] array@[d]).spec_array() == self,
            decreases D - i,
        {
            array.push(FastAccessor::new(self, i));
            i = i + 1;
        }
        array
    }

    fn vec_split_fast_mut<'a>(&'a mut self) -> (r: Vec<FastAccessorMut<'a, T>>)
        where
            V: 'a,
    {
        let elems = self.ptr_mut();
        let cols = split_columns_mut(elems);
        FastAccessorMut::from_columns(cols)
    }
}

/// What an accessor of a split reads at `index` is field `d` of what the array
/// reads at `index`: both name an element, or neither does, and where they do
/// the accessor's value is that element's field `d`.
pub proof fn lemma_split_reads_fields<
    T,
    const D: usize,
    V: Vector<T, D>,
    I,
    VA: VectorArray<T, D, V, I>,
    A: Accessor<T, I>,
>(array: VA, accessor: A, d: int, index: I)
    requires
        0 <= d < D,
        accessor.spec_column() == column_of(array.spec_elems(), d),
        accessor.spec_offset(index) == array.spec_offset(index),
    ensures
        (accessor.spec_offset(index) < accessor.spec_column().len()) == (array.spec_offset(index)
            < array.spec_elems().len()),
        array.spec_offset(index) < array.spec_elems().len() ==> accessor.spec_column()[accessor.spec_offset(
            index,
        ) as int] == array.spec_elems()[array.spec_offset(index) as int].spec_field(d),
{
}

/// Writes `value` into field `d` of the element at offset `index`, through the
/// accessor of dimension `d` of a mutable split. The array then holds the
/// value there, and every other field of every element is as it was.
pub fn set_field<T, const D: usize, V: Vector<T, D>, I, VA: VectorArray<T, D, V, I>>(
    array: &mut VA,
    d: usize,
    index: usize,
    value: T,
) -> (r: bool)
    requires
        d < D,
    ensures
        r == (index < old(array).spec_elems().len()),
        final(array).spec_elems().len() == old(array).spec_elems().len(),
        r ==> final(array).spec_elems()[index as int].spec_field(d as int) == value,
        forall|k: int, e: int|
            0 <= k < old(array).spec_elems().len() && 0 <= e < D && (k != index || e != d) ==>
            #[trigger] final(array).spec_elems()[k].spec_field(e) == old(array).spec_elems()[k].spec_field(e),
{
    let ghost fin = final(array).spec_elems();
    let ghost orig = array.spec_elems();
    let mut accs = array.vec_split_safe_mut();
    let ghost accs0 = accs@;
    let acc = &mut accs[d];
    let r = match acc.get_mut(index) {
        Some(slot) => {
            *slot = value;
            true
        },
        None => false,
    };
    proof {
        assert forall|e: int| 0 <= e < D implies has_resolved(#[trigger] accs@[e]) by {}
        assert forall|e: int| 0 <= e < D implies #[trigger] accs@[e].spec_refs().len() == orig.len() by {
            if e != d {
                assert(accs@[e] == accs0[e]);
            }
        }
        assert forall|k: int, e: int| 0 <= k < orig.len() && 0 <= e < D implies
            #[trigger] fin[k].spec_field(e) == accs@[e].spec_column()[k] by {
            accs@[e].lemma_resolved_writes_back();
            if e != d {
                assert(accs@[e] == accs0[e]);
            }
        }
    }
    r
}

} // verus!
