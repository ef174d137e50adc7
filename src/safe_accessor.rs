//! Accessors that read through the array's own bounds-checked `get`, and
//! mutable accessors built from a safe split.
use vstd::prelude::*;

use crate::accessors::{Accessor, AccessorMut};
use crate::{column_of, Vector, VectorArray};

verus! {

/// Read-only view of dimension `dim` of an array.
pub struct SafeAccessor<'a, T, const D: usize, V: Vector<T, D>, I, VA: VectorArray<T, D, V, I>> {
    phantom_t: std::marker::PhantomData<T>,
    phantom_v: std::marker::PhantomData<V>,
    phantom_i: std::marker::PhantomData<I>,
    array_ref: &'a VA,
    dim: usize,
}

impl<'a, T, const D: usize, V: Vector<T, D>, I, VA: VectorArray<T, D, V, I>> SafeAccessor<
    'a,
    T,
    D,
    V,
    I,
    VA,
> {
    /// The array this accessor reads.
    pub closed spec fn spec_array(&self) -> &'a VA {
        self.array_ref
    }

    /// The dimension this accessor reads.
    pub closed spec fn spec_dim(&self) -> usize {
        self.dim
    }

    #[verifier::type_invariant]
    spec fn dim_in_range(&self) -> bool {
        self.dim < D
    }

    pub fn new(array_ref: &'a VA, dim: usize) -> (r: Self)
        requires
            dim < D,
        ensures
            r.spec_array() == array_ref,
            r.spec_dim() == dim,
    {
        SafeAccessor {
            phantom_t: std::marker::PhantomData,
            phantom_v: std::marker::PhantomData,
            phantom_i: std::marker::PhantomData,
            array_ref,
            dim,
        }
    }
}

impl<'a, T, const D: usize, V: Vector<T, D>, I, VA: VectorArray<T, D, V, I>> Accessor<
    T,
    I,
> for SafeAccessor<'a, T, D, V, I, VA> {
    open spec fn spec_column(&self) -> Seq<T> {
        column_of(self.spec_array().spec_elems(), self.spec_dim() as int)
    }

    open spec fn spec_offset(&self, index: I) -> usize {
        self.spec_array().spec_offset(index)
    }

    fn get(&self, index: I) -> (r: Option<&T>) {
        proof {
            use_type_invariant(self);
        }
        match self.array_ref.get(index) {
            Some(x) => x.get(self.dim),
            None => None,
        }
    }
}

/// Mutable view of dimension `dim` of an array: a mutable borrow of field
/// `dim` of every element, in offset order. The accessors of one split hold
/// borrows of different fields, so none can reach what another writes. It is
/// addressed by element offset.
pub struct SafeAccessorMut<'a, T> {
    column: Vec<&'a mut T>,
    dim: usize,
}

impl<'a, T> SafeAccessorMut<'a, T> {
    /// The borrowed fields, in offset order.
    pub closed spec fn spec_refs(&self) -> Seq<&'a mut T> {
        self.column@
    }

    /// The dimension this accessor reaches.
    pub closed spec fn spec_dim(&self) -> usize {
        self.dim
    }

    pub fn new(column: Vec<&'a mut T>, dim: usize) -> (r: Self)
        ensures
            r.spec_refs() == column@,
            r.spec_dim() == dim,
    {
        SafeAccessorMut { column, dim }
    }

    /// Once an accessor is done with, each borrowed field holds what the
    /// accessor last held for it: what was written through the accessor is
    /// what the array gets back.
    pub proof fn lemma_resolved_writes_back(self)
        requires
            has_resolved(self),
        ensures
            forall|k: int| 0 <= k < self.spec_refs().len() ==>
                *final(#[trigger] self.spec_refs()[k]) == self.spec_column()[k],
    {
        assert(has_resolved(self.column));
        assert forall|k: int| 0 <= k < self.spec_refs().len() implies
            *final(#[trigger] self.spec_refs()[k]) == self.spec_column()[k] by {
            assert(has_resolved(self.column@[k]));
        }
    }

    /// Turns column `d` of `cols` into the accessor of dimension `d`.
    pub(crate) fn from_columns(cols: Vec<Vec<&'a mut T>>) -> (r: Vec<Self>)
        ensures
            r@.len() == cols@.len(),
            forall|d: int| 0 <= d < r@.len() ==> (#[trigger] r@[d]).spec_refs() == cols@[d]@,
            forall|d: int| 0 <= d < r@.len() ==> (#[trigger] r@[d]).spec_dim() == d,
    {
        let ghost cols0 = cols@;
        let mut cols = cols;
        let mut out: Vec<Self> = Vec::new();
        while cols.len() > 0
            invariant
                cols@ == cols0.subrange(0, cols@.len() as int),
                out@.len() == cols0.len() - cols@.len(),
                forall|j: int| 0 <= j < out@.len() ==>
                    (#[trigger] out@[j]).spec_refs() == cols0[j + cols@.len()]@,
                forall|j: int| 0 <= j < out@.len() ==>
                    (#[trigger] out@[j]).spec_dim() == j + cols@.len(),
            decreases cols@.len(),
        {
            let column = cols.pop().unwrap();
            let dim: usize = cols.len();
            out.insert(0, SafeAccessorMut::new(column, dim));
        }
        out
    }
}

impl<'a, T> Accessor<T, usize> for SafeAccessorMut<'a, T> {
    open spec fn spec_column(&self) -> Seq<T> {
        Seq::new(self.spec_refs().len(), |k: int| *self.spec_refs()[k])
    }

    open spec fn spec_offset(&self, index: usize) -> usize {
        index
    }

    fn get(&self, index: usize) -> (r: Option<&T>) {
        if index < self.column.len() {
            Some(&*self.column[index])
        } else {
            None
        }
    }
}

impl<'a, T> AccessorMut<T, usize> for SafeAccessorMut<'a, T> {
    fn get_mut(&mut self, index: usize) -> (r: Option<&mut T>)
        ensures
            final(self).spec_dim() == old(self).spec_dim(),
            final(self).spec_refs().len() == old(self).spec_refs().len(),
            forall|k: int| 0 <= k < old(self).spec_refs().len() ==>
                *final(#[trigger] final(self).spec_refs()[k]) == *final(old(self).spec_refs()[k]),
    {
        if index < self.column.len() {
            let slot = &mut self.column[index];
            Some(&mut **slot)
        } else {
            None
        }
    }

    fn index_mut(&mut self, index: usize) -> (r: &mut T)
        ensures
            final(self).spec_dim() == old(self).spec_dim(),
            final(self).spec_refs().len() == old(self).spec_refs().len(),
            forall|k: int| 0 <= k < old(self).spec_refs().len() ==>
                *final(#[trigger] final(self).spec_refs()[k]) == *final(old(self).spec_refs()[k]),
    {
        let r = self.get_mut(index);
        r.expect("index is too large for array.")
    }
}

} // verus!
