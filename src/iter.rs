//! Cursors that walk an accessor from index 0 upwards.
use vstd::prelude::*;

use crate::accessors::{Accessor, AccessorMut};

verus! {

/// What the cursor of an accessor yields at `idx`: the value there, or `None`
/// where `idx` names no element.
pub open spec fn spec_yield<T, A: Accessor<T, usize>>(a: A, idx: usize) -> Option<T> {
    if a.spec_offset(idx) < a.spec_column().len() {
        Some(a.spec_column()[a.spec_offset(idx) as int])
    } else {
        None
    }
}

/// An accessor whose index `i` names element `i`, as for every array of this
/// crate indexed by `usize`.
pub open spec fn offsets_are_identity<T, A: Accessor<T, usize>>(a: A) -> bool {
    forall|i: usize| #[trigger] a.spec_offset(i) == i
}

/// Read-only cursor over an accessor.
pub struct AccessorIter<'a, T, A: Accessor<T, usize>> {
    phantom_t: std::marker::PhantomData<T>,
    accessor: &'a A,
    idx: usize,
}

impl<'a, T, A: Accessor<T, usize>> AccessorIter<'a, T, A> {
    pub closed spec fn spec_accessor(&self) -> &'a A {
        self.accessor
    }

    /// The next index the cursor reads.
    pub closed spec fn spec_idx(&self) -> usize {
        self.idx
    }

    pub(crate) fn new(accessor: &'a A) -> (r: Self)
        ensures
            r.spec_accessor() == accessor,
            r.spec_idx() == 0,
    {
        AccessorIter { phantom_t: std::marker::PhantomData, accessor, idx: 0 }
    }

    /// Reads the value at the cursor and moves the cursor one index on.
    pub fn next(&mut self) -> (r: Option<&'a T>)
        ensures
            final(self).spec_accessor() == old(self).spec_accessor(),
            final(self).spec_idx() == if old(self).spec_idx() < usize::MAX {
                old(self).spec_idx() + 1
            } else {
                old(self).spec_idx() as int
            },
            r matches Some(v) ==> spec_yield(*old(self).spec_accessor(), old(self).spec_idx()) == Some(*v),
            r is None ==> spec_yield(*old(self).spec_accessor(), old(self).spec_idx()) is None,
    {
        let r = self.accessor.get(self.idx);
        if self.idx < usize::MAX {
            self.idx = self.idx + 1;
        }
        r
    }

    /// Runs the cursor to its end and returns what it yielded, in order.
    pub fn collect_rest(&mut self) -> (r: Vec<&'a T>)
        requires
            offsets_are_identity(*old(self).spec_accessor()),
            old(self).spec_accessor().spec_column().len() <= usize::MAX,
        ensures
            final(self).spec_accessor() == old(self).spec_accessor(),
            r@.len() == if old(self).spec_idx() <= old(self).spec_accessor().spec_column().len() {
                old(self).spec_accessor().spec_column().len() - old(self).spec_idx()
            } else {
                0
            },
            forall|k: int| 0 <= k < r@.len() ==>
                *(#[trigger] r@[k]) == old(self).spec_accessor().spec_column()[old(self).spec_idx() + k],
    {
        let ghost start = self.idx;
        let ghost col = self.accessor.spec_column();
        let mut out: Vec<&'a T> = Vec::new();
        loop
            invariant_except_break
                start <= self.idx,
                start <= col.len() ==> self.idx <= col.len(),
                out@.len() == self.idx - start,
            invariant
                offsets_are_identity(*self.accessor),
                self.accessor == old(self).spec_accessor(),
                col == self.accessor.spec_column(),
                col.len() <= usize::MAX,
                start == old(self).spec_idx(),
                start > col.len() ==> out@.len() == 0,
                forall|k: int| 0 <= k < out@.len() ==> *(#[trigger] out@[k]) == col[start + k],
            ensures
                start <= col.len() ==> out@.len() == col.len() - start,
            decreases col.len() - self.idx,
        {
            let ghost before = self.idx;
            assert(self.accessor.spec_offset(before) == before);
            match self.next() {
                Some(v) => {
                    out.push(v);
                },
                None => {
                    break;
                },
            }
        }
        out
    }
}

/// Cursor that hands out mutable borrows, one index at a time.
pub struct AccessorIterMut<'a, T, A: AccessorMut<T, usize>> {
    phantom_t: std::marker::PhantomData<T>,
    accessor: &'a mut A,
    idx: usize,
}

impl<'a, T, A: AccessorMut<T, usize>> AccessorIterMut<'a, T, A> {
    /// The accessor as it is now.
    pub closed spec fn spec_accessor(&self) -> &'a mut A {
        self.accessor
    }

    /// The next index the cursor reads.
    pub closed spec fn spec_idx(&self) -> usize {
        self.idx
    }

    pub(crate) fn new(accessor: &'a mut A) -> (r: Self)
        ensures
            *r.spec_accessor() == *old(accessor),
            *final(r.spec_accessor()) == *final(accessor),
            r.spec_idx() == 0,
    {
        AccessorIterMut { phantom_t: std::marker::PhantomData, accessor, idx: 0 }
    }

    /// A mutable borrow of the value at the cursor, and the cursor one index on.
    pub fn next(&mut self) -> (r: Option<&mut T>)
        ensures
            final(self).spec_idx() == if old(self).spec_idx() < usize::MAX {
                old(self).spec_idx() + 1
            } else {
                old(self).spec_idx() as int
            },
            r matches Some(v) ==> spec_yield(*old(self).spec_accessor(), old(self).spec_idx()) == Some(*v),
            r is None ==> spec_yield(*old(self).spec_accessor(), old(self).spec_idx()) is None,
            *final(final(self).spec_accessor()) == *final(old(self).spec_accessor()),
            r matches Some(v) ==> final(self).spec_accessor().spec_column() == old(
                self,
            ).spec_accessor().spec_column().update(
                old(self).spec_accessor().spec_offset(old(self).spec_idx()) as int,
                *final(v),
            ),
            r is None ==> final(self).spec_accessor().spec_column() == old(self).spec_accessor().spec_column(),
    {
        let idx: usize = self.idx;
        if self.idx < usize::MAX {
            self.idx = self.idx + 1;
        }
        self.accessor.get_mut(idx)
    }
}

/// A fresh cursor over an accessor whose indices are its offsets yields the
/// values of the column in index order: value `k` at index `k`, then `None`
/// at the length of the column and at every index after it.
pub proof fn lemma_iteration_complete<T, A: Accessor<T, usize>>(a: A, k: usize)
    requires
        offsets_are_identity(a),
    ensures
        k < a.spec_column().len() ==> spec_yield(a, k) == Some(a.spec_column()[k as int]),
        k >= a.spec_column().len() ==> spec_yield(a, k) is None,
{
    assert(a.spec_offset(k) == k);
}

} // verus!
