//! The accessor capabilities shared by the safe and the fast accessors.
use vstd::prelude::*;

use crate::iter::{AccessorIter, AccessorIterMut};

verus! {

/// A read-only view of one dimension of an array of vectors.
pub trait Accessor<T, I> {
    /// The values of this dimension, one per element, in offset order.
    spec fn spec_column(&self) -> Seq<T>;

    /// The element offset that `index` names.
    spec fn spec_offset(&self, index: I) -> usize;

    /// The value of this dimension at `index`, or `None` where `index` names
    /// no element.
    fn get(&self, index: I) -> (r: Option<&T>)
        ensures
            self.spec_offset(index) < self.spec_column().len() ==> r == Some(
                &self.spec_column()[self.spec_offset(index) as int],
            ),
            self.spec_offset(index) >= self.spec_column().len() ==> r is None,
    ;

    /// Subscript access: the value at an index known to name an element.
    fn index(&self, index: I) -> (r: &T)
        requires
            self.spec_offset(index) < self.spec_column().len(),
        ensures
            *r == self.spec_column()[self.spec_offset(index) as int],
    {
        let r = self.get(index);
        r.expect("index is too large for array.")
    }
}

/// A view of one dimension of an array of vectors that can also write.
pub trait AccessorMut<T, I>: Accessor<T, I> {
    /// A mutable borrow of the value at `index`, or `None` where `index` names
    /// no element.
    fn get_mut(&mut self, index: I) -> (r: Option<&mut T>)
        ensures
            forall|j: I| #[trigger] final(self).spec_offset(j) == old(self).spec_offset(j),
            final(self).spec_column().len() == old(self).spec_column().len(),
            old(self).spec_offset(index) < old(self).spec_column().len() ==> {
                &&& r is Some
                &&& *r.unwrap() == old(self).spec_column()[old(self).spec_offset(index) as int]
                &&& final(self).spec_column() == old(self).spec_column().update(
                    old(self).spec_offset(index) as int,
                    *final(r.unwrap()),
                )
            },
            old(self).spec_offset(index) >= old(self).spec_column().len() ==> {
                &&& r is None
                &&& final(self).spec_column() == old(self).spec_column()
            },
    ;

    /// Subscript access for writing: a mutable borrow of the value at an
    /// index known to name an element.
    fn index_mut(&mut self, index: I) -> (r: &mut T)
        requires
            old(self).spec_offset(index) < old(self).spec_column().len(),
        ensures
            forall|j: I| #[trigger] final(self).spec_offset(j) == old(self).spec_offset(j),
            *r == old(self).spec_column()[old(self).spec_offset(index) as int],
            final(self).spec_column() == old(self).spec_column().update(
                old(self).spec_offset(index) as int,
                *final(r),
            ),
    {
        let r = self.get_mut(index);
        r.expect("index is too large for array.")
    }
}

/// Sequential iteration over an accessor addressed by `usize` offsets.
pub trait IterateAccessor<T>: Accessor<T, usize> + Sized {
    /// A fresh iterator, starting at index 0.
    fn iter(&self) -> (r: AccessorIter<'_, T, Self>)
        ensures
            r.spec_accessor() == self,
            r.spec_idx() == 0,
    {
        AccessorIter::new(self)
    }
}

/// Sequential iteration with mutable borrows over an accessor addressed by
/// `usize` offsets.
pub trait IterateAccessorMut<T>: AccessorMut<T, usize> + Sized {
    /// A fresh iterator, starting at index 0.
    fn iter_mut(&mut self) -> (r: AccessorIterMut<'_, T, Self>)
        ensures
            *r.spec_accessor() == *old(self),
            r.spec_idx() == 0,
    {
        AccessorIterMut::new(self)
    }
}

impl<T, A: Accessor<T, usize>> IterateAccessor<T> for A {
}

impl<T, A: AccessorMut<T, usize>> IterateAccessorMut<T> for A {
}

} // verus!
