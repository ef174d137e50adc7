//! Splitting a mutable slice into disjoint mutable borrows: one per item, or one
//! per field of every item, grouped by field.
use vstd::prelude::*;

use crate::Vector;

verus! {

/// Appends item `j` of `row` to column `j` of `cols`, for every `j`.
fn append_row<R>(cols: Vec<Vec<R>>, row: Vec<R>) -> (r: Vec<Vec<R>>)
    requires
        cols@.len() == row@.len(),
    ensures
        r@.len() == cols@.len(),
        forall|j: int| 0 <= j < cols@.len() ==> (#[trigger] r@[j])@ == cols@[j]@.push(row@[j]),
{
    let ghost cols0 = cols@;
    let ghost row0 = row@;
    let mut cols = cols;
    let mut row = row;
    let mut out: Vec<Vec<R>> = Vec::new();
    let mut c: usize = row.len();
    while c > 0
        invariant
            c <= row0.len(),
            cols0.len() == row0.len(),
            row@ == row0.subrange(0, c as int),
            cols@ == cols0.subrange(0, c as int),
            out@.len() == row0.len() - c,
            forall|j: int| 0 <= j < out@.len() ==> (#[trigger] out@[j])@ == cols0[j + c]@.push(row0[j + c]),
        decreases c,
    {
        let x = row.pop().unwrap();
        let mut col = cols.pop().unwrap();
        col.push(x);
        out.insert(0, col);
        c = c - 1;
    }
    out
}

/// Hands out one mutable borrow per field of every element of `elems`,
/// grouped by field: column `d` holds field `d` of every element, in element
/// order. Whatever is last written through a borrow is what the element holds
/// once the borrows end.
pub fn split_columns_mut<T, const D: usize, V: Vector<T, D>>(elems: &mut [V]) -> (cols: Vec<Vec<&mut T>>)
    ensures
        cols@.len() == D,
        final(elems)@.len() == old(elems)@.len(),
        forall|d: int| 0 <= d < D ==> (#[trigger] cols@[d])@.len() == old(elems)@.len(),
        forall|d: int, k: int| 0 <= d < D && 0 <= k < old(elems)@.len() ==>
            *(#[trigger] cols@[d]@[k]) == old(elems)@[k].spec_field(d),
        forall|d: int, k: int| 0 <= d < D && 0 <= k < old(elems)@.len() ==>
            final(elems)@[k].spec_field(d) == *final(#[trigger] cols@[d]@[k]),
{
    let mut cols: Vec<Vec<&mut T>> = Vec::new();
    let mut d: usize = 0;
    while d < D
        invariant
            d <= D,
            cols@.len() == d,
            forall|j: int| 0 <= j < d ==> (#[trigger] cols@[j])@.len() == 0,
        decreases D - d,
    {
        cols.push(Vec::new());
        d = d + 1;
    }
    let n: usize = elems.len();
    let ghost orig = elems@;
    let ghost fin = final(elems)@;
    let mut rest: &mut [V] = elems;
    let mut k: usize = 0;
    while rest.len() > 0
        invariant
            k <= n,
            n == orig.len(),
            rest@ == orig.subrange(k as int, n as int),
            fin.len() == k + final(rest)@.len(),
            forall|j: int| 0 <= j < final(rest)@.len() ==> fin[k + j] == #[trigger] final(rest)@[j],
            cols@.len() == D,
            forall|c: int| 0 <= c < D ==> (#[trigger] cols@[c])@.len() == k,
            forall|c: int, j: int| 0 <= c < D && 0 <= j < k ==>
                *(#[trigger] cols@[c]@[j]) == orig[j].spec_field(c),
            forall|c: int, j: int| 0 <= c < D && 0 <= j < k ==>
                fin[j].spec_field(c) == *final(#[trigger] cols@[c]@[j]),
        decreases rest@.len(),
    {
        let ghost fr = final(rest)@;
        let (head, tail) = rest.split_at_mut(1);
        let ghost fh = final(head)@;
        let ghost ft = final(tail)@;
        let e = head.first_mut().unwrap();
        let ghost fe = *final(e);
        let fs = e.fields_mut();
        cols = append_row(cols, fs);
        assert(fh =~= seq![fe]);
        assert(fin[k as int] == fe) by {
            assert(fr[0] == fh[0]);
        }
        assert forall|j: int| 0 <= j < ft.len() implies fin[k + 1 + j] == #[trigger] ft[j] by {
            assert(fr[1 + j] == ft[j]);
        }
        rest = tail;
        k = k + 1;
    }
    assert(final(rest)@.len() == 0);
    cols
}

/// Hands out one mutable borrow per item of `items`, in order.
pub fn split_items_mut<X>(items: &mut [X]) -> (r: Vec<&mut X>)
    ensures
        r@.len() == old(items)@.len(),
        final(items)@.len() == old(items)@.len(),
        forall|k: int| 0 <= k < r@.len() ==> *(#[trigger] r@[k]) == old(items)@[k],
        forall|k: int| 0 <= k < r@.len() ==> final(items)@[k] == *final(#[trigger] r@[k]),
{
    let n: usize = items.len();
    let ghost orig = items@;
    let ghost fin = final(items)@;
    let mut out: Vec<&mut X> = Vec::new();
    let mut rest: &mut [X] = items;
    let mut k: usize = 0;
    while rest.len() > 0
        invariant
            k <= n,
            n == orig.len(),
            rest@ == orig.subrange(k as int, n as int),
            fin.len() == k + final(rest)@.len(),
            forall|j: int| 0 <= j < final(rest)@.len() ==> fin[k + j] == #[trigger] final(rest)@[j],
            out@.len() == k,
            forall|j: int| 0 <= j < k ==> *(#[trigger] out@[j]) == orig[j],
            forall|j: int| 0 <= j < k ==> fin[j] == *final(#[trigger] out@[j]),
        decreases rest@.len(),
    {
        let ghost fr = final(rest)@;
        let (head, tail) = rest.split_at_mut(1);
        let ghost fh = final(head)@;
        let ghost ft = final(tail)@;
        let e = head.first_mut().unwrap();
        assert(fh =~= seq![*final(e)]);
        assert(fin[k as int] == *final(e)) by {
            assert(fr[0] == fh[0]);
        }
        assert forall|j: int| 0 <= j < ft.len() implies fin[k + 1 + j] == #[trigger] ft[j] by {
            assert(fr[1 + j] == ft[j]);
        }
        out.push(e);
        rest = tail;
        k = k + 1;
    }
    assert(final(rest)@.len() == 0);
    out
}

/// A mutable borrow of item `i` of `items`.
pub fn item_mut<X>(items: &mut [X], i: usize) -> (r: &mut X)
    requires
        i < old(items)@.len(),
    ensures
        *r == old(items)@[i as int],
        final(items)@ == old(items)@.update(i as int, *final(r)),
{
    let ghost orig = items@;
    let ghost fin = final(items)@;
    let (front, back) = items.split_at_mut(i);
    let ghost ff = final(front)@;
    let ghost fb = final(back)@;
    let r = back.first_mut().unwrap();
    assert(ff =~= orig.subrange(0, i as int));
    assert(fin =~= orig.update(i as int, *final(r)));
    r
}

} // verus!
