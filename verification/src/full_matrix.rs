//! Dense row-major matrices.

use vstd::prelude::*;
use crate::traits::IsNumerical;

verus! {

/// A dense matrix of scalars, stored contiguously in row-major order:
/// the element at row `i`, column `j` lives at offset `i * ncol + j`
/// of the backing storage. Dimensions are fixed at construction.
pub struct FullMatrix<T: IsNumerical> {
    /// Backing storage, of length `nrow * ncol`.
    data: Vec<T>,
    /// The number of rows.
    pub nrow: usize,
    /// The number of columns.
    pub ncol: usize,
}

impl<T: IsNumerical> FullMatrix<T> {
    /// The number of rows, as a specification-level value.
    pub closed spec fn spec_nrow(self) -> int {
        self.nrow as int
    }

    /// The number of columns, as a specification-level value.
    pub closed spec fn spec_ncol(self) -> int {
        self.ncol as int
    }

    /// The backing storage always holds exactly `nrow * ncol` scalars.
    pub closed spec fn wf(self) -> bool {
        self.data@.len() == self.nrow * self.ncol
    }

    /// The element at row `i`, column `j`, as a specification-level value.
    pub closed spec fn spec_get(self, i: int, j: int) -> T {
        self.data@[i * self.ncol + j]
    }

    /// Row `i` as a sequence: the `ncol` elements `(i, 0) .. (i, ncol - 1)`
    /// in column order.
    pub open spec fn row_seq(self, i: int) -> Seq<T> {
        Seq::new(self.spec_ncol() as nat, |j: int| self.spec_get(i, j))
    }

    /// Column `j` as a sequence: the `nrow` elements `(0, j) .. (nrow - 1, j)`
    /// in row order.
    pub open spec fn col_seq(self, j: int) -> Seq<T> {
        Seq::new(self.spec_nrow() as nat, |i: int| self.spec_get(i, j))
    }

    /// Creates the `nrow` by `ncol` matrix whose every element is the
    /// additive identity of the scalar type. Either dimension may be zero.
    pub fn zero(nrow: usize, ncol: usize) -> (m: Self)
        requires
            nrow * ncol <= usize::MAX,
        ensures
            m.wf(),
            m.spec_nrow() == nrow,
            m.spec_ncol() == ncol,
            forall|i: int, j: int|
                0 <= i < nrow && 0 <= j < ncol ==> m.spec_get(i, j) == T::zero_spec(),
    {
        let total: usize = nrow * ncol;
        let mut data: Vec<T> = Vec::new();
        let mut k: usize = 0;
        while k < total
            invariant
                k <= total,
                data@.len() == k,
                forall|t: int| 0 <= t < k ==> data@[t] == T::zero_spec(),
            decreases total - k,
        {
            data.push(T::zero());
            k += 1;
        }
        let m = FullMatrix { data, nrow, ncol };
        proof {
            assert forall|i: int, j: int|
                0 <= i < nrow && 0 <= j < ncol implies m.spec_get(i, j) == T::zero_spec() by {
                lemma_row_major_offset(i, j, nrow as int, ncol as int);
            }
        }
        m
    }

    /// Returns a reference to the element at row `i`, column `j`.
    pub fn get(&self, i: usize, j: usize) -> (r: &T)
        requires
            self.wf(),
            i < self.spec_nrow(),
            j < self.spec_ncol(),
        ensures
            *r == self.spec_get(i as int, j as int),
    {
        let stored: usize = self.data.len();
        proof {
            lemma_row_major_offset(i as int, j as int, self.nrow as int, self.ncol as int);
            assert(i * self.ncol + j < stored);
        }
        &self.data[i * self.ncol + j]
    }

    /// Returns a cursor over row `i`: it yields exactly `ncol` elements,
    /// equal in order to `get(i, 0), get(i, 1), .., get(i, ncol - 1)`.
    pub fn iter_over_row<'a>(&'a self, i: usize) -> (it: RowIter<'a, T>)
        requires
            self.wf(),
            i < self.spec_nrow(),
        ensures
            it.wf(),
            it.matrix_spec() == *self,
            it.row() == i,
            it.pos() == 0,
            it.remaining() == self.row_seq(i as int),
            it.remaining().len() == self.spec_ncol(),
            forall|k: int|
                0 <= k < self.spec_ncol() ==> it.remaining()[k] == self.spec_get(i as int, k),
    {
        let it = RowIter { matrix: self, i, j: 0 };
        proof {
            assert(it.remaining() =~= self.row_seq(i as int));
        }
        it
    }

    /// Returns a cursor over column `j`: it yields exactly `nrow`
    /// elements, equal in order to
    /// `get(0, j), get(1, j), .., get(nrow - 1, j)`.
    pub fn iter_over_column<'a>(&'a self, j: usize) -> (it: ColIter<'a, T>)
        requires
            self.wf(),
            j < self.spec_ncol(),
        ensures
            it.wf(),
            it.matrix_spec() == *self,
            it.col() == j,
            it.pos() == 0,
            it.remaining() == self.col_seq(j as int),
            it.remaining().len() == self.spec_nrow(),
            forall|k: int|
                0 <= k < self.spec_nrow() ==> it.remaining()[k] == self.spec_get(k, j as int),
    {
        let it = ColIter { matrix: self, i: 0, j };
        proof {
            assert(it.remaining() =~= self.col_seq(j as int));
        }
        it
    }
}

/// A transient, forward-only cursor over one row of a matrix. It borrows
/// the matrix for its lifetime and produces each of the row's `ncol`
/// elements exactly once, in column order, then signals exhaustion.
pub struct RowIter<'a, T: IsNumerical> {
    /// The matrix traversed.
    matrix: &'a FullMatrix<T>,
    /// The row traversed.
    i: usize,
    /// The next column to produce.
    j: usize,
}

impl<'a, T: IsNumerical> RowIter<'a, T> {
    /// The matrix traversed.
    pub closed spec fn matrix_spec(self) -> FullMatrix<T> {
        *self.matrix
    }

    /// The row traversed.
    pub closed spec fn row(self) -> int {
        self.i as int
    }

    /// The position of the next column to produce.
    pub closed spec fn pos(self) -> int {
        self.j as int
    }

    /// The cursor stands on an existing row of a well-formed matrix and
    /// its position never passes the end of the row.
    pub open spec fn wf(self) -> bool {
        &&& self.matrix_spec().wf()
        &&& 0 <= self.row() < self.matrix_spec().spec_nrow()
        &&& 0 <= self.pos() <= self.matrix_spec().spec_ncol()
    }

    /// The elements not yet produced, in the order they will come.
    pub open spec fn remaining(self) -> Seq<T> {
        self.matrix_spec().row_seq(self.row()).skip(self.pos())
    }

    /// Produces the element at the current position and steps forward,
    /// or signals exhaustion once the whole row has been produced.
    pub fn next(&mut self) -> (r: Option<T>)
        requires
            old(self).wf(),
        ensures
            final(self).wf(),
            final(self).matrix_spec() == old(self).matrix_spec(),
            final(self).row() == old(self).row(),
            old(self).pos() < old(self).matrix_spec().spec_ncol() ==> {
                &&& r == Some(
                    old(self).matrix_spec().spec_get(old(self).row(), old(self).pos()),
                )
                &&& final(self).pos() == old(self).pos() + 1
            },
            old(self).pos() >= old(self).matrix_spec().spec_ncol() ==> {
                &&& r is None
                &&& final(self).pos() == old(self).pos()
            },
    {
        if self.j < self.matrix.ncol {
            let value = *self.matrix.get(self.i, self.j);
            self.j = self.j + 1;
            Some(value)
        } else {
            None
        }
    }
}

/// A transient, forward-only cursor over one column of a matrix. It
/// borrows the matrix for its lifetime and produces each of the column's
/// `nrow` elements exactly once, in row order, then signals exhaustion.
/// Successive elements stride by `ncol` through the backing storage, so
/// this traversal is not contiguous, unlike a row traversal.
pub struct ColIter<'a, T: IsNumerical> {
    /// The matrix traversed.
    matrix: &'a FullMatrix<T>,
    /// The position of the next row to produce.
    i: usize,
    /// The column traversed.
    j: usize,
}

impl<'a, T: IsNumerical> ColIter<'a, T> {
    /// The matrix traversed.
    pub closed spec fn matrix_spec(self) -> FullMatrix<T> {
        *self.matrix
    }

    /// The position of the next row to produce.
    pub closed spec fn pos(self) -> int {
        self.i as int
    }

    /// The column traversed.
    pub closed spec fn col(self) -> int {
        self.j as int
    }

    /// The cursor stands on an existing column of a well-formed matrix
    /// and its position never passes the end of the column.
    pub open spec fn wf(self) -> bool {
        &&& self.matrix_spec().wf()
        &&& 0 <= self.col() < self.matrix_spec().spec_ncol()
        &&& 0 <= self.pos() <= self.matrix_spec().spec_nrow()
    }

    /// The elements not yet produced, in the order they will come.
    pub open spec fn remaining(self) -> Seq<T> {
        self.matrix_spec().col_seq(self.col()).skip(self.pos())
    }

    /// Produces the element at the current position and steps forward,
    /// or signals exhaustion once the whole column has been produced.
    pub fn next(&mut self) -> (r: Option<T>)
        requires
            old(self).wf(),
        ensures
            final(self).wf(),
            final(self).matrix_spec() == old(self).matrix_spec(),
            final(self).col() == old(self).col(),
            old(self).pos() < old(self).matrix_spec().spec_nrow() ==> {
                &&& r == Some(
                    old(self).matrix_spec().spec_get(old(self).pos(), old(self).col()),
                )
                &&& final(self).pos() == old(self).pos() + 1
            },
            old(self).pos() >= old(self).matrix_spec().spec_nrow() ==> {
                &&& r is None
                &&& final(self).pos() == old(self).pos()
            },
    {
        if self.i < self.matrix.nrow {
            let value = *self.matrix.get(self.i, self.j);
            self.i = self.i + 1;
            Some(value)
        } else {
            None
        }
    }
}

/// In a row-major layout with `ncol` columns, the offset of an in-range
/// element lies within an `nrow * ncol` backing store.
proof fn lemma_row_major_offset(i: int, j: int, nrow: int, ncol: int) by (nonlinear_arith)
    requires
        0 <= i < nrow,
        0 <= j < ncol,
    ensures
        0 <= i * ncol + j < nrow * ncol,
{
}

} // verus!
