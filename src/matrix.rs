//! Matrices stored as sequences of equally long column vectors.
use std::rc::Rc;

use vstd::prelude::*;

use crate::error::MatrixError;
use crate::sample::Sample;
use crate::scalar::Scalar;
use crate::vector::{
    add_seq, add_seq_fits, dot_fits, dot_seq, sub_seq, sub_seq_fits, vector_outcome, Vector,
};
use crate::zero_one::{One, Zero};

verus! {

/// The number of rows of a matrix given by its columns: the length of the
/// first column, and zero when there is none.
pub open spec fn rows_of<T>(m: Seq<Seq<T>>) -> nat {
    if m.len() == 0 {
        0
    } else {
        m[0].len()
    }
}

/// All columns have one length.
pub open spec fn is_rectangular<T>(m: Seq<Seq<T>>) -> bool {
    forall|c: int| 0 <= c < m.len() ==> (#[trigger] m[c]).len() == rows_of(m)
}

/// The `rows` by `cols` matrix whose every entry is `x`.
pub open spec fn filled<T>(rows: nat, cols: nat, x: T) -> Seq<Seq<T>> {
    Seq::new(cols, |c: int| Seq::new(rows, |r: int| x))
}

/// The `size` by `size` identity matrix.
pub open spec fn identity_of<T: Zero + One>(size: nat) -> Seq<Seq<T>> {
    Seq::new(
        size,
        |c: int| Seq::new(size, |r: int| if r == c { T::spec_one() } else { T::spec_zero() }),
    )
}

/// The sub-block of `m` with `rows` rows and `cols` columns whose top left
/// entry is at row `row` and column `col`.
pub open spec fn segment_of<T>(m: Seq<Seq<T>>, row: int, col: int, rows: int, cols: int) -> Seq<
    Seq<T>,
> {
    Seq::new(cols as nat, |c: int| m[col + c].subrange(row, row + rows))
}

/// Whether a block of `rows` by `cols` at (`row`, `col`) passes the bounds
/// check of segment extraction and injection on `m`.
///
/// The check is strict: the block must end before the last row and before the
/// last column, so a block that reaches the bottom or right edge exactly is
/// rejected.
pub open spec fn segment_in_bounds<T>(m: Seq<Seq<T>>, row: int, col: int, rows: int, cols: int) -> bool {
    row + rows < rows_of(m) && col + cols < m.len()
}

/// `m` with `s` written over it from row `row` and column `col` on.
pub open spec fn with_segment<T>(m: Seq<Seq<T>>, row: int, col: int, s: Seq<Seq<T>>) -> Seq<
    Seq<T>,
> {
    Seq::new(
        m.len(),
        |c: int|
            Seq::new(
                m[c].len(),
                |r: int|
                    if col <= c < col + s.len() && row <= r < row + rows_of(s) {
                        s[c - col][r - row]
                    } else {
                        m[c][r]
                    },
            ),
    )
}

/// The transpose of `m`: its rows become the columns.
pub open spec fn transpose_of<T>(m: Seq<Seq<T>>) -> Seq<Seq<T>> {
    Seq::new(rows_of(m), |c: int| Seq::new(m.len(), |r: int| m[r][c]))
}

/// `a` with the rows of `b` appended below, column by column.
pub open spec fn stacked<T>(a: Seq<Seq<T>>, b: Seq<Seq<T>>) -> Seq<Seq<T>> {
    Seq::new(a.len(), |c: int| a[c] + b[c])
}

/// The entry-wise sum of two matrices.
pub open spec fn add_matrix<T: Scalar>(a: Seq<Seq<T>>, b: Seq<Seq<T>>) -> Seq<Seq<T>> {
    Seq::new(a.len(), |c: int| add_seq(a[c], b[c]))
}

/// Every entry-wise sum of `a` and `b` is representable.
pub open spec fn add_matrix_fits<T: Scalar>(a: Seq<Seq<T>>, b: Seq<Seq<T>>) -> bool {
    forall|c: int| 0 <= c < a.len() ==> add_seq_fits(#[trigger] a[c], b[c])
}

/// The entry-wise difference of two matrices.
pub open spec fn sub_matrix<T: Scalar>(a: Seq<Seq<T>>, b: Seq<Seq<T>>) -> Seq<Seq<T>> {
    Seq::new(a.len(), |c: int| sub_seq(a[c], b[c]))
}

/// Every entry-wise difference of `a` and `b` is representable.
pub open spec fn sub_matrix_fits<T: Scalar>(a: Seq<Seq<T>>, b: Seq<Seq<T>>) -> bool {
    forall|c: int| 0 <= c < a.len() ==> sub_seq_fits(#[trigger] a[c], b[c])
}

/// `a` and `b` have the same numbers of columns and of rows.
pub open spec fn same_shape<T>(a: Seq<Seq<T>>, b: Seq<Seq<T>>) -> bool {
    a.len() == b.len() && rows_of(a) == rows_of(b)
}

/// What adding two matrices gives: a differing column count is reported
/// first, then a differing row count, found when the columns are paired.
pub open spec fn add_matrix_outcome<T: Scalar>(a: Seq<Seq<T>>, b: Seq<Seq<T>>) -> Result<
    Seq<Seq<T>>,
    MatrixError,
> {
    if a.len() != b.len() {
        Err(MatrixError::ColumnMismatch)
    } else if rows_of(a) != rows_of(b) {
        Err(MatrixError::LengthMismatch)
    } else {
        Ok(add_matrix(a, b))
    }
}

/// What subtracting matrix `b` from matrix `a` gives, with errors as for
/// addition.
pub open spec fn sub_matrix_outcome<T: Scalar>(a: Seq<Seq<T>>, b: Seq<Seq<T>>) -> Result<
    Seq<Seq<T>>,
    MatrixError,
> {
    if a.len() != b.len() {
        Err(MatrixError::ColumnMismatch)
    } else if rows_of(a) != rows_of(b) {
        Err(MatrixError::LengthMismatch)
    } else {
        Ok(sub_matrix(a, b))
    }
}

/// Row `i` of `m`.
pub open spec fn row_of<T>(m: Seq<Seq<T>>, i: int) -> Seq<T> {
    Seq::new(m.len(), |k: int| m[k][i])
}

/// The row vector `v` times the matrix `m`: entry `j` is the dot product of
/// `v` with column `j`.
pub open spec fn vec_mat<T: Scalar>(v: Seq<T>, m: Seq<Seq<T>>) -> Seq<T> {
    Seq::new(m.len(), |j: int| dot_seq(v, m[j]))
}

/// Every dot product of `vec_mat(v, m)` can be computed without overflow.
pub open spec fn vec_mat_fits<T: Scalar>(v: Seq<T>, m: Seq<Seq<T>>) -> bool {
    forall|j: int| 0 <= j < m.len() ==> dot_fits(v, #[trigger] m[j])
}

/// What multiplying the row vector `v` by the matrix `m` gives.
pub open spec fn vec_mat_outcome<T: Scalar>(v: Seq<T>, m: Seq<Seq<T>>) -> Result<Seq<T>, MatrixError> {
    if v.len() == rows_of(m) {
        Ok(vec_mat(v, m))
    } else {
        Err(MatrixError::LengthMismatch)
    }
}

/// The matrix product `a * b`: the entry at row `i` and column `j` is the dot
/// product of row `i` of `a` with column `j` of `b`.
pub open spec fn mat_mul<T: Scalar>(a: Seq<Seq<T>>, b: Seq<Seq<T>>) -> Seq<Seq<T>> {
    Seq::new(b.len(), |j: int| Seq::new(rows_of(a), |i: int| dot_seq(row_of(a, i), b[j])))
}

/// Every dot product of `mat_mul(a, b)` can be computed without overflow.
pub open spec fn mat_mul_fits<T: Scalar>(a: Seq<Seq<T>>, b: Seq<Seq<T>>) -> bool {
    forall|i: int, j: int|
        0 <= i < rows_of(a) && 0 <= j < b.len() ==> dot_fits(#[trigger] row_of(a, i), #[trigger] b[j])
}

/// What the matrix product `a * b` gives: `a` must have as many columns as
/// `b` has rows.
pub open spec fn mat_mul_outcome<T: Scalar>(a: Seq<Seq<T>>, b: Seq<Seq<T>>) -> Result<
    Seq<Seq<T>>,
    MatrixError,
> {
    if a.len() == rows_of(b) {
        Ok(mat_mul(a, b))
    } else {
        Err(MatrixError::LengthMismatch)
    }
}

/// The values of a matrix result, or its error.
pub open spec fn matrix_outcome<T>(r: Result<Matrix<T>, MatrixError>) -> Result<
    Seq<Seq<T>>,
    MatrixError,
> {
    match r {
        Ok(m) => Ok(m@),
        Err(e) => Err(e),
    }
}

/// A matrix, as a sequence of columns of one length.
///
/// The entry at row `r` and column `c` is element `r` of column `c`.
#[derive(Debug, PartialEq)]
pub struct Matrix<T> {
    columns: Vec<Vector<T>>,
}

impl<T> View for Matrix<T> {
    type V = Seq<Seq<T>>;

    closed spec fn view(&self) -> Seq<Seq<T>> {
        self.columns@.map_values(|v: Vector<T>| v@)
    }
}

impl<T> Matrix<T> {
    /// All columns of the matrix have one length.
    pub open spec fn wf(&self) -> bool {
        is_rectangular(self@)
    }
}

impl<T: Zero> Matrix<T> {
    /// The `rows` by `columns` matrix of zeros.
    pub fn zero(rows: usize, columns: usize) -> (r: Matrix<T>)
        ensures
            r.wf(),
            r@ == filled(rows as nat, columns as nat, T::spec_zero()),
    {
        let mut cols: Vec<Vector<T>> = Vec::with_capacity(columns);
        let mut c: usize = 0;
        while c < columns
            invariant
                c <= columns,
                cols@.len() == c,
                forall|k: int| 0 <= k < c ==> (#[trigger] cols@[k])@ == Seq::new(rows as nat, |r: int| T::spec_zero()),
            decreases columns - c,
        {
            let mut cells: Vec<Rc<T>> = Vec::with_capacity(rows);
            let mut r: usize = 0;
            while r < rows
                invariant
                    r <= rows,
                    cells@.len() == r,
                    forall|k: int| 0 <= k < r ==> *cells@[k] == T::spec_zero(),
                decreases rows - r,
            {
                cells.push(Rc::new(T::zero()));
                r = r + 1;
            }
            let column = Vector::from_cells(cells);
            assert(column@ =~= Seq::new(rows as nat, |r: int| T::spec_zero()));
            cols.push(column);
            c = c + 1;
        }
        let m = Matrix { columns: cols };
        assert(m@ =~= filled(rows as nat, columns as nat, T::spec_zero()));
        m
    }
}

impl<T: Zero + One> Matrix<T> {
    /// The `size` by `size` identity matrix: ones on the diagonal, zeros
    /// elsewhere.
    pub fn identity(size: usize) -> (r: Matrix<T>)
        ensures
            r.wf(),
            r@ == identity_of::<T>(size as nat),
    {
        let mut cols: Vec<Vector<T>> = Vec::with_capacity(size);
        let mut c: usize = 0;
        while c < size
            invariant
                c <= size,
                cols@.len() == c,
                forall|k: int| 0 <= k < c ==> (#[trigger] cols@[k])@ == identity_of::<T>(size as nat)[k],
            decreases size - c,
        {
            let mut cells: Vec<Rc<T>> = Vec::with_capacity(size);
            let mut r: usize = 0;
            while r < size
                invariant
                    r <= size,
                    c < size,
                    cells@.len() == r,
                    forall|k: int| 0 <= k < r ==> *cells@[k] == (if k == c { T::spec_one() } else { T::spec_zero() }),
                decreases size - r,
            {
                if r == c {
                    cells.push(Rc::new(T::one()));
                } else {
                    cells.push(Rc::new(T::zero()));
                }
                r = r + 1;
            }
            let column = Vector::from_cells(cells);
            assert(column@ =~= identity_of::<T>(size as nat)[c as int]);
            cols.push(column);
            c = c + 1;
        }
        let m = Matrix { columns: cols };
        assert(m@ =~= identity_of::<T>(size as nat));
        m
    }
}

impl<T: Sample> Matrix<T> {
    /// The `rows` by `columns` matrix whose entries are drawn at random, each
    /// on its own.
    pub fn random(rows: usize, columns: usize) -> (r: Matrix<T>)
        ensures
            r.wf(),
            r@.len() == columns,
            forall|c: int| 0 <= c < columns ==> (#[trigger] r@[c]).len() == rows,
    {
        Matrix::from_function(rows, columns, |_r: usize, _c: usize| T::sample())
    }
}

impl<T> Matrix<T> {
    /// Builds a matrix from its columns, which must all have one length.
    pub fn from_vec(columns: Vec<Vector<T>>) -> (r: Result<Matrix<T>, MatrixError>)
        ensures
            is_rectangular(columns@.map_values(|v: Vector<T>| v@)) ==> matrix_outcome(r) == Ok::<
                Seq<Seq<T>>,
                MatrixError,
            >(columns@.map_values(|v: Vector<T>| v@)),
            !is_rectangular(columns@.map_values(|v: Vector<T>| v@)) ==> r == Err::<
                Matrix<T>,
                MatrixError,
            >(MatrixError::UnequalColumnLength),
            r matches Ok(m) ==> m.wf(),
    {
        let ghost cols = columns@.map_values(|v: Vector<T>| v@);
        if columns.len() > 0 {
            let len_first = columns[0].len();
            let mut i: usize = 0;
            while i < columns.len()
                invariant
                    cols == columns@.map_values(|v: Vector<T>| v@),
                    columns@.len() > 0,
                    len_first == cols[0].len(),
                    i <= columns@.len(),
                    forall|k: int| 0 <= k < i ==> (#[trigger] cols[k]).len() == len_first,
                decreases columns@.len() - i,
            {
                if columns[i].len() != len_first {
                    assert(cols[i as int].len() != rows_of(cols));
                    return Err(MatrixError::UnequalColumnLength);
                }
                i = i + 1;
            }
        }
        let m = Matrix { columns };
        assert(m@ == cols);
        Ok(m)
    }

    /// The `rows` by `columns` matrix whose entry at row `r` and column `c` is
    /// `function(r, c)`.
    pub fn from_function<F: Fn(usize, usize) -> T>(rows: usize, columns: usize, function: F) -> (r:
        Matrix<T>)
        requires
            forall|i: usize, j: usize| i < rows && j < columns ==> function.requires((i, j)),
        ensures
            r.wf(),
            r@.len() == columns,
            forall|c: int| 0 <= c < columns ==> (#[trigger] r@[c]).len() == rows,
            forall|i: int, j: int|
                0 <= i < rows && 0 <= j < columns ==> function.ensures(
                    (i as usize, j as usize),
                    #[trigger] r@[j][i],
                ),
    {
        let mut cols: Vec<Vector<T>> = Vec::with_capacity(columns);
        let mut c: usize = 0;
        while c < columns
            invariant
                c <= columns,
                cols@.len() == c,
                forall|i: usize, j: usize| i < rows && j < columns ==> function.requires((i, j)),
                forall|k: int| 0 <= k < c ==> (#[trigger] cols@[k])@.len() == rows,
                forall|i: int, k: int|
                    0 <= i < rows && 0 <= k < c ==> function.ensures(
                        (i as usize, k as usize),
                        #[trigger] cols@[k]@[i],
                    ),
            decreases columns - c,
        {
            let mut cells: Vec<Rc<T>> = Vec::with_capacity(rows);
            let mut r: usize = 0;
            while r < rows
                invariant
                    r <= rows,
                    c < columns,
                    cells@.len() == r,
                    forall|i: usize, j: usize| i < rows && j < columns ==> function.requires((i, j)),
                    forall|k: int| 0 <= k < r ==> function.ensures((k as usize, c), *#[trigger] cells@[k]),
                decreases rows - r,
            {
                cells.push(Rc::new(function(r, c)));
                r = r + 1;
            }
            let column = Vector::from_cells(cells);
            cols.push(column);
            c = c + 1;
        }
        Matrix { columns: cols }
    }

    /// The number of columns.
    pub fn ncols(&self) -> (r: usize)
        ensures
            r == self@.len(),
    {
        self.columns.len()
    }

    /// The number of rows: the length of the columns, and zero when there is
    /// no column.
    pub fn nrows(&self) -> (r: usize)
        ensures
            r == rows_of(self@),
    {
        if self.columns.len() == 0 {
            return 0;
        }
        self.columns[0].len()
    }

    /// Column `col`.
    pub fn column(&self, col: usize) -> (r: Result<&Vector<T>, MatrixError>)
        ensures
            col < self@.len() ==> (r matches Ok(v) && v@ == self@[col as int]),
            col >= self@.len() ==> r == Err::<&Vector<T>, MatrixError>(MatrixError::IndexError),
    {
        if col < self.columns.len() {
            Ok(&self.columns[col])
        } else {
            Err(MatrixError::IndexError)
        }
    }

    /// The entry at row `row` and column `col`.
    pub fn get(&self, row: usize, col: usize) -> (r: Result<&T, MatrixError>)
        requires
            self.wf(),
        ensures
            row < rows_of(self@) && col < self@.len() ==> r == Ok::<&T, MatrixError>(
                &self@[col as int][row as int],
            ),
            !(row < rows_of(self@) && col < self@.len()) ==> r == Err::<&T, MatrixError>(
                MatrixError::IndexError,
            ),
    {
        if col >= self.columns.len() {
            return Err(MatrixError::IndexError);
        }
        if row >= self.nrows() {
            return Err(MatrixError::IndexError);
        }
        self.columns[col].get(row)
    }

    /// The sub-block of `rows` rows and `cols` columns whose top left entry is
    /// at row `row` and column `col`. Its columns share the cells of `self`.
    ///
    /// The block must end strictly before the last row and the last column of
    /// `self` (see `segment_in_bounds`); otherwise this fails with
    /// `IndexError`.
    pub fn get_segment(&self, row: usize, col: usize, rows: usize, cols: usize) -> (r: Result<
        Matrix<T>,
        MatrixError,
    >)
        requires
            self.wf(),
        ensures
            segment_in_bounds(self@, row as int, col as int, rows as int, cols as int)
                ==> matrix_outcome(r) == Ok::<Seq<Seq<T>>, MatrixError>(
                segment_of(self@, row as int, col as int, rows as int, cols as int),
            ),
            !segment_in_bounds(self@, row as int, col as int, rows as int, cols as int) ==> r
                == Err::<Matrix<T>, MatrixError>(MatrixError::IndexError),
            r matches Ok(m) ==> m.wf(),
    {
        let nrows = self.nrows();
        let ncols = self.columns.len();
        if rows >= nrows || row >= nrows - rows {
            return Err(MatrixError::IndexError);
        }
        if cols >= ncols || col >= ncols - cols {
            return Err(MatrixError::IndexError);
        }
        let ghost target = segment_of(self@, row as int, col as int, rows as int, cols as int);
        let mut columns: Vec<Vector<T>> = Vec::with_capacity(cols);
        let mut c: usize = 0;
        while c < cols
            invariant
                self.wf(),
                nrows == rows_of(self@),
                ncols == self@.len(),
                row + rows < nrows,
                col + cols < ncols,
                target == segment_of(self@, row as int, col as int, rows as int, cols as int),
                c <= cols,
                columns@.len() == c,
                forall|k: int| 0 <= k < c ==> (#[trigger] columns@[k])@ == target[k],
            decreases cols - c,
        {
            let source = &self.columns[col + c];
            assert(source@ == self@[col + c]);
            let mut cells: Vec<Rc<T>> = Vec::with_capacity(rows);
            let mut r: usize = 0;
            while r < rows
                invariant
                    source@.len() == nrows,
                    row + rows < nrows,
                    r <= rows,
                    cells@.len() == r,
                    forall|k: int| 0 <= k < r ==> *cells@[k] == source@[row + k],
                decreases rows - r,
            {
                cells.push(source.share(row + r));
                r = r + 1;
            }
            let column = Vector::from_cells(cells);
            assert(column@ =~= target[c as int]);
            columns.push(column);
            c = c + 1;
        }
        let m = Matrix { columns };
        assert(m@ =~= target);
        Ok(m)
    }

    /// Glues `other` to the right of `self`. Fails with `RowMismatch`, and
    /// leaves `self` as it was, when the two have different numbers of rows.
    pub fn augment(&mut self, other: Matrix<T>) -> (r: Result<(), MatrixError>)
        requires
            old(self).wf(),
            other.wf(),
        ensures
            final(self).wf(),
            rows_of(old(self)@) == rows_of(other@) ==> r is Ok && final(self)@ == old(self)@
                + other@,
            rows_of(old(self)@) != rows_of(other@) ==> r == Err::<(), MatrixError>(
                MatrixError::RowMismatch,
            ) && final(self)@ == old(self)@,
    {
        if self.nrows() != other.nrows() {
            return Err(MatrixError::RowMismatch);
        }
        let ghost right = other@;
        let mut other = other;
        self.columns.append(&mut other.columns);
        assert(self@ =~= old(self)@ + right);
        Ok(())
    }

    /// Puts `other` below `self`. Fails with `ColumnMismatch`, and leaves
    /// `self` as it was, when the two have different numbers of columns.
    pub fn stack(&mut self, other: Matrix<T>) -> (r: Result<(), MatrixError>)
        requires
            old(self).wf(),
            other.wf(),
        ensures
            final(self).wf(),
            old(self)@.len() == other@.len() ==> r is Ok && final(self)@ == stacked(
                old(self)@,
                other@,
            ),
            old(self)@.len() != other@.len() ==> r == Err::<(), MatrixError>(
                MatrixError::ColumnMismatch,
            ) && final(self)@ == old(self)@,
    {
        let n = self.columns.len();
        if n != other.columns.len() {
            return Err(MatrixError::ColumnMismatch);
        }
        let ghost target = stacked(self@, other@);
        let mut columns: Vec<Vector<T>> = Vec::with_capacity(n);
        let mut c: usize = 0;
        while c < n
            invariant
                n == self@.len(),
                n == other@.len(),
                target == stacked(self@, other@),
                c <= n,
                columns@.len() == c,
                forall|k: int| 0 <= k < c ==> (#[trigger] columns@[k])@ == target[k],
            decreases n - c,
        {
            let column = self.columns[c].joined(&other.columns[c]);
            columns.push(column);
            c = c + 1;
        }
        self.columns = columns;
        assert(self@ =~= target);
        assert(self.wf()) by {
            if n > 0 {
                assert forall|k: int| 0 <= k < n implies (#[trigger] self@[k]).len() == rows_of(
                    self@,
                ) by {
                    assert(old(self)@[k].len() == rows_of(old(self)@));
                    assert(other@[k].len() == rows_of(other@));
                }
            }
        }
        Ok(())
    }

    /// The transpose: entry (`r`, `c`) of the result is entry (`c`, `r`) of
    /// `self`. The result shares the cells of `self`.
    pub fn transpose(&self) -> (r: Matrix<T>)
        requires
            self.wf(),
        ensures
            r.wf(),
            r@ == transpose_of(self@),
    {
        let cols = self.columns.len();
        let rows = self.nrows();
        let ghost target = transpose_of(self@);
        let mut columns: Vec<Vector<T>> = Vec::with_capacity(rows);
        let mut i: usize = 0;
        while i < rows
            invariant
                self.wf(),
                cols == self@.len(),
                rows == rows_of(self@),
                target == transpose_of(self@),
                i <= rows,
                columns@.len() == i,
                forall|k: int| 0 <= k < i ==> (#[trigger] columns@[k])@ == target[k],
            decreases rows - i,
        {
            let mut cells: Vec<Rc<T>> = Vec::with_capacity(cols);
            let mut j: usize = 0;
            while j < cols
                invariant
                    self.wf(),
                    cols == self@.len(),
                    rows == rows_of(self@),
                    i < rows,
                    j <= cols,
                    cells@.len() == j,
                    forall|k: int| 0 <= k < j ==> *cells@[k] == self@[k][i as int],
                decreases cols - j,
            {
                assert(self@[j as int].len() == rows);
                cells.push(self.columns[j].share(i));
                j = j + 1;
            }
            let column = Vector::from_cells(cells);
            assert(column@ =~= target[i as int]);
            columns.push(column);
            i = i + 1;
        }
        let m = Matrix { columns };
        assert(m@ =~= target);
        m
    }

    /// Writes `value` at row `row` and column `col`; the entry gets a cell of
    /// its own. Fails with `IndexError`, and changes nothing, when the
    /// position is outside the matrix.
    pub fn set(&mut self, row: usize, col: usize, value: T) -> (r: Result<(), MatrixError>)
        requires
            old(self).wf(),
        ensures
            final(self).wf(),
            row < rows_of(old(self)@) && col < old(self)@.len() ==> r is Ok && final(self)@
                == old(self)@.update(col as int, old(self)@[col as int].update(row as int, value)),
            !(row < rows_of(old(self)@) && col < old(self)@.len()) ==> r == Err::<(), MatrixError>(
                MatrixError::IndexError,
            ) && final(self)@ == old(self)@,
    {
        if col >= self.columns.len() || row >= self.nrows() {
            return Err(MatrixError::IndexError);
        }
        let _ = self.columns[col].set(row, value);
        assert(self@ =~= old(self)@.update(col as int, old(self)@[col as int].update(row as int, value)));
        Ok(())
    }
}

impl<T> Clone for Matrix<T> {
    /// A matrix with the same values, sharing the cells of `self`.
    fn clone(&self) -> (r: Self)
        ensures
            r@ == self@,
    {
        let mut columns: Vec<Vector<T>> = Vec::with_capacity(self.columns.len());
        let mut c: usize = 0;
        while c < self.columns.len()
            invariant
                c <= self@.len(),
                columns@.len() == c,
                forall|k: int| 0 <= k < c ==> (#[trigger] columns@[k])@ == self@[k],
            decreases self@.len() - c,
        {
            columns.push(self.columns[c].clone());
            c = c + 1;
        }
        let m = Matrix { columns };
        assert(m@ =~= self@);
        m
    }
}

impl<T: Copy> Matrix<T> {
    /// A mutable reference to the entry at row `row` and column `col`. When
    /// its cell is shared, the entry first gets a copy of its own.
    pub fn get_mut(&mut self, row: usize, col: usize) -> (r: &mut T)
        requires
            old(self).wf(),
            row < rows_of(old(self)@),
            col < old(self)@.len(),
        ensures
            *r == old(self)@[col as int][row as int],
            final(self)@ == old(self)@.update(
                col as int,
                old(self)@[col as int].update(row as int, *final(r)),
            ),
    {
        assert(self.columns@[col as int]@ == self@[col as int]);
        self.columns[col].get_mut(row)
    }

    /// Copies every entry of `segment` into `self`, with the top left entry of
    /// `segment` going to row `row` and column `col`. Each written entry gets
    /// a cell of its own.
    ///
    /// The same strict bounds check as `get_segment` applies: on failure this
    /// returns `IndexError` and changes nothing.
    pub fn set_segment(&mut self, row: usize, col: usize, segment: Matrix<T>) -> (r: Result<
        (),
        MatrixError,
    >)
        requires
            old(self).wf(),
            segment.wf(),
        ensures
            final(self).wf(),
            segment_in_bounds(
                old(self)@,
                row as int,
                col as int,
                rows_of(segment@) as int,
                segment@.len() as int,
            ) ==> r is Ok && final(self)@ == with_segment(old(self)@, row as int, col as int, segment@),
            !segment_in_bounds(
                old(self)@,
                row as int,
                col as int,
                rows_of(segment@) as int,
                segment@.len() as int,
            ) ==> r == Err::<(), MatrixError>(MatrixError::IndexError) && final(self)@ == old(self)@,
    {
        let rows = segment.nrows();
        let cols = segment.columns.len();
        let nrows = self.nrows();
        let ncols = self.columns.len();
        if rows >= nrows || row >= nrows - rows {
            return Err(MatrixError::IndexError);
        }
        if cols >= ncols || col >= ncols - cols {
            return Err(MatrixError::IndexError);
        }
        let ghost before = self@;
        let ghost s = segment@;
        let mut i: usize = 0;
        while i < cols
            invariant
                segment.wf(),
                s == segment@,
                rows == rows_of(s),
                cols == s.len(),
                nrows == rows_of(before),
                ncols == before.len(),
                is_rectangular(before),
                row + rows < nrows,
                col + cols < ncols,
                i <= cols,
                self@.len() == ncols,
                forall|c: int| 0 <= c < ncols ==> (#[trigger] self@[c]).len() == nrows,
                forall|c: int, r: int|
                    0 <= c < ncols && 0 <= r < nrows ==> #[trigger] self@[c][r] == if col <= c < col
                        + i && row <= r < row + rows {
                        s[c - col][r - row]
                    } else {
                        before[c][r]
                    },
            decreases cols - i,
        {
            let mut j: usize = 0;
            while j < rows
                invariant
                    segment.wf(),
                    s == segment@,
                    rows == rows_of(s),
                    cols == s.len(),
                    nrows == rows_of(before),
                    ncols == before.len(),
                    row + rows < nrows,
                    col + cols < ncols,
                    i < cols,
                    j <= rows,
                    self@.len() == ncols,
                    forall|c: int| 0 <= c < ncols ==> (#[trigger] self@[c]).len() == nrows,
                    forall|c: int, r: int|
                        0 <= c < ncols && 0 <= r < nrows ==> #[trigger] self@[c][r] == if (col <= c
                            < col + i && row <= r < row + rows) || (c == col + i && row <= r < row
                            + j) {
                            s[c - col][r - row]
                        } else {
                            before[c][r]
                        },
                decreases rows - j,
            {
                assert(s[i as int].len() == rows);
                let value: T = *segment.columns[i].at(j);
                let ghost prev = self@;
                let _ = self.columns[col + i].set(row + j, value);
                assert(self@ =~= prev.update(
                    col + i,
                    prev[col + i].update(row + j, value),
                ));
                j = j + 1;
            }
            i = i + 1;
        }
        assert(self@ =~~= with_segment(before, row as int, col as int, s));
        Ok(())
    }
}

impl<T: Scalar> Matrix<T> {
    /// The entry-wise sum of two matrices, computed into new storage.
    pub fn add_ref(&self, other: &Matrix<T>) -> (r: Result<Matrix<T>, MatrixError>)
        requires
            self.wf(),
            other.wf(),
            same_shape(self@, other@) ==> add_matrix_fits(self@, other@),
        ensures
            matrix_outcome(r) == add_matrix_outcome(self@, other@),
            r matches Ok(m) ==> m.wf(),
    {
        let n = self.columns.len();
        if n != other.columns.len() {
            return Err(MatrixError::ColumnMismatch);
        }
        if self.nrows() != other.nrows() {
            return Err(MatrixError::LengthMismatch);
        }
        let ghost target = add_matrix(self@, other@);
        let mut columns: Vec<Vector<T>> = Vec::with_capacity(n);
        let mut c: usize = 0;
        while c < n
            invariant
                self.wf(),
                other.wf(),
                n == self@.len(),
                n == other@.len(),
                rows_of(self@) == rows_of(other@),
                add_matrix_fits(self@, other@),
                target == add_matrix(self@, other@),
                c <= n,
                columns@.len() == c,
                forall|k: int| 0 <= k < c ==> (#[trigger] columns@[k])@ == target[k],
            decreases n - c,
        {
            assert(self@[c as int].len() == other@[c as int].len());
            assert(add_seq_fits(self@[c as int], other@[c as int]));
            match self.columns[c].add_ref(&other.columns[c]) {
                Ok(column) => columns.push(column),
                Err(e) => return Err(e),
            }
            c = c + 1;
        }
        let m = Matrix { columns };
        assert(m@ =~= target);
        Ok(m)
    }

    /// The entry-wise sum of two matrices, consuming both and reusing the
    /// storage of the columns of `self`.
    pub fn add(self, other: Matrix<T>) -> (r: Result<Matrix<T>, MatrixError>)
        requires
            self.wf(),
            other.wf(),
            same_shape(self@, other@) ==> add_matrix_fits(self@, other@),
        ensures
            matrix_outcome(r) == add_matrix_outcome(self@, other@),
            r matches Ok(m) ==> m.wf(),
    {
        let n = self.columns.len();
        if n != other.columns.len() {
            return Err(MatrixError::ColumnMismatch);
        }
        if self.nrows() != other.nrows() {
            return Err(MatrixError::LengthMismatch);
        }
        let ghost a = self@;
        let ghost b = other@;
        let ghost target = add_matrix(a, b);
        let mut left = self.columns;
        let mut right = other.columns;
        let mut columns: Vec<Vector<T>> = Vec::with_capacity(n);
        let mut c: usize = 0;
        while c < n
            invariant
                is_rectangular(a),
                is_rectangular(b),
                n == a.len(),
                n == b.len(),
                rows_of(a) == rows_of(b),
                add_matrix_fits(a, b),
                target == add_matrix(a, b),
                left@.len() == n,
                right@.len() == n,
                forall|k: int| c <= k < n ==> (#[trigger] left@[k])@ == a[k],
                forall|k: int| c <= k < n ==> (#[trigger] right@[k])@ == b[k],
                c <= n,
                columns@.len() == c,
                forall|k: int| 0 <= k < c ==> (#[trigger] columns@[k])@ == target[k],
            decreases n - c,
        {
            assert(a[c as int].len() == b[c as int].len());
            assert(add_seq_fits(a[c as int], b[c as int]));
            let mut x = Vector::from_cells(Vec::new());
            let mut y = Vector::from_cells(Vec::new());
            std::mem::swap(&mut x, &mut left[c]);
            std::mem::swap(&mut y, &mut right[c]);
            match x.add(y) {
                Ok(column) => columns.push(column),
                Err(e) => return Err(e),
            }
            c = c + 1;
        }
        let m = Matrix { columns };
        assert(m@ =~= target);
        Ok(m)
    }

    /// The entry-wise difference of two matrices, computed into new storage.
    pub fn sub_ref(&self, other: &Matrix<T>) -> (r: Result<Matrix<T>, MatrixError>)
        requires
            self.wf(),
            other.wf(),
            same_shape(self@, other@) ==> sub_matrix_fits(self@, other@),
        ensures
            matrix_outcome(r) == sub_matrix_outcome(self@, other@),
            r matches Ok(m) ==> m.wf(),
    {
        let n = self.columns.len();
        if n != other.columns.len() {
            return Err(MatrixError::ColumnMismatch);
        }
        if self.nrows() != other.nrows() {
            return Err(MatrixError::LengthMismatch);
        }
        let ghost target = sub_matrix(self@, other@);
        let mut columns: Vec<Vector<T>> = Vec::with_capacity(n);
        let mut c: usize = 0;
        while c < n
            invariant
                self.wf(),
                other.wf(),
                n == self@.len(),
                n == other@.len(),
                rows_of(self@) == rows_of(other@),
                sub_matrix_fits(self@, other@),
                target == sub_matrix(self@, other@),
                c <= n,
                columns@.len() == c,
                forall|k: int| 0 <= k < c ==> (#[trigger] columns@[k])@ == target[k],
            decreases n - c,
        {
            assert(self@[c as int].len() == other@[c as int].len());
            assert(sub_seq_fits(self@[c as int], other@[c as int]));
            match self.columns[c].sub_ref(&other.columns[c]) {
                Ok(column) => columns.push(column),
                Err(e) => return Err(e),
            }
            c = c + 1;
        }
        let m = Matrix { columns };
        assert(m@ =~= target);
        Ok(m)
    }

    /// The entry-wise difference of two matrices, consuming both and reusing the
    /// storage of the columns of `self`.
    pub fn sub(self, other: Matrix<T>) -> (r: Result<Matrix<T>, MatrixError>)
        requires
            self.wf(),
            other.wf(),
            same_shape(self@, other@) ==> sub_matrix_fits(self@, other@),
        ensures
            matrix_outcome(r) == sub_matrix_outcome(self@, other@),
            r matches Ok(m) ==> m.wf(),
    {
        let n = self.columns.len();
        if n != other.columns.len() {
            return Err(MatrixError::ColumnMismatch);
        }
        if self.nrows() != other.nrows() {
            return Err(MatrixError::LengthMismatch);
        }
        let ghost a = self@;
        let ghost b = other@;
        let ghost target = sub_matrix(a, b);
        let mut left = self.columns;
        let mut right = other.columns;
        let mut columns: Vec<Vector<T>> = Vec::with_capacity(n);
        let mut c: usize = 0;
        while c < n
            invariant
                is_rectangular(a),
                is_rectangular(b),
                n == a.len(),
                n == b.len(),
                rows_of(a) == rows_of(b),
                sub_matrix_fits(a, b),
                target == sub_matrix(a, b),
                left@.len() == n,
                right@.len() == n,
                forall|k: int| c <= k < n ==> (#[trigger] left@[k])@ == a[k],
                forall|k: int| c <= k < n ==> (#[trigger] right@[k])@ == b[k],
                c <= n,
                columns@.len() == c,
                forall|k: int| 0 <= k < c ==> (#[trigger] columns@[k])@ == target[k],
            decreases n - c,
        {
            assert(a[c as int].len() == b[c as int].len());
            assert(sub_seq_fits(a[c as int], b[c as int]));
            let mut x = Vector::from_cells(Vec::new());
            let mut y = Vector::from_cells(Vec::new());
            std::mem::swap(&mut x, &mut left[c]);
            std::mem::swap(&mut y, &mut right[c]);
            match x.sub(y) {
                Ok(column) => columns.push(column),
                Err(e) => return Err(e),
            }
            c = c + 1;
        }
        let m = Matrix { columns };
        assert(m@ =~= target);
        Ok(m)
    }

    /// The matrix product `self * other`, computed into new storage.
    pub fn mul_ref(&self, other: &Matrix<T>) -> (r: Result<Matrix<T>, MatrixError>)
        requires
            self.wf(),
            other.wf(),
            self@.len() == rows_of(other@) ==> mat_mul_fits(self@, other@),
        ensures
            matrix_outcome(r) == mat_mul_outcome(self@, other@),
            r matches Ok(m) ==> m.wf(),
    {
        if self.columns.len() != other.nrows() {
            return Err(MatrixError::LengthMismatch);
        }
        let rows = self.transpose();
        let n = rows.columns.len();
        assert(rows@.len() == n);
        let ghost target = mat_mul(self@, other@);
        let mut columns: Vec<Vector<T>> = Vec::with_capacity(other.columns.len());
        let mut j: usize = 0;
        while j < other.columns.len()
            invariant
                self.wf(),
                other.wf(),
                self@.len() == rows_of(other@),
                mat_mul_fits(self@, other@),
                rows@ == transpose_of(self@),
                n == rows_of(self@),
                rows.columns@.len() == n,
                target == mat_mul(self@, other@),
                j <= other@.len(),
                columns@.len() == j,
                forall|k: int| 0 <= k < j ==> (#[trigger] columns@[k])@ == target[k],
            decreases other@.len() - j,
        {
            let mut cells: Vec<Rc<T>> = Vec::with_capacity(n);
            let mut i: usize = 0;
            while i < n
                invariant
                    self.wf(),
                    other.wf(),
                    self@.len() == rows_of(other@),
                    mat_mul_fits(self@, other@),
                    rows@ == transpose_of(self@),
                    n == rows_of(self@),
                    target == mat_mul(self@, other@),
                    j < other@.len(),
                    rows.columns@.len() == n,
                    i <= n,
                    cells@.len() == i,
                    forall|k: int| 0 <= k < i ==> *cells@[k] == target[j as int][k],
                decreases n - i,
            {
                assert(rows.columns@[i as int]@ == rows@[i as int]);
                assert(rows@[i as int] =~= row_of(self@, i as int));
                assert(other@[j as int].len() == rows_of(other@));
                assert(dot_fits(row_of(self@, i as int), other@[j as int]));
                match rows.columns[i].dot_ref(&other.columns[j]) {
                    Ok(x) => cells.push(Rc::new(x)),
                    Err(e) => return Err(e),
                }
                i = i + 1;
            }
            let column = Vector::from_cells(cells);
            assert(column@ =~= target[j as int]);
            columns.push(column);
            j = j + 1;
        }
        let m = Matrix { columns };
        assert(m@ =~= target);
        Ok(m)
    }

    /// The matrix product `self * other`, consuming both.
    pub fn mul(self, other: Matrix<T>) -> (r: Result<Matrix<T>, MatrixError>)
        requires
            self.wf(),
            other.wf(),
            self@.len() == rows_of(other@) ==> mat_mul_fits(self@, other@),
        ensures
            matrix_outcome(r) == mat_mul_outcome(self@, other@),
            r matches Ok(m) ==> m.wf(),
    {
        self.mul_ref(&other)
    }
}

impl<T: Scalar> Vector<T> {
    /// The row vector `self` times the matrix `m`: entry `j` of the result is
    /// the dot product of `self` with column `j` of `m`.
    pub fn mul_ref(&self, m: &Matrix<T>) -> (r: Result<Vector<T>, MatrixError>)
        requires
            m.wf(),
            self@.len() == rows_of(m@) ==> vec_mat_fits(self@, m@),
        ensures
            vector_outcome(r) == vec_mat_outcome(self@, m@),
    {
        if self.len() != m.nrows() {
            return Err(MatrixError::LengthMismatch);
        }
        let ghost target = vec_mat(self@, m@);
        let mut values: Vec<T> = Vec::with_capacity(m.columns.len());
        let mut j: usize = 0;
        while j < m.columns.len()
            invariant
                m.wf(),
                self@.len() == rows_of(m@),
                vec_mat_fits(self@, m@),
                target == vec_mat(self@, m@),
                j <= m@.len(),
                values@.len() == j,
                forall|k: int| 0 <= k < j ==> values@[k] == target[k],
            decreases m@.len() - j,
        {
            assert(m@[j as int].len() == rows_of(m@));
            match self.dot_ref(&m.columns[j]) {
                Ok(x) => values.push(x),
                Err(e) => return Err(e),
            }
            j = j + 1;
        }
        assert(values@ =~= target);
        Ok(Vector::from_vec(values))
    }

    /// The row vector `self` times the matrix `m`, consuming both.
    pub fn mul(self, m: Matrix<T>) -> (r: Result<Vector<T>, MatrixError>)
        requires
            m.wf(),
            self@.len() == rows_of(m@) ==> vec_mat_fits(self@, m@),
        ensures
            vector_outcome(r) == vec_mat_outcome(self@, m@),
    {
        self.mul_ref(&m)
    }
}

} // verus!
