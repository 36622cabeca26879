//! Fixed-length vectors whose elements sit in shareable, copy-on-write cells.
use std::rc::Rc;

use vstd::prelude::*;

use crate::error::MatrixError;
use crate::scalar::Scalar;
use crate::zero_one::Zero;

verus! {

/// Relies on `Rc::clone`: the new pointer refers to the same allocation, so
/// it holds the same value.
#[verifier::external_body]
pub(crate) fn share_cell<T>(cell: &Rc<T>) -> (r: Rc<T>)
    ensures
        r == *cell,
{
    Rc::clone(cell)
}

/// Relies on `Rc::make_mut`: when other pointers share the allocation, the
/// value is copied into a new allocation that `cell` alone points to; the
/// result refers to the value that `cell` then holds.
#[verifier::external_body]
fn cell_mut<T: Copy>(cell: &mut Rc<T>) -> (r: &mut T)
    ensures
        *r == **old(cell),
        **final(cell) == *final(r),
{
    Rc::make_mut(cell)
}

/// Relies on `Rc::ptr_eq`: true when both pointers refer to one allocation,
/// which then holds one value.
#[verifier::external_body]
fn same_cell<T>(a: &Rc<T>, b: &Rc<T>) -> (r: bool)
    ensures
        r ==> *a == *b,
{
    Rc::ptr_eq(a, b)
}

/// Relies on `Rc::strong_count`: the number of pointers to the allocation.
#[verifier::external_body]
fn owner_count<T>(a: &Rc<T>) -> (r: usize) {
    Rc::strong_count(a)
}

/// The element-wise sum of two sequences, over the length of the first.
pub open spec fn add_seq<T: Scalar>(a: Seq<T>, b: Seq<T>) -> Seq<T> {
    Seq::new(a.len(), |i: int| T::spec_add(a[i], b[i]))
}

/// Every element-wise sum of `a` and `b` is representable.
pub open spec fn add_seq_fits<T: Scalar>(a: Seq<T>, b: Seq<T>) -> bool {
    forall|i: int| 0 <= i < a.len() ==> T::add_fits(#[trigger] a[i], b[i])
}

/// The element-wise difference of two sequences, over the length of the first.
pub open spec fn sub_seq<T: Scalar>(a: Seq<T>, b: Seq<T>) -> Seq<T> {
    Seq::new(a.len(), |i: int| T::spec_sub(a[i], b[i]))
}

/// Every element-wise difference of `a` and `b` is representable.
pub open spec fn sub_seq_fits<T: Scalar>(a: Seq<T>, b: Seq<T>) -> bool {
    forall|i: int| 0 <= i < a.len() ==> T::sub_fits(#[trigger] a[i], b[i])
}

/// The sum of the products `a[i] * b[i]` for `i < n`, added up from zero in
/// ascending index order.
pub open spec fn dot_prefix<T: Scalar>(a: Seq<T>, b: Seq<T>, n: nat) -> T
    decreases n,
{
    if n == 0 {
        T::spec_zero()
    } else {
        T::spec_add(dot_prefix(a, b, (n - 1) as nat), T::spec_mul(a[n - 1], b[n - 1]))
    }
}

/// Every product and every partial sum of `dot_prefix(a, b, n)` is
/// representable.
pub open spec fn dot_prefix_fits<T: Scalar>(a: Seq<T>, b: Seq<T>, n: nat) -> bool
    decreases n,
{
    if n == 0 {
        true
    } else {
        &&& dot_prefix_fits(a, b, (n - 1) as nat)
        &&& T::mul_fits(a[n - 1], b[n - 1])
        &&& T::add_fits(dot_prefix(a, b, (n - 1) as nat), T::spec_mul(a[n - 1], b[n - 1]))
    }
}

/// The dot product of `a` and `b`.
pub open spec fn dot_seq<T: Scalar>(a: Seq<T>, b: Seq<T>) -> T {
    dot_prefix(a, b, a.len())
}

/// The dot product of `a` and `b` can be computed without overflow.
pub open spec fn dot_fits<T: Scalar>(a: Seq<T>, b: Seq<T>) -> bool {
    dot_prefix_fits(a, b, a.len())
}

/// What adding two vectors with the values `a` and `b` gives.
pub open spec fn add_outcome<T: Scalar>(a: Seq<T>, b: Seq<T>) -> Result<Seq<T>, MatrixError> {
    if a.len() == b.len() {
        Ok(add_seq(a, b))
    } else {
        Err(MatrixError::LengthMismatch)
    }
}

/// What subtracting a vector with the values `b` from one with `a` gives.
pub open spec fn sub_outcome<T: Scalar>(a: Seq<T>, b: Seq<T>) -> Result<Seq<T>, MatrixError> {
    if a.len() == b.len() {
        Ok(sub_seq(a, b))
    } else {
        Err(MatrixError::LengthMismatch)
    }
}

/// What the dot product of vectors with the values `a` and `b` gives.
pub open spec fn dot_outcome<T: Scalar>(a: Seq<T>, b: Seq<T>) -> Result<T, MatrixError> {
    if a.len() == b.len() {
        Ok(dot_seq(a, b))
    } else {
        Err(MatrixError::LengthMismatch)
    }
}

/// The values of a vector result, or its error.
pub open spec fn vector_outcome<T>(r: Result<Vector<T>, MatrixError>) -> Result<Seq<T>, MatrixError> {
    match r {
        Ok(v) => Ok(v@),
        Err(e) => Err(e),
    }
}

/// A dot product that fits over `n` terms fits over every shorter prefix.
pub proof fn lemma_dot_prefix_fits_shorter<T: Scalar>(a: Seq<T>, b: Seq<T>, k: nat, n: nat)
    requires
        k <= n,
        dot_prefix_fits(a, b, n),
    ensures
        dot_prefix_fits(a, b, k),
    decreases n - k,
{
    if k < n {
        lemma_dot_prefix_fits_shorter(a, b, k, (n - 1) as nat);
    }
}

/// A vector of elements of type `T`.
///
/// Each element lives in a reference-counted cell. Several positions, of one
/// vector or of several, may share a cell: `repeat` makes all its positions
/// share one cell, and matrix segments and transposes share the cells of the
/// matrix they were taken from. A write never changes a shared cell; it gives
/// the written position a cell of its own, so that sharing is never visible
/// through the values.
#[derive(Debug, PartialEq)]
pub struct Vector<T> {
    elements: Vec<Rc<T>>,
}

impl<T> View for Vector<T> {
    type V = Seq<T>;

    closed spec fn view(&self) -> Seq<T> {
        self.elements@.map_values(|c: Rc<T>| *c)
    }
}

impl<T> Vector<T> {
    /// Builds a vector from the cells themselves.
    pub(crate) fn from_cells(elements: Vec<Rc<T>>) -> (r: Vector<T>)
        ensures
            r@ == elements@.map_values(|c: Rc<T>| *c),
    {
        Vector { elements }
    }

    /// The element at `idx`, which must be in range.
    pub(crate) fn at(&self, idx: usize) -> (r: &T)
        requires
            idx < self@.len(),
        ensures
            *r == self@[idx as int],
    {
        &*self.elements[idx]
    }

    /// A new pointer to the cell at `idx`.
    pub(crate) fn share(&self, idx: usize) -> (r: Rc<T>)
        requires
            idx < self@.len(),
        ensures
            *r == self@[idx as int],
    {
        share_cell(&self.elements[idx])
    }

    /// The elements of `self` followed by those of `other`, sharing their
    /// cells.
    pub(crate) fn joined(&self, other: &Vector<T>) -> (r: Vector<T>)
        ensures
            r@ == self@ + other@,
    {
        let mut cells: Vec<Rc<T>> = Vec::with_capacity(self.elements.len());
        let mut i: usize = 0;
        while i < self.elements.len()
            invariant
                i <= self@.len(),
                cells@.len() == i,
                forall|k: int| 0 <= k < i ==> *cells@[k] == self@[k],
            decreases self@.len() - i,
        {
            cells.push(share_cell(&self.elements[i]));
            i = i + 1;
        }
        let mut j: usize = 0;
        while j < other.elements.len()
            invariant
                i == self@.len(),
                j <= other@.len(),
                cells@.len() == i + j,
                forall|k: int| 0 <= k < i ==> *cells@[k] == self@[k],
                forall|k: int| 0 <= k < j ==> *cells@[i + k] == other@[k],
            decreases other@.len() - j,
        {
            cells.push(share_cell(&other.elements[j]));
            j = j + 1;
        }
        let r = Vector { elements: cells };
        assert(r@ =~= self@ + other@);
        r
    }

    /// Builds a vector that holds `elements`, each in a cell of its own.
    pub fn from_vec(elements: Vec<T>) -> (r: Vector<T>)
        ensures
            r@ == elements@,
    {
        let ghost values = elements@;
        let mut elements = elements;
        let mut taken: Vec<T> = Vec::new();
        // Take the values out from the back, then wrap them front to back.
        while elements.len() > 0
            invariant
                values == elements@ + taken@.reverse(),
            decreases elements.len(),
        {
            let x = elements.pop().unwrap();
            taken.push(x);
            assert(values =~= elements@ + taken@.reverse());
        }
        assert(values =~= taken@.reverse());
        let mut cells: Vec<Rc<T>> = Vec::with_capacity(taken.len());
        while taken.len() > 0
            invariant
                values == cells@.map_values(|c: Rc<T>| *c) + taken@.reverse(),
            decreases taken.len(),
        {
            let x = taken.pop().unwrap();
            cells.push(Rc::new(x));
            assert(values =~= cells@.map_values(|c: Rc<T>| *c) + taken@.reverse());
        }
        assert(values =~= cells@.map_values(|c: Rc<T>| *c));
        Vector { elements: cells }
    }

    /// Builds a vector from a boxed slice.
    pub fn from(elements: Box<[T]>) -> (r: Vector<T>)
        ensures
            r@ == elements@,
    {
        Vector::from_vec(elements.into_vec())
    }

    /// A vector of `n` positions that all share one cell holding `element`.
    pub fn repeat(n: usize, element: T) -> (r: Vector<T>)
        ensures
            r@ == Seq::new(n as nat, |i: int| element),
    {
        let cell = Rc::new(element);
        let mut cells: Vec<Rc<T>> = Vec::with_capacity(n);
        let mut i: usize = 0;
        while i < n
            invariant
                i <= n,
                cells@.len() == i,
                forall|j: int| 0 <= j < i ==> *cells@[j] == element,
                *cell == element,
            decreases n - i,
        {
            cells.push(share_cell(&cell));
            i = i + 1;
        }
        let r = Vector { elements: cells };
        assert(r@ =~= Seq::new(n as nat, |i: int| element));
        r
    }

    /// The number of elements.
    pub fn len(&self) -> (r: usize)
        ensures
            r == self@.len(),
    {
        self.elements.len()
    }

    /// The element at `idx`.
    pub fn get(&self, idx: usize) -> (r: Result<&T, MatrixError>)
        ensures
            idx < self@.len() ==> r == Ok::<&T, MatrixError>(&self@[idx as int]),
            idx >= self@.len() ==> r == Err::<&T, MatrixError>(MatrixError::IndexError),
    {
        if idx < self.elements.len() {
            Ok(&*self.elements[idx])
        } else {
            Err(MatrixError::IndexError)
        }
    }

    /// Writes `value` at `idx`. The position gets a cell of its own, so no
    /// other position that shared its old cell sees the write.
    pub fn set(&mut self, idx: usize, value: T) -> (r: Result<(), MatrixError>)
        ensures
            idx < old(self)@.len() ==> r is Ok && final(self)@ == old(self)@.update(idx as int, value),
            idx >= old(self)@.len() ==> r == Err::<(), MatrixError>(MatrixError::IndexError)
                && final(self)@ == old(self)@,
    {
        if idx < self.elements.len() {
            self.elements.set(idx, Rc::new(value));
            assert(self@ =~= old(self)@.update(idx as int, value));
            Ok(())
        } else {
            Err(MatrixError::IndexError)
        }
    }

    /// Whether positions `i` and `j` share one cell.
    pub fn shares_cell(&self, i: usize, j: usize) -> (r: bool)
        requires
            i < self@.len(),
            j < self@.len(),
        ensures
            r ==> self@[i as int] == self@[j as int],
    {
        same_cell(&self.elements[i], &self.elements[j])
    }

    /// How many positions, in this vector and elsewhere, share the cell of
    /// position `i`.
    pub fn cell_owners(&self, i: usize) -> usize
        requires
            i < self@.len(),
    {
        owner_count(&self.elements[i])
    }
}

impl<T: Copy> Vector<T> {
    /// The elements, copied out in order.
    pub fn to_vec(&self) -> (r: Vec<T>)
        ensures
            r@ == self@,
    {
        let mut values: Vec<T> = Vec::with_capacity(self.elements.len());
        let mut i: usize = 0;
        while i < self.elements.len()
            invariant
                i <= self@.len(),
                values@.len() == i,
                forall|k: int| 0 <= k < i ==> values@[k] == self@[k],
            decreases self@.len() - i,
        {
            values.push(*self.at(i));
            i = i + 1;
        }
        assert(values@ =~= self@);
        values
    }

    /// A mutable reference to the element at `idx`. When the cell of that
    /// position is shared, the position first gets a copy of its own, so the
    /// write is seen through this position only.
    pub fn get_mut(&mut self, idx: usize) -> (r: &mut T)
        requires
            idx < old(self)@.len(),
        ensures
            *r == old(self)@[idx as int],
            final(self)@ == old(self)@.update(idx as int, *final(r)),
    {
        cell_mut(&mut self.elements[idx])
    }
}

impl<T> Clone for Vector<T> {
    /// A vector with the same values, sharing the cells of `self`.
    fn clone(&self) -> (r: Self)
        ensures
            r@ == self@,
    {
        let mut cells: Vec<Rc<T>> = Vec::with_capacity(self.elements.len());
        let mut i: usize = 0;
        while i < self.elements.len()
            invariant
                i <= self@.len(),
                cells@.len() == i,
                forall|k: int| 0 <= k < i ==> *cells@[k] == self@[k],
            decreases self@.len() - i,
        {
            cells.push(share_cell(&self.elements[i]));
            i = i + 1;
        }
        let r = Vector { elements: cells };
        assert(r@ =~= self@);
        r
    }
}

impl<T: Scalar> Vector<T> {
    /// The element-wise sum of two vectors, computed into a new vector.
    pub fn add_ref(&self, other: &Vector<T>) -> (r: Result<Vector<T>, MatrixError>)
        requires
            self@.len() == other@.len() ==> add_seq_fits(self@, other@),
        ensures
            vector_outcome(r) == add_outcome(self@, other@),
    {
        let n = self.elements.len();
        if n != other.elements.len() {
            return Err(MatrixError::LengthMismatch);
        }
        let mut cells: Vec<Rc<T>> = Vec::with_capacity(n);
        let mut i: usize = 0;
        while i < n
            invariant
                n == self@.len(),
                n == other@.len(),
                add_seq_fits(self@, other@),
                i <= n,
                cells@.len() == i,
                forall|j: int| 0 <= j < i ==> *cells@[j] == T::spec_add(self@[j], other@[j]),
            decreases n - i,
        {
            let x: &T = &*self.elements[i];
            let y: &T = &*other.elements[i];
            assert(T::add_fits(self@[i as int], other@[i as int]));
            cells.push(Rc::new(x.plus(y)));
            i = i + 1;
        }
        let r = Vector { elements: cells };
        assert(r@ =~= add_seq(self@, other@));
        Ok(r)
    }

    /// The element-wise sum of two vectors, computed in the storage of `self`.
    pub fn add(self, other: Vector<T>) -> (r: Result<Vector<T>, MatrixError>)
        requires
            self@.len() == other@.len() ==> add_seq_fits(self@, other@),
        ensures
            vector_outcome(r) == add_outcome(self@, other@),
    {
        let n = self.elements.len();
        if n != other.elements.len() {
            return Err(MatrixError::LengthMismatch);
        }
        let ghost a = self@;
        let mut cells = self.elements;
        let mut i: usize = 0;
        while i < n
            invariant
                n == a.len(),
                n == other@.len(),
                add_seq_fits(a, other@),
                i <= n,
                cells@.len() == n,
                forall|j: int| 0 <= j < i ==> *cells@[j] == T::spec_add(a[j], other@[j]),
                forall|j: int| i <= j < n ==> *cells@[j] == a[j],
            decreases n - i,
        {
            let z = {
                let x: &T = &*cells[i];
                let y: &T = &*other.elements[i];
                assert(T::add_fits(a[i as int], other@[i as int]));
                x.plus(y)
            };
            cells.set(i, Rc::new(z));
            i = i + 1;
        }
        let r = Vector { elements: cells };
        assert(r@ =~= add_seq(a, other@));
        Ok(r)
    }

    /// The element-wise difference of two vectors, computed into a new vector.
    pub fn sub_ref(&self, other: &Vector<T>) -> (r: Result<Vector<T>, MatrixError>)
        requires
            self@.len() == other@.len() ==> sub_seq_fits(self@, other@),
        ensures
            vector_outcome(r) == sub_outcome(self@, other@),
    {
        let n = self.elements.len();
        if n != other.elements.len() {
            return Err(MatrixError::LengthMismatch);
        }
        let mut cells: Vec<Rc<T>> = Vec::with_capacity(n);
        let mut i: usize = 0;
        while i < n
            invariant
                n == self@.len(),
                n == other@.len(),
                sub_seq_fits(self@, other@),
                i <= n,
                cells@.len() == i,
                forall|j: int| 0 <= j < i ==> *cells@[j] == T::spec_sub(self@[j], other@[j]),
            decreases n - i,
        {
            let x: &T = &*self.elements[i];
            let y: &T = &*other.elements[i];
            assert(T::sub_fits(self@[i as int], other@[i as int]));
            cells.push(Rc::new(x.minus(y)));
            i = i + 1;
        }
        let r = Vector { elements: cells };
        assert(r@ =~= sub_seq(self@, other@));
        Ok(r)
    }

    /// The element-wise difference of two vectors, computed in the storage of
    /// `self`.
    pub fn sub(self, other: Vector<T>) -> (r: Result<Vector<T>, MatrixError>)
        requires
            self@.len() == other@.len() ==> sub_seq_fits(self@, other@),
        ensures
            vector_outcome(r) == sub_outcome(self@, other@),
    {
        let n = self.elements.len();
        if n != other.elements.len() {
            return Err(MatrixError::LengthMismatch);
        }
        let ghost a = self@;
        let mut cells = self.elements;
        let mut i: usize = 0;
        while i < n
            invariant
                n == a.len(),
                n == other@.len(),
                sub_seq_fits(a, other@),
                i <= n,
                cells@.len() == n,
                forall|j: int| 0 <= j < i ==> *cells@[j] == T::spec_sub(a[j], other@[j]),
                forall|j: int| i <= j < n ==> *cells@[j] == a[j],
            decreases n - i,
        {
            let z = {
                let x: &T = &*cells[i];
                let y: &T = &*other.elements[i];
                assert(T::sub_fits(a[i as int], other@[i as int]));
                x.minus(y)
            };
            cells.set(i, Rc::new(z));
            i = i + 1;
        }
        let r = Vector { elements: cells };
        assert(r@ =~= sub_seq(a, other@));
        Ok(r)
    }

    /// The dot product of two vectors, accumulated from zero in ascending
    /// index order.
    pub fn dot_ref(&self, other: &Vector<T>) -> (r: Result<T, MatrixError>)
        requires
            self@.len() == other@.len() ==> dot_fits(self@, other@),
        ensures
            r == dot_outcome(self@, other@),
    {
        let n = self.elements.len();
        if n != other.elements.len() {
            return Err(MatrixError::LengthMismatch);
        }
        let mut acc = T::zero();
        let mut i: usize = 0;
        while i < n
            invariant
                n == self@.len(),
                n == other@.len(),
                dot_fits(self@, other@),
                i <= n,
                acc == dot_prefix(self@, other@, i as nat),
            decreases n - i,
        {
            proof {
                lemma_dot_prefix_fits_shorter(self@, other@, (i + 1) as nat, n as nat);
            }
            let x: &T = &*self.elements[i];
            let y: &T = &*other.elements[i];
            let p = x.times(y);
            acc = acc.plus(&p);
            i = i + 1;
        }
        Ok(acc)
    }

    /// The dot product of two vectors, consuming both.
    pub fn dot(self, other: Vector<T>) -> (r: Result<T, MatrixError>)
        requires
            self@.len() == other@.len() ==> dot_fits(self@, other@),
        ensures
            r == dot_outcome(self@, other@),
    {
        self.dot_ref(&other)
    }
}

} // verus!
