//! Algebraic laws of the vector and matrix operations, proved over the values
//! that the operations' contracts speak of.
use vstd::prelude::*;

use crate::matrix::{
    identity_of, is_rectangular, mat_mul, mat_mul_fits, mat_mul_outcome, row_of, rows_of,
    transpose_of, Matrix,
};
use crate::scalar::Scalar;
use crate::vector::{
    add_outcome, add_seq, add_seq_fits, dot_fits, dot_prefix, dot_prefix_fits, dot_seq,
    sub_outcome, sub_seq_fits, Vector,
};
use crate::zero_one::{One, Zero};

verus! {

/// The vector of `n` zeros.
pub open spec fn zero_seq<T: Zero>(n: nat) -> Seq<T> {
    Seq::new(n, |i: int| T::spec_zero())
}

/// `e` is the unit vector with a one at position `j` and zeros elsewhere.
pub open spec fn is_unit<T: Zero + One>(e: Seq<T>, j: int) -> bool {
    forall|r: int| 0 <= r < e.len() ==> #[trigger] e[r] == if r == j {
        T::spec_one()
    } else {
        T::spec_zero()
    }
}

/// Adding the zero vector to a vector gives the vector back.
pub proof fn lemma_add_zero_vector<T: Scalar>(v: Vector<T>)
    ensures
        add_seq_fits(v@, zero_seq::<T>(v@.len())),
        add_outcome(v@, zero_seq::<T>(v@.len())) == Ok::<Seq<T>, crate::MatrixError>(v@),
{
    let z = zero_seq::<T>(v@.len());
    assert forall|i: int| 0 <= i < v@.len() implies T::add_fits(#[trigger] v@[i], z[i]) && T::spec_add(
        v@[i],
        z[i],
    ) == v@[i] by {
        T::lemma_add_zero(v@[i]);
    }
    assert(add_seq(v@, z) =~= v@);
}

/// A vector minus itself is the zero vector.
pub proof fn lemma_sub_self_vector<T: Scalar>(v: Vector<T>)
    ensures
        sub_seq_fits(v@, v@),
        sub_outcome(v@, v@) == Ok::<Seq<T>, crate::MatrixError>(zero_seq::<T>(v@.len())),
{
    assert forall|i: int| 0 <= i < v@.len() implies T::sub_fits(#[trigger] v@[i], v@[i])
        && T::spec_sub(v@[i], v@[i]) == T::spec_zero() by {
        T::lemma_sub_self(v@[i]);
    }
    assert(crate::vector::sub_seq(v@, v@) =~= zero_seq::<T>(v@.len()));
}

/// Vector addition is commutative: for vectors of one length, `v1 + v2`
/// fits exactly when `v2 + v1` does, and the two sums are equal.
pub proof fn lemma_add_commutative<T: Scalar>(v1: Vector<T>, v2: Vector<T>)
    requires
        v1@.len() == v2@.len(),
    ensures
        add_seq_fits(v1@, v2@) == add_seq_fits(v2@, v1@),
        add_outcome(v1@, v2@) == add_outcome(v2@, v1@),
{
    assert forall|i: int| 0 <= i < v1@.len() implies T::add_fits(#[trigger] v1@[i], v2@[i])
        == T::add_fits(v2@[i], v1@[i]) && T::spec_add(v1@[i], v2@[i]) == T::spec_add(
        v2@[i],
        v1@[i],
    ) by {
        T::lemma_add_commutative(v1@[i], v2@[i]);
    }
    assert(add_seq(v1@, v2@) =~= add_seq(v2@, v1@));
}

/// The dot product of `a` with a unit vector picks out one entry of `a`.
proof fn lemma_dot_unit_right<T: Scalar>(a: Seq<T>, e: Seq<T>, j: int, k: nat)
    requires
        0 <= j < a.len(),
        e.len() == a.len(),
        k <= a.len(),
        is_unit(e, j),
    ensures
        dot_prefix_fits(a, e, k),
        dot_prefix(a, e, k) == if j < k {
            a[j]
        } else {
            T::spec_zero()
        },
    decreases k,
{
    if k > 0 {
        let p = (k - 1) as nat;
        lemma_dot_unit_right(a, e, j, p);
        if p == j {
            T::lemma_mul_one(a[j]);
            T::lemma_add_zero(a[j]);
        } else {
            T::lemma_mul_zero(a[p as int]);
            T::lemma_add_zero(dot_prefix(a, e, p));
        }
    }
}

/// The dot product of a unit vector with `a` picks out one entry of `a`.
proof fn lemma_dot_unit_left<T: Scalar>(e: Seq<T>, a: Seq<T>, j: int, k: nat)
    requires
        0 <= j < a.len(),
        e.len() == a.len(),
        k <= a.len(),
        is_unit(e, j),
    ensures
        dot_prefix_fits(e, a, k),
        dot_prefix(e, a, k) == if j < k {
            a[j]
        } else {
            T::spec_zero()
        },
    decreases k,
{
    if k > 0 {
        let p = (k - 1) as nat;
        lemma_dot_unit_left(e, a, j, p);
        if p == j {
            T::lemma_mul_one(a[j]);
            T::lemma_add_zero(a[j]);
        } else {
            T::lemma_mul_zero(a[p as int]);
            T::lemma_add_zero(dot_prefix(e, a, p));
        }
    }
}

/// The identity matrix is neutral for the matrix product: for a square
/// matrix `m` of size `n`, both `m * identity(n)` and `identity(n) * m` can
/// be computed without overflow and equal `m`.
pub proof fn lemma_identity_neutral<T: Scalar>(m: Matrix<T>)
    requires
        m.wf(),
        rows_of(m@) == m@.len(),
    ensures
        mat_mul_fits(m@, identity_of::<T>(m@.len())),
        mat_mul_outcome(m@, identity_of::<T>(m@.len())) == Ok::<Seq<Seq<T>>, crate::MatrixError>(
            m@,
        ),
        mat_mul_fits(identity_of::<T>(m@.len()), m@),
        mat_mul_outcome(identity_of::<T>(m@.len()), m@) == Ok::<Seq<Seq<T>>, crate::MatrixError>(
            m@,
        ),
{
    let n = m@.len();
    let id = identity_of::<T>(n);
    assert(rows_of(id) == n);
    assert forall|i: int, j: int| 0 <= i < n && 0 <= j < n implies dot_fits(
        #[trigger] row_of(m@, i),
        #[trigger] id[j],
    ) && dot_seq(row_of(m@, i), id[j]) == m@[j][i] by {
        assert(is_unit(id[j], j));
        lemma_dot_unit_right(row_of(m@, i), id[j], j, n);
    }
    assert forall|i: int, j: int| 0 <= i < n && 0 <= j < n implies dot_fits(
        #[trigger] row_of(id, i),
        #[trigger] m@[j],
    ) && dot_seq(row_of(id, i), m@[j]) == m@[j][i] by {
        assert(is_unit(row_of(id, i), i));
        assert(m@[j].len() == n);
        lemma_dot_unit_left(row_of(id, i), m@[j], i, n);
    }
    assert forall|j: int| 0 <= j < n implies #[trigger] mat_mul(m@, id)[j] =~= m@[j] by {
        assert(m@[j].len() == n);
    }
    assert(mat_mul(m@, id) =~= m@);
    assert forall|j: int| 0 <= j < n implies #[trigger] mat_mul(id, m@)[j] =~= m@[j] by {
        assert(m@[j].len() == n);
    }
    assert(mat_mul(id, m@) =~= m@);
}

/// Transposing twice gives the matrix back, and transposing swaps the
/// numbers of rows and columns.
///
/// This holds of every matrix but those with columns of length zero: such a
/// matrix has no rows, so its transpose has no columns and forgets how many
/// columns there were.
pub proof fn lemma_transpose_involution<T>(m: Matrix<T>)
    requires
        m.wf(),
        rows_of(m@) > 0 || m@.len() == 0,
    ensures
        transpose_of(transpose_of(m@)) == m@,
        rows_of(transpose_of(m@)) == m@.len(),
        transpose_of(m@).len() == rows_of(m@),
{
    let t = transpose_of(m@);
    if m@.len() > 0 {
        assert(t[0].len() == m@.len());
        assert forall|c: int| 0 <= c < m@.len() implies #[trigger] transpose_of(t)[c] =~= m@[c] by {
            assert(m@[c].len() == rows_of(m@));
        }
    }
    assert(transpose_of(t) =~= m@);
}

} // verus!
