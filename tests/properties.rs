use matrix::{Matrix, MatrixError, Vector};

fn entries(m: &Matrix<i64>) -> Vec<Vec<i64>> {
    (0..m.ncols()).map(|c| m.column(c).unwrap().to_vec()).collect()
}

#[test]
fn adding_zero_vector_and_subtracting_self() {
    let v: Vector<i64> = Vector::from_vec(vec![3, -8, 0, 12]);
    let zero: Vector<i64> = Vector::repeat(4, 0);
    assert_eq!(v.add_ref(&zero).unwrap().to_vec(), [3, -8, 0, 12]);
    assert_eq!(v.sub_ref(&v).unwrap().to_vec(), [0, 0, 0, 0]);
}

#[test]
fn vector_addition_commutes() {
    let a: Vector<i32> = Vector::from_vec(vec![1, -2, 30]);
    let b: Vector<i32> = Vector::from_vec(vec![7, 5, -4]);
    assert_eq!(a.add_ref(&b).unwrap().to_vec(), b.add_ref(&a).unwrap().to_vec());
    assert_eq!(a.add_ref(&b).unwrap().to_vec(), [8, 3, 26]);
}

#[test]
fn consuming_and_borrowing_forms_agree() {
    let a: Vector<i32> = Vector::from_vec(vec![4, 9, -1]);
    let b: Vector<i32> = Vector::from_vec(vec![2, -3, 6]);
    assert_eq!(a.add_ref(&b).unwrap(), a.clone().add(b.clone()).unwrap());
    assert_eq!(a.sub_ref(&b).unwrap(), a.clone().sub(b.clone()).unwrap());
    assert_eq!(a.dot_ref(&b), a.clone().dot(b.clone()));
    let m = Matrix::from_function(3, 3, |row, col| (row * 3 + col) as i32 - 4);
    assert_eq!(m.mul_ref(&m).unwrap(), m.clone().mul(m.clone()).unwrap());
    assert_eq!(a.mul_ref(&m).unwrap(), a.clone().mul(m.clone()).unwrap());
    assert_eq!(m.add_ref(&m).unwrap(), m.clone().add(m.clone()).unwrap());
    assert_eq!(m.sub_ref(&m).unwrap(), m.clone().sub(m.clone()).unwrap());
}

#[test]
fn copy_on_write_isolation() {
    let mut v = Vector::repeat(3, 0);
    v.set(1, 4).unwrap();
    assert_eq!(*v.get(0).unwrap(), 0);
    assert_eq!(*v.get(1).unwrap(), 4);
    assert_eq!(*v.get(2).unwrap(), 0);
    assert!(v.shares_cell(0, 2));
}

#[test]
fn identity_is_neutral_for_the_product() {
    let m = Matrix::from_function(3, 3, |row, col| (row as i64 - 2) * 7 + col as i64 * 5);
    let id: Matrix<i64> = Matrix::identity(3);
    assert_eq!(entries(&m.mul_ref(&id).unwrap()), entries(&m));
    assert_eq!(entries(&id.mul_ref(&m).unwrap()), entries(&m));
}

#[test]
fn transpose_twice_gives_the_matrix_back() {
    let m = Matrix::from_function(2, 4, |row, col| (row * 10 + col) as i64);
    let t = m.transpose();
    assert_eq!(t.nrows(), m.ncols());
    assert_eq!(t.ncols(), m.nrows());
    assert_eq!(entries(&t.transpose()), entries(&m));
}

#[test]
fn transpose_of_a_matrix_without_rows() {
    let m: Matrix<i64> = Matrix::zero(0, 3);
    let t = m.transpose();
    assert_eq!(t.ncols(), 0);
    assert_eq!(t.transpose().ncols(), 0);
}

#[test]
fn segment_round_trip() {
    let mut z: Matrix<i32> = Matrix::zero(10, 10);
    let i: Matrix<i32> = Matrix::identity(3);
    z.set_segment(3, 3, i).unwrap();
    assert_eq!(*z.get(3, 3).unwrap(), 1);
    assert_eq!(*z.get(4, 4).unwrap(), 1);
    assert_eq!(*z.get(5, 5).unwrap(), 1);
    let mut others = 0;
    for row in 0..10 {
        for col in 0..10 {
            if !(row == col && (3..6).contains(&row)) {
                others += *z.get(row, col).unwrap();
            }
        }
    }
    assert_eq!(others, 0);
}

#[test]
fn dimension_mismatch_failures() {
    let a: Vector<i32> = Vector::from_vec(vec![1]);
    let b: Vector<i32> = Vector::from_vec(vec![1, 2]);
    assert_eq!(a.add_ref(&b).err(), Some(MatrixError::LengthMismatch));
    assert_eq!(a.sub_ref(&b).err(), Some(MatrixError::LengthMismatch));
    let r = Matrix::from_vec(vec![a.clone(), b.clone()]);
    assert_eq!(r.err(), Some(MatrixError::UnequalColumnLength));
    let mut m: Matrix<i32> = Matrix::zero(2, 2);
    assert_eq!(m.augment(Matrix::zero(3, 2)), Err(MatrixError::RowMismatch));
}

#[test]
fn literal_scenario() {
    let a: Vector<i32> = Vector::from_vec(vec![1, 3, -5]);
    let b: Vector<i32> = Vector::from_vec(vec![4, -2, -1]);
    assert_eq!(a.dot_ref(&b), Ok(3));
    let c: Vector<i32> = Vector::from_vec(vec![0, 1, 2]);
    assert_eq!(c.add_ref(&c).unwrap().to_vec(), [0, 2, 4]);
    assert_eq!(c.sub_ref(&c).unwrap().to_vec(), [0, 0, 0]);
}

#[test]
fn index_out_of_bounds() {
    let v: Vector<i32> = Vector::from_vec(vec![1]);
    assert_eq!(v.get(100), Err(MatrixError::IndexError));
}
