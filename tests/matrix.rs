use matrix::{Matrix, MatrixError, Vector};

fn entry(m: &Matrix<i32>, row: usize, col: usize) -> i32 {
    *m.get(row, col).unwrap()
}

fn sum_of_entries(m: &Matrix<i32>, rows: usize, cols: usize) -> i32 {
    (0..cols).map(|i| (0..rows).map(|j| entry(m, j, i)).sum::<i32>()).sum()
}

#[test]
fn ncols_and_rows() {
    let m = Matrix::from_vec(vec![
        Vector::from_vec(vec![1, 2, 3]),
        Vector::from_vec(vec![1, 2, 3]),
        Vector::from_vec(vec![1, 2, 3]),
        Vector::from_vec(vec![1, 2, 3]),
    ])
    .unwrap();
    assert_eq!(m.ncols(), 4);
    assert_eq!(m.nrows(), 3);
}

#[test]
fn from_vec() {
    let m = Matrix::from_vec(vec![Vector::from_vec(vec![1])]).unwrap();
    assert_eq!(m.nrows(), 1);
    assert_eq!(m.ncols(), 1);
}

#[test]
fn random() {
    let m: Matrix<i32> = Matrix::random(9, 10);
    assert_eq!(m.nrows(), 9);
    assert_eq!(m.ncols(), 10);
}

#[test]
fn from_unequal_length() {
    let r = Matrix::from_vec(vec![Vector::from_vec(vec![1]), Vector::from_vec(vec![1, 2])]);
    assert_eq!(r.err(), Some(MatrixError::UnequalColumnLength));
}

#[test]
fn from_no_columns() {
    let m: Matrix<i32> = Matrix::from_vec(vec![]).unwrap();
    assert_eq!(m.ncols(), 0);
    assert_eq!(m.nrows(), 0);
}

#[test]
fn identity() {
    let m: Matrix<i32> = Matrix::identity(10);
    // check size
    assert_eq!(10, m.ncols());
    for i in 0..10 {
        assert_eq!(10, m.column(i).unwrap().len());
    }

    assert_eq!(10, (0..10).map(|i| entry(&m, i, i)).sum::<i32>());

    let acc: i32 = sum_of_entries(&m, 10, 10);
    assert_eq!(10, acc);
}

#[test]
fn matrix_zero() {
    let m: Matrix<i32> = Matrix::zero(10, 10);
    // check size
    assert_eq!(10, m.ncols());
    for i in 0..10 {
        assert_eq!(10, m.column(i).unwrap().len());
    }

    let acc: i32 = sum_of_entries(&m, 10, 10);
    assert_eq!(0, acc);
}

#[test]
fn zero_with_no_columns_has_no_rows() {
    let m: Matrix<i32> = Matrix::zero(4, 0);
    assert_eq!(m.ncols(), 0);
    assert_eq!(m.nrows(), 0);
}

#[test]
fn from_function() {
    let m = Matrix::from_function(10, 10, |_, _| 1);
    // check size
    assert_eq!(10, m.ncols());
    for i in 0..10 {
        assert_eq!(10, m.column(i).unwrap().len());
    }
    let acc: i32 = sum_of_entries(&m, 10, 10);
    assert_eq!(100, acc);
}

#[test]
fn get() {
    let m = Matrix::from_function(10, 10, |row, col| 10 * col + row);
    assert_eq!(&92, m.get(2, 9).unwrap());
}

#[test]
fn from_function_takes_row_then_column() {
    let m = Matrix::from_function(2, 3, |row, col| (row, col));
    assert_eq!(m.nrows(), 2);
    assert_eq!(m.ncols(), 3);
    assert_eq!(m.get(1, 2), Ok(&(1, 2)));
    assert_eq!(m.get(0, 1), Ok(&(0, 1)));
}

#[test]
fn get_out_of_bounds() {
    let m: Matrix<i32> = Matrix::zero(2, 3);
    assert_eq!(m.get(2, 0), Err(MatrixError::IndexError));
    assert_eq!(m.get(0, 3), Err(MatrixError::IndexError));
    assert_eq!(m.get(1, 2), Ok(&0));
}

#[test]
fn set() {
    let mut m = Matrix::zero(10, 10);
    m.set(3, 4, 1).unwrap();
    assert_eq!(*m.column(4).unwrap().get(3).unwrap(), 1);
}

#[test]
fn set_out_of_bounds_changes_nothing() {
    let mut m: Matrix<i32> = Matrix::identity(2);
    assert_eq!(m.set(2, 0, 5), Err(MatrixError::IndexError));
    assert_eq!(m.set(0, 2, 5), Err(MatrixError::IndexError));
    assert_eq!(m, Matrix::identity(2));
}

#[test]
fn get_mut_writes_one_entry() {
    let mut m: Matrix<i32> = Matrix::zero(3, 3);
    *m.get_mut(2, 1) = 6;
    assert_eq!(entry(&m, 2, 1), 6);
    assert_eq!(sum_of_entries(&m, 3, 3), 6);
}

#[test]
fn get_segment() {
    let m: Matrix<i32> = Matrix::identity(10);
    let m3 = m.get_segment(0, 0, 3, 3).unwrap();
    assert_eq!(m3.nrows(), 3);
    assert_eq!(m3.ncols(), 3);
    let acc: i32 = sum_of_entries(&m3, 3, 3);
    assert_eq!(3, acc);
}

#[test]
fn get_segment_takes_the_right_block() {
    let m = Matrix::from_function(5, 5, |row, col| (10 * row + col) as i32);
    let s = m.get_segment(1, 2, 2, 2).unwrap();
    assert_eq!(entry(&s, 0, 0), 12);
    assert_eq!(entry(&s, 1, 0), 22);
    assert_eq!(entry(&s, 0, 1), 13);
    assert_eq!(entry(&s, 1, 1), 23);
}

#[test]
fn get_segment_rejects_a_block_reaching_the_edge() {
    let m: Matrix<i32> = Matrix::identity(4);
    assert_eq!(m.get_segment(1, 0, 3, 2).err(), Some(MatrixError::IndexError));
    assert_eq!(m.get_segment(0, 1, 2, 3).err(), Some(MatrixError::IndexError));
    assert!(m.get_segment(0, 0, 3, 3).is_ok());
}

#[test]
fn segment_shares_cells_until_written() {
    let m: Matrix<i32> = Matrix::identity(4);
    let mut s = m.get_segment(0, 0, 2, 2).unwrap();
    assert_eq!(m.column(0).unwrap().cell_owners(0), 2);
    s.set(0, 0, 5).unwrap();
    assert_eq!(entry(&s, 0, 0), 5);
    assert_eq!(entry(&m, 0, 0), 1);
}

#[test]
fn set_segment() {
    let mut m: Matrix<i32> = Matrix::zero(10, 10);
    let t = Matrix::identity(3);
    m.set_segment(3, 3, t).unwrap();

    assert_eq!(entry(&m, 3, 3), 1);
    assert_eq!(entry(&m, 4, 4), 1);
    assert_eq!(entry(&m, 5, 5), 1);
    let acc: i32 = sum_of_entries(&m, 10, 10);
    assert_eq!(3, acc);
}

#[test]
fn set_segment_out_of_bounds_changes_nothing() {
    let mut m: Matrix<i32> = Matrix::zero(4, 4);
    assert_eq!(m.set_segment(1, 0, Matrix::identity(3)), Err(MatrixError::IndexError));
    assert_eq!(sum_of_entries(&m, 4, 4), 0);
}

fn check_addition(m1: Matrix<i32>, m2: Matrix<i32>, expected_sum: i32) -> Matrix<i32> {
    let m = m1.add_ref(&m2).unwrap();
    assert_eq!(expected_sum, sum_of_entries(&m, 10, 10));
    let m = m1.add(m2).unwrap();
    assert_eq!(expected_sum, sum_of_entries(&m, 10, 10));
    m
}

fn check_subtraction(m1: Matrix<i32>, m2: Matrix<i32>, expected_sum: i32) -> Matrix<i32> {
    let m = m1.sub_ref(&m2).unwrap();
    assert_eq!(expected_sum, sum_of_entries(&m, 10, 10));
    let m = m1.sub(m2).unwrap();
    assert_eq!(expected_sum, sum_of_entries(&m, 10, 10));
    m
}

#[test]
fn addition() {
    let m1: Matrix<i32> = Matrix::zero(10, 10);
    let m2: Matrix<i32> = Matrix::identity(10);
    check_addition(m1, m2, 10);

    let m1 = Matrix::identity(10);
    let m2 = Matrix::identity(10);
    let m = check_addition(m1, m2, 20);
    assert_eq!(entry(&m, 0, 0), 2);
}

#[test]
fn addition_different_col_size() {
    let m1: Matrix<i32> = Matrix::zero(1, 3);
    let m2: Matrix<i32> = Matrix::zero(1, 4);
    assert_eq!(m1.add_ref(&m2).err(), Some(MatrixError::ColumnMismatch));
    assert_eq!(m1.add(m2).err(), Some(MatrixError::ColumnMismatch));
}

#[test]
fn addition_different_row_size() {
    let m1: Matrix<i32> = Matrix::zero(2, 3);
    let m2: Matrix<i32> = Matrix::zero(1, 3);
    assert_eq!(m1.add_ref(&m2).err(), Some(MatrixError::LengthMismatch));
    assert_eq!(m1.add(m2).err(), Some(MatrixError::LengthMismatch));
}

#[test]
fn subtraction() {
    let m1: Matrix<i32> = Matrix::zero(10, 10);
    let m2: Matrix<i32> = Matrix::identity(10);
    let m = check_subtraction(m1, m2, -10);
    assert_eq!(entry(&m, 0, 0), -1);

    let m1 = Matrix::identity(10);
    let m2 = Matrix::identity(10);
    let m = check_subtraction(m1, m2, 0);
    assert_eq!(entry(&m, 0, 0), 0);
}

#[test]
fn subtraction_dimension_errors() {
    let m1: Matrix<i32> = Matrix::zero(2, 3);
    assert_eq!(m1.sub_ref(&Matrix::zero(2, 2)).err(), Some(MatrixError::ColumnMismatch));
    assert_eq!(m1.sub_ref(&Matrix::zero(3, 3)).err(), Some(MatrixError::LengthMismatch));
    let m2: Matrix<i32> = Matrix::zero(3, 3);
    assert_eq!(m1.sub(m2).err(), Some(MatrixError::LengthMismatch));
}

#[test]
fn vector_mul_reference() {
    let v: Vector<i32> = Vector::repeat(10, 1);
    let m: Matrix<i32> = Matrix::identity(10);

    let result: Vector<i32> = v.mul_ref(&m).unwrap();

    assert_eq!(result.len(), 10);
    assert_eq!(*result.get(0).unwrap(), 1, "Position 0 should be 1");
    for i in 1..10 {
        assert_eq!(*result.get(i).unwrap(), 1, "Position {} should be 0", i);
    }

    let v = Vector::repeat(10, 1);
    let mut m = Matrix::zero(10, 10);
    m.set(1, 0, 1).unwrap();
    let result = v.mul_ref(&m).unwrap();
    assert_eq!(result.len(), 10);
    assert_eq!(*result.get(0).unwrap(), 1, "Position 0 should be 1");
    for i in 1..10 {
        assert_eq!(*result.get(i).unwrap(), 0, "Position {} should be 0", i);
    }
}

#[test]
fn vector_mul_no_reference() {
    let v: Vector<i32> = Vector::repeat(10, 1);
    let m: Matrix<i32> = Matrix::identity(10);

    let result: Vector<i32> = v.mul(m).unwrap();

    assert_eq!(result.len(), 10);
    assert_eq!(*result.get(0).unwrap(), 1, "Position 0 should be 1");
    for i in 1..10 {
        assert_eq!(*result.get(i).unwrap(), 1, "Position {} should be 0", i);
    }

    let v = Vector::repeat(10, 1);
    let mut m = Matrix::zero(10, 10);
    m.set(1, 0, 1).unwrap();
    let result = v.mul(m).unwrap();
    assert_eq!(result.len(), 10);
    assert_eq!(*result.get(0).unwrap(), 1, "Position 0 should be 1");
    for i in 1..10 {
        assert_eq!(*result.get(i).unwrap(), 0, "Position {} should be 0", i);
    }
}

#[test]
fn vector_mul_length_mismatch() {
    let v: Vector<i32> = Vector::repeat(3, 1);
    let m: Matrix<i32> = Matrix::identity(2);
    assert_eq!(v.mul_ref(&m).err(), Some(MatrixError::LengthMismatch));
    assert_eq!(v.mul(m).err(), Some(MatrixError::LengthMismatch));
}

#[test]
fn vector_mul_exact_values() {
    let v: Vector<i32> = Vector::from_vec(vec![1, 2]);
    let m = Matrix::from_vec(vec![
        Vector::from_vec(vec![3, 4]),
        Vector::from_vec(vec![5, 6]),
        Vector::from_vec(vec![-1, 0]),
    ])
    .unwrap();
    assert_eq!(v.mul_ref(&m).unwrap().to_vec(), [11, 17, -1]);
}

#[test]
fn matrix_mul_no_reference() {
    let m1: Matrix<i32> = Matrix::random(10, 10);
    let m2: Matrix<i32> = Matrix::identity(10);
    let m = m1.clone().mul(m2).unwrap();
    for i in 0..10 {
        for j in 0..10 {
            assert_eq!(entry(&m, j, i), entry(&m1, j, i));
        }
    }
}

#[test]
fn matrix_mul_reference() {
    let m1: Matrix<i32> = Matrix::random(10, 10);
    let m2: Matrix<i32> = Matrix::identity(10);
    let m = m1.mul_ref(&m2).unwrap();
    for i in 0..10 {
        for j in 0..10 {
            assert_eq!(entry(&m, j, i), entry(&m1, j, i));
        }
    }
}

#[test]
fn matrix_mul_exact_values() {
    // a = [[1, 2], [3, 4]], b = [[5, 6], [7, 8]], a * b = [[19, 22], [43, 50]]
    let a = Matrix::from_vec(vec![Vector::from_vec(vec![1, 3]), Vector::from_vec(vec![2, 4])]).unwrap();
    let b = Matrix::from_vec(vec![Vector::from_vec(vec![5, 7]), Vector::from_vec(vec![6, 8])]).unwrap();
    let p = a.mul_ref(&b).unwrap();
    assert_eq!(entry(&p, 0, 0), 19);
    assert_eq!(entry(&p, 0, 1), 22);
    assert_eq!(entry(&p, 1, 0), 43);
    assert_eq!(entry(&p, 1, 1), 50);
    assert_eq!(a.mul(b).unwrap(), p);
}

#[test]
fn matrix_mul_rectangular_and_mismatch() {
    // a is 1 by 2, b is 2 by 3
    let a = Matrix::from_vec(vec![Vector::from_vec(vec![2]), Vector::from_vec(vec![3])]).unwrap();
    let b = Matrix::from_function(2, 3, |row, col| (row + col) as i32);
    let p = a.mul_ref(&b).unwrap();
    assert_eq!(p.nrows(), 1);
    assert_eq!(p.ncols(), 3);
    assert_eq!(entry(&p, 0, 0), 3);
    assert_eq!(entry(&p, 0, 1), 8);
    assert_eq!(entry(&p, 0, 2), 13);
    assert_eq!(b.mul_ref(&a).err(), Some(MatrixError::LengthMismatch));
}

#[test]
fn matrix_transpose() {
    let m1: Matrix<i32> = Matrix::identity(10);
    let m2: Matrix<i32> = m1.transpose();
    assert_eq!(m1.nrows(), m2.ncols());
    assert_eq!(m1.ncols(), m2.nrows());

    for i in 0..10 {
        for j in 0..10 {
            assert_eq!(entry(&m1, j, i), entry(&m2, j, i));
        }
    }

    let m1: Matrix<i32> = Matrix::from_vec(vec![
        Vector::from_vec(vec![1, 1, 1]),
        Vector::from_vec(vec![0, 0, 0]),
    ])
    .unwrap();
    let m1t = m1.transpose();
    assert_eq!(m1.nrows(), m1t.ncols());
    assert_eq!(m1.ncols(), m1t.nrows());
    for i in 0..3 {
        for j in 0..2 {
            assert_eq!(entry(&m1t, j, i), entry(&m1, i, j));
        }
    }
}

#[test]
fn augment() {
    let mut m1: Matrix<i32> = Matrix::identity(10);
    let m2: Matrix<i32> = Matrix::identity(10);
    m1.augment(m2.clone()).unwrap();
    assert_eq!(m1.nrows(), m2.nrows());
    assert_eq!(m1.ncols(), 20);

    for i in 0..10 {
        for j in 0..10 {
            let expected = if i == j { 1 } else { 0 };
            assert_eq!(
                entry(&m1, j, i),
                expected,
                "on position ({},{}) there should be a {}",
                i,
                j,
                expected
            );
            assert_eq!(
                entry(&m1, j, i + 10),
                expected,
                "on position ({},{}) there should be a {}",
                i + 10,
                j,
                expected
            );
        }
    }
}

#[test]
fn augment_unequal_sizes() {
    let mut m1: Matrix<i32> = Matrix::identity(10);
    let m2: Matrix<i32> = Matrix::identity(5);
    assert_eq!(m1.augment(m2.clone()), Err(MatrixError::RowMismatch));
    assert_eq!(m1.ncols(), 10);
}

#[test]
fn stack() {
    let mut m1: Matrix<i32> = Matrix::identity(10);
    let m2: Matrix<i32> = Matrix::identity(10);
    m1.stack(m2.clone()).unwrap();
    assert_eq!(m1.ncols(), m2.ncols());
    assert_eq!(m1.nrows(), 20);

    for i in 0..10 {
        for j in 0..10 {
            let expected = if i == j { 1 } else { 0 };
            assert_eq!(
                entry(&m1, j, i),
                expected,
                "on position ({},{}) there should be a {}",
                i,
                j,
                expected
            );
            assert_eq!(
                entry(&m1, j + 10, i),
                expected,
                "on position ({},{}) there should be a {}",
                i,
                j + 10,
                expected
            );
        }
    }
}

#[test]
fn stack_unequal_sizes() {
    let mut m1: Matrix<i32> = Matrix::identity(10);
    let m2: Matrix<i32> = Matrix::identity(5);
    assert_eq!(m1.stack(m2.clone()), Err(MatrixError::ColumnMismatch));
    assert_eq!(m1.nrows(), 10);
}
