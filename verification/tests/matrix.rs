use rula::full_matrix::FullMatrix;

#[test]
fn zero_matrix_has_given_dimensions() {
    let m: FullMatrix<i32> = FullMatrix::zero(2, 3);
    assert_eq!(m.nrow, 2);
    assert_eq!(m.ncol, 3);
}

#[test]
fn zero_matrix_is_all_zero() {
    let m: FullMatrix<i64> = FullMatrix::zero(3, 4);
    for i in 0..m.nrow {
        for j in 0..m.ncol {
            assert_eq!(*m.get(i, j), 0);
        }
    }
}

#[test]
fn empty_matrix_is_allowed() {
    let m: FullMatrix<u32> = FullMatrix::zero(0, 5);
    assert_eq!(m.nrow, 0);
    assert_eq!(m.ncol, 5);
    let n: FullMatrix<u32> = FullMatrix::zero(4, 0);
    assert_eq!(n.nrow, 4);
    assert_eq!(n.ncol, 0);
}

#[test]
fn row_iteration_yields_each_row_element_in_order() {
    let m: FullMatrix<i32> = FullMatrix::zero(2, 3);
    for i in 0..m.nrow {
        let mut it = m.iter_over_row(i);
        let mut count: usize = 0;
        let mut j: usize = 0;
        while let Some(value) = it.next() {
            assert_eq!(value, *m.get(i, j));
            count += 1;
            j += 1;
        }
        assert_eq!(count, m.ncol);
        assert!(it.next().is_none());
    }
}

#[test]
fn column_iteration_yields_each_column_element_in_order() {
    let m: FullMatrix<i32> = FullMatrix::zero(3, 2);
    for j in 0..m.ncol {
        let mut it = m.iter_over_column(j);
        let mut count: usize = 0;
        let mut i: usize = 0;
        while let Some(value) = it.next() {
            assert_eq!(value, *m.get(i, j));
            count += 1;
            i += 1;
        }
        assert_eq!(count, m.nrow);
        assert!(it.next().is_none());
    }
}

#[test]
fn column_iteration_over_empty_column_is_exhausted_at_once() {
    let m: FullMatrix<u8> = FullMatrix::zero(0, 2);
    let mut it = m.iter_over_column(1);
    assert!(it.next().is_none());
}
