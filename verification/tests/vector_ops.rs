use rula::traits::{ConvertTo, IsNumerical, Zero};
use rula::vector::{copy, dot, dot_in, filtered_copy, lin_com, mlt_add, scale, square_norm, zero};

#[test]
fn dot_concrete_example() {
    let v: Vec<i32> = vec![1, 2, 3];
    let u: Vec<i32> = vec![0, 6, 2];
    assert_eq!(dot(&u, &v), 18);
    assert_eq!(dot(&v, &u), 18);
    assert_eq!(u, [0, 6, 2]);
    assert_eq!(v, [1, 2, 3]);
}

#[test]
fn dot_commutes() {
    let u: Vec<i64> = vec![3, -1, 7, 2];
    let v: Vec<i64> = vec![-5, 4, 0, 9];
    assert_eq!(dot(&u, &v), dot(&v, &u));
}

#[test]
fn dot_truncates_to_shorter() {
    let long: Vec<i64> = vec![1, 2, 3, 4];
    let short: Vec<i64> = vec![0, 6, 2];
    assert_eq!(dot(&long, &short), 18);
    assert_eq!(dot(&short, &long), 18);
    assert_eq!(long, [1, 2, 3, 4]);
    assert_eq!(short, [0, 6, 2]);
}

#[test]
fn dot_of_empty_is_zero() {
    let empty: Vec<i32> = vec![];
    let u: Vec<i32> = vec![5, 6];
    assert_eq!(dot(&empty, &u), 0);
    assert_eq!(dot(&u, &empty), 0);
}

#[test]
fn dot_wraps_on_overflow() {
    assert_eq!(<u8 as IsNumerical>::mul(200, 2), 144);
    assert_eq!(<u8 as IsNumerical>::add(200, 100), 44);
    let u: Vec<u8> = vec![200];
    let v: Vec<u8> = vec![2];
    assert_eq!(dot(&u, &v), 144);
}

#[test]
fn square_norm_is_self_dot() {
    let u: Vec<i32> = vec![1, 2, 3];
    assert_eq!(square_norm(&u), 14);
    assert_eq!(square_norm(&u), dot(&u, &u));
}

#[test]
fn lin_com_concrete_example() {
    let u: Vec<i32> = vec![1, 2];
    let v: Vec<i32> = vec![2, 9, 1];
    let w = lin_com(2, &u, 1, &v);
    assert_eq!(w.len(), 2);
    assert_eq!(w, [4, 13]);
}

#[test]
fn lin_com_leaves_inputs_alone() {
    let u: Vec<i64> = vec![1, 2, 3];
    let v: Vec<i64> = vec![10, 20];
    let w = lin_com(1, &u, 1, &v);
    assert_eq!(w, [11, 22]);
    assert_eq!(u, [1, 2, 3]);
    assert_eq!(v, [10, 20]);
}

#[test]
fn mlt_add_same_type() {
    let mut u: Vec<i32> = vec![1, 2];
    let v: Vec<i32> = vec![2, 9, 1];
    mlt_add(&mut u, 2, &v);
    assert_eq!(u, [5, 20]);
}

#[test]
fn mlt_add_mixed_types() {
    let mut u: Vec<i64> = vec![1, 2];
    let v: Vec<i32> = vec![2, 9, 1];
    mlt_add(&mut u, 2i32, &v);
    assert_eq!(u, [5, 20]);
}

#[test]
fn mlt_add_leaves_extra_elements_unmodified() {
    let mut u: Vec<i32> = vec![1, 2, 7];
    let v: Vec<i32> = vec![2, 9];
    mlt_add(&mut u, 2, &v);
    assert_eq!(u, [5, 20, 7]);
}

#[test]
fn copy_is_value_equal_and_independent() {
    let u: Vec<i32> = vec![1, 2, 3];
    let mut v = copy(&u);
    assert_eq!(v, [1, 2, 3]);
    v[0] = 99;
    v[2] = -1;
    assert_eq!(u, [1, 2, 3]);
    assert_eq!(v, [99, 2, -1]);
}

#[test]
fn filtered_copy_keeps_order_and_selection() {
    let u: Vec<i32> = vec![1, -2, 3];
    let v = filtered_copy(&u, |x: i32| x > 0);
    assert_eq!(u, [1, -2, 3]);
    assert_eq!(v, [1, 3]);
}

#[test]
fn filtered_copy_can_keep_all_or_none() {
    let u: Vec<i32> = vec![4, 5, 6];
    assert_eq!(filtered_copy(&u, |_x: i32| true), [4, 5, 6]);
    let none: Vec<i32> = filtered_copy(&u, |_x: i32| false);
    assert!(none.is_empty());
}

#[test]
fn scale_multiplies_each_element() {
    let mut v: Vec<i32> = vec![1, 2, 3];
    scale(&mut v, 2);
    assert_eq!(v, [2, 4, 6]);
}

#[test]
fn zero_then_dot_is_zero() {
    let mut u: Vec<i32> = vec![4, -7, 9];
    zero(&mut u);
    assert_eq!(u, [0, 0, 0]);
    assert_eq!(dot(&u, &u), 0);
    assert_eq!(dot(&u, &u), <i32 as Zero>::zero());
}

#[test]
fn dot_in_widens_each_term() {
    let u: Vec<i32> = vec![1, 2, 3];
    let v: Vec<i32> = vec![0, 6, 2];
    let mut dest: i64 = 55;
    dot_in(&mut dest, &u, &v);
    assert_eq!(dest, 18i64);
}

#[test]
fn conversions_widen_losslessly() {
    assert_eq!(<u8 as ConvertTo<u16>>::convert(200), 200u16);
    assert_eq!(<i8 as ConvertTo<i64>>::convert(-7), -7i64);
    assert_eq!(<u16 as ConvertTo<i32>>::convert(40_000), 40_000i32);
    assert_eq!(<i32 as ConvertTo<i32>>::convert(-5), -5i32);
}
