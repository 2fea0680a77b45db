use array_tuple::IntoTuple;

const STATIC_ARR: [u8; 4] = [1_u8, 2_u8, 3_u8, 4_u8];
static STATIC_REF: &'static [u8; 4] = &STATIC_ARR;

#[test]
fn test_borrow_no_lifetime() {
    let arr: [u8; 4] = [1_u8, 2_u8, 3_u8, 4_u8];
    let aref: &[u8; 4] = &arr;
    let tup = aref.into_tuple();
    assert_eq!(1, *tup.0);
    assert_eq!(2, *tup.1);
    assert_eq!(3, *tup.2);
    assert_eq!(4, *tup.3);
}

#[test]
fn test_borrow_static() {
    let tup = STATIC_REF.into_tuple();
    assert_eq!(1, *tup.0);
    assert_eq!(2, *tup.1);
    assert_eq!(3, *tup.2);
    assert_eq!(4, *tup.3);
}

#[test]
fn owned_four_keeps_order() {
    let arr: [u8; 4] = [1_u8, 2_u8, 3_u8, 4_u8];
    let tup = arr.into_tuple();
    assert_eq!((1, 2, 3, 4), tup);
}

#[test]
fn owned_empty_is_unit() {
    let arr: [u8; 0] = [];
    let tup: () = arr.into_tuple();
    assert_eq!((), tup);
}

#[test]
fn owned_one_is_a_tuple_of_one() {
    let arr: [u8; 1] = [9_u8];
    let tup: (u8,) = arr.into_tuple();
    assert_eq!((9_u8,), tup);
}

#[test]
fn borrowed_one_is_a_tuple_of_one_reference() {
    let arr: [u8; 1] = [9_u8];
    let tup: (&u8,) = (&arr).into_tuple();
    assert_eq!(9, *tup.0);
    assert!(std::ptr::eq(tup.0, &arr[0]));
}

#[test]
fn owned_twelve_moves_non_copy_values() {
    let arr: [String; 12] = [
        "a".to_string(),
        "b".to_string(),
        "c".to_string(),
        "d".to_string(),
        "e".to_string(),
        "f".to_string(),
        "g".to_string(),
        "h".to_string(),
        "i".to_string(),
        "j".to_string(),
        "k".to_string(),
        "l".to_string(),
    ];
    let tup = arr.into_tuple();
    assert_eq!("a", tup.0);
    assert_eq!("b", tup.1);
    assert_eq!("f", tup.5);
    assert_eq!("k", tup.10);
    assert_eq!("l", tup.11);
}

#[test]
fn borrowed_twelve_points_into_the_array() {
    let arr: [u32; 12] = [10, 20, 30, 40, 50, 60, 70, 80, 90, 100, 110, 120];
    let tup = (&arr).into_tuple();
    assert_eq!(10, *tup.0);
    assert_eq!(70, *tup.6);
    assert_eq!(120, *tup.11);
    assert!(std::ptr::eq(tup.11, &arr[11]));
}
