use array_tuple::assemble::{generate_lib, generate_tests, IMPLS_MARKER, LIB_HEADER, TESTS_HEADER};
use array_tuple::emit::{generate_one, generate_one_borrow, generate_one_borrow_test, generate_one_test};
use array_tuple::text::{comma_delimited, push_decimal};
use array_tuple::tier::{arities, select_tier, SizeTier, TierError};

#[test]
fn tier_limits() {
    assert_eq!(13, SizeTier::Small.limit());
    assert_eq!(25, SizeTier::Medium.limit());
    assert_eq!(65, SizeTier::Large.limit());
    assert_eq!(251, SizeTier::Huge.limit());
}

#[test]
fn selecting_large_gives_sixty_five_arities() {
    let tier = select_tier(false, false, true, false).unwrap();
    assert_eq!(SizeTier::Large, tier);
    assert_eq!(65, tier.limit());
    let a = arities(tier);
    assert_eq!(65, a.len());
    assert_eq!(0, a[0]);
    assert_eq!(64, a[64]);
    let expected: Vec<u8> = (0..65).collect();
    assert_eq!(expected, a);
}

#[test]
fn no_selection_defaults_to_small() {
    assert_eq!(Ok(SizeTier::Small), select_tier(false, false, false, false));
    assert_eq!(Ok(SizeTier::Small), select_tier(true, false, false, false));
    assert_eq!(Ok(SizeTier::Medium), select_tier(false, true, false, false));
    assert_eq!(Ok(SizeTier::Huge), select_tier(false, false, false, true));
}

#[test]
fn two_tiers_conflict() {
    assert_eq!(Err(TierError::Conflicting), select_tier(false, true, true, false));
    assert_eq!(Err(TierError::Conflicting), select_tier(true, false, false, true));
    assert_eq!(Err(TierError::Conflicting), select_tier(true, true, true, true));
}

#[test]
fn arities_cover_range_once() {
    let a = arities(SizeTier::Huge);
    assert_eq!(251, a.len());
    for (i, n) in a.iter().enumerate() {
        assert_eq!(i, *n as usize);
    }
}

#[test]
fn decimal_text() {
    let mut s = String::from("x");
    push_decimal(&mut s, 0);
    push_decimal(&mut s, 7);
    push_decimal(&mut s, 250);
    push_decimal(&mut s, 4096);
    assert_eq!("x072504096", s);
}

#[test]
fn comma_lists() {
    assert_eq!("", comma_delimited(0, "E"));
    assert_eq!("E,", comma_delimited(1, "E"));
    assert_eq!("E, E, E", comma_delimited(3, "E"));
    assert_eq!("&'l E, &'l E", comma_delimited(2, "&'l E"));
}

#[test]
fn owned_conversion_of_zero() {
    let expected = [
        "impl<E> Sealed for [E; 0]{ }\n",
        "impl<'l, E> Sealed for &'l [E; 0]{ }\n",
        "impl<E> IntoTuple<0, E, ()> for [E; 0] {\n",
        "    fn into_tuple(self: [E; 0]) -> () {\n",
        "        ()\n",
        "    }\n",
        "}\n\n",
    ]
    .concat();
    assert_eq!(expected, generate_one(0));
}

#[test]
fn owned_conversion_of_two() {
    let expected = [
        "impl<E> Sealed for [E; 2]{ }\n",
        "impl<'l, E> Sealed for &'l [E; 2]{ }\n",
        "impl<E> IntoTuple<2, E, (E, E)> for [E; 2] {\n",
        "    fn into_tuple(self: [E; 2]) -> (E, E) {\n",
        "        let mut it = self.into_iter();\n",
        "        (\n",
        "            it.next().unwrap(), // 0\n",
        "            it.next().unwrap(), // 1\n",
        "        )\n",
        "    }\n",
        "}\n\n",
    ]
    .concat();
    assert_eq!(expected, generate_one(2));
}

#[test]
fn owned_conversion_of_one_is_a_tuple_type() {
    let text = generate_one(1);
    assert!(text.contains("IntoTuple<1, E, (E,)> for [E; 1]"));
    assert!(text.contains("-> (E,) {"));
}

#[test]
fn borrowed_conversion_of_zero_is_empty() {
    assert_eq!("", generate_one_borrow(0));
}

#[test]
fn borrowed_conversion_of_one() {
    let expected = [
        "impl<'l, E> IntoTuple<1, E, (&'l E,)> for &'l [E; 1] {\n",
        "    fn into_tuple(self: &'l [E; 1]) -> (&'l E,) {\n",
        "        let mut it = self.iter();\n",
        "        (\n",
        "            it.next().unwrap(), // 0\n",
        "        )\n",
        "    }\n",
        "}\n\n",
    ]
    .concat();
    assert_eq!(expected, generate_one_borrow(1));
}

#[test]
fn owned_test_of_zero() {
    let expected = [
        "\n#[test]\n",
        "fn test_tuple_of_0() {\n",
        "    let arr : [u8; 0] = [\n",
        "    ];\n",
        "    let tup = arr.into_tuple();\n",
        "    assert_eq!((), tup)\n",
        "}\n",
    ]
    .concat();
    assert_eq!(expected, generate_one_test(0));
}

#[test]
fn owned_test_of_two() {
    let expected = [
        "\n#[test]\n",
        "fn test_tuple_of_2() {\n",
        "    let arr : [u8; 2] = [\n",
        "        1_u8,\n",
        "        2_u8,\n",
        "    ];\n\n",
        "    let tup = arr.into_tuple();\n",
        "    assert_eq!(1, tup.0, \"Item 0 in an array->tuple sized to 2 has the wrong value\");\n",
        "    assert_eq!(2, tup.1, \"Item 1 in an array->tuple sized to 2 has the wrong value\")\n",
        "}\n",
    ]
    .concat();
    assert_eq!(expected, generate_one_test(2));
}

#[test]
fn borrowed_test_of_zero_is_empty() {
    assert_eq!("", generate_one_borrow_test(0));
}

#[test]
fn borrowed_test_of_two() {
    let expected = [
        "\nconst STATIC_ARR_2 : [u8; 2] = [1_u8, 2_u8, ];\n",
        "static STATIC_ARR_REF_2 : &'static [u8; 2] = &STATIC_ARR_2;\n",
        "\n#[test]\n",
        "fn test_borrow_tuple_of_2() {\n",
        "    let tup = STATIC_ARR_REF_2.into_tuple();\n",
        "    assert_eq!(1, *tup.0);\n",
        "    assert_eq!(2, *tup.1);\n",
        "}\n\n",
    ]
    .concat();
    assert_eq!(expected, generate_one_borrow_test(2));
}

#[test]
fn borrowed_test_breaks_long_arrays() {
    let text = generate_one_borrow_test(12);
    assert!(text.contains("[1_u8, 2_u8, 3_u8, 4_u8, 5_u8, 6_u8, \n    7_u8, "));
    assert!(text.contains("11_u8, \n    12_u8, ];"));
    let text = generate_one_borrow_test(11);
    assert!(text.contains("11_u8, ];"));
    assert!(!text.contains("11_u8, \n"));
}

#[test]
fn generated_lib_lists_each_arity_once_in_order() {
    let lib = generate_lib(SizeTier::Small);
    assert!(lib.starts_with(LIB_HEADER));
    assert!(lib[LIB_HEADER.len()..].starts_with(IMPLS_MARKER));
    let mut expected = String::from(LIB_HEADER);
    expected.push_str(IMPLS_MARKER);
    for n in 0..13u8 {
        expected.push_str(&generate_one(n));
    }
    for n in 0..13u8 {
        expected.push_str(&generate_one_borrow(n));
    }
    assert_eq!(expected, lib);
    for n in 0..13 {
        let owned = format!("IntoTuple<{}, E, (", n);
        assert_eq!(if n == 0 { 1 } else { 2 }, lib.matches(&owned).count());
    }
    assert!(!lib.contains("IntoTuple<13,"));
}

#[test]
fn generated_tests_follow_each_arity() {
    let tests = generate_tests(SizeTier::Medium);
    let mut expected = String::from(TESTS_HEADER);
    for n in 0..25u8 {
        expected.push_str(&generate_one_test(n));
        expected.push_str(&generate_one_borrow_test(n));
    }
    assert_eq!(expected, tests);
    assert!(tests.contains("fn test_tuple_of_24()"));
    assert!(tests.contains("fn test_borrow_tuple_of_24()"));
    assert!(!tests.contains("fn test_tuple_of_25()"));
    assert!(!tests.contains("fn test_borrow_tuple_of_0()"));
}

#[test]
fn generation_is_deterministic() {
    assert_eq!(generate_lib(SizeTier::Large), generate_lib(SizeTier::Large));
    assert_eq!(generate_tests(SizeTier::Large), generate_tests(SizeTier::Large));
    assert_ne!(generate_lib(SizeTier::Small), generate_lib(SizeTier::Large));
}

#[test]
fn huge_tier_reaches_two_hundred_fifty() {
    let lib = generate_lib(SizeTier::Huge);
    assert!(lib.contains("for [E; 250] {"));
    assert!(lib.contains("for &'l [E; 250] {"));
    assert!(!lib.contains("[E; 251]"));
    assert!(lib.contains("            it.next().unwrap(), // 249\n"));
}
