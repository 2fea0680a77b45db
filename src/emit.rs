use vstd::prelude::*;
use vstd::string::StringExecFns;

use crate::text::{decimal, delimited, push_decimal, comma_delimited};

verus! {

/// One line of an extraction: the next element of the traversal, for slot `i`.
pub open spec fn extraction_line(i: nat) -> Seq<char> {
    "            it.next().unwrap(), // "@ + decimal(i) + "\n"@
}

/// The extraction lines for slots `0 .. k`.
pub open spec fn extraction_lines(k: nat) -> Seq<char>
    decreases k,
{
    if k == 0 {
        Seq::empty()
    } else {
        extraction_lines((k - 1) as nat) + extraction_line((k - 1) as nat)
    }
}

/// The text of the sealing impls and of the conversion of an owned array of
/// `n` elements.
///
/// The extraction takes exactly `n` elements from the array's own traversal,
/// in order, each with a checked `unwrap`: the array yields `n` elements by
/// construction, so the check never fails, and it costs one comparison.
pub open spec fn conversion_text(n: nat) -> Seq<char> {
    "impl<E> Sealed for [E; "@ + decimal(n) + "]{ }\n"@ + "impl<'l, E> Sealed for &'l [E; "@
        + decimal(n) + "]{ }\n"@ + "impl<E> IntoTuple<"@ + decimal(n) + ", E, ("@ + delimited(
        n,
        "E"@,
    ) + ")> for [E; "@ + decimal(n) + "] {\n    "@ + "fn into_tuple(self: [E; "@ + decimal(n)
        + "]) -> ("@ + delimited(n, "E"@) + ") {\n        "@ + conversion_body(n)
}

/// The body of the owned conversion of `n` elements, and the closing braces.
pub open spec fn conversion_body(n: nat) -> Seq<char> {
    if n == 0 {
        "()\n    }\n}\n\n"@
    } else {
        "let mut it = self.into_iter();\n        (\n"@ + extraction_lines(n)
            + "        )\n    }\n}\n\n"@
    }
}

/// The text of the conversion of a borrowed array of `n` elements; empty for
/// `n == 0`, where the owned conversion serves.
pub open spec fn borrow_conversion_text(n: nat) -> Seq<char> {
    if n == 0 {
        Seq::empty()
    } else {
        "impl<'l, E> IntoTuple<"@ + decimal(n) + ", E, ("@ + delimited(n, "&'l E"@)
            + ")> for &'l [E; "@ + decimal(n) + "] {\n    "@ + "fn into_tuple(self: &'l [E; "@
            + decimal(n) + "]) -> ("@ + delimited(n, "&'l E"@) + ") {\n        "@
            + "let mut it = self.iter();\n        (\n"@ + extraction_lines(n)
            + "        )\n    }\n}\n\n"@
    }
}

fn push_extraction_lines(s: &mut String, k: u8)
    ensures
        final(s)@ == old(s)@ + extraction_lines(k as nat),
{
    let ghost start = s@;
    let mut i: u8 = 0;
    while i < k
        invariant
            i <= k,
            s@ == start + extraction_lines(i as nat),
        decreases k - i,
    {
        s.append("            it.next().unwrap(), // ");
        push_decimal(s, i as u32);
        s.append("\n");
        i = i + 1;
        assert(s@ =~= start + extraction_lines(i as nat));
    }
}

/// The sealing impls and the owned conversion for arrays of `count` elements.
pub fn generate_one(count: u8) -> (r: String)
    ensures
        r@ == conversion_text(count as nat),
{
    let n = count as u32;
    let es = comma_delimited(count, "E");
    let mut r = String::new();
    r.append("impl<E> Sealed for [E; ");
    push_decimal(&mut r, n);
    r.append("]{ }\n");
    r.append("impl<'l, E> Sealed for &'l [E; ");
    push_decimal(&mut r, n);
    r.append("]{ }\n");
    r.append("impl<E> IntoTuple<");
    push_decimal(&mut r, n);
    r.append(", E, (");
    r.append(es.as_str());
    r.append(")> for [E; ");
    push_decimal(&mut r, n);
    r.append("] {\n    ");
    r.append("fn into_tuple(self: [E; ");
    push_decimal(&mut r, n);
    r.append("]) -> (");
    r.append(es.as_str());
    r.append(") {\n        ");
    let ghost head = r@;
    if count == 0 {
        r.append("()\n    }\n}\n\n");
    } else {
        r.append("let mut it = self.into_iter();\n        (\n");
        push_extraction_lines(&mut r, count);
        r.append("        )\n    }\n}\n\n");
    }
    assert(r@ =~= head + conversion_body(count as nat));
    r
}

/// The conversion for borrowed arrays of `count` elements; empty for
/// `count == 0`.
pub fn generate_one_borrow(count: u8) -> (r: String)
    ensures
        r@ == borrow_conversion_text(count as nat),
{
    let mut r = String::new();
    if count == 0 {
        return r;
    }
    let n = count as u32;
    let rs = comma_delimited(count, "&'l E");
    r.append("impl<'l, E> IntoTuple<");
    push_decimal(&mut r, n);
    r.append(", E, (");
    r.append(rs.as_str());
    r.append(")> for &'l [E; ");
    push_decimal(&mut r, n);
    r.append("] {\n    ");
    r.append("fn into_tuple(self: &'l [E; ");
    push_decimal(&mut r, n);
    r.append("]) -> (");
    r.append(rs.as_str());
    r.append(") {\n        ");
    r.append("let mut it = self.iter();\n        (\n");
    push_extraction_lines(&mut r, count);
    r.append("        )\n    }\n}\n\n");
    r
}

/// The array element at position `i` of a generated test: `i + 1`, as a `u8`.
pub open spec fn value_line(i: nat) -> Seq<char> {
    "        "@ + decimal(i + 1) + "_u8,\n"@
}

pub open spec fn value_lines(k: nat) -> Seq<char>
    decreases k,
{
    if k == 0 {
        Seq::empty()
    } else {
        value_lines((k - 1) as nat) + value_line((k - 1) as nat)
    }
}

/// The check that slot `i` of the tuple converted from `count` elements holds
/// `i + 1`; all but the last end in a semicolon.
pub open spec fn slot_assert(count: nat, i: nat) -> Seq<char> {
    "    assert_eq!("@ + decimal(i + 1) + ", tup."@ + decimal(i) + ", \"Item "@ + decimal(i)
        + " in an array->tuple sized to "@ + decimal(count) + " has the wrong value\")"@ + (if i
        + 1 != count {
        ";\n"@
    } else {
        "\n"@
    })
}

pub open spec fn slot_asserts(count: nat, k: nat) -> Seq<char>
    decreases k,
{
    if k == 0 {
        Seq::empty()
    } else {
        slot_asserts(count, (k - 1) as nat) + slot_assert(count, (k - 1) as nat)
    }
}

/// The test of the owned conversion of `n` elements `1, 2, .., n`.
pub open spec fn owned_test_text(n: nat) -> Seq<char> {
    "\n#[test]\nfn test_tuple_of_"@ + decimal(n) + "() {\n    let arr : [u8; "@ + decimal(n)
        + "] = [\n"@ + owned_test_body(n)
}

pub open spec fn owned_test_body(n: nat) -> Seq<char> {
    if n == 0 {
        "    ];\n"@ + "    let tup = arr.into_tuple();\n"@ + "    assert_eq!((), tup)\n"@ + "}\n"@
    } else {
        value_lines(n) + "    ];\n\n"@ + "    let tup = arr.into_tuple();\n"@ + slot_asserts(n, n)
            + "}\n"@
    }
}

/// Element `i` of the constant array of a borrow test of `count` elements; a
/// line break follows every fifth element after the first, but not the last.
pub open spec fn static_value(count: nat, i: nat) -> Seq<char> {
    decimal(i + 1) + "_u8, "@ + (if i > 0 && i % 5 == 0 && i + 1 < count {
        "\n    "@
    } else {
        Seq::empty()
    })
}

pub open spec fn static_values(count: nat, k: nat) -> Seq<char>
    decreases k,
{
    if k == 0 {
        Seq::empty()
    } else {
        static_values(count, (k - 1) as nat) + static_value(count, (k - 1) as nat)
    }
}

/// The check that the reference in slot `i` points to `i + 1`.
pub open spec fn deref_assert(i: nat) -> Seq<char> {
    "    assert_eq!("@ + decimal(i + 1) + ", *tup."@ + decimal(i) + ");\n"@
}

pub open spec fn deref_asserts(k: nat) -> Seq<char>
    decreases k,
{
    if k == 0 {
        Seq::empty()
    } else {
        deref_asserts((k - 1) as nat) + deref_assert((k - 1) as nat)
    }
}

/// The test of the borrowed conversion of a constant array `1, 2, .., n`,
/// reached through a `'static` reference; empty for `n == 0`.
pub open spec fn borrow_test_text(n: nat) -> Seq<char> {
    if n == 0 {
        Seq::empty()
    } else {
        "\nconst STATIC_ARR_"@ + decimal(n) + " : [u8; "@ + decimal(n) + "] = ["@ + static_values(
            n,
            n,
        ) + "];\n"@ + "static STATIC_ARR_REF_"@ + decimal(n) + " : &'static [u8; "@ + decimal(n)
            + "] = &STATIC_ARR_"@ + decimal(n) + ";\n"@ + "\n#[test]\nfn test_borrow_tuple_of_"@
            + decimal(n) + "() {\n    let tup = STATIC_ARR_REF_"@ + decimal(n)
            + ".into_tuple();\n"@ + deref_asserts(n) + "}\n\n"@
    }
}

fn push_value_lines(s: &mut String, k: u8)
    ensures
        final(s)@ == old(s)@ + value_lines(k as nat),
{
    let ghost start = s@;
    let mut i: u8 = 0;
    while i < k
        invariant
            i <= k,
            s@ == start + value_lines(i as nat),
        decreases k - i,
    {
        s.append("        ");
        push_decimal(s, i as u32 + 1);
        s.append("_u8,\n");
        i = i + 1;
        assert(s@ =~= start + value_lines(i as nat));
    }
}

fn push_slot_assert(s: &mut String, count: u8, i: u8)
    requires
        i < count,
    ensures
        final(s)@ == old(s)@ + slot_assert(count as nat, i as nat),
{
    let ghost start = s@;
    s.append("    assert_eq!(");
    push_decimal(s, i as u32 + 1);
    s.append(", tup.");
    push_decimal(s, i as u32);
    s.append(", \"Item ");
    push_decimal(s, i as u32);
    s.append(" in an array->tuple sized to ");
    push_decimal(s, count as u32);
    s.append(" has the wrong value\")");
    if i != count - 1 {
        s.append(";\n");
    } else {
        s.append("\n");
    }
    assert(s@ =~= start + slot_assert(count as nat, i as nat));
}

fn push_slot_asserts(s: &mut String, count: u8)
    ensures
        final(s)@ == old(s)@ + slot_asserts(count as nat, count as nat),
{
    let ghost start = s@;
    let mut i: u8 = 0;
    while i < count
        invariant
            i <= count,
            s@ == start + slot_asserts(count as nat, i as nat),
        decreases count - i,
    {
        push_slot_assert(s, count, i);
        i = i + 1;
        assert(s@ =~= start + slot_asserts(count as nat, i as nat));
    }
}

fn push_static_values(s: &mut String, count: u8)
    ensures
        final(s)@ == old(s)@ + static_values(count as nat, count as nat),
{
    let ghost start = s@;
    let mut i: u8 = 0;
    while i < count
        invariant
            i <= count,
            s@ == start + static_values(count as nat, i as nat),
        decreases count - i,
    {
        let ghost before = s@;
        push_decimal(s, i as u32 + 1);
        s.append("_u8, ");
        if i > 0 && i % 5 == 0 && i < count - 1 {
            s.append("\n    ");
        }
        assert(s@ =~= before + static_value(count as nat, i as nat));
        i = i + 1;
        assert(s@ =~= start + static_values(count as nat, i as nat));
    }
}

fn push_deref_asserts(s: &mut String, k: u8)
    ensures
        final(s)@ == old(s)@ + deref_asserts(k as nat),
{
    let ghost start = s@;
    let mut i: u8 = 0;
    while i < k
        invariant
            i <= k,
            s@ == start + deref_asserts(i as nat),
        decreases k - i,
    {
        s.append("    assert_eq!(");
        push_decimal(s, i as u32 + 1);
        s.append(", *tup.");
        push_decimal(s, i as u32);
        s.append(");\n");
        i = i + 1;
        assert(s@ =~= start + deref_asserts(i as nat));
    }
}

/// The test of the owned conversion of `count` elements.
pub fn generate_one_test(count: u8) -> (r: String)
    ensures
        r@ == owned_test_text(count as nat),
{
    let mut r = String::new();
    r.append("\n#[test]\nfn test_tuple_of_");
    push_decimal(&mut r, count as u32);
    r.append("() {\n    let arr : [u8; ");
    push_decimal(&mut r, count as u32);
    r.append("] = [\n");
    let ghost head = r@;
    if count == 0 {
        r.append("    ];\n");
        r.append("    let tup = arr.into_tuple();\n");
        r.append("    assert_eq!((), tup)\n");
        r.append("}\n");
    } else {
        push_value_lines(&mut r, count);
        r.append("    ];\n\n");
        r.append("    let tup = arr.into_tuple();\n");
        push_slot_asserts(&mut r, count);
        r.append("}\n");
    }
    assert(r@ =~= head + owned_test_body(count as nat));
    r
}

/// The test of the borrowed conversion of `count` elements; empty for
/// `count == 0`.
pub fn generate_one_borrow_test(count: u8) -> (r: String)
    ensures
        r@ == borrow_test_text(count as nat),
{
    let mut r = String::new();
    if count == 0 {
        return r;
    }
    let n = count as u32;
    r.append("\nconst STATIC_ARR_");
    push_decimal(&mut r, n);
    r.append(" : [u8; ");
    push_decimal(&mut r, n);
    r.append("] = [");
    push_static_values(&mut r, count);
    r.append("];\n");
    r.append("static STATIC_ARR_REF_");
    push_decimal(&mut r, n);
    r.append(" : &'static [u8; ");
    push_decimal(&mut r, n);
    r.append("] = &STATIC_ARR_");
    push_decimal(&mut r, n);
    r.append(";\n");
    r.append("\n#[test]\nfn test_borrow_tuple_of_");
    push_decimal(&mut r, n);
    r.append("() {\n    let tup = STATIC_ARR_REF_");
    push_decimal(&mut r, n);
    r.append(".into_tuple();\n");
    push_deref_asserts(&mut r, count);
    r.append("}\n\n");
    r
}

} // verus!
