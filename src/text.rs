use vstd::prelude::*;
use vstd::string::StringExecFns;

verus! {

/// The decimal digit `d` as text.
pub open spec fn digit(d: nat) -> Seq<char> {
    if d == 0 {
        "0"@
    } else if d == 1 {
        "1"@
    } else if d == 2 {
        "2"@
    } else if d == 3 {
        "3"@
    } else if d == 4 {
        "4"@
    } else if d == 5 {
        "5"@
    } else if d == 6 {
        "6"@
    } else if d == 7 {
        "7"@
    } else if d == 8 {
        "8"@
    } else {
        "9"@
    }
}

/// `n` written in decimal, without leading zeros.
pub open spec fn decimal(n: nat) -> Seq<char>
    decreases n,
{
    if n < 10 {
        digit(n)
    } else {
        decimal(n / 10) + digit(n % 10)
    }
}

/// `what`, `count` times, separated by `", "`; a single item is followed by a
/// comma, so that as a tuple type it stays a tuple of one.
pub open spec fn delimited(count: nat, what: Seq<char>) -> Seq<char> {
    if count == 1 {
        what + ","@
    } else {
        separated(count, what)
    }
}

/// `what`, `count` times, separated by `", "` (no separator stands before
/// the first non-empty text).
pub open spec fn separated(count: nat, what: Seq<char>) -> Seq<char>
    decreases count,
{
    if count == 0 {
        Seq::empty()
    } else {
        let before = separated((count - 1) as nat, what);
        if before.len() == 0 {
            what
        } else {
            before + ", "@ + what
        }
    }
}

fn digit_str(d: u32) -> (r: &'static str)
    requires
        d < 10,
    ensures
        r@ == digit(d as nat),
{
    if d == 0 {
        "0"
    } else if d == 1 {
        "1"
    } else if d == 2 {
        "2"
    } else if d == 3 {
        "3"
    } else if d == 4 {
        "4"
    } else if d == 5 {
        "5"
    } else if d == 6 {
        "6"
    } else if d == 7 {
        "7"
    } else if d == 8 {
        "8"
    } else {
        "9"
    }
}

/// Appends `n` in decimal to `s`.
pub fn push_decimal(s: &mut String, n: u32)
    ensures
        final(s)@ == old(s)@ + decimal(n as nat),
    decreases n,
{
    if n < 10 {
        s.append(digit_str(n));
    } else {
        push_decimal(s, n / 10);
        s.append(digit_str(n % 10));
        assert(final(s)@ =~= old(s)@ + decimal(n as nat));
    }
}

/// `what` repeated `count` times, separated by `", "`, with a trailing comma
/// when `count` is 1.
pub fn comma_delimited(count: u8, what: &str) -> (r: String)
    ensures
        r@ == delimited(count as nat, what@),
{
    let mut result = String::new();
    let mut i: u8 = 0;
    while i < count
        invariant
            i <= count,
            result@ == separated(i as nat, what@),
        decreases count - i,
    {
        if result.as_str().unicode_len() > 0 {
            result.append(", ");
        }
        result.append(what);
        i = i + 1;
        assert(result@ =~= separated(i as nat, what@));
    }
    if count == 1 {
        assert(separated(0, what@) =~= Seq::empty());
        result.append(",");
    }
    result
}

} // verus!
