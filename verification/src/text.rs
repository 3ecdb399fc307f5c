//! Text helpers shared by the rest of the crate: exact decimal rendering of
//! integers and comparison of string slices by content.

use vstd::prelude::*;

verus! {

/// The character of the decimal digit `d`, for `0 <= d <= 9`.
pub open spec fn digit_char(d: int) -> char {
    if d == 0 {
        '0'
    } else if d == 1 {
        '1'
    } else if d == 2 {
        '2'
    } else if d == 3 {
        '3'
    } else if d == 4 {
        '4'
    } else if d == 5 {
        '5'
    } else if d == 6 {
        '6'
    } else if d == 7 {
        '7'
    } else if d == 8 {
        '8'
    } else {
        '9'
    }
}

/// The text of the decimal digit `d`: its one character.
pub open spec fn digit(d: int) -> Seq<char> {
    seq![digit_char(d)]
}

/// The decimal numeral of `n`, without sign and without leading zeros.
pub open spec fn decimal(n: nat) -> Seq<char>
    decreases n,
{
    if n < 10 {
        digit(n as int)
    } else {
        decimal(n / 10) + digit((n % 10) as int)
    }
}

/// The decimal numeral of `n`, with a leading minus sign when `n` is negative.
pub open spec fn signed_decimal(n: int) -> Seq<char> {
    if n < 0 {
        seq!['-'] + decimal((-n) as nat)
    } else {
        decimal(n as nat)
    }
}

/// `n` as at least two decimal digits: a zero is put in front of a single digit.
pub open spec fn two_digits(n: nat) -> Seq<char> {
    if n < 10 {
        seq!['0'] + digit(n as int)
    } else {
        decimal(n)
    }
}

fn digit_str(d: u64) -> (s: &'static str)
    requires
        d < 10,
    ensures
        s@ == digit(d as int),
{
    proof {
        reveal_strlit("0");
        reveal_strlit("1");
        reveal_strlit("2");
        reveal_strlit("3");
        reveal_strlit("4");
        reveal_strlit("5");
        reveal_strlit("6");
        reveal_strlit("7");
        reveal_strlit("8");
        reveal_strlit("9");
    }
    let s = if d == 0 {
        "0"
    } else if d == 1 {
        "1"
    } else if d == 2 {
        "2"
    } else if d == 3 {
        "3"
    } else if d == 4 {
        "4"
    } else if d == 5 {
        "5"
    } else if d == 6 {
        "6"
    } else if d == 7 {
        "7"
    } else if d == 8 {
        "8"
    } else {
        "9"
    };
    assert(s@ =~= digit(d as int));
    s
}

/// A numeral has at least one digit, and as many as its tenth part and one
/// more where the number is ten or more.
pub proof fn numeral_length(n: nat)
    ensures
        decimal(n).len() >= 1,
        n < 10 ==> decimal(n).len() == 1,
        n >= 10 ==> decimal(n).len() == decimal(n / 10).len() + 1,
    decreases n,
{
    if n >= 10 {
        numeral_length(n / 10);
    }
}

/// Appends the decimal numeral of `n` to `out`.
pub fn push_decimal(out: &mut String, n: u64)
    ensures
        final(out)@ == old(out)@ + decimal(n as nat),
    decreases n,
{
    if n >= 10 {
        push_decimal(out, n / 10);
    }
    out.append(digit_str(n % 10));
}

/// The decimal numeral of `n` as a fresh string.
pub fn decimal_string(n: u64) -> (s: String)
    ensures
        s@ == decimal(n as nat),
{
    let mut s = String::new();
    push_decimal(&mut s, n);
    s
}

/// The decimal numeral of `n`, signed, as a fresh string.
pub fn signed_decimal_string(n: i64) -> (s: String)
    ensures
        s@ == signed_decimal(n as int),
{
    let mut s = String::new();
    proof {
        reveal_strlit("-");
    }
    if n < 0 {
        s.append("-");
        assert(s@ =~= seq!['-']);
        let magnitude: u64 = ((-(n + 1)) as u64) + 1;
        push_decimal(&mut s, magnitude);
    } else {
        push_decimal(&mut s, n as u64);
    }
    s
}

/// Appends `n` as at least two decimal digits to `out`.
pub fn push_two_digits(out: &mut String, n: u64)
    ensures
        final(out)@ == old(out)@ + two_digits(n as nat),
{
    proof {
        reveal_strlit("0");
    }
    if n < 10 {
        out.append("0");
        assert(out@ =~= old(out)@ + seq!['0']);
    }
    push_decimal(out, n);
}

/// A span of `secs` seconds as a clock reading: hours, minutes and seconds
/// where `long`, else minutes (below sixty) and seconds.
pub open spec fn clock(secs: nat, long: bool) -> Seq<char> {
    if long {
        decimal(secs / 3600) + seq![':'] + two_digits(secs / 60 % 60) + seq![':'] + two_digits(
            secs % 60,
        )
    } else {
        decimal(secs / 60 % 60) + seq![':'] + two_digits(secs % 60)
    }
}

/// Appends the clock reading of `secs` seconds to `out`.
pub fn push_clock(out: &mut String, secs: u64, long: bool)
    ensures
        final(out)@ == old(out)@ + clock(secs as nat, long),
{
    proof {
        reveal_strlit(":");
        assert(":"@ =~= seq![':']);
    }
    if long {
        push_decimal(out, secs / 3600);
        out.append(":");
        push_two_digits(out, secs / 60 % 60);
    } else {
        push_decimal(out, secs / 60 % 60);
    }
    out.append(":");
    push_two_digits(out, secs % 60);
}

/// Whether two string slices hold the same characters.
pub fn same_text(a: &str, b: &str) -> (r: bool)
    ensures
        r == (a@ == b@),
{
    let left = String::from_str(a);
    let right = String::from_str(b);
    left == right
}

/// Whether one of the strings in `list` holds the characters of `text`.
pub fn holds_text(list: &Vec<String>, text: &str) -> (r: bool)
    ensures
        r == list.deep_view().contains(text@),
{
    let mut i: usize = 0;
    while i < list.len()
        invariant
            i <= list.len(),
            forall|j: int| 0 <= j < i ==> list.deep_view()[j] != text@,
        decreases list.len() - i,
    {
        if same_text(list[i].as_str(), text) {
            assert(list.deep_view()[i as int] == text@);
            return true;
        }
        i += 1;
    }
    false
}

} // verus!
