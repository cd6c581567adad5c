//! Decimal text of integers: what the user ids in sessions and in query text
//! look like, the parser that reads them back, and the law that connects the
//! two directions.

use vstd::prelude::*;

verus! {

/// The character of the decimal digit `d` (`0 <= d < 10`).
pub open spec fn digit_char(d: int) -> char {
    (d + 48) as char
}

/// Whether `c` is one of `0` to `9`.
pub open spec fn is_digit(c: char) -> bool {
    48 <= (c as int) <= 57
}

/// The value of the decimal digit `c`.
pub open spec fn digit_value(c: char) -> int {
    (c as int) - 48
}

/// The shortest decimal digits of `n`, most significant first.
pub open spec fn nat_digits(n: nat) -> Seq<char>
    decreases n,
{
    if n < 10 {
        seq![digit_char(n as int)]
    } else {
        nat_digits(n / 10).push(digit_char((n % 10) as int))
    }
}

/// How an integer is written in decimal: a `-` before the digits of a
/// negative number, no sign otherwise, no leading zeros.
pub open spec fn decimal_repr(x: int) -> Seq<char> {
    if x < 0 {
        seq!['-'] + nat_digits((-x) as nat)
    } else {
        nat_digits(x as nat)
    }
}

/// A non-empty run of decimal digits.
pub open spec fn all_digits(s: Seq<char>) -> bool {
    &&& s.len() > 0
    &&& forall|i: int| 0 <= i < s.len() ==> is_digit(#[trigger] s[i])
}

/// The value of a run of decimal digits, most significant first.
pub open spec fn digits_value(s: Seq<char>) -> int
    decreases s.len(),
{
    if s.len() == 0 {
        0
    } else {
        digits_value(s.drop_last()) * 10 + digit_value(s.last())
    }
}

/// The integer that `s` denotes as an optional `+` or `-` sign followed by
/// one or more decimal digits, or `None` when `s` has any other shape
/// (empty, a sign alone, spaces, underscores or any other character).
pub open spec fn decimal_value(s: Seq<char>) -> Option<int> {
    if s.len() > 0 && (s[0] == '-' || s[0] == '+') {
        if all_digits(s.drop_first()) {
            if s[0] == '-' {
                Some(-digits_value(s.drop_first()))
            } else {
                Some(digits_value(s.drop_first()))
            }
        } else {
            None
        }
    } else if all_digits(s) {
        Some(digits_value(s))
    } else {
        None
    }
}

/// `s` is the decimal text of a value that fits in an `i32`.
pub open spec fn is_i32_text(s: Seq<char>) -> bool {
    decimal_value(s) matches Some(v) && i32::MIN <= v <= i32::MAX
}

/// `s` is the decimal text of a value that fits in an `i64`.
pub open spec fn is_i64_text(s: Seq<char>) -> bool {
    decimal_value(s) matches Some(v) && i64::MIN <= v <= i64::MAX
}

/// The text that std's `ParseIntError` displays when `s` is not the
/// decimal text of an `i32`. std chooses it from the text alone (empty text,
/// an invalid character, a value too large or too small), so it is a
/// function of `s`.
pub uninterp spec fn i32_parse_error_text(s: Seq<char>) -> Seq<char>;

/// Calls `str::parse::<i32>` (std's `FromStr for i32`) and turns its error
/// into the text the error displays. std's documentation states the accepted
/// text: an optional `+` or `-` sign followed by only ASCII digits, the value
/// within the range of `i32`; anything else is an error. The contract claims
/// exactly that, and names the error text as a function of `s`; what that
/// text is is left unsaid.
#[verifier::external_body]
pub(crate) fn parse_i32(s: &str) -> (res: Result<i32, String>)
    ensures
        res is Ok <==> is_i32_text(s@),
        res matches Ok(v) ==> decimal_value(s@) == Some(v as int),
        res matches Err(m) ==> m@ == i32_parse_error_text(s@),
{
    match s.parse::<i32>() {
        Ok(v) => Ok(v),
        Err(e) => Err(e.to_string()),
    }
}

/// Calls `str::parse::<i64>` (std's `FromStr for i64`); an error becomes
/// `None`. The contract claims what std's documentation states, as for
/// `parse_i32`, with the range of `i64`.
#[verifier::external_body]
pub(crate) fn parse_i64(s: &str) -> (res: Option<i64>)
    ensures
        res is Some <==> is_i64_text(s@),
        res matches Some(v) ==> decimal_value(s@) == Some(v as int),
{
    s.parse::<i64>().ok()
}

/// The one-character text of the digit `d`.
fn digit_str(d: u64) -> (s: &'static str)
    requires
        d < 10,
    ensures
        s@ == seq![digit_char(d as int)],
{
    proof {
        reveal_strlit("0");
        reveal_strlit("1");
        reveal_strlit("2");
        reveal_strlit("3");
        reveal_strlit("4");
        reveal_strlit("5");
        reveal_strlit("6");
        reveal_strlit("7");
        reveal_strlit("8");
        reveal_strlit("9");
    }
    if d == 0 {
        "0"
    } else if d == 1 {
        "1"
    } else if d == 2 {
        "2"
    } else if d == 3 {
        "3"
    } else if d == 4 {
        "4"
    } else if d == 5 {
        "5"
    } else if d == 6 {
        "6"
    } else if d == 7 {
        "7"
    } else if d == 8 {
        "8"
    } else {
        "9"
    }
}

/// Appends the decimal digits of `n` to `out`.
fn push_digits(out: &mut String, n: u64)
    ensures
        final(out)@ == old(out)@ + nat_digits(n as nat),
    decreases n,
{
    if n >= 10 {
        push_digits(out, n / 10);
    }
    let d = digit_str(n % 10);
    out.append(d);
    proof {
        if n < 10 {
            assert(n % 10 == n);
        }
    }
}

/// Appends the decimal text of `x` to `out`.
pub fn push_decimal(out: &mut String, x: i64)
    ensures
        final(out)@ == old(out)@ + decimal_repr(x as int),
{
    if x < 0 {
        let minus = "-";
        proof {
            reveal_strlit("-");
        }
        out.append(minus);
        let magnitude: u64 = (-(x + 1)) as u64 + 1;
        push_digits(out, magnitude);
    } else {
        push_digits(out, x as u64);
    }
}

/// The decimal text of `x`, as `x.to_string()` writes it.
pub fn format_i64(x: i64) -> (s: String)
    ensures
        s@ == decimal_repr(x as int),
{
    let mut s = String::new();
    push_decimal(&mut s, x);
    s
}

proof fn lemma_nat_digits_are_digits(n: nat)
    ensures
        all_digits(nat_digits(n)),
        digits_value(nat_digits(n)) == n,
    decreases n,
{
    let d = (n % 10) as int;
    assert(digit_value(digit_char(d)) == d);
    if n < 10 {
        assert(n % 10 == n);
        assert(nat_digits(n).drop_last() =~= Seq::<char>::empty());
        assert(digits_value(Seq::<char>::empty()) == 0);
        assert(nat_digits(n).last() == digit_char(d));
    } else {
        lemma_nat_digits_are_digits(n / 10);
        let s = nat_digits(n);
        assert(s.drop_last() == nat_digits(n / 10));
        assert forall|i: int| 0 <= i < s.len() implies is_digit(#[trigger] s[i]) by {
            if i < s.len() - 1 {
                assert(s[i] == nat_digits(n / 10)[i]);
            }
        }
        assert(s.last() == digit_char(d));
        assert(digits_value(s) == digits_value(s.drop_last()) * 10 + digit_value(s.last()));
        assert(n == (n / 10) * 10 + n % 10);
    }
}

/// Reading back what the formatter writes gives the number that was written:
/// the decimal text of every integer parses to that integer.
pub proof fn lemma_decimal_roundtrip(x: int)
    ensures
        decimal_value(decimal_repr(x)) == Some(x),
{
    if x < 0 {
        let d = nat_digits((-x) as nat);
        lemma_nat_digits_are_digits((-x) as nat);
        assert((seq!['-'] + d).drop_first() == d);
    } else {
        let d = nat_digits(x as nat);
        lemma_nat_digits_are_digits(x as nat);
        assert(is_digit(d[0]));
    }
}

/// Every `i64` value written by `format_i64` is read back by the parser as
/// the same value.
pub proof fn lemma_i64_text_roundtrip(x: i64)
    ensures
        is_i64_text(decimal_repr(x as int)),
        decimal_value(decimal_repr(x as int)) == Some(x as int),
{
    lemma_decimal_roundtrip(x as int);
}

} // verus!
