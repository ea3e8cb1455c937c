//! Decimal text for unsigned integers, as std writes and reads it.

use vstd::prelude::*;
use vstd::std_specs::iter::IteratorSpec;
use vstd::string::StringExecFns;

verus! {

/// The character for a decimal digit `d < 10`.
pub open spec fn digit_char(d: nat) -> char {
    if d == 0 { '0' } else if d == 1 { '1' } else if d == 2 { '2' } else if d == 3 { '3' }
    else if d == 4 { '4' } else if d == 5 { '5' } else if d == 6 { '6' } else if d == 7 { '7' }
    else if d == 8 { '8' } else { '9' }
}

/// Whether `c` is an ASCII decimal digit.
pub open spec fn is_digit(c: char) -> bool {
    '0' <= c && c <= '9'
}

/// The value of an ASCII decimal digit.
pub open spec fn digit_value(c: char) -> nat {
    (c as int - '0' as int) as nat
}

/// The canonical decimal text of `n`: no sign, no leading zeros.
pub open spec fn decimal_text(n: nat) -> Seq<char>
    decreases n,
{
    if n < 10 {
        seq![digit_char(n)]
    } else {
        decimal_text(n / 10).push(digit_char(n % 10))
    }
}

/// The value of a run of decimal digits, most significant first.
pub open spec fn digits_value(s: Seq<char>) -> nat
    decreases s.len(),
{
    if s.len() == 0 {
        0
    } else {
        digits_value(s.drop_last()) * 10 + digit_value(s.last())
    }
}

/// What `u64::from_str` accepts: an optional `+` followed by one or more
/// decimal digits whose value fits in `u64`.
pub open spec fn parse_decimal_u64(s: Seq<char>) -> Option<u64> {
    let body = if s.len() > 0 && s[0] == '+' { s.drop_first() } else { s };
    if body.len() > 0 && (forall|i: int| 0 <= i < body.len() ==> is_digit(#[trigger] body[i]))
        && digits_value(body) <= u64::MAX {
        Some(digits_value(body) as u64)
    } else {
        None
    }
}

proof fn lemma_digit_char(d: nat)
    requires
        d < 10,
    ensures
        is_digit(digit_char(d)),
        digit_value(digit_char(d)) == d,
        digit_char(d) != '+',
{
}

/// The decimal text of `n` is made of digits and reads back as `n`.
pub proof fn lemma_decimal_text_reads_back(n: nat)
    ensures
        decimal_text(n).len() > 0,
        forall|i: int| 0 <= i < decimal_text(n).len() ==> is_digit(#[trigger] decimal_text(n)[i]),
        digits_value(decimal_text(n)) == n,
    decreases n,
{
    if n < 10 {
        lemma_digit_char(n);
        assert(decimal_text(n).drop_last() =~= Seq::<char>::empty());
        assert(digits_value(Seq::<char>::empty()) == 0);
    } else {
        lemma_decimal_text_reads_back(n / 10);
        lemma_digit_char(n % 10);
        let t = decimal_text(n);
        assert(t.drop_last() =~= decimal_text(n / 10));
        assert(t.last() == digit_char(n % 10));
        assert(n == (n / 10) * 10 + n % 10) by (nonlinear_arith);
        assert forall|i: int| 0 <= i < t.len() implies is_digit(#[trigger] t[i]) by {
            if i < t.len() - 1 {
                assert(t[i] == decimal_text(n / 10)[i]);
            }
        }
    }
}

/// Every unsigned value written as decimal text parses back to itself.
pub proof fn law_decimal_round_trip(n: u64)
    ensures
        parse_decimal_u64(decimal_text(n as nat)) == Some(n),
{
    lemma_decimal_text_reads_back(n as nat);
    let t = decimal_text(n as nat);
    assert(is_digit(t[0]));
}

/// The one-character text of a decimal digit.
fn digit_text(d: u64) -> (text: &'static str)
    requires
        d < 10,
    ensures
        text@ == seq![digit_char(d as nat)],
{
    if d == 0 {
        proof { reveal_strlit("0"); }
        "0"
    } else if d == 1 {
        proof { reveal_strlit("1"); }
        "1"
    } else if d == 2 {
        proof { reveal_strlit("2"); }
        "2"
    } else if d == 3 {
        proof { reveal_strlit("3"); }
        "3"
    } else if d == 4 {
        proof { reveal_strlit("4"); }
        "4"
    } else if d == 5 {
        proof { reveal_strlit("5"); }
        "5"
    } else if d == 6 {
        proof { reveal_strlit("6"); }
        "6"
    } else if d == 7 {
        proof { reveal_strlit("7"); }
        "7"
    } else if d == 8 {
        proof { reveal_strlit("8"); }
        "8"
    } else {
        proof { reveal_strlit("9"); }
        "9"
    }
}

/// Writes `value` in decimal, as `u64`'s `Display` does: the digits, most
/// significant first, with no leading zeros.
pub(crate) fn u64_to_decimal(value: u64) -> (text: String)
    ensures
        text@ == decimal_text(value as nat),
    decreases value,
{
    if value < 10 {
        digit_text(value).to_owned()
    } else {
        let head = u64_to_decimal(value / 10);
        let text = head.concat(digit_text(value % 10));
        assert(text@ =~= decimal_text(value as nat));
        text
    }
}

/// The decimal text of a signed integer: a minus sign before the digits of
/// a negative value.
pub open spec fn signed_decimal_text(value: int) -> Seq<char> {
    if value < 0 {
        seq!['-'] + decimal_text((-value) as nat)
    } else {
        decimal_text(value as nat)
    }
}

/// Writes `value` in decimal, as `i64`'s `Display` does.
pub fn i64_to_decimal(value: i64) -> (text: String)
    ensures
        text@ == signed_decimal_text(value as int),
{
    if value < 0 {
        let magnitude: u64 = if value == i64::MIN {
            9_223_372_036_854_775_808u64
        } else {
            (-value) as u64
        };
        let digits = u64_to_decimal(magnitude);
        let text = "-".to_owned().concat(digits.as_str());
        proof {
            reveal_strlit("-");
            assert("-"@ =~= seq!['-']);
        }
        text
    } else {
        u64_to_decimal(value as u64)
    }
}

/// Parses decimal text with `u64::from_str`.
#[verifier::external_body]
pub(crate) fn u64_from_decimal(text: &str) -> (parsed: Result<u64, std::num::ParseIntError>)
    ensures
        match parsed {
            Ok(value) => parse_decimal_u64(text@) == Some(value),
            Err(_) => parse_decimal_u64(text@) is None,
        },
{
    text.parse::<u64>()
}

/// The standard library's integer parse error, carried through unchanged.
#[verifier::external_type_specification]
#[verifier::external_body]
pub struct ExParseIntError(std::num::ParseIntError);

/// Unicode `White_Space`, the property that `char::is_whitespace` reports.
pub open spec fn is_unicode_whitespace(c: char) -> bool {
    let u: u32 = c as u32;
    (0x9 <= u && u <= 0xD) || u == 0x20 || u == 0x85 || u == 0xA0 || u == 0x1680
        || (0x2000 <= u && u <= 0x200A) || u == 0x2028 || u == 0x2029 || u == 0x202F
        || u == 0x205F || u == 0x3000
}

/// Whether text is empty once surrounding whitespace is trimmed, that is,
/// whether every character in it is whitespace.
pub open spec fn is_blank(s: Seq<char>) -> bool {
    forall|i: int| 0 <= i < s.len() ==> is_unicode_whitespace(#[trigger] s[i])
}

/// Whether `c` has the Unicode `White_Space` property, as
/// `char::is_whitespace` reports it.
pub(crate) fn char_is_whitespace(c: char) -> (white: bool)
    ensures
        white == is_unicode_whitespace(c),
{
    let u: u32 = c as u32;
    (0x9 <= u && u <= 0xD) || u == 0x20 || u == 0x85 || u == 0xA0 || u == 0x1680 || (0x2000 <= u
        && u <= 0x200A) || u == 0x2028 || u == 0x2029 || u == 0x202F || u == 0x205F || u == 0x3000
}

/// Whether `text.trim()` would be empty.
pub fn text_is_blank(text: &str) -> (blank: bool)
    ensures
        blank == is_blank(text@),
{
    broadcast use vstd::string::group_string_axioms;

    let mut chars = text.chars();
    let ghost mut seen: int = 0;
    loop
        invariant
            0 <= seen <= text@.len(),
            chars.remaining() == text@.subrange(seen, text@.len() as int),
            chars.obeys_prophetic_iter_laws(),
            forall|i: int| 0 <= i < seen ==> is_unicode_whitespace(#[trigger] text@[i]),
        decreases text@.len() - seen,
    {
        match chars.next() {
            Some(c) => {
                assert(c == text@[seen]);
                if !char_is_whitespace(c) {
                    return false;
                }
                proof {
                    seen = seen + 1;
                }
            },
            None => {
                assert(seen == text@.len());
                return true;
            },
        }
    }
}

} // verus!
