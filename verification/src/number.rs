//! Decimal numbers as text: reading a `u8` and writing an unsigned integer.

use vstd::prelude::*;
use vstd::string::StrSliceExecFns;
use vstd::string::StringExecFns;

verus! {

/// `c` is one of `0` to `9`.
pub open spec fn is_digit(c: char) -> bool {
    '0' <= c && c <= '9'
}

/// The number that the digit `c` stands for.
pub open spec fn digit_value(c: char) -> nat {
    (c as u32 - '0' as u32) as nat
}

/// Every character of `s` is a digit.
pub open spec fn all_digits(s: Seq<char>) -> bool {
    forall|i: int| 0 <= i < s.len() ==> is_digit(#[trigger] s[i])
}

/// The number that a run of digits stands for; leading zeros do not count.
pub open spec fn digits_value(s: Seq<char>) -> nat
    decreases s.len(),
{
    if s.len() == 0 {
        0
    } else {
        digits_value(s.drop_last()) * 10 + digit_value(s.last())
    }
}

/// `s` without one leading plus sign.
pub open spec fn without_sign(s: Seq<char>) -> Seq<char> {
    if s.len() > 0 && s[0] == '+' {
        s.drop_first()
    } else {
        s
    }
}

/// What `s` reads as: an optional plus sign, then at least one digit and nothing
/// else, the whole not above 255. Whitespace and a minus sign make it unreadable.
pub open spec fn parse_u8_spec(s: Seq<char>) -> Option<u8> {
    let digits = without_sign(s);
    if digits.len() > 0 && all_digits(digits) && digits_value(digits) <= u8::MAX {
        Some(digits_value(digits) as u8)
    } else {
        None
    }
}

/// The digit for `d`, which is below ten.
pub open spec fn digit_char(d: nat) -> char {
    ('0' as u32 + d) as char
}

/// `n` written in decimal, without leading zeros.
pub open spec fn decimal(n: nat) -> Seq<char>
    decreases n,
{
    if n < 10 {
        seq![digit_char(n)]
    } else {
        decimal(n / 10).push(digit_char(n % 10))
    }
}

/// A longer run of digits stands for no smaller a number than its beginning.
proof fn lemma_digits_value_grows(s: Seq<char>, k: int)
    requires
        0 <= k <= s.len(),
    ensures
        digits_value(s.take(k)) <= digits_value(s),
    decreases s.len() - k,
{
    if k == s.len() {
        assert(s.take(k) =~= s);
    } else {
        lemma_digits_value_grows(s.drop_last(), k);
        assert(s.drop_last().take(k) =~= s.take(k));
    }
}

/// The decimal writing of a number is made of digits and stands for that number.
pub proof fn lemma_decimal_is_digits(n: nat)
    ensures
        decimal(n).len() > 0,
        all_digits(decimal(n)),
        digits_value(decimal(n)) == n,
    decreases n,
{
    if n < 10 {
        assert(digits_value(decimal(n).drop_last()) == 0);
    } else {
        lemma_decimal_is_digits(n / 10);
        let shorter = decimal(n / 10);
        let whole = shorter.push(digit_char(n % 10));
        assert(whole.drop_last() =~= shorter);
        assert(forall|i: int| 0 <= i < whole.len() ==> is_digit(#[trigger] whole[i]));
    }
}

/// What is written by [`decimal`] reads back as the same number.
pub proof fn lemma_decimal_reads_back(n: nat)
    requires
        n <= u8::MAX,
    ensures
        parse_u8_spec(decimal(n)) == Some(n as u8),
{
    lemma_decimal_is_digits(n);
}

/// Reads a `u8` written in decimal.
pub fn parse_u8(s: &str) -> (r: Option<u8>)
    ensures
        r == parse_u8_spec(s@),
{
    let n = s.unicode_len();
    let ghost digits = without_sign(s@);
    let ghost sign: int = s@.len() - digits.len();
    let mut i: usize = 0;
    let mut count: usize = 0;
    let mut value: u32 = 0;
    let mut valid = true;
    for c in it: s.chars()
        invariant
            it.seq() == s@,
            n == s@.len(),
            i == it.index(),
            digits == without_sign(s@),
            sign == s@.len() - digits.len(),
            count == if i == 0 { 0 } else { i - sign },
            valid ==> all_digits(digits.take(count as int)) && value == digits_value(
                digits.take(count as int),
            ) && value <= u8::MAX,
            !valid ==> !all_digits(digits) || digits_value(digits) > u8::MAX,
    {
        if i == 0 && c == '+' {
        } else {
            assert(digits.take(count + 1).drop_last() =~= digits.take(count as int));
            if valid {
                if c >= '0' && c <= '9' {
                    value = value * 10 + (c as u32 - '0' as u32);
                    if value > 255 {
                        valid = false;
                        proof {
                            lemma_digits_value_grows(digits, count + 1);
                        }
                    }
                } else {
                    valid = false;
                }
            }
            count = count + 1;
        }
        i = i + 1;
    }
    assert(digits.take(digits.len() as int) =~= digits);
    if valid && count > 0 {
        Some(value as u8)
    } else {
        None
    }
}

/// The digit for `d` as a one-character text.
fn digit_text(d: u128) -> (r: &'static str)
    requires
        d < 10,
    ensures
        r@ == seq![digit_char(d as nat)],
{
    proof {
        reveal_strlit("0");
        reveal_strlit("1");
        reveal_strlit("2");
        reveal_strlit("3");
        reveal_strlit("4");
        reveal_strlit("5");
        reveal_strlit("6");
        reveal_strlit("7");
        reveal_strlit("8");
        reveal_strlit("9");
    }
    if d == 0 {
        "0"
    } else if d == 1 {
        "1"
    } else if d == 2 {
        "2"
    } else if d == 3 {
        "3"
    } else if d == 4 {
        "4"
    } else if d == 5 {
        "5"
    } else if d == 6 {
        "6"
    } else if d == 7 {
        "7"
    } else if d == 8 {
        "8"
    } else {
        "9"
    }
}

/// Writes `n` in decimal.
pub fn to_decimal(n: u128) -> (r: String)
    ensures
        r@ == decimal(n as nat),
    decreases n,
{
    if n < 10 {
        String::from_str(digit_text(n))
    } else {
        let mut text = to_decimal(n / 10);
        text.append(digit_text(n % 10));
        text
    }
}

} // verus!
