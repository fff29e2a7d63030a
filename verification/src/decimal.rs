//! Integers written in base ten.
//!
//! An item is named in a URL by its number in decimal digits, and the
//! library writes such URLs itself. This module says what text stands for
//! what number, reads a number from text and writes one out.

use vstd::prelude::*;
use vstd::string::*;

verus! {

/// Whether a character is one of the ten ASCII digits.
pub open spec fn is_digit(c: char) -> bool {
    '0' <= c <= '9'
}

/// The number that a digit stands for.
pub open spec fn digit_value(c: char) -> int {
    c as int - '0' as int
}

/// The digit that stands for a number below ten.
pub open spec fn digit_char(d: int) -> char {
    if d == 0 {
        '0'
    } else if d == 1 {
        '1'
    } else if d == 2 {
        '2'
    } else if d == 3 {
        '3'
    } else if d == 4 {
        '4'
    } else if d == 5 {
        '5'
    } else if d == 6 {
        '6'
    } else if d == 7 {
        '7'
    } else if d == 8 {
        '8'
    } else {
        '9'
    }
}

/// Whether a text is made of digits only.
pub open spec fn all_digits(s: Seq<char>) -> bool {
    forall|i: int| 0 <= i < s.len() ==> is_digit(#[trigger] s[i])
}

/// The number that a run of digits stands for, the empty run for zero.
pub open spec fn digits_value(s: Seq<char>) -> int
    decreases s.len(),
{
    if s.len() == 0 {
        0
    } else {
        digits_value(s.drop_last()) * 10 + digit_value(s.last())
    }
}

/// The integer that a text stands for: an optional sign, `+` or `-`, and
/// then at least one digit. Any other text stands for none.
pub open spec fn decimal_value(s: Seq<char>) -> Option<int> {
    if s.len() == 0 {
        None
    } else if s[0] == '-' || s[0] == '+' {
        let digits = s.subrange(1, s.len() as int);
        if digits.len() == 0 || !all_digits(digits) {
            None
        } else if s[0] == '-' {
            Some(-digits_value(digits))
        } else {
            Some(digits_value(digits))
        }
    } else if all_digits(s) {
        Some(digits_value(s))
    } else {
        None
    }
}

/// The 64-bit integer that a text stands for, if it stands for one.
pub open spec fn i64_value(s: Seq<char>) -> Option<i64> {
    match decimal_value(s) {
        Some(v) => if i64::MIN <= v <= i64::MAX {
            Some(v as i64)
        } else {
            None
        },
        None => None,
    }
}

/// A natural number in decimal digits, without leading zeros.
pub open spec fn nat_text(n: nat) -> Seq<char>
    decreases n,
{
    if n < 10 {
        seq![digit_char(n as int)]
    } else {
        nat_text(n / 10).push(digit_char((n % 10) as int))
    }
}

/// An integer in decimal digits, with `-` in front if it is negative.
pub open spec fn int_text(n: int) -> Seq<char> {
    if n < 0 {
        seq!['-'] + nat_text((-n) as nat)
    } else {
        nat_text(n as nat)
    }
}

/// A longer run of digits does not stand for a smaller number.
pub proof fn lemma_digits_value_grows(s: Seq<char>, k: int)
    requires
        all_digits(s),
        0 <= k <= s.len(),
    ensures
        0 <= digits_value(s.take(k)) <= digits_value(s),
    decreases s.len() - k,
{
    lemma_digits_value_nonnegative(s.take(k));
    if k < s.len() {
        assert(s.take(k + 1).drop_last() == s.take(k));
        assert(is_digit(s.take(k + 1).last()));
        lemma_digits_value_grows(s, k + 1);
    } else {
        assert(s.take(k) == s);
    }
}

/// A run of digits stands for a number that is not negative.
pub proof fn lemma_digits_value_nonnegative(s: Seq<char>)
    requires
        all_digits(s),
    ensures
        0 <= digits_value(s),
    decreases s.len(),
{
    if s.len() > 0 {
        assert(is_digit(s.last()));
        lemma_digits_value_nonnegative(s.drop_last());
    }
}

/// What is written for a natural number is a run of digits that stands for it.
pub proof fn lemma_nat_text_value(n: nat)
    ensures
        nat_text(n).len() > 0,
        all_digits(nat_text(n)),
        digits_value(nat_text(n)) == n,
    decreases n,
{
    if n < 10 {
        let s = nat_text(n);
        assert(s.drop_last() == Seq::<char>::empty());
        assert(digits_value(s.drop_last()) == 0);
    } else {
        lemma_nat_text_value(n / 10);
        let s = nat_text(n);
        assert(s.drop_last() == nat_text(n / 10));
        assert(s.last() == digit_char((n % 10) as int));
    }
}

/// Reading what was written for an integer gives the integer back.
pub proof fn lemma_int_text_value(n: int)
    ensures
        decimal_value(int_text(n)) == Some(n),
{
    if n < 0 {
        let digits = nat_text((-n) as nat);
        lemma_nat_text_value((-n) as nat);
        let s = int_text(n);
        assert(s.subrange(1, s.len() as int) == digits);
    } else {
        lemma_nat_text_value(n as nat);
        let s = int_text(n);
        assert(is_digit(s[0]));
    }
}

/// Reading what was written for a 64-bit integer gives the integer back.
pub proof fn lemma_i64_text_value(n: i64)
    ensures
        i64_value(int_text(n as int)) == Some(n),
{
    lemma_int_text_value(n as int);
}

/// A text with a character outside ASCII stands for no integer.
proof fn lemma_not_ascii_no_value(s: Seq<char>)
    requires
        !vstd::utf8::is_ascii_chars(s),
    ensures
        decimal_value(s) is None,
{
    let i = choose|i: int| 0 <= i < s.len() && !('\0' <= #[trigger] s[i] <= '\u{7f}');
    assert(!is_digit(s[i]));
    if s[0] == '-' || s[0] == '+' {
        let digits = s.subrange(1, s.len() as int);
        assert(i > 0);
        assert(digits[i - 1] == s[i]);
    }
}

/// Reads a 64-bit integer from a text: an optional sign and then digits, as
/// `i64::from_str` of the standard library reads one. Gives nothing for any
/// other text, and nothing for a number that does not fit.
#[verifier::loop_isolation(false)]
pub fn parse_i64(s: &str) -> (value: Option<i64>)
    ensures
        value == i64_value(s@),
{
    if !s.is_ascii() {
        proof {
            lemma_not_ascii_no_value(s@);
        }
        return None;
    }
    let bytes = s.as_bytes();
    proof {
        is_ascii_spec_bytes(s);
    }
    let n = bytes.len();
    assert(n == s@.len());
    assert(forall|i: int| 0 <= i < n ==> bytes@[i] == (#[trigger] s@[i]) as u8);
    if n == 0 {
        return None;
    }
    let negative = bytes[0] == 45u8;
    let start: usize = if negative || bytes[0] == 43u8 {
        1
    } else {
        0
    };
    assert(negative <==> s@[0] == '-');
    assert(start == 1 <==> (s@[0] == '-' || s@[0] == '+'));
    let ghost digits = s@.subrange(start as int, n as int);
    assert(start == 0 ==> digits == s@);
    if start == n {
        return None;
    }
    let mut acc: u64 = 0;
    let mut i: usize = start;
    while i < n
        invariant
            start <= i <= n,
            n == s@.len(),
            digits == s@.subrange(start as int, n as int),
            forall|j: int| 0 <= j < n ==> bytes@[j] == (#[trigger] s@[j]) as u8,
            vstd::utf8::is_ascii_chars(s@),
            all_digits(digits.take(i - start)),
            acc == digits_value(digits.take(i - start)),
            acc <= 0x8000_0000_0000_0000,
        decreases n - i,
    {
        let b = bytes[i];
        let ghost c = s@[i as int];
        assert(c == digits[i - start]);
        assert('\0' <= c <= '\u{7f}');
        if b < 48u8 || b > 57u8 {
            assert(!is_digit(c));
            assert(!all_digits(digits));
            return None;
        }
        assert(is_digit(c));
        let d: u64 = (b - 48u8) as u64;
        assert(d == digit_value(c));
        assert(digits.take(i + 1 - start).drop_last() == digits.take(i - start));
        assert(digits.take(i + 1 - start).last() == c);
        if acc > 922_337_203_685_477_580u64 || acc * 10 + d > 0x8000_0000_0000_0000u64 {
            proof {
                let longer = digits.take(i + 1 - start);
                assert(digits_value(longer) == acc * 10 + d);
                assert(digits_value(longer) > 0x8000_0000_0000_0000);
                if all_digits(digits) {
                    lemma_digits_value_grows(digits, i + 1 - start);
                }
            }
            return None;
        }
        acc = acc * 10 + d;
        i += 1;
    }
    assert(digits.take(i - start) == digits);
    if negative {
        if acc == 0x8000_0000_0000_0000u64 {
            Some(i64::MIN)
        } else {
            Some(-(acc as i64))
        }
    } else if acc == 0x8000_0000_0000_0000u64 {
        None
    } else {
        Some(acc as i64)
    }
}

/// The text of one digit.
fn digit_str(d: u8) -> (text: &'static str)
    requires
        d < 10,
    ensures
        text@ == seq![digit_char(d as int)],
{
    proof {
        reveal_strlit("0");
        reveal_strlit("1");
        reveal_strlit("2");
        reveal_strlit("3");
        reveal_strlit("4");
        reveal_strlit("5");
        reveal_strlit("6");
        reveal_strlit("7");
        reveal_strlit("8");
        reveal_strlit("9");
    }
    let text = if d == 0 {
        "0"
    } else if d == 1 {
        "1"
    } else if d == 2 {
        "2"
    } else if d == 3 {
        "3"
    } else if d == 4 {
        "4"
    } else if d == 5 {
        "5"
    } else if d == 6 {
        "6"
    } else if d == 7 {
        "7"
    } else if d == 8 {
        "8"
    } else {
        "9"
    };
    assert(text@ =~= seq![digit_char(d as int)]);
    text
}

/// Appends a natural number in decimal digits.
pub fn push_u64(out: &mut String, n: u64)
    ensures
        final(out)@ == old(out)@ + nat_text(n as nat),
    decreases n,
{
    if n >= 10 {
        push_u64(out, n / 10);
    }
    out.append(digit_str((n % 10) as u8));
    assert(out@ =~= old(out)@ + nat_text(n as nat));
}

/// Appends an integer in decimal digits, with `-` in front if it is negative.
pub fn push_i64(out: &mut String, n: i64)
    ensures
        final(out)@ == old(out)@ + int_text(n as int),
{
    if n < 0 {
        proof {
            reveal_strlit("-");
        }
        out.append("-");
        let magnitude: u64 = ((-(n + 1)) as u64) + 1;
        push_u64(out, magnitude);
        assert(out@ =~= old(out)@ + int_text(n as int));
    } else {
        push_u64(out, n as u64);
    }
}

} // verus!
