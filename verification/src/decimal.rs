//! Whole numbers as decimal text, the form in which a group's number travels
//! through a picker.
use vstd::prelude::*;
use vstd::string::{is_ascii_spec_bytes, StringExecFns};
use vstd::utf8::is_ascii_chars;

verus! {

/// The character for the digit `d`, for `d` below ten.
pub open spec fn digit_char(d: nat) -> char {
    (d + 48) as char
}

/// Whether `c` is one of the characters `0` to `9`.
pub open spec fn is_digit(c: char) -> bool {
    48 <= c as int <= 57
}

/// The digit that the character `c` stands for, where it is one.
pub open spec fn digit_value(c: char) -> nat {
    (c as int - 48) as nat
}

/// The decimal digits of `n`, without leading zeros; `0` for zero.
pub open spec fn digits(n: nat) -> Seq<char>
    decreases n,
{
    if n < 10 {
        seq![digit_char(n)]
    } else {
        digits(n / 10).push(digit_char(n % 10))
    }
}

/// The decimal text of `n`: its digits, after a minus sign where `n` is
/// negative.
pub open spec fn decimal(n: int) -> Seq<char> {
    if n < 0 {
        seq!['-'] + digits((-n) as nat)
    } else {
        digits(n as nat)
    }
}

/// Whether `s` holds digits only.
pub open spec fn all_digits(s: Seq<char>) -> bool {
    forall|i: int| 0 <= i < s.len() ==> is_digit(#[trigger] s[i])
}

/// The number that a run of digits stands for; leading zeros count for
/// nothing.
pub open spec fn number(s: Seq<char>) -> nat
    decreases s.len(),
{
    if s.len() == 0 {
        0
    } else {
        10 * number(s.drop_last()) + digit_value(s.last())
    }
}

/// Whether `s` starts with a sign, `+` or `-`.
pub open spec fn is_signed(s: Seq<char>) -> bool {
    s.len() > 0 && (s[0] == '-' || s[0] == '+')
}

/// What follows the sign of `s`, or all of `s` where it has none.
pub open spec fn unsigned_part(s: Seq<char>) -> Seq<char> {
    if is_signed(s) {
        s.skip(1)
    } else {
        s
    }
}

/// The number that `s` stands for as a 64-bit signed integer: an optional
/// sign, `+` or `-`, then at least one digit and nothing else, and a value
/// within the range of the type. `None` for every other text.
pub open spec fn parsed(s: Seq<char>) -> Option<i64> {
    let body = unsigned_part(s);
    let value = if s.len() > 0 && s[0] == '-' {
        -(number(body) as int)
    } else {
        number(body) as int
    };
    if body.len() > 0 && all_digits(body) && i64::MIN <= value <= i64::MAX {
        Some(value as i64)
    } else {
        None
    }
}

/// The digits of a number are digits, at least one, and stand for the number.
pub proof fn lemma_digits_round_trip(n: nat)
    ensures
        digits(n).len() >= 1,
        all_digits(digits(n)),
        number(digits(n)) == n,
    decreases n,
{
    if n < 10 {
        let s = digits(n);
        assert(number(s.drop_last()) == 0);
    } else {
        lemma_digits_round_trip(n / 10);
        let s = digits(n);
        assert(s.drop_last() =~= digits(n / 10));
    }
}

/// The decimal text of a 64-bit signed integer stands for that integer.
pub proof fn lemma_decimal_round_trip(n: i64)
    ensures
        parsed(decimal(n as int)) == Some(n),
{
    let s = decimal(n as int);
    if n < 0 {
        let m = (-(n as int)) as nat;
        lemma_digits_round_trip(m);
        assert(s.skip(1) =~= digits(m));
    } else {
        let m = n as nat;
        lemma_digits_round_trip(m);
    }
}

/// A longer run of characters stands for a number that is no smaller than
/// the number that its start stands for.
pub proof fn lemma_number_grows(s: Seq<char>, k: int)
    requires
        0 <= k <= s.len(),
    ensures
        number(s.take(k)) <= number(s),
    decreases s.len() - k,
{
    if k == s.len() {
        assert(s.take(k) =~= s);
    } else {
        lemma_number_grows(s, k + 1);
        assert(s.take(k + 1).drop_last() =~= s.take(k));
    }
}

/// A text with a character beyond the ASCII range stands for no number.
pub proof fn lemma_beyond_ascii_is_no_number(s: Seq<char>)
    requires
        !is_ascii_chars(s),
    ensures
        parsed(s) is None,
{
    let i = choose|i: int| 0 <= i < s.len() && !('\0' <= #[trigger] s[i] <= '\u{7f}');
    let body = unsigned_part(s);
    if is_signed(s) {
        assert(body[i - 1] == s[i]);
    }
}

/// The text of one digit.
fn digit_text(d: u64) -> (text: &'static str)
    requires
        d < 10,
    ensures
        text@ == seq![digit_char(d as nat)],
{
    proof {
        reveal_strlit("0");
        reveal_strlit("1");
        reveal_strlit("2");
        reveal_strlit("3");
        reveal_strlit("4");
        reveal_strlit("5");
        reveal_strlit("6");
        reveal_strlit("7");
        reveal_strlit("8");
        reveal_strlit("9");
    }
    let text = if d == 0 {
        "0"
    } else if d == 1 {
        "1"
    } else if d == 2 {
        "2"
    } else if d == 3 {
        "3"
    } else if d == 4 {
        "4"
    } else if d == 5 {
        "5"
    } else if d == 6 {
        "6"
    } else if d == 7 {
        "7"
    } else if d == 8 {
        "8"
    } else {
        "9"
    };
    text
}

/// Appends the decimal digits of `n` to `out`.
fn push_digits(n: u64, out: &mut String)
    ensures
        final(out)@ == old(out)@ + digits(n as nat),
    decreases n,
{
    if n >= 10 {
        push_digits(n / 10, out);
    }
    out.append(digit_text(n % 10));
}

/// The decimal text of a 64-bit signed integer: `0` for zero, a minus sign
/// before the digits of a negative number, no leading zeros.
pub fn format_i64(n: i64) -> (text: String)
    ensures
        text@ == decimal(n as int),
{
    if n < 0 {
        let mut out = "-".to_owned();
        proof {
            reveal_strlit("-");
        }
        let magnitude: u64 = (-(n as i128)) as u64;
        push_digits(magnitude, &mut out);
        out
    } else {
        let mut out = String::new();
        push_digits(n as u64, &mut out);
        out
    }
}

/// The decimal text of a count: `0` for zero, no leading zeros.
pub fn format_usize(n: usize) -> (text: String)
    ensures
        text@ == decimal(n as int),
{
    let mut out = String::new();
    push_digits(n as u64, &mut out);
    out
}

/// The 64-bit signed integer that a text stands for; see [`parsed`]. A text
/// that holds anything but an optional sign and digits, no digit at all, or a
/// value beyond the range of the type, stands for none.
pub fn parse_i64(text: &str) -> (value: Option<i64>)
    ensures
        value == parsed(text@),
{
    if !text.is_ascii() {
        proof {
            lemma_beyond_ascii_is_no_number(text@);
        }
        return None;
    }
    let bytes = text.as_bytes();
    proof {
        is_ascii_spec_bytes(text);
    }
    let len = bytes.len();
    if len == 0 {
        return None;
    }
    let negative = bytes[0] == 45;
    let start: usize = if bytes[0] == 45 || bytes[0] == 43 {
        1
    } else {
        0
    };
    let ghost body = unsigned_part(text@);
    if start == len {
        return None;
    }
    let mut magnitude: u128 = 0;
    let mut i: usize = start;
    while i < len
        invariant
            start <= i <= len,
            start <= 1,
            len == text@.len(),
            bytes@ == Seq::new(text@.len(), |k: int| text@.index(k) as u8),
            is_ascii_chars(text@),
            body == unsigned_part(text@),
            body.len() == len - start,
            forall|k: int| 0 <= k < body.len() ==> body[k] == text@[k + start],
            magnitude == number(body.take(i - start)),
            all_digits(body.take(i - start)),
            magnitude <= 0x8000_0000_0000_0000,
        decreases len - i,
    {
        let byte = bytes[i];
        let ghost at = i - start;
        proof {
            assert(body[at] == text@[i as int]);
            assert(body.take(at + 1).drop_last() =~= body.take(at));
        }
        if byte < 48 || byte > 57 {
            return None;
        }
        magnitude = magnitude * 10 + (byte - 48) as u128;
        if magnitude > 0x8000_0000_0000_0000 {
            proof {
                lemma_number_grows(body, at + 1);
            }
            return None;
        }
        i += 1;
    }
    assert(body.take(len - start) =~= body);
    if negative {
        if magnitude == 0x8000_0000_0000_0000 {
            Some(i64::MIN)
        } else {
            Some(-(magnitude as i64))
        }
    } else if magnitude > 0x7fff_ffff_ffff_ffff {
        None
    } else {
        Some(magnitude as i64)
    }
}

} // verus!
