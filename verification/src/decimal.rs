//! Signed decimal integers as text: reading one from a string and writing
//! one out, with the proof that the two agree.

use vstd::prelude::*;
use vstd::string::*;

verus! {

/// Whether `c` is one of the ten decimal digits.
pub open spec fn is_digit(c: char) -> bool {
    '0' <= c <= '9'
}

/// The number that the digit `c` stands for.
pub open spec fn digit_value(c: char) -> int {
    c as int - '0' as int
}

/// The digit that stands for `d`, for `d` below ten.
pub open spec fn digit_char(d: int) -> char {
    if d == 0 {
        '0'
    } else if d == 1 {
        '1'
    } else if d == 2 {
        '2'
    } else if d == 3 {
        '3'
    } else if d == 4 {
        '4'
    } else if d == 5 {
        '5'
    } else if d == 6 {
        '6'
    } else if d == 7 {
        '7'
    } else if d == 8 {
        '8'
    } else {
        '9'
    }
}

/// Whether every character of `s` is a decimal digit.
pub open spec fn all_digits(s: Seq<char>) -> bool {
    forall|i: int| 0 <= i < s.len() ==> is_digit(#[trigger] s[i])
}

/// The number that a run of digits denotes, the last digit counting least.
pub open spec fn digits_value(s: Seq<char>) -> int
    decreases s.len(),
{
    if s.len() == 0 {
        0
    } else {
        digits_value(s.drop_last()) * 10 + digit_value(s.last())
    }
}

/// Whether `s` starts with a plus or minus sign.
pub open spec fn has_sign(s: Seq<char>) -> bool {
    s.len() > 0 && (s[0] == '-' || s[0] == '+')
}

/// What is left of `s` once a leading sign is taken off.
pub open spec fn unsigned_part(s: Seq<char>) -> Seq<char> {
    if has_sign(s) {
        s.subrange(1, s.len() as int)
    } else {
        s
    }
}

/// The number that `s` denotes before any question of size: the value of its
/// digits, negated under a minus sign.
pub open spec fn signed_value(s: Seq<char>) -> int {
    if s.len() > 0 && s[0] == '-' {
        -digits_value(unsigned_part(s))
    } else {
        digits_value(unsigned_part(s))
    }
}

/// The 64-bit signed integer written as `s`, if `s` is one: an optional sign,
/// then one or more digits and nothing else, the value within the range of
/// `i64`.
pub open spec fn integer_reading(s: Seq<char>) -> Option<int> {
    if unsigned_part(s).len() > 0 && all_digits(unsigned_part(s)) && i64::MIN <= signed_value(s)
        <= i64::MAX {
        Some(signed_value(s))
    } else {
        None
    }
}

/// The digits of `n`, without leading zeros.
pub open spec fn natural_text(n: nat) -> Seq<char>
    decreases n,
{
    if n < 10 {
        seq![digit_char(n as int)]
    } else {
        natural_text(n / 10).push(digit_char((n % 10) as int))
    }
}

/// The usual way of writing `n`: a minus sign where it is negative, then the
/// digits of its magnitude.
pub open spec fn integer_text(n: int) -> Seq<char> {
    if n < 0 {
        seq!['-'] + natural_text((-n) as nat)
    } else {
        natural_text(n as nat)
    }
}

/// A run of digits denotes a number that is not negative.
pub proof fn lemma_digits_value_nonnegative(s: Seq<char>)
    requires
        all_digits(s),
    ensures
        digits_value(s) >= 0,
    decreases s.len(),
{
    if s.len() > 0 {
        lemma_digits_value_nonnegative(s.drop_last());
    }
}

/// A run of digits denotes at least as much as any of its beginnings.
pub proof fn lemma_digits_value_grows(s: Seq<char>, k: int)
    requires
        all_digits(s),
        0 <= k <= s.len(),
    ensures
        digits_value(s.take(k)) <= digits_value(s),
    decreases s.len(),
{
    if k == s.len() {
        assert(s.take(k) =~= s);
    } else {
        let shorter = s.drop_last();
        assert(shorter.take(k) =~= s.take(k));
        lemma_digits_value_grows(shorter, k);
        lemma_digits_value_nonnegative(shorter);
    }
}

/// The digits of a natural number are digits, start the text of no signed
/// number, and denote the number itself.
pub proof fn lemma_natural_text_value(n: nat)
    ensures
        natural_text(n).len() > 0,
        all_digits(natural_text(n)),
        is_digit(natural_text(n)[0]),
        digits_value(natural_text(n)) == n,
    decreases n,
{
    let text = natural_text(n);
    if n < 10 {
        assert(text.drop_last() =~= Seq::<char>::empty());
        assert(digits_value(text) == digits_value(text.drop_last()) * 10 + digit_value(
            text.last(),
        ));
    } else {
        let front = natural_text(n / 10);
        lemma_natural_text_value(n / 10);
        assert(text.drop_last() =~= front);
        assert(text[0] == front[0]);
        assert(digits_value(text) == digits_value(text.drop_last()) * 10 + digit_value(
            text.last(),
        ));
    }
}

/// Reading what was written gives the number back: for every `n` that fits
/// `i64`, the text of `n` is read as `n`.
pub proof fn lemma_read_what_was_written(n: int)
    requires
        i64::MIN <= n <= i64::MAX,
    ensures
        integer_reading(integer_text(n)) == Some(n),
{
    let text = integer_text(n);
    if n < 0 {
        let digits = natural_text((-n) as nat);
        lemma_natural_text_value((-n) as nat);
        assert(text[0] == '-');
        assert(unsigned_part(text) =~= digits);
    } else {
        lemma_natural_text_value(n as nat);
        assert(!has_sign(text));
    }
}

/// Text with a character outside ASCII in it is no integer.
proof fn lemma_integer_is_ascii(s: Seq<char>)
    requires
        integer_reading(s) is Some,
    ensures
        vstd::utf8::is_ascii_chars(s),
{
    let body = unsigned_part(s);
    assert forall|i: int| 0 <= i < s.len() implies '\0' <= #[trigger] s[i] <= '\u{7f}' by {
        if has_sign(s) {
            if i > 0 {
                assert(is_digit(body[i - 1]));
            }
        } else {
            assert(is_digit(body[i]));
        }
    }
}

/// Reads a signed decimal integer: an optional `+` or `-`, then digits only.
/// Text with anything else in it, text without a digit, and a number outside
/// the range of `i64` give `None`.
pub fn read_integer(text: &str) -> (r: Option<i64>)
    ensures
        match r {
            Some(n) => integer_reading(text@) == Some(n as int),
            None => integer_reading(text@) is None,
        },
{
    if !text.is_ascii() {
        proof {
            if integer_reading(text@) is Some {
                lemma_integer_is_ascii(text@);
            }
        }
        return None;
    }
    let bytes = text.as_bytes();
    proof {
        is_ascii_spec_bytes(text);
    }
    let len: usize = bytes.len();
    if len == 0 {
        return None;
    }
    let negative: bool = bytes[0] == 45u8;
    let start: usize = if bytes[0] == 45u8 || bytes[0] == 43u8 {
        1
    } else {
        0
    };
    assert(has_sign(text@) <==> start == 1);
    if start == len {
        return None;
    }
    let ghost body = unsigned_part(text@);
    let mut value: i64 = 0;
    let mut i: usize = start;
    while i < len
        invariant
            start <= i <= len,
            len == text@.len(),
            is_ascii(text),
            bytes@ == text.spec_bytes(),
            body == unsigned_part(text@),
            body.len() == len - start,
            start <= 1,
            has_sign(text@) <==> start == 1,
            negative <==> text@[0] == '-',
            all_digits(body.take(i - start)),
            value == if negative {
                -digits_value(body.take(i - start))
            } else {
                digits_value(body.take(i - start))
            },
        decreases len - i,
    {
        let byte: u8 = bytes[i];
        let ghost seen = body.take(i - start);
        let ghost longer = body.take(i - start + 1);
        assert(body[i - start] == text@[i as int]);
        assert(longer.drop_last() =~= seen);
        assert(longer.last() == body[i - start]);
        if byte < 48u8 || byte > 57u8 {
            assert(!is_digit(body[i - start]));
            return None;
        }
        assert(is_digit(body[i - start]));
        assert(all_digits(longer));
        let digit: i64 = (byte - 48u8) as i64;
        assert(digit == digit_value(body[i - start]));
        let scaled: Option<i64> = value.checked_mul(10);
        let next: Option<i64> = match scaled {
            Some(tenfold) => if negative {
                tenfold.checked_sub(digit)
            } else {
                tenfold.checked_add(digit)
            },
            None => None,
        };
        match next {
            Some(v) => {
                value = v;
            },
            None => {
                proof {
                    lemma_digits_value_nonnegative(seen);
                    if all_digits(body) {
                        lemma_digits_value_grows(body, i - start + 1);
                    }
                }
                return None;
            },
        }
        i = i + 1;
    }
    assert(body.take(i - start) =~= body);
    Some(value)
}

/// The characters for a run of digit values that was collected from the least
/// significant end: the last value comes first.
pub open spec fn reversed_digits(values: Seq<u8>) -> Seq<char> {
    Seq::new(values.len(), |i: int| digit_char(values[values.len() - 1 - i] as int))
}

/// The one-character string for a digit value.
fn digit_text(d: u8) -> (r: &'static str)
    requires
        d < 10,
    ensures
        r@ == seq![digit_char(d as int)],
{
    proof {
        reveal_strlit("0");
        reveal_strlit("1");
        reveal_strlit("2");
        reveal_strlit("3");
        reveal_strlit("4");
        reveal_strlit("5");
        reveal_strlit("6");
        reveal_strlit("7");
        reveal_strlit("8");
        reveal_strlit("9");
    }
    let r: &'static str = if d == 0 {
        "0"
    } else if d == 1 {
        "1"
    } else if d == 2 {
        "2"
    } else if d == 3 {
        "3"
    } else if d == 4 {
        "4"
    } else if d == 5 {
        "5"
    } else if d == 6 {
        "6"
    } else if d == 7 {
        "7"
    } else if d == 8 {
        "8"
    } else {
        "9"
    };
    assert(r@ =~= seq![digit_char(d as int)]);
    r
}

/// Writes `n` in decimal: a minus sign where it is negative, then its digits
/// without leading zeros.
pub fn write_integer(n: i64) -> (r: String)
    ensures
        r@ == integer_text(n as int),
{
    let magnitude: u64 = if n < 0 {
        (-(n + 1)) as u64 + 1
    } else {
        n as u64
    };
    let mut rest: u64 = magnitude;
    let mut low: Vec<u8> = Vec::new();
    while rest >= 10
        invariant
            natural_text(magnitude as nat) == natural_text(rest as nat) + reversed_digits(low@),
            forall|j: int| 0 <= j < low@.len() ==> low@[j] < 10,
        decreases rest,
    {
        let ghost before = low@;
        let ghost whole = rest;
        low.push((rest % 10) as u8);
        rest = rest / 10;
        assert(natural_text(whole as nat) == natural_text(rest as nat).push(
            digit_char((whole % 10) as int),
        ));
        assert(natural_text(whole as nat) + reversed_digits(before) =~= natural_text(rest as nat)
            + reversed_digits(low@));
    }
    let mut out: String = String::new();
    if n < 0 {
        proof {
            reveal_strlit("-");
        }
        out.append("-");
    }
    let ghost sign = out@;
    assert(sign =~= if n < 0 {
        seq!['-']
    } else {
        Seq::<char>::empty()
    });
    out.append(digit_text(rest as u8));
    let mut k: usize = low.len();
    while k > 0
        invariant
            k <= low@.len(),
            forall|j: int| 0 <= j < low@.len() ==> low@[j] < 10,
            out@ == sign + natural_text(rest as nat) + reversed_digits(low@).take(low@.len() - k),
        decreases k,
    {
        k = k - 1;
        let ghost before = out@;
        out.append(digit_text(low[k]));
        assert(out@ =~= sign + natural_text(rest as nat) + reversed_digits(low@).take(
            low@.len() - k,
        ));
    }
    assert(reversed_digits(low@).take(low@.len() as int) =~= reversed_digits(low@));
    assert(out@ =~= integer_text(n as int));
    out
}

} // verus!
