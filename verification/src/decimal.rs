//! Decimal integers as text: reading a block height and writing it back.

use vstd::prelude::*;
use vstd::std_specs::iter::IteratorSpec;

verus! {

/// The largest magnitude that an `i128` can have: that of `i128::MIN`.
pub const MAGNITUDE_LIMIT: u128 = 0x8000_0000_0000_0000_0000_0000_0000_0000;

/// Whether `c` is one of the ASCII digits `0` to `9`.
pub open spec fn is_digit(c: char) -> bool {
    '0' as u32 <= c as u32 <= '9' as u32
}

/// The number that the digit `c` stands for.
pub open spec fn digit_value(c: char) -> nat {
    (c as u32 - '0' as u32) as nat
}

/// Whether `s` is made of ASCII digits only.
pub open spec fn all_digits(s: Seq<char>) -> bool {
    forall|i: int| 0 <= i < s.len() ==> is_digit(#[trigger] s[i])
}

/// The number whose decimal notation is the digit string `s`, most
/// significant digit first. The empty string stands for zero.
pub open spec fn digits_value(s: Seq<char>) -> nat
    decreases s.len(),
{
    if s.len() == 0 {
        0
    } else {
        digits_value(s.drop_last()) * 10 + digit_value(s.last())
    }
}

/// Whether `s` starts with a sign.
pub open spec fn has_sign(s: Seq<char>) -> bool {
    s.len() > 0 && (s[0] == '-' || s[0] == '+')
}

/// `s` without its leading sign, if it has one.
pub open spec fn unsigned_part(s: Seq<char>) -> Seq<char> {
    if has_sign(s) {
        s.skip(1)
    } else {
        s
    }
}

/// The integer that `s` denotes: an optional `+` or `-`, then one or more
/// ASCII digits and nothing else. `None` for any other text, and for a number
/// outside the range of `i128`.
pub open spec fn decimal_value(s: Seq<char>) -> Option<i128> {
    let body = unsigned_part(s);
    let magnitude = digits_value(body) as int;
    let value = if has_sign(s) && s[0] == '-' {
        -magnitude
    } else {
        magnitude
    };
    if body.len() > 0 && all_digits(body) && i128::MIN <= value <= i128::MAX {
        Some(value as i128)
    } else {
        None
    }
}

/// Appending a digit to a digit string multiplies its value by ten and adds
/// the digit.
pub proof fn lemma_digits_value_push(s: Seq<char>, c: char)
    ensures
        digits_value(s.push(c)) == digits_value(s) * 10 + digit_value(c),
{
    assert(s.push(c).drop_last() =~= s);
}

/// A digit string is worth at least as much as each of its prefixes.
pub proof fn lemma_digits_value_prefix(s: Seq<char>, k: int)
    requires
        0 <= k <= s.len(),
    ensures
        digits_value(s.take(k)) <= digits_value(s),
    decreases s.len(),
{
    if k < s.len() {
        assert(s.drop_last().take(k) =~= s.take(k));
        lemma_digits_value_prefix(s.drop_last(), k);
    } else {
        assert(s.take(k) =~= s);
    }
}

/// Reads a decimal integer as `str::parse::<i128>` does: an optional sign,
/// then digits only. No surrounding white space is accepted.
pub fn parse_decimal(text: &str) -> (parsed: Option<i128>)
    ensures
        parsed == decimal_value(text@),
{
    broadcast use vstd::string::group_string_axioms;

    let mut chars = text.chars();
    let mut negative = false;
    let mut at_start = true;
    let mut any_digit = false;
    let mut magnitude: u128 = 0;
    let ghost mut seen: Seq<char> = Seq::empty();
    let ghost mut body: Seq<char> = Seq::empty();
    loop
        invariant
            chars.obeys_prophetic_iter_laws(),
            chars.decrease() is Some,
            seen + chars.remaining() == text@,
            at_start <==> seen.len() == 0,
            at_start ==> !negative,
            body == unsigned_part(seen),
            negative <==> has_sign(seen) && seen[0] == '-',
            any_digit <==> body.len() > 0,
            all_digits(body),
            magnitude == digits_value(body),
            magnitude <= MAGNITUDE_LIMIT,
        ensures
            seen == text@,
            body == unsigned_part(seen),
            negative <==> has_sign(seen) && seen[0] == '-',
            any_digit <==> body.len() > 0,
            all_digits(body),
            magnitude == digits_value(body),
            magnitude <= MAGNITUDE_LIMIT,
        decreases chars.decrease()->0,
    {
        let ghost before = chars.remaining();
        match chars.next() {
            None => {
                assert(seen + before =~= seen);
                break;
            },
            Some(c) => {
                let ghost grown = seen.push(c);
                assert(grown + chars.remaining() =~= seen + before);
                assert(text@.take(grown.len() as int) =~= grown);
                if at_start && (c == '-' || c == '+') {
                    negative = c == '-';
                    proof {
                        assert(unsigned_part(grown) =~= Seq::<char>::empty());
                        seen = grown;
                    }
                } else {
                    let code = c as u32;
                    proof {
                        assert(unsigned_part(grown) =~= body.push(c));
                    }
                    if code < 48 || code > 57 {
                        proof {
                            assert(!is_digit(unsigned_part(text@)[body.len() as int]));
                        }
                        return None;
                    }
                    let digit = (code - 48) as u128;
                    proof {
                        lemma_digits_value_push(body, c);
                    }
                    if magnitude > MAGNITUDE_LIMIT / 10 {
                        proof {
                            let rest = unsigned_part(text@);
                            lemma_digits_value_prefix(rest, body.len() as int + 1);
                            assert(rest.take(body.len() as int + 1) =~= body.push(c));
                        }
                        return None;
                    }
                    let grown_magnitude = magnitude * 10 + digit;
                    if grown_magnitude > MAGNITUDE_LIMIT {
                        proof {
                            let rest = unsigned_part(text@);
                            lemma_digits_value_prefix(rest, body.len() as int + 1);
                            assert(rest.take(body.len() as int + 1) =~= body.push(c));
                        }
                        return None;
                    }
                    magnitude = grown_magnitude;
                    any_digit = true;
                    proof {
                        body = body.push(c);
                        seen = grown;
                    }
                }
                at_start = false;
            },
        }
    }
    if !any_digit {
        None
    } else if negative {
        if magnitude == MAGNITUDE_LIMIT {
            Some(i128::MIN)
        } else {
            Some(-(magnitude as i128))
        }
    } else if magnitude == MAGNITUDE_LIMIT {
        None
    } else {
        Some(magnitude as i128)
    }
}

/// The ASCII digit that stands for `d`, for `d` below ten.
pub open spec fn digit_char(d: nat) -> char {
    (d + 48) as u8 as char
}

/// The decimal notation of `n`, without leading zeros.
pub open spec fn digits_text(n: nat) -> Seq<char>
    decreases n,
{
    if n < 10 {
        seq![digit_char(n)]
    } else {
        digits_text(n / 10).push(digit_char(n % 10))
    }
}

/// The decimal notation of `n`: a `-` in front of a negative number, no sign
/// otherwise.
pub open spec fn decimal_text(n: int) -> Seq<char> {
    if n < 0 {
        seq!['-'] + digits_text((-n) as nat)
    } else {
        digits_text(n as nat)
    }
}

/// The one-character string that holds the digit `d`.
fn digit_str(d: u8) -> (text: &'static str)
    requires
        d < 10,
    ensures
        text@ == seq![digit_char(d as nat)],
{
    let digits = "0123456789";
    proof {
        reveal_strlit("0123456789");
    }
    let text = digits.substring_char(d as usize, d as usize + 1);
    assert(text@ =~= seq![digit_char(d as nat)]);
    text
}

/// Appends the decimal notation of `n` to `out`.
fn push_digits(out: &mut String, n: u128)
    ensures
        final(out)@ == old(out)@ + digits_text(n as nat),
    decreases n,
{
    if n >= 10 {
        push_digits(out, n / 10);
    }
    out.append(digit_str((n % 10) as u8));
    assert(out@ =~= old(out)@ + digits_text(n as nat));
}

/// Writes `n` in decimal, as `i128::to_string` does.
pub fn decimal_string(n: i128) -> (text: String)
    ensures
        text@ == decimal_text(n as int),
{
    let mut text = String::new();
    if n < 0 {
        proof {
            reveal_strlit("-");
        }
        text.append("-");
        let magnitude: u128 = if n == i128::MIN {
            MAGNITUDE_LIMIT
        } else {
            (-n) as u128
        };
        push_digits(&mut text, magnitude);
        assert(text@ =~= decimal_text(n as int));
    } else {
        push_digits(&mut text, n as u128);
        assert(text@ =~= decimal_text(n as int));
    }
    text
}

/// The notation of a natural number is made of digits, starts with none of
/// the signs, and is worth that number.
pub proof fn lemma_digits_text_value(n: nat)
    ensures
        digits_text(n).len() > 0,
        all_digits(digits_text(n)),
        !has_sign(digits_text(n)),
        digits_value(digits_text(n)) == n,
    decreases n,
{
    if n < 10 {
        lemma_digits_value_push(Seq::empty(), digit_char(n));
        assert(Seq::<char>::empty().push(digit_char(n)) =~= digits_text(n));
        assert(digit_value(digit_char(n)) == n);
    } else {
        lemma_digits_text_value(n / 10);
        lemma_digits_value_push(digits_text(n / 10), digit_char(n % 10));
        assert(digit_value(digit_char(n % 10)) == n % 10);
    }
}

/// Reading back what was written gives the number that was written.
pub proof fn lemma_decimal_round_trip(n: i128)
    ensures
        decimal_value(decimal_text(n as int)) == Some(n),
{
    if n < 0 {
        let digits = digits_text((-n) as nat);
        lemma_digits_text_value((-n) as nat);
        assert(unsigned_part(decimal_text(n as int)) =~= digits);
    } else {
        lemma_digits_text_value(n as nat);
    }
}

} // verus!
