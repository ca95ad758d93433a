//! Whole numbers in decimal notation: reading them and writing them.

use vstd::prelude::*;

use crate::lexical::is_digit;

verus! {

/// The value of a decimal digit.
pub open spec fn digit_value(c: char) -> int {
    c as int - '0' as int
}

/// The number that a sequence of decimal digits writes, most significant digit first.
pub open spec fn digits_value(digits: Seq<char>) -> int
    decreases digits.len(),
{
    if digits.len() == 0 {
        0
    } else {
        digits_value(digits.drop_last()) * 10 + digit_value(digits.last())
    }
}

/// Whether every character is a decimal digit.
pub open spec fn all_digits(digits: Seq<char>) -> bool {
    forall|i: int| 0 <= i < digits.len() ==> is_digit(#[trigger] digits[i])
}

/// The whole number that a text writes: an optional `+` or `-`, then at
/// least one decimal digit, and nothing else.
pub open spec fn whole_number(text: Seq<char>) -> Option<int> {
    let signed = text.len() > 0 && (text[0] == '-' || text[0] == '+');
    let digits = if signed {
        text.subrange(1, text.len() as int)
    } else {
        text
    };
    if digits.len() > 0 && all_digits(digits) {
        Some(
            if signed && text[0] == '-' {
                -digits_value(digits)
            } else {
                digits_value(digits)
            },
        )
    } else {
        None
    }
}

/// The 64-bit number that a text writes, if it writes a whole number and
/// the number fits.
pub open spec fn decimal_of(text: Seq<char>) -> Option<i64> {
    match whole_number(text) {
        Some(n) => if i64::MIN <= n <= i64::MAX {
            Some(n as i64)
        } else {
            None
        },
        None => None,
    }
}

/// More digits never write a smaller number.
pub proof fn lemma_digits_value_grows(digits: Seq<char>, k: int)
    requires
        all_digits(digits),
        0 <= k <= digits.len(),
    ensures
        0 <= digits_value(digits.take(k)) <= digits_value(digits),
    decreases digits.len() - k,
{
    if k == digits.len() {
        assert(digits.take(k) =~= digits);
        lemma_digits_value_nonnegative(digits);
    } else {
        lemma_digits_value_grows(digits, k + 1);
        let longer = digits.take(k + 1);
        assert(longer.drop_last() =~= digits.take(k));
        assert(is_digit(digits[k]));
        lemma_digits_value_nonnegative(digits.take(k));
        assert(all_digits(digits.take(k)));
    }
}

/// Digits write a number that is not negative.
pub proof fn lemma_digits_value_nonnegative(digits: Seq<char>)
    requires
        all_digits(digits),
    ensures
        0 <= digits_value(digits),
    decreases digits.len(),
{
    if digits.len() > 0 {
        assert(is_digit(digits.last()));
        lemma_digits_value_nonnegative(digits.drop_last());
    }
}

/// Reads the 64-bit number that the characters write.
pub fn parse_decimal(text: &[char]) -> (r: Option<i64>)
    ensures
        r == decimal_of(text@),
{
    let n = text.len();
    if n == 0 {
        return None;
    }
    let negative = text[0] == '-';
    let start: usize = if negative || text[0] == '+' {
        1
    } else {
        0
    };
    if start == n {
        return None;
    }
    let ghost digits = text@.subrange(start as int, n as int);
    proof {
        if start == 0 {
            assert(digits =~= text@);
        }
    }
    let mut value: i128 = 0;
    let mut i: usize = start;
    while i < n
        invariant
            start <= i <= n,
            start < n,
            n == text@.len(),
            negative == (text@[0] == '-'),
            start == (if text@[0] == '-' || text@[0] == '+' {
                1int
            } else {
                0int
            }),
            digits == text@.subrange(start as int, n as int),
            all_digits(digits.take(i - start)),
            value == digits_value(digits.take(i - start)),
            0 <= value <= i64::MAX + 1,
        decreases n - i,
    {
        let c = text[i];
        if !('0' <= c && c <= '9') {
            proof {
                assert(digits[i - start] == c);
                if start == 0 {
                    assert(digits =~= text@);
                }
            }
            return None;
        }
        let ghost before = digits.take(i - start);
        let ghost after = digits.take(i - start + 1);
        proof {
            assert(after.drop_last() =~= before);
            assert(after.last() == c);
            assert forall|k: int| 0 <= k < after.len() implies is_digit(#[trigger] after[k]) by {
                if k < before.len() {
                    assert(after[k] == before[k]);
                }
            }
        }
        value = value * 10 + (c as u32 - '0' as u32) as i128;
        i += 1;
        if value > i64::MAX as i128 + 1 {
            proof {
                if all_digits(digits) {
                    lemma_digits_value_grows(digits, i - start);
                }
                if start == 0 {
                    assert(digits =~= text@);
                }
            }
            return None;
        }
    }
    proof {
        assert(digits.take(n - start) =~= digits);
        if start == 0 {
            assert(digits =~= text@);
        }
    }
    if negative {
        Some((-value) as i64)
    } else if value > i64::MAX as i128 {
        None
    } else {
        Some(value as i64)
    }
}

/// The digit that writes a number under ten.
pub open spec fn digit_of(value: int) -> char {
    if value == 0 {
        '0'
    } else if value == 1 {
        '1'
    } else if value == 2 {
        '2'
    } else if value == 3 {
        '3'
    } else if value == 4 {
        '4'
    } else if value == 5 {
        '5'
    } else if value == 6 {
        '6'
    } else if value == 7 {
        '7'
    } else if value == 8 {
        '8'
    } else {
        '9'
    }
}

/// The digits that write a number that is not negative, most significant
/// digit first, with no `0` before another digit.
pub open spec fn digits_of(number: nat) -> Seq<char>
    decreases number,
{
    if number < 10 {
        seq![digit_of(number as int)]
    } else {
        digits_of(number / 10).push(digit_of((number % 10) as int))
    }
}

/// The text that writes a whole number: its digits, after `-` if it is
/// negative.
pub open spec fn decimal_text(number: int) -> Seq<char> {
    if number < 0 {
        seq!['-'] + digits_of((-number) as nat)
    } else {
        digits_of(number as nat)
    }
}

/// The digits of a number write that number.
pub proof fn lemma_digits_of(number: nat)
    ensures
        digits_of(number).len() > 0,
        all_digits(digits_of(number)),
        digits_value(digits_of(number)) == number,
    decreases number,
{
    if number < 10 {
        let digits = seq![digit_of(number as int)];
        assert(digits.drop_last() =~= Seq::<char>::empty());
        assert(digits_value(digits.drop_last()) == 0);
    } else {
        lemma_digits_of(number / 10);
        let front = digits_of(number / 10);
        let digits = front.push(digit_of((number % 10) as int));
        assert(digits.drop_last() =~= front);
        assert forall|i: int| 0 <= i < digits.len() implies is_digit(#[trigger] digits[i]) by {
            if i < front.len() {
                assert(digits[i] == front[i]);
            }
        }
    }
}

/// What is written of a 64-bit number reads as that number.
pub proof fn lemma_decimal_text(number: i64)
    ensures
        decimal_of(decimal_text(number as int)) == Some(number),
{
    let text = decimal_text(number as int);
    if number < 0 {
        let digits = digits_of((-number) as nat);
        lemma_digits_of((-number) as nat);
        assert(text.subrange(1, text.len() as int) =~= digits);
    } else {
        lemma_digits_of(number as nat);
        assert(is_digit(text[0]));
    }
}

// The digit that writes a number under ten.
fn digit(value: u64) -> (r: char)
    requires
        value < 10,
    ensures
        r == digit_of(value as int),
{
    if value == 0 {
        '0'
    } else if value == 1 {
        '1'
    } else if value == 2 {
        '2'
    } else if value == 3 {
        '3'
    } else if value == 4 {
        '4'
    } else if value == 5 {
        '5'
    } else if value == 6 {
        '6'
    } else if value == 7 {
        '7'
    } else if value == 8 {
        '8'
    } else {
        '9'
    }
}

/// Writes a 64-bit number in decimal notation.
pub fn format_decimal(number: i64) -> (r: String)
    ensures
        r@ == decimal_text(number as int),
{
    let magnitude: u64 = if number < 0 {
        (-(number as i128)) as u64
    } else {
        number as u64
    };
    // The digits after the first, least significant digit first.
    let mut low: Vec<char> = Vec::new();
    let mut rest = magnitude;
    while rest >= 10
        invariant
            digits_of(magnitude as nat) == digits_of(rest as nat) + low@.reverse(),
        decreases rest,
    {
        let ghost before = low@;
        low.push(digit(rest % 10));
        proof {
            let last = digit_of((rest % 10) as int);
            assert(low@.reverse() =~= seq![last] + before.reverse());
            assert(digits_of((rest / 10) as nat).push(last) + before.reverse() =~= digits_of(
                (rest / 10) as nat,
            ) + low@.reverse());
        }
        rest = rest / 10;
    }
    let mut text = String::new();
    if number < 0 {
        text.push('-');
    }
    text.push(digit(rest));
    let ghost head = text@;
    let mut i: usize = low.len();
    while i > 0
        invariant
            i <= low@.len(),
            text@ == head + low@.reverse().take(low@.len() - i),
        decreases i,
    {
        i -= 1;
        text.push(low[i]);
        proof {
            let digits = low@.reverse();
            let written = low@.len() - i;
            assert(digits.take(written) =~= digits.take(written - 1).push(low@[i as int]));
        }
    }
    proof {
        assert(low@.reverse().take(low@.len() as int) =~= low@.reverse());
        assert(head + low@.reverse() =~= decimal_text(number as int));
    }
    text
}

} // verus!
