//! Decimal numbers as text: reading them and writing them.

use vstd::prelude::*;

verus! {

/// Whether a character is one of the ten decimal digits.
pub open spec fn is_digit(c: char) -> bool {
    48 <= c as u32 <= 57
}

/// The value of a decimal digit.
pub open spec fn digit_value(c: char) -> nat {
    (c as u32 - 48) as nat
}

/// Whether a text is made of decimal digits only.
pub open spec fn all_digits(s: Seq<char>) -> bool {
    forall|i: int| 0 <= i < s.len() ==> is_digit(#[trigger] s[i])
}

/// The number that a run of decimal digits spells.
pub open spec fn digits_value(s: Seq<char>) -> nat
    decreases s.len(),
{
    if s.len() == 0 {
        0
    } else {
        digits_value(s.drop_last()) * 10 + digit_value(s.last())
    }
}

/// The number that a text spells, if it spells one that is at most `max`:
/// an optional `+`, then at least one decimal digit and nothing else.
pub open spec fn number_of(s: Seq<char>, max: nat) -> Option<nat> {
    let body = if s.len() > 0 && s[0] == '+' {
        s.skip(1)
    } else {
        s
    };
    if body.len() > 0 && all_digits(body) && digits_value(body) <= max {
        Some(digits_value(body))
    } else {
        None
    }
}

/// The text of one decimal digit.
pub open spec fn digit_text(d: nat) -> Seq<char> {
    if d == 0 {
        "0"@
    } else if d == 1 {
        "1"@
    } else if d == 2 {
        "2"@
    } else if d == 3 {
        "3"@
    } else if d == 4 {
        "4"@
    } else if d == 5 {
        "5"@
    } else if d == 6 {
        "6"@
    } else if d == 7 {
        "7"@
    } else if d == 8 {
        "8"@
    } else {
        "9"@
    }
}

/// A number written in decimal, without leading zeros.
pub open spec fn decimal(n: nat) -> Seq<char>
    decreases n,
{
    if n < 10 {
        digit_text(n)
    } else {
        decimal(n / 10) + digit_text(n % 10)
    }
}

/// A run of digits spells at least what any of its beginnings spells.
pub proof fn lemma_prefix_is_smaller(s: Seq<char>, k: int)
    requires
        0 <= k <= s.len(),
    ensures
        digits_value(s.take(k)) <= digits_value(s),
    decreases s.len() - k,
{
    if k == s.len() {
        assert(s.take(k) =~= s);
    } else {
        lemma_prefix_is_smaller(s, k + 1);
        assert(s.take(k + 1).drop_last() =~= s.take(k));
    }
}

/// Reads the number that the characters from `from` up to `to` spell.
pub fn parse_number(text: &Vec<char>, from: usize, to: usize, max: u64) -> (r: Option<u64>)
    requires
        from <= to <= text@.len(),
    ensures
        match r {
            Some(n) => number_of(text@.subrange(from as int, to as int), max as nat) == Some(
                n as nat,
            ),
            None => number_of(text@.subrange(from as int, to as int), max as nat) is None,
        },
{
    let ghost s = text@.subrange(from as int, to as int);
    let start: usize = if from < to && text[from] == '+' {
        from + 1
    } else {
        from
    };
    let ghost body = text@.subrange(start as int, to as int);
    assert(body =~= if s.len() > 0 && s[0] == '+' {
        s.skip(1)
    } else {
        s
    });
    if start == to {
        return None;
    }
    let mut acc: u64 = 0;
    let mut i: usize = start;
    while i < to
        invariant
            from <= start <= i <= to <= text@.len(),
            start < to,
            s == text@.subrange(from as int, to as int),
            body == text@.subrange(start as int, to as int),
            body == if s.len() > 0 && s[0] == '+' {
                s.skip(1)
            } else {
                s
            },
            all_digits(body.take(i - start)),
            acc == digits_value(body.take(i - start)),
            acc <= max,
        decreases to - i,
    {
        let c = text[i];
        let code: u32 = c as u32;
        assert(body[i - start] == c);
        if code < 48 || code > 57 {
            assert(!is_digit(body[i - start]));
            return None;
        }
        let d: u64 = (code - 48) as u64;
        let wide: u128 = (acc as u128) * 10 + (d as u128);
        proof {
            assert(body.take(i + 1 - start).drop_last() =~= body.take(i - start));
            assert(body.take(i + 1 - start).last() == c);
            assert(digits_value(body.take(i + 1 - start)) == wide);
            assert forall|k: int| 0 <= k < i + 1 - start implies is_digit(
                #[trigger] body.take(i + 1 - start)[k],
            ) by {
                if k < i - start {
                    assert(body.take(i - start)[k] == body[k]);
                }
            }
        }
        if wide > max as u128 {
            proof {
                lemma_prefix_is_smaller(body, i + 1 - start);
            }
            return None;
        }
        acc = wide as u64;
        i = i + 1;
    }
    assert(body.take(to - start) =~= body);
    Some(acc)
}

/// Writes a number in decimal.
pub fn decimal_text(n: u64) -> (r: String)
    ensures
        r@ == decimal(n as nat),
    decreases n,
{
    let last = match n % 10 {
        0 => "0",
        1 => "1",
        2 => "2",
        3 => "3",
        4 => "4",
        5 => "5",
        6 => "6",
        7 => "7",
        8 => "8",
        _ => "9",
    };
    if n < 10 {
        String::from_str(last)
    } else {
        decimal_text(n / 10).concat(last)
    }
}

} // verus!
