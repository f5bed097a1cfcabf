//! Whole numbers and fixed-point quantities written out in decimal.

use vstd::prelude::*;
use crate::text::extend_chars;

verus! {

/// The character for the decimal digit `d`.
pub open spec fn digit_char(d: nat) -> char {
    if d == 0 {
        '0'
    } else if d == 1 {
        '1'
    } else if d == 2 {
        '2'
    } else if d == 3 {
        '3'
    } else if d == 4 {
        '4'
    } else if d == 5 {
        '5'
    } else if d == 6 {
        '6'
    } else if d == 7 {
        '7'
    } else if d == 8 {
        '8'
    } else {
        '9'
    }
}

/// `n` in decimal, without leading zeros; zero is the single digit `0`.
pub open spec fn digits_of(n: nat) -> Seq<char>
    decreases n,
{
    if n < 10 {
        seq![digit_char(n)]
    } else {
        digits_of(n / 10).push(digit_char(n % 10))
    }
}

/// A count of tenths written with one decimal place: 125 is `12.5`.
pub open spec fn tenths_text(t: nat) -> Seq<char> {
    digits_of(t / 10) + seq!['.', digit_char(t % 10)]
}

/// A count of hundredths written with two decimal places: 805 is `8.05`.
pub open spec fn hundredths_text(h: nat) -> Seq<char> {
    digits_of(h / 100) + seq!['.', digit_char((h / 10) % 10), digit_char(h % 10)]
}

/// `num / den` rounded to the nearest whole number, a tie going to the even
/// neighbour. Only meant for `den > 0`.
pub open spec fn div_round(num: nat, den: nat) -> nat {
    let q = num / den;
    let r = num % den;
    if 2 * r > den || (2 * r == den && q % 2 == 1) {
        q + 1
    } else {
        q
    }
}

/// The digit character for `d`.
pub(crate) fn digit(d: u8) -> (c: char)
    requires
        d < 10,
    ensures
        c == digit_char(d as nat),
{
    if d == 0 {
        '0'
    } else if d == 1 {
        '1'
    } else if d == 2 {
        '2'
    } else if d == 3 {
        '3'
    } else if d == 4 {
        '4'
    } else if d == 5 {
        '5'
    } else if d == 6 {
        '6'
    } else if d == 7 {
        '7'
    } else if d == 8 {
        '8'
    } else {
        '9'
    }
}

/// Appends `n` in decimal to `out`.
pub fn push_number(out: &mut Vec<char>, n: u128)
    ensures
        final(out)@ == old(out)@ + digits_of(n as nat),
{
    let mut low: Vec<char> = Vec::new();
    let mut rest: u128 = n;
    while rest >= 10
        invariant
            digits_of(n as nat) == digits_of(rest as nat) + low@,
        decreases rest,
    {
        let d = (rest % 10) as u8;
        let ghost before = low@;
        low.insert(0, digit(d));
        proof {
            assert(digits_of(rest as nat) == digits_of((rest / 10) as nat).push(
                digit_char((rest % 10) as nat),
            ));
            assert(low@ =~= seq![digit_char((rest % 10) as nat)] + before);
            assert(digits_of((rest / 10) as nat).push(digit_char((rest % 10) as nat)) + before
                =~= digits_of((rest / 10) as nat) + low@);
        }
        rest = rest / 10;
    }
    out.push(digit(rest as u8));
    extend_chars(out, &low);
    proof {
        assert(old(out)@.push(digit_char(rest as nat)) + low@ =~= old(out)@ + (digits_of(
            rest as nat,
        ) + low@));
    }
}

/// Computes `div_round`.
pub(crate) fn rounded_quotient(num: u128, den: u128) -> (q: u128)
    requires
        0 < den <= u128::MAX / 2,
    ensures
        q == div_round(num as nat, den as nat),
{
    let q = num / den;
    let r = num % den;
    if 2 * r > den || (2 * r == den && q % 2 == 1) {
        proof {
            assert(q < u128::MAX) by (nonlinear_arith)
                requires
                    q == num / den,
                    den >= 1,
                    num % den > 0,
                    num <= u128::MAX,
            ;
        }
        q + 1
    } else {
        q
    }
}

/// Whether `c` is one of the ten decimal digits.
pub open spec fn is_digit(c: char) -> bool {
    '0' <= c <= '9'
}

/// The value of the digit `c`.
pub open spec fn digit_value(c: char) -> nat {
    (c as nat - '0' as nat) as nat
}

/// Whether `s` holds nothing but decimal digits.
pub open spec fn all_digits(s: Seq<char>) -> bool {
    forall|i: int| 0 <= i < s.len() ==> is_digit(#[trigger] s[i])
}

/// The number that the digits `s` write; 0 for no digits.
pub open spec fn number_of(s: Seq<char>) -> nat
    decreases s.len(),
{
    if s.len() == 0 {
        0
    } else {
        number_of(s.drop_last()) * 10 + digit_value(s.last())
    }
}

/// `s` without the plus sign in front of it, if it has one.
pub open spec fn unsigned_part(s: Seq<char>) -> Seq<char> {
    if s.len() > 0 && s[0] == '+' {
        s.skip(1)
    } else {
        s
    }
}

/// The number that `s` writes, if it writes one that fits: an optional plus
/// sign, then at least one digit and nothing else. Leading zeros are allowed.
pub open spec fn parsed_usize(s: Seq<char>) -> Option<usize> {
    let body = unsigned_part(s);
    if body.len() > 0 && all_digits(body) && number_of(body) <= usize::MAX {
        Some(number_of(body) as usize)
    } else {
        None
    }
}

/// The digits read so far never write more than all of them do.
pub proof fn lemma_number_of_prefix(s: Seq<char>, k: int)
    requires
        0 <= k <= s.len(),
    ensures
        number_of(s.take(k)) <= number_of(s),
    decreases s.len() - k,
{
    if k == s.len() {
        assert(s.take(k) =~= s);
    } else {
        lemma_number_of_prefix(s, k + 1);
        assert(s.take(k + 1).drop_last() =~= s.take(k));
    }
}

/// Reads a number as `parsed_usize` describes.
pub fn parse_usize(s: &Vec<char>) -> (out: Option<usize>)
    ensures
        out == parsed_usize(s@),
{
    let start: usize = if s.len() > 0 && s[0] == '+' {
        1
    } else {
        0
    };
    let ghost body = unsigned_part(s@);
    proof {
        assert(body =~= s@.skip(start as int));
    }
    if start >= s.len() {
        return None;
    }
    let mut acc: usize = 0;
    let mut i: usize = start;
    proof {
        assert(body.take(0) =~= Seq::<char>::empty());
    }
    while i < s.len()
        invariant
            start <= i <= s.len(),
            body == s@.skip(start as int),
            body == unsigned_part(s@),
            all_digits(body.take(i - start)),
            acc == number_of(body.take(i - start)),
        decreases s.len() - i,
    {
        let c = s[i];
        proof {
            assert(body[i - start] == c);
            assert(body.take(i - start + 1).drop_last() =~= body.take(i - start));
            assert(body.take(i - start + 1).last() == c);
            lemma_number_of_prefix(body, i - start + 1);
        }
        if !('0' <= c && c <= '9') {
            proof {
                assert(!is_digit(body[i - start]));
            }
            return None;
        }
        let d: usize = (c as u32 - '0' as u32) as usize;
        proof {
            assert(d == digit_value(c));
            assert(number_of(body.take(i - start + 1)) == acc * 10 + d);
        }
        if acc > (usize::MAX - d) / 10 {
            proof {
                assert(acc * 10 + d > usize::MAX);
            }
            return None;
        }
        acc = acc * 10 + d;
        proof {
            assert forall|j: int| 0 <= j < i - start + 1 implies is_digit(
                #[trigger] body.take(i - start + 1)[j],
            ) by {
                if j < i - start {
                    assert(body.take(i - start)[j] == body.take(i - start + 1)[j]);
                }
            }
        }
        i += 1;
    }
    proof {
        assert(body.take(s.len() - start) =~= body);
    }
    Some(acc)
}

/// `div_round` gives a nearest whole number: it is off from the exact
/// quotient by half at most.
pub proof fn law_div_round_nearest(num: nat, den: nat)
    requires
        den > 0,
    ensures
        2 * (div_round(num, den) * den - num) <= den,
        2 * (num - div_round(num, den) * den) <= den,
{
    let q = num / den;
    let r = num % den;
    assert(num == q * den + r && 0 <= r < den) by (nonlinear_arith)
        requires
            den > 0,
            q == num / den,
            r == num % den,
    ;
    assert((q + 1) * den == q * den + den) by (nonlinear_arith);
}

} // verus!
