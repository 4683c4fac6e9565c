//! Decimal rendering and parsing of integers, used for query-parameter
//! parsing, for log messages, and for the wire encoding of token claims.

use vstd::prelude::*;
use vstd::arithmetic::div_mod::lemma_fundamental_div_mod;

verus! {

/// The character for one decimal digit value.
pub open spec fn digit_char(d: int) -> char {
    if d == 0 {
        '0'
    } else if d == 1 {
        '1'
    } else if d == 2 {
        '2'
    } else if d == 3 {
        '3'
    } else if d == 4 {
        '4'
    } else if d == 5 {
        '5'
    } else if d == 6 {
        '6'
    } else if d == 7 {
        '7'
    } else if d == 8 {
        '8'
    } else {
        '9'
    }
}

/// The decimal digits of `n` (most significant first), for `n >= 0`.
pub open spec fn dec_rep(n: int) -> Seq<char>
    decreases n,
{
    if n < 10 {
        seq![digit_char(n)]
    } else {
        dec_rep(n / 10).push(digit_char(n % 10))
    }
}

/// Whether `c` is a decimal digit.
pub open spec fn is_digit(c: char) -> bool {
    48 <= c as int <= 57
}

/// The value of one decimal digit character.
pub open spec fn digit_val(c: char) -> int {
    c as int - 48
}

/// Whether every character of `s` is a decimal digit.
pub open spec fn all_digits(s: Seq<char>) -> bool {
    forall|i: int| 0 <= i < s.len() ==> is_digit(#[trigger] s[i])
}

/// The number denoted by a sequence of decimal digits; an empty
/// sequence denotes zero.
pub open spec fn dec_value(s: Seq<char>) -> int
    decreases s.len(),
{
    if s.len() == 0 {
        0
    } else {
        dec_value(s.drop_last()) * 10 + digit_val(s.last())
    }
}

/// `k` copies of the digit zero.
pub open spec fn zeros(k: nat) -> Seq<char> {
    Seq::new(k, |i: int| '0')
}

/// `10^k`.
pub open spec fn pow10(k: nat) -> int
    decreases k,
{
    if k == 0 {
        1
    } else {
        10 * pow10((k - 1) as nat)
    }
}

/// What `str::parse::<i64>` accepts and returns: an optional sign
/// followed by at least one digit, denoting a value in range.
pub open spec fn spec_parse_i64(s: Seq<char>) -> Option<i64> {
    if s.len() > 0 && (s[0] == '-' || s[0] == '+') {
        let digits = s.skip(1);
        if digits.len() == 0 || !all_digits(digits) {
            None
        } else if s[0] == '-' {
            if dec_value(digits) <= 0x8000_0000_0000_0000 {
                Some((-dec_value(digits)) as i64)
            } else {
                None
            }
        } else {
            if dec_value(digits) <= i64::MAX {
                Some(dec_value(digits) as i64)
            } else {
                None
            }
        }
    } else {
        if s.len() == 0 || !all_digits(s) {
            None
        } else if dec_value(s) <= i64::MAX {
            Some(dec_value(s) as i64)
        } else {
            None
        }
    }
}

/// The digits of `n` are digits, and there is at least one of them.
pub proof fn lemma_dec_rep_digits(n: int)
    requires
        0 <= n,
    ensures
        all_digits(dec_rep(n)),
        dec_rep(n).len() >= 1,
    decreases n,
{
    if n >= 10 {
        lemma_dec_rep_digits(n / 10);
    }
}

/// Rendering and evaluation are inverse: the digits of `n` denote `n`.
pub proof fn lemma_dec_value_of_rep(n: int)
    requires
        0 <= n,
    ensures
        dec_value(dec_rep(n)) == n,
    decreases n,
{
    if n < 10 {
        assert(digit_val(digit_char(n)) == n);
        assert(dec_rep(n).last() == digit_char(n));
        assert(dec_rep(n).drop_last() =~= Seq::<char>::empty());
        assert(dec_value(dec_rep(n).drop_last()) == 0);
    } else {
        lemma_dec_value_of_rep(n / 10);
        assert(dec_rep(n).drop_last() =~= dec_rep(n / 10));
        lemma_fundamental_div_mod(n, 10);
    }
}

/// `n < 10^k` needs at most `k` digits.
pub proof fn lemma_dec_rep_len(n: int, k: nat)
    requires
        0 <= n < pow10(k),
        1 <= k,
    ensures
        dec_rep(n).len() <= k,
    decreases k,
{
    if n >= 10 {
        assert(n / 10 < pow10((k - 1) as nat)) by {
            lemma_fundamental_div_mod(n, 10);
        }
        lemma_dec_rep_len(n / 10, (k - 1) as nat);
    }
}

/// Leading zeros do not change the denoted value.
pub proof fn lemma_dec_value_zero_prefix(k: nat, t: Seq<char>)
    ensures
        dec_value(zeros(k) + t) == dec_value(t),
    decreases t.len(),
{
    if t.len() == 0 {
        assert(zeros(k) + t =~= zeros(k));
        lemma_dec_value_of_zeros(k);
    } else {
        assert((zeros(k) + t).drop_last() =~= zeros(k) + t.drop_last());
        lemma_dec_value_zero_prefix(k, t.drop_last());
        assert((zeros(k) + t).last() == t.last());
    }
}

/// A sequence of zeros denotes zero.
pub proof fn lemma_dec_value_of_zeros(k: nat)
    ensures
        dec_value(zeros(k)) == 0,
    decreases k,
{
    if k > 0 {
        assert(zeros(k).drop_last() =~= zeros((k - 1) as nat));
        lemma_dec_value_of_zeros((k - 1) as nat);
        assert(digit_val(zeros(k).last()) == 0);
    }
}

/// One decimal digit as a string.
fn digit_str(d: u64) -> (r: &'static str)
    requires
        d < 10,
    ensures
        r@ =~= seq![digit_char(d as int)],
{
    proof {
        reveal_strlit("0");
        reveal_strlit("1");
        reveal_strlit("2");
        reveal_strlit("3");
        reveal_strlit("4");
        reveal_strlit("5");
        reveal_strlit("6");
        reveal_strlit("7");
        reveal_strlit("8");
        reveal_strlit("9");
    }
    match d {
        0 => "0",
        1 => "1",
        2 => "2",
        3 => "3",
        4 => "4",
        5 => "5",
        6 => "6",
        7 => "7",
        8 => "8",
        _ => "9",
    }
}

/// Render `n` in decimal.
pub fn render_u64(n: u64) -> (r: String)
    ensures
        r@ == dec_rep(n as int),
    decreases n,
{
    if n < 10 {
        String::from_str(digit_str(n))
    } else {
        let mut s = render_u64(n / 10);
        s.append(digit_str(n % 10));
        s
    }
}

/// Render `n` in decimal, left-padded with zeros to exactly `width`
/// digits.
pub fn render_padded_u64(n: u64, width: usize) -> (r: String)
    requires
        n < pow10(width as nat),
        1 <= width,
    ensures
        r@ =~= zeros((width - dec_rep(n as int).len()) as nat) + dec_rep(n as int),
        r@.len() == width,
        all_digits(r@),
        dec_value(r@) == n,
{
    proof {
        lemma_dec_rep_digits(n as int);
        lemma_dec_rep_len(n as int, width as nat);
        lemma_dec_value_of_rep(n as int);
        lemma_dec_value_zero_prefix((width - dec_rep(n as int).len()) as nat, dec_rep(n as int));
    }
    let digits = render_u64(n);
    let ndigits = digits.as_str().unicode_len();
    let mut s = String::new();
    let mut k: usize = 0;
    while k < width - ndigits
        invariant
            ndigits == dec_rep(n as int).len(),
            ndigits <= width,
            k <= width - ndigits,
            s@ =~= zeros(k as nat),
        decreases width - ndigits - k,
    {
        s.append("0");
        proof {
            reveal_strlit("0");
            assert(s@ =~= zeros((k + 1) as nat));
        }
        k = k + 1;
    }
    s.append(digits.as_str());
    s
}

/// Parse an `i64` from `s`, accepting exactly what `str::parse::<i64>`
/// accepts: an optional `+` or `-` sign followed by one or more decimal
/// digits, denoting a value that fits in an `i64`.
pub fn parse_i64(s: &str) -> (r: Option<i64>)
    ensures
        r == spec_parse_i64(s@),
{
    let len = s.unicode_len();
    if len == 0 {
        return None;
    }
    let first = s.get_char(0);
    let signed: bool = first == '-' || first == '+';
    let neg: bool = first == '-';
    let start: usize = if signed {
        1
    } else {
        0
    };
    if start == len {
        return None;
    }
    let ghost digits: Seq<char> = if signed {
        s@.skip(1)
    } else {
        s@
    };
    let mut i: usize = start;
    let mut acc: u64 = 0;
    let mut big: bool = false;
    while i < len
        invariant
            start <= i <= len,
            len == s@.len(),
            start < len,
            signed == (s@[0] == '-' || s@[0] == '+'),
            neg == (s@[0] == '-'),
            start == if signed {
                1int
            } else {
                0int
            },
            digits == s@.subrange(start as int, len as int),
            all_digits(s@.subrange(start as int, i as int)),
            !big ==> acc == dec_value(s@.subrange(start as int, i as int)) && acc
                <= 0x8000_0000_0000_0000,
            big ==> dec_value(s@.subrange(start as int, i as int)) > 0x8000_0000_0000_0000,
        decreases len - i,
    {
        let c = s.get_char(i);
        let cu = c as u32;
        if cu < 48 || cu > 57 {
            proof {
                assert(!is_digit(digits[i - start]));
                assert(!all_digits(digits));
                if signed {
                    assert(s@.skip(1) =~= digits);
                } else {
                    assert(digits =~= s@);
                }
            }
            return None;
        }
        let d: u64 = (cu - 48) as u64;
        let ghost prev: Seq<char> = s@.subrange(start as int, i as int);
        let ghost cur: Seq<char> = s@.subrange(start as int, i + 1);
        proof {
            assert(cur.drop_last() =~= prev);
            assert(cur.last() == s@[i as int]);
            assert(dec_value(cur) == dec_value(prev) * 10 + d);
        }
        if big {
            proof {
                assert(dec_value(cur) > 0x8000_0000_0000_0000) by (nonlinear_arith)
                    requires
                        dec_value(cur) == dec_value(prev) * 10 + d,
                        dec_value(prev) > 0x8000_0000_0000_0000,
                        d >= 0,
                ;
            }
        } else {
            let wide: u128 = acc as u128 * 10 + d as u128;
            if wide > 0x8000_0000_0000_0000u128 {
                big = true;
            } else {
                acc = wide as u64;
            }
        }
        i = i + 1;
    }
    proof {
        assert(s@.subrange(start as int, len as int) =~= digits);
        if signed {
            assert(digits == s@.skip(1));
        } else {
            assert(digits =~= s@);
        }
    }
    if neg {
        if big {
            None
        } else if acc == 0x8000_0000_0000_0000u64 {
            Some(i64::MIN)
        } else {
            Some(-(acc as i64))
        }
    } else {
        if big || acc > 0x7FFF_FFFF_FFFF_FFFFu64 {
            None
        } else {
            Some(acc as i64)
        }
    }
}

} // verus!
