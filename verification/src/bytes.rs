use vstd::arithmetic::div_mod::lemma_div_is_ordered;
use vstd::arithmetic::div_mod::lemma_div_is_ordered_by_denominator;
use vstd::arithmetic::div_mod::lemma_div_nonincreasing;
use vstd::prelude::*;

use crate::text::string_push;

verus! {

/// A byte count, rendered for display by scaling with powers of 1000.
///
/// A count of zero is rendered plainly as `0 B`. Any other count is scaled
/// by the largest power of 1000 it reaches, capped at the tera range, and
/// shown with two decimal digits and the matching unit prefix: `999.00 B`,
/// `1.50 kB`, `1.00 MB`.
pub struct Bytes {
    bytes: u64,
}

/// The character for one decimal digit.
pub open spec fn digit_char(d: nat) -> char {
    if d == 0 {
        '0'
    } else if d == 1 {
        '1'
    } else if d == 2 {
        '2'
    } else if d == 3 {
        '3'
    } else if d == 4 {
        '4'
    } else if d == 5 {
        '5'
    } else if d == 6 {
        '6'
    } else if d == 7 {
        '7'
    } else if d == 8 {
        '8'
    } else {
        '9'
    }
}

/// The decimal digits of `n`, most significant first, no leading zeros.
pub open spec fn dec_digits(n: nat) -> Seq<char>
    decreases n,
{
    if n < 10 {
        seq![digit_char(n)]
    } else {
        dec_digits(n / 10).push(digit_char(n % 10))
    }
}

/// The power 1000^e.
pub open spec fn pow1000(e: nat) -> nat
    decreases e,
{
    if e == 0 {
        1
    } else {
        1000 * pow1000((e - 1) as nat)
    }
}

/// The scaling exponent for a non-zero count: the largest `e` with
/// `1000^e <= n`, capped at 4 (the tera range) so that absurd counts do
/// not run out of prefixes.
pub open spec fn scale_exponent(n: u64) -> nat {
    if n < 1000 {
        0
    } else if n < 1_000_000 {
        1
    } else if n < 1_000_000_000 {
        2
    } else if n < 1_000_000_000_000 {
        3
    } else {
        4
    }
}

/// The unit prefix for one scaling exponent.
pub open spec fn unit_prefix(e: nat) -> Seq<char> {
    if e == 0 {
        seq![]
    } else if e == 1 {
        seq!['k']
    } else if e == 2 {
        seq!['M']
    } else if e == 3 {
        seq!['G']
    } else {
        seq!['T']
    }
}

/// The scaled count in hundredths of the chosen unit, rounded half up.
pub open spec fn scaled_hundredths(n: u64) -> nat {
    ((n * 100 + pow1000(scale_exponent(n)) / 2) as int / pow1000(scale_exponent(n)) as int) as nat
}

/// The full rendering of a byte count.
pub open spec fn spec_format(n: u64) -> Seq<char> {
    if n == 0 {
        seq!['0', ' ', 'B']
    } else {
        let h = scaled_hundredths(n);
        dec_digits(h / 100) + seq!['.', digit_char((h % 100) / 10), digit_char(h % 10), ' ']
            + unit_prefix(scale_exponent(n)) + seq!['B']
    }
}

impl View for Bytes {
    type V = u64;

    closed spec fn view(&self) -> u64 {
        self.bytes
    }
}

/// The character for one decimal digit, as executable code.
fn digit_of(d: u64) -> (c: char)
    requires
        d < 10,
    ensures
        c == digit_char(d as nat),
{
    if d == 0 {
        '0'
    } else if d == 1 {
        '1'
    } else if d == 2 {
        '2'
    } else if d == 3 {
        '3'
    } else if d == 4 {
        '4'
    } else if d == 5 {
        '5'
    } else if d == 6 {
        '6'
    } else if d == 7 {
        '7'
    } else if d == 8 {
        '8'
    } else {
        '9'
    }
}

/// Appends the decimal digits of `n` to `s`, most significant first.
fn push_decimal(n: u64, s: &mut String)
    ensures
        final(s)@ == old(s)@ + dec_digits(n as nat),
    decreases n,
{
    if n >= 10 {
        push_decimal(n / 10, s);
        string_push(s, digit_of(n % 10));
        proof {
            assert(s@ =~= old(s)@ + dec_digits(n as nat));
        }
    } else {
        string_push(s, digit_of(n));
        proof {
            assert(s@ =~= old(s)@ + dec_digits(n as nat));
        }
    }
}

impl Bytes {
    /// Wraps a raw byte count.
    pub fn new(bytes: u64) -> (r: Bytes)
        ensures
            r@ == bytes,
    {
        Bytes { bytes }
    }

    /// Renders the count as a scaled, human-readable unit string.
    pub fn format(&self) -> (r: String)
        ensures
            r@ == spec_format(self@),
    {
        let n = self.bytes;
        let mut s = String::new();
        if n == 0 {
            string_push(&mut s, '0');
            string_push(&mut s, ' ');
            string_push(&mut s, 'B');
            proof {
                assert(s@ =~= spec_format(self@));
            }
            return s;
        }
        let (e, div): (u64, u64) = if n < 1000 {
            (0, 1)
        } else if n < 1_000_000 {
            (1, 1000)
        } else if n < 1_000_000_000 {
            (2, 1_000_000)
        } else if n < 1_000_000_000_000 {
            (3, 1_000_000_000)
        } else {
            (4, 1_000_000_000_000)
        };
        proof {
            reveal_with_fuel(pow1000, 5);
            assert(div == pow1000(scale_exponent(n)));
        }
        let h128: u128 = (n as u128) * 100 + (div as u128) / 2;
        proof {
            assert(h128 < 0x800000000000000000) by {
                assert(n as u128 * 100 < 0x800000000000000000 - 0x10000000000000000);
            }
            lemma_div_is_ordered_by_denominator(h128 as int, 1, div as int);
            lemma_div_nonincreasing(h128 as int, 1);
            if div >= 1000 {
                lemma_div_is_ordered_by_denominator(h128 as int, 1000, div as int);
                lemma_div_is_ordered(h128 as int, 0x800000000000000000, 1000);
            } else {
                // div == 1, so n < 1000 and the quotient is below 100_000
                assert(h128 / (div as u128) == h128);
            }
            assert(h128 / (div as u128) < 0x10000000000000000);
        }
        let h: u64 = (h128 / (div as u128)) as u64;
        proof {
            assert(h == scaled_hundredths(n));
        }
        push_decimal(h / 100, &mut s);
        string_push(&mut s, '.');
        string_push(&mut s, digit_of((h % 100) / 10));
        string_push(&mut s, digit_of(h % 10));
        string_push(&mut s, ' ');
        if e == 1 {
            string_push(&mut s, 'k');
        } else if e == 2 {
            string_push(&mut s, 'M');
        } else if e == 3 {
            string_push(&mut s, 'G');
        } else if e == 4 {
            string_push(&mut s, 'T');
        }
        string_push(&mut s, 'B');
        proof {
            assert(s@ =~= spec_format(self@));
        }
        s
    }
}

/// For a count in [1, 1000) no prefix is applied: a non-zero count is
/// always rendered with two decimal digits, so such a count shows as its
/// own digits followed by ".00 B".
pub proof fn lemma_format_plain_unit(n: u64)
    requires
        1 <= n < 1000,
    ensures
        spec_format(n) == dec_digits(n as nat) + seq!['.', '0', '0', ' ', 'B'],
{
    assert(pow1000(scale_exponent(n)) == 1) by {
        reveal_with_fuel(pow1000, 1);
    }
    assert(scaled_hundredths(n) == n * 100);
    assert(n * 100 / 100 == n as int) by (nonlinear_arith);
    assert(n * 100 % 100 == 0) by (nonlinear_arith);
    assert(spec_format(n) =~= dec_digits(n as nat) + seq!['.', '0', '0', ' ', 'B']);
}

} // verus!
