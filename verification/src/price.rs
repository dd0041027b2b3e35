//! Price text handling: a quote's price arrives as text and is shown as
//! `$` followed by the amount with exactly two decimal places.
//!
//! A price text is parsable when it is made of decimal digits with at most
//! one decimal point, holds at least one digit, and its integer part has at
//! most 15 digits. Anything else (signs, exponents, stray characters,
//! oversized amounts) renders as `$0.00`: a deliberately silent fallback,
//! preferring a wrong-looking zero over a crash on a malformed feed.
//! Rounding to cents is half-up on the third fraction digit.

use vstd::prelude::*;
use vstd::string::StrSliceExecFns;
use vstd::string::StringExecFns;

verus! {

/// Is `c` a decimal digit?
pub open spec fn is_digit(c: char) -> bool {
    ||| c == '0'
    ||| c == '1'
    ||| c == '2'
    ||| c == '3'
    ||| c == '4'
    ||| c == '5'
    ||| c == '6'
    ||| c == '7'
    ||| c == '8'
    ||| c == '9'
}

/// The numeric value of a digit character.
pub open spec fn digit_of(c: char) -> nat {
    if c == '0' {
        0
    } else if c == '1' {
        1
    } else if c == '2' {
        2
    } else if c == '3' {
        3
    } else if c == '4' {
        4
    } else if c == '5' {
        5
    } else if c == '6' {
        6
    } else if c == '7' {
        7
    } else if c == '8' {
        8
    } else {
        9
    }
}

/// The character of a digit value below ten.
pub open spec fn digit_char(d: nat) -> char {
    if d == 0 {
        '0'
    } else if d == 1 {
        '1'
    } else if d == 2 {
        '2'
    } else if d == 3 {
        '3'
    } else if d == 4 {
        '4'
    } else if d == 5 {
        '5'
    } else if d == 6 {
        '6'
    } else if d == 7 {
        '7'
    } else if d == 8 {
        '8'
    } else {
        '9'
    }
}

/// The index of the first decimal point, or `s.len()` if there is none.
pub open spec fn first_dot(s: Seq<char>) -> int
    decreases s.len(),
{
    if s.len() == 0 {
        0
    } else if s[0] == '.' {
        0
    } else {
        1 + first_dot(s.drop_first())
    }
}

/// The digits before the first decimal point.
pub open spec fn int_part(s: Seq<char>) -> Seq<char> {
    s.take(first_dot(s))
}

/// The digits after the first decimal point; empty if there is none.
pub open spec fn frac_part(s: Seq<char>) -> Seq<char> {
    if first_dot(s) < s.len() {
        s.skip(first_dot(s) + 1)
    } else {
        Seq::empty()
    }
}

pub open spec fn all_digits(s: Seq<char>) -> bool {
    forall|i: int| 0 <= i < s.len() ==> is_digit(s[i])
}

/// A price text this module parses: digits around at most one decimal
/// point, at least one digit in all, and an integer part of at most
/// 15 digits so that the cent amount fits comfortably in 64 bits.
pub open spec fn well_formed_price(s: Seq<char>) -> bool {
    &&& all_digits(int_part(s))
    &&& all_digits(frac_part(s))
    &&& int_part(s).len() + frac_part(s).len() >= 1
    &&& int_part(s).len() <= 15
}

/// The value of a digit string read in base 10.
pub open spec fn digits_val(s: Seq<char>) -> nat
    decreases s.len(),
{
    if s.len() == 0 {
        0
    } else {
        digits_val(s.drop_last()) * 10 + digit_of(s.last())
    }
}

/// The whole cents of a well-formed price text, rounding half-up on the
/// third fraction digit.
pub open spec fn cents_of(s: Seq<char>) -> nat {
    let fp = frac_part(s);
    digits_val(int_part(s)) * 100 + (if fp.len() >= 1 {
        digit_of(fp[0]) * 10
    } else {
        0
    }) + (if fp.len() >= 2 {
        digit_of(fp[1])
    } else {
        0
    }) + (if fp.len() >= 3 && digit_of(fp[2]) >= 5 {
        1nat
    } else {
        0nat
    })
}

/// The cents a price text renders as: its value when well formed, else 0.
pub open spec fn price_cents(s: Seq<char>) -> nat {
    if well_formed_price(s) {
        cents_of(s)
    } else {
        0
    }
}

/// The decimal digits of `n`, most significant first, no leading zeros
/// (a single `'0'` for zero).
pub open spec fn digits_seq(n: nat) -> Seq<char>
    decreases n,
{
    if n < 10 {
        seq![digit_char(n)]
    } else {
        digits_seq(n / 10) + seq![digit_char(n % 10)]
    }
}

/// `c` cents written as dollars: `$`, the whole dollars, a point, and
/// exactly two fraction digits.
pub open spec fn format_cents(c: nat) -> Seq<char> {
    seq!['$'] + digits_seq(c / 100) + seq![
        '.',
        digit_char((c % 100) / 10),
        digit_char((c % 100) % 10),
    ]
}

/// What a price text renders as on the display's second line.
pub open spec fn price_line(s: Seq<char>) -> Seq<char> {
    format_cents(price_cents(s))
}

/// Ten to the `k`.
pub open spec fn pow10(k: nat) -> nat
    decreases k,
{
    if k == 0 {
        1
    } else {
        10 * pow10((k - 1) as nat)
    }
}

proof fn lemma_pow10_mono(a: nat, b: nat)
    requires
        a <= b,
    ensures
        pow10(a) <= pow10(b),
    decreases b,
{
    if a < b {
        lemma_pow10_mono(a, (b - 1) as nat);
    }
}

proof fn lemma_first_dot_at(s: Seq<char>, d: int)
    requires
        0 <= d <= s.len(),
        forall|j: int| 0 <= j < d ==> s[j] != '.',
        d < s.len() ==> s[d] == '.',
    ensures
        first_dot(s) == d,
    decreases s.len(),
{
    if s.len() == 0 {
    } else if d == 0 {
    } else {
        assert(forall|j: int| 0 <= j < d - 1 ==> s.drop_first()[j] != '.');
        lemma_first_dot_at(s.drop_first(), d - 1);
    }
}

fn char_digit(c: char) -> (r: Option<u8>)
    ensures
        r == if is_digit(c) {
            Some(digit_of(c) as u8)
        } else {
            None::<u8>
        },
{
    match c {
        '0' => Some(0),
        '1' => Some(1),
        '2' => Some(2),
        '3' => Some(3),
        '4' => Some(4),
        '5' => Some(5),
        '6' => Some(6),
        '7' => Some(7),
        '8' => Some(8),
        '9' => Some(9),
        _ => None,
    }
}

fn digit_str(d: u64) -> (r: &'static str)
    requires
        d < 10,
    ensures
        r@ == seq![digit_char(d as nat)],
{
    proof {
        reveal_strlit("0");
        reveal_strlit("1");
        reveal_strlit("2");
        reveal_strlit("3");
        reveal_strlit("4");
        reveal_strlit("5");
        reveal_strlit("6");
        reveal_strlit("7");
        reveal_strlit("8");
        reveal_strlit("9");
    }
    let r = match d {
        0 => "0",
        1 => "1",
        2 => "2",
        3 => "3",
        4 => "4",
        5 => "5",
        6 => "6",
        7 => "7",
        8 => "8",
        _ => "9",
    };
    proof {
        assert(r@ =~= seq![digit_char(d as nat)]);
    }
    r
}

/// The decimal digits of `n`, most significant first.
fn decimal_string(n: u64) -> (r: String)
    ensures
        r@ == digits_seq(n as nat),
    decreases n,
{
    if n < 10 {
        digit_str(n).to_owned()
    } else {
        let mut s = decimal_string(n / 10);
        s.append(digit_str(n % 10));
        s
    }
}

/// Parse a price text to whole cents; anything not well formed is 0.
pub fn parse_price_cents(s: &str) -> (c: u64)
    ensures
        c as nat == price_cents(s@),
{
    let n = s.unicode_len();
    // locate the first decimal point
    let mut d: usize = 0;
    while d < n && s.get_char(d) != '.'
        invariant
            d <= n,
            n == s@.len(),
            forall|j: int| 0 <= j < d ==> s@[j] != '.',
        decreases n - d,
    {
        d += 1;
    }
    proof {
        lemma_first_dot_at(s@, d as int);
    }
    if d > 15 {
        return 0;
    }
    let fs: usize = if d < n {
        d + 1
    } else {
        n
    };
    proof {
        assert(frac_part(s@) =~= s@.skip(fs as int));
    }
    if d == 0 && fs == n {
        // no digit anywhere
        return 0;
    }
    // the integer part, digit by digit
    let mut acc: u64 = 0;
    let mut i: usize = 0;
    while i < d
        invariant
            i <= d <= 15,
            d <= n == s@.len(),
            first_dot(s@) == d as int,
            forall|j: int| 0 <= j < i ==> is_digit(s@[j]),
            acc as nat == digits_val(s@.take(i as int)),
            acc < pow10(i as nat),
        decreases d - i,
    {
        match char_digit(s.get_char(i)) {
            Some(dg) => {
                proof {
                    assert(s@.take(i + 1).drop_last() =~= s@.take(i as int));
                    lemma_pow10_mono((i + 1) as nat, 15);
                    reveal_with_fuel(pow10, 17);
                    assert(pow10(15) == 1000000000000000nat);
                }
                acc = acc * 10 + (dg as u64);
            },
            None => {
                proof {
                    assert(!is_digit(int_part(s@)[i as int]));
                }
                return 0;
            },
        }
        i += 1;
    }
    proof {
        assert(s@.take(d as int) =~= int_part(s@));
    }
    // the fraction: every character a digit; the first two give the cents,
    // the third rounds
    let mut f1: u64 = 0;
    let mut f2: u64 = 0;
    let mut round_up: u64 = 0;
    let mut k: usize = fs;
    while k < n
        invariant
            fs <= k <= n == s@.len(),
            fs <= n,
            first_dot(s@) == d as int,
            d <= 15,
            fs == if (d as int) < (s@.len() as int) {
                d + 1
            } else {
                n as int
            },
            frac_part(s@) =~= s@.skip(fs as int),
            forall|j: int| fs <= j < k ==> is_digit(s@[j]),
            f1 as nat == if k - fs >= 1 {
                digit_of(s@[fs as int])
            } else {
                0
            },
            f1 < 10,
            f2 as nat == if k - fs >= 2 {
                digit_of(s@[fs + 1])
            } else {
                0
            },
            f2 < 10,
            round_up as nat == if k - fs >= 3 && digit_of(s@[fs + 2]) >= 5 {
                1nat
            } else {
                0nat
            },
        decreases n - k,
    {
        match char_digit(s.get_char(k)) {
            Some(dg) => {
                if k == fs {
                    f1 = dg as u64;
                } else if k == fs + 1 {
                    f2 = dg as u64;
                } else if k == fs + 2 {
                    if dg >= 5 {
                        round_up = 1;
                    }
                }
            },
            None => {
                proof {
                    assert(!is_digit(frac_part(s@)[k - fs]));
                }
                return 0;
            },
        }
        k += 1;
    }
    proof {
        assert(forall|j: int| 0 <= j < int_part(s@).len() ==> is_digit(#[trigger] int_part(s@)[j]));
        assert(forall|j: int|
            0 <= j < frac_part(s@).len() ==> is_digit(#[trigger] frac_part(s@)[j]));
        assert(well_formed_price(s@));
        lemma_pow10_mono(d as nat, 15);
        reveal_with_fuel(pow10, 17);
        assert(pow10(15) == 1000000000000000nat);
    }
    acc * 100 + f1 * 10 + f2 + round_up
}

/// Render a price text as `$` plus the amount with exactly two decimal
/// places; a text that cannot be parsed renders as `$0.00`.
pub fn format_price(s: &str) -> (r: String)
    ensures
        r@ == price_line(s@),
{
    let cents = parse_price_cents(s);
    let dollars = cents / 100;
    let rem = cents % 100;
    let mut out = "$".to_owned();
    let ds = decimal_string(dollars);
    out.append(ds.as_str());
    out.append(".");
    out.append(digit_str(rem / 10));
    out.append(digit_str(rem % 10));
    proof {
        reveal_strlit("$");
        reveal_strlit(".");
        assert(out@ =~= price_line(s@));
    }
    out
}

} // verus!

