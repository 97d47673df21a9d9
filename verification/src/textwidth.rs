//! Display-width and digit-count measurement used by the column sizing.

use vstd::prelude::*;

verus! {

/// The displayed column width of a sequence of characters, as the terminal
/// renders it.  The value is determined by the characters alone; it is given
/// meaning only through `display_width` below.
pub uninterp spec fn display_width_of(s: Seq<char>) -> nat;

/// Relies on `unicode_width::UnicodeWidthStr::width`: the displayed width of
/// a string in terminal columns, by the UAX #11 tables, a pure function of
/// the string's characters.
#[verifier::external_body]
pub fn display_width(s: &str) -> (r: usize)
    ensures
        r == display_width_of(s@),
{
    unicode_width::UnicodeWidthStr::width(s)
}

/// Number of digits in the decimal rendering of `n`; zero renders as "0".
pub open spec fn dec_digits(n: nat) -> nat
    decreases n,
{
    if n < 10 {
        1
    } else {
        1 + dec_digits(n / 10)
    }
}

pub open spec fn pow10(k: nat) -> nat
    decreases k,
{
    if k == 0 {
        1
    } else {
        10 * pow10((k - 1) as nat)
    }
}

proof fn lemma_dec_digits_below_pow10(n: nat, k: nat)
    requires
        1 <= k,
        n < pow10(k),
    ensures
        dec_digits(n) <= k,
    decreases k,
{
    if n >= 10 {
        assert(pow10(0) == 1);
        assert(pow10(1) == 10);
        if k == 1 {
            assert(false);
        } else {
            assert(pow10(k) == 10 * pow10((k - 1) as nat));
            assert(n / 10 < pow10((k - 1) as nat)) by (nonlinear_arith)
                requires
                    n < 10 * pow10((k - 1) as nat),
            ;
            lemma_dec_digits_below_pow10(n / 10, (k - 1) as nat);
        }
    }
}

/// Every `u64` has at most 20 decimal digits.
pub proof fn lemma_u64_dec_digits(n: u64)
    ensures
        1 <= dec_digits(n as nat) <= 20,
{
    assert(pow10(0) == 1);
    assert(pow10(1) == 10);
    assert(pow10(2) == 100);
    assert(pow10(3) == 1000);
    assert(pow10(4) == 10000);
    assert(pow10(5) == 100000);
    assert(pow10(6) == 1000000);
    assert(pow10(7) == 10000000);
    assert(pow10(8) == 100000000);
    assert(pow10(9) == 1000000000);
    assert(pow10(10) == 10000000000);
    assert(pow10(11) == 100000000000);
    assert(pow10(12) == 1000000000000);
    assert(pow10(13) == 10000000000000);
    assert(pow10(14) == 100000000000000);
    assert(pow10(15) == 1000000000000000);
    assert(pow10(16) == 10000000000000000);
    assert(pow10(17) == 100000000000000000);
    assert(pow10(18) == 1000000000000000000);
    assert(pow10(19) == 10000000000000000000);
    assert(pow10(20) == 100000000000000000000);
    lemma_dec_digits_below_pow10(n as nat, 20);
}

/// Count of digits in the decimal rendering of `n`, as the listing prints it.
pub fn digit_count(n: u64) -> (r: usize)
    ensures
        r == dec_digits(n as nat),
        1 <= r <= 20,
{
    proof {
        lemma_u64_dec_digits(n);
    }
    let mut m = n;
    let mut d: usize = 1;
    while m >= 10
        invariant
            1 <= d,
            d + dec_digits(m as nat) == 1 + dec_digits(n as nat),
            dec_digits(n as nat) <= 20,
        decreases m,
    {
        m = m / 10;
        d = d + 1;
    }
    d
}

/// The larger of two widths.
pub fn width_max(a: usize, b: usize) -> (r: usize)
    ensures
        r == if a < b {
            b as int
        } else {
            a as int
        },
{
    if a < b {
        b
    } else {
        a
    }
}

} // verus!
