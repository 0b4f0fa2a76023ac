//! Decimal rendering of array lengths.
//!
//! A large or generic array is described in the template itself, with its
//! length baked in at generation time, so the library needs a verified
//! decimal rendering of an unsigned length.

use vstd::prelude::*;
use crate::template::brace_free;
use crate::template::lemma_brace_free_concat;

verus! {

pub open spec fn decimal_digit(d: nat) -> char {
    if d == 0 {
        '0'
    } else if d == 1 {
        '1'
    } else if d == 2 {
        '2'
    } else if d == 3 {
        '3'
    } else if d == 4 {
        '4'
    } else if d == 5 {
        '5'
    } else if d == 6 {
        '6'
    } else if d == 7 {
        '7'
    } else if d == 8 {
        '8'
    } else {
        '9'
    }
}

/// The usual decimal rendering of `n`, most significant digit first and
/// without leading zeros (`0` itself renders as "0").
pub open spec fn decimal_str(n: nat) -> Seq<char>
    decreases n,
{
    if n < 10 {
        seq![decimal_digit(n)]
    } else {
        decimal_str(n / 10) + seq![decimal_digit(n % 10)]
    }
}

pub proof fn lemma_decimal_str_nonempty(n: nat)
    ensures
        decimal_str(n).len() >= 1,
{
    if n >= 10 {
        assert(decimal_str(n) == decimal_str(n / 10) + seq![decimal_digit(n % 10)]);
    }
}

pub proof fn lemma_decimal_str_brace_free(n: nat)
    ensures
        brace_free(decimal_str(n)),
    decreases n,
{
    if n < 10 {
        assert(decimal_digit(n) != '{');
        assert(forall|i: int| 0 <= i < 1 ==> decimal_str(n)[i] == decimal_digit(n));
    } else {
        lemma_decimal_str_brace_free(n / 10);
        assert(decimal_digit(n % 10) != '{');
        assert(brace_free(seq![decimal_digit(n % 10)]));
        lemma_brace_free_concat(decimal_str(n / 10), seq![decimal_digit(n % 10)]);
    }
}

fn decimal_digit_str(d: u64) -> (r: &'static str)
    requires
        d < 10,
    ensures
        r@ == seq![decimal_digit(d as nat)],
{
    let r: &'static str = if d == 0 {
        "0"
    } else if d == 1 {
        "1"
    } else if d == 2 {
        "2"
    } else if d == 3 {
        "3"
    } else if d == 4 {
        "4"
    } else if d == 5 {
        "5"
    } else if d == 6 {
        "6"
    } else if d == 7 {
        "7"
    } else if d == 8 {
        "8"
    } else {
        "9"
    };
    proof {
        reveal_strlit("0");
        reveal_strlit("1");
        reveal_strlit("2");
        reveal_strlit("3");
        reveal_strlit("4");
        reveal_strlit("5");
        reveal_strlit("6");
        reveal_strlit("7");
        reveal_strlit("8");
        reveal_strlit("9");
        assert(r@ =~= seq![decimal_digit(d as nat)]);
    }
    r
}

/// Appends the decimal rendering of `n` to `s`.
pub fn push_decimal(s: &mut String, n: u64)
    ensures
        final(s)@ == old(s)@ + decimal_str(n as nat),
    decreases n,
{
    if n < 10 {
        s.append(decimal_digit_str(n));
    } else {
        proof {
            assert(n / 10 < n) by (nonlinear_arith)
                requires n >= 10;
        }
        push_decimal(s, n / 10);
        s.append(decimal_digit_str(n % 10));
        proof {
            assert(old(s)@ + decimal_str((n / 10) as nat) + seq![decimal_digit((n % 10) as nat)]
                =~= old(s)@ + decimal_str(n as nat));
        }
    }
}

} // verus!
