//! Decimal widths of the numeric fields shown in the long format.

use vstd::prelude::*;

verus! {

/// Number of decimal digits needed to write `n`.
pub open spec fn digits(n: nat) -> nat
    decreases n,
{
    if n < 10 {
        1
    } else {
        1 + digits(n / 10)
    }
}

/// A `u64` never needs more than twenty decimal digits.
pub proof fn lemma_digits_bound(n: nat)
    requires
        n <= u64::MAX,
    ensures
        1 <= digits(n) <= 20,
{
    reveal_with_fuel(digits, 21);
}

/// Width, in characters, of `n` written in decimal.
pub fn digit_width(n: u64) -> (width: usize)
    ensures
        width == digits(n as nat),
{
    let mut rest: u64 = n;
    let mut width: usize = 1;
    proof {
        lemma_digits_bound(n as nat);
    }
    while rest >= 10
        invariant
            1 <= width,
            width + digits(rest as nat) == 1 + digits(n as nat),
            digits(n as nat) <= 20,
        decreases rest,
    {
        rest = rest / 10;
        width = width + 1;
    }
    width
}

} // verus!
