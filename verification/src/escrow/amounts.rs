//! Token amounts in whole tokens and in a mint's smallest units.

use vstd::prelude::*;
use vstd::arithmetic::power::{pow, lemma_pow_adds, lemma_pow1, lemma_pow_strictly_increases};

verus! {

/// `10` raised to `e`, for exponents whose power fits in a `u64`.
pub fn pow10(e: u32) -> (r: u64)
    requires
        pow(10, e as nat) <= u64::MAX,
    ensures
        r == pow(10, e as nat),
{
    let mut r: u64 = 1;
    let mut i: u32 = 0;
    proof { assert(pow(10, 0) == 1) by { reveal(pow); } }
    while i < e
        invariant
            i <= e,
            r == pow(10, i as nat),
            pow(10, e as nat) <= u64::MAX,
        decreases e - i,
    {
        proof {
            lemma_pow_adds(10, i as nat, 1);
            lemma_pow1(10);
            if i + 1 < e {
                lemma_pow_strictly_increases(10, (i + 1) as nat, e as nat);
            }
        }
        r = r * 10;
        i = i + 1;
    }
    r
}

/// The amount in smallest units of `full_amount` whole tokens of a mint with
/// `decimals` decimals: `full_amount * 10^decimals`. An amount that does not
/// fit in a `u64` overflows and does not return, so it is left out.
pub fn to_min_unit(full_amount: u64, decimals: u8) -> (r: u64)
    requires
        pow(10, decimals as nat) <= u64::MAX,
        full_amount * pow(10, decimals as nat) <= u64::MAX,
    ensures
        r == full_amount * pow(10, decimals as nat),
{
    let p = pow10(decimals as u32);
    full_amount * p
}

} // verus!
