//! Powers of two, which pace how often a growing counter is reported.

use vstd::arithmetic::power2::{is_pow2, pow2};
use vstd::prelude::*;

verus! {

/// Whether `n` is a power of two.
pub fn is_power_of_two(n: u64) -> (r: bool)
    ensures
        r == is_pow2(n as int),
{
    proof {
        lemma_single_bit(n);
    }
    n != 0 && n & (n - 1) == 0
}

/// A positive `n` is a power of two exactly when clearing its lowest set bit
/// leaves nothing.
proof fn lemma_single_bit(n: u64)
    ensures
        is_pow2(n as int) <==> n != 0 && n & ((n - 1) as u64) == 0,
    decreases n,
{
    reveal(is_pow2);
    if n > 1 {
        let half = n / 2;
        lemma_single_bit(half);
        assert(n > 1 && half == n / 2 ==> half != 0 && (n & ((n - 1) as u64) == 0 <==> n % 2 == 0
            && half & ((half - 1) as u64) == 0)) by (bit_vector);
    } else {
        assert(n == 1 ==> n & ((n - 1) as u64) == 0) by (bit_vector);
    }
}

/// vstd's recursive notion of a power of two, with the exponent made explicit.
pub proof fn lemma_is_some_power(n: nat)
    ensures
        is_pow2(n as int) <==> exists|k: nat| n == #[trigger] pow2(k),
{
    vstd::arithmetic::power2::is_pow2_equiv(n as int);
    if is_pow2(n as int) {
        let k = choose|k: nat| vstd::arithmetic::power::pow(2, k) == n as int;
        vstd::arithmetic::power2::lemma_pow2(k);
        assert(n == pow2(k));
    }
    if exists|k: nat| n == #[trigger] pow2(k) {
        let k = choose|k: nat| n == #[trigger] pow2(k);
        vstd::arithmetic::power2::lemma_pow2(k);
        assert(vstd::arithmetic::power::pow(2, k) == n as int);
    }
}

/// How many of the numbers from 1 to `n` are powers of two.
pub open spec fn powers_up_to(n: nat) -> nat
    decreases n,
{
    if n == 0 {
        0
    } else {
        powers_up_to((n - 1) as nat) + if is_pow2(n as int) {
            1nat
        } else {
            0nat
        }
    }
}

/// Powers of two are sparse: those up to `n` number one more than the binary
/// logarithm of `n`, rounded down.
pub proof fn law_powers_are_sparse(n: nat)
    requires
        n >= 1,
    ensures
        powers_up_to(n) >= 1,
        pow2((powers_up_to(n) - 1) as nat) <= n,
        n < pow2(powers_up_to(n)),
    decreases n,
{
    vstd::arithmetic::power2::lemma2_to64();
    vstd::arithmetic::power2::is_pow2_equiv(n as int);
    let before = powers_up_to((n - 1) as nat);
    if n == 1 {
        reveal(is_pow2);
        assert(powers_up_to(0) == 0);
    } else {
        law_powers_are_sparse((n - 1) as nat);
        vstd::arithmetic::power2::lemma_pow2_strictly_increases(before, before + 1);
        vstd::arithmetic::power2::lemma_pow2(before);
        if is_pow2(n as int) {
            let k = choose|k: nat| vstd::arithmetic::power::pow(2, k) == n as int;
            vstd::arithmetic::power2::lemma_pow2(k);
            if k < before {
                lemma_pow2_ordered(k, (before - 1) as nat);
            } else if k > before {
                lemma_pow2_ordered(before + 1, k);
            }
        }
    }
}

/// Up to a number below `2^k` there are at most `k` powers of two.
pub proof fn lemma_powers_below(n: nat, k: nat)
    requires
        n < pow2(k),
    ensures
        powers_up_to(n) <= k,
{
    if n >= 1 {
        law_powers_are_sparse(n);
        if powers_up_to(n) > k {
            lemma_pow2_ordered(k, (powers_up_to(n) - 1) as nat);
        }
    }
}

/// Powers of two grow with their exponents.
proof fn lemma_pow2_ordered(a: nat, b: nat)
    requires
        a <= b,
    ensures
        pow2(a) <= pow2(b),
{
    if a < b {
        vstd::arithmetic::power2::lemma_pow2_strictly_increases(a, b);
    }
}

} // verus!
