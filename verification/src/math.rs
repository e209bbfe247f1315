//! Integer helpers: power-of-two alignment and logarithms.

use vstd::arithmetic::div_mod::*;
use vstd::arithmetic::mul::*;
use vstd::arithmetic::power2::*;
use vstd::bits::*;
use vstd::layout::unsigned_int_max_values;
use vstd::prelude::*;

verus! {

/// The smallest multiple of `m` that is not below `x` (for `m > 0`, `x >= 0`).
pub open spec fn round_up(x: int, m: int) -> int {
    ((x + m - 1) / m) * m
}

/// `x` rounded up to a multiple of `2^n`.
pub open spec fn spec_align_power_of_two(x: nat, n: nat) -> int {
    round_up(x as int, pow2(n) as int)
}

/// `x` divided by `2^n`, rounded up.
pub open spec fn spec_align_power_of_two_and_shift(x: nat, n: nat) -> int {
    (x + pow2(n) - 1) / (pow2(n) as int)
}

/// `round_up(x, m)` is the least multiple of `m` that is at least `x`.
pub proof fn lemma_round_up(x: int, m: int)
    requires
        x >= 0,
        m > 0,
    ensures
        round_up(x, m) % m == 0,
        x <= round_up(x, m) < x + m,
        round_up(x, m) >= 0,
        round_up(x, m) == ((x + m - 1) / m) * m,
        forall|k: int| #![trigger (k * m)] k * m >= x ==> k * m >= round_up(x, m),
{
    let q = (x + m - 1) / m;
    lemma_fundamental_div_mod(x + m - 1, m);
    lemma_mod_bound(x + m - 1, m);
    lemma_mul_is_commutative(q, m);
    lemma_mod_multiples_basic(q, m);
    lemma_div_pos_is_pos(x + m - 1, m);
    lemma_mul_nonnegative(q, m);
    assert forall|k: int| #![trigger (k * m)] k * m >= x implies k * m >= round_up(x, m) by {
        if k < q {
            lemma_mul_inequality(k + 1, q, m);
            lemma_mul_is_distributive_add_other_way(m, k, 1);
        }
        if k >= q {
            lemma_mul_inequality(q, k, m);
        }
    }
}

/// `2^n` computed by a shift.
pub fn pow2_usize(n: usize) -> (r: usize)
    requires
        n < usize::BITS,
    ensures
        r == pow2(n as nat),
        r > 0,
{
    proof {
        lemma_usize_pow2_no_overflow(n as nat);
        lemma_usize_shl_is_mul(1, n);
        lemma_pow2_pos(n as nat);
    }
    1usize << n
}

/// Rounds `x` up to a multiple of `2^n`.
pub fn align_power_of_two(x: usize, n: usize) -> (r: usize)
    requires
        n < usize::BITS,
        x + pow2(n as nat) - 1 <= usize::MAX,
    ensures
        r == spec_align_power_of_two(x as nat, n as nat),
        (r as nat) % pow2(n as nat) == 0,
        x <= r < x + pow2(n as nat),
{
    let m = pow2_usize(n);
    proof {
        lemma_round_up(x as int, m as int);
    }
    (x + (m - 1)) / m * m
}

/// Divides `x` by `2^n`, rounding up.
pub fn align_power_of_two_and_shift(x: usize, n: usize) -> (r: usize)
    requires
        n < usize::BITS,
        x + pow2(n as nat) - 1 <= usize::MAX,
    ensures
        r == spec_align_power_of_two_and_shift(x as nat, n as nat),
        r * pow2(n as nat) == spec_align_power_of_two(x as nat, n as nat),
{
    let m = pow2_usize(n);
    proof {
        lemma_round_up(x as int, m as int);
    }
    (x + (m - 1)) / m
}

/// The position of the highest set bit of `x`, that is `floor(log2(x))`.
pub open spec fn is_floor_log2(x: nat, k: nat) -> bool {
    pow2(k) <= x < pow2(k + 1)
}

/// `floor(log2(x))`, taken as 0 for `x <= 1`.
pub open spec fn spec_floor_log2(x: nat) -> nat
    decreases x,
{
    if x <= 1 {
        0
    } else {
        1 + spec_floor_log2(x / 2)
    }
}

/// `floor(log2(x))` for a positive `x`.
pub fn floor_log2(x: usize) -> (k: usize)
    requires
        x > 0,
    ensures
        is_floor_log2(x as nat, k as nat),
        k == spec_floor_log2(x as nat),
        k < usize::BITS,
{
    let mut k: usize = 0;
    let mut v: usize = x;
    proof {
        lemma2_to64();
    }
    while v > 1
        invariant
            1 <= v,
            v == x as nat / pow2(k as nat),
            pow2(k as nat) <= x,
            spec_floor_log2(x as nat) == k + spec_floor_log2(v as nat),
        decreases v,
    {
        proof {
            lemma_pow2_pos(k as nat);
            lemma_div_denominator(x as int, pow2(k as nat) as int, 2);
            lemma_pow2_adds(k as nat, 1);
            lemma2_to64();
            lemma_fundamental_div_mod(x as int, pow2(k as nat) as int);
            lemma_fundamental_div_mod(v as int, 2);
            lemma_mul_inequality(2, v as int, pow2(k as nat) as int);
            lemma_mul_is_commutative(2, pow2(k as nat) as int);
            lemma_mul_is_commutative(v as int, pow2(k as nat) as int);
            lemma_pow2_bounded_by_usize(k as nat, x);
        }
        v = v / 2;
        k = k + 1;
    }
    proof {
        lemma_pow2_pos(k as nat);
        lemma_fundamental_div_mod(x as int, pow2(k as nat) as int);
        lemma_pow2_adds(k as nat, 1);
        lemma2_to64();
        lemma_mul_is_commutative(v as int, pow2(k as nat) as int);
        lemma_pow2_bounded_by_usize(k as nat, x);
    }
    k
}

/// A power of two that fits below a `usize` value has an exponent below the word size.
pub proof fn lemma_pow2_bounded_by_usize(k: nat, x: usize)
    requires
        pow2(k) <= x,
    ensures
        k < usize::BITS,
{
    unsigned_int_max_values();
    if k >= usize::BITS {
        if k > usize::BITS { lemma_pow2_strictly_increases(usize::BITS as nat, k); }
    }
}

} // verus!
