use vstd::prelude::*;

verus! {

/// 10 to the power `n`.
pub open spec fn pow10(n: nat) -> nat
    decreases n,
{
    if n == 0 {
        1
    } else {
        10 * pow10((n - 1) as nat)
    }
}

/// Powers of ten are positive and grow with the exponent.
pub proof fn lemma_pow10_monotone(small: nat, large: nat)
    requires
        small <= large,
    ensures
        1 <= pow10(small) <= pow10(large),
    decreases large,
{
    if small < large {
        lemma_pow10_monotone(small, (large - 1) as nat);
    } else if small > 0 {
        lemma_pow10_monotone((small - 1) as nat, (large - 1) as nat);
    }
}

/// `root` is the square root of `n`, rounded down.
pub open spec fn is_floor_sqrt(n: nat, root: nat) -> bool {
    root * root <= n < (root + 1) * (root + 1)
}

/// The square root of `n`, rounded down.
pub open spec fn floor_sqrt(n: nat) -> nat {
    choose|root: nat| is_floor_sqrt(n, root)
}

/// Every number has a rounded-down square root.
pub proof fn lemma_floor_sqrt_is_root(n: nat)
    ensures
        is_floor_sqrt(n, floor_sqrt(n)),
    decreases n,
{
    if n == 0 {
        assert(0nat * 0nat == 0 && (0nat + 1) * (0nat + 1) == 1) by (nonlinear_arith);
        assert(is_floor_sqrt(0, 0));
    } else {
        lemma_floor_sqrt_is_root((n - 1) as nat);
        let below = floor_sqrt((n - 1) as nat);
        if (below + 1) * (below + 1) <= n {
            assert((below + 1) * (below + 1) < (below + 2) * (below + 2)) by (nonlinear_arith);
            assert(is_floor_sqrt(n, below + 1));
        } else {
            assert(is_floor_sqrt(n, below));
        }
    }
}

/// A number has one rounded-down square root and no other.
pub proof fn lemma_floor_sqrt_unique(n: nat, a: nat, b: nat)
    requires
        is_floor_sqrt(n, a),
        is_floor_sqrt(n, b),
    ensures
        a == b,
{
    if a < b {
        assert((a + 1) * (a + 1) <= b * b) by (nonlinear_arith)
            requires
                a + 1 <= b,
        ;
    } else if b < a {
        assert((b + 1) * (b + 1) <= a * a) by (nonlinear_arith)
            requires
                b + 1 <= a,
        ;
    }
}

/// The square root grows with its argument.
pub proof fn lemma_floor_sqrt_monotone(small: nat, large: nat, a: nat, b: nat)
    requires
        small <= large,
        is_floor_sqrt(small, a),
        is_floor_sqrt(large, b),
    ensures
        a <= b,
{
    if b < a {
        assert((b + 1) * (b + 1) <= a * a) by (nonlinear_arith)
            requires
                b + 1 <= a,
        ;
    }
}

/// 10 to the power `exponent`, or `None` where that exceeds a `u128`.
pub fn checked_pow10(exponent: u32) -> (power: Option<u128>)
    ensures
        match power {
            Some(value) => value == pow10(exponent as nat),
            None => pow10(exponent as nat) > u128::MAX,
        },
{
    let mut value: u128 = 1;
    let mut done: u32 = 0;
    while done < exponent
        invariant
            done <= exponent,
            value == pow10(done as nat),
        decreases exponent - done,
    {
        match value.checked_mul(10) {
            Some(next) => {
                value = next;
            },
            None => {
                proof {
                    lemma_pow10_monotone((done + 1) as nat, exponent as nat);
                }
                return None;
            },
        }
        done = done + 1;
    }
    Some(value)
}

/// The square root of `n`, rounded down.
pub fn isqrt(n: u128) -> (root: u128)
    ensures
        is_floor_sqrt(n as nat, root as nat),
        root == floor_sqrt(n as nat),
        root < 0x1_0000_0000_0000_0000,
{
    let mut low: u128 = 0;
    let mut high: u128 = 0x1_0000_0000_0000_0000;
    proof {
        assert(0x1_0000_0000_0000_0000int * 0x1_0000_0000_0000_0000int
            == 0x1_0000_0000_0000_0000_0000_0000_0000_0000int) by (nonlinear_arith);
    }
    while high - low > 1
        invariant
            low < high <= 0x1_0000_0000_0000_0000,
            low * low <= n < high * high,
        decreases high - low,
    {
        let middle: u128 = low + (high - low) / 2;
        proof {
            assert(middle * middle <= 0xFFFF_FFFF_FFFF_FFFFint * 0xFFFF_FFFF_FFFF_FFFFint)
                by (nonlinear_arith)
                requires
                    0 <= middle <= 0xFFFF_FFFF_FFFF_FFFFint,
            ;
            assert(0xFFFF_FFFF_FFFF_FFFFint * 0xFFFF_FFFF_FFFF_FFFFint
                < 0x1_0000_0000_0000_0000_0000_0000_0000_0000int) by (nonlinear_arith);
        }
        if middle * middle <= n {
            low = middle;
        } else {
            high = middle;
        }
    }
    proof {
        assert(high == low + 1);
        assert(is_floor_sqrt(n as nat, low as nat));
        lemma_floor_sqrt_unique(n as nat, low as nat, floor_sqrt(n as nat));
    }
    low
}

} // verus!
