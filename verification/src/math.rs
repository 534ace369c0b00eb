//! Integer helpers shared by both programs.
use vstd::prelude::*;
use vstd::arithmetic::power::pow;

verus! {

/// `10` raised to `e`, as `u64::pow` computes it.
pub fn pow10(e: u32) -> (r: u64)
    requires
        pow(10, e as nat) <= u64::MAX,
    ensures
        r == pow(10, e as nat),
        r > 0,
{
    let mut r: u64 = 1;
    let mut i: u32 = 0;
    proof {
        vstd::arithmetic::power::lemma_pow0(10);
    }
    while i < e
        invariant
            i <= e,
            r == pow(10, i as nat),
            pow(10, e as nat) <= u64::MAX,
        decreases e - i,
    {
        proof {
            vstd::arithmetic::power::lemma_pow_adds(10, i as nat, 1);
            vstd::arithmetic::power::lemma_pow1(10);
            vstd::arithmetic::power::lemma_pow_increases(10, (i + 1) as nat, e as nat);
        }
        r = r * 10;
        i = i + 1;
    }
    proof {
        vstd::arithmetic::power::lemma_pow_positive(10, e as nat);
    }
    r
}

/// `10` raised to `e` when it fits in `u64`, else `None`.
pub fn checked_pow10(e: u32) -> (r: Option<u64>)
    ensures
        r matches Some(v) ==> v == pow(10, e as nat) && v > 0,
        r is None <==> pow(10, e as nat) > u64::MAX,
{
    let mut r: u64 = 1;
    let mut i: u32 = 0;
    proof {
        vstd::arithmetic::power::lemma_pow0(10);
    }
    while i < e
        invariant
            i <= e,
            r == pow(10, i as nat),
        decreases e - i,
    {
        proof {
            vstd::arithmetic::power::lemma_pow_adds(10, i as nat, 1);
            vstd::arithmetic::power::lemma_pow1(10);
        }
        match r.checked_mul(10) {
            Some(next) => {
                r = next;
            },
            None => {
                proof {
                    vstd::arithmetic::power::lemma_pow_increases(10, (i + 1) as nat, e as nat);
                }
                return None;
            },
        }
        i = i + 1;
    }
    proof {
        vstd::arithmetic::power::lemma_pow_positive(10, e as nat);
    }
    Some(r)
}

/// The product of two `u64` values fits in `u128`.
pub proof fn lemma_u64_product_fits_u128(a: u64, b: u64)
    ensures
        0 <= a * b <= u128::MAX,
{
    assert(0 <= a * b <= u128::MAX) by (nonlinear_arith)
        requires
            0 <= a <= u64::MAX,
            0 <= b <= u64::MAX,
    ;
}

/// The value of a signed 64-bit integer after `as u64`.
pub open spec fn i64_as_u64(x: int) -> int {
    if x >= 0 {
        x
    } else {
        x + 0x1_0000_0000_0000_0000
    }
}

/// `as u64` on a signed integer keeps non-negative values and adds 2^64 to
/// negative ones.
pub fn cast_i64_to_u64(x: i64) -> (r: u64)
    ensures
        r == i64_as_u64(x as int),
{
    let r = x as u64;
    assert(x >= 0 ==> r == x) by (bit_vector)
        requires
            r == x as u64,
    ;
    assert(x < 0 ==> r == x + 0x1_0000_0000_0000_0000) by (bit_vector)
        requires
            r == x as u64,
    ;
    r
}

/// Integer division rounding toward zero, as Rust's `/` on signed integers.
pub open spec fn div_toward_zero(a: int, b: int) -> int {
    if b > 0 {
        if a >= 0 {
            a / b
        } else {
            -((-a) / b)
        }
    } else {
        if a >= 0 {
            -(a / (-b))
        } else {
            (-a) / (-b)
        }
    }
}

/// `a / b` on signed 64-bit integers.
pub fn div_i64(a: i64, b: i64) -> (q: i64)
    requires
        b != 0,
        !(a == i64::MIN && b == -1),
    ensures
        q == div_toward_zero(a as int, b as int),
{
    proof {
        let (x, d) = (a as int, b as int);
        let ax = if x >= 0 { x } else { -x };
        let ad = if d > 0 { d } else { -d };
        vstd::arithmetic::div_mod::lemma_div_is_ordered_by_denominator(ax, 1, ad);
        vstd::arithmetic::div_mod::lemma_div_pos_is_pos(ax, ad);
        if ad >= 2 {
            vstd::arithmetic::div_mod::lemma_div_is_ordered_by_denominator(ax, 2, ad);
        }
    }
    match a.checked_div(b) {
        Some(q) => q,
        None => {
            proof {
                assert(false);
            }
            0
        },
    }
}

} // verus!
