//! Saturating sums and truncating division on machine integers.
use vstd::prelude::*;

verus! {

/// The sum clamped to the range of `i128`.
pub open spec fn sat_i128(x: int) -> i128 {
    if x > i128::MAX {
        i128::MAX
    } else if x < i128::MIN {
        i128::MIN
    } else {
        x as i128
    }
}

/// The value clamped to the range of `u64`.
pub open spec fn sat_u64(x: int) -> u64 {
    if x > u64::MAX {
        u64::MAX
    } else if x < 0 {
        0
    } else {
        x as u64
    }
}

/// The value clamped to the range of `u32`.
pub open spec fn sat_u32(x: int) -> u32 {
    if x > u32::MAX {
        u32::MAX
    } else if x < 0 {
        0
    } else {
        x as u32
    }
}

/// The value clamped to the range of `i32`.
pub open spec fn sat_i32(x: int) -> i32 {
    if x > i32::MAX {
        i32::MAX
    } else if x < i32::MIN {
        i32::MIN
    } else {
        x as i32
    }
}

/// Quotient rounded toward zero.
pub open spec fn div_trunc(a: int, b: int) -> int {
    if a >= 0 {
        a / b
    } else {
        -((-a) / b)
    }
}

/// Adds two amounts, stopping at the ends of the range.
pub fn saturating_add_i128(a: i128, b: i128) -> (r: i128)
    ensures
        r == sat_i128(a + b),
{
    match a.checked_add(b) {
        Some(s) => s,
        None => if b > 0 {
            i128::MAX
        } else {
            i128::MIN
        },
    }
}

/// Adds two scores, stopping at the ends of the range.
pub fn saturating_add_i32(a: i32, b: i32) -> (r: i32)
    ensures
        r == sat_i32(a + b),
{
    match a.checked_add(b) {
        Some(s) => s,
        None => if b > 0 {
            i32::MAX
        } else {
            i32::MIN
        },
    }
}

/// Adds two counts, stopping at the end of the range.
pub fn saturating_add_u64(a: u64, b: u64) -> (r: u64)
    ensures
        r == sat_u64(a + b),
{
    a.saturating_add(b)
}

/// Adds two counts, stopping at the end of the range.
pub fn saturating_add_u32(a: u32, b: u32) -> (r: u32)
    ensures
        r == sat_u32(a + b),
{
    a.saturating_add(b)
}

/// A value is clamped to the nearest number in range, and kept where it is in
/// range.
pub proof fn law_clamping(x: int)
    ensures
        -0x8000_0000_0000_0000_0000_0000_0000_0000 <= x
            <= 0x7fff_ffff_ffff_ffff_ffff_ffff_ffff_ffff ==> sat_i128(x) == x,
        x > 0x7fff_ffff_ffff_ffff_ffff_ffff_ffff_ffff ==> sat_i128(x) == i128::MAX,
        x < -0x8000_0000_0000_0000_0000_0000_0000_0000 ==> sat_i128(x) == i128::MIN,
        0 <= x <= 0xffff_ffff_ffff_ffff ==> sat_u64(x) == x,
        x > 0xffff_ffff_ffff_ffff ==> sat_u64(x) == u64::MAX,
        x < 0 ==> sat_u64(x) == 0 && sat_u32(x) == 0,
        0 <= x <= 0xffff_ffff ==> sat_u32(x) == x,
        x > 0xffff_ffff ==> sat_u32(x) == u32::MAX,
        -0x8000_0000 <= x <= 0x7fff_ffff ==> sat_i32(x) == x,
        x > 0x7fff_ffff ==> sat_i32(x) == i32::MAX,
        x < -0x8000_0000 ==> sat_i32(x) == i32::MIN,
{
}

/// A quotient is rounded toward zero.
pub proof fn law_quotient_toward_zero(a: int, b: int)
    requires
        b > 0,
    ensures
        a >= 0 ==> div_trunc(a, b) * b <= a < (div_trunc(a, b) + 1) * b,
        a < 0 ==> (div_trunc(a, b) - 1) * b < a <= div_trunc(a, b) * b,
{
    let x = if a >= 0 {
        a
    } else {
        -a
    };
    let q = x / b;
    assert(q * b <= x < (q + 1) * b) by (nonlinear_arith)
        requires
            b > 0,
            q == x / b,
    ;
    assert((-q) * b == -(q * b)) by (nonlinear_arith);
    assert((-q - 1) * b == -((q + 1) * b)) by (nonlinear_arith);
}

} // verus!
