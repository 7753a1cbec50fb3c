use vstd::prelude::*;

verus! {

/// The Baby Bear prime, `15 * 2^27 + 1`.
pub const P: u32 = 2013265921;

/// Field addition on canonical representatives.
pub open spec fn add_spec(a: int, b: int) -> int {
    (a + b) % (P as int)
}

/// Field subtraction on canonical representatives.
pub open spec fn sub_spec(a: int, b: int) -> int {
    (a - b + P as int) % (P as int)
}

/// Field multiplication on canonical representatives.
pub open spec fn mul_spec(a: int, b: int) -> int {
    (a * b) % (P as int)
}

/// `a^e` in the field.
pub open spec fn pow_spec(a: int, e: nat) -> int
    decreases e,
{
    if e == 0 {
        1
    } else {
        mul_spec(pow_spec(a, (e - 1) as nat), a)
    }
}

/// A canonical field element.
pub open spec fn is_canonical(a: u32) -> bool {
    a < P
}

pub fn add_mod(a: u32, b: u32) -> (r: u32)
    requires
        is_canonical(a),
        is_canonical(b),
    ensures
        r as int == add_spec(a as int, b as int),
        is_canonical(r),
{
    ((a as u64 + b as u64) % (P as u64)) as u32
}

pub fn sub_mod(a: u32, b: u32) -> (r: u32)
    requires
        is_canonical(a),
        is_canonical(b),
    ensures
        r as int == sub_spec(a as int, b as int),
        is_canonical(r),
{
    ((a as u64 + P as u64 - b as u64) % (P as u64)) as u32
}

pub fn mul_mod(a: u32, b: u32) -> (r: u32)
    requires
        is_canonical(a),
        is_canonical(b),
    ensures
        r as int == mul_spec(a as int, b as int),
        is_canonical(r),
{
    assert((a as u64) * (b as u64) <= 0xffff_ffffu64 * 0xffff_ffffu64) by (nonlinear_arith);
    ((a as u64 * b as u64) % (P as u64)) as u32
}

/// `a^e` by repeated multiplication.
pub fn exp_u64(a: u32, e: u64) -> (r: u32)
    requires
        is_canonical(a),
    ensures
        r as int == pow_spec(a as int, e as nat),
        is_canonical(r),
{
    let mut acc: u32 = 1;
    let mut k: u64 = 0;
    while k < e
        invariant
            k <= e,
            is_canonical(a),
            is_canonical(acc),
            acc as int == pow_spec(a as int, k as nat),
        decreases e - k,
    {
        acc = mul_mod(acc, a);
        k = k + 1;
    }
    acc
}

} // verus!
