//! Alignment arithmetic shared by the allocators.
use vstd::prelude::*;

verus! {

/// `a` is a power of two.
pub open spec fn is_pow2_u64(a: u64) -> bool {
    a > 0 && a & ((a - 1) as u64) == 0
}

/// A power of two is 1 shifted left by fewer than 64 places.
proof fn lemma_pow2_shift(a: u64) -> (n: u64)
    requires
        is_pow2_u64(a),
    ensures
        n < 64,
        a == 1u64 << n,
    decreases a,
{
    if a == 1 {
        assert(1u64 << 0u64 == 1) by (bit_vector);
        0
    } else {
        let h = a >> 1u64;
        assert(h > 0 && h & ((h - 1) as u64) == 0 && h < a && a == h << 1u64) by (bit_vector)
            requires
                a > 0,
                a & ((a - 1) as u64) == 0,
                a != 1,
                h == a >> 1u64,
        ;
        let m = lemma_pow2_shift(h);
        assert(m < 63 && a == 1u64 << ((m + 1) as u64)) by (bit_vector)
            requires
                h == 1u64 << m,
                m < 64,
                a == h << 1u64,
                h == a >> 1u64,
        ;
        (m + 1) as u64
    }
}

/// A value whose bits below a power of two are clear is a multiple of it.
pub proof fn lemma_mask_clear_is_multiple(x: u64, a: u64)
    requires
        is_pow2_u64(a),
        x & ((a - 1) as u64) == 0,
    ensures
        x % a == 0,
{
    let n = lemma_pow2_shift(a);
    vstd::bits::lemma_u64_pow2_no_overflow(n as nat);
    vstd::bits::lemma_u64_shl_is_mul(1, n);
    vstd::bits::lemma_u64_low_bits_mask_is_mod(x, n as nat);
}

/// `x` rounded up to a multiple of `a` (for a power of two `a`).
pub open spec fn align_up_u64_spec(x: u64, a: u64) -> u64 {
    ((x + (a - 1)) as u64) & !((a - 1) as u64)
}

/// Rounding up to a power of two gives the smallest aligned value not below
/// `x`: it is aligned, not below `x`, and less than `x + a`.
pub proof fn lemma_align_up_u64(x: u64, a: u64)
    requires
        is_pow2_u64(a),
        x + (a - 1) <= u64::MAX,
    ensures
        align_up_u64_spec(x, a) >= x,
        align_up_u64_spec(x, a) <= x + (a - 1),
        align_up_u64_spec(x, a) & ((a - 1) as u64) == 0,
{
    assert((((x + (a - 1)) as u64) & !((a - 1) as u64)) >= x) by (bit_vector)
        requires
            a > 0,
            a & ((a - 1) as u64) == 0,
            x + (a - 1) <= u64::MAX,
    ;
    assert((((x + (a - 1)) as u64) & !((a - 1) as u64)) & ((a - 1) as u64) == 0) by (bit_vector);
    assert((((x + (a - 1)) as u64) & !((a - 1) as u64)) <= ((x + (a - 1)) as u64)) by (bit_vector);
}

/// Rounds `x` up to a multiple of the power of two `a`.
pub fn align_up_u64(x: u64, a: u64) -> (r: u64)
    requires
        is_pow2_u64(a),
        x + (a - 1) <= u64::MAX,
    ensures
        r == align_up_u64_spec(x, a),
        r >= x,
        r <= x + (a - 1),
        r & ((a - 1) as u64) == 0,
{
    proof {
        lemma_align_up_u64(x, a);
    }
    (x + (a - 1)) & !(a - 1)
}

/// `x` rounded up to a multiple of the page size 4096.
pub open spec fn page_align_spec(x: int) -> int {
    ((x + 4095) / 4096) * 4096
}

/// Rounds `x` up to a multiple of 4096.
pub fn page_align_usize(x: usize) -> (r: usize)
    requires
        x + 4095 <= usize::MAX,
    ensures
        r == page_align_spec(x as int),
        r % 4096 == 0,
        x <= r < x + 4096,
        r == (((x + 4095) as usize) & !4095usize),
{
    let y: usize = x + 4095;
    assert(y & !4095usize == (y / 4096) * 4096) by (bit_vector);
    assert((y / 4096) * 4096 <= y) by (nonlinear_arith);
    assert((y / 4096) * 4096 > y - 4096) by (nonlinear_arith);
    assert(((y / 4096) * 4096) % 4096 == 0) by (nonlinear_arith);
    y & !4095usize
}

} // verus!
