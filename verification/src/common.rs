//! General purpose arithmetic on addresses and sizes.

use vstd::prelude::*;
use vstd::arithmetic::power2::{pow2, lemma_pow2_pos};
use vstd::arithmetic::div_mod::{lemma_fundamental_div_mod, lemma_mod_multiples_basic};
use vstd::bits::{low_bits_mask, lemma_usize_low_bits_mask_is_mod, lemma_usize_pow2_no_overflow};

verus! {

/// `a` is a power of two that fits into a `usize`.
pub open spec fn is_power_of_two(a: usize) -> bool {
    exists|k: nat| k < usize::BITS && a as nat == pow2(k)
}

/// The greatest multiple of `alignment` that is not above `value`.
pub open spec fn spec_align_down(value: int, alignment: int) -> int {
    value - value % alignment
}

/// The smallest multiple of `alignment` that is not below `value`.
pub open spec fn spec_align_up(value: int, alignment: int) -> int {
    spec_align_down(value + alignment - 1, alignment)
}

/// A power of two is positive and at most one more than `isize::MAX`.
pub proof fn lemma_power_of_two_bounds(a: usize)
    requires
        is_power_of_two(a),
    ensures
        0 < a,
        a - 1 <= isize::MAX,
{
    let k = choose|k: nat| k < usize::BITS && a as nat == pow2(k);
    lemma_pow2_pos(k);
    vstd::arithmetic::power2::lemma2_to64();
    if k + 1 < usize::BITS {
        vstd::arithmetic::power2::lemma_pow2_strictly_increases(k, (usize::BITS - 1) as nat);
    }
    vstd::layout::signed_int_min_max_values();
}

/// Masking with `alignment - 1` is the remainder modulo a power-of-two `alignment`.
pub proof fn lemma_mask_is_mod(value: usize, alignment: usize)
    requires
        is_power_of_two(alignment),
    ensures
        alignment > 0,
        value & ((alignment - 1) as usize) == value % alignment,
        value & !((alignment - 1) as usize) == value - value % alignment,
{
    let k = choose|k: nat| k < usize::BITS && alignment as nat == pow2(k);
    lemma_pow2_pos(k);
    lemma_usize_pow2_no_overflow(k);
    lemma_usize_low_bits_mask_is_mod(value, k);
    assert(low_bits_mask(k) == alignment - 1);
    let m = (alignment - 1) as usize;
    assert(value & !m == value - (value & m)) by (bit_vector);
}

/// Check if a value is aligned to a given size.
pub fn is_aligned(value: usize, alignment: usize) -> (r: bool)
    requires
        is_power_of_two(alignment),
    ensures
        r == (value % alignment == 0),
{
    proof { lemma_mask_is_mod(value, alignment); }
    (value & (alignment - 1)) == 0
}

/// Align down.
pub fn align_down(value: usize, alignment: usize) -> (r: usize)
    requires
        is_power_of_two(alignment),
    ensures
        r == spec_align_down(value as int, alignment as int),
{
    proof { lemma_mask_is_mod(value, alignment); }
    value & !(alignment - 1)
}

/// Align up.
pub fn align_up(value: usize, alignment: usize) -> (r: usize)
    requires
        is_power_of_two(alignment),
        value + alignment - 1 <= usize::MAX,
    ensures
        r == spec_align_up(value as int, alignment as int),
{
    proof {
        lemma_power_of_two_bounds(alignment);
        lemma_mask_is_mod((value + alignment - 1) as usize, alignment);
    }
    (value + (alignment - 1)) & !(alignment - 1)
}

/// Aligning down gives the greatest aligned value that is not above the input.
pub proof fn lemma_align_down_properties(value: int, alignment: int)
    requires
        alignment > 0,
    ensures
        spec_align_down(value, alignment) % alignment == 0,
        spec_align_down(value, alignment) <= value,
        value < spec_align_down(value, alignment) + alignment,
        value % alignment == 0 <==> spec_align_down(value, alignment) == value,
{
    lemma_fundamental_div_mod(value, alignment);
    lemma_mod_multiples_basic(value / alignment, alignment);
    assert(spec_align_down(value, alignment) == alignment * (value / alignment));
    assert((value / alignment) * alignment == alignment * (value / alignment)) by (nonlinear_arith);
}

/// Aligning up gives the smallest aligned value that is not below the input.
pub proof fn lemma_align_up_properties(value: int, alignment: int)
    requires
        alignment > 0,
    ensures
        spec_align_up(value, alignment) % alignment == 0,
        value <= spec_align_up(value, alignment),
        spec_align_up(value, alignment) < value + alignment,
        value % alignment == 0 <==> spec_align_up(value, alignment) == value,
{
    lemma_align_down_properties(value + alignment - 1, alignment);
    lemma_align_down_properties(value, alignment);
    if value % alignment == 0 {
        lemma_fundamental_div_mod(value, alignment);
        lemma_fundamental_div_mod(value + alignment - 1, alignment);
        assert((value / alignment) * alignment == alignment * (value / alignment))
            by (nonlinear_arith);
        assert(value + alignment - 1 == (value / alignment) * alignment + (alignment - 1));
        vstd::arithmetic::div_mod::lemma_fundamental_div_mod_converse(
            value + alignment - 1, alignment, value / alignment, alignment - 1);
    }
}

/// The number of `unit`-sized blocks needed to hold `size` bytes.
pub open spec fn ceil_div(size: int, unit: int) -> int {
    (size + unit - 1) / unit
}

/// Convert a size into human readable format: the size in the largest binary unit of which it
/// holds at least one, rounded up, and the unit's name.
pub fn size_human_readable_ceil(size: usize) -> (r: (usize, &'static str))
    ensures
        size >= 1024 * 1024 * 1024 ==> r.0 == ceil_div(size as int, 0x4000_0000)
            && r.1@ == "GiB"@,
        1024 * 1024 <= size < 1024 * 1024 * 1024 ==> r.0 == ceil_div(size as int, 0x10_0000)
            && r.1@ == "MiB"@,
        1024 <= size < 1024 * 1024 ==> r.0 == ceil_div(size as int, 0x400) && r.1@ == "KiB"@,
        size < 1024 ==> r.0 == size && r.1@ == "Byte"@,
{
    let kib: usize = 1024;
    let mib: usize = 1024 * 1024;
    let gib: usize = 1024 * 1024 * 1024;

    if (size / gib) > 0 {
        (size / gib + if size % gib == 0 { 0 } else { 1 }, "GiB")
    } else if (size / mib) > 0 {
        (size / mib + if size % mib == 0 { 0 } else { 1 }, "MiB")
    } else if (size / kib) > 0 {
        (size / kib + if size % kib == 0 { 0 } else { 1 }, "KiB")
    } else {
        (size, "Byte")
    }
}

/// The size of the range `[start, end_inclusive]` in units of `2^shift` bytes, rounded down.
pub fn region_size_shifted(start: u64, end_inclusive: u64, shift: u64) -> (r: u64)
    requires
        start <= end_inclusive < u64::MAX,
        shift < 64,
    ensures
        r == (end_inclusive - start + 1) / (pow2(shift as nat) as int),
{
    let size = end_inclusive - start + 1;
    proof { vstd::bits::lemma_u64_shr_is_div(size, shift); }
    size >> shift
}

} // verus!
