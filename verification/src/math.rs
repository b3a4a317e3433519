//! Clock arithmetic for WaveRT: how many bytes a stream has moved after a
//! number of performance-counter ticks, and where that puts it in the ring.
use vstd::prelude::*;

verus! {

/// 2 to the 64th: one more than the largest `u64`.
pub open spec fn two_pow_64() -> int {
    0x1_0000_0000_0000_0000int
}

/// 2 to the 128th: one more than the largest `u128`.
pub open spec fn two_pow_128() -> int {
    0x1_0000_0000_0000_0000_0000_0000_0000_0000int
}

/// The value a tick count takes once widened to 128 unsigned bits: the
/// count itself when it is not negative, otherwise the count plus 2^128
/// (two's-complement sign extension).
pub open spec fn widened_ticks(elapsed_ticks: i64) -> int {
    if elapsed_ticks >= 0 {
        elapsed_ticks as int
    } else {
        elapsed_ticks + two_pow_128()
    }
}

/// Whether the 128-bit product of the widened tick count and the byte rate
/// fits; where the counter frequency is not positive no product is formed.
pub open spec fn product_fits(elapsed_ticks: i64, byte_rate: u32, frequency: i64) -> bool {
    frequency > 0 ==> widened_ticks(elapsed_ticks) * byte_rate <= u128::MAX
}

/// The number of bytes moved in `elapsed_ticks` ticks of a counter running
/// at `frequency` ticks per second, at `byte_rate` bytes per second, kept to
/// its low 64 bits. A counter frequency that is not positive gives 0.
pub open spec fn ticks_to_bytes_spec(elapsed_ticks: i64, byte_rate: u32, frequency: i64) -> int {
    if frequency <= 0 {
        0
    } else {
        ((widened_ticks(elapsed_ticks) * byte_rate) / (frequency as int)) % two_pow_64()
    }
}

/// The byte position in a ring of `buffer_size` bytes: the bytes moved,
/// wrapped at the ring size; a ring size of 0 leaves them unwrapped.
pub open spec fn position_spec(
    elapsed_ticks: i64,
    byte_rate: u32,
    frequency: i64,
    buffer_size: usize,
) -> int {
    let moved = ticks_to_bytes_spec(elapsed_ticks, byte_rate, frequency);
    if buffer_size > 0 {
        moved % (buffer_size as int)
    } else {
        moved
    }
}

/// Widens a tick count to 128 bits as `as` does, sign extension included.
fn widen_ticks(elapsed_ticks: i64) -> (wide: u128)
    ensures
        wide == widened_ticks(elapsed_ticks),
{
    let wide = elapsed_ticks as u128;
    assert(elapsed_ticks >= 0 ==> wide == elapsed_ticks) by (bit_vector)
        requires
            wide == elapsed_ticks as u128,
    ;
    assert(elapsed_ticks < 0 ==> wide == u128::MAX - ((-(elapsed_ticks + 1)) as u128)) by (
    bit_vector)
        requires
            wide == elapsed_ticks as u128,
    ;
    wide
}

/// Keeps the low 64 bits of a 128-bit count, as `as` does.
fn low_64_bits(total: u128) -> (low: u64)
    ensures
        low == (total as int) % two_pow_64(),
{
    let low = total as u64;
    assert(low == total % 0x1_0000_0000_0000_0000u128) by (bit_vector)
        requires
            low == total as u64,
    ;
    low
}

/// Pure position arithmetic for WaveRT streams.
pub struct WaveRTMath;

impl WaveRTMath {
    /// Returns the byte position in a ring of `buffer_size` bytes after
    /// `elapsed_ticks` ticks of a counter running at `frequency`, at
    /// `byte_rate` bytes per second.
    pub fn calculate_position(
        elapsed_ticks: i64,
        byte_rate: u32,
        frequency: i64,
        buffer_size: usize,
    ) -> (position: u64)
        requires
            product_fits(elapsed_ticks, byte_rate, frequency),
        ensures
            position == position_spec(elapsed_ticks, byte_rate, frequency, buffer_size),
    {
        if frequency <= 0 {
            proof {
                if buffer_size > 0 {
                    vstd::arithmetic::div_mod::lemma_small_mod(0, buffer_size as nat);
                }
            }
            return 0;
        }
        let wide = widen_ticks(elapsed_ticks);
        let total_bytes = (wide * (byte_rate as u128)) / (frequency as u128);
        let mut position = low_64_bits(total_bytes);
        if buffer_size > 0 {
            position = position % (buffer_size as u64);
        }
        position
    }

    /// Returns the number of bytes moved in `elapsed_ticks` ticks of a
    /// counter running at `frequency`, at `byte_rate` bytes per second.
    pub fn ticks_to_bytes(elapsed_ticks: i64, byte_rate: u32, frequency: i64) -> (bytes: u64)
        requires
            product_fits(elapsed_ticks, byte_rate, frequency),
        ensures
            bytes == ticks_to_bytes_spec(elapsed_ticks, byte_rate, frequency),
    {
        if frequency <= 0 {
            return 0;
        }
        let wide = widen_ticks(elapsed_ticks);
        low_64_bits((wide * (byte_rate as u128)) / (frequency as u128))
    }
}

/// The position is the byte count wrapped at the ring size, and it always
/// lies inside the ring.
pub proof fn law_position_wraps_byte_count(
    elapsed_ticks: i64,
    byte_rate: u32,
    frequency: i64,
    buffer_size: usize,
)
    requires
        buffer_size > 0,
    ensures
        position_spec(elapsed_ticks, byte_rate, frequency, buffer_size) == ticks_to_bytes_spec(
            elapsed_ticks,
            byte_rate,
            frequency,
        ) % (buffer_size as int),
        0 <= position_spec(elapsed_ticks, byte_rate, frequency, buffer_size) < buffer_size,
{
}

/// A counter that has not moved gives position 0, and a counter frequency
/// that is not positive gives 0 whatever the other inputs.
pub proof fn law_zero_ticks_or_frequency(
    elapsed_ticks: i64,
    byte_rate: u32,
    frequency: i64,
    buffer_size: usize,
)
    ensures
        frequency <= 0 ==> position_spec(elapsed_ticks, byte_rate, frequency, buffer_size) == 0,
        elapsed_ticks == 0 ==> position_spec(elapsed_ticks, byte_rate, frequency, buffer_size)
            == 0,
{
    if elapsed_ticks == 0 || frequency <= 0 {
        if frequency > 0 {
            vstd::arithmetic::mul::lemma_mul_basics(byte_rate as int);
            assert(widened_ticks(elapsed_ticks) * byte_rate == 0);
            vstd::arithmetic::div_mod::lemma_small_mod(0, frequency as nat);
            assert(0int / (frequency as int) == 0) by (nonlinear_arith)
                requires
                    frequency > 0,
            ;
        }
        assert(ticks_to_bytes_spec(elapsed_ticks, byte_rate, frequency) == 0);
        if buffer_size > 0 {
            vstd::arithmetic::div_mod::lemma_small_mod(0, buffer_size as nat);
        }
    }
}

/// With a non-negative tick count the product always fits in 128 bits, so
/// the arithmetic is defined for every such input.
pub proof fn law_nonnegative_ticks_fit(elapsed_ticks: i64, byte_rate: u32, frequency: i64)
    requires
        elapsed_ticks >= 0,
    ensures
        product_fits(elapsed_ticks, byte_rate, frequency),
{
    assert(elapsed_ticks * byte_rate <= 0x7fff_ffff_ffff_ffff * 0xffff_ffffint) by (nonlinear_arith)
        requires
            0 <= elapsed_ticks <= 0x7fff_ffff_ffff_ffff,
            0 <= byte_rate <= 0xffff_ffff,
    ;
}


/// No drift: while the byte count stays below 2^64, it is exactly the
/// whole number of bytes moved, the floor of ticks times rate over
/// frequency, so it is never off by more than the fraction of one byte.
pub proof fn law_byte_count_is_exact_floor(elapsed_ticks: i64, byte_rate: u32, frequency: i64)
    requires
        elapsed_ticks >= 0,
        frequency > 0,
        (elapsed_ticks * byte_rate) / (frequency as int) < two_pow_64(),
    ensures
        ticks_to_bytes_spec(elapsed_ticks, byte_rate, frequency) * frequency <= elapsed_ticks
            * byte_rate,
        elapsed_ticks * byte_rate < (ticks_to_bytes_spec(elapsed_ticks, byte_rate, frequency)
            + 1) * frequency,
{
    let x = elapsed_ticks * byte_rate;
    let f = frequency as int;
    assert(elapsed_ticks * byte_rate >= 0) by (nonlinear_arith)
        requires
            elapsed_ticks >= 0,
            byte_rate >= 0,
    ;
    vstd::arithmetic::div_mod::lemma_fundamental_div_mod(x, f);
    assert(x / f >= 0) by {
        vstd::arithmetic::div_mod::lemma_div_is_ordered(0, x, f);
    }
    vstd::arithmetic::div_mod::lemma_small_mod((x / f) as nat, two_pow_64() as nat);
    assert(0 <= x % f < f) by {
        vstd::arithmetic::div_mod::lemma_mod_pos_bound(x, f);
    }
    let q = x / f;
    assert(q * f == f * q) by (nonlinear_arith);
    assert((q + 1) * f == q * f + f) by (nonlinear_arith);
}

/// The byte count never runs backwards: more elapsed ticks never give
/// fewer bytes, as long as the count stays below 2^64.
pub proof fn law_byte_count_monotonic(t1: i64, t2: i64, byte_rate: u32, frequency: i64)
    requires
        0 <= t1 <= t2,
        frequency > 0,
        (t2 * byte_rate) / (frequency as int) < two_pow_64(),
    ensures
        ticks_to_bytes_spec(t1, byte_rate, frequency) <= ticks_to_bytes_spec(
            t2,
            byte_rate,
            frequency,
        ),
{
    let f = frequency as int;
    vstd::arithmetic::mul::lemma_mul_inequality(t1 as int, t2 as int, byte_rate as int);
    assert(t1 * byte_rate >= 0) by (nonlinear_arith)
        requires
            t1 >= 0,
            byte_rate >= 0,
    ;
    vstd::arithmetic::div_mod::lemma_div_is_ordered(t1 * byte_rate, t2 * byte_rate, f);
    vstd::arithmetic::div_mod::lemma_div_is_ordered(0, t1 * byte_rate, f);
    vstd::arithmetic::div_mod::lemma_small_mod(((t1 * byte_rate) / f) as nat, two_pow_64() as nat);
    vstd::arithmetic::div_mod::lemma_small_mod(((t2 * byte_rate) / f) as nat, two_pow_64() as nat);
}

} // verus!
