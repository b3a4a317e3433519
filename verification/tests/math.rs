use leyline::math::WaveRTMath;

#[test]
fn test_calculate_position_basic() {
    let byte_rate = 48000 * 4;
    let frequency = 10_000_000;
    let elapsed_ticks = 10_000_000;
    let buffer_size = 64 * 1024;

    let pos = WaveRTMath::calculate_position(elapsed_ticks, byte_rate, frequency, buffer_size);
    assert_eq!(pos, 192000 % 65536);
}

#[test]
fn test_calculate_position_half_second() {
    let byte_rate = 44100 * 2;
    let frequency = 10_000_000;
    let elapsed_ticks = 5_000_000;
    let buffer_size = 32 * 1024;

    let pos = WaveRTMath::calculate_position(elapsed_ticks, byte_rate, frequency, buffer_size);
    assert_eq!(pos, 44100 % 32768);
}

#[test]
fn calculate_position_non_positive_frequency_is_zero() {
    assert_eq!(WaveRTMath::calculate_position(1_000, 192_000, 0, 4096), 0);
    assert_eq!(WaveRTMath::calculate_position(1_000, 192_000, -5, 4096), 0);
    assert_eq!(WaveRTMath::ticks_to_bytes(1_000, 192_000, 0), 0);
}

#[test]
fn calculate_position_without_ring_is_byte_count() {
    assert_eq!(WaveRTMath::calculate_position(30_000_000, 192_000, 10_000_000, 0), 576_000);
}

#[test]
fn calculate_position_equals_bytes_wrapped() {
    let bytes = WaveRTMath::ticks_to_bytes(123_456_789, 96_000, 3_579_545);
    assert_eq!(bytes, 123_456_789u64 * 96_000 / 3_579_545);
    let pos = WaveRTMath::calculate_position(123_456_789, 96_000, 3_579_545, 4_000);
    assert_eq!(pos, bytes % 4_000);
    assert!(pos < 4_000);
}

#[test]
fn ticks_to_bytes_keeps_low_64_bits() {
    // The widened product exceeds 64 bits; only the low 64 bits remain.
    let bytes = WaveRTMath::ticks_to_bytes(i64::MAX, u32::MAX, 1);
    let exact = (i64::MAX as u128) * (u32::MAX as u128);
    assert_eq!(bytes, exact as u64);
}

#[test]
fn ticks_to_bytes_negative_ticks_sign_extend() {
    // A negative tick count widens by sign extension; with a byte rate of 1
    // the product still fits in 128 bits.
    let bytes = WaveRTMath::ticks_to_bytes(-1, 1, 2);
    assert_eq!(bytes, (u128::MAX / 2) as u64);
    assert_eq!(WaveRTMath::ticks_to_bytes(-4, 0, 2), 0);
}

#[test]
fn zero_ticks_give_position_zero() {
    assert_eq!(WaveRTMath::calculate_position(0, 192_000, 10_000_000, 4096), 0);
}

#[test]
fn byte_count_is_exact_floor_without_drift() {
    // 44.1 kHz stereo 16-bit against a 3.579545 MHz counter: the byte count
    // is the floor of ticks * rate / frequency at every reading.
    let rate: u32 = 176_400;
    let freq: i64 = 3_579_545;
    for t in [1i64, 17, 3_579_544, 3_579_545, 99_999_999, 1_234_567_890_123] {
        let b = WaveRTMath::ticks_to_bytes(t, rate, freq) as u128;
        let x = t as u128 * rate as u128;
        assert!(b * freq as u128 <= x);
        assert!(x < (b + 1) * freq as u128);
    }
}

#[test]
fn byte_count_never_runs_backwards() {
    let mut last = 0;
    for t in (0..2_000_000i64).step_by(99_991) {
        let b = WaveRTMath::ticks_to_bytes(t, 192_000, 10_000_000);
        assert!(b >= last);
        last = b;
    }
}
