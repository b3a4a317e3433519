use leyline::shared::{
    ctl_code, SharedParameters, FILE_ANY_ACCESS, FILE_DEVICE_UNKNOWN, IOCTL_LEYLINE_GET_STATUS,
    IOCTL_LEYLINE_MAP_BUFFER, IOCTL_LEYLINE_MAP_PARAMS, IOCTL_LEYLINE_SET_CONFIG, METHOD_BUFFERED,
};

#[test]
fn ioctl_codes_match_ctl_code() {
    assert_eq!(ctl_code(FILE_DEVICE_UNKNOWN, 0x800, METHOD_BUFFERED, FILE_ANY_ACCESS), IOCTL_LEYLINE_SET_CONFIG);
    assert_eq!(ctl_code(FILE_DEVICE_UNKNOWN, 0x801, METHOD_BUFFERED, FILE_ANY_ACCESS), IOCTL_LEYLINE_GET_STATUS);
    assert_eq!(ctl_code(FILE_DEVICE_UNKNOWN, 0x802, METHOD_BUFFERED, FILE_ANY_ACCESS), IOCTL_LEYLINE_MAP_BUFFER);
    assert_eq!(ctl_code(FILE_DEVICE_UNKNOWN, 0x803, METHOD_BUFFERED, FILE_ANY_ACCESS), IOCTL_LEYLINE_MAP_PARAMS);
    assert_eq!(IOCTL_LEYLINE_GET_STATUS, 0x0022_2004);
}

#[test]
fn ctl_code_fields_round_trip() {
    let code = ctl_code(0x1234, 0xABC, 2, 3);
    assert_eq!(code, 0x1234 * 0x10000 + 3 * 0x4000 + 0xABC * 4 + 2);
    assert_eq!(code >> 16, 0x1234);
    assert_eq!((code >> 14) & 3, 3);
    assert_eq!((code >> 2) & 0xFFF, 0xABC);
    assert_eq!(code & 3, 2);
}

#[test]
fn ctl_code_drops_bits_past_31() {
    assert_eq!(ctl_code(0x1_0022, 0, 0, 0), 0x0022_0000);
}

#[test]
fn shared_parameters_hold_their_fields() {
    let p = SharedParameters {
        master_gain_bits: 1.0f32.to_bits(),
        peak_l_bits: 0,
        peak_r_bits: 0,
        qpc_frequency: 10_000_000,
        render_start_qpc: 5,
        capture_start_qpc: 6,
        buffer_size: 4096,
        byte_rate: 192_000,
    };
    assert_eq!(f32::from_bits(p.master_gain_bits), 1.0);
    assert_eq!(p.buffer_size, 4096);
}
