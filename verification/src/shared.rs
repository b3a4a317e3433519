//! Definitions shared between the driver, the processing object and the
//! support app: I/O control codes and the shared parameter block.
use vstd::prelude::*;

verus! {

/// FILE_DEVICE_UNKNOWN.
pub const FILE_DEVICE_UNKNOWN: u32 = 0x00000022;

/// METHOD_BUFFERED.
pub const METHOD_BUFFERED: u32 = 0;

/// FILE_ANY_ACCESS.
pub const FILE_ANY_ACCESS: u32 = 0;

/// The control code that CTL_CODE builds: the device type in bits 16 and
/// up, the access in bits 14-15, the function in bits 2-13 and the method
/// in bits 0-1 (each field is shifted and the results are OR-ed, so bits
/// shifted past bit 31 are lost).
pub open spec fn ctl_code_spec(device_type: u32, function: u32, method: u32, access: u32) -> u32 {
    ((device_type << 16u32) | (access << 14u32) | (function << 2u32) | method) as u32
}

/// Whether each field fits its slot of the control code.
pub open spec fn ctl_fields_fit(device_type: u32, function: u32, method: u32, access: u32) -> bool {
    &&& device_type < 0x10000
    &&& access < 4
    &&& function < 0x1000
    &&& method < 4
}

/// Builds an I/O control code as the CTL_CODE macro does.
pub fn ctl_code(device_type: u32, function: u32, method: u32, access: u32) -> (code: u32)
    ensures
        code == ctl_code_spec(device_type, function, method, access),
        ctl_fields_fit(device_type, function, method, access) ==> code == device_type * 0x10000
            + access * 0x4000 + function * 4 + method,
{
    let code = (device_type << 16u32) | (access << 14u32) | (function << 2u32) | method;
    assert(ctl_fields_fit(device_type, function, method, access) ==> code == device_type
        * 0x10000 + access * 0x4000 + function * 4 + method) by (bit_vector)
        requires
            code == (device_type << 16u32) | (access << 14u32) | (function << 2u32) | method,
    ;
    code
}

/// The device type field of a control code.
pub open spec fn ctl_device_type(code: u32) -> u32 {
    (code >> 16u32) as u32
}

/// The access field of a control code.
pub open spec fn ctl_access(code: u32) -> u32 {
    ((code >> 14u32) & 3u32) as u32
}

/// The function field of a control code.
pub open spec fn ctl_function(code: u32) -> u32 {
    ((code >> 2u32) & 0xfffu32) as u32
}

/// The method field of a control code.
pub open spec fn ctl_method(code: u32) -> u32 {
    (code & 3u32) as u32
}

/// A control code built from fields that fit their slots gives every field
/// back, so distinct field tuples give distinct codes.
pub proof fn law_ctl_code_fields_round_trip(
    device_type: u32,
    function: u32,
    method: u32,
    access: u32,
)
    requires
        ctl_fields_fit(device_type, function, method, access),
    ensures
        ctl_device_type(ctl_code_spec(device_type, function, method, access)) == device_type,
        ctl_access(ctl_code_spec(device_type, function, method, access)) == access,
        ctl_function(ctl_code_spec(device_type, function, method, access)) == function,
        ctl_method(ctl_code_spec(device_type, function, method, access)) == method,
{
    assert(((((device_type << 16u32) | (access << 14u32) | (function << 2u32) | method)
        >> 16u32) == device_type) && (((((device_type << 16u32) | (access << 14u32) | (
    function << 2u32) | method) >> 14u32) & 3u32) == access) && (((((device_type << 16u32)
        | (access << 14u32) | (function << 2u32) | method) >> 2u32) & 0xfffu32) == function)
        && ((((device_type << 16u32) | (access << 14u32) | (function << 2u32) | method) & 3u32)
        == method)) by (bit_vector)
        requires
            device_type < 0x10000u32,
            access < 4u32,
            function < 0x1000u32,
            method < 4u32,
    ;
}

/// Configure the driver settings from the support app.
pub const IOCTL_LEYLINE_SET_CONFIG: u32 = 0x0022_2000;

/// Retrieve the current operational status of the driver.
pub const IOCTL_LEYLINE_GET_STATUS: u32 = 0x0022_2004;

/// Map the shared audio buffer to user space for routing.
pub const IOCTL_LEYLINE_MAP_BUFFER: u32 = 0x0022_2008;

/// Map the shared parameter block to user space for status monitoring.
pub const IOCTL_LEYLINE_MAP_PARAMS: u32 = 0x0022_200C;

/// The four driver control codes are CTL_CODE(FILE_DEVICE_UNKNOWN, 0x800 +
/// n, METHOD_BUFFERED, FILE_ANY_ACCESS) for n = 0 to 3.
pub proof fn law_ioctl_codes_are_ctl_codes()
    ensures
        IOCTL_LEYLINE_SET_CONFIG == ctl_code_spec(
            FILE_DEVICE_UNKNOWN,
            0x800,
            METHOD_BUFFERED,
            FILE_ANY_ACCESS,
        ),
        IOCTL_LEYLINE_GET_STATUS == ctl_code_spec(
            FILE_DEVICE_UNKNOWN,
            0x801,
            METHOD_BUFFERED,
            FILE_ANY_ACCESS,
        ),
        IOCTL_LEYLINE_MAP_BUFFER == ctl_code_spec(
            FILE_DEVICE_UNKNOWN,
            0x802,
            METHOD_BUFFERED,
            FILE_ANY_ACCESS,
        ),
        IOCTL_LEYLINE_MAP_PARAMS == ctl_code_spec(
            FILE_DEVICE_UNKNOWN,
            0x803,
            METHOD_BUFFERED,
            FILE_ANY_ACCESS,
        ),
{
    assert(0x0022_2000u32 == ((0x22u32 << 16u32) | (0u32 << 14u32) | (0x800u32 << 2u32) | 0u32))
        by (bit_vector);
    assert(0x0022_2004u32 == ((0x22u32 << 16u32) | (0u32 << 14u32) | (0x801u32 << 2u32) | 0u32))
        by (bit_vector);
    assert(0x0022_2008u32 == ((0x22u32 << 16u32) | (0u32 << 14u32) | (0x802u32 << 2u32) | 0u32))
        by (bit_vector);
    assert(0x0022_200Cu32 == ((0x22u32 << 16u32) | (0u32 << 14u32) | (0x803u32 << 2u32) | 0u32))
        by (bit_vector);
}

/// Parameters shared between the support app, the processing object and
/// the driver. The gain and peak fields hold IEEE 754 single-precision bit
/// patterns.
pub struct SharedParameters {
    pub master_gain_bits: u32,
    pub peak_l_bits: u32,
    pub peak_r_bits: u32,
    pub qpc_frequency: i64,
    pub render_start_qpc: i64,
    pub capture_start_qpc: i64,
    pub buffer_size: u32,
    pub byte_rate: u32,
}

} // verus!
