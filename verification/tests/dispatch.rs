use leyline::dispatch::{control_device_link, control_device_name, control_device_sddl, control_queue_config, wide_nul, ControlQueueConfig};
use leyline::dispatch::{complete_get_status, evt_io_device_control, IoctlCompletion, IoctlStep, ACTIVE_STATUS_CODE};
use leyline::ks::{STATUS_BUFFER_TOO_SMALL, STATUS_INVALID_DEVICE_REQUEST, STATUS_NOT_IMPLEMENTED, STATUS_SUCCESS};
use leyline::shared::{IOCTL_LEYLINE_GET_STATUS, IOCTL_LEYLINE_MAP_BUFFER, IOCTL_LEYLINE_MAP_PARAMS, IOCTL_LEYLINE_SET_CONFIG};

#[test]
fn status_query_needs_output_buffer() {
    assert_eq!(evt_io_device_control(IOCTL_LEYLINE_GET_STATUS), IoctlStep::RetrieveOutputBuffer { min_length: 4 });
    assert_eq!(
        complete_get_status(STATUS_SUCCESS, 4),
        IoctlCompletion { status: STATUS_SUCCESS, information: 4, output_word: Some(ACTIVE_STATUS_CODE) }
    );
    assert_eq!(ACTIVE_STATUS_CODE, 0x1337BEEF);
    assert_eq!(complete_get_status(STATUS_SUCCESS, 3).status, STATUS_BUFFER_TOO_SMALL);
    let failed = complete_get_status(STATUS_BUFFER_TOO_SMALL, 16);
    assert_eq!(failed, IoctlCompletion { status: STATUS_BUFFER_TOO_SMALL, information: 0, output_word: None });
}

#[test]
fn mapping_codes_not_implemented_and_others_invalid() {
    for code in [IOCTL_LEYLINE_MAP_BUFFER, IOCTL_LEYLINE_MAP_PARAMS] {
        assert_eq!(
            evt_io_device_control(code),
            IoctlStep::Complete(IoctlCompletion { status: STATUS_NOT_IMPLEMENTED, information: 0, output_word: None })
        );
    }
    for code in [IOCTL_LEYLINE_SET_CONFIG, 0, 0xFFFF_FFFF] {
        assert_eq!(
            evt_io_device_control(code),
            IoctlStep::Complete(IoctlCompletion { status: STATUS_INVALID_DEVICE_REQUEST, information: 0, output_word: None })
        );
    }
}

#[test]
fn control_device_names_as_wide_strings() {
    assert_eq!(control_device_name(), "\\Device\\LeylineCDO");
    assert_eq!(control_device_link(), "\\DosDevices\\LeylineCDO");
    assert_eq!(control_device_sddl(), "D:P(A;;GA;;;WD)");
    let expected: Vec<u16> = "\\Device\\LeylineCDO".encode_utf16().chain(std::iter::once(0)).collect();
    assert_eq!(wide_nul(control_device_name()), expected);
    assert_eq!(wide_nul(""), vec![0u16]);
    assert_eq!(wide_nul("D:P"), vec![68u16, 58, 80, 0]);
    assert_eq!(control_queue_config(), ControlQueueConfig { sequential: true, power_managed: false });
}
