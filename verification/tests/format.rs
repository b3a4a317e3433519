use leyline::format::{
    bridge_format, make_float_data_range, make_pcm_data_range, topology_data_range_intersection,
    KSDATAFORMAT,
};
use leyline::ks::{
    ksdataformat_specifier_none, ksdataformat_subtype_analog, ksdataformat_subtype_ieee_float,
    ksdataformat_subtype_pcm, ksdataformat_type_audio, STATUS_BUFFER_TOO_SMALL,
    STATUS_INVALID_PARAMETER, STATUS_NO_MATCH, STATUS_SUCCESS,
};
use leyline::wavert::miniport_data_range_intersection;

#[test]
fn offered_ranges() {
    let pcm = make_pcm_data_range();
    assert_eq!(pcm.format_size, 64);
    assert_eq!(pcm.sample_size, 4);
    assert_eq!(pcm.sub_format, ksdataformat_subtype_pcm());
    let float = make_float_data_range();
    assert_eq!(float.sample_size, 8);
    assert_eq!(float.sub_format, ksdataformat_subtype_ieee_float());
    assert_eq!(float.major_format, ksdataformat_type_audio());
}

#[test]
fn wave_intersection_negotiates_pcm() {
    let r = miniport_data_range_intersection(true, Some(make_pcm_data_range()), 88, 88);
    assert_eq!(r.status, STATUS_SUCCESS);
    assert_eq!(r.actual_size, Some(88));
    let f = r.format.unwrap();
    assert_eq!(f.format_tag, 1);
    assert_eq!(f.channels, 2);
    assert_eq!(f.samples_per_sec, 48000);
    assert_eq!(f.bits_per_sample, 16);
    assert_eq!(f.block_align, 4);
    assert_eq!(f.avg_bytes_per_sec, 192000);
    assert_eq!(f.sample_size, 4);
    assert_eq!(f.cb_size, 0);
}

#[test]
fn wave_intersection_negotiates_float() {
    let f = miniport_data_range_intersection(true, Some(make_float_data_range()), 100, 88)
        .format
        .unwrap();
    assert_eq!(f.format_tag, 3);
    assert_eq!(f.bits_per_sample, 32);
    assert_eq!(f.block_align, 8);
    assert_eq!(f.avg_bytes_per_sec, 384000);
    assert_eq!(f.sub_format, ksdataformat_subtype_ieee_float());
}

#[test]
fn wave_intersection_errors() {
    assert_eq!(miniport_data_range_intersection(true, None, 88, 88).status, STATUS_INVALID_PARAMETER);
    assert_eq!(
        miniport_data_range_intersection(false, Some(make_pcm_data_range()), 88, 88).status,
        STATUS_INVALID_PARAMETER
    );
    let mut not_audio = make_pcm_data_range();
    not_audio.major_format = ksdataformat_subtype_analog();
    assert_eq!(miniport_data_range_intersection(true, Some(not_audio), 88, 88).status, STATUS_NO_MATCH);
    let mut not_wfx = make_pcm_data_range();
    not_wfx.specifier = ksdataformat_specifier_none();
    assert_eq!(miniport_data_range_intersection(true, Some(not_wfx), 88, 88).status, STATUS_NO_MATCH);
    let mut analog = make_pcm_data_range();
    analog.sub_format = ksdataformat_subtype_analog();
    assert_eq!(miniport_data_range_intersection(true, Some(analog), 88, 88).status, STATUS_NO_MATCH);
    let q = miniport_data_range_intersection(true, Some(make_pcm_data_range()), 0, 88);
    assert_eq!(q.status, STATUS_BUFFER_TOO_SMALL);
    assert_eq!(q.actual_size, Some(88));
    let small = miniport_data_range_intersection(true, Some(make_pcm_data_range()), 10, 88);
    assert_eq!(small.status, STATUS_BUFFER_TOO_SMALL);
    assert_eq!(small.actual_size, None);
    assert_eq!(small.format, None);
}

#[test]
fn topology_intersection_gives_analog_bridge() {
    let r = topology_data_range_intersection(1, true, true, 64);
    assert_eq!(r.status, STATUS_SUCCESS);
    assert_eq!(r.actual_size, Some(64));
    let f: KSDATAFORMAT = r.format.unwrap();
    assert_eq!(f, bridge_format());
    assert_eq!(f.sub_format, ksdataformat_subtype_analog());
    assert_eq!(f.specifier, ksdataformat_specifier_none());
    assert_eq!(topology_data_range_intersection(2, true, true, 64).status, STATUS_INVALID_PARAMETER);
    assert_eq!(topology_data_range_intersection(0, false, true, 64).status, STATUS_INVALID_PARAMETER);
    let q = topology_data_range_intersection(0, true, false, 64);
    assert_eq!(q.status, STATUS_BUFFER_TOO_SMALL);
    assert_eq!(q.actual_size, Some(64));
    assert_eq!(topology_data_range_intersection(0, true, true, 63).status, STATUS_BUFFER_TOO_SMALL);
}
