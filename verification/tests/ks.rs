use leyline::ks::{
    is_equal_guid, kscategory_audio_guid, ksdataformat_subtype_ieee_float, ksdataformat_subtype_pcm,
    nt_success, Guid, STATUS_BUFFER_OVERFLOW, STATUS_NOINTERFACE, STATUS_SUCCESS,
};

#[test]
fn guid_equality() {
    assert!(is_equal_guid(&ksdataformat_subtype_pcm(), &ksdataformat_subtype_pcm()));
    assert!(!is_equal_guid(&ksdataformat_subtype_pcm(), &ksdataformat_subtype_ieee_float()));
    let mut g: Guid = kscategory_audio_guid();
    assert!(is_equal_guid(&g, &kscategory_audio_guid()));
    g.data4[7] ^= 1;
    assert!(!is_equal_guid(&g, &kscategory_audio_guid()));
}

#[test]
fn status_codes_and_success() {
    assert!(nt_success(STATUS_SUCCESS));
    assert!(!nt_success(STATUS_BUFFER_OVERFLOW));
    assert_eq!(STATUS_BUFFER_OVERFLOW as u32, 0x8000_0005);
    assert_eq!(STATUS_NOINTERFACE as u32, 0xC000_02B9);
}
