use leyline::descriptors::common::{
    self, leyline_component_id, proposed_format, ACCESS_GET_BASIC, ACCESS_GET_SET_BASIC,
};
use leyline::descriptors::{
    audio_effects_discovery_handler, audio_module_handler, component_id_handler,
    jack_description_handler, mute_handler, pin_category_handler, pin_name_handler,
    proposed_format_handler, volume_handler, PropertyReply, PropertyRequest, PropertyValue,
};
use leyline::ks::{
    KSPROPERTY_AUDIOMODULE_COMMAND, KSPROPERTY_JACK_DESCRIPTION, KSPROPERTY_JACK_DESCRIPTION2,
    KSPROPERTY_PIN_PROPOSEDATAFORMAT, KSPROPERTY_PIN_PROPOSEDATAFORMAT2, KSPROPERTY_TYPE_BASICSUPPORT,
    KSPROPERTY_TYPE_GET, KSPROPERTY_TYPE_SET, STATUS_BUFFER_OVERFLOW, STATUS_BUFFER_TOO_SMALL,
    STATUS_INVALID_PARAMETER, STATUS_NOT_IMPLEMENTED, STATUS_SUCCESS, VT_BOOL, VT_I4,
};

fn req(verb: u32, value_size: u32, id: Option<u32>) -> Option<PropertyRequest> {
    Some(PropertyRequest { verb, value_size, has_value: true, property_id: id })
}

#[test]
fn null_request_is_invalid_parameter_everywhere() {
    for reply in [
        component_id_handler(None),
        jack_description_handler(None),
        mute_handler(None),
        volume_handler(None),
        common::proposed_format_handler(None, 104),
        proposed_format_handler(None, 104),
        common::audio_effects_discovery_handler(None),
        audio_effects_discovery_handler(None),
        audio_module_handler(None),
        pin_category_handler(None),
        pin_name_handler(None),
        common::pin_category_handler(None),
        common::pin_name_handler(None),
    ] {
        assert_eq!(reply.status, STATUS_INVALID_PARAMETER);
        assert_eq!(reply.value_size, None);
        assert_eq!(reply.value, None);
    }
}

#[test]
fn component_id_size_protocol() {
    let q = component_id_handler(req(KSPROPERTY_TYPE_GET, 0, None));
    assert_eq!(q, PropertyReply { status: STATUS_BUFFER_OVERFLOW, value_size: Some(72), value: None });
    let small = component_id_handler(req(KSPROPERTY_TYPE_GET, 71, None));
    assert_eq!(small.status, STATUS_BUFFER_TOO_SMALL);
    let full = component_id_handler(req(KSPROPERTY_TYPE_GET, 72, None));
    assert_eq!(full.status, STATUS_SUCCESS);
    assert_eq!(full.value, Some(PropertyValue::ComponentId(leyline_component_id())));
    let id = leyline_component_id();
    assert_eq!(id.manufacturer.data1, 0x534C);
    assert_eq!(id.component.data1, 0xDEADBEEF);
    assert_eq!(id.version, 1);
    assert_eq!(id.revision, 0);
}

#[test]
fn component_id_without_buffer_writes_nothing() {
    let r = component_id_handler(Some(PropertyRequest {
        verb: KSPROPERTY_TYPE_GET,
        value_size: 100,
        has_value: false,
        property_id: None,
    }));
    assert_eq!(r.status, STATUS_SUCCESS);
    assert_eq!(r.value, None);
}

#[test]
fn basic_support_answers_by_buffer_size() {
    let b = KSPROPERTY_TYPE_BASICSUPPORT;
    assert_eq!(component_id_handler(req(b, 0, None)).value_size, Some(40));
    assert_eq!(component_id_handler(req(b, 0, None)).status, STATUS_BUFFER_OVERFLOW);
    let full = component_id_handler(req(b, 40, None));
    assert_eq!(full.value_size, Some(40));
    match full.value {
        Some(PropertyValue::Description(d)) => {
            assert_eq!(d.access_flags, ACCESS_GET_BASIC);
            assert_eq!(d.prop_type_set.id, VT_I4);
            assert_eq!(d.description_size, 40);
            assert_eq!(d.members_list_count, 0);
        }
        other => panic!("unexpected {:?}", other),
    }
    let flags = component_id_handler(req(b, 8, None));
    assert_eq!(flags.value_size, Some(4));
    assert_eq!(flags.value, Some(PropertyValue::AccessFlags(ACCESS_GET_BASIC)));
    assert_eq!(component_id_handler(req(b, 3, None)).status, STATUS_BUFFER_TOO_SMALL);
}

#[test]
fn access_masks_are_verb_combinations() {
    assert_eq!(ACCESS_GET_BASIC, KSPROPERTY_TYPE_GET | KSPROPERTY_TYPE_BASICSUPPORT);
    assert_eq!(
        ACCESS_GET_SET_BASIC,
        KSPROPERTY_TYPE_GET | KSPROPERTY_TYPE_SET | KSPROPERTY_TYPE_BASICSUPPORT
    );
}

#[test]
fn jack_description_protocol() {
    assert_eq!(
        jack_description_handler(req(KSPROPERTY_TYPE_GET, 28, None)).status,
        STATUS_INVALID_PARAMETER
    );
    let q = jack_description_handler(req(KSPROPERTY_TYPE_GET, 0, Some(KSPROPERTY_JACK_DESCRIPTION)));
    assert_eq!(q.status, STATUS_BUFFER_OVERFLOW);
    assert_eq!(q.value_size, Some(28));
    let r = jack_description_handler(req(KSPROPERTY_TYPE_GET, 28, Some(KSPROPERTY_JACK_DESCRIPTION)));
    assert_eq!(r.status, STATUS_SUCCESS);
    match r.value {
        Some(PropertyValue::Jack(j)) => {
            assert_eq!(j.channel_mapping, 3);
            assert_eq!(j.connection_type, 1);
            assert_eq!(j.is_connected, 1);
        }
        other => panic!("unexpected {:?}", other),
    }
    let q2 = jack_description_handler(req(KSPROPERTY_TYPE_GET, 0, Some(KSPROPERTY_JACK_DESCRIPTION2)));
    assert_eq!(q2.value_size, Some(8));
    assert_eq!(
        jack_description_handler(req(KSPROPERTY_TYPE_GET, 7, Some(KSPROPERTY_JACK_DESCRIPTION2))).status,
        STATUS_BUFFER_TOO_SMALL
    );
    assert_eq!(
        jack_description_handler(req(KSPROPERTY_TYPE_GET, 8, Some(99))).status,
        STATUS_NOT_IMPLEMENTED
    );
}

#[test]
fn mute_reads_unmuted_and_accepts_set() {
    let b = mute_handler(req(KSPROPERTY_TYPE_BASICSUPPORT, 40, None));
    match b.value {
        Some(PropertyValue::Description(d)) => {
            assert_eq!(d.prop_type_set.id, VT_BOOL);
            assert_eq!(d.access_flags, ACCESS_GET_SET_BASIC);
        }
        other => panic!("unexpected {:?}", other),
    }
    let get = mute_handler(req(KSPROPERTY_TYPE_GET, 4, None));
    assert_eq!(get.value, Some(PropertyValue::Long(0)));
    let set = mute_handler(req(KSPROPERTY_TYPE_SET, 4, None));
    assert_eq!(set.status, STATUS_SUCCESS);
    assert_eq!(set.value, None);
    assert_eq!(mute_handler(req(KSPROPERTY_TYPE_GET, 0, None)).value_size, Some(4));
    assert_eq!(mute_handler(req(KSPROPERTY_TYPE_GET, 2, None)).status, STATUS_BUFFER_TOO_SMALL);
}

#[test]
fn volume_describes_one_db_steps() {
    let q = volume_handler(req(KSPROPERTY_TYPE_BASICSUPPORT, 0, None));
    assert_eq!(q.value_size, Some(72));
    let full = volume_handler(req(KSPROPERTY_TYPE_BASICSUPPORT, 72, None));
    match full.value {
        Some(PropertyValue::SteppedDescription(d, h, s)) => {
            assert_eq!(d.description_size, 72);
            assert_eq!(d.members_list_count, 1);
            assert_eq!(h.members_count, 1);
            assert_eq!(h.members_size, 16);
            assert_eq!(s.stepping_delta, 0x10000);
            assert_eq!(s.signed_minimum, -96 * 0x10000);
            assert_eq!(s.signed_maximum, 0);
        }
        other => panic!("unexpected {:?}", other),
    }
    let flags = volume_handler(req(KSPROPERTY_TYPE_BASICSUPPORT, 40, None));
    assert_eq!(flags.value, Some(PropertyValue::AccessFlags(ACCESS_GET_SET_BASIC)));
    assert_eq!(volume_handler(req(KSPROPERTY_TYPE_GET, 4, None)).value, Some(PropertyValue::Long(0)));
}

#[test]
fn proposed_format_is_48k_stereo_16_bit() {
    let q = common::proposed_format_handler(req(KSPROPERTY_TYPE_GET, 0, None), 104);
    assert_eq!(q.status, STATUS_BUFFER_OVERFLOW);
    assert_eq!(q.value_size, Some(104));
    let r = common::proposed_format_handler(req(KSPROPERTY_TYPE_GET, 104, None), 104);
    assert_eq!(r.value, Some(PropertyValue::Format(proposed_format(104))));
    let f = proposed_format(104);
    assert_eq!(f.format_tag, 0xFFFE);
    assert_eq!(f.samples_per_sec, 48000);
    assert_eq!(f.avg_bytes_per_sec, 192000);
    assert_eq!(f.block_align, 4);
    assert_eq!(f.cb_size, 22);
    assert_eq!(
        common::proposed_format_handler(req(KSPROPERTY_TYPE_SET, 104, None), 104).status,
        STATUS_SUCCESS
    );
    assert_eq!(
        common::proposed_format_handler(req(KSPROPERTY_TYPE_GET, 50, None), 104).status,
        STATUS_BUFFER_TOO_SMALL
    );
}

#[test]
fn wave_proposed_format_answers_only_its_ids() {
    assert_eq!(
        proposed_format_handler(req(KSPROPERTY_TYPE_GET, 104, None), 104).status,
        STATUS_INVALID_PARAMETER
    );
    let other = proposed_format_handler(req(KSPROPERTY_TYPE_GET, 104, Some(3)), 104);
    assert_eq!(other.status, STATUS_SUCCESS);
    assert_eq!(other.value, None);
    for id in [KSPROPERTY_PIN_PROPOSEDATAFORMAT, KSPROPERTY_PIN_PROPOSEDATAFORMAT2] {
        let r = proposed_format_handler(req(KSPROPERTY_TYPE_GET, 104, Some(id)), 104);
        assert_eq!(r.value, Some(PropertyValue::Format(proposed_format(104))));
    }
}

#[test]
fn effects_discovery_and_audio_module_report_flags() {
    let b = KSPROPERTY_TYPE_BASICSUPPORT;
    let q = common::audio_effects_discovery_handler(req(b, 2, None));
    assert_eq!(q.status, STATUS_BUFFER_OVERFLOW);
    assert_eq!(q.value_size, Some(4));
    assert_eq!(
        common::audio_effects_discovery_handler(req(b, 4, None)).value,
        Some(PropertyValue::AccessFlags(ACCESS_GET_BASIC))
    );
    assert_eq!(
        common::audio_effects_discovery_handler(req(KSPROPERTY_TYPE_GET, 4, None)).status,
        STATUS_NOT_IMPLEMENTED
    );
    assert_eq!(audio_effects_discovery_handler(req(b, 4, None)).status, STATUS_INVALID_PARAMETER);
    assert_eq!(audio_effects_discovery_handler(req(b, 4, Some(1))).status, STATUS_SUCCESS);
    assert_eq!(
        audio_module_handler(req(b, 4, Some(KSPROPERTY_AUDIOMODULE_COMMAND))).value,
        Some(PropertyValue::AccessFlags(ACCESS_GET_SET_BASIC))
    );
    assert_eq!(
        audio_module_handler(req(b, 4, Some(1))).value,
        Some(PropertyValue::AccessFlags(ACCESS_GET_BASIC))
    );
    assert_eq!(audio_module_handler(req(b, 4, None)).status, STATUS_INVALID_PARAMETER);
    assert_eq!(audio_module_handler(req(KSPROPERTY_TYPE_GET, 4, Some(1))).status, STATUS_NOT_IMPLEMENTED);
}

#[test]
fn pin_category_and_name_are_not_implemented() {
    assert_eq!(pin_category_handler(req(KSPROPERTY_TYPE_GET, 4, Some(11))).status, STATUS_NOT_IMPLEMENTED);
    assert_eq!(pin_name_handler(req(KSPROPERTY_TYPE_GET, 4, Some(12))).status, STATUS_NOT_IMPLEMENTED);
    assert_eq!(common::pin_category_handler(req(KSPROPERTY_TYPE_GET, 4, None)).status, STATUS_NOT_IMPLEMENTED);
    assert_eq!(common::pin_name_handler(req(KSPROPERTY_TYPE_GET, 4, None)).status, STATUS_NOT_IMPLEMENTED);
}

#[test]
fn wave_pin_handlers_need_a_property_item() {
    assert_eq!(pin_category_handler(req(KSPROPERTY_TYPE_GET, 4, None)).status, STATUS_INVALID_PARAMETER);
    assert_eq!(pin_name_handler(req(KSPROPERTY_TYPE_GET, 4, None)).status, STATUS_INVALID_PARAMETER);
}

#[test]
fn reported_size_makes_the_retry_succeed() {
    let first = volume_handler(req(KSPROPERTY_TYPE_BASICSUPPORT, 0, None));
    let retry = volume_handler(req(KSPROPERTY_TYPE_BASICSUPPORT, first.value_size.unwrap(), None));
    assert_eq!(retry.status, STATUS_SUCCESS);
    let first = jack_description_handler(req(KSPROPERTY_TYPE_GET, 0, Some(KSPROPERTY_JACK_DESCRIPTION2)));
    let retry = jack_description_handler(req(
        KSPROPERTY_TYPE_GET,
        first.value_size.unwrap(),
        Some(KSPROPERTY_JACK_DESCRIPTION2),
    ));
    assert_eq!(retry.status, STATUS_SUCCESS);
}
