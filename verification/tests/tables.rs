use leyline::descriptors::common::{PropertyReply, PropertyRequest, PropertyValue, ACCESS_GET_BASIC, ACCESS_GET_SET_BASIC};
use leyline::descriptors::tables::{
    general_properties, handle_property, mute_properties, pin_properties, topo_filter_properties,
    volume_properties, wave_filter_properties, PropertyHandler, PropertyItem, PropertySet,
    KSPROPERTY_AUDIO_MUTE, KSPROPERTY_AUDIO_VOLUMELEVEL, KSPROPERTY_GENERAL_COMPONENTID,
    KSPROPERTY_PIN_CATEGORY, KSPROPERTY_PIN_NAME,
};
use leyline::ks::{
    KSPROPERTY_PIN_PROPOSEDATAFORMAT, KSPROPERTY_PIN_PROPOSEDATAFORMAT2, KSPROPERTY_TYPE_BASICSUPPORT,
    STATUS_NOT_IMPLEMENTED, STATUS_SUCCESS,
};

const FORMAT_SIZE: u32 = 68;

fn flags_request(id: u32) -> Option<PropertyRequest> {
    Some(PropertyRequest { verb: KSPROPERTY_TYPE_BASICSUPPORT, value_size: 4, has_value: true, property_id: Some(id) })
}

fn flags_reply(flags: u32) -> PropertyReply {
    PropertyReply { status: STATUS_SUCCESS, value_size: Some(4), value: Some(PropertyValue::AccessFlags(flags)) }
}

#[test]
fn table_sizes_match_the_automation_tables() {
    assert_eq!(wave_filter_properties().len(), 9);
    assert_eq!(topo_filter_properties().len(), 3);
    assert_eq!(general_properties().len(), 1);
    assert_eq!(pin_properties().len(), 4);
    assert_eq!(volume_properties().len(), 1);
    assert_eq!(mute_properties().len(), 1);
}

#[test]
fn wave_table_routes_proposed_formats_read_write() {
    let wave = wave_filter_properties();
    assert_eq!(
        wave[0],
        PropertyItem { set: PropertySet::General, id: KSPROPERTY_GENERAL_COMPONENTID, flags: ACCESS_GET_BASIC, handler: PropertyHandler::ComponentId }
    );
    assert_eq!(wave[1].id, KSPROPERTY_PIN_PROPOSEDATAFORMAT);
    assert_eq!(wave[2].id, KSPROPERTY_PIN_PROPOSEDATAFORMAT2);
    assert_eq!(KSPROPERTY_PIN_PROPOSEDATAFORMAT2, 15);
    assert_eq!(wave[2].flags, ACCESS_GET_SET_BASIC);
    assert_eq!(wave[2].handler, PropertyHandler::ProposedFormat);
    assert_eq!(wave[7].flags, ACCESS_GET_SET_BASIC);
    assert_eq!(wave[8].flags, ACCESS_GET_BASIC);
}

#[test]
fn every_handler_reports_the_flags_its_entry_advertises() {
    for table in [wave_filter_properties(), topo_filter_properties(), general_properties(), volume_properties(), mute_properties()] {
        for entry in table {
            assert_eq!(handle_property(entry.handler, flags_request(entry.id), FORMAT_SIZE), flags_reply(entry.flags));
        }
    }
    let pins = pin_properties();
    for entry in &pins[2..] {
        assert_eq!(handle_property(entry.handler, flags_request(entry.id), FORMAT_SIZE), flags_reply(entry.flags));
    }
}

#[test]
fn pin_category_and_name_entries_are_left_to_the_port() {
    let pins = pin_properties();
    assert_eq!(pins[0].id, KSPROPERTY_PIN_CATEGORY);
    assert_eq!(pins[1].id, KSPROPERTY_PIN_NAME);
    assert_eq!(handle_property(pins[0].handler, flags_request(pins[0].id), FORMAT_SIZE).status, STATUS_NOT_IMPLEMENTED);
    assert_eq!(handle_property(pins[1].handler, flags_request(pins[1].id), FORMAT_SIZE).status, STATUS_NOT_IMPLEMENTED);
}

#[test]
fn node_tables_carry_volume_and_mute() {
    assert_eq!(volume_properties()[0].id, KSPROPERTY_AUDIO_VOLUMELEVEL);
    assert_eq!(volume_properties()[0].handler, PropertyHandler::Volume);
    assert_eq!(mute_properties()[0].id, KSPROPERTY_AUDIO_MUTE);
    assert_eq!(mute_properties()[0].handler, PropertyHandler::Mute);
}
