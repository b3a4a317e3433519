//! The filters' property tables: which property of which set each table
//! carries, the access it advertises, and the handler that answers it.
use crate::descriptors::common::{
    audio_module_spec,
    component_id_spec,
    jack_description_spec,
    mute_spec,
    volume_spec,
    PropertyReply,
    PropertyRequest,
    PropertyValue,
    ACCESS_GET_BASIC,
    ACCESS_GET_SET_BASIC,
};
use crate::descriptors::{
    audio_effects_discovery_handler,
    audio_module_handler,
    component_id_handler,
    jack_description_handler,
    mute_handler,
    pin_category_handler,
    pin_name_handler,
    proposed_format_handler,
    volume_handler,
    wave_effects_discovery_spec,
    wave_not_implemented_spec,
    wave_proposed_format_spec,
};
use crate::ks::{
    KSPROPERTY_AUDIOMODULE_COMMAND,
    KSPROPERTY_JACK_DESCRIPTION,
    KSPROPERTY_JACK_DESCRIPTION2,
    KSPROPERTY_PIN_PROPOSEDATAFORMAT,
    KSPROPERTY_PIN_PROPOSEDATAFORMAT2,
    KSPROPERTY_TYPE_BASICSUPPORT,
    STATUS_SUCCESS,
    ULONG_SIZE,
};
use vstd::prelude::*;

verus! {

/// KSPROPERTY_GENERAL_COMPONENTID.
pub const KSPROPERTY_GENERAL_COMPONENTID: u32 = 0;

/// KSPROPERTY_PIN_CATEGORY.
pub const KSPROPERTY_PIN_CATEGORY: u32 = 11;

/// KSPROPERTY_PIN_NAME.
pub const KSPROPERTY_PIN_NAME: u32 = 12;

/// KSPROPERTY_AUDIOEFFECTSDISCOVERY_EFFECTSLIST.
pub const KSPROPERTY_AUDIOEFFECTSDISCOVERY_EFFECTSLIST: u32 = 1;

/// KSPROPERTY_AUDIOMODULE_DESCRIPTORS.
pub const KSPROPERTY_AUDIOMODULE_DESCRIPTORS: u32 = 1;

/// KSPROPERTY_AUDIOMODULE_NOTIFICATION_DEVICE_ID.
pub const KSPROPERTY_AUDIOMODULE_NOTIFICATION_DEVICE_ID: u32 = 3;

/// KSPROPERTY_AUDIO_VOLUMELEVEL.
pub const KSPROPERTY_AUDIO_VOLUMELEVEL: u32 = 4;

/// KSPROPERTY_AUDIO_MUTE.
pub const KSPROPERTY_AUDIO_MUTE: u32 = 13;

/// The property sets the tables draw on.
#[derive(Clone, Copy, Debug, PartialEq, Eq, Structural)]
pub enum PropertySet {
    General,
    Pin,
    Jack,
    AudioEffectsDiscovery,
    AudioModule,
    Audio,
}

/// The handler a property item is routed to.
#[derive(Clone, Copy, Debug, PartialEq, Eq, Structural)]
pub enum PropertyHandler {
    ComponentId,
    JackDescription,
    ProposedFormat,
    AudioEffectsDiscovery,
    AudioModule,
    PinCategory,
    PinName,
    Volume,
    Mute,
}

/// One entry of a property table (a PCPROPERTY_ITEM).
#[derive(Clone, Copy, Debug, PartialEq, Eq, Structural)]
pub struct PropertyItem {
    pub set: PropertySet,
    pub id: u32,
    /// The verbs the item advertises.
    pub flags: u32,
    pub handler: PropertyHandler,
}

/// A table entry.
pub open spec fn item(set: PropertySet, id: u32, flags: u32, handler: PropertyHandler)
    -> PropertyItem {
    PropertyItem { set, id, flags, handler }
}

/// The wave filter's properties: component id, both proposed formats, both
/// jack descriptions, the effects list and the three audio-module
/// properties.
pub open spec fn wave_filter_properties_spec() -> Seq<PropertyItem> {
    seq![
        item(PropertySet::General, KSPROPERTY_GENERAL_COMPONENTID, ACCESS_GET_BASIC, PropertyHandler::ComponentId),
        item(PropertySet::Pin, KSPROPERTY_PIN_PROPOSEDATAFORMAT, ACCESS_GET_SET_BASIC, PropertyHandler::ProposedFormat),
        item(PropertySet::Pin, KSPROPERTY_PIN_PROPOSEDATAFORMAT2, ACCESS_GET_SET_BASIC, PropertyHandler::ProposedFormat),
        item(PropertySet::Jack, KSPROPERTY_JACK_DESCRIPTION, ACCESS_GET_BASIC, PropertyHandler::JackDescription),
        item(PropertySet::Jack, KSPROPERTY_JACK_DESCRIPTION2, ACCESS_GET_BASIC, PropertyHandler::JackDescription),
        item(PropertySet::AudioEffectsDiscovery, KSPROPERTY_AUDIOEFFECTSDISCOVERY_EFFECTSLIST, ACCESS_GET_BASIC, PropertyHandler::AudioEffectsDiscovery),
        item(PropertySet::AudioModule, KSPROPERTY_AUDIOMODULE_DESCRIPTORS, ACCESS_GET_BASIC, PropertyHandler::AudioModule),
        item(PropertySet::AudioModule, KSPROPERTY_AUDIOMODULE_COMMAND, ACCESS_GET_SET_BASIC, PropertyHandler::AudioModule),
        item(PropertySet::AudioModule, KSPROPERTY_AUDIOMODULE_NOTIFICATION_DEVICE_ID, ACCESS_GET_BASIC, PropertyHandler::AudioModule),
    ]
}

/// The topology filter's properties: component id and both jack
/// descriptions.
pub open spec fn topo_filter_properties_spec() -> Seq<PropertyItem> {
    seq![
        item(PropertySet::General, KSPROPERTY_GENERAL_COMPONENTID, ACCESS_GET_BASIC, PropertyHandler::ComponentId),
        item(PropertySet::Jack, KSPROPERTY_JACK_DESCRIPTION, ACCESS_GET_BASIC, PropertyHandler::JackDescription),
        item(PropertySet::Jack, KSPROPERTY_JACK_DESCRIPTION2, ACCESS_GET_BASIC, PropertyHandler::JackDescription),
    ]
}

/// The general table: the component id alone.
pub open spec fn general_properties_spec() -> Seq<PropertyItem> {
    seq![item(PropertySet::General, KSPROPERTY_GENERAL_COMPONENTID, ACCESS_GET_BASIC, PropertyHandler::ComponentId)]
}

/// The pins' properties: category, name and both jack descriptions.
pub open spec fn pin_properties_spec() -> Seq<PropertyItem> {
    seq![
        item(PropertySet::Pin, KSPROPERTY_PIN_CATEGORY, ACCESS_GET_BASIC, PropertyHandler::PinCategory),
        item(PropertySet::Pin, KSPROPERTY_PIN_NAME, ACCESS_GET_BASIC, PropertyHandler::PinName),
        item(PropertySet::Jack, KSPROPERTY_JACK_DESCRIPTION, ACCESS_GET_BASIC, PropertyHandler::JackDescription),
        item(PropertySet::Jack, KSPROPERTY_JACK_DESCRIPTION2, ACCESS_GET_BASIC, PropertyHandler::JackDescription),
    ]
}

/// The volume node's property: the volume level, read-write.
pub open spec fn volume_properties_spec() -> Seq<PropertyItem> {
    seq![item(PropertySet::Audio, KSPROPERTY_AUDIO_VOLUMELEVEL, ACCESS_GET_SET_BASIC, PropertyHandler::Volume)]
}

/// The mute node's property: mute, read-write.
pub open spec fn mute_properties_spec() -> Seq<PropertyItem> {
    seq![item(PropertySet::Audio, KSPROPERTY_AUDIO_MUTE, ACCESS_GET_SET_BASIC, PropertyHandler::Mute)]
}

/// Returns the wave filter's property table.
pub fn wave_filter_properties() -> (items: Vec<PropertyItem>)
    ensures
        items@ == wave_filter_properties_spec(),
{
    let items = vec![
        PropertyItem { set: PropertySet::General, id: KSPROPERTY_GENERAL_COMPONENTID, flags: ACCESS_GET_BASIC, handler: PropertyHandler::ComponentId },
        PropertyItem { set: PropertySet::Pin, id: KSPROPERTY_PIN_PROPOSEDATAFORMAT, flags: ACCESS_GET_SET_BASIC, handler: PropertyHandler::ProposedFormat },
        PropertyItem { set: PropertySet::Pin, id: KSPROPERTY_PIN_PROPOSEDATAFORMAT2, flags: ACCESS_GET_SET_BASIC, handler: PropertyHandler::ProposedFormat },
        PropertyItem { set: PropertySet::Jack, id: KSPROPERTY_JACK_DESCRIPTION, flags: ACCESS_GET_BASIC, handler: PropertyHandler::JackDescription },
        PropertyItem { set: PropertySet::Jack, id: KSPROPERTY_JACK_DESCRIPTION2, flags: ACCESS_GET_BASIC, handler: PropertyHandler::JackDescription },
        PropertyItem { set: PropertySet::AudioEffectsDiscovery, id: KSPROPERTY_AUDIOEFFECTSDISCOVERY_EFFECTSLIST, flags: ACCESS_GET_BASIC, handler: PropertyHandler::AudioEffectsDiscovery },
        PropertyItem { set: PropertySet::AudioModule, id: KSPROPERTY_AUDIOMODULE_DESCRIPTORS, flags: ACCESS_GET_BASIC, handler: PropertyHandler::AudioModule },
        PropertyItem { set: PropertySet::AudioModule, id: KSPROPERTY_AUDIOMODULE_COMMAND, flags: ACCESS_GET_SET_BASIC, handler: PropertyHandler::AudioModule },
        PropertyItem { set: PropertySet::AudioModule, id: KSPROPERTY_AUDIOMODULE_NOTIFICATION_DEVICE_ID, flags: ACCESS_GET_BASIC, handler: PropertyHandler::AudioModule },
    ];
    assert(items@ =~= wave_filter_properties_spec());
    items
}

/// Returns the topology filter's property table.
pub fn topo_filter_properties() -> (items: Vec<PropertyItem>)
    ensures
        items@ == topo_filter_properties_spec(),
{
    let items = vec![
        PropertyItem { set: PropertySet::General, id: KSPROPERTY_GENERAL_COMPONENTID, flags: ACCESS_GET_BASIC, handler: PropertyHandler::ComponentId },
        PropertyItem { set: PropertySet::Jack, id: KSPROPERTY_JACK_DESCRIPTION, flags: ACCESS_GET_BASIC, handler: PropertyHandler::JackDescription },
        PropertyItem { set: PropertySet::Jack, id: KSPROPERTY_JACK_DESCRIPTION2, flags: ACCESS_GET_BASIC, handler: PropertyHandler::JackDescription },
    ];
    assert(items@ =~= topo_filter_properties_spec());
    items
}

/// Returns the general property table.
pub fn general_properties() -> (items: Vec<PropertyItem>)
    ensures
        items@ == general_properties_spec(),
{
    let items = vec![
        PropertyItem { set: PropertySet::General, id: KSPROPERTY_GENERAL_COMPONENTID, flags: ACCESS_GET_BASIC, handler: PropertyHandler::ComponentId },
    ];
    assert(items@ =~= general_properties_spec());
    items
}

/// Returns the pins' property table.
pub fn pin_properties() -> (items: Vec<PropertyItem>)
    ensures
        items@ == pin_properties_spec(),
{
    let items = vec![
        PropertyItem { set: PropertySet::Pin, id: KSPROPERTY_PIN_CATEGORY, flags: ACCESS_GET_BASIC, handler: PropertyHandler::PinCategory },
        PropertyItem { set: PropertySet::Pin, id: KSPROPERTY_PIN_NAME, flags: ACCESS_GET_BASIC, handler: PropertyHandler::PinName },
        PropertyItem { set: PropertySet::Jack, id: KSPROPERTY_JACK_DESCRIPTION, flags: ACCESS_GET_BASIC, handler: PropertyHandler::JackDescription },
        PropertyItem { set: PropertySet::Jack, id: KSPROPERTY_JACK_DESCRIPTION2, flags: ACCESS_GET_BASIC, handler: PropertyHandler::JackDescription },
    ];
    assert(items@ =~= pin_properties_spec());
    items
}

/// Returns the volume node's property table.
pub fn volume_properties() -> (items: Vec<PropertyItem>)
    ensures
        items@ == volume_properties_spec(),
{
    let items = vec![
        PropertyItem { set: PropertySet::Audio, id: KSPROPERTY_AUDIO_VOLUMELEVEL, flags: ACCESS_GET_SET_BASIC, handler: PropertyHandler::Volume },
    ];
    assert(items@ =~= volume_properties_spec());
    items
}

/// Returns the mute node's property table.
pub fn mute_properties() -> (items: Vec<PropertyItem>)
    ensures
        items@ == mute_properties_spec(),
{
    let items = vec![
        PropertyItem { set: PropertySet::Audio, id: KSPROPERTY_AUDIO_MUTE, flags: ACCESS_GET_SET_BASIC, handler: PropertyHandler::Mute },
    ];
    assert(items@ =~= mute_properties_spec());
    items
}

/// What a handler answers to a request; `format_size` is the size of a
/// KSDATAFORMAT_WAVEFORMATEXTENSIBLE, which the proposed-format handler
/// needs.
pub open spec fn handler_reply_spec(
    handler: PropertyHandler,
    request: Option<PropertyRequest>,
    format_size: u32,
) -> PropertyReply {
    match handler {
        PropertyHandler::ComponentId => component_id_spec(request),
        PropertyHandler::JackDescription => jack_description_spec(request),
        PropertyHandler::ProposedFormat => wave_proposed_format_spec(request, format_size),
        PropertyHandler::AudioEffectsDiscovery => wave_effects_discovery_spec(request),
        PropertyHandler::AudioModule => audio_module_spec(request),
        PropertyHandler::PinCategory => wave_not_implemented_spec(request),
        PropertyHandler::PinName => wave_not_implemented_spec(request),
        PropertyHandler::Volume => volume_spec(request),
        PropertyHandler::Mute => mute_spec(request),
    }
}

/// Routes a request to the handler a table entry names.
pub fn handle_property(
    handler: PropertyHandler,
    request: Option<PropertyRequest>,
    format_size: u32,
) -> (reply: PropertyReply)
    ensures
        reply == handler_reply_spec(handler, request, format_size),
{
    match handler {
        PropertyHandler::ComponentId => component_id_handler(request),
        PropertyHandler::JackDescription => jack_description_handler(request),
        PropertyHandler::ProposedFormat => proposed_format_handler(request, format_size),
        PropertyHandler::AudioEffectsDiscovery => audio_effects_discovery_handler(request),
        PropertyHandler::AudioModule => audio_module_handler(request),
        PropertyHandler::PinCategory => pin_category_handler(request),
        PropertyHandler::PinName => pin_name_handler(request),
        PropertyHandler::Volume => volume_handler(request),
        PropertyHandler::Mute => mute_handler(request),
    }
}

/// A basic-support request for property `id` with a buffer for one ULONG.
pub open spec fn flags_request(id: u32) -> PropertyRequest {
    PropertyRequest {
        verb: KSPROPERTY_TYPE_BASICSUPPORT,
        value_size: ULONG_SIZE,
        has_value: true,
        property_id: Some(id),
    }
}

/// Whether a table entry's handler reports, for a basic-support request
/// with a ULONG buffer, exactly the access flags the entry advertises.
pub open spec fn advertises_what_it_answers(entry: PropertyItem, format_size: u32) -> bool {
    handler_reply_spec(entry.handler, Some(flags_request(entry.id)), format_size) == (PropertyReply {
        status: STATUS_SUCCESS,
        value_size: Some(ULONG_SIZE),
        value: Some(PropertyValue::AccessFlags(entry.flags)),
    })
}

/// Every entry of the wave, topology, general, volume and mute tables is
/// answered by its handler with the very access flags it advertises; in
/// the pins' table so are the jack entries, while the category and name
/// entries are left to the port (their handlers answer not implemented).
pub proof fn law_tables_advertise_what_handlers_answer(format_size: u32)
    ensures
        forall|i: int|
            0 <= i < wave_filter_properties_spec().len() ==> #[trigger] advertises_what_it_answers(
                wave_filter_properties_spec()[i],
                format_size,
            ),
        forall|i: int|
            0 <= i < topo_filter_properties_spec().len() ==> #[trigger] advertises_what_it_answers(
                topo_filter_properties_spec()[i],
                format_size,
            ),
        advertises_what_it_answers(general_properties_spec()[0], format_size),
        advertises_what_it_answers(volume_properties_spec()[0], format_size),
        advertises_what_it_answers(mute_properties_spec()[0], format_size),
        advertises_what_it_answers(pin_properties_spec()[2], format_size),
        advertises_what_it_answers(pin_properties_spec()[3], format_size),
        handler_reply_spec(
            pin_properties_spec()[0].handler,
            Some(flags_request(KSPROPERTY_PIN_CATEGORY)),
            format_size,
        ).status != STATUS_SUCCESS,
        handler_reply_spec(
            pin_properties_spec()[1].handler,
            Some(flags_request(KSPROPERTY_PIN_NAME)),
            format_size,
        ).status != STATUS_SUCCESS,
{
    assert(KSPROPERTY_TYPE_BASICSUPPORT & KSPROPERTY_TYPE_BASICSUPPORT != 0) by (bit_vector);
    let w = wave_filter_properties_spec();
    assert(advertises_what_it_answers(w[0], format_size));
    assert(advertises_what_it_answers(w[1], format_size));
    assert(advertises_what_it_answers(w[2], format_size));
    assert(advertises_what_it_answers(w[3], format_size));
    assert(advertises_what_it_answers(w[4], format_size));
    assert(advertises_what_it_answers(w[5], format_size));
    assert(advertises_what_it_answers(w[6], format_size));
    assert(advertises_what_it_answers(w[7], format_size));
    assert(advertises_what_it_answers(w[8], format_size));
    let t = topo_filter_properties_spec();
    assert(advertises_what_it_answers(t[0], format_size));
    assert(advertises_what_it_answers(t[1], format_size));
    assert(advertises_what_it_answers(t[2], format_size));
}

} // verus!
