//! The kernel-streaming property handlers shared by the render and capture
//! filters: what each one answers to a property request.
//!
//! A request is described by plain values (its verb, the size of the
//! caller's value buffer, whether that buffer is there, and the property
//! id); the reply says which status comes back, what the request's value
//! size becomes, and what is written into the caller's value buffer.
use crate::ks::{
    COMPONENT_ID_SIZE,
    Guid,
    JACK_COLOR_BLACK,
    JACK_DESCRIPTION2_SIZE,
    JACK_DESCRIPTION_SIZE,
    KSPROPERTY_JACK_DESCRIPTION,
    KSPROPERTY_AUDIOMODULE_COMMAND,
    KSPROPERTY_JACK_DESCRIPTION2,
    KSPROPERTY_MEMBER_STEPPEDRANGES,
    KSPROPERTY_TYPE_BASICSUPPORT,
    KSPROPERTY_TYPE_GET,
    KSPROPERTY_TYPE_SET,
    PROPERTY_DESCRIPTION_SIZE,
    STATUS_BUFFER_OVERFLOW,
    STATUS_BUFFER_TOO_SMALL,
    STATUS_INVALID_PARAMETER,
    STATUS_NOT_IMPLEMENTED,
    STATUS_SUCCESS,
    STEPPING_LONG_SIZE,
    ULONG_SIZE,
    VOLUME_DESCRIPTION_SIZE,
    VT_BOOL,
    VT_I4,
    guid_null,
    ksdataformat_specifier_waveformatex,
    ksdataformat_subtype_pcm,
    ksdataformat_type_audio,
    ksproptypesetid_general,
};
use vstd::prelude::*;

verus! {

/// GET together with BASICSUPPORT.
pub const ACCESS_GET_BASIC: u32 = 0x201;

/// GET, SET and BASICSUPPORT.
pub const ACCESS_GET_SET_BASIC: u32 = 0x203;

/// The two access masks are the OR of their verbs.
pub proof fn law_access_masks()
    ensures
        ACCESS_GET_BASIC == KSPROPERTY_TYPE_GET | KSPROPERTY_TYPE_BASICSUPPORT,
        ACCESS_GET_SET_BASIC == KSPROPERTY_TYPE_GET | KSPROPERTY_TYPE_SET
            | KSPROPERTY_TYPE_BASICSUPPORT,
{
    assert(0x201u32 == 0x1u32 | 0x200u32) by (bit_vector);
    assert(0x203u32 == 0x1u32 | 0x2u32 | 0x200u32) by (bit_vector);
}

/// A property request, as the handler sees it.
#[derive(Clone, Copy, Debug, PartialEq, Eq)]
pub struct PropertyRequest {
    /// The verb bits (GET, SET, BASICSUPPORT).
    pub verb: u32,
    /// The size of the caller's value buffer in bytes.
    pub value_size: u32,
    /// Whether the caller passed a value buffer at all.
    pub has_value: bool,
    /// The id of the property item, when the request names one.
    pub property_id: Option<u32>,
}

/// A KSPROPERTY_DESCRIPTION.
#[allow(non_camel_case_types)]
#[derive(Clone, Copy, Debug, PartialEq, Eq)]
pub struct KSPROPERTY_DESCRIPTION {
    pub access_flags: u32,
    pub description_size: u32,
    pub prop_type_set: KSIDENTIFIER,
    pub members_list_count: u32,
    pub reserved: u32,
}

/// A KSIDENTIFIER: a set, an id within it, and flags.
#[allow(non_camel_case_types)]
#[derive(Clone, Copy, Debug, PartialEq, Eq)]
pub struct KSIDENTIFIER {
    pub set: Guid,
    pub id: u32,
    pub flags: u32,
}

/// A KSPROPERTY_MEMBERSHEADER.
#[allow(non_camel_case_types)]
#[derive(Clone, Copy, Debug, PartialEq, Eq)]
pub struct KSPROPERTY_MEMBERSHEADER {
    pub members_flags: u32,
    pub members_size: u32,
    pub members_count: u32,
    pub flags: u32,
}

/// A KSPROPERTY_STEPPING_LONG.
#[allow(non_camel_case_types)]
#[derive(Clone, Copy, Debug, PartialEq, Eq)]
pub struct KSPROPERTY_STEPPING_LONG {
    pub stepping_delta: u32,
    pub reserved: u32,
    pub signed_minimum: i32,
    pub signed_maximum: i32,
}

/// A KSCOMPONENTID.
#[allow(non_camel_case_types)]
#[derive(Clone, Copy, Debug, PartialEq, Eq)]
pub struct KSCOMPONENTID {
    pub manufacturer: Guid,
    pub product: Guid,
    pub component: Guid,
    pub name: Guid,
    pub version: u32,
    pub revision: u32,
}

/// A KSJACK_DESCRIPTION.
#[allow(non_camel_case_types)]
#[derive(Clone, Copy, Debug, PartialEq, Eq)]
pub struct KSJACK_DESCRIPTION {
    pub channel_mapping: u32,
    pub color: u32,
    pub connection_type: u32,
    pub geo_location: u32,
    pub gen_location: u32,
    pub port_connection: u32,
    pub is_connected: u32,
}

/// A KSJACK_DESCRIPTION2.
#[allow(non_camel_case_types)]
#[derive(Clone, Copy, Debug, PartialEq, Eq)]
pub struct KSJACK_DESCRIPTION2 {
    pub device_state_info: u32,
    pub jack_capabilities: u32,
}

/// The fields of a KSDATAFORMAT_WAVEFORMATEXTENSIBLE that a proposed-format
/// reply fills in.
#[derive(Clone, Copy, Debug, PartialEq, Eq)]
pub struct ProposedFormat {
    pub format_size: u32,
    pub major_format: Guid,
    pub sub_format: Guid,
    pub specifier: Guid,
    pub sample_size: u32,
    pub format_tag: u16,
    pub channels: u16,
    pub samples_per_sec: u32,
    pub avg_bytes_per_sec: u32,
    pub block_align: u16,
    pub bits_per_sample: u16,
    pub cb_size: u16,
    pub valid_bits_per_sample: u16,
    pub channel_mask: u32,
    pub extensible_sub_format: Guid,
}

/// What a handler writes into the caller's value buffer.
#[derive(Clone, Copy, Debug, PartialEq, Eq)]
pub enum PropertyValue {
    /// A ULONG of access flags.
    AccessFlags(u32),
    /// A full property description.
    Description(KSPROPERTY_DESCRIPTION),
    /// A description followed by one members header and one stepped range.
    SteppedDescription(KSPROPERTY_DESCRIPTION, KSPROPERTY_MEMBERSHEADER, KSPROPERTY_STEPPING_LONG),
    ComponentId(KSCOMPONENTID),
    Jack(KSJACK_DESCRIPTION),
    Jack2(KSJACK_DESCRIPTION2),
    /// A LONG value.
    Long(i32),
    Format(ProposedFormat),
}

/// A handler's answer.
#[derive(Clone, Copy, Debug, PartialEq, Eq)]
pub struct PropertyReply {
    pub status: i32,
    /// The request's new value size, when the handler sets it.
    pub value_size: Option<u32>,
    /// What is written into the caller's value buffer, if anything.
    pub value: Option<PropertyValue>,
}

/// How many bytes a written value takes.
pub open spec fn value_bytes(v: PropertyValue) -> nat {
    match v {
        PropertyValue::AccessFlags(_) => ULONG_SIZE as nat,
        PropertyValue::Description(_) => PROPERTY_DESCRIPTION_SIZE as nat,
        PropertyValue::SteppedDescription(..) => VOLUME_DESCRIPTION_SIZE as nat,
        PropertyValue::ComponentId(_) => COMPONENT_ID_SIZE as nat,
        PropertyValue::Jack(_) => JACK_DESCRIPTION_SIZE as nat,
        PropertyValue::Jack2(_) => JACK_DESCRIPTION2_SIZE as nat,
        PropertyValue::Long(_) => ULONG_SIZE as nat,
        PropertyValue::Format(f) => f.format_size as nat,
    }
}

/// A reply writes only into a value buffer that is there and large enough,
/// and only when it succeeds.
pub open spec fn stays_in_buffer(request: PropertyRequest, reply: PropertyReply) -> bool {
    match reply.value {
        Some(v) => {
            &&& request.has_value
            &&& value_bytes(v) <= request.value_size
            &&& reply.status == STATUS_SUCCESS
        },
        None => true,
    }
}

/// Whether a verb asks for basic support.
pub open spec fn is_basic_support(verb: u32) -> bool {
    verb & KSPROPERTY_TYPE_BASICSUPPORT != 0
}

/// Whether a verb asks to get.
pub open spec fn is_get(verb: u32) -> bool {
    verb & KSPROPERTY_TYPE_GET != 0
}

/// Whether a verb asks to set.
pub open spec fn is_set(verb: u32) -> bool {
    verb & KSPROPERTY_TYPE_SET != 0
}

/// A reply with only a status.
pub open spec fn status_reply(status: i32) -> PropertyReply {
    PropertyReply { status, value_size: None, value: None }
}

/// A reply that reports the size the caller needs.
pub open spec fn size_reply(status: i32, size: u32) -> PropertyReply {
    PropertyReply { status, value_size: Some(size), value: None }
}

/// The value a handler writes when the buffer is there.
pub open spec fn written(has_value: bool, v: PropertyValue) -> Option<PropertyValue> {
    if has_value {
        Some(v)
    } else {
        None
    }
}

/// The description of a property with the given access and VARIANT type.
pub open spec fn description_spec(access: u32, prop_type: u32, description_size: u32, members: u32)
    -> KSPROPERTY_DESCRIPTION {
    KSPROPERTY_DESCRIPTION {
        access_flags: access,
        description_size,
        prop_type_set: KSIDENTIFIER { set: ksproptypesetid_general(), id: prop_type, flags: 0 },
        members_list_count: members,
        reserved: 0,
    }
}

/// The answer to a basic-support request for a property with the given
/// access and VARIANT type: a size query gets the description's size, a
/// buffer for the whole description gets it, a buffer for a ULONG gets the
/// access flags, and anything smaller is too small.
pub open spec fn basic_support_spec(request: PropertyRequest, access: u32, prop_type: u32)
    -> PropertyReply {
    if request.value_size == 0 {
        size_reply(STATUS_BUFFER_OVERFLOW, PROPERTY_DESCRIPTION_SIZE)
    } else if request.value_size >= PROPERTY_DESCRIPTION_SIZE {
        PropertyReply {
            status: STATUS_SUCCESS,
            value_size: Some(PROPERTY_DESCRIPTION_SIZE),
            value: written(
                request.has_value,
                PropertyValue::Description(
                    description_spec(access, prop_type, PROPERTY_DESCRIPTION_SIZE, 0),
                ),
            ),
        }
    } else if request.value_size >= ULONG_SIZE {
        PropertyReply {
            status: STATUS_SUCCESS,
            value_size: Some(ULONG_SIZE),
            value: written(request.has_value, PropertyValue::AccessFlags(access)),
        }
    } else {
        status_reply(STATUS_BUFFER_TOO_SMALL)
    }
}

fn status_only(status: i32) -> (reply: PropertyReply)
    ensures
        reply == status_reply(status),
{
    PropertyReply { status, value_size: None, value: None }
}

fn size_needed(status: i32, size: u32) -> (reply: PropertyReply)
    ensures
        reply == size_reply(status, size),
{
    PropertyReply { status, value_size: Some(size), value: None }
}

fn description(access: u32, prop_type: u32, description_size: u32, members: u32) -> (d:
    KSPROPERTY_DESCRIPTION)
    ensures
        d == description_spec(access, prop_type, description_size, members),
{
    KSPROPERTY_DESCRIPTION {
        access_flags: access,
        description_size,
        prop_type_set: KSIDENTIFIER { set: ksproptypesetid_general(), id: prop_type, flags: 0 },
        members_list_count: members,
        reserved: 0,
    }
}

/// Answers a basic-support request for a property with the given access
/// and VARIANT type.
pub fn basic_support(request: &PropertyRequest, access: u32, prop_type: u32) -> (reply:
    PropertyReply)
    ensures
        reply == basic_support_spec(*request, access, prop_type),
{
    if request.value_size == 0 {
        size_needed(STATUS_BUFFER_OVERFLOW, PROPERTY_DESCRIPTION_SIZE)
    } else if request.value_size >= PROPERTY_DESCRIPTION_SIZE {
        let value = if request.has_value {
            Some(
                PropertyValue::Description(
                    description(access, prop_type, PROPERTY_DESCRIPTION_SIZE, 0),
                ),
            )
        } else {
            None
        };
        PropertyReply { status: STATUS_SUCCESS, value_size: Some(PROPERTY_DESCRIPTION_SIZE), value }
    } else if request.value_size >= ULONG_SIZE {
        let value = if request.has_value {
            Some(PropertyValue::AccessFlags(access))
        } else {
            None
        };
        PropertyReply { status: STATUS_SUCCESS, value_size: Some(ULONG_SIZE), value }
    } else {
        status_only(STATUS_BUFFER_TOO_SMALL)
    }
}

// ---------------------------------------------------------------------------
// Component id
// ---------------------------------------------------------------------------

/// The identity this driver reports.
pub open spec fn leyline_component_id_spec() -> KSCOMPONENTID {
    KSCOMPONENTID {
        manufacturer: Guid {
            data1: 0x534C,
            data2: 0x4154,
            data3: 0x4547,
            data4: [0x52u8, 0x41, 0x59, 0x44, 0x45, 0x56, 0x31, 0x31],
        },
        product: Guid {
            data1: 0x4C45,
            data2: 0x594C,
            data3: 0x494E,
            data4: [0x45u8, 0x41, 0x55, 0x44, 0x49, 0x4F, 0x31, 0x31],
        },
        component: Guid {
            data1: 0xDEADBEEF,
            data2: 0xCAFE,
            data3: 0xFEED,
            data4: [0x4Cu8, 0x45, 0x59, 0x4C, 0x49, 0x4E, 0x45, 0x31],
        },
        name: guid_null(),
        version: 1,
        revision: 0,
    }
}

/// Returns the identity this driver reports.
#[verifier::when_used_as_spec(leyline_component_id_spec)]
pub fn leyline_component_id() -> (id: KSCOMPONENTID)
    ensures
        id == leyline_component_id_spec(),
{
    KSCOMPONENTID {
        manufacturer: Guid {
            data1: 0x534C,
            data2: 0x4154,
            data3: 0x4547,
            data4: [0x52u8, 0x41, 0x59, 0x44, 0x45, 0x56, 0x31, 0x31],
        },
        product: Guid {
            data1: 0x4C45,
            data2: 0x594C,
            data3: 0x494E,
            data4: [0x45u8, 0x41, 0x55, 0x44, 0x49, 0x4F, 0x31, 0x31],
        },
        component: Guid {
            data1: 0xDEADBEEF,
            data2: 0xCAFE,
            data3: 0xFEED,
            data4: [0x4Cu8, 0x45, 0x59, 0x4C, 0x49, 0x4E, 0x45, 0x31],
        },
        name: guid_null(),
        version: 1,
        revision: 0,
    }
}

/// The answer to a component-id request: no request is an invalid
/// parameter; basic support describes a readable VT_I4 property; otherwise
/// a size query gets the KSCOMPONENTID size, a smaller buffer is too small,
/// and a large enough one receives the driver's identity.
pub open spec fn component_id_spec(request: Option<PropertyRequest>) -> PropertyReply {
    match request {
        None => status_reply(STATUS_INVALID_PARAMETER),
        Some(r) => if is_basic_support(r.verb) {
            basic_support_spec(r, ACCESS_GET_BASIC, VT_I4)
        } else if r.value_size == 0 {
            size_reply(STATUS_BUFFER_OVERFLOW, COMPONENT_ID_SIZE)
        } else if r.value_size < COMPONENT_ID_SIZE {
            status_reply(STATUS_BUFFER_TOO_SMALL)
        } else {
            PropertyReply {
                status: STATUS_SUCCESS,
                value_size: None,
                value: written(r.has_value, PropertyValue::ComponentId(leyline_component_id())),
            }
        },
    }
}

/// Provides the driver's identity (KSPROPERTY_GENERAL_COMPONENTID).
pub fn component_id_handler(request: Option<PropertyRequest>) -> (reply: PropertyReply)
    ensures
        reply == component_id_spec(request),
{
    match request {
        None => status_only(STATUS_INVALID_PARAMETER),
        Some(r) => {
            if r.verb & KSPROPERTY_TYPE_BASICSUPPORT != 0 {
                return basic_support(&r, ACCESS_GET_BASIC, VT_I4);
            }
            if r.value_size == 0 {
                return size_needed(STATUS_BUFFER_OVERFLOW, COMPONENT_ID_SIZE);
            }
            if r.value_size < COMPONENT_ID_SIZE {
                return status_only(STATUS_BUFFER_TOO_SMALL);
            }
            let value = if r.has_value {
                Some(PropertyValue::ComponentId(leyline_component_id()))
            } else {
                None
            };
            PropertyReply { status: STATUS_SUCCESS, value_size: None, value }
        },
    }
}

// ---------------------------------------------------------------------------
// Jack description
// ---------------------------------------------------------------------------

/// The jack this driver reports: stereo, black, 3.5 mm, at the rear of the
/// primary box, a jack port, connected.
pub open spec fn leyline_jack_spec() -> KSJACK_DESCRIPTION {
    KSJACK_DESCRIPTION {
        channel_mapping: 0x3,
        color: JACK_COLOR_BLACK,
        connection_type: 1,
        geo_location: 1,
        gen_location: 0,
        port_connection: 0,
        is_connected: 1,
    }
}

/// The answer to a jack request: no request, or no property item, is an
/// invalid parameter; basic support describes a readable VT_I4 property;
/// the two jack descriptions follow the size protocol and fill in the jack;
/// any other id is not implemented.
pub open spec fn jack_description_spec(request: Option<PropertyRequest>) -> PropertyReply {
    match request {
        None => status_reply(STATUS_INVALID_PARAMETER),
        Some(r) => match r.property_id {
            None => status_reply(STATUS_INVALID_PARAMETER),
            Some(id) => if is_basic_support(r.verb) {
                basic_support_spec(r, ACCESS_GET_BASIC, VT_I4)
            } else if id == KSPROPERTY_JACK_DESCRIPTION {
                if r.value_size == 0 {
                    size_reply(STATUS_BUFFER_OVERFLOW, JACK_DESCRIPTION_SIZE)
                } else if r.value_size < JACK_DESCRIPTION_SIZE {
                    status_reply(STATUS_BUFFER_TOO_SMALL)
                } else {
                    PropertyReply {
                        status: STATUS_SUCCESS,
                        value_size: None,
                        value: written(r.has_value, PropertyValue::Jack(leyline_jack_spec())),
                    }
                }
            } else if id == KSPROPERTY_JACK_DESCRIPTION2 {
                if r.value_size == 0 {
                    size_reply(STATUS_BUFFER_OVERFLOW, JACK_DESCRIPTION2_SIZE)
                } else if r.value_size < JACK_DESCRIPTION2_SIZE {
                    status_reply(STATUS_BUFFER_TOO_SMALL)
                } else {
                    PropertyReply {
                        status: STATUS_SUCCESS,
                        value_size: None,
                        value: written(
                            r.has_value,
                            PropertyValue::Jack2(
                                KSJACK_DESCRIPTION2 { device_state_info: 0, jack_capabilities: 0 },
                            ),
                        ),
                    }
                }
            } else {
                status_reply(STATUS_NOT_IMPLEMENTED)
            },
        },
    }
}

/// Provides the jack's connection state and description
/// (KSPROPERTY_JACK_DESCRIPTION and KSPROPERTY_JACK_DESCRIPTION2).
pub fn jack_description_handler(request: Option<PropertyRequest>) -> (reply: PropertyReply)
    ensures
        reply == jack_description_spec(request),
{
    let r = match request {
        None => {
            return status_only(STATUS_INVALID_PARAMETER);
        },
        Some(r) => r,
    };
    let id = match r.property_id {
        None => {
            return status_only(STATUS_INVALID_PARAMETER);
        },
        Some(id) => id,
    };
    if r.verb & KSPROPERTY_TYPE_BASICSUPPORT != 0 {
        return basic_support(&r, ACCESS_GET_BASIC, VT_I4);
    }
    if id == KSPROPERTY_JACK_DESCRIPTION {
        if r.value_size == 0 {
            return size_needed(STATUS_BUFFER_OVERFLOW, JACK_DESCRIPTION_SIZE);
        }
        if r.value_size < JACK_DESCRIPTION_SIZE {
            return status_only(STATUS_BUFFER_TOO_SMALL);
        }
        let value = if r.has_value {
            Some(
                PropertyValue::Jack(
                    KSJACK_DESCRIPTION {
                        channel_mapping: 0x3,
                        color: JACK_COLOR_BLACK,
                        connection_type: 1,
                        geo_location: 1,
                        gen_location: 0,
                        port_connection: 0,
                        is_connected: 1,
                    },
                ),
            )
        } else {
            None
        };
        return PropertyReply { status: STATUS_SUCCESS, value_size: None, value };
    } else if id == KSPROPERTY_JACK_DESCRIPTION2 {
        if r.value_size == 0 {
            return size_needed(STATUS_BUFFER_OVERFLOW, JACK_DESCRIPTION2_SIZE);
        }
        if r.value_size < JACK_DESCRIPTION2_SIZE {
            return status_only(STATUS_BUFFER_TOO_SMALL);
        }
        let value = if r.has_value {
            Some(PropertyValue::Jack2(KSJACK_DESCRIPTION2 { device_state_info: 0, jack_capabilities: 0 }))
        } else {
            None
        };
        return PropertyReply { status: STATUS_SUCCESS, value_size: None, value };
    }
    status_only(STATUS_NOT_IMPLEMENTED)
}

// ---------------------------------------------------------------------------
// Mute and volume
// ---------------------------------------------------------------------------

/// The answer to a get or set of a LONG-valued control: a size query gets
/// the LONG size, a smaller buffer is too small, a get receives 0, and a set
/// is accepted without effect.
pub open spec fn long_control_spec(r: PropertyRequest) -> PropertyReply {
    if r.value_size == 0 {
        size_reply(STATUS_BUFFER_OVERFLOW, ULONG_SIZE)
    } else if r.value_size < ULONG_SIZE {
        status_reply(STATUS_BUFFER_TOO_SMALL)
    } else {
        PropertyReply {
            status: STATUS_SUCCESS,
            value_size: None,
            value: if is_get(r.verb) {
                written(r.has_value, PropertyValue::Long(0))
            } else {
                None
            },
        }
    }
}

fn long_control(r: &PropertyRequest) -> (reply: PropertyReply)
    ensures
        reply == long_control_spec(*r),
{
    if r.value_size == 0 {
        return size_needed(STATUS_BUFFER_OVERFLOW, ULONG_SIZE);
    }
    if r.value_size < ULONG_SIZE {
        return status_only(STATUS_BUFFER_TOO_SMALL);
    }
    let value = if r.verb & KSPROPERTY_TYPE_GET != 0 && r.has_value {
        Some(PropertyValue::Long(0))
    } else {
        None
    };
    PropertyReply { status: STATUS_SUCCESS, value_size: None, value }
}

/// The answer to a mute request: basic support describes a read-write
/// VT_BOOL property; otherwise the LONG control protocol, reading unmuted.
pub open spec fn mute_spec(request: Option<PropertyRequest>) -> PropertyReply {
    match request {
        None => status_reply(STATUS_INVALID_PARAMETER),
        Some(r) => if is_basic_support(r.verb) {
            basic_support_spec(r, ACCESS_GET_SET_BASIC, VT_BOOL)
        } else {
            long_control_spec(r)
        },
    }
}

/// Handles mute control requests.
pub fn mute_handler(request: Option<PropertyRequest>) -> (reply: PropertyReply)
    ensures
        reply == mute_spec(request),
{
    match request {
        None => status_only(STATUS_INVALID_PARAMETER),
        Some(r) => {
            if r.verb & KSPROPERTY_TYPE_BASICSUPPORT != 0 {
                basic_support(&r, ACCESS_GET_SET_BASIC, VT_BOOL)
            } else {
                long_control(&r)
            }
        },
    }
}

/// The volume range: 1 dB steps from -96 dB to 0 dB, in 1/65536 dB units.
pub open spec fn volume_stepping_spec() -> KSPROPERTY_STEPPING_LONG {
    KSPROPERTY_STEPPING_LONG {
        stepping_delta: 0x10000,
        reserved: 0,
        signed_minimum: -6291456i32,
        signed_maximum: 0,
    }
}

/// The answer to a volume request: basic support describes a read-write
/// VT_I4 property with one stepped range (a size query gets the size of
/// that whole description); otherwise the LONG control protocol, reading
/// 0 dB.
pub open spec fn volume_spec(request: Option<PropertyRequest>) -> PropertyReply {
    match request {
        None => status_reply(STATUS_INVALID_PARAMETER),
        Some(r) => if is_basic_support(r.verb) {
            if r.value_size == 0 {
                size_reply(STATUS_BUFFER_OVERFLOW, VOLUME_DESCRIPTION_SIZE)
            } else if r.value_size >= VOLUME_DESCRIPTION_SIZE {
                PropertyReply {
                    status: STATUS_SUCCESS,
                    value_size: Some(VOLUME_DESCRIPTION_SIZE),
                    value: written(
                        r.has_value,
                        PropertyValue::SteppedDescription(
                            description_spec(
                                ACCESS_GET_SET_BASIC,
                                VT_I4,
                                VOLUME_DESCRIPTION_SIZE,
                                1,
                            ),
                            KSPROPERTY_MEMBERSHEADER {
                                members_flags: KSPROPERTY_MEMBER_STEPPEDRANGES,
                                members_size: STEPPING_LONG_SIZE,
                                members_count: 1,
                                flags: 0,
                            },
                            volume_stepping_spec(),
                        ),
                    ),
                }
            } else if r.value_size >= ULONG_SIZE {
                PropertyReply {
                    status: STATUS_SUCCESS,
                    value_size: Some(ULONG_SIZE),
                    value: written(r.has_value, PropertyValue::AccessFlags(ACCESS_GET_SET_BASIC)),
                }
            } else {
                status_reply(STATUS_BUFFER_TOO_SMALL)
            }
        } else {
            long_control_spec(r)
        },
    }
}

/// Handles volume control requests.
pub fn volume_handler(request: Option<PropertyRequest>) -> (reply: PropertyReply)
    ensures
        reply == volume_spec(request),
{
    let r = match request {
        None => {
            return status_only(STATUS_INVALID_PARAMETER);
        },
        Some(r) => r,
    };
    if r.verb & KSPROPERTY_TYPE_BASICSUPPORT != 0 {
        if r.value_size == 0 {
            return size_needed(STATUS_BUFFER_OVERFLOW, VOLUME_DESCRIPTION_SIZE);
        }
        if r.value_size >= VOLUME_DESCRIPTION_SIZE {
            let value = if r.has_value {
                Some(
                    PropertyValue::SteppedDescription(
                        description(ACCESS_GET_SET_BASIC, VT_I4, VOLUME_DESCRIPTION_SIZE, 1),
                        KSPROPERTY_MEMBERSHEADER {
                            members_flags: KSPROPERTY_MEMBER_STEPPEDRANGES,
                            members_size: STEPPING_LONG_SIZE,
                            members_count: 1,
                            flags: 0,
                        },
                        KSPROPERTY_STEPPING_LONG {
                            stepping_delta: 0x10000,
                            reserved: 0,
                            signed_minimum: -96 * 0x10000,
                            signed_maximum: 0,
                        },
                    ),
                )
            } else {
                None
            };
            return PropertyReply {
                status: STATUS_SUCCESS,
                value_size: Some(VOLUME_DESCRIPTION_SIZE),
                value,
            };
        }
        if r.value_size >= ULONG_SIZE {
            let value = if r.has_value {
                Some(PropertyValue::AccessFlags(ACCESS_GET_SET_BASIC))
            } else {
                None
            };
            return PropertyReply { status: STATUS_SUCCESS, value_size: Some(ULONG_SIZE), value };
        }
        return status_only(STATUS_BUFFER_TOO_SMALL);
    }
    long_control(&r)
}

// ---------------------------------------------------------------------------
// Pin category and pin name
// ---------------------------------------------------------------------------

/// The answer to a request this driver does not implement: no request is
/// an invalid parameter, any request is not implemented.
pub open spec fn not_implemented_spec(request: Option<PropertyRequest>) -> PropertyReply {
    match request {
        None => status_reply(STATUS_INVALID_PARAMETER),
        Some(_) => status_reply(STATUS_NOT_IMPLEMENTED),
    }
}

/// Handles pin category requests (not implemented).
pub fn pin_category_handler(request: Option<PropertyRequest>) -> (reply: PropertyReply)
    ensures
        reply == not_implemented_spec(request),
{
    match request {
        None => status_only(STATUS_INVALID_PARAMETER),
        Some(_) => status_only(STATUS_NOT_IMPLEMENTED),
    }
}

/// Handles pin name requests (not implemented).
pub fn pin_name_handler(request: Option<PropertyRequest>) -> (reply: PropertyReply)
    ensures
        reply == not_implemented_spec(request),
{
    match request {
        None => status_only(STATUS_INVALID_PARAMETER),
        Some(_) => status_only(STATUS_NOT_IMPLEMENTED),
    }
}


// ---------------------------------------------------------------------------
// Proposed data format, effects discovery, audio modules
// ---------------------------------------------------------------------------

/// The format this driver proposes: 48 kHz, 16-bit stereo PCM, described
/// as WAVE_FORMAT_EXTENSIBLE, in a structure of `format_size` bytes.
pub open spec fn proposed_format_spec(format_size: u32) -> ProposedFormat {
    ProposedFormat {
        format_size,
        major_format: ksdataformat_type_audio(),
        sub_format: ksdataformat_subtype_pcm(),
        specifier: ksdataformat_specifier_waveformatex(),
        sample_size: 4,
        format_tag: 0xFFFE,
        channels: 2,
        samples_per_sec: 48000,
        avg_bytes_per_sec: 192000,
        block_align: 4,
        bits_per_sample: 16,
        cb_size: 22,
        valid_bits_per_sample: 16,
        channel_mask: 0x3,
        extensible_sub_format: ksdataformat_subtype_pcm(),
    }
}

/// Returns the format this driver proposes, in a structure of
/// `format_size` bytes.
#[verifier::when_used_as_spec(proposed_format_spec)]
pub fn proposed_format(format_size: u32) -> (f: ProposedFormat)
    ensures
        f == proposed_format_spec(format_size),
{
    ProposedFormat {
        format_size,
        major_format: ksdataformat_type_audio(),
        sub_format: ksdataformat_subtype_pcm(),
        specifier: ksdataformat_specifier_waveformatex(),
        sample_size: 4,
        format_tag: 0xFFFE,
        channels: 2,
        samples_per_sec: 48000,
        avg_bytes_per_sec: 48000 * 4,
        block_align: 4,
        bits_per_sample: 16,
        cb_size: 22,
        valid_bits_per_sample: 16,
        channel_mask: 0x3,
        extensible_sub_format: ksdataformat_subtype_pcm(),
    }
}

/// The answer to a get of the proposed format: a size query gets
/// `format_size`, a smaller buffer is too small, a large enough one
/// receives the proposed format.
pub open spec fn proposed_format_get_spec(r: PropertyRequest, format_size: u32) -> PropertyReply {
    if r.value_size == 0 {
        size_reply(STATUS_BUFFER_OVERFLOW, format_size)
    } else if r.value_size < format_size {
        status_reply(STATUS_BUFFER_TOO_SMALL)
    } else {
        PropertyReply {
            status: STATUS_SUCCESS,
            value_size: None,
            value: written(r.has_value, PropertyValue::Format(proposed_format(format_size))),
        }
    }
}

/// Answers a get of the proposed format.
pub fn proposed_format_get(r: &PropertyRequest, format_size: u32) -> (reply: PropertyReply)
    ensures
        reply == proposed_format_get_spec(*r, format_size),
{
    if r.value_size == 0 {
        return size_needed(STATUS_BUFFER_OVERFLOW, format_size);
    }
    if r.value_size < format_size {
        return status_only(STATUS_BUFFER_TOO_SMALL);
    }
    let value = if r.has_value {
        Some(PropertyValue::Format(proposed_format(format_size)))
    } else {
        None
    };
    PropertyReply { status: STATUS_SUCCESS, value_size: None, value }
}

/// The answer to a proposed-format request, where `format_size` is the size
/// of a KSDATAFORMAT_WAVEFORMATEXTENSIBLE: basic support describes a
/// read-write VT_I4 property; a set is accepted; a get follows the size
/// protocol; any other verb succeeds with nothing written.
pub open spec fn proposed_format_handler_spec(
    request: Option<PropertyRequest>,
    format_size: u32,
) -> PropertyReply {
    match request {
        None => status_reply(STATUS_INVALID_PARAMETER),
        Some(r) => if is_basic_support(r.verb) {
            basic_support_spec(r, ACCESS_GET_SET_BASIC, VT_I4)
        } else if is_set(r.verb) {
            status_reply(STATUS_SUCCESS)
        } else if is_get(r.verb) {
            proposed_format_get_spec(r, format_size)
        } else {
            status_reply(STATUS_SUCCESS)
        },
    }
}

/// Handles proposed audio format requests; `format_size` is the size of a
/// KSDATAFORMAT_WAVEFORMATEXTENSIBLE.
pub fn proposed_format_handler(request: Option<PropertyRequest>, format_size: u32) -> (reply:
    PropertyReply)
    ensures
        reply == proposed_format_handler_spec(request, format_size),
{
    let r = match request {
        None => {
            return status_only(STATUS_INVALID_PARAMETER);
        },
        Some(r) => r,
    };
    if r.verb & KSPROPERTY_TYPE_BASICSUPPORT != 0 {
        return basic_support(&r, ACCESS_GET_SET_BASIC, VT_I4);
    }
    if r.verb & KSPROPERTY_TYPE_SET != 0 {
        return status_only(STATUS_SUCCESS);
    }
    if r.verb & KSPROPERTY_TYPE_GET != 0 {
        return proposed_format_get(&r, format_size);
    }
    status_only(STATUS_SUCCESS)
}

/// The answer to a basic-support request that only reports access flags: a
/// buffer smaller than a ULONG gets the ULONG size, otherwise the flags.
pub open spec fn flags_only_spec(r: PropertyRequest, access: u32) -> PropertyReply {
    if r.value_size < ULONG_SIZE {
        size_reply(STATUS_BUFFER_OVERFLOW, ULONG_SIZE)
    } else {
        PropertyReply {
            status: STATUS_SUCCESS,
            value_size: Some(ULONG_SIZE),
            value: written(r.has_value, PropertyValue::AccessFlags(access)),
        }
    }
}

/// Answers a basic-support request with the access flags alone.
pub fn flags_only(r: &PropertyRequest, access: u32) -> (reply: PropertyReply)
    ensures
        reply == flags_only_spec(*r, access),
{
    if r.value_size < ULONG_SIZE {
        return size_needed(STATUS_BUFFER_OVERFLOW, ULONG_SIZE);
    }
    let value = if r.has_value {
        Some(PropertyValue::AccessFlags(access))
    } else {
        None
    };
    PropertyReply { status: STATUS_SUCCESS, value_size: Some(ULONG_SIZE), value }
}

/// The answer to an effects-discovery request: basic support reports a
/// readable property; anything else is not implemented.
pub open spec fn audio_effects_discovery_spec(request: Option<PropertyRequest>) -> PropertyReply {
    match request {
        None => status_reply(STATUS_INVALID_PARAMETER),
        Some(r) => if is_basic_support(r.verb) {
            flags_only_spec(r, ACCESS_GET_BASIC)
        } else {
            status_reply(STATUS_NOT_IMPLEMENTED)
        },
    }
}

/// Handles audio effects discovery requests.
pub fn audio_effects_discovery_handler(request: Option<PropertyRequest>) -> (reply:
    PropertyReply)
    ensures
        reply == audio_effects_discovery_spec(request),
{
    match request {
        None => status_only(STATUS_INVALID_PARAMETER),
        Some(r) => {
            if r.verb & KSPROPERTY_TYPE_BASICSUPPORT != 0 {
                flags_only(&r, ACCESS_GET_BASIC)
            } else {
                status_only(STATUS_NOT_IMPLEMENTED)
            }
        },
    }
}

/// The access an audio-module property reports: the command can also be
/// set, the others only read.
pub open spec fn audio_module_access(id: u32) -> u32 {
    if id == KSPROPERTY_AUDIOMODULE_COMMAND {
        ACCESS_GET_SET_BASIC
    } else {
        ACCESS_GET_BASIC
    }
}

/// The answer to an audio-module request: no request, or no property item,
/// is an invalid parameter; basic support reports the property's access;
/// anything else is not implemented.
pub open spec fn audio_module_spec(request: Option<PropertyRequest>) -> PropertyReply {
    match request {
        None => status_reply(STATUS_INVALID_PARAMETER),
        Some(r) => match r.property_id {
            None => status_reply(STATUS_INVALID_PARAMETER),
            Some(id) => if is_basic_support(r.verb) {
                flags_only_spec(r, audio_module_access(id))
            } else {
                status_reply(STATUS_NOT_IMPLEMENTED)
            },
        },
    }
}

/// Handles audio module configuration requests.
pub fn audio_module_handler(request: Option<PropertyRequest>) -> (reply: PropertyReply)
    ensures
        reply == audio_module_spec(request),
{
    let r = match request {
        None => {
            return status_only(STATUS_INVALID_PARAMETER);
        },
        Some(r) => r,
    };
    let id = match r.property_id {
        None => {
            return status_only(STATUS_INVALID_PARAMETER);
        },
        Some(id) => id,
    };
    if r.verb & KSPROPERTY_TYPE_BASICSUPPORT != 0 {
        let access = if id == KSPROPERTY_AUDIOMODULE_COMMAND {
            ACCESS_GET_SET_BASIC
        } else {
            ACCESS_GET_BASIC
        };
        return flags_only(&r, access);
    }
    status_only(STATUS_NOT_IMPLEMENTED)
}

/// Whether a proposed format is 48 kHz stereo 16-bit PCM in
/// WAVE_FORMAT_EXTENSIBLE form (front left and front right), with its
/// block alignment and byte rate following from those.
pub open spec fn is_48k_stereo_16_bit(f: ProposedFormat) -> bool {
    &&& f.format_tag == 0xFFFE
    &&& f.channels == 2
    &&& f.bits_per_sample == 16
    &&& f.valid_bits_per_sample == 16
    &&& f.channel_mask == 0x3
    &&& f.samples_per_sec == 48000
    &&& f.block_align == f.channels * f.bits_per_sample / 8
    &&& f.avg_bytes_per_sec == f.samples_per_sec * f.block_align
    &&& f.sample_size == f.block_align
    &&& f.sub_format == ksdataformat_subtype_pcm()
    &&& f.extensible_sub_format == ksdataformat_subtype_pcm()
}

/// Whatever the request, a format the proposed-format handler writes is 48
/// kHz stereo 16-bit PCM, in a structure of the caller's format size.
pub proof fn law_proposed_format_is_48k_stereo_16_bit(
    request: Option<PropertyRequest>,
    format_size: u32,
)
    ensures
        is_48k_stereo_16_bit(proposed_format_spec(format_size)),
        proposed_format_spec(format_size).format_size == format_size,
        proposed_format_handler_spec(request, format_size).value matches Some(
            PropertyValue::Format(f),
        ) ==> is_48k_stereo_16_bit(f) && f.format_size == format_size,
{
}

} // verus!
