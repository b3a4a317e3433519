//! Property handlers of the filters' automation tables, the tables
//! themselves ([`tables`]) and the filters' pins, nodes and connections
//! ([`filters`]).
//!
//! Most handlers are shared with [`common`]; the wave filter's proposed
//! format and effects-discovery handlers also insist on a property item,
//! and the proposed format answers a get only for the two proposed-format
//! ids.
use crate::ks::{
    KSPROPERTY_PIN_PROPOSEDATAFORMAT,
    KSPROPERTY_PIN_PROPOSEDATAFORMAT2,
    KSPROPERTY_TYPE_BASICSUPPORT,
    KSPROPERTY_TYPE_GET,
    KSPROPERTY_TYPE_SET,
    STATUS_BUFFER_OVERFLOW,
    STATUS_INVALID_PARAMETER,
    STATUS_NOT_IMPLEMENTED,
    STATUS_SUCCESS,
    VT_I4,
};
use vstd::prelude::*;

pub mod common;
pub mod filters;
pub mod tables;

pub use common::{
    is_48k_stereo_16_bit,
    audio_module_handler,
    component_id_handler,
    jack_description_handler,
    mute_handler,
    volume_handler,
    PropertyReply,
    PropertyRequest,
    PropertyValue,
};

use common::{
    audio_effects_discovery_spec,
    audio_module_spec,
    basic_support,
    basic_support_spec,
    component_id_spec,
    flags_only,
    flags_only_spec,
    is_basic_support,
    is_get,
    is_set,
    jack_description_spec,
    mute_spec,
    not_implemented_spec,
    proposed_format_get,
    proposed_format_get_spec,
    proposed_format_handler_spec,
    status_reply,
    stays_in_buffer,
    volume_spec,
    ACCESS_GET_BASIC,
    ACCESS_GET_SET_BASIC,
};

verus! {

/// Whether a property id names one of the two proposed-format properties.
pub open spec fn is_proposed_format_id(id: u32) -> bool {
    id == KSPROPERTY_PIN_PROPOSEDATAFORMAT2 || id == KSPROPERTY_PIN_PROPOSEDATAFORMAT
}

/// The wave filter's answer to a proposed-format request: like the common
/// handler, but a request without a property item is an invalid parameter
/// and a get is answered only for the proposed-format ids (any other id
/// succeeds with nothing written).
pub open spec fn wave_proposed_format_spec(request: Option<PropertyRequest>, format_size: u32)
    -> PropertyReply {
    match request {
        None => status_reply(STATUS_INVALID_PARAMETER),
        Some(r) => match r.property_id {
            None => status_reply(STATUS_INVALID_PARAMETER),
            Some(id) => if is_basic_support(r.verb) {
                basic_support_spec(r, ACCESS_GET_SET_BASIC, VT_I4)
            } else if is_set(r.verb) {
                status_reply(STATUS_SUCCESS)
            } else if is_get(r.verb) && is_proposed_format_id(id) {
                proposed_format_get_spec(r, format_size)
            } else {
                status_reply(STATUS_SUCCESS)
            },
        },
    }
}

/// Handles proposed audio format requests on the wave filter;
/// `format_size` is the size of a KSDATAFORMAT_WAVEFORMATEXTENSIBLE.
pub fn proposed_format_handler(request: Option<PropertyRequest>, format_size: u32) -> (reply:
    PropertyReply)
    ensures
        reply == wave_proposed_format_spec(request, format_size),
{
    let r = match request {
        None => {
            return PropertyReply { status: STATUS_INVALID_PARAMETER, value_size: None, value: None };
        },
        Some(r) => r,
    };
    let id = match r.property_id {
        None => {
            return PropertyReply { status: STATUS_INVALID_PARAMETER, value_size: None, value: None };
        },
        Some(id) => id,
    };
    if r.verb & KSPROPERTY_TYPE_BASICSUPPORT != 0 {
        return basic_support(&r, ACCESS_GET_SET_BASIC, VT_I4);
    }
    if r.verb & KSPROPERTY_TYPE_SET != 0 {
        return PropertyReply { status: STATUS_SUCCESS, value_size: None, value: None };
    }
    if r.verb & KSPROPERTY_TYPE_GET != 0 && (id == KSPROPERTY_PIN_PROPOSEDATAFORMAT2 || id
        == KSPROPERTY_PIN_PROPOSEDATAFORMAT) {
        return proposed_format_get(&r, format_size);
    }
    PropertyReply { status: STATUS_SUCCESS, value_size: None, value: None }
}

/// The wave filter's answer to an effects-discovery request: like the
/// common handler, but a request without a property item is an invalid
/// parameter.
pub open spec fn wave_effects_discovery_spec(request: Option<PropertyRequest>) -> PropertyReply {
    match request {
        None => status_reply(STATUS_INVALID_PARAMETER),
        Some(r) => match r.property_id {
            None => status_reply(STATUS_INVALID_PARAMETER),
            Some(_) => if is_basic_support(r.verb) {
                flags_only_spec(r, ACCESS_GET_BASIC)
            } else {
                status_reply(STATUS_NOT_IMPLEMENTED)
            },
        },
    }
}

/// Handles audio effects discovery requests on the wave filter.
pub fn audio_effects_discovery_handler(request: Option<PropertyRequest>) -> (reply:
    PropertyReply)
    ensures
        reply == wave_effects_discovery_spec(request),
{
    let r = match request {
        None => {
            return PropertyReply { status: STATUS_INVALID_PARAMETER, value_size: None, value: None };
        },
        Some(r) => r,
    };
    if r.property_id.is_none() {
        return PropertyReply { status: STATUS_INVALID_PARAMETER, value_size: None, value: None };
    }
    if r.verb & KSPROPERTY_TYPE_BASICSUPPORT != 0 {
        return flags_only(&r, ACCESS_GET_BASIC);
    }
    PropertyReply { status: STATUS_NOT_IMPLEMENTED, value_size: None, value: None }
}

/// The wave filter's answer to a pin-category or pin-name request: no
/// request, or no property item, is an invalid parameter; any other
/// request is not implemented.
pub open spec fn wave_not_implemented_spec(request: Option<PropertyRequest>) -> PropertyReply {
    match request {
        None => status_reply(STATUS_INVALID_PARAMETER),
        Some(r) => match r.property_id {
            None => status_reply(STATUS_INVALID_PARAMETER),
            Some(_) => status_reply(STATUS_NOT_IMPLEMENTED),
        },
    }
}

/// Handles pin category requests on the wave filter (not implemented).
pub fn pin_category_handler(request: Option<PropertyRequest>) -> (reply: PropertyReply)
    ensures
        reply == wave_not_implemented_spec(request),
{
    match request {
        Some(r) => {
            if r.property_id.is_some() {
                PropertyReply { status: STATUS_NOT_IMPLEMENTED, value_size: None, value: None }
            } else {
                PropertyReply { status: STATUS_INVALID_PARAMETER, value_size: None, value: None }
            }
        },
        None => PropertyReply { status: STATUS_INVALID_PARAMETER, value_size: None, value: None },
    }
}

/// Handles pin name requests on the wave filter (not implemented; the
/// port falls back to the miniport's pin names).
pub fn pin_name_handler(request: Option<PropertyRequest>) -> (reply: PropertyReply)
    ensures
        reply == wave_not_implemented_spec(request),
{
    match request {
        Some(r) => {
            if r.property_id.is_some() {
                PropertyReply { status: STATUS_NOT_IMPLEMENTED, value_size: None, value: None }
            } else {
                PropertyReply { status: STATUS_INVALID_PARAMETER, value_size: None, value: None }
            }
        },
        None => PropertyReply { status: STATUS_INVALID_PARAMETER, value_size: None, value: None },
    }
}

// ---------------------------------------------------------------------------
// Laws of the property handlers
// ---------------------------------------------------------------------------

/// No handler writes into a value buffer that is missing or too small, and
/// none writes unless it succeeds.
pub proof fn law_handlers_stay_in_buffer(request: Option<PropertyRequest>, format_size: u32)
    ensures
        request matches Some(r) ==> {
            &&& stays_in_buffer(r, component_id_spec(request))
            &&& stays_in_buffer(r, jack_description_spec(request))
            &&& stays_in_buffer(r, mute_spec(request))
            &&& stays_in_buffer(r, volume_spec(request))
            &&& stays_in_buffer(r, proposed_format_handler_spec(request, format_size))
            &&& stays_in_buffer(r, wave_proposed_format_spec(request, format_size))
            &&& stays_in_buffer(r, audio_effects_discovery_spec(request))
            &&& stays_in_buffer(r, wave_effects_discovery_spec(request))
            &&& stays_in_buffer(r, audio_module_spec(request))
            &&& stays_in_buffer(r, not_implemented_spec(request))
            &&& stays_in_buffer(r, wave_not_implemented_spec(request))
        },
{
}

/// The same request with a value buffer of `size` bytes.
pub open spec fn with_buffer(r: PropertyRequest, size: u32) -> Option<PropertyRequest> {
    Some(PropertyRequest { value_size: size, has_value: true, ..r })
}

/// Whether a reply reports, through STATUS_BUFFER_OVERFLOW, a size that
/// makes the same request succeed when asked again with a buffer of that
/// size.
pub open spec fn size_report_suffices(
    reply: PropertyReply,
    retry: spec_fn(u32) -> PropertyReply,
) -> bool {
    reply.status == STATUS_BUFFER_OVERFLOW ==> match reply.value_size {
        Some(n) => retry(n).status == STATUS_SUCCESS,
        None => false,
    }
}

/// A size reported with STATUS_BUFFER_OVERFLOW is always enough: asking
/// again with a buffer of that size succeeds. (For the proposed format this
/// needs a format size other than 0.)
pub proof fn law_reported_size_suffices(r: PropertyRequest, format_size: u32)
    requires
        format_size > 0,
    ensures
        size_report_suffices(
            component_id_spec(Some(r)),
            |n: u32| component_id_spec(with_buffer(r, n)),
        ),
        size_report_suffices(
            jack_description_spec(Some(r)),
            |n: u32| jack_description_spec(with_buffer(r, n)),
        ),
        size_report_suffices(mute_spec(Some(r)), |n: u32| mute_spec(with_buffer(r, n))),
        size_report_suffices(volume_spec(Some(r)), |n: u32| volume_spec(with_buffer(r, n))),
        size_report_suffices(
            proposed_format_handler_spec(Some(r), format_size),
            |n: u32| proposed_format_handler_spec(with_buffer(r, n), format_size),
        ),
        size_report_suffices(
            wave_proposed_format_spec(Some(r), format_size),
            |n: u32| wave_proposed_format_spec(with_buffer(r, n), format_size),
        ),
        size_report_suffices(
            audio_effects_discovery_spec(Some(r)),
            |n: u32| audio_effects_discovery_spec(with_buffer(r, n)),
        ),
        size_report_suffices(
            wave_effects_discovery_spec(Some(r)),
            |n: u32| wave_effects_discovery_spec(with_buffer(r, n)),
        ),
        size_report_suffices(
            audio_module_spec(Some(r)),
            |n: u32| audio_module_spec(with_buffer(r, n)),
        ),
{
}

/// A size query (a value size of 0) is answered with STATUS_BUFFER_OVERFLOW
/// and the size needed, by every handler that reads or describes a value:
/// basic support everywhere, and the get of a component id, a known jack
/// property, the mute and volume controls and the proposed format.
pub proof fn law_size_query_answered(r: PropertyRequest, format_size: u32)
    requires
        r.value_size == 0,
    ensures
        is_basic_support(r.verb) ==> {
            &&& component_id_spec(Some(r)).status == STATUS_BUFFER_OVERFLOW
            &&& mute_spec(Some(r)).status == STATUS_BUFFER_OVERFLOW
            &&& volume_spec(Some(r)).status == STATUS_BUFFER_OVERFLOW
            &&& proposed_format_handler_spec(Some(r), format_size).status
                == STATUS_BUFFER_OVERFLOW
            &&& audio_effects_discovery_spec(Some(r)).status == STATUS_BUFFER_OVERFLOW
        },
        is_basic_support(r.verb) && r.property_id is Some ==> {
            &&& jack_description_spec(Some(r)).status == STATUS_BUFFER_OVERFLOW
            &&& wave_proposed_format_spec(Some(r), format_size).status == STATUS_BUFFER_OVERFLOW
            &&& wave_effects_discovery_spec(Some(r)).status == STATUS_BUFFER_OVERFLOW
            &&& audio_module_spec(Some(r)).status == STATUS_BUFFER_OVERFLOW
        },
        !is_basic_support(r.verb) ==> {
            &&& component_id_spec(Some(r)).status == STATUS_BUFFER_OVERFLOW
            &&& mute_spec(Some(r)).status == STATUS_BUFFER_OVERFLOW
            &&& volume_spec(Some(r)).status == STATUS_BUFFER_OVERFLOW
        },
        !is_basic_support(r.verb) && !is_set(r.verb) && is_get(r.verb) ==> proposed_format_handler_spec(Some(r), format_size).status == STATUS_BUFFER_OVERFLOW,
{
}

/// Whatever the request, a format the wave filter's proposed-format handler
/// writes is 48 kHz stereo 16-bit PCM, in a structure of the caller's
/// format size.
pub proof fn law_wave_proposed_format_is_48k_stereo_16_bit(
    request: Option<PropertyRequest>,
    format_size: u32,
)
    ensures
        wave_proposed_format_spec(request, format_size).value matches Some(PropertyValue::Format(f))
            ==> is_48k_stereo_16_bit(f) && f.format_size == format_size,
{
    common::law_proposed_format_is_48k_stereo_16_bit(request, format_size);
}

} // verus!
