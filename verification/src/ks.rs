//! Kernel-streaming vocabulary shared by the driver's callbacks: GUIDs,
//! NTSTATUS codes, property verbs and the fixed layouts' sizes.
use vstd::prelude::*;

verus! {

/// A GUID as its four fields.
#[derive(Clone, Copy, Debug, PartialEq, Eq)]
pub struct Guid {
    pub data1: u32,
    pub data2: u16,
    pub data3: u16,
    pub data4: [u8; 8],
}

// ---------------------------------------------------------------------------
// NTSTATUS codes (the Windows values, as signed 32-bit integers)
// ---------------------------------------------------------------------------

/// STATUS_SUCCESS.
pub const STATUS_SUCCESS: i32 = 0;

/// STATUS_BUFFER_OVERFLOW (0x80000005): the caller's buffer is too small,
/// and the size it needs was reported.
pub const STATUS_BUFFER_OVERFLOW: i32 = -2147483643;

/// STATUS_NOT_IMPLEMENTED (0xC0000002).
pub const STATUS_NOT_IMPLEMENTED: i32 = -1073741822;

/// STATUS_INVALID_PARAMETER (0xC000000D).
pub const STATUS_INVALID_PARAMETER: i32 = -1073741811;

/// STATUS_INVALID_DEVICE_REQUEST (0xC0000010).
pub const STATUS_INVALID_DEVICE_REQUEST: i32 = -1073741808;

/// STATUS_ALREADY_COMMITTED (0xC0000021).
pub const STATUS_ALREADY_COMMITTED: i32 = -1073741791;

/// STATUS_BUFFER_TOO_SMALL (0xC0000023).
pub const STATUS_BUFFER_TOO_SMALL: i32 = -1073741789;

/// STATUS_INSUFFICIENT_RESOURCES (0xC000009A).
pub const STATUS_INSUFFICIENT_RESOURCES: i32 = -1073741670;

/// STATUS_NO_MATCH (0xC0000272).
pub const STATUS_NO_MATCH: i32 = -1073741198;

/// STATUS_NOINTERFACE (0xC00002B9).
pub const STATUS_NOINTERFACE: i32 = -1073741127;

/// Whether an NTSTATUS value reports success: success and informational
/// codes are not negative.
pub open spec fn nt_success_spec(status: i32) -> bool {
    status >= 0
}

/// Returns whether an NTSTATUS value reports success (NT_SUCCESS).
pub fn nt_success(status: i32) -> (ok: bool)
    ensures
        ok == nt_success_spec(status),
{
    status >= 0
}

// ---------------------------------------------------------------------------
// Property verbs and identifiers
// ---------------------------------------------------------------------------

/// KSPROPERTY_TYPE_GET.
pub const KSPROPERTY_TYPE_GET: u32 = 0x1;

/// KSPROPERTY_TYPE_SET.
pub const KSPROPERTY_TYPE_SET: u32 = 0x2;

/// KSPROPERTY_TYPE_BASICSUPPORT.
pub const KSPROPERTY_TYPE_BASICSUPPORT: u32 = 0x200;

/// KSPROPERTY_JACK_DESCRIPTION.
pub const KSPROPERTY_JACK_DESCRIPTION: u32 = 1;

/// KSPROPERTY_JACK_DESCRIPTION2.
pub const KSPROPERTY_JACK_DESCRIPTION2: u32 = 2;

/// KSPROPERTY_PIN_PROPOSEDATAFORMAT.
pub const KSPROPERTY_PIN_PROPOSEDATAFORMAT: u32 = 14;

/// KSPROPERTY_PIN_PROPOSEDATAFORMAT2.
pub const KSPROPERTY_PIN_PROPOSEDATAFORMAT2: u32 = 15;

/// KSPROPERTY_AUDIOMODULE_COMMAND.
pub const KSPROPERTY_AUDIOMODULE_COMMAND: u32 = 2;

/// KSPROPERTY_MEMBER_STEPPEDRANGES.
pub const KSPROPERTY_MEMBER_STEPPEDRANGES: u32 = 2;

/// VT_I4: the property's value is a signed 32-bit integer.
pub const VT_I4: u32 = 3;

/// VT_BOOL: the property's value is a boolean.
pub const VT_BOOL: u32 = 11;

/// The jack colour black.
pub const JACK_COLOR_BLACK: u32 = 0x000000;

// ---------------------------------------------------------------------------
// Sizes of the fixed kernel-streaming layouts, in bytes
// ---------------------------------------------------------------------------

/// A ULONG (and a LONG).
pub const ULONG_SIZE: u32 = 4;

/// KSPROPERTY_DESCRIPTION: four ULONGs around a KSIDENTIFIER (a GUID and
/// two ULONGs).
pub const PROPERTY_DESCRIPTION_SIZE: u32 = 40;

/// KSPROPERTY_MEMBERSHEADER: four ULONGs.
pub const MEMBERS_HEADER_SIZE: u32 = 16;

/// KSPROPERTY_STEPPING_LONG: two ULONGs and two LONGs.
pub const STEPPING_LONG_SIZE: u32 = 16;

/// A KSPROPERTY_DESCRIPTION followed by one members header and one
/// stepping range, as the volume control describes itself.
pub const VOLUME_DESCRIPTION_SIZE: u32 = 72;

/// KSCOMPONENTID: four GUIDs and two ULONGs.
pub const COMPONENT_ID_SIZE: u32 = 72;

/// KSJACK_DESCRIPTION: seven ULONGs.
pub const JACK_DESCRIPTION_SIZE: u32 = 28;

/// KSJACK_DESCRIPTION2: two ULONGs.
pub const JACK_DESCRIPTION2_SIZE: u32 = 8;

/// KSDATAFORMAT: four ULONGs and three GUIDs.
pub const DATA_FORMAT_SIZE: u32 = 64;

// ---------------------------------------------------------------------------
// Format GUIDs
// ---------------------------------------------------------------------------

/// KSDATAFORMAT_TYPE_AUDIO.
pub open spec fn ksdataformat_type_audio_spec() -> Guid {
    Guid {
        data1: 0x73647561,
    data2: 0x0000,
    data3: 0x0010,
    data4: [0x80u8, 0x00, 0x00, 0xAA, 0x00, 0x38, 0x9B, 0x71],
    }
}

/// KSDATAFORMAT_TYPE_AUDIO.
#[verifier::when_used_as_spec(ksdataformat_type_audio_spec)]
pub fn ksdataformat_type_audio() -> (g: Guid)
    ensures
        g == ksdataformat_type_audio_spec(),
{
    Guid {
        data1: 0x73647561,
    data2: 0x0000,
    data3: 0x0010,
    data4: [0x80u8, 0x00, 0x00, 0xAA, 0x00, 0x38, 0x9B, 0x71],
    }
}


/// KSDATAFORMAT_SUBTYPE_PCM.
pub open spec fn ksdataformat_subtype_pcm_spec() -> Guid {
    Guid {
        data1: 0x00000001,
    data2: 0x0000,
    data3: 0x0010,
    data4: [0x80u8, 0x00, 0x00, 0xAA, 0x00, 0x38, 0x9B, 0x71],
    }
}

/// KSDATAFORMAT_SUBTYPE_PCM.
#[verifier::when_used_as_spec(ksdataformat_subtype_pcm_spec)]
pub fn ksdataformat_subtype_pcm() -> (g: Guid)
    ensures
        g == ksdataformat_subtype_pcm_spec(),
{
    Guid {
        data1: 0x00000001,
    data2: 0x0000,
    data3: 0x0010,
    data4: [0x80u8, 0x00, 0x00, 0xAA, 0x00, 0x38, 0x9B, 0x71],
    }
}


/// KSDATAFORMAT_SUBTYPE_IEEE_FLOAT.
pub open spec fn ksdataformat_subtype_ieee_float_spec() -> Guid {
    Guid {
        data1: 0x00000003,
    data2: 0x0000,
    data3: 0x0010,
    data4: [0x80u8, 0x00, 0x00, 0xAA, 0x00, 0x38, 0x9B, 0x71],
    }
}

/// KSDATAFORMAT_SUBTYPE_IEEE_FLOAT.
#[verifier::when_used_as_spec(ksdataformat_subtype_ieee_float_spec)]
pub fn ksdataformat_subtype_ieee_float() -> (g: Guid)
    ensures
        g == ksdataformat_subtype_ieee_float_spec(),
{
    Guid {
        data1: 0x00000003,
    data2: 0x0000,
    data3: 0x0010,
    data4: [0x80u8, 0x00, 0x00, 0xAA, 0x00, 0x38, 0x9B, 0x71],
    }
}


/// KSDATAFORMAT_SPECIFIER_WAVEFORMATEX.
pub open spec fn ksdataformat_specifier_waveformatex_spec() -> Guid {
    Guid {
        data1: 0x05589F81,
    data2: 0xC356,
    data3: 0x11CE,
    data4: [0xBFu8, 0x01, 0x00, 0xAA, 0x00, 0x55, 0x59, 0x5A],
    }
}

/// KSDATAFORMAT_SPECIFIER_WAVEFORMATEX.
#[verifier::when_used_as_spec(ksdataformat_specifier_waveformatex_spec)]
pub fn ksdataformat_specifier_waveformatex() -> (g: Guid)
    ensures
        g == ksdataformat_specifier_waveformatex_spec(),
{
    Guid {
        data1: 0x05589F81,
    data2: 0xC356,
    data3: 0x11CE,
    data4: [0xBFu8, 0x01, 0x00, 0xAA, 0x00, 0x55, 0x59, 0x5A],
    }
}


/// KSDATAFORMAT_SUBTYPE_ANALOG.
pub open spec fn ksdataformat_subtype_analog_spec() -> Guid {
    Guid {
        data1: 0x6DBA3190,
    data2: 0x67BD,
    data3: 0x11CF,
    data4: [0xA0u8, 0xF7, 0x00, 0x20, 0xAF, 0xD1, 0x56, 0xE4],
    }
}

/// KSDATAFORMAT_SUBTYPE_ANALOG.
#[verifier::when_used_as_spec(ksdataformat_subtype_analog_spec)]
pub fn ksdataformat_subtype_analog() -> (g: Guid)
    ensures
        g == ksdataformat_subtype_analog_spec(),
{
    Guid {
        data1: 0x6DBA3190,
    data2: 0x67BD,
    data3: 0x11CF,
    data4: [0xA0u8, 0xF7, 0x00, 0x20, 0xAF, 0xD1, 0x56, 0xE4],
    }
}


/// KSDATAFORMAT_SPECIFIER_NONE.
pub open spec fn ksdataformat_specifier_none_spec() -> Guid {
    Guid {
        data1: 0x0F6417D6,
    data2: 0xC318,
    data3: 0x11D0,
    data4: [0xA4u8, 0x3F, 0x00, 0xA0, 0xC9, 0x22, 0x31, 0x96],
    }
}

/// KSDATAFORMAT_SPECIFIER_NONE.
#[verifier::when_used_as_spec(ksdataformat_specifier_none_spec)]
pub fn ksdataformat_specifier_none() -> (g: Guid)
    ensures
        g == ksdataformat_specifier_none_spec(),
{
    Guid {
        data1: 0x0F6417D6,
    data2: 0xC318,
    data3: 0x11D0,
    data4: [0xA4u8, 0x3F, 0x00, 0xA0, 0xC9, 0x22, 0x31, 0x96],
    }
}


/// The property type set of general (VARIANT-typed) properties.
pub open spec fn ksproptypesetid_general_spec() -> Guid {
    Guid {
        data1: 0x97E99BA0,
    data2: 0xBDEA,
    data3: 0x11CF,
    data4: [0xA5u8, 0xD6, 0x28, 0xDB, 0x04, 0xC1, 0x00, 0x00],
    }
}

/// The property type set of general (VARIANT-typed) properties.
#[verifier::when_used_as_spec(ksproptypesetid_general_spec)]
pub fn ksproptypesetid_general() -> (g: Guid)
    ensures
        g == ksproptypesetid_general_spec(),
{
    Guid {
        data1: 0x97E99BA0,
    data2: 0xBDEA,
    data3: 0x11CF,
    data4: [0xA5u8, 0xD6, 0x28, 0xDB, 0x04, 0xC1, 0x00, 0x00],
    }
}


/// The null GUID.
pub open spec fn guid_null_spec() -> Guid {
    Guid {
        data1: 0x00000000,
    data2: 0x0000,
    data3: 0x0000,
    data4: [0x00u8, 0x00, 0x00, 0x00, 0x00, 0x00, 0x00, 0x00],
    }
}

/// The null GUID.
#[verifier::when_used_as_spec(guid_null_spec)]
pub fn guid_null() -> (g: Guid)
    ensures
        g == guid_null_spec(),
{
    Guid {
        data1: 0x00000000,
    data2: 0x0000,
    data3: 0x0000,
    data4: [0x00u8, 0x00, 0x00, 0x00, 0x00, 0x00, 0x00, 0x00],
    }
}


/// KSNODETYPE_SPEAKER.
pub open spec fn ksnodetype_speaker_spec() -> Guid {
    Guid {
        data1: 0xDFF21CE1,
    data2: 0xF70F,
    data3: 0x11D0,
    data4: [0xB9u8, 0x17, 0x00, 0xA0, 0xC9, 0x22, 0x31, 0x96],
    }
}

/// KSNODETYPE_SPEAKER.
#[verifier::when_used_as_spec(ksnodetype_speaker_spec)]
pub fn ksnodetype_speaker() -> (g: Guid)
    ensures
        g == ksnodetype_speaker_spec(),
{
    Guid {
        data1: 0xDFF21CE1,
    data2: 0xF70F,
    data3: 0x11D0,
    data4: [0xB9u8, 0x17, 0x00, 0xA0, 0xC9, 0x22, 0x31, 0x96],
    }
}


/// KSNODETYPE_MICROPHONE.
pub open spec fn ksnodetype_microphone_spec() -> Guid {
    Guid {
        data1: 0xDFF21BE1,
    data2: 0xF70F,
    data3: 0x11D0,
    data4: [0xB9u8, 0x17, 0x00, 0xA0, 0xC9, 0x22, 0x31, 0x96],
    }
}

/// KSNODETYPE_MICROPHONE.
#[verifier::when_used_as_spec(ksnodetype_microphone_spec)]
pub fn ksnodetype_microphone() -> (g: Guid)
    ensures
        g == ksnodetype_microphone_spec(),
{
    Guid {
        data1: 0xDFF21BE1,
    data2: 0xF70F,
    data3: 0x11D0,
    data4: [0xB9u8, 0x17, 0x00, 0xA0, 0xC9, 0x22, 0x31, 0x96],
    }
}


/// KSCATEGORY_AUDIO.
pub open spec fn kscategory_audio_guid_spec() -> Guid {
    Guid {
        data1: 0x6994AD04,
    data2: 0x93EF,
    data3: 0x11D0,
    data4: [0xA3u8, 0xCC, 0x00, 0xA0, 0xC9, 0x22, 0x31, 0x96],
    }
}

/// KSCATEGORY_AUDIO.
#[verifier::when_used_as_spec(kscategory_audio_guid_spec)]
pub fn kscategory_audio_guid() -> (g: Guid)
    ensures
        g == kscategory_audio_guid_spec(),
{
    Guid {
        data1: 0x6994AD04,
    data2: 0x93EF,
    data3: 0x11D0,
    data4: [0xA3u8, 0xCC, 0x00, 0xA0, 0xC9, 0x22, 0x31, 0x96],
    }
}


/// KSCATEGORY_RENDER.
pub open spec fn kscategory_render_guid_spec() -> Guid {
    Guid {
        data1: 0x65E8773E,
    data2: 0x8F56,
    data3: 0x11D0,
    data4: [0xA3u8, 0xB9, 0x00, 0xA0, 0xC9, 0x22, 0x31, 0x96],
    }
}

/// KSCATEGORY_RENDER.
#[verifier::when_used_as_spec(kscategory_render_guid_spec)]
pub fn kscategory_render_guid() -> (g: Guid)
    ensures
        g == kscategory_render_guid_spec(),
{
    Guid {
        data1: 0x65E8773E,
    data2: 0x8F56,
    data3: 0x11D0,
    data4: [0xA3u8, 0xB9, 0x00, 0xA0, 0xC9, 0x22, 0x31, 0x96],
    }
}


/// KSCATEGORY_CAPTURE.
pub open spec fn kscategory_capture_guid_spec() -> Guid {
    Guid {
        data1: 0x65E8773D,
    data2: 0x8F56,
    data3: 0x11D0,
    data4: [0xA3u8, 0xB9, 0x00, 0xA0, 0xC9, 0x22, 0x31, 0x96],
    }
}

/// KSCATEGORY_CAPTURE.
#[verifier::when_used_as_spec(kscategory_capture_guid_spec)]
pub fn kscategory_capture_guid() -> (g: Guid)
    ensures
        g == kscategory_capture_guid_spec(),
{
    Guid {
        data1: 0x65E8773D,
    data2: 0x8F56,
    data3: 0x11D0,
    data4: [0xA3u8, 0xB9, 0x00, 0xA0, 0xC9, 0x22, 0x31, 0x96],
    }
}


/// Returns whether two GUIDs are the same.
pub fn is_equal_guid(a: &Guid, b: &Guid) -> (same: bool)
    ensures
        same == (*a == *b),
{
    let mut i: usize = 0;
    if a.data1 != b.data1 || a.data2 != b.data2 || a.data3 != b.data3 {
        return false;
    }
    while i < 8
        invariant
            i <= 8,
            a.data1 == b.data1 && a.data2 == b.data2 && a.data3 == b.data3,
            forall|j: int| 0 <= j < i ==> a.data4[j] == b.data4[j],
        decreases 8 - i,
    {
        if a.data4[i] != b.data4[i] {
            return false;
        }
        i = i + 1;
    }
    proof {
        vstd::array::axiom_array_ext_equal(a.data4, b.data4);
    }
    assert(a.data4 =~= b.data4);
    true
}

} // verus!
