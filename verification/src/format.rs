//! Data formats and format negotiation: the data ranges the circuits
//! offer, and the intersection of a requested range with what the wave and
//! topology filters support.
use crate::ks::{
    is_equal_guid,
    ksdataformat_specifier_none,
    ksdataformat_specifier_waveformatex,
    ksdataformat_subtype_analog,
    ksdataformat_subtype_ieee_float,
    ksdataformat_subtype_pcm,
    ksdataformat_type_audio,
    Guid,
    DATA_FORMAT_SIZE,
    STATUS_BUFFER_TOO_SMALL,
    STATUS_INVALID_PARAMETER,
    STATUS_NO_MATCH,
    STATUS_SUCCESS,
};
use vstd::prelude::*;

verus! {

/// A KSDATAFORMAT (the header of every data range and data format).
#[allow(non_camel_case_types)]
#[derive(Clone, Copy, Debug, PartialEq, Eq)]
pub struct KSDATAFORMAT {
    pub format_size: u32,
    pub flags: u32,
    pub sample_size: u32,
    pub reserved: u32,
    pub major_format: Guid,
    pub sub_format: Guid,
    pub specifier: Guid,
}

/// The PCM range the circuits offer: audio, PCM, WAVEFORMATEX-specified,
/// 4 bytes per stereo 16-bit frame.
pub open spec fn pcm_data_range_spec() -> KSDATAFORMAT {
    KSDATAFORMAT {
        format_size: DATA_FORMAT_SIZE,
        flags: 0,
        sample_size: 4,
        reserved: 0,
        major_format: ksdataformat_type_audio(),
        sub_format: ksdataformat_subtype_pcm(),
        specifier: ksdataformat_specifier_waveformatex(),
    }
}

/// Returns the PCM range the circuits offer.
#[verifier::when_used_as_spec(pcm_data_range_spec)]
pub fn make_pcm_data_range() -> (range: KSDATAFORMAT)
    ensures
        range == pcm_data_range_spec(),
{
    KSDATAFORMAT {
        format_size: DATA_FORMAT_SIZE,
        flags: 0,
        sample_size: 4,
        reserved: 0,
        major_format: ksdataformat_type_audio(),
        sub_format: ksdataformat_subtype_pcm(),
        specifier: ksdataformat_specifier_waveformatex(),
    }
}

/// The float range the circuits offer: audio, IEEE float,
/// WAVEFORMATEX-specified, 8 bytes per stereo 32-bit frame.
pub open spec fn float_data_range_spec() -> KSDATAFORMAT {
    KSDATAFORMAT {
        format_size: DATA_FORMAT_SIZE,
        flags: 0,
        sample_size: 8,
        reserved: 0,
        major_format: ksdataformat_type_audio(),
        sub_format: ksdataformat_subtype_ieee_float(),
        specifier: ksdataformat_specifier_waveformatex(),
    }
}

/// Returns the float range the circuits offer.
#[verifier::when_used_as_spec(float_data_range_spec)]
pub fn make_float_data_range() -> (range: KSDATAFORMAT)
    ensures
        range == float_data_range_spec(),
{
    KSDATAFORMAT {
        format_size: DATA_FORMAT_SIZE,
        flags: 0,
        sample_size: 8,
        reserved: 0,
        major_format: ksdataformat_type_audio(),
        sub_format: ksdataformat_subtype_ieee_float(),
        specifier: ksdataformat_specifier_waveformatex(),
    }
}

/// The fields of a KSDATAFORMAT_WAVEFORMATEX that a negotiation fills in.
#[derive(Clone, Copy, Debug, PartialEq, Eq)]
pub struct WaveFormat {
    pub format_size: u32,
    pub major_format: Guid,
    pub sub_format: Guid,
    pub specifier: Guid,
    pub sample_size: u32,
    pub format_tag: u16,
    pub channels: u16,
    pub samples_per_sec: u32,
    pub avg_bytes_per_sec: u32,
    pub block_align: u16,
    pub bits_per_sample: u16,
    pub cb_size: u16,
}

/// The outcome of a data range intersection.
#[derive(Debug, PartialEq, Eq)]
pub struct Intersection<F> {
    pub status: i32,
    /// The size written to the caller's actual-size output, if any.
    pub actual_size: Option<u32>,
    /// The format written to the caller's format buffer, if any.
    pub format: Option<F>,
}

/// An intersection outcome with a status alone.
pub open spec fn no_format<F>(status: i32) -> Intersection<F> {
    Intersection { status, actual_size: None, format: None }
}

/// The format the wave filter settles on for a PCM or a float range: 48 kHz
/// stereo, 16-bit PCM or 32-bit float, in a structure of `format_size`
/// bytes.
pub open spec fn negotiated_format_spec(sub_format: Guid, is_pcm: bool, format_size: u32)
    -> WaveFormat {
    let bits: u16 = if is_pcm {
        16
    } else {
        32
    };
    let block_align: u16 = if is_pcm {
        4
    } else {
        8
    };
    WaveFormat {
        format_size,
        major_format: ksdataformat_type_audio(),
        sub_format,
        specifier: ksdataformat_specifier_waveformatex(),
        sample_size: block_align as u32,
        format_tag: if is_pcm {
            1
        } else {
            3
        },
        channels: 2,
        samples_per_sec: 48000,
        avg_bytes_per_sec: if is_pcm {
            192000
        } else {
            384000
        },
        block_align,
        bits_per_sample: bits,
        cb_size: 0,
    }
}

/// The wave filter's intersection of a requested range, where
/// `format_size` is the size of a KSDATAFORMAT_WAVEFORMATEX: no miniport or
/// no range is an invalid parameter; a range that is not audio, not
/// WAVEFORMATEX-specified, or neither PCM nor float does not match; a size
/// query (a buffer of 0 bytes) gets the size; a smaller buffer is too small;
/// otherwise the negotiated format is written and its size reported.
pub open spec fn wave_intersection_spec(
    has_miniport: bool,
    data_range: Option<KSDATAFORMAT>,
    data_format_cb: u32,
    format_size: u32,
) -> Intersection<WaveFormat> {
    match data_range {
        None => no_format(STATUS_INVALID_PARAMETER),
        Some(range) => if !has_miniport {
            no_format(STATUS_INVALID_PARAMETER)
        } else if range.major_format != ksdataformat_type_audio() {
            no_format(STATUS_NO_MATCH)
        } else if range.specifier != ksdataformat_specifier_waveformatex() {
            no_format(STATUS_NO_MATCH)
        } else if range.sub_format != ksdataformat_subtype_pcm() && range.sub_format
            != ksdataformat_subtype_ieee_float() {
            no_format(STATUS_NO_MATCH)
        } else if data_format_cb == 0 {
            Intersection {
                status: STATUS_BUFFER_TOO_SMALL,
                actual_size: Some(format_size),
                format: None,
            }
        } else if data_format_cb < format_size {
            no_format(STATUS_BUFFER_TOO_SMALL)
        } else {
            Intersection {
                status: STATUS_SUCCESS,
                actual_size: Some(format_size),
                format: Some(
                    negotiated_format_spec(
                        range.sub_format,
                        range.sub_format == ksdataformat_subtype_pcm(),
                        format_size,
                    ),
                ),
            }
        },
    }
}

/// Negotiates the intersection of a requested data range with the wave
/// filter's formats (the miniport's DataRangeIntersection).
pub fn miniport_data_range_intersection(
    has_miniport: bool,
    data_range: Option<KSDATAFORMAT>,
    data_format_cb: u32,
    format_size: u32,
) -> (result: Intersection<WaveFormat>)
    ensures
        result == wave_intersection_spec(has_miniport, data_range, data_format_cb, format_size),
{
    let range = match data_range {
        None => {
            return Intersection { status: STATUS_INVALID_PARAMETER, actual_size: None, format: None };
        },
        Some(range) => range,
    };
    if !has_miniport {
        return Intersection { status: STATUS_INVALID_PARAMETER, actual_size: None, format: None };
    }
    if !is_equal_guid(&range.major_format, &ksdataformat_type_audio()) {
        return Intersection { status: STATUS_NO_MATCH, actual_size: None, format: None };
    }
    if !is_equal_guid(&range.specifier, &ksdataformat_specifier_waveformatex()) {
        return Intersection { status: STATUS_NO_MATCH, actual_size: None, format: None };
    }
    let is_pcm = is_equal_guid(&range.sub_format, &ksdataformat_subtype_pcm());
    let is_float = is_equal_guid(&range.sub_format, &ksdataformat_subtype_ieee_float());
    if !is_pcm && !is_float {
        return Intersection { status: STATUS_NO_MATCH, actual_size: None, format: None };
    }
    if data_format_cb == 0 {
        return Intersection {
            status: STATUS_BUFFER_TOO_SMALL,
            actual_size: Some(format_size),
            format: None,
        };
    }
    if data_format_cb < format_size {
        return Intersection { status: STATUS_BUFFER_TOO_SMALL, actual_size: None, format: None };
    }
    let channels: u16 = 2;
    let samples_per_sec: u32 = 48000;
    let bits_per_sample: u16 = if is_pcm {
        16
    } else {
        32
    };
    let block_align: u16 = channels * bits_per_sample / 8;
    let format = WaveFormat {
        format_size,
        major_format: ksdataformat_type_audio(),
        sub_format: range.sub_format,
        specifier: ksdataformat_specifier_waveformatex(),
        sample_size: block_align as u32,
        format_tag: if is_pcm {
            1
        } else {
            3
        },
        channels,
        samples_per_sec,
        avg_bytes_per_sec: samples_per_sec * (block_align as u32),
        block_align,
        bits_per_sample,
        cb_size: 0,
    };
    Intersection { status: STATUS_SUCCESS, actual_size: Some(format_size), format: Some(format) }
}

/// The analog bridge format of the topology filter's pins.
pub open spec fn bridge_format_spec() -> KSDATAFORMAT {
    KSDATAFORMAT {
        format_size: DATA_FORMAT_SIZE,
        flags: 0,
        sample_size: 0,
        reserved: 0,
        major_format: ksdataformat_type_audio(),
        sub_format: ksdataformat_subtype_analog(),
        specifier: ksdataformat_specifier_none(),
    }
}

/// Returns the analog bridge format of the topology filter's pins.
#[verifier::when_used_as_spec(bridge_format_spec)]
pub fn bridge_format() -> (f: KSDATAFORMAT)
    ensures
        f == bridge_format_spec(),
{
    KSDATAFORMAT {
        format_size: DATA_FORMAT_SIZE,
        flags: 0,
        sample_size: 0,
        reserved: 0,
        major_format: ksdataformat_type_audio(),
        sub_format: ksdataformat_subtype_analog(),
        specifier: ksdataformat_specifier_none(),
    }
}

/// The topology filter's intersection: it has pins 0 and 1 only, needs a
/// requested range, and answers any range on them with the analog bridge
/// format. A missing or empty format buffer, or one smaller than a
/// KSDATAFORMAT, is too small (the needed size is reported); otherwise the
/// bridge format is written and its size reported. The matching-range
/// output is never filled in.
pub open spec fn topology_intersection_spec(
    pin_id: u32,
    has_data_range: bool,
    has_data_format: bool,
    data_format_cb: u32,
) -> Intersection<KSDATAFORMAT> {
    if pin_id > 1 || !has_data_range {
        no_format(STATUS_INVALID_PARAMETER)
    } else if !has_data_format || data_format_cb < DATA_FORMAT_SIZE {
        Intersection {
            status: STATUS_BUFFER_TOO_SMALL,
            actual_size: Some(DATA_FORMAT_SIZE),
            format: None,
        }
    } else {
        Intersection {
            status: STATUS_SUCCESS,
            actual_size: Some(DATA_FORMAT_SIZE),
            format: Some(bridge_format_spec()),
        }
    }
}

/// Negotiates a data range on the topology filter (its
/// DataRangeIntersection).
pub fn topology_data_range_intersection(
    pin_id: u32,
    has_data_range: bool,
    has_data_format: bool,
    data_format_cb: u32,
) -> (result: Intersection<KSDATAFORMAT>)
    ensures
        result == topology_intersection_spec(
            pin_id,
            has_data_range,
            has_data_format,
            data_format_cb,
        ),
{
    if pin_id > 1 {
        return Intersection { status: STATUS_INVALID_PARAMETER, actual_size: None, format: None };
    }
    if !has_data_range {
        return Intersection { status: STATUS_INVALID_PARAMETER, actual_size: None, format: None };
    }
    if !has_data_format || data_format_cb == 0 {
        return Intersection {
            status: STATUS_BUFFER_TOO_SMALL,
            actual_size: Some(DATA_FORMAT_SIZE),
            format: None,
        };
    }
    if data_format_cb < DATA_FORMAT_SIZE {
        return Intersection {
            status: STATUS_BUFFER_TOO_SMALL,
            actual_size: Some(DATA_FORMAT_SIZE),
            format: None,
        };
    }
    Intersection {
        status: STATUS_SUCCESS,
        actual_size: Some(DATA_FORMAT_SIZE),
        format: Some(bridge_format()),
    }
}

// ---------------------------------------------------------------------------
// Laws of format negotiation
// ---------------------------------------------------------------------------

/// Whether a wave format is self-consistent: the block is one frame of all
/// channels, the byte rate is the frame rate times the block, and the
/// sample size is the block.
pub open spec fn wave_format_consistent(f: WaveFormat) -> bool {
    &&& f.block_align == f.channels * f.bits_per_sample / 8
    &&& f.avg_bytes_per_sec == f.samples_per_sec * f.block_align
    &&& f.sample_size == f.block_align
}

/// A negotiated wave format is self-consistent, carries the requested
/// subtype and the caller's structure size, and is written only into a
/// buffer that holds it.
pub proof fn law_negotiated_format_consistent(
    has_miniport: bool,
    range: KSDATAFORMAT,
    data_format_cb: u32,
    format_size: u32,
)
    ensures
        (wave_intersection_spec(has_miniport, Some(range), data_format_cb, format_size).format
            is Some) ==> ({
            let f = wave_intersection_spec(
                has_miniport,
                Some(range),
                data_format_cb,
                format_size,
            ).format->0;
            &&& wave_format_consistent(f)
            &&& f.sub_format == range.sub_format
            &&& f.format_size == format_size
            &&& data_format_cb >= format_size
        }),
{
    let r = wave_intersection_spec(has_miniport, Some(range), data_format_cb, format_size);
    if r.format is Some {
        let is_pcm = range.sub_format == ksdataformat_subtype_pcm();
        let f = negotiated_format_spec(range.sub_format, is_pcm, format_size);
        assert(r.format->0 == f);
        if is_pcm {
            assert(f.channels * f.bits_per_sample == 32);
            assert(f.block_align == f.channels * f.bits_per_sample / 8);
        } else {
            assert(f.channels * f.bits_per_sample == 64);
            assert(f.block_align == f.channels * f.bits_per_sample / 8);
        }
        assert(f.avg_bytes_per_sec == f.samples_per_sec * f.block_align);
    }
}

/// The wave filter accepts exactly the audio, WAVEFORMATEX-specified PCM
/// and float ranges, whenever the caller's buffer holds the format.
pub proof fn law_wave_accepts_exactly_pcm_and_float(
    range: KSDATAFORMAT,
    data_format_cb: u32,
    format_size: u32,
)
    requires
        data_format_cb >= format_size,
        data_format_cb > 0,
    ensures
        (wave_intersection_spec(true, Some(range), data_format_cb, format_size).status
            == STATUS_SUCCESS) == ({
            &&& range.major_format == ksdataformat_type_audio()
            &&& range.specifier == ksdataformat_specifier_waveformatex()
            &&& (range.sub_format == ksdataformat_subtype_pcm() || range.sub_format
                == ksdataformat_subtype_ieee_float())
        }),
{
}

/// The outcome of a successful wave negotiation that writes `format`.
pub open spec fn accepted(format_size: u32, format: WaveFormat) -> Intersection<WaveFormat> {
    Intersection { status: STATUS_SUCCESS, actual_size: Some(format_size), format: Some(format) }
}

/// The ranges the circuits offer are accepted by the wave filter, giving
/// 16-bit PCM for the PCM range and 32-bit float for the float range.
pub proof fn law_offered_ranges_negotiate(format_size: u32)
    requires
        format_size > 0,
    ensures
        wave_intersection_spec(true, Some(pcm_data_range_spec()), format_size, format_size)
            == accepted(
            format_size,
            negotiated_format_spec(ksdataformat_subtype_pcm(), true, format_size),
        ),
        wave_intersection_spec(true, Some(float_data_range_spec()), format_size, format_size)
            == accepted(
            format_size,
            negotiated_format_spec(ksdataformat_subtype_ieee_float(), false, format_size),
        ),
        wave_format_consistent(
            negotiated_format_spec(ksdataformat_subtype_pcm(), true, format_size),
        ),
        wave_format_consistent(
            negotiated_format_spec(ksdataformat_subtype_ieee_float(), false, format_size),
        ),
{
    assert(ksdataformat_subtype_ieee_float() != ksdataformat_subtype_pcm());
}

/// A range the wave filter does not take (not audio, not described by a
/// WAVEFORMATEX, or neither PCM nor IEEE float) is answered "no match",
/// with no size and no format, whatever buffer the caller offers, a size
/// query (0 bytes) included; and a size report (buffer too small with a
/// size) is given only for a range the filter takes.
pub proof fn law_unsupported_range_never_matches(
    range: KSDATAFORMAT,
    data_format_cb: u32,
    format_size: u32,
)
    ensures
        !({
            &&& range.major_format == ksdataformat_type_audio()
            &&& range.specifier == ksdataformat_specifier_waveformatex()
            &&& (range.sub_format == ksdataformat_subtype_pcm() || range.sub_format
                == ksdataformat_subtype_ieee_float())
        }) ==> wave_intersection_spec(true, Some(range), data_format_cb, format_size) == (
        Intersection::<WaveFormat> { status: STATUS_NO_MATCH, actual_size: None, format: None }),
        wave_intersection_spec(true, Some(range), data_format_cb, format_size).actual_size is Some
            ==> {
            &&& range.major_format == ksdataformat_type_audio()
            &&& range.specifier == ksdataformat_specifier_waveformatex()
            &&& (range.sub_format == ksdataformat_subtype_pcm() || range.sub_format
                == ksdataformat_subtype_ieee_float())
        },
{
}

/// For a range the wave filter takes: a size query (0 bytes) is answered
/// "buffer too small" with the format's size; a smaller buffer is too
/// small with no size; a buffer that holds the format receives a 48 kHz
/// stereo format of the requested subtype, 16-bit for PCM (tag 1) and
/// 32-bit for IEEE float (tag 3), with its size reported.
pub proof fn law_accepted_range_negotiates_48k_stereo(
    range: KSDATAFORMAT,
    data_format_cb: u32,
    format_size: u32,
)
    requires
        range.major_format == ksdataformat_type_audio(),
        range.specifier == ksdataformat_specifier_waveformatex(),
        range.sub_format == ksdataformat_subtype_pcm() || range.sub_format
            == ksdataformat_subtype_ieee_float(),
    ensures
        data_format_cb == 0 ==> wave_intersection_spec(true, Some(range), data_format_cb, format_size)
            == (Intersection::<WaveFormat> {
            status: STATUS_BUFFER_TOO_SMALL,
            actual_size: Some(format_size),
            format: None,
        }),
        0 < data_format_cb < format_size ==> wave_intersection_spec(
            true,
            Some(range),
            data_format_cb,
            format_size,
        ) == (Intersection::<WaveFormat> {
            status: STATUS_BUFFER_TOO_SMALL,
            actual_size: None,
            format: None,
        }),
        0 < data_format_cb && format_size <= data_format_cb ==> {
            let r = wave_intersection_spec(true, Some(range), data_format_cb, format_size);
            &&& r.status == STATUS_SUCCESS
            &&& r.actual_size == Some(format_size)
            &&& r.format matches Some(f) && {
                &&& f.format_size == format_size
                &&& f.major_format == ksdataformat_type_audio()
                &&& f.specifier == ksdataformat_specifier_waveformatex()
                &&& f.sub_format == range.sub_format
                &&& f.channels == 2
                &&& f.samples_per_sec == 48000
                &&& f.bits_per_sample == (if range.sub_format == ksdataformat_subtype_pcm() {
                    16u16
                } else {
                    32u16
                })
                &&& f.format_tag == (if range.sub_format == ksdataformat_subtype_pcm() {
                    1u16
                } else {
                    3u16
                })
                &&& wave_format_consistent(f)
            }
        },
{
    law_negotiated_format_consistent(true, range, data_format_cb, format_size);
}

} // verus!
