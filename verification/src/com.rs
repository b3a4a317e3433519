//! What the miniports' COM-style interfaces have in common: the interface
//! ids a caller may ask for, the outcome of an interface query, reference
//! counts, pin instance counts and pin names.
use crate::ks::{STATUS_INVALID_PARAMETER, STATUS_NOINTERFACE, STATUS_SUCCESS};
use vstd::prelude::*;

verus! {

/// The interface ids the miniports recognize; every other id is `Other`.
#[derive(Clone, Copy, Debug, PartialEq, Eq, Structural)]
pub enum InterfaceId {
    IUnknown,
    IMiniport,
    IMiniportTopology,
    IMiniportWaveRT,
    IMiniportWaveRTOutputStream,
    IMiniportWaveRTInputStream,
    IPinCount,
    IPinName,
    IPortClsStreamResourceManager,
    IPortClsStreamResourceManager2,
    IPowerNotify,
    IAdapterPowerManagement,
    IAdapterPowerManagement2,
    IAdapterPowerManagement3,
    IMiniportAudioSignalProcessing,
    IMiniportAudioEngineNode,
    Other,
}

/// What a query writes into the caller's interface output.
#[derive(Debug, PartialEq, Eq)]
pub enum QueryOut<S> {
    /// A pointer to the given interface of the object.
    Interface(S),
    /// A null pointer.
    Null,
    /// Nothing: the output keeps what it held.
    Untouched,
}

/// The outcome of an interface query.
#[derive(Debug, PartialEq, Eq)]
pub struct QueryResult<S> {
    pub status: i32,
    pub out: QueryOut<S>,
}

/// A query outcome with an untouched output.
pub open spec fn query_untouched<S>(status: i32) -> QueryResult<S> {
    QueryResult { status, out: QueryOut::Untouched }
}

/// A refused query that clears the output.
pub open spec fn query_refused_null<S>() -> QueryResult<S> {
    QueryResult { status: STATUS_NOINTERFACE, out: QueryOut::Null }
}

/// An accepted query.
pub open spec fn query_accepted<S>(slot: S) -> QueryResult<S> {
    QueryResult { status: STATUS_SUCCESS, out: QueryOut::Interface(slot) }
}

/// A query with a missing id or output is an invalid parameter.
pub open spec fn query_invalid<S>() -> QueryResult<S> {
    QueryResult { status: STATUS_INVALID_PARAMETER, out: QueryOut::Untouched }
}

/// How many instances of a pin may and do exist.
#[derive(Clone, Copy, Debug, PartialEq, Eq)]
pub struct PinCounts {
    pub filter_necessary: u32,
    pub filter_current: u32,
    pub filter_possible: u32,
    pub global_current: u32,
    pub global_possible: u32,
}

/// The instance counts of a pin of which `possible` instances may exist
/// and none is needed or open.
pub open spec fn pin_counts_spec(possible: u32) -> PinCounts {
    PinCounts {
        filter_necessary: 0,
        filter_current: 0,
        filter_possible: possible,
        global_current: 0,
        global_possible: possible,
    }
}

/// Returns the instance counts of a pin of which `possible` instances may
/// exist and none is needed or open.
pub fn pin_counts(possible: u32) -> (counts: PinCounts)
    ensures
        counts == pin_counts_spec(possible),
{
    PinCounts {
        filter_necessary: 0,
        filter_current: 0,
        filter_possible: possible,
        global_current: 0,
        global_possible: possible,
    }
}

/// The friendly names of the filters' pins.
#[derive(Clone, Copy, Debug, PartialEq, Eq, Structural)]
pub enum PinName {
    CapturePin,
    CaptureBridge,
    RenderPin,
    RenderBridge,
}

/// The text of a pin name.
pub open spec fn pin_name_text_spec(name: PinName) -> Seq<char> {
    match name {
        PinName::CapturePin => "Leyline Capture Pin"@,
        PinName::CaptureBridge => "Leyline Capture Bridge"@,
        PinName::RenderPin => "Leyline Render Pin"@,
        PinName::RenderBridge => "Leyline Render Bridge"@,
    }
}

/// Returns the text of a pin name.
pub fn pin_name_text(name: PinName) -> (text: &'static str)
    ensures
        text@ == pin_name_text_spec(name),
{
    match name {
        PinName::CapturePin => "Leyline Capture Pin",
        PinName::CaptureBridge => "Leyline Capture Bridge",
        PinName::RenderPin => "Leyline Render Pin",
        PinName::RenderBridge => "Leyline Render Bridge",
    }
}

/// The outcome of a pin-name request.
#[derive(Clone, Copy, Debug, PartialEq, Eq)]
pub struct PinNameResult {
    pub status: i32,
    pub name: Option<PinName>,
}

/// The byte lengths of a counted UTF-16 string of `units` code units: its
/// length without, and its buffer size with, the terminating zero.
pub open spec fn unicode_lengths_spec(units: nat) -> (nat, nat) {
    (2 * units, 2 * (units + 1))
}

/// Returns the byte lengths of a counted UTF-16 string of `units` code
/// units (Length and MaximumLength of a UNICODE_STRING).
pub fn unicode_lengths(units: u16) -> (lengths: (u16, u16))
    requires
        units < 0x7fff,
    ensures
        lengths.0 == unicode_lengths_spec(units as nat).0,
        lengths.1 == unicode_lengths_spec(units as nat).1,
{
    (units * 2, (units + 1) * 2)
}

/// Every pin name is short enough for a counted UTF-16 string.
pub proof fn law_pin_names_fit(name: PinName)
    ensures
        0 < pin_name_text_spec(name).len() < 0x7fff,
{
    reveal_strlit("Leyline Capture Pin");
    reveal_strlit("Leyline Capture Bridge");
    reveal_strlit("Leyline Render Pin");
    reveal_strlit("Leyline Render Bridge");
}

} // verus!
