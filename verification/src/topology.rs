//! The topology miniport: its state, its interface queries, reference
//! counting, pin counts and pin names.
use crate::com::{
    pin_counts,
    pin_counts_spec,
    query_accepted,
    query_invalid,
    query_refused_null,
    InterfaceId,
    PinCounts,
    PinName,
    PinNameResult,
    QueryOut,
    QueryResult,
};
use crate::ks::{STATUS_INVALID_PARAMETER, STATUS_NOINTERFACE, STATUS_SUCCESS};
use vstd::prelude::*;

verus! {

/// The topology miniport's own state.
#[derive(Debug)]
pub struct MiniportTopology {
    pub is_initialized: u32,
    pub is_capture: u32,
    /// The port the miniport was initialized with, as an address.
    pub port: usize,
}

impl MiniportTopology {
    /// Makes an uninitialized topology miniport for the render or the
    /// capture path.
    pub fn new(is_capture: bool) -> (m: Self)
        ensures
            m.is_initialized == 0,
            m.is_capture == (if is_capture {
                1u32
            } else {
                0u32
            }),
            m.port == 0,
    {
        MiniportTopology { is_initialized: 0, is_capture: if is_capture {
            1
        } else {
            0
        }, port: 0 }
    }

    /// Initializes the miniport: it keeps the port and succeeds.
    pub fn init(&mut self, unknown_adapter: usize, resource_list: usize, port: usize) -> (status:
        i32)
        ensures
            status == STATUS_SUCCESS,
            final(self).port == port,
            final(self).is_initialized == 1,
            final(self).is_capture == old(self).is_capture,
    {
        self.port = port;
        self.is_initialized = 1;
        STATUS_SUCCESS
    }
}

/// How far the vtable pointer of an interface lies from the start of the
/// topology object: the vtable pointers are its first fields, 8 bytes
/// each, in the order miniport, pin count, pin name, resource manager.
pub open spec fn topology_slot_offset(slot: TopologyInterface) -> usize {
    match slot {
        TopologyInterface::Miniport => 0,
        TopologyInterface::PinCount => 8,
        TopologyInterface::PinName => 16,
        TopologyInterface::ResourceManager => 24,
    }
}

/// The interfaces of the topology miniport object, one per vtable.
#[derive(Clone, Copy, Debug, PartialEq, Eq, Structural)]
pub enum TopologyInterface {
    /// IMiniportTopology (also answers IUnknown and IMiniport).
    Miniport,
    PinCount,
    PinName,
    /// IPortClsStreamResourceManager2 (also answers the first version).
    ResourceManager,
}

/// The topology miniport object: its state and its reference count.
#[derive(Debug)]
pub struct MiniportTopologyCom {
    pub inner: MiniportTopology,
    pub ref_count: u32,
}

impl MiniportTopologyCom {
    /// Makes the object with one reference.
    pub fn new(is_capture: bool) -> (com: Box<Self>)
        ensures
            com.ref_count == 1,
            com.inner.is_initialized == 0,
            com.inner.is_capture == (if is_capture {
                1u32
            } else {
                0u32
            }),
            com.inner.port == 0,
    {
        Box::new(MiniportTopologyCom { inner: MiniportTopology::new(is_capture), ref_count: 1 })
    }

    /// Returns how far an interface pointer lies from the start of the
    /// object, given which interface's vtable it points at: the vtable
    /// pointers are the object's first fields, 8 bytes each, in the order
    /// miniport, pin count, pin name, resource manager. A pointer whose
    /// vtable is not recognized is taken to be the primary interface.
    pub fn from_this(vtable: Option<TopologyInterface>) -> (offset: usize)
        ensures
            offset == match vtable {
                Some(slot) => topology_slot_offset(slot),
                None => 0,
            },
    {
        match vtable {
            Some(TopologyInterface::Miniport) | None => 0,
            Some(TopologyInterface::PinCount) => 8,
            Some(TopologyInterface::PinName) => 16,
            Some(TopologyInterface::ResourceManager) => 24,
        }
    }
}

/// Which interface of the topology object a query for `iid` gets: the
/// miniport, pin-count, pin-name and resource-manager interfaces are
/// given; every other id (power notification, adapter power management,
/// signal processing, engine nodes and unknown ids among them) is refused
/// with a cleared output, as a COM QueryInterface does.
pub open spec fn topology_query_spec(iid: InterfaceId) -> QueryResult<TopologyInterface> {
    match iid {
        InterfaceId::IMiniportTopology | InterfaceId::IUnknown | InterfaceId::IMiniport => {
            query_accepted(TopologyInterface::Miniport)
        },
        InterfaceId::IPinCount => query_accepted(TopologyInterface::PinCount),
        InterfaceId::IPinName => query_accepted(TopologyInterface::PinName),
        InterfaceId::IPortClsStreamResourceManager | InterfaceId::IPortClsStreamResourceManager2 => {
            query_accepted(TopologyInterface::ResourceManager)
        },
        _ => query_refused_null(),
    }
}

/// The ids the topology object implements: IUnknown, IMiniport,
/// IMiniportTopology, IPinCount, IPinName and both versions of
/// IPortClsStreamResourceManager.
pub open spec fn topology_implements(iid: InterfaceId) -> bool {
    ||| iid == InterfaceId::IUnknown
    ||| iid == InterfaceId::IMiniport
    ||| iid == InterfaceId::IMiniportTopology
    ||| iid == InterfaceId::IPinCount
    ||| iid == InterfaceId::IPinName
    ||| iid == InterfaceId::IPortClsStreamResourceManager
    ||| iid == InterfaceId::IPortClsStreamResourceManager2
}

/// The topology object with one more reference.
pub open spec fn topology_ref_added(c: MiniportTopologyCom) -> MiniportTopologyCom {
    MiniportTopologyCom { inner: c.inner, ref_count: (c.ref_count + 1) as u32 }
}

/// The topology object with one reference fewer.
pub open spec fn topology_ref_dropped(c: MiniportTopologyCom) -> MiniportTopologyCom {
    MiniportTopologyCom { inner: c.inner, ref_count: (c.ref_count - 1) as u32 }
}

/// The topology object after a query for `iid` with an output: an accepted
/// query takes a reference, a refused one leaves the object as it was.
pub open spec fn topology_after_query(c: MiniportTopologyCom, iid: InterfaceId) -> MiniportTopologyCom {
    if topology_query_spec(iid).status == STATUS_SUCCESS {
        topology_ref_added(c)
    } else {
        c
    }
}

/// Answers an interface query on the topology object (QueryInterface).
/// A missing id or output is an invalid parameter; an accepted query takes
/// a reference.
pub fn topology_query_interface(
    com: &mut MiniportTopologyCom,
    iid: Option<InterfaceId>,
    has_out: bool,
) -> (result: QueryResult<TopologyInterface>)
    requires
        has_out && iid is Some && topology_query_spec(iid->0).status == STATUS_SUCCESS ==> old(
            com,
        ).ref_count < u32::MAX,
    ensures
        iid is None || !has_out ==> result == query_invalid::<TopologyInterface>(),
        has_out && iid is Some ==> result == topology_query_spec(iid->0),
        final(com).ref_count == old(com).ref_count + (if result.status == STATUS_SUCCESS {
            1int
        } else {
            0int
        }),
        final(com).inner == old(com).inner,
        has_out && iid is Some ==> *final(com) == topology_after_query(*old(com), iid->0),
        iid is None || !has_out ==> *final(com) == *old(com),
{
    let id = match iid {
        None => {
            return QueryResult { status: STATUS_INVALID_PARAMETER, out: QueryOut::Untouched };
        },
        Some(id) => id,
    };
    if !has_out {
        return QueryResult { status: STATUS_INVALID_PARAMETER, out: QueryOut::Untouched };
    }
    let slot = match id {
        InterfaceId::IMiniportTopology | InterfaceId::IUnknown | InterfaceId::IMiniport => {
            TopologyInterface::Miniport
        },
        InterfaceId::IPinCount => TopologyInterface::PinCount,
        InterfaceId::IPinName => TopologyInterface::PinName,
        InterfaceId::IPortClsStreamResourceManager | InterfaceId::IPortClsStreamResourceManager2 => {
            TopologyInterface::ResourceManager
        },
        _ => {
            return QueryResult { status: STATUS_NOINTERFACE, out: QueryOut::Null };
        },
    };
    com.ref_count = com.ref_count + 1;
    QueryResult { status: STATUS_SUCCESS, out: QueryOut::Interface(slot) }
}

/// Takes a reference to the topology object and returns the new count.
pub fn topology_add_ref(com: &mut MiniportTopologyCom) -> (count: u32)
    requires
        old(com).ref_count < u32::MAX,
    ensures
        count == old(com).ref_count + 1,
        final(com).ref_count == count,
        final(com).inner == old(com).inner,
        *final(com) == topology_ref_added(*old(com)),
{
    com.ref_count = com.ref_count + 1;
    com.ref_count
}

/// Drops a reference to the topology object and returns the new count; at
/// 0 the object is to be freed.
pub fn topology_release(com: &mut MiniportTopologyCom) -> (count: u32)
    requires
        old(com).ref_count > 0,
    ensures
        count == old(com).ref_count - 1,
        final(com).ref_count == count,
        final(com).inner == old(com).inner,
        *final(com) == topology_ref_dropped(*old(com)),
{
    com.ref_count = com.ref_count - 1;
    com.ref_count
}

/// Returns the instance counts of any topology pin: one possible
/// instance, none needed or open.
pub fn topology_pin_count(pin_id: u32) -> (counts: PinCounts)
    ensures
        counts == pin_counts_spec(1),
{
    pin_counts(1)
}

/// The name of a topology pin: on the capture side pin 0 is the capture
/// pin, on the render side pin 1 is the render pin; the others are bridges.
pub open spec fn topology_pin_name_spec(is_capture: bool, pin_id: u32) -> PinName {
    if is_capture {
        if pin_id == 0 {
            PinName::CapturePin
        } else {
            PinName::CaptureBridge
        }
    } else if pin_id == 1 {
        PinName::RenderPin
    } else {
        PinName::RenderBridge
    }
}

/// Names a topology pin (GetPinName). A missing pin property or output is
/// an invalid parameter.
pub fn topology_get_pin_name(
    com: &MiniportTopologyCom,
    pin_id: Option<u32>,
    has_data: bool,
) -> (result: PinNameResult)
    ensures
        pin_id is None || !has_data ==> result == (PinNameResult {
            status: STATUS_INVALID_PARAMETER,
            name: None,
        }),
        has_data && pin_id is Some ==> result == (PinNameResult {
            status: STATUS_SUCCESS,
            name: Some(topology_pin_name_spec(com.inner.is_capture != 0, pin_id->0)),
        }),
{
    let p = match pin_id {
        None => {
            return PinNameResult { status: STATUS_INVALID_PARAMETER, name: None };
        },
        Some(p) => p,
    };
    if !has_data {
        return PinNameResult { status: STATUS_INVALID_PARAMETER, name: None };
    }
    let name = if com.inner.is_capture != 0 {
        if p == 0 {
            PinName::CapturePin
        } else {
            PinName::CaptureBridge
        }
    } else if p == 1 {
        PinName::RenderPin
    } else {
        PinName::RenderBridge
    };
    PinNameResult { status: STATUS_SUCCESS, name: Some(name) }
}

/// The filter descriptors the miniports hand to the port.
#[derive(Clone, Copy, Debug, PartialEq, Eq, Structural)]
pub enum FilterDescriptor {
    WaveRender,
    WaveCapture,
    TopologyRender,
    TopologyCapture,
}

/// Returns the topology filter's descriptor (GetDescription): the capture
/// or the render one. A missing output is an invalid parameter.
pub fn topology_get_description(com: &MiniportTopologyCom, has_out: bool) -> (result: (
    i32,
    Option<FilterDescriptor>,
))
    ensures
        !has_out ==> result == (STATUS_INVALID_PARAMETER, None::<FilterDescriptor>),
        has_out ==> result == (STATUS_SUCCESS, Some(
            if com.inner.is_capture != 0 {
                FilterDescriptor::TopologyCapture
            } else {
                FilterDescriptor::TopologyRender
            },
        )),
{
    if !has_out {
        return (STATUS_INVALID_PARAMETER, None);
    }
    if com.inner.is_capture != 0 {
        (STATUS_SUCCESS, Some(FilterDescriptor::TopologyCapture))
    } else {
        (STATUS_SUCCESS, Some(FilterDescriptor::TopologyRender))
    }
}

/// Initializes the topology object (Init): it keeps the port and succeeds.
pub fn topology_init(
    com: &mut MiniportTopologyCom,
    unknown_adapter: usize,
    resource_list: usize,
    port: usize,
) -> (status: i32)
    ensures
        status == STATUS_SUCCESS,
        final(com).inner.port == port,
        final(com).inner.is_initialized == 1,
        final(com).inner.is_capture == old(com).inner.is_capture,
        final(com).ref_count == old(com).ref_count,
{
    com.inner.init(unknown_adapter, resource_list, port)
}

/// Registers a stream resource (IPortClsStreamResourceManager2): accepted
/// without effect.
pub fn topology_add_resource() -> (status: i32)
    ensures
        status == STATUS_SUCCESS,
{
    STATUS_SUCCESS
}

/// Removes a stream resource: accepted without effect.
pub fn topology_remove_resource() -> (status: i32)
    ensures
        status == STATUS_SUCCESS,
{
    STATUS_SUCCESS
}

// ---------------------------------------------------------------------------
// Laws of the topology object
// ---------------------------------------------------------------------------

/// A query succeeds exactly when it hands out an interface, the interfaces
/// handed out are exactly the four the object implements, and every
/// refusal clears the caller's output (none leaves it untouched).
pub proof fn law_topology_query_success_hands_out(iid: InterfaceId)
    ensures
        !(topology_query_spec(iid).out is Untouched),
        topology_query_spec(iid).status != STATUS_SUCCESS ==> topology_query_spec(iid)
            == query_refused_null::<TopologyInterface>(),
        (topology_query_spec(iid).status == STATUS_SUCCESS) == (topology_query_spec(
            iid,
        ).out is Interface),
        (topology_query_spec(iid).status == STATUS_SUCCESS) == (iid == InterfaceId::IUnknown
            || iid == InterfaceId::IMiniport || iid == InterfaceId::IMiniportTopology || iid
            == InterfaceId::IPinCount || iid == InterfaceId::IPinName || iid
            == InterfaceId::IPortClsStreamResourceManager || iid
            == InterfaceId::IPortClsStreamResourceManager2),
{
}

/// Each pin of each topology filter has exactly one name, and the render
/// and capture sides never share one.
pub proof fn law_topology_pin_names_by_side(pin_id: u32)
    ensures
        topology_pin_name_spec(true, pin_id) == PinName::CapturePin || topology_pin_name_spec(
            true,
            pin_id,
        ) == PinName::CaptureBridge,
        topology_pin_name_spec(false, pin_id) == PinName::RenderPin || topology_pin_name_spec(
            false,
            pin_id,
        ) == PinName::RenderBridge,
        pin_id == 0 ==> topology_pin_name_spec(true, pin_id) == PinName::CapturePin,
        pin_id != 0 ==> topology_pin_name_spec(true, pin_id) == PinName::CaptureBridge,
        pin_id == 1 ==> topology_pin_name_spec(false, pin_id) == PinName::RenderPin,
        pin_id != 1 ==> topology_pin_name_spec(false, pin_id) == PinName::RenderBridge,
{
}

/// Every interface handed out has a vtable field of its own: the four
/// slots lie at distinct offsets, each a multiple of 8 inside the object's
/// four vtable pointers, and `from_this` of a slot gives that offset back.
pub proof fn law_topology_interface_slots_distinct()
    ensures
        forall|a: TopologyInterface, b: TopologyInterface|
            a != b ==> topology_slot_offset(a) != topology_slot_offset(b),
        forall|a: TopologyInterface|
            #![auto]
            topology_slot_offset(a) % 8 == 0 && topology_slot_offset(a) < 32,
{
}

/// Taking a reference and then dropping one leaves the object as it was,
/// whatever its count below the counter's limit; and a release reaches 0,
/// the point where the object is freed, exactly from a count of 1.
pub proof fn law_topology_add_ref_then_release(c: MiniportTopologyCom)
    requires
        c.ref_count < u32::MAX,
    ensures
        topology_ref_added(c).ref_count == c.ref_count + 1,
        topology_ref_dropped(topology_ref_added(c)) == c,
        c.ref_count > 0 ==> ((topology_ref_dropped(c).ref_count == 0) == (c.ref_count == 1)),
{
}

/// QueryInterface on an object holding `k` references: for each of the
/// seven ids the object implements the query succeeds, hands out the
/// vtable field of the matching interface (at the offset from which
/// `from_this` leads back to the object's start) and leaves k + 1
/// references; for every other id it answers no-interface, clears the
/// output and leaves the object as it was.
pub proof fn law_topology_query_interface(c: MiniportTopologyCom, iid: InterfaceId)
    requires
        topology_implements(iid) ==> c.ref_count < u32::MAX,
    ensures
        topology_implements(iid) ==> topology_query_spec(iid).status == STATUS_SUCCESS
            && topology_after_query(c, iid).ref_count == c.ref_count + 1
            && topology_after_query(c, iid).inner == c.inner,
        iid == InterfaceId::IUnknown || iid == InterfaceId::IMiniport || iid
            == InterfaceId::IMiniportTopology ==> topology_query_spec(iid).out == QueryOut::Interface(
            TopologyInterface::Miniport,
        ) && topology_slot_offset(TopologyInterface::Miniport) == 0,
        iid == InterfaceId::IPinCount ==> topology_query_spec(iid).out == QueryOut::Interface(
            TopologyInterface::PinCount,
        ) && topology_slot_offset(TopologyInterface::PinCount) == 8,
        iid == InterfaceId::IPinName ==> topology_query_spec(iid).out == QueryOut::Interface(
            TopologyInterface::PinName,
        ) && topology_slot_offset(TopologyInterface::PinName) == 16,
        iid == InterfaceId::IPortClsStreamResourceManager || iid
            == InterfaceId::IPortClsStreamResourceManager2 ==> topology_query_spec(iid).out
            == QueryOut::Interface(TopologyInterface::ResourceManager) && topology_slot_offset(
            TopologyInterface::ResourceManager,
        ) == 24,
        !topology_implements(iid) ==> topology_query_spec(iid) == query_refused_null::<
            TopologyInterface,
        >() && topology_after_query(c, iid) == c,
{
}

} // verus!
