//! The WaveRT miniport: its state and stream slots, its interface queries,
//! reference counting, pin counts and pin names.
use crate::com::{
    pin_counts,
    pin_counts_spec,
    query_accepted,
    query_invalid,
    query_refused_null,
    InterfaceId,
    PinCounts,
    PinName,
    PinNameResult,
    QueryOut,
    QueryResult,
};
use crate::ks::{
    STATUS_INSUFFICIENT_RESOURCES,
    STATUS_INVALID_PARAMETER,
    STATUS_NOINTERFACE,
    STATUS_NOT_IMPLEMENTED,
    STATUS_SUCCESS,
};
use crate::topology::FilterDescriptor;
use vstd::prelude::*;

pub use crate::format::miniport_data_range_intersection;

verus! {

/// How many streams a WaveRT miniport can hold.
pub const MAX_STREAMS: usize = 4;

/// The WaveRT miniport's own state. Each stream slot records whether a
/// stream occupies it.
#[derive(Debug)]
pub struct MiniportWaveRT {
    pub max_pci_bar: u32,
    pub is_initialized: bool,
    pub is_capture: bool,
    pub streams: [bool; 4],
    /// The device extension the miniport belongs to, as an address.
    pub device_extension: usize,
}

/// The first free slot among the first `n` slots, if there is one.
pub open spec fn first_free_slot(slots: Seq<bool>, n: int) -> Option<int>
    decreases n,
{
    if n <= 0 {
        None
    } else {
        match first_free_slot(slots, n - 1) {
            Some(i) => Some(i),
            None => if !slots[n - 1] {
                Some(n - 1)
            } else {
                None
            },
        }
    }
}

/// One stream opening on a WaveRT miniport, from `before` to `after`,
/// giving `slot`: an uninitialized miniport gives none and stays as it is;
/// an initialized one takes its first free slot and gives it, or, with all
/// slots taken, gives none and stays as it is. Nothing else changes.
pub open spec fn new_stream_step(before: MiniportWaveRT, after: MiniportWaveRT, slot: Option<usize>)
    -> bool {
    &&& after.is_initialized == before.is_initialized
    &&& after.is_capture == before.is_capture
    &&& after.device_extension == before.device_extension
    &&& after.max_pci_bar == before.max_pci_bar
    &&& if !before.is_initialized {
        slot is None && after.streams == before.streams
    } else {
        match first_free_slot(before.streams@, 4) {
            Some(i) => slot == Some(i as usize) && after.streams@ == before.streams@.update(i, true),
            None => slot is None && after.streams == before.streams,
        }
    }
}

/// The first free slot of the first `n` is free and every slot before it
/// is taken; with no free slot, all `n` are taken.
proof fn lemma_first_free_slot(slots: Seq<bool>, n: int)
    requires
        0 <= n <= slots.len(),
    ensures
        first_free_slot(slots, n) matches Some(i) ==> 0 <= i < n && !slots[i] && forall|j: int|
            0 <= j < i ==> slots[j],
        first_free_slot(slots, n) is None ==> forall|j: int| 0 <= j < n ==> slots[j],
    decreases n,
{
    if n > 0 {
        lemma_first_free_slot(slots, n - 1);
    }
}

impl MiniportWaveRT {
    /// Makes an uninitialized WaveRT miniport with no streams.
    pub fn new(is_capture: bool, device_extension: usize) -> (m: Self)
        ensures
            m.max_pci_bar == 0,
            !m.is_initialized,
            m.is_capture == is_capture,
            m.streams@ == seq![false, false, false, false],
            m.device_extension == device_extension,
    {
        let m = MiniportWaveRT {
            max_pci_bar: 0,
            is_initialized: false,
            is_capture,
            streams: [false, false, false, false],
            device_extension,
        };
        assert(m.streams@ =~= seq![false, false, false, false]);
        m
    }

    /// Initializes the miniport (hardware-independent): it becomes
    /// initialized and succeeds.
    pub fn init(&mut self, unknown_adapter: usize, resource_list: usize, port: usize) -> (status:
        i32)
        ensures
            status == STATUS_SUCCESS,
            final(self).is_initialized,
            final(self).is_capture == old(self).is_capture,
            final(self).streams == old(self).streams,
            final(self).device_extension == old(self).device_extension,
            final(self).max_pci_bar == old(self).max_pci_bar,
    {
        self.is_initialized = true;
        STATUS_SUCCESS
    }

    /// Takes a stream slot: an uninitialized miniport gives none, otherwise
    /// the first free slot is taken and returned (none when all are taken).
    pub fn new_stream(&mut self, pin_id: u32, is_capture: bool, format: usize) -> (slot: Option<
        usize,
    >)
        ensures
            new_stream_step(*old(self), *final(self), slot),
    {
        if !self.is_initialized {
            return None;
        }
        proof {
            lemma_first_free_slot(self.streams@, 4);
        }
        let mut i: usize = 0;
        while i < MAX_STREAMS
            invariant
                i <= 4,
                *self == *old(self),
                self.is_initialized,
                first_free_slot(self.streams@, i as int) is None,
            decreases 4 - i,
        {
            if !self.streams[i] {
                assert(first_free_slot(self.streams@, (i + 1) as int) == Some(i as int));
                proof {
                    lemma_first_free_is_stable(self.streams@, (i + 1) as int, 4);
                }
                self.streams[i] = true;
                return Some(i);
            }
            i = i + 1;
        }
        None
    }

    /// Returns the hardware device description; a virtual device has
    /// nothing to add.
    pub fn get_device_description(&self) -> (status: i32)
        ensures
            status == STATUS_SUCCESS,
    {
        STATUS_SUCCESS
    }
}

/// Once a free slot is found among the first `n` slots, looking at more
/// slots finds the same one.
proof fn lemma_first_free_is_stable(slots: Seq<bool>, n: int, m: int)
    requires
        0 <= n <= m,
        first_free_slot(slots, n) is Some,
    ensures
        first_free_slot(slots, m) == first_free_slot(slots, n),
    decreases m - n,
{
    if m > n {
        lemma_first_free_is_stable(slots, n, m - 1);
    }
}

/// How far the vtable pointer of an interface lies from the start of the
/// WaveRT object: the vtable pointers are its first fields, 8 bytes each,
/// in the order miniport, output stream, input stream, pin count, pin name,
/// resource manager.
pub open spec fn wavert_slot_offset(slot: WaveRTInterface) -> usize {
    match slot {
        WaveRTInterface::Miniport => 0,
        WaveRTInterface::OutputStream => 8,
        WaveRTInterface::InputStream => 16,
        WaveRTInterface::PinCount => 24,
        WaveRTInterface::PinName => 32,
        WaveRTInterface::ResourceManager => 40,
    }
}

/// The interfaces of the WaveRT miniport object, one per vtable.
#[derive(Clone, Copy, Debug, PartialEq, Eq, Structural)]
pub enum WaveRTInterface {
    /// IMiniportWaveRT (also answers IUnknown and IMiniport).
    Miniport,
    OutputStream,
    InputStream,
    PinCount,
    PinName,
    /// IPortClsStreamResourceManager2 (also answers the first version).
    ResourceManager,
}

/// The WaveRT miniport object: its state and its reference count.
#[derive(Debug)]
pub struct MiniportWaveRTCom {
    pub inner: MiniportWaveRT,
    pub ref_count: u32,
}

impl MiniportWaveRTCom {
    /// Makes the object with one reference.
    pub fn new(is_capture: bool, device_extension: usize) -> (com: Box<Self>)
        ensures
            com.ref_count == 1,
            !com.inner.is_initialized,
            com.inner.is_capture == is_capture,
            com.inner.streams@ == seq![false, false, false, false],
            com.inner.device_extension == device_extension,
    {
        Box::new(
            MiniportWaveRTCom { inner: MiniportWaveRT::new(is_capture, device_extension), ref_count: 1 },
        )
    }

    /// Returns how far an interface pointer lies from the start of the
    /// object, given which interface's vtable it points at: the vtable
    /// pointers are the object's first fields, 8 bytes each, in the order
    /// miniport, output stream, input stream, pin count, pin name, resource
    /// manager. A pointer whose vtable is not recognized is taken to be the
    /// primary interface.
    pub fn from_this(vtable: Option<WaveRTInterface>) -> (offset: usize)
        ensures
            offset == match vtable {
                Some(slot) => wavert_slot_offset(slot),
                None => 0,
            },
    {
        match vtable {
            Some(WaveRTInterface::Miniport) | None => 0,
            Some(WaveRTInterface::OutputStream) => 8,
            Some(WaveRTInterface::InputStream) => 16,
            Some(WaveRTInterface::PinCount) => 24,
            Some(WaveRTInterface::PinName) => 32,
            Some(WaveRTInterface::ResourceManager) => 40,
        }
    }
}

/// Which interface of the WaveRT object a query for `iid` gets: the
/// miniport, stream, pin-count, pin-name and resource-manager interfaces
/// are given; every other id is refused with a cleared output.
pub open spec fn wavert_query_spec(iid: InterfaceId) -> QueryResult<WaveRTInterface> {
    match iid {
        InterfaceId::IMiniportWaveRT | InterfaceId::IUnknown | InterfaceId::IMiniport => {
            query_accepted(WaveRTInterface::Miniport)
        },
        InterfaceId::IMiniportWaveRTOutputStream => query_accepted(WaveRTInterface::OutputStream),
        InterfaceId::IMiniportWaveRTInputStream => query_accepted(WaveRTInterface::InputStream),
        InterfaceId::IPinCount => query_accepted(WaveRTInterface::PinCount),
        InterfaceId::IPinName => query_accepted(WaveRTInterface::PinName),
        InterfaceId::IPortClsStreamResourceManager | InterfaceId::IPortClsStreamResourceManager2 => {
            query_accepted(WaveRTInterface::ResourceManager)
        },
        _ => query_refused_null(),
    }
}

/// The ids the WaveRT object implements: IUnknown, IMiniport,
/// IMiniportWaveRT, both stream interfaces, IPinCount, IPinName and both
/// versions of IPortClsStreamResourceManager.
pub open spec fn wavert_implements(iid: InterfaceId) -> bool {
    ||| iid == InterfaceId::IUnknown
    ||| iid == InterfaceId::IMiniport
    ||| iid == InterfaceId::IMiniportWaveRT
    ||| iid == InterfaceId::IMiniportWaveRTOutputStream
    ||| iid == InterfaceId::IMiniportWaveRTInputStream
    ||| iid == InterfaceId::IPinCount
    ||| iid == InterfaceId::IPinName
    ||| iid == InterfaceId::IPortClsStreamResourceManager
    ||| iid == InterfaceId::IPortClsStreamResourceManager2
}

/// The WaveRT object with one more reference.
pub open spec fn wavert_ref_added(c: MiniportWaveRTCom) -> MiniportWaveRTCom {
    MiniportWaveRTCom { inner: c.inner, ref_count: (c.ref_count + 1) as u32 }
}

/// The WaveRT object with one reference fewer.
pub open spec fn wavert_ref_dropped(c: MiniportWaveRTCom) -> MiniportWaveRTCom {
    MiniportWaveRTCom { inner: c.inner, ref_count: (c.ref_count - 1) as u32 }
}

/// The WaveRT object after a query for `iid` with an output: an accepted
/// query takes a reference, a refused one leaves the object as it was.
pub open spec fn wavert_after_query(c: MiniportWaveRTCom, iid: InterfaceId) -> MiniportWaveRTCom {
    if wavert_query_spec(iid).status == STATUS_SUCCESS {
        wavert_ref_added(c)
    } else {
        c
    }
}

/// Answers an interface query on the WaveRT object (QueryInterface). A
/// missing id or output is an invalid parameter; an accepted query takes a
/// reference.
pub fn miniport_query_interface(
    com: &mut MiniportWaveRTCom,
    iid: Option<InterfaceId>,
    has_out: bool,
) -> (result: QueryResult<WaveRTInterface>)
    requires
        has_out && iid is Some && wavert_query_spec(iid->0).status == STATUS_SUCCESS ==> old(
            com,
        ).ref_count < u32::MAX,
    ensures
        iid is None || !has_out ==> result == query_invalid::<WaveRTInterface>(),
        has_out && iid is Some ==> result == wavert_query_spec(iid->0),
        final(com).ref_count == old(com).ref_count + (if result.status == STATUS_SUCCESS {
            1int
        } else {
            0int
        }),
        final(com).inner == old(com).inner,
        has_out && iid is Some ==> *final(com) == wavert_after_query(*old(com), iid->0),
        iid is None || !has_out ==> *final(com) == *old(com),
{
    let id = match iid {
        None => {
            return QueryResult { status: STATUS_INVALID_PARAMETER, out: QueryOut::Untouched };
        },
        Some(id) => id,
    };
    if !has_out {
        return QueryResult { status: STATUS_INVALID_PARAMETER, out: QueryOut::Untouched };
    }
    let slot = match id {
        InterfaceId::IMiniportWaveRT | InterfaceId::IUnknown | InterfaceId::IMiniport => {
            WaveRTInterface::Miniport
        },
        InterfaceId::IMiniportWaveRTOutputStream => WaveRTInterface::OutputStream,
        InterfaceId::IMiniportWaveRTInputStream => WaveRTInterface::InputStream,
        InterfaceId::IPinCount => WaveRTInterface::PinCount,
        InterfaceId::IPinName => WaveRTInterface::PinName,
        InterfaceId::IPortClsStreamResourceManager | InterfaceId::IPortClsStreamResourceManager2 => {
            WaveRTInterface::ResourceManager
        },
        _ => {
            return QueryResult { status: STATUS_NOINTERFACE, out: QueryOut::Null };
        },
    };
    com.ref_count = com.ref_count + 1;
    QueryResult { status: STATUS_SUCCESS, out: QueryOut::Interface(slot) }
}

/// Takes a reference to the WaveRT object and returns the new count. (A
/// call without an object is answered 0 before it gets here.)
pub fn miniport_add_ref(com: &mut MiniportWaveRTCom) -> (count: u32)
    requires
        old(com).ref_count < u32::MAX,
    ensures
        count == old(com).ref_count + 1,
        final(com).ref_count == count,
        final(com).inner == old(com).inner,
        *final(com) == wavert_ref_added(*old(com)),
{
    com.ref_count = com.ref_count + 1;
    com.ref_count
}

/// Drops a reference to the WaveRT object and returns the new count; at 0
/// the object is to be freed. (A call without an object is answered 0
/// before it gets here.)
pub fn miniport_release(com: &mut MiniportWaveRTCom) -> (count: u32)
    requires
        old(com).ref_count > 0,
    ensures
        count == old(com).ref_count - 1,
        final(com).ref_count == count,
        final(com).inner == old(com).inner,
        *final(com) == wavert_ref_dropped(*old(com)),
{
    com.ref_count = com.ref_count - 1;
    com.ref_count
}

/// Returns the wave filter's descriptor (GetDescription): the capture or
/// the render one. A missing output is an invalid parameter.
pub fn miniport_get_description(com: &MiniportWaveRTCom, has_out: bool) -> (result: (
    i32,
    Option<FilterDescriptor>,
))
    ensures
        !has_out ==> result == (STATUS_INVALID_PARAMETER, None::<FilterDescriptor>),
        has_out ==> result == (STATUS_SUCCESS, Some(
            if com.inner.is_capture {
                FilterDescriptor::WaveCapture
            } else {
                FilterDescriptor::WaveRender
            },
        )),
{
    if !has_out {
        return (STATUS_INVALID_PARAMETER, None);
    }
    if com.inner.is_capture {
        (STATUS_SUCCESS, Some(FilterDescriptor::WaveCapture))
    } else {
        (STATUS_SUCCESS, Some(FilterDescriptor::WaveRender))
    }
}

/// Initializes the WaveRT object (Init).
pub fn miniport_init(
    com: &mut MiniportWaveRTCom,
    unknown_adapter: usize,
    resource_list: usize,
    port: usize,
) -> (status: i32)
    ensures
        status == STATUS_SUCCESS,
        final(com).inner.is_initialized,
        final(com).inner.streams == old(com).inner.streams,
        final(com).inner.is_capture == old(com).inner.is_capture,
        final(com).inner.device_extension == old(com).inner.device_extension,
        final(com).inner.max_pci_bar == old(com).inner.max_pci_bar,
        final(com).ref_count == old(com).ref_count,
{
    com.inner.init(unknown_adapter, resource_list, port)
}

/// Returns the hardware device description of the WaveRT object. A missing
/// output is an invalid parameter.
pub fn miniport_get_device_description(com: &MiniportWaveRTCom, has_out: bool) -> (status: i32)
    ensures
        status == (if has_out {
            STATUS_SUCCESS
        } else {
            STATUS_INVALID_PARAMETER
        }),
{
    if !has_out {
        return STATUS_INVALID_PARAMETER;
    }
    com.inner.get_device_description()
}

/// Opens a stream on the WaveRT object (NewStream): a missing stream
/// output is an invalid parameter, no free slot (or an uninitialized
/// miniport) means insufficient resources, otherwise the slot taken is
/// returned.
pub fn miniport_new_stream(
    com: &mut MiniportWaveRTCom,
    has_stream_out: bool,
    pin_id: u32,
    capture: bool,
    format: usize,
) -> (result: (i32, Option<usize>))
    ensures
        !has_stream_out ==> result == (STATUS_INVALID_PARAMETER, None::<usize>)
            && final(com).inner.streams == old(com).inner.streams,
        has_stream_out && (!old(com).inner.is_initialized || first_free_slot(
            old(com).inner.streams@,
            4,
        ) is None) ==> result == (STATUS_INSUFFICIENT_RESOURCES, None::<usize>)
            && final(com).inner.streams == old(com).inner.streams,
        has_stream_out && old(com).inner.is_initialized && first_free_slot(
            old(com).inner.streams@,
            4,
        ) is Some ==> ({
            let i = first_free_slot(old(com).inner.streams@, 4)->0;
            &&& result == (STATUS_SUCCESS, Some(i as usize))
            &&& final(com).inner.streams@ == old(com).inner.streams@.update(i, true)
        }),
        final(com).ref_count == old(com).ref_count,
        final(com).inner.is_initialized == old(com).inner.is_initialized,
        final(com).inner.is_capture == old(com).inner.is_capture,
        final(com).inner.device_extension == old(com).inner.device_extension,
        final(com).inner.max_pci_bar == old(com).inner.max_pci_bar,
{
    if !has_stream_out {
        return (STATUS_INVALID_PARAMETER, None);
    }
    match com.inner.new_stream(pin_id, capture, format) {
        None => (STATUS_INSUFFICIENT_RESOURCES, None),
        Some(i) => (STATUS_SUCCESS, Some(i)),
    }
}

/// Returns the instance counts of any wave pin: four possible instances,
/// none needed or open.
pub fn wavert_pin_count(pin_id: u32) -> (counts: PinCounts)
    ensures
        counts == pin_counts_spec(4),
{
    pin_counts(4)
}

/// The name of a wave pin: pin 0 is the capture or render pin, the others
/// are bridges.
pub open spec fn wavert_pin_name_spec(is_capture: bool, pin_id: u32) -> PinName {
    if is_capture {
        if pin_id == 0 {
            PinName::CapturePin
        } else {
            PinName::CaptureBridge
        }
    } else if pin_id == 0 {
        PinName::RenderPin
    } else {
        PinName::RenderBridge
    }
}

/// Names a wave pin (GetPinName). A missing pin property or output is an
/// invalid parameter.
pub fn wavert_get_pin_name(com: &MiniportWaveRTCom, pin_id: Option<u32>, has_data: bool) -> (result:
    PinNameResult)
    ensures
        pin_id is None || !has_data ==> result == (PinNameResult {
            status: STATUS_INVALID_PARAMETER,
            name: None,
        }),
        has_data && pin_id is Some ==> result == (PinNameResult {
            status: STATUS_SUCCESS,
            name: Some(wavert_pin_name_spec(com.inner.is_capture, pin_id->0)),
        }),
{
    let p = match pin_id {
        None => {
            return PinNameResult { status: STATUS_INVALID_PARAMETER, name: None };
        },
        Some(p) => p,
    };
    if !has_data {
        return PinNameResult { status: STATUS_INVALID_PARAMETER, name: None };
    }
    let name = if com.inner.is_capture {
        if p == 0 {
            PinName::CapturePin
        } else {
            PinName::CaptureBridge
        }
    } else if p == 0 {
        PinName::RenderPin
    } else {
        PinName::RenderBridge
    };
    PinNameResult { status: STATUS_SUCCESS, name: Some(name) }
}

// ---------------------------------------------------------------------------
// Laws of the WaveRT object
// ---------------------------------------------------------------------------

/// A stream slot is never handed out twice: a slot that is given out was
/// free, and afterwards it is taken while the others stay as they were.
pub proof fn law_stream_slots_never_shared(slots: Seq<bool>)
    requires
        slots.len() == 4,
    ensures
        first_free_slot(slots, 4) matches Some(i) ==> {
            &&& 0 <= i < 4
            &&& !slots[i]
            &&& slots.update(i, true)[i]
            &&& forall|j: int| 0 <= j < 4 && j != i ==> slots.update(i, true)[j] == slots[j]
        },
        (forall|j: int| 0 <= j < 4 ==> slots[j]) ==> first_free_slot(slots, 4) is None,
{
    lemma_first_free_slot(slots, 4);
}

/// Taking a reference and then dropping one leaves the object as it was,
/// whatever its count below the counter's limit; and a release reaches 0,
/// the point where the object is freed, exactly from a count of 1.
pub proof fn law_add_ref_then_release(c: MiniportWaveRTCom)
    requires
        c.ref_count < u32::MAX,
    ensures
        wavert_ref_added(c).ref_count == c.ref_count + 1,
        wavert_ref_dropped(wavert_ref_added(c)) == c,
        c.ref_count > 0 ==> ((wavert_ref_dropped(c).ref_count == 0) == (c.ref_count == 1)),
{
}

/// QueryInterface on an object holding `k` references: for each of the
/// nine ids the object implements the query succeeds, hands out the
/// vtable field of the matching interface (at the offset from which
/// `from_this` leads back to the object's start) and leaves k + 1
/// references; for every other id it answers no-interface, clears the
/// output and leaves the object as it was.
pub proof fn law_wavert_query_interface(c: MiniportWaveRTCom, iid: InterfaceId)
    requires
        wavert_implements(iid) ==> c.ref_count < u32::MAX,
    ensures
        wavert_implements(iid) ==> wavert_query_spec(iid).status == STATUS_SUCCESS
            && wavert_after_query(c, iid).ref_count == c.ref_count + 1
            && wavert_after_query(c, iid).inner == c.inner,
        iid == InterfaceId::IUnknown || iid == InterfaceId::IMiniport || iid
            == InterfaceId::IMiniportWaveRT ==> wavert_query_spec(iid).out == QueryOut::Interface(
            WaveRTInterface::Miniport,
        ) && wavert_slot_offset(WaveRTInterface::Miniport) == 0,
        iid == InterfaceId::IMiniportWaveRTOutputStream ==> wavert_query_spec(iid).out
            == QueryOut::Interface(WaveRTInterface::OutputStream) && wavert_slot_offset(
            WaveRTInterface::OutputStream,
        ) == 8,
        iid == InterfaceId::IMiniportWaveRTInputStream ==> wavert_query_spec(iid).out
            == QueryOut::Interface(WaveRTInterface::InputStream) && wavert_slot_offset(
            WaveRTInterface::InputStream,
        ) == 16,
        iid == InterfaceId::IPinCount ==> wavert_query_spec(iid).out == QueryOut::Interface(
            WaveRTInterface::PinCount,
        ) && wavert_slot_offset(WaveRTInterface::PinCount) == 24,
        iid == InterfaceId::IPinName ==> wavert_query_spec(iid).out == QueryOut::Interface(
            WaveRTInterface::PinName,
        ) && wavert_slot_offset(WaveRTInterface::PinName) == 32,
        iid == InterfaceId::IPortClsStreamResourceManager || iid
            == InterfaceId::IPortClsStreamResourceManager2 ==> wavert_query_spec(iid).out
            == QueryOut::Interface(WaveRTInterface::ResourceManager) && wavert_slot_offset(
            WaveRTInterface::ResourceManager,
        ) == 40,
        !wavert_implements(iid) ==> wavert_query_spec(iid) == query_refused_null::<
            WaveRTInterface,
        >() && wavert_after_query(c, iid) == c,
{
}

/// A query succeeds exactly when it hands out an interface, and every
/// refusal clears the caller's output.
pub proof fn law_wavert_query_success_hands_out(iid: InterfaceId)
    ensures
        wavert_query_spec(iid).status != STATUS_SUCCESS ==> wavert_query_spec(iid)
            == query_refused_null::<WaveRTInterface>(),
        (wavert_query_spec(iid).status == STATUS_SUCCESS) == (wavert_query_spec(
            iid,
        ).out is Interface),
        !(wavert_query_spec(iid).out is Untouched),
{
}

/// Every interface handed out has a vtable field of its own: the six
/// slots lie at distinct offsets, each a multiple of 8 inside the object's
/// six vtable pointers, and `from_this` of a slot gives that offset back.
pub proof fn law_wavert_interface_slots_distinct()
    ensures
        forall|a: WaveRTInterface, b: WaveRTInterface|
            a != b ==> wavert_slot_offset(a) != wavert_slot_offset(b),
        forall|a: WaveRTInterface|
            #![auto]
            wavert_slot_offset(a) % 8 == 0 && wavert_slot_offset(a) < 48,
{
}

/// After a run of stream openings, no two openings were given the same
/// slot, and every slot given is one of the four.
pub proof fn law_stream_slots_distinct(states: Seq<MiniportWaveRT>, slots: Seq<Option<usize>>)
    requires
        states.len() == slots.len() + 1,
        forall|k: int|
            0 <= k < slots.len() ==> new_stream_step(states[k], #[trigger] states[k + 1], slots[k]),
    ensures
        forall|i: int| 0 <= i < slots.len() && slots[i] is Some ==> slots[i]->0 < 4,
        forall|i: int, j: int|
            0 <= i < j < slots.len() && slots[i] is Some && slots[j] is Some ==> slots[i]->0
                != slots[j]->0,
{
    assert forall|i: int| 0 <= i < slots.len() && slots[i] is Some implies slots[i]->0 < 4 by {
        assert(new_stream_step(states[i], states[i + 1], slots[i]));
        lemma_first_free_slot(states[i].streams@, 4);
    }
    assert forall|i: int, j: int|
        0 <= i < j < slots.len() && slots[i] is Some && slots[j] is Some implies slots[i]->0
            != slots[j]->0 by {
        let a = slots[i]->0 as int;
        assert(new_stream_step(states[i], states[i + 1], slots[i]));
        lemma_first_free_slot(states[i].streams@, 4);
        assert(states[i + 1].streams@[a]);
        lemma_taken_stays_taken(states, slots, i + 1, j, a);
        assert(new_stream_step(states[j], states[j + 1], slots[j]));
        lemma_first_free_slot(states[j].streams@, 4);
    }
}

/// A taken slot stays taken through later openings.
proof fn lemma_taken_stays_taken(
    states: Seq<MiniportWaveRT>,
    slots: Seq<Option<usize>>,
    from: int,
    to: int,
    a: int,
)
    requires
        states.len() == slots.len() + 1,
        forall|k: int|
            0 <= k < slots.len() ==> new_stream_step(states[k], #[trigger] states[k + 1], slots[k]),
        0 <= from <= to < states.len(),
        0 <= a < 4,
        states[from].streams@[a],
    ensures
        states[to].streams@[a],
    decreases to - from,
{
    if from < to {
        let k = from;
        assert(new_stream_step(states[k], states[k + 1], slots[k]));
        lemma_first_free_slot(states[k].streams@, 4);
        assert(states[k + 1].streams@[a]);
        lemma_taken_stays_taken(states, slots, from + 1, to, a);
    }
}

/// The stream slots after `k` openings of a miniport that started with
/// none: the first `k` slots, at most four, are taken.
pub open spec fn slots_after_openings(k: int) -> Seq<bool> {
    Seq::new(4, |j: int| j < k)
}

/// Where the first free slot lies after `k` openings: slot `k` while one
/// is left, none after four.
proof fn lemma_first_free_after_openings(k: int)
    requires
        0 <= k,
    ensures
        first_free_slot(slots_after_openings(k), 4) == (if k < 4 {
            Some(k)
        } else {
            None::<int>
        }),
{
    reveal_with_fuel(first_free_slot, 5);
    let s = slots_after_openings(k);
    assert(s[0] == (0 < k));
    assert(s[1] == (1 < k));
    assert(s[2] == (2 < k));
    assert(s[3] == (3 < k));
}

/// The state after the first `k` openings of a run that started with no
/// streams: an initialized miniport holds `k` streams (at most four), an
/// uninitialized one is as it was.
proof fn lemma_openings_state(states: Seq<MiniportWaveRT>, slots: Seq<Option<usize>>, k: int)
    requires
        states.len() == slots.len() + 1,
        forall|n: int|
            0 <= n < slots.len() ==> new_stream_step(states[n], #[trigger] states[n + 1], slots[n]),
        states[0].streams@ == seq![false, false, false, false],
        0 <= k < states.len(),
    ensures
        states[k].is_initialized == states[0].is_initialized,
        states[0].is_initialized ==> states[k].streams@ == slots_after_openings(k),
        !states[0].is_initialized ==> states[k].streams == states[0].streams,
    decreases k,
{
    if k == 0 {
        assert(states[0].streams@ =~= slots_after_openings(0));
    } else {
        let p = k - 1;
        lemma_openings_state(states, slots, p);
        assert(new_stream_step(states[p], states[p + 1], slots[p]));
        if states[0].is_initialized {
            lemma_first_free_after_openings(k - 1);
            if k - 1 < 4 {
                assert(slots_after_openings(k - 1).update(k - 1, true) =~= slots_after_openings(k));
            } else {
                assert(slots_after_openings(k - 1) =~= slots_after_openings(k));
            }
        }
    }
}

/// A miniport that starts with no streams, opened again and again: while
/// it is uninitialized every opening gives none and stores nothing; once
/// initialized, opening number `k` gives slot `k` for the first four and
/// none from the fifth on, so at most four streams live at once.
pub proof fn law_stream_openings(states: Seq<MiniportWaveRT>, slots: Seq<Option<usize>>)
    requires
        states.len() == slots.len() + 1,
        forall|n: int|
            0 <= n < slots.len() ==> new_stream_step(states[n], #[trigger] states[n + 1], slots[n]),
        states[0].streams@ == seq![false, false, false, false],
    ensures
        states[0].is_initialized ==> forall|k: int|
            0 <= k < slots.len() ==> #[trigger] slots[k] == (if k < 4 {
                Some(k as usize)
            } else {
                None::<usize>
            }),
        !states[0].is_initialized ==> forall|k: int|
            0 <= k < slots.len() ==> #[trigger] slots[k] is None && states[k + 1].streams
                == states[0].streams,
{
    assert forall|k: int| 0 <= k < slots.len() implies (states[0].is_initialized ==> #[trigger] slots[k]
        == (if k < 4 {
        Some(k as usize)
    } else {
        None::<usize>
    })) && (!states[0].is_initialized ==> slots[k] is None && states[k + 1].streams
        == states[0].streams) by {
        lemma_openings_state(states, slots, k);
        lemma_openings_state(states, slots, k + 1);
        assert(new_stream_step(states[k], states[k + 1], slots[k]));
        if states[0].is_initialized {
            lemma_first_free_after_openings(k);
        }
    }
}

// ---------------------------------------------------------------------------
// Resource-manager and packet interfaces
// ---------------------------------------------------------------------------

/// Registers a stream resource (IPortClsStreamResourceManager2): accepted
/// without effect.
pub fn wavert_add_resource() -> (status: i32)
    ensures
        status == STATUS_SUCCESS,
{
    STATUS_SUCCESS
}

/// Removes a stream resource: accepted without effect.
pub fn wavert_remove_resource() -> (status: i32)
    ensures
        status == STATUS_SUCCESS,
{
    STATUS_SUCCESS
}

/// Sets the write packet of an output stream: not implemented.
pub fn wavert_set_write_packet(packet_number: u32, flags: u32, eos_packet_length: u32) -> (status:
    i32)
    ensures
        status == STATUS_NOT_IMPLEMENTED,
{
    STATUS_NOT_IMPLEMENTED
}

/// Reports an output stream's presentation position: not implemented.
pub fn wavert_get_output_stream_presentation_position() -> (status: i32)
    ensures
        status == STATUS_NOT_IMPLEMENTED,
{
    STATUS_NOT_IMPLEMENTED
}

/// Reports an output stream's packet count: not implemented.
pub fn wavert_get_packet_count() -> (status: i32)
    ensures
        status == STATUS_NOT_IMPLEMENTED,
{
    STATUS_NOT_IMPLEMENTED
}

/// Reports an input stream's read packet: not implemented.
pub fn wavert_get_read_packet() -> (status: i32)
    ensures
        status == STATUS_NOT_IMPLEMENTED,
{
    STATUS_NOT_IMPLEMENTED
}

/// Every pin of the capture wave filter gets a capture name and every pin
/// of the render one a render name, never one of the other side: pin 0 is
/// the capture or render pin and every other pin the bridge.
pub proof fn law_wave_pin_names_by_side(pin_id: u32)
    ensures
        pin_id == 0 ==> wavert_pin_name_spec(true, pin_id) == PinName::CapturePin
            && wavert_pin_name_spec(false, pin_id) == PinName::RenderPin,
        pin_id != 0 ==> wavert_pin_name_spec(true, pin_id) == PinName::CaptureBridge
            && wavert_pin_name_spec(false, pin_id) == PinName::RenderBridge,
        wavert_pin_name_spec(true, pin_id) != PinName::RenderPin && wavert_pin_name_spec(
            true,
            pin_id,
        ) != PinName::RenderBridge,
        wavert_pin_name_spec(false, pin_id) != PinName::CapturePin && wavert_pin_name_spec(
            false,
            pin_id,
        ) != PinName::CaptureBridge,
{
}

} // verus!
