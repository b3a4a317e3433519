//! Per-stream state of the audio streams: run state, clock position,
//! packet index, and the bookkeeping of the stream buffer, which the
//! render stream allocates and publishes and the capture stream borrows
//! (zero-copy loopback).
//!
//! The kernel work (querying the performance counter, allocating, mapping
//! and freeing pages) is done by the caller; the functions here take its
//! results and decide what comes next.
use crate::ks::{STATUS_ALREADY_COMMITTED, STATUS_INSUFFICIENT_RESOURCES, STATUS_SUCCESS};
use crate::math::{product_fits, ticks_to_bytes_spec, WaveRTMath};
use vstd::prelude::*;

verus! {

/// The run state of a stopped stream.
pub const STREAM_STOPPED: i32 = 0;

/// The run state of a running stream.
pub const STREAM_RUNNING: i32 = 1;

/// The buffer the render stream publishes for the capture stream: its
/// page list, its mapping (addresses; 0 for none) and its size.
#[derive(Clone, Copy, Debug, PartialEq, Eq)]
pub struct SharedRender {
    pub mdl: usize,
    pub mapping: usize,
    pub size: usize,
}

/// Whether a published render buffer is complete enough to borrow.
pub open spec fn is_published(shared: SharedRender) -> bool {
    shared.mdl != 0 && shared.mapping != 0 && shared.size > 0
}

/// The state of one stream.
#[derive(Debug)]
pub struct AcxStreamContext {
    /// The size of the ring the stream plays through (0 before a buffer).
    pub buffer_size: usize,
    pub state: i32,
    /// The stream's page list (an address; 0 for none).
    pub mdl: usize,
    /// The kernel mapping of the stream's pages (an address; 0 for none).
    pub mapping: usize,
    /// The counter value when the stream started running (0 when not).
    pub start_time: i64,
    pub byte_rate: u32,
    /// The performance counter's frequency, in ticks per second.
    pub frequency: i64,
    pub is_capture: bool,
    /// Whether the stream allocated its pages itself.
    pub owns_mdl: bool,
    pub current_packet: u32,
}

/// What to do next while allocating a stream buffer.
#[derive(Clone, Copy, Debug, PartialEq, Eq)]
pub enum AllocateStep {
    /// Allocation is over, with this status.
    Finished(i32),
    /// Allocate pages for `size` bytes and report the page list.
    AllocatePages { size: usize },
    /// Map the pages of this page list and report the mapping.
    MapPages { mdl: usize },
    /// Release the pages of this page list and then the list itself, and
    /// report it with [`AcxStreamContext::pages_released`]; the allocation
    /// has failed.
    FreePagesAndMdl { mdl: usize },
}

/// What to release when freeing a stream buffer.
#[derive(Clone, Copy, Debug, PartialEq, Eq)]
pub struct FreeSteps {
    /// Withdraw the published render buffer.
    pub clear_shared: bool,
    /// Unmap this mapping from this page list.
    pub unmap: Option<(usize, usize)>,
    /// Free the pages of this page list and the list itself.
    pub free_mdl: Option<usize>,
}

/// The byte position of a stream at counter value `now`: 0 unless it is
/// running with a start time; otherwise the bytes moved since the start,
/// wrapped at the ring size (0 without a ring).
pub open spec fn position_at(s: AcxStreamContext, now: i64) -> int {
    if s.state != STREAM_RUNNING || s.start_time == 0 {
        0
    } else if s.buffer_size > 0 {
        ticks_to_bytes_spec((now - s.start_time) as i64, s.byte_rate, s.frequency) % (
        s.buffer_size as int)
    } else {
        0
    }
}

/// Whether the position arithmetic at counter value `now` is defined: the
/// elapsed ticks fit in 64 bits and their product with the byte rate in
/// 128.
pub open spec fn position_defined(s: AcxStreamContext, now: i64) -> bool {
    s.state == STREAM_RUNNING && s.start_time != 0 ==> {
        &&& i64::MIN <= now - s.start_time <= i64::MAX
        &&& product_fits((now - s.start_time) as i64, s.byte_rate, s.frequency)
    }
}

/// The stream and the next step after `allocate_buffer(size, shared)`: a
/// stream that has a page list refuses and stays as it is; a capture
/// stream borrows a published render buffer (its page list, mapping and
/// size), owning nothing; otherwise pages of `size` bytes are to be
/// allocated and the stream stays as it is.
pub open spec fn allocate_buffer_spec(s: AcxStreamContext, size: usize, shared: SharedRender) -> (
    AcxStreamContext,
    AllocateStep,
) {
    if s.mdl != 0 {
        (s, AllocateStep::Finished(STATUS_ALREADY_COMMITTED))
    } else if s.is_capture && is_published(shared) {
        (
            AcxStreamContext {
                mdl: shared.mdl,
                mapping: shared.mapping,
                buffer_size: shared.size,
                owns_mdl: false,
                ..s
            },
            AllocateStep::Finished(STATUS_SUCCESS),
        )
    } else {
        (s, AllocateStep::AllocatePages { size })
    }
}

/// The stream, the next step and the buffer to publish after
/// `pages_mapped(mdl, mapping, size)`: without a mapping the pages and
/// their list are to be released and the stream stays as it is; with one
/// the stream owns the buffer, and a render stream publishes it.
pub open spec fn pages_mapped_spec(s: AcxStreamContext, mdl: usize, mapping: usize, size: usize) -> (
    AcxStreamContext,
    AllocateStep,
    Option<SharedRender>,
) {
    if mapping == 0 {
        (s, AllocateStep::FreePagesAndMdl { mdl }, None)
    } else {
        (
            AcxStreamContext { mdl, mapping, buffer_size: size, owns_mdl: true, ..s },
            AllocateStep::Finished(STATUS_SUCCESS),
            if s.is_capture {
                None
            } else {
                Some(SharedRender { mdl, mapping, size })
            },
        )
    }
}

/// The stream and the release steps after `free_buffer()`: a stream that
/// owns a page list withdraws the published buffer (render only), unmaps
/// it (when mapped) and frees it; any stream is left with no page list,
/// no mapping and no ownership.
pub open spec fn free_buffer_spec(s: AcxStreamContext) -> (AcxStreamContext, FreeSteps) {
    (
        AcxStreamContext { mdl: 0, mapping: 0, owns_mdl: false, ..s },
        if s.owns_mdl && s.mdl != 0 {
            FreeSteps {
                clear_shared: !s.is_capture,
                unmap: if s.mapping != 0 {
                    Some((s.mapping, s.mdl))
                } else {
                    None
                },
                free_mdl: Some(s.mdl),
            }
        } else {
            FreeSteps { clear_shared: false, unmap: None, free_mdl: None }
        },
    )
}

impl AcxStreamContext {
    /// Makes a stopped stream with no buffer, for a format of `sample_rate`
    /// frames per second of `block_align` bytes, timed by a counter running
    /// at `frequency` ticks per second.
    pub fn new(is_capture: bool, sample_rate: u32, block_align: u16, frequency: i64) -> (s: Self)
        requires
            sample_rate * block_align <= u32::MAX,
        ensures
            s.buffer_size == 0,
            s.state == STREAM_STOPPED,
            s.mdl == 0,
            s.mapping == 0,
            s.start_time == 0,
            s.byte_rate == sample_rate * block_align,
            s.frequency == frequency,
            s.is_capture == is_capture,
            !s.owns_mdl,
            s.current_packet == 0,
    {
        let byte_rate = sample_rate * (block_align as u32);
        AcxStreamContext {
            buffer_size: 0,
            state: STREAM_STOPPED,
            mdl: 0,
            mapping: 0,
            start_time: 0,
            byte_rate,
            frequency,
            is_capture,
            owns_mdl: false,
            current_packet: 0,
        }
    }

    /// Moves the stream to run state `state` at counter value `now`:
    /// stopping clears the start time and the packet index, running records
    /// `now` as the start time.
    pub fn set_state(&mut self, state: i32, now: i64)
        ensures
            final(self).state == state,
            state == STREAM_STOPPED ==> final(self).start_time == 0 && final(self).current_packet
                == 0,
            state == STREAM_RUNNING ==> final(self).start_time == now && final(self).current_packet
                == old(self).current_packet,
            state != STREAM_STOPPED && state != STREAM_RUNNING ==> final(self).start_time
                == old(self).start_time && final(self).current_packet == old(self).current_packet,
            final(self).buffer_size == old(self).buffer_size,
            final(self).mdl == old(self).mdl,
            final(self).mapping == old(self).mapping,
            final(self).byte_rate == old(self).byte_rate,
            final(self).frequency == old(self).frequency,
            final(self).is_capture == old(self).is_capture,
            final(self).owns_mdl == old(self).owns_mdl,
    {
        self.state = state;
        if state == STREAM_STOPPED {
            self.start_time = 0;
            self.current_packet = 0;
        } else if state == STREAM_RUNNING {
            self.start_time = now;
        }
    }

    /// Returns the stream's byte position in its ring at counter value
    /// `now`.
    pub fn get_position(&self, now: i64) -> (position: u64)
        requires
            position_defined(*self, now),
        ensures
            position == position_at(*self, now),
    {
        if self.state != STREAM_RUNNING || self.start_time == 0 {
            return 0;
        }
        let elapsed_ticks = now - self.start_time;
        let elapsed_bytes = WaveRTMath::ticks_to_bytes(elapsed_ticks, self.byte_rate, self.frequency);
        let buf_size = self.buffer_size as u64;
        if buf_size > 0 {
            elapsed_bytes % buf_size
        } else {
            0
        }
    }

    /// Returns the current packet index.
    pub fn get_current_packet(&self) -> (packet: u32)
        ensures
            packet == self.current_packet,
    {
        self.current_packet
    }

    /// Records the render packet the system released.
    pub fn set_render_packet(&mut self, packet: u32)
        ensures
            *final(self) == (AcxStreamContext { current_packet: packet, ..*old(self) }),
    {
        self.current_packet = packet;
    }

    /// Starts allocating a buffer of `size` bytes, given the render buffer
    /// published so far. A stream that has a buffer refuses; a capture
    /// stream borrows a published render buffer, owning nothing; otherwise
    /// pages are to be allocated.
    pub fn allocate_buffer(&mut self, size: usize, shared: SharedRender) -> (step: AllocateStep)
        ensures
            (*final(self), step) == allocate_buffer_spec(*old(self), size, shared),
            old(self).mdl != 0 ==> step == AllocateStep::Finished(STATUS_ALREADY_COMMITTED)
                && *final(self) == *old(self),
            old(self).mdl == 0 && old(self).is_capture && is_published(shared) ==> {
                &&& step == AllocateStep::Finished(STATUS_SUCCESS)
                &&& final(self).mdl == shared.mdl
                &&& final(self).mapping == shared.mapping
                &&& final(self).buffer_size == shared.size
                &&& !final(self).owns_mdl
            },
            old(self).mdl == 0 && !(old(self).is_capture && is_published(shared)) ==> step
                == (AllocateStep::AllocatePages { size }) && *final(self) == *old(self),
            final(self).state == old(self).state,
            final(self).start_time == old(self).start_time,
            final(self).byte_rate == old(self).byte_rate,
            final(self).frequency == old(self).frequency,
            final(self).is_capture == old(self).is_capture,
            final(self).current_packet == old(self).current_packet,
    {
        if self.mdl != 0 {
            return AllocateStep::Finished(STATUS_ALREADY_COMMITTED);
        }
        if self.is_capture {
            if shared.mdl != 0 && shared.mapping != 0 && shared.size > 0 {
                self.mdl = shared.mdl;
                self.mapping = shared.mapping;
                self.buffer_size = shared.size;
                self.owns_mdl = false;
                return AllocateStep::Finished(STATUS_SUCCESS);
            }
        }
        AllocateStep::AllocatePages { size }
    }

    /// Continues once pages were asked for: no page list means
    /// insufficient resources, otherwise the pages are to be mapped.
    pub fn pages_allocated(&self, mdl: usize) -> (step: AllocateStep)
        ensures
            mdl == 0 ==> step == AllocateStep::Finished(STATUS_INSUFFICIENT_RESOURCES),
            mdl != 0 ==> step == (AllocateStep::MapPages { mdl }),
    {
        if mdl == 0 {
            AllocateStep::Finished(STATUS_INSUFFICIENT_RESOURCES)
        } else {
            AllocateStep::MapPages { mdl }
        }
    }

    /// Finishes once the pages of `mdl` were mapped for a buffer of `size`
    /// bytes: no mapping means the pages and their list are to be released
    /// and the allocation fails;
    /// otherwise the stream owns the buffer, and a render stream publishes
    /// it for the capture stream.
    pub fn pages_mapped(&mut self, mdl: usize, mapping: usize, size: usize) -> (result: (
        AllocateStep,
        Option<SharedRender>,
    ))
        ensures
            (*final(self), result.0, result.1) == pages_mapped_spec(*old(self), mdl, mapping, size),
            mapping == 0 ==> result == (AllocateStep::FreePagesAndMdl { mdl }, None::<SharedRender>)
                && *final(self) == *old(self),
            mapping != 0 ==> {
                &&& result.0 == AllocateStep::Finished(STATUS_SUCCESS)
                &&& final(self).mdl == mdl
                &&& final(self).mapping == mapping
                &&& final(self).buffer_size == size
                &&& final(self).owns_mdl
                &&& result.1 == (if old(self).is_capture {
                    None
                } else {
                    Some(SharedRender { mdl, mapping, size })
                })
            },
            final(self).state == old(self).state,
            final(self).start_time == old(self).start_time,
            final(self).byte_rate == old(self).byte_rate,
            final(self).frequency == old(self).frequency,
            final(self).is_capture == old(self).is_capture,
            final(self).current_packet == old(self).current_packet,
    {
        if mapping == 0 {
            return (AllocateStep::FreePagesAndMdl { mdl }, None);
        }
        self.mdl = mdl;
        self.mapping = mapping;
        self.buffer_size = size;
        self.owns_mdl = true;
        if !self.is_capture {
            (AllocateStep::Finished(STATUS_SUCCESS), Some(SharedRender { mdl, mapping, size }))
        } else {
            (AllocateStep::Finished(STATUS_SUCCESS), None)
        }
    }

    /// Finishes a failed allocation once the pages allocated for it and
    /// their list were released: the allocation fails for lack of
    /// resources, and the stream is left with no buffer, as it was.
    pub fn pages_released(&self) -> (step: AllocateStep)
        ensures
            step == AllocateStep::Finished(STATUS_INSUFFICIENT_RESOURCES),
    {
        AllocateStep::Finished(STATUS_INSUFFICIENT_RESOURCES)
    }

    /// Frees the stream's buffer: a stream that owns its pages withdraws
    /// the published buffer (render only), unmaps them (when mapped) and
    /// frees them; a borrowing stream just lets go. Either way the stream
    /// is left with no buffer handles.
    pub fn free_buffer(&mut self) -> (steps: FreeSteps)
        ensures
            (*final(self), steps) == free_buffer_spec(*old(self)),
            old(self).owns_mdl && old(self).mdl != 0 ==> steps == (FreeSteps {
                clear_shared: !old(self).is_capture,
                unmap: if old(self).mapping != 0 {
                    Some((old(self).mapping, old(self).mdl))
                } else {
                    None
                },
                free_mdl: Some(old(self).mdl),
            }),
            !(old(self).owns_mdl && old(self).mdl != 0) ==> steps == (FreeSteps {
                clear_shared: false,
                unmap: None,
                free_mdl: None,
            }),
            final(self).mdl == 0,
            final(self).mapping == 0,
            !final(self).owns_mdl,
            final(self).buffer_size == old(self).buffer_size,
            final(self).state == old(self).state,
            final(self).start_time == old(self).start_time,
            final(self).byte_rate == old(self).byte_rate,
            final(self).frequency == old(self).frequency,
            final(self).is_capture == old(self).is_capture,
            final(self).current_packet == old(self).current_packet,
    {
        let mut steps = FreeSteps { clear_shared: false, unmap: None, free_mdl: None };
        if self.owns_mdl && self.mdl != 0 {
            steps.clear_shared = !self.is_capture;
            if self.mapping != 0 {
                steps.unmap = Some((self.mapping, self.mdl));
            }
            steps.free_mdl = Some(self.mdl);
        }
        self.mdl = 0;
        self.mapping = 0;
        self.owns_mdl = false;
        steps
    }

    /// Returns the stream's page list (an address; 0 for none).
    pub fn get_mdl(&self) -> (mdl: usize)
        ensures
            mdl == self.mdl,
    {
        self.mdl
    }

    /// Returns the kernel mapping of the stream's buffer (an address; 0 for
    /// none).
    pub fn get_buffer_ptr(&self) -> (mapping: usize)
        ensures
            mapping == self.mapping,
    {
        self.mapping
    }

    /// Returns the size of the stream's ring.
    pub fn get_buffer_size(&self) -> (size: usize)
        ensures
            size == self.buffer_size,
    {
        self.buffer_size
    }
}

/// The value of a signed counter reading as an unsigned 64-bit quantity.
pub open spec fn counter_as_u64(counter: i64) -> int {
    if counter >= 0 {
        counter as int
    } else {
        counter + 0x1_0000_0000_0000_0000int
    }
}

/// What the capture-packet callback reports: packet 0, started at the
/// given counter value.
#[derive(Clone, Copy, Debug, PartialEq, Eq)]
pub struct CapturePacket {
    pub last_capture_packet: u32,
    pub qpc_packet_start: u64,
}

/// Reports the most recently filled capture packet, at counter value
/// `counter`: always packet 0.
pub fn evt_stream_get_capture_packet(counter: i64) -> (report: CapturePacket)
    ensures
        report.last_capture_packet == 0,
        report.qpc_packet_start == counter_as_u64(counter),
{
    let qpc = counter as u64;
    assert(counter >= 0 ==> qpc == counter) by (bit_vector)
        requires
            qpc == counter as u64,
    ;
    assert(counter < 0 ==> qpc == u64::MAX - ((-(counter + 1)) as u64)) by (bit_vector)
        requires
            qpc == counter as u64,
    ;
    CapturePacket { last_capture_packet: 0, qpc_packet_start: qpc }
}

/// What the presentation-position callback reports: position 0, at the
/// given counter value.
#[derive(Clone, Copy, Debug, PartialEq, Eq)]
pub struct PresentationPosition {
    pub position_in_bytes: u64,
    pub qpc_position: u64,
}

/// Reports the presentation position at counter value `counter`: always
/// byte 0.
pub fn evt_stream_get_presentation_position(counter: i64) -> (report: PresentationPosition)
    ensures
        report.position_in_bytes == 0,
        report.qpc_position == counter_as_u64(counter),
{
    let packet = evt_stream_get_capture_packet(counter);
    PresentationPosition { position_in_bytes: 0, qpc_position: packet.qpc_packet_start }
}

/// The hardware latency of a virtual device: no FIFO and no delay.
#[derive(Clone, Copy, Debug, PartialEq, Eq)]
pub struct HwLatency {
    pub fifo_size: u32,
    pub delay: u32,
}

/// Reports the hardware latency: no FIFO and no delay.
pub fn evt_stream_get_hw_latency() -> (latency: HwLatency)
    ensures
        latency == (HwLatency { fifo_size: 0, delay: 0 }),
{
    HwLatency { fifo_size: 0, delay: 0 }
}

// ---------------------------------------------------------------------------
// Laws of the stream state
// ---------------------------------------------------------------------------

/// A stopped stream stands at position 0, and a running stream with a ring
/// stays inside it.
pub proof fn law_position_in_ring(s: AcxStreamContext, now: i64)
    ensures
        s.state != STREAM_RUNNING ==> position_at(s, now) == 0,
        s.buffer_size > 0 ==> 0 <= position_at(s, now) < s.buffer_size,
        s.buffer_size == 0 ==> position_at(s, now) == 0,
{
}

/// Zero-copy loopback: when the render stream maps its pages, it
/// publishes exactly that buffer; a capture stream without a buffer that
/// then allocates borrows it, so both streams play through the same pages
/// at the same mapping with the same size; the capture stream owns none of
/// it, so freeing the capture stream releases nothing, while freeing the
/// render stream withdraws the published buffer and frees its pages.
pub proof fn law_zero_copy_loopback(
    render: AcxStreamContext,
    capture: AcxStreamContext,
    mdl: usize,
    mapping: usize,
    size: usize,
    capture_size: usize,
)
    requires
        !render.is_capture,
        capture.is_capture,
        capture.mdl == 0,
        mdl != 0,
        mapping != 0,
        size > 0,
    ensures
        ({
            let (r, r_step, published) = pages_mapped_spec(render, mdl, mapping, size);
            let (c, c_step) = allocate_buffer_spec(capture, capture_size, published->0);
            &&& r_step == AllocateStep::Finished(STATUS_SUCCESS)
            &&& published == Some(SharedRender { mdl, mapping, size })
            &&& c_step == AllocateStep::Finished(STATUS_SUCCESS)
            &&& c.mdl == r.mdl && c.mapping == r.mapping && c.buffer_size == r.buffer_size
            &&& r.owns_mdl && !c.owns_mdl
            &&& free_buffer_spec(c).1 == (FreeSteps {
                clear_shared: false,
                unmap: None,
                free_mdl: None,
            })
            &&& free_buffer_spec(r).1 == (FreeSteps {
                clear_shared: true,
                unmap: Some((mapping, mdl)),
                free_mdl: Some(mdl),
            })
        }),
{
}

/// Stopping a stream and reading its position gives 0, and a stream that
/// just started reads position 0 at its start time.
pub proof fn law_stop_and_start_read_zero(s: AcxStreamContext, now: i64)
    requires
        now != 0,
    ensures
        position_at(AcxStreamContext { state: STREAM_STOPPED, start_time: 0, ..s }, now) == 0,
        position_at(AcxStreamContext { state: STREAM_RUNNING, start_time: now, ..s }, now) == 0,
{
    if s.buffer_size > 0 {
        crate::math::law_zero_ticks_or_frequency(0, s.byte_rate, s.frequency, s.buffer_size);
        assert(ticks_to_bytes_spec(0, s.byte_rate, s.frequency) == 0) by {
            if s.frequency > 0 {
                vstd::arithmetic::mul::lemma_mul_basics(s.byte_rate as int);
                assert(0int / (s.frequency as int) == 0) by (nonlinear_arith)
                    requires
                        s.frequency > 0,
                ;
                vstd::arithmetic::div_mod::lemma_small_mod(0, 0x1_0000_0000_0000_0000nat);
            }
        }
        vstd::arithmetic::div_mod::lemma_small_mod(0, s.buffer_size as nat);
    }
}

/// A running stream with a start time and a ring reads the bytes the
/// clock has carried since its start, wrapped at the ring: the position at
/// counter value `now` is ticks_to_bytes(now - start_time) modulo the
/// buffer size, whether the stream renders or captures. So a capture stream
/// that borrowed the render buffer and started at the same counter value
/// reads the same position as the render stream.
pub proof fn law_running_position_is_wrapped_byte_count(
    s: AcxStreamContext,
    other: AcxStreamContext,
    now: i64,
)
    requires
        s.state == STREAM_RUNNING,
        s.start_time != 0,
        s.buffer_size > 0,
        other.state == STREAM_RUNNING,
        other.start_time == s.start_time,
        other.byte_rate == s.byte_rate,
        other.frequency == s.frequency,
        other.buffer_size == s.buffer_size,
    ensures
        position_at(s, now) == crate::math::ticks_to_bytes_spec(
            (now - s.start_time) as i64,
            s.byte_rate,
            s.frequency,
        ) % (s.buffer_size as int),
        position_at(other, now) == position_at(s, now),
        position_at(AcxStreamContext { is_capture: true, ..s }, now) == position_at(
            AcxStreamContext { is_capture: false, ..s },
            now,
        ),
{
}

} // verus!
