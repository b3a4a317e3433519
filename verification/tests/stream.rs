use leyline::ks::{STATUS_ALREADY_COMMITTED, STATUS_INSUFFICIENT_RESOURCES, STATUS_SUCCESS};
use leyline::stream::{
    evt_stream_get_capture_packet, evt_stream_get_hw_latency, evt_stream_get_presentation_position,
    AcxStreamContext, AllocateStep, FreeSteps, SharedRender, STREAM_RUNNING, STREAM_STOPPED,
};

#[test]
fn new_stream_is_stopped_at_zero() {
    let s = AcxStreamContext::new(false, 48000, 4, 10_000_000);
    assert_eq!(s.byte_rate, 192000);
    assert_eq!(s.get_position(123), 0);
    assert_eq!(s.get_buffer_size(), 0);
    assert_eq!(s.get_current_packet(), 0);
}

#[test]
fn running_stream_position_wraps_at_ring() {
    let mut s = AcxStreamContext::new(false, 48000, 4, 10_000_000);
    assert_eq!(s.allocate_buffer(65536, SharedRender { mdl: 0, mapping: 0, size: 0 }), AllocateStep::AllocatePages { size: 65536 });
    assert_eq!(s.pages_allocated(0x10), AllocateStep::MapPages { mdl: 0x10 });
    let (step, publish) = s.pages_mapped(0x10, 0x2000, 65536);
    assert_eq!(step, AllocateStep::Finished(STATUS_SUCCESS));
    assert_eq!(publish, Some(SharedRender { mdl: 0x10, mapping: 0x2000, size: 65536 }));
    s.set_state(STREAM_RUNNING, 1_000);
    assert_eq!(s.get_position(1_000 + 10_000_000), 192000 % 65536);
    s.set_render_packet(5);
    assert_eq!(s.get_current_packet(), 5);
    s.set_state(STREAM_STOPPED, 99);
    assert_eq!(s.start_time, 0);
    assert_eq!(s.get_current_packet(), 0);
    assert_eq!(s.get_position(1_000 + 10_000_000), 0);
}

#[test]
fn capture_borrows_published_render_buffer() {
    let shared = SharedRender { mdl: 0x10, mapping: 0x2000, size: 4096 };
    let mut c = AcxStreamContext::new(true, 48000, 4, 10_000_000);
    assert_eq!(c.allocate_buffer(1024, shared), AllocateStep::Finished(STATUS_SUCCESS));
    assert_eq!(c.get_mdl(), 0x10);
    assert_eq!(c.get_buffer_ptr(), 0x2000);
    assert_eq!(c.get_buffer_size(), 4096);
    assert!(!c.owns_mdl);
    assert_eq!(c.allocate_buffer(1024, shared), AllocateStep::Finished(STATUS_ALREADY_COMMITTED));
    assert_eq!(c.free_buffer(), FreeSteps { clear_shared: false, unmap: None, free_mdl: None });
    assert_eq!(c.get_mdl(), 0);
}

#[test]
fn capture_without_published_buffer_allocates_its_own() {
    let mut c = AcxStreamContext::new(true, 48000, 4, 10_000_000);
    let none = SharedRender { mdl: 0x10, mapping: 0, size: 4096 };
    assert_eq!(c.allocate_buffer(512, none), AllocateStep::AllocatePages { size: 512 });
    let (step, publish) = c.pages_mapped(0x30, 0x4000, 512);
    assert_eq!(step, AllocateStep::Finished(STATUS_SUCCESS));
    assert_eq!(publish, None);
    let steps = c.free_buffer();
    assert_eq!(steps, FreeSteps { clear_shared: false, unmap: Some((0x4000, 0x30)), free_mdl: Some(0x30) });
}

#[test]
fn allocation_failures() {
    let mut s = AcxStreamContext::new(false, 44100, 2, 10_000_000);
    assert_eq!(s.pages_allocated(0), AllocateStep::Finished(STATUS_INSUFFICIENT_RESOURCES));
    assert_eq!(s.pages_mapped(0x10, 0, 4096), (AllocateStep::FreePagesAndMdl { mdl: 0x10 }, None));
    assert_eq!(s.pages_released(), AllocateStep::Finished(STATUS_INSUFFICIENT_RESOURCES));
    assert_eq!(s.get_mdl(), 0);
}

#[test]
fn render_free_withdraws_published_buffer() {
    let mut s = AcxStreamContext::new(false, 48000, 4, 10_000_000);
    s.pages_mapped(0x10, 0x2000, 4096);
    let steps = s.free_buffer();
    assert_eq!(steps, FreeSteps { clear_shared: true, unmap: Some((0x2000, 0x10)), free_mdl: Some(0x10) });
    assert_eq!(s.get_buffer_ptr(), 0);
    assert!(!s.owns_mdl);
}

#[test]
fn callbacks_report_counter_and_zero_latency() {
    let p = evt_stream_get_capture_packet(12345);
    assert_eq!((p.last_capture_packet, p.qpc_packet_start), (0, 12345));
    let q = evt_stream_get_presentation_position(-1);
    assert_eq!((q.position_in_bytes, q.qpc_position), (0, u64::MAX));
    let l = evt_stream_get_hw_latency();
    assert_eq!((l.fifo_size, l.delay), (0, 0));
}

#[test]
fn set_render_packet_changes_only_the_packet() {
    let mut s = AcxStreamContext::new(true, 44100, 4, 10_000_000);
    s.set_render_packet(7);
    assert_eq!(s.get_current_packet(), 7);
    assert_eq!(s.byte_rate, 176400);
    assert_eq!(s.frequency, 10_000_000);
    assert!(s.is_capture);
    assert_eq!(s.get_buffer_size(), 0);
}
