use leyline::com::{pin_name_text, unicode_lengths, InterfaceId, PinName, QueryOut};
use leyline::ks::{STATUS_INSUFFICIENT_RESOURCES, STATUS_INVALID_PARAMETER, STATUS_NOINTERFACE, STATUS_NOT_IMPLEMENTED, STATUS_SUCCESS};
use leyline::topology::{
    topology_add_ref, topology_add_resource, topology_get_description, topology_remove_resource, topology_get_pin_name, topology_init,
    topology_pin_count, topology_query_interface, topology_release, FilterDescriptor,
    MiniportTopology, MiniportTopologyCom, TopologyInterface,
};
use leyline::wavert::{
    miniport_add_ref, miniport_get_description, miniport_get_device_description, miniport_init,
    miniport_new_stream, miniport_query_interface, miniport_release, wavert_add_resource,
    wavert_get_output_stream_presentation_position, wavert_get_packet_count, wavert_get_pin_name,
    wavert_get_read_packet, wavert_pin_count, wavert_remove_resource, wavert_set_write_packet, MiniportWaveRT, MiniportWaveRTCom, WaveRTInterface,
};

#[test]
fn topology_query_accepts_its_interfaces_and_counts_references() {
    let mut com = MiniportTopologyCom::new(false);
    let r = topology_query_interface(&mut com, Some(InterfaceId::IUnknown), true);
    assert_eq!(r.status, STATUS_SUCCESS);
    assert_eq!(r.out, QueryOut::Interface(TopologyInterface::Miniport));
    assert_eq!(com.ref_count, 2);
    let r = topology_query_interface(&mut com, Some(InterfaceId::IPortClsStreamResourceManager2), true);
    assert_eq!(r.out, QueryOut::Interface(TopologyInterface::ResourceManager));
    assert_eq!(com.ref_count, 3);
    for refused in [
        InterfaceId::IPowerNotify,
        InterfaceId::IAdapterPowerManagement,
        InterfaceId::IAdapterPowerManagement2,
        InterfaceId::IAdapterPowerManagement3,
    ] {
        let r = topology_query_interface(&mut com, Some(refused), true);
        assert_eq!(r.status, STATUS_NOINTERFACE);
        assert_eq!(r.out, QueryOut::Null);
    }
    let r = topology_query_interface(&mut com, Some(InterfaceId::IMiniportAudioEngineNode), true);
    assert_eq!(r.out, QueryOut::Null);
    let r = topology_query_interface(&mut com, Some(InterfaceId::IMiniportWaveRT), true);
    assert_eq!(r.status, STATUS_NOINTERFACE);
    assert_eq!(r.out, QueryOut::Null);
    let r = topology_query_interface(&mut com, None, true);
    assert_eq!(r.status, STATUS_INVALID_PARAMETER);
    let r = topology_query_interface(&mut com, Some(InterfaceId::IPinName), false);
    assert_eq!(r.status, STATUS_INVALID_PARAMETER);
    assert_eq!(com.ref_count, 3);
}

#[test]
fn topology_reference_counting() {
    let mut com = MiniportTopologyCom::new(true);
    assert_eq!(topology_add_ref(&mut com), 2);
    assert_eq!(topology_release(&mut com), 1);
    assert_eq!(topology_release(&mut com), 0);
}

#[test]
fn topology_init_and_description() {
    let mut com = MiniportTopologyCom::new(true);
    assert_eq!(com.inner.is_capture, 1);
    assert_eq!(topology_init(&mut com, 1, 2, 0xABC0), STATUS_SUCCESS);
    assert_eq!(com.inner.port, 0xABC0);
    assert_eq!(com.inner.is_initialized, 1);
    assert_eq!(topology_get_description(&com, true), (STATUS_SUCCESS, Some(FilterDescriptor::TopologyCapture)));
    assert_eq!(topology_get_description(&com, false), (STATUS_INVALID_PARAMETER, None));
    let render = MiniportTopology::new(false);
    assert_eq!(render.is_capture, 0);
    assert_eq!(MiniportTopologyCom::from_this(Some(TopologyInterface::PinName)), 16);
    assert_eq!(MiniportTopologyCom::from_this(None), 0);
}

#[test]
fn topology_pins() {
    let c = topology_pin_count(0);
    assert_eq!((c.filter_necessary, c.filter_current, c.filter_possible, c.global_current, c.global_possible), (0, 0, 1, 0, 1));
    let render = MiniportTopologyCom::new(false);
    assert_eq!(topology_get_pin_name(&render, Some(1), true).name, Some(PinName::RenderPin));
    assert_eq!(topology_get_pin_name(&render, Some(0), true).name, Some(PinName::RenderBridge));
    let capture = MiniportTopologyCom::new(true);
    assert_eq!(topology_get_pin_name(&capture, Some(0), true).name, Some(PinName::CapturePin));
    assert_eq!(topology_get_pin_name(&capture, Some(1), true).name, Some(PinName::CaptureBridge));
    assert_eq!(topology_get_pin_name(&capture, None, true).status, STATUS_INVALID_PARAMETER);
    assert_eq!(pin_name_text(PinName::RenderPin), "Leyline Render Pin");
    assert_eq!(pin_name_text(PinName::CaptureBridge), "Leyline Capture Bridge");
    let n = pin_name_text(PinName::RenderBridge).encode_utf16().count() as u16;
    assert_eq!(unicode_lengths(n), (42, 44));
}

#[test]
fn wavert_query_and_references() {
    let mut com = MiniportWaveRTCom::new(false, 0x1000);
    let r = miniport_query_interface(&mut com, Some(InterfaceId::IMiniportWaveRTOutputStream), true);
    assert_eq!(r.out, QueryOut::Interface(WaveRTInterface::OutputStream));
    assert_eq!(com.ref_count, 2);
    let r = miniport_query_interface(&mut com, Some(InterfaceId::IPowerNotify), true);
    assert_eq!(r.status, STATUS_NOINTERFACE);
    assert_eq!(r.out, QueryOut::Null);
    assert_eq!(miniport_add_ref(&mut com), 3);
    assert_eq!(miniport_release(&mut com), 2);
    assert_eq!(MiniportWaveRTCom::from_this(Some(WaveRTInterface::ResourceManager)), 40);
}

#[test]
fn resource_and_packet_stubs() {
    assert_eq!(topology_add_resource(), STATUS_SUCCESS);
    assert_eq!(topology_remove_resource(), STATUS_SUCCESS);
    assert_eq!(wavert_add_resource(), STATUS_SUCCESS);
    assert_eq!(wavert_remove_resource(), STATUS_SUCCESS);
    assert_eq!(wavert_set_write_packet(1, 0, 0), STATUS_NOT_IMPLEMENTED);
    assert_eq!(wavert_get_output_stream_presentation_position(), STATUS_NOT_IMPLEMENTED);
    assert_eq!(wavert_get_packet_count(), STATUS_NOT_IMPLEMENTED);
    assert_eq!(wavert_get_read_packet(), STATUS_NOT_IMPLEMENTED);
}

#[test]
fn wavert_streams_fill_four_slots() {
    let mut com = MiniportWaveRTCom::new(false, 0);
    assert_eq!(miniport_new_stream(&mut com, true, 0, false, 0), (STATUS_INSUFFICIENT_RESOURCES, None));
    assert_eq!(miniport_init(&mut com, 0, 0, 0), STATUS_SUCCESS);
    for i in 0..4 {
        assert_eq!(miniport_new_stream(&mut com, true, 0, false, 0), (STATUS_SUCCESS, Some(i)));
    }
    assert_eq!(com.inner.streams, [true; 4]);
    assert_eq!(miniport_new_stream(&mut com, true, 0, false, 0), (STATUS_INSUFFICIENT_RESOURCES, None));
    assert_eq!(miniport_new_stream(&mut com, false, 0, false, 0), (STATUS_INVALID_PARAMETER, None));
}

#[test]
fn wavert_new_stream_takes_first_free_slot() {
    let mut m = MiniportWaveRT::new(true, 7);
    m.init(0, 0, 0);
    m.streams = [true, false, true, false];
    assert_eq!(m.new_stream(0, true, 0), Some(1));
    assert_eq!(m.streams, [true, true, true, false]);
    assert_eq!(m.get_device_description(), STATUS_SUCCESS);
}

#[test]
fn wavert_pins_and_description() {
    let c = wavert_pin_count(3);
    assert_eq!((c.filter_possible, c.global_possible, c.filter_current), (4, 4, 0));
    let render = MiniportWaveRTCom::new(false, 0);
    assert_eq!(wavert_get_pin_name(&render, Some(0), true).name, Some(PinName::RenderPin));
    assert_eq!(wavert_get_pin_name(&render, Some(1), true).name, Some(PinName::RenderBridge));
    assert_eq!(wavert_get_pin_name(&render, Some(0), false).status, STATUS_INVALID_PARAMETER);
    assert_eq!(miniport_get_description(&render, true), (STATUS_SUCCESS, Some(FilterDescriptor::WaveRender)));
    let capture = MiniportWaveRTCom::new(true, 0);
    assert_eq!(miniport_get_description(&capture, true), (STATUS_SUCCESS, Some(FilterDescriptor::WaveCapture)));
    assert_eq!(miniport_get_device_description(&capture, false), STATUS_INVALID_PARAMETER);
    assert_eq!(miniport_get_device_description(&capture, true), STATUS_SUCCESS);
}

#[test]
fn every_implemented_interface_takes_a_reference() {
    let implemented = [
        (InterfaceId::IUnknown, TopologyInterface::Miniport),
        (InterfaceId::IMiniport, TopologyInterface::Miniport),
        (InterfaceId::IMiniportTopology, TopologyInterface::Miniport),
        (InterfaceId::IPinCount, TopologyInterface::PinCount),
        (InterfaceId::IPinName, TopologyInterface::PinName),
        (InterfaceId::IPortClsStreamResourceManager, TopologyInterface::ResourceManager),
        (InterfaceId::IPortClsStreamResourceManager2, TopologyInterface::ResourceManager),
    ];
    let mut com = MiniportTopologyCom::new(true);
    for (k, (iid, slot)) in implemented.iter().enumerate() {
        let r = topology_query_interface(&mut com, Some(*iid), true);
        assert_eq!(r.status, STATUS_SUCCESS);
        assert_eq!(r.out, QueryOut::Interface(*slot));
        assert_eq!(com.ref_count, k as u32 + 2);
    }
    let r = topology_query_interface(&mut com, Some(InterfaceId::IPowerNotify), true);
    assert_eq!(r.status, STATUS_NOINTERFACE);
    assert_eq!(r.out, QueryOut::Null);
    assert_eq!(com.ref_count, 8);
    for k in (0..8).rev() {
        assert_eq!(topology_release(&mut com), k);
    }

    let mut w = MiniportWaveRTCom::new(false, 0);
    for (iid, slot) in [
        (InterfaceId::IMiniportWaveRTOutputStream, WaveRTInterface::OutputStream),
        (InterfaceId::IMiniportWaveRTInputStream, WaveRTInterface::InputStream),
        (InterfaceId::IPinName, WaveRTInterface::PinName),
    ] {
        assert_eq!(miniport_query_interface(&mut w, Some(iid), true).out, QueryOut::Interface(slot));
    }
    assert_eq!(w.ref_count, 4);
    assert_eq!(miniport_query_interface(&mut w, Some(InterfaceId::IMiniportTopology), true).status, STATUS_NOINTERFACE);
    assert_eq!(w.ref_count, 4);
}

#[test]
fn stream_openings_stop_after_four() {
    let mut m = MiniportWaveRT::new(false, 0x1000);
    assert_eq!(m.new_stream(0, false, 0), None);
    assert_eq!(m.streams, [false; 4]);
    m.init(0, 0, 0);
    let got: Vec<Option<usize>> = (0..6).map(|_| m.new_stream(0, false, 0)).collect();
    assert_eq!(got, vec![Some(0), Some(1), Some(2), Some(3), None, None]);
    assert_eq!(m.device_extension, 0x1000);
}
