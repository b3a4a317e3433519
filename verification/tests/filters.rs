use leyline::descriptors::filters::{
    filter_layout, Connection, FilterCategory, NodeKind, PinCategory, PinDataFlow, KSNODEPIN_STANDARD_IN, KSNODEPIN_STANDARD_OUT,
    PCFILTER_NODE,
};
use leyline::topology::FilterDescriptor;
use leyline::wavert::MAX_STREAMS;

#[test]
fn wave_render_runs_from_streaming_pin_to_bridge() {
    let l = filter_layout(FilterDescriptor::WaveRender);
    assert_eq!(l.pins.len(), 2);
    assert!(l.pins[0].streaming);
    assert_eq!(l.pins[0].max_filter_instances as usize, MAX_STREAMS);
    assert_eq!(l.pins[0].data_range_count, 2);
    assert_eq!(l.pins[0].data_flow, PinDataFlow::In);
    assert!(!l.pins[1].streaming);
    assert_eq!(l.pins[1].data_flow, PinDataFlow::Out);
    assert!(l.nodes.is_empty());
    assert_eq!(l.connections, vec![Connection { from_node: PCFILTER_NODE, from_pin: 0, to_node: PCFILTER_NODE, to_pin: 1 }]);
}

#[test]
fn wave_capture_runs_back_from_bridge() {
    let l = filter_layout(FilterDescriptor::WaveCapture);
    assert_eq!(l.pins[0].data_flow, PinDataFlow::Out);
    assert_eq!(l.pins[1].data_flow, PinDataFlow::In);
    assert_eq!(l.connections, vec![Connection { from_node: PCFILTER_NODE, from_pin: 1, to_node: PCFILTER_NODE, to_pin: 0 }]);
}

#[test]
fn render_topology_chains_volume_and_mute() {
    let l = filter_layout(FilterDescriptor::TopologyRender);
    assert_eq!(l.nodes, vec![NodeKind::Volume, NodeKind::Mute]);
    assert_eq!(l.pins[1].category, PinCategory::Speaker);
    assert_eq!(l.connections.len(), 3);
    assert_eq!(l.connections[0], Connection { from_node: PCFILTER_NODE, from_pin: 0, to_node: 0, to_pin: KSNODEPIN_STANDARD_IN });
    assert_eq!(l.connections[1], Connection { from_node: 0, from_pin: KSNODEPIN_STANDARD_OUT, to_node: 1, to_pin: KSNODEPIN_STANDARD_IN });
    assert_eq!(l.connections[2], Connection { from_node: 1, from_pin: KSNODEPIN_STANDARD_OUT, to_node: PCFILTER_NODE, to_pin: 1 });
}

#[test]
fn capture_topology_runs_from_microphone() {
    let l = filter_layout(FilterDescriptor::TopologyCapture);
    assert_eq!(l.pins[0].category, PinCategory::Microphone);
    assert_eq!(l.pins[0].data_flow, PinDataFlow::In);
    assert!(l.pins.iter().all(|p| !p.streaming && p.max_filter_instances == 1));
    assert_eq!(l.connections, vec![Connection { from_node: PCFILTER_NODE, from_pin: 0, to_node: PCFILTER_NODE, to_pin: 1 }]);
}

#[test]
fn filters_are_registered_under_their_categories() {
    assert_eq!(
        filter_layout(FilterDescriptor::WaveRender).categories,
        vec![FilterCategory::Audio, FilterCategory::Render, FilterCategory::Realtime]
    );
    assert_eq!(
        filter_layout(FilterDescriptor::WaveCapture).categories,
        vec![FilterCategory::Audio, FilterCategory::Capture, FilterCategory::Realtime]
    );
    assert_eq!(filter_layout(FilterDescriptor::TopologyRender).categories, vec![FilterCategory::Audio, FilterCategory::Topology]);
    assert_eq!(filter_layout(FilterDescriptor::TopologyCapture).categories, vec![FilterCategory::Audio, FilterCategory::Topology]);
}
