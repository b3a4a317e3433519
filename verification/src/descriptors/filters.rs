//! The filters' shapes as the port sees them: their pins, their nodes and
//! the connections that carry audio through them.
use crate::com::{pin_counts_spec, PinName};
use crate::topology::{topology_pin_name_spec, FilterDescriptor};
use crate::wavert::{wavert_pin_name_spec, MAX_STREAMS};
use vstd::prelude::*;

verus! {

/// The node number that stands for the filter itself in a connection.
pub const PCFILTER_NODE: u32 = 0xFFFF_FFFF;

/// The wave filter's streaming pin.
pub const KSPIN_WAVE_SINK: u32 = 0;

/// The wave filter's bridge pin.
pub const KSPIN_WAVE_BRIDGE: u32 = 1;

/// The render topology filter's bridge pin.
pub const KSPIN_TOPO_BRIDGE: u32 = 0;

/// The render topology filter's line-out pin.
pub const KSPIN_TOPO_LINEOUT: u32 = 1;

/// A node's input pin.
pub const KSNODEPIN_STANDARD_IN: u32 = 1;

/// A node's output pin.
pub const KSNODEPIN_STANDARD_OUT: u32 = 0;

/// Which way audio crosses a pin.
#[derive(Clone, Copy, Debug, PartialEq, Eq, Structural)]
pub enum PinDataFlow {
    In,
    Out,
}

/// The category a pin is listed under.
#[derive(Clone, Copy, Debug, PartialEq, Eq, Structural)]
pub enum PinCategory {
    Audio,
    Speaker,
    Microphone,
}

/// A pin of a filter (a PCPIN_DESCRIPTOR).
#[derive(Clone, Copy, Debug, PartialEq, Eq, Structural)]
pub struct PinDescriptor {
    pub max_global_instances: u32,
    pub max_filter_instances: u32,
    pub min_filter_instances: u32,
    /// The pin streams through the standard streaming interface (the host
    /// pin); the others are bridges.
    pub streaming: bool,
    /// How many data ranges it offers: the PCM and float ranges on a
    /// streaming pin, the analog bridge range on a bridge.
    pub data_range_count: u32,
    pub data_flow: PinDataFlow,
    /// The pin is a communication sink (the host connects to it).
    pub sink: bool,
    pub category: PinCategory,
}

/// The kind of a topology node.
#[derive(Clone, Copy, Debug, PartialEq, Eq, Structural)]
pub enum NodeKind {
    Volume,
    Mute,
}

/// A connection inside a filter (a PCCONNECTION): from a node's pin, or a
/// filter pin when the node is `PCFILTER_NODE`, to another.
#[derive(Clone, Copy, Debug, PartialEq, Eq, Structural)]
pub struct Connection {
    pub from_node: u32,
    pub from_pin: u32,
    pub to_node: u32,
    pub to_pin: u32,
}

/// The categories a filter is registered under.
#[derive(Clone, Copy, Debug, PartialEq, Eq, Structural)]
pub enum FilterCategory {
    Audio,
    Render,
    Capture,
    Realtime,
    Topology,
}

/// The pins, nodes, connections and categories of a filter.
#[derive(Debug)]
pub struct FilterLayout {
    pub pins: Vec<PinDescriptor>,
    pub nodes: Vec<NodeKind>,
    pub connections: Vec<Connection>,
    pub categories: Vec<FilterCategory>,
}

/// The categories of each filter: the wave filters are real-time audio
/// render or capture filters, the topology filters audio topology filters.
pub open spec fn filter_categories_spec(filter: FilterDescriptor) -> Seq<FilterCategory> {
    match filter {
        FilterDescriptor::WaveRender => seq![
            FilterCategory::Audio,
            FilterCategory::Render,
            FilterCategory::Realtime,
        ],
        FilterDescriptor::WaveCapture => seq![
            FilterCategory::Audio,
            FilterCategory::Capture,
            FilterCategory::Realtime,
        ],
        _ => seq![FilterCategory::Audio, FilterCategory::Topology],
    }
}

/// A streaming pin: up to four instances, the PCM and float ranges, a sink.
pub open spec fn streaming_pin_spec(flow: PinDataFlow) -> PinDescriptor {
    PinDescriptor {
        max_global_instances: 4,
        max_filter_instances: 4,
        min_filter_instances: 1,
        streaming: true,
        data_range_count: 2,
        data_flow: flow,
        sink: true,
        category: PinCategory::Audio,
    }
}

/// A bridge pin: one instance, the analog range, no communication.
pub open spec fn bridge_pin_spec(flow: PinDataFlow, category: PinCategory) -> PinDescriptor {
    PinDescriptor {
        max_global_instances: 1,
        max_filter_instances: 1,
        min_filter_instances: 1,
        streaming: false,
        data_range_count: 1,
        data_flow: flow,
        sink: false,
        category,
    }
}

/// A connection between two filter pins.
pub open spec fn pin_to_pin(from_pin: u32, to_pin: u32) -> Connection {
    Connection { from_node: PCFILTER_NODE, from_pin, to_node: PCFILTER_NODE, to_pin }
}

/// The pins of each filter: the wave filters have the streaming pin and a
/// bridge, the render topology a bridge in and the speaker line out, the
/// capture topology the microphone in and a bridge out.
pub open spec fn filter_pins_spec(filter: FilterDescriptor) -> Seq<PinDescriptor> {
    match filter {
        FilterDescriptor::WaveRender => seq![
            streaming_pin_spec(PinDataFlow::In),
            bridge_pin_spec(PinDataFlow::Out, PinCategory::Audio),
        ],
        FilterDescriptor::WaveCapture => seq![
            streaming_pin_spec(PinDataFlow::Out),
            bridge_pin_spec(PinDataFlow::In, PinCategory::Audio),
        ],
        FilterDescriptor::TopologyRender => seq![
            bridge_pin_spec(PinDataFlow::In, PinCategory::Audio),
            bridge_pin_spec(PinDataFlow::Out, PinCategory::Speaker),
        ],
        FilterDescriptor::TopologyCapture => seq![
            bridge_pin_spec(PinDataFlow::In, PinCategory::Microphone),
            bridge_pin_spec(PinDataFlow::Out, PinCategory::Audio),
        ],
    }
}

/// The nodes of each filter: the render topology has a volume and then a
/// mute node, the others none.
pub open spec fn filter_nodes_spec(filter: FilterDescriptor) -> Seq<NodeKind> {
    match filter {
        FilterDescriptor::TopologyRender => seq![NodeKind::Volume, NodeKind::Mute],
        _ => Seq::empty(),
    }
}

/// The connections of each filter: the render wave filter runs from its
/// streaming pin to its bridge and the capture one back; the render
/// topology runs from its bridge through volume and mute to the line out;
/// the capture topology from the microphone to its bridge.
pub open spec fn filter_connections_spec(filter: FilterDescriptor) -> Seq<Connection> {
    match filter {
        FilterDescriptor::WaveRender => seq![pin_to_pin(KSPIN_WAVE_SINK, KSPIN_WAVE_BRIDGE)],
        FilterDescriptor::WaveCapture => seq![pin_to_pin(KSPIN_WAVE_BRIDGE, KSPIN_WAVE_SINK)],
        FilterDescriptor::TopologyRender => seq![
            Connection {
                from_node: PCFILTER_NODE,
                from_pin: KSPIN_TOPO_BRIDGE,
                to_node: 0,
                to_pin: KSNODEPIN_STANDARD_IN,
            },
            Connection {
                from_node: 0,
                from_pin: KSNODEPIN_STANDARD_OUT,
                to_node: 1,
                to_pin: KSNODEPIN_STANDARD_IN,
            },
            Connection {
                from_node: 1,
                from_pin: KSNODEPIN_STANDARD_OUT,
                to_node: PCFILTER_NODE,
                to_pin: KSPIN_TOPO_LINEOUT,
            },
        ],
        FilterDescriptor::TopologyCapture => seq![pin_to_pin(0, 1)],
    }
}

fn streaming_pin(flow: PinDataFlow) -> (pin: PinDescriptor)
    ensures
        pin == streaming_pin_spec(flow),
{
    PinDescriptor {
        max_global_instances: 4,
        max_filter_instances: 4,
        min_filter_instances: 1,
        streaming: true,
        data_range_count: 2,
        data_flow: flow,
        sink: true,
        category: PinCategory::Audio,
    }
}

fn bridge_pin(flow: PinDataFlow, category: PinCategory) -> (pin: PinDescriptor)
    ensures
        pin == bridge_pin_spec(flow, category),
{
    PinDescriptor {
        max_global_instances: 1,
        max_filter_instances: 1,
        min_filter_instances: 1,
        streaming: false,
        data_range_count: 1,
        data_flow: flow,
        sink: false,
        category,
    }
}

/// Returns the pins, nodes, connections and categories of a filter.
pub fn filter_layout(filter: FilterDescriptor) -> (layout: FilterLayout)
    ensures
        layout.pins@ == filter_pins_spec(filter),
        layout.nodes@ == filter_nodes_spec(filter),
        layout.connections@ == filter_connections_spec(filter),
        layout.categories@ == filter_categories_spec(filter),
{
    let layout = match filter {
        FilterDescriptor::WaveRender => FilterLayout {
            pins: vec![streaming_pin(PinDataFlow::In), bridge_pin(PinDataFlow::Out, PinCategory::Audio)],
            nodes: Vec::new(),
            connections: vec![
                Connection {
                    from_node: PCFILTER_NODE,
                    from_pin: KSPIN_WAVE_SINK,
                    to_node: PCFILTER_NODE,
                    to_pin: KSPIN_WAVE_BRIDGE,
                },
            ],
            categories: vec![FilterCategory::Audio, FilterCategory::Render, FilterCategory::Realtime],
        },
        FilterDescriptor::WaveCapture => FilterLayout {
            pins: vec![streaming_pin(PinDataFlow::Out), bridge_pin(PinDataFlow::In, PinCategory::Audio)],
            nodes: Vec::new(),
            connections: vec![
                Connection {
                    from_node: PCFILTER_NODE,
                    from_pin: KSPIN_WAVE_BRIDGE,
                    to_node: PCFILTER_NODE,
                    to_pin: KSPIN_WAVE_SINK,
                },
            ],
            categories: vec![FilterCategory::Audio, FilterCategory::Capture, FilterCategory::Realtime],
        },
        FilterDescriptor::TopologyRender => FilterLayout {
            pins: vec![
                bridge_pin(PinDataFlow::In, PinCategory::Audio),
                bridge_pin(PinDataFlow::Out, PinCategory::Speaker),
            ],
            nodes: vec![NodeKind::Volume, NodeKind::Mute],
            connections: vec![
                Connection {
                    from_node: PCFILTER_NODE,
                    from_pin: KSPIN_TOPO_BRIDGE,
                    to_node: 0,
                    to_pin: KSNODEPIN_STANDARD_IN,
                },
                Connection {
                    from_node: 0,
                    from_pin: KSNODEPIN_STANDARD_OUT,
                    to_node: 1,
                    to_pin: KSNODEPIN_STANDARD_IN,
                },
                Connection {
                    from_node: 1,
                    from_pin: KSNODEPIN_STANDARD_OUT,
                    to_node: PCFILTER_NODE,
                    to_pin: KSPIN_TOPO_LINEOUT,
                },
            ],
            categories: vec![FilterCategory::Audio, FilterCategory::Topology],
        },
        FilterDescriptor::TopologyCapture => FilterLayout {
            pins: vec![
                bridge_pin(PinDataFlow::In, PinCategory::Microphone),
                bridge_pin(PinDataFlow::Out, PinCategory::Audio),
            ],
            nodes: Vec::new(),
            connections: vec![
                Connection { from_node: PCFILTER_NODE, from_pin: 0, to_node: PCFILTER_NODE, to_pin: 1 },
            ],
            categories: vec![FilterCategory::Audio, FilterCategory::Topology],
        },
    };
    assert(layout.pins@ =~= filter_pins_spec(filter));
    assert(layout.nodes@ =~= filter_nodes_spec(filter));
    assert(layout.connections@ =~= filter_connections_spec(filter));
    assert(layout.categories@ =~= filter_categories_spec(filter));
    layout
}

/// A connection's ends exist in the filter and audio runs the right way:
/// a filter-side source is an input pin, a filter-side target an output
/// pin; a node-side end names a node, entering at its input and leaving at
/// its output.
pub open spec fn connection_well_formed(filter: FilterDescriptor, c: Connection) -> bool {
    let pins = filter_pins_spec(filter);
    let nodes = filter_nodes_spec(filter);
    &&& if c.from_node == PCFILTER_NODE {
        c.from_pin < pins.len() && pins[c.from_pin as int].data_flow == PinDataFlow::In
    } else {
        c.from_node < nodes.len() && c.from_pin == KSNODEPIN_STANDARD_OUT
    }
    &&& if c.to_node == PCFILTER_NODE {
        c.to_pin < pins.len() && pins[c.to_pin as int].data_flow == PinDataFlow::Out
    } else {
        c.to_node < nodes.len() && c.to_pin == KSNODEPIN_STANDARD_IN
    }
}

/// Every connection of every filter is well formed, and each filter has
/// exactly one streaming pin or none: the wave filters' streaming pin
/// allows as many instances as the WaveRT miniport has stream slots.
pub proof fn law_filters_well_formed(filter: FilterDescriptor)
    ensures
        forall|i: int|
            0 <= i < filter_connections_spec(filter).len() ==> #[trigger] connection_well_formed(
                filter,
                filter_connections_spec(filter)[i],
            ),
        filter == FilterDescriptor::WaveRender || filter == FilterDescriptor::WaveCapture ==> {
            &&& filter_pins_spec(filter)[0].streaming
            &&& filter_pins_spec(filter)[0].max_filter_instances == MAX_STREAMS
            &&& !filter_pins_spec(filter)[1].streaming
        },
        filter == FilterDescriptor::TopologyRender || filter == FilterDescriptor::TopologyCapture
            ==> forall|i: int|
            0 <= i < filter_pins_spec(filter).len() ==> !(#[trigger] filter_pins_spec(filter)[i]).streaming,
{
    let cs = filter_connections_spec(filter);
    assert forall|i: int| 0 <= i < cs.len() implies #[trigger] connection_well_formed(filter, cs[i]) by {
        if filter == FilterDescriptor::TopologyRender {
            assert(i == 0 || i == 1 || i == 2);
        } else {
            assert(i == 0);
        }
    }
}

/// The pins the miniports name "Render Pin" and "Capture Pin" are the
/// filters' outer ends: the wave filters' streaming pin, the render
/// topology's speaker line out and the capture topology's microphone; and
/// the instance count the WaveRT miniport reports for its pins is the
/// streaming pin's limit.
pub proof fn law_named_pins_are_the_outer_ends()
    ensures
        wavert_pin_name_spec(false, KSPIN_WAVE_SINK) == PinName::RenderPin,
        wavert_pin_name_spec(true, KSPIN_WAVE_SINK) == PinName::CapturePin,
        filter_pins_spec(FilterDescriptor::WaveRender)[KSPIN_WAVE_SINK as int].streaming,
        filter_pins_spec(FilterDescriptor::WaveCapture)[KSPIN_WAVE_SINK as int].streaming,
        topology_pin_name_spec(false, KSPIN_TOPO_LINEOUT) == PinName::RenderPin,
        filter_pins_spec(FilterDescriptor::TopologyRender)[KSPIN_TOPO_LINEOUT as int].category
            == PinCategory::Speaker,
        topology_pin_name_spec(true, 0) == PinName::CapturePin,
        filter_pins_spec(FilterDescriptor::TopologyCapture)[0].category == PinCategory::Microphone,
        pin_counts_spec(4).filter_possible == filter_pins_spec(
            FilterDescriptor::WaveRender,
        )[KSPIN_WAVE_SINK as int].max_filter_instances,
{
}

/// In every filter the streaming pin is the one communication sink (the
/// pin the host connects its stream to); bridge pins have no
/// communication. A streaming pin takes as many instances as the WaveRT
/// miniport has stream slots and offers the PCM and float ranges; a bridge
/// takes one instance and the analog range. Each filter has two pins of
/// opposite directions, and only the capture wave filter's pin 0 sends
/// audio out (to the host).
pub proof fn law_streaming_pins_are_the_sinks(filter: FilterDescriptor)
    ensures
        forall|i: int|
            0 <= i < filter_pins_spec(filter).len() ==> (#[trigger] filter_pins_spec(filter)[i]).sink
                == filter_pins_spec(filter)[i].streaming,
        filter == FilterDescriptor::WaveRender || filter == FilterDescriptor::WaveCapture
            ==> filter_pins_spec(filter)[KSPIN_WAVE_SINK as int].sink,
        forall|i: int|
            0 <= i < filter_pins_spec(filter).len() ==> {
                let p = #[trigger] filter_pins_spec(filter)[i];
                &&& p.min_filter_instances == 1
                &&& p.max_filter_instances == p.max_global_instances
                &&& p.streaming ==> p.max_filter_instances == MAX_STREAMS && p.data_range_count == 2
                    && p.category == PinCategory::Audio
                &&& !p.streaming ==> p.max_filter_instances == 1 && p.data_range_count == 1
            },
        filter_pins_spec(filter).len() == 2,
        filter_pins_spec(filter)[0].data_flow != filter_pins_spec(filter)[1].data_flow,
        (filter == FilterDescriptor::WaveCapture) == (filter_pins_spec(filter)[0].data_flow
            == PinDataFlow::Out),
{
}

} // verus!
