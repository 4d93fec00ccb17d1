//! Packet classification: a pure function from raw packet bytes to a traffic
//! profile.
//!
//! Two interchangeable strategies are provided. Deep inspection parses
//! Ethernet framing, the IPv4 header and the TCP/UDP ports and looks the port
//! up in a fixed table. The size heuristic buckets a packet by its total byte
//! length alone; it is deliberately coarse and lower-fidelity than deep
//! inspection, and serves when header fields are unavailable. Malformed input
//! never fails: it degrades to `Unknown` with the lowest priority.

use vstd::prelude::*;

verus! {

/// Coarse categorization of a packet's application profile.
#[derive(Debug, Clone, Copy, PartialEq, Eq, Structural)]
pub enum TrafficType {
    /// Low latency priority.
    Gaming,
    /// High bandwidth priority.
    Streaming,
    /// Best effort bulk transfer.
    File,
    /// Balanced web traffic.
    Web,
    /// Nothing recognizable.
    Unknown,
}

/// An IPv4 address as four plain octets.
#[derive(Debug, Clone, Copy, PartialEq, Eq, Structural)]
pub struct Ipv4Address {
    pub octet0: u8,
    pub octet1: u8,
    pub octet2: u8,
    pub octet3: u8,
}

/// The classifier's verdict on one packet. Created per packet and consumed
/// immediately; never persisted.
#[derive(Debug, Clone, Copy, PartialEq, Eq, Structural)]
pub struct TrafficInfo {
    pub traffic_type: TrafficType,
    /// 1 (best effort) to 4 (latency-sensitive).
    pub priority: u8,
    pub estimated_size: u64,
    /// The IPv4 destination, when a header could be parsed.
    pub destination: Option<Ipv4Address>,
}

/// The two classification strategies, selectable per call.
#[derive(Debug, Clone, Copy, PartialEq, Eq, Structural)]
pub enum ClassificationStrategy {
    DeepInspection,
    SizeHeuristic,
}

/// The priority that goes with each traffic class.
pub open spec fn spec_priority_of(t: TrafficType) -> u8 {
    match t {
        TrafficType::Gaming => 4,
        TrafficType::Streaming => 3,
        TrafficType::Web => 2,
        TrafficType::File => 1,
        TrafficType::Unknown => 1,
    }
}

/// Size-heuristic bucketing of a packet length into a traffic class.
pub open spec fn spec_size_class(len: int) -> TrafficType {
    if len <= 64 {
        TrafficType::Gaming
    } else if len <= 512 {
        TrafficType::Web
    } else if len <= 1500 {
        TrafficType::Streaming
    } else {
        TrafficType::File
    }
}

/// What the size heuristic reports for a whole packet.
pub open spec fn spec_classify_by_size(p: Seq<u8>) -> TrafficInfo {
    TrafficInfo {
        traffic_type: spec_size_class(p.len() as int),
        priority: spec_priority_of(spec_size_class(p.len() as int)),
        estimated_size: p.len() as u64,
        destination: None,
    }
}

/// The fixed port table. `None` means the port decides nothing; the TCP
/// ephemeral range is consulted only after every named port, so a named
/// streaming or file-transfer port inside 1024..=5000 keeps its class.
pub open spec fn spec_port_class(port: u16, is_tcp: bool) -> Option<TrafficType> {
    if port == 80 || port == 443 || port == 8080 || port == 8443 || port == 53 {
        Some(TrafficType::Web)
    } else if port == 3074 || port == 27015 || (7777 <= port && port <= 7784) || port == 5060
        || port == 5061 {
        Some(TrafficType::Gaming)
    } else if port == 1935 || port == 554 || port == 5004 || port == 5005 || port == 1234 {
        Some(TrafficType::Streaming)
    } else if port == 21 || port == 22 || port == 989 || port == 990 {
        Some(TrafficType::File)
    } else if is_tcp && 1024 <= port && port <= 5000 {
        Some(TrafficType::Gaming)
    } else {
        None
    }
}

/// The verdict when nothing can be parsed: degrade, never fail.
pub open spec fn spec_unknown_info(len: int, destination: Option<Ipv4Address>) -> TrafficInfo {
    TrafficInfo {
        traffic_type: TrafficType::Unknown,
        priority: 1,
        estimated_size: len as u64,
        destination,
    }
}

/// Whether the bytes carry an IPv4 packet over Ethernet whose header is
/// complete: Ethernet frame with ethertype 0x0800, IP version 4, and a header
/// length field that fits inside the packet.
pub open spec fn spec_has_ipv4_header(p: Seq<u8>) -> bool {
    &&& p.len() >= 34
    &&& p[12] == 8
    &&& p[13] == 0
    &&& p[14] / 16 == 4
    &&& p[14] % 16 >= 5
    &&& 14 + (p[14] % 16) * 4 <= p.len()
}

/// Byte offset of the transport header: Ethernet frame plus the IPv4 header
/// length taken from the IHL field.
pub open spec fn spec_transport_offset(p: Seq<u8>) -> int {
    14 + (p[14] % 16) * 4
}

/// The IPv4 destination address of a packet with a complete IPv4 header.
pub open spec fn spec_ipv4_destination(p: Seq<u8>) -> Ipv4Address {
    Ipv4Address { octet0: p[30], octet1: p[31], octet2: p[32], octet3: p[33] }
}

/// Whether the transport header's port fields are present: protocol TCP (6)
/// or UDP (17), with at least the two port fields inside the packet.
pub open spec fn spec_has_ports(p: Seq<u8>) -> bool {
    &&& spec_has_ipv4_header(p)
    &&& (p[23] == 6 || p[23] == 17)
    &&& spec_transport_offset(p) + 4 <= p.len()
}

/// The transport source port, big endian.
pub open spec fn spec_source_port(p: Seq<u8>) -> u16 {
    (p[spec_transport_offset(p)] * 256 + p[spec_transport_offset(p) + 1]) as u16
}

/// The transport destination port, big endian.
pub open spec fn spec_destination_port(p: Seq<u8>) -> u16 {
    (p[spec_transport_offset(p) + 2] * 256 + p[spec_transport_offset(p) + 3]) as u16
}

/// The class the port table gives a packet: the destination port decides,
/// the source port is the fallback.
pub open spec fn spec_deep_port_class(p: Seq<u8>) -> Option<TrafficType> {
    let is_tcp = p[23] == 6;
    match spec_port_class(spec_destination_port(p), is_tcp) {
        Some(t) => Some(t),
        None => spec_port_class(spec_source_port(p), is_tcp),
    }
}

/// What deep inspection reports for a whole packet. Any parse failure at any
/// layer degrades to `Unknown` rather than erroring.
pub open spec fn spec_classify_deep(p: Seq<u8>) -> TrafficInfo {
    if !spec_has_ipv4_header(p) {
        spec_unknown_info(p.len() as int, None)
    } else if !spec_has_ports(p) {
        spec_unknown_info(p.len() as int, Some(spec_ipv4_destination(p)))
    } else {
        match spec_deep_port_class(p) {
            Some(t) => TrafficInfo {
                traffic_type: t,
                priority: spec_priority_of(t),
                estimated_size: p.len() as u64,
                destination: Some(spec_ipv4_destination(p)),
            },
            None => spec_unknown_info(p.len() as int, Some(spec_ipv4_destination(p))),
        }
    }
}

/// The priority that goes with each traffic class.
pub fn priority_of(t: TrafficType) -> (r: u8)
    ensures
        r == spec_priority_of(t),
{
    match t {
        TrafficType::Gaming => 4,
        TrafficType::Streaming => 3,
        TrafficType::Web => 2,
        TrafficType::File => 1,
        TrafficType::Unknown => 1,
    }
}

/// Classify a packet by its total byte length alone.
pub fn classify_by_size(packet_data: &[u8]) -> (r: TrafficInfo)
    ensures
        r == spec_classify_by_size(packet_data@),
{
    let len = packet_data.len();
    let traffic_type = if len <= 64 {
        TrafficType::Gaming
    } else if len <= 512 {
        TrafficType::Web
    } else if len <= 1500 {
        TrafficType::Streaming
    } else {
        TrafficType::File
    };
    TrafficInfo {
        traffic_type,
        priority: priority_of(traffic_type),
        estimated_size: len as u64,
        destination: None,
    }
}

/// Look one port up in the fixed table.
fn port_class(port: u16, is_tcp: bool) -> (r: Option<TrafficType>)
    ensures
        r == spec_port_class(port, is_tcp),
{
    if port == 80 || port == 443 || port == 8080 || port == 8443 || port == 53 {
        Some(TrafficType::Web)
    } else if port == 3074 || port == 27015 || (7777 <= port && port <= 7784) || port == 5060
        || port == 5061 {
        Some(TrafficType::Gaming)
    } else if port == 1935 || port == 554 || port == 5004 || port == 5005 || port == 1234 {
        Some(TrafficType::Streaming)
    } else if port == 21 || port == 22 || port == 989 || port == 990 {
        Some(TrafficType::File)
    } else if is_tcp && 1024 <= port && port <= 5000 {
        Some(TrafficType::Gaming)
    } else {
        None
    }
}

/// Classify a packet by parsing its Ethernet, IPv4 and transport headers.
pub fn classify_deep(packet_data: &[u8]) -> (r: TrafficInfo)
    ensures
        r == spec_classify_deep(packet_data@),
{
    let len = packet_data.len();
    if !(len >= 34 && packet_data[12] == 8 && packet_data[13] == 0
        && packet_data[14] / 16 == 4 && packet_data[14] % 16 >= 5) {
        return TrafficInfo {
            traffic_type: TrafficType::Unknown,
            priority: 1,
            estimated_size: len as u64,
            destination: None,
        };
    }
    let header_len: usize = (packet_data[14] % 16) as usize * 4;
    if 14 + header_len > len {
        return TrafficInfo {
            traffic_type: TrafficType::Unknown,
            priority: 1,
            estimated_size: len as u64,
            destination: None,
        };
    }
    let destination = Some(Ipv4Address {
        octet0: packet_data[30],
        octet1: packet_data[31],
        octet2: packet_data[32],
        octet3: packet_data[33],
    });
    let protocol = packet_data[23];
    let transport = 14 + header_len;
    if !((protocol == 6 || protocol == 17) && transport + 4 <= len) {
        return TrafficInfo {
            traffic_type: TrafficType::Unknown,
            priority: 1,
            estimated_size: len as u64,
            destination,
        };
    }
    let is_tcp = protocol == 6;
    let source_port: u16 = packet_data[transport] as u16 * 256
        + packet_data[transport + 1] as u16;
    let destination_port: u16 = packet_data[transport + 2] as u16 * 256
        + packet_data[transport + 3] as u16;
    let class = match port_class(destination_port, is_tcp) {
        Some(t) => Some(t),
        None => port_class(source_port, is_tcp),
    };
    match class {
        Some(t) => TrafficInfo {
            traffic_type: t,
            priority: priority_of(t),
            estimated_size: len as u64,
            destination,
        },
        None => TrafficInfo {
            traffic_type: TrafficType::Unknown,
            priority: 1,
            estimated_size: len as u64,
            destination,
        },
    }
}

/// Classify under the chosen strategy; the two are interchangeable.
pub fn classify(strategy: ClassificationStrategy, packet_data: &[u8]) -> (r: TrafficInfo)
    ensures
        r == match strategy {
            ClassificationStrategy::DeepInspection => spec_classify_deep(packet_data@),
            ClassificationStrategy::SizeHeuristic => spec_classify_by_size(packet_data@),
        },
{
    match strategy {
        ClassificationStrategy::DeepInspection => classify_deep(packet_data),
        ClassificationStrategy::SizeHeuristic => classify_by_size(packet_data),
    }
}

} // verus!
