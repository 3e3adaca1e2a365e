//! Classification of a frame by ethertype and extraction of the header
//! fields of each layer. Every layer too short for its fixed header is
//! skipped, so decoding never fails: it only yields a less detailed report.
use vstd::prelude::*;
use vstd::slice::{slice_subrange, slice_to_vec};

verus! {

/// Length of the Ethernet header: two hardware addresses and the ethertype.
pub const ETHERNET_HEADER_LEN: usize = 14;

/// Minimum (option-free) IPv4 header length.
pub const IPV4_HEADER_LEN: usize = 20;

/// Fixed IPv6 header length.
pub const IPV6_HEADER_LEN: usize = 40;

/// ARP header length for IPv4 over Ethernet.
pub const ARP_HEADER_LEN: usize = 28;

/// Minimum (option-free) TCP header length.
pub const TCP_HEADER_LEN: usize = 20;

/// UDP header length.
pub const UDP_HEADER_LEN: usize = 8;

/// Ethertype of IPv4.
pub const ETHERTYPE_IPV4: u16 = 0x0800;

/// Ethertype of IPv6.
pub const ETHERTYPE_IPV6: u16 = 0x86DD;

/// Ethertype of ARP.
pub const ETHERTYPE_ARP: u16 = 0x0806;

/// IP next-protocol number of TCP.
pub const PROTOCOL_TCP: u8 = 6;

/// IP next-protocol number of UDP.
pub const PROTOCOL_UDP: u8 = 17;

/// Big-endian 16-bit value at `i`.
pub open spec fn be16(b: Seq<u8>, i: int) -> int {
    b[i] as int * 256 + b[i + 1] as int
}

/// Big-endian 32-bit value at `i`.
pub open spec fn be32(b: Seq<u8>, i: int) -> int {
    be16(b, i) * 65536 + be16(b, i + 2)
}

/// What the ethertype of a frame announces.
#[derive(Clone, Copy, Debug, PartialEq, Eq, Structural)]
pub enum EtherKind {
    Ipv4,
    Ipv6,
    Arp,
    /// Another ethertype, or a frame shorter than the Ethernet header.
    Unclassified,
}

/// The fixed Ethernet header of a frame.
#[derive(Debug)]
pub struct EthernetHeader {
    pub destination: Vec<u8>,
    pub source: Vec<u8>,
    pub ethertype: u16,
}

/// IP version of a decoded network header.
#[derive(Clone, Copy, Debug, PartialEq, Eq, Structural)]
pub enum IpVersion {
    V4,
    V6,
}

/// Transport fields found in an IP payload.
#[derive(Clone, Copy, Debug, PartialEq, Eq, Structural)]
pub enum Transport {
    Tcp { source: u16, destination: u16, sequence: u32, acknowledgement: u32, flags: u8 },
    Udp { source: u16, destination: u16 },
    /// Not TCP or UDP, or too short for the transport header.
    Absent,
}

/// A decoded IPv4 or IPv6 header. The payload is the byte range
/// `payload_start..payload_end` of the frame it was decoded from.
#[derive(Debug)]
pub struct IpHeader {
    pub version: IpVersion,
    pub source: Vec<u8>,
    pub destination: Vec<u8>,
    pub protocol: u8,
    /// IPv4 total length, or IPv6 payload length.
    pub length: u16,
    pub payload_start: usize,
    pub payload_end: usize,
}

/// A decoded ARP header (IPv4 over Ethernet).
#[derive(Debug)]
pub struct ArpHeader {
    pub sender: Vec<u8>,
    pub target: Vec<u8>,
    pub operation: u16,
    /// Length of the ARP packet: everything after the Ethernet header.
    pub length: usize,
    pub payload_start: usize,
    pub payload_end: usize,
}

/// What a frame decoded to.
#[derive(Debug)]
pub enum FrameReport {
    /// No network layer was decoded.
    Other { frame_len: usize },
    Arp(ArpHeader),
    Ip(IpHeader, Transport),
}

/// Mathematical view of an [`IpHeader`].
pub struct IpModel {
    pub version: IpVersion,
    pub source: Seq<u8>,
    pub destination: Seq<u8>,
    pub protocol: u8,
    pub length: u16,
    pub payload_start: int,
    pub payload_end: int,
}

/// Mathematical view of an [`ArpHeader`].
pub struct ArpModel {
    pub sender: Seq<u8>,
    pub target: Seq<u8>,
    pub operation: u16,
    pub length: int,
    pub payload_start: int,
    pub payload_end: int,
}

/// Mathematical view of a [`FrameReport`].
pub enum FrameModel {
    Other { frame_len: int },
    Arp(ArpModel),
    Ip(IpModel, Transport),
}

impl View for IpHeader {
    type V = IpModel;

    open spec fn view(&self) -> IpModel {
        IpModel {
            version: self.version,
            source: self.source@,
            destination: self.destination@,
            protocol: self.protocol,
            length: self.length,
            payload_start: self.payload_start as int,
            payload_end: self.payload_end as int,
        }
    }
}

impl View for ArpHeader {
    type V = ArpModel;

    open spec fn view(&self) -> ArpModel {
        ArpModel {
            sender: self.sender@,
            target: self.target@,
            operation: self.operation,
            length: self.length as int,
            payload_start: self.payload_start as int,
            payload_end: self.payload_end as int,
        }
    }
}

impl View for FrameReport {
    type V = FrameModel;

    open spec fn view(&self) -> FrameModel {
        match self {
            FrameReport::Other { frame_len } => FrameModel::Other { frame_len: *frame_len as int },
            FrameReport::Arp(a) => FrameModel::Arp(a@),
            FrameReport::Ip(h, t) => FrameModel::Ip(h@, *t),
        }
    }
}

impl FrameModel {
    /// The reported protocol addresses have the length of their protocol:
    /// four bytes for IPv4 and ARP, sixteen for IPv6.
    pub open spec fn well_formed(self) -> bool {
        match self {
            FrameModel::Other { .. } => true,
            FrameModel::Arp(a) => a.sender.len() == 4 && a.target.len() == 4,
            FrameModel::Ip(h, _) => match h.version {
                IpVersion::V4 => h.source.len() == 4 && h.destination.len() == 4,
                IpVersion::V6 => h.source.len() == 16 && h.destination.len() == 16,
            },
        }
    }

    /// The payload range that is dumped, for frames with a decoded network layer.
    pub open spec fn payload_range(self) -> Option<(int, int)> {
        match self {
            FrameModel::Other { .. } => None,
            FrameModel::Arp(a) => Some((a.payload_start, a.payload_end)),
            FrameModel::Ip(h, _) => Some((h.payload_start, h.payload_end)),
        }
    }
}

/// Classification of frame `f` by its ethertype.
pub open spec fn ether_kind(f: Seq<u8>) -> EtherKind {
    if f.len() < 14 {
        EtherKind::Unclassified
    } else if be16(f, 12) == 0x0800 {
        EtherKind::Ipv4
    } else if be16(f, 12) == 0x86DD {
        EtherKind::Ipv6
    } else if be16(f, 12) == 0x0806 {
        EtherKind::Arp
    } else {
        EtherKind::Unclassified
    }
}

/// Payload range of a layer: from `start` to `upper`, cut at the end of
/// the frame; empty when the frame ends at or before `start`.
pub open spec fn span(len: int, start: int, upper: int) -> (int, int) {
    if len <= start {
        (len, len)
    } else if upper < len {
        (start, upper)
    } else {
        (start, len)
    }
}

/// Transport fields of the IP payload `s..e` of frame `f`.
pub open spec fn transport_model(f: Seq<u8>, protocol: u8, s: int, e: int) -> Transport {
    if protocol == 6 && e - s >= 20 {
        Transport::Tcp {
            source: be16(f, s) as u16,
            destination: be16(f, s + 2) as u16,
            sequence: be32(f, s + 4) as u32,
            acknowledgement: be32(f, s + 8) as u32,
            flags: f[s + 13],
        }
    } else if protocol == 17 && e - s >= 8 {
        Transport::Udp { source: be16(f, s) as u16, destination: be16(f, s + 2) as u16 }
    } else {
        Transport::Absent
    }
}

/// IPv4 header of frame `f`, which holds at least the minimum header.
/// The payload starts after the header length given by the IHL field (at
/// least the minimum header) and runs for the total length less that
/// header length.
pub open spec fn ipv4_model(f: Seq<u8>) -> IpModel {
    let hl = (f[14] % 16) as int * 4;
    let start = 14 + if hl > 20 { hl } else { 20 };
    let total = be16(f, 16);
    let upper = start + if total > hl { total - hl } else { 0 };
    let sp = span(f.len() as int, start, upper);
    IpModel {
        version: IpVersion::V4,
        source: f.subrange(26, 30),
        destination: f.subrange(30, 34),
        protocol: f[23],
        length: total as u16,
        payload_start: sp.0,
        payload_end: sp.1,
    }
}

/// IPv6 header of frame `f`, which holds at least the fixed header.
pub open spec fn ipv6_model(f: Seq<u8>) -> IpModel {
    let plen = be16(f, 18);
    let sp = span(f.len() as int, 54, 54 + plen);
    IpModel {
        version: IpVersion::V6,
        source: f.subrange(22, 38),
        destination: f.subrange(38, 54),
        protocol: f[20],
        length: plen as u16,
        payload_start: sp.0,
        payload_end: sp.1,
    }
}

/// ARP header of frame `f`, which holds at least the ARP header. Its
/// payload is empty.
pub open spec fn arp_model(f: Seq<u8>) -> ArpModel {
    let sp = span(f.len() as int, 42, 42);
    ArpModel {
        sender: f.subrange(28, 32),
        target: f.subrange(38, 42),
        operation: be16(f, 20) as u16,
        length: f.len() - 14,
        payload_start: sp.0,
        payload_end: sp.1,
    }
}

/// An IP report: header `h` and the transport fields of its payload.
pub open spec fn ip_frame_model(h: IpModel, f: Seq<u8>) -> FrameModel {
    FrameModel::Ip(h, transport_model(f, h.protocol, h.payload_start, h.payload_end))
}

/// The report for frame `f`.
pub open spec fn frame_model(f: Seq<u8>) -> FrameModel {
    let other = FrameModel::Other { frame_len: f.len() as int };
    match ether_kind(f) {
        EtherKind::Ipv4 => if f.len() >= 34 { ip_frame_model(ipv4_model(f), f) } else { other },
        EtherKind::Ipv6 => if f.len() >= 54 { ip_frame_model(ipv6_model(f), f) } else { other },
        EtherKind::Arp => if f.len() >= 42 { FrameModel::Arp(arp_model(f)) } else { other },
        EtherKind::Unclassified => other,
    }
}

/// The big-endian 16-bit value at `i`.
pub fn read_u16(b: &[u8], i: usize) -> (r: u16)
    requires
        i + 1 < b@.len(),
    ensures
        r as int == be16(b@, i as int),
{
    (b[i] as u16) * 256 + (b[i + 1] as u16)
}

/// The big-endian 32-bit value at `i`.
pub fn read_u32(b: &[u8], i: usize) -> (r: u32)
    requires
        i + 3 < b.len(),
    ensures
        r as int == be32(b@, i as int),
{
    let hi = read_u16(b, i);
    let lo = read_u16(b, i + 2);
    (hi as u32) * 65536 + (lo as u32)
}

fn copy_range(b: &[u8], start: usize, end: usize) -> (r: Vec<u8>)
    requires
        start <= end <= b@.len(),
    ensures
        r@ == b@.subrange(start as int, end as int),
{
    slice_to_vec(slice_subrange(b, start, end))
}

/// The Ethernet header of `frame`: `None` when the frame is shorter than it.
pub fn ethernet_header(frame: &[u8]) -> (r: Option<EthernetHeader>)
    ensures
        r.is_none() <==> frame@.len() < 14,
        r matches Some(h) ==> h.destination@ == frame@.subrange(0, 6) && h.source@
            == frame@.subrange(6, 12) && h.ethertype as int == be16(frame@, 12),
{
    if frame.len() < ETHERNET_HEADER_LEN {
        None
    } else {
        Some(
            EthernetHeader {
                destination: copy_range(frame, 0, 6),
                source: copy_range(frame, 6, 12),
                ethertype: read_u16(frame, 12),
            },
        )
    }
}

/// Classifies `frame` by the ethertype of its Ethernet header.
pub fn classify(frame: &[u8]) -> (r: EtherKind)
    ensures
        r == ether_kind(frame@),
{
    match ethernet_header(frame) {
        None => EtherKind::Unclassified,
        Some(h) => if h.ethertype == ETHERTYPE_IPV4 {
            EtherKind::Ipv4
        } else if h.ethertype == ETHERTYPE_IPV6 {
            EtherKind::Ipv6
        } else if h.ethertype == ETHERTYPE_ARP {
            EtherKind::Arp
        } else {
            EtherKind::Unclassified
        },
    }
}

fn payload_span(len: usize, start: usize, upper: usize) -> (r: (usize, usize))
    requires
        start <= upper,
    ensures
        r.0 as int == span(len as int, start as int, upper as int).0,
        r.1 as int == span(len as int, start as int, upper as int).1,
        r.0 <= r.1 <= len,
{
    if len <= start {
        (len, len)
    } else if upper < len {
        (start, upper)
    } else {
        (start, len)
    }
}

/// The transport fields of the IP payload `s..e` of `frame` for next
/// protocol `protocol`: TCP and UDP when the payload holds their header.
pub fn decode_transport(frame: &[u8], protocol: u8, s: usize, e: usize) -> (r: Transport)
    requires
        s <= e <= frame@.len(),
    ensures
        r == transport_model(frame@, protocol, s as int, e as int),
{
    if protocol == PROTOCOL_TCP && e - s >= TCP_HEADER_LEN {
        Transport::Tcp {
            source: read_u16(frame, s),
            destination: read_u16(frame, s + 2),
            sequence: read_u32(frame, s + 4),
            acknowledgement: read_u32(frame, s + 8),
            flags: frame[s + 13],
        }
    } else if protocol == PROTOCOL_UDP && e - s >= UDP_HEADER_LEN {
        Transport::Udp { source: read_u16(frame, s), destination: read_u16(frame, s + 2) }
    } else {
        Transport::Absent
    }
}

fn decode_ipv4(frame: &[u8]) -> (r: IpHeader)
    requires
        frame@.len() >= 34,
    ensures
        r@ == ipv4_model(frame@),
{
    let hl: usize = (frame[14] % 16) as usize * 4;
    let start: usize = 14 + if hl > IPV4_HEADER_LEN { hl } else { IPV4_HEADER_LEN };
    let total = read_u16(frame, 16);
    let upper: usize = start + if total as usize > hl { total as usize - hl } else { 0 };
    let sp = payload_span(frame.len(), start, upper);
    IpHeader {
        version: IpVersion::V4,
        source: copy_range(frame, 26, 30),
        destination: copy_range(frame, 30, 34),
        protocol: frame[23],
        length: total,
        payload_start: sp.0,
        payload_end: sp.1,
    }
}

fn decode_ipv6(frame: &[u8]) -> (r: IpHeader)
    requires
        frame@.len() >= 54,
    ensures
        r@ == ipv6_model(frame@),
{
    let plen = read_u16(frame, 18);
    let sp = payload_span(frame.len(), 54, 54 + plen as usize);
    IpHeader {
        version: IpVersion::V6,
        source: copy_range(frame, 22, 38),
        destination: copy_range(frame, 38, 54),
        protocol: frame[20],
        length: plen,
        payload_start: sp.0,
        payload_end: sp.1,
    }
}

fn decode_arp(frame: &[u8]) -> (r: ArpHeader)
    requires
        frame@.len() >= 42,
    ensures
        r@ == arp_model(frame@),
{
    let sp = payload_span(frame.len(), 42, 42);
    ArpHeader {
        sender: copy_range(frame, 28, 32),
        target: copy_range(frame, 38, 42),
        operation: read_u16(frame, 20),
        length: frame.len() - ETHERNET_HEADER_LEN,
        payload_start: sp.0,
        payload_end: sp.1,
    }
}

fn with_transport(frame: &[u8], h: IpHeader) -> (r: FrameReport)
    requires
        h.payload_start <= h.payload_end <= frame@.len(),
    ensures
        r@ == ip_frame_model(h@, frame@),
{
    let t = decode_transport(frame, h.protocol, h.payload_start, h.payload_end);
    FrameReport::Ip(h, t)
}

impl FrameReport {
    /// Whether the reported addresses have the length of their protocol.
    pub fn is_well_formed(&self) -> (r: bool)
        ensures
            r == self@.well_formed(),
    {
        match self {
            FrameReport::Other { .. } => true,
            FrameReport::Arp(a) => a.sender.len() == 4 && a.target.len() == 4,
            FrameReport::Ip(h, _) => match h.version {
                IpVersion::V4 => h.source.len() == 4 && h.destination.len() == 4,
                IpVersion::V6 => h.source.len() == 16 && h.destination.len() == 16,
            },
        }
    }
}

/// Decodes one frame: the Ethernet header, then the IPv4, IPv6 or ARP
/// header it announces, then for IP the TCP or UDP header. A frame too
/// short for its Ethernet or network header reports only its length.
pub fn decode_frame(frame: &[u8]) -> (r: FrameReport)
    ensures
        r@ == frame_model(frame@),
        r@.well_formed(),
{
    let len = frame.len();
    match classify(frame) {
        EtherKind::Ipv4 if len >= ETHERNET_HEADER_LEN + IPV4_HEADER_LEN => {
            let h = decode_ipv4(frame);
            with_transport(frame, h)
        },
        EtherKind::Ipv6 if len >= ETHERNET_HEADER_LEN + IPV6_HEADER_LEN => {
            let h = decode_ipv6(frame);
            with_transport(frame, h)
        },
        EtherKind::Arp if len >= ETHERNET_HEADER_LEN + ARP_HEADER_LEN => {
            FrameReport::Arp(decode_arp(frame))
        },
        _ => FrameReport::Other { frame_len: len },
    }
}

} // verus!
