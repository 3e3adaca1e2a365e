//! The summary line of a decoded frame.
use vstd::prelude::*;
use crate::text::{decimal, push_decimal, push_text, push_char};
use crate::labels::{protocol_name, arp_operation_name, flags_text, protocol_to_str, arp_operation_to_str, tcp_flags_to_string};
use crate::decode::{IpVersion, Transport, IpHeader, ArpHeader, IpModel, ArpModel, FrameModel};

verus! {

/// Dotted-decimal text of a four-byte IPv4 address.
pub open spec fn dotted(a: Seq<u8>) -> Seq<char> {
    decimal(a[0] as nat) + seq!['.'] + decimal(a[1] as nat) + seq!['.'] + decimal(a[2] as nat)
        + seq!['.'] + decimal(a[3] as nat)
}

/// The line for a frame whose network layer was not decoded.
pub open spec fn other_line(frame_len: int) -> Seq<char> {
    "Other packet: "@ + decimal(frame_len as nat)
}

/// The line for an ARP packet.
pub open spec fn arp_line(a: ArpModel) -> Seq<char> {
    "ARP packet: "@ + dotted(a.sender) + " > "@ + dotted(a.target) + " operation "@
        + arp_operation_name(a.operation) + " len "@ + decimal(a.length as nat)
}

/// `IP` or `IP6`.
pub open spec fn version_tag(v: IpVersion) -> Seq<char> {
    match v {
        IpVersion::V4 => "IP"@,
        IpVersion::V6 => "IP6"@,
    }
}

/// The line for an IP packet, given the clock text and the texts of its
/// source and destination addresses.
pub open spec fn ip_line(
    clock: Seq<char>,
    h: IpModel,
    t: Transport,
    src: Seq<char>,
    dst: Seq<char>,
) -> Seq<char> {
    let head = clock + " "@ + version_tag(h.version) + " "@;
    let tail = " proto "@ + protocol_name(h.protocol);
    let len = " len "@ + decimal(h.length as nat);
    match t {
        Transport::Tcp { source, destination, sequence, acknowledgement, flags } => head + src
            + "."@ + decimal(source as nat) + " > "@ + dst + "."@ + decimal(destination as nat)
            + tail + " seq "@ + decimal(sequence as nat) + " ack "@ + decimal(
            acknowledgement as nat,
        ) + " flags "@ + flags_text(flags) + len,
        Transport::Udp { source, destination } => head + src + "."@ + decimal(source as nat)
            + " > "@ + dst + "."@ + decimal(destination as nat) + tail + len,
        Transport::Absent => head + src + " > "@ + dst + tail + len,
    }
}

/// The summary line of a report. The clock and address texts are used for
/// IP packets only.
pub open spec fn summary(r: FrameModel, clock: Seq<char>, src: Seq<char>, dst: Seq<char>) -> Seq<
    char,
> {
    match r {
        FrameModel::Other { frame_len } => other_line(frame_len),
        FrameModel::Arp(a) => arp_line(a),
        FrameModel::Ip(h, t) => ip_line(clock, h, t, src, dst),
    }
}

fn push_dotted(s: &mut String, a: &Vec<u8>)
    requires
        a@.len() == 4,
    ensures
        final(s)@ == old(s)@ + dotted(a@),
{
    push_decimal(s, a[0] as u64);
    push_char(s, '.');
    push_decimal(s, a[1] as u64);
    push_char(s, '.');
    push_decimal(s, a[2] as u64);
    push_char(s, '.');
    push_decimal(s, a[3] as u64);
    proof {
        assert(final(s)@ =~= old(s)@ + dotted(a@));
    }
}

/// Dotted-decimal text of a four-byte IPv4 address.
pub fn ipv4_to_string(a: &Vec<u8>) -> (r: String)
    requires
        a@.len() == 4,
    ensures
        r@ == dotted(a@),
{
    let mut s = String::new();
    push_dotted(&mut s, a);
    proof {
        assert(s@ =~= dotted(a@));
    }
    s
}

/// `Other packet: <frame length>`.
pub fn other_to_string(frame_len: usize) -> (r: String)
    ensures
        r@ == other_line(frame_len as int),
{
    let mut s = String::new();
    push_text(&mut s, "Other packet: ");
    push_decimal(&mut s, frame_len as u64);
    s
}

/// `ARP packet: <sender> > <target> operation <name> len <length>`.
pub fn arp_to_string(a: &ArpHeader) -> (r: String)
    requires
        a.sender@.len() == 4,
        a.target@.len() == 4,
    ensures
        r@ == arp_line(a@),
{
    let mut s = String::new();
    push_text(&mut s, "ARP packet: ");
    push_dotted(&mut s, &a.sender);
    push_text(&mut s, " > ");
    push_dotted(&mut s, &a.target);
    push_text(&mut s, " operation ");
    push_text(&mut s, arp_operation_to_str(a.operation));
    push_text(&mut s, " len ");
    push_decimal(&mut s, a.length as u64);
    s
}

/// The line of an IP packet: clock, version, addresses (with ports when
/// the transport carries them), protocol name, for TCP the sequence and
/// acknowledgement numbers and flags, and the length field.
pub fn ip_to_string(
    clock: &str,
    h: &IpHeader,
    t: &Transport,
    source_text: &str,
    destination_text: &str,
) -> (r: String)
    ensures
        r@ == ip_line(clock@, h@, *t, source_text@, destination_text@),
{
    let mut s = String::new();
    push_text(&mut s, clock);
    push_text(&mut s, " ");
    match h.version {
        IpVersion::V4 => push_text(&mut s, "IP"),
        IpVersion::V6 => push_text(&mut s, "IP6"),
    }
    push_text(&mut s, " ");
    push_text(&mut s, source_text);
    match t {
        Transport::Tcp { source, .. } => {
            push_text(&mut s, ".");
            push_decimal(&mut s, *source as u64);
        },
        Transport::Udp { source, .. } => {
            push_text(&mut s, ".");
            push_decimal(&mut s, *source as u64);
        },
        Transport::Absent => {},
    }
    push_text(&mut s, " > ");
    push_text(&mut s, destination_text);
    match t {
        Transport::Tcp { destination, .. } => {
            push_text(&mut s, ".");
            push_decimal(&mut s, *destination as u64);
        },
        Transport::Udp { destination, .. } => {
            push_text(&mut s, ".");
            push_decimal(&mut s, *destination as u64);
        },
        Transport::Absent => {},
    }
    push_text(&mut s, " proto ");
    push_text(&mut s, protocol_to_str(h.protocol));
    match t {
        Transport::Tcp { sequence, acknowledgement, flags, .. } => {
            push_text(&mut s, " seq ");
            push_decimal(&mut s, *sequence as u64);
            push_text(&mut s, " ack ");
            push_decimal(&mut s, *acknowledgement as u64);
            push_text(&mut s, " flags ");
            let f = tcp_flags_to_string(*flags);
            push_text(&mut s, f.as_str());
        },
        _ => {},
    }
    push_text(&mut s, " len ");
    push_decimal(&mut s, h.length as u64);
    proof {
        assert(s@ =~= ip_line(clock@, h@, *t, source_text@, destination_text@));
    }
    s
}

} // verus!
