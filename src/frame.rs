//! Per-frame output: the summary line and the dump of the payload.
use vstd::prelude::*;
use vstd::slice::slice_subrange;
use crate::decode::{ether_kind, EtherKind, FrameReport, FrameModel, Transport, frame_model, ipv4_model, be16};
use crate::dump::{hex_text, ascii_text, to_hex_string, payload_to_ascii};
use crate::line::{summary, other_line, other_to_string, arp_to_string, ip_to_string};

verus! {

/// The summary line of a decoded frame. `clock` is the time text, and
/// `source_text` and `destination_text` are the texts of the IP addresses;
/// all three are used for IP packets only.
pub fn summary_line(
    report: &FrameReport,
    clock: &str,
    source_text: &str,
    destination_text: &str,
) -> (r: String)
    requires
        report@.well_formed(),
    ensures
        r@ == summary(report@, clock@, source_text@, destination_text@),
{
    match report {
        FrameReport::Other { frame_len } => other_to_string(*frame_len),
        FrameReport::Arp(a) => arp_to_string(a),
        FrameReport::Ip(h, t) => ip_to_string(clock, h, t, source_text, destination_text),
    }
}

/// The hex and ASCII dumps of the payload that `report` gives for `frame`:
/// `None` for frames without a decoded network layer, and for a payload
/// range that does not lie within the frame.
pub fn payload_dump(frame: &[u8], report: &FrameReport) -> (r: Option<(String, String)>)
    ensures
        match report@.payload_range() {
            None => r.is_none(),
            Some((s, e)) => if 0 <= s <= e <= frame@.len() {
                r matches Some((h, a)) && h@ == hex_text(frame@.subrange(s, e)) && a@
                    == ascii_text(frame@.subrange(s, e))
            } else {
                r.is_none()
            },
        },
{
    let (s, e) = match report {
        FrameReport::Other { .. } => return None,
        FrameReport::Arp(a) => (a.payload_start, a.payload_end),
        FrameReport::Ip(h, _) => (h.payload_start, h.payload_end),
    };
    if s <= e && e <= frame.len() {
        let payload = slice_subrange(frame, s, e);
        Some((to_hex_string(payload), payload_to_ascii(payload)))
    } else {
        None
    }
}

/// A frame shorter than the Ethernet header is reported as unclassified,
/// with the line `Other packet: <length>`, whatever the other texts.
pub proof fn short_frame_is_other(f: Seq<u8>, clock: Seq<char>, src: Seq<char>, dst: Seq<char>)
    requires
        f.len() < 14,
    ensures
        ether_kind(f) == EtherKind::Unclassified,
        frame_model(f) == (FrameModel::Other { frame_len: f.len() as int }),
        summary(frame_model(f), clock, src, dst) == other_line(f.len() as int),
        frame_model(f).payload_range().is_none(),
{
}

/// An IPv4 frame too short for the minimum IPv4 header falls back to the
/// `Other packet: <length>` line with no dump.
pub proof fn truncated_ipv4_is_other(
    f: Seq<u8>,
    clock: Seq<char>,
    src: Seq<char>,
    dst: Seq<char>,
)
    requires
        14 <= f.len() < 34,
        be16(f, 12) == 0x0800,
    ensures
        frame_model(f) == (FrameModel::Other { frame_len: f.len() as int }),
        summary(frame_model(f), clock, src, dst) == other_line(f.len() as int),
        frame_model(f).payload_range().is_none(),
{
}

/// In an IPv4 frame with next protocol 6 whose payload holds a TCP header,
/// the reported flags are the flag byte of that header.
pub proof fn ipv4_tcp_flags(f: Seq<u8>)
    requires
        f.len() >= 34,
        be16(f, 12) == 0x0800,
        f[23] == 6,
        ipv4_model(f).payload_end - ipv4_model(f).payload_start >= 20,
    ensures
        frame_model(f) matches FrameModel::Ip(h, Transport::Tcp { flags, .. }) && flags == f[h.payload_start
            + 13],
{
}

} // verus!
