use nubble::clock::{format_clock, timestamp};
use nubble::decode::{classify, decode_frame, ethernet_header, EtherKind, FrameReport, IpVersion, Transport};
use nubble::dump::{payload_to_ascii, to_hex_string};
use nubble::frame::{payload_dump, summary_line};
use nubble::labels::{arp_operation_to_str, protocol_to_str, tcp_flags_to_string};
use nubble::line::ipv4_to_string;

fn ethernet(ethertype: u16, payload: &[u8]) -> Vec<u8> {
    let mut f = vec![0x11, 0x22, 0x33, 0x44, 0x55, 0x66, 0xaa, 0xbb, 0xcc, 0xdd, 0xee, 0xff];
    f.push((ethertype >> 8) as u8);
    f.push(ethertype as u8);
    f.extend_from_slice(payload);
    f
}

fn ipv4_header(protocol: u8, total_length: u16) -> Vec<u8> {
    let mut h = vec![0x45, 0, (total_length >> 8) as u8, total_length as u8, 0, 0, 0, 0, 64, protocol, 0, 0];
    h.extend_from_slice(&[192, 168, 1, 10]);
    h.extend_from_slice(&[10, 0, 0, 1]);
    h
}

fn tcp_header(source: u16, destination: u16, seq: u32, ack: u32, flags: u8) -> Vec<u8> {
    let mut h = Vec::new();
    h.extend_from_slice(&source.to_be_bytes());
    h.extend_from_slice(&destination.to_be_bytes());
    h.extend_from_slice(&seq.to_be_bytes());
    h.extend_from_slice(&ack.to_be_bytes());
    h.push(0x50);
    h.push(flags);
    h.extend_from_slice(&[0xff, 0xff, 0, 0, 0, 0]);
    h
}

fn ip_line(frame: &[u8], clock: &str) -> String {
    let report = decode_frame(frame);
    match &report {
        FrameReport::Ip(h, _) => {
            let s = ipv4_to_string(&h.source);
            let d = ipv4_to_string(&h.destination);
            summary_line(&report, clock, &s, &d)
        }
        _ => panic!("not an IP report"),
    }
}

fn expected_flags(flags: u8) -> String {
    let letters = ['F', 'S', 'R', 'P', 'A', 'U', 'E', 'C'];
    let mut s = String::new();
    for (k, c) in letters.iter().enumerate() {
        if flags & (1u8 << k) != 0 {
            s.push(*c);
        }
    }
    s
}

fn parse_hex(s: &str) -> Vec<u8> {
    if s.is_empty() {
        return Vec::new();
    }
    s.split(' ').map(|p| u8::from_str_radix(p, 16).unwrap()).collect()
}

#[test]
fn short_frames_are_other() {
    for n in 0..14usize {
        let frame = vec![0x08u8; n];
        let report = decode_frame(&frame);
        assert!(matches!(report, FrameReport::Other { frame_len } if frame_len == n));
        assert_eq!(summary_line(&report, "x", "y", "z"), format!("Other packet: {}", n));
        assert!(payload_dump(&frame, &report).is_none());
    }
}

#[test]
fn unknown_ethertype_is_other() {
    let frame = ethernet(0x88cc, &[1, 2, 3]);
    let report = decode_frame(&frame);
    assert_eq!(summary_line(&report, "", "", ""), "Other packet: 17");
}

#[test]
fn flags_for_every_byte() {
    for f in 0..=255u8 {
        assert_eq!(tcp_flags_to_string(f), expected_flags(f));
        let mut payload = ipv4_header(6, 40);
        payload.extend_from_slice(&tcp_header(1, 2, 3, 4, f));
        let frame = ethernet(0x0800, &payload);
        let line = ip_line(&frame, "t");
        assert!(line.contains(&format!(" flags {} len 40", expected_flags(f))));
    }
    assert_eq!(tcp_flags_to_string(0), "");
    assert_eq!(tcp_flags_to_string(0xff), "FSRPAUEC");
}

#[test]
fn hex_dump_round_trip() {
    for n in 0..=1500usize {
        let bytes: Vec<u8> = (0..n).map(|i| (i * 37 + 11) as u8).collect();
        let hex = to_hex_string(&bytes);
        assert_eq!(parse_hex(&hex), bytes);
    }
}

#[test]
fn hex_dump_exact() {
    assert_eq!(to_hex_string(&[]), "");
    assert_eq!(to_hex_string(&[0x00, 0xff, 0x0a, 0x7f]), "00 ff 0a 7f");
}

#[test]
fn ascii_dump_length_and_text() {
    for n in 0..300usize {
        let bytes: Vec<u8> = (0..n).map(|i| i as u8).collect();
        assert_eq!(payload_to_ascii(&bytes).chars().count(), n);
    }
    assert_eq!(payload_to_ascii(&[0x41, 0x1f, 0x20, 0x7e, 0x7f, 0x00]), "A. ~..");
    assert_eq!(payload_to_ascii(&[]), "");
}

#[test]
fn protocol_names() {
    assert_eq!(protocol_to_str(17), "UDP");
    assert_eq!(protocol_to_str(6), "TCP");
    assert_eq!(protocol_to_str(1), "ICMP");
    assert_eq!(protocol_to_str(2), "IGMP");
    assert_eq!(protocol_to_str(89), "OSPF");
    assert_eq!(protocol_to_str(50), "ESP");
    assert_eq!(protocol_to_str(255), "Other");
}

#[test]
fn arp_operation_names() {
    assert_eq!(arp_operation_to_str(1), "Request");
    assert_eq!(arp_operation_to_str(2), "Reply");
    assert_eq!(arp_operation_to_str(99), "Other");
}

#[test]
fn ipv4_tcp_end_to_end() {
    let mut payload = ipv4_header(6, 40);
    payload.extend_from_slice(&tcp_header(443, 51000, 123456789, 987654321, 0x12));
    let frame = ethernet(0x0800, &payload);
    assert_eq!(frame.len(), 54);
    let report = decode_frame(&frame);
    match &report {
        FrameReport::Ip(h, t) => {
            assert_eq!(h.version, IpVersion::V4);
            assert_eq!(h.protocol, 6);
            assert_eq!(h.length, 40);
            assert_eq!(
                *t,
                Transport::Tcp { source: 443, destination: 51000, sequence: 123456789, acknowledgement: 987654321, flags: 0x12 }
            );
        }
        _ => panic!("not an IP report"),
    }
    let line = ip_line(&frame, "12:00:00.000001");
    assert!(line.contains("TCP"));
    assert!(line.contains("123456789"));
    assert!(line.contains("987654321"));
    assert!(line.contains("flags SA"));
    assert_eq!(
        line,
        "12:00:00.000001 IP 192.168.1.10.443 > 10.0.0.1.51000 proto TCP seq 123456789 ack 987654321 flags SA len 40"
    );
    let (hex, ascii) = payload_dump(&frame, &report).unwrap();
    assert_eq!(hex, to_hex_string(&frame[34..54]));
    assert_eq!(ascii.len(), 20);
}

#[test]
fn truncated_ipv4_is_other() {
    for n in 0..20usize {
        let frame = ethernet(0x0800, &ipv4_header(6, 40)[..n]);
        let report = decode_frame(&frame);
        assert_eq!(summary_line(&report, "t", "s", "d"), format!("Other packet: {}", 14 + n));
        assert!(payload_dump(&frame, &report).is_none());
    }
}

#[test]
fn truncated_tcp_gives_bare_addresses() {
    let mut payload = ipv4_header(6, 30);
    payload.extend_from_slice(&[0u8; 10]);
    let frame = ethernet(0x0800, &payload);
    assert_eq!(ip_line(&frame, "t"), "t IP 192.168.1.10 > 10.0.0.1 proto TCP len 30");
}

#[test]
fn ipv4_udp_line() {
    let mut payload = ipv4_header(17, 32);
    payload.extend_from_slice(&[0x00, 0x35, 0xc0, 0x00, 0x00, 0x0c, 0, 0, 0x61, 0x62, 0x0a, 0x63]);
    let frame = ethernet(0x0800, &payload);
    assert_eq!(ip_line(&frame, "t"), "t IP 192.168.1.10.53 > 10.0.0.1.49152 proto UDP len 32");
    let report = decode_frame(&frame);
    let (hex, ascii) = payload_dump(&frame, &report).unwrap();
    assert_eq!(hex, "00 35 c0 00 00 0c 00 00 61 62 0a 63");
    assert_eq!(ascii, ".5......ab.c");
}

#[test]
fn ipv4_payload_cut_by_total_length() {
    let mut payload = ipv4_header(1, 22);
    payload.extend_from_slice(&[8, 0, 1, 2, 3]);
    let frame = ethernet(0x0800, &payload);
    assert_eq!(ip_line(&frame, "t"), "t IP 192.168.1.10 > 10.0.0.1 proto ICMP len 22");
    let report = decode_frame(&frame);
    let (hex, _) = payload_dump(&frame, &report).unwrap();
    assert_eq!(hex, "08 00");
}

#[test]
fn ipv6_udp_report() {
    let mut payload = vec![0x60, 0, 0, 0, 0, 8, 17, 64];
    payload.extend_from_slice(&[0xfe, 0x80, 0, 0, 0, 0, 0, 0, 0, 0, 0, 0, 0, 0, 0, 1]);
    payload.extend_from_slice(&[0xfe, 0x80, 0, 0, 0, 0, 0, 0, 0, 0, 0, 0, 0, 0, 0, 2]);
    payload.extend_from_slice(&[0x13, 0x88, 0x13, 0x89, 0, 8, 0, 0]);
    let frame = ethernet(0x86dd, &payload);
    let report = decode_frame(&frame);
    match &report {
        FrameReport::Ip(h, t) => {
            assert_eq!(h.version, IpVersion::V6);
            assert_eq!(h.source.len(), 16);
            assert_eq!(h.destination[15], 2);
            assert_eq!(*t, Transport::Udp { source: 5000, destination: 5001 });
        }
        _ => panic!("not an IP report"),
    }
    assert_eq!(
        summary_line(&report, "t", "fe80::1", "fe80::2"),
        "t IP6 fe80::1.5000 > fe80::2.5001 proto UDP len 8"
    );
}

#[test]
fn arp_line_and_empty_dump() {
    let payload = [
        0, 1, 8, 0, 6, 4, 0, 1, 1, 2, 3, 4, 5, 6, 192, 168, 0, 1, 0, 0, 0, 0, 0, 0, 192, 168, 0, 2, 9, 9,
    ];
    let frame = ethernet(0x0806, &payload);
    let report = decode_frame(&frame);
    assert_eq!(summary_line(&report, "t", "", ""), "ARP packet: 192.168.0.1 > 192.168.0.2 operation Request len 30");
    let (hex, ascii) = payload_dump(&frame, &report).unwrap();
    assert_eq!(hex, "");
    assert_eq!(ascii, "");
}

#[test]
fn short_arp_is_other() {
    let frame = ethernet(0x0806, &[0u8; 27]);
    let report = decode_frame(&frame);
    assert_eq!(summary_line(&report, "t", "", ""), "Other packet: 41");
}

#[test]
fn clock_text_exact() {
    assert_eq!(format_clock(0, 0), "00:00:00.000000");
    assert_eq!(format_clock(3600 * 25 + 62, 45), "01:01:02.000045");
    assert_eq!(format_clock(86399, 999999), "23:59:59.999999");
}

#[test]
fn timestamp_shape() {
    let t = timestamp();
    assert_eq!(t.len(), 15);
    let b = t.as_bytes();
    assert_eq!(b[2], b':');
    assert_eq!(b[5], b':');
    assert_eq!(b[8], b'.');
    assert_ne!(t, "00:00:00.000000");
}

#[test]
fn ethernet_classification() {
    assert_eq!(classify(&[0u8; 13]), EtherKind::Unclassified);
    assert!(ethernet_header(&[0u8; 13]).is_none());
    assert_eq!(classify(&ethernet(0x0800, &[])), EtherKind::Ipv4);
    assert_eq!(classify(&ethernet(0x86dd, &[])), EtherKind::Ipv6);
    assert_eq!(classify(&ethernet(0x0806, &[])), EtherKind::Arp);
    assert_eq!(classify(&ethernet(0x0801, &[])), EtherKind::Unclassified);
    let h = ethernet_header(&ethernet(0x86dd, &[7])).unwrap();
    assert_eq!(h.destination, vec![0x11, 0x22, 0x33, 0x44, 0x55, 0x66]);
    assert_eq!(h.source, vec![0xaa, 0xbb, 0xcc, 0xdd, 0xee, 0xff]);
    assert_eq!(h.ethertype, 0x86dd);
}
