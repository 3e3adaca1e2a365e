//! Names for protocol numbers, ARP operations and TCP control flags.
use vstd::prelude::*;
use crate::text::push_char;

verus! {

/// Name of an IP next-protocol number; every number has one.
pub open spec fn protocol_name(p: u8) -> Seq<char> {
    if p == 17 {
        "UDP"@
    } else if p == 6 {
        "TCP"@
    } else if p == 1 {
        "ICMP"@
    } else if p == 2 {
        "IGMP"@
    } else if p == 89 {
        "OSPF"@
    } else if p == 50 {
        "ESP"@
    } else {
        "Other"@
    }
}

/// Name of an ARP operation code.
pub open spec fn arp_operation_name(op: u16) -> Seq<char> {
    if op == 1 {
        "Request"@
    } else if op == 2 {
        "Reply"@
    } else {
        "Other"@
    }
}

/// `letter` when bit `mask` is set in `flags`, else nothing.
pub open spec fn flag_letter(flags: u8, mask: u8, letter: char) -> Seq<char> {
    if flags & mask != 0 {
        seq![letter]
    } else {
        Seq::empty()
    }
}

/// The letters of the set TCP control flags, from the lowest bit up:
/// FIN, SYN, RST, PSH, ACK, URG, ECE, CWR.
pub open spec fn flags_text(flags: u8) -> Seq<char> {
    flag_letter(flags, 0x01, 'F') + flag_letter(flags, 0x02, 'S') + flag_letter(flags, 0x04, 'R')
        + flag_letter(flags, 0x08, 'P') + flag_letter(flags, 0x10, 'A') + flag_letter(
        flags,
        0x20,
        'U',
    ) + flag_letter(flags, 0x40, 'E') + flag_letter(flags, 0x80, 'C')
}

/// The name of an IP next-protocol number.
pub fn protocol_to_str(proto: u8) -> (r: &'static str)
    ensures
        r@ == protocol_name(proto),
{
    if proto == 17 {
        "UDP"
    } else if proto == 6 {
        "TCP"
    } else if proto == 1 {
        "ICMP"
    } else if proto == 2 {
        "IGMP"
    } else if proto == 89 {
        "OSPF"
    } else if proto == 50 {
        "ESP"
    } else {
        "Other"
    }
}

/// The name of an ARP operation code.
pub fn arp_operation_to_str(op: u16) -> (r: &'static str)
    ensures
        r@ == arp_operation_name(op),
{
    if op == 1 {
        "Request"
    } else if op == 2 {
        "Reply"
    } else {
        "Other"
    }
}

fn push_flag(s: &mut String, flags: u8, mask: u8, letter: char)
    ensures
        final(s)@ == old(s)@ + flag_letter(flags, mask, letter),
{
    if flags & mask != 0 {
        push_char(s, letter);
    }
    proof {
        assert(final(s)@ =~= old(s)@ + flag_letter(flags, mask, letter));
    }
}

/// The letters of the TCP control flags set in `flags`, in bit order;
/// empty when no flag is set.
pub fn tcp_flags_to_string(flags: u8) -> (r: String)
    ensures
        r@ == flags_text(flags),
{
    let mut s = String::new();
    push_flag(&mut s, flags, 0x01, 'F');
    push_flag(&mut s, flags, 0x02, 'S');
    push_flag(&mut s, flags, 0x04, 'R');
    push_flag(&mut s, flags, 0x08, 'P');
    push_flag(&mut s, flags, 0x10, 'A');
    push_flag(&mut s, flags, 0x20, 'U');
    push_flag(&mut s, flags, 0x40, 'E');
    push_flag(&mut s, flags, 0x80, 'C');
    proof {
        assert(s@ =~= flags_text(flags));
    }
    s
}

} // verus!
