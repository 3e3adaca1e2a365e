//! Hex and printable-ASCII renderings of a byte sequence.
use vstd::prelude::*;
use crate::text::push_char;

verus! {

/// Lowercase hex digit for a value below sixteen.
pub open spec fn hex_char(n: nat) -> char {
    if n < 10 {
        (n + 48) as char
    } else {
        (n + 87) as char
    }
}

/// Value of a lowercase hex digit.
pub open spec fn hex_value(c: char) -> int {
    if c <= '9' {
        c as int - 48
    } else {
        c as int - 87
    }
}

/// The two hex digits of a byte.
pub open spec fn byte_hex(b: u8) -> Seq<char> {
    seq![hex_char(b as nat / 16), hex_char(b as nat % 16)]
}

/// Hex digit pairs of the bytes, separated by single spaces.
pub open spec fn hex_text(b: Seq<u8>) -> Seq<char>
    decreases b.len(),
{
    if b.len() == 0 {
        Seq::empty()
    } else if b.len() == 1 {
        byte_hex(b[0])
    } else {
        hex_text(b.drop_last()) + seq![' '] + byte_hex(b.last())
    }
}

/// Reads back a text of space-separated hex digit pairs, from the end.
pub open spec fn parse_hex(s: Seq<char>) -> Seq<u8>
    decreases s.len(),
{
    if s.len() < 2 {
        Seq::empty()
    } else {
        let last = (hex_value(s[s.len() - 2]) * 16 + hex_value(s[s.len() - 1])) as u8;
        if s.len() < 3 {
            seq![last]
        } else {
            parse_hex(s.take(s.len() - 3)).push(last)
        }
    }
}

/// The byte as it appears in the ASCII dump.
pub open spec fn ascii_char(b: u8) -> char {
    if 32 <= b <= 126 {
        b as char
    } else {
        '.'
    }
}

/// Printable bytes as themselves, every other byte as `.`.
pub open spec fn ascii_text(b: Seq<u8>) -> Seq<char> {
    b.map_values(|x: u8| ascii_char(x))
}

proof fn lemma_hex_text_len(b: Seq<u8>)
    requires
        b.len() >= 1,
    ensures
        hex_text(b).len() == 3 * b.len() - 1,
    decreases b.len(),
{
    if b.len() > 1 {
        lemma_hex_text_len(b.drop_last());
    }
}

proof fn lemma_byte_hex_parse(b: u8)
    ensures
        (hex_value(byte_hex(b)[0]) * 16 + hex_value(byte_hex(b)[1])) as u8 == b,
{
    let hi = b as nat / 16;
    let lo = b as nat % 16;
    assert(hex_value(hex_char(hi)) == hi);
    assert(hex_value(hex_char(lo)) == lo);
    assert(hi * 16 + lo == b);
}

/// Parsing the hex dump of any byte sequence gives back that sequence.
pub proof fn hex_round_trip(b: Seq<u8>)
    ensures
        parse_hex(hex_text(b)) == b,
    decreases b.len(),
{
    if b.len() == 0 {
        assert(parse_hex(hex_text(b)) =~= b);
    } else {
        let s = hex_text(b);
        let bh = byte_hex(b.last());
        lemma_byte_hex_parse(b.last());
        if b.len() == 1 {
            assert(s == bh);
            assert(parse_hex(s) =~= b);
        } else {
            let front = b.drop_last();
            lemma_hex_text_len(front);
            hex_round_trip(front);
            assert(s.take(s.len() - 3) =~= hex_text(front));
            assert(s[s.len() - 2] == bh[0]);
            assert(s[s.len() - 1] == bh[1]);
            assert(parse_hex(s) =~= front.push(b.last()));
            assert(front.push(b.last()) =~= b);
        }
    }
}

/// The ASCII dump has one character per byte.
pub proof fn ascii_len(b: Seq<u8>)
    ensures
        ascii_text(b).len() == b.len(),
{
}

fn hex_digit(n: u8) -> (c: char)
    requires
        n < 16,
    ensures
        c == hex_char(n as nat),
{
    if n < 10 {
        (n + 48) as char
    } else {
        (n + 87) as char
    }
}

/// Each byte as two lowercase hex digits, separated by single spaces;
/// empty for no bytes.
pub fn to_hex_string(bytes: &[u8]) -> (r: String)
    ensures
        r@ == hex_text(bytes@),
{
    let mut s = String::new();
    let mut i: usize = 0;
    while i < bytes.len()
        invariant
            i <= bytes@.len(),
            s@ == hex_text(bytes@.take(i as int)),
        decreases bytes@.len() - i,
    {
        let b = bytes[i];
        if i > 0 {
            push_char(&mut s, ' ');
        }
        push_char(&mut s, hex_digit(b / 16));
        push_char(&mut s, hex_digit(b % 16));
        proof {
            let t = bytes@.take(i + 1);
            assert(t.drop_last() =~= bytes@.take(i as int));
            if i == 0 {
                assert(s@ =~= hex_text(t));
            } else {
                assert(s@ =~= hex_text(t));
            }
        }
        i = i + 1;
    }
    assert(bytes@.take(i as int) =~= bytes@);
    s
}

/// Printable bytes (space through tilde) as themselves, others as `.`;
/// one character per byte.
pub fn payload_to_ascii(payload: &[u8]) -> (r: String)
    ensures
        r@ == ascii_text(payload@),
        r@.len() == payload@.len(),
{
    let mut s = String::new();
    let mut i: usize = 0;
    while i < payload.len()
        invariant
            i <= payload@.len(),
            s@ == ascii_text(payload@.take(i as int)),
        decreases payload@.len() - i,
    {
        let b = payload[i];
        let c = if b >= 32 && b <= 126 {
            b as char
        } else {
            '.'
        };
        push_char(&mut s, c);
        proof {
            assert(s@ =~= ascii_text(payload@.take(i + 1)));
        }
        i = i + 1;
    }
    assert(payload@.take(i as int) =~= payload@);
    s
}

} // verus!
