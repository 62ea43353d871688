//! Checks the voice server makes on incoming datagrams: Opus packet framing and session
//! tokens.

use vstd::prelude::*;

verus! {

/// The frame length coded at the front of `bytes` and the number of bytes the code takes:
/// one byte below 252 is the length itself; otherwise two bytes code `4 * b1 + b0`; `(0, 0)`
/// when the bytes run out.
pub open spec fn spec_parse_opus_len(bytes: Seq<u8>) -> (usize, usize) {
    if bytes.len() == 0 {
        (0, 0)
    } else if bytes[0] < 252 {
        (bytes[0] as usize, 1)
    } else if bytes.len() >= 2 {
        ((bytes[1] * 4 + bytes[0]) as usize, 2)
    } else {
        (0, 0)
    }
}

/// Reads an Opus frame length (see [`spec_parse_opus_len`]).
pub fn parse_opus_len(bytes: &[u8]) -> (r: (usize, usize))
    ensures
        r == spec_parse_opus_len(bytes@),
{
    if bytes.len() == 0 {
        return (0, 0);
    }
    let b0 = bytes[0] as usize;
    if b0 < 252 {
        (b0, 1)
    } else if bytes.len() >= 2 {
        let b1 = bytes[1] as usize;
        (b1 * 4 + b0, 2)
    } else {
        (0, 0)
    }
}

/// Whether `packet` is framed as an Opus packet: a TOC byte whose low two bits choose one
/// frame (always well formed), two equal frames (an even number of bytes after the TOC), two
/// frames whose first length is coded after the TOC and fits in the packet, or a frame count
/// byte with a nonzero count.
pub open spec fn spec_valid_opus_packet(packet: Seq<u8>) -> bool {
    if packet.len() == 0 {
        false
    } else {
        let framing = packet[0] & 3u8;
        if framing == 0 {
            true
        } else if framing == 1 {
            (packet.len() - 1) % 2 == 0
        } else if framing == 2 {
            packet.len() >= 2 && {
                let (len, count) = spec_parse_opus_len(packet.skip(1));
                count != 0 && packet.len() >= 1 + count + len
            }
        } else {
            packet.len() >= 2 && packet[1] & 0x3Fu8 > 0
        }
    }
}

/// Checks the framing of an Opus packet (see [`spec_valid_opus_packet`]).
pub fn validate_opus_packet(packet: &[u8]) -> (r: bool)
    ensures
        r == spec_valid_opus_packet(packet@),
{
    if packet.len() == 0 {
        return false;
    }
    let toc = packet[0];
    let framing = toc & 0x03;
    assert(framing < 4) by (bit_vector)
        requires
            framing == toc & 3u8,
    ;
    if framing == 0 {
        true
    } else if framing == 1 {
        (packet.len() - 1) % 2 == 0
    } else if framing == 2 {
        if packet.len() < 2 {
            return false;
        }
        let rest = vstd::slice::slice_subrange(packet, 1, packet.len());
        assert(rest@ =~= packet@.skip(1));
        let (len, count) = parse_opus_len(rest);
        if count == 0 {
            return false;
        }
        packet.len() >= 1 + count + len
    } else {
        if packet.len() < 2 {
            return false;
        }
        let frame_count = packet[1] & 0x3F;
        frame_count > 0
    }
}

/// Compares two session tokens without revealing where they differ: the XORs of all byte
/// pairs are ORed together and the result compared with zero.
pub fn tokens_match(a: &[u8; 32], b: &[u8; 32]) -> (r: bool)
    ensures
        r == (a@ == b@),
{
    let mut acc: u8 = 0;
    let mut i: usize = 0;
    while i < 32
        invariant
            i <= 32,
            a@.len() == 32,
            b@.len() == 32,
            (acc == 0) == (forall|j: int| 0 <= j < i ==> a@[j] == b@[j]),
        decreases 32 - i,
    {
        let x = a[i];
        let y = b[i];
        let next = acc | (x ^ y);
        assert((next == 0) == (acc == 0 && x == y)) by (bit_vector)
            requires
                next == acc | (x ^ y),
        ;
        acc = next;
        i = i + 1;
    }
    proof {
        if acc == 0 {
            assert(a@ =~= b@);
        }
    }
    acc == 0
}

} // verus!
