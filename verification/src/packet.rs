//! The probe packet and the byte-level rules applied to echoed datagrams:
//! building the fixed 12-byte RTP probe, stripping the RTP header from a
//! datagram, and the first-byte sanity filter used during capture.

use vstd::prelude::*;

verus! {

/// Length in bytes of the fixed RTP header that begins every datagram.
pub const RTP_HEADER_LEN: usize = 12;

/// The first byte of an RTP-like packet: version 2, no padding, no extension.
pub const RTP_FIRST_BYTE: u8 = 0x80;

/// Largest payload a single UDP datagram can carry; receive buffers use it.
pub const MAX_UDP_PACKET_SIZE: usize = 65507;

/// The probe datagram: bytes 0 and 1 are 0x80, the remaining ten are zero.
pub open spec fn probe_bytes() -> Seq<u8> {
    seq![0x80u8, 0x80u8, 0u8, 0u8, 0u8, 0u8, 0u8, 0u8, 0u8, 0u8, 0u8, 0u8]
}

/// Build the probe packet sent to every candidate port. Pure and
/// deterministic; every probe in a run sends these same 12 bytes.
pub fn build_probe() -> (p: Vec<u8>)
    ensures
        p@ == probe_bytes(),
        p@.len() == RTP_HEADER_LEN,
{
    let mut p: Vec<u8> = Vec::new();
    p.push(0x80);
    p.push(0x80);
    let mut i: usize = 0;
    while i < 10
        invariant
            i <= 10,
            p@.len() == 2 + i,
            p@[0] == 0x80u8,
            p@[1] == 0x80u8,
            forall|j: int| 2 <= j < p@.len() ==> p@[j] == 0u8,
        decreases 10 - i,
    {
        p.push(0);
        i += 1;
    }
    proof {
        assert(p@ =~= probe_bytes());
    }
    p
}

/// The payload of a datagram: everything after the 12-byte RTP header, or
/// nothing when the datagram is too short to hold a full header.
pub open spec fn payload_of(d: Seq<u8>) -> Seq<u8> {
    if d.len() >= RTP_HEADER_LEN {
        d.subrange(RTP_HEADER_LEN as int, d.len() as int)
    } else {
        Seq::<u8>::empty()
    }
}

/// Strip the RTP header from a received datagram, keeping bytes [12, len).
pub fn extract_payload(d: &Vec<u8>) -> (r: Vec<u8>)
    ensures
        r@ == payload_of(d@),
{
    let mut r: Vec<u8> = Vec::new();
    if d.len() >= RTP_HEADER_LEN {
        let mut i: usize = RTP_HEADER_LEN;
        while i < d.len()
            invariant
                RTP_HEADER_LEN <= i <= d@.len(),
                r@ =~= d@.subrange(RTP_HEADER_LEN as int, i as int),
            decreases d@.len() - i,
        {
            r.push(d[i]);
            i += 1;
        }
    }
    proof {
        assert(r@ =~= payload_of(d@));
    }
    r
}

/// The capture-phase sanity filter: a datagram qualifies when it has at
/// least one byte and that byte is 0x80.
pub open spec fn is_rtp_like(d: Seq<u8>) -> bool {
    d.len() >= 1 && d[0] == RTP_FIRST_BYTE
}

/// Decide whether a capture-phase datagram qualifies for the output file.
pub fn accept_capture_datagram(d: &Vec<u8>) -> (b: bool)
    ensures
        b == is_rtp_like(d@),
{
    d.len() >= 1 && d[0] == RTP_FIRST_BYTE
}

} // verus!
