//! BACnet Virtual Link Control (BVLC) framing for BACnet/IP.

use vstd::prelude::*;

verus! {

/// The BVLC type byte for BACnet/IP.
pub const BVLC_TYPE_BIP: u8 = 0x81;

/// The 16-bit length written in a BVLC header: the payload length plus the
/// four header bytes, truncated to 16 bits.
pub open spec fn bvlc_declared_len(payload_len: nat) -> nat {
    (payload_len + 4) % 65536
}

/// A BVLC frame: type byte, function byte, big-endian length, payload.
pub open spec fn bvlc_frame(function: u8, payload: Seq<u8>) -> Seq<u8> {
    let total = bvlc_declared_len(payload.len());
    seq![BVLC_TYPE_BIP, function, (total / 256) as u8, (total % 256) as u8] + payload
}

/// Wraps `payload` in a BVLC header with the given function code.
pub fn wrap_bvlc(function: u8, payload: Vec<u8>) -> (message: Vec<u8>)
    ensures
        message@ == bvlc_frame(function, payload@),
{
    let mut payload = payload;
    let total: usize = ((payload.len() % 65536) + 4) % 65536;
    let hi: u8 = (total / 256) as u8;
    let lo: u8 = (total % 256) as u8;
    let mut message: Vec<u8> = vec![BVLC_TYPE_BIP, function, hi, lo];
    let ghost p = payload@;
    message.append(&mut payload);
    proof {
        assert(total == bvlc_declared_len(p.len()));
    }
    message
}


/// The length a BVLC header declares: bytes 2 and 3, big-endian.
pub open spec fn declared_len(data: Seq<u8>) -> nat
    recommends
        data.len() >= 4,
{
    data[2] as nat * 256 + data[3] as nat
}

/// The payload behind a BACnet/IP BVLC header, where the frame has one: at
/// least four bytes, type 0x81, and a declared length equal to the frame's
/// length. The function byte is not looked at.
pub open spec fn bvlc_body(data: Seq<u8>) -> Option<Seq<u8>> {
    if data.len() < 4 || data[0] != BVLC_TYPE_BIP {
        None
    } else if declared_len(data) != data.len() {
        None
    } else {
        Some(data.skip(4))
    }
}

/// The payload of a received BACnet/IP frame, where its header checks out.
pub fn bvlc_payload(data: &[u8]) -> (r: Option<&[u8]>)
    ensures
        match bvlc_body(data@) {
            Some(body) => r matches Some(p) && p@ == body,
            None => r is None,
        },
{
    if data.len() < 4 || data[0] != BVLC_TYPE_BIP {
        return None;
    }
    let declared: usize = (data[2] as usize) * 256 + (data[3] as usize);
    if declared != data.len() {
        return None;
    }
    Some(vstd::slice::slice_subrange(data, 4, data.len()))
}

/// A frame built by [`wrap_bvlc`] reads back as its payload, whatever its
/// function byte, as long as the frame's length fits the 16-bit length field.
pub proof fn lemma_bvlc_frame_reads_back(function: u8, payload: Seq<u8>)
    requires
        payload.len() + 4 < 65536,
    ensures
        bvlc_body(bvlc_frame(function, payload)) == Some(payload),
{
    let frame = bvlc_frame(function, payload);
    let total = payload.len() + 4;
    assert(frame[2] as nat * 256 + frame[3] as nat == total);
    assert(frame.skip(4) =~= payload);
}

/// A frame whose payload is too long for the 16-bit length field does not
/// read back: its declared length no longer matches.
pub proof fn lemma_bvlc_oversized_frame_refused(function: u8, payload: Seq<u8>)
    requires
        payload.len() + 4 >= 65536,
    ensures
        bvlc_body(bvlc_frame(function, payload)) is None,
{
    let frame = bvlc_frame(function, payload);
    assert(frame[2] as nat * 256 + frame[3] as nat == (payload.len() + 4) % 65536);
}

} // verus!
