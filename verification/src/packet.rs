//! The outer frame of the datagram protocol: a little-endian `u16` length
//! field (counting the payload plus the four envelope bytes), a `u16`
//! command header, and the raw payload.
//!
//! The frame layer is format-only: decoding reports the length field as it
//! was read and performs no protocol-level validation beyond requiring the
//! four envelope bytes to be present.  The encoder, by contrast, always
//! produces a self-consistent frame (`data_len == payload length + 4`),
//! which is what the rest of the engine relies on.

use vstd::prelude::*;

use crate::error::Z21Error;
use crate::wire::{
    lemma_u16_le_round_trip, push_u16_le, u16_from_le, u16_le, u16_le_bytes,
};
use vstd::slice::slice_to_vec;

verus! {

/// The serialized form of a frame: length, header, payload, little-endian.
pub open spec fn frame_bytes(data_len: u16, header: u16, data: Seq<u8>) -> Seq<u8> {
    u16_le_bytes(data_len) + u16_le_bytes(header) + data
}

/// One datagram frame.
#[derive(Debug, Clone)]
pub struct Packet {
    /// Length field as carried on the wire.
    pub data_len: u16,
    /// Command header.
    pub header: u16,
    /// Raw payload.
    pub data: Vec<u8>,
}

impl Packet {
    /// A self-consistent frame, as the encoder produces it: the length
    /// field counts the payload plus the four envelope bytes.
    pub open spec fn wf(&self) -> bool {
        self.data_len == self.data@.len() + 4
    }

    /// Builds the frame for one outbound command.  The payload must leave
    /// room for the four envelope bytes within the 16-bit length field.
    pub fn with_header_and_data(header: u16, data: &[u8]) -> (p: Packet)
        requires
            data@.len() + 4 <= u16::MAX,
        ensures
            p.header == header,
            p.data@ == data@,
            p.data_len == data@.len() + 4,
            p.wf(),
    {
        let calculated_len = (data.len() + 4) as u16;
        Packet { header, data_len: calculated_len, data: slice_to_vec(data) }
    }

    pub fn get_data(&self) -> (d: Vec<u8>)
        ensures
            d@ == self.data@,
    {
        slice_to_vec(self.data.as_slice())
    }

    pub fn get_header(&self) -> (h: u16)
        ensures
            h == self.header,
    {
        self.header
    }

    pub fn get_data_len(&self) -> (l: u16)
        ensures
            l == self.data_len,
    {
        self.data_len
    }

    /// Serializes the frame: length, header, payload, little-endian.
    pub fn to_bytes(&self) -> (r: Vec<u8>)
        ensures
            r@ == frame_bytes(self.data_len, self.header, self.data@),
    {
        let mut out: Vec<u8> = Vec::new();
        push_u16_le(&mut out, self.data_len);
        push_u16_le(&mut out, self.header);
        let mut i: usize = 0;
        while i < self.data.len()
            invariant
                i <= self.data@.len(),
                out@ == u16_le_bytes(self.data_len) + u16_le_bytes(self.header)
                    + self.data@.take(i as int),
            decreases self.data@.len() - i,
        {
            out.push(self.data[i]);
            i = i + 1;
            proof {
                assert(out@ =~= u16_le_bytes(self.data_len) + u16_le_bytes(self.header)
                    + self.data@.take(i as int));
            }
        }
        proof {
            assert(out@ =~= frame_bytes(self.data_len, self.header, self.data@));
        }
        out
    }

    /// Reads the three fields of a datagram.  Fails only when the datagram
    /// is shorter than the four envelope bytes; the length field is
    /// reported as read, not checked against the datagram's size.
    pub fn try_from_bytes(bytes: &[u8]) -> (r: Result<Packet, Z21Error>)
        ensures
            bytes@.len() < 4 ==> r == Err::<Packet, Z21Error>(Z21Error::TooShort),
            bytes@.len() >= 4 ==> (r matches Ok(p)
                && p.data_len == u16_le(bytes@[0], bytes@[1])
                && p.header == u16_le(bytes@[2], bytes@[3])
                && p.data@ == bytes@.skip(4)),
    {
        if bytes.len() < 4 {
            return Err(Z21Error::TooShort);
        }
        let data_len = u16_from_le(bytes[0], bytes[1]);
        let header = u16_from_le(bytes[2], bytes[3]);
        let n = bytes.len();
        let mut data: Vec<u8> = Vec::new();
        let mut i: usize = 4;
        while i < n
            invariant
                4 <= i <= n,
                n == bytes@.len(),
                data@ == bytes@.subrange(4, i as int),
            decreases n - i,
        {
            data.push(bytes[i]);
            i = i + 1;
            proof {
                assert(data@ =~= bytes@.subrange(4, i as int));
            }
        }
        proof {
            assert(data@ =~= bytes@.skip(4));
        }
        Ok(Packet { data_len, header, data })
    }
}

/// Round trip of the frame codec: decoding the bytes that the encoder
/// produced for `header` and `data` yields the same header and payload,
/// and a length field that counts `data.len() + 4` — the encoder can never
/// produce a frame whose length field disagrees with its payload.
pub proof fn lemma_frame_round_trip(header: u16, data: Seq<u8>)
    requires
        data.len() + 4 <= u16::MAX,
    ensures
        ({
            let bs = frame_bytes((data.len() + 4) as u16, header, data);
            &&& bs.len() == data.len() + 4
            &&& u16_le(bs[0], bs[1]) == data.len() + 4
            &&& u16_le(bs[2], bs[3]) == header
            &&& bs.skip(4) =~= data
        }),
{
    let data_len = (data.len() + 4) as u16;
    let bs = frame_bytes(data_len, header, data);
    lemma_u16_le_round_trip(data_len);
    lemma_u16_le_round_trip(header);
    assert(bs[0] == u16_le_bytes(data_len)[0]);
    assert(bs[1] == u16_le_bytes(data_len)[1]);
    assert(bs[2] == u16_le_bytes(header)[0]);
    assert(bs[3] == u16_le_bytes(header)[1]);
}

} // verus!
