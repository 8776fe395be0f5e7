//! A protocol packet and its byte-level encoding.
//!
//! A packet is a tagged envelope: a [`PacketType`] (four of the eight types
//! carry an inline name) and an opaque body.  On the wire a packet is sent
//! as a 4-byte big-endian length followed by the encoded packet itself.

use vstd::prelude::*;

use crate::error::Error;
use crate::packet_type::{lemma_marshal_round_trip, spec_unmarshal, PacketType, PacketTypeV};

verus! {

/// Appends the bytes of `src` to `dst`.
pub(crate) fn append_bytes(dst: &mut Vec<u8>, src: &[u8])
    ensures
        final(dst)@ == old(dst)@ + src@,
{
    let mut i: usize = 0;
    while i < src.len()
        invariant
            i <= src@.len(),
            dst@ == old(dst)@ + src@.subrange(0, i as int),
        decreases src@.len() - i,
    {
        let b = *vstd::slice::slice_index_get(src, i);
        dst.push(b);
        assert(src@.subrange(0, i + 1 as int) =~= src@.subrange(0, i as int).push(src@[i as int]));
        i = i + 1;
    }
    assert(old(dst)@ + src@.subrange(0, i as int) =~= old(dst)@ + src@);
}

/// A packet of the protocol: a type with its optional name, and an opaque
/// body that is copied, never inspected.
#[derive(Debug)]
pub struct Packet {
    packet_type: PacketType,
    payload: Vec<u8>,
}

/// The mathematical model of a [`Packet`].
pub struct PacketV {
    pub packet_type: PacketTypeV,
    pub payload: Seq<u8>,
}

impl View for Packet {
    type V = PacketV;

    closed spec fn view(&self) -> PacketV {
        PacketV { packet_type: self.packet_type@, payload: self.payload@ }
    }
}

impl PacketV {
    /// Well-formed: the name, if any, fits in its one-byte length prefix.
    pub open spec fn wf(self) -> bool {
        self.packet_type.wf()
    }

    /// The encoding of a packet: its type header followed by the body.
    pub open spec fn spec_serialize(self) -> Seq<u8> {
        self.packet_type.spec_marshal() + self.payload
    }
}

/// Decodes a packet: a type header at the front, all remaining bytes as the
/// body.  `None` on truncated input or an unknown type tag.
pub open spec fn spec_deserialize(s: Seq<u8>) -> Option<PacketV> {
    match spec_unmarshal(s) {
        Some((t, n)) => Some(PacketV { packet_type: t, payload: s.subrange(n, s.len() as int) }),
        None => None,
    }
}

/// Decoding inverts encoding: every well-formed packet comes back unchanged.
pub proof fn lemma_packet_round_trip(p: PacketV)
    requires
        p.wf(),
    ensures
        spec_deserialize(p.spec_serialize()) == Some(p),
{
    lemma_marshal_round_trip(p.packet_type, p.payload);
    let s = p.spec_serialize();
    let n = p.packet_type.spec_marshal().len() as int;
    assert(s.subrange(n, s.len() as int) =~= p.payload);
}

impl Packet {
    /// Well-formed: the name, if any, fits in its one-byte length prefix.
    pub open spec fn wf(&self) -> bool {
        self@.wf()
    }

    /// Builds a packet from its type and body.
    pub fn new(packet_type: PacketType, payload: Vec<u8>) -> (r: Packet)
        ensures
            r@ == (PacketV { packet_type: packet_type@, payload: payload@ }),
    {
        Packet { packet_type, payload }
    }

    /// The type of this packet.
    pub fn packet_type(&self) -> (r: &PacketType)
        ensures
            r@ == self@.packet_type,
    {
        &self.packet_type
    }

    /// The body of this packet.
    pub fn payload(&self) -> (r: &Vec<u8>)
        ensures
            r@ == self@.payload,
    {
        &self.payload
    }

    /// Takes this packet apart into its type and body.
    pub fn into_parts(self) -> (r: (PacketType, Vec<u8>))
        ensures
            r.0@ == self@.packet_type,
            r.1@ == self@.payload,
    {
        (self.packet_type, self.payload)
    }

    /// Encodes this packet: the type header followed by the body.
    pub fn serialize(&self) -> (r: Vec<u8>)
        requires
            self.wf(),
        ensures
            r@ == self@.spec_serialize(),
    {
        let mut buf: Vec<u8> = Vec::new();
        self.packet_type.marshal(&mut buf);
        append_bytes(&mut buf, self.payload.as_slice());
        buf
    }

    /// Decodes a packet from `slice`; the type header is taken from the
    /// front and all remaining bytes become the body.
    pub fn deserialize(slice: &[u8]) -> (r: Result<Packet, Error>)
        ensures
            r is Ok <==> spec_deserialize(slice@) is Some,
            r matches Ok(p) ==> Some(p@) == spec_deserialize(slice@),
            r matches Ok(p) ==> p.wf(),
            r matches Err(e) ==> e.spec_code() is InvalidData,
    {
        match PacketType::unmarshal(slice) {
            Ok((rest, packet_type)) => Ok(
                Packet { packet_type, payload: vstd::slice::slice_to_vec(rest) },
            ),
            Err(e) => Err(e),
        }
    }
}

/// The 4-byte big-endian encoding of `n`.
pub open spec fn spec_u32_be(n: u32) -> Seq<u8> {
    seq![
        (n / 0x1000000) as u8,
        ((n / 0x10000) % 256) as u8,
        ((n / 0x100) % 256) as u8,
        (n % 256) as u8,
    ]
}

/// The value of 4 big-endian bytes.
pub open spec fn spec_u32_from_be(s: Seq<u8>) -> int
    recommends
        s.len() == 4,
{
    s[0] * 0x1000000 + s[1] * 0x10000 + s[2] * 0x100 + s[3]
}

/// Reading 4 big-endian bytes back gives the encoded value.
pub proof fn lemma_u32_be_round_trip(n: u32)
    ensures
        spec_u32_from_be(spec_u32_be(n)) == n,
{
    assert(spec_u32_from_be(spec_u32_be(n)) == n) by (nonlinear_arith);
}

/// Decodes a 4-byte big-endian length prefix.
pub fn u32_from_be(bytes: &[u8]) -> (r: u32)
    requires
        bytes@.len() == 4,
    ensures
        r == spec_u32_from_be(bytes@),
{
    let b0 = *vstd::slice::slice_index_get(bytes, 0) as u32;
    let b1 = *vstd::slice::slice_index_get(bytes, 1) as u32;
    let b2 = *vstd::slice::slice_index_get(bytes, 2) as u32;
    let b3 = *vstd::slice::slice_index_get(bytes, 3) as u32;
    b0 * 0x1000000 + b1 * 0x10000 + b2 * 0x100 + b3
}

/// A whole wire frame inverts: its 4-byte prefix reads back as the length
/// of what follows it, and what follows decodes to the same packet.  This
/// is what lets the reading side take the length, then exactly that many
/// bytes, and recover what the writing side framed.
pub proof fn lemma_frame_round_trip(p: PacketV)
    requires
        p.wf(),
        p.spec_serialize().len() <= u32::MAX,
    ensures
        spec_u32_from_be(
            (spec_u32_be(p.spec_serialize().len() as u32) + p.spec_serialize()).subrange(0, 4),
        ) == p.spec_serialize().len(),
        spec_deserialize(
            (spec_u32_be(p.spec_serialize().len() as u32) + p.spec_serialize()).subrange(
                4,
                (spec_u32_be(p.spec_serialize().len() as u32) + p.spec_serialize()).len() as int,
            ),
        ) == Some(p),
{
    let n = p.spec_serialize().len() as u32;
    let f = spec_u32_be(n) + p.spec_serialize();
    lemma_u32_be_round_trip(n);
    assert(f.subrange(0, 4) =~= spec_u32_be(n));
    assert(f.subrange(4, f.len() as int) =~= p.spec_serialize());
    lemma_packet_round_trip(p);
}

impl Packet {
    /// Encodes this packet as a complete wire frame: a 4-byte big-endian
    /// length followed by the encoded packet.
    pub fn frame(&self) -> (r: Vec<u8>)
        requires
            self.wf(),
            self@.spec_serialize().len() <= u32::MAX,
        ensures
            r@ == spec_u32_be(self@.spec_serialize().len() as u32) + self@.spec_serialize(),
    {
        let body = self.serialize();
        let len = body.len() as u32;
        let mut buf: Vec<u8> = Vec::new();
        buf.push((len / 0x1000000) as u8);
        buf.push(((len / 0x10000) % 256) as u8);
        buf.push(((len / 0x100) % 256) as u8);
        buf.push((len % 256) as u8);
        assert(buf@ =~= spec_u32_be(len));
        append_bytes(&mut buf, body.as_slice());
        buf
    }
}

} // verus!
