//! The wire codec: one packet of the protocol, its byte format, and the
//! encode/decode pair with a proved round trip.
//!
//! On the wire a packet is: a little-endian 32-bit length of everything that
//! follows, then a little-endian 32-bit request id, a little-endian 32-bit
//! kind, the body bytes, and two zero bytes. The length field equals the body
//! length plus 10, and the body may be at most 1014 bytes, so that a whole
//! frame never exceeds 1024 bytes.

use crate::error::RconError;
use vstd::bytes::{
    lemma_auto_spec_u32_to_from_le_bytes, spec_u32_from_le_bytes, spec_u32_to_le_bytes,
    u32_from_le_bytes, u32_to_le_bytes,
};
use vstd::prelude::*;
use vstd::slice::{slice_subrange, slice_to_vec};
use vstd::utf8::{
    decode_utf8, encode_utf8, encode_utf8_decode_utf8, encode_utf8_valid_utf8, valid_utf8,
};

verus! {

/// The longest body that fits in a frame: the 1024-byte frame ceiling minus
/// the 10 bytes of envelope counted by the length field.
pub const MAX_BODY_BYTES: usize = 1014;

/// The role tag of a packet.
pub type PacketType = i32;

/// Kind of the packet that carries the password.
pub const TYPE_AUTH: PacketType = 3;

/// Kind of a packet that carries a command.
pub const TYPE_EXEC: PacketType = 2;

/// Kind of a reply packet carrying (a fragment of) a command's output.
pub const TYPE_RESPONSE: PacketType = 0;

/// Kind of the reply to an auth packet. The protocol assigns `EXEC` and
/// `AUTH_RESPONSE` the same number; only the direction of travel tells them
/// apart.
pub const TYPE_AUTH_RESPONSE: PacketType = 2;

/// What a [`Packet`] is mathematically: its three parts, with the body as a
/// character sequence.
pub ghost struct PacketModel {
    /// The request id.
    pub id: i32,
    /// The role tag.
    pub packet_type: PacketType,
    /// The body text.
    pub body: Seq<char>,
}

/// One protocol message: a request id, a kind, and a UTF-8 body.
#[derive(Debug, PartialEq, Eq)]
pub struct Packet {
    id: i32,
    packet_type: PacketType,
    body: String,
}

impl View for Packet {
    type V = PacketModel;

    closed spec fn view(&self) -> PacketModel {
        PacketModel { id: self.id, packet_type: self.packet_type, body: self.body@ }
    }
}

impl Packet {
    /// Builds a packet from its three parts.
    pub fn new(id: i32, packet_type: PacketType, body: String) -> (p: Packet)
        ensures
            p@ == (PacketModel { id, packet_type, body: body@ }),
    {
        Packet { id, packet_type, body }
    }

    /// The request id this packet belongs to.
    pub fn get_id(&self) -> (r: &i32)
        ensures
            *r == self@.id,
    {
        &self.id
    }

    /// The packet's role tag.
    pub fn get_packet_type(&self) -> (r: &PacketType)
        ensures
            *r == self@.packet_type,
    {
        &self.packet_type
    }

    /// The packet's body text.
    pub fn get_body(&self) -> (r: &String)
        ensures
            r@ == self@.body,
    {
        &self.body
    }

    /// Encodes this packet into the bytes that go on the wire, or fails with
    /// `CommandTooLong` — before any byte is produced — when the body is over
    /// the frame ceiling.
    pub fn create_packet_buffer(&self) -> (r: Result<Vec<u8>, RconError>)
        ensures
            match r {
                Ok(buf) => {
                    &&& encode_utf8(self@.body).len() <= MAX_BODY_BYTES
                    &&& buf@ == spec_encode(self@)
                },
                Err(e) => {
                    &&& e == RconError::CommandTooLong
                    &&& encode_utf8(self@.body).len() > MAX_BODY_BYTES
                },
            },
    {
        let body_bytes: &[u8] = self.body.as_str().as_bytes();
        if body_bytes.len() > MAX_BODY_BYTES {
            return Err(RconError::CommandTooLong);
        }
        let mut buf = u32_to_le_bytes(body_bytes.len() as u32 + 10);
        let mut id_bytes = u32_to_le_bytes(#[verifier::truncate] (self.id as u32));
        buf.append(&mut id_bytes);
        let mut type_bytes = u32_to_le_bytes(#[verifier::truncate] (self.packet_type as u32));
        buf.append(&mut type_bytes);
        let mut body_vec = slice_to_vec(body_bytes);
        buf.append(&mut body_vec);
        buf.push(0u8);
        buf.push(0u8);
        proof {
            assert(buf@ =~= spec_encode(self@));
        }
        Ok(buf)
    }

    /// Decodes one frame of `len` bytes held in `buf`: the id from the first
    /// four bytes, the kind from the next four, the body from the bytes
    /// `[8, len - 2)` — leaving the two terminating zero bytes — or fails with
    /// `UTFEncoding` when the body bytes are not valid UTF-8.
    ///
    /// `len` is the value of the frame's length field, which the caller reads
    /// off the stream, as a four-byte little-endian prefix, before the `len`
    /// remaining bytes that it hands over here.
    pub fn decode_packet_buffer(len: usize, buf: &[u8]) -> (r: Result<Packet, RconError>)
        requires
            10 <= len,
            len - 2 <= buf@.len(),
        ensures
            match r {
                Ok(p) => spec_decode(len as int, buf@) == Some(p@),
                Err(e) => {
                    &&& e == RconError::UTFEncoding
                    &&& spec_decode(len as int, buf@) is None
                },
            },
    {
        let id = #[verifier::truncate] (u32_from_le_bytes(slice_subrange(buf, 0, 4)) as i32);
        let packet_type = #[verifier::truncate] (u32_from_le_bytes(slice_subrange(buf, 4, 8))
            as i32);
        let body_vec = slice_to_vec(slice_subrange(buf, 8, len - 2));
        match string_from_utf8(body_vec) {
            Some(body) => Ok(Packet { id, packet_type, body }),
            None => Err(RconError::UTFEncoding),
        }
    }
}

/// The bytes of one encoded frame: the length field — ten bytes of envelope
/// plus the body length — then the id, the kind, the body bytes, and two zero
/// bytes.
pub open spec fn spec_encode(p: PacketModel) -> Seq<u8>
    recommends
        encode_utf8(p.body).len() <= MAX_BODY_BYTES,
{
    spec_u32_to_le_bytes((encode_utf8(p.body).len() + 10) as u32)
        + spec_u32_to_le_bytes(p.id as u32) + spec_u32_to_le_bytes(p.packet_type as u32)
        + encode_utf8(p.body) + seq![0u8, 0u8]
}

/// The packet described by a frame whose length field read `len` and whose
/// remaining `len` bytes are `buf`, when the body bytes are valid UTF-8;
/// `None` when they are not.
pub open spec fn spec_decode(len: int, buf: Seq<u8>) -> Option<PacketModel>
    recommends
        10 <= len,
        len - 2 <= buf.len(),
{
    let body_bytes = buf.subrange(8, len - 2);
    if valid_utf8(body_bytes) {
        Some(
            PacketModel {
                id: spec_u32_from_le_bytes(buf.subrange(0, 4)) as i32,
                packet_type: spec_u32_from_le_bytes(buf.subrange(4, 8)) as i32,
                body: decode_utf8(body_bytes),
            },
        )
    } else {
        None
    }
}

/// Relies on `String::from_utf8`: it succeeds exactly on valid UTF-8 input,
/// and the string it returns holds exactly the characters those bytes decode
/// to.
#[verifier::external_body]
fn string_from_utf8(bytes: Vec<u8>) -> (r: Option<String>)
    ensures
        r is Some <==> valid_utf8(bytes@),
        r matches Some(s) ==> s@ == decode_utf8(bytes@),
{
    match String::from_utf8(bytes) {
        Ok(s) => Some(s),
        Err(_) => None,
    }
}

/// Length field correctness: the first four bytes of an encoded frame hold
/// exactly the body length plus ten.
pub proof fn lemma_length_prefix(p: PacketModel)
    requires
        encode_utf8(p.body).len() <= MAX_BODY_BYTES,
    ensures
        spec_u32_from_le_bytes(spec_encode(p).subrange(0, 4)) == encode_utf8(p.body).len() + 10,
{
    lemma_auto_spec_u32_to_from_le_bytes();
    assert(spec_encode(p).subrange(0, 4) =~= spec_u32_to_le_bytes(
        (encode_utf8(p.body).len() + 10) as u32,
    ));
}

/// Round trip: a packet whose body fits the frame ceiling decodes, from its
/// own encoding, back to itself — same id, same kind, same body. The length
/// field reads the body length plus ten, and the frame after it is exactly
/// that many bytes.
pub proof fn lemma_encode_decode(p: PacketModel)
    requires
        encode_utf8(p.body).len() <= MAX_BODY_BYTES,
    ensures
        ({
            let wire = spec_encode(p);
            let len = encode_utf8(p.body).len() + 10;
            &&& wire.len() == len + 4
            &&& spec_u32_from_le_bytes(wire.subrange(0, 4)) == len
            &&& spec_decode(len as int, wire.subrange(4, wire.len() as int)) == Some(p)
        }),
{
    broadcast use encode_utf8_valid_utf8, encode_utf8_decode_utf8;

    lemma_auto_spec_u32_to_from_le_bytes();
    let wire = spec_encode(p);
    let n = encode_utf8(p.body).len() as int;
    let payload = wire.subrange(4, wire.len() as int);
    assert(wire.subrange(0, 4) =~= spec_u32_to_le_bytes((n + 10) as u32));
    assert(payload.subrange(0, 4) =~= spec_u32_to_le_bytes(p.id as u32));
    assert(payload.subrange(4, 8) =~= spec_u32_to_le_bytes(p.packet_type as u32));
    assert(payload.subrange(8, n + 8) =~= encode_utf8(p.body));
    let id = p.id;
    let packet_type = p.packet_type;
    assert((id as u32) as i32 == id) by (bit_vector);
    assert((packet_type as u32) as i32 == packet_type) by (bit_vector);
}

} // verus!

