//! SDSP packet framing: wire layout, checksum, encoder and streaming decoder.
//!
//! A frame on the wire is
//!
//! ```text
//! START  SENDER  RECEIVER  LEN_HI  LEN_LO  BODY[LEN]  CHK_HI  CHK_LO  END
//! ```
//!
//! with multi-byte fields in big-endian order. The checksum is the CRC16 of the
//! whole frame taken with both checksum bytes set to zero. Nothing inside the
//! body is escaped: the length field alone decides where the body ends.

pub mod crc;
pub mod decoder;
pub mod proofs;

pub use crate::sdsp::crc::sdsp_crc16;
pub use crate::sdsp::decoder::{read_packet, Decoder, ReadError, ReadState};

use vstd::prelude::*;
use crate::sdsp::crc::crc16;

verus! {

/// First byte of every frame.
pub const PKG_START_BYTE: u8 = 0x7B;

/// Last byte of every frame.
pub const PKG_END_BYTE: u8 = 0x7D;

/// Receiver id that every receiver accepts.
pub const BROADCAST_ID: u8 = 0xFF;

/// Longest body that the 16-bit length field can announce.
pub const MAX_BODY_LEN: usize = 65535;

/// Bytes of a frame that are not body.
pub const FRAME_OVERHEAD: usize = 8;

/// The more significant byte of `x`.
pub open spec fn high_byte(x: u16) -> u8 {
    (x / 256) as u8
}

/// The less significant byte of `x`.
pub open spec fn low_byte(x: u16) -> u8 {
    (x % 256) as u8
}

/// The 16-bit value whose big-endian bytes are `hi`, `lo`.
pub open spec fn be_u16(hi: u8, lo: u8) -> u16 {
    (hi * 256 + lo) as u16
}

/// The bytes of a frame with the given fields, in wire order.
pub open spec fn frame_bytes(
    sender_id: u8,
    receiver_id: u8,
    body_len: u16,
    body: Seq<u8>,
    checksum: u16,
) -> Seq<u8> {
    seq![PKG_START_BYTE, sender_id, receiver_id, high_byte(body_len), low_byte(body_len)] + body
        + seq![high_byte(checksum), low_byte(checksum), PKG_END_BYTE]
}

/// The frame that carries `body` from `sender_id` to `receiver_id`: the length
/// field announces the body, and the checksum is the CRC16 of the frame with a
/// zero checksum.
pub open spec fn encode_spec(sender_id: u8, receiver_id: u8, body: Seq<u8>) -> Seq<u8> {
    let body_len = body.len() as u16;
    frame_bytes(
        sender_id,
        receiver_id,
        body_len,
        body,
        crc16(frame_bytes(sender_id, receiver_id, body_len, body, 0)),
    )
}

/// One packet, as sent or as received.
#[derive(Debug)]
pub struct PacketInfo {
    pub sender_id: u8,
    pub receiver_id: u8,
    pub body: Vec<u8>,
    /// Length announced on the wire; zero in a packet that was never framed.
    pub body_len: u16,
    /// Checksum found on the wire; zero in a packet that was never framed.
    pub checksum: u16,
}

/// The mathematical content of a [`PacketInfo`].
pub struct PacketView {
    pub sender_id: u8,
    pub receiver_id: u8,
    pub body: Seq<u8>,
    pub body_len: u16,
    pub checksum: u16,
}

impl View for PacketInfo {
    type V = PacketView;

    open spec fn view(&self) -> PacketView {
        PacketView {
            sender_id: self.sender_id,
            receiver_id: self.receiver_id,
            body: self.body@,
            body_len: self.body_len,
            checksum: self.checksum,
        }
    }
}

impl PacketInfo {
    /// A packet that has not been framed yet: length and checksum are zero.
    pub fn new(sender_id: u8, receiver_id: u8, body: Vec<u8>) -> (packet: PacketInfo)
        ensures
            packet@ == (PacketView {
                sender_id,
                receiver_id,
                body: body@,
                body_len: 0,
                checksum: 0,
            }),
    {
        PacketInfo { sender_id, receiver_id, body, body_len: 0, checksum: 0 }
    }
}

/// The more significant byte of `x`.
pub fn msb(x: u16) -> (byte: u8)
    ensures
        byte == high_byte(x),
{
    assert((x >> 8) == x / 256 && (x >> 8) < 256) by (bit_vector);
    (x >> 8) as u8
}

/// The less significant byte of `x`.
pub fn lsb(x: u16) -> (byte: u8)
    ensures
        byte == low_byte(x),
{
    assert((x & 0xFF) == x % 256 && (x & 0xFF) < 256) by (bit_vector);
    (x & 0xFF) as u8
}

/// Joins two bytes, most significant first.
pub fn join_bytes(hi: u8, lo: u8) -> (x: u16)
    ensures
        x == be_u16(hi, lo),
{
    assert((((hi as u16) << 8) | (lo as u16)) == (hi as u16) * 256 + (lo as u16)) by (bit_vector);
    ((hi as u16) << 8) | (lo as u16)
}

/// Lays out `pkg` in wire order, with the length field taken from
/// `pkg.body_len` and both checksum bytes zero.
pub fn assemble_packet(pkg: &PacketInfo) -> (data: Vec<u8>)
    ensures
        data@ == frame_bytes(pkg.sender_id, pkg.receiver_id, pkg.body_len, pkg.body@, 0),
{
    let mut data: Vec<u8> = Vec::new();
    data.push(PKG_START_BYTE);
    data.push(pkg.sender_id);
    data.push(pkg.receiver_id);
    data.push(msb(pkg.body_len));
    data.push(lsb(pkg.body_len));
    data.extend_from_slice(pkg.body.as_slice());
    data.push(0);
    data.push(0);
    data.push(PKG_END_BYTE);
    data
}

/// Builds the frame that carries `body` from `sender_id` to `receiver_id`.
///
/// The frame is first laid out with a zero checksum; the CRC16 of that layout
/// is then written over the two checksum bytes.
pub fn encode(sender_id: u8, receiver_id: u8, body: &Vec<u8>) -> (frame: Vec<u8>)
    requires
        body.len() <= MAX_BODY_LEN,
    ensures
        frame@ == encode_spec(sender_id, receiver_id, body@),
{
    let pkg = PacketInfo {
        sender_id,
        receiver_id,
        body: body.clone(),
        body_len: body.len() as u16,
        checksum: 0,
    };
    let mut frame = assemble_packet(&pkg);
    let crc = sdsp_crc16(&frame);
    let frame_len = frame.len();
    frame[frame_len - 3] = msb(crc);
    frame[frame_len - 2] = lsb(crc);
    frame
}

} // verus!
