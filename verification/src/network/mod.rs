//! The framing of packets on a connection: the length prefix read in front of every packet, the
//! optional zlib compression of packet bodies, and the errors a connection reports.
//!
//! Reading and writing the socket is left to the caller; these functions decide what the bytes
//! that were read mean and which bytes to write.

pub mod network_error;

use crate::network::network_error::{NetworkErrKind, NetworkError};
use crate::protocol::serialization::var_int::{lemma_varint_encode_bytes, lemma_varint_nat_round_trip, pow128, lemma_varint_round_trip, read_varint, spec_varint_bytes, spec_varint_parse, write_varint, VarInt};
use crate::protocol::serialization::{ErrKind, McDeserialize, McDeserializer, McSerializer, SerializingErr};
use std::io::{Read, Write};
use vstd::prelude::*;

verus! {

/// The largest packet, in bytes: the most that a 3-byte length prefix can say.
pub const PACKET_MAX_SIZE: usize = 2097151;

/// The bit of a length-prefix byte that says another byte follows.
pub const CONTINUE_BIT: u8 = 0b10000000;

/// The most bytes a packet's length prefix takes: three, enough for [`PACKET_MAX_SIZE`].
pub const MAX_PREFIX_BYTES: usize = 3;

/// The message of the error for a prefix that needs more than `max_prefix_bytes` bytes, formatted
/// by std's `format!`; nothing is claimed of its text.
#[verifier::external_body]
fn prefix_too_long_message(max_prefix_bytes: usize) -> String {
    format!("Packet length VarInt max bytes is {}", max_prefix_bytes)
}

/// What the bytes of a length prefix read so far say.
#[derive(Debug, Clone, Copy, PartialEq, Eq)]
pub enum LengthPrefix {
    /// The last byte read says that another follows.
    Incomplete,
    /// The prefix took `prefix_len` bytes and announces a packet of `packet_len` bytes.
    Complete { prefix_len: usize, packet_len: usize },
}

/// What the length-prefix bytes `bytes`, read one at a time, say, when a prefix may take at most
/// `max_prefix_bytes` bytes: nothing yet while the last byte asks for more, an error once too
/// many bytes asked for more, and the announced length once a byte ends the prefix (a length
/// above [`PACKET_MAX_SIZE`] is an error).
pub open spec fn spec_length_prefix(bytes: Seq<u8>, max_prefix_bytes: nat) -> Result<LengthPrefix, NetworkErrKind> {
    if bytes.len() == 0 {
        Ok(LengthPrefix::Incomplete)
    } else if bytes.last() & CONTINUE_BIT == 0 {
        match spec_varint_parse(bytes) {
            Ok((v, n)) => if v.0 < 0 || v.0 > PACKET_MAX_SIZE {
                Err(NetworkErrKind::PacketTooLarge)
            } else {
                Ok(LengthPrefix::Complete { prefix_len: bytes.len() as usize, packet_len: v.0 as usize })
            },
            Err(k) => Err(NetworkErrKind::SerializingErr(k)),
        }
    } else if bytes.len() >= max_prefix_bytes {
        Err(NetworkErrKind::SerializingErr(ErrKind::VarTypeTooLong))
    } else {
        Ok(LengthPrefix::Incomplete)
    }
}

/// Decide what the length-prefix bytes read so far say; the caller reads one more byte while the
/// answer is [`LengthPrefix::Incomplete`].
pub fn read_length_prefix(bytes: &[u8], max_prefix_bytes: usize) -> (r: Result<LengthPrefix, NetworkError>)
    ensures
        match spec_length_prefix(bytes@, max_prefix_bytes as nat) {
            Ok(p) => r == Ok::<LengthPrefix, NetworkError>(p),
            Err(k) => r matches Err(e) && e.kind() == k,
        },
{
    let k = bytes.len();
    if k == 0 {
        return Ok(LengthPrefix::Incomplete);
    }
    let last = bytes[k - 1];
    if last & CONTINUE_BIT == 0 {
        let v = match VarInt::from_slice(bytes) {
            Ok(v) => v,
            Err(e) => return Err(NetworkError::SerializingErr(e)),
        };
        if v.0 < 0 || v.0 as usize > PACKET_MAX_SIZE {
            return Err(NetworkError::PacketTooLarge);
        }
        Ok(LengthPrefix::Complete { prefix_len: k, packet_len: v.0 as usize })
    } else if k >= max_prefix_bytes {
        Err(NetworkError::SerializingErr(SerializingErr::VarTypeTooLong(prefix_too_long_message(max_prefix_bytes))))
    } else {
        Ok(LengthPrefix::Incomplete)
    }
}

/// What a read of `length` bytes into a packet buffer says: none means the connection closed,
/// and a read that filled the largest packet is refused.
pub open spec fn spec_check_read_length(length: usize) -> Result<(), NetworkErrKind> {
    if length == 0 {
        Err(NetworkErrKind::NoDataReceived)
    } else if length == PACKET_MAX_SIZE {
        Err(NetworkErrKind::PacketTooLarge)
    } else {
        Ok(())
    }
}

/// Decide what a read of `length` bytes into a packet buffer says.
pub fn check_read_length(length: usize) -> (r: Result<(), NetworkError>)
    ensures
        match spec_check_read_length(length) {
            Ok(_) => r is Ok,
            Err(k) => r matches Err(e) && e.kind() == k,
        },
{
    if length == 0 {
        Err(NetworkError::NoDataReceived)
    } else if length == PACKET_MAX_SIZE {
        Err(NetworkError::PacketTooLarge)
    } else {
        Ok(())
    }
}

/// What zlib compression at the default level makes of `data`.
pub uninterp spec fn zlib_compressed(data: Seq<u8>) -> Seq<u8>;

/// What zlib decompression makes of `data`: the bytes of the zlib stream it starts with, or none
/// where it does not start with a complete, valid one.
pub uninterp spec fn zlib_decompressed(data: Seq<u8>) -> Option<Seq<u8>>;

/// Compress `data` with `flate2::write::ZlibEncoder` at `Compression::default()`, writing it
/// whole and finishing the stream. It succeeds: writing into a `Vec` never fails, and the
/// compressor fails only on a bad parameter or a full output buffer, which this write-then-finish
/// use never meets. What it returns is the named compression of `data`, and, as flate2
/// documents, it decompresses back to `data`.
#[verifier::external_body]
fn zlib_compress(data: &[u8]) -> (r: Result<Vec<u8>, std::io::Error>)
    ensures
        r is Ok,
        r matches Ok(v) ==> v@ == zlib_compressed(data@) && zlib_decompressed(v@) == Some(data@),
{
    let mut encoder = flate2::write::ZlibEncoder::new(Vec::new(), flate2::Compression::default());
    encoder.write_all(data)?;
    encoder.finish()
}

/// Decompress `data` with `flate2::read::ZlibDecoder`, reading to the end into a buffer made with
/// room for `capacity` bytes. The decoder refuses a corrupt or incomplete stream, so it fails
/// exactly where the named decompression of `data` is none, and otherwise returns it.
#[verifier::external_body]
fn zlib_decompress(data: &[u8], capacity: usize) -> (r: Result<Vec<u8>, std::io::Error>)
    ensures
        match r {
            Ok(v) => zlib_decompressed(data@) == Some(v@),
            Err(_) => zlib_decompressed(data@) is None,
        },
{
    let mut decoder = flate2::read::ZlibDecoder::new(data);
    let mut decompressed = Vec::with_capacity(capacity);
    decoder.read_to_end(&mut decompressed)?;
    Ok(decompressed)
}

/// `body` after its length, as a variable-length integer.
pub open spec fn spec_length_prefixed(body: Seq<u8>) -> Seq<u8> {
    spec_varint_bytes(body.len() as i32) + body
}

/// Put the length of `body` in front of it.
pub fn length_prefixed(body: &[u8]) -> (out: Vec<u8>)
    ensures
        out@ == spec_length_prefixed(body@),
{
    let mut serializer = McSerializer::new();
    write_varint(&mut serializer.output, #[verifier::truncate] (body.len() as i32));
    serializer.serialize_bytes(body);
    serializer.output
}

/// The packet (its id and data) in the body of a received frame, everything after the frame's
/// length. Without compression it is the body itself. With compression the body starts with the
/// data length: 0 means the packet follows as it is, a length beyond [`PACKET_MAX_SIZE`] (or
/// below 0) is refused, and any other length means the packet follows zlib-compressed.
///
/// See <https://minecraft.wiki/w/Java_Edition_protocol/Packets#With_compression>
pub open spec fn spec_frame_packet(compression_threshold: Option<u32>, frame_body: Seq<u8>) -> Result<Seq<u8>, NetworkErrKind> {
    match compression_threshold {
        None => Ok(frame_body),
        Some(_) => match spec_varint_parse(frame_body) {
            Err(k) => Err(NetworkErrKind::SerializingErr(k)),
            Ok((data_length, n)) => {
                let rest = frame_body.skip(n as int);
                if data_length.0 == 0 {
                    Ok(rest)
                } else if data_length.0 < 0 || data_length.0 > PACKET_MAX_SIZE {
                    Err(NetworkErrKind::PacketTooLarge)
                } else {
                    match zlib_decompressed(rest) {
                        Some(p) => Ok(p),
                        None => Err(NetworkErrKind::IOError),
                    }
                }
            },
        },
    }
}

/// The buffer that packet parsing reads from a received frame body: the packet in it, after its
/// length.
pub open spec fn spec_deserializer_buffer(compression_threshold: Option<u32>, frame_body: Seq<u8>) -> Result<Seq<u8>, NetworkErrKind> {
    match spec_frame_packet(compression_threshold, frame_body) {
        Ok(p) => Ok(spec_length_prefixed(p)),
        Err(k) => Err(k),
    }
}

/// Given the body of a received packet frame (everything after the outer length), produce the
/// length-prefixed packet (`VarInt(len) + Packet ID + Data`) ready for packet parsing.
pub fn build_deserializer_buffer(compression_threshold: Option<u32>, frame_body: &[u8]) -> (r: Result<Vec<u8>, NetworkError>)
    ensures
        match spec_deserializer_buffer(compression_threshold, frame_body@) {
            Ok(b) => r matches Ok(v) && v@ == b,
            Err(k) => r matches Err(e) && e.kind() == k,
        },
{
    if compression_threshold.is_none() {
        return Ok(length_prefixed(frame_body));
    }
    let mut sub = McDeserializer::new(frame_body);
    let data_length = match read_varint(&mut sub) {
        Ok(v) => v,
        Err(e) => return Err(NetworkError::SerializingErr(e)),
    };
    proof {
        VarInt::lemma_deserialize_len(frame_body@);
    }
    let remaining = &frame_body[sub.index..frame_body.len()];
    assert(remaining@ == frame_body@.skip(sub.index as int));
    if data_length.0 == 0 {
        return Ok(length_prefixed(remaining));
    }
    if data_length.0 < 0 || data_length.0 as usize > PACKET_MAX_SIZE {
        return Err(NetworkError::PacketTooLarge);
    }
    match zlib_decompress(remaining, data_length.0 as usize) {
        Ok(decompressed) => Ok(length_prefixed(decompressed.as_slice())),
        Err(e) => Err(NetworkError::IOError(e)),
    }
}

/// The frame body that carries the packet `body` when compression is on with threshold `t`: a
/// body larger than `t` bytes goes compressed after its uncompressed length, any other as it is
/// after a data length of 0.
pub open spec fn spec_compressed_frame_body(body: Seq<u8>, t: u32) -> Seq<u8> {
    if body.len() > t {
        spec_varint_bytes(body.len() as i32) + zlib_compressed(body)
    } else {
        spec_varint_bytes(0) + body
    }
}

/// The bytes to send for the length-prefixed packet `packet`: the packet as it is without
/// compression; with compression, the frame body for the packet after the prefix, after the
/// frame body's length.
pub open spec fn spec_frame(packet: Seq<u8>, compression_threshold: Option<u32>) -> Result<Seq<u8>, NetworkErrKind> {
    match spec_varint_parse(packet) {
        Err(k) => Err(NetworkErrKind::SerializingErr(k)),
        Ok((len, n)) => match compression_threshold {
            None => Ok(packet),
            Some(t) => Ok(spec_length_prefixed(spec_compressed_frame_body(packet.skip(n as int), t))),
        },
    }
}

/// The body of the length-prefixed packet `packet`: what follows its length, if the length reads.
pub open spec fn spec_packet_body(packet: Seq<u8>) -> Option<Seq<u8>> {
    match spec_varint_parse(packet) {
        Ok((len, n)) => Some(packet.skip(n as int)),
        Err(_) => None,
    }
}

/// Build the bytes to send for the length-prefixed packet `packet`. When the packet's body is
/// compressed, decompressing what was sent gives the body back.
pub fn build_frame(packet: &[u8], compression_threshold: Option<u32>) -> (r: Result<Vec<u8>, NetworkError>)
    ensures
        match spec_frame(packet@, compression_threshold) {
            Ok(f) => r matches Ok(v) && v@ == f,
            Err(k) => r matches Err(e) && e.kind() == k,
        },
        (compression_threshold is Some && spec_packet_body(packet@) is Some
            && spec_packet_body(packet@)->0.len() > compression_threshold->0)
            ==> zlib_decompressed(zlib_compressed(spec_packet_body(packet@)->0)) == Some(spec_packet_body(packet@)->0),
{
    let mut prefix = McDeserializer::new(packet);
    match read_varint(&mut prefix) {
        Ok(_) => {},
        Err(e) => return Err(NetworkError::SerializingErr(e)),
    }
    let prefix_len = prefix.index;
    proof {
        VarInt::lemma_deserialize_len(packet@);
    }
    let body = &packet[prefix_len..packet.len()];
    assert(body@ == packet@.skip(prefix_len as int));
    match compression_threshold {
        None => {
            let mut out = McSerializer::new();
            out.serialize_bytes(packet);
            Ok(out.output)
        },
        Some(threshold) => {
            let mut inner = McSerializer::new();
            if body.len() > threshold as usize {
                let compressed = match zlib_compress(body) {
                    Ok(c) => c,
                    Err(e) => return Err(NetworkError::IOError(e)),
                };
                write_varint(&mut inner.output, #[verifier::truncate] (body.len() as i32));
                inner.serialize_bytes(compressed.as_slice());
            } else {
                write_varint(&mut inner.output, 0);
                inner.serialize_bytes(body);
            }
            Ok(length_prefixed(inner.output.as_slice()))
        },
    }
}

/// The frame body, after the frame's length, that carries the packet `body` with the given
/// compression setting.
pub open spec fn spec_sent_frame_body(body: Seq<u8>, compression_threshold: Option<u32>) -> Seq<u8> {
    match compression_threshold {
        None => body,
        Some(t) => spec_compressed_frame_body(body, t),
    }
}

/// A packet that is framed for sending and whose frame body is then read back gives the packet
/// again, with or without compression, when decompression gives back what compression took (as
/// flate2 promises, and [`zlib_compress`] states of what it returns).
pub proof fn lemma_frame_round_trip(body: Seq<u8>, compression_threshold: Option<u32>)
    requires
        0 < body.len() <= PACKET_MAX_SIZE,
        (compression_threshold matches Some(t) && body.len() > t) ==> zlib_decompressed(zlib_compressed(body)) == Some(body),
    ensures
        spec_frame(spec_length_prefixed(body), compression_threshold)
            == Ok::<Seq<u8>, NetworkErrKind>(spec_length_prefixed(spec_sent_frame_body(body, compression_threshold))),
        spec_deserializer_buffer(compression_threshold, spec_sent_frame_body(body, compression_threshold))
            == Ok::<Seq<u8>, NetworkErrKind>(spec_length_prefixed(body)),
{
    let packet = spec_length_prefixed(body);
    lemma_varint_round_trip(body.len() as i32, body);
    assert(packet.skip(spec_varint_bytes(body.len() as i32).len() as int) == body);
    if let Some(t) = compression_threshold {
        let fb = spec_compressed_frame_body(body, t);
        if body.len() > t {
            lemma_varint_round_trip(body.len() as i32, zlib_compressed(body));
            assert(fb.skip(spec_varint_bytes(body.len() as i32).len() as int) == zlib_compressed(body));
        } else {
            lemma_varint_round_trip(0, body);
            assert(fb.skip(spec_varint_bytes(0).len() as int) == body);
        }
    }
}

/// The length prefix of a packet of at most [`PACKET_MAX_SIZE`] bytes, read one byte at a time
/// with at most 3 bytes allowed, is incomplete until its last byte and then announces that
/// length.
pub proof fn lemma_length_prefix_reads_back(packet_len: nat)
    requires
        packet_len <= PACKET_MAX_SIZE,
    ensures
        spec_varint_bytes(packet_len as i32).len() <= 3,
        forall|k: int| 0 <= k < spec_varint_bytes(packet_len as i32).len()
            ==> spec_length_prefix(#[trigger] spec_varint_bytes(packet_len as i32).take(k), 3) == Ok::<LengthPrefix, NetworkErrKind>(LengthPrefix::Incomplete),
        spec_length_prefix(spec_varint_bytes(packet_len as i32), 3) == Ok::<LengthPrefix, NetworkErrKind>(
            LengthPrefix::Complete { prefix_len: spec_varint_bytes(packet_len as i32).len() as usize, packet_len: packet_len as usize }),
{
    let b = spec_varint_bytes(packet_len as i32);
    assert(((packet_len as i32) as u32) as nat == packet_len);
    lemma_varint_encode_bytes(packet_len);
    assert(pow128(3) == 2097152) by {
        reveal_with_fuel(pow128, 4);
    }
    lemma_varint_nat_round_trip(packet_len, 3, Seq::<u8>::empty());
    assert forall|k: int| 0 <= k < b.len() implies spec_length_prefix(#[trigger] b.take(k), 3) == Ok::<LengthPrefix, NetworkErrKind>(LengthPrefix::Incomplete) by {
        if k > 0 {
            let x = b.take(k).last();
            assert(x == b[k - 1]);
            assert(x >= 128);
            assert(x & CONTINUE_BIT != 0) by (bit_vector)
                requires x >= 128u8;
        }
    }
    let last = b.last();
    assert(last & CONTINUE_BIT == 0) by (bit_vector)
        requires last < 128u8;
    lemma_varint_round_trip(packet_len as i32, Seq::<u8>::empty());
    assert(b + Seq::<u8>::empty() == b);
}

} // verus!
