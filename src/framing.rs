//! Frames: a fixed-size header that holds the payload's length, then the payload.
use vstd::bytes::{spec_u64_from_le_bytes, spec_u64_to_le_bytes, lemma_auto_spec_u64_to_from_le_bytes};
use vstd::prelude::*;
use vstd::slice::{slice_subrange, slice_to_vec};

verus! {

/// Number of bytes in an encoded [`PacketHeader`].
pub const HEADER_SIZE: usize = 8;

#[verifier::external_type_specification]
#[verifier::external_body]
pub struct ExBincodeErrorKind(bincode::ErrorKind);

/// The header written in front of every payload.
#[derive(Debug)]
pub struct PacketHeader {
    pub size: usize,
}

impl PacketHeader {
    pub fn new(size: usize) -> (r: PacketHeader)
        ensures
            r.size == size,
    {
        PacketHeader { size }
    }
}

/// What can go wrong while moving frames over a stream.
#[derive(Debug)]
pub enum SocketError {
    /// No data (or not a whole frame) is available yet: try again later.
    WouldBlock,
    /// The stream failed or ended; the text describes the cause.
    Io(String),
    /// A value could not be serialized.
    Encoding(Box<bincode::ErrorKind>),
    /// Bytes could not be read back as the expected value.
    Decoding(Box<bincode::ErrorKind>),
    /// An encoded header did not have exactly `HEADER_SIZE` bytes.
    FramingInvariantViolation,
    /// A header announced more payload bytes than this machine can address.
    SizeOutOfRange(u64),
}

impl SocketError {
    /// Whether the error only means "nothing to read yet".
    pub fn is_transient(&self) -> (r: bool)
        ensures
            r == (*self is WouldBlock),
    {
        match self {
            SocketError::WouldBlock => true,
            _ => false,
        }
    }
}

/// The bytes of the header announcing a payload of `size` bytes.
pub open spec fn header_bytes(size: usize) -> Seq<u8> {
    spec_u64_to_le_bytes(size as u64)
}

/// The payload length that a header's bytes announce (its first eight bytes).
pub open spec fn header_value(bytes: Seq<u8>) -> u64 {
    spec_u64_from_le_bytes(bytes.subrange(0, HEADER_SIZE as int))
}

/// Relies on bincode::serialize: with its default options a u64 is written as
/// its eight little-endian bytes into a growable buffer without a size limit,
/// which cannot fail.
#[verifier::external_body]
fn bincode_u64_bytes(v: u64) -> (r: Result<Vec<u8>, Box<bincode::ErrorKind>>)
    ensures
        r is Ok,
        r is Ok ==> r->Ok_0@ == spec_u64_to_le_bytes(v),
{
    bincode::serialize(&v)
}

/// Relies on bincode::deserialize::<u64>: with its default options it reads
/// the first eight bytes as a little-endian u64, accepts trailing bytes, and
/// fails when fewer than eight bytes are given.
#[verifier::external_body]
fn bincode_u64_from(bytes: &[u8]) -> (r: Result<u64, Box<bincode::ErrorKind>>)
    ensures
        r is Ok <==> bytes@.len() >= 8,
        r is Ok ==> r->Ok_0 == spec_u64_from_le_bytes(bytes@.subrange(0, 8)),
{
    bincode::deserialize::<u64>(bytes)
}

/// Encodes a header. The result always has `HEADER_SIZE` bytes; a length
/// other than that would be reported as `FramingInvariantViolation`.
pub fn encode_header(header: &PacketHeader) -> (r: Result<Vec<u8>, SocketError>)
    ensures
        r is Ok,
        r is Ok ==> r->Ok_0@ == header_bytes(header.size),
        r is Ok ==> r->Ok_0@.len() == HEADER_SIZE,
{
    proof {
        lemma_auto_spec_u64_to_from_le_bytes();
    }
    match bincode_u64_bytes(header.size as u64) {
        Ok(bytes) => {
            if bytes.len() != HEADER_SIZE {
                Err(SocketError::FramingInvariantViolation)
            } else {
                Ok(bytes)
            }
        },
        Err(e) => Err(SocketError::Encoding(e)),
    }
}

/// Decodes the header at the start of `bytes`; later bytes are ignored.
pub fn decode_header(bytes: &[u8]) -> (r: Result<PacketHeader, SocketError>)
    ensures
        r is Ok <==> bytes@.len() >= HEADER_SIZE && header_value(bytes@) <= usize::MAX,
        r is Ok ==> r->Ok_0.size == header_value(bytes@),
        bytes@.len() < HEADER_SIZE ==> r is Err && r->Err_0 is Decoding,
        bytes@.len() >= HEADER_SIZE && header_value(bytes@) > usize::MAX ==> r is Err
            && r->Err_0 == SocketError::SizeOutOfRange(header_value(bytes@)),
{
    match bincode_u64_from(bytes) {
        Ok(v) => {
            if v > usize::MAX as u64 {
                Err(SocketError::SizeOutOfRange(v))
            } else {
                Ok(PacketHeader::new(v as usize))
            }
        },
        Err(e) => Err(SocketError::Decoding(e)),
    }
}

/// The bytes of one whole frame carrying `payload`.
pub open spec fn frame_bytes(payload: Seq<u8>) -> Seq<u8> {
    header_bytes(payload.len() as usize) + payload
}

/// Whether `input` starts with a header and the whole payload it announces.
pub open spec fn holds_frame(input: Seq<u8>) -> bool {
    &&& input.len() >= HEADER_SIZE
    &&& header_value(input) <= input.len() - HEADER_SIZE
}

/// Number of bytes taken by the frame at the start of `input`.
pub open spec fn frame_len(input: Seq<u8>) -> int {
    HEADER_SIZE + header_value(input)
}

/// Builds the frame for `payload`: its header, then the payload itself.
pub fn encode_frame(payload: &[u8]) -> (r: Result<Vec<u8>, SocketError>)
    ensures
        r is Ok,
        r is Ok ==> r->Ok_0@ == frame_bytes(payload@),
{
    let header = PacketHeader::new(payload.len());
    match encode_header(&header) {
        Ok(bytes) => {
            let mut frame = bytes;
            let mut i: usize = 0;
            while i < payload.len()
                invariant
                    i <= payload@.len(),
                    frame@ == header_bytes(payload@.len() as usize) + payload@.subrange(0, i as int),
                decreases payload@.len() - i,
            {
                frame.push(payload[i]);
                i = i + 1;
                proof {
                    assert(payload@.subrange(0, i as int) == payload@.subrange(0, i - 1) + seq![
                        payload@[i - 1],
                    ]);
                }
            }
            proof {
                assert(payload@.subrange(0, payload@.len() as int) == payload@);
            }
            Ok(frame)
        },
        Err(e) => Err(e),
    }
}

/// Takes the first frame off `input`, the bytes received so far on a stream;
/// `closed` tells whether the stream has ended, so that no more will come.
/// On success it returns the frame's payload and the number of bytes that
/// the frame took. Without a whole frame the answer is `WouldBlock` while the
/// stream is open, and an `Io` error once it is closed.
pub fn read_frame(input: &[u8], closed: bool) -> (r: Result<(Vec<u8>, usize), SocketError>)
    ensures
        r is Ok <==> holds_frame(input@),
        r is Ok ==> r->Ok_0.1 == frame_len(input@),
        r is Ok ==> r->Ok_0.0@ == input@.subrange(HEADER_SIZE as int, frame_len(input@)),
        !holds_frame(input@) && !closed ==> r is Err && r->Err_0 is WouldBlock,
        !holds_frame(input@) && closed ==> r is Err && r->Err_0 is Io,
{
    let len = input.len();
    match decode_header(input) {
        Ok(header) => {
            let available = len - HEADER_SIZE;
            if header.size <= available {
                let end = HEADER_SIZE + header.size;
                let payload = slice_to_vec(slice_subrange(input, HEADER_SIZE, end));
                Ok((payload, end))
            } else {
                incomplete(closed)
            }
        },
        Err(_) => incomplete(closed),
    }
}

/// The answer when no whole frame is available yet.
fn incomplete(closed: bool) -> (r: Result<(Vec<u8>, usize), SocketError>)
    ensures
        r is Err,
        closed ==> r->Err_0 is Io,
        !closed ==> r->Err_0 is WouldBlock,
{
    if closed {
        Err(SocketError::Io(String::from_str("the stream ended inside a frame")))
    } else {
        Err(SocketError::WouldBlock)
    }
}

/// The header of any payload length encodes to exactly `HEADER_SIZE` bytes.
pub proof fn lemma_header_size(size: usize)
    ensures
        header_bytes(size).len() == HEADER_SIZE,
{
    lemma_auto_spec_u64_to_from_le_bytes();
}

/// Decoding an encoded header gives back the payload length it was made for.
pub proof fn lemma_header_round_trip(size: usize)
    ensures
        header_value(header_bytes(size)) == size,
{
    lemma_auto_spec_u64_to_from_le_bytes();
    assert(header_bytes(size).subrange(0, HEADER_SIZE as int) == header_bytes(size));
}

/// A frame read back from a stream gives the payload it was built from and
/// takes exactly `HEADER_SIZE` plus the payload's length bytes, whatever
/// bytes follow it.
pub proof fn lemma_frame_round_trip(payload: Seq<u8>, rest: Seq<u8>)
    requires
        payload.len() <= usize::MAX,
    ensures
        holds_frame(frame_bytes(payload) + rest),
        frame_len(frame_bytes(payload) + rest) == HEADER_SIZE + payload.len(),
        (frame_bytes(payload) + rest).subrange(HEADER_SIZE as int, frame_len(frame_bytes(payload) + rest))
            == payload,
{
    let size = payload.len() as usize;
    let all = frame_bytes(payload) + rest;
    lemma_header_size(size);
    lemma_header_round_trip(size);
    assert(all.subrange(0, HEADER_SIZE as int) == header_bytes(size).subrange(0, HEADER_SIZE as int));
    assert(all.subrange(HEADER_SIZE as int, HEADER_SIZE + payload.len()) == payload);
}

/// Two frames sent back to back on one stream are read back one after the
/// other: the first read takes exactly the first frame, and what is left
/// starts with the second.
pub proof fn lemma_frames_in_order(first: Seq<u8>, second: Seq<u8>)
    requires
        first.len() <= usize::MAX,
        second.len() <= usize::MAX,
    ensures
        ({
            let stream = frame_bytes(first) + frame_bytes(second);
            let taken = frame_len(stream);
            &&& holds_frame(stream)
            &&& taken == HEADER_SIZE + first.len()
            &&& stream.subrange(HEADER_SIZE as int, taken) == first
            &&& stream.subrange(taken, stream.len() as int) == frame_bytes(second)
        }),
{
    let stream = frame_bytes(first) + frame_bytes(second);
    lemma_frame_round_trip(first, frame_bytes(second));
    lemma_header_size(first.len() as usize);
    assert(stream.subrange(HEADER_SIZE + first.len(), stream.len() as int) == frame_bytes(second));
}

} // verus!
