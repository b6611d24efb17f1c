//! Framing: a message travels as the magic tag, its length as four
//! little-endian bytes, and the payload.

use byteorder::{ByteOrder, LittleEndian};
use vstd::prelude::*;
use vstd::slice::{slice_subrange, slice_to_vec};

verus! {

/// Seconds a reader waits for the header of the next message.
pub const HEADER_READ_TIMEOUT_SECS: u64 = 10800;

/// Seconds a reader waits for a payload whose length it already knows.
pub const PAYLOAD_READ_TIMEOUT_SECS: u64 = 10;

/// The four bytes that open every frame: `croc` in ASCII.
pub open spec fn magic() -> Seq<u8> {
    seq![0x63u8, 0x72u8, 0x6fu8, 0x63u8]
}

/// The four bytes of `n`, the least significant first.
pub open spec fn le_bytes(n: u32) -> Seq<u8> {
    seq![
        (n % 256) as u8,
        (n / 256 % 256) as u8,
        (n / 65536 % 256) as u8,
        (n / 16777216) as u8,
    ]
}

/// The number whose four bytes, the least significant first, are `bytes`.
pub open spec fn le_value(bytes: Seq<u8>) -> u32
    recommends
        bytes.len() == 4,
{
    (bytes[0] + 256 * bytes[1] + 65536 * bytes[2] + 16777216 * bytes[3]) as u32
}

/// Reading the four bytes of a number gives the number back.
pub proof fn lemma_le_round_trip(n: u32)
    ensures
        le_bytes(n).len() == 4,
        le_value(le_bytes(n)) == n,
{
}

/// Whether a payload of `len` bytes can be framed: its length fits the
/// four-byte field, and the frame's own length fits a `usize`.
pub open spec fn fits_frame(len: nat) -> bool {
    len <= u32::MAX && len + 8 <= usize::MAX
}

/// The bytes on the wire for `payload`.
pub open spec fn frame(payload: Seq<u8>) -> Seq<u8>
    recommends
        payload.len() <= u32::MAX,
{
    magic() + le_bytes(payload.len() as u32) + payload
}

/// What stands at the start of a byte stream.
pub enum Parsed {
    /// A whole frame, and what follows it.
    Frame { payload: Seq<u8>, rest: Seq<u8> },
    /// The first four bytes are not the magic tag.
    BadMagic,
    /// The stream ends before the frame does.
    Incomplete,
}

/// Reads the start of `stream` as a frame.
pub open spec fn parse(stream: Seq<u8>) -> Parsed {
    if stream.len() < 4 {
        Parsed::Incomplete
    } else if stream.subrange(0, 4) != magic() {
        Parsed::BadMagic
    } else if stream.len() < 8 {
        Parsed::Incomplete
    } else {
        let n = le_value(stream.subrange(4, 8)) as int;
        if stream.len() < 8 + n {
            Parsed::Incomplete
        } else {
            Parsed::Frame {
                payload: stream.subrange(8, 8 + n),
                rest: stream.subrange(8 + n, stream.len() as int),
            }
        }
    }
}

/// A message that was framed and sent arrives unchanged: the frame of
/// `payload`, with anything behind it, parses to `payload` and leaves what
/// was behind it.
pub proof fn lemma_frame_round_trip(payload: Seq<u8>, rest: Seq<u8>)
    requires
        payload.len() <= u32::MAX,
    ensures
        parse(frame(payload) + rest) == (Parsed::Frame { payload, rest }),
{
    let len = payload.len() as u32;
    let stream = frame(payload) + rest;
    lemma_le_round_trip(len);
    assert(stream.subrange(0, 4) =~= magic());
    assert(stream.subrange(8, 8 + len as int) =~= payload);
    assert(stream.subrange(8 + len as int, stream.len() as int) =~= rest);
}

/// Why a message could not be framed, read or sent.
#[derive(Debug, Clone, Copy, PartialEq, Eq, Structural)]
pub enum CommError {
    /// The payload is longer than a frame can say.
    TooLong,
    /// The bytes at a message boundary are not the magic tag.
    BadMagic,
    /// The bytes received so far end before the frame does.
    Incomplete,
    /// The transport took fewer bytes than the frame has.
    ShortWrite { wanted: usize, wrote: usize },
}

/// `byteorder::LittleEndian::read_u32`: the first four bytes of `buf`, read as
/// a little-endian number. It panics on fewer than four bytes.
#[verifier::external_body]
fn read_u32_le(buf: &[u8]) -> (n: u32)
    requires
        buf@.len() >= 4,
    ensures
        n == le_value(buf@.subrange(0, 4)),
{
    LittleEndian::read_u32(buf)
}

/// `byteorder::LittleEndian::write_u32` on a buffer of four bytes: the four
/// little-endian bytes of `n`.
#[verifier::external_body]
fn u32_le_bytes(n: u32) -> (bytes: [u8; 4])
    ensures
        bytes@ == le_bytes(n),
{
    let mut buf: [u8; 4] = [0u8; 4];
    LittleEndian::write_u32(&mut buf, n);
    buf
}

/// Whether the two slices hold the same bytes.
pub fn bytes_eq(a: &[u8], b: &[u8]) -> (same: bool)
    ensures
        same == (a@ == b@),
{
    if a.len() != b.len() {
        return false;
    }
    let mut i: usize = 0;
    while i < a.len()
        invariant
            i <= a.len(),
            a.len() == b.len(),
            forall|j: int| 0 <= j < i ==> a@[j] == b@[j],
        decreases a.len() - i,
    {
        if a[i] != b[i] {
            return false;
        }
        i += 1;
    }
    assert(a@ =~= b@);
    true
}

/// The frame of `message`, or `TooLong` where it has none.
pub fn encode(message: &[u8]) -> (r: Result<Vec<u8>, CommError>)
    ensures
        match r {
            Ok(bytes) => fits_frame(message@.len()) && bytes@ == frame(message@),
            Err(e) => !fits_frame(message@.len()) && e == CommError::TooLong,
        },
{
    if message.len() > u32::MAX as usize || message.len() > usize::MAX - 8 {
        return Err(CommError::TooLong);
    }
    let mut buf: Vec<u8> = Vec::new();
    buf.push(0x63u8);
    buf.push(0x72u8);
    buf.push(0x6fu8);
    buf.push(0x63u8);
    let len = u32_le_bytes(message.len() as u32);
    buf.extend_from_slice(len.as_slice());
    buf.extend_from_slice(message);
    Ok(buf)
}

/// Holds the transport to its promise that a whole frame left: `wrote` must
/// be the `wanted` count.
pub fn check_written(wanted: usize, wrote: usize) -> (r: Result<usize, CommError>)
    ensures
        r == if wrote == wanted {
            Ok::<usize, CommError>(wrote)
        } else {
            Err::<usize, CommError>(CommError::ShortWrite { wanted, wrote })
        },
{
    if wrote != wanted {
        return Err(CommError::ShortWrite { wanted, wrote });
    }
    Ok(wrote)
}

/// One end of a connection, seen as two byte queues: what the transport has
/// delivered and no message has consumed, and what was framed and the
/// transport has not taken yet. The caller moves bytes between the queues and
/// the socket.
pub struct Comm {
    addr: String,
    inbound: Vec<u8>,
    outbound: Vec<u8>,
}

/// A connection to the peer at `addr`, with nothing received or sent.
pub fn new(addr: String) -> (c: Comm)
    ensures
        c.peer() == addr@,
        c.buffered() == Seq::<u8>::empty(),
        c.pending() == Seq::<u8>::empty(),
{
    Comm { addr, inbound: Vec::new(), outbound: Vec::new() }
}

impl Comm {
    /// The peer's address, as text.
    pub closed spec fn peer(&self) -> Seq<char> {
        self.addr@
    }

    /// The bytes received and not yet consumed.
    pub closed spec fn buffered(&self) -> Seq<u8> {
        self.inbound@
    }

    /// The bytes framed and not yet taken by the transport.
    pub closed spec fn pending(&self) -> Seq<u8> {
        self.outbound@
    }

    /// The peer's address, as text.
    pub fn addr(&self) -> (a: &String)
        ensures
            a@ == self.peer(),
    {
        &self.addr
    }

    /// Takes in bytes that the transport delivered.
    pub fn feed(&mut self, bytes: &[u8])
        ensures
            final(self).buffered() == old(self).buffered() + bytes@,
            final(self).pending() == old(self).pending(),
            final(self).peer() == old(self).peer(),
    {
        self.inbound.extend_from_slice(bytes);
    }

    /// Hands the framed bytes to the transport and forgets them.
    pub fn take_pending(&mut self) -> (bytes: Vec<u8>)
        ensures
            bytes@ == old(self).pending(),
            final(self).pending() == Seq::<u8>::empty(),
            final(self).buffered() == old(self).buffered(),
            final(self).peer() == old(self).peer(),
    {
        let mut bytes: Vec<u8> = Vec::new();
        std::mem::swap(&mut bytes, &mut self.outbound);
        bytes
    }

    /// Frames `message` for sending.
    pub fn send(&mut self, message: &[u8]) -> (r: Result<(), CommError>)
        ensures
            final(self).buffered() == old(self).buffered(),
            final(self).peer() == old(self).peer(),
            match r {
                Ok(()) => fits_frame(message@.len()) && final(self).pending() == old(
                    self,
                ).pending() + frame(message@),
                Err(e) => !fits_frame(message@.len()) && e == CommError::TooLong && final(
                    self
                ).pending() == old(self).pending(),
            },
    {
        match self.write(message) {
            Ok(_) => Ok(()),
            Err(e) => Err(e),
        }
    }

    /// Frames `message` for sending and says how many bytes the frame has.
    pub fn write(&mut self, message: &[u8]) -> (r: Result<usize, CommError>)
        ensures
            final(self).buffered() == old(self).buffered(),
            final(self).peer() == old(self).peer(),
            match r {
                Ok(n) => fits_frame(message@.len()) && n == message@.len() + 8 && final(
                    self
                ).pending() == old(self).pending() + frame(message@),
                Err(e) => !fits_frame(message@.len()) && e == CommError::TooLong && final(
                    self
                ).pending() == old(self).pending(),
            },
    {
        let bytes = encode(message)?;
        self.outbound.extend_from_slice(bytes.as_slice());
        Ok(bytes.len())
    }

    /// Takes the next message from the received bytes.
    pub fn receive(&mut self) -> (r: Result<Vec<u8>, CommError>)
        ensures
            final(self).pending() == old(self).pending(),
            final(self).peer() == old(self).peer(),
            match parse(old(self).buffered()) {
                Parsed::Frame { payload, rest } => r is Ok && r->Ok_0@ == payload && final(
                    self
                ).buffered() == rest,
                Parsed::BadMagic => r == Err::<Vec<u8>, CommError>(CommError::BadMagic)
                    && final(self).buffered() == old(self).buffered(),
                Parsed::Incomplete => r == Err::<Vec<u8>, CommError>(CommError::Incomplete)
                    && final(self).buffered() == old(self).buffered(),
            },
    {
        match self.read() {
            Ok((payload, _)) => Ok(payload),
            Err(e) => Err(e),
        }
    }

    /// Takes the next message from the received bytes, with its length.
    pub fn read(&mut self) -> (r: Result<(Vec<u8>, usize), CommError>)
        ensures
            final(self).pending() == old(self).pending(),
            final(self).peer() == old(self).peer(),
            match parse(old(self).buffered()) {
                Parsed::Frame { payload, rest } => r is Ok && r->Ok_0.0@ == payload && r->Ok_0.1
                    == payload.len() && final(self).buffered() == rest,
                Parsed::BadMagic => r == Err::<(Vec<u8>, usize), CommError>(CommError::BadMagic)
                    && final(self).buffered() == old(self).buffered(),
                Parsed::Incomplete => r == Err::<(Vec<u8>, usize), CommError>(
                    CommError::Incomplete,
                ) && final(self).buffered() == old(self).buffered(),
            },
    {
        let have: usize = self.inbound.len();
        if have < 4 {
            return Err(CommError::Incomplete);
        }
        let mut tag: Vec<u8> = Vec::new();
        tag.push(0x63u8);
        tag.push(0x72u8);
        tag.push(0x6fu8);
        tag.push(0x63u8);
        assert(tag@ =~= magic());
        if !bytes_eq(slice_subrange(self.inbound.as_slice(), 0, 4), tag.as_slice()) {
            return Err(CommError::BadMagic);
        }
        if have < 8 {
            return Err(CommError::Incomplete);
        }
        let num_bytes: u32 = read_u32_le(slice_subrange(self.inbound.as_slice(), 4, 8));
        if ((have - 8) as u64) < num_bytes as u64 {
            return Err(CommError::Incomplete);
        }
        let end: usize = 8 + num_bytes as usize;
        let rest: Vec<u8> = self.inbound.split_off(end);
        let payload: Vec<u8> = slice_to_vec(slice_subrange(self.inbound.as_slice(), 8, end));
        self.inbound = rest;
        Ok((payload, num_bytes as usize))
    }

    /// Seconds to wait for the next bytes: long while the header of a message
    /// is still to come, short once its length is known.
    pub fn read_timeout(&self) -> (secs: u64)
        ensures
            secs == if self.buffered().len() < 8 {
                HEADER_READ_TIMEOUT_SECS
            } else {
                PAYLOAD_READ_TIMEOUT_SECS
            },
    {
        if self.inbound.len() < 8 {
            HEADER_READ_TIMEOUT_SECS
        } else {
            PAYLOAD_READ_TIMEOUT_SECS
        }
    }
}

} // verus!
