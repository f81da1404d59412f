//! Length-delimited framing of the local socket.
//!
//! A frame is a four-byte big-endian length followed by that many payload
//! bytes. The length counts the payload only: there is no offset before the
//! length field and no adjustment of its value. A payload is at most
//! [`MAX_FRAME_LENGTH`] bytes long; a longer one is a protocol error that ends
//! the connection it arrived on.

use vstd::prelude::*;

verus! {

/// Number of bytes of the length prefix.
pub const HEADER_LENGTH: usize = 4;

/// Largest payload a frame may carry: 64 MiB.
pub const MAX_FRAME_LENGTH: usize = 67108864;

/// Why a frame was refused.
#[derive(Clone, Copy, Debug, PartialEq, Eq, Structural)]
pub enum FrameError {
    /// The payload, or the length that a prefix announces, is over
    /// [`MAX_FRAME_LENGTH`].
    FrameTooLong { length: u64 },
}

/// What the head of a byte stream holds.
pub enum FrameStatus {
    /// Not enough bytes yet for a whole frame.
    Incomplete,
    /// A whole frame: its payload, and the number of bytes it takes up.
    Frame { payload: Seq<u8>, consumed: nat },
    /// The prefix announces more than [`MAX_FRAME_LENGTH`] bytes.
    TooLong { length: nat },
}

/// The four bytes, most significant first, of a length below 2^32.
pub open spec fn spec_length_prefix(len: nat) -> Seq<u8> {
    seq![
        ((len / 16777216) % 256) as u8,
        ((len / 65536) % 256) as u8,
        ((len / 256) % 256) as u8,
        (len % 256) as u8,
    ]
}

/// The length that the first four bytes of `bytes` announce.
pub open spec fn spec_prefix_value(bytes: Seq<u8>) -> nat
    recommends
        bytes.len() >= 4,
{
    (bytes[0] as nat) * 16777216 + (bytes[1] as nat) * 65536 + (bytes[2] as nat) * 256 + (
    bytes[3] as nat)
}

/// The frame that carries `payload`.
pub open spec fn spec_frame(payload: Seq<u8>) -> Seq<u8> {
    spec_length_prefix(payload.len()) + payload
}

/// What a reader finds at the head of `bytes`.
pub open spec fn spec_decode(bytes: Seq<u8>) -> FrameStatus {
    if bytes.len() < 4 {
        FrameStatus::Incomplete
    } else {
        let length = spec_prefix_value(bytes);
        if length > MAX_FRAME_LENGTH {
            FrameStatus::TooLong { length }
        } else if bytes.len() < 4 + length {
            FrameStatus::Incomplete
        } else {
            FrameStatus::Frame { payload: bytes.subrange(4, 4 + length as int), consumed: 4 + length }
        }
    }
}

/// Writes the length prefix of a payload of `len` bytes.
pub fn length_prefix(len: u32) -> (prefix: [u8; 4])
    ensures
        prefix@ == spec_length_prefix(len as nat),
{
    let b0: u8 = ((len / 16777216) % 256) as u8;
    let b1: u8 = ((len / 65536) % 256) as u8;
    let b2: u8 = ((len / 256) % 256) as u8;
    let b3: u8 = (len % 256) as u8;
    let prefix: [u8; 4] = [b0, b1, b2, b3];
    assert(prefix@ =~= spec_length_prefix(len as nat));
    prefix
}

/// Reads the length that the first four bytes of `bytes` announce.
pub fn prefix_value(bytes: &[u8]) -> (len: u32)
    requires
        bytes@.len() >= 4,
    ensures
        len == spec_prefix_value(bytes@),
{
    let b0: u32 = bytes[0] as u32;
    let b1: u32 = bytes[1] as u32;
    let b2: u32 = bytes[2] as u32;
    let b3: u32 = bytes[3] as u32;
    b0 * 16777216 + b1 * 65536 + b2 * 256 + b3
}

/// Copies `bytes[from..to]` into a vector of its own.
fn copy_range(bytes: &[u8], from: usize, to: usize) -> (out: Vec<u8>)
    requires
        from <= to <= bytes@.len(),
    ensures
        out@ == bytes@.subrange(from as int, to as int),
{
    let mut out: Vec<u8> = Vec::new();
    let mut i: usize = from;
    while i < to
        invariant
            from <= i <= to <= bytes@.len(),
            out@ == bytes@.subrange(from as int, i as int),
        decreases to - i,
    {
        out.push(bytes[i]);
        i = i + 1;
        assert(out@ =~= bytes@.subrange(from as int, i as int));
    }
    out
}

/// Frames `payload`: the length prefix, then the payload itself.
///
/// A payload over [`MAX_FRAME_LENGTH`] bytes is refused, and nothing else is.
pub fn encode_frame(payload: &[u8]) -> (result: Result<Vec<u8>, FrameError>)
    ensures
        payload@.len() <= MAX_FRAME_LENGTH ==> result is Ok && result->Ok_0@ == spec_frame(
            payload@,
        ),
        payload@.len() > MAX_FRAME_LENGTH ==> result == Err::<Vec<u8>, FrameError>(
            FrameError::FrameTooLong { length: payload@.len() as u64 },
        ),
{
    let len: usize = payload.len();
    if len > MAX_FRAME_LENGTH {
        return Err(FrameError::FrameTooLong { length: len as u64 });
    }
    let prefix: [u8; 4] = length_prefix(len as u32);
    let mut frame: Vec<u8> = Vec::new();
    frame.push(prefix[0]);
    frame.push(prefix[1]);
    frame.push(prefix[2]);
    frame.push(prefix[3]);
    assert(frame@ =~= spec_length_prefix(len as nat));
    let mut i: usize = 0;
    while i < len
        invariant
            len == payload@.len(),
            i <= len,
            frame@ == spec_length_prefix(len as nat) + payload@.subrange(0, i as int),
        decreases len - i,
    {
        frame.push(payload[i]);
        i = i + 1;
        assert(frame@ =~= spec_length_prefix(len as nat) + payload@.subrange(0, i as int));
    }
    assert(payload@.subrange(0, len as int) =~= payload@);
    Ok(frame)
}

/// Reads the frame at the head of `bytes`, if a whole one is there.
///
/// Returns the payload together with the number of bytes that the frame
/// takes up, `None` while the frame is not complete, and an error where the
/// prefix announces more than [`MAX_FRAME_LENGTH`] bytes.
pub fn decode_frame(bytes: &[u8]) -> (result: Result<Option<(Vec<u8>, usize)>, FrameError>)
    ensures
        match spec_decode(bytes@) {
            FrameStatus::Incomplete => result == Ok::<Option<(Vec<u8>, usize)>, FrameError>(None),
            FrameStatus::Frame { payload, consumed } => {
                &&& result is Ok
                &&& result->Ok_0 is Some
                &&& result->Ok_0->Some_0.0@ == payload
                &&& result->Ok_0->Some_0.1 == consumed
            },
            FrameStatus::TooLong { length } => result == Err::<Option<(Vec<u8>, usize)>, FrameError>(
                FrameError::FrameTooLong { length: length as u64 },
            ),
        },
{
    if bytes.len() < HEADER_LENGTH {
        return Ok(None);
    }
    let announced: u32 = prefix_value(bytes);
    if announced as u64 > MAX_FRAME_LENGTH as u64 {
        return Err(FrameError::FrameTooLong { length: announced as u64 });
    }
    let length: usize = announced as usize;
    if bytes.len() - HEADER_LENGTH < length {
        return Ok(None);
    }
    let end: usize = HEADER_LENGTH + length;
    let payload: Vec<u8> = copy_range(bytes, HEADER_LENGTH, end);
    Ok(Some((payload, end)))
}

/// The bytes of one connection that have arrived and belong to no frame yet.
pub struct FrameDecoder {
    buffer: Vec<u8>,
}

impl View for FrameDecoder {
    type V = Seq<u8>;

    /// The bytes waiting to be framed, oldest first.
    closed spec fn view(&self) -> Seq<u8> {
        self.buffer@
    }
}

impl FrameDecoder {
    /// A decoder that has seen no bytes.
    pub fn new() -> (decoder: FrameDecoder)
        ensures
            decoder@ == Seq::<u8>::empty(),
    {
        FrameDecoder { buffer: Vec::new() }
    }

    /// Number of bytes waiting.
    pub fn pending(&self) -> (n: usize)
        ensures
            n == self@.len(),
    {
        self.buffer.len()
    }

    /// Takes in bytes as they arrive from the socket.
    pub fn extend(&mut self, bytes: &[u8])
        ensures
            final(self)@ == old(self)@ + bytes@,
    {
        let mut i: usize = 0;
        while i < bytes.len()
            invariant
                i <= bytes@.len(),
                self.buffer@ == old(self).buffer@ + bytes@.subrange(0, i as int),
            decreases bytes@.len() - i,
        {
            self.buffer.push(bytes[i]);
            i = i + 1;
            assert(self.buffer@ =~= old(self).buffer@ + bytes@.subrange(0, i as int));
        }
        assert(bytes@.subrange(0, bytes@.len() as int) =~= bytes@);
    }

    /// Hands out the next whole frame and drops its bytes from the buffer.
    ///
    /// While the frame at the head is incomplete, and after a prefix that
    /// announces too much, the buffer stays as it is.
    pub fn next_frame(&mut self) -> (result: Result<Option<Vec<u8>>, FrameError>)
        ensures
            match spec_decode(old(self)@) {
                FrameStatus::Incomplete => {
                    &&& result == Ok::<Option<Vec<u8>>, FrameError>(None)
                    &&& final(self)@ == old(self)@
                },
                FrameStatus::Frame { payload, consumed } => {
                    &&& result is Ok
                    &&& result->Ok_0 is Some
                    &&& result->Ok_0->Some_0@ == payload
                    &&& final(self)@ == old(self)@.skip(consumed as int)
                },
                FrameStatus::TooLong { length } => {
                    &&& result == Err::<Option<Vec<u8>>, FrameError>(
                        FrameError::FrameTooLong { length: length as u64 },
                    )
                    &&& final(self)@ == old(self)@
                },
            },
    {
        if self.buffer.len() < HEADER_LENGTH {
            return Ok(None);
        }
        let announced: u32 = prefix_value(self.buffer.as_slice());
        if announced as u64 > MAX_FRAME_LENGTH as u64 {
            return Err(FrameError::FrameTooLong { length: announced as u64 });
        }
        let length: usize = announced as usize;
        if self.buffer.len() - HEADER_LENGTH < length {
            return Ok(None);
        }
        let end: usize = HEADER_LENGTH + length;
        let rest: Vec<u8> = self.buffer.split_off(end);
        let payload: Vec<u8> = self.buffer.split_off(HEADER_LENGTH);
        self.buffer = rest;
        proof {
            assert(payload@ =~= old(self)@.subrange(4, 4 + length as int));
            assert(self.buffer@ =~= old(self)@.skip(end as int));
        }
        Ok(Some(payload))
    }
}

/// A length below 2^32 is read back from its prefix, whatever follows it.
pub proof fn lemma_prefix_round_trip(len: nat, rest: Seq<u8>)
    requires
        len < 4294967296,
    ensures
        spec_prefix_value(spec_length_prefix(len) + rest) == len,
{
    let prefix = spec_length_prefix(len);
    let bytes = prefix + rest;
    assert(bytes[0] == prefix[0]);
    assert(bytes[1] == prefix[1]);
    assert(bytes[2] == prefix[2]);
    assert(bytes[3] == prefix[3]);
}

/// Decoding undoes encoding: at the head of a frame followed by any bytes, a
/// reader finds the payload that was framed and consumes the frame exactly.
pub proof fn lemma_frame_round_trip(payload: Seq<u8>, rest: Seq<u8>)
    requires
        payload.len() <= MAX_FRAME_LENGTH,
    ensures
        spec_decode(spec_frame(payload) + rest) == (FrameStatus::Frame {
            payload,
            consumed: 4 + payload.len(),
        }),
{
    let bytes = spec_frame(payload) + rest;
    assert(bytes =~= spec_length_prefix(payload.len()) + (payload + rest));
    lemma_prefix_round_trip(payload.len(), payload + rest);
    assert(bytes.subrange(4, 4 + payload.len() as int) =~= payload);
}

/// Frames come out in the order they went in: after the first of two frames
/// is read, the stream begins with the second.
pub proof fn lemma_frames_keep_their_order(first: Seq<u8>, second: Seq<u8>, rest: Seq<u8>)
    requires
        first.len() <= MAX_FRAME_LENGTH,
        second.len() <= MAX_FRAME_LENGTH,
    ensures
        spec_decode(spec_frame(first) + spec_frame(second) + rest) == (FrameStatus::Frame {
            payload: first,
            consumed: 4 + first.len(),
        }),
        spec_decode(
            (spec_frame(first) + spec_frame(second) + rest).skip(4 + first.len() as int),
        ) == (FrameStatus::Frame { payload: second, consumed: 4 + second.len() }),
{
    let head = spec_frame(first);
    let tail = spec_frame(second) + rest;
    lemma_frame_length(first);
    lemma_split_stream(head, spec_frame(second), rest);
    lemma_frame_round_trip(first, tail);
    lemma_frame_round_trip(second, rest);
}

/// A frame is four bytes longer than its payload.
pub proof fn lemma_frame_length(payload: Seq<u8>)
    ensures
        spec_frame(payload).len() == 4 + payload.len(),
{
}

/// A stream of three parts is its first part followed by the rest, and the
/// rest is what remains once the first part is skipped.
proof fn lemma_split_stream(head: Seq<u8>, middle: Seq<u8>, rest: Seq<u8>)
    ensures
        head + middle + rest == head + (middle + rest),
        (head + middle + rest).skip(head.len() as int) == middle + rest,
{
    assert(head + middle + rest =~= head + (middle + rest));
    assert((head + middle + rest).skip(head.len() as int) =~= middle + rest);
}

/// A payload of exactly [`MAX_FRAME_LENGTH`] bytes is framed and read back;
/// a prefix that announces one byte more is refused however many bytes
/// follow it.
pub proof fn lemma_frame_length_boundary(payload: Seq<u8>, rest: Seq<u8>)
    ensures
        payload.len() == MAX_FRAME_LENGTH ==> spec_decode(spec_frame(payload)) == (
        FrameStatus::Frame { payload, consumed: 4 + payload.len() }),
        spec_decode(spec_length_prefix((MAX_FRAME_LENGTH + 1) as nat) + rest) == (
        FrameStatus::TooLong { length: (MAX_FRAME_LENGTH + 1) as nat }),
{
    if payload.len() == MAX_FRAME_LENGTH {
        lemma_frame_round_trip(payload, Seq::<u8>::empty());
        assert(spec_frame(payload) + Seq::<u8>::empty() =~= spec_frame(payload));
    }
    lemma_prefix_round_trip((MAX_FRAME_LENGTH + 1) as nat, rest);
}

/// What is refused is decided by the announced length alone: a prefix is
/// refused exactly when it announces more than [`MAX_FRAME_LENGTH`] bytes.
pub proof fn lemma_refused_iff_too_long(bytes: Seq<u8>)
    requires
        bytes.len() >= 4,
    ensures
        spec_decode(bytes) is TooLong <==> spec_prefix_value(bytes) > MAX_FRAME_LENGTH,
{
}

} // verus!
