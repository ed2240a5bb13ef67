//! Length-delimited framing of the integrations protocol.
//!
//! Every message travels as a frame: a four byte big-endian length followed by
//! that many bytes of body. Frames whose declared length exceeds
//! [`MAX_FRAME_LENGTH`] are refused as soon as the header is complete, before
//! any part of the body is looked at or buffered.

use vstd::prelude::*;
use vstd::slice::{slice_subrange, slice_to_vec};

verus! {

/// Largest body a frame may carry, in bytes (4 MiB).
pub const MAX_FRAME_LENGTH: usize = 4194304;

/// Number of bytes of the length prefix.
pub const FRAME_HEADER_SIZE: usize = 4;

/// Why a buffer or a body cannot be framed.
#[derive(Debug, Clone, Copy, PartialEq, Eq, Structural)]
pub enum FrameError {
    /// The length is larger than [`MAX_FRAME_LENGTH`].
    FrameTooLarge { length: usize },
}

/// The value of a four byte big-endian length prefix.
pub open spec fn header_value(header: Seq<u8>) -> nat
    recommends
        header.len() >= 4,
{
    (header[0] as nat) * 16777216 + (header[1] as nat) * 65536 + (header[2] as nat) * 256 + (
    header[3] as nat)
}

/// The four byte big-endian length prefix of a body of `length` bytes.
pub open spec fn header_of(length: nat) -> Seq<u8>
    recommends
        length <= MAX_FRAME_LENGTH,
{
    seq![
        (length / 16777216) as u8,
        ((length / 65536) % 256) as u8,
        ((length / 256) % 256) as u8,
        (length % 256) as u8,
    ]
}

/// The bytes of the frame that carries `body`.
pub open spec fn frame_of(body: Seq<u8>) -> Seq<u8> {
    header_of(body.len()) + body
}

/// What the start of a byte stream holds.
pub enum FrameStep {
    /// The buffer ends before the header or the body is complete.
    Incomplete,
    /// A whole frame: its body, and the number of bytes it takes up in the buffer.
    Frame { body: Seq<u8>, consumed: nat },
    /// The header declares a body larger than [`MAX_FRAME_LENGTH`].
    TooLarge { length: nat },
}

/// Reading of the first frame of `buffer`.
pub open spec fn first_frame(buffer: Seq<u8>) -> FrameStep {
    if buffer.len() < FRAME_HEADER_SIZE {
        FrameStep::Incomplete
    } else if header_value(buffer) > MAX_FRAME_LENGTH {
        FrameStep::TooLarge { length: header_value(buffer) }
    } else if buffer.len() < FRAME_HEADER_SIZE + header_value(buffer) {
        FrameStep::Incomplete
    } else {
        FrameStep::Frame {
            body: buffer.subrange(
                FRAME_HEADER_SIZE as int,
                FRAME_HEADER_SIZE + header_value(buffer),
            ),
            consumed: (FRAME_HEADER_SIZE + header_value(buffer)) as nat,
        }
    }
}

/// Reads the length prefix at the start of `buffer`.
fn read_header(buffer: &[u8]) -> (length: usize)
    requires
        buffer@.len() >= FRAME_HEADER_SIZE,
    ensures
        length == header_value(buffer@),
{
    let b0: u32 = buffer[0] as u32;
    let b1: u32 = buffer[1] as u32;
    let b2: u32 = buffer[2] as u32;
    let b3: u32 = buffer[3] as u32;
    let value: u32 = b0 * 16777216 + b1 * 65536 + b2 * 256 + b3;
    value as usize
}

/// Writes the length prefix of a body of `length` bytes.
fn write_header(length: usize) -> (header: Vec<u8>)
    requires
        length <= MAX_FRAME_LENGTH,
    ensures
        header@ == header_of(length as nat),
{
    let mut header: Vec<u8> = Vec::new();
    header.push((length / 16777216) as u8);
    header.push(((length / 65536) % 256) as u8);
    header.push(((length / 256) % 256) as u8);
    header.push((length % 256) as u8);
    assert(header@ =~= header_of(length as nat));
    header
}


/// Looks for a whole frame at the start of `buffer`.
///
/// Returns the body and the number of bytes the frame occupies, `None` while
/// the frame is incomplete, and an error as soon as the header declares more
/// than [`MAX_FRAME_LENGTH`] bytes, whether or not any of the body has arrived.
pub fn decode_frame(buffer: &[u8]) -> (result: Result<Option<(Vec<u8>, usize)>, FrameError>)
    ensures
        match first_frame(buffer@) {
            FrameStep::Incomplete => result matches Ok(None),
            FrameStep::Frame { body, consumed } => result matches Ok(Some((b, c))) && b@ == body
                && c == consumed,
            FrameStep::TooLarge { length } => result matches Err(
                FrameError::FrameTooLarge { length: l },
            ) && l == length,
        },
{
    if buffer.len() < FRAME_HEADER_SIZE {
        return Ok(None);
    }
    let length = read_header(buffer);
    if length > MAX_FRAME_LENGTH {
        return Err(FrameError::FrameTooLarge { length });
    }
    if buffer.len() - FRAME_HEADER_SIZE < length {
        return Ok(None);
    }
    let end = FRAME_HEADER_SIZE + length;
    let body = slice_to_vec(slice_subrange(buffer, FRAME_HEADER_SIZE, end));
    Ok(Some((body, end)))
}

/// Frames `body`: the length prefix followed by the body itself.
///
/// Fails, writing nothing, when the body is longer than [`MAX_FRAME_LENGTH`].
pub fn encode_frame(body: &[u8]) -> (result: Result<Vec<u8>, FrameError>)
    ensures
        body@.len() <= MAX_FRAME_LENGTH ==> (result matches Ok(frame) && frame@ == frame_of(body@)),
        body@.len() > MAX_FRAME_LENGTH ==> (result matches Err(
            FrameError::FrameTooLarge { length },
        ) && length == body@.len()),
{
    let length = body.len();
    if length > MAX_FRAME_LENGTH {
        return Err(FrameError::FrameTooLarge { length });
    }
    let mut frame = write_header(length);
    let mut i: usize = 0;
    while i < length
        invariant
            length == body@.len(),
            i <= length,
            frame@ == header_of(length as nat) + body@.subrange(0, i as int),
        decreases length - i,
    {
        frame.push(body[i]);
        i += 1;
        assert(frame@ =~= header_of(length as nat) + body@.subrange(0, i as int));
    }
    assert(body@.subrange(0, length as int) =~= body@);
    Ok(frame)
}

/// The length prefix written for a length reads back as that length.
pub proof fn lemma_header_round_trip(length: nat)
    requires
        length <= MAX_FRAME_LENGTH,
    ensures
        header_of(length).len() == FRAME_HEADER_SIZE,
        header_value(header_of(length)) == length,
{
}

/// A frame followed by anything decodes to its body and leaves the rest.
pub proof fn lemma_frame_round_trip(body: Seq<u8>, rest: Seq<u8>)
    requires
        body.len() <= MAX_FRAME_LENGTH,
    ensures
        first_frame(frame_of(body) + rest) == (FrameStep::Frame {
            body,
            consumed: frame_of(body).len(),
        }),
        (frame_of(body) + rest).subrange(frame_of(body).len() as int, (frame_of(body) + rest).len() as int)
            == rest,
{
    let buffer = frame_of(body) + rest;
    lemma_header_round_trip(body.len());
    assert(header_value(buffer) == header_value(header_of(body.len())));
    assert(buffer.subrange(FRAME_HEADER_SIZE as int, FRAME_HEADER_SIZE + body.len()) =~= body);
    assert(buffer.subrange(frame_of(body).len() as int, buffer.len() as int) =~= rest);
}

/// A header that declares too much is refused whatever follows it, and in
/// particular before any byte of the body is present.
pub proof fn lemma_oversize_rejected(header: Seq<u8>, rest: Seq<u8>)
    requires
        header.len() == FRAME_HEADER_SIZE,
        header_value(header) > MAX_FRAME_LENGTH,
    ensures
        first_frame(header + rest) == (FrameStep::TooLarge { length: header_value(header) }),
{
    assert(header_value(header + rest) == header_value(header));
}

/// The bodies of the whole frames at the start of `buffer`, in order, up to
/// the first incomplete or oversized frame.
pub open spec fn frames_in(buffer: Seq<u8>) -> Seq<Seq<u8>>
    decreases buffer.len(),
{
    match first_frame(buffer) {
        FrameStep::Frame { body, consumed } => seq![body] + frames_in(
            buffer.subrange(consumed as int, buffer.len() as int),
        ),
        _ => Seq::empty(),
    }
}

/// The byte stream made of the frames of `bodies`, one after the other.
pub open spec fn stream_of(bodies: Seq<Seq<u8>>) -> Seq<u8>
    decreases bodies.len(),
{
    if bodies.len() == 0 {
        Seq::empty()
    } else {
        frame_of(bodies[0]) + stream_of(bodies.drop_first())
    }
}

/// Frames written back to back are read back one by one, in the order written.
pub proof fn lemma_stream_round_trip(bodies: Seq<Seq<u8>>)
    requires
        forall|i: int| 0 <= i < bodies.len() ==> (#[trigger] bodies[i]).len() <= MAX_FRAME_LENGTH,
    ensures
        frames_in(stream_of(bodies)) == bodies,
    decreases bodies.len(),
{
    if bodies.len() == 0 {
        assert(frames_in(stream_of(bodies)) =~= bodies);
    } else {
        let rest = stream_of(bodies.drop_first());
        lemma_frame_round_trip(bodies[0], rest);
        assert forall|i: int| 0 <= i < bodies.drop_first().len() implies (
        #[trigger] bodies.drop_first()[i]).len() <= MAX_FRAME_LENGTH by {
            assert(bodies.drop_first()[i] == bodies[i + 1]);
        }
        lemma_stream_round_trip(bodies.drop_first());
        assert(frames_in(stream_of(bodies)) =~= seq![bodies[0]] + bodies.drop_first());
        assert(seq![bodies[0]] + bodies.drop_first() =~= bodies);
    }
}

/// Reassembles frames from a byte stream that arrives in arbitrary pieces.
pub struct FrameDecoder {
    buffer: Vec<u8>,
}

impl View for FrameDecoder {
    type V = Seq<u8>;

    /// The bytes received and not yet handed out as part of a frame.
    closed spec fn view(&self) -> Seq<u8> {
        self.buffer@
    }
}

impl FrameDecoder {
    /// A decoder that has received nothing.
    pub fn new() -> (decoder: FrameDecoder)
        ensures
            decoder@ == Seq::<u8>::empty(),
    {
        FrameDecoder { buffer: Vec::new() }
    }

    /// Number of bytes held back.
    pub fn buffered(&self) -> (n: usize)
        ensures
            n == self@.len(),
    {
        self.buffer.len()
    }

    /// Takes in the next piece of the stream.
    pub fn extend(&mut self, bytes: &[u8])
        ensures
            final(self)@ == old(self)@ + bytes@,
    {
        let mut i: usize = 0;
        while i < bytes.len()
            invariant
                i <= bytes@.len(),
                self.buffer@ == old(self).buffer@ + bytes@.subrange(0, i as int),
            decreases bytes@.len() - i,
        {
            self.buffer.push(bytes[i]);
            i += 1;
            assert(self.buffer@ =~= old(self).buffer@ + bytes@.subrange(0, i as int));
        }
        assert(bytes@.subrange(0, bytes@.len() as int) =~= bytes@);
    }

    /// Hands out the next whole frame, if one has arrived.
    ///
    /// An incomplete frame leaves the decoder as it was. An oversized header
    /// is an error, and the decoder is left as it was: no later call gets past
    /// that header.
    pub fn next_frame(&mut self) -> (result: Result<Option<Vec<u8>>, FrameError>)
        ensures
            match first_frame(old(self)@) {
                FrameStep::Incomplete => result matches Ok(None) && final(self)@ == old(self)@,
                FrameStep::Frame { body, consumed } => result matches Ok(Some(b)) && b@ == body
                    && final(self)@ == old(self)@.subrange(consumed as int, old(self)@.len() as int),
                FrameStep::TooLarge { length } => result matches Err(
                    FrameError::FrameTooLarge { length: l },
                ) && l == length && final(self)@ == old(self)@,
            },
    {
        if self.buffer.len() < FRAME_HEADER_SIZE {
            return Ok(None);
        }
        let length = read_header(self.buffer.as_slice());
        if length > MAX_FRAME_LENGTH {
            return Err(FrameError::FrameTooLarge { length });
        }
        if self.buffer.len() - FRAME_HEADER_SIZE < length {
            return Ok(None);
        }
        let rest = self.buffer.split_off(FRAME_HEADER_SIZE + length);
        let body = self.buffer.split_off(FRAME_HEADER_SIZE);
        self.buffer = rest;
        assert(body@ =~= old(self)@.subrange(
            FRAME_HEADER_SIZE as int,
            FRAME_HEADER_SIZE + length,
        ));
        Ok(Some(body))
    }
}

} // verus!
