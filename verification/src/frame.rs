//! Where one message ends and the next begins.
//!
//! A frame is a four-byte little-endian length followed by exactly that many
//! bytes of payload. Nothing about a message's content delimits it, so the
//! length is the whole of the framing, and it is not trusted: a declared
//! length over [`MAX_FRAME_BYTES`] is refused on the strength of the four
//! prefix bytes alone, before any payload byte is looked at.
//!
//! The framing is stated over bytes. Turning a payload into a message and back
//! is JSON's business, and happens outside this library.

use vstd::prelude::*;

use crate::text::{decimal, push_decimal};

verus! {

/// `serde_json::Error`, carried opaquely inside [`FrameError::Malformed`].
#[verifier::external_type_specification]
#[verifier::external_body]
pub struct ExJsonError(serde_json::Error);

/// `std::io::Error`, carried opaquely inside [`FrameError::Io`].
#[verifier::external_type_specification]
#[verifier::external_body]
pub struct ExIoError(std::io::Error);

/// The largest frame either side will send or accept, in bytes: one mebibyte.
pub const MAX_FRAME_BYTES: u32 = 1048576;

/// The width of the length prefix, in bytes.
pub const LENGTH_PREFIX_BYTES: usize = 4;

/// The number a four-byte little-endian prefix denotes.
pub open spec fn le_value(b: Seq<u8>) -> int {
    b[0] + 256 * b[1] + 65536 * b[2] + 16777216 * b[3]
}

/// The four bytes that spell `n` in little-endian order.
pub open spec fn le_bytes(n: u32) -> Seq<u8> {
    seq![
        (n % 256) as u8,
        ((n / 256) % 256) as u8,
        ((n / 65536) % 256) as u8,
        (n / 16777216) as u8,
    ]
}

/// The frame that carries `payload`: its length, then the payload itself.
pub open spec fn encoded(payload: Seq<u8>) -> Seq<u8> {
    le_bytes(payload.len() as u32) + payload
}

/// What the length prefix at the start of `bytes` declares.
pub open spec fn declared_length(bytes: Seq<u8>) -> int {
    le_value(bytes.take(4))
}

/// Whether the prefix at the start of `bytes` declares more than a frame may
/// hold.
pub open spec fn oversized(bytes: Seq<u8>) -> bool {
    bytes.len() >= 4 && declared_length(bytes) > MAX_FRAME_BYTES
}

/// Whether `bytes` begins with a whole frame of an acceptable size.
pub open spec fn complete(bytes: Seq<u8>) -> bool {
    &&& bytes.len() >= 4
    &&& declared_length(bytes) <= MAX_FRAME_BYTES
    &&& bytes.len() >= 4 + declared_length(bytes)
}

/// Where the first frame of `bytes` ends.
pub open spec fn frame_end(bytes: Seq<u8>) -> int {
    4 + declared_length(bytes)
}

/// The payload of the first frame of `bytes`.
pub open spec fn frame_payload(bytes: Seq<u8>) -> Seq<u8> {
    bytes.subrange(4, frame_end(bytes))
}

/// Why a frame could not be read or written.
#[derive(Debug)]
pub enum FrameError {
    /// The peer closed the connection at a frame boundary, or vanished part way
    /// through a frame. Not a fault.
    Disconnected,
    /// The peer declared a frame larger than [`MAX_FRAME_BYTES`]. Nothing was
    /// allocated and nothing was read.
    TooLarge {
        /// What the length prefix claimed.
        declared: u32,
    },
    /// The bytes inside a frame were not a message of the expected shape.
    Malformed(serde_json::Error),
    /// The connection itself failed.
    Io(std::io::Error),
}

/// The sentence a refusal of an oversized frame carries.
pub open spec fn too_large_text(declared: u32) -> Seq<char> {
    "a frame of "@ + decimal(declared as nat) + " bytes was announced and the limit is "@
        + decimal(MAX_FRAME_BYTES as nat)
}

/// Whether `text` is the sentence describing `error`: fixed sentences for a
/// disconnect and an oversized frame, and for a malformed frame or a failed
/// connection a fixed opening followed by what the failure said of itself.
pub open spec fn described_as(error: FrameError, text: Seq<char>) -> bool {
    match error {
        FrameError::Disconnected => text == "the other end of the connection closed"@,
        FrameError::TooLarge { declared } => text == too_large_text(declared),
        FrameError::Malformed(_) => "the frame was not a message: "@.is_prefix_of(text),
        FrameError::Io(_) => "the connection failed: "@.is_prefix_of(text),
    }
}

/// How the several ways a connection fails are told apart.
#[derive(Debug, Clone, Copy, PartialEq, Eq, Structural)]
pub enum IoFailure {
    /// The other end closed the pipe.
    BrokenPipe,
    /// The other end reset the connection.
    ConnectionReset,
    /// The connection was aborted.
    ConnectionAborted,
    /// The stream ended in the middle of something.
    UnexpectedEof,
    /// The call was interrupted and may simply be made again.
    Interrupted,
    /// Anything else.
    Other,
}

/// Whether a failure of this kind is the peer having gone away.
pub open spec fn is_departure(kind: IoFailure) -> bool {
    ||| kind is BrokenPipe
    ||| kind is ConnectionReset
    ||| kind is ConnectionAborted
    ||| kind is UnexpectedEof
}

/// `std::io::Error::kind`, sorted into the cases a reader distinguishes.
///
/// Nothing is claimed about which kind comes back: the kind is whatever the
/// operating system reported.
#[verifier::external_body]
fn failure_kind(error: &std::io::Error) -> IoFailure {
    match error.kind() {
        std::io::ErrorKind::BrokenPipe => IoFailure::BrokenPipe,
        std::io::ErrorKind::ConnectionReset => IoFailure::ConnectionReset,
        std::io::ErrorKind::ConnectionAborted => IoFailure::ConnectionAborted,
        std::io::ErrorKind::UnexpectedEof => IoFailure::UnexpectedEof,
        std::io::ErrorKind::Interrupted => IoFailure::Interrupted,
        _ => IoFailure::Other,
    }
}

/// The text `Display` gives a `serde_json::Error`.
#[verifier::external_body]
fn json_error_text(error: &serde_json::Error) -> String {
    format!("{error}")
}

/// The text `Display` gives a `std::io::Error`.
#[verifier::external_body]
fn io_error_text(error: &std::io::Error) -> String {
    format!("{error}")
}

/// The four ways a peer can go away are departures, and nothing else is: a
/// broken pipe, a reset, an aborted connection and a stream that ends part
/// way through a frame are each the peer gone, while an interrupted call and
/// any other failure are faults of the connection.
pub proof fn lemma_departures_are_the_four_ways_a_peer_goes(kind: IoFailure)
    ensures
        is_departure(IoFailure::BrokenPipe),
        is_departure(IoFailure::ConnectionReset),
        is_departure(IoFailure::ConnectionAborted),
        is_departure(IoFailure::UnexpectedEof),
        !is_departure(IoFailure::Interrupted),
        !is_departure(IoFailure::Other),
        is_departure(kind) <==> (kind == IoFailure::BrokenPipe || kind == IoFailure::ConnectionReset
            || kind == IoFailure::ConnectionAborted || kind == IoFailure::UnexpectedEof),
{
}

impl FrameError {
    /// Whether this is the peer having gone away rather than a fault.
    pub fn is_disconnect(&self) -> (gone: bool)
        ensures
            gone == (self is Disconnected),
    {
        matches!(self, FrameError::Disconnected)
    }

    /// The error a failed read or write of the connection amounts to.
    ///
    /// The several ways a peer can disappear (a broken pipe, a reset, an abort,
    /// a stream that ends part way through a frame) are all
    /// [`FrameError::Disconnected`]; anything else is kept as
    /// [`FrameError::Io`].
    pub fn from_io(error: std::io::Error) -> (frame_error: FrameError)
        ensures
            frame_error is Disconnected || frame_error == FrameError::Io(error),
    {
        let kind = failure_kind(&error);
        FrameError::classify(kind, error)
    }

    /// The error a failure of kind `kind` amounts to.
    pub fn classify(kind: IoFailure, error: std::io::Error) -> (frame_error: FrameError)
        ensures
            is_departure(kind) ==> frame_error is Disconnected,
            !is_departure(kind) ==> frame_error == FrameError::Io(error),
            (kind is BrokenPipe || kind is ConnectionReset || kind is ConnectionAborted
                || kind is UnexpectedEof) ==> frame_error is Disconnected,
            (kind is Interrupted || kind is Other) ==> frame_error == FrameError::Io(error),
    {
        match kind {
            IoFailure::BrokenPipe
            | IoFailure::ConnectionReset
            | IoFailure::ConnectionAborted
            | IoFailure::UnexpectedEof => FrameError::Disconnected,
            IoFailure::Interrupted | IoFailure::Other => FrameError::Io(error),
        }
    }

    /// The sentence describing this failure.
    pub fn describe(&self) -> (text: String)
        ensures
            described_as(*self, text@),
    {
        match self {
            FrameError::Disconnected => String::from_str("the other end of the connection closed"),
            FrameError::TooLarge { declared } => {
                let mut text = String::from_str("a frame of ");
                push_decimal(&mut text, *declared as u64);
                text.append(" bytes was announced and the limit is ");
                push_decimal(&mut text, MAX_FRAME_BYTES as u64);
                assert(text@ =~= too_large_text(*declared));
                text
            },
            FrameError::Malformed(error) => {
                let prefix = String::from_str("the frame was not a message: ");
                let detail = json_error_text(error);
                let text = prefix.concat(detail.as_str());
                assert(text@.subrange(0, prefix@.len() as int) =~= prefix@);
                text
            },
            FrameError::Io(error) => {
                let prefix = String::from_str("the connection failed: ");
                let detail = io_error_text(error);
                let text = prefix.concat(detail.as_str());
                assert(text@.subrange(0, prefix@.len() as int) =~= prefix@);
                text
            },
        }
    }
}

/// Spells a length as the prefix that carries it.
pub fn length_prefix(n: u32) -> (prefix: [u8; 4])
    ensures
        prefix@ == le_bytes(n),
        le_value(prefix@) == n,
{
    let prefix = [
        (n % 256) as u8,
        ((n / 256) % 256) as u8,
        ((n / 65536) % 256) as u8,
        (n / 16777216) as u8,
    ];
    assert(prefix@ =~= le_bytes(n));
    prefix
}

/// The length a four-byte prefix declares.
pub fn prefix_length(prefix: [u8; 4]) -> (n: u32)
    ensures
        n == le_value(prefix@),
{
    prefix[0] as u32 + 256 * (prefix[1] as u32) + 65536 * (prefix[2] as u32) + 16777216 * (
    prefix[3] as u32)
}

/// Whether a declared length may be read, refusing one over
/// [`MAX_FRAME_BYTES`] before anything is allocated.
pub fn check_declared(declared: u32) -> (r: Result<usize, FrameError>)
    ensures
        declared <= MAX_FRAME_BYTES ==> r == Ok::<usize, FrameError>(declared as usize),
        declared > MAX_FRAME_BYTES ==> r == Err::<usize, FrameError>(
            FrameError::TooLarge { declared },
        ),
{
    if declared > MAX_FRAME_BYTES {
        Err(FrameError::TooLarge { declared })
    } else {
        Ok(declared as usize)
    }
}

/// The frame carrying `payload`, or a refusal to send one larger than
/// [`MAX_FRAME_BYTES`].
///
/// A payload over the limit is refused here rather than sent for the peer to
/// refuse, so that the side that knows what it was trying to say reports it.
pub fn encode_frame(payload: &[u8]) -> (r: Result<Vec<u8>, FrameError>)
    ensures
        payload@.len() <= MAX_FRAME_BYTES ==> (r matches Ok(frame) && frame@ == encoded(payload@)),
        payload@.len() > MAX_FRAME_BYTES ==> r == Err::<Vec<u8>, FrameError>(
            FrameError::TooLarge {
                declared: if payload@.len() > u32::MAX {
                    u32::MAX
                } else {
                    payload@.len() as u32
                },
            },
        ),
{
    let length = payload.len();
    if length > MAX_FRAME_BYTES as usize {
        let declared: u32 = if length > u32::MAX as usize {
            u32::MAX
        } else {
            length as u32
        };
        return Err(FrameError::TooLarge { declared });
    }
    let prefix = length_prefix(length as u32);
    let mut frame: Vec<u8> = Vec::with_capacity(4 + length);
    frame.push(prefix[0]);
    frame.push(prefix[1]);
    frame.push(prefix[2]);
    frame.push(prefix[3]);
    assert(frame@ =~= le_bytes(length as u32));
    let mut i: usize = 0;
    while i < length
        invariant
            i <= length,
            length == payload@.len(),
            frame@ == le_bytes(length as u32) + payload@.take(i as int),
        decreases length - i,
    {
        frame.push(payload[i]);
        i = i + 1;
        assert(frame@ =~= le_bytes(length as u32) + payload@.take(i as int));
    }
    assert(payload@.take(length as int) =~= payload@);
    Ok(frame)
}

/// Reads the first frame of `bytes`: its payload, and where it ends.
///
/// Fewer bytes than a whole frame is the peer having closed at a boundary or
/// part way through, [`FrameError::Disconnected`]; a prefix over the limit is
/// [`FrameError::TooLarge`] whatever follows it.
pub fn decode_frame(bytes: &[u8]) -> (r: Result<(Vec<u8>, usize), FrameError>)
    ensures
        r is Ok <==> complete(bytes@),
        r matches Ok((payload, end)) ==> payload@ == frame_payload(bytes@) && end == frame_end(bytes@),
        oversized(bytes@) ==> r == Err::<(Vec<u8>, usize), FrameError>(
            FrameError::TooLarge { declared: declared_length(bytes@) as u32 },
        ),
        !complete(bytes@) && !oversized(bytes@) ==> r matches Err(FrameError::Disconnected),
{
    if bytes.len() < 4 {
        return Err(FrameError::Disconnected);
    }
    let prefix: [u8; 4] = [bytes[0], bytes[1], bytes[2], bytes[3]];
    assert(prefix@ =~= bytes@.take(4));
    let declared = prefix_length(prefix);
    let length = match check_declared(declared) {
        Ok(length) => length,
        Err(error) => return Err(error),
    };
    if bytes.len() - 4 < length {
        return Err(FrameError::Disconnected);
    }
    let end = 4 + length;
    let mut payload: Vec<u8> = Vec::with_capacity(length);
    let mut i: usize = 4;
    while i < end
        invariant
            4 <= i <= end,
            end <= bytes@.len(),
            payload@ == bytes@.subrange(4, i as int),
        decreases end - i,
    {
        payload.push(bytes[i]);
        i = i + 1;
        assert(payload@ =~= bytes@.subrange(4, i as int));
    }
    Ok((payload, end))
}

/// The length prefix, read as far as the connection has delivered it.
///
/// A reader fills the four bytes from however many reads the connection takes
/// to deliver them. End of stream on the very first byte is a peer that closed
/// between frames; end of stream inside the prefix is a peer that died part
/// way through writing one. Both are [`FrameError::Disconnected`].
#[derive(Debug)]
pub struct PrefixReader {
    received: Vec<u8>,
}

/// What a reader does after a read.
#[derive(Debug, Clone, Copy, PartialEq, Eq, Structural)]
pub enum PrefixStep {
    /// Read again: the prefix is not yet whole.
    ReadMore,
    /// The prefix is whole, and declares this many payload bytes.
    Complete(u32),
    /// The stream ended before the prefix was whole.
    Disconnected,
}

impl PrefixReader {
    /// What has been received so far.
    pub closed spec fn received(&self) -> Seq<u8> {
        self.received@
    }

    /// Well formed: never more than the prefix.
    pub closed spec fn well_formed(&self) -> bool {
        self.received@.len() < 4
    }

    /// A reader that has received nothing.
    pub fn new() -> (reader: PrefixReader)
        ensures
            reader.well_formed(),
            reader.received() == Seq::<u8>::empty(),
    {
        PrefixReader { received: Vec::new() }
    }

    /// How many more bytes the prefix needs.
    pub fn wanted(&self) -> (n: usize)
        requires
            self.well_formed(),
        ensures
            n == 4 - self.received().len(),
            1 <= n <= 4,
    {
        4 - self.received.len()
    }

    /// Takes what one read delivered.
    ///
    /// `chunk` is the bytes the read returned, at most [`Self::wanted`] of them;
    /// an empty chunk is end of stream.
    pub fn accept(&mut self, chunk: &[u8]) -> (step: PrefixStep)
        requires
            old(self).well_formed(),
            chunk@.len() <= 4 - old(self).received().len(),
        ensures
            final(self).well_formed(),
            chunk@.len() == 0 ==> step is Disconnected && final(self).received() == old(self).received(),
            chunk@.len() > 0 && old(self).received().len() + chunk@.len() < 4 ==> step is ReadMore
                && final(self).well_formed() && final(self).received() == old(self).received()
                + chunk@,
            chunk@.len() > 0 && old(self).received().len() + chunk@.len() == 4 ==> step
                == PrefixStep::Complete(le_value(old(self).received() + chunk@) as u32) && final(self).received() == Seq::<u8>::empty(),
    {
        if chunk.len() == 0 {
            return PrefixStep::Disconnected;
        }
        let ghost before = self.received@;
        let mut i: usize = 0;
        while i < chunk.len()
            invariant
                i <= chunk@.len(),
                chunk@.len() <= 4 - before.len(),
                self.received@ == before + chunk@.take(i as int),
            decreases chunk@.len() - i,
        {
            self.received.push(chunk[i]);
            i = i + 1;
            assert(self.received@ =~= before + chunk@.take(i as int));
        }
        assert(chunk@.take(chunk@.len() as int) =~= chunk@);
        if self.received.len() < 4 {
            PrefixStep::ReadMore
        } else {
            let prefix: [u8; 4] = [
                self.received[0],
                self.received[1],
                self.received[2],
                self.received[3],
            ];
            assert(prefix@ =~= self.received@);
            let declared = prefix_length(prefix);
            self.received = Vec::new();
            PrefixStep::Complete(declared)
        }
    }
}

/// A length prefix spells back the length it was made from.
pub proof fn lemma_prefix_round_trip(n: u32)
    ensures
        le_value(le_bytes(n)) == n,
        le_bytes(n).len() == 4,
{
}

/// A payload of acceptable size survives a round trip through its frame,
/// whatever follows the frame: the payload comes back exactly, and the frame's
/// bounds are exact.
pub proof fn lemma_frame_round_trip(payload: Seq<u8>, rest: Seq<u8>)
    requires
        payload.len() <= MAX_FRAME_BYTES,
    ensures
        complete(encoded(payload) + rest),
        frame_payload(encoded(payload) + rest) == payload,
        frame_end(encoded(payload) + rest) == 4 + payload.len(),
        (encoded(payload) + rest).skip(4 + payload.len() as int) == rest,
{
    let bytes = encoded(payload) + rest;
    let n = payload.len() as u32;
    assert(bytes.take(4) =~= le_bytes(n));
    lemma_prefix_round_trip(n);
    assert(frame_payload(bytes) =~= payload);
    assert(bytes.skip(4 + payload.len() as int) =~= rest);
}

/// Two frames written one after the other are read back as two, in order: the
/// first read yields the first payload and leaves exactly the second frame.
pub proof fn lemma_two_frames_read_back_as_two(first: Seq<u8>, second: Seq<u8>)
    requires
        first.len() <= MAX_FRAME_BYTES,
        second.len() <= MAX_FRAME_BYTES,
    ensures
        frame_payload(encoded(first) + encoded(second)) == first,
        (encoded(first) + encoded(second)).skip(frame_end(encoded(first) + encoded(second)))
            == encoded(second),
        frame_payload(encoded(second)) == second,
{
    lemma_frame_round_trip(first, encoded(second));
    lemma_frame_round_trip(second, Seq::<u8>::empty());
    assert(encoded(second) + Seq::<u8>::empty() =~= encoded(second));
}

/// A frame cut short anywhere, before its last byte, is a disconnect: never a
/// message and never an oversized frame.
pub proof fn lemma_truncated_frame_is_a_disconnect(payload: Seq<u8>, kept: int)
    requires
        payload.len() <= MAX_FRAME_BYTES,
        0 <= kept < encoded(payload).len(),
    ensures
        !complete(encoded(payload).take(kept)),
        !oversized(encoded(payload).take(kept)),
{
    let bytes = encoded(payload).take(kept);
    let n = payload.len() as u32;
    lemma_prefix_round_trip(n);
    if kept >= 4 {
        assert(bytes.take(4) =~= le_bytes(n));
    }
}

/// Whether a frame is refused as oversized depends on its four prefix bytes
/// alone: nothing after them is looked at.
pub proof fn lemma_oversize_is_decided_by_the_prefix(a: Seq<u8>, b: Seq<u8>)
    requires
        a.len() >= 4,
        b.len() >= 4,
        a.take(4) == b.take(4),
    ensures
        oversized(a) == oversized(b),
        oversized(a) ==> declared_length(a) == declared_length(b),
{
}

} // verus!
