//! Asking for a recording's thumbnail or waveform, and the base64 its picture
//! travels in.

use vstd::prelude::*;

use crate::text::push_char;

verus! {

/// The most buckets a waveform answer will carry, per track. A request for
/// more is answered with this many.
pub const MAX_PREVIEW_BUCKETS: u32 = 4096;

/// Which of a recording's two derived pictures is wanted.
#[derive(Debug, Clone, Copy, PartialEq, Eq, Structural)]
pub enum PreviewKind {
    /// The picture for a recording: one frame, chosen and scaled.
    Thumbnail,
    /// The peaks of each of its sound tracks.
    Waveform,
}

impl PreviewKind {
    /// The wire string of this kind.
    pub open spec fn wire(self) -> Seq<char> {
        match self {
            PreviewKind::Thumbnail => "thumbnail"@,
            PreviewKind::Waveform => "waveform"@,
        }
    }

    /// The wire string.
    pub fn as_str(self) -> (name: &'static str)
        ensures
            name@ == self.wire(),
    {
        match self {
            PreviewKind::Thumbnail => "thumbnail",
            PreviewKind::Waveform => "waveform",
        }
    }
}

/// Asking for one recording's thumbnail or waveform.
#[derive(Debug, Clone, PartialEq, Eq)]
pub struct OpenPreview {
    /// The recording to draw, as the library reported its path.
    pub source: String,
    /// Which picture is wanted.
    pub kind: PreviewKind,
    /// How many buckets of peaks the caller can draw, for a waveform; absent
    /// means an overview. Clamped to [`MAX_PREVIEW_BUCKETS`].
    pub buckets: Option<u32>,
}

/// Where a preview stands.
#[derive(Debug, Clone, Copy, PartialEq, Eq, Structural)]
pub enum PreviewState {
    /// It has not been generated yet, and it has now been asked for.
    Pending,
    /// Here it is.
    Ready,
    /// There will not be one.
    Unavailable,
}

impl PreviewState {
    /// The wire string of this state.
    pub open spec fn wire(self) -> Seq<char> {
        match self {
            PreviewState::Pending => "pending"@,
            PreviewState::Ready => "ready"@,
            PreviewState::Unavailable => "unavailable"@,
        }
    }

    /// The wire string.
    pub fn as_str(self) -> (name: &'static str)
        ensures
            name@ == self.wire(),
    {
        match self {
            PreviewState::Pending => "pending",
            PreviewState::Ready => "ready",
            PreviewState::Unavailable => "unavailable",
        }
    }
}

/// The character RFC 4648 assigns to the six-bit value `v`: `A`-`Z`, `a`-`z`,
/// `0`-`9`, then `+` and `/`.
pub open spec fn base64_char(v: int) -> char {
    if v < 26 {
        (65 + v) as char
    } else if v < 52 {
        (97 + (v - 26)) as char
    } else if v < 62 {
        (48 + (v - 52)) as char
    } else if v == 62 {
        '+'
    } else {
        '/'
    }
}

/// The four characters one group of one, two or three bytes encodes to. The
/// bytes are read as a 24-bit block, missing ones as zero; a group of one byte
/// carries two characters and two `=`, a group of two carries three and one.
pub open spec fn base64_group(group: Seq<u8>) -> Seq<char> {
    let b1: int = if group.len() > 1 {
        group[1] as int
    } else {
        0
    };
    let b2: int = if group.len() > 2 {
        group[2] as int
    } else {
        0
    };
    let block = group[0] * 65536 + b1 * 256 + b2;
    let c0 = base64_char(block / 262144);
    let c1 = base64_char((block / 4096) % 64);
    let c2 = base64_char((block / 64) % 64);
    let c3 = base64_char(block % 64);
    if group.len() == 1 {
        seq![c0, c1, '=', '=']
    } else if group.len() == 2 {
        seq![c0, c1, c2, '=']
    } else {
        seq![c0, c1, c2, c3]
    }
}

/// Where the last group of `n` bytes begins.
pub open spec fn last_group_start(n: int) -> int {
    (n - 1) - (n - 1) % 3
}

/// The padded base64 encoding of `bytes`: the encoding of every group but the
/// last, followed by the last group's four characters.
pub open spec fn base64_encoding(bytes: Seq<u8>) -> Seq<char>
    decreases bytes.len(),
{
    if bytes.len() == 0 {
        Seq::empty()
    } else {
        let start = last_group_start(bytes.len() as int);
        base64_encoding(bytes.take(start)) + base64_group(bytes.skip(start))
    }
}

/// The alphabet's character for a six-bit value.
fn base64_digit(v: u32) -> (c: char)
    requires
        v < 64,
    ensures
        c == base64_char(v as int),
{
    if v < 26 {
        ((65 + v) as u8) as char
    } else if v < 52 {
        ((97 + (v - 26)) as u8) as char
    } else if v < 62 {
        ((48 + (v - 52)) as u8) as char
    } else if v == 62 {
        '+'
    } else {
        '/'
    }
}

/// Appends the four characters the group `bytes[start..end]` encodes to.
fn push_group(encoded: &mut String, bytes: &[u8], start: usize, end: usize)
    requires
        start < end <= bytes@.len(),
        end - start <= 3,
    ensures
        final(encoded)@ == old(encoded)@ + base64_group(bytes@.subrange(start as int, end as int)),
{
    let ghost group = bytes@.subrange(start as int, end as int);
    let count = end - start;
    let b0 = bytes[start];
    let b1: u8 = if count > 1 {
        bytes[start + 1]
    } else {
        0
    };
    let b2: u8 = if count > 2 {
        bytes[start + 2]
    } else {
        0
    };
    let block: u32 = (b0 as u32) * 65536 + (b1 as u32) * 256 + (b2 as u32);
    assert(block == group[0] * 65536 + (if group.len() > 1 {
        group[1] as int
    } else {
        0
    }) * 256 + (if group.len() > 2 {
        group[2] as int
    } else {
        0
    }));
    push_char(encoded, base64_digit(block / 262144));
    push_char(encoded, base64_digit((block / 4096) % 64));
    if count > 1 {
        push_char(encoded, base64_digit((block / 64) % 64));
    } else {
        push_char(encoded, '=');
    }
    if count > 2 {
        push_char(encoded, base64_digit(block % 64));
    } else {
        push_char(encoded, '=');
    }
    assert(final(encoded)@ =~= old(encoded)@ + base64_group(group));
}

/// Encoding a longer prefix, one group further, appends that group's four
/// characters.
proof fn lemma_base64_extend(bytes: Seq<u8>, i: int, next: int)
    requires
        0 <= i < next <= bytes.len(),
        i % 3 == 0,
        next == i + 3 || (next == bytes.len() && next < i + 3),
    ensures
        base64_encoding(bytes.take(next)) == base64_encoding(bytes.take(i)) + base64_group(
            bytes.subrange(i, next),
        ),
{
    let taken = bytes.take(next);
    reveal(base64_encoding);
    assert(last_group_start(next) == i);
    assert(taken.take(i) =~= bytes.take(i));
    assert(taken.skip(i) =~= bytes.subrange(i, next));
}

/// Encodes bytes as base64 (RFC 4648), with padding, as a `data:` URI and
/// `atob` take it.
pub fn base64(bytes: &[u8]) -> (encoded: String)
    ensures
        encoded@ == base64_encoding(bytes@),
{
    let n = bytes.len();
    let mut encoded = String::new();
    let mut i: usize = 0;
    assert(bytes@.take(0) =~= Seq::<u8>::empty());
    assert(encoded@ == base64_encoding(bytes@.take(0))) by {
        reveal(base64_encoding);
    }
    while i < n
        invariant
            n == bytes@.len(),
            i <= n,
            i % 3 == 0 || i == n,
            encoded@ == base64_encoding(bytes@.take(i as int)),
        decreases n - i,
    {
        let next: usize = if n - i >= 3 {
            i + 3
        } else {
            n
        };
        push_group(&mut encoded, bytes, i, next);
        proof {
            lemma_base64_extend(bytes@, i as int, next as int);
        }
        i = next;
    }
    assert(bytes@.take(n as int) =~= bytes@);
    encoded
}

/// Every group of bytes encodes to four characters, so `n` bytes encode to
/// four characters for every three or part of three: 256 bytes are 344
/// characters.
pub proof fn lemma_base64_length(bytes: Seq<u8>)
    ensures
        base64_encoding(bytes).len() == 4 * ((bytes.len() + 2) / 3),
    decreases bytes.len(),
{
    reveal(base64_encoding);
    if bytes.len() > 0 {
        let start = last_group_start(bytes.len() as int);
        lemma_base64_length(bytes.take(start));
    }
}

/// Every character of an encoding is one of the sixty-four the alphabet has, or
/// the padding `=`.
pub proof fn lemma_base64_alphabet(bytes: Seq<u8>, i: int)
    requires
        0 <= i < base64_encoding(bytes).len(),
    ensures
        ({
            let c = base64_encoding(bytes)[i];
            ('A' <= c <= 'Z') || ('a' <= c <= 'z') || ('0' <= c <= '9') || c == '+' || c == '/'
                || c == '='
        }),
    decreases bytes.len(),
{
    reveal(base64_encoding);
    if bytes.len() > 0 {
        let start = last_group_start(bytes.len() as int);
        let front = base64_encoding(bytes.take(start));
        if i < front.len() {
            lemma_base64_alphabet(bytes.take(start), i);
        }
    }
}

/// No character of the alphabet is the padding `=`.
proof fn lemma_base64_char_is_not_padding(v: int)
    requires
        0 <= v < 64,
    ensures
        base64_char(v) != '=',
{
    if v < 26 {
        assert((65 + v) as char != '=');
    } else if v < 52 {
        assert((97 + (v - 26)) as char != '=');
    } else if v < 62 {
        assert((48 + (v - 52)) as char != '=');
    }
}

/// The last group of `n` bytes starts on a multiple of three, holds one to
/// three bytes, and is as short of three as `n` is.
proof fn lemma_last_group(n: int)
    requires
        n > 0,
    ensures
        last_group_start(n) % 3 == 0,
        0 <= last_group_start(n) < n,
        n - last_group_start(n) <= 3,
        base64_padding(n - last_group_start(n)) == base64_padding(n),
        base64_padding(last_group_start(n)) == 0,
{
}

/// How many `=` the encoding of `n` bytes ends in: none when `n` is a
/// multiple of three, else one for each byte the last group is short of three.
pub open spec fn base64_padding(n: int) -> int {
    (3 - n % 3) % 3
}

/// The padding of one group: `=` exactly in its last `3 - len` places.
proof fn lemma_base64_group_padding(group: Seq<u8>, i: int)
    requires
        1 <= group.len() <= 3,
        0 <= i < 4,
    ensures
        base64_group(group)[i] == '=' <==> i >= 4 - base64_padding(group.len() as int),
{
    let b1: int = if group.len() > 1 {
        group[1] as int
    } else {
        0
    };
    let b2: int = if group.len() > 2 {
        group[2] as int
    } else {
        0
    };
    let block = group[0] * 65536 + b1 * 256 + b2;
    assert(0 <= block < 16777216);
    assert(0 <= block / 262144 < 64) by (nonlinear_arith)
        requires
            0 <= block < 16777216,
    ;
    lemma_base64_char_is_not_padding(block / 262144);
    lemma_base64_char_is_not_padding((block / 4096) % 64);
    lemma_base64_char_is_not_padding((block / 64) % 64);
    lemma_base64_char_is_not_padding(block % 64);
}

/// The encoding of `n` bytes ends in [`base64_padding`]`(n)` `=`, and has no
/// `=` anywhere else: one byte past a multiple of three gives `==`, two give
/// `=`, and a multiple of three gives none.
pub proof fn lemma_base64_padding(bytes: Seq<u8>, i: int)
    requires
        0 <= i < base64_encoding(bytes).len(),
    ensures
        base64_encoding(bytes)[i] == '=' <==> i >= base64_encoding(bytes).len() - base64_padding(
            bytes.len() as int,
        ),
    decreases bytes.len(),
{
    reveal(base64_encoding);
    let start = last_group_start(bytes.len() as int);
    lemma_last_group(bytes.len() as int);
    let front = bytes.take(start);
    let group = bytes.skip(start);
    lemma_base64_length(front);
    assert(base64_encoding(bytes) == base64_encoding(front) + base64_group(group));
    if i < base64_encoding(front).len() {
        lemma_base64_padding(front, i);
    } else {
        lemma_base64_group_padding(group, i - base64_encoding(front).len());
    }
}

/// Bytes that end on a group boundary encode independently of what follows
/// them: the encoding of `front` then `back` is the encoding of `front`
/// followed by that of `back`.
pub proof fn lemma_base64_concatenation(front: Seq<u8>, back: Seq<u8>)
    requires
        front.len() % 3 == 0,
    ensures
        base64_encoding(front + back) == base64_encoding(front) + base64_encoding(back),
    decreases back.len(),
{
    reveal(base64_encoding);
    let whole = front + back;
    if back.len() == 0 {
        assert(whole =~= front);
        assert(base64_encoding(back) =~= Seq::<char>::empty());
        assert(base64_encoding(front) + base64_encoding(back) =~= base64_encoding(front));
    } else {
        let start = last_group_start(back.len() as int);
        assert(last_group_start(whole.len() as int) == front.len() + start);
        assert(whole.take(front.len() + start) =~= front + back.take(start));
        assert(whole.skip(front.len() + start) =~= back.skip(start));
        lemma_base64_concatenation(front, back.take(start));
        assert(base64_encoding(whole) == base64_encoding(front + back.take(start)) + base64_group(
            back.skip(start),
        ));
        assert(base64_encoding(back) == base64_encoding(back.take(start)) + base64_group(
            back.skip(start),
        ));
        assert(base64_encoding(whole) =~= base64_encoding(front) + base64_encoding(back));
    }
}

/// The six-bit value an alphabet character stands for, as an RFC 4648
/// decoder reads it.
pub open spec fn base64_value(c: char) -> int {
    if 'A' <= c <= 'Z' {
        c as int - 65
    } else if 'a' <= c <= 'z' {
        c as int - 71
    } else if '0' <= c <= '9' {
        c as int + 4
    } else if c == '+' {
        62
    } else {
        63
    }
}

/// The bytes four characters decode to: a 24-bit block read from them, `=`
/// standing for nothing, of which one byte is kept for each character short
/// of two `=`.
pub open spec fn base64_decode_group(quad: Seq<char>) -> Seq<u8> {
    let v2: int = if quad[2] == '=' {
        0
    } else {
        base64_value(quad[2])
    };
    let v3: int = if quad[3] == '=' {
        0
    } else {
        base64_value(quad[3])
    };
    let block = base64_value(quad[0]) * 262144 + base64_value(quad[1]) * 4096 + v2 * 64 + v3;
    let b0 = (block / 65536) as u8;
    let b1 = ((block / 256) % 256) as u8;
    let b2 = (block % 256) as u8;
    if quad[2] == '=' {
        seq![b0]
    } else if quad[3] == '=' {
        seq![b0, b1]
    } else {
        seq![b0, b1, b2]
    }
}

/// What an RFC 4648 decoder reads padded base64 text as: each group of four
/// characters in turn.
pub open spec fn base64_decoding(text: Seq<char>) -> Seq<u8>
    decreases text.len(),
{
    if text.len() < 4 {
        Seq::empty()
    } else {
        base64_decoding(text.take(text.len() - 4)) + base64_decode_group(text.skip(text.len() - 4))
    }
}

/// A decoder reads each alphabet character back as the value it was written
/// for.
proof fn lemma_base64_value_of_char(v: int)
    requires
        0 <= v < 64,
    ensures
        base64_value(base64_char(v)) == v,
{
}

/// Three bytes read as a block split back into the four six-bit values the
/// block was written as, and into the three bytes it was made of; missing
/// bytes leave the values after them zero.
proof fn lemma_base64_block(b0: u8, b1: u8, b2: u8)
    by (bit_vector)
    ensures
        (b0 * 65536 + b1 * 256 + b2) / 262144 * 262144 + (b0 * 65536 + b1 * 256 + b2) / 4096 % 64
            * 4096 + (b0 * 65536 + b1 * 256 + b2) / 64 % 64 * 64 + (b0 * 65536 + b1 * 256 + b2)
            % 64 == b0 * 65536 + b1 * 256 + b2,
        (b0 * 65536 + b1 * 256 + b2) / 65536 == b0,
        (b0 * 65536 + b1 * 256 + b2) / 256 % 256 == b1,
        (b0 * 65536 + b1 * 256 + b2) % 256 == b2,
        (b0 * 65536 + b1 * 256 + b2) / 262144 < 64,
        b2 == 0 ==> (b0 * 65536 + b1 * 256 + b2) % 64 == 0,
        b1 == 0 && b2 == 0 ==> (b0 * 65536 + b1 * 256 + b2) / 64 % 64 == 0,
{
}

/// One group decodes back to the bytes it was written from.
proof fn lemma_base64_group_round_trip(group: Seq<u8>)
    requires
        1 <= group.len() <= 3,
    ensures
        base64_decode_group(base64_group(group)) == group,
{
    let b0 = group[0];
    let b1: u8 = if group.len() > 1 {
        group[1]
    } else {
        0
    };
    let b2: u8 = if group.len() > 2 {
        group[2]
    } else {
        0
    };
    lemma_base64_block(b0, b1, b2);
    let block = b0 * 65536 + b1 * 256 + b2;
    lemma_base64_value_of_char(block / 262144);
    lemma_base64_value_of_char(block / 4096 % 64);
    lemma_base64_value_of_char(block / 64 % 64);
    lemma_base64_value_of_char(block % 64);
    lemma_base64_char_is_not_padding(block / 64 % 64);
    lemma_base64_char_is_not_padding(block % 64);
    assert(base64_decode_group(base64_group(group)) =~= group);
}

/// An RFC 4648 decoder reads the encoding of any bytes back as those bytes.
pub proof fn lemma_base64_decodes_back(bytes: Seq<u8>)
    ensures
        base64_decoding(base64_encoding(bytes)) == bytes,
    decreases bytes.len(),
{
    reveal(base64_encoding);
    if bytes.len() == 0 {
        assert(base64_decoding(Seq::<char>::empty()) =~= bytes);
    } else {
        let start = last_group_start(bytes.len() as int);
        let front = base64_encoding(bytes.take(start));
        let group = base64_group(bytes.skip(start));
        let text = front + group;
        assert(text.take(text.len() - 4) =~= front);
        assert(text.skip(text.len() - 4) =~= group);
        lemma_base64_decodes_back(bytes.take(start));
        lemma_base64_group_round_trip(bytes.skip(start));
        assert(bytes.take(start) + bytes.skip(start) =~= bytes);
    }
}

} // verus!
