//! The wire format, stated over sequences of bytes.
//!
//! A frame is a three-byte prefix followed by a payload. The prefix is the
//! payload's length, least significant byte first.

use vstd::prelude::*;

verus! {

/// Number of bytes in the length prefix.
pub const PREFIX_LEN: usize = 3;

/// Largest payload length that the prefix can declare, 2^24 - 1.
pub const MAX_LEN: usize = 16_777_215;

/// The three bytes that stand for `n` in a prefix: byte `i` is
/// `(n / 256^i) mod 256`. Above [`MAX_LEN`] these are the low three bytes
/// of `n`, so only lengths up to [`MAX_LEN`] can be read back.
pub open spec fn length_prefix(n: nat) -> Seq<u8> {
    seq![(n % 256) as u8, ((n / 256) % 256) as u8, ((n / 65_536) % 256) as u8]
}

/// The length that the first three bytes of `bytes` declare.
pub open spec fn declared_len(bytes: Seq<u8>) -> nat
    recommends
        bytes.len() >= 3,
{
    (bytes[0] as nat) + 256 * (bytes[1] as nat) + 65_536 * (bytes[2] as nat)
}

/// The frame that carries `payload`: its length prefix, then the payload
/// itself, unchanged.
pub open spec fn frame(payload: Seq<u8>) -> Seq<u8> {
    length_prefix(payload.len()) + payload
}

/// Whether `bytes` begins with a whole frame: a prefix, and at least as
/// many further bytes as the prefix declares.
pub open spec fn has_frame(bytes: Seq<u8>) -> bool {
    bytes.len() >= 3 && bytes.len() - 3 >= declared_len(bytes)
}

/// The payload of the frame at the start of `bytes`.
pub open spec fn frame_payload(bytes: Seq<u8>) -> Seq<u8>
    recommends
        has_frame(bytes),
{
    bytes.subrange(3, 3 + declared_len(bytes) as int)
}

/// What follows the frame at the start of `bytes`.
pub open spec fn frame_rest(bytes: Seq<u8>) -> Seq<u8>
    recommends
        has_frame(bytes),
{
    bytes.subrange(3 + declared_len(bytes) as int, bytes.len() as int)
}

/// Reading one frame off the front of `bytes`: the payload and the bytes
/// after it, or nothing where `bytes` holds no whole frame.
pub open spec fn parse(bytes: Seq<u8>) -> Option<(Seq<u8>, Seq<u8>)> {
    if has_frame(bytes) {
        Some((frame_payload(bytes), frame_rest(bytes)))
    } else {
        None
    }
}

/// A frame is three bytes longer than its payload.
pub proof fn lemma_frame_len(payload: Seq<u8>)
    ensures
        frame(payload).len() == payload.len() + 3,
{
}

/// No prefix declares more than [`MAX_LEN`] bytes.
pub proof fn lemma_declared_len_bound(bytes: Seq<u8>)
    ensures
        declared_len(bytes) <= MAX_LEN,
{
}

/// A length up to [`MAX_LEN`] is read back from its prefix.
pub proof fn lemma_prefix_declares(n: nat)
    requires
        n <= MAX_LEN,
    ensures
        length_prefix(n).len() == 3,
        declared_len(length_prefix(n)) == n,
{
}

/// The prefix bytes are the masks and shifts of the length: byte 0 is
/// `n & 0xFF`, byte 1 is `(n >> 8) & 0xFF`, byte 2 is `(n >> 16) & 0xFF`.
pub proof fn lemma_prefix_bits(n: usize)
    ensures
        length_prefix(n as nat) == seq![
            (n & 0xff) as u8,
            ((n >> 8) & 0xff) as u8,
            ((n >> 16) & 0xff) as u8,
        ],
{
    assert(n & 0xff == n % 256) by (bit_vector);
    assert((n >> 8) & 0xff == (n / 256) % 256) by (bit_vector);
    assert((n >> 16) & 0xff == (n / 65_536) % 256) by (bit_vector);
    assert(length_prefix(n as nat) =~= seq![
        (n & 0xff) as u8,
        ((n >> 8) & 0xff) as u8,
        ((n >> 16) & 0xff) as u8,
    ]);
}

/// Round trip: the frame of a payload of at most [`MAX_LEN`] bytes parses
/// to that payload, with nothing left over.
pub proof fn lemma_round_trip(payload: Seq<u8>)
    requires
        payload.len() <= MAX_LEN,
    ensures
        parse(frame(payload)) == Some((payload, Seq::<u8>::empty())),
{
    lemma_parse_frame(payload, Seq::empty());
    assert(frame(payload) + Seq::<u8>::empty() =~= frame(payload));
}

/// Parsing stops at the end of the frame: whatever follows a frame is
/// handed back untouched, beside the frame's payload.
pub proof fn lemma_parse_frame(payload: Seq<u8>, rest: Seq<u8>)
    requires
        payload.len() <= MAX_LEN,
    ensures
        parse(frame(payload) + rest) == Some((payload, rest)),
{
    let bytes = frame(payload) + rest;
    lemma_prefix_declares(payload.len());
    assert(declared_len(bytes) == payload.len());
    assert(frame_payload(bytes) =~= payload);
    assert(frame_rest(bytes) =~= rest);
}

/// A buffer whose prefix declares more bytes than follow it holds no
/// frame, and neither does one shorter than a prefix.
pub proof fn lemma_truncated_has_no_frame(bytes: Seq<u8>)
    requires
        bytes.len() < 3 || bytes.len() - 3 < declared_len(bytes),
    ensures
        parse(bytes) is None,
{
}

/// Framing what was parsed gives back the bytes it was parsed from.
pub proof fn lemma_frame_parsed(bytes: Seq<u8>)
    requires
        has_frame(bytes),
    ensures
        frame(frame_payload(bytes)) + frame_rest(bytes) == bytes,
{
    lemma_declared_len_bound(bytes);
    assert(frame(frame_payload(bytes)) + frame_rest(bytes) =~= bytes);
}

} // verus!
