//! Length prefixed framing of messages on a byte stream: each frame is the total frame length
//! (prefix included) as a little endian `u64`, followed by the message bytes.

use vstd::prelude::*;
use crate::buf::{append_bytes, copy_range, split_front};
use crate::little_endian::{
    le_bytes, le_value, lemma_le_bytes_len, lemma_le_value_of_bytes, lemma_pow256_8, pow256,
    push_le, read_u64_le,
};

verus! {

/// Length in bytes of the length prefix.
pub const PREFIX_LEN: usize = 8;

/// The frame of a message: its length prefix (message length plus eight) and the message.
pub open spec fn frame(item: Seq<u8>) -> Seq<u8> {
    le_bytes((item.len() + 8 as int) as nat, 8) + item
}

/// The total frame length announced by the prefix of `b`.
pub open spec fn prefix_len(b: Seq<u8>) -> nat {
    le_value(b.subrange(0, 8))
}

/// The frame of a message followed by more bytes: the prefix announces the frame length, the
/// message sits right after the prefix and the rest follows the frame.
pub proof fn lemma_frame_parts(item: Seq<u8>, rest: Seq<u8>)
    requires
        item.len() + 8 < pow256(8),
    ensures
        (frame(item) + rest).len() == item.len() + 8 + rest.len(),
        prefix_len(frame(item) + rest) == item.len() + 8,
        (frame(item) + rest).subrange(8, item.len() + 8 as int) == item,
        (frame(item) + rest).subrange(item.len() + 8 as int, (frame(item) + rest).len() as int) == rest,
{
    let n = (item.len() + 8 as int) as nat;
    let b = frame(item) + rest;
    lemma_le_value_of_bytes(n, 8);
    assert(b.subrange(0, 8) =~= le_bytes(n, 8));
    assert(b.subrange(8, item.len() + 8 as int) =~= item);
    assert(b.subrange(item.len() + 8 as int, b.len() as int) =~= rest);
}

/// Appends the frame of `item` to `buf`.
pub fn push_frame(buf: &mut Vec<u8>, item: &[u8])
    requires
        item@.len() + 8 <= usize::MAX,
    ensures
        final(buf)@ == old(buf)@ + frame(item@),
{
    proof {
        lemma_pow256_8();
    }
    let total = item.len() + 8;
    let ghost before = buf@;
    push_le(buf, total as u64, 8);
    proof {
        lemma_le_bytes_len(total as nat, 8);
    }
    append_bytes(buf, item);
    assert(buf@ =~= before + frame(item@));
}

/// The frame length announced by the prefix of `buf`.
pub fn read_prefix(buf: &[u8]) -> (len: u64)
    requires
        buf@.len() >= 8,
    ensures
        len == prefix_len(buf@),
{
    read_u64_le(buf, 0)
}

/// Removes a whole frame of `len` bytes from the front of `buf` and returns the message it
/// holds (the frame without its prefix).
pub fn take_frame(buf: &mut Vec<u8>, len: usize) -> (item: Vec<u8>)
    requires
        8 <= len <= old(buf)@.len(),
    ensures
        item@ == old(buf)@.subrange(8, len as int),
        final(buf)@ == old(buf)@.subrange(len as int, old(buf)@.len() as int),
{
    let whole = split_front(buf, len);
    copy_range(whole.as_slice(), 8, len)
}

} // verus!

verus! {

/// What the front of a receive buffer holds.
#[derive(Debug, Clone, Copy, PartialEq, Eq, Structural)]
pub enum FrameCheck {
    /// Not enough bytes yet to tell, or the frame has not completely arrived.
    Incomplete,
    /// The prefix announces a frame too short to hold its own prefix (and header): the stream
    /// is malformed. The announced length.
    Malformed(u64),
    /// The announced message is bigger than allowed; the size that was measured.
    TooLarge(u64),
    /// A whole frame of this many bytes (prefix included) is at the front.
    Complete(usize),
}

/// Checking a buffer whose frames hold messages with a header of `header` bytes, where the
/// size limit applies to the payload after that header: nothing is decided before a prefix
/// and a header have arrived; then a frame too short for prefix and header is malformed; then
/// the payload size is checked against `max`, then whether the whole frame is there.
pub open spec fn payload_frame_check(b: Seq<u8>, header: nat, max: nat) -> FrameCheck {
    if b.len() < 8 + header {
        FrameCheck::Incomplete
    } else if prefix_len(b) < 8 + header {
        FrameCheck::Malformed(prefix_len(b) as u64)
    } else if prefix_len(b) - header - 8 > max {
        FrameCheck::TooLarge((prefix_len(b) - header - 8) as u64)
    } else if b.len() < prefix_len(b) {
        FrameCheck::Incomplete
    } else {
        FrameCheck::Complete(prefix_len(b) as usize)
    }
}

/// Checking a buffer where the size limit, if any, applies to the message (the frame without
/// its prefix): nothing is decided before the prefix has arrived; then a frame too short for
/// its own prefix is malformed; then the message length is checked against `max`, then
/// whether the whole frame is there.
pub open spec fn message_frame_check(b: Seq<u8>, max: Option<nat>) -> FrameCheck {
    if b.len() < 8 {
        FrameCheck::Incomplete
    } else if prefix_len(b) < 8 {
        FrameCheck::Malformed(prefix_len(b) as u64)
    } else if max is Some && prefix_len(b) - 8 > max->0 {
        FrameCheck::TooLarge((prefix_len(b) - 8) as u64)
    } else if b.len() < prefix_len(b) {
        FrameCheck::Incomplete
    } else {
        FrameCheck::Complete(prefix_len(b) as usize)
    }
}

/// Checks the front of `buf` for a frame whose message has a `header` byte header and a
/// payload of at most `max` bytes.
pub fn check_payload_frame(buf: &[u8], header: usize, max: usize) -> (r: FrameCheck)
    requires
        header <= 64,
    ensures
        r == payload_frame_check(buf@, header as nat, max as nat),
        r matches FrameCheck::Complete(len) ==> 8 + header <= len <= buf@.len(),
        buf@.len() < 8 + header ==> r is Incomplete,
        buf@.len() >= 8 + header && prefix_len(buf@) < 8 + header ==> r == FrameCheck::Malformed(
            prefix_len(buf@) as u64,
        ),
        buf@.len() >= 8 + header && prefix_len(buf@) >= 8 + header && prefix_len(buf@) - 8 - header
            > max ==> r == FrameCheck::TooLarge((prefix_len(buf@) - 8 - header) as u64),
        buf@.len() >= 8 + header && prefix_len(buf@) >= 8 + header && prefix_len(buf@) - 8 - header
            <= max ==> (if buf@.len() < prefix_len(buf@) {
            r is Incomplete
        } else {
            r == FrameCheck::Complete(prefix_len(buf@) as usize)
        }),
{
    proof {
        lemma_pow256_8();
        crate::little_endian::lemma_le_value_bound(buf@.subrange(0, 8));
    }
    if buf.len() < 8 + header {
        return FrameCheck::Incomplete;
    }
    let len = read_prefix(buf);
    if len < 8 + header as u64 {
        return FrameCheck::Malformed(len);
    }
    let payload = len - header as u64 - 8;
    if payload > max as u64 {
        return FrameCheck::TooLarge(payload);
    }
    if (buf.len() as u64) < len {
        return FrameCheck::Incomplete;
    }
    FrameCheck::Complete(len as usize)
}

/// Checks the front of `buf` for a frame holding a message of at most `max` bytes, when there
/// is a limit.
pub fn check_message_frame(buf: &[u8], max: Option<usize>) -> (r: FrameCheck)
    ensures
        r == message_frame_check(
            buf@,
            match max {
                Some(m) => Some(m as nat),
                None => None,
            },
        ),
        r matches FrameCheck::Complete(len) ==> 8 <= len <= buf@.len() && len == prefix_len(buf@),
        buf@.len() < 8 ==> r is Incomplete,
        buf@.len() >= 8 && prefix_len(buf@) < 8 ==> r == FrameCheck::Malformed(prefix_len(buf@) as u64),
        buf@.len() >= 8 && prefix_len(buf@) >= 8 && max is Some && prefix_len(buf@) - 8 > max->0
            ==> r == FrameCheck::TooLarge((prefix_len(buf@) - 8) as u64),
        buf@.len() >= 8 && prefix_len(buf@) >= 8 && (max is None || prefix_len(buf@) - 8 <= max->0)
            ==> (if buf@.len() < prefix_len(buf@) {
            r is Incomplete
        } else {
            r == FrameCheck::Complete(prefix_len(buf@) as usize)
        }),
{
    proof {
        lemma_pow256_8();
        crate::little_endian::lemma_le_value_bound(buf@.subrange(0, 8));
    }
    if buf.len() < 8 {
        return FrameCheck::Incomplete;
    }
    let len = read_prefix(buf);
    if len < 8 {
        return FrameCheck::Malformed(len);
    }
    match max {
        Some(m) => {
            if len - 8 > m as u64 {
                return FrameCheck::TooLarge(len - 8);
            }
        },
        None => {},
    }
    if (buf.len() as u64) < len {
        return FrameCheck::Incomplete;
    }
    FrameCheck::Complete(len as usize)
}

/// A frame followed by more bytes is recognized as a whole frame, when its payload is within
/// the limit.
pub proof fn lemma_payload_frame_check_frame(item: Seq<u8>, rest: Seq<u8>, header: nat, max: nat)
    requires
        item.len() >= header,
        item.len() - header <= max,
        item.len() + 8 <= usize::MAX,
    ensures
        payload_frame_check(frame(item) + rest, header, max) == FrameCheck::Complete(
            (item.len() + 8) as usize,
        ),
{
    lemma_pow256_8();
    lemma_frame_parts(item, rest);
}

/// A frame followed by more bytes is recognized as a whole frame, when its message is within
/// the limit.
pub proof fn lemma_message_frame_check_frame(item: Seq<u8>, rest: Seq<u8>, max: Option<nat>)
    requires
        max is Some ==> item.len() <= max->0,
        item.len() + 8 <= usize::MAX,
    ensures
        message_frame_check(frame(item) + rest, max) == FrameCheck::Complete(
            (item.len() + 8) as usize,
        ),
{
    lemma_pow256_8();
    lemma_frame_parts(item, rest);
}

/// A frame announcing too big a payload is refused as soon as its prefix and header are in:
/// however few of its bytes have arrived, the check says `TooLarge` with the payload size, and
/// it never waits for the rest (`Incomplete`) nor takes the frame (`Complete`).
pub proof fn law_payload_limit_before_arrival(b: Seq<u8>, header: nat, max: nat)
    requires
        b.len() >= 8 + header,
        prefix_len(b) >= 8 + header,
        prefix_len(b) - 8 - header > max,
    ensures
        payload_frame_check(b, header, max) == FrameCheck::TooLarge((prefix_len(b) - 8 - header) as u64),
        !(payload_frame_check(b, header, max) is Incomplete),
        !(payload_frame_check(b, header, max) is Complete),
{
}

/// A frame announcing too big a message is refused as soon as its prefix is in: however few of
/// its bytes have arrived, the check says `TooLarge` with the message size, and it never waits
/// for the rest (`Incomplete`) nor takes the frame (`Complete`).
pub proof fn law_message_limit_before_arrival(b: Seq<u8>, max: nat)
    requires
        b.len() >= 8,
        prefix_len(b) >= 8,
        prefix_len(b) - 8 > max,
    ensures
        message_frame_check(b, Some(max)) == FrameCheck::TooLarge((prefix_len(b) - 8) as u64),
        !(message_frame_check(b, Some(max)) is Incomplete),
        !(message_frame_check(b, Some(max)) is Complete),
{
}

} // verus!
