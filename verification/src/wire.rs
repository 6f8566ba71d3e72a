//! The wire format: a frame is an eight-byte big-endian length followed by exactly
//! that many payload bytes. Frames follow each other with nothing in between.

use vstd::prelude::*;

verus! {

/// Number of bytes of the length prefix of a frame.
pub const LENGTH_PREFIX_LEN: u64 = 8;

/// The eight bytes that stand for `n`, most significant byte first.
pub open spec fn be_bytes(n: u64) -> Seq<u8> {
    seq![
        (n / 0x0100_0000_0000_0000) as u8,
        (n / 0x0001_0000_0000_0000 % 0x100) as u8,
        (n / 0x0000_0100_0000_0000 % 0x100) as u8,
        (n / 0x0000_0001_0000_0000 % 0x100) as u8,
        (n / 0x0000_0000_0100_0000 % 0x100) as u8,
        (n / 0x0000_0000_0001_0000 % 0x100) as u8,
        (n / 0x0000_0000_0000_0100 % 0x100) as u8,
        (n % 0x100) as u8,
    ]
}

/// The number whose eight bytes are these, from the most significant to the least.
pub open spec fn be_number(b0: u8, b1: u8, b2: u8, b3: u8, b4: u8, b5: u8, b6: u8, b7: u8) -> int {
    b0 * 0x0100_0000_0000_0000 + b1 * 0x0001_0000_0000_0000 + b2 * 0x0000_0100_0000_0000 + b3
        * 0x0000_0001_0000_0000 + b4 * 0x0000_0000_0100_0000 + b5 * 0x0000_0000_0001_0000 + b6
        * 0x0000_0000_0000_0100 + b7
}

/// The number that eight bytes stand for, most significant byte first.
pub open spec fn be_value(bytes: Seq<u8>) -> int
    recommends
        bytes.len() == 8,
{
    be_number(bytes[0], bytes[1], bytes[2], bytes[3], bytes[4], bytes[5], bytes[6], bytes[7])
}

/// Reading back the bytes of a number gives the number.
pub proof fn lemma_be_value_of_bytes(n: u64)
    ensures
        be_bytes(n).len() == 8,
        be_value(be_bytes(n)) == n,
{
    assert(be_number(
        (n / 0x0100_0000_0000_0000) as u8,
        (n / 0x0001_0000_0000_0000 % 0x100) as u8,
        (n / 0x0000_0100_0000_0000 % 0x100) as u8,
        (n / 0x0000_0001_0000_0000 % 0x100) as u8,
        (n / 0x0000_0000_0100_0000 % 0x100) as u8,
        (n / 0x0000_0000_0001_0000 % 0x100) as u8,
        (n / 0x0000_0000_0000_0100 % 0x100) as u8,
        (n % 0x100) as u8,
    ) == n) by (bit_vector);
}

/// Writing out the number that eight bytes stand for gives the same eight bytes.
pub proof fn lemma_be_bytes_of_value(bytes: Seq<u8>)
    requires
        bytes.len() == 8,
    ensures
        0 <= be_value(bytes) <= u64::MAX,
        be_bytes(be_value(bytes) as u64) == bytes,
{
    let (b0, b1, b2, b3) = (bytes[0], bytes[1], bytes[2], bytes[3]);
    let (b4, b5, b6, b7) = (bytes[4], bytes[5], bytes[6], bytes[7]);
    assert(be_number(b0, b1, b2, b3, b4, b5, b6, b7) <= 0xffff_ffff_ffff_ffff) by (bit_vector);
    let n = be_value(bytes) as u64;
    assert({
        &&& (n / 0x0100_0000_0000_0000) as u8 == b0
        &&& (n / 0x0001_0000_0000_0000 % 0x100) as u8 == b1
        &&& (n / 0x0000_0100_0000_0000 % 0x100) as u8 == b2
        &&& (n / 0x0000_0001_0000_0000 % 0x100) as u8 == b3
        &&& (n / 0x0000_0000_0100_0000 % 0x100) as u8 == b4
        &&& (n / 0x0000_0000_0001_0000 % 0x100) as u8 == b5
        &&& (n / 0x0000_0000_0000_0100 % 0x100) as u8 == b6
        &&& (n % 0x100) as u8 == b7
    }) by (bit_vector)
        requires
            n == be_number(b0, b1, b2, b3, b4, b5, b6, b7),
    ;
}

/// The length prefix of a payload of `len` bytes.
pub fn length_prefix(len: u64) -> (prefix: [u8; 8])
    ensures
        prefix@ == be_bytes(len),
{
    [
        (len / 0x0100_0000_0000_0000) as u8,
        (len / 0x0001_0000_0000_0000 % 0x100) as u8,
        (len / 0x0000_0100_0000_0000 % 0x100) as u8,
        (len / 0x0000_0001_0000_0000 % 0x100) as u8,
        (len / 0x0000_0000_0100_0000 % 0x100) as u8,
        (len / 0x0000_0000_0001_0000 % 0x100) as u8,
        (len / 0x0000_0000_0000_0100 % 0x100) as u8,
        (len % 0x100) as u8,
    ]
}

/// The payload length that a length prefix announces.
pub fn payload_length(prefix: &[u8]) -> (len: u64)
    requires
        prefix@.len() == 8,
    ensures
        len == be_value(prefix@),
        be_bytes(len) == prefix@,
{
    proof {
        lemma_be_bytes_of_value(prefix@);
    }
    let high: u64 = prefix[0] as u64 * 0x0100_0000_0000_0000 + prefix[1] as u64
        * 0x0001_0000_0000_0000 + prefix[2] as u64 * 0x0000_0100_0000_0000 + prefix[3] as u64
        * 0x0000_0001_0000_0000;
    let low: u64 = prefix[4] as u64 * 0x0000_0000_0100_0000 + prefix[5] as u64
        * 0x0000_0000_0001_0000 + prefix[6] as u64 * 0x0000_0000_0000_0100 + prefix[7] as u64;
    high + low
}

/// One frame: the length of the payload in eight bytes, then the payload.
pub open spec fn frame(payload: Seq<u8>) -> Seq<u8>
    recommends
        payload.len() <= u64::MAX,
{
    be_bytes(payload.len() as u64) + payload
}

/// The bytes of a stream that carries the frames of `payloads`, in order and with
/// nothing in between.
pub open spec fn frames(payloads: Seq<Seq<u8>>) -> Seq<u8>
    decreases payloads.len(),
{
    if payloads.len() == 0 {
        Seq::empty()
    } else {
        frame(payloads.first()) + frames(payloads.drop_first())
    }
}

/// A frame is cut apart again into its payload: the prefix gives the length, and the
/// bytes behind the prefix are the payload.
pub proof fn lemma_frame_parts(payload: Seq<u8>)
    requires
        payload.len() <= u64::MAX,
    ensures
        frame(payload).len() == 8 + payload.len(),
        be_value(frame(payload).take(8)) == payload.len(),
        frame(payload).skip(8) == payload,
{
    lemma_be_value_of_bytes(payload.len() as u64);
}

} // verus!
