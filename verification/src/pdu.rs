//! Buffer operations shared by every format wrapper: length checks, clearing
//! a header, and copying payload bytes in.
use vstd::prelude::*;
use crate::error::{Error, Result};
use crate::field::{with_field, write_bits, write_flag, field_value, lemma_get_after_set, lemma_set_keeps_other_fields, lemma_field_of_zero_bytes};

verus! {

broadcast use crate::field::lemma_with_field_len;

/// `bytes` with the `count` bytes from index `from` set to zero.
pub open spec fn cleared(bytes: Seq<u8>, from: int, count: int) -> Seq<u8> {
    Seq::new(bytes.len(), |i: int| if from <= i < from + count { 0u8 } else { bytes[i] })
}

/// `bytes` with `src` copied in from index `at` on.
pub open spec fn with_bytes(bytes: Seq<u8>, at: int, src: Seq<u8>) -> Seq<u8> {
    Seq::new(bytes.len(), |i: int| if at <= i < at + src.len() { src[i - at] } else { bytes[i] })
}

/// Number of zero bytes that bring a payload of `len` bytes to a quadlet
/// boundary.
pub open spec fn pad_len(len: int) -> int {
    (4 - len % 4) % 4
}

/// The outcome of wrapping a buffer of `actual` bytes under a header of
/// `required` bytes.
pub open spec fn header_room(actual: usize, required: usize) -> Result<()> {
    if actual < required {
        Err(Error::BufferTooSmall { required, actual })
    } else {
        Ok(())
    }
}

/// Bytes needed for a header of `header_len` bytes and a payload of
/// `payload_len` bytes with its padding, saturated at `usize::MAX`.
pub open spec fn payload_room_needed(header_len: usize, payload_len: usize) -> usize {
    let needed = header_len + payload_len + pad_len(payload_len as int);
    if needed > usize::MAX { usize::MAX } else { needed as usize }
}

/// The outcome of checking that a buffer of `buffer_len` bytes holds a header
/// of `header_len` bytes and a padded payload of `payload_len` bytes.
pub open spec fn payload_room(buffer_len: usize, payload_len: usize, header_len: usize) -> Result<()> {
    if header_len + payload_len + pad_len(payload_len as int) <= buffer_len {
        Ok(())
    } else {
        Err(Error::BufferTooSmall { required: payload_room_needed(header_len, payload_len), actual: buffer_len })
    }
}

/// Fails with [`Error::BufferTooSmall`] when `actual` bytes cannot hold a
/// header of `required` bytes.
pub fn check_header_room(actual: usize, required: usize) -> (r: Result<()>)
    ensures
        r == header_room(actual, required),
{
    if actual < required {
        Err(Error::BufferTooSmall { required, actual })
    } else {
        Ok(())
    }
}

/// Number of pad bytes after a payload of `len` bytes.
pub fn pad_for(len: usize) -> (pad: usize)
    ensures
        pad as int == pad_len(len as int),
        pad < 4,
{
    (4 - len % 4) % 4
}

/// Fails with [`Error::BufferTooSmall`] when a buffer of `buffer_len` bytes
/// cannot hold a header of `header_len` bytes followed by a payload of
/// `payload_len` bytes and the pad bytes that align it to a quadlet.
pub fn check_payload_room(buffer_len: usize, payload_len: usize, header_len: usize) -> (r: Result<()>)
    ensures
        r == payload_room(buffer_len, payload_len, header_len),
{
    let pad = pad_for(payload_len);
    let needed = header_len.checked_add(payload_len);
    match needed {
        Some(n) => match n.checked_add(pad) {
            Some(total) => {
                if total <= buffer_len {
                    Ok(())
                } else {
                    Err(Error::BufferTooSmall { required: total, actual: buffer_len })
                }
            },
            None => Err(Error::BufferTooSmall { required: usize::MAX, actual: buffer_len }),
        },
        None => Err(Error::BufferTooSmall { required: usize::MAX, actual: buffer_len }),
    }
}

/// Sets the `count` bytes from index `from` to zero.
pub fn clear_bytes(bytes: &mut Vec<u8>, from: usize, count: usize)
    requires
        from + count <= old(bytes)@.len(),
    ensures
        final(bytes)@ == cleared(old(bytes)@, from as int, count as int),
{
    let ghost pre = bytes@;
    let n = bytes.len();
    let mut i: usize = 0;
    while i < count
        invariant
            i <= count,
            n == pre.len(),
            from + count <= pre.len(),
            bytes@.len() == pre.len(),
            forall|j: int|
                0 <= j < pre.len() ==> #[trigger] bytes@[j] == if from <= j < from + i {
                    0u8
                } else {
                    pre[j]
                },
        decreases count - i,
    {
        bytes.set(from + i, 0u8);
        i = i + 1;
    }
    assert(bytes@ =~= cleared(pre, from as int, count as int));
}

/// Copies the first `count` bytes of `src` into `bytes` from index `at` on.
pub fn copy_bytes(bytes: &mut Vec<u8>, at: usize, src: &[u8], count: usize)
    requires
        count <= src@.len(),
        at + count <= old(bytes)@.len(),
    ensures
        final(bytes)@ == with_bytes(old(bytes)@, at as int, src@.take(count as int)),
{
    let ghost pre = bytes@;
    let n = bytes.len();
    let mut i: usize = 0;
    while i < count
        invariant
            i <= count,
            n == pre.len(),
            count <= src@.len(),
            at + count <= pre.len(),
            bytes@.len() == pre.len(),
            forall|j: int|
                0 <= j < pre.len() ==> #[trigger] bytes@[j] == if at <= j < at + i {
                    src@[j - at]
                } else {
                    pre[j]
                },
        decreases count - i,
    {
        bytes.set(at + i, src[i]);
        i = i + 1;
    }
    assert(bytes@ =~= with_bytes(pre, at as int, src@.take(count as int)));
}

/// `bytes` with a fresh AVTP stream header of `header_len` bytes: the header
/// cleared, `subtype` in its first byte and the `sv` (stream id valid) bit
/// set.
pub open spec fn fresh_stream_header(bytes: Seq<u8>, header_len: int, subtype: nat) -> Seq<u8> {
    with_field(with_field(cleared(bytes, 0, header_len), 0, 8, subtype), 8, 1, 1)
}

/// A fresh stream header carries its subtype and the `sv` bit and nothing
/// else: every other field of the header reads zero.
pub proof fn lemma_fresh_stream_header(bytes: Seq<u8>, header_len: int, subtype: nat)
    requires
        4 <= header_len <= bytes.len(),
        subtype < 256,
    ensures
        fresh_stream_header(bytes, header_len, subtype).len() == bytes.len(),
        field_value(fresh_stream_header(bytes, header_len, subtype), 0, 8) == subtype,
        field_value(fresh_stream_header(bytes, header_len, subtype), 8, 1) == 1,
        forall|start: int, width: nat|
            9 <= start && start + width <= 8 * header_len ==> #[trigger] field_value(
                fresh_stream_header(bytes, header_len, subtype),
                start,
                width,
            ) == 0,
{
    let c = cleared(bytes, 0, header_len);
    let a = with_field(c, 0, 8, subtype);
    vstd::arithmetic::power2::lemma2_to64();
    lemma_get_after_set(c, 0, 8, subtype);
    lemma_set_keeps_other_fields(a, 8, 1, 1, 0, 8);
    lemma_get_after_set(a, 8, 1, 1);
    assert forall|start: int, width: nat| 9 <= start && start + width <= 8 * header_len implies #[trigger] field_value(
        fresh_stream_header(bytes, header_len, subtype),
        start,
        width,
    ) == 0 by {
        lemma_set_keeps_other_fields(a, 8, 1, 1, start, width);
        lemma_set_keeps_other_fields(c, 0, 8, subtype, start, width);
        lemma_field_of_zero_bytes(c, start, width);
    }
}

/// Clears the first `header_len` bytes, stamps `subtype` and sets the `sv`
/// bit, as a talker does before filling in a stream header.
pub fn start_stream_header(bytes: &mut Vec<u8>, header_len: usize, subtype: u8)
    requires
        4 <= header_len <= old(bytes)@.len(),
    ensures
        final(bytes)@ == fresh_stream_header(old(bytes)@, header_len as int, subtype as nat),
{
    clear_bytes(bytes, 0, header_len);
    write_bits(bytes, 0, 0, 8, subtype as u64);
    write_flag(bytes, 0, 8, true);
}

} // verus!
