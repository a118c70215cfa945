//! ACF common header: the first quadlet of every ACF message, and the
//! framing rules that every ACF message format shares.
//!
//! Use [`AcfCommon`] to walk a chain of ACF messages, such as the payload
//! region of a received TSCF or NTSCF container: peek at the message type and
//! length, dispatch to the format-specific parser, and advance by the message
//! length.
//!
//! Every ACF message starts with a 7-bit message type and a 9-bit message
//! length counted in quadlets (header, payload and pad). Formats with a pad
//! field keep the count of trailing pad bytes in the two bits after the
//! length.
use vstd::prelude::*;
use crate::common::AcfMsgType;
use crate::error::{Error, Result};
use crate::field::{field_value, with_field, read_u8, read_u16, write_bits, lemma_get_after_set, lemma_set_keeps_other_fields, lemma_set_keeps_other_bytes, lemma_field_from_bytes, lemma_field_of_zero_bytes};
use crate::pdu::{with_bytes, check_header_room, cleared, clear_bytes, pad_len, pad_for};

verus! {

broadcast use crate::field::lemma_with_field_len;

/// Size of the ACF common header in bytes.
pub const HEADER_LEN: usize = 4;

/// The 7-bit message type field.
pub open spec fn msg_type_of(bytes: Seq<u8>) -> nat {
    field_value(bytes, 0, 7)
}

/// The 9-bit message length field, in quadlets.
pub open spec fn msg_length_of(bytes: Seq<u8>) -> nat {
    field_value(bytes, 7, 9)
}

/// The 2-bit pad count of the formats that have one.
pub open spec fn pad_of(bytes: Seq<u8>) -> nat {
    field_value(bytes, 16, 2)
}

/// `bytes` turned into a fresh message of type `msg_type`: the first
/// `header_len` bytes cleared and the type stamped.
pub open spec fn fresh_message(bytes: Seq<u8>, header_len: int, msg_type: nat) -> Seq<u8> {
    with_field(cleared(bytes, 0, header_len), 0, 7, msg_type)
}

/// `bytes` with a payload of `payload_len` bytes closed off: the pad bytes
/// after it cleared, the message length set to header, payload and pad in
/// quadlets, and, for formats with a pad field, the pad count recorded.
pub open spec fn finalized(bytes: Seq<u8>, header_len: int, payload_len: int, has_pad: bool) -> Seq<u8> {
    let pad = pad_len(payload_len);
    let sized = with_field(
        cleared(bytes, header_len + payload_len, pad),
        7,
        9,
        ((header_len + payload_len + pad) / 4) as nat,
    );
    if has_pad {
        with_field(sized, 16, 2, pad as nat)
    } else {
        sized
    }
}

/// The payload length a message declares: its length in bytes less the
/// header and, for formats with a pad field, the pad count; zero when the
/// declared length is shorter than that.
pub open spec fn declared_payload_len(bytes: Seq<u8>, header_len: int, has_pad: bool) -> nat {
    let total = 4 * msg_length_of(bytes);
    let pad = if has_pad { pad_of(bytes) } else { 0 };
    if total >= header_len + pad {
        (total - header_len - pad) as nat
    } else {
        0
    }
}

/// The framing a receiver checks before trusting a message: the type is
/// `msg_type` and the declared length covers at least the header and at most
/// the buffer.
pub open spec fn frame_ok(bytes: Seq<u8>, header_len: int, msg_type: nat) -> bool {
    &&& msg_type_of(bytes) == msg_type
    &&& header_len <= 4 * msg_length_of(bytes)
    &&& 4 * msg_length_of(bytes) <= bytes.len()
}

/// `len` payload bytes from `header_len` on, cut at the end of a buffer of
/// `buffer_len` bytes.
pub open spec fn clamped_len(len: int, header_len: int, buffer_len: int) -> int {
    if len <= buffer_len - header_len { len } else { buffer_len - header_len }
}

/// The number of payload bytes a message takes on the wire for a payload of
/// `len` bytes: the length is carried in 16 bits.
pub open spec fn wire_len(len: nat) -> nat {
    len % 0x10000
}

/// Clears the header of a message and stamps its type.
pub fn start_message(bytes: &mut Vec<u8>, header_len: usize, msg_type: u8)
    requires
        4 <= header_len <= old(bytes)@.len(),
    ensures
        final(bytes)@ == fresh_message(old(bytes)@, header_len as int, msg_type as nat),
{
    clear_bytes(bytes, 0, header_len);
    write_bits(bytes, 0, 0, 7, msg_type as u64);
}

/// Closes off a payload of `payload_len` bytes that is already in place:
/// clears the pad bytes, sets the message length and, when `has_pad`, the pad
/// count.
pub fn finalize_message(bytes: &mut Vec<u8>, header_len: usize, payload_len: usize, has_pad: bool)
    requires
        4 <= header_len,
        header_len + payload_len + pad_len(payload_len as int) <= old(bytes)@.len(),
    ensures
        final(bytes)@ == finalized(old(bytes)@, header_len as int, payload_len as int, has_pad),
{
    let buffer_len = bytes.len();
    let pad = pad_for(payload_len);
    assert(header_len + payload_len + pad <= buffer_len);
    clear_bytes(bytes, header_len + payload_len, pad);
    let quadlets = (header_len + payload_len + pad) / 4;
    write_bits(bytes, 0, 7, 9, quadlets as u64);
    if has_pad {
        write_bits(bytes, 0, 16, 2, pad as u64);
    }
}

/// A message a talker has just started carries its type and nothing else: its
/// declared length, pad count and payload length are zero, so no receiver
/// takes it for a framed message until its payload is closed off.
pub proof fn lemma_fresh_message(bytes: Seq<u8>, header_len: int, msg_type: nat)
    requires
        4 <= header_len <= bytes.len(),
        msg_type < 128,
    ensures
        fresh_message(bytes, header_len, msg_type).len() == bytes.len(),
        msg_type_of(fresh_message(bytes, header_len, msg_type)) == msg_type,
        msg_length_of(fresh_message(bytes, header_len, msg_type)) == 0,
        pad_of(fresh_message(bytes, header_len, msg_type)) == 0,
        declared_payload_len(fresh_message(bytes, header_len, msg_type), header_len, true) == 0,
        declared_payload_len(fresh_message(bytes, header_len, msg_type), header_len, false) == 0,
        forall|t: nat| !#[trigger] frame_ok(fresh_message(bytes, header_len, msg_type), header_len, t),
{
    let c = cleared(bytes, 0, header_len);
    vstd::arithmetic::power2::lemma2_to64();
    lemma_get_after_set(c, 0, 7, msg_type);
    lemma_set_keeps_other_fields(c, 0, 7, msg_type, 7, 9);
    lemma_set_keeps_other_fields(c, 0, 7, msg_type, 16, 2);
    lemma_field_of_zero_bytes(c, 7, 9);
    lemma_field_of_zero_bytes(c, 16, 2);
}

/// Closing off a payload of `payload_len` bytes frames the message: the
/// declared length covers header, payload and pad exactly, the pad count and
/// the payload length read back as written, the type and the payload bytes
/// stay as they were, the pad bytes are zero, and a receiver that checks the
/// framing accepts the message. Holds while the length fits its 9-bit field.
pub proof fn lemma_finalized_frame(bytes: Seq<u8>, header_len: int, payload_len: int, has_pad: bool)
    requires
        4 <= header_len,
        header_len % 4 == 0,
        0 <= payload_len,
        header_len + payload_len + pad_len(payload_len) <= bytes.len(),
        header_len + payload_len + pad_len(payload_len) < 2048,
    ensures
        finalized(bytes, header_len, payload_len, has_pad).len() == bytes.len(),
        4 * msg_length_of(finalized(bytes, header_len, payload_len, has_pad)) == header_len
            + payload_len + pad_len(payload_len),
        has_pad ==> pad_of(finalized(bytes, header_len, payload_len, true)) == pad_len(payload_len),
        declared_payload_len(finalized(bytes, header_len, payload_len, has_pad), header_len, has_pad)
            == payload_len + if has_pad { 0 } else { pad_len(payload_len) },
        msg_type_of(finalized(bytes, header_len, payload_len, has_pad)) == msg_type_of(bytes),
        finalized(bytes, header_len, payload_len, has_pad).subrange(
            header_len,
            header_len + payload_len,
        ) == bytes.subrange(header_len, header_len + payload_len),
        forall|i: int|
            header_len + payload_len <= i < header_len + payload_len + pad_len(payload_len)
                ==> #[trigger] finalized(bytes, header_len, payload_len, has_pad)[i] == 0u8,
        frame_ok(finalized(bytes, header_len, payload_len, has_pad), header_len, msg_type_of(bytes)),
{
    let pad = pad_len(payload_len);
    let total = header_len + payload_len + pad;
    let q = (total / 4) as nat;
    let cl = cleared(bytes, header_len + payload_len, pad);
    let sized = with_field(cl, 7, 9, q);
    let f = finalized(bytes, header_len, payload_len, has_pad);
    assert(total % 4 == 0);
    assert(4 * q == total);
    vstd::arithmetic::power2::lemma2_to64();
    // The header bits the length and pad fields leave alone come from `bytes`.
    assert forall|j: int| 8 * j < 7 && 0 < 8 * j + 8 implies #[trigger] cl[j] == bytes[j] by {}
    lemma_field_from_bytes(cl, bytes, 0, 7);
    lemma_get_after_set(cl, 7, 9, q);
    lemma_set_keeps_other_fields(cl, 7, 9, q, 0, 7);
    if has_pad {
        lemma_get_after_set(sized, 16, 2, pad as nat);
        lemma_set_keeps_other_fields(sized, 16, 2, pad as nat, 7, 9);
        lemma_set_keeps_other_fields(sized, 16, 2, pad as nat, 0, 7);
    }
    assert(msg_length_of(f) == q);
    assert forall|i: int| header_len <= i < total implies #[trigger] f[i] == cl[i] by {
        lemma_set_keeps_other_bytes(cl, 7, 9, q, i);
        if has_pad {
            lemma_set_keeps_other_bytes(sized, 16, 2, pad as nat, i);
        }
    }
    assert(f.subrange(header_len, header_len + payload_len) =~= bytes.subrange(
        header_len,
        header_len + payload_len,
    ));
}

/// Closing off a payload keeps every header field that lies apart from the
/// type-and-length quadlet's length bits and, for formats with one, the pad
/// count.
pub proof fn lemma_finalized_keeps_field(
    bytes: Seq<u8>,
    header_len: int,
    payload_len: int,
    has_pad: bool,
    start: int,
    width: nat,
)
    requires
        4 <= header_len,
        0 <= payload_len,
        header_len + payload_len + pad_len(payload_len) <= bytes.len(),
        0 <= start,
        start + width <= 8 * header_len,
        start + width <= 7 || 18 <= start || (!has_pad && 16 <= start),
    ensures
        field_value(finalized(bytes, header_len, payload_len, has_pad), start, width)
            == field_value(bytes, start, width),
{
    let pad = pad_len(payload_len);
    let q = ((header_len + payload_len + pad) / 4) as nat;
    let cl = cleared(bytes, header_len + payload_len, pad);
    let sized = with_field(cl, 7, 9, q);
    assert(0 <= pad < 4);
    assert(cl.len() == bytes.len() && sized.len() == bytes.len());
    assert forall|j: int| 8 * j < start + width && start < 8 * j + 8 implies #[trigger] cl[j]
        == bytes[j] by {}
    lemma_field_from_bytes(cl, bytes, start, width);
    lemma_set_keeps_other_fields(cl, 7, 9, q, start, width);
    if has_pad {
        lemma_set_keeps_other_fields(sized, 16, 2, pad as nat, start, width);
    }
}

/// Copying payload bytes in after a header keeps every header field.
pub proof fn lemma_with_bytes_keeps_field(bytes: Seq<u8>, at: int, src: Seq<u8>, start: int, width: nat)
    requires
        0 <= start,
        start + width <= 8 * at,
        at <= bytes.len(),
    ensures
        field_value(with_bytes(bytes, at, src), start, width) == field_value(bytes, start, width),
{
    let w = with_bytes(bytes, at, src);
    assert forall|j: int| 8 * j < start + width && start < 8 * j + 8 implies #[trigger] w[j]
        == bytes[j] by {}
    lemma_field_from_bytes(w, bytes, start, width);
}

/// The payload length `bytes` declares, as [`declared_payload_len`] defines it.
pub fn payload_len_declared(bytes: &Vec<u8>, header_len: usize, has_pad: bool) -> (len: u16)
    requires
        bytes@.len() >= 4,
        header_len <= 64,
    ensures
        len as nat == declared_payload_len(bytes@, header_len as int, has_pad),
{
    proof {
        crate::field::lemma_field_value_bound(bytes@, 7, 9);
        crate::field::lemma_field_value_bound(bytes@, 16, 2);
        vstd::arithmetic::power2::lemma2_to64();
    }
    let total = 4 * read_u16(bytes, 0, 7, 9);
    let pad: u16 = if has_pad {
        read_u8(bytes, 0, 16, 2) as u16
    } else {
        0
    };
    if total >= header_len as u16 + pad {
        total - header_len as u16 - pad
    } else {
        0
    }
}

/// The declared message length in bytes.
pub fn message_length_in_bytes(bytes: &Vec<u8>) -> (len: u16)
    requires
        bytes@.len() >= 4,
    ensures
        len as nat == 4 * msg_length_of(bytes@),
{
    proof {
        crate::field::lemma_field_value_bound(bytes@, 7, 9);
        vstd::arithmetic::power2::lemma2_to64();
    }
    4 * read_u16(bytes, 0, 7, 9)
}

/// A buffer with room for a padded payload of `len` bytes also has room for
/// the part of it that goes on the wire.
pub proof fn lemma_wire_len_room(header_len: int, len: nat, buffer_len: int)
    requires
        header_len + len + pad_len(len as int) <= buffer_len,
    ensures
        header_len + wire_len(len) + pad_len(wire_len(len) as int) <= buffer_len,
        wire_len(len) <= len,
{
    if len >= 0x10000 {
        assert(wire_len(len) < 0x10000);
    } else {
        assert(wire_len(len) == len);
    }
}

/// The payload size a CAN-family message's declared length leaves after a
/// header of `header_len` bytes stays within what the framing allows: 8
/// bytes for classic CAN, 64 for CAN FD.
pub open spec fn can_payload_fits(bytes: Seq<u8>, header_len: int, fd: bool) -> bool {
    let payload = 4 * msg_length_of(bytes) - header_len;
    if fd {
        payload <= 64
    } else {
        payload <= 8
    }
}

/// Checks [`can_payload_fits`] for a message whose declared length covers its
/// header.
pub fn can_payload_fits_framing(bytes: &Vec<u8>, header_len: usize, fd: bool) -> (ok: bool)
    requires
        bytes@.len() >= 4,
        4 * msg_length_of(bytes@) >= header_len,
    ensures
        ok == can_payload_fits(bytes@, header_len as int, fd),
{
    let payload = message_length_in_bytes(bytes) as usize - header_len;
    if fd {
        payload <= 64
    } else {
        payload <= 8
    }
}

/// Checks the framing of a message as [`frame_ok`] defines it.
pub fn message_frame_ok(bytes: &Vec<u8>, header_len: usize, msg_type: u8) -> (ok: bool)
    requires
        bytes@.len() >= 4,
    ensures
        ok == frame_ok(bytes@, header_len as int, msg_type as nat),
{
    proof {
        crate::field::lemma_field_value_bound(bytes@, 7, 9);
        vstd::arithmetic::power2::lemma2_to64();
    }
    let t = read_u8(bytes, 0, 0, 7);
    let total = 4 * (read_u16(bytes, 0, 7, 9) as usize);
    t == msg_type && header_len <= total && total <= bytes.len()
}

/// The `len` bytes after a header of `header_len` bytes, cut at the end of
/// the buffer.
pub fn payload_slice(bytes: &Vec<u8>, header_len: usize, len: usize) -> (payload: &[u8])
    requires
        header_len <= bytes@.len(),
    ensures
        payload@ == bytes@.subrange(
            header_len as int,
            header_len + clamped_len(len as int, header_len as int, bytes@.len() as int),
        ),
{
    let available = bytes.len() - header_len;
    let n = if len <= available { len } else { available };
    let s = bytes.as_slice();
    &s[header_len..header_len + n]
}

/// A view of the ACF common header of a message.
pub struct AcfCommon {
    bytes: Vec<u8>,
}

impl View for AcfCommon {
    type V = Seq<u8>;

    closed spec fn view(&self) -> Seq<u8> {
        self.bytes@
    }
}

impl AcfCommon {
    /// The buffer holds at least a whole header.
    pub open spec fn wf(&self) -> bool {
        self@.len() >= HEADER_LEN
    }

    /// Wraps `buf`; fails with [`Error::BufferTooSmall`] when it cannot hold
    /// the header.
    pub fn new(buf: Vec<u8>) -> (r: Result<Self>)
        ensures
            r is Ok <==> buf.len() >= HEADER_LEN,
            r matches Ok(p) ==> p@ == buf@,
            r matches Err(e) ==> e == (Error::BufferTooSmall { required: HEADER_LEN, actual: buf.len() }),
    {
        match check_header_room(buf.len(), HEADER_LEN) {
            Ok(()) => Ok(AcfCommon { bytes: buf }),
            Err(e) => Err(e),
        }
    }

    /// The whole buffer.
    pub fn as_bytes(&self) -> (bytes: &[u8])
        ensures
            bytes@ == self@,
    {
        self.bytes.as_slice()
    }

    /// Gives the buffer back.
    pub fn into_inner(self) -> (bytes: Vec<u8>)
        ensures
            bytes@ == self@,
    {
        self.bytes
    }

    /// The whole buffer, for writing.
    pub fn as_bytes_mut(&mut self) -> (bytes: &mut [u8])
        ensures
            bytes@ == old(self)@,
            final(self)@ == final(bytes)@,
    {
        self.bytes.as_mut_slice()
    }

    /// The standardized ACF message type; fails with
    /// [`Error::InvalidValue`] for user-defined or vendor-assigned types, for
    /// which [`Self::acf_msg_type_raw`] gives the raw value.
    pub fn acf_msg_type(&self) -> (r: Result<AcfMsgType>)
        requires
            self.wf(),
        ensures
            r == AcfMsgType::decode(msg_type_of(self@) as u8),
    {
        AcfMsgType::try_from(self.acf_msg_type_raw())
    }

    /// The raw 7-bit message type. IEEE 1722 reserves 0x78..=0x7F for
    /// user-defined messages, and other specifications assign values outside
    /// the standardized set (VSS uses 0x42).
    pub fn acf_msg_type_raw(&self) -> (r: u8)
        requires
            self.wf(),
        ensures
            r as nat == msg_type_of(self@),
    {
        read_u8(&self.bytes, 0, 0, 7)
    }

    /// Declared message length in quadlets (header, payload and pad).
    pub fn acf_msg_length(&self) -> (r: u16)
        requires
            self.wf(),
        ensures
            r as nat == msg_length_of(self@),
    {
        read_u16(&self.bytes, 0, 7, 9)
    }

    /// Declared message length in bytes (header, payload and pad).
    ///
    /// Callers walking a chain of messages should treat it as untrusted: a
    /// malformed frame may declare more bytes than it holds, or zero, which
    /// would stall the walk.
    pub fn message_length(&self) -> (r: u16)
        requires
            self.wf(),
        ensures
            r as nat == 4 * msg_length_of(self@),
    {
        message_length_in_bytes(&self.bytes)
    }

    /// Sets the standardized ACF message type.
    /// Setting the message type and reading it back gives it back, and the
    /// message length stays as it was.
    pub proof fn lemma_set_acf_msg_type_round_trip(bytes: Seq<u8>, value: AcfMsgType)
        requires
            bytes.len() >= HEADER_LEN,
        ensures
            AcfMsgType::decode(msg_type_of(with_field(bytes, 0, 7, value.code() as nat)) as u8)
                == Ok::<AcfMsgType, Error>(value),
            msg_length_of(with_field(bytes, 0, 7, value.code() as nat)) == msg_length_of(bytes),
    {
        vstd::arithmetic::power2::lemma2_to64();
        lemma_get_after_set(bytes, 0, 7, value.code() as nat);
        lemma_set_keeps_other_fields(bytes, 0, 7, value.code() as nat, 7, 9);
        value.lemma_decode_code();
    }

    pub fn set_acf_msg_type(&mut self, value: AcfMsgType)
        requires
            old(self).wf(),
        ensures
            final(self)@ == with_field(old(self)@, 0, 7, value.code() as nat),
    {
        self.set_acf_msg_type_raw(value.as_u8());
    }

    /// Sets the message type to a user-defined or vendor-assigned value.
    pub fn set_acf_msg_type_raw(&mut self, value: u8)
        requires
            old(self).wf(),
        ensures
            final(self)@ == with_field(old(self)@, 0, 7, value as nat),
    {
        write_bits(&mut self.bytes, 0, 0, 7, value as u64);
    }

    /// Sets the message length (in quadlets) directly. The format wrappers'
    /// `create_acf_message` and `set_payload_length` compute it from the
    /// payload size.
    pub fn set_acf_msg_length(&mut self, value: u16)
        requires
            old(self).wf(),
        ensures
            final(self)@ == with_field(old(self)@, 7, 9, value as nat),
    {
        write_bits(&mut self.bytes, 0, 7, 9, value as u64);
    }
}

} // verus!
