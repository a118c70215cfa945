//! Big-endian bit fields over a byte buffer.
//!
//! Every IEEE 1722 header field is a run of bits inside the PDU, counted in
//! network order: bit 0 is the most significant bit of byte 0. A field is
//! addressed the way the standard's tables draw it, by quadlet (32-bit word),
//! bit offset inside that quadlet, and width; it may run on into the next
//! quadlets (stream ids and timestamps are 64 bits wide).
use vstd::prelude::*;
use vstd::arithmetic::power2::*;
use vstd::arithmetic::div_mod::*;
use vstd::bits::*;

verus! {

/// Bit `i` of `bytes`, numbered from the most significant bit of byte 0.
pub open spec fn bit_at(bytes: Seq<u8>, i: int) -> bool {
    (bytes[i / 8] >> ((7 - i % 8) as u8)) & 1u8 == 1u8
}

/// The unsigned integer held by the `width` bits of `bytes` that start at bit
/// `start`, most significant bit first.
pub open spec fn field_value(bytes: Seq<u8>, start: int, width: nat) -> nat
    decreases width,
{
    if width == 0 {
        0
    } else {
        2 * field_value(bytes, start, (width - 1) as nat) + if bit_at(bytes, start + width - 1) {
            1nat
        } else {
            0nat
        }
    }
}

/// Bit `j` of `value`, counted from the least significant bit.
pub open spec fn value_bit(value: nat, j: nat) -> bool {
    (value / pow2(j)) % 2 == 1
}

/// `new` is `old` with the `width` bits starting at bit `start` replaced by the
/// low `width` bits of `value` (most significant first) and every other bit
/// left as it was.
pub open spec fn field_written(old: Seq<u8>, new: Seq<u8>, start: int, width: nat, value: nat) -> bool {
    &&& new.len() == old.len()
    &&& forall|i: int|
        0 <= i < 8 * old.len() && !(start <= i < start + width) ==> #[trigger] bit_at(new, i)
            == bit_at(old, i)
    &&& forall|k: int|
        0 <= k < width ==> #[trigger] bit_at(new, start + k) == value_bit(
            value,
            (width - 1 - k) as nat,
        )
}

/// Bit `i` of a buffer after the field at `start` has been given `value`.
pub open spec fn written_bit(old: Seq<u8>, start: int, width: nat, value: nat, i: int) -> bool {
    if start <= i < start + width {
        value_bit(value, (start + width - 1 - i) as nat)
    } else {
        bit_at(old, i)
    }
}

/// The byte whose bits, most significant first, are `b0` to `b7`.
pub open spec fn byte_of_bits(
    b0: bool,
    b1: bool,
    b2: bool,
    b3: bool,
    b4: bool,
    b5: bool,
    b6: bool,
    b7: bool,
) -> u8 {
    (if b0 { 0x80u8 } else { 0u8 }) | (if b1 { 0x40u8 } else { 0u8 }) | (if b2 { 0x20u8 } else { 0u8 })
        | (if b3 { 0x10u8 } else { 0u8 }) | (if b4 { 0x08u8 } else { 0u8 }) | (if b5 { 0x04u8 } else { 0u8 })
        | (if b6 { 0x02u8 } else { 0u8 }) | (if b7 { 0x01u8 } else { 0u8 })
}

/// `bytes` with the `width`-bit field at bit `start` set to the low `width`
/// bits of `value` and every other bit unchanged.
#[verifier::opaque]
pub open spec fn with_field(bytes: Seq<u8>, start: int, width: nat, value: nat) -> Seq<u8> {
    Seq::new(
        bytes.len(),
        |n: int|
            byte_of_bits(
                written_bit(bytes, start, width, value, 8 * n),
                written_bit(bytes, start, width, value, 8 * n + 1),
                written_bit(bytes, start, width, value, 8 * n + 2),
                written_bit(bytes, start, width, value, 8 * n + 3),
                written_bit(bytes, start, width, value, 8 * n + 4),
                written_bit(bytes, start, width, value, 8 * n + 5),
                written_bit(bytes, start, width, value, 8 * n + 6),
                written_bit(bytes, start, width, value, 8 * n + 7),
            ),
    )
}

/// Setting a field keeps the buffer's length.
pub broadcast proof fn lemma_with_field_len(bytes: Seq<u8>, start: int, width: nat, value: nat)
    ensures
        #[trigger] with_field(bytes, start, width, value).len() == bytes.len(),
{
    reveal(with_field);
}

/// A field fits inside a buffer of `len` bytes.
pub open spec fn fits(len: nat, start: int, width: nat) -> bool {
    0 <= start && start + width <= 8 * len
}

/// First bit of the field at `offset` inside quadlet `quadlet`.
pub open spec fn bit_start(quadlet: int, offset: int) -> int {
    32 * quadlet + offset
}

proof fn lemma_byte_bit_set(x: u8, s: u8, t: u8)
    requires
        s < 8,
        t < 8,
    ensures
        ((x | (1u8 << s)) >> t) & 1u8 == (if s == t {
            1u8
        } else {
            (x >> t) & 1u8
        }),
        ((x & !(1u8 << s)) >> t) & 1u8 == (if s == t {
            0u8
        } else {
            (x >> t) & 1u8
        }),
{
    assert(((x | (1u8 << s)) >> t) & 1u8 == (if s == t {
        1u8
    } else {
        (x >> t) & 1u8
    })) by (bit_vector)
        requires
            s < 8,
            t < 8,
    ;
    assert(((x & !(1u8 << s)) >> t) & 1u8 == (if s == t {
        0u8
    } else {
        (x >> t) & 1u8
    })) by (bit_vector)
        requires
            s < 8,
            t < 8,
    ;
}

proof fn lemma_byte_from_bits(x: u8, y: u8)
    requires
        (x >> 0u8) & 1u8 == (y >> 0u8) & 1u8,
        (x >> 1u8) & 1u8 == (y >> 1u8) & 1u8,
        (x >> 2u8) & 1u8 == (y >> 2u8) & 1u8,
        (x >> 3u8) & 1u8 == (y >> 3u8) & 1u8,
        (x >> 4u8) & 1u8 == (y >> 4u8) & 1u8,
        (x >> 5u8) & 1u8 == (y >> 5u8) & 1u8,
        (x >> 6u8) & 1u8 == (y >> 6u8) & 1u8,
        (x >> 7u8) & 1u8 == (y >> 7u8) & 1u8,
    ensures
        x == y,
{
    assert(x == y) by (bit_vector)
        requires
            (x >> 0u8) & 1u8 == (y >> 0u8) & 1u8,
            (x >> 1u8) & 1u8 == (y >> 1u8) & 1u8,
            (x >> 2u8) & 1u8 == (y >> 2u8) & 1u8,
            (x >> 3u8) & 1u8 == (y >> 3u8) & 1u8,
            (x >> 4u8) & 1u8 == (y >> 4u8) & 1u8,
            (x >> 5u8) & 1u8 == (y >> 5u8) & 1u8,
            (x >> 6u8) & 1u8 == (y >> 6u8) & 1u8,
            (x >> 7u8) & 1u8 == (y >> 7u8) & 1u8,
    ;
}

proof fn lemma_byte_bit_agrees(a: Seq<u8>, b: Seq<u8>, n: int, t: int)
    requires
        0 <= n < a.len(),
        a.len() == b.len(),
        0 <= t < 8,
        forall|i: int| 0 <= i < 8 * a.len() ==> #[trigger] bit_at(a, i) == bit_at(b, i),
    ensures
        (a[n] >> ((7 - t) as u8)) & 1u8 == (b[n] >> ((7 - t) as u8)) & 1u8,
{
    let i = 8 * n + t;
    assert(bit_at(a, i) == bit_at(b, i));
    assert(i / 8 == n && i % 8 == t);
    let x = a[n];
    let y = b[n];
    let s = (7 - t) as u8;
    assert(((x >> s) & 1u8 == 1u8) == ((y >> s) & 1u8 == 1u8) ==> (x >> s) & 1u8 == (y >> s)
        & 1u8) by (bit_vector);
}

/// Two buffers of one length that agree on every bit are equal.
pub proof fn lemma_bits_determine_bytes(a: Seq<u8>, b: Seq<u8>)
    requires
        a.len() == b.len(),
        forall|i: int| 0 <= i < 8 * a.len() ==> #[trigger] bit_at(a, i) == bit_at(b, i),
    ensures
        a == b,
{
    assert forall|n: int| 0 <= n < a.len() implies a[n] == b[n] by {
        lemma_byte_bit_agrees(a, b, n, 0);
        lemma_byte_bit_agrees(a, b, n, 1);
        lemma_byte_bit_agrees(a, b, n, 2);
        lemma_byte_bit_agrees(a, b, n, 3);
        lemma_byte_bit_agrees(a, b, n, 4);
        lemma_byte_bit_agrees(a, b, n, 5);
        lemma_byte_bit_agrees(a, b, n, 6);
        lemma_byte_bit_agrees(a, b, n, 7);
        lemma_byte_from_bits(a[n], b[n]);
    }
    assert(a =~= b);
}

/// A field's value is below two to the power of its width.
pub proof fn lemma_field_value_bound(bytes: Seq<u8>, start: int, width: nat)
    ensures
        field_value(bytes, start, width) < pow2(width),
    decreases width,
{
    reveal(pow2);
    if width > 0 {
        lemma_field_value_bound(bytes, start, (width - 1) as nat);
        lemma_pow2_unfold(width);
    } else {
        lemma_pow2(0);
        vstd::arithmetic::power::lemma_pow0(2);
    }
}

/// A field's value depends only on the bits inside the field.
pub proof fn lemma_field_value_depends_on_field_bits(a: Seq<u8>, b: Seq<u8>, start: int, width: nat)
    requires
        forall|k: int| 0 <= k < width ==> #[trigger] bit_at(a, start + k) == bit_at(b, start + k),
    ensures
        field_value(a, start, width) == field_value(b, start, width),
    decreases width,
{
    if width > 0 {
        lemma_field_value_depends_on_field_bits(a, b, start, (width - 1) as nat);
        assert(bit_at(a, start + (width - 1)) == bit_at(b, start + (width - 1)));
    }
}

/// Equal field values mean equal bits inside the field.
pub proof fn lemma_field_value_injective(a: Seq<u8>, b: Seq<u8>, start: int, width: nat)
    requires
        field_value(a, start, width) == field_value(b, start, width),
    ensures
        forall|k: int| 0 <= k < width ==> #[trigger] bit_at(a, start + k) == bit_at(b, start + k),
    decreases width,
{
    if width > 0 {
        let w1 = (width - 1) as nat;
        let fa = field_value(a, start, w1);
        let fb = field_value(b, start, w1);
        let ba: nat = if bit_at(a, start + width - 1) { 1 } else { 0 };
        let bb: nat = if bit_at(b, start + width - 1) { 1 } else { 0 };
        assert(2 * fa + ba == 2 * fb + bb);
        assert(ba == bb && fa == fb);
        lemma_field_value_injective(a, b, start, w1);
        assert forall|k: int| 0 <= k < width implies #[trigger] bit_at(a, start + k) == bit_at(
            b,
            start + k,
        ) by {
            if k < w1 {
                assert(bit_at(a, start + k) == bit_at(b, start + k));
            } else {
                assert(start + k == start + width - 1);
            }
        }
    }
}

proof fn lemma_mod_split(x: nat, m: nat)
    requires
        m > 0,
    ensures
        x % (2 * m) == 2 * ((x / 2) % m) + x % 2,
{
    lemma_breakdown(x as int, 2, m as int);
}

/// The leading `w` bits of a field written with `value` spell the top `w`
/// bits of the field's low `width` bits.
proof fn lemma_written_prefix(new: Seq<u8>, start: int, width: nat, value: nat, w: nat)
    requires
        w <= width,
        forall|k: int|
            0 <= k < width ==> #[trigger] bit_at(new, start + k) == value_bit(
                value,
                (width - 1 - k) as nat,
            ),
    ensures
        field_value(new, start, w) == (value / pow2((width - w) as nat)) % pow2(w),
    decreases w,
{
    if w == 0 {
        lemma_pow2(0);
        vstd::arithmetic::power::lemma_pow0(2);
        lemma_pow2_pos((width - w) as nat);
        assert((value / pow2((width - w) as nat)) % 1 == 0);
    } else {
        let w1 = (w - 1) as nat;
        lemma_written_prefix(new, start, width, value, w1);
        let e = (width - w) as nat;
        let x = value / pow2(e);
        lemma_pow2_pos(e);
        lemma_pow2_unfold(e + 1);
        lemma_pow2_pos(w1);
        lemma_div_denominator(value as int, pow2(e) as int, 2);
        assert(pow2((width - w1) as nat) == pow2(e) * 2) by {
            assert((width - w1) as nat == e + 1);
            vstd::arithmetic::mul::lemma_mul_is_commutative(2, pow2(e) as int);
        }
        assert(value / pow2((width - w1) as nat) == x / 2);
        assert(bit_at(new, start + w1) == value_bit(value, e));
        lemma_pow2_unfold(w);
        lemma_mod_split(x, pow2(w1));
        assert(pow2(w) == 2 * pow2(w1));
    }
}

/// Reading a field right after writing `value` into it gives back the low
/// bits of `value` that fit the field.
pub proof fn lemma_read_after_write(old: Seq<u8>, new: Seq<u8>, start: int, width: nat, value: nat)
    requires
        field_written(old, new, start, width, value),
    ensures
        field_value(new, start, width) == value % pow2(width),
{
    lemma_written_prefix(new, start, width, value, width);
    lemma_pow2(0);
    vstd::arithmetic::power::lemma_pow0(2);
    assert((width - width) as nat == 0);
}

/// Writing one field leaves every field that does not overlap it unchanged.
pub proof fn lemma_write_keeps_other_fields(
    old: Seq<u8>,
    new: Seq<u8>,
    start: int,
    width: nat,
    value: nat,
    other_start: int,
    other_width: nat,
)
    requires
        field_written(old, new, start, width, value),
        fits(old.len(), other_start, other_width),
        other_start + other_width <= start || start + width <= other_start,
    ensures
        field_value(new, other_start, other_width) == field_value(old, other_start, other_width),
{
    assert forall|k: int| 0 <= k < other_width implies #[trigger] bit_at(new, other_start + k)
        == bit_at(old, other_start + k) by {
        let i = other_start + k;
        assert(0 <= i < 8 * old.len() && !(start <= i < start + width));
    }
    lemma_field_value_depends_on_field_bits(new, old, other_start, other_width);
}

/// A field write has exactly one outcome.
pub proof fn lemma_write_is_determined(
    old: Seq<u8>,
    a: Seq<u8>,
    b: Seq<u8>,
    start: int,
    width: nat,
    value: nat,
)
    requires
        field_written(old, a, start, width, value),
        field_written(old, b, start, width, value),
    ensures
        a == b,
{
    assert forall|i: int| 0 <= i < 8 * a.len() implies #[trigger] bit_at(a, i) == bit_at(b, i) by {
        if start <= i < start + width {
            let k = i - start;
            assert(bit_at(a, start + k) == bit_at(b, start + k));
        } else {
            assert(bit_at(a, i) == bit_at(old, i));
        }
    }
    lemma_bits_determine_bytes(a, b);
}

/// Writing back the value a field already holds leaves the buffer as it was.
pub proof fn lemma_write_current_value_is_identity(
    old: Seq<u8>,
    new: Seq<u8>,
    start: int,
    width: nat,
)
    requires
        field_written(old, new, start, width, field_value(old, start, width)),
    ensures
        new == old,
{
    let v = field_value(old, start, width);
    lemma_read_after_write(old, new, start, width, v);
    lemma_field_value_bound(old, start, width);
    vstd::arithmetic::div_mod::lemma_small_mod(v, pow2(width));
    lemma_field_value_injective(new, old, start, width);
    assert forall|i: int| 0 <= i < 8 * new.len() implies #[trigger] bit_at(new, i) == bit_at(
        old,
        i,
    ) by {
        if start <= i < start + width {
            let k = i - start;
            assert(bit_at(new, start + k) == bit_at(old, start + k));
        }
    }
    lemma_bits_determine_bytes(new, old);
}

/// A second write to the same field undoes the first one entirely.
pub proof fn lemma_last_write_wins(
    s0: Seq<u8>,
    s1: Seq<u8>,
    s2: Seq<u8>,
    start: int,
    width: nat,
    v1: nat,
    v2: nat,
)
    requires
        field_written(s0, s1, start, width, v1),
        field_written(s1, s2, start, width, v2),
    ensures
        field_written(s0, s2, start, width, v2),
{
}

proof fn lemma_byte_of_bits(
    b0: bool,
    b1: bool,
    b2: bool,
    b3: bool,
    b4: bool,
    b5: bool,
    b6: bool,
    b7: bool,
)
    ensures
        ((byte_of_bits(b0, b1, b2, b3, b4, b5, b6, b7) >> 7u8) & 1u8 == 1u8) == b0,
        ((byte_of_bits(b0, b1, b2, b3, b4, b5, b6, b7) >> 6u8) & 1u8 == 1u8) == b1,
        ((byte_of_bits(b0, b1, b2, b3, b4, b5, b6, b7) >> 5u8) & 1u8 == 1u8) == b2,
        ((byte_of_bits(b0, b1, b2, b3, b4, b5, b6, b7) >> 4u8) & 1u8 == 1u8) == b3,
        ((byte_of_bits(b0, b1, b2, b3, b4, b5, b6, b7) >> 3u8) & 1u8 == 1u8) == b4,
        ((byte_of_bits(b0, b1, b2, b3, b4, b5, b6, b7) >> 2u8) & 1u8 == 1u8) == b5,
        ((byte_of_bits(b0, b1, b2, b3, b4, b5, b6, b7) >> 1u8) & 1u8 == 1u8) == b6,
        ((byte_of_bits(b0, b1, b2, b3, b4, b5, b6, b7) >> 0u8) & 1u8 == 1u8) == b7,
{
    let x = byte_of_bits(b0, b1, b2, b3, b4, b5, b6, b7);
    assert(x == (if b0 { 0x80u8 } else { 0u8 }) | (if b1 { 0x40u8 } else { 0u8 }) | (if b2 {
        0x20u8
    } else {
        0u8
    }) | (if b3 { 0x10u8 } else { 0u8 }) | (if b4 { 0x08u8 } else { 0u8 }) | (if b5 {
        0x04u8
    } else {
        0u8
    }) | (if b6 { 0x02u8 } else { 0u8 }) | (if b7 { 0x01u8 } else { 0u8 }));
    assert({
        &&& ((x >> 7u8) & 1u8 == 1u8) == b0
        &&& ((x >> 6u8) & 1u8 == 1u8) == b1
        &&& ((x >> 5u8) & 1u8 == 1u8) == b2
        &&& ((x >> 4u8) & 1u8 == 1u8) == b3
        &&& ((x >> 3u8) & 1u8 == 1u8) == b4
        &&& ((x >> 2u8) & 1u8 == 1u8) == b5
        &&& ((x >> 1u8) & 1u8 == 1u8) == b6
        &&& ((x >> 0u8) & 1u8 == 1u8) == b7
    }) by (bit_vector)
        requires
            x == (if b0 { 0x80u8 } else { 0u8 }) | (if b1 { 0x40u8 } else { 0u8 }) | (if b2 {
                0x20u8
            } else {
                0u8
            }) | (if b3 { 0x10u8 } else { 0u8 }) | (if b4 { 0x08u8 } else { 0u8 }) | (if b5 {
                0x04u8
            } else {
                0u8
            }) | (if b6 { 0x02u8 } else { 0u8 }) | (if b7 { 0x01u8 } else { 0u8 }),
    ;
}

/// Every bit of `with_field` is the one `written_bit` names.
pub proof fn lemma_with_field_bits(bytes: Seq<u8>, start: int, width: nat, value: nat)
    ensures
        with_field(bytes, start, width, value).len() == bytes.len(),
        forall|i: int|
            0 <= i < 8 * bytes.len() ==> #[trigger] bit_at(with_field(bytes, start, width, value), i)
                == written_bit(bytes, start, width, value, i),
{
    reveal(with_field);
    let w = with_field(bytes, start, width, value);
    assert forall|i: int| 0 <= i < 8 * bytes.len() implies #[trigger] bit_at(w, i) == written_bit(
        bytes,
        start,
        width,
        value,
        i,
    ) by {
        let n = i / 8;
        let t = i % 8;
        assert(i == 8 * n + t);
        lemma_byte_of_bits(
            written_bit(bytes, start, width, value, 8 * n),
            written_bit(bytes, start, width, value, 8 * n + 1),
            written_bit(bytes, start, width, value, 8 * n + 2),
            written_bit(bytes, start, width, value, 8 * n + 3),
            written_bit(bytes, start, width, value, 8 * n + 4),
            written_bit(bytes, start, width, value, 8 * n + 5),
            written_bit(bytes, start, width, value, 8 * n + 6),
            written_bit(bytes, start, width, value, 8 * n + 7),
        );
        if t == 0 {
        } else if t == 1 {
        } else if t == 2 {
        } else if t == 3 {
        } else if t == 4 {
        } else if t == 5 {
        } else if t == 6 {
        } else {
        }
    }
}

proof fn lemma_with_field_is_written(bytes: Seq<u8>, start: int, width: nat, value: nat)
    requires
        fits(bytes.len(), start, width),
    ensures
        field_written(bytes, with_field(bytes, start, width, value), start, width, value),
{
    lemma_with_field_bits(bytes, start, width, value);
    let w = with_field(bytes, start, width, value);
    assert forall|k: int| 0 <= k < width implies #[trigger] bit_at(w, start + k) == value_bit(
        value,
        (width - 1 - k) as nat,
    ) by {
        assert(written_bit(bytes, start, width, value, start + k) == value_bit(
            value,
            (start + width - 1 - (start + k)) as nat,
        ));
    }
}

proof fn lemma_written_is_with_field(old: Seq<u8>, new: Seq<u8>, start: int, width: nat, value: nat)
    requires
        fits(old.len(), start, width),
        field_written(old, new, start, width, value),
    ensures
        new == with_field(old, start, width, value),
{
    lemma_with_field_is_written(old, start, width, value);
    lemma_write_is_determined(old, new, with_field(old, start, width, value), start, width, value);
}

/// Reading a field right after setting it gives back the low bits of the value
/// that fit the field.
pub proof fn lemma_get_after_set(bytes: Seq<u8>, start: int, width: nat, value: nat)
    requires
        fits(bytes.len(), start, width),
    ensures
        field_value(with_field(bytes, start, width, value), start, width) == value % pow2(width),
{
    lemma_with_field_is_written(bytes, start, width, value);
    lemma_read_after_write(bytes, with_field(bytes, start, width, value), start, width, value);
}

/// Setting a field changes no field that lies apart from it.
pub proof fn lemma_set_keeps_other_fields(
    bytes: Seq<u8>,
    start: int,
    width: nat,
    value: nat,
    other_start: int,
    other_width: nat,
)
    requires
        fits(bytes.len(), start, width),
        fits(bytes.len(), other_start, other_width),
        other_start + other_width <= start || start + width <= other_start,
    ensures
        field_value(with_field(bytes, start, width, value), other_start, other_width)
            == field_value(bytes, other_start, other_width),
{
    lemma_with_field_is_written(bytes, start, width, value);
    lemma_write_keeps_other_fields(
        bytes,
        with_field(bytes, start, width, value),
        start,
        width,
        value,
        other_start,
        other_width,
    );
}

/// Setting a field to the value it already holds changes nothing.
pub proof fn lemma_set_current_value(bytes: Seq<u8>, start: int, width: nat)
    requires
        fits(bytes.len(), start, width),
    ensures
        with_field(bytes, start, width, field_value(bytes, start, width)) == bytes,
{
    let v = field_value(bytes, start, width);
    lemma_with_field_is_written(bytes, start, width, v);
    lemma_write_current_value_is_identity(bytes, with_field(bytes, start, width, v), start, width);
}

/// Of two settings of one field only the second one counts.
pub proof fn lemma_last_set_wins(bytes: Seq<u8>, start: int, width: nat, first: nat, second: nat)
    requires
        fits(bytes.len(), start, width),
    ensures
        with_field(with_field(bytes, start, width, first), start, width, second) == with_field(
            bytes,
            start,
            width,
            second,
        ),
{
    let s1 = with_field(bytes, start, width, first);
    let s2 = with_field(s1, start, width, second);
    lemma_with_field_is_written(bytes, start, width, first);
    lemma_with_field_is_written(s1, start, width, second);
    lemma_last_write_wins(bytes, s1, s2, start, width, first, second);
    lemma_written_is_with_field(bytes, s2, start, width, second);
}

/// Settings of two fields that lie apart can be made in either order.
pub proof fn lemma_set_commutes(
    bytes: Seq<u8>,
    start_a: int,
    width_a: nat,
    value_a: nat,
    start_b: int,
    width_b: nat,
    value_b: nat,
)
    requires
        fits(bytes.len(), start_a, width_a),
        fits(bytes.len(), start_b, width_b),
        start_a + width_a <= start_b || start_b + width_b <= start_a,
    ensures
        with_field(with_field(bytes, start_a, width_a, value_a), start_b, width_b, value_b)
            == with_field(with_field(bytes, start_b, width_b, value_b), start_a, width_a, value_a),
{
    let ab = with_field(with_field(bytes, start_a, width_a, value_a), start_b, width_b, value_b);
    let ba = with_field(with_field(bytes, start_b, width_b, value_b), start_a, width_a, value_a);
    lemma_with_field_bits(bytes, start_a, width_a, value_a);
    lemma_with_field_bits(bytes, start_b, width_b, value_b);
    lemma_with_field_bits(with_field(bytes, start_a, width_a, value_a), start_b, width_b, value_b);
    lemma_with_field_bits(with_field(bytes, start_b, width_b, value_b), start_a, width_a, value_a);
    assert forall|i: int| 0 <= i < 8 * ab.len() implies #[trigger] bit_at(ab, i) == bit_at(ba, i) by {
    }
    lemma_bits_determine_bytes(ab, ba);
}

/// Bit `t` of byte `n` in the numbering of [`bit_at`].
proof fn lemma_bit_of_byte(bytes: Seq<u8>, n: int, t: int)
    requires
        0 <= n,
        0 <= t < 8,
    ensures
        bit_at(bytes, 8 * n + t) == ((bytes[n] >> ((7 - t) as u8)) & 1u8 == 1u8),
{
    assert((8 * n + t) / 8 == n && (8 * n + t) % 8 == t);
}

/// Bits that agree as booleans agree as shifted-out bits.
proof fn lemma_bit_pair(a: Seq<u8>, n: int, b: Seq<u8>, m: int, t: int)
    requires
        0 <= n,
        0 <= m,
        0 <= t < 8,
        bit_at(a, 8 * n + t) == bit_at(b, 8 * m + t),
    ensures
        (a[n] >> ((7 - t) as u8)) & 1u8 == (b[m] >> ((7 - t) as u8)) & 1u8,
{
    lemma_bit_of_byte(a, n, t);
    lemma_bit_of_byte(b, m, t);
    let x = a[n];
    let y = b[m];
    let s = (7 - t) as u8;
    assert(((x >> s) & 1u8 == 1u8) == ((y >> s) & 1u8 == 1u8) ==> (x >> s) & 1u8 == (y >> s) & 1u8)
        by (bit_vector);
}

/// Two bytes whose bits agree one by one are equal.
proof fn lemma_bits_determine_byte(a: Seq<u8>, n: int, b: Seq<u8>, m: int)
    requires
        0 <= n < a.len(),
        0 <= m < b.len(),
        forall|t: int| 0 <= t < 8 ==> #[trigger] bit_at(a, 8 * n + t) == bit_at(b, 8 * m + t),
    ensures
        a[n] == b[m],
{
    lemma_bit_pair(a, n, b, m, 0);
    lemma_bit_pair(a, n, b, m, 1);
    lemma_bit_pair(a, n, b, m, 2);
    lemma_bit_pair(a, n, b, m, 3);
    lemma_bit_pair(a, n, b, m, 4);
    lemma_bit_pair(a, n, b, m, 5);
    lemma_bit_pair(a, n, b, m, 6);
    lemma_bit_pair(a, n, b, m, 7);
    lemma_byte_from_bits(a[n], b[m]);
}

/// Setting a field leaves every byte that holds none of its bits as it was.
pub proof fn lemma_set_keeps_other_bytes(bytes: Seq<u8>, start: int, width: nat, value: nat, n: int)
    requires
        0 <= n < bytes.len(),
        8 * n + 8 <= start || start + width <= 8 * n,
    ensures
        with_field(bytes, start, width, value)[n] == bytes[n],
{
    let w = with_field(bytes, start, width, value);
    lemma_with_field_bits(bytes, start, width, value);
    assert forall|t: int| 0 <= t < 8 implies #[trigger] bit_at(w, 8 * n + t) == bit_at(
        bytes,
        8 * n + t,
    ) by {
        assert(written_bit(bytes, start, width, value, 8 * n + t) == bit_at(bytes, 8 * n + t));
    }
    lemma_bits_determine_byte(w, n, bytes, n);
}

/// A field's value depends only on the bytes that hold its bits.
pub proof fn lemma_field_from_bytes(a: Seq<u8>, b: Seq<u8>, start: int, width: nat)
    requires
        0 <= start,
        forall|j: int| 8 * j < start + width && start < 8 * j + 8 ==> #[trigger] a[j] == b[j],
    ensures
        field_value(a, start, width) == field_value(b, start, width),
{
    assert forall|k: int| 0 <= k < width implies #[trigger] bit_at(a, start + k) == bit_at(
        b,
        start + k,
    ) by {
        let i = start + k;
        let j = i / 8;
        assert(8 * j <= i < 8 * j + 8);
        assert(a[j] == b[j]);
    }
    lemma_field_value_depends_on_field_bits(a, b, start, width);
}

/// A field whose bytes are all zero holds zero.
pub proof fn lemma_field_of_zero_bytes(bytes: Seq<u8>, start: int, width: nat)
    requires
        0 <= start,
        forall|j: int| 8 * j < start + width && start < 8 * j + 8 ==> #[trigger] bytes[j] == 0u8,
    ensures
        field_value(bytes, start, width) == 0,
    decreases width,
{
    if width > 0 {
        let w1 = (width - 1) as nat;
        lemma_field_of_zero_bytes(bytes, start, w1);
        let i = start + w1;
        let j = i / 8;
        assert(8 * j <= i < 8 * j + 8);
        assert(bytes[j] == 0u8);
        let s = (7 - i % 8) as u8;
        assert((0u8 >> s) & 1u8 == 0u8) by (bit_vector);
        assert(!bit_at(bytes, i));
    }
}

fn get_bit(bytes: &Vec<u8>, i: usize) -> (b: bool)
    requires
        i < 8 * bytes.len(),
    ensures
        b == bit_at(bytes@, i as int),
{
    let byte = bytes[i / 8];
    let s = (7 - i % 8) as u8;
    (byte >> s) & 1u8 == 1u8
}

fn set_bit(bytes: &mut Vec<u8>, i: usize, b: bool)
    requires
        i < 8 * old(bytes).len(),
    ensures
        final(bytes)@.len() == old(bytes)@.len(),
        bit_at(final(bytes)@, i as int) == b,
        forall|j: int|
            0 <= j < 8 * old(bytes).len() && j != i ==> #[trigger] bit_at(final(bytes)@, j)
                == bit_at(old(bytes)@, j),
{
    let idx = i / 8;
    let s = (7 - i % 8) as u8;
    let byte = bytes[idx];
    let mask: u8 = 1u8 << s;
    let nb: u8 = if b {
        byte | mask
    } else {
        byte & !mask
    };
    let ghost pre = bytes@;
    bytes.set(idx, nb);
    proof {
        lemma_byte_bit_set(byte, s, s);
        assert forall|j: int| 0 <= j < 8 * pre.len() && j != i implies #[trigger] bit_at(
            bytes@,
            j,
        ) == bit_at(pre, j) by {
            if j / 8 == idx as int {
                let t = (7 - j % 8) as u8;
                lemma_byte_bit_set(byte, s, t);
            }
        }
        if b {
            assert((byte | mask) >> s & 1u8 == 1u8);
        } else {
            assert((byte & !mask) >> s & 1u8 == 0u8);
        }
    }
}

/// Reads the `bits`-wide field at `offset` in quadlet `quadlet`.
pub fn read_bits(bytes: &Vec<u8>, quadlet: usize, offset: usize, bits: usize) -> (v: u64)
    requires
        quadlet < 1024,
        offset < 32,
        1 <= bits <= 64,
        fits(bytes@.len(), bit_start(quadlet as int, offset as int), bits as nat),
    ensures
        v as nat == field_value(bytes@, bit_start(quadlet as int, offset as int), bits as nat),
        (v as nat) < pow2(bits as nat),
{
    let start = 32 * quadlet + offset;
    let mut v: u64 = 0;
    let mut k: usize = 0;
    proof {
        lemma_pow2(0);
        vstd::arithmetic::power::lemma_pow0(2);
    }
    while k < bits
        invariant
            k <= bits <= 64,
            start == bit_start(quadlet as int, offset as int),
            start < 32 * 1024 + 32,
            start + bits <= 8 * bytes@.len(),
            v as nat == field_value(bytes@, start as int, k as nat),
            (v as nat) < pow2(k as nat),
        decreases bits - k,
    {
        let b = get_bit(bytes, start + k);
        proof {
            lemma_pow2_unfold((k + 1) as nat);
            if k + 1 < 64 {
                lemma_pow2_strictly_increases((k + 1) as nat, 64);
            }
            lemma2_to64();
            lemma2_to64_rest();
        }
        v = v * 2 + if b {
            1
        } else {
            0
        };
        k = k + 1;
    }
    v
}

/// Writes the low `bits` bits of `value` into the `bits`-wide field at
/// `offset` in quadlet `quadlet`, leaving every other bit alone.
pub fn write_bits(bytes: &mut Vec<u8>, quadlet: usize, offset: usize, bits: usize, value: u64)
    requires
        quadlet < 1024,
        offset < 32,
        1 <= bits <= 64,
        fits(old(bytes)@.len(), bit_start(quadlet as int, offset as int), bits as nat),
    ensures
        final(bytes)@ == with_field(
            old(bytes)@,
            bit_start(quadlet as int, offset as int),
            bits as nat,
            value as nat,
        ),
{
    let start = 32 * quadlet + offset;
    let ghost pre = bytes@;
    let mut k: usize = 0;
    while k < bits
        invariant
            k <= bits <= 64,
            start == bit_start(quadlet as int, offset as int),
            start < 32 * 1024 + 32,
            start + bits <= 8 * pre.len(),
            bytes@.len() == pre.len(),
            forall|i: int|
                0 <= i < 8 * pre.len() && !(start <= i < start + k) ==> #[trigger] bit_at(
                    bytes@,
                    i,
                ) == bit_at(pre, i),
            forall|kk: int|
                0 <= kk < k ==> #[trigger] bit_at(bytes@, start + kk) == value_bit(
                    value as nat,
                    (bits - 1 - kk) as nat,
                ),
        decreases bits - k,
    {
        let j = bits - 1 - k;
        let b = (value >> (j as u64)) & 1u64 == 1u64;
        proof {
            lemma_u64_shr_is_div(value, j as u64);
            let y = value >> (j as u64);
            assert((y & 1u64 == 1u64) == (y % 2 == 1)) by (bit_vector);
        }
        let ghost mid = bytes@;
        set_bit(bytes, start + k, b);
        proof {
            assert forall|kk: int| 0 <= kk < k + 1 implies #[trigger] bit_at(bytes@, start + kk)
                == value_bit(value as nat, (bits - 1 - kk) as nat) by {
                if kk < k {
                    assert(bit_at(mid, start + kk) == value_bit(
                        value as nat,
                        (bits - 1 - kk) as nat,
                    ));
                }
            }
        }
        k = k + 1;
    }
    proof {
        lemma_written_is_with_field(pre, bytes@, start as int, bits as nat, value as nat);
    }
}


proof fn lemma_pow2_bound(bits: nat, cap: nat)
    requires
        bits <= cap,
    ensures
        pow2(bits) <= pow2(cap),
{
    if bits < cap {
        lemma_pow2_strictly_increases(bits, cap);
    }
}

/// Reads a field of at most 8 bits.
pub fn read_u8(bytes: &Vec<u8>, quadlet: usize, offset: usize, bits: usize) -> (v: u8)
    requires
        quadlet < 1024,
        offset < 32,
        1 <= bits <= 8,
        fits(bytes@.len(), bit_start(quadlet as int, offset as int), bits as nat),
    ensures
        v as nat == field_value(bytes@, bit_start(quadlet as int, offset as int), bits as nat),
{
    let v = read_bits(bytes, quadlet, offset, bits);
    proof {
        lemma_pow2_bound(bits as nat, 8);
        lemma2_to64();
    }
    v as u8
}

/// Reads a field of at most 16 bits.
pub fn read_u16(bytes: &Vec<u8>, quadlet: usize, offset: usize, bits: usize) -> (v: u16)
    requires
        quadlet < 1024,
        offset < 32,
        1 <= bits <= 16,
        fits(bytes@.len(), bit_start(quadlet as int, offset as int), bits as nat),
    ensures
        v as nat == field_value(bytes@, bit_start(quadlet as int, offset as int), bits as nat),
{
    let v = read_bits(bytes, quadlet, offset, bits);
    proof {
        lemma_pow2_bound(bits as nat, 16);
        lemma2_to64();
    }
    v as u16
}

/// Reads a field of at most 32 bits.
pub fn read_u32(bytes: &Vec<u8>, quadlet: usize, offset: usize, bits: usize) -> (v: u32)
    requires
        quadlet < 1024,
        offset < 32,
        1 <= bits <= 32,
        fits(bytes@.len(), bit_start(quadlet as int, offset as int), bits as nat),
    ensures
        v as nat == field_value(bytes@, bit_start(quadlet as int, offset as int), bits as nat),
{
    let v = read_bits(bytes, quadlet, offset, bits);
    proof {
        lemma_pow2_bound(bits as nat, 32);
        lemma2_to64();
    }
    v as u32
}

/// Reads a one-bit flag.
pub fn read_flag(bytes: &Vec<u8>, quadlet: usize, offset: usize) -> (b: bool)
    requires
        quadlet < 1024,
        offset < 32,
        fits(bytes@.len(), bit_start(quadlet as int, offset as int), 1),
    ensures
        b == (field_value(bytes@, bit_start(quadlet as int, offset as int), 1) == 1),
{
    read_bits(bytes, quadlet, offset, 1) == 1
}

/// Sets a one-bit flag.
pub fn write_flag(bytes: &mut Vec<u8>, quadlet: usize, offset: usize, value: bool)
    requires
        quadlet < 1024,
        offset < 32,
        fits(old(bytes)@.len(), bit_start(quadlet as int, offset as int), 1),
    ensures
        final(bytes)@ == with_field(
            old(bytes)@,
            bit_start(quadlet as int, offset as int),
            1,
            flag_value(value),
        ),
{
    write_bits(bytes, quadlet, offset, 1, if value { 1 } else { 0 });
}

/// The value a flag field holds for `b`.
pub open spec fn flag_value(b: bool) -> nat {
    if b { 1 } else { 0 }
}

} // verus!
