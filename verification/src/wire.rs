//! Field codec primitives: little-endian scalars, raw byte runs and
//! fixed-width zero-padded UTF-8 text, written to and read from byte buffers
//! at explicit offsets.
//!
//! Writers splice into a caller-supplied buffer and leave every byte outside
//! the spliced range unchanged; readers are pure.  All primitives assume the
//! buffer is long enough (their callers check bounds first), so their own hot
//! path is branch-free.
use vstd::prelude::*;

use vstd::bytes::{
    spec_u16_from_le_bytes, spec_u16_to_le_bytes, spec_u32_from_le_bytes, spec_u32_to_le_bytes,
    spec_u64_from_le_bytes, spec_u64_to_le_bytes, u16_from_le_bytes, u16_to_le_bytes,
    u32_from_le_bytes, u32_to_le_bytes, u64_from_le_bytes, u64_to_le_bytes,
};
use vstd::slice::slice_subrange;
use vstd::utf8::{decode_utf8, encode_utf8, encode_utf8_decode_utf8, encode_utf8_valid_utf8, valid_utf8};

use crate::error::LifxDeserializationError;
use crate::error::LifxSerializationError;

verus! {

/// `s` with the bytes at `[off, off + r.len())` replaced by `r`.
pub open spec fn spec_splice(s: Seq<u8>, off: int, r: Seq<u8>) -> Seq<u8> {
    s.subrange(0, off) + r + s.subrange(off + r.len(), s.len() as int)
}

/// `n` zero bytes.
pub open spec fn spec_zero_bytes(n: int) -> Seq<u8> {
    Seq::new(
        if n < 0 {
            0nat
        } else {
            n as nat
        },
        |i: int| 0u8,
    )
}

/// Two's-complement little-endian image of a signed 16-bit value.
pub open spec fn spec_i16_to_le_bytes(v: i16) -> Seq<u8> {
    spec_u16_to_le_bytes(v as u16)
}

/// Signed 16-bit value read from its two's-complement little-endian image.
pub open spec fn spec_i16_from_le_bytes(s: Seq<u8>) -> i16 {
    spec_u16_from_le_bytes(s) as i16
}

/// Splicing `a` and then `b` right after it is one splice of `a + b`.
pub proof fn lemma_splice_adjacent(s: Seq<u8>, off: int, a: Seq<u8>, b: Seq<u8>)
    requires
        0 <= off,
        off + a.len() + b.len() <= s.len(),
    ensures
        spec_splice(spec_splice(s, off, a), off + a.len(), b) == spec_splice(s, off, a + b),
{
    assert(spec_splice(spec_splice(s, off, a), off + a.len(), b) =~= spec_splice(s, off, a + b));
}

pub fn write_u8(buf: &mut Vec<u8>, offset: usize, v: u8)
    requires
        offset < old(buf).len(),
    ensures
        final(buf)@ == spec_splice(old(buf)@, offset as int, seq![v]),
{
    buf[offset] = v;
    proof {
        assert(buf@ =~= spec_splice(old(buf)@, offset as int, seq![v]));
    }
}

pub fn write_bytes(buf: &mut Vec<u8>, offset: usize, src: &[u8])
    requires
        offset + src.len() <= old(buf).len(),
    ensures
        final(buf)@ == spec_splice(old(buf)@, offset as int, src@),
{
    let ghost buf0 = buf@;
    let n: usize = src.len();
    let mut i: usize = 0;
    while i < n
        invariant
            i <= n,
            n == src@.len(),
            offset + n <= buf0.len(),
            buf.len() == buf0.len(),
            forall|j: int| 0 <= j < buf0.len() && !(offset <= j < offset + i) ==> buf@[j] == buf0[j],
            forall|j: int| offset <= j < offset + i ==> #[trigger] buf@[j] == src@[j - offset],
        decreases n - i,
    {
        buf[offset + i] = src[i];
        i += 1;
    }
    proof {
        assert(buf@ =~= spec_splice(buf0, offset as int, src@));
    }
}

pub fn write_u16(buf: &mut Vec<u8>, offset: usize, v: u16)
    requires
        offset + 2 <= old(buf).len(),
    ensures
        final(buf)@ == spec_splice(old(buf)@, offset as int, spec_u16_to_le_bytes(v)),
{
    let b = u16_to_le_bytes(v);
    write_bytes(buf, offset, b.as_slice());
}

pub fn write_u32(buf: &mut Vec<u8>, offset: usize, v: u32)
    requires
        offset + 4 <= old(buf).len(),
    ensures
        final(buf)@ == spec_splice(old(buf)@, offset as int, spec_u32_to_le_bytes(v)),
{
    let b = u32_to_le_bytes(v);
    write_bytes(buf, offset, b.as_slice());
}

pub fn write_u64(buf: &mut Vec<u8>, offset: usize, v: u64)
    requires
        offset + 8 <= old(buf).len(),
    ensures
        final(buf)@ == spec_splice(old(buf)@, offset as int, spec_u64_to_le_bytes(v)),
{
    let b = u64_to_le_bytes(v);
    write_bytes(buf, offset, b.as_slice());
}

pub fn write_i16(buf: &mut Vec<u8>, offset: usize, v: i16)
    requires
        offset + 2 <= old(buf).len(),
    ensures
        final(buf)@ == spec_splice(old(buf)@, offset as int, spec_i16_to_le_bytes(v)),
{
    write_u16(buf, offset, v as u16);
}

pub fn read_u8(bytes: &[u8], offset: usize) -> (r: u8)
    requires
        offset < bytes.len(),
    ensures
        r == bytes@[offset as int],
{
    bytes[offset]
}

pub fn read_u16(bytes: &[u8], offset: usize) -> (r: u16)
    requires
        offset + 2 <= bytes.len(),
    ensures
        r == spec_u16_from_le_bytes(bytes@.subrange(offset as int, offset + 2)),
{
    u16_from_le_bytes(slice_subrange(bytes, offset, offset + 2))
}

pub fn read_u32(bytes: &[u8], offset: usize) -> (r: u32)
    requires
        offset + 4 <= bytes.len(),
    ensures
        r == spec_u32_from_le_bytes(bytes@.subrange(offset as int, offset + 4)),
{
    u32_from_le_bytes(slice_subrange(bytes, offset, offset + 4))
}

pub fn read_u64(bytes: &[u8], offset: usize) -> (r: u64)
    requires
        offset + 8 <= bytes.len(),
    ensures
        r == spec_u64_from_le_bytes(bytes@.subrange(offset as int, offset + 8)),
{
    u64_from_le_bytes(slice_subrange(bytes, offset, offset + 8))
}

pub fn read_i16(bytes: &[u8], offset: usize) -> (r: i16)
    requires
        offset + 2 <= bytes.len(),
    ensures
        r == spec_i16_from_le_bytes(bytes@.subrange(offset as int, offset + 2)),
{
    read_u16(bytes, offset) as i16
}

/// Read `N` raw bytes at `offset` into a fixed-size array.
pub fn read_array<const N: usize>(bytes: &[u8], offset: usize) -> (r: [u8; N])
    requires
        offset + N <= bytes.len(),
    ensures
        r@ == bytes@.subrange(offset as int, offset + N),
{
    let mut r: [u8; N] = [0; N];
    let mut i: usize = 0;
    while i < N
        invariant
            i <= N,
            offset + N <= bytes.len(),
            r@.len() == N,
            forall|j: int| 0 <= j < i ==> #[trigger] r@[j] == bytes@[offset + j],
        decreases N - i,
    {
        r[i] = bytes[offset + i];
        i += 1;
    }
    proof {
        assert(r@ =~= bytes@.subrange(offset as int, offset + N));
    }
    r
}

/// Whether the UTF-8 encoding of `s` fits a text field of `width` bytes.
pub open spec fn spec_text_fits(s: Seq<char>, width: int) -> bool {
    encode_utf8(s).len() <= width
}

/// Fixed-width text field image: the UTF-8 encoding of `s`, zero-padded to
/// `width` bytes.
pub open spec fn spec_text_bytes(s: Seq<char>, width: int) -> Seq<u8> {
    encode_utf8(s) + spec_zero_bytes(width - encode_utf8(s).len())
}

/// Write `s` as a `width`-byte zero-padded text field, rejecting text whose
/// UTF-8 encoding exceeds `width` bytes.
pub fn write_text(buf: &mut Vec<u8>, offset: usize, s: &String, width: usize) -> (r: Result<
    (),
    LifxSerializationError,
>)
    requires
        offset + width <= old(buf).len(),
    ensures
        r is Ok <==> spec_text_fits(s@, width as int),
        r is Ok ==> final(buf)@ == spec_splice(old(buf)@, offset as int, spec_text_bytes(s@, width as int)),
        r is Err ==> r == Err::<(), LifxSerializationError>(LifxSerializationError::OversizedText)
            && final(buf)@ == old(buf)@,
{
    let sb: &[u8] = s.as_str().as_bytes();
    let n = sb.len();
    if n > width {
        return Err(LifxSerializationError::OversizedText);
    }
    let ghost buf0 = buf@;
    write_bytes(buf, offset, sb);
    let ghost buf1 = buf@;
    let mut i: usize = n;
    while i < width
        invariant
            n <= i <= width,
            offset + width <= buf1.len(),
            buf.len() == buf1.len(),
            forall|j: int|
                0 <= j < buf1.len() && !(offset + n <= j < offset + i) ==> #[trigger] buf@[j]
                    == buf1[j],
            forall|j: int| offset + n <= j < offset + i ==> #[trigger] buf@[j] == 0u8,
        decreases width - i,
    {
        buf[offset + i] = 0;
        i += 1;
    }
    proof {
        let t = spec_text_bytes(s@, width as int);
        assert forall|k: int| 0 <= k < buf@.len() implies buf@[k] == spec_splice(
            buf0,
            offset as int,
            t,
        )[k] by {
            if offset + n <= k < offset + width {
                assert(buf@[k] == 0u8);
            } else {
                assert(buf@[k] == buf1[k]);
            }
        }
        assert(buf@ =~= spec_splice(buf0, offset as int, t));
    }
    Ok(())
}

/// Index of the first zero byte of `s`, or `s.len()` if there is none.
pub open spec fn spec_first_zero(s: Seq<u8>) -> int
    decreases s.len(),
{
    if s.len() == 0 {
        0
    } else if s[0] == 0 {
        0
    } else {
        1 + spec_first_zero(s.drop_first())
    }
}

/// A position that is zero (or the end) with no zero before it is the first
/// zero.
pub proof fn lemma_first_zero_unique(s: Seq<u8>, i: int)
    requires
        0 <= i <= s.len(),
        i < s.len() ==> s[i] == 0,
        forall|j: int| 0 <= j < i ==> s[j] != 0,
    ensures
        spec_first_zero(s) == i,
    decreases s.len(),
{
    if i == 0 {
    } else {
        assert(s[0] != 0);
        assert forall|j: int| 0 <= j < i - 1 implies s.drop_first()[j] != 0 by {
            assert(s.drop_first()[j] == s[j + 1]);
        }
        assert(i - 1 < s.drop_first().len() ==> s.drop_first()[i - 1] == 0) by {
            if i < s.len() {
                assert(s.drop_first()[i - 1] == s[i]);
            }
        }
        lemma_first_zero_unique(s.drop_first(), i - 1);
    }
}

/// What reading a fixed-width text field yields: the bytes before the first
/// zero, decoded as UTF-8, or an error if they are not valid UTF-8.
pub open spec fn spec_read_text(b: Seq<u8>) -> Result<Seq<char>, LifxDeserializationError> {
    let prefix = b.subrange(0, spec_first_zero(b));
    if valid_utf8(prefix) {
        Ok(decode_utf8(prefix))
    } else {
        Err(LifxDeserializationError::InvalidUtf8String)
    }
}

/// Relies on core::str::from_utf8: it returns `Ok` exactly when the bytes are
/// valid UTF-8, and the resulting string's characters are their decoding.
#[verifier::external_body]
fn bytes_to_string(bytes: &[u8]) -> (r: Option<String>)
    ensures
        r is Some <==> valid_utf8(bytes@),
        r matches Some(s) ==> s@ == decode_utf8(bytes@),
{
    match core::str::from_utf8(bytes) {
        Ok(s) => Some(s.to_string()),
        Err(_) => None,
    }
}

/// Decode a text field: take the bytes before the first zero (or the whole
/// input if it has no zero byte) and decode them as UTF-8.
pub fn deserialize_string(bytes: &[u8]) -> (r: Result<String, LifxDeserializationError>)
    ensures
        r is Ok <==> spec_read_text(bytes@) is Ok,
        r matches Ok(s) ==> spec_read_text(bytes@) matches Ok(v) && s@ == v,
        r is Err ==> r == Err::<String, LifxDeserializationError>(
            LifxDeserializationError::InvalidUtf8String,
        ) && spec_read_text(bytes@) == Err::<Seq<char>, LifxDeserializationError>(
            LifxDeserializationError::InvalidUtf8String,
        ),
{
    let n = bytes.len();
    let mut i: usize = 0;
    while i < n && bytes[i] != 0
        invariant
            i <= n,
            n == bytes@.len(),
            forall|j: int| 0 <= j < i ==> bytes@[j] != 0,
        decreases n - i,
    {
        i += 1;
    }
    proof {
        lemma_first_zero_unique(bytes@, i as int);
    }
    let prefix = slice_subrange(bytes, 0, i);
    match bytes_to_string(prefix) {
        Some(s) => Ok(s),
        None => Err(LifxDeserializationError::InvalidUtf8String),
    }
}

/// Whether the UTF-8 encoding of `s` contains no zero byte; only such text
/// survives a round trip unchanged, since a zero byte would read back as the
/// field's terminator.
pub open spec fn spec_text_clean(s: Seq<char>) -> bool {
    forall|i: int| 0 <= i < encode_utf8(s).len() ==> encode_utf8(s)[i] != 0
}

/// Text round trip, including the boundary case of a value that exactly
/// fills its field: a text value that fits its width and contains no zero
/// byte reads back exactly from its zero-padded field image.
pub proof fn lemma_text_round_trip(s: Seq<char>, width: int)
    requires
        spec_text_fits(s, width),
        spec_text_clean(s),
    ensures
        spec_read_text(spec_text_bytes(s, width)) == Ok::<Seq<char>, LifxDeserializationError>(s),
{
    let e = encode_utf8(s);
    let t = spec_text_bytes(s, width);
    assert forall|j: int| 0 <= j < e.len() implies t[j] != 0 by {
        assert(t[j] == e[j]);
    }
    lemma_first_zero_unique(t, e.len() as int);
    assert(t.subrange(0, e.len() as int) =~= e);
    encode_utf8_valid_utf8(s);
    encode_utf8_decode_utf8(s);
}

/// A signed 16-bit value survives the trip through its wire image.
pub proof fn lemma_i16_round_trip(v: i16)
    ensures
        spec_i16_from_le_bytes(spec_i16_to_le_bytes(v)) == v,
{
    vstd::bytes::lemma_auto_spec_u16_to_from_le_bytes();
    let u = v as u16;
    assert(spec_u16_to_le_bytes(u).len() == 2);
    assert(spec_u16_from_le_bytes(spec_u16_to_le_bytes(u)) == u);
    assert(u as i16 == v) by (bit_vector)
        requires
            u == v as u16,
    ;
}

} // verus!
