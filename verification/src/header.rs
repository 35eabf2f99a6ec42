//! The 36-byte frame header: bit-exact packing and unpacking.
//!
//! Layout (all multi-byte fields little-endian): `size` at 0, a compound
//! 16-bit field at 2 holding the 12-bit protocol id with `addressable` in bit
//! 12, `tagged` in bit 13 and the 2-bit `origin` in bits 14-15, `source` at
//! 4, `target` at 8, six reserved bytes at 16, the flags byte at 22 (bit 6 is
//! `ack_required`, bit 7 is `res_required`), `sequence` at 23, eight reserved
//! bytes at 24, `packet_number` at 32 and two reserved bytes at 34.
use vstd::prelude::*;

use vstd::bytes::{
    lemma_auto_spec_u16_to_from_le_bytes, lemma_auto_spec_u32_to_from_le_bytes,
    spec_u16_from_le_bytes, spec_u16_to_le_bytes, spec_u32_from_le_bytes, spec_u32_to_le_bytes,
};

use crate::error::LifxDeserializationError;
use crate::error::LifxSerializationError;
use crate::wire::{
    lemma_splice_adjacent, read_array, read_u16, read_u32, read_u8, spec_splice, write_bytes,
    write_u16, write_u32, write_u8,
};

verus! {

/// A decoded frame header.
///
/// Reserved bytes are zero-filled by [`crate::serialize_lifx_packet`] and
/// preserved, but never validated, on decode.
#[derive(Debug, Clone, PartialEq, Eq)]
pub struct LifxHeader {
    /// Total datagram length: 36 plus the payload size.
    pub size: u16,
    /// 12-bit protocol identifier, nominally 1024.
    pub protocol: u16,
    pub addressable: bool,
    /// Broadcast (`true`) versus single-device addressing.
    pub tagged: bool,
    /// 2-bit message origin indicator, 0 in practice.
    pub origin: u8,
    /// Client-chosen session identifier echoed back by devices.
    pub source: u32,
    /// Device serial, left-justified in 6 bytes and zero-filled, or all zero
    /// for broadcast.
    pub target: [u8; 8],
    pub _reserved_1: [u8; 6],
    /// Bit 6 is `ack_required`, bit 7 is `res_required`; the rest is
    /// reserved.
    pub flags_and_reserved_2: u8,
    pub sequence: u8,
    pub _reserved_3: [u8; 8],
    /// Discriminant selecting the payload variant.
    pub packet_number: u16,
    pub _reserved_4: [u8; 2],
}

/// The compound 16-bit field at offset 2: the 12-bit protocol id with
/// `addressable` in bit 12, `tagged` in bit 13 and `origin` in bits 14-15.
pub open spec fn spec_protocol_and_flags(h: LifxHeader) -> u16 {
    (h.protocol & 0x0FFF) | (if h.addressable {
        0x1000u16
    } else {
        0u16
    }) | (if h.tagged {
        0x2000u16
    } else {
        0u16
    }) | (((h.origin & 0x03) as u16) << 14)
}

/// The exact 36-byte image of a header.
pub open spec fn spec_header_bytes(h: LifxHeader) -> Seq<u8> {
    spec_u16_to_le_bytes(h.size) + spec_u16_to_le_bytes(spec_protocol_and_flags(h))
        + spec_u32_to_le_bytes(h.source) + h.target@ + h._reserved_1@ + seq![
        h.flags_and_reserved_2,
        h.sequence,
    ] + h._reserved_3@ + spec_u16_to_le_bytes(h.packet_number) + h._reserved_4@
}

pub proof fn lemma_header_bytes_len(h: LifxHeader)
    ensures
        spec_header_bytes(h).len() == 36,
{
    lemma_auto_spec_u16_to_from_le_bytes();
    lemma_auto_spec_u32_to_from_le_bytes();
}

/// How each field of `h` is read back from the first 36 bytes of `b`.
pub open spec fn spec_header_matches(h: LifxHeader, b: Seq<u8>) -> bool
    recommends
        b.len() >= 36,
{
    let paf = spec_u16_from_le_bytes(b.subrange(2, 4));
    &&& h.size == spec_u16_from_le_bytes(b.subrange(0, 2))
    &&& h.protocol == paf & 0x0FFF
    &&& h.addressable == ((paf & 0x1000) != 0)
    &&& h.tagged == ((paf & 0x2000) != 0)
    &&& h.origin == (paf >> 14) as u8
    &&& h.source == spec_u32_from_le_bytes(b.subrange(4, 8))
    &&& h.target@ == b.subrange(8, 16)
    &&& h._reserved_1@ == b.subrange(16, 22)
    &&& h.flags_and_reserved_2 == b[22]
    &&& h.sequence == b[23]
    &&& h._reserved_3@ == b.subrange(24, 32)
    &&& h.packet_number == spec_u16_from_le_bytes(b.subrange(32, 34))
    &&& h._reserved_4@ == b.subrange(34, 36)
}

impl LifxHeader {
    /// Set or clear the acknowledgement-request bit (bit 6 of the flags
    /// byte) without disturbing any other bit.
    pub fn set_ack_required(&mut self, ack_required: bool)
        ensures
            final(self).flags_and_reserved_2 == if ack_required {
                old(self).flags_and_reserved_2 | 0x40u8
            } else {
                old(self).flags_and_reserved_2 & 0xBFu8
            },
            *final(self) == (LifxHeader {
                flags_and_reserved_2: final(self).flags_and_reserved_2,
                ..*old(self)
            }),
    {
        if ack_required {
            self.flags_and_reserved_2 |= 0b01000000;
        } else {
            self.flags_and_reserved_2 &= 0b10111111;
        }
    }

    /// Set or clear the response-request bit (bit 7 of the flags byte)
    /// without disturbing any other bit.
    pub fn set_res_required(&mut self, res_required: bool)
        ensures
            final(self).flags_and_reserved_2 == if res_required {
                old(self).flags_and_reserved_2 | 0x80u8
            } else {
                old(self).flags_and_reserved_2 & 0x7Fu8
            },
            *final(self) == (LifxHeader {
                flags_and_reserved_2: final(self).flags_and_reserved_2,
                ..*old(self)
            }),
    {
        if res_required {
            self.flags_and_reserved_2 |= 0b10000000;
        } else {
            self.flags_and_reserved_2 &= 0b01111111;
        }
    }

    pub fn is_ack_required(&self) -> (r: bool)
        ensures
            r == ((self.flags_and_reserved_2 & 0x40u8) != 0),
    {
        (self.flags_and_reserved_2 & 0b01000000) != 0
    }

    pub fn is_res_required(&self) -> (r: bool)
        ensures
            r == ((self.flags_and_reserved_2 & 0x80u8) != 0),
    {
        (self.flags_and_reserved_2 & 0b10000000) != 0
    }

    /// Write the 36-byte header image at the start of `buf`, leaving the
    /// rest of the buffer unchanged.
    pub fn to_bytes(&self, buf: &mut Vec<u8>) -> (r: Result<(), LifxSerializationError>)
        ensures
            r is Ok <==> old(buf).len() >= 36,
            r is Ok ==> final(buf)@ == spec_splice(old(buf)@, 0, spec_header_bytes(*self)),
            r is Err ==> r == Err::<(), LifxSerializationError>(
                LifxSerializationError::BufferTooSmall,
            ) && final(buf)@ == old(buf)@,
    {
        if buf.len() < 36 {
            return Err(LifxSerializationError::BufferTooSmall);
        }
        proof {
            lemma_auto_spec_u16_to_from_le_bytes();
            lemma_auto_spec_u32_to_from_le_bytes();
        }
        write_u16(buf, 0, self.size);
        let paf: u16 = (self.protocol & 0x0FFF) | (if self.addressable {
            0x1000u16
        } else {
            0u16
        }) | (if self.tagged {
            0x2000u16
        } else {
            0u16
        }) | (((self.origin & 0x03) as u16) << 14);
        assert(paf == spec_protocol_and_flags(*self));
        write_u16(buf, 2, paf);
        write_u32(buf, 4, self.source);
        write_bytes(buf, 8, self.target.as_slice());
        write_bytes(buf, 16, self._reserved_1.as_slice());
        write_u8(buf, 22, self.flags_and_reserved_2);
        write_u8(buf, 23, self.sequence);
        write_bytes(buf, 24, self._reserved_3.as_slice());
        write_u16(buf, 32, self.packet_number);
        write_bytes(buf, 34, self._reserved_4.as_slice());
        proof {
            let b0 = old(buf)@;
            let s1 = spec_u16_to_le_bytes(self.size);
            let s2 = spec_u16_to_le_bytes(spec_protocol_and_flags(*self));
            let s3 = spec_u32_to_le_bytes(self.source);
            let s4 = self.target@;
            let s5 = self._reserved_1@;
            let s6 = seq![self.flags_and_reserved_2];
            let s7 = seq![self.sequence];
            let s8 = self._reserved_3@;
            let s9 = spec_u16_to_le_bytes(self.packet_number);
            let s10 = self._reserved_4@;
            lemma_splice_adjacent(b0, 0, s1, s2);
            lemma_splice_adjacent(b0, 0, s1 + s2, s3);
            lemma_splice_adjacent(b0, 0, s1 + s2 + s3, s4);
            lemma_splice_adjacent(b0, 0, s1 + s2 + s3 + s4, s5);
            lemma_splice_adjacent(b0, 0, s1 + s2 + s3 + s4 + s5, s6);
            lemma_splice_adjacent(b0, 0, s1 + s2 + s3 + s4 + s5 + s6, s7);
            lemma_splice_adjacent(b0, 0, s1 + s2 + s3 + s4 + s5 + s6 + s7, s8);
            lemma_splice_adjacent(b0, 0, s1 + s2 + s3 + s4 + s5 + s6 + s7 + s8, s9);
            lemma_splice_adjacent(b0, 0, s1 + s2 + s3 + s4 + s5 + s6 + s7 + s8 + s9, s10);
            assert(s1 + s2 + s3 + s4 + s5 + s6 + s7 + s8 + s9 + s10 =~= spec_header_bytes(*self));
        }
        Ok(())
    }

    /// Decode a header from the first 36 bytes of `bytes`, failing on a
    /// shorter buffer.
    pub fn from_bytes(bytes: &[u8]) -> (r: Result<LifxHeader, LifxDeserializationError>)
        ensures
            r is Ok <==> bytes@.len() >= 36,
            r matches Ok(h) ==> spec_header_matches(h, bytes@),
            r is Err ==> r == Err::<LifxHeader, LifxDeserializationError>(
                LifxDeserializationError::InvalidPacketSize,
            ),
    {
        if bytes.len() < 36 {
            return Err(LifxDeserializationError::InvalidPacketSize);
        }
        let paf = read_u16(bytes, 2);
        Ok(
            LifxHeader {
                size: read_u16(bytes, 0),
                protocol: paf & 0x0FFF,
                addressable: (paf & 0x1000) != 0,
                tagged: (paf & 0x2000) != 0,
                origin: (paf >> 14) as u8,
                source: read_u32(bytes, 4),
                target: read_array::<8>(bytes, 8),
                _reserved_1: read_array::<6>(bytes, 16),
                flags_and_reserved_2: read_u8(bytes, 22),
                sequence: read_u8(bytes, 23),
                _reserved_3: read_array::<8>(bytes, 24),
                packet_number: read_u16(bytes, 32),
                _reserved_4: read_array::<2>(bytes, 34),
            },
        )
    }
}

/// Header round trip: every field written by [`LifxHeader::to_bytes`] is read
/// back unchanged by [`LifxHeader::from_bytes`], for every combination of the
/// four boolean flags, every 2-bit origin and every 12-bit protocol id; no
/// bit of the compound field or of the flags byte leaks into another field.
pub proof fn lemma_header_round_trip(h: LifxHeader)
    requires
        h.protocol < 4096,
        h.origin < 4,
    ensures
        spec_header_matches(h, spec_header_bytes(h)),
{
    lemma_auto_spec_u16_to_from_le_bytes();
    lemma_auto_spec_u32_to_from_le_bytes();
    let b = spec_header_bytes(h);
    let c = spec_protocol_and_flags(h);
    let p = h.protocol;
    let o = h.origin;
    let ab: u16 = if h.addressable {
        1
    } else {
        0
    };
    let tb: u16 = if h.tagged {
        1
    } else {
        0
    };
    let og: u16 = (o & 0x03) as u16;
    assert(c == (p & 0x0FFF) | (ab << 12) | (tb << 13) | (og << 14)) by {
        if h.addressable {
            assert((1u16 << 12) == 0x1000u16) by (bit_vector);
        } else {
            assert((0u16 << 12) == 0u16) by (bit_vector);
        }
        if h.tagged {
            assert((1u16 << 13) == 0x2000u16) by (bit_vector);
        } else {
            assert((0u16 << 13) == 0u16) by (bit_vector);
        }
    }
    assert(o < 4 ==> (o & 0x03) == o) by (bit_vector);
    assert((p < 4096 && og < 4 && ab <= 1 && tb <= 1 && c == (p & 0x0FFF) | (ab << 12) | (tb << 13)
        | (og << 14)) ==> ((c & 0x0FFF) == p && ((c & 0x1000) != 0) == (ab == 1) && ((c & 0x2000)
        != 0) == (tb == 1) && (c >> 14) == og)) by (bit_vector);
    assert((o & 0x03) < 4) by (bit_vector);
    // The 36-byte image splits back into the per-field subranges.
    assert(b.subrange(0, 2) =~= spec_u16_to_le_bytes(h.size));
    assert(b.subrange(2, 4) =~= spec_u16_to_le_bytes(c));
    assert(b.subrange(4, 8) =~= spec_u32_to_le_bytes(h.source));
    assert(b.subrange(8, 16) =~= h.target@);
    assert(b.subrange(16, 22) =~= h._reserved_1@);
    assert(b[22] == h.flags_and_reserved_2);
    assert(b[23] == h.sequence);
    assert(b.subrange(24, 32) =~= h._reserved_3@);
    assert(b.subrange(32, 34) =~= spec_u16_to_le_bytes(h.packet_number));
    assert(b.subrange(34, 36) =~= h._reserved_4@);
}

} // verus!
