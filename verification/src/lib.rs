//! Wire codec for a UDP-based LAN lighting-control protocol.
//!
//! Every datagram is a fixed 36-byte frame header followed by a payload whose
//! layout is fully determined by the header's 16-bit packet number.  This
//! crate packs and unpacks the header bit-exactly and encodes / decodes every
//! supported payload variant at fixed little-endian offsets, rejecting
//! malformed input instead of panicking.
use vstd::prelude::*;

pub mod codec;
pub mod error;
pub mod header;
pub mod laws;
pub mod messages;
pub mod request_options;
pub mod wire;

pub use codec::spec_decode_payload;
pub use codec::spec_payload_bytes;
pub use error::LifxDeserializationError;
pub use error::LifxSerializationError;
pub use header::LifxHeader;
pub use messages::LifxPayload;
pub use messages::Message;
pub use messages::wifi_signal_quality_from_rssi;
pub use messages::MessageModel;
pub use messages::WifiSignalQuality;
pub use request_options::LifxRequestOptions;
pub use wire::deserialize_string;

use vstd::bytes::{spec_u16_from_le_bytes, spec_u16_to_le_bytes, spec_u32_to_le_bytes};
use vstd::slice::slice_subrange;

use crate::header::{lemma_header_bytes_len, spec_header_bytes, spec_header_matches};
use crate::codec::lemma_payload_bytes_len;
use crate::messages::{
    lemma_payload_size_bounds, lemma_view_wf, spec_msg_fits, spec_packet_number,
    spec_payload_size,
};
use crate::wire::{lemma_splice_adjacent, spec_splice, spec_zero_bytes};

verus! {

/// The flags byte a request's options produce: bit 6 asks for an
/// acknowledgement, bit 7 for a state reply; the other bits are reserved and
/// zero.
pub open spec fn spec_options_flags_byte(o: LifxRequestOptions) -> u8 {
    (if o.ack_required {
        0x40u8
    } else {
        0u8
    }) | (if o.res_required {
        0x80u8
    } else {
        0u8
    })
}

/// The 36-byte header that encoding builds from a request's options and a
/// message: protocol id 1024 with `addressable` set (0x1400 in the compound
/// field, plus bit 13 when `tagged`), origin 0, all reserved bytes zero, and
/// the total datagram size in front.
pub open spec fn spec_request_header_bytes(o: LifxRequestOptions, m: MessageModel) -> Seq<u8> {
    spec_u16_to_le_bytes((36 + spec_payload_size(m)) as u16) + spec_u16_to_le_bytes(
        if o.tagged {
            0x3400u16
        } else {
            0x1400u16
        },
    ) + spec_u32_to_le_bytes(o.source) + o.target@ + spec_zero_bytes(6) + seq![
        spec_options_flags_byte(o),
        o.sequence,
    ] + spec_zero_bytes(8) + spec_u16_to_le_bytes(spec_packet_number(m)) + spec_zero_bytes(2)
}

/// The full datagram image for a request: header then payload.
pub open spec fn spec_packet_bytes(o: LifxRequestOptions, m: MessageModel) -> Seq<u8> {
    spec_request_header_bytes(o, m) + spec_payload_bytes(m)
}

/// Encode a whole request datagram into the start of `buffer`: the header
/// built from `request_options` and the payload right after it.  Returns the
/// number of bytes written, `36 + payload size`.  A buffer too short for the
/// datagram is rejected first, then text that does not fit its field width;
/// on any error the buffer is left unchanged.
pub fn serialize_lifx_packet(
    request_options: &LifxRequestOptions,
    payload: &Message,
    buffer: &mut Vec<u8>,
) -> (r: Result<usize, LifxSerializationError>)
    ensures
        r is Ok <==> 36 + spec_payload_size(payload@) <= old(buffer).len() && spec_msg_fits(
            payload@,
        ),
        r matches Ok(n) ==> n == 36 + spec_payload_size(payload@) && final(buffer)@ == spec_splice(
            old(buffer)@,
            0,
            spec_packet_bytes(*request_options, payload@),
        ),
        r == Err::<usize, LifxSerializationError>(LifxSerializationError::BufferTooSmall) <==> 36
            + spec_payload_size(payload@) > old(buffer).len(),
        r == Err::<usize, LifxSerializationError>(LifxSerializationError::OversizedText) <==> 36
            + spec_payload_size(payload@) <= old(buffer).len() && !spec_msg_fits(payload@),
        r is Err ==> final(buffer)@ == old(buffer)@,
{
    proof {
        lemma_payload_size_bounds(payload@);
        lemma_view_wf(payload);
    }
    let payload_size = payload.size();
    if buffer.len() < 36 + payload_size {
        return Err(LifxSerializationError::BufferTooSmall);
    }
    if !payload.labels_fit() {
        return Err(LifxSerializationError::OversizedText);
    }
    let flags_and_reserved_2: u8 = (if request_options.ack_required {
        0x40u8
    } else {
        0u8
    }) | (if request_options.res_required {
        0x80u8
    } else {
        0u8
    });
    let header = LifxHeader {
        size: (36 + payload_size) as u16,
        packet_number: payload.packet_number(),
        tagged: request_options.tagged,
        source: request_options.source,
        target: request_options.target,
        sequence: request_options.sequence,
        protocol: 1024,
        addressable: true,
        origin: 0,
        _reserved_1: [0; 6],
        flags_and_reserved_2,
        _reserved_3: [0; 8],
        _reserved_4: [0; 2],
    };
    proof {
        lemma_header_bytes_len(header);
    }
    if let Err(_) = header.to_bytes(buffer) {
        return Err(LifxSerializationError::BufferTooSmall);
    }
    if let Err(_) = payload.to_bytes(buffer, 36) {
        return Err(LifxSerializationError::BufferTooSmall);
    }
    proof {
        assert((1024u16 & 0x0FFF) | 0x1000u16 | 0x2000u16 | (((0u8 & 0x03) as u16) << 14)
            == 0x3400u16) by (bit_vector);
        assert((1024u16 & 0x0FFF) | 0x1000u16 | 0u16 | (((0u8 & 0x03) as u16) << 14) == 0x1400u16)
            by (bit_vector);
        assert(header._reserved_1@ =~= spec_zero_bytes(6));
        assert(header._reserved_3@ =~= spec_zero_bytes(8));
        assert(header._reserved_4@ =~= spec_zero_bytes(2));
        lemma_payload_bytes_len(payload@);
        assert(spec_header_bytes(header) == spec_request_header_bytes(
            *request_options,
            payload@,
        ));
        lemma_splice_adjacent(
            old(buffer)@,
            0,
            spec_header_bytes(header),
            spec_payload_bytes(payload@),
        );
    }
    Ok(36 + payload_size)
}

/// Decode a whole datagram: the header from the first 36 bytes, then the
/// payload that the header's packet number selects from the rest.  A buffer
/// shorter than a header, an unknown packet number, a payload shorter than
/// its packet number requires, and invalid UTF-8 in a text field each yield
/// their error; nothing is ever read out of bounds.
pub fn deserialize_lifx_packet(bytes: &[u8]) -> (r: Result<
    (LifxHeader, Message),
    LifxDeserializationError,
>)
    ensures
        bytes@.len() < 36 ==> r == Err::<(LifxHeader, Message), LifxDeserializationError>(
            LifxDeserializationError::InvalidPacketSize,
        ),
        bytes@.len() >= 36 ==> match spec_decode_payload(
            spec_u16_from_le_bytes(bytes@.subrange(32, 34)),
            bytes@.skip(36),
        ) {
            Ok(v) => r matches Ok(p) && spec_header_matches(p.0, bytes@) && p.1@ == v,
            Err(e) => r matches Err(e2) && e2 == e,
        },
{
    let header = match LifxHeader::from_bytes(bytes) {
        Ok(h) => h,
        Err(e) => {
            return Err(e);
        },
    };
    let payload = match Message::from_bytes(
        header.packet_number,
        slice_subrange(bytes, 36, bytes.len()),
    ) {
        Ok(m) => m,
        Err(e) => {
            return Err(e);
        },
    };
    Ok((header, payload))
}

} // verus!
