//! Error taxonomy of the codec.
//!
//! Every failure is reported to the caller through a `Result`; no operation
//! panics, truncates silently, or recovers internally.
use vstd::prelude::*;

verus! {

/// Why a received buffer could not be decoded.
#[derive(Debug, Clone, Copy, PartialEq, Eq, Structural)]
pub enum LifxDeserializationError {
    /// The header's packet number matches no supported payload variant; the
    /// offending value is carried for diagnostics.
    InvalidPacketNumber(u16),
    /// A fixed-width text field does not hold valid UTF-8.
    InvalidUtf8String,
    /// The buffer is shorter than the 36-byte header, or shorter than the
    /// payload size that its packet number requires.
    InvalidPacketSize,
}

/// Why a value could not be encoded into the destination buffer.
#[derive(Debug, Clone, Copy, PartialEq, Eq, Structural)]
pub enum LifxSerializationError {
    /// The destination buffer cannot hold the bytes to be written.
    BufferTooSmall,
    /// A text value's UTF-8 encoding exceeds its fixed field width; such
    /// input is rejected, never truncated.
    OversizedText,
}

} // verus!
