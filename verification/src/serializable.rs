//! The byte-codec interface: every protocol value can be turned into raw
//! bytes, and every decode attempt yields exactly one result, a value or a
//! typed error — never a panic.

use vstd::prelude::*;

verus! {

/// A recoverable, per-frame decode failure.
///
/// Every variant names the condition that was violated; the payload byte, where
/// one is carried, is the offending byte as it appeared on the wire.
#[derive(Clone, Copy, Debug, PartialEq, Eq, Structural)]
pub enum DeserializeError {
    /// The first byte of the candidate frame is not the start marker.
    InvalidStart(u8),
    /// The byte after the payload's checksum is not the end marker.
    InvalidEnd(u8),
    /// The transmitted checksum byte does not match the recomputed sum.
    InvalidChecksum(u8),
    /// An escape marker is followed by a byte that is not an escapable value.
    InvalidEscape(u8),
    /// An escape marker stands as the final byte of the buffer.
    EscapeTruncated,
    /// A coded field's byte does not match any known enumeration value.
    UnrecognizedDiscriminant(u8),
    /// A fixed-shape payload has more bytes than its shape allows.
    InvalidLength(u8),
    /// Fewer bytes remain than the header or the declared length requires.
    TooShort,
}

/// Conversion between typed protocol values and raw bytes.
///
/// `serializable` bounds the inputs on which `serialize` is defined (for most
/// types it is every value; a message's payload must fit the frame's 4-byte
/// length field). The exact byte-level contracts live on each type's inherent
/// `serialize` / `deserialize` functions.
pub trait Serializable: Sized {
    /// Whether this value can be serialized at all.
    spec fn serializable(&self) -> bool;

    /// Turn the value into raw bytes.
    fn serialize(&self) -> Vec<u8>
        requires
            self.serializable(),
    ;

    /// Decode a value from raw bytes; total, returns a typed error on bad input.
    fn deserialize(bytes: &[u8]) -> Result<Self, DeserializeError>;
}

} // verus!
