use vstd::prelude::*;

verus! {

/// Why a header could not be accepted.
#[derive(Debug, Clone, Copy, PartialEq, Eq, Structural)]
pub enum FramingError {
    /// The frame-sync marker in front of the header is wrong.
    BadMarker,
    /// The header carries a protocol version this codec does not understand.
    UnsupportedVersion,
    /// A declared segment length exceeds its configured bound.
    LengthTooLarge,
    /// A provider, body type or auth type value that is not defined.
    UnknownValue,
    /// A declared segment length disagrees with the segment that goes with it.
    LengthMismatch,
}

/// Every failure of the framing, envelope and conversion layers.
#[derive(Debug, Clone, Copy, PartialEq, Eq, Structural)]
pub enum Error {
    /// The stream ended before a declared length was satisfied.
    Io,
    /// The header bytes were rejected.
    Framing(FramingError),
    /// The opcode has no entry in the registry.
    UnsupportedOpcode,
    /// The body does not decode into the shape the opcode calls for.
    MalformedBody,
    /// A byte-string field is too long for its length prefix.
    FieldTooLong,
}

} // verus!
