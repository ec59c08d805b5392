//! Error model of the wire layer.
//!
//! Codec- and envelope-level failures return to the immediate caller;
//! none abort the process. "Tag does not match this candidate kind" is a
//! non-error control signal (`Ok(None)` from a downcast), distinct from
//! "tag matched, payload decode failed", which is a true error.

use vstd::prelude::*;

verus! {

/// A decode or encode failure of the wire layer.
#[derive(Debug, Clone, PartialEq, Eq)]
pub enum WireError {
    /// The cursor is exhausted before a field's declared byte count is available.
    BufferUnderflow,
    /// A tagged union's discriminator matched no known variant; carries the
    /// offending tag and the sum type's identity.
    UnknownVariant { tag: String, union_name: String },
    /// An envelope's embedded tag matched no registered resource kind.
    UnknownResourceKind { tag: String },
    /// A field's bytes are present but hold no valid value for its type.
    InvalidData { field: String },
    /// A variable-length field is too large for its length prefix.
    TooLong { field: String },
}

/// Why a parse failed, at the specification level. The executable decoders
/// map `Short` to [`WireError::BufferUnderflow`] and the other two to the
/// error of the field that failed.
#[derive(Debug, Clone, Copy, PartialEq, Eq, Structural)]
pub enum DecodeFailure {
    /// Fewer bytes remain than the next field requires.
    Short,
    /// A closed-set discriminator matched no known value.
    BadTag,
    /// A field's bytes hold no valid value (bad boolean byte, bad length,
    /// or an integer that is no Unicode scalar value).
    BadData,
}

} // verus!
