//! What can go wrong when a message is decoded.

use vstd::prelude::*;

verus! {

/// Why a message could not be decoded.
///
/// `InvalidInput` is about the message type alone, and a caller may skip
/// such a message. Every other variant says that the bytes do not have the
/// structure that the message type asks for.
#[derive(Debug, PartialEq, Eq, Clone, Copy, Structural)]
pub enum DecodeError {
    /// The message type is not one that this library decodes.
    InvalidInput,
    /// The payload is shorter than the fixed header of its message.
    TruncatedHeader,
    /// Fewer than four bytes are left where an attribute begins.
    TruncatedAttributeHeader,
    /// An attribute declares more bytes than are left.
    TruncatedAttribute,
    /// An attribute declares fewer bytes than its own header takes.
    InvalidAttributeLength,
}

impl DecodeError {
    /// Whether the bytes, not the message type, were the reason.
    pub open spec fn spec_is_structural(self) -> bool {
        self != DecodeError::InvalidInput
    }

    /// Whether the bytes, not the message type, were the reason.
    pub fn is_structural(&self) -> (structural: bool)
        ensures
            structural == self.spec_is_structural(),
    {
        match self {
            DecodeError::InvalidInput => false,
            _ => true,
        }
    }
}

/// The outcome of decoding as the wire shows it: the view of what was
/// decoded, or the error.
pub open spec fn decoded<T: View>(r: Result<T, DecodeError>) -> Result<T::V, DecodeError> {
    match r {
        Ok(value) => Ok(value@),
        Err(e) => Err(e),
    }
}

} // verus!
