//! The failures that stop a decode.

use vstd::prelude::*;

verus! {

/// Why a buffer could not be decoded.
///
/// Two conditions that look like failures are deliberately not listed here,
/// because they are ordinary outcomes carried in the decoded data: an
/// unrecognised class byte decodes to [`crate::identity::Class::Unknown`],
/// and a name offset that resolves to nothing yields the sentinel name.
#[derive(Clone, Copy, Debug, PartialEq, Eq, Structural)]
pub enum DecodeError {
    /// The buffer does not begin with the four signature bytes.
    InvalidIdentity,
    /// The data-encoding byte names no byte order, so no multi-byte field
    /// can be read.
    EndiannessUnavailable,
    /// The buffer ends before a structure that it announces.
    Truncated,
    /// The object reader rejected the buffer while looking for its dynamic
    /// section.
    Malformed,
    /// A decoder broke an invariant of its own: a defect of the decoder,
    /// not of the input. The decoders of this crate are proved never to
    /// return it; it is kept for the code that assembles output from what
    /// they return, so that such a defect is a value and not an abort.
    StructuralInconsistency,
}

impl DecodeError {
    /// The diagnostic text of this error, as a sequence of characters.
    pub open spec fn message_text(self) -> Seq<char> {
        match self {
            DecodeError::InvalidIdentity => "identification bytes do not match the ELF signature"@,
            DecodeError::EndiannessUnavailable => "data encoding byte names no byte order"@,
            DecodeError::Truncated => "buffer ends before a structure that it announces"@,
            DecodeError::Malformed => "object reader rejected the buffer"@,
            DecodeError::StructuralInconsistency => "decoded parts do not fit together"@,
        }
    }

    /// A one-line diagnostic that says which condition failed.
    pub fn message(&self) -> (text: &'static str)
        ensures
            text@ == self.message_text(),
    {
        match self {
            DecodeError::InvalidIdentity => "identification bytes do not match the ELF signature",
            DecodeError::EndiannessUnavailable => "data encoding byte names no byte order",
            DecodeError::Truncated => "buffer ends before a structure that it announces",
            DecodeError::Malformed => "object reader rejected the buffer",
            DecodeError::StructuralInconsistency => "decoded parts do not fit together",
        }
    }
}

} // verus!
