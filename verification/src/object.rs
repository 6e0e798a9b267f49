//! The whole decode of one buffer: identification block, file header and
//! section header table, in that order.

use vstd::prelude::*;
use crate::dynamic::dynamic_tables_of;
use crate::error::DecodeError;
use crate::header::{decode_header, header_of, Header};
use crate::identity::{decode_identity, has_signature, identification, identity_of};
use crate::section::{decode_section_table, section_table_of, SectionHeader, SectionView};

verus! {

/// Everything that is decoded from the buffer itself.
#[derive(Clone, Debug, PartialEq, Eq)]
pub struct Object {
    /// The identification block, byte for byte.
    pub ident: [u8; 16],
    /// The file header.
    pub header: Header,
    /// The sections, in file order.
    pub sections: Vec<SectionHeader>,
}

/// The mathematical value of an [`Object`].
pub struct ObjectView {
    pub ident: Seq<u8>,
    pub header: Header,
    pub sections: Seq<SectionView>,
}

impl View for Object {
    type V = ObjectView;

    open spec fn view(&self) -> ObjectView {
        ObjectView {
            ident: self.ident@,
            header: self.header,
            sections: self.sections.deep_view(),
        }
    }
}

/// What decoding `bytes` yields: the first failure on the way from the
/// identification block over the header to the section header table, or
/// all three.
pub open spec fn object_of(bytes: Seq<u8>) -> Result<ObjectView, DecodeError> {
    if !has_signature(bytes) {
        Err(DecodeError::InvalidIdentity)
    } else if bytes.len() < 16 {
        Err(DecodeError::Truncated)
    } else {
        match header_of(bytes, identity_of(bytes.subrange(0, 16))) {
            Err(e) => Err(e),
            Ok(header) => match section_table_of(bytes, header) {
                Err(e) => Err(e),
                Ok(sections) => Ok(ObjectView { ident: bytes.subrange(0, 16), header, sections }),
            },
        }
    }
}

/// Decodes an object file held in memory.
///
/// The stages run in order and the first failure ends the decode, so
/// there is never a partial result: a buffer without the signature fails
/// with [`DecodeError::InvalidIdentity`] before anything else is looked at.
pub fn decode(bytes: &[u8]) -> (result: Result<Object, DecodeError>)
    ensures
        match result {
            Ok(object) => object_of(bytes@) == Ok::<ObjectView, DecodeError>(object@),
            Err(e) => object_of(bytes@) == Err::<ObjectView, DecodeError>(e),
        },
{
    let ident = match identification(bytes) {
        Ok(ident) => ident,
        Err(e) => {
            return Err(e);
        },
    };
    let identity = match decode_identity(&ident) {
        Ok(identity) => identity,
        Err(e) => {
            return Err(e);
        },
    };
    let header = match decode_header(bytes, &identity) {
        Ok(header) => header,
        Err(e) => {
            return Err(e);
        },
    };
    let sections = match decode_section_table(bytes, &header) {
        Ok(sections) => sections,
        Err(e) => {
            return Err(e);
        },
    };
    Ok(Object { ident, header, sections })
}

/// A buffer that does not begin with the signature yields nothing at all:
/// neither a header, nor sections, nor dynamic tables, but the one error
/// that says so.
pub proof fn lemma_unsigned_buffer_yields_nothing(bytes: Seq<u8>)
    requires
        !has_signature(bytes),
    ensures
        object_of(bytes) == Err::<ObjectView, DecodeError>(DecodeError::InvalidIdentity),
        dynamic_tables_of(bytes) == Err::<crate::dynamic::DynamicTablesView, DecodeError>(
            DecodeError::InvalidIdentity,
        ),
{
}

/// No buffer makes a decoder report a defect of its own: whatever the
/// bytes, the outcome is a result or one of the errors of the input.
pub proof fn lemma_no_structural_inconsistency(bytes: Seq<u8>)
    ensures
        object_of(bytes) != Err::<ObjectView, DecodeError>(DecodeError::StructuralInconsistency),
        dynamic_tables_of(bytes) != Err::<crate::dynamic::DynamicTablesView, DecodeError>(
            DecodeError::StructuralInconsistency,
        ),
{
}

/// Only a buffer that does not begin with the signature is an invalid
/// identity.
pub proof fn lemma_invalid_identity_only_unsigned(bytes: Seq<u8>)
    requires
        object_of(bytes) == Err::<ObjectView, DecodeError>(DecodeError::InvalidIdentity),
    ensures
        !has_signature(bytes),
{
}

} // verus!
