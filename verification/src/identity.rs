//! The sixteen-byte identification block at the start of an object file.

use vstd::prelude::*;
use crate::error::DecodeError;
use crate::text::{hex_pair, hex_pair_text, join, joined_text};
use crate::wire::ByteOrder;

verus! {

/// Index of the class byte in the block.
pub const CLASS_INDEX: usize = 4;

/// Index of the data-encoding byte in the block.
pub const DATA_INDEX: usize = 5;

/// Index of the version byte in the block.
pub const VERSION_INDEX: usize = 6;

/// The four bytes that every object file begins with: `0x7f 'E' 'L' 'F'`.
pub open spec fn signature() -> Seq<u8> {
    seq![0x7fu8, 0x45u8, 0x4cu8, 0x46u8]
}

/// Whether `bytes` begins with the signature.
pub open spec fn has_signature(bytes: Seq<u8>) -> bool {
    &&& bytes.len() >= 4
    &&& bytes[0] == 0x7f
    &&& bytes[1] == 0x45
    &&& bytes[2] == 0x4c
    &&& bytes[3] == 0x46
}

/// A buffer has the signature exactly when its first four bytes are the
/// signature.
pub proof fn lemma_has_signature(bytes: Seq<u8>)
    ensures
        has_signature(bytes) <==> bytes.len() >= 4 && bytes.subrange(0, 4) == signature(),
{
    if bytes.len() >= 4 {
        let head = bytes.subrange(0, 4);
        assert(head[0] == bytes[0] && head[1] == bytes[1] && head[2] == bytes[2] && head[3]
            == bytes[3]);
        if has_signature(bytes) {
            assert(head =~= signature());
        }
    }
}

/// The word width that an object is laid out for.
#[derive(Clone, Copy, Debug, PartialEq, Eq, Structural)]
pub enum Class {
    /// The class byte names no width.
    Unknown,
    /// Addresses and offsets are 32 bits wide.
    Bits32,
    /// Addresses and offsets are 64 bits wide.
    Bits64,
}

/// The byte order that an object's multi-byte fields are stored in.
#[derive(Clone, Copy, Debug, PartialEq, Eq, Structural)]
pub enum DataEncoding {
    /// The data-encoding byte names no byte order.
    Unknown,
    /// Two's complement, least significant byte first.
    LittleEndian,
    /// Two's complement, most significant byte first.
    BigEndian,
}

/// The class that a class byte stands for.
pub open spec fn class_of(byte: u8) -> Class {
    if byte == 1 {
        Class::Bits32
    } else if byte == 2 {
        Class::Bits64
    } else {
        Class::Unknown
    }
}

/// The data encoding that a data-encoding byte stands for.
pub open spec fn encoding_of(byte: u8) -> DataEncoding {
    if byte == 1 {
        DataEncoding::LittleEndian
    } else if byte == 2 {
        DataEncoding::BigEndian
    } else {
        DataEncoding::Unknown
    }
}

impl Class {
    /// Decodes a class byte. Every byte has a class: the unassigned ones
    /// decode to [`Class::Unknown`].
    pub fn from_byte(byte: u8) -> (class: Class)
        ensures
            class == class_of(byte),
    {
        if byte == 1 {
            Class::Bits32
        } else if byte == 2 {
            Class::Bits64
        } else {
            Class::Unknown
        }
    }

    /// The text that a report shows for this class.
    pub open spec fn label_text(self) -> Seq<char> {
        match self {
            Class::Unknown => "Unknown"@,
            Class::Bits32 => "1 (32 BIT)"@,
            Class::Bits64 => "2 (64 BIT)"@,
        }
    }

    /// The text that a report shows for this class.
    pub fn label(&self) -> (text: &'static str)
        ensures
            text@ == self.label_text(),
    {
        match self {
            Class::Unknown => "Unknown",
            Class::Bits32 => "1 (32 BIT)",
            Class::Bits64 => "2 (64 BIT)",
        }
    }
}

impl DataEncoding {
    /// Decodes a data-encoding byte. Every byte has an encoding: the
    /// unassigned ones decode to [`DataEncoding::Unknown`].
    pub fn from_byte(byte: u8) -> (encoding: DataEncoding)
        ensures
            encoding == encoding_of(byte),
    {
        if byte == 1 {
            DataEncoding::LittleEndian
        } else if byte == 2 {
            DataEncoding::BigEndian
        } else {
            DataEncoding::Unknown
        }
    }

    /// The byte order of this encoding, if it names one.
    pub open spec fn order(self) -> Option<ByteOrder> {
        match self {
            DataEncoding::Unknown => None,
            DataEncoding::LittleEndian => Some(ByteOrder::Little),
            DataEncoding::BigEndian => Some(ByteOrder::Big),
        }
    }

    /// The byte order to read multi-byte fields with, or
    /// [`DecodeError::EndiannessUnavailable`] where the encoding names none.
    pub fn byte_order(&self) -> (order: Result<ByteOrder, DecodeError>)
        ensures
            order == match self.order() {
                Some(o) => Ok::<ByteOrder, DecodeError>(o),
                None => Err(DecodeError::EndiannessUnavailable),
            },
    {
        match self {
            DataEncoding::Unknown => Err(DecodeError::EndiannessUnavailable),
            DataEncoding::LittleEndian => Ok(ByteOrder::Little),
            DataEncoding::BigEndian => Ok(ByteOrder::Big),
        }
    }

    /// The text that a report shows for this encoding.
    pub open spec fn label_text(self) -> Seq<char> {
        match self {
            DataEncoding::Unknown => "Unknown"@,
            DataEncoding::LittleEndian => "1 (LE with 2's complement)"@,
            DataEncoding::BigEndian => "2 (BE with 2's compliment)"@,
        }
    }

    /// The text that a report shows for this encoding.
    pub fn label(&self) -> (text: &'static str)
        ensures
            text@ == self.label_text(),
    {
        match self {
            DataEncoding::Unknown => "Unknown",
            DataEncoding::LittleEndian => "1 (LE with 2's complement)",
            DataEncoding::BigEndian => "2 (BE with 2's compliment)",
        }
    }
}

/// What the identification block says about an object.
#[derive(Clone, Copy, Debug, PartialEq, Eq)]
pub struct Identity {
    /// The signature bytes as they stood in the block.
    pub magic: [u8; 4],
    /// The word width.
    pub class: Class,
    /// The byte order.
    pub data_encoding: DataEncoding,
    /// The version byte, verbatim.
    pub version: u8,
}

impl Identity {
    /// An identity is well formed when its magic is the signature.
    pub open spec fn wf(&self) -> bool {
        has_signature(self.magic@)
    }
}

/// The identity that a block states: its first four bytes as the magic,
/// its class and data-encoding bytes looked up, its version byte as it is.
pub open spec fn identity_of(ident: Seq<u8>) -> Identity {
    Identity {
        magic: [ident[0], ident[1], ident[2], ident[3]],
        class: class_of(ident[CLASS_INDEX as int]),
        data_encoding: encoding_of(ident[DATA_INDEX as int]),
        version: ident[VERSION_INDEX as int],
    }
}

/// What decoding the block `ident` yields.
pub open spec fn decoded_identity(ident: Seq<u8>) -> Result<Identity, DecodeError> {
    if has_signature(ident) {
        Ok(identity_of(ident))
    } else {
        Err(DecodeError::InvalidIdentity)
    }
}

/// Decodes an identification block.
///
/// The block is rejected with [`DecodeError::InvalidIdentity`] exactly when
/// it does not begin with the signature. Every other block decodes: the
/// class and data-encoding bytes are looked up, with `Unknown` for the
/// unassigned values, and the version byte is kept as it is.
pub fn decode_identity(ident: &[u8; 16]) -> (result: Result<Identity, DecodeError>)
    ensures
        result == decoded_identity(ident@),
        result matches Ok(identity) ==> identity.wf(),
{
    if ident[0] != 0x7f || ident[1] != 0x45 || ident[2] != 0x4c || ident[3] != 0x46 {
        return Err(DecodeError::InvalidIdentity);
    }
    let identity = Identity {
        magic: [ident[0], ident[1], ident[2], ident[3]],
        class: Class::from_byte(ident[CLASS_INDEX]),
        data_encoding: DataEncoding::from_byte(ident[DATA_INDEX]),
        version: ident[VERSION_INDEX],
    };
    proof {
        assert(identity.magic =~= identity_of(ident@).magic);
    }
    Ok(identity)
}

/// Every block that begins with the signature decodes, whatever its other
/// bytes are: to a well-formed identity whose class is one of the three
/// classes and whose data encoding is one of the three encodings.
pub proof fn lemma_signed_block_decodes(ident: Seq<u8>)
    requires
        ident.len() == 16,
        has_signature(ident),
    ensures
        decoded_identity(ident) matches Ok(identity) && {
            &&& identity.wf()
            &&& identity.class == Class::Unknown || identity.class == Class::Bits32
                || identity.class == Class::Bits64
            &&& identity.data_encoding == DataEncoding::Unknown || identity.data_encoding
                == DataEncoding::LittleEndian || identity.data_encoding == DataEncoding::BigEndian
        },
{
}

/// A block that does not begin with the signature is rejected as an
/// invalid identity, and so decodes to nothing.
pub proof fn lemma_unsigned_block_rejected(ident: Seq<u8>)
    requires
        ident.len() == 16,
        !has_signature(ident),
    ensures
        decoded_identity(ident) == Err::<Identity, DecodeError>(DecodeError::InvalidIdentity),
{
}

/// The bytes of the block as text: one two-digit hexadecimal pair per byte,
/// in the order of the block.
pub fn magic_bytes(ident: &[u8; 16]) -> (pairs: Vec<String>)
    ensures
        pairs.len() == 16,
        forall|i: int| 0 <= i < 16 ==> (#[trigger] pairs[i])@ == hex_pair_text(ident@[i]),
{
    let mut pairs: Vec<String> = Vec::new();
    let mut i: usize = 0;
    while i < 16
        invariant
            i <= 16,
            pairs.len() == i,
            forall|j: int| 0 <= j < i ==> (#[trigger] pairs[j])@ == hex_pair_text(ident@[j]),
        decreases 16 - i,
    {
        pairs.push(hex_pair(ident[i]));
        i = i + 1;
    }
    pairs
}

/// The text of the block as a report shows it: the pairs of
/// [`magic_bytes`], separated by single spaces.
pub open spec fn magic_line(ident: Seq<u8>) -> Seq<char> {
    joined_text(Seq::new(16, |i: int| hex_pair_text(ident[i])), seq![' '])
}

/// Formats the block as sixteen hexadecimal pairs separated by spaces.
pub fn magic_text(ident: &[u8; 16]) -> (text: String)
    ensures
        text@ == magic_line(ident@),
{
    let pairs = magic_bytes(ident);
    proof {
        reveal_strlit(" ");
        assert(" "@ =~= seq![' ']);
        assert(pairs.deep_view() =~= Seq::new(16, |i: int| hex_pair_text(ident@[i])));
    }
    join(&pairs, " ")
}

/// The identification block of a buffer: its first sixteen bytes, if it
/// begins with the signature and is that long.
pub open spec fn identification_of(bytes: Seq<u8>) -> Result<Seq<u8>, DecodeError> {
    if !has_signature(bytes) {
        Err(DecodeError::InvalidIdentity)
    } else if bytes.len() < 16 {
        Err(DecodeError::Truncated)
    } else {
        Ok(bytes.subrange(0, 16))
    }
}

/// Takes the identification block off the front of a buffer.
///
/// Fails with [`DecodeError::InvalidIdentity`] exactly when the buffer does
/// not begin with the signature, and with [`DecodeError::Truncated`] exactly
/// when it does but ends before the sixteenth byte.
pub fn identification(bytes: &[u8]) -> (result: Result<[u8; 16], DecodeError>)
    ensures
        match result {
            Ok(block) => identification_of(bytes@) == Ok::<Seq<u8>, DecodeError>(block@),
            Err(e) => identification_of(bytes@) == Err::<Seq<u8>, DecodeError>(e),
        },
{
    if bytes.len() < 4 || bytes[0] != 0x7f || bytes[1] != 0x45 || bytes[2] != 0x4c || bytes[3]
        != 0x46 {
        return Err(DecodeError::InvalidIdentity);
    }
    if bytes.len() < 16 {
        return Err(DecodeError::Truncated);
    }
    let mut block: [u8; 16] = [0u8; 16];
    let mut i: usize = 0;
    while i < 16
        invariant
            i <= 16 <= bytes@.len(),
            forall|j: int| 0 <= j < i ==> block@[j] == bytes@[j],
        decreases 16 - i,
    {
        block[i] = bytes[i];
        i = i + 1;
    }
    proof {
        assert(block@ =~= bytes@.subrange(0, 16));
    }
    Ok(block)
}

} // verus!
