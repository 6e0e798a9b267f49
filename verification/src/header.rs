//! The file header: what kind of object this is, what machine it is for,
//! where execution begins and where the section header table lies.

use vstd::prelude::*;
use vstd::string::StringExecFns;
use crate::error::DecodeError;
use crate::identity::{Class, Identity};
use crate::text::{decimal, decimal_text};
use crate::wire::{field_at, read_field, read_u16, read_u32, ByteOrder};

verus! {

/// Offset of the object type code, right behind the identification block.
pub const TYPE_OFFSET: usize = 16;

/// Offset of the machine code.
pub const MACHINE_OFFSET: usize = 18;

/// Offset of the format version.
pub const VERSION_OFFSET: usize = 20;

/// Offset of the entry point, the first field whose width follows the class.
pub const ENTRY_OFFSET: usize = 24;

/// The kind of object file.
#[derive(Clone, Copy, Debug, PartialEq, Eq, Structural)]
pub enum ObjectType {
    /// No file type.
    NoType,
    /// A relocatable file.
    Relocatable,
    /// An executable file.
    Executable,
    /// A shared object.
    Shared,
    /// A core file.
    Core,
    /// A code outside the table, kept as it was read.
    Unknown(u16),
}

/// The object type that a type code stands for.
pub open spec fn object_type_of(code: u16) -> ObjectType {
    if code == 0 {
        ObjectType::NoType
    } else if code == 1 {
        ObjectType::Relocatable
    } else if code == 2 {
        ObjectType::Executable
    } else if code == 3 {
        ObjectType::Shared
    } else if code == 4 {
        ObjectType::Core
    } else {
        ObjectType::Unknown(code)
    }
}

impl ObjectType {
    /// Looks a type code up. A code outside the table is kept in
    /// [`ObjectType::Unknown`], so no two codes decode alike.
    pub fn from_code(code: u16) -> (object_type: ObjectType)
        ensures
            object_type == object_type_of(code),
    {
        if code == 0 {
            ObjectType::NoType
        } else if code == 1 {
            ObjectType::Relocatable
        } else if code == 2 {
            ObjectType::Executable
        } else if code == 3 {
            ObjectType::Shared
        } else if code == 4 {
            ObjectType::Core
        } else {
            ObjectType::Unknown(code)
        }
    }

    /// The code that this object type was decoded from.
    pub open spec fn code_of(self) -> u16 {
        match self {
            ObjectType::NoType => 0,
            ObjectType::Relocatable => 1,
            ObjectType::Executable => 2,
            ObjectType::Shared => 3,
            ObjectType::Core => 4,
            ObjectType::Unknown(code) => code,
        }
    }

    /// The code that this object type was decoded from.
    pub fn code(&self) -> (code: u16)
        ensures
            code == self.code_of(),
    {
        match self {
            ObjectType::NoType => 0,
            ObjectType::Relocatable => 1,
            ObjectType::Executable => 2,
            ObjectType::Shared => 3,
            ObjectType::Core => 4,
            ObjectType::Unknown(code) => *code,
        }
    }

    /// The text that a report shows for this object type. An unknown type
    /// shows its code in decimal.
    pub open spec fn label_text(self) -> Seq<char> {
        match self {
            ObjectType::NoType => "ET_NONE (No file type)"@,
            ObjectType::Relocatable => "ET_REL (Relocatable file)"@,
            ObjectType::Executable => "ET_EXEC (Executable file)"@,
            ObjectType::Shared => "ET_DYN (Shared object file)"@,
            ObjectType::Core => "ET_CORE (Core file)"@,
            ObjectType::Unknown(code) => "Unknown ("@ + decimal_text(code as nat) + ")"@,
        }
    }

    /// The text that a report shows for this object type.
    pub fn get_type(&self) -> (text: String)
        ensures
            text@ == self.label_text(),
    {
        match self {
            ObjectType::NoType => String::from_str("ET_NONE (No file type)"),
            ObjectType::Relocatable => String::from_str("ET_REL (Relocatable file)"),
            ObjectType::Executable => String::from_str("ET_EXEC (Executable file)"),
            ObjectType::Shared => String::from_str("ET_DYN (Shared object file)"),
            ObjectType::Core => String::from_str("ET_CORE (Core file)"),
            ObjectType::Unknown(code) => {
                let mut text = String::from_str("Unknown (");
                let digits = decimal(*code as u64);
                text.append(digits.as_str());
                text.append(")");
                text
            },
        }
    }
}

/// No type code is lost in decoding: the object type gives back the code
/// that it was decoded from, so two codes never decode alike.
pub proof fn lemma_object_type_keeps_code(code: u16)
    ensures
        object_type_of(code).code_of() == code,
        code > 4 <==> object_type_of(code) == ObjectType::Unknown(code),
{
}

/// The machine architecture that an object is built for. Only a few
/// architectures have a name of their own here; the rest are
/// [`Machine::Unknown`].
#[derive(Clone, Copy, Debug, PartialEq, Eq, Structural)]
pub enum Machine {
    /// No machine.
    NoMachine,
    /// MIPS I.
    Mips,
    /// PowerPC, 32 or 64 bit.
    PowerPc,
    /// x86-64.
    X86_64,
    /// Any other code, kept as it was read.
    Unknown(u16),
}

/// The machine that a machine code stands for.
pub open spec fn machine_of(code: u16) -> Machine {
    if code == 0 {
        Machine::NoMachine
    } else if code == 8 {
        Machine::Mips
    } else if code == 20 || code == 21 {
        Machine::PowerPc
    } else if code == 62 {
        Machine::X86_64
    } else {
        Machine::Unknown(code)
    }
}

impl Machine {
    /// Looks a machine code up.
    pub fn from_code(code: u16) -> (machine: Machine)
        ensures
            machine == machine_of(code),
    {
        if code == 0 {
            Machine::NoMachine
        } else if code == 8 {
            Machine::Mips
        } else if code == 20 || code == 21 {
            Machine::PowerPc
        } else if code == 62 {
            Machine::X86_64
        } else {
            Machine::Unknown(code)
        }
    }

    /// The text that a report shows for this machine. Every unknown
    /// machine shows the same text, whatever its code.
    pub open spec fn label_text(self) -> Seq<char> {
        match self {
            Machine::NoMachine => "No machine"@,
            Machine::Mips => "MIPS I Architecture"@,
            Machine::PowerPc => "PowerPC 32/64 bit"@,
            Machine::X86_64 => "Intel/AMD 64-bit"@,
            Machine::Unknown(_) => "Unknown"@,
        }
    }

    /// The text that a report shows for this machine.
    pub fn label(&self) -> (text: &'static str)
        ensures
            text@ == self.label_text(),
    {
        match self {
            Machine::NoMachine => "No machine",
            Machine::Mips => "MIPS I Architecture",
            Machine::PowerPc => "PowerPC 32/64 bit",
            Machine::X86_64 => "Intel/AMD 64-bit",
            Machine::Unknown(_) => "Unknown",
        }
    }
}

/// A machine code outside the table is labelled `"Unknown"`, and the label
/// holds nothing of the code: all such codes share it.
pub proof fn lemma_unlisted_machine_is_unknown(code: u16)
    requires
        code != 0 && code != 8 && code != 20 && code != 21 && code != 62,
    ensures
        machine_of(code) == Machine::Unknown(code),
        machine_of(code).label_text() == "Unknown"@,
{
}

/// The text that a report shows for a machine code.
pub fn machine_label(code: u16) -> (text: &'static str)
    ensures
        text@ == machine_of(code).label_text(),
{
    Machine::from_code(code).label()
}

/// The text that a report shows for a format version.
pub open spec fn version_label_text(version: u32) -> Seq<char> {
    if version == 0 {
        "0 (EV_NONE)"@
    } else if version == 1 {
        "1 (EV_CURRENT)"@
    } else {
        "UNKNOWN"@
    }
}

/// The text that a report shows for a format version.
pub fn version_label(version: u32) -> (text: &'static str)
    ensures
        text@ == version_label_text(version),
{
    if version == 0 {
        "0 (EV_NONE)"
    } else if version == 1 {
        "1 (EV_CURRENT)"
    } else {
        "UNKNOWN"
    }
}

/// The number of bytes that an address or a file offset takes in the
/// header and in the section header table.
///
/// Only the 32-bit class has four-byte addresses. An object whose class is
/// unknown is read with the 64-bit layout: decoding goes on, and the class
/// stays `Unknown` in the result.
pub open spec fn address_width(class: Class) -> int {
    if class == Class::Bits32 {
        4
    } else {
        8
    }
}

/// The number of bytes of the file header, identification block included.
pub open spec fn header_len(class: Class) -> int {
    ENTRY_OFFSET as int + 3 * address_width(class) + 16
}

/// The decoded file header.
#[derive(Clone, Copy, Debug, PartialEq, Eq)]
pub struct Header {
    /// The identity that the header was decoded under.
    pub identity: Identity,
    /// The kind of object.
    pub object_type: ObjectType,
    /// The machine architecture.
    pub machine: Machine,
    /// The format version.
    pub version: u32,
    /// The address at which execution begins.
    pub entry_point: u64,
    /// The size that the header states for itself, in bytes.
    pub header_size: u16,
    /// The number of entries of the section header table, as stored.
    pub section_count: u16,
    /// The file offset of the section header table; zero where there is none.
    pub section_table_offset: u64,
    /// The index of the section that holds the section names.
    pub name_table_index: u16,
}

/// The header that `bytes` holds for an object of the given identity and
/// byte order.
///
/// Behind the identification block the header holds, in this order: the
/// type (2 bytes), the machine (2), the version (4), the entry point (`w`),
/// the offset of the program header table (`w`), the offset of the section
/// header table (`w`), the processor flags (4), the header size (2), the
/// size (2) and number (2) of the program header entries, the size (2) and
/// number (2) of the section header entries, and the index of the section
/// that holds the section names (2); `w` is the address width of the class.
pub open spec fn header_fields(bytes: Seq<u8>, identity: Identity, order: ByteOrder) -> Header {
    let w = address_width(identity.class);
    let tail = ENTRY_OFFSET as int + 3 * w + 4;
    Header {
        identity,
        object_type: object_type_of(field_at(bytes, TYPE_OFFSET as int, 2, order) as u16),
        machine: machine_of(field_at(bytes, MACHINE_OFFSET as int, 2, order) as u16),
        version: field_at(bytes, VERSION_OFFSET as int, 4, order) as u32,
        entry_point: field_at(bytes, ENTRY_OFFSET as int, w, order) as u64,
        header_size: field_at(bytes, tail, 2, order) as u16,
        section_count: field_at(bytes, tail + 8, 2, order) as u16,
        section_table_offset: field_at(bytes, ENTRY_OFFSET as int + 2 * w, w, order) as u64,
        name_table_index: field_at(bytes, tail + 10, 2, order) as u16,
    }
}

/// What decoding the header of `bytes` under `identity` yields.
pub open spec fn header_of(bytes: Seq<u8>, identity: Identity) -> Result<Header, DecodeError> {
    match identity.data_encoding.order() {
        None => Err(DecodeError::EndiannessUnavailable),
        Some(order) => if bytes.len() < header_len(identity.class) {
            Err(DecodeError::Truncated)
        } else {
            Ok(header_fields(bytes, identity, order))
        },
    }
}

/// The header is read from the bytes of the header alone: two buffers that
/// begin with the same header bytes decode alike, whatever follows.
pub proof fn lemma_header_reads_header_bytes_only(a: Seq<u8>, b: Seq<u8>, identity: Identity)
    requires
        a.len() >= header_len(identity.class),
        b.len() >= header_len(identity.class),
        a.subrange(0, header_len(identity.class)) == b.subrange(0, header_len(identity.class)),
    ensures
        header_of(a, identity) == header_of(b, identity),
{
    let n = header_len(identity.class);
    assert forall|offset: int, width: int|
        0 <= offset && 0 <= width && offset + width <= n implies (#[trigger] a.subrange(
        offset,
        offset + width,
    )) == b.subrange(offset, offset + width) by {
        assert(a.subrange(offset, offset + width) =~= a.subrange(0, n).subrange(
            offset,
            offset + width,
        ));
        assert(b.subrange(offset, offset + width) =~= b.subrange(0, n).subrange(
            offset,
            offset + width,
        ));
    }
    let w = address_width(identity.class);
    let tail = ENTRY_OFFSET as int + 3 * w + 4;
    assert(a.subrange(TYPE_OFFSET as int, TYPE_OFFSET as int + 2) == b.subrange(
        TYPE_OFFSET as int,
        TYPE_OFFSET as int + 2,
    ));
    assert(a.subrange(MACHINE_OFFSET as int, MACHINE_OFFSET as int + 2) == b.subrange(
        MACHINE_OFFSET as int,
        MACHINE_OFFSET as int + 2,
    ));
    assert(a.subrange(VERSION_OFFSET as int, VERSION_OFFSET as int + 4) == b.subrange(
        VERSION_OFFSET as int,
        VERSION_OFFSET as int + 4,
    ));
    assert(a.subrange(ENTRY_OFFSET as int, ENTRY_OFFSET as int + w) == b.subrange(
        ENTRY_OFFSET as int,
        ENTRY_OFFSET as int + w,
    ));
    assert(a.subrange(ENTRY_OFFSET as int + 2 * w, ENTRY_OFFSET as int + 2 * w + w) == b.subrange(
        ENTRY_OFFSET as int + 2 * w,
        ENTRY_OFFSET as int + 2 * w + w,
    ));
    assert(a.subrange(tail, tail + 2) == b.subrange(tail, tail + 2));
    assert(a.subrange(tail + 8, tail + 8 + 2) == b.subrange(tail + 8, tail + 8 + 2));
    assert(a.subrange(tail + 10, tail + 10 + 2) == b.subrange(tail + 10, tail + 10 + 2));
}

/// Decodes the file header of `bytes`.
///
/// The identity decides how: its data encoding gives the byte order of
/// every multi-byte field, and its class gives the width of the entry point
/// and of the file offsets. Decoding fails with
/// [`DecodeError::EndiannessUnavailable`] exactly when the data encoding is
/// unknown, and otherwise with [`DecodeError::Truncated`] exactly when the
/// buffer is shorter than the header. An unknown class is no failure: such
/// an object is read with the 64-bit layout.
pub fn decode_header(bytes: &[u8], identity: &Identity) -> (result: Result<Header, DecodeError>)
    ensures
        result == header_of(bytes@, *identity),
{
    let order = match identity.data_encoding.byte_order() {
        Ok(order) => order,
        Err(e) => {
            return Err(e);
        },
    };
    // Only the 32-bit class has the narrow layout. An unknown class is no
    // reason to stop: it is read with the wide layout, and stays unknown in
    // the result.
    let w: usize = match identity.class {
        Class::Bits32 => 4,
        _ => 8,
    };
    let tail: usize = ENTRY_OFFSET + 3 * w + 4;
    if bytes.len() < tail + 12 {
        return Err(DecodeError::Truncated);
    }
    let header = Header {
        identity: *identity,
        object_type: ObjectType::from_code(read_u16(bytes, TYPE_OFFSET, order)),
        machine: Machine::from_code(read_u16(bytes, MACHINE_OFFSET, order)),
        version: read_u32(bytes, VERSION_OFFSET, order),
        entry_point: read_field(bytes, ENTRY_OFFSET, w, order),
        header_size: read_u16(bytes, tail, order),
        section_count: read_u16(bytes, tail + 8, order),
        section_table_offset: read_field(bytes, ENTRY_OFFSET + 2 * w, w, order),
        name_table_index: read_u16(bytes, tail + 10, order),
    };
    Ok(header)
}

} // verus!
