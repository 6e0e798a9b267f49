//! The section header table: one record per section, decoded in file order,
//! with its name resolved and its type and flags classified.

use vstd::prelude::*;
use vstd::slice::slice_subrange;
use vstd::string::StringExecFns;
use crate::error::DecodeError;
use crate::header::{address_width, Header};
use crate::identity::Class;
use crate::strtab::{resolved_name, StringTable};
use crate::text::{decimal, decimal_text};
use crate::wire::{field_at, read_field, read_u32, ByteOrder};

verus! {

/// The section may be written to while the program runs.
pub const SHF_WRITE: u64 = 0x1;

/// The section occupies memory while the program runs.
pub const SHF_ALLOC: u64 = 0x2;

/// The section holds machine instructions.
pub const SHF_EXECINSTR: u64 = 0x4;

/// The section's data may be merged to remove duplicates.
pub const SHF_MERGE: u64 = 0x10;

/// The section holds NUL-terminated strings.
pub const SHF_STRINGS: u64 = 0x20;

/// The section's info field holds a section index.
pub const SHF_INFO_LINK: u64 = 0x40;

/// The section must keep its place relative to the one it links to.
pub const SHF_LINK_ORDER: u64 = 0x80;

/// The section needs handling that only its operating system knows.
pub const SHF_OS_NONCONFORMING: u64 = 0x100;

/// The section is a member of a group.
pub const SHF_GROUP: u64 = 0x200;

/// The section holds thread-local storage.
pub const SHF_TLS: u64 = 0x400;

/// All the bits that are left to the operating system.
pub const SHF_MASKOS: u64 = 0x0ff0_0000;

/// All the bits that are left to the processor.
pub const SHF_MASKPROC: u64 = 0xf000_0000;

/// Writable and allocated at once: `SHF_WRITE | SHF_ALLOC`.
pub const SHF_WRITE_ALLOC: u64 = 0x3;

/// Allocated and executable at once: `SHF_ALLOC | SHF_EXECINSTR`.
pub const SHF_ALLOC_EXEC: u64 = 0x6;

/// A size of this many bytes or more is also shown in kilobytes.
pub const KILOBYTE: u64 = 1024;

/// What a section holds.
#[derive(Clone, Copy, Debug, PartialEq, Eq, Structural)]
pub enum SectionType {
    /// An inactive section header.
    Null,
    /// Data whose meaning only the program knows.
    ProgBits,
    /// A symbol table.
    SymTab,
    /// A string table.
    StrTab,
    /// Relocation entries with explicit addends.
    Rela,
    /// A symbol hash table.
    Hash,
    /// Information for dynamic linking.
    Dynamic,
    /// Notes that mark the file.
    Note,
    /// A section that takes no space in the file.
    NoBits,
    /// Relocation entries without explicit addends.
    Rel,
    /// Reserved.
    ShLib,
    /// The symbol table of the dynamic linker.
    DynSym,
    /// Pointers to initialisation functions.
    InitArray,
    /// Pointers to termination functions.
    FiniArray,
    /// Pointers to functions that run before all initialisation functions.
    PreInitArray,
    /// A section group.
    Group,
    /// Extended section indices of a symbol table.
    SymTabShndx,
}

/// The section type that a type code stands for. A code outside the
/// table, the ranges reserved for operating systems, processors and
/// applications included, stands for [`SectionType::Null`].
pub open spec fn section_type_of(code: u32) -> SectionType {
    if code == 1 {
        SectionType::ProgBits
    } else if code == 2 {
        SectionType::SymTab
    } else if code == 3 {
        SectionType::StrTab
    } else if code == 4 {
        SectionType::Rela
    } else if code == 5 {
        SectionType::Hash
    } else if code == 6 {
        SectionType::Dynamic
    } else if code == 7 {
        SectionType::Note
    } else if code == 8 {
        SectionType::NoBits
    } else if code == 9 {
        SectionType::Rel
    } else if code == 10 {
        SectionType::ShLib
    } else if code == 11 {
        SectionType::DynSym
    } else if code == 14 {
        SectionType::InitArray
    } else if code == 15 {
        SectionType::FiniArray
    } else if code == 16 {
        SectionType::PreInitArray
    } else if code == 17 {
        SectionType::Group
    } else if code == 18 {
        SectionType::SymTabShndx
    } else {
        SectionType::Null
    }
}

/// Every type code in the ranges that are reserved for operating systems,
/// processors and applications is classified as null, as is every other
/// code above the table.
pub proof fn lemma_reserved_types_are_null(code: u32)
    requires
        code > 18,
    ensures
        section_type_of(code) == SectionType::Null,
{
}

impl SectionType {
    /// Classifies a type code.
    pub fn from_code(code: u32) -> (section_type: SectionType)
        ensures
            section_type == section_type_of(code),
    {
        if code == 1 {
            SectionType::ProgBits
        } else if code == 2 {
            SectionType::SymTab
        } else if code == 3 {
            SectionType::StrTab
        } else if code == 4 {
            SectionType::Rela
        } else if code == 5 {
            SectionType::Hash
        } else if code == 6 {
            SectionType::Dynamic
        } else if code == 7 {
            SectionType::Note
        } else if code == 8 {
            SectionType::NoBits
        } else if code == 9 {
            SectionType::Rel
        } else if code == 10 {
            SectionType::ShLib
        } else if code == 11 {
            SectionType::DynSym
        } else if code == 14 {
            SectionType::InitArray
        } else if code == 15 {
            SectionType::FiniArray
        } else if code == 16 {
            SectionType::PreInitArray
        } else if code == 17 {
            SectionType::Group
        } else if code == 18 {
            SectionType::SymTabShndx
        } else {
            SectionType::Null
        }
    }

    /// The name of this section type.
    pub open spec fn label_text(self) -> Seq<char> {
        match self {
            SectionType::Null => "SHT_NULL"@,
            SectionType::ProgBits => "SHT_PROGBITS"@,
            SectionType::SymTab => "SHT_SYMTAB"@,
            SectionType::StrTab => "SHT_STRTAB"@,
            SectionType::Rela => "SHT_RELA"@,
            SectionType::Hash => "SHT_HASH"@,
            SectionType::Dynamic => "SHT_DYNAMIC"@,
            SectionType::Note => "SHT_NOTE"@,
            SectionType::NoBits => "SHT_NOBITS"@,
            SectionType::Rel => "SHT_REL"@,
            SectionType::ShLib => "SHT_SHLIB"@,
            SectionType::DynSym => "SHT_DYNSYM"@,
            SectionType::InitArray => "SHT_INIT_ARRAY"@,
            SectionType::FiniArray => "SHT_FINI_ARRAY"@,
            SectionType::PreInitArray => "SHT_PREINIT_ARRAY"@,
            SectionType::Group => "SHT_GROUP"@,
            SectionType::SymTabShndx => "SHT_SYMTAB_SHNDX"@,
        }
    }

    /// The name of this section type.
    pub fn get_type(&self) -> (text: String)
        ensures
            text@ == self.label_text(),
    {
        match self {
            SectionType::Null => String::from_str("SHT_NULL"),
            SectionType::ProgBits => String::from_str("SHT_PROGBITS"),
            SectionType::SymTab => String::from_str("SHT_SYMTAB"),
            SectionType::StrTab => String::from_str("SHT_STRTAB"),
            SectionType::Rela => String::from_str("SHT_RELA"),
            SectionType::Hash => String::from_str("SHT_HASH"),
            SectionType::Dynamic => String::from_str("SHT_DYNAMIC"),
            SectionType::Note => String::from_str("SHT_NOTE"),
            SectionType::NoBits => String::from_str("SHT_NOBITS"),
            SectionType::Rel => String::from_str("SHT_REL"),
            SectionType::ShLib => String::from_str("SHT_SHLIB"),
            SectionType::DynSym => String::from_str("SHT_DYNSYM"),
            SectionType::InitArray => String::from_str("SHT_INIT_ARRAY"),
            SectionType::FiniArray => String::from_str("SHT_FINI_ARRAY"),
            SectionType::PreInitArray => String::from_str("SHT_PREINIT_ARRAY"),
            SectionType::Group => String::from_str("SHT_GROUP"),
            SectionType::SymTabShndx => String::from_str("SHT_SYMTAB_SHNDX"),
        }
    }
}

/// The one label that a section's flags are shown under.
#[derive(Clone, Copy, Debug, PartialEq, Eq, Structural)]
pub enum SectionFlags {
    /// No flag is set, or the value is no combination that has a label.
    Undefined,
    /// Exactly [`SHF_WRITE`] and [`SHF_ALLOC`].
    WriteAlloc,
    /// Exactly [`SHF_ALLOC`] and [`SHF_EXECINSTR`].
    AllocExec,
    /// Exactly [`SHF_WRITE`].
    Write,
    /// Exactly [`SHF_ALLOC`].
    Alloc,
    /// Exactly [`SHF_EXECINSTR`].
    ExecInstr,
    /// Exactly [`SHF_MERGE`].
    Merge,
    /// Exactly [`SHF_STRINGS`].
    Strings,
    /// Exactly [`SHF_INFO_LINK`].
    InfoLink,
    /// Exactly [`SHF_LINK_ORDER`].
    LinkOrder,
    /// Exactly [`SHF_OS_NONCONFORMING`].
    OsNonConforming,
    /// Exactly [`SHF_GROUP`].
    Group,
    /// Exactly [`SHF_TLS`].
    Tls,
    /// Exactly [`SHF_MASKOS`].
    MaskOs,
    /// Exactly [`SHF_MASKPROC`].
    MaskProc,
}

/// The label of a flags value. The rules are tried from the top and the
/// first that matches decides: the two composite masks come before every
/// single flag, and a value that no rule names is undefined.
pub open spec fn section_flags_of(flags: u64) -> SectionFlags {
    if flags == SHF_WRITE_ALLOC {
        SectionFlags::WriteAlloc
    } else if flags == SHF_ALLOC_EXEC {
        SectionFlags::AllocExec
    } else if flags == SHF_WRITE {
        SectionFlags::Write
    } else if flags == SHF_ALLOC {
        SectionFlags::Alloc
    } else if flags == SHF_EXECINSTR {
        SectionFlags::ExecInstr
    } else if flags == SHF_MERGE {
        SectionFlags::Merge
    } else if flags == SHF_STRINGS {
        SectionFlags::Strings
    } else if flags == SHF_INFO_LINK {
        SectionFlags::InfoLink
    } else if flags == SHF_LINK_ORDER {
        SectionFlags::LinkOrder
    } else if flags == SHF_OS_NONCONFORMING {
        SectionFlags::OsNonConforming
    } else if flags == SHF_GROUP {
        SectionFlags::Group
    } else if flags == SHF_TLS {
        SectionFlags::Tls
    } else if flags == SHF_MASKOS {
        SectionFlags::MaskOs
    } else if flags == SHF_MASKPROC {
        SectionFlags::MaskProc
    } else {
        SectionFlags::Undefined
    }
}

impl SectionFlags {
    /// Classifies a flags value.
    pub fn from_bits(flags: u64) -> (label: SectionFlags)
        ensures
            label == section_flags_of(flags),
    {
        if flags == SHF_WRITE_ALLOC {
            SectionFlags::WriteAlloc
        } else if flags == SHF_ALLOC_EXEC {
            SectionFlags::AllocExec
        } else if flags == SHF_WRITE {
            SectionFlags::Write
        } else if flags == SHF_ALLOC {
            SectionFlags::Alloc
        } else if flags == SHF_EXECINSTR {
            SectionFlags::ExecInstr
        } else if flags == SHF_MERGE {
            SectionFlags::Merge
        } else if flags == SHF_STRINGS {
            SectionFlags::Strings
        } else if flags == SHF_INFO_LINK {
            SectionFlags::InfoLink
        } else if flags == SHF_LINK_ORDER {
            SectionFlags::LinkOrder
        } else if flags == SHF_OS_NONCONFORMING {
            SectionFlags::OsNonConforming
        } else if flags == SHF_GROUP {
            SectionFlags::Group
        } else if flags == SHF_TLS {
            SectionFlags::Tls
        } else if flags == SHF_MASKOS {
            SectionFlags::MaskOs
        } else if flags == SHF_MASKPROC {
            SectionFlags::MaskProc
        } else {
            SectionFlags::Undefined
        }
    }

    /// The text that a report shows for this label.
    pub open spec fn label_text(self) -> Seq<char> {
        match self {
            SectionFlags::Undefined => "SHF_UNDEFINED"@,
            SectionFlags::WriteAlloc => "SHF_WRITE & SHF_ALLOC"@,
            SectionFlags::AllocExec => "SHF_ASM_OPCODE"@,
            SectionFlags::Write => "SHF_WRITE"@,
            SectionFlags::Alloc => "SHF_ALLOC"@,
            SectionFlags::ExecInstr => "SHF_EXECINSTR"@,
            SectionFlags::Merge => "SHF_MERGE"@,
            SectionFlags::Strings => "SHF_STRINGS"@,
            SectionFlags::InfoLink => "SHF_INFO_LINK"@,
            SectionFlags::LinkOrder => "SHF_LINK_ORDER"@,
            SectionFlags::OsNonConforming => "SHF_OS_NON_CONFORMING"@,
            SectionFlags::Group => "SHF_GROUP"@,
            SectionFlags::Tls => "SHF_TLS"@,
            SectionFlags::MaskOs => "SHF_MASKOS"@,
            SectionFlags::MaskProc => "SHF_MASKPROC"@,
        }
    }

    /// The text that a report shows for this label.
    pub fn label(&self) -> (text: &'static str)
        ensures
            text@ == self.label_text(),
    {
        match self {
            SectionFlags::Undefined => "SHF_UNDEFINED",
            SectionFlags::WriteAlloc => "SHF_WRITE & SHF_ALLOC",
            SectionFlags::AllocExec => "SHF_ASM_OPCODE",
            SectionFlags::Write => "SHF_WRITE",
            SectionFlags::Alloc => "SHF_ALLOC",
            SectionFlags::ExecInstr => "SHF_EXECINSTR",
            SectionFlags::Merge => "SHF_MERGE",
            SectionFlags::Strings => "SHF_STRINGS",
            SectionFlags::InfoLink => "SHF_INFO_LINK",
            SectionFlags::LinkOrder => "SHF_LINK_ORDER",
            SectionFlags::OsNonConforming => "SHF_OS_NON_CONFORMING",
            SectionFlags::Group => "SHF_GROUP",
            SectionFlags::Tls => "SHF_TLS",
            SectionFlags::MaskOs => "SHF_MASKOS",
            SectionFlags::MaskProc => "SHF_MASKPROC",
        }
    }
}

/// The flags value that a label stands for; the undefined label stands
/// for every value that has no label of its own.
pub open spec fn mask_of(label: SectionFlags) -> Option<u64> {
    match label {
        SectionFlags::Undefined => None,
        SectionFlags::WriteAlloc => Some(SHF_WRITE_ALLOC),
        SectionFlags::AllocExec => Some(SHF_ALLOC_EXEC),
        SectionFlags::Write => Some(SHF_WRITE),
        SectionFlags::Alloc => Some(SHF_ALLOC),
        SectionFlags::ExecInstr => Some(SHF_EXECINSTR),
        SectionFlags::Merge => Some(SHF_MERGE),
        SectionFlags::Strings => Some(SHF_STRINGS),
        SectionFlags::InfoLink => Some(SHF_INFO_LINK),
        SectionFlags::LinkOrder => Some(SHF_LINK_ORDER),
        SectionFlags::OsNonConforming => Some(SHF_OS_NONCONFORMING),
        SectionFlags::Group => Some(SHF_GROUP),
        SectionFlags::Tls => Some(SHF_TLS),
        SectionFlags::MaskOs => Some(SHF_MASKOS),
        SectionFlags::MaskProc => Some(SHF_MASKPROC),
    }
}

/// A flags value gets a label exactly when it is the value that the label
/// stands for: a value with a flag more or a flag less is a different
/// value, and is undefined unless it has a label of its own.
pub proof fn lemma_label_iff_mask(flags: u64, label: SectionFlags)
    ensures
        label != SectionFlags::Undefined ==> (section_flags_of(flags) == label <==> mask_of(label)
            == Some(flags)),
        section_flags_of(flags) == SectionFlags::Undefined <==> forall|other: SectionFlags|
            #[trigger] mask_of(other) != Some(flags),
{
    if section_flags_of(flags) != SectionFlags::Undefined {
        assert(mask_of(section_flags_of(flags)) == Some(flags));
    }
}

/// The composite masks are the unions of the flags that they are named
/// after, and a section that is both writable and allocated gets the
/// composite label, neither of the two single ones.
pub proof fn lemma_composite_before_single()
    ensures
        SHF_WRITE | SHF_ALLOC == SHF_WRITE_ALLOC,
        SHF_ALLOC | SHF_EXECINSTR == SHF_ALLOC_EXEC,
        section_flags_of(SHF_WRITE | SHF_ALLOC) == SectionFlags::WriteAlloc,
        section_flags_of(SHF_ALLOC | SHF_EXECINSTR) == SectionFlags::AllocExec,
{
    assert(0x1u64 | 0x2u64 == 0x3u64) by (bit_vector);
    assert(0x2u64 | 0x4u64 == 0x6u64) by (bit_vector);
}

/// A section's size in bytes, with the whole kilobytes that it holds where
/// it holds at least one.
#[derive(Clone, Copy, Debug, PartialEq, Eq, Structural)]
pub struct SectionSize {
    /// The size in bytes.
    pub bytes: u64,
    /// The size in kilobytes, rounded down; `None` below one kilobyte.
    pub kilobytes: Option<u64>,
}

/// The two forms of a size of `bytes` bytes.
pub open spec fn size_form_of(bytes: u64) -> SectionSize {
    SectionSize {
        bytes,
        kilobytes: if bytes >= KILOBYTE {
            Some((bytes / KILOBYTE) as u64)
        } else {
            None
        },
    }
}

/// The kilobyte form is there from one kilobyte on, and it is the size
/// divided by 1024 and rounded down.
pub proof fn lemma_kilobytes_round_down(bytes: u64)
    ensures
        size_form_of(bytes).bytes == bytes,
        size_form_of(bytes).kilobytes is Some <==> bytes >= 1024,
        size_form_of(bytes).kilobytes matches Some(k) ==> k * 1024 <= bytes < (k + 1) * 1024,
{
}

impl SectionSize {
    /// The two forms of a size of `bytes` bytes.
    pub fn new(bytes: u64) -> (size: SectionSize)
        ensures
            size == size_form_of(bytes),
    {
        SectionSize {
            bytes,
            kilobytes: if bytes >= KILOBYTE {
                Some(bytes / KILOBYTE)
            } else {
                None
            },
        }
    }

    /// A size is well formed when its kilobytes follow from its bytes.
    pub open spec fn wf(&self) -> bool {
        *self == size_form_of(self.bytes)
    }

    /// The text that a report shows for this size.
    pub open spec fn display_text(self) -> Seq<char> {
        match self.kilobytes {
            Some(k) => decimal_text(k as nat) + " Kb ("@ + decimal_text(self.bytes as nat)
                + " bytes)"@,
            None => decimal_text(self.bytes as nat) + " bytes"@,
        }
    }

    /// The text that a report shows for this size: the kilobytes with the
    /// bytes in brackets, or the bytes alone below one kilobyte.
    pub fn display(&self) -> (text: String)
        ensures
            text@ == self.display_text(),
    {
        match self.kilobytes {
            Some(k) => {
                let mut text = decimal(k);
                text.append(" Kb (");
                let bytes = decimal(self.bytes);
                text.append(bytes.as_str());
                text.append(" bytes)");
                text
            },
            None => {
                let mut text = decimal(self.bytes);
                text.append(" bytes");
                text
            },
        }
    }
}

/// The text that a report shows for an entry size: the bytes, or nothing
/// for a section without a table of entries.
pub open spec fn entry_size_text(entry_size: u64) -> Seq<char> {
    if entry_size > 0 {
        decimal_text(entry_size as nat) + " bytes"@
    } else {
        Seq::<char>::empty()
    }
}

/// The text that a report shows for an entry size.
pub fn entry_size_display(entry_size: u64) -> (text: String)
    ensures
        text@ == entry_size_text(entry_size),
{
    if entry_size > 0 {
        let mut text = decimal(entry_size);
        text.append(" bytes");
        text
    } else {
        String::new()
    }
}

/// The number of sections that a report states: one less than the count
/// that the header stores, so `-1` for a header that stores zero.
pub fn reported_section_count(section_count: u16) -> (reported: i32)
    ensures
        reported == section_count - 1,
{
    section_count as i32 - 1
}

/// One entry of the section header table, as it is stored.
#[derive(Clone, Copy, Debug, PartialEq, Eq, Structural)]
pub struct SectionRecord {
    /// Offset of the section's name in the section name table.
    pub name_offset: u32,
    /// The type code.
    pub type_code: u32,
    /// The flags.
    pub flags: u64,
    /// Offset of the section's contents in the file.
    pub offset: u64,
    /// Size of the section in bytes.
    pub size: u64,
    /// Size of one entry, for a section that holds a table; else zero.
    pub entry_size: u64,
}

/// The number of bytes of one entry of the section header table.
pub open spec fn entry_len(class: Class) -> int {
    16 + 6 * address_width(class)
}

/// The entry that the bytes at `at` hold.
///
/// An entry holds, in this order: the name offset (4 bytes), the type (4),
/// the flags (`w`), the address (`w`), the file offset (`w`), the size
/// (`w`), the link (4), the info (4), the alignment (`w`) and the entry
/// size (`w`); `w` is the address width of the class.
pub open spec fn record_at(bytes: Seq<u8>, at: int, class: Class, order: ByteOrder)
    -> SectionRecord {
    let w = address_width(class);
    SectionRecord {
        name_offset: field_at(bytes, at, 4, order) as u32,
        type_code: field_at(bytes, at + 4, 4, order) as u32,
        flags: field_at(bytes, at + 8, w, order) as u64,
        offset: field_at(bytes, at + 8 + 2 * w, w, order) as u64,
        size: field_at(bytes, at + 8 + 3 * w, w, order) as u64,
        entry_size: field_at(bytes, at + 16 + 5 * w, w, order) as u64,
    }
}

/// Reads the entry of the section header table that starts at `at`.
pub(crate) fn read_record(bytes: &[u8], at: usize, class: Class, order: ByteOrder) -> (record:
    SectionRecord)
    requires
        at + entry_len(class) <= bytes@.len(),
    ensures
        record == record_at(bytes@, at as int, class, order),
{
    // An unknown class has the wide layout, as in the file header.
    let w: usize = match class {
        Class::Bits32 => 4,
        _ => 8,
    };
    assert(at + 16 + 6 * w <= bytes.len());
    SectionRecord {
        name_offset: read_u32(bytes, at, order),
        type_code: read_u32(bytes, at + 4, order),
        flags: read_field(bytes, at + 8, w, order),
        offset: read_field(bytes, at + 8 + 2 * w, w, order),
        size: read_field(bytes, at + 8 + 3 * w, w, order),
        entry_size: read_field(bytes, at + 16 + 5 * w, w, order),
    }
}

/// The number of entries of the section header table: the count that the
/// header stores, or none where the table's offset is zero, which says
/// that the file has no table.
pub open spec fn table_len(header: Header) -> int {
    if header.section_table_offset == 0 {
        0
    } else {
        header.section_count as int
    }
}

/// Whether the whole section header table lies inside the buffer.
pub open spec fn table_fits(bytes: Seq<u8>, header: Header) -> bool {
    header.section_table_offset + table_len(header) * entry_len(header.identity.class)
        <= bytes.len()
}

/// The entries of the section header table, in file order.
pub open spec fn records_of(bytes: Seq<u8>, header: Header, order: ByteOrder) -> Seq<
    SectionRecord,
> {
    Seq::new(
        table_len(header) as nat,
        |i: int|
            record_at(
                bytes,
                header.section_table_offset + i * entry_len(header.identity.class),
                header.identity.class,
                order,
            ),
    )
}

/// What reading the section header table of `bytes` yields.
pub open spec fn section_records_of(bytes: Seq<u8>, header: Header) -> Result<
    Seq<SectionRecord>,
    DecodeError,
> {
    match header.identity.data_encoding.order() {
        None => Err(DecodeError::EndiannessUnavailable),
        Some(order) => if table_fits(bytes, header) {
            Ok(records_of(bytes, header, order))
        } else {
            Err(DecodeError::Truncated)
        },
    }
}

/// Reads every entry of the section header table, in file order.
///
/// Fails with [`DecodeError::EndiannessUnavailable`] exactly when the
/// header's data encoding is unknown, and otherwise with
/// [`DecodeError::Truncated`] exactly when the table reaches past the end
/// of the buffer.
pub fn read_records(bytes: &[u8], header: &Header) -> (result: Result<
    Vec<SectionRecord>,
    DecodeError,
>)
    ensures
        match result {
            Ok(records) => section_records_of(bytes@, *header) == Ok::<
                Seq<SectionRecord>,
                DecodeError,
            >(records@),
            Err(e) => section_records_of(bytes@, *header) == Err::<Seq<SectionRecord>, DecodeError>(
                e,
            ),
        },
{
    let order = match header.identity.data_encoding.byte_order() {
        Ok(order) => order,
        Err(e) => {
            return Err(e);
        },
    };
    let class = header.identity.class;
    let entry: u64 = match class {
        Class::Bits32 => 40,
        _ => 64,
    };
    let count: u64 = if header.section_table_offset == 0 {
        0
    } else {
        header.section_count as u64
    };
    let len: u64 = bytes.len() as u64;
    let start: u64 = header.section_table_offset;
    assert(count * entry <= 65535 * 64) by (nonlinear_arith)
        requires
            count <= 65535,
            entry <= 64,
    ;
    if start > len || count * entry > len - start {
        return Err(DecodeError::Truncated);
    }
    let mut records: Vec<SectionRecord> = Vec::new();
    let mut i: u64 = 0;
    while i < count
        invariant
            i <= count == table_len(*header),
            entry == entry_len(class),
            class == header.identity.class,
            start == header.section_table_offset,
            start + count * entry <= len == bytes@.len() <= usize::MAX,
            records@ == records_of(bytes@, *header, order).subrange(0, i as int),
        decreases count - i,
    {
        assert(i * entry + entry <= count * entry) by (nonlinear_arith)
            requires
                i < count,
        ;
        let at: u64 = start + i * entry;
        let record = read_record(bytes, at as usize, class, order);
        records.push(record);
        proof {
            let all = records_of(bytes@, *header, order);
            assert(all[i as int] == record);
            assert(records@ =~= all.subrange(0, i + 1));
        }
        i = i + 1;
    }
    proof {
        let all = records_of(bytes@, *header, order);
        assert(all.subrange(0, count as int) =~= all);
    }
    Ok(records)
}

/// A section as a report shows it.
#[derive(Clone, Debug, PartialEq, Eq)]
pub struct SectionHeader {
    /// The resolved name, or the sentinel where it does not resolve.
    pub name: String,
    /// The classified type.
    pub section_type: SectionType,
    /// The classified flags.
    pub flags: SectionFlags,
    /// Offset of the section's contents in the file.
    pub offset: u64,
    /// The size, in bytes and in kilobytes.
    pub size: SectionSize,
    /// Size of one entry, for a section that holds a table; else zero.
    pub entry_size: u64,
    /// Whether the section holds a table of entries.
    pub has_entry_table: bool,
}

/// The mathematical value of a [`SectionHeader`]: the same fields, with the
/// name as a sequence of characters.
pub struct SectionView {
    pub name: Seq<char>,
    pub section_type: SectionType,
    pub flags: SectionFlags,
    pub offset: u64,
    pub size: SectionSize,
    pub entry_size: u64,
    pub has_entry_table: bool,
}

impl View for SectionHeader {
    type V = SectionView;

    open spec fn view(&self) -> SectionView {
        SectionView {
            name: self.name@,
            section_type: self.section_type,
            flags: self.flags,
            offset: self.offset,
            size: self.size,
            entry_size: self.entry_size,
            has_entry_table: self.has_entry_table,
        }
    }
}

impl DeepView for SectionHeader {
    type V = SectionView;

    open spec fn deep_view(&self) -> SectionView {
        self@
    }
}

impl SectionView {
    /// A section is well formed when its size is and when it has an entry
    /// table exactly if its entry size is positive.
    pub open spec fn wf(self) -> bool {
        &&& self.size.wf()
        &&& self.has_entry_table == (self.entry_size > 0)
    }
}

/// The section that a record describes, its name looked up in `names`.
pub open spec fn described(record: SectionRecord, names: Seq<u8>) -> SectionView {
    SectionView {
        name: resolved_name(names, record.name_offset as int),
        section_type: section_type_of(record.type_code),
        flags: section_flags_of(record.flags),
        offset: record.offset,
        size: size_form_of(record.size),
        entry_size: record.entry_size,
        has_entry_table: record.entry_size > 0,
    }
}

/// Describes one section: resolves its name in the section name table
/// `names` and classifies its type and flags.
pub fn describe(record: &SectionRecord, names: &StringTable) -> (section: SectionHeader)
    ensures
        section@ == described(*record, names@),
        section@.wf(),
{
    SectionHeader {
        name: names.resolve(record.name_offset as usize),
        section_type: SectionType::from_code(record.type_code),
        flags: SectionFlags::from_bits(record.flags),
        offset: record.offset,
        size: SectionSize::new(record.size),
        entry_size: record.entry_size,
        has_entry_table: record.entry_size > 0,
    }
}

/// The sections that the records describe, in the records' order.
pub open spec fn described_all(records: Seq<SectionRecord>, names: Seq<u8>) -> Seq<SectionView> {
    Seq::new(records.len(), |i: int| described(records[i], names))
}

/// Describes every section, in the order of the records.
pub fn describe_all(records: &Vec<SectionRecord>, names: &StringTable) -> (sections: Vec<
    SectionHeader,
>)
    ensures
        sections.deep_view() == described_all(records@, names@),
{
    let mut sections: Vec<SectionHeader> = Vec::new();
    let mut i: usize = 0;
    while i < records.len()
        invariant
            i <= records.len(),
            sections.len() == i,
            forall|j: int|
                0 <= j < i ==> (#[trigger] sections[j])@ == described(records@[j], names@),
        decreases records.len() - i,
    {
        sections.push(describe(&records[i], names));
        i = i + 1;
    }
    proof {
        assert(sections.deep_view() =~= described_all(records@, names@));
    }
    sections
}

/// Where the section name table lies in the buffer, as its first and
/// one-past-last offset: the contents of the section that the header names
/// as the holder of the names. Where the header names no section of the
/// table, or one whose contents reach past the end of the buffer, the
/// range is empty, and every name resolves to the sentinel.
pub open spec fn name_table_range(bytes: Seq<u8>, header: Header, records: Seq<SectionRecord>)
    -> (int, int) {
    let i = header.name_table_index as int;
    if i < records.len() && records[i].offset + records[i].size <= bytes.len() {
        (records[i].offset as int, records[i].offset + records[i].size)
    } else {
        (0, 0)
    }
}

/// The bytes of the section name table.
pub open spec fn name_table_of(bytes: Seq<u8>, header: Header, records: Seq<SectionRecord>) -> Seq<
    u8,
> {
    let range = name_table_range(bytes, header, records);
    bytes.subrange(range.0, range.1)
}

/// Finds the section name table in the buffer.
pub fn name_table<'a>(bytes: &'a [u8], header: &Header, records: &Vec<SectionRecord>) -> (names:
    StringTable<'a>)
    ensures
        names@ == name_table_of(bytes@, *header, records@),
{
    let i: usize = header.name_table_index as usize;
    let len: u64 = bytes.len() as u64;
    if i < records.len() {
        let offset: u64 = records[i].offset;
        let size: u64 = records[i].size;
        if offset <= len && size <= len - offset {
            return StringTable::new(
                slice_subrange(bytes, offset as usize, (offset + size) as usize),
            );
        }
    }
    StringTable::new(slice_subrange(bytes, 0, 0))
}

/// What decoding the section header table of `bytes` yields.
pub open spec fn section_table_of(bytes: Seq<u8>, header: Header) -> Result<
    Seq<SectionView>,
    DecodeError,
> {
    match section_records_of(bytes, header) {
        Ok(records) => Ok(described_all(records, name_table_of(bytes, header, records))),
        Err(e) => Err(e),
    }
}

/// A decoded table has one section for every entry that the header counts,
/// and each of them is well formed.
pub proof fn lemma_section_table_shape(bytes: Seq<u8>, header: Header)
    requires
        section_table_of(bytes, header) is Ok,
    ensures
        section_table_of(bytes, header) matches Ok(sections) && {
            &&& sections.len() == table_len(header)
            &&& forall|i: int| 0 <= i < sections.len() ==> (#[trigger] sections[i]).wf()
        },
{
}

/// Decodes the section header table: every entry, in file order, with its
/// name resolved in the section name table and its type and flags
/// classified.
///
/// Fails as [`read_records`] does, and never on account of a name.
pub fn decode_section_table(bytes: &[u8], header: &Header) -> (result: Result<
    Vec<SectionHeader>,
    DecodeError,
>)
    ensures
        match result {
            Ok(sections) => section_table_of(bytes@, *header) == Ok::<
                Seq<SectionView>,
                DecodeError,
            >(sections.deep_view()),
            Err(e) => section_table_of(bytes@, *header) == Err::<Seq<SectionView>, DecodeError>(e),
        },
{
    match read_records(bytes, header) {
        Ok(records) => {
            let names = name_table(bytes, header, &records);
            Ok(describe_all(&records, &names))
        },
        Err(e) => Err(e),
    }
}

} // verus!
