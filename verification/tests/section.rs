use binarymagic::error::DecodeError;
use binarymagic::header::{decode_header, Header};
use binarymagic::identity::decode_identity;
use binarymagic::section::{
    decode_section_table, describe, describe_all, entry_size_display, name_table, read_records,
    reported_section_count, SectionFlags, SectionRecord, SectionSize, SectionType, SHF_ALLOC,
    SHF_EXECINSTR, SHF_WRITE,
};
use binarymagic::strtab::StringTable;

#[test]
fn section_types_of_the_table() {
    let table = [
        (0u32, SectionType::Null, "SHT_NULL"),
        (1, SectionType::ProgBits, "SHT_PROGBITS"),
        (2, SectionType::SymTab, "SHT_SYMTAB"),
        (3, SectionType::StrTab, "SHT_STRTAB"),
        (4, SectionType::Rela, "SHT_RELA"),
        (5, SectionType::Hash, "SHT_HASH"),
        (6, SectionType::Dynamic, "SHT_DYNAMIC"),
        (7, SectionType::Note, "SHT_NOTE"),
        (8, SectionType::NoBits, "SHT_NOBITS"),
        (9, SectionType::Rel, "SHT_REL"),
        (10, SectionType::ShLib, "SHT_SHLIB"),
        (11, SectionType::DynSym, "SHT_DYNSYM"),
        (14, SectionType::InitArray, "SHT_INIT_ARRAY"),
        (15, SectionType::FiniArray, "SHT_FINI_ARRAY"),
        (16, SectionType::PreInitArray, "SHT_PREINIT_ARRAY"),
        (17, SectionType::Group, "SHT_GROUP"),
        (18, SectionType::SymTabShndx, "SHT_SYMTAB_SHNDX"),
    ];
    for (code, section_type, label) in table {
        assert_eq!(SectionType::from_code(code), section_type);
        assert_eq!(section_type.get_type(), label);
    }
}

#[test]
fn section_types_outside_the_table_are_null() {
    for code in [
        12u32,
        13,
        19,
        20,
        0x6000_0000,
        0x6fff_fff6,
        0x6fff_ffff,
        0x7000_0000,
        0x7000_0001,
        0x7fff_ffff,
        0x8000_0000,
        0xffff_ffff,
    ] {
        assert_eq!(SectionType::from_code(code), SectionType::Null);
    }
}

#[test]
fn writable_and_allocated_is_one_composite_label() {
    let label = SectionFlags::from_bits(SHF_WRITE | SHF_ALLOC);
    assert_eq!(label, SectionFlags::WriteAlloc);
    assert_ne!(label, SectionFlags::Write);
    assert_ne!(label, SectionFlags::Alloc);
    assert_eq!(label.label(), "SHF_WRITE & SHF_ALLOC");
}

#[test]
fn allocated_and_executable_is_one_composite_label() {
    let label = SectionFlags::from_bits(SHF_ALLOC | SHF_EXECINSTR);
    assert_eq!(label, SectionFlags::AllocExec);
    assert_eq!(label.label(), "SHF_ASM_OPCODE");
}

#[test]
fn each_single_flag_has_its_own_label() {
    let table = [
        (0x1u64, SectionFlags::Write, "SHF_WRITE"),
        (0x2, SectionFlags::Alloc, "SHF_ALLOC"),
        (0x4, SectionFlags::ExecInstr, "SHF_EXECINSTR"),
        (0x10, SectionFlags::Merge, "SHF_MERGE"),
        (0x20, SectionFlags::Strings, "SHF_STRINGS"),
        (0x40, SectionFlags::InfoLink, "SHF_INFO_LINK"),
        (0x80, SectionFlags::LinkOrder, "SHF_LINK_ORDER"),
        (0x100, SectionFlags::OsNonConforming, "SHF_OS_NON_CONFORMING"),
        (0x200, SectionFlags::Group, "SHF_GROUP"),
        (0x400, SectionFlags::Tls, "SHF_TLS"),
        (0x0ff0_0000, SectionFlags::MaskOs, "SHF_MASKOS"),
        (0xf000_0000, SectionFlags::MaskProc, "SHF_MASKPROC"),
    ];
    for (bits, flags, label) in table {
        assert_eq!(SectionFlags::from_bits(bits), flags);
        assert_eq!(flags.label(), label);
    }
}

#[test]
fn other_flag_values_are_undefined() {
    for bits in [
        0u64,
        0x5,
        0x7,
        0x8,
        0x11,
        0x30,
        0x42,
        0x800,
        0x0010_0000,
        0xfff0_0000,
        0x1_0000_0000,
        0x1_0000_0003,
        u64::MAX,
    ] {
        assert_eq!(SectionFlags::from_bits(bits), SectionFlags::Undefined);
    }
    assert_eq!(SectionFlags::Undefined.label(), "SHF_UNDEFINED");
}

#[test]
fn two_kilobytes_have_both_forms() {
    let size = SectionSize::new(2048);
    assert_eq!(size.kilobytes, Some(2));
    assert_eq!(size.bytes, 2048);
    assert_eq!(size.display(), "2 Kb (2048 bytes)");
}

#[test]
fn half_a_kilobyte_has_the_byte_form_only() {
    let size = SectionSize::new(512);
    assert_eq!(size.kilobytes, None);
    assert_eq!(size.bytes, 512);
    assert_eq!(size.display(), "512 bytes");
}

#[test]
fn kilobytes_are_rounded_down() {
    assert_eq!(SectionSize::new(0), SectionSize { bytes: 0, kilobytes: None });
    assert_eq!(SectionSize::new(1023), SectionSize { bytes: 1023, kilobytes: None });
    assert_eq!(SectionSize::new(1024), SectionSize { bytes: 1024, kilobytes: Some(1) });
    assert_eq!(SectionSize::new(1025), SectionSize { bytes: 1025, kilobytes: Some(1) });
    assert_eq!(SectionSize::new(2047), SectionSize { bytes: 2047, kilobytes: Some(1) });
    assert_eq!(SectionSize::new(4097), SectionSize { bytes: 4097, kilobytes: Some(4) });
    assert_eq!(
        SectionSize::new(u64::MAX),
        SectionSize { bytes: u64::MAX, kilobytes: Some(18_014_398_509_481_983) }
    );
}

#[test]
fn size_display_of_edge_sizes() {
    assert_eq!(SectionSize::new(0).display(), "0 bytes");
    assert_eq!(SectionSize::new(1023).display(), "1023 bytes");
    assert_eq!(SectionSize::new(1024).display(), "1 Kb (1024 bytes)");
    assert_eq!(
        SectionSize::new(u64::MAX).display(),
        "18014398509481983 Kb (18446744073709551615 bytes)"
    );
}

#[test]
fn entry_size_is_shown_for_tables_only() {
    assert_eq!(entry_size_display(0), "");
    assert_eq!(entry_size_display(1), "1 bytes");
    assert_eq!(entry_size_display(24), "24 bytes");
}

#[test]
fn twelve_stored_sections_are_reported_as_eleven() {
    assert_eq!(reported_section_count(12), 11);
}

#[test]
fn the_reported_count_is_always_one_less() {
    assert_eq!(reported_section_count(0), -1);
    assert_eq!(reported_section_count(1), 0);
    assert_eq!(reported_section_count(2), 1);
    assert_eq!(reported_section_count(65535), 65534);
}

fn record(name_offset: u32, type_code: u32, flags: u64, size: u64, entry_size: u64) -> SectionRecord {
    SectionRecord { name_offset, type_code, flags, offset: 0x40, size, entry_size }
}

const NAMES: &[u8] = b"\0.text\0.data\0.symtab\0";

#[test]
fn describes_a_code_section() {
    let section = describe(&record(1, 1, 6, 2048, 0), &StringTable::new(NAMES));
    assert_eq!(section.name, ".text");
    assert_eq!(section.section_type, SectionType::ProgBits);
    assert_eq!(section.flags, SectionFlags::AllocExec);
    assert_eq!(section.offset, 0x40);
    assert_eq!(section.size, SectionSize { bytes: 2048, kilobytes: Some(2) });
    assert_eq!(section.entry_size, 0);
    assert!(!section.has_entry_table);
}

#[test]
fn describes_a_table_section() {
    let section = describe(&record(13, 2, 0, 480, 24), &StringTable::new(NAMES));
    assert_eq!(section.name, ".symtab");
    assert_eq!(section.section_type, SectionType::SymTab);
    assert_eq!(section.flags, SectionFlags::Undefined);
    assert_eq!(section.size, SectionSize { bytes: 480, kilobytes: None });
    assert_eq!(section.entry_size, 24);
    assert!(section.has_entry_table);
}

#[test]
fn an_entry_table_is_there_exactly_for_a_positive_entry_size() {
    for entry_size in [0u64, 1, 2, 16, 24, u64::MAX] {
        let section = describe(&record(1, 1, 0, 0, entry_size), &StringTable::new(NAMES));
        assert_eq!(section.has_entry_table, entry_size > 0);
    }
}

#[test]
fn a_name_that_does_not_resolve_is_the_sentinel() {
    let names = StringTable::new(NAMES);
    assert_eq!(describe(&record(21, 1, 0, 0, 0), &names).name, "Not defined");
    assert_eq!(describe(&record(u32::MAX, 1, 0, 0, 0), &names).name, "Not defined");
    assert_eq!(describe(&record(1, 1, 0, 0, 0), &StringTable::new(&[])).name, "Not defined");
}

#[test]
fn describe_all_keeps_the_order_of_the_records() {
    let records = vec![record(7, 1, 3, 512, 0), record(0, 0, 0, 0, 0), record(1, 1, 6, 2048, 0)];
    let table = StringTable::new(NAMES);
    let sections = describe_all(&records, &table);
    let names: Vec<&str> = sections.iter().map(|s| s.name.as_str()).collect();
    assert_eq!(names, vec![".data", "", ".text"]);
    assert_eq!(sections[0].flags, SectionFlags::WriteAlloc);
    assert_eq!(sections[1].section_type, SectionType::Null);
    for (section, record) in sections.iter().zip(records.iter()) {
        assert_eq!(*section, describe(record, &table));
    }
}

fn entry_64_le(r: &SectionRecord) -> Vec<u8> {
    let mut e = Vec::new();
    e.extend_from_slice(&r.name_offset.to_le_bytes());
    e.extend_from_slice(&r.type_code.to_le_bytes());
    e.extend_from_slice(&r.flags.to_le_bytes());
    e.extend_from_slice(&0xdead_0000u64.to_le_bytes());
    e.extend_from_slice(&r.offset.to_le_bytes());
    e.extend_from_slice(&r.size.to_le_bytes());
    e.extend_from_slice(&7u32.to_le_bytes());
    e.extend_from_slice(&9u32.to_le_bytes());
    e.extend_from_slice(&16u64.to_le_bytes());
    e.extend_from_slice(&r.entry_size.to_le_bytes());
    e
}

fn entry_32_be(r: &SectionRecord) -> Vec<u8> {
    let mut e = Vec::new();
    e.extend_from_slice(&r.name_offset.to_be_bytes());
    e.extend_from_slice(&r.type_code.to_be_bytes());
    e.extend_from_slice(&(r.flags as u32).to_be_bytes());
    e.extend_from_slice(&0xdead_0000u32.to_be_bytes());
    e.extend_from_slice(&(r.offset as u32).to_be_bytes());
    e.extend_from_slice(&(r.size as u32).to_be_bytes());
    e.extend_from_slice(&7u32.to_be_bytes());
    e.extend_from_slice(&9u32.to_be_bytes());
    e.extend_from_slice(&16u32.to_be_bytes());
    e.extend_from_slice(&(r.entry_size as u32).to_be_bytes());
    e
}

/// A 64-bit little-endian file: header, name table, then `records`.
fn file_64_le(records: &[SectionRecord], names: &[u8], name_index: u16) -> Vec<u8> {
    let table_offset = 64 + names.len() as u64;
    let mut bytes = vec![0x7f, 0x45, 0x4c, 0x46, 2, 1, 1, 0, 0, 0, 0, 0, 0, 0, 0, 0];
    bytes.extend_from_slice(&1u16.to_le_bytes());
    bytes.extend_from_slice(&62u16.to_le_bytes());
    bytes.extend_from_slice(&1u32.to_le_bytes());
    bytes.extend_from_slice(&0u64.to_le_bytes());
    bytes.extend_from_slice(&0u64.to_le_bytes());
    bytes.extend_from_slice(&table_offset.to_le_bytes());
    bytes.extend_from_slice(&0u32.to_le_bytes());
    bytes.extend_from_slice(&64u16.to_le_bytes());
    bytes.extend_from_slice(&56u16.to_le_bytes());
    bytes.extend_from_slice(&0u16.to_le_bytes());
    bytes.extend_from_slice(&64u16.to_le_bytes());
    bytes.extend_from_slice(&(records.len() as u16).to_le_bytes());
    bytes.extend_from_slice(&name_index.to_le_bytes());
    bytes.extend_from_slice(names);
    for r in records {
        bytes.extend_from_slice(&entry_64_le(r));
    }
    bytes
}

fn header_of(bytes: &[u8]) -> Header {
    let mut ident = [0u8; 16];
    ident.copy_from_slice(&bytes[..16]);
    decode_header(bytes, &decode_identity(&ident).unwrap()).unwrap()
}

fn sample_records() -> Vec<SectionRecord> {
    vec![
        SectionRecord { name_offset: 0, type_code: 0, flags: 0, offset: 0, size: 0, entry_size: 0 },
        SectionRecord { name_offset: 1, type_code: 1, flags: 6, offset: 0x1000, size: 2048, entry_size: 0 },
        SectionRecord { name_offset: 7, type_code: 1, flags: 3, offset: 0x2000, size: 512, entry_size: 0 },
        SectionRecord {
            name_offset: 13,
            type_code: 3,
            flags: 0,
            offset: 64,
            size: NAMES.len() as u64,
            entry_size: 0,
        },
    ]
}

#[test]
fn reads_a_64_bit_entry_field_by_field() {
    let wanted = SectionRecord {
        name_offset: 0x1b,
        type_code: 11,
        flags: 0x2,
        offset: 0x0123_4567_89ab_cdef,
        size: 0x300,
        entry_size: 0x18,
    };
    let bytes = file_64_le(&[wanted], NAMES, 0);
    assert_eq!(bytes.len(), 64 + NAMES.len() + 64);
    assert_eq!(read_records(&bytes, &header_of(&bytes)), Ok(vec![wanted]));
    // an unknown class has the same layout
    let mut header = header_of(&bytes);
    header.identity.class = binarymagic::identity::Class::Unknown;
    assert_eq!(read_records(&bytes, &header), Ok(vec![wanted]));
}

#[test]
fn reads_a_32_bit_entry_field_by_field() {
    let wanted = SectionRecord {
        name_offset: 0x1b,
        type_code: 9,
        flags: 0x42,
        offset: 0x89ab_cdef,
        size: 0x300,
        entry_size: 0x8,
    };
    let mut bytes = vec![0xcc; 67];
    bytes.extend_from_slice(&entry_32_be(&wanted));
    assert_eq!(bytes.len(), 67 + 40);
    let mut header = header_of(&file_64_le(&[], NAMES, 0));
    header.identity.class = binarymagic::identity::Class::Bits32;
    header.identity.data_encoding = binarymagic::identity::DataEncoding::BigEndian;
    header.section_table_offset = 67;
    header.section_count = 1;
    assert_eq!(read_records(&bytes, &header), Ok(vec![wanted]));
}

#[test]
fn reads_the_records_in_file_order() {
    let records = sample_records();
    let bytes = file_64_le(&records, NAMES, 3);
    assert_eq!(read_records(&bytes, &header_of(&bytes)), Ok(records));
}

#[test]
fn decodes_the_section_table() {
    let bytes = file_64_le(&sample_records(), NAMES, 3);
    let sections = decode_section_table(&bytes, &header_of(&bytes)).unwrap();
    assert_eq!(sections.len(), 4);
    let names: Vec<&str> = sections.iter().map(|s| s.name.as_str()).collect();
    assert_eq!(names, vec!["", ".text", ".data", ".symtab"]);
    assert_eq!(sections[1].flags, SectionFlags::AllocExec);
    assert_eq!(sections[1].size, SectionSize { bytes: 2048, kilobytes: Some(2) });
    assert_eq!(sections[2].flags, SectionFlags::WriteAlloc);
    assert_eq!(sections[2].size, SectionSize { bytes: 512, kilobytes: None });
    assert_eq!(sections[3].section_type, SectionType::StrTab);
    assert_eq!(sections[3].offset, 64);
}

#[test]
fn decodes_a_32_bit_big_endian_table() {
    let records = sample_records();
    let mut bytes = vec![0x7f, 0x45, 0x4c, 0x46, 1, 2, 1, 0, 0, 0, 0, 0, 0, 0, 0, 0];
    bytes.extend_from_slice(&1u16.to_be_bytes());
    bytes.extend_from_slice(&20u16.to_be_bytes());
    bytes.extend_from_slice(&1u32.to_be_bytes());
    bytes.extend_from_slice(&0u32.to_be_bytes());
    bytes.extend_from_slice(&0u32.to_be_bytes());
    bytes.extend_from_slice(&(64 + NAMES.len() as u32).to_be_bytes());
    bytes.extend_from_slice(&0u32.to_be_bytes());
    bytes.extend_from_slice(&52u16.to_be_bytes());
    bytes.extend_from_slice(&32u16.to_be_bytes());
    bytes.extend_from_slice(&0u16.to_be_bytes());
    bytes.extend_from_slice(&40u16.to_be_bytes());
    bytes.extend_from_slice(&4u16.to_be_bytes());
    bytes.extend_from_slice(&3u16.to_be_bytes());
    bytes.resize(64, 0);
    bytes.extend_from_slice(NAMES);
    for r in &records {
        bytes.extend_from_slice(&entry_32_be(r));
    }
    let header = header_of(&bytes);
    assert_eq!(read_records(&bytes, &header), Ok(records));
    let sections = decode_section_table(&bytes, &header).unwrap();
    let names: Vec<&str> = sections.iter().map(|s| s.name.as_str()).collect();
    assert_eq!(names, vec!["", ".text", ".data", ".symtab"]);
}

#[test]
fn a_table_that_passes_the_end_of_the_buffer_is_truncated() {
    let bytes = file_64_le(&sample_records(), NAMES, 3);
    let header = header_of(&bytes);
    let short = &bytes[..bytes.len() - 1];
    assert_eq!(read_records(short, &header), Err(DecodeError::Truncated));
    assert_eq!(decode_section_table(short, &header), Err(DecodeError::Truncated));
    assert_eq!(decode_section_table(&bytes[..64], &header), Err(DecodeError::Truncated));
    assert!(decode_section_table(&bytes, &header).is_ok());
}

#[test]
fn a_table_offset_beyond_the_buffer_is_truncated() {
    let bytes = file_64_le(&sample_records(), NAMES, 3);
    let mut header = header_of(&bytes);
    header.section_table_offset = bytes.len() as u64 + 1;
    assert_eq!(decode_section_table(&bytes, &header), Err(DecodeError::Truncated));
    header.section_table_offset = u64::MAX;
    assert_eq!(decode_section_table(&bytes, &header), Err(DecodeError::Truncated));
}

#[test]
fn a_zero_table_offset_means_no_sections() {
    let bytes = file_64_le(&sample_records(), NAMES, 3);
    let mut header = header_of(&bytes);
    header.section_table_offset = 0;
    assert_eq!(decode_section_table(&bytes, &header), Ok(vec![]));
}

#[test]
fn a_zero_count_means_no_sections() {
    let bytes = file_64_le(&[], NAMES, 0);
    assert_eq!(decode_section_table(&bytes, &header_of(&bytes)), Ok(vec![]));
}

#[test]
fn a_header_without_byte_order_reads_no_table() {
    let bytes = file_64_le(&sample_records(), NAMES, 3);
    let mut header = header_of(&bytes);
    header.identity.data_encoding = binarymagic::identity::DataEncoding::Unknown;
    assert_eq!(read_records(&bytes, &header), Err(DecodeError::EndiannessUnavailable));
    assert_eq!(decode_section_table(&bytes, &header), Err(DecodeError::EndiannessUnavailable));
}

#[test]
fn the_name_table_is_the_contents_of_the_named_section() {
    let records = sample_records();
    let bytes = file_64_le(&records, NAMES, 3);
    assert_eq!(name_table(&bytes, &header_of(&bytes), &records).as_bytes(), NAMES);
}

#[test]
fn without_a_name_table_every_name_is_the_sentinel() {
    let records = sample_records();
    // the index names no section of the table
    let bytes = file_64_le(&records, NAMES, 4);
    let header = header_of(&bytes);
    assert_eq!(name_table(&bytes, &header, &records).len(), 0);
    let sections = decode_section_table(&bytes, &header).unwrap();
    assert_eq!(sections.len(), 4);
    for section in &sections {
        assert_eq!(section.name, "Not defined");
    }
    // the named section reaches past the end of the buffer
    let mut far = records.clone();
    far[3].size = bytes.len() as u64;
    let bytes = file_64_le(&far, NAMES, 3);
    let sections = decode_section_table(&bytes, &header_of(&bytes)).unwrap();
    for section in &sections {
        assert_eq!(section.name, "Not defined");
    }
}
