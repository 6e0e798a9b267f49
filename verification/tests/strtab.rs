use binarymagic::strtab::{resolve, StringTable};

const TABLE: &[u8] = b"\0.text\0.data\0.shstrtab\0";

#[test]
fn resolves_names_at_their_offsets() {
    assert_eq!(resolve(TABLE, 1), ".text");
    assert_eq!(resolve(TABLE, 7), ".data");
    assert_eq!(resolve(TABLE, 13), ".shstrtab");
}

#[test]
fn an_offset_at_a_terminator_is_the_empty_name() {
    assert_eq!(resolve(TABLE, 0), "");
    assert_eq!(resolve(TABLE, 6), "");
    assert_eq!(resolve(TABLE, 22), "");
}

#[test]
fn an_offset_inside_a_name_is_its_tail() {
    assert_eq!(resolve(TABLE, 2), "text");
    assert_eq!(resolve(TABLE, 16), "strtab");
}

#[test]
fn an_offset_outside_the_table_is_not_defined() {
    assert_eq!(resolve(TABLE, 23), "Not defined");
    assert_eq!(resolve(TABLE, 24), "Not defined");
    assert_eq!(resolve(TABLE, usize::MAX), "Not defined");
    assert_eq!(resolve(&[], 0), "Not defined");
}

#[test]
fn a_run_without_terminator_is_not_defined() {
    let table = b"\0.text\0.da";
    assert_eq!(resolve(table, 1), ".text");
    assert_eq!(resolve(table, 7), "Not defined");
    assert_eq!(resolve(table, 9), "Not defined");
    assert_eq!(resolve(b"abc", 0), "Not defined");
}

#[test]
fn a_run_that_is_not_utf8_is_not_defined() {
    let table = [0x00, 0x80, 0x80, 0x00, b'o', b'k', 0x00];
    assert_eq!(resolve(&table, 1), "Not defined");
    assert_eq!(resolve(&table, 2), "Not defined");
    assert_eq!(resolve(&table, 4), "ok");
}

#[test]
fn a_run_of_multi_byte_characters_resolves() {
    let table = "\0\u{192}oo\0\u{1f171}usta\0".as_bytes();
    assert_eq!(resolve(table, 1), "\u{192}oo");
    assert_eq!(resolve(table, 6), "\u{1f171}usta");
    // an offset inside a character starts no text
    assert_eq!(resolve(table, 2), "Not defined");
    assert_eq!(resolve(table, 3), "oo");
}

#[test]
fn a_string_table_resolves_as_its_bytes_do() {
    let table = StringTable::new(TABLE);
    assert_eq!(table.len(), 23);
    assert_eq!(table.as_bytes(), TABLE);
    for offset in 0..30 {
        assert_eq!(table.resolve(offset), resolve(TABLE, offset));
    }
    assert_eq!(table.resolve(7), ".data");
    assert_eq!(table.resolve(23), "Not defined");
}
