use binarymagic::wire::{read, ByteOrder};

const BYTES: [u8; 10] = [0x01, 0x23, 0x45, 0x67, 0x89, 0xab, 0xcd, 0xef, 0x10, 0x32];

#[test]
fn reads_big_endian_fields() {
    assert_eq!(read(&BYTES, 0, 1, ByteOrder::Big), Some(0x01));
    assert_eq!(read(&BYTES, 0, 2, ByteOrder::Big), Some(0x0123));
    assert_eq!(read(&BYTES, 0, 4, ByteOrder::Big), Some(0x0123_4567));
    assert_eq!(read(&BYTES, 0, 8, ByteOrder::Big), Some(0x0123_4567_89ab_cdef));
    assert_eq!(read(&BYTES, 2, 8, ByteOrder::Big), Some(0x4567_89ab_cdef_1032));
}

#[test]
fn reads_little_endian_fields() {
    assert_eq!(read(&BYTES, 0, 1, ByteOrder::Little), Some(0x01));
    assert_eq!(read(&BYTES, 0, 2, ByteOrder::Little), Some(0x2301));
    assert_eq!(read(&BYTES, 0, 4, ByteOrder::Little), Some(0x6745_2301));
    assert_eq!(read(&BYTES, 0, 8, ByteOrder::Little), Some(0xefcd_ab89_6745_2301));
    assert_eq!(read(&BYTES, 2, 8, ByteOrder::Little), Some(0x3210_efcd_ab89_6745));
}

#[test]
fn reads_fields_of_odd_widths() {
    assert_eq!(read(&BYTES, 1, 3, ByteOrder::Big), Some(0x23_4567));
    assert_eq!(read(&BYTES, 1, 3, ByteOrder::Little), Some(0x67_4523));
    assert_eq!(read(&BYTES, 3, 0, ByteOrder::Big), Some(0));
    assert_eq!(read(&BYTES, 10, 0, ByteOrder::Little), Some(0));
}

#[test]
fn reads_the_largest_values() {
    let ones = [0xffu8; 8];
    assert_eq!(read(&ones, 0, 8, ByteOrder::Big), Some(u64::MAX));
    assert_eq!(read(&ones, 0, 8, ByteOrder::Little), Some(u64::MAX));
    assert_eq!(read(&ones, 6, 2, ByteOrder::Big), Some(0xffff));
    assert_eq!(read(&ones, 4, 4, ByteOrder::Little), Some(0xffff_ffff));
}

#[test]
fn reads_nothing_outside_the_buffer() {
    for order in [ByteOrder::Little, ByteOrder::Big] {
        assert_eq!(read(&BYTES, 9, 2, order), None);
        assert_eq!(read(&BYTES, 3, 8, order), None);
        assert_eq!(read(&BYTES, 10, 1, order), None);
        assert_eq!(read(&BYTES, 11, 0, order), None);
        assert_eq!(read(&BYTES, usize::MAX, 1, order), None);
        assert_eq!(read(&BYTES, usize::MAX, 8, order), None);
        assert_eq!(read(&[], 0, 1, order), None);
        assert_eq!(read(&[], 0, 0, order), Some(0));
    }
}

#[test]
fn reads_nothing_wider_than_eight_bytes() {
    assert_eq!(read(&BYTES, 0, 9, ByteOrder::Big), None);
    assert_eq!(read(&BYTES, 0, 10, ByteOrder::Little), None);
    assert_eq!(read(&BYTES, 0, usize::MAX, ByteOrder::Little), None);
}

#[test]
fn reads_agree_with_std() {
    for at in 0..=6usize {
        let two = [BYTES[at], BYTES[at + 1]];
        let four = [BYTES[at], BYTES[at + 1], BYTES[at + 2], BYTES[at + 3]];
        assert_eq!(read(&BYTES, at, 2, ByteOrder::Little), Some(u16::from_le_bytes(two) as u64));
        assert_eq!(read(&BYTES, at, 2, ByteOrder::Big), Some(u16::from_be_bytes(two) as u64));
        assert_eq!(read(&BYTES, at, 4, ByteOrder::Little), Some(u32::from_le_bytes(four) as u64));
        assert_eq!(read(&BYTES, at, 4, ByteOrder::Big), Some(u32::from_be_bytes(four) as u64));
    }
}

#[test]
fn the_two_orders_mirror_each_other() {
    let mut reversed = BYTES;
    reversed.reverse();
    for width in 0..=8usize {
        assert_eq!(
            read(&BYTES, 0, width, ByteOrder::Little),
            read(&reversed, 10 - width, width, ByteOrder::Big)
        );
    }
}

#[test]
fn byte_order_labels() {
    assert_eq!(ByteOrder::Little.label(), "Little");
    assert_eq!(ByteOrder::Big.label(), "Big");
}
