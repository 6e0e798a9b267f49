//! Reading unsigned integers out of a byte buffer in either byte order.

use vstd::prelude::*;

verus! {

/// The order in which the bytes of a multi-byte field are stored.
#[derive(Clone, Copy, Debug, PartialEq, Eq, Structural)]
pub enum ByteOrder {
    /// Least significant byte first.
    Little,
    /// Most significant byte first.
    Big,
}

impl ByteOrder {
    /// The name of this byte order.
    pub open spec fn label_text(self) -> Seq<char> {
        match self {
            ByteOrder::Little => "Little"@,
            ByteOrder::Big => "Big"@,
        }
    }

    /// The name of this byte order.
    pub fn label(&self) -> (text: &'static str)
        ensures
            text@ == self.label_text(),
    {
        match self {
            ByteOrder::Little => "Little",
            ByteOrder::Big => "Big",
        }
    }
}

/// The number that `s` denotes when its first byte is the least significant.
pub open spec fn little_endian_value(s: Seq<u8>) -> nat
    decreases s.len(),
{
    if s.len() == 0 {
        0
    } else {
        s[0] as nat + 256 * little_endian_value(s.drop_first())
    }
}

/// The number that `s` denotes when its first byte is the most significant.
pub open spec fn big_endian_value(s: Seq<u8>) -> nat
    decreases s.len(),
{
    if s.len() == 0 {
        0
    } else {
        256 * big_endian_value(s.drop_last()) + s.last() as nat
    }
}

/// The number that `s` denotes in the given byte order.
pub open spec fn field_value(s: Seq<u8>, order: ByteOrder) -> nat {
    match order {
        ByteOrder::Little => little_endian_value(s),
        ByteOrder::Big => big_endian_value(s),
    }
}

/// The number stored in the `width` bytes of `bytes` that start at `offset`.
pub open spec fn field_at(bytes: Seq<u8>, offset: int, width: int, order: ByteOrder) -> nat {
    field_value(bytes.subrange(offset, offset + width), order)
}

/// `256` to the power `n`: one more than the largest value of `n` bytes.
pub open spec fn radix_power(n: nat) -> nat
    decreases n,
{
    if n == 0 {
        1
    } else {
        256 * radix_power((n - 1) as nat)
    }
}

/// A field of `n` bytes is below `256^n`, whatever the byte order.
pub proof fn lemma_field_value_bound(s: Seq<u8>, order: ByteOrder)
    ensures
        field_value(s, order) < radix_power(s.len()),
    decreases s.len(),
{
    if s.len() != 0 {
        match order {
            ByteOrder::Little => {
                lemma_field_value_bound(s.drop_first(), order);
            },
            ByteOrder::Big => {
                lemma_field_value_bound(s.drop_last(), order);
            },
        }
    }
}

/// The values of `256^n` for the field widths of the format.
pub proof fn lemma_radix_power_values()
    ensures
        radix_power(0) == 1,
        radix_power(1) == 0x100,
        radix_power(2) == 0x1_0000,
        radix_power(4) == 0x1_0000_0000,
        radix_power(8) == 0x1_0000_0000_0000_0000,
{
    reveal_with_fuel(radix_power, 9);
}

/// `256^n` grows with `n`.
pub proof fn lemma_radix_power_monotonic(a: nat, b: nat)
    requires
        a <= b,
    ensures
        radix_power(a) <= radix_power(b),
        radix_power(a) >= 1,
    decreases b,
{
    if a < b {
        lemma_radix_power_monotonic(a, (b - 1) as nat);
    } else if a > 0 {
        lemma_radix_power_monotonic((a - 1) as nat, (a - 1) as nat);
    }
}

/// The two byte orders mirror each other: a field read least significant
/// byte first is the reversed field read most significant byte first.
pub proof fn lemma_byte_orders_mirror(s: Seq<u8>)
    ensures
        little_endian_value(s) == big_endian_value(s.reverse()),
    decreases s.len(),
{
    if s.len() != 0 {
        lemma_byte_orders_mirror(s.drop_first());
        assert(s.reverse().drop_last() =~= s.drop_first().reverse());
        assert(s.reverse().last() == s[0]);
    }
}

/// A field of a single byte is that byte, in either order.
pub proof fn lemma_single_byte_field(s: Seq<u8>, order: ByteOrder)
    requires
        s.len() == 1,
    ensures
        field_value(s, order) == s[0],
{
    reveal_with_fuel(little_endian_value, 2);
    reveal_with_fuel(big_endian_value, 2);
}

/// What reading a field of `width` bytes at `offset` yields: the number
/// stored there, or nothing where the field is wider than eight bytes or
/// reaches past the end of the buffer.
pub open spec fn read_of(bytes: Seq<u8>, offset: int, width: int, order: ByteOrder) -> Option<
    nat,
> {
    if width <= 8 && offset + width <= bytes.len() {
        Some(field_at(bytes, offset, width, order))
    } else {
        None
    }
}

/// Reads the unsigned field of `width` bytes at `offset`, if the buffer
/// holds one there and it fits in 64 bits.
pub fn read(bytes: &[u8], offset: usize, width: usize, order: ByteOrder) -> (value: Option<u64>)
    ensures
        match value {
            Some(v) => read_of(bytes@, offset as int, width as int, order) == Some(v as nat),
            None => read_of(bytes@, offset as int, width as int, order) is None,
        },
{
    let len = bytes.len();
    if width <= 8 && offset <= len && width <= len - offset {
        Some(read_field(bytes, offset, width, order))
    } else {
        None
    }
}

/// Reads the `width`-byte unsigned field at `offset`.
pub(crate) fn read_field(bytes: &[u8], offset: usize, width: usize, order: ByteOrder) -> (value:
    u64)
    requires
        width <= 8,
        offset + width <= bytes@.len(),
    ensures
        value == field_at(bytes@, offset as int, width as int, order),
        value < radix_power(width as nat),
{
    let ghost field = bytes@.subrange(offset as int, offset + width);
    let len: usize = bytes.len();
    let mut acc: u64 = 0;
    let mut i: usize = 0;
    proof {
        lemma_radix_power_values();
    }
    match order {
        ByteOrder::Big => {
            while i < width
                invariant
                    i <= width <= 8,
                    offset + width <= len == bytes@.len(),
                    field == bytes@.subrange(offset as int, offset + width),
                    acc == big_endian_value(field.subrange(0, i as int)),
                    acc < radix_power(i as nat),
                decreases width - i,
            {
                let byte = bytes[offset + i];
                proof {
                    let next = field.subrange(0, i + 1);
                    assert(next.drop_last() =~= field.subrange(0, i as int));
                    assert(next.last() == byte);
                    lemma_radix_power_values();
                    lemma_radix_power_monotonic((i + 1) as nat, 8);
                    assert(radix_power((i + 1) as nat) == 256 * radix_power(i as nat));
                }
                acc = acc * 256 + byte as u64;
                i = i + 1;
            }
            proof {
                assert(field.subrange(0, width as int) =~= field);
            }
        },
        ByteOrder::Little => {
            while i < width
                invariant
                    i <= width <= 8,
                    offset + width <= len == bytes@.len(),
                    field == bytes@.subrange(offset as int, offset + width),
                    acc == little_endian_value(field.subrange(width - i, width as int)),
                    acc < radix_power(i as nat),
                decreases width - i,
            {
                let byte = bytes[offset + (width - 1 - i)];
                proof {
                    let next = field.subrange(width - 1 - i, width as int);
                    assert(next.drop_first() =~= field.subrange(width - i, width as int));
                    assert(next[0] == byte);
                    lemma_radix_power_values();
                    lemma_radix_power_monotonic((i + 1) as nat, 8);
                    assert(radix_power((i + 1) as nat) == 256 * radix_power(i as nat));
                }
                acc = acc * 256 + byte as u64;
                i = i + 1;
            }
            proof {
                assert(field.subrange(0, width as int) =~= field);
            }
        },
    }
    acc
}

/// Reads the two-byte unsigned field at `offset`.
pub(crate) fn read_u16(bytes: &[u8], offset: usize, order: ByteOrder) -> (value: u16)
    requires
        offset + 2 <= bytes@.len(),
    ensures
        value == field_at(bytes@, offset as int, 2, order),
{
    proof {
        lemma_radix_power_values();
    }
    read_field(bytes, offset, 2, order) as u16
}

/// Reads the four-byte unsigned field at `offset`.
pub(crate) fn read_u32(bytes: &[u8], offset: usize, order: ByteOrder) -> (value: u32)
    requires
        offset + 4 <= bytes@.len(),
    ensures
        value == field_at(bytes@, offset as int, 4, order),
{
    proof {
        lemma_radix_power_values();
    }
    read_field(bytes, offset, 4, order) as u32
}

} // verus!
