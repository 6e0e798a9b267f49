//! Building the small pieces of text that a report is made of: hexadecimal
//! byte pairs, decimal numbers and separated lists.

use vstd::prelude::*;
use vstd::string::StringExecFns;

verus! {

/// The lower-case digit that stands for `d` in bases up to sixteen.
pub open spec fn digit_char(d: int) -> char {
    if 0 <= d < 10 {
        ((48 + d) as u8) as char
    } else {
        ((87 + d) as u8) as char
    }
}

/// The digits are `0` to `9` and then `a` to `f`.
pub proof fn lemma_digit_chars()
    ensures
        digit_char(0) == '0',
        digit_char(9) == '9',
        digit_char(10) == 'a',
        digit_char(15) == 'f',
        forall|d: int| 0 <= d < 10 ==> '0' <= #[trigger] digit_char(d) <= '9',
        forall|d: int| 10 <= d < 16 ==> 'a' <= #[trigger] digit_char(d) <= 'f',
{
}

/// The two lower-case hexadecimal digits of a byte, high nibble first.
pub open spec fn hex_pair_text(byte: u8) -> Seq<char> {
    seq![digit_char(byte as int / 16), digit_char(byte as int % 16)]
}

/// The decimal digits of `n`, most significant first, without padding.
pub open spec fn decimal_text(n: nat) -> Seq<char>
    decreases n,
{
    if n < 10 {
        seq![digit_char(n as int)]
    } else {
        decimal_text(n / 10).push(digit_char((n % 10) as int))
    }
}

/// The parts in order, with `separator` between each two neighbours.
pub open spec fn joined_text(parts: Seq<Seq<char>>, separator: Seq<char>) -> Seq<char>
    decreases parts.len(),
{
    if parts.len() == 0 {
        Seq::empty()
    } else if parts.len() == 1 {
        parts[0]
    } else {
        joined_text(parts.drop_last(), separator) + separator + parts.last()
    }
}

/// The one-character text of a digit below sixteen.
fn digit_str(d: u8) -> (text: &'static str)
    requires
        d < 16,
    ensures
        text@ == seq![digit_char(d as int)],
{
    proof {
        reveal_strlit("0");
        reveal_strlit("1");
        reveal_strlit("2");
        reveal_strlit("3");
        reveal_strlit("4");
        reveal_strlit("5");
        reveal_strlit("6");
        reveal_strlit("7");
        reveal_strlit("8");
        reveal_strlit("9");
        reveal_strlit("a");
        reveal_strlit("b");
        reveal_strlit("c");
        reveal_strlit("d");
        reveal_strlit("e");
        reveal_strlit("f");
    }
    let text = if d == 0 {
        "0"
    } else if d == 1 {
        "1"
    } else if d == 2 {
        "2"
    } else if d == 3 {
        "3"
    } else if d == 4 {
        "4"
    } else if d == 5 {
        "5"
    } else if d == 6 {
        "6"
    } else if d == 7 {
        "7"
    } else if d == 8 {
        "8"
    } else if d == 9 {
        "9"
    } else if d == 10 {
        "a"
    } else if d == 11 {
        "b"
    } else if d == 12 {
        "c"
    } else if d == 13 {
        "d"
    } else if d == 14 {
        "e"
    } else {
        "f"
    };
    assert(text@ =~= seq![digit_char(d as int)]);
    text
}

/// Formats a byte as two lower-case hexadecimal digits.
pub fn hex_pair(byte: u8) -> (text: String)
    ensures
        text@ == hex_pair_text(byte),
{
    let mut text = String::from_str(digit_str(byte / 16));
    text.append(digit_str(byte % 16));
    assert(text@ =~= hex_pair_text(byte));
    text
}

/// Formats a number in decimal.
pub fn decimal(n: u64) -> (text: String)
    ensures
        text@ == decimal_text(n as nat),
    decreases n,
{
    if n < 10 {
        String::from_str(digit_str(n as u8))
    } else {
        let mut text = decimal(n / 10);
        text.append(digit_str((n % 10) as u8));
        assert(text@ =~= decimal_text(n as nat));
        text
    }
}

/// Concatenates `parts`, keeping their order, with `separator` between them.
pub fn join(parts: &Vec<String>, separator: &str) -> (text: String)
    ensures
        text@ == joined_text(parts.deep_view(), separator@),
{
    let ghost all = parts.deep_view();
    let mut text = String::new();
    let mut i: usize = 0;
    while i < parts.len()
        invariant
            i <= parts.len(),
            all == parts.deep_view(),
            text@ == joined_text(all.subrange(0, i as int), separator@),
        decreases parts.len() - i,
    {
        proof {
            let next = all.subrange(0, i + 1);
            assert(next.drop_last() =~= all.subrange(0, i as int));
            assert(next.last() == parts[i as int]@);
        }
        if i > 0 {
            text.append(separator);
        }
        text.append(parts[i].as_str());
        i = i + 1;
    }
    proof {
        assert(all.subrange(0, parts.len() as int) =~= all);
    }
    text
}

} // verus!
