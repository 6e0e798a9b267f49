//! String tables: blobs of NUL-terminated names that other structures refer
//! to by byte offset.

use vstd::prelude::*;
use vstd::slice::slice_subrange;
use vstd::string::StringExecFns;
use vstd::utf8::{decode_utf8, valid_utf8};

verus! {

/// The name that stands in for one that cannot be resolved.
pub open spec fn sentinel_name() -> Seq<char> {
    "Not defined"@
}

/// The index of the first NUL byte of `table` at or after `from`, or the
/// length of the table where there is none.
pub open spec fn run_end(table: Seq<u8>, from: int) -> int
    decreases table.len() - from,
{
    if from < 0 || from >= table.len() {
        table.len() as int
    } else if table[from] == 0 {
        from
    } else {
        run_end(table, from + 1)
    }
}

/// The bytes of the name at `offset`: the run from `offset` up to the next
/// NUL byte. There is none where `offset` lies outside the table, or where
/// the table ends before a NUL byte closes the run.
pub open spec fn name_bytes(table: Seq<u8>, offset: int) -> Option<Seq<u8>> {
    if 0 <= offset < table.len() && run_end(table, offset) < table.len() {
        Some(table.subrange(offset, run_end(table, offset)))
    } else {
        None
    }
}

/// The name that `offset` resolves to in `table`: the text of the
/// terminated run at `offset` where there is one and it is UTF-8, and the
/// sentinel otherwise.
pub open spec fn resolved_name(table: Seq<u8>, offset: int) -> Seq<char> {
    match name_bytes(table, offset) {
        Some(run) => if valid_utf8(run) {
            decode_utf8(run)
        } else {
            sentinel_name()
        },
        None => sentinel_name(),
    }
}

/// What `run_end` finds: no byte of the run is NUL, and the byte at the
/// end, if the table reaches that far, is.
pub proof fn lemma_run_end(table: Seq<u8>, from: int)
    requires
        0 <= from <= table.len(),
    ensures
        from <= run_end(table, from) <= table.len(),
        forall|k: int| from <= k < run_end(table, from) ==> table[k] != 0,
        run_end(table, from) < table.len() ==> table[run_end(table, from)] == 0,
    decreases table.len() - from,
{
    if from < table.len() && table[from] != 0 {
        lemma_run_end(table, from + 1);
    }
}

/// An offset inside a name resolves to the tail of that name: the two runs
/// end at the same NUL byte.
pub proof fn lemma_tail_of_name(table: Seq<u8>, from: int, at: int)
    requires
        0 <= from <= at <= run_end(table, from),
        at < table.len(),
    ensures
        run_end(table, at) == run_end(table, from),
        name_bytes(table, from) matches Some(whole) ==> name_bytes(table, at) == Some(
            whole.subrange(at - from, whole.len() as int),
        ),
    decreases at - from,
{
    lemma_run_end(table, from);
    if from < at {
        lemma_tail_of_name(table, from + 1, at);
    }
    if name_bytes(table, from) is Some {
        let whole = table.subrange(from, run_end(table, from));
        assert(table.subrange(at, run_end(table, at)) =~= whole.subrange(
            at - from,
            whole.len() as int,
        ));
    }
}

/// An offset outside the table resolves to the sentinel.
pub proof fn lemma_outside_is_sentinel(table: Seq<u8>, offset: int)
    requires
        offset < 0 || offset >= table.len(),
    ensures
        resolved_name(table, offset) == sentinel_name(),
{
}

/// Reads bytes as UTF-8 text, by `core::str::from_utf8`: there is a text
/// exactly when the bytes are a valid UTF-8 encoding, and it is the text
/// that they encode.
#[verifier::external_body]
fn utf8_text(bytes: &[u8]) -> (text: Option<&str>)
    ensures
        text is Some <==> valid_utf8(bytes@),
        text matches Some(s) ==> s@ == decode_utf8(bytes@),
{
    core::str::from_utf8(bytes).ok()
}

/// Resolves the name at `offset` in the bytes of a string table.
///
/// This never fails: where `offset` lies outside the table, where no NUL
/// byte closes the run that starts there, or where the run is not UTF-8,
/// the name is the sentinel `"Not defined"`.
pub fn resolve(table: &[u8], offset: usize) -> (name: String)
    ensures
        name@ == resolved_name(table@, offset as int),
{
    let len: usize = table.len();
    if offset >= len {
        return String::from_str("Not defined");
    }
    let mut end: usize = offset;
    while end < len && table[end] != 0
        invariant
            offset <= end <= len == table@.len(),
            forall|k: int| offset <= k < end ==> table@[k] != 0,
            run_end(table@, end as int) == run_end(table@, offset as int),
        decreases len - end,
    {
        end = end + 1;
    }
    if end >= len {
        return String::from_str("Not defined");
    }
    match utf8_text(slice_subrange(table, offset, end)) {
        Some(name) => String::from_str(name),
        None => String::from_str("Not defined"),
    }
}

/// A string table: a blob of bytes in which names are looked up by offset.
#[derive(Clone, Copy, Debug)]
pub struct StringTable<'a> {
    bytes: &'a [u8],
}

impl<'a> View for StringTable<'a> {
    type V = Seq<u8>;

    closed spec fn view(&self) -> Seq<u8> {
        self.bytes@
    }
}

impl<'a> StringTable<'a> {
    /// The string table that `bytes` holds.
    pub fn new(bytes: &'a [u8]) -> (table: StringTable<'a>)
        ensures
            table@ == bytes@,
    {
        StringTable { bytes }
    }

    /// The bytes of the table.
    pub fn as_bytes(&self) -> (bytes: &'a [u8])
        ensures
            bytes@ == self@,
    {
        self.bytes
    }

    /// The number of bytes of the table.
    pub fn len(&self) -> (len: usize)
        ensures
            len == self@.len(),
    {
        self.bytes.len()
    }

    /// Resolves the name at `offset`, as [`resolve`] does on the bytes.
    pub fn resolve(&self, offset: usize) -> (name: String)
        ensures
            name@ == resolved_name(self@, offset as int),
    {
        resolve(self.bytes, offset)
    }
}

} // verus!
