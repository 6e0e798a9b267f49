//! The dynamic tables: the names in the dynamic string table, and the
//! shared libraries that the object needs.
//!
//! Finding these in a file takes the program headers, the dynamic section
//! and address translation; that work is left to the `goblin` crate. What
//! is done here is what follows: the symbol names are kept as they come,
//! and the library names are gathered into a set.

use vstd::prelude::*;
use vstd::string::StringExecFns;
use crate::error::DecodeError;
use crate::identity::{encoding_of, has_signature, identification, DataEncoding, DATA_INDEX};

verus! {

/// The names of `names` in the order in which each first occurs.
pub open spec fn distinct_names(names: Seq<Seq<char>>) -> Seq<Seq<char>>
    decreases names.len(),
{
    if names.len() == 0 {
        Seq::empty()
    } else {
        let earlier = distinct_names(names.drop_last());
        if earlier.contains(names.last()) {
            earlier
        } else {
            earlier.push(names.last())
        }
    }
}

/// A name is among the distinct names exactly when it is in the list.
pub proof fn lemma_distinct_names_contains(names: Seq<Seq<char>>, name: Seq<char>)
    ensures
        distinct_names(names).contains(name) <==> names.contains(name),
    decreases names.len(),
{
    if names.len() != 0 {
        let front = names.drop_last();
        let earlier = distinct_names(front);
        let all = distinct_names(names);
        lemma_distinct_names_contains(front, name);
        lemma_distinct_names_contains(front, names.last());
        if all.contains(name) {
            let j = choose|j: int| 0 <= j < all.len() && all[j] == name;
            if j < earlier.len() {
                assert(earlier[j] == name);
                assert(earlier.contains(name));
                let i = choose|i: int| 0 <= i < front.len() && front[i] == name;
                assert(names[i] == name);
            } else {
                assert(names[names.len() - 1] == name);
            }
            assert(names.contains(name));
        }
        if names.contains(name) {
            let i = choose|i: int| 0 <= i < names.len() && names[i] == name;
            if i < names.len() - 1 {
                assert(front[i] == name);
                assert(front.contains(name));
            } else {
                assert(name == names.last());
            }
            if earlier.contains(name) {
                let j = choose|j: int| 0 <= j < earlier.len() && earlier[j] == name;
                assert(all[j] == name);
            } else {
                assert(all[earlier.len() as int] == name);
            }
            assert(all.contains(name));
        }
    }
}

/// No name occurs twice among the distinct names, there are no more of
/// them than names in the list, and they are exactly the names of the list.
pub proof fn lemma_distinct_names(names: Seq<Seq<char>>)
    ensures
        distinct_names(names).no_duplicates(),
        distinct_names(names).len() <= names.len(),
        forall|name: Seq<char>|
            #![trigger distinct_names(names).contains(name)]
            #![trigger names.contains(name)]
            distinct_names(names).contains(name) <==> names.contains(name),
    decreases names.len(),
{
    assert forall|name: Seq<char>|
        #![trigger distinct_names(names).contains(name)]
        #![trigger names.contains(name)]
        distinct_names(names).contains(name) <==> names.contains(name) by {
        lemma_distinct_names_contains(names, name);
    }
    if names.len() != 0 {
        let earlier = distinct_names(names.drop_last());
        lemma_distinct_names(names.drop_last());
        if !earlier.contains(names.last()) {
            let all = earlier.push(names.last());
            assert forall|i: int, j: int|
                0 <= i < all.len() && 0 <= j < all.len() && i != j implies all[i] != all[j] by {
                if i == earlier.len() {
                    assert(earlier[j] != names.last());
                } else if j == earlier.len() {
                    assert(earlier[i] != names.last());
                }
            }
        }
    }
}

/// A list without duplicates is its own list of distinct names.
pub proof fn lemma_distinct_names_fixed(names: Seq<Seq<char>>)
    requires
        names.no_duplicates(),
    ensures
        distinct_names(names) == names,
    decreases names.len(),
{
    if names.len() != 0 {
        let front = names.drop_last();
        lemma_distinct_names_fixed(front);
        lemma_distinct_names(front);
        if front.contains(names.last()) {
            let i = choose|i: int| 0 <= i < front.len() && front[i] == names.last();
            assert(names[i] == names[names.len() - 1]);
        }
        assert(front.push(names.last()) =~= names);
    }
}

/// Gathering the distinct names a second time changes nothing.
pub proof fn lemma_distinct_names_idempotent(names: Seq<Seq<char>>)
    ensures
        distinct_names(distinct_names(names)) == distinct_names(names),
{
    lemma_distinct_names(names);
    lemma_distinct_names_fixed(distinct_names(names));
}

/// A set of library names that remembers the order in which they came.
pub struct LibrarySet {
    names: Vec<String>,
}

impl View for LibrarySet {
    type V = Seq<Seq<char>>;

    closed spec fn view(&self) -> Seq<Seq<char>> {
        self.names.deep_view()
    }
}

impl LibrarySet {
    #[verifier::type_invariant]
    spec fn distinct(&self) -> bool {
        self.names.deep_view().no_duplicates()
    }

    /// The empty set.
    pub fn new() -> (set: LibrarySet)
        ensures
            set@ == Seq::<Seq<char>>::empty(),
    {
        let set = LibrarySet { names: Vec::new() };
        assert(set.names.deep_view() =~= Seq::<Seq<char>>::empty());
        set
    }

    /// The number of names in the set.
    pub fn len(&self) -> (n: usize)
        ensures
            n == self@.len(),
            self@.no_duplicates(),
    {
        proof {
            use_type_invariant(self);
        }
        self.names.len()
    }

    /// Whether `name` is in the set.
    pub fn contains(&self, name: &str) -> (found: bool)
        ensures
            found == self@.contains(name@),
    {
        let wanted = String::from_str(name);
        let mut i: usize = 0;
        while i < self.names.len()
            invariant
                i <= self.names.len(),
                wanted@ == name@,
                forall|j: int| 0 <= j < i ==> self.names.deep_view()[j] != name@,
            decreases self.names.len() - i,
        {
            if self.names[i] == wanted {
                assert(self.names.deep_view()[i as int] == name@);
                return true;
            }
            i = i + 1;
        }
        false
    }

    /// Adds `name` unless it is there already, and says whether it was
    /// added. A name that was there keeps its place.
    pub fn insert(&mut self, name: String) -> (added: bool)
        ensures
            added == !old(self)@.contains(name@),
            final(self)@ == if added {
                old(self)@.push(name@)
            } else {
                old(self)@
            },
            final(self)@.no_duplicates(),
    {
        proof {
            use_type_invariant(&*self);
        }
        if self.contains(name.as_str()) {
            false
        } else {
            let ghost before = self.names.deep_view();
            let mut names: Vec<String> = Vec::new();
            core::mem::swap(&mut names, &mut self.names);
            names.push(name);
            proof {
                let after = before.push(name@);
                assert(names.deep_view() =~= after);
                assert forall|i: int, j: int|
                    0 <= i < after.len() && 0 <= j < after.len() && i != j implies after[i]
                    != after[j] by {
                    if i == before.len() {
                        assert(before[j] != name@);
                    } else if j == before.len() {
                        assert(before[i] != name@);
                    }
                }
            }
            self.names = names;
            true
        }
    }

    /// The names of the set, in the order in which they were first added.
    pub fn names(&self) -> (names: &Vec<String>)
        ensures
            names.deep_view() == self@,
            self@.no_duplicates(),
    {
        proof {
            use_type_invariant(self);
        }
        &self.names
    }

    /// Gathers a list of names into a set: every name once, in the order
    /// in which each first occurs.
    pub fn from_names(names: &Vec<String>) -> (set: LibrarySet)
        ensures
            set@ == distinct_names(names.deep_view()),
            set@.no_duplicates(),
    {
        let ghost all = names.deep_view();
        let mut set = LibrarySet::new();
        let mut i: usize = 0;
        while i < names.len()
            invariant
                i <= names.len(),
                all == names.deep_view(),
                set@ == distinct_names(all.subrange(0, i as int)),
            decreases names.len() - i,
        {
            proof {
                let next = all.subrange(0, i + 1);
                assert(next.drop_last() =~= all.subrange(0, i as int));
                assert(next.last() == names[i as int]@);
            }
            set.insert(names[i].clone());
            i = i + 1;
        }
        proof {
            assert(all.subrange(0, names.len() as int) =~= all);
            lemma_distinct_names(all);
        }
        set
    }
}

/// The error type of the `goblin` crate, `goblin::error::Error`. Nothing is
/// known of a value of it but that the reader failed.
#[verifier::external_type_specification]
#[verifier::external_body]
pub struct ExReaderError(goblin::error::Error);

/// The two lists of names that the object reader finds in a file.
pub struct DynamicNames {
    /// The strings of the dynamic string table, in table order.
    pub symbols: Vec<String>,
    /// The names of the needed libraries, in the order of the dynamic
    /// section, a library as often as the section names it.
    pub libraries: Vec<String>,
}

/// What `goblin` finds in a buffer: the strings of the dynamic string
/// table and the names of the needed libraries, or nothing where it
/// rejects the buffer.
pub uninterp spec fn dynamic_names_of(bytes: Seq<u8>) -> Option<(Seq<Seq<char>>, Seq<Seq<char>>)>;

/// Reads the dynamic names of a buffer with `goblin::elf::Elf::parse`.
///
/// The symbols are the parsed file's `dynstrtab`, listed by
/// `Strtab::to_vec`; the libraries are its `libraries`. The contract gives
/// the outcome a name and claims nothing else: that the same bytes always
/// read alike, as a parser without state does.
#[verifier::external_body]
fn read_dynamic_names(bytes: &[u8]) -> (result: Result<DynamicNames, goblin::error::Error>)
    ensures
        match result {
            Ok(names) => dynamic_names_of(bytes@) == Some(
                (names.symbols.deep_view(), names.libraries.deep_view()),
            ),
            Err(_) => dynamic_names_of(bytes@) is None,
        },
{
    let elf = goblin::elf::Elf::parse(bytes)?;
    let symbols = elf.dynstrtab.to_vec()?;
    Ok(
        DynamicNames {
            symbols: symbols.iter().map(|s| s.to_string()).collect(),
            libraries: elf.libraries.iter().map(|s| s.to_string()).collect(),
        },
    )
}

/// The dynamic tables of an object.
pub struct DynamicTables {
    /// The dynamic symbol names: every entry, in table order.
    pub symbols: Vec<String>,
    /// The needed libraries, each once.
    pub libraries: LibrarySet,
}

/// The mathematical value of [`DynamicTables`].
pub struct DynamicTablesView {
    pub symbols: Seq<Seq<char>>,
    pub libraries: Seq<Seq<char>>,
}

impl View for DynamicTables {
    type V = DynamicTablesView;

    open spec fn view(&self) -> DynamicTablesView {
        DynamicTablesView { symbols: self.symbols.deep_view(), libraries: self.libraries@ }
    }
}

/// The tables that two lists of names make: the symbols unchanged, the
/// libraries without their repetitions.
pub open spec fn gathered(symbols: Seq<Seq<char>>, libraries: Seq<Seq<char>>) -> DynamicTablesView {
    DynamicTablesView { symbols, libraries: distinct_names(libraries) }
}

/// Makes the dynamic tables out of the names that were read: the symbol
/// list is kept whole and in order, the libraries are gathered into a set.
pub fn gather(names: DynamicNames) -> (tables: DynamicTables)
    ensures
        tables@ == gathered(names.symbols.deep_view(), names.libraries.deep_view()),
        tables@.libraries.no_duplicates(),
{
    let libraries = LibrarySet::from_names(&names.libraries);
    DynamicTables { symbols: names.symbols, libraries }
}

/// What extracting the dynamic tables of `bytes` yields.
pub open spec fn dynamic_tables_of(bytes: Seq<u8>) -> Result<DynamicTablesView, DecodeError> {
    if !has_signature(bytes) {
        Err(DecodeError::InvalidIdentity)
    } else if bytes.len() < 16 {
        Err(DecodeError::Truncated)
    } else if encoding_of(bytes[DATA_INDEX as int]) == DataEncoding::Unknown {
        Err(DecodeError::EndiannessUnavailable)
    } else {
        match dynamic_names_of(bytes) {
            Some((symbols, libraries)) => Ok(gathered(symbols, libraries)),
            None => Err(DecodeError::Malformed),
        }
    }
}

/// Extracts the dynamic tables of an object file.
///
/// The identification block is checked first, so a buffer without the
/// signature fails with [`DecodeError::InvalidIdentity`], a shorter block
/// with [`DecodeError::Truncated`] and an unknown data encoding with
/// [`DecodeError::EndiannessUnavailable`], as everywhere in this crate.
/// A buffer that passes is handed to the object reader, and fails with
/// [`DecodeError::Malformed`] exactly when the reader rejects it.
pub fn dynamic_tables(bytes: &[u8]) -> (result: Result<DynamicTables, DecodeError>)
    ensures
        match result {
            Ok(tables) => dynamic_tables_of(bytes@) == Ok::<DynamicTablesView, DecodeError>(
                tables@,
            ),
            Err(e) => dynamic_tables_of(bytes@) == Err::<DynamicTablesView, DecodeError>(e),
        },
{
    let ident = match identification(bytes) {
        Ok(ident) => ident,
        Err(e) => {
            return Err(e);
        },
    };
    if DataEncoding::from_byte(ident[DATA_INDEX]) == DataEncoding::Unknown {
        return Err(DecodeError::EndiannessUnavailable);
    }
    match read_dynamic_names(bytes) {
        Ok(names) => Ok(gather(names)),
        Err(_) => Err(DecodeError::Malformed),
    }
}

} // verus!
