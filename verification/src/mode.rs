//! Which reports a run produces, as chosen by the optional mode selector.

use vstd::prelude::*;
use crate::error::DecodeError;

verus! {

/// The exit code of a run that succeeded.
pub const EXIT_SUCCESS: i32 = 0;

/// The exit code of a run that failed, whatever the failure.
pub const EXIT_FAILURE: i32 = -1;

/// What a run was asked for.
#[derive(Clone, Copy, Debug, PartialEq, Eq, Structural)]
pub enum Mode {
    /// No selector was given: every report, then the summary.
    All,
    /// The section header table.
    Sections,
    /// The dynamic symbols.
    DynamicSymbols,
    /// The dynamic libraries.
    DynamicLibraries,
}

/// One part of the output.
#[derive(Clone, Copy, Debug, PartialEq, Eq, Structural)]
pub enum Report {
    /// The section header table.
    Sections,
    /// The list of dynamic symbol names.
    DynamicSymbols,
    /// The list of needed libraries.
    DynamicLibraries,
    /// The summary of the identification block and the file header.
    Summary,
}

/// A selector was given and is none of the known ones.
#[derive(Clone, Copy, Debug, PartialEq, Eq, Structural)]
pub struct UnknownSelector;

/// The mode that a selector stands for. No selector stands for
/// [`Mode::All`]. A selector that is given is the name of a mode or the
/// command-line flag for it, and nothing is put in the place of one that is
/// neither.
pub open spec fn mode_of(selector: Option<Seq<char>>) -> Result<Mode, UnknownSelector> {
    match selector {
        None => Ok(Mode::All),
        Some(text) => if text == "sections"@ || text == "--sections"@ {
            Ok(Mode::Sections)
        } else if text == "dynamic-symbols"@ || text == "--dyn-syms"@ {
            Ok(Mode::DynamicSymbols)
        } else if text == "dynamic-libraries"@ || text == "--dyn-libs"@ {
            Ok(Mode::DynamicLibraries)
        } else {
            Err(UnknownSelector)
        },
    }
}

/// The reports of a mode, in the order in which they are produced.
pub open spec fn reports_of(mode: Mode) -> Seq<Report> {
    match mode {
        Mode::All => seq![
            Report::Sections,
            Report::DynamicSymbols,
            Report::DynamicLibraries,
            Report::Summary,
        ],
        Mode::Sections => seq![Report::Sections],
        Mode::DynamicSymbols => seq![Report::DynamicSymbols, Report::DynamicLibraries],
        Mode::DynamicLibraries => seq![Report::DynamicLibraries],
    }
}

/// Whether two texts are the same.
fn same_text(a: &str, b: &str) -> (same: bool)
    ensures
        same == (a@ == b@),
{
    let a = a.to_owned();
    let b = b.to_owned();
    a == b
}

/// Whether a report is made from the dynamic tables.
pub open spec fn is_dynamic(report: Report) -> bool {
    report == Report::DynamicSymbols || report == Report::DynamicLibraries
}

/// Why a run ended without its reports.
#[derive(Clone, Copy, Debug, PartialEq, Eq, Structural)]
pub enum Failure {
    /// The selector is none of the known ones.
    UnknownSelector,
    /// The input could not be read.
    Unreadable,
    /// A report was selected for an input that is no object of this format.
    Unsupported,
    /// The input could not be decoded.
    Decode(DecodeError),
}

/// The exit code of a run: zero for success and for nothing else.
pub open spec fn exit_code_of(outcome: Result<(), Failure>) -> i32 {
    match outcome {
        Ok(_) => EXIT_SUCCESS,
        Err(_) => EXIT_FAILURE,
    }
}

/// The exit code that a run ends with.
pub fn exit_code(outcome: &Result<(), Failure>) -> (code: i32)
    ensures
        code == exit_code_of(*outcome),
        code == 0 <==> outcome.is_ok(),
{
    match outcome {
        Ok(_) => EXIT_SUCCESS,
        Err(_) => EXIT_FAILURE,
    }
}

/// Every mode begins with a report, only a run without a selector ends
/// with the summary, and no report is produced twice.
pub proof fn lemma_reports(mode: Mode)
    ensures
        reports_of(mode).len() >= 1,
        reports_of(mode).no_duplicates(),
        reports_of(mode).contains(Report::Summary) <==> mode == Mode::All,
        mode == Mode::All ==> reports_of(mode).last() == Report::Summary,
{
    let reports = reports_of(mode);
    if mode == Mode::All {
        assert(reports[3] == Report::Summary);
    }
}

impl Mode {
    /// Reads the optional mode selector.
    ///
    /// An absent selector selects [`Mode::All`]. A selector that is present
    /// selects its mode, and is an error where it has none.
    pub fn from_selector(selector: Option<&str>) -> (result: Result<Mode, UnknownSelector>)
        ensures
            result == mode_of(
                match selector {
                    Some(text) => Some(text@),
                    None => None,
                },
            ),
    {
        match selector {
            None => Ok(Mode::All),
            Some(text) => {
                if same_text(text, "sections") || same_text(text, "--sections") {
                    Ok(Mode::Sections)
                } else if same_text(text, "dynamic-symbols") || same_text(text, "--dyn-syms") {
                    Ok(Mode::DynamicSymbols)
                } else if same_text(text, "dynamic-libraries") || same_text(text, "--dyn-libs") {
                    Ok(Mode::DynamicLibraries)
                } else {
                    Err(UnknownSelector)
                }
            },
        }
    }

    /// Whether this mode has a report that is made from the dynamic
    /// tables. Only the section report can do without them.
    pub fn reads_dynamic_tables(&self) -> (needed: bool)
        ensures
            needed == exists|i: int|
                0 <= i < reports_of(*self).len() && is_dynamic(#[trigger] reports_of(*self)[i]),
    {
        match self {
            Mode::Sections => false,
            Mode::All => {
                assert(is_dynamic(reports_of(*self)[1]));
                true
            },
            Mode::DynamicSymbols => {
                assert(is_dynamic(reports_of(*self)[0]));
                true
            },
            Mode::DynamicLibraries => {
                assert(is_dynamic(reports_of(*self)[0]));
                true
            },
        }
    }

    /// The reports of this mode, in the order in which they are produced.
    ///
    /// The symbol report is always followed by the library report, and
    /// only a run without a selector ends with the summary.
    pub fn reports(&self) -> (reports: Vec<Report>)
        ensures
            reports@ == reports_of(*self),
    {
        let mut reports: Vec<Report> = Vec::new();
        match self {
            Mode::All => {
                reports.push(Report::Sections);
                reports.push(Report::DynamicSymbols);
                reports.push(Report::DynamicLibraries);
                reports.push(Report::Summary);
            },
            Mode::Sections => {
                reports.push(Report::Sections);
            },
            Mode::DynamicSymbols => {
                reports.push(Report::DynamicSymbols);
                reports.push(Report::DynamicLibraries);
            },
            Mode::DynamicLibraries => {
                reports.push(Report::DynamicLibraries);
            },
        }
        assert(reports@ =~= reports_of(*self));
        reports
    }
}

} // verus!
