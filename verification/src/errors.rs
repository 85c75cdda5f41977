//! The bridge's error type.
//!
//! Every failure of an invocation is one of these kinds; each carries
//! the structured facts a caller needs, and [`Error::message`] renders
//! the single descriptive string that is surfaced to the front-end.

use vstd::prelude::*;
use vstd::string::StringExecFns;
use crate::text::dec_of;
use crate::text::push_u64;

verus! {

/// What a malformed table line was rejected for.
#[derive(Debug)]
pub enum TableParseKind {
    /// A non-blank line held fewer whitespace-separated tokens than
    /// the table's arity.
    TooFewColumns,
    /// A token within the first `arity` columns was not a numeric
    /// literal.
    InvalidNumber { token: String },
}

/// Which of the two summary fields a summary-file failure concerns.
#[derive(Debug)]
pub enum SummaryField {
    XMin,
    FMin,
}

/// The filesystem operation an I/O failure occurred in.
#[derive(Debug)]
pub enum IoOp {
    /// Creating the per-run data directory.
    CreateDataDir,
    /// Writing the configuration file.
    WriteConfig,
    /// Reading a solver output file at the carried path.
    ReadFile { path: String },
}

/// An invocation failure.  The first failure aborts the invocation;
/// no partial results are ever returned beside an error.
#[derive(Debug)]
pub enum Error {
    /// The application data directory could not be resolved.
    PathResolution { detail: String },
    /// The solver binary was found in none of the searched locations;
    /// `exe_name` is the platform-specific executable file name.
    NotFound { exe_name: String },
    /// A directory/file creation, write or read failed.
    Io { op: IoOp, detail: String },
    /// The solver process could not be spawned.
    Spawn { detail: String },
    /// The solver exited with a nonzero (or absent) status; carries
    /// the exit code and the full captured output text.
    Process { code: Option<i32>, stdout: String, stderr: String },
    /// A numeric output file held a malformed line; `line` is 1-based.
    TableParse { path: String, line: u64, kind: TableParseKind },
    /// The summary file was missing a field (`token` absent) or held
    /// a non-numeric one (`token` present).
    SummaryParse { path: String, field: SummaryField, token: Option<String> },
    /// The task selector matched no known alias.
    InvalidArgument,
}

/// The decimal rendering of a signed value: a minus sign before the
/// digits when the value is negative.
pub open spec fn int_seq(n: int) -> Seq<char> {
    if n < 0 {
        seq!['-'] + dec_of(-n)
    } else {
        dec_of(n)
    }
}

/// The rendering of an optional exit code: `Some(n)` or `None`.
pub open spec fn code_seq(c: Option<i32>) -> Seq<char> {
    match c {
        Some(n) => "Some("@ + int_seq(n as int) + ")"@,
        None => "None"@,
    }
}

/// The descriptive message for each error kind.
pub open spec fn spec_message(e: Error) -> Seq<char> {
    match e {
        Error::PathResolution { detail } => "Failed to resolve app data dir: "@ + detail@,
        Error::NotFound { exe_name } => "matan_app not found. Set MATAN_APP_PATH or place it in dist/bin or resources/bin/"@
            + exe_name@,
        Error::Io { op, detail } => match op {
            IoOp::CreateDataDir => "Failed to create data directory: "@ + detail@,
            IoOp::WriteConfig => "Failed to write config: "@ + detail@,
            IoOp::ReadFile { path } => "Failed to read "@ + path@ + ": "@ + detail@,
        },
        Error::Spawn { detail } => "Failed to run matan_app: "@ + detail@,
        Error::Process { code, stdout, stderr } => "matan_app failed (code "@ + code_seq(code)
            + "). stdout: "@ + stdout@ + " stderr: "@ + stderr@,
        Error::TableParse { path, line, kind } => match kind {
            TableParseKind::TooFewColumns => "Too few columns in "@ + path@ + " line "@ + dec_of(
                line as int,
            ),
            TableParseKind::InvalidNumber { token } => "Invalid number in "@ + path@ + " line "@
                + dec_of(line as int) + ": "@ + token@,
        },
        Error::SummaryParse { path, field, token } => {
            let name = match field {
                SummaryField::XMin => "x_min"@,
                SummaryField::FMin => "f_min"@,
            };
            match token {
                None => "Missing "@ + name + " in "@ + path@,
                Some(t) => "Invalid "@ + name + " in "@ + path@ + ": "@ + t@,
            }
        },
        Error::InvalidArgument => "Unknown task value"@,
    }
}

/// Appends the decimal rendering of a signed value to `out`.
fn push_i32(out: &mut String, n: i32)
    ensures
        final(out)@ == old(out)@ + int_seq(n as int),
{
    if n < 0 {
        out.append("-");
        let m: u64 = (-(n as i64)) as u64;
        push_u64(out, m);
        proof {
            reveal_strlit("-");
            assert(m as int == -(n as int));
            assert("-"@ =~= seq!['-']);
            assert(final(out)@ =~= old(out)@ + int_seq(n as int));
        }
    } else {
        push_u64(out, n as u64);
    }
}

impl Error {
    /// The single descriptive message surfaced to the caller for this
    /// failure.
    pub fn message(&self) -> (r: String)
        ensures
            r@ == spec_message(*self),
    {
        let mut s = String::new();
        match self {
            Error::PathResolution { detail } => {
                s.append("Failed to resolve app data dir: ");
                s.append(detail.as_str());
            },
            Error::NotFound { exe_name } => {
                s.append(
                    "matan_app not found. Set MATAN_APP_PATH or place it in dist/bin or resources/bin/",
                );
                s.append(exe_name.as_str());
            },
            Error::Io { op, detail } => {
                match op {
                    IoOp::CreateDataDir => {
                        s.append("Failed to create data directory: ");
                    },
                    IoOp::WriteConfig => {
                        s.append("Failed to write config: ");
                    },
                    IoOp::ReadFile { path } => {
                        s.append("Failed to read ");
                        s.append(path.as_str());
                        s.append(": ");
                    },
                }
                s.append(detail.as_str());
            },
            Error::Spawn { detail } => {
                s.append("Failed to run matan_app: ");
                s.append(detail.as_str());
            },
            Error::Process { code, stdout, stderr } => {
                s.append("matan_app failed (code ");
                match code {
                    Some(n) => {
                        s.append("Some(");
                        push_i32(&mut s, *n);
                        s.append(")");
                    },
                    None => {
                        s.append("None");
                    },
                }
                s.append("). stdout: ");
                s.append(stdout.as_str());
                s.append(" stderr: ");
                s.append(stderr.as_str());
            },
            Error::TableParse { path, line, kind } => {
                match kind {
                    TableParseKind::TooFewColumns => {
                        s.append("Too few columns in ");
                        s.append(path.as_str());
                        s.append(" line ");
                        push_u64(&mut s, *line);
                    },
                    TableParseKind::InvalidNumber { token } => {
                        s.append("Invalid number in ");
                        s.append(path.as_str());
                        s.append(" line ");
                        push_u64(&mut s, *line);
                        s.append(": ");
                        s.append(token.as_str());
                    },
                }
            },
            Error::SummaryParse { path, field, token } => {
                match token {
                    None => {
                        s.append("Missing ");
                    },
                    Some(_) => {
                        s.append("Invalid ");
                    },
                }
                match field {
                    SummaryField::XMin => {
                        s.append("x_min");
                    },
                    SummaryField::FMin => {
                        s.append("f_min");
                    },
                }
                s.append(" in ");
                s.append(path.as_str());
                match token {
                    None => {},
                    Some(t) => {
                        s.append(": ");
                        s.append(t.as_str());
                    },
                }
            },
            Error::InvalidArgument => {
                s.append("Unknown task value");
            },
        }
        proof {
            assert(s@ =~= spec_message(*self));
        }
        s
    }
}

} // verus!
