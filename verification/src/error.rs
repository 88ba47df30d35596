//! Errors of the search engine, and a way to report an error as it passes.

use std::io::Write;
use vstd::prelude::*;

verus! {

/// An error of the search engine. Errors that come from a library are kept
/// as the text that the library gives for them.
pub enum LemmySearchError {
    Generic(String),
    Unknown(String),
    IO(String),
    Database(String),
    DatabaseConnection(String),
    Network(String),
    JoinError(String),
    DatabaseInteractionError(String),
    DatabasePoolError(String),
}

/// A result whose error is a `LemmySearchError`.
pub type Result<T> = std::result::Result<T, LemmySearchError>;

impl LemmySearchError {
    /// The text that describes the error: a generic error is quoted after
    /// `Error`, an unknown one after `Unknown Error`, and the others are
    /// described as their library describes them.
    pub open spec fn describe(&self) -> Seq<char> {
        match self {
            LemmySearchError::Generic(s) => "Error '"@ + s@ + "'"@,
            LemmySearchError::Unknown(s) => "Unknown Error '"@ + s@ + "'"@,
            LemmySearchError::IO(s) => s@,
            LemmySearchError::Database(s) => s@,
            LemmySearchError::DatabaseConnection(s) => s@,
            LemmySearchError::Network(s) => s@,
            LemmySearchError::JoinError(s) => s@,
            LemmySearchError::DatabaseInteractionError(s) => s@,
            LemmySearchError::DatabasePoolError(s) => s@,
        }
    }

    /// The text that describes the error.
    pub fn message(&self) -> (r: String)
        ensures
            r@ == self.describe(),
    {
        match self {
            LemmySearchError::Generic(s) => {
                let mut m = String::from_str("Error '");
                m.append(s.as_str());
                m.append("'");
                m
            },
            LemmySearchError::Unknown(s) => {
                let mut m = String::from_str("Unknown Error '");
                m.append(s.as_str());
                m.append("'");
                m
            },
            LemmySearchError::IO(s) => s.clone(),
            LemmySearchError::Database(s) => s.clone(),
            LemmySearchError::DatabaseConnection(s) => s.clone(),
            LemmySearchError::Network(s) => s.clone(),
            LemmySearchError::JoinError(s) => s.clone(),
            LemmySearchError::DatabaseInteractionError(s) => s.clone(),
            LemmySearchError::DatabasePoolError(s) => s.clone(),
        }
    }
}

/// The lines that reporting a failure prints: the message, then, when
/// `log` is set, the error's description.
pub open spec fn report_lines(message: Seq<char>, error: Seq<char>, log: bool) -> Seq<Seq<char>> {
    if log {
        seq![message, error]
    } else {
        seq![message]
    }
}

/// The lines to print for a failure.
pub fn failure_report(message: &str, err: &LemmySearchError, log: bool) -> (r: Vec<String>)
    ensures
        r@.map_values(|s: String| s@) == report_lines(message@, err.describe(), log),
{
    let mut r: Vec<String> = Vec::new();
    r.push(String::from_str(message));
    if log {
        r.push(err.message());
    }
    assert(r@.map_values(|s: String| s@) =~= report_lines(message@, err.describe(), log));
    r
}

/// The standard output stream of the process, carried through unread.
#[verifier::external_type_specification]
#[verifier::external_body]
pub struct ExStdout(std::io::Stdout);

/// Calls `std::io::stdout` to get a handle on standard output. Nothing is
/// stated of the handle.
#[verifier::external_body]
fn standard_output() -> std::io::Stdout {
    std::io::stdout()
}

/// Writes `line` and a line break to `out` through `Write::write_fmt` (the
/// `writeln!` macro). Nothing is stated; a failure to write is ignored.
#[verifier::external_body]
fn write_line(out: &mut std::io::Stdout, line: &str) {
    let _ = writeln!(out, "{}", line);
}

/// Reporting a failure as it passes.
pub trait LogError<T>: Sized {
    /// The result unchanged; on a failure, `message` is printed, followed by
    /// the error when `log` is set.
    fn log_error(self, message: &str, log: bool) -> Result<T>;
}

impl<T> LogError<T> for Result<T> {
    fn log_error(self, message: &str, log: bool) -> (r: Result<T>)
        ensures
            r == self,
    {
        match self {
            Ok(value) => Ok(value),
            Err(err) => {
                let lines = failure_report(message, &err, log);
                let mut out = standard_output();
                let n = lines.len();
                let mut i: usize = 0;
                while i < n
                    invariant
                        n == lines@.len(),
                        i <= n,
                    decreases n - i,
                {
                    write_line(&mut out, lines[i].as_str());
                    i = i + 1;
                }
                Err(err)
            },
        }
    }
}

} // verus!
