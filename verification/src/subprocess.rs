//! The log of what subprocesses write: every line that a command writes to
//! its output or its errors becomes one record, on a target of its own, so
//! that it can be told apart from what the deployment itself reports.
use crate::text::concat3;
use vstd::prelude::*;

verus! {

/// The tracing target of the records that hold what subprocesses wrote.
pub const SUBPROCESS_LOG_TARGET: &'static str = "subprocess_log";

/// Which stream of a subprocess a line was read from.
#[derive(Debug, Clone, Copy, PartialEq, Eq, Structural)]
pub enum Origin {
    /// Its standard output.
    Output,
    /// Its standard error.
    Errors,
}

impl Origin {
    /// The tag that marks the records of this stream.
    pub open spec fn tag_text(self) -> Seq<char> {
        match self {
            Origin::Output => "O"@,
            Origin::Errors => "E"@,
        }
    }

    /// The tag that marks the records of this stream.
    pub fn tag(&self) -> (tag: &'static str)
        ensures
            tag@ == self.tag_text(),
    {
        match self {
            Origin::Output => "O",
            Origin::Errors => "E",
        }
    }
}

/// The record for one line of a stream: the stream's tag, a space, and the
/// line.
pub open spec fn record_text(stream: Seq<char>, line: Seq<char>) -> Seq<char> {
    stream + " "@ + line
}

/// The record for one line that was read from the stream tagged `stream`.
pub fn log_record(stream: &str, line: &str) -> (record: String)
    ensures
        record@ == record_text(stream@, line@),
{
    concat3(stream, " ", line)
}

} // verus!
