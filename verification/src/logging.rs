//! The decision content of the operator-facing logger: which records pass
//! the severity filter, and how a log line is worded. The shell owns the
//! actual output stream.

use vstd::prelude::*;

verus! {

/// Severity of a log record, most severe first.
#[derive(Clone, Copy, Debug, PartialEq, Eq, Structural)]
pub enum LogLevel {
    Error,
    Warn,
    Info,
    Debug,
    Trace,
}

impl LogLevel {
    /// Numeric severity rank: lower is more severe.
    pub open spec fn spec_rank(self) -> int {
        match self {
            LogLevel::Error => 1,
            LogLevel::Warn => 2,
            LogLevel::Info => 3,
            LogLevel::Debug => 4,
            LogLevel::Trace => 5,
        }
    }

    /// Computes [`LogLevel::spec_rank`].
    pub fn rank(self) -> (r: u8)
        ensures
            r == self.spec_rank(),
    {
        match self {
            LogLevel::Error => 1,
            LogLevel::Warn => 2,
            LogLevel::Info => 3,
            LogLevel::Debug => 4,
            LogLevel::Trace => 5,
        }
    }

    /// The level's conventional upper-case name.
    pub fn name(self) -> (r: &'static str)
        ensures
            self is Error ==> r@ == "ERROR"@,
            self is Warn ==> r@ == "WARN"@,
            self is Info ==> r@ == "INFO"@,
            self is Debug ==> r@ == "DEBUG"@,
            self is Trace ==> r@ == "TRACE"@,
    {
        match self {
            LogLevel::Error => "ERROR",
            LogLevel::Warn => "WARN",
            LogLevel::Info => "INFO",
            LogLevel::Debug => "DEBUG",
            LogLevel::Trace => "TRACE",
        }
    }
}

/// The wording of one log line.
pub open spec fn log_line_text(level_name: Seq<char>, target: Seq<char>, body: Seq<char>) -> Seq<
    char,
> {
    "["@ + level_name + "] - "@ + target + " - "@ + body
}

/// A plain severity-filtered logger: records at `Info` and above are kept,
/// `Debug` and `Trace` are dropped.
#[derive(Debug)]
pub struct SimpleLogger;

impl SimpleLogger {
    /// Whether a record at `level` is logged at all.
    pub fn enabled(&self, level: LogLevel) -> (r: bool)
        ensures
            r == (level.spec_rank() <= LogLevel::Info.spec_rank()),
    {
        level.rank() <= LogLevel::Info.rank()
    }

    /// The line written for a record: its level, the originating target,
    /// and the record's own text.
    pub fn format_line(&self, level: LogLevel, target: &str, body: &str) -> (r: String)
        ensures
            level is Info ==> r@ == log_line_text("INFO"@, target@, body@),
            level is Warn ==> r@ == log_line_text("WARN"@, target@, body@),
            level is Error ==> r@ == log_line_text("ERROR"@, target@, body@),
            level is Debug ==> r@ == log_line_text("DEBUG"@, target@, body@),
            level is Trace ==> r@ == log_line_text("TRACE"@, target@, body@),
    {
        let mut out = String::new();
        out.append("[");
        out.append(level.name());
        out.append("] - ");
        out.append(target);
        out.append(" - ");
        out.append(body);
        proof {
            assert(out@ =~= log_line_text("ERROR"@, target@, body@) || out@ =~= log_line_text(
                "WARN"@,
                target@,
                body@,
            ) || out@ =~= log_line_text("INFO"@, target@, body@) || out@ =~= log_line_text(
                "DEBUG"@,
                target@,
                body@,
            ) || out@ =~= log_line_text("TRACE"@, target@, body@));
        }
        out
    }
}

} // verus!
