//! Log lines that the library decides on and the application emits.

use vstd::prelude::*;

verus! {

/// Severity of a diagnostic line.
#[derive(Debug, Clone, Copy, PartialEq, Eq, Structural)]
pub enum LogLevel {
    Info,
    Warn,
}

/// One diagnostic line: its severity and its text.
#[derive(Debug)]
pub struct LogLine {
    pub level: LogLevel,
    pub message: String,
}

impl View for LogLine {
    type V = (LogLevel, Seq<char>);

    open spec fn view(&self) -> (LogLevel, Seq<char>) {
        (self.level, self.message@)
    }
}

/// The views of a sequence of log lines.
pub open spec fn lines_view(lines: Seq<LogLine>) -> Seq<(LogLevel, Seq<char>)> {
    lines.map_values(|l: LogLine| l@)
}

} // verus!
