//! The tracker's own log: each message goes, with its severity as a tag, to one of three files.

use vstd::prelude::*;
use crate::text::concat_str;

verus! {

/// How serious a message is.
#[derive(Debug, Clone, Copy, PartialEq, Eq, Structural)]
pub enum Severity {
    Debug,
    Info,
    Warn,
    Error,
}

/// The files of the tracker's log.
#[derive(Debug, Clone, Copy, PartialEq, Eq, Structural)]
pub enum LogFile {
    Debug,
    Info,
    Error,
}

/// The name of a log file, next to the program.
pub open spec fn log_file_name(f: LogFile) -> Seq<char> {
    match f {
        LogFile::Debug => "debug.log"@,
        LogFile::Info => "info.log"@,
        LogFile::Error => "error.log"@,
    }
}

/// The tag a message of the severity is written with.
pub open spec fn severity_tag(s: Severity) -> Seq<char> {
    match s {
        Severity::Debug => "[debug]"@,
        Severity::Info => "[info]"@,
        Severity::Warn => "[warn]"@,
        Severity::Error => "[error]"@,
    }
}

/// The file a message of the severity goes to: warnings go with the errors.
pub open spec fn severity_file(s: Severity) -> LogFile {
    match s {
        Severity::Debug => LogFile::Debug,
        Severity::Info => LogFile::Info,
        Severity::Warn | Severity::Error => LogFile::Error,
    }
}

/// The name of a log file.
pub fn file_name(f: LogFile) -> (r: &'static str)
    ensures
        r@ == log_file_name(f),
{
    match f {
        LogFile::Debug => "debug.log",
        LogFile::Info => "info.log",
        LogFile::Error => "error.log",
    }
}

/// A message for the tracker's log.
#[derive(Debug, Clone)]
pub struct LogMessage {
    pub content: String,
    pub severity: Severity,
}

impl LogMessage {
    /// A message with its severity.
    pub fn new(content: String, severity: Severity) -> (r: LogMessage)
        ensures
            r.content == content,
            r.severity == severity,
    {
        LogMessage { content, severity }
    }

    /// The file the message goes to.
    pub fn target(&self) -> (r: LogFile)
        ensures
            r == severity_file(self.severity),
    {
        match self.severity {
            Severity::Debug => LogFile::Debug,
            Severity::Info => LogFile::Info,
            Severity::Warn => LogFile::Error,
            Severity::Error => LogFile::Error,
        }
    }

    /// The line written for the message: its tag, its text, a newline.
    pub fn render(&self) -> (r: String)
        ensures
            r@ == severity_tag(self.severity) + self.content@ + "\n"@,
    {
        let tag = match self.severity {
            Severity::Debug => "[debug]",
            Severity::Info => "[info]",
            Severity::Warn => "[warn]",
            Severity::Error => "[error]",
        };
        let line = concat_str(tag, self.content.as_str());
        concat_str(line.as_str(), "\n")
    }
}

/// The tracker's log service.
#[derive(Debug, Clone)]
pub struct LogService {}

impl LogService {
    /// The message when a log file cannot be created: which file, and why.
    pub fn creation_error(f: LogFile, reason: &str) -> (r: String)
        ensures
            r@ == "Could not create "@ + match f {
                LogFile::Debug => "debug"@,
                LogFile::Info => "info"@,
                LogFile::Error => "error"@,
            } + " file: "@ + reason@,
    {
        let which = match f {
            LogFile::Debug => "debug",
            LogFile::Info => "info",
            LogFile::Error => "error",
        };
        let head = concat_str("Could not create ", which);
        let head = concat_str(head.as_str(), " file: ");
        concat_str(head.as_str(), reason)
    }
}

} // verus!
