//! The record grammar of the append-only dictation log.
//!
//! The log is the sole durable record of a session: one line per timeline
//! event, and free-form status lines. This type fixes the path and the exact
//! text of every record; opening, truncating and appending to the file is
//! I/O and sits with the caller.

use crate::event::Event;
use crate::render::{log_line, log_line_chars, message_line, message_line_chars};
use vstd::prelude::*;

verus! {

/// Formats the records of the persisted dictation log.
pub struct OutputManager {
    file_path: String,
}

impl OutputManager {
    /// The path of the log file.
    pub closed spec fn spec_path(&self) -> Seq<char> {
        self.file_path@
    }

    /// Fixes the log file path. The caller truncates or creates the file
    /// before the session starts.
    pub fn new(file_path: &str) -> (r: Self)
        ensures
            r.spec_path() == file_path@,
    {
        OutputManager { file_path: file_path.to_owned() }
    }

    /// The path of the log file, for the caller's writer.
    pub fn path(&self) -> (r: &str)
        ensures
            r@ == self.spec_path(),
    {
        self.file_path.as_str()
    }

    /// The exact log record for one timeline event.
    pub fn log_event(&self, event: &Event) -> (r: String)
        ensures
            r@ == log_line_chars(event@),
    {
        log_line(event)
    }

    /// The exact log record for a free-form status message.
    pub fn log_message(&self, message: &str) -> (r: String)
        ensures
            r@ == message_line_chars(message@),
    {
        message_line(message)
    }
}

} // verus!
