//! The `greet` command.

use vstd::prelude::*;
use vstd::string::*;
use crate::logging::{shell_log_config, Level, LogRecord, LogRecordView};

verus! {

/// The reply to a greeting of `name`: the name set, unchanged, between a fixed
/// opening and a fixed close.
pub open spec fn greeting_text(name: Seq<char>) -> Seq<char> {
    "Hello, "@ + name + "! You've been greeted from Rust!"@
}

/// Greets `name`. Every string is accepted, the empty one too, and none of its
/// characters is escaped or dropped.
pub fn greet(name: &str) -> (greeting: String)
    ensures
        greeting@ == greeting_text(name@),
{
    let mut greeting = String::from_str("Hello, ");
    greeting.append(name);
    greeting.append("! You've been greeted from Rust!");
    greeting
}

/// The log line that records a call of `greet` with `name`.
pub open spec fn greet_log_text(name: Seq<char>) -> Seq<char> {
    "Greet command called with name: "@ + name
}

/// The record that a call of `greet` with `name` leaves in the log: one line of
/// informational severity that holds the name, and that the shell's sink writes.
pub fn greet_log_record(name: &str) -> (record: LogRecord)
    ensures
        record@ == (LogRecordView { level: Level::Info, message: greet_log_text(name@) }),
        shell_log_config().level.admits(record@.level),
{
    let mut message = String::from_str("Greet command called with name: ");
    message.append(name);
    LogRecord::info(message)
}

} // verus!
