//! The one message that goes out: a named event whose payload is the
//! identifier of the file that changed.

use vstd::prelude::*;
use vstd::string::*;
use crate::command::prefixed;
use crate::kind::WatchedFile;

verus! {

/// The name of the event under which a change is announced.
pub const CHANGE_EVENT: &'static str = "data-file-changed";

/// A message to the interface: the event's name and its payload.
#[derive(Debug, Clone, PartialEq, Eq)]
pub struct ChangeNotification {
    pub event: &'static str,
    pub payload: String,
}

/// What a message that could not be sent is reported with.
pub open spec fn emit_failure_prefix() -> Seq<char> {
    "Failed to emit event: "@
}

/// The message with which the watcher announces a change of `file`.
pub fn change_notification(file: WatchedFile) -> (message: ChangeNotification)
    ensures
        message.event@ == CHANGE_EVENT@,
        message.payload@ == file.spec_identifier(),
{
    ChangeNotification { event: CHANGE_EVENT, payload: String::from_str(file.identifier()) }
}

/// The message of a reload asked for by hand. It has the shape of the
/// watcher's own, and carries the identifier as it was given.
pub fn trigger_reload(file_type: &str) -> (message: ChangeNotification)
    ensures
        message.event@ == CHANGE_EVENT@,
        message.payload@ == file_type@,
{
    ChangeNotification { event: CHANGE_EVENT, payload: String::from_str(file_type) }
}

/// The failure to report where the message could not be sent.
pub fn emit_failure(reason: &str) -> (message: String)
    ensures
        message@ == emit_failure_prefix() + reason@,
{
    prefixed("Failed to emit event: ", reason)
}

} // verus!
