//! The message that asks for a line in the log.

use vstd::prelude::*;

verus! {

/// A line for the log.
#[derive(Debug)]
pub struct LogMessage {
    pub message: String,
}

impl LogMessage {
    pub fn new(log: String) -> (message: Self)
        ensures
            message.message == log,
    {
        LogMessage { message: log }
    }
}

} // verus!
