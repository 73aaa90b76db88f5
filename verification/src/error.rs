//! The errors that a handler answers with.

use vstd::prelude::*;
use vstd::string::*;

verus! {

/// Why a request was not served.
#[derive(Debug, Clone, Copy, PartialEq, Eq, Structural)]
pub enum ErrorCode {
    BadRequest,
    NotFound,
    PaymentFailed,
    ChannelFailed,
    ConnectionFailed,
    UnsupportedPaymentInstruction,
    Internal,
}

/// A code for the caller's program, and a message for its reader.
#[derive(Debug, PartialEq, Eq)]
pub struct NncError {
    pub code: ErrorCode,
    pub message: String,
}

impl NncError {
    /// Whether this is the error with that code and that message.
    pub open spec fn says(self, code: ErrorCode, message: Seq<char>) -> bool {
        self.code == code && self.message@ == message
    }

    pub fn new(code: ErrorCode, message: &str) -> (error: NncError)
        ensures
            error.says(code, message@),
    {
        NncError { code, message: message.to_owned() }
    }
}

/// The message for a failure in something: what failed, and how.
pub open spec fn failure(what: Seq<char>, how: Seq<char>) -> Seq<char> {
    what + ": "@ + how
}

pub(crate) fn failure_message(what: &str, how: &str) -> (message: String)
    ensures
        message@ == failure(what@, how@),
{
    let mut message = what.to_owned();
    message.append(": ");
    message.append(how);
    message
}

/// A failure of the node, as an error of the protocol.
pub fn ldk_err(what: &str, code: ErrorCode, e: &str) -> (error: NncError)
    ensures
        error.says(code, failure(what@, e@)),
{
    NncError { code, message: failure_message(what, e) }
}

}
