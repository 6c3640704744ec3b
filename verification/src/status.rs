//! Terminal statuses of RPC calls, and the rules that map collaborator
//! failures onto them.

use vstd::prelude::*;

verus! {

/// Protocol status code carried by a terminal RPC outcome.
#[derive(Clone, Copy, PartialEq, Eq, Structural, Debug)]
pub enum StatusCode {
    InvalidArgument,
    Unauthenticated,
    PermissionDenied,
    NotFound,
    Unknown,
    Internal,
    Unimplemented,
}

/// A terminal status for the current call: a code and a human-readable
/// explanation. Every failure of the broker surfaces as one of these.
#[derive(Debug)]
pub struct RpcStatus {
    pub code: StatusCode,
    pub message: String,
}

impl RpcStatus {
    /// The status has exactly this code and this message text.
    pub open spec fn is(&self, code: StatusCode, message: Seq<char>) -> bool {
        self.code == code && self.message@ == message
    }

    pub fn new(code: StatusCode, message: &str) -> (r: RpcStatus)
        ensures
            r.is(code, message@),
    {
        RpcStatus { code, message: message.to_owned() }
    }
}

/// A compile or execution failure of the external query engine surfaces
/// verbatim with the catch-all code.
pub fn engine_error_status(message: &str) -> (r: RpcStatus)
    ensures
        r.is(StatusCode::Unknown, message@),
{
    RpcStatus::new(StatusCode::Unknown, message)
}

} // verus!
