//! Rules around the external database bridge: classifying raw bridge
//! outcomes, granting roles from connection attempts, mapping bridge errors
//! to protocol statuses, and wrapping queries for columnar export.

use vstd::prelude::*;

verus! {

use vstd::string::StringExecFns;

use crate::session::SessionType;
use crate::status::RpcStatus;
use crate::status::StatusCode;

/// An error reported by the database bridge: an integer code and a full
/// explanation string.
#[derive(Debug)]
pub struct QueryError {
    pub code: i32,
    pub explanation: String,
}

/// Classifies the raw outcome of one bridge call: only a zero code together
/// with an empty error buffer is success; anything else carries the code
/// and the message.
pub fn query_outcome(code: i32, explanation: String) -> (r: Option<QueryError>)
    ensures
        r is None <==> (code == 0 && explanation@.len() == 0),
        r matches Some(e) ==> e.code == code && e.explanation == explanation,
{
    if code == 0 && explanation.as_str().is_empty() {
        None
    } else {
        Some(QueryError { code, explanation })
    }
}

/// Decides whether a fresh bridge connection is usable: only a zero status
/// with a real handle opens; anything else closes with the status code.
pub fn classify_connection(status: i32, have_handle: bool) -> (r: Result<(), i32>)
    ensures
        r is Ok <==> (status == 0 && have_handle),
        r matches Err(code) ==> code == status,
{
    if status == 0 && have_handle {
        Ok(())
    } else {
        Err(status)
    }
}

/// The role granted to a handshake identity: a failed connection attempt
/// refuses it, a successful one grants exactly the requested role.
pub fn session_type_for(connected: bool, request_admin: bool) -> (r: SessionType)
    ensures
        !connected ==> r == SessionType::Unauthenticated,
        connected && request_admin ==> r == SessionType::Admin,
        connected && !request_admin ==> r == SessionType::Regular,
{
    if !connected {
        SessionType::Unauthenticated
    } else if request_admin {
        SessionType::Admin
    } else {
        SessionType::Regular
    }
}

/// How a bridge failure surfaces on the protocol: a connection failure is
/// an authentication failure; every other bridge error passes through
/// verbatim under the catch-all code.
pub fn scidb_error_status(connection_error: bool, message: &str) -> (r: RpcStatus)
    ensures
        connection_error ==> r.is(StatusCode::Unauthenticated, "SciDB authentication failed"@),
        !connection_error ==> r.is(StatusCode::Unknown, message@),
{
    if connection_error {
        RpcStatus::new(StatusCode::Unauthenticated, "SciDB authentication failed")
    } else {
        RpcStatus::new(StatusCode::Unknown, message)
    }
}

/// Wraps a query so the database saves its output to the buffer file in the
/// columnar format.
pub fn aio_query_str(query: &str, buffer_path: &str) -> (r: String)
    ensures
        r@ == "aio_save("@ + query@ + ", '"@ + buffer_path@ + "', format:'arrow')"@,
{
    let mut s = String::from_str("aio_save(");
    s.append(query);
    s.append(", '");
    s.append(buffer_path);
    s.append("', format:'arrow')");
    s
}

} // verus!
