//! Authentication requests.
use vstd::prelude::*;
use crate::msg::result::{ResultData, ResultDataView, error_view};
use crate::value::empty_map;

verus! {

/// How far the check of an authentication token went.
#[derive(Debug, Clone, Copy, PartialEq, Eq, Structural)]
pub enum AuthOutcome {
    /// The token could not be read.
    UnreadableToken,
    /// The token names a session that does not exist.
    UnknownSession,
    /// The database failed while looking the session up.
    DatabaseError,
    /// The session was found: the connection is now authenticated.
    SessionFound,
}

/// The answer to an authentication request: a success once the session is
/// found, an `InvalidToken` error for a token that cannot be read or names no
/// session, and an `InternalError` when the database fails.
pub fn auth_reply(outcome: AuthOutcome) -> (r: ResultData)
    ensures
        r.deep_view() == match outcome {
            AuthOutcome::UnreadableToken => error_view("InvalidToken"@, "Invalid token provided."@),
            AuthOutcome::UnknownSession => error_view("InvalidToken"@, "Invalid token provided."@),
            AuthOutcome::DatabaseError => error_view("InternalError"@, "Internal server error."@),
            AuthOutcome::SessionFound => ResultDataView::Success(empty_map()),
        },
{
    match outcome {
        AuthOutcome::UnreadableToken => ResultData::err("InvalidToken", "Invalid token provided.", None),
        AuthOutcome::UnknownSession => ResultData::err("InvalidToken", "Invalid token provided.", None),
        AuthOutcome::DatabaseError => ResultData::err("InternalError", "Internal server error.", None),
        AuthOutcome::SessionFound => ResultData::ok(None),
    }
}

} // verus!
