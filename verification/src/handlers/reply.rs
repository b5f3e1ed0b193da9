//! Pieces shared by the handlers: error answers and the signed-in user.

use vstd::prelude::*;
use crate::session::{get_session, session_of};
use crate::text::owned;

verus! {

/// An error answer: HTTP status and the text of its `error` field.
pub struct ErrorReply {
    pub status: u16,
    pub message: String,
}

/// Message of the answer to requests without a session.
pub const NOT_AUTHENTICATED: &'static str = "Not authenticated";

/// The `Cookie` header as a value.
pub open spec fn header_view(h: Option<&str>) -> Option<Seq<char>> {
    match h {
        Some(s) => Some(s@),
        None => None,
    }
}

/// The user signed in by a `Cookie` header.
pub open spec fn session_user_of(h: Option<Seq<char>>) -> Option<u128> {
    match session_of(h) {
        Some((u, _)) => Some(u),
        None => None,
    }
}

/// The user the request's session names, if any.
pub fn session_user(cookie_header: Option<&str>) -> (u: Option<u128>)
    ensures
        u == session_user_of(header_view(cookie_header)),
{
    match get_session(cookie_header) {
        Some((u, _)) => Some(u),
        None => None,
    }
}

/// An error answer with a fixed message.
pub fn error_reply(status: u16, message: &str) -> (e: ErrorReply)
    ensures
        e.status == status,
        e.message@ == message@,
{
    ErrorReply { status, message: owned(message) }
}

/// The answer to a request without a session: 401, `Not authenticated`.
pub fn unauthorized() -> (e: ErrorReply)
    ensures
        e.status == 401,
        e.message@ == NOT_AUTHENTICATED@,
{
    error_reply(401, NOT_AUTHENTICATED)
}

} // verus!
