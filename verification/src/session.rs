use vstd::prelude::*;

use crate::text::concat;

verus! {

/// The session id that `WTSGetActiveConsoleSessionId` returns when no user
/// session is attached to the console.
pub const NO_CONSOLE_SESSION: u32 = 0xFFFF_FFFF;

/// Why the helper cannot be launched in a user session.
#[derive(Debug, Clone, Copy, PartialEq, Eq, Structural)]
pub enum SessionError {
    /// No user session is attached to the console.
    NoActiveConsoleSession,
}

impl SessionError {
    /// The text of the error.
    pub fn message(&self) -> (r: &'static str)
        ensures
            r@ == "no active console session"@,
    {
        "no active console session"
    }
}

/// Whether a user session is attached to the console.
pub fn has_active_session(session_id: u32) -> (r: bool)
    ensures
        r == (session_id != NO_CONSOLE_SESSION),
{
    session_id != NO_CONSOLE_SESSION
}

/// The session to launch the helper in: the active console session, or an
/// error when there is none.
pub fn console_session_for_launch(session_id: u32) -> (r: Result<u32, SessionError>)
    ensures
        session_id == NO_CONSOLE_SESSION <==> r is Err,
        r matches Ok(id) ==> id == session_id,
{
    if session_id == NO_CONSOLE_SESSION {
        Err(SessionError::NoActiveConsoleSession)
    } else {
        Ok(session_id)
    }
}

/// The command line that launches the helper mode: `"<path-to-exe>" helper`.
pub fn get_helper_command_line(exe_path: &str) -> (r: String)
    ensures
        r@ == "\""@ + exe_path@ + "\" helper"@,
{
    let mut r = concat("\"", exe_path);
    r.append("\" helper");
    r
}

} // verus!
