use crate::access::{permits, spelling, token_valid};
use crate::registry::{without_id, Registry, SessionStatus};
use vstd::prelude::*;

verus! {

/// Why an admin operation did nothing.
#[derive(Clone, Copy, Debug, PartialEq, Eq, Structural)]
pub enum AdminError {
    /// A token is required and the one shown is missing or wrong.
    Unauthorized,
    /// No live session has the id.
    NotFound,
}

impl AdminError {
    /// The HTTP status that answers the request.
    pub fn status(&self) -> (code: u16)
        ensures
            code == match *self {
                AdminError::Unauthorized => 401u16,
                AdminError::NotFound => 404u16,
            },
    {
        match self {
            AdminError::Unauthorized => 401,
            AdminError::NotFound => 404,
        }
    }

    /// The body that answers the request.
    pub fn reason(&self) -> (text: &'static str)
        ensures
            text@ == match *self {
                AdminError::Unauthorized => "invalid token"@,
                AdminError::NotFound => "not found"@,
            },
    {
        match self {
            AdminError::Unauthorized => "invalid token",
            AdminError::NotFound => "not found",
        }
    }
}

/// Lists every live session, oldest first, for a caller whose token is
/// valid.
pub fn list_sessions(registry: &Registry, required: Option<&str>, token: Option<&str>) -> (answer:
    Result<Vec<SessionStatus>, AdminError>)
    ensures
        answer is Ok == permits(spelling(required), spelling(token)),
        answer matches Err(e) ==> e == AdminError::Unauthorized,
        answer matches Ok(listing) ==> {
            &&& listing@.len() == registry.ids().len()
            &&& registry.ids().no_duplicates()
            &&& forall|i: int|
                #![trigger listing@[i]]
                0 <= i < listing@.len() ==> {
                    &&& listing@[i].session@ == registry.ids()[i]
                    &&& registry@.contains_key(registry.ids()[i])
                    &&& listing@[i].horizon_connected == (registry@[registry.ids()[i]].horizon
                        is Some)
                    &&& listing@[i].voyager_count == registry@[registry.ids()[i]].voyagers.len()
                }
        },
{
    if !token_valid(required, token) {
        return Err(AdminError::Unauthorized);
    }
    Ok(registry.snapshot())
}

/// The status of one session, for a caller whose token is valid. The token
/// is looked at before the session is.
pub fn get_session(
    registry: &Registry,
    required: Option<&str>,
    token: Option<&str>,
    session_id: &str,
) -> (answer: Result<SessionStatus, AdminError>)
    ensures
        match answer {
            Ok(status) => {
                &&& permits(spelling(required), spelling(token))
                &&& registry@.contains_key(session_id@)
                &&& status.session@ == session_id@
                &&& status.horizon_connected == (registry@[session_id@].horizon is Some)
                &&& status.voyager_count == registry@[session_id@].voyagers.len()
            },
            Err(AdminError::Unauthorized) => !permits(spelling(required), spelling(token)),
            Err(AdminError::NotFound) => permits(spelling(required), spelling(token))
                && !registry@.contains_key(session_id@),
        },
{
    if !token_valid(required, token) {
        return Err(AdminError::Unauthorized);
    }
    match registry.get(session_id) {
        Some(status) => Ok(status),
        None => Err(AdminError::NotFound),
    }
}

/// Closes one session for a caller whose token is valid: every member is
/// offered the close signal and the session is deleted. A token that is
/// not valid, or an id that is not live, changes nothing.
pub fn close_session(
    registry: &mut Registry,
    required: Option<&str>,
    token: Option<&str>,
    session_id: &str,
) -> (answer: Result<(), AdminError>)
    ensures
        match answer {
            Ok(_) => {
                &&& permits(spelling(required), spelling(token))
                &&& old(registry)@.contains_key(session_id@)
                &&& final(registry)@ == old(registry)@.remove(session_id@)
                &&& final(registry).ids() == without_id(old(registry).ids(), session_id@)
            },
            Err(AdminError::Unauthorized) => {
                &&& !permits(spelling(required), spelling(token))
                &&& final(registry)@ == old(registry)@
                &&& final(registry).ids() == old(registry).ids()
            },
            Err(AdminError::NotFound) => {
                &&& permits(spelling(required), spelling(token))
                &&& !old(registry)@.contains_key(session_id@)
                &&& final(registry)@ == old(registry)@
                &&& final(registry).ids() == old(registry).ids()
            },
        },
{
    if !token_valid(required, token) {
        return Err(AdminError::Unauthorized);
    }
    if registry.close(session_id) {
        Ok(())
    } else {
        Err(AdminError::NotFound)
    }
}

} // verus!
