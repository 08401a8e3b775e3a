use crate::role::Role;
use crate::text::{blank, is_blank, str_eq};
use vstd::prelude::*;

verus! {

/// Whether a caller that shows the token `supplied` is let in where the
/// token `required` is configured. Where none is configured everyone is let
/// in; otherwise only the very same string will do.
pub open spec fn permits(required: Option<Seq<char>>, supplied: Option<Seq<char>>) -> bool {
    required matches Some(secret) ==> supplied == Some(secret)
}

/// What a string slice that may be missing spells.
pub open spec fn spelling(text: Option<&str>) -> Option<Seq<char>> {
    match text {
        Some(t) => Some(t@),
        None => None,
    }
}

/// The shared-secret check that stands before the socket upgrade and before
/// every admin operation. The comparison is plain equality.
pub fn token_valid(required: Option<&str>, supplied: Option<&str>) -> (ok: bool)
    ensures
        ok == permits(spelling(required), spelling(supplied)),
{
    match required {
        Some(secret) => match supplied {
            Some(token) => str_eq(token, secret),
            None => false,
        },
        None => true,
    }
}

/// Why a socket upgrade is refused.
#[derive(Clone, Copy, Debug, PartialEq, Eq, Structural)]
pub enum Rejection {
    /// The role is neither `horizon` nor `voyager`.
    InvalidRole,
    /// A Voyager named no session.
    MissingSession,
    /// A token is required and the one shown is missing or wrong.
    InvalidToken,
}

impl Rejection {
    /// The HTTP status that answers the refused request.
    pub fn status(&self) -> (code: u16)
        ensures
            code == match *self {
                Rejection::InvalidRole => 400u16,
                Rejection::MissingSession => 400u16,
                Rejection::InvalidToken => 401u16,
            },
    {
        match self {
            Rejection::InvalidRole => 400,
            Rejection::MissingSession => 400,
            Rejection::InvalidToken => 401,
        }
    }

    /// The body that answers the refused request.
    pub fn reason(&self) -> (text: &'static str)
        ensures
            text@ == match *self {
                Rejection::InvalidRole => "invalid role"@,
                Rejection::MissingSession => "missing session"@,
                Rejection::InvalidToken => "invalid token"@,
            },
    {
        match self {
            Rejection::InvalidRole => "invalid role",
            Rejection::MissingSession => "missing session",
            Rejection::InvalidToken => "invalid token",
        }
    }
}

/// The role that `name` stands for.
pub open spec fn role_named(name: Seq<char>) -> Option<Role> {
    if name == "horizon"@ {
        Some(Role::Horizon)
    } else if name == "voyager"@ {
        Some(Role::Voyager)
    } else {
        None
    }
}

/// Reads a role as a client writes it.
pub fn parse_role(name: &str) -> (role: Option<Role>)
    ensures
        role == role_named(name@),
{
    if str_eq(name, "horizon") {
        Some(Role::Horizon)
    } else if str_eq(name, "voyager") {
        Some(Role::Voyager)
    } else {
        None
    }
}

/// A request for a socket that is let through.
#[derive(Debug, PartialEq, Eq)]
pub struct Admission {
    pub role: Role,
    /// The session asked for, as the client wrote it; `None` where a
    /// Horizon leaves the choice to the relay.
    pub session: Option<String>,
}

/// The session that a request names: one that is blank names none.
pub open spec fn session_named(session: Option<Seq<char>>) -> Option<Seq<char>> {
    match session {
        Some(s) => if is_blank(s) {
            None
        } else {
            Some(s)
        },
        None => None,
    }
}

/// How a request for a socket is answered, once its role has been read,
/// the session it names is known, and the token has been looked at. The
/// role comes first, then the session, then the token.
pub open spec fn upgrade_answer(role: Option<Role>, session: Option<Seq<char>>, permitted: bool)
    -> Result<(Role, Option<Seq<char>>), Rejection> {
    match role {
        None => Err(Rejection::InvalidRole),
        Some(r) => if r == Role::Voyager && session is None {
            Err(Rejection::MissingSession)
        } else if !permitted {
            Err(Rejection::InvalidToken)
        } else {
            Ok((r, session))
        },
    }
}

/// What an answer says, in the terms of `upgrade_answer`.
pub open spec fn answer_view(answer: Result<Admission, Rejection>) -> Result<
    (Role, Option<Seq<char>>),
    Rejection,
> {
    match answer {
        Ok(admission) => Ok((admission.role, admission.session.deep_view())),
        Err(rejection) => Err(rejection),
    }
}

/// Answers a request for a socket from what has been found out about it:
/// the role it named, if that is one, the session it named, if any, and
/// whether its token is valid.
pub fn decide_upgrade(role: Option<Role>, session: Option<String>, permitted: bool) -> (answer:
    Result<Admission, Rejection>)
    ensures
        answer_view(answer) == upgrade_answer(role, session.deep_view(), permitted),
{
    match role {
        None => Err(Rejection::InvalidRole),
        Some(r) => {
            if r == Role::Voyager && session.is_none() {
                Err(Rejection::MissingSession)
            } else if !permitted {
                Err(Rejection::InvalidToken)
            } else {
                Ok(Admission { role: r, session })
            }
        },
    }
}

/// The session that a request names, kept as the client wrote it. A
/// request that names a blank session names none.
pub fn named_session(session: Option<&str>) -> (named: Option<String>)
    ensures
        named.deep_view() == session_named(spelling(session)),
{
    match session {
        Some(s) => if blank(s) {
            None
        } else {
            Some(s.to_owned())
        },
        None => None,
    }
}

/// Checks a request for a socket before anything is set up for it: the
/// role must be known, a Voyager must name a session, and the token must
/// be valid.
pub fn check_upgrade(
    role: &str,
    session: Option<&str>,
    token: Option<&str>,
    required: Option<&str>,
) -> (answer: Result<Admission, Rejection>)
    ensures
        answer_view(answer) == upgrade_answer(
            role_named(role@),
            session_named(spelling(session)),
            permits(spelling(required), spelling(token)),
        ),
{
    decide_upgrade(parse_role(role), named_session(session), token_valid(required, token))
}

} // verus!
