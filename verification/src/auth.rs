//! Access decisions over session values.
//!
//! The HTTP layer reads the session cookie and hands the raw values here;
//! these functions decide, and the layer turns the decision into a pass or
//! an error response. What failed when a decision is negative is part of the
//! contract: the caller's error message depends on it.

use vstd::prelude::*;

verus! {

/// Guard for routes that require a logged-in user.
pub struct IsLoggedIn;

impl IsLoggedIn {
    /// The request may proceed exactly when the session carries a user
    /// identifier.
    pub fn allows(&self, session_user_id: &Option<String>) -> (r: bool)
        ensures
            r == session_user_id.is_some(),
    {
        session_user_id.is_some()
    }
}

/// Guard for routes that require an administrator.
pub struct IsAdmin;

impl IsAdmin {
    /// The request may proceed exactly when the session says the user is an
    /// administrator: an absent flag counts as not an administrator.
    pub fn allows(&self, session_is_admin: &Option<bool>) -> (r: bool)
        ensures
            r == (session_is_admin == Some(true)),
    {
        match session_is_admin {
            Option::Some(flag) => *flag,
            Option::None => false,
        }
    }
}

/// Which session value was missing when [`user_info`] fails.
#[derive(Clone, Copy, Debug, PartialEq, Eq, Structural)]
pub enum SessionError {
    /// The session carries no user identifier.
    MissingUserId,
    /// The session carries no user name.
    MissingUserName,
    /// The session carries no administrator flag.
    MissingIsAdmin,
}

/// The logged-in user behind a request: identifier, name, and whether they
/// are an administrator. `Err` exactly when a session value is absent, naming
/// the first absent one (identifier, then name, then flag).
pub fn user_info(user_id: Option<String>, user_name: Option<String>, is_admin: Option<bool>) -> (r:
    Result<(String, String, bool), SessionError>)
    ensures
        match r {
            Result::Ok((id, name, admin)) => {
                &&& user_id == Some(id)
                &&& user_name == Some(name)
                &&& is_admin == Some(admin)
            },
            Result::Err(e) => match e {
                SessionError::MissingUserId => user_id is None,
                SessionError::MissingUserName => user_id is Some && user_name is None,
                SessionError::MissingIsAdmin => user_id is Some && user_name is Some
                    && is_admin is None,
            },
        },
        r is Ok <==> user_id is Some && user_name is Some && is_admin is Some,
{
    let id = match user_id {
        Option::Some(id) => id,
        Option::None => {
            return Result::Err(SessionError::MissingUserId);
        },
    };
    let name = match user_name {
        Option::Some(name) => name,
        Option::None => {
            return Result::Err(SessionError::MissingUserName);
        },
    };
    let admin = match is_admin {
        Option::Some(admin) => admin,
        Option::None => {
            return Result::Err(SessionError::MissingIsAdmin);
        },
    };
    Result::Ok((id, name, admin))
}

} // verus!
