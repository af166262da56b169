//! What a request must bring before a handler sees it.

use crate::error::{BambooError, ErrorType};
use crate::user::Model as User;
use vstd::prelude::*;

verus! {

/// Where the session of a request is looked up.
#[derive(Clone, Copy, Debug, PartialEq, Eq, Structural)]
pub enum SessionSource {
    AuthorizationHeader,
    Cookie,
}

/// A request that has an authorization header is identified by it alone,
/// whatever cookie it brings; any other by its cookie.
pub fn session_source(has_authorization_header: bool) -> (source: SessionSource)
    ensures
        source == if has_authorization_header {
            SessionSource::AuthorizationHeader
        } else {
            SessionSource::Cookie
        },
{
    if has_authorization_header {
        SessionSource::AuthorizationHeader
    } else {
        SessionSource::Cookie
    }
}

/// Lets a request pass only where its user was found and is a mod. Where
/// the lookup of the user failed, its error is the answer.
pub fn check_mod(looked_up: Result<User, BambooError>) -> (passed: Result<(), BambooError>)
    ensures
        match looked_up {
            Ok(user) => {
                &&& passed is Ok <==> user.is_mod
                &&& passed matches Err(error) ==> error.describes(
                    "user"@,
                    ErrorType::InsufficientRights,
                    "You need to be a mod"@,
                )
            },
            Err(error) => passed == Err::<(), BambooError>(error),
        },
{
    match looked_up {
        Ok(user) => {
            if user.is_mod {
                Ok(())
            } else {
                Err(BambooError::insufficient_rights("user", "You need to be a mod"))
            }
        },
        Err(error) => Err(error),
    }
}

} // verus!
