//! What is exchanged when a member logs in or asks for a new password.

use crate::user::WebUser;
use vstd::prelude::*;

verus! {

/// What a member logs in with. Without a two factor code the login only
/// asks for one to be sent.
#[derive(Clone, Debug, Default, PartialEq, Eq)]
pub struct Login {
    pub email: String,
    pub password: String,
    pub two_factor_code: Option<String>,
}

#[derive(Clone, Debug, Default, PartialEq, Eq)]
pub struct RequestTwoFactor {
    pub email: String,
    pub password: String,
}

/// A successful login: who logged in, and the token of the session.
#[derive(Clone, Debug, Default, PartialEq, Eq)]
pub struct LoginResult {
    pub user: WebUser,
    pub token: String,
}

#[derive(Clone, Debug, Default, PartialEq, Eq)]
pub struct TwoFactorResult {
    pub user: WebUser,
    pub two_factor_code: Option<String>,
}

#[derive(Clone, Debug, Default, PartialEq, Eq)]
pub struct ChangeMyPassword {
    pub old_password: String,
    pub new_password: String,
}

#[derive(Clone, Debug, Default, PartialEq, Eq)]
pub struct ForgotPassword {
    pub email: String,
}

/// What the server answers a login with.
#[derive(Clone, Copy, Debug, PartialEq, Eq, Structural)]
pub enum LoginAnswer {
    /// The session: user and token.
    Session,
    /// Nothing: a two factor code is on its way to the member.
    NoContent,
}

impl Login {
    pub fn new(email: String, password: String, two_factor_code: Option<String>) -> (login: Self)
        ensures
            login.email == email,
            login.password == password,
            login.two_factor_code == two_factor_code,
    {
        Login { email, password, two_factor_code }
    }

    /// A login opens a session at once where it brings a two factor code,
    /// and for the one account that has none.
    pub open spec fn opens_session(self) -> bool {
        self.two_factor_code is Some || self.email@ == "playstore@google.bambushain"@
    }

    /// What answer to read after sending this login.
    pub fn expected_answer(&self) -> (answer: LoginAnswer)
        ensures
            answer == if self.opens_session() {
                LoginAnswer::Session
            } else {
                LoginAnswer::NoContent
            },
    {
        if self.two_factor_code.is_some() || self.email == "playstore@google.bambushain".to_owned() {
            LoginAnswer::Session
        } else {
            LoginAnswer::NoContent
        }
    }
}

} // verus!
