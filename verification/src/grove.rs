//! Groves: the guilds whose members share a calendar.

use crate::error::BambooError;
use vstd::prelude::*;
use vstd::string::StringExecFns;

verus! {

/// What is needed to found a grove: its name, and who is to be its first
/// mod.
#[derive(Clone, Debug, Default, PartialEq, Eq)]
pub struct CreateGroveRequest {
    pub grove_name: String,
    pub mod_name: String,
    pub mod_email: String,
}

/// In whose name the first mod of a new grove is written to: that of the
/// team member who founded it.
pub fn founder_signature(username: &str) -> (signature: String)
    ensures
        signature@ == username@ + " (Bambushainteam)"@,
{
    String::from_str(username).concat(" (Bambushainteam)")
}

/// A grove as stored.
#[derive(Clone, Debug, Default, PartialEq, Eq)]
pub struct Grove {
    pub id: i32,
    pub name: String,
}

/// A member of a grove, as the grove knows them.
#[derive(Clone, Debug, Default, PartialEq, Eq)]
pub struct GroveUser {
    pub id: i32,
    pub email: String,
    pub display_name: String,
    pub discord_name: String,
    pub is_mod: bool,
}

/// Where the founding of a grove stands: what is to be done next, or how
/// it ended.
#[derive(Debug, PartialEq, Eq)]
pub enum GroveFounding {
    /// Store a grove of this name.
    CreateGrove { name: String },
    /// Draw a random password for the first mod.
    DrawPassword { grove: Grove },
    /// Store this user in the grove, with this password.
    CreateUser { grove: Grove, user: GroveUser, password: String },
    /// Write to the user that was stored, and tell them the password.
    SendMail { grove: Grove, display_name: String, sender: String, email: String, password: String },
    /// Nothing more is to be done.
    Done(Result<Grove, BambooError>),
}

/// What came of the step that was to be done.
#[derive(Debug, PartialEq, Eq)]
pub enum FoundingAnswer {
    GroveCreated(Result<Grove, BambooError>),
    PasswordDrawn(String),
    UserCreated(Result<GroveUser, BambooError>),
    MailSent(Result<(), BambooError>),
}

/// The first mod of a grove, as asked for: with the email and the name of
/// the request, no discord name, and the rights of a mod.
pub open spec fn is_first_mod(user: GroveUser, request: CreateGroveRequest) -> bool {
    &&& user.id == 0
    &&& user.email == request.mod_email
    &&& user.display_name == request.mod_name
    &&& user.discord_name@ == Seq::<char>::empty()
    &&& user.is_mod
}

/// The founding of a grove begins with storing the grove.
pub fn begin_founding(request: &CreateGroveRequest) -> (state: GroveFounding)
    ensures
        state == (GroveFounding::CreateGrove { name: request.grove_name }),
{
    GroveFounding::CreateGrove { name: request.grove_name.clone() }
}

/// The next step of the founding of a grove by the team member `founder`.
/// The grove is stored, a password is drawn, the first mod is stored with
/// it, and the mod is written to with the same password; then the founding
/// ends with the grove. An error ends it at once, with that error. An
/// answer to what was not to be done changes nothing.
pub fn create_grove_step(
    state: GroveFounding,
    answer: FoundingAnswer,
    request: &CreateGroveRequest,
    founder: &str,
) -> (next: GroveFounding)
    ensures
        match (state, answer) {
            (GroveFounding::CreateGrove { .. }, FoundingAnswer::GroveCreated(Ok(grove))) => next == (
            GroveFounding::DrawPassword { grove }),
            (GroveFounding::CreateGrove { .. }, FoundingAnswer::GroveCreated(Err(error))) => next
                == GroveFounding::Done(Err(error)),
            (
                GroveFounding::DrawPassword { grove },
                FoundingAnswer::PasswordDrawn(drawn),
            ) => next matches GroveFounding::CreateUser { grove: kept, user, password } && kept
                == grove && is_first_mod(user, *request) && password == drawn,
            (
                GroveFounding::CreateUser { grove, password, .. },
                FoundingAnswer::UserCreated(Ok(created)),
            ) => next matches GroveFounding::SendMail {
                grove: kept,
                display_name,
                sender,
                email,
                password: told,
            } && kept == grove && display_name == created.display_name && sender@ == founder@
                + " (Bambushainteam)"@ && email == created.email && told == password,
            (GroveFounding::CreateUser { .. }, FoundingAnswer::UserCreated(Err(error))) => next
                == GroveFounding::Done(Err(error)),
            (GroveFounding::SendMail { grove, .. }, FoundingAnswer::MailSent(Ok(_))) => next
                == GroveFounding::Done(Ok(grove)),
            (GroveFounding::SendMail { .. }, FoundingAnswer::MailSent(Err(error))) => next
                == GroveFounding::Done(Err(error)),
            _ => next == state,
        },
{
    match (state, answer) {
        (GroveFounding::CreateGrove { .. }, FoundingAnswer::GroveCreated(created)) => match created {
            Ok(grove) => GroveFounding::DrawPassword { grove },
            Err(error) => GroveFounding::Done(Err(error)),
        },
        (GroveFounding::DrawPassword { grove }, FoundingAnswer::PasswordDrawn(password)) => {
            let user = GroveUser {
                id: 0,
                email: request.mod_email.clone(),
                display_name: request.mod_name.clone(),
                discord_name: String::new(),
                is_mod: true,
            };
            GroveFounding::CreateUser { grove, user, password }
        },
        (
            GroveFounding::CreateUser { grove, user: _, password },
            FoundingAnswer::UserCreated(created),
        ) => match created {
            Ok(created) => GroveFounding::SendMail {
                grove,
                display_name: created.display_name,
                sender: founder_signature(founder),
                email: created.email,
                password,
            },
            Err(error) => GroveFounding::Done(Err(error)),
        },
        (GroveFounding::SendMail { grove, .. }, FoundingAnswer::MailSent(sent)) => match sent {
            Ok(_) => GroveFounding::Done(Ok(grove)),
            Err(error) => GroveFounding::Done(Err(error)),
        },
        (state, _) => state,
    }
}

} // verus!
