//! The members of a grove, and how their passwords are kept: as bcrypt
//! hashes, never as the password itself.

use crate::text::digit;
use vstd::prelude::*;

verus! {

/// The work factor passwords are hashed with.
pub const PASSWORD_COST: u32 = 12;

/// What bcrypt makes of a password and a stored hash: whether they belong
/// together, or nothing where the stored text is no hash it can read.
pub uninterp spec fn bcrypt_verdict(password: Seq<char>, hash: Seq<char>) -> Option<bool>;

/// Whether the text has the form of a bcrypt hash made with this work
/// factor: sixty characters, of which the first seven name the version `2b`
/// and the work factor in two digits.
pub open spec fn carries_cost(hash: Seq<char>, cost: u32) -> bool {
    &&& hash.len() == 60
    &&& hash[0] == '$'
    &&& hash[1] == '2'
    &&& hash[2] == 'b'
    &&& hash[3] == '$'
    &&& hash[4] == digit(cost as int / 10)
    &&& hash[5] == digit(cost as int % 10)
    &&& hash[6] == '$'
}

/// Why a password could not be hashed.
#[derive(Clone, Debug, PartialEq, Eq)]
pub enum HashingError {
    /// The work factor is not one from 4 to 31.
    CostNotAllowed(u32),
    /// The stored text is no bcrypt hash.
    InvalidHash(String),
    /// No random salt could be had.
    Rand,
    /// The password is longer than bcrypt can take in.
    Truncation(usize),
}

/// `bcrypt::hash`.
/// Assumed: a hash that comes back is one that `bcrypt::verify` accepts for
/// the same password, it is written in version `2b` with the work factor it
/// was made with, and a work factor from 4 to 31 is never the reason for a
/// failure. The salt is random, so nothing more is known of the hash, and
/// the source of randomness may fail.
#[verifier::external_body]
fn bcrypt_hash(password: &str, cost: u32) -> (hashed: Result<String, HashingError>)
    ensures
        hashed matches Ok(hash) ==> bcrypt_verdict(password@, hash@) == Some(true),
        hashed matches Ok(hash) ==> carries_cost(hash@, cost) && 4 <= cost <= 31,
        hashed matches Err(HashingError::CostNotAllowed(refused)) ==> refused == cost && !(4 <= cost
            <= 31),
{
    match bcrypt::hash(password, cost) {
        Ok(hash) => Ok(hash),
        Err(bcrypt::BcryptError::CostNotAllowed(cost)) => Err(HashingError::CostNotAllowed(cost)),
        Err(bcrypt::BcryptError::InvalidHash(reason)) => Err(HashingError::InvalidHash(reason.to_string())),
        Err(bcrypt::BcryptError::Rand(_)) => Err(HashingError::Rand),
        Err(bcrypt::BcryptError::Truncation(length)) => Err(HashingError::Truncation(length)),
    }
}

/// `bcrypt::verify`.
/// Assumed: the answer depends on the password and the stored text only.
#[verifier::external_body]
fn bcrypt_verify(password: &str, hash: &str) -> (verdict: Option<bool>)
    ensures
        verdict == bcrypt_verdict(password@, hash@),
{
    match bcrypt::verify(password, hash) {
        Ok(matches) => Some(matches),
        Err(_) => None,
    }
}

/// A password is accepted only where bcrypt could read the stored hash and
/// found that the password belongs to it.
pub fn accepts(verdict: Option<bool>) -> (accepted: bool)
    ensures
        accepted == (verdict == Some(true)),
{
    match verdict {
        Some(matches) => matches,
        None => false,
    }
}

/// A member as stored, password hash included.
#[derive(Clone, Debug, Default, PartialEq, Eq)]
pub struct Model {
    pub id: i32,
    pub username: String,
    pub password: String,
    pub is_mod: bool,
    pub gear_level: String,
    pub job: String,
    pub discord_name: String,
}

/// A member as shown to others: everything but the password.
#[derive(Clone, Debug, Default, PartialEq, Eq)]
pub struct WebUser {
    pub id: i32,
    pub username: String,
    pub is_mod: bool,
    pub gear_level: String,
    pub job: String,
    pub discord_name: String,
}

/// What a member may change about their own profile.
#[derive(Clone, Debug, Default, PartialEq, Eq)]
pub struct UpdateProfile {
    pub gear_level: String,
    pub job: String,
    pub discord_name: String,
}

impl Model {
    /// A member that is not stored yet, and so has no id.
    pub fn new(
        username: String,
        password: String,
        job: String,
        gear_level: String,
        discord_name: String,
        is_mod: bool,
    ) -> (user: Self)
        ensures
            user.id == 0,
            user.username == username,
            user.password == password,
            user.is_mod == is_mod,
            user.gear_level == gear_level,
            user.job == job,
            user.discord_name == discord_name,
    {
        Model { id: 0, username, password, is_mod, gear_level, job, discord_name }
    }

    /// Stores what hashing a new password gave: the hash where there is
    /// one, and nothing where hashing failed.
    pub fn store_password(&mut self, hashed: Result<String, HashingError>) -> (stored: Result<
        (),
        HashingError,
    >)
        ensures
            match hashed {
                Ok(hash) => stored is Ok && final(self).password == hash,
                Err(error) => stored == Err::<(), HashingError>(error) && final(self).password == old(self).password,
            },
            final(self).id == old(self).id,
            final(self).username == old(self).username,
            final(self).is_mod == old(self).is_mod,
            final(self).gear_level == old(self).gear_level,
            final(self).job == old(self).job,
            final(self).discord_name == old(self).discord_name,
    {
        match hashed {
            Ok(hashed_password) => {
                self.password = hashed_password;
                Ok(())
            },
            Err(error) => Err(error),
        }
    }

    /// Replaces the stored hash by one of `plain_password`, made with the
    /// work factor `PASSWORD_COST`. Where hashing fails the member stays as
    /// it was. After a success the member's password is `plain_password`,
    /// and what is stored is not the password itself, unless the password
    /// has the very form of such a hash.
    pub fn set_password(&mut self, plain_password: &String) -> (stored: Result<(), HashingError>)
        ensures
            stored is Ok ==> bcrypt_verdict(plain_password@, final(self).password@) == Some(true),
            stored is Ok ==> carries_cost(final(self).password@, PASSWORD_COST),
            stored is Ok && !carries_cost(plain_password@, PASSWORD_COST)
                ==> final(self).password@ != plain_password@,
            stored is Err ==> final(self).password == old(self).password,
            !(stored matches Err(HashingError::CostNotAllowed(_))),
            final(self).id == old(self).id,
            final(self).username == old(self).username,
            final(self).is_mod == old(self).is_mod,
            final(self).gear_level == old(self).gear_level,
            final(self).job == old(self).job,
            final(self).discord_name == old(self).discord_name,
    {
        let hashed = bcrypt_hash(plain_password.as_str(), PASSWORD_COST);
        self.store_password(hashed)
    }

    /// Whether `password` is the member's password.
    pub fn validate_password(&self, password: String) -> (valid: bool)
        ensures
            valid == (bcrypt_verdict(password@, self.password@) == Some(true)),
    {
        accepts(bcrypt_verify(password.as_str(), self.password.as_str()))
    }

    /// The member without the password.
    pub fn to_web_user(&self) -> (web_user: WebUser)
        ensures
            web_user.id == self.id,
            web_user.username == self.username,
            web_user.is_mod == self.is_mod,
            web_user.gear_level == self.gear_level,
            web_user.job == self.job,
            web_user.discord_name == self.discord_name,
    {
        WebUser {
            id: self.id,
            username: self.username.clone(),
            is_mod: self.is_mod,
            gear_level: self.gear_level.clone(),
            job: self.job.clone(),
            discord_name: self.discord_name.clone(),
        }
    }
}

impl UpdateProfile {
    pub fn new(job: String, gear_level: String, discord_name: String) -> (profile: Self)
        ensures
            profile.job == job,
            profile.gear_level == gear_level,
            profile.discord_name == discord_name,
    {
        UpdateProfile { job, gear_level, discord_name }
    }
}

} // verus!
