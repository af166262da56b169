//! The error value every fallible rule of the library reports.

use vstd::prelude::*;

verus! {

/// What went wrong, independent of the entity it went wrong for.
#[derive(Clone, Copy, Debug, PartialEq, Eq, Structural)]
pub enum ErrorType {
    NotFound,
    ExistsAlready,
    InvalidData,
    InsufficientRights,
    Database,
}

impl ErrorType {
    /// The HTTP status a response carrying this kind of error is sent with.
    pub open spec fn status(self) -> int {
        match self {
            ErrorType::NotFound => 404,
            ErrorType::ExistsAlready => 409,
            ErrorType::InvalidData => 400,
            ErrorType::InsufficientRights => 403,
            ErrorType::Database => 500,
        }
    }

    /// The name of the kind of error, as it is written into a report.
    pub open spec fn name(self) -> Seq<char> {
        match self {
            ErrorType::NotFound => "NotFound"@,
            ErrorType::ExistsAlready => "ExistsAlready"@,
            ErrorType::InvalidData => "InvalidData"@,
            ErrorType::InsufficientRights => "InsufficientRights"@,
            ErrorType::Database => "Database"@,
        }
    }

    pub fn to_string(&self) -> (name: String)
        ensures
            name@ == self.name(),
    {
        match self {
            ErrorType::NotFound => "NotFound",
            ErrorType::ExistsAlready => "ExistsAlready",
            ErrorType::InvalidData => "InvalidData",
            ErrorType::InsufficientRights => "InsufficientRights",
            ErrorType::Database => "Database",
        }.to_owned()
    }

    pub fn status_code(self) -> (code: u16)
        ensures
            code == self.status(),
    {
        match self {
            ErrorType::NotFound => 404,
            ErrorType::ExistsAlready => 409,
            ErrorType::InvalidData => 400,
            ErrorType::InsufficientRights => 403,
            ErrorType::Database => 500,
        }
    }
}

/// An error about one kind of entity, with a message meant for the user.
#[derive(Clone, Debug, PartialEq, Eq)]
pub struct BambooError {
    pub entity_type: String,
    pub error_type: ErrorType,
    pub message: String,
}

impl BambooError {
    /// The error as plain values: entity, kind and message.
    pub open spec fn describes(self, entity_type: Seq<char>, error_type: ErrorType, message: Seq<char>) -> bool {
        &&& self.entity_type@ == entity_type
        &&& self.error_type == error_type
        &&& self.message@ == message
    }

    pub fn new(entity_type: &str, error_type: ErrorType, message: &str) -> (err: Self)
        ensures
            err.describes(entity_type@, error_type, message@),
    {
        BambooError { entity_type: entity_type.to_owned(), error_type, message: message.to_owned() }
    }

    pub fn not_found(entity_type: &str, message: &str) -> (err: Self)
        ensures
            err.describes(entity_type@, ErrorType::NotFound, message@),
    {
        Self::new(entity_type, ErrorType::NotFound, message)
    }

    pub fn exists_already(entity_type: &str, message: &str) -> (err: Self)
        ensures
            err.describes(entity_type@, ErrorType::ExistsAlready, message@),
    {
        Self::new(entity_type, ErrorType::ExistsAlready, message)
    }

    pub fn invalid_data(entity_type: &str, message: &str) -> (err: Self)
        ensures
            err.describes(entity_type@, ErrorType::InvalidData, message@),
    {
        Self::new(entity_type, ErrorType::InvalidData, message)
    }

    pub fn insufficient_rights(entity_type: &str, message: &str) -> (err: Self)
        ensures
            err.describes(entity_type@, ErrorType::InsufficientRights, message@),
    {
        Self::new(entity_type, ErrorType::InsufficientRights, message)
    }

    pub fn database(entity_type: &str, message: &str) -> (err: Self)
        ensures
            err.describes(entity_type@, ErrorType::Database, message@),
    {
        Self::new(entity_type, ErrorType::Database, message)
    }

    /// The HTTP status this error is answered with.
    pub fn status_code(&self) -> (code: u16)
        ensures
            code == self.error_type.status(),
    {
        self.error_type.status_code()
    }
}

} // verus!
