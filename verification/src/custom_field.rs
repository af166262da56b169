//! What the server checks before it touches a custom field.

use crate::error::{BambooError, ErrorType};
use vstd::prelude::*;

verus! {

/// The field a request is about.
#[derive(Clone, Copy, Debug, PartialEq, Eq, Structural)]
pub struct CustomFieldPath {
    pub id: i32,
}

/// The option of a field a request is about.
#[derive(Clone, Copy, Debug, PartialEq, Eq, Structural)]
pub struct CustomFieldOptionPath {
    pub id: i32,
    pub field_id: i32,
}

/// The field a request moves, and the place it moves to.
#[derive(Clone, Copy, Debug, PartialEq, Eq, Structural)]
pub struct CustomFieldOptionPositionPath {
    pub field_id: i32,
    pub position: i32,
}

/// A request about a field goes on only where the member has that field.
pub fn require_custom_field(exists: bool) -> (checked: Result<(), BambooError>)
    ensures
        checked is Ok <==> exists,
        checked matches Err(error) ==> error.describes(
            "custom_field"@,
            ErrorType::NotFound,
            "The custom field was not found"@,
        ),
{
    if exists {
        Ok(())
    } else {
        Err(BambooError::not_found("custom_field", "The custom field was not found"))
    }
}

/// A field is created only where the member has none with its label yet.
pub fn require_new_label(exists: bool) -> (checked: Result<(), BambooError>)
    ensures
        checked is Ok <==> !exists,
        checked matches Err(error) ==> error.describes(
            "custom_field"@,
            ErrorType::ExistsAlready,
            "The custom field already exists"@,
        ),
{
    if exists {
        Err(BambooError::exists_already("custom_field", "The custom field already exists"))
    } else {
        Ok(())
    }
}

} // verus!
