//! What becomes of the answers of the database. Asking the database is the
//! caller's business; what its answers mean, and which error a member gets
//! to see, is decided here. The database's own error is of no interest
//! beyond being logged, so its type is left open.

use crate::character_housing::Model as CharacterHousing;
use crate::crafter::Crafter;
use crate::error::{BambooError, ErrorType};
use vstd::prelude::*;

verus! {

/// The housing that was asked for: an empty answer means there is none.
pub fn get_character_housing<E>(answer: Result<Option<CharacterHousing>, E>) -> (housing: Result<
    CharacterHousing,
    BambooError,
>)
    ensures
        match answer {
            Ok(Some(found)) => housing == Ok::<CharacterHousing, BambooError>(found),
            Ok(None) => housing matches Err(error) && error.describes(
                "character_housing"@,
                ErrorType::NotFound,
                "The character housing was not found"@,
            ),
            Err(_) => housing matches Err(error) && error.describes(
                "character_housing"@,
                ErrorType::Database,
                "Failed to load character housing"@,
            ),
        },
{
    match answer {
        Ok(Some(found)) => Ok(found),
        Ok(None) => Err(
            BambooError::not_found("character_housing", "The character housing was not found"),
        ),
        Err(_) => Err(
            BambooError::database("character_housing", "Failed to load character housing"),
        ),
    }
}

/// The housings of a character, as the database listed them.
pub fn get_character_housings<E>(answer: Result<Vec<CharacterHousing>, E>) -> (housings: Result<
    Vec<CharacterHousing>,
    BambooError,
>)
    ensures
        match answer {
            Ok(found) => housings == Ok::<Vec<CharacterHousing>, BambooError>(found),
            Err(_) => housings matches Err(error) && error.describes(
                "character_housing"@,
                ErrorType::Database,
                "Failed to load character housings"@,
            ),
        },
{
    match answer {
        Ok(found) => Ok(found),
        Err(_) => Err(
            BambooError::database("character_housing", "Failed to load character housings"),
        ),
    }
}

/// Whether an address is taken, from the number of housings counted at it.
pub fn character_housing_exists<E>(counted: Result<u64, E>) -> (exists: Result<bool, BambooError>)
    ensures
        match counted {
            Ok(count) => exists == Ok::<bool, BambooError>(count > 0),
            Err(_) => exists matches Err(error) && error.describes(
                "character_housing"@,
                ErrorType::Database,
                "Failed to load the character housings"@,
            ),
        },
{
    match counted {
        Ok(count) => Ok(count > 0),
        Err(_) => Err(
            BambooError::database("character_housing", "Failed to load the character housings"),
        ),
    }
}

/// A housing is stored only at an address that is not taken.
pub fn require_free_address(taken: bool) -> (checked: Result<(), BambooError>)
    ensures
        checked is Ok <==> !taken,
        checked matches Err(error) ==> error.describes(
            "character_housing"@,
            ErrorType::ExistsAlready,
            "A character housing with that address exists already"@,
        ),
{
    if taken {
        Err(
            BambooError::exists_already(
                "character_housing",
                "A character housing with that address exists already",
            ),
        )
    } else {
        Ok(())
    }
}

/// The housing to insert for a character: what was sent, for that
/// character, and without an id of its own.
pub open spec fn new_housing_row(character_id: i32, housing: CharacterHousing) -> CharacterHousing {
    CharacterHousing { id: 0, character_id, ..housing }
}

/// The housing to store in place of `stored`: the address and the kind
/// that were sent, for the character and under the id it had.
pub open spec fn changed_housing_row(
    stored: CharacterHousing,
    housing: CharacterHousing,
) -> CharacterHousing {
    CharacterHousing { id: stored.id, character_id: stored.character_id, ..housing }
}

/// What becomes of a new housing once the housings at its address are
/// counted: the row to insert, where the count came and found none; an
/// error, and so nothing to insert, where the address is taken or the count
/// failed.
pub fn create_character_housing<E>(
    counted: Result<u64, E>,
    character_id: i32,
    housing: CharacterHousing,
) -> (inserted: Result<CharacterHousing, BambooError>)
    ensures
        match counted {
            Ok(count) => if count > 0 {
                inserted matches Err(error) && error.describes(
                    "character_housing"@,
                    ErrorType::ExistsAlready,
                    "A character housing with that address exists already"@,
                )
            } else {
                inserted == Ok::<CharacterHousing, BambooError>(
                    new_housing_row(character_id, housing),
                )
            },
            Err(_) => inserted matches Err(error) && error.describes(
                "character_housing"@,
                ErrorType::Database,
                "Failed to load the character housings"@,
            ),
        },
{
    match character_housing_exists(counted) {
        Err(error) => Err(error),
        Ok(taken) => match require_free_address(taken) {
            Err(error) => Err(error),
            Ok(()) => Ok(CharacterHousing { id: 0, character_id, ..housing }),
        },
    }
}

/// Where the update of a housing stands: what is asked of the database
/// next, or how the update ended.
#[derive(Debug, PartialEq, Eq)]
pub enum HousingUpdate {
    /// Count the other housings of the character at the new address.
    CountOthers,
    /// Load the housing as it is stored.
    Load,
    /// Write this row in place of the stored one.
    Write(CharacterHousing),
    /// Nothing more is asked.
    Done(Result<(), BambooError>),
}

/// What the database answered.
pub enum Answer<E> {
    Counted(Result<u64, E>),
    Loaded(Result<Option<CharacterHousing>, E>),
    Written(Result<(), E>),
}

/// The next step of the update of a housing to what was sent as `housing`.
/// It begins with `CountOthers`. A taken address ends it before anything is
/// loaded, a housing that is not found ends it before anything is written,
/// and no state but `Write` has a row to write. An answer to what was not
/// asked changes nothing.
pub fn update_character_housing<E>(
    state: HousingUpdate,
    answer: Answer<E>,
    housing: CharacterHousing,
) -> (next: HousingUpdate)
    ensures
        match (state, answer) {
            (HousingUpdate::CountOthers, Answer::Counted(Ok(count))) => if count > 0 {
                next matches HousingUpdate::Done(Err(error)) && error.describes(
                    "character_housing"@,
                    ErrorType::ExistsAlready,
                    "A character housing with that address exists already"@,
                )
            } else {
                next == HousingUpdate::Load
            },
            (HousingUpdate::CountOthers, Answer::Counted(Err(_))) => next matches HousingUpdate::Done(
                Err(error),
            ) && error.describes(
                "character_housing"@,
                ErrorType::Database,
                "Failed to load the character housings"@,
            ),
            (HousingUpdate::Load, Answer::Loaded(Ok(Some(stored)))) => next == HousingUpdate::Write(
                changed_housing_row(stored, housing),
            ),
            (HousingUpdate::Load, Answer::Loaded(Ok(None))) => next matches HousingUpdate::Done(
                Err(error),
            ) && error.describes(
                "character_housing"@,
                ErrorType::NotFound,
                "The character housing was not found"@,
            ),
            (HousingUpdate::Load, Answer::Loaded(Err(_))) => next matches HousingUpdate::Done(
                Err(error),
            ) && error.describes(
                "character_housing"@,
                ErrorType::Database,
                "Failed to load character housing"@,
            ),
            (HousingUpdate::Write(_), Answer::Written(Ok(_))) => next == HousingUpdate::Done(Ok(())),
            (HousingUpdate::Write(_), Answer::Written(Err(_))) => next matches HousingUpdate::Done(
                Err(error),
            ) && error.describes(
                "character_housing"@,
                ErrorType::Database,
                "Failed to update housing"@,
            ),
            _ => next == state,
        },
{
    match (state, answer) {
        (HousingUpdate::CountOthers, Answer::Counted(counted)) => {
            match character_housing_exists(counted) {
                Err(error) => HousingUpdate::Done(Err(error)),
                Ok(taken) => match require_free_address(taken) {
                    Err(error) => HousingUpdate::Done(Err(error)),
                    Ok(()) => HousingUpdate::Load,
                },
            }
        },
        (HousingUpdate::Load, Answer::Loaded(loaded)) => match get_character_housing(loaded) {
            Err(error) => HousingUpdate::Done(Err(error)),
            Ok(stored) => HousingUpdate::Write(
                CharacterHousing {
                    district: housing.district,
                    housing_type: housing.housing_type,
                    ward: housing.ward,
                    plot: housing.plot,
                    ..stored
                },
            ),
        },
        (HousingUpdate::Write(_), Answer::Written(written)) => match written {
            Ok(_) => HousingUpdate::Done(Ok(())),
            Err(_) => HousingUpdate::Done(Err(character_housing_not_written(Attempt::Update))),
        },
        (state, _) => state,
    }
}

/// The housing to remove: the one that was loaded. Where none was found,
/// or loading failed, there is nothing to remove.
pub fn delete_character_housing<E>(loaded: Result<Option<CharacterHousing>, E>) -> (removed:
    Result<CharacterHousing, BambooError>)
    ensures
        match loaded {
            Ok(Some(found)) => removed == Ok::<CharacterHousing, BambooError>(found),
            Ok(None) => removed matches Err(error) && error.describes(
                "character_housing"@,
                ErrorType::NotFound,
                "The character housing was not found"@,
            ),
            Err(_) => removed matches Err(error) && error.describes(
                "character_housing"@,
                ErrorType::Database,
                "Failed to load character housing"@,
            ),
        },
{
    get_character_housing(loaded)
}

/// What is reported where a housing could not be written or removed.
pub fn character_housing_not_written(attempt: Attempt) -> (error: BambooError)
    ensures
        error.describes(
            "character_housing"@,
            ErrorType::Database,
            match attempt {
                Attempt::Create => "Failed to create character housing"@,
                Attempt::Update => "Failed to update housing"@,
                Attempt::Delete => "Failed to delete character housing"@,
            },
        ),
{
    match attempt {
        Attempt::Create => BambooError::database(
            "character_housing",
            "Failed to create character housing",
        ),
        Attempt::Update => BambooError::database("character_housing", "Failed to update housing"),
        Attempt::Delete => BambooError::database(
            "character_housing",
            "Failed to delete character housing",
        ),
    }
}

/// What was tried on the database.
#[derive(Clone, Copy, Debug, PartialEq, Eq, Structural)]
pub enum Attempt {
    Create,
    Update,
    Delete,
}

/// The crafter that was asked for: an empty answer means there is none.
pub fn get_crafter<E>(answer: Result<Option<Crafter>, E>) -> (crafter: Result<Crafter, BambooError>)
    ensures
        match answer {
            Ok(Some(found)) => crafter == Ok::<Crafter, BambooError>(found),
            Ok(None) => crafter matches Err(error) && error.describes(
                "crafter"@,
                ErrorType::NotFound,
                "The crafter was not found"@,
            ),
            Err(_) => crafter matches Err(error) && error.describes(
                "crafter"@,
                ErrorType::Database,
                "Failed to execute database query"@,
            ),
        },
{
    match answer {
        Ok(Some(found)) => Ok(found),
        Ok(None) => Err(BambooError::not_found("crafter", "The crafter was not found")),
        Err(_) => Err(BambooError::database("crafter", "Failed to execute database query")),
    }
}

/// The crafters of a character, as the database listed them.
pub fn get_crafters<E>(answer: Result<Vec<Crafter>, E>) -> (crafters: Result<
    Vec<Crafter>,
    BambooError,
>)
    ensures
        match answer {
            Ok(found) => crafters == Ok::<Vec<Crafter>, BambooError>(found),
            Err(_) => crafters matches Err(error) && error.describes(
                "crafter"@,
                ErrorType::Database,
                "Failed to load crafters"@,
            ),
        },
{
    match answer {
        Ok(found) => Ok(found),
        Err(_) => Err(BambooError::database("crafter", "Failed to load crafters")),
    }
}

/// Whether a crafter exists, from the number counted: a failed count is
/// taken as none.
pub fn crafter_exists<E>(counted: Result<u64, E>) -> (exists: bool)
    ensures
        exists == (counted matches Ok(count) && count > 0),
{
    match counted {
        Ok(count) => count > 0,
        Err(_) => false,
    }
}

/// Whether the character has a crafter of a job, from the number counted:
/// a failed count is taken as none.
pub fn crafter_exists_by_job<E>(counted: Result<u64, E>) -> (exists: bool)
    ensures
        exists == (counted matches Ok(count) && count > 0),
{
    crafter_exists(counted)
}

/// What changes of a stored crafter when it is updated: the level alone.
pub fn update_crafter(stored: Crafter, crafter: Crafter) -> (updated: Crafter)
    ensures
        updated == (Crafter { level: crafter.level, ..stored }),
{
    Crafter { level: crafter.level, ..stored }
}

/// A crafter is stored only for a character that exists.
pub fn require_character(exists: bool) -> (checked: Result<(), BambooError>)
    ensures
        checked is Ok <==> exists,
        checked matches Err(error) ==> error.describes(
            "crafter"@,
            ErrorType::NotFound,
            "The character does not exist"@,
        ),
{
    if exists {
        Ok(())
    } else {
        Err(BambooError::not_found("crafter", "The character does not exist"))
    }
}

/// What becomes of a new crafter once it is known whether its character
/// exists: the row to insert, what was sent for that character and without
/// an id of its own; or an error, and so nothing to insert, where the
/// character does not exist.
pub fn create_crafter(character_exists: bool, character_id: i32, crafter: Crafter) -> (inserted:
    Result<Crafter, BambooError>)
    ensures
        if character_exists {
            inserted == Ok::<Crafter, BambooError>(Crafter { id: 0, character_id, ..crafter })
        } else {
            inserted matches Err(error) && error.describes(
                "crafter"@,
                ErrorType::NotFound,
                "The character does not exist"@,
            )
        },
{
    match require_character(character_exists) {
        Err(error) => Err(error),
        Ok(()) => Ok(Crafter { id: 0, character_id, ..crafter }),
    }
}

/// What is reported where a crafter could not be written or removed.
pub fn crafter_not_written(attempt: Attempt) -> (error: BambooError)
    ensures
        error.describes(
            "crafter"@,
            ErrorType::Database,
            match attempt {
                Attempt::Create => "Failed to create crafter"@,
                Attempt::Update => "Failed to update crafter"@,
                Attempt::Delete => "Failed to delete crafter"@,
            },
        ),
{
    match attempt {
        Attempt::Create => BambooError::database("crafter", "Failed to create crafter"),
        Attempt::Update => BambooError::database("crafter", "Failed to update crafter"),
        Attempt::Delete => BambooError::database("crafter", "Failed to delete crafter"),
    }
}

} // verus!
