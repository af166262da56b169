//! The crafters of a character and what the crafter page does with the
//! answers of the server.

use crate::api::{ErrorCode, CONFLICT, NOT_FOUND, NO_CONTENT};
use vstd::prelude::*;
use vstd::string::StringExecFns;

verus! {

/// A crafting job of a character and the level reached in it.
#[derive(Clone, Debug, Default, PartialEq, Eq)]
pub struct Crafter {
    pub id: i32,
    pub job: String,
    pub level: Option<String>,
    pub character_id: i32,
}

/// What the member is doing with the crafter that is shown.
#[derive(Clone, Copy, Debug, PartialEq, Eq, Structural)]
pub enum CrafterActions {
    Edit,
    Delete,
    Closed,
}

/// Where an error message is shown: in the form for editing, in an alert
/// after deleting, or nowhere.
#[derive(Clone, Copy, Debug, PartialEq, Eq, Structural)]
pub enum ErrorState {
    Edit,
    Delete,
    Nowhere,
}

/// The message for a crafter that could not be deleted.
pub open spec fn delete_failure_text(code: ErrorCode) -> Seq<char> {
    if code.0 == NOT_FOUND {
        "Der Crafter konnte nicht gefunden werden"@
    } else {
        "Der Crafter konnte nicht gelöscht werden, bitte wende dich an Azami"@
    }
}

/// The message for a crafter that could not be saved.
pub open spec fn save_failure_text(code: ErrorCode) -> Seq<char> {
    if code.0 == CONFLICT {
        "Ein Crafter mit diesem Job existiert bereits"@
    } else if code.0 == NOT_FOUND {
        "Der Crafter konnte nicht gefunden werden"@
    } else {
        "Der Crafter konnte nicht gespeichert werden, bitte wende dich an Azami"@
    }
}

/// The message for a crafter that could not be added.
pub open spec fn create_failure_text(code: ErrorCode) -> Seq<char> {
    if code.0 == CONFLICT {
        "Ein Crafter mit diesem Job existiert bereits"@
    } else {
        "Der Crafter konnte nicht hinzugefügt werden, bitte wende dich an Azami"@
    }
}

/// The place of the first crafter with this job, if there is one.
pub open spec fn position_of(crafters: Seq<Crafter>, job: Seq<char>) -> Option<int>
    decreases crafters.len(),
{
    if crafters.len() == 0 {
        None
    } else {
        let earlier = position_of(crafters.drop_last(), job);
        if earlier is Some {
            earlier
        } else if crafters.last().job@ == job {
            Some(crafters.len() - 1)
        } else {
            None
        }
    }
}

/// What to show after deleting failed: the message goes into the alert.
pub fn delete_failure(code: ErrorCode) -> (shown: (ErrorState, String))
    ensures
        shown.0 == ErrorState::Delete,
        shown.1@ == delete_failure_text(code),
{
    if code.0 == NOT_FOUND {
        (ErrorState::Delete, String::from_str("Der Crafter konnte nicht gefunden werden"))
    } else {
        (
            ErrorState::Delete,
            String::from_str("Der Crafter konnte nicht gelöscht werden, bitte wende dich an Azami"),
        )
    }
}

/// What to show after saving failed. A conflict and a missing crafter are
/// reported in the form; for anything else the form shows no error.
pub fn save_failure(code: ErrorCode) -> (shown: (ErrorState, String))
    ensures
        shown.0 == if code.0 == CONFLICT || code.0 == NOT_FOUND {
            ErrorState::Edit
        } else {
            ErrorState::Nowhere
        },
        shown.1@ == save_failure_text(code),
{
    if code.0 == CONFLICT {
        (ErrorState::Edit, String::from_str("Ein Crafter mit diesem Job existiert bereits"))
    } else if code.0 == NOT_FOUND {
        (ErrorState::Edit, String::from_str("Der Crafter konnte nicht gefunden werden"))
    } else {
        (
            ErrorState::Nowhere,
            String::from_str(
                "Der Crafter konnte nicht gespeichert werden, bitte wende dich an Azami",
            ),
        )
    }
}

/// What to show after a delete that is answered by a bare code: nothing
/// where the code says that the crafter is gone.
pub fn delete_answer(code: ErrorCode) -> (shown: (ErrorState, Option<String>))
    ensures
        shown.0 == if code.0 == NO_CONTENT {
            ErrorState::Nowhere
        } else {
            ErrorState::Delete
        },
        shown.1 is None <==> code.0 == NO_CONTENT,
        shown.1 matches Some(message) ==> message@ == delete_failure_text(code),
{
    if code.0 == NO_CONTENT {
        (ErrorState::Nowhere, None)
    } else {
        let (state, message) = delete_failure(code);
        (state, Some(message))
    }
}

/// What to show after a save that is answered by a bare code. The form
/// stays in its error state after a success too, only without a message.
pub fn save_answer(code: ErrorCode) -> (shown: (ErrorState, Option<String>))
    ensures
        shown.0 == if code.0 == NO_CONTENT || code.0 == CONFLICT || code.0 == NOT_FOUND {
            ErrorState::Edit
        } else {
            ErrorState::Nowhere
        },
        shown.1 is None <==> code.0 == NO_CONTENT,
        shown.1 matches Some(message) ==> message@ == save_failure_text(code),
{
    if code.0 == NO_CONTENT {
        (ErrorState::Edit, None)
    } else {
        let (state, message) = save_failure(code);
        (state, Some(message))
    }
}

/// The message to show after adding a crafter failed.
pub fn create_failure(code: ErrorCode) -> (message: String)
    ensures
        message@ == create_failure_text(code),
{
    if code.0 == CONFLICT {
        String::from_str("Ein Crafter mit diesem Job existiert bereits")
    } else {
        String::from_str("Der Crafter konnte nicht hinzugefügt werden, bitte wende dich an Azami")
    }
}

/// Which crafter to select after one with this job was added: the first
/// with the job, or the first of all where none has it.
pub fn created_index(crafters: &Vec<Crafter>, job: &String) -> (index: usize)
    ensures
        index == match position_of(crafters@, job@) {
            Some(position) => position,
            None => 0,
        },
{
    let mut index: usize = 0;
    while index < crafters.len()
        invariant
            index <= crafters.len(),
            position_of(crafters@.subrange(0, index as int), job@) is None,
        decreases crafters.len() - index,
    {
        proof {
            let next = crafters@.subrange(0, index + 1);
            assert(next.drop_last() =~= crafters@.subrange(0, index as int));
            assert(next.last() == crafters@[index as int]);
        }
        if crafters[index].job == *job {
            proof {
                lemma_position_stays(crafters@, job@, index + 1);
            }
            return index;
        }
        index = index + 1;
    }
    proof {
        assert(crafters@.subrange(0, index as int) =~= crafters@);
    }
    0
}

/// Once a crafter with the job is found among the first `count`, looking
/// at more crafters does not change which one is found.
proof fn lemma_position_stays(crafters: Seq<Crafter>, job: Seq<char>, count: int)
    requires
        0 <= count <= crafters.len(),
        position_of(crafters.subrange(0, count), job) is Some,
    ensures
        position_of(crafters, job) == position_of(crafters.subrange(0, count), job),
    decreases crafters.len() - count,
{
    if count < crafters.len() {
        let next = crafters.subrange(0, count + 1);
        assert(next.drop_last() =~= crafters.subrange(0, count));
        lemma_position_stays(crafters, job, count + 1);
    } else {
        assert(crafters.subrange(0, count) =~= crafters);
    }
}

/// How the level of a crafter is shown.
pub fn level_text(level: &Option<String>) -> (text: String)
    ensures
        text@ == match *level {
            Some(level) => level@,
            None => "Kein Level festgelegt"@,
        },
{
    match level {
        Some(level) => level.clone(),
        None => String::from_str("Kein Level festgelegt"),
    }
}

/// The title of the form in which a crafter is edited.
pub fn edit_title(job: &str) -> (title: String)
    ensures
        title@ == "Crafter "@ + job@ + " bearbeiten"@,
{
    String::from_str("Crafter ").concat(job).concat(" bearbeiten")
}

/// The question asked before a crafter is deleted. A crafter without a
/// level is asked about with the level left empty.
pub fn delete_question(crafter: &Crafter) -> (question: String)
    ensures
        question@ == "Soll der Crafter "@ + crafter.job@ + " auf Level "@ + (match crafter.level {
            Some(level) => level@,
            None => Seq::empty(),
        }) + " wirklich gelöscht werden?"@,
{
    let begun = String::from_str("Soll der Crafter ").concat(crafter.job.as_str()).concat(
        " auf Level ",
    );
    let ghost begun_text = begun@;
    let with_level = match &crafter.level {
        Some(level) => begun.concat(level.as_str()),
        None => begun,
    };
    proof {
        if crafter.level is None {
            assert(with_level@ =~= begun_text + Seq::<char>::empty());
        }
    }
    with_level.concat(" wirklich gelöscht werden?")
}

} // verus!
