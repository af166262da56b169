//! Fields a member adds to the profile of their characters, each with the
//! options that can be chosen for it.

use crate::custom_character_field_option::Model as CustomCharacterFieldOption;
use core::cmp::Ordering;
use std::collections::BTreeSet;
use vstd::prelude::*;
use vstd::std_specs::cmp::PartialOrdSpecImpl;

verus! {

/// A field as a member enters it: its label, the values to choose from and
/// its place among the member's fields.
#[derive(Clone, Debug, Default, PartialEq, Eq)]
pub struct CustomField {
    pub values: BTreeSet<String>,
    pub label: String,
    pub position: usize,
}

/// A field as stored, with its options.
#[derive(Clone, Debug, Default, PartialEq, Eq)]
pub struct Model {
    pub id: i32,
    pub label: String,
    pub user_id: i32,
    pub position: i32,
    pub options: Vec<CustomCharacterFieldOption>,
}

impl Model {
    /// A field that is not stored yet: it has no id, no owner, and stands
    /// first.
    pub fn new(label: String, options: Vec<CustomCharacterFieldOption>) -> (field: Self)
        ensures
            field.id == 0,
            field.label == label,
            field.user_id == 0,
            field.position == 0,
            field.options == options,
    {
        Model { id: 0, label, user_id: 0, options, position: 0 }
    }

    /// Fields are ordered by their position.
    pub fn cmp(&self, other: &Self) -> (order: Ordering)
        ensures
            order is Less <==> self.position < other.position,
            order is Equal <==> self.position == other.position,
            order is Greater <==> self.position > other.position,
    {
        if self.position < other.position {
            Ordering::Less
        } else if self.position == other.position {
            Ordering::Equal
        } else {
            Ordering::Greater
        }
    }
}

impl PartialOrd for Model {
    fn partial_cmp(&self, other: &Self) -> (order: Option<Ordering>) {
        Some(self.cmp(other))
    }
}

impl PartialOrdSpecImpl for Model {
    open spec fn obeys_partial_cmp_spec() -> bool {
        true
    }

    open spec fn partial_cmp_spec(&self, other: &Self) -> Option<Ordering> {
        if self.position < other.position {
            Some(Ordering::Less)
        } else if self.position == other.position {
            Some(Ordering::Equal)
        } else {
            Some(Ordering::Greater)
        }
    }
}

} // verus!
