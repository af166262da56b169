//! The values that can be chosen for a custom field.

use crate::text::{lemma_precedes_asymmetric, lemma_precedes_irreflexive, precedes};
use core::cmp::Ordering;
use vstd::prelude::*;
use vstd::std_specs::cmp::PartialOrdSpecImpl;

verus! {

/// `str::cmp`.
/// Assumed, as std documents it: text is ordered place by place by its
/// characters, and a text comes before every text it begins.
#[verifier::external_body]
fn text_order(a: &str, b: &str) -> (order: Ordering)
    ensures
        order is Less <==> precedes(a@, b@),
        order is Equal <==> a@ == b@,
        order is Greater <==> precedes(b@, a@),
{
    a.cmp(b)
}

/// One of the values that can be chosen for a field.
#[derive(Clone, Debug, Default, PartialEq, Eq)]
pub struct Model {
    pub id: i32,
    pub label: String,
    pub custom_character_field_id: i32,
}

impl Model {
    /// An option that is not stored yet, and so has no id.
    pub fn new(label: String, custom_character_field_id: i32) -> (option: Self)
        ensures
            option.id == 0,
            option.label == label,
            option.custom_character_field_id == custom_character_field_id,
    {
        Model { id: 0, label, custom_character_field_id }
    }

    /// Options are ordered by their labels.
    pub fn cmp(&self, other: &Self) -> (order: Ordering)
        ensures
            order is Less <==> precedes(self.label@, other.label@),
            order is Equal <==> self.label@ == other.label@,
            order is Greater <==> precedes(other.label@, self.label@),
    {
        text_order(self.label.as_str(), other.label.as_str())
    }
}

impl PartialOrd for Model {
    fn partial_cmp(&self, other: &Self) -> (order: Option<Ordering>) {
        proof {
            lemma_precedes_irreflexive(self.label@);
            if precedes(other.label@, self.label@) {
                lemma_precedes_asymmetric(other.label@, self.label@);
            }
        }
        Some(self.cmp(other))
    }
}

impl PartialOrdSpecImpl for Model {
    open spec fn obeys_partial_cmp_spec() -> bool {
        true
    }

    open spec fn partial_cmp_spec(&self, other: &Self) -> Option<Ordering> {
        if precedes(self.label@, other.label@) {
            Some(Ordering::Less)
        } else if self.label@ == other.label@ {
            Some(Ordering::Equal)
        } else {
            Some(Ordering::Greater)
        }
    }
}

} // verus!
