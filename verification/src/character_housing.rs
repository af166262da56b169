//! Where a character lives: the district, the kind of housing, the ward and
//! the plot.

use crate::text::{lemma_precedes_asymmetric, lemma_precedes_irreflexive, precedes};
use core::cmp::Ordering;
use vstd::prelude::*;
use vstd::std_specs::cmp::PartialOrdSpecImpl;

verus! {

/// A residential district.
#[derive(Clone, Copy, Debug, PartialEq, Eq, Structural)]
pub enum HousingDistrict {
    TheLavenderBeds,
    Mist,
    TheGoblet,
    Shirogane,
    Empyreum,
}

impl HousingDistrict {
    /// The name the district is stored and sent under.
    pub open spec fn name(self) -> Seq<char> {
        match self {
            HousingDistrict::TheLavenderBeds => "the_lavender_beds"@,
            HousingDistrict::Mist => "mist"@,
            HousingDistrict::TheGoblet => "the_goblet"@,
            HousingDistrict::Shirogane => "shirogane"@,
            HousingDistrict::Empyreum => "empyreum"@,
        }
    }

    /// The name the district is shown under.
    pub open spec fn label(self) -> Seq<char> {
        match self {
            HousingDistrict::TheLavenderBeds => "Lavendelbeete"@,
            HousingDistrict::Mist => "Dorf des Nebels"@,
            HousingDistrict::TheGoblet => "Kelchkuppe"@,
            HousingDistrict::Shirogane => "Shirogane"@,
            HousingDistrict::Empyreum => "Empyreum"@,
        }
    }

    /// The district stored under `name`, if there is one.
    pub open spec fn named(name: Seq<char>) -> Option<HousingDistrict> {
        if name == "the_lavender_beds"@ {
            Some(HousingDistrict::TheLavenderBeds)
        } else if name == "mist"@ {
            Some(HousingDistrict::Mist)
        } else if name == "the_goblet"@ {
            Some(HousingDistrict::TheGoblet)
        } else if name == "shirogane"@ {
            Some(HousingDistrict::Shirogane)
        } else if name == "empyreum"@ {
            Some(HousingDistrict::Empyreum)
        } else {
            None
        }
    }

    /// The place of the district among all districts when they are put in
    /// the order of their names.
    pub open spec fn rank(self) -> int {
        match self {
            HousingDistrict::Empyreum => 0,
            HousingDistrict::Mist => 1,
            HousingDistrict::Shirogane => 2,
            HousingDistrict::TheGoblet => 3,
            HousingDistrict::TheLavenderBeds => 4,
        }
    }

    pub fn get_name(self) -> (name: String)
        ensures
            name@ == self.name(),
    {
        match self {
            HousingDistrict::TheLavenderBeds => "the_lavender_beds",
            HousingDistrict::Mist => "mist",
            HousingDistrict::TheGoblet => "the_goblet",
            HousingDistrict::Shirogane => "shirogane",
            HousingDistrict::Empyreum => "empyreum",
        }.to_owned()
    }

    pub fn to_string(&self) -> (label: String)
        ensures
            label@ == self.label(),
    {
        match self {
            HousingDistrict::TheLavenderBeds => "Lavendelbeete",
            HousingDistrict::Mist => "Dorf des Nebels",
            HousingDistrict::TheGoblet => "Kelchkuppe",
            HousingDistrict::Shirogane => "Shirogane",
            HousingDistrict::Empyreum => "Empyreum",
        }.to_owned()
    }

    /// The district stored under `value`, or nothing where `value` is no
    /// district's name.
    pub fn from_name(value: &String) -> (district: Option<Self>)
        ensures
            district == Self::named(value@),
    {
        if *value == "the_lavender_beds".to_owned() {
            Some(HousingDistrict::TheLavenderBeds)
        } else if *value == "mist".to_owned() {
            Some(HousingDistrict::Mist)
        } else if *value == "the_goblet".to_owned() {
            Some(HousingDistrict::TheGoblet)
        } else if *value == "shirogane".to_owned() {
            Some(HousingDistrict::Shirogane)
        } else if *value == "empyreum".to_owned() {
            Some(HousingDistrict::Empyreum)
        } else {
            None
        }
    }

    /// The district stored under `value`, which must be a district's name.
    pub fn from(value: String) -> (district: Self)
        requires
            Self::named(value@) is Some,
        ensures
            Self::named(value@) == Some(district),
    {
        match Self::from_name(&value) {
            Some(district) => district,
            None => HousingDistrict::TheLavenderBeds,
        }
    }

    fn position(self) -> (rank: u8)
        ensures
            rank == self.rank(),
    {
        match self {
            HousingDistrict::Empyreum => 0,
            HousingDistrict::Mist => 1,
            HousingDistrict::Shirogane => 2,
            HousingDistrict::TheGoblet => 3,
            HousingDistrict::TheLavenderBeds => 4,
        }
    }

    /// Districts are ordered as their names are.
    pub fn cmp(&self, other: &Self) -> (order: Ordering)
        ensures
            order is Less <==> precedes(self.name(), other.name()),
            order is Equal <==> *self == *other,
            order is Greater <==> precedes(other.name(), self.name()),
    {
        proof {
            lemma_district_rank_orders_names(*self, *other);
            lemma_district_rank_orders_names(*other, *self);
        }
        let mine = self.position();
        let theirs = other.position();
        if mine < theirs {
            Ordering::Less
        } else if mine == theirs {
            Ordering::Equal
        } else {
            Ordering::Greater
        }
    }
}

impl PartialOrd for HousingDistrict {
    fn partial_cmp(&self, other: &Self) -> (order: Option<Ordering>) {
        proof {
            lemma_precedes_irreflexive(self.name());
            if precedes(other.name(), self.name()) {
                lemma_precedes_asymmetric(other.name(), self.name());
            }
        }
        Some(self.cmp(other))
    }
}

impl PartialOrdSpecImpl for HousingDistrict {
    open spec fn obeys_partial_cmp_spec() -> bool {
        true
    }

    open spec fn partial_cmp_spec(&self, other: &Self) -> Option<Ordering> {
        if precedes(self.name(), other.name()) {
            Some(Ordering::Less)
        } else if *self == *other {
            Some(Ordering::Equal)
        } else {
            Some(Ordering::Greater)
        }
    }
}

/// The rank of a district says where its name stands among the names: a
/// district has the smaller rank exactly when its name comes first.
pub proof fn lemma_district_rank_orders_names(a: HousingDistrict, b: HousingDistrict)
    ensures
        a.rank() < b.rank() <==> precedes(a.name(), b.name()),
        a.rank() == b.rank() <==> a == b,
{
    reveal_strlit("the_lavender_beds");
    reveal_strlit("mist");
    reveal_strlit("the_goblet");
    reveal_strlit("shirogane");
    reveal_strlit("empyreum");
    reveal_with_fuel(precedes, 6);
    if a.rank() < b.rank() {
        assert(precedes(a.name(), b.name()));
    } else if a.rank() > b.rank() {
        assert(precedes(b.name(), a.name()));
        lemma_precedes_asymmetric(b.name(), a.name());
    } else {
        lemma_precedes_irreflexive(a.name());
    }
}

/// Every district is found again under its own name.
pub proof fn lemma_district_found_by_name(district: HousingDistrict)
    ensures
        HousingDistrict::named(district.name()) == Some(district),
{
    reveal_strlit("the_lavender_beds");
    reveal_strlit("mist");
    reveal_strlit("the_goblet");
    reveal_strlit("shirogane");
    reveal_strlit("empyreum");
    assert("the_lavender_beds"@.len() == 17);
    assert("mist"@.len() == 4);
    assert("the_goblet"@.len() == 10);
    assert("shirogane"@.len() == 9);
    assert("empyreum"@.len() == 8);
}

/// The kind of housing.
#[derive(Clone, Copy, Debug, PartialEq, Eq, Structural)]
pub enum HousingType {
    Private,
    FreeCompany,
    SharedApartment,
}

impl HousingType {
    /// The name the kind of housing is stored and sent under.
    pub open spec fn name(self) -> Seq<char> {
        match self {
            HousingType::Private => "private"@,
            HousingType::FreeCompany => "free_company"@,
            HousingType::SharedApartment => "shared_appartment"@,
        }
    }

    /// The name the kind of housing is shown under.
    pub open spec fn label(self) -> Seq<char> {
        match self {
            HousingType::Private => "Private Unterkunft"@,
            HousingType::FreeCompany => "Unterkunft einer Freien Gesellschaft"@,
            HousingType::SharedApartment => "Wohngemeinschaft"@,
        }
    }

    /// The kind of housing stored under `name`, if there is one.
    pub open spec fn named(name: Seq<char>) -> Option<HousingType> {
        if name == "private"@ {
            Some(HousingType::Private)
        } else if name == "free_company"@ {
            Some(HousingType::FreeCompany)
        } else if name == "shared_appartment"@ {
            Some(HousingType::SharedApartment)
        } else {
            None
        }
    }

    /// The place of the kind of housing among all kinds when they are put in
    /// the order of their names.
    pub open spec fn rank(self) -> int {
        match self {
            HousingType::FreeCompany => 0,
            HousingType::Private => 1,
            HousingType::SharedApartment => 2,
        }
    }

    pub fn get_name(self) -> (name: String)
        ensures
            name@ == self.name(),
    {
        match self {
            HousingType::Private => "private",
            HousingType::FreeCompany => "free_company",
            HousingType::SharedApartment => "shared_appartment",
        }.to_owned()
    }

    pub fn to_string(&self) -> (label: String)
        ensures
            label@ == self.label(),
    {
        match self {
            HousingType::Private => "Private Unterkunft",
            HousingType::FreeCompany => "Unterkunft einer Freien Gesellschaft",
            HousingType::SharedApartment => "Wohngemeinschaft",
        }.to_owned()
    }

    /// The kind of housing stored under `value`, or nothing where `value`
    /// is no kind's name.
    pub fn from_name(value: &String) -> (housing_type: Option<Self>)
        ensures
            housing_type == Self::named(value@),
    {
        if *value == "private".to_owned() {
            Some(HousingType::Private)
        } else if *value == "free_company".to_owned() {
            Some(HousingType::FreeCompany)
        } else if *value == "shared_appartment".to_owned() {
            Some(HousingType::SharedApartment)
        } else {
            None
        }
    }

    /// The kind of housing stored under `value`, which must be a kind's
    /// name.
    pub fn from(value: String) -> (housing_type: Self)
        requires
            Self::named(value@) is Some,
        ensures
            Self::named(value@) == Some(housing_type),
    {
        match Self::from_name(&value) {
            Some(housing_type) => housing_type,
            None => HousingType::Private,
        }
    }

    fn position(self) -> (rank: u8)
        ensures
            rank == self.rank(),
    {
        match self {
            HousingType::FreeCompany => 0,
            HousingType::Private => 1,
            HousingType::SharedApartment => 2,
        }
    }

    /// Kinds of housing are ordered as their names are.
    pub fn cmp(&self, other: &Self) -> (order: Ordering)
        ensures
            order is Less <==> precedes(self.name(), other.name()),
            order is Equal <==> *self == *other,
            order is Greater <==> precedes(other.name(), self.name()),
    {
        proof {
            lemma_type_rank_orders_names(*self, *other);
            lemma_type_rank_orders_names(*other, *self);
        }
        let mine = self.position();
        let theirs = other.position();
        if mine < theirs {
            Ordering::Less
        } else if mine == theirs {
            Ordering::Equal
        } else {
            Ordering::Greater
        }
    }
}

impl PartialOrd for HousingType {
    fn partial_cmp(&self, other: &Self) -> (order: Option<Ordering>) {
        proof {
            lemma_precedes_irreflexive(self.name());
            if precedes(other.name(), self.name()) {
                lemma_precedes_asymmetric(other.name(), self.name());
            }
        }
        Some(self.cmp(other))
    }
}

impl PartialOrdSpecImpl for HousingType {
    open spec fn obeys_partial_cmp_spec() -> bool {
        true
    }

    open spec fn partial_cmp_spec(&self, other: &Self) -> Option<Ordering> {
        if precedes(self.name(), other.name()) {
            Some(Ordering::Less)
        } else if *self == *other {
            Some(Ordering::Equal)
        } else {
            Some(Ordering::Greater)
        }
    }
}

/// The rank of a kind of housing says where its name stands among the
/// names: a kind has the smaller rank exactly when its name comes first.
pub proof fn lemma_type_rank_orders_names(a: HousingType, b: HousingType)
    ensures
        a.rank() < b.rank() <==> precedes(a.name(), b.name()),
        a.rank() == b.rank() <==> a == b,
{
    reveal_strlit("private");
    reveal_strlit("free_company");
    reveal_strlit("shared_appartment");
    reveal_with_fuel(precedes, 2);
    if a.rank() < b.rank() {
        assert(precedes(a.name(), b.name()));
    } else if a.rank() > b.rank() {
        assert(precedes(b.name(), a.name()));
        lemma_precedes_asymmetric(b.name(), a.name());
    } else {
        lemma_precedes_irreflexive(a.name());
    }
}

/// Every kind of housing is found again under its own name.
pub proof fn lemma_type_found_by_name(housing_type: HousingType)
    ensures
        HousingType::named(housing_type.name()) == Some(housing_type),
{
    reveal_strlit("private");
    reveal_strlit("free_company");
    reveal_strlit("shared_appartment");
    assert("private"@.len() == 7);
    assert("free_company"@.len() == 12);
    assert("shared_appartment"@.len() == 17);
}

/// The housing of one character.
#[derive(Clone, Copy, Debug, PartialEq, Eq, Structural)]
pub struct Model {
    pub id: i32,
    pub district: HousingDistrict,
    pub housing_type: HousingType,
    pub ward: i16,
    pub plot: i16,
    pub character_id: i32,
}

impl Model {
    /// Whether this housing is listed before `other`: by district, then by
    /// ward, then by plot.
    pub open spec fn listed_before(self, other: Model) -> bool {
        ||| precedes(self.district.name(), other.district.name())
        ||| self.district == other.district && self.ward < other.ward
        ||| self.district == other.district && self.ward == other.ward && self.plot < other.plot
    }

    /// Whether both are at the same address.
    pub open spec fn same_address(self, other: Model) -> bool {
        self.district == other.district && self.ward == other.ward && self.plot == other.plot
    }

    /// A housing that is not stored yet, and so has no id.
    pub fn new(
        character_id: i32,
        district: HousingDistrict,
        housing_type: HousingType,
        ward: i16,
        plot: i16,
    ) -> (housing: Self)
        ensures
            housing == (Model { id: 0, district, housing_type, ward, plot, character_id }),
    {
        Model { id: 0, district, housing_type, ward, plot, character_id }
    }

    /// Housings are ordered by district, then by ward, then by plot.
    pub fn cmp(&self, other: &Self) -> (order: Ordering)
        ensures
            order is Less <==> self.listed_before(*other),
            order is Equal <==> self.same_address(*other),
            order is Greater <==> other.listed_before(*self),
    {
        proof {
            lemma_precedes_irreflexive(self.district.name());
            if precedes(self.district.name(), other.district.name()) {
                lemma_precedes_asymmetric(self.district.name(), other.district.name());
            }
            if precedes(other.district.name(), self.district.name()) {
                lemma_precedes_asymmetric(other.district.name(), self.district.name());
            }
        }
        match self.district.cmp(&other.district) {
            Ordering::Less => Ordering::Less,
            Ordering::Greater => Ordering::Greater,
            Ordering::Equal => {
                if self.ward < other.ward {
                    Ordering::Less
                } else if self.ward > other.ward {
                    Ordering::Greater
                } else if self.plot < other.plot {
                    Ordering::Less
                } else if self.plot > other.plot {
                    Ordering::Greater
                } else {
                    Ordering::Equal
                }
            },
        }
    }
}

impl PartialOrd for Model {
    fn partial_cmp(&self, other: &Self) -> (order: Option<Ordering>) {
        proof {
            lemma_precedes_irreflexive(self.district.name());
            if precedes(other.district.name(), self.district.name()) {
                lemma_precedes_asymmetric(other.district.name(), self.district.name());
            }
        }
        Some(self.cmp(other))
    }
}

impl PartialOrdSpecImpl for Model {
    open spec fn obeys_partial_cmp_spec() -> bool {
        true
    }

    open spec fn partial_cmp_spec(&self, other: &Self) -> Option<Ordering> {
        if self.listed_before(*other) {
            Some(Ordering::Less)
        } else if self.same_address(*other) {
            Some(Ordering::Equal)
        } else {
            Some(Ordering::Greater)
        }
    }
}

impl Default for HousingDistrict {
    fn default() -> (district: Self)
        ensures
            district == HousingDistrict::TheLavenderBeds,
    {
        HousingDistrict::TheLavenderBeds
    }
}

impl Default for HousingType {
    fn default() -> (housing_type: Self)
        ensures
            housing_type == HousingType::Private,
    {
        HousingType::Private
    }
}

impl Default for Model {
    fn default() -> (housing: Self)
        ensures
            housing == (Model {
                id: 0,
                district: HousingDistrict::TheLavenderBeds,
                housing_type: HousingType::Private,
                ward: 0,
                plot: 0,
                character_id: 0,
            }),
    {
        Model {
            id: 0,
            district: HousingDistrict::TheLavenderBeds,
            housing_type: HousingType::Private,
            ward: 0,
            plot: 0,
            character_id: 0,
        }
    }
}

} // verus!
