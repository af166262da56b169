use bamboo::crafter::Crafter;
use bamboo::dbal::{
    crafter_exists_by_job, delete_character_housing, update_crafter,
    character_housing_exists, character_housing_not_written, crafter_exists, crafter_not_written,
    create_character_housing, create_crafter, get_character_housing, get_character_housings,
    get_crafter, get_crafters, require_character, require_free_address, update_character_housing,
    Answer, Attempt, HousingUpdate,
};
use bamboo::{BambooError, CharacterHousing, ErrorType, HousingDistrict, HousingType};

fn housing(id: i32, character_id: i32, district: HousingDistrict, ward: i16, plot: i16) -> CharacterHousing {
    CharacterHousing { id, district, housing_type: HousingType::Private, ward, plot, character_id }
}

fn smith() -> Crafter {
    Crafter { id: 8, job: "Smith".to_string(), level: Some("50".to_string()), character_id: 1 }
}

fn error(entity_type: &str, error_type: ErrorType, message: &str) -> BambooError {
    BambooError { entity_type: entity_type.to_string(), error_type, message: message.to_string() }
}

#[test]
fn found_housing_is_handed_on() {
    let found = housing(3, 1, HousingDistrict::Mist, 2, 5);
    assert_eq!(get_character_housing::<&str>(Ok(Some(found))), Ok(found));
}

#[test]
fn missing_housing_is_not_found() {
    assert_eq!(
        get_character_housing::<&str>(Ok(None)),
        Err(error("character_housing", ErrorType::NotFound, "The character housing was not found"))
    );
}

#[test]
fn failed_lookup_of_a_housing_is_a_database_error() {
    assert_eq!(
        get_character_housing(Err("connection lost")),
        Err(error("character_housing", ErrorType::Database, "Failed to load character housing"))
    );
    assert_eq!(
        get_character_housings(Err(17)),
        Err(error("character_housing", ErrorType::Database, "Failed to load character housings"))
    );
}

#[test]
fn listed_housings_are_handed_on() {
    let listed = vec![housing(1, 1, HousingDistrict::Mist, 1, 1), housing(2, 1, HousingDistrict::Empyreum, 1, 1)];
    assert_eq!(get_character_housings::<()>(Ok(listed.clone())), Ok(listed));
}

#[test]
fn address_is_taken_when_a_housing_is_counted() {
    assert_eq!(character_housing_exists::<()>(Ok(0)), Ok(false));
    assert_eq!(character_housing_exists::<()>(Ok(1)), Ok(true));
    assert_eq!(character_housing_exists::<()>(Ok(u64::MAX)), Ok(true));
    assert_eq!(
        character_housing_exists(Err(())),
        Err(error("character_housing", ErrorType::Database, "Failed to load the character housings"))
    );
}

#[test]
fn taken_address_is_a_conflict() {
    assert_eq!(require_free_address(false), Ok(()));
    assert_eq!(
        require_free_address(true),
        Err(error(
            "character_housing",
            ErrorType::ExistsAlready,
            "A character housing with that address exists already"
        ))
    );
}

#[test]
fn inserted_housing_belongs_to_the_character_and_has_no_id() {
    let sent = housing(99, 42, HousingDistrict::Shirogane, 4, 30);
    assert_eq!(
        create_character_housing::<()>(Ok(0), 7, sent),
        Ok(housing(0, 7, HousingDistrict::Shirogane, 4, 30))
    );
}

#[test]
fn housing_at_a_taken_address_is_not_inserted() {
    let sent = housing(0, 7, HousingDistrict::Shirogane, 4, 30);
    let taken = error(
        "character_housing",
        ErrorType::ExistsAlready,
        "A character housing with that address exists already",
    );
    assert_eq!(create_character_housing::<()>(Ok(1), 7, sent), Err(taken.clone()));
    assert_eq!(create_character_housing::<()>(Ok(25), 7, sent), Err(taken));
}

#[test]
fn housing_is_not_inserted_after_a_failed_count() {
    let sent = housing(0, 7, HousingDistrict::Shirogane, 4, 30);
    assert_eq!(
        create_character_housing(Err("down"), 7, sent),
        Err(error("character_housing", ErrorType::Database, "Failed to load the character housings"))
    );
}

fn sent_housing() -> CharacterHousing {
    let mut sent = housing(99, 42, HousingDistrict::TheGoblet, 12, 24);
    sent.housing_type = HousingType::SharedApartment;
    sent
}

#[test]
fn update_counts_then_loads_then_writes() {
    let stored = housing(3, 7, HousingDistrict::Mist, 1, 1);
    let mut expected = housing(3, 7, HousingDistrict::TheGoblet, 12, 24);
    expected.housing_type = HousingType::SharedApartment;
    let state = update_character_housing::<()>(HousingUpdate::CountOthers, Answer::Counted(Ok(0)), sent_housing());
    assert_eq!(state, HousingUpdate::Load);
    let state = update_character_housing::<()>(state, Answer::Loaded(Ok(Some(stored))), sent_housing());
    assert_eq!(state, HousingUpdate::Write(expected));
    let state = update_character_housing::<()>(state, Answer::Written(Ok(())), sent_housing());
    assert_eq!(state, HousingUpdate::Done(Ok(())));
}

#[test]
fn update_to_a_taken_address_ends_before_anything_is_loaded() {
    let state = update_character_housing::<()>(HousingUpdate::CountOthers, Answer::Counted(Ok(1)), sent_housing());
    assert_eq!(
        state,
        HousingUpdate::Done(Err(error(
            "character_housing",
            ErrorType::ExistsAlready,
            "A character housing with that address exists already"
        )))
    );
    let state = update_character_housing(HousingUpdate::CountOthers, Answer::Counted(Err(())), sent_housing());
    assert_eq!(
        state,
        HousingUpdate::Done(Err(error(
            "character_housing",
            ErrorType::Database,
            "Failed to load the character housings"
        )))
    );
}

#[test]
fn update_of_a_missing_housing_ends_before_anything_is_written() {
    let state = update_character_housing::<()>(HousingUpdate::Load, Answer::Loaded(Ok(None)), sent_housing());
    assert_eq!(
        state,
        HousingUpdate::Done(Err(error(
            "character_housing",
            ErrorType::NotFound,
            "The character housing was not found"
        )))
    );
    let state = update_character_housing(HousingUpdate::Load, Answer::Loaded(Err(())), sent_housing());
    assert_eq!(
        state,
        HousingUpdate::Done(Err(error(
            "character_housing",
            ErrorType::Database,
            "Failed to load character housing"
        )))
    );
}

#[test]
fn failed_write_ends_the_update_with_a_database_error() {
    let row = housing(3, 7, HousingDistrict::Mist, 1, 1);
    let state = update_character_housing(HousingUpdate::Write(row), Answer::Written(Err(())), sent_housing());
    assert_eq!(
        state,
        HousingUpdate::Done(Err(error("character_housing", ErrorType::Database, "Failed to update housing")))
    );
}

#[test]
fn answer_that_was_not_asked_for_changes_nothing() {
    let row = housing(3, 7, HousingDistrict::Mist, 1, 1);
    let state = update_character_housing::<()>(HousingUpdate::CountOthers, Answer::Written(Ok(())), sent_housing());
    assert_eq!(state, HousingUpdate::CountOthers);
    let state = update_character_housing::<()>(HousingUpdate::CountOthers, Answer::Loaded(Ok(Some(row))), sent_housing());
    assert_eq!(state, HousingUpdate::CountOthers);
    let state = update_character_housing::<()>(HousingUpdate::Load, Answer::Counted(Ok(0)), sent_housing());
    assert_eq!(state, HousingUpdate::Load);
    let state = update_character_housing::<()>(HousingUpdate::Write(row), Answer::Counted(Ok(3)), sent_housing());
    assert_eq!(state, HousingUpdate::Write(row));
    let state = update_character_housing::<()>(HousingUpdate::Done(Ok(())), Answer::Counted(Ok(3)), sent_housing());
    assert_eq!(state, HousingUpdate::Done(Ok(())));
}

#[test]
fn failed_writes_of_a_housing_are_database_errors() {
    assert_eq!(
        character_housing_not_written(Attempt::Create),
        error("character_housing", ErrorType::Database, "Failed to create character housing")
    );
    assert_eq!(
        character_housing_not_written(Attempt::Update),
        error("character_housing", ErrorType::Database, "Failed to update housing")
    );
    assert_eq!(
        character_housing_not_written(Attempt::Delete),
        error("character_housing", ErrorType::Database, "Failed to delete character housing")
    );
}

#[test]
fn found_crafter_is_handed_on() {
    assert_eq!(get_crafter::<()>(Ok(Some(smith()))), Ok(smith()));
    assert_eq!(get_crafters::<()>(Ok(vec![smith()])), Ok(vec![smith()]));
}

#[test]
fn missing_crafter_is_not_found() {
    assert_eq!(
        get_crafter::<()>(Ok(None)),
        Err(error("crafter", ErrorType::NotFound, "The crafter was not found"))
    );
}

#[test]
fn failed_lookup_of_a_crafter_is_a_database_error() {
    assert_eq!(
        get_crafter(Err(())),
        Err(error("crafter", ErrorType::Database, "Failed to execute database query"))
    );
    assert_eq!(
        get_crafters(Err(())),
        Err(error("crafter", ErrorType::Database, "Failed to load crafters"))
    );
}

#[test]
fn failed_count_of_crafters_counts_as_none() {
    assert!(!crafter_exists::<()>(Ok(0)));
    assert!(crafter_exists::<()>(Ok(1)));
    assert!(crafter_exists::<()>(Ok(12)));
    assert!(!crafter_exists(Err("timeout")));
}

#[test]
fn crafter_needs_its_character() {
    assert_eq!(require_character(true), Ok(()));
    assert_eq!(
        require_character(false),
        Err(error("crafter", ErrorType::NotFound, "The character does not exist"))
    );
}

#[test]
fn inserted_crafter_belongs_to_the_character_and_has_no_id() {
    assert_eq!(
        create_crafter(true, 5, smith()),
        Ok(Crafter { id: 0, job: "Smith".to_string(), level: Some("50".to_string()), character_id: 5 })
    );
}

#[test]
fn crafter_of_a_missing_character_is_not_inserted() {
    assert_eq!(
        create_crafter(false, 5, smith()),
        Err(error("crafter", ErrorType::NotFound, "The character does not exist"))
    );
}

#[test]
fn failed_writes_of_a_crafter_are_database_errors() {
    assert_eq!(
        crafter_not_written(Attempt::Create),
        error("crafter", ErrorType::Database, "Failed to create crafter")
    );
    assert_eq!(
        crafter_not_written(Attempt::Update),
        error("crafter", ErrorType::Database, "Failed to update crafter")
    );
    assert_eq!(
        crafter_not_written(Attempt::Delete),
        error("crafter", ErrorType::Database, "Failed to delete crafter")
    );
}

#[test]
fn housing_to_remove_is_the_one_that_was_loaded() {
    let found = housing(3, 1, HousingDistrict::Mist, 2, 5);
    assert_eq!(delete_character_housing::<()>(Ok(Some(found))), Ok(found));
    assert_eq!(
        delete_character_housing::<()>(Ok(None)),
        Err(error("character_housing", ErrorType::NotFound, "The character housing was not found"))
    );
    assert_eq!(
        delete_character_housing(Err(())),
        Err(error("character_housing", ErrorType::Database, "Failed to load character housing"))
    );
}

#[test]
fn crafter_of_a_job_exists_when_one_is_counted() {
    assert!(crafter_exists_by_job::<()>(Ok(2)));
    assert!(!crafter_exists_by_job::<()>(Ok(0)));
    assert!(!crafter_exists_by_job(Err(())));
}

#[test]
fn update_of_a_crafter_changes_the_level_only() {
    let sent = Crafter { id: 77, job: "Cook".to_string(), level: Some("90".to_string()), character_id: 9 };
    assert_eq!(
        update_crafter(smith(), sent),
        Crafter { id: 8, job: "Smith".to_string(), level: Some("90".to_string()), character_id: 1 }
    );
}
