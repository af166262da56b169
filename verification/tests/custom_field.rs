use bamboo::custom_field::{
    require_custom_field, require_new_label, CustomFieldOptionPath, CustomFieldOptionPositionPath,
    CustomFieldPath,
};
use bamboo::{CustomCharacterField, CustomCharacterFieldOption, CustomField, ErrorType};
use std::cmp::Ordering;
use std::collections::BTreeSet;

fn option(label: &str) -> CustomCharacterFieldOption {
    CustomCharacterFieldOption::new(label.to_string(), 5)
}

#[test]
fn new_option_has_no_id() {
    let option = option("Red");
    assert_eq!(option.id, 0);
    assert_eq!(option.label, "Red");
    assert_eq!(option.custom_character_field_id, 5);
}

#[test]
fn options_are_ordered_by_label() {
    assert_eq!(option("Blue").cmp(&option("Red")), Ordering::Less);
    assert_eq!(option("Red").cmp(&option("Blue")), Ordering::Greater);
    assert_eq!(option("Red").cmp(&option("Red")), Ordering::Equal);
    assert_eq!(option("Re").cmp(&option("Red")), Ordering::Less);
    assert_eq!(option("").cmp(&option("a")), Ordering::Less);
    assert_eq!(option("Zebra").cmp(&option("apple")), Ordering::Less);
    assert_eq!(option("Äpfel").cmp(&option("Zebra")), Ordering::Greater);
    assert_eq!(option("Blue").partial_cmp(&option("Red")), Some(Ordering::Less));
    assert!(option("Blue") < option("Red"));
}

#[test]
fn options_with_one_label_are_equal_in_order() {
    let mut other = option("Red");
    other.id = 9;
    other.custom_character_field_id = 1;
    assert_eq!(option("Red").cmp(&other), Ordering::Equal);
}

#[test]
fn new_field_stands_first() {
    let field = CustomCharacterField::new("Colour".to_string(), vec![option("Red"), option("Blue")]);
    assert_eq!(field.id, 0);
    assert_eq!(field.user_id, 0);
    assert_eq!(field.position, 0);
    assert_eq!(field.label, "Colour");
    assert_eq!(field.options, vec![option("Red"), option("Blue")]);
}

#[test]
fn fields_are_ordered_by_position() {
    let mut first = CustomCharacterField::new("Zeta".to_string(), vec![]);
    let mut second = CustomCharacterField::new("Alpha".to_string(), vec![]);
    first.position = 1;
    second.position = 2;
    assert_eq!(first.cmp(&second), Ordering::Less);
    assert_eq!(second.cmp(&first), Ordering::Greater);
    second.position = 1;
    assert_eq!(first.cmp(&second), Ordering::Equal);
    assert_eq!(first.partial_cmp(&second), Some(Ordering::Equal));
    first.position = -3;
    assert_eq!(first.cmp(&second), Ordering::Less);
    assert!(first < second);
}

#[test]
fn entered_field_holds_its_values_once() {
    let mut values = BTreeSet::new();
    values.insert("Red".to_string());
    values.insert("Blue".to_string());
    values.insert("Red".to_string());
    let field = CustomField { values, label: "Colour".to_string(), position: 2 };
    assert_eq!(field.values.len(), 2);
    assert_eq!(field.clone(), field);
}

#[test]
fn request_about_a_missing_field_is_not_found() {
    assert_eq!(require_custom_field(true), Ok(()));
    let error = require_custom_field(false).unwrap_err();
    assert_eq!(error.entity_type, "custom_field");
    assert_eq!(error.error_type, ErrorType::NotFound);
    assert_eq!(error.message, "The custom field was not found");
    assert_eq!(error.status_code(), 404);
}

#[test]
fn field_with_a_taken_label_is_a_conflict() {
    assert_eq!(require_new_label(false), Ok(()));
    let error = require_new_label(true).unwrap_err();
    assert_eq!(error.entity_type, "custom_field");
    assert_eq!(error.error_type, ErrorType::ExistsAlready);
    assert_eq!(error.message, "The custom field already exists");
    assert_eq!(error.status_code(), 409);
}

#[test]
fn paths_hold_their_ids() {
    assert_eq!(CustomFieldPath { id: 3 }.id, 3);
    let option = CustomFieldOptionPath { id: 4, field_id: 3 };
    assert_eq!((option.id, option.field_id), (4, 3));
    let position = CustomFieldOptionPositionPath { field_id: 3, position: 2 };
    assert_eq!((position.field_id, position.position), (3, 2));
}
