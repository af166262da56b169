use bamboo::support::{glitchtip_report, ErrorReport, GlitchTipErrorRequest, Level};
use bamboo::{BambooError, ErrorType};

fn pair(key: &str, value: &str) -> (String, String) {
    (key.to_string(), value.to_string())
}

#[test]
fn report_holds_where_the_error_showed_up_and_what_it_was() {
    let body = GlitchTipErrorRequest {
        page: "calendar".to_string(),
        form: "event".to_string(),
        full_url: "https://grove.example/calendar?year=2024".to_string(),
        bamboo_error: BambooError::exists_already("event", "The event exists already"),
    };
    assert_eq!(
        glitchtip_report(&body),
        ErrorReport {
            message: "Unknown error occurred".to_string(),
            level: Level::Error,
            logger: "bamboo-web".to_string(),
            base_data: vec![
                pair("form", "event"),
                pair("page", "calendar"),
                pair("full_url", "https://grove.example/calendar?year=2024"),
            ],
            bamboo_error: vec![
                pair("entity_type", "event"),
                pair("error_type", "ExistsAlready"),
                pair("message", "The event exists already"),
            ],
        }
    );
}

#[test]
fn kinds_of_error_are_written_by_name() {
    assert_eq!(ErrorType::NotFound.to_string(), "NotFound");
    assert_eq!(ErrorType::ExistsAlready.to_string(), "ExistsAlready");
    assert_eq!(ErrorType::InvalidData.to_string(), "InvalidData");
    assert_eq!(ErrorType::InsufficientRights.to_string(), "InsufficientRights");
    assert_eq!(ErrorType::Database.to_string(), "Database");
}
