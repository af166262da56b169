use bamboo::api::{
    accepted, authorization, availability_uri, calendar_uri, character_uri, characters_uri,
    forgets_token, handle_response, handle_response_code, request_body, ApiError, ErrorCode, Reply,
    CONFLICT, FORBIDDEN, INTERNAL_SERVER_ERROR, JSON_DESERIALIZE_ERROR, JSON_SERIALIZE_ERROR,
    NOT_FOUND, NO_CONTENT, SEND_ERROR,
};
use bamboo::date::Date;
use bamboo::BambooError;

#[test]
fn codes_have_their_numbers() {
    assert_eq!(SEND_ERROR, -1);
    assert_eq!(JSON_SERIALIZE_ERROR, -2);
    assert_eq!(JSON_DESERIALIZE_ERROR, -3);
    assert_eq!(NO_CONTENT, 204);
    assert_eq!(FORBIDDEN, 403);
    assert_eq!(NOT_FOUND, 404);
    assert_eq!(CONFLICT, 409);
    assert_eq!(INTERNAL_SERVER_ERROR, 500);
}

#[test]
fn code_is_written_as_its_number() {
    assert_eq!(ErrorCode::from(404).to_string(), "404");
    assert_eq!(ErrorCode::from(SEND_ERROR).to_string(), "-1");
    assert_eq!(ErrorCode::from(0).to_string(), "0");
    assert_eq!(ErrorCode::from(i32::MIN).to_string(), "-2147483648");
    assert_eq!(ErrorCode::from(409), ErrorCode(CONFLICT));
}

#[test]
fn statuses_from_200_to_299_are_accepted() {
    assert_eq!(Reply::from_status(Some(200)), Reply::Accepted);
    assert_eq!(Reply::from_status(Some(204)), Reply::Accepted);
    assert_eq!(Reply::from_status(Some(299)), Reply::Accepted);
}

#[test]
fn other_statuses_are_refused_with_their_code() {
    assert_eq!(Reply::from_status(Some(199)), Reply::Refused(ErrorCode(199)));
    assert_eq!(Reply::from_status(Some(300)), Reply::Refused(ErrorCode(300)));
    assert_eq!(Reply::from_status(Some(404)), Reply::Refused(ErrorCode(NOT_FOUND)));
    assert_eq!(Reply::from_status(Some(0)), Reply::Refused(ErrorCode(0)));
    assert_eq!(Reply::from_status(Some(u16::MAX)), Reply::Refused(ErrorCode(65535)));
}

#[test]
fn request_without_answer_is_unsent() {
    assert_eq!(Reply::from_status(None), Reply::Unsent);
    assert_eq!(Reply::Unsent.error_code(), Some(ErrorCode(SEND_ERROR)));
    assert_eq!(Reply::Accepted.error_code(), None);
    assert_eq!(Reply::Refused(ErrorCode(409)).error_code(), Some(ErrorCode(409)));
}

#[test]
fn authorization_header_names_the_scheme() {
    assert_eq!(authorization("abc123"), "Sheef abc123");
    assert_eq!(authorization(""), "Sheef ");
}

#[test]
fn calendar_is_asked_by_year_and_month() {
    assert_eq!(calendar_uri(2023, 9), "/api/calendar?year=2023&month=9");
    assert_eq!(calendar_uri(-44, 12), "/api/calendar?year=-44&month=12");
}

#[test]
fn availability_is_stored_by_day() {
    let day = Date::from_ymd_opt(2024, 2, 29).unwrap();
    assert_eq!(availability_uri(&day), "/api/calendar/2024/2/29");
}

#[test]
fn characters_are_addressed_by_id() {
    assert_eq!(characters_uri(), "/api/final-fantasy/character");
    assert_eq!(character_uri(17), "/api/final-fantasy/character/17");
    assert_eq!(character_uri(-3), "/api/final-fantasy/character/-3");
}

#[test]
fn failures_on_this_side_carry_no_server_error() {
    assert_eq!(ApiError::unsent(), ApiError { code: ErrorCode(-1), error: None });
    assert_eq!(ApiError::unwritten(), ApiError { code: ErrorCode(-2), error: None });
    assert_eq!(ApiError::local(7), ApiError { code: ErrorCode(7), error: None });
}

#[test]
fn refusal_carries_status_and_error() {
    let error = BambooError::not_found("crafter", "The crafter was not found");
    assert_eq!(
        ApiError::refused(404, error.clone()),
        ApiError { code: ErrorCode(NOT_FOUND), error: Some(error) }
    );
}

#[test]
fn accepted_answer_gives_its_body() {
    assert_eq!(accepted(Some(17)), Ok(17));
    assert_eq!(accepted(Some("body")), Ok("body"));
}

#[test]
fn unreadable_body_is_a_deserialize_error() {
    assert_eq!(
        accepted::<u8>(None),
        Err(ApiError { code: ErrorCode(JSON_DESERIALIZE_ERROR), error: None })
    );
}

#[test]
fn codes_are_ordered_by_their_numbers() {
    assert!(ErrorCode::from(SEND_ERROR) < ErrorCode::from(NO_CONTENT));
    assert!(ErrorCode(NOT_FOUND) < ErrorCode(CONFLICT));
    let code: ErrorCode = 500.into();
    assert_eq!(code, ErrorCode(INTERNAL_SERVER_ERROR));
}

#[test]
fn accepted_request_gives_its_body() {
    assert_eq!(handle_response(Some(200), Some("body"), None), Ok("body"));
    assert_eq!(handle_response(Some(201), Some(5), None), Ok(5));
    assert_eq!(handle_response_code(Some(204), None), Ok(()));
}

#[test]
fn accepted_request_with_unreadable_body_fails() {
    assert_eq!(
        handle_response::<u8>(Some(200), None, None),
        Err(ApiError { code: ErrorCode(JSON_DESERIALIZE_ERROR), error: None })
    );
}

#[test]
fn refused_request_gives_status_and_error() {
    let error = BambooError::exists_already("crafter", "exists");
    assert_eq!(
        handle_response(Some(409), Some(1), Some(error.clone())),
        Err(ApiError { code: ErrorCode(CONFLICT), error: Some(error.clone()) })
    );
    assert_eq!(
        handle_response_code(Some(500), Some(error.clone())),
        Err(ApiError { code: ErrorCode(INTERNAL_SERVER_ERROR), error: Some(error) })
    );
}

#[test]
fn unsent_request_is_a_send_error() {
    assert_eq!(handle_response::<u8>(None, None, None), Err(ApiError::unsent()));
    assert_eq!(handle_response_code(None, None), Err(ApiError::unsent()));
}

#[test]
fn numbers_are_written_without_leading_zeros() {
    assert_eq!(ErrorCode::from(7).to_string(), "7");
    assert_eq!(ErrorCode::from(10).to_string(), "10");
    assert_eq!(ErrorCode::from(-10).to_string(), "-10");
    assert_eq!(ErrorCode::from(i32::MAX).to_string(), "2147483647");
    assert_eq!(calendar_uri(0, 0), "/api/calendar?year=0&month=0");
    assert_eq!(calendar_uri(2024, u32::MAX), "/api/calendar?year=2024&month=4294967295");
}

#[test]
fn body_that_cannot_be_written_is_a_serialize_error() {
    assert_eq!(request_body(Some("{}")), Ok("{}"));
    assert_eq!(
        request_body::<String>(None),
        Err(ApiError { code: ErrorCode(JSON_SERIALIZE_ERROR), error: None })
    );
}

#[test]
fn token_is_forgotten_when_the_profile_cannot_be_had() {
    assert!(!forgets_token(&Ok("profile")));
    assert!(forgets_token::<u8>(&Err(ApiError::unsent())));
    assert!(forgets_token::<u8>(&Err(ApiError::refused(
        403,
        BambooError::insufficient_rights("user", "You need to log in")
    ))));
}
