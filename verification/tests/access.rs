use bamboo::authentication::{
    ChangeMyPassword, ForgotPassword, Login, LoginAnswer, LoginResult, RequestTwoFactor,
    TwoFactorResult,
};
use bamboo::grove::{founder_signature, CreateGroveRequest};
use bamboo::middleware::{check_mod, session_source, SessionSource};
use bamboo::{BambooError, ErrorType, User, WebUser};

fn web_user() -> WebUser {
    WebUser {
        id: 1,
        username: "azami".to_string(),
        is_mod: false,
        gear_level: "640".to_string(),
        job: "Weaver".to_string(),
        discord_name: "azami#1".to_string(),
    }
}

#[test]
fn login_keeps_what_it_is_given() {
    let login = Login::new("a@b.c".to_string(), "secret".to_string(), Some("123456".to_string()));
    assert_eq!(login.email, "a@b.c");
    assert_eq!(login.password, "secret");
    assert_eq!(login.two_factor_code, Some("123456".to_string()));
}

#[test]
fn login_with_a_code_opens_a_session() {
    let login = Login::new("a@b.c".to_string(), "secret".to_string(), Some("123456".to_string()));
    assert_eq!(login.expected_answer(), LoginAnswer::Session);
    let empty_code = Login::new("a@b.c".to_string(), "secret".to_string(), Some(String::new()));
    assert_eq!(empty_code.expected_answer(), LoginAnswer::Session);
}

#[test]
fn login_without_a_code_asks_for_one() {
    let login = Login::new("a@b.c".to_string(), "secret".to_string(), None);
    assert_eq!(login.expected_answer(), LoginAnswer::NoContent);
    let near = Login::new("playstore@google.bambushain.de".to_string(), "secret".to_string(), None);
    assert_eq!(near.expected_answer(), LoginAnswer::NoContent);
}

#[test]
fn the_store_account_needs_no_code() {
    let login = Login::new("playstore@google.bambushain".to_string(), "secret".to_string(), None);
    assert_eq!(login.expected_answer(), LoginAnswer::Session);
}

#[test]
fn exchanged_values_hold_their_fields() {
    let request = RequestTwoFactor { email: "a@b.c".to_string(), password: "secret".to_string() };
    assert_eq!(request.clone(), request);
    let result = LoginResult { user: web_user(), token: "token".to_string() };
    assert_eq!(result.user.username, "azami");
    let two_factor = TwoFactorResult { user: web_user(), two_factor_code: None };
    assert_eq!(two_factor.two_factor_code, None);
    let change = ChangeMyPassword { old_password: "old".to_string(), new_password: "new".to_string() };
    assert_ne!(change.old_password, change.new_password);
    assert_eq!(ForgotPassword { email: "a@b.c".to_string() }.email, "a@b.c");
}

#[test]
fn header_is_preferred_to_cookie() {
    assert_eq!(session_source(true), SessionSource::AuthorizationHeader);
    assert_eq!(session_source(false), SessionSource::Cookie);
}

fn member(is_mod: bool) -> User {
    User::new(
        "azami".to_string(),
        "hash".to_string(),
        "Weaver".to_string(),
        "640".to_string(),
        "azami#1".to_string(),
        is_mod,
    )
}

#[test]
fn mods_pass() {
    assert_eq!(check_mod(Ok(member(true))), Ok(()));
}

#[test]
fn others_lack_the_rights() {
    let error = check_mod(Ok(member(false))).unwrap_err();
    assert_eq!(error.entity_type, "user");
    assert_eq!(error.error_type, ErrorType::InsufficientRights);
    assert_eq!(error.message, "You need to be a mod");
    assert_eq!(error.status_code(), 403);
}

#[test]
fn failed_lookup_is_handed_on() {
    let unknown = BambooError::not_found("token", "The token is unknown");
    assert_eq!(check_mod(Err(unknown.clone())), Err(unknown));
    let broken = BambooError::database("user", "Failed to load the user");
    assert_eq!(check_mod(Err(broken.clone())), Err(broken));
}

#[test]
fn errors_are_made_by_kind() {
    let made = [
        (BambooError::not_found("a", "b"), ErrorType::NotFound, 404),
        (BambooError::exists_already("a", "b"), ErrorType::ExistsAlready, 409),
        (BambooError::invalid_data("a", "b"), ErrorType::InvalidData, 400),
        (BambooError::insufficient_rights("a", "b"), ErrorType::InsufficientRights, 403),
        (BambooError::database("a", "b"), ErrorType::Database, 500),
    ];
    for (error, error_type, status) in made {
        assert_eq!(error, BambooError::new("a", error_type, "b"));
        assert_eq!(error.entity_type, "a");
        assert_eq!(error.message, "b");
        assert_eq!(error.status_code(), status);
        assert_eq!(error_type.status_code(), status);
    }
}

#[test]
fn founder_signs_for_the_team() {
    assert_eq!(founder_signature("azami"), "azami (Bambushainteam)");
    assert_eq!(founder_signature(""), " (Bambushainteam)");
}

#[test]
fn grove_request_names_grove_and_mod() {
    let request = CreateGroveRequest {
        grove_name: "Pandas".to_string(),
        mod_name: "Azami".to_string(),
        mod_email: "azami@example.org".to_string(),
    };
    assert_eq!(request.clone(), request);
}
