use doodleswap::controllers::auth::check_login;
use doodleswap::dto::requests::auth::{CredentialField, LoginCredentials, RegistrationCredentials};
use doodleswap::reply::ReplyBody;

fn login_body(username: &str, password: &str) -> LoginCredentials {
    LoginCredentials { username: username.to_string(), password: password.to_string() }
}

fn registration_body(email: &str, username: &str, password: &str) -> RegistrationCredentials {
    RegistrationCredentials {
        email: email.to_string(),
        username: username.to_string(),
        password: password.to_string(),
    }
}

#[test]
fn login_credentials_at_the_bounds_pass() {
    assert!(login_body("abc", "secret").validate().is_ok());
    assert!(login_body(&"a".repeat(32), &"p".repeat(128)).validate().is_ok());
}

#[test]
fn login_credentials_past_the_bounds_fail() {
    assert_eq!(login_body("ab", "secret").validate(), Err(vec![CredentialField::Username]));
    assert_eq!(login_body(&"a".repeat(33), "secret").validate(), Err(vec![CredentialField::Username]));
    assert_eq!(login_body("abc", "short").validate(), Err(vec![CredentialField::Password]));
    assert_eq!(login_body("abc", &"p".repeat(129)).validate(), Err(vec![CredentialField::Password]));
    assert_eq!(
        login_body("", "").validate(),
        Err(vec![CredentialField::Username, CredentialField::Password])
    );
}

#[test]
fn lengths_count_characters_not_bytes() {
    // three characters, six bytes
    assert!(login_body("äöü", "secret").validate().is_ok());
    // two characters, four bytes
    assert_eq!(login_body("äö", "secret").validate(), Err(vec![CredentialField::Username]));
}

#[test]
fn registration_checks_the_email_first() {
    assert!(registration_body("email@here.com", "john", "password").validate().is_ok());
    assert_eq!(
        registration_body("abc", "john", "password").validate(),
        Err(vec![CredentialField::Email])
    );
    assert_eq!(
        registration_body("a @x.cz", "jo", "pw").validate(),
        Err(vec![CredentialField::Email, CredentialField::Username, CredentialField::Password])
    );
}

#[test]
fn check_login_answers_400_with_the_failed_fields() {
    assert!(check_login(&login_body("john", "password")).is_ok());
    let reply = check_login(&login_body("jo", "password")).err().unwrap();
    assert_eq!(reply.status, 400);
    match reply.body {
        ReplyBody::InvalidFields(fields) => assert_eq!(fields, vec![CredentialField::Username]),
        _ => panic!("expected the failed fields"),
    }
}
