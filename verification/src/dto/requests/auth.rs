//! Credentials sent to the login and registration routes, and their validation.
use vstd::prelude::*;

verus! {

/// Fewest characters a username may have.
pub const USERNAME_MIN: u64 = 3;
/// Most characters a username may have.
pub const USERNAME_MAX: u64 = 32;
/// Fewest characters a password may have.
pub const PASSWORD_MIN: u64 = 6;
/// Most characters a password may have.
pub const PASSWORD_MAX: u64 = 128;

/// A field of a credentials body that can fail validation.
#[derive(Clone, Copy, Debug, PartialEq, Eq, Structural)]
pub enum CredentialField {
    /// Not an email address (validation code `email`).
    Email,
    /// Not between 3 and 32 characters long (validation code `length`).
    Username,
    /// Not between 6 and 128 characters long (validation code `length`).
    Password,
}

/// Whether validator's email check accepts this text.
pub uninterp spec fn email_accepted(text: Seq<char>) -> bool;

/// Validator's email check (`ValidateEmail::validate_email` on a `String`).
/// Its result is `email_accepted` of the text; beside that, the contract
/// claims only what its first lines show: text without an `@` is refused.
#[verifier::external_body]
fn email_is_valid(value: &String) -> (r: bool)
    ensures
        r == email_accepted(value@),
        !value@.contains('@') ==> !r,
{
    validator::ValidateEmail::validate_email(value)
}

/// Validator's length check (`ValidateLength::validate_length` on a `String`,
/// with a minimum and a maximum): the number of characters lies in `min..=max`.
#[verifier::external_body]
fn length_is_valid(value: &String, min: u64, max: u64) -> (r: bool)
    ensures
        r == (min <= value@.len() && value@.len() <= max),
{
    validator::ValidateLength::<u64>::validate_length(value, Some(min), Some(max), None)
}

/// Whether a text has between `min` and `max` characters.
pub open spec fn length_within(text: Seq<char>, min: u64, max: u64) -> bool {
    min <= text.len() <= max
}

/// The field, as a list of one, when its check failed.
pub open spec fn failed_if(ok: bool, field: CredentialField) -> Seq<CredentialField> {
    if ok { Seq::empty() } else { seq![field] }
}

/// Body of `POST /auth/login`.
pub struct LoginCredentials {
    pub username: String,
    pub password: String,
}

/// Body of `POST /auth/register`.
pub struct RegistrationCredentials {
    pub email: String,
    pub username: String,
    pub password: String,
}

impl LoginCredentials {
    /// The fields that fail validation, in declaration order.
    pub open spec fn failed_fields(&self) -> Seq<CredentialField> {
        failed_if(length_within(self.username@, USERNAME_MIN, USERNAME_MAX), CredentialField::Username)
            + failed_if(length_within(self.password@, PASSWORD_MIN, PASSWORD_MAX), CredentialField::Password)
    }

    /// Checks every field; on failure lists the failing fields in declaration order.
    pub fn validate(&self) -> (r: Result<(), Vec<CredentialField>>)
        ensures
            r is Ok <==> self.failed_fields().len() == 0,
            r matches Err(fields) ==> fields@ == self.failed_fields(),
    {
        let mut failed: Vec<CredentialField> = Vec::new();
        if !length_is_valid(&self.username, USERNAME_MIN, USERNAME_MAX) {
            failed.push(CredentialField::Username);
        }
        if !length_is_valid(&self.password, PASSWORD_MIN, PASSWORD_MAX) {
            failed.push(CredentialField::Password);
        }
        assert(failed@ == self.failed_fields());
        if failed.len() == 0 {
            Ok(())
        } else {
            Err(failed)
        }
    }
}

impl RegistrationCredentials {
    /// The fields that fail validation, in declaration order.
    pub open spec fn failed_fields(&self) -> Seq<CredentialField> {
        failed_if(email_accepted(self.email@), CredentialField::Email)
            + failed_if(length_within(self.username@, USERNAME_MIN, USERNAME_MAX), CredentialField::Username)
            + failed_if(length_within(self.password@, PASSWORD_MIN, PASSWORD_MAX), CredentialField::Password)
    }

    /// Checks every field; on failure lists the failing fields in declaration order.
    pub fn validate(&self) -> (r: Result<(), Vec<CredentialField>>)
        ensures
            r is Ok <==> self.failed_fields().len() == 0,
            r matches Err(fields) ==> fields@ == self.failed_fields(),
    {
        let mut failed: Vec<CredentialField> = Vec::new();
        if !email_is_valid(&self.email) {
            failed.push(CredentialField::Email);
        }
        if !length_is_valid(&self.username, USERNAME_MIN, USERNAME_MAX) {
            failed.push(CredentialField::Username);
        }
        if !length_is_valid(&self.password, PASSWORD_MIN, PASSWORD_MAX) {
            failed.push(CredentialField::Password);
        }
        assert(failed@ == self.failed_fields());
        if failed.len() == 0 {
            Ok(())
        } else {
            Err(failed)
        }
    }
}

/// Login validation: the username fails exactly when it has fewer than 3
/// or more than 32 characters, the password exactly when it has fewer than 6
/// or more than 128, and nothing else fails.
pub proof fn law_login_fields(c: LoginCredentials)
    ensures
        c.failed_fields().contains(CredentialField::Username) <==> !(3 <= c.username@.len() <= 32),
        c.failed_fields().contains(CredentialField::Password) <==> !(6 <= c.password@.len() <= 128),
        !c.failed_fields().contains(CredentialField::Email),
        c.failed_fields().len() == 0 <==> (3 <= c.username@.len() <= 32 && 6 <= c.password@.len() <= 128),
{
    lemma_failed_if_contains(length_within(c.username@, USERNAME_MIN, USERNAME_MAX), CredentialField::Username);
    lemma_failed_if_contains(length_within(c.password@, PASSWORD_MIN, PASSWORD_MAX), CredentialField::Password);
    let a = failed_if(length_within(c.username@, USERNAME_MIN, USERNAME_MAX), CredentialField::Username);
    let b = failed_if(length_within(c.password@, PASSWORD_MIN, PASSWORD_MAX), CredentialField::Password);
    lemma_concat_contains(a, b, CredentialField::Username);
    lemma_concat_contains(a, b, CredentialField::Password);
    lemma_concat_contains(a, b, CredentialField::Email);
}

/// Registration validation: the email fails exactly when validator refuses
/// it, the username exactly when it has fewer than 3 or more than 32
/// characters, the password exactly when it has fewer than 6 or more than 128.
pub proof fn law_registration_fields(c: RegistrationCredentials)
    ensures
        c.failed_fields().contains(CredentialField::Email) <==> !email_accepted(c.email@),
        c.failed_fields().contains(CredentialField::Username) <==> !(3 <= c.username@.len() <= 32),
        c.failed_fields().contains(CredentialField::Password) <==> !(6 <= c.password@.len() <= 128),
        c.failed_fields().len() == 0 <==> (email_accepted(c.email@) && 3 <= c.username@.len() <= 32 && 6
            <= c.password@.len() <= 128),
{
    let e = failed_if(email_accepted(c.email@), CredentialField::Email);
    let a = failed_if(length_within(c.username@, USERNAME_MIN, USERNAME_MAX), CredentialField::Username);
    let b = failed_if(length_within(c.password@, PASSWORD_MIN, PASSWORD_MAX), CredentialField::Password);
    lemma_failed_if_contains(email_accepted(c.email@), CredentialField::Email);
    lemma_failed_if_contains(length_within(c.username@, USERNAME_MIN, USERNAME_MAX), CredentialField::Username);
    lemma_failed_if_contains(length_within(c.password@, PASSWORD_MIN, PASSWORD_MAX), CredentialField::Password);
    assert(c.failed_fields() == (e + a) + b);
    lemma_concat_contains(e, a, CredentialField::Email);
    lemma_concat_contains(e, a, CredentialField::Username);
    lemma_concat_contains(e, a, CredentialField::Password);
    lemma_concat_contains(e + a, b, CredentialField::Email);
    lemma_concat_contains(e + a, b, CredentialField::Username);
    lemma_concat_contains(e + a, b, CredentialField::Password);
}

/// Whoever registration accepts can log in with the same username and
/// password as far as validation goes.
pub proof fn law_registered_credentials_pass_login(c: RegistrationCredentials, l: LoginCredentials)
    requires
        c.failed_fields().len() == 0,
        l.username@ == c.username@,
        l.password@ == c.password@,
    ensures
        l.failed_fields().len() == 0,
{
    law_registration_fields(c);
    law_login_fields(l);
}

proof fn lemma_failed_if_contains(ok: bool, field: CredentialField)
    ensures
        failed_if(ok, field).contains(field) <==> !ok,
        forall|g: CredentialField| g != field ==> !failed_if(ok, field).contains(g),
        failed_if(ok, field).len() == 0 <==> ok,
{
    if !ok {
        assert(failed_if(ok, field)[0] == field);
    }
}

proof fn lemma_concat_contains(a: Seq<CredentialField>, b: Seq<CredentialField>, g: CredentialField)
    ensures
        (a + b).contains(g) <==> (a.contains(g) || b.contains(g)),
        (a + b).len() == a.len() + b.len(),
{
    if a.contains(g) {
        let k = choose|k: int| 0 <= k < a.len() && a[k] == g;
        assert((a + b)[k] == g);
    }
    if b.contains(g) {
        let k = choose|k: int| 0 <= k < b.len() && b[k] == g;
        assert((a + b)[a.len() + k] == g);
    }
    if (a + b).contains(g) {
        let k = choose|k: int| 0 <= k < (a + b).len() && (a + b)[k] == g;
        if k < a.len() {
            assert(a[k] == g);
        } else {
            assert(b[k - a.len()] == g);
        }
    }
}

} // verus!
