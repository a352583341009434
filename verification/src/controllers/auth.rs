//! Login, registration and session tokens.
use vstd::prelude::*;

use crate::dto::errors::auth as err;
use crate::dto::requests::auth::{CredentialField, LoginCredentials, RegistrationCredentials};
use crate::dto::responses::auth::{LoginResponse, RegistrationResponse, TokenResponse};
use crate::middleware::authentication::{require_claims, Claims};
use crate::models::auth::User;
use crate::password::{bcrypt_verdict, hash_password, verify_password};
use crate::reply::{
    is_error_reply, is_text_reply, Reply, ReplyBody, STATUS_BAD_REQUEST, STATUS_CREATED,
    STATUS_INTERNAL_SERVER_ERROR, STATUS_NOT_FOUND, STATUS_NOT_IMPLEMENTED, STATUS_OK,
};
use crate::text::{append_i32_decimal, owned};

verus! {

/// How long a session token stays valid: 30 days, in seconds.
pub const TOKEN_LIFETIME_SECONDS: i64 = 30 * 24 * 60 * 60;

/// The claims of a token issued to `user_id` at `now`, valid for 30 days.
pub fn token_claims(user_id: i32, now: i64) -> (c: Claims)
    requires
        now <= i64::MAX - TOKEN_LIFETIME_SECONDS,
    ensures
        c.sub == user_id,
        c.iat == now,
        c.exp == now + TOKEN_LIFETIME_SECONDS,
{
    Claims { sub: user_id, iat: now, exp: now + TOKEN_LIFETIME_SECONDS }
}

/// The cookie that carries a session token.
pub struct AuthCookie {
    pub name: String,
    pub value: String,
    pub http_only: bool,
    pub secure: bool,
    pub path: String,
}

/// The session token that `jsonwebtoken::encode` gives for these claims
/// under the default header (HS256) and this secret, if any.
pub uninterp spec fn session_token(sub: i32, iat: i64, exp: i64, secret: Seq<u8>) -> Option<Seq<char>>;

/// `jsonwebtoken::encode` of the claims `{sub, iat, exp}` with the default
/// header (HS256) and an HMAC key made from the secret. The contract ties the
/// token to `session_token` and claims, as the source shows, that it always
/// gives one: the key's family matches the header's algorithm, the header and
/// a map of integers always serialise, and HMAC signing always succeeds.
#[verifier::external_body]
pub(crate) fn sign_session(sub: i32, iat: i64, exp: i64, secret: &[u8]) -> (r: Option<String>)
    ensures
        r is Some,
        r matches Some(t) ==> session_token(sub, iat, exp, secret@) == Some(t@),
        r is None ==> session_token(sub, iat, exp, secret@) is None,
{
    let mut claims: std::collections::BTreeMap<&str, i64> = std::collections::BTreeMap::new();
    claims.insert("sub", sub as i64);
    claims.insert("iat", iat);
    claims.insert("exp", exp);
    let key = jsonwebtoken::EncodingKey::from_secret(secret);
    jsonwebtoken::encode(&jsonwebtoken::Header::default(), &claims, &key).ok()
}

/// `c` is the session cookie carrying token `t`: an http-only, not secure
/// cookie named `Authorization` on path `/`.
pub open spec fn is_session_cookie(c: AuthCookie, t: Seq<char>) -> bool {
    &&& c.name@ == "Authorization"@
    &&& c.value@ == t
    &&& c.http_only
    &&& !c.secure
    &&& c.path@ == "/"@
}

/// The session cookie of `user_id`, issued at `now` and valid for 30 days,
/// its token signed with the secret. (Were the token not signed, the answer
/// would be 500 naming the user; with an HMAC key signing always succeeds.)
pub fn create_cookie(user_id: i32, now: i64, secret: &[u8]) -> (r: Result<AuthCookie, Reply>)
    requires
        now <= i64::MAX - TOKEN_LIFETIME_SECONDS,
    ensures
        session_token(user_id, now, (now + TOKEN_LIFETIME_SECONDS) as i64, secret@) is Some,
        r matches Ok(c) && is_session_cookie(
            c,
            session_token(user_id, now, (now + TOKEN_LIFETIME_SECONDS) as i64, secret@)->Some_0,
        ),
{
    let claims = token_claims(user_id, now);
    match sign_session(claims.sub, claims.iat, claims.exp, secret) {
        Some(t) => Ok(AuthCookie {
            name: owned("Authorization"),
            value: t,
            http_only: true,
            secure: false,
            path: owned("/"),
        }),
        None => {
            let mut message = owned("Issue signing token for user with id: ");
            append_i32_decimal(&mut message, user_id);
            message.append(".");
            Err(Reply::text(STATUS_INTERNAL_SERVER_ERROR, message))
        },
    }
}

/// Why looking a user up gave no user; each carries the query's error text.
pub enum LookupError {
    /// No row matched.
    NotFound(String),
    /// The query failed.
    Failed(String),
}

/// `r` is 400 listing exactly these failed fields.
pub open spec fn is_invalid_fields_reply(r: Reply, fields: Seq<CredentialField>) -> bool {
    &&& r.status == 400
    &&& r.body matches ReplyBody::InvalidFields(f)
    &&& f@ == fields
}

/// `r` is 200 with the id, username and role of the user.
pub open spec fn is_login_reply(r: Reply, u: User) -> bool {
    &&& r.status == 200
    &&& r.body matches ReplyBody::Login(b)
    &&& b.id == u.id
    &&& b.username@ == u.username@
    &&& b.role@ == u.role@
}

/// `r` is 200 with the token's subject and the user's role and username.
pub open spec fn is_token_reply(r: Reply, subject: i32, u: User) -> bool {
    &&& r.status == 200
    &&& r.body matches ReplyBody::Token(t)
    &&& t.id == subject
    &&& t.role@ == u.role@
    &&& t.username@ == u.username@
}

/// 400 listing the fields of a request body that failed validation.
pub fn invalid_body(fields: Vec<CredentialField>) -> (r: Reply)
    ensures
        is_invalid_fields_reply(r, fields@),
{
    Reply { status: STATUS_BAD_REQUEST, body: ReplyBody::InvalidFields(fields) }
}

/// What a login comes to once the user's row has been looked up.
pub enum LoginOutcome {
    /// Answer with this reply; no token is issued.
    Rejected(Reply),
    /// Issue a session token for this user and answer with this reply.
    Accepted { user_id: i32, reply: Reply },
}

/// What bcrypt says of the login's password against the user's stored hash.
pub open spec fn login_verdict(body: LoginCredentials, user: User) -> Result<bool, Seq<char>> {
    bcrypt_verdict(body.password@, user.password_hash@)
}

/// The first step of `POST /auth/login`: 400 unless the credentials are valid.
pub fn check_login(body: &LoginCredentials) -> (r: Result<(), Reply>)
    ensures
        r is Ok <==> body.failed_fields().len() == 0,
        r matches Err(reply) ==> is_invalid_fields_reply(reply, body.failed_fields()),
{
    match body.validate() {
        Ok(()) => Ok(()),
        Err(fields) => Err(invalid_body(fields)),
    }
}

/// `POST /auth/login`, given the lookup of the user by username: 400 when
/// the credentials are invalid (the lookup is then not needed, see
/// `check_login`); 401 when there is no such user or the password does not
/// match; 500 with the error's text when the query or bcrypt fails; otherwise
/// a token is to be issued for the user, with 200 and the user's id,
/// username and role.
pub fn login(body: &LoginCredentials, user: Result<User, LookupError>) -> (r: LoginOutcome)
    ensures
        body.failed_fields().len() != 0 ==> (r matches LoginOutcome::Rejected(reply)
            && is_invalid_fields_reply(reply, body.failed_fields())),
        body.failed_fields().len() == 0 ==> match user {
            Err(LookupError::Failed(m)) => r matches LoginOutcome::Rejected(reply) && is_text_reply(reply, 500, m@),
            Err(LookupError::NotFound(_)) => r matches LoginOutcome::Rejected(reply) && is_error_reply(
                reply,
                401,
                "Unauthorized"@,
                "Username or password incorrect."@,
            ),
            Ok(u) => match login_verdict(*body, u) {
                Err(m) => r matches LoginOutcome::Rejected(reply) && is_text_reply(reply, 500, m),
                Ok(false) => r matches LoginOutcome::Rejected(reply) && is_error_reply(
                    reply,
                    401,
                    "Unauthorized"@,
                    "Username or password incorrect."@,
                ),
                Ok(true) => r matches LoginOutcome::Accepted { user_id, reply } && user_id == u.id
                    && is_login_reply(reply, u),
            },
        },
{
    if let Err(reply) = check_login(body) {
        return LoginOutcome::Rejected(reply);
    }
    match user {
        Err(LookupError::Failed(message)) => LoginOutcome::Rejected(Reply::text(STATUS_INTERNAL_SERVER_ERROR, message)),
        Err(LookupError::NotFound(_)) => LoginOutcome::Rejected(err::incorrect_credentials()),
        Ok(u) => match verify_password(body.password.as_str(), u.password_hash.as_str()) {
            Err(message) => LoginOutcome::Rejected(Reply::text(STATUS_INTERNAL_SERVER_ERROR, message)),
            Ok(false) => LoginOutcome::Rejected(err::incorrect_credentials()),
            Ok(true) => {
                let id = u.id;
                LoginOutcome::Accepted {
                    user_id: id,
                    reply: Reply {
                        status: STATUS_OK,
                        body: ReplyBody::Login(LoginResponse { id: id as i64, username: u.username, role: u.role }),
                    },
                }
            },
        },
    }
}

/// What `GET /auth/token` does first.
pub enum TokenStep {
    /// Look up the user with this id and report to `token_user`.
    Lookup(i32),
    /// Answer with this reply.
    Respond(Reply),
}

/// `GET /auth/token`: 401 "No token." when the request carries no claims;
/// otherwise look up the token's user.
pub fn read_token(claims: Option<Claims>) -> (r: TokenStep)
    ensures
        claims is None ==> (r matches TokenStep::Respond(reply) && is_text_reply(reply, 401, "No token."@)),
        claims matches Some(c) ==> r == TokenStep::Lookup(c.sub),
{
    match require_claims(claims) {
        Ok(c) => TokenStep::Lookup(c.sub),
        Err(reply) => TokenStep::Respond(reply),
    }
}

/// The rest of `GET /auth/token` once the token's user has been looked up:
/// 404 with the error's text when there is no such user, 500 with it when the
/// query failed, or 200 with the user's id, role and username.
pub fn token_user(subject: i32, user: Result<User, LookupError>) -> (r: Reply)
    ensures
        user matches Err(LookupError::NotFound(m)) ==> is_text_reply(r, 404, m@),
        user matches Err(LookupError::Failed(m)) ==> is_text_reply(r, 500, m@),
        user matches Ok(u) ==> is_token_reply(r, subject, u),
{
    match user {
        Err(LookupError::NotFound(message)) => Reply::text(STATUS_NOT_FOUND, message),
        Err(LookupError::Failed(message)) => Reply::text(STATUS_INTERNAL_SERVER_ERROR, message),
        Ok(u) => Reply {
            status: STATUS_OK,
            body: ReplyBody::Token(TokenResponse { id: subject, role: u.role, username: u.username }),
        },
    }
}

/// `PATCH /auth/email`: not implemented yet.
pub fn change_email() -> (r: Reply)
    ensures
        r.status == 501,
        r.body is Empty,
{
    Reply::empty(STATUS_NOT_IMPLEMENTED)
}

/// `PATCH /auth/username`: not implemented yet.
pub fn change_username() -> (r: Reply)
    ensures
        r.status == 501,
        r.body is Empty,
{
    Reply::empty(STATUS_NOT_IMPLEMENTED)
}

/// `PATCH /auth/password`: not implemented yet.
pub fn change_password() -> (r: Reply)
    ensures
        r.status == 501,
        r.body is Empty,
{
    Reply::empty(STATUS_NOT_IMPLEMENTED)
}


/// How far a registration has come.
#[derive(Clone, Copy, Debug, PartialEq, Eq, Structural)]
pub enum RegisterStage {
    /// Nothing done yet.
    Start,
    /// Waiting for whether the username is taken.
    UsernameCheck,
    /// Waiting for whether the email is taken.
    EmailCheck,
    /// Waiting for the new user's row to be stored.
    Storing,
    /// Answered.
    Finished,
}

/// What the handler reports back to the registration.
pub enum RegisterEvent {
    /// The request arrived.
    Begin,
    /// Whether another user has the username, or the query's error.
    UsernameChecked(Result<bool, String>),
    /// Whether another user has the email, or the query's error.
    EmailChecked(Result<bool, String>),
    /// The id of the stored user, or the query's error.
    Stored(Result<i32, String>),
}

/// What the registration asks the handler to do next.
pub enum RegisterAction {
    /// Ask whether another user has this username.
    CheckUsername(String),
    /// Ask whether another user has this email.
    CheckEmail(String),
    /// Store a new user.
    Store { email: String, username: String, password_hash: String, role: String },
    /// Issue a session token for the new user and answer with the reply.
    IssueToken { user_id: i32, reply: Reply },
    /// Answer with the reply; the registration is over.
    Respond(Reply),
}

/// The decisions of `POST /auth/register`, one event at a time.
pub struct Registration {
    pub credentials: RegistrationCredentials,
    pub stage: RegisterStage,
}

/// The event is the one that the stage waits for.
pub open spec fn event_fits(stage: RegisterStage, event: RegisterEvent) -> bool {
    match stage {
        RegisterStage::Start => event is Begin,
        RegisterStage::UsernameCheck => event is UsernameChecked,
        RegisterStage::EmailCheck => event is EmailChecked,
        RegisterStage::Storing => event is Stored,
        RegisterStage::Finished => false,
    }
}

/// The stages a registration may move between on an event, given whether
/// its credentials are valid.
pub open spec fn stage_allowed(valid: bool, from: RegisterStage, event: RegisterEvent, to: RegisterStage) -> bool {
    match event {
        RegisterEvent::Begin => from == RegisterStage::Start && to == (if valid {
            RegisterStage::UsernameCheck
        } else {
            RegisterStage::Finished
        }),
        RegisterEvent::UsernameChecked(answer) => from == RegisterStage::UsernameCheck && to == (
        if answer == Ok::<bool, String>(false) {
            RegisterStage::EmailCheck
        } else {
            RegisterStage::Finished
        }),
        RegisterEvent::EmailChecked(answer) => from == RegisterStage::EmailCheck && (if answer == Ok::<
            bool,
            String,
        >(false) {
            to == RegisterStage::Storing || to == RegisterStage::Finished
        } else {
            to == RegisterStage::Finished
        }),
        RegisterEvent::Stored(_) => from == RegisterStage::Storing && to == RegisterStage::Finished,
    }
}

/// `r` is 201 with the new user's id, the username and the role `user`.
pub open spec fn is_registration_reply(r: Reply, id: i32, username: Seq<char>) -> bool {
    &&& r.status == 201
    &&& r.body matches ReplyBody::Registration(b)
    &&& b.id == id
    &&& b.username@ == username
    &&& b.role@ == "user"@
}

/// The action that a step gives for the stage and event it was given.
pub open spec fn action_fits(
    credentials: RegistrationCredentials,
    stage: RegisterStage,
    event: RegisterEvent,
    action: RegisterAction,
) -> bool {
    match event {
        RegisterEvent::Begin => if credentials.failed_fields().len() == 0 {
            action matches RegisterAction::CheckUsername(u) && u@ == credentials.username@
        } else {
            action matches RegisterAction::Respond(reply) && is_invalid_fields_reply(
                reply,
                credentials.failed_fields(),
            )
        },
        RegisterEvent::UsernameChecked(answer) => match answer {
            Err(m) => action matches RegisterAction::Respond(reply) && is_text_reply(reply, 500, m@),
            Ok(true) => action matches RegisterAction::Respond(reply) && is_error_reply(
                reply,
                409,
                "Conflict"@,
                "Username taken."@,
            ),
            Ok(false) => action matches RegisterAction::CheckEmail(e) && e@ == credentials.email@,
        },
        RegisterEvent::EmailChecked(answer) => match answer {
            Err(m) => action matches RegisterAction::Respond(reply) && is_text_reply(reply, 500, m@),
            Ok(true) => action matches RegisterAction::Respond(reply) && is_error_reply(
                reply,
                409,
                "Conflict"@,
                "Email taken"@,
            ),
            Ok(false) => match action {
                RegisterAction::Store { email, username, password_hash, role } => {
                    &&& email@ == credentials.email@
                    &&& username@ == credentials.username@
                    &&& role@ == "user"@
                    &&& bcrypt_verdict(credentials.password@, password_hash@) == Ok::<bool, Seq<char>>(true)
                    &&& password_hash@.len() == 60
                    &&& password_hash@.take(7) == "$2b$12$"@
                },
                RegisterAction::Respond(reply) => reply.status == 500 && reply.body is Text,
                _ => false,
            },
        },
        RegisterEvent::Stored(answer) => match answer {
            Err(m) => action matches RegisterAction::Respond(reply) && is_text_reply(reply, 500, m@),
            Ok(id) => action matches RegisterAction::IssueToken { user_id, reply } && user_id == id
                && is_registration_reply(reply, id, credentials.username@),
        },
    }
}

impl Registration {
    /// A registration of these credentials, with nothing done yet.
    pub fn new(credentials: RegistrationCredentials) -> (r: Registration)
        ensures
            r.credentials == credentials,
            r.stage == RegisterStage::Start,
    {
        Registration { credentials, stage: RegisterStage::Start }
    }

    /// Whether `event` is the one this registration waits for.
    pub fn fits(&self, event: &RegisterEvent) -> (r: bool)
        ensures
            r == event_fits(self.stage, *event),
    {
        match (self.stage, event) {
            (RegisterStage::Start, RegisterEvent::Begin) => true,
            (RegisterStage::UsernameCheck, RegisterEvent::UsernameChecked(_)) => true,
            (RegisterStage::EmailCheck, RegisterEvent::EmailChecked(_)) => true,
            (RegisterStage::Storing, RegisterEvent::Stored(_)) => true,
            _ => false,
        }
    }

    /// The password of the credentials was hashed, with this outcome: a hash
    /// stores the user with it and the role `user`; a failure answers 500
    /// with the failure's text.
    pub fn hashed(&mut self, outcome: Result<String, String>) -> (action: RegisterAction)
        requires
            old(self).stage == RegisterStage::EmailCheck,
        ensures
            final(self).credentials == old(self).credentials,
            outcome matches Ok(h) ==> {
                &&& final(self).stage == RegisterStage::Storing
                &&& action matches RegisterAction::Store { email, username, password_hash, role }
                &&& email@ == old(self).credentials.email@
                &&& username@ == old(self).credentials.username@
                &&& password_hash == h
                &&& role@ == "user"@
            },
            outcome matches Err(m) ==> {
                &&& final(self).stage == RegisterStage::Finished
                &&& action matches RegisterAction::Respond(reply)
                &&& is_text_reply(reply, 500, m@)
            },
    {
        match outcome {
            Err(message) => {
                self.stage = RegisterStage::Finished;
                RegisterAction::Respond(Reply::text(STATUS_INTERNAL_SERVER_ERROR, message))
            },
            Ok(password_hash) => {
                self.stage = RegisterStage::Storing;
                RegisterAction::Store {
                    email: self.credentials.email.clone(),
                    username: self.credentials.username.clone(),
                    password_hash,
                    role: owned("user"),
                }
            },
        }
    }

    /// Takes the next event and says what to do: check that the username and
    /// then the email are free, hash the password, store the user, and issue
    /// a token; any failure or refusal answers at once.
    pub fn step(&mut self, event: RegisterEvent) -> (action: RegisterAction)
        requires
            event_fits(old(self).stage, event),
        ensures
            final(self).credentials == old(self).credentials,
            stage_allowed(
                old(self).credentials.failed_fields().len() == 0,
                old(self).stage,
                event,
                final(self).stage,
            ),
            action_fits(old(self).credentials, old(self).stage, event, action),
            action is Store <==> final(self).stage == RegisterStage::Storing,
    {
        match event {
            RegisterEvent::Begin => match self.credentials.validate() {
                Ok(()) => {
                    self.stage = RegisterStage::UsernameCheck;
                    RegisterAction::CheckUsername(self.credentials.username.clone())
                },
                Err(fields) => {
                    self.stage = RegisterStage::Finished;
                    RegisterAction::Respond(invalid_body(fields))
                },
            },
            RegisterEvent::UsernameChecked(answer) => match answer {
                Err(m) => {
                    self.stage = RegisterStage::Finished;
                    RegisterAction::Respond(Reply::text(STATUS_INTERNAL_SERVER_ERROR, m))
                },
                Ok(true) => {
                    self.stage = RegisterStage::Finished;
                    RegisterAction::Respond(err::username_taken())
                },
                Ok(false) => {
                    self.stage = RegisterStage::EmailCheck;
                    RegisterAction::CheckEmail(self.credentials.email.clone())
                },
            },
            RegisterEvent::EmailChecked(answer) => match answer {
                Err(m) => {
                    self.stage = RegisterStage::Finished;
                    RegisterAction::Respond(Reply::text(STATUS_INTERNAL_SERVER_ERROR, m))
                },
                Ok(true) => {
                    self.stage = RegisterStage::Finished;
                    RegisterAction::Respond(err::email_taken())
                },
                Ok(false) => {
                    let outcome = hash_password(self.credentials.password.as_str());
                    self.hashed(outcome)
                },
            },
            RegisterEvent::Stored(answer) => {
                self.stage = RegisterStage::Finished;
                match answer {
                    Err(m) => RegisterAction::Respond(Reply::text(STATUS_INTERNAL_SERVER_ERROR, m)),
                    Ok(id) => RegisterAction::IssueToken {
                        user_id: id,
                        reply: Reply {
                            status: STATUS_CREATED,
                            body: ReplyBody::Registration(
                                RegistrationResponse {
                                    id: id as i64,
                                    username: self.credentials.username.clone(),
                                    role: owned("user"),
                                },
                            ),
                        },
                    },
                }
            },
        }
    }
}

/// A run of a registration: the stages it went through and the events
/// between them, each step allowed, starting from `Start`.
pub open spec fn is_register_run(valid: bool, stages: Seq<RegisterStage>, events: Seq<RegisterEvent>) -> bool {
    &&& stages.len() == events.len() + 1
    &&& stages[0] == RegisterStage::Start
    &&& forall|i: int|
        0 <= i < events.len() ==> stage_allowed(valid, stages[i], #[trigger] events[i], stages[i + 1])
}

/// Within a run, a stage past the username check was reached only after the
/// username was reported free, and any stage past `Start` other than
/// `Finished` only with valid credentials.
proof fn lemma_run_prefix(valid: bool, stages: Seq<RegisterStage>, events: Seq<RegisterEvent>, k: int)
    requires
        is_register_run(valid, stages, events),
        0 <= k < stages.len(),
    ensures
        (stages[k] == RegisterStage::UsernameCheck || stages[k] == RegisterStage::EmailCheck
            || stages[k] == RegisterStage::Storing) ==> valid,
        (stages[k] == RegisterStage::EmailCheck || stages[k] == RegisterStage::Storing) ==> exists|i: int|
            0 <= i < k && #[trigger] events[i] == RegisterEvent::UsernameChecked(Ok(false)),
    decreases k,
{
    if k > 0 {
        lemma_run_prefix(valid, stages, events, k - 1);
        assert(stage_allowed(valid, stages[k - 1], events[k - 1], stages[k]));
        if stages[k] == RegisterStage::EmailCheck {
            assert(events[k - 1] == RegisterEvent::UsernameChecked(Ok(false)));
        }
    }
}

/// A user is stored only when the credentials are valid, the username was
/// reported free, and after that the email was reported free.
pub proof fn law_stored_only_when_free(valid: bool, stages: Seq<RegisterStage>, events: Seq<RegisterEvent>)
    requires
        is_register_run(valid, stages, events),
        stages.last() == RegisterStage::Storing,
    ensures
        valid,
        exists|i: int, j: int|
            0 <= i < j < events.len() && #[trigger] events[i] == RegisterEvent::UsernameChecked(Ok(false))
                && #[trigger] events[j] == RegisterEvent::EmailChecked(Ok(false)),
{
    let n = events.len() as int;
    assert(n > 0);
    lemma_run_prefix(valid, stages, events, n);
    lemma_run_prefix(valid, stages, events, n - 1);
    assert(stage_allowed(valid, stages[n - 1], events[n - 1], stages[n]));
    assert(stages[n - 1] == RegisterStage::EmailCheck);
    assert(events[n - 1] == RegisterEvent::EmailChecked(Ok(false)));
    let i = choose|i: int| 0 <= i < n - 1 && #[trigger] events[i] == RegisterEvent::UsernameChecked(Ok(false));
    assert(0 <= i < n - 1 < events.len() && events[i] == RegisterEvent::UsernameChecked(Ok(false))
        && events[n - 1] == RegisterEvent::EmailChecked(Ok(false)));
}

/// A registered password logs in: when a registration stores a user, a
/// login with the same password against that user's stored hash is accepted.
pub proof fn law_registered_password_logs_in(
    credentials: RegistrationCredentials,
    stored: RegisterAction,
    body: LoginCredentials,
    user: User,
)
    requires
        action_fits(credentials, RegisterStage::EmailCheck, RegisterEvent::EmailChecked(Ok(false)), stored),
        stored matches RegisterAction::Store { password_hash, .. } && user.password_hash@ == password_hash@,
        body.password@ == credentials.password@,
    ensures
        login_verdict(body, user) == Ok::<bool, Seq<char>>(true),
{
}

/// The stored hash is never the password itself, unless the password has the
/// very shape of a bcrypt hash (60 characters starting with `$2b$12$`).
pub proof fn law_stored_hash_is_not_the_password(credentials: RegistrationCredentials, stored: RegisterAction)
    requires
        action_fits(credentials, RegisterStage::EmailCheck, RegisterEvent::EmailChecked(Ok(false)), stored),
        stored is Store,
        !(credentials.password@.len() == 60 && credentials.password@.take(7) == "$2b$12$"@),
    ensures
        stored matches RegisterAction::Store { password_hash, .. } && password_hash@ != credentials.password@,
{
}

} // verus!
