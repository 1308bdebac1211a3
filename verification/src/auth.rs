//! The login and sign-up handlers: which answer each outcome of validation,
//! lookup, password check and token issue leads to.
use vstd::prelude::*;
use crate::clock::{now, Timestamp};
use crate::rate_limit::is_clock_reading;
use crate::reply::DbReply;
use crate::users::{CreateUser, GetUser, User, UserDataSignIn, UserDataSignUp};

verus! {

/// The JSON body of an answer.
#[derive(Debug, Clone)]
pub enum ResponseBody {
    /// A bare JSON string.
    Text(String),
    /// `{"issues": [...]}`.
    Issues(Vec<String>),
    /// `{"token": ...}`.
    Token(String),
    /// `{"message": ...}`.
    Message(String),
}

/// An HTTP answer: status code and JSON body.
#[derive(Debug, Clone)]
pub struct ApiResponse {
    pub status: u16,
    pub body: ResponseBody,
}

/// Text of the issue reported when the database could not be reached or a
/// token could not be issued.
pub open spec fn something_went_wrong() -> Seq<char> {
    "something went wrong"@
}

/// Text of the issue reported for unknown users and wrong passwords.
pub open spec fn wrong_credentials() -> Seq<char> {
    "wrong password or email"@
}

/// The answer has `status` and a body listing exactly the issue `text`.
pub open spec fn answers_issue(r: ApiResponse, status: u16, text: Seq<char>) -> bool {
    &&& r.status == status
    &&& r.body matches ResponseBody::Issues(v)
    &&& v@.len() == 1
    &&& v@[0]@ == text
}

/// The answer to a body that could not be turned into JSON.
pub open spec fn answers_unserializable(r: ApiResponse) -> bool {
    &&& r.status == 500
    &&& r.body matches ResponseBody::Text(t) && t@ == "Something went wrong"@
}

/// The answer with `status` listing the single issue `text`.
fn single_issue(status: u16, text: &str) -> (r: ApiResponse)
    ensures
        answers_issue(r, status, text@),
{
    let mut issues: Vec<String> = Vec::new();
    issues.push(text.to_string());
    ApiResponse { status, body: ResponseBody::Issues(issues) }
}

/// The answer to a body that could not be turned into JSON.
fn unserializable() -> (r: ApiResponse)
    ensures
        answers_unserializable(r),
{
    ApiResponse { status: 500, body: ResponseBody::Text("Something went wrong".to_string()) }
}

/// The outcome of turning a request body into JSON and checking it against
/// the handler's schema.
#[derive(Debug, Clone)]
pub enum Validation {
    /// The body could not be turned into JSON.
    NotSerializable,
    /// The body breaks the schema; these are the issues found.
    Invalid(Vec<String>),
    /// The body meets the schema.
    Valid,
}

/// The answer to a body that is not valid, if it is not.
pub open spec fn answers_validation(v: Validation, r: ApiResponse) -> bool {
    match v {
        Validation::NotSerializable => answers_unserializable(r),
        Validation::Invalid(issues) => r.status == 400 && r.body == ResponseBody::Issues(issues),
        Validation::Valid => false,
    }
}

/// The value of a field that the request is known to carry.
fn present(field: &Option<String>) -> (value: String)
    requires
        field is Some,
    ensures
        value == field->0,
{
    match field {
        Some(v) => v.clone(),
        None => String::new(),
    }
}

/// A login request.
pub struct SignInRequest {
    pub user: UserDataSignIn,
}

/// Where a login stands.
#[derive(Debug, Clone)]
pub enum SignInState {
    AwaitingValidation,
    AwaitingUser,
    /// The given password is being checked against the stored hash of
    /// this user.
    AwaitingPasswordCheck { user_id: i32, user_access_level: i32 },
    AwaitingToken,
    Finished,
}

/// The outcome of the last piece of outside work of a login.
#[derive(Debug, Clone)]
pub enum SignInEvent {
    Validated(Validation),
    UserReply(DbReply<User>),
    PasswordChecked(bool),
    /// The signed token, or `None` when it could not be issued.
    TokenIssued(Option<String>),
}

/// What a login does next.
pub enum SignInAction {
    /// Turn the body into JSON and check it against the login schema.
    Validate,
    SendGetUser(GetUser),
    /// Check the given password against the stored hash.
    VerifyPassword { stored: String, given: String },
    /// Issue a token for the user.
    GenToken { user_id: i32, user_access_level: i32 },
    /// Answer the client.
    Respond(ApiResponse),
}

/// Whether the state expects this outcome; a valid body has an email, and
/// a body whose user was found has a password.
pub open spec fn sign_in_accepts(req: SignInRequest, state: SignInState, event: SignInEvent) -> bool {
    match state {
        SignInState::AwaitingValidation => {
            &&& event is Validated
            &&& event matches SignInEvent::Validated(Validation::Valid) ==> req.user.email is Some
        },
        SignInState::AwaitingUser => {
            &&& event is UserReply
            &&& event matches SignInEvent::UserReply(DbReply::Done(_)) ==> req.user.password is Some
        },
        SignInState::AwaitingPasswordCheck { .. } => event is PasswordChecked,
        SignInState::AwaitingToken => event is TokenIssued,
        SignInState::Finished => false,
    }
}

/// The login answers `r` and ends.
pub open spec fn sign_in_answers(next: SignInState, action: SignInAction, r: ApiResponse) -> bool {
    next == SignInState::Finished && action == SignInAction::Respond(r)
}

/// The login answers with `status` and the single issue `text`, and ends.
pub open spec fn sign_in_issue(next: SignInState, action: SignInAction, status: u16, text: Seq<char>) -> bool {
    &&& next == SignInState::Finished
    &&& action matches SignInAction::Respond(r) && answers_issue(r, status, text)
}

/// The next state and action of a login after `event` in `state`.
pub open spec fn sign_in_next(
    req: SignInRequest,
    state: SignInState,
    event: SignInEvent,
    next: SignInState,
    action: SignInAction,
) -> bool {
    match state {
        SignInState::AwaitingValidation => match event {
            SignInEvent::Validated(Validation::Valid) => {
                next == SignInState::AwaitingUser && action == SignInAction::SendGetUser(
                    GetUser { email: req.user.email->0 },
                )
            },
            SignInEvent::Validated(v) => {
                &&& next == SignInState::Finished
                &&& action matches SignInAction::Respond(r) && answers_validation(v, r)
            },
            _ => false,
        },
        SignInState::AwaitingUser => match event {
            SignInEvent::UserReply(DbReply::Done(user)) => {
                &&& next == (SignInState::AwaitingPasswordCheck {
                    user_id: user.id,
                    user_access_level: user.access_level,
                })
                &&& action == (SignInAction::VerifyPassword {
                    stored: user.password,
                    given: req.user.password->0,
                })
            },
            SignInEvent::UserReply(DbReply::QueryFailed) => sign_in_issue(next, action, 401, wrong_credentials()),
            SignInEvent::UserReply(DbReply::MailboxFailed) => sign_in_issue(next, action, 500, something_went_wrong()),
            _ => false,
        },
        SignInState::AwaitingPasswordCheck { user_id, user_access_level } => match event {
            SignInEvent::PasswordChecked(true) => {
                next == SignInState::AwaitingToken && action == (SignInAction::GenToken {
                    user_id,
                    user_access_level,
                })
            },
            SignInEvent::PasswordChecked(false) => sign_in_issue(next, action, 401, wrong_credentials()),
            _ => false,
        },
        SignInState::AwaitingToken => match event {
            SignInEvent::TokenIssued(Some(token)) => sign_in_answers(
                next,
                action,
                ApiResponse { status: 200, body: ResponseBody::Token(token) },
            ),
            SignInEvent::TokenIssued(None) => sign_in_issue(next, action, 500, something_went_wrong()),
            _ => false,
        },
        SignInState::Finished => false,
    }
}

/// The first step of a login: validate the body.
pub fn sign_in_begin() -> (res: (SignInState, SignInAction))
    ensures
        res.0 == SignInState::AwaitingValidation,
        res.1 == SignInAction::Validate,
{
    (SignInState::AwaitingValidation, SignInAction::Validate)
}

/// One step of a login.
pub fn sign_in_step(req: &SignInRequest, state: SignInState, event: SignInEvent) -> (res: (SignInState, SignInAction))
    requires
        sign_in_accepts(*req, state, event),
    ensures
        sign_in_next(*req, state, event, res.0, res.1),
{
    match state {
        SignInState::AwaitingValidation => match event {
            SignInEvent::Validated(Validation::Valid) => {
                let email = present(&req.user.email);
                (SignInState::AwaitingUser, SignInAction::SendGetUser(GetUser { email }))
            },
            SignInEvent::Validated(Validation::Invalid(issues)) => (
                SignInState::Finished,
                SignInAction::Respond(ApiResponse { status: 400, body: ResponseBody::Issues(issues) }),
            ),
            _ => (SignInState::Finished, SignInAction::Respond(unserializable())),
        },
        SignInState::AwaitingUser => match event {
            SignInEvent::UserReply(DbReply::Done(user)) => {
                let given = present(&req.user.password);
                (
                    SignInState::AwaitingPasswordCheck {
                        user_id: user.id,
                        user_access_level: user.access_level,
                    },
                    SignInAction::VerifyPassword { stored: user.password, given },
                )
            },
            SignInEvent::UserReply(DbReply::QueryFailed) => (
                SignInState::Finished,
                SignInAction::Respond(single_issue(401, "wrong password or email")),
            ),
            _ => (
                SignInState::Finished,
                SignInAction::Respond(single_issue(500, "something went wrong")),
            ),
        },
        SignInState::AwaitingPasswordCheck { user_id, user_access_level } => match event {
            SignInEvent::PasswordChecked(true) => (
                SignInState::AwaitingToken,
                SignInAction::GenToken { user_id, user_access_level },
            ),
            _ => (
                SignInState::Finished,
                SignInAction::Respond(single_issue(401, "wrong password or email")),
            ),
        },
        SignInState::AwaitingToken => match event {
            SignInEvent::TokenIssued(Some(token)) => (
                SignInState::Finished,
                SignInAction::Respond(ApiResponse { status: 200, body: ResponseBody::Token(token) }),
            ),
            _ => (
                SignInState::Finished,
                SignInAction::Respond(single_issue(500, "something went wrong")),
            ),
        },
        SignInState::Finished => (
            SignInState::Finished,
            SignInAction::Respond(single_issue(500, "something went wrong")),
        ),
    }
}

/// Access level of a newly registered user.
pub const NEW_USER_ACCESS_LEVEL: i32 = 1;

/// Text of the message sent once an account is created.
pub open spec fn account_created() -> Seq<char> {
    "Your account created successfully, use login api to get auth token"@
}

/// A sign-up request.
pub struct SignUpRequest {
    pub user: UserDataSignUp,
}

/// Where a sign-up stands.
#[derive(Debug, Clone)]
pub enum SignUpState {
    AwaitingValidation,
    AwaitingHash,
    AwaitingCreate,
    Finished,
}

/// The outcome of the last piece of outside work of a sign-up.
#[derive(Debug, Clone)]
pub enum SignUpEvent {
    Validated(Validation),
    /// The salted hash of the password, or `None` when hashing failed.
    Hashed(Option<String>),
    UserReply(DbReply<User>),
}

/// What a sign-up does next.
pub enum SignUpAction {
    /// Turn the body into JSON and check it against the sign-up schema.
    Validate,
    /// Hash this password with the service's salt.
    HashPassword(String),
    SendCreateUser(CreateUser),
    /// Answer the client.
    Respond(ApiResponse),
}

/// Whether the state expects this outcome; a valid body has a password,
/// and a body whose password was hashed has names and an email.
pub open spec fn sign_up_accepts(req: SignUpRequest, state: SignUpState, event: SignUpEvent) -> bool {
    match state {
        SignUpState::AwaitingValidation => {
            &&& event is Validated
            &&& event matches SignUpEvent::Validated(Validation::Valid) ==> req.user.password is Some
        },
        SignUpState::AwaitingHash => {
            &&& event is Hashed
            &&& event matches SignUpEvent::Hashed(Some(_)) ==> {
                &&& req.user.first_name is Some
                &&& req.user.last_name is Some
                &&& req.user.email is Some
            }
        },
        SignUpState::AwaitingCreate => event is UserReply,
        SignUpState::Finished => false,
    }
}

/// The sign-up answers with `status` and the single issue `text`, and ends.
pub open spec fn sign_up_issue(next: SignUpState, action: SignUpAction, status: u16, text: Seq<char>) -> bool {
    &&& next == SignUpState::Finished
    &&& action matches SignUpAction::Respond(r) && answers_issue(r, status, text)
}

/// The user registered for the body of `req`, with password hash `hash`,
/// registered at `at`.
pub open spec fn new_user_of(req: SignUpRequest, hash: String, at: Timestamp) -> CreateUser {
    CreateUser {
        first_name: req.user.first_name->0,
        last_name: req.user.last_name->0,
        email: req.user.email->0,
        password: hash,
        created_at: at,
        access_level: NEW_USER_ACCESS_LEVEL,
    }
}

/// The next state and action of a sign-up after `event` in `state`; the
/// registration instant is some reading of the clock.
pub open spec fn sign_up_next(
    req: SignUpRequest,
    state: SignUpState,
    event: SignUpEvent,
    next: SignUpState,
    action: SignUpAction,
) -> bool {
    match state {
        SignUpState::AwaitingValidation => match event {
            SignUpEvent::Validated(Validation::Valid) => {
                next == SignUpState::AwaitingHash && action == SignUpAction::HashPassword(req.user.password->0)
            },
            SignUpEvent::Validated(v) => {
                &&& next == SignUpState::Finished
                &&& action matches SignUpAction::Respond(r) && answers_validation(v, r)
            },
            _ => false,
        },
        SignUpState::AwaitingHash => match event {
            SignUpEvent::Hashed(Some(hash)) => {
                &&& next == SignUpState::AwaitingCreate
                &&& action matches SignUpAction::SendCreateUser(u)
                &&& is_clock_reading(u.created_at)
                &&& u == new_user_of(req, hash, u.created_at)
            },
            SignUpEvent::Hashed(None) => sign_up_issue(next, action, 401, wrong_credentials()),
            _ => false,
        },
        SignUpState::AwaitingCreate => match event {
            SignUpEvent::UserReply(DbReply::Done(_)) => {
                &&& next == SignUpState::Finished
                &&& action matches SignUpAction::Respond(r)
                &&& r.status == 200
                &&& r.body matches ResponseBody::Message(m) && m@ == account_created()
            },
            SignUpEvent::UserReply(DbReply::QueryFailed) => sign_up_issue(next, action, 401, wrong_credentials()),
            SignUpEvent::UserReply(DbReply::MailboxFailed) => sign_up_issue(next, action, 500, something_went_wrong()),
            _ => false,
        },
        SignUpState::Finished => false,
    }
}

/// The first step of a sign-up: validate the body.
pub fn sign_up_begin() -> (res: (SignUpState, SignUpAction))
    ensures
        res.0 == SignUpState::AwaitingValidation,
        res.1 == SignUpAction::Validate,
{
    (SignUpState::AwaitingValidation, SignUpAction::Validate)
}

/// One step of a sign-up.
pub fn sign_up_step(req: &SignUpRequest, state: SignUpState, event: SignUpEvent) -> (res: (SignUpState, SignUpAction))
    requires
        sign_up_accepts(*req, state, event),
    ensures
        sign_up_next(*req, state, event, res.0, res.1),
{
    match state {
        SignUpState::AwaitingValidation => match event {
            SignUpEvent::Validated(Validation::Valid) => {
                (SignUpState::AwaitingHash, SignUpAction::HashPassword(present(&req.user.password)))
            },
            SignUpEvent::Validated(Validation::Invalid(issues)) => (
                SignUpState::Finished,
                SignUpAction::Respond(ApiResponse { status: 400, body: ResponseBody::Issues(issues) }),
            ),
            _ => (SignUpState::Finished, SignUpAction::Respond(unserializable())),
        },
        SignUpState::AwaitingHash => match event {
            SignUpEvent::Hashed(Some(hash)) => {
                let user = CreateUser {
                    first_name: present(&req.user.first_name),
                    last_name: present(&req.user.last_name),
                    email: present(&req.user.email),
                    password: hash,
                    created_at: now(),
                    access_level: NEW_USER_ACCESS_LEVEL,
                };
                (SignUpState::AwaitingCreate, SignUpAction::SendCreateUser(user))
            },
            _ => (
                SignUpState::Finished,
                SignUpAction::Respond(single_issue(401, "wrong password or email")),
            ),
        },
        SignUpState::AwaitingCreate => match event {
            SignUpEvent::UserReply(DbReply::Done(_)) => (
                SignUpState::Finished,
                SignUpAction::Respond(
                    ApiResponse {
                        status: 200,
                        body: ResponseBody::Message(
                            "Your account created successfully, use login api to get auth token".to_string(),
                        ),
                    },
                ),
            ),
            SignUpEvent::UserReply(DbReply::QueryFailed) => (
                SignUpState::Finished,
                SignUpAction::Respond(single_issue(401, "wrong password or email")),
            ),
            _ => (
                SignUpState::Finished,
                SignUpAction::Respond(single_issue(500, "something went wrong")),
            ),
        },
        SignUpState::Finished => (
            SignUpState::Finished,
            SignUpAction::Respond(single_issue(500, "something went wrong")),
        ),
    }
}

/// A login issues a token only once the given password matched the stored
/// hash, and answers with a token only once one was issued.
pub proof fn lemma_sign_in_token_needs_password(
    req: SignInRequest,
    state: SignInState,
    event: SignInEvent,
    next: SignInState,
    action: SignInAction,
)
    requires
        sign_in_next(req, state, event, next, action),
    ensures
        action is GenToken ==> state is AwaitingPasswordCheck && event == SignInEvent::PasswordChecked(true),
        (action matches SignInAction::Respond(r) && r.body is Token) ==> state is AwaitingToken
            && event matches SignInEvent::TokenIssued(Some(_)),
{
}

/// An unknown email and a wrong password get the same answer, so the answer
/// does not tell which emails are registered.
pub proof fn lemma_sign_in_hides_unknown_users(
    req: SignInRequest,
    user_id: i32,
    user_access_level: i32,
    next1: SignInState,
    action1: SignInAction,
    next2: SignInState,
    action2: SignInAction,
)
    requires
        sign_in_next(req, SignInState::AwaitingUser, SignInEvent::UserReply(DbReply::QueryFailed), next1, action1),
        sign_in_next(
            req,
            SignInState::AwaitingPasswordCheck { user_id, user_access_level },
            SignInEvent::PasswordChecked(false),
            next2,
            action2,
        ),
    ensures
        sign_in_issue(next1, action1, 401, wrong_credentials()),
        sign_in_issue(next2, action2, 401, wrong_credentials()),
{
}

/// A sign-up stores the hash of the password, never the password itself,
/// and gives the new user the lowest signed-in access level.
pub proof fn lemma_sign_up_stores_hash(
    req: SignUpRequest,
    hash: String,
    next: SignUpState,
    action: SignUpAction,
)
    requires
        sign_up_next(req, SignUpState::AwaitingHash, SignUpEvent::Hashed(Some(hash)), next, action),
    ensures
        action matches SignUpAction::SendCreateUser(u) && u.password == hash && u.access_level == NEW_USER_ACCESS_LEVEL
            && u.email == req.user.email->0,
{
}

} // verus!
