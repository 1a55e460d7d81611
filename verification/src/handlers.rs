//! What the three endpoints answer. Each handler is given what was read for
//! it (the request's body, the store's answer) and decides the response; the
//! caller reads and writes.

use crate::errors::{AuthError, AuthErrorView, StoreError, StoreErrorView};
use crate::model::result_view;
use crate::token::{
    issue_at, role_of, signature_binds, spec_issue, spec_role_of, unix_now, valid_for_an_hour,
    VALIDITY_SECS,
};
use crate::text::is_infix;
use crate::users::{
    insert_outcome, lookup_view, spec_insert_outcome, spec_verify_credentials, verify_credentials,
    User, UserLoginRequest, UserView, UNIQUE_VIOLATION,
};
use vstd::prelude::*;

verus! {

/// HTTP status of a request that was answered.
pub const STATUS_OK: u16 = 200;

/// HTTP status of a registration that went through.
pub const STATUS_CREATED: u16 = 201;

/// What a registered client is told.
pub const REGISTERED_MESSAGE: &'static str = "User registered successfully";

/// The kind of token that a login hands out.
pub const TOKEN_TYPE: &'static str = "Bearer";

/// The answer to a registration that went through.
#[derive(Debug, Clone, PartialEq, Eq)]
pub struct Registered {
    pub status: u16,
    pub message: String,
}

/// A `Registered` in specifications.
pub struct RegisteredView {
    pub status: u16,
    pub message: Seq<char>,
}

impl View for Registered {
    type V = RegisteredView;

    open spec fn view(&self) -> RegisteredView {
        RegisteredView { status: self.status, message: self.message@ }
    }
}

/// The answer to a login that went through: the token and its kind.
#[derive(Debug, Clone, PartialEq, Eq)]
pub struct LoggedIn {
    pub status: u16,
    pub token: String,
    pub token_type: String,
}

/// A `LoggedIn` in specifications.
pub struct LoggedInView {
    pub status: u16,
    pub token: Seq<char>,
    pub token_type: Seq<char>,
}

impl View for LoggedIn {
    type V = LoggedInView;

    open spec fn view(&self) -> LoggedInView {
        LoggedInView { status: self.status, token: self.token@, token_type: self.token_type@ }
    }
}

/// The answer to a request for the caller's own profile: the account as the
/// store keeps it, the hash included.
#[derive(Debug, Clone, PartialEq, Eq)]
pub struct Profile {
    pub status: u16,
    pub user: User,
}

/// A `Profile` in specifications.
pub struct ProfileView {
    pub status: u16,
    pub user: UserView,
}

impl View for Profile {
    type V = ProfileView;

    open spec fn view(&self) -> ProfileView {
        ProfileView { status: self.status, user: self.user@ }
    }
}

/// What `register` answers, given the store's answer to the insert.
pub open spec fn spec_register(inserted: Result<(), StoreErrorView>) -> Result<
    RegisteredView,
    AuthErrorView,
> {
    match spec_insert_outcome(inserted) {
        Ok(()) => Ok(RegisteredView { status: STATUS_CREATED, message: REGISTERED_MESSAGE@ }),
        Err(e) => Err(e),
    }
}

/// What a login answers, given what issuing the token came to.
pub open spec fn spec_logged_in(token: Result<Seq<char>, AuthErrorView>) -> Result<
    LoggedInView,
    AuthErrorView,
> {
    match token {
        Ok(token) => Ok(LoggedInView { status: STATUS_OK, token, token_type: TOKEN_TYPE@ }),
        Err(e) => Err(e),
    }
}

/// What `login` answers at the time `now`, given what the lookup found.
pub open spec fn spec_login(
    found: Result<Option<UserView>, StoreErrorView>,
    password: Seq<char>,
    secret: Seq<char>,
    now: u64,
) -> Result<LoggedInView, AuthErrorView> {
    match spec_verify_credentials(found, password) {
        Err(e) => Err(e),
        Ok(user) => spec_logged_in(
            spec_issue(user.id, spec_role_of(user.superuser), secret, now),
        ),
    }
}

/// The token is the one issued at `now` to the account that the lookup found,
/// with the role that the account's privilege flag gives: it validates under
/// the secret from `now` on and for an hour, and names that account and role.
pub open spec fn token_names_account(
    token: Seq<char>,
    secret: Seq<char>,
    found: Result<Option<UserView>, StoreErrorView>,
    now: u64,
) -> bool {
    found matches Ok(Some(user)) && valid_for_an_hour(
        token,
        secret,
        user.id,
        spec_role_of(user.superuser),
        now,
    )
}

/// What `get_me` answers, given what the lookup by id gave.
pub open spec fn spec_get_me(fetched: Result<UserView, StoreErrorView>) -> Result<
    ProfileView,
    AuthErrorView,
> {
    match fetched {
        Ok(user) => Ok(ProfileView { status: STATUS_OK, user }),
        Err(e) => Err(AuthErrorView::DatabaseError(e)),
    }
}

/// Answers a registration, given the store's answer to the insert of the row
/// that `register_user` prepared: 201 and a message where the row went in, a
/// conflict where the email address or the username is taken, a database
/// error for every other failure.
pub fn register(inserted: Result<(), StoreError>) -> (answer: Result<Registered, AuthError>)
    ensures
        result_view(answer) == spec_register(result_view(inserted)),
{
    match insert_outcome(inserted) {
        Ok(()) => Ok(Registered { status: STATUS_CREATED, message: REGISTERED_MESSAGE.to_owned() }),
        Err(e) => Err(e),
    }
}

/// What a login answers, given what issuing the token came to: 200 with the
/// token and its kind, or the failure to issue one.
pub fn logged_in(token: Result<String, AuthError>) -> (answer: Result<LoggedIn, AuthError>)
    ensures
        result_view(answer) == spec_logged_in(result_view(token)),
{
    match token {
        Ok(token) => Ok(LoggedIn { status: STATUS_OK, token, token_type: TOKEN_TYPE.to_owned() }),
        Err(e) => Err(e),
    }
}

/// Answers a login at the time `now`, given what the lookup by the request's
/// email address found. Where the credentials hold, a token is issued to the
/// account, with the role that its privilege flag gives at this moment, and
/// sent with its kind. A token that was sent validates under the same secret
/// as long as the time is before `now + VALIDITY_SECS`, and names the account
/// and that role.
pub fn login_at(
    found: Result<Option<User>, StoreError>,
    data: &UserLoginRequest,
    secret: &str,
    now: u64,
) -> (answer: Result<LoggedIn, AuthError>)
    requires
        now + VALIDITY_SECS <= u64::MAX,
    ensures
        result_view(answer) == spec_login(lookup_view(found), data.password@, secret@, now),
        answer matches Ok(sent) ==> token_names_account(
            sent.token@,
            secret@,
            lookup_view(found),
            now,
        ),
        answer matches Ok(sent) ==> signature_binds(sent.token@, secret@),
{
    let user = match verify_credentials(found, data.password.as_str()) {
        Ok(user) => user,
        Err(e) => {
            return Err(e);
        },
    };
    logged_in(issue_at(user.id, role_of(user.superuser), secret, now))
}

/// Answers a login now, by the system's clock. Whatever the time is, it is a
/// reading of that clock, and the answer is the one that `login_at` gives
/// for it: a token that was sent validates under the same secret from then on
/// and for an hour, and names the account and its role.
pub fn login(found: Result<Option<User>, StoreError>, data: &UserLoginRequest, secret: &str) -> (answer:
    Result<LoggedIn, AuthError>)
    ensures
        exists|now: u64|
            {
                &&& now <= i64::MAX
                &&& result_view(answer) == #[trigger] spec_login(
                    lookup_view(found),
                    data.password@,
                    secret@,
                    now,
                )
                &&& answer matches Ok(sent) ==> token_names_account(
                    sent.token@,
                    secret@,
                    lookup_view(found),
                    now,
                )
            },
        answer matches Ok(sent) ==> signature_binds(sent.token@, secret@),
{
    let now = unix_now();
    let ghost looked_up = lookup_view(found);
    let answer = login_at(found, data, secret, now);
    proof {
        assert(result_view(answer) == spec_login(looked_up, data.password@, secret@, now));
    }
    answer
}

/// Answers a request for the caller's own profile, given what the lookup by
/// the id in the caller's claims gave: the account as it is stored, or a
/// database error where the lookup failed or found no row.
pub fn get_me(fetched: Result<User, StoreError>) -> (answer: Result<Profile, AuthError>)
    ensures
        result_view(answer) == spec_get_me(result_view(fetched)),
{
    match fetched {
        Ok(user) => Ok(Profile { status: STATUS_OK, user }),
        Err(e) => Err(AuthError::DatabaseError(e)),
    }
}

/// The store refused the insert by a uniqueness constraint on the email
/// address.
pub open spec fn email_refused(inserted: Result<(), StoreErrorView>) -> bool {
    inserted matches Err(StoreErrorView::Database { code: Some(code), constraint: Some(name) })
        && code == UNIQUE_VIOLATION@ && is_infix("email"@, name)
}

/// Two registrations with one email address, under the same username or
/// another: where the store lets one row in and refuses the other by its
/// uniqueness constraint on the address, exactly one registration succeeds and
/// the other is `RegisterEmailExists`, whichever of the two the store served
/// first.
pub proof fn same_email_twice_is_one_success_and_one_conflict(
    first: Result<(), StoreErrorView>,
    second: Result<(), StoreErrorView>,
)
    requires
        (first is Ok && email_refused(second)) || (email_refused(first) && second is Ok),
    ensures
        spec_register(first) is Ok != spec_register(second) is Ok,
        spec_register(first) is Err ==> spec_register(first) == Err::<
            RegisteredView,
            AuthErrorView,
        >(AuthErrorView::RegisterEmailExists),
        spec_register(second) is Err ==> spec_register(second) == Err::<
            RegisteredView,
            AuthErrorView,
        >(AuthErrorView::RegisterEmailExists),
{
}

} // verus!
