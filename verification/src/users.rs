//! Accounts: what is kept of them, how a registration is prepared for the
//! store and how the store's answer is read, and how the credentials of a
//! login are checked against the account that was found.
//!
//! The store itself is not here. It alone decides whether a username or an
//! email address is taken, by its uniqueness constraints and in one atomic
//! insert; this module reads its verdict.

use crate::errors::{AuthError, AuthErrorView, StoreError, StoreErrorView};
use crate::model::result_view;
use crate::password::{
    hash_password, spec_hash_with_drawn_salt, spec_verify_password, verify_password, SALT_CHARS,
};
use crate::text::{contains, is_infix, same_text};
use vstd::prelude::*;

verus! {

/// The SQLSTATE with which the database reports a violated uniqueness
/// constraint.
pub const UNIQUE_VIOLATION: &'static str = "23505";

/// An account as the store keeps it. `id` is the account's UUID as a number,
/// `password_hash` a PHC string, never the password; `created_at` and
/// `updated_at` are microseconds since the Unix epoch.
#[derive(Debug, Clone, PartialEq, Eq)]
pub struct User {
    pub id: u128,
    pub username: String,
    pub email: String,
    pub password_hash: String,
    pub superuser: bool,
    pub created_at: i64,
    pub updated_at: i64,
}

/// A `User` in specifications.
pub struct UserView {
    pub id: u128,
    pub username: Seq<char>,
    pub email: Seq<char>,
    pub password_hash: Seq<char>,
    pub superuser: bool,
    pub created_at: i64,
    pub updated_at: i64,
}

impl View for User {
    type V = UserView;

    open spec fn view(&self) -> UserView {
        UserView {
            id: self.id,
            username: self.username@,
            email: self.email@,
            password_hash: self.password_hash@,
            superuser: self.superuser,
            created_at: self.created_at,
            updated_at: self.updated_at,
        }
    }
}

/// What a client sends to register. The password is in the clear and goes no
/// further than the hashing.
#[derive(Debug, Clone, PartialEq, Eq)]
pub struct UserRegisterRequest {
    pub username: String,
    pub email: String,
    pub password: String,
}

/// What a client sends to log in.
#[derive(Debug, Clone, PartialEq, Eq)]
pub struct UserLoginRequest {
    pub email: String,
    pub password: String,
}

/// The row to insert for a new account: the password has been hashed.
#[derive(Debug, Clone, PartialEq, Eq)]
pub struct NewUser {
    pub username: String,
    pub email: String,
    pub password_hash: String,
}

/// A `NewUser` in specifications.
pub struct NewUserView {
    pub username: Seq<char>,
    pub email: Seq<char>,
    pub password_hash: Seq<char>,
}

impl View for NewUser {
    type V = NewUserView;

    open spec fn view(&self) -> NewUserView {
        NewUserView {
            username: self.username@,
            email: self.email@,
            password_hash: self.password_hash@,
        }
    }
}

/// The view of what a lookup in the store gave.
pub open spec fn lookup_view(found: Result<Option<User>, StoreError>) -> Result<
    Option<UserView>,
    StoreErrorView,
> {
    match found {
        Ok(Some(user)) => Ok(Some(user@)),
        Ok(None) => Ok(None),
        Err(e) => Err(e@),
    }
}

/// How a failure of the store is reported after an insert. A violated
/// uniqueness constraint is a conflict: on the email address if the
/// constraint's name holds `email`, else on the username if it holds
/// `username`. Every other failure, a uniqueness violation on another or an
/// unnamed constraint too, is a database error that carries what the store
/// said.
pub open spec fn spec_insert_error(e: StoreErrorView) -> AuthErrorView {
    match e {
        StoreErrorView::Database { code: Some(code), constraint } => {
            let name = match constraint {
                Some(name) => name,
                None => Seq::<char>::empty(),
            };
            if code != UNIQUE_VIOLATION@ {
                AuthErrorView::DatabaseError(e)
            } else if is_infix("email"@, name) {
                AuthErrorView::RegisterEmailExists
            } else if is_infix("username"@, name) {
                AuthErrorView::RegisterUsernameExists
            } else {
                AuthErrorView::DatabaseError(e)
            }
        },
        _ => AuthErrorView::DatabaseError(e),
    }
}

/// What a registration comes to, given the store's answer to the insert.
pub open spec fn spec_insert_outcome(inserted: Result<(), StoreErrorView>) -> Result<
    (),
    AuthErrorView,
> {
    match inserted {
        Ok(()) => Ok(()),
        Err(e) => Err(spec_insert_error(e)),
    }
}

/// What the credentials come to for the account that was found, given what
/// checking the password against its hash gave.
pub open spec fn spec_credentials_outcome(
    user: UserView,
    checked: Result<bool, AuthErrorView>,
) -> Result<UserView, AuthErrorView> {
    match checked {
        Err(e) => Err(e),
        Ok(true) => Ok(user),
        Ok(false) => Err(AuthErrorView::InvalidCredentials),
    }
}

/// What a login comes to, given what the lookup by email address found.
pub open spec fn spec_verify_credentials(
    found: Result<Option<UserView>, StoreErrorView>,
    password: Seq<char>,
) -> Result<UserView, AuthErrorView> {
    match found {
        Err(e) => Err(AuthErrorView::DatabaseError(e)),
        Ok(None) => Err(AuthErrorView::InvalidCredentials),
        Ok(Some(user)) => spec_credentials_outcome(
            user,
            spec_verify_password(password, user.password_hash),
        ),
    }
}

/// The row for a registration, given what hashing the password came to: name
/// and address as they were sent, and the hash; or the failure of the hashing.
pub open spec fn spec_new_user(
    username: Seq<char>,
    email: Seq<char>,
    hashed: Result<Seq<char>, AuthErrorView>,
) -> Result<NewUserView, AuthErrorView> {
    match hashed {
        Ok(password_hash) => Ok(NewUserView { username, email, password_hash }),
        Err(e) => Err(e),
    }
}

/// The row that registering gives, given the salt that was drawn for the
/// hash, or `None` where none could be drawn.
pub open spec fn spec_register_user(
    username: Seq<char>,
    email: Seq<char>,
    password: Seq<char>,
    salt: Option<Seq<char>>,
) -> Result<NewUserView, AuthErrorView> {
    spec_new_user(username, email, spec_hash_with_drawn_salt(password, salt))
}

/// The row for a registration, given what hashing the request's password came
/// to.
pub fn new_user(data: &UserRegisterRequest, hashed: Result<String, AuthError>) -> (row: Result<
    NewUser,
    AuthError,
>)
    ensures
        result_view(row) == spec_new_user(data.username@, data.email@, result_view(hashed)),
{
    match hashed {
        Ok(password_hash) => Ok(
            NewUser { username: data.username.clone(), email: data.email.clone(), password_hash },
        ),
        Err(e) => Err(e),
    }
}

/// Prepares a registration for the store: hashes the password with a fresh
/// salt of 22 characters and hands back the row to insert. Username and email address go in as
/// they came; in place of the password stands the hash that the salt gives, a
/// PHC string that the request's password verifies against. Whether the
/// username or the address is taken is not looked up first: the insert
/// decides. The only failure is `PasswordHashingError`.
pub fn register_user(data: &UserRegisterRequest) -> (row: Result<NewUser, AuthError>)
    ensures
        exists|salt: Option<Seq<char>>|
            (salt matches Some(s) ==> s.len() == SALT_CHARS) && result_view(row)
                == #[trigger] spec_register_user(
                data.username@,
                data.email@,
                data.password@,
                salt,
            ),
        match row {
            Ok(new) => {
                &&& new.username@ == data.username@
                &&& new.email@ == data.email@
                &&& spec_verify_password(data.password@, new.password_hash@) == Ok::<
                    bool,
                    AuthErrorView,
                >(true)
            },
            Err(e) => e@ is PasswordHashingError,
        },
{
    let hashed = hash_password(data.password.as_str());
    let ghost hashed_view = result_view(hashed);
    let row = new_user(data, hashed);
    proof {
        let salt = choose|salt: Option<Seq<char>>|
            (salt matches Some(s) ==> s.len() == SALT_CHARS) && hashed_view
                == #[trigger] spec_hash_with_drawn_salt(data.password@, salt);
        assert(result_view(row) == spec_register_user(
            data.username@,
            data.email@,
            data.password@,
            salt,
        ));
    }
    row
}

/// Reads a failure of the store after an insert: a conflict on the email
/// address, a conflict on the username, or a database error.
pub fn insert_error(e: StoreError) -> (err: AuthError)
    ensures
        err@ == spec_insert_error(e@),
{
    match &e {
        StoreError::Database { code: Some(code), constraint } => {
            if same_text(code.as_str(), UNIQUE_VIOLATION) {
                let name: &str = match constraint {
                    Some(name) => name.as_str(),
                    None => "",
                };
                proof {
                    reveal_strlit("");
                    assert(""@ =~= Seq::<char>::empty());
                }
                if contains(name, "email") {
                    return AuthError::RegisterEmailExists;
                }
                if contains(name, "username") {
                    return AuthError::RegisterUsernameExists;
                }
            }
        },
        _ => {},
    }
    AuthError::DatabaseError(e)
}

/// What a registration comes to, given the store's answer to the insert:
/// success where the row went in, else the failure as `insert_error` reads it.
pub fn insert_outcome(inserted: Result<(), StoreError>) -> (outcome: Result<(), AuthError>)
    ensures
        result_view(outcome) == spec_insert_outcome(result_view(inserted)),
{
    match inserted {
        Ok(()) => Ok(()),
        Err(e) => Err(insert_error(e)),
    }
}

/// What the credentials come to for the account that was found, given what
/// checking the password against its hash gave: the account where the
/// password was accepted, `InvalidCredentials` where it was not, and the
/// failure of the check where it failed.
pub fn credentials_outcome(user: User, checked: Result<bool, AuthError>) -> (outcome: Result<
    User,
    AuthError,
>)
    ensures
        result_view(outcome) == spec_credentials_outcome(user@, result_view(checked)),
{
    match checked {
        Err(e) => Err(e),
        Ok(true) => Ok(user),
        Ok(false) => Err(AuthError::InvalidCredentials),
    }
}

/// Checks the credentials of a login against what the lookup by email address
/// found. It gives the account where one was found and the password verifies
/// against its hash. No account and a wrong password are both
/// `InvalidCredentials`: the answer does not tell whether the address is known.
/// A failed lookup is a database error, a stored hash that is no PHC string a
/// `PasswordHashingError`.
pub fn verify_credentials(found: Result<Option<User>, StoreError>, raw_password: &str) -> (user:
    Result<User, AuthError>)
    ensures
        result_view(user) == spec_verify_credentials(lookup_view(found), raw_password@),
{
    match found {
        Err(e) => Err(AuthError::DatabaseError(e)),
        Ok(None) => Err(AuthError::InvalidCredentials),
        Ok(Some(user)) => {
            let checked = verify_password(raw_password, user.password_hash.as_str());
            credentials_outcome(user, checked)
        },
    }
}

} // verus!
