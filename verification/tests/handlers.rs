use auth_core::errors::{AuthError, StoreError};
use auth_core::guard::Authorization;
use auth_core::handlers::{
    get_me, logged_in, login, login_at, register, LoggedIn, Profile, Registered,
    REGISTERED_MESSAGE, STATUS_CREATED, STATUS_OK, TOKEN_TYPE,
};
use auth_core::token::{issue_at, validate, validate_at, Claims};
use auth_core::users::{register_user, User, UserLoginRequest, UserRegisterRequest};

const KNOWN_HASH: &str =
    "$argon2id$v=19$m=256,t=2,p=1$c29tZXNhbHQ$nf65EOgLrQMR/uIPnA4rEsF5h7TKyQwu9U1bMCHGi/4";

const ALICE: u128 = 0x550e8400_e29b_41d4_a716_446655440000;

fn alice(superuser: bool) -> User {
    User {
        id: ALICE,
        username: "alice".to_string(),
        email: "a@x.com".to_string(),
        password_hash: KNOWN_HASH.to_string(),
        superuser,
        created_at: 1_700_000_000_000_000,
        updated_at: 1_700_000_000_000_000,
    }
}

fn credentials(password: &str) -> UserLoginRequest {
    UserLoginRequest { email: "a@x.com".to_string(), password: password.to_string() }
}

fn email_taken() -> StoreError {
    StoreError::Database {
        code: Some("23505".to_string()),
        constraint: Some("users_email_key".to_string()),
    }
}

#[test]
fn answers_have_the_http_statuses() {
    assert_eq!(STATUS_OK, 200);
    assert_eq!(STATUS_CREATED, 201);
    assert_eq!(REGISTERED_MESSAGE, "User registered successfully");
    assert_eq!(TOKEN_TYPE, "Bearer");
}

#[test]
fn registration_that_went_in_is_created() {
    assert_eq!(
        register(Ok(())),
        Ok(Registered { status: 201, message: "User registered successfully".to_string() })
    );
}

#[test]
fn registration_with_a_taken_email_is_a_conflict() {
    let answer = register(Err(email_taken()));
    assert_eq!(answer, Err(AuthError::RegisterEmailExists));
    let response = answer.unwrap_err().error_response();
    assert_eq!(response.status, 409);
    assert_eq!(response.code, "EMAIL_EXISTS");
}

#[test]
fn registration_with_a_taken_username_is_a_conflict() {
    let taken = StoreError::Database {
        code: Some("23505".to_string()),
        constraint: Some("users_username_key".to_string()),
    };
    let answer = register(Err(taken));
    assert_eq!(answer, Err(AuthError::RegisterUsernameExists));
    let response = answer.unwrap_err().error_response();
    assert_eq!(response.status, 409);
    assert_eq!(response.code, "USERNAME_EXISTS");
}

#[test]
fn registration_that_the_store_failed_is_a_database_error() {
    assert_eq!(register(Err(StoreError::Other)), Err(AuthError::DatabaseError(StoreError::Other)));
}

#[test]
fn login_sends_the_token_that_was_issued() {
    let answer = login_at(Ok(Some(alice(false))), &credentials("password"), "secret", 1_700_000_000);
    assert_eq!(
        answer,
        Ok(LoggedIn {
            status: 200,
            token: issue_at(ALICE, "user", "secret", 1_700_000_000).unwrap(),
            token_type: "Bearer".to_string(),
        })
    );
}

#[test]
fn login_writes_the_role_of_the_moment_into_the_token() {
    let user = login_at(Ok(Some(alice(false))), &credentials("password"), "secret", 1_700_000_000).unwrap();
    let admin = login_at(Ok(Some(alice(true))), &credentials("password"), "secret", 1_700_000_000).unwrap();
    assert_eq!(validate_at(&user.token, "secret", 1_700_000_000).unwrap().role, "user");
    assert_eq!(validate_at(&admin.token, "secret", 1_700_000_000).unwrap().role, "admin");
    // The role stays what it was when the token was issued.
    assert_eq!(validate_at(&admin.token, "secret", 1_700_003_599).unwrap().role, "admin");
}

#[test]
fn login_with_a_wrong_password_is_refused() {
    assert_eq!(
        login_at(Ok(Some(alice(false))), &credentials("secret123"), "secret", 1_700_000_000),
        Err(AuthError::InvalidCredentials)
    );
}

#[test]
fn login_with_an_unknown_email_is_refused_alike() {
    assert_eq!(
        login_at(Ok(None), &credentials("password"), "secret", 1_700_000_000),
        Err(AuthError::InvalidCredentials)
    );
}

#[test]
fn login_that_the_store_failed_is_a_database_error() {
    assert_eq!(
        login_at(Err(StoreError::Other), &credentials("password"), "secret", 1_700_000_000),
        Err(AuthError::DatabaseError(StoreError::Other))
    );
}

#[test]
fn login_without_a_token_is_the_failure_to_issue_one() {
    let failed = AuthError::Internal("Token generation failed".to_string());
    assert_eq!(logged_in(Err(failed.clone())), Err(failed.clone()));
    assert_eq!(failed.error_response().status, 500);
    assert_eq!(
        logged_in(Ok("a.b.c".to_string())),
        Ok(LoggedIn { status: 200, token: "a.b.c".to_string(), token_type: "Bearer".to_string() })
    );
}

#[test]
fn login_reads_the_clock() {
    let sent = login(Ok(Some(alice(true))), &credentials("password"), "secret").unwrap();
    assert_eq!(sent.status, 200);
    assert_eq!(sent.token_type, "Bearer");
    let claims = validate(&sent.token, "secret").unwrap();
    assert_eq!(claims.sub, ALICE);
    assert_eq!(claims.role, "admin");
    assert_eq!(claims.exp, claims.iat + 3600);
}

#[test]
fn profile_is_the_account_as_it_is_stored() {
    assert_eq!(get_me(Ok(alice(false))), Ok(Profile { status: 200, user: alice(false) }));
    assert_eq!(get_me(Ok(alice(false))).unwrap().user.password_hash, KNOWN_HASH);
}

#[test]
fn profile_that_the_store_failed_is_a_database_error() {
    assert_eq!(get_me(Err(StoreError::Other)), Err(AuthError::DatabaseError(StoreError::Other)));
}

#[test]
fn register_then_login_then_fetch_the_profile() {
    let secret = "an application secret";
    let now = 1_700_000_000;

    // Register alice: the row goes in.
    let request = UserRegisterRequest {
        username: "alice".to_string(),
        email: "a@x.com".to_string(),
        password: "secret123".to_string(),
    };
    let row = register_user(&request).unwrap();
    let created = register(Ok(())).unwrap();
    assert_eq!(created.status, 201);
    assert_eq!(created.message, "User registered successfully");
    let stored = User {
        id: ALICE,
        username: row.username,
        email: row.email,
        password_hash: row.password_hash,
        superuser: false,
        created_at: 1_700_000_000_000_000,
        updated_at: 1_700_000_000_000_000,
    };

    // Register the same address under another name: the store refuses.
    let refused = register(Err(email_taken())).unwrap_err().error_response();
    assert_eq!(refused.status, 409);
    assert_eq!(refused.code, "EMAIL_EXISTS");

    // Log in with a wrong password: refused as an unknown address would be.
    let wrong = UserLoginRequest { email: "a@x.com".to_string(), password: "secret124".to_string() };
    let denied = login_at(Ok(Some(stored.clone())), &wrong, secret, now).unwrap_err();
    let unknown = login_at(Ok(None), &wrong, secret, now).unwrap_err();
    assert_eq!(denied, AuthError::InvalidCredentials);
    assert_eq!(denied.error_response(), unknown.error_response());
    assert_eq!(denied.error_response().status, 401);
    assert_eq!(denied.error_response().code, "INVALID_CREDENTIALS");

    // Log in with the right password: a bearer token.
    let right = UserLoginRequest { email: "a@x.com".to_string(), password: "secret123".to_string() };
    let sent = login_at(Ok(Some(stored.clone())), &right, secret, now).unwrap();
    assert_eq!(sent.status, 200);
    assert_eq!(sent.token_type, "Bearer");

    // Ask for the profile with the token: the guard names alice, the store
    // hands out her account.
    let header = Authorization::Value(format!("Bearer {}", sent.token));
    let identity = Claims::from_request_at(Some(secret), &header, now + 1).unwrap();
    assert_eq!(identity.sub, stored.id);
    assert_eq!(identity.role, "user");
    let profile = get_me(Ok(stored.clone())).unwrap();
    assert_eq!(profile.status, 200);
    assert_eq!(profile.user, stored);

    // Ask without the header: rejected before any lookup.
    let rejected = Claims::from_request_at(Some(secret), &Authorization::Missing, now + 1).unwrap_err();
    assert_eq!(rejected, AuthError::Unauthorized);
    assert_eq!(rejected.error_response().status, 401);
}
