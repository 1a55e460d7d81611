//! The guard of protected requests: from the `Authorization` header to the
//! identity of the caller, or to a rejection before any handler runs.

use crate::errors::{AuthError, AuthErrorView};
use crate::model::result_view;
use crate::text::{is_prefix, starts_with};
use crate::token::{
    signature_binds, signed_part, spec_decode, spec_validate, token_with_changed_signature_fails,
    unix_now, validate_at, Claims, ClaimsView,
};
use vstd::prelude::*;
use vstd::string::*;

verus! {

/// The scheme that stands before the token in the header's value, with the
/// blank that follows it.
pub const BEARER_PREFIX: &'static str = "Bearer ";

/// The `Authorization` header of a request.
#[derive(Debug, Clone, PartialEq, Eq)]
pub enum Authorization {
    /// The request has no such header.
    Missing,
    /// The header's value is not text.
    Unreadable,
    /// The header's value.
    Value(String),
}

/// An `Authorization` in specifications.
pub enum AuthorizationView {
    Missing,
    Unreadable,
    Value(Seq<char>),
}

impl View for Authorization {
    type V = AuthorizationView;

    open spec fn view(&self) -> AuthorizationView {
        match self {
            Authorization::Missing => AuthorizationView::Missing,
            Authorization::Unreadable => AuthorizationView::Unreadable,
            Authorization::Value(value) => AuthorizationView::Value(value@),
        }
    }
}

/// The token in a header's value: what follows `Bearer ` where the value
/// begins with exactly that, else the whole value.
pub open spec fn spec_bearer_token(value: Seq<char>) -> Seq<char> {
    if is_prefix(BEARER_PREFIX@, value) {
        value.skip(BEARER_PREFIX@.len() as int)
    } else {
        value
    }
}

/// What the guard makes of a request at the time `now`.
pub open spec fn spec_from_request(
    secret: Option<Seq<char>>,
    header: AuthorizationView,
    now: u64,
) -> Result<ClaimsView, AuthErrorView> {
    match secret {
        None => Err(AuthErrorView::Internal("Server state missing"@)),
        Some(secret) => match header {
            AuthorizationView::Missing => Err(AuthErrorView::Unauthorized),
            AuthorizationView::Unreadable => Err(AuthErrorView::Unauthorized),
            AuthorizationView::Value(value) => spec_validate(
                spec_bearer_token(value),
                secret,
                now,
            ),
        },
    }
}

/// The view of the secret, where the server has one.
pub open spec fn secret_view(secret: Option<&str>) -> Option<Seq<char>> {
    match secret {
        Some(s) => Some(s@),
        None => None,
    }
}

/// Takes the token out of a header's value. The scheme is stripped where the
/// value begins with exactly `Bearer `, in this case and with one blank. A
/// value that begins otherwise is handed on whole: whether it is a token is
/// for the validation to say.
pub fn bearer_token<'a>(value: &'a str) -> (token: &'a str)
    ensures
        token@ == spec_bearer_token(value@),
{
    if starts_with(value, BEARER_PREFIX) {
        let from: usize = BEARER_PREFIX.unicode_len();
        let to: usize = value.unicode_len();
        proof {
            assert(value@.skip(from as int) =~= value@.subrange(from as int, to as int));
        }
        value.substring_char(from, to)
    } else {
        value
    }
}

impl Claims {
    /// Guards a protected request at the time `now`. `secret` is the server's
    /// signing secret, `None` where the server's state is not at hand, which
    /// is an `Internal` error. A request without the header, or with one that
    /// is not text, is `Unauthorized`. Else the token is taken out of the
    /// header and validated: the claims are the caller's identity, and every
    /// failure is `Unauthorized`.
    pub fn from_request_at(secret: Option<&str>, header: &Authorization, now: u64) -> (identity:
        Result<Claims, AuthError>)
        ensures
            result_view(identity) == spec_from_request(secret_view(secret), header@, now),
    {
        let secret: &str = match secret {
            Some(secret) => secret,
            None => {
                return Err(AuthError::Internal("Server state missing".to_owned()));
            },
        };
        match header {
            Authorization::Missing => Err(AuthError::Unauthorized),
            Authorization::Unreadable => Err(AuthError::Unauthorized),
            Authorization::Value(value) => validate_at(bearer_token(value.as_str()), secret, now),
        }
    }

    /// Guards a protected request now, by the system's clock. Whatever the
    /// time is, it is a reading of that clock, and the outcome is the one
    /// that `from_request_at` gives for it. So a request whose token carries
    /// no claims under the secret is `Unauthorized` whatever the clock reads,
    /// and one whose token expires beyond every reading of the clock is let
    /// through with its claims whatever the clock reads.
    pub fn from_request(secret: Option<&str>, header: &Authorization) -> (identity: Result<
        Claims,
        AuthError,
    >)
        ensures
            exists|now: u64|
                now <= i64::MAX && result_view(identity) == #[trigger] spec_from_request(
                    secret_view(secret),
                    header@,
                    now,
                ),
            secret matches Some(s) ==> (header@ matches AuthorizationView::Value(value) ==> (
            spec_decode(spec_bearer_token(value), s@) is None ==> result_view(identity) == Err::<
                ClaimsView,
                AuthErrorView,
            >(AuthErrorView::Unauthorized))),
            secret matches Some(s) ==> (header@ matches AuthorizationView::Value(value) ==> (
            spec_decode(spec_bearer_token(value), s@) matches Some(c) ==> (c.exp > i64::MAX
                ==> result_view(identity) == Ok::<ClaimsView, AuthErrorView>(c)))),
    {
        let now = unix_now();
        let identity = Claims::from_request_at(secret, header, now);
        proof {
            assert(result_view(identity) == spec_from_request(secret_view(secret), header@, now));
        }
        identity
    }
}

/// Where the server has its secret, the guard lets a request through only
/// with the claims that validating its token gives at that time, and rejects
/// every other request as `Unauthorized`, before any handler runs.
pub proof fn guard_passes_only_validated_claims(
    secret: Seq<char>,
    header: AuthorizationView,
    now: u64,
)
    ensures
        spec_from_request(Some(secret), header, now) matches Ok(claims) ==> (header matches AuthorizationView::Value(
            value,
        ) && spec_validate(spec_bearer_token(value), secret, now) == Ok::<
            ClaimsView,
            AuthErrorView,
        >(claims)),
        spec_from_request(Some(secret), header, now) matches Err(e) ==> e is Unauthorized,
{
}

/// The token of a header that is the scheme and a token is that token.
pub proof fn bearer_token_of_scheme_and_token(token: Seq<char>)
    ensures
        spec_bearer_token(BEARER_PREFIX@ + token) == token,
{
    let value = BEARER_PREFIX@ + token;
    let n = BEARER_PREFIX@.len() as int;
    assert(value.subrange(0, n) =~= BEARER_PREFIX@);
    assert(value.skip(n) =~= token);
}

/// A request whose token has a changed signature is rejected: where the
/// secret's signature binds a token, a request that carries the scheme and the
/// token with one character of its signature changed is `Unauthorized` at
/// every time.
pub proof fn request_with_changed_signature_is_rejected(
    token: Seq<char>,
    secret: Seq<char>,
    at: int,
    changed: char,
    now: u64,
)
    requires
        signature_binds(token, secret),
        0 < signed_part(token).len() <= at < token.len(),
        changed != token[at],
    ensures
        spec_from_request(
            Some(secret),
            AuthorizationView::Value(BEARER_PREFIX@ + token.update(at, changed)),
            now,
        ) == Err::<ClaimsView, AuthErrorView>(AuthErrorView::Unauthorized),
{
    bearer_token_of_scheme_and_token(token.update(at, changed));
    token_with_changed_signature_fails(token, secret, at, changed, now);
}

} // verus!
