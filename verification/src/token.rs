//! Identity tokens: claims signed with a secret that only the server holds,
//! valid for one hour from the moment they are issued.
//!
//! A token is a JWT signed with HMAC-SHA256. Signing and the check of the
//! signature are `jsonwebtoken`'s; which claims a token must carry and until
//! when it is accepted are decided here.

use crate::errors::{AuthError, AuthErrorView};
use crate::model::{option_view, result_view};
use crate::text::is_prefix;
use vstd::prelude::*;

verus! {

/// For how many seconds a token is valid.
pub const VALIDITY_SECS: u64 = 3600;

/// The role written into the token of an account with elevated privileges.
pub const ROLE_ADMIN: &'static str = "admin";

/// The role written into the token of every other account.
pub const ROLE_USER: &'static str = "user";

/// Who a token speaks for. `sub` is the account's id as a 128-bit number,
/// `role` the role the account had when the token was issued, `iat` and `exp`
/// the seconds since the Unix epoch at which the token was issued and at which
/// it ends to be valid.
#[derive(Debug, Clone, PartialEq, Eq)]
pub struct Claims {
    pub sub: u128,
    pub role: String,
    pub exp: u64,
    pub iat: u64,
}

/// A `Claims` in specifications.
pub struct ClaimsView {
    pub sub: u128,
    pub role: Seq<char>,
    pub exp: u64,
    pub iat: u64,
}

impl View for Claims {
    type V = ClaimsView;

    open spec fn view(&self) -> ClaimsView {
        ClaimsView { sub: self.sub, role: self.role@, exp: self.exp, iat: self.iat }
    }
}

/// The four claims as they were found in a token's payload, each absent where
/// the payload has no member of that name or one of another type: `sub` and
/// `role` are JSON strings, `exp` and `iat` JSON numbers that are whole, not
/// negative and below 2^64.
#[derive(Debug, Clone, PartialEq, Eq)]
pub struct RawClaims {
    pub sub: Option<String>,
    pub role: Option<String>,
    pub exp: Option<u64>,
    pub iat: Option<u64>,
}

impl View for RawClaims {
    type V = (Option<Seq<char>>, Option<Seq<char>>, Option<u64>, Option<u64>);

    open spec fn view(&self) -> Self::V {
        (option_view(self.sub), option_view(self.role), self.exp, self.iat)
    }
}

/// The text that the `uuid` crate writes for the id: `Uuid::from_u128(id)`,
/// formatted by `Display`.
pub uninterp spec fn uuid_hyphenated(id: u128) -> Seq<char>;

/// The id that `Uuid::parse_str` of the `uuid` crate reads from the text, as a
/// number; `None` where it refuses the text.
pub uninterp spec fn uuid_parsed(text: Seq<char>) -> Option<u128>;

/// The token that `jsonwebtoken::encode` gives for the default header, the
/// JSON object with the members `sub`, `role`, `exp` and `iat` in this order,
/// and the secret as an HMAC key; `None` where it fails.
pub uninterp spec fn jwt_signed(
    sub: Seq<char>,
    role: Seq<char>,
    exp: u64,
    iat: u64,
    secret: Seq<char>,
) -> Option<Seq<char>>;

/// What `jsonwebtoken::decode` finds in the token under the secret as an HMAC
/// key, with the default validation but for the check of the expiry, which is
/// switched off: `None` where it refuses the token, else the four claims as
/// far as the payload holds them.
pub uninterp spec fn jwt_payload(token: Seq<char>, secret: Seq<char>) -> Option<
    (Option<Seq<char>>, Option<Seq<char>>, Option<u64>, Option<u64>),
>;

/// The part of a token that its signature covers, with the dot that ends it:
/// everything up to and including the last `.`; empty where the token has no
/// dot.
pub open spec fn signed_part(token: Seq<char>) -> Seq<char>
    decreases token.len(),
{
    if token.len() == 0 {
        token
    } else if token.last() == '.' {
        token
    } else {
        signed_part(token.drop_last())
    }
}

/// `other` is the token with something else in the place of its signature:
/// the same text up to and including the last dot of `token`, and not the
/// same text after it.
pub open spec fn resigned(token: Seq<char>, other: Seq<char>) -> bool {
    &&& signed_part(token).len() > 0
    &&& is_prefix(signed_part(token), other)
    &&& other != token
}

/// `Uuid::from_u128` and the `Display` of the `uuid` crate. Trusted: the text is
/// a function of the id, and `Uuid::parse_str` reads the same id back from it
/// (it takes every format that the crate writes).
#[verifier::external_body]
fn uuid_text(id: u128) -> (text: String)
    ensures
        text@ == uuid_hyphenated(id),
        uuid_parsed(text@) == Some(id),
{
    uuid::Uuid::from_u128(id).to_string()
}

/// `Uuid::parse_str` of the `uuid` crate, and the id as a number.
#[verifier::external_body]
fn uuid_parse(text: &str) -> (id: Option<u128>)
    ensures
        id == uuid_parsed(text@),
{
    match uuid::Uuid::parse_str(text) {
        Ok(id) => Some(id.as_u128()),
        Err(_) => None,
    }
}

/// `jsonwebtoken::encode` with `Header::default()` (HMAC-SHA256) and
/// `EncodingKey::from_secret`. Trusted: the token is a function of the claims
/// and the secret; and `jsonwebtoken::decode` under the same secret takes the
/// token and finds the same four claims in it, since for an HMAC it signs the
/// message anew and compares, and the payload is the JSON that was written.
/// Trusted too: `decode` under the same secret refuses every other text that
/// is the token up to and including its last dot. It splits a text at the
/// last dot; where what follows the token's last dot holds no dot, the
/// message is the token's and the signature is compared, as text, with the
/// one signed anew, which is the token's; where it holds a dot, the header's
/// part holds one, which is no Base64.
#[verifier::external_body]
fn jwt_encode(sub: &str, role: &str, exp: u64, iat: u64, secret: &str) -> (token: Option<String>)
    ensures
        option_view(token) == jwt_signed(sub@, role@, exp, iat, secret@),
        token matches Some(t) ==> jwt_payload(t@, secret@) == Some(
            (Some(sub@), Some(role@), Some(exp), Some(iat)),
        ),
        token matches Some(t) ==> forall|other: Seq<char>|
            resigned(t@, other) ==> (#[trigger] jwt_payload(other, secret@)) is None,
{
    let mut claims = serde_json::Map::new();
    claims.insert("sub".to_owned(), serde_json::Value::from(sub));
    claims.insert("role".to_owned(), serde_json::Value::from(role));
    claims.insert("exp".to_owned(), serde_json::Value::from(exp));
    claims.insert("iat".to_owned(), serde_json::Value::from(iat));
    let key = jsonwebtoken::EncodingKey::from_secret(secret.as_bytes());
    jsonwebtoken::encode(&jsonwebtoken::Header::default(), &claims, &key).ok()
}

/// `jsonwebtoken::decode` with `DecodingKey::from_secret` and
/// `Validation::default()` with `validate_exp` switched off, so that the
/// outcome does not depend on the clock: the signature, the algorithm and the
/// presence of `exp` are checked, the expiry is not. The four claims are taken
/// from the payload with `serde_json`'s `get`, `as_str` and `as_u64`.
#[verifier::external_body]
fn jwt_decode(token: &str, secret: &str) -> (payload: Option<RawClaims>)
    ensures
        option_view(payload) == jwt_payload(token@, secret@),
{
    let mut rules = jsonwebtoken::Validation::default();
    rules.validate_exp = false;
    let key = jsonwebtoken::DecodingKey::from_secret(secret.as_bytes());
    match jsonwebtoken::decode::<serde_json::Value>(token, &key, &rules) {
        Ok(data) => Some(RawClaims {
            sub: data.claims.get("sub").and_then(serde_json::Value::as_str).map(str::to_owned),
            role: data.claims.get("role").and_then(serde_json::Value::as_str).map(str::to_owned),
            exp: data.claims.get("exp").and_then(serde_json::Value::as_u64),
            iat: data.claims.get("iat").and_then(serde_json::Value::as_u64),
        }),
        Err(_) => None,
    }
}

/// `Utc::now().timestamp()` of `chrono`: the seconds since the Unix epoch.
/// Trusted: it is not negative, since `Utc::now` measures the time that has
/// passed since the epoch. Nothing else is said of it.
#[verifier::external_body]
fn clock_seconds() -> (seconds: i64)
    ensures
        0 <= seconds,
{
    chrono::Utc::now().timestamp()
}

/// The time now, in seconds since the Unix epoch.
pub fn unix_now() -> (now: u64)
    ensures
        exists|seconds: i64| 0 <= seconds && now == #[trigger] spec_seconds_since_epoch(seconds),
        now <= i64::MAX,
        now + VALIDITY_SECS <= u64::MAX,
{
    // Which time the clock reads cannot be said beforehand. Whatever it is, it
    // is the reading of a clock that counts in a signed 64-bit number and not
    // below zero, so an hour can be added to it.
    seconds_since_epoch(clock_seconds())
}

/// The time that a reading of the clock stands for: the same number of
/// seconds.
pub open spec fn spec_seconds_since_epoch(seconds: i64) -> u64 {
    seconds as u64
}

/// The time that a reading of the clock stands for. The clock counts the
/// seconds since the Unix epoch in a signed number and never below zero; the
/// time is the same number, unsigned, so it is far from the end of its range.
pub fn seconds_since_epoch(seconds: i64) -> (now: u64)
    requires
        0 <= seconds,
    ensures
        now == spec_seconds_since_epoch(seconds),
        now == seconds,
        now <= i64::MAX,
{
    seconds as u64
}

/// The role that goes with the privilege flag of an account.
pub open spec fn spec_role_of(superuser: bool) -> Seq<char> {
    if superuser {
        ROLE_ADMIN@
    } else {
        ROLE_USER@
    }
}

/// The role that goes with the privilege flag of an account: `admin` for an
/// account with elevated privileges, `user` for every other.
pub fn role_of(superuser: bool) -> (role: &'static str)
    ensures
        role@ == spec_role_of(superuser),
{
    if superuser {
        ROLE_ADMIN
    } else {
        ROLE_USER
    }
}

/// The claims of a token issued at `now`: it ends an hour later.
pub open spec fn issued(sub: u128, role: Seq<char>, now: u64) -> ClaimsView {
    ClaimsView { sub, role, exp: (now + VALIDITY_SECS) as u64, iat: now }
}

/// The claims of which all four parts are there.
pub open spec fn spec_claims_from_parts(
    sub: Option<u128>,
    role: Option<Seq<char>>,
    exp: Option<u64>,
    iat: Option<u64>,
) -> Option<ClaimsView> {
    match (sub, role, exp, iat) {
        (Some(sub), Some(role), Some(exp), Some(iat)) => Some(ClaimsView { sub, role, exp, iat }),
        _ => None,
    }
}

/// The claims that a payload holds: all four are there, and `sub` is the text
/// of an id.
pub open spec fn spec_assemble(
    raw: (Option<Seq<char>>, Option<Seq<char>>, Option<u64>, Option<u64>),
) -> Option<ClaimsView> {
    let sub = match raw.0 {
        Some(text) => uuid_parsed(text),
        None => None,
    };
    spec_claims_from_parts(sub, raw.1, raw.2, raw.3)
}

/// The claims that a token carries under the secret, whatever the time.
pub open spec fn spec_decode(token: Seq<char>, secret: Seq<char>) -> Option<ClaimsView> {
    match jwt_payload(token, secret) {
        Some(raw) => spec_assemble(raw),
        None => None,
    }
}

/// Claims are accepted strictly before their expiry; everything else is
/// `Unauthorized`, and nothing tells why.
pub open spec fn spec_accept(claims: Option<ClaimsView>, now: u64) -> Result<
    ClaimsView,
    AuthErrorView,
> {
    match claims {
        Some(c) => if now < c.exp {
            Ok(c)
        } else {
            Err(AuthErrorView::Unauthorized)
        },
        None => Err(AuthErrorView::Unauthorized),
    }
}

/// What validating a token at the time `now` gives.
pub open spec fn spec_validate(token: Seq<char>, secret: Seq<char>, now: u64) -> Result<
    ClaimsView,
    AuthErrorView,
> {
    spec_accept(spec_decode(token, secret), now)
}

/// What signing comes to, given what the signing function gave: its token, or
/// an internal error where it gave none.
pub open spec fn spec_token_outcome(token: Option<Seq<char>>) -> Result<Seq<char>, AuthErrorView> {
    match token {
        Some(token) => Ok(token),
        None => Err(AuthErrorView::Internal("Token generation failed"@)),
    }
}

/// The token for the claims, or the failure to make one.
pub open spec fn spec_encode(claims: ClaimsView, secret: Seq<char>) -> Result<
    Seq<char>,
    AuthErrorView,
> {
    spec_token_outcome(
        jwt_signed(uuid_hyphenated(claims.sub), claims.role, claims.exp, claims.iat, secret),
    )
}

/// What issuing a token at the time `now` gives.
pub open spec fn spec_issue(sub: u128, role: Seq<char>, secret: Seq<char>, now: u64) -> Result<
    Seq<char>,
    AuthErrorView,
> {
    spec_encode(issued(sub, role, now), secret)
}

/// The secret's signature binds the token: every other text that is the token
/// up to and including its last dot, whatever stands in the place of the
/// signature, is `Unauthorized` at every time.
pub open spec fn signature_binds(token: Seq<char>, secret: Seq<char>) -> bool {
    forall|other: Seq<char>, at: u64|
        resigned(token, other) ==> #[trigger] spec_validate(other, secret, at) == Err::<
            ClaimsView,
            AuthErrorView,
        >(AuthErrorView::Unauthorized)
}

/// The token is the one of `sub` and `role` issued at `now`: at every time
/// before `now + VALIDITY_SECS` validating it gives the claims it was issued
/// with, and at every time from then on validating it is `Unauthorized`.
pub open spec fn valid_for_an_hour(
    token: Seq<char>,
    secret: Seq<char>,
    sub: u128,
    role: Seq<char>,
    now: u64,
) -> bool {
    forall|at: u64| #[trigger]
        spec_validate(token, secret, at) == if at < now + VALIDITY_SECS {
            Ok::<ClaimsView, AuthErrorView>(issued(sub, role, now))
        } else {
            Err::<ClaimsView, AuthErrorView>(AuthErrorView::Unauthorized)
        }
}

impl Claims {
    /// The claims of a token issued to `user_id` at the time `now`.
    pub fn issued_at(user_id: u128, role: String, now: u64) -> (claims: Claims)
        requires
            now + VALIDITY_SECS <= u64::MAX,
        ensures
            claims@ == issued(user_id, role@, now),
    {
        Claims { sub: user_id, role, exp: now + VALIDITY_SECS, iat: now }
    }

    /// The claims of a token issued to `user_id` now, by the system's clock:
    /// whatever the time is, it is a reading of that clock, and the token
    /// ends an hour after it was issued.
    pub fn new(user_id: u128, role: String) -> (claims: Claims)
        ensures
            claims@ == issued(user_id, role@, claims.iat),
            claims.iat <= i64::MAX,
            claims.exp == claims.iat + VALIDITY_SECS,
    {
        Claims::issued_at(user_id, role, unix_now())
    }
}

/// What signing comes to, given what the signing function gave.
pub fn token_outcome(token: Option<String>) -> (signed: Result<String, AuthError>)
    ensures
        result_view(signed) == spec_token_outcome(option_view(token)),
{
    match token {
        Some(token) => Ok(token),
        None => Err(AuthError::Internal("Token generation failed".to_owned())),
    }
}

/// Signs the claims with the secret. The token is the one that `jsonwebtoken`
/// makes of them; a failure to make it is an `Internal` error. Under the same
/// secret the token carries the claims that went in, and the token with
/// anything else in the place of its signature is refused.
pub fn encode_claims(claims: &Claims, secret: &str) -> (token: Result<String, AuthError>)
    ensures
        result_view(token) == spec_encode(claims@, secret@),
        token matches Ok(t) ==> spec_decode(t@, secret@) == Some(claims@),
        token matches Ok(t) ==> signature_binds(t@, secret@),
{
    let sub = uuid_text(claims.sub);
    token_outcome(jwt_encode(sub.as_str(), claims.role.as_str(), claims.exp, claims.iat, secret))
}

/// Issues a token to the account `user_id` with the role `role` at the time
/// `now`. A token that was issued is valid from then on and as long as the
/// time is before `now + VALIDITY_SECS`: validating it gives the claims that
/// it was issued with, `sub` the id and `role` the role; from
/// `now + VALIDITY_SECS` on, validating it is `Unauthorized`. The token with
/// anything else in the place of its signature is `Unauthorized` at every
/// time.
pub fn issue_at(user_id: u128, role: &str, secret: &str, now: u64) -> (token: Result<
    String,
    AuthError,
>)
    requires
        now + VALIDITY_SECS <= u64::MAX,
    ensures
        result_view(token) == spec_issue(user_id, role@, secret@, now),
        token matches Ok(t) ==> valid_for_an_hour(t@, secret@, user_id, role@, now),
        token matches Ok(t) ==> signature_binds(t@, secret@),
{
    let claims = Claims::issued_at(user_id, role.to_owned(), now);
    encode_claims(&claims, secret)
}

/// Issues a token to the account `user_id` with the role `role` now, by the
/// system's clock. Whatever the time is, it is a reading of that clock, and
/// the token is the one that `issue_at` gives for it: a token that was issued
/// validates under the same secret from then on and for an hour, and names
/// the account and the role.
pub fn issue(user_id: u128, role: &str, secret: &str) -> (token: Result<String, AuthError>)
    ensures
        exists|now: u64|
            {
                &&& now <= i64::MAX
                &&& result_view(token) == #[trigger] spec_issue(user_id, role@, secret@, now)
                &&& token matches Ok(t) ==> valid_for_an_hour(t@, secret@, user_id, role@, now)
            },
        token matches Ok(t) ==> signature_binds(t@, secret@),
{
    let now = unix_now();
    let token = issue_at(user_id, role, secret, now);
    proof {
        assert(result_view(token) == spec_issue(user_id, role@, secret@, now));
    }
    token
}

/// The claims of which all four parts are there.
pub fn claims_from_parts(
    sub: Option<u128>,
    role: Option<String>,
    exp: Option<u64>,
    iat: Option<u64>,
) -> (claims: Option<Claims>)
    ensures
        option_view(claims) == spec_claims_from_parts(sub, option_view(role), exp, iat),
{
    match (sub, role, exp, iat) {
        (Some(sub), Some(role), Some(exp), Some(iat)) => Some(Claims { sub, role, exp, iat }),
        _ => None,
    }
}

/// The claims that a payload holds: all four must be there, and `sub` must be
/// the text of an id.
pub fn assemble(raw: RawClaims) -> (claims: Option<Claims>)
    ensures
        option_view(claims) == spec_assemble(raw@),
{
    let RawClaims { sub, role, exp, iat } = raw;
    let id = match sub {
        Some(text) => uuid_parse(text.as_str()),
        None => None,
    };
    claims_from_parts(id, role, exp, iat)
}

/// Accepts the claims of a token at the time `now`: they are accepted strictly
/// before their expiry. Claims that are not there (the token was refused) and
/// claims that have expired are both `Unauthorized`.
pub fn accept(claims: Option<Claims>, now: u64) -> (accepted: Result<Claims, AuthError>)
    ensures
        result_view(accepted) == spec_accept(option_view(claims), now),
{
    match claims {
        Some(c) => if now < c.exp {
            Ok(c)
        } else {
            Err(AuthError::Unauthorized)
        },
        None => Err(AuthError::Unauthorized),
    }
}

/// Validates a token at the time `now`. It gives the claims where the
/// signature is the secret's, the payload holds all four claims and `now` is
/// before the expiry; every other token is `Unauthorized`, with nothing to
/// tell which check failed.
pub fn validate_at(token: &str, secret: &str, now: u64) -> (claims: Result<Claims, AuthError>)
    ensures
        result_view(claims) == spec_validate(token@, secret@, now),
{
    let claims = match jwt_decode(token, secret) {
        Some(raw) => assemble(raw),
        None => None,
    };
    accept(claims, now)
}

/// Validates a token now, by the system's clock. Whatever the time is, it is
/// a reading of that clock, and the outcome is the one that `validate_at`
/// gives for it. So a token that carries no claims under the secret is
/// `Unauthorized` whatever the clock reads, and one whose expiry lies beyond
/// every reading of the clock gives its claims whatever the clock reads.
pub fn validate(token: &str, secret: &str) -> (claims: Result<Claims, AuthError>)
    ensures
        exists|now: u64|
            now <= i64::MAX && result_view(claims) == #[trigger] spec_validate(
                token@,
                secret@,
                now,
            ),
        spec_decode(token@, secret@) is None ==> result_view(claims) == Err::<
            ClaimsView,
            AuthErrorView,
        >(AuthErrorView::Unauthorized),
        spec_decode(token@, secret@) matches Some(c) ==> (c.exp > i64::MAX ==> result_view(claims)
            == Ok::<ClaimsView, AuthErrorView>(c)),
{
    let now = unix_now();
    let claims = validate_at(token, secret, now);
    proof {
        assert(result_view(claims) == spec_validate(token@, secret@, now));
    }
    claims
}

/// Claims issued at `now` are accepted from then on and as long as an hour
/// has not passed, and never after: at `now` itself they are accepted, and 61
/// minutes later they are `Unauthorized`.
pub proof fn issued_claims_are_valid_for_an_hour(sub: u128, role: Seq<char>, now: u64, at: u64)
    requires
        now + VALIDITY_SECS <= u64::MAX,
    ensures
        spec_accept(Some(issued(sub, role, now)), at) == if at < now + VALIDITY_SECS {
            Ok::<ClaimsView, AuthErrorView>(issued(sub, role, now))
        } else {
            Err::<ClaimsView, AuthErrorView>(AuthErrorView::Unauthorized)
        },
        spec_accept(Some(issued(sub, role, now)), now) == Ok::<ClaimsView, AuthErrorView>(
            issued(sub, role, now),
        ),
        at >= now + 61 * 60 ==> spec_accept(Some(issued(sub, role, now)), at) == Err::<
            ClaimsView,
            AuthErrorView,
        >(AuthErrorView::Unauthorized),
{
}

/// Validation has one failure, `Unauthorized`, whatever it was that failed;
/// and the claims it gives are the token's own, not yet expired.
pub proof fn validation_fails_in_one_way(token: Seq<char>, secret: Seq<char>, now: u64)
    ensures
        spec_validate(token, secret, now) matches Err(e) ==> e is Unauthorized,
        spec_validate(token, secret, now) matches Ok(claims) ==> spec_decode(token, secret) == Some(
            claims,
        ) && now < claims.exp,
{
}

/// A token that is refused at one time is refused at every later time: once
/// expired, it stays expired.
pub proof fn refused_token_stays_refused(
    token: Seq<char>,
    secret: Seq<char>,
    now: u64,
    later: u64,
)
    requires
        now <= later,
        spec_validate(token, secret, now) is Err,
    ensures
        spec_validate(token, secret, later) is Err,
{
}

/// What `signed_part` gives is the beginning of the token, and it ends with a
/// dot where it is not empty.
pub proof fn signed_part_is_a_prefix(token: Seq<char>)
    ensures
        is_prefix(signed_part(token), token),
        signed_part(token).len() > 0 ==> signed_part(token).last() == '.',
    decreases token.len(),
{
    if token.len() == 0 {
        assert(token.subrange(0, 0) =~= signed_part(token));
    } else if token.last() == '.' {
        assert(token.subrange(0, token.len() as int) =~= token);
    } else {
        let shorter = token.drop_last();
        signed_part_is_a_prefix(shorter);
        let n = signed_part(shorter).len() as int;
        assert(token.subrange(0, n) =~= shorter.subrange(0, n));
    }
}

/// A token in which one character of the signature is changed is the token
/// with something else in the place of its signature. A single flipped bit
/// in the signature changes one character.
pub proof fn changed_signature_is_another_signature(token: Seq<char>, at: int, changed: char)
    requires
        0 < signed_part(token).len() <= at < token.len(),
        changed != token[at],
    ensures
        resigned(token, token.update(at, changed)),
{
    signed_part_is_a_prefix(token);
    let other = token.update(at, changed);
    let n = signed_part(token).len() as int;
    assert(other.subrange(0, n) =~= token.subrange(0, n));
    assert(other[at] != token[at]);
}

/// A token with a changed signature fails validation: where the secret's
/// signature binds a token, the token with one character of its signature
/// changed is `Unauthorized` at every time.
pub proof fn token_with_changed_signature_fails(
    token: Seq<char>,
    secret: Seq<char>,
    at: int,
    changed: char,
    now: u64,
)
    requires
        signature_binds(token, secret),
        0 < signed_part(token).len() <= at < token.len(),
        changed != token[at],
    ensures
        spec_validate(token.update(at, changed), secret, now) == Err::<ClaimsView, AuthErrorView>(
            AuthErrorView::Unauthorized,
        ),
{
    changed_signature_is_another_signature(token, at, changed);
}

} // verus!
