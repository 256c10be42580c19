//! Signed tokens: issuing the HS256 JSON web tokens that name a user, and
//! checking them.
use vstd::prelude::*;
use std::collections::BTreeMap;
use jwt_simple::prelude::{Claims, Duration, HS256Key, MACLike, VerificationOptions};
use serde_json::Value;
use crate::clock::unix_now_ticks;
use crate::ids::{lemma_uuid_hyphenated_len, parse_uuid, uuid_hyphenated, uuid_parsed, uuid_to_string};

verus! {

/// How long an access token is valid: 30 seconds.
pub const ACCESS_VALID_SECS: u64 = 30;

/// How long a refresh token is valid: 4 minutes.
pub const REFRESH_VALID_SECS: u64 = 240;

/// The clock drift that a check of a token tolerates: 15 minutes.
pub const TIME_TOLERANCE_SECS: u64 = 900;

/// The clock counts seconds in fixed point: 2^32 ticks a second.
pub const TICKS_PER_SEC: u64 = 0x1_0000_0000;

/// The latest time, in ticks, at which a token can be checked: adding the
/// tolerance to it still fits in 64 bits.
pub const MAX_CHECK_TICKS: u64 = 0xFFFF_FC7B_FFFF_FFFF;

/// The fields that a token carries besides its times.
#[derive(Debug)]
pub struct ClaimToken {
    pub username: String,
    pub uuid: u128,
}

/// The claims of a token that passed the check: its times (in seconds since
/// the epoch, where present) and its user.
#[derive(Debug)]
pub struct VerifiedClaims {
    pub issued_at: Option<u64>,
    pub expires_at: Option<u64>,
    pub invalid_before: Option<u64>,
    pub custom: ClaimToken,
}

/// The two tokens that a login or a sign-up hands out.
#[derive(Debug)]
pub struct UserToken {
    pub token: String,
    pub refresh_token: String,
}

/// Why a token was not accepted.
#[derive(Debug)]
pub enum TokenError {
    /// The signature, the encoding or the times were refused; the text says why.
    Rejected(String),
    /// The token lacks the user name or the UUID as a string.
    MissingClaim,
    /// The token's UUID field is no UUID.
    InvalidUuid,
    /// The clock reads a time too late to check a token against.
    ClockOutOfRange,
}

/// The compact HS256 token that `jwt_simple` signs with the key `secret`
/// for the claims iat = nbf = `issued_at`, exp = `expires_at` (in seconds),
/// `username` and `uuid` (as JSON strings).
pub uninterp spec fn hs256_jwt(
    secret: Seq<u8>,
    username: Seq<char>,
    uuid: Seq<char>,
    issued_at: u64,
    expires_at: u64,
) -> Seq<char>;

/// What `jwt_simple` makes of a token checked with the key `secret` at the
/// time `now` (in ticks): the claims iat, exp and nbf (in seconds) and the
/// string claims `username` and `uuid`, each where present, or the text of
/// the error that refused the token.
pub uninterp spec fn hs256_check(secret: Seq<u8>, token: Seq<char>, now: u64) -> Result<
    (Option<u64>, Option<u64>, Option<u64>, Option<Seq<char>>, Option<Seq<char>>),
    Seq<char>,
>;

/// The times (in ticks) at which a token issued at `issued_at` and expiring
/// at `expires_at` (in seconds) passes the check: not issued more than the
/// tolerance in the future, not expired by more than the tolerance.
pub open spec fn jwt_window(issued_at: u64, expires_at: u64, now: u64) -> bool {
    &&& now <= MAX_CHECK_TICKS
    &&& TIME_TOLERANCE_SECS * TICKS_PER_SEC <= now
    &&& issued_at * TICKS_PER_SEC <= now + TIME_TOLERANCE_SECS * TICKS_PER_SEC
    &&& now <= (expires_at + TIME_TOLERANCE_SECS) * TICKS_PER_SEC
}

/// A check that found the times and both string claims of a signed token.
pub open spec fn claims_found(
    issued_at: u64,
    expires_at: u64,
    username: Seq<char>,
    uuid: Seq<char>,
) -> Result<
    (Option<u64>, Option<u64>, Option<u64>, Option<Seq<char>>, Option<Seq<char>>),
    Seq<char>,
> {
    Ok((Some(issued_at), Some(expires_at), Some(issued_at), Some(username), Some(uuid)))
}

pub open spec fn opt_text(o: Option<String>) -> Option<Seq<char>> {
    match o {
        Some(s) => Some(s@),
        None => None,
    }
}

pub open spec fn check_view(
    r: Result<(Option<u64>, Option<u64>, Option<u64>, Option<String>, Option<String>), String>,
) -> Result<
    (Option<u64>, Option<u64>, Option<u64>, Option<Seq<char>>, Option<Seq<char>>),
    Seq<char>,
> {
    match r {
        Ok((i, e, b, u, id)) => Ok((i, e, b, opt_text(u), opt_text(id))),
        Err(m) => Err(m@),
    }
}

/// Calls `HS256Key::from_bytes` and `MACLike::authenticate` on claims with
/// the given times and the string claims `username` and `uuid`. Trusted: the
/// token is the named one; the key is long enough for `authenticate`'s only
/// check (12 bytes), and the serialisations of strings and integers that
/// remain cannot fail. And, as the crate documents, a token passes
/// `verify_token` with the same key: at any time within the window of its
/// times the check gives back its times and both claims, as long as the
/// token stays within the check's default length limit of 1,000,000 bytes
/// (the token is ASCII, so its characters are its bytes) and the times fit
/// the clock's 32-bit seconds, below which `Duration::from_secs` and
/// `as_secs` are exact.
#[verifier::external_body]
fn hs256_sign(secret: &[u8], username: &str, uuid: &str, issued_at: u64, expires_at: u64) -> (r:
    String)
    requires
        secret@.len() >= 12,
    ensures
        r@ == hs256_jwt(secret@, username@, uuid@, issued_at, expires_at),
        (r@.len() <= 1_000_000 && issued_at < 0x1_0000_0000 && expires_at < 0x1_0000_0000) ==> (
        forall|now: u64|
            jwt_window(issued_at, expires_at, now) ==> #[trigger] hs256_check(secret@, r@, now)
                == claims_found(issued_at, expires_at, username@, uuid@)),
{
    let mut custom = BTreeMap::new();
    custom.insert(String::from("username"), String::from(username));
    custom.insert(String::from("uuid"), String::from(uuid));
    let mut claims = Claims::with_custom_claims(custom, Duration::from_secs(0));
    claims.issued_at = Some(Duration::from_secs(issued_at));
    claims.expires_at = Some(Duration::from_secs(expires_at));
    claims.invalid_before = Some(Duration::from_secs(issued_at));
    HS256Key::from_bytes(secret).authenticate(claims).unwrap()
}

/// Calls `HS256Key::from_bytes` and `MACLike::verify_token` with the default
/// options and the current time set to `now` ticks, reads the times as
/// seconds, and picks the claims `username` and `uuid` where they are
/// strings (other custom claims are ignored). Trusted: the outcome is the
/// named one. The time is bounded because the check adds the tolerance to
/// it in 64-bit ticks.
#[verifier::external_body]
fn hs256_verify(secret: &[u8], token: &str, now: u64) -> (r: Result<
    (Option<u64>, Option<u64>, Option<u64>, Option<String>, Option<String>),
    String,
>)
    requires
        now <= MAX_CHECK_TICKS,
    ensures
        hs256_check(secret@, token@, now) == check_view(r),
{
    let options = VerificationOptions {
        artificial_time: Some(Duration::from_ticks(now)),
        ..Default::default()
    };
    match HS256Key::from_bytes(secret).verify_token::<BTreeMap<String, Value>>(token, Some(options)) {
        Ok(c) => Ok((
            c.issued_at.as_ref().map(Duration::as_secs),
            c.expires_at.as_ref().map(Duration::as_secs),
            c.invalid_before.as_ref().map(Duration::as_secs),
            c.custom.get("username").and_then(Value::as_str).map(String::from),
            c.custom.get("uuid").and_then(Value::as_str).map(String::from),
        )),
        Err(e) => Err(e.to_string()),
    }
}

/// The times, user name and UUID that a token yields when checked at `now`.
pub open spec fn verified_claims(secret: Seq<u8>, token: Seq<char>, now: u64) -> Option<
    (Option<u64>, Option<u64>, Option<u64>, Seq<char>, u128),
> {
    match hs256_check(secret, token, now) {
        Ok((i, e, b, Some(u), Some(id))) => match uuid_parsed(id) {
            Some(v) => Some((i, e, b, u, v)),
            None => None,
        },
        _ => None,
    }
}

/// The plain values of checked claims.
pub open spec fn claims_view(c: VerifiedClaims) -> (
    Option<u64>,
    Option<u64>,
    Option<u64>,
    Seq<char>,
    u128,
) {
    (c.issued_at, c.expires_at, c.invalid_before, c.custom.username@, c.custom.uuid)
}

/// The outcome of checking a token against a clock that read `now` ticks:
/// past the last checkable time, the clock is out of range; else the claims
/// are those of the check.
pub open spec fn checked_at(
    secret: Seq<u8>,
    token: Seq<char>,
    now: u64,
    r: Result<VerifiedClaims, TokenError>,
) -> bool {
    if now <= MAX_CHECK_TICKS {
        &&& r is Ok <==> verified_claims(secret, token, now) is Some
        &&& r is Ok ==> verified_claims(secret, token, now) == Some(claims_view(r->Ok_0))
    } else {
        r matches Err(TokenError::ClockOutOfRange)
    }
}

/// The token issued at `issued_at` for the user, valid for `valid_for` seconds.
pub open spec fn signed_claims(
    secret: Seq<u8>,
    username: Seq<char>,
    uuid: u128,
    issued_at: u64,
    valid_for: u64,
) -> Seq<char> {
    hs256_jwt(secret, username, uuid_hyphenated(uuid), issued_at, (issued_at + valid_for) as u64)
}

/// A token issued at `issued_at` and valid for `valid_for` seconds gives
/// back, at every time of its window, its issue time, its expiry
/// `valid_for` seconds later, and the user's name and UUID: for every token
/// within the check's length limit whose expiry falls before 2^32 seconds
/// since the epoch (the year 2106).
pub open spec fn accepted_in_window(
    secret: Seq<u8>,
    username: Seq<char>,
    uuid: u128,
    token: Seq<char>,
    issued_at: u64,
    valid_for: u64,
) -> bool {
    (token.len() <= 1_000_000 && issued_at + valid_for < 0x1_0000_0000) ==> forall|now: u64|
        jwt_window(issued_at, (issued_at + valid_for) as u64, now) ==> #[trigger] verified_claims(
            secret,
            token,
            now,
        ) == Some(
            (
                Some(issued_at),
                Some((issued_at + valid_for) as u64),
                Some(issued_at),
                username,
                uuid,
            ),
        )
}

/// `token` was issued for the user at some time of the clock, valid for
/// `valid_for` seconds, and is accepted throughout its window.
pub open spec fn issued_token(
    secret: Seq<u8>,
    username: Seq<char>,
    uuid: u128,
    valid_for: u64,
    token: Seq<char>,
) -> bool {
    exists|t: u64|
        #![trigger signed_claims(secret, username, uuid, t, valid_for)]
        t < 0x1_0000_0000 && token == signed_claims(secret, username, uuid, t, valid_for)
            && accepted_in_window(secret, username, uuid, token, t, valid_for)
}

/// `token` and `refresh_token` were issued for the user at one and the same
/// time of the clock, valid for 30 seconds and 4 minutes, and each is
/// accepted throughout its window.
pub open spec fn issued_together(
    secret: Seq<u8>,
    username: Seq<char>,
    uuid: u128,
    token: Seq<char>,
    refresh_token: Seq<char>,
) -> bool {
    exists|t: u64|
        #![trigger signed_claims(secret, username, uuid, t, ACCESS_VALID_SECS)]
        t < 0x1_0000_0000 && token == signed_claims(secret, username, uuid, t, ACCESS_VALID_SECS)
            && refresh_token == signed_claims(secret, username, uuid, t, REFRESH_VALID_SECS)
            && accepted_in_window(secret, username, uuid, token, t, ACCESS_VALID_SECS)
            && accepted_in_window(secret, username, uuid, refresh_token, t, REFRESH_VALID_SECS)
}

/// Signs the claims of the user at the time `now` (in seconds), valid for
/// `valid_for` seconds.
pub fn claim_token_at(
    username: &String,
    uuid: u128,
    jwt_secret: &[u8],
    now: u64,
    valid_for: u64,
) -> (r: String)
    requires
        jwt_secret@.len() >= 12,
        now < 0x1_0000_0000,
        valid_for <= REFRESH_VALID_SECS,
    ensures
        r@ == signed_claims(jwt_secret@, username@, uuid, now, valid_for),
        accepted_in_window(jwt_secret@, username@, uuid, r@, now, valid_for),
{
    let id = uuid_to_string(uuid);
    proof {
        lemma_uuid_hyphenated_len(uuid);
    }
    let r = hs256_sign(jwt_secret, username.as_str(), id.as_str(), now, now + valid_for);
    assert forall|t: u64|
        r@.len() <= 1_000_000 && now + valid_for < 0x1_0000_0000 && jwt_window(
            now,
            (now + valid_for) as u64,
            t,
        ) implies #[trigger] verified_claims(jwt_secret@, r@, t) == Some(
        (Some(now), Some((now + valid_for) as u64), Some(now), username@, uuid),
    ) by {
        assert(hs256_check(jwt_secret@, r@, t) == claims_found(
            now,
            (now + valid_for) as u64,
            username@,
            id@,
        ));
    }
    r
}

/// Checks a token at the time `now` (in ticks): its signature with the key,
/// its times, and its claims.
pub fn verify_token_at(token: &String, jwt_secret: &[u8], now: u64) -> (r: Result<
    VerifiedClaims,
    TokenError,
>)
    requires
        now <= MAX_CHECK_TICKS,
    ensures
        checked_at(jwt_secret@, token@, now, r),
        hs256_check(jwt_secret@, token@, now) is Err <==> r matches Err(TokenError::Rejected(_)),
        r matches Err(TokenError::Rejected(m)) ==> hs256_check(jwt_secret@, token@, now) == Err::<
            (Option<u64>, Option<u64>, Option<u64>, Option<Seq<char>>, Option<Seq<char>>),
            Seq<char>,
        >(m@),
        r matches Err(TokenError::MissingClaim) ==> (hs256_check(jwt_secret@, token@, now) matches Ok(
            (_, _, _, u, id),
        ) && (u is None || id is None)),
        r matches Err(TokenError::InvalidUuid) ==> (hs256_check(jwt_secret@, token@, now) matches Ok(
            (_, _, _, Some(_), Some(id)),
        ) && uuid_parsed(id) is None),
        !(r matches Err(TokenError::ClockOutOfRange)),
{
    match hs256_verify(jwt_secret, token.as_str(), now) {
        Err(m) => Err(TokenError::Rejected(m)),
        Ok((issued_at, expires_at, invalid_before, Some(u), Some(id))) => match parse_uuid(
            id.as_str(),
        ) {
            Ok(v) => Ok(
                VerifiedClaims {
                    issued_at,
                    expires_at,
                    invalid_before,
                    custom: ClaimToken { username: u, uuid: v },
                },
            ),
            Err(_) => Err(TokenError::InvalidUuid),
        },
        Ok(_) => Err(TokenError::MissingClaim),
    }
}

/// Checks a token against the clock. A clock that reads past the last
/// checkable time gives `ClockOutOfRange`.
pub fn verify_token_now(token: &String, jwt_secret: &[u8]) -> (r: Result<
    VerifiedClaims,
    TokenError,
>)
    ensures
        exists|now: u64| checked_at(jwt_secret@, token@, now, r),
{
    let now = unix_now_ticks();
    if now > MAX_CHECK_TICKS {
        let r = Err(TokenError::ClockOutOfRange);
        assert(checked_at(jwt_secret@, token@, now, r));
        return r;
    }
    let r = verify_token_at(token, jwt_secret, now);
    assert(checked_at(jwt_secret@, token@, now, r));
    r
}

} // verus!

verus! {

/// Issuing and checking the tokens of an account.
pub trait Token {
    /// An access token for the user, valid for 30 seconds from now.
    fn get_jwt_token(username: &String, uuid: u128, jwt_secret: &[u8]) -> (r: String)
        requires
            jwt_secret@.len() >= 12,
        ensures
            issued_token(jwt_secret@, username@, uuid, ACCESS_VALID_SECS, r@),
    ;

    /// A refresh token for the user, valid for 4 minutes from now.
    fn get_jwt_refresh_token(username: &String, uuid: u128, jwt_secret: &[u8]) -> (r: String)
        requires
            jwt_secret@.len() >= 12,
        ensures
            issued_token(jwt_secret@, username@, uuid, REFRESH_VALID_SECS, r@),
    ;

    /// Checks a token against the key and the clock, and reads its claims.
    fn verify_jwt_token(token: String, jwt_secret: &[u8]) -> (r: Result<
        VerifiedClaims,
        TokenError,
    >)
        ensures
            exists|now: u64| checked_at(jwt_secret@, token@, now, r),
    ;

    /// Both tokens for the user, issued at the same reading of the clock.
    fn generate_tokens(uuid: u128, jwt_secret: &[u8], username: &String) -> (r: UserToken)
        requires
            jwt_secret@.len() >= 12,
        ensures
            issued_token(jwt_secret@, username@, uuid, ACCESS_VALID_SECS, r.token@),
            issued_token(jwt_secret@, username@, uuid, REFRESH_VALID_SECS, r.refresh_token@),
            issued_together(jwt_secret@, username@, uuid, r.token@, r.refresh_token@),
    ;

    fn do_somethine() -> (r: u8)
        ensures
            r == 8,
    ;
}

} // verus!
