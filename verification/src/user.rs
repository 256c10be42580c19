//! Accounts: the stored user, the forms that create one or log in, and the
//! checks and steps of sign-up and login.
use vstd::prelude::*;
use vstd::string::*;
use vstd::utf8::encode_utf8;
use argon2::password_hash::rand_core::OsRng;
use argon2::password_hash::SaltString;
use argon2::{Argon2, PasswordHash, PasswordHasher, PasswordVerifier};
use crate::clock::{unix_now_ticks, utc_now_micros};
use crate::errors::{OurError, Status};
use crate::ids::{new_uuid_v4, parse_uuid, uuid_is_v4, uuid_parsed};
use crate::token::{
    accepted_in_window, claim_token_at, issued_together, issued_token, jwt_window, signed_claims,
    verified_claims, verify_token_now, Token, TokenError, UserToken, VerifiedClaims,
    ACCESS_VALID_SECS, REFRESH_VALID_SECS, TICKS_PER_SEC,
};
use crate::user_status::UserStatus;

verus! {

/// A form to log in with.
#[derive(Debug)]
pub struct UserLogin {
    pub username: String,
    pub password: String,
}

/// A form to create an account with.
#[derive(Debug)]
pub struct CreateUser {
    pub username: String,
    pub email: String,
    pub password1: String,
    pub password2: String,
    pub phone: u64,
}

/// A stored account. Times are microseconds since the epoch.
#[derive(Clone, Debug)]
pub struct User {
    pub uuid: u128,
    pub username: String,
    pub password_hash: String,
    pub email: String,
    pub refresh_token: String,
    pub description: Option<String>,
    pub token: String,
    pub created_at: i64,
    pub updated_at: i64,
    pub status: UserStatus,
}

/// The claims that name a user.
#[derive(Debug)]
pub struct ClaimsUser {
    pub uuid: u128,
    pub username: String,
}

/// The sign-up form.
#[derive(Debug)]
pub struct NewUser {
    pub username: String,
    pub email: String,
    pub password: String,
    pub password_confirmation: String,
}

/// The login form.
#[derive(Debug)]
pub struct LoginUser {
    pub username: String,
    pub password: String,
}

/// The pattern that an e-mail address must match somewhere.
pub const EMAIL_REGEX: &'static str = r#"(?:[a-z0-9!#$%&'*+/=?^_`{|}~-]+(?:\.[a-z0-9!#$%&'*+/=?^_`{|}~-]+)*|"(?:[\x01-\x08\x0b\x0c\x0e-\x1f\x21\x23-\x5b\x5d-\x7f]|\\[\x01-\x09\x0b\x0c\x0e-\x7f])*")@(?:(?:[a-z0-9](?:[a-z0-9-]*[a-z0-9])?\.)+[a-z0-9](?:[a-z0-9-]*[a-z0-9])?|\[(?:(?:25[0-5]|2[0-4][0-9]|[01]?[0-9][0-9]?)\.){3}(?:25[0-5]|2[0-4][0-9]|[01]?[0-9][0-9]?|[a-z0-9-]*[a-z0-9]:(?:[\x01-\x08\x0b\x0c\x0e-\x1f\x21-\x5a\x53-\x7f]|\\[\x01-\x09\x0b\x0c\x0e-\x7f])+)\])"#;

/// What `regex` makes of a pattern and a text: whether the compiled pattern
/// matches somewhere in the text, or nothing where the pattern does not
/// compile.
pub uninterp spec fn regex_match(pattern: Seq<char>, text: Seq<char>) -> Option<bool>;

/// What Argon2 (default parameters) says of a password and a stored PHC
/// hash string: nothing where the password matches, else the text of the
/// error (the hash does not parse, or the password does not match).
pub uninterp spec fn argon2_rejection(password: Seq<char>, hash: Seq<char>) -> Option<Seq<char>>;

/// Calls `zxcvbn::zxcvbn` with no user inputs and reads `score`. Trusted: a
/// blank password gets no score, and a score lies in the documented range 0
/// to 4. And a score is at most `score_ceiling` of the password's length:
/// the crate scores at most the first 100 characters, and among the match
/// sequences it minimises over is one brute-force match of the whole
/// password, of 10^n + 1 guesses for n characters (n >= 2; 12 for one), so
/// its estimate is no more, and `calculate_score` turns fewer than 1005,
/// 10^6 + 5, 10^8 + 5 and 10^10 + 5 guesses into 0, 1, 2 and 3. The score
/// is not a function of the password alone (the crate scores dates against
/// the current year, read from the clock), and the crate also fails when
/// the clock reads before the epoch, so nothing more is stated.
#[verifier::external_body]
fn password_entropy_score(password: &str) -> (r: Option<u8>)
    ensures
        password@.len() == 0 ==> r is None,
        r is Some ==> r->Some_0 <= 4,
        r is Some ==> r->Some_0 <= score_ceiling(password@.len()),
{
    match zxcvbn::zxcvbn(password, &[]) {
        Ok(entropy) => Some(entropy.score()),
        Err(_) => None,
    }
}

/// Calls `regex::Regex::new` and `is_match`. Trusted: the outcome is the
/// named one.
#[verifier::external_body]
fn regex_is_match(pattern: &str, text: &str) -> (r: Option<bool>)
    ensures
        r == regex_match(pattern@, text@),
{
    match regex::Regex::new(pattern) {
        Ok(re) => Some(re.is_match(text)),
        Err(_) => None,
    }
}

/// Calls `PasswordHash::new` on the stored hash and
/// `Argon2::default().verify_password`. Trusted: the outcome is the named
/// one, with each error's text.
#[verifier::external_body]
fn argon2_verify(password: &str, hash: &str) -> (r: Result<(), String>)
    ensures
        r is Ok <==> argon2_rejection(password@, hash@) is None,
        r is Err ==> argon2_rejection(password@, hash@) == Some(r->Err_0@),
{
    match PasswordHash::new(hash) {
        Ok(parsed) => match Argon2::default().verify_password(password.as_bytes(), &parsed) {
            Ok(()) => Ok(()),
            Err(e) => Err(e.to_string()),
        },
        Err(e) => Err(e.to_string()),
    }
}

/// Calls `SaltString::generate` with `OsRng` and
/// `Argon2::default().hash_password`, and writes the PHC string. Trusted, as
/// the crate's documentation shows: the password verifies against the hash
/// it made. With the default parameters and a generated salt the only
/// refusal in the crate's source is a password longer than `MAX_PWD_LEN`
/// (2^32 - 1 bytes): a password is hashed exactly when it is no longer.
/// The salt is random.
#[verifier::external_body]
fn argon2_hash(password: &str) -> (r: Result<String, String>)
    ensures
        r is Ok ==> argon2_rejection(password@, r->Ok_0@) is None,
        r is Ok <==> encode_utf8(password@).len() <= 0xFFFF_FFFF,
{
    let salt = SaltString::generate(&mut OsRng);
    match Argon2::default().hash_password(password.as_bytes(), &salt) {
        Ok(hash) => Ok(hash.to_string()),
        Err(e) => Err(e.to_string()),
    }
}

/// The highest strength score that a password of `len` characters can get:
/// a password of at most 8 characters is always weak.
pub open spec fn score_ceiling(len: nat) -> u8 {
    if len <= 3 {
        0
    } else if len <= 6 {
        1
    } else if len <= 8 {
        2
    } else if len <= 10 {
        3
    } else {
        4
    }
}

/// An address that the e-mail pattern matches.
pub open spec fn valid_email(email: Seq<char>) -> bool {
    regex_match(EMAIL_REGEX@, email) == Some(true)
}

/// The verdict on a password's score: a score of 3 or more passes; no score
/// or a lower one is a weak password.
pub fn password_verdict(score: Option<u8>) -> (r: Result<(), &'static str>)
    ensures
        r is Ok <==> (score matches Some(s) && s >= 3),
        r is Err ==> r->Err_0@ == "weak password"@,
{
    match score {
        Some(s) => if s >= 3 {
            Ok(())
        } else {
            Err("weak password")
        },
        None => Err("weak password"),
    }
}

/// Checks that a password is strong enough.
pub fn validate_password(password: &str) -> (r: Result<(), &'static str>)
    ensures
        r is Ok ==> password@.len() > 0,
        password@.len() == 0 ==> r is Err,
        password@.len() <= 8 ==> r is Err,
        r is Err ==> r->Err_0@ == "weak password"@,
{
    let score = password_entropy_score(password);
    password_verdict(score)
}

/// Checks that an e-mail address matches the pattern. A pattern that does
/// not compile refuses every address.
pub fn validate_email(email: &str) -> (r: Result<(), &'static str>)
    ensures
        r is Ok <==> valid_email(email@),
        r is Err ==> r->Err_0@ == "email is not valid"@,
{
    match regex_is_match(EMAIL_REGEX, email) {
        Some(true) => Ok(()),
        _ => Err("email is not valid"),
    }
}

} // verus!

verus! {

impl Token for User {
    fn get_jwt_token(username: &String, uuid: u128, jwt_secret: &[u8]) -> (r: String) {
        let now = unix_now_ticks() / TICKS_PER_SEC;
        let r = claim_token_at(username, uuid, jwt_secret, now, ACCESS_VALID_SECS);
        assert(r@ == crate::token::signed_claims(jwt_secret@, username@, uuid, now, ACCESS_VALID_SECS));
        r
    }

    fn get_jwt_refresh_token(username: &String, uuid: u128, jwt_secret: &[u8]) -> (r: String) {
        let now = unix_now_ticks() / TICKS_PER_SEC;
        let r = claim_token_at(username, uuid, jwt_secret, now, REFRESH_VALID_SECS);
        assert(r@ == crate::token::signed_claims(jwt_secret@, username@, uuid, now, REFRESH_VALID_SECS));
        r
    }

    fn verify_jwt_token(token: String, jwt_secret: &[u8]) -> (r: Result<
        VerifiedClaims,
        TokenError,
    >) {
        verify_token_now(&token, jwt_secret)
    }

    fn generate_tokens(uuid: u128, jwt_secret: &[u8], username: &String) -> (r: UserToken) {
        let now = unix_now_ticks() / TICKS_PER_SEC;
        let token = claim_token_at(username, uuid, jwt_secret, now, ACCESS_VALID_SECS);
        let refresh_token = claim_token_at(username, uuid, jwt_secret, now, REFRESH_VALID_SECS);
        assert(token@ == crate::token::signed_claims(jwt_secret@, username@, uuid, now, ACCESS_VALID_SECS));
        assert(refresh_token@ == crate::token::signed_claims(jwt_secret@, username@, uuid, now, REFRESH_VALID_SECS));
        UserToken { token, refresh_token }
    }

    fn do_somethine() -> (r: u8) {
        8
    }
}

/// What stops a sign-up form, given the strength score that the password
/// got (if any): a weak password, then a confirmation that differs, then an
/// address that the pattern refuses.
pub open spec fn sign_up_refusal(new_user: NewUser, score: Option<u8>) -> Option<Seq<char>> {
    if !(score matches Some(s) && s >= 3) {
        Some("weak password"@)
    } else if new_user.password@ != new_user.password_confirmation@ {
        Some("password did not matched"@)
    } else if !valid_email(new_user.email@) {
        Some("email is not valid"@)
    } else {
        None
    }
}

/// A score that the strength check can give a password: none for a blank
/// one, and where there is one, at most 4 and at most the ceiling for its
/// length.
pub open spec fn possible_score(password: Seq<char>, score: Option<u8>) -> bool {
    &&& password.len() == 0 ==> score is None
    &&& score matches Some(s) ==> s <= 4 && s <= score_ceiling(password.len())
}

/// A stored account made from a sign-up form: its name and address, a hash
/// that the password verifies against, an active status, a random UUID, and
/// both tokens issued for it at one reading of the clock.
pub open spec fn created_from(new_user: NewUser, secret: Seq<u8>, u: User) -> bool {
    &&& u.username@ == new_user.username@
    &&& u.email@ == new_user.email@
    &&& argon2_rejection(new_user.password@, u.password_hash@) is None
    &&& u.description is None
    &&& u.status == UserStatus::Active
    &&& uuid_is_v4(u.uuid)
    &&& issued_token(secret, u.username@, u.uuid, ACCESS_VALID_SECS, u.token@)
    &&& issued_token(secret, u.username@, u.uuid, REFRESH_VALID_SECS, u.refresh_token@)
    &&& issued_together(secret, u.username@, u.uuid, u.token@, u.refresh_token@)
}

/// What a sign-up answers, given the strength score of its password: the
/// refusal of the form, or the account; only a password too long for Argon2
/// (over 2^32 - 1 bytes) makes an internal error.
pub open spec fn sign_up_outcome(
    new_user: NewUser,
    score: Option<u8>,
    secret: Seq<u8>,
    r: Result<User, OurError>,
) -> bool {
    match sign_up_refusal(new_user, score) {
        Some(m) => r matches Err(e) && e.status == Status::BadRequest && e.message@ == m
            && e.debug is None,
        None => if encode_utf8(new_user.password@).len() <= 0xFFFF_FFFF {
            r matches Ok(u) && created_from(new_user, secret, u)
        } else {
            r matches Err(e) && e.status == Status::InternalServerError && e.message@
                == "Something went wrong"@ && e.debug is Some
        },
    }
}

/// A password that verifies against a stored account's hash.
pub open spec fn login_accepted(password: Seq<char>, u: User) -> bool {
    argon2_rejection(password, u.password_hash@) is None
}

/// The bytes of a text in UTF-8.
pub open spec fn utf8_of(s: String) -> Seq<u8> {
    encode_utf8(s@)
}

impl User {
    /// Checks a sign-up form, given the strength score of its password.
    pub fn check_new_user(new_user: &NewUser, password_score: Option<u8>) -> (r: Result<
        (),
        OurError,
    >)
        ensures
            r is Ok <==> sign_up_refusal(*new_user, password_score) is None,
            r is Err ==> (r->Err_0.status == Status::BadRequest && Some(r->Err_0.message@)
                == sign_up_refusal(*new_user, password_score) && r->Err_0.debug is None),
            r is Ok ==> new_user.password@ == new_user.password_confirmation@,
            r is Ok ==> (password_score matches Some(s) && s >= 3),
            r is Ok ==> valid_email(new_user.email@),
            !(password_score matches Some(s) && s >= 3) ==> (r is Err && r->Err_0.message@
                == "weak password"@),
            (password_score matches Some(s) && s >= 3) && new_user.password@
                != new_user.password_confirmation@ ==> (r is Err && r->Err_0.message@
                == "password did not matched"@),
            (password_score matches Some(s) && s >= 3) && new_user.password@
                == new_user.password_confirmation@ && !valid_email(new_user.email@) ==> (r is Err
                && r->Err_0.message@ == "email is not valid"@),
    {
        match password_verdict(password_score) {
            Err(e) => {
                return Err(OurError::new_bad_request_error(String::from_str(e), None));
            },
            Ok(()) => {},
        }
        if !(new_user.password == new_user.password_confirmation) {
            return Err(
                OurError::new_bad_request_error(String::from_str("password did not matched"), None),
            );
        }
        match validate_email(new_user.email.as_str()) {
            Err(e) => Err(OurError::new_bad_request_error(String::from_str(e), None)),
            Ok(()) => Ok(()),
        }
    }

    /// Makes the account that a sign-up form asks for, ready to be stored,
    /// given the strength score of its password: checks the form, hashes the
    /// password with a random salt, draws a UUID, and issues the account's
    /// tokens. The key is needed only when tokens are issued.
    pub fn create_with_score(
        new_user: &NewUser,
        jwt_secret: &String,
        password_score: Option<u8>,
    ) -> (r: Result<User, OurError>)
        requires
            sign_up_refusal(*new_user, password_score) is None ==> utf8_of(*jwt_secret).len()
                >= 12,
        ensures
            sign_up_outcome(*new_user, password_score, utf8_of(*jwt_secret), r),
            r is Ok ==> (password_score matches Some(s) && s >= 3),
            r is Ok ==> new_user.password@ == new_user.password_confirmation@,
            r is Ok ==> valid_email(new_user.email@),
            r is Ok ==> (r->Ok_0.username@ == new_user.username@ && r->Ok_0.email@
                == new_user.email@ && argon2_rejection(new_user.password@, r->Ok_0.password_hash@)
                is None && issued_together(
                utf8_of(*jwt_secret),
                new_user.username@,
                r->Ok_0.uuid,
                r->Ok_0.token@,
                r->Ok_0.refresh_token@,
            )),
    {
        let uuid = new_uuid_v4();
        match User::check_new_user(new_user, password_score) {
            Err(e) => {
                return Err(e);
            },
            Ok(()) => {},
        }
        let password_hash = match argon2_hash(new_user.password.as_str()) {
            Ok(h) => h,
            Err(m) => {
                return Err(
                    OurError::new_internal_server_error(
                        String::from_str("Something went wrong"),
                        Some(m),
                    ),
                );
            },
        };
        let secret = jwt_secret.as_str().as_bytes();
        let UserToken { token, refresh_token } = User::generate_tokens(uuid, secret, &new_user.username);
        let created_at = utc_now_micros();
        let updated_at = utc_now_micros();
        Ok(User {
            uuid,
            username: new_user.username.clone(),
            password_hash,
            email: new_user.email.clone(),
            refresh_token,
            description: None,
            token,
            created_at,
            updated_at,
            status: UserStatus::Active,
        })
    }

    /// Makes the account that a sign-up form asks for: scores the password,
    /// then as `create_with_score`. Where the form passes but the key is
    /// shorter than the 12 bytes that signing a token needs, nothing is made
    /// (`None`): issuing the tokens would fail.
    pub fn create(new_user: &NewUser, jwt_secret: &String) -> (r: Option<Result<User, OurError>>)
        ensures
            exists|score: Option<u8>|
                #![trigger possible_score(new_user.password@, score)]
                possible_score(new_user.password@, score) && match r {
                    Some(x) => sign_up_outcome(*new_user, score, utf8_of(*jwt_secret), x),
                    None => sign_up_refusal(*new_user, score) is None && utf8_of(*jwt_secret).len()
                        < 12,
                },
            new_user.password@.len() <= 8 ==> (r matches Some(Err(e)) && e.status
                == Status::BadRequest && e.message@ == "weak password"@),
            r matches Some(Ok(u)) ==> new_user.password@.len() > 8
                && new_user.password@ == new_user.password_confirmation@ && valid_email(
                new_user.email@,
            ) && u.username@ == new_user.username@ && u.email@ == new_user.email@
                && argon2_rejection(new_user.password@, u.password_hash@) is None,
    {
        let score = password_entropy_score(new_user.password.as_str());
        assert(possible_score(new_user.password@, score));
        if jwt_secret.as_str().as_bytes().len() < 12 {
            match User::check_new_user(new_user, score) {
                Err(e) => Some(Err(e)),
                Ok(()) => None,
            }
        } else {
            Some(User::create_with_score(new_user, jwt_secret, score))
        }
    }

    /// Checks a password against a stored hash; a hash that does not parse,
    /// or a password that does not match, is an internal error whose message
    /// is Argon2's.
    pub fn verify_password_hash(password: &String, password_hash: &String) -> (r: Result<
        (),
        OurError,
    >)
        ensures
            r is Ok <==> argon2_rejection(password@, password_hash@) is None,
            r is Err ==> (r->Err_0.status == Status::InternalServerError && argon2_rejection(
                password@,
                password_hash@,
            ) == Some(r->Err_0.message@) && r->Err_0.debug == Some(r->Err_0.message)),
    {
        match argon2_verify(password.as_str(), password_hash.as_str()) {
            Ok(()) => Ok(()),
            Err(m) => {
                let debug = m.clone();
                Err(OurError::new_internal_server_error(m, Some(debug)))
            },
        }
    }

    /// A sample active account with a random UUID.
    pub fn demo() -> (r: Self)
        ensures
            uuid_is_v4(r.uuid),
            r.username@ == "username"@,
            r.password_hash@ == ""@,
            r.email@ == "email"@,
            r.refresh_token@ == ""@,
            r.description is None,
            r.token@ == ""@,
            r.status == UserStatus::Active,
    {
        let uuid = new_uuid_v4();
        let created_at = utc_now_micros();
        let updated_at = utc_now_micros();
        User {
            uuid,
            username: String::from_str("username"),
            password_hash: String::from_str(""),
            email: String::from_str("email"),
            refresh_token: String::from_str(""),
            description: None,
            token: String::from_str(""),
            created_at,
            updated_at,
            status: UserStatus::Active,
        }
    }

    /// Reads the UUID in a request path; a text that is no UUID is a bad
    /// request.
    pub fn uuid_of(uuid: &str) -> (r: Result<u128, OurError>)
        ensures
            r is Ok <==> uuid_parsed(uuid@) is Some,
            r is Ok ==> uuid_parsed(uuid@) == Some(r->Ok_0),
            r is Err ==> (r->Err_0.status == Status::BadRequest && r->Err_0.message@
                == "something went wrong"@),
    {
        match parse_uuid(uuid) {
            Ok(v) => Ok(v),
            Err(e) => Err(OurError::from_uuid_error(e)),
        }
    }

    /// Decides a login once the account named in the form has been looked
    /// up: a lookup that failed is answered as it failed; a password that
    /// does not verify is refused; else the account gets new tokens, which
    /// the caller stores. The key is needed only when tokens are issued.
    pub fn auth(login_user: &LoginUser, found: Result<User, OurError>, jwt_secret: &[u8]) -> (r:
        Result<(User, UserToken), OurError>)
        requires
            (found is Ok && login_accepted(login_user.password@, found->Ok_0)) ==> jwt_secret@.len()
                >= 12,
        ensures
            login_answer(*login_user, found, jwt_secret@, r),
            r is Ok ==> (found is Ok && r->Ok_0.0 == found->Ok_0 && login_accepted(
                login_user.password@,
                found->Ok_0,
            )),
            r is Ok ==> issued_together(
                jwt_secret@,
                r->Ok_0.0.username@,
                r->Ok_0.0.uuid,
                r->Ok_0.1.token@,
                r->Ok_0.1.refresh_token@,
            ),
    {
        let user = match found {
            Err(e) => {
                return Err(e);
            },
            Ok(u) => u,
        };
        match User::verify_password_hash(&login_user.password, &user.password_hash) {
            Err(e) => {
                return Err(e);
            },
            Ok(()) => {},
        }
        let tokens = User::generate_tokens(user.uuid, jwt_secret, &user.username);
        Ok((user, tokens))
    }

    /// Decides a login as `auth` does, with any key: where the password is
    /// accepted but the key is shorter than the 12 bytes that signing a
    /// token needs, there is no answer (`None`): issuing the tokens would
    /// fail.
    pub fn try_auth(login_user: &LoginUser, found: Result<User, OurError>, jwt_secret: &[u8]) -> (r:
        Option<Result<(User, UserToken), OurError>>)
        ensures
            r is None <==> (found is Ok && login_accepted(login_user.password@, found->Ok_0)
                && jwt_secret@.len() < 12),
            r is Some ==> login_answer(*login_user, found, jwt_secret@, r->Some_0),
    {
        if jwt_secret.len() >= 12 {
            return Some(User::auth(login_user, found, jwt_secret));
        }
        let user = match found {
            Err(e) => {
                return Some(Err(e));
            },
            Ok(u) => u,
        };
        match User::verify_password_hash(&login_user.password, &user.password_hash) {
            Err(e) => Some(Err(e)),
            Ok(()) => None,
        }
    }
}

/// The answer to a login: a failed lookup as it failed, an internal error
/// with Argon2's text for a password that does not verify, and else the
/// account with both tokens issued for it at one reading of the clock.
pub open spec fn login_answer(
    login_user: LoginUser,
    found: Result<User, OurError>,
    secret: Seq<u8>,
    r: Result<(User, UserToken), OurError>,
) -> bool {
    match found {
        Err(e) => r == Err::<(User, UserToken), OurError>(e),
        Ok(u) => if login_accepted(login_user.password@, u) {
            &&& r is Ok
            &&& r->Ok_0.0 == u
            &&& issued_token(secret, u.username@, u.uuid, ACCESS_VALID_SECS, r->Ok_0.1.token@)
            &&& issued_token(secret, u.username@, u.uuid, REFRESH_VALID_SECS, r->Ok_0.1.refresh_token@)
            &&& issued_together(secret, u.username@, u.uuid, r->Ok_0.1.token@, r->Ok_0.1.refresh_token@)
        } else {
            &&& r is Err
            &&& r->Err_0.status == Status::InternalServerError
            &&& argon2_rejection(login_user.password@, u.password_hash@) == Some(r->Err_0.message@)
            &&& r->Err_0.debug == Some(r->Err_0.message)
        },
    }
}

/// A number that the sign-up used to print.
pub fn some_simple() -> (r: usize)
    ensures
        r == 8,
{
    8
}

/// A password of at most 8 characters never makes an account: whatever
/// score the strength check gives it, the sign-up is refused as a weak
/// password.
pub proof fn lemma_short_password_refused(
    new_user: NewUser,
    score: Option<u8>,
    secret: Seq<u8>,
    r: Result<User, OurError>,
)
    requires
        possible_score(new_user.password@, score),
        new_user.password@.len() <= 8,
        sign_up_outcome(new_user, score, secret, r),
    ensures
        r is Err,
        r->Err_0.status == Status::BadRequest,
        r->Err_0.message@ == "weak password"@,
{
}

/// A sign-up succeeds only for a strong password, typed the same twice, and
/// a valid address: an account is made only where the score is 3 or more,
/// the confirmation equals the password and the address matches the
/// pattern; where the score passes but the confirmation differs, the answer
/// is "password did not matched".
pub proof fn lemma_sign_up_checks_form(
    new_user: NewUser,
    score: Option<u8>,
    secret: Seq<u8>,
    r: Result<User, OurError>,
)
    requires
        sign_up_outcome(new_user, score, secret, r),
    ensures
        r is Ok ==> (score matches Some(s) && s >= 3),
        r is Ok ==> new_user.password@ == new_user.password_confirmation@,
        r is Ok ==> valid_email(new_user.email@),
        (score matches Some(s) && s >= 3) && new_user.password@ != new_user.password_confirmation@
            ==> (r is Err && r->Err_0.message@ == "password did not matched"@),
{
}

/// Two tokens issued together are checked together: they were both issued
/// at one time `t`, and at every time of the access token's window both
/// checks succeed for the user, each giving back the issue time `t`, the
/// access token expiring 30 seconds and the refresh token 4 minutes after
/// it (for tokens within the check's length limit, issued before 2106).
pub proof fn lemma_tokens_checked_together(
    secret: Seq<u8>,
    username: Seq<char>,
    uuid: u128,
    token: Seq<char>,
    refresh_token: Seq<char>,
) -> (t: u64)
    requires
        issued_together(secret, username, uuid, token, refresh_token),
    ensures
        t < 0x1_0000_0000,
        token == signed_claims(secret, username, uuid, t, ACCESS_VALID_SECS),
        refresh_token == signed_claims(secret, username, uuid, t, REFRESH_VALID_SECS),
        (t + REFRESH_VALID_SECS < 0x1_0000_0000 && token.len() <= 1_000_000 && refresh_token.len()
            <= 1_000_000) ==> forall|now: u64|
            jwt_window(t, (t + ACCESS_VALID_SECS) as u64, now) ==> {
                &&& #[trigger] verified_claims(secret, token, now) == Some(
                    (Some(t), Some((t + ACCESS_VALID_SECS) as u64), Some(t), username, uuid),
                )
                &&& verified_claims(secret, refresh_token, now) == Some(
                    (Some(t), Some((t + REFRESH_VALID_SECS) as u64), Some(t), username, uuid),
                )
            },
{
    let t = choose|t: u64|
        #![trigger signed_claims(secret, username, uuid, t, ACCESS_VALID_SECS)]
        t < 0x1_0000_0000 && token == signed_claims(secret, username, uuid, t, ACCESS_VALID_SECS)
            && refresh_token == signed_claims(secret, username, uuid, t, REFRESH_VALID_SECS)
            && accepted_in_window(secret, username, uuid, token, t, ACCESS_VALID_SECS)
            && accepted_in_window(secret, username, uuid, refresh_token, t, REFRESH_VALID_SECS);
    assert forall|now: u64|
        t + REFRESH_VALID_SECS < 0x1_0000_0000 && token.len() <= 1_000_000
            && refresh_token.len() <= 1_000_000 && jwt_window(t, (t + ACCESS_VALID_SECS) as u64, now)
        implies verified_claims(secret, refresh_token, now) == Some(
            (Some(t), Some((t + REFRESH_VALID_SECS) as u64), Some(t), username, uuid),
        ) by {
        assert(jwt_window(t, (t + REFRESH_VALID_SECS) as u64, now));
    }
    t
}

/// The tokens of a login are issued together: a login that accepts the
/// password hands out an access token and a refresh token issued at one
/// time for the account, both accepted throughout the access token's window.
pub proof fn lemma_login_tokens_together(
    login_user: LoginUser,
    u: User,
    secret: Seq<u8>,
    r: Result<(User, UserToken), OurError>,
)
    requires
        login_answer(login_user, Ok(u), secret, r),
        login_accepted(login_user.password@, u),
    ensures
        r is Ok,
        issued_together(secret, u.username@, u.uuid, r->Ok_0.1.token@, r->Ok_0.1.refresh_token@),
{
}

/// Signing up and then logging in with the same password works: the hash
/// stored by a sign-up verifies the password it was made from.
pub proof fn lemma_sign_up_then_log_in(new_user: NewUser, secret: Seq<u8>, user: User)
    requires
        created_from(new_user, secret, user),
    ensures
        login_accepted(new_user.password@, user),
{
}

} // verus!
