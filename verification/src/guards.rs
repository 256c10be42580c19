//! The user that a request's token names.
use vstd::prelude::*;
use crate::ids::{uuid_hyphenated, uuid_parsed, uuid_to_string};
use crate::token::{verified_claims, Token, MAX_CHECK_TICKS};
use crate::user::User;

verus! {

/// The account behind a request that carried a valid token.
#[derive(Debug)]
pub struct ApiUser {
    pub user: User,
}

impl ApiUser {
    /// Decides whom a request's `token` header names, given the signing key
    /// (when the server has one): without a token or a key, or with a token
    /// that does not pass the check now, nobody; else the hyphenated UUID of
    /// the token's user, which is what the account is then looked up by.
    pub fn token_subject(token: Option<String>, jwt_secret: Option<&[u8]>) -> (r: Option<String>)
        ensures
            (token is None || jwt_secret is None) ==> r is None,
            (token is Some && jwt_secret is Some) ==> exists|now: u64|
                #![trigger verified_claims(jwt_secret->Some_0@, token->Some_0@, now)]
                {
                    let found = verified_claims(jwt_secret->Some_0@, token->Some_0@, now);
                    &&& now <= MAX_CHECK_TICKS ==> (r is Some <==> found is Some)
                    &&& now > MAX_CHECK_TICKS ==> r is None
                    &&& r is Some ==> r->Some_0@ == uuid_hyphenated(found->Some_0.4) && uuid_parsed(
                        r->Some_0@,
                    ) == Some(found->Some_0.4)
                },
    {
        let token = match token {
            Some(t) => t,
            None => {
                return None;
            },
        };
        let secret = match jwt_secret {
            Some(s) => s,
            None => {
                return None;
            },
        };
        match User::verify_jwt_token(token, secret) {
            Ok(claims) => Some(uuid_to_string(claims.custom.uuid)),
            Err(_) => None,
        }
    }
}

} // verus!
