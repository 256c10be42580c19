use master_server::errors::{OurError, Status};
use master_server::token::{verify_token_at, Token};
use master_server::user::{
    password_verdict, some_simple, validate_email, validate_password, LoginUser, NewUser, User,
};
use master_server::user_status::UserStatus;

const SECRET: &str = "a-secret-of-enough-length";
const STRONG: &str = "correct horse battery staple 9!";

fn form(password: &str, confirmation: &str, email: &str) -> NewUser {
    NewUser {
        username: "alice".to_string(),
        email: email.to_string(),
        password: password.to_string(),
        password_confirmation: confirmation.to_string(),
    }
}

#[test]
fn password_strength() {
    assert_eq!(validate_password(STRONG), Ok(()));
    assert_eq!(validate_password("password"), Err("weak password"));
    assert_eq!(validate_password(""), Err("weak password"));
    assert_eq!(password_verdict(Some(3)), Ok(()));
    assert_eq!(password_verdict(Some(4)), Ok(()));
    assert_eq!(password_verdict(Some(2)), Err("weak password"));
    assert_eq!(password_verdict(None), Err("weak password"));
}

#[test]
fn email_pattern() {
    assert_eq!(validate_email("alice@example.com"), Ok(()));
    assert_eq!(validate_email("first.last+tag@mail.example.org"), Ok(()));
    assert_eq!(validate_email("not an address"), Err("email is not valid"));
    assert_eq!(validate_email("alice@"), Err("email is not valid"));
}

#[test]
fn check_new_user_in_order() {
    let e = User::check_new_user(&form("x", "y", "bad"), Some(1)).unwrap_err();
    assert_eq!(e.status, Status::BadRequest);
    assert_eq!(e.message, "weak password");
    let e = User::check_new_user(&form(STRONG, "other", "bad"), Some(4)).unwrap_err();
    assert_eq!(e.message, "password did not matched");
    let e = User::check_new_user(&form(STRONG, STRONG, "bad"), Some(4)).unwrap_err();
    assert_eq!(e.message, "email is not valid");
    assert!(e.debug.is_none());
    assert!(User::check_new_user(&form(STRONG, STRONG, "a@b.co"), Some(4)).is_ok());
}

#[test]
fn create_refuses_weak_password() {
    let e = User::create(&form("abc", "abc", "a@b.co"), &SECRET.to_string()).unwrap().unwrap_err();
    assert_eq!(e.status, Status::BadRequest);
    assert_eq!(e.message, "weak password");
}

#[test]
fn create_refuses_mismatch_and_bad_email() {
    let e = User::create(&form(STRONG, "different", "a@b.co"), &SECRET.to_string()).unwrap().unwrap_err();
    assert_eq!(e.message, "password did not matched");
    let e = User::create(&form(STRONG, STRONG, "nope"), &SECRET.to_string()).unwrap().unwrap_err();
    assert_eq!(e.message, "email is not valid");
}

#[test]
fn sign_up_then_log_in() {
    let user = User::create(&form(STRONG, STRONG, "alice@example.com"), &SECRET.to_string()).unwrap().unwrap();
    assert_eq!(user.username, "alice");
    assert_eq!(user.email, "alice@example.com");
    assert_eq!(user.status, UserStatus::Active);
    assert!(user.description.is_none());
    assert!(user.password_hash.starts_with("$argon2id$"));
    assert_eq!((user.uuid >> 76) & 0xf, 4);
    let claims = User::verify_jwt_token(user.token.clone(), SECRET.as_bytes()).unwrap();
    assert_eq!(claims.custom.uuid, user.uuid);
    assert_eq!(claims.custom.username, "alice");

    assert!(User::verify_password_hash(&STRONG.to_string(), &user.password_hash).is_ok());
    let login = LoginUser { username: "alice".to_string(), password: STRONG.to_string() };
    let (same, tokens) = User::auth(&login, Ok(user.clone()), SECRET.as_bytes()).unwrap();
    assert_eq!(same.uuid, user.uuid);
    let claims = User::verify_jwt_token(tokens.token, SECRET.as_bytes()).unwrap();
    assert_eq!(claims.custom.uuid, user.uuid);

    let wrong = LoginUser { username: "alice".to_string(), password: "wrong".to_string() };
    let e = User::auth(&wrong, Ok(user), SECRET.as_bytes()).unwrap_err();
    assert_eq!(e.status, Status::InternalServerError);
    assert_eq!(e.debug.as_deref(), Some(e.message.as_str()));
}

#[test]
fn auth_passes_lookup_error_through() {
    let login = LoginUser { username: "x".to_string(), password: "y".to_string() };
    let e = User::auth(&login, Err(OurError::string_error("no rows".to_string())), SECRET.as_bytes())
        .unwrap_err();
    assert_eq!(e.status, Status::BadRequest);
    assert_eq!(e.message, "no rows");
}

#[test]
fn bad_stored_hash_is_internal_error() {
    let e = User::verify_password_hash(&"pw".to_string(), &"not a phc string".to_string()).unwrap_err();
    assert_eq!(e.status, Status::InternalServerError);
}

#[test]
fn uuid_of_path() {
    let v = User::uuid_of("00112233-4455-6677-8899-aabbccddeeff").unwrap();
    assert_eq!(v, 0x0011_2233_4455_6677_8899_aabb_ccdd_eeffu128);
    let e = User::uuid_of("xyz").unwrap_err();
    assert_eq!(e.status, Status::BadRequest);
    assert_eq!(e.message, "something went wrong");
}

#[test]
fn demo_user() {
    let u = User::demo();
    assert_eq!(u.username, "username");
    assert_eq!(u.email, "email");
    assert_eq!(u.password_hash, "");
    assert_eq!(u.status, UserStatus::Active);
    assert_eq!((u.uuid >> 76) & 0xf, 4);
    assert_eq!((u.uuid >> 62) & 0x3, 2);
    assert_eq!(some_simple(), 8);
}

#[test]
fn login_token_accepted_by_check_at_issue_time() {
    let name = "zoe".to_string();
    let secret = SECRET.as_bytes();
    let token = User::get_jwt_token(&name, 5, secret);
    let now = jwt_simple::prelude::Clock::now_since_epoch().as_ticks();
    let claims = verify_token_at(&token, secret, now).unwrap();
    assert_eq!(claims.custom.uuid, 5);
}

#[test]
fn short_key_answers_refusals_but_issues_nothing() {
    let short = "short";
    let e = User::create(&form("abc", "abc", "a@b.co"), &short.to_string()).unwrap().unwrap_err();
    assert_eq!(e.message, "weak password");
    assert!(User::create(&form(STRONG, STRONG, "a@b.co"), &short.to_string()).is_none());
    let scored = User::create_with_score(&form(STRONG, STRONG, "a@b.co"), &SECRET.to_string(), Some(4));
    assert!(scored.is_ok());
    let e = User::create_with_score(&form(STRONG, STRONG, "a@b.co"), &SECRET.to_string(), Some(2))
        .unwrap_err();
    assert_eq!(e.message, "weak password");

    let user = User::create(&form(STRONG, STRONG, "a@b.co"), &SECRET.to_string()).unwrap().unwrap();
    let wrong = LoginUser { username: "alice".to_string(), password: "wrong".to_string() };
    let e = User::try_auth(&wrong, Ok(user.clone()), b"short").unwrap().unwrap_err();
    assert_eq!(e.status, Status::InternalServerError);
    let missing = User::try_auth(&wrong, Err(OurError::string_error("none".to_string())), b"short");
    assert_eq!(missing.unwrap().unwrap_err().message, "none");
    let right = LoginUser { username: "alice".to_string(), password: STRONG.to_string() };
    assert!(User::try_auth(&right, Ok(user.clone()), b"short").is_none());
    assert!(User::try_auth(&right, Ok(user), SECRET.as_bytes()).unwrap().is_ok());
}
