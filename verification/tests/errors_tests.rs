use master_server::errors::{DbError, DbErrorKind, OurError, Status};
use master_server::user_status::UserStatus;

fn db(kind: DbErrorKind) -> DbError {
    DbError { kind, message: "driver says no".to_string() }
}

#[test]
fn constructors_set_status_and_message() {
    let e = OurError::new_bad_request_error("bad".to_string(), None);
    assert_eq!(e.status, Status::BadRequest);
    assert_eq!(e.status.code(), 400);
    assert_eq!(e.message, "bad");
    assert!(e.debug.is_none());

    let e = OurError::new_not_found_error("gone".to_string(), Some("why".to_string()));
    assert_eq!(e.status.code(), 404);
    assert_eq!(e.debug.as_deref(), Some("why"));

    let e = OurError::new_internal_server_error("boom".to_string(), None);
    assert_eq!(e.status, Status::InternalServerError);
    assert_eq!(e.status.code(), 500);

    let e = OurError::new_unauthorized_error(None);
    assert_eq!(e.status.code(), 401);
    assert_eq!(e.message, "unauthorized");
    assert_eq!(e.to_string(), "unauthorized");
}

#[test]
fn bad_request_shorthands() {
    let e = OurError::sqlx_bad_request_error("m".to_string(), Some("d".to_string()));
    assert_eq!(e.status, Status::BadRequest);
    assert_eq!(e.debug.as_deref(), Some("d"));
    let e = OurError::custom_error("c".to_string(), None);
    assert_eq!(e.status, Status::BadRequest);
    assert_eq!(e.message, "c");
    let e = OurError::string_error("s".to_string());
    assert_eq!(e.status, Status::BadRequest);
    assert_eq!(e.message, "s");
    assert!(e.debug.is_none());
}

#[test]
fn missing_row_is_not_found() {
    let e = OurError::from_sqlx_error(db(DbErrorKind::RowNotFound));
    assert_eq!(e.status, Status::NotFound);
    assert_eq!(e.message, "not found");
    assert_eq!(e.debug.as_deref(), Some("driver says no"));
}

#[test]
fn integrity_violation_is_bad_request() {
    let e = OurError::from_sqlx_error(db(DbErrorKind::Database { code: Some("23505".to_string()) }));
    assert_eq!(e.status, Status::BadRequest);
    assert_eq!(e.message, "cannot create or update resourse");
}

#[test]
fn database_error_without_code_is_bad_request() {
    let e = OurError::from_sqlx_error(db(DbErrorKind::Database { code: None }));
    assert_eq!(e.status, Status::BadRequest);
}

#[test]
fn other_database_error_is_internal() {
    let e = OurError::from_sqlx_error(db(DbErrorKind::Database { code: Some("42P01".to_string()) }));
    assert_eq!(e.status, Status::InternalServerError);
    assert_eq!(e.message, "something went wrong");
    let e = OurError::from_sqlx_error(db(DbErrorKind::Database { code: Some("2".to_string()) }));
    assert_eq!(e.status, Status::InternalServerError);
    let e = OurError::from_sqlx_error(db(DbErrorKind::Other));
    assert_eq!(e.status, Status::InternalServerError);
    assert_eq!(e.debug.as_deref(), Some("driver says no"));
}

#[test]
fn uuid_error_is_bad_request() {
    let err = uuid::Uuid::parse_str("not a uuid").unwrap_err();
    let e = OurError::from_uuid_error(err);
    assert_eq!(e.status, Status::BadRequest);
    assert_eq!(e.message, "something went wrong");
    assert!(e.debug.is_some());
}

#[test]
fn user_status_codes_and_names() {
    assert_eq!(UserStatus::Inactive.code(), 0);
    assert_eq!(UserStatus::Active.code(), 1);
    assert_eq!(UserStatus::from_code(0), Some(UserStatus::Inactive));
    assert_eq!(UserStatus::from_code(1), Some(UserStatus::Active));
    assert_eq!(UserStatus::from_code(2), None);
    assert_eq!(UserStatus::Active.to_string(), "Active");
    assert_eq!(UserStatus::Inactive.to_string(), "Inactive");
}

#[test]
fn status_codes_round_trip() {
    for s in [Status::BadRequest, Status::Unauthorized, Status::NotFound, Status::InternalServerError] {
        assert_eq!(Status::from_code(s.code()), Some(s));
    }
    assert_eq!(Status::from_code(418), None);
}
