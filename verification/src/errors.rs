//! The error that handlers answer with, and how database and identifier
//! failures become one.
use vstd::prelude::*;
use vstd::string::*;
use crate::ids::uuid_error_text;

verus! {

/// The HTTP statuses that the handlers answer with.
#[derive(Clone, Copy, Debug, PartialEq, Eq, Structural)]
pub enum Status {
    BadRequest,
    Unauthorized,
    NotFound,
    InternalServerError,
}

/// The numeric code of a status.
pub open spec fn status_code(s: Status) -> u16 {
    match s {
        Status::BadRequest => 400,
        Status::Unauthorized => 401,
        Status::NotFound => 404,
        Status::InternalServerError => 500,
    }
}

/// The status with a numeric HTTP code, if it is one of the four.
pub open spec fn status_of_code(code: u16) -> Option<Status> {
    if code == 400 {
        Some(Status::BadRequest)
    } else if code == 401 {
        Some(Status::Unauthorized)
    } else if code == 404 {
        Some(Status::NotFound)
    } else if code == 500 {
        Some(Status::InternalServerError)
    } else {
        None
    }
}

/// A status survives being sent as its numeric code and read back.
pub proof fn lemma_status_code_round_trip(s: Status)
    ensures
        status_of_code(status_code(s)) == Some(s),
{
}

impl Status {
    /// The numeric HTTP code.
    pub fn code(&self) -> (r: u16)
        ensures
            r == status_code(*self),
    {
        match self {
            Status::BadRequest => 400,
            Status::Unauthorized => 401,
            Status::NotFound => 404,
            Status::InternalServerError => 500,
        }
    }

    /// The status with a numeric HTTP code, if it is one of the four.
    pub fn from_code(code: u16) -> (r: Option<Status>)
        ensures
            r == status_of_code(code),
    {
        if code == 400 {
            Some(Status::BadRequest)
        } else if code == 401 {
            Some(Status::Unauthorized)
        } else if code == 404 {
            Some(Status::NotFound)
        } else if code == 500 {
            Some(Status::InternalServerError)
        } else {
            None
        }
    }
}

/// An error answered to a client: a status, a message for the client, and a
/// description of the cause that is only written to the log.
#[derive(Debug)]
pub struct OurError {
    pub status: Status,
    pub message: String,
    pub debug: Option<String>,
}

/// What a database driver reported, as the handlers tell it apart.
#[derive(Clone, Debug)]
pub enum DbErrorKind {
    /// A query that expects a row found none.
    RowNotFound,
    /// The database refused the statement, with its SQLSTATE code if it gave one.
    Database { code: Option<String> },
    /// Anything else: the connection, the protocol, decoding a row.
    Other,
}

/// A database failure: its kind and the driver's description of it.
#[derive(Clone, Debug)]
pub struct DbError {
    pub kind: DbErrorKind,
    pub message: String,
}

/// An SQLSTATE code of class 23 (integrity constraint violation). A database
/// error without a code counts as one, read as code "2300".
pub open spec fn integrity_violation(code: Option<String>) -> bool {
    match code {
        None => true,
        Some(c) => c@.len() >= 2 && c@[0] == '2' && c@[1] == '3',
    }
}

/// The error that a database failure is answered with.
pub open spec fn db_error_answer(e: DbError, r: OurError) -> bool {
    &&& r.debug == Some(e.message)
    &&& match e.kind {
        DbErrorKind::RowNotFound => r.status == Status::NotFound && r.message@ == "not found"@,
        DbErrorKind::Database { code } => if integrity_violation(code) {
            r.status == Status::BadRequest && r.message@ == "cannot create or update resourse"@
        } else {
            r.status == Status::InternalServerError && r.message@ == "something went wrong"@
        },
        DbErrorKind::Other => r.status == Status::InternalServerError && r.message@
            == "something went wrong"@,
    }
}

fn starts_with_23(code: &String) -> (r: bool)
    ensures
        r == (code@.len() >= 2 && code@[0] == '2' && code@[1] == '3'),
{
    let s = code.as_str();
    if s.unicode_len() >= 2 {
        s.get_char(0) == '2' && s.get_char(1) == '3'
    } else {
        false
    }
}

impl OurError {
    pub fn new_error_with_status(status: Status, message: String, debug: Option<String>) -> (r:
        Self)
        ensures
            r.status == status,
            r.message == message,
            r.debug == debug,
    {
        OurError { status, message, debug }
    }

    pub fn new_bad_request_error(message: String, debug: Option<String>) -> (r: Self)
        ensures
            r.status == Status::BadRequest,
            r.message == message,
            r.debug == debug,
    {
        Self::new_error_with_status(Status::BadRequest, message, debug)
    }

    pub fn new_not_found_error(message: String, debug: Option<String>) -> (r: Self)
        ensures
            r.status == Status::NotFound,
            r.message == message,
            r.debug == debug,
    {
        Self::new_error_with_status(Status::NotFound, message, debug)
    }

    pub fn new_internal_server_error(message: String, debug: Option<String>) -> (r: Self)
        ensures
            r.status == Status::InternalServerError,
            r.message == message,
            r.debug == debug,
    {
        Self::new_error_with_status(Status::InternalServerError, message, debug)
    }

    pub fn new_unauthorized_error(debug: Option<String>) -> (r: Self)
        ensures
            r.status == Status::Unauthorized,
            r.message@ == "unauthorized"@,
            r.debug == debug,
    {
        Self::new_error_with_status(Status::Unauthorized, String::from_str("unauthorized"), debug)
    }

    /// Answers a database failure: a missing row is "not found", a refused
    /// statement of SQLSTATE class 23 is a bad request, anything else an
    /// internal error.
    pub fn from_sqlx_error(e: DbError) -> (r: Self)
        ensures
            db_error_answer(e, r),
    {
        let debug = Some(e.message.clone());
        match &e.kind {
            DbErrorKind::RowNotFound => {
                OurError::new_not_found_error(String::from_str("not found"), debug)
            },
            DbErrorKind::Database { code } => {
                let integrity = match code {
                    None => true,
                    Some(c) => starts_with_23(c),
                };
                if integrity {
                    return OurError::new_bad_request_error(
                        String::from_str("cannot create or update resourse"),
                        debug,
                    );
                }
                OurError::new_internal_server_error(
                    String::from_str("something went wrong"),
                    debug,
                )
            },
            DbErrorKind::Other => OurError::new_internal_server_error(
                String::from_str("something went wrong"),
                debug,
            ),
        }
    }

    /// Answers a text that is no UUID: a bad request.
    pub fn from_uuid_error(e: uuid::Error) -> (r: Self)
        ensures
            r.status == Status::BadRequest,
            r.message@ == "something went wrong"@,
            r.debug is Some,
    {
        let text = uuid_error_text(&e);
        OurError::new_bad_request_error(String::from_str("something went wrong"), Some(text))
    }

    pub fn sqlx_bad_request_error(message: String, debug: Option<String>) -> (r: Self)
        ensures
            r.status == Status::BadRequest,
            r.message == message,
            r.debug == debug,
    {
        Self::new_error_with_status(Status::BadRequest, message, debug)
    }

    pub fn custom_error(message: String, debug: Option<String>) -> (r: Self)
        ensures
            r.status == Status::BadRequest,
            r.message == message,
            r.debug == debug,
    {
        Self::new_error_with_status(Status::BadRequest, message, debug)
    }

    pub fn string_error(message: String) -> (r: Self)
        ensures
            r.status == Status::BadRequest,
            r.message == message,
            r.debug is None,
    {
        Self::new_error_with_status(Status::BadRequest, message, None)
    }

    /// The text that the error displays: its message.
    pub fn to_string(&self) -> (r: String)
        ensures
            r@ == self.message@,
    {
        self.message.clone()
    }
}

} // verus!
