//! Whether an account is in use.
use vstd::prelude::*;
use vstd::string::*;

verus! {

/// The state of an account; stored as the integer `code`.
#[derive(Clone, Copy, Debug, PartialEq, Eq, Structural)]
pub enum UserStatus {
    Inactive,
    Active,
}

/// The integer that stands for a status in the database.
pub open spec fn status_number(s: UserStatus) -> i32 {
    match s {
        UserStatus::Inactive => 0,
        UserStatus::Active => 1,
    }
}

/// The status that a stored integer stands for, if any.
pub open spec fn status_of_number(code: i32) -> Option<UserStatus> {
    if code == 0 {
        Some(UserStatus::Inactive)
    } else if code == 1 {
        Some(UserStatus::Active)
    } else {
        None
    }
}

/// Storing a status and reading it back gives the same status.
pub proof fn lemma_status_code_round_trip(s: UserStatus)
    ensures
        status_of_number(status_number(s)) == Some(s),
{
}

impl UserStatus {
    /// The stored integer: 0 for inactive, 1 for active.
    pub fn code(&self) -> (r: i32)
        ensures
            r == status_number(*self),
    {
        match self {
            UserStatus::Inactive => 0,
            UserStatus::Active => 1,
        }
    }

    /// The status that a stored integer stands for, if any.
    pub fn from_code(code: i32) -> (r: Option<UserStatus>)
        ensures
            r == status_of_number(code),
    {
        if code == 0 {
            Some(UserStatus::Inactive)
        } else if code == 1 {
            Some(UserStatus::Active)
        } else {
            None
        }
    }

    /// The name that the status displays as.
    pub fn to_string(&self) -> (r: String)
        ensures
            *self == UserStatus::Inactive ==> r@ == "Inactive"@,
            *self == UserStatus::Active ==> r@ == "Active"@,
    {
        match self {
            UserStatus::Inactive => String::from_str("Inactive"),
            UserStatus::Active => String::from_str("Active"),
        }
    }
}

} // verus!
