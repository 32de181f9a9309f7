use vstd::prelude::*;
use vstd::string::*;

verus! {

/// Which part of a request was malformed.
#[derive(Clone, Copy, Debug, PartialEq, Eq, Structural)]
pub enum InputFault {
    /// The user id is empty once surrounding whitespace is removed.
    UserId,
    /// `start_date` is not a `YYYY-MM-DD HH:MM:SS` timestamp.
    StartDate,
    /// `end_date` is not a `YYYY-MM-DD HH:MM:SS` timestamp.
    EndDate,
    /// `start_date` does not lie strictly before `end_date`.
    DateOrder,
}

/// Every way a request can fail.
#[derive(Clone, Copy, Debug, PartialEq, Eq, Structural)]
pub enum ServiceError {
    InvalidInput(InputFault),
    /// The user already has an open session.
    Conflict,
    /// No record answers the request.
    NotFound,
    /// The storage layer failed.
    StorageError,
}

/// The HTTP status that reports an error.
pub open spec fn status_of(e: ServiceError) -> u16 {
    match e {
        ServiceError::InvalidInput(_) => 400,
        ServiceError::Conflict => 409,
        ServiceError::NotFound => 404,
        ServiceError::StorageError => 500,
    }
}

/// The human-readable text that reports an error.
pub open spec fn message_of(e: ServiceError) -> Seq<char> {
    match e {
        ServiceError::InvalidInput(InputFault::UserId) => "Invalid user_id"@,
        ServiceError::InvalidInput(InputFault::StartDate) => "Invalid start_date format. Use: YYYY-MM-DD HH:MM:SS"@,
        ServiceError::InvalidInput(InputFault::EndDate) => "Invalid end_date format. Use: YYYY-MM-DD HH:MM:SS"@,
        ServiceError::InvalidInput(InputFault::DateOrder) => "start_date must be before end_date"@,
        ServiceError::Conflict => "User already clocked in and has not clocked out yet"@,
        ServiceError::NotFound => "Record not found"@,
        ServiceError::StorageError => "Storage error"@,
    }
}

impl ServiceError {
    pub fn status_code(&self) -> (r: u16)
        ensures
            r == status_of(*self),
    {
        match self {
            ServiceError::InvalidInput(_) => 400,
            ServiceError::Conflict => 409,
            ServiceError::NotFound => 404,
            ServiceError::StorageError => 500,
        }
    }

    pub fn message(&self) -> (r: String)
        ensures
            r@ == message_of(*self),
    {
        match self {
            ServiceError::InvalidInput(InputFault::UserId) => String::from_str("Invalid user_id"),
            ServiceError::InvalidInput(InputFault::StartDate) => String::from_str(
                "Invalid start_date format. Use: YYYY-MM-DD HH:MM:SS",
            ),
            ServiceError::InvalidInput(InputFault::EndDate) => String::from_str(
                "Invalid end_date format. Use: YYYY-MM-DD HH:MM:SS",
            ),
            ServiceError::InvalidInput(InputFault::DateOrder) => String::from_str(
                "start_date must be before end_date",
            ),
            ServiceError::Conflict => String::from_str(
                "User already clocked in and has not clocked out yet",
            ),
            ServiceError::NotFound => String::from_str("Record not found"),
            ServiceError::StorageError => String::from_str("Storage error"),
        }
    }
}

} // verus!
