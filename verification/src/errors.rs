//! The closed error taxonomy of the library, with the central mapping to
//! transport-level status codes.

use vstd::prelude::*;

verus! {

#[derive(Clone, Copy, PartialEq, Eq, Structural, Debug)]
pub enum StoreError {
    /// A pair reference inside a strategy payload is not a valid identifier.
    InvalidReference,
    /// A triangular-shaped payload repeats one of its three pair references.
    DuplicatePair,
    /// A single-item lookup found no record under the given identifier.
    NotFound,
    /// The requested strategy kind has no suggestion algorithm.
    NotImplemented,
    /// The store could not persist a new record.
    PersistFailure,
}

impl StoreError {
    /// The text of the human-readable message for each failure.
    pub open spec fn spec_message(self) -> Seq<char> {
        match self {
            StoreError::InvalidReference => "Invalid pair reference"@,
            StoreError::DuplicatePair => "All pairs must be different"@,
            StoreError::NotFound => "Record not found"@,
            StoreError::NotImplemented => "Strategy type not implemented"@,
            StoreError::PersistFailure => "Failed to persist record"@,
        }
    }

    /// A human-readable message for the failure.
    pub fn message(&self) -> (r: String)
        ensures
            r@ == self.spec_message(),
    {
        match self {
            StoreError::InvalidReference => "Invalid pair reference".to_owned(),
            StoreError::DuplicatePair => "All pairs must be different".to_owned(),
            StoreError::NotFound => "Record not found".to_owned(),
            StoreError::NotImplemented => "Strategy type not implemented".to_owned(),
            StoreError::PersistFailure => "Failed to persist record".to_owned(),
        }
    }

    /// The transport status for each failure: missing records map to 404,
    /// every other failure to 400.
    pub fn status_code(&self) -> (r: u16)
        ensures
            r == if self is NotFound {
                404u16
            } else {
                400u16
            },
    {
        match self {
            StoreError::NotFound => 404,
            _ => 400,
        }
    }
}

} // verus!
