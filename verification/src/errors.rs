//! The error taxonomy of the record store. Every failure is local and
//! non-fatal: a failed operation leaves the store exactly as it was.

use vstd::prelude::*;

verus! {

/// Why an operation on a [`crate::store::RecordAccount`] was refused.
#[derive(Clone, Copy, Debug, PartialEq, Eq, Structural)]
pub enum CustomError {
    /// `update_record` was given an index at or beyond the current count.
    InvalidRecordIndex,
    /// The caller identity does not match the record's stored author.
    UnauthorizedAccess,
    /// The store already holds its configured maximum number of records.
    CapacityExceeded,
    /// The payload exceeds the configured maximum length in bytes.
    PayloadTooLarge,
}

impl CustomError {
    /// A human-readable description of the error.
    pub fn message(&self) -> (m: &'static str)
        ensures
            m@ == self.message_spec(),
    {
        match self {
            CustomError::InvalidRecordIndex => "Invalid record index",
            CustomError::UnauthorizedAccess => "Unauthorized access",
            CustomError::CapacityExceeded => "Capacity exceeded",
            CustomError::PayloadTooLarge => "Payload too large",
        }
    }

    /// The description that [`CustomError::message`] returns.
    pub open spec fn message_spec(self) -> Seq<char> {
        match self {
            CustomError::InvalidRecordIndex => "Invalid record index"@,
            CustomError::UnauthorizedAccess => "Unauthorized access"@,
            CustomError::CapacityExceeded => "Capacity exceeded"@,
            CustomError::PayloadTooLarge => "Payload too large"@,
        }
    }
}

} // verus!
