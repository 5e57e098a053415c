//! What a repository operation can fail with.

use vstd::prelude::*;

use crate::text::text_eq;

verus! {

/// The ways in which a repository operation fails.
#[derive(Clone, Copy, Debug, PartialEq, Eq, Structural)]
pub enum DatabaseError {
    /// The connection or a statement failed.
    Sql,
    /// A schema migration failed.
    Migration,
    NotFound,
    Conflict,
    QuotaExceeded,
    StorageUnavailable,
    AdmissionLimited,
    SecurityAdmissionBlocked,
    StaleGeneration,
    InvalidPersistedValue,
}

/// Why an operation stops early.
#[derive(Clone, Copy, Debug, PartialEq, Eq, Structural)]
pub enum Fault {
    /// With an error for the caller.
    Error(DatabaseError),
    /// Because a reply lacks the shape that its statement gives it.
    Malformed,
}

/// The state code that the tenant guard of descendant shares raises.
pub const SECURITY_ADMISSION_CODE: &'static str = "FB001";

impl DatabaseError {
    /// The error's text for operators.
    pub open spec fn message_spec(self) -> &'static str {
        match self {
            DatabaseError::Sql => "database operation failed",
            DatabaseError::Migration => "database migration failed",
            DatabaseError::NotFound => "requested object was not found",
            DatabaseError::Conflict => "request conflicts with current state",
            DatabaseError::QuotaExceeded => "drive quota is exhausted",
            DatabaseError::StorageUnavailable =>
                "storage backend is unavailable or below its write threshold",
            DatabaseError::AdmissionLimited => "request admission limit is exhausted",
            DatabaseError::SecurityAdmissionBlocked =>
                "descendant-share admission is temporarily blocked",
            DatabaseError::StaleGeneration => "a stale generation or fencing token was supplied",
            DatabaseError::InvalidPersistedValue =>
                "persisted value is outside the supported domain",
        }
    }

    /// The error's text for operators.
    pub fn message(self) -> (text: &'static str)
        ensures
            text == self.message_spec(),
    {
        match self {
            DatabaseError::Sql => "database operation failed",
            DatabaseError::Migration => "database migration failed",
            DatabaseError::NotFound => "requested object was not found",
            DatabaseError::Conflict => "request conflicts with current state",
            DatabaseError::QuotaExceeded => "drive quota is exhausted",
            DatabaseError::StorageUnavailable =>
                "storage backend is unavailable or below its write threshold",
            DatabaseError::AdmissionLimited => "request admission limit is exhausted",
            DatabaseError::SecurityAdmissionBlocked =>
                "descendant-share admission is temporarily blocked",
            DatabaseError::StaleGeneration => "a stale generation or fencing token was supplied",
            DatabaseError::InvalidPersistedValue =>
                "persisted value is outside the supported domain",
        }
    }
}

/// The error for a failed write in which a broken uniqueness rule is a conflict.
pub open spec fn conflict_error(unique_violation: bool) -> DatabaseError {
    if unique_violation {
        DatabaseError::Conflict
    } else {
        DatabaseError::Sql
    }
}

/// Maps a failed write: a broken uniqueness rule is a conflict, all else a database failure.
pub fn map_conflict(unique_violation: bool) -> (error: DatabaseError)
    ensures
        error == conflict_error(unique_violation),
{
    if unique_violation {
        DatabaseError::Conflict
    } else {
        DatabaseError::Sql
    }
}

/// The error for a failed write that the descendant-share guard can refuse.
pub open spec fn security_admission_error(
    code: Option<&str>,
    unique_violation: bool,
) -> DatabaseError {
    if code is Some && code->0@ == SECURITY_ADMISSION_CODE@ {
        DatabaseError::SecurityAdmissionBlocked
    } else {
        conflict_error(unique_violation)
    }
}

/// Maps a failed write that the descendant-share guard can refuse: the guard's own state code
/// means that admission is blocked, anything else goes by [`map_conflict`].
pub fn map_security_admission(code: Option<&str>, unique_violation: bool) -> (error: DatabaseError)
    ensures
        error == security_admission_error(code, unique_violation),
{
    match code {
        Some(code) => if text_eq(code, SECURITY_ADMISSION_CODE) {
            DatabaseError::SecurityAdmissionBlocked
        } else {
            map_conflict(unique_violation)
        },
        None => map_conflict(unique_violation),
    }
}

} // verus!
