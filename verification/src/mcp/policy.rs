//! The policy state of a registration.

use vstd::prelude::*;

use crate::error::DatabaseError;
use crate::error::Fault;
use crate::row::FromRow;
use crate::row::Row;
use crate::text::text_eq;

verus! {

/// Whether a registration's endpoint has been tried.
#[derive(Clone, Copy, Debug, PartialEq, Eq, Structural)]
pub enum ValidationState {
    NeverTested,
    Valid,
    Invalid,
}

/// The stored name of a state.
pub open spec fn validation_name(state: ValidationState) -> &'static str {
    match state {
        ValidationState::NeverTested => "never_tested",
        ValidationState::Valid => "valid",
        ValidationState::Invalid => "invalid",
    }
}

/// The stored name of a state.
pub fn validation_text(state: ValidationState) -> (name: &'static str)
    ensures
        name == validation_name(state),
{
    match state {
        ValidationState::NeverTested => "never_tested",
        ValidationState::Valid => "valid",
        ValidationState::Invalid => "invalid",
    }
}

/// The state with a stored name.
pub open spec fn validation_state_spec(name: Seq<char>) -> Result<ValidationState, DatabaseError> {
    if name == "never_tested"@ {
        Ok(ValidationState::NeverTested)
    } else if name == "valid"@ {
        Ok(ValidationState::Valid)
    } else if name == "invalid"@ {
        Ok(ValidationState::Invalid)
    } else {
        Err(DatabaseError::InvalidPersistedValue)
    }
}

/// Reads a stored name; any other is refused.
pub fn validation_state(value: &str) -> (r: Result<ValidationState, DatabaseError>)
    ensures
        r == validation_state_spec(value@),
{
    if text_eq(value, "never_tested") {
        Ok(ValidationState::NeverTested)
    } else if text_eq(value, "valid") {
        Ok(ValidationState::Valid)
    } else if text_eq(value, "invalid") {
        Ok(ValidationState::Invalid)
    } else {
        Err(DatabaseError::InvalidPersistedValue)
    }
}

/// Every state is read back from its name, and nothing else is read at all.
pub proof fn validation_names_round_trip(state: ValidationState, name: Seq<char>)
    ensures
        validation_state_spec(
            validation_name(state)@,
        ) == Ok::<ValidationState, DatabaseError>(state),
        validation_state_spec(name) is Ok
            ==> name == validation_name(validation_state_spec(name)->Ok_0)@,
        validation_state_spec(name) is Err ==> validation_state_spec(name)->Err_0
            == DatabaseError::InvalidPersistedValue,
{
    reveal_strlit("never_tested");
    reveal_strlit("valid");
    reveal_strlit("invalid");
    assert("valid"@.len() != "never_tested"@.len());
    assert("invalid"@.len() != "never_tested"@.len());
    assert("invalid"@.len() != "valid"@.len());
}

/// Whether a registration has the credentials that it needs.
#[derive(Clone, Copy, Debug, PartialEq, Eq, Structural)]
pub enum AuthenticationState {
    NoneRequired,
    Required,
    Authorized,
    Failed,
}

/// The stored name of a state.
pub open spec fn authentication_name(state: AuthenticationState) -> &'static str {
    match state {
        AuthenticationState::NoneRequired => "none_required",
        AuthenticationState::Required => "required",
        AuthenticationState::Authorized => "authorized",
        AuthenticationState::Failed => "failed",
    }
}

/// The stored name of a state.
pub fn authentication_text(state: AuthenticationState) -> (name: &'static str)
    ensures
        name == authentication_name(state),
{
    match state {
        AuthenticationState::NoneRequired => "none_required",
        AuthenticationState::Required => "required",
        AuthenticationState::Authorized => "authorized",
        AuthenticationState::Failed => "failed",
    }
}

/// The state with a stored name.
pub open spec fn authentication_state_spec(
    name: Seq<char>,
) -> Result<AuthenticationState, DatabaseError> {
    if name == "none_required"@ {
        Ok(AuthenticationState::NoneRequired)
    } else if name == "required"@ {
        Ok(AuthenticationState::Required)
    } else if name == "authorized"@ {
        Ok(AuthenticationState::Authorized)
    } else if name == "failed"@ {
        Ok(AuthenticationState::Failed)
    } else {
        Err(DatabaseError::InvalidPersistedValue)
    }
}

/// Reads a stored name; any other is refused.
pub fn authentication_state(value: &str) -> (r: Result<AuthenticationState, DatabaseError>)
    ensures
        r == authentication_state_spec(value@),
{
    if text_eq(value, "none_required") {
        Ok(AuthenticationState::NoneRequired)
    } else if text_eq(value, "required") {
        Ok(AuthenticationState::Required)
    } else if text_eq(value, "authorized") {
        Ok(AuthenticationState::Authorized)
    } else if text_eq(value, "failed") {
        Ok(AuthenticationState::Failed)
    } else {
        Err(DatabaseError::InvalidPersistedValue)
    }
}

/// Every state is read back from its name, and nothing else is read at all.
pub proof fn authentication_names_round_trip(state: AuthenticationState, name: Seq<char>)
    ensures
        authentication_state_spec(
            authentication_name(state)@,
        ) == Ok::<AuthenticationState, DatabaseError>(state),
        authentication_state_spec(name) is Ok
            ==> name == authentication_name(authentication_state_spec(name)->Ok_0)@,
        authentication_state_spec(name) is Err ==> authentication_state_spec(name)->Err_0
            == DatabaseError::InvalidPersistedValue,
{
    reveal_strlit("none_required");
    reveal_strlit("required");
    reveal_strlit("authorized");
    reveal_strlit("failed");
    assert("required"@.len() != "none_required"@.len());
    assert("authorized"@.len() != "none_required"@.len());
    assert("authorized"@.len() != "required"@.len());
    assert("failed"@.len() != "none_required"@.len());
    assert("failed"@.len() != "required"@.len());
    assert("failed"@.len() != "authorized"@.len());
}

/// Whether a registration's capabilities are known and have been looked at.
#[derive(Clone, Copy, Debug, PartialEq, Eq, Structural)]
pub enum CapabilityState {
    Undiscovered,
    PendingReview,
    Approved,
    Drifted,
}

/// The stored name of a state.
pub open spec fn capability_name(state: CapabilityState) -> &'static str {
    match state {
        CapabilityState::Undiscovered => "undiscovered",
        CapabilityState::PendingReview => "pending_review",
        CapabilityState::Approved => "approved",
        CapabilityState::Drifted => "drifted",
    }
}

/// The stored name of a state.
pub fn capability_text(state: CapabilityState) -> (name: &'static str)
    ensures
        name == capability_name(state),
{
    match state {
        CapabilityState::Undiscovered => "undiscovered",
        CapabilityState::PendingReview => "pending_review",
        CapabilityState::Approved => "approved",
        CapabilityState::Drifted => "drifted",
    }
}

/// The state with a stored name.
pub open spec fn capability_state_spec(name: Seq<char>) -> Result<CapabilityState, DatabaseError> {
    if name == "undiscovered"@ {
        Ok(CapabilityState::Undiscovered)
    } else if name == "pending_review"@ {
        Ok(CapabilityState::PendingReview)
    } else if name == "approved"@ {
        Ok(CapabilityState::Approved)
    } else if name == "drifted"@ {
        Ok(CapabilityState::Drifted)
    } else {
        Err(DatabaseError::InvalidPersistedValue)
    }
}

/// Reads a stored name; any other is refused.
pub fn capability_state(value: &str) -> (r: Result<CapabilityState, DatabaseError>)
    ensures
        r == capability_state_spec(value@),
{
    if text_eq(value, "undiscovered") {
        Ok(CapabilityState::Undiscovered)
    } else if text_eq(value, "pending_review") {
        Ok(CapabilityState::PendingReview)
    } else if text_eq(value, "approved") {
        Ok(CapabilityState::Approved)
    } else if text_eq(value, "drifted") {
        Ok(CapabilityState::Drifted)
    } else {
        Err(DatabaseError::InvalidPersistedValue)
    }
}

/// Every state is read back from its name, and nothing else is read at all.
pub proof fn capability_names_round_trip(state: CapabilityState, name: Seq<char>)
    ensures
        capability_state_spec(
            capability_name(state)@,
        ) == Ok::<CapabilityState, DatabaseError>(state),
        capability_state_spec(name) is Ok
            ==> name == capability_name(capability_state_spec(name)->Ok_0)@,
        capability_state_spec(name) is Err ==> capability_state_spec(name)->Err_0
            == DatabaseError::InvalidPersistedValue,
{
    reveal_strlit("undiscovered");
    reveal_strlit("pending_review");
    reveal_strlit("approved");
    reveal_strlit("drifted");
    assert("pending_review"@.len() != "undiscovered"@.len());
    assert("approved"@.len() != "undiscovered"@.len());
    assert("approved"@.len() != "pending_review"@.len());
    assert("drifted"@.len() != "undiscovered"@.len());
    assert("drifted"@.len() != "pending_review"@.len());
    assert("drifted"@.len() != "approved"@.len());
}

/// Whether a registration has been set aside.
#[derive(Clone, Copy, Debug, PartialEq, Eq, Structural)]
pub enum QuarantineState {
    Clear,
    Quarantined,
}

/// The stored name of a state.
pub open spec fn quarantine_name(state: QuarantineState) -> &'static str {
    match state {
        QuarantineState::Clear => "clear",
        QuarantineState::Quarantined => "quarantined",
    }
}

/// The stored name of a state.
pub fn quarantine_text(state: QuarantineState) -> (name: &'static str)
    ensures
        name == quarantine_name(state),
{
    match state {
        QuarantineState::Clear => "clear",
        QuarantineState::Quarantined => "quarantined",
    }
}

/// The state with a stored name.
pub open spec fn quarantine_state_spec(name: Seq<char>) -> Result<QuarantineState, DatabaseError> {
    if name == "clear"@ {
        Ok(QuarantineState::Clear)
    } else if name == "quarantined"@ {
        Ok(QuarantineState::Quarantined)
    } else {
        Err(DatabaseError::InvalidPersistedValue)
    }
}

/// Reads a stored name; any other is refused.
pub fn quarantine_state(value: &str) -> (r: Result<QuarantineState, DatabaseError>)
    ensures
        r == quarantine_state_spec(value@),
{
    if text_eq(value, "clear") {
        Ok(QuarantineState::Clear)
    } else if text_eq(value, "quarantined") {
        Ok(QuarantineState::Quarantined)
    } else {
        Err(DatabaseError::InvalidPersistedValue)
    }
}

/// Every state is read back from its name, and nothing else is read at all.
pub proof fn quarantine_names_round_trip(state: QuarantineState, name: Seq<char>)
    ensures
        quarantine_state_spec(
            quarantine_name(state)@,
        ) == Ok::<QuarantineState, DatabaseError>(state),
        quarantine_state_spec(name) is Ok
            ==> name == quarantine_name(quarantine_state_spec(name)->Ok_0)@,
        quarantine_state_spec(name) is Err ==> quarantine_state_spec(name)->Err_0
            == DatabaseError::InvalidPersistedValue,
{
    reveal_strlit("clear");
    reveal_strlit("quarantined");
    assert("quarantined"@.len() != "clear"@.len());
}

/// What decides whether a registration may be used.
#[derive(Clone, Copy, Debug, PartialEq, Eq, Structural)]
pub struct RegistrationPolicyState {
    pub validation: ValidationState,
    pub authentication: AuthenticationState,
    pub capabilities: CapabilityState,
    pub quarantine: QuarantineState,
    pub enabled: bool,
    pub revoked: bool,
}

impl RegistrationPolicyState {
    /// What a row holds, read by its column names.
    #[verifier::opaque]
    pub open spec fn of_row(row: Row) -> Result<RegistrationPolicyState, Fault> {
        if row.column::<String>("validation_state"@) is Some
            && row.column::<String>("authentication_state"@) is Some
            && row.column::<String>("capability_state"@) is Some
            && row.column::<String>("quarantine_state"@) is Some
            && row.column::<bool>("enabled"@) is Some
            && row.column::<bool>("is_revoked"@) is Some {
            if validation_state_spec(row.column::<String>("validation_state"@)->0@) is Err {
                Err(
                    Fault::Error(
                        validation_state_spec(row.column::<String>("validation_state"@)->0@)->Err_0,
                    ),
                )
            } else {
                if authentication_state_spec(
                    row.column::<String>("authentication_state"@)->0@,
                ) is Err {
                    Err(
                        Fault::Error(
                            authentication_state_spec(
                                row.column::<String>("authentication_state"@)->0@,
                            )->Err_0,
                        ),
                    )
                } else {
                    if capability_state_spec(row.column::<String>("capability_state"@)->0@) is Err {
                        Err(
                            Fault::Error(
                                capability_state_spec(
                                    row.column::<String>("capability_state"@)->0@,
                                )->Err_0,
                            ),
                        )
                    } else {
                        if quarantine_state_spec(
                            row.column::<String>("quarantine_state"@)->0@,
                        ) is Err {
                            Err(
                                Fault::Error(
                                    quarantine_state_spec(
                                        row.column::<String>("quarantine_state"@)->0@,
                                    )->Err_0,
                                ),
                            )
                        } else {
                            Ok(
                                RegistrationPolicyState {
                                    validation: validation_state_spec(
                                        row.column::<String>("validation_state"@)->0@,
                                    )->Ok_0,
                                    authentication: authentication_state_spec(
                                        row.column::<String>("authentication_state"@)->0@,
                                    )->Ok_0,
                                    capabilities: capability_state_spec(
                                        row.column::<String>("capability_state"@)->0@,
                                    )->Ok_0,
                                    quarantine: quarantine_state_spec(
                                        row.column::<String>("quarantine_state"@)->0@,
                                    )->Ok_0,
                                    enabled: row.column::<bool>("enabled"@)->0,
                                    revoked: row.column::<bool>("is_revoked"@)->0,
                                },
                            )
                        }
                    }
                }
            }
        } else {
            Err(Fault::Malformed)
        }
    }
}

impl FromRow for RegistrationPolicyState {
    open spec fn row_spec(row: Row) -> Result<RegistrationPolicyState, Fault> {
        RegistrationPolicyState::of_row(row)
    }

    fn from_row(row: &Row) -> (r: Result<RegistrationPolicyState, Fault>) {
        proof {
            reveal(RegistrationPolicyState::of_row);
        }
        let validation: String = match row.get("validation_state") {
            Some(v) => v,
            None => return Err(Fault::Malformed),
        };
        let authentication: String = match row.get("authentication_state") {
            Some(v) => v,
            None => return Err(Fault::Malformed),
        };
        let capabilities: String = match row.get("capability_state") {
            Some(v) => v,
            None => return Err(Fault::Malformed),
        };
        let quarantine: String = match row.get("quarantine_state") {
            Some(v) => v,
            None => return Err(Fault::Malformed),
        };
        let enabled: bool = match row.get("enabled") {
            Some(v) => v,
            None => return Err(Fault::Malformed),
        };
        let revoked: bool = match row.get("is_revoked") {
            Some(v) => v,
            None => return Err(Fault::Malformed),
        };
        let validation: ValidationState = match validation_state(validation.as_str()) {
            Ok(value) => value,
            Err(error) => return Err(Fault::Error(error)),
        };
        let authentication: AuthenticationState = match authentication_state(
            authentication.as_str(),
        ) {
            Ok(value) => value,
            Err(error) => return Err(Fault::Error(error)),
        };
        let capabilities: CapabilityState = match capability_state(capabilities.as_str()) {
            Ok(value) => value,
            Err(error) => return Err(Fault::Error(error)),
        };
        let quarantine: QuarantineState = match quarantine_state(quarantine.as_str()) {
            Ok(value) => value,
            Err(error) => return Err(Fault::Error(error)),
        };
        Ok(RegistrationPolicyState { 
            validation, authentication, capabilities, quarantine, enabled, revoked,
         })
    }
}

} // verus!
