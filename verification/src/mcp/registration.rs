//! Registrations and their capability snapshots.

use std::sync::Arc;

use vstd::prelude::*;

use crate::database::Database;
use crate::error::DatabaseError;
use crate::error::Fault;
use crate::id::Uuid;
use crate::json::Json;
use crate::mcp::capability::CapabilityPlan;
use crate::mcp::capability::plan;
use crate::mcp::policy::RegistrationPolicyState;
use crate::mcp::policy::authentication_text;
use crate::mcp::policy::capability_text;
use crate::mcp::policy::quarantine_text;
use crate::mcp::policy::validation_text;
use crate::row::FromRow;
use crate::row::Reply;
use crate::row::Row;
use crate::row::many;
use crate::row::optional;
use crate::row::required;
use crate::row::single;
use crate::sql::mcp as sql;
use crate::step::Command;
use crate::step::CommandView;
use crate::step::Param;
use crate::step::Step;
use crate::step::StepView;
use crate::step::ask_all;
use crate::step::ask_execute;
use crate::step::ask_one;
use crate::step::ask_optional;
use crate::step::stop;
use crate::step::stop_list;
use crate::text::bytes_eq;
use crate::text::sized;
use crate::text::text_eq;

verus! {

#[derive(Debug)]
pub struct NewMcpRegistration<'a> {
    pub tenant_id: Uuid,
    pub id: Uuid,
    pub owner_principal_id: Uuid,
    pub owner_kind: &'a str,
    pub source_kind: &'a str,
    pub template_id: Option<Uuid>,
    pub display_name: &'a str,
    pub description: &'a str,
    pub transport: &'a str,
    pub endpoint_uri: Option<&'a str>,
    pub trust_profile: Option<&'a str>,
    pub catalog_entry: Option<&'a str>,
    pub policy: &'a Json,
}

/// Whether a transport is a known one.
pub open spec fn is_transport(transport: Seq<char>) -> bool {
    transport == "streamable_http"@ || transport == "stdio_catalog"@
}

/// Whether a transport is a known one.
pub fn known_transport(transport: &str) -> (r: bool)
    ensures
        r == is_transport(transport@),
{
    text_eq(transport, "streamable_http") || text_eq(transport, "stdio_catalog")
}

impl<'a> NewMcpRegistration<'a> {
    /// Whether the registration can be stored.
    pub open spec fn is_valid(&self) -> bool {
        &&& self.owner_kind@ == "user"@ || self.owner_kind@ == "service"@
        &&& self.source_kind@ == "personal"@ || self.source_kind@ == "managed"@
        &&& is_transport(self.transport@)
        &&& crate::text::is_sized(self.display_name@, 1, 255)
        &&& crate::text::is_sized(self.description@, 0, 1000)
        &&& *self.policy is Object
    }

    /// Whether the registration can be stored.
    pub fn valid(&self) -> (r: bool)
        ensures
            r == self.is_valid(),
    {
        (text_eq(self.owner_kind, "user") || text_eq(self.owner_kind, "service")) && (text_eq(
            self.source_kind,
            "personal",
        ) || text_eq(self.source_kind, "managed")) && known_transport(self.transport) && sized(
            self.display_name,
            1,
            255,
        ) && sized(self.description, 0, 1000) && self.policy.is_object()
    }
}

/// A registration.
#[derive(Debug)]
pub struct McpRegistrationRecord {
    pub tenant_id: Uuid,
    pub id: Uuid,
    pub owner_principal_id: Uuid,
    pub owner_kind: String,
    pub source_kind: String,
    pub template_id: Option<Uuid>,
    pub display_name: String,
    pub description: String,
    pub transport: String,
    pub endpoint_uri: Option<String>,
    pub trust_profile: Option<String>,
    pub catalog_entry: Option<String>,
    pub state: RegistrationPolicyState,
    pub policy: Arc<Json>,
    pub revision: i64,
    pub revocation_generation: i64,
    pub credential_generation: i64,
    pub credential_kind: String,
    pub protocol_version: Option<String>,
    pub created_at: String,
    pub updated_at: String,
}

impl McpRegistrationRecord {
    /// What a row holds, read by its column names.
    #[verifier::opaque]
    pub open spec fn of_row(row: Row) -> Result<McpRegistrationRecord, Fault> {
        if row.column::<Uuid>("tenant_id"@) is Some
            && row.column::<Uuid>("id"@) is Some
            && row.column::<Uuid>("owner_principal_id"@) is Some
            && row.column::<String>("owner_kind"@) is Some
            && row.column::<String>("source_kind"@) is Some
            && row.column::<Option<Uuid>>("template_id"@) is Some
            && row.column::<String>("display_name"@) is Some
            && row.column::<String>("description"@) is Some
            && row.column::<String>("transport"@) is Some
            && row.column::<Option<String>>("endpoint_uri"@) is Some
            && row.column::<Option<String>>("trust_profile"@) is Some
            && row.column::<Option<String>>("catalog_entry"@) is Some
            && row.column::<Arc<Json>>("policy"@) is Some
            && row.column::<i64>("revision"@) is Some
            && row.column::<i64>("revocation_generation"@) is Some
            && row.column::<i64>("credential_generation"@) is Some
            && row.column::<String>("credential_kind"@) is Some
            && row.column::<Option<String>>("protocol_version"@) is Some
            && row.column::<String>("created_at_text"@) is Some
            && row.column::<String>("updated_at_text"@) is Some {
            if <RegistrationPolicyState as FromRow>::row_spec(row) is Err {
                Err(<RegistrationPolicyState as FromRow>::row_spec(row)->Err_0)
            } else {
                Ok(
                    McpRegistrationRecord {
                        tenant_id: row.column::<Uuid>("tenant_id"@)->0,
                        id: row.column::<Uuid>("id"@)->0,
                        owner_principal_id: row.column::<Uuid>("owner_principal_id"@)->0,
                        owner_kind: row.column::<String>("owner_kind"@)->0,
                        source_kind: row.column::<String>("source_kind"@)->0,
                        template_id: row.column::<Option<Uuid>>("template_id"@)->0,
                        display_name: row.column::<String>("display_name"@)->0,
                        description: row.column::<String>("description"@)->0,
                        transport: row.column::<String>("transport"@)->0,
                        endpoint_uri: row.column::<Option<String>>("endpoint_uri"@)->0,
                        trust_profile: row.column::<Option<String>>("trust_profile"@)->0,
                        catalog_entry: row.column::<Option<String>>("catalog_entry"@)->0,
                        state: <RegistrationPolicyState as FromRow>::row_spec(row)->Ok_0,
                        policy: row.column::<Arc<Json>>("policy"@)->0,
                        revision: row.column::<i64>("revision"@)->0,
                        revocation_generation: row.column::<i64>("revocation_generation"@)->0,
                        credential_generation: row.column::<i64>("credential_generation"@)->0,
                        credential_kind: row.column::<String>("credential_kind"@)->0,
                        protocol_version: row.column::<Option<String>>("protocol_version"@)->0,
                        created_at: row.column::<String>("created_at_text"@)->0,
                        updated_at: row.column::<String>("updated_at_text"@)->0,
                    },
                )
            }
        } else {
            Err(Fault::Malformed)
        }
    }
}

impl FromRow for McpRegistrationRecord {
    open spec fn row_spec(row: Row) -> Result<McpRegistrationRecord, Fault> {
        McpRegistrationRecord::of_row(row)
    }

    fn from_row(row: &Row) -> (r: Result<McpRegistrationRecord, Fault>) {
        proof {
            reveal(McpRegistrationRecord::of_row);
        }
        let tenant_id: Uuid = match row.get("tenant_id") {
            Some(v) => v,
            None => return Err(Fault::Malformed),
        };
        let id: Uuid = match row.get("id") {
            Some(v) => v,
            None => return Err(Fault::Malformed),
        };
        let owner_principal_id: Uuid = match row.get("owner_principal_id") {
            Some(v) => v,
            None => return Err(Fault::Malformed),
        };
        let owner_kind: String = match row.get("owner_kind") {
            Some(v) => v,
            None => return Err(Fault::Malformed),
        };
        let source_kind: String = match row.get("source_kind") {
            Some(v) => v,
            None => return Err(Fault::Malformed),
        };
        let template_id: Option<Uuid> = match row.get("template_id") {
            Some(v) => v,
            None => return Err(Fault::Malformed),
        };
        let display_name: String = match row.get("display_name") {
            Some(v) => v,
            None => return Err(Fault::Malformed),
        };
        let description: String = match row.get("description") {
            Some(v) => v,
            None => return Err(Fault::Malformed),
        };
        let transport: String = match row.get("transport") {
            Some(v) => v,
            None => return Err(Fault::Malformed),
        };
        let endpoint_uri: Option<String> = match row.get("endpoint_uri") {
            Some(v) => v,
            None => return Err(Fault::Malformed),
        };
        let trust_profile: Option<String> = match row.get("trust_profile") {
            Some(v) => v,
            None => return Err(Fault::Malformed),
        };
        let catalog_entry: Option<String> = match row.get("catalog_entry") {
            Some(v) => v,
            None => return Err(Fault::Malformed),
        };
        let policy: Arc<Json> = match row.get("policy") {
            Some(v) => v,
            None => return Err(Fault::Malformed),
        };
        let revision: i64 = match row.get("revision") {
            Some(v) => v,
            None => return Err(Fault::Malformed),
        };
        let revocation_generation: i64 = match row.get("revocation_generation") {
            Some(v) => v,
            None => return Err(Fault::Malformed),
        };
        let credential_generation: i64 = match row.get("credential_generation") {
            Some(v) => v,
            None => return Err(Fault::Malformed),
        };
        let credential_kind: String = match row.get("credential_kind") {
            Some(v) => v,
            None => return Err(Fault::Malformed),
        };
        let protocol_version: Option<String> = match row.get("protocol_version") {
            Some(v) => v,
            None => return Err(Fault::Malformed),
        };
        let created_at: String = match row.get("created_at_text") {
            Some(v) => v,
            None => return Err(Fault::Malformed),
        };
        let updated_at: String = match row.get("updated_at_text") {
            Some(v) => v,
            None => return Err(Fault::Malformed),
        };
        let state: RegistrationPolicyState = match RegistrationPolicyState::from_row(row) {
            Ok(value) => value,
            Err(fault) => return Err(fault),
        };
        Ok(McpRegistrationRecord {
            tenant_id, id, owner_principal_id, owner_kind, source_kind, template_id,
            display_name, description, transport, endpoint_uri, trust_profile, catalog_entry,
            state, policy, revision, revocation_generation, credential_generation,
            credential_kind, protocol_version, created_at, updated_at,
        })
    }
}

impl View for McpRegistrationRecord {
    type V = McpRegistrationRecord;

    open spec fn view(&self) -> McpRegistrationRecord {
        *self
    }
}

#[derive(Debug)]
pub struct NewCapabilitySnapshot<'a> {
    pub tenant_id: Uuid,
    pub id: Uuid,
    pub registration_id: Uuid,
    pub credential_generation: i64,
    pub fingerprint: &'a [u8; 32],
    pub protocol_version: &'a str,
    pub document: &'a Arc<Json>,
}

impl<'a> NewCapabilitySnapshot<'a> {
    /// Whether the snapshot can be stored.
    pub open spec fn is_valid(&self) -> bool {
        **self.document is Object && self.protocol_version@.len() > 0
    }

    /// Whether the snapshot can be stored.
    pub fn valid(&self) -> (r: bool)
        ensures
            r == self.is_valid(),
    {
        self.document.is_object() && !self.protocol_version.is_empty()
    }
}

/// The snapshot that is current.
#[derive(Debug)]
pub struct SnapshotHead {
    pub fingerprint: Arc<Vec<u8>>,
    pub credential_generation: i64,
}

impl SnapshotHead {
    /// What a row holds, read by its column names.
    #[verifier::opaque]
    pub open spec fn of_row(row: Row) -> Result<SnapshotHead, Fault> {
        if row.column::<Arc<Vec<u8>>>("fingerprint"@) is Some
            && row.column::<i64>("credential_generation"@) is Some {
            Ok(
                SnapshotHead {
                    fingerprint: row.column::<Arc<Vec<u8>>>("fingerprint"@)->0,
                    credential_generation: row.column::<i64>("credential_generation"@)->0,
                },
            )
        } else {
            Err(Fault::Malformed)
        }
    }
}

impl FromRow for SnapshotHead {
    open spec fn row_spec(row: Row) -> Result<SnapshotHead, Fault> {
        SnapshotHead::of_row(row)
    }

    fn from_row(row: &Row) -> (r: Result<SnapshotHead, Fault>) {
        proof {
            reveal(SnapshotHead::of_row);
        }
        let fingerprint: Arc<Vec<u8>> = match row.get("fingerprint") {
            Some(v) => v,
            None => return Err(Fault::Malformed),
        };
        let credential_generation: i64 = match row.get("credential_generation") {
            Some(v) => v,
            None => return Err(Fault::Malformed),
        };
        Ok(SnapshotHead { fingerprint, credential_generation })
    }
}

/// Whether the current snapshot, if there is one, is of the same document under the same
/// credentials.
pub open spec fn is_current_spec(
    head: Option<SnapshotHead>,
    credential_generation: i64,
    fingerprint: &[u8; 32],
) -> bool {
    head is Some && head->0.credential_generation == credential_generation
        && head->0.fingerprint@ == fingerprint@
}

/// Whether the current snapshot is of the same document under the same credentials.
pub fn is_current(
    head: &Option<SnapshotHead>,
    credential_generation: i64,
    fingerprint: &[u8; 32],
) -> (r: bool)
    ensures
        r == is_current_spec(*head, credential_generation, fingerprint),
{
    match head {
        Some(head) => head.credential_generation == credential_generation && bytes_eq(
            head.fingerprint.as_slice(),
            fingerprint,
        ),
        None => false,
    }
}

/// The capability state after a new document: it has drifted where there was another before.
pub open spec fn discovered_state_spec(replaces: bool) -> &'static str {
    if replaces {
        "drifted"
    } else {
        "pending_review"
    }
}

/// The capability state after a new document.
pub fn discovered_state(replaces: bool) -> (r: &'static str)
    ensures
        r == discovered_state_spec(replaces),
{
    if replaces {
        "drifted"
    } else {
        "pending_review"
    }
}

impl Database {

    /// What stops `mcp_create_registration`, in order.
    pub open spec fn mcp_create_registration_fault<'a>(
        input: &'a NewMcpRegistration<'a>,
        log: Seq<Reply>,
    ) -> Option<Fault> {
        if !input.is_valid() {
            Some(Fault::Error(DatabaseError::InvalidPersistedValue))
        } else if log.len() > 0 && log[0].single_row::<McpRegistrationRecord>() is Err {
            Fault::of(log[0].single_row::<McpRegistrationRecord>())
        } else {
            None
        }
    }

    /// The commands of `mcp_create_registration`, in order.
    pub open spec fn mcp_create_registration_script<'a>(
        input: &'a NewMcpRegistration<'a>,
        log: Seq<Reply>,
    ) -> Seq<CommandView<'a>> {
        seq![
            CommandView::one(
                sql::CREATE_REGISTRATION,
                seq![
                    Param::Id(input.tenant_id), Param::Id(input.id),
                    Param::Id(input.owner_principal_id), Param::Text(input.owner_kind),
                    Param::Text(input.source_kind), Param::OptId(input.template_id),
                    Param::Text(input.display_name), Param::Text(input.description),
                    Param::Text(input.transport), Param::OptText(input.endpoint_uri),
                    Param::OptText(input.trust_profile), Param::OptText(input.catalog_entry),
                    Param::Json(input.policy),
                ],
            ),
        ]
    }

    /// What `mcp_create_registration` returns.
    pub open spec fn mcp_create_registration_output(log: Seq<Reply>) -> McpRegistrationRecord {
        let registration = log[0].single_row::<McpRegistrationRecord>()->Ok_0;
        registration
    }

    /// Stores a registration.
    pub fn mcp_create_registration<'a>(
        input: &'a NewMcpRegistration<'a>,
        log: &'a [Reply],
    ) -> (step: Step<'a, McpRegistrationRecord>)
        ensures
            step@ == StepView::proceed(
                Self::mcp_create_registration_fault(input, log@),
                Self::mcp_create_registration_script(input, log@),
                Self::mcp_create_registration_output(log@),
                log@,
            ),
    {
        if !input.valid() {
            return Step::Fail(DatabaseError::InvalidPersistedValue);
        }
        if log.len() == 0 {
            return ask_one(
                sql::CREATE_REGISTRATION,
                vec![
                    Param::Id(input.tenant_id), Param::Id(input.id),
                    Param::Id(input.owner_principal_id), Param::Text(input.owner_kind),
                    Param::Text(input.source_kind), Param::OptId(input.template_id),
                    Param::Text(input.display_name), Param::Text(input.description),
                    Param::Text(input.transport), Param::OptText(input.endpoint_uri),
                    Param::OptText(input.trust_profile), Param::OptText(input.catalog_entry),
                    Param::Json(input.policy),
                ],
            );
        }
        let registration: McpRegistrationRecord = match single::<McpRegistrationRecord>(&log[0]) {
            Ok(value) => value,
            Err(fault) => return stop(fault),
        };
        Step::Done(registration)
    }

    /// Every statement of `mcp_create_registration` is about its tenant.
    pub proof fn mcp_create_registration_is_scoped<'a>(
        input: &'a NewMcpRegistration<'a>,
        log: Seq<Reply>,
    )
        ensures
            crate::step::is_scoped(
                Self::mcp_create_registration_script(input, log),
                input.tenant_id,
            ),
    {
    }

    /// What stops `mcp_registration`, in order.
    pub open spec fn mcp_registration_fault(log: Seq<Reply>) -> Option<Fault> {
        if log.len() > 0
            && log[0].required_row::<McpRegistrationRecord>(DatabaseError::NotFound) is Err {
            Fault::of(log[0].required_row::<McpRegistrationRecord>(DatabaseError::NotFound))
        } else {
            None
        }
    }

    /// The commands of `mcp_registration`, in order.
    pub open spec fn mcp_registration_script<'a>(
        tenant_id: Uuid, owner_principal_id: Uuid, registration_id: Uuid, log: Seq<Reply>,
    ) -> Seq<CommandView<'a>> {
        seq![
            CommandView::optional(
                sql::REGISTRATION,
                seq![
                    Param::Id(tenant_id), Param::Id(owner_principal_id),
                    Param::Id(registration_id),
                ],
            ),
        ]
    }

    /// What `mcp_registration` returns.
    pub open spec fn mcp_registration_output(log: Seq<Reply>) -> McpRegistrationRecord {
        let registration =
            log[0].required_row::<McpRegistrationRecord>(DatabaseError::NotFound)->Ok_0;
        registration
    }

    /// One registration of an owner.
    pub fn mcp_registration<'a>(
        tenant_id: Uuid, owner_principal_id: Uuid, registration_id: Uuid, log: &'a [Reply],
    ) -> (step: Step<'a, McpRegistrationRecord>)
        ensures
            step@ == StepView::proceed(
                Self::mcp_registration_fault(log@),
                Self::mcp_registration_script(tenant_id, owner_principal_id, registration_id, log@),
                Self::mcp_registration_output(log@),
                log@,
            ),
    {
        if log.len() == 0 {
            return ask_optional(
                sql::REGISTRATION,
                vec![
                    Param::Id(tenant_id), Param::Id(owner_principal_id),
                    Param::Id(registration_id),
                ],
            );
        }
        let registration: McpRegistrationRecord = match required(&log[0], DatabaseError::NotFound) {
            Ok(value) => value,
            Err(fault) => return stop(fault),
        };
        Step::Done(registration)
    }

    /// Every statement of `mcp_registration` is about its tenant.
    pub proof fn mcp_registration_is_scoped(
        tenant_id: Uuid, owner_principal_id: Uuid, registration_id: Uuid, log: Seq<Reply>,
    )
        ensures
            crate::step::is_scoped(
                Self::mcp_registration_script(tenant_id, owner_principal_id, registration_id, log),
                tenant_id,
            ),
    {
    }

    /// What stops `mcp_list_registrations`, in order.
    pub open spec fn mcp_list_registrations_fault(limit: i64, log: Seq<Reply>) -> Option<Fault> {
        if limit < 1 || limit > 200 {
            Some(Fault::Error(DatabaseError::InvalidPersistedValue))
        } else if log.len() > 0 && log[0].all_rows::<McpRegistrationRecord>() is Err {
            Fault::of(log[0].all_rows::<McpRegistrationRecord>())
        } else {
            None
        }
    }

    /// The commands of `mcp_list_registrations`, in order.
    pub open spec fn mcp_list_registrations_script<'a>(
        tenant_id: Uuid, owner_principal_id: Uuid, limit: i64, log: Seq<Reply>,
    ) -> Seq<CommandView<'a>> {
        seq![
            CommandView::all(
                sql::LIST_REGISTRATIONS,
                seq![Param::Id(tenant_id), Param::Id(owner_principal_id), Param::I64(limit)],
            ),
        ]
    }

    /// What `mcp_list_registrations` returns.
    pub open spec fn mcp_list_registrations_output(log: Seq<Reply>) -> Seq<McpRegistrationRecord> {
        let registrations = log[0].all_rows::<McpRegistrationRecord>()->Ok_0;
        registrations
    }

    /// An owner's registrations, the latest first.
    pub fn mcp_list_registrations<'a>(
        tenant_id: Uuid, owner_principal_id: Uuid, limit: i64, log: &'a [Reply],
    ) -> (step: Step<'a, Vec<McpRegistrationRecord>>)
        ensures
            step.list() == StepView::proceed(
                Self::mcp_list_registrations_fault(limit, log@),
                Self::mcp_list_registrations_script(tenant_id, owner_principal_id, limit, log@),
                Self::mcp_list_registrations_output(log@),
                log@,
            ),
    {
        if limit < 1 || limit > 200 {
            return Step::Fail(DatabaseError::InvalidPersistedValue);
        }
        if log.len() == 0 {
            return ask_all(
                sql::LIST_REGISTRATIONS,
                vec![Param::Id(tenant_id), Param::Id(owner_principal_id), Param::I64(limit)],
            );
        }
        let registrations: Vec<McpRegistrationRecord> = match many(&log[0]) {
            Ok(value) => value,
            Err(fault) => return stop_list(fault),
        };
        Step::Done(registrations)
    }

    /// Every statement of `mcp_list_registrations` is about its tenant.
    pub proof fn mcp_list_registrations_is_scoped(
        tenant_id: Uuid, owner_principal_id: Uuid, limit: i64, log: Seq<Reply>,
    )
        ensures
            crate::step::is_scoped(
                Self::mcp_list_registrations_script(tenant_id, owner_principal_id, limit, log),
                tenant_id,
            ),
    {
    }

    /// What stops `mcp_update_registration_state`, in order.
    pub open spec fn mcp_update_registration_state_fault(
        state: RegistrationPolicyState, can_enable: bool, log: Seq<Reply>,
    ) -> Option<Fault> {
        if state.enabled && !can_enable {
            Some(Fault::Error(DatabaseError::InvalidPersistedValue))
        } else if log.len() > 0
            && log[0].required_row::<McpRegistrationRecord>(DatabaseError::Conflict) is Err {
            Fault::of(log[0].required_row::<McpRegistrationRecord>(DatabaseError::Conflict))
        } else {
            None
        }
    }

    /// The commands of `mcp_update_registration_state`, in order.
    pub open spec fn mcp_update_registration_state_script<'a>(
        tenant_id: Uuid, registration_id: Uuid, expected_revision: i64,
        state: RegistrationPolicyState, protocol_version: Option<&'a str>, log: Seq<Reply>,
    ) -> Seq<CommandView<'a>> {
        seq![
            CommandView::optional(
                sql::UPDATE_REGISTRATION_STATE,
                seq![
                    Param::Id(tenant_id), Param::Id(registration_id),
                    Param::I64(expected_revision),
                    Param::Text(crate::mcp::policy::validation_name(state.validation)),
                    Param::Text(crate::mcp::policy::authentication_name(state.authentication)),
                    Param::Text(crate::mcp::policy::capability_name(state.capabilities)),
                    Param::Text(crate::mcp::policy::quarantine_name(state.quarantine)),
                    Param::Bool(state.enabled), Param::OptText(protocol_version),
                ],
            ),
        ]
    }

    /// What `mcp_update_registration_state` returns.
    pub open spec fn mcp_update_registration_state_output(
        log: Seq<Reply>,
    ) -> McpRegistrationRecord {
        let registration =
            log[0].required_row::<McpRegistrationRecord>(DatabaseError::Conflict)->Ok_0;
        registration
    }

    /// Moves a registration to a policy state, from the expected revision. `can_enable` is the
    /// policy's verdict on whether a registration in that state may be enabled.
    pub fn mcp_update_registration_state<'a>(
        tenant_id: Uuid, registration_id: Uuid, expected_revision: i64,
        state: RegistrationPolicyState, can_enable: bool, protocol_version: Option<&'a str>,
        log: &'a [Reply],
    ) -> (step: Step<'a, McpRegistrationRecord>)
        ensures
            step@ == StepView::proceed(
                Self::mcp_update_registration_state_fault(state, can_enable, log@),
                Self::mcp_update_registration_state_script(
                    tenant_id, registration_id, expected_revision, state, protocol_version,
                    log@,
                ),
                Self::mcp_update_registration_state_output(log@),
                log@,
            ),
    {
        if state.enabled && !can_enable {
            return Step::Fail(DatabaseError::InvalidPersistedValue);
        }
        if log.len() == 0 {
            return ask_optional(
                sql::UPDATE_REGISTRATION_STATE,
                vec![
                    Param::Id(tenant_id), Param::Id(registration_id),
                    Param::I64(expected_revision),
                    Param::Text(validation_text(state.validation)),
                    Param::Text(authentication_text(state.authentication)),
                    Param::Text(capability_text(state.capabilities)),
                    Param::Text(quarantine_text(state.quarantine)), Param::Bool(state.enabled),
                    Param::OptText(protocol_version),
                ],
            );
        }
        let registration: McpRegistrationRecord = match required(&log[0], DatabaseError::Conflict) {
            Ok(value) => value,
            Err(fault) => return stop(fault),
        };
        Step::Done(registration)
    }

    /// Every statement of `mcp_update_registration_state` is about its tenant.
    pub proof fn mcp_update_registration_state_is_scoped<'a>(
        tenant_id: Uuid, registration_id: Uuid, expected_revision: i64,
        state: RegistrationPolicyState, protocol_version: Option<&'a str>, log: Seq<Reply>,
    )
        ensures
            crate::step::is_scoped(
                Self::mcp_update_registration_state_script(
                    tenant_id, registration_id, expected_revision, state, protocol_version, log,
                ),
                tenant_id,
            ),
    {
    }

    /// What stops `mcp_revoke_registration`, in order.
    pub open spec fn mcp_revoke_registration_fault(log: Seq<Reply>) -> Option<Fault> {
        if log.len() > 0 && log[0].required_row::<i64>(DatabaseError::Conflict) is Err {
            Fault::of(log[0].required_row::<i64>(DatabaseError::Conflict))
        } else {
            None
        }
    }

    /// The commands of `mcp_revoke_registration`, in order.
    pub open spec fn mcp_revoke_registration_script<'a>(
        tenant_id: Uuid, registration_id: Uuid, expected_revision: i64, log: Seq<Reply>,
    ) -> Seq<CommandView<'a>> {
        seq![
            CommandView::optional(
                sql::REVOKE_REGISTRATION,
                seq![
                    Param::Id(tenant_id), Param::Id(registration_id),
                    Param::I64(expected_revision),
                ],
            ),
        ]
    }

    /// What `mcp_revoke_registration` returns.
    pub open spec fn mcp_revoke_registration_output(log: Seq<Reply>) -> i64 {
        let generation = log[0].required_row::<i64>(DatabaseError::Conflict)->Ok_0;
        generation
    }

    /// Revokes a registration at the expected revision, and returns its new revocation generation.
    pub fn mcp_revoke_registration<'a>(
        tenant_id: Uuid, registration_id: Uuid, expected_revision: i64, log: &'a [Reply],
    ) -> (step: Step<'a, i64>)
        ensures
            step@ == StepView::proceed(
                Self::mcp_revoke_registration_fault(log@),
                Self::mcp_revoke_registration_script(
                    tenant_id, registration_id, expected_revision, log@,
                ),
                Self::mcp_revoke_registration_output(log@),
                log@,
            ),
    {
        if log.len() == 0 {
            return ask_optional(
                sql::REVOKE_REGISTRATION,
                vec![
                    Param::Id(tenant_id), Param::Id(registration_id),
                    Param::I64(expected_revision),
                ],
            );
        }
        let generation: i64 = match required::<i64>(&log[0], DatabaseError::Conflict) {
            Ok(value) => value,
            Err(fault) => return stop(fault),
        };
        Step::Done(generation)
    }

    /// Every statement of `mcp_revoke_registration` is about its tenant.
    pub proof fn mcp_revoke_registration_is_scoped(
        tenant_id: Uuid, registration_id: Uuid, expected_revision: i64, log: Seq<Reply>,
    )
        ensures
            crate::step::is_scoped(
                Self::mcp_revoke_registration_script(
                    tenant_id, registration_id, expected_revision, log,
                ),
                tenant_id,
            ),
    {
    }

    /// What stops `mcp_store_capability_snapshot`, in order.
    pub open spec fn mcp_store_capability_snapshot_fault<'a>(
        input: &'a NewCapabilitySnapshot<'a>, fingerprints: &'a [Option<&'a [u8; 32]>],
        log: Seq<Reply>,
    ) -> Option<Fault> {
        let generation = log[1].required_row::<i64>(DatabaseError::NotFound)->Ok_0;
        let head = log[2].optional_row::<SnapshotHead>()->Ok_0;
        let planned = crate::mcp::capability::plan_spec(true, **input.document, fingerprints@);
        let at = (5 + planned.rows.len()) as int;
        if !input.is_valid() {
            Some(Fault::Error(DatabaseError::InvalidPersistedValue))
        } else if log.len() > 1 && log[1].required_row::<i64>(DatabaseError::NotFound) is Err {
            Fault::of(log[1].required_row::<i64>(DatabaseError::NotFound))
        } else if log.len() > 1 && generation != input.credential_generation {
            Some(Fault::Error(DatabaseError::StaleGeneration))
        } else if log.len() > 2 && log[2].optional_row::<SnapshotHead>() is Err {
            Fault::of(log[2].optional_row::<SnapshotHead>())
        } else if log.len() > 2
            && is_current_spec(head, input.credential_generation, input.fingerprint) {
            None
        } else if log.len() > at - 1 && !planned.complete {
            Some(Fault::Error(DatabaseError::InvalidPersistedValue))
        } else {
            None
        }
    }

    /// The commands of `mcp_store_capability_snapshot`, in order.
    pub open spec fn mcp_store_capability_snapshot_script<'a>(
        input: &'a NewCapabilitySnapshot<'a>, fingerprints: &'a [Option<&'a [u8; 32]>],
        log: Seq<Reply>,
    ) -> Seq<CommandView<'a>> {
        let head = log[2].optional_row::<SnapshotHead>()->Ok_0;
        let replaces = head is Some;
        let planned = crate::mcp::capability::plan_spec(true, **input.document, fingerprints@);
        let state = discovered_state_spec(replaces);
        seq![
            CommandView::Begin,
            CommandView::optional(
                sql::STORE_CAPABILITY_SNAPSHOT_SELECT_REGISTRATIONS,
                seq![Param::Id(input.tenant_id), Param::Id(input.registration_id)],
            ),
            CommandView::optional(
                sql::STORE_CAPABILITY_SNAPSHOT_SELECT_CAPABILITY_SNAPSHOTS,
                seq![Param::Id(input.tenant_id), Param::Id(input.registration_id)],
            ),
        ].add(
            if is_current_spec(head, input.credential_generation, input.fingerprint) {
                seq![CommandView::Commit]
            } else {
                seq![
                    CommandView::execute(
                        sql::STORE_CAPABILITY_SNAPSHOT_UPDATE_CAPABILITY_SNAPSHOTS,
                        seq![Param::Id(input.tenant_id), Param::Id(input.registration_id)],
                    ),
                    CommandView::execute(
                        sql::STORE_CAPABILITY_SNAPSHOT_INSERT_CAPABILITY_SNAPSHOTS,
                        seq![
                            Param::Id(input.tenant_id), Param::Id(input.id),
                            Param::Id(input.registration_id),
                            Param::I64(input.credential_generation),
                            Param::Digest(input.fingerprint), Param::Text(input.protocol_version),
                            Param::Json(input.document),
                        ],
                    ),
                ].add(
                    Seq::new(
                        planned.rows.len(),
                        |j: int| CommandView::execute(
                            sql::STORE_CAPABILITY_SNAPSHOT_INSERT_CAPABILITIES,
                            seq![
                                Param::Id(input.tenant_id), Param::Id(input.id),
                                Param::Digest(planned.rows[j].fingerprint),
                                Param::Text(planned.rows[j].primitive),
                                Param::Owned(*planned.rows[j].name),
                                Param::OptBool(planned.rows[j].read_only_hint),
                                Param::Json(planned.rows[j].descriptor),
                            ],
                        ),
                    ),
                ).add(
                    seq![
                        CommandView::execute(
                            sql::STORE_CAPABILITY_SNAPSHOT_UPDATE_REGISTRATIONS,
                            seq![
                                Param::Id(input.tenant_id), Param::Id(input.registration_id),
                                Param::Text(state),
                            ],
                        ),
                        CommandView::Commit,
                    ],
                )
            },
        )
    }

    /// What `mcp_store_capability_snapshot` returns.
    pub open spec fn mcp_store_capability_snapshot_output<'a>(
        input: &'a NewCapabilitySnapshot<'a>,
        log: Seq<Reply>,
    ) -> bool {
        let head = log[2].optional_row::<SnapshotHead>()->Ok_0;
        if is_current_spec(head, input.credential_generation, input.fingerprint) {
            false
        } else {
            true
        }
    }

    /// Stores what was discovered of a registration, and says whether it is new. A new document
    /// disables the registration until its capabilities are reviewed. `fingerprints` has the
    /// digests of the document's descriptors: see [`crate::mcp::capability::plan_spec`].
    #[verifier::spinoff_prover]
    #[verifier::rlimit(40)]
    pub fn mcp_store_capability_snapshot<'a>(
        input: &'a NewCapabilitySnapshot<'a>, fingerprints: &'a [Option<&'a [u8; 32]>],
        log: &'a [Reply],
    ) -> (step: Step<'a, bool>)
        ensures
            step@ == StepView::proceed(
                Self::mcp_store_capability_snapshot_fault(input, fingerprints, log@),
                Self::mcp_store_capability_snapshot_script(input, fingerprints, log@),
                Self::mcp_store_capability_snapshot_output(input, log@),
                log@,
            ),
    {
        if !input.valid() {
            return Step::Fail(DatabaseError::InvalidPersistedValue);
        }
        if log.len() == 0 {
            return Step::Ask(Command::Begin);
        }
        if log.len() <= 1 {
            return ask_optional(
                sql::STORE_CAPABILITY_SNAPSHOT_SELECT_REGISTRATIONS,
                vec![Param::Id(input.tenant_id), Param::Id(input.registration_id)],
            );
        }
        let generation: i64 = match required::<i64>(&log[1], DatabaseError::NotFound) {
            Ok(value) => value,
            Err(fault) => return stop(fault),
        };
        if generation != input.credential_generation {
            return Step::Fail(DatabaseError::StaleGeneration);
        }
        if log.len() <= 2 {
            return ask_optional(
                sql::STORE_CAPABILITY_SNAPSHOT_SELECT_CAPABILITY_SNAPSHOTS,
                vec![Param::Id(input.tenant_id), Param::Id(input.registration_id)],
            );
        }
        let head: Option<SnapshotHead> = match optional::<SnapshotHead>(&log[2]) {
            Ok(value) => value,
            Err(fault) => return stop(fault),
        };
        if is_current(&head, input.credential_generation, input.fingerprint) {
            if log.len() <= 3 {
                return Step::Ask(Command::Commit);
            }
            return Step::Done(false);
        }
        let replaces: bool = head.is_some();
        let planned: CapabilityPlan<'a> = plan(true, input.document, fingerprints);
        let state: &'static str = discovered_state(replaces);
        if log.len() <= 3 {
            return ask_execute(
                sql::STORE_CAPABILITY_SNAPSHOT_UPDATE_CAPABILITY_SNAPSHOTS,
                vec![Param::Id(input.tenant_id), Param::Id(input.registration_id)],
            );
        }
        if log.len() <= 4 {
            return ask_execute(
                sql::STORE_CAPABILITY_SNAPSHOT_INSERT_CAPABILITY_SNAPSHOTS,
                vec![
                    Param::Id(input.tenant_id), Param::Id(input.id),
                    Param::Id(input.registration_id), Param::I64(input.credential_generation),
                    Param::Digest(input.fingerprint), Param::Text(input.protocol_version),
                    Param::Json(input.document),
                ],
            );
        }
        let items: usize = planned.rows.len();
        if log.len() - 5 < items {
            let j: usize = log.len() - 5;
            return ask_execute(
                sql::STORE_CAPABILITY_SNAPSHOT_INSERT_CAPABILITIES,
                vec![
                    Param::Id(input.tenant_id), Param::Id(input.id),
                    Param::Digest(planned.rows[j].fingerprint),
                    Param::Text(planned.rows[j].primitive),
                    Param::Owned(planned.rows[j].name.clone()),
                    Param::OptBool(planned.rows[j].read_only_hint),
                    Param::Json(planned.rows[j].descriptor),
                ],
            );
        }
        let at: usize = 5 + items;
        if !planned.complete {
            return Step::Fail(DatabaseError::InvalidPersistedValue);
        }
        if log.len() <= at {
            return ask_execute(
                sql::STORE_CAPABILITY_SNAPSHOT_UPDATE_REGISTRATIONS,
                vec![
                    Param::Id(input.tenant_id), Param::Id(input.registration_id),
                    Param::Text(state),
                ],
            );
        }
        if log.len() - at <= 1 {
            return Step::Ask(Command::Commit);
        }
        Step::Done(true)
    }

    /// `mcp_store_capability_snapshot` runs in one transaction: it is done once its commit is
    /// acknowledged, and when it fails, nothing was committed.
    pub proof fn mcp_store_capability_snapshot_is_atomic<'a>(
        input: &'a NewCapabilitySnapshot<'a>, fingerprints: &'a [Option<&'a [u8; 32]>],
        log: Seq<Reply>,
    )
        ensures
            crate::step::is_atomic(
                Self::mcp_store_capability_snapshot_script(input, fingerprints, log),
                0,
            ),
            crate::step::commit_acknowledged(
                Self::mcp_store_capability_snapshot_fault(input, fingerprints, log.drop_last()),
                Self::mcp_store_capability_snapshot_script(input, fingerprints, log.drop_last()),
                log,
            ) ==> {
                &&& Self::mcp_store_capability_snapshot_fault(input, fingerprints, log) is None
                &&& log.len() == Self::mcp_store_capability_snapshot_script(
                    input, fingerprints, log,
                ).len()
            },
    {
    }

    /// Every statement of `mcp_store_capability_snapshot` is about its tenant.
    pub proof fn mcp_store_capability_snapshot_is_scoped<'a>(
        input: &'a NewCapabilitySnapshot<'a>, fingerprints: &'a [Option<&'a [u8; 32]>],
        log: Seq<Reply>,
    )
        ensures
            crate::step::is_scoped(
                Self::mcp_store_capability_snapshot_script(input, fingerprints, log),
                input.tenant_id,
            ),
    {
    }

}

} // verus!
