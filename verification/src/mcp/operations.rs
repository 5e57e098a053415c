//! Managed templates, services and capability reviews.

use std::sync::Arc;

use vstd::prelude::*;

use crate::database::Database;
use crate::error::DatabaseError;
use crate::error::Fault;
use crate::id::Uuid;
use crate::json::Json;
use crate::mcp::grant::MAX_GRANT_SECONDS;
use crate::mcp::invocation::known_primitive;
use crate::mcp::registration::known_transport;
use crate::row::FromRow;
use crate::row::Reply;
use crate::row::Row;
use crate::row::each_exactly_one;
use crate::row::exactly_one;
use crate::row::many;
use crate::row::single;
use crate::sql::mcp as sql;
use crate::step::Command;
use crate::step::CommandView;
use crate::step::Param;
use crate::step::Step;
use crate::step::StepView;
use crate::step::ask_all;
use crate::step::ask_execute;
use crate::step::ask_one;
use crate::step::stop;
use crate::step::stop_list;
use crate::text::any_white_space;
use crate::text::begins_with;
use crate::text::sized;
use crate::text::text_eq;

verus! {

#[derive(Debug)]
pub struct NewMcpManagedTemplate<'a> {
    pub tenant_id: Uuid,
    pub id: Uuid,
    pub display_name: &'a str,
    pub description: &'a str,
    pub transport: &'a str,
    pub endpoint_uri: Option<&'a str>,
    pub trust_profile: Option<&'a str>,
    pub catalog_entry: Option<&'a str>,
    pub policy: &'a Json,
    pub created_by: Uuid,
}

impl<'a> NewMcpManagedTemplate<'a> {
    /// Whether the template can be stored.
    pub open spec fn is_valid(&self) -> bool {
        &&& self.display_name@.len() > 0
        &&& crate::text::is_sized(self.description@, 0, 1000)
        &&& crate::mcp::registration::is_transport(self.transport@)
        &&& *self.policy is Object
    }

    /// Whether the template can be stored.
    pub fn valid(&self) -> (r: bool)
        ensures
            r == self.is_valid(),
    {
        !self.display_name.is_empty() && sized(self.description, 0, 1000) && known_transport(
            self.transport,
        ) && self.policy.is_object()
    }
}

/// A template that an administrator offers.
#[derive(Debug)]
pub struct McpManagedTemplateRecord {
    pub tenant_id: Uuid,
    pub id: Uuid,
    pub display_name: String,
    pub description: String,
    pub transport: String,
    pub endpoint_uri: Option<String>,
    pub trust_profile: Option<String>,
    pub catalog_entry: Option<String>,
    pub enabled: bool,
    pub policy: Arc<Json>,
    pub revision: i64,
    pub revocation_generation: i64,
    pub created_at: String,
    pub updated_at: String,
}

impl McpManagedTemplateRecord {
    /// What a row holds, read by its column names.
    #[verifier::opaque]
    pub open spec fn of_row(row: Row) -> Result<McpManagedTemplateRecord, Fault> {
        if row.column::<Uuid>("tenant_id"@) is Some
            && row.column::<Uuid>("id"@) is Some
            && row.column::<String>("display_name"@) is Some
            && row.column::<String>("description"@) is Some
            && row.column::<String>("transport"@) is Some
            && row.column::<Option<String>>("endpoint_uri"@) is Some
            && row.column::<Option<String>>("trust_profile"@) is Some
            && row.column::<Option<String>>("catalog_entry"@) is Some
            && row.column::<bool>("enabled"@) is Some
            && row.column::<Arc<Json>>("policy"@) is Some
            && row.column::<i64>("revision"@) is Some
            && row.column::<i64>("revocation_generation"@) is Some
            && row.column::<String>("created_at_text"@) is Some
            && row.column::<String>("updated_at_text"@) is Some {
            Ok(
                McpManagedTemplateRecord {
                    tenant_id: row.column::<Uuid>("tenant_id"@)->0,
                    id: row.column::<Uuid>("id"@)->0,
                    display_name: row.column::<String>("display_name"@)->0,
                    description: row.column::<String>("description"@)->0,
                    transport: row.column::<String>("transport"@)->0,
                    endpoint_uri: row.column::<Option<String>>("endpoint_uri"@)->0,
                    trust_profile: row.column::<Option<String>>("trust_profile"@)->0,
                    catalog_entry: row.column::<Option<String>>("catalog_entry"@)->0,
                    enabled: row.column::<bool>("enabled"@)->0,
                    policy: row.column::<Arc<Json>>("policy"@)->0,
                    revision: row.column::<i64>("revision"@)->0,
                    revocation_generation: row.column::<i64>("revocation_generation"@)->0,
                    created_at: row.column::<String>("created_at_text"@)->0,
                    updated_at: row.column::<String>("updated_at_text"@)->0,
                },
            )
        } else {
            Err(Fault::Malformed)
        }
    }
}

impl FromRow for McpManagedTemplateRecord {
    open spec fn row_spec(row: Row) -> Result<McpManagedTemplateRecord, Fault> {
        McpManagedTemplateRecord::of_row(row)
    }

    fn from_row(row: &Row) -> (r: Result<McpManagedTemplateRecord, Fault>) {
        proof {
            reveal(McpManagedTemplateRecord::of_row);
        }
        let tenant_id: Uuid = match row.get("tenant_id") {
            Some(v) => v,
            None => return Err(Fault::Malformed),
        };
        let id: Uuid = match row.get("id") {
            Some(v) => v,
            None => return Err(Fault::Malformed),
        };
        let display_name: String = match row.get("display_name") {
            Some(v) => v,
            None => return Err(Fault::Malformed),
        };
        let description: String = match row.get("description") {
            Some(v) => v,
            None => return Err(Fault::Malformed),
        };
        let transport: String = match row.get("transport") {
            Some(v) => v,
            None => return Err(Fault::Malformed),
        };
        let endpoint_uri: Option<String> = match row.get("endpoint_uri") {
            Some(v) => v,
            None => return Err(Fault::Malformed),
        };
        let trust_profile: Option<String> = match row.get("trust_profile") {
            Some(v) => v,
            None => return Err(Fault::Malformed),
        };
        let catalog_entry: Option<String> = match row.get("catalog_entry") {
            Some(v) => v,
            None => return Err(Fault::Malformed),
        };
        let enabled: bool = match row.get("enabled") {
            Some(v) => v,
            None => return Err(Fault::Malformed),
        };
        let policy: Arc<Json> = match row.get("policy") {
            Some(v) => v,
            None => return Err(Fault::Malformed),
        };
        let revision: i64 = match row.get("revision") {
            Some(v) => v,
            None => return Err(Fault::Malformed),
        };
        let revocation_generation: i64 = match row.get("revocation_generation") {
            Some(v) => v,
            None => return Err(Fault::Malformed),
        };
        let created_at: String = match row.get("created_at_text") {
            Some(v) => v,
            None => return Err(Fault::Malformed),
        };
        let updated_at: String = match row.get("updated_at_text") {
            Some(v) => v,
            None => return Err(Fault::Malformed),
        };
        Ok(McpManagedTemplateRecord {
            tenant_id, id, display_name, description, transport, endpoint_uri, trust_profile,
            catalog_entry, enabled, policy, revision, revocation_generation, created_at,
            updated_at,
        })
    }
}

#[derive(Debug)]
pub struct NewMcpServicePrincipal<'a> {
    pub tenant_id: Uuid,
    pub service_id: Uuid,
    pub principal_id: Uuid,
    pub display_name: &'a str,
    pub identity_binding_id: Uuid,
    pub spiffe_uri: &'a str,
    pub created_by: Uuid,
}

impl<'a> NewMcpServicePrincipal<'a> {
    /// Whether the service can be stored.
    pub open spec fn is_valid(&self) -> bool {
        crate::text::is_sized(self.display_name@, 1, 255) && is_spiffe_uri(self.spiffe_uri@)
    }

    /// Whether the service can be stored.
    pub fn valid(&self) -> (r: bool)
        ensures
            r == self.is_valid(),
    {
        sized(self.display_name, 1, 255) && valid_spiffe_uri(self.spiffe_uri)
    }
}

/// A service that acts on its own.
#[derive(Debug)]
pub struct McpServicePrincipalRecord {
    pub tenant_id: Uuid,
    pub service_id: Uuid,
    pub principal_id: Uuid,
    pub display_name: String,
    pub spiffe_uri: String,
    pub status: String,
    pub revocation_generation: i64,
    pub created_at: String,
    pub updated_at: String,
}

impl McpServicePrincipalRecord {
    /// What a row holds, read by its column names.
    #[verifier::opaque]
    pub open spec fn of_row(row: Row) -> Result<McpServicePrincipalRecord, Fault> {
        if row.column::<Uuid>("tenant_id"@) is Some
            && row.column::<Uuid>("id"@) is Some
            && row.column::<Uuid>("principal_id"@) is Some
            && row.column::<String>("display_name"@) is Some
            && row.column::<String>("spiffe_uri"@) is Some
            && row.column::<String>("status"@) is Some
            && row.column::<i64>("revocation_generation"@) is Some
            && row.column::<String>("created_at_text"@) is Some
            && row.column::<String>("updated_at_text"@) is Some {
            Ok(
                McpServicePrincipalRecord {
                    tenant_id: row.column::<Uuid>("tenant_id"@)->0,
                    service_id: row.column::<Uuid>("id"@)->0,
                    principal_id: row.column::<Uuid>("principal_id"@)->0,
                    display_name: row.column::<String>("display_name"@)->0,
                    spiffe_uri: row.column::<String>("spiffe_uri"@)->0,
                    status: row.column::<String>("status"@)->0,
                    revocation_generation: row.column::<i64>("revocation_generation"@)->0,
                    created_at: row.column::<String>("created_at_text"@)->0,
                    updated_at: row.column::<String>("updated_at_text"@)->0,
                },
            )
        } else {
            Err(Fault::Malformed)
        }
    }
}

impl FromRow for McpServicePrincipalRecord {
    open spec fn row_spec(row: Row) -> Result<McpServicePrincipalRecord, Fault> {
        McpServicePrincipalRecord::of_row(row)
    }

    fn from_row(row: &Row) -> (r: Result<McpServicePrincipalRecord, Fault>) {
        proof {
            reveal(McpServicePrincipalRecord::of_row);
        }
        let tenant_id: Uuid = match row.get("tenant_id") {
            Some(v) => v,
            None => return Err(Fault::Malformed),
        };
        let service_id: Uuid = match row.get("id") {
            Some(v) => v,
            None => return Err(Fault::Malformed),
        };
        let principal_id: Uuid = match row.get("principal_id") {
            Some(v) => v,
            None => return Err(Fault::Malformed),
        };
        let display_name: String = match row.get("display_name") {
            Some(v) => v,
            None => return Err(Fault::Malformed),
        };
        let spiffe_uri: String = match row.get("spiffe_uri") {
            Some(v) => v,
            None => return Err(Fault::Malformed),
        };
        let status: String = match row.get("status") {
            Some(v) => v,
            None => return Err(Fault::Malformed),
        };
        let revocation_generation: i64 = match row.get("revocation_generation") {
            Some(v) => v,
            None => return Err(Fault::Malformed),
        };
        let created_at: String = match row.get("created_at_text") {
            Some(v) => v,
            None => return Err(Fault::Malformed),
        };
        let updated_at: String = match row.get("updated_at_text") {
            Some(v) => v,
            None => return Err(Fault::Malformed),
        };
        Ok(McpServicePrincipalRecord {
            tenant_id, service_id, principal_id, display_name, spiffe_uri, status,
            revocation_generation, created_at, updated_at,
        })
    }
}

#[derive(Debug)]
pub struct NewMcpServiceGrant<'a> {
    pub tenant_id: Uuid,
    pub id: Uuid,
    pub service_id: Uuid,
    pub expected_service_generation: i64,
    pub registration_id: Uuid,
    pub capability_fingerprint: &'a [u8; 32],
    pub primitive: &'a str,
    pub capability_name: &'a str,
    pub constraints: &'a Json,
    pub application_id: &'a str,
    pub quota: &'a Json,
    pub data_grant_ids: &'a [Uuid],
    pub max_invocations_per_hour: i32,
    pub created_by: Uuid,
    pub lifetime_seconds: i64,
}

impl<'a> NewMcpServiceGrant<'a> {
    /// Whether the grant can be stored.
    pub open spec fn is_valid(&self) -> bool {
        &&& 1 <= self.lifetime_seconds <= MAX_GRANT_SECONDS
        &&& crate::mcp::invocation::is_primitive(self.primitive@)
        &&& *self.constraints is Object
        &&& *self.quota is Object
        &&& 1 <= self.max_invocations_per_hour <= 600
        &&& self.data_grant_ids@.len() <= 64
    }

    /// Whether the grant can be stored.
    pub fn valid(&self) -> (r: bool)
        ensures
            r == self.is_valid(),
    {
        1 <= self.lifetime_seconds && self.lifetime_seconds <= MAX_GRANT_SECONDS && known_primitive(
            self.primitive,
        ) && self.constraints.is_object() && self.quota.is_object() && 1
            <= self.max_invocations_per_hour && self.max_invocations_per_hour <= 600
            && self.data_grant_ids.len() <= 64
    }
}

/// Whether a text is a SPIFFE identifier: it has the scheme, is not too long, and has no white
/// space.
pub open spec fn is_spiffe_uri(value: Seq<char>) -> bool {
    &&& crate::text::begins(value, "spiffe://"@)
    &&& crate::text::is_sized(value, 0, 2048)
    &&& !crate::text::has_white_space(value)
}

/// Whether a text is a SPIFFE identifier.
pub fn valid_spiffe_uri(value: &str) -> (r: bool)
    ensures
        r == is_spiffe_uri(value@),
{
    begins_with(value, "spiffe://") && sized(value, 0, 2048) && !any_white_space(value)
}

/// Whether a subject is of a kind that templates are assigned to.
pub open spec fn is_subject_kind(kind: Seq<char>) -> bool {
    kind == "user"@ || kind == "group"@ || kind == "service"@
}

/// Whether a subject is of a kind that templates are assigned to.
pub fn known_subject_kind(kind: &str) -> (r: bool)
    ensures
        r == is_subject_kind(kind@),
{
    text_eq(kind, "user") || text_eq(kind, "group") || text_eq(kind, "service")
}

/// Whether a review says yes or no, under constraints that are an object.
pub open spec fn is_review(decision: Seq<char>, constraints: Json) -> bool {
    (decision == "approved"@ || decision == "denied"@) && constraints is Object
}

/// Whether a review says yes or no, under constraints that are an object.
pub fn valid_review(decision: &str, constraints: &Json) -> (r: bool)
    ensures
        r == is_review(decision@, *constraints),
{
    (text_eq(decision, "approved") || text_eq(decision, "denied")) && constraints.is_object()
}

impl Database {

    /// What stops `mcp_create_managed_template`, in order.
    pub open spec fn mcp_create_managed_template_fault<'a>(
        input: &'a NewMcpManagedTemplate<'a>,
        log: Seq<Reply>,
    ) -> Option<Fault> {
        if !input.is_valid() {
            Some(Fault::Error(DatabaseError::InvalidPersistedValue))
        } else if log.len() > 0 && log[0].single_row::<McpManagedTemplateRecord>() is Err {
            Fault::of(log[0].single_row::<McpManagedTemplateRecord>())
        } else {
            None
        }
    }

    /// The commands of `mcp_create_managed_template`, in order.
    pub open spec fn mcp_create_managed_template_script<'a>(
        input: &'a NewMcpManagedTemplate<'a>,
        log: Seq<Reply>,
    ) -> Seq<CommandView<'a>> {
        seq![
            CommandView::one(
                sql::CREATE_MANAGED_TEMPLATE,
                seq![
                    Param::Id(input.tenant_id), Param::Id(input.id),
                    Param::Text(input.display_name), Param::Text(input.description),
                    Param::Text(input.transport), Param::OptText(input.endpoint_uri),
                    Param::OptText(input.trust_profile), Param::OptText(input.catalog_entry),
                    Param::Json(input.policy), Param::Id(input.created_by),
                ],
            ),
        ]
    }

    /// What `mcp_create_managed_template` returns.
    pub open spec fn mcp_create_managed_template_output(
        log: Seq<Reply>,
    ) -> McpManagedTemplateRecord {
        let template = log[0].single_row::<McpManagedTemplateRecord>()->Ok_0;
        template
    }

    /// Stores a template.
    pub fn mcp_create_managed_template<'a>(
        input: &'a NewMcpManagedTemplate<'a>,
        log: &'a [Reply],
    ) -> (step: Step<'a, McpManagedTemplateRecord>)
        ensures
            step@ == StepView::proceed(
                Self::mcp_create_managed_template_fault(input, log@),
                Self::mcp_create_managed_template_script(input, log@),
                Self::mcp_create_managed_template_output(log@),
                log@,
            ),
    {
        if !input.valid() {
            return Step::Fail(DatabaseError::InvalidPersistedValue);
        }
        if log.len() == 0 {
            return ask_one(
                sql::CREATE_MANAGED_TEMPLATE,
                vec![
                    Param::Id(input.tenant_id), Param::Id(input.id),
                    Param::Text(input.display_name), Param::Text(input.description),
                    Param::Text(input.transport), Param::OptText(input.endpoint_uri),
                    Param::OptText(input.trust_profile), Param::OptText(input.catalog_entry),
                    Param::Json(input.policy), Param::Id(input.created_by),
                ],
            );
        }
        let template: McpManagedTemplateRecord = match single::<McpManagedTemplateRecord>(&log[0]) {
            Ok(value) => value,
            Err(fault) => return stop(fault),
        };
        Step::Done(template)
    }

    /// Every statement of `mcp_create_managed_template` is about its tenant.
    pub proof fn mcp_create_managed_template_is_scoped<'a>(
        input: &'a NewMcpManagedTemplate<'a>,
        log: Seq<Reply>,
    )
        ensures
            crate::step::is_scoped(
                Self::mcp_create_managed_template_script(input, log),
                input.tenant_id,
            ),
    {
    }

    /// What stops `mcp_managed_templates`, in order.
    pub open spec fn mcp_managed_templates_fault(log: Seq<Reply>) -> Option<Fault> {
        if log.len() > 0 && log[0].all_rows::<McpManagedTemplateRecord>() is Err {
            Fault::of(log[0].all_rows::<McpManagedTemplateRecord>())
        } else {
            None
        }
    }

    /// The commands of `mcp_managed_templates`, in order.
    pub open spec fn mcp_managed_templates_script<'a>(
        tenant_id: Uuid,
        log: Seq<Reply>,
    ) -> Seq<CommandView<'a>> {
        seq![CommandView::all(sql::MANAGED_TEMPLATES, seq![Param::Id(tenant_id)])]
    }

    /// What `mcp_managed_templates` returns.
    pub open spec fn mcp_managed_templates_output(
        log: Seq<Reply>,
    ) -> Seq<McpManagedTemplateRecord> {
        let templates = log[0].all_rows::<McpManagedTemplateRecord>()->Ok_0;
        templates
    }

    /// A tenant's templates.
    pub fn mcp_managed_templates<'a>(
        tenant_id: Uuid,
        log: &'a [Reply],
    ) -> (step: Step<'a, Vec<McpManagedTemplateRecord>>)
        ensures
            step.list() == StepView::proceed(
                Self::mcp_managed_templates_fault(log@),
                Self::mcp_managed_templates_script(tenant_id, log@),
                Self::mcp_managed_templates_output(log@),
                log@,
            ),
    {
        if log.len() == 0 {
            return ask_all(sql::MANAGED_TEMPLATES, vec![Param::Id(tenant_id)]);
        }
        let templates: Vec<McpManagedTemplateRecord> = match many(&log[0]) {
            Ok(value) => value,
            Err(fault) => return stop_list(fault),
        };
        Step::Done(templates)
    }

    /// Every statement of `mcp_managed_templates` is about its tenant.
    pub proof fn mcp_managed_templates_is_scoped(tenant_id: Uuid, log: Seq<Reply>)
        ensures
            crate::step::is_scoped(Self::mcp_managed_templates_script(tenant_id, log), tenant_id),
    {
    }

    /// What stops `mcp_assign_template`, in order.
    pub open spec fn mcp_assign_template_fault<'a>(
        subject_kind: &'a str,
        log: Seq<Reply>,
    ) -> Option<Fault> {
        if !is_subject_kind(subject_kind@) {
            Some(Fault::Error(DatabaseError::InvalidPersistedValue))
        } else {
            None
        }
    }

    /// The commands of `mcp_assign_template`, in order.
    pub open spec fn mcp_assign_template_script<'a>(
        tenant_id: Uuid, template_id: Uuid, subject_principal_id: Uuid, subject_kind: &'a str,
        created_by: Uuid, log: Seq<Reply>,
    ) -> Seq<CommandView<'a>> {
        seq![
            CommandView::execute(
                sql::ASSIGN_TEMPLATE_2,
                seq![
                    Param::Id(tenant_id), Param::Id(template_id),
                    Param::Id(subject_principal_id), Param::Text(subject_kind),
                    Param::Id(created_by),
                ],
            ),
        ]
    }

    /// Assigns a template to a principal.
    pub fn mcp_assign_template<'a>(
        tenant_id: Uuid, template_id: Uuid, subject_principal_id: Uuid, subject_kind: &'a str,
        created_by: Uuid, log: &'a [Reply],
    ) -> (step: Step<'a, ()>)
        ensures
            step@ == StepView::proceed(
                Self::mcp_assign_template_fault(subject_kind, log@),
                Self::mcp_assign_template_script(
                    tenant_id, template_id, subject_principal_id, subject_kind, created_by,
                    log@,
                ),
                (),
                log@,
            ),
    {
        if !known_subject_kind(subject_kind) {
            return Step::Fail(DatabaseError::InvalidPersistedValue);
        }
        if log.len() == 0 {
            return ask_execute(
                sql::ASSIGN_TEMPLATE_2,
                vec![
                    Param::Id(tenant_id), Param::Id(template_id),
                    Param::Id(subject_principal_id), Param::Text(subject_kind),
                    Param::Id(created_by),
                ],
            );
        }
        Step::Done(())
    }

    /// Every statement of `mcp_assign_template` is about its tenant.
    pub proof fn mcp_assign_template_is_scoped<'a>(
        tenant_id: Uuid, template_id: Uuid, subject_principal_id: Uuid, subject_kind: &'a str,
        created_by: Uuid, log: Seq<Reply>,
    )
        ensures
            crate::step::is_scoped(
                Self::mcp_assign_template_script(
                    tenant_id, template_id, subject_principal_id, subject_kind, created_by, log,
                ),
                tenant_id,
            ),
    {
    }

    /// What stops `mcp_create_service_principal`, in order.
    pub open spec fn mcp_create_service_principal_fault<'a>(
        input: &'a NewMcpServicePrincipal<'a>,
        log: Seq<Reply>,
    ) -> Option<Fault> {
        if !input.is_valid() {
            Some(Fault::Error(DatabaseError::InvalidPersistedValue))
        } else if log.len() > 4 && log[4].single_row::<McpServicePrincipalRecord>() is Err {
            Fault::of(log[4].single_row::<McpServicePrincipalRecord>())
        } else {
            None
        }
    }

    /// The commands of `mcp_create_service_principal`, in order.
    pub open spec fn mcp_create_service_principal_script<'a>(
        input: &'a NewMcpServicePrincipal<'a>,
        log: Seq<Reply>,
    ) -> Seq<CommandView<'a>> {
        seq![
            CommandView::Begin,
            CommandView::execute(
                sql::CREATE_SERVICE_PRINCIPAL_INSERT_PRINCIPALS,
                seq![Param::Id(input.tenant_id), Param::Id(input.principal_id)],
            ),
            CommandView::execute(
                sql::CREATE_SERVICE_PRINCIPAL_INSERT_SERVICE_PRINCIPALS,
                seq![
                    Param::Id(input.tenant_id), Param::Id(input.service_id),
                    Param::Id(input.principal_id), Param::Text(input.display_name),
                    Param::Id(input.created_by),
                ],
            ),
            CommandView::execute(
                sql::CREATE_SERVICE_PRINCIPAL_INSERT_SERVICE_IDENTITY_BINDINGS,
                seq![
                    Param::Id(input.tenant_id), Param::Id(input.identity_binding_id),
                    Param::Id(input.service_id), Param::Text(input.spiffe_uri),
                ],
            ),
            CommandView::one(
                sql::SERVICE_ROW,
                seq![Param::Id(input.tenant_id), Param::Id(input.service_id)],
            ),
            CommandView::Commit,
        ]
    }

    /// What `mcp_create_service_principal` returns.
    pub open spec fn mcp_create_service_principal_output(
        log: Seq<Reply>,
    ) -> McpServicePrincipalRecord {
        let service = log[4].single_row::<McpServicePrincipalRecord>()->Ok_0;
        service
    }

    /// Stores a service with its principal and its identity.
    pub fn mcp_create_service_principal<'a>(
        input: &'a NewMcpServicePrincipal<'a>,
        log: &'a [Reply],
    ) -> (step: Step<'a, McpServicePrincipalRecord>)
        ensures
            step@ == StepView::proceed(
                Self::mcp_create_service_principal_fault(input, log@),
                Self::mcp_create_service_principal_script(input, log@),
                Self::mcp_create_service_principal_output(log@),
                log@,
            ),
    {
        if !input.valid() {
            return Step::Fail(DatabaseError::InvalidPersistedValue);
        }
        if log.len() == 0 {
            return Step::Ask(Command::Begin);
        }
        if log.len() <= 1 {
            return ask_execute(
                sql::CREATE_SERVICE_PRINCIPAL_INSERT_PRINCIPALS,
                vec![Param::Id(input.tenant_id), Param::Id(input.principal_id)],
            );
        }
        if log.len() <= 2 {
            return ask_execute(
                sql::CREATE_SERVICE_PRINCIPAL_INSERT_SERVICE_PRINCIPALS,
                vec![
                    Param::Id(input.tenant_id), Param::Id(input.service_id),
                    Param::Id(input.principal_id), Param::Text(input.display_name),
                    Param::Id(input.created_by),
                ],
            );
        }
        if log.len() <= 3 {
            return ask_execute(
                sql::CREATE_SERVICE_PRINCIPAL_INSERT_SERVICE_IDENTITY_BINDINGS,
                vec![
                    Param::Id(input.tenant_id), Param::Id(input.identity_binding_id),
                    Param::Id(input.service_id), Param::Text(input.spiffe_uri),
                ],
            );
        }
        if log.len() <= 4 {
            return ask_one(
                sql::SERVICE_ROW,
                vec![Param::Id(input.tenant_id), Param::Id(input.service_id)],
            );
        }
        let service: McpServicePrincipalRecord = match single(&log[4]) {
            Ok(value) => value,
            Err(fault) => return stop(fault),
        };
        if log.len() <= 5 {
            return Step::Ask(Command::Commit);
        }
        Step::Done(service)
    }

    /// `mcp_create_service_principal` runs in one transaction: it is done once its commit is
    /// acknowledged, and when it fails, nothing was committed.
    pub proof fn mcp_create_service_principal_is_atomic<'a>(
        input: &'a NewMcpServicePrincipal<'a>,
        log: Seq<Reply>,
    )
        ensures
            crate::step::is_atomic(Self::mcp_create_service_principal_script(input, log), 0),
            crate::step::commit_acknowledged(
                Self::mcp_create_service_principal_fault(input, log.drop_last()),
                Self::mcp_create_service_principal_script(input, log.drop_last()),
                log,
            ) ==> {
                &&& Self::mcp_create_service_principal_fault(input, log) is None
                &&& log.len() == Self::mcp_create_service_principal_script(input, log).len()
            },
    {
    }

    /// Every statement of `mcp_create_service_principal` is about its tenant.
    pub proof fn mcp_create_service_principal_is_scoped<'a>(
        input: &'a NewMcpServicePrincipal<'a>,
        log: Seq<Reply>,
    )
        ensures
            crate::step::is_scoped(
                Self::mcp_create_service_principal_script(input, log),
                input.tenant_id,
            ),
    {
    }

    /// What stops `mcp_bind_service_identity`, in order.
    pub open spec fn mcp_bind_service_identity_fault<'a>(
        spiffe_uri: &'a str,
        log: Seq<Reply>,
    ) -> Option<Fault> {
        if !is_spiffe_uri(spiffe_uri@) {
            Some(Fault::Error(DatabaseError::InvalidPersistedValue))
        } else {
            None
        }
    }

    /// The commands of `mcp_bind_service_identity`, in order.
    pub open spec fn mcp_bind_service_identity_script<'a>(
        tenant_id: Uuid, id: Uuid, service_id: Uuid, spiffe_uri: &'a str, log: Seq<Reply>,
    ) -> Seq<CommandView<'a>> {
        seq![
            CommandView::execute(
                sql::CREATE_SERVICE_PRINCIPAL_INSERT_SERVICE_IDENTITY_BINDINGS,
                seq![
                    Param::Id(tenant_id), Param::Id(id), Param::Id(service_id),
                    Param::Text(spiffe_uri),
                ],
            ),
        ]
    }

    /// Gives a service an identity.
    pub fn mcp_bind_service_identity<'a>(
        tenant_id: Uuid, id: Uuid, service_id: Uuid, spiffe_uri: &'a str, log: &'a [Reply],
    ) -> (step: Step<'a, ()>)
        ensures
            step@ == StepView::proceed(
                Self::mcp_bind_service_identity_fault(spiffe_uri, log@),
                Self::mcp_bind_service_identity_script(tenant_id, id, service_id, spiffe_uri, log@),
                (),
                log@,
            ),
    {
        if !valid_spiffe_uri(spiffe_uri) {
            return Step::Fail(DatabaseError::InvalidPersistedValue);
        }
        if log.len() == 0 {
            return ask_execute(
                sql::CREATE_SERVICE_PRINCIPAL_INSERT_SERVICE_IDENTITY_BINDINGS,
                vec![
                    Param::Id(tenant_id), Param::Id(id), Param::Id(service_id),
                    Param::Text(spiffe_uri),
                ],
            );
        }
        Step::Done(())
    }

    /// Every statement of `mcp_bind_service_identity` is about its tenant.
    pub proof fn mcp_bind_service_identity_is_scoped<'a>(
        tenant_id: Uuid, id: Uuid, service_id: Uuid, spiffe_uri: &'a str, log: Seq<Reply>,
    )
        ensures
            crate::step::is_scoped(
                Self::mcp_bind_service_identity_script(tenant_id, id, service_id, spiffe_uri, log),
                tenant_id,
            ),
    {
    }

    /// What stops `mcp_replace_service_identity`, in order.
    pub open spec fn mcp_replace_service_identity_fault<'a>(
        spiffe_uri: &'a str,
        log: Seq<Reply>,
    ) -> Option<Fault> {
        if !is_spiffe_uri(spiffe_uri@) {
            Some(Fault::Error(DatabaseError::InvalidPersistedValue))
        } else if log.len() > 3 && log[3].one_affected(DatabaseError::NotFound) is Err {
            Fault::of(log[3].one_affected(DatabaseError::NotFound))
        } else if log.len() > 4 && log[4].single_row::<McpServicePrincipalRecord>() is Err {
            Fault::of(log[4].single_row::<McpServicePrincipalRecord>())
        } else {
            None
        }
    }

    /// The commands of `mcp_replace_service_identity`, in order.
    pub open spec fn mcp_replace_service_identity_script<'a>(
        tenant_id: Uuid, service_id: Uuid, binding_id: Uuid, spiffe_uri: &'a str,
        log: Seq<Reply>,
    ) -> Seq<CommandView<'a>> {
        seq![
            CommandView::Begin,
            CommandView::execute(
                sql::UPDATE_SERVICE_PRINCIPAL_UPDATE_SERVICE_IDENTITY_BINDINGS,
                seq![Param::Id(tenant_id), Param::Id(service_id)],
            ),
            CommandView::execute(
                sql::CREATE_SERVICE_PRINCIPAL_INSERT_SERVICE_IDENTITY_BINDINGS,
                seq![
                    Param::Id(tenant_id), Param::Id(binding_id), Param::Id(service_id),
                    Param::Text(spiffe_uri),
                ],
            ),
            CommandView::execute(
                sql::UPDATE_SERVICE_PRINCIPAL_UPDATE_SERVICE_PRINCIPALS_2,
                seq![Param::Id(tenant_id), Param::Id(service_id)],
            ),
            CommandView::one(sql::SERVICE_ROW, seq![Param::Id(tenant_id), Param::Id(service_id)]),
            CommandView::Commit,
        ]
    }

    /// What `mcp_replace_service_identity` returns.
    pub open spec fn mcp_replace_service_identity_output(
        log: Seq<Reply>,
    ) -> McpServicePrincipalRecord {
        let service = log[4].single_row::<McpServicePrincipalRecord>()->Ok_0;
        service
    }

    /// Gives a service another identity in place of the one that it has.
    pub fn mcp_replace_service_identity<'a>(
        tenant_id: Uuid, service_id: Uuid, binding_id: Uuid, spiffe_uri: &'a str,
        log: &'a [Reply],
    ) -> (step: Step<'a, McpServicePrincipalRecord>)
        ensures
            step@ == StepView::proceed(
                Self::mcp_replace_service_identity_fault(spiffe_uri, log@),
                Self::mcp_replace_service_identity_script(
                    tenant_id, service_id, binding_id, spiffe_uri, log@,
                ),
                Self::mcp_replace_service_identity_output(log@),
                log@,
            ),
    {
        if !valid_spiffe_uri(spiffe_uri) {
            return Step::Fail(DatabaseError::InvalidPersistedValue);
        }
        if log.len() == 0 {
            return Step::Ask(Command::Begin);
        }
        if log.len() <= 1 {
            return ask_execute(
                sql::UPDATE_SERVICE_PRINCIPAL_UPDATE_SERVICE_IDENTITY_BINDINGS,
                vec![Param::Id(tenant_id), Param::Id(service_id)],
            );
        }
        if log.len() <= 2 {
            return ask_execute(
                sql::CREATE_SERVICE_PRINCIPAL_INSERT_SERVICE_IDENTITY_BINDINGS,
                vec![
                    Param::Id(tenant_id), Param::Id(binding_id), Param::Id(service_id),
                    Param::Text(spiffe_uri),
                ],
            );
        }
        if log.len() <= 3 {
            return ask_execute(
                sql::UPDATE_SERVICE_PRINCIPAL_UPDATE_SERVICE_PRINCIPALS_2,
                vec![Param::Id(tenant_id), Param::Id(service_id)],
            );
        }
        if let Err(fault) = exactly_one(&log[3], DatabaseError::NotFound) {
            return stop(fault);
        }
        if log.len() <= 4 {
            return ask_one(sql::SERVICE_ROW, vec![Param::Id(tenant_id), Param::Id(service_id)]);
        }
        let service: McpServicePrincipalRecord = match single(&log[4]) {
            Ok(value) => value,
            Err(fault) => return stop(fault),
        };
        if log.len() <= 5 {
            return Step::Ask(Command::Commit);
        }
        Step::Done(service)
    }

    /// `mcp_replace_service_identity` runs in one transaction: it is done once its commit is
    /// acknowledged, and when it fails, nothing was committed.
    pub proof fn mcp_replace_service_identity_is_atomic<'a>(
        tenant_id: Uuid, service_id: Uuid, binding_id: Uuid, spiffe_uri: &'a str,
        log: Seq<Reply>,
    )
        ensures
            crate::step::is_atomic(
                Self::mcp_replace_service_identity_script(
                    tenant_id, service_id, binding_id, spiffe_uri, log,
                ),
                0,
            ),
            crate::step::commit_acknowledged(
                Self::mcp_replace_service_identity_fault(spiffe_uri, log.drop_last()),
                Self::mcp_replace_service_identity_script(
                    tenant_id, service_id, binding_id, spiffe_uri, log.drop_last(),
                ),
                log,
            ) ==> {
                &&& Self::mcp_replace_service_identity_fault(spiffe_uri, log) is None
                &&& log.len() == Self::mcp_replace_service_identity_script(
                    tenant_id, service_id, binding_id, spiffe_uri, log,
                ).len()
            },
    {
    }

    /// Every statement of `mcp_replace_service_identity` is about its tenant.
    pub proof fn mcp_replace_service_identity_is_scoped<'a>(
        tenant_id: Uuid, service_id: Uuid, binding_id: Uuid, spiffe_uri: &'a str, log: Seq<Reply>,
    )
        ensures
            crate::step::is_scoped(
                Self::mcp_replace_service_identity_script(
                    tenant_id, service_id, binding_id, spiffe_uri, log,
                ),
                tenant_id,
            ),
    {
    }

    /// What stops `mcp_create_service_grant`, in order.
    pub open spec fn mcp_create_service_grant_fault<'a>(
        input: &'a NewMcpServiceGrant<'a>,
        log: Seq<Reply>,
    ) -> Option<Fault> {
        if !input.is_valid() {
            Some(Fault::Error(DatabaseError::InvalidPersistedValue))
        } else if log.len() > 1 && log[1].one_affected(DatabaseError::NotFound) is Err {
            Fault::of(log[1].one_affected(DatabaseError::NotFound))
        } else if log.len() > 2
            && Reply::each_affected_one(
                log, 2, (input.data_grant_ids@.len()) as int, DatabaseError::NotFound,
            ) is Err {
                Fault::of(
                    Reply::each_affected_one(
                        log, 2, (input.data_grant_ids@.len()) as int, DatabaseError::NotFound,
                    ),
                )
            } else {
                None
            }
    }

    /// The commands of `mcp_create_service_grant`, in order.
    pub open spec fn mcp_create_service_grant_script<'a>(
        input: &'a NewMcpServiceGrant<'a>,
        log: Seq<Reply>,
    ) -> Seq<CommandView<'a>> {
        seq![
            CommandView::Begin,
            CommandView::execute(
                sql::INSERT_SERVICE_GRANT_INSERT_SERVICE_INVOCATION_GRANTS,
                seq![
                    Param::Id(input.tenant_id), Param::Id(input.id),
                    Param::Id(input.service_id), Param::Id(input.registration_id),
                    Param::Digest(input.capability_fingerprint), Param::Text(input.primitive),
                    Param::Text(input.capability_name), Param::Json(input.constraints),
                    Param::Text(input.application_id), Param::Json(input.quota),
                    Param::I32(input.max_invocations_per_hour), Param::Id(input.created_by),
                    Param::I64(input.lifetime_seconds),
                    Param::I64(input.expected_service_generation),
                ],
            ),
        ].add(
            Seq::new(
                input.data_grant_ids@.len(),
                |j: int| CommandView::execute(
                    sql::INSERT_SERVICE_GRANT_INSERT_SERVICE_GRANT_DATA_GRANTS,
                    seq![
                        Param::Id(input.tenant_id), Param::Id(input.id),
                        Param::Id(input.data_grant_ids[j]), Param::Id(input.service_id),
                    ],
                ),
            ),
        ).add(seq![CommandView::Commit])
    }

    /// Lets a service invoke a capability, with the data grants that it may use.
    pub fn mcp_create_service_grant<'a>(
        input: &'a NewMcpServiceGrant<'a>,
        log: &'a [Reply],
    ) -> (step: Step<'a, ()>)
        ensures
            step@ == StepView::proceed(
                Self::mcp_create_service_grant_fault(input, log@),
                Self::mcp_create_service_grant_script(input, log@),
                (),
                log@,
            ),
    {
        if !input.valid() {
            return Step::Fail(DatabaseError::InvalidPersistedValue);
        }
        if log.len() == 0 {
            return Step::Ask(Command::Begin);
        }
        if log.len() <= 1 {
            return ask_execute(
                sql::INSERT_SERVICE_GRANT_INSERT_SERVICE_INVOCATION_GRANTS,
                vec![
                    Param::Id(input.tenant_id), Param::Id(input.id),
                    Param::Id(input.service_id), Param::Id(input.registration_id),
                    Param::Digest(input.capability_fingerprint), Param::Text(input.primitive),
                    Param::Text(input.capability_name), Param::Json(input.constraints),
                    Param::Text(input.application_id), Param::Json(input.quota),
                    Param::I32(input.max_invocations_per_hour), Param::Id(input.created_by),
                    Param::I64(input.lifetime_seconds),
                    Param::I64(input.expected_service_generation),
                ],
            );
        }
        if let Err(fault) = exactly_one(&log[1], DatabaseError::NotFound) {
            return stop(fault);
        }
        let items: usize = input.data_grant_ids.len();
        if let Err(fault) = each_exactly_one(log, 2, items, DatabaseError::NotFound) {
            return stop(fault);
        }
        if log.len() - 2 < items {
            let j: usize = log.len() - 2;
            return ask_execute(
                sql::INSERT_SERVICE_GRANT_INSERT_SERVICE_GRANT_DATA_GRANTS,
                vec![
                    Param::Id(input.tenant_id), Param::Id(input.id),
                    Param::Id(input.data_grant_ids[j]), Param::Id(input.service_id),
                ],
            );
        }
        let at: usize = 2 + items;
        if log.len() <= at {
            return Step::Ask(Command::Commit);
        }
        Step::Done(())
    }

    /// `mcp_create_service_grant` runs in one transaction: it is done once its commit is
    /// acknowledged, and when it fails, nothing was committed.
    pub proof fn mcp_create_service_grant_is_atomic<'a>(
        input: &'a NewMcpServiceGrant<'a>,
        log: Seq<Reply>,
    )
        ensures
            crate::step::is_atomic(Self::mcp_create_service_grant_script(input, log), 0),
            crate::step::commit_acknowledged(
                Self::mcp_create_service_grant_fault(input, log.drop_last()),
                Self::mcp_create_service_grant_script(input, log.drop_last()),
                log,
            ) ==> {
                &&& Self::mcp_create_service_grant_fault(input, log) is None
                &&& log.len() == Self::mcp_create_service_grant_script(input, log).len()
            },
    {
        crate::row::lemma_each_affected_one_settled(log);
    }

    /// Every statement of `mcp_create_service_grant` is about its tenant.
    pub proof fn mcp_create_service_grant_is_scoped<'a>(
        input: &'a NewMcpServiceGrant<'a>,
        log: Seq<Reply>,
    )
        ensures
            crate::step::is_scoped(
                Self::mcp_create_service_grant_script(input, log),
                input.tenant_id,
            ),
    {
    }

    /// What stops `mcp_review_capability`, in order.
    pub open spec fn mcp_review_capability_fault<'a>(
        decision: &'a str, constraints: &'a Json, log: Seq<Reply>,
    ) -> Option<Fault> {
        if !is_review(decision@, *constraints) {
            Some(Fault::Error(DatabaseError::InvalidPersistedValue))
        } else if log.len() > 0 && log[0].one_affected(DatabaseError::StaleGeneration) is Err {
            Fault::of(log[0].one_affected(DatabaseError::StaleGeneration))
        } else {
            None
        }
    }

    /// The commands of `mcp_review_capability`, in order.
    pub open spec fn mcp_review_capability_script<'a>(
        tenant_id: Uuid, registration_id: Uuid, snapshot_id: Uuid, fingerprint: &'a [u8; 32],
        reviewer_principal_id: Uuid, decision: &'a str, constraints: &'a Json, log: Seq<Reply>,
    ) -> Seq<CommandView<'a>> {
        seq![
            CommandView::execute(
                sql::REVIEW_CAPABILITY,
                seq![
                    Param::Id(tenant_id), Param::Id(registration_id), Param::Id(snapshot_id),
                    Param::Digest(fingerprint), Param::Id(reviewer_principal_id),
                    Param::Text(decision), Param::Json(constraints),
                ],
            ),
        ]
    }

    /// Reviews a capability of the current snapshot.
    pub fn mcp_review_capability<'a>(
        tenant_id: Uuid, registration_id: Uuid, snapshot_id: Uuid, fingerprint: &'a [u8; 32],
        reviewer_principal_id: Uuid, decision: &'a str, constraints: &'a Json, log: &'a [Reply],
    ) -> (step: Step<'a, ()>)
        ensures
            step@ == StepView::proceed(
                Self::mcp_review_capability_fault(decision, constraints, log@),
                Self::mcp_review_capability_script(
                    tenant_id, registration_id, snapshot_id, fingerprint, reviewer_principal_id,
                    decision, constraints, log@,
                ),
                (),
                log@,
            ),
    {
        if !valid_review(decision, constraints) {
            return Step::Fail(DatabaseError::InvalidPersistedValue);
        }
        if log.len() == 0 {
            return ask_execute(
                sql::REVIEW_CAPABILITY,
                vec![
                    Param::Id(tenant_id), Param::Id(registration_id), Param::Id(snapshot_id),
                    Param::Digest(fingerprint), Param::Id(reviewer_principal_id),
                    Param::Text(decision), Param::Json(constraints),
                ],
            );
        }
        if let Err(fault) = exactly_one(&log[0], DatabaseError::StaleGeneration) {
            return stop(fault);
        }
        Step::Done(())
    }

    /// Every statement of `mcp_review_capability` is about its tenant.
    pub proof fn mcp_review_capability_is_scoped<'a>(
        tenant_id: Uuid, registration_id: Uuid, snapshot_id: Uuid, fingerprint: &'a [u8; 32],
        reviewer_principal_id: Uuid, decision: &'a str, constraints: &'a Json, log: Seq<Reply>,
    )
        ensures
            crate::step::is_scoped(
                Self::mcp_review_capability_script(
                    tenant_id, registration_id, snapshot_id, fingerprint, reviewer_principal_id,
                    decision, constraints, log,
                ),
                tenant_id,
            ),
    {
    }

}

} // verus!
