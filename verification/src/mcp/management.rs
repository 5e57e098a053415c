//! Administration: snapshots, reviews, approvals, grants, templates, services and block rules.

use std::sync::Arc;

use vstd::prelude::*;

use crate::database::Database;
use crate::error::DatabaseError;
use crate::error::Fault;
use crate::id::Uuid;
use crate::json::Json;
use crate::mcp::invocation::known_primitive;
use crate::mcp::operations::McpManagedTemplateRecord;
use crate::mcp::operations::McpServicePrincipalRecord;
use crate::mcp::registration::McpRegistrationRecord;
use crate::row::FromRow;
use crate::row::Reply;
use crate::row::Row;
use crate::row::exactly_one;
use crate::row::many;
use crate::row::required;
use crate::row::single;
use crate::sql::mcp as sql;
use crate::step::Command;
use crate::step::CommandView;
use crate::step::Param;
use crate::step::Step;
use crate::step::StepView;
use crate::step::ask_all;
use crate::step::ask_execute;
use crate::step::ask_one;
use crate::step::ask_optional;
use crate::step::stop;
use crate::step::stop_list;
use crate::text::sized;
use crate::text::text_eq;

verus! {

#[derive(Debug)]
pub struct RegistrationConfigurationUpdate<'a> {
    pub tenant_id: Uuid,
    pub registration_id: Uuid,
    pub owner_principal_id: Uuid,
    pub expected_revision: i64,
    pub display_name: &'a str,
    pub description: &'a str,
    pub endpoint_uri: Option<&'a str>,
    pub trust_profile: Option<&'a str>,
    pub catalog_entry: Option<&'a str>,
    pub policy: &'a Json,
}

impl<'a> RegistrationConfigurationUpdate<'a> {
    /// Whether the configuration can be stored.
    pub open spec fn is_valid(&self) -> bool {
        &&& crate::text::is_sized(self.display_name@, 1, 255)
        &&& crate::text::is_sized(self.description@, 0, 1000)
        &&& *self.policy is Object
    }

    /// Whether the configuration can be stored.
    pub fn valid(&self) -> (r: bool)
        ensures
            r == self.is_valid(),
    {
        sized(self.display_name, 1, 255) && sized(self.description, 0, 1000)
            && self.policy.is_object()
    }
}

#[derive(Debug)]
pub struct TemplateConfigurationUpdate<'a> {
    pub tenant_id: Uuid,
    pub template_id: Uuid,
    pub expected_revision: i64,
    pub display_name: &'a str,
    pub description: &'a str,
    pub endpoint_uri: Option<&'a str>,
    pub trust_profile: Option<&'a str>,
    pub catalog_entry: Option<&'a str>,
    pub policy: &'a Json,
    pub enabled: bool,
}

impl<'a> TemplateConfigurationUpdate<'a> {
    /// Whether the configuration can be stored.
    pub open spec fn is_valid(&self) -> bool {
        &&& self.display_name@.len() > 0
        &&& crate::text::is_sized(self.description@, 0, 1000)
        &&& *self.policy is Object
    }

    /// Whether the configuration can be stored.
    pub fn valid(&self) -> (r: bool)
        ensures
            r == self.is_valid(),
    {
        !self.display_name.is_empty() && sized(self.description, 0, 1000)
            && self.policy.is_object()
    }
}

/// What was discovered of a registration.
#[derive(Debug)]
pub struct McpCapabilitySnapshotRecord {
    pub id: Uuid,
    pub registration_id: Uuid,
    pub credential_generation: i64,
    pub fingerprint: Arc<Vec<u8>>,
    pub protocol_version: String,
    pub document: Arc<Json>,
    pub discovered_at: String,
}

/// What a [`McpCapabilitySnapshotRecord`] holds.
#[verifier::ext_equal]
pub struct McpCapabilitySnapshotRecordView {
    pub id: Uuid,
    pub registration_id: Uuid,
    pub credential_generation: i64,
    pub fingerprint: Seq<u8>,
    pub protocol_version: Seq<char>,
    pub document: Arc<Json>,
    pub discovered_at: Seq<char>,
}

impl View for McpCapabilitySnapshotRecord {
    type V = McpCapabilitySnapshotRecordView;

    open spec fn view(&self) -> McpCapabilitySnapshotRecordView {
        McpCapabilitySnapshotRecordView {
            id: self.id,
            registration_id: self.registration_id,
            credential_generation: self.credential_generation,
            fingerprint: self.fingerprint@,
            protocol_version: self.protocol_version@,
            document: self.document,
            discovered_at: self.discovered_at@,
        }
    }
}

impl McpCapabilitySnapshotRecord {
    /// What a row holds, read by its column names.
    #[verifier::opaque]
    pub open spec fn of_row(row: Row) -> Result<McpCapabilitySnapshotRecord, Fault> {
        if row.column::<Uuid>("id"@) is Some
            && row.column::<Uuid>("registration_id"@) is Some
            && row.column::<i64>("credential_generation"@) is Some
            && row.column::<Arc<Vec<u8>>>("fingerprint"@) is Some
            && row.column::<String>("protocol_version"@) is Some
            && row.column::<Arc<Json>>("document"@) is Some
            && row.column::<String>("discovered_at"@) is Some {
            Ok(
                McpCapabilitySnapshotRecord {
                    id: row.column::<Uuid>("id"@)->0,
                    registration_id: row.column::<Uuid>("registration_id"@)->0,
                    credential_generation: row.column::<i64>("credential_generation"@)->0,
                    fingerprint: row.column::<Arc<Vec<u8>>>("fingerprint"@)->0,
                    protocol_version: row.column::<String>("protocol_version"@)->0,
                    document: row.column::<Arc<Json>>("document"@)->0,
                    discovered_at: row.column::<String>("discovered_at"@)->0,
                },
            )
        } else {
            Err(Fault::Malformed)
        }
    }
}

impl FromRow for McpCapabilitySnapshotRecord {
    open spec fn row_spec(row: Row) -> Result<McpCapabilitySnapshotRecord, Fault> {
        McpCapabilitySnapshotRecord::of_row(row)
    }

    fn from_row(row: &Row) -> (r: Result<McpCapabilitySnapshotRecord, Fault>) {
        proof {
            reveal(McpCapabilitySnapshotRecord::of_row);
        }
        let id: Uuid = match row.get("id") {
            Some(v) => v,
            None => return Err(Fault::Malformed),
        };
        let registration_id: Uuid = match row.get("registration_id") {
            Some(v) => v,
            None => return Err(Fault::Malformed),
        };
        let credential_generation: i64 = match row.get("credential_generation") {
            Some(v) => v,
            None => return Err(Fault::Malformed),
        };
        let fingerprint: Arc<Vec<u8>> = match row.get("fingerprint") {
            Some(v) => v,
            None => return Err(Fault::Malformed),
        };
        let protocol_version: String = match row.get("protocol_version") {
            Some(v) => v,
            None => return Err(Fault::Malformed),
        };
        let document: Arc<Json> = match row.get("document") {
            Some(v) => v,
            None => return Err(Fault::Malformed),
        };
        let discovered_at: String = match row.get("discovered_at") {
            Some(v) => v,
            None => return Err(Fault::Malformed),
        };
        Ok(McpCapabilitySnapshotRecord { 
            id, registration_id, credential_generation, fingerprint, protocol_version, document,
            discovered_at,
         })
    }
}

/// A discovered capability.
#[derive(Debug)]
pub struct McpCapabilityRecord {
    pub primitive: String,
    pub name: String,
    pub fingerprint: Arc<Vec<u8>>,
    pub read_only_hint: Option<bool>,
    pub descriptor: Arc<Json>,
}

impl McpCapabilityRecord {
    /// What a row holds, read by its column names.
    #[verifier::opaque]
    pub open spec fn of_row(row: Row) -> Result<McpCapabilityRecord, Fault> {
        if row.column::<String>("primitive"@) is Some
            && row.column::<String>("name"@) is Some
            && row.column::<Arc<Vec<u8>>>("fingerprint"@) is Some
            && row.column::<Option<bool>>("read_only_hint"@) is Some
            && row.column::<Arc<Json>>("descriptor"@) is Some {
            Ok(
                McpCapabilityRecord {
                    primitive: row.column::<String>("primitive"@)->0,
                    name: row.column::<String>("name"@)->0,
                    fingerprint: row.column::<Arc<Vec<u8>>>("fingerprint"@)->0,
                    read_only_hint: row.column::<Option<bool>>("read_only_hint"@)->0,
                    descriptor: row.column::<Arc<Json>>("descriptor"@)->0,
                },
            )
        } else {
            Err(Fault::Malformed)
        }
    }
}

impl FromRow for McpCapabilityRecord {
    open spec fn row_spec(row: Row) -> Result<McpCapabilityRecord, Fault> {
        McpCapabilityRecord::of_row(row)
    }

    fn from_row(row: &Row) -> (r: Result<McpCapabilityRecord, Fault>) {
        proof {
            reveal(McpCapabilityRecord::of_row);
        }
        let primitive: String = match row.get("primitive") {
            Some(v) => v,
            None => return Err(Fault::Malformed),
        };
        let name: String = match row.get("name") {
            Some(v) => v,
            None => return Err(Fault::Malformed),
        };
        let fingerprint: Arc<Vec<u8>> = match row.get("fingerprint") {
            Some(v) => v,
            None => return Err(Fault::Malformed),
        };
        let read_only_hint: Option<bool> = match row.get("read_only_hint") {
            Some(v) => v,
            None => return Err(Fault::Malformed),
        };
        let descriptor: Arc<Json> = match row.get("descriptor") {
            Some(v) => v,
            None => return Err(Fault::Malformed),
        };
        Ok(McpCapabilityRecord { primitive, name, fingerprint, read_only_hint, descriptor })
    }
}

/// The review of a capability.
#[derive(Debug)]
pub struct McpCapabilityReviewRecord {
    pub snapshot_id: Uuid,
    pub capability_fingerprint: Arc<Vec<u8>>,
    pub reviewer_principal_id: Uuid,
    pub decision: String,
    pub constraints: Arc<Json>,
    pub reviewed_at: String,
    pub revoked: bool,
}

impl McpCapabilityReviewRecord {
    /// What a row holds, read by its column names.
    #[verifier::opaque]
    pub open spec fn of_row(row: Row) -> Result<McpCapabilityReviewRecord, Fault> {
        if row.column::<Uuid>("snapshot_id"@) is Some
            && row.column::<Arc<Vec<u8>>>("capability_fingerprint"@) is Some
            && row.column::<Uuid>("reviewer_principal_id"@) is Some
            && row.column::<String>("decision"@) is Some
            && row.column::<Arc<Json>>("constraints"@) is Some
            && row.column::<String>("reviewed_at"@) is Some
            && row.column::<bool>("revoked"@) is Some {
            Ok(
                McpCapabilityReviewRecord {
                    snapshot_id: row.column::<Uuid>("snapshot_id"@)->0,
                    capability_fingerprint: row.column::<Arc<Vec<u8>>>(
                        "capability_fingerprint"@,
                    )->0,
                    reviewer_principal_id: row.column::<Uuid>("reviewer_principal_id"@)->0,
                    decision: row.column::<String>("decision"@)->0,
                    constraints: row.column::<Arc<Json>>("constraints"@)->0,
                    reviewed_at: row.column::<String>("reviewed_at"@)->0,
                    revoked: row.column::<bool>("revoked"@)->0,
                },
            )
        } else {
            Err(Fault::Malformed)
        }
    }
}

impl FromRow for McpCapabilityReviewRecord {
    open spec fn row_spec(row: Row) -> Result<McpCapabilityReviewRecord, Fault> {
        McpCapabilityReviewRecord::of_row(row)
    }

    fn from_row(row: &Row) -> (r: Result<McpCapabilityReviewRecord, Fault>) {
        proof {
            reveal(McpCapabilityReviewRecord::of_row);
        }
        let snapshot_id: Uuid = match row.get("snapshot_id") {
            Some(v) => v,
            None => return Err(Fault::Malformed),
        };
        let capability_fingerprint: Arc<Vec<u8>> = match row.get("capability_fingerprint") {
            Some(v) => v,
            None => return Err(Fault::Malformed),
        };
        let reviewer_principal_id: Uuid = match row.get("reviewer_principal_id") {
            Some(v) => v,
            None => return Err(Fault::Malformed),
        };
        let decision: String = match row.get("decision") {
            Some(v) => v,
            None => return Err(Fault::Malformed),
        };
        let constraints: Arc<Json> = match row.get("constraints") {
            Some(v) => v,
            None => return Err(Fault::Malformed),
        };
        let reviewed_at: String = match row.get("reviewed_at") {
            Some(v) => v,
            None => return Err(Fault::Malformed),
        };
        let revoked: bool = match row.get("revoked") {
            Some(v) => v,
            None => return Err(Fault::Malformed),
        };
        Ok(McpCapabilityReviewRecord { 
            snapshot_id, capability_fingerprint, reviewer_principal_id, decision, constraints,
            reviewed_at, revoked,
         })
    }
}

/// An approval.
#[derive(Debug)]
pub struct McpApprovalRuleRecord {
    pub id: Uuid,
    pub registration_id: Uuid,
    pub application_id: String,
    pub primitive: String,
    pub capability_name: String,
    pub capability_fingerprint: Arc<Vec<u8>>,
    pub argument_digest: Arc<Vec<u8>>,
    pub attachment_digest: Arc<Vec<u8>>,
    pub single_use: bool,
    pub consumed: bool,
    pub created_at: String,
    pub expires_at: String,
    pub revoked: bool,
}

impl McpApprovalRuleRecord {
    /// What a row holds, read by its column names.
    #[verifier::opaque]
    pub open spec fn of_row(row: Row) -> Result<McpApprovalRuleRecord, Fault> {
        if row.column::<Uuid>("id"@) is Some
            && row.column::<Uuid>("registration_id"@) is Some
            && row.column::<String>("application_id"@) is Some
            && row.column::<String>("primitive"@) is Some
            && row.column::<String>("capability_name"@) is Some
            && row.column::<Arc<Vec<u8>>>("capability_fingerprint"@) is Some
            && row.column::<Arc<Vec<u8>>>("argument_digest"@) is Some
            && row.column::<Arc<Vec<u8>>>("attachment_digest"@) is Some
            && row.column::<bool>("single_use"@) is Some
            && row.column::<bool>("consumed"@) is Some
            && row.column::<String>("created_at"@) is Some
            && row.column::<String>("expires_at"@) is Some
            && row.column::<bool>("revoked"@) is Some {
            Ok(
                McpApprovalRuleRecord {
                    id: row.column::<Uuid>("id"@)->0,
                    registration_id: row.column::<Uuid>("registration_id"@)->0,
                    application_id: row.column::<String>("application_id"@)->0,
                    primitive: row.column::<String>("primitive"@)->0,
                    capability_name: row.column::<String>("capability_name"@)->0,
                    capability_fingerprint: row.column::<Arc<Vec<u8>>>(
                        "capability_fingerprint"@,
                    )->0,
                    argument_digest: row.column::<Arc<Vec<u8>>>("argument_digest"@)->0,
                    attachment_digest: row.column::<Arc<Vec<u8>>>("attachment_digest"@)->0,
                    single_use: row.column::<bool>("single_use"@)->0,
                    consumed: row.column::<bool>("consumed"@)->0,
                    created_at: row.column::<String>("created_at"@)->0,
                    expires_at: row.column::<String>("expires_at"@)->0,
                    revoked: row.column::<bool>("revoked"@)->0,
                },
            )
        } else {
            Err(Fault::Malformed)
        }
    }
}

impl FromRow for McpApprovalRuleRecord {
    open spec fn row_spec(row: Row) -> Result<McpApprovalRuleRecord, Fault> {
        McpApprovalRuleRecord::of_row(row)
    }

    fn from_row(row: &Row) -> (r: Result<McpApprovalRuleRecord, Fault>) {
        proof {
            reveal(McpApprovalRuleRecord::of_row);
        }
        let id: Uuid = match row.get("id") {
            Some(v) => v,
            None => return Err(Fault::Malformed),
        };
        let registration_id: Uuid = match row.get("registration_id") {
            Some(v) => v,
            None => return Err(Fault::Malformed),
        };
        let application_id: String = match row.get("application_id") {
            Some(v) => v,
            None => return Err(Fault::Malformed),
        };
        let primitive: String = match row.get("primitive") {
            Some(v) => v,
            None => return Err(Fault::Malformed),
        };
        let capability_name: String = match row.get("capability_name") {
            Some(v) => v,
            None => return Err(Fault::Malformed),
        };
        let capability_fingerprint: Arc<Vec<u8>> = match row.get("capability_fingerprint") {
            Some(v) => v,
            None => return Err(Fault::Malformed),
        };
        let argument_digest: Arc<Vec<u8>> = match row.get("argument_digest") {
            Some(v) => v,
            None => return Err(Fault::Malformed),
        };
        let attachment_digest: Arc<Vec<u8>> = match row.get("attachment_digest") {
            Some(v) => v,
            None => return Err(Fault::Malformed),
        };
        let single_use: bool = match row.get("single_use") {
            Some(v) => v,
            None => return Err(Fault::Malformed),
        };
        let consumed: bool = match row.get("consumed") {
            Some(v) => v,
            None => return Err(Fault::Malformed),
        };
        let created_at: String = match row.get("created_at") {
            Some(v) => v,
            None => return Err(Fault::Malformed),
        };
        let expires_at: String = match row.get("expires_at") {
            Some(v) => v,
            None => return Err(Fault::Malformed),
        };
        let revoked: bool = match row.get("revoked") {
            Some(v) => v,
            None => return Err(Fault::Malformed),
        };
        Ok(McpApprovalRuleRecord {
            id, registration_id, application_id, primitive, capability_name,
            capability_fingerprint, argument_digest, attachment_digest, single_use, consumed,
            created_at, expires_at, revoked,
        })
    }
}

/// A grant of a file version.
#[derive(Debug)]
pub struct McpDataGrantRecord {
    pub id: Uuid,
    pub principal_id: Uuid,
    pub registration_id: Uuid,
    pub drive_id: Uuid,
    pub resource_id: Uuid,
    pub version_id: Uuid,
    pub allow_metadata: bool,
    pub allow_content: bool,
    pub acl_generation: i64,
    pub namespace_generation: i64,
    pub registration_generation: i64,
    pub created_at: String,
    pub expires_at: String,
    pub revoked: bool,
}

impl McpDataGrantRecord {
    /// What a row holds, read by its column names.
    #[verifier::opaque]
    pub open spec fn of_row(row: Row) -> Result<McpDataGrantRecord, Fault> {
        if row.column::<Uuid>("id"@) is Some
            && row.column::<Uuid>("principal_id"@) is Some
            && row.column::<Uuid>("registration_id"@) is Some
            && row.column::<Uuid>("drive_id"@) is Some
            && row.column::<Uuid>("resource_id"@) is Some
            && row.column::<Uuid>("version_id"@) is Some
            && row.column::<bool>("allow_metadata"@) is Some
            && row.column::<bool>("allow_content"@) is Some
            && row.column::<i64>("acl_generation"@) is Some
            && row.column::<i64>("namespace_generation"@) is Some
            && row.column::<i64>("registration_generation"@) is Some
            && row.column::<String>("created_at"@) is Some
            && row.column::<String>("expires_at"@) is Some
            && row.column::<bool>("revoked"@) is Some {
            Ok(
                McpDataGrantRecord {
                    id: row.column::<Uuid>("id"@)->0,
                    principal_id: row.column::<Uuid>("principal_id"@)->0,
                    registration_id: row.column::<Uuid>("registration_id"@)->0,
                    drive_id: row.column::<Uuid>("drive_id"@)->0,
                    resource_id: row.column::<Uuid>("resource_id"@)->0,
                    version_id: row.column::<Uuid>("version_id"@)->0,
                    allow_metadata: row.column::<bool>("allow_metadata"@)->0,
                    allow_content: row.column::<bool>("allow_content"@)->0,
                    acl_generation: row.column::<i64>("acl_generation"@)->0,
                    namespace_generation: row.column::<i64>("namespace_generation"@)->0,
                    registration_generation: row.column::<i64>("registration_generation"@)->0,
                    created_at: row.column::<String>("created_at"@)->0,
                    expires_at: row.column::<String>("expires_at"@)->0,
                    revoked: row.column::<bool>("revoked"@)->0,
                },
            )
        } else {
            Err(Fault::Malformed)
        }
    }
}

impl FromRow for McpDataGrantRecord {
    open spec fn row_spec(row: Row) -> Result<McpDataGrantRecord, Fault> {
        McpDataGrantRecord::of_row(row)
    }

    fn from_row(row: &Row) -> (r: Result<McpDataGrantRecord, Fault>) {
        proof {
            reveal(McpDataGrantRecord::of_row);
        }
        let id: Uuid = match row.get("id") {
            Some(v) => v,
            None => return Err(Fault::Malformed),
        };
        let principal_id: Uuid = match row.get("principal_id") {
            Some(v) => v,
            None => return Err(Fault::Malformed),
        };
        let registration_id: Uuid = match row.get("registration_id") {
            Some(v) => v,
            None => return Err(Fault::Malformed),
        };
        let drive_id: Uuid = match row.get("drive_id") {
            Some(v) => v,
            None => return Err(Fault::Malformed),
        };
        let resource_id: Uuid = match row.get("resource_id") {
            Some(v) => v,
            None => return Err(Fault::Malformed),
        };
        let version_id: Uuid = match row.get("version_id") {
            Some(v) => v,
            None => return Err(Fault::Malformed),
        };
        let allow_metadata: bool = match row.get("allow_metadata") {
            Some(v) => v,
            None => return Err(Fault::Malformed),
        };
        let allow_content: bool = match row.get("allow_content") {
            Some(v) => v,
            None => return Err(Fault::Malformed),
        };
        let acl_generation: i64 = match row.get("acl_generation") {
            Some(v) => v,
            None => return Err(Fault::Malformed),
        };
        let namespace_generation: i64 = match row.get("namespace_generation") {
            Some(v) => v,
            None => return Err(Fault::Malformed),
        };
        let registration_generation: i64 = match row.get("registration_generation") {
            Some(v) => v,
            None => return Err(Fault::Malformed),
        };
        let created_at: String = match row.get("created_at") {
            Some(v) => v,
            None => return Err(Fault::Malformed),
        };
        let expires_at: String = match row.get("expires_at") {
            Some(v) => v,
            None => return Err(Fault::Malformed),
        };
        let revoked: bool = match row.get("revoked") {
            Some(v) => v,
            None => return Err(Fault::Malformed),
        };
        Ok(McpDataGrantRecord {
            id, principal_id, registration_id, drive_id, resource_id, version_id,
            allow_metadata, allow_content, acl_generation, namespace_generation,
            registration_generation, created_at, expires_at, revoked,
        })
    }
}

/// What a service may invoke.
#[derive(Debug)]
pub struct McpServiceGrantRecord {
    pub id: Uuid,
    pub service_id: Uuid,
    pub registration_id: Uuid,
    pub capability_fingerprint: Arc<Vec<u8>>,
    pub primitive: String,
    pub capability_name: String,
    pub constraints: Arc<Json>,
    pub application_id: String,
    pub quota: Arc<Json>,
    pub data_grant_ids: Arc<Vec<Uuid>>,
    pub max_invocations_per_hour: i32,
    pub created_at: String,
    pub expires_at: String,
    pub revoked: bool,
}

impl McpServiceGrantRecord {
    /// What a row holds, read by its column names.
    #[verifier::opaque]
    pub open spec fn of_row(row: Row) -> Result<McpServiceGrantRecord, Fault> {
        if row.column::<Uuid>("id"@) is Some
            && row.column::<Uuid>("service_id"@) is Some
            && row.column::<Uuid>("registration_id"@) is Some
            && row.column::<Arc<Vec<u8>>>("capability_fingerprint"@) is Some
            && row.column::<String>("primitive"@) is Some
            && row.column::<String>("capability_name"@) is Some
            && row.column::<Arc<Json>>("constraints"@) is Some
            && row.column::<String>("application_id"@) is Some
            && row.column::<Arc<Json>>("quota"@) is Some
            && row.column::<Arc<Vec<Uuid>>>("data_grant_ids"@) is Some
            && row.column::<i32>("max_invocations_per_hour"@) is Some
            && row.column::<String>("created_at"@) is Some
            && row.column::<String>("expires_at"@) is Some
            && row.column::<bool>("revoked"@) is Some {
            Ok(
                McpServiceGrantRecord {
                    id: row.column::<Uuid>("id"@)->0,
                    service_id: row.column::<Uuid>("service_id"@)->0,
                    registration_id: row.column::<Uuid>("registration_id"@)->0,
                    capability_fingerprint: row.column::<Arc<Vec<u8>>>(
                        "capability_fingerprint"@,
                    )->0,
                    primitive: row.column::<String>("primitive"@)->0,
                    capability_name: row.column::<String>("capability_name"@)->0,
                    constraints: row.column::<Arc<Json>>("constraints"@)->0,
                    application_id: row.column::<String>("application_id"@)->0,
                    quota: row.column::<Arc<Json>>("quota"@)->0,
                    data_grant_ids: row.column::<Arc<Vec<Uuid>>>("data_grant_ids"@)->0,
                    max_invocations_per_hour: row.column::<i32>("max_invocations_per_hour"@)->0,
                    created_at: row.column::<String>("created_at"@)->0,
                    expires_at: row.column::<String>("expires_at"@)->0,
                    revoked: row.column::<bool>("revoked"@)->0,
                },
            )
        } else {
            Err(Fault::Malformed)
        }
    }
}

impl FromRow for McpServiceGrantRecord {
    open spec fn row_spec(row: Row) -> Result<McpServiceGrantRecord, Fault> {
        McpServiceGrantRecord::of_row(row)
    }

    fn from_row(row: &Row) -> (r: Result<McpServiceGrantRecord, Fault>) {
        proof {
            reveal(McpServiceGrantRecord::of_row);
        }
        let id: Uuid = match row.get("id") {
            Some(v) => v,
            None => return Err(Fault::Malformed),
        };
        let service_id: Uuid = match row.get("service_id") {
            Some(v) => v,
            None => return Err(Fault::Malformed),
        };
        let registration_id: Uuid = match row.get("registration_id") {
            Some(v) => v,
            None => return Err(Fault::Malformed),
        };
        let capability_fingerprint: Arc<Vec<u8>> = match row.get("capability_fingerprint") {
            Some(v) => v,
            None => return Err(Fault::Malformed),
        };
        let primitive: String = match row.get("primitive") {
            Some(v) => v,
            None => return Err(Fault::Malformed),
        };
        let capability_name: String = match row.get("capability_name") {
            Some(v) => v,
            None => return Err(Fault::Malformed),
        };
        let constraints: Arc<Json> = match row.get("constraints") {
            Some(v) => v,
            None => return Err(Fault::Malformed),
        };
        let application_id: String = match row.get("application_id") {
            Some(v) => v,
            None => return Err(Fault::Malformed),
        };
        let quota: Arc<Json> = match row.get("quota") {
            Some(v) => v,
            None => return Err(Fault::Malformed),
        };
        let data_grant_ids: Arc<Vec<Uuid>> = match row.get("data_grant_ids") {
            Some(v) => v,
            None => return Err(Fault::Malformed),
        };
        let max_invocations_per_hour: i32 = match row.get("max_invocations_per_hour") {
            Some(v) => v,
            None => return Err(Fault::Malformed),
        };
        let created_at: String = match row.get("created_at") {
            Some(v) => v,
            None => return Err(Fault::Malformed),
        };
        let expires_at: String = match row.get("expires_at") {
            Some(v) => v,
            None => return Err(Fault::Malformed),
        };
        let revoked: bool = match row.get("revoked") {
            Some(v) => v,
            None => return Err(Fault::Malformed),
        };
        Ok(McpServiceGrantRecord {
            id, service_id, registration_id, capability_fingerprint, primitive, capability_name,
            constraints, application_id, quota, data_grant_ids, max_invocations_per_hour,
            created_at, expires_at, revoked,
        })
    }
}

/// A rule by which an administrator blocks invocations.
#[derive(Debug)]
pub struct McpAdminBlockRuleRecord {
    pub id: Uuid,
    pub scope: String,
    pub matcher: String,
    pub reason_code: String,
    pub enabled: bool,
    pub revision: i64,
    pub created_at: String,
    pub updated_at: String,
}

impl McpAdminBlockRuleRecord {
    /// What a row holds, read by its column names.
    #[verifier::opaque]
    pub open spec fn of_row(row: Row) -> Result<McpAdminBlockRuleRecord, Fault> {
        if row.column::<Uuid>("id"@) is Some
            && row.column::<String>("scope"@) is Some
            && row.column::<String>("matcher"@) is Some
            && row.column::<String>("reason_code"@) is Some
            && row.column::<bool>("enabled"@) is Some
            && row.column::<i64>("revision"@) is Some
            && row.column::<String>("created_at"@) is Some
            && row.column::<String>("updated_at"@) is Some {
            Ok(
                McpAdminBlockRuleRecord {
                    id: row.column::<Uuid>("id"@)->0,
                    scope: row.column::<String>("scope"@)->0,
                    matcher: row.column::<String>("matcher"@)->0,
                    reason_code: row.column::<String>("reason_code"@)->0,
                    enabled: row.column::<bool>("enabled"@)->0,
                    revision: row.column::<i64>("revision"@)->0,
                    created_at: row.column::<String>("created_at"@)->0,
                    updated_at: row.column::<String>("updated_at"@)->0,
                },
            )
        } else {
            Err(Fault::Malformed)
        }
    }
}

impl FromRow for McpAdminBlockRuleRecord {
    open spec fn row_spec(row: Row) -> Result<McpAdminBlockRuleRecord, Fault> {
        McpAdminBlockRuleRecord::of_row(row)
    }

    fn from_row(row: &Row) -> (r: Result<McpAdminBlockRuleRecord, Fault>) {
        proof {
            reveal(McpAdminBlockRuleRecord::of_row);
        }
        let id: Uuid = match row.get("id") {
            Some(v) => v,
            None => return Err(Fault::Malformed),
        };
        let scope: String = match row.get("scope") {
            Some(v) => v,
            None => return Err(Fault::Malformed),
        };
        let matcher: String = match row.get("matcher") {
            Some(v) => v,
            None => return Err(Fault::Malformed),
        };
        let reason_code: String = match row.get("reason_code") {
            Some(v) => v,
            None => return Err(Fault::Malformed),
        };
        let enabled: bool = match row.get("enabled") {
            Some(v) => v,
            None => return Err(Fault::Malformed),
        };
        let revision: i64 = match row.get("revision") {
            Some(v) => v,
            None => return Err(Fault::Malformed),
        };
        let created_at: String = match row.get("created_at") {
            Some(v) => v,
            None => return Err(Fault::Malformed),
        };
        let updated_at: String = match row.get("updated_at") {
            Some(v) => v,
            None => return Err(Fault::Malformed),
        };
        Ok(McpAdminBlockRuleRecord {
            id, scope, matcher, reason_code, enabled, revision, created_at, updated_at,
        })
    }
}

/// Whom a template is assigned to.
#[derive(Debug)]
pub struct McpTemplateAssignmentRecord {
    pub template_id: Uuid,
    pub principal_id: Uuid,
    pub principal_kind: String,
    pub created_at: String,
}

impl McpTemplateAssignmentRecord {
    /// What a row holds, read by its column names.
    #[verifier::opaque]
    pub open spec fn of_row(row: Row) -> Result<McpTemplateAssignmentRecord, Fault> {
        if row.column::<Uuid>("template_id"@) is Some
            && row.column::<Uuid>("principal_id"@) is Some
            && row.column::<String>("principal_kind"@) is Some
            && row.column::<String>("created_at"@) is Some {
            Ok(
                McpTemplateAssignmentRecord {
                    template_id: row.column::<Uuid>("template_id"@)->0,
                    principal_id: row.column::<Uuid>("principal_id"@)->0,
                    principal_kind: row.column::<String>("principal_kind"@)->0,
                    created_at: row.column::<String>("created_at"@)->0,
                },
            )
        } else {
            Err(Fault::Malformed)
        }
    }
}

impl FromRow for McpTemplateAssignmentRecord {
    open spec fn row_spec(row: Row) -> Result<McpTemplateAssignmentRecord, Fault> {
        McpTemplateAssignmentRecord::of_row(row)
    }

    fn from_row(row: &Row) -> (r: Result<McpTemplateAssignmentRecord, Fault>) {
        proof {
            reveal(McpTemplateAssignmentRecord::of_row);
        }
        let template_id: Uuid = match row.get("template_id") {
            Some(v) => v,
            None => return Err(Fault::Malformed),
        };
        let principal_id: Uuid = match row.get("principal_id") {
            Some(v) => v,
            None => return Err(Fault::Malformed),
        };
        let principal_kind: String = match row.get("principal_kind") {
            Some(v) => v,
            None => return Err(Fault::Malformed),
        };
        let created_at: String = match row.get("created_at") {
            Some(v) => v,
            None => return Err(Fault::Malformed),
        };
        Ok(McpTemplateAssignmentRecord { 
            template_id, principal_id, principal_kind, created_at,
         })
    }
}

/// A registration that has just been deleted.
#[derive(Clone, Copy, Debug, PartialEq, Eq, Structural)]
pub struct DeletedRegistration {
    pub owner_principal_id: Uuid,
    pub revocation_generation: i64,
}

impl DeletedRegistration {
    /// What a row holds, read by its column names.
    #[verifier::opaque]
    pub open spec fn of_row(row: Row) -> Result<DeletedRegistration, Fault> {
        if row.column::<Uuid>("owner_principal_id"@) is Some
            && row.column::<i64>("revocation_generation"@) is Some {
            Ok(
                DeletedRegistration {
                    owner_principal_id: row.column::<Uuid>("owner_principal_id"@)->0,
                    revocation_generation: row.column::<i64>("revocation_generation"@)->0,
                },
            )
        } else {
            Err(Fault::Malformed)
        }
    }
}

impl FromRow for DeletedRegistration {
    open spec fn row_spec(row: Row) -> Result<DeletedRegistration, Fault> {
        DeletedRegistration::of_row(row)
    }

    fn from_row(row: &Row) -> (r: Result<DeletedRegistration, Fault>) {
        proof {
            reveal(DeletedRegistration::of_row);
        }
        let owner_principal_id: Uuid = match row.get("owner_principal_id") {
            Some(v) => v,
            None => return Err(Fault::Malformed),
        };
        let revocation_generation: i64 = match row.get("revocation_generation") {
            Some(v) => v,
            None => return Err(Fault::Malformed),
        };
        Ok(DeletedRegistration { owner_principal_id, revocation_generation })
    }
}

/// The verdict on a block rule: it has a known scope, something to match and a reason.
pub open spec fn block_rule_verdict(
    scope: Seq<char>,
    matcher: Seq<char>,
    reason: Seq<char>,
) -> Result<(), DatabaseError> {
    if (scope == "origin"@ || scope == "trust_profile"@ || scope == "catalog_entry"@ || scope
        == "registration"@ || scope == "capability"@) && crate::text::is_sized(matcher, 1, 2048)
        && reason.len() > 0 {
        Ok(())
    } else {
        Err(DatabaseError::InvalidPersistedValue)
    }
}

/// Refuses a block rule that cannot be stored.
pub fn validate_block_rule(
    scope: &str,
    matcher: &str,
    reason: &str,
) -> (r: Result<(), DatabaseError>)
    ensures
        r == block_rule_verdict(scope@, matcher@, reason@),
{
    let known: bool = text_eq(scope, "origin") || text_eq(scope, "trust_profile") || text_eq(
        scope,
        "catalog_entry",
    ) || text_eq(scope, "registration") || text_eq(scope, "capability");
    if known && sized(matcher, 1, 2048) && !reason.is_empty() {
        Ok(())
    } else {
        Err(DatabaseError::InvalidPersistedValue)
    }
}

/// Whether a service has a name and a state that it can be put into.
pub open spec fn service_update_is_valid_spec(display_name: Seq<char>, status: Seq<char>) -> bool {
    display_name.len() > 0 && (status == "active"@ || status == "suspended"@)
}

/// Whether a service has a name and a state that it can be put into.
pub fn service_update_is_valid(display_name: &str, status: &str) -> (r: bool)
    ensures
        r == service_update_is_valid_spec(display_name@, status@),
{
    !display_name.is_empty() && (text_eq(status, "active") || text_eq(status, "suspended"))
}

impl Database {

    /// What stops `mcp_registration_by_id`, in order.
    pub open spec fn mcp_registration_by_id_fault(log: Seq<Reply>) -> Option<Fault> {
        if log.len() > 0
            && log[0].required_row::<McpRegistrationRecord>(DatabaseError::NotFound) is Err {
            Fault::of(log[0].required_row::<McpRegistrationRecord>(DatabaseError::NotFound))
        } else {
            None
        }
    }

    /// The commands of `mcp_registration_by_id`, in order.
    pub open spec fn mcp_registration_by_id_script<'a>(
        tenant_id: Uuid, registration_id: Uuid, log: Seq<Reply>,
    ) -> Seq<CommandView<'a>> {
        seq![
            CommandView::optional(
                sql::REGISTRATION_BY_ID,
                seq![Param::Id(tenant_id), Param::Id(registration_id)],
            ),
        ]
    }

    /// What `mcp_registration_by_id` returns.
    pub open spec fn mcp_registration_by_id_output(log: Seq<Reply>) -> McpRegistrationRecord {
        let registration =
            log[0].required_row::<McpRegistrationRecord>(DatabaseError::NotFound)->Ok_0;
        registration
    }

    /// One registration, whoever owns it.
    pub fn mcp_registration_by_id<'a>(
        tenant_id: Uuid, registration_id: Uuid, log: &'a [Reply],
    ) -> (step: Step<'a, McpRegistrationRecord>)
        ensures
            step@ == StepView::proceed(
                Self::mcp_registration_by_id_fault(log@),
                Self::mcp_registration_by_id_script(tenant_id, registration_id, log@),
                Self::mcp_registration_by_id_output(log@),
                log@,
            ),
    {
        if log.len() == 0 {
            return ask_optional(
                sql::REGISTRATION_BY_ID,
                vec![Param::Id(tenant_id), Param::Id(registration_id)],
            );
        }
        let registration: McpRegistrationRecord = match required(&log[0], DatabaseError::NotFound) {
            Ok(value) => value,
            Err(fault) => return stop(fault),
        };
        Step::Done(registration)
    }

    /// Every statement of `mcp_registration_by_id` is about its tenant.
    pub proof fn mcp_registration_by_id_is_scoped(
        tenant_id: Uuid, registration_id: Uuid, log: Seq<Reply>,
    )
        ensures
            crate::step::is_scoped(
                Self::mcp_registration_by_id_script(tenant_id, registration_id, log),
                tenant_id,
            ),
    {
    }

    /// What stops `mcp_delete_registration`, in order.
    pub open spec fn mcp_delete_registration_fault(log: Seq<Reply>) -> Option<Fault> {
        if log.len() > 1
            && log[1].required_row::<DeletedRegistration>(DatabaseError::Conflict) is Err {
            Fault::of(log[1].required_row::<DeletedRegistration>(DatabaseError::Conflict))
        } else {
            None
        }
    }

    /// The commands of `mcp_delete_registration`, in order.
    pub open spec fn mcp_delete_registration_script<'a>(
        tenant_id: Uuid, registration_id: Uuid, expected_revision: i64, tombstone_id: Uuid,
        log: Seq<Reply>,
    ) -> Seq<CommandView<'a>> {
        let deleted = log[1].required_row::<DeletedRegistration>(DatabaseError::Conflict)->Ok_0;
        seq![
            CommandView::Begin,
            CommandView::optional(
                sql::DELETE_REGISTRATION_UPDATE_REGISTRATIONS_2,
                seq![
                    Param::Id(tenant_id), Param::Id(registration_id),
                    Param::I64(expected_revision),
                ],
            ),
            CommandView::execute(
                sql::DELETE_REGISTRATION_INSERT_DELETION_TOMBSTONES,
                seq![
                    Param::Id(tenant_id), Param::Id(tombstone_id), Param::Id(registration_id),
                    Param::Id(deleted.owner_principal_id),
                    Param::I64(deleted.revocation_generation),
                ],
            ),
            CommandView::Commit,
        ]
    }

    /// Deletes a registration at the expected revision, and leaves a tombstone.
    pub fn mcp_delete_registration<'a>(
        tenant_id: Uuid, registration_id: Uuid, expected_revision: i64, tombstone_id: Uuid,
        log: &'a [Reply],
    ) -> (step: Step<'a, ()>)
        ensures
            step@ == StepView::proceed(
                Self::mcp_delete_registration_fault(log@),
                Self::mcp_delete_registration_script(
                    tenant_id, registration_id, expected_revision, tombstone_id, log@,
                ),
                (),
                log@,
            ),
    {
        if log.len() == 0 {
            return Step::Ask(Command::Begin);
        }
        if log.len() <= 1 {
            return ask_optional(
                sql::DELETE_REGISTRATION_UPDATE_REGISTRATIONS_2,
                vec![
                    Param::Id(tenant_id), Param::Id(registration_id),
                    Param::I64(expected_revision),
                ],
            );
        }
        let deleted: DeletedRegistration = match required(&log[1], DatabaseError::Conflict) {
            Ok(value) => value,
            Err(fault) => return stop(fault),
        };
        if log.len() <= 2 {
            return ask_execute(
                sql::DELETE_REGISTRATION_INSERT_DELETION_TOMBSTONES,
                vec![
                    Param::Id(tenant_id), Param::Id(tombstone_id), Param::Id(registration_id),
                    Param::Id(deleted.owner_principal_id),
                    Param::I64(deleted.revocation_generation),
                ],
            );
        }
        if log.len() <= 3 {
            return Step::Ask(Command::Commit);
        }
        Step::Done(())
    }

    /// `mcp_delete_registration` runs in one transaction: it is done once its commit is
    /// acknowledged, and when it fails, nothing was committed.
    pub proof fn mcp_delete_registration_is_atomic(
        tenant_id: Uuid, registration_id: Uuid, expected_revision: i64, tombstone_id: Uuid,
        log: Seq<Reply>,
    )
        ensures
            crate::step::is_atomic(
                Self::mcp_delete_registration_script(
                    tenant_id, registration_id, expected_revision, tombstone_id, log,
                ),
                0,
            ),
            crate::step::commit_acknowledged(
                Self::mcp_delete_registration_fault(log.drop_last()),
                Self::mcp_delete_registration_script(
                    tenant_id, registration_id, expected_revision, tombstone_id, log.drop_last(),
                ),
                log,
            ) ==> {
                &&& Self::mcp_delete_registration_fault(log) is None
                &&& log.len() == Self::mcp_delete_registration_script(
                    tenant_id, registration_id, expected_revision, tombstone_id, log,
                ).len()
            },
    {
    }

    /// Every statement of `mcp_delete_registration` is about its tenant.
    pub proof fn mcp_delete_registration_is_scoped(
        tenant_id: Uuid, registration_id: Uuid, expected_revision: i64, tombstone_id: Uuid,
        log: Seq<Reply>,
    )
        ensures
            crate::step::is_scoped(
                Self::mcp_delete_registration_script(
                    tenant_id, registration_id, expected_revision, tombstone_id, log,
                ),
                tenant_id,
            ),
    {
    }

    /// What stops `mcp_current_capability_snapshot`, in order.
    pub open spec fn mcp_current_capability_snapshot_fault(log: Seq<Reply>) -> Option<Fault> {
        if log.len() > 0
            && log[0].required_row::<McpCapabilitySnapshotRecord>(DatabaseError::NotFound) is Err {
            Fault::of(log[0].required_row::<McpCapabilitySnapshotRecord>(DatabaseError::NotFound))
        } else {
            None
        }
    }

    /// The commands of `mcp_current_capability_snapshot`, in order.
    pub open spec fn mcp_current_capability_snapshot_script<'a>(
        tenant_id: Uuid, registration_id: Uuid, log: Seq<Reply>,
    ) -> Seq<CommandView<'a>> {
        seq![
            CommandView::optional(
                sql::CURRENT_CAPABILITY_SNAPSHOT,
                seq![Param::Id(tenant_id), Param::Id(registration_id)],
            ),
        ]
    }

    /// What `mcp_current_capability_snapshot` returns.
    pub open spec fn mcp_current_capability_snapshot_output(
        log: Seq<Reply>,
    ) -> McpCapabilitySnapshotRecord {
        let snapshot =
            log[0].required_row::<McpCapabilitySnapshotRecord>(DatabaseError::NotFound)->Ok_0;
        snapshot
    }

    /// The current snapshot of a registration.
    pub fn mcp_current_capability_snapshot<'a>(
        tenant_id: Uuid, registration_id: Uuid, log: &'a [Reply],
    ) -> (step: Step<'a, McpCapabilitySnapshotRecord>)
        ensures
            step@ == StepView::proceed(
                Self::mcp_current_capability_snapshot_fault(log@),
                Self::mcp_current_capability_snapshot_script(tenant_id, registration_id, log@),
                Self::mcp_current_capability_snapshot_output(log@),
                log@,
            ),
    {
        if log.len() == 0 {
            return ask_optional(
                sql::CURRENT_CAPABILITY_SNAPSHOT,
                vec![Param::Id(tenant_id), Param::Id(registration_id)],
            );
        }
        let snapshot: McpCapabilitySnapshotRecord = match required(
            &log[0],
            DatabaseError::NotFound,
        ) {
            Ok(value) => value,
            Err(fault) => return stop(fault),
        };
        Step::Done(snapshot)
    }

    /// Every statement of `mcp_current_capability_snapshot` is about its tenant.
    pub proof fn mcp_current_capability_snapshot_is_scoped(
        tenant_id: Uuid, registration_id: Uuid, log: Seq<Reply>,
    )
        ensures
            crate::step::is_scoped(
                Self::mcp_current_capability_snapshot_script(tenant_id, registration_id, log),
                tenant_id,
            ),
    {
    }

    /// What stops `mcp_capability_reviews`, in order.
    pub open spec fn mcp_capability_reviews_fault(log: Seq<Reply>) -> Option<Fault> {
        if log.len() > 0 && log[0].all_rows::<McpCapabilityReviewRecord>() is Err {
            Fault::of(log[0].all_rows::<McpCapabilityReviewRecord>())
        } else {
            None
        }
    }

    /// The commands of `mcp_capability_reviews`, in order.
    pub open spec fn mcp_capability_reviews_script<'a>(
        tenant_id: Uuid, registration_id: Uuid, log: Seq<Reply>,
    ) -> Seq<CommandView<'a>> {
        seq![
            CommandView::all(
                sql::CAPABILITY_REVIEWS,
                seq![Param::Id(tenant_id), Param::Id(registration_id)],
            ),
        ]
    }

    /// What `mcp_capability_reviews` returns.
    pub open spec fn mcp_capability_reviews_output(
        log: Seq<Reply>,
    ) -> Seq<McpCapabilityReviewRecord> {
        let reviews = log[0].all_rows::<McpCapabilityReviewRecord>()->Ok_0;
        reviews
    }

    /// The reviews of a registration's current capabilities.
    pub fn mcp_capability_reviews<'a>(
        tenant_id: Uuid, registration_id: Uuid, log: &'a [Reply],
    ) -> (step: Step<'a, Vec<McpCapabilityReviewRecord>>)
        ensures
            step.list() == StepView::proceed(
                Self::mcp_capability_reviews_fault(log@),
                Self::mcp_capability_reviews_script(tenant_id, registration_id, log@),
                Self::mcp_capability_reviews_output(log@),
                log@,
            ),
    {
        if log.len() == 0 {
            return ask_all(
                sql::CAPABILITY_REVIEWS,
                vec![Param::Id(tenant_id), Param::Id(registration_id)],
            );
        }
        let reviews: Vec<McpCapabilityReviewRecord> = match many(&log[0]) {
            Ok(value) => value,
            Err(fault) => return stop_list(fault),
        };
        Step::Done(reviews)
    }

    /// Every statement of `mcp_capability_reviews` is about its tenant.
    pub proof fn mcp_capability_reviews_is_scoped(
        tenant_id: Uuid, registration_id: Uuid, log: Seq<Reply>,
    )
        ensures
            crate::step::is_scoped(
                Self::mcp_capability_reviews_script(tenant_id, registration_id, log),
                tenant_id,
            ),
    {
    }

    /// What stops `mcp_capability_by_fingerprint`, in order.
    pub open spec fn mcp_capability_by_fingerprint_fault(log: Seq<Reply>) -> Option<Fault> {
        if log.len() > 0
            && log[0].required_row::<McpCapabilityRecord>(DatabaseError::NotFound) is Err {
            Fault::of(log[0].required_row::<McpCapabilityRecord>(DatabaseError::NotFound))
        } else {
            None
        }
    }

    /// The commands of `mcp_capability_by_fingerprint`, in order.
    pub open spec fn mcp_capability_by_fingerprint_script<'a>(
        tenant_id: Uuid, registration_id: Uuid, fingerprint: &'a [u8; 32], log: Seq<Reply>,
    ) -> Seq<CommandView<'a>> {
        seq![
            CommandView::optional(
                sql::CAPABILITY_BY_FINGERPRINT,
                seq![
                    Param::Id(tenant_id), Param::Id(registration_id),
                    Param::Digest(fingerprint),
                ],
            ),
        ]
    }

    /// What `mcp_capability_by_fingerprint` returns.
    pub open spec fn mcp_capability_by_fingerprint_output(log: Seq<Reply>) -> McpCapabilityRecord {
        let capability = log[0].required_row::<McpCapabilityRecord>(DatabaseError::NotFound)->Ok_0;
        capability
    }

    /// One current capability.
    pub fn mcp_capability_by_fingerprint<'a>(
        tenant_id: Uuid, registration_id: Uuid, fingerprint: &'a [u8; 32], log: &'a [Reply],
    ) -> (step: Step<'a, McpCapabilityRecord>)
        ensures
            step@ == StepView::proceed(
                Self::mcp_capability_by_fingerprint_fault(log@),
                Self::mcp_capability_by_fingerprint_script(
                    tenant_id, registration_id, fingerprint, log@,
                ),
                Self::mcp_capability_by_fingerprint_output(log@),
                log@,
            ),
    {
        if log.len() == 0 {
            return ask_optional(
                sql::CAPABILITY_BY_FINGERPRINT,
                vec![
                    Param::Id(tenant_id), Param::Id(registration_id),
                    Param::Digest(fingerprint),
                ],
            );
        }
        let capability: McpCapabilityRecord = match required(&log[0], DatabaseError::NotFound) {
            Ok(value) => value,
            Err(fault) => return stop(fault),
        };
        Step::Done(capability)
    }

    /// Every statement of `mcp_capability_by_fingerprint` is about its tenant.
    pub proof fn mcp_capability_by_fingerprint_is_scoped<'a>(
        tenant_id: Uuid, registration_id: Uuid, fingerprint: &'a [u8; 32], log: Seq<Reply>,
    )
        ensures
            crate::step::is_scoped(
                Self::mcp_capability_by_fingerprint_script(
                    tenant_id, registration_id, fingerprint, log,
                ),
                tenant_id,
            ),
    {
    }

    /// What stops `mcp_approval_rules`, in order.
    pub open spec fn mcp_approval_rules_fault(log: Seq<Reply>) -> Option<Fault> {
        if log.len() > 0 && log[0].all_rows::<McpApprovalRuleRecord>() is Err {
            Fault::of(log[0].all_rows::<McpApprovalRuleRecord>())
        } else {
            None
        }
    }

    /// The commands of `mcp_approval_rules`, in order.
    pub open spec fn mcp_approval_rules_script<'a>(
        tenant_id: Uuid, principal_id: Uuid, registration_id: Option<Uuid>, log: Seq<Reply>,
    ) -> Seq<CommandView<'a>> {
        seq![
            CommandView::all(
                sql::APPROVAL_RULES,
                seq![
                    Param::Id(tenant_id), Param::Id(principal_id),
                    Param::OptId(registration_id),
                ],
            ),
        ]
    }

    /// What `mcp_approval_rules` returns.
    pub open spec fn mcp_approval_rules_output(log: Seq<Reply>) -> Seq<McpApprovalRuleRecord> {
        let rules = log[0].all_rows::<McpApprovalRuleRecord>()->Ok_0;
        rules
    }

    /// A principal's approvals, of one registration or of all.
    pub fn mcp_approval_rules<'a>(
        tenant_id: Uuid, principal_id: Uuid, registration_id: Option<Uuid>, log: &'a [Reply],
    ) -> (step: Step<'a, Vec<McpApprovalRuleRecord>>)
        ensures
            step.list() == StepView::proceed(
                Self::mcp_approval_rules_fault(log@),
                Self::mcp_approval_rules_script(tenant_id, principal_id, registration_id, log@),
                Self::mcp_approval_rules_output(log@),
                log@,
            ),
    {
        if log.len() == 0 {
            return ask_all(
                sql::APPROVAL_RULES,
                vec![
                    Param::Id(tenant_id), Param::Id(principal_id),
                    Param::OptId(registration_id),
                ],
            );
        }
        let rules: Vec<McpApprovalRuleRecord> = match many::<McpApprovalRuleRecord>(&log[0]) {
            Ok(value) => value,
            Err(fault) => return stop_list(fault),
        };
        Step::Done(rules)
    }

    /// Every statement of `mcp_approval_rules` is about its tenant.
    pub proof fn mcp_approval_rules_is_scoped(
        tenant_id: Uuid, principal_id: Uuid, registration_id: Option<Uuid>, log: Seq<Reply>,
    )
        ensures
            crate::step::is_scoped(
                Self::mcp_approval_rules_script(tenant_id, principal_id, registration_id, log),
                tenant_id,
            ),
    {
    }

    /// What stops `mcp_revoke_approval_rule`, in order.
    pub open spec fn mcp_revoke_approval_rule_fault(log: Seq<Reply>) -> Option<Fault> {
        if log.len() > 0 && log[0].one_affected(DatabaseError::NotFound) is Err {
            Fault::of(log[0].one_affected(DatabaseError::NotFound))
        } else {
            None
        }
    }

    /// The commands of `mcp_revoke_approval_rule`, in order.
    pub open spec fn mcp_revoke_approval_rule_script<'a>(
        tenant_id: Uuid, principal_id: Uuid, approval_id: Uuid, log: Seq<Reply>,
    ) -> Seq<CommandView<'a>> {
        seq![
            CommandView::execute(
                sql::REVOKE_APPROVAL,
                seq![Param::Id(tenant_id), Param::Id(principal_id), Param::Id(approval_id)],
            ),
        ]
    }

    /// Revokes an approval.
    pub fn mcp_revoke_approval_rule<'a>(
        tenant_id: Uuid, principal_id: Uuid, approval_id: Uuid, log: &'a [Reply],
    ) -> (step: Step<'a, ()>)
        ensures
            step@ == StepView::proceed(
                Self::mcp_revoke_approval_rule_fault(log@),
                Self::mcp_revoke_approval_rule_script(tenant_id, principal_id, approval_id, log@),
                (),
                log@,
            ),
    {
        if log.len() == 0 {
            return ask_execute(
                sql::REVOKE_APPROVAL,
                vec![Param::Id(tenant_id), Param::Id(principal_id), Param::Id(approval_id)],
            );
        }
        if let Err(fault) = exactly_one(&log[0], DatabaseError::NotFound) {
            return stop(fault);
        }
        Step::Done(())
    }

    /// Every statement of `mcp_revoke_approval_rule` is about its tenant.
    pub proof fn mcp_revoke_approval_rule_is_scoped(
        tenant_id: Uuid, principal_id: Uuid, approval_id: Uuid, log: Seq<Reply>,
    )
        ensures
            crate::step::is_scoped(
                Self::mcp_revoke_approval_rule_script(tenant_id, principal_id, approval_id, log),
                tenant_id,
            ),
    {
    }

    /// What stops `mcp_consume_matching_approval`, in order.
    pub open spec fn mcp_consume_matching_approval_fault<'a>(
        primitive: &'a str,
        log: Seq<Reply>,
    ) -> Option<Fault> {
        if !crate::mcp::invocation::is_primitive(primitive@) {
            Some(Fault::Error(DatabaseError::InvalidPersistedValue))
        } else if log.len() > 0 && log[0].required_row::<Uuid>(DatabaseError::NotFound) is Err {
            Fault::of(log[0].required_row::<Uuid>(DatabaseError::NotFound))
        } else {
            None
        }
    }

    /// The commands of `mcp_consume_matching_approval`, in order.
    pub open spec fn mcp_consume_matching_approval_script<'a>(
        tenant_id: Uuid, registration_id: Uuid, principal_id: Uuid, session_id: Option<Uuid>,
        application_id: &'a str, primitive: &'a str, capability_name: &'a str,
        capability_fingerprint: &'a [u8; 32], argument_digest: &'a [u8; 32],
        attachment_digest: &'a [u8; 32], log: Seq<Reply>,
    ) -> Seq<CommandView<'a>> {
        seq![
            CommandView::optional(
                sql::CONSUME_MATCHING_APPROVAL,
                seq![
                    Param::Id(tenant_id), Param::Id(registration_id), Param::Id(principal_id),
                    Param::OptId(session_id), Param::Text(application_id),
                    Param::Text(primitive), Param::Text(capability_name),
                    Param::Digest(capability_fingerprint), Param::Digest(argument_digest),
                    Param::Digest(attachment_digest),
                ],
            ),
        ]
    }

    /// What `mcp_consume_matching_approval` returns.
    pub open spec fn mcp_consume_matching_approval_output(log: Seq<Reply>) -> Uuid {
        let approval_id = log[0].required_row::<Uuid>(DatabaseError::NotFound)->Ok_0;
        approval_id
    }

    /// Finds a live approval of exactly this invocation, and uses it up where it is for a single
    /// use.
    pub fn mcp_consume_matching_approval<'a>(
        tenant_id: Uuid, registration_id: Uuid, principal_id: Uuid, session_id: Option<Uuid>,
        application_id: &'a str, primitive: &'a str, capability_name: &'a str,
        capability_fingerprint: &'a [u8; 32], argument_digest: &'a [u8; 32],
        attachment_digest: &'a [u8; 32], log: &'a [Reply],
    ) -> (step: Step<'a, Uuid>)
        ensures
            step@ == StepView::proceed(
                Self::mcp_consume_matching_approval_fault(primitive, log@),
                Self::mcp_consume_matching_approval_script(
                    tenant_id, registration_id, principal_id, session_id, application_id,
                    primitive, capability_name, capability_fingerprint, argument_digest,
                    attachment_digest, log@,
                ),
                Self::mcp_consume_matching_approval_output(log@),
                log@,
            ),
    {
        if !known_primitive(primitive) {
            return Step::Fail(DatabaseError::InvalidPersistedValue);
        }
        if log.len() == 0 {
            return ask_optional(
                sql::CONSUME_MATCHING_APPROVAL,
                vec![
                    Param::Id(tenant_id), Param::Id(registration_id), Param::Id(principal_id),
                    Param::OptId(session_id), Param::Text(application_id),
                    Param::Text(primitive), Param::Text(capability_name),
                    Param::Digest(capability_fingerprint), Param::Digest(argument_digest),
                    Param::Digest(attachment_digest),
                ],
            );
        }
        let approval_id: Uuid = match required::<Uuid>(&log[0], DatabaseError::NotFound) {
            Ok(value) => value,
            Err(fault) => return stop(fault),
        };
        Step::Done(approval_id)
    }

    /// Every statement of `mcp_consume_matching_approval` is about its tenant.
    pub proof fn mcp_consume_matching_approval_is_scoped<'a>(
        tenant_id: Uuid, registration_id: Uuid, principal_id: Uuid, session_id: Option<Uuid>,
        application_id: &'a str, primitive: &'a str, capability_name: &'a str,
        capability_fingerprint: &'a [u8; 32], argument_digest: &'a [u8; 32],
        attachment_digest: &'a [u8; 32], log: Seq<Reply>,
    )
        ensures
            crate::step::is_scoped(
                Self::mcp_consume_matching_approval_script(
                    tenant_id, registration_id, principal_id, session_id, application_id, primitive,
                    capability_name, capability_fingerprint, argument_digest, attachment_digest,
                    log,
                ),
                tenant_id,
            ),
    {
    }

    /// What stops `mcp_data_grants`, in order.
    pub open spec fn mcp_data_grants_fault(log: Seq<Reply>) -> Option<Fault> {
        if log.len() > 0 && log[0].all_rows::<McpDataGrantRecord>() is Err {
            Fault::of(log[0].all_rows::<McpDataGrantRecord>())
        } else {
            None
        }
    }

    /// The commands of `mcp_data_grants`, in order.
    pub open spec fn mcp_data_grants_script<'a>(
        tenant_id: Uuid, principal_id: Uuid, drive_id: Uuid, resource_id: Uuid, log: Seq<Reply>,
    ) -> Seq<CommandView<'a>> {
        seq![
            CommandView::all(
                sql::DATA_GRANTS,
                seq![
                    Param::Id(tenant_id), Param::Id(principal_id), Param::Id(drive_id),
                    Param::Id(resource_id),
                ],
            ),
        ]
    }

    /// What `mcp_data_grants` returns.
    pub open spec fn mcp_data_grants_output(log: Seq<Reply>) -> Seq<McpDataGrantRecord> {
        let grants = log[0].all_rows::<McpDataGrantRecord>()->Ok_0;
        grants
    }

    /// A principal's grants of a file.
    pub fn mcp_data_grants<'a>(
        tenant_id: Uuid, principal_id: Uuid, drive_id: Uuid, resource_id: Uuid,
        log: &'a [Reply],
    ) -> (step: Step<'a, Vec<McpDataGrantRecord>>)
        ensures
            step.list() == StepView::proceed(
                Self::mcp_data_grants_fault(log@),
                Self::mcp_data_grants_script(tenant_id, principal_id, drive_id, resource_id, log@),
                Self::mcp_data_grants_output(log@),
                log@,
            ),
    {
        if log.len() == 0 {
            return ask_all(
                sql::DATA_GRANTS,
                vec![
                    Param::Id(tenant_id), Param::Id(principal_id), Param::Id(drive_id),
                    Param::Id(resource_id),
                ],
            );
        }
        let grants: Vec<McpDataGrantRecord> = match many::<McpDataGrantRecord>(&log[0]) {
            Ok(value) => value,
            Err(fault) => return stop_list(fault),
        };
        Step::Done(grants)
    }

    /// Every statement of `mcp_data_grants` is about its tenant.
    pub proof fn mcp_data_grants_is_scoped(
        tenant_id: Uuid, principal_id: Uuid, drive_id: Uuid, resource_id: Uuid, log: Seq<Reply>,
    )
        ensures
            crate::step::is_scoped(
                Self::mcp_data_grants_script(tenant_id, principal_id, drive_id, resource_id, log),
                tenant_id,
            ),
    {
    }

    /// What stops `mcp_node_data_grants`, in order.
    pub open spec fn mcp_node_data_grants_fault(log: Seq<Reply>) -> Option<Fault> {
        if log.len() > 0 && log[0].all_rows::<McpDataGrantRecord>() is Err {
            Fault::of(log[0].all_rows::<McpDataGrantRecord>())
        } else {
            None
        }
    }

    /// The commands of `mcp_node_data_grants`, in order.
    pub open spec fn mcp_node_data_grants_script<'a>(
        tenant_id: Uuid, drive_id: Uuid, resource_id: Uuid, log: Seq<Reply>,
    ) -> Seq<CommandView<'a>> {
        seq![
            CommandView::all(
                sql::NODE_DATA_GRANTS,
                seq![Param::Id(tenant_id), Param::Id(drive_id), Param::Id(resource_id)],
            ),
        ]
    }

    /// What `mcp_node_data_grants` returns.
    pub open spec fn mcp_node_data_grants_output(log: Seq<Reply>) -> Seq<McpDataGrantRecord> {
        let grants = log[0].all_rows::<McpDataGrantRecord>()->Ok_0;
        grants
    }

    /// The live grants of a file.
    pub fn mcp_node_data_grants<'a>(
        tenant_id: Uuid, drive_id: Uuid, resource_id: Uuid, log: &'a [Reply],
    ) -> (step: Step<'a, Vec<McpDataGrantRecord>>)
        ensures
            step.list() == StepView::proceed(
                Self::mcp_node_data_grants_fault(log@),
                Self::mcp_node_data_grants_script(tenant_id, drive_id, resource_id, log@),
                Self::mcp_node_data_grants_output(log@),
                log@,
            ),
    {
        if log.len() == 0 {
            return ask_all(
                sql::NODE_DATA_GRANTS,
                vec![Param::Id(tenant_id), Param::Id(drive_id), Param::Id(resource_id)],
            );
        }
        let grants: Vec<McpDataGrantRecord> = match many::<McpDataGrantRecord>(&log[0]) {
            Ok(value) => value,
            Err(fault) => return stop_list(fault),
        };
        Step::Done(grants)
    }

    /// Every statement of `mcp_node_data_grants` is about its tenant.
    pub proof fn mcp_node_data_grants_is_scoped(
        tenant_id: Uuid, drive_id: Uuid, resource_id: Uuid, log: Seq<Reply>,
    )
        ensures
            crate::step::is_scoped(
                Self::mcp_node_data_grants_script(tenant_id, drive_id, resource_id, log),
                tenant_id,
            ),
    {
    }

    /// What stops `mcp_revoke_data_grant`, in order.
    pub open spec fn mcp_revoke_data_grant_fault(log: Seq<Reply>) -> Option<Fault> {
        if log.len() > 0 && log[0].one_affected(DatabaseError::NotFound) is Err {
            Fault::of(log[0].one_affected(DatabaseError::NotFound))
        } else {
            None
        }
    }

    /// The commands of `mcp_revoke_data_grant`, in order.
    pub open spec fn mcp_revoke_data_grant_script<'a>(
        tenant_id: Uuid, principal_id: Uuid, drive_id: Uuid, resource_id: Uuid, grant_id: Uuid,
        log: Seq<Reply>,
    ) -> Seq<CommandView<'a>> {
        seq![
            CommandView::execute(
                sql::REVOKE_DATA_GRANT_2,
                seq![
                    Param::Id(tenant_id), Param::Id(principal_id), Param::Id(drive_id),
                    Param::Id(resource_id), Param::Id(grant_id),
                ],
            ),
        ]
    }

    /// Revokes a grant.
    pub fn mcp_revoke_data_grant<'a>(
        tenant_id: Uuid, principal_id: Uuid, drive_id: Uuid, resource_id: Uuid, grant_id: Uuid,
        log: &'a [Reply],
    ) -> (step: Step<'a, ()>)
        ensures
            step@ == StepView::proceed(
                Self::mcp_revoke_data_grant_fault(log@),
                Self::mcp_revoke_data_grant_script(
                    tenant_id, principal_id, drive_id, resource_id, grant_id, log@,
                ),
                (),
                log@,
            ),
    {
        if log.len() == 0 {
            return ask_execute(
                sql::REVOKE_DATA_GRANT_2,
                vec![
                    Param::Id(tenant_id), Param::Id(principal_id), Param::Id(drive_id),
                    Param::Id(resource_id), Param::Id(grant_id),
                ],
            );
        }
        if let Err(fault) = exactly_one(&log[0], DatabaseError::NotFound) {
            return stop(fault);
        }
        Step::Done(())
    }

    /// Every statement of `mcp_revoke_data_grant` is about its tenant.
    pub proof fn mcp_revoke_data_grant_is_scoped(
        tenant_id: Uuid, principal_id: Uuid, drive_id: Uuid, resource_id: Uuid, grant_id: Uuid,
        log: Seq<Reply>,
    )
        ensures
            crate::step::is_scoped(
                Self::mcp_revoke_data_grant_script(
                    tenant_id, principal_id, drive_id, resource_id, grant_id, log,
                ),
                tenant_id,
            ),
    {
    }

    /// What stops `mcp_managed_template`, in order.
    pub open spec fn mcp_managed_template_fault(log: Seq<Reply>) -> Option<Fault> {
        if log.len() > 0
            && log[0].required_row::<McpManagedTemplateRecord>(DatabaseError::NotFound) is Err {
            Fault::of(log[0].required_row::<McpManagedTemplateRecord>(DatabaseError::NotFound))
        } else {
            None
        }
    }

    /// The commands of `mcp_managed_template`, in order.
    pub open spec fn mcp_managed_template_script<'a>(
        tenant_id: Uuid, template_id: Uuid, log: Seq<Reply>,
    ) -> Seq<CommandView<'a>> {
        seq![
            CommandView::optional(
                sql::MANAGED_TEMPLATE,
                seq![Param::Id(tenant_id), Param::Id(template_id)],
            ),
        ]
    }

    /// What `mcp_managed_template` returns.
    pub open spec fn mcp_managed_template_output(log: Seq<Reply>) -> McpManagedTemplateRecord {
        let template =
            log[0].required_row::<McpManagedTemplateRecord>(DatabaseError::NotFound)->Ok_0;
        template
    }

    /// One template.
    pub fn mcp_managed_template<'a>(
        tenant_id: Uuid, template_id: Uuid, log: &'a [Reply],
    ) -> (step: Step<'a, McpManagedTemplateRecord>)
        ensures
            step@ == StepView::proceed(
                Self::mcp_managed_template_fault(log@),
                Self::mcp_managed_template_script(tenant_id, template_id, log@),
                Self::mcp_managed_template_output(log@),
                log@,
            ),
    {
        if log.len() == 0 {
            return ask_optional(
                sql::MANAGED_TEMPLATE,
                vec![Param::Id(tenant_id), Param::Id(template_id)],
            );
        }
        let template: McpManagedTemplateRecord = match required(&log[0], DatabaseError::NotFound) {
            Ok(value) => value,
            Err(fault) => return stop(fault),
        };
        Step::Done(template)
    }

    /// Every statement of `mcp_managed_template` is about its tenant.
    pub proof fn mcp_managed_template_is_scoped(tenant_id: Uuid, template_id: Uuid, log: Seq<Reply>)
        ensures
            crate::step::is_scoped(
                Self::mcp_managed_template_script(tenant_id, template_id, log),
                tenant_id,
            ),
    {
    }

    /// What stops `mcp_update_managed_template`, in order.
    pub open spec fn mcp_update_managed_template_fault<'a>(
        input: &'a TemplateConfigurationUpdate<'a>,
        log: Seq<Reply>,
    ) -> Option<Fault> {
        if !input.is_valid() {
            Some(Fault::Error(DatabaseError::InvalidPersistedValue))
        } else if log.len() > 0
            && log[0].required_row::<McpManagedTemplateRecord>(DatabaseError::Conflict) is Err {
            Fault::of(log[0].required_row::<McpManagedTemplateRecord>(DatabaseError::Conflict))
        } else {
            None
        }
    }

    /// The commands of `mcp_update_managed_template`, in order.
    pub open spec fn mcp_update_managed_template_script<'a>(
        input: &'a TemplateConfigurationUpdate<'a>,
        log: Seq<Reply>,
    ) -> Seq<CommandView<'a>> {
        seq![
            CommandView::optional(
                sql::UPDATE_MANAGED_TEMPLATE,
                seq![
                    Param::Id(input.tenant_id), Param::Id(input.template_id),
                    Param::I64(input.expected_revision), Param::Text(input.display_name),
                    Param::Text(input.description), Param::OptText(input.endpoint_uri),
                    Param::OptText(input.trust_profile), Param::OptText(input.catalog_entry),
                    Param::Json(input.policy), Param::Bool(input.enabled),
                ],
            ),
        ]
    }

    /// What `mcp_update_managed_template` returns.
    pub open spec fn mcp_update_managed_template_output(
        log: Seq<Reply>,
    ) -> McpManagedTemplateRecord {
        let template =
            log[0].required_row::<McpManagedTemplateRecord>(DatabaseError::Conflict)->Ok_0;
        template
    }

    /// Replaces a template's configuration at the expected revision.
    pub fn mcp_update_managed_template<'a>(
        input: &'a TemplateConfigurationUpdate<'a>,
        log: &'a [Reply],
    ) -> (step: Step<'a, McpManagedTemplateRecord>)
        ensures
            step@ == StepView::proceed(
                Self::mcp_update_managed_template_fault(input, log@),
                Self::mcp_update_managed_template_script(input, log@),
                Self::mcp_update_managed_template_output(log@),
                log@,
            ),
    {
        if !input.valid() {
            return Step::Fail(DatabaseError::InvalidPersistedValue);
        }
        if log.len() == 0 {
            return ask_optional(
                sql::UPDATE_MANAGED_TEMPLATE,
                vec![
                    Param::Id(input.tenant_id), Param::Id(input.template_id),
                    Param::I64(input.expected_revision), Param::Text(input.display_name),
                    Param::Text(input.description), Param::OptText(input.endpoint_uri),
                    Param::OptText(input.trust_profile), Param::OptText(input.catalog_entry),
                    Param::Json(input.policy), Param::Bool(input.enabled),
                ],
            );
        }
        let template: McpManagedTemplateRecord = match required(&log[0], DatabaseError::Conflict) {
            Ok(value) => value,
            Err(fault) => return stop(fault),
        };
        Step::Done(template)
    }

    /// Every statement of `mcp_update_managed_template` is about its tenant.
    pub proof fn mcp_update_managed_template_is_scoped<'a>(
        input: &'a TemplateConfigurationUpdate<'a>,
        log: Seq<Reply>,
    )
        ensures
            crate::step::is_scoped(
                Self::mcp_update_managed_template_script(input, log),
                input.tenant_id,
            ),
    {
    }

    /// What stops `mcp_delete_managed_template`, in order.
    pub open spec fn mcp_delete_managed_template_fault(log: Seq<Reply>) -> Option<Fault> {
        if log.len() > 0 && log[0].one_affected(DatabaseError::NotFound) is Err {
            Fault::of(log[0].one_affected(DatabaseError::NotFound))
        } else {
            None
        }
    }

    /// The commands of `mcp_delete_managed_template`, in order.
    pub open spec fn mcp_delete_managed_template_script<'a>(
        tenant_id: Uuid, template_id: Uuid, expected_revision: i64, log: Seq<Reply>,
    ) -> Seq<CommandView<'a>> {
        seq![
            CommandView::execute(
                sql::DELETE_MANAGED_TEMPLATE,
                seq![Param::Id(tenant_id), Param::Id(template_id), Param::I64(expected_revision)],
            ),
        ]
    }

    /// Deletes a template at the expected revision.
    pub fn mcp_delete_managed_template<'a>(
        tenant_id: Uuid, template_id: Uuid, expected_revision: i64, log: &'a [Reply],
    ) -> (step: Step<'a, ()>)
        ensures
            step@ == StepView::proceed(
                Self::mcp_delete_managed_template_fault(log@),
                Self::mcp_delete_managed_template_script(
                    tenant_id, template_id, expected_revision, log@,
                ),
                (),
                log@,
            ),
    {
        if log.len() == 0 {
            return ask_execute(
                sql::DELETE_MANAGED_TEMPLATE,
                vec![Param::Id(tenant_id), Param::Id(template_id), Param::I64(expected_revision)],
            );
        }
        if let Err(fault) = exactly_one(&log[0], DatabaseError::NotFound) {
            return stop(fault);
        }
        Step::Done(())
    }

    /// Every statement of `mcp_delete_managed_template` is about its tenant.
    pub proof fn mcp_delete_managed_template_is_scoped(
        tenant_id: Uuid, template_id: Uuid, expected_revision: i64, log: Seq<Reply>,
    )
        ensures
            crate::step::is_scoped(
                Self::mcp_delete_managed_template_script(
                    tenant_id, template_id, expected_revision, log,
                ),
                tenant_id,
            ),
    {
    }

    /// What stops `mcp_revoke_template_assignment`, in order.
    pub open spec fn mcp_revoke_template_assignment_fault(log: Seq<Reply>) -> Option<Fault> {
        if log.len() > 1 && log[1].one_affected(DatabaseError::NotFound) is Err {
            Fault::of(log[1].one_affected(DatabaseError::NotFound))
        } else {
            None
        }
    }

    /// The commands of `mcp_revoke_template_assignment`, in order.
    pub open spec fn mcp_revoke_template_assignment_script<'a>(
        tenant_id: Uuid, template_id: Uuid, subject_principal_id: Uuid, log: Seq<Reply>,
    ) -> Seq<CommandView<'a>> {
        seq![
            CommandView::Begin,
            CommandView::execute(
                sql::REVOKE_TEMPLATE_ASSIGNMENT_UPDATE_TEMPLATE_ASSIGNMENTS,
                seq![
                    Param::Id(tenant_id), Param::Id(template_id),
                    Param::Id(subject_principal_id),
                ],
            ),
            CommandView::execute(
                sql::REVOKE_TEMPLATE_ASSIGNMENT_UPDATE_REGISTRATIONS,
                seq![
                    Param::Id(tenant_id), Param::Id(template_id),
                    Param::Id(subject_principal_id),
                ],
            ),
            CommandView::Commit,
        ]
    }

    /// Takes a template away from a principal, and disables what that principal registered from it.
    pub fn mcp_revoke_template_assignment<'a>(
        tenant_id: Uuid, template_id: Uuid, subject_principal_id: Uuid, log: &'a [Reply],
    ) -> (step: Step<'a, ()>)
        ensures
            step@ == StepView::proceed(
                Self::mcp_revoke_template_assignment_fault(log@),
                Self::mcp_revoke_template_assignment_script(
                    tenant_id, template_id, subject_principal_id, log@,
                ),
                (),
                log@,
            ),
    {
        if log.len() == 0 {
            return Step::Ask(Command::Begin);
        }
        if log.len() <= 1 {
            return ask_execute(
                sql::REVOKE_TEMPLATE_ASSIGNMENT_UPDATE_TEMPLATE_ASSIGNMENTS,
                vec![
                    Param::Id(tenant_id), Param::Id(template_id),
                    Param::Id(subject_principal_id),
                ],
            );
        }
        if let Err(fault) = exactly_one(&log[1], DatabaseError::NotFound) {
            return stop(fault);
        }
        if log.len() <= 2 {
            return ask_execute(
                sql::REVOKE_TEMPLATE_ASSIGNMENT_UPDATE_REGISTRATIONS,
                vec![
                    Param::Id(tenant_id), Param::Id(template_id),
                    Param::Id(subject_principal_id),
                ],
            );
        }
        if log.len() <= 3 {
            return Step::Ask(Command::Commit);
        }
        Step::Done(())
    }

    /// `mcp_revoke_template_assignment` runs in one transaction: it is done once its commit is
    /// acknowledged, and when it fails, nothing was committed.
    pub proof fn mcp_revoke_template_assignment_is_atomic(
        tenant_id: Uuid, template_id: Uuid, subject_principal_id: Uuid, log: Seq<Reply>,
    )
        ensures
            crate::step::is_atomic(
                Self::mcp_revoke_template_assignment_script(
                    tenant_id, template_id, subject_principal_id, log,
                ),
                0,
            ),
            crate::step::commit_acknowledged(
                Self::mcp_revoke_template_assignment_fault(log.drop_last()),
                Self::mcp_revoke_template_assignment_script(
                    tenant_id, template_id, subject_principal_id, log.drop_last(),
                ),
                log,
            ) ==> {
                &&& Self::mcp_revoke_template_assignment_fault(log) is None
                &&& log.len() == Self::mcp_revoke_template_assignment_script(
                    tenant_id, template_id, subject_principal_id, log,
                ).len()
            },
    {
    }

    /// Every statement of `mcp_revoke_template_assignment` is about its tenant.
    pub proof fn mcp_revoke_template_assignment_is_scoped(
        tenant_id: Uuid, template_id: Uuid, subject_principal_id: Uuid, log: Seq<Reply>,
    )
        ensures
            crate::step::is_scoped(
                Self::mcp_revoke_template_assignment_script(
                    tenant_id, template_id, subject_principal_id, log,
                ),
                tenant_id,
            ),
    {
    }

    /// What stops `mcp_template_assignments`, in order.
    pub open spec fn mcp_template_assignments_fault(log: Seq<Reply>) -> Option<Fault> {
        if log.len() > 0 && log[0].all_rows::<McpTemplateAssignmentRecord>() is Err {
            Fault::of(log[0].all_rows::<McpTemplateAssignmentRecord>())
        } else {
            None
        }
    }

    /// The commands of `mcp_template_assignments`, in order.
    pub open spec fn mcp_template_assignments_script<'a>(
        tenant_id: Uuid, template_id: Uuid, log: Seq<Reply>,
    ) -> Seq<CommandView<'a>> {
        seq![
            CommandView::all(
                sql::TEMPLATE_ASSIGNMENTS,
                seq![Param::Id(tenant_id), Param::Id(template_id)],
            ),
        ]
    }

    /// What `mcp_template_assignments` returns.
    pub open spec fn mcp_template_assignments_output(
        log: Seq<Reply>,
    ) -> Seq<McpTemplateAssignmentRecord> {
        let assignments = log[0].all_rows::<McpTemplateAssignmentRecord>()->Ok_0;
        assignments
    }

    /// Whom a template is assigned to.
    pub fn mcp_template_assignments<'a>(
        tenant_id: Uuid, template_id: Uuid, log: &'a [Reply],
    ) -> (step: Step<'a, Vec<McpTemplateAssignmentRecord>>)
        ensures
            step.list() == StepView::proceed(
                Self::mcp_template_assignments_fault(log@),
                Self::mcp_template_assignments_script(tenant_id, template_id, log@),
                Self::mcp_template_assignments_output(log@),
                log@,
            ),
    {
        if log.len() == 0 {
            return ask_all(
                sql::TEMPLATE_ASSIGNMENTS,
                vec![Param::Id(tenant_id), Param::Id(template_id)],
            );
        }
        let assignments: Vec<McpTemplateAssignmentRecord> = match many(&log[0]) {
            Ok(value) => value,
            Err(fault) => return stop_list(fault),
        };
        Step::Done(assignments)
    }

    /// Every statement of `mcp_template_assignments` is about its tenant.
    pub proof fn mcp_template_assignments_is_scoped(
        tenant_id: Uuid, template_id: Uuid, log: Seq<Reply>,
    )
        ensures
            crate::step::is_scoped(
                Self::mcp_template_assignments_script(tenant_id, template_id, log),
                tenant_id,
            ),
    {
    }

    /// What stops `mcp_template_assignment_count`, in order.
    pub open spec fn mcp_template_assignment_count_fault(log: Seq<Reply>) -> Option<Fault> {
        if log.len() > 0 && log[0].single_row::<i64>() is Err {
            Fault::of(log[0].single_row::<i64>())
        } else {
            None
        }
    }

    /// The commands of `mcp_template_assignment_count`, in order.
    pub open spec fn mcp_template_assignment_count_script<'a>(
        tenant_id: Uuid, template_id: Uuid, log: Seq<Reply>,
    ) -> Seq<CommandView<'a>> {
        seq![
            CommandView::one(
                sql::TEMPLATE_ASSIGNMENT_COUNT,
                seq![Param::Id(tenant_id), Param::Id(template_id)],
            ),
        ]
    }

    /// What `mcp_template_assignment_count` returns.
    pub open spec fn mcp_template_assignment_count_output(log: Seq<Reply>) -> i64 {
        let count = log[0].single_row::<i64>()->Ok_0;
        count
    }

    /// How many principals a template is assigned to.
    pub fn mcp_template_assignment_count<'a>(
        tenant_id: Uuid, template_id: Uuid, log: &'a [Reply],
    ) -> (step: Step<'a, i64>)
        ensures
            step@ == StepView::proceed(
                Self::mcp_template_assignment_count_fault(log@),
                Self::mcp_template_assignment_count_script(tenant_id, template_id, log@),
                Self::mcp_template_assignment_count_output(log@),
                log@,
            ),
    {
        if log.len() == 0 {
            return ask_one(
                sql::TEMPLATE_ASSIGNMENT_COUNT,
                vec![Param::Id(tenant_id), Param::Id(template_id)],
            );
        }
        let count: i64 = match single::<i64>(&log[0]) {
            Ok(value) => value,
            Err(fault) => return stop(fault),
        };
        Step::Done(count)
    }

    /// Every statement of `mcp_template_assignment_count` is about its tenant.
    pub proof fn mcp_template_assignment_count_is_scoped(
        tenant_id: Uuid, template_id: Uuid, log: Seq<Reply>,
    )
        ensures
            crate::step::is_scoped(
                Self::mcp_template_assignment_count_script(tenant_id, template_id, log),
                tenant_id,
            ),
    {
    }

    /// What stops `mcp_service_principals`, in order.
    pub open spec fn mcp_service_principals_fault(log: Seq<Reply>) -> Option<Fault> {
        if log.len() > 0 && log[0].all_rows::<McpServicePrincipalRecord>() is Err {
            Fault::of(log[0].all_rows::<McpServicePrincipalRecord>())
        } else {
            None
        }
    }

    /// The commands of `mcp_service_principals`, in order.
    pub open spec fn mcp_service_principals_script<'a>(
        tenant_id: Uuid,
        log: Seq<Reply>,
    ) -> Seq<CommandView<'a>> {
        seq![CommandView::all(sql::SERVICE_PRINCIPALS, seq![Param::Id(tenant_id)])]
    }

    /// What `mcp_service_principals` returns.
    pub open spec fn mcp_service_principals_output(
        log: Seq<Reply>,
    ) -> Seq<McpServicePrincipalRecord> {
        let services = log[0].all_rows::<McpServicePrincipalRecord>()->Ok_0;
        services
    }

    /// A tenant's services.
    pub fn mcp_service_principals<'a>(
        tenant_id: Uuid,
        log: &'a [Reply],
    ) -> (step: Step<'a, Vec<McpServicePrincipalRecord>>)
        ensures
            step.list() == StepView::proceed(
                Self::mcp_service_principals_fault(log@),
                Self::mcp_service_principals_script(tenant_id, log@),
                Self::mcp_service_principals_output(log@),
                log@,
            ),
    {
        if log.len() == 0 {
            return ask_all(sql::SERVICE_PRINCIPALS, vec![Param::Id(tenant_id)]);
        }
        let services: Vec<McpServicePrincipalRecord> = match many(&log[0]) {
            Ok(value) => value,
            Err(fault) => return stop_list(fault),
        };
        Step::Done(services)
    }

    /// Every statement of `mcp_service_principals` is about its tenant.
    pub proof fn mcp_service_principals_is_scoped(tenant_id: Uuid, log: Seq<Reply>)
        ensures
            crate::step::is_scoped(Self::mcp_service_principals_script(tenant_id, log), tenant_id),
    {
    }

    /// What stops `mcp_service_principal`, in order.
    pub open spec fn mcp_service_principal_fault(log: Seq<Reply>) -> Option<Fault> {
        if log.len() > 0
            && log[0].required_row::<McpServicePrincipalRecord>(DatabaseError::NotFound) is Err {
            Fault::of(log[0].required_row::<McpServicePrincipalRecord>(DatabaseError::NotFound))
        } else {
            None
        }
    }

    /// The commands of `mcp_service_principal`, in order.
    pub open spec fn mcp_service_principal_script<'a>(
        tenant_id: Uuid, service_id: Uuid, log: Seq<Reply>,
    ) -> Seq<CommandView<'a>> {
        seq![
            CommandView::optional(
                sql::SERVICE_PRINCIPAL,
                seq![Param::Id(tenant_id), Param::Id(service_id)],
            ),
        ]
    }

    /// What `mcp_service_principal` returns.
    pub open spec fn mcp_service_principal_output(log: Seq<Reply>) -> McpServicePrincipalRecord {
        let service =
            log[0].required_row::<McpServicePrincipalRecord>(DatabaseError::NotFound)->Ok_0;
        service
    }

    /// One service.
    pub fn mcp_service_principal<'a>(
        tenant_id: Uuid, service_id: Uuid, log: &'a [Reply],
    ) -> (step: Step<'a, McpServicePrincipalRecord>)
        ensures
            step@ == StepView::proceed(
                Self::mcp_service_principal_fault(log@),
                Self::mcp_service_principal_script(tenant_id, service_id, log@),
                Self::mcp_service_principal_output(log@),
                log@,
            ),
    {
        if log.len() == 0 {
            return ask_optional(
                sql::SERVICE_PRINCIPAL,
                vec![Param::Id(tenant_id), Param::Id(service_id)],
            );
        }
        let service: McpServicePrincipalRecord = match required(&log[0], DatabaseError::NotFound) {
            Ok(value) => value,
            Err(fault) => return stop(fault),
        };
        Step::Done(service)
    }

    /// Every statement of `mcp_service_principal` is about its tenant.
    pub proof fn mcp_service_principal_is_scoped(tenant_id: Uuid, service_id: Uuid, log: Seq<Reply>)
        ensures
            crate::step::is_scoped(
                Self::mcp_service_principal_script(tenant_id, service_id, log),
                tenant_id,
            ),
    {
    }

    /// What stops `mcp_update_service_principal`, in order.
    pub open spec fn mcp_update_service_principal_fault<'a>(
        display_name: &'a str, status: &'a str, log: Seq<Reply>,
    ) -> Option<Fault> {
        if !service_update_is_valid_spec(display_name@, status@) {
            Some(Fault::Error(DatabaseError::InvalidPersistedValue))
        } else if log.len() > 0 && log[0].one_affected(DatabaseError::NotFound) is Err {
            Fault::of(log[0].one_affected(DatabaseError::NotFound))
        } else if log.len() > 1 && log[1].single_row::<McpServicePrincipalRecord>() is Err {
            Fault::of(log[1].single_row::<McpServicePrincipalRecord>())
        } else {
            None
        }
    }

    /// The commands of `mcp_update_service_principal`, in order.
    pub open spec fn mcp_update_service_principal_script<'a>(
        tenant_id: Uuid, service_id: Uuid, display_name: &'a str, status: &'a str,
        log: Seq<Reply>,
    ) -> Seq<CommandView<'a>> {
        seq![
            CommandView::execute(
                sql::UPDATE_SERVICE_PRINCIPAL_UPDATE_SERVICE_PRINCIPALS_3,
                seq![
                    Param::Id(tenant_id), Param::Id(service_id), Param::Text(display_name),
                    Param::Text(status),
                ],
            ),
            CommandView::one(
                sql::SERVICE_PRINCIPAL,
                seq![Param::Id(tenant_id), Param::Id(service_id)],
            ),
        ]
    }

    /// What `mcp_update_service_principal` returns.
    pub open spec fn mcp_update_service_principal_output(
        log: Seq<Reply>,
    ) -> McpServicePrincipalRecord {
        let service = log[1].single_row::<McpServicePrincipalRecord>()->Ok_0;
        service
    }

    /// Renames a service, suspends it or lets it work again.
    pub fn mcp_update_service_principal<'a>(
        tenant_id: Uuid, service_id: Uuid, display_name: &'a str, status: &'a str,
        log: &'a [Reply],
    ) -> (step: Step<'a, McpServicePrincipalRecord>)
        ensures
            step@ == StepView::proceed(
                Self::mcp_update_service_principal_fault(display_name, status, log@),
                Self::mcp_update_service_principal_script(
                    tenant_id, service_id, display_name, status, log@,
                ),
                Self::mcp_update_service_principal_output(log@),
                log@,
            ),
    {
        if !service_update_is_valid(display_name, status) {
            return Step::Fail(DatabaseError::InvalidPersistedValue);
        }
        if log.len() == 0 {
            return ask_execute(
                sql::UPDATE_SERVICE_PRINCIPAL_UPDATE_SERVICE_PRINCIPALS_3,
                vec![
                    Param::Id(tenant_id), Param::Id(service_id), Param::Text(display_name),
                    Param::Text(status),
                ],
            );
        }
        if let Err(fault) = exactly_one(&log[0], DatabaseError::NotFound) {
            return stop(fault);
        }
        if log.len() <= 1 {
            return ask_one(
                sql::SERVICE_PRINCIPAL,
                vec![Param::Id(tenant_id), Param::Id(service_id)],
            );
        }
        let service: McpServicePrincipalRecord = match single(&log[1]) {
            Ok(value) => value,
            Err(fault) => return stop(fault),
        };
        Step::Done(service)
    }

    /// Every statement of `mcp_update_service_principal` is about its tenant.
    pub proof fn mcp_update_service_principal_is_scoped<'a>(
        tenant_id: Uuid, service_id: Uuid, display_name: &'a str, status: &'a str, log: Seq<Reply>,
    )
        ensures
            crate::step::is_scoped(
                Self::mcp_update_service_principal_script(
                    tenant_id, service_id, display_name, status, log,
                ),
                tenant_id,
            ),
    {
    }

    /// What stops `mcp_delete_service_principal`, in order.
    pub open spec fn mcp_delete_service_principal_fault(log: Seq<Reply>) -> Option<Fault> {
        if log.len() > 2 && log[2].one_affected(DatabaseError::NotFound) is Err {
            Fault::of(log[2].one_affected(DatabaseError::NotFound))
        } else {
            None
        }
    }

    /// The commands of `mcp_delete_service_principal`, in order.
    pub open spec fn mcp_delete_service_principal_script<'a>(
        tenant_id: Uuid, service_id: Uuid, log: Seq<Reply>,
    ) -> Seq<CommandView<'a>> {
        seq![
            CommandView::Begin,
            CommandView::execute(
                sql::UPDATE_SERVICE_PRINCIPAL_UPDATE_SERVICE_IDENTITY_BINDINGS,
                seq![Param::Id(tenant_id), Param::Id(service_id)],
            ),
            CommandView::execute(
                sql::DELETE_SERVICE_PRINCIPAL_UPDATE_SERVICE_PRINCIPALS_2,
                seq![Param::Id(tenant_id), Param::Id(service_id)],
            ),
            CommandView::Commit,
        ]
    }

    /// Deletes a service and revokes its identity.
    pub fn mcp_delete_service_principal<'a>(
        tenant_id: Uuid, service_id: Uuid, log: &'a [Reply],
    ) -> (step: Step<'a, ()>)
        ensures
            step@ == StepView::proceed(
                Self::mcp_delete_service_principal_fault(log@),
                Self::mcp_delete_service_principal_script(tenant_id, service_id, log@),
                (),
                log@,
            ),
    {
        if log.len() == 0 {
            return Step::Ask(Command::Begin);
        }
        if log.len() <= 1 {
            return ask_execute(
                sql::UPDATE_SERVICE_PRINCIPAL_UPDATE_SERVICE_IDENTITY_BINDINGS,
                vec![Param::Id(tenant_id), Param::Id(service_id)],
            );
        }
        if log.len() <= 2 {
            return ask_execute(
                sql::DELETE_SERVICE_PRINCIPAL_UPDATE_SERVICE_PRINCIPALS_2,
                vec![Param::Id(tenant_id), Param::Id(service_id)],
            );
        }
        if let Err(fault) = exactly_one(&log[2], DatabaseError::NotFound) {
            return stop(fault);
        }
        if log.len() <= 3 {
            return Step::Ask(Command::Commit);
        }
        Step::Done(())
    }

    /// `mcp_delete_service_principal` runs in one transaction: it is done once its commit is
    /// acknowledged, and when it fails, nothing was committed.
    pub proof fn mcp_delete_service_principal_is_atomic(
        tenant_id: Uuid, service_id: Uuid, log: Seq<Reply>,
    )
        ensures
            crate::step::is_atomic(
                Self::mcp_delete_service_principal_script(tenant_id, service_id, log),
                0,
            ),
            crate::step::commit_acknowledged(
                Self::mcp_delete_service_principal_fault(log.drop_last()),
                Self::mcp_delete_service_principal_script(tenant_id, service_id, log.drop_last()),
                log,
            ) ==> {
                &&& Self::mcp_delete_service_principal_fault(log) is None
                &&& log.len() == Self::mcp_delete_service_principal_script(
                    tenant_id, service_id, log,
                ).len()
            },
    {
    }

    /// Every statement of `mcp_delete_service_principal` is about its tenant.
    pub proof fn mcp_delete_service_principal_is_scoped(
        tenant_id: Uuid, service_id: Uuid, log: Seq<Reply>,
    )
        ensures
            crate::step::is_scoped(
                Self::mcp_delete_service_principal_script(tenant_id, service_id, log),
                tenant_id,
            ),
    {
    }

    /// What stops `mcp_service_grants`, in order.
    pub open spec fn mcp_service_grants_fault(log: Seq<Reply>) -> Option<Fault> {
        if log.len() > 0 && log[0].all_rows::<McpServiceGrantRecord>() is Err {
            Fault::of(log[0].all_rows::<McpServiceGrantRecord>())
        } else {
            None
        }
    }

    /// The commands of `mcp_service_grants`, in order.
    pub open spec fn mcp_service_grants_script<'a>(
        tenant_id: Uuid, service_id: Uuid, log: Seq<Reply>,
    ) -> Seq<CommandView<'a>> {
        seq![
            CommandView::all(
                sql::SERVICE_GRANTS,
                seq![Param::Id(tenant_id), Param::Id(service_id)],
            ),
        ]
    }

    /// What `mcp_service_grants` returns.
    pub open spec fn mcp_service_grants_output(log: Seq<Reply>) -> Seq<McpServiceGrantRecord> {
        let grants = log[0].all_rows::<McpServiceGrantRecord>()->Ok_0;
        grants
    }

    /// What a service may invoke.
    pub fn mcp_service_grants<'a>(
        tenant_id: Uuid, service_id: Uuid, log: &'a [Reply],
    ) -> (step: Step<'a, Vec<McpServiceGrantRecord>>)
        ensures
            step.list() == StepView::proceed(
                Self::mcp_service_grants_fault(log@),
                Self::mcp_service_grants_script(tenant_id, service_id, log@),
                Self::mcp_service_grants_output(log@),
                log@,
            ),
    {
        if log.len() == 0 {
            return ask_all(
                sql::SERVICE_GRANTS,
                vec![Param::Id(tenant_id), Param::Id(service_id)],
            );
        }
        let grants: Vec<McpServiceGrantRecord> = match many::<McpServiceGrantRecord>(&log[0]) {
            Ok(value) => value,
            Err(fault) => return stop_list(fault),
        };
        Step::Done(grants)
    }

    /// Every statement of `mcp_service_grants` is about its tenant.
    pub proof fn mcp_service_grants_is_scoped(tenant_id: Uuid, service_id: Uuid, log: Seq<Reply>)
        ensures
            crate::step::is_scoped(
                Self::mcp_service_grants_script(tenant_id, service_id, log),
                tenant_id,
            ),
    {
    }

    /// What stops `mcp_revoke_service_grant`, in order.
    pub open spec fn mcp_revoke_service_grant_fault(log: Seq<Reply>) -> Option<Fault> {
        if log.len() > 0 && log[0].one_affected(DatabaseError::NotFound) is Err {
            Fault::of(log[0].one_affected(DatabaseError::NotFound))
        } else {
            None
        }
    }

    /// The commands of `mcp_revoke_service_grant`, in order.
    pub open spec fn mcp_revoke_service_grant_script<'a>(
        tenant_id: Uuid, service_id: Uuid, grant_id: Uuid, log: Seq<Reply>,
    ) -> Seq<CommandView<'a>> {
        seq![
            CommandView::execute(
                sql::REVOKE_SERVICE_GRANT_2,
                seq![Param::Id(tenant_id), Param::Id(service_id), Param::Id(grant_id)],
            ),
        ]
    }

    /// Revokes a service's grant.
    pub fn mcp_revoke_service_grant<'a>(
        tenant_id: Uuid, service_id: Uuid, grant_id: Uuid, log: &'a [Reply],
    ) -> (step: Step<'a, ()>)
        ensures
            step@ == StepView::proceed(
                Self::mcp_revoke_service_grant_fault(log@),
                Self::mcp_revoke_service_grant_script(tenant_id, service_id, grant_id, log@),
                (),
                log@,
            ),
    {
        if log.len() == 0 {
            return ask_execute(
                sql::REVOKE_SERVICE_GRANT_2,
                vec![Param::Id(tenant_id), Param::Id(service_id), Param::Id(grant_id)],
            );
        }
        if let Err(fault) = exactly_one(&log[0], DatabaseError::NotFound) {
            return stop(fault);
        }
        Step::Done(())
    }

    /// Every statement of `mcp_revoke_service_grant` is about its tenant.
    pub proof fn mcp_revoke_service_grant_is_scoped(
        tenant_id: Uuid, service_id: Uuid, grant_id: Uuid, log: Seq<Reply>,
    )
        ensures
            crate::step::is_scoped(
                Self::mcp_revoke_service_grant_script(tenant_id, service_id, grant_id, log),
                tenant_id,
            ),
    {
    }

    /// What stops `mcp_create_admin_block_rule`, in order.
    pub open spec fn mcp_create_admin_block_rule_fault<'a>(
        scope: &'a str, matcher: &'a str, reason_code: &'a str, log: Seq<Reply>,
    ) -> Option<Fault> {
        if block_rule_verdict(scope@, matcher@, reason_code@) is Err {
            Some(Fault::Error(block_rule_verdict(scope@, matcher@, reason_code@)->Err_0))
        } else if log.len() > 3 && log[3].single_row::<McpAdminBlockRuleRecord>() is Err {
            Fault::of(log[3].single_row::<McpAdminBlockRuleRecord>())
        } else {
            None
        }
    }

    /// The commands of `mcp_create_admin_block_rule`, in order.
    pub open spec fn mcp_create_admin_block_rule_script<'a>(
        tenant_id: Uuid, id: Uuid, scope: &'a str, matcher: &'a str, reason_code: &'a str,
        created_by: Uuid, log: Seq<Reply>,
    ) -> Seq<CommandView<'a>> {
        seq![
            CommandView::Begin,
            CommandView::execute(
                sql::ADVANCE_ADMIN_BLOCK_POLICY_INSERT_POLICY_GENERATIONS,
                seq![Param::Id(tenant_id)],
            ),
            CommandView::execute(
                sql::ADVANCE_ADMIN_BLOCK_POLICY_UPDATE_INVOCATIONS,
                seq![Param::Id(tenant_id)],
            ),
            CommandView::one(
                sql::CREATE_ADMIN_BLOCK_RULE,
                seq![
                    Param::Id(tenant_id), Param::Id(id), Param::Text(scope),
                    Param::Text(matcher), Param::Text(reason_code), Param::Id(created_by),
                ],
            ),
            CommandView::Commit,
        ]
    }

    /// What `mcp_create_admin_block_rule` returns.
    pub open spec fn mcp_create_admin_block_rule_output(
        log: Seq<Reply>,
    ) -> McpAdminBlockRuleRecord {
        let record = log[3].single_row::<McpAdminBlockRuleRecord>()->Ok_0;
        record
    }

    /// Adds a block rule. Every change of the rules moves the tenant's block generation on and
    /// cancels what is running.
    pub fn mcp_create_admin_block_rule<'a>(
        tenant_id: Uuid, id: Uuid, scope: &'a str, matcher: &'a str, reason_code: &'a str,
        created_by: Uuid, log: &'a [Reply],
    ) -> (step: Step<'a, McpAdminBlockRuleRecord>)
        ensures
            step@ == StepView::proceed(
                Self::mcp_create_admin_block_rule_fault(scope, matcher, reason_code, log@),
                Self::mcp_create_admin_block_rule_script(
                    tenant_id, id, scope, matcher, reason_code, created_by, log@,
                ),
                Self::mcp_create_admin_block_rule_output(log@),
                log@,
            ),
    {
        let rule: () = match validate_block_rule(scope, matcher, reason_code) {
            Ok(value) => value,
            Err(error) => return Step::Fail(error),
        };
        if log.len() == 0 {
            return Step::Ask(Command::Begin);
        }
        if log.len() <= 1 {
            return ask_execute(
                sql::ADVANCE_ADMIN_BLOCK_POLICY_INSERT_POLICY_GENERATIONS,
                vec![Param::Id(tenant_id)],
            );
        }
        if log.len() <= 2 {
            return ask_execute(
                sql::ADVANCE_ADMIN_BLOCK_POLICY_UPDATE_INVOCATIONS,
                vec![Param::Id(tenant_id)],
            );
        }
        if log.len() <= 3 {
            return ask_one(
                sql::CREATE_ADMIN_BLOCK_RULE,
                vec![
                    Param::Id(tenant_id), Param::Id(id), Param::Text(scope),
                    Param::Text(matcher), Param::Text(reason_code), Param::Id(created_by),
                ],
            );
        }
        let record: McpAdminBlockRuleRecord = match single::<McpAdminBlockRuleRecord>(&log[3]) {
            Ok(value) => value,
            Err(fault) => return stop(fault),
        };
        if log.len() <= 4 {
            return Step::Ask(Command::Commit);
        }
        Step::Done(record)
    }

    /// `mcp_create_admin_block_rule` runs in one transaction: it is done once its commit is
    /// acknowledged, and when it fails, nothing was committed.
    pub proof fn mcp_create_admin_block_rule_is_atomic<'a>(
        tenant_id: Uuid, id: Uuid, scope: &'a str, matcher: &'a str, reason_code: &'a str,
        created_by: Uuid, log: Seq<Reply>,
    )
        ensures
            crate::step::is_atomic(
                Self::mcp_create_admin_block_rule_script(
                    tenant_id, id, scope, matcher, reason_code, created_by, log,
                ),
                0,
            ),
            crate::step::commit_acknowledged(
                Self::mcp_create_admin_block_rule_fault(
                    scope, matcher, reason_code, log.drop_last(),
                ),
                Self::mcp_create_admin_block_rule_script(
                    tenant_id, id, scope, matcher, reason_code, created_by, log.drop_last(),
                ),
                log,
            ) ==> {
                &&& Self::mcp_create_admin_block_rule_fault(
                    scope, matcher, reason_code, log,
                ) is None
                &&& log.len() == Self::mcp_create_admin_block_rule_script(
                    tenant_id, id, scope, matcher, reason_code, created_by, log,
                ).len()
            },
    {
    }

    /// Every statement of `mcp_create_admin_block_rule` is about its tenant.
    pub proof fn mcp_create_admin_block_rule_is_scoped<'a>(
        tenant_id: Uuid, id: Uuid, scope: &'a str, matcher: &'a str, reason_code: &'a str,
        created_by: Uuid, log: Seq<Reply>,
    )
        ensures
            crate::step::is_scoped(
                Self::mcp_create_admin_block_rule_script(
                    tenant_id, id, scope, matcher, reason_code, created_by, log,
                ),
                tenant_id,
            ),
    {
    }

    /// What stops `mcp_admin_block_rules`, in order.
    pub open spec fn mcp_admin_block_rules_fault(log: Seq<Reply>) -> Option<Fault> {
        if log.len() > 0 && log[0].all_rows::<McpAdminBlockRuleRecord>() is Err {
            Fault::of(log[0].all_rows::<McpAdminBlockRuleRecord>())
        } else {
            None
        }
    }

    /// The commands of `mcp_admin_block_rules`, in order.
    pub open spec fn mcp_admin_block_rules_script<'a>(
        tenant_id: Uuid,
        log: Seq<Reply>,
    ) -> Seq<CommandView<'a>> {
        seq![CommandView::all(sql::ADMIN_BLOCK_RULES, seq![Param::Id(tenant_id)])]
    }

    /// What `mcp_admin_block_rules` returns.
    pub open spec fn mcp_admin_block_rules_output(log: Seq<Reply>) -> Seq<McpAdminBlockRuleRecord> {
        let rules = log[0].all_rows::<McpAdminBlockRuleRecord>()->Ok_0;
        rules
    }

    /// A tenant's block rules.
    pub fn mcp_admin_block_rules<'a>(
        tenant_id: Uuid,
        log: &'a [Reply],
    ) -> (step: Step<'a, Vec<McpAdminBlockRuleRecord>>)
        ensures
            step.list() == StepView::proceed(
                Self::mcp_admin_block_rules_fault(log@),
                Self::mcp_admin_block_rules_script(tenant_id, log@),
                Self::mcp_admin_block_rules_output(log@),
                log@,
            ),
    {
        if log.len() == 0 {
            return ask_all(sql::ADMIN_BLOCK_RULES, vec![Param::Id(tenant_id)]);
        }
        let rules: Vec<McpAdminBlockRuleRecord> = match many::<McpAdminBlockRuleRecord>(&log[0]) {
            Ok(value) => value,
            Err(fault) => return stop_list(fault),
        };
        Step::Done(rules)
    }

    /// Every statement of `mcp_admin_block_rules` is about its tenant.
    pub proof fn mcp_admin_block_rules_is_scoped(tenant_id: Uuid, log: Seq<Reply>)
        ensures
            crate::step::is_scoped(Self::mcp_admin_block_rules_script(tenant_id, log), tenant_id),
    {
    }

    /// What stops `mcp_update_admin_block_rule`, in order.
    pub open spec fn mcp_update_admin_block_rule_fault<'a>(
        matcher: &'a str, reason_code: &'a str, log: Seq<Reply>,
    ) -> Option<Fault> {
        if matcher@.len() == 0 || reason_code@.len() == 0 {
            Some(Fault::Error(DatabaseError::InvalidPersistedValue))
        } else if log.len() > 3
            && log[3].required_row::<McpAdminBlockRuleRecord>(DatabaseError::Conflict) is Err {
            Fault::of(log[3].required_row::<McpAdminBlockRuleRecord>(DatabaseError::Conflict))
        } else {
            None
        }
    }

    /// The commands of `mcp_update_admin_block_rule`, in order.
    pub open spec fn mcp_update_admin_block_rule_script<'a>(
        tenant_id: Uuid, id: Uuid, expected_revision: i64, matcher: &'a str,
        reason_code: &'a str, enabled: bool, log: Seq<Reply>,
    ) -> Seq<CommandView<'a>> {
        seq![
            CommandView::Begin,
            CommandView::execute(
                sql::ADVANCE_ADMIN_BLOCK_POLICY_INSERT_POLICY_GENERATIONS,
                seq![Param::Id(tenant_id)],
            ),
            CommandView::execute(
                sql::ADVANCE_ADMIN_BLOCK_POLICY_UPDATE_INVOCATIONS,
                seq![Param::Id(tenant_id)],
            ),
            CommandView::optional(
                sql::UPDATE_ADMIN_BLOCK_RULE,
                seq![
                    Param::Id(tenant_id), Param::Id(id), Param::I64(expected_revision),
                    Param::Text(matcher), Param::Text(reason_code), Param::Bool(enabled),
                ],
            ),
            CommandView::Commit,
        ]
    }

    /// What `mcp_update_admin_block_rule` returns.
    pub open spec fn mcp_update_admin_block_rule_output(
        log: Seq<Reply>,
    ) -> McpAdminBlockRuleRecord {
        let record = log[3].required_row::<McpAdminBlockRuleRecord>(DatabaseError::Conflict)->Ok_0;
        record
    }

    /// Changes a block rule at the expected revision.
    pub fn mcp_update_admin_block_rule<'a>(
        tenant_id: Uuid, id: Uuid, expected_revision: i64, matcher: &'a str,
        reason_code: &'a str, enabled: bool, log: &'a [Reply],
    ) -> (step: Step<'a, McpAdminBlockRuleRecord>)
        ensures
            step@ == StepView::proceed(
                Self::mcp_update_admin_block_rule_fault(matcher, reason_code, log@),
                Self::mcp_update_admin_block_rule_script(
                    tenant_id, id, expected_revision, matcher, reason_code, enabled, log@,
                ),
                Self::mcp_update_admin_block_rule_output(log@),
                log@,
            ),
    {
        if matcher.is_empty() || reason_code.is_empty() {
            return Step::Fail(DatabaseError::InvalidPersistedValue);
        }
        if log.len() == 0 {
            return Step::Ask(Command::Begin);
        }
        if log.len() <= 1 {
            return ask_execute(
                sql::ADVANCE_ADMIN_BLOCK_POLICY_INSERT_POLICY_GENERATIONS,
                vec![Param::Id(tenant_id)],
            );
        }
        if log.len() <= 2 {
            return ask_execute(
                sql::ADVANCE_ADMIN_BLOCK_POLICY_UPDATE_INVOCATIONS,
                vec![Param::Id(tenant_id)],
            );
        }
        if log.len() <= 3 {
            return ask_optional(
                sql::UPDATE_ADMIN_BLOCK_RULE,
                vec![
                    Param::Id(tenant_id), Param::Id(id), Param::I64(expected_revision),
                    Param::Text(matcher), Param::Text(reason_code), Param::Bool(enabled),
                ],
            );
        }
        let record: McpAdminBlockRuleRecord = match required(&log[3], DatabaseError::Conflict) {
            Ok(value) => value,
            Err(fault) => return stop(fault),
        };
        if log.len() <= 4 {
            return Step::Ask(Command::Commit);
        }
        Step::Done(record)
    }

    /// `mcp_update_admin_block_rule` runs in one transaction: it is done once its commit is
    /// acknowledged, and when it fails, nothing was committed.
    pub proof fn mcp_update_admin_block_rule_is_atomic<'a>(
        tenant_id: Uuid, id: Uuid, expected_revision: i64, matcher: &'a str,
        reason_code: &'a str, enabled: bool, log: Seq<Reply>,
    )
        ensures
            crate::step::is_atomic(
                Self::mcp_update_admin_block_rule_script(
                    tenant_id, id, expected_revision, matcher, reason_code, enabled, log,
                ),
                0,
            ),
            crate::step::commit_acknowledged(
                Self::mcp_update_admin_block_rule_fault(matcher, reason_code, log.drop_last()),
                Self::mcp_update_admin_block_rule_script(
                    tenant_id, id, expected_revision, matcher, reason_code, enabled,
                    log.drop_last(),
                ),
                log,
            ) ==> {
                &&& Self::mcp_update_admin_block_rule_fault(matcher, reason_code, log) is None
                &&& log.len() == Self::mcp_update_admin_block_rule_script(
                    tenant_id, id, expected_revision, matcher, reason_code, enabled, log,
                ).len()
            },
    {
    }

    /// Every statement of `mcp_update_admin_block_rule` is about its tenant.
    pub proof fn mcp_update_admin_block_rule_is_scoped<'a>(
        tenant_id: Uuid, id: Uuid, expected_revision: i64, matcher: &'a str, reason_code: &'a str,
        enabled: bool, log: Seq<Reply>,
    )
        ensures
            crate::step::is_scoped(
                Self::mcp_update_admin_block_rule_script(
                    tenant_id, id, expected_revision, matcher, reason_code, enabled, log,
                ),
                tenant_id,
            ),
    {
    }

    /// What stops `mcp_delete_admin_block_rule`, in order.
    pub open spec fn mcp_delete_admin_block_rule_fault(log: Seq<Reply>) -> Option<Fault> {
        if log.len() > 3 && log[3].one_affected(DatabaseError::NotFound) is Err {
            Fault::of(log[3].one_affected(DatabaseError::NotFound))
        } else {
            None
        }
    }

    /// The commands of `mcp_delete_admin_block_rule`, in order.
    pub open spec fn mcp_delete_admin_block_rule_script<'a>(
        tenant_id: Uuid, id: Uuid, expected_revision: i64, log: Seq<Reply>,
    ) -> Seq<CommandView<'a>> {
        seq![
            CommandView::Begin,
            CommandView::execute(
                sql::ADVANCE_ADMIN_BLOCK_POLICY_INSERT_POLICY_GENERATIONS,
                seq![Param::Id(tenant_id)],
            ),
            CommandView::execute(
                sql::ADVANCE_ADMIN_BLOCK_POLICY_UPDATE_INVOCATIONS,
                seq![Param::Id(tenant_id)],
            ),
            CommandView::execute(
                sql::DELETE_ADMIN_BLOCK_RULE,
                seq![Param::Id(tenant_id), Param::Id(id), Param::I64(expected_revision)],
            ),
            CommandView::Commit,
        ]
    }

    /// Deletes a block rule at the expected revision.
    pub fn mcp_delete_admin_block_rule<'a>(
        tenant_id: Uuid, id: Uuid, expected_revision: i64, log: &'a [Reply],
    ) -> (step: Step<'a, ()>)
        ensures
            step@ == StepView::proceed(
                Self::mcp_delete_admin_block_rule_fault(log@),
                Self::mcp_delete_admin_block_rule_script(tenant_id, id, expected_revision, log@),
                (),
                log@,
            ),
    {
        if log.len() == 0 {
            return Step::Ask(Command::Begin);
        }
        if log.len() <= 1 {
            return ask_execute(
                sql::ADVANCE_ADMIN_BLOCK_POLICY_INSERT_POLICY_GENERATIONS,
                vec![Param::Id(tenant_id)],
            );
        }
        if log.len() <= 2 {
            return ask_execute(
                sql::ADVANCE_ADMIN_BLOCK_POLICY_UPDATE_INVOCATIONS,
                vec![Param::Id(tenant_id)],
            );
        }
        if log.len() <= 3 {
            return ask_execute(
                sql::DELETE_ADMIN_BLOCK_RULE,
                vec![Param::Id(tenant_id), Param::Id(id), Param::I64(expected_revision)],
            );
        }
        if let Err(fault) = exactly_one(&log[3], DatabaseError::NotFound) {
            return stop(fault);
        }
        if log.len() <= 4 {
            return Step::Ask(Command::Commit);
        }
        Step::Done(())
    }

    /// `mcp_delete_admin_block_rule` runs in one transaction: it is done once its commit is
    /// acknowledged, and when it fails, nothing was committed.
    pub proof fn mcp_delete_admin_block_rule_is_atomic(
        tenant_id: Uuid, id: Uuid, expected_revision: i64, log: Seq<Reply>,
    )
        ensures
            crate::step::is_atomic(
                Self::mcp_delete_admin_block_rule_script(tenant_id, id, expected_revision, log),
                0,
            ),
            crate::step::commit_acknowledged(
                Self::mcp_delete_admin_block_rule_fault(log.drop_last()),
                Self::mcp_delete_admin_block_rule_script(
                    tenant_id, id, expected_revision, log.drop_last(),
                ),
                log,
            ) ==> {
                &&& Self::mcp_delete_admin_block_rule_fault(log) is None
                &&& log.len() == Self::mcp_delete_admin_block_rule_script(
                    tenant_id, id, expected_revision, log,
                ).len()
            },
    {
    }

    /// Every statement of `mcp_delete_admin_block_rule` is about its tenant.
    pub proof fn mcp_delete_admin_block_rule_is_scoped(
        tenant_id: Uuid, id: Uuid, expected_revision: i64, log: Seq<Reply>,
    )
        ensures
            crate::step::is_scoped(
                Self::mcp_delete_admin_block_rule_script(tenant_id, id, expected_revision, log),
                tenant_id,
            ),
    {
    }

    /// What stops `mcp_delete_admin_block_rule_by_id`, in order.
    pub open spec fn mcp_delete_admin_block_rule_by_id_fault(log: Seq<Reply>) -> Option<Fault> {
        if log.len() > 3 && log[3].one_affected(DatabaseError::NotFound) is Err {
            Fault::of(log[3].one_affected(DatabaseError::NotFound))
        } else {
            None
        }
    }

    /// The commands of `mcp_delete_admin_block_rule_by_id`, in order.
    pub open spec fn mcp_delete_admin_block_rule_by_id_script<'a>(
        tenant_id: Uuid, id: Uuid, log: Seq<Reply>,
    ) -> Seq<CommandView<'a>> {
        seq![
            CommandView::Begin,
            CommandView::execute(
                sql::ADVANCE_ADMIN_BLOCK_POLICY_INSERT_POLICY_GENERATIONS,
                seq![Param::Id(tenant_id)],
            ),
            CommandView::execute(
                sql::ADVANCE_ADMIN_BLOCK_POLICY_UPDATE_INVOCATIONS,
                seq![Param::Id(tenant_id)],
            ),
            CommandView::execute(
                sql::DELETE_ADMIN_BLOCK_RULE_BY_ID,
                seq![Param::Id(tenant_id), Param::Id(id)],
            ),
            CommandView::Commit,
        ]
    }

    /// Deletes a block rule, whatever its revision.
    pub fn mcp_delete_admin_block_rule_by_id<'a>(
        tenant_id: Uuid, id: Uuid, log: &'a [Reply],
    ) -> (step: Step<'a, ()>)
        ensures
            step@ == StepView::proceed(
                Self::mcp_delete_admin_block_rule_by_id_fault(log@),
                Self::mcp_delete_admin_block_rule_by_id_script(tenant_id, id, log@),
                (),
                log@,
            ),
    {
        if log.len() == 0 {
            return Step::Ask(Command::Begin);
        }
        if log.len() <= 1 {
            return ask_execute(
                sql::ADVANCE_ADMIN_BLOCK_POLICY_INSERT_POLICY_GENERATIONS,
                vec![Param::Id(tenant_id)],
            );
        }
        if log.len() <= 2 {
            return ask_execute(
                sql::ADVANCE_ADMIN_BLOCK_POLICY_UPDATE_INVOCATIONS,
                vec![Param::Id(tenant_id)],
            );
        }
        if log.len() <= 3 {
            return ask_execute(
                sql::DELETE_ADMIN_BLOCK_RULE_BY_ID,
                vec![Param::Id(tenant_id), Param::Id(id)],
            );
        }
        if let Err(fault) = exactly_one(&log[3], DatabaseError::NotFound) {
            return stop(fault);
        }
        if log.len() <= 4 {
            return Step::Ask(Command::Commit);
        }
        Step::Done(())
    }

    /// `mcp_delete_admin_block_rule_by_id` runs in one transaction: it is done once its commit is
    /// acknowledged, and when it fails, nothing was committed.
    pub proof fn mcp_delete_admin_block_rule_by_id_is_atomic(
        tenant_id: Uuid, id: Uuid, log: Seq<Reply>,
    )
        ensures
            crate::step::is_atomic(
                Self::mcp_delete_admin_block_rule_by_id_script(tenant_id, id, log),
                0,
            ),
            crate::step::commit_acknowledged(
                Self::mcp_delete_admin_block_rule_by_id_fault(log.drop_last()),
                Self::mcp_delete_admin_block_rule_by_id_script(tenant_id, id, log.drop_last()),
                log,
            ) ==> {
                &&& Self::mcp_delete_admin_block_rule_by_id_fault(log) is None
                &&& log.len() == Self::mcp_delete_admin_block_rule_by_id_script(
                    tenant_id, id, log,
                ).len()
            },
    {
    }

    /// Every statement of `mcp_delete_admin_block_rule_by_id` is about its tenant.
    pub proof fn mcp_delete_admin_block_rule_by_id_is_scoped(
        tenant_id: Uuid, id: Uuid, log: Seq<Reply>,
    )
        ensures
            crate::step::is_scoped(
                Self::mcp_delete_admin_block_rule_by_id_script(tenant_id, id, log),
                tenant_id,
            ),
    {
    }

    /// What stops `mcp_cancel_invocation`, in order.
    pub open spec fn mcp_cancel_invocation_fault(log: Seq<Reply>) -> Option<Fault> {
        let state = log[1].required_row::<String>(DatabaseError::NotFound)->Ok_0;
        if log.len() > 1 && log[1].required_row::<String>(DatabaseError::NotFound) is Err {
            Fault::of(log[1].required_row::<String>(DatabaseError::NotFound))
        } else if log.len() > 1 && state@ == "cancelled"@ {
            None
        } else if log.len() > 1 && state@ != "pending"@ && state@ != "running"@ {
            Some(Fault::Error(DatabaseError::Conflict))
        } else {
            None
        }
    }

    /// The commands of `mcp_cancel_invocation`, in order.
    pub open spec fn mcp_cancel_invocation_script<'a>(
        tenant_id: Uuid, principal_id: Uuid, invocation_id: Uuid, log: Seq<Reply>,
    ) -> Seq<CommandView<'a>> {
        let state = log[1].required_row::<String>(DatabaseError::NotFound)->Ok_0;
        seq![
            CommandView::Begin,
            CommandView::optional(
                sql::CANCEL_INVOCATION_SELECT_INVOCATIONS,
                seq![Param::Id(tenant_id), Param::Id(principal_id), Param::Id(invocation_id)],
            ),
        ].add(
            if state@ == "cancelled"@ {
                seq![CommandView::Commit]
            } else {
                seq![
                    CommandView::execute(
                        sql::CANCEL_INVOCATION_UPDATE_INVOCATIONS,
                        seq![
                            Param::Id(tenant_id), Param::Id(principal_id), Param::Id(invocation_id),
                        ],
                    ),
                    CommandView::Commit,
                ]
            },
        )
    }

    /// Cancels an invocation that is not over yet; one that was cancelled before stays so.
    pub fn mcp_cancel_invocation<'a>(
        tenant_id: Uuid, principal_id: Uuid, invocation_id: Uuid, log: &'a [Reply],
    ) -> (step: Step<'a, ()>)
        ensures
            step@ == StepView::proceed(
                Self::mcp_cancel_invocation_fault(log@),
                Self::mcp_cancel_invocation_script(tenant_id, principal_id, invocation_id, log@),
                (),
                log@,
            ),
    {
        if log.len() == 0 {
            return Step::Ask(Command::Begin);
        }
        if log.len() <= 1 {
            return ask_optional(
                sql::CANCEL_INVOCATION_SELECT_INVOCATIONS,
                vec![Param::Id(tenant_id), Param::Id(principal_id), Param::Id(invocation_id)],
            );
        }
        let state: String = match required::<String>(&log[1], DatabaseError::NotFound) {
            Ok(value) => value,
            Err(fault) => return stop(fault),
        };
        if text_eq(state.as_str(), "cancelled") {
            if log.len() <= 2 {
                return Step::Ask(Command::Commit);
            }
            return Step::Done(());
        }
        if !text_eq(state.as_str(), "pending") && !text_eq(state.as_str(), "running") {
            return Step::Fail(DatabaseError::Conflict);
        }
        if log.len() <= 2 {
            return ask_execute(
                sql::CANCEL_INVOCATION_UPDATE_INVOCATIONS,
                vec![Param::Id(tenant_id), Param::Id(principal_id), Param::Id(invocation_id)],
            );
        }
        if log.len() <= 3 {
            return Step::Ask(Command::Commit);
        }
        Step::Done(())
    }

    /// `mcp_cancel_invocation` runs in one transaction: it is done once its commit is acknowledged,
    /// and when it fails, nothing was committed.
    pub proof fn mcp_cancel_invocation_is_atomic(
        tenant_id: Uuid, principal_id: Uuid, invocation_id: Uuid, log: Seq<Reply>,
    )
        ensures
            crate::step::is_atomic(
                Self::mcp_cancel_invocation_script(tenant_id, principal_id, invocation_id, log),
                0,
            ),
            crate::step::commit_acknowledged(
                Self::mcp_cancel_invocation_fault(log.drop_last()),
                Self::mcp_cancel_invocation_script(
                    tenant_id, principal_id, invocation_id, log.drop_last(),
                ),
                log,
            ) ==> {
                &&& Self::mcp_cancel_invocation_fault(log) is None
                &&& log.len() == Self::mcp_cancel_invocation_script(
                    tenant_id, principal_id, invocation_id, log,
                ).len()
            },
    {
    }

    /// Every statement of `mcp_cancel_invocation` is about its tenant.
    pub proof fn mcp_cancel_invocation_is_scoped(
        tenant_id: Uuid, principal_id: Uuid, invocation_id: Uuid, log: Seq<Reply>,
    )
        ensures
            crate::step::is_scoped(
                Self::mcp_cancel_invocation_script(tenant_id, principal_id, invocation_id, log),
                tenant_id,
            ),
    {
    }

}

} // verus!
