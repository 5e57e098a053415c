//! Grants of file versions to registrations, and what invocations sent of them.

use vstd::prelude::*;

use crate::database::Database;
use crate::error::DatabaseError;
use crate::error::Fault;
use crate::id::Uuid;
use crate::row::FromRow;
use crate::row::Reply;
use crate::row::Row;
use crate::row::required;
use crate::sql::mcp as sql;
use crate::step::Command;
use crate::step::CommandView;
use crate::step::ErrorRule;
use crate::step::Fetch;
use crate::step::Param;
use crate::step::Step;
use crate::step::StepView;
use crate::step::ask;
use crate::step::ask_execute;
use crate::step::ask_optional;
use crate::step::stop;
use crate::step::stop_deep;

verus! {

/// How long a data grant may last, in seconds: thirty days.
pub const MAX_GRANT_SECONDS: i64 = 2_592_000;

#[derive(Debug)]
pub struct NewMcpDataGrant {
    pub tenant_id: Uuid,
    pub id: Uuid,
    pub principal_id: Uuid,
    pub registration_id: Uuid,
    pub drive_id: Uuid,
    pub resource_id: Uuid,
    pub version_id: Uuid,
    pub allow_metadata: bool,
    pub allow_content: bool,
    pub drive_acl_generation: i64,
    pub acl_generation: i64,
    pub namespace_generation: i64,
    pub created_by: Uuid,
    pub lifetime_seconds: i64,
}

impl NewMcpDataGrant {
    /// Whether the grant allows something for a while.
    pub open spec fn is_valid(&self) -> bool {
        1 <= self.lifetime_seconds <= MAX_GRANT_SECONDS && (self.allow_metadata
            || self.allow_content)
    }

    /// Whether the grant allows something for a while.
    pub fn valid(&self) -> (r: bool)
        ensures
            r == self.is_valid(),
    {
        1 <= self.lifetime_seconds && self.lifetime_seconds <= MAX_GRANT_SECONDS && (
        self.allow_metadata || self.allow_content)
    }
}

/// The generations of a version's node and drive, read while they are locked.
#[derive(Clone, Copy, Debug, PartialEq, Eq, Structural)]
pub struct LockedGenerations {
    pub drive_acl_generation: i64,
    pub acl_generation: i64,
    pub namespace_generation: i64,
}

impl LockedGenerations {
    /// What a row holds, read by its column names.
    #[verifier::opaque]
    pub open spec fn of_row(row: Row) -> Result<LockedGenerations, Fault> {
        if row.column::<i64>("drive_acl_generation"@) is Some
            && row.column::<i64>("acl_generation"@) is Some
            && row.column::<i64>("namespace_generation"@) is Some {
            Ok(
                LockedGenerations {
                    drive_acl_generation: row.column::<i64>("drive_acl_generation"@)->0,
                    acl_generation: row.column::<i64>("acl_generation"@)->0,
                    namespace_generation: row.column::<i64>("namespace_generation"@)->0,
                },
            )
        } else {
            Err(Fault::Malformed)
        }
    }
}

impl FromRow for LockedGenerations {
    open spec fn row_spec(row: Row) -> Result<LockedGenerations, Fault> {
        LockedGenerations::of_row(row)
    }

    fn from_row(row: &Row) -> (r: Result<LockedGenerations, Fault>) {
        proof {
            reveal(LockedGenerations::of_row);
        }
        let drive_acl_generation: i64 = match row.get("drive_acl_generation") {
            Some(v) => v,
            None => return Err(Fault::Malformed),
        };
        let acl_generation: i64 = match row.get("acl_generation") {
            Some(v) => v,
            None => return Err(Fault::Malformed),
        };
        let namespace_generation: i64 = match row.get("namespace_generation") {
            Some(v) => v,
            None => return Err(Fault::Malformed),
        };
        Ok(LockedGenerations { drive_acl_generation, acl_generation, namespace_generation })
    }
}

/// What a grant lets an invocation see, with the generations of the moment.
#[derive(Clone, Copy, Debug, PartialEq, Eq, Structural)]
pub struct McpAuthoritySnapshot {
    pub principal_generation: i64,
    pub registration_generation: i64,
    pub drive_acl_generation: i64,
    pub acl_generation: i64,
    pub namespace_generation: i64,
    pub allow_metadata: bool,
    pub allow_content: bool,
}

/// A grant with the generations that it was made under and those of the moment.
#[derive(Clone, Copy, Debug, PartialEq, Eq, Structural)]
pub struct GrantedAuthority {
    pub principal_generation: i64,
    pub revocation_generation: i64,
    pub drive_acl_generation: i64,
    pub acl_generation: i64,
    pub namespace_generation: i64,
    pub granted_drive_acl_generation: Option<i64>,
    pub granted_acl_generation: i64,
    pub granted_namespace_generation: i64,
    pub allow_metadata: bool,
    pub allow_content: bool,
}

impl GrantedAuthority {
    /// What a row holds, read by its column names.
    #[verifier::opaque]
    pub open spec fn of_row(row: Row) -> Result<GrantedAuthority, Fault> {
        if row.column::<i64>("principal_generation"@) is Some
            && row.column::<i64>("revocation_generation"@) is Some
            && row.column::<i64>("drive_acl_generation"@) is Some
            && row.column::<i64>("acl_generation"@) is Some
            && row.column::<i64>("namespace_generation"@) is Some
            && row.column::<Option<i64>>("granted_drive_acl_generation"@) is Some
            && row.column::<i64>("granted_acl_generation"@) is Some
            && row.column::<i64>("granted_namespace_generation"@) is Some
            && row.column::<bool>("allow_metadata"@) is Some
            && row.column::<bool>("allow_content"@) is Some {
            Ok(
                GrantedAuthority {
                    principal_generation: row.column::<i64>("principal_generation"@)->0,
                    revocation_generation: row.column::<i64>("revocation_generation"@)->0,
                    drive_acl_generation: row.column::<i64>("drive_acl_generation"@)->0,
                    acl_generation: row.column::<i64>("acl_generation"@)->0,
                    namespace_generation: row.column::<i64>("namespace_generation"@)->0,
                    granted_drive_acl_generation: row.column::<Option<i64>>(
                        "granted_drive_acl_generation"@,
                    )->0,
                    granted_acl_generation: row.column::<i64>("granted_acl_generation"@)->0,
                    granted_namespace_generation: row.column::<i64>(
                        "granted_namespace_generation"@,
                    )->0,
                    allow_metadata: row.column::<bool>("allow_metadata"@)->0,
                    allow_content: row.column::<bool>("allow_content"@)->0,
                },
            )
        } else {
            Err(Fault::Malformed)
        }
    }
}

impl FromRow for GrantedAuthority {
    open spec fn row_spec(row: Row) -> Result<GrantedAuthority, Fault> {
        GrantedAuthority::of_row(row)
    }

    fn from_row(row: &Row) -> (r: Result<GrantedAuthority, Fault>) {
        proof {
            reveal(GrantedAuthority::of_row);
        }
        let principal_generation: i64 = match row.get("principal_generation") {
            Some(v) => v,
            None => return Err(Fault::Malformed),
        };
        let revocation_generation: i64 = match row.get("revocation_generation") {
            Some(v) => v,
            None => return Err(Fault::Malformed),
        };
        let drive_acl_generation: i64 = match row.get("drive_acl_generation") {
            Some(v) => v,
            None => return Err(Fault::Malformed),
        };
        let acl_generation: i64 = match row.get("acl_generation") {
            Some(v) => v,
            None => return Err(Fault::Malformed),
        };
        let namespace_generation: i64 = match row.get("namespace_generation") {
            Some(v) => v,
            None => return Err(Fault::Malformed),
        };
        let granted_drive_acl_generation: Option<i64> = match row.get(
            "granted_drive_acl_generation",
        ) {
            Some(v) => v,
            None => return Err(Fault::Malformed),
        };
        let granted_acl_generation: i64 = match row.get("granted_acl_generation") {
            Some(v) => v,
            None => return Err(Fault::Malformed),
        };
        let granted_namespace_generation: i64 = match row.get("granted_namespace_generation") {
            Some(v) => v,
            None => return Err(Fault::Malformed),
        };
        let allow_metadata: bool = match row.get("allow_metadata") {
            Some(v) => v,
            None => return Err(Fault::Malformed),
        };
        let allow_content: bool = match row.get("allow_content") {
            Some(v) => v,
            None => return Err(Fault::Malformed),
        };
        Ok(GrantedAuthority {
            principal_generation, revocation_generation, drive_acl_generation, acl_generation,
            namespace_generation, granted_drive_acl_generation, granted_acl_generation,
            granted_namespace_generation, allow_metadata, allow_content,
        })
    }
}

/// The name and type under which a file is sent.
#[derive(Debug)]
pub struct McpAttachmentMetadata {
    pub basename: String,
    pub media_type: String,
}

/// What an [`McpAttachmentMetadata`] holds.
#[verifier::ext_equal]
pub struct McpAttachmentMetadataView {
    pub basename: Seq<char>,
    pub media_type: Seq<char>,
}

impl View for McpAttachmentMetadata {
    type V = McpAttachmentMetadataView;

    open spec fn view(&self) -> McpAttachmentMetadataView {
        McpAttachmentMetadataView { basename: self.basename@, media_type: self.media_type@ }
    }
}

/// A file that may be sent.
#[derive(Debug)]
pub struct AttachedFile {
    pub display_name: String,
    pub media_type: Option<String>,
}

impl AttachedFile {
    /// What a row holds, read by its column names.
    #[verifier::opaque]
    pub open spec fn of_row(row: Row) -> Result<AttachedFile, Fault> {
        if row.column::<String>("display_name"@) is Some
            && row.column::<Option<String>>("media_type"@) is Some {
            Ok(
                AttachedFile {
                    display_name: row.column::<String>("display_name"@)->0,
                    media_type: row.column::<Option<String>>("media_type"@)->0,
                },
            )
        } else {
            Err(Fault::Malformed)
        }
    }
}

impl FromRow for AttachedFile {
    open spec fn row_spec(row: Row) -> Result<AttachedFile, Fault> {
        AttachedFile::of_row(row)
    }

    fn from_row(row: &Row) -> (r: Result<AttachedFile, Fault>) {
        proof {
            reveal(AttachedFile::of_row);
        }
        let display_name: String = match row.get("display_name") {
            Some(v) => v,
            None => return Err(Fault::Malformed),
        };
        let media_type: Option<String> = match row.get("media_type") {
            Some(v) => v,
            None => return Err(Fault::Malformed),
        };
        Ok(AttachedFile { display_name, media_type })
    }
}

impl Database {

    /// What stops `mcp_create_data_grant`, in order.
    pub open spec fn mcp_create_data_grant_fault<'a>(
        input: &'a NewMcpDataGrant,
        log: Seq<Reply>,
    ) -> Option<Fault> {
        let locked = log[2].required_row::<LockedGenerations>(DatabaseError::NotFound)->Ok_0;
        if !input.is_valid() {
            Some(Fault::Error(DatabaseError::InvalidPersistedValue))
        } else if log.len() > 1 && log[1].required_row::<i64>(DatabaseError::NotFound) is Err {
            Fault::of(log[1].required_row::<i64>(DatabaseError::NotFound))
        } else if log.len() > 1 && (input.drive_acl_generation <= 0 || input.acl_generation <= 0
                || input.namespace_generation <= 0) {
            Some(Fault::Error(DatabaseError::InvalidPersistedValue))
        } else if log.len() > 2
            && log[2].required_row::<LockedGenerations>(DatabaseError::NotFound) is Err {
            Fault::of(log[2].required_row::<LockedGenerations>(DatabaseError::NotFound))
        } else if log.len() > 2 && (locked.drive_acl_generation != input.drive_acl_generation
                || locked.acl_generation != input.acl_generation
                || locked.namespace_generation != input.namespace_generation) {
            Some(Fault::Error(DatabaseError::StaleGeneration))
        } else {
            None
        }
    }

    /// The commands of `mcp_create_data_grant`, in order.
    pub open spec fn mcp_create_data_grant_script<'a>(
        input: &'a NewMcpDataGrant,
        log: Seq<Reply>,
    ) -> Seq<CommandView<'a>> {
        let registration_generation = log[1].required_row::<i64>(DatabaseError::NotFound)->Ok_0;
        seq![
            CommandView::Begin,
            CommandView::optional(
                sql::INSERT_DATA_GRANT_SELECT_REGISTRATIONS,
                seq![
                    Param::Id(input.tenant_id), Param::Id(input.registration_id),
                    Param::Id(input.principal_id),
                ],
            ),
            CommandView::optional(
                sql::LOCK_DATA_GRANT_VERSION,
                seq![
                    Param::Id(input.tenant_id), Param::Id(input.drive_id),
                    Param::Id(input.resource_id), Param::Id(input.version_id),
                ],
            ),
            CommandView::ruled(
                sql::INSERT_DATA_GRANT_INSERT_DATA_GRANTS,
                seq![
                    Param::Id(input.tenant_id), Param::Id(input.id),
                    Param::Id(input.principal_id), Param::Id(input.registration_id),
                    Param::Id(input.drive_id), Param::Id(input.resource_id),
                    Param::Id(input.version_id), Param::Bool(input.allow_metadata),
                    Param::Bool(input.allow_content), Param::I64(input.drive_acl_generation),
                    Param::I64(input.acl_generation), Param::I64(input.namespace_generation),
                    Param::I64(registration_generation), Param::Id(input.created_by),
                    Param::I64(input.lifetime_seconds),
                ],
                Fetch::Execute, ErrorRule::SecurityAdmission,
            ),
            CommandView::Commit,
        ]
    }

    /// Grants a registration one version of one file, under the generations that the caller was
    /// authorized under.
    pub fn mcp_create_data_grant<'a>(
        input: &'a NewMcpDataGrant,
        log: &'a [Reply],
    ) -> (step: Step<'a, ()>)
        ensures
            step@ == StepView::proceed(
                Self::mcp_create_data_grant_fault(input, log@),
                Self::mcp_create_data_grant_script(input, log@),
                (),
                log@,
            ),
    {
        if !input.valid() {
            return Step::Fail(DatabaseError::InvalidPersistedValue);
        }
        if log.len() == 0 {
            return Step::Ask(Command::Begin);
        }
        if log.len() <= 1 {
            return ask_optional(
                sql::INSERT_DATA_GRANT_SELECT_REGISTRATIONS,
                vec![
                    Param::Id(input.tenant_id), Param::Id(input.registration_id),
                    Param::Id(input.principal_id),
                ],
            );
        }
        let registration_generation: i64 = match required::<i64>(&log[1], DatabaseError::NotFound) {
            Ok(value) => value,
            Err(fault) => return stop(fault),
        };
        if input.drive_acl_generation <= 0 || input.acl_generation <= 0
            || input.namespace_generation <= 0 {
            return Step::Fail(DatabaseError::InvalidPersistedValue);
        }
        if log.len() <= 2 {
            return ask_optional(
                sql::LOCK_DATA_GRANT_VERSION,
                vec![
                    Param::Id(input.tenant_id), Param::Id(input.drive_id),
                    Param::Id(input.resource_id), Param::Id(input.version_id),
                ],
            );
        }
        let locked: LockedGenerations = match required(&log[2], DatabaseError::NotFound) {
            Ok(value) => value,
            Err(fault) => return stop(fault),
        };
        if locked.drive_acl_generation != input.drive_acl_generation
            || locked.acl_generation != input.acl_generation
            || locked.namespace_generation != input.namespace_generation {
            return Step::Fail(DatabaseError::StaleGeneration);
        }
        if log.len() <= 3 {
            return ask(
                sql::INSERT_DATA_GRANT_INSERT_DATA_GRANTS,
                vec![
                    Param::Id(input.tenant_id), Param::Id(input.id),
                    Param::Id(input.principal_id), Param::Id(input.registration_id),
                    Param::Id(input.drive_id), Param::Id(input.resource_id),
                    Param::Id(input.version_id), Param::Bool(input.allow_metadata),
                    Param::Bool(input.allow_content), Param::I64(input.drive_acl_generation),
                    Param::I64(input.acl_generation), Param::I64(input.namespace_generation),
                    Param::I64(registration_generation), Param::Id(input.created_by),
                    Param::I64(input.lifetime_seconds),
                ],
                Fetch::Execute, ErrorRule::SecurityAdmission,
            );
        }
        if log.len() <= 4 {
            return Step::Ask(Command::Commit);
        }
        Step::Done(())
    }

    /// `mcp_create_data_grant` runs in one transaction: it is done once its commit is acknowledged,
    /// and when it fails, nothing was committed.
    pub proof fn mcp_create_data_grant_is_atomic<'a>(input: &'a NewMcpDataGrant, log: Seq<Reply>)
        ensures
            crate::step::is_atomic(Self::mcp_create_data_grant_script(input, log), 0),
            crate::step::commit_acknowledged(
                Self::mcp_create_data_grant_fault(input, log.drop_last()),
                Self::mcp_create_data_grant_script(input, log.drop_last()),
                log,
            ) ==> {
                &&& Self::mcp_create_data_grant_fault(input, log) is None
                &&& log.len() == Self::mcp_create_data_grant_script(input, log).len()
            },
    {
    }

    /// Every statement of `mcp_create_data_grant` is about its tenant.
    pub proof fn mcp_create_data_grant_is_scoped<'a>(input: &'a NewMcpDataGrant, log: Seq<Reply>)
        ensures
            crate::step::is_scoped(Self::mcp_create_data_grant_script(input, log), input.tenant_id),
    {
    }

    /// What stops `mcp_authority_snapshot`, in order.
    pub open spec fn mcp_authority_snapshot_fault(log: Seq<Reply>) -> Option<Fault> {
        let authority = log[0].required_row::<GrantedAuthority>(DatabaseError::NotFound)->Ok_0;
        if log.len() > 0
            && log[0].required_row::<GrantedAuthority>(DatabaseError::NotFound) is Err {
            Fault::of(log[0].required_row::<GrantedAuthority>(DatabaseError::NotFound))
        } else if log.len() > 0
            && (authority.granted_drive_acl_generation != Some(authority.drive_acl_generation)
                    || authority.acl_generation != authority.granted_acl_generation
                    || authority.namespace_generation != authority.granted_namespace_generation) {
            Some(Fault::Error(DatabaseError::StaleGeneration))
        } else {
            None
        }
    }

    /// The commands of `mcp_authority_snapshot`, in order.
    pub open spec fn mcp_authority_snapshot_script<'a>(
        tenant_id: Uuid, principal_id: Uuid, registration_id: Uuid, data_grant_id: Uuid,
        log: Seq<Reply>,
    ) -> Seq<CommandView<'a>> {
        seq![
            CommandView::optional(
                sql::AUTHORITY_SNAPSHOT,
                seq![
                    Param::Id(tenant_id), Param::Id(principal_id), Param::Id(registration_id),
                    Param::Id(data_grant_id),
                ],
            ),
        ]
    }

    /// What `mcp_authority_snapshot` returns.
    pub open spec fn mcp_authority_snapshot_output(log: Seq<Reply>) -> McpAuthoritySnapshot {
        let authority = log[0].required_row::<GrantedAuthority>(DatabaseError::NotFound)->Ok_0;
        McpAuthoritySnapshot {
            principal_generation: authority.principal_generation,
            registration_generation: authority.revocation_generation,
            drive_acl_generation: authority.drive_acl_generation,
            acl_generation: authority.acl_generation,
            namespace_generation: authority.namespace_generation,
            allow_metadata: authority.allow_metadata,
            allow_content: authority.allow_content,
        }
    }

    /// What a live grant allows. A grant is stale once the access control of its drive or file, or
    /// the file's place, has changed.
    pub fn mcp_authority_snapshot<'a>(
        tenant_id: Uuid, principal_id: Uuid, registration_id: Uuid, data_grant_id: Uuid,
        log: &'a [Reply],
    ) -> (step: Step<'a, McpAuthoritySnapshot>)
        ensures
            step@ == StepView::proceed(
                Self::mcp_authority_snapshot_fault(log@),
                Self::mcp_authority_snapshot_script(
                    tenant_id, principal_id, registration_id, data_grant_id, log@,
                ),
                Self::mcp_authority_snapshot_output(log@),
                log@,
            ),
    {
        if log.len() == 0 {
            return ask_optional(
                sql::AUTHORITY_SNAPSHOT,
                vec![
                    Param::Id(tenant_id), Param::Id(principal_id), Param::Id(registration_id),
                    Param::Id(data_grant_id),
                ],
            );
        }
        let authority: GrantedAuthority = match required(&log[0], DatabaseError::NotFound) {
            Ok(value) => value,
            Err(fault) => return stop(fault),
        };
        if authority.granted_drive_acl_generation != Some(authority.drive_acl_generation)
            || authority.acl_generation != authority.granted_acl_generation
            || authority.namespace_generation != authority.granted_namespace_generation {
            return Step::Fail(DatabaseError::StaleGeneration);
        }
        Step::Done(
            McpAuthoritySnapshot {
                principal_generation: authority.principal_generation,
                registration_generation: authority.revocation_generation,
                drive_acl_generation: authority.drive_acl_generation,
                acl_generation: authority.acl_generation,
                namespace_generation: authority.namespace_generation,
                allow_metadata: authority.allow_metadata,
                allow_content: authority.allow_content,
            },
        )
    }

    /// Every statement of `mcp_authority_snapshot` is about its tenant.
    pub proof fn mcp_authority_snapshot_is_scoped(
        tenant_id: Uuid, principal_id: Uuid, registration_id: Uuid, data_grant_id: Uuid,
        log: Seq<Reply>,
    )
        ensures
            crate::step::is_scoped(
                Self::mcp_authority_snapshot_script(
                    tenant_id, principal_id, registration_id, data_grant_id, log,
                ),
                tenant_id,
            ),
    {
    }

    /// What stops `mcp_attachment_metadata`, in order.
    pub open spec fn mcp_attachment_metadata_fault(log: Seq<Reply>) -> Option<Fault> {
        if log.len() > 0 && log[0].required_row::<AttachedFile>(DatabaseError::NotFound) is Err {
            Fault::of(log[0].required_row::<AttachedFile>(DatabaseError::NotFound))
        } else {
            None
        }
    }

    /// The commands of `mcp_attachment_metadata`, in order.
    pub open spec fn mcp_attachment_metadata_script<'a>(
        tenant_id: Uuid, drive_id: Uuid, resource_id: Uuid, version_id: Uuid, log: Seq<Reply>,
    ) -> Seq<CommandView<'a>> {
        seq![
            CommandView::optional(
                sql::ATTACHMENT_METADATA,
                seq![
                    Param::Id(tenant_id), Param::Id(drive_id), Param::Id(resource_id),
                    Param::Id(version_id),
                ],
            ),
        ]
    }

    /// What `mcp_attachment_metadata` returns.
    pub open spec fn mcp_attachment_metadata_output(log: Seq<Reply>) -> McpAttachmentMetadataView {
        let file = log[0].required_row::<AttachedFile>(DatabaseError::NotFound)->Ok_0;
        McpAttachmentMetadataView {
            basename: file.display_name@,
            media_type: if file.media_type is Some { file.media_type->0@ } else {
                "application/octet-stream"@
            },
        }
    }

    /// The name and type under which a file's version is sent; a version without a type is sent as
    /// plain bytes.
    pub fn mcp_attachment_metadata<'a>(
        tenant_id: Uuid, drive_id: Uuid, resource_id: Uuid, version_id: Uuid, log: &'a [Reply],
    ) -> (step: Step<'a, McpAttachmentMetadata>)
        ensures
            step.deep() == StepView::proceed(
                Self::mcp_attachment_metadata_fault(log@),
                Self::mcp_attachment_metadata_script(
                    tenant_id, drive_id, resource_id, version_id, log@,
                ),
                Self::mcp_attachment_metadata_output(log@),
                log@,
            ),
    {
        if log.len() == 0 {
            return ask_optional(
                sql::ATTACHMENT_METADATA,
                vec![
                    Param::Id(tenant_id), Param::Id(drive_id), Param::Id(resource_id),
                    Param::Id(version_id),
                ],
            );
        }
        let file: AttachedFile = match required::<AttachedFile>(&log[0], DatabaseError::NotFound) {
            Ok(value) => value,
            Err(fault) => return stop_deep(fault),
        };
        Step::Done(
            McpAttachmentMetadata {
                basename: file.display_name,
                media_type: match file.media_type {
                    Some(media_type) => media_type,
                    None => "application/octet-stream".to_owned(),
                },
            },
        )
    }

    /// Every statement of `mcp_attachment_metadata` is about its tenant.
    pub proof fn mcp_attachment_metadata_is_scoped(
        tenant_id: Uuid, drive_id: Uuid, resource_id: Uuid, version_id: Uuid, log: Seq<Reply>,
    )
        ensures
            crate::step::is_scoped(
                Self::mcp_attachment_metadata_script(
                    tenant_id, drive_id, resource_id, version_id, log,
                ),
                tenant_id,
            ),
    {
    }

    /// What stops `mcp_record_invocation_attachment`, in order.
    pub open spec fn mcp_record_invocation_attachment_fault(
        ordinal: i32, bytes_sent: i64, log: Seq<Reply>,
    ) -> Option<Fault> {
        if ordinal < 0 || ordinal > 3 || bytes_sent < 0 {
            Some(Fault::Error(DatabaseError::InvalidPersistedValue))
        } else {
            None
        }
    }

    /// The commands of `mcp_record_invocation_attachment`, in order.
    pub open spec fn mcp_record_invocation_attachment_script<'a>(
        tenant_id: Uuid, invocation_id: Uuid, ordinal: i32, version_id: Uuid,
        sent_content: bool, sent_basename: bool, sent_media_type: bool, sent_size: bool,
        bytes_sent: i64, log: Seq<Reply>,
    ) -> Seq<CommandView<'a>> {
        seq![
            CommandView::execute(
                sql::RECORD_INVOCATION_ATTACHMENT,
                seq![
                    Param::Id(tenant_id), Param::Id(invocation_id), Param::I32(ordinal),
                    Param::Id(version_id), Param::Bool(sent_content),
                    Param::Bool(sent_basename), Param::Bool(sent_media_type),
                    Param::Bool(sent_size), Param::I64(bytes_sent),
                ],
            ),
        ]
    }

    /// Records what an invocation sent of a file.
    pub fn mcp_record_invocation_attachment<'a>(
        tenant_id: Uuid, invocation_id: Uuid, ordinal: i32, version_id: Uuid,
        sent_content: bool, sent_basename: bool, sent_media_type: bool, sent_size: bool,
        bytes_sent: i64, log: &'a [Reply],
    ) -> (step: Step<'a, ()>)
        ensures
            step@ == StepView::proceed(
                Self::mcp_record_invocation_attachment_fault(ordinal, bytes_sent, log@),
                Self::mcp_record_invocation_attachment_script(
                    tenant_id, invocation_id, ordinal, version_id, sent_content, sent_basename,
                    sent_media_type, sent_size, bytes_sent, log@,
                ),
                (),
                log@,
            ),
    {
        if ordinal < 0 || ordinal > 3 || bytes_sent < 0 {
            return Step::Fail(DatabaseError::InvalidPersistedValue);
        }
        if log.len() == 0 {
            return ask_execute(
                sql::RECORD_INVOCATION_ATTACHMENT,
                vec![
                    Param::Id(tenant_id), Param::Id(invocation_id), Param::I32(ordinal),
                    Param::Id(version_id), Param::Bool(sent_content),
                    Param::Bool(sent_basename), Param::Bool(sent_media_type),
                    Param::Bool(sent_size), Param::I64(bytes_sent),
                ],
            );
        }
        Step::Done(())
    }

    /// Every statement of `mcp_record_invocation_attachment` is about its tenant.
    pub proof fn mcp_record_invocation_attachment_is_scoped(
        tenant_id: Uuid, invocation_id: Uuid, ordinal: i32, version_id: Uuid, sent_content: bool,
        sent_basename: bool, sent_media_type: bool, sent_size: bool, bytes_sent: i64,
        log: Seq<Reply>,
    )
        ensures
            crate::step::is_scoped(
                Self::mcp_record_invocation_attachment_script(
                    tenant_id, invocation_id, ordinal, version_id, sent_content, sent_basename,
                    sent_media_type, sent_size, bytes_sent, log,
                ),
                tenant_id,
            ),
    {
    }

}

} // verus!
