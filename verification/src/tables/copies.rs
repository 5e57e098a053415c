//! The rows behind copies of revisions in conflict, and the law of what a copy leaves.

use std::sync::Arc;

use vstd::prelude::*;

use crate::database::Database;
use crate::document::ConflictRevision;
use crate::document::DocumentAuthorizationGenerations;
use crate::document::DocumentConflictCopyRecord;
use crate::document::NormalizedName;
use crate::document::OperationReceipt;
use crate::error::DatabaseError;
use crate::error::Fault;
use crate::fence::FenceGenerations;
use crate::id::Uuid;
use crate::row::Reply;
use crate::row::Row;
use crate::sql::document as sql;
use crate::step::Param;
use crate::tables::answers;
use crate::tables::catalog::tells;
use crate::tables::catalog::with_catalog;
use crate::tables::catalog::AuditRow;
use crate::tables::catalog::CatalogTables;
use crate::tables::catalog::Fact;
use crate::tables::catalog::NodeRow;
use crate::tables::catalog::VersionRow;
use crate::tables::document::admits;
use crate::tables::document::settles;
use crate::tables::document::DocumentTables;
use crate::tables::document_laws::fence_of;
use crate::tables::first_row;
use crate::tables::has;
use crate::tables::has_bytes;
use crate::tables::has_text;
use crate::tables::touches;
use crate::tables::uploads::placed;
use crate::tables::Course;
use crate::tables::Tables;

verus! {

/// Whether a revision can be copied: it is in conflict and still kept, and the principal created
/// its session.
pub open spec fn is_copyable(
    documents: DocumentTables,
    id: Uuid,
    session_id: Uuid,
    principal_id: Uuid,
    now: int,
) -> bool {
    let revision = documents.revisions[id];
    &&& documents.revisions.contains_key(id)
    &&& revision.document_session_id == session_id
    &&& documents.sessions.contains_key(session_id)
    &&& documents.sessions[session_id].created_by == principal_id
    &&& revision.state == "conflict"@
    &&& revision.payload_id is Some
    &&& revision.retained_until is Some
    &&& revision.retained_until->0.at > now
}

/// Whether a node is a live directory of a drive.
pub open spec fn is_directory(catalog: CatalogTables, drive_id: Uuid, id: Uuid) -> bool {
    &&& crate::tables::catalog::is_live(catalog, drive_id, id)
    &&& catalog.nodes[id].kind == "directory"@
}

/// Whether a row is the file of a copy: without a version, and live.
pub open spec fn is_copy_file<'a>(row: NodeRow, params: Seq<Param<'a>>) -> bool {
    &&& row.drive_id == params[1]->Id_0
    &&& row.parent_id == Some(params[3]->Id_0)
    &&& row.kind == "file"@
    &&& row.display_name == params[4]->Owned_0@
    &&& row.name_key == params[5]->Text_0@
    &&& row.owner_principal_id == params[6]->Id_0
    &&& row.head_version_id is None
    &&& row.trash_root_id is None
}

/// Whether a row is the version of a copy.
pub open spec fn is_copy_version<'a>(row: VersionRow, params: Seq<Param<'a>>) -> bool {
    &&& row.ordinal == 1
    &&& row.payload_id == params[3]->Id_0
    &&& row.size_bytes == params[4]->I64_0
    &&& row.blake3 == params[5]->Blob_0@
    &&& row.media_type == Some(params[6]->Owned_0@)
    &&& row.created_by == params[7]->Id_0
    &&& row.origin_kind == "external_document"@
}

/// Whether a row of a reply is what a revision in conflict holds.
pub open spec fn is_conflict_row(row: Row, documents: DocumentTables, id: Uuid) -> bool {
    let revision = documents.revisions[id];
    &&& has::<Uuid>(row, "payload_id"@, revision.payload_id->0)
    &&& match revision.size_bytes {
        Some(size_bytes) => has::<i64>(row, "size_bytes"@, size_bytes),
        None => row.column::<i64>("size_bytes"@) is None,
    }
    &&& match revision.blake3 {
        Some(blake3) => has_bytes(row, "blake3"@, blake3),
        None => row.column::<Arc<Vec<u8>>>("blake3"@) is None,
    }
    &&& match revision.media_type {
        Some(media_type) => has_text(row, "media_type"@, media_type),
        None => row.column::<String>("media_type"@) is None,
    }
    &&& has::<i64>(row, "reserved_bytes"@, revision.reserved_bytes)
    &&& has::<Uuid>(row, "drive_id"@, documents.session_of(id).drive_id)
}

/// What the statements that copy a revision do.
#[verifier::opaque]
pub open spec fn means<'a>(
    sql: &'static str,
    params: Seq<Param<'a>>,
    reply: Reply,
    now: int,
    before: Tables,
    after: Tables,
) -> bool {
    let documents = before.documents;
    let catalog = before.catalog;
    let id = params[1]->Id_0;
    let node_id = params[2]->Id_0;
    &&& sql == sql::CREATE_DOCUMENT_CONFLICT_COPY_SELECT_REVISIONS ==> {
        &&& after == before
        &&& reply is Rows
        &&& first_row(reply) is None ==> forall|other: Uuid|
            !(#[trigger] is_copyable(documents, other, id, params[2]->Id_0, now))
        &&& first_row(reply) matches Some(row) ==> exists|other: Uuid|
            {
                &&& #[trigger] is_copyable(documents, other, id, params[2]->Id_0, now)
                &&& is_conflict_row(row, documents, other)
            }
    }
    &&& sql == sql::CREATE_DOCUMENT_CONFLICT_COPY_SELECT_NODES ==> {
        &&& after == before
        &&& answers(reply, is_directory(catalog, id, node_id))
        &&& reply.optional_row::<i64>() matches Ok(Some(found)) ==> found
            == catalog.nodes[node_id].namespace_generation
    }
    &&& sql == sql::CREATE_DOCUMENT_CONFLICT_COPY_INSERT_NODES ==> {
        &&& !catalog.nodes.contains_key(node_id)
        &&& exists|row: NodeRow|
            {
                &&& #[trigger] is_copy_file(row, params)
                &&& after == with_catalog(
                    before,
                    CatalogTables { nodes: catalog.nodes.insert(node_id, row), ..catalog },
                )
            }
    }
    &&& sql == sql::CREATE_DOCUMENT_CONFLICT_COPY_INSERT_NODE_ANCESTRY ==> after == with_catalog(
        before,
        CatalogTables {
            ancestry: placed(catalog.ancestry, id, params[2]->Id_0, params[3]->Id_0),
            ..catalog
        },
    )
    &&& sql == sql::CREATE_DOCUMENT_CONFLICT_COPY_INSERT_FILE_VERSIONS ==> {
        let key = (id, params[2]->Id_0);
        &&& !catalog.versions.contains_key(key)
        &&& exists|row: VersionRow|
            {
                &&& #[trigger] is_copy_version(row, params)
                &&& after == with_catalog(
                    before,
                    CatalogTables { versions: catalog.versions.insert(key, row), ..catalog },
                )
            }
    }
    &&& sql == sql::CREATE_DOCUMENT_CONFLICT_COPY_UPDATE_PAYLOAD_OBJECTS ==> touches(
        reply,
        catalog.payload_is(id, "finalized"@),
    )
}

/// What a copy adds to the catalog: a file in the directory, with one version, which holds what the
/// revision holds and stands at the head. What was reserved on the drive is used by it.
pub open spec fn is_copied<'a>(
    before: CatalogTables,
    after: CatalogTables,
    documents: DocumentTables,
    revision_id: Uuid,
    actor_principal_id: Uuid,
    parent_id: Uuid,
    name: NormalizedName<'a>,
    copy: DocumentConflictCopyRecord,
) -> bool {
    let revision = documents.revisions[revision_id];
    let session = documents.session_of(revision_id);
    let node = after.nodes[copy.node_id];
    let key = (copy.node_id, copy.version_id);
    let version = after.versions[key];
    let drive_id = session.drive_id;
    let drive = before.drives[drive_id];
    &&& copy.drive_id == drive_id
    &&& Some(copy.size_bytes) == revision.size_bytes
    &&& Some(copy.blake3@) == revision.blake3
    &&& Some(copy.media_type@) == revision.media_type
    &&& copy.display_name@ == name.display@
    &&& !before.nodes.contains_key(copy.node_id)
    &&& node.drive_id == drive_id
    &&& node.parent_id == Some(parent_id)
    &&& node.kind == "file"@
    &&& node.display_name == name.display@
    &&& node.name_key == name.comparison_key@
    &&& node.owner_principal_id == actor_principal_id
    &&& node.head_version_id == Some(copy.version_id)
    &&& node.trash_root_id is None
    &&& !before.versions.contains_key(key)
    &&& version.ordinal == 1
    &&& Some(version.payload_id) == revision.payload_id
    &&& Some(version.size_bytes) == revision.size_bytes
    &&& Some(version.blake3) == revision.blake3
    &&& version.media_type == revision.media_type
    &&& version.created_by == actor_principal_id
    &&& version.origin_kind == "external_document"@
    &&& before.payload_is(revision.payload_id->0, "finalized"@)
    &&& after == (CatalogTables {
        nodes: before.nodes.insert(copy.node_id, node),
        ancestry: placed(before.ancestry, drive_id, parent_id, copy.node_id),
        versions: before.versions.insert(key, version),
        payloads: before.payloads.insert(revision.payload_id->0, "referenced"@),
        drives: before.drives.insert(
            drive_id,
            crate::tables::catalog::DriveRow {
                reserved_bytes: drive.reserved_bytes - revision.reserved_bytes,
                used_bytes: drive.used_bytes + copy.size_bytes,
                ..drive
            },
        ),
        audit_events: after.audit_events,
        outbox_events: after.outbox_events,
        ..before
    })
}

/// Whether a record is what a revision in conflict holds.
pub open spec fn is_conflict(
    found: ConflictRevision,
    documents: DocumentTables,
    id: Uuid,
) -> bool {
    let revision = documents.revisions[id];
    &&& revision.payload_id == Some(found.payload_id)
    &&& revision.size_bytes == Some(found.size_bytes)
    &&& revision.blake3 == Some(found.blake3@)
    &&& revision.media_type == Some(found.media_type@)
    &&& revision.reserved_bytes == found.reserved_bytes
    &&& documents.session_of(id).drive_id == found.drive_id
}

#[verifier::rlimit(60)]
#[verifier::spinoff_prover]
proof fn lemma_copy_is_allowed<'a>(
    tenant_id: Uuid,
    document_session_id: Uuid,
    actor_principal_id: Uuid,
    api_session_id: Uuid,
    target_parent_id: Uuid,
    expected_parent_namespace_generation: i64,
    generations: DocumentAuthorizationGenerations,
    name: Option<&'a NormalizedName<'a>>,
    operation_digest: &'a [u8; 32],
    request_fingerprint: &'a [u8; 32],
    log: Seq<Reply>,
    course: Course,
) -> (revision_id: Uuid)
    requires
        crate::step::is_done(
            Database::create_document_conflict_copy_fault(
                expected_parent_namespace_generation,
                generations,
                name,
                request_fingerprint,
                log,
            ),
            Database::create_document_conflict_copy_script(
                tenant_id,
                document_session_id,
                actor_principal_id,
                api_session_id,
                target_parent_id,
                name,
                operation_digest,
                request_fingerprint,
                log,
            ),
            log,
        ),
        course.follows(
            Database::create_document_conflict_copy_script(
                tenant_id,
                document_session_id,
                actor_principal_id,
                api_session_id,
                target_parent_id,
                name,
                operation_digest,
                request_fingerprint,
                log,
            ),
            log,
        ),
        !course.start().documents.receipts.contains_key(operation_digest@),
    ensures
        log[2].optional_row::<OperationReceipt>() == Ok::<Option<OperationReceipt>, Fault>(None),
        log.len() == 18,
        log[6].drawn_ids(2) is Ok,
        log[11].one_affected(DatabaseError::Conflict) is Ok,
        log[14].single_row::<i64>() is Ok,
        ({
            let before = course.start();
            let found = log[3].required_row::<ConflictRevision>(DatabaseError::NotFound)->Ok_0;
            &&& course.rows[7] == before
            &&& is_copyable(
                before.documents,
                revision_id,
                document_session_id,
                actor_principal_id,
                course.clock[0],
            )
            &&& is_conflict(found, before.documents, revision_id)
            &&& before.catalog.permits(
                api_session_id,
                actor_principal_id,
                found.drive_id,
                target_parent_id,
                fence_of(generations),
                course.clock[0],
            )
            &&& is_directory(before.catalog, found.drive_id, target_parent_id)
            &&& before.catalog.nodes[target_parent_id].namespace_generation
                == expected_parent_namespace_generation
        }),
{
    reveal(means);
    reveal(admits);
    reveal(crate::tables::sessions::means);
    reveal(crate::tables::catalog::means);
    reveal(ConflictRevision::of_row);
    let script = Database::create_document_conflict_copy_script(
        tenant_id,
        document_session_id,
        actor_principal_id,
        api_session_id,
        target_parent_id,
        name,
        operation_digest,
        request_fingerprint,
        log,
    );
    let before = course.start();
    assert(course.performs(script, log, 0));
    assert(course.performs(script, log, 1));
    assert(course.performs(script, log, 2));
    let found = log[2].optional_row::<OperationReceipt>();
    assert(course.rows[2] == before);
    assert(found is Ok);
    assert(found->Ok_0 is None);
    assert(course.performs(script, log, 3));
    assert(course.clock[0] <= course.clock[3]);
    let revision = log[3].required_row::<ConflictRevision>(DatabaseError::NotFound);
    assert(revision is Ok);
    assert(first_row(log[3]) is Some);
    assert(course.performs(script, log, 4));
    let fence = log[4].required_row::<FenceGenerations>(DatabaseError::StaleGeneration);
    assert(fence is Ok);
    assert(first_row(log[4]) is Some);
    let expected = generations.expected();
    assert(expected[0] == generations.membership);
    assert(expected[1] == generations.drive_acl);
    assert(expected[2] == generations.namespace);
    assert(expected[3] == generations.resource_acl);
    assert(course.clock[0] <= course.clock[4]);
    assert(course.performs(script, log, 5));
    assert(log[5].required_row::<i64>(DatabaseError::NotFound) is Ok);
    assert(course.performs(script, log, 6));
    let revision_id = choose|other: Uuid| #[trigger]
        is_copyable(
            before.documents,
            other,
            document_session_id,
            actor_principal_id,
            course.clock[3],
        ) && is_conflict_row(first_row(log[3])->0, before.documents, other);
    revision_id
}

#[verifier::rlimit(60)]
#[verifier::spinoff_prover]
proof fn lemma_copy_stands<'a>(
    tenant_id: Uuid,
    document_session_id: Uuid,
    actor_principal_id: Uuid,
    api_session_id: Uuid,
    target_parent_id: Uuid,
    expected_parent_namespace_generation: i64,
    generations: DocumentAuthorizationGenerations,
    name: Option<&'a NormalizedName<'a>>,
    operation_digest: &'a [u8; 32],
    request_fingerprint: &'a [u8; 32],
    log: Seq<Reply>,
    course: Course,
    revision_id: Uuid,
)
    requires
        crate::step::is_done(
            Database::create_document_conflict_copy_fault(
                expected_parent_namespace_generation,
                generations,
                name,
                request_fingerprint,
                log,
            ),
            Database::create_document_conflict_copy_script(
                tenant_id,
                document_session_id,
                actor_principal_id,
                api_session_id,
                target_parent_id,
                name,
                operation_digest,
                request_fingerprint,
                log,
            ),
            log,
        ),
        course.follows(
            Database::create_document_conflict_copy_script(
                tenant_id,
                document_session_id,
                actor_principal_id,
                api_session_id,
                target_parent_id,
                name,
                operation_digest,
                request_fingerprint,
                log,
            ),
            log,
        ),
        !course.start().documents.receipts.contains_key(operation_digest@),
        log[2].optional_row::<OperationReceipt>() == Ok::<Option<OperationReceipt>, Fault>(None),
        log.len() == 18,
        log[6].drawn_ids(2) is Ok,
        log[11].one_affected(DatabaseError::Conflict) is Ok,
        name is Some,
        course.rows[7] == course.start(),
        is_conflict(
            log[3].required_row::<ConflictRevision>(DatabaseError::NotFound)->Ok_0,
            course.start().documents,
            revision_id,
        ),
        course.start().catalog.drives.contains_key(
            course.start().documents.session_of(revision_id).drive_id,
        ),
    ensures
        is_copied(
            course.start().catalog,
            course.rows[13].catalog,
            course.start().documents,
            revision_id,
            actor_principal_id,
            target_parent_id,
            *name->0,
            Database::create_document_conflict_copy_output(name, log)->Created_0,
        ),
        Database::create_document_conflict_copy_output(name, log) is Created,
        course.rows[13] == with_catalog(course.start(), course.rows[13].catalog),
        course.rows[13].catalog.audit_events == course.start().catalog.audit_events,
        course.rows[13].catalog.outbox_events == course.start().catalog.outbox_events,
{
    reveal(means);
    reveal(settles);
    let script = Database::create_document_conflict_copy_script(
        tenant_id,
        document_session_id,
        actor_principal_id,
        api_session_id,
        target_parent_id,
        name,
        operation_digest,
        request_fingerprint,
        log,
    );
    assert(course.performs(script, log, 7));
    assert(course.performs(script, log, 8));
    assert(course.performs(script, log, 9));
    assert(course.performs(script, log, 10));
    assert(course.performs(script, log, 11));
    assert(course.performs(script, log, 12));
    let before = course.start().catalog;
    let after = course.rows[13].catalog;
    let copy = Database::create_document_conflict_copy_output(name, log)->Created_0;
    assert(before.payload_is(
        course.start().documents.revisions[revision_id].payload_id->0,
        "finalized"@,
    ));
    assert(after.nodes =~= before.nodes.insert(copy.node_id, after.nodes[copy.node_id]));
}

/// A copy of a revision in conflict is a new file with what the revision holds. It goes through for
/// the one who created the session, while the revision is kept, where they may write into the
/// directory as when they were checked and it has the generation that they know. The receipt of
/// what is returned is stored, and one audit event and one outbox event tell of it.
#[verifier::rlimit(100)]
#[verifier::spinoff_prover]
pub proof fn conflict_copies_hold_the_revision<'a>(
    tenant_id: Uuid,
    document_session_id: Uuid,
    actor_principal_id: Uuid,
    api_session_id: Uuid,
    target_parent_id: Uuid,
    expected_parent_namespace_generation: i64,
    generations: DocumentAuthorizationGenerations,
    name: Option<&'a NormalizedName<'a>>,
    operation_digest: &'a [u8; 32],
    request_fingerprint: &'a [u8; 32],
    log: Seq<Reply>,
    course: Course,
)
    requires
        crate::step::is_done(
            Database::create_document_conflict_copy_fault(
                expected_parent_namespace_generation,
                generations,
                name,
                request_fingerprint,
                log,
            ),
            Database::create_document_conflict_copy_script(
                tenant_id,
                document_session_id,
                actor_principal_id,
                api_session_id,
                target_parent_id,
                name,
                operation_digest,
                request_fingerprint,
                log,
            ),
            log,
        ),
        course.follows(
            Database::create_document_conflict_copy_script(
                tenant_id,
                document_session_id,
                actor_principal_id,
                api_session_id,
                target_parent_id,
                name,
                operation_digest,
                request_fingerprint,
                log,
            ),
            log,
        ),
        !course.start().documents.receipts.contains_key(operation_digest@),
    ensures
        ({
            let before = course.start();
            let after = course.end();
            let out = Database::create_document_conflict_copy_output(name, log);
            let copy = out->Created_0;
            let drive_id = before.documents.sessions[document_session_id].drive_id;
            &&& out is Created
            &&& name is Some
            &&& before.catalog.permits(
                api_session_id,
                actor_principal_id,
                drive_id,
                target_parent_id,
                fence_of(generations),
                course.clock[0],
            )
            &&& is_directory(before.catalog, drive_id, target_parent_id)
            &&& before.catalog.nodes[target_parent_id].namespace_generation
                == expected_parent_namespace_generation
            &&& exists|revision_id: Uuid|
                {
                    &&& #[trigger] is_copyable(
                        before.documents,
                        revision_id,
                        document_session_id,
                        actor_principal_id,
                        course.clock[0],
                    )
                    &&& is_copied(
                        before.catalog,
                        after.catalog,
                        before.documents,
                        revision_id,
                        actor_principal_id,
                        target_parent_id,
                        *name->0,
                        copy,
                    )
                }
            &&& after.catalog.audit_events == before.catalog.audit_events.push(
                AuditRow {
                    actor: Some(actor_principal_id),
                    target: None,
                    resource: Some(copy.node_id),
                    action: "document.conflict_copy.create"@,
                    outcome: "allowed"@,
                    reason: "document_conflict_copy_created"@,
                    privacy_visible: true,
                    details: seq![
                        ("document_session_id"@, Fact::Id(document_session_id)),
                        ("version_id"@, Fact::Id(copy.version_id)),
                    ],
                },
            )
            &&& tells(
                before.catalog,
                after.catalog,
                tenant_id,
                "filebelt.v1.file.version.committed"@,
                "node"@,
                copy.node_id,
                1,
                course,
            )
            &&& after.documents == (DocumentTables {
                receipts: before.documents.receipts.insert(
                    operation_digest@,
                    after.documents.receipts[operation_digest@],
                ),
                ..before.documents
            })
            &&& after.documents.receipts[operation_digest@].request_fingerprint
                == request_fingerprint@
            &&& after.documents.receipts[operation_digest@].command_kind == "conflict_copy"@
            &&& after.documents.receipts[operation_digest@].copy == Some(copy)
            &&& after.rooms == before.rooms
            &&& after.media == before.media
        }),
{
    let revision_id = lemma_copy_is_allowed(
        tenant_id,
        document_session_id,
        actor_principal_id,
        api_session_id,
        target_parent_id,
        expected_parent_namespace_generation,
        generations,
        name,
        operation_digest,
        request_fingerprint,
        log,
        course,
    );
    lemma_copy_stands(
        tenant_id,
        document_session_id,
        actor_principal_id,
        api_session_id,
        target_parent_id,
        expected_parent_namespace_generation,
        generations,
        name,
        operation_digest,
        request_fingerprint,
        log,
        course,
        revision_id,
    );
    reveal(admits);
    reveal(crate::tables::catalog::means);
    let script = Database::create_document_conflict_copy_script(
        tenant_id,
        document_session_id,
        actor_principal_id,
        api_session_id,
        target_parent_id,
        name,
        operation_digest,
        request_fingerprint,
        log,
    );
    assert(course.performs(script, log, 13));
    assert(course.performs(script, log, 14));
    assert(course.performs(script, log, 15));
    assert(course.performs(script, log, 16));
    assert(course.performs(script, log, 17));
    assert(course.clock[0] <= course.clock[14]);
    assert(course.clock[14] <= course.clock[17]);
    assert(course.end() == course.rows[18]);
}

} // verus!
