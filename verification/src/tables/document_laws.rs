//! Laws about the rows of document sessions.

use vstd::prelude::*;

use crate::database::Database;
use crate::document::CallbackEvent;
use crate::document::CommittableRevision;
use crate::document::CreateDocumentSessionInput;
use crate::document::DocumentAuthorizationGenerations;
use crate::document::DocumentCommitResult;
use crate::document::DocumentLaunchRecord;
use crate::document::DocumentRevisionRecord;
use crate::document::GrantLaunch;
use crate::document::HeadVersion;
use crate::document::OperationReceipt;
use crate::document::ReceiveDocumentCallbackInput;
use crate::document::Recorded;
use crate::document::RejectableRevision;
use crate::error::DatabaseError;
use crate::error::Fault;
use crate::fence::FenceGenerations;
use crate::id::Uuid;
use crate::row::Reply;
use crate::tables::catalog::charged;
use crate::tables::catalog::tells;
use crate::tables::catalog::with_catalog;
use crate::tables::catalog::AuditRow;
use crate::tables::catalog::CatalogTables;
use crate::tables::catalog::Fact;
use crate::tables::catalog::NodeRow;
use crate::tables::collaboration::EpochRow;
use crate::tables::collaboration::RoomTables;
use crate::tables::document::admits;
use crate::tables::document::hears;
use crate::tables::document::settles;
use crate::tables::document::DocumentTables;
use crate::tables::document::EventRow;
use crate::tables::document::RevisionRow;
use crate::tables::document::SessionRow;
use crate::tables::Course;
use crate::tables::Tables;

verus! {

/// Whether a revision holds an outcome of its commit.
pub open spec fn holds_outcome(revision: RevisionRow, outcome: DocumentCommitResult) -> bool {
    match outcome {
        DocumentCommitResult::Committed { version_id } => {
            &&& revision.state == "committed"@
            &&& revision.committed_version_id == Some(version_id)
        },
        DocumentCommitResult::NoOp { version_id } => {
            &&& revision.state == "no_op"@
            &&& revision.expected_head_version_id == version_id
        },
        DocumentCommitResult::Conflict { retained_until } => {
            &&& revision.state == "conflict"@
            &&& crate::tables::document::moment_text(revision.retained_until) == Some(
                retained_until@,
            )
        },
    }
}

/// Whether two outcomes of a commit are the same.
pub open spec fn same_outcome(a: DocumentCommitResult, b: DocumentCommitResult) -> bool {
    match (a, b) {
        (
            DocumentCommitResult::Conflict { retained_until: earlier },
            DocumentCommitResult::Conflict { retained_until: later },
        ) => earlier@ == later@,
        _ => a == b,
    }
}

/// The generations of a participant, as a fence reads them.
pub open spec fn fence_of(generations: DocumentAuthorizationGenerations) -> FenceGenerations {
    FenceGenerations {
        membership: generations.membership,
        drive_acl: generations.drive_acl,
        namespace: generations.namespace,
        resource_acl: generations.resource_acl,
    }
}

/// The audit event of a commit.
pub open spec fn commit_audit(
    documents: DocumentTables,
    revision_id: Uuid,
    outcome: Seq<char>,
    reason: Seq<char>,
    version_id: Option<Uuid>,
) -> AuditRow {
    let session = documents.session_of(revision_id);
    let revision = ("revision_id"@, Fact::Id(revision_id));
    AuditRow {
        actor: Some(documents.actor_of(revision_id).user_principal_id),
        target: Some(session.session_principal_id),
        resource: Some(session.node_id),
        action: "document.revision.commit"@,
        outcome,
        reason,
        privacy_visible: true,
        details: match version_id {
            Some(version_id) => seq![revision, ("version_id"@, Fact::Id(version_id))],
            None => seq![revision],
        },
    }
}

/// Whether the head version of a revision's node holds what the revision holds.
pub open spec fn head_holds(before: Tables, revision_id: Uuid) -> bool {
    let revision = before.documents.revisions[revision_id];
    let node_id = before.documents.session_of(revision_id).node_id;
    let head = before.catalog.nodes[node_id].head_version_id;
    &&& head is Some
    &&& before.catalog.versions.contains_key((node_id, head->0))
    &&& revision.size_bytes == Some(before.catalog.versions[(node_id, head->0)].size_bytes)
    &&& revision.blake3 == Some(before.catalog.versions[(node_id, head->0)].blake3)
}

/// The ordinal of the version that follows a node's head.
pub open spec fn next_ordinal(catalog: CatalogTables, node_id: Uuid) -> int {
    let head = catalog.nodes[node_id].head_version_id;
    if head is Some && catalog.versions.contains_key((node_id, head->0)) {
        catalog.versions[(node_id, head->0)].ordinal + 1
    } else {
        1
    }
}

/// What a commit leaves of a session's rows once a version stands at the head of its node: the
/// revision is committed, and the session goes on from that version. A final save closes it; any
/// other leaves its state. Every other open session on the node is in conflict, under a new fence.
pub open spec fn sessions_follow(
    before: DocumentTables,
    after: DocumentTables,
    revision_id: Uuid,
    version_id: Uuid,
) -> bool {
    let revision = before.revisions[revision_id];
    let session_id = revision.document_session_id;
    let session = before.sessions[session_id];
    &&& after.revisions == before.revisions.insert(
        revision_id,
        RevisionRow {
            state: "committed"@,
            committed_version_id: Some(version_id),
            retained_until: None,
            ..revision
        },
    )
    &&& after.sessions.dom() == before.sessions.dom()
    &&& after.sessions[session_id] == (SessionRow {
        expected_head_version_id: version_id,
        state: if revision.kind == "final_save"@ {
            "committed"@
        } else {
            session.state
        },
        ..session
    })
    &&& forall|id: Uuid| #[trigger]
        before.sessions.contains_key(id) && id != session_id ==> after.sessions[id] == (
        if before.sessions[id].drive_id == session.drive_id && before.sessions[id].node_id
            == session.node_id && crate::tables::document::is_open(before.sessions[id].state) {
            SessionRow {
                state: "conflict"@,
                fencing_token: before.sessions[id].fencing_token + 1,
                ..before.sessions[id]
            }
        } else {
            before.sessions[id]
        })
    &&& after.reconciliations == before.reconciled(revision_id, "complete"@).reconciliations
    &&& after.participants == before.participants
    &&& after.events == before.events
    &&& after.grants == before.grants
    &&& after.receipts == before.receipts
    &&& after.contributors == before.contributors
}

/// Whether the current epochs of a node's rooms are frozen, under a new fence, where they were
/// active, and every other epoch is as it was.
pub open spec fn rooms_are_frozen(
    before: RoomTables,
    after: RoomTables,
    drive_id: Uuid,
    node_id: Uuid,
) -> bool {
    &&& after == (RoomTables { epochs: after.epochs, ..before })
    &&& after.epochs.dom() == before.epochs.dom()
    &&& forall|key: (Uuid, i64)| #[trigger]
        before.epochs.contains_key(key) ==> after.epochs[key] == (if before.is_current(
            key,
            drive_id,
            node_id,
        ) && before.epochs[key].state == "active"@ {
            EpochRow {
                state: "frozen"@,
                fencing_token: before.epochs[key].fencing_token + 1,
                ..before.epochs[key]
            }
        } else {
            before.epochs[key]
        })
}

/// What a commit adds to the catalog: the version, which holds what the revision holds, stands at
/// the head of the node, and what was reserved on the drive is used by it.
pub open spec fn version_stands(
    before: Tables,
    after: CatalogTables,
    revision_id: Uuid,
    version_id: Uuid,
) -> bool {
    let catalog = before.catalog;
    let revision = before.documents.revisions[revision_id];
    let session = before.documents.session_of(revision_id);
    let key = (session.node_id, version_id);
    let version = after.versions[key];
    let payload_id = revision.payload_id->0;
    &&& revision.payload_id is Some
    &&& !catalog.versions.contains_key(key)
    &&& version.ordinal == next_ordinal(catalog, session.node_id)
    &&& version.payload_id == payload_id
    &&& Some(version.size_bytes) == revision.size_bytes
    &&& Some(version.blake3) == revision.blake3
    &&& version.media_type == revision.media_type
    &&& version.created_by == session.session_principal_id
    &&& version.origin_kind == "external_document"@
    &&& after == (CatalogTables {
        versions: catalog.versions.insert(key, version),
        nodes: catalog.nodes.insert(
            session.node_id,
            NodeRow {
                head_version_id: Some(version_id),
                ..catalog.nodes[session.node_id]
            },
        ),
        payloads: crate::tables::changed(
            catalog.payloads,
            catalog.payload_is(payload_id, "finalized"@),
            payload_id,
            "referenced"@,
        ),
        drives: charged(
            before,
            true,
            session.drive_id,
            revision.reserved_bytes as int,
            revision.size_bytes->0 as int,
        ).catalog.drives,
        audit_events: after.audit_events,
        outbox_events: after.outbox_events,
        ..catalog
    })
}

/// What a commit leaves of a revision that was still to be settled. It goes through where the
/// session is active and its participant is authorized as when it entered. The outcome goes by the
/// head of the node: in conflict where that is not the version which the revision expects, without
/// a change where it holds the same, committed else. Committed, the new version stands at the head
/// of the node, the session goes on from it, and what was reserved on the drive is used by what the
/// revision holds. Without a change, what was reserved returns, and the payload is to be deleted.
/// In conflict, the drive and the node stay as they were, and the session is closed.
pub open spec fn is_settled(
    tenant_id: Uuid,
    revision_id: Uuid,
    outcome: DocumentCommitResult,
    course: Course,
) -> bool {
    let before = course.start();
    let after = course.end();
    let revision = before.documents.revisions[revision_id];
    let session_id = revision.document_session_id;
    let session = before.documents.session_of(revision_id);
    let actor = before.documents.actor_of(revision_id);
    let head = before.catalog.nodes[session.node_id].head_version_id;
    let payload_id = revision.payload_id->0;
    &&& session.state == "active"@
    &&& session.absolute_expires_at > course.clock[0]
    &&& before.catalog.permits(
        actor.api_session_id,
        actor.user_principal_id,
        session.drive_id,
        session.node_id,
        fence_of(actor.generations),
        course.clock[0],
    )
    &&& holds_outcome(after.documents.revisions[revision_id], outcome)
    &&& outcome is Conflict <==> head != Some(revision.expected_head_version_id)
    &&& outcome is NoOp <==> head == Some(revision.expected_head_version_id) && head_holds(
        before,
        revision_id,
    )
    &&& match outcome {
        DocumentCommitResult::Committed { version_id } => {
            &&& sessions_follow(before.documents, after.documents, revision_id, version_id)
            &&& version_stands(before, after.catalog, revision_id, version_id)
            &&& rooms_are_frozen(before.rooms, after.rooms, session.drive_id, session.node_id)
            &&& after.media == before.media
            &&& after.catalog.audit_events == before.catalog.audit_events.push(
                commit_audit(
                    before.documents,
                    revision_id,
                    "allowed"@,
                    "document_version_committed"@,
                    Some(version_id),
                ),
            )
            &&& tells(
                before.catalog,
                after.catalog,
                tenant_id,
                "filebelt.v1.file.version.committed"@,
                "node"@,
                session.node_id,
                next_ordinal(before.catalog, session.node_id) as i64,
                course,
            )
        },
        DocumentCommitResult::NoOp { version_id } => {
            &&& after.documents == (DocumentTables {
                revisions: before.documents.revisions.insert(
                    revision_id,
                    RevisionRow {
                        state: "no_op"@,
                        retained_until: after.documents.revisions[revision_id].retained_until,
                        ..revision
                    },
                ),
                reconciliations: before.documents.reconciled(
                    revision_id,
                    "complete"@,
                ).reconciliations,
                ..before.documents
            })
            &&& after.catalog == (CatalogTables {
                payloads: before.catalog.payloads.insert(payload_id, "delete_intent"@),
                drives: charged(
                    before,
                    true,
                    session.drive_id,
                    revision.reserved_bytes as int,
                    0,
                ).catalog.drives,
                jobs: before.catalog.jobs.insert(
                    ("payload_delete"@, "document-release:"@, payload_id, payload_id),
                ),
                audit_events: before.catalog.audit_events.push(
                    commit_audit(
                        before.documents,
                        revision_id,
                        "allowed"@,
                        "document_save_noop"@,
                        Some(version_id),
                    ),
                ),
                ..before.catalog
            })
            &&& revision.payload_id is Some
            &&& after.rooms == before.rooms
            &&& after.media == before.media
        },
        DocumentCommitResult::Conflict { .. } => {
            &&& after.documents == (DocumentTables {
                revisions: before.documents.revisions.insert(
                    revision_id,
                    RevisionRow {
                        state: "conflict"@,
                        retained_until: after.documents.revisions[revision_id].retained_until,
                        ..revision
                    },
                ),
                sessions: before.documents.sessions.insert(
                    session_id,
                    SessionRow {
                        state: "conflict"@,
                        fencing_token: session.fencing_token + 1,
                        ..session
                    },
                ),
                reconciliations: before.documents.reconciled(
                    revision_id,
                    "complete"@,
                ).reconciliations,
                ..before.documents
            })
            &&& after.catalog == (CatalogTables {
                audit_events: before.catalog.audit_events.push(
                    commit_audit(
                        before.documents,
                        revision_id,
                        "conflict"@,
                        "document_head_changed"@,
                        None,
                    ),
                ),
                ..before.catalog
            })
            &&& after.rooms == before.rooms
            &&& after.media == before.media
        },
    }
}

/// The records that a commit reads of a revision and its surroundings.
pub open spec fn reads_revision(revision_id: Uuid, first: Seq<Reply>, one: Course) -> bool {
    let documents = one.start().documents;
    let owner = first[1].required_row::<CommittableRevision>(DatabaseError::NotFound)->Ok_0;
    let revision = first[1].single_row::<DocumentRevisionRecord>()->Ok_0;
    &&& documents.is_whole(revision_id)
    &&& crate::tables::document::is_revision(
        revision,
        revision_id,
        documents.revisions[revision_id],
    )
    &&& crate::tables::document::is_committable(owner, documents, revision_id, one.clock[1])
    &&& one.rows[1] == one.start()
    &&& one.rows[2] == one.start()
}

/// What a commit has found before it settles a revision.
pub open spec fn finds_head(revision_id: Uuid, first: Seq<Reply>, one: Course) -> bool {
    let before = one.start();
    let session = before.documents.session_of(revision_id);
    let actor = before.documents.actor_of(revision_id);
    let current = first[3].single_row::<HeadVersion>()->Ok_0;
    &&& first.len() > 8
    &&& one.rows[4] == before
    &&& crate::tables::document::is_head(current, before.catalog, session.node_id)
    &&& session.state == "active"@
    &&& session.absolute_expires_at > one.clock[0]
    &&& before.catalog.permits(
        actor.api_session_id,
        actor.user_principal_id,
        session.drive_id,
        session.node_id,
        fence_of(actor.generations),
        one.clock[0],
    )
}

proof fn lemma_commit_reads(
    tenant_id: Uuid,
    revision_id: Uuid,
    first: Seq<Reply>,
    one: Course,
)
    requires
        crate::step::is_done(
            Database::commit_document_revision_fault(first),
            Database::commit_document_revision_script(tenant_id, revision_id, first),
            first,
        ),
        one.follows(
            Database::commit_document_revision_script(tenant_id, revision_id, first),
            first,
        ),
        first.len() > 1,
    ensures
        reads_revision(revision_id, first, one),
        first.len() > 2 ==> finds_head(revision_id, first, one),
{
    reveal(settles);
    let script = Database::commit_document_revision_script(tenant_id, revision_id, first);
    let owner = first[1].required_row::<CommittableRevision>(DatabaseError::NotFound)->Ok_0;
    assert(one.performs(script, first, 0));
    assert(one.performs(script, first, 1));
    if first.len() > 2 {
        assert(one.performs(script, first, 2));
        assert(one.performs(script, first, 3));
        reveal(crate::tables::catalog::means);
        let expected = owner.generations.expected();
        assert(expected[0] == owner.generations.membership);
        assert(expected[1] == owner.generations.drive_acl);
        assert(expected[2] == owner.generations.namespace);
        assert(expected[3] == owner.generations.resource_acl);
        assert(one.clock[0] <= one.clock[1]);
        assert(one.clock[0] <= one.clock[2]);
    }
}

#[verifier::rlimit(40)]
proof fn lemma_conflict_is_settled(
    tenant_id: Uuid,
    revision_id: Uuid,
    first: Seq<Reply>,
    one: Course,
)
    requires
        crate::step::is_done(
            Database::commit_document_revision_fault(first),
            Database::commit_document_revision_script(tenant_id, revision_id, first),
            first,
        ),
        one.follows(
            Database::commit_document_revision_script(tenant_id, revision_id, first),
            first,
        ),
        first.len() == 9,
    ensures
        is_settled(tenant_id, revision_id, Database::commit_document_revision_output(first), one),
{
    lemma_commit_reads(tenant_id, revision_id, first, one);
    reveal(settles);
    reveal(crate::tables::catalog::means);
    let script = Database::commit_document_revision_script(tenant_id, revision_id, first);
    assert(one.performs(script, first, 4));
    assert(one.performs(script, first, 5));
    assert(one.performs(script, first, 6));
    assert(one.performs(script, first, 7));
    assert(one.performs(script, first, 8));
    assert(one.end() == one.rows[9]);
}

#[verifier::rlimit(60)]
proof fn lemma_no_op_is_settled(
    tenant_id: Uuid,
    revision_id: Uuid,
    first: Seq<Reply>,
    one: Course,
)
    requires
        crate::step::is_done(
            Database::commit_document_revision_fault(first),
            Database::commit_document_revision_script(tenant_id, revision_id, first),
            first,
        ),
        one.follows(
            Database::commit_document_revision_script(tenant_id, revision_id, first),
            first,
        ),
        first.len() == 11,
    ensures
        is_settled(tenant_id, revision_id, Database::commit_document_revision_output(first), one),
{
    lemma_commit_reads(tenant_id, revision_id, first, one);
    reveal(settles);
    reveal(crate::tables::catalog::means);
    let script = Database::commit_document_revision_script(tenant_id, revision_id, first);
    assert(one.performs(script, first, 4));
    assert(one.performs(script, first, 5));
    assert(one.performs(script, first, 6));
    assert(one.performs(script, first, 7));
    assert(one.performs(script, first, 8));
    assert(one.performs(script, first, 9));
    assert(one.performs(script, first, 10));
    assert(one.end() == one.rows[11]);
}

#[verifier::rlimit(60)]
proof fn lemma_version_is_added(
    tenant_id: Uuid,
    revision_id: Uuid,
    first: Seq<Reply>,
    one: Course,
)
    requires
        crate::step::is_done(
            Database::commit_document_revision_fault(first),
            Database::commit_document_revision_script(tenant_id, revision_id, first),
            first,
        ),
        one.follows(
            Database::commit_document_revision_script(tenant_id, revision_id, first),
            first,
        ),
        first.len() == 18,
    ensures
        version_stands(
            one.start(),
            one.rows[9].catalog,
            revision_id,
            first[4].drawn_ids(1)->Ok_0[0],
        ),
        one.rows[9].catalog.audit_events == one.start().catalog.audit_events,
        one.rows[9].catalog.outbox_events == one.start().catalog.outbox_events,
        one.rows[9].documents == one.start().documents,
        one.rows[9].rooms == one.start().rooms,
        one.rows[9].media == one.start().media,
{
    lemma_commit_reads(tenant_id, revision_id, first, one);
    reveal(settles);
    let script = Database::commit_document_revision_script(tenant_id, revision_id, first);
    assert(one.performs(script, first, 4));
    assert(one.performs(script, first, 5));
    assert(one.performs(script, first, 6));
    assert(one.performs(script, first, 7));
    assert(one.performs(script, first, 8));
}

#[verifier::rlimit(60)]
proof fn lemma_sessions_follow(
    tenant_id: Uuid,
    revision_id: Uuid,
    first: Seq<Reply>,
    one: Course,
)
    requires
        crate::step::is_done(
            Database::commit_document_revision_fault(first),
            Database::commit_document_revision_script(tenant_id, revision_id, first),
            first,
        ),
        one.follows(
            Database::commit_document_revision_script(tenant_id, revision_id, first),
            first,
        ),
        first.len() == 18,
        one.rows[9].documents == one.start().documents,
        one.rows[9].rooms == one.start().rooms,
    ensures
        ({
            let session = one.start().documents.session_of(revision_id);
            &&& sessions_follow(
                one.start().documents,
                one.rows[14].documents,
                revision_id,
                first[4].drawn_ids(1)->Ok_0[0],
            )
            &&& rooms_are_frozen(
                one.start().rooms,
                one.rows[14].rooms,
                session.drive_id,
                session.node_id,
            )
            &&& one.rows[14].catalog == one.rows[9].catalog
            &&& one.rows[14].media == one.rows[9].media
        }),
{
    lemma_commit_reads(tenant_id, revision_id, first, one);
    reveal(settles);
    let script = Database::commit_document_revision_script(tenant_id, revision_id, first);
    assert(one.performs(script, first, 9));
    assert(one.performs(script, first, 10));
    assert(one.performs(script, first, 11));
    assert(one.performs(script, first, 12));
    assert(one.performs(script, first, 13));
    assert(one.rows[14].documents.sessions.dom() =~= one.start().documents.sessions.dom());
    assert(one.rows[14].rooms.epochs.dom() =~= one.start().rooms.epochs.dom());
}

#[verifier::rlimit(60)]
proof fn lemma_commit_is_recorded(
    tenant_id: Uuid,
    revision_id: Uuid,
    first: Seq<Reply>,
    one: Course,
)
    requires
        crate::step::is_done(
            Database::commit_document_revision_fault(first),
            Database::commit_document_revision_script(tenant_id, revision_id, first),
            first,
        ),
        one.follows(
            Database::commit_document_revision_script(tenant_id, revision_id, first),
            first,
        ),
        first.len() == 18,
    ensures
        ({
            let before = one.rows[14];
            let documents = one.start().documents;
            let after = one.end();
            let node_id = documents.session_of(revision_id).node_id;
            &&& after == (Tables {
                catalog: CatalogTables {
                    audit_events: before.catalog.audit_events.push(
                        commit_audit(
                            documents,
                            revision_id,
                            "allowed"@,
                            "document_version_committed"@,
                            Some(first[4].drawn_ids(1)->Ok_0[0]),
                        ),
                    ),
                    outbox_events: after.catalog.outbox_events,
                    ..before.catalog
                },
                ..before
            })
            &&& tells(
                before.catalog,
                after.catalog,
                tenant_id,
                "filebelt.v1.file.version.committed"@,
                "node"@,
                node_id,
                next_ordinal(one.start().catalog, node_id) as i64,
                one,
            )
        }),
{
    lemma_commit_reads(tenant_id, revision_id, first, one);
    reveal(crate::tables::catalog::means);
    let script = Database::commit_document_revision_script(tenant_id, revision_id, first);
    assert(one.performs(script, first, 14));
    assert(one.performs(script, first, 15));
    assert(one.performs(script, first, 16));
    assert(one.performs(script, first, 17));
    assert(one.end() == one.rows[18]);
    assert(one.clock[0] <= one.clock[15]);
    assert(one.clock[15] <= one.clock[17]);
}

/// What a commit that reads a revision leaves of it.
pub(crate) proof fn lemma_revision_is_settled(
    tenant_id: Uuid,
    revision_id: Uuid,
    first: Seq<Reply>,
    one: Course,
)
    requires
        crate::step::is_done(
            Database::commit_document_revision_fault(first),
            Database::commit_document_revision_script(tenant_id, revision_id, first),
            first,
        ),
        one.follows(
            Database::commit_document_revision_script(tenant_id, revision_id, first),
            first,
        ),
        first.len() > 1,
    ensures
        ({
            let documents = one.start().documents;
            let outcome = Database::commit_document_revision_output(first);
            let state = documents.revisions[revision_id].state;
            &&& documents.is_whole(revision_id)
            &&& crate::document::can_write(documents.actor_of(revision_id).mode)
            &&& holds_outcome(one.end().documents.revisions[revision_id], outcome)
            &&& state == "staged"@ || state == "committing"@ ==> is_settled(
                tenant_id,
                revision_id,
                outcome,
                one,
            )
        }),
{
    crate::repeats::lemma_outcome_names_differ();
    lemma_commit_reads(tenant_id, revision_id, first, one);
    if first.len() == 9 {
        lemma_conflict_is_settled(tenant_id, revision_id, first, one);
    } else if first.len() == 11 {
        lemma_no_op_is_settled(tenant_id, revision_id, first, one);
    } else if first.len() == 18 {
        lemma_version_is_added(tenant_id, revision_id, first, one);
        lemma_sessions_follow(tenant_id, revision_id, first, one);
        lemma_commit_is_recorded(tenant_id, revision_id, first, one);
    }
}

/// A commit that goes on to the fence was of a revision that was still to be settled.
pub(crate) proof fn lemma_settled_states(
    tenant_id: Uuid,
    revision_id: Uuid,
    first: Seq<Reply>,
    one: Course,
)
    requires
        crate::step::is_done(
            Database::commit_document_revision_fault(first),
            Database::commit_document_revision_script(tenant_id, revision_id, first),
            first,
        ),
        one.follows(
            Database::commit_document_revision_script(tenant_id, revision_id, first),
            first,
        ),
        first.len() > 2,
    ensures
        ({
            let state = one.start().documents.revisions[revision_id].state;
            state == "staged"@ || state == "committing"@
        }),
{
    lemma_commit_reads(tenant_id, revision_id, first, one);
}

/// Committing a revision settles it once. Whatever has become of its session, a second commit of a
/// revision that stands as the first has left it gives the same outcome, and changes nothing: no
/// version, no audit or outbox event, no byte count, no head.
pub proof fn committed_revisions_keep_their_outcome(
    tenant_id: Uuid,
    revision_id: Uuid,
    first: Seq<Reply>,
    second: Seq<Reply>,
    one: Course,
    two: Course,
)
    requires
        crate::step::is_done(
            Database::commit_document_revision_fault(first),
            Database::commit_document_revision_script(tenant_id, revision_id, first),
            first,
        ),
        one.follows(
            Database::commit_document_revision_script(tenant_id, revision_id, first),
            first,
        ),
        first.len() > 1,
        two.follows(
            Database::commit_document_revision_script(tenant_id, revision_id, second),
            second,
        ),
        second.len() > 1,
        two.start().documents.is_whole(revision_id),
        two.start().documents.revisions[revision_id]
            == one.end().documents.revisions[revision_id],
        two.start().documents.actor_of(revision_id).mode == one.start().documents.actor_of(
            revision_id,
        ).mode,
    ensures
        ({
            let state = one.start().documents.revisions[revision_id].state;
            let outcome = Database::commit_document_revision_output(first);
            &&& state == "staged"@ || state == "committing"@ ==> is_settled(
                tenant_id,
                revision_id,
                outcome,
                one,
            )
            &&& crate::step::is_done(
                Database::commit_document_revision_fault(second),
                Database::commit_document_revision_script(tenant_id, revision_id, second),
                second,
            )
            &&& same_outcome(outcome, Database::commit_document_revision_output(second))
            &&& two.end() == two.start()
        }),
{
    lemma_revision_is_settled(tenant_id, revision_id, first, one);
    reveal(settles);
    crate::repeats::lemma_outcome_names_differ();
    let script = Database::commit_document_revision_script(tenant_id, revision_id, second);
    assert(two.performs(script, second, 0));
    assert(two.performs(script, second, 1));
}

/// A revision whose session is live, and whose generations the fence finds current, is not
/// rejected: that is a conflict, and changes nothing.
pub proof fn current_revisions_keep_their_rows(
    tenant_id: Uuid,
    revision_id: Uuid,
    current: FenceGenerations,
    log: Seq<Reply>,
    course: Course,
)
    requires
        course.follows(
            Database::reject_document_revision_for_authorization_change_script(
                tenant_id,
                revision_id,
                log,
            ),
            log,
        ),
        log.len() > 2,
        course.start().documents.is_whole(revision_id),
        crate::tables::document::is_pending(
            course.start().documents.revisions[revision_id].state,
        ),
        course.start().documents.session_of(revision_id).state == "active"@,
        course.start().documents.session_of(revision_id).absolute_expires_at > course.clock[1],
        log[2].optional_row::<FenceGenerations>() == Ok::<Option<FenceGenerations>, Fault>(
            Some(current),
        ),
        current.agrees_with(
            course.start().documents.actor_of(revision_id).generations.expected(),
        ),
    ensures
        Database::reject_document_revision_for_authorization_change_fault(log) == Some(
            Fault::Error(DatabaseError::Conflict),
        ),
        course.left(
            Database::reject_document_revision_for_authorization_change_fault(log),
            Database::reject_document_revision_for_authorization_change_script(
                tenant_id,
                revision_id,
                log,
            ),
            log,
        ) == course.start(),
{
    reveal(settles);
    lemma_pending_states_are_open();
    let script = Database::reject_document_revision_for_authorization_change_script(
        tenant_id,
        revision_id,
        log,
    );
    assert(course.performs(script, log, 0));
    assert(course.performs(script, log, 1));
}

proof fn lemma_pending_states_are_open()
    ensures
        !crate::laws::is_settled("staging"@),
        !crate::laws::is_settled("staged"@),
        !crate::laws::is_settled("committing"@),
        crate::laws::is_settled("rejected"@),
        "active"@ != "draining"@,
{
    reveal_strlit("staging");
    reveal_strlit("staged");
    reveal_strlit("committing");
    reveal_strlit("checkpoint");
    reveal_strlit("committed");
    reveal_strlit("no_op");
    reveal_strlit("conflict");
    reveal_strlit("rejected");
    reveal_strlit("failed");
    reveal_strlit("active");
    reveal_strlit("draining");
    assert("staging"@.len() == 7);
    assert("staged"@.len() == 6 && "staged"@[0] == 's');
    assert("committing"@.len() == 10 && "committing"@[1] == 'o');
    assert("checkpoint"@.len() == 10 && "checkpoint"@[1] == 'h');
    assert("committed"@.len() == 9);
    assert("no_op"@.len() == 5);
    assert("conflict"@.len() == 8);
    assert("rejected"@.len() == 8);
    assert("failed"@.len() == 6 && "failed"@[0] == 'f');
    assert("active"@.len() == 6);
    assert("draining"@.len() == 8);
}

/// A revision is rejected where its session is no longer live, or its generations are no longer
/// current, as long as its payload can still be given up and the drive has its bytes reserved.
pub proof fn withdrawn_revisions_are_rejected(
    tenant_id: Uuid,
    revision_id: Uuid,
    log: Seq<Reply>,
    course: Course,
)
    requires
        course.follows(
            Database::reject_document_revision_for_authorization_change_script(
                tenant_id,
                revision_id,
                log,
            ),
            log,
        ),
        log.len() > 1,
        ({
            let documents = course.start().documents;
            let catalog = course.start().catalog;
            let revision = documents.revisions[revision_id];
            let session = documents.session_of(revision_id);
            let fence = log[2].optional_row::<FenceGenerations>();
            let live = session.state == "active"@ && session.absolute_expires_at
                > course.clock[1];
            &&& documents.is_whole(revision_id)
            &&& crate::tables::document::is_pending(revision.state)
            &&& revision.payload_id is Some
            &&& catalog.payload_is(revision.payload_id->0, "staging"@) || catalog.payload_is(
                revision.payload_id->0,
                "finalized"@,
            )
            &&& crate::tables::catalog::reserves(
                course.start(),
                session.drive_id,
                revision.reserved_bytes as int,
            )
            &&& live && log.len() > 2 ==> fence is Ok && (fence->Ok_0 is None
                || !fence->Ok_0->0.agrees_with(
                documents.actor_of(revision_id).generations.expected(),
            ))
        }),
    ensures
        Database::reject_document_revision_for_authorization_change_fault(log) is None,
        Database::reject_document_revision_for_authorization_change_output(log),
{
    reveal(settles);
    lemma_pending_states_are_open();
    let script = Database::reject_document_revision_for_authorization_change_script(
        tenant_id,
        revision_id,
        log,
    );
    let found = log[1].required_row::<RejectableRevision>(DatabaseError::NotFound)->Ok_0;
    assert(course.performs(script, log, 0));
    assert(course.performs(script, log, 1));
    let at: int = if found.session_state@ == "active"@ && found.session_unexpired {
        3
    } else {
        2
    };
    if log.len() > 2 {
        assert(course.performs(script, log, 2));
    }
    if log.len() > 3 {
        assert(course.performs(script, log, 3));
    }
    if log.len() > 4 {
        assert(course.performs(script, log, 4));
    }
    if log.len() > 5 {
        assert(course.performs(script, log, 5));
    }
    if log.len() > 6 {
        assert(course.performs(script, log, 6));
    }
}

/// Rejecting a revision releases its reservation once. The first call that does so marks the
/// payload for deletion and queues that, takes exactly the reserved bytes off what the drive has
/// reserved, marks the revision as rejected, and revokes an open session under a new fence. A
/// second call says that it did nothing, and does nothing.
#[verifier::rlimit(60)]
pub proof fn rejected_revisions_are_released_once(
    tenant_id: Uuid,
    revision_id: Uuid,
    first: Seq<Reply>,
    second: Seq<Reply>,
    one: Course,
    two: Course,
)
    requires
        crate::step::is_done(
            Database::reject_document_revision_for_authorization_change_fault(first),
            Database::reject_document_revision_for_authorization_change_script(
                tenant_id,
                revision_id,
                first,
            ),
            first,
        ),
        Database::reject_document_revision_for_authorization_change_output(first),
        one.follows(
            Database::reject_document_revision_for_authorization_change_script(
                tenant_id,
                revision_id,
                first,
            ),
            first,
        ),
        two.follows(
            Database::reject_document_revision_for_authorization_change_script(
                tenant_id,
                revision_id,
                second,
            ),
            second,
        ),
        second.len() >= 3,
        two.start().documents.is_whole(revision_id),
        two.start().documents.revisions[revision_id]
            == one.end().documents.revisions[revision_id],
    ensures
        ({
            let documents = one.start().documents;
            let catalog = one.start().catalog;
            let revision = documents.revisions[revision_id];
            let payload_id = revision.payload_id->0;
            let session_id = revision.document_session_id;
            let session = documents.sessions[session_id];
            let after = one.end();
            &&& documents.is_whole(revision_id)
            &&& crate::tables::document::is_pending(revision.state)
            &&& revision.payload_id is Some
            &&& after.catalog == (CatalogTables {
                payloads: catalog.payloads.insert(payload_id, "delete_intent"@),
                jobs: catalog.jobs.insert(
                    ("payload_delete"@, "document-release:"@, payload_id, payload_id),
                ),
                ..charged(
                    one.start(),
                    true,
                    session.drive_id,
                    revision.reserved_bytes as int,
                    0,
                ).catalog
            })
            &&& after.documents.revisions.contains_key(revision_id)
            &&& after.documents.revisions[revision_id].state == "rejected"@
            &&& crate::tables::document::is_open(session.state) ==> {
                &&& after.documents.sessions[session_id].state == "revoked"@
                &&& after.documents.sessions[session_id].fencing_token == session.fencing_token + 1
            }
            &&& !crate::tables::document::is_open(session.state) ==> after.documents.sessions
                == documents.sessions
            &&& crate::step::is_done(
                Database::reject_document_revision_for_authorization_change_fault(second),
                Database::reject_document_revision_for_authorization_change_script(
                    tenant_id,
                    revision_id,
                    second,
                ),
                second,
            )
            &&& !Database::reject_document_revision_for_authorization_change_output(second)
            &&& two.end() == two.start()
        }),
{
    reveal(settles);
    lemma_pending_states_are_open();
    let script = Database::reject_document_revision_for_authorization_change_script(
        tenant_id,
        revision_id,
        first,
    );
    let again = Database::reject_document_revision_for_authorization_change_script(
        tenant_id,
        revision_id,
        second,
    );
    let found = first[1].required_row::<RejectableRevision>(DatabaseError::NotFound)->Ok_0;
    assert(one.performs(script, first, 0));
    assert(one.performs(script, first, 1));
    let at: int = if found.session_state@ == "active"@ && found.session_unexpired {
        3
    } else {
        2
    };
    if at == 3 {
        assert(one.performs(script, first, 2));
    }
    assert(one.rows[at] == one.start());
    assert(one.performs(script, first, at));
    assert(one.performs(script, first, at + 1));
    assert(one.performs(script, first, at + 2));
    assert(one.performs(script, first, at + 3));
    assert(one.performs(script, first, at + 4));
    assert(one.performs(script, first, at + 5));
    assert(one.performs(script, first, at + 6));
    assert(one.performs(script, first, at + 7));
    assert(one.end() == one.rows[at + 8]);
    assert(two.performs(again, second, 0));
    assert(two.performs(again, second, 1));
    assert(two.performs(again, second, 2));
}

/// Recording the deletion of a revision's payload marks it as deleted once. A second call succeeds
/// and changes nothing.
pub proof fn dropped_payloads_are_deleted_once(
    tenant_id: Uuid,
    payload_id: Uuid,
    first: Seq<Reply>,
    second: Seq<Reply>,
    one: Course,
    two: Course,
)
    requires
        crate::step::is_done(
            Database::complete_document_payload_deletion_fault(first),
            Database::complete_document_payload_deletion_script(tenant_id, payload_id, first),
            first,
        ),
        one.follows(
            Database::complete_document_payload_deletion_script(tenant_id, payload_id, first),
            first,
        ),
        two.follows(
            Database::complete_document_payload_deletion_script(tenant_id, payload_id, second),
            second,
        ),
        second.len() >= 3,
        crate::tables::document::is_dropped(two.start().documents, payload_id),
        two.start().catalog.payloads.contains_key(payload_id),
        two.start().catalog.payloads[payload_id] == one.end().catalog.payloads[payload_id],
    ensures
        crate::tables::document::is_dropped(one.start().documents, payload_id),
        one.end() == with_catalog(
            one.start(),
            one.start().catalog.disposed(true, payload_id, "deleted"@),
        ),
        crate::step::is_done(
            Database::complete_document_payload_deletion_fault(second),
            Database::complete_document_payload_deletion_script(tenant_id, payload_id, second),
            second,
        ),
        two.end() == two.start(),
{
    reveal(settles);
    let script = Database::complete_document_payload_deletion_script(tenant_id, payload_id, first);
    let again = Database::complete_document_payload_deletion_script(tenant_id, payload_id, second);
    assert(one.performs(script, first, 0));
    assert(one.performs(script, first, 1));
    assert(one.performs(script, first, 2));
    if script.len() > 3 {
        assert(one.performs(script, first, 3));
    }
    assert(one.end() == one.rows[script.len() as int]);
    assert(one.end().catalog.payloads =~= one.start().catalog.payloads.insert(
        payload_id,
        "deleted"@,
    ));
    assert(two.performs(again, second, 0));
    assert(two.performs(again, second, 1));
    assert(two.performs(again, second, 2));
}

/// Whether a grant is the only one with its token's digest.
pub open spec fn has_own_token(documents: DocumentTables, grant_id: Uuid) -> bool {
    forall|other: Uuid| #[trigger]
        documents.grants.contains_key(other) && documents.grants[other].token_digest
            == documents.grants[grant_id].token_digest ==> other == grant_id
}

/// Whether a participant is the only one of its user in its session.
pub open spec fn is_alone(documents: DocumentTables, participant_id: Uuid) -> bool {
    let participant = documents.participants[participant_id];
    forall|other: Uuid| #[trigger]
        documents.participants.contains_key(other)
            && documents.participants[other].document_session_id
            == participant.document_session_id && documents.participants[other].user_principal_id
            == participant.user_principal_id && documents.participants[other].api_session_id
            == participant.api_session_id ==> other == participant_id
}

/// A participant has one launch lifetime. Consuming a grant opens its participant's session and
/// spends the grant. While the spent grant stands, no other is issued to the participant: that is a
/// conflict where the participant could enter, and nothing changes. And the spent grant opens
/// nothing again.
pub proof fn spent_grants_open_nothing<'a>(
    tenant_id: Uuid,
    consumed_digest: &'a [u8; 32],
    token_digest: &'a [u8; 32],
    first: Seq<Reply>,
    second: Seq<Reply>,
    third: Seq<Reply>,
    one: Course,
    two: Course,
    three: Course,
)
    requires
        crate::step::is_done(
            Database::consume_document_launch_grant_fault(first),
            Database::consume_document_launch_grant_script(tenant_id, consumed_digest, first),
            first,
        ),
        one.follows(
            Database::consume_document_launch_grant_script(tenant_id, consumed_digest, first),
            first,
        ),
        ({
            let launch = Database::consume_document_launch_grant_output(first);
            let participant = one.start().documents.participants[launch.participant.id];
            let documents = two.start().documents;
            let script = Database::issue_document_launch_grant_script(
                tenant_id,
                participant.document_session_id,
                participant.user_principal_id,
                participant.api_session_id,
                token_digest,
                second,
            );
            &&& two.follows(script, second)
            &&& second.len() > 2
            &&& documents.participants.contains_key(launch.participant.id)
            &&& documents.participants[launch.participant.id].document_session_id
                == participant.document_session_id
            &&& documents.participants[launch.participant.id].user_principal_id
                == participant.user_principal_id
            &&& documents.participants[launch.participant.id].api_session_id
                == participant.api_session_id
            &&& is_alone(documents, launch.participant.id)
            &&& documents.grants.contains_key(launch.grant_id)
            &&& documents.grants[launch.grant_id] == one.end().documents.grants[launch.grant_id]
            &&& three.follows(
                Database::consume_document_launch_grant_script(tenant_id, consumed_digest, third),
                third,
            )
            &&& third.len() > 1
            &&& three.start().documents.grants.contains_key(launch.grant_id)
            &&& three.start().documents.grants[launch.grant_id]
                == one.end().documents.grants[launch.grant_id]
            &&& has_own_token(three.start().documents, launch.grant_id)
        }),
    ensures
        ({
            let launch = Database::consume_document_launch_grant_output(first);
            let participant = one.start().documents.participants[launch.participant.id];
            let script = Database::issue_document_launch_grant_script(
                tenant_id,
                participant.document_session_id,
                participant.user_principal_id,
                participant.api_session_id,
                token_digest,
                second,
            );
            let fault = Database::issue_document_launch_grant_fault(second);
            let again = Database::consume_document_launch_grant_fault(third);
            &&& one.start().documents.opens(
                one.start().catalog.user_principals(),
                launch.grant_id,
                consumed_digest@,
                one.clock[1],
            )
            &&& one.end().documents.is_consumed(launch.grant_id, launch.participant.id)
            &&& fault == Some(
                Fault::Error(
                    if two.start().documents.can_enter(launch.participant.id, two.clock[1]) {
                        DatabaseError::Conflict
                    } else {
                        DatabaseError::NotFound
                    },
                ),
            )
            &&& two.left(fault, script, second) == two.start()
            &&& again == Some(Fault::Error(DatabaseError::NotFound))
            &&& three.left(
                again,
                Database::consume_document_launch_grant_script(tenant_id, consumed_digest, third),
                third,
            ) == three.start()
        }),
{
    reveal(admits);
    let launch = Database::consume_document_launch_grant_output(first);
    let participant = one.start().documents.participants[launch.participant.id];
    let consume = Database::consume_document_launch_grant_script(
        tenant_id,
        consumed_digest,
        first,
    );
    let issue = Database::issue_document_launch_grant_script(
        tenant_id,
        participant.document_session_id,
        participant.user_principal_id,
        participant.api_session_id,
        token_digest,
        second,
    );
    let repeat = Database::consume_document_launch_grant_script(
        tenant_id,
        consumed_digest,
        third,
    );
    assert(one.performs(consume, first, 0));
    assert(one.performs(consume, first, 1));
    assert(one.performs(consume, first, 2));
    assert(one.end() == one.rows[3]);
    assert(one.start().documents.opens(
                one.start().catalog.user_principals(),
                launch.grant_id,
                consumed_digest@,
                one.clock[1],
            ));
    assert(two.performs(issue, second, 0));
    assert(two.performs(issue, second, 1));
    assert(two.performs(issue, second, 2));
    assert(two.start().documents.is_consumed(launch.grant_id, launch.participant.id));
    assert(two.start().documents.can_enter(launch.participant.id, two.clock[1])
        ==> crate::tables::document::is_launchable(
        two.start().documents,
        launch.participant.id,
        issue[1]->params,
        two.clock[1],
    ));
    assert(three.performs(repeat, third, 0));
    assert(three.performs(repeat, third, 1));
    assert(third[1].optional_row::<GrantLaunch>() is Ok);
}

/// A reconnect sweep closes only participants whose time to reconnect has passed when it runs, and
/// expires only sessions that have drained by then: no more of each than the limit, all of them
/// where there are fewer, and as many as it reports. Everything else stays as it was. A participant
/// that one sweep has closed is not touched by the next, and a session that one has expired is not
/// either.
pub proof fn swept_participants_are_closed_once(
    tenant_id: Uuid,
    limit: i64,
    first: Seq<Reply>,
    second: Seq<Reply>,
    one: Course,
    two: Course,
    closed: Set<Uuid>,
    expired: Set<Uuid>,
)
    requires
        crate::step::is_done(
            Database::document_reconnect_sweep_fault(limit, first),
            Database::document_reconnect_sweep_script(tenant_id, limit, first),
            first,
        ),
        one.follows(Database::document_reconnect_sweep_script(tenant_id, limit, first), first),
        crate::step::is_done(
            Database::document_reconnect_sweep_fault(limit, second),
            Database::document_reconnect_sweep_script(tenant_id, limit, second),
            second,
        ),
        two.follows(Database::document_reconnect_sweep_script(tenant_id, limit, second), second),
        closed == closed_between(one),
        expired == expired_between(one),
        two.start().documents.participants == one.end().documents.participants,
        two.start().documents.sessions == one.end().documents.sessions,
    ensures
        ({
            let report = Database::document_reconnect_sweep_output(first);
            &&& closed.finite()
            &&& expired.finite()
            &&& report.participants_closed == closed.len() <= limit
            &&& report.sessions_expired == expired.len() <= limit
            &&& forall|id: Uuid| #[trigger]
                closed.contains(id) ==> one.start().documents.is_overdue(id, one.clock[1])
            &&& forall|id: Uuid| #[trigger]
                expired.contains(id) ==> one.rows[2].documents.is_drained(id, one.clock[2])
            &&& closed.len() < limit ==> forall|id: Uuid|
                one.start().documents.is_overdue(id, one.clock[1]) ==> #[trigger] closed.contains(
                    id,
                )
            &&& one.end() == crate::tables::document::with_documents(
                one.start(),
                DocumentTables {
                    participants: crate::tables::document::moved(
                        one.start().documents.participants,
                        |id: Uuid| closed.contains(id),
                        "closed"@,
                    ),
                    sessions: crate::tables::document::fenced(
                        one.start().documents.sessions,
                        |id: Uuid| expired.contains(id),
                        "expired"@,
                    ),
                    ..one.start().documents
                },
            )
            &&& forall|id: Uuid| #[trigger]
                closed.contains(id) ==> two.end().documents.participants[id]
                    == one.end().documents.participants[id]
            &&& forall|id: Uuid| #[trigger]
                expired.contains(id) ==> two.end().documents.sessions[id]
                    == one.end().documents.sessions[id]
        }),
{
    reveal(admits);
    reveal_strlit("closed");
    reveal_strlit("disconnected");
    reveal_strlit("expired");
    reveal_strlit("draining");
    assert("closed"@.len() != "disconnected"@.len());
    assert("expired"@.len() != "draining"@.len());
    let script = Database::document_reconnect_sweep_script(tenant_id, limit, first);
    let again = Database::document_reconnect_sweep_script(tenant_id, limit, second);
    assert(one.performs(script, first, 0));
    assert(one.performs(script, first, 1));
    assert(one.performs(script, first, 2));
    assert(one.performs(script, first, 3));
    assert(one.end() == one.rows[4]);
    let documents = one.start().documents;
    let chosen = choose|chosen: Set<Uuid>| #[trigger]
        crate::tables::document::are_overdue(
            documents,
            one.clock[1],
            chosen,
            limit as int,
            first[1],
        ) && one.rows[2] == crate::tables::document::with_documents(
            one.start(),
            DocumentTables {
                participants: crate::tables::document::moved(
                    documents.participants,
                    |other: Uuid| chosen.contains(other),
                    "closed"@,
                ),
                ..documents
            },
        );
    let drained = choose|chosen: Set<Uuid>| #[trigger]
        crate::tables::document::are_drained(
            one.rows[2].documents,
            one.clock[2],
            chosen,
            limit as int,
            first[2],
        ) && one.rows[3] == crate::tables::document::with_documents(
            one.rows[2],
            DocumentTables {
                sessions: crate::tables::document::fenced(
                    one.rows[2].documents.sessions,
                    |other: Uuid| chosen.contains(other),
                    "expired"@,
                ),
                ..one.rows[2].documents
            },
        );
    assert(chosen =~= closed);
    assert(drained =~= expired);
    assert(two.performs(again, second, 0));
    assert(two.performs(again, second, 1));
    assert(two.performs(again, second, 2));
    assert(two.performs(again, second, 3));
    assert(two.end() == two.rows[4]);
}

/// The participants that are closed after a course and were not before.
pub open spec fn closed_between(course: Course) -> Set<Uuid> {
    Set::new(
        |id: Uuid|
            course.start().documents.participants.contains_key(id)
                && course.start().documents.participants[id].state != "closed"@
                && course.end().documents.participants[id].state == "closed"@,
    )
}

/// The sessions that are expired after a course and were not before.
pub open spec fn expired_between(course: Course) -> Set<Uuid> {
    Set::new(
        |id: Uuid|
            course.start().documents.sessions.contains_key(id)
                && course.start().documents.sessions[id].state != "expired"@
                && course.end().documents.sessions[id].state == "expired"@,
    )
}

#[verifier::rlimit(60)]
proof fn lemma_opening_leaves_receipts<'a>(
    input: &'a CreateDocumentSessionInput<'a>,
    first: Seq<Reply>,
    one: Course,
)
    requires
        crate::step::is_done(
            Database::create_document_session_fault(input, first),
            Database::create_document_session_script(input, first),
            first,
        ),
        one.follows(Database::create_document_session_script(input, first), first),
        !one.start().documents.receipts.contains_key(input.operation_digest@),
    ensures
        first.len() == 17 || first.len() == 20,
        first[2].optional_row::<OperationReceipt>() == Ok::<Option<OperationReceipt>, Fault>(None),
        one.rows[10].documents.receipts == one.start().documents.receipts,
        one.rows[10].documents.participants == one.start().documents.participants,
        one.rows[10].catalog == one.start().catalog,
        forall|id: Uuid| #[trigger]
            one.start().documents.sessions.contains_key(id)
                == one.rows[10].documents.sessions.contains_key(id),
{
    reveal(admits);
    let script = Database::create_document_session_script(input, first);
    assert(one.performs(script, first, 0));
    assert(one.performs(script, first, 1));
    assert(one.performs(script, first, 2));
    let found = first[2].optional_row::<OperationReceipt>();
    assert(one.rows[2] == one.start());
    assert(found is Ok);
    assert(found->Ok_0 is None);
    assert(one.performs(script, first, 3));
    assert(one.performs(script, first, 4));
    assert(one.performs(script, first, 5));
    assert(one.performs(script, first, 6));
    assert(one.performs(script, first, 7));
    assert(one.performs(script, first, 8));
    assert(one.performs(script, first, 9));
}

#[verifier::rlimit(60)]
proof fn lemma_opening_is_recorded<'a>(
    input: &'a CreateDocumentSessionInput<'a>,
    first: Seq<Reply>,
    one: Course,
)
    requires
        crate::step::is_done(
            Database::create_document_session_fault(input, first),
            Database::create_document_session_script(input, first),
            first,
        ),
        one.follows(Database::create_document_session_script(input, first), first),
        !one.start().documents.receipts.contains_key(input.operation_digest@),
        first.len() == 17 || first.len() == 20,
        first[2].optional_row::<OperationReceipt>() == Ok::<Option<OperationReceipt>, Fault>(None),
        one.rows[10].documents.receipts == one.start().documents.receipts,
        one.rows[10].catalog == one.start().catalog,
    ensures
        ({
            let digest = input.operation_digest@;
            let row = one.end().documents.receipts[digest];
            &&& Database::create_document_session_output(first) matches Recorded::Created(launch)
            &&& launch.grant_id.value == 0
            &&& one.end().documents.receipts == one.start().documents.receipts.insert(digest, row)
            &&& row.request_fingerprint == input.request_fingerprint@
            &&& row.command_kind == "create_session"@
            &&& row.launch == Some(launch)
            &&& one.end().catalog.audit_events.len() == one.start().catalog.audit_events.len() + 1
            &&& one.end().catalog.outbox_events.len() == one.start().catalog.outbox_events.len() + 1
        }),
{
    reveal(admits);
    reveal(crate::tables::catalog::means);
    let script = Database::create_document_session_script(input, first);
    let at = first.len() - 7;
    if first.len() == 20 {
        assert(one.performs(script, first, 10));
        assert(one.performs(script, first, 11));
        assert(one.performs(script, first, 12));
    }
    assert(one.rows[at].documents.receipts == one.start().documents.receipts);
    assert(one.performs(script, first, at));
    assert(one.performs(script, first, at + 1));
    assert(one.performs(script, first, at + 2));
    assert(one.performs(script, first, at + 3));
    assert(one.performs(script, first, at + 4));
    assert(one.performs(script, first, at + 5));
    assert(one.performs(script, first, at + 6));
    assert(one.end() == one.rows[at + 7]);
}

/// The first opening of a session under a digest stores the receipt of the very launch that it
/// returns, which carries no token. A later opening under the same digest adds nothing: with the
/// same fingerprint it is answered with what that receipt holds, with another it is a conflict.
pub proof fn opened_sessions_are_answered_again<'a>(
    input: &'a CreateDocumentSessionInput<'a>,
    again: &'a CreateDocumentSessionInput<'a>,
    first: Seq<Reply>,
    second: Seq<Reply>,
    one: Course,
    two: Course,
)
    requires
        crate::step::is_done(
            Database::create_document_session_fault(input, first),
            Database::create_document_session_script(input, first),
            first,
        ),
        one.follows(Database::create_document_session_script(input, first), first),
        !one.start().documents.receipts.contains_key(input.operation_digest@),
        Database::create_document_session_fault(again, Seq::empty()) is None,
        again.operation_digest@ == input.operation_digest@,
        two.follows(Database::create_document_session_script(again, second), second),
        second.len() >= 4,
        two.start().documents.receipts.contains_key(input.operation_digest@),
        two.start().documents.receipts[input.operation_digest@]
            == one.end().documents.receipts[input.operation_digest@],
    ensures
        ({
            let digest = input.operation_digest@;
            let row = one.end().documents.receipts[digest];
            let fault = Database::create_document_session_fault(again, second);
            let script = Database::create_document_session_script(again, second);
            let same = again.request_fingerprint@ == input.request_fingerprint@;
            &&& Database::create_document_session_output(first) matches Recorded::Created(launch)
            &&& launch.grant_id.value == 0
            &&& one.end().documents.receipts == one.start().documents.receipts.insert(digest, row)
            &&& row.launch == Some(launch)
            &&& one.end().catalog.audit_events.len() == one.start().catalog.audit_events.len() + 1
            &&& one.end().catalog.outbox_events.len() == one.start().catalog.outbox_events.len() + 1
            &&& same ==> crate::step::is_done(fault, script, second)
                && Database::create_document_session_output(second) == Recorded::<
                DocumentLaunchRecord,
            >::Replayed(row.response)
            &&& !same ==> fault == Some(Fault::Error(DatabaseError::Conflict))
            &&& two.left(fault, script, second) == two.start()
        }),
{
    lemma_opening_leaves_receipts(input, first, one);
    lemma_opening_is_recorded(input, first, one);
    reveal(admits);
    let script = Database::create_document_session_script(again, second);
    assert(two.performs(script, second, 0));
    assert(two.performs(script, second, 1));
    assert(two.performs(script, second, 2));
    let found = second[2].optional_row::<OperationReceipt>();
    assert(two.rows[2] == two.start());
    assert(found is Ok);
    assert(found->Ok_0 is Some);
    assert(two.performs(script, second, 3));
}

/// The event that a callback leaves.
pub open spec fn event_of<'a>(input: &'a ReceiveDocumentCallbackInput<'a>) -> EventRow {
    EventRow {
        document_session_id: input.document_session_id,
        participant_id: Some(input.participant_id),
        provider_event_digest: input.provider_event_digest@,
        event_kind: input.callback_kind@,
    }
}

/// What the first callback under a digest leaves: its event, and one revision of the announced kind
/// where it announces an output.
pub open spec fn is_heard<'a>(
    input: &'a ReceiveDocumentCallbackInput<'a>,
    first: Seq<Reply>,
    before: DocumentTables,
    after: DocumentTables,
) -> bool {
    let received = Database::receive_document_callback_output(input, first);
    let announces = input.callback_kind@ == "output_required"@;
    let revision = received.revision->0;
    let row = after.revisions[revision.id];
    &&& !before.events.contains_key(received.event_id)
    &&& after.events == before.events.insert(received.event_id, event_of(input))
    &&& received.revision is Some <==> announces
    &&& !announces ==> after.revisions == before.revisions
    &&& announces ==> {
        &&& !before.revisions.contains_key(revision.id)
        &&& after.revisions == before.revisions.insert(revision.id, row)
        &&& crate::tables::document::is_received(revision, row)
        &&& row.document_session_id == input.document_session_id
        &&& row.actor_participant_id == input.participant_id
        &&& row.provider_event_digest == input.provider_event_digest@
        &&& Some(row.kind) == crate::text::borrowed_text(input.revision_kind)
        &&& row.state == "received"@
        &&& row.media_type is Some
        &&& crate::document::can_write(before.participants[input.participant_id].mode)
    }
}

#[verifier::rlimit(60)]
proof fn lemma_callback_is_heard<'a>(
    input: &'a ReceiveDocumentCallbackInput<'a>,
    first: Seq<Reply>,
    one: Course,
)
    requires
        crate::step::is_done(
            Database::receive_document_callback_fault(input, first),
            Database::receive_document_callback_script(input, first),
            first,
        ),
        one.follows(Database::receive_document_callback_script(input, first), first),
        forall|id: Uuid|
            !(#[trigger] one.start().documents.is_event(
                id,
                input.document_session_id,
                input.provider_event_digest@,
            )),
        forall|id: Uuid|
            !(#[trigger] one.start().documents.is_announced(
                id,
                input.document_session_id,
                input.provider_event_digest@,
            )),
    ensures
        is_heard(input, first, one.start().documents, one.end().documents),
        one.start().documents.participants.contains_key(input.participant_id),
{
    reveal(hears);
    reveal_strlit("output_required");
    reveal_strlit("editing");
    reveal_strlit("closed_no_changes");
    assert("output_required"@.len() == 15);
    assert("editing"@.len() == 7);
    assert("closed_no_changes"@.len() == 17);
    let script = Database::receive_document_callback_script(input, first);
    assert(one.performs(script, first, 0));
    assert(one.performs(script, first, 1));
    let found = first[1].optional_row::<CallbackEvent>();
    assert(one.rows[1] == one.start());
    assert(found is Ok);
    assert(found->Ok_0 is None);
    assert(one.performs(script, first, 2));
    assert(one.performs(script, first, 3));
    assert(one.rows[4] == one.start());
    assert(one.performs(script, first, 4));
    assert(one.performs(script, first, 5));
    assert(one.performs(script, first, 6));
    if script.len() > 7 {
        assert(one.performs(script, first, 7));
    }
    assert(script.len() == 7 || script.len() == 8);
    assert(one.end() == one.rows[script.len() as int]);
    let received = Database::receive_document_callback_output(input, first);
    let before = one.start().documents;
    let after = one.end().documents;
    assert(received.event_id == first[4].required_row::<Uuid>(DatabaseError::Conflict)->Ok_0);
    assert(crate::tables::document::new_event(script[4]->params) == event_of(input));
    assert(one.rows[5].documents.events == before.events.insert(
        received.event_id,
        event_of(input),
    ));
    assert(after.events == one.rows[5].documents.events);
    assert(one.rows[6].documents.revisions == before.revisions);
    if input.callback_kind@ == "output_required"@ {
        assert(script.len() == 8);
        assert(script[6]->sql == crate::sql::document::RECEIVE_DOCUMENT_CALLBACK_INSERT_REVISIONS);
        let revision = received.revision->0;
        let params = script[6]->params;
        let row = choose|row: RevisionRow|
            {
                &&& #[trigger] crate::tables::document::is_new_revision(row, params)
                &&& crate::tables::document::is_received(revision, row)
                &&& one.rows[7].documents.revisions == before.revisions.insert(revision.id, row)
            };
        assert(!before.is_announced(
            revision.id,
            input.document_session_id,
            input.provider_event_digest@,
        ));
        assert(crate::tables::document::is_new_revision(row, params));
        assert(after.revisions[revision.id] == row);
        assert(crate::document::can_write(before.participants[input.participant_id].mode));
    } else {
        assert(after.revisions == before.revisions);
    }
}

/// A callback is received once. The first under a digest leaves its event, and one revision where
/// it announces an output. Another under the same digest finds that event. From another
/// participant, of another kind, or announcing another kind of revision, it is a conflict; else it
/// is answered with the same event, and with the same revision where it announces an output. None
/// of these changes a row. Only an editing callback is applied again, and even that adds no event
/// and no revision.
#[verifier::rlimit(60)]
pub proof fn callbacks_leave_one_event<'a>(
    input: &'a ReceiveDocumentCallbackInput<'a>,
    again: &'a ReceiveDocumentCallbackInput<'a>,
    first: Seq<Reply>,
    second: Seq<Reply>,
    one: Course,
    two: Course,
)
    requires
        crate::step::is_done(
            Database::receive_document_callback_fault(input, first),
            Database::receive_document_callback_script(input, first),
            first,
        ),
        one.follows(Database::receive_document_callback_script(input, first), first),
        forall|id: Uuid|
            !(#[trigger] one.start().documents.is_event(
                id,
                input.document_session_id,
                input.provider_event_digest@,
            )),
        forall|id: Uuid|
            !(#[trigger] one.start().documents.is_announced(
                id,
                input.document_session_id,
                input.provider_event_digest@,
            )),
        crate::document::is_well_formed_callback(again),
        again.document_session_id == input.document_session_id,
        again.provider_event_digest@ == input.provider_event_digest@,
        two.follows(Database::receive_document_callback_script(again, second), second),
        second.len() >= Database::receive_document_callback_script(again, second).len()
            || second.len() > 2,
        two.start().documents.events == one.end().documents.events,
        two.start().documents.revisions == one.end().documents.revisions,
        two.start().documents.participants.contains_key(input.participant_id),
        two.start().documents.participants[input.participant_id].mode
            == one.start().documents.participants[input.participant_id].mode,
    ensures
        ({
            let received = Database::receive_document_callback_output(input, first);
            let fault = Database::receive_document_callback_fault(again, second);
            let script = Database::receive_document_callback_script(again, second);
            let output = Database::receive_document_callback_output(again, second);
            let left = two.left(fault, script, second);
            let announces = again.callback_kind@ == "output_required"@;
            let same = again.participant_id == input.participant_id && again.callback_kind@
                == input.callback_kind@ && crate::text::borrowed_text(again.revision_kind)
                == crate::text::borrowed_text(input.revision_kind);
            &&& is_heard(input, first, one.start().documents, one.end().documents)
            &&& !same ==> fault == Some(Fault::Error(DatabaseError::Conflict)) && left
                == two.start()
            &&& same && again.callback_kind@ != "editing"@ ==> fault is None && left
                == two.start() && output.event_id == received.event_id && (output.revision is Some
                <==> announces)
            &&& same && announces ==> output.revision->0.id == received.revision->0.id
            &&& same && again.callback_kind@ == "editing"@ && crate::step::is_done(
                fault,
                script,
                second,
            ) ==> output.event_id == received.event_id && output.revision is None
                && left.documents.events == two.start().documents.events
                && left.documents.revisions == two.start().documents.revisions
        }),
{
    lemma_callback_is_heard(input, first, one);
    reveal(hears);
    reveal_strlit("output_required");
    reveal_strlit("editing");
    reveal_strlit("closed_no_changes");
    assert("output_required"@.len() == 15);
    assert("editing"@.len() == 7);
    assert("closed_no_changes"@.len() == 17);
    let received = Database::receive_document_callback_output(input, first);
    let script = Database::receive_document_callback_script(again, second);
    let documents = two.start().documents;
    let session_id = input.document_session_id;
    let digest = input.provider_event_digest@;
    assert(documents.is_event(received.event_id, session_id, digest));
    assert forall|id: Uuid| documents.is_event(id, session_id, digest) implies id
        == received.event_id by {
        if id != received.event_id {
            assert(one.start().documents.is_event(id, session_id, digest));
        }
    }
    if received.revision is Some {
        assert(documents.is_announced(received.revision->0.id, session_id, digest));
    }
    assert forall|id: Uuid| documents.is_announced(id, session_id, digest) implies received.revision
        is Some && id == received.revision->0.id by {
        if received.revision is None || id != received.revision->0.id {
            assert(one.start().documents.is_announced(id, session_id, digest));
        }
    }
    assert(two.performs(script, second, 0));
    assert(two.performs(script, second, 1));
    let found = second[1].optional_row::<CallbackEvent>();
    assert(two.rows[1] == two.start());
    assert(found is Ok);
    assert(documents.events[received.event_id] == event_of(input));
    assert(script[1]->params[1]->Id_0 == session_id);
    assert(script[1]->params[2]->Digest_0@ == digest);
    assert(found->Ok_0 is Some);
    assert(found->Ok_0->0.id == received.event_id);
    assert(two.performs(script, second, 2));
    if second.len() > 3 {
        assert(two.performs(script, second, 3));
    }
    if second.len() > 4 {
        assert(two.performs(script, second, 4));
        assert(two.performs(script, second, second.len() - 1));
    }
    if second.len() > 6 {
        assert(two.performs(script, second, 5));
        assert(two.performs(script, second, 6));
    }
}

} // verus!
