//! Laws that hold across operations, over what the operations' contracts say.

use vstd::prelude::*;

use crate::collaboration::AbandonableObject;
use crate::collaboration::CollaborationUpdateChunkInput;
use crate::collaboration::DeletedObject;
use crate::database::Database;
use crate::document::BeginDocumentRevisionInput;
use crate::document::CallbackParticipant;
use crate::document::CommittableRevision;
use crate::document::CreateDocumentSessionInput;
use crate::document::DocumentConflictCopyRecord;
use crate::document::DocumentLaunchRecord;
use crate::document::NormalizedName;
use crate::document::OperationReceipt;
use crate::document::PayloadState;
use crate::document::ReceiveDocumentCallbackInput;
use crate::document::Recorded;
use crate::document::RejectableRevision;
use crate::document::WritingParticipant;
use crate::document_retention::DocumentRevisionRetentionReport;
use crate::document_retention::OutlivedRevision;
use crate::document_retention::UnfinishedRevision;
use crate::error::DatabaseError;
use crate::error::Fault;
use crate::id::Uuid;
use crate::idempotency::IdempotencyReceipt;
use crate::identity::IdentityRecord;
use crate::mcp::idempotency::McpMutationIdempotency;
use crate::mcp::idempotency::McpMutationStartView;
use crate::progress::ProgressView;
use crate::row::Reply;
use crate::sql::catalog;
use crate::sql::collaboration as collaboration_sql;
use crate::step::CommandView;
use crate::step::Detail;
use crate::step::Fetch;
use crate::step::Param;
use crate::upload::FinalizedUpload;

verus! {

/// A view-only participant cannot announce an output: the callback is refused, and nothing has
/// been written by then.
pub proof fn view_participants_announce_no_output<'a>(
    input: &'a ReceiveDocumentCallbackInput<'a>,
    log: Seq<Reply>,
)
    requires
        input.callback_kind@ == "output_required"@,
        log.len() > 3,
        Database::receive_document_callback_fault(input, log.take(3)) is None,
        log[1].optional_row::<crate::document::CallbackEvent>()->Ok_0 is None,
        !crate::document::can_write(
            log[2].required_row::<CallbackParticipant>(DatabaseError::NotFound)->Ok_0.mode@,
        ),
    ensures
        Database::receive_document_callback_fault(input, log) is Some,
        crate::step::writes_nothing_before(
            Database::receive_document_callback_script(input, log),
            4,
        ),
{
    reveal_strlit("output_required");
    reveal_strlit("editing");
    assert("output_required"@.len() != "editing"@.len());
}

/// A view-only participant cannot begin a revision: it is a conflict, and nothing has been
/// written by then.
pub proof fn view_participants_begin_no_revision<'a>(
    input: &'a BeginDocumentRevisionInput<'a>,
    log: Seq<Reply>,
)
    requires
        log.len() > 1,
        Database::begin_document_revision_fault(input, log.take(1)) is None,
        log[1].required_row::<WritingParticipant>(DatabaseError::NotFound) is Ok,
        !crate::document::can_write(
            log[1].required_row::<WritingParticipant>(DatabaseError::NotFound)->Ok_0.mode@,
        ),
    ensures
        Database::begin_document_revision_fault(input, log) == Some(
            Fault::Error(DatabaseError::Conflict),
        ),
        crate::step::writes_nothing_before(Database::begin_document_revision_script(input, log), 2),
{
}

/// A view-only participant's revision cannot be committed: it is a conflict, and nothing has been
/// written by then.
pub proof fn view_participants_commit_no_revision(
    tenant_id: Uuid,
    revision_id: Uuid,
    log: Seq<Reply>,
)
    requires
        log.len() > 1,
        log[1].required_row::<CommittableRevision>(DatabaseError::NotFound) is Ok,
        !crate::document::can_write(
            log[1].required_row::<CommittableRevision>(DatabaseError::NotFound)->Ok_0.mode@,
        ),
    ensures
        Database::commit_document_revision_fault(log) == Some(
            Fault::Error(DatabaseError::Conflict),
        ),
        crate::step::writes_nothing_before(
            Database::commit_document_revision_script(tenant_id, revision_id, log),
            2,
        ),
{
}

/// Opening a session a second time under the same digest returns what was stored the first time
/// and writes nothing; under the same digest, another request is a conflict.
pub proof fn opened_sessions_are_replayed<'a>(
    input: &'a CreateDocumentSessionInput<'a>,
    receipt: OperationReceipt,
    log: Seq<Reply>,
)
    requires
        log.len() > 2,
        Database::create_document_session_fault(input, Seq::empty()) is None,
        log[2].optional_row::<OperationReceipt>() == Ok::<Option<OperationReceipt>, Fault>(
            Some(receipt),
        ),
    ensures
        receipt.request_fingerprint@ == input.request_fingerprint@ && receipt.command_kind@
            == "create_session"@ ==> {
            &&& Database::create_document_session_fault(input, log) is None
            &&& Database::create_document_session_output(log) == Recorded::<
                DocumentLaunchRecord,
            >::Replayed(receipt.response)
            &&& Database::create_document_session_script(input, log).len() == 4
            &&& Database::create_document_session_script(input, log)[3] == CommandView::Commit
        },
        !(receipt.request_fingerprint@ == input.request_fingerprint@ && receipt.command_kind@
            == "create_session"@) ==> Database::create_document_session_fault(input, log) == Some(
            Fault::Error(DatabaseError::Conflict),
        ),
{
}

/// Keeping a conflict copy a second time under the same digest returns what was stored the first
/// time and writes nothing; under the same digest, another request is a conflict.
pub proof fn conflict_copies_are_replayed<'a>(
    tenant_id: Uuid,
    document_session_id: Uuid,
    actor_principal_id: Uuid,
    api_session_id: Uuid,
    target_parent_id: Uuid,
    expected_parent_namespace_generation: i64,
    generations: crate::document::DocumentAuthorizationGenerations,
    name: Option<&'a NormalizedName<'a>>,
    operation_digest: &'a [u8; 32],
    request_fingerprint: &'a [u8; 32],
    receipt: OperationReceipt,
    log: Seq<Reply>,
)
    requires
        log.len() > 2,
        name is Some,
        log[2].optional_row::<OperationReceipt>() == Ok::<Option<OperationReceipt>, Fault>(
            Some(receipt),
        ),
    ensures
        ({
            let fault = Database::create_document_conflict_copy_fault(
                expected_parent_namespace_generation,
                generations,
                name,
                request_fingerprint,
                log,
            );
            let script = Database::create_document_conflict_copy_script(
                tenant_id,
                document_session_id,
                actor_principal_id,
                api_session_id,
                target_parent_id,
                name,
                operation_digest,
                request_fingerprint,
                log,
            );
            let same = receipt.request_fingerprint@ == request_fingerprint@
                && receipt.command_kind@ == "conflict_copy"@;
            &&& same ==> fault is None && script.len() == 4 && script[3] == CommandView::Commit
                && Database::create_document_conflict_copy_output(name, log) == Recorded::<
                DocumentConflictCopyRecord,
            >::Replayed(receipt.response)
            &&& !same ==> fault == Some(Fault::Error(DatabaseError::Conflict))
        }),
{
}

/// Whether a command appends an audit event of an action that was allowed.
pub open spec fn appends_audit<'a>(command: CommandView<'a>, action: &'static str) -> bool {
    command matches CommandView::Query { sql, params, fetch, .. } && {
        &&& sql == catalog::INSERT_AUDIT
        &&& fetch == Fetch::Execute
        &&& params.len() == 10
        &&& params[5] == Param::Text(action)
        &&& params[6] == Param::Text("allowed")
    }
}

/// A session is opened in one transaction, which is begun once its identifier is drawn, and the
/// last write of that transaction appends the audit event.
pub proof fn opened_sessions_are_audited<'a>(
    identity: &'a IdentityRecord,
    key_generation: i32,
    token_digest: &'a [u8],
    csrf_digest: &'a [u8],
    idle_seconds: i64,
    absolute_seconds: i64,
    user_agent: Option<&'a str>,
    log: Seq<Reply>,
)
    ensures
        ({
            let script = Database::create_session_script(
                identity,
                key_generation,
                token_digest,
                csrf_digest,
                idle_seconds,
                absolute_seconds,
                user_agent,
                log,
            );
            &&& script[0] == CommandView::DrawIds(1)
            &&& crate::step::is_atomic(script.skip(1), 0)
            &&& appends_audit(script[script.len() - 2], "session.create")
        }),
{
}

/// A session that is revoked is audited by the last write of the transaction that revokes it.
/// Where there is none to revoke, nothing is audited, and nothing is committed.
pub proof fn revoked_sessions_are_audited(
    tenant_id: Uuid,
    actor: Uuid,
    session_id: Uuid,
    log: Seq<Reply>,
)
    ensures
        ({
            let script = Database::revoke_session_script(tenant_id, actor, session_id, log);
            &&& Database::revoke_session_output(log) ==> appends_audit(
                script[script.len() - 2],
                "session.revoke",
            )
            &&& !Database::revoke_session_output(log) ==> script.len() == 2
        }),
{
}

/// Revoking a user's sessions is audited once, with the sessions that were revoked, by the last
/// write of the transaction that revokes them; where there were none, nothing is audited.
pub proof fn mass_revocations_are_audited(
    tenant_id: Uuid,
    actor: Uuid,
    user_id: Uuid,
    except_session_id: Option<Uuid>,
    log: Seq<Reply>,
)
    ensures
        ({
            let script = Database::revoke_all_sessions_script(
                tenant_id,
                actor,
                user_id,
                except_session_id,
                log,
            );
            let audit = script[script.len() - 2];
            let revoked = log[1].all_rows::<Uuid>()->Ok_0;
            &&& revoked.len() > 0 ==> {
                &&& appends_audit(audit, "session.revoke_all")
                &&& audit->params[9] == Param::Object2(
                    "except_session_id",
                    Detail::OptId(except_session_id),
                    "revoked_session_ids",
                    Detail::RowIds(&log[1]),
                )
            }
            &&& revoked.len() == 0 ==> script.len() == 3
        }),
{
}

/// A mutation runs once for each key: a key that stands for another request is reported as
/// reused, one that stands for this request is answered with what was recorded, and in neither
/// case is anything left to be done. Only a key that is new or has expired starts the mutation.
pub proof fn mutations_run_once<'a>(
    idempotency: &'a McpMutationIdempotency<'a>,
    inserted: u64,
    receipt: IdempotencyReceipt,
    log: Seq<Reply>,
)
    requires
        log.len() > 2,
        crate::idempotency::is_reservable(idempotency.route@, idempotency.key@),
        log[1].row_count() == Ok::<u64, Fault>(inserted),
        log[2].single_row::<IdempotencyReceipt>() == Ok::<IdempotencyReceipt, Fault>(receipt),
    ensures
        ({
            let same = receipt.matches(
                idempotency.request_fingerprint,
                idempotency.legacy_request_fingerprint,
            );
            let script = Database::mcp_begin_mutation_script(idempotency, log);
            let output = Database::mcp_begin_mutation_output(idempotency, log);
            &&& Database::mcp_begin_mutation_fault(idempotency, log) is None
            &&& !receipt.expired && !same ==> output is KeyReused && script.len() == 4 && script[3]
                == CommandView::Commit
            &&& !receipt.expired && same && inserted != 1 ==> output
                == McpMutationStartView::Replayed(receipt.record) && script.len() == 4 && script[3]
                == CommandView::Commit
            &&& output is Started <==> receipt.expired || same && inserted == 1
        }),
{
}

/// An object that a manifest refers to is never abandoned: that is a conflict, found before
/// anything is written.
pub proof fn referenced_objects_stay(tenant_id: Uuid, object_id: Uuid, log: Seq<Reply>)
    requires
        log.len() > 2,
        Database::collaboration_abandon_object_fault(log.take(2)) is None,
        !is_given_up(
            log[1].required_row::<AbandonableObject>(DatabaseError::NotFound)->Ok_0.state@,
        ),
        log[2].single_row::<bool>() == Ok::<bool, Fault>(true),
    ensures
        Database::collaboration_abandon_object_fault(log) == Some(
            Fault::Error(DatabaseError::Conflict),
        ),
        crate::step::writes_nothing_before(
            Database::collaboration_abandon_object_script(tenant_id, object_id, log),
            3,
        ),
{
}

/// The states of an object that has been given up.
pub open spec fn is_given_up(state: Seq<char>) -> bool {
    ||| state == "quarantined"@
    ||| state == "delete_intent"@
    ||| state == "tombstoned"@
    ||| state == "abandoned"@
}

/// Abandoning an object that has been given up changes nothing.
pub proof fn abandoning_again_changes_nothing(tenant_id: Uuid, object_id: Uuid, log: Seq<Reply>)
    requires
        log.len() > 1,
        log[1].required_row::<AbandonableObject>(DatabaseError::NotFound) is Ok,
        is_given_up(
            log[1].required_row::<AbandonableObject>(DatabaseError::NotFound)->Ok_0.state@,
        ),
    ensures
        Database::collaboration_abandon_object_fault(log) is None,
        Database::collaboration_abandon_object_script(tenant_id, object_id, log).len() == 3,
        Database::collaboration_abandon_object_script(tenant_id, object_id, log)[2]
            == CommandView::Commit,
{
}

/// The bytes of a deleted collaboration payload return to the quota exactly once: with the
/// deletion that finds the object still open, by its exact size, and never again.
pub proof fn deleted_bytes_return_once(
    tenant_id: Uuid,
    payload_id: Uuid,
    object: DeletedObject,
    log: Seq<Reply>,
)
    requires
        log.len() > 1,
        log[1].required_row::<DeletedObject>(DatabaseError::StaleGeneration) == Ok::<
            DeletedObject,
            Fault,
        >(object),
    ensures
        ({
            let script = Database::complete_collaboration_payload_deletion_script(
                tenant_id,
                payload_id,
                log,
            );
            let closed = object.state@ == "tombstoned"@ || object.state@ == "abandoned"@;
            &&& closed ==> script.len() == 3 && script[2] == CommandView::Commit
            &&& !closed && object.size_bytes is Some ==> script[script.len() - 2]
                == CommandView::execute(
                collaboration_sql::COMPLETE_COLLABORATION_PAYLOAD_DELETION_UPDATE_DRIVES,
                seq![
                    Param::Id(tenant_id),
                    Param::Id(object.drive_id),
                    Param::I64(object.size_bytes->0),
                ],
            )
        }),
{
}

/// Recording the deletion of a document payload again changes nothing.
pub proof fn document_deletions_are_recorded_once(
    tenant_id: Uuid,
    payload_id: Uuid,
    log: Seq<Reply>,
)
    requires
        log.len() > 1,
        log[1].required_row::<PayloadState>(DatabaseError::StaleGeneration) is Ok,
        log[1].required_row::<PayloadState>(DatabaseError::StaleGeneration)->Ok_0.state@
            == "deleted"@,
    ensures
        Database::complete_document_payload_deletion_fault(log) is None,
        Database::complete_document_payload_deletion_script(tenant_id, payload_id, log).len() == 3,
        Database::complete_document_payload_deletion_script(tenant_id, payload_id, log)[2]
            == CommandView::Commit,
{
}

/// The states of a revision with a lasting outcome.
pub open spec fn is_settled(state: Seq<char>) -> bool {
    ||| state == "checkpoint"@
    ||| state == "committed"@
    ||| state == "no_op"@
    ||| state == "conflict"@
    ||| state == "rejected"@
    ||| state == "failed"@
}

/// A revision with a lasting outcome is not rejected again, so that its reservation is released
/// once.
pub proof fn settled_revisions_are_not_rejected(
    tenant_id: Uuid,
    revision_id: Uuid,
    log: Seq<Reply>,
)
    requires
        log.len() > 1,
        log[1].required_row::<RejectableRevision>(DatabaseError::NotFound) is Ok,
        is_settled(
            log[1].required_row::<RejectableRevision>(DatabaseError::NotFound)->Ok_0.state@,
        ),
    ensures
        Database::reject_document_revision_for_authorization_change_fault(log) is None,
        !Database::reject_document_revision_for_authorization_change_output(log),
        Database::reject_document_revision_for_authorization_change_script(
            tenant_id,
            revision_id,
            log,
        ).len() == 3,
        Database::reject_document_revision_for_authorization_change_script(
            tenant_id,
            revision_id,
            log,
        )[2] == CommandView::Commit,
{
}

proof fn lemma_bytes_before_grow(
    chunks: Seq<CollaborationUpdateChunkInput>,
    lower: int,
    upper: int,
)
    requires
        crate::collaboration::chunks_make_a_group(chunks),
        0 <= lower <= upper <= chunks.len(),
    ensures
        crate::collaboration::bytes_before(chunks, lower) <= crate::collaboration::bytes_before(
            chunks,
            upper,
        ),
    decreases upper - lower,
{
    if lower < upper {
        lemma_bytes_before_grow(chunks, lower, upper - 1);
        assert(chunks[upper - 1].size_bytes > 0);
    }
}

/// The chunks of an update group tile its object: the first begins at 0, each ends where the next
/// begins, and no two overlap.
pub proof fn chunks_tile_their_object(
    chunks: Seq<CollaborationUpdateChunkInput>,
    earlier: int,
    later: int,
)
    requires
        crate::collaboration::chunks_make_a_group(chunks),
        0 <= earlier < later < chunks.len(),
    ensures
        chunks[0].object_offset == 0,
        chunks[earlier].object_offset + chunks[earlier].size_bytes
            == chunks[earlier + 1].object_offset,
        chunks[earlier].object_offset + chunks[earlier].size_bytes <= chunks[later].object_offset,
{
    assert(chunks[0].chunk_index == 0);
    assert(chunks[earlier].chunk_index == earlier);
    assert(chunks[earlier + 1].chunk_index == earlier + 1);
    assert(chunks[later].chunk_index == later);
    lemma_bytes_before_grow(chunks, earlier + 1, later);
}

/// An upload locks the storage backend right before it reserves the drive's bytes, so that all
/// uploads take the two locks in the same order.
pub proof fn backends_are_locked_before_drives<'a>(
    tenant_id: Uuid,
    actor: Uuid,
    session_id: Uuid,
    drive_id: Uuid,
    parent_id: Uuid,
    node_id: Option<Uuid>,
    expected_parent_generation: Option<i64>,
    expected_head: Option<Uuid>,
    display_name: &'a str,
    name_key: &'a str,
    declared_size: i64,
    chunk_size: i32,
    part_count: i32,
    layout: &'a str,
    declared_media_type: Option<&'a str>,
    collaboration_checkpoint_id: Option<Uuid>,
    import_intent_id: Option<Uuid>,
    ttl_seconds: i64,
    log: Seq<Reply>,
)
    ensures
        ({
            let script = Database::begin_upload_script(
                tenant_id,
                actor,
                session_id,
                drive_id,
                parent_id,
                node_id,
                expected_parent_generation,
                expected_head,
                display_name,
                name_key,
                declared_size,
                chunk_size,
                part_count,
                layout,
                declared_media_type,
                collaboration_checkpoint_id,
                import_intent_id,
                ttl_seconds,
                log,
            );
            let checks: int = 2 + (if node_id is Some {
                1int
            } else {
                0
            }) + (if expected_parent_generation is Some {
                1int
            } else {
                0
            }) + (if collaboration_checkpoint_id is Some {
                1int
            } else {
                0
            }) + (if import_intent_id is Some {
                2int
            } else {
                0
            });
            &&& crate::step::writes_nothing_before(script, checks + 1)
            &&& script[checks] == CommandView::optional(
                catalog::BOOTSTRAP_TENANT_SELECT_STORAGE_BACKENDS,
                seq![Param::Id(tenant_id)],
            )
            &&& script[checks + 1] == CommandView::optional(
                catalog::BEGIN_UPLOAD_UPDATE_DRIVES,
                seq![Param::Id(tenant_id), Param::Id(drive_id), Param::I64(declared_size)],
            )
        }),
{
}

/// The position at which `commit_upload` inserts the version.
pub open spec fn version_insert_at(upload: FinalizedUpload) -> int {
    let placed: int = if upload.node_id is Some {
        1
    } else {
        3
    };
    let sourced: int = if upload.collaboration_checkpoint_id is Some {
        1
    } else if upload.import_intent_id is Some {
        2
    } else {
        0
    };
    3 + placed + 2 + sourced + 1
}

/// A version that does not come from a collaboration checkpoint never claims the assistance of a
/// tool: the mark in the last bound value of its insertion is false.
#[verifier::spinoff_prover]
#[verifier::rlimit(60)]
pub proof fn only_checkpoints_claim_assistance(
    tenant_id: Uuid,
    actor: Uuid,
    session_id: Uuid,
    upload_id: Uuid,
    expected_fencing_token: i64,
    log: Seq<Reply>,
)
    requires
        log[1].required_row::<FinalizedUpload>(
            DatabaseError::StaleGeneration,
        )->Ok_0.collaboration_checkpoint_id is None,
    ensures
        ({
            let upload = log[1].required_row::<FinalizedUpload>(
                DatabaseError::StaleGeneration,
            )->Ok_0;
            let insert = Database::commit_upload_script(
                tenant_id,
                actor,
                session_id,
                upload_id,
                expected_fencing_token,
                log,
            )[version_insert_at(upload)];
            &&& insert matches CommandView::Query { sql, params, .. }
            &&& sql == catalog::COMMIT_UPLOAD_INSERT_FILE_VERSIONS
            &&& params.last() == Param::Bool(false)
        }),
{
}

/// A sweep gives up every unfinished revision that it has listed, each under exactly one of its
/// two counts.
pub proof fn swept_revisions_are_all_given_up(
    tenant_id: Uuid,
    revisions: Seq<UnfinishedRevision>,
    log: Seq<Reply>,
    at: int,
    report: DocumentRevisionRetentionReport,
)
    ensures
        crate::document_retention::abandon_all(
            tenant_id,
            revisions,
            log,
            at,
            report,
        ) matches ProgressView::At(_, end) ==> {
            &&& end.received_abandoned + end.staging_abandoned == report.received_abandoned
                + report.staging_abandoned + revisions.len()
            &&& end.terminal_revisions_released == report.terminal_revisions_released
        },
    decreases revisions.len(),
{
    if revisions.len() > 0 {
        match crate::document_retention::abandon_round(tenant_id, revisions[0], log, at, report) {
            ProgressView::At(at, more) => {
                swept_revisions_are_all_given_up(tenant_id, revisions.skip(1), log, at, more);
            },
            _ => {},
        }
    }
}

/// A sweep releases every ended revision that it has listed.
pub proof fn swept_revisions_are_all_released(
    tenant_id: Uuid,
    revisions: Seq<OutlivedRevision>,
    log: Seq<Reply>,
    at: int,
    report: DocumentRevisionRetentionReport,
)
    ensures
        crate::document_retention::release_all(
            tenant_id,
            revisions,
            log,
            at,
            report,
        ) matches ProgressView::At(_, end) ==> {
            &&& end.terminal_revisions_released == report.terminal_revisions_released
                + revisions.len()
            &&& end.received_abandoned == report.received_abandoned
            &&& end.staging_abandoned == report.staging_abandoned
        },
    decreases revisions.len(),
{
    if revisions.len() > 0 {
        match crate::document_retention::release_round(tenant_id, revisions[0], log, at, report) {
            ProgressView::At(at, more) => {
                swept_revisions_are_all_released(tenant_id, revisions.skip(1), log, at, more);
            },
            _ => {},
        }
    }
}

} // verus!
