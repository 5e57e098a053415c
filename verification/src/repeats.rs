//! Laws of two calls: what a call does once it finds what an earlier one has stored.
//!
//! `first` is the log of an earlier call that went through its whole script, and `second` that of
//! a later one. What a `requires` says of a reply of `second` is what the statements of the first
//! call have stored; the `ensures` name those statements.

use vstd::prelude::*;

use crate::collaboration::AbandonableObject;
use crate::collaboration::CollaborationAuthorizationContext;
use crate::collaboration::CollaborationObjectRecord;
use crate::collaboration::CollaborationUpdateChunkInput;
use crate::collaboration::CurrentSnapshot;
use crate::collaboration::DeletedObject;
use crate::collaboration::FinalizableObject;
use crate::collaboration::StoredUpdateGroup;
use crate::database::Database;
use crate::document::CallbackEvent;
use crate::document::CommittableRevision;
use crate::document::CreateDocumentSessionInput;
use crate::document::DocumentAuthorizationGenerations;
use crate::document::DocumentCommitResult;
use crate::document::DocumentConflictCopyRecord;
use crate::document::DocumentLaunchRecord;
use crate::document::DocumentReconnectSweepReport;
use crate::document::DocumentRevisionRecord;
use crate::document::GrantLaunch;
use crate::document::NormalizedName;
use crate::document::OperationReceipt;
use crate::document::PayloadState;
use crate::document::ReceiveDocumentCallbackInput;
use crate::document::ReceivedDocumentCallback;
use crate::document::ReceivedDocumentRevision;
use crate::document::Recorded;
use crate::document::RejectableRevision;
use crate::error::DatabaseError;
use crate::error::Fault;
use crate::fence::FenceGenerations;
use crate::id::Uuid;
use crate::media::AdmitMediaPreviewInput;
use crate::media::JobEpoch;
use crate::media::MediaPreviewRecord;
use crate::media::PublishMediaManifestInput;
use crate::media::RequestFingerprint;
use crate::media::StartMediaAttemptInput;
use crate::namespace::NodeRecord;
use crate::namespace::TrashCandidate;
use crate::row::Reply;
use crate::sql::catalog;
use crate::sql::collaboration;
use crate::sql::document;
use crate::sql::media;
use crate::step::CommandView;
use crate::step::ErrorRule;
use crate::step::Fetch;
use crate::step::Param;
use crate::upload::OrphanedUpload;

verus! {

/// Whether a revision holds an outcome of its commit.
pub open spec fn holds_outcome(
    revision: DocumentRevisionRecord,
    outcome: DocumentCommitResult,
) -> bool {
    match outcome {
        DocumentCommitResult::Committed { version_id } => {
            &&& revision.state@ == "committed"@
            &&& revision.committed_version_id == Some(version_id)
        },
        DocumentCommitResult::NoOp { version_id } => {
            &&& revision.state@ == "no_op"@
            &&& revision.expected_head_version_id == version_id
        },
        DocumentCommitResult::Conflict { retained_until } => {
            &&& revision.state@ == "conflict"@
            &&& revision.retained_until == Some(retained_until)
        },
    }
}

/// Whether a script has the statement that gives a revision this outcome.
pub open spec fn stores_outcome<'a>(
    tenant_id: Uuid,
    revision_id: Uuid,
    script: Seq<CommandView<'a>>,
    outcome: DocumentCommitResult,
) -> bool {
    match outcome {
        DocumentCommitResult::Committed { version_id } => script[9] == CommandView::execute(
            document::COMMIT_DOCUMENT_REVISION_UPDATE_REVISIONS_2,
            seq![Param::Id(tenant_id), Param::Id(revision_id), Param::Id(version_id)],
        ),
        DocumentCommitResult::NoOp { .. } => script[7] == CommandView::execute(
            document::COMMIT_DOCUMENT_REVISION_UPDATE_REVISIONS,
            seq![Param::Id(tenant_id), Param::Id(revision_id)],
        ),
        DocumentCommitResult::Conflict { .. } => script[4] == CommandView::one(
            document::MARK_DOCUMENT_CONFLICT_UPDATE_REVISIONS,
            seq![
                Param::Id(tenant_id),
                Param::Id(revision_id),
                Param::Text("document_head_changed"),
            ],
        ),
    }
}

/// Committing a revision again gives the outcome of the first commit, whatever has become of the
/// session, and changes no row.
pub proof fn commits_are_repeated(
    tenant_id: Uuid,
    revision_id: Uuid,
    stored: DocumentRevisionRecord,
    first: Seq<Reply>,
    second: Seq<Reply>,
)
    requires
        crate::step::is_done(
            Database::commit_document_revision_fault(first),
            Database::commit_document_revision_script(tenant_id, revision_id, first),
            first,
        ),
        first.len() > 1,
        second.len() > 1,
        second[1].required_row::<CommittableRevision>(DatabaseError::NotFound) is Ok,
        crate::document::can_write(
            second[1].required_row::<CommittableRevision>(DatabaseError::NotFound)->Ok_0.mode@,
        ),
        second[1].single_row::<DocumentRevisionRecord>() == Ok::<DocumentRevisionRecord, Fault>(
            stored,
        ),
        holds_outcome(stored, Database::commit_document_revision_output(first)),
    ensures
        ({
            let earlier = first[1].single_row::<DocumentRevisionRecord>()->Ok_0;
            let outcome = Database::commit_document_revision_output(first);
            earlier.state@ == "staged"@ || earlier.state@ == "committing"@ ==> stores_outcome(
                tenant_id,
                revision_id,
                Database::commit_document_revision_script(tenant_id, revision_id, first),
                outcome,
            )
        }),
        Database::commit_document_revision_fault(second) is None,
        Database::commit_document_revision_output(second)
            == Database::commit_document_revision_output(first),
        Database::commit_document_revision_script(tenant_id, revision_id, second).len() == 2,
        crate::step::writes_nothing(
            Database::commit_document_revision_script(tenant_id, revision_id, second),
        ),
{
    lemma_outcome_names_differ();
}

pub proof fn lemma_outcome_names_differ()
    ensures
        "committed"@ != "no_op"@,
        "committed"@ != "conflict"@,
        "no_op"@ != "conflict"@,
        "staged"@ != "committed"@,
        "staged"@ != "no_op"@,
        "staged"@ != "conflict"@,
        "committing"@ != "committed"@,
        "committing"@ != "no_op"@,
        "committing"@ != "conflict"@,
{
    reveal_strlit("committed");
    reveal_strlit("committing");
    reveal_strlit("no_op");
    reveal_strlit("conflict");
    reveal_strlit("staged");
    assert("committed"@.len() == 9);
    assert("committing"@.len() == 10);
    assert("no_op"@.len() == 5);
    assert("conflict"@.len() == 8);
    assert("staged"@.len() == 6);
}

/// The first opening of a session puts the very launch that it returns on record, under the digest
/// and the fingerprint of the request. The launch carries no token: its grant is nil.
pub proof fn openings_are_recorded<'a>(
    input: &'a CreateDocumentSessionInput<'a>,
    first: Seq<Reply>,
)
    requires
        crate::step::is_done(
            Database::create_document_session_fault(input, first),
            Database::create_document_session_script(input, first),
            first,
        ),
        first[2].optional_row::<OperationReceipt>() == Ok::<Option<OperationReceipt>, Fault>(None),
    ensures
        ({
            let script = Database::create_document_session_script(input, first);
            &&& Database::create_document_session_output(first) matches Recorded::Created(launch)
            &&& launch.grant_id.value == 0
            &&& script[script.len() - 2] == CommandView::execute(
                document::DOCUMENT_OPERATION_RECORD,
                seq![
                    Param::Id(input.tenant_id),
                    Param::Digest(input.operation_digest),
                    Param::Digest(input.request_fingerprint),
                    Param::Text("create_session"),
                    Param::Launch(launch),
                ],
            )
            &&& script[script.len() - 1] == CommandView::Commit
        }),
{
}

/// Opening a session again under the same digest returns what the first opening has put on record
/// where the fingerprint is the same, and is a conflict where it is another. Neither changes a
/// row.
pub proof fn openings_are_repeated<'a>(
    input: &'a CreateDocumentSessionInput<'a>,
    again: &'a CreateDocumentSessionInput<'a>,
    receipt: OperationReceipt,
    first: Seq<Reply>,
    second: Seq<Reply>,
)
    requires
        crate::step::is_done(
            Database::create_document_session_fault(input, first),
            Database::create_document_session_script(input, first),
            first,
        ),
        first[2].optional_row::<OperationReceipt>() == Ok::<Option<OperationReceipt>, Fault>(None),
        Database::create_document_session_fault(again, Seq::empty()) is None,
        again.tenant_id == input.tenant_id,
        again.operation_digest == input.operation_digest,
        second.len() > 2,
        second[2].optional_row::<OperationReceipt>() == Ok::<Option<OperationReceipt>, Fault>(
            Some(receipt),
        ),
        receipt.request_fingerprint@ == input.request_fingerprint@,
        receipt.command_kind@ == "create_session"@,
    ensures
        ({
            let fault = Database::create_document_session_fault(again, second);
            let script = Database::create_document_session_script(again, second);
            &&& again.request_fingerprint@ == input.request_fingerprint@ ==> fault is None
                && Database::create_document_session_output(second) == Recorded::<
                DocumentLaunchRecord,
            >::Replayed(receipt.response)
            &&& again.request_fingerprint@ != input.request_fingerprint@ ==> fault == Some(
                Fault::Error(DatabaseError::Conflict),
            )
            &&& script.len() == 4
            &&& crate::step::writes_nothing(script)
        }),
{
}

/// The first conflict copy puts the very record that it returns on record, under the digest and
/// the fingerprint of the request.
pub proof fn conflict_copies_are_recorded<'a>(
    tenant_id: Uuid,
    document_session_id: Uuid,
    actor_principal_id: Uuid,
    api_session_id: Uuid,
    target_parent_id: Uuid,
    expected_parent_namespace_generation: i64,
    generations: DocumentAuthorizationGenerations,
    name: Option<&'a NormalizedName<'a>>,
    operation_digest: &'a [u8; 32],
    request_fingerprint: &'a [u8; 32],
    first: Seq<Reply>,
)
    requires
        crate::step::is_done(
            Database::create_document_conflict_copy_fault(
                expected_parent_namespace_generation,
                generations,
                name,
                request_fingerprint,
                first,
            ),
            Database::create_document_conflict_copy_script(
                tenant_id,
                document_session_id,
                actor_principal_id,
                api_session_id,
                target_parent_id,
                name,
                operation_digest,
                request_fingerprint,
                first,
            ),
            first,
        ),
        first[2].optional_row::<OperationReceipt>() == Ok::<Option<OperationReceipt>, Fault>(None),
    ensures
        ({
            let script = Database::create_document_conflict_copy_script(
                tenant_id,
                document_session_id,
                actor_principal_id,
                api_session_id,
                target_parent_id,
                name,
                operation_digest,
                request_fingerprint,
                first,
            );
            &&& Database::create_document_conflict_copy_output(name, first) matches Recorded::Created(
                copy,
            )
            &&& script[script.len() - 2] == CommandView::execute(
                document::DOCUMENT_OPERATION_RECORD,
                seq![
                    Param::Id(tenant_id),
                    Param::Digest(operation_digest),
                    Param::Digest(request_fingerprint),
                    Param::Text("conflict_copy"),
                    Param::ConflictCopy(copy),
                ],
            )
            &&& script[script.len() - 1] == CommandView::Commit
        }),
{
}

/// Keeping a conflict copy again under the same digest returns what the first call has put on
/// record where the fingerprint is the same, and is a conflict where it is another. Neither
/// changes a row.
pub proof fn conflict_copies_are_repeated<'a>(
    tenant_id: Uuid,
    document_session_id: Uuid,
    actor_principal_id: Uuid,
    api_session_id: Uuid,
    target_parent_id: Uuid,
    expected_parent_namespace_generation: i64,
    generations: DocumentAuthorizationGenerations,
    name: Option<&'a NormalizedName<'a>>,
    operation_digest: &'a [u8; 32],
    recorded_fingerprint: &'a [u8; 32],
    request_fingerprint: &'a [u8; 32],
    receipt: OperationReceipt,
    second: Seq<Reply>,
)
    requires
        name is Some,
        second.len() > 2,
        second[2].optional_row::<OperationReceipt>() == Ok::<Option<OperationReceipt>, Fault>(
            Some(receipt),
        ),
        receipt.request_fingerprint@ == recorded_fingerprint@,
        receipt.command_kind@ == "conflict_copy"@,
    ensures
        ({
            let fault = Database::create_document_conflict_copy_fault(
                expected_parent_namespace_generation,
                generations,
                name,
                request_fingerprint,
                second,
            );
            let script = Database::create_document_conflict_copy_script(
                tenant_id,
                document_session_id,
                actor_principal_id,
                api_session_id,
                target_parent_id,
                name,
                operation_digest,
                request_fingerprint,
                second,
            );
            &&& request_fingerprint@ == recorded_fingerprint@ ==> fault is None
                && Database::create_document_conflict_copy_output(name, second) == Recorded::<
                DocumentConflictCopyRecord,
            >::Replayed(receipt.response)
            &&& request_fingerprint@ != recorded_fingerprint@ ==> fault == Some(
                Fault::Error(DatabaseError::Conflict),
            )
            &&& script.len() == 4
            &&& crate::step::writes_nothing(script)
        }),
{
}

/// Whether an event is the one that a callback has left.
pub open spec fn is_event_of<'a>(
    event: CallbackEvent,
    input: &'a ReceiveDocumentCallbackInput<'a>,
    received: ReceivedDocumentCallback,
) -> bool {
    &&& event.id == received.event_id
    &&& event.participant_id == Some(input.participant_id)
    &&& event.event_kind@ == input.callback_kind@
}

/// Whether a command makes the revision that a callback announces, under the callback's digest.
pub open spec fn makes_revision<'a>(
    command: CommandView<'a>,
    input: &'a ReceiveDocumentCallbackInput<'a>,
) -> bool {
    &&& command matches CommandView::Query { sql, params, .. }
    &&& sql == document::RECEIVE_DOCUMENT_CALLBACK_INSERT_REVISIONS
    &&& params.len() == 8
    &&& params[2] == Param::Id(input.document_session_id)
    &&& params[3] == Param::Id(input.participant_id)
    &&& params[4] == Param::Digest(input.provider_event_digest)
    &&& params[5] == Param::OptText(input.revision_kind)
}

/// A callback leaves its event under the session and the digest, and where it announces an output,
/// one revision under the same digest. A view-only participant's does not get that far.
pub proof fn callbacks_are_recorded<'a>(
    input: &'a ReceiveDocumentCallbackInput<'a>,
    first: Seq<Reply>,
)
    requires
        crate::step::is_done(
            Database::receive_document_callback_fault(input, first),
            Database::receive_document_callback_script(input, first),
            first,
        ),
        first[1].optional_row::<CallbackEvent>() == Ok::<Option<CallbackEvent>, Fault>(None),
    ensures
        ({
            let script = Database::receive_document_callback_script(input, first);
            let received = Database::receive_document_callback_output(input, first);
            let announces = input.callback_kind@ == "output_required"@;
            &&& script[4] == CommandView::optional(
                document::RECEIVE_DOCUMENT_CALLBACK_INSERT_SESSION_EVENTS,
                seq![
                    Param::Id(input.tenant_id),
                    Param::FreshId,
                    Param::Id(input.document_session_id),
                    Param::Id(input.participant_id),
                    Param::Digest(input.provider_event_digest),
                    Param::Text(input.callback_kind),
                ],
            )
            &&& received.event_id == first[4].required_row::<Uuid>(DatabaseError::Conflict)->Ok_0
            &&& received.revision is Some <==> announces
            &&& announces ==> makes_revision(script[script.len() - 2], input)
        }),
{
}

/// A callback that comes again under the same digest finds the event of the first. From another
/// participant or of another kind it is a conflict. An announced output is answered with the same
/// event and the revision that the first one made, or is a conflict where it names another kind
/// of revision. Any other kind but an editing one is answered with the same event. None of these
/// changes a row.
pub proof fn callbacks_are_received_once<'a>(
    input: &'a ReceiveDocumentCallbackInput<'a>,
    again: &'a ReceiveDocumentCallbackInput<'a>,
    event: CallbackEvent,
    first: Seq<Reply>,
    second: Seq<Reply>,
)
    requires
        crate::step::is_done(
            Database::receive_document_callback_fault(input, first),
            Database::receive_document_callback_script(input, first),
            first,
        ),
        first[1].optional_row::<CallbackEvent>() == Ok::<Option<CallbackEvent>, Fault>(None),
        crate::document::is_well_formed_callback(again),
        second.len() > 2,
        second[1].optional_row::<CallbackEvent>() == Ok::<Option<CallbackEvent>, Fault>(
            Some(event),
        ),
        is_event_of(event, input, Database::receive_document_callback_output(input, first)),
        again.callback_kind@ == "output_required"@ ==> crate::document::can_write(event.mode@),
        again.callback_kind@ == "output_required"@ && input.callback_kind@ == "output_required"@
            ==> second[2].required_row::<ReceivedDocumentRevision>(DatabaseError::Conflict) == Ok::<
            ReceivedDocumentRevision,
            Fault,
        >(Database::receive_document_callback_output(input, first).revision->0)
            && crate::document::is_word(
            input.revision_kind,
            Database::receive_document_callback_output(input, first).revision->0.kind@,
        ),
    ensures
        ({
            let received = Database::receive_document_callback_output(input, first);
            let fault = Database::receive_document_callback_fault(again, second);
            let script = Database::receive_document_callback_script(again, second);
            let output = Database::receive_document_callback_output(again, second);
            let same = again.participant_id == input.participant_id && again.callback_kind@
                == input.callback_kind@;
            let announces = again.callback_kind@ == "output_required"@;
            &&& !same ==> fault == Some(Fault::Error(DatabaseError::Conflict))
                && crate::step::writes_nothing_before(script, 2)
            &&& same && announces && crate::text::borrowed_text(again.revision_kind)
                == crate::text::borrowed_text(input.revision_kind) ==> fault is None && output
                == received && script.len() == 4 && crate::step::writes_nothing(script)
            &&& same && announces && crate::text::borrowed_text(again.revision_kind)
                != crate::text::borrowed_text(input.revision_kind) ==> fault == Some(
                Fault::Error(DatabaseError::Conflict),
            ) && crate::step::writes_nothing(script)
            &&& same && !announces && again.callback_kind@ != "editing"@ ==> fault is None
                && output.event_id == received.event_id && output.revision is None && script.len()
                == 3 && crate::step::writes_nothing(script)
        }),
{
    reveal_strlit("output_required");
    reveal_strlit("editing");
    assert("output_required"@.len() != "editing"@.len());
}

/// An editing callback that comes again applies its transition again: the same statements on the
/// participant and the session as the first, and no revision. The event keeps its identifier,
/// which the statement that would add it returns.
pub proof fn editing_callbacks_are_applied_again<'a>(
    input: &'a ReceiveDocumentCallbackInput<'a>,
    event: CallbackEvent,
    first: Seq<Reply>,
    second: Seq<Reply>,
)
    requires
        input.callback_kind@ == "editing"@,
        crate::step::is_done(
            Database::receive_document_callback_fault(input, first),
            Database::receive_document_callback_script(input, first),
            first,
        ),
        first[1].optional_row::<CallbackEvent>() == Ok::<Option<CallbackEvent>, Fault>(None),
        crate::step::is_done(
            Database::receive_document_callback_fault(input, second),
            Database::receive_document_callback_script(input, second),
            second,
        ),
        second[1].optional_row::<CallbackEvent>() == Ok::<Option<CallbackEvent>, Fault>(
            Some(event),
        ),
        second[4].required_row::<Uuid>(DatabaseError::Conflict) == Ok::<Uuid, Fault>(event.id),
        is_event_of(event, input, Database::receive_document_callback_output(input, first)),
    ensures
        ({
            let before = Database::receive_document_callback_script(input, first);
            let after = Database::receive_document_callback_script(input, second);
            &&& Database::receive_document_callback_output(input, second)
                == Database::receive_document_callback_output(input, first)
            &&& after.len() == before.len()
            &&& forall|i: int| 4 <= i < after.len() ==> #[trigger] after[i] == before[i]
        }),
{
    reveal_strlit("output_required");
    reveal_strlit("editing");
    assert("output_required"@.len() != "editing"@.len());
}

/// Whether a stored group is the one that a call has added.
pub open spec fn is_group_of<'a>(
    stored: StoredUpdateGroup,
    numbered: (Uuid, i64, i64),
    mcp_invocation_id: Option<Uuid>,
    source_before_digest: &'a [u8],
    source_after_digest: &'a [u8],
    state_digest: &'a [u8],
    object_digest: Seq<u8>,
) -> bool {
    &&& (stored.object_id, stored.first_sequence, stored.last_sequence) == numbered
    &&& stored.mcp_invocation_id == mcp_invocation_id
    &&& stored.source_before_digest@ == source_before_digest@
    &&& stored.source_after_digest@ == source_after_digest@
    &&& stored.state_digest@ == state_digest@
    &&& stored.blake3@ == object_digest
}

/// The first call with an update adds its group under the client's identifiers, with the object,
/// the digests and the next sequence number, moves the epoch to that number, and returns it.
pub proof fn update_groups_are_recorded<'a>(
    tenant_id: Uuid,
    room_id: Uuid,
    epoch: i64,
    expected_fencing_token: i64,
    expected_base_sequence: i64,
    client_id: Uuid,
    client_update_id: Uuid,
    authorization: CollaborationAuthorizationContext,
    mcp_invocation_id: Option<Uuid>,
    source_before_digest: &'a [u8],
    source_after_digest: &'a [u8],
    object_id: Uuid,
    chunks: &'a Vec<CollaborationUpdateChunkInput>,
    state_vector: &'a [u8],
    state_digest: &'a [u8],
    first: Seq<Reply>,
)
    requires
        crate::step::is_done(
            Database::collaboration_persist_update_group_fault(
                expected_fencing_token,
                expected_base_sequence,
                authorization,
                mcp_invocation_id,
                source_before_digest,
                source_after_digest,
                chunks,
                state_vector,
                state_digest,
                first,
            ),
            Database::collaboration_persist_update_group_script(
                tenant_id,
                room_id,
                epoch,
                expected_base_sequence,
                client_id,
                client_update_id,
                authorization,
                mcp_invocation_id,
                source_before_digest,
                source_after_digest,
                object_id,
                chunks,
                state_vector,
                state_digest,
                first,
            ),
            first,
        ),
        first[group_lookup_at(mcp_invocation_id)].optional_row::<StoredUpdateGroup>() == Ok::<
            Option<StoredUpdateGroup>,
            Fault,
        >(None),
    ensures
        ({
            let at = group_lookup_at(mcp_invocation_id);
            let script = Database::collaboration_persist_update_group_script(
                tenant_id,
                room_id,
                epoch,
                expected_base_sequence,
                client_id,
                client_update_id,
                authorization,
                mcp_invocation_id,
                source_before_digest,
                source_after_digest,
                object_id,
                chunks,
                state_vector,
                state_digest,
                first,
            );
            let (stored_object, first_sequence, last_sequence) =
                Database::collaboration_persist_update_group_output(
                mcp_invocation_id,
                object_id,
                first,
            );
            &&& stored_object == object_id
            &&& first_sequence == last_sequence == expected_base_sequence + 1
            &&& script[at + 1] matches CommandView::Query { sql, params, .. }
            &&& sql == collaboration::PERSIST_UPDATE_GROUP_INSERT_UPDATE_GROUPS
            &&& params[4] == Param::Id(client_id)
            &&& params[5] == Param::Id(client_update_id)
            &&& params[8] == Param::OptId(mcp_invocation_id)
            &&& params[9] == Param::Bytes(source_before_digest)
            &&& params[10] == Param::Bytes(source_after_digest)
            &&& params[11] == Param::Id(object_id)
            &&& params[14] == Param::I64(first_sequence)
            &&& params[15] == Param::I64(last_sequence)
            &&& params[17] == Param::Bytes(state_digest)
            &&& script[script.len() - 2] == CommandView::execute(
                collaboration::PERSIST_UPDATE_GROUP_UPDATE_EPOCHS,
                seq![
                    Param::Id(tenant_id),
                    Param::Id(room_id),
                    Param::I64(epoch),
                    Param::I64(last_sequence),
                ],
            )
        }),
{
}

/// The position at which an update looks for a group of the same client and update.
pub open spec fn group_lookup_at(mcp_invocation_id: Option<Uuid>) -> int {
    if mcp_invocation_id is Some {
        5
    } else {
        4
    }
}

/// An update that comes again is applied once. With the same digests, and an object of the same
/// bytes, it is answered with the object and the numbers of the first call; the epoch stays where
/// it is, no group is added, and another object than the first is marked as superseded. With
/// anything else it is a conflict, and changes no row.
pub proof fn update_groups_are_applied_once<'a>(
    tenant_id: Uuid,
    room_id: Uuid,
    epoch: i64,
    expected_fencing_token: i64,
    expected_base_sequence: i64,
    client_id: Uuid,
    client_update_id: Uuid,
    authorization: CollaborationAuthorizationContext,
    recorded_invocation_id: Option<Uuid>,
    recorded_before_digest: &'a [u8],
    recorded_after_digest: &'a [u8],
    recorded_state_digest: &'a [u8],
    recorded_object_digest: Seq<u8>,
    numbered: (Uuid, i64, i64),
    mcp_invocation_id: Option<Uuid>,
    source_before_digest: &'a [u8],
    source_after_digest: &'a [u8],
    object_id: Uuid,
    chunks: &'a Vec<CollaborationUpdateChunkInput>,
    state_vector: &'a [u8],
    state_digest: &'a [u8],
    stored: StoredUpdateGroup,
    second: Seq<Reply>,
)
    requires
        second.len() > group_lookup_at(mcp_invocation_id),
        Database::collaboration_persist_update_group_fault(
            expected_fencing_token,
            expected_base_sequence,
            authorization,
            mcp_invocation_id,
            source_before_digest,
            source_after_digest,
            chunks,
            state_vector,
            state_digest,
            second.take(group_lookup_at(mcp_invocation_id)),
        ) is None,
        second[group_lookup_at(mcp_invocation_id)].optional_row::<StoredUpdateGroup>() == Ok::<
            Option<StoredUpdateGroup>,
            Fault,
        >(Some(stored)),
        is_group_of(
            stored,
            numbered,
            recorded_invocation_id,
            recorded_before_digest,
            recorded_after_digest,
            recorded_state_digest,
            recorded_object_digest,
        ),
    ensures
        ({
            let at = group_lookup_at(mcp_invocation_id);
            let object_digest = second[at - 1].required_row::<std::sync::Arc<Vec<u8>>>(
                DatabaseError::Conflict,
            )->Ok_0@;
            let same = recorded_invocation_id == mcp_invocation_id && recorded_before_digest@
                == source_before_digest@ && recorded_after_digest@ == source_after_digest@
                && recorded_state_digest@ == state_digest@ && recorded_object_digest
                == object_digest;
            let fault = Database::collaboration_persist_update_group_fault(
                expected_fencing_token,
                expected_base_sequence,
                authorization,
                mcp_invocation_id,
                source_before_digest,
                source_after_digest,
                chunks,
                state_vector,
                state_digest,
                second,
            );
            let script = Database::collaboration_persist_update_group_script(
                tenant_id,
                room_id,
                epoch,
                expected_base_sequence,
                client_id,
                client_update_id,
                authorization,
                mcp_invocation_id,
                source_before_digest,
                source_after_digest,
                object_id,
                chunks,
                state_vector,
                state_digest,
                second,
            );
            &&& !same ==> fault == Some(Fault::Error(DatabaseError::Conflict))
            &&& same ==> fault is None && Database::collaboration_persist_update_group_output(
                mcp_invocation_id,
                object_id,
                second,
            ) == numbered
            &&& crate::step::writes_nothing_before(script, at + 1)
            &&& object_id == numbered.0 ==> script.len() == at + 2 && script[at + 1]
                == CommandView::Commit
            &&& object_id != numbered.0 ==> script.len() == at + 3 && script[at + 1]
                == CommandView::execute(
                collaboration::PERSIST_UPDATE_GROUP_UPDATE_OBJECTS,
                seq![Param::Id(tenant_id), Param::Id(object_id)],
            ) && script[at + 2] == CommandView::Commit
        }),
{
    let before = second.take(group_lookup_at(mcp_invocation_id));
    assert(before[1] == second[1]);
    assert(before[2] == second[2]);
    assert(before[3] == second[3]);
    if mcp_invocation_id is Some {
        assert(before[4] == second[4]);
    }
}

/// The state in which abandoning leaves an object.
pub open spec fn abandoned_state(object: AbandonableObject) -> Seq<char> {
    if object.state@ == "staging"@ {
        "quarantined"@
    } else {
        "delete_intent"@
    }
}

/// Abandoning an object accounts for its bytes once. A staging object's reservation is released
/// and returns to the drive by exactly its bytes; a durable or superseded one leaves the drive as
/// it is, since its bytes return with their deletion. A second call finds the object given up, and
/// changes no row.
pub proof fn objects_are_abandoned_once(
    tenant_id: Uuid,
    object_id: Uuid,
    found: AbandonableObject,
    first: Seq<Reply>,
    second: Seq<Reply>,
)
    requires
        crate::step::is_done(
            Database::collaboration_abandon_object_fault(first),
            Database::collaboration_abandon_object_script(tenant_id, object_id, first),
            first,
        ),
        !crate::laws::is_given_up(
            first[1].required_row::<AbandonableObject>(DatabaseError::NotFound)->Ok_0.state@,
        ),
        second.len() > 1,
        second[1].required_row::<AbandonableObject>(DatabaseError::NotFound) == Ok::<
            AbandonableObject,
            Fault,
        >(found),
        found.state@ == abandoned_state(
            first[1].required_row::<AbandonableObject>(DatabaseError::NotFound)->Ok_0,
        ),
    ensures
        ({
            let object = first[1].required_row::<AbandonableObject>(DatabaseError::NotFound)->Ok_0;
            let before = Database::collaboration_abandon_object_script(tenant_id, object_id, first);
            let after = Database::collaboration_abandon_object_script(tenant_id, object_id, second);
            let staging = object.state@ == "staging"@;
            &&& first[2].single_row::<bool>() == Ok::<bool, Fault>(false)
            &&& staging ==> before.len() == 9 && before[3] == CommandView::execute(
                collaboration::ABANDON_OBJECT_UPDATE_OBJECT_RESERVATIONS,
                seq![Param::Id(tenant_id), Param::Id(object_id)],
            ) && before[4] == CommandView::execute(
                collaboration::ABANDON_OBJECT_UPDATE_DRIVES,
                seq![
                    Param::Id(tenant_id),
                    Param::Id(object.drive_id),
                    Param::I64(object.reserved_bytes),
                ],
            ) && before[5] == CommandView::execute(
                collaboration::ABANDON_OBJECT_UPDATE_OBJECTS,
                seq![Param::Id(tenant_id), Param::Id(object_id)],
            ) && before[6] == CommandView::execute(
                collaboration::ABANDON_OBJECT_UPDATE_PAYLOAD_OBJECTS,
                seq![
                    Param::Id(tenant_id),
                    Param::Id(object.payload_id),
                    Param::Text("abandoned"),
                ],
            )
            &&& !staging ==> before.len() == 7 && before[3] == CommandView::execute(
                collaboration::ABANDON_OBJECT_UPDATE_OBJECTS_2,
                seq![Param::Id(tenant_id), Param::Id(object_id)],
            ) && before[4] == CommandView::execute(
                collaboration::ABANDON_OBJECT_UPDATE_PAYLOAD_OBJECTS,
                seq![
                    Param::Id(tenant_id),
                    Param::Id(object.payload_id),
                    Param::Text("delete_intent"),
                ],
            )
            &&& Database::collaboration_abandon_object_fault(second) is None
            &&& after.len() == 3
            &&& crate::step::writes_nothing(after)
        }),
{
}

/// The coverage of an epoch's snapshot never goes back. Behind a snapshot that covers so much, one
/// that covers less is stale; one that covers as much is the same snapshot where it is of the same
/// object, and a conflict where it is not; and one that covers more supersedes the earlier
/// snapshot and its object before it takes their place.
pub proof fn snapshot_coverage_never_decreases<'a>(
    tenant_id: Uuid,
    room_id: Uuid,
    epoch: i64,
    expected_fencing_token: i64,
    authorization: CollaborationAuthorizationContext,
    earlier_object_id: Uuid,
    earlier_sequence: i64,
    earlier_state_vector: &'a [u8],
    object_id: Uuid,
    covered_sequence: i64,
    state_vector: &'a [u8],
    anchor: CurrentSnapshot,
    first: Seq<Reply>,
    second: Seq<Reply>,
)
    requires
        crate::step::is_done(
            Database::collaboration_commit_snapshot_fault(
                expected_fencing_token,
                authorization,
                earlier_object_id,
                earlier_sequence,
                earlier_state_vector,
                first,
            ),
            Database::collaboration_commit_snapshot_script(
                tenant_id,
                room_id,
                epoch,
                authorization,
                earlier_object_id,
                earlier_sequence,
                earlier_state_vector,
                first,
            ),
            first,
        ),
        second.len() > 5,
        Database::collaboration_commit_snapshot_fault(
            expected_fencing_token,
            authorization,
            object_id,
            covered_sequence,
            state_vector,
            second.take(4),
        ) is None,
        second[4].optional_row::<CurrentSnapshot>() == Ok::<Option<CurrentSnapshot>, Fault>(
            Some(anchor),
        ),
        anchor.id == Database::collaboration_commit_snapshot_output(earlier_sequence, first),
        anchor.object_id == earlier_object_id,
        anchor.covered_sequence == earlier_sequence,
    ensures
        ({
            let fault = Database::collaboration_commit_snapshot_fault(
                expected_fencing_token,
                authorization,
                object_id,
                covered_sequence,
                state_vector,
                second,
            );
            let script = Database::collaboration_commit_snapshot_script(
                tenant_id,
                room_id,
                epoch,
                authorization,
                object_id,
                covered_sequence,
                state_vector,
                second,
            );
            let output = Database::collaboration_commit_snapshot_output(covered_sequence, second);
            &&& covered_sequence < earlier_sequence ==> fault == Some(
                Fault::Error(DatabaseError::StaleGeneration),
            )
            &&& covered_sequence == earlier_sequence && object_id == earlier_object_id
                ==> fault is None && output == anchor.id && crate::step::writes_nothing(script)
            &&& covered_sequence == earlier_sequence && object_id != earlier_object_id ==> fault
                == Some(Fault::Error(DatabaseError::Conflict)) && crate::step::writes_nothing(
                script,
            )
            &&& crate::step::is_done(fault, script, second) ==> covered_sequence
                >= earlier_sequence
            &&& covered_sequence > earlier_sequence ==> script.len() == 11 && script[5]
                == CommandView::execute(
                collaboration::COMMIT_SNAPSHOT_UPDATE_SNAPSHOTS,
                seq![Param::Id(tenant_id), Param::Id(anchor.id)],
            ) && script[6] == CommandView::execute(
                collaboration::COMMIT_SNAPSHOT_UPDATE_OBJECTS,
                seq![Param::Id(tenant_id), Param::Id(earlier_object_id)],
            ) && script[8] == CommandView::execute(
                collaboration::COMMIT_SNAPSHOT_INSERT_SNAPSHOTS,
                seq![
                    Param::Id(tenant_id),
                    Param::Id(room_id),
                    Param::I64(epoch),
                    Param::Id(output),
                    Param::Id(object_id),
                    Param::I64(covered_sequence),
                    Param::Bytes(state_vector),
                ],
            ) && script[9] == CommandView::execute(
                collaboration::COMMIT_SNAPSHOT_UPDATE_OBJECTS_2,
                seq![
                    Param::Id(tenant_id),
                    Param::Id(room_id),
                    Param::I64(epoch),
                    Param::I64(covered_sequence),
                ],
            )
        }),
{
    let before = second.take(4);
    assert(before[1] == second[1]);
    assert(before[2] == second[2]);
    assert(before[3] == second[3]);
}

/// Finalizing an object accounts for its bytes once: the first call turns the reservation into
/// used bytes, by exactly what was reserved and what is used. A second call finds the object
/// durable. With the same size and digest it returns the object, with another it is a conflict,
/// and in neither case does it change a row.
pub proof fn objects_are_finalized_once<'a>(
    tenant_id: Uuid,
    object_id: Uuid,
    expected_fencing_token: i64,
    authorization: CollaborationAuthorizationContext,
    earlier_size: i64,
    earlier_digest: &'a [u8],
    size_bytes: i64,
    blake3: &'a [u8],
    found: FinalizableObject,
    first: Seq<Reply>,
    second: Seq<Reply>,
)
    requires
        crate::step::is_done(
            Database::collaboration_finalize_object_fault(
                expected_fencing_token,
                authorization,
                earlier_size,
                earlier_digest,
                first,
            ),
            Database::collaboration_finalize_object_script(
                tenant_id,
                object_id,
                authorization,
                earlier_size,
                earlier_digest,
                first,
            ),
            first,
        ),
        first[2].required_row::<FinalizableObject>(DatabaseError::NotFound)->Ok_0.state@
            == "staging"@,
        second.len() > 4,
        Database::collaboration_finalize_object_fault(
            expected_fencing_token,
            authorization,
            size_bytes,
            blake3,
            second.take(2),
        ) is None,
        second[2].required_row::<FinalizableObject>(DatabaseError::NotFound) == Ok::<
            FinalizableObject,
            Fault,
        >(found),
        found.state@ == "durable"@,
        found.size_bytes == Some(earlier_size),
        found.blake3 is Some,
        found.blake3->0@ == earlier_digest@,
        second[4].required_row::<CollaborationObjectRecord>(DatabaseError::NotFound) is Ok,
    ensures
        ({
            let object = first[2].required_row::<FinalizableObject>(DatabaseError::NotFound)->Ok_0;
            let before = Database::collaboration_finalize_object_script(
                tenant_id,
                object_id,
                authorization,
                earlier_size,
                earlier_digest,
                first,
            );
            let fault = Database::collaboration_finalize_object_fault(
                expected_fencing_token,
                authorization,
                size_bytes,
                blake3,
                second,
            );
            let after = Database::collaboration_finalize_object_script(
                tenant_id,
                object_id,
                authorization,
                size_bytes,
                blake3,
                second,
            );
            let same = size_bytes == earlier_size && blake3@ == earlier_digest@;
            &&& before[4] == CommandView::execute(
                collaboration::FINALIZE_OBJECT_UPDATE_OBJECTS,
                seq![
                    Param::Id(tenant_id),
                    Param::Id(object_id),
                    Param::I64(earlier_size),
                    Param::Bytes(earlier_digest),
                ],
            )
            &&& before[6] == CommandView::execute(
                collaboration::FINALIZE_OBJECT_UPDATE_DRIVES,
                seq![
                    Param::Id(tenant_id),
                    Param::Id(object_id),
                    Param::I64(object.reserved_bytes),
                    Param::I64(earlier_size),
                ],
            )
            &&& same ==> fault is None && Database::collaboration_finalize_object_output(second)
                == second[4].required_row::<CollaborationObjectRecord>(
                DatabaseError::NotFound,
            )->Ok_0
            &&& !same ==> fault == Some(Fault::Error(DatabaseError::Conflict))
            &&& crate::step::writes_nothing(after)
        }),
{
    reveal_strlit("staging");
    reveal_strlit("durable");
    assert("staging"@[0] != "durable"@[0]);
    let before = second.take(2);
    assert(before[1] == second[1]);
}

/// The deletion of a collaboration payload accounts for its bytes once: the first call that finds
/// the object open closes it, and returns the used bytes to the drive where there were any. A
/// second call finds it closed, and changes no row.
pub proof fn collaboration_deletions_are_recorded_once(
    tenant_id: Uuid,
    payload_id: Uuid,
    found: DeletedObject,
    first: Seq<Reply>,
    second: Seq<Reply>,
)
    requires
        crate::step::is_done(
            Database::complete_collaboration_payload_deletion_fault(first),
            Database::complete_collaboration_payload_deletion_script(tenant_id, payload_id, first),
            first,
        ),
        !is_closed(first[1].required_row::<DeletedObject>(DatabaseError::StaleGeneration)->Ok_0),
        second.len() > 1,
        second[1].required_row::<DeletedObject>(DatabaseError::StaleGeneration) == Ok::<
            DeletedObject,
            Fault,
        >(found),
        found.state@ == (if first[1].required_row::<DeletedObject>(
            DatabaseError::StaleGeneration,
        )->Ok_0.size_bytes is Some {
            "tombstoned"
        } else {
            "abandoned"
        })@,
    ensures
        ({
            let object = first[1].required_row::<DeletedObject>(
                DatabaseError::StaleGeneration,
            )->Ok_0;
            let before = Database::complete_collaboration_payload_deletion_script(
                tenant_id,
                payload_id,
                first,
            );
            let after = Database::complete_collaboration_payload_deletion_script(
                tenant_id,
                payload_id,
                second,
            );
            let at: int = if object.payload_state@ == "deleting"@ {
                3
            } else {
                2
            };
            &&& before[at] == CommandView::execute(
                collaboration::COMPLETE_COLLABORATION_PAYLOAD_DELETION_UPDATE_OBJECTS,
                seq![
                    Param::Id(tenant_id),
                    Param::Id(object.id),
                    Param::Text(
                        if object.size_bytes is Some {
                            "tombstoned"
                        } else {
                            "abandoned"
                        },
                    ),
                ],
            )
            &&& object.size_bytes is Some ==> before.len() == at + 3 && before[at + 1]
                == CommandView::execute(
                collaboration::COMPLETE_COLLABORATION_PAYLOAD_DELETION_UPDATE_DRIVES,
                seq![
                    Param::Id(tenant_id),
                    Param::Id(object.drive_id),
                    Param::I64(object.size_bytes->0),
                ],
            )
            &&& object.size_bytes is None ==> before.len() == at + 2
            &&& Database::complete_collaboration_payload_deletion_fault(second) is None
            &&& after.len() == 3
            &&& crate::step::writes_nothing(after)
        }),
{
}

/// Whether an object's deletion has been recorded.
pub open spec fn is_closed(object: DeletedObject) -> bool {
    object.state@ == "tombstoned"@ || object.state@ == "abandoned"@
}

/// A revision is not rejected while its session is live and the generations that it was begun
/// under are current: that is a conflict, and changes no row.
pub proof fn current_authorizations_are_not_rejected(
    tenant_id: Uuid,
    revision_id: Uuid,
    log: Seq<Reply>,
)
    requires
        log.len() > 2,
        Database::reject_document_revision_for_authorization_change_fault(log.take(2)) is None,
        !crate::laws::is_settled(
            log[1].required_row::<RejectableRevision>(DatabaseError::NotFound)->Ok_0.state@,
        ),
        log[1].required_row::<RejectableRevision>(DatabaseError::NotFound)->Ok_0.session_state@
            == "active"@,
        log[1].required_row::<RejectableRevision>(DatabaseError::NotFound)->Ok_0.session_unexpired,
        log[2].optional_row::<FenceGenerations>() matches Ok(Some(fence))
            && fence.agrees_with(
            log[1].required_row::<RejectableRevision>(
                DatabaseError::NotFound,
            )->Ok_0.generations.expected(),
        ),
    ensures
        Database::reject_document_revision_for_authorization_change_fault(log) == Some(
            Fault::Error(DatabaseError::Conflict),
        ),
        crate::step::writes_nothing_before(
            Database::reject_document_revision_for_authorization_change_script(
                tenant_id,
                revision_id,
                log,
            ),
            3,
        ),
{
    let before = log.take(2);
    assert(before[1] == log[1]);
}

/// Rejecting a revision releases its reservation once: the first call gives the payload up, takes
/// exactly the reserved bytes off the drive, queues the deletion, and revokes the session. A
/// second call finds the revision rejected, says that it did nothing, and changes no row.
pub proof fn revisions_are_rejected_once(
    tenant_id: Uuid,
    revision_id: Uuid,
    found: RejectableRevision,
    first: Seq<Reply>,
    second: Seq<Reply>,
)
    requires
        crate::step::is_done(
            Database::reject_document_revision_for_authorization_change_fault(first),
            Database::reject_document_revision_for_authorization_change_script(
                tenant_id,
                revision_id,
                first,
            ),
            first,
        ),
        Database::reject_document_revision_for_authorization_change_output(first),
        second.len() > 1,
        second[1].required_row::<RejectableRevision>(DatabaseError::NotFound) == Ok::<
            RejectableRevision,
            Fault,
        >(found),
        found.state@ == "rejected"@,
    ensures
        ({
            let revision = first[1].required_row::<RejectableRevision>(
                DatabaseError::NotFound,
            )->Ok_0;
            let before = Database::reject_document_revision_for_authorization_change_script(
                tenant_id,
                revision_id,
                first,
            );
            let after = Database::reject_document_revision_for_authorization_change_script(
                tenant_id,
                revision_id,
                second,
            );
            let at: int = if revision.session_state@ == "active"@ && revision.session_unexpired {
                3
            } else {
                2
            };
            &&& revision.payload_id is Some
            &&& before.len() == at + 8
            &&& before[at] == CommandView::execute(
                document::RELEASE_DOCUMENT_PAYLOAD_UPDATE_PAYLOAD_OBJECTS,
                seq![Param::Id(tenant_id), Param::Id(revision.payload_id->0)],
            )
            &&& before[at + 1] == CommandView::execute(
                document::DOCUMENT_REVISION_RETENTION_SWEEP_UPDATE_DRIVES,
                seq![
                    Param::Id(tenant_id),
                    Param::Id(revision.drive_id),
                    Param::I64(revision.reserved_bytes),
                ],
            )
            &&& before[at + 2] matches CommandView::Query { sql, .. }
            &&& sql == document::DOCUMENT_REVISION_RETENTION_SWEEP_INSERT_JOBS
            &&& before[at + 3] == CommandView::execute(
                document::REJECT_DOCUMENT_REVISION_FOR_AUTHORIZATION_CHANGE_UPDATE_REVISIONS,
                seq![Param::Id(tenant_id), Param::Id(revision_id)],
            )
            &&& before[at + 6] == CommandView::execute(
                document::REJECT_DOCUMENT_REVISION_FOR_AUTHORIZATION_CHANGE_UPDATE_SESSIONS,
                seq![Param::Id(tenant_id), Param::Id(revision.document_session_id)],
            )
            &&& first[at].one_affected(DatabaseError::StaleGeneration) is Ok
            &&& first[at + 1].one_affected(DatabaseError::StaleGeneration) is Ok
            &&& first[at + 3].one_affected(DatabaseError::StaleGeneration) is Ok
            &&& Database::reject_document_revision_for_authorization_change_fault(second) is None
            &&& !Database::reject_document_revision_for_authorization_change_output(second)
            &&& after.len() == 3
            &&& crate::step::writes_nothing(after)
        }),
{
}

/// What marking a node as trashed, or as live again, leaves of it: the mark, the next generation
/// and the time of the change are new, and all else is as it was.
pub open spec fn is_marked(before: NodeRecord, after: NodeRecord, trashed: bool) -> bool {
    after == (NodeRecord {
        trashed: trashed,
        namespace_generation: after.namespace_generation,
        updated_at: after.updated_at,
        ..before
    }) && after.namespace_generation == before.namespace_generation + 1
}

/// A node that was trashed can be restored: the call that names the generation the trashing left
/// goes through where the parent is live, and gives back the node as it was, two generations on.
/// What is restored is what was trashed with the node: both calls mark by the same root, and
/// neither binds a name, a parent or a head.
pub proof fn trashed_nodes_are_restored(
    tenant_id: Uuid,
    actor_principal_id: Uuid,
    session_id: Uuid,
    drive_id: Uuid,
    resource_id: Uuid,
    expected_namespace_generation: i64,
    trashed_under: FenceGenerations,
    restored_under: FenceGenerations,
    live: NodeRecord,
    found: TrashCandidate,
    drive_generation: i64,
    first: Seq<Reply>,
    second: Seq<Reply>,
)
    requires
        crate::step::is_done(
            Database::set_node_trash_state_fault(
                resource_id,
                expected_namespace_generation,
                trashed_under.membership,
                trashed_under.drive_acl,
                trashed_under.namespace,
                trashed_under.resource_acl,
                true,
                first,
            ),
            Database::set_node_trash_state_script(
                tenant_id,
                actor_principal_id,
                session_id,
                drive_id,
                resource_id,
                true,
                first,
            ),
            first,
        ),
        !live.trashed,
        is_marked(live, Database::set_node_trash_state_output(true, first), true),
        second.len() == 11,
        second[1].required_row::<FenceGenerations>(DatabaseError::StaleGeneration) == Ok::<
            FenceGenerations,
            Fault,
        >(restored_under),
        second[2].required_row::<TrashCandidate>(DatabaseError::NotFound) == Ok::<
            TrashCandidate,
            Fault,
        >(found),
        found.parent_id is Some,
        found.trash_root_id == Some(resource_id),
        found.namespace_generation == Database::set_node_trash_state_output(
            true,
            first,
        ).namespace_generation,
        second[3].single_row::<bool>() == Ok::<bool, Fault>(true),
        second[5].single_row::<i64>() == Ok::<i64, Fault>(drive_generation),
        0 <= drive_generation,
        second[7].single_row::<i64>() is Ok,
        second[10].required_row::<NodeRecord>(DatabaseError::NotFound) is Ok,
        is_marked(
            Database::set_node_trash_state_output(true, first),
            second[10].required_row::<NodeRecord>(DatabaseError::NotFound)->Ok_0,
            false,
        ),
    ensures
        ({
            let trash = Database::set_node_trash_state_script(
                tenant_id,
                actor_principal_id,
                session_id,
                drive_id,
                resource_id,
                true,
                first,
            );
            let restore = Database::set_node_trash_state_script(
                tenant_id,
                actor_principal_id,
                session_id,
                drive_id,
                resource_id,
                false,
                second,
            );
            &&& trash.len() == 10
            &&& trash[3] matches CommandView::Query { sql, params, .. }
            &&& sql == catalog::SET_NODE_TRASH_STATE_UPDATE_NODES
            &&& params.take(4) == seq![
                Param::Id(tenant_id),
                Param::Id(drive_id),
                Param::Id(resource_id),
                Param::Id(resource_id),
            ]
            &&& restore.len() == 11
            &&& restore[4] == CommandView::ruled(
                catalog::SET_NODE_TRASH_STATE_UPDATE_NODES_2,
                seq![
                    Param::Id(tenant_id),
                    Param::Id(drive_id),
                    Param::Id(resource_id),
                    Param::Id(resource_id),
                ],
                Fetch::Execute,
                ErrorRule::UniqueConflict,
            )
            &&& crate::step::is_done(
                Database::set_node_trash_state_fault(
                    resource_id,
                    Database::set_node_trash_state_output(true, first).namespace_generation,
                    restored_under.membership,
                    restored_under.drive_acl,
                    restored_under.namespace,
                    restored_under.resource_acl,
                    false,
                    second,
                ),
                restore,
                second,
            )
            &&& Database::set_node_trash_state_output(true, first).trashed
            &&& Database::set_node_trash_state_output(true, first).namespace_generation
                == live.namespace_generation + 1
            &&& Database::set_node_trash_state_output(false, second) == (NodeRecord {
                namespace_generation: (live.namespace_generation + 2) as i64,
                updated_at: Database::set_node_trash_state_output(false, second).updated_at,
                ..live
            })
        }),
{
    let trash = Database::set_node_trash_state_script(
        tenant_id,
        actor_principal_id,
        session_id,
        drive_id,
        resource_id,
        true,
        first,
    );
    assert(trash[3]->params.take(4) =~= seq![
        Param::Id(tenant_id),
        Param::Id(drive_id),
        Param::Id(resource_id),
        Param::Id(resource_id),
    ]);
}

/// The deletion of an orphan is recorded once: the first call returns exactly the declared bytes.
/// A second call finds no orphan, fails as stale, and changes no row.
pub proof fn orphan_deletions_are_recorded_once(
    tenant_id: Uuid,
    payload_id: Uuid,
    first: Seq<Reply>,
    second: Seq<Reply>,
)
    requires
        crate::step::is_done(
            Database::complete_orphan_payload_deletion_fault(first),
            Database::complete_orphan_payload_deletion_script(tenant_id, payload_id, first),
            first,
        ),
        second.len() > 1,
        second[1].optional_row::<OrphanedUpload>() == Ok::<Option<OrphanedUpload>, Fault>(None),
    ensures
        ({
            let orphan = first[1].required_row::<OrphanedUpload>(
                DatabaseError::StaleGeneration,
            )->Ok_0;
            let before = Database::complete_orphan_payload_deletion_script(
                tenant_id,
                payload_id,
                first,
            );
            &&& before[2] == CommandView::execute(
                catalog::COMPLETE_ORPHAN_PAYLOAD_DELETION_UPDATE_PAYLOAD_OBJECTS,
                seq![Param::Id(tenant_id), Param::Id(payload_id)],
            )
            &&& before[5] == CommandView::execute(
                catalog::COMPLETE_ORPHAN_PAYLOAD_DELETION_UPDATE_DRIVES,
                seq![
                    Param::Id(tenant_id),
                    Param::Id(orphan.drive_id),
                    Param::I64(orphan.declared_size_bytes),
                ],
            )
            &&& forall|i: int|
                2 <= i <= 5 ==> (#[trigger] first[i]).row_count() == Ok::<u64, Fault>(1)
            &&& Database::complete_orphan_payload_deletion_fault(second) == Some(
                Fault::Error(DatabaseError::StaleGeneration),
            )
            &&& crate::step::writes_nothing_before(
                Database::complete_orphan_payload_deletion_script(tenant_id, payload_id, second),
                2,
            )
        }),
{
    assert(first[2].row_count() is Ok);
    assert(first[3].row_count() is Ok);
    assert(first[4].row_count() is Ok);
    assert(first[5].row_count() is Ok);
}

/// The deletion of a document payload is recorded once: a second call finds the payload deleted,
/// and changes no row.
pub proof fn document_deletions_are_repeated(
    tenant_id: Uuid,
    payload_id: Uuid,
    found: PayloadState,
    first: Seq<Reply>,
    second: Seq<Reply>,
)
    requires
        crate::step::is_done(
            Database::complete_document_payload_deletion_fault(first),
            Database::complete_document_payload_deletion_script(tenant_id, payload_id, first),
            first,
        ),
        first[1].required_row::<PayloadState>(DatabaseError::StaleGeneration)->Ok_0.state@
            != "deleted"@,
        second.len() > 1,
        second[1].required_row::<PayloadState>(DatabaseError::StaleGeneration) == Ok::<
            PayloadState,
            Fault,
        >(found),
        found.state@ == "deleted"@,
    ensures
        ({
            let after = Database::complete_document_payload_deletion_script(
                tenant_id,
                payload_id,
                second,
            );
            &&& Database::complete_document_payload_deletion_script(
                tenant_id,
                payload_id,
                first,
            )[2] == CommandView::execute(
                document::COMPLETE_DOCUMENT_PAYLOAD_DELETION_UPDATE_PAYLOAD_OBJECTS,
                seq![Param::Id(tenant_id), Param::Id(payload_id)],
            )
            &&& first[2].one_affected(DatabaseError::StaleGeneration) is Ok
            &&& Database::complete_document_payload_deletion_fault(second) is None
            &&& after.len() == 3
            &&& crate::step::writes_nothing(after)
        }),
{
}

/// A participant has one launch lifetime: once a grant of the participant was consumed, no other
/// is issued. That is a conflict, and changes no row. The consumed grant itself opens nothing
/// again.
pub proof fn launches_are_consumed_once<'a>(
    tenant_id: Uuid,
    document_session_id: Uuid,
    actor_principal_id: Uuid,
    api_session_id: Uuid,
    consumed_digest: &'a [u8; 32],
    token_digest: &'a [u8; 32],
    first: Seq<Reply>,
    second: Seq<Reply>,
    third: Seq<Reply>,
)
    requires
        crate::step::is_done(
            Database::consume_document_launch_grant_fault(first),
            Database::consume_document_launch_grant_script(tenant_id, consumed_digest, first),
            first,
        ),
        second.len() > 2,
        second[1].required_row::<Uuid>(DatabaseError::NotFound) == Ok::<Uuid, Fault>(
            Database::consume_document_launch_grant_output(first).participant.id,
        ),
        second[2].single_row::<bool>() == Ok::<bool, Fault>(true),
        third.len() > 1,
        third[1].optional_row::<GrantLaunch>() == Ok::<Option<GrantLaunch>, Fault>(None),
    ensures
        ({
            let script = Database::issue_document_launch_grant_script(
                tenant_id,
                document_session_id,
                actor_principal_id,
                api_session_id,
                token_digest,
                second,
            );
            &&& Database::consume_document_launch_grant_script(
                tenant_id,
                consumed_digest,
                first,
            )[1] == CommandView::optional(
                document::CONSUME_DOCUMENT_LAUNCH_GRANT,
                seq![Param::Id(tenant_id), Param::Digest(consumed_digest)],
            )
            &&& script[2] == CommandView::one(
                document::ISSUE_DOCUMENT_LAUNCH_GRANT_EXISTS_LAUNCH_GRANTS,
                seq![
                    Param::Id(tenant_id),
                    Param::Id(Database::consume_document_launch_grant_output(first).participant.id),
                ],
            )
            &&& Database::issue_document_launch_grant_fault(second) == Some(
                Fault::Error(DatabaseError::Conflict),
            )
            &&& crate::step::writes_nothing_before(script, 3)
            &&& Database::consume_document_launch_grant_fault(third) == Some(
                Fault::Error(DatabaseError::NotFound),
            )
        }),
{
}

/// A reconnect sweep reports exactly what its two statements have touched, so that a second one
/// which finds nothing past its deadline reports nothing.
pub proof fn reconnect_sweeps_report_what_they_touch(
    tenant_id: Uuid,
    limit: i64,
    closed: u64,
    expired: u64,
    log: Seq<Reply>,
)
    requires
        1 <= limit <= 1_000,
        log.len() == 4,
        log[1].row_count() == Ok::<u64, Fault>(closed),
        log[2].row_count() == Ok::<u64, Fault>(expired),
    ensures
        crate::step::is_done(
            Database::document_reconnect_sweep_fault(limit, log),
            Database::document_reconnect_sweep_script(tenant_id, limit, log),
            log,
        ),
        Database::document_reconnect_sweep_output(log) == (DocumentReconnectSweepReport {
            participants_closed: closed,
            sessions_expired: expired,
        }),
        Database::document_reconnect_sweep_script(tenant_id, limit, log) == seq![
            CommandView::Begin,
            CommandView::execute(
                document::DOCUMENT_RECONNECT_SWEEP_UPDATE_PARTICIPANTS,
                seq![Param::Id(tenant_id), Param::I64(limit)],
            ),
            CommandView::execute(
                document::DOCUMENT_RECONNECT_SWEEP_UPDATE_SESSIONS,
                seq![Param::Id(tenant_id), Param::I64(limit)],
            ),
            CommandView::Commit,
        ],
{
}

/// A manifest is published under the number that the statement before it has read, one past the
/// highest of the preview, and the call returns that number. That the numbers grow is the work of
/// that statement: see [`crate::tables::media::published_revisions_grow`].
pub proof fn manifests_bear_the_number_read<'a>(
    input: &'a PublishMediaManifestInput<'a>,
    next: i64,
    log: Seq<Reply>,
)
    requires
        crate::step::is_done(
            Database::publish_media_manifest_fault(input, log),
            Database::publish_media_manifest_script(input, log),
            log,
        ),
        log[3].single_row::<i64>() == Ok::<i64, Fault>(next),
    ensures
        ({
            let script = Database::publish_media_manifest_script(input, log);
            &&& script[3] == CommandView::one(
                media::PUBLISH_MEDIA_MANIFEST_SELECT_MANIFEST_REVISIONS,
                seq![Param::Id(input.tenant_id), Param::Id(input.preview_id)],
            )
            &&& script[4] matches CommandView::Query { sql, params, .. }
            &&& sql == media::PUBLISH_MEDIA_MANIFEST_INSERT_MANIFEST_REVISIONS
            &&& params[2] == Param::I64(next)
            &&& script[5]->params[3] == Param::I64(next)
            &&& Database::publish_media_manifest_output(log) == next
        }),
{
}

/// A session has one preview for a key: admitting again returns the stored preview where the
/// fingerprint is the one it was admitted with, and is a conflict where it is another. Neither
/// changes a row.
pub proof fn previews_are_admitted_once<'a>(
    earlier: &'a AdmitMediaPreviewInput<'a>,
    input: &'a AdmitMediaPreviewInput<'a>,
    fingerprint: RequestFingerprint,
    first: Seq<Reply>,
    second: Seq<Reply>,
)
    requires
        crate::step::is_done(
            Database::admit_media_preview_fault(earlier, first),
            Database::admit_media_preview_script(earlier, first),
            first,
        ),
        first[1].optional_row::<RequestFingerprint>() == Ok::<Option<RequestFingerprint>, Fault>(
            None,
        ),
        crate::media::admissible(input),
        input.tenant_id == earlier.tenant_id,
        input.requester_session_id == earlier.requester_session_id,
        input.idempotency_key == earlier.idempotency_key,
        second.len() > 1,
        second[1].optional_row::<RequestFingerprint>() == Ok::<Option<RequestFingerprint>, Fault>(
            Some(fingerprint),
        ),
        fingerprint.request_fingerprint@ == earlier.request_fingerprint@,
        second[1].single_row::<MediaPreviewRecord>() == Ok::<MediaPreviewRecord, Fault>(
            Database::admit_media_preview_output(first),
        ),
    ensures
        ({
            let before = Database::admit_media_preview_script(earlier, first);
            let after = Database::admit_media_preview_script(input, second);
            let fault = Database::admit_media_preview_fault(input, second);
            &&& before[2] matches CommandView::Query { sql, params, .. }
            &&& sql == media::ADMIT_MEDIA_PREVIEW_INSERT_PREVIEWS
            &&& params[6] == Param::Id(earlier.requester_session_id)
            &&& params[7] == Param::Text(earlier.idempotency_key)
            &&& params[8] == Param::Digest(earlier.request_fingerprint)
            &&& input.request_fingerprint@ == earlier.request_fingerprint@ ==> fault is None
                && Database::admit_media_preview_output(second)
                == Database::admit_media_preview_output(first)
            &&& input.request_fingerprint@ != earlier.request_fingerprint@ ==> fault == Some(
                Fault::Error(DatabaseError::Conflict),
            )
            &&& after.len() == 3
            &&& crate::step::writes_nothing(after)
        }),
{
}

/// Attempts on a preview stop at three: the statement that starts one is bound to that many, and
/// where it starts none the call is stale before any attempt is added.
pub proof fn attempts_stop_at_their_cap<'a>(
    input: &'a StartMediaAttemptInput<'a>,
    log: Seq<Reply>,
)
    requires
        log.len() == 2,
        log[1].optional_row::<JobEpoch>() == Ok::<Option<JobEpoch>, Fault>(None),
    ensures
        Database::start_media_attempt_script(input, log)[1] == CommandView::optional(
            media::START_MEDIA_ATTEMPT_UPDATE_PREVIEWS,
            seq![Param::Id(input.tenant_id), Param::Id(input.preview_id), Param::I32(3)],
        ),
        Database::start_media_attempt_script(input, log)[2] matches CommandView::Query { sql, .. }
            && sql == media::START_MEDIA_ATTEMPT_INSERT_ATTEMPTS,
        Database::start_media_attempt_fault(log) == Some(
            Fault::Error(DatabaseError::StaleGeneration),
        ),
{
}

} // verus!
