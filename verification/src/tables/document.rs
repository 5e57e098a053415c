//! The rows of document sessions.

use std::sync::Arc;

use vstd::prelude::*;

use crate::document::CallbackEvent;
use crate::document::CallbackParticipant;
use crate::document::CommittableRevision;
use crate::document::DocumentAuthorizationGenerations;
use crate::document::DocumentConflictCopyRecord;
use crate::document::DocumentLaunchRecord;
use crate::document::DocumentRevisionRecord;
use crate::document::GrantLaunch;
use crate::document::HeadVersion;
use crate::document::OperationReceipt;
use crate::document::PayloadState;
use crate::document::ReceivedDocumentRevision;
use crate::document::RejectableRevision;
use crate::document_retention::OutlivedRevision;
use crate::document_retention::UnfinishedRevision;
use crate::error::Fault;
use crate::id::Uuid;
use crate::json::Json;
use crate::row::Reply;
use crate::sql::document as sql;
use crate::step::Param;
use crate::tables::catalog::charged;
use crate::tables::catalog::with_catalog;
use crate::tables::catalog::CatalogTables;
use crate::tables::catalog::NodeRow;
use crate::tables::catalog::VersionRow;
use crate::tables::collaboration::EpochRow;
use crate::tables::collaboration::RoomTables;
use crate::tables::Tables;

verus! {

/// A point in time, with the text that the database writes for it.
pub struct Moment {
    pub at: int,
    pub text: Seq<char>,
}

/// A session.
pub struct SessionRow {
    pub session_principal_id: Uuid,
    pub created_by: Uuid,
    pub drive_id: Uuid,
    pub node_id: Uuid,
    pub provider_id: Seq<char>,
    pub base_version_id: Uuid,
    pub expected_head_version_id: Uuid,
    pub state: Seq<char>,
    pub fencing_token: int,
    pub absolute_expires_at: int,
    pub reconnect_until: int,
}

/// A participant of a session.
pub struct ParticipantRow {
    pub document_session_id: Uuid,
    pub user_principal_id: Uuid,
    pub api_session_id: Uuid,
    pub mode: Seq<char>,
    pub state: Seq<char>,
    pub disconnected_until: Option<int>,
    pub generations: DocumentAuthorizationGenerations,
}

/// A revision.
pub struct RevisionRow {
    pub document_session_id: Uuid,
    pub actor_participant_id: Uuid,
    pub provider_event_digest: Seq<u8>,
    pub kind: Seq<char>,
    pub state: Seq<char>,
    pub expected_head_version_id: Uuid,
    pub payload_id: Option<Uuid>,
    pub reserved_bytes: i64,
    pub size_bytes: Option<i64>,
    pub blake3: Option<Seq<u8>>,
    pub media_type: Option<Seq<char>>,
    pub committed_version_id: Option<Uuid>,
    pub retained_until: Option<Moment>,
}

/// An event that a provider has reported.
pub struct EventRow {
    pub document_session_id: Uuid,
    pub participant_id: Option<Uuid>,
    pub provider_event_digest: Seq<u8>,
    pub event_kind: Seq<char>,
}

/// A launch grant.
pub struct GrantRow {
    pub participant_id: Uuid,
    pub token_digest: Seq<u8>,
    pub expires_at: int,
    pub consumed: bool,
}

/// The receipt of an operation: under which fingerprint it was asked for, what it was, and what it
/// has answered.
pub struct ReceiptRow {
    pub request_fingerprint: Seq<u8>,
    pub command_kind: Seq<char>,
    pub response: Arc<Json>,
    /// The answer whose JSON form the response is, where it is a launch.
    pub launch: Option<DocumentLaunchRecord>,
    /// The answer whose JSON form the response is, where it is a conflict copy.
    pub copy: Option<DocumentConflictCopyRecord>,
}

/// The tables of document sessions.
#[verifier::ext_equal]
pub struct DocumentTables {
    pub sessions: Map<Uuid, SessionRow>,
    pub participants: Map<Uuid, ParticipantRow>,
    pub revisions: Map<Uuid, RevisionRow>,
    pub events: Map<Uuid, EventRow>,
    pub grants: Map<Uuid, GrantRow>,
    /// The receipts, each by the digest of its operation.
    pub receipts: Map<Seq<u8>, ReceiptRow>,
    /// The state of the reconciliation of each revision.
    pub reconciliations: Map<Uuid, Seq<char>>,
    /// The principals who contributed to a revision.
    pub contributors: Set<(Uuid, Uuid)>,
}

/// The tables with other rows of document sessions.
pub open spec fn with_documents(tables: Tables, documents: DocumentTables) -> Tables {
    Tables { documents, ..tables }
}

/// Whether a session is open: active or draining.
pub open spec fn is_open(state: Seq<char>) -> bool {
    state == "active"@ || state == "draining"@
}

/// Whether a participant is present: active or disconnected.
pub open spec fn is_present(state: Seq<char>) -> bool {
    state == "active"@ || state == "disconnected"@
}

impl DocumentTables {
    /// Whether a revision stands there with its session and its participant.
    pub open spec fn is_whole(self, id: Uuid) -> bool {
        &&& self.revisions.contains_key(id)
        &&& self.sessions.contains_key(self.revisions[id].document_session_id)
        &&& self.participants.contains_key(self.revisions[id].actor_participant_id)
    }

    /// The session of a revision.
    pub open spec fn session_of(self, id: Uuid) -> SessionRow {
        self.sessions[self.revisions[id].document_session_id]
    }

    /// The participant of a revision.
    pub open spec fn actor_of(self, id: Uuid) -> ParticipantRow {
        self.participants[self.revisions[id].actor_participant_id]
    }

    /// The tables with another row for a revision.
    pub open spec fn revised(self, hit: bool, id: Uuid, row: RevisionRow) -> DocumentTables {
        DocumentTables {
            revisions: crate::tables::changed(self.revisions, hit, id, row),
            ..self
        }
    }

    /// The tables with another row for a session.
    pub open spec fn reopened(self, hit: bool, id: Uuid, row: SessionRow) -> DocumentTables {
        DocumentTables { sessions: crate::tables::changed(self.sessions, hit, id, row), ..self }
    }

    /// The tables with a revision's reconciliation in another state.
    pub open spec fn reconciled(self, id: Uuid, state: Seq<char>) -> DocumentTables {
        DocumentTables {
            reconciliations: crate::tables::changed(
                self.reconciliations,
                self.reconciliations.contains_key(id),
                id,
                state,
            ),
            ..self
        }
    }

    /// Whether a participant can enter its session: both are active, and the session has not run
    /// out.
    pub open spec fn can_enter(self, participant_id: Uuid, now: int) -> bool {
        let session_id = self.participants[participant_id].document_session_id;
        &&& self.participants.contains_key(participant_id)
        &&& self.participants[participant_id].state == "active"@
        &&& self.sessions.contains_key(session_id)
        &&& self.sessions[session_id].state == "active"@
        &&& self.sessions[session_id].absolute_expires_at > now
    }

    /// Whether a grant opens its participant's session.
    pub open spec fn opens(
        self,
        users: Set<Uuid>,
        id: Uuid,
        token_digest: Seq<u8>,
        now: int,
    ) -> bool {
        &&& self.grants.contains_key(id)
        &&& self.grants[id].token_digest == token_digest
        &&& !self.grants[id].consumed
        &&& self.grants[id].expires_at > now
        &&& self.can_enter(self.grants[id].participant_id, now)
        &&& users.contains(self.participants[self.grants[id].participant_id].user_principal_id)
    }

    /// Whether a grant of a participant has been consumed.
    pub open spec fn is_consumed(self, id: Uuid, participant_id: Uuid) -> bool {
        &&& self.grants.contains_key(id)
        &&& self.grants[id].participant_id == participant_id
        &&& self.grants[id].consumed
    }

    /// Whether a participant's time to reconnect has passed: its own, or that of its draining
    /// session.
    pub open spec fn is_overdue(self, id: Uuid, now: int) -> bool {
        let participant = self.participants[id];
        let session = self.sessions[participant.document_session_id];
        &&& self.participants.contains_key(id)
        &&& self.sessions.contains_key(participant.document_session_id)
        &&& participant.state == "disconnected"@
        &&& {
            ||| participant.disconnected_until is Some && participant.disconnected_until->0 <= now
            ||| session.state == "draining"@ && session.reconnect_until <= now
        }
    }

    /// Whether a session has drained: its time to reconnect has passed, and no participant is
    /// present.
    pub open spec fn is_drained(self, id: Uuid, now: int) -> bool {
        &&& self.sessions.contains_key(id)
        &&& self.sessions[id].state == "draining"@
        &&& self.sessions[id].reconnect_until <= now
        &&& forall|p: Uuid| #[trigger]
            self.participants.contains_key(p) && self.participants[p].document_session_id == id
                ==> !is_present(self.participants[p].state)
    }

    /// Whether an event is a session's under a digest.
    pub open spec fn is_event(self, id: Uuid, session_id: Uuid, digest: Seq<u8>) -> bool {
        &&& self.events.contains_key(id)
        &&& self.events[id].document_session_id == session_id
        &&& self.events[id].provider_event_digest == digest
    }

    /// Whether an event is of a participant who stands there.
    pub open spec fn is_attributed(self, id: Uuid) -> bool {
        &&& self.events[id].participant_id is Some
        &&& self.participants.contains_key(self.events[id].participant_id->0)
    }

    /// Whether a revision is a session's under a digest.
    pub open spec fn is_announced(self, id: Uuid, session_id: Uuid, digest: Seq<u8>) -> bool {
        &&& self.revisions.contains_key(id)
        &&& self.revisions[id].document_session_id == session_id
        &&& self.revisions[id].provider_event_digest == digest
    }
}

/// A text, as a row holds it.
pub open spec fn text_of(text: Option<String>) -> Option<Seq<char>> {
    match text {
        Some(text) => Some(text@),
        None => None,
    }
}

/// The text of a time, as a row holds it.
pub open spec fn moment_text(moment: Option<Moment>) -> Option<Seq<char>> {
    match moment {
        Some(moment) => Some(moment.text),
        None => None,
    }
}

/// Whether a record is what a revision holds.
pub open spec fn is_revision(found: DocumentRevisionRecord, id: Uuid, row: RevisionRow) -> bool {
    &&& found.id == id
    &&& found.document_session_id == row.document_session_id
    &&& found.actor_participant_id == row.actor_participant_id
    &&& found.kind@ == row.kind
    &&& found.state@ == row.state
    &&& found.expected_head_version_id == row.expected_head_version_id
    &&& found.payload_id == row.payload_id
    &&& found.reserved_bytes == row.reserved_bytes
    &&& found.size_bytes == row.size_bytes
    &&& crate::tables::collaboration::bytes_of(found.blake3) == row.blake3
    &&& text_of(found.media_type) == row.media_type
    &&& found.committed_version_id == row.committed_version_id
    &&& text_of(found.retained_until) == moment_text(row.retained_until)
}

/// Whether a record is what a revision's session and participant hold.
pub open spec fn is_committable(
    found: CommittableRevision,
    documents: DocumentTables,
    id: Uuid,
    now: int,
) -> bool {
    let session = documents.session_of(id);
    let actor = documents.actor_of(id);
    &&& found.session_principal_id == session.session_principal_id
    &&& found.drive_id == session.drive_id
    &&& found.node_id == session.node_id
    &&& found.session_state@ == session.state
    &&& found.session_unexpired == (session.absolute_expires_at > now)
    &&& found.user_principal_id == actor.user_principal_id
    &&& found.api_session_id == actor.api_session_id
    &&& found.mode@ == actor.mode
    &&& found.generations == actor.generations
}

/// Whether a record is what a revision, its session and its participant hold.
pub open spec fn is_rejectable(
    found: RejectableRevision,
    documents: DocumentTables,
    id: Uuid,
    now: int,
) -> bool {
    let revision = documents.revisions[id];
    let session = documents.session_of(id);
    let actor = documents.actor_of(id);
    &&& found.document_session_id == revision.document_session_id
    &&& found.state@ == revision.state
    &&& found.payload_id == revision.payload_id
    &&& found.reserved_bytes == revision.reserved_bytes
    &&& found.drive_id == session.drive_id
    &&& found.node_id == session.node_id
    &&& found.session_state@ == session.state
    &&& found.session_unexpired == (session.absolute_expires_at > now)
    &&& found.user_principal_id == actor.user_principal_id
    &&& found.api_session_id == actor.api_session_id
    &&& found.generations == actor.generations
}

/// Whether a record is what a node's head version holds.
pub open spec fn is_head(found: HeadVersion, catalog: CatalogTables, node_id: Uuid) -> bool {
    let head = catalog.nodes[node_id].head_version_id;
    let known = head is Some && catalog.versions.contains_key((node_id, head->0));
    let version = catalog.versions[(node_id, head->0)];
    &&& found.head_version_id == head
    &&& known ==> found.size_bytes == Some(version.size_bytes) && found.ordinal == Some(
        version.ordinal,
    ) && crate::tables::collaboration::bytes_of(found.blake3) == Some(version.blake3)
    &&& !known ==> found.size_bytes is None && found.ordinal is None && found.blake3 is None
}

/// Whether a record is what an announced revision holds.
pub open spec fn is_received(found: ReceivedDocumentRevision, row: RevisionRow) -> bool {
    &&& found.document_session_id == row.document_session_id
    &&& found.participant_id == row.actor_participant_id
    &&& found.provider_event_digest@ == row.provider_event_digest
    &&& found.kind@ == row.kind
    &&& Some(found.media_type@) == row.media_type
    &&& found.state@ == row.state
}

/// The sessions once some of them are closed in a state, under a new fence.
pub open spec fn fenced(
    sessions: Map<Uuid, SessionRow>,
    closed: spec_fn(Uuid) -> bool,
    state: Seq<char>,
) -> Map<Uuid, SessionRow> {
    sessions.map_entries(
        |id: Uuid, row: SessionRow|
            if closed(id) {
                SessionRow { state, fencing_token: row.fencing_token + 1, ..row }
            } else {
                row
            },
    )
}

/// The participants once some of them are in another state.
pub open spec fn moved(
    participants: Map<Uuid, ParticipantRow>,
    hit: spec_fn(Uuid) -> bool,
    state: Seq<char>,
) -> Map<Uuid, ParticipantRow> {
    participants.map_entries(
        |id: Uuid, row: ParticipantRow|
            if hit(id) {
                ParticipantRow { state, ..row }
            } else {
                row
            },
    )
}

/// Whether a state of a revision is one in which its authorization can still be withdrawn.
pub open spec fn is_pending(state: Seq<char>) -> bool {
    state == "staging"@ || state == "staged"@ || state == "committing"@
}

/// What the statements that settle revisions do.
#[verifier::opaque]
pub open spec fn settles<'a>(
    sql: &'static str,
    params: Seq<Param<'a>>,
    reply: Reply,
    now: int,
    before: Tables,
    after: Tables,
) -> bool {
    let documents = before.documents;
    let catalog = before.catalog;
    let id = params[1]->Id_0;
    let revision = documents.revisions[id];
    let session = documents.sessions[id];
    &&& sql == sql::COMMIT_DOCUMENT_REVISION_SELECT_REVISIONS ==> match reply.optional_row::<
        CommittableRevision,
    >() {
        Ok(Some(found)) => {
            &&& documents.is_whole(id)
            &&& is_committable(found, documents, id, now)
            &&& reply.single_row::<DocumentRevisionRecord>() is Ok
            &&& is_revision(reply.single_row::<DocumentRevisionRecord>()->Ok_0, id, revision)
        },
        Ok(None) => !documents.is_whole(id),
        Err(_) => false,
    }
    &&& sql == sql::COMMIT_DOCUMENT_REVISION_SELECT_NODES ==> {
        let node_id = params[2]->Id_0;
        let hit = catalog.nodes.contains_key(node_id) && catalog.nodes[node_id].drive_id == id;
        &&& after == before
        &&& match reply.optional_row::<HeadVersion>() {
            Ok(Some(found)) => hit && is_head(found, catalog, node_id),
            Ok(None) => !hit,
            Err(_) => false,
        }
    }
    &&& sql == sql::MARK_DOCUMENT_CONFLICT_UPDATE_REVISIONS ==> {
        let hit = documents.revisions.contains_key(id);
        match reply.optional_row::<String>() {
            Ok(Some(found)) => hit && exists|moment: Moment|
                {
                    let row = RevisionRow {
                        state: "conflict"@,
                        retained_until: Some(moment),
                        ..revision
                    };
                    &&& found@ == (#[trigger] moment.text)
                    &&& moment.at > now
                    &&& after == with_documents(before, documents.revised(true, id, row))
                },
            Ok(None) => !hit && after == before,
            Err(_) => false,
        }
    }
    &&& sql == sql::MARK_DOCUMENT_CONFLICT_UPDATE_SESSIONS ==> {
        let hit = documents.sessions.contains_key(id) && is_open(session.state);
        let row = SessionRow {
            state: "conflict"@,
            fencing_token: session.fencing_token + 1,
            ..session
        };
        after == with_documents(before, documents.reopened(hit, id, row))
    }
    &&& sql == sql::COMMIT_DOCUMENT_REVISION_UPDATE_RECONCILIATION_JOBS ==> after
        == with_documents(before, documents.reconciled(id, "complete"@))
    &&& sql == sql::RELEASE_DOCUMENT_PAYLOAD_UPDATE_PAYLOAD_OBJECTS ==> {
        let hit = catalog.payload_is(id, "staging"@) || catalog.payload_is(id, "finalized"@);
        &&& after == with_catalog(before, catalog.disposed(hit, id, "delete_intent"@))
        &&& crate::tables::touches(reply, hit)
    }
    &&& sql == sql::DOCUMENT_REVISION_RETENTION_SWEEP_UPDATE_DRIVES ==> {
        let bytes = params[2]->I64_0 as int;
        let hit = crate::tables::catalog::reserves(before, id, bytes);
        &&& after == charged(before, hit, id, bytes, 0)
        &&& crate::tables::touches(reply, hit)
    }
    &&& sql == sql::DOCUMENT_REVISION_RETENTION_SWEEP_INSERT_JOBS ==> after
        == crate::tables::catalog::queued(before, params)
    &&& sql == sql::COMMIT_DOCUMENT_REVISION_UPDATE_REVISIONS ==> exists|moment: Moment|
        {
            let row = RevisionRow {
                state: "no_op"@,
                retained_until: Some(moment),
                ..revision
            };
            &&& (#[trigger] moment.at) > now
            &&& after == with_documents(
                before,
                documents.revised(documents.revisions.contains_key(id), id, row),
            )
        }
    &&& sql == sql::COMMIT_DOCUMENT_REVISION_INSERT_FILE_VERSIONS ==> {
        let key = (id, params[2]->Id_0);
        &&& !catalog.versions.contains_key(key)
        &&& exists|row: VersionRow|
            {
                &&& #[trigger] is_document_version(row, params)
                &&& after == with_catalog(
                    before,
                    CatalogTables { versions: catalog.versions.insert(key, row), ..catalog },
                )
            }
    }
    &&& sql == sql::CREATE_DOCUMENT_CONFLICT_COPY_UPDATE_PAYLOAD_OBJECTS ==> after
        == with_catalog(
        before,
        catalog.disposed(catalog.payload_is(id, "finalized"@), id, "referenced"@),
    )
    &&& sql == sql::CREATE_DOCUMENT_CONFLICT_COPY_UPDATE_DRIVES ==> after == charged(
        before,
        catalog.drives.contains_key(id),
        id,
        params[2]->I64_0 as int,
        params[3]->I64_0 as int,
    )
    &&& sql == sql::CREATE_DOCUMENT_CONFLICT_COPY_UPDATE_NODES ==> {
        let node_id = params[2]->Id_0;
        let node = catalog.nodes[node_id];
        after == with_catalog(
            before,
            CatalogTables {
                nodes: crate::tables::changed(
                    catalog.nodes,
                    catalog.nodes.contains_key(node_id) && node.drive_id == id,
                    node_id,
                    NodeRow { head_version_id: Some(params[3]->Id_0), ..node },
                ),
                ..catalog
            },
        )
    }
    &&& sql == sql::COMMIT_DOCUMENT_REVISION_UPDATE_REVISIONS_2 ==> {
        let row = RevisionRow {
            state: "committed"@,
            committed_version_id: Some(params[2]->Id_0),
            retained_until: None,
            ..revision
        };
        after == with_documents(
            before,
            documents.revised(documents.revisions.contains_key(id), id, row),
        )
    }
    &&& sql == sql::COMMIT_DOCUMENT_REVISION_UPDATE_SESSIONS ==> {
        let row = SessionRow {
            expected_head_version_id: params[2]->Id_0,
            state: if params[3]->Bool_0 {
                "committed"@
            } else {
                session.state
            },
            ..session
        };
        after == with_documents(
            before,
            documents.reopened(documents.sessions.contains_key(id), id, row),
        )
    }
    &&& sql == sql::COMMIT_DOCUMENT_REVISION_UPDATE_SESSIONS_2 ==> after == with_documents(
        before,
        DocumentTables {
            sessions: fenced(
                documents.sessions,
                |other: Uuid|
                    documents.sessions[other].drive_id == id && documents.sessions[other].node_id
                        == params[2]->Id_0 && other != params[3]->Id_0 && is_open(
                        documents.sessions[other].state,
                    ),
                "conflict"@,
            ),
            ..documents
        },
    )
    &&& sql == sql::COMMIT_DOCUMENT_REVISION_UPDATE_EPOCHS ==> after == (Tables {
        rooms: RoomTables {
            epochs: before.rooms.epochs.map_entries(
                |key: (Uuid, i64), row: EpochRow|
                    if before.rooms.is_current(key, id, params[2]->Id_0) && row.state
                        == "active"@ {
                        EpochRow {
                            state: "frozen"@,
                            fencing_token: row.fencing_token + 1,
                            ..row
                        }
                    } else {
                        row
                    },
            ),
            ..before.rooms
        },
        ..before
    })
    &&& sql == sql::REJECT_DOCUMENT_REVISION_FOR_AUTHORIZATION_CHANGE_SELECT_REVISIONS
        ==> match reply.optional_row::<RejectableRevision>() {
        Ok(Some(found)) => documents.is_whole(id) && is_rejectable(found, documents, id, now),
        Ok(None) => !documents.is_whole(id),
        Err(_) => false,
    }
    &&& sql == sql::REJECT_DOCUMENT_REVISION_FOR_AUTHORIZATION_CHANGE_UPDATE_REVISIONS ==> {
        let hit = documents.revisions.contains_key(id) && is_pending(revision.state);
        &&& crate::tables::touches(reply, hit)
        &&& exists|moment: Moment|
            {
                let row = RevisionRow {
                    state: "rejected"@,
                    retained_until: Some(moment),
                    ..revision
                };
                &&& (#[trigger] moment.at) <= now + 86_400_000_000
                &&& after == with_documents(before, documents.revised(hit, id, row))
            }
    }
    &&& sql
        == sql::REJECT_DOCUMENT_REVISION_FOR_AUTHORIZATION_CHANGE_UPDATE_RECONCILIATION_JOBS
        ==> after == with_documents(before, documents.reconciled(id, "terminal"@))
    &&& sql == sql::REJECT_DOCUMENT_REVISION_FOR_AUTHORIZATION_CHANGE_UPDATE_PARTICIPANTS
        ==> after == with_documents(
        before,
        DocumentTables {
            participants: moved(
                documents.participants,
                |other: Uuid|
                    documents.participants[other].document_session_id == id && is_present(
                        documents.participants[other].state,
                    ),
                "revoked"@,
            ),
            ..documents
        },
    )
    &&& sql == sql::REJECT_DOCUMENT_REVISION_FOR_AUTHORIZATION_CHANGE_UPDATE_SESSIONS ==> {
        let hit = documents.sessions.contains_key(id) && is_open(session.state);
        let row = SessionRow {
            state: "revoked"@,
            fencing_token: session.fencing_token + 1,
            ..session
        };
        after == with_documents(before, documents.reopened(hit, id, row))
    }
    &&& sql == sql::COMPLETE_DOCUMENT_PAYLOAD_DELETION_SELECT_PAYLOAD_OBJECTS ==> {
        let hit = catalog.payloads.contains_key(id) && is_dropped(documents, id);
        match reply.optional_row::<PayloadState>() {
            Ok(Some(found)) => hit && found.state@ == catalog.payloads[id],
            Ok(None) => !hit,
            Err(_) => false,
        }
    }
    &&& sql == sql::COMPLETE_DOCUMENT_PAYLOAD_DELETION_UPDATE_PAYLOAD_OBJECTS ==> {
        let hit = catalog.payload_is(id, "deleting"@) || catalog.payload_is(id, "abandoned"@);
        &&& after == with_catalog(before, catalog.disposed(hit, id, "deleted"@))
        &&& crate::tables::touches(reply, hit)
    }
}

/// Whether a version is what the insertion of a committed document binds.
pub open spec fn is_document_version<'a>(row: VersionRow, params: Seq<Param<'a>>) -> bool {
    &&& row.ordinal == params[3]->I64_0
    &&& row.payload_id == params[4]->Id_0
    &&& row.size_bytes == params[5]->I64_0
    &&& row.blake3 == params[6]->Blob_0@
    &&& row.media_type == text_of(params[7]->OptOwned_0)
    &&& row.created_by == params[8]->Id_0
    &&& row.origin_kind == "external_document"@
}

/// Whether a payload is of a revision that failed or changed nothing.
pub open spec fn is_dropped(documents: DocumentTables, payload_id: Uuid) -> bool {
    exists|id: Uuid| #[trigger]
        documents.revisions.contains_key(id) && documents.revisions[id].payload_id == Some(
            payload_id,
        ) && (documents.revisions[id].state == "failed"@ || documents.revisions[id].state
            == "no_op"@)
}

/// What the statements that open, keep and end sessions do.
#[verifier::opaque]
pub open spec fn admits<'a>(
    sql: &'static str,
    params: Seq<Param<'a>>,
    reply: Reply,
    now: int,
    before: Tables,
    after: Tables,
) -> bool {
    let documents = before.documents;
    let id = params[1]->Id_0;
    let participant = documents.participants[id];
    let session = documents.sessions[id];
    &&& sql == sql::DOCUMENT_OPERATION_REPLAY_SELECT_OPERATION_RECEIPTS ==> {
        let digest = params[1]->Digest_0@;
        let row = documents.receipts[digest];
        match reply.optional_row::<OperationReceipt>() {
            Ok(Some(found)) => {
                &&& documents.receipts.contains_key(digest)
                &&& found.request_fingerprint@ == row.request_fingerprint
                &&& found.command_kind@ == row.command_kind
                &&& found.response == row.response
            },
            Ok(None) => !documents.receipts.contains_key(digest),
            Err(_) => false,
        }
    }
    &&& sql == sql::DOCUMENT_OPERATION_RECORD ==> {
        let digest = params[1]->Digest_0@;
        let hit = !documents.receipts.contains_key(digest);
        &&& crate::tables::touches(reply, hit)
        &&& exists|response: Arc<Json>|
            {
                let row = #[trigger] new_receipt(params, response);
                after == with_documents(
                    before,
                    DocumentTables {
                        receipts: crate::tables::changed(documents.receipts, hit, digest, row),
                        ..documents
                    },
                )
            }
    }
    &&& sql == sql::CREATE_DOCUMENT_SESSION_SELECT_ADVISORY_LOCK ==> after == before
    &&& sql == sql::CREATE_DOCUMENT_SESSION_COUNT_PARTICIPANTS ==> after == before
    &&& sql == sql::CREATE_DOCUMENT_SESSION_SELECT_NODES ==> after == before
    &&& sql == sql::CREATE_DOCUMENT_SESSION_SELECT_FILE_VERSIONS ==> after == before
    &&& sql == sql::CREATE_DOCUMENT_SESSION_SELECT_SESSIONS ==> after == before
    &&& sql == sql::CREATE_DOCUMENT_SESSION_SELECT_USERS ==> after == before
    &&& sql == sql::CREATE_DOCUMENT_SESSION_SELECT_VALUE ==> after == with_catalog(
        before,
        CatalogTables {
            session_principals: before.catalog.session_principals.insert(id),
            ..before.catalog
        },
    )
    &&& sql == sql::CREATE_DOCUMENT_SESSION_UPDATE_SESSIONS ==> after == with_documents(
        before,
        DocumentTables {
            sessions: fenced(
                documents.sessions,
                |other: Uuid|
                    documents.sessions[other].provider_id == params[1]->Text_0@
                        && documents.sessions[other].node_id == params[2]->Id_0
                        && documents.sessions[other].base_version_id == params[3]->Id_0
                        && documents.sessions[other].state == "draining"@
                        && documents.sessions[other].reconnect_until <= now,
                "expired"@,
            ),
            ..documents
        },
    )
    &&& sql == sql::CREATE_DOCUMENT_SESSION_INSERT_SESSIONS ==> exists|row: SessionRow|
        {
            &&& #[trigger] is_new_session(row, params)
            &&& !documents.sessions.contains_key(id)
            &&& after == with_documents(
                before,
                DocumentTables { sessions: documents.sessions.insert(id, row), ..documents },
            )
        }
    &&& sql == sql::CREATE_DOCUMENT_SESSION_INSERT_PARTICIPANTS ==> exists|
        fresh: Uuid,
        row: ParticipantRow,
    |
        {
            &&& #[trigger] is_new_participant(row, params)
            &&& !(#[trigger] documents.participants.contains_key(fresh))
            &&& after == with_documents(
                before,
                DocumentTables {
                    participants: documents.participants.insert(fresh, row),
                    ..documents
                },
            )
        }
    &&& sql == sql::ISSUE_DOCUMENT_LAUNCH_GRANT_SELECT_PARTICIPANTS ==> match reply.optional_row::<
        Uuid,
    >() {
        Ok(Some(found)) => is_launchable(documents, found, params, now),
        Ok(None) => forall|other: Uuid|
            !(#[trigger] is_launchable(documents, other, params, now)),
        Err(_) => false,
    }
    &&& sql == sql::ISSUE_DOCUMENT_LAUNCH_GRANT_EXISTS_LAUNCH_GRANTS ==> reply.single_row::<bool>()
        == Ok::<bool, Fault>(exists|grant: Uuid| #[trigger] documents.is_consumed(grant, id))
    &&& sql == sql::ISSUE_DOCUMENT_LAUNCH_GRANT_DELETE_LAUNCH_GRANTS ==> after == with_documents(
        before,
        DocumentTables {
            grants: documents.grants.remove_keys(
                Set::new(
                    |grant: Uuid|
                        documents.grants[grant].participant_id == id
                            && !documents.grants[grant].consumed,
                ),
            ),
            ..documents
        },
    )
    &&& sql == sql::ISSUE_DOCUMENT_LAUNCH_GRANT_INSERT_LAUNCH_GRANTS ==> {
        let row = GrantRow {
            participant_id: params[2]->Id_0,
            token_digest: params[3]->Digest_0@,
            expires_at: now + 60_000_000,
            consumed: false,
        };
        &&& reply.single_row::<i64>() is Ok
        &&& exists|fresh: Uuid|
            {
                &&& !(#[trigger] documents.grants.contains_key(fresh))
                &&& after == with_documents(
                    before,
                    DocumentTables { grants: documents.grants.insert(fresh, row), ..documents },
                )
            }
    }
    &&& sql == sql::CONSUME_DOCUMENT_LAUNCH_GRANT ==> {
        let digest = params[1]->Digest_0@;
        let users = before.catalog.user_principals();
        &&& after == with_documents(
            before,
            DocumentTables {
                grants: documents.grants.map_entries(
                    |grant: Uuid, row: GrantRow|
                        if documents.opens(users, grant, digest, now) {
                            GrantRow { consumed: true, ..row }
                        } else {
                            row
                        },
                ),
                ..documents
            },
        )
        &&& match reply.optional_row::<GrantLaunch>() {
            Ok(Some(found)) => documents.opens(users, found.grant_id, digest, now)
                && found.participant.id
                == documents.grants[found.grant_id].participant_id,
            Ok(None) => forall|grant: Uuid|
                !(#[trigger] documents.opens(users, grant, digest, now)),
            Err(_) => false,
        }
    }
    &&& sql == sql::DOCUMENT_RECONNECT_SWEEP_UPDATE_PARTICIPANTS ==> exists|closed: Set<Uuid>|
        {
            &&& #[trigger] are_overdue(documents, now, closed, params[1]->I64_0 as int, reply)
            &&& after == with_documents(
                before,
                DocumentTables {
                    participants: moved(
                        documents.participants,
                        |other: Uuid| closed.contains(other),
                        "closed"@,
                    ),
                    ..documents
                },
            )
        }
    &&& sql == sql::DOCUMENT_RECONNECT_SWEEP_UPDATE_SESSIONS ==> exists|expired: Set<Uuid>|
        {
            &&& #[trigger] are_drained(documents, now, expired, params[1]->I64_0 as int, reply)
            &&& after == with_documents(
                before,
                DocumentTables {
                    sessions: fenced(
                        documents.sessions,
                        |other: Uuid| expired.contains(other),
                        "expired"@,
                    ),
                    ..documents
                },
            )
        }
}

/// Whether some rows are a choice of those that qualify, as a limit and the reply to the statement
/// have it: no more than the limit, and all that qualify where there are fewer.
pub open spec fn is_chosen(
    chosen: Set<Uuid>,
    qualifies: spec_fn(Uuid) -> bool,
    limit: int,
    reply: Reply,
) -> bool {
    &&& chosen.finite()
    &&& chosen.len() <= limit
    &&& forall|id: Uuid| #[trigger] chosen.contains(id) ==> qualifies(id)
    &&& chosen.len() < limit ==> forall|id: Uuid| qualifies(id) ==> #[trigger] chosen.contains(id)
    &&& reply.row_count() == Ok::<u64, Fault>(chosen.len() as u64)
}

/// Whether some participants are a choice of those whose time to reconnect has passed.
pub open spec fn are_overdue(
    documents: DocumentTables,
    now: int,
    chosen: Set<Uuid>,
    limit: int,
    reply: Reply,
) -> bool {
    is_chosen(chosen, |id: Uuid| documents.is_overdue(id, now), limit, reply)
}

/// Whether some sessions are a choice of those that have drained.
pub open spec fn are_drained(
    documents: DocumentTables,
    now: int,
    chosen: Set<Uuid>,
    limit: int,
    reply: Reply,
) -> bool {
    is_chosen(chosen, |id: Uuid| documents.is_drained(id, now), limit, reply)
}

/// Whether a participant of a user can be launched into a session.
pub open spec fn is_launchable<'a>(
    documents: DocumentTables,
    id: Uuid,
    params: Seq<Param<'a>>,
    now: int,
) -> bool {
    &&& documents.can_enter(id, now)
    &&& documents.participants[id].document_session_id == params[1]->Id_0
    &&& documents.participants[id].user_principal_id == params[2]->Id_0
    &&& documents.participants[id].api_session_id == params[3]->Id_0
}

/// The receipt that an insertion binds, with the JSON form of what was answered.
pub open spec fn new_receipt<'a>(params: Seq<Param<'a>>, response: Arc<Json>) -> ReceiptRow {
    ReceiptRow {
        request_fingerprint: params[2]->Digest_0@,
        command_kind: params[3]->Text_0@,
        response,
        launch: match params[4] {
            Param::Launch(launch) => Some(launch),
            _ => None,
        },
        copy: match params[4] {
            Param::ConflictCopy(copy) => Some(copy),
            _ => None,
        },
    }
}

/// Whether a session is what an insertion binds.
pub open spec fn is_new_session<'a>(row: SessionRow, params: Seq<Param<'a>>) -> bool {
    &&& row.session_principal_id == params[2]->Id_0
    &&& row.drive_id == params[3]->Id_0
    &&& row.node_id == params[4]->Id_0
    &&& row.provider_id == params[5]->Text_0@
    &&& row.base_version_id == params[6]->Id_0
    &&& row.expected_head_version_id == params[6]->Id_0
    &&& row.created_by == params[7]->Id_0
}

/// Whether a participant is what an insertion binds.
pub open spec fn is_new_participant<'a>(row: ParticipantRow, params: Seq<Param<'a>>) -> bool {
    &&& row.document_session_id == params[2]->Id_0
    &&& row.user_principal_id == params[3]->Id_0
    &&& row.api_session_id == params[4]->Id_0
    &&& row.mode == params[5]->Text_0@
    &&& row.generations.membership == params[6]->I64_0
    &&& row.generations.drive_acl == params[7]->I64_0
    &&& row.generations.namespace == params[8]->I64_0
    &&& row.generations.resource_acl == params[9]->I64_0
}

/// The time until which a session or a participant may reconnect from now on.
pub open spec fn reconnect_deadline(now: int) -> int {
    now + 100_000_000
}

/// The earlier of two times.
pub open spec fn earlier(a: int, b: int) -> int {
    if a <= b {
        a
    } else {
        b
    }
}

/// The event that an insertion binds.
pub open spec fn new_event<'a>(params: Seq<Param<'a>>) -> EventRow {
    EventRow {
        document_session_id: params[2]->Id_0,
        participant_id: Some(params[3]->Id_0),
        provider_event_digest: params[4]->Digest_0@,
        event_kind: params[5]->Text_0@,
    }
}

/// Whether a revision is what an announcement binds.
pub open spec fn is_new_revision<'a>(row: RevisionRow, params: Seq<Param<'a>>) -> bool {
    &&& is_same_announcement(row, params)
    &&& row.document_session_id == params[2]->Id_0
    &&& row.provider_event_digest == params[4]->Digest_0@
    &&& row.state == "received"@
    &&& row.expected_head_version_id == params[6]->Id_0
}

/// Whether a revision was announced by the participant, and is of the kind and the media type,
/// that an announcement binds.
pub open spec fn is_same_announcement<'a>(row: RevisionRow, params: Seq<Param<'a>>) -> bool {
    &&& row.actor_participant_id == params[3]->Id_0
    &&& Some(row.kind) == crate::text::borrowed_text(params[5]->OptText_0)
    &&& row.media_type == Some(params[7]->Owned_0@)
}

/// What the statements that receive a provider's events do.
#[verifier::opaque]
pub open spec fn hears<'a>(
    sql: &'static str,
    params: Seq<Param<'a>>,
    reply: Reply,
    now: int,
    before: Tables,
    after: Tables,
) -> bool {
    let documents = before.documents;
    let id = params[1]->Id_0;
    let participant = documents.participants[id];
    let session = documents.sessions[id];
    &&& sql == sql::RECEIVE_DOCUMENT_CALLBACK_SELECT_SESSION_EVENTS ==> {
        let digest = params[2]->Digest_0@;
        match reply.optional_row::<CallbackEvent>() {
            Ok(Some(found)) => {
                let row = documents.events[found.id];
                &&& documents.is_event(found.id, id, digest)
                &&& documents.is_attributed(found.id)
                &&& found.participant_id == row.participant_id
                &&& found.event_kind@ == row.event_kind
                &&& found.mode@ == documents.participants[row.participant_id->0].mode
            },
            Ok(None) => forall|event: Uuid|
                !((#[trigger] documents.is_event(event, id, digest)) && documents.is_attributed(
                    event,
                )),
            Err(_) => false,
        }
    }
    &&& sql == sql::RECEIVE_DOCUMENT_CALLBACK_SELECT_PARTICIPANTS ==> match reply.optional_row::<
        CallbackParticipant,
    >() {
        Ok(Some(found)) => {
            let joined = documents.sessions[participant.document_session_id];
            &&& documents.participants.contains_key(id)
            &&& participant.document_session_id == params[2]->Id_0
            &&& is_present(participant.state)
            &&& documents.sessions.contains_key(participant.document_session_id)
            &&& is_open(joined.state)
            &&& joined.absolute_expires_at > now
            &&& joined.state == "active"@ || joined.reconnect_until > now
            &&& found.mode@ == participant.mode
            &&& found.expected_head_version_id == joined.expected_head_version_id
        },
        _ => true,
    }
    &&& sql == sql::RECEIVED_DOCUMENT_REVISION_BY_DIGEST ==> {
        let digest = params[2]->Digest_0@;
        match reply.optional_row::<ReceivedDocumentRevision>() {
            Ok(Some(found)) => documents.is_announced(found.id, id, digest) && is_received(
                found,
                documents.revisions[found.id],
            ),
            Ok(None) => forall|revision: Uuid|
                !(#[trigger] documents.is_announced(revision, id, digest)),
            Err(_) => exists|revision: Uuid| #[trigger]
                documents.is_announced(revision, id, digest)
                    && documents.revisions[revision].media_type is None,
        }
    }
    &&& sql == sql::RECEIVE_DOCUMENT_CALLBACK_INSERT_SESSION_EVENTS ==> {
        let row = new_event(params);
        let session_id = row.document_session_id;
        let digest = row.provider_event_digest;
        match reply.optional_row::<Uuid>() {
            Ok(Some(found)) => if documents.is_event(found, session_id, digest) {
                &&& documents.events[found] == row
                &&& after == before
            } else {
                &&& forall|event: Uuid| !(#[trigger] documents.is_event(event, session_id, digest))
                &&& !documents.events.contains_key(found)
                &&& after == with_documents(
                    before,
                    DocumentTables { events: documents.events.insert(found, row), ..documents },
                )
            },
            Ok(None) => after == before && exists|event: Uuid| #[trigger]
                documents.is_event(event, session_id, digest) && documents.events[event] != row,
            Err(_) => false,
        }
    }
    &&& sql == sql::RECEIVE_DOCUMENT_CALLBACK_UPDATE_PARTICIPANTS ==> after == with_documents(
        before,
        DocumentTables {
            participants: crate::tables::changed(
                documents.participants,
                documents.participants.contains_key(id) && is_present(participant.state),
                id,
                ParticipantRow { state: "active"@, disconnected_until: None, ..participant },
            ),
            ..documents
        },
    )
    &&& sql == sql::RECEIVE_DOCUMENT_CALLBACK_UPDATE_SESSIONS ==> {
        let hit = documents.sessions.contains_key(id) && is_open(session.state) && (session.state
            == "active"@ || session.reconnect_until > now);
        let row = SessionRow {
            state: "active"@,
            fencing_token: session.fencing_token + 1,
            reconnect_until: earlier(session.absolute_expires_at, reconnect_deadline(now)),
            ..session
        };
        after == with_documents(before, documents.reopened(hit, id, row))
    }
    &&& sql == sql::RECEIVE_DOCUMENT_CALLBACK_UPDATE_PARTICIPANTS_2 ==> after == with_documents(
        before,
        DocumentTables {
            participants: crate::tables::changed(
                documents.participants,
                documents.participants.contains_key(id) && is_present(participant.state),
                id,
                ParticipantRow {
                    state: "disconnected"@,
                    disconnected_until: Some(reconnect_deadline(now)),
                    ..participant
                },
            ),
            ..documents
        },
    )
    &&& sql == sql::RECEIVE_DOCUMENT_CALLBACK_UPDATE_SESSIONS_2 ==> {
        let hit = documents.sessions.contains_key(id) && session.state == "active"@ && forall|
            other: Uuid,
        | #[trigger]
            documents.participants.contains_key(other)
                && documents.participants[other].document_session_id == id
                ==> documents.participants[other].state != "active"@;
        let row = SessionRow {
            state: "draining"@,
            fencing_token: session.fencing_token + 1,
            reconnect_until: earlier(session.absolute_expires_at, reconnect_deadline(now)),
            ..session
        };
        after == with_documents(before, documents.reopened(hit, id, row))
    }
    &&& sql == sql::RECEIVE_DOCUMENT_CALLBACK_UPDATE_PARTICIPANTS_3 ==> after == before
    &&& sql == sql::RECEIVE_DOCUMENT_CALLBACK_INSERT_REVISIONS ==> {
        let session_id = params[2]->Id_0;
        let digest = params[4]->Digest_0@;
        match reply.optional_row::<ReceivedDocumentRevision>() {
            Ok(Some(found)) => if documents.is_announced(found.id, session_id, digest) {
                &&& is_same_announcement(documents.revisions[found.id], params)
                &&& is_received(found, documents.revisions[found.id])
                &&& after == before
            } else {
                &&& forall|revision: Uuid|
                    !(#[trigger] documents.is_announced(revision, session_id, digest))
                &&& !documents.revisions.contains_key(found.id)
                &&& exists|row: RevisionRow|
                    {
                        &&& #[trigger] is_new_revision(row, params)
                        &&& is_received(found, row)
                        &&& after == with_documents(
                            before,
                            documents.revised(true, found.id, row),
                        )
                    }
            },
            Ok(None) => after == before && exists|revision: Uuid| #[trigger]
                documents.is_announced(revision, session_id, digest) && !is_same_announcement(
                    documents.revisions[revision],
                    params,
                ),
            Err(_) => false,
        }
    }
}

/// Whether a revision was never finished and its session is over: no longer open, or past its end.
pub open spec fn is_unfinished(documents: DocumentTables, id: Uuid, now: int) -> bool {
    let session = documents.session_of(id);
    &&& documents.revisions.contains_key(id)
    &&& documents.sessions.contains_key(documents.revisions[id].document_session_id)
    &&& is_unsettled(documents.revisions[id].state)
    &&& !is_open(session.state) || session.absolute_expires_at <= now
}

/// Whether a revision is still to be written: announced or staging.
pub open spec fn is_unsettled(state: Seq<char>) -> bool {
    state == "received"@ || state == "staging"@
}

/// Whether a revision has ended in a state from which it is released one day.
pub open spec fn is_ended(state: Seq<char>) -> bool {
    ||| state == "checkpoint"@
    ||| state == "conflict"@
    ||| state == "rejected"@
    ||| state == "failed"@
    ||| state == "no_op"@
}

/// Whether an ended revision has outlived its recovery window with its payload still there.
pub open spec fn is_outlived(
    documents: DocumentTables,
    catalog: CatalogTables,
    id: Uuid,
    now: int,
) -> bool {
    let revision = documents.revisions[id];
    &&& documents.revisions.contains_key(id)
    &&& documents.sessions.contains_key(revision.document_session_id)
    &&& is_ended(revision.state)
    &&& revision.retained_until is Some
    &&& revision.retained_until->0.at <= now
    &&& revision.payload_id is Some
    &&& catalog.payload_is(revision.payload_id->0, "finalized"@)
}

/// An ended revision, with its payload as one that may be missing.
pub open spec fn as_unfinished(revision: OutlivedRevision) -> UnfinishedRevision {
    UnfinishedRevision {
        id: revision.id,
        payload_id: Some(revision.payload_id),
        reserved_bytes: revision.reserved_bytes,
        drive_id: revision.drive_id,
    }
}

/// Whether a record is what a revision and its session hold.
pub open spec fn is_listed(found: UnfinishedRevision, documents: DocumentTables) -> bool {
    &&& found.payload_id == documents.revisions[found.id].payload_id
    &&& found.reserved_bytes == documents.revisions[found.id].reserved_bytes
    &&& found.drive_id == documents.session_of(found.id).drive_id
}

/// Whether no two records of a list are of the same revision.
pub open spec fn are_distinct(list: Seq<UnfinishedRevision>) -> bool {
    forall|i: int, j: int|
        0 <= i < j < list.len() ==> (#[trigger] list[i]).id != (#[trigger] list[j]).id
}

/// Whether a grant may go: it has run out or was consumed, and is not one that was consumed by a
/// participant who is still present.
pub open spec fn is_disposable(documents: DocumentTables, id: Uuid, now: int) -> bool {
    let grant = documents.grants[id];
    &&& grant.expires_at <= now || grant.consumed
    &&& !(grant.consumed && documents.participants.contains_key(grant.participant_id)
        && is_present(documents.participants[grant.participant_id].state))
}

/// What the statements of the retention sweep do.
#[verifier::opaque]
pub open spec fn retains<'a>(
    sql: &'static str,
    params: Seq<Param<'a>>,
    reply: Reply,
    now: int,
    before: Tables,
    after: Tables,
) -> bool {
    let documents = before.documents;
    let catalog = before.catalog;
    let id = params[1]->Id_0;
    let revision = documents.revisions[id];
    &&& sql == sql::DOCUMENT_REVISION_RETENTION_SWEEP_SELECT_REVISIONS ==> {
        let list = reply.all_rows::<UnfinishedRevision>()->Ok_0;
        &&& after == before
        &&& reply.all_rows::<UnfinishedRevision>() is Ok
        &&& list.len() <= params[1]->I64_0
        &&& are_distinct(list)
        &&& forall|j: int|
            0 <= j < list.len() ==> is_unfinished(documents, (#[trigger] list[j]).id, now)
                && is_listed(list[j], documents)
    }
    &&& sql == sql::DOCUMENT_REVISION_RETENTION_SWEEP_UPDATE_PAYLOAD_OBJECTS ==> {
        let hit = catalog.payload_is(id, "staging"@);
        &&& after == with_catalog(before, catalog.disposed(hit, id, "delete_intent"@))
        &&& crate::tables::touches(reply, hit)
    }
    &&& sql == sql::DOCUMENT_REVISION_RETENTION_SWEEP_UPDATE_REVISIONS ==> {
        let hit = documents.revisions.contains_key(id) && revision.state == "staging"@;
        &&& crate::tables::touches(reply, hit)
        &&& exists|moment: Moment|
            {
                let row = RevisionRow {
                    state: "failed"@,
                    retained_until: Some(moment),
                    ..revision
                };
                &&& (#[trigger] moment.at) <= now + 86_400_000_000
                &&& after == with_documents(before, documents.revised(hit, id, row))
            }
    }
    &&& sql == sql::DOCUMENT_REVISION_RETENTION_SWEEP_UPDATE_REVISIONS_2 ==> {
        let hit = documents.revisions.contains_key(id) && revision.state == "received"@;
        &&& crate::tables::touches(reply, hit)
        &&& exists|moment: Moment|
            {
                let row = RevisionRow {
                    state: "failed"@,
                    retained_until: Some(moment),
                    ..revision
                };
                &&& (#[trigger] moment.at) <= now + 86_400_000_000
                &&& after == with_documents(before, documents.revised(hit, id, row))
            }
    }
    &&& sql == sql::DOCUMENT_REVISION_RETENTION_SWEEP_SELECT_REVISIONS_2 ==> {
        let list = reply.all_rows::<OutlivedRevision>()->Ok_0;
        &&& after == before
        &&& reply.all_rows::<OutlivedRevision>() is Ok
        &&& list.len() <= params[1]->I64_0
        &&& are_distinct(list.map_values(|found: OutlivedRevision| as_unfinished(found)))
        &&& forall|j: int|
            0 <= j < list.len() ==> is_outlived(documents, catalog, (#[trigger] list[j]).id, now)
                && is_listed(as_unfinished(list[j]), documents)
    }
    &&& sql == sql::DOCUMENT_REVISION_RETENTION_SWEEP_UPDATE_REVISIONS_3 ==> {
        let hit = documents.revisions.contains_key(id) && is_ended(revision.state);
        let row = RevisionRow { state: "failed"@, retained_until: None, ..revision };
        &&& after == with_documents(before, documents.revised(hit, id, row))
        &&& crate::tables::touches(reply, hit)
    }
    &&& sql == sql::BOUNDED_DOCUMENT_METADATA_DELETE_DELETE_LAUNCH_GRANTS ==> exists|
        doomed: Set<Uuid>,
    |
        {
            &&& forall|grant: Uuid| #[trigger]
                doomed.contains(grant) ==> is_disposable(documents, grant, now)
            &&& after == #[trigger] without_grants(before, doomed)
        }
    &&& sql == sql::BOUNDED_DOCUMENT_METADATA_DELETE_DELETE_SESSION_EVENTS ==> after
        == with_documents(before, DocumentTables { events: after.documents.events, ..documents })
        && after.documents.events.submap_of(documents.events)
    &&& sql == sql::BOUNDED_DOCUMENT_METADATA_DELETE_DELETE_OPERATION_RECEIPTS ==> after
        == with_documents(
        before,
        DocumentTables { receipts: after.documents.receipts, ..documents },
    ) && after.documents.receipts.submap_of(documents.receipts)
}

/// The tables without some grants.
pub open spec fn without_grants(tables: Tables, doomed: Set<Uuid>) -> Tables {
    with_documents(
        tables,
        DocumentTables { grants: tables.documents.grants.remove_keys(doomed), ..tables.documents },
    )
}

/// What the statements of document sessions do.
pub open spec fn means<'a>(
    sql: &'static str,
    params: Seq<Param<'a>>,
    reply: Reply,
    now: int,
    before: Tables,
    after: Tables,
) -> bool {
    &&& settles(sql, params, reply, now, before, after)
    &&& admits(sql, params, reply, now, before, after)
    &&& hears(sql, params, reply, now, before, after)
    &&& retains(sql, params, reply, now, before, after)
}

} // verus!
