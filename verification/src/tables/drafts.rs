//! The rows behind revisions that are still being written, and laws about how they begin and end.

use vstd::prelude::*;

use crate::database::Database;
use crate::document::BeginDocumentRevisionInput;
use crate::document::DocumentAuthorizationGenerations;
use crate::document::DocumentPayloadAllocation;
use crate::document::DocumentRevisionRecord;
use crate::document::DriveUsage;
use crate::document::FinalizableRevision;
use crate::document::PayloadPlace;
use crate::document::WritingParticipant;
use crate::error::DatabaseError;
use crate::fence::FenceGenerations;
use crate::id::Uuid;
use crate::row::Reply;
use crate::row::Row;
use crate::sql::document as sql;
use crate::step::Param;
use crate::tables::answers;
use crate::tables::catalog::with_catalog;
use crate::tables::catalog::CatalogTables;
use crate::tables::catalog::DriveRow;
use crate::tables::catalog::PlaceRow;
use crate::tables::changed;
use crate::tables::document::is_revision;
use crate::tables::document::moment_text;
use crate::tables::document::with_documents;
use crate::tables::document::DocumentTables;
use crate::tables::document::Moment;
use crate::tables::document::RevisionRow;
use crate::tables::document_laws::fence_of;
use crate::tables::first_row;
use crate::tables::has;
use crate::tables::has_number;
use crate::tables::has_optional_bytes;
use crate::tables::has_optional_text;
use crate::tables::has_text;
use crate::tables::Course;
use crate::tables::Tables;

verus! {

/// Whether a row of a reply is what a revision holds.
pub open spec fn is_revision_row(row: Row, id: Uuid, revision: RevisionRow) -> bool {
    &&& has::<Uuid>(row, "id"@, id)
    &&& has::<Uuid>(row, "document_session_id"@, revision.document_session_id)
    &&& has::<Uuid>(row, "actor_participant_id"@, revision.actor_participant_id)
    &&& has_text(row, "kind"@, revision.kind)
    &&& has_text(row, "state"@, revision.state)
    &&& has::<Uuid>(row, "expected_head_version_id"@, revision.expected_head_version_id)
    &&& has::<Option<Uuid>>(row, "payload_id"@, revision.payload_id)
    &&& has::<i64>(row, "reserved_bytes"@, revision.reserved_bytes)
    &&& has::<Option<i64>>(row, "size_bytes"@, revision.size_bytes)
    &&& has_optional_bytes(row, "blake3"@, revision.blake3)
    &&& has_optional_text(row, "media_type"@, revision.media_type)
    &&& has::<Option<Uuid>>(row, "committed_version_id"@, revision.committed_version_id)
    &&& has_optional_text(row, "retained_until"@, moment_text(revision.retained_until))
}

/// Whether a row of a reply has the generations under which a participant was authorized.
pub open spec fn has_generations(row: Row, generations: DocumentAuthorizationGenerations) -> bool {
    &&& has::<i64>(row, "membership_generation"@, generations.membership)
    &&& has::<i64>(row, "drive_acl_generation"@, generations.drive_acl)
    &&& has::<i64>(row, "namespace_generation"@, generations.namespace)
    &&& has::<i64>(row, "resource_acl_generation"@, generations.resource_acl)
}

/// Whether a participant is active in a session that is active too and has not run out.
pub open spec fn is_writing(
    documents: DocumentTables,
    participant_id: Uuid,
    session_id: Uuid,
    now: int,
) -> bool {
    &&& documents.can_enter(participant_id, now)
    &&& documents.participants[participant_id].document_session_id == session_id
}

/// Whether a storage backend can take new payloads.
pub open spec fn is_ready(catalog: CatalogTables, backend_id: Uuid, now: int) -> bool {
    let backend = catalog.backends[backend_id];
    &&& catalog.backends.contains_key(backend_id)
    &&& backend.kind == "posix"@
    &&& backend.ready
    &&& backend.checked_at > now - 30_000_000
}

/// What the statements that begin and finalize revisions do.
#[verifier::opaque]
pub open spec fn means<'a>(
    sql: &'static str,
    params: Seq<Param<'a>>,
    reply: Reply,
    now: int,
    before: Tables,
    after: Tables,
) -> bool {
    let documents = before.documents;
    let catalog = before.catalog;
    let id = params[1]->Id_0;
    let revision = documents.revisions[id];
    &&& sql == sql::BEGIN_DOCUMENT_REVISION_SELECT_PARTICIPANTS ==> {
        let session_id = params[2]->Id_0;
        let participant = documents.participants[id];
        let session = documents.sessions[session_id];
        &&& after == before
        &&& answers(reply, is_writing(documents, id, session_id, now))
        &&& first_row(reply) matches Some(row) ==> {
            &&& has::<Uuid>(row, "user_principal_id"@, participant.user_principal_id)
            &&& has::<Uuid>(row, "api_session_id"@, participant.api_session_id)
            &&& has_text(row, "mode"@, participant.mode)
            &&& has_generations(row, participant.generations)
            &&& has::<Uuid>(row, "drive_id"@, session.drive_id)
            &&& has::<Uuid>(row, "node_id"@, session.node_id)
            &&& has::<Uuid>(row, "expected_head_version_id"@, session.expected_head_version_id)
            &&& has_number(row, "fencing_token"@, session.fencing_token)
        }
    }
    &&& sql == sql::BEGIN_DOCUMENT_REVISION_SELECT_REVISIONS ==> {
        let digest = params[2]->Digest_0@;
        &&& after == before
        &&& reply is Rows
        &&& first_row(reply) is None ==> forall|other: Uuid|
            !(#[trigger] documents.is_announced(other, id, digest))
        &&& first_row(reply) matches Some(row) ==> exists|other: Uuid| #[trigger]
            documents.is_announced(other, id, digest) && is_revision_row(
                row,
                other,
                documents.revisions[other],
            )
    }
    &&& sql == sql::BEGIN_DOCUMENT_REVISION_SELECT_PAYLOAD_OBJECTS ==> {
        &&& after == before
        &&& answers(reply, catalog.places.contains_key(id))
        &&& first_row(reply) matches Some(row) ==> {
            &&& has::<Uuid>(row, "backend_id"@, catalog.places[id].backend_id)
            &&& has::<Uuid>(row, "locator"@, catalog.places[id].locator)
        }
    }
    &&& sql == sql::BEGIN_DOCUMENT_REVISION_SELECT_DRIVES ==> {
        &&& after == before
        &&& answers(reply, catalog.drives.contains_key(id))
        &&& first_row(reply) matches Some(row) ==> {
            &&& has_number(row, "quota_bytes"@, catalog.drives[id].quota_bytes)
            &&& has_number(row, "used_physical_bytes"@, catalog.drives[id].used_bytes)
            &&& has_number(row, "reserved_bytes"@, catalog.drives[id].reserved_bytes)
        }
    }
    &&& sql == sql::BEGIN_DOCUMENT_REVISION_SELECT_STORAGE_BACKENDS ==> {
        &&& after == before
        &&& match reply.optional_row::<Uuid>() {
            Ok(Some(backend_id)) => is_ready(catalog, backend_id, now),
            Ok(None) => forall|backend_id: Uuid|
                !(#[trigger] is_ready(catalog, backend_id, now)),
            Err(_) => false,
        }
    }
    &&& sql == sql::BEGIN_DOCUMENT_REVISION_UPDATE_DRIVES ==> {
        let drive = catalog.drives[id];
        after == with_catalog(
            before,
            CatalogTables {
                drives: changed(
                    catalog.drives,
                    catalog.drives.contains_key(id),
                    id,
                    DriveRow {
                        reserved_bytes: drive.reserved_bytes + params[2]->I64_0,
                        ..drive
                    },
                ),
                ..catalog
            },
        )
    }
    &&& sql == sql::BEGIN_DOCUMENT_REVISION_INSERT_PAYLOAD_OBJECTS ==> {
        &&& !catalog.payloads.contains_key(id)
        &&& after == with_catalog(
            before,
            CatalogTables {
                payloads: catalog.payloads.insert(id, "staging"@),
                places: catalog.places.insert(
                    id,
                    PlaceRow {
                        drive_id: params[2]->Id_0,
                        backend_id: params[3]->Id_0,
                        locator: params[4]->Id_0,
                    },
                ),
                ..catalog
            },
        )
    }
    &&& sql == sql::BEGIN_DOCUMENT_REVISION_UPDATE_REVISIONS ==> {
        let hit = documents.revisions.contains_key(id) && revision.state == "received"@;
        let row = RevisionRow {
            state: "staging"@,
            payload_id: Some(params[2]->Id_0),
            reserved_bytes: params[3]->I64_0,
            media_type: Some(params[4]->Text_0@),
            ..revision
        };
        &&& after == with_documents(before, documents.revised(hit, id, row))
        &&& answers(reply, hit)
        &&& first_row(reply) matches Some(found) ==> is_revision_row(found, id, row)
    }
    &&& sql == sql::BEGIN_DOCUMENT_REVISION_INSERT_REVISIONS ==> {
        let row = RevisionRow {
            document_session_id: params[2]->Id_0,
            actor_participant_id: params[3]->Id_0,
            provider_event_digest: params[4]->Digest_0@,
            kind: params[5]->Text_0@,
            state: "staging"@,
            expected_head_version_id: params[6]->Id_0,
            payload_id: Some(params[7]->Id_0),
            reserved_bytes: params[8]->I64_0,
            size_bytes: None,
            blake3: None,
            media_type: Some(params[9]->Text_0@),
            committed_version_id: None,
            retained_until: None,
        };
        &&& !documents.revisions.contains_key(id)
        &&& after == with_documents(before, documents.revised(true, id, row))
        &&& answers(reply, true)
        &&& first_row(reply) matches Some(found) ==> is_revision_row(found, id, row)
    }
    &&& sql == sql::BEGIN_DOCUMENT_REVISION_INSERT_REVISION_CONTRIBUTORS ==> after
        == with_documents(
        before,
        DocumentTables {
            contributors: documents.contributors.insert((id, params[2]->Id_0)),
            ..documents
        },
    )
    &&& sql == sql::FINALIZE_DOCUMENT_REVISION_SELECT_REVISIONS ==> {
        let session = documents.session_of(id);
        let actor = documents.actor_of(id);
        &&& after == before
        &&& answers(reply, documents.is_whole(id))
        &&& first_row(reply) matches Some(row) ==> {
            &&& is_revision_row(row, id, revision)
            &&& has_number(row, "fencing_token"@, session.fencing_token)
            &&& has_text(row, "session_state"@, session.state)
            &&& has::<bool>(row, "session_unexpired"@, session.absolute_expires_at > now)
            &&& has::<Uuid>(row, "drive_id"@, session.drive_id)
            &&& has::<Uuid>(row, "node_id"@, session.node_id)
            &&& has::<Uuid>(row, "user_principal_id"@, actor.user_principal_id)
            &&& has::<Uuid>(row, "api_session_id"@, actor.api_session_id)
            &&& has_generations(row, actor.generations)
        }
    }
    &&& sql == sql::LOCK_DOCUMENT_AUTHORIZATION_FENCE ==> after == before
    &&& sql == sql::FINALIZE_DOCUMENT_REVISION_UPDATE_PAYLOAD_OBJECTS ==> {
        let hit = catalog.payload_is(id, "staging"@);
        after == with_catalog(
            before,
            CatalogTables {
                payloads: changed(catalog.payloads, hit, id, "finalized"@),
                digests: changed(catalog.digests, hit, id, params[3]->Digest_0@),
                ..catalog
            },
        )
    }
    &&& sql == sql::FINALIZE_DOCUMENT_REVISION_UPDATE_REVISIONS ==> {
        &&& after == with_documents(
            before,
            DocumentTables { revisions: after.documents.revisions, ..documents },
        )
        &&& are_superseded(documents, after.documents, id, params[2]->Id_0)
    }
    &&& sql == sql::FINALIZE_DOCUMENT_REVISION_UPDATE_REVISIONS_2 ==> {
        let hit = documents.revisions.contains_key(id);
        &&& answers(reply, hit)
        &&& exists|retained_until: Option<Moment>|
            {
                let row = #[trigger] with_content(revision, retained_until, params);
                &&& retained_until is Some <==> params[2]->Text_0@ == "checkpoint"@
                &&& after == with_documents(before, documents.revised(hit, id, row))
                &&& first_row(reply) matches Some(found) ==> is_revision_row(found, id, row)
            }
    }
    &&& sql == sql::FINALIZE_DOCUMENT_REVISION_INSERT_RECONCILIATION_JOBS ==> exists|
        state: Seq<char>,
    | #[trigger]
        is_queued(before, after, id, state)
}

/// Whether a revision's reconciliation is queued, in some state, where it was not there yet.
pub open spec fn is_queued(before: Tables, after: Tables, id: Uuid, state: Seq<char>) -> bool {
    after == with_documents(
        before,
        DocumentTables {
            reconciliations: changed(
                before.documents.reconciliations,
                !before.documents.reconciliations.contains_key(id),
                id,
                state,
            ),
            ..before.documents
        },
    )
}

/// A revision with the content that a statement binds.
pub open spec fn with_content<'a>(
    revision: RevisionRow,
    retained_until: Option<Moment>,
    params: Seq<Param<'a>>,
) -> RevisionRow {
    RevisionRow {
        state: params[2]->Text_0@,
        size_bytes: Some(params[3]->I64_0),
        blake3: Some(params[4]->Digest_0@),
        media_type: Some(params[5]->Text_0@),
        retained_until,
        ..revision
    }
}

/// Whether the other checkpoints of a session have failed, and every other revision is as it was.
pub open spec fn are_superseded(
    before: DocumentTables,
    after: DocumentTables,
    session_id: Uuid,
    revision_id: Uuid,
) -> bool {
    &&& after.revisions.dom() == before.revisions.dom()
    &&& forall|id: Uuid| #[trigger]
        before.revisions.contains_key(id) ==> {
            let revision = before.revisions[id];
            let hit = revision.document_session_id == session_id && id != revision_id
                && revision.state == "checkpoint"@;
            &&& hit ==> after.revisions[id] == (RevisionRow {
                state: "failed"@,
                retained_until: after.revisions[id].retained_until,
                ..revision
            })
            &&& !hit ==> after.revisions[id] == revision
        }
}

proof fn lemma_revision_is_read(row: Row, id: Uuid, revision: RevisionRow)
    requires
        is_revision_row(row, id, revision),
    ensures
        <DocumentRevisionRecord as crate::row::FromRow>::row_spec(row) is Ok,
        is_revision(
            <DocumentRevisionRecord as crate::row::FromRow>::row_spec(row)->Ok_0,
            id,
            revision,
        ),
{
    reveal(DocumentRevisionRecord::of_row);
}

/// What a beginning has found of its participant and session.
pub open spec fn is_admitted<'a>(
    input: &'a BeginDocumentRevisionInput<'a>,
    log: Seq<Reply>,
    course: Course,
) -> bool {
    let before = course.start();
    let participant = before.documents.participants[input.participant_id];
    let session = before.documents.sessions[input.document_session_id];
    let found = log[1].required_row::<WritingParticipant>(DatabaseError::NotFound)->Ok_0;
    &&& is_writing(
        before.documents,
        input.participant_id,
        input.document_session_id,
        course.clock[0],
    )
    &&& crate::document::can_write(participant.mode)
    &&& before.catalog.permits(
        participant.api_session_id,
        participant.user_principal_id,
        session.drive_id,
        session.node_id,
        fence_of(participant.generations),
        course.clock[0],
    )
    &&& found.user_principal_id == participant.user_principal_id
    &&& found.drive_id == session.drive_id
    &&& found.expected_head_version_id == session.expected_head_version_id
    &&& found.fencing_token == session.fencing_token
    &&& course.rows[4] == before
}

proof fn lemma_participant_is_admitted<'a>(
    input: &'a BeginDocumentRevisionInput<'a>,
    log: Seq<Reply>,
    course: Course,
)
    requires
        crate::step::is_done(
            Database::begin_document_revision_fault(input, log),
            Database::begin_document_revision_script(input, log),
            log,
        ),
        course.follows(Database::begin_document_revision_script(input, log), log),
    ensures
        is_admitted(input, log, course),
        log.len() > 5,
        log[3].optional_row::<DocumentRevisionRecord>() is Ok,
        ({
            let existing = log[3].optional_row::<DocumentRevisionRecord>()->Ok_0;
            let documents = course.start().documents;
            match existing {
                Some(found) => documents.is_announced(
                    found.id,
                    input.document_session_id,
                    input.provider_event_digest@,
                ) && is_revision(found, found.id, documents.revisions[found.id]),
                None => forall|id: Uuid|
                    !(#[trigger] documents.is_announced(
                        id,
                        input.document_session_id,
                        input.provider_event_digest@,
                    )),
            }
        }),
{
    reveal(means);
    reveal(crate::tables::catalog::means);
    reveal(WritingParticipant::of_row);
    reveal(DocumentAuthorizationGenerations::of_row);
    let script = Database::begin_document_revision_script(input, log);
    let before = course.start();
    assert(course.performs(script, log, 0));
    assert(course.performs(script, log, 1));
    let found = log[1].required_row::<WritingParticipant>(DatabaseError::NotFound);
    assert(found is Ok);
    assert(first_row(log[1]) is Some);
    assert(course.clock[0] <= course.clock[1]);
    assert(course.performs(script, log, 2));
    let fence = log[2].required_row::<FenceGenerations>(DatabaseError::StaleGeneration);
    assert(fence is Ok);
    assert(first_row(log[2]) is Some);
    assert(course.clock[0] <= course.clock[2]);
    let expected = found->Ok_0.generations.expected();
    assert(expected[0] == found->Ok_0.generations.membership);
    assert(expected[1] == found->Ok_0.generations.drive_acl);
    assert(expected[2] == found->Ok_0.generations.namespace);
    assert(expected[3] == found->Ok_0.generations.resource_acl);
    assert(course.performs(script, log, 3));
    assert(course.rows[3] == before);
    if first_row(log[3]) is Some {
        let row = first_row(log[3])->0;
        let other = choose|other: Uuid| #[trigger]
            before.documents.is_announced(
                other,
                input.document_session_id,
                input.provider_event_digest@,
            ) && is_revision_row(row, other, before.documents.revisions[other]);
        lemma_revision_is_read(row, other, before.documents.revisions[other]);
        let existing = log[3].optional_row::<DocumentRevisionRecord>()->Ok_0;
        assert(existing is Some);
        assert(existing->0.id == other);
    } else {
        assert(log[3].optional_row::<DocumentRevisionRecord>()->Ok_0 is None);
        assert(course.rows[3].documents == before.documents);
        assert(script[3]->params[1] == Param::Id(input.document_session_id));
        assert(script[3]->params[2] == Param::Digest(input.provider_event_digest));
        assert forall|id: Uuid|
            !(#[trigger] before.documents.is_announced(
                id,
                input.document_session_id,
                input.provider_event_digest@,
            )) by {
            assert(!course.rows[3].documents.is_announced(
                id,
                script[3]->params[1]->Id_0,
                script[3]->params[2]->Digest_0@,
            ));
        }
    }
}

/// What a new draft adds: its payload, of which the bytes are reserved on the drive, at a backend
/// that is ready, and its contributor.
pub open spec fn is_drafted<'a>(
    input: &'a BeginDocumentRevisionInput<'a>,
    out: DocumentPayloadAllocation,
    revision: RevisionRow,
    course: Course,
) -> bool {
    let before = course.start();
    let after = course.end();
    let session = before.documents.sessions[input.document_session_id];
    let drive = before.catalog.drives[session.drive_id];
    let principal_id = before.documents.participants[input.participant_id].user_principal_id;
    &&& drive.used_bytes + drive.reserved_bytes + input.reserved_bytes <= drive.quota_bytes
    &&& is_ready(before.catalog, out.backend_id, course.clock[0])
    &&& !before.catalog.payloads.contains_key(out.payload_id)
    &&& is_revision(out.revision, out.revision.id, revision)
    &&& after == (Tables {
        catalog: CatalogTables {
            drives: before.catalog.drives.insert(
                session.drive_id,
                DriveRow {
                    reserved_bytes: drive.reserved_bytes + input.reserved_bytes,
                    ..drive
                },
            ),
            payloads: before.catalog.payloads.insert(out.payload_id, "staging"@),
            places: before.catalog.places.insert(
                out.payload_id,
                PlaceRow {
                    drive_id: session.drive_id,
                    backend_id: out.backend_id,
                    locator: out.locator,
                },
            ),
            ..before.catalog
        },
        documents: DocumentTables {
            revisions: before.documents.revisions.insert(out.revision.id, revision),
            contributors: before.documents.contributors.insert((out.revision.id, principal_id)),
            ..before.documents
        },
        ..before
    })
}

/// A revision begins as a draft on the version that its session expects at the head. It goes
/// through where the participant writes in an active session and is authorized as when it entered,
/// and the reserved bytes fit the drive's quota. Under a digest that was announced, the announced
/// revision becomes the draft; under one whose draft is there already, that draft is returned with
/// its payload, and nothing changes. The session's fence is returned.
#[verifier::rlimit(60)]
pub proof fn drafts_begin_at_the_expected_head<'a>(
    input: &'a BeginDocumentRevisionInput<'a>,
    log: Seq<Reply>,
    course: Course,
)
    requires
        crate::step::is_done(
            Database::begin_document_revision_fault(input, log),
            Database::begin_document_revision_script(input, log),
            log,
        ),
        course.follows(Database::begin_document_revision_script(input, log), log),
    ensures
        ({
            let before = course.start();
            let after = course.end();
            let out = Database::begin_document_revision_output(log);
            let session = before.documents.sessions[input.document_session_id];
            let announced = before.documents.is_announced(
                out.revision.id,
                input.document_session_id,
                input.provider_event_digest@,
            );
            let old = before.documents.revisions[out.revision.id];
            &&& is_admitted(input, log, course)
            &&& out.fencing_token == session.fencing_token
            &&& !announced ==> {
                &&& !before.documents.revisions.contains_key(out.revision.id)
                &&& forall|id: Uuid|
                    !(#[trigger] before.documents.is_announced(
                        id,
                        input.document_session_id,
                        input.provider_event_digest@,
                    ))
                &&& is_drafted(
                    input,
                    out,
                    RevisionRow {
                        document_session_id: input.document_session_id,
                        actor_participant_id: input.participant_id,
                        provider_event_digest: input.provider_event_digest@,
                        kind: input.kind@,
                        state: "staging"@,
                        expected_head_version_id: session.expected_head_version_id,
                        payload_id: Some(out.payload_id),
                        reserved_bytes: input.reserved_bytes,
                        size_bytes: None,
                        blake3: None,
                        media_type: Some(input.media_type@),
                        committed_version_id: None,
                        retained_until: None,
                    },
                    course,
                )
            }
            &&& announced ==> old.state == "received"@ || old.state == "staging"@
            &&& announced && old.state == "received"@ ==> is_drafted(
                input,
                out,
                RevisionRow {
                    state: "staging"@,
                    payload_id: Some(out.payload_id),
                    reserved_bytes: input.reserved_bytes,
                    media_type: Some(input.media_type@),
                    ..old
                },
                course,
            )
            &&& announced && old.state == "staging"@ ==> {
                &&& after == before
                &&& is_revision(out.revision, out.revision.id, old)
                &&& old.payload_id == Some(out.payload_id)
                &&& before.catalog.places[out.payload_id].backend_id == out.backend_id
                &&& before.catalog.places[out.payload_id].locator == out.locator
            }
        }),
{
    lemma_participant_is_admitted(input, log, course);
    reveal(means);
    reveal(DriveUsage::of_row);
    reveal(PayloadPlace::of_row);
    reveal_strlit("staging");
    reveal_strlit("received");
    assert("staging"@.len() == 7);
    assert("received"@.len() == 8);
    let script = Database::begin_document_revision_script(input, log);
    let existing = log[3].optional_row::<DocumentRevisionRecord>()->Ok_0;
    let before = course.start();
    assert(course.performs(script, log, 4));
    assert(course.performs(script, log, 5));
    if existing is Some && existing->0.state@ == "staging"@ {
        assert(first_row(log[4]) is Some);
        assert(course.end() == course.rows[6]);
    } else {
        assert(log[4].single_row::<DriveUsage>() is Ok);
        assert(first_row(log[4]) is Some);
        assert(course.clock[0] <= course.clock[5]);
        assert(course.performs(script, log, 6));
        assert(course.performs(script, log, 7));
        assert(course.performs(script, log, 8));
        assert(course.performs(script, log, 9));
        let drafted = log[9].single_row::<DocumentRevisionRecord>();
        assert(drafted is Ok);
        assert(first_row(log[9]) is Some);
        let row = first_row(log[9])->0;
        let id = script[9]->params[1]->Id_0;
        lemma_revision_is_read(row, id, course.rows[10].documents.revisions[id]);
        assert(course.performs(script, log, 10));
        assert(course.performs(script, log, 11));
        assert(course.end() == course.rows[12]);
    }
}

/// A session goes on from what it has committed: once a commit has put a version at the head of its
/// node, the next revision that begins in the session expects that version. So where nothing else
/// has moved the head, committing it gives no conflict.
pub proof fn next_revisions_do_not_conflict<'a>(
    tenant_id: Uuid,
    revision_id: Uuid,
    input: &'a BeginDocumentRevisionInput<'a>,
    first: Seq<Reply>,
    second: Seq<Reply>,
    third: Seq<Reply>,
    one: Course,
    two: Course,
    three: Course,
)
    requires
        crate::step::is_done(
            Database::commit_document_revision_fault(first),
            Database::commit_document_revision_script(tenant_id, revision_id, first),
            first,
        ),
        one.follows(
            Database::commit_document_revision_script(tenant_id, revision_id, first),
            first,
        ),
        first.len() > 2,
        Database::commit_document_revision_output(first) is Committed,
        input.document_session_id
            == one.start().documents.revisions[revision_id].document_session_id,
        crate::step::is_done(
            Database::begin_document_revision_fault(input, second),
            Database::begin_document_revision_script(input, second),
            second,
        ),
        two.follows(Database::begin_document_revision_script(input, second), second),
        two.start().documents.sessions[input.document_session_id]
            == one.end().documents.sessions[input.document_session_id],
        forall|id: Uuid|
            !(#[trigger] two.start().documents.is_announced(
                id,
                input.document_session_id,
                input.provider_event_digest@,
            )),
        ({
            let id = Database::begin_document_revision_output(second).revision.id;
            let session = one.start().documents.sessions[input.document_session_id];
            let begun = two.end().documents.revisions[id];
            let staged = three.start().documents.revisions[id];
            &&& crate::step::is_done(
                Database::commit_document_revision_fault(third),
                Database::commit_document_revision_script(tenant_id, id, third),
                third,
            )
            &&& three.follows(
                Database::commit_document_revision_script(tenant_id, id, third),
                third,
            )
            &&& third.len() > 1
            &&& staged.state == "staged"@ || staged.state == "committing"@
            &&& staged.document_session_id == begun.document_session_id
            &&& staged.expected_head_version_id == begun.expected_head_version_id
            &&& three.start().documents.sessions[input.document_session_id].node_id
                == session.node_id
            &&& three.start().catalog.nodes[session.node_id].head_version_id
                == one.end().catalog.nodes[session.node_id].head_version_id
        }),
    ensures
        ({
            let version_id = Database::commit_document_revision_output(
                first,
            )->Committed_version_id;
            let id = Database::begin_document_revision_output(second).revision.id;
            &&& two.end().documents.revisions[id].expected_head_version_id == version_id
            &&& !(Database::commit_document_revision_output(third) is Conflict)
        }),
{
    let id = Database::begin_document_revision_output(second).revision.id;
    crate::repeats::lemma_outcome_names_differ();
    crate::tables::document_laws::lemma_revision_is_settled(tenant_id, revision_id, first, one);
    crate::tables::document_laws::lemma_settled_states(tenant_id, revision_id, first, one);
    drafts_begin_at_the_expected_head(input, second, two);
    crate::tables::document_laws::lemma_revision_is_settled(tenant_id, id, third, three);
}

/// What a finalizing has found of its revision.
pub open spec fn is_finalizable(
    revision_id: Uuid,
    fencing_token: i64,
    course: Course,
) -> bool {
    let documents = course.start().documents;
    &&& documents.is_whole(revision_id)
    &&& documents.session_of(revision_id).fencing_token == fencing_token
    &&& documents.session_of(revision_id).state == "active"@
    &&& documents.session_of(revision_id).absolute_expires_at > course.clock[0]
}

/// What a finalized draft leaves: its size, its digest and its media type, on the revision and on
/// the payload, which is finalized. It fits what was reserved. A checkpoint supersedes the earlier
/// ones of its session and is kept for a while; any other revision is staged, and its
/// reconciliation queued.
pub open spec fn is_finalized(
    revision_id: Uuid,
    size_bytes: i64,
    blake3: Seq<u8>,
    media_type: Seq<char>,
    course: Course,
) -> bool {
    let before = course.start();
    let after = course.end();
    let revision = before.documents.revisions[revision_id];
    let payload_id = revision.payload_id->0;
    let staging = before.catalog.payload_is(payload_id, "staging"@);
    let checkpoint = revision.kind == "checkpoint"@;
    let row = after.documents.revisions[revision_id];
    &&& revision.payload_id is Some
    &&& 0 <= size_bytes <= revision.reserved_bytes
    &&& row == (RevisionRow {
        state: if checkpoint {
            "checkpoint"@
        } else {
            "staged"@
        },
        size_bytes: Some(size_bytes),
        blake3: Some(blake3),
        media_type: Some(media_type),
        retained_until: row.retained_until,
        ..revision
    })
    &&& row.retained_until is Some <==> checkpoint
    &&& after.documents.revisions.dom() == before.documents.revisions.dom()
    &&& forall|id: Uuid| #[trigger]
        before.documents.revisions.contains_key(id) && id != revision_id ==> {
            let other = before.documents.revisions[id];
            let superseded = checkpoint && other.document_session_id
                == revision.document_session_id && other.state == "checkpoint"@;
            &&& superseded ==> after.documents.revisions[id].state == "failed"@
            &&& !superseded ==> after.documents.revisions[id] == other
        }
    &&& checkpoint ==> after.documents.reconciliations == before.documents.reconciliations
    &&& !checkpoint ==> after.documents.reconciliations.contains_key(revision_id)
    &&& after.catalog == (CatalogTables {
        payloads: changed(before.catalog.payloads, staging, payload_id, "finalized"@),
        digests: changed(before.catalog.digests, staging, payload_id, blake3),
        ..before.catalog
    })
    &&& after.documents.sessions == before.documents.sessions
    &&& after.documents.participants == before.documents.participants
    &&& after.rooms == before.rooms
    &&& after.media == before.media
}

/// Finalizing a draft gives it its content once: the revision that is returned is what the row
/// holds. It goes through under the session's fence, while the session is active. A revision that
/// is no draft any more is returned as it is, and nothing changes.
#[verifier::rlimit(80)]
pub proof fn drafts_are_finalized_once<'a>(
    tenant_id: Uuid,
    revision_id: Uuid,
    fencing_token: i64,
    size_bytes: i64,
    blake3: &'a [u8; 32],
    media_type: &'a str,
    log: Seq<Reply>,
    course: Course,
)
    requires
        crate::step::is_done(
            Database::finalize_document_revision_fault(
                fencing_token,
                size_bytes,
                media_type,
                log,
            ),
            Database::finalize_document_revision_script(
                tenant_id,
                revision_id,
                size_bytes,
                blake3,
                media_type,
                log,
            ),
            log,
        ),
        course.follows(
            Database::finalize_document_revision_script(
                tenant_id,
                revision_id,
                size_bytes,
                blake3,
                media_type,
                log,
            ),
            log,
        ),
    ensures
        ({
            let before = course.start();
            let after = course.end();
            let out = Database::finalize_document_revision_output(log);
            &&& is_finalizable(revision_id, fencing_token, course)
            &&& is_revision(out, revision_id, after.documents.revisions[revision_id])
            &&& before.documents.revisions[revision_id].state == "staging"@ ==> is_finalized(
                revision_id,
                size_bytes,
                blake3@,
                media_type@,
                course,
            )
            &&& before.documents.revisions[revision_id].state != "staging"@ ==> after == before
        }),
{
    reveal(means);
    reveal(FinalizableRevision::of_row);
    reveal(DocumentAuthorizationGenerations::of_row);
    reveal_strlit("checkpoint");
    reveal_strlit("staged");
    assert("checkpoint"@.len() == 10);
    assert("staged"@.len() == 6);
    let script = Database::finalize_document_revision_script(
        tenant_id,
        revision_id,
        size_bytes,
        blake3,
        media_type,
        log,
    );
    let before = course.start();
    let revision = before.documents.revisions[revision_id];
    assert(course.performs(script, log, 0));
    assert(course.performs(script, log, 1));
    assert(log[1].required_row::<FinalizableRevision>(DatabaseError::NotFound) is Ok);
    assert(first_row(log[1]) is Some);
    lemma_revision_is_read(first_row(log[1])->0, revision_id, revision);
    assert(course.clock[0] <= course.clock[1]);
    assert(course.performs(script, log, 2));
    assert(course.rows[3] == before);
    if revision.state != "staging"@ {
        assert(course.end() == course.rows[3]);
    } else {
        assert(course.performs(script, log, 3));
        assert(course.performs(script, log, 4));
        assert(course.performs(script, log, 5));
        assert(course.performs(script, log, 6));
        let at = if revision.kind == "checkpoint"@ {
            5int
        } else {
            4
        };
        assert(log[at].single_row::<DocumentRevisionRecord>() is Ok);
        assert(first_row(log[at]) is Some);
        let retained_until = choose|retained_until: Option<Moment>|
            {
                let row = #[trigger] with_content(
                    course.rows[at].documents.revisions[revision_id],
                    retained_until,
                    script[at]->params,
                );
                &&& retained_until is Some <==> script[at]->params[2]->Text_0@ == "checkpoint"@
                &&& course.rows[at + 1] == with_documents(
                    course.rows[at],
                    course.rows[at].documents.revised(true, revision_id, row),
                )
                &&& first_row(log[at]) matches Some(found) ==> is_revision_row(
                    found,
                    revision_id,
                    row,
                )
            };
        let row = with_content(
            course.rows[at].documents.revisions[revision_id],
            retained_until,
            script[at]->params,
        );
        lemma_revision_is_read(first_row(log[at])->0, revision_id, row);
        assert(course.end() == course.rows[7]);
        assert(course.rows[7].documents.revisions[revision_id] == row);
        assert(course.rows[7].documents.revisions.dom()
            =~= before.documents.revisions.dom());
        assert forall|id: Uuid| #[trigger]
            before.documents.revisions.contains_key(id) && id != revision_id implies ({
            let other = before.documents.revisions[id];
            let superseded = revision.kind == "checkpoint"@ && other.document_session_id
                == revision.document_session_id && other.state == "checkpoint"@;
            &&& superseded ==> course.rows[7].documents.revisions[id].state == "failed"@
            &&& !superseded ==> course.rows[7].documents.revisions[id] == other
        }) by {
            assert(course.rows[4].documents.revisions.contains_key(id));
        }
    }
}

} // verus!
