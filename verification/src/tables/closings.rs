//! The rows behind document sessions that are ended by hand, and laws about what it leaves.

use vstd::prelude::*;

use crate::database::Database;
use crate::document::ForceCloseDocumentSessionInput;
use crate::document::SessionOfParticipant;
use crate::document::SessionPlace;
use crate::error::DatabaseError;
use crate::fence::FenceGenerations;
use crate::id::Uuid;
use crate::row::Reply;
use crate::sql::document as sql;
use crate::step::Param;
use crate::tables::answers;
use crate::tables::catalog::AuditRow;
use crate::tables::catalog::CatalogTables;
use crate::tables::catalog::Fact;
use crate::tables::changed;
use crate::tables::document::is_open;
use crate::tables::document::is_present;
use crate::tables::document::with_documents;
use crate::tables::document::DocumentTables;
use crate::tables::document::ParticipantRow;
use crate::tables::document::SessionRow;
use crate::tables::document_laws::fence_of;
use crate::tables::first_row;
use crate::tables::has;
use crate::tables::Course;
use crate::tables::Tables;

verus! {

/// Whether a session stands there open.
pub open spec fn is_open_session(documents: DocumentTables, id: Uuid) -> bool {
    documents.sessions.contains_key(id) && is_open(documents.sessions[id].state)
}

/// A session once it is revoked: its fence moves on.
pub open spec fn revoked(session: SessionRow) -> SessionRow {
    SessionRow { state: "revoked"@, fencing_token: session.fencing_token + 1, ..session }
}

/// Whether a participant is present in a session.
pub open spec fn is_present_in(documents: DocumentTables, id: Uuid, session_id: Uuid) -> bool {
    &&& documents.participants.contains_key(id)
    &&& documents.participants[id].document_session_id == session_id
    &&& is_present(documents.participants[id].state)
}

/// The participants once those who are present in a session have left it.
pub open spec fn emptied(
    documents: DocumentTables,
    session_id: Uuid,
) -> Map<Uuid, ParticipantRow> {
    documents.participants.map_entries(
        |id: Uuid, row: ParticipantRow|
            if is_present_in(documents, id, session_id) {
                ParticipantRow { state: "closed"@, ..row }
            } else {
                row
            },
    )
}

/// Whether nobody is present in a session.
pub open spec fn is_deserted(documents: DocumentTables, session_id: Uuid) -> bool {
    forall|id: Uuid| !#[trigger] is_present_in(documents, id, session_id)
}

/// What the statements that end sessions by hand do.
#[verifier::opaque]
pub open spec fn means<'a>(
    sql: &'static str,
    params: Seq<Param<'a>>,
    reply: Reply,
    now: int,
    before: Tables,
    after: Tables,
) -> bool {
    let documents = before.documents;
    let id = params[1]->Id_0;
    &&& sql == sql::FORCE_CLOSE_DOCUMENT_SESSION_SELECT_SESSIONS ==> {
        &&& after == before
        &&& answers(reply, is_open_session(documents, id))
        &&& first_row(reply) matches Some(row) ==> {
            &&& has::<Uuid>(row, "drive_id"@, documents.sessions[id].drive_id)
            &&& has::<Uuid>(row, "node_id"@, documents.sessions[id].node_id)
        }
    }
    &&& sql == sql::FORCE_CLOSE_DOCUMENT_SESSION_UPDATE_SESSIONS ==> {
        let hit = is_open_session(documents, id);
        &&& answers(reply, hit)
        &&& after == with_documents(
            before,
            DocumentTables {
                sessions: changed(documents.sessions, hit, id, revoked(documents.sessions[id])),
                ..documents
            },
        )
    }
    &&& sql == sql::FORCE_CLOSE_DOCUMENT_SESSION_UPDATE_PARTICIPANTS ==> after
        == with_documents(
        before,
        DocumentTables { participants: emptied(documents, id), ..documents },
    )
    &&& sql == sql::REVOKE_DOCUMENT_PARTICIPANT_UPDATE_PARTICIPANTS ==> {
        let row = documents.participants[id];
        let hit = documents.participants.contains_key(id) && row.user_principal_id
            == params[2]->Id_0 && is_present(row.state);
        &&& answers(reply, hit)
        &&& after == with_documents(
            before,
            DocumentTables {
                participants: changed(
                    documents.participants,
                    hit,
                    id,
                    ParticipantRow { state: "revoked"@, ..row },
                ),
                ..documents
            },
        )
        &&& first_row(reply) matches Some(found) ==> has::<Uuid>(
            found,
            "document_session_id"@,
            row.document_session_id,
        )
    }
    &&& sql == sql::REVOKE_DOCUMENT_PARTICIPANT_UPDATE_SESSIONS ==> after == with_documents(
        before,
        DocumentTables {
            sessions: changed(
                documents.sessions,
                is_open_session(documents, id) && is_deserted(documents, id),
                id,
                revoked(documents.sessions[id]),
            ),
            ..documents
        },
    )
}

/// A session that is closed by hand is revoked under the next fence, and everyone who was present
/// in it has left; other sessions and their participants stay. It goes through where the session is
/// open on the node that was named, and the actor may act on that node as when it asked. The log of
/// events names the actor and the reason.
#[verifier::rlimit(40)]
pub proof fn closed_sessions_lose_their_participants<'a>(
    input: &'a ForceCloseDocumentSessionInput<'a>,
    log: Seq<Reply>,
    course: Course,
)
    requires
        crate::step::is_done(
            Database::force_close_document_session_fault(input, log),
            Database::force_close_document_session_script(input, log),
            log,
        ),
        course.follows(Database::force_close_document_session_script(input, log), log),
    ensures
        ({
            let before = course.start();
            let documents = before.documents;
            let session = documents.sessions[input.session_id];
            &&& Database::force_close_document_session_output(log)
            &&& is_open_session(documents, input.session_id)
            &&& session.drive_id == input.drive_id
            &&& session.node_id == input.node_id
            &&& before.catalog.permits(
                input.api_session_id,
                input.actor_principal_id,
                session.drive_id,
                session.node_id,
                fence_of(input.generations),
                course.clock[0],
            )
            &&& is_deserted(course.end().documents, input.session_id)
            &&& course.end() == (Tables {
                documents: DocumentTables {
                    sessions: documents.sessions.insert(input.session_id, revoked(session)),
                    participants: emptied(documents, input.session_id),
                    ..documents
                },
                catalog: CatalogTables {
                    audit_events: before.catalog.audit_events.push(
                        AuditRow {
                            actor: Some(input.actor_principal_id),
                            target: None,
                            resource: None,
                            action: "document.session.force_close"@,
                            outcome: "allowed"@,
                            reason: input.reason@,
                            privacy_visible: true,
                            details: seq![("document_session_id"@, Fact::Id(input.session_id))],
                        },
                    ),
                    ..before.catalog
                },
                ..before
            })
        }),
{
    reveal(means);
    reveal(crate::tables::catalog::means);
    reveal(SessionPlace::of_row);
    let script = Database::force_close_document_session_script(input, log);
    assert(course.performs(script, log, 0));
    assert(course.performs(script, log, 1));
    assert(log[1].required_row::<SessionPlace>(DatabaseError::NotFound) is Ok);
    assert(first_row(log[1]) is Some);
    assert(course.performs(script, log, 2));
    let fence = log[2].required_row::<FenceGenerations>(DatabaseError::StaleGeneration);
    assert(fence is Ok);
    assert(first_row(log[2]) is Some);
    let expected = input.generations.expected();
    assert(expected[0] == fence->Ok_0.membership);
    assert(expected[1] == fence->Ok_0.drive_acl);
    assert(expected[2] == fence->Ok_0.namespace);
    assert(expected[3] == fence->Ok_0.resource_acl);
    assert(course.clock[0] <= course.clock[2]);
    assert(course.performs(script, log, 3));
    assert(first_row(log[3]) is Some);
    assert(log[3].optional_row::<()>()->Ok_0 is Some);
    assert(course.performs(script, log, 4));
    assert(course.performs(script, log, 5));
    assert(course.performs(script, log, 6));
    assert(course.end() == course.rows[7]);
    reveal_strlit("closed");
    reveal_strlit("active");
    reveal_strlit("disconnected");
    assert("closed"@.len() != "disconnected"@.len());
    assert("closed"@[0] != "active"@[0]);
    let documents = course.start().documents;
    assert(emptied(course.rows[4].documents, input.session_id) =~= emptied(
        documents,
        input.session_id,
    ));
    assert forall|id: Uuid| !#[trigger] is_present_in(
        course.end().documents,
        id,
        input.session_id,
    ) by {
        if documents.participants.contains_key(id) {
            assert(emptied(documents, input.session_id).contains_key(id));
        }
    }
    assert(course.end().catalog.audit_events.last().details =~= seq![
        ("document_session_id"@, Fact::Id(input.session_id)),
    ]);
}

/// A participant leaves a session for good when it is revoked by the one whom it stands for. The
/// session is revoked with the last one who was present, and stays as it is while another one is.
/// Where there is no such participant, nothing changes.
#[verifier::rlimit(40)]
pub proof fn participants_withdraw_only_themselves<'a>(
    tenant_id: Uuid,
    participant_id: Uuid,
    actor_principal_id: Uuid,
    reason: &'a str,
    log: Seq<Reply>,
    course: Course,
)
    requires
        crate::step::is_done(
            Database::revoke_document_participant_fault(reason, log),
            Database::revoke_document_participant_script(
                tenant_id,
                participant_id,
                actor_principal_id,
                reason,
                log,
            ),
            log,
        ),
        course.follows(
            Database::revoke_document_participant_script(
                tenant_id,
                participant_id,
                actor_principal_id,
                reason,
                log,
            ),
            log,
        ),
    ensures
        ({
            let before = course.start();
            let documents = before.documents;
            let row = documents.participants[participant_id];
            let session_id = row.document_session_id;
            let hit = Database::revoke_document_participant_output(log);
            let left = DocumentTables {
                participants: documents.participants.insert(
                    participant_id,
                    ParticipantRow { state: "revoked"@, ..row },
                ),
                ..documents
            };
            &&& hit <==> documents.participants.contains_key(participant_id)
                && row.user_principal_id
                == actor_principal_id && is_present(row.state)
            &&& !hit ==> course.end() == before
            &&& hit ==> course.end() == (Tables {
                documents: DocumentTables {
                    sessions: changed(
                        documents.sessions,
                        is_open_session(documents, session_id) && is_deserted(left, session_id),
                        session_id,
                        revoked(documents.sessions[session_id]),
                    ),
                    ..left
                },
                catalog: CatalogTables {
                    audit_events: before.catalog.audit_events.push(
                        AuditRow {
                            actor: Some(actor_principal_id),
                            target: None,
                            resource: None,
                            action: "document.participant.revoke"@,
                            outcome: "allowed"@,
                            reason: reason@,
                            privacy_visible: true,
                            details: seq![
                                ("participant_id"@, Fact::Id(participant_id)),
                                ("document_session_id"@, Fact::Id(session_id)),
                            ],
                        },
                    ),
                    ..before.catalog
                },
                ..before
            })
        }),
{
    reveal(means);
    reveal(crate::tables::catalog::means);
    reveal(SessionOfParticipant::of_row);
    let script = Database::revoke_document_participant_script(
        tenant_id,
        participant_id,
        actor_principal_id,
        reason,
        log,
    );
    assert(course.performs(script, log, 0));
    assert(course.performs(script, log, 1));
    let found = log[1].optional_row::<SessionOfParticipant>();
    assert(found is Ok);
    assert(course.performs(script, log, 2));
    if found->Ok_0 is Some {
        assert(first_row(log[1]) is Some);
        assert(course.performs(script, log, 3));
        assert(course.performs(script, log, 4));
        assert(course.end() == course.rows[5]);
        assert(course.end().catalog.audit_events.last().details =~= seq![
            ("participant_id"@, Fact::Id(participant_id)),
            (
                "document_session_id"@,
                Fact::Id(course.start().documents.participants[participant_id].document_session_id),
            ),
        ]);
    } else {
        assert(first_row(log[1]) is None);
        assert(course.end() == course.rows[3]);
    }
}

} // verus!
