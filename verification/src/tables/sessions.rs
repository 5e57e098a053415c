//! The rows behind the opening of document sessions, and the law of what an opening leaves.

use vstd::prelude::*;

use crate::database::Database;
use crate::document::BaseVersion;
use crate::document::CreateDocumentSessionInput;
use crate::document::DocumentAuthorizationGenerations;
use crate::document::DocumentLaunchRecord;
use crate::document::DocumentSessionRecord;
use crate::document::OperationReceipt;
use crate::document::PlainParticipant;
use crate::error::DatabaseError;
use crate::error::Fault;
use crate::fence::FenceGenerations;
use crate::id::Uuid;
use crate::row::Reply;
use crate::row::Row;
use crate::sql::document as sql;
use crate::step::Param;
use crate::tables::answers;
use crate::tables::catalog::tells;
use crate::tables::catalog::AuditRow;
use crate::tables::catalog::CatalogTables;
use crate::tables::catalog::Fact;
use crate::tables::document::admits;
use crate::tables::document::DocumentTables;
use crate::tables::document::ParticipantRow;
use crate::tables::document::SessionRow;
use crate::tables::document_laws::fence_of;
use crate::tables::drafts::has_generations;
use crate::tables::first_row;
use crate::tables::has;
use crate::tables::has_number;
use crate::tables::has_optional_text;
use crate::tables::has_text;
use crate::tables::Course;
use crate::tables::Tables;

verus! {

/// Whether a participant counts against a provider's limit: present, in a session that is open,
/// with the times to reconnect not passed.
pub open spec fn is_counted(
    documents: DocumentTables,
    id: Uuid,
    provider_id: Seq<char>,
    now: int,
) -> bool {
    let participant = documents.participants[id];
    let session = documents.sessions[participant.document_session_id];
    &&& documents.participants.contains_key(id)
    &&& documents.sessions.contains_key(participant.document_session_id)
    &&& session.provider_id == provider_id
    &&& participant.state == "active"@ || participant.state == "disconnected"@
        && participant.disconnected_until is Some && participant.disconnected_until->0 > now
    &&& session.state == "active"@ || session.state == "draining"@ && session.reconnect_until > now
    &&& session.absolute_expires_at > now
}

/// The participants that count against a provider's limit.
pub open spec fn counted(documents: DocumentTables, provider_id: Seq<char>, now: int) -> Set<Uuid> {
    Set::new(|id: Uuid| is_counted(documents, id, provider_id, now))
}

/// Whether a session of a provider on a version of a node is open.
pub open spec fn is_joinable(
    documents: DocumentTables,
    id: Uuid,
    provider_id: Seq<char>,
    node_id: Uuid,
    base_version_id: Uuid,
) -> bool {
    let session = documents.sessions[id];
    &&& documents.sessions.contains_key(id)
    &&& session.provider_id == provider_id
    &&& session.node_id == node_id
    &&& session.base_version_id == base_version_id
    &&& crate::tables::document::is_open(session.state)
}

/// Whether a row of a reply is what a session holds.
pub open spec fn is_session_row(row: Row, id: Uuid, session: SessionRow) -> bool {
    &&& has::<Uuid>(row, "id"@, id)
    &&& has::<Uuid>(row, "session_principal_id"@, session.session_principal_id)
    &&& has::<Uuid>(row, "drive_id"@, session.drive_id)
    &&& has::<Uuid>(row, "node_id"@, session.node_id)
    &&& has::<Uuid>(row, "base_version_id"@, session.base_version_id)
    &&& has::<Uuid>(row, "expected_head_version_id"@, session.expected_head_version_id)
    &&& has_text(row, "provider_id"@, session.provider_id)
    &&& has_text(row, "state"@, session.state)
    &&& has_number(row, "fencing_token"@, session.fencing_token)
}

/// Whether a row of a reply is what a participant holds.
pub open spec fn is_participant_row(row: Row, id: Uuid, participant: ParticipantRow) -> bool {
    &&& has::<Uuid>(row, "id"@, id)
    &&& has::<Uuid>(row, "document_session_id"@, participant.document_session_id)
    &&& has::<Uuid>(row, "user_principal_id"@, participant.user_principal_id)
    &&& has::<Uuid>(row, "api_session_id"@, participant.api_session_id)
    &&& has_text(row, "mode"@, participant.mode)
    &&& has_text(row, "state"@, participant.state)
    &&& has_generations(row, participant.generations)
}

/// What the statements that open a session answer.
#[verifier::opaque]
pub open spec fn means<'a>(
    sql: &'static str,
    params: Seq<Param<'a>>,
    reply: Reply,
    now: int,
    before: Tables,
    after: Tables,
) -> bool {
    let documents = before.documents;
    let catalog = before.catalog;
    let id = params[1]->Id_0;
    &&& sql == sql::DOCUMENT_OPERATION_REPLAY_SELECT_ADVISORY_LOCK ==> after == before
    &&& sql == sql::CREATE_DOCUMENT_SESSION_COUNT_PARTICIPANTS && reply.single_row::<i64>() is Ok
        ==> reply.single_row::<i64>()->Ok_0 == counted(documents, params[1]->Text_0@, now).len()
    &&& sql == sql::CREATE_DOCUMENT_SESSION_SELECT_NODES ==> {
        let node = catalog.nodes[params[2]->Id_0];
        reply.optional_row::<Option<Uuid>>() == Ok::<Option<Option<Uuid>>, Fault>(
            if catalog.nodes.contains_key(params[2]->Id_0) && node.drive_id == id && node.kind
                == "file"@ && node.trash_root_id is None {
                Some(node.head_version_id)
            } else {
                None
            },
        )
    }
    &&& sql == sql::CREATE_DOCUMENT_SESSION_SELECT_FILE_VERSIONS ==> {
        let key = (id, params[2]->Id_0);
        &&& answers(reply, catalog.versions.contains_key(key))
        &&& first_row(reply) matches Some(row) ==> {
            &&& has::<i64>(row, "size_bytes"@, catalog.versions[key].size_bytes)
            &&& has_optional_text(row, "media_type"@, catalog.versions[key].media_type)
        }
    }
    &&& sql == sql::CREATE_DOCUMENT_SESSION_SELECT_SESSIONS ==> {
        let provider_id = params[1]->Text_0@;
        &&& reply is Rows
        &&& first_row(reply) is None ==> forall|other: Uuid|
            !(#[trigger] is_joinable(
                documents,
                other,
                provider_id,
                params[2]->Id_0,
                params[3]->Id_0,
            ))
        &&& first_row(reply) matches Some(row) ==> exists|other: Uuid| #[trigger]
            is_joinable(
                documents,
                other,
                provider_id,
                params[2]->Id_0,
                params[3]->Id_0,
            ) && is_session_row(row, other, documents.sessions[other])
    }
    &&& sql == sql::CREATE_DOCUMENT_SESSION_INSERT_SESSIONS ==> {
        &&& answers(reply, true)
        &&& first_row(reply) matches Some(row) ==> is_session_row(
            row,
            id,
            after.documents.sessions[id],
        )
    }
    &&& sql == sql::CREATE_DOCUMENT_SESSION_INSERT_PARTICIPANTS ==> {
        &&& answers(reply, true)
        &&& first_row(reply) matches Some(row) ==> exists|fresh: Uuid|
            {
                &&& !(#[trigger] documents.participants.contains_key(fresh))
                &&& after.documents.participants.contains_key(fresh)
                &&& is_participant_row(row, fresh, after.documents.participants[fresh])
            }
    }
    &&& sql == sql::CREATE_DOCUMENT_SESSION_SELECT_USERS ==> {
        &&& reply is Rows
        &&& first_row(reply) is Some && reply.single_row::<String>() is Ok ==> exists|
            user_id: Uuid,
        |
            {
                &&& #[trigger] catalog.users.contains_key(user_id)
                &&& catalog.users[user_id].principal_id == id
                &&& catalog.users[user_id].display_name == reply.single_row::<String>()->Ok_0@
            }
    }
}

/// Whether an opening may go on: the actor is authorized as when they were checked, the node is a
/// live file whose head is the version to edit, which is of a kind that can be edited and not too
/// large, and the provider has room for another participant.
pub open spec fn may_open<'a>(
    input: &'a CreateDocumentSessionInput<'a>,
    course: Course,
) -> bool {
    let catalog = course.start().catalog;
    let node = catalog.nodes[input.node_id];
    let base = catalog.versions[(input.node_id, input.base_version_id)];
    &&& catalog.permits(
        input.api_session_id,
        input.actor_principal_id,
        input.drive_id,
        input.node_id,
        fence_of(input.generations),
        course.clock[0],
    )
    &&& node.kind == "file"@
    &&& node.trash_root_id is None
    &&& node.head_version_id == Some(input.base_version_id)
    &&& catalog.versions.contains_key((input.node_id, input.base_version_id))
    &&& base.size_bytes <= input.maximum_document_bytes
    &&& base.media_type is Some
    &&& crate::document::is_editable_type(base.media_type->0)
    &&& counted(course.start().documents, input.provider_id@, course.clock[5]).len()
        < input.maximum_active_participants
}

/// The sessions once those whose time to reconnect has passed are expired.
pub open spec fn without_overdue<'a>(
    documents: DocumentTables,
    input: &'a CreateDocumentSessionInput<'a>,
    now: int,
) -> Map<Uuid, SessionRow> {
    documents.sessions.map_entries(
        |id: Uuid, row: SessionRow|
            if row.provider_id == input.provider_id@ && row.node_id == input.node_id
                && row.base_version_id == input.base_version_id && row.state == "draining"@
                && row.reconnect_until <= now {
                SessionRow {
                    state: "expired"@,
                    fencing_token: row.fencing_token + 1,
                    ..row
                }
            } else {
                row
            },
    )
}

#[verifier::rlimit(60)]
proof fn lemma_opening_may_go_on<'a>(
    input: &'a CreateDocumentSessionInput<'a>,
    log: Seq<Reply>,
    course: Course,
)
    requires
        crate::step::is_done(
            Database::create_document_session_fault(input, log),
            Database::create_document_session_script(input, log),
            log,
        ),
        course.follows(Database::create_document_session_script(input, log), log),
        !course.start().documents.receipts.contains_key(input.operation_digest@),
    ensures
        log.len() == 17 || log.len() == 20,
        log[2].optional_row::<OperationReceipt>() == Ok::<Option<OperationReceipt>, Fault>(None),
        may_open(input, course),
        course.rows[8] == course.start(),
{
    reveal(admits);
    reveal(means);
    reveal(crate::tables::catalog::means);
    reveal(BaseVersion::of_row);
    let script = Database::create_document_session_script(input, log);
    assert(course.performs(script, log, 0));
    assert(course.performs(script, log, 1));
    assert(course.performs(script, log, 2));
    let found = log[2].optional_row::<OperationReceipt>();
    assert(course.rows[2] == course.start());
    assert(found is Ok);
    assert(found->Ok_0 is None);
    assert(course.performs(script, log, 3));
    let fence = log[3].required_row::<FenceGenerations>(DatabaseError::StaleGeneration);
    assert(fence is Ok);
    assert(first_row(log[3]) is Some);
    let expected = input.generations.expected();
    assert(expected[0] == input.generations.membership);
    assert(expected[1] == input.generations.drive_acl);
    assert(expected[2] == input.generations.namespace);
    assert(expected[3] == input.generations.resource_acl);
    assert(course.clock[0] <= course.clock[3]);
    assert(course.performs(script, log, 4));
    assert(course.performs(script, log, 5));
    assert(course.performs(script, log, 6));
    assert(course.performs(script, log, 7));
    assert(first_row(log[7]) is Some);
}

/// What an opening leaves: a participant of the actor's, in the session that was open for the
/// provider on that version, or in a new one, which expects the version at the head. Sessions whose
/// time to reconnect has passed are expired. The launch that is returned is of that session and
/// that participant.
pub open spec fn is_opened<'a>(
    input: &'a CreateDocumentSessionInput<'a>,
    launch: DocumentLaunchRecord,
    course: Course,
) -> bool {
    let before = course.start();
    let after = course.end();
    let session_id = launch.session.id;
    let session = after.documents.sessions[session_id];
    let participant_id = launch.participant.id;
    let participant = after.documents.participants[participant_id];
    let kept = without_overdue(before.documents, input, course.clock[8]);
    &&& after.documents.sessions.contains_key(session_id)
    &&& session.provider_id == input.provider_id@
    &&& session.node_id == input.node_id
    &&& session.base_version_id == input.base_version_id
    &&& if before.documents.sessions.contains_key(session_id) {
        &&& crate::tables::document::is_open(session.state)
        &&& session.state != "draining"@
        &&& after.documents.sessions == kept
        &&& after.catalog.session_principals == before.catalog.session_principals
    } else {
        &&& forall|other: Uuid|
            !(#[trigger] is_joinable(
                DocumentTables { sessions: kept, ..before.documents },
                other,
                input.provider_id@,
                input.node_id,
                input.base_version_id,
            ))
        &&& session.created_by == input.actor_principal_id
        &&& session.drive_id == input.drive_id
        &&& session.expected_head_version_id == input.base_version_id
        &&& after.documents.sessions == kept.insert(session_id, session)
        &&& after.catalog.session_principals == before.catalog.session_principals.insert(
            session.session_principal_id,
        )
    }
    &&& launch.session.session_principal_id == session.session_principal_id
    &&& launch.session.drive_id == session.drive_id
    &&& launch.session.node_id == session.node_id
    &&& launch.session.base_version_id == session.base_version_id
    &&& launch.session.expected_head_version_id == session.expected_head_version_id
    &&& launch.session.provider_id@ == session.provider_id
    &&& launch.session.state@ == session.state
    &&& launch.session.fencing_token == session.fencing_token
    &&& launch.expires_at == launch.session.absolute_expires_at
    &&& launch.grant_id.value == 0
    &&& !before.documents.participants.contains_key(participant_id)
    &&& after.documents.participants == before.documents.participants.insert(
        participant_id,
        participant,
    )
    &&& participant.document_session_id == session_id
    &&& participant.user_principal_id == input.actor_principal_id
    &&& participant.api_session_id == input.api_session_id
    &&& participant.mode == input.mode@
    &&& participant.generations == input.generations
    &&& launch.participant.document_session_id == session_id
    &&& launch.participant.user_principal_id == input.actor_principal_id
    &&& launch.participant.api_session_id == input.api_session_id
    &&& launch.participant.mode@ == input.mode@
    &&& launch.participant.state@ == participant.state
    &&& launch.participant.generations == input.generations
    &&& exists|user_id: Uuid|
        {
            &&& #[trigger] before.catalog.users.contains_key(user_id)
            &&& before.catalog.users[user_id].principal_id == input.actor_principal_id
            &&& before.catalog.users[user_id].display_name == launch.participant.display_name@
        }
    &&& after.catalog.audit_events == before.catalog.audit_events.push(
        AuditRow {
            actor: Some(input.actor_principal_id),
            target: Some(session.session_principal_id),
            resource: Some(input.node_id),
            action: "document.session.create"@,
            outcome: "allowed"@,
            reason: "document_session_created"@,
            privacy_visible: true,
            details: seq![
                ("mode"@, Fact::Text(input.mode@)),
                ("provider_id"@, Fact::Text(input.provider_id@)),
            ],
        },
    )
    &&& tells(
        before.catalog,
        after.catalog,
        input.tenant_id,
        "filebelt.v1.document.session.changed"@,
        "document_session"@,
        session_id,
        launch.session.fencing_token,
        course,
    )
    &&& after.catalog == (CatalogTables {
        session_principals: after.catalog.session_principals,
        audit_events: after.catalog.audit_events,
        outbox_events: after.catalog.outbox_events,
        ..before.catalog
    })
    &&& after.documents.revisions == before.documents.revisions
    &&& after.documents.grants == before.documents.grants
    &&& after.documents.events == before.documents.events
}

/// The place of the participant's insertion in a script.
pub open spec fn joins_at(log: Seq<Reply>) -> int {
    log.len() - 7
}

#[verifier::rlimit(80)]
proof fn lemma_session_is_chosen<'a>(
    input: &'a CreateDocumentSessionInput<'a>,
    log: Seq<Reply>,
    course: Course,
)
    requires
        crate::step::is_done(
            Database::create_document_session_fault(input, log),
            Database::create_document_session_script(input, log),
            log,
        ),
        course.follows(Database::create_document_session_script(input, log), log),
        log.len() == 17 || log.len() == 20,
        log[2].optional_row::<OperationReceipt>() == Ok::<Option<OperationReceipt>, Fault>(None),
        course.rows[8] == course.start(),
    ensures
        ({
            let before = course.start();
            let after = course.rows[joins_at(log)];
            let launch = Database::create_document_session_output(log)->Created_0;
            let session_id = launch.session.id;
            let session = after.documents.sessions[session_id];
            let kept = without_overdue(before.documents, input, course.clock[8]);
            &&& Database::create_document_session_output(log) is Created
            &&& after.documents.sessions.contains_key(session_id)
            &&& session.provider_id == input.provider_id@
            &&& session.node_id == input.node_id
            &&& session.base_version_id == input.base_version_id
            &&& if before.documents.sessions.contains_key(session_id) {
                &&& crate::tables::document::is_open(session.state)
                &&& session.state != "draining"@
                &&& after.documents.sessions == kept
                &&& after.catalog.session_principals == before.catalog.session_principals
            } else {
                &&& forall|other: Uuid|
                    !(#[trigger] is_joinable(
                        DocumentTables { sessions: kept, ..before.documents },
                        other,
                        input.provider_id@,
                        input.node_id,
                        input.base_version_id,
                    ))
                &&& session.created_by == input.actor_principal_id
                &&& session.drive_id == input.drive_id
                &&& session.expected_head_version_id == input.base_version_id
                &&& after.documents.sessions == kept.insert(session_id, session)
                &&& after.catalog.session_principals == before.catalog.session_principals.insert(
                    session.session_principal_id,
                )
            }
            &&& launch.session.session_principal_id == session.session_principal_id
            &&& launch.session.drive_id == session.drive_id
            &&& launch.session.node_id == session.node_id
            &&& launch.session.base_version_id == session.base_version_id
            &&& launch.session.expected_head_version_id == session.expected_head_version_id
            &&& launch.session.provider_id@ == session.provider_id
            &&& launch.session.state@ == session.state
            &&& launch.session.fencing_token == session.fencing_token
            &&& after.documents == (DocumentTables {
                sessions: after.documents.sessions,
                ..before.documents
            })
            &&& after.catalog == (CatalogTables {
                session_principals: after.catalog.session_principals,
                ..before.catalog
            })
        }),
{
    reveal(admits);
    reveal(means);
    reveal(DocumentSessionRecord::of_row);
    let script = Database::create_document_session_script(input, log);
    let before = course.start();
    let kept = without_overdue(before.documents, input, course.clock[8]);
    assert(course.performs(script, log, 8));
    assert(course.rows[9].documents.sessions =~= kept);
    assert(course.rows[9].documents == (DocumentTables { sessions: kept, ..before.documents }));
    assert(course.performs(script, log, 9));
    let open = log[9].optional_row::<DocumentSessionRecord>()->Ok_0;
    assert(log[9].optional_row::<DocumentSessionRecord>() is Ok);
    if open is None {
        assert(first_row(log[9]) is None);
        assert(course.performs(script, log, 10));
        assert(course.performs(script, log, 11));
        assert(course.performs(script, log, 12));
        assert(first_row(log[12]) is Some);
        let id = script[12]->params[1]->Id_0;
        assert(!before.documents.sessions.contains_key(id)) by {
            assert(kept.dom() =~= before.documents.sessions.dom());
        }
        assert forall|other: Uuid|
            !(#[trigger] is_joinable(
                DocumentTables { sessions: kept, ..before.documents },
                other,
                input.provider_id@,
                input.node_id,
                input.base_version_id,
            )) by {
            assert(!is_joinable(
                course.rows[9].documents,
                other,
                script[9]->params[1]->Text_0@,
                script[9]->params[2]->Id_0,
                script[9]->params[3]->Id_0,
            ));
        }
    } else {
        assert(first_row(log[9]) is Some);
        let other = choose|other: Uuid| #[trigger]
            is_joinable(
                course.rows[9].documents,
                other,
                script[9]->params[1]->Text_0@,
                script[9]->params[2]->Id_0,
                script[9]->params[3]->Id_0,
            ) && is_session_row(
                first_row(log[9])->0,
                other,
                course.rows[9].documents.sessions[other],
            );
        assert(open->0.id == other);
        assert(kept.dom() =~= before.documents.sessions.dom());
    }
}

/// Opening a document makes the actor a participant of the one session of its provider on the
/// version at the head: of the open one, or of a new one where none is open. It goes through where
/// the actor is authorized as when they were checked, the version can be edited, and the provider
/// has room. What is returned is that session and that participant; one audit event and one outbox
/// event tell of it.
#[verifier::rlimit(100)]
pub proof fn openings_make_one_participant<'a>(
    input: &'a CreateDocumentSessionInput<'a>,
    log: Seq<Reply>,
    course: Course,
)
    requires
        crate::step::is_done(
            Database::create_document_session_fault(input, log),
            Database::create_document_session_script(input, log),
            log,
        ),
        course.follows(Database::create_document_session_script(input, log), log),
        !course.start().documents.receipts.contains_key(input.operation_digest@),
    ensures
        may_open(input, course),
        Database::create_document_session_output(log) is Created,
        is_opened(input, Database::create_document_session_output(log)->Created_0, course),
{
    lemma_opening_may_go_on(input, log, course);
    lemma_session_is_chosen(input, log, course);
    reveal(admits);
    reveal(means);
    reveal(crate::tables::catalog::means);
    reveal(PlainParticipant::of_row);
    reveal(DocumentAuthorizationGenerations::of_row);
    let script = Database::create_document_session_script(input, log);
    let at = joins_at(log);
    let launch = Database::create_document_session_output(log)->Created_0;
    assert(course.performs(script, log, at));
    assert(first_row(log[at]) is Some);
    let fresh = choose|fresh: Uuid|
        {
            &&& !(#[trigger] course.rows[at].documents.participants.contains_key(fresh))
            &&& course.rows[at + 1].documents.participants.contains_key(fresh)
            &&& is_participant_row(
                first_row(log[at])->0,
                fresh,
                course.rows[at + 1].documents.participants[fresh],
            )
        };
    assert(launch.participant.id == fresh);
    assert(course.performs(script, log, at + 1));
    assert(first_row(log[at + 1]) is Some);
    assert(course.performs(script, log, at + 2));
    assert(course.performs(script, log, at + 3));
    assert(course.performs(script, log, at + 4));
    assert(course.performs(script, log, at + 5));
    assert(course.performs(script, log, at + 6));
    assert(course.clock[0] <= course.clock[at + 3]);
    assert(course.clock[at + 3] <= course.clock[at + 6]);
    assert(course.end() == course.rows[at + 7]);
}

} // verus!
