use std::sync::Arc;

use filebelt_database::database::Database;
use filebelt_database::document::document_participant_can_write;
use filebelt_database::document::BeginDocumentRevisionInput;
use filebelt_database::document::CreateDocumentSessionInput;
use filebelt_database::document::DocumentAuthorizationGenerations;
use filebelt_database::document::DocumentCommitResult;
use filebelt_database::document::NormalizedName;
use filebelt_database::document::ReceiveDocumentCallbackInput;
use filebelt_database::document::Recorded;
use filebelt_database::document::DOCUMENT_MAX_ACTIVE_PARTICIPANTS;
use filebelt_database::document::DOCUMENT_MAX_BYTES;
use filebelt_database::document_page::page_limit;
use filebelt_database::document_page::DocumentSessionPageAnchor;
use filebelt_database::document_page::ListDocumentSessionsForNodeInput;
use filebelt_database::error::DatabaseError;
use filebelt_database::id::render_label;
use filebelt_database::id::Uuid;
use filebelt_database::json::Json;
use filebelt_database::row::Cell;
use filebelt_database::row::Column;
use filebelt_database::row::Reply;
use filebelt_database::row::Row;
use filebelt_database::sql::catalog;
use filebelt_database::sql::document as sql;
use filebelt_database::step::Command;
use filebelt_database::step::Param;
use filebelt_database::step::Step;

fn id(value: u128) -> Uuid {
    Uuid { value }
}

fn text(value: &str) -> Cell {
    Cell::Text(value.to_owned())
}

fn bytes(value: &[u8]) -> Cell {
    Cell::Bytes(Arc::new(value.to_vec()))
}

fn row(columns: Vec<(&str, Cell)>) -> Row {
    Row {
        columns: columns
            .into_iter()
            .map(|(name, cell)| Column {
                name: name.to_owned(),
                cell,
            })
            .collect(),
    }
}

fn one(columns: Vec<(&str, Cell)>) -> Reply {
    Reply::Rows(vec![row(columns)])
}

fn nothing() -> Reply {
    Reply::Rows(Vec::new())
}

/// What a step asks for, in one word or as the statement itself.
fn shown<T>(step: Step<'_, T>) -> &'static str {
    match step {
        Step::Ask(Command::Begin) => "begin",
        Step::Ask(Command::Commit) => "commit",
        Step::Ask(Command::Rollback) => "rollback",
        Step::Ask(Command::DrawIds(_)) => "draw",
        Step::Ask(Command::Query(query)) => query.sql,
        Step::Done(_) => "done",
        Step::Fail(error) => error.message(),
        Step::Malformed => "malformed",
    }
}

/// The steps of an operation, from its start to the end of the log.
fn trace<F: Fn(&[Reply]) -> &'static str>(operation: F, log: &[Reply]) -> Vec<&'static str> {
    (0..=log.len()).map(|count| operation(&log[..count])).collect()
}

const TENANT: Uuid = Uuid { value: 1 };
const SESSION: Uuid = Uuid { value: 2 };
const PARTICIPANT: Uuid = Uuid { value: 3 };
const DRIVE: Uuid = Uuid { value: 4 };
const NODE: Uuid = Uuid { value: 5 };
const HEAD: Uuid = Uuid { value: 6 };
const PAYLOAD: Uuid = Uuid { value: 7 };
const REVISION: Uuid = Uuid { value: 8 };
const USER: Uuid = Uuid { value: 9 };
const API_SESSION: Uuid = Uuid { value: 10 };

fn generations() -> DocumentAuthorizationGenerations {
    DocumentAuthorizationGenerations {
        membership: 11,
        drive_acl: 12,
        namespace: 13,
        resource_acl: 14,
    }
}

fn generation_columns(resource_acl: i64) -> Vec<(&'static str, Cell)> {
    vec![
        ("membership_generation", Cell::I64(11)),
        ("drive_acl_generation", Cell::I64(12)),
        ("namespace_generation", Cell::I64(13)),
        ("resource_acl_generation", Cell::I64(resource_acl)),
    ]
}

fn fence(resource_acl: i64) -> Reply {
    one(generation_columns(resource_acl))
}

fn participant(mode: &str) -> Reply {
    let mut columns = generation_columns(14);
    columns.extend(vec![
        ("user_principal_id", Cell::Id(USER)),
        ("api_session_id", Cell::Id(API_SESSION)),
        ("mode", text(mode)),
        ("drive_id", Cell::Id(DRIVE)),
        ("node_id", Cell::Id(NODE)),
        ("expected_head_version_id", Cell::Id(HEAD)),
        ("media_type", text("text/plain")),
        ("fencing_token", Cell::I64(70)),
    ]);
    one(columns)
}

fn revision_columns(state: &str) -> Vec<(&'static str, Cell)> {
    vec![
        ("id", Cell::Id(REVISION)),
        ("document_session_id", Cell::Id(SESSION)),
        ("actor_participant_id", Cell::Id(PARTICIPANT)),
        ("kind", text("user_save")),
        ("state", text(state)),
        ("expected_head_version_id", Cell::Id(HEAD)),
        ("payload_id", Cell::Id(PAYLOAD)),
        ("reserved_bytes", Cell::I64(100)),
        ("size_bytes", Cell::I64(90)),
        ("blake3", bytes(&[7; 32])),
        ("media_type", text("text/plain")),
        ("committed_version_id", Cell::Id(id(40))),
        ("retained_until", text("later")),
    ]
}

fn committable(mode: &str, state: &str) -> Reply {
    let mut columns = revision_columns(state);
    columns.extend(generation_columns(14));
    columns.extend(vec![
        ("session_principal_id", Cell::Id(id(41))),
        ("drive_id", Cell::Id(DRIVE)),
        ("node_id", Cell::Id(NODE)),
        ("session_state", text("active")),
        ("session_unexpired", Cell::Bool(true)),
        ("user_principal_id", Cell::Id(USER)),
        ("api_session_id", Cell::Id(API_SESSION)),
        ("mode", text(mode)),
    ]);
    one(columns)
}

fn head(version: Uuid, digest: u8) -> Reply {
    one(vec![
        ("head_version_id", Cell::Id(version)),
        ("size_bytes", Cell::I64(90)),
        ("blake3", bytes(&[digest; 32])),
        ("ordinal", Cell::I64(4)),
    ])
}

fn rejectable(state: &str) -> Reply {
    let mut columns = generation_columns(14);
    columns.extend(vec![
        ("document_session_id", Cell::Id(SESSION)),
        ("state", text(state)),
        ("payload_id", Cell::Id(PAYLOAD)),
        ("reserved_bytes", Cell::I64(100)),
        ("drive_id", Cell::Id(DRIVE)),
        ("node_id", Cell::Id(NODE)),
        ("session_state", text("active")),
        ("session_unexpired", Cell::Bool(true)),
        ("user_principal_id", Cell::Id(USER)),
        ("api_session_id", Cell::Id(API_SESSION)),
    ]);
    one(columns)
}

const DIGEST: [u8; 32] = [9; 32];
const FINGERPRINT: [u8; 32] = [8; 32];

fn callback(
    callback_kind: &'static str,
    revision_kind: Option<&'static str>,
    activity: Option<&'static str>,
) -> ReceiveDocumentCallbackInput<'static> {
    ReceiveDocumentCallbackInput {
        tenant_id: TENANT,
        document_session_id: SESSION,
        participant_id: PARTICIPANT,
        provider_event_digest: &DIGEST,
        callback_kind,
        revision_kind,
        activity,
    }
}

fn event(kind: &str) -> Reply {
    one(vec![
        ("id", Cell::Id(id(50))),
        ("participant_id", Cell::Id(PARTICIPANT)),
        ("event_kind", text(kind)),
        ("mode", text("edit")),
    ])
}

fn received(kind: &str) -> Reply {
    one(vec![
        ("id", Cell::Id(REVISION)),
        ("document_session_id", Cell::Id(SESSION)),
        ("actor_participant_id", Cell::Id(PARTICIPANT)),
        ("provider_event_digest", bytes(&DIGEST)),
        ("kind", text(kind)),
        ("media_type", text("text/plain")),
        ("state", text("received")),
    ])
}

fn create_input() -> CreateDocumentSessionInput<'static> {
    CreateDocumentSessionInput {
        tenant_id: TENANT,
        actor_principal_id: USER,
        api_session_id: API_SESSION,
        drive_id: DRIVE,
        node_id: NODE,
        base_version_id: HEAD,
        provider_id: "provider",
        mode: "edit",
        generations: generations(),
        maximum_active_participants: 20,
        maximum_document_bytes: 1_000,
        operation_digest: &DIGEST,
        request_fingerprint: &FINGERPRINT,
    }
}

fn receipt(fingerprint: &[u8], kind: &str) -> Reply {
    one(vec![
        ("request_fingerprint", bytes(fingerprint)),
        ("command_kind", text(kind)),
        ("response", Cell::Json(Arc::new(Json::Bool(true)))),
    ])
}

#[test]
fn limits_match_the_reviewed_public_beta_profile() {
    assert_eq!(DOCUMENT_MAX_ACTIVE_PARTICIPANTS, 20);
    assert_eq!(DOCUMENT_MAX_BYTES, 104_857_600);
}

#[test]
fn commit_outcomes_are_explicit() {
    let committed = DocumentCommitResult::Committed {
        version_id: Uuid::nil(),
    };
    assert!(matches!(committed, DocumentCommitResult::Committed { .. }));
}

#[test]
fn callback_and_revision_fences_are_derived_from_the_participant_record() {
    assert!(sql::RECEIVE_DOCUMENT_CALLBACK_SELECT_PARTICIPANTS.contains("p.membership_generation"));
    assert!(sql::RECEIVE_DOCUMENT_CALLBACK_SELECT_PARTICIPANTS.contains("b.media_type"));
    let input = callback("editing", None, Some("connected"));
    let receive = |log: &[Reply]| shown(Database::receive_document_callback(&input, log));
    // The generations that the fence must agree with are the participant's own.
    let current = [Reply::Ack, nothing(), participant("edit"), fence(14)];
    assert_eq!(receive(&current), sql::RECEIVE_DOCUMENT_CALLBACK_INSERT_SESSION_EVENTS);
    let moved = [Reply::Ack, nothing(), participant("edit"), fence(15)];
    assert_eq!(receive(&moved), DatabaseError::StaleGeneration.message());

    assert!(sql::BEGIN_DOCUMENT_REVISION_SELECT_PARTICIPANTS.contains("p.membership_generation"));
    let begin_input = BeginDocumentRevisionInput {
        tenant_id: TENANT,
        document_session_id: SESSION,
        participant_id: PARTICIPANT,
        provider_event_digest: &DIGEST,
        kind: "user_save",
        reserved_bytes: 100,
        media_type: "application/vnd.openxmlformats-officedocument.spreadsheetml.sheet",
    };
    let begin = |log: &[Reply]| shown(Database::begin_document_revision(&begin_input, log));
    let begun = [Reply::Ack, participant("edit"), fence(14)];
    assert_eq!(begin(&begun), sql::BEGIN_DOCUMENT_REVISION_SELECT_REVISIONS);
    let stale = [Reply::Ack, participant("edit"), fence(15)];
    assert_eq!(begin(&stale), DatabaseError::StaleGeneration.message());

    assert!(sql::COMMIT_DOCUMENT_REVISION_SELECT_REVISIONS.contains("p.membership_generation"));
    let commit =
        |log: &[Reply]| shown(Database::commit_document_revision(TENANT, REVISION, log));
    let staged = [Reply::Ack, committable("edit", "staged"), fence(14)];
    assert_eq!(commit(&staged), sql::COMMIT_DOCUMENT_REVISION_SELECT_NODES);
    let overtaken = [Reply::Ack, committable("edit", "staged"), fence(15)];
    assert_eq!(commit(&overtaken), DatabaseError::StaleGeneration.message());
}

#[test]
fn retention_reclaims_only_unreferenced_expired_document_outputs_and_metadata() {
    let unfinished = sql::DOCUMENT_REVISION_RETENTION_SWEEP_SELECT_REVISIONS;
    assert!(unfinished.contains("r.state IN ('received','staging')"));
    assert!(unfinished.contains("s.absolute_expires_at<=clock_timestamp()"));
    assert!(sql::DOCUMENT_REVISION_RETENTION_SWEEP_UPDATE_PAYLOAD_OBJECTS
        .contains("state='delete_intent'"));
    let ended = sql::DOCUMENT_REVISION_RETENTION_SWEEP_SELECT_REVISIONS_2;
    assert!(ended.contains("'checkpoint','conflict','rejected','failed','no_op'"));
    assert!(ended.contains("p.state='finalized'"));
    assert!(sql::BOUNDED_DOCUMENT_METADATA_DELETE_DELETE_OPERATION_RECEIPTS
        .contains("operation_receipts"));
    assert!(sql::BOUNDED_DOCUMENT_METADATA_DELETE_DELETE_SESSION_EVENTS.contains("session_events"));
    assert!(sql::BOUNDED_DOCUMENT_METADATA_DELETE_DELETE_LAUNCH_GRANTS.contains("launch_grants"));

    let swept = |payload: Cell| {
        row(vec![
            ("id", Cell::Id(REVISION)),
            ("payload_id", payload),
            ("reserved_bytes", Cell::I64(100)),
            ("drive_id", Cell::Id(DRIVE)),
        ])
    };
    let log = [
        Reply::Ack,
        Reply::Rows(vec![swept(Cell::Id(PAYLOAD)), swept(Cell::Null)]),
        Reply::Count(1),
        Reply::Count(1),
        Reply::Count(1),
        Reply::Count(1),
        Reply::Count(1),
        Reply::Rows(vec![swept(Cell::Id(PAYLOAD))]),
        Reply::Count(1),
        Reply::Count(1),
        Reply::Count(0),
        Reply::Count(1),
        Reply::Count(1),
        Reply::Count(5),
        Reply::Count(6),
        Reply::Count(7),
        Reply::Ack,
    ];
    let sweep =
        |log: &[Reply]| shown(Database::document_revision_retention_sweep(TENANT, 10, log));
    assert_eq!(
        trace(sweep, &log),
        vec![
            "begin",
            sql::DOCUMENT_REVISION_RETENTION_SWEEP_SELECT_REVISIONS,
            sql::DOCUMENT_REVISION_RETENTION_SWEEP_UPDATE_PAYLOAD_OBJECTS,
            sql::DOCUMENT_REVISION_RETENTION_SWEEP_UPDATE_DRIVES,
            sql::DOCUMENT_REVISION_RETENTION_SWEEP_UPDATE_REVISIONS,
            sql::DOCUMENT_REVISION_RETENTION_SWEEP_INSERT_JOBS,
            sql::DOCUMENT_REVISION_RETENTION_SWEEP_UPDATE_REVISIONS_2,
            sql::DOCUMENT_REVISION_RETENTION_SWEEP_SELECT_REVISIONS_2,
            sql::RELEASE_DOCUMENT_PAYLOAD_UPDATE_PAYLOAD_OBJECTS,
            sql::DOCUMENT_REVISION_RETENTION_SWEEP_UPDATE_DRIVES,
            sql::DOCUMENT_REVISION_RETENTION_SWEEP_INSERT_JOBS,
            sql::DOCUMENT_REVISION_RETENTION_SWEEP_UPDATE_REVISIONS_3,
            sql::COMMIT_DOCUMENT_REVISION_UPDATE_RECONCILIATION_JOBS,
            sql::BOUNDED_DOCUMENT_METADATA_DELETE_DELETE_LAUNCH_GRANTS,
            sql::BOUNDED_DOCUMENT_METADATA_DELETE_DELETE_SESSION_EVENTS,
            sql::BOUNDED_DOCUMENT_METADATA_DELETE_DELETE_OPERATION_RECEIPTS,
            "commit",
            "done",
        ]
    );
    match Database::document_revision_retention_sweep(TENANT, 10, &log[..5]) {
        Step::Ask(Command::Query(query)) => match query.params[3] {
            Param::Label(prefix, payload) => assert_eq!(
                render_label(prefix, payload),
                "document-expire:00000000-0000-0000-0000-000000000007"
            ),
            _ => panic!("the job has a key"),
        },
        _ => panic!("the deletion is queued"),
    }
    match Database::document_revision_retention_sweep(TENANT, 10, &log) {
        Step::Done(report) => {
            assert_eq!(report.received_abandoned, 1);
            assert_eq!(report.staging_abandoned, 1);
            assert_eq!(report.terminal_revisions_released, 1);
            assert_eq!(report.payload_deletions_enqueued, 1);
            assert_eq!(report.launch_grants_purged, 5);
            assert_eq!(report.session_events_purged, 6);
            assert_eq!(report.operation_receipts_purged, 7);
        }
        _ => panic!("the sweep is done"),
    }
    let stale = [
        Reply::Ack,
        Reply::Rows(vec![swept(Cell::Id(PAYLOAD))]),
        Reply::Count(0),
    ];
    assert_eq!(sweep(&stale), DatabaseError::StaleGeneration.message());
    assert_eq!(
        shown(Database::document_revision_retention_sweep(TENANT, 1_001, &[])),
        DatabaseError::InvalidPersistedValue.message()
    );
}

#[test]
fn staging_cleanup_requires_durable_final_bytes() {
    assert!(sql::DOCUMENT_FINALIZED_STAGING_LOCATORS
        .contains("p.state IN ('finalized','referenced')"));
    assert!(sql::DOCUMENT_FINALIZED_STAGING_LOCATORS
        .contains("'checkpoint','committed','no_op','conflict'"));
    assert_eq!(
        shown(Database::document_finalized_staging_locators(TENANT, id(30), 10, &[])),
        sql::DOCUMENT_FINALIZED_STAGING_LOCATORS
    );
}

#[test]
fn finalization_holds_the_exact_authorization_projection_and_rejection_releases_once() {
    let mut columns = generation_columns(14);
    columns.extend(vec![
        ("fencing_token", Cell::I64(70)),
        ("session_state", text("active")),
        ("session_unexpired", Cell::Bool(true)),
        ("drive_id", Cell::Id(DRIVE)),
        ("node_id", Cell::Id(NODE)),
        ("user_principal_id", Cell::Id(USER)),
        ("api_session_id", Cell::Id(API_SESSION)),
    ]);
    columns.extend(revision_columns("staging"));
    let finalize = |log: &[Reply]| {
        shown(Database::finalize_document_revision(
            TENANT,
            REVISION,
            70,
            90,
            &DIGEST,
            "application/vnd.openxmlformats-officedocument.wordprocessingml.document",
            log,
        ))
    };
    // The fence finds no projection: the authorization has changed.
    let log = [
        Reply::Ack,
        one(columns),
        nothing(),
        Reply::Count(1),
        one(revision_columns("staged")),
        Reply::Count(1),
        Reply::Ack,
    ];
    assert_eq!(
        trace(finalize, &log),
        vec![
            "begin",
            sql::FINALIZE_DOCUMENT_REVISION_SELECT_REVISIONS,
            sql::LOCK_DOCUMENT_AUTHORIZATION_FENCE,
            sql::FINALIZE_DOCUMENT_REVISION_UPDATE_PAYLOAD_OBJECTS,
            sql::FINALIZE_DOCUMENT_REVISION_UPDATE_REVISIONS_2,
            sql::FINALIZE_DOCUMENT_REVISION_INSERT_RECONCILIATION_JOBS,
            "commit",
            DatabaseError::StaleGeneration.message(),
        ]
    );
    assert!(sql::FINALIZE_DOCUMENT_REVISION_INSERT_RECONCILIATION_JOBS
        .contains("reconciliation_jobs"));

    let reject = |log: &[Reply]| {
        shown(Database::reject_document_revision_for_authorization_change(
            TENANT, REVISION, log,
        ))
    };
    let log = [
        Reply::Ack,
        rejectable("staged"),
        fence(15),
        Reply::Count(1),
        Reply::Count(1),
        Reply::Count(1),
        Reply::Count(1),
        Reply::Count(1),
        Reply::Count(2),
        Reply::Count(1),
        Reply::Ack,
    ];
    assert_eq!(
        trace(reject, &log),
        vec![
            "begin",
            sql::REJECT_DOCUMENT_REVISION_FOR_AUTHORIZATION_CHANGE_SELECT_REVISIONS,
            catalog::LOCK_AUTHORIZATION_FENCE,
            sql::RELEASE_DOCUMENT_PAYLOAD_UPDATE_PAYLOAD_OBJECTS,
            sql::DOCUMENT_REVISION_RETENTION_SWEEP_UPDATE_DRIVES,
            sql::DOCUMENT_REVISION_RETENTION_SWEEP_INSERT_JOBS,
            sql::REJECT_DOCUMENT_REVISION_FOR_AUTHORIZATION_CHANGE_UPDATE_REVISIONS,
            sql::REJECT_DOCUMENT_REVISION_FOR_AUTHORIZATION_CHANGE_UPDATE_RECONCILIATION_JOBS,
            sql::REJECT_DOCUMENT_REVISION_FOR_AUTHORIZATION_CHANGE_UPDATE_PARTICIPANTS,
            sql::REJECT_DOCUMENT_REVISION_FOR_AUTHORIZATION_CHANGE_UPDATE_SESSIONS,
            "commit",
            "done",
        ]
    );
    assert!(sql::REJECT_DOCUMENT_REVISION_FOR_AUTHORIZATION_CHANGE_UPDATE_REVISIONS
        .contains("state='rejected'"));
    assert!(sql::REJECT_DOCUMENT_REVISION_FOR_AUTHORIZATION_CHANGE_UPDATE_SESSIONS
        .contains("fencing_token=fencing_token+1"));
    // A settled revision is left alone.
    for state in ["checkpoint", "committed", "no_op", "conflict", "rejected", "failed"] {
        let settled = [Reply::Ack, rejectable(state), Reply::Ack];
        assert_eq!(trace(reject, &settled)[2..], ["commit", "done"]);
    }
    // One whose authorization still holds is not rejected.
    let current = [Reply::Ack, rejectable("staged"), fence(14)];
    assert_eq!(reject(&current), DatabaseError::Conflict.message());
}

#[test]
fn callback_events_are_digest_idempotent_and_allocate_revisions_only_for_output() {
    assert!(sql::RECEIVE_DOCUMENT_CALLBACK_SELECT_SESSION_EVENTS.contains("session_events"));
    assert!(sql::RECEIVE_DOCUMENT_CALLBACK_SELECT_SESSION_EVENTS.contains("provider_event_digest"));
    let output = callback("output_required", Some("user_save"), None);
    let receive = |log: &[Reply]| shown(Database::receive_document_callback(&output, log));
    let log = [
        Reply::Ack,
        nothing(),
        participant("edit"),
        fence(14),
        one(vec![("id", Cell::Id(id(51)))]),
        Reply::Count(1),
        received("user_save"),
        Reply::Ack,
    ];
    assert_eq!(
        trace(receive, &log),
        vec![
            "begin",
            sql::RECEIVE_DOCUMENT_CALLBACK_SELECT_SESSION_EVENTS,
            sql::RECEIVE_DOCUMENT_CALLBACK_SELECT_PARTICIPANTS,
            catalog::LOCK_AUTHORIZATION_FENCE,
            sql::RECEIVE_DOCUMENT_CALLBACK_INSERT_SESSION_EVENTS,
            sql::RECEIVE_DOCUMENT_CALLBACK_UPDATE_PARTICIPANTS_3,
            sql::RECEIVE_DOCUMENT_CALLBACK_INSERT_REVISIONS,
            "commit",
            "done",
        ]
    );
    let repeated = [Reply::Ack, event("output_required"), received("user_save"), Reply::Ack];
    assert_eq!(
        trace(receive, &repeated),
        vec![
            "begin",
            sql::RECEIVE_DOCUMENT_CALLBACK_SELECT_SESSION_EVENTS,
            sql::RECEIVED_DOCUMENT_REVISION_BY_DIGEST,
            "commit",
            "done",
        ]
    );
    // The same digest with another kind of event is a conflict.
    let mixed = [Reply::Ack, event("editing")];
    assert_eq!(receive(&mixed), DatabaseError::Conflict.message());
    // A close without changes allocates no revision.
    let closed = callback("closed_no_changes", None, None);
    let close = |log: &[Reply]| shown(Database::receive_document_callback(&closed, log));
    let log = [
        Reply::Ack,
        nothing(),
        participant("view"),
        fence(14),
        one(vec![("id", Cell::Id(id(51)))]),
        Reply::Count(1),
        Reply::Count(1),
        Reply::Ack,
    ];
    assert_eq!(trace(close, &log)[7..], ["commit", "done"]);
    let again = [Reply::Ack, event("closed_no_changes"), Reply::Ack];
    assert_eq!(trace(close, &again)[2..], ["commit", "done"]);
}

#[test]
fn editing_callbacks_use_a_bounded_reconnect_state_machine() {
    for activity in ["connected", "disconnected"] {
        let input = callback("editing", None, Some(activity));
        assert_eq!(shown(Database::receive_document_callback(&input, &[])), "begin");
    }
    let unknown = callback("editing", None, Some("unknown"));
    assert_eq!(
        shown(Database::receive_document_callback(&unknown, &[])),
        DatabaseError::InvalidPersistedValue.message()
    );
    let silent = callback("editing", None, None);
    assert_eq!(
        shown(Database::receive_document_callback(&silent, &[])),
        DatabaseError::InvalidPersistedValue.message()
    );
    assert!(sql::RECEIVE_DOCUMENT_CALLBACK_UPDATE_PARTICIPANTS_2
        .contains("interval '100 seconds'"));
    assert!(sql::RECEIVE_DOCUMENT_CALLBACK_UPDATE_SESSIONS_2.contains("state='draining'"));
    assert!(sql::RECEIVE_DOCUMENT_CALLBACK_UPDATE_SESSIONS
        .contains("state='active',fencing_token=fencing_token+1"));

    let sweep = |log: &[Reply]| shown(Database::document_reconnect_sweep(TENANT, 10, log));
    let log = [Reply::Ack, Reply::Count(0), Reply::Count(0), Reply::Ack];
    assert_eq!(
        trace(sweep, &log),
        vec![
            "begin",
            sql::DOCUMENT_RECONNECT_SWEEP_UPDATE_PARTICIPANTS,
            sql::DOCUMENT_RECONNECT_SWEEP_UPDATE_SESSIONS,
            "commit",
            "done",
        ]
    );
    // A session's own deadline counts only while it drains.
    assert!(sql::DOCUMENT_RECONNECT_SWEEP_UPDATE_PARTICIPANTS.contains(
        "(p.disconnected_until<=clock_timestamp() OR \
         (s.state='draining' AND s.reconnect_until<=clock_timestamp()))"
    ));
    assert!(sql::DOCUMENT_RECONNECT_SWEEP_UPDATE_SESSIONS.contains("reconnect_deadline_elapsed"));
    assert!(sql::DOCUMENT_RECONNECT_SWEEP_UPDATE_SESSIONS.contains("state='draining'"));
    assert!(sql::DOCUMENT_RECONNECT_SWEEP_UPDATE_SESSIONS
        .contains("fencing_token=fencing_token+1"));
}

#[test]
fn duplicate_editing_connect_reapplies_activity_after_transient_disconnect() {
    let input = callback("editing", None, Some("connected"));
    let receive = |log: &[Reply]| shown(Database::receive_document_callback(&input, log));
    let log = [
        Reply::Ack,
        event("editing"),
        participant("edit"),
        fence(14),
        one(vec![("id", Cell::Id(id(50)))]),
        Reply::Count(1),
        Reply::Count(1),
        Reply::Ack,
    ];
    assert_eq!(
        trace(receive, &log),
        vec![
            "begin",
            sql::RECEIVE_DOCUMENT_CALLBACK_SELECT_SESSION_EVENTS,
            sql::RECEIVE_DOCUMENT_CALLBACK_SELECT_PARTICIPANTS,
            catalog::LOCK_AUTHORIZATION_FENCE,
            sql::RECEIVE_DOCUMENT_CALLBACK_INSERT_SESSION_EVENTS,
            sql::RECEIVE_DOCUMENT_CALLBACK_UPDATE_PARTICIPANTS,
            sql::RECEIVE_DOCUMENT_CALLBACK_UPDATE_SESSIONS,
            "commit",
            "done",
        ]
    );
    assert!(sql::RECEIVE_DOCUMENT_CALLBACK_UPDATE_SESSIONS
        .contains("state='active',fencing_token=fencing_token+1"));
    assert!(sql::RECEIVE_DOCUMENT_CALLBACK_SELECT_PARTICIPANTS
        .contains("state IN ('active','draining')"));
}

#[test]
fn create_operations_persist_and_replay_a_bound_response_without_a_launch_token() {
    let input = create_input();
    let create = |log: &[Reply]| shown(Database::create_document_session(&input, log));
    let log = [Reply::Ack, Reply::Count(1), receipt(&FINGERPRINT, "create_session"), Reply::Ack];
    assert_eq!(
        trace(create, &log),
        vec![
            "begin",
            sql::DOCUMENT_OPERATION_REPLAY_SELECT_ADVISORY_LOCK,
            sql::DOCUMENT_OPERATION_REPLAY_SELECT_OPERATION_RECEIPTS,
            "commit",
            "done",
        ]
    );
    match Database::create_document_session(&input, &log) {
        Step::Done(Recorded::Replayed(response)) => assert!(matches!(*response, Json::Bool(true))),
        _ => panic!("the stored response is replayed"),
    }
    let other_request = [Reply::Ack, Reply::Count(1), receipt(&DIGEST, "create_session")];
    assert_eq!(create(&other_request), DatabaseError::Conflict.message());
    let other_kind = [Reply::Ack, Reply::Count(1), receipt(&FINGERPRINT, "conflict_copy")];
    assert_eq!(create(&other_kind), DatabaseError::Conflict.message());
    assert!(sql::DOCUMENT_OPERATION_RECORD.contains("operation_receipts"));

    let display = "Report".to_owned();
    let name = NormalizedName {
        display: &display,
        comparison_key: "report",
    };
    let copy = |log: &[Reply]| {
        shown(Database::create_document_conflict_copy(
            TENANT,
            SESSION,
            USER,
            API_SESSION,
            id(60),
            13,
            generations(),
            Some(&name),
            &DIGEST,
            &FINGERPRINT,
            log,
        ))
    };
    let log = [Reply::Ack, Reply::Count(1), receipt(&FINGERPRINT, "conflict_copy"), Reply::Ack];
    assert_eq!(trace(copy, &log)[3..], ["commit", "done"]);
    assert!(sql::CREATE_DOCUMENT_CONFLICT_COPY_INSERT_NODES
        .contains("name_key,owner_principal_id"));
    assert!(sql::DOCUMENT_OPERATION_REPLAY_SELECT_ADVISORY_LOCK.contains("pg_advisory_xact_lock"));
    assert_eq!(
        shown(Database::create_document_conflict_copy(
            TENANT,
            SESSION,
            USER,
            API_SESSION,
            id(60),
            13,
            generations(),
            None,
            &DIGEST,
            &FINGERPRINT,
            &[],
        )),
        DatabaseError::InvalidPersistedValue.message()
    );
}

#[test]
fn a_participant_has_one_consumable_provider_launch_lifetime() {
    assert!(sql::ISSUE_DOCUMENT_LAUNCH_GRANT_EXISTS_LAUNCH_GRANTS
        .contains("consumed_at IS NOT NULL"));
    assert!(sql::ISSUE_DOCUMENT_LAUNCH_GRANT_DELETE_LAUNCH_GRANTS
        .contains("AND consumed_at IS NULL"));
    assert!(sql::ISSUE_DOCUMENT_LAUNCH_GRANT_SELECT_PARTICIPANTS.contains("FOR UPDATE OF p,s"));
    let issue = |log: &[Reply]| {
        shown(Database::issue_document_launch_grant(
            TENANT,
            SESSION,
            USER,
            API_SESSION,
            &DIGEST,
            log,
        ))
    };
    let consumed = [
        Reply::Ack,
        one(vec![("id", Cell::Id(PARTICIPANT))]),
        one(vec![("exists", Cell::Bool(true))]),
    ];
    let steps = trace(issue, &consumed);
    assert_eq!(steps[1], sql::ISSUE_DOCUMENT_LAUNCH_GRANT_SELECT_PARTICIPANTS);
    assert_eq!(steps[2], sql::ISSUE_DOCUMENT_LAUNCH_GRANT_EXISTS_LAUNCH_GRANTS);
    assert_eq!(steps[3], DatabaseError::Conflict.message());
    // A consumed grant outlives its participant's stay, so that the promise does too.
    assert!(sql::BOUNDED_DOCUMENT_METADATA_DELETE_DELETE_LAUNCH_GRANTS.contains(
        "AND NOT (g.consumed_at IS NOT NULL AND EXISTS (SELECT 1 \
         FROM filebelt_document.participants p WHERE p.tenant_id=g.tenant_id \
         AND p.id=g.participant_id AND p.state IN ('active','disconnected')))"
    ));
}

#[test]
fn view_participants_are_rejected_at_every_durable_write_boundary() {
    let output = callback("output_required", Some("user_save"), None);
    let announced = [Reply::Ack, nothing(), participant("view"), fence(14)];
    assert_eq!(
        shown(Database::receive_document_callback(&output, &announced)),
        DatabaseError::Conflict.message()
    );

    assert!(sql::BEGIN_DOCUMENT_REVISION_SELECT_PARTICIPANTS.contains("p.mode"));
    let input = BeginDocumentRevisionInput {
        tenant_id: TENANT,
        document_session_id: SESSION,
        participant_id: PARTICIPANT,
        provider_event_digest: &DIGEST,
        kind: "user_save",
        reserved_bytes: 100,
        media_type: "application/vnd.openxmlformats-officedocument.wordprocessingml.document",
    };
    let begun = [Reply::Ack, participant("view")];
    assert_eq!(
        shown(Database::begin_document_revision(&input, &begun)),
        DatabaseError::Conflict.message()
    );

    assert!(sql::COMMIT_DOCUMENT_REVISION_SELECT_REVISIONS.contains("p.mode"));
    let committed = [Reply::Ack, committable("view", "staged")];
    assert_eq!(
        shown(Database::commit_document_revision(TENANT, REVISION, &committed)),
        DatabaseError::Conflict.message()
    );
    assert!(!document_participant_can_write("view"));
    assert!(!document_participant_can_write("unknown"));
    for mode in ["comment", "review", "edit"] {
        assert!(document_participant_can_write(mode));
    }
}

fn list_input() -> ListDocumentSessionsForNodeInput {
    ListDocumentSessionsForNodeInput {
        tenant_id: TENANT,
        actor_principal_id: USER,
        api_session_id: API_SESSION,
        drive_id: DRIVE,
        node_id: NODE,
        generations: generations(),
        limit: 2,
        anchor: None,
    }
}

#[test]
fn node_manager_list_holds_the_exact_authorization_generation_fence() {
    let input = list_input();
    let list = |log: &[Reply]| shown(Database::list_document_sessions_for_node(&input, log));
    let log = [Reply::Ack, fence(14), nothing(), Reply::Ack];
    assert_eq!(
        trace(list, &log),
        vec![
            "begin",
            catalog::LOCK_AUTHORIZATION_FENCE,
            sql::LIST_DOCUMENT_SESSIONS_FOR_NODE,
            "commit",
            "done",
        ]
    );
    match Database::list_document_sessions_for_node(&input, &log[..1]) {
        Step::Ask(Command::Query(query)) => {
            assert!(matches!(query.params[1], Param::Id(session) if session == API_SESSION));
            assert!(matches!(query.params[2], Param::Id(actor) if actor == USER));
        }
        _ => panic!("the fence is locked next"),
    }
    assert_eq!(generations().as_array(), [11, 12, 13, 14]);
    let stale = [Reply::Ack, fence(13)];
    assert_eq!(list(&stale), DatabaseError::StaleGeneration.message());
}

fn listed(session: Uuid, created: i64, participant: Uuid) -> Row {
    let mut columns = generation_columns(14);
    columns.extend(vec![
        ("participant_id", Cell::Id(participant)),
        ("document_session_id", Cell::Id(session)),
        ("user_principal_id", Cell::Id(USER)),
        ("api_session_id", Cell::Id(API_SESSION)),
        ("mode", text("edit")),
        ("participant_state", text("active")),
        ("display_name", text("Name")),
        ("participant_created_at", text("then")),
        ("last_activity_at", text("now")),
        ("disconnected_until", Cell::Null),
        ("id", Cell::Id(session)),
        ("session_principal_id", Cell::Id(id(41))),
        ("drive_id", Cell::Id(DRIVE)),
        ("node_id", Cell::Id(NODE)),
        ("base_version_id", Cell::Id(HEAD)),
        ("expected_head_version_id", Cell::Id(HEAD)),
        ("provider_id", text("provider")),
        ("state", text("active")),
        ("fencing_token", Cell::I64(1)),
        ("created_at", text("then")),
        ("created_at_unix_microseconds", Cell::I64(created)),
        ("absolute_expires_at", text("later")),
        ("reconnect_until", text("soon")),
        ("closed_at", Cell::Null),
        ("close_reason", Cell::Null),
        ("conflict_head_version_id", Cell::Null),
        ("grant_expires_at", text("later")),
    ]);
    row(columns)
}

#[test]
fn a_page_keeps_sessions_whole() {
    let log = [Reply::Rows(vec![
        listed(id(101), 30, id(1)),
        listed(id(101), 30, id(2)),
        listed(id(102), 20, id(3)),
        listed(id(103), 10, id(4)),
        listed(id(102), 20, id(5)),
    ])];
    match Database::list_document_sessions_for_principal(TENANT, USER, 2, None, &log) {
        Step::Done(page) => {
            let participants: Vec<Uuid> =
                page.launches.iter().map(|launch| launch.participant.id).collect();
            assert_eq!(participants, vec![id(1), id(2), id(3), id(5)]);
            assert!(page.launches.iter().all(|launch| launch.grant_id == Uuid::nil()));
            assert_eq!(
                page.next_anchor,
                Some(DocumentSessionPageAnchor {
                    created_at_unix_microseconds: 20,
                    session_id: id(102),
                })
            );
        }
        _ => panic!("the page is read"),
    }
    match Database::list_document_sessions_for_principal(TENANT, USER, 3, None, &log) {
        Step::Done(page) => {
            assert_eq!(page.launches.len(), 5);
            assert_eq!(page.next_anchor, None);
        }
        _ => panic!("the page is read"),
    }
    match Database::list_document_sessions_for_principal(
        TENANT,
        USER,
        2,
        Some(DocumentSessionPageAnchor {
            created_at_unix_microseconds: 20,
            session_id: id(102),
        }),
        &[],
    ) {
        Step::Ask(Command::Query(query)) => {
            assert!(matches!(query.params[2], Param::OptI64(Some(20))));
            assert!(matches!(query.params[3], Param::OptId(Some(session)) if session == id(102)));
            assert!(matches!(query.params[4], Param::I64(3)));
        }
        _ => panic!("the page is asked for"),
    }
    assert_eq!(page_limit(0), Err(DatabaseError::InvalidPersistedValue));
    assert_eq!(page_limit(200), Ok(200));
    assert_eq!(page_limit(201), Err(DatabaseError::InvalidPersistedValue));
    assert_eq!(
        shown(Database::document_session_for_principal(TENANT, USER, SESSION, &[nothing()])),
        DatabaseError::NotFound.message()
    );
}

#[test]
fn commits_move_the_head_or_report_a_conflict() {
    let commit =
        |log: &[Reply]| shown(Database::commit_document_revision(TENANT, REVISION, log));
    let mut log = vec![
        Reply::Ack,
        committable("edit", "staged"),
        fence(14),
        head(HEAD, 1),
        Reply::Ids(vec![id(70)]),
    ];
    for _ in 0..9 {
        log.push(Reply::Count(1));
    }
    log.push(Reply::Count(1));
    log.push(one(vec![("seconds", Cell::I64(1_700_000_000))]));
    log.push(Reply::Count(1));
    log.push(Reply::Ack);
    let steps = trace(commit, &log);
    assert_eq!(steps[5], sql::COMMIT_DOCUMENT_REVISION_INSERT_FILE_VERSIONS);
    assert_eq!(steps[steps.len() - 2..], ["commit", "done"]);
    assert!(matches!(
        Database::commit_document_revision(TENANT, REVISION, &log),
        Step::Done(DocumentCommitResult::Committed { version_id }) if version_id == id(70)
    ));
    let moved = [
        Reply::Ack,
        committable("edit", "staged"),
        fence(14),
        head(id(99), 1),
        one(vec![("retained_until", text("in a week"))]),
    ];
    let steps = trace(commit, &moved);
    assert_eq!(steps[4], sql::MARK_DOCUMENT_CONFLICT_UPDATE_REVISIONS);
    assert_eq!(steps[5], sql::MARK_DOCUMENT_CONFLICT_UPDATE_SESSIONS);
    let same_bytes = [Reply::Ack, committable("edit", "staged"), fence(14), head(HEAD, 7)];
    assert_eq!(commit(&same_bytes), sql::RELEASE_DOCUMENT_PAYLOAD_UPDATE_PAYLOAD_OBJECTS);
    let settled = [Reply::Ack, committable("edit", "committed")];
    assert!(matches!(
        Database::commit_document_revision(TENANT, REVISION, &settled),
        Step::Done(DocumentCommitResult::Committed { version_id }) if version_id == id(40)
    ));
    let received = [Reply::Ack, committable("edit", "received")];
    assert_eq!(commit(&received), DatabaseError::Conflict.message());
    assert_eq!(
        commit(&[Reply::Ack, nothing()]),
        DatabaseError::NotFound.message()
    );
    assert_eq!(commit(&[Reply::Ack, Reply::Ack]), "malformed");
}

#[test]
fn a_recorded_deletion_is_not_recorded_again() {
    let complete =
        |log: &[Reply]| shown(Database::complete_document_payload_deletion(TENANT, PAYLOAD, log));
    let again = [Reply::Ack, one(vec![("state", text("deleted"))]), Reply::Ack];
    assert_eq!(trace(complete, &again)[2..], ["commit", "done"]);
    let first = [
        Reply::Ack,
        one(vec![("state", text("deleting"))]),
        Reply::Count(1),
        Reply::Ack,
    ];
    assert_eq!(
        trace(complete, &first)[2..],
        [
            sql::COMPLETE_DOCUMENT_PAYLOAD_DELETION_UPDATE_PAYLOAD_OBJECTS,
            "commit",
            "done",
        ]
    );
    let live = [Reply::Ack, one(vec![("state", text("finalized"))])];
    assert_eq!(complete(&live), DatabaseError::StaleGeneration.message());
}

#[test]
fn projections_for_io_leave_out_who_and_when() {
    let mut columns = revision_columns("staged");
    columns.extend(generation_columns(14));
    columns.extend(vec![
        ("session_id", Cell::Id(SESSION)),
        ("session_principal_id", Cell::Id(id(41))),
        ("drive_id", Cell::Id(DRIVE)),
        ("node_id", Cell::Id(NODE)),
        ("base_version_id", Cell::Id(HEAD)),
        ("session_expected_head_version_id", Cell::Id(HEAD)),
        ("provider_id", text("provider")),
        ("session_state", text("active")),
        ("fencing_token", Cell::I64(1)),
        ("session_created_at", text("then")),
        ("session_absolute_expires_at", text("later")),
        ("session_reconnect_until", text("soon")),
        ("session_close_reason", Cell::Null),
        ("participant_id", Cell::Id(PARTICIPANT)),
        ("participant_document_session_id", Cell::Id(SESSION)),
        ("user_principal_id", Cell::Id(USER)),
        ("api_session_id", Cell::Id(API_SESSION)),
        ("mode", text("edit")),
        ("participant_state", text("active")),
        ("last_activity_at", text("now")),
        ("disconnected_until", Cell::Null),
        ("base_payload_id", Cell::Id(PAYLOAD)),
        ("base_size_bytes", Cell::I64(10)),
    ]);
    match Database::document_revision_io_context(TENANT, REVISION, &[one(columns)]) {
        Step::Done(context) => {
            assert_eq!(context.participant.display_name, "");
            assert_eq!(context.participant.created_at, "");
            assert_eq!(context.participant.mode, "edit");
            assert_eq!(context.session.created_at_unix_microseconds, 0);
            assert_eq!(context.base_payload_id, PAYLOAD);
        }
        _ => panic!("the context is complete"),
    }
    let mut columns = generation_columns(14);
    columns.extend(vec![
        ("id", Cell::Id(SESSION)),
        ("session_principal_id", Cell::Id(id(41))),
        ("drive_id", Cell::Id(DRIVE)),
        ("node_id", Cell::Id(NODE)),
        ("base_version_id", Cell::Id(HEAD)),
        ("expected_head_version_id", Cell::Id(HEAD)),
        ("provider_id", text("provider")),
        ("state", text("active")),
        ("fencing_token", Cell::I64(1)),
        ("created_at", text("then")),
        ("absolute_expires_at", text("later")),
        ("reconnect_until", text("soon")),
        ("close_reason", Cell::Null),
        ("document_session_id", Cell::Id(SESSION)),
        ("user_principal_id", Cell::Id(USER)),
        ("api_session_id", Cell::Id(API_SESSION)),
        ("mode", text("view")),
        ("last_activity_at", text("now")),
        ("disconnected_until", Cell::Null),
        ("display_name", text("Name")),
        ("base_payload_id", Cell::Id(PAYLOAD)),
        ("base_size_bytes", Cell::I64(10)),
        ("base_media_type", text("type")),
        ("source_display_name", text("Source")),
    ]);
    match Database::document_launch_io_context(TENANT, SESSION, PARTICIPANT, &[one(columns)]) {
        Step::Done(context) => {
            assert_eq!(context.participant.display_name, "Name");
            assert_eq!(context.participant.created_at, "");
            assert_eq!(context.source_display_name, "Source");
        }
        _ => panic!("the context is complete"),
    }
}
