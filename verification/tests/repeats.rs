use std::sync::Arc;

use filebelt_database::collaboration::CollaborationAuthorizationContext;
use filebelt_database::collaboration::CollaborationAuthorizationGenerations;
use filebelt_database::database::Database;
use filebelt_database::error::DatabaseError;
use filebelt_database::id::Uuid;
use filebelt_database::media::AdmitMediaPreviewInput;
use filebelt_database::media::PublishMediaManifestInput;
use filebelt_database::media::StartMediaAttemptInput;
use filebelt_database::row::Cell;
use filebelt_database::row::Column;
use filebelt_database::row::Reply;
use filebelt_database::row::Row;
use filebelt_database::sql::catalog;
use filebelt_database::sql::collaboration;
use filebelt_database::sql::document;
use filebelt_database::sql::media;
use filebelt_database::step::Command;
use filebelt_database::step::Param;
use filebelt_database::step::Step;

const TENANT: Uuid = Uuid { value: 1 };
const DRIVE: Uuid = Uuid { value: 2 };
const NODE: Uuid = Uuid { value: 3 };
const PARENT: Uuid = Uuid { value: 4 };
const USER: Uuid = Uuid { value: 5 };
const SESSION: Uuid = Uuid { value: 6 };
const OBJECT: Uuid = Uuid { value: 7 };
const DIGEST: [u8; 32] = [8; 32];
const OTHER_DIGEST: [u8; 32] = [9; 32];

fn id(value: u128) -> Uuid {
    Uuid { value }
}

fn text(value: &str) -> Cell {
    Cell::Text(value.to_owned())
}

fn bytes(value: &[u8]) -> Cell {
    Cell::Bytes(Arc::new(value.to_vec()))
}

fn one(columns: Vec<(&str, Cell)>) -> Reply {
    Reply::Rows(vec![Row {
        columns: columns
            .into_iter()
            .map(|(name, cell)| Column {
                name: name.to_owned(),
                cell,
            })
            .collect(),
    }])
}

fn nothing() -> Reply {
    Reply::Rows(Vec::new())
}

/// What a step asks for, in one word or as the statement itself.
fn shown<T>(step: Step<'_, T>) -> &'static str {
    match step {
        Step::Ask(Command::Begin) => "begin",
        Step::Ask(Command::Commit) => "commit",
        Step::Ask(Command::Rollback) => "rollback",
        Step::Ask(Command::DrawIds(_)) => "draw",
        Step::Ask(Command::Query(query)) => query.sql,
        Step::Done(_) => "done",
        Step::Fail(error) => error.message(),
        Step::Malformed => "malformed",
    }
}

/// The steps of an operation, from its start to the end of the log.
fn trace<F: Fn(&[Reply]) -> &'static str>(operation: F, log: &[Reply]) -> Vec<&'static str> {
    (0..=log.len()).map(|count| operation(&log[..count])).collect()
}

fn fence() -> Reply {
    one(vec![
        ("membership_generation", Cell::I64(11)),
        ("drive_acl_generation", Cell::I64(12)),
        ("namespace_generation", Cell::I64(13)),
        ("resource_acl_generation", Cell::I64(14)),
    ])
}

fn candidate(generation: i64, root: Cell) -> Reply {
    one(vec![
        ("parent_id", Cell::Id(PARENT)),
        ("namespace_generation", Cell::I64(generation)),
        ("trash_root_id", root),
        ("trash_retention_days", Cell::I32(30)),
    ])
}

fn node(generation: i64, root: Cell) -> Reply {
    one(vec![
        ("id", Cell::Id(NODE)),
        ("drive_id", Cell::Id(DRIVE)),
        ("parent_id", Cell::Id(PARENT)),
        ("kind", text("file")),
        ("display_name", text("Report")),
        ("name_key", text("report")),
        ("head_version_id", Cell::Null),
        ("namespace_generation", Cell::I64(generation)),
        ("acl_generation", Cell::I64(1)),
        ("trash_root_id", root),
        ("updated_at_text", text("now")),
        ("size_bytes", Cell::Null),
        ("version_ordinal", Cell::Null),
        ("head_media_type", Cell::Null),
    ])
}

#[test]
fn a_trashed_node_is_restored_under_the_generation_that_trashing_left() {
    let trash = [
        Reply::Ack,
        fence(),
        candidate(20, Cell::Null),
        Reply::Count(3),
        one(vec![("namespace_generation", Cell::I64(40))]),
        Reply::Count(1),
        one(vec![("extract", Cell::I64(1_800_000_000))]),
        Reply::Count(1),
        Reply::Ack,
        node(21, Cell::Id(NODE)),
    ];
    let generation = match Database::trash_node(
        TENANT, USER, SESSION, DRIVE, NODE, 20, 11, 12, 13, 14, &trash,
    ) {
        Step::Done(node) => {
            assert!(node.trashed);
            node.namespace_generation
        }
        _ => panic!("the node is trashed"),
    };
    let restore = [
        Reply::Ack,
        fence(),
        candidate(generation, Cell::Id(NODE)),
        one(vec![("exists", Cell::Bool(true))]),
        Reply::Count(3),
        one(vec![("namespace_generation", Cell::I64(41))]),
        Reply::Count(1),
        one(vec![("extract", Cell::I64(1_800_000_001))]),
        Reply::Count(1),
        Reply::Ack,
        node(22, Cell::Null),
    ];
    let run = |expected: i64, log: &[Reply]| {
        shown(Database::restore_node(
            TENANT, USER, SESSION, DRIVE, NODE, expected, 11, 12, 13, 14, log,
        ))
    };
    let steps = trace(|log: &[Reply]| run(generation, log), &restore);
    assert_eq!(steps[3], catalog::SET_NODE_TRASH_STATE_EXISTS_NODES);
    assert_eq!(steps[4], catalog::SET_NODE_TRASH_STATE_UPDATE_NODES_2);
    assert_eq!(steps[11], "done");
    match Database::restore_node(
        TENANT, USER, SESSION, DRIVE, NODE, generation, 11, 12, 13, 14, &restore,
    ) {
        Step::Done(node) => {
            assert!(!node.trashed);
            assert_eq!(node.namespace_generation, generation + 1);
            assert_eq!(node.parent_id, Some(PARENT));
            assert_eq!(node.display_name, "Report");
        }
        _ => panic!("the node is restored"),
    }
    assert_eq!(run(20, &restore[..3]), DatabaseError::StaleGeneration.message());
}

#[test]
fn an_orphan_is_accounted_for_once() {
    let delete =
        |log: &[Reply]| shown(Database::complete_orphan_payload_deletion(TENANT, id(30), log));
    let first = [
        Reply::Ack,
        one(vec![
            ("upload_id", Cell::Id(id(31))),
            ("drive_id", Cell::Id(DRIVE)),
            ("declared_size_bytes", Cell::I64(900)),
        ]),
        Reply::Count(1),
        Reply::Count(1),
        Reply::Count(1),
        Reply::Count(1),
        Reply::Ack,
    ];
    match Database::complete_orphan_payload_deletion(TENANT, id(30), &first[..5]) {
        Step::Ask(Command::Query(query)) => {
            assert_eq!(query.sql, catalog::COMPLETE_ORPHAN_PAYLOAD_DELETION_UPDATE_DRIVES);
            assert!(matches!(query.params[2], Param::I64(900)));
        }
        _ => panic!("the bytes return"),
    }
    assert_eq!(delete(&first), "done");
    let again = [Reply::Ack, nothing()];
    assert_eq!(delete(&again), DatabaseError::StaleGeneration.message());
}

#[test]
fn a_snapshot_never_covers_less_than_the_one_before() {
    let authorization = CollaborationAuthorizationContext {
        principal_id: USER,
        session_id: SESSION,
        drive_id: DRIVE,
        node_id: NODE,
        generations: CollaborationAuthorizationGenerations {
            membership: 11,
            drive_acl: 12,
            namespace: 13,
            resource_acl: 14,
        },
    };
    let log = [
        Reply::Ack,
        fence(),
        one(vec![("durable_sequence", Cell::I64(50)), ("fencing_token", Cell::I64(70))]),
        one(vec![("exists", Cell::I32(1))]),
        one(vec![
            ("id", Cell::Id(id(40))),
            ("object_id", Cell::Id(OBJECT)),
            ("covered_sequence", Cell::I64(30)),
        ]),
        Reply::Ack,
    ];
    let commit = |object: Uuid, covered: i64, count: usize| {
        shown(Database::collaboration_commit_snapshot(
            TENANT,
            id(41),
            1,
            70,
            authorization,
            object,
            covered,
            &[],
            &log[..count],
        ))
    };
    assert_eq!(commit(OBJECT, 29, 5), DatabaseError::StaleGeneration.message());
    assert_eq!(commit(OBJECT, 30, 5), "commit");
    assert_eq!(commit(OBJECT, 30, 6), "done");
    assert_eq!(commit(id(42), 30, 6), DatabaseError::Conflict.message());
    assert_eq!(commit(id(42), 31, 5), collaboration::COMMIT_SNAPSHOT_UPDATE_SNAPSHOTS);
}

fn preview(fingerprint: &[u8]) -> Reply {
    one(vec![
        ("id", Cell::Id(id(50))),
        ("drive_id", Cell::Id(DRIVE)),
        ("node_id", Cell::Id(NODE)),
        ("source_version_id", Cell::Id(id(51))),
        ("state", text("requested")),
        ("attempt_count", Cell::I32(0)),
        ("job_epoch", Cell::I64(0)),
        ("cache_key", bytes(&DIGEST)),
        ("request_fingerprint", bytes(fingerprint)),
    ])
}

#[test]
fn a_session_has_one_preview_for_a_key() {
    let input = AdmitMediaPreviewInput {
        tenant_id: TENANT,
        preview_id: id(52),
        drive_id: DRIVE,
        node_id: NODE,
        source_version_id: id(51),
        requester_principal_id: USER,
        requester_session_id: SESSION,
        idempotency_key: "key",
        request_fingerprint: &DIGEST,
        cache_key: &DIGEST,
        profile_id: "profile",
        profile_digest: &DIGEST,
        transcoder_build_identity: &DIGEST,
    };
    let again = [Reply::Ack, preview(&DIGEST), Reply::Ack];
    match Database::admit_media_preview(&input, &again) {
        Step::Done(preview) => assert_eq!(preview.id, id(50)),
        _ => panic!("the stored preview is returned"),
    }
    let other = [Reply::Ack, preview(&OTHER_DIGEST)];
    assert_eq!(
        shown(Database::admit_media_preview(&input, &other)),
        DatabaseError::Conflict.message()
    );
}

#[test]
fn attempts_stop_at_three() {
    let input = StartMediaAttemptInput {
        tenant_id: TENANT,
        preview_id: id(50),
        attempt_id: id(53),
        source_capability_digest: &DIGEST,
        output_capability_digest: &DIGEST,
        callback_capability_digest: &DIGEST,
    };
    match Database::start_media_attempt(&input, &[Reply::Ack]) {
        Step::Ask(Command::Query(query)) => {
            assert_eq!(query.sql, media::START_MEDIA_ATTEMPT_UPDATE_PREVIEWS);
            assert!(query.sql.contains("attempt_count<$3"));
            assert!(matches!(query.params[2], Param::I32(3)));
        }
        _ => panic!("the attempt is counted first"),
    }
    assert_eq!(
        shown(Database::start_media_attempt(&input, &[Reply::Ack, nothing()])),
        DatabaseError::StaleGeneration.message()
    );
}

#[test]
fn a_manifest_is_published_under_the_next_revision() {
    let input = PublishMediaManifestInput {
        tenant_id: TENANT,
        preview_id: id(50),
        attempt_id: id(53),
        job_epoch: 1,
        manifest_id: id(54),
        manifest_blake3: &DIGEST,
        manifest_byte_length: 10,
        cache_artifact_id: id(55),
        charged_bytes: 20,
    };
    for revision in [1_i64, 2] {
        let log = [
            Reply::Ack,
            one(vec![("count", Cell::I64(4))]),
            one(vec![("id", Cell::Id(id(50)))]),
            one(vec![("revision", Cell::I64(revision))]),
            Reply::Count(1),
            Reply::Count(1),
            Reply::Count(1),
            Reply::Ack,
        ];
        match Database::publish_media_manifest(&input, &log) {
            Step::Done(published) => assert_eq!(published, revision),
            _ => panic!("the manifest is published"),
        }
    }
}

#[test]
fn a_rejected_revision_is_not_rejected_again() {
    let found = one(vec![
        ("membership_generation", Cell::I64(11)),
        ("drive_acl_generation", Cell::I64(12)),
        ("namespace_generation", Cell::I64(13)),
        ("resource_acl_generation", Cell::I64(14)),
        ("document_session_id", Cell::Id(id(60))),
        ("state", text("rejected")),
        ("payload_id", Cell::Id(id(61))),
        ("reserved_bytes", Cell::I64(100)),
        ("drive_id", Cell::Id(DRIVE)),
        ("node_id", Cell::Id(NODE)),
        ("session_state", text("revoked")),
        ("session_unexpired", Cell::Bool(true)),
        ("user_principal_id", Cell::Id(USER)),
        ("api_session_id", Cell::Id(SESSION)),
    ]);
    let log = [Reply::Ack, found, Reply::Ack];
    let reject = |log: &[Reply]| {
        shown(Database::reject_document_revision_for_authorization_change(TENANT, id(62), log))
    };
    assert_eq!(
        trace(reject, &log),
        vec![
            "begin",
            document::REJECT_DOCUMENT_REVISION_FOR_AUTHORIZATION_CHANGE_SELECT_REVISIONS,
            "commit",
            "done",
        ]
    );
    match Database::reject_document_revision_for_authorization_change(TENANT, id(62), &log) {
        Step::Done(rejected) => assert!(!rejected),
        _ => panic!("the call is answered"),
    }
}

#[test]
fn a_spent_grant_opens_nothing() {
    let digest = DIGEST;
    let consume =
        |log: &[Reply]| shown(Database::consume_document_launch_grant(TENANT, &digest, log));
    assert_eq!(
        trace(consume, &[Reply::Ack, nothing()]),
        vec![
            "begin",
            document::CONSUME_DOCUMENT_LAUNCH_GRANT,
            DatabaseError::NotFound.message(),
        ]
    );
    let issue = |log: &[Reply]| {
        shown(Database::issue_document_launch_grant(
            TENANT, id(60), USER, SESSION, &digest, log,
        ))
    };
    let spent = [
        Reply::Ack,
        one(vec![("id", Cell::Id(id(63)))]),
        one(vec![("exists", Cell::Bool(true))]),
    ];
    assert_eq!(
        trace(issue, &spent),
        vec![
            "begin",
            document::ISSUE_DOCUMENT_LAUNCH_GRANT_SELECT_PARTICIPANTS,
            document::ISSUE_DOCUMENT_LAUNCH_GRANT_EXISTS_LAUNCH_GRANTS,
            DatabaseError::Conflict.message(),
        ]
    );
}

#[test]
fn a_deleted_document_payload_stays_deleted() {
    let delete =
        |log: &[Reply]| shown(Database::complete_document_payload_deletion(TENANT, id(64), log));
    let first = [
        Reply::Ack,
        one(vec![("state", text("deleting"))]),
        Reply::Count(1),
        Reply::Ack,
    ];
    assert_eq!(
        trace(delete, &first)[2],
        document::COMPLETE_DOCUMENT_PAYLOAD_DELETION_UPDATE_PAYLOAD_OBJECTS
    );
    assert_eq!(delete(&first), "done");
    let again = [Reply::Ack, one(vec![("state", text("deleted"))]), Reply::Ack];
    assert_eq!(trace(delete, &again)[2], "commit");
    assert_eq!(delete(&again), "done");
}

#[test]
fn statements_hold_the_conditions_that_laws_about_rows_rest_on() {
    let conditions = [
        (collaboration::ABANDON_OBJECT_UPDATE_OBJECTS, "SET state='quarantined'"),
        (collaboration::ABANDON_OBJECT_UPDATE_OBJECTS, "AND state='staging'"),
        (collaboration::ABANDON_OBJECT_UPDATE_DRIVES, "reserved_bytes=reserved_bytes-$3"),
        (collaboration::FINALIZE_OBJECT_UPDATE_DRIVES, "used_physical_bytes=used_physical_bytes+$4"),
        (collaboration::COMMIT_SNAPSHOT_UPDATE_OBJECTS_2, "g.last_sequence<=$4 AND o.state='durable'"),
        (collaboration::PERSIST_UPDATE_GROUP_UPDATE_EPOCHS, "SET durable_sequence=$4"),
        (catalog::SET_NODE_TRASH_STATE_UPDATE_NODES, "AND n.trash_root_id IS NULL"),
        (catalog::SET_NODE_TRASH_STATE_UPDATE_NODES_2, "AND n.trash_root_id=$4"),
        (catalog::COMPLETE_ORPHAN_PAYLOAD_DELETION_SELECT_PAYLOAD_OBJECTS, "p.state='deleting'"),
        (document::COMMIT_DOCUMENT_REVISION_UPDATE_REVISIONS_2, "committed_version_id=$3"),
        (document::CONSUME_DOCUMENT_LAUNCH_GRANT, "g.consumed_at IS NULL"),
        (document::DOCUMENT_OPERATION_RECORD, "ON CONFLICT DO NOTHING"),
        (
            document::DOCUMENT_REVISION_RETENTION_SWEEP_SELECT_REVISIONS,
            "r.state IN ('received','staging') AND (s.state NOT IN ('active','draining')",
        ),
        (document::DOCUMENT_REVISION_RETENTION_SWEEP_SELECT_REVISIONS_2, "p.state='finalized'"),
        (document::DOCUMENT_RECONNECT_SWEEP_UPDATE_PARTICIPANTS, "p.state='disconnected'"),
        (media::START_MEDIA_ATTEMPT_UPDATE_PREVIEWS, "attempt_count=attempt_count+1"),
        (
            media::PUBLISH_MEDIA_MANIFEST_SELECT_MANIFEST_REVISIONS,
            "COALESCE(max(revision),0)+1",
        ),
    ];
    for (statement, condition) in conditions {
        assert!(statement.contains(condition), "{condition}");
    }
}
