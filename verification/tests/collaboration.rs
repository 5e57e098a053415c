use std::sync::Arc;

use filebelt_database::collaboration::group_size;
use filebelt_database::collaboration::CollaborationAuthorizationContext;
use filebelt_database::collaboration::CollaborationAuthorizationGenerations;
use filebelt_database::collaboration::CollaborationUpdateChunkInput;
use filebelt_database::database::Database;
use filebelt_database::error::DatabaseError;
use filebelt_database::id::Uuid;
use filebelt_database::row::Cell;
use filebelt_database::row::Column;
use filebelt_database::row::Reply;
use filebelt_database::row::Row;
use filebelt_database::sql::catalog;
use filebelt_database::sql::collaboration as sql;
use filebelt_database::step::Command;
use filebelt_database::step::Param;
use filebelt_database::step::Step;

fn id(value: u128) -> Uuid {
    Uuid { value }
}

fn text(value: &str) -> Cell {
    Cell::Text(value.to_owned())
}

fn bytes(value: &[u8]) -> Cell {
    Cell::Bytes(Arc::new(value.to_vec()))
}

fn row(columns: Vec<(&str, Cell)>) -> Row {
    Row {
        columns: columns
            .into_iter()
            .map(|(name, cell)| Column {
                name: name.to_owned(),
                cell,
            })
            .collect(),
    }
}

fn one(columns: Vec<(&str, Cell)>) -> Reply {
    Reply::Rows(vec![row(columns)])
}

fn nothing() -> Reply {
    Reply::Rows(Vec::new())
}

/// What a step asks for, in one word or as the statement itself.
fn shown<T>(step: Step<'_, T>) -> &'static str {
    match step {
        Step::Ask(Command::Begin) => "begin",
        Step::Ask(Command::Commit) => "commit",
        Step::Ask(Command::Rollback) => "rollback",
        Step::Ask(Command::DrawIds(_)) => "draw",
        Step::Ask(Command::Query(query)) => query.sql,
        Step::Done(_) => "done",
        Step::Fail(error) => error.message(),
        Step::Malformed => "malformed",
    }
}

/// The steps of an operation, from its start to the end of the log.
fn trace<F: Fn(&[Reply]) -> &'static str>(operation: F, log: &[Reply]) -> Vec<&'static str> {
    (0..=log.len()).map(|count| operation(&log[..count])).collect()
}

const TENANT: Uuid = Uuid { value: 1 };
const ROOM: Uuid = Uuid { value: 2 };
const OBJECT: Uuid = Uuid { value: 3 };
const DRIVE: Uuid = Uuid { value: 4 };
const NODE: Uuid = Uuid { value: 5 };
const BASE: Uuid = Uuid { value: 6 };
const PAYLOAD: Uuid = Uuid { value: 7 };

fn authorization() -> CollaborationAuthorizationContext {
    CollaborationAuthorizationContext {
        principal_id: id(20),
        session_id: id(21),
        drive_id: DRIVE,
        node_id: NODE,
        generations: CollaborationAuthorizationGenerations {
            membership: 11,
            drive_acl: 12,
            namespace: 13,
            resource_acl: 14,
        },
    }
}

fn fence(resource_acl: i64) -> Reply {
    one(vec![
        ("membership_generation", Cell::I64(11)),
        ("drive_acl_generation", Cell::I64(12)),
        ("namespace_generation", Cell::I64(13)),
        ("resource_acl_generation", Cell::I64(resource_acl)),
    ])
}

fn writable_epoch(durable_sequence: i64, fencing_token: i64) -> Reply {
    one(vec![
        ("durable_sequence", Cell::I64(durable_sequence)),
        ("fencing_token", Cell::I64(fencing_token)),
        ("base_version_id", Cell::Id(BASE)),
    ])
}

fn chunk(chunk_index: i32, object_offset: i64, size_bytes: i32) -> CollaborationUpdateChunkInput {
    CollaborationUpdateChunkInput {
        chunk_index,
        object_offset,
        size_bytes,
        blake3: Arc::new(vec![7; 32]),
    }
}

fn abandonable(state: &str, reservation_state: &str, size_bytes: Cell) -> Reply {
    one(vec![
        ("payload_id", Cell::Id(PAYLOAD)),
        ("drive_id", Cell::Id(DRIVE)),
        ("state", text(state)),
        ("reserved_bytes", Cell::I64(100)),
        ("size_bytes", size_bytes),
        ("reservation_state", text(reservation_state)),
    ])
}

fn deleted(state: &str, payload_state: &str, reservation_state: &str, size_bytes: Cell) -> Reply {
    one(vec![
        ("id", Cell::Id(OBJECT)),
        ("drive_id", Cell::Id(DRIVE)),
        ("size_bytes", size_bytes),
        ("state", text(state)),
        ("payload_state", text(payload_state)),
        ("reservation_state", text(reservation_state)),
    ])
}

fn object_row(state: &str) -> Vec<(&'static str, Cell)> {
    vec![
        ("id", Cell::Id(OBJECT)),
        ("room_id", Cell::Id(ROOM)),
        ("epoch", Cell::I64(1)),
        ("drive_id", Cell::Id(DRIVE)),
        ("node_id", Cell::Id(NODE)),
        ("fencing_token", Cell::I64(9)),
        ("payload_id", Cell::Id(PAYLOAD)),
        ("backend_id", Cell::Id(id(30))),
        ("payload_locator", Cell::Id(id(31))),
        ("purpose", text("update_group")),
        ("state", text(state)),
        ("reserved_bytes", Cell::I64(100)),
        ("size_bytes", Cell::I64(90)),
        ("blake3", bytes(&[7; 32])),
    ]
}

fn summary(state: &str, base: Uuid, epoch: i64) -> Reply {
    one(vec![
        ("room_id", Cell::Id(ROOM)),
        ("epoch", Cell::I64(epoch)),
        ("drive_id", Cell::Id(DRIVE)),
        ("node_id", Cell::Id(NODE)),
        ("base_version_id", Cell::Id(base)),
        ("state", text(state)),
        ("durable_sequence", Cell::I64(0)),
        ("fencing_token", Cell::I64(1)),
        ("expires_at", text("later")),
        ("warning_at", text("soon")),
    ])
}

#[test]
fn snapshots_are_manifest_anchors_and_not_event_state() {
    assert!(sql::CURRENT_SNAPSHOT.contains("filebelt_collaboration.snapshots"));
    assert!(sql::CURRENT_SNAPSHOT.contains("p.state='finalized'"));

    let commit = |log: &[Reply]| {
        shown(Database::collaboration_commit_snapshot(
            TENANT,
            ROOM,
            1,
            9,
            authorization(),
            OBJECT,
            40,
            &[1],
            log,
        ))
    };
    let anchor = |covered_sequence: i64| {
        one(vec![
            ("id", Cell::Id(id(50))),
            ("object_id", Cell::Id(id(51))),
            ("covered_sequence", Cell::I64(covered_sequence)),
        ])
    };
    let epoch = one(vec![
        ("durable_sequence", Cell::I64(40)),
        ("fencing_token", Cell::I64(9)),
    ]);
    let log = [
        Reply::Ack,
        fence(14),
        epoch,
        one(vec![("present", Cell::Bool(true))]),
        anchor(39),
        Reply::Count(1),
        Reply::Count(1),
        Reply::Ids(vec![id(52)]),
        Reply::Count(1),
        Reply::Count(4),
        Reply::Ack,
    ];
    assert_eq!(
        trace(commit, &log),
        vec![
            "begin",
            catalog::LOCK_COLLABORATION_AUTHORIZATION_FENCE,
            sql::COMMIT_SNAPSHOT_SELECT_EPOCHS,
            sql::COMMIT_SNAPSHOT_SELECT_OBJECTS,
            sql::COMMIT_SNAPSHOT_SELECT_SNAPSHOTS,
            sql::COMMIT_SNAPSHOT_UPDATE_SNAPSHOTS,
            sql::COMMIT_SNAPSHOT_UPDATE_OBJECTS,
            "draw",
            sql::COMMIT_SNAPSHOT_INSERT_SNAPSHOTS,
            sql::COMMIT_SNAPSHOT_UPDATE_OBJECTS_2,
            "commit",
            "done",
        ]
    );
    // An anchor that covers more than the new snapshot stays.
    let newer = [
        Reply::Ack,
        fence(14),
        one(vec![
            ("durable_sequence", Cell::I64(40)),
            ("fencing_token", Cell::I64(9)),
        ]),
        one(vec![("present", Cell::Bool(true))]),
        anchor(41),
    ];
    assert_eq!(commit(&newer), DatabaseError::StaleGeneration.message());
    assert!(sql::COMMIT_SNAPSHOT_UPDATE_OBJECTS.contains("state='superseded'"));
    assert!(sql::COMMIT_SNAPSHOT_UPDATE_SNAPSHOTS
        .contains("UPDATE filebelt_collaboration.snapshots SET superseded_at"));
}

#[test]
fn retention_fences_epochs_before_enqueueing_object_cleanup() {
    assert!(sql::RETENTION_SWEEP_UPDATE_EPOCHS_2.contains("state='tombstoned'"));
    assert!(sql::RETENTION_SWEEP_UPDATE_EPOCHS_2.contains("fencing_token=fencing_token+1"));
    assert!(sql::RETENTION_SWEEP_UPDATE_PAYLOAD_OBJECTS.contains("state='delete_intent'"));
    assert!(sql::ABANDON_OBJECT_INSERT_JOBS.contains("'payload_delete'"));

    let sweep =
        |log: &[Reply]| shown(Database::collaboration_retention_sweep(TENANT, 10, log));
    let log = [
        nothing(),
        Reply::Ack,
        Reply::Count(2),
        one(vec![("room_id", Cell::Id(ROOM)), ("epoch", Cell::I64(3))]),
        one(vec![("id", Cell::Id(PAYLOAD))]),
        Reply::Count(1),
        Reply::Count(1),
        nothing(),
        Reply::Ack,
    ];
    assert_eq!(
        trace(sweep, &log),
        vec![
            sql::RETENTION_SWEEP_SELECT_OBJECTS,
            "begin",
            sql::RETENTION_SWEEP_UPDATE_EPOCHS,
            sql::RETENTION_SWEEP_UPDATE_EPOCHS_2,
            sql::RETENTION_SWEEP_UPDATE_PAYLOAD_OBJECTS,
            sql::RETENTION_SWEEP_UPDATE_OBJECTS,
            sql::ABANDON_OBJECT_INSERT_JOBS,
            sql::RETENTION_SWEEP_SELECT_OBJECTS_2,
            "commit",
            "done",
        ]
    );
}

#[test]
fn abandoned_objects_release_reservations_or_delete_committed_bytes_once() {
    let abandon =
        |log: &[Reply]| shown(Database::collaboration_abandon_object(TENANT, OBJECT, log));
    assert!(sql::ABANDON_OBJECT_UPDATE_OBJECT_RESERVATIONS.contains("state='released'"));
    assert!(sql::ABANDON_OBJECT_UPDATE_OBJECTS.contains("state='quarantined'"));
    assert!(sql::ABANDON_OBJECT_UPDATE_OBJECTS_2.contains("state='delete_intent'"));
    assert!(sql::ABANDON_OBJECT_EXISTS_UPDATE_GROUPS
        .contains("SELECT EXISTS (SELECT 1 FROM filebelt_collaboration.update_groups"));
    assert!(sql::ABANDON_OBJECT_INSERT_JOBS.contains("'payload_delete'"));
    let staging = [
        Reply::Ack,
        abandonable("staging", "active", Cell::Null),
        one(vec![("exists", Cell::Bool(false))]),
        Reply::Count(1),
        Reply::Count(1),
        Reply::Count(1),
        Reply::Count(1),
        Reply::Count(1),
        Reply::Ack,
    ];
    assert_eq!(
        trace(abandon, &staging),
        vec![
            "begin",
            sql::ABANDON_OBJECT_SELECT_OBJECTS,
            sql::ABANDON_OBJECT_EXISTS_UPDATE_GROUPS,
            sql::ABANDON_OBJECT_UPDATE_OBJECT_RESERVATIONS,
            sql::ABANDON_OBJECT_UPDATE_DRIVES,
            sql::ABANDON_OBJECT_UPDATE_OBJECTS,
            sql::ABANDON_OBJECT_UPDATE_PAYLOAD_OBJECTS,
            sql::ABANDON_OBJECT_INSERT_JOBS,
            "commit",
            "done",
        ]
    );
    let durable = [
        Reply::Ack,
        abandonable("durable", "committed", Cell::I64(90)),
        one(vec![("exists", Cell::Bool(false))]),
        Reply::Count(1),
        Reply::Count(1),
        Reply::Count(1),
        Reply::Ack,
    ];
    assert_eq!(
        trace(abandon, &durable),
        vec![
            "begin",
            sql::ABANDON_OBJECT_SELECT_OBJECTS,
            sql::ABANDON_OBJECT_EXISTS_UPDATE_GROUPS,
            sql::ABANDON_OBJECT_UPDATE_OBJECTS_2,
            sql::ABANDON_OBJECT_UPDATE_PAYLOAD_OBJECTS,
            sql::ABANDON_OBJECT_INSERT_JOBS,
            "commit",
            "done",
        ]
    );

    let complete = |log: &[Reply]| {
        shown(Database::complete_collaboration_payload_deletion(TENANT, PAYLOAD, log))
    };
    for state in ["tombstoned", "abandoned"] {
        let closed = [
            Reply::Ack,
            deleted(state, "deleted", "committed", Cell::I64(90)),
            Reply::Ack,
        ];
        assert_eq!(
            trace(complete, &closed),
            vec![
                "begin",
                sql::COMPLETE_COLLABORATION_PAYLOAD_DELETION_SELECT_OBJECTS,
                "commit",
                "done",
            ]
        );
    }
    let committed = [
        Reply::Ack,
        deleted("delete_intent", "deleting", "committed", Cell::I64(90)),
        Reply::Count(1),
    ];
    match Database::complete_collaboration_payload_deletion(TENANT, PAYLOAD, &committed) {
        Step::Ask(Command::Query(query)) => {
            assert!(matches!(query.params[2], Param::Text("tombstoned")));
        }
        _ => panic!("the object is closed next"),
    }
    let never_finalized = [
        Reply::Ack,
        deleted("quarantined", "abandoned", "released", Cell::Null),
    ];
    match Database::complete_collaboration_payload_deletion(TENANT, PAYLOAD, &never_finalized) {
        Step::Ask(Command::Query(query)) => {
            assert!(matches!(query.params[2], Param::Text("abandoned")));
        }
        _ => panic!("the object is closed next"),
    }

    assert!(sql::RETENTION_SWEEP_SELECT_OBJECTS.contains("r.expires_at<=clock_timestamp()"));
    assert!(sql::RETENTION_SWEEP_SELECT_OBJECTS
        .contains("o.durable_at<=clock_timestamp()-interval '5 minutes'"));
    let swept = [one(vec![("id", Cell::Id(OBJECT))]), Reply::Ack];
    assert_eq!(
        shown(Database::collaboration_retention_sweep(TENANT, 10, &swept)),
        sql::ABANDON_OBJECT_SELECT_OBJECTS
    );
}

#[test]
fn collaboration_durability_paths_lock_the_current_authorization_fence() {
    let log = [Reply::Ack];
    let digest = [7; 32];
    let chunks = vec![chunk(0, 0, 10)];
    for asked in [
        shown(Database::collaboration_prepare_checkpoint(
            TENANT,
            ROOM,
            1,
            9,
            authorization(),
            40,
            &[1],
            10,
            &digest,
            &log,
        )),
        shown(Database::collaboration_finalize_object(
            TENANT,
            OBJECT,
            9,
            authorization(),
            90,
            &digest,
            &log,
        )),
        shown(Database::collaboration_persist_update_group(
            TENANT,
            ROOM,
            1,
            9,
            40,
            id(60),
            id(61),
            authorization(),
            None,
            &digest,
            &digest,
            OBJECT,
            &chunks,
            &[1],
            &digest,
            &log,
        )),
        shown(Database::collaboration_commit_snapshot(
            TENANT,
            ROOM,
            1,
            9,
            authorization(),
            OBJECT,
            40,
            &[1],
            &log,
        )),
    ] {
        assert_eq!(asked, catalog::LOCK_COLLABORATION_AUTHORIZATION_FENCE);
    }
}

#[test]
fn discard_locks_the_current_authorization_fence_before_expiring_the_room() {
    let discard = |log: &[Reply]| {
        shown(Database::collaboration_discard(TENANT, ROOM, 1, authorization(), log))
    };
    let log = [Reply::Ack, fence(14), Reply::Count(1), Reply::Ack];
    assert_eq!(
        trace(discard, &log),
        vec![
            "begin",
            catalog::LOCK_COLLABORATION_AUTHORIZATION_FENCE,
            sql::DISCARD,
            "commit",
            "done",
        ]
    );
    assert_eq!(authorization().expected_generations(), [11, 12, 13, 14]);
    let stale = [Reply::Ack, fence(15)];
    assert_eq!(discard(&stale), DatabaseError::StaleGeneration.message());
    for required in ["drive_id=$4 AND node_id=$5", "fencing_token=fencing_token+1"] {
        assert!(sql::DISCARD.contains(required), "missing {required}");
    }
}

#[test]
fn mcp_provenance_is_bound_to_the_fenced_source_transition() {
    for required in [
        "JOIN filebelt_mcp.invocations i",
        "i.principal_id=g.actor_principal_id",
        "i.semantic_input_digest=g.source_before_digest",
        "i.semantic_output_digest=g.source_after_digest",
    ] {
        assert!(
            sql::PREPARE_CHECKPOINT_EXISTS_UPDATE_GROUPS.contains(required),
            "missing {required}"
        );
    }
    for required in [
        "semantic_node_id=$4",
        "semantic_base_version_id=$5",
        "semantic_input_digest=$6",
        "semantic_output_digest=$7",
    ] {
        assert!(
            sql::PERSIST_UPDATE_GROUP_EXISTS_INVOCATIONS.contains(required),
            "missing {required}"
        );
    }
    for required in ["source_before_digest", "source_after_digest"] {
        assert!(
            sql::PERSIST_UPDATE_GROUP_INSERT_UPDATE_GROUPS.contains(required),
            "missing {required}"
        );
    }
    let before = [1; 32];
    let after = [2; 32];
    let chunks = vec![chunk(0, 0, 10)];
    let persist = |log: &[Reply]| {
        shown(Database::collaboration_persist_update_group(
            TENANT,
            ROOM,
            1,
            9,
            40,
            id(60),
            id(61),
            authorization(),
            Some(id(70)),
            &before,
            &after,
            OBJECT,
            &chunks,
            &[1],
            &after,
            log,
        ))
    };
    let log = [Reply::Ack, fence(14), writable_epoch(40, 9)];
    assert_eq!(
        trace(persist, &log),
        vec![
            "begin",
            catalog::LOCK_COLLABORATION_AUTHORIZATION_FENCE,
            sql::PERSIST_UPDATE_GROUP_SELECT_EPOCHS,
            sql::PERSIST_UPDATE_GROUP_EXISTS_INVOCATIONS,
        ]
    );
    match Database::collaboration_persist_update_group(
        TENANT,
        ROOM,
        1,
        9,
        40,
        id(60),
        id(61),
        authorization(),
        Some(id(70)),
        &before,
        &after,
        OBJECT,
        &chunks,
        &[1],
        &after,
        &log,
    ) {
        Step::Ask(Command::Query(query)) => {
            assert!(matches!(query.params[2], Param::Id(principal) if principal == id(20)));
            assert!(matches!(query.params[3], Param::Id(node) if node == NODE));
            assert!(matches!(query.params[4], Param::Id(base_version_id) if base_version_id == BASE));
            assert!(matches!(query.params[5], Param::Bytes(digest) if digest == before));
            assert!(matches!(query.params[6], Param::Bytes(digest) if digest == after));
        }
        _ => panic!("the invocation is checked next"),
    }
    let unproven = [
        Reply::Ack,
        fence(14),
        writable_epoch(40, 9),
        one(vec![("exists", Cell::Bool(false))]),
    ];
    assert_eq!(persist(&unproven), DatabaseError::Conflict.message());
}

#[test]
fn discard_immediately_fences_dirty_state_for_retention() {
    assert!(sql::DISCARD.contains("freeze_reason=CASE WHEN dirty THEN 'discarded'"));
    assert!(sql::DISCARD.contains("expires_at=CASE WHEN dirty THEN clock_timestamp()"));
    assert!(sql::DISCARD.contains("fencing_token=fencing_token+1"));
}

#[test]
fn collaboration_payload_authority_is_structurally_isolated() {
    for statement in [
        sql::RESERVE_OBJECT_INSERT_PAYLOAD_OBJECTS,
        sql::OBJECT,
        sql::FINALIZE_OBJECT_SELECT_OBJECTS,
        sql::FINALIZE_OBJECT_UPDATE_PAYLOAD_OBJECTS,
        sql::REPLAY_GROUPS_SELECT_UPDATE_GROUPS,
        sql::CURRENT_SNAPSHOT,
        sql::ABANDON_OBJECT_SELECT_OBJECTS,
        sql::ABANDON_OBJECT_UPDATE_PAYLOAD_OBJECTS,
        sql::RETENTION_SWEEP_UPDATE_PAYLOAD_OBJECTS,
        sql::RETENTION_SWEEP_UPDATE_PAYLOAD_OBJECTS_2,
        sql::COMPLETE_COLLABORATION_PAYLOAD_DELETION_SELECT_OBJECTS,
        sql::COMPLETE_COLLABORATION_PAYLOAD_DELETION_UPDATE_PAYLOAD_OBJECTS,
    ] {
        assert!(statement.contains("filebelt_collaboration.payload_objects"));
    }
    for statement in [
        sql::PREPARE_CHECKPOINT_SELECT_EPOCHS,
        sql::PREPARE_CHECKPOINT_EXISTS_UPDATE_GROUPS,
        sql::PREPARE_CHECKPOINT_UPDATE_CHECKPOINTS,
        sql::PREPARE_CHECKPOINT_INSERT_CHECKPOINTS,
        sql::JOIN_PARTICIPANT_SELECT_EPOCHS,
        sql::JOIN_PARTICIPANT_DELETE_PARTICIPANTS,
        sql::JOIN_PARTICIPANT_COUNT_PARTICIPANTS,
        sql::JOIN_PARTICIPANT_INSERT_PARTICIPANTS,
        sql::HEARTBEAT_PARTICIPANT,
        sql::LEAVE_PARTICIPANT,
        sql::EPOCH_IS_CURRENT,
        sql::ROOM,
        sql::GET_OR_CREATE_ROOM_SELECT_ROOMS,
        sql::GET_OR_CREATE_ROOM_UPDATE_EPOCHS,
        sql::GET_OR_CREATE_ROOM_INSERT_EPOCHS,
        sql::GET_OR_CREATE_ROOM_UPDATE_ROOMS,
        sql::GET_OR_CREATE_ROOM_INSERT_ROOMS,
        sql::GET_OR_CREATE_ROOM_INSERT_EPOCHS_2,
        sql::CREATE_JOIN_GRANT,
        sql::CONSUME_JOIN_GRANT,
        sql::RESERVE_OBJECT_SELECT_EPOCHS,
        sql::RESERVE_OBJECT_UPDATE_DRIVES,
        sql::RESERVE_OBJECT_SELECT_STORAGE_BACKENDS,
        sql::RESERVE_OBJECT_INSERT_PAYLOAD_OBJECTS,
        sql::RESERVE_OBJECT_INSERT_OBJECTS,
        sql::RESERVE_OBJECT_INSERT_OBJECT_RESERVATIONS,
        sql::OBJECT,
        sql::FINALIZE_OBJECT_SELECT_OBJECTS,
        sql::FINALIZE_OBJECT_UPDATE_PAYLOAD_OBJECTS,
        sql::FINALIZE_OBJECT_UPDATE_OBJECTS,
        sql::FINALIZE_OBJECT_UPDATE_OBJECT_RESERVATIONS,
        sql::FINALIZE_OBJECT_UPDATE_DRIVES,
        sql::PERSIST_UPDATE_GROUP_SELECT_EPOCHS,
        sql::PERSIST_UPDATE_GROUP_EXISTS_INVOCATIONS,
        sql::PERSIST_UPDATE_GROUP_SELECT_OBJECTS,
        sql::PERSIST_UPDATE_GROUP_SELECT_UPDATE_GROUPS,
        sql::PERSIST_UPDATE_GROUP_UPDATE_OBJECTS,
        sql::PERSIST_UPDATE_GROUP_INSERT_UPDATE_GROUPS,
        sql::PERSIST_UPDATE_GROUP_SELECT_UPDATE_GROUPS_2,
        sql::PERSIST_UPDATE_GROUP_INSERT_UPDATE_CHUNKS,
        sql::PERSIST_UPDATE_GROUP_UPDATE_EPOCHS,
        sql::REPLAY_GROUPS_SELECT_UPDATE_GROUPS,
        sql::REPLAY_GROUPS_SELECT_UPDATE_GROUPS_2,
        sql::CURRENT_SNAPSHOT,
        sql::COMMIT_SNAPSHOT_SELECT_EPOCHS,
        sql::COMMIT_SNAPSHOT_SELECT_OBJECTS,
        sql::COMMIT_SNAPSHOT_SELECT_SNAPSHOTS,
        sql::COMMIT_SNAPSHOT_UPDATE_SNAPSHOTS,
        sql::COMMIT_SNAPSHOT_UPDATE_OBJECTS,
        sql::COMMIT_SNAPSHOT_INSERT_SNAPSHOTS,
        sql::COMMIT_SNAPSHOT_UPDATE_OBJECTS_2,
        sql::ABANDON_OBJECT_SELECT_OBJECTS,
        sql::ABANDON_OBJECT_EXISTS_UPDATE_GROUPS,
        sql::ABANDON_OBJECT_UPDATE_OBJECT_RESERVATIONS,
        sql::ABANDON_OBJECT_UPDATE_DRIVES,
        sql::ABANDON_OBJECT_UPDATE_OBJECTS,
        sql::ABANDON_OBJECT_UPDATE_OBJECTS_2,
        sql::ABANDON_OBJECT_UPDATE_PAYLOAD_OBJECTS,
        sql::ABANDON_OBJECT_INSERT_JOBS,
        sql::RETENTION_SWEEP_SELECT_OBJECTS,
        sql::RETENTION_SWEEP_UPDATE_EPOCHS,
        sql::RETENTION_SWEEP_UPDATE_EPOCHS_2,
        sql::RETENTION_SWEEP_UPDATE_PAYLOAD_OBJECTS,
        sql::RETENTION_SWEEP_UPDATE_OBJECTS,
        sql::RETENTION_SWEEP_SELECT_OBJECTS_2,
        sql::RETENTION_SWEEP_UPDATE_PAYLOAD_OBJECTS_2,
        sql::RETENTION_SWEEP_UPDATE_OBJECTS_2,
        sql::COMPLETE_COLLABORATION_PAYLOAD_DELETION_SELECT_OBJECTS,
        sql::COMPLETE_COLLABORATION_PAYLOAD_DELETION_UPDATE_PAYLOAD_OBJECTS,
        sql::COMPLETE_COLLABORATION_PAYLOAD_DELETION_UPDATE_OBJECTS,
        sql::COMPLETE_COLLABORATION_PAYLOAD_DELETION_UPDATE_DRIVES,
        sql::FREEZE,
        sql::DISCARD,
        sql::CREATE_IMPORT_INTENT,
        sql::CONSUME_IMPORT_INTENT,
    ] {
        assert!(!statement.contains("public.payload_objects"));
    }
}

#[test]
fn participant_identity_cannot_replace_an_active_connection() {
    let statement = sql::JOIN_PARTICIPANT_INSERT_PARTICIPANTS;
    assert!(statement.contains("ON CONFLICT (tenant_id,room_id,epoch,client_id) DO NOTHING"));
    assert!(!statement.contains("DO UPDATE SET"));
    let join = |log: &[Reply]| {
        shown(Database::collaboration_join_participant(
            TENANT,
            ROOM,
            1,
            id(60),
            id(20),
            id(21),
            8,
            log,
        ))
    };
    let log = [
        Reply::Ack,
        one(vec![("present", Cell::Bool(true))]),
        Reply::Count(0),
        one(vec![("count", Cell::I64(1))]),
        Reply::Ids(vec![id(62)]),
        Reply::Count(0),
    ];
    let steps = trace(join, &log);
    assert_eq!(steps[5], sql::JOIN_PARTICIPANT_INSERT_PARTICIPANTS);
    assert_eq!(steps[6], DatabaseError::Conflict.message());
}

#[test]
fn chunks_must_tile_the_group() {
    assert_eq!(group_size(&vec![chunk(0, 0, 10), chunk(1, 10, 5)]), Some(15));
    assert_eq!(group_size(&Vec::new()), None);
    assert_eq!(group_size(&vec![chunk(1, 0, 10)]), None);
    assert_eq!(group_size(&vec![chunk(0, 0, 10), chunk(1, 11, 5)]), None);
    assert_eq!(group_size(&vec![chunk(0, 0, 0)]), None);
    assert_eq!(group_size(&vec![chunk(0, 0, 262_144)]), Some(262_144));
    assert_eq!(group_size(&vec![chunk(0, 0, 262_145)]), None);
    let nine: Vec<CollaborationUpdateChunkInput> =
        (0..9).map(|index| chunk(index, index as i64 * 262_144, 262_144)).collect();
    assert_eq!(group_size(&nine), None);
    let eight: Vec<CollaborationUpdateChunkInput> =
        (0..8).map(|index| chunk(index, index as i64 * 262_144, 262_144)).collect();
    assert_eq!(group_size(&eight), Some(2_097_152));
}

#[test]
fn an_update_group_is_numbered_behind_the_durable_sequence() {
    let digest = [7; 32];
    let chunks = vec![chunk(0, 0, 10), chunk(1, 10, 5)];
    let persist = |log: &[Reply]| {
        shown(Database::collaboration_persist_update_group(
            TENANT,
            ROOM,
            1,
            9,
            40,
            id(60),
            id(61),
            authorization(),
            None,
            &digest,
            &digest,
            OBJECT,
            &chunks,
            &[1],
            &digest,
            log,
        ))
    };
    let log = [
        Reply::Ack,
        fence(14),
        writable_epoch(40, 9),
        one(vec![("blake3", bytes(&[7; 32]))]),
        nothing(),
        Reply::Count(1),
        one(vec![("id", Cell::Id(id(80)))]),
        Reply::Count(1),
        Reply::Count(1),
        Reply::Count(1),
        Reply::Ack,
    ];
    assert_eq!(
        trace(persist, &log),
        vec![
            "begin",
            catalog::LOCK_COLLABORATION_AUTHORIZATION_FENCE,
            sql::PERSIST_UPDATE_GROUP_SELECT_EPOCHS,
            sql::PERSIST_UPDATE_GROUP_SELECT_OBJECTS,
            sql::PERSIST_UPDATE_GROUP_SELECT_UPDATE_GROUPS,
            sql::PERSIST_UPDATE_GROUP_INSERT_UPDATE_GROUPS,
            sql::PERSIST_UPDATE_GROUP_SELECT_UPDATE_GROUPS_2,
            sql::PERSIST_UPDATE_GROUP_INSERT_UPDATE_CHUNKS,
            sql::PERSIST_UPDATE_GROUP_INSERT_UPDATE_CHUNKS,
            sql::PERSIST_UPDATE_GROUP_UPDATE_EPOCHS,
            "commit",
            "done",
        ]
    );
    let step = Database::collaboration_persist_update_group(
        TENANT,
        ROOM,
        1,
        9,
        40,
        id(60),
        id(61),
        authorization(),
        None,
        &digest,
        &digest,
        OBJECT,
        &chunks,
        &[1],
        &digest,
        &log,
    );
    assert!(matches!(step, Step::Done((object, 41, 41)) if object == OBJECT));
    // A group on a base that has moved is put aside, and the sender is told so.
    let moved = [
        Reply::Ack,
        fence(14),
        writable_epoch(41, 9),
        one(vec![("blake3", bytes(&[7; 32]))]),
        nothing(),
        Reply::Count(1),
        Reply::Ack,
    ];
    assert_eq!(
        trace(persist, &moved)[5..],
        [
            sql::PERSIST_UPDATE_GROUP_UPDATE_OBJECTS,
            "commit",
            DatabaseError::StaleGeneration.message(),
        ]
    );
}

#[test]
fn opening_a_room_on_another_base_freezes_it() {
    let open = |log: &[Reply]| {
        shown(Database::collaboration_get_or_create_room(
            TENANT,
            DRIVE,
            NODE,
            BASE,
            id(20),
            log,
        ))
    };
    let other = [Reply::Ack, summary("active", id(99), 4), Reply::Count(1), Reply::Ack];
    assert_eq!(
        trace(open, &other),
        vec![
            "begin",
            sql::GET_OR_CREATE_ROOM_SELECT_ROOMS,
            sql::GET_OR_CREATE_ROOM_UPDATE_EPOCHS,
            "commit",
            DatabaseError::Conflict.message(),
        ]
    );
    let same = [Reply::Ack, summary("active", BASE, 4), Reply::Ack];
    assert_eq!(trace(open, &same)[2..], ["commit", "done"]);
    let closed = [Reply::Ack, summary("closed", id(99), 4), summary("active", BASE, 5)];
    assert_eq!(
        trace(open, &closed)[2..],
        [sql::GET_OR_CREATE_ROOM_INSERT_EPOCHS, sql::GET_OR_CREATE_ROOM_UPDATE_ROOMS]
    );
    let last = [Reply::Ack, summary("closed", id(99), i64::MAX)];
    assert_eq!(open(&last), DatabaseError::InvalidPersistedValue.message());
}

#[test]
fn replay_returns_every_group_with_its_chunks() {
    let mut first = object_row("durable");
    first.push(("first_sequence", Cell::I64(5)));
    first.push(("last_sequence", Cell::I64(6)));
    let mut second = object_row("durable");
    second.push(("first_sequence", Cell::I64(7)));
    second.push(("last_sequence", Cell::I64(7)));
    let chunk_row = |index: i32, offset: i64, size: i32| {
        row(vec![
            ("chunk_index", Cell::I32(index)),
            ("object_offset", Cell::I64(offset)),
            ("size_bytes", Cell::I32(size)),
            ("blake3", bytes(&[7; 32])),
        ])
    };
    let log = [
        Reply::Rows(vec![row(first), row(second)]),
        Reply::Rows(vec![chunk_row(0, 0, 10), chunk_row(1, 10, 4)]),
        Reply::Rows(vec![chunk_row(0, 0, 3)]),
    ];
    let replay =
        |log: &[Reply]| shown(Database::collaboration_replay_groups(TENANT, ROOM, 1, 4, log));
    assert_eq!(
        trace(replay, &log),
        vec![
            sql::REPLAY_GROUPS_SELECT_UPDATE_GROUPS,
            sql::REPLAY_GROUPS_SELECT_UPDATE_GROUPS_2,
            sql::REPLAY_GROUPS_SELECT_UPDATE_GROUPS_2,
            "done",
        ]
    );
    match Database::collaboration_replay_groups(TENANT, ROOM, 1, 4, &log) {
        Step::Done(groups) => {
            assert_eq!(groups.len(), 2);
            assert_eq!(groups[0].first_sequence, 5);
            assert_eq!(groups[0].chunks.len(), 2);
            assert_eq!(groups[0].chunks[1].object_offset, 10);
            assert_eq!(groups[1].last_sequence, 7);
            assert_eq!(groups[1].chunks[0].size_bytes, 3);
        }
        _ => panic!("all groups are read"),
    }
}

#[test]
fn a_sweep_passes_over_objects_that_are_in_use() {
    let log = [
        Reply::Rows(vec![
            row(vec![("id", Cell::Id(OBJECT))]),
            row(vec![("id", Cell::Id(id(33)))]),
        ]),
        Reply::Ack,
        abandonable("durable", "committed", Cell::I64(90)),
        one(vec![("exists", Cell::Bool(true))]),
        Reply::Ack,
        Reply::Ack,
        abandonable("abandoned", "released", Cell::Null),
        Reply::Ack,
        Reply::Ack,
        Reply::Count(3),
        Reply::Rows(vec![
            row(vec![("room_id", Cell::Id(ROOM)), ("epoch", Cell::I64(1))]),
            row(vec![("room_id", Cell::Id(ROOM)), ("epoch", Cell::I64(2))]),
        ]),
        Reply::Rows(vec![
            row(vec![("id", Cell::Id(PAYLOAD))]),
            row(vec![("id", Cell::Id(id(34)))]),
        ]),
        Reply::Count(2),
        Reply::Count(1),
        Reply::Count(0),
        nothing(),
        Reply::Count(0),
        Reply::Rows(vec![
            row(vec![("id", Cell::Id(id(35))), ("payload_id", Cell::Id(id(36)))]),
            row(vec![("id", Cell::Id(id(37))), ("payload_id", Cell::Id(id(38)))]),
        ]),
        Reply::Count(0),
        Reply::Count(1),
        Reply::Count(1),
        Reply::Count(1),
        Reply::Ack,
    ];
    let sweep =
        |log: &[Reply]| shown(Database::collaboration_retention_sweep(TENANT, 1_000, log));
    let steps = trace(sweep, &log);
    assert_eq!(steps[4], "rollback");
    assert_eq!(steps[7], "commit");
    assert_eq!(steps[8], "begin");
    assert_eq!(steps[18], sql::RETENTION_SWEEP_UPDATE_PAYLOAD_OBJECTS_2);
    assert_eq!(steps[19], sql::RETENTION_SWEEP_UPDATE_PAYLOAD_OBJECTS_2);
    assert_eq!(steps[20], sql::RETENTION_SWEEP_UPDATE_OBJECTS_2);
    assert_eq!(steps[22], "commit");
    match Database::collaboration_retention_sweep(TENANT, 1_000, &log) {
        Step::Done(report) => {
            assert_eq!(report.warnings_emitted, 3);
            assert_eq!(report.epochs_expired, 2);
            assert_eq!(report.payload_deletions_enqueued, 2);
            assert_eq!(report.objects_abandoned, 1);
        }
        _ => panic!("the sweep is done"),
    }
    for limit in [0, 1_001] {
        assert_eq!(
            shown(Database::collaboration_retention_sweep(TENANT, limit, &[])),
            DatabaseError::InvalidPersistedValue.message()
        );
    }
}

#[test]
fn a_deletion_returns_exactly_the_used_bytes() {
    let log = [
        Reply::Ack,
        deleted("delete_intent", "deleting", "committed", Cell::I64(90)),
        Reply::Count(1),
        Reply::Count(1),
    ];
    match Database::complete_collaboration_payload_deletion(TENANT, PAYLOAD, &log) {
        Step::Ask(Command::Query(query)) => {
            assert_eq!(
                query.sql,
                sql::COMPLETE_COLLABORATION_PAYLOAD_DELETION_UPDATE_DRIVES
            );
            assert!(matches!(query.params[2], Param::I64(90)));
        }
        _ => panic!("the bytes return next"),
    }
    let mismatched = [
        Reply::Ack,
        deleted("delete_intent", "deleting", "released", Cell::I64(90)),
        Reply::Count(1),
        Reply::Count(1),
    ];
    assert_eq!(
        shown(Database::complete_collaboration_payload_deletion(TENANT, PAYLOAD, &mismatched)),
        DatabaseError::StaleGeneration.message()
    );
}

#[test]
fn an_object_that_is_durable_with_other_bytes_is_a_conflict() {
    let finalizable = |size: i64| {
        one(vec![
            ("state", text("durable")),
            ("reserved_bytes", Cell::I64(100)),
            ("size_bytes", Cell::I64(size)),
            ("blake3", bytes(&[7; 32])),
            ("node_id", Cell::Id(NODE)),
            ("drive_id", Cell::Id(DRIVE)),
            ("epoch_state", text("active")),
            ("fencing_token", Cell::I64(9)),
            ("reservation_state", text("committed")),
        ])
    };
    let finalize = |log: &[Reply]| {
        shown(Database::collaboration_finalize_object(
            TENANT,
            OBJECT,
            9,
            authorization(),
            90,
            &[7; 32],
            log,
        ))
    };
    let same = [Reply::Ack, fence(14), finalizable(90), Reply::Ack, one(object_row("durable"))];
    assert_eq!(trace(finalize, &same)[3..], ["commit", sql::OBJECT, "done"]);
    let other = [Reply::Ack, fence(14), finalizable(91), Reply::Ack];
    assert_eq!(
        trace(finalize, &other)[3..],
        ["commit", DatabaseError::Conflict.message()]
    );
    assert_eq!(
        shown(Database::collaboration_finalize_object(
            TENANT,
            OBJECT,
            9,
            authorization(),
            90,
            &[7; 31],
            &[],
        )),
        DatabaseError::InvalidPersistedValue.message()
    );
}
