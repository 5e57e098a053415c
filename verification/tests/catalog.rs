use std::sync::Arc;

use filebelt_database::acl::replacement_actions_are_covered;
use filebelt_database::acl::require_exact_advanced_acl_target;
use filebelt_database::acl::share_preset_actions;
use filebelt_database::acl::target_is_named;
use filebelt_database::acl::AdvancedAclEntryInput;
use filebelt_database::database::Database;
use filebelt_database::error::map_conflict;
use filebelt_database::error::map_security_admission;
use filebelt_database::error::DatabaseError;
use filebelt_database::id::Uuid;
use filebelt_database::identity::IdentityRecord;
use filebelt_database::identity::PRIVATE_DRIVE_QUOTA_BYTES;
use filebelt_database::identity::SHARED_DRIVE_QUOTA_BYTES;
use filebelt_database::job::failed_state;
use filebelt_database::job::retry_delay;
use filebelt_database::row::Cell;
use filebelt_database::row::Column;
use filebelt_database::row::Reply;
use filebelt_database::row::Row;
use filebelt_database::sql::catalog as sql;
use filebelt_database::step::Command;
use filebelt_database::step::ErrorRule;
use filebelt_database::step::Param;
use filebelt_database::step::Step;
use filebelt_database::upload::validate_upload_expectation_shape;

fn id(value: u128) -> Uuid {
    Uuid { value }
}

fn text(value: &str) -> Cell {
    Cell::Text(value.to_owned())
}

fn bytes(value: &[u8]) -> Cell {
    Cell::Bytes(Arc::new(value.to_vec()))
}

fn row(columns: Vec<(&str, Cell)>) -> Row {
    Row {
        columns: columns
            .into_iter()
            .map(|(name, cell)| Column {
                name: name.to_owned(),
                cell,
            })
            .collect(),
    }
}

fn one(columns: Vec<(&str, Cell)>) -> Reply {
    Reply::Rows(vec![row(columns)])
}

fn nothing() -> Reply {
    Reply::Rows(Vec::new())
}

/// What a step asks for, in one word or as the statement itself.
fn shown<T>(step: Step<'_, T>) -> &'static str {
    match step {
        Step::Ask(Command::Begin) => "begin",
        Step::Ask(Command::Commit) => "commit",
        Step::Ask(Command::Rollback) => "rollback",
        Step::Ask(Command::DrawIds(_)) => "draw",
        Step::Ask(Command::Query(query)) => query.sql,
        Step::Done(_) => "done",
        Step::Fail(error) => error.message(),
        Step::Malformed => "malformed",
    }
}

/// The steps of an operation, from its start to the end of the log.
fn trace<F: Fn(&[Reply]) -> &'static str>(operation: F, log: &[Reply]) -> Vec<&'static str> {
    (0..=log.len()).map(|count| operation(&log[..count])).collect()
}

const TENANT: Uuid = Uuid { value: 1 };
const ACTOR: Uuid = Uuid { value: 2 };
const SESSION: Uuid = Uuid { value: 3 };
const DRIVE: Uuid = Uuid { value: 4 };
const PARENT: Uuid = Uuid { value: 5 };
const UPLOAD: Uuid = Uuid { value: 6 };
const PAYLOAD: Uuid = Uuid { value: 7 };

fn fence(resource_acl: i64) -> Reply {
    one(vec![
        ("membership_generation", Cell::I64(11)),
        ("drive_acl_generation", Cell::I64(12)),
        ("namespace_generation", Cell::I64(13)),
        ("resource_acl_generation", Cell::I64(resource_acl)),
    ])
}

fn begin_upload(parts: i32, log: &[Reply]) -> Step<'_, filebelt_database::upload::UploadRecord> {
    Database::begin_upload(
        TENANT,
        ACTOR,
        SESSION,
        DRIVE,
        PARENT,
        None,
        Some(13),
        None,
        "Report",
        "report",
        1_000,
        500,
        parts,
        if parts == 1 { "whole" } else { "chunked" },
        None,
        None,
        None,
        60,
        11,
        12,
        13,
        14,
        log,
    )
}

fn upload_parent(generation: i64) -> Reply {
    one(vec![
        ("kind", text("directory")),
        ("namespace_generation", Cell::I64(generation)),
    ])
}

fn finalized_upload(checkpoint: Cell) -> Reply {
    one(vec![
        ("drive_id", Cell::Id(DRIVE)),
        ("parent_id", Cell::Id(PARENT)),
        ("node_id", Cell::Null),
        ("expected_head_version_id", Cell::Null),
        ("target_display_name", text("Report")),
        ("target_name_key", text("report")),
        ("payload_id", Cell::Id(PAYLOAD)),
        ("declared_size_bytes", Cell::I64(1_000)),
        ("blake3", bytes(&[7; 32])),
        ("declared_media_type", Cell::Null),
        ("collaboration_checkpoint_id", checkpoint),
        ("import_intent_id", Cell::Null),
    ])
}

fn commit_upload(log: &[Reply]) -> Step<'_, (Uuid, Uuid)> {
    Database::commit_upload(TENANT, ACTOR, SESSION, UPLOAD, 70, 11, 12, 13, 14, log)
}

fn identity() -> IdentityRecord {
    IdentityRecord {
        tenant_id: TENANT,
        user_id: id(20),
        principal_id: ACTOR,
        private_drive_id: DRIVE,
        private_root_id: PARENT,
        tenant_admin: false,
        suspended: false,
    }
}

fn audit_action(step: Step<'_, impl Sized>) -> String {
    match step {
        Step::Ask(Command::Query(query)) => {
            assert_eq!(query.sql, sql::INSERT_AUDIT);
            match query.params[5] {
                Param::Text(action) => action.to_owned(),
                _ => panic!("an audit event names its action"),
            }
        }
        _ => panic!("an audit event is asked for"),
    }
}

#[test]
fn quota_defaults_are_tiered() {
    assert_eq!(SHARED_DRIVE_QUOTA_BYTES, PRIVATE_DRIVE_QUOTA_BYTES * 10);
}

#[test]
fn upload_expectations_distinguish_new_files_from_new_versions() {
    let node_id = Uuid::new_v4();
    let head_id = Uuid::new_v4();

    assert!(validate_upload_expectation_shape(None, Some(1), None).is_ok());
    assert!(validate_upload_expectation_shape(Some(node_id), None, Some(head_id)).is_ok());
    assert!(validate_upload_expectation_shape(Some(node_id), Some(1), Some(head_id)).is_ok());

    assert!(validate_upload_expectation_shape(None, None, None).is_err());
    assert!(validate_upload_expectation_shape(None, Some(0), None).is_err());
    assert!(validate_upload_expectation_shape(None, Some(1), Some(head_id)).is_err());
    assert!(validate_upload_expectation_shape(Some(node_id), None, None).is_err());
}

#[test]
fn upload_mutations_are_transactionally_authorization_fenced() {
    let log = [Reply::Ack, fence(14), upload_parent(13)];
    assert_eq!(
        trace(|log: &[Reply]| shown(begin_upload(1, log)), &log),
        vec![
            "begin",
            sql::LOCK_AUTHORIZATION_FENCE,
            sql::BEGIN_UPLOAD_SELECT_NODES_2,
            sql::BOOTSTRAP_TENANT_SELECT_STORAGE_BACKENDS,
        ]
    );
    let stale = [Reply::Ack, fence(15)];
    assert_eq!(shown(begin_upload(1, &stale)), DatabaseError::StaleGeneration.message());
    let moved_parent = [Reply::Ack, fence(14), upload_parent(12)];
    assert_eq!(
        shown(begin_upload(1, &moved_parent)),
        DatabaseError::StaleGeneration.message()
    );

    let log = [Reply::Ack, finalized_upload(Cell::Null), fence(14)];
    assert_eq!(
        trace(|log: &[Reply]| shown(commit_upload(log)), &log),
        vec![
            "begin",
            sql::COMMIT_UPLOAD_SELECT_UPLOAD_SESSIONS,
            sql::LOCK_AUTHORIZATION_FENCE,
            "draw",
        ]
    );
    match commit_upload(&log[..1]) {
        Step::Ask(Command::Query(query)) => {
            assert!(matches!(query.params[2], Param::Id(owner) if owner == ACTOR));
            assert!(matches!(query.params[3], Param::I64(70)));
        }
        _ => panic!("the upload is locked next"),
    }
    assert!(sql::COMMIT_UPLOAD_SELECT_UPLOAD_SESSIONS.contains("u.owner_principal_id=$3"));
    assert!(sql::COMMIT_UPLOAD_SELECT_UPLOAD_SESSIONS.contains("u.fencing_token=$4"));
}

#[test]
fn directory_mutation_is_transactionally_authorization_fenced() {
    let create = |log: &[Reply]| {
        shown(Database::create_directory(
            TENANT, ACTOR, SESSION, DRIVE, PARENT, "Plans", "plans", 5, 11, 12, 13, 14, log,
        ))
    };
    let log = [Reply::Ack, fence(14), one(vec![("namespace_generation", Cell::I64(5))])];
    assert_eq!(
        trace(create, &log),
        vec![
            "begin",
            sql::LOCK_AUTHORIZATION_FENCE,
            sql::CREATE_DIRECTORY_SELECT_NODES,
            "draw",
        ]
    );
    let stale = [Reply::Ack, fence(15)];
    assert_eq!(create(&stale), DatabaseError::StaleGeneration.message());
    let moved = [Reply::Ack, fence(14), one(vec![("namespace_generation", Cell::I64(6))])];
    assert_eq!(create(&moved), DatabaseError::StaleGeneration.message());
    let gone = [Reply::Ack, fence(14), nothing()];
    assert_eq!(create(&gone), DatabaseError::NotFound.message());
}

const VOCABULARY: [&str; 4] = ["MANAGE_ACL", "EXPORT", "READ_CONTENT", "READ_METADATA"];

fn replace<'a>(
    entries: &'a [AdvancedAclEntryInput<'a>],
    covered: &'a [&'a str],
    log: &'a [Reply],
) -> Step<'a, (Uuid, i64)> {
    Database::replace_advanced_acl_entries(
        &VOCABULARY,
        TENANT,
        ACTOR,
        SESSION,
        DRIVE,
        PARENT,
        "user",
        Some("  someone@example.org "),
        None,
        id(30),
        entries,
        covered,
        11,
        12,
        13,
        14,
        log,
    )
}

#[test]
fn advanced_acl_replacement_is_fenced_and_preserves_share_rows() {
    let entries = [AdvancedAclEntryInput {
        action: "EXPORT",
        effect: "allow",
        inheritance: "self",
    }];
    let covered = ["MANAGE_ACL", "EXPORT", "READ_CONTENT"];
    let target = one(vec![("principal_id", Cell::Id(id(30)))]);
    let stored = one(vec![("action", text("READ_CONTENT"))]);
    let log = [
        Reply::Ack,
        fence(14),
        target,
        stored,
        one(vec![("owner_principal_id", Cell::Id(id(31)))]),
        Reply::Count(2),
        Reply::Count(1),
        one(vec![("acl_generation", Cell::I64(15))]),
        Reply::Count(1),
        one(vec![("seconds", Cell::I64(1_700_000_000))]),
    ];
    let steps = trace(|log: &[Reply]| shown(replace(&entries, &covered, log)), &log);
    assert_eq!(
        steps,
        vec![
            "begin",
            sql::LOCK_AUTHORIZATION_FENCE,
            sql::RESOLVE_ADVANCED_ACL_TARGET_SELECT_USERS,
            sql::ADVANCED_ACL_ACTIONS_FOR_TARGET,
            sql::REPLACE_ADVANCED_ACL_ENTRIES_SELECT_DRIVES,
            sql::REPLACE_ADVANCED_ACL_ENTRIES_DELETE_ACL_ENTRIES,
            sql::REPLACE_ADVANCED_ACL_ENTRIES_INSERT_ACL_ENTRIES,
            sql::REPLACE_ADVANCED_ACL_ENTRIES_SELECT_NODES,
            sql::INSERT_AUDIT,
            sql::INSERT_OUTBOX_SELECT_VALUE,
            sql::INSERT_OUTBOX_INSERT_OUTBOX_EVENTS,
        ]
    );
    match replace(&entries, &covered, &log) {
        Step::Ask(Command::Query(query)) => {
            assert!(matches!(query.params[2], Param::Text("filebelt.v1.acl.changed")));
        }
        _ => panic!("the event is written next"),
    }
    assert!(sql::REPLACE_ADVANCED_ACL_ENTRIES_DELETE_ACL_ENTRIES
        .contains("direct_share_id IS NULL"));
    // The owner of the drive is no target.
    let own = [
        Reply::Ack,
        fence(14),
        one(vec![("principal_id", Cell::Id(id(30)))]),
        nothing(),
        one(vec![("owner_principal_id", Cell::Id(id(30)))]),
    ];
    assert_eq!(
        shown(replace(&entries, &covered, &own)),
        DatabaseError::Conflict.message()
    );
    // Another target than the one that was looked at is stale.
    let drifted = [
        Reply::Ack,
        fence(14),
        one(vec![("principal_id", Cell::Id(id(32)))]),
    ];
    assert_eq!(
        shown(replace(&entries, &covered, &drifted)),
        DatabaseError::StaleGeneration.message()
    );
    // An action that would be deleted has to be covered too.
    let uncovered = [
        Reply::Ack,
        fence(14),
        one(vec![("principal_id", Cell::Id(id(30)))]),
        one(vec![("action", text("READ_METADATA"))]),
    ];
    assert_eq!(
        shown(replace(&entries, &covered, &uncovered)),
        DatabaseError::StaleGeneration.message()
    );
    let unknown = [AdvancedAclEntryInput {
        action: "fly",
        effect: "allow",
        inheritance: "self",
    }];
    assert_eq!(
        shown(replace(&unknown, &covered, &[])),
        DatabaseError::InvalidPersistedValue.message()
    );
}

#[test]
fn advanced_acl_replacement_coverage_requires_submitted_and_deleted_actions() {
    let submitted_actions = ["EXPORT"];
    let current_actions = ["READ_CONTENT"];
    let mut covered_actions = vec!["MANAGE_ACL", "EXPORT"];

    assert!(!replacement_actions_are_covered(
        &covered_actions,
        &submitted_actions,
        &current_actions,
    ));

    covered_actions.push("READ_CONTENT");
    assert!(replacement_actions_are_covered(
        &covered_actions,
        &submitted_actions,
        &current_actions,
    ));

    assert!(!replacement_actions_are_covered(&[], &[], &[]));
    assert!(replacement_actions_are_covered(&["MANAGE_ACL"], &[], &[]));
}

#[test]
fn advanced_acl_replacement_requires_the_preflight_target() {
    let expected = Uuid::new_v4();

    assert!(require_exact_advanced_acl_target(expected, expected).is_ok());
    assert!(matches!(
        require_exact_advanced_acl_target(expected, Uuid::new_v4()),
        Err(DatabaseError::StaleGeneration)
    ));
}

#[test]
fn collaboration_fence_uses_shared_locks_without_policy_mutation_privileges() {
    let fence = sql::LOCK_COLLABORATION_AUTHORIZATION_FENCE;
    assert!(fence.contains("FOR SHARE OF s,u,p,d,n"));
    assert!(fence.contains("u.status='active'"));
    assert!(!fence.contains("FOR UPDATE"));
}

#[test]
fn oidc_attempts_are_reclaimed_and_admission_bounded() {
    let create = |log: &[Reply]| {
        shown(Database::create_oidc_attempt(
            TENANT,
            &[1],
            &[2],
            &[3],
            "nonce",
            "verifier",
            "/",
            None,
            log,
        ))
    };
    let open = |active: i64| {
        [
            Reply::Ack,
            one(vec![("id", Cell::Id(TENANT))]),
            Reply::Count(3),
            one(vec![("count", Cell::I64(active))]),
        ]
    };
    assert_eq!(
        trace(create, &open(4095)),
        vec![
            "begin",
            sql::CREATE_OIDC_ATTEMPT_SELECT_TENANTS,
            sql::CREATE_OIDC_ATTEMPT_DELETE_OIDC_LOGIN_ATTEMPTS,
            sql::CREATE_OIDC_ATTEMPT_COUNT_OIDC_LOGIN_ATTEMPTS,
            sql::CREATE_OIDC_ATTEMPT_INSERT_OIDC_LOGIN_ATTEMPTS,
        ]
    );
    assert_eq!(create(&open(4096)), DatabaseError::AdmissionLimited.message());
    assert!(sql::CREATE_OIDC_ATTEMPT_DELETE_OIDC_LOGIN_ATTEMPTS
        .contains("DELETE FROM oidc_login_attempts"));
    assert!(sql::CREATE_OIDC_ATTEMPT_SELECT_TENANTS.contains("FOR UPDATE"));
}

fn snapshot_entry(principal: Uuid, granted_to: Uuid) -> Row {
    row(vec![
        ("actor_principal_id", Cell::Id(principal)),
        ("id", Cell::Id(id(60))),
        ("resource_id", Cell::Id(PARENT)),
        ("principal_id", Cell::Id(granted_to)),
        ("action", text("READ_CONTENT")),
        ("effect", text("allow")),
        ("inheritance", text("self")),
        ("depth", Cell::I32(0)),
        ("direct", Cell::Bool(true)),
        ("generation", Cell::I64(1)),
        ("created_by", Cell::Id(id(31))),
        ("direct_share_id", Cell::Null),
        ("direct_share_active", Cell::Bool(false)),
    ])
}

#[test]
fn authorization_snapshots_collect_recursive_share_creator_facts_atomically() {
    assert!(sql::AUTHORIZATION_SNAPSHOT_SET_ISOLATION
        .contains("SET TRANSACTION ISOLATION LEVEL REPEATABLE READ"));
    let graph = sql::AUTHORIZATION_SNAPSHOT_WITH_GRAPH_PRINCIPALS;
    assert!(graph.contains("WITH RECURSIVE graph_principals"));
    assert!(graph.contains("share.revoked_at IS NULL"));
    assert!(graph.contains("a.inheritance='self_and_descendants'")
        || sql::AUTHORIZATION_SNAPSHOT_WITH_UNNEST.contains("a.inheritance='self_and_descendants'"));
    let entries = sql::AUTHORIZATION_SNAPSHOT_WITH_UNNEST;
    assert!(graph.contains("ancestry.depth=1 AND a.inheritance IN")
        || entries.contains("ancestry.depth=1 AND a.inheritance IN"));
    assert!(graph.contains("ancestry.depth>1 AND a.inheritance IN")
        || entries.contains("ancestry.depth>1 AND a.inheritance IN"));
    assert!(entries.contains("AS direct_share_active"));

    let group = |principal: Uuid| {
        row(vec![
            ("user_principal_id", Cell::Id(principal)),
            ("group_id", Cell::Id(id(40))),
            ("principal_id", Cell::Id(id(41))),
            ("role", text("member")),
            ("generation", Cell::I64(1)),
        ])
    };
    let log = [
        Reply::Ack,
        Reply::Count(0),
        one(vec![
            ("owner_principal_id", Cell::Id(id(31))),
            ("owner_kind", text("user")),
            ("owner_group_id", Cell::Null),
            ("membership_generation", Cell::I64(11)),
            ("drive_acl_generation", Cell::I64(12)),
            ("namespace_generation", Cell::I64(13)),
            ("resource_namespace_generation", Cell::I64(13)),
            ("resource_acl_generation", Cell::I64(14)),
        ]),
        nothing(),
        Reply::Rows(vec![
            row(vec![("principal_id", Cell::Id(id(31)))]),
            row(vec![("principal_id", Cell::Id(ACTOR))]),
        ]),
        Reply::Rows(vec![group(id(31))]),
        Reply::Rows(vec![
            snapshot_entry(ACTOR, ACTOR),
            snapshot_entry(id(31), id(31)),
            snapshot_entry(ACTOR, id(41)),
        ]),
        Reply::Ack,
    ];
    let snapshot = |log: &[Reply]| {
        shown(Database::authorization_snapshot(TENANT, ACTOR, DRIVE, PARENT, log))
    };
    let steps = trace(snapshot, &log);
    assert_eq!(steps[1], sql::AUTHORIZATION_SNAPSHOT_SET_ISOLATION);
    assert_eq!(steps[7], "commit");
    assert_eq!(steps[8], "done");
    match Database::authorization_snapshot(TENANT, ACTOR, DRIVE, PARENT, &log) {
        Step::Done(snapshot) => {
            assert_eq!(snapshot.entries.len(), 2);
            let creators: Vec<Uuid> =
                snapshot.creator_facts.iter().map(|fact| fact.principal_id).collect();
            assert_eq!(creators, vec![ACTOR, id(31)]);
            assert_eq!(snapshot.creator_facts[1].entries.len(), 1);
            assert_eq!(snapshot.creator_facts[1].groups.len(), 1);
        }
        _ => panic!("the snapshot is read"),
    }
}

#[test]
fn descendant_share_admission_maps_the_database_guard_code() {
    assert!(sql::DESCENDANT_SHARE_ADMISSION_OPEN.contains("descendant_share_admission_open($1)"));
    assert_eq!(
        map_security_admission(Some("FB001"), false),
        DatabaseError::SecurityAdmissionBlocked
    );
    assert_eq!(map_security_admission(Some("23505"), true), DatabaseError::Conflict);
    assert_eq!(map_security_admission(Some("40001"), false), DatabaseError::Sql);
    assert_eq!(map_security_admission(None, false), DatabaseError::Sql);
    assert_eq!(map_conflict(true), DatabaseError::Conflict);
    assert_eq!(map_conflict(false), DatabaseError::Sql);
}

#[test]
fn session_lifecycle_writes_append_audit_events() {
    let identity = identity();
    let create = |log: &[Reply]| {
        shown(Database::create_session(&identity, 1, &[1], &[2], 60, 600, None, log))
    };
    let log = [
        Reply::Ids(vec![SESSION]),
        Reply::Ack,
        Reply::Count(1),
        Reply::Count(1),
        Reply::Ack,
    ];
    assert_eq!(
        trace(create, &log),
        vec!["draw", "begin", sql::CREATE_SESSION, sql::INSERT_AUDIT, "commit", "done"]
    );
    assert_eq!(
        audit_action(Database::create_session(
            &identity, 1, &[1], &[2], 60, 600, None, &log[..3]
        )),
        "session.create"
    );

    let revoke = |log: &[Reply]| shown(Database::revoke_session(TENANT, ACTOR, SESSION, log));
    let log = [
        Reply::Ack,
        one(vec![("principal_id", Cell::Id(id(21)))]),
        Reply::Count(1),
        Reply::Ack,
    ];
    assert_eq!(
        trace(revoke, &log),
        vec!["begin", sql::REVOKE_SESSION, sql::INSERT_AUDIT, "commit", "done"]
    );
    assert_eq!(
        audit_action(Database::revoke_session(TENANT, ACTOR, SESSION, &log[..2])),
        "session.revoke"
    );
    assert!(matches!(
        Database::revoke_session(TENANT, ACTOR, SESSION, &[Reply::Ack, nothing()]),
        Step::Done(false)
    ));

    let revoke_all =
        |log: &[Reply]| shown(Database::revoke_all_sessions(TENANT, ACTOR, id(20), None, log));
    let log = [
        Reply::Ack,
        Reply::Rows(vec![
            row(vec![("id", Cell::Id(id(22)))]),
            row(vec![("id", Cell::Id(id(23)))]),
        ]),
        Reply::Count(1),
        Reply::Ack,
    ];
    assert_eq!(
        trace(revoke_all, &log),
        vec!["begin", sql::REVOKE_ALL_SESSIONS, sql::INSERT_AUDIT, "commit", "done"]
    );
    assert_eq!(
        audit_action(Database::revoke_all_sessions(TENANT, ACTOR, id(20), None, &log[..2])),
        "session.revoke_all"
    );
    assert!(matches!(
        Database::revoke_all_sessions(TENANT, ACTOR, id(20), None, &log),
        Step::Done(2)
    ));
}

#[test]
fn backend_capacity_reservations_lock_before_drive_updates() {
    let log = [
        Reply::Ack,
        fence(14),
        upload_parent(13),
        one(vec![("id", Cell::Id(id(30)))]),
    ];
    let steps = trace(|log: &[Reply]| shown(begin_upload(1, log)), &log);
    let backend_lock = steps
        .iter()
        .position(|sql| {
            sql.contains("storage_backends WHERE tenant_id=$1 AND kind='posix' FOR UPDATE")
        })
        .expect("shared backend lock exists");
    let drive_reservation = steps
        .iter()
        .position(|sql| sql.contains("UPDATE drives SET reserved_bytes"))
        .expect("drive reservation exists");
    assert!(backend_lock < drive_reservation);
}

#[test]
fn direct_uploads_cannot_claim_mcp_provenance() {
    for statement in [
        sql::BEGIN_UPLOAD_SELECT_NODES,
        sql::BEGIN_UPLOAD_SELECT_NODES_2,
        sql::BEGIN_UPLOAD_SELECT_CHECKPOINTS,
        sql::BEGIN_UPLOAD_SELECT_IMPORT_INTENTS,
        sql::BEGIN_UPLOAD_UPDATE_DRIVES,
        sql::BEGIN_UPLOAD_INSERT_PAYLOAD_OBJECTS,
        sql::BEGIN_UPLOAD_INSERT_UPLOAD_SESSIONS,
        sql::BEGIN_UPLOAD_INSERT_QUOTA_RESERVATIONS,
        sql::BEGIN_UPLOAD_INSERT_UPLOAD_PARTS,
    ] {
        assert!(!statement.contains("mcp_invocation_id"));
    }
    for statement in [
        sql::COMMIT_UPLOAD_SELECT_UPLOAD_SESSIONS,
        sql::COMMIT_UPLOAD_SELECT_CHECKPOINTS,
        sql::COMMIT_UPLOAD_SELECT_IMPORT_INTENTS,
        sql::COMMIT_UPLOAD_INSERT_FILE_VERSIONS,
        sql::COMMIT_UPLOAD_UPDATE_NODES,
        sql::COMMIT_UPLOAD_UPDATE_UPLOAD_SESSIONS,
    ] {
        assert!(!statement.contains("mcp_invocation_id"));
    }
    let log = [
        Reply::Ack,
        finalized_upload(Cell::Null),
        fence(14),
        Reply::Ids(vec![id(50)]),
        Reply::Count(1),
        Reply::Count(1),
        Reply::Ids(vec![id(51)]),
        one(vec![("ordinal", Cell::I64(1))]),
        one(vec![("display_name", text("Someone"))]),
    ];
    match commit_upload(&log) {
        Step::Ask(Command::Query(query)) => {
            assert_eq!(query.sql, sql::COMMIT_UPLOAD_INSERT_FILE_VERSIONS);
            assert!(matches!(query.params.last(), Some(Param::Bool(false))));
        }
        _ => panic!("the version is inserted next"),
    }
}

#[test]
fn upload_finalization_is_leased_fenced_and_recoverable() {
    let claim = sql::CLAIM_UPLOAD_FINALIZATION_UPDATE_UPLOAD_SESSIONS;
    assert!(claim.contains("state='open'"));
    assert!(claim.contains("SET state='finalizing'"));
    assert!(claim.contains("finalization_owner=$4"));

    let completion = sql::MARK_UPLOAD_FINALIZED_UPDATE_UPLOAD_SESSIONS;
    assert!(completion.contains("state='finalizing'"));
    assert!(completion.contains("finalization_owner=$4"));

    let recovery = sql::REOPEN_EXPIRED_UPLOAD_FINALIZATIONS_UPDATE_UPLOAD_SESSIONS;
    assert!(recovery.contains("fencing_token=fencing_token+1"));
    assert!(recovery.contains("finalization_lease_expires_at<=clock_timestamp()"));

    let reopen =
        |log: &[Reply]| shown(Database::reopen_expired_upload_finalizations(TENANT, log));
    let log = [
        Reply::Ack,
        Reply::Rows(vec![
            row(vec![("payload_id", Cell::Id(PAYLOAD))]),
            row(vec![("payload_id", Cell::Id(id(33)))]),
        ]),
        Reply::Count(1),
        Reply::Count(1),
        Reply::Ack,
    ];
    assert_eq!(
        trace(reopen, &log),
        vec![
            "begin",
            recovery,
            sql::ABORT_UPLOAD_FINALIZATION_UPDATE_PAYLOAD_OBJECTS,
            sql::ABORT_UPLOAD_FINALIZATION_UPDATE_PAYLOAD_OBJECTS,
            "commit",
            "done",
        ]
    );
    let lost = [
        Reply::Ack,
        one(vec![("payload_id", Cell::Id(PAYLOAD))]),
        Reply::Count(0),
    ];
    assert_eq!(reopen(&lost), DatabaseError::StaleGeneration.message());
    let claimed = [Reply::Ack, nothing()];
    assert_eq!(
        shown(Database::claim_upload_finalization(TENANT, UPLOAD, 70, id(34), 60, &claimed)),
        DatabaseError::Conflict.message()
    );
}

#[test]
fn disabled_principals_cannot_refresh_authorization_projections() {
    assert!(sql::AUTHORIZATION_SNAPSHOT_SELECT_DRIVES
        .contains("actor.id=$4 AND actor.disabled_at IS NULL"));
    assert!(sql::PUBLISH_AUTHORIZATION_GENERATIONS_SELECT_API_SESSIONS
        .contains("u.status='active' AND p.disabled_at IS NULL"));
}

#[test]
fn an_upload_reserves_quota_and_makes_its_parts() {
    let mut log = vec![
        Reply::Ack,
        fence(14),
        upload_parent(13),
        one(vec![("id", Cell::Id(id(30)))]),
        one(vec![("id", Cell::Id(DRIVE))]),
        one(vec![("id", Cell::Id(id(30)))]),
        Reply::Ids(vec![UPLOAD, PAYLOAD, id(35)]),
        Reply::Count(1),
        Reply::Count(1),
        Reply::Count(1),
        Reply::Count(1),
        Reply::Count(1),
        Reply::Count(1),
        Reply::Ack,
    ];
    let steps = trace(|log: &[Reply]| shown(begin_upload(2, log)), &log);
    assert_eq!(
        steps[7..],
        [
            sql::BEGIN_UPLOAD_INSERT_PAYLOAD_OBJECTS,
            sql::BEGIN_UPLOAD_INSERT_UPLOAD_SESSIONS,
            sql::BEGIN_UPLOAD_INSERT_QUOTA_RESERVATIONS,
            sql::BEGIN_UPLOAD_INSERT_UPLOAD_PARTS,
            sql::BEGIN_UPLOAD_INSERT_UPLOAD_PARTS,
            sql::INSERT_AUDIT,
            "commit",
            "done",
        ]
    );
    match begin_upload(2, &log) {
        Step::Done(upload) => {
            assert_eq!(upload.upload_id, UPLOAD);
            assert_eq!(upload.payload_id, PAYLOAD);
            assert_eq!(upload.payload_locator, id(35));
            assert_eq!(upload.target_display_name, "Report");
            assert_eq!(upload.declared_size_bytes, 1_000);
        }
        _ => panic!("the upload is open"),
    }
    log.truncate(4);
    log.push(nothing());
    assert_eq!(shown(begin_upload(2, &log)), DatabaseError::QuotaExceeded.message());
    log.truncate(3);
    log.push(nothing());
    assert_eq!(shown(begin_upload(2, &log)), DatabaseError::StorageUnavailable.message());
}

#[test]
fn an_acl_target_is_trimmed_before_it_is_measured() {
    assert!(target_is_named("user", Some(" someone@example.org "), None));
    assert!(!target_is_named("user", Some("   "), None));
    assert!(!target_is_named("user", None, None));
    assert!(target_is_named("group", None, Some(id(40))));
    assert!(!target_is_named("group", None, None));
    assert!(!target_is_named("robot", None, Some(id(40))));
    let long = format!("{}@example.org", "x".repeat(320));
    assert!(!target_is_named("user", Some(&long), None));
}

#[test]
fn presets_name_their_actions() {
    let viewer = share_preset_actions("viewer").expect("viewer is a preset");
    let contributor = share_preset_actions("contributor").expect("contributor is a preset");
    let manager = share_preset_actions("manager").expect("manager is a preset");
    assert_eq!(
        viewer,
        vec!["READ_METADATA", "LIST_CHILDREN", "READ_CONTENT", "USE_EXTERNAL_EDITOR"]
    );
    assert!(viewer.iter().all(|action| contributor.contains(action)));
    assert!(contributor.iter().all(|action| manager.contains(action)));
    assert!(matches!(
        share_preset_actions("robot"),
        Err(DatabaseError::InvalidPersistedValue)
    ));
}

#[test]
fn failed_jobs_wait_longer_each_time() {
    assert_eq!(retry_delay(1), 2);
    assert!(retry_delay(2) > retry_delay(1));
    assert!(retry_delay(i32::MAX) >= retry_delay(7));
    assert_eq!(retry_delay(3), 8);
    assert_eq!(retry_delay(100), 256);
    assert_eq!(failed_state(true, 1), "retry_wait");
    assert_eq!(failed_state(true, 8), "terminal");
    assert_eq!(failed_state(false, 1), "terminal");
}

#[test]
fn expired_uploads_release_their_reservations() {
    let expired = row(vec![
        ("tenant_id", Cell::Id(TENANT)),
        ("id", Cell::Id(UPLOAD)),
        ("drive_id", Cell::Id(DRIVE)),
        ("declared_size_bytes", Cell::I64(1_000)),
    ]);
    let log = [
        Reply::Ack,
        Reply::Rows(vec![expired]),
        Reply::Count(1),
        Reply::Count(1),
        Reply::Count(1),
        Reply::Ack,
    ];
    let expire = |log: &[Reply]| shown(Database::expire_uploads(TENANT, log));
    assert_eq!(
        trace(expire, &log),
        vec![
            "begin",
            sql::EXPIRE_UPLOADS_UPDATE_UPLOAD_SESSIONS,
            sql::COMPLETE_ORPHAN_PAYLOAD_DELETION_UPDATE_QUOTA_RESERVATIONS,
            sql::EXPIRE_UPLOADS_UPDATE_DRIVES,
            sql::EXPIRE_UPLOADS_INSERT_JOBS,
            "commit",
            "done",
        ]
    );
    assert!(matches!(Database::expire_uploads(TENANT, &log), Step::Done(1)));
}

#[test]
fn a_new_directory_may_collide_with_a_name() {
    let log = [
        Reply::Ack,
        fence(14),
        one(vec![("namespace_generation", Cell::I64(5))]),
        Reply::Ids(vec![id(50)]),
    ];
    match Database::create_directory(
        TENANT, ACTOR, SESSION, DRIVE, PARENT, "Plans", "plans", 5, 11, 12, 13, 14, &log,
    ) {
        Step::Ask(Command::Query(query)) => {
            assert_eq!(query.sql, sql::CREATE_DIRECTORY_INSERT_NODES);
            assert!(query.rule == ErrorRule::UniqueConflict);
        }
        _ => panic!("the node is inserted next"),
    }
    let reused = Reply::Rows(vec![Row { columns: Vec::new() }]);
    assert_eq!(
        shown(Database::tenant_by_slug("main", &[reused])),
        DatabaseError::Sql.message()
    );
}
