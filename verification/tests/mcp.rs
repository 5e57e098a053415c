use std::sync::Arc;

use filebelt_database::database::Database;
use filebelt_database::error::DatabaseError;
use filebelt_database::id::Uuid;
use filebelt_database::json::Json;
use filebelt_database::json::Member;
use filebelt_database::json::Number;
use filebelt_database::mcp::broker_idempotency::validate_operation;
use filebelt_database::mcp::broker_idempotency::validate_measured_result;
use filebelt_database::mcp::broker_idempotency::validate_safe_result;
use filebelt_database::mcp::broker_idempotency::McpBrokerOperationIdempotency;
use filebelt_database::mcp::broker_idempotency::McpBrokerOperationStart;
use filebelt_database::mcp::grant::NewMcpDataGrant;
use filebelt_database::mcp::idempotency::McpMutationIdempotency;
use filebelt_database::mcp::idempotency::McpMutationStart;
use filebelt_database::mcp::invocation::McpActivityRecord;
use filebelt_database::mcp::invocation::NewMcpInvocation;
use filebelt_database::mcp::management::validate_block_rule;
use filebelt_database::mcp::operations::valid_spiffe_uri;
use filebelt_database::mcp::policy::authentication_state;
use filebelt_database::mcp::policy::capability_state;
use filebelt_database::mcp::policy::quarantine_state;
use filebelt_database::mcp::policy::validation_state;
use filebelt_database::mcp::policy::ValidationState;
use filebelt_database::mcp::runner_slots::validate_limits;
use filebelt_database::row::Cell;
use filebelt_database::row::Column;
use filebelt_database::row::Reply;
use filebelt_database::row::Row;
use filebelt_database::sql::catalog;
use filebelt_database::sql::mcp as sql;
use filebelt_database::step::Command;
use filebelt_database::step::Param;
use filebelt_database::step::Step;

fn id(value: u128) -> Uuid {
    Uuid { value }
}

fn text(value: &str) -> Cell {
    Cell::Text(value.to_owned())
}

fn bytes(value: &[u8]) -> Cell {
    Cell::Bytes(Arc::new(value.to_vec()))
}

fn row(columns: Vec<(&str, Cell)>) -> Row {
    Row {
        columns: columns
            .into_iter()
            .map(|(name, cell)| Column {
                name: name.to_owned(),
                cell,
            })
            .collect(),
    }
}

fn one(columns: Vec<(&str, Cell)>) -> Reply {
    Reply::Rows(vec![row(columns)])
}

fn nothing() -> Reply {
    Reply::Rows(Vec::new())
}

/// What a step asks for, in one word or as the statement itself.
fn shown<T>(step: Step<'_, T>) -> &'static str {
    match step {
        Step::Ask(Command::Begin) => "begin",
        Step::Ask(Command::Commit) => "commit",
        Step::Ask(Command::Rollback) => "rollback",
        Step::Ask(Command::DrawIds(_)) => "draw",
        Step::Ask(Command::Query(query)) => query.sql,
        Step::Done(_) => "done",
        Step::Fail(error) => error.message(),
        Step::Malformed => "malformed",
    }
}

/// The steps of an operation, from its start to the end of the log.
fn trace<F: Fn(&[Reply]) -> &'static str>(operation: F, log: &[Reply]) -> Vec<&'static str> {
    (0..=log.len()).map(|count| operation(&log[..count])).collect()
}

const TENANT: Uuid = Uuid { value: 1 };
const PRINCIPAL: Uuid = Uuid { value: 2 };
const REGISTRATION: Uuid = Uuid { value: 3 };
const FINGERPRINT: [u8; 32] = [8; 32];

fn object(members: Vec<(&str, Json)>) -> Json {
    Json::Object(
        members
            .into_iter()
            .map(|(key, value)| Member {
                key: key.to_owned(),
                value,
            })
            .collect(),
    )
}

fn word(value: &str) -> Json {
    Json::Text(value.to_owned())
}

fn number(value: u64) -> Json {
    Json::Number(Number::NonNegative(value))
}

#[test]
fn persisted_policy_state_is_closed() {
    assert_eq!(
        validation_state("valid").expect("state"),
        ValidationState::Valid
    );
    assert!(validation_state("future").is_err());
    assert!(authentication_state("future").is_err());
    assert!(capability_state("future").is_err());
    assert!(quarantine_state("future").is_err());
}

#[test]
fn database_queries_never_persist_arguments_or_results() {
    for statement in [
        sql::CREATE_REGISTRATION,
        sql::REGISTRATION,
        sql::LIST_REGISTRATIONS,
        sql::UPDATE_REGISTRATION_STATE,
        sql::REVOKE_REGISTRATION,
        sql::STORE_CAPABILITY_SNAPSHOT_SELECT_REGISTRATIONS,
        sql::STORE_CAPABILITY_SNAPSHOT_SELECT_CAPABILITY_SNAPSHOTS,
        sql::STORE_CAPABILITY_SNAPSHOT_UPDATE_CAPABILITY_SNAPSHOTS,
        sql::STORE_CAPABILITY_SNAPSHOT_INSERT_CAPABILITY_SNAPSHOTS,
        sql::STORE_CAPABILITY_SNAPSHOT_INSERT_CAPABILITIES,
        sql::STORE_CAPABILITY_SNAPSHOT_UPDATE_REGISTRATIONS,
        sql::REPLACE_REGISTRATION_SECRET_SELECT_REGISTRATIONS,
        sql::REPLACE_REGISTRATION_SECRET_DELETE_OAUTH_ATTEMPTS,
        sql::REPLACE_REGISTRATION_SECRET_DELETE_SECRET_ENVELOPES,
        sql::REPLACE_REGISTRATION_SECRET_INSERT_SECRET_ENVELOPES,
        sql::REPLACE_REGISTRATION_SECRET_UPDATE_REGISTRATIONS,
        sql::SECRET_ENVELOPE,
        sql::SECRET_METADATA,
        sql::REPLACE_REGISTRATION_CONFIGURATION_AND_ERASE_SELECT_VALUE,
        sql::REPLACE_REGISTRATION_CONFIGURATION_AND_ERASE_SELECT_REGISTRATIONS,
        sql::CRYPTOGRAPHICALLY_ERASE_REGISTRATION_AT_REVISION_SELECT_REGISTRATIONS,
        sql::CRYPTOGRAPHICALLY_ERASE_REGISTRATION_AT_REVISION_UPDATE_REGISTRATIONS,
        sql::AUTHORITY_SNAPSHOT,
        sql::ATTACHMENT_METADATA,
        sql::RECORD_INVOCATION_ATTACHMENT,
        sql::LOCK_DATA_GRANT_VERSION,
        sql::INSERT_DATA_GRANT_SELECT_REGISTRATIONS,
        sql::INSERT_DATA_GRANT_INSERT_DATA_GRANTS,
        sql::MARK_BROKER_OPERATION_APPLIED,
        sql::UPDATE_REGISTRATION_STATE_2,
        sql::REVOKE_REGISTRATION_2,
        sql::DELETE_REGISTRATION_UPDATE_REGISTRATIONS,
        sql::DELETE_REGISTRATION_INSERT_DELETION_TOMBSTONES,
        sql::STORE_CAPABILITY_SNAPSHOT_SELECT_REGISTRATIONS_2,
        sql::STORE_CAPABILITY_SNAPSHOT_SELECT_CAPABILITY_SNAPSHOTS_2,
        sql::STORE_CAPABILITY_SNAPSHOT_INSERT_CAPABILITY_SNAPSHOTS_2,
        sql::STORE_CAPABILITY_SNAPSHOT_UPDATE_REGISTRATIONS_2,
        sql::REVOKE_APPROVAL,
        sql::REVIEW_CAPABILITIES_INSERT_CAPABILITY_REVIEWS,
        sql::REVIEW_CAPABILITIES_SELECT_CAPABILITY_REVIEWS,
        sql::CREATE_INVOCATION_INTENT,
        sql::CANCEL_INVOCATION_SELECT_INVOCATIONS,
        sql::CANCEL_INVOCATION_UPDATE_INVOCATIONS,
        sql::REVOKE_DATA_GRANT,
        sql::CREATE_MANAGED_TEMPLATE,
        sql::UPDATE_MANAGED_TEMPLATE,
        sql::DELETE_MANAGED_TEMPLATE,
        sql::ASSIGN_TEMPLATE,
        sql::REVOKE_TEMPLATE_ASSIGNMENT_SELECT_MANAGED_TEMPLATES,
        sql::REVOKE_TEMPLATE_ASSIGNMENT_UPDATE_TEMPLATE_ASSIGNMENTS,
        sql::REVOKE_TEMPLATE_ASSIGNMENT_UPDATE_REGISTRATIONS,
        sql::TEMPLATE_ASSIGNMENT_COUNT,
        sql::CREATE_SERVICE_PRINCIPAL_INSERT_PRINCIPALS,
        sql::CREATE_SERVICE_PRINCIPAL_INSERT_SERVICE_PRINCIPALS,
        sql::CREATE_SERVICE_PRINCIPAL_INSERT_SERVICE_IDENTITY_BINDINGS,
        sql::UPDATE_SERVICE_PRINCIPAL_UPDATE_SERVICE_PRINCIPALS,
        sql::UPDATE_SERVICE_PRINCIPAL_UPDATE_SERVICE_IDENTITY_BINDINGS,
        sql::UPDATE_SERVICE_PRINCIPAL_UPDATE_SERVICE_PRINCIPALS_2,
        sql::DELETE_SERVICE_PRINCIPAL_UPDATE_SERVICE_PRINCIPALS,
        sql::REVOKE_SERVICE_GRANT,
        sql::CREATE_ADMIN_BLOCK_RULE,
        sql::DELETE_ADMIN_BLOCK_RULE,
        sql::BEGIN_BROKER_OPERATION_INSERT_BROKER_OPERATION_RECEIPTS,
        sql::BEGIN_BROKER_OPERATION_SELECT_BROKER_OPERATION_RECEIPTS,
        sql::BEGIN_BROKER_OPERATION_UPDATE_BROKER_OPERATION_RECEIPTS,
        sql::PURGE_MCP_BROKER_OPERATION_RECEIPTS,
        sql::BEGIN_OAUTH_ATTEMPT_SELECT_REGISTRATIONS,
        sql::BEGIN_OAUTH_ATTEMPT_INSERT_OAUTH_ATTEMPTS,
        sql::BEGIN_OAUTH_ATTEMPT_INSERT_OAUTH_ATTEMPT_SECRETS,
        sql::FINALIZE,
        sql::BEGIN_OAUTH_ATTEMPT_INSERT_OAUTH_ATTEMPTS_2,
        sql::CONSUME_OAUTH_ATTEMPT_UPDATE_OAUTH_ATTEMPTS,
        sql::CONSUME_OAUTH_ATTEMPT_SELECT_OAUTH_ATTEMPT_SECRETS,
        sql::CONSUME_OAUTH_ATTEMPT_DELETE_OAUTH_ATTEMPT_SECRETS,
        sql::OAUTH_ATTEMPT_REGISTRATION,
        sql::CREATE_INVOCATION_INTENT_2,
        sql::INVOCATION_INTENT_FOR_APPROVAL,
        sql::CONSUME_INVOCATION_INTENT,
        sql::START_INVOCATION_INSERT_POLICY_GENERATIONS,
        sql::START_INVOCATION_SELECT_POLICY_GENERATIONS,
        sql::START_INVOCATION_INSERT_INVOCATIONS,
        sql::FINISH_INVOCATION,
        sql::MARKDOWN_CONTEXT_DRIVE,
        sql::ACTIVITY,
        sql::TAKE_RATE_LIMIT,
        sql::REVOCATION_GENERATIONS_SELECT_PRINCIPALS,
        sql::INVOCATION_IS_ACTIVE,
        sql::INSERT_APPROVAL_RULE,
        sql::REGISTRATION_BY_ID,
        sql::DELETE_REGISTRATION_UPDATE_REGISTRATIONS_2,
        sql::CURRENT_CAPABILITY_SNAPSHOT,
        sql::CAPABILITY_REVIEWS,
        sql::CAPABILITY_BY_FINGERPRINT,
        sql::APPROVAL_RULES,
        sql::CONSUME_MATCHING_APPROVAL,
        sql::DATA_GRANTS,
        sql::NODE_DATA_GRANTS,
        sql::REVOKE_DATA_GRANT_2,
        sql::MANAGED_TEMPLATE,
        sql::TEMPLATE_ASSIGNMENTS,
        sql::SERVICE_PRINCIPALS,
        sql::SERVICE_PRINCIPAL,
        sql::UPDATE_SERVICE_PRINCIPAL_UPDATE_SERVICE_PRINCIPALS_3,
        sql::DELETE_SERVICE_PRINCIPAL_UPDATE_SERVICE_PRINCIPALS_2,
        sql::SERVICE_GRANTS,
        sql::REVOKE_SERVICE_GRANT_2,
        sql::ADMIN_BLOCK_RULES,
        sql::UPDATE_ADMIN_BLOCK_RULE,
        sql::DELETE_ADMIN_BLOCK_RULE_BY_ID,
        sql::ADVANCE_ADMIN_BLOCK_POLICY_INSERT_POLICY_GENERATIONS,
        sql::ADVANCE_ADMIN_BLOCK_POLICY_UPDATE_INVOCATIONS,
        sql::MANAGED_TEMPLATES,
        sql::ASSIGN_TEMPLATE_2,
        sql::REVIEW_CAPABILITY,
        sql::INSERT_SERVICE_GRANT_INSERT_SERVICE_INVOCATION_GRANTS,
        sql::INSERT_SERVICE_GRANT_INSERT_SERVICE_GRANT_DATA_GRANTS,
        sql::SERVICE_ROW,
        sql::RESERVE_RUNNER_SLOT_INSERT_RUNNER_SLOT_ADMISSION,
        sql::RESERVE_RUNNER_SLOT_SELECT_RUNNER_SLOT_ADMISSION,
        sql::RESERVE_RUNNER_SLOT_SELECT_RUNNER_SLOT_RESERVATIONS,
        sql::RESERVE_RUNNER_SLOT_COUNT_RUNNER_SLOT_RESERVATIONS,
        sql::RESERVE_RUNNER_SLOT_INSERT_RUNNER_SLOT_RESERVATIONS,
        sql::RENEW_RUNNER_SLOT,
        sql::EXPIRED_RUNNER_SLOTS,
        sql::RELEASE_RUNNER_SLOT_AFTER_CONFIRMED_DELETE,
    ] {
        assert!(!statement.contains("argument_json"));
        assert!(!statement.contains("result_json"));
        assert!(!statement.contains("stderr_text"));
    }
}

fn data_grant() -> NewMcpDataGrant {
    NewMcpDataGrant {
        tenant_id: TENANT,
        id: id(10),
        principal_id: PRINCIPAL,
        registration_id: REGISTRATION,
        drive_id: id(11),
        resource_id: id(12),
        version_id: id(13),
        allow_metadata: true,
        allow_content: true,
        drive_acl_generation: 21,
        acl_generation: 22,
        namespace_generation: 23,
        created_by: PRINCIPAL,
        lifetime_seconds: 60,
    }
}

fn locked(drive_acl: i64) -> Reply {
    one(vec![
        ("drive_acl_generation", Cell::I64(drive_acl)),
        ("acl_generation", Cell::I64(22)),
        ("namespace_generation", Cell::I64(23)),
    ])
}

fn authority(granted_drive_acl: Cell) -> Reply {
    one(vec![
        ("principal_generation", Cell::I64(1)),
        ("revocation_generation", Cell::I64(2)),
        ("drive_acl_generation", Cell::I64(21)),
        ("acl_generation", Cell::I64(22)),
        ("namespace_generation", Cell::I64(23)),
        ("granted_drive_acl_generation", granted_drive_acl),
        ("granted_acl_generation", Cell::I64(22)),
        ("granted_namespace_generation", Cell::I64(23)),
        ("allow_metadata", Cell::Bool(true)),
        ("allow_content", Cell::Bool(false)),
    ])
}

#[test]
fn data_grant_queries_bind_drive_acl_generation() {
    for required in [
        "g.drive_acl_generation AS granted_drive_acl_generation",
        "JOIN public.drives d",
    ] {
        assert!(sql::AUTHORITY_SNAPSHOT.contains(required), "missing {required}");
    }
    assert!(sql::LOCK_DATA_GRANT_VERSION.contains("FOR SHARE OF d,n,v"));
    assert!(sql::INSERT_DATA_GRANT_INSERT_DATA_GRANTS
        .contains("drive_acl_generation,acl_generation,namespace_generation"));

    let snapshot = |log: &[Reply]| {
        shown(Database::mcp_authority_snapshot(
            TENANT,
            PRINCIPAL,
            REGISTRATION,
            id(10),
            log,
        ))
    };
    assert_eq!(snapshot(&[authority(Cell::I64(21))]), "done");
    for moved in [Cell::I64(20), Cell::Null] {
        assert_eq!(
            snapshot(&[authority(moved)]),
            DatabaseError::StaleGeneration.message()
        );
    }

    let input = data_grant();
    let create = |log: &[Reply]| shown(Database::mcp_create_data_grant(&input, log));
    let registration = || one(vec![("revocation_generation", Cell::I64(2))]);
    let current = [Reply::Ack, registration(), locked(21)];
    assert_eq!(
        trace(create, &current),
        vec![
            "begin",
            sql::INSERT_DATA_GRANT_SELECT_REGISTRATIONS,
            sql::LOCK_DATA_GRANT_VERSION,
            sql::INSERT_DATA_GRANT_INSERT_DATA_GRANTS,
        ]
    );
    let moved = [Reply::Ack, registration(), locked(20)];
    assert_eq!(create(&moved), DatabaseError::StaleGeneration.message());
}

#[test]
fn oauth_receipts_reject_bearer_material() {
    let id = Uuid::new_v4();
    for forbidden in ["state", "verifier", "authorization_url", "access_token"] {
        let safe = || {
            vec![
                ("issuer", word("https://issuer.example")),
                ("authorization_endpoint", word("https://issuer.example/authorize")),
                ("client_id", word("client")),
                ("resource", word("https://mcp.example/rpc")),
                ("expires_at", number(1_800_000_000)),
            ]
        };
        let mut result = safe();
        result.push((forbidden, word("secret")));
        assert!(
            validate_safe_result("oauth_begin", id, id, id, &object(result), None).is_err()
        );
        assert!(
            validate_safe_result("oauth_begin", id, id, id, &object(safe()), None).is_ok()
        );
    }
}

#[test]
fn operation_results_are_exactly_typed() {
    let id = Uuid::new_v4();
    assert!(validate_safe_result(
        "credential_replace",
        id,
        id,
        id,
        &object(vec![("revision", number(2)), ("credential_generation", number(2))]),
        None,
    )
    .is_ok());
    assert!(validate_safe_result(
        "credential_replace",
        id,
        id,
        id,
        &object(vec![
            ("revision", number(2)),
            ("credential_generation", number(2)),
            ("secret", word("no")),
        ]),
        None,
    )
    .is_err());
    assert!(validate_safe_result(
        "test",
        id,
        id,
        id,
        &object(vec![
            ("protocol_version", word("2026-07-28")),
            ("checked_at", number(1_800_000_000)),
            ("duration_ms", number(12)),
        ]),
        None,
    )
    .is_ok());
}

#[test]
fn activity_record_contains_only_safe_metadata() {
    let log = [one(vec![
        ("id", Cell::Id(id(30))),
        ("registration_id", Cell::Id(REGISTRATION)),
        ("principal_id", Cell::Id(PRINCIPAL)),
        ("application_id", text("application")),
        ("primitive", text("tool")),
        ("capability_fingerprint", bytes(&FINGERPRINT)),
        ("attachment_version_ids", Cell::Ids(Arc::new(vec![id(31)]))),
        ("approval_id", Cell::Null),
        ("state", text("succeeded")),
        ("request_bytes", Cell::I64(10)),
        ("response_bytes", Cell::I64(20)),
        ("reason_code", Cell::Null),
        ("created_at", text("then")),
        ("finished_at", text("now")),
        ("duration_ms", Cell::I64(5)),
    ])];
    match Database::mcp_activity(TENANT, PRINCIPAL, 10, &log) {
        Step::Done(activity) => {
            // Every field by name: nothing else is kept of an invocation.
            let McpActivityRecord {
                id: invocation,
                registration_id,
                principal_id,
                application_id,
                primitive,
                capability_fingerprint,
                attachment_version_ids,
                approval_id,
                state,
                request_bytes,
                response_bytes,
                reason_code,
                created_at,
                finished_at,
                duration_ms,
            } = &activity[0];
            assert_eq!(*invocation, id(30));
            assert_eq!((*registration_id, *principal_id), (REGISTRATION, PRINCIPAL));
            assert_eq!((application_id.as_str(), primitive.as_str()), ("application", "tool"));
            assert_eq!(capability_fingerprint.as_slice(), FINGERPRINT);
            assert_eq!(attachment_version_ids.as_slice(), [id(31)]);
            assert_eq!((approval_id, reason_code), (&None, &None));
            assert_eq!(state, "succeeded");
            assert_eq!((*request_bytes, *response_bytes, *duration_ms), (10, 20, 5));
            assert_eq!((created_at.as_str(), finished_at.as_deref()), ("then", Some("now")));
        }
        _ => panic!("the activity is read"),
    }
    for prohibited in ["arguments", "filename", "stderr"] {
        assert!(!sql::ACTIVITY.contains(prohibited));
    }
}

#[test]
fn semantic_provenance_persists_context_and_digests_but_not_markdown() {
    let input = NewMcpInvocation {
        tenant_id: TENANT,
        id: id(30),
        registration_id: REGISTRATION,
        principal_id: PRINCIPAL,
        application_id: "application",
        primitive: "tool_call",
        capability_fingerprint: &FINGERPRINT,
        approval_id: None,
        registration_generation: 1,
        authority_generation: 1,
        admin_block_generation: 1,
        request_bytes: 10,
        semantic_node_id: Some(id(31)),
        semantic_base_version_id: Some(id(32)),
        semantic_input_digest: Some(&FINGERPRINT),
    };
    assert_eq!(shown(Database::mcp_start_invocation(&input, &[])), "begin");
    for required in [
        "semantic_node_id",
        "semantic_base_version_id",
        "semantic_input_digest",
    ] {
        assert!(
            sql::START_INVOCATION_INSERT_INVOCATIONS.contains(required),
            "missing {required}"
        );
    }
    assert!(sql::FINISH_INVOCATION.contains("semantic_output_digest"));
    assert!(!sql::START_INVOCATION_INSERT_INVOCATIONS.contains("semantic_markdown"));
    assert!(!sql::FINISH_INVOCATION.contains("semantic_markdown"));
}

fn receipt(fingerprint: &[u8], expired: bool) -> Reply {
    one(vec![
        ("request_fingerprint", bytes(fingerprint)),
        ("response_status", Cell::I32(201)),
        ("response_body", Cell::Json(Arc::new(Json::Null))),
        ("expired", Cell::Bool(expired)),
    ])
}

#[test]
fn a_mutation_runs_once_for_each_key() {
    let idempotency = McpMutationIdempotency {
        tenant_id: TENANT,
        principal_id: PRINCIPAL,
        route: "POST /registrations",
        key: "key-0123456789abcdef",
        request_fingerprint: &FINGERPRINT,
        legacy_request_fingerprint: Some(&[7; 32]),
    };
    let begin = |log: &[Reply]| shown(Database::mcp_begin_mutation(&idempotency, log));
    let started = [Reply::Ack, Reply::Count(1), receipt(&FINGERPRINT, false)];
    assert_eq!(
        trace(begin, &started),
        vec![
            "begin",
            catalog::RESERVE_INSERT_IDEMPOTENCY_RECORDS,
            catalog::RESERVE_SELECT_IDEMPOTENCY_RECORDS,
            "done",
        ]
    );
    assert!(matches!(
        Database::mcp_begin_mutation(&idempotency, &started),
        Step::Done(McpMutationStart::Started(_))
    ));
    for fingerprint in [FINGERPRINT, [7; 32]] {
        let repeated = [Reply::Ack, Reply::Count(0), receipt(&fingerprint, false), Reply::Ack];
        assert!(matches!(
            Database::mcp_begin_mutation(&idempotency, &repeated),
            Step::Done(McpMutationStart::Replayed(record)) if record.response_status == 201
        ));
    }
    let reused = [Reply::Ack, Reply::Count(0), receipt(&[6; 32], false), Reply::Ack];
    assert!(matches!(
        Database::mcp_begin_mutation(&idempotency, &reused),
        Step::Done(McpMutationStart::KeyReused)
    ));
    let expired = [Reply::Ack, Reply::Count(0), receipt(&[6; 32], true), Reply::Count(1)];
    assert_eq!(
        trace(begin, &expired)[3..],
        [catalog::RESERVE_UPDATE_IDEMPOTENCY_RECORDS, "done"]
    );
    assert!(matches!(
        Database::mcp_begin_mutation(&idempotency, &expired),
        Step::Done(McpMutationStart::Started(_))
    ));
}

#[test]
fn a_broker_operation_is_applied_once() {
    let input = McpBrokerOperationIdempotency {
        tenant_id: TENANT,
        principal_id: PRINCIPAL,
        registration_id: REGISTRATION,
        operation: "test",
        operation_id: id(40),
        request_fingerprint: &FINGERPRINT,
    };
    let stored = |operation: &str, result: Cell, completed: bool, expired: bool| {
        one(vec![
            ("registration_id", Cell::Id(REGISTRATION)),
            ("operation", text(operation)),
            ("request_fingerprint", bytes(&FINGERPRINT)),
            ("result", result),
            ("api_completed", Cell::Bool(completed)),
            ("expired", Cell::Bool(expired)),
        ])
    };
    let begin = |log: &[Reply]| shown(Database::mcp_begin_broker_operation(&input, log));
    let started = [Reply::Ack, Reply::Count(1), stored("test", Cell::Null, false, false)];
    assert!(matches!(
        Database::mcp_begin_broker_operation(&input, &started),
        Step::Done(McpBrokerOperationStart::Started(_))
    ));
    let running = [Reply::Ack, Reply::Count(0), stored("test", Cell::Null, false, false)];
    assert_eq!(begin(&running), DatabaseError::Conflict.message());
    let finished = [
        Reply::Ack,
        Reply::Count(0),
        stored("test", Cell::Json(Arc::new(Json::Bool(true))), false, false),
        Reply::Ack,
    ];
    assert!(matches!(
        Database::mcp_begin_broker_operation(&input, &finished),
        Step::Done(McpBrokerOperationStart::Replayed(_))
    ));
    let reused = [
        Reply::Ack,
        Reply::Count(0),
        stored("discover", Cell::Null, false, false),
        Reply::Ack,
    ];
    assert!(matches!(
        Database::mcp_begin_broker_operation(&input, &reused),
        Step::Done(McpBrokerOperationStart::KeyReused)
    ));
    let free = [
        Reply::Ack,
        Reply::Count(0),
        stored("discover", Cell::Null, true, true),
        Reply::Count(1),
    ];
    assert!(matches!(
        Database::mcp_begin_broker_operation(&input, &free),
        Step::Done(McpBrokerOperationStart::Started(_))
    ));
    assert!(validate_operation("test").is_ok());
    assert!(validate_operation("unknown").is_err());
}

#[test]
fn a_spiffe_identifier_has_its_scheme_and_no_white_space() {
    assert!(valid_spiffe_uri("spiffe://example.org/service"));
    assert!(!valid_spiffe_uri("https://example.org/service"));
    assert!(!valid_spiffe_uri("spiffe://example.org/a service"));
    assert!(!valid_spiffe_uri("spiffe://example.org/a\u{2003}service"));
    let long = format!("spiffe://{}", "x".repeat(2_048));
    assert!(!valid_spiffe_uri(&long));
}

#[test]
fn runner_limits_are_bounded() {
    assert!(validate_limits(10, 2, 60).is_ok());
    assert!(validate_limits(2, 3, 60).is_err());
    assert!(validate_limits(0, 0, 60).is_err());
    assert!(validate_limits(10_001, 1, 60).is_err());
    assert!(validate_limits(10, 1, 901).is_err());
}

#[test]
fn block_rules_are_of_a_known_scope() {
    assert!(validate_block_rule("origin", "https://example.org", "abuse").is_ok());
    assert!(validate_block_rule("galaxy", "https://example.org", "abuse").is_err());
    assert!(validate_block_rule("origin", "", "abuse").is_err());
}

#[test]
fn a_data_grant_binds_every_generation() {
    let input = data_grant();
    let log = [
        Reply::Ack,
        one(vec![("revocation_generation", Cell::I64(2))]),
        locked(21),
    ];
    match Database::mcp_create_data_grant(&input, &log) {
        Step::Ask(Command::Query(query)) => {
            assert!(matches!(query.params[9], Param::I64(21)));
            assert!(matches!(query.params[10], Param::I64(22)));
            assert!(matches!(query.params[11], Param::I64(23)));
            assert!(matches!(query.params[12], Param::I64(2)));
        }
        _ => panic!("the grant is inserted next"),
    }
    assert_eq!(
        shown(Database::mcp_create_data_grant(&input, &[Reply::Ack, nothing()])),
        DatabaseError::NotFound.message()
    );
}

#[test]
fn a_replacement_names_its_revision_and_its_generation() {
    for names in [
        ["revision", "revision"],
        ["credential_generation", "credential_generation"],
        ["revision", "generation"],
    ] {
        let result = object(names.iter().map(|name| (*name, number(2))).collect());
        assert!(validate_safe_result("credential_replace", TENANT, TENANT, TENANT, &result, None)
            .is_err());
    }
}

#[test]
fn a_discovery_is_measured_before_it_is_stored() {
    let result = object(vec![
        ("protocol_version", word("2026-07-28")),
        ("document", object(vec![("tools", Json::Array(Vec::new()))])),
    ]);
    assert!(validate_safe_result("discover", TENANT, TENANT, TENANT, &result, None).is_ok());
    let measured = |bytes: Option<usize>| {
        validate_measured_result("discover", TENANT, TENANT, TENANT, &result, None, bytes)
    };
    assert!(measured(Some(16 * 1_024 * 1_024)).is_ok());
    assert!(measured(Some(16 * 1_024 * 1_024 + 1)).is_err());
    assert!(measured(None).is_err());
    let large = object(vec![
        ("protocol_version", word("2026-07-28")),
        ("document", object(vec![("tools", word(&"x".repeat(16 * 1_024 * 1_024)))])),
    ]);
    assert!(validate_safe_result("discover", TENANT, TENANT, TENANT, &large, None).is_err());
}
