use filebelt_database::collaboration_retention::CollaborationRetentionReport;
use filebelt_database::database::Database;
use filebelt_database::id::render_label;
use filebelt_database::id::render_pair;
use filebelt_database::id::render_scoped;
use filebelt_database::id::Uuid;
use filebelt_database::row::Cell;
use filebelt_database::row::Column;
use filebelt_database::row::Reply;
use filebelt_database::row::Row;
use filebelt_database::sql::catalog;
use filebelt_database::sql::collaboration as sql;
use filebelt_database::sql::document;
use filebelt_database::sql::media;
use filebelt_database::step::Command;
use filebelt_database::step::Param;
use filebelt_database::step::Step;
use filebelt_database::text::trimmed_text;

const TENANT: Uuid = Uuid { value: 1 };
const OTHER_TENANT: Uuid = Uuid { value: 2 };

fn id(value: u128) -> Uuid {
    Uuid { value }
}

fn ids(name: &str, values: &[Uuid]) -> Reply {
    Reply::Rows(
        values
            .iter()
            .map(|value| Row {
                columns: vec![Column {
                    name: name.to_owned(),
                    cell: Cell::Id(*value),
                }],
            })
            .collect(),
    )
}

/// The first bound value of a statement, where the step is one that binds any.
fn bound<T>(step: Step<'_, T>) -> Option<Uuid> {
    match step {
        Step::Ask(Command::Query(query)) => match query.params.first() {
            Some(Param::Id(value)) => Some(*value),
            Some(_) => Some(Uuid::nil()),
            None => None,
        },
        _ => None,
    }
}

#[test]
fn statements_are_about_the_tenant_of_their_operation() {
    for tenant in [TENANT, OTHER_TENANT] {
        let log = [Reply::Ack, ids("id", &[id(7), id(8)]), Reply::Count(1), Reply::Ack];
        let tenants: Vec<Option<Uuid>> = (0..=log.len())
            .map(|count| {
                bound(Database::revoke_all_sessions(tenant, id(3), id(4), None, &log[..count]))
            })
            .collect();
        assert_eq!(tenants, vec![None, Some(tenant), Some(tenant), None, None]);
        assert_eq!(bound(Database::revoke_session(tenant, id(3), id(4), &log[..1])), Some(tenant));
        assert_eq!(
            bound(Database::collaboration_retention_sweep(tenant, 10, &log[..0])),
            Some(tenant)
        );
        assert_eq!(
            bound(Database::collaboration_replay_groups(tenant, id(5), 1, 0, &log[..0])),
            Some(tenant)
        );
        assert_eq!(bound(Database::node(tenant, id(5), id(6), &log[..0])), Some(tenant));
    }
}

#[test]
fn epochs_are_fenced_before_deletions_are_queued() {
    let expired = Reply::Rows(vec![Row {
        columns: vec![
            Column {
                name: "room_id".to_owned(),
                cell: Cell::Id(id(5)),
            },
            Column {
                name: "epoch".to_owned(),
                cell: Cell::I64(3),
            },
        ],
    }]);
    let log = [
        ids("id", &[]),
        Reply::Ack,
        Reply::Count(0),
        expired,
        ids("id", &[id(6)]),
        Reply::Count(1),
        Reply::Count(1),
        ids("id", &[]),
        Reply::Ack,
    ];
    let statement = |count: usize| {
        match Database::collaboration_retention_sweep(TENANT, 10, &log[..count]) {
            Step::Ask(Command::Query(query)) => query.sql,
            _ => "",
        }
    };
    assert_eq!(statement(3), sql::RETENTION_SWEEP_UPDATE_EPOCHS_2);
    assert_eq!(statement(6), sql::ABANDON_OBJECT_INSERT_JOBS);
    assert!((0..3).all(|count| statement(count) != sql::ABANDON_OBJECT_INSERT_JOBS));
    match Database::collaboration_retention_sweep(TENANT, 10, &log) {
        Step::Done(report) => assert_eq!(
            report,
            CollaborationRetentionReport {
                epochs_expired: 1,
                payload_deletions_enqueued: 1,
                ..CollaborationRetentionReport::default()
            }
        ),
        _ => panic!("the sweep is done"),
    }
}

#[test]
fn trimming_again_changes_nothing() {
    for text in ["", " ", "\u{a0}\t a b\u{2003}", "a", "\u{200b}a\u{200b}"] {
        let trimmed = trimmed_text(text);
        assert_eq!(trimmed_text(trimmed), trimmed);
        assert!(!trimmed.starts_with(char::is_whitespace));
        assert!(!trimmed.ends_with(char::is_whitespace));
    }
    assert_eq!(trimmed_text("\u{a0}\t a b\u{2003}"), "a b");
    assert_eq!(trimmed_text("\u{200b}a\u{200b}"), "\u{200b}a\u{200b}");
}

#[test]
fn rendered_identifiers_are_distinct() {
    let last = Uuid { value: u128::MAX };
    assert_ne!(id(1).text(), id(16).text());
    assert_eq!(last.text(), "ffffffff-ffff-ffff-ffff-ffffffffffff");
    assert_ne!(render_label("job:", id(1)), render_label("job:", id(2)));
    assert_ne!(render_pair(id(1), id(2)), render_pair(id(2), id(1)));
    assert_ne!(render_scoped(id(1), "a"), render_scoped(id(1), "b"));
}

#[test]
fn reading_statements_change_no_row() {
    for statement in [
        catalog::LOCK_AUTHORIZATION_FENCE,
        catalog::LOCK_COLLABORATION_AUTHORIZATION_FENCE,
        catalog::NODE,
        catalog::BEGIN_UPLOAD_SELECT_NODES,
        catalog::BEGIN_UPLOAD_SELECT_NODES_2,
        catalog::BEGIN_UPLOAD_SELECT_CHECKPOINTS,
        catalog::BEGIN_UPLOAD_SELECT_IMPORT_INTENTS,
        catalog::BOOTSTRAP_TENANT_SELECT_STORAGE_BACKENDS,
        catalog::COMPLETE_ORPHAN_PAYLOAD_DELETION_SELECT_PAYLOAD_OBJECTS,
        sql::OBJECT,
        sql::ABANDON_OBJECT_SELECT_OBJECTS,
        sql::ABANDON_OBJECT_EXISTS_UPDATE_GROUPS,
        sql::FINALIZE_OBJECT_SELECT_OBJECTS,
        sql::PERSIST_UPDATE_GROUP_SELECT_EPOCHS,
        sql::PERSIST_UPDATE_GROUP_EXISTS_INVOCATIONS,
        sql::PERSIST_UPDATE_GROUP_SELECT_OBJECTS,
        sql::PERSIST_UPDATE_GROUP_SELECT_UPDATE_GROUPS,
        sql::COMMIT_SNAPSHOT_SELECT_EPOCHS,
        sql::COMMIT_SNAPSHOT_SELECT_OBJECTS,
        sql::COMMIT_SNAPSHOT_SELECT_SNAPSHOTS,
        sql::COMPLETE_COLLABORATION_PAYLOAD_DELETION_SELECT_OBJECTS,
        document::RECEIVE_DOCUMENT_CALLBACK_SELECT_SESSION_EVENTS,
        document::RECEIVE_DOCUMENT_CALLBACK_SELECT_PARTICIPANTS,
        document::RECEIVED_DOCUMENT_REVISION_BY_DIGEST,
        document::DOCUMENT_OPERATION_REPLAY_SELECT_ADVISORY_LOCK,
        document::DOCUMENT_OPERATION_REPLAY_SELECT_OPERATION_RECEIPTS,
        document::ISSUE_DOCUMENT_LAUNCH_GRANT_SELECT_PARTICIPANTS,
        document::ISSUE_DOCUMENT_LAUNCH_GRANT_EXISTS_LAUNCH_GRANTS,
        document::BEGIN_DOCUMENT_REVISION_SELECT_PARTICIPANTS,
        document::COMMIT_DOCUMENT_REVISION_SELECT_REVISIONS,
        document::REJECT_DOCUMENT_REVISION_FOR_AUTHORIZATION_CHANGE_SELECT_REVISIONS,
        document::COMPLETE_DOCUMENT_PAYLOAD_DELETION_SELECT_PAYLOAD_OBJECTS,
        media::ADMIT_MEDIA_PREVIEW_SELECT_PREVIEWS,
    ] {
        assert!(statement.starts_with("SELECT "));
        for word in ["INSERT ", "UPDATE SET", "DELETE ", " SET ", "RETURNING"] {
            assert!(!statement.contains(word));
        }
    }
}
