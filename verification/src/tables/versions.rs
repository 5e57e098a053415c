//! The rows behind restored versions and new directories, and laws about what they leave.

use vstd::prelude::*;

use crate::database::Database;
use crate::error::DatabaseError;
use crate::fence::FenceGenerations;
use crate::id::Uuid;
use crate::namespace::NodeRecord;
use crate::namespace::RestoreSource;
use crate::namespace::RestoredVersion;
use crate::row::Reply;
use crate::sql::catalog as sql;
use crate::step::Param;
use crate::tables::answers;
use crate::tables::catalog::is_node;
use crate::tables::catalog::tells;
use crate::tables::catalog::with_catalog;
use crate::tables::catalog::AuditRow;
use crate::tables::catalog::CatalogTables;
use crate::tables::catalog::DriveRow;
use crate::tables::catalog::Fact;
use crate::tables::catalog::NodeRow;
use crate::tables::catalog::VersionRow;
use crate::tables::changed;
use crate::tables::collaboration::RoomTables;
use crate::tables::document::text_of;
use crate::tables::first_row;
use crate::tables::has;
use crate::tables::has_bytes;
use crate::tables::has_optional_text;
use crate::tables::uploads::is_next_ordinal;
use crate::tables::uploads::node_frozen;
use crate::tables::uploads::placed;
use crate::tables::Course;
use crate::tables::Tables;

verus! {

/// Whether a version can be restored: its file is live.
pub open spec fn is_restorable(
    catalog: CatalogTables,
    drive_id: Uuid,
    node_id: Uuid,
    version_id: Uuid,
) -> bool {
    &&& catalog.nodes.contains_key(node_id)
    &&& catalog.nodes[node_id].drive_id == drive_id
    &&& catalog.nodes[node_id].kind == "file"@
    &&& catalog.nodes[node_id].trash_root_id is None
    &&& catalog.versions.contains_key((node_id, version_id))
}

/// Whether a row is a new directory: live, and without a version.
pub open spec fn is_new_directory<'a>(row: NodeRow, params: Seq<Param<'a>>) -> bool {
    &&& row.drive_id == params[1]->Id_0
    &&& row.parent_id == Some(params[3]->Id_0)
    &&& row.kind == "directory"@
    &&& row.display_name == params[4]->Text_0@
    &&& row.name_key == params[5]->Text_0@
    &&& row.owner_principal_id == params[6]->Id_0
    &&& row.head_version_id is None
    &&& row.trash_root_id is None
}

/// What the statements that restore versions and make directories do.
#[verifier::opaque]
pub open spec fn means<'a>(
    sql: &'static str,
    params: Seq<Param<'a>>,
    reply: Reply,
    now: int,
    before: Tables,
    after: Tables,
) -> bool {
    let catalog = before.catalog;
    let id = params[1]->Id_0;
    let node_id = params[2]->Id_0;
    let node = catalog.nodes[node_id];
    let stands = catalog.nodes.contains_key(node_id) && node.drive_id == id;
    &&& sql == sql::RESTORE_FILE_VERSION_SELECT_NODES ==> {
        let version = catalog.versions[(node_id, params[3]->Id_0)];
        &&& after == before
        &&& answers(reply, is_restorable(catalog, id, node_id, params[3]->Id_0))
        &&& first_row(reply) matches Some(row) ==> {
            &&& has::<Uuid>(row, "payload_id"@, version.payload_id)
            &&& has::<i64>(row, "size_bytes"@, version.size_bytes)
            &&& has_bytes(row, "blake3"@, version.blake3)
            &&& has_optional_text(row, "media_type"@, version.media_type)
            &&& has::<Option<Uuid>>(row, "head_version_id"@, node.head_version_id)
        }
    }
    &&& sql == sql::RESTORE_FILE_VERSION_INSERT_FILE_VERSIONS ==> {
        let key = (id, params[2]->Id_0);
        let session_id = params[10]->Id_0;
        let user_id = catalog.api_sessions[session_id].user_id;
        let hit = catalog.api_sessions.contains_key(session_id) && catalog.users.contains_key(
            user_id,
        );
        let row = VersionRow {
            ordinal: params[3]->I64_0,
            payload_id: params[4]->Id_0,
            size_bytes: params[5]->I64_0,
            blake3: params[6]->Blob_0@,
            media_type: text_of(params[7]->OptOwned_0),
            created_by: params[8]->Id_0,
            origin_kind: "restore"@,
            source_version_id: Some(params[9]->Id_0),
            restored_from_version_id: Some(params[9]->Id_0),
            creator_display_name: Some(catalog.users[user_id].display_name),
            mcp_assisted: false,
        };
        &&& !catalog.versions.contains_key(key)
        &&& answers(reply, hit)
        &&& first_row(reply) matches Some(found) ==> has_optional_text(
            found,
            "creator_display_name"@,
            row.creator_display_name,
        )
        &&& after == with_catalog(
            before,
            CatalogTables { versions: changed(catalog.versions, hit, key, row), ..catalog },
        )
    }
    &&& sql == sql::RESTORE_FILE_VERSION_UPDATE_NODES ==> after == with_catalog(
        before,
        CatalogTables {
            nodes: changed(
                catalog.nodes,
                stands,
                node_id,
                NodeRow { head_version_id: Some(params[3]->Id_0), ..node },
            ),
            ..catalog
        },
    )
    &&& sql == sql::CREATE_DIRECTORY_SELECT_NODES ==> {
        &&& after == before
        &&& answers(reply, stands)
        &&& reply.optional_row::<i64>() matches Ok(Some(found)) ==> found
            == node.namespace_generation
    }
    &&& sql == sql::CREATE_DIRECTORY_INSERT_NODES ==> {
        &&& !catalog.nodes.contains_key(node_id)
        &&& exists|row: NodeRow|
            {
                &&& #[trigger] is_new_directory(row, params)
                &&& after == with_catalog(
                    before,
                    CatalogTables { nodes: catalog.nodes.insert(node_id, row), ..catalog },
                )
            }
    }
    &&& sql == sql::CREATE_DIRECTORY_UPDATE_NODES ==> after == with_catalog(
        before,
        CatalogTables {
            nodes: changed(
                catalog.nodes,
                stands,
                node_id,
                NodeRow { namespace_generation: node.namespace_generation + 1, ..node },
            ),
            ..catalog
        },
    )
    &&& sql == sql::CREATE_DIRECTORY_UPDATE_DRIVES ==> {
        let drive = catalog.drives[id];
        after == with_catalog(
            before,
            CatalogTables {
                drives: changed(
                    catalog.drives,
                    catalog.drives.contains_key(id),
                    id,
                    DriveRow { namespace_generation: drive.namespace_generation + 1, ..drive },
                ),
                ..catalog
            },
        )
    }
}

/// Restoring a version makes a new one with the same bytes and puts it at the head: it has the
/// payload, the size, the digest and the media type of the version that it restores, is the file's
/// next, and names its source and its creator. It goes through where the actor is authorized as
/// when they were checked and the file has the head that the actor knows. The bytes of the drive
/// stay as they are, and the active epochs of the file's rooms are frozen.
#[verifier::rlimit(60)]
pub proof fn restored_versions_hold_the_same_bytes(
    tenant_id: Uuid,
    actor_principal_id: Uuid,
    session_id: Uuid,
    drive_id: Uuid,
    node_id: Uuid,
    source_version_id: Uuid,
    expected_head_version_id: Option<Uuid>,
    under: FenceGenerations,
    log: Seq<Reply>,
    course: Course,
)
    requires
        crate::step::is_done(
            Database::restore_file_version_fault(
                expected_head_version_id,
                under.membership,
                under.drive_acl,
                under.namespace,
                under.resource_acl,
                log,
            ),
            Database::restore_file_version_script(
                tenant_id,
                actor_principal_id,
                session_id,
                drive_id,
                node_id,
                source_version_id,
                log,
            ),
            log,
        ),
        course.follows(
            Database::restore_file_version_script(
                tenant_id,
                actor_principal_id,
                session_id,
                drive_id,
                node_id,
                source_version_id,
                log,
            ),
            log,
        ),
    ensures
        ({
            let before = course.start();
            let after = course.end();
            let catalog = before.catalog;
            let out = Database::restore_file_version_output(
                actor_principal_id,
                node_id,
                source_version_id,
                log,
            );
            let source = catalog.versions[(node_id, source_version_id)];
            let user = catalog.users[catalog.api_sessions[session_id].user_id];
            let version = VersionRow {
                ordinal: out.ordinal,
                created_by: actor_principal_id,
                origin_kind: "restore"@,
                source_version_id: Some(source_version_id),
                restored_from_version_id: Some(source_version_id),
                creator_display_name: Some(user.display_name),
                mcp_assisted: false,
                ..source
            };
            &&& catalog.permits(
                session_id,
                actor_principal_id,
                drive_id,
                node_id,
                under,
                course.clock[0],
            )
            &&& is_restorable(catalog, drive_id, node_id, source_version_id)
            &&& catalog.nodes[node_id].head_version_id == expected_head_version_id
            &&& is_next_ordinal(catalog, node_id, out.ordinal as int)
            &&& !catalog.versions.contains_key((node_id, out.id))
            &&& after == (Tables {
                catalog: CatalogTables {
                    versions: catalog.versions.insert((node_id, out.id), version),
                    nodes: catalog.nodes.insert(
                        node_id,
                        NodeRow { head_version_id: Some(out.id), ..catalog.nodes[node_id] },
                    ),
                    audit_events: catalog.audit_events.push(
                        AuditRow {
                            actor: Some(actor_principal_id),
                            target: None,
                            resource: Some(node_id),
                            action: "version.restore"@,
                            outcome: "allowed"@,
                            reason: "create_version_allowed"@,
                            privacy_visible: false,
                            details: seq![
                                ("source_version_id"@, Fact::Id(source_version_id)),
                                ("version_id"@, Fact::Id(out.id)),
                            ],
                        },
                    ),
                    outbox_events: after.catalog.outbox_events,
                    ..catalog
                },
                rooms: RoomTables {
                    epochs: node_frozen(before.rooms, drive_id, node_id),
                    ..before.rooms
                },
                ..before
            })
            &&& tells(
                catalog,
                after.catalog,
                tenant_id,
                "filebelt.v1.version.created"@,
                "node"@,
                node_id,
                out.ordinal,
                course,
            )
            &&& out.node_id == node_id
            &&& out.size_bytes == source.size_bytes
            &&& out.media_type == source.media_type
            &&& out.created_by == actor_principal_id
            &&& out.origin_kind == "restore"@
            &&& out.restored_from_version_id == Some(source_version_id)
            &&& out.source_version_id == Some(source_version_id)
            &&& out.creator_display_name == Some(user.display_name)
            &&& out.current
            &&& !out.mcp_assisted
        }),
{
    reveal(means);
    reveal(crate::tables::uploads::means);
    reveal(crate::tables::catalog::means);
    reveal(RestoreSource::of_row);
    reveal(RestoredVersion::of_row);
    let script = Database::restore_file_version_script(
        tenant_id,
        actor_principal_id,
        session_id,
        drive_id,
        node_id,
        source_version_id,
        log,
    );
    assert(course.performs(script, log, 0));
    assert(course.performs(script, log, 1));
    let fence = log[1].required_row::<FenceGenerations>(DatabaseError::StaleGeneration);
    assert(fence is Ok);
    assert(first_row(log[1]) is Some);
    let expected = seq![under.membership, under.drive_acl, under.namespace, under.resource_acl];
    assert(expected[0] == fence->Ok_0.membership);
    assert(expected[1] == fence->Ok_0.drive_acl);
    assert(expected[2] == fence->Ok_0.namespace);
    assert(expected[3] == fence->Ok_0.resource_acl);
    assert(course.clock[0] <= course.clock[1]);
    assert(course.performs(script, log, 2));
    assert(log[2].required_row::<RestoreSource>(DatabaseError::NotFound) is Ok);
    assert(first_row(log[2]) is Some);
    assert(course.performs(script, log, 3));
    assert(course.performs(script, log, 4));
    assert(course.performs(script, log, 5));
    assert(log[5].single_row::<RestoredVersion>() is Ok);
    assert(first_row(log[5]) is Some);
    assert(course.performs(script, log, 6));
    assert(course.performs(script, log, 7));
    assert(course.performs(script, log, 8));
    assert(course.performs(script, log, 9));
    assert(course.performs(script, log, 10));
    assert(course.performs(script, log, 11));
    assert(course.clock[0] <= course.clock[9]);
    assert(course.clock[9] <= course.clock[11]);
    assert(course.end() == course.rows[12]);
}

/// A new directory stands in its parent, live and empty, and is returned as it stands. It goes
/// through where the actor is authorized as when they were checked and the parent has the
/// generation that the actor knows. The generations of the parent and of the drive go up by one.
#[verifier::rlimit(60)]
pub proof fn new_directories_stand_in_their_parent<'a>(
    tenant_id: Uuid,
    actor: Uuid,
    session_id: Uuid,
    drive_id: Uuid,
    parent_id: Uuid,
    expected_generation: i64,
    display_name: &'a str,
    name_key: &'a str,
    under: FenceGenerations,
    log: Seq<Reply>,
    course: Course,
)
    requires
        crate::step::is_done(
            Database::create_directory_fault(
                expected_generation,
                under.membership,
                under.drive_acl,
                under.namespace,
                under.resource_acl,
                log,
            ),
            Database::create_directory_script(
                tenant_id,
                actor,
                session_id,
                drive_id,
                parent_id,
                display_name,
                name_key,
                log,
            ),
            log,
        ),
        course.follows(
            Database::create_directory_script(
                tenant_id,
                actor,
                session_id,
                drive_id,
                parent_id,
                display_name,
                name_key,
                log,
            ),
            log,
        ),
    ensures
        ({
            let before = course.start();
            let after = course.end();
            let catalog = before.catalog;
            let out = Database::create_directory_output(log);
            let node = after.catalog.nodes[out.id];
            let parent = catalog.nodes[parent_id];
            let drive = catalog.drives[drive_id];
            &&& catalog.permits(session_id, actor, drive_id, parent_id, under, course.clock[0])
            &&& parent.namespace_generation == expected_generation
            &&& !catalog.nodes.contains_key(out.id)
            &&& node.drive_id == drive_id
            &&& node.parent_id == Some(parent_id)
            &&& node.kind == "directory"@
            &&& node.display_name == display_name@
            &&& node.name_key == name_key@
            &&& node.owner_principal_id == actor
            &&& node.head_version_id is None
            &&& node.trash_root_id is None
            &&& is_node(out, after.catalog, out.id)
            &&& after == with_catalog(
                before,
                CatalogTables {
                    nodes: catalog.nodes.insert(out.id, node).insert(
                        parent_id,
                        NodeRow {
                            namespace_generation: parent.namespace_generation + 1,
                            ..parent
                        },
                    ),
                    ancestry: placed(catalog.ancestry, drive_id, parent_id, out.id),
                    drives: catalog.drives.insert(
                        drive_id,
                        DriveRow {
                            namespace_generation: drive.namespace_generation + 1,
                            ..drive
                        },
                    ),
                    audit_events: catalog.audit_events.push(
                        AuditRow {
                            actor: Some(actor),
                            target: None,
                            resource: Some(out.id),
                            action: "node.create"@,
                            outcome: "allowed"@,
                            reason: "create_child_allowed"@,
                            privacy_visible: false,
                            details: seq![("parent_id"@, Fact::Id(parent_id))],
                        },
                    ),
                    outbox_events: after.catalog.outbox_events,
                    ..catalog
                },
            )
            &&& tells(
                catalog,
                after.catalog,
                tenant_id,
                "filebelt.v1.namespace.changed"@,
                "node"@,
                out.id,
                (expected_generation + 1) as i64,
                course,
            )
        }),
{
    reveal(means);
    reveal(crate::tables::uploads::means);
    reveal(crate::tables::catalog::means);
    let script = Database::create_directory_script(
        tenant_id,
        actor,
        session_id,
        drive_id,
        parent_id,
        display_name,
        name_key,
        log,
    );
    assert(course.performs(script, log, 0));
    assert(course.performs(script, log, 1));
    let fence = log[1].required_row::<FenceGenerations>(DatabaseError::StaleGeneration);
    assert(fence is Ok);
    assert(first_row(log[1]) is Some);
    let expected = seq![under.membership, under.drive_acl, under.namespace, under.resource_acl];
    assert(expected[0] == fence->Ok_0.membership);
    assert(expected[1] == fence->Ok_0.drive_acl);
    assert(expected[2] == fence->Ok_0.namespace);
    assert(expected[3] == fence->Ok_0.resource_acl);
    assert(course.clock[0] <= course.clock[1]);
    assert(course.performs(script, log, 2));
    assert(log[2].required_row::<i64>(DatabaseError::NotFound) is Ok);
    assert(course.performs(script, log, 3));
    assert(course.performs(script, log, 4));
    assert(course.performs(script, log, 5));
    assert(course.performs(script, log, 6));
    assert(course.performs(script, log, 7));
    assert(course.performs(script, log, 8));
    assert(course.performs(script, log, 9));
    assert(course.performs(script, log, 10));
    assert(course.performs(script, log, 11));
    assert(course.performs(script, log, 12));
    assert(log[12].required_row::<NodeRecord>(DatabaseError::NotFound) is Ok);
    assert(course.rows[13] == course.rows[12]);
    assert(course.clock[0] <= course.clock[9]);
    assert(course.clock[9] <= course.clock[12]);
    assert(course.end() == course.rows[13]);
}

/// A change of a node's place in the trash goes through where the actor is authorized as when they
/// were checked, the node has the generation that the actor knows and is no root; into the trash
/// where it is live, out of it where it is itself the root of what was trashed and its parent is
/// live. What lies below goes with it: trashed, until the time at which the drive has it purged;
/// restored, with no such time. The drive's generation goes up, and the events tell of it.
#[verifier::rlimit(60)]
pub proof fn trash_takes_the_whole_tree(
    tenant_id: Uuid,
    actor_principal_id: Uuid,
    session_id: Uuid,
    drive_id: Uuid,
    node_id: Uuid,
    expected_namespace_generation: i64,
    under: FenceGenerations,
    trash: bool,
    log: Seq<Reply>,
    course: Course,
)
    requires
        crate::step::is_done(
            Database::set_node_trash_state_fault(
                node_id,
                expected_namespace_generation,
                under.membership,
                under.drive_acl,
                under.namespace,
                under.resource_acl,
                trash,
                log,
            ),
            Database::set_node_trash_state_script(
                tenant_id,
                actor_principal_id,
                session_id,
                drive_id,
                node_id,
                trash,
                log,
            ),
            log,
        ),
        course.follows(
            Database::set_node_trash_state_script(
                tenant_id,
                actor_principal_id,
                session_id,
                drive_id,
                node_id,
                trash,
                log,
            ),
            log,
        ),
    ensures
        ({
            let before = course.start();
            let after = course.end();
            let catalog = before.catalog;
            let node = catalog.nodes[node_id];
            let drive = catalog.drives[drive_id];
            let out = Database::set_node_trash_state_output(trash, log);
            let generation = drive.namespace_generation + 1;
            &&& catalog.permits(
                session_id,
                actor_principal_id,
                drive_id,
                node_id,
                under,
                course.clock[0],
            )
            &&& node.namespace_generation == expected_namespace_generation
            &&& node.parent_id is Some
            &&& trash ==> node.trash_root_id is None
            &&& !trash ==> node.trash_root_id == Some(node_id) && crate::tables::catalog::is_live(
                catalog,
                drive_id,
                node.parent_id->0,
            )
            &&& is_node(out, after.catalog, node_id)
            &&& after == with_catalog(
                before,
                CatalogTables {
                    nodes: catalog.marked(
                        drive_id,
                        node_id,
                        node_id,
                        if trash {
                            None
                        } else {
                            Some(node_id)
                        },
                        if trash {
                            Some(node_id)
                        } else {
                            None
                        },
                    ),
                    purges: if trash {
                        catalog.scheduled(
                            drive_id,
                            node_id,
                            course.clock[3] + drive.trash_retention_days * 86_400_000_000,
                        )
                    } else {
                        catalog.unscheduled(drive_id, node_id, node_id)
                    },
                    drives: catalog.drives.insert(
                        drive_id,
                        DriveRow { namespace_generation: generation, ..drive },
                    ),
                    audit_events: catalog.audit_events.push(
                        AuditRow {
                            actor: Some(actor_principal_id),
                            target: None,
                            resource: Some(node_id),
                            action: if trash {
                                "node.trash"@
                            } else {
                                "node.restore"@
                            },
                            outcome: "allowed"@,
                            reason: if trash {
                                "delete_allowed"@
                            } else {
                                "restore_allowed"@
                            },
                            privacy_visible: false,
                            details: Seq::empty(),
                        },
                    ),
                    outbox_events: after.catalog.outbox_events,
                    ..catalog
                },
            )
            &&& tells(
                catalog,
                after.catalog,
                tenant_id,
                "filebelt.v1.namespace.changed"@,
                "node"@,
                node_id,
                generation as i64,
                course,
            )
        }),
{
    reveal(crate::tables::catalog::means);
    let script = Database::set_node_trash_state_script(
        tenant_id,
        actor_principal_id,
        session_id,
        drive_id,
        node_id,
        trash,
        log,
    );
    assert(course.performs(script, log, 0));
    assert(course.performs(script, log, 1));
    let fence = log[1].required_row::<FenceGenerations>(DatabaseError::StaleGeneration);
    assert(fence is Ok);
    assert(first_row(log[1]) is Some);
    let expected = seq![under.membership, under.drive_acl, under.namespace, under.resource_acl];
    assert(expected[0] == fence->Ok_0.membership);
    assert(expected[1] == fence->Ok_0.drive_acl);
    assert(expected[2] == fence->Ok_0.namespace);
    assert(expected[3] == fence->Ok_0.resource_acl);
    assert(course.clock[0] <= course.clock[1]);
    assert(course.performs(script, log, 2));
    assert(course.performs(script, log, 3));
    assert(course.performs(script, log, 4));
    let at = if trash {
        4int
    } else {
        5
    };
    assert(course.performs(script, log, at));
    assert(course.performs(script, log, at + 1));
    assert(course.performs(script, log, at + 2));
    assert(course.performs(script, log, at + 3));
    assert(course.performs(script, log, at + 4));
    assert(course.performs(script, log, at + 5));
    assert(course.clock[0] <= course.clock[at + 2]);
    assert(course.clock[at + 2] <= course.clock[at + 5]);
    assert(course.end() == course.rows[at + 6]);
}

} // verus!
