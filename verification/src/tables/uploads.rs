//! The rows behind uploads, and laws about what a committed upload leaves.

use vstd::prelude::*;

use crate::database::Database;
use crate::error::DatabaseError;
use crate::error::Fault;
use crate::fence::FenceGenerations;
use crate::id::Uuid;
use crate::row::Reply;
use crate::row::Row;
use crate::sql::catalog as sql;
use crate::step::CommandView;
use crate::step::Param;
use crate::tables::answers;
use crate::tables::catalog::tells;
use crate::tables::catalog::with_catalog;
use crate::tables::catalog::AuditRow;
use crate::tables::catalog::CatalogTables;
use crate::tables::catalog::DriveRow;
use crate::tables::catalog::Fact;
use crate::tables::catalog::NodeRow;
use crate::tables::catalog::UploadRow;
use crate::tables::catalog::VersionRow;
use crate::tables::changed;
use crate::tables::collaboration::CheckpointRow;
use crate::tables::collaboration::EpochRow;
use crate::tables::collaboration::IntentRow;
use crate::tables::collaboration::RoomTables;
use crate::tables::document::text_of;
use crate::tables::first_row;
use crate::tables::has;
use crate::tables::has_bytes;
use crate::tables::has_number;
use crate::tables::has_optional_text;
use crate::tables::has_text;
use crate::tables::retention::holds;
use crate::tables::touches;
use crate::tables::Course;
use crate::tables::Tables;
use crate::upload::CheckpointSource;
use crate::upload::FinalizedUpload;
use crate::upload::ImportSource;
use crate::upload::VersionOrigin;

verus! {

/// Whether an upload is complete: finalized under a fence, with a payload that is finalized too.
pub open spec fn is_complete(
    catalog: CatalogTables,
    upload_id: Uuid,
    owner: Uuid,
    fencing_token: i64,
) -> bool {
    let upload = catalog.uploads[upload_id];
    &&& catalog.uploads.contains_key(upload_id)
    &&& upload.owner_principal_id == owner
    &&& upload.fencing_token == fencing_token
    &&& upload.state == "finalized"@
    &&& upload.payload_id is Some
    &&& catalog.payload_is(upload.payload_id->0, "finalized"@)
    &&& catalog.digests.contains_key(upload.payload_id->0)
}

/// Whether a row of a reply is what an upload holds, with the digest of its payload.
pub open spec fn is_upload(row: Row, upload: UploadRow, blake3: Seq<u8>) -> bool {
    &&& has::<Uuid>(row, "drive_id"@, upload.drive_id)
    &&& has::<Uuid>(row, "parent_id"@, upload.parent_id)
    &&& has::<Option<Uuid>>(row, "node_id"@, upload.node_id)
    &&& has::<Option<Uuid>>(row, "expected_head_version_id"@, upload.expected_head_version_id)
    &&& has_text(row, "target_display_name"@, upload.target_display_name)
    &&& has_text(row, "target_name_key"@, upload.target_name_key)
    &&& has::<Uuid>(row, "payload_id"@, upload.payload_id->0)
    &&& has_number(row, "declared_size_bytes"@, upload.declared_size_bytes as int)
    &&& has_bytes(row, "blake3"@, blake3)
    &&& has_optional_text(row, "declared_media_type"@, upload.declared_media_type)
    &&& has::<Option<Uuid>>(
        row,
        "collaboration_checkpoint_id"@,
        upload.collaboration_checkpoint_id,
    )
    &&& has::<Option<Uuid>>(row, "import_intent_id"@, upload.import_intent_id)
}

/// Whether a number is the ordinal of the next version of a node: one more than the greatest.
pub open spec fn is_next_ordinal(catalog: CatalogTables, node_id: Uuid, ordinal: int) -> bool {
    &&& ordinal >= 1
    &&& forall|id: Uuid| #[trigger]
        catalog.versions.contains_key((node_id, id)) ==> catalog.versions[(node_id, id)].ordinal
            < ordinal
    &&& ordinal == 1 || exists|id: Uuid| #[trigger]
        catalog.versions.contains_key((node_id, id)) && catalog.versions[(node_id, id)].ordinal
            == ordinal - 1
}

/// Whether a row is a new file: without a version, and live.
pub open spec fn is_new_file<'a>(row: NodeRow, params: Seq<Param<'a>>) -> bool {
    &&& row.drive_id == params[1]->Id_0
    &&& row.parent_id == Some(params[3]->Id_0)
    &&& row.kind == "file"@
    &&& row.display_name == params[4]->Owned_0@
    &&& row.name_key == params[5]->Owned_0@
    &&& row.owner_principal_id == params[6]->Id_0
    &&& row.head_version_id is None
    &&& row.trash_root_id is None
}

/// Whether a checkpoint is prepared and has not run out.
pub open spec fn is_prepared(
    rooms: RoomTables,
    checkpoint_id: Uuid,
    node_id: Uuid,
    created_by: Uuid,
    now: int,
) -> bool {
    let checkpoint = rooms.checkpoints[checkpoint_id];
    &&& rooms.checkpoints.contains_key(checkpoint_id)
    &&& checkpoint.node_id == node_id
    &&& checkpoint.created_by == created_by
    &&& checkpoint.state == "prepared"@
    &&& checkpoint.expires_at > now
}

/// Whether an intent to import is a session's and is active.
pub open spec fn is_intended(
    rooms: RoomTables,
    intent_id: Uuid,
    principal_id: Uuid,
    session_id: Uuid,
) -> bool {
    let intent = rooms.intents[intent_id];
    &&& rooms.intents.contains_key(intent_id)
    &&& intent.principal_id == principal_id
    &&& intent.session_id == session_id
    &&& intent.state == "active"@
}

/// The nodes below which a new node lies, and the node itself.
pub open spec fn placed(
    ancestry: Set<(Uuid, Uuid, Uuid)>,
    drive_id: Uuid,
    parent_id: Uuid,
    node_id: Uuid,
) -> Set<(Uuid, Uuid, Uuid)> {
    ancestry.union(
        Set::new(
            |line: (Uuid, Uuid, Uuid)|
                line.0 == drive_id && line.2 == node_id && (line.1 == node_id || ancestry.contains(
                    (drive_id, line.1, parent_id),
                )),
        ),
    )
}

/// The epochs once the active ones of a node's rooms are frozen, under a new fence.
pub open spec fn node_frozen(rooms: RoomTables, drive_id: Uuid, node_id: Uuid) -> Map<
    (Uuid, i64),
    EpochRow,
> {
    rooms.epochs.map_entries(
        |key: (Uuid, i64), row: EpochRow|
            if rooms.rooms.contains_key(key.0) && rooms.rooms[key.0].drive_id == drive_id
                && rooms.rooms[key.0].node_id == node_id && row.state == "active"@ {
                EpochRow { state: "frozen"@, fencing_token: row.fencing_token + 1, ..row }
            } else {
                row
            },
    )
}

/// What the statements of uploads do.
#[verifier::opaque]
pub open spec fn means<'a>(
    sql: &'static str,
    params: Seq<Param<'a>>,
    reply: Reply,
    now: int,
    before: Tables,
    after: Tables,
) -> bool {
    let catalog = before.catalog;
    let rooms = before.rooms;
    let id = params[1]->Id_0;
    &&& sql == sql::COMMIT_UPLOAD_SELECT_UPLOAD_SESSIONS ==> {
        let upload = catalog.uploads[id];
        &&& after == before
        &&& answers(reply, is_complete(catalog, id, params[2]->Id_0, params[3]->I64_0))
        &&& first_row(reply) matches Some(row) ==> is_upload(
            row,
            upload,
            catalog.digests[upload.payload_id->0],
        )
    }
    &&& sql == sql::COMMIT_UPLOAD_SELECT_NODES ==> {
        let node_id = params[2]->Id_0;
        let hit = catalog.nodes.contains_key(node_id) && catalog.nodes[node_id].drive_id == id;
        &&& after == before
        &&& reply.optional_row::<Option<Uuid>>() == Ok::<Option<Option<Uuid>>, Fault>(
            if hit {
                Some(catalog.nodes[node_id].head_version_id)
            } else {
                None
            },
        )
    }
    &&& sql == sql::COMMIT_UPLOAD_INSERT_NODES ==> {
        let node_id = params[2]->Id_0;
        &&& !catalog.nodes.contains_key(node_id)
        &&& exists|row: NodeRow|
            {
                &&& #[trigger] is_new_file(row, params)
                &&& after == with_catalog(
                    before,
                    CatalogTables { nodes: catalog.nodes.insert(node_id, row), ..catalog },
                )
            }
    }
    &&& sql == sql::CREATE_DIRECTORY_INSERT_NODE_ANCESTRY ==> after == with_catalog(
        before,
        CatalogTables {
            ancestry: placed(catalog.ancestry, id, params[2]->Id_0, params[3]->Id_0),
            ..catalog
        },
    )
    &&& sql == sql::RESTORE_FILE_VERSION_SELECT_FILE_VERSIONS ==> {
        &&& after == before
        &&& reply.single_row::<i64>() is Ok
        &&& is_next_ordinal(catalog, id, reply.single_row::<i64>()->Ok_0 as int)
    }
    &&& sql == sql::COMMIT_UPLOAD_SELECT_CHECKPOINTS ==> {
        let checkpoint = rooms.checkpoints[id];
        &&& after == before
        &&& answers(reply, is_prepared(rooms, id, params[2]->Id_0, params[3]->Id_0, now))
        &&& first_row(reply) matches Some(row) ==> {
            &&& has::<Uuid>(row, "base_version_id"@, checkpoint.base_version_id)
            &&& has_number(row, "source_size_bytes"@, checkpoint.source_size_bytes as int)
            &&& has_bytes(row, "source_blake3"@, checkpoint.source_blake3)
            &&& has::<bool>(row, "mcp_assisted"@, checkpoint.mcp_assisted)
        }
    }
    &&& sql == sql::COMMIT_UPLOAD_SELECT_IMPORT_INTENTS ==> {
        let intent = rooms.intents[id];
        &&& after == before
        &&& answers(
            reply,
            is_intended(rooms, id, params[2]->Id_0, params[3]->Id_0) && intent.expires_at > now,
        )
        &&& first_row(reply) matches Some(row) ==> {
            &&& has::<Uuid>(row, "source_node_id"@, intent.source_node_id)
            &&& has::<Uuid>(row, "source_version_id"@, intent.source_version_id)
            &&& has_number(row, "source_membership_generation"@, intent.under.membership as int)
            &&& has_number(row, "source_drive_acl_generation"@, intent.under.drive_acl as int)
            &&& has_number(row, "source_namespace_generation"@, intent.under.namespace as int)
            &&& has_number(
                row,
                "source_resource_acl_generation"@,
                intent.under.resource_acl as int,
            )
        }
    }
    &&& sql == sql::COMMIT_UPLOAD_SELECT_API_SESSIONS ==> {
        let user_id = catalog.api_sessions[id].user_id;
        &&& after == before
        &&& catalog.api_sessions.contains_key(id) && catalog.api_sessions[id].principal_id
            == params[2]->Id_0 && catalog.users.contains_key(user_id) ==> {
            &&& reply.single_row::<String>() is Ok
            &&& reply.single_row::<String>()->Ok_0@ == catalog.users[user_id].display_name
        }
    }
    &&& sql == sql::COMMIT_UPLOAD_INSERT_FILE_VERSIONS ==> {
        let key = (id, params[2]->Id_0);
        let row = VersionRow {
            ordinal: params[3]->I64_0,
            payload_id: params[4]->Id_0,
            size_bytes: params[5]->I64_0,
            blake3: params[6]->Blob_0@,
            media_type: text_of(params[7]->OptOwned_0),
            created_by: params[8]->Id_0,
            origin_kind: params[9]->Text_0@,
            source_version_id: params[10]->OptId_0,
            restored_from_version_id: None,
            creator_display_name: Some(params[11]->Owned_0@),
            mcp_assisted: params[12]->Bool_0,
        };
        &&& !catalog.versions.contains_key(key)
        &&& after == with_catalog(
            before,
            CatalogTables { versions: catalog.versions.insert(key, row), ..catalog },
        )
    }
    &&& sql == sql::COMMIT_UPLOAD_UPDATE_NODES ==> {
        let node_id = params[2]->Id_0;
        let node = catalog.nodes[node_id];
        after == with_catalog(
            before,
            CatalogTables {
                nodes: changed(
                    catalog.nodes,
                    catalog.nodes.contains_key(node_id) && node.drive_id == id,
                    node_id,
                    NodeRow {
                        head_version_id: Some(params[3]->Id_0),
                        namespace_generation: node.namespace_generation + 1,
                        ..node
                    },
                ),
                ..catalog
            },
        )
    }
    &&& sql == sql::COMMIT_UPLOAD_UPDATE_PAYLOAD_OBJECTS ==> after == with_catalog(
        before,
        catalog.disposed(catalog.payloads.contains_key(id), id, "referenced"@),
    )
    &&& sql == sql::COMMIT_UPLOAD_UPDATE_UPLOAD_SESSIONS ==> after == with_catalog(
        before,
        CatalogTables {
            uploads: changed(
                catalog.uploads,
                catalog.uploads.contains_key(id),
                id,
                UploadRow { state: "committed"@, ..catalog.uploads[id] },
            ),
            ..catalog
        },
    )
    &&& sql == sql::COMMIT_UPLOAD_UPDATE_CHECKPOINTS ==> {
        let checkpoint = rooms.checkpoints[id];
        let hit = rooms.checkpoints.contains_key(id) && checkpoint.state == "prepared"@;
        let row = CheckpointRow {
            state: "committed"@,
            committed_version_id: Some(params[2]->Id_0),
            ..checkpoint
        };
        &&& after == (Tables {
            rooms: RoomTables {
                checkpoints: changed(rooms.checkpoints, hit, id, row),
                ..rooms
            },
            ..before
        })
        &&& touches(reply, hit)
    }
    &&& sql == sql::COMMIT_UPLOAD_UPDATE_EPOCHS ==> {
        let key = (rooms.checkpoints[id].room_id, rooms.checkpoints[id].epoch);
        let hit = rooms.checkpoints.contains_key(id) && rooms.epochs.contains_key(key)
            && rooms.epochs[key].state == "active"@;
        let row = EpochRow {
            state: "closed"@,
            fencing_token: rooms.epochs[key].fencing_token + 1,
            ..rooms.epochs[key]
        };
        &&& after == (Tables {
            rooms: RoomTables { epochs: changed(rooms.epochs, hit, key, row), ..rooms },
            ..before
        })
        &&& touches(reply, hit)
    }
    &&& sql == sql::RESTORE_FILE_VERSION_UPDATE_EPOCHS ==> after == (Tables {
        rooms: RoomTables { epochs: node_frozen(rooms, id, params[2]->Id_0), ..rooms },
        ..before
    })
    &&& sql == sql::COMMIT_UPLOAD_UPDATE_IMPORT_INTENTS ==> {
        let hit = is_intended(rooms, id, params[2]->Id_0, params[3]->Id_0);
        let row = IntentRow { state: "consumed"@, ..rooms.intents[id] };
        &&& after == (Tables {
            rooms: RoomTables { intents: changed(rooms.intents, hit, id, row), ..rooms },
            ..before
        })
        &&& touches(reply, hit)
    }
    &&& sql == sql::COMMIT_UPLOAD_UPDATE_QUOTA_RESERVATIONS ==> after == with_catalog(
        before,
        CatalogTables {
            quotas: changed(catalog.quotas, catalog.quotas.contains_key(id), id, "committed"@),
            ..catalog
        },
    )
    &&& sql == sql::COMMIT_UPLOAD_UPDATE_DRIVES ==> {
        let drive = catalog.drives[id];
        after == with_catalog(
            before,
            CatalogTables {
                drives: changed(
                    catalog.drives,
                    catalog.drives.contains_key(id),
                    id,
                    DriveRow {
                        reserved_bytes: drive.reserved_bytes - params[2]->I64_0,
                        used_bytes: drive.used_bytes + params[2]->I64_0,
                        namespace_generation: drive.namespace_generation + 1,
                        ..drive
                    },
                ),
                ..catalog
            },
        )
    }
}

/// How a version that an upload becomes came to be: from a checkpoint of the node, from an import,
/// by saving Markdown over the version it was read from, or by a plain upload.
pub open spec fn origin_of(rooms: RoomTables, upload: UploadRow) -> VersionOrigin {
    if upload.collaboration_checkpoint_id is Some {
        let checkpoint = rooms.checkpoints[upload.collaboration_checkpoint_id->0];
        VersionOrigin {
            kind: "collaboration_checkpoint",
            source_version_id: Some(checkpoint.base_version_id),
            mcp_assisted: checkpoint.mcp_assisted,
        }
    } else if upload.import_intent_id is Some {
        VersionOrigin {
            kind: "import",
            source_version_id: Some(rooms.intents[upload.import_intent_id->0].source_version_id),
            mcp_assisted: false,
        }
    } else if upload.node_id is Some && upload.declared_media_type == Some("text/markdown"@) {
        VersionOrigin {
            kind: "markdown_save",
            source_version_id: upload.expected_head_version_id,
            mcp_assisted: false,
        }
    } else {
        VersionOrigin { kind: "upload", source_version_id: None, mcp_assisted: false }
    }
}

/// The version that an upload becomes.
pub open spec fn version_of(
    before: Tables, upload_id: Uuid, session_id: Uuid, ordinal: i64,
) -> VersionRow {
    let catalog = before.catalog;
    let upload = catalog.uploads[upload_id];
    let origin = origin_of(before.rooms, upload);
    VersionRow {
        ordinal,
        payload_id: upload.payload_id->0,
        size_bytes: upload.declared_size_bytes,
        blake3: catalog.digests[upload.payload_id->0],
        media_type: upload.declared_media_type,
        created_by: upload.owner_principal_id,
        origin_kind: origin.kind@,
        source_version_id: origin.source_version_id,
        restored_from_version_id: None,
        creator_display_name: Some(
            catalog.users[catalog.api_sessions[session_id].user_id].display_name,
        ),
        mcp_assisted: origin.mcp_assisted,
    }
}

/// Whether the sources of an upload allow it: a checkpoint of the node that the uploader prepared
/// from the expected head, with the same bytes, or an intent to import that the session holds,
/// whose source the uploader may still read. Both are for Markdown only.
pub open spec fn sources_allow(
    before: Tables,
    ready: CatalogTables,
    session_id: Uuid,
    upload: UploadRow,
    node_id: Uuid,
    course: Course,
) -> bool {
    let rooms = before.rooms;
    let checkpoint_id = upload.collaboration_checkpoint_id->0;
    let checkpoint = rooms.checkpoints[checkpoint_id];
    let intent_id = upload.import_intent_id->0;
    let intent = rooms.intents[intent_id];
    let markdown = upload.declared_media_type == Some("text/markdown"@);
    &&& upload.collaboration_checkpoint_id is Some ==> {
        &&& is_prepared(rooms, checkpoint_id, node_id, upload.owner_principal_id, course.clock[0])
        &&& upload.expected_head_version_id == Some(checkpoint.base_version_id)
        &&& checkpoint.source_size_bytes == upload.declared_size_bytes
        &&& checkpoint.source_blake3 == before.catalog.digests[upload.payload_id->0]
        &&& markdown
    }
    &&& upload.import_intent_id is Some ==> is_intended(
        rooms,
        intent_id,
        upload.owner_principal_id,
        session_id,
    )
    &&& upload.collaboration_checkpoint_id is None && upload.import_intent_id is Some ==> {
        &&& markdown
        &&& intent.expires_at > course.clock[0]
        &&& ready.permits(
            session_id,
            upload.owner_principal_id,
            upload.drive_id,
            intent.source_node_id,
            intent.under,
            course.clock[0],
        )
    }
}

/// The rooms once an upload is committed: the checkpoint that it comes from is committed to the
/// version, and its epoch closed; without one, the node's active epochs are frozen. The intent that
/// it comes from is consumed.
pub open spec fn rooms_after(
    rooms: RoomTables,
    upload: UploadRow,
    node_id: Uuid,
    version_id: Uuid,
) -> RoomTables {
    let checkpoint_id = upload.collaboration_checkpoint_id->0;
    let checkpoint = rooms.checkpoints[checkpoint_id];
    let key = (checkpoint.room_id, checkpoint.epoch);
    let intent_id = upload.import_intent_id->0;
    RoomTables {
        checkpoints: changed(
            rooms.checkpoints,
            upload.collaboration_checkpoint_id is Some,
            checkpoint_id,
            CheckpointRow {
                state: "committed"@,
                committed_version_id: Some(version_id),
                ..checkpoint
            },
        ),
        epochs: if upload.collaboration_checkpoint_id is Some {
            rooms.epochs.insert(
                key,
                EpochRow {
                    state: "closed"@,
                    fencing_token: rooms.epochs[key].fencing_token + 1,
                    ..rooms.epochs[key]
                },
            )
        } else {
            node_frozen(rooms, upload.drive_id, node_id)
        },
        intents: changed(
            rooms.intents,
            upload.import_intent_id is Some,
            intent_id,
            IntentRow { state: "consumed"@, ..rooms.intents[intent_id] },
        ),
        ..rooms
    }
}

/// What the writes of a commit do to the catalog in which the node stands already.
pub open spec fn catalog_after(
    before: CatalogTables,
    after: CatalogTables,
    upload_id: Uuid,
    node_id: Uuid,
    version_id: Uuid,
    version: VersionRow,
) -> bool {
    let upload = before.uploads[upload_id];
    let drive = before.drives[upload.drive_id];
    let node = before.nodes[node_id];
    &&& !before.versions.contains_key((node_id, version_id))
    &&& after == (CatalogTables {
        versions: before.versions.insert((node_id, version_id), version),
        nodes: before.nodes.insert(
            node_id,
            NodeRow {
                head_version_id: Some(version_id),
                namespace_generation: node.namespace_generation + 1,
                ..node
            },
        ),
        payloads: before.payloads.insert(upload.payload_id->0, "referenced"@),
        uploads: before.uploads.insert(upload_id, UploadRow { state: "committed"@, ..upload }),
        quotas: changed(
            before.quotas,
            before.quotas.contains_key(upload_id),
            upload_id,
            "committed"@,
        ),
        drives: before.drives.insert(
            upload.drive_id,
            DriveRow {
                reserved_bytes: drive.reserved_bytes - upload.declared_size_bytes,
                used_bytes: drive.used_bytes + upload.declared_size_bytes,
                namespace_generation: drive.namespace_generation + 1,
                ..drive
            },
        ),
        audit_events: before.audit_events.push(
            AuditRow {
                actor: Some(upload.owner_principal_id),
                target: None,
                resource: Some(node_id),
                action: "version.commit"@,
                outcome: "allowed"@,
                reason: "create_version_allowed"@,
                privacy_visible: false,
                details: seq![("version_id"@, Fact::Id(version_id))],
            },
        ),
        outbox_events: after.outbox_events,
        ..before
    })
}

/// The place of the writes of a commit in its script.
pub open spec fn writes_at(upload: UploadRow) -> int {
    let at = if upload.node_id is Some {
        6int
    } else {
        8
    };
    if upload.collaboration_checkpoint_id is Some {
        at + 1
    } else if upload.import_intent_id is Some {
        at + 2
    } else {
        at
    }
}

/// Whether the record that a commit reads is what an upload holds.
pub open spec fn is_record(found: FinalizedUpload, upload: UploadRow, blake3: Seq<u8>) -> bool {
    &&& found.drive_id == upload.drive_id
    &&& found.parent_id == upload.parent_id
    &&& found.node_id == upload.node_id
    &&& found.expected_head_version_id == upload.expected_head_version_id
    &&& found.target_display_name@ == upload.target_display_name
    &&& found.target_name_key@ == upload.target_name_key
    &&& upload.payload_id == Some(found.payload_id)
    &&& found.declared_size_bytes == upload.declared_size_bytes
    &&& found.blake3@ == blake3
    &&& text_of(found.declared_media_type) == upload.declared_media_type
    &&& found.collaboration_checkpoint_id == upload.collaboration_checkpoint_id
    &&& found.import_intent_id == upload.import_intent_id
}

/// What a commit has found once its fence holds.
pub open spec fn is_found(
    session_id: Uuid,
    actor: Uuid,
    upload_id: Uuid,
    fencing_token: i64,
    under: FenceGenerations,
    log: Seq<Reply>,
    course: Course,
) -> bool {
    let before = course.start();
    let upload = before.catalog.uploads[upload_id];
    let found = log[1].required_row::<FinalizedUpload>(DatabaseError::StaleGeneration)->Ok_0;
    let resource = if upload.node_id is Some {
        upload.node_id->0
    } else {
        upload.parent_id
    };
    &&& is_complete(before.catalog, upload_id, actor, fencing_token)
    &&& is_record(found, upload, before.catalog.digests[upload.payload_id->0])
    &&& before.catalog.permits(
        session_id,
        actor,
        upload.drive_id,
        resource,
        under,
        course.clock[0],
    )
    &&& course.rows[3] == before
}

proof fn lemma_upload_is_found(
    tenant_id: Uuid,
    actor: Uuid,
    session_id: Uuid,
    upload_id: Uuid,
    fencing_token: i64,
    under: FenceGenerations,
    log: Seq<Reply>,
    course: Course,
)
    requires
        crate::step::is_done(
            Database::commit_upload_fault(
                under.membership,
                under.drive_acl,
                under.namespace,
                under.resource_acl,
                log,
            ),
            Database::commit_upload_script(
                tenant_id,
                actor,
                session_id,
                upload_id,
                fencing_token,
                log,
            ),
            log,
        ),
        course.follows(
            Database::commit_upload_script(
                tenant_id,
                actor,
                session_id,
                upload_id,
                fencing_token,
                log,
            ),
            log,
        ),
    ensures
        is_found(session_id, actor, upload_id, fencing_token, under, log, course),
{
    reveal(means);
    reveal(crate::tables::catalog::means);
    reveal(FinalizedUpload::of_row);
    let script = Database::commit_upload_script(
        tenant_id,
        actor,
        session_id,
        upload_id,
        fencing_token,
        log,
    );
    assert(course.performs(script, log, 0));
    assert(course.performs(script, log, 1));
    assert(course.rows[1] == course.start());
    let found = log[1].required_row::<FinalizedUpload>(DatabaseError::StaleGeneration);
    assert(found is Ok);
    assert(first_row(log[1]) is Some);
    assert(course.performs(script, log, 2));
    let fence = log[2].required_row::<FenceGenerations>(DatabaseError::StaleGeneration);
    assert(fence is Ok);
    assert(first_row(log[2]) is Some);
    let expected = seq![under.membership, under.drive_acl, under.namespace, under.resource_acl];
    assert(expected[0] == fence->Ok_0.membership);
    assert(expected[1] == fence->Ok_0.drive_acl);
    assert(expected[2] == fence->Ok_0.namespace);
    assert(expected[3] == fence->Ok_0.resource_acl);
    assert(course.clock[0] <= course.clock[2]);
}

/// The catalog in which the file of an upload stands: as it was where it stood already; else with
/// the new file in its directory.
pub open spec fn is_ready(
    before: CatalogTables,
    ready: CatalogTables,
    upload: UploadRow,
    node_id: Uuid,
) -> bool {
    let node = ready.nodes[node_id];
    if upload.node_id is Some {
        &&& upload.node_id == Some(node_id)
        &&& before.nodes[node_id].head_version_id == upload.expected_head_version_id
        &&& ready == before
    } else {
        &&& !before.nodes.contains_key(node_id)
        &&& node.drive_id == upload.drive_id
        &&& node.parent_id == Some(upload.parent_id)
        &&& node.kind == "file"@
        &&& node.display_name == upload.target_display_name
        &&& node.name_key == upload.target_name_key
        &&& node.owner_principal_id == upload.owner_principal_id
        &&& node.head_version_id is None
        &&& node.trash_root_id is None
        &&& ready == (CatalogTables {
            nodes: before.nodes.insert(node_id, node),
            ancestry: placed(before.ancestry, upload.drive_id, upload.parent_id, node_id),
            ..before
        })
    }
}

#[verifier::rlimit(40)]
proof fn lemma_file_is_ready(
    tenant_id: Uuid,
    actor: Uuid,
    session_id: Uuid,
    upload_id: Uuid,
    fencing_token: i64,
    under: FenceGenerations,
    log: Seq<Reply>,
    course: Course,
)
    requires
        crate::step::is_done(
            Database::commit_upload_fault(
                under.membership,
                under.drive_acl,
                under.namespace,
                under.resource_acl,
                log,
            ),
            Database::commit_upload_script(
                tenant_id,
                actor,
                session_id,
                upload_id,
                fencing_token,
                log,
            ),
            log,
        ),
        course.follows(
            Database::commit_upload_script(
                tenant_id,
                actor,
                session_id,
                upload_id,
                fencing_token,
                log,
            ),
            log,
        ),
    ensures
        ({
            let upload = course.start().catalog.uploads[upload_id];
            let at = if upload.node_id is Some {
                4int
            } else {
                6
            };
            let out = Database::commit_upload_output(log);
            let ready = course.rows[at + 2];
            &&& is_ready(course.start().catalog, ready.catalog, upload, out.0)
            &&& ready == with_catalog(course.start(), ready.catalog)
            &&& log[at].drawn_ids(1) is Ok
            &&& log[at].drawn_ids(1)->Ok_0[0] == out.1
            &&& log[at + 1].single_row::<i64>() is Ok
            &&& is_next_ordinal(ready.catalog, out.0, log[at + 1].single_row::<i64>()->Ok_0 as int)
        }),
{
    lemma_upload_is_found(
        tenant_id,
        actor,
        session_id,
        upload_id,
        fencing_token,
        under,
        log,
        course,
    );
    reveal(means);
    let script = Database::commit_upload_script(
        tenant_id,
        actor,
        session_id,
        upload_id,
        fencing_token,
        log,
    );
    let upload = course.start().catalog.uploads[upload_id];
    assert(course.performs(script, log, 3));
    assert(course.performs(script, log, 4));
    assert(course.performs(script, log, 5));
    if upload.node_id is None {
        assert(course.performs(script, log, 6));
        assert(course.performs(script, log, 7));
    }
}

#[verifier::rlimit(40)]
proof fn lemma_sources_allow(
    tenant_id: Uuid,
    actor: Uuid,
    session_id: Uuid,
    upload_id: Uuid,
    fencing_token: i64,
    under: FenceGenerations,
    log: Seq<Reply>,
    course: Course,
)
    requires
        crate::step::is_done(
            Database::commit_upload_fault(
                under.membership,
                under.drive_acl,
                under.namespace,
                under.resource_acl,
                log,
            ),
            Database::commit_upload_script(
                tenant_id,
                actor,
                session_id,
                upload_id,
                fencing_token,
                log,
            ),
            log,
        ),
        course.follows(
            Database::commit_upload_script(
                tenant_id,
                actor,
                session_id,
                upload_id,
                fencing_token,
                log,
            ),
            log,
        ),
    ensures
        ({
            let before = course.start();
            let upload = before.catalog.uploads[upload_id];
            let at = if upload.node_id is Some {
                4int
            } else {
                6
            };
            let out = Database::commit_upload_output(log);
            &&& course.rows[writes_at(upload)] == course.rows[at + 2]
            &&& upload.collaboration_checkpoint_id is Some ==> {
                let checkpoint_id = upload.collaboration_checkpoint_id->0;
                let checkpoint = before.rooms.checkpoints[checkpoint_id];
                let found = log[at + 2].required_row::<CheckpointSource>(
                    DatabaseError::StaleGeneration,
                )->Ok_0;
                &&& is_prepared(
                    before.rooms,
                    checkpoint_id,
                    out.0,
                    upload.owner_principal_id,
                    course.clock[0],
                )
                &&& upload.expected_head_version_id == Some(checkpoint.base_version_id)
                &&& checkpoint.source_size_bytes == upload.declared_size_bytes
                &&& checkpoint.source_blake3 == before.catalog.digests[upload.payload_id->0]
                &&& upload.declared_media_type == Some("text/markdown"@)
                &&& found.base_version_id == checkpoint.base_version_id
                &&& found.mcp_assisted == checkpoint.mcp_assisted
            }
            &&& upload.collaboration_checkpoint_id is None && upload.import_intent_id is Some ==> {
                let intent_id = upload.import_intent_id->0;
                let intent = before.rooms.intents[intent_id];
                let found = log[at + 2].required_row::<ImportSource>(
                    DatabaseError::StaleGeneration,
                )->Ok_0;
                &&& upload.declared_media_type == Some("text/markdown"@)
                &&& is_intended(before.rooms, intent_id, upload.owner_principal_id, session_id)
                &&& intent.expires_at > course.clock[0]
                &&& found.source_version_id == intent.source_version_id
                &&& course.rows[at + 2].catalog.permits(
                    session_id,
                    upload.owner_principal_id,
                    upload.drive_id,
                    intent.source_node_id,
                    intent.under,
                    course.clock[0],
                )
            }
        }),
{
    lemma_upload_is_found(
        tenant_id,
        actor,
        session_id,
        upload_id,
        fencing_token,
        under,
        log,
        course,
    );
    lemma_file_is_ready(
        tenant_id,
        actor,
        session_id,
        upload_id,
        fencing_token,
        under,
        log,
        course,
    );
    reveal(means);
    reveal(CheckpointSource::of_row);
    reveal(ImportSource::of_row);
    let script = Database::commit_upload_script(
        tenant_id,
        actor,
        session_id,
        upload_id,
        fencing_token,
        log,
    );
    let upload = course.start().catalog.uploads[upload_id];
    let at = if upload.node_id is Some {
        6int
    } else {
        8
    };
    if upload.collaboration_checkpoint_id is Some {
        assert(course.performs(script, log, at));
        assert(course.clock[0] <= course.clock[at]);
        let found = log[at].required_row::<CheckpointSource>(DatabaseError::StaleGeneration);
        assert(found is Ok);
        assert(first_row(log[at]) is Some);
    } else if upload.import_intent_id is Some {
        reveal(crate::tables::catalog::means);
        assert(course.performs(script, log, at));
        assert(course.clock[0] <= course.clock[at]);
        let found = log[at].required_row::<ImportSource>(DatabaseError::StaleGeneration);
        assert(found is Ok);
        assert(first_row(log[at]) is Some);
        assert(course.performs(script, log, at + 1));
        assert(course.clock[0] <= course.clock[at + 1]);
        let fence = log[at + 1].required_row::<FenceGenerations>(DatabaseError::StaleGeneration);
        assert(fence is Ok);
        assert(first_row(log[at + 1]) is Some);
    }
}

/// What the writes of a commit leave, from the catalog in which the file stands on.
pub open spec fn is_written(
    tenant_id: Uuid,
    session_id: Uuid,
    upload_id: Uuid,
    node_id: Uuid,
    version_id: Uuid,
    ordinal: i64,
    origin: VersionOrigin,
    from: int,
    course: Course,
) -> bool {
    let before = course.rows[from];
    let after = course.end();
    let upload = before.catalog.uploads[upload_id];
    let user_id = before.catalog.api_sessions[session_id].user_id;
    let version = VersionRow {
        ordinal,
        payload_id: upload.payload_id->0,
        size_bytes: upload.declared_size_bytes,
        blake3: before.catalog.digests[upload.payload_id->0],
        media_type: upload.declared_media_type,
        created_by: upload.owner_principal_id,
        origin_kind: origin.kind@,
        source_version_id: origin.source_version_id,
        restored_from_version_id: None,
        creator_display_name: Some(before.catalog.users[user_id].display_name),
        mcp_assisted: origin.mcp_assisted,
    };
    &&& catalog_after(before.catalog, after.catalog, upload_id, node_id, version_id, version)
    &&& after.rooms == rooms_after(before.rooms, upload, node_id, version_id)
    &&& upload.import_intent_id is Some ==> is_intended(
        before.rooms,
        upload.import_intent_id->0,
        upload.owner_principal_id,
        session_id,
    )
    &&& after.documents == before.documents
    &&& after.media == before.media
    &&& tells(
        before.catalog,
        after.catalog,
        tenant_id,
        "filebelt.v1.namespace.changed"@,
        "node"@,
        node_id,
        ordinal,
        course,
    )
}

#[verifier::rlimit(100)]
#[verifier::spinoff_prover]
proof fn lemma_writes<'a>(
    tenant_id: Uuid,
    actor: Uuid,
    session_id: Uuid,
    upload_id: Uuid,
    found: FinalizedUpload,
    node_id: Uuid,
    version_id: Uuid,
    ordinal: i64,
    origin: VersionOrigin,
    from: int,
    script: Seq<CommandView<'a>>,
    log: Seq<Reply>,
    course: Course,
)
    requires
        0 <= from,
        ({
            let writes = Database::commit_upload_writes_script(
                tenant_id,
                actor,
                session_id,
                upload_id,
                found,
                node_id,
                version_id,
                ordinal,
                origin,
                from,
                log,
            );
            let catalog = course.rows[from].catalog;
            let upload = catalog.uploads[upload_id];
            let user_id = catalog.api_sessions[session_id].user_id;
            &&& holds(script, from, writes)
            &&& log.len() == from + writes.len()
            &&& course.follows(script, log)
            &&& Database::commit_upload_writes_fault(found, ordinal, from, log) is None
            &&& catalog.uploads.contains_key(upload_id)
            &&& upload.owner_principal_id == actor
            &&& is_record(found, upload, catalog.digests[upload.payload_id->0])
            &&& catalog.payloads.contains_key(upload.payload_id->0)
            &&& catalog.drives.contains_key(upload.drive_id)
            &&& catalog.nodes.contains_key(node_id)
            &&& catalog.nodes[node_id].drive_id == upload.drive_id
            &&& catalog.api_sessions.contains_key(session_id)
            &&& catalog.api_sessions[session_id].principal_id == actor
            &&& catalog.users.contains_key(user_id)
        }),
    ensures
        is_written(
            tenant_id,
            session_id,
            upload_id,
            node_id,
            version_id,
            ordinal,
            origin,
            from,
            course,
        ),
{
    reveal(means);
    reveal(crate::tables::catalog::means);
    let writes = Database::commit_upload_writes_script(
        tenant_id,
        actor,
        session_id,
        upload_id,
        found,
        node_id,
        version_id,
        ordinal,
        origin,
        from,
        log,
    );
    let checkpointed = found.collaboration_checkpoint_id is Some;
    let at = if checkpointed {
        7int
    } else {
        6
    };
    let at2 = if found.import_intent_id is Some {
        at + 1
    } else {
        at
    };
    assert(script[from] == writes[0]);
    assert(script[from + 1] == writes[1]);
    assert(script[from + 2] == writes[2]);
    assert(script[from + 3] == writes[3]);
    assert(script[from + 4] == writes[4]);
    assert(script[from + 5] == writes[5]);
    assert(course.performs(script, log, from));
    assert(course.performs(script, log, from + 1));
    assert(course.performs(script, log, from + 2));
    assert(course.performs(script, log, from + 3));
    assert(course.performs(script, log, from + 4));
    assert(course.performs(script, log, from + 5));
    if checkpointed {
        assert(script[from + 6] == writes[6]);
        assert(course.performs(script, log, from + 6));
    }
    if found.import_intent_id is Some {
        assert(script[from + at] == writes[at]);
        assert(course.performs(script, log, from + at));
    }
    assert(script[from + at2] == writes[at2]);
    assert(script[from + at2 + 1] == writes[at2 + 1]);
    assert(script[from + at2 + 2] == writes[at2 + 2]);
    assert(script[from + at2 + 3] == writes[at2 + 3]);
    assert(script[from + at2 + 4] == writes[at2 + 4]);
    assert(script[from + at2 + 5] == writes[at2 + 5]);
    assert(course.performs(script, log, from + at2));
    assert(course.performs(script, log, from + at2 + 1));
    assert(course.performs(script, log, from + at2 + 2));
    assert(course.performs(script, log, from + at2 + 3));
    assert(course.performs(script, log, from + at2 + 4));
    assert(course.performs(script, log, from + at2 + 5));
    assert(course.clock[0] <= course.clock[from + at2 + 3]);
    assert(course.clock[from + at2 + 3] <= course.clock[from + at2 + 5]);
    assert(course.end() == course.rows[from + at2 + 6]);
}

#[verifier::rlimit(40)]
proof fn lemma_writes_are_there(
    tenant_id: Uuid,
    actor: Uuid,
    session_id: Uuid,
    upload_id: Uuid,
    fencing_token: i64,
    under: FenceGenerations,
    log: Seq<Reply>,
    course: Course,
)
    requires
        crate::step::is_done(
            Database::commit_upload_fault(
                under.membership,
                under.drive_acl,
                under.namespace,
                under.resource_acl,
                log,
            ),
            Database::commit_upload_script(
                tenant_id,
                actor,
                session_id,
                upload_id,
                fencing_token,
                log,
            ),
            log,
        ),
        course.follows(
            Database::commit_upload_script(
                tenant_id,
                actor,
                session_id,
                upload_id,
                fencing_token,
                log,
            ),
            log,
        ),
    ensures
        ({
            let upload = course.start().catalog.uploads[upload_id];
            let found = log[1].required_row::<FinalizedUpload>(
                DatabaseError::StaleGeneration,
            )->Ok_0;
            let at = writes_at(upload);
            let base = if upload.node_id is Some {
                4int
            } else {
                6
            };
            let out = Database::commit_upload_output(log);
            let origin = origin_of(course.start().rooms, upload);
            let writes = Database::commit_upload_writes_script(
                tenant_id,
                actor,
                session_id,
                upload_id,
                found,
                out.0,
                out.1,
                log[base + 1].single_row::<i64>()->Ok_0,
                origin,
                at,
                log,
            );
            &&& holds(
                Database::commit_upload_script(
                    tenant_id,
                    actor,
                    session_id,
                    upload_id,
                    fencing_token,
                    log,
                ),
                at,
                writes,
            )
            &&& log.len() == at + writes.len()
            &&& Database::commit_upload_writes_fault(
                found,
                log[base + 1].single_row::<i64>()->Ok_0,
                at,
                log,
            ) is None
        }),
{
    lemma_upload_is_found(
        tenant_id,
        actor,
        session_id,
        upload_id,
        fencing_token,
        under,
        log,
        course,
    );
    lemma_file_is_ready(
        tenant_id,
        actor,
        session_id,
        upload_id,
        fencing_token,
        under,
        log,
        course,
    );
    lemma_sources_allow(
        tenant_id,
        actor,
        session_id,
        upload_id,
        fencing_token,
        under,
        log,
        course,
    );
    let script = Database::commit_upload_script(
        tenant_id,
        actor,
        session_id,
        upload_id,
        fencing_token,
        log,
    );
    let upload = course.start().catalog.uploads[upload_id];
    let found = log[1].required_row::<FinalizedUpload>(DatabaseError::StaleGeneration)->Ok_0;
    let at = writes_at(upload);
    let base = if upload.node_id is Some {
        4int
    } else {
        6
    };
    let out = Database::commit_upload_output(log);
    let writes = Database::commit_upload_writes_script(
        tenant_id,
        actor,
        session_id,
        upload_id,
        found,
        out.0,
        out.1,
        log[base + 1].single_row::<i64>()->Ok_0,
        origin_of(course.start().rooms, upload),
        at,
        log,
    );
    assert(script.len() == at + writes.len());
    assert(holds(script, at, writes));
}

/// What a committed upload leaves, of a file and a version. It goes through where the upload is
/// complete, its uploader is authorized as when they were checked, the file has the head that the
/// upload expects, and its sources allow it. Afterwards the version holds what was uploaded and
/// stands at the head of the file, which is new where the upload names none.
pub open spec fn is_committed(
    tenant_id: Uuid,
    actor: Uuid,
    session_id: Uuid,
    upload_id: Uuid,
    fencing_token: i64,
    under: FenceGenerations,
    node_id: Uuid,
    version_id: Uuid,
    course: Course,
) -> bool {
    let before = course.start();
    let after = course.end();
    let upload = before.catalog.uploads[upload_id];
    let resource = if upload.node_id is Some {
        upload.node_id->0
    } else {
        upload.parent_id
    };
    let ordinal = after.catalog.versions[(node_id, version_id)].ordinal;
    &&& is_complete(before.catalog, upload_id, actor, fencing_token)
    &&& before.catalog.permits(
        session_id,
        actor,
        upload.drive_id,
        resource,
        under,
        course.clock[0],
    )
    &&& is_next_ordinal(before.catalog, node_id, ordinal as int)
    &&& after.catalog.nodes[node_id].head_version_id == Some(version_id)
    &&& after.catalog.versions[(node_id, version_id)] == version_of(
        before,
        upload_id,
        session_id,
        ordinal,
    )
    &&& exists|ready: CatalogTables|
        {
            &&& #[trigger] is_ready(before.catalog, ready, upload, node_id)
            &&& sources_allow(before, ready, session_id, upload, node_id, course)
            &&& catalog_after(
                ready,
                after.catalog,
                upload_id,
                node_id,
                version_id,
                version_of(before, upload_id, session_id, ordinal),
            )
        }
    &&& after.rooms == rooms_after(before.rooms, upload, node_id, version_id)
    &&& after.documents == before.documents
    &&& after.media == before.media
    &&& tells(
        before.catalog,
        after.catalog,
        tenant_id,
        "filebelt.v1.namespace.changed"@,
        "node"@,
        node_id,
        ordinal,
        course,
    )
}

/// A committed upload stands at the head of its file, both where the file is new and where it was
/// there: the version under the identifier that is returned has the upload's payload, size, digest
/// and media type, its ordinal is the file's next, and what was reserved for it on the drive is now
/// used. One audit event and one outbox event tell of it, and the upload is committed, so that it
/// cannot be committed again.
pub proof fn committed_uploads_stand_at_the_head(
    tenant_id: Uuid,
    actor: Uuid,
    session_id: Uuid,
    upload_id: Uuid,
    fencing_token: i64,
    under: FenceGenerations,
    log: Seq<Reply>,
    course: Course,
)
    requires
        crate::step::is_done(
            Database::commit_upload_fault(
                under.membership,
                under.drive_acl,
                under.namespace,
                under.resource_acl,
                log,
            ),
            Database::commit_upload_script(
                tenant_id,
                actor,
                session_id,
                upload_id,
                fencing_token,
                log,
            ),
            log,
        ),
        course.follows(
            Database::commit_upload_script(
                tenant_id,
                actor,
                session_id,
                upload_id,
                fencing_token,
                log,
            ),
            log,
        ),
    ensures
        ({
            let out = Database::commit_upload_output(log);
            is_committed(
                tenant_id,
                actor,
                session_id,
                upload_id,
                fencing_token,
                under,
                out.0,
                out.1,
                course,
            )
        }),
{
    lemma_upload_is_found(
        tenant_id,
        actor,
        session_id,
        upload_id,
        fencing_token,
        under,
        log,
        course,
    );
    lemma_file_is_ready(
        tenant_id,
        actor,
        session_id,
        upload_id,
        fencing_token,
        under,
        log,
        course,
    );
    lemma_sources_allow(
        tenant_id,
        actor,
        session_id,
        upload_id,
        fencing_token,
        under,
        log,
        course,
    );
    lemma_writes_are_there(
        tenant_id,
        actor,
        session_id,
        upload_id,
        fencing_token,
        under,
        log,
        course,
    );
    let script = Database::commit_upload_script(
        tenant_id,
        actor,
        session_id,
        upload_id,
        fencing_token,
        log,
    );
    let upload = course.start().catalog.uploads[upload_id];
    let found = log[1].required_row::<FinalizedUpload>(DatabaseError::StaleGeneration)->Ok_0;
    let at = writes_at(upload);
    let base = if upload.node_id is Some {
        4int
    } else {
        6
    };
    let out = Database::commit_upload_output(log);
    let origin = origin_of(course.start().rooms, upload);
    let ordinal = log[base + 1].single_row::<i64>()->Ok_0;
    let ready = course.rows[at].catalog;
    lemma_writes(
        tenant_id,
        actor,
        session_id,
        upload_id,
        found,
        out.0,
        out.1,
        ordinal,
        origin,
        at,
        script,
        log,
        course,
    );
    assert(is_ready(course.start().catalog, ready, upload, out.0));
}

} // verus!
