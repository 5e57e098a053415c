//! The rows behind rooms, their participants, objects and checkpoints, and laws about how they
//! begin.

use vstd::prelude::*;

use crate::collaboration::CheckpointEpoch;
use crate::collaboration::CollaborationAuthorizationContext;
use crate::collaboration::CollaborationObjectRecordView;
use crate::collaboration::CollaborationSummaryRecord;
use crate::collaboration::ReservableEpoch;
use crate::database::Database;
use crate::error::DatabaseError;
use crate::error::Fault;
use crate::fence::FenceGenerations;
use crate::id::Uuid;
use crate::row::Reply;
use crate::row::Row;
use crate::sql::collaboration as sql;
use crate::step::Param;
use crate::tables::answers;
use crate::tables::catalog::with_catalog;
use crate::tables::catalog::CatalogTables;
use crate::tables::catalog::DriveRow;
use crate::tables::catalog::PlaceRow;
use crate::tables::changed;
use crate::tables::collaboration::fence_of;
use crate::tables::collaboration::with_rooms;
use crate::tables::collaboration::CheckpointRow;
use crate::tables::collaboration::EpochRow;
use crate::tables::collaboration::ObjectRow;
use crate::tables::collaboration::PayloadRow;
use crate::tables::collaboration::RoomParticipantRow;
use crate::tables::collaboration::RoomRow;
use crate::tables::collaboration::RoomTables;
use crate::tables::first_row;
use crate::tables::has;
use crate::tables::has_number;
use crate::tables::has_text;
use crate::tables::touches;
use crate::tables::Course;
use crate::tables::Tables;

verus! {

/// Whether an epoch is active.
pub open spec fn is_active(rooms: RoomTables, key: (Uuid, i64)) -> bool {
    rooms.epochs.contains_key(key) && rooms.epochs[key].state == "active"@
}

/// The participants of an epoch, by their clients.
pub open spec fn present(rooms: RoomTables, room_id: Uuid, epoch: i64) -> Set<Uuid> {
    Set::new(|client_id: Uuid| rooms.participants.contains_key((room_id, epoch, client_id)))
}

/// The participants without those of an epoch whose time has passed.
pub open spec fn without_expired(
    participants: Map<(Uuid, i64, Uuid), RoomParticipantRow>,
    room_id: Uuid,
    epoch: i64,
    now: int,
) -> Map<(Uuid, i64, Uuid), RoomParticipantRow> {
    participants.remove_keys(
        Set::new(
            |key: (Uuid, i64, Uuid)|
                participants.contains_key(key) && key.0 == room_id && key.1 == epoch
                    && participants[key].expires_at <= now,
        ),
    )
}

/// The checkpoints once the prepared ones of an epoch are expired.
pub open spec fn without_prepared(
    checkpoints: Map<Uuid, CheckpointRow>,
    room_id: Uuid,
    epoch: i64,
) -> Map<Uuid, CheckpointRow> {
    checkpoints.map_entries(
        |id: Uuid, row: CheckpointRow|
            if row.room_id == room_id && row.epoch == epoch && row.state == "prepared"@ {
                CheckpointRow { state: "expired"@, ..row }
            } else {
                row
            },
    )
}

/// Whether a row of a reply is what an epoch holds.
pub open spec fn is_epoch_row(row: Row, key: (Uuid, i64), epoch: EpochRow) -> bool {
    &&& has::<Uuid>(row, "room_id"@, key.0)
    &&& has::<i64>(row, "epoch"@, key.1)
    &&& has::<Uuid>(row, "drive_id"@, epoch.drive_id)
    &&& has::<Uuid>(row, "node_id"@, epoch.node_id)
    &&& has::<Uuid>(row, "base_version_id"@, epoch.base_version_id)
    &&& has_text(row, "state"@, epoch.state)
    &&& has::<i64>(row, "durable_sequence"@, epoch.durable_sequence)
    &&& has_number(row, "fencing_token"@, epoch.fencing_token)
}

/// Whether a row is a new epoch: active, with nothing durable yet.
pub open spec fn is_new_epoch(
    row: EpochRow,
    drive_id: Uuid,
    node_id: Uuid,
    base_version_id: Uuid,
) -> bool {
    &&& row.drive_id == drive_id
    &&& row.node_id == node_id
    &&& row.base_version_id == base_version_id
    &&& row.state == "active"@
    &&& row.durable_sequence == 0
}

/// Whether an epoch was added, and the reply has what it holds.
pub open spec fn adds_epoch(
    before: Tables,
    after: Tables,
    reply: Reply,
    key: (Uuid, i64),
    drive_id: Uuid,
    node_id: Uuid,
    base_version_id: Uuid,
) -> bool {
    let row = after.rooms.epochs[key];
    &&& !before.rooms.epochs.contains_key(key)
    &&& is_new_epoch(row, drive_id, node_id, base_version_id)
    &&& after == with_rooms(
        before,
        RoomTables { epochs: before.rooms.epochs.insert(key, row), ..before.rooms },
    )
    &&& answers(reply, true)
    &&& first_row(reply) matches Some(found) ==> is_epoch_row(found, key, row)
}

/// Whether a group of an epoch, up to a sequence number, was made by a tool: the group is what a
/// call that succeeded, by the one who wrote the group, made of what stood there on the base.
pub open spec fn is_assisted(
    tables: Tables,
    group_id: Uuid,
    key: (Uuid, i64),
    sequence: i64,
    node_id: Uuid,
    base_version_id: Uuid,
) -> bool {
    let rooms = tables.rooms;
    let invocations = tables.tools.invocations;
    let group = rooms.groups[group_id];
    let call = invocations[group.mcp_invocation_id->0];
    &&& rooms.groups.contains_key(group_id)
    &&& group.room_id == key.0
    &&& group.epoch == key.1
    &&& group.origin_kind == "mcp"@
    &&& group.last_sequence <= sequence
    &&& group.mcp_invocation_id is Some
    &&& invocations.contains_key(group.mcp_invocation_id->0)
    &&& call.principal_id == group.actor_principal_id
    &&& call.application_id == "filebelt-web-markdown-proposal"@
    &&& call.state == "succeeded"@
    &&& call.semantic_node_id == Some(node_id)
    &&& call.semantic_base_version_id == Some(base_version_id)
    &&& call.semantic_input_digest == Some(group.source_before_digest)
    &&& call.semantic_output_digest == Some(group.source_after_digest)
}

/// What the statements that begin rooms, objects and checkpoints do.
#[verifier::opaque]
pub open spec fn means<'a>(
    sql: &'static str,
    params: Seq<Param<'a>>,
    reply: Reply,
    now: int,
    before: Tables,
    after: Tables,
) -> bool {
    let rooms = before.rooms;
    let catalog = before.catalog;
    let id = params[1]->Id_0;
    let epoch = params[2]->I64_0;
    let key = (id, epoch);
    let row = rooms.epochs[key];
    &&& sql == sql::PREPARE_CHECKPOINT_SELECT_EPOCHS ==> {
        &&& after == before
        &&& answers(reply, is_active(rooms, key))
        &&& first_row(reply) matches Some(found) ==> {
            &&& has::<Uuid>(found, "node_id"@, row.node_id)
            &&& has::<Uuid>(found, "base_version_id"@, row.base_version_id)
            &&& has::<i64>(found, "durable_sequence"@, row.durable_sequence)
            &&& has_number(found, "fencing_token"@, row.fencing_token)
        }
    }
    &&& sql == sql::PREPARE_CHECKPOINT_EXISTS_UPDATE_GROUPS ==> {
        &&& after == before
        &&& reply.single_row::<bool>() is Ok ==> (reply.single_row::<bool>()->Ok_0
            <==> exists|group_id: Uuid|
            is_assisted(
                before,
                group_id,
                key,
                params[3]->I64_0,
                params[4]->Id_0,
                params[5]->Id_0,
            ))
    }
    &&& sql == sql::PREPARE_CHECKPOINT_UPDATE_CHECKPOINTS ==> after == with_rooms(
        before,
        RoomTables { checkpoints: without_prepared(rooms.checkpoints, id, epoch), ..rooms },
    )
    &&& sql == sql::PREPARE_CHECKPOINT_INSERT_CHECKPOINTS ==> {
        let checkpoint = CheckpointRow {
            room_id: params[2]->Id_0,
            epoch: params[3]->I64_0,
            node_id: params[4]->Id_0,
            base_version_id: params[5]->Id_0,
            durable_sequence: params[6]->I64_0,
            state_vector: params[7]->Bytes_0@,
            source_size_bytes: params[8]->I64_0,
            source_blake3: params[9]->Bytes_0@,
            created_by: params[10]->Id_0,
            mcp_assisted: params[11]->Bool_0,
            state: "prepared"@,
            expires_at: now + 300_000_000,
            committed_version_id: None,
        };
        &&& !rooms.checkpoints.contains_key(id)
        &&& after == with_rooms(
            before,
            RoomTables { checkpoints: rooms.checkpoints.insert(id, checkpoint), ..rooms },
        )
    }
    &&& sql == sql::JOIN_PARTICIPANT_SELECT_EPOCHS ==> {
        &&& after == before
        &&& answers(reply, is_active(rooms, key))
    }
    &&& sql == sql::JOIN_PARTICIPANT_DELETE_PARTICIPANTS ==> after == with_rooms(
        before,
        RoomTables {
            participants: without_expired(rooms.participants, id, epoch, now),
            ..rooms
        },
    )
    &&& sql == sql::JOIN_PARTICIPANT_COUNT_PARTICIPANTS ==> {
        &&& after == before
        &&& reply.single_row::<i64>() is Ok ==> reply.single_row::<i64>()->Ok_0 == present(
            rooms,
            id,
            epoch,
        ).len()
    }
    &&& sql == sql::JOIN_PARTICIPANT_INSERT_PARTICIPANTS ==> {
        let place = (id, epoch, params[3]->Id_0);
        let hit = !rooms.participants.contains_key(place);
        let participant = RoomParticipantRow {
            connection_id: params[4]->Id_0,
            principal_id: params[5]->Id_0,
            session_id: params[6]->Id_0,
            expires_at: now + 90_000_000,
        };
        &&& touches(reply, hit)
        &&& after == with_rooms(
            before,
            RoomTables {
                participants: changed(rooms.participants, hit, place, participant),
                ..rooms
            },
        )
    }
    &&& sql == sql::GET_OR_CREATE_ROOM_SELECT_ROOMS ==> {
        &&& after == before
        &&& reply is Rows
        &&& first_row(reply) is None ==> forall|other: (Uuid, i64)|
            !((#[trigger] rooms.is_current(other, id, params[2]->Id_0))
                && rooms.epochs.contains_key(other))
        &&& first_row(reply) matches Some(found) ==> exists|other: (Uuid, i64)| #[trigger]
            rooms.is_current(other, id, params[2]->Id_0) && rooms.epochs.contains_key(other)
                && is_epoch_row(found, other, rooms.epochs[other])
    }
    &&& sql == sql::GET_OR_CREATE_ROOM_UPDATE_EPOCHS ==> after == with_rooms(
        before,
        RoomTables {
            epochs: changed(
                rooms.epochs,
                is_active(rooms, key),
                key,
                EpochRow { state: "frozen"@, fencing_token: row.fencing_token + 1, ..row },
            ),
            ..rooms
        },
    )
    &&& sql == sql::GET_OR_CREATE_ROOM_INSERT_EPOCHS ==> adds_epoch(
        before,
        after,
        reply,
        key,
        params[3]->Id_0,
        params[4]->Id_0,
        params[5]->Id_0,
    )
    &&& sql == sql::GET_OR_CREATE_ROOM_UPDATE_ROOMS ==> after == with_rooms(
        before,
        RoomTables {
            rooms: changed(
                rooms.rooms,
                rooms.rooms.contains_key(id),
                id,
                RoomRow { current_epoch: epoch, ..rooms.rooms[id] },
            ),
            ..rooms
        },
    )
    &&& sql == sql::GET_OR_CREATE_ROOM_INSERT_ROOMS ==> {
        let room = RoomRow {
            drive_id: params[2]->Id_0,
            node_id: params[3]->Id_0,
            created_by: params[4]->Id_0,
            current_epoch: 1,
        };
        &&& !rooms.rooms.contains_key(id)
        &&& after == with_rooms(
            before,
            RoomTables { rooms: rooms.rooms.insert(id, room), ..rooms },
        )
    }
    &&& sql == sql::GET_OR_CREATE_ROOM_INSERT_EPOCHS_2 ==> adds_epoch(
        before,
        after,
        reply,
        (id, 1),
        params[2]->Id_0,
        params[3]->Id_0,
        params[4]->Id_0,
    )
    &&& sql == sql::RESERVE_OBJECT_SELECT_EPOCHS ==> {
        &&& after == before
        &&& answers(reply, is_active(rooms, key) && row.drive_id == params[3]->Id_0)
        &&& first_row(reply) matches Some(found) ==> {
            &&& has::<Uuid>(found, "node_id"@, row.node_id)
            &&& has_number(found, "fencing_token"@, row.fencing_token)
        }
    }
    &&& sql == sql::RESERVE_OBJECT_UPDATE_DRIVES ==> {
        let drive = catalog.drives[id];
        let bytes = params[2]->I64_0;
        let hit = catalog.drives.contains_key(id) && drive.used_bytes + drive.reserved_bytes
            + bytes <= drive.quota_bytes;
        &&& answers(reply, hit)
        &&& after == with_catalog(
            before,
            CatalogTables {
                drives: changed(
                    catalog.drives,
                    hit,
                    id,
                    DriveRow { reserved_bytes: drive.reserved_bytes + bytes, ..drive },
                ),
                ..catalog
            },
        )
    }
    &&& sql == sql::RESERVE_OBJECT_SELECT_STORAGE_BACKENDS ==> {
        &&& after == before
        &&& reply.optional_row::<Uuid>() matches Ok(Some(backend_id))
            ==> catalog.backends.contains_key(backend_id) && catalog.backends[backend_id].kind
            == "posix"@ && catalog.backends[backend_id].ready
    }
    &&& sql == sql::RESERVE_OBJECT_INSERT_PAYLOAD_OBJECTS ==> {
        let payload = PayloadRow {
            state: "staging"@,
            size_bytes: Some(params[5]->I64_0),
            blake3: None,
        };
        let place = PlaceRow {
            drive_id: params[2]->Id_0,
            backend_id: params[3]->Id_0,
            locator: params[4]->Id_0,
        };
        &&& !rooms.payloads.contains_key(id)
        &&& after == with_rooms(
            before,
            RoomTables {
                payloads: rooms.payloads.insert(id, payload),
                places: rooms.places.insert(id, place),
                ..rooms
            },
        )
    }
    &&& sql == sql::RESERVE_OBJECT_INSERT_OBJECTS ==> {
        let object = ObjectRow {
            room_id: params[2]->Id_0,
            epoch: params[3]->I64_0,
            drive_id: params[4]->Id_0,
            payload_id: params[5]->Id_0,
            purpose: params[6]->Text_0@,
            state: "staging"@,
            reserved_bytes: params[7]->I64_0,
            size_bytes: None,
            blake3: None,
        };
        &&& !rooms.objects.contains_key(id)
        &&& after == with_rooms(
            before,
            RoomTables { objects: rooms.objects.insert(id, object), ..rooms },
        )
    }
    &&& sql == sql::RESERVE_OBJECT_INSERT_OBJECT_RESERVATIONS ==> after == with_rooms(
        before,
        RoomTables { reservations: rooms.reservations.insert(id, "active"@), ..rooms },
    )
}

/// Preparing a checkpoint leaves one prepared checkpoint of the epoch: it holds the state that was
/// submitted, on the version that the epoch is based on, for five minutes. It goes through where
/// the epoch is active under the fence and at the sequence number that the client knows, and the
/// client is authorized as when it entered. The checkpoint says that a tool assisted exactly where
/// a group of the epoch was made by one.
#[verifier::rlimit(60)]
pub proof fn prepared_checkpoints_stand_alone<'a>(
    tenant_id: Uuid,
    room_id: Uuid,
    epoch: i64,
    expected_fencing_token: i64,
    authorization: CollaborationAuthorizationContext,
    durable_sequence: i64,
    state_vector: &'a [u8],
    source_size_bytes: i64,
    source_blake3: &'a [u8],
    log: Seq<Reply>,
    course: Course,
)
    requires
        crate::step::is_done(
            Database::collaboration_prepare_checkpoint_fault(
                expected_fencing_token,
                authorization,
                durable_sequence,
                state_vector,
                source_size_bytes,
                source_blake3,
                log,
            ),
            Database::collaboration_prepare_checkpoint_script(
                tenant_id,
                room_id,
                epoch,
                authorization,
                durable_sequence,
                state_vector,
                source_size_bytes,
                source_blake3,
                log,
            ),
            log,
        ),
        course.follows(
            Database::collaboration_prepare_checkpoint_script(
                tenant_id,
                room_id,
                epoch,
                authorization,
                durable_sequence,
                state_vector,
                source_size_bytes,
                source_blake3,
                log,
            ),
            log,
        ),
    ensures
        ({
            let before = course.start();
            let rooms = before.rooms;
            let key = (room_id, epoch);
            let id = Database::collaboration_prepare_checkpoint_output(log);
            let row = course.end().rooms.checkpoints[id];
            &&& before.catalog.permits(
                authorization.session_id,
                authorization.principal_id,
                authorization.drive_id,
                authorization.node_id,
                fence_of(authorization),
                course.clock[0],
            )
            &&& is_active(rooms, key)
            &&& rooms.epochs[key].node_id == authorization.node_id
            &&& rooms.epochs[key].durable_sequence == durable_sequence
            &&& rooms.epochs[key].fencing_token == expected_fencing_token
            &&& !rooms.checkpoints.contains_key(id)
            &&& row == (CheckpointRow {
                room_id,
                epoch,
                node_id: authorization.node_id,
                base_version_id: rooms.epochs[key].base_version_id,
                durable_sequence,
                state_vector: state_vector@,
                source_size_bytes,
                source_blake3: source_blake3@,
                created_by: authorization.principal_id,
                mcp_assisted: row.mcp_assisted,
                state: "prepared"@,
                expires_at: course.clock[6] + 300_000_000,
                committed_version_id: None,
            })
            &&& row.mcp_assisted <==> exists|group_id: Uuid|
                is_assisted(
                    before,
                    group_id,
                    key,
                    durable_sequence,
                    authorization.node_id,
                    rooms.epochs[key].base_version_id,
                )
            &&& course.end() == with_rooms(
                before,
                RoomTables {
                    checkpoints: without_prepared(rooms.checkpoints, room_id, epoch).insert(
                        id,
                        row,
                    ),
                    ..rooms
                },
            )
        }),
{
    reveal(means);
    reveal(crate::tables::catalog::means);
    reveal(CheckpointEpoch::of_row);
    let script = Database::collaboration_prepare_checkpoint_script(
        tenant_id,
        room_id,
        epoch,
        authorization,
        durable_sequence,
        state_vector,
        source_size_bytes,
        source_blake3,
        log,
    );
    assert(course.performs(script, log, 0));
    assert(course.performs(script, log, 1));
    let fence = log[1].required_row::<FenceGenerations>(DatabaseError::StaleGeneration);
    assert(fence is Ok);
    assert(first_row(log[1]) is Some);
    let expected = authorization.expected();
    assert(expected[0] == authorization.generations.membership);
    assert(expected[1] == authorization.generations.drive_acl);
    assert(expected[2] == authorization.generations.namespace);
    assert(expected[3] == authorization.generations.resource_acl);
    assert(course.clock[0] <= course.clock[1]);
    assert(course.performs(script, log, 2));
    assert(log[2].required_row::<CheckpointEpoch>(DatabaseError::Conflict) is Ok);
    assert(first_row(log[2]) is Some);
    assert(course.performs(script, log, 3));
    assert(course.performs(script, log, 4));
    assert(course.performs(script, log, 5));
    assert(course.performs(script, log, 6));
    assert(course.performs(script, log, 7));
    assert(course.end() == course.rows[8]);
}

/// Joining a room makes the client a participant of the active epoch, under the connection that is
/// returned, for a minute and a half. Those whose time has passed leave; the others stay. It goes
/// through where the epoch has room.
#[verifier::rlimit(40)]
pub proof fn joining_takes_a_free_place(
    tenant_id: Uuid,
    room_id: Uuid,
    epoch: i64,
    client_id: Uuid,
    principal_id: Uuid,
    session_id: Uuid,
    max_participants: i64,
    log: Seq<Reply>,
    course: Course,
)
    requires
        crate::step::is_done(
            Database::collaboration_join_participant_fault(max_participants, log),
            Database::collaboration_join_participant_script(
                tenant_id,
                room_id,
                epoch,
                client_id,
                principal_id,
                session_id,
                log,
            ),
            log,
        ),
        course.follows(
            Database::collaboration_join_participant_script(
                tenant_id,
                room_id,
                epoch,
                client_id,
                principal_id,
                session_id,
                log,
            ),
            log,
        ),
    ensures
        ({
            let before = course.start();
            let rooms = before.rooms;
            let kept = without_expired(rooms.participants, room_id, epoch, course.clock[2]);
            let place = (room_id, epoch, client_id);
            &&& is_active(rooms, (room_id, epoch))
            &&& present(RoomTables { participants: kept, ..rooms }, room_id, epoch).len()
                < max_participants
            &&& !kept.contains_key(place)
            &&& course.end() == with_rooms(
                before,
                RoomTables {
                    participants: kept.insert(
                        place,
                        RoomParticipantRow {
                            connection_id: Database::collaboration_join_participant_output(log),
                            principal_id,
                            session_id,
                            expires_at: course.clock[5] + 90_000_000,
                        },
                    ),
                    ..rooms
                },
            )
        }),
{
    reveal(means);
    let script = Database::collaboration_join_participant_script(
        tenant_id,
        room_id,
        epoch,
        client_id,
        principal_id,
        session_id,
        log,
    );
    assert(course.performs(script, log, 0));
    assert(course.performs(script, log, 1));
    assert(log[1].required_row::<()>(DatabaseError::Conflict) is Ok);
    assert(first_row(log[1]) is Some);
    assert(course.performs(script, log, 2));
    assert(course.performs(script, log, 3));
    assert(course.performs(script, log, 4));
    assert(course.performs(script, log, 5));
    assert(course.performs(script, log, 6));
    assert(course.end() == course.rows[7]);
}

/// An object that is reserved has its bytes reserved on the drive, within the quota, and a payload
/// of its own at a backend that is ready; the record that is returned is what the rows hold. It
/// goes through where the epoch is active on the drive under the fence that the client knows.
#[verifier::rlimit(40)]
pub proof fn reserved_objects_are_within_the_quota<'a>(
    tenant_id: Uuid,
    room_id: Uuid,
    epoch: i64,
    drive_id: Uuid,
    purpose: &'a str,
    reserved_bytes: i64,
    expected_fencing_token: i64,
    log: Seq<Reply>,
    course: Course,
)
    requires
        crate::step::is_done(
            Database::collaboration_reserve_object_fault(
                purpose,
                reserved_bytes,
                expected_fencing_token,
                log,
            ),
            Database::collaboration_reserve_object_script(
                tenant_id,
                room_id,
                epoch,
                drive_id,
                purpose,
                reserved_bytes,
                log,
            ),
            log,
        ),
        course.follows(
            Database::collaboration_reserve_object_script(
                tenant_id,
                room_id,
                epoch,
                drive_id,
                purpose,
                reserved_bytes,
                log,
            ),
            log,
        ),
    ensures
        ({
            let before = course.start();
            let rooms = before.rooms;
            let catalog = before.catalog;
            let drive = catalog.drives[drive_id];
            let row = rooms.epochs[(room_id, epoch)];
            let out = Database::collaboration_reserve_object_output(
                room_id,
                epoch,
                drive_id,
                purpose,
                reserved_bytes,
                expected_fencing_token,
                log,
            );
            &&& is_active(rooms, (room_id, epoch))
            &&& row.drive_id == drive_id
            &&& row.fencing_token == expected_fencing_token
            &&& drive.used_bytes + drive.reserved_bytes + reserved_bytes <= drive.quota_bytes
            &&& catalog.backends.contains_key(out.backend_id)
            &&& catalog.backends[out.backend_id].ready
            &&& !rooms.objects.contains_key(out.id)
            &&& !rooms.payloads.contains_key(out.payload_id)
            &&& out == (CollaborationObjectRecordView {
                room_id,
                epoch,
                drive_id,
                node_id: row.node_id,
                fencing_token: expected_fencing_token,
                purpose: purpose@,
                state: "staging"@,
                reserved_bytes,
                size_bytes: None,
                blake3: None,
                ..out
            })
            &&& course.end() == (Tables {
                catalog: CatalogTables {
                    drives: catalog.drives.insert(
                        drive_id,
                        DriveRow {
                            reserved_bytes: drive.reserved_bytes + reserved_bytes,
                            ..drive
                        },
                    ),
                    ..catalog
                },
                rooms: RoomTables {
                    payloads: rooms.payloads.insert(
                        out.payload_id,
                        PayloadRow {
                            state: "staging"@,
                            size_bytes: Some(reserved_bytes),
                            blake3: None,
                        },
                    ),
                    places: rooms.places.insert(
                        out.payload_id,
                        PlaceRow {
                            drive_id,
                            backend_id: out.backend_id,
                            locator: out.payload_locator,
                        },
                    ),
                    objects: rooms.objects.insert(
                        out.id,
                        ObjectRow {
                            room_id,
                            epoch,
                            drive_id,
                            payload_id: out.payload_id,
                            purpose: purpose@,
                            state: "staging"@,
                            reserved_bytes,
                            size_bytes: None,
                            blake3: None,
                        },
                    ),
                    reservations: rooms.reservations.insert(out.id, "active"@),
                    ..rooms
                },
                ..before
            })
        }),
{
    reveal(means);
    reveal(ReservableEpoch::of_row);
    let script = Database::collaboration_reserve_object_script(
        tenant_id,
        room_id,
        epoch,
        drive_id,
        purpose,
        reserved_bytes,
        log,
    );
    assert(course.performs(script, log, 0));
    assert(course.performs(script, log, 1));
    assert(log[1].required_row::<ReservableEpoch>(DatabaseError::StaleGeneration) is Ok);
    assert(first_row(log[1]) is Some);
    assert(course.performs(script, log, 2));
    assert(log[2].required_row::<()>(DatabaseError::QuotaExceeded) is Ok);
    assert(first_row(log[2]) is Some);
    assert(course.performs(script, log, 3));
    assert(course.performs(script, log, 4));
    assert(course.performs(script, log, 5));
    assert(course.performs(script, log, 6));
    assert(course.performs(script, log, 7));
    assert(course.performs(script, log, 8));
    assert(course.end() == course.rows[9]);
}

/// Whether a record is what an epoch holds.
pub open spec fn is_summary(
    record: CollaborationSummaryRecord,
    key: (Uuid, i64),
    row: EpochRow,
) -> bool {
    &&& record.room_id == key.0
    &&& record.epoch == key.1
    &&& record.drive_id == row.drive_id
    &&& record.node_id == row.node_id
    &&& record.base_version_id == row.base_version_id
    &&& record.state@ == row.state
    &&& record.durable_sequence == row.durable_sequence
    &&& record.fencing_token == row.fencing_token
}

/// Whether a node has a room with a current epoch.
pub open spec fn has_room(rooms: RoomTables, drive_id: Uuid, node_id: Uuid) -> bool {
    exists|key: (Uuid, i64)| #[trigger]
        rooms.is_current(key, drive_id, node_id) && rooms.epochs.contains_key(key)
}

/// Entering the room of a node gives its current epoch, active and on the version that is asked
/// for. Where that epoch is active already, nothing changes. Where it is closed, the room's next
/// epoch begins; where the node has no room, a room begins at its first.
#[verifier::rlimit(60)]
pub proof fn rooms_are_entered_at_their_current_epoch(
    tenant_id: Uuid,
    drive_id: Uuid,
    node_id: Uuid,
    base_version_id: Uuid,
    created_by: Uuid,
    log: Seq<Reply>,
    course: Course,
)
    requires
        crate::step::is_done(
            Database::collaboration_get_or_create_room_fault(base_version_id, log),
            Database::collaboration_get_or_create_room_script(
                tenant_id,
                drive_id,
                node_id,
                base_version_id,
                created_by,
                log,
            ),
            log,
        ),
        course.follows(
            Database::collaboration_get_or_create_room_script(
                tenant_id,
                drive_id,
                node_id,
                base_version_id,
                created_by,
                log,
            ),
            log,
        ),
    ensures
        ({
            let before = course.start();
            let rooms = before.rooms;
            let out = Database::collaboration_get_or_create_room_output(log);
            let key = (out.room_id, out.epoch);
            let after = course.end().rooms;
            let row = after.epochs[key];
            &&& is_summary(out, key, row)
            &&& out.base_version_id == base_version_id
            &&& out.state@ == "active"@
            &&& after.is_current(key, drive_id, node_id)
            &&& has_room(rooms, drive_id, node_id) <==> rooms.rooms.contains_key(out.room_id)
            &&& rooms.epochs.contains_key(key) ==> course.end() == before
            &&& !rooms.epochs.contains_key(key) ==> {
                &&& is_new_epoch(row, drive_id, node_id, base_version_id)
                &&& has_room(rooms, drive_id, node_id) ==> {
                    let last = (out.room_id, rooms.rooms[out.room_id].current_epoch);
                    &&& out.epoch == last.1 + 1
                    &&& rooms.is_current(last, drive_id, node_id)
                    &&& rooms.epochs[last].state != "active"@
                    &&& rooms.epochs[last].state != "frozen"@
                }
                &&& !has_room(rooms, drive_id, node_id) ==> out.epoch == 1
                &&& course.end() == with_rooms(
                    before,
                    RoomTables {
                        epochs: rooms.epochs.insert(key, row),
                        rooms: rooms.rooms.insert(
                            out.room_id,
                            RoomRow {
                                drive_id,
                                node_id,
                                created_by: if has_room(rooms, drive_id, node_id) {
                                    rooms.rooms[out.room_id].created_by
                                } else {
                                    created_by
                                },
                                current_epoch: out.epoch,
                            },
                        ),
                        ..rooms
                    },
                )
            }
        }),
{
    reveal(means);
    reveal(CollaborationSummaryRecord::of_row);
    let script = Database::collaboration_get_or_create_room_script(
        tenant_id,
        drive_id,
        node_id,
        base_version_id,
        created_by,
        log,
    );
    let rooms = course.start().rooms;
    assert(course.performs(script, log, 0));
    assert(course.performs(script, log, 1));
    let found = log[1].optional_row::<CollaborationSummaryRecord>();
    assert(found is Ok);
    if found->Ok_0 is Some {
        let current = found->Ok_0->0;
        let last = (current.room_id, current.epoch);
        assert(first_row(log[1]) is Some);
        let known = choose|other: (Uuid, i64)| #[trigger]
            rooms.is_current(other, drive_id, node_id) && rooms.epochs.contains_key(other)
                && is_epoch_row(first_row(log[1])->0, other, rooms.epochs[other]);
        assert(known == last);
        assert(has_room(rooms, drive_id, node_id));
        if current.state@ == "active"@ {
            assert(course.performs(script, log, 2));
        } else {
            assert(course.performs(script, log, 2));
            assert(log[2].single_row::<CollaborationSummaryRecord>() is Ok);
            assert(first_row(log[2]) is Some);
            assert(course.performs(script, log, 3));
            assert(course.performs(script, log, 4));
        }
    } else {
        assert(first_row(log[1]) is None);
        assert(!has_room(rooms, drive_id, node_id));
        assert(course.performs(script, log, 2));
        assert(course.performs(script, log, 3));
        assert(course.performs(script, log, 4));
        assert(log[4].single_row::<CollaborationSummaryRecord>() is Ok);
        assert(first_row(log[4]) is Some);
        assert(course.performs(script, log, 5));
    }
}

/// Where the node's head has moved away from the version that an active epoch is based on, the
/// epoch is frozen, its fence moves on, and the one who would enter is told of a conflict.
pub proof fn rooms_on_another_version_are_frozen(
    tenant_id: Uuid,
    drive_id: Uuid,
    node_id: Uuid,
    base_version_id: Uuid,
    created_by: Uuid,
    key: (Uuid, i64),
    log: Seq<Reply>,
    course: Course,
)
    requires
        course.follows(
            Database::collaboration_get_or_create_room_script(
                tenant_id,
                drive_id,
                node_id,
                base_version_id,
                created_by,
                log,
            ),
            log,
        ),
        log.len() == Database::collaboration_get_or_create_room_script(
            tenant_id,
            drive_id,
            node_id,
            base_version_id,
            created_by,
            log,
        ).len(),
        log[1].optional_row::<CollaborationSummaryRecord>() is Ok,
        course.start().rooms.is_current(key, drive_id, node_id),
        forall|other: (Uuid, i64)| #[trigger]
            course.start().rooms.is_current(other, drive_id, node_id) ==> other == key,
        is_active(course.start().rooms, key),
        course.start().rooms.epochs[key].base_version_id != base_version_id,
    ensures
        Database::collaboration_get_or_create_room_fault(base_version_id, log) == Some(
            Fault::Error(DatabaseError::Conflict),
        ),
        ({
            let rooms = course.start().rooms;
            let row = rooms.epochs[key];
            course.end() == with_rooms(
                course.start(),
                RoomTables {
                    epochs: rooms.epochs.insert(
                        key,
                        EpochRow {
                            state: "frozen"@,
                            fencing_token: row.fencing_token + 1,
                            ..row
                        },
                    ),
                    ..rooms
                },
            )
        }),
{
    reveal(means);
    reveal(CollaborationSummaryRecord::of_row);
    let script = Database::collaboration_get_or_create_room_script(
        tenant_id,
        drive_id,
        node_id,
        base_version_id,
        created_by,
        log,
    );
    let rooms = course.start().rooms;
    assert(course.performs(script, log, 0));
    assert(course.performs(script, log, 1));
    assert(first_row(log[1]) is Some);
    let known = choose|other: (Uuid, i64)| #[trigger]
        rooms.is_current(other, drive_id, node_id) && rooms.epochs.contains_key(other)
            && is_epoch_row(first_row(log[1])->0, other, rooms.epochs[other]);
    assert(known == key);
    assert(log[1].optional_row::<CollaborationSummaryRecord>()->Ok_0 is Some);
    assert(course.performs(script, log, 2));
    assert(course.performs(script, log, 3));
    assert(course.end() == course.rows[4]);
}

} // verus!
