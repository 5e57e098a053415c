//! The rows of collaborative editing.

use std::sync::Arc;

use vstd::prelude::*;

use crate::collaboration::AbandonableObject;
use crate::collaboration::AnchorableEpoch;
use crate::collaboration::CollaborationAuthorizationContext;
use crate::collaboration::CollaborationObjectRecord;
use crate::collaboration::CollaborationUpdateChunkInput;
use crate::collaboration::CurrentSnapshot;
use crate::collaboration::DeletedObject;
use crate::collaboration::FinalizableObject;
use crate::collaboration::StoredUpdateGroup;
use crate::collaboration::WritableEpoch;
use crate::database::Database;
use crate::error::DatabaseError;
use crate::error::Fault;
use crate::fence::FenceGenerations;
use crate::id::Uuid;
use crate::row::Reply;
use crate::sql::collaboration as sql;
use crate::step::Param;
use crate::tables::catalog::CatalogTables;
use crate::tables::catalog::PlaceRow;
use crate::tables::Course;
use crate::tables::Tables;

verus! {

/// An object of a room: a part of the room's history, with a payload.
pub struct ObjectRow {
    pub payload_id: Uuid,
    pub drive_id: Uuid,
    pub room_id: Uuid,
    pub epoch: i64,
    pub purpose: Seq<char>,
    pub state: Seq<char>,
    pub reserved_bytes: i64,
    pub size_bytes: Option<i64>,
    pub blake3: Option<Seq<u8>>,
}

/// A payload of an object.
pub struct PayloadRow {
    pub state: Seq<char>,
    pub size_bytes: Option<i64>,
    pub blake3: Option<Seq<u8>>,
}

/// A group of updates.
pub struct GroupRow {
    pub room_id: Uuid,
    pub epoch: i64,
    pub client_id: Uuid,
    pub client_update_id: Uuid,
    pub actor_principal_id: Uuid,
    /// Whether a user or a tool made the updates.
    pub origin_kind: Seq<char>,
    pub mcp_invocation_id: Option<Uuid>,
    pub source_before_digest: Seq<u8>,
    pub source_after_digest: Seq<u8>,
    pub object_id: Uuid,
    pub chunk_count: i32,
    pub total_bytes: i64,
    pub first_sequence: i64,
    pub last_sequence: i64,
    pub state_vector: Seq<u8>,
    pub state_digest: Seq<u8>,
}

/// A chunk of a group: where one update lies in the group's object.
pub struct ChunkRow {
    pub object_offset: i64,
    pub size_bytes: i32,
    pub blake3: Seq<u8>,
}

/// A snapshot of a room's history.
pub struct SnapshotRow {
    pub room_id: Uuid,
    pub epoch: i64,
    pub object_id: Uuid,
    pub covered_sequence: i64,
    pub superseded: bool,
}

/// An epoch of a room.
pub struct EpochRow {
    pub drive_id: Uuid,
    pub node_id: Uuid,
    pub base_version_id: Uuid,
    pub state: Seq<char>,
    pub fencing_token: int,
    pub durable_sequence: i64,
}

/// A room.
pub struct RoomRow {
    pub drive_id: Uuid,
    pub node_id: Uuid,
    pub created_by: Uuid,
    pub current_epoch: i64,
}

/// A participant of an epoch: the connection of a client.
pub struct RoomParticipantRow {
    pub connection_id: Uuid,
    pub principal_id: Uuid,
    pub session_id: Uuid,
    pub expires_at: int,
}

/// A checkpoint: the state of an epoch that is to become a version.
pub struct CheckpointRow {
    pub room_id: Uuid,
    pub epoch: i64,
    pub node_id: Uuid,
    pub created_by: Uuid,
    pub state: Seq<char>,
    pub base_version_id: Uuid,
    pub durable_sequence: i64,
    pub state_vector: Seq<u8>,
    pub source_size_bytes: i64,
    pub source_blake3: Seq<u8>,
    pub mcp_assisted: bool,
    pub expires_at: int,
    pub committed_version_id: Option<Uuid>,
}

/// The intent to import a version of one file into another.
pub struct IntentRow {
    pub principal_id: Uuid,
    pub session_id: Uuid,
    pub state: Seq<char>,
    pub expires_at: int,
    pub drive_id: Uuid,
    pub source_node_id: Uuid,
    pub source_version_id: Uuid,
    /// The generations under which the source could be read.
    pub under: FenceGenerations,
    pub target_parent_id: Uuid,
    pub target_display_name: Seq<char>,
    pub target_name_key: Seq<char>,
    /// The generations under which the target could be written.
    pub target_under: FenceGenerations,
}

/// The tables of collaborative editing.
#[verifier::ext_equal]
pub struct RoomTables {
    pub objects: Map<Uuid, ObjectRow>,
    /// The state of each object's reservation.
    pub reservations: Map<Uuid, Seq<char>>,
    pub payloads: Map<Uuid, PayloadRow>,
    pub groups: Map<Uuid, GroupRow>,
    pub snapshots: Map<Uuid, SnapshotRow>,
    pub epochs: Map<(Uuid, i64), EpochRow>,
    /// The chunks of the groups, each by its group and its index.
    pub chunks: Map<(Uuid, i32), ChunkRow>,
    pub rooms: Map<Uuid, RoomRow>,
    /// The participants, each by its room, its epoch and its client.
    pub participants: Map<(Uuid, i64, Uuid), RoomParticipantRow>,
    /// Where each payload lies.
    pub places: Map<Uuid, PlaceRow>,
    pub checkpoints: Map<Uuid, CheckpointRow>,
    pub intents: Map<Uuid, IntentRow>,
}

impl RoomTables {
    /// Whether an object stands there with its reservation and its payload.
    pub open spec fn is_whole(self, object_id: Uuid) -> bool {
        &&& self.objects.contains_key(object_id)
        &&& self.reservations.contains_key(object_id)
        &&& self.payloads.contains_key(self.objects[object_id].payload_id)
    }

    /// Whether an epoch is the current one of a room on a node.
    pub open spec fn is_current(self, key: (Uuid, i64), drive_id: Uuid, node_id: Uuid) -> bool {
        &&& self.rooms.contains_key(key.0)
        &&& self.rooms[key.0].drive_id == drive_id
        &&& self.rooms[key.0].node_id == node_id
        &&& self.rooms[key.0].current_epoch == key.1
    }

    /// Whether a group of updates or a snapshot is made of an object.
    pub open spec fn is_referenced(self, object_id: Uuid) -> bool {
        ||| exists|id: Uuid| #[trigger]
            self.groups.contains_key(id) && self.groups[id].object_id == object_id
        ||| exists|id: Uuid| #[trigger]
            self.snapshots.contains_key(id) && self.snapshots[id].object_id == object_id
    }

    /// Whether an object is in a state.
    pub open spec fn object_is(self, object_id: Uuid, state: Seq<char>) -> bool {
        self.objects.contains_key(object_id) && self.objects[object_id].state == state
    }

    /// Whether a group stands under a client's update in an epoch.
    pub open spec fn is_group_of(
        self,
        id: Uuid,
        room_id: Uuid,
        epoch: i64,
        client_id: Uuid,
        client_update_id: Uuid,
    ) -> bool {
        &&& self.groups.contains_key(id)
        &&& self.groups[id].room_id == room_id
        &&& self.groups[id].epoch == epoch
        &&& self.groups[id].client_id == client_id
        &&& self.groups[id].client_update_id == client_update_id
    }

    /// Whether a snapshot is the current one of an epoch.
    pub open spec fn is_anchor(self, id: Uuid, room_id: Uuid, epoch: i64) -> bool {
        &&& self.snapshots.contains_key(id)
        &&& self.snapshots[id].room_id == room_id
        &&& self.snapshots[id].epoch == epoch
        &&& !self.snapshots[id].superseded
    }

    /// Whether an epoch has at most one current snapshot.
    pub open spec fn has_one_anchor(self, room_id: Uuid, epoch: i64) -> bool {
        forall|a: Uuid, b: Uuid| #[trigger]
            self.is_anchor(a, room_id, epoch) && #[trigger] self.is_anchor(b, room_id, epoch)
                ==> a == b
    }

    /// Whether an object makes a group of an epoch whose updates a snapshot covers.
    pub open spec fn is_covered(
        self,
        object_id: Uuid,
        room_id: Uuid,
        epoch: i64,
        covered_sequence: i64,
    ) -> bool {
        exists|id: Uuid| #[trigger]
            self.groups.contains_key(id) && self.groups[id].object_id == object_id
                && self.groups[id].room_id == room_id && self.groups[id].epoch == epoch
                && self.groups[id].last_sequence <= covered_sequence
    }

    /// The objects once those that a snapshot covers are superseded.
    pub open spec fn superseded(
        self,
        room_id: Uuid,
        epoch: i64,
        covered_sequence: i64,
    ) -> Map<Uuid, ObjectRow> {
        self.objects.map_entries(
            |id: Uuid, row: ObjectRow|
                if row.state == "durable"@ && self.is_covered(
                    id,
                    room_id,
                    epoch,
                    covered_sequence,
                ) {
                    ObjectRow { state: "superseded"@, ..row }
                } else {
                    row
                },
        )
    }

    /// Whether an object of a payload awaits the record of its deletion, or has it.
    pub open spec fn is_deleted_object(self, id: Uuid, payload_id: Uuid) -> bool {
        &&& self.is_whole(id)
        &&& self.objects[id].payload_id == payload_id
        &&& crate::laws::is_given_up(self.objects[id].state)
        &&& {
            ||| self.payloads[payload_id].state == "deleting"@
            ||| self.payloads[payload_id].state == "deleted"@
            ||| self.payloads[payload_id].state == "abandoned"@
        }
    }

    /// The tables with an object in another state.
    pub open spec fn moved(self, hit: bool, object_id: Uuid, state: Seq<char>) -> RoomTables {
        RoomTables {
            objects: crate::tables::changed(
                self.objects,
                hit,
                object_id,
                ObjectRow { state, ..self.objects[object_id] },
            ),
            ..self
        }
    }

    /// The tables with an object's reservation in another state.
    pub open spec fn reserved(self, hit: bool, object_id: Uuid, state: Seq<char>) -> RoomTables {
        RoomTables {
            reservations: crate::tables::changed(self.reservations, hit, object_id, state),
            ..self
        }
    }

    /// The tables with a payload in another state.
    pub open spec fn disposed(self, hit: bool, payload_id: Uuid, state: Seq<char>) -> RoomTables {
        RoomTables {
            payloads: crate::tables::changed(
                self.payloads,
                hit,
                payload_id,
                PayloadRow { state, ..self.payloads[payload_id] },
            ),
            ..self
        }
    }
}

/// The tables with other rows of collaborative editing.
pub open spec fn with_rooms(tables: Tables, rooms: RoomTables) -> Tables {
    Tables { rooms, ..tables }
}

/// Whether a record is what an object, its reservation and its payload hold.
pub open spec fn is_abandonable(found: AbandonableObject, rooms: RoomTables, id: Uuid) -> bool {
    &&& found.payload_id == rooms.objects[id].payload_id
    &&& found.drive_id == rooms.objects[id].drive_id
    &&& found.state@ == rooms.objects[id].state
    &&& found.reserved_bytes == rooms.objects[id].reserved_bytes
    &&& found.size_bytes == rooms.objects[id].size_bytes
    &&& found.reservation_state@ == rooms.reservations[id]
}

/// Whether a record is what an object, its epoch and its reservation hold.
pub open spec fn is_finalizable(found: FinalizableObject, rooms: RoomTables, id: Uuid) -> bool {
    let object = rooms.objects[id];
    let epoch = rooms.epochs[(object.room_id, object.epoch)];
    &&& found.state@ == object.state
    &&& found.reserved_bytes == object.reserved_bytes
    &&& found.size_bytes == object.size_bytes
    &&& bytes_of(found.blake3) == object.blake3
    &&& found.node_id == epoch.node_id
    &&& found.drive_id == epoch.drive_id
    &&& found.epoch_state@ == epoch.state
    &&& found.fencing_token == epoch.fencing_token
    &&& found.reservation_state@ == rooms.reservations[id]
}

/// Some bytes, as a row holds them.
pub open spec fn bytes_of(bytes: Option<Arc<Vec<u8>>>) -> Option<Seq<u8>> {
    match bytes {
        Some(bytes) => Some(bytes@),
        None => None,
    }
}

/// Whether a record is what an object and its epoch hold.
pub open spec fn is_object(found: CollaborationObjectRecord, rooms: RoomTables, id: Uuid) -> bool {
    let object = rooms.objects[id];
    &&& found.id == id
    &&& found.room_id == object.room_id
    &&& found.epoch == object.epoch
    &&& found.drive_id == object.drive_id
    &&& found.node_id == rooms.epochs[(object.room_id, object.epoch)].node_id
    &&& found.fencing_token == rooms.epochs[(object.room_id, object.epoch)].fencing_token
    &&& found.payload_id == object.payload_id
    &&& found.purpose@ == object.purpose
    &&& found.state@ == object.state
    &&& found.reserved_bytes == object.reserved_bytes
    &&& found.size_bytes == object.size_bytes
    &&& bytes_of(found.blake3) == object.blake3
}

/// Whether an object stands there with its epoch and its payload.
pub open spec fn is_shown(rooms: RoomTables, id: Uuid) -> bool {
    &&& rooms.objects.contains_key(id)
    &&& rooms.payloads.contains_key(rooms.objects[id].payload_id)
    &&& rooms.epochs.contains_key((rooms.objects[id].room_id, rooms.objects[id].epoch))
}

/// Whether an object stands there with its epoch, its reservation and its payload.
pub open spec fn is_placed(rooms: RoomTables, id: Uuid) -> bool {
    is_shown(rooms, id) && rooms.reservations.contains_key(id)
}

/// Whether a record is what an object, its payload and its reservation hold.
pub open spec fn is_deleted(found: DeletedObject, rooms: RoomTables) -> bool {
    let object = rooms.objects[found.id];
    &&& found.drive_id == object.drive_id
    &&& found.size_bytes == object.size_bytes
    &&& found.state@ == object.state
    &&& found.payload_state@ == rooms.payloads[object.payload_id].state
    &&& found.reservation_state@ == rooms.reservations[found.id]
}

/// Whether a record is what a group and its object hold.
pub open spec fn is_stored(found: StoredUpdateGroup, rooms: RoomTables, id: Uuid) -> bool {
    let group = rooms.groups[id];
    &&& found.object_id == group.object_id
    &&& found.first_sequence == group.first_sequence
    &&& found.last_sequence == group.last_sequence
    &&& found.state_digest@ == group.state_digest
    &&& found.mcp_invocation_id == group.mcp_invocation_id
    &&& found.source_before_digest@ == group.source_before_digest
    &&& found.source_after_digest@ == group.source_after_digest
    &&& Some(found.blake3@) == rooms.objects[group.object_id].blake3
}

/// Whether an epoch is active, and of this drive and node.
pub open spec fn is_writable(
    rooms: RoomTables,
    key: (Uuid, i64),
    drive_id: Uuid,
    node_id: Uuid,
) -> bool {
    &&& rooms.epochs.contains_key(key)
    &&& rooms.epochs[key].drive_id == drive_id
    &&& rooms.epochs[key].node_id == node_id
    &&& rooms.epochs[key].state == "active"@
}

/// Whether an object is durable in an epoch.
pub open spec fn is_durable(
    rooms: RoomTables,
    object_id: Uuid,
    room_id: Uuid,
    epoch: i64,
) -> bool {
    &&& rooms.object_is(object_id, "durable"@)
    &&& rooms.objects[object_id].room_id == room_id
    &&& rooms.objects[object_id].epoch == epoch
}

/// The group that an insertion binds.
pub open spec fn new_group<'a>(params: Seq<Param<'a>>) -> GroupRow {
    GroupRow {
        room_id: params[1]->Id_0,
        epoch: params[2]->I64_0,
        client_id: params[4]->Id_0,
        client_update_id: params[5]->Id_0,
        actor_principal_id: params[6]->Id_0,
        origin_kind: params[7]->Text_0@,
        mcp_invocation_id: params[8]->OptId_0,
        source_before_digest: params[9]->Bytes_0@,
        source_after_digest: params[10]->Bytes_0@,
        object_id: params[11]->Id_0,
        chunk_count: params[12]->I32_0,
        total_bytes: params[13]->I64_0,
        first_sequence: params[14]->I64_0,
        last_sequence: params[15]->I64_0,
        state_vector: params[16]->Bytes_0@,
        state_digest: params[17]->Bytes_0@,
    }
}

/// What the statements of collaborative editing do.
#[verifier::opaque]
pub open spec fn means<'a>(
    sql: &'static str,
    params: Seq<Param<'a>>,
    reply: Reply,
    now: int,
    before: Tables,
    after: Tables,
) -> bool {
    let rooms = before.rooms;
    let id = params[1]->Id_0;
    &&& sql == sql::ABANDON_OBJECT_SELECT_OBJECTS ==> match reply.optional_row::<
        AbandonableObject,
    >() {
        Ok(Some(found)) => rooms.is_whole(id) && is_abandonable(found, rooms, id),
        Ok(None) => !rooms.is_whole(id),
        Err(_) => false,
    }
    &&& sql == sql::ABANDON_OBJECT_EXISTS_UPDATE_GROUPS ==> reply.single_row::<bool>() == Ok::<
        bool,
        Fault,
    >(rooms.is_referenced(id))
    &&& sql == sql::ABANDON_OBJECT_UPDATE_OBJECT_RESERVATIONS ==> {
        let hit = rooms.reservations.contains_key(id) && rooms.reservations[id] == "active"@;
        &&& after == with_rooms(before, rooms.reserved(hit, id, "released"@))
        &&& crate::tables::touches(reply, hit)
    }
    &&& sql == sql::ABANDON_OBJECT_UPDATE_DRIVES ==> {
        let bytes = params[2]->I64_0 as int;
        let hit = crate::tables::catalog::reserves(before, id, bytes);
        &&& after == crate::tables::catalog::charged(before, hit, id, bytes, 0)
        &&& crate::tables::touches(reply, hit)
    }
    &&& sql == sql::ABANDON_OBJECT_UPDATE_OBJECTS ==> {
        let hit = rooms.object_is(id, "staging"@);
        &&& after == with_rooms(before, rooms.moved(hit, id, "quarantined"@))
        &&& crate::tables::touches(reply, hit)
    }
    &&& sql == sql::ABANDON_OBJECT_UPDATE_OBJECTS_2 ==> {
        let hit = rooms.object_is(id, "durable"@) || rooms.object_is(id, "superseded"@);
        &&& after == with_rooms(before, rooms.moved(hit, id, "delete_intent"@))
        &&& crate::tables::touches(reply, hit)
    }
    &&& sql == sql::ABANDON_OBJECT_UPDATE_PAYLOAD_OBJECTS ==> {
        let hit = rooms.payloads.contains_key(id) && (rooms.payloads[id].state == "staging"@
            || rooms.payloads[id].state == "finalized"@);
        &&& after == with_rooms(before, rooms.disposed(hit, id, params[2]->Text_0@))
        &&& crate::tables::touches(reply, hit)
    }
    &&& sql == sql::FINALIZE_OBJECT_SELECT_OBJECTS ==> match reply.optional_row::<
        FinalizableObject,
    >() {
        Ok(Some(found)) => is_placed(rooms, id) && is_finalizable(found, rooms, id),
        Ok(None) => !is_placed(rooms, id),
        Err(_) => false,
    }
    &&& sql == sql::OBJECT ==> match reply.optional_row::<CollaborationObjectRecord>() {
        Ok(Some(found)) => is_shown(rooms, id) && is_object(found, rooms, id),
        Ok(None) => !is_shown(rooms, id),
        Err(_) => false,
    }
    &&& sql == sql::FINALIZE_OBJECT_UPDATE_PAYLOAD_OBJECTS ==> {
        let payload_id = rooms.objects[id].payload_id;
        let hit = rooms.objects.contains_key(id) && rooms.payloads.contains_key(payload_id)
            && rooms.payloads[payload_id].state == "staging"@;
        let row = PayloadRow {
            state: "finalized"@,
            size_bytes: Some(params[2]->I64_0),
            blake3: Some(params[3]->Bytes_0@),
        };
        &&& after == with_rooms(
            before,
            RoomTables {
                payloads: crate::tables::changed(rooms.payloads, hit, payload_id, row),
                ..rooms
            },
        )
        &&& crate::tables::touches(reply, hit)
    }
    &&& sql == sql::FINALIZE_OBJECT_UPDATE_OBJECTS ==> {
        let hit = rooms.object_is(id, "staging"@);
        let row = ObjectRow {
            state: "durable"@,
            size_bytes: Some(params[2]->I64_0),
            blake3: Some(params[3]->Bytes_0@),
            ..rooms.objects[id]
        };
        &&& after == with_rooms(
            before,
            RoomTables { objects: crate::tables::changed(rooms.objects, hit, id, row), ..rooms },
        )
        &&& crate::tables::touches(reply, hit)
    }
    &&& sql == sql::FINALIZE_OBJECT_UPDATE_OBJECT_RESERVATIONS ==> {
        let hit = rooms.reservations.contains_key(id) && rooms.reservations[id] == "active"@;
        &&& after == with_rooms(before, rooms.reserved(hit, id, "committed"@))
        &&& crate::tables::touches(reply, hit)
    }
    &&& sql == sql::FINALIZE_OBJECT_UPDATE_DRIVES ==> {
        let drive_id = rooms.objects[id].drive_id;
        let released = params[2]->I64_0 as int;
        let hit = rooms.objects.contains_key(id) && crate::tables::catalog::reserves(
            before,
            drive_id,
            released,
        );
        &&& after == crate::tables::catalog::charged(
            before,
            hit,
            drive_id,
            released,
            params[3]->I64_0 as int,
        )
        &&& crate::tables::touches(reply, hit)
    }
    &&& sql == sql::COMPLETE_COLLABORATION_PAYLOAD_DELETION_SELECT_OBJECTS
        ==> match reply.optional_row::<DeletedObject>() {
        Ok(Some(found)) => rooms.is_deleted_object(found.id, id) && is_deleted(found, rooms),
        Ok(None) => forall|object_id: Uuid| !(#[trigger] rooms.is_deleted_object(object_id, id)),
        Err(_) => false,
    }
    &&& sql == sql::COMPLETE_COLLABORATION_PAYLOAD_DELETION_UPDATE_PAYLOAD_OBJECTS ==> {
        let hit = rooms.payloads.contains_key(id) && rooms.payloads[id].state == "deleting"@;
        &&& after == with_rooms(before, rooms.disposed(hit, id, "deleted"@))
        &&& crate::tables::touches(reply, hit)
    }
    &&& sql == sql::COMPLETE_COLLABORATION_PAYLOAD_DELETION_UPDATE_OBJECTS ==> {
        let hit = rooms.object_is(id, "delete_intent"@) || rooms.object_is(id, "quarantined"@);
        &&& after == with_rooms(before, rooms.moved(hit, id, params[2]->Text_0@))
        &&& crate::tables::touches(reply, hit)
    }
    &&& sql == sql::COMPLETE_COLLABORATION_PAYLOAD_DELETION_UPDATE_DRIVES ==> {
        let bytes = params[2]->I64_0 as int;
        let hit = before.catalog.drives.contains_key(id)
            && before.catalog.drives[id].used_bytes >= bytes;
        &&& after == crate::tables::catalog::charged(before, hit, id, 0, -bytes)
        &&& crate::tables::touches(reply, hit)
    }
    &&& sql == sql::COMMIT_SNAPSHOT_SELECT_EPOCHS ==> {
        let key = (id, params[2]->I64_0);
        let hit = is_writable(rooms, key, params[3]->Id_0, params[4]->Id_0);
        match reply.optional_row::<AnchorableEpoch>() {
            Ok(Some(found)) => hit && found.durable_sequence == rooms.epochs[key].durable_sequence
                && found.fencing_token == rooms.epochs[key].fencing_token,
            Ok(None) => !hit,
            Err(_) => false,
        }
    }
    &&& sql == sql::COMMIT_SNAPSHOT_SELECT_OBJECTS ==> {
        let hit = rooms.object_is(id, "durable"@) && rooms.objects[id].room_id == params[2]->Id_0
            && rooms.objects[id].epoch == params[3]->I64_0 && rooms.objects[id].purpose
            == "snapshot"@;
        reply.optional_row::<()>() == Ok::<Option<()>, Fault>(
            if hit {
                Some(())
            } else {
                None
            },
        )
    }
    &&& sql == sql::COMMIT_SNAPSHOT_SELECT_SNAPSHOTS ==> match reply.optional_row::<
        CurrentSnapshot,
    >() {
        Ok(Some(found)) => rooms.is_anchor(found.id, id, params[2]->I64_0) && found.object_id
            == rooms.snapshots[found.id].object_id && found.covered_sequence
            == rooms.snapshots[found.id].covered_sequence,
        Ok(None) => forall|anchor: Uuid|
            !(#[trigger] rooms.is_anchor(anchor, id, params[2]->I64_0)),
        Err(_) => false,
    }
    &&& sql == sql::COMMIT_SNAPSHOT_UPDATE_SNAPSHOTS ==> {
        let hit = rooms.snapshots.contains_key(id) && !rooms.snapshots[id].superseded;
        let row = SnapshotRow { superseded: true, ..rooms.snapshots[id] };
        &&& after == with_rooms(
            before,
            RoomTables {
                snapshots: crate::tables::changed(rooms.snapshots, hit, id, row),
                ..rooms
            },
        )
        &&& crate::tables::touches(reply, hit)
    }
    &&& sql == sql::COMMIT_SNAPSHOT_UPDATE_OBJECTS ==> {
        let hit = rooms.object_is(id, "durable"@);
        &&& after == with_rooms(before, rooms.moved(hit, id, "superseded"@))
        &&& crate::tables::touches(reply, hit)
    }
    &&& sql == sql::COMMIT_SNAPSHOT_INSERT_SNAPSHOTS ==> {
        let row = SnapshotRow {
            room_id: id,
            epoch: params[2]->I64_0,
            object_id: params[4]->Id_0,
            covered_sequence: params[5]->I64_0,
            superseded: false,
        };
        &&& !rooms.snapshots.contains_key(params[3]->Id_0)
        &&& after == with_rooms(
            before,
            RoomTables { snapshots: rooms.snapshots.insert(params[3]->Id_0, row), ..rooms },
        )
        &&& crate::tables::touches(reply, true)
    }
    &&& sql == sql::COMMIT_SNAPSHOT_UPDATE_OBJECTS_2 ==> after == with_rooms(
        before,
        RoomTables {
            objects: rooms.superseded(id, params[2]->I64_0, params[3]->I64_0),
            ..rooms
        },
    )
    &&& sql == sql::PERSIST_UPDATE_GROUP_SELECT_EPOCHS ==> {
        let key = (id, params[2]->I64_0);
        let hit = is_writable(rooms, key, params[3]->Id_0, params[4]->Id_0);
        match reply.optional_row::<WritableEpoch>() {
            Ok(Some(found)) => hit && found.durable_sequence == rooms.epochs[key].durable_sequence
                && found.fencing_token == rooms.epochs[key].fencing_token && found.base_version_id
                == rooms.epochs[key].base_version_id,
            Ok(None) => !hit,
            Err(_) => false,
        }
    }
    &&& sql == sql::PERSIST_UPDATE_GROUP_SELECT_OBJECTS ==> {
        let hit = is_durable(rooms, id, params[2]->Id_0, params[3]->I64_0);
        match reply.optional_row::<Arc<Vec<u8>>>() {
            Ok(Some(digest)) => hit && rooms.objects[id].blake3 == Some(digest@),
            Ok(None) => !hit,
            Err(_) => hit && rooms.objects[id].blake3 is None,
        }
    }
    &&& sql == sql::PERSIST_UPDATE_GROUP_SELECT_UPDATE_GROUPS ==> match reply.optional_row::<
        StoredUpdateGroup,
    >() {
        Ok(Some(found)) => exists|group: Uuid| #[trigger]
            rooms.is_group_of(
                group,
                id,
                params[2]->I64_0,
                params[3]->Id_0,
                params[4]->Id_0,
            ) && rooms.objects.contains_key(rooms.groups[group].object_id) && is_stored(
                found,
                rooms,
                group,
            ),
        Ok(None) => forall|group: Uuid|
            !((#[trigger] rooms.is_group_of(
                group,
                id,
                params[2]->I64_0,
                params[3]->Id_0,
                params[4]->Id_0,
            )) && rooms.objects.contains_key(rooms.groups[group].object_id)),
        Err(_) => exists|group: Uuid| #[trigger]
            rooms.is_group_of(
                group,
                id,
                params[2]->I64_0,
                params[3]->Id_0,
                params[4]->Id_0,
            ) && rooms.objects[rooms.groups[group].object_id].blake3 is None,
    }
    &&& sql == sql::PERSIST_UPDATE_GROUP_UPDATE_OBJECTS ==> {
        let hit = rooms.object_is(id, "durable"@);
        &&& after == with_rooms(before, rooms.moved(hit, id, "superseded"@))
        &&& crate::tables::touches(reply, hit)
    }
    &&& sql == sql::PERSIST_UPDATE_GROUP_INSERT_UPDATE_GROUPS ==> {
        let hit = is_durable(rooms, params[11]->Id_0, id, params[2]->I64_0);
        &&& hit ==> exists|group: Uuid|
            !(#[trigger] rooms.groups.contains_key(group)) && after == with_rooms(
                before,
                RoomTables { groups: rooms.groups.insert(group, new_group(params)), ..rooms },
            )
        &&& !hit ==> after == before
        &&& crate::tables::touches(reply, hit)
    }
    &&& sql == sql::PERSIST_UPDATE_GROUP_SELECT_UPDATE_GROUPS_2 ==> {
        &&& after == before
        &&& match reply.optional_row::<Uuid>() {
            Ok(Some(group)) => rooms.is_group_of(
                group,
                id,
                params[2]->I64_0,
                params[3]->Id_0,
                params[4]->Id_0,
            ),
            Ok(None) => forall|group: Uuid|
                !(#[trigger] rooms.is_group_of(
                    group,
                    id,
                    params[2]->I64_0,
                    params[3]->Id_0,
                    params[4]->Id_0,
                )),
            Err(_) => false,
        }
    }
    &&& sql == sql::PERSIST_UPDATE_GROUP_INSERT_UPDATE_CHUNKS ==> after == with_rooms(
        before,
        RoomTables {
            chunks: rooms.chunks.insert(
                (id, params[2]->I32_0),
                ChunkRow {
                    object_offset: params[3]->I64_0,
                    size_bytes: params[4]->I32_0,
                    blake3: params[5]->Blob_0@,
                },
            ),
            ..rooms
        },
    )
    &&& sql == sql::PERSIST_UPDATE_GROUP_UPDATE_EPOCHS ==> {
        let key = (id, params[2]->I64_0);
        let hit = rooms.epochs.contains_key(key);
        let row = EpochRow { durable_sequence: params[3]->I64_0, ..rooms.epochs[key] };
        &&& after == with_rooms(
            before,
            RoomTables { epochs: crate::tables::changed(rooms.epochs, hit, key, row), ..rooms },
        )
        &&& crate::tables::touches(reply, hit)
    }
    &&& sql == sql::ABANDON_OBJECT_INSERT_JOBS ==> after == crate::tables::catalog::queued(
        before,
        params,
    )
}

proof fn lemma_object_states_differ()
    ensures
        !crate::laws::is_given_up("staging"@),
        !crate::laws::is_given_up("durable"@),
        !crate::laws::is_given_up("superseded"@),
        "staging"@ != "durable"@,
        "staging"@ != "superseded"@,
        "durable"@ != "superseded"@,
{
    reveal_strlit("staging");
    reveal_strlit("durable");
    reveal_strlit("superseded");
    reveal_strlit("quarantined");
    reveal_strlit("delete_intent");
    reveal_strlit("tombstoned");
    reveal_strlit("abandoned");
    assert("staging"@.len() == 7 && "staging"@[0] == 's');
    assert("durable"@.len() == 7 && "durable"@[0] == 'd');
    assert("superseded"@.len() == 10 && "superseded"@[0] == 's');
    assert("quarantined"@.len() == 11);
    assert("delete_intent"@.len() == 13);
    assert("tombstoned"@.len() == 10 && "tombstoned"@[0] == 't');
    assert("abandoned"@.len() == 9);
}

/// Abandoning an object gives it up once. From staging, the object is quarantined, its payload
/// abandoned, its reservation released, and the drive's reserved bytes go down by exactly what was
/// reserved. From durable or superseded, the object and its payload are marked for deletion, and
/// the drive stays as it is. Either way nothing else changes but for the queued deletion. A second
/// call succeeds and changes nothing.
pub proof fn abandoned_objects_are_given_up_once(
    tenant_id: Uuid,
    object_id: Uuid,
    first: Seq<Reply>,
    second: Seq<Reply>,
    one: Course,
    two: Course,
)
    requires
        crate::step::is_done(
            Database::collaboration_abandon_object_fault(first),
            Database::collaboration_abandon_object_script(tenant_id, object_id, first),
            first,
        ),
        one.follows(
            Database::collaboration_abandon_object_script(tenant_id, object_id, first),
            first,
        ),
        two.follows(
            Database::collaboration_abandon_object_script(tenant_id, object_id, second),
            second,
        ),
        second.len() >= 3,
        two.start().rooms.is_whole(object_id),
        two.start().rooms.objects[object_id] == one.end().rooms.objects[object_id],
    ensures
        ({
            let rooms = one.start().rooms;
            let object = rooms.objects[object_id];
            let job = (
                "payload_delete"@,
                "collaboration-abandon:"@,
                object.payload_id,
                object.payload_id,
            );
            &&& rooms.is_whole(object_id)
            &&& crate::laws::is_given_up(object.state) ==> one.end() == one.start()
            &&& object.state == "staging"@ ==> one.end() == (Tables {
                rooms: rooms.reserved(true, object_id, "released"@).moved(
                    true,
                    object_id,
                    "quarantined"@,
                ).disposed(true, object.payload_id, "abandoned"@),
                catalog: CatalogTables {
                    jobs: one.start().catalog.jobs.insert(job),
                    ..crate::tables::catalog::charged(
                        one.start(),
                        true,
                        object.drive_id,
                        object.reserved_bytes as int,
                        0,
                    ).catalog
                },
                ..one.start()
            })
            &&& object.state == "durable"@ || object.state == "superseded"@ ==> one.end()
                == (Tables {
                rooms: rooms.moved(true, object_id, "delete_intent"@).disposed(
                    true,
                    object.payload_id,
                    "delete_intent"@,
                ),
                catalog: CatalogTables {
                    jobs: one.start().catalog.jobs.insert(job),
                    ..one.start().catalog
                },
                ..one.start()
            })
            &&& crate::step::is_done(
                Database::collaboration_abandon_object_fault(second),
                Database::collaboration_abandon_object_script(tenant_id, object_id, second),
                second,
            )
            &&& two.end() == two.start()
        }),
{
    reveal(means);
    lemma_object_states_differ();
    let script = Database::collaboration_abandon_object_script(tenant_id, object_id, first);
    let again = Database::collaboration_abandon_object_script(tenant_id, object_id, second);
    assert(one.performs(script, first, 0));
    assert(one.performs(script, first, 1));
    assert(one.performs(script, first, 2));
    if script.len() > 3 {
        assert(one.performs(script, first, 3));
        assert(one.performs(script, first, 4));
        assert(one.performs(script, first, 5));
        assert(one.performs(script, first, 6));
        if script.len() > 7 {
            assert(one.performs(script, first, 7));
            assert(one.performs(script, first, 8));
        }
    }
    assert(two.performs(again, second, 0));
    assert(two.performs(again, second, 1));
    assert(two.performs(again, second, 2));
    let object = one.start().rooms.objects[object_id];
    let found = first[1].required_row::<AbandonableObject>(DatabaseError::NotFound)->Ok_0;
    assert(found.state@ == object.state);
    if object.state == "staging"@ {
        assert(one.rows[4].rooms == one.start().rooms.reserved(true, object_id, "released"@));
        assert(one.end() == one.rows[9]);
    } else if !crate::laws::is_given_up(object.state) {
        assert(one.end() == one.rows[7]);
    }
}

/// An object that a group or a snapshot is made of is not abandoned: that is a conflict, and
/// changes nothing.
pub proof fn referenced_objects_keep_their_rows(
    tenant_id: Uuid,
    object_id: Uuid,
    log: Seq<Reply>,
    course: Course,
)
    requires
        course.follows(
            Database::collaboration_abandon_object_script(tenant_id, object_id, log),
            log,
        ),
        log.len() > 2,
        course.start().rooms.is_whole(object_id),
        course.start().rooms.is_referenced(object_id),
        !crate::laws::is_given_up(course.start().rooms.objects[object_id].state),
    ensures
        Database::collaboration_abandon_object_fault(log) == Some(
            Fault::Error(DatabaseError::Conflict),
        ),
        course.left(
            Database::collaboration_abandon_object_fault(log),
            Database::collaboration_abandon_object_script(tenant_id, object_id, log),
            log,
        ) == course.start(),
{
    reveal(means);
    let script = Database::collaboration_abandon_object_script(tenant_id, object_id, log);
    assert(course.performs(script, log, 0));
    assert(course.performs(script, log, 1));
    assert(course.performs(script, log, 2));
}

/// Finalizing an object accounts for its bytes once. From staging, the object and its payload get
/// their size and digest, the reservation is committed, and on the drive exactly what was reserved
/// becomes exactly what is used. A later call with the same size and digest returns the object as
/// it stands, one with another is a conflict, and neither changes a row.
pub proof fn finalized_objects_are_charged_once<'a>(
    tenant_id: Uuid,
    object_id: Uuid,
    expected_fencing_token: i64,
    authorization: CollaborationAuthorizationContext,
    earlier_size: i64,
    earlier_digest: &'a [u8],
    size_bytes: i64,
    blake3: &'a [u8],
    first: Seq<Reply>,
    second: Seq<Reply>,
    one: Course,
    two: Course,
)
    requires
        crate::step::is_done(
            Database::collaboration_finalize_object_fault(
                expected_fencing_token,
                authorization,
                earlier_size,
                earlier_digest,
                first,
            ),
            Database::collaboration_finalize_object_script(
                tenant_id,
                object_id,
                authorization,
                earlier_size,
                earlier_digest,
                first,
            ),
            first,
        ),
        one.follows(
            Database::collaboration_finalize_object_script(
                tenant_id,
                object_id,
                authorization,
                earlier_size,
                earlier_digest,
                first,
            ),
            first,
        ),
        one.start().rooms.object_is(object_id, "staging"@),
        two.follows(
            Database::collaboration_finalize_object_script(
                tenant_id,
                object_id,
                authorization,
                size_bytes,
                blake3,
                second,
            ),
            second,
        ),
        Database::collaboration_finalize_object_fault(
            expected_fencing_token,
            authorization,
            size_bytes,
            blake3,
            second.take(2),
        ) is None,
        second.len() > 3,
        size_bytes == earlier_size && blake3@ == earlier_digest@ ==> second.len() > 4,
        is_placed(two.start().rooms, object_id),
        two.start().rooms.objects[object_id] == one.end().rooms.objects[object_id],
    ensures
        ({
            let rooms = one.start().rooms;
            let object = rooms.objects[object_id];
            let fault = Database::collaboration_finalize_object_fault(
                expected_fencing_token,
                authorization,
                size_bytes,
                blake3,
                second,
            );
            let script = Database::collaboration_finalize_object_script(
                tenant_id,
                object_id,
                authorization,
                size_bytes,
                blake3,
                second,
            );
            let output = Database::collaboration_finalize_object_output(second);
            let same = size_bytes == earlier_size && blake3@ == earlier_digest@;
            &&& one.end() == (Tables {
                rooms: RoomTables {
                    objects: rooms.objects.insert(
                        object_id,
                        ObjectRow {
                            state: "durable"@,
                            size_bytes: Some(earlier_size),
                            blake3: Some(earlier_digest@),
                            ..object
                        },
                    ),
                    payloads: rooms.payloads.insert(
                        object.payload_id,
                        PayloadRow {
                            state: "finalized"@,
                            size_bytes: Some(earlier_size),
                            blake3: Some(earlier_digest@),
                        },
                    ),
                    reservations: rooms.reservations.insert(object_id, "committed"@),
                    ..rooms
                },
                ..crate::tables::catalog::charged(
                    one.start(),
                    true,
                    object.drive_id,
                    object.reserved_bytes as int,
                    earlier_size as int,
                )
            })
            &&& same ==> crate::step::is_done(fault, script, second) && is_object(
                output,
                two.start().rooms,
                object_id,
            ) && two.end() == two.start()
            &&& !same ==> fault == Some(Fault::Error(DatabaseError::Conflict)) && two.left(
                fault,
                script,
                second,
            ) == two.start()
        }),
{
    reveal(means);
    lemma_object_states_differ();
    let script = Database::collaboration_finalize_object_script(
        tenant_id,
        object_id,
        authorization,
        earlier_size,
        earlier_digest,
        first,
    );
    let again = Database::collaboration_finalize_object_script(
        tenant_id,
        object_id,
        authorization,
        size_bytes,
        blake3,
        second,
    );
    assert(one.performs(script, first, 0));
    assert(one.performs(script, first, 1));
    assert(one.performs(script, first, 2));
    assert(script.len() == 9);
    assert(one.performs(script, first, 3));
    assert(one.performs(script, first, 4));
    assert(one.performs(script, first, 5));
    assert(one.performs(script, first, 6));
    assert(one.performs(script, first, 7));
    assert(one.performs(script, first, 8));
    assert(one.end() == one.rows[9]);
    let before = second.take(2);
    assert(before[1] == second[1]);
    assert(two.performs(again, second, 0));
    assert(two.performs(again, second, 1));
    assert(two.performs(again, second, 2));
    assert(two.performs(again, second, 3));
    if size_bytes == earlier_size && blake3@ == earlier_digest@ {
        assert(two.performs(again, second, 4));
    }
}

/// Whether a payload belongs to no more than one object.
pub open spec fn has_one_object(rooms: RoomTables, payload_id: Uuid) -> bool {
    forall|a: Uuid, b: Uuid| #[trigger]
        rooms.objects.contains_key(a) && #[trigger] rooms.objects.contains_key(b)
            && rooms.objects[a].payload_id == payload_id && rooms.objects[b].payload_id
            == payload_id ==> a == b
}

/// Recording the deletion of a payload accounts for its bytes once. The first call closes the
/// object, marks the payload as deleted where it was being deleted, and takes exactly the object's
/// size off the drive's used bytes where it has one. A second call succeeds and changes nothing.
pub proof fn deleted_payloads_are_returned_once(
    tenant_id: Uuid,
    payload_id: Uuid,
    object_id: Uuid,
    first: Seq<Reply>,
    second: Seq<Reply>,
    one: Course,
    two: Course,
)
    requires
        crate::step::is_done(
            Database::complete_collaboration_payload_deletion_fault(first),
            Database::complete_collaboration_payload_deletion_script(tenant_id, payload_id, first),
            first,
        ),
        one.follows(
            Database::complete_collaboration_payload_deletion_script(tenant_id, payload_id, first),
            first,
        ),
        one.start().rooms.is_whole(object_id),
        one.start().rooms.objects[object_id].payload_id == payload_id,
        one.start().rooms.object_is(object_id, "delete_intent"@) || one.start().rooms.object_is(
            object_id,
            "quarantined"@,
        ),
        has_one_object(one.start().rooms, payload_id),
        two.follows(
            Database::complete_collaboration_payload_deletion_script(tenant_id, payload_id, second),
            second,
        ),
        second.len() >= 3,
        two.start().rooms == one.end().rooms,
    ensures
        ({
            let rooms = one.start().rooms;
            let object = rooms.objects[object_id];
            let deleting = rooms.payloads[payload_id].state == "deleting"@;
            let closed = if object.size_bytes is Some {
                "tombstoned"@
            } else {
                "abandoned"@
            };
            &&& one.end().rooms == rooms.disposed(deleting, payload_id, "deleted"@).moved(
                true,
                object_id,
                closed,
            )
            &&& one.end() == (Tables {
                rooms: one.end().rooms,
                ..crate::tables::catalog::charged(
                    one.start(),
                    object.size_bytes is Some,
                    object.drive_id,
                    0,
                    -object.size_bytes->0,
                )
            })
            &&& crate::step::is_done(
                Database::complete_collaboration_payload_deletion_fault(second),
                Database::complete_collaboration_payload_deletion_script(
                    tenant_id,
                    payload_id,
                    second,
                ),
                second,
            )
            &&& two.end() == two.start()
        }),
{
    reveal(means);
    lemma_deletion_states_differ();
    let script = Database::complete_collaboration_payload_deletion_script(
        tenant_id,
        payload_id,
        first,
    );
    let again = Database::complete_collaboration_payload_deletion_script(
        tenant_id,
        payload_id,
        second,
    );
    let found = first[1].required_row::<DeletedObject>(DatabaseError::StaleGeneration)->Ok_0;
    assert(one.performs(script, first, 0));
    assert(one.performs(script, first, 1));
    assert(one.start().rooms.objects.contains_key(found.id));
    assert(found.id == object_id);
    assert(one.performs(script, first, 2));
    assert(one.performs(script, first, 3));
    if script.len() > 4 {
        assert(one.performs(script, first, 4));
    }
    if script.len() > 5 {
        assert(one.performs(script, first, 5));
    }
    assert(one.end() == one.rows[script.len() as int]);
    assert(two.performs(again, second, 0));
    assert(two.performs(again, second, 1));
    assert(two.start().rooms.is_deleted_object(object_id, payload_id));
    let repeated = second[1].required_row::<DeletedObject>(DatabaseError::StaleGeneration)->Ok_0;
    assert(one.start().rooms.objects.contains_key(repeated.id));
    assert(two.performs(again, second, 2));
}

proof fn lemma_deletion_states_differ()
    ensures
        "delete_intent"@ != "tombstoned"@,
        "delete_intent"@ != "abandoned"@,
        "quarantined"@ != "tombstoned"@,
        "quarantined"@ != "abandoned"@,
        "deleting"@ != "deleted"@,
        "deleting"@ != "abandoned"@,
{
    reveal_strlit("quarantined");
    reveal_strlit("delete_intent");
    reveal_strlit("tombstoned");
    reveal_strlit("abandoned");
    reveal_strlit("deleting");
    reveal_strlit("deleted");
    assert("quarantined"@.len() == 11);
    assert("delete_intent"@.len() == 13);
    assert("tombstoned"@.len() == 10);
    assert("abandoned"@.len() == 9);
    assert("deleting"@.len() == 8);
    assert("deleted"@.len() == 7);
}

/// The coverage of an epoch's current snapshot never goes back, and there is never more than one.
/// Behind a current snapshot, one that covers less is stale; one that covers as much is the same
/// snapshot where it is of the same object, and a conflict where it is not; none of these changes
/// a row. One that covers more takes the place of the current one: that one and its object are
/// superseded, as are the durable objects of the groups that the new one covers, and no other
/// object.
pub proof fn anchors_never_go_back<'a>(
    tenant_id: Uuid,
    room_id: Uuid,
    epoch: i64,
    expected_fencing_token: i64,
    authorization: CollaborationAuthorizationContext,
    object_id: Uuid,
    covered_sequence: i64,
    state_vector: &'a [u8],
    anchor: Uuid,
    log: Seq<Reply>,
    course: Course,
)
    requires
        course.follows(
            Database::collaboration_commit_snapshot_script(
                tenant_id,
                room_id,
                epoch,
                authorization,
                object_id,
                covered_sequence,
                state_vector,
                log,
            ),
            log,
        ),
        log.len() > 5,
        Database::collaboration_commit_snapshot_fault(
            expected_fencing_token,
            authorization,
            object_id,
            covered_sequence,
            state_vector,
            log.take(4),
        ) is None,
        course.start().rooms.has_one_anchor(room_id, epoch),
        course.start().rooms.is_anchor(anchor, room_id, epoch),
    ensures
        ({
            let rooms = course.start().rooms;
            let current = rooms.snapshots[anchor];
            let fault = Database::collaboration_commit_snapshot_fault(
                expected_fencing_token,
                authorization,
                object_id,
                covered_sequence,
                state_vector,
                log,
            );
            let script = Database::collaboration_commit_snapshot_script(
                tenant_id,
                room_id,
                epoch,
                authorization,
                object_id,
                covered_sequence,
                state_vector,
                log,
            );
            let output = Database::collaboration_commit_snapshot_output(covered_sequence, log);
            let left = course.left(fault, script, log);
            &&& covered_sequence < current.covered_sequence ==> fault == Some(
                Fault::Error(DatabaseError::StaleGeneration),
            ) && left == course.start()
            &&& covered_sequence == current.covered_sequence && object_id == current.object_id
                ==> crate::step::is_done(fault, script, log) && output == anchor && left
                == course.start()
            &&& covered_sequence == current.covered_sequence && object_id != current.object_id
                ==> fault == Some(Fault::Error(DatabaseError::Conflict)) && left == course.start()
            &&& covered_sequence > current.covered_sequence && log.len() == 11
                && log[7].drawn_ids(1) is Ok ==> crate::step::is_done(fault, script, log)
            &&& covered_sequence > current.covered_sequence && crate::step::is_done(
                fault,
                script,
                log,
            ) ==> left == with_rooms(
                course.start(),
                RoomTables {
                    snapshots: rooms.snapshots.insert(
                        anchor,
                        SnapshotRow { superseded: true, ..current },
                    ).insert(
                        output,
                        SnapshotRow {
                            room_id,
                            epoch,
                            object_id,
                            covered_sequence,
                            superseded: false,
                        },
                    ),
                    objects: rooms.moved(
                        rooms.object_is(current.object_id, "durable"@),
                        current.object_id,
                        "superseded"@,
                    ).superseded(room_id, epoch, covered_sequence),
                    ..rooms
                },
            ) && left.rooms.is_anchor(output, room_id, epoch)
            &&& left.rooms.has_one_anchor(room_id, epoch)
            &&& forall|id: Uuid| #[trigger]
                left.rooms.is_anchor(id, room_id, epoch)
                    ==> left.rooms.snapshots[id].covered_sequence
                    >= current.covered_sequence
        }),
{
    reveal(means);
    let script = Database::collaboration_commit_snapshot_script(
        tenant_id,
        room_id,
        epoch,
        authorization,
        object_id,
        covered_sequence,
        state_vector,
        log,
    );
    let rooms = course.start().rooms;
    let before = log.take(4);
    assert(before[1] == log[1]);
    assert(before[2] == log[2]);
    assert(before[3] == log[3]);
    assert(course.performs(script, log, 0));
    assert(course.performs(script, log, 1));
    assert(course.performs(script, log, 2));
    assert(course.performs(script, log, 3));
    assert(course.performs(script, log, 4));
    let found = log[4].optional_row::<CurrentSnapshot>()->Ok_0->0;
    assert(rooms.is_anchor(found.id, room_id, epoch));
    assert(found.id == anchor);
    assert(course.performs(script, log, 5));
    if log.len() == 11 {
        assert(course.performs(script, log, 6));
        assert(course.performs(script, log, 7));
        assert(course.performs(script, log, 8));
        assert(course.performs(script, log, 9));
        assert(course.performs(script, log, 10));
        let output = Database::collaboration_commit_snapshot_output(covered_sequence, log);
        let moved = course.rows[7].rooms;
        assert(moved.snapshots == rooms.snapshots.insert(
            anchor,
            SnapshotRow { superseded: true, ..rooms.snapshots[anchor] },
        ));
        assert(course.rows[9].rooms.snapshots == moved.snapshots.insert(
            output,
            SnapshotRow { room_id, epoch, object_id, covered_sequence, superseded: false },
        ));
        assert(course.end() == course.rows[11]);
        let after = course.end().rooms;
        assert forall|id: Uuid| after.is_anchor(id, room_id, epoch) implies id == output by {
            if id != output {
                assert(id != anchor);
                assert(rooms.is_anchor(id, room_id, epoch));
            }
        }
        let seen = rooms.moved(
            rooms.object_is(rooms.snapshots[anchor].object_id, "durable"@),
            rooms.snapshots[anchor].object_id,
            "superseded"@,
        );
        assert(course.rows[9].rooms.objects == seen.objects);
        assert(course.rows[9].rooms.groups == seen.groups);
        assert forall|id: Uuid| #[trigger] seen.is_covered(id, room_id, epoch, covered_sequence)
            == course.rows[9].rooms.is_covered(id, room_id, epoch, covered_sequence) by {}
        assert(course.rows[9].rooms.superseded(room_id, epoch, covered_sequence)
            =~= seen.superseded(room_id, epoch, covered_sequence));
    }
}

/// Where an epoch has no current snapshot, the one that is committed becomes it.
pub proof fn first_anchors_are_set<'a>(
    tenant_id: Uuid,
    room_id: Uuid,
    epoch: i64,
    expected_fencing_token: i64,
    authorization: CollaborationAuthorizationContext,
    object_id: Uuid,
    covered_sequence: i64,
    state_vector: &'a [u8],
    log: Seq<Reply>,
    course: Course,
)
    requires
        course.follows(
            Database::collaboration_commit_snapshot_script(
                tenant_id,
                room_id,
                epoch,
                authorization,
                object_id,
                covered_sequence,
                state_vector,
                log,
            ),
            log,
        ),
        crate::step::is_done(
            Database::collaboration_commit_snapshot_fault(
                expected_fencing_token,
                authorization,
                object_id,
                covered_sequence,
                state_vector,
                log,
            ),
            Database::collaboration_commit_snapshot_script(
                tenant_id,
                room_id,
                epoch,
                authorization,
                object_id,
                covered_sequence,
                state_vector,
                log,
            ),
            log,
        ),
        forall|id: Uuid| !(#[trigger] course.start().rooms.is_anchor(id, room_id, epoch)),
    ensures
        ({
            let rooms = course.start().rooms;
            let output = Database::collaboration_commit_snapshot_output(covered_sequence, log);
            &&& course.end() == with_rooms(
                course.start(),
                RoomTables {
                    snapshots: rooms.snapshots.insert(
                        output,
                        SnapshotRow {
                            room_id,
                            epoch,
                            object_id,
                            covered_sequence,
                            superseded: false,
                        },
                    ),
                    objects: rooms.superseded(room_id, epoch, covered_sequence),
                    ..rooms
                },
            )
            &&& course.end().rooms.is_anchor(output, room_id, epoch)
            &&& course.end().rooms.has_one_anchor(room_id, epoch)
        }),
{
    reveal(means);
    let script = Database::collaboration_commit_snapshot_script(
        tenant_id,
        room_id,
        epoch,
        authorization,
        object_id,
        covered_sequence,
        state_vector,
        log,
    );
    let rooms = course.start().rooms;
    assert(course.performs(script, log, 0));
    assert(course.performs(script, log, 1));
    assert(course.performs(script, log, 2));
    assert(course.performs(script, log, 3));
    assert(course.performs(script, log, 4));
    assert(script.len() == 9);
    assert(course.performs(script, log, 5));
    assert(course.performs(script, log, 6));
    assert(course.performs(script, log, 7));
    assert(course.performs(script, log, 8));
    assert(course.end() == course.rows[9]);
    let output = Database::collaboration_commit_snapshot_output(covered_sequence, log);
    let after = course.end().rooms;
    assert forall|id: Uuid| after.is_anchor(id, room_id, epoch) implies id == output by {
        if id != output {
            assert(rooms.is_anchor(id, room_id, epoch));
        }
    }
    assert forall|id: Uuid| #[trigger] rooms.is_covered(id, room_id, epoch, covered_sequence)
        == course.rows[7].rooms.is_covered(id, room_id, epoch, covered_sequence) by {}
    assert(course.rows[7].rooms.superseded(room_id, epoch, covered_sequence) =~= rooms.superseded(
        room_id,
        epoch,
        covered_sequence,
    ));
}

/// An update that a client asks to make durable.
pub struct UpdateGroup<'a> {
    pub expected_fencing_token: i64,
    pub expected_base_sequence: i64,
    pub authorization: CollaborationAuthorizationContext,
    pub mcp_invocation_id: Option<Uuid>,
    pub source_before_digest: &'a [u8],
    pub source_after_digest: &'a [u8],
    pub object_id: Uuid,
    pub chunks: &'a Vec<CollaborationUpdateChunkInput>,
    pub state_vector: &'a [u8],
    pub state_digest: &'a [u8],
}

/// The place of a client's update: the room, the epoch, the client and its own identifier.
pub struct UpdatePlace {
    pub tenant_id: Uuid,
    pub room_id: Uuid,
    pub epoch: i64,
    pub client_id: Uuid,
    pub client_update_id: Uuid,
}

impl<'a> UpdateGroup<'a> {
    /// What stops the call with this update.
    pub open spec fn fault(self, log: Seq<Reply>) -> Option<Fault> {
        Database::collaboration_persist_update_group_fault(
            self.expected_fencing_token,
            self.expected_base_sequence,
            self.authorization,
            self.mcp_invocation_id,
            self.source_before_digest,
            self.source_after_digest,
            self.chunks,
            self.state_vector,
            self.state_digest,
            log,
        )
    }

    /// The commands of the call with this update.
    pub open spec fn script(
        self,
        place: UpdatePlace,
        log: Seq<Reply>,
    ) -> Seq<crate::step::CommandView<'a>> {
        Database::collaboration_persist_update_group_script(
            place.tenant_id,
            place.room_id,
            place.epoch,
            self.expected_base_sequence,
            place.client_id,
            place.client_update_id,
            self.authorization,
            self.mcp_invocation_id,
            self.source_before_digest,
            self.source_after_digest,
            self.object_id,
            self.chunks,
            self.state_vector,
            self.state_digest,
            log,
        )
    }

    /// What the call with this update returns.
    pub open spec fn output(self, log: Seq<Reply>) -> (Uuid, i64, i64) {
        Database::collaboration_persist_update_group_output(
            self.mcp_invocation_id,
            self.object_id,
            log,
        )
    }

    /// The group that the update makes.
    pub open spec fn row(self, place: UpdatePlace, sequence: i64) -> GroupRow {
        GroupRow {
            room_id: place.room_id,
            epoch: place.epoch,
            client_id: place.client_id,
            client_update_id: place.client_update_id,
            actor_principal_id: self.authorization.principal_id,
            origin_kind: if self.mcp_invocation_id is Some {
                "mcp"@
            } else {
                "user"@
            },
            mcp_invocation_id: self.mcp_invocation_id,
            source_before_digest: self.source_before_digest@,
            source_after_digest: self.source_after_digest@,
            object_id: self.object_id,
            chunk_count: self.chunks@.len() as i32,
            total_bytes: (self.chunks@.last().object_offset
                + self.chunks@.last().size_bytes) as i64,
            first_sequence: sequence,
            last_sequence: sequence,
            state_vector: self.state_vector@,
            state_digest: self.state_digest@,
        }
    }
}

impl UpdatePlace {
    /// Whether a group stands at this place.
    pub open spec fn holds(self, rooms: RoomTables, id: Uuid) -> bool {
        rooms.is_group_of(id, self.room_id, self.epoch, self.client_id, self.client_update_id)
    }
}

/// The chunks once those of a group lie there, as far as a count goes.
pub open spec fn laid(
    before: Map<(Uuid, i32), ChunkRow>,
    group: Uuid,
    chunks: Seq<CollaborationUpdateChunkInput>,
    count: int,
) -> Map<(Uuid, i32), ChunkRow> {
    Map::new(
        |key: (Uuid, i32)| before.contains_key(key) || key.0 == group && 0 <= key.1 < count,
        |key: (Uuid, i32)|
            if key.0 == group && 0 <= key.1 < count {
                ChunkRow {
                    object_offset: chunks[key.1 as int].object_offset,
                    size_bytes: chunks[key.1 as int].size_bytes,
                    blake3: chunks[key.1 as int].blake3@,
                }
            } else {
                before[key]
            },
    )
}

#[verifier::rlimit(60)]
#[verifier::spinoff_prover]
proof fn lemma_chunk_is_laid<'a>(
    place: UpdatePlace,
    update: UpdateGroup<'a>,
    log: Seq<Reply>,
    course: Course,
    count: int,
)
    requires
        ({
            let at = crate::repeats::group_lookup_at(update.mcp_invocation_id);
            let script = update.script(place, log);
            &&& course.follows(script, log)
            &&& log.len() == script.len()
            &&& script.len() == at + 5 + update.chunks@.len()
            &&& log[at].optional_row::<StoredUpdateGroup>()->Ok_0 is None
            &&& log[2].required_row::<WritableEpoch>(DatabaseError::Conflict)->Ok_0.durable_sequence
                == update.expected_base_sequence
            &&& 0 <= count < update.chunks@.len()
        }),
    ensures
        ({
            let at = crate::repeats::group_lookup_at(update.mcp_invocation_id);
            lays(
                course.rows[at + 3 + count],
                course.rows[at + 4 + count],
                log[at + 2].single_row::<Uuid>()->Ok_0,
                update.chunks@[count],
            )
        }),
{
    reveal(means);
    let at = crate::repeats::group_lookup_at(update.mcp_invocation_id);
    assert(course.performs(update.script(place, log), log, at + 3 + count));
}

/// Whether a chunk of a group was laid down, and nothing else changed.
pub open spec fn lays(
    before: Tables,
    after: Tables,
    group: Uuid,
    chunk: CollaborationUpdateChunkInput,
) -> bool {
    after == with_rooms(
        before,
        RoomTables {
            chunks: before.rooms.chunks.insert(
                (group, chunk.chunk_index),
                ChunkRow {
                    object_offset: chunk.object_offset,
                    size_bytes: chunk.size_bytes,
                    blake3: chunk.blake3@,
                },
            ),
            ..before.rooms
        },
    )
}

proof fn lemma_chunks_are_laid(
    course: Course,
    from: int,
    group: Uuid,
    chunks: Seq<CollaborationUpdateChunkInput>,
    count: int,
)
    requires
        0 <= count <= chunks.len(),
        crate::collaboration::chunks_make_a_group(chunks),
        forall|j: int|
            0 <= j < count ==> lays(
                course.rows[from + j],
                course.rows[from + j + 1],
                group,
                #[trigger] chunks[j],
            ),
    ensures
        course.rows[from + count] == with_rooms(
            course.rows[from],
            RoomTables {
                chunks: laid(course.rows[from].rooms.chunks, group, chunks, count),
                ..course.rows[from].rooms
            },
        ),
    decreases count,
{
    let before = course.rows[from].rooms.chunks;
    if count > 0 {
        lemma_chunks_are_laid(course, from, group, chunks, count - 1);
        let chunk = chunks[count - 1];
        assert(lays(course.rows[from + count - 1], course.rows[from + count], group, chunk));
        assert(chunk.chunk_index == count - 1);
        assert(course.rows[from + count].rooms.chunks =~= laid(before, group, chunks, count));
    } else {
        assert(laid(before, group, chunks, 0) =~= before);
    }
}

/// The first call with an update adds one group at its place, with its digests, its object and the
/// next sequence number, lays down its chunks, each with its own index, offset, size and digest,
/// moves the epoch to that number and returns it. It goes through where the epoch is active under
/// the fence that the client knows, and the client is authorized as when it entered. Another call
/// at the same place adds nothing: with the same digests, and an object of the same bytes, it
/// returns the object and the numbers of the first, and the epoch stays where it is; only an object
/// other than the first is superseded. With anything else it is a conflict, and changes nothing.
pub proof fn updates_are_applied_once<'a>(
    place: UpdatePlace,
    update: UpdateGroup<'a>,
    again: UpdateGroup<'a>,
    first: Seq<Reply>,
    second: Seq<Reply>,
    one: Course,
    two: Course,
)
    requires
        crate::step::is_done(update.fault(first), update.script(place, first), first),
        one.follows(update.script(place, first), first),
        forall|id: Uuid| !(#[trigger] place.holds(one.start().rooms, id)),
        two.follows(again.script(place, second), second),
        second.len() > crate::repeats::group_lookup_at(again.mcp_invocation_id),
        again.fault(
            second.take(crate::repeats::group_lookup_at(again.mcp_invocation_id)),
        ) is None,
        two.start().rooms.groups == one.end().rooms.groups,
        two.start().rooms.objects.contains_key(update.object_id),
        two.start().rooms.objects[update.object_id].blake3
            == one.start().rooms.objects[update.object_id].blake3,
    ensures
        ({
            let key = (place.room_id, place.epoch);
            let rooms = one.start().rooms;
            let sequence = (rooms.epochs[key].durable_sequence + 1) as i64;
            let fault = again.fault(second);
            let script = again.script(place, second);
            let left = two.left(fault, script, second);
            let same = again.mcp_invocation_id == update.mcp_invocation_id
                && again.source_before_digest@ == update.source_before_digest@
                && again.source_after_digest@ == update.source_after_digest@
                && again.state_digest@ == update.state_digest@
                && two.start().rooms.objects[again.object_id].blake3
                == rooms.objects[update.object_id].blake3;
            &&& is_writable(
                rooms,
                key,
                update.authorization.drive_id,
                update.authorization.node_id,
            )
            &&& rooms.epochs[key].fencing_token == update.expected_fencing_token
            &&& one.start().catalog.permits(
                update.authorization.session_id,
                update.authorization.principal_id,
                update.authorization.drive_id,
                update.authorization.node_id,
                fence_of(update.authorization),
                one.clock[0],
            )
            &&& is_durable(rooms, update.object_id, place.room_id, place.epoch)
            &&& rooms.epochs.contains_key(key)
            &&& rooms.epochs[key].durable_sequence == update.expected_base_sequence
            &&& rooms.epochs[key].durable_sequence < i64::MAX
            &&& update.output(first) == (update.object_id, sequence, sequence)
            &&& exists|id: Uuid|
                !(#[trigger] rooms.groups.contains_key(id)) && one.end() == with_rooms(
                    one.start(),
                    RoomTables {
                        groups: rooms.groups.insert(id, update.row(place, sequence)),
                        epochs: rooms.epochs.insert(
                            key,
                            EpochRow { durable_sequence: sequence, ..rooms.epochs[key] },
                        ),
                        chunks: laid(
                            rooms.chunks,
                            id,
                            update.chunks@,
                            update.chunks@.len() as int,
                        ),
                        ..rooms
                    },
                )
            &&& same ==> fault is None && again.output(second) == update.output(first)
            &&& same && second.len() >= script.len() ==> left == with_rooms(
                two.start(),
                two.start().rooms.moved(
                    again.object_id != update.object_id,
                    again.object_id,
                    "superseded"@,
                ),
            )
            &&& !same ==> fault == Some(Fault::Error(DatabaseError::Conflict)) && left
                == two.start()
        }),
{
    let rooms = one.start().rooms;
    let key = (place.room_id, place.epoch);
    let sequence = (rooms.epochs[key].durable_sequence + 1) as i64;
    let id = lemma_first_update(place, update, first, one);
    lemma_repeated_update(place, update, again, sequence, id, second, two, rooms);
}

/// The generations under which a participant of a room was authorized, as a fence reads them.
pub open spec fn fence_of(authorization: CollaborationAuthorizationContext) -> FenceGenerations {
    FenceGenerations {
        membership: authorization.generations.membership,
        drive_acl: authorization.generations.drive_acl,
        namespace: authorization.generations.namespace,
        resource_acl: authorization.generations.resource_acl,
    }
}

proof fn lemma_update_is_admitted<'a>(
    place: UpdatePlace,
    update: UpdateGroup<'a>,
    first: Seq<Reply>,
    one: Course,
)
    requires
        crate::step::is_done(update.fault(first), update.script(place, first), first),
        one.follows(update.script(place, first), first),
    ensures
        one.start().catalog.permits(
            update.authorization.session_id,
            update.authorization.principal_id,
            update.authorization.drive_id,
            update.authorization.node_id,
            fence_of(update.authorization),
            one.clock[0],
        ),
{
    reveal(crate::tables::catalog::means);
    let script = update.script(place, first);
    assert(one.performs(script, first, 0));
    assert(one.performs(script, first, 1));
    let fence = first[1].required_row::<FenceGenerations>(DatabaseError::StaleGeneration);
    assert(fence is Ok);
    assert(crate::tables::first_row(first[1]) is Some);
    let expected = update.authorization.expected();
    assert(expected[0] == update.authorization.generations.membership);
    assert(expected[1] == update.authorization.generations.drive_acl);
    assert(expected[2] == update.authorization.generations.namespace);
    assert(expected[3] == update.authorization.generations.resource_acl);
    assert(one.clock[0] <= one.clock[1]);
}

/// What the first call with an update adds.
#[verifier::rlimit(100)]
pub(crate) proof fn lemma_first_update<'a>(
    place: UpdatePlace,
    update: UpdateGroup<'a>,
    first: Seq<Reply>,
    one: Course,
) -> (id: Uuid)
    requires
        crate::step::is_done(update.fault(first), update.script(place, first), first),
        one.follows(update.script(place, first), first),
        forall|id: Uuid| !(#[trigger] place.holds(one.start().rooms, id)),
    ensures
        ({
            let key = (place.room_id, place.epoch);
            let rooms = one.start().rooms;
            let sequence = (rooms.epochs[key].durable_sequence + 1) as i64;
            &&& is_writable(
                rooms,
                key,
                update.authorization.drive_id,
                update.authorization.node_id,
            )
            &&& rooms.epochs[key].fencing_token == update.expected_fencing_token
            &&& one.start().catalog.permits(
                update.authorization.session_id,
                update.authorization.principal_id,
                update.authorization.drive_id,
                update.authorization.node_id,
                fence_of(update.authorization),
                one.clock[0],
            )
            &&& is_durable(rooms, update.object_id, place.room_id, place.epoch)
            &&& rooms.epochs.contains_key(key)
            &&& rooms.epochs[key].durable_sequence == update.expected_base_sequence
            &&& rooms.epochs[key].durable_sequence < i64::MAX
            &&& rooms.objects[update.object_id].blake3 is Some
            &&& update.output(first) == (update.object_id, sequence, sequence)
            &&& !rooms.groups.contains_key(id)
            &&& one.end() == with_rooms(
                one.start(),
                RoomTables {
                    groups: rooms.groups.insert(id, update.row(place, sequence)),
                    epochs: rooms.epochs.insert(
                        key,
                        EpochRow { durable_sequence: sequence, ..rooms.epochs[key] },
                    ),
                    chunks: laid(rooms.chunks, id, update.chunks@, update.chunks@.len() as int),
                    ..rooms
                },
            )
        }),
{
    reveal(means);
    lemma_update_is_admitted(place, update, first, one);
    let at = crate::repeats::group_lookup_at(update.mcp_invocation_id);
    let script = update.script(place, first);
    let rooms = one.start().rooms;
    let key = (place.room_id, place.epoch);
    let sequence = (rooms.epochs[key].durable_sequence + 1) as i64;
    let count = update.chunks@.len() as int;
    assert(one.performs(script, first, 0));
    assert(one.performs(script, first, 1));
    assert(one.performs(script, first, 2));
    assert(one.performs(script, first, 3));
    assert(one.performs(script, first, 4));
    assert(one.performs(script, first, at));
    assert(one.rows[at + 1] == one.start());
    if first[at].optional_row::<StoredUpdateGroup>()->Ok_0 is Some {
        let found = first[at].optional_row::<StoredUpdateGroup>()->Ok_0->0;
        let id = choose|id: Uuid| #[trigger]
            rooms.is_group_of(
                id,
                place.room_id,
                place.epoch,
                place.client_id,
                place.client_update_id,
            );
        assert(place.holds(rooms, id));
    }
    assert(one.performs(script, first, at + 1));
    assert(one.performs(script, first, at + 2));
    let group = first[at + 2].single_row::<Uuid>()->Ok_0;
    assert forall|j: int| 0 <= j < count implies lays(
        one.rows[at + 3 + j],
        one.rows[at + 3 + j + 1],
        group,
        #[trigger] update.chunks@[j],
    ) by {
        lemma_chunk_is_laid(place, update, first, one, j);
    }
    lemma_chunks_are_laid(one, at + 3, group, update.chunks@, count);
    assert(one.performs(script, first, at + 3 + count));
    assert(one.performs(script, first, at + 4 + count));
    assert(one.end() == one.rows[at + 5 + count]);
    let params = script[at + 1]->params;
    assert(update.chunks@[count - 1].object_offset == crate::collaboration::bytes_before(
        update.chunks@,
        count - 1,
    ));
    assert(new_group(params) == update.row(place, sequence));
    let id = choose|id: Uuid|
        !(#[trigger] rooms.groups.contains_key(id)) && one.rows[at + 2] == with_rooms(
            one.start(),
            RoomTables { groups: rooms.groups.insert(id, new_group(params)), ..rooms },
        );
    let found = first[at + 2].single_row::<Uuid>()->Ok_0;
    assert(first[at + 2].optional_row::<Uuid>() is Ok);
    if found != id {
        assert(place.holds(rooms, found));
    }
    assert(one.end() == with_rooms(
        one.start(),
        RoomTables {
            groups: rooms.groups.insert(id, update.row(place, sequence)),
            epochs: rooms.epochs.insert(
                key,
                EpochRow { durable_sequence: sequence, ..rooms.epochs[key] },
            ),
            chunks: laid(rooms.chunks, id, update.chunks@, count),
            ..rooms
        },
    ));
    id
}

proof fn lemma_repeated_update<'a>(
    place: UpdatePlace,
    update: UpdateGroup<'a>,
    again: UpdateGroup<'a>,
    sequence: i64,
    id: Uuid,
    second: Seq<Reply>,
    two: Course,
    rooms: RoomTables,
)
    requires
        two.follows(again.script(place, second), second),
        second.len() > crate::repeats::group_lookup_at(again.mcp_invocation_id),
        again.fault(
            second.take(crate::repeats::group_lookup_at(again.mcp_invocation_id)),
        ) is None,
        forall|other: Uuid| !(#[trigger] place.holds(rooms, other)),
        !rooms.groups.contains_key(id),
        two.start().rooms.groups == rooms.groups.insert(id, update.row(place, sequence)),
        two.start().rooms.objects.contains_key(update.object_id),
        two.start().rooms.objects[update.object_id].blake3
            == rooms.objects[update.object_id].blake3,
        rooms.objects[update.object_id].blake3 is Some,
    ensures
        ({
            let fault = again.fault(second);
            let script = again.script(place, second);
            let left = two.left(fault, script, second);
            let same = again.mcp_invocation_id == update.mcp_invocation_id
                && again.source_before_digest@ == update.source_before_digest@
                && again.source_after_digest@ == update.source_after_digest@
                && again.state_digest@ == update.state_digest@
                && two.start().rooms.objects[again.object_id].blake3
                == rooms.objects[update.object_id].blake3;
            &&& same ==> fault is None && again.output(second) == (
                update.object_id,
                sequence,
                sequence,
            )
            &&& same && second.len() >= script.len() ==> left == with_rooms(
                two.start(),
                two.start().rooms.moved(
                    again.object_id != update.object_id,
                    again.object_id,
                    "superseded"@,
                ),
            )
            &&& !same ==> fault == Some(Fault::Error(DatabaseError::Conflict)) && left
                == two.start()
        }),
{
    reveal(means);
    let at = crate::repeats::group_lookup_at(again.mcp_invocation_id);
    let script = again.script(place, second);
    let now = two.start().rooms;
    let before = second.take(at);
    assert(before[1] == second[1]);
    assert(before[2] == second[2]);
    assert(before[3] == second[3]);
    assert(before[at - 1] == second[at - 1]);
    assert(two.performs(script, second, 0));
    assert(two.performs(script, second, 1));
    assert(two.performs(script, second, 2));
    assert(two.performs(script, second, 3));
    assert(two.performs(script, second, 4));
    assert(two.performs(script, second, at));
    assert(two.rows[at] == two.start());
    assert(two.rows[at + 1] == two.start());
    assert(place.holds(now, id));
    assert forall|other: Uuid| place.holds(now, other) implies other == id by {
        if other != id {
            assert(place.holds(rooms, other));
        }
    }
    assert forall|other: Uuid| #[trigger]
        now.is_group_of(
            other,
            place.room_id,
            place.epoch,
            place.client_id,
            place.client_update_id,
        ) implies other == id by {
        assert(place.holds(now, other));
    }
    assert(second[at].optional_row::<StoredUpdateGroup>() is Ok);
    assert(second[at].optional_row::<StoredUpdateGroup>()->Ok_0 is Some);
    if second.len() > at + 1 {
        assert(two.performs(script, second, at + 1));
    }
    if second.len() > at + 2 {
        assert(two.performs(script, second, at + 2));
    }
}

} // verus!
