//! Collaborative editing: rooms and their epochs, durable update groups and snapshots, and the
//! retention of the objects that hold them.

use std::sync::Arc;

use vstd::prelude::*;

use crate::database::Database;
use crate::error::DatabaseError;
use crate::error::Fault;
use crate::fence::FenceGenerations;
use crate::id::Uuid;
use crate::row::FromRow;
use crate::row::Reply;
use crate::row::Row;
use crate::row::affected;
use crate::row::drawn;
use crate::row::exactly_one;
use crate::row::optional;
use crate::row::required;
use crate::row::single;
use crate::sql::catalog;
use crate::sql::collaboration as sql;
use crate::step::Command;
use crate::step::CommandView;
use crate::step::Detail;
use crate::step::Param;
use crate::step::Step;
use crate::step::StepView;
use crate::step::ask_execute;
use crate::step::ask_one;
use crate::step::ask_optional;
use crate::step::stop;
use crate::step::stop_deep;
use crate::text::bytes_eq;
use crate::text::same_digest;
use crate::text::text_eq;

verus! {

/// A room in its current epoch.
#[derive(Debug)]
pub struct CollaborationSummaryRecord {
    pub room_id: Uuid,
    pub epoch: i64,
    pub drive_id: Uuid,
    pub node_id: Uuid,
    pub base_version_id: Uuid,
    pub state: String,
    pub durable_sequence: i64,
    pub fencing_token: i64,
    pub expires_at: String,
    pub warning_at: String,
}

impl CollaborationSummaryRecord {
    /// What a row holds, read by its column names.
    #[verifier::opaque]
    pub open spec fn of_row(row: Row) -> Result<CollaborationSummaryRecord, Fault> {
        if row.column::<Uuid>("room_id"@) is Some
            && row.column::<i64>("epoch"@) is Some
            && row.column::<Uuid>("drive_id"@) is Some
            && row.column::<Uuid>("node_id"@) is Some
            && row.column::<Uuid>("base_version_id"@) is Some
            && row.column::<String>("state"@) is Some
            && row.column::<i64>("durable_sequence"@) is Some
            && row.column::<i64>("fencing_token"@) is Some
            && row.column::<String>("expires_at"@) is Some
            && row.column::<String>("warning_at"@) is Some {
            Ok(
                CollaborationSummaryRecord {
                    room_id: row.column::<Uuid>("room_id"@)->0,
                    epoch: row.column::<i64>("epoch"@)->0,
                    drive_id: row.column::<Uuid>("drive_id"@)->0,
                    node_id: row.column::<Uuid>("node_id"@)->0,
                    base_version_id: row.column::<Uuid>("base_version_id"@)->0,
                    state: row.column::<String>("state"@)->0,
                    durable_sequence: row.column::<i64>("durable_sequence"@)->0,
                    fencing_token: row.column::<i64>("fencing_token"@)->0,
                    expires_at: row.column::<String>("expires_at"@)->0,
                    warning_at: row.column::<String>("warning_at"@)->0,
                },
            )
        } else {
            Err(Fault::Malformed)
        }
    }
}

impl FromRow for CollaborationSummaryRecord {
    open spec fn row_spec(row: Row) -> Result<CollaborationSummaryRecord, Fault> {
        CollaborationSummaryRecord::of_row(row)
    }

    fn from_row(row: &Row) -> (r: Result<CollaborationSummaryRecord, Fault>) {
        proof {
            reveal(CollaborationSummaryRecord::of_row);
        }
        let room_id: Uuid = match row.get("room_id") {
            Some(v) => v,
            None => return Err(Fault::Malformed),
        };
        let epoch: i64 = match row.get("epoch") {
            Some(v) => v,
            None => return Err(Fault::Malformed),
        };
        let drive_id: Uuid = match row.get("drive_id") {
            Some(v) => v,
            None => return Err(Fault::Malformed),
        };
        let node_id: Uuid = match row.get("node_id") {
            Some(v) => v,
            None => return Err(Fault::Malformed),
        };
        let base_version_id: Uuid = match row.get("base_version_id") {
            Some(v) => v,
            None => return Err(Fault::Malformed),
        };
        let state: String = match row.get("state") {
            Some(v) => v,
            None => return Err(Fault::Malformed),
        };
        let durable_sequence: i64 = match row.get("durable_sequence") {
            Some(v) => v,
            None => return Err(Fault::Malformed),
        };
        let fencing_token: i64 = match row.get("fencing_token") {
            Some(v) => v,
            None => return Err(Fault::Malformed),
        };
        let expires_at: String = match row.get("expires_at") {
            Some(v) => v,
            None => return Err(Fault::Malformed),
        };
        let warning_at: String = match row.get("warning_at") {
            Some(v) => v,
            None => return Err(Fault::Malformed),
        };
        Ok(CollaborationSummaryRecord {
            room_id, epoch, drive_id, node_id, base_version_id, state, durable_sequence,
            fencing_token, expires_at, warning_at,
        })
    }
}

/// A stored object of a room: an update group or a snapshot.
#[derive(Debug)]
pub struct CollaborationObjectRecord {
    pub id: Uuid,
    pub room_id: Uuid,
    pub epoch: i64,
    pub drive_id: Uuid,
    pub node_id: Uuid,
    pub fencing_token: i64,
    pub payload_id: Uuid,
    pub backend_id: Uuid,
    pub payload_locator: Uuid,
    pub purpose: String,
    pub state: String,
    pub reserved_bytes: i64,
    pub size_bytes: Option<i64>,
    pub blake3: Option<Arc<Vec<u8>>>,
}

/// What a [`CollaborationObjectRecord`] holds.
#[verifier::ext_equal]
pub struct CollaborationObjectRecordView {
    pub id: Uuid,
    pub room_id: Uuid,
    pub epoch: i64,
    pub drive_id: Uuid,
    pub node_id: Uuid,
    pub fencing_token: i64,
    pub payload_id: Uuid,
    pub backend_id: Uuid,
    pub payload_locator: Uuid,
    pub purpose: Seq<char>,
    pub state: Seq<char>,
    pub reserved_bytes: i64,
    pub size_bytes: Option<i64>,
    pub blake3: Option<Seq<u8>>,
}

impl View for CollaborationObjectRecord {
    type V = CollaborationObjectRecordView;

    open spec fn view(&self) -> CollaborationObjectRecordView {
        CollaborationObjectRecordView {
            id: self.id,
            room_id: self.room_id,
            epoch: self.epoch,
            drive_id: self.drive_id,
            node_id: self.node_id,
            fencing_token: self.fencing_token,
            payload_id: self.payload_id,
            backend_id: self.backend_id,
            payload_locator: self.payload_locator,
            purpose: self.purpose@,
            state: self.state@,
            reserved_bytes: self.reserved_bytes,
            size_bytes: self.size_bytes,
            blake3: match self.blake3 {
                Some(value) => Some(value@),
                None => None,
            },
        }
    }
}

impl CollaborationObjectRecord {
    /// What a row holds, read by its column names.
    #[verifier::opaque]
    pub open spec fn of_row(row: Row) -> Result<CollaborationObjectRecord, Fault> {
        if row.column::<Uuid>("id"@) is Some
            && row.column::<Uuid>("room_id"@) is Some
            && row.column::<i64>("epoch"@) is Some
            && row.column::<Uuid>("drive_id"@) is Some
            && row.column::<Uuid>("node_id"@) is Some
            && row.column::<i64>("fencing_token"@) is Some
            && row.column::<Uuid>("payload_id"@) is Some
            && row.column::<Uuid>("backend_id"@) is Some
            && row.column::<Uuid>("payload_locator"@) is Some
            && row.column::<String>("purpose"@) is Some
            && row.column::<String>("state"@) is Some
            && row.column::<i64>("reserved_bytes"@) is Some
            && row.column::<Option<i64>>("size_bytes"@) is Some
            && row.column::<Option<Arc<Vec<u8>>>>("blake3"@) is Some {
            Ok(
                CollaborationObjectRecord {
                    id: row.column::<Uuid>("id"@)->0,
                    room_id: row.column::<Uuid>("room_id"@)->0,
                    epoch: row.column::<i64>("epoch"@)->0,
                    drive_id: row.column::<Uuid>("drive_id"@)->0,
                    node_id: row.column::<Uuid>("node_id"@)->0,
                    fencing_token: row.column::<i64>("fencing_token"@)->0,
                    payload_id: row.column::<Uuid>("payload_id"@)->0,
                    backend_id: row.column::<Uuid>("backend_id"@)->0,
                    payload_locator: row.column::<Uuid>("payload_locator"@)->0,
                    purpose: row.column::<String>("purpose"@)->0,
                    state: row.column::<String>("state"@)->0,
                    reserved_bytes: row.column::<i64>("reserved_bytes"@)->0,
                    size_bytes: row.column::<Option<i64>>("size_bytes"@)->0,
                    blake3: row.column::<Option<Arc<Vec<u8>>>>("blake3"@)->0,
                },
            )
        } else {
            Err(Fault::Malformed)
        }
    }
}

impl FromRow for CollaborationObjectRecord {
    open spec fn row_spec(row: Row) -> Result<CollaborationObjectRecord, Fault> {
        CollaborationObjectRecord::of_row(row)
    }

    fn from_row(row: &Row) -> (r: Result<CollaborationObjectRecord, Fault>) {
        proof {
            reveal(CollaborationObjectRecord::of_row);
        }
        let id: Uuid = match row.get("id") {
            Some(v) => v,
            None => return Err(Fault::Malformed),
        };
        let room_id: Uuid = match row.get("room_id") {
            Some(v) => v,
            None => return Err(Fault::Malformed),
        };
        let epoch: i64 = match row.get("epoch") {
            Some(v) => v,
            None => return Err(Fault::Malformed),
        };
        let drive_id: Uuid = match row.get("drive_id") {
            Some(v) => v,
            None => return Err(Fault::Malformed),
        };
        let node_id: Uuid = match row.get("node_id") {
            Some(v) => v,
            None => return Err(Fault::Malformed),
        };
        let fencing_token: i64 = match row.get("fencing_token") {
            Some(v) => v,
            None => return Err(Fault::Malformed),
        };
        let payload_id: Uuid = match row.get("payload_id") {
            Some(v) => v,
            None => return Err(Fault::Malformed),
        };
        let backend_id: Uuid = match row.get("backend_id") {
            Some(v) => v,
            None => return Err(Fault::Malformed),
        };
        let payload_locator: Uuid = match row.get("payload_locator") {
            Some(v) => v,
            None => return Err(Fault::Malformed),
        };
        let purpose: String = match row.get("purpose") {
            Some(v) => v,
            None => return Err(Fault::Malformed),
        };
        let state: String = match row.get("state") {
            Some(v) => v,
            None => return Err(Fault::Malformed),
        };
        let reserved_bytes: i64 = match row.get("reserved_bytes") {
            Some(v) => v,
            None => return Err(Fault::Malformed),
        };
        let size_bytes: Option<i64> = match row.get("size_bytes") {
            Some(v) => v,
            None => return Err(Fault::Malformed),
        };
        let blake3: Option<Arc<Vec<u8>>> = match row.get("blake3") {
            Some(v) => v,
            None => return Err(Fault::Malformed),
        };
        Ok(CollaborationObjectRecord {
            id, room_id, epoch, drive_id, node_id, fencing_token, payload_id, backend_id,
            payload_locator, purpose, state, reserved_bytes, size_bytes, blake3,
        })
    }
}

/// A one-time admission to a room.
#[derive(Debug)]
pub struct CollaborationJoinGrantRecord {
    pub id: Uuid,
    pub room_id: Uuid,
    pub epoch: i64,
    pub principal_id: Uuid,
    pub session_id: Uuid,
    pub client_id: Uuid,
    pub presence_mode: String,
    pub presence_label: String,
    pub can_checkpoint: bool,
    pub expires_at: String,
}

impl CollaborationJoinGrantRecord {
    /// What a row holds, read by its column names.
    #[verifier::opaque]
    pub open spec fn of_row(row: Row) -> Result<CollaborationJoinGrantRecord, Fault> {
        if row.column::<Uuid>("id"@) is Some
            && row.column::<Uuid>("room_id"@) is Some
            && row.column::<i64>("epoch"@) is Some
            && row.column::<Uuid>("principal_id"@) is Some
            && row.column::<Uuid>("session_id"@) is Some
            && row.column::<Uuid>("client_id"@) is Some
            && row.column::<String>("presence_mode"@) is Some
            && row.column::<String>("presence_label"@) is Some
            && row.column::<bool>("can_checkpoint"@) is Some
            && row.column::<String>("expires_at"@) is Some {
            Ok(
                CollaborationJoinGrantRecord {
                    id: row.column::<Uuid>("id"@)->0,
                    room_id: row.column::<Uuid>("room_id"@)->0,
                    epoch: row.column::<i64>("epoch"@)->0,
                    principal_id: row.column::<Uuid>("principal_id"@)->0,
                    session_id: row.column::<Uuid>("session_id"@)->0,
                    client_id: row.column::<Uuid>("client_id"@)->0,
                    presence_mode: row.column::<String>("presence_mode"@)->0,
                    presence_label: row.column::<String>("presence_label"@)->0,
                    can_checkpoint: row.column::<bool>("can_checkpoint"@)->0,
                    expires_at: row.column::<String>("expires_at"@)->0,
                },
            )
        } else {
            Err(Fault::Malformed)
        }
    }
}

impl FromRow for CollaborationJoinGrantRecord {
    open spec fn row_spec(row: Row) -> Result<CollaborationJoinGrantRecord, Fault> {
        CollaborationJoinGrantRecord::of_row(row)
    }

    fn from_row(row: &Row) -> (r: Result<CollaborationJoinGrantRecord, Fault>) {
        proof {
            reveal(CollaborationJoinGrantRecord::of_row);
        }
        let id: Uuid = match row.get("id") {
            Some(v) => v,
            None => return Err(Fault::Malformed),
        };
        let room_id: Uuid = match row.get("room_id") {
            Some(v) => v,
            None => return Err(Fault::Malformed),
        };
        let epoch: i64 = match row.get("epoch") {
            Some(v) => v,
            None => return Err(Fault::Malformed),
        };
        let principal_id: Uuid = match row.get("principal_id") {
            Some(v) => v,
            None => return Err(Fault::Malformed),
        };
        let session_id: Uuid = match row.get("session_id") {
            Some(v) => v,
            None => return Err(Fault::Malformed),
        };
        let client_id: Uuid = match row.get("client_id") {
            Some(v) => v,
            None => return Err(Fault::Malformed),
        };
        let presence_mode: String = match row.get("presence_mode") {
            Some(v) => v,
            None => return Err(Fault::Malformed),
        };
        let presence_label: String = match row.get("presence_label") {
            Some(v) => v,
            None => return Err(Fault::Malformed),
        };
        let can_checkpoint: bool = match row.get("can_checkpoint") {
            Some(v) => v,
            None => return Err(Fault::Malformed),
        };
        let expires_at: String = match row.get("expires_at") {
            Some(v) => v,
            None => return Err(Fault::Malformed),
        };
        Ok(CollaborationJoinGrantRecord {
            id, room_id, epoch, principal_id, session_id, client_id, presence_mode,
            presence_label, can_checkpoint, expires_at,
        })
    }
}

/// A chunk of an update group: where it lies in the group's object, and its digest.
#[derive(Debug)]
pub struct CollaborationUpdateChunkInput {
    pub chunk_index: i32,
    pub object_offset: i64,
    pub size_bytes: i32,
    pub blake3: Arc<Vec<u8>>,
}

impl CollaborationUpdateChunkInput {
    /// What a row holds, read by its column names.
    #[verifier::opaque]
    pub open spec fn of_row(row: Row) -> Result<CollaborationUpdateChunkInput, Fault> {
        if row.column::<i32>("chunk_index"@) is Some
            && row.column::<i64>("object_offset"@) is Some
            && row.column::<i32>("size_bytes"@) is Some
            && row.column::<Arc<Vec<u8>>>("blake3"@) is Some {
            Ok(
                CollaborationUpdateChunkInput {
                    chunk_index: row.column::<i32>("chunk_index"@)->0,
                    object_offset: row.column::<i64>("object_offset"@)->0,
                    size_bytes: row.column::<i32>("size_bytes"@)->0,
                    blake3: row.column::<Arc<Vec<u8>>>("blake3"@)->0,
                },
            )
        } else {
            Err(Fault::Malformed)
        }
    }
}

impl FromRow for CollaborationUpdateChunkInput {
    open spec fn row_spec(row: Row) -> Result<CollaborationUpdateChunkInput, Fault> {
        CollaborationUpdateChunkInput::of_row(row)
    }

    fn from_row(row: &Row) -> (r: Result<CollaborationUpdateChunkInput, Fault>) {
        proof {
            reveal(CollaborationUpdateChunkInput::of_row);
        }
        let chunk_index: i32 = match row.get("chunk_index") {
            Some(v) => v,
            None => return Err(Fault::Malformed),
        };
        let object_offset: i64 = match row.get("object_offset") {
            Some(v) => v,
            None => return Err(Fault::Malformed),
        };
        let size_bytes: i32 = match row.get("size_bytes") {
            Some(v) => v,
            None => return Err(Fault::Malformed),
        };
        let blake3: Arc<Vec<u8>> = match row.get("blake3") {
            Some(v) => v,
            None => return Err(Fault::Malformed),
        };
        Ok(CollaborationUpdateChunkInput { chunk_index, object_offset, size_bytes, blake3 })
    }
}

/// An update group with its chunks, for replay.
#[derive(Debug)]
pub struct CollaborationReplayGroupRecord {
    pub object: CollaborationObjectRecord,
    pub first_sequence: i64,
    pub last_sequence: i64,
    pub chunks: Vec<CollaborationUpdateChunkInput>,
}

/// A durable full-state snapshot that anchors replay.
#[derive(Debug)]
pub struct CollaborationSnapshotRecord {
    pub object: CollaborationObjectRecord,
    pub covered_sequence: i64,
    pub state_vector: Arc<Vec<u8>>,
}

impl CollaborationSnapshotRecord {
    /// What a row holds, read by its column names.
    #[verifier::opaque]
    pub open spec fn of_row(row: Row) -> Result<CollaborationSnapshotRecord, Fault> {
        if <CollaborationObjectRecord as FromRow>::row_spec(row) is Ok
            && row.column::<i64>("covered_sequence"@) is Some
            && row.column::<Arc<Vec<u8>>>("state_vector"@) is Some {
            Ok(
                CollaborationSnapshotRecord {
                    object: <CollaborationObjectRecord as FromRow>::row_spec(row)->Ok_0,
                    covered_sequence: row.column::<i64>("covered_sequence"@)->0,
                    state_vector: row.column::<Arc<Vec<u8>>>("state_vector"@)->0,
                },
            )
        } else {
            Err(Fault::Malformed)
        }
    }
}

impl FromRow for CollaborationSnapshotRecord {
    open spec fn row_spec(row: Row) -> Result<CollaborationSnapshotRecord, Fault> {
        CollaborationSnapshotRecord::of_row(row)
    }

    fn from_row(row: &Row) -> (r: Result<CollaborationSnapshotRecord, Fault>) {
        proof {
            reveal(CollaborationSnapshotRecord::of_row);
        }
        let object: CollaborationObjectRecord = match CollaborationObjectRecord::from_row(row) {
            Ok(v) => v,
            Err(_) => return Err(Fault::Malformed),
        };
        let covered_sequence: i64 = match row.get("covered_sequence") {
            Some(v) => v,
            None => return Err(Fault::Malformed),
        };
        let state_vector: Arc<Vec<u8>> = match row.get("state_vector") {
            Some(v) => v,
            None => return Err(Fault::Malformed),
        };
        Ok(CollaborationSnapshotRecord { object, covered_sequence, state_vector })
    }
}

/// What a retention sweep did.
#[derive(Clone, Copy, Debug, PartialEq, Eq, Structural)]
pub struct CollaborationRetentionReport {
    pub warnings_emitted: u64,
    pub epochs_expired: u64,
    pub payload_deletions_enqueued: u64,
    pub objects_abandoned: u64,
}

/// An intent to import a file version next to its source.
#[derive(Debug)]
pub struct CollaborationImportIntentRecord {
    pub id: Uuid,
    pub drive_id: Uuid,
    pub source_node_id: Uuid,
    pub source_version_id: Uuid,
    pub target_parent_id: Uuid,
    pub target_display_name: String,
    pub target_name_key: String,
    pub expires_at: String,
}

impl CollaborationImportIntentRecord {
    /// What a row holds, read by its column names.
    #[verifier::opaque]
    pub open spec fn of_row(row: Row) -> Result<CollaborationImportIntentRecord, Fault> {
        if row.column::<Uuid>("id"@) is Some
            && row.column::<Uuid>("drive_id"@) is Some
            && row.column::<Uuid>("source_node_id"@) is Some
            && row.column::<Uuid>("source_version_id"@) is Some
            && row.column::<Uuid>("target_parent_id"@) is Some
            && row.column::<String>("target_display_name"@) is Some
            && row.column::<String>("target_name_key"@) is Some
            && row.column::<String>("expires_at"@) is Some {
            Ok(
                CollaborationImportIntentRecord {
                    id: row.column::<Uuid>("id"@)->0,
                    drive_id: row.column::<Uuid>("drive_id"@)->0,
                    source_node_id: row.column::<Uuid>("source_node_id"@)->0,
                    source_version_id: row.column::<Uuid>("source_version_id"@)->0,
                    target_parent_id: row.column::<Uuid>("target_parent_id"@)->0,
                    target_display_name: row.column::<String>("target_display_name"@)->0,
                    target_name_key: row.column::<String>("target_name_key"@)->0,
                    expires_at: row.column::<String>("expires_at"@)->0,
                },
            )
        } else {
            Err(Fault::Malformed)
        }
    }
}

impl FromRow for CollaborationImportIntentRecord {
    open spec fn row_spec(row: Row) -> Result<CollaborationImportIntentRecord, Fault> {
        CollaborationImportIntentRecord::of_row(row)
    }

    fn from_row(row: &Row) -> (r: Result<CollaborationImportIntentRecord, Fault>) {
        proof {
            reveal(CollaborationImportIntentRecord::of_row);
        }
        let id: Uuid = match row.get("id") {
            Some(v) => v,
            None => return Err(Fault::Malformed),
        };
        let drive_id: Uuid = match row.get("drive_id") {
            Some(v) => v,
            None => return Err(Fault::Malformed),
        };
        let source_node_id: Uuid = match row.get("source_node_id") {
            Some(v) => v,
            None => return Err(Fault::Malformed),
        };
        let source_version_id: Uuid = match row.get("source_version_id") {
            Some(v) => v,
            None => return Err(Fault::Malformed),
        };
        let target_parent_id: Uuid = match row.get("target_parent_id") {
            Some(v) => v,
            None => return Err(Fault::Malformed),
        };
        let target_display_name: String = match row.get("target_display_name") {
            Some(v) => v,
            None => return Err(Fault::Malformed),
        };
        let target_name_key: String = match row.get("target_name_key") {
            Some(v) => v,
            None => return Err(Fault::Malformed),
        };
        let expires_at: String = match row.get("expires_at") {
            Some(v) => v,
            None => return Err(Fault::Malformed),
        };
        Ok(CollaborationImportIntentRecord {
            id, drive_id, source_node_id, source_version_id, target_parent_id,
            target_display_name, target_name_key, expires_at,
        })
    }
}

#[derive(Clone, Copy, Debug, PartialEq, Eq, Structural)]
pub struct CollaborationAuthorizationGenerations {
    pub membership: i64,
    pub drive_acl: i64,
    pub namespace: i64,
    pub resource_acl: i64,
}

/// The authorization that must still hold when a collaboration object becomes durable or is made
/// authoritative in a room's manifest.
#[derive(Clone, Copy, Debug, PartialEq, Eq, Structural)]
pub struct CollaborationAuthorizationContext {
    pub principal_id: Uuid,
    pub session_id: Uuid,
    pub drive_id: Uuid,
    pub node_id: Uuid,
    pub generations: CollaborationAuthorizationGenerations,
}

impl CollaborationAuthorizationContext {
    /// The expected generations in the order in which the fence compares them.
    pub open spec fn expected(self) -> Seq<i64> {
        seq![
            self.generations.membership,
            self.generations.drive_acl,
            self.generations.namespace,
            self.generations.resource_acl,
        ]
    }

    /// The expected generations in the order in which the fence compares them.
    pub fn expected_generations(self) -> (r: [i64; 4])
        ensures
            r@ == self.expected(),
    {
        let expected: [i64; 4] = [
            self.generations.membership,
            self.generations.drive_acl,
            self.generations.namespace,
            self.generations.resource_acl,
        ];
        assert(expected@ =~= self.expected());
        expected
    }
}

#[derive(Clone, Copy, Debug)]
pub struct CollaborationImportIntentInput<'a> {
    pub tenant_id: Uuid,
    pub drive_id: Uuid,
    pub source_node_id: Uuid,
    pub source_version_id: Uuid,
    pub principal_id: Uuid,
    pub session_id: Uuid,
    pub source_generations: CollaborationAuthorizationGenerations,
    pub target_generations: CollaborationAuthorizationGenerations,
    pub target_display_name: &'a str,
    pub target_name_key: &'a str,
}

/// The epoch that a checkpoint is taken of.
#[derive(Clone, Copy, Debug, PartialEq, Eq, Structural)]
pub struct CheckpointEpoch {
    pub node_id: Uuid,
    pub base_version_id: Uuid,
    pub durable_sequence: i64,
    pub fencing_token: i64,
}

impl CheckpointEpoch {
    /// What a row holds, read by its column names.
    #[verifier::opaque]
    pub open spec fn of_row(row: Row) -> Result<CheckpointEpoch, Fault> {
        if row.column::<Uuid>("node_id"@) is Some
            && row.column::<Uuid>("base_version_id"@) is Some
            && row.column::<i64>("durable_sequence"@) is Some
            && row.column::<i64>("fencing_token"@) is Some {
            Ok(
                CheckpointEpoch {
                    node_id: row.column::<Uuid>("node_id"@)->0,
                    base_version_id: row.column::<Uuid>("base_version_id"@)->0,
                    durable_sequence: row.column::<i64>("durable_sequence"@)->0,
                    fencing_token: row.column::<i64>("fencing_token"@)->0,
                },
            )
        } else {
            Err(Fault::Malformed)
        }
    }
}

impl FromRow for CheckpointEpoch {
    open spec fn row_spec(row: Row) -> Result<CheckpointEpoch, Fault> {
        CheckpointEpoch::of_row(row)
    }

    fn from_row(row: &Row) -> (r: Result<CheckpointEpoch, Fault>) {
        proof {
            reveal(CheckpointEpoch::of_row);
        }
        let node_id: Uuid = match row.get("node_id") {
            Some(v) => v,
            None => return Err(Fault::Malformed),
        };
        let base_version_id: Uuid = match row.get("base_version_id") {
            Some(v) => v,
            None => return Err(Fault::Malformed),
        };
        let durable_sequence: i64 = match row.get("durable_sequence") {
            Some(v) => v,
            None => return Err(Fault::Malformed),
        };
        let fencing_token: i64 = match row.get("fencing_token") {
            Some(v) => v,
            None => return Err(Fault::Malformed),
        };
        Ok(CheckpointEpoch { node_id, base_version_id, durable_sequence, fencing_token })
    }
}

/// The epoch that an object is reserved in.
#[derive(Clone, Copy, Debug, PartialEq, Eq, Structural)]
pub struct ReservableEpoch {
    pub node_id: Uuid,
    pub fencing_token: i64,
}

impl ReservableEpoch {
    /// What a row holds, read by its column names.
    #[verifier::opaque]
    pub open spec fn of_row(row: Row) -> Result<ReservableEpoch, Fault> {
        if row.column::<Uuid>("node_id"@) is Some
            && row.column::<i64>("fencing_token"@) is Some {
            Ok(
                ReservableEpoch {
                    node_id: row.column::<Uuid>("node_id"@)->0,
                    fencing_token: row.column::<i64>("fencing_token"@)->0,
                },
            )
        } else {
            Err(Fault::Malformed)
        }
    }
}

impl FromRow for ReservableEpoch {
    open spec fn row_spec(row: Row) -> Result<ReservableEpoch, Fault> {
        ReservableEpoch::of_row(row)
    }

    fn from_row(row: &Row) -> (r: Result<ReservableEpoch, Fault>) {
        proof {
            reveal(ReservableEpoch::of_row);
        }
        let node_id: Uuid = match row.get("node_id") {
            Some(v) => v,
            None => return Err(Fault::Malformed),
        };
        let fencing_token: i64 = match row.get("fencing_token") {
            Some(v) => v,
            None => return Err(Fault::Malformed),
        };
        Ok(ReservableEpoch { node_id, fencing_token })
    }
}

/// An object that is about to become durable.
#[derive(Debug)]
pub struct FinalizableObject {
    pub state: String,
    pub reserved_bytes: i64,
    pub size_bytes: Option<i64>,
    pub blake3: Option<Arc<Vec<u8>>>,
    pub node_id: Uuid,
    pub drive_id: Uuid,
    pub epoch_state: String,
    pub fencing_token: i64,
    pub reservation_state: String,
}

impl FinalizableObject {
    /// What a row holds, read by its column names.
    #[verifier::opaque]
    pub open spec fn of_row(row: Row) -> Result<FinalizableObject, Fault> {
        if row.column::<String>("state"@) is Some
            && row.column::<i64>("reserved_bytes"@) is Some
            && row.column::<Option<i64>>("size_bytes"@) is Some
            && row.column::<Option<Arc<Vec<u8>>>>("blake3"@) is Some
            && row.column::<Uuid>("node_id"@) is Some
            && row.column::<Uuid>("drive_id"@) is Some
            && row.column::<String>("epoch_state"@) is Some
            && row.column::<i64>("fencing_token"@) is Some
            && row.column::<String>("reservation_state"@) is Some {
            Ok(
                FinalizableObject {
                    state: row.column::<String>("state"@)->0,
                    reserved_bytes: row.column::<i64>("reserved_bytes"@)->0,
                    size_bytes: row.column::<Option<i64>>("size_bytes"@)->0,
                    blake3: row.column::<Option<Arc<Vec<u8>>>>("blake3"@)->0,
                    node_id: row.column::<Uuid>("node_id"@)->0,
                    drive_id: row.column::<Uuid>("drive_id"@)->0,
                    epoch_state: row.column::<String>("epoch_state"@)->0,
                    fencing_token: row.column::<i64>("fencing_token"@)->0,
                    reservation_state: row.column::<String>("reservation_state"@)->0,
                },
            )
        } else {
            Err(Fault::Malformed)
        }
    }
}

impl FromRow for FinalizableObject {
    open spec fn row_spec(row: Row) -> Result<FinalizableObject, Fault> {
        FinalizableObject::of_row(row)
    }

    fn from_row(row: &Row) -> (r: Result<FinalizableObject, Fault>) {
        proof {
            reveal(FinalizableObject::of_row);
        }
        let state: String = match row.get("state") {
            Some(v) => v,
            None => return Err(Fault::Malformed),
        };
        let reserved_bytes: i64 = match row.get("reserved_bytes") {
            Some(v) => v,
            None => return Err(Fault::Malformed),
        };
        let size_bytes: Option<i64> = match row.get("size_bytes") {
            Some(v) => v,
            None => return Err(Fault::Malformed),
        };
        let blake3: Option<Arc<Vec<u8>>> = match row.get("blake3") {
            Some(v) => v,
            None => return Err(Fault::Malformed),
        };
        let node_id: Uuid = match row.get("node_id") {
            Some(v) => v,
            None => return Err(Fault::Malformed),
        };
        let drive_id: Uuid = match row.get("drive_id") {
            Some(v) => v,
            None => return Err(Fault::Malformed),
        };
        let epoch_state: String = match row.get("epoch_state") {
            Some(v) => v,
            None => return Err(Fault::Malformed),
        };
        let fencing_token: i64 = match row.get("fencing_token") {
            Some(v) => v,
            None => return Err(Fault::Malformed),
        };
        let reservation_state: String = match row.get("reservation_state") {
            Some(v) => v,
            None => return Err(Fault::Malformed),
        };
        Ok(FinalizableObject {
            state, reserved_bytes, size_bytes, blake3, node_id, drive_id, epoch_state,
            fencing_token, reservation_state,
        })
    }
}

/// The epoch that an update group is appended to.
#[derive(Clone, Copy, Debug, PartialEq, Eq, Structural)]
pub struct WritableEpoch {
    pub durable_sequence: i64,
    pub fencing_token: i64,
    pub base_version_id: Uuid,
}

impl WritableEpoch {
    /// What a row holds, read by its column names.
    #[verifier::opaque]
    pub open spec fn of_row(row: Row) -> Result<WritableEpoch, Fault> {
        if row.column::<i64>("durable_sequence"@) is Some
            && row.column::<i64>("fencing_token"@) is Some
            && row.column::<Uuid>("base_version_id"@) is Some {
            Ok(
                WritableEpoch {
                    durable_sequence: row.column::<i64>("durable_sequence"@)->0,
                    fencing_token: row.column::<i64>("fencing_token"@)->0,
                    base_version_id: row.column::<Uuid>("base_version_id"@)->0,
                },
            )
        } else {
            Err(Fault::Malformed)
        }
    }
}

impl FromRow for WritableEpoch {
    open spec fn row_spec(row: Row) -> Result<WritableEpoch, Fault> {
        WritableEpoch::of_row(row)
    }

    fn from_row(row: &Row) -> (r: Result<WritableEpoch, Fault>) {
        proof {
            reveal(WritableEpoch::of_row);
        }
        let durable_sequence: i64 = match row.get("durable_sequence") {
            Some(v) => v,
            None => return Err(Fault::Malformed),
        };
        let fencing_token: i64 = match row.get("fencing_token") {
            Some(v) => v,
            None => return Err(Fault::Malformed),
        };
        let base_version_id: Uuid = match row.get("base_version_id") {
            Some(v) => v,
            None => return Err(Fault::Malformed),
        };
        Ok(WritableEpoch { durable_sequence, fencing_token, base_version_id })
    }
}

/// An update group that a client sent before.
#[derive(Debug)]
pub struct StoredUpdateGroup {
    pub object_id: Uuid,
    pub first_sequence: i64,
    pub last_sequence: i64,
    pub state_digest: Arc<Vec<u8>>,
    pub mcp_invocation_id: Option<Uuid>,
    pub source_before_digest: Arc<Vec<u8>>,
    pub source_after_digest: Arc<Vec<u8>>,
    pub blake3: Arc<Vec<u8>>,
}

impl StoredUpdateGroup {
    /// What a row holds, read by its column names.
    #[verifier::opaque]
    pub open spec fn of_row(row: Row) -> Result<StoredUpdateGroup, Fault> {
        if row.column::<Uuid>("object_id"@) is Some
            && row.column::<i64>("first_sequence"@) is Some
            && row.column::<i64>("last_sequence"@) is Some
            && row.column::<Arc<Vec<u8>>>("state_digest"@) is Some
            && row.column::<Option<Uuid>>("mcp_invocation_id"@) is Some
            && row.column::<Arc<Vec<u8>>>("source_before_digest"@) is Some
            && row.column::<Arc<Vec<u8>>>("source_after_digest"@) is Some
            && row.column::<Arc<Vec<u8>>>("blake3"@) is Some {
            Ok(
                StoredUpdateGroup {
                    object_id: row.column::<Uuid>("object_id"@)->0,
                    first_sequence: row.column::<i64>("first_sequence"@)->0,
                    last_sequence: row.column::<i64>("last_sequence"@)->0,
                    state_digest: row.column::<Arc<Vec<u8>>>("state_digest"@)->0,
                    mcp_invocation_id: row.column::<Option<Uuid>>("mcp_invocation_id"@)->0,
                    source_before_digest: row.column::<Arc<Vec<u8>>>("source_before_digest"@)->0,
                    source_after_digest: row.column::<Arc<Vec<u8>>>("source_after_digest"@)->0,
                    blake3: row.column::<Arc<Vec<u8>>>("blake3"@)->0,
                },
            )
        } else {
            Err(Fault::Malformed)
        }
    }
}

impl FromRow for StoredUpdateGroup {
    open spec fn row_spec(row: Row) -> Result<StoredUpdateGroup, Fault> {
        StoredUpdateGroup::of_row(row)
    }

    fn from_row(row: &Row) -> (r: Result<StoredUpdateGroup, Fault>) {
        proof {
            reveal(StoredUpdateGroup::of_row);
        }
        let object_id: Uuid = match row.get("object_id") {
            Some(v) => v,
            None => return Err(Fault::Malformed),
        };
        let first_sequence: i64 = match row.get("first_sequence") {
            Some(v) => v,
            None => return Err(Fault::Malformed),
        };
        let last_sequence: i64 = match row.get("last_sequence") {
            Some(v) => v,
            None => return Err(Fault::Malformed),
        };
        let state_digest: Arc<Vec<u8>> = match row.get("state_digest") {
            Some(v) => v,
            None => return Err(Fault::Malformed),
        };
        let mcp_invocation_id: Option<Uuid> = match row.get("mcp_invocation_id") {
            Some(v) => v,
            None => return Err(Fault::Malformed),
        };
        let source_before_digest: Arc<Vec<u8>> = match row.get("source_before_digest") {
            Some(v) => v,
            None => return Err(Fault::Malformed),
        };
        let source_after_digest: Arc<Vec<u8>> = match row.get("source_after_digest") {
            Some(v) => v,
            None => return Err(Fault::Malformed),
        };
        let blake3: Arc<Vec<u8>> = match row.get("blake3") {
            Some(v) => v,
            None => return Err(Fault::Malformed),
        };
        Ok(StoredUpdateGroup {
            object_id, first_sequence, last_sequence, state_digest, mcp_invocation_id,
            source_before_digest, source_after_digest, blake3,
        })
    }
}

/// The epoch that a snapshot anchors.
#[derive(Clone, Copy, Debug, PartialEq, Eq, Structural)]
pub struct AnchorableEpoch {
    pub durable_sequence: i64,
    pub fencing_token: i64,
}

impl AnchorableEpoch {
    /// What a row holds, read by its column names.
    #[verifier::opaque]
    pub open spec fn of_row(row: Row) -> Result<AnchorableEpoch, Fault> {
        if row.column::<i64>("durable_sequence"@) is Some
            && row.column::<i64>("fencing_token"@) is Some {
            Ok(
                AnchorableEpoch {
                    durable_sequence: row.column::<i64>("durable_sequence"@)->0,
                    fencing_token: row.column::<i64>("fencing_token"@)->0,
                },
            )
        } else {
            Err(Fault::Malformed)
        }
    }
}

impl FromRow for AnchorableEpoch {
    open spec fn row_spec(row: Row) -> Result<AnchorableEpoch, Fault> {
        AnchorableEpoch::of_row(row)
    }

    fn from_row(row: &Row) -> (r: Result<AnchorableEpoch, Fault>) {
        proof {
            reveal(AnchorableEpoch::of_row);
        }
        let durable_sequence: i64 = match row.get("durable_sequence") {
            Some(v) => v,
            None => return Err(Fault::Malformed),
        };
        let fencing_token: i64 = match row.get("fencing_token") {
            Some(v) => v,
            None => return Err(Fault::Malformed),
        };
        Ok(AnchorableEpoch { durable_sequence, fencing_token })
    }
}

/// The snapshot that anchors an epoch so far.
#[derive(Clone, Copy, Debug, PartialEq, Eq, Structural)]
pub struct CurrentSnapshot {
    pub id: Uuid,
    pub object_id: Uuid,
    pub covered_sequence: i64,
}

impl CurrentSnapshot {
    /// What a row holds, read by its column names.
    #[verifier::opaque]
    pub open spec fn of_row(row: Row) -> Result<CurrentSnapshot, Fault> {
        if row.column::<Uuid>("id"@) is Some
            && row.column::<Uuid>("object_id"@) is Some
            && row.column::<i64>("covered_sequence"@) is Some {
            Ok(
                CurrentSnapshot {
                    id: row.column::<Uuid>("id"@)->0,
                    object_id: row.column::<Uuid>("object_id"@)->0,
                    covered_sequence: row.column::<i64>("covered_sequence"@)->0,
                },
            )
        } else {
            Err(Fault::Malformed)
        }
    }
}

impl FromRow for CurrentSnapshot {
    open spec fn row_spec(row: Row) -> Result<CurrentSnapshot, Fault> {
        CurrentSnapshot::of_row(row)
    }

    fn from_row(row: &Row) -> (r: Result<CurrentSnapshot, Fault>) {
        proof {
            reveal(CurrentSnapshot::of_row);
        }
        let id: Uuid = match row.get("id") {
            Some(v) => v,
            None => return Err(Fault::Malformed),
        };
        let object_id: Uuid = match row.get("object_id") {
            Some(v) => v,
            None => return Err(Fault::Malformed),
        };
        let covered_sequence: i64 = match row.get("covered_sequence") {
            Some(v) => v,
            None => return Err(Fault::Malformed),
        };
        Ok(CurrentSnapshot { id, object_id, covered_sequence })
    }
}

/// An object that is about to be abandoned.
#[derive(Debug)]
pub struct AbandonableObject {
    pub payload_id: Uuid,
    pub drive_id: Uuid,
    pub state: String,
    pub reserved_bytes: i64,
    pub size_bytes: Option<i64>,
    pub reservation_state: String,
}

impl AbandonableObject {
    /// What a row holds, read by its column names.
    #[verifier::opaque]
    pub open spec fn of_row(row: Row) -> Result<AbandonableObject, Fault> {
        if row.column::<Uuid>("payload_id"@) is Some
            && row.column::<Uuid>("drive_id"@) is Some
            && row.column::<String>("state"@) is Some
            && row.column::<i64>("reserved_bytes"@) is Some
            && row.column::<Option<i64>>("size_bytes"@) is Some
            && row.column::<String>("reservation_state"@) is Some {
            Ok(
                AbandonableObject {
                    payload_id: row.column::<Uuid>("payload_id"@)->0,
                    drive_id: row.column::<Uuid>("drive_id"@)->0,
                    state: row.column::<String>("state"@)->0,
                    reserved_bytes: row.column::<i64>("reserved_bytes"@)->0,
                    size_bytes: row.column::<Option<i64>>("size_bytes"@)->0,
                    reservation_state: row.column::<String>("reservation_state"@)->0,
                },
            )
        } else {
            Err(Fault::Malformed)
        }
    }
}

impl FromRow for AbandonableObject {
    open spec fn row_spec(row: Row) -> Result<AbandonableObject, Fault> {
        AbandonableObject::of_row(row)
    }

    fn from_row(row: &Row) -> (r: Result<AbandonableObject, Fault>) {
        proof {
            reveal(AbandonableObject::of_row);
        }
        let payload_id: Uuid = match row.get("payload_id") {
            Some(v) => v,
            None => return Err(Fault::Malformed),
        };
        let drive_id: Uuid = match row.get("drive_id") {
            Some(v) => v,
            None => return Err(Fault::Malformed),
        };
        let state: String = match row.get("state") {
            Some(v) => v,
            None => return Err(Fault::Malformed),
        };
        let reserved_bytes: i64 = match row.get("reserved_bytes") {
            Some(v) => v,
            None => return Err(Fault::Malformed),
        };
        let size_bytes: Option<i64> = match row.get("size_bytes") {
            Some(v) => v,
            None => return Err(Fault::Malformed),
        };
        let reservation_state: String = match row.get("reservation_state") {
            Some(v) => v,
            None => return Err(Fault::Malformed),
        };
        Ok(AbandonableObject { 
            payload_id, drive_id, state, reserved_bytes, size_bytes, reservation_state,
         })
    }
}

/// An object whose payload was deleted.
#[derive(Debug)]
pub struct DeletedObject {
    pub id: Uuid,
    pub drive_id: Uuid,
    pub size_bytes: Option<i64>,
    pub state: String,
    pub payload_state: String,
    pub reservation_state: String,
}

impl DeletedObject {
    /// What a row holds, read by its column names.
    #[verifier::opaque]
    pub open spec fn of_row(row: Row) -> Result<DeletedObject, Fault> {
        if row.column::<Uuid>("id"@) is Some
            && row.column::<Uuid>("drive_id"@) is Some
            && row.column::<Option<i64>>("size_bytes"@) is Some
            && row.column::<String>("state"@) is Some
            && row.column::<String>("payload_state"@) is Some
            && row.column::<String>("reservation_state"@) is Some {
            Ok(
                DeletedObject {
                    id: row.column::<Uuid>("id"@)->0,
                    drive_id: row.column::<Uuid>("drive_id"@)->0,
                    size_bytes: row.column::<Option<i64>>("size_bytes"@)->0,
                    state: row.column::<String>("state"@)->0,
                    payload_state: row.column::<String>("payload_state"@)->0,
                    reservation_state: row.column::<String>("reservation_state"@)->0,
                },
            )
        } else {
            Err(Fault::Malformed)
        }
    }
}

impl FromRow for DeletedObject {
    open spec fn row_spec(row: Row) -> Result<DeletedObject, Fault> {
        DeletedObject::of_row(row)
    }

    fn from_row(row: &Row) -> (r: Result<DeletedObject, Fault>) {
        proof {
            reveal(DeletedObject::of_row);
        }
        let id: Uuid = match row.get("id") {
            Some(v) => v,
            None => return Err(Fault::Malformed),
        };
        let drive_id: Uuid = match row.get("drive_id") {
            Some(v) => v,
            None => return Err(Fault::Malformed),
        };
        let size_bytes: Option<i64> = match row.get("size_bytes") {
            Some(v) => v,
            None => return Err(Fault::Malformed),
        };
        let state: String = match row.get("state") {
            Some(v) => v,
            None => return Err(Fault::Malformed),
        };
        let payload_state: String = match row.get("payload_state") {
            Some(v) => v,
            None => return Err(Fault::Malformed),
        };
        let reservation_state: String = match row.get("reservation_state") {
            Some(v) => v,
            None => return Err(Fault::Malformed),
        };
        Ok(DeletedObject { 
            id, drive_id, size_bytes, state, payload_state, reservation_state,
         })
    }
}

/// The bytes that the first `count` chunks hold together.
pub open spec fn bytes_before(chunks: Seq<CollaborationUpdateChunkInput>, count: int) -> int
    decreases count,
{
    if count <= 0 {
        0
    } else {
        bytes_before(chunks, count - 1) + chunks[count - 1].size_bytes
    }
}

/// Whether chunks make up an update group: between 1 and 16 of them, numbered and laid out one
/// behind the other from 0, each of at most 262,144 bytes, together at most 2,097,152.
pub open spec fn chunks_make_a_group(chunks: Seq<CollaborationUpdateChunkInput>) -> bool {
    &&& 1 <= chunks.len() <= 16
    &&& bytes_before(chunks, chunks.len() as int) <= 2_097_152
    &&& forall|i: int|
        0 <= i < chunks.len() ==> {
            &&& (#[trigger] chunks[i]).chunk_index == i
            &&& chunks[i].object_offset == bytes_before(chunks, i)
            &&& 0 < chunks[i].size_bytes <= 262_144
            &&& chunks[i].blake3@.len() == 32
        }
}

/// The number of bytes in an update group, where the chunks make up one.
pub fn group_size(chunks: &Vec<CollaborationUpdateChunkInput>) -> (total: Option<i64>)
    ensures
        total is Some <==> chunks_make_a_group(chunks@),
        total is Some ==> total->0 == bytes_before(chunks@, chunks@.len() as int),
{
    if chunks.len() == 0 || chunks.len() > 16 {
        return None;
    }
    let mut total: i64 = 0;
    let mut at: usize = 0;
    while at < chunks.len()
        invariant
            at <= chunks@.len() <= 16,
            total == bytes_before(chunks@, at as int),
            0 <= total <= at * 262_144,
            forall|i: int|
                0 <= i < at ==> {
                    &&& (#[trigger] chunks@[i]).chunk_index == i
                    &&& chunks@[i].object_offset == bytes_before(chunks@, i)
                    &&& 0 < chunks@[i].size_bytes <= 262_144
                    &&& chunks@[i].blake3@.len() == 32
                },
        decreases chunks@.len() - at,
    {
        let chunk: &CollaborationUpdateChunkInput = &chunks[at];
        if chunk.chunk_index != at as i32 || chunk.object_offset != total || chunk.size_bytes <= 0
            || chunk.size_bytes > 262_144 || chunk.blake3.len() != 32 {
            assert(!chunks_make_a_group(chunks@));
            return None;
        }
        total = total + chunk.size_bytes as i64;
        at = at + 1;
    }
    if total > 2_097_152 {
        return None;
    }
    Some(total)
}

impl Database {
    /// What stops `collaboration_prepare_checkpoint`, in order.
    pub open spec fn collaboration_prepare_checkpoint_fault<'a>(
        expected_fencing_token: i64, authorization: CollaborationAuthorizationContext,
        durable_sequence: i64, state_vector: &'a [u8], source_size_bytes: i64,
        source_blake3: &'a [u8], log: Seq<Reply>,
    ) -> Option<Fault> {
        let fence = log[1].required_row::<FenceGenerations>(DatabaseError::StaleGeneration)->Ok_0;
        let room = log[2].required_row::<CheckpointEpoch>(DatabaseError::Conflict)->Ok_0;
        let drawn = log[5].drawn_ids(1);
        if durable_sequence < 0 || state_vector@.len() > 1_048_576 || source_size_bytes < 0
            || source_size_bytes > 16_777_216 || source_blake3@.len() != 32 {
            Some(Fault::Error(DatabaseError::InvalidPersistedValue))
        } else if log.len() > 1
            && log[1].required_row::<FenceGenerations>(DatabaseError::StaleGeneration) is Err {
            Fault::of(log[1].required_row::<FenceGenerations>(DatabaseError::StaleGeneration))
        } else if log.len() > 1 && !fence.agrees_with(authorization.expected()) {
            Some(Fault::Error(DatabaseError::StaleGeneration))
        } else if log.len() > 2
            && log[2].required_row::<CheckpointEpoch>(DatabaseError::Conflict) is Err {
            Fault::of(log[2].required_row::<CheckpointEpoch>(DatabaseError::Conflict))
        } else if log.len() > 2 && (room.node_id != authorization.node_id
                || room.durable_sequence != durable_sequence
                || room.fencing_token != expected_fencing_token) {
            Some(Fault::Error(DatabaseError::StaleGeneration))
        } else if log.len() > 3 && log[3].single_row::<bool>() is Err {
            Fault::of(log[3].single_row::<bool>())
        } else if log.len() > 5 && drawn is Err {
            Fault::of(drawn)
        } else {
            None
        }
    }

    /// The commands of `collaboration_prepare_checkpoint`, in order.
    pub open spec fn collaboration_prepare_checkpoint_script<'a>(
        tenant_id: Uuid, room_id: Uuid, epoch: i64,
        authorization: CollaborationAuthorizationContext, durable_sequence: i64,
        state_vector: &'a [u8], source_size_bytes: i64, source_blake3: &'a [u8],
        log: Seq<Reply>,
    ) -> Seq<CommandView<'a>> {
        let room = log[2].required_row::<CheckpointEpoch>(DatabaseError::Conflict)->Ok_0;
        let mcp_assisted = log[3].single_row::<bool>()->Ok_0;
        let drawn = log[5].drawn_ids(1);
        let checkpoint_id = drawn->Ok_0[0];
        seq![
            CommandView::Begin,
            CommandView::optional(
                catalog::LOCK_COLLABORATION_AUTHORIZATION_FENCE,
                seq![
                    Param::Id(tenant_id), Param::Id(authorization.session_id),
                    Param::Id(authorization.principal_id), Param::Id(authorization.drive_id),
                    Param::Id(authorization.node_id),
                ],
            ),
            CommandView::optional(
                sql::PREPARE_CHECKPOINT_SELECT_EPOCHS,
                seq![Param::Id(tenant_id), Param::Id(room_id), Param::I64(epoch)],
            ),
            CommandView::one(
                sql::PREPARE_CHECKPOINT_EXISTS_UPDATE_GROUPS,
                seq![
                    Param::Id(tenant_id), Param::Id(room_id), Param::I64(epoch),
                    Param::I64(durable_sequence), Param::Id(authorization.node_id),
                    Param::Id(room.base_version_id),
                ],
            ),
            CommandView::execute(
                sql::PREPARE_CHECKPOINT_UPDATE_CHECKPOINTS,
                seq![Param::Id(tenant_id), Param::Id(room_id), Param::I64(epoch)],
            ),
            CommandView::DrawIds(1),
            CommandView::execute(
                sql::PREPARE_CHECKPOINT_INSERT_CHECKPOINTS,
                seq![
                    Param::Id(tenant_id), Param::Id(checkpoint_id), Param::Id(room_id),
                    Param::I64(epoch), Param::Id(room.node_id), Param::Id(room.base_version_id),
                    Param::I64(durable_sequence), Param::Bytes(state_vector),
                    Param::I64(source_size_bytes), Param::Bytes(source_blake3),
                    Param::Id(authorization.principal_id), Param::Bool(mcp_assisted),
                ],
            ),
            CommandView::Commit,
        ]
    }

    /// What `collaboration_prepare_checkpoint` returns.
    pub open spec fn collaboration_prepare_checkpoint_output(log: Seq<Reply>) -> Uuid {
        let drawn = log[5].drawn_ids(1);
        let checkpoint_id = drawn->Ok_0[0];
        checkpoint_id
    }

    /// Prepares a checkpoint of an epoch's durable state, and expires one prepared before.
    pub fn collaboration_prepare_checkpoint<'a>(
        tenant_id: Uuid, room_id: Uuid, epoch: i64, expected_fencing_token: i64,
        authorization: CollaborationAuthorizationContext, durable_sequence: i64,
        state_vector: &'a [u8], source_size_bytes: i64, source_blake3: &'a [u8],
        log: &'a [Reply],
    ) -> (step: Step<'a, Uuid>)
        ensures
            step@ == StepView::proceed(
                Self::collaboration_prepare_checkpoint_fault(
                    expected_fencing_token, authorization, durable_sequence, state_vector,
                    source_size_bytes, source_blake3, log@,
                ),
                Self::collaboration_prepare_checkpoint_script(
                    tenant_id, room_id, epoch, authorization, durable_sequence, state_vector,
                    source_size_bytes, source_blake3, log@,
                ),
                Self::collaboration_prepare_checkpoint_output(log@),
                log@,
            ),
    {
        if durable_sequence < 0 || state_vector.len() > 1_048_576 || source_size_bytes < 0
            || source_size_bytes > 16_777_216 || source_blake3.len() != 32 {
            return Step::Fail(DatabaseError::InvalidPersistedValue);
        }
        if log.len() == 0 {
            return Step::Ask(Command::Begin);
        }
        if log.len() <= 1 {
            return ask_optional(
                catalog::LOCK_COLLABORATION_AUTHORIZATION_FENCE,
                vec![
                    Param::Id(tenant_id), Param::Id(authorization.session_id),
                    Param::Id(authorization.principal_id), Param::Id(authorization.drive_id),
                    Param::Id(authorization.node_id),
                ],
            );
        }
        let fence: FenceGenerations = match required(&log[1], DatabaseError::StaleGeneration) {
            Ok(value) => value,
            Err(fault) => return stop(fault),
        };
        if !fence.agree(authorization.expected_generations()) {
            return Step::Fail(DatabaseError::StaleGeneration);
        }
        if log.len() <= 2 {
            return ask_optional(
                sql::PREPARE_CHECKPOINT_SELECT_EPOCHS,
                vec![Param::Id(tenant_id), Param::Id(room_id), Param::I64(epoch)],
            );
        }
        let room: CheckpointEpoch = match required(&log[2], DatabaseError::Conflict) {
            Ok(value) => value,
            Err(fault) => return stop(fault),
        };
        if room.node_id != authorization.node_id || room.durable_sequence != durable_sequence
            || room.fencing_token != expected_fencing_token {
            return Step::Fail(DatabaseError::StaleGeneration);
        }
        if log.len() <= 3 {
            return ask_one(
                sql::PREPARE_CHECKPOINT_EXISTS_UPDATE_GROUPS,
                vec![
                    Param::Id(tenant_id), Param::Id(room_id), Param::I64(epoch),
                    Param::I64(durable_sequence), Param::Id(authorization.node_id),
                    Param::Id(room.base_version_id),
                ],
            );
        }
        let mcp_assisted: bool = match single::<bool>(&log[3]) {
            Ok(value) => value,
            Err(fault) => return stop(fault),
        };
        if log.len() <= 4 {
            return ask_execute(
                sql::PREPARE_CHECKPOINT_UPDATE_CHECKPOINTS,
                vec![Param::Id(tenant_id), Param::Id(room_id), Param::I64(epoch)],
            );
        }
        if log.len() <= 5 {
            return Step::Ask(Command::DrawIds(1));
        }
        let drawn: &Vec<Uuid> = match drawn(&log[5], 1) {
            Ok(ids) => ids,
            Err(fault) => return stop(fault),
        };
        let checkpoint_id: Uuid = drawn[0];
        if log.len() <= 6 {
            return ask_execute(
                sql::PREPARE_CHECKPOINT_INSERT_CHECKPOINTS,
                vec![
                    Param::Id(tenant_id), Param::Id(checkpoint_id), Param::Id(room_id),
                    Param::I64(epoch), Param::Id(room.node_id), Param::Id(room.base_version_id),
                    Param::I64(durable_sequence), Param::Bytes(state_vector),
                    Param::I64(source_size_bytes), Param::Bytes(source_blake3),
                    Param::Id(authorization.principal_id), Param::Bool(mcp_assisted),
                ],
            );
        }
        if log.len() <= 7 {
            return Step::Ask(Command::Commit);
        }
        Step::Done(checkpoint_id)
    }

    /// `collaboration_prepare_checkpoint` runs in one transaction: it is done once its commit is
    /// acknowledged, and when it fails, nothing was committed.
    pub proof fn collaboration_prepare_checkpoint_is_atomic<'a>(
        tenant_id: Uuid, room_id: Uuid, epoch: i64, expected_fencing_token: i64,
        authorization: CollaborationAuthorizationContext, durable_sequence: i64,
        state_vector: &'a [u8], source_size_bytes: i64, source_blake3: &'a [u8],
        log: Seq<Reply>,
    )
        ensures
            crate::step::is_atomic(
                Self::collaboration_prepare_checkpoint_script(
                    tenant_id, room_id, epoch, authorization, durable_sequence, state_vector,
                    source_size_bytes, source_blake3, log,
                ),
                0,
            ),
            crate::step::commit_acknowledged(
                Self::collaboration_prepare_checkpoint_fault(
                    expected_fencing_token, authorization, durable_sequence, state_vector,
                    source_size_bytes, source_blake3, log.drop_last(),
                ),
                Self::collaboration_prepare_checkpoint_script(
                    tenant_id, room_id, epoch, authorization, durable_sequence, state_vector,
                    source_size_bytes, source_blake3, log.drop_last(),
                ),
                log,
            ) ==> {
                &&& Self::collaboration_prepare_checkpoint_fault(
                    expected_fencing_token, authorization, durable_sequence, state_vector,
                    source_size_bytes, source_blake3, log,
                ) is None
                &&& log.len() == Self::collaboration_prepare_checkpoint_script(
                    tenant_id, room_id, epoch, authorization, durable_sequence, state_vector,
                    source_size_bytes, source_blake3, log,
                ).len()
            },
    {
    }

    /// `collaboration_prepare_checkpoint` goes past its fence only where the generations that it
    /// has locked are those that the caller was authorized under.
    pub proof fn collaboration_prepare_checkpoint_is_fenced<'a>(
        expected_fencing_token: i64, authorization: CollaborationAuthorizationContext,
        durable_sequence: i64, state_vector: &'a [u8], source_size_bytes: i64,
        source_blake3: &'a [u8], log: Seq<Reply>,
    )
        ensures
            ({
                let fence =
                    log[1].required_row::<FenceGenerations>(DatabaseError::StaleGeneration)->Ok_0;
                Self::collaboration_prepare_checkpoint_fault(
                    expected_fencing_token, authorization, durable_sequence, state_vector,
                    source_size_bytes, source_blake3, log,
                ) is None && log.len() > 1
                    ==> log[1].required_row::<FenceGenerations>(
                        DatabaseError::StaleGeneration,
                    ) is Ok
                    && fence.agrees_with(authorization.expected())
            }),
    {
    }

    /// Every statement of `collaboration_prepare_checkpoint` is about its tenant.
    pub proof fn collaboration_prepare_checkpoint_is_scoped<'a>(
        tenant_id: Uuid,
        room_id: Uuid,
        epoch: i64,
        authorization: CollaborationAuthorizationContext,
        durable_sequence: i64,
        state_vector: &'a [u8],
        source_size_bytes: i64,
        source_blake3: &'a [u8],
        log: Seq<Reply>,
    )
        ensures
            crate::step::is_scoped(
                Self::collaboration_prepare_checkpoint_script(
                    tenant_id, room_id, epoch, authorization, durable_sequence, state_vector,
                    source_size_bytes, source_blake3, log,
                ),
                tenant_id,
            ),
    {
    }

    /// What stops `collaboration_join_participant`, in order.
    pub open spec fn collaboration_join_participant_fault(
        max_participants: i64,
        log: Seq<Reply>,
    ) -> Option<Fault> {
        let present = log[3].single_row::<i64>()->Ok_0;
        let drawn = log[4].drawn_ids(1);
        if max_participants < 1 || max_participants > 32 {
            Some(Fault::Error(DatabaseError::InvalidPersistedValue))
        } else if log.len() > 1 && log[1].required_row::<()>(DatabaseError::Conflict) is Err {
            Fault::of(log[1].required_row::<()>(DatabaseError::Conflict))
        } else if log.len() > 3 && log[3].single_row::<i64>() is Err {
            Fault::of(log[3].single_row::<i64>())
        } else if log.len() > 3 && present >= max_participants {
            Some(Fault::Error(DatabaseError::AdmissionLimited))
        } else if log.len() > 4 && drawn is Err {
            Fault::of(drawn)
        } else if log.len() > 5 && log[5].one_affected(DatabaseError::Conflict) is Err {
            Fault::of(log[5].one_affected(DatabaseError::Conflict))
        } else {
            None
        }
    }

    /// The commands of `collaboration_join_participant`, in order.
    pub open spec fn collaboration_join_participant_script<'a>(
        tenant_id: Uuid, room_id: Uuid, epoch: i64, client_id: Uuid, principal_id: Uuid,
        session_id: Uuid, log: Seq<Reply>,
    ) -> Seq<CommandView<'a>> {
        let drawn = log[4].drawn_ids(1);
        let connection_id = drawn->Ok_0[0];
        seq![
            CommandView::Begin,
            CommandView::optional(
                sql::JOIN_PARTICIPANT_SELECT_EPOCHS,
                seq![Param::Id(tenant_id), Param::Id(room_id), Param::I64(epoch)],
            ),
            CommandView::execute(
                sql::JOIN_PARTICIPANT_DELETE_PARTICIPANTS,
                seq![Param::Id(tenant_id), Param::Id(room_id), Param::I64(epoch)],
            ),
            CommandView::one(
                sql::JOIN_PARTICIPANT_COUNT_PARTICIPANTS,
                seq![Param::Id(tenant_id), Param::Id(room_id), Param::I64(epoch)],
            ),
            CommandView::DrawIds(1),
            CommandView::execute(
                sql::JOIN_PARTICIPANT_INSERT_PARTICIPANTS,
                seq![
                    Param::Id(tenant_id), Param::Id(room_id), Param::I64(epoch),
                    Param::Id(client_id), Param::Id(connection_id), Param::Id(principal_id),
                    Param::Id(session_id),
                ],
            ),
            CommandView::Commit,
        ]
    }

    /// What `collaboration_join_participant` returns.
    pub open spec fn collaboration_join_participant_output(log: Seq<Reply>) -> Uuid {
        let drawn = log[4].drawn_ids(1);
        let connection_id = drawn->Ok_0[0];
        connection_id
    }

    /// Admits a participant to an active epoch. A client that is already connected is not replaced.
    pub fn collaboration_join_participant<'a>(
        tenant_id: Uuid, room_id: Uuid, epoch: i64, client_id: Uuid, principal_id: Uuid,
        session_id: Uuid, max_participants: i64, log: &'a [Reply],
    ) -> (step: Step<'a, Uuid>)
        ensures
            step@ == StepView::proceed(
                Self::collaboration_join_participant_fault(max_participants, log@),
                Self::collaboration_join_participant_script(
                    tenant_id, room_id, epoch, client_id, principal_id, session_id, log@,
                ),
                Self::collaboration_join_participant_output(log@),
                log@,
            ),
    {
        if max_participants < 1 || max_participants > 32 {
            return Step::Fail(DatabaseError::InvalidPersistedValue);
        }
        if log.len() == 0 {
            return Step::Ask(Command::Begin);
        }
        if log.len() <= 1 {
            return ask_optional(
                sql::JOIN_PARTICIPANT_SELECT_EPOCHS,
                vec![Param::Id(tenant_id), Param::Id(room_id), Param::I64(epoch)],
            );
        }
        let active: () = match required::<()>(&log[1], DatabaseError::Conflict) {
            Ok(value) => value,
            Err(fault) => return stop(fault),
        };
        if log.len() <= 2 {
            return ask_execute(
                sql::JOIN_PARTICIPANT_DELETE_PARTICIPANTS,
                vec![Param::Id(tenant_id), Param::Id(room_id), Param::I64(epoch)],
            );
        }
        if log.len() <= 3 {
            return ask_one(
                sql::JOIN_PARTICIPANT_COUNT_PARTICIPANTS,
                vec![Param::Id(tenant_id), Param::Id(room_id), Param::I64(epoch)],
            );
        }
        let present: i64 = match single::<i64>(&log[3]) {
            Ok(value) => value,
            Err(fault) => return stop(fault),
        };
        if present >= max_participants {
            return Step::Fail(DatabaseError::AdmissionLimited);
        }
        if log.len() <= 4 {
            return Step::Ask(Command::DrawIds(1));
        }
        let drawn: &Vec<Uuid> = match drawn(&log[4], 1) {
            Ok(ids) => ids,
            Err(fault) => return stop(fault),
        };
        let connection_id: Uuid = drawn[0];
        if log.len() <= 5 {
            return ask_execute(
                sql::JOIN_PARTICIPANT_INSERT_PARTICIPANTS,
                vec![
                    Param::Id(tenant_id), Param::Id(room_id), Param::I64(epoch),
                    Param::Id(client_id), Param::Id(connection_id), Param::Id(principal_id),
                    Param::Id(session_id),
                ],
            );
        }
        if let Err(fault) = exactly_one(&log[5], DatabaseError::Conflict) {
            return stop(fault);
        }
        if log.len() <= 6 {
            return Step::Ask(Command::Commit);
        }
        Step::Done(connection_id)
    }

    /// `collaboration_join_participant` runs in one transaction: it is done once its commit is
    /// acknowledged, and when it fails, nothing was committed.
    pub proof fn collaboration_join_participant_is_atomic(
        tenant_id: Uuid, room_id: Uuid, epoch: i64, client_id: Uuid, principal_id: Uuid,
        session_id: Uuid, max_participants: i64, log: Seq<Reply>,
    )
        ensures
            crate::step::is_atomic(
                Self::collaboration_join_participant_script(
                    tenant_id, room_id, epoch, client_id, principal_id, session_id, log,
                ),
                0,
            ),
            crate::step::commit_acknowledged(
                Self::collaboration_join_participant_fault(max_participants, log.drop_last()),
                Self::collaboration_join_participant_script(
                    tenant_id, room_id, epoch, client_id, principal_id, session_id, log.drop_last(),
                ),
                log,
            ) ==> {
                &&& Self::collaboration_join_participant_fault(max_participants, log) is None
                &&& log.len() == Self::collaboration_join_participant_script(
                    tenant_id, room_id, epoch, client_id, principal_id, session_id, log,
                ).len()
            },
    {
    }

    /// Every statement of `collaboration_join_participant` is about its tenant.
    pub proof fn collaboration_join_participant_is_scoped(
        tenant_id: Uuid, room_id: Uuid, epoch: i64, client_id: Uuid, principal_id: Uuid,
        session_id: Uuid, log: Seq<Reply>,
    )
        ensures
            crate::step::is_scoped(
                Self::collaboration_join_participant_script(
                    tenant_id, room_id, epoch, client_id, principal_id, session_id, log,
                ),
                tenant_id,
            ),
    {
    }

    /// What stops `collaboration_heartbeat_participant`, in order.
    pub open spec fn collaboration_heartbeat_participant_fault(log: Seq<Reply>) -> Option<Fault> {
        if log.len() > 0 && log[0].one_affected(DatabaseError::StaleGeneration) is Err {
            Fault::of(log[0].one_affected(DatabaseError::StaleGeneration))
        } else {
            None
        }
    }

    /// The commands of `collaboration_heartbeat_participant`, in order.
    pub open spec fn collaboration_heartbeat_participant_script<'a>(
        tenant_id: Uuid, connection_id: Uuid, log: Seq<Reply>,
    ) -> Seq<CommandView<'a>> {
        seq![
            CommandView::execute(
                sql::HEARTBEAT_PARTICIPANT,
                seq![Param::Id(tenant_id), Param::Id(connection_id)],
            ),
        ]
    }

    /// Extends a participant's presence.
    pub fn collaboration_heartbeat_participant<'a>(
        tenant_id: Uuid, connection_id: Uuid, log: &'a [Reply],
    ) -> (step: Step<'a, ()>)
        ensures
            step@ == StepView::proceed(
                Self::collaboration_heartbeat_participant_fault(log@),
                Self::collaboration_heartbeat_participant_script(tenant_id, connection_id, log@),
                (),
                log@,
            ),
    {
        if log.len() == 0 {
            return ask_execute(
                sql::HEARTBEAT_PARTICIPANT,
                vec![Param::Id(tenant_id), Param::Id(connection_id)],
            );
        }
        if let Err(fault) = exactly_one(&log[0], DatabaseError::StaleGeneration) {
            return stop(fault);
        }
        Step::Done(())
    }

    /// Every statement of `collaboration_heartbeat_participant` is about its tenant.
    pub proof fn collaboration_heartbeat_participant_is_scoped(
        tenant_id: Uuid, connection_id: Uuid, log: Seq<Reply>,
    )
        ensures
            crate::step::is_scoped(
                Self::collaboration_heartbeat_participant_script(tenant_id, connection_id, log),
                tenant_id,
            ),
    {
    }

    /// The commands of `collaboration_leave_participant`, in order.
    pub open spec fn collaboration_leave_participant_script<'a>(
        tenant_id: Uuid, connection_id: Uuid, log: Seq<Reply>,
    ) -> Seq<CommandView<'a>> {
        seq![
            CommandView::execute(
                sql::LEAVE_PARTICIPANT,
                seq![Param::Id(tenant_id), Param::Id(connection_id)],
            ),
        ]
    }

    /// Removes a participant.
    pub fn collaboration_leave_participant<'a>(
        tenant_id: Uuid, connection_id: Uuid, log: &'a [Reply],
    ) -> (step: Step<'a, ()>)
        ensures
            step@ == StepView::proceed(
                None,
                Self::collaboration_leave_participant_script(tenant_id, connection_id, log@),
                (),
                log@,
            ),
    {
        if log.len() == 0 {
            return ask_execute(
                sql::LEAVE_PARTICIPANT,
                vec![Param::Id(tenant_id), Param::Id(connection_id)],
            );
        }
        Step::Done(())
    }

    /// Every statement of `collaboration_leave_participant` is about its tenant.
    pub proof fn collaboration_leave_participant_is_scoped(
        tenant_id: Uuid, connection_id: Uuid, log: Seq<Reply>,
    )
        ensures
            crate::step::is_scoped(
                Self::collaboration_leave_participant_script(tenant_id, connection_id, log),
                tenant_id,
            ),
    {
    }

    /// What stops `collaboration_epoch_is_current`, in order.
    pub open spec fn collaboration_epoch_is_current_fault(log: Seq<Reply>) -> Option<Fault> {
        if log.len() > 0 && log[0].single_row::<bool>() is Err {
            Fault::of(log[0].single_row::<bool>())
        } else {
            None
        }
    }

    /// The commands of `collaboration_epoch_is_current`, in order.
    pub open spec fn collaboration_epoch_is_current_script<'a>(
        tenant_id: Uuid, room_id: Uuid, epoch: i64, expected_fencing_token: i64,
        base_version_id: Uuid, log: Seq<Reply>,
    ) -> Seq<CommandView<'a>> {
        seq![
            CommandView::one(
                sql::EPOCH_IS_CURRENT,
                seq![
                    Param::Id(tenant_id), Param::Id(room_id), Param::I64(epoch),
                    Param::I64(expected_fencing_token), Param::Id(base_version_id),
                ],
            ),
        ]
    }

    /// What `collaboration_epoch_is_current` returns.
    pub open spec fn collaboration_epoch_is_current_output(log: Seq<Reply>) -> bool {
        let current = log[0].single_row::<bool>()->Ok_0;
        current
    }

    /// Whether an epoch is active under this token and still based on the file's head version.
    pub fn collaboration_epoch_is_current<'a>(
        tenant_id: Uuid, room_id: Uuid, epoch: i64, expected_fencing_token: i64,
        base_version_id: Uuid, log: &'a [Reply],
    ) -> (step: Step<'a, bool>)
        ensures
            step@ == StepView::proceed(
                Self::collaboration_epoch_is_current_fault(log@),
                Self::collaboration_epoch_is_current_script(
                    tenant_id, room_id, epoch, expected_fencing_token, base_version_id, log@,
                ),
                Self::collaboration_epoch_is_current_output(log@),
                log@,
            ),
    {
        if log.len() == 0 {
            return ask_one(
                sql::EPOCH_IS_CURRENT,
                vec![
                    Param::Id(tenant_id), Param::Id(room_id), Param::I64(epoch),
                    Param::I64(expected_fencing_token), Param::Id(base_version_id),
                ],
            );
        }
        let current: bool = match single::<bool>(&log[0]) {
            Ok(value) => value,
            Err(fault) => return stop(fault),
        };
        Step::Done(current)
    }

    /// Every statement of `collaboration_epoch_is_current` is about its tenant.
    pub proof fn collaboration_epoch_is_current_is_scoped(
        tenant_id: Uuid, room_id: Uuid, epoch: i64, expected_fencing_token: i64,
        base_version_id: Uuid, log: Seq<Reply>,
    )
        ensures
            crate::step::is_scoped(
                Self::collaboration_epoch_is_current_script(
                    tenant_id, room_id, epoch, expected_fencing_token, base_version_id, log,
                ),
                tenant_id,
            ),
    {
    }

    /// What stops `collaboration_room`, in order.
    pub open spec fn collaboration_room_fault(log: Seq<Reply>) -> Option<Fault> {
        if log.len() > 0 && log[0].optional_row::<CollaborationSummaryRecord>() is Err {
            Fault::of(log[0].optional_row::<CollaborationSummaryRecord>())
        } else {
            None
        }
    }

    /// The commands of `collaboration_room`, in order.
    pub open spec fn collaboration_room_script<'a>(
        tenant_id: Uuid, drive_id: Uuid, node_id: Uuid, log: Seq<Reply>,
    ) -> Seq<CommandView<'a>> {
        seq![
            CommandView::optional(
                sql::ROOM,
                seq![Param::Id(tenant_id), Param::Id(drive_id), Param::Id(node_id)],
            ),
        ]
    }

    /// What `collaboration_room` returns.
    pub open spec fn collaboration_room_output(
        log: Seq<Reply>,
    ) -> Option<CollaborationSummaryRecord> {
        let room = log[0].optional_row::<CollaborationSummaryRecord>()->Ok_0;
        room
    }

    /// Looks up the room of a file, if it has one.
    pub fn collaboration_room<'a>(
        tenant_id: Uuid, drive_id: Uuid, node_id: Uuid, log: &'a [Reply],
    ) -> (step: Step<'a, Option<CollaborationSummaryRecord>>)
        ensures
            step@ == StepView::proceed(
                Self::collaboration_room_fault(log@),
                Self::collaboration_room_script(tenant_id, drive_id, node_id, log@),
                Self::collaboration_room_output(log@),
                log@,
            ),
    {
        if log.len() == 0 {
            return ask_optional(
                sql::ROOM,
                vec![Param::Id(tenant_id), Param::Id(drive_id), Param::Id(node_id)],
            );
        }
        let room: Option<CollaborationSummaryRecord> = match optional(&log[0]) {
            Ok(value) => value,
            Err(fault) => return stop(fault),
        };
        Step::Done(room)
    }

    /// Every statement of `collaboration_room` is about its tenant.
    pub proof fn collaboration_room_is_scoped(
        tenant_id: Uuid, drive_id: Uuid, node_id: Uuid, log: Seq<Reply>,
    )
        ensures
            crate::step::is_scoped(
                Self::collaboration_room_script(tenant_id, drive_id, node_id, log),
                tenant_id,
            ),
    {
    }

    /// What stops `collaboration_get_or_create_room`, in order.
    pub open spec fn collaboration_get_or_create_room_fault(
        base_version_id: Uuid,
        log: Seq<Reply>,
    ) -> Option<Fault> {
        let room = log[1].optional_row::<CollaborationSummaryRecord>()->Ok_0;
        let current = room->0;
        let drawn = log[2].drawn_ids(1);
        if log.len() > 1 && log[1].optional_row::<CollaborationSummaryRecord>() is Err {
            Fault::of(log[1].optional_row::<CollaborationSummaryRecord>())
        } else if log.len() > 1 && room is Some {
            if log.len() > 1
                && current.state@ == "active"@
                && current.base_version_id != base_version_id {
                if log.len() > 3 {
                    Some(Fault::Error(DatabaseError::Conflict))
                } else {
                    None
                }
            } else if log.len() > 1 && current.state@ == "active"@ {
                None
            } else if log.len() > 1 && current.state@ == "frozen"@ {
                if log.len() > 2 {
                    Some(Fault::Error(DatabaseError::Conflict))
                } else {
                    None
                }
            } else if log.len() > 1 && current.epoch == i64::MAX {
                Some(Fault::Error(DatabaseError::InvalidPersistedValue))
            } else if log.len() > 2 && log[2].single_row::<CollaborationSummaryRecord>() is Err {
                Fault::of(log[2].single_row::<CollaborationSummaryRecord>())
            } else {
                None
            }
        } else if log.len() > 2 && drawn is Err {
            Fault::of(drawn)
        } else if log.len() > 4 && log[4].single_row::<CollaborationSummaryRecord>() is Err {
            Fault::of(log[4].single_row::<CollaborationSummaryRecord>())
        } else {
            None
        }
    }

    /// The commands of `collaboration_get_or_create_room`, in order.
    pub open spec fn collaboration_get_or_create_room_script<'a>(
        tenant_id: Uuid, drive_id: Uuid, node_id: Uuid, base_version_id: Uuid, created_by: Uuid,
        log: Seq<Reply>,
    ) -> Seq<CommandView<'a>> {
        let room = log[1].optional_row::<CollaborationSummaryRecord>()->Ok_0;
        let current = room->0;
        let next_epoch = (current.epoch + 1) as i64;
        let drawn = log[2].drawn_ids(1);
        let room_id = drawn->Ok_0[0];
        seq![
            CommandView::Begin,
            CommandView::optional(
                sql::GET_OR_CREATE_ROOM_SELECT_ROOMS,
                seq![Param::Id(tenant_id), Param::Id(drive_id), Param::Id(node_id)],
            ),
        ].add(
            if room is Some {
                if current.state@ == "active"@ && current.base_version_id != base_version_id {
                    seq![
                        CommandView::execute(
                            sql::GET_OR_CREATE_ROOM_UPDATE_EPOCHS,
                            seq![
                                Param::Id(tenant_id), Param::Id(current.room_id),
                                Param::I64(current.epoch),
                            ],
                        ),
                        CommandView::Commit,
                    ]
                } else {
                    if current.state@ == "active"@ {
                        seq![CommandView::Commit]
                    } else {
                        if current.state@ == "frozen"@ {
                            seq![CommandView::Commit]
                        } else {
                            seq![
                                CommandView::one(
                                    sql::GET_OR_CREATE_ROOM_INSERT_EPOCHS,
                                    seq![
                                        Param::Id(tenant_id), Param::Id(current.room_id),
                                        Param::I64(next_epoch),
                                        Param::Id(drive_id), Param::Id(node_id),
                                        Param::Id(base_version_id),
                                    ],
                                ),
                                CommandView::execute(
                                    sql::GET_OR_CREATE_ROOM_UPDATE_ROOMS,
                                    seq![
                                        Param::Id(tenant_id), Param::Id(current.room_id),
                                        Param::I64(next_epoch),
                                    ],
                                ),
                                CommandView::Commit,
                            ]
                        }
                    }
                }
            } else {
                seq![
                    CommandView::DrawIds(1),
                    CommandView::execute(
                        sql::GET_OR_CREATE_ROOM_INSERT_ROOMS,
                        seq![
                            Param::Id(tenant_id), Param::Id(room_id), Param::Id(drive_id),
                            Param::Id(node_id), Param::Id(created_by),
                        ],
                    ),
                    CommandView::one(
                        sql::GET_OR_CREATE_ROOM_INSERT_EPOCHS_2,
                        seq![
                            Param::Id(tenant_id), Param::Id(room_id), Param::Id(drive_id),
                            Param::Id(node_id), Param::Id(base_version_id),
                        ],
                    ),
                    CommandView::Commit,
                ]
            },
        )
    }

    /// What `collaboration_get_or_create_room` returns.
    pub open spec fn collaboration_get_or_create_room_output(
        log: Seq<Reply>,
    ) -> CollaborationSummaryRecord {
        let room = log[1].optional_row::<CollaborationSummaryRecord>()->Ok_0;
        let current = room->0;
        let next = log[2].single_row::<CollaborationSummaryRecord>()->Ok_0;
        let created = log[4].single_row::<CollaborationSummaryRecord>()->Ok_0;
        if room is Some {
            if current.state@ == "active"@ {
                current
            } else {
                next
            }
        } else {
            created
        }
    }

    /// Opens the room of a file on its base version. An active epoch on another base is frozen, a
    /// frozen one stays so, and both are conflicts; a closed one is followed by a new epoch.
    pub fn collaboration_get_or_create_room<'a>(
        tenant_id: Uuid, drive_id: Uuid, node_id: Uuid, base_version_id: Uuid, created_by: Uuid,
        log: &'a [Reply],
    ) -> (step: Step<'a, CollaborationSummaryRecord>)
        ensures
            step@ == StepView::proceed(
                Self::collaboration_get_or_create_room_fault(base_version_id, log@),
                Self::collaboration_get_or_create_room_script(
                    tenant_id, drive_id, node_id, base_version_id, created_by, log@,
                ),
                Self::collaboration_get_or_create_room_output(log@),
                log@,
            ),
    {
        if log.len() == 0 {
            return Step::Ask(Command::Begin);
        }
        if log.len() <= 1 {
            return ask_optional(
                sql::GET_OR_CREATE_ROOM_SELECT_ROOMS,
                vec![Param::Id(tenant_id), Param::Id(drive_id), Param::Id(node_id)],
            );
        }
        let room: Option<CollaborationSummaryRecord> = match optional(&log[1]) {
            Ok(value) => value,
            Err(fault) => return stop(fault),
        };
        if room.is_some() {
            let current: CollaborationSummaryRecord = room.unwrap();
            if text_eq(current.state.as_str(), "active")
                && current.base_version_id != base_version_id {
                if log.len() <= 2 {
                    return ask_execute(
                        sql::GET_OR_CREATE_ROOM_UPDATE_EPOCHS,
                        vec![
                            Param::Id(tenant_id), Param::Id(current.room_id),
                            Param::I64(current.epoch),
                        ],
                    );
                }
                if log.len() <= 3 {
                    return Step::Ask(Command::Commit);
                }
                return Step::Fail(DatabaseError::Conflict);
            }
            if text_eq(current.state.as_str(), "active") {
                if log.len() <= 2 {
                    return Step::Ask(Command::Commit);
                }
                return Step::Done(current);
            }
            if text_eq(current.state.as_str(), "frozen") {
                if log.len() <= 2 {
                    return Step::Ask(Command::Commit);
                }
                return Step::Fail(DatabaseError::Conflict);
            }
            if current.epoch == i64::MAX {
                return Step::Fail(DatabaseError::InvalidPersistedValue);
            }
            let next_epoch: i64 = current.epoch + 1;
            if log.len() <= 2 {
                return ask_one(
                    sql::GET_OR_CREATE_ROOM_INSERT_EPOCHS,
                    vec![
                        Param::Id(tenant_id), Param::Id(current.room_id),
                        Param::I64(next_epoch), Param::Id(drive_id), Param::Id(node_id),
                        Param::Id(base_version_id),
                    ],
                );
            }
            let next: CollaborationSummaryRecord = match single(&log[2]) {
                Ok(value) => value,
                Err(fault) => return stop(fault),
            };
            if log.len() <= 3 {
                return ask_execute(
                    sql::GET_OR_CREATE_ROOM_UPDATE_ROOMS,
                    vec![
                        Param::Id(tenant_id), Param::Id(current.room_id),
                        Param::I64(next_epoch),
                    ],
                );
            }
            if log.len() <= 4 {
                return Step::Ask(Command::Commit);
            }
            return Step::Done(next);
        }
        if log.len() <= 2 {
            return Step::Ask(Command::DrawIds(1));
        }
        let drawn: &Vec<Uuid> = match drawn(&log[2], 1) {
            Ok(ids) => ids,
            Err(fault) => return stop(fault),
        };
        let room_id: Uuid = drawn[0];
        if log.len() <= 3 {
            return ask_execute(
                sql::GET_OR_CREATE_ROOM_INSERT_ROOMS,
                vec![
                    Param::Id(tenant_id), Param::Id(room_id), Param::Id(drive_id),
                    Param::Id(node_id), Param::Id(created_by),
                ],
            );
        }
        if log.len() <= 4 {
            return ask_one(
                sql::GET_OR_CREATE_ROOM_INSERT_EPOCHS_2,
                vec![
                    Param::Id(tenant_id), Param::Id(room_id), Param::Id(drive_id),
                    Param::Id(node_id), Param::Id(base_version_id),
                ],
            );
        }
        let created: CollaborationSummaryRecord = match single(&log[4]) {
            Ok(value) => value,
            Err(fault) => return stop(fault),
        };
        if log.len() <= 5 {
            return Step::Ask(Command::Commit);
        }
        Step::Done(created)
    }

    /// `collaboration_get_or_create_room` runs in one transaction. Once its commit is acknowledged,
    /// it is done, or it reports the refusal that it has made durable.
    pub proof fn collaboration_get_or_create_room_is_atomic(
        tenant_id: Uuid, drive_id: Uuid, node_id: Uuid, base_version_id: Uuid, created_by: Uuid,
        log: Seq<Reply>,
    )
        ensures
            crate::step::is_atomic(
                Self::collaboration_get_or_create_room_script(
                    tenant_id, drive_id, node_id, base_version_id, created_by, log,
                ),
                0,
            ),
            crate::step::commit_acknowledged(
                Self::collaboration_get_or_create_room_fault(base_version_id, log.drop_last()),
                Self::collaboration_get_or_create_room_script(
                    tenant_id, drive_id, node_id, base_version_id, created_by, log.drop_last(),
                ),
                log,
            ) ==> {
                ||| Self::collaboration_get_or_create_room_fault(base_version_id, log) is None
                    && log.len() == Self::collaboration_get_or_create_room_script(
                        tenant_id, drive_id, node_id, base_version_id, created_by, log,
                    ).len()
                ||| Self::collaboration_get_or_create_room_fault(base_version_id, log) == Some(
                    Fault::Error(DatabaseError::Conflict),
                )
            },
    {
    }

    /// Every statement of `collaboration_get_or_create_room` is about its tenant.
    pub proof fn collaboration_get_or_create_room_is_scoped(
        tenant_id: Uuid, drive_id: Uuid, node_id: Uuid, base_version_id: Uuid, created_by: Uuid,
        log: Seq<Reply>,
    )
        ensures
            crate::step::is_scoped(
                Self::collaboration_get_or_create_room_script(
                    tenant_id, drive_id, node_id, base_version_id, created_by, log,
                ),
                tenant_id,
            ),
    {
    }

    /// What stops `collaboration_create_join_grant`, in order.
    pub open spec fn collaboration_create_join_grant_fault(log: Seq<Reply>) -> Option<Fault> {
        if log.len() > 0
            && log[0].required_row::<CollaborationJoinGrantRecord>(DatabaseError::Conflict) is Err {
            Fault::of(log[0].required_row::<CollaborationJoinGrantRecord>(DatabaseError::Conflict))
        } else {
            None
        }
    }

    /// The commands of `collaboration_create_join_grant`, in order.
    pub open spec fn collaboration_create_join_grant_script<'a>(
        tenant_id: Uuid, id: Uuid, room_id: Uuid, epoch: i64, token_digest: &'a [u8],
        principal_id: Uuid, session_id: Uuid, client_id: Uuid, presence_mode: &'a str,
        presence_label: &'a str, resource_acl_generation: i64, drive_acl_generation: i64,
        membership_generation: i64, namespace_generation: i64, can_checkpoint: bool,
        log: Seq<Reply>,
    ) -> Seq<CommandView<'a>> {
        seq![
            CommandView::optional(
                sql::CREATE_JOIN_GRANT,
                seq![
                    Param::Id(tenant_id), Param::Id(id), Param::Bytes(token_digest),
                    Param::Id(room_id), Param::I64(epoch), Param::Id(principal_id),
                    Param::Id(session_id), Param::Id(client_id), Param::Text(presence_mode),
                    Param::Text(presence_label), Param::I64(resource_acl_generation),
                    Param::I64(drive_acl_generation), Param::I64(membership_generation),
                    Param::I64(namespace_generation), Param::Bool(can_checkpoint),
                ],
            ),
        ]
    }

    /// What `collaboration_create_join_grant` returns.
    pub open spec fn collaboration_create_join_grant_output(
        log: Seq<Reply>,
    ) -> CollaborationJoinGrantRecord {
        let grant =
            log[0].required_row::<CollaborationJoinGrantRecord>(DatabaseError::Conflict)->Ok_0;
        grant
    }

    /// Issues a one-time admission to an active epoch.
    pub fn collaboration_create_join_grant<'a>(
        tenant_id: Uuid, id: Uuid, room_id: Uuid, epoch: i64, token_digest: &'a [u8],
        principal_id: Uuid, session_id: Uuid, client_id: Uuid, presence_mode: &'a str,
        presence_label: &'a str, resource_acl_generation: i64, drive_acl_generation: i64,
        membership_generation: i64, namespace_generation: i64, can_checkpoint: bool,
        log: &'a [Reply],
    ) -> (step: Step<'a, CollaborationJoinGrantRecord>)
        ensures
            step@ == StepView::proceed(
                Self::collaboration_create_join_grant_fault(log@),
                Self::collaboration_create_join_grant_script(
                    tenant_id, id, room_id, epoch, token_digest, principal_id, session_id,
                    client_id, presence_mode, presence_label, resource_acl_generation,
                    drive_acl_generation, membership_generation, namespace_generation,
                    can_checkpoint, log@,
                ),
                Self::collaboration_create_join_grant_output(log@),
                log@,
            ),
    {
        if log.len() == 0 {
            return ask_optional(
                sql::CREATE_JOIN_GRANT,
                vec![
                    Param::Id(tenant_id), Param::Id(id), Param::Bytes(token_digest),
                    Param::Id(room_id), Param::I64(epoch), Param::Id(principal_id),
                    Param::Id(session_id), Param::Id(client_id), Param::Text(presence_mode),
                    Param::Text(presence_label), Param::I64(resource_acl_generation),
                    Param::I64(drive_acl_generation), Param::I64(membership_generation),
                    Param::I64(namespace_generation), Param::Bool(can_checkpoint),
                ],
            );
        }
        let grant: CollaborationJoinGrantRecord = match required(&log[0], DatabaseError::Conflict) {
            Ok(value) => value,
            Err(fault) => return stop(fault),
        };
        Step::Done(grant)
    }

    /// Every statement of `collaboration_create_join_grant` is about its tenant.
    pub proof fn collaboration_create_join_grant_is_scoped<'a>(
        tenant_id: Uuid, id: Uuid, room_id: Uuid, epoch: i64, token_digest: &'a [u8],
        principal_id: Uuid, session_id: Uuid, client_id: Uuid, presence_mode: &'a str,
        presence_label: &'a str, resource_acl_generation: i64, drive_acl_generation: i64,
        membership_generation: i64, namespace_generation: i64, can_checkpoint: bool,
        log: Seq<Reply>,
    )
        ensures
            crate::step::is_scoped(
                Self::collaboration_create_join_grant_script(
                    tenant_id, id, room_id, epoch, token_digest, principal_id, session_id,
                    client_id, presence_mode, presence_label, resource_acl_generation,
                    drive_acl_generation, membership_generation, namespace_generation,
                    can_checkpoint, log,
                ),
                tenant_id,
            ),
    {
    }

    /// What stops `collaboration_consume_join_grant`, in order.
    pub open spec fn collaboration_consume_join_grant_fault(log: Seq<Reply>) -> Option<Fault> {
        if log.len() > 0
            && log[0].required_row::<CollaborationJoinGrantRecord>(DatabaseError::NotFound) is Err {
            Fault::of(log[0].required_row::<CollaborationJoinGrantRecord>(DatabaseError::NotFound))
        } else {
            None
        }
    }

    /// The commands of `collaboration_consume_join_grant`, in order.
    pub open spec fn collaboration_consume_join_grant_script<'a>(
        tenant_id: Uuid, token_digest: &'a [u8], log: Seq<Reply>,
    ) -> Seq<CommandView<'a>> {
        seq![
            CommandView::optional(
                sql::CONSUME_JOIN_GRANT,
                seq![Param::Id(tenant_id), Param::Bytes(token_digest)],
            ),
        ]
    }

    /// What `collaboration_consume_join_grant` returns.
    pub open spec fn collaboration_consume_join_grant_output(
        log: Seq<Reply>,
    ) -> CollaborationJoinGrantRecord {
        let grant =
            log[0].required_row::<CollaborationJoinGrantRecord>(DatabaseError::NotFound)->Ok_0;
        grant
    }

    /// Redeems a one-time admission.
    pub fn collaboration_consume_join_grant<'a>(
        tenant_id: Uuid, token_digest: &'a [u8], log: &'a [Reply],
    ) -> (step: Step<'a, CollaborationJoinGrantRecord>)
        ensures
            step@ == StepView::proceed(
                Self::collaboration_consume_join_grant_fault(log@),
                Self::collaboration_consume_join_grant_script(tenant_id, token_digest, log@),
                Self::collaboration_consume_join_grant_output(log@),
                log@,
            ),
    {
        if log.len() == 0 {
            return ask_optional(
                sql::CONSUME_JOIN_GRANT,
                vec![Param::Id(tenant_id), Param::Bytes(token_digest)],
            );
        }
        let grant: CollaborationJoinGrantRecord = match required(&log[0], DatabaseError::NotFound) {
            Ok(value) => value,
            Err(fault) => return stop(fault),
        };
        Step::Done(grant)
    }

    /// Every statement of `collaboration_consume_join_grant` is about its tenant.
    pub proof fn collaboration_consume_join_grant_is_scoped<'a>(
        tenant_id: Uuid, token_digest: &'a [u8], log: Seq<Reply>,
    )
        ensures
            crate::step::is_scoped(
                Self::collaboration_consume_join_grant_script(tenant_id, token_digest, log),
                tenant_id,
            ),
    {
    }

    /// What stops `collaboration_reserve_object`, in order.
    pub open spec fn collaboration_reserve_object_fault<'a>(
        purpose: &'a str, reserved_bytes: i64, expected_fencing_token: i64, log: Seq<Reply>,
    ) -> Option<Fault> {
        let room = log[1].required_row::<ReservableEpoch>(DatabaseError::StaleGeneration)->Ok_0;
        let drawn = log[4].drawn_ids(3);
        if purpose@ != "update_group"@ && purpose@ != "snapshot"@ || reserved_bytes < 0 {
            Some(Fault::Error(DatabaseError::InvalidPersistedValue))
        } else if log.len() > 1
            && log[1].required_row::<ReservableEpoch>(DatabaseError::StaleGeneration) is Err {
            Fault::of(log[1].required_row::<ReservableEpoch>(DatabaseError::StaleGeneration))
        } else if log.len() > 1 && room.fencing_token != expected_fencing_token {
            Some(Fault::Error(DatabaseError::StaleGeneration))
        } else if log.len() > 2 && log[2].required_row::<()>(DatabaseError::QuotaExceeded) is Err {
            Fault::of(log[2].required_row::<()>(DatabaseError::QuotaExceeded))
        } else if log.len() > 3
            && log[3].required_row::<Uuid>(DatabaseError::StorageUnavailable) is Err {
            Fault::of(log[3].required_row::<Uuid>(DatabaseError::StorageUnavailable))
        } else if log.len() > 4 && drawn is Err {
            Fault::of(drawn)
        } else {
            None
        }
    }

    /// The commands of `collaboration_reserve_object`, in order.
    pub open spec fn collaboration_reserve_object_script<'a>(
        tenant_id: Uuid, room_id: Uuid, epoch: i64, drive_id: Uuid, purpose: &'a str,
        reserved_bytes: i64, log: Seq<Reply>,
    ) -> Seq<CommandView<'a>> {
        let backend_id = log[3].required_row::<Uuid>(DatabaseError::StorageUnavailable)->Ok_0;
        let drawn = log[4].drawn_ids(3);
        let object_id = drawn->Ok_0[0];
        let payload_id = drawn->Ok_0[1];
        let locator = drawn->Ok_0[2];
        seq![
            CommandView::Begin,
            CommandView::optional(
                sql::RESERVE_OBJECT_SELECT_EPOCHS,
                seq![
                    Param::Id(tenant_id), Param::Id(room_id), Param::I64(epoch),
                    Param::Id(drive_id),
                ],
            ),
            CommandView::optional(
                sql::RESERVE_OBJECT_UPDATE_DRIVES,
                seq![Param::Id(tenant_id), Param::Id(drive_id), Param::I64(reserved_bytes)],
            ),
            CommandView::optional(
                sql::RESERVE_OBJECT_SELECT_STORAGE_BACKENDS,
                seq![Param::Id(tenant_id)],
            ),
            CommandView::DrawIds(3),
            CommandView::execute(
                sql::RESERVE_OBJECT_INSERT_PAYLOAD_OBJECTS,
                seq![
                    Param::Id(tenant_id), Param::Id(payload_id), Param::Id(drive_id),
                    Param::Id(backend_id), Param::Id(locator), Param::I64(reserved_bytes),
                ],
            ),
            CommandView::execute(
                sql::RESERVE_OBJECT_INSERT_OBJECTS,
                seq![
                    Param::Id(tenant_id), Param::Id(object_id), Param::Id(room_id),
                    Param::I64(epoch), Param::Id(drive_id), Param::Id(payload_id),
                    Param::Text(purpose), Param::I64(reserved_bytes),
                ],
            ),
            CommandView::execute(
                sql::RESERVE_OBJECT_INSERT_OBJECT_RESERVATIONS,
                seq![
                    Param::Id(tenant_id), Param::Id(object_id), Param::Id(drive_id),
                    Param::I64(reserved_bytes),
                ],
            ),
            CommandView::Commit,
        ]
    }

    /// What `collaboration_reserve_object` returns.
    pub open spec fn collaboration_reserve_object_output<'a>(
        room_id: Uuid, epoch: i64, drive_id: Uuid, purpose: &'a str, reserved_bytes: i64,
        expected_fencing_token: i64, log: Seq<Reply>,
    ) -> CollaborationObjectRecordView {
        let room = log[1].required_row::<ReservableEpoch>(DatabaseError::StaleGeneration)->Ok_0;
        let backend_id = log[3].required_row::<Uuid>(DatabaseError::StorageUnavailable)->Ok_0;
        let drawn = log[4].drawn_ids(3);
        let object_id = drawn->Ok_0[0];
        let payload_id = drawn->Ok_0[1];
        let locator = drawn->Ok_0[2];
        CollaborationObjectRecordView {
            id: object_id,
            room_id,
            epoch,
            drive_id,
            node_id: room.node_id,
            fencing_token: expected_fencing_token,
            payload_id,
            backend_id,
            payload_locator: locator,
            purpose: purpose@,
            state: "staging"@,
            reserved_bytes,
            size_bytes: None,
            blake3: None,
        }
    }

    /// Reserves quota and a payload for an object of an epoch.
    pub fn collaboration_reserve_object<'a>(
        tenant_id: Uuid, room_id: Uuid, epoch: i64, drive_id: Uuid, purpose: &'a str,
        reserved_bytes: i64, expected_fencing_token: i64, log: &'a [Reply],
    ) -> (step: Step<'a, CollaborationObjectRecord>)
        ensures
            step.deep() == StepView::proceed(
                Self::collaboration_reserve_object_fault(
                    purpose, reserved_bytes, expected_fencing_token, log@,
                ),
                Self::collaboration_reserve_object_script(
                    tenant_id, room_id, epoch, drive_id, purpose, reserved_bytes, log@,
                ),
                Self::collaboration_reserve_object_output(
                    room_id, epoch, drive_id, purpose, reserved_bytes, expected_fencing_token,
                    log@,
                ),
                log@,
            ),
    {
        if !text_eq(purpose, "update_group") && !text_eq(purpose, "snapshot")
            || reserved_bytes < 0 {
            return Step::Fail(DatabaseError::InvalidPersistedValue);
        }
        if log.len() == 0 {
            return Step::Ask(Command::Begin);
        }
        if log.len() <= 1 {
            return ask_optional(
                sql::RESERVE_OBJECT_SELECT_EPOCHS,
                vec![
                    Param::Id(tenant_id), Param::Id(room_id), Param::I64(epoch),
                    Param::Id(drive_id),
                ],
            );
        }
        let room: ReservableEpoch = match required(&log[1], DatabaseError::StaleGeneration) {
            Ok(value) => value,
            Err(fault) => return stop_deep(fault),
        };
        if room.fencing_token != expected_fencing_token {
            return Step::Fail(DatabaseError::StaleGeneration);
        }
        if log.len() <= 2 {
            return ask_optional(
                sql::RESERVE_OBJECT_UPDATE_DRIVES,
                vec![Param::Id(tenant_id), Param::Id(drive_id), Param::I64(reserved_bytes)],
            );
        }
        let reserved: () = match required::<()>(&log[2], DatabaseError::QuotaExceeded) {
            Ok(value) => value,
            Err(fault) => return stop_deep(fault),
        };
        if log.len() <= 3 {
            return ask_optional(
                sql::RESERVE_OBJECT_SELECT_STORAGE_BACKENDS,
                vec![Param::Id(tenant_id)],
            );
        }
        let backend_id: Uuid = match required::<Uuid>(&log[3], DatabaseError::StorageUnavailable) {
            Ok(value) => value,
            Err(fault) => return stop_deep(fault),
        };
        if log.len() <= 4 {
            return Step::Ask(Command::DrawIds(3));
        }
        let drawn: &Vec<Uuid> = match drawn(&log[4], 3) {
            Ok(ids) => ids,
            Err(fault) => return stop_deep(fault),
        };
        let object_id: Uuid = drawn[0];
        let payload_id: Uuid = drawn[1];
        let locator: Uuid = drawn[2];
        if log.len() <= 5 {
            return ask_execute(
                sql::RESERVE_OBJECT_INSERT_PAYLOAD_OBJECTS,
                vec![
                    Param::Id(tenant_id), Param::Id(payload_id), Param::Id(drive_id),
                    Param::Id(backend_id), Param::Id(locator), Param::I64(reserved_bytes),
                ],
            );
        }
        if log.len() <= 6 {
            return ask_execute(
                sql::RESERVE_OBJECT_INSERT_OBJECTS,
                vec![
                    Param::Id(tenant_id), Param::Id(object_id), Param::Id(room_id),
                    Param::I64(epoch), Param::Id(drive_id), Param::Id(payload_id),
                    Param::Text(purpose), Param::I64(reserved_bytes),
                ],
            );
        }
        if log.len() <= 7 {
            return ask_execute(
                sql::RESERVE_OBJECT_INSERT_OBJECT_RESERVATIONS,
                vec![
                    Param::Id(tenant_id), Param::Id(object_id), Param::Id(drive_id),
                    Param::I64(reserved_bytes),
                ],
            );
        }
        if log.len() <= 8 {
            return Step::Ask(Command::Commit);
        }
        Step::Done(
            CollaborationObjectRecord {
                id: object_id,
                room_id,
                epoch,
                drive_id,
                node_id: room.node_id,
                fencing_token: expected_fencing_token,
                payload_id,
                backend_id,
                payload_locator: locator,
                purpose: purpose.to_owned(),
                state: "staging".to_owned(),
                reserved_bytes,
                size_bytes: None,
                blake3: None,
            },
        )
    }

    /// `collaboration_reserve_object` runs in one transaction: it is done once its commit is
    /// acknowledged, and when it fails, nothing was committed.
    pub proof fn collaboration_reserve_object_is_atomic<'a>(
        tenant_id: Uuid, room_id: Uuid, epoch: i64, drive_id: Uuid, purpose: &'a str,
        reserved_bytes: i64, expected_fencing_token: i64, log: Seq<Reply>,
    )
        ensures
            crate::step::is_atomic(
                Self::collaboration_reserve_object_script(
                    tenant_id, room_id, epoch, drive_id, purpose, reserved_bytes, log,
                ),
                0,
            ),
            crate::step::commit_acknowledged(
                Self::collaboration_reserve_object_fault(
                    purpose, reserved_bytes, expected_fencing_token, log.drop_last(),
                ),
                Self::collaboration_reserve_object_script(
                    tenant_id, room_id, epoch, drive_id, purpose, reserved_bytes, log.drop_last(),
                ),
                log,
            ) ==> {
                &&& Self::collaboration_reserve_object_fault(
                    purpose, reserved_bytes, expected_fencing_token, log,
                ) is None
                &&& log.len() == Self::collaboration_reserve_object_script(
                    tenant_id, room_id, epoch, drive_id, purpose, reserved_bytes, log,
                ).len()
            },
    {
    }

    /// Every statement of `collaboration_reserve_object` is about its tenant.
    pub proof fn collaboration_reserve_object_is_scoped<'a>(
        tenant_id: Uuid, room_id: Uuid, epoch: i64, drive_id: Uuid, purpose: &'a str,
        reserved_bytes: i64, log: Seq<Reply>,
    )
        ensures
            crate::step::is_scoped(
                Self::collaboration_reserve_object_script(
                    tenant_id, room_id, epoch, drive_id, purpose, reserved_bytes, log,
                ),
                tenant_id,
            ),
    {
    }

    /// What stops `collaboration_object`, in order.
    pub open spec fn collaboration_object_fault(log: Seq<Reply>) -> Option<Fault> {
        if log.len() > 0
            && log[0].required_row::<CollaborationObjectRecord>(DatabaseError::NotFound) is Err {
            Fault::of(log[0].required_row::<CollaborationObjectRecord>(DatabaseError::NotFound))
        } else {
            None
        }
    }

    /// The commands of `collaboration_object`, in order.
    pub open spec fn collaboration_object_script<'a>(
        tenant_id: Uuid, object_id: Uuid, log: Seq<Reply>,
    ) -> Seq<CommandView<'a>> {
        seq![CommandView::optional(sql::OBJECT, seq![Param::Id(tenant_id), Param::Id(object_id)])]
    }

    /// What `collaboration_object` returns.
    pub open spec fn collaboration_object_output(log: Seq<Reply>) -> CollaborationObjectRecord {
        let object =
            log[0].required_row::<CollaborationObjectRecord>(DatabaseError::NotFound)->Ok_0;
        object
    }

    /// Looks an object up.
    pub fn collaboration_object<'a>(
        tenant_id: Uuid, object_id: Uuid, log: &'a [Reply],
    ) -> (step: Step<'a, CollaborationObjectRecord>)
        ensures
            step@ == StepView::proceed(
                Self::collaboration_object_fault(log@),
                Self::collaboration_object_script(tenant_id, object_id, log@),
                Self::collaboration_object_output(log@),
                log@,
            ),
    {
        if log.len() == 0 {
            return ask_optional(sql::OBJECT, vec![Param::Id(tenant_id), Param::Id(object_id)]);
        }
        let object: CollaborationObjectRecord = match required(&log[0], DatabaseError::NotFound) {
            Ok(value) => value,
            Err(fault) => return stop(fault),
        };
        Step::Done(object)
    }

    /// Every statement of `collaboration_object` is about its tenant.
    pub proof fn collaboration_object_is_scoped(tenant_id: Uuid, object_id: Uuid, log: Seq<Reply>)
        ensures
            crate::step::is_scoped(
                Self::collaboration_object_script(tenant_id, object_id, log),
                tenant_id,
            ),
    {
    }

    /// Whether the object to finalize is durable already, with another size or digest.
    pub open spec fn durable_mismatch(size_bytes: i64, blake3: &[u8], log: Seq<Reply>) -> bool {
        let current = log[2].required_row::<FinalizableObject>(DatabaseError::NotFound)->Ok_0;
        &&& current.state@ == "durable"@
        &&& !(current.size_bytes == Some(size_bytes) && current.blake3 is Some
            && current.blake3->0@ == blake3@)
    }

    /// What stops `collaboration_finalize_object`, in order.
    pub open spec fn collaboration_finalize_object_fault<'a>(
        expected_fencing_token: i64, authorization: CollaborationAuthorizationContext,
        size_bytes: i64, blake3: &'a [u8], log: Seq<Reply>,
    ) -> Option<Fault> {
        let fence = log[1].required_row::<FenceGenerations>(DatabaseError::StaleGeneration)->Ok_0;
        let current = log[2].required_row::<FinalizableObject>(DatabaseError::NotFound)->Ok_0;
        if size_bytes < 0 || blake3@.len() != 32 {
            Some(Fault::Error(DatabaseError::InvalidPersistedValue))
        } else if log.len() > 1
            && log[1].required_row::<FenceGenerations>(DatabaseError::StaleGeneration) is Err {
            Fault::of(log[1].required_row::<FenceGenerations>(DatabaseError::StaleGeneration))
        } else if log.len() > 1 && !fence.agrees_with(authorization.expected()) {
            Some(Fault::Error(DatabaseError::StaleGeneration))
        } else if log.len() > 2
            && log[2].required_row::<FinalizableObject>(DatabaseError::NotFound) is Err {
            Fault::of(log[2].required_row::<FinalizableObject>(DatabaseError::NotFound))
        } else if log.len() > 2 && current.state@ == "durable"@ {
            if log.len() > 3
                && current.size_bytes == Some(size_bytes)
                && current.blake3 is Some
                && current.blake3->0@ == blake3@ {
                if log.len() > 4
                    && log[4].required_row::<CollaborationObjectRecord>(
                        DatabaseError::NotFound,
                    ) is Err {
                        Fault::of(
                            log[4].required_row::<CollaborationObjectRecord>(
                                DatabaseError::NotFound,
                            ),
                        )
                    } else {
                        None
                    }
            } else if log.len() > 3 {
                Some(Fault::Error(DatabaseError::Conflict))
            } else {
                None
            }
        } else if log.len() > 2 && (current.node_id != authorization.node_id
                || current.drive_id != authorization.drive_id || current.state@ != "staging"@
                || current.epoch_state@ != "active"@
                || current.fencing_token != expected_fencing_token
                || current.reservation_state@ != "active"@ || size_bytes > current.reserved_bytes) {
            Some(Fault::Error(DatabaseError::StaleGeneration))
        } else if log.len() > 3 && log[3].one_affected(DatabaseError::Conflict) is Err {
            Fault::of(log[3].one_affected(DatabaseError::Conflict))
        } else if log.len() > 6 && log[6].one_affected(DatabaseError::Conflict) is Err {
            Fault::of(log[6].one_affected(DatabaseError::Conflict))
        } else if log.len() > 8
            && log[8].required_row::<CollaborationObjectRecord>(DatabaseError::NotFound) is Err {
            Fault::of(log[8].required_row::<CollaborationObjectRecord>(DatabaseError::NotFound))
        } else {
            None
        }
    }

    /// The commands of `collaboration_finalize_object`, in order.
    pub open spec fn collaboration_finalize_object_script<'a>(
        tenant_id: Uuid, object_id: Uuid, authorization: CollaborationAuthorizationContext,
        size_bytes: i64, blake3: &'a [u8], log: Seq<Reply>,
    ) -> Seq<CommandView<'a>> {
        let current = log[2].required_row::<FinalizableObject>(DatabaseError::NotFound)->Ok_0;
        seq![
            CommandView::Begin,
            CommandView::optional(
                catalog::LOCK_COLLABORATION_AUTHORIZATION_FENCE,
                seq![
                    Param::Id(tenant_id), Param::Id(authorization.session_id),
                    Param::Id(authorization.principal_id), Param::Id(authorization.drive_id),
                    Param::Id(authorization.node_id),
                ],
            ),
            CommandView::optional(
                sql::FINALIZE_OBJECT_SELECT_OBJECTS,
                seq![Param::Id(tenant_id), Param::Id(object_id)],
            ),
        ].add(
            if current.state@ == "durable"@ {
                seq![
                    CommandView::Commit,
                ].add(
                    if current.size_bytes == Some(size_bytes)
                        && current.blake3 is Some
                        && current.blake3->0@ == blake3@ {
                        seq![
                            CommandView::optional(
                                sql::OBJECT,
                                seq![Param::Id(tenant_id), Param::Id(object_id)],
                            ),
                        ]
                    } else {
                        Seq::<CommandView<'a>>::empty()
                    },
                )
            } else {
                seq![
                    CommandView::execute(
                        sql::FINALIZE_OBJECT_UPDATE_PAYLOAD_OBJECTS,
                        seq![
                            Param::Id(tenant_id), Param::Id(object_id), Param::I64(size_bytes),
                            Param::Bytes(blake3),
                        ],
                    ),
                    CommandView::execute(
                        sql::FINALIZE_OBJECT_UPDATE_OBJECTS,
                        seq![
                            Param::Id(tenant_id), Param::Id(object_id), Param::I64(size_bytes),
                            Param::Bytes(blake3),
                        ],
                    ),
                    CommandView::execute(
                        sql::FINALIZE_OBJECT_UPDATE_OBJECT_RESERVATIONS,
                        seq![Param::Id(tenant_id), Param::Id(object_id)],
                    ),
                    CommandView::execute(
                        sql::FINALIZE_OBJECT_UPDATE_DRIVES,
                        seq![
                            Param::Id(tenant_id), Param::Id(object_id),
                            Param::I64(current.reserved_bytes), Param::I64(size_bytes),
                        ],
                    ),
                    CommandView::Commit,
                    CommandView::optional(
                        sql::OBJECT,
                        seq![Param::Id(tenant_id), Param::Id(object_id)],
                    ),
                ]
            },
        )
    }

    /// What `collaboration_finalize_object` returns.
    pub open spec fn collaboration_finalize_object_output(
        log: Seq<Reply>,
    ) -> CollaborationObjectRecord {
        let current = log[2].required_row::<FinalizableObject>(DatabaseError::NotFound)->Ok_0;
        let repeated =
            log[4].required_row::<CollaborationObjectRecord>(DatabaseError::NotFound)->Ok_0;
        let object =
            log[8].required_row::<CollaborationObjectRecord>(DatabaseError::NotFound)->Ok_0;
        if current.state@ == "durable"@ {
            repeated
        } else {
            object
        }
    }

    /// Makes a physically published object authoritative and converts its drive reservation into
    /// used bytes in one transaction. An object that is durable already is returned where its size
    /// and digest are the same.
    pub fn collaboration_finalize_object<'a>(
        tenant_id: Uuid, object_id: Uuid, expected_fencing_token: i64,
        authorization: CollaborationAuthorizationContext, size_bytes: i64, blake3: &'a [u8],
        log: &'a [Reply],
    ) -> (step: Step<'a, CollaborationObjectRecord>)
        ensures
            step@ == StepView::proceed(
                Self::collaboration_finalize_object_fault(
                    expected_fencing_token, authorization, size_bytes, blake3, log@,
                ),
                Self::collaboration_finalize_object_script(
                    tenant_id, object_id, authorization, size_bytes, blake3, log@,
                ),
                Self::collaboration_finalize_object_output(log@),
                log@,
            ),
    {
        if size_bytes < 0 || blake3.len() != 32 {
            return Step::Fail(DatabaseError::InvalidPersistedValue);
        }
        if log.len() == 0 {
            return Step::Ask(Command::Begin);
        }
        if log.len() <= 1 {
            return ask_optional(
                catalog::LOCK_COLLABORATION_AUTHORIZATION_FENCE,
                vec![
                    Param::Id(tenant_id), Param::Id(authorization.session_id),
                    Param::Id(authorization.principal_id), Param::Id(authorization.drive_id),
                    Param::Id(authorization.node_id),
                ],
            );
        }
        let fence: FenceGenerations = match required(&log[1], DatabaseError::StaleGeneration) {
            Ok(value) => value,
            Err(fault) => return stop(fault),
        };
        if !fence.agree(authorization.expected_generations()) {
            return Step::Fail(DatabaseError::StaleGeneration);
        }
        if log.len() <= 2 {
            return ask_optional(
                sql::FINALIZE_OBJECT_SELECT_OBJECTS,
                vec![Param::Id(tenant_id), Param::Id(object_id)],
            );
        }
        let current: FinalizableObject = match required(&log[2], DatabaseError::NotFound) {
            Ok(value) => value,
            Err(fault) => return stop(fault),
        };
        if text_eq(current.state.as_str(), "durable") {
            if log.len() <= 3 {
                return Step::Ask(Command::Commit);
            }
            if current.size_bytes == Some(size_bytes) && same_digest(&current.blake3, blake3) {
                if log.len() <= 4 {
                    return ask_optional(
                        sql::OBJECT,
                        vec![Param::Id(tenant_id), Param::Id(object_id)],
                    );
                }
                let repeated: CollaborationObjectRecord = match required(
                    &log[4],
                    DatabaseError::NotFound,
                ) {
                    Ok(value) => value,
                    Err(fault) => return stop(fault),
                };
                return Step::Done(repeated);
            }
            return Step::Fail(DatabaseError::Conflict);
        }
        if current.node_id != authorization.node_id || current.drive_id != authorization.drive_id
            || !text_eq(current.state.as_str(), "staging")
            || !text_eq(current.epoch_state.as_str(), "active")
            || current.fencing_token != expected_fencing_token
            || !text_eq(current.reservation_state.as_str(), "active")
            || size_bytes > current.reserved_bytes {
            return Step::Fail(DatabaseError::StaleGeneration);
        }
        if log.len() <= 3 {
            return ask_execute(
                sql::FINALIZE_OBJECT_UPDATE_PAYLOAD_OBJECTS,
                vec![
                    Param::Id(tenant_id), Param::Id(object_id), Param::I64(size_bytes),
                    Param::Bytes(blake3),
                ],
            );
        }
        if let Err(fault) = exactly_one(&log[3], DatabaseError::Conflict) {
            return stop(fault);
        }
        if log.len() <= 4 {
            return ask_execute(
                sql::FINALIZE_OBJECT_UPDATE_OBJECTS,
                vec![
                    Param::Id(tenant_id), Param::Id(object_id), Param::I64(size_bytes),
                    Param::Bytes(blake3),
                ],
            );
        }
        if log.len() <= 5 {
            return ask_execute(
                sql::FINALIZE_OBJECT_UPDATE_OBJECT_RESERVATIONS,
                vec![Param::Id(tenant_id), Param::Id(object_id)],
            );
        }
        if log.len() <= 6 {
            return ask_execute(
                sql::FINALIZE_OBJECT_UPDATE_DRIVES,
                vec![
                    Param::Id(tenant_id), Param::Id(object_id),
                    Param::I64(current.reserved_bytes), Param::I64(size_bytes),
                ],
            );
        }
        if let Err(fault) = exactly_one(&log[6], DatabaseError::Conflict) {
            return stop(fault);
        }
        if log.len() <= 7 {
            return Step::Ask(Command::Commit);
        }
        if log.len() <= 8 {
            return ask_optional(sql::OBJECT, vec![Param::Id(tenant_id), Param::Id(object_id)]);
        }
        let object: CollaborationObjectRecord = match required(&log[8], DatabaseError::NotFound) {
            Ok(value) => value,
            Err(fault) => return stop(fault),
        };
        Step::Done(object)
    }

    /// `collaboration_finalize_object` runs in one transaction and writes nothing after it. Once
    /// its commit is acknowledged, nothing but reading the result back can fail.
    pub proof fn collaboration_finalize_object_is_atomic<'a>(
        tenant_id: Uuid, object_id: Uuid, expected_fencing_token: i64,
        authorization: CollaborationAuthorizationContext, size_bytes: i64, blake3: &'a [u8],
        log: Seq<Reply>,
    )
        ensures
            crate::step::is_atomic(
                Self::collaboration_finalize_object_script(
                    tenant_id, object_id, authorization, size_bytes, blake3, log,
                ),
                (if Self::durable_mismatch(size_bytes, blake3, log) { 0int } else { 1 }),
            ),
            crate::step::commit_acknowledged(
                Self::collaboration_finalize_object_fault(
                    expected_fencing_token, authorization, size_bytes, blake3, log.drop_last(),
                ),
                Self::collaboration_finalize_object_script(
                    tenant_id, object_id, authorization, size_bytes, blake3, log.drop_last(),
                ),
                log,
            ) ==> {
                ||| Self::collaboration_finalize_object_fault(
                    expected_fencing_token, authorization, size_bytes, blake3, log,
                ) is None
                    && log.len()
                        + (if Self::durable_mismatch(size_bytes, blake3, log) { 0int } else { 1 })
                        == Self::collaboration_finalize_object_script(
                        tenant_id, object_id, authorization, size_bytes, blake3, log,
                    ).len()
                ||| Self::collaboration_finalize_object_fault(
                    expected_fencing_token, authorization, size_bytes, blake3, log,
                ) == Some(Fault::Error(DatabaseError::Conflict))
            },
    {
    }

    /// `collaboration_finalize_object` goes past its fence only where the generations that it has
    /// locked are those that the caller was authorized under.
    pub proof fn collaboration_finalize_object_is_fenced<'a>(
        expected_fencing_token: i64, authorization: CollaborationAuthorizationContext,
        size_bytes: i64, blake3: &'a [u8], log: Seq<Reply>,
    )
        ensures
            ({
                let fence =
                    log[1].required_row::<FenceGenerations>(DatabaseError::StaleGeneration)->Ok_0;
                Self::collaboration_finalize_object_fault(
                    expected_fencing_token, authorization, size_bytes, blake3, log,
                ) is None
                    && log.len() > 1
                    ==> log[1].required_row::<FenceGenerations>(
                        DatabaseError::StaleGeneration,
                    ) is Ok
                    && fence.agrees_with(authorization.expected())
            }),
    {
    }

    /// Every statement of `collaboration_finalize_object` is about its tenant.
    pub proof fn collaboration_finalize_object_is_scoped<'a>(
        tenant_id: Uuid,
        object_id: Uuid,
        authorization: CollaborationAuthorizationContext,
        size_bytes: i64,
        blake3: &'a [u8],
        log: Seq<Reply>,
    )
        ensures
            crate::step::is_scoped(
                Self::collaboration_finalize_object_script(
                    tenant_id, object_id, authorization, size_bytes, blake3, log,
                ),
                tenant_id,
            ),
    {
    }

    /// What stops `collaboration_persist_update_group`, in order.
    pub open spec fn collaboration_persist_update_group_fault<'a>(
        expected_fencing_token: i64, expected_base_sequence: i64,
        authorization: CollaborationAuthorizationContext, mcp_invocation_id: Option<Uuid>,
        source_before_digest: &'a [u8], source_after_digest: &'a [u8],
        chunks: &'a Vec<CollaborationUpdateChunkInput>, state_vector: &'a [u8],
        state_digest: &'a [u8], log: Seq<Reply>,
    ) -> Option<Fault> {
        let fence = log[1].required_row::<FenceGenerations>(DatabaseError::StaleGeneration)->Ok_0;
        let room = log[2].required_row::<WritableEpoch>(DatabaseError::Conflict)->Ok_0;
        let proven = log[3].single_row::<bool>()->Ok_0;
        let at = if mcp_invocation_id is Some {
            4int
        } else {
            3
        };
        let incoming_digest = log[at].required_row::<Arc<Vec<u8>>>(DatabaseError::Conflict)->Ok_0;
        let earlier = log[at + 1].optional_row::<StoredUpdateGroup>()->Ok_0;
        let stored = earlier->0;
        if !chunks_make_a_group(chunks@) || expected_base_sequence < 0
            || state_vector@.len() > 1_048_576 || state_digest@.len() != 32
            || source_before_digest@.len() != 32 || source_after_digest@.len() != 32 {
            Some(Fault::Error(DatabaseError::InvalidPersistedValue))
        } else if log.len() > 1
            && log[1].required_row::<FenceGenerations>(DatabaseError::StaleGeneration) is Err {
            Fault::of(log[1].required_row::<FenceGenerations>(DatabaseError::StaleGeneration))
        } else if log.len() > 1 && !fence.agrees_with(authorization.expected()) {
            Some(Fault::Error(DatabaseError::StaleGeneration))
        } else if log.len() > 2
            && log[2].required_row::<WritableEpoch>(DatabaseError::Conflict) is Err {
            Fault::of(log[2].required_row::<WritableEpoch>(DatabaseError::Conflict))
        } else if log.len() > 2 && room.fencing_token != expected_fencing_token {
            Some(Fault::Error(DatabaseError::StaleGeneration))
        } else if mcp_invocation_id is Some && log.len() > 3 && log[3].single_row::<bool>() is Err {
            Fault::of(log[3].single_row::<bool>())
        } else if mcp_invocation_id is Some && log.len() > 3 && !proven {
            Some(Fault::Error(DatabaseError::Conflict))
        } else if log.len() > at
            && log[at].required_row::<Arc<Vec<u8>>>(DatabaseError::Conflict) is Err {
            Fault::of(log[at].required_row::<Arc<Vec<u8>>>(DatabaseError::Conflict))
        } else if log.len() > at + 1 && log[at + 1].optional_row::<StoredUpdateGroup>() is Err {
            Fault::of(log[at + 1].optional_row::<StoredUpdateGroup>())
        } else if log.len() > at + 1 && earlier is Some {
            if log.len() > at + 1 && (stored.state_digest@ != state_digest@
                    || stored.blake3@ != incoming_digest@
                    || stored.mcp_invocation_id != mcp_invocation_id
                    || stored.source_before_digest@ != source_before_digest@
                    || stored.source_after_digest@ != source_after_digest@) {
                Some(Fault::Error(DatabaseError::Conflict))
            } else {
                None
            }
        } else if log.len() > at + 1 && room.durable_sequence != expected_base_sequence {
            if log.len() > at + 3 {
                Some(Fault::Error(DatabaseError::StaleGeneration))
            } else {
                None
            }
        } else if log.len() > at + 1 && room.durable_sequence == i64::MAX {
            Some(Fault::Error(DatabaseError::InvalidPersistedValue))
        } else if log.len() > at + 2 && log[at + 2].one_affected(DatabaseError::Conflict) is Err {
            Fault::of(log[at + 2].one_affected(DatabaseError::Conflict))
        } else if log.len() > at + 3 && log[at + 3].single_row::<Uuid>() is Err {
            Fault::of(log[at + 3].single_row::<Uuid>())
        } else {
            None
        }
    }

    /// The commands of `collaboration_persist_update_group`, in order.
    pub open spec fn collaboration_persist_update_group_script<'a>(
        tenant_id: Uuid, room_id: Uuid, epoch: i64, expected_base_sequence: i64,
        client_id: Uuid, client_update_id: Uuid,
        authorization: CollaborationAuthorizationContext, mcp_invocation_id: Option<Uuid>,
        source_before_digest: &'a [u8], source_after_digest: &'a [u8], object_id: Uuid,
        chunks: &'a Vec<CollaborationUpdateChunkInput>, state_vector: &'a [u8],
        state_digest: &'a [u8], log: Seq<Reply>,
    ) -> Seq<CommandView<'a>> {
        let total = bytes_before(chunks@, chunks@.len() as int) as i64;
        let room = log[2].required_row::<WritableEpoch>(DatabaseError::Conflict)->Ok_0;
        let at = if mcp_invocation_id is Some {
            4int
        } else {
            3
        };
        let earlier = log[at + 1].optional_row::<StoredUpdateGroup>()->Ok_0;
        let stored = earlier->0;
        let sequence = (room.durable_sequence + 1) as i64;
        let group_id = log[at + 3].single_row::<Uuid>()->Ok_0;
        seq![
            CommandView::Begin,
            CommandView::optional(
                catalog::LOCK_COLLABORATION_AUTHORIZATION_FENCE,
                seq![
                    Param::Id(tenant_id), Param::Id(authorization.session_id),
                    Param::Id(authorization.principal_id), Param::Id(authorization.drive_id),
                    Param::Id(authorization.node_id),
                ],
            ),
            CommandView::optional(
                sql::PERSIST_UPDATE_GROUP_SELECT_EPOCHS,
                seq![
                    Param::Id(tenant_id), Param::Id(room_id), Param::I64(epoch),
                    Param::Id(authorization.drive_id), Param::Id(authorization.node_id),
                ],
            ),
        ].add(
            if mcp_invocation_id is Some {
                seq![
                    CommandView::one(
                        sql::PERSIST_UPDATE_GROUP_EXISTS_INVOCATIONS,
                        seq![
                            Param::Id(tenant_id), Param::Id(mcp_invocation_id->0),
                            Param::Id(authorization.principal_id), Param::Id(authorization.node_id),
                            Param::Id(room.base_version_id), Param::Bytes(source_before_digest),
                            Param::Bytes(source_after_digest),
                        ],
                    ),
                ]
            } else {
                Seq::empty()
            },
        ).add(
            seq![
                CommandView::optional(
                    sql::PERSIST_UPDATE_GROUP_SELECT_OBJECTS,
                    seq![
                        Param::Id(tenant_id), Param::Id(object_id), Param::Id(room_id),
                        Param::I64(epoch),
                    ],
                ),
                CommandView::optional(
                    sql::PERSIST_UPDATE_GROUP_SELECT_UPDATE_GROUPS,
                    seq![
                        Param::Id(tenant_id), Param::Id(room_id), Param::I64(epoch),
                        Param::Id(client_id), Param::Id(client_update_id),
                    ],
                ),
            ],
        ).add(
            if earlier is Some {
                if stored.object_id != object_id {
                    seq![
                        CommandView::execute(
                            sql::PERSIST_UPDATE_GROUP_UPDATE_OBJECTS,
                            seq![Param::Id(tenant_id), Param::Id(object_id)],
                        ),
                    ]
                } else {
                    Seq::empty()
                }.add(seq![CommandView::Commit])
            } else {
                if room.durable_sequence != expected_base_sequence {
                    seq![
                        CommandView::execute(
                            sql::PERSIST_UPDATE_GROUP_UPDATE_OBJECTS,
                            seq![Param::Id(tenant_id), Param::Id(object_id)],
                        ),
                        CommandView::Commit,
                    ]
                } else {
                    seq![
                        CommandView::execute(
                            sql::PERSIST_UPDATE_GROUP_INSERT_UPDATE_GROUPS,
                            seq![
                                Param::Id(tenant_id), Param::Id(room_id), Param::I64(epoch),
                                Param::FreshId,
                                Param::Id(client_id), Param::Id(client_update_id),
                                Param::Id(authorization.principal_id),
                                Param::Text(if mcp_invocation_id is Some { "mcp" } else { "user" }),
                                Param::OptId(mcp_invocation_id), Param::Bytes(source_before_digest),
                                Param::Bytes(source_after_digest), Param::Id(object_id),
                                Param::I32(chunks@.len() as i32), Param::I64(total),
                                Param::I64(sequence),
                                Param::I64(sequence), Param::Bytes(state_vector),
                                Param::Bytes(state_digest),
                            ],
                        ),
                        CommandView::one(
                            sql::PERSIST_UPDATE_GROUP_SELECT_UPDATE_GROUPS_2,
                            seq![
                                Param::Id(tenant_id), Param::Id(room_id), Param::I64(epoch),
                                Param::Id(client_id), Param::Id(client_update_id),
                            ],
                        ),
                    ].add(
                        Seq::new(
                            chunks@.len(),
                            |j: int| CommandView::execute(
                                sql::PERSIST_UPDATE_GROUP_INSERT_UPDATE_CHUNKS,
                                seq![
                                    Param::Id(tenant_id), Param::Id(group_id),
                                    Param::I32(chunks@[j].chunk_index),
                                    Param::I64(chunks@[j].object_offset),
                                    Param::I32(chunks@[j].size_bytes),
                                    Param::Blob(chunks@[j].blake3),
                                ],
                            ),
                        ),
                    ).add(
                        seq![
                            CommandView::execute(
                                sql::PERSIST_UPDATE_GROUP_UPDATE_EPOCHS,
                                seq![
                                    Param::Id(tenant_id), Param::Id(room_id), Param::I64(epoch),
                                    Param::I64(sequence),
                                ],
                            ),
                            CommandView::Commit,
                        ],
                    )
                }
            },
        )
    }

    /// What `collaboration_persist_update_group` returns.
    pub open spec fn collaboration_persist_update_group_output(
        mcp_invocation_id: Option<Uuid>, object_id: Uuid, log: Seq<Reply>,
    ) -> (Uuid, i64, i64) {
        let room = log[2].required_row::<WritableEpoch>(DatabaseError::Conflict)->Ok_0;
        let at = if mcp_invocation_id is Some {
            4int
        } else {
            3
        };
        let earlier = log[at + 1].optional_row::<StoredUpdateGroup>()->Ok_0;
        let stored = earlier->0;
        let sequence = (room.durable_sequence + 1) as i64;
        if earlier is Some {
            (stored.object_id, stored.first_sequence, stored.last_sequence)
        } else {
            (object_id, sequence, sequence)
        }
    }

    /// Appends an update group to an epoch and returns its object and sequence numbers. The same
    /// update sent again gets the numbers that it has; one on another base sequence is superseded.
    #[verifier::spinoff_prover]
    #[verifier::rlimit(60)]
    pub fn collaboration_persist_update_group<'a>(
        tenant_id: Uuid, room_id: Uuid, epoch: i64, expected_fencing_token: i64,
        expected_base_sequence: i64, client_id: Uuid, client_update_id: Uuid,
        authorization: CollaborationAuthorizationContext, mcp_invocation_id: Option<Uuid>,
        source_before_digest: &'a [u8], source_after_digest: &'a [u8], object_id: Uuid,
        chunks: &'a Vec<CollaborationUpdateChunkInput>, state_vector: &'a [u8],
        state_digest: &'a [u8], log: &'a [Reply],
    ) -> (step: Step<'a, (Uuid, i64, i64)>)
        ensures
            step@ == StepView::proceed(
                Self::collaboration_persist_update_group_fault(
                    expected_fencing_token, expected_base_sequence, authorization,
                    mcp_invocation_id, source_before_digest, source_after_digest, chunks,
                    state_vector, state_digest, log@,
                ),
                Self::collaboration_persist_update_group_script(
                    tenant_id, room_id, epoch, expected_base_sequence, client_id,
                    client_update_id, authorization, mcp_invocation_id, source_before_digest,
                    source_after_digest, object_id, chunks, state_vector, state_digest, log@,
                ),
                Self::collaboration_persist_update_group_output(mcp_invocation_id, object_id, log@),
                log@,
            ),
    {
        if group_size(chunks).is_none() || expected_base_sequence < 0
            || state_vector.len() > 1_048_576 || state_digest.len() != 32
            || source_before_digest.len() != 32 || source_after_digest.len() != 32 {
            return Step::Fail(DatabaseError::InvalidPersistedValue);
        }
        let total: i64 = group_size(chunks).unwrap();
        if log.len() == 0 {
            return Step::Ask(Command::Begin);
        }
        if log.len() <= 1 {
            return ask_optional(
                catalog::LOCK_COLLABORATION_AUTHORIZATION_FENCE,
                vec![
                    Param::Id(tenant_id), Param::Id(authorization.session_id),
                    Param::Id(authorization.principal_id), Param::Id(authorization.drive_id),
                    Param::Id(authorization.node_id),
                ],
            );
        }
        let fence: FenceGenerations = match required(&log[1], DatabaseError::StaleGeneration) {
            Ok(value) => value,
            Err(fault) => return stop(fault),
        };
        if !fence.agree(authorization.expected_generations()) {
            return Step::Fail(DatabaseError::StaleGeneration);
        }
        if log.len() <= 2 {
            return ask_optional(
                sql::PERSIST_UPDATE_GROUP_SELECT_EPOCHS,
                vec![
                    Param::Id(tenant_id), Param::Id(room_id), Param::I64(epoch),
                    Param::Id(authorization.drive_id), Param::Id(authorization.node_id),
                ],
            );
        }
        let room: WritableEpoch = match required(&log[2], DatabaseError::Conflict) {
            Ok(value) => value,
            Err(fault) => return stop(fault),
        };
        if room.fencing_token != expected_fencing_token {
            return Step::Fail(DatabaseError::StaleGeneration);
        }
        if mcp_invocation_id.is_some() {
            if log.len() <= 3 {
                return ask_one(
                    sql::PERSIST_UPDATE_GROUP_EXISTS_INVOCATIONS,
                    vec![
                        Param::Id(tenant_id), Param::Id(mcp_invocation_id.unwrap()),
                        Param::Id(authorization.principal_id), Param::Id(authorization.node_id),
                        Param::Id(room.base_version_id), Param::Bytes(source_before_digest),
                        Param::Bytes(source_after_digest),
                    ],
                );
            }
            let proven: bool = match single::<bool>(&log[3]) {
                Ok(value) => value,
                Err(fault) => return stop(fault),
            };
            if !proven {
                return Step::Fail(DatabaseError::Conflict);
            }
        }
        let at: usize = if mcp_invocation_id.is_some() {
            4
        } else {
            3
        };
        if log.len() <= at {
            return ask_optional(
                sql::PERSIST_UPDATE_GROUP_SELECT_OBJECTS,
                vec![
                    Param::Id(tenant_id), Param::Id(object_id), Param::Id(room_id),
                    Param::I64(epoch),
                ],
            );
        }
        let incoming_digest: Arc<Vec<u8>> = match required(&log[at], DatabaseError::Conflict) {
            Ok(value) => value,
            Err(fault) => return stop(fault),
        };
        if log.len() - at <= 1 {
            return ask_optional(
                sql::PERSIST_UPDATE_GROUP_SELECT_UPDATE_GROUPS,
                vec![
                    Param::Id(tenant_id), Param::Id(room_id), Param::I64(epoch),
                    Param::Id(client_id), Param::Id(client_update_id),
                ],
            );
        }
        let earlier: Option<StoredUpdateGroup> = match optional::<StoredUpdateGroup>(&log[at + 1]) {
            Ok(value) => value,
            Err(fault) => return stop(fault),
        };
        if earlier.is_some() {
            let stored: StoredUpdateGroup = earlier.unwrap();
            if !bytes_eq(stored.state_digest.as_slice(), state_digest)
                || !bytes_eq(stored.blake3.as_slice(), incoming_digest.as_slice())
                || stored.mcp_invocation_id != mcp_invocation_id
                || !bytes_eq(stored.source_before_digest.as_slice(), source_before_digest)
                || !bytes_eq(stored.source_after_digest.as_slice(), source_after_digest) {
                return Step::Fail(DatabaseError::Conflict);
            }
            if stored.object_id != object_id {
                if log.len() - at <= 2 {
                    return ask_execute(
                        sql::PERSIST_UPDATE_GROUP_UPDATE_OBJECTS,
                        vec![Param::Id(tenant_id), Param::Id(object_id)],
                    );
                }
            }
            let at2: usize = if stored.object_id != object_id {
                at + 3
            } else {
                at + 2
            };
            if log.len() <= at2 {
                return Step::Ask(Command::Commit);
            }
            return Step::Done((stored.object_id, stored.first_sequence, stored.last_sequence));
        }
        if room.durable_sequence != expected_base_sequence {
            if log.len() - at <= 2 {
                return ask_execute(
                    sql::PERSIST_UPDATE_GROUP_UPDATE_OBJECTS,
                    vec![Param::Id(tenant_id), Param::Id(object_id)],
                );
            }
            if log.len() - at <= 3 {
                return Step::Ask(Command::Commit);
            }
            return Step::Fail(DatabaseError::StaleGeneration);
        }
        if room.durable_sequence == i64::MAX {
            return Step::Fail(DatabaseError::InvalidPersistedValue);
        }
        let sequence: i64 = room.durable_sequence + 1;
        if log.len() - at <= 2 {
            return ask_execute(
                sql::PERSIST_UPDATE_GROUP_INSERT_UPDATE_GROUPS,
                vec![
                    Param::Id(tenant_id), Param::Id(room_id), Param::I64(epoch), Param::FreshId,
                    Param::Id(client_id), Param::Id(client_update_id),
                    Param::Id(authorization.principal_id),
                    Param::Text(if mcp_invocation_id.is_some() { "mcp" } else { "user" }),
                    Param::OptId(mcp_invocation_id), Param::Bytes(source_before_digest),
                    Param::Bytes(source_after_digest), Param::Id(object_id),
                    Param::I32(chunks.len() as i32), Param::I64(total), Param::I64(sequence),
                    Param::I64(sequence), Param::Bytes(state_vector),
                    Param::Bytes(state_digest),
                ],
            );
        }
        if let Err(fault) = exactly_one(&log[at + 2], DatabaseError::Conflict) {
            return stop(fault);
        }
        if log.len() - at <= 3 {
            return ask_one(
                sql::PERSIST_UPDATE_GROUP_SELECT_UPDATE_GROUPS_2,
                vec![
                    Param::Id(tenant_id), Param::Id(room_id), Param::I64(epoch),
                    Param::Id(client_id), Param::Id(client_update_id),
                ],
            );
        }
        let group_id: Uuid = match single::<Uuid>(&log[at + 3]) {
            Ok(value) => value,
            Err(fault) => return stop(fault),
        };
        let items3: usize = chunks.len();
        if log.len() - (at + 4) < items3 {
            let j: usize = log.len() - (at + 4);
            return ask_execute(
                sql::PERSIST_UPDATE_GROUP_INSERT_UPDATE_CHUNKS,
                vec![
                    Param::Id(tenant_id), Param::Id(group_id),
                    Param::I32(chunks[j].chunk_index), Param::I64(chunks[j].object_offset),
                    Param::I32(chunks[j].size_bytes), Param::Blob(chunks[j].blake3.clone()),
                ],
            );
        }
        let at3: usize = at + 4 + items3;
        if log.len() <= at3 {
            return ask_execute(
                sql::PERSIST_UPDATE_GROUP_UPDATE_EPOCHS,
                vec![
                    Param::Id(tenant_id), Param::Id(room_id), Param::I64(epoch),
                    Param::I64(sequence),
                ],
            );
        }
        if log.len() - at3 <= 1 {
            return Step::Ask(Command::Commit);
        }
        Step::Done((object_id, sequence, sequence))
    }

    /// `collaboration_persist_update_group` runs in one transaction. Once its commit is
    /// acknowledged, it is done, or it reports the refusal that it has made durable.
    #[verifier::spinoff_prover]
    #[verifier::rlimit(80)]
    pub proof fn collaboration_persist_update_group_is_atomic<'a>(
        tenant_id: Uuid, room_id: Uuid, epoch: i64, expected_fencing_token: i64,
        expected_base_sequence: i64, client_id: Uuid, client_update_id: Uuid,
        authorization: CollaborationAuthorizationContext, mcp_invocation_id: Option<Uuid>,
        source_before_digest: &'a [u8], source_after_digest: &'a [u8], object_id: Uuid,
        chunks: &'a Vec<CollaborationUpdateChunkInput>, state_vector: &'a [u8],
        state_digest: &'a [u8], log: Seq<Reply>,
    )
        ensures
            crate::step::is_atomic(
                Self::collaboration_persist_update_group_script(
                    tenant_id, room_id, epoch, expected_base_sequence, client_id,
                    client_update_id, authorization, mcp_invocation_id, source_before_digest,
                    source_after_digest, object_id, chunks, state_vector, state_digest, log,
                ),
                0,
            ),
            crate::step::commit_acknowledged(
                Self::collaboration_persist_update_group_fault(
                    expected_fencing_token, expected_base_sequence, authorization,
                    mcp_invocation_id, source_before_digest, source_after_digest, chunks,
                    state_vector, state_digest, log.drop_last(),
                ),
                Self::collaboration_persist_update_group_script(
                    tenant_id, room_id, epoch, expected_base_sequence, client_id,
                    client_update_id, authorization, mcp_invocation_id, source_before_digest,
                    source_after_digest, object_id, chunks, state_vector, state_digest,
                    log.drop_last(),
                ),
                log,
            ) ==> {
                ||| Self::collaboration_persist_update_group_fault(
                    expected_fencing_token, expected_base_sequence, authorization,
                    mcp_invocation_id, source_before_digest, source_after_digest, chunks,
                    state_vector, state_digest, log,
                ) is None && log.len() == Self::collaboration_persist_update_group_script(
                    tenant_id, room_id, epoch, expected_base_sequence, client_id,
                    client_update_id, authorization, mcp_invocation_id, source_before_digest,
                    source_after_digest, object_id, chunks, state_vector, state_digest, log,
                ).len()
                ||| Self::collaboration_persist_update_group_fault(
                    expected_fencing_token, expected_base_sequence, authorization,
                    mcp_invocation_id, source_before_digest, source_after_digest, chunks,
                    state_vector, state_digest, log,
                ) == Some(Fault::Error(DatabaseError::StaleGeneration))
            },
    {
    }

    /// `collaboration_persist_update_group` goes past its fence only where the generations that it
    /// has locked are those that the caller was authorized under.
    pub proof fn collaboration_persist_update_group_is_fenced<'a>(
        expected_fencing_token: i64, expected_base_sequence: i64,
        authorization: CollaborationAuthorizationContext, mcp_invocation_id: Option<Uuid>,
        source_before_digest: &'a [u8], source_after_digest: &'a [u8],
        chunks: &'a Vec<CollaborationUpdateChunkInput>, state_vector: &'a [u8],
        state_digest: &'a [u8], log: Seq<Reply>,
    )
        ensures
            ({
                let fence =
                    log[1].required_row::<FenceGenerations>(DatabaseError::StaleGeneration)->Ok_0;
                Self::collaboration_persist_update_group_fault(
                    expected_fencing_token, expected_base_sequence, authorization,
                    mcp_invocation_id, source_before_digest, source_after_digest, chunks,
                    state_vector, state_digest, log,
                ) is None && log.len() > 1
                    ==> log[1].required_row::<FenceGenerations>(
                        DatabaseError::StaleGeneration,
                    ) is Ok
                    && fence.agrees_with(authorization.expected())
            }),
    {
    }

    /// Every statement of `collaboration_persist_update_group` is about its tenant.
    pub proof fn collaboration_persist_update_group_is_scoped<'a>(
        tenant_id: Uuid,
        room_id: Uuid,
        epoch: i64,
        expected_base_sequence: i64,
        client_id: Uuid,
        client_update_id: Uuid,
        authorization: CollaborationAuthorizationContext,
        mcp_invocation_id: Option<Uuid>,
        source_before_digest: &'a [u8],
        source_after_digest: &'a [u8],
        object_id: Uuid,
        chunks: &'a Vec<CollaborationUpdateChunkInput>,
        state_vector: &'a [u8],
        state_digest: &'a [u8],
        log: Seq<Reply>,
    )
        ensures
            crate::step::is_scoped(
                Self::collaboration_persist_update_group_script(
                    tenant_id, room_id, epoch, expected_base_sequence, client_id, client_update_id,
                    authorization, mcp_invocation_id, source_before_digest, source_after_digest,
                    object_id, chunks, state_vector, state_digest, log,
                ),
                tenant_id,
            ),
    {
    }

    /// What stops `collaboration_current_snapshot`, in order.
    pub open spec fn collaboration_current_snapshot_fault(log: Seq<Reply>) -> Option<Fault> {
        if log.len() > 0 && log[0].optional_row::<CollaborationSnapshotRecord>() is Err {
            Fault::of(log[0].optional_row::<CollaborationSnapshotRecord>())
        } else {
            None
        }
    }

    /// The commands of `collaboration_current_snapshot`, in order.
    pub open spec fn collaboration_current_snapshot_script<'a>(
        tenant_id: Uuid, room_id: Uuid, epoch: i64, log: Seq<Reply>,
    ) -> Seq<CommandView<'a>> {
        seq![
            CommandView::optional(
                sql::CURRENT_SNAPSHOT,
                seq![Param::Id(tenant_id), Param::Id(room_id), Param::I64(epoch)],
            ),
        ]
    }

    /// What `collaboration_current_snapshot` returns.
    pub open spec fn collaboration_current_snapshot_output(
        log: Seq<Reply>,
    ) -> Option<CollaborationSnapshotRecord> {
        let snapshot = log[0].optional_row::<CollaborationSnapshotRecord>()->Ok_0;
        snapshot
    }

    /// Returns the verified full-state snapshot that anchors the epoch, if there is one.
    pub fn collaboration_current_snapshot<'a>(
        tenant_id: Uuid, room_id: Uuid, epoch: i64, log: &'a [Reply],
    ) -> (step: Step<'a, Option<CollaborationSnapshotRecord>>)
        ensures
            step@ == StepView::proceed(
                Self::collaboration_current_snapshot_fault(log@),
                Self::collaboration_current_snapshot_script(tenant_id, room_id, epoch, log@),
                Self::collaboration_current_snapshot_output(log@),
                log@,
            ),
    {
        if log.len() == 0 {
            return ask_optional(
                sql::CURRENT_SNAPSHOT,
                vec![Param::Id(tenant_id), Param::Id(room_id), Param::I64(epoch)],
            );
        }
        let snapshot: Option<CollaborationSnapshotRecord> = match optional(&log[0]) {
            Ok(value) => value,
            Err(fault) => return stop(fault),
        };
        Step::Done(snapshot)
    }

    /// Every statement of `collaboration_current_snapshot` is about its tenant.
    pub proof fn collaboration_current_snapshot_is_scoped(
        tenant_id: Uuid, room_id: Uuid, epoch: i64, log: Seq<Reply>,
    )
        ensures
            crate::step::is_scoped(
                Self::collaboration_current_snapshot_script(tenant_id, room_id, epoch, log),
                tenant_id,
            ),
    {
    }

    /// What stops `collaboration_commit_snapshot`, in order.
    pub open spec fn collaboration_commit_snapshot_fault<'a>(
        expected_fencing_token: i64, authorization: CollaborationAuthorizationContext,
        object_id: Uuid, covered_sequence: i64, state_vector: &'a [u8], log: Seq<Reply>,
    ) -> Option<Fault> {
        let fence = log[1].required_row::<FenceGenerations>(DatabaseError::StaleGeneration)->Ok_0;
        let room = log[2].required_row::<AnchorableEpoch>(DatabaseError::Conflict)->Ok_0;
        let anchor = log[4].optional_row::<CurrentSnapshot>()->Ok_0;
        let current = anchor->0;
        let at = if anchor is Some {
            7int
        } else {
            5
        };
        let drawn = log[at].drawn_ids(1);
        if covered_sequence < 0 || state_vector@.len() > 1_048_576 {
            Some(Fault::Error(DatabaseError::InvalidPersistedValue))
        } else if log.len() > 1
            && log[1].required_row::<FenceGenerations>(DatabaseError::StaleGeneration) is Err {
            Fault::of(log[1].required_row::<FenceGenerations>(DatabaseError::StaleGeneration))
        } else if log.len() > 1 && !fence.agrees_with(authorization.expected()) {
            Some(Fault::Error(DatabaseError::StaleGeneration))
        } else if log.len() > 2
            && log[2].required_row::<AnchorableEpoch>(DatabaseError::Conflict) is Err {
            Fault::of(log[2].required_row::<AnchorableEpoch>(DatabaseError::Conflict))
        } else if log.len() > 2 && (room.fencing_token != expected_fencing_token
                || covered_sequence > room.durable_sequence) {
            Some(Fault::Error(DatabaseError::StaleGeneration))
        } else if log.len() > 3 && log[3].required_row::<()>(DatabaseError::Conflict) is Err {
            Fault::of(log[3].required_row::<()>(DatabaseError::Conflict))
        } else if log.len() > 4 && log[4].optional_row::<CurrentSnapshot>() is Err {
            Fault::of(log[4].optional_row::<CurrentSnapshot>())
        } else if log.len() > 4
            && anchor is Some
            && anchor->0.covered_sequence > covered_sequence {
            Some(Fault::Error(DatabaseError::StaleGeneration))
        } else if log.len() > 4
            && anchor is Some
            && anchor->0.covered_sequence == covered_sequence {
            if log.len() > 5 && current.object_id == object_id {
                None
            } else if log.len() > 5 {
                Some(Fault::Error(DatabaseError::Conflict))
            } else {
                None
            }
        } else if log.len() > at && drawn is Err {
            Fault::of(drawn)
        } else {
            None
        }
    }

    /// The commands of `collaboration_commit_snapshot`, in order.
    pub open spec fn collaboration_commit_snapshot_script<'a>(
        tenant_id: Uuid, room_id: Uuid, epoch: i64,
        authorization: CollaborationAuthorizationContext, object_id: Uuid,
        covered_sequence: i64, state_vector: &'a [u8], log: Seq<Reply>,
    ) -> Seq<CommandView<'a>> {
        let anchor = log[4].optional_row::<CurrentSnapshot>()->Ok_0;
        let replaced = anchor->0;
        let at = if anchor is Some {
            7int
        } else {
            5
        };
        let drawn = log[at].drawn_ids(1);
        let snapshot_id = drawn->Ok_0[0];
        seq![
            CommandView::Begin,
            CommandView::optional(
                catalog::LOCK_COLLABORATION_AUTHORIZATION_FENCE,
                seq![
                    Param::Id(tenant_id), Param::Id(authorization.session_id),
                    Param::Id(authorization.principal_id), Param::Id(authorization.drive_id),
                    Param::Id(authorization.node_id),
                ],
            ),
            CommandView::optional(
                sql::COMMIT_SNAPSHOT_SELECT_EPOCHS,
                seq![
                    Param::Id(tenant_id), Param::Id(room_id), Param::I64(epoch),
                    Param::Id(authorization.drive_id), Param::Id(authorization.node_id),
                ],
            ),
            CommandView::optional(
                sql::COMMIT_SNAPSHOT_SELECT_OBJECTS,
                seq![
                    Param::Id(tenant_id), Param::Id(object_id), Param::Id(room_id),
                    Param::I64(epoch),
                ],
            ),
            CommandView::optional(
                sql::COMMIT_SNAPSHOT_SELECT_SNAPSHOTS,
                seq![Param::Id(tenant_id), Param::Id(room_id), Param::I64(epoch)],
            ),
        ].add(
            if anchor is Some && anchor->0.covered_sequence == covered_sequence {
                seq![CommandView::Commit]
            } else {
                if anchor is Some {
                    seq![
                        CommandView::execute(
                            sql::COMMIT_SNAPSHOT_UPDATE_SNAPSHOTS,
                            seq![Param::Id(tenant_id), Param::Id(replaced.id)],
                        ),
                        CommandView::execute(
                            sql::COMMIT_SNAPSHOT_UPDATE_OBJECTS,
                            seq![Param::Id(tenant_id), Param::Id(replaced.object_id)],
                        ),
                    ]
                } else {
                    Seq::empty()
                }.add(
                    seq![
                        CommandView::DrawIds(1),
                        CommandView::execute(
                            sql::COMMIT_SNAPSHOT_INSERT_SNAPSHOTS,
                            seq![
                                Param::Id(tenant_id), Param::Id(room_id), Param::I64(epoch),
                                Param::Id(snapshot_id), Param::Id(object_id),
                                Param::I64(covered_sequence),
                                Param::Bytes(state_vector),
                            ],
                        ),
                        CommandView::execute(
                            sql::COMMIT_SNAPSHOT_UPDATE_OBJECTS_2,
                            seq![
                                Param::Id(tenant_id), Param::Id(room_id), Param::I64(epoch),
                                Param::I64(covered_sequence),
                            ],
                        ),
                        CommandView::Commit,
                    ],
                )
            },
        )
    }

    /// What `collaboration_commit_snapshot` returns.
    pub open spec fn collaboration_commit_snapshot_output(
        covered_sequence: i64,
        log: Seq<Reply>,
    ) -> Uuid {
        let anchor = log[4].optional_row::<CurrentSnapshot>()->Ok_0;
        let current = anchor->0;
        let at = if anchor is Some {
            7int
        } else {
            5
        };
        let drawn = log[at].drawn_ids(1);
        let snapshot_id = drawn->Ok_0[0];
        if anchor is Some && anchor->0.covered_sequence == covered_sequence {
            current.id
        } else {
            snapshot_id
        }
    }

    /// Makes a finalized snapshot the replay anchor and supersedes what it covers. A snapshot of
    /// the same sequence is returned where it is the same object, and is a conflict where it is
    /// not.
    pub fn collaboration_commit_snapshot<'a>(
        tenant_id: Uuid, room_id: Uuid, epoch: i64, expected_fencing_token: i64,
        authorization: CollaborationAuthorizationContext, object_id: Uuid,
        covered_sequence: i64, state_vector: &'a [u8], log: &'a [Reply],
    ) -> (step: Step<'a, Uuid>)
        ensures
            step@ == StepView::proceed(
                Self::collaboration_commit_snapshot_fault(
                    expected_fencing_token, authorization, object_id, covered_sequence,
                    state_vector, log@,
                ),
                Self::collaboration_commit_snapshot_script(
                    tenant_id, room_id, epoch, authorization, object_id, covered_sequence,
                    state_vector, log@,
                ),
                Self::collaboration_commit_snapshot_output(covered_sequence, log@),
                log@,
            ),
    {
        if covered_sequence < 0 || state_vector.len() > 1_048_576 {
            return Step::Fail(DatabaseError::InvalidPersistedValue);
        }
        if log.len() == 0 {
            return Step::Ask(Command::Begin);
        }
        if log.len() <= 1 {
            return ask_optional(
                catalog::LOCK_COLLABORATION_AUTHORIZATION_FENCE,
                vec![
                    Param::Id(tenant_id), Param::Id(authorization.session_id),
                    Param::Id(authorization.principal_id), Param::Id(authorization.drive_id),
                    Param::Id(authorization.node_id),
                ],
            );
        }
        let fence: FenceGenerations = match required(&log[1], DatabaseError::StaleGeneration) {
            Ok(value) => value,
            Err(fault) => return stop(fault),
        };
        if !fence.agree(authorization.expected_generations()) {
            return Step::Fail(DatabaseError::StaleGeneration);
        }
        if log.len() <= 2 {
            return ask_optional(
                sql::COMMIT_SNAPSHOT_SELECT_EPOCHS,
                vec![
                    Param::Id(tenant_id), Param::Id(room_id), Param::I64(epoch),
                    Param::Id(authorization.drive_id), Param::Id(authorization.node_id),
                ],
            );
        }
        let room: AnchorableEpoch = match required(&log[2], DatabaseError::Conflict) {
            Ok(value) => value,
            Err(fault) => return stop(fault),
        };
        if room.fencing_token != expected_fencing_token
            || covered_sequence > room.durable_sequence {
            return Step::Fail(DatabaseError::StaleGeneration);
        }
        if log.len() <= 3 {
            return ask_optional(
                sql::COMMIT_SNAPSHOT_SELECT_OBJECTS,
                vec![
                    Param::Id(tenant_id), Param::Id(object_id), Param::Id(room_id),
                    Param::I64(epoch),
                ],
            );
        }
        let durable: () = match required::<()>(&log[3], DatabaseError::Conflict) {
            Ok(value) => value,
            Err(fault) => return stop(fault),
        };
        if log.len() <= 4 {
            return ask_optional(
                sql::COMMIT_SNAPSHOT_SELECT_SNAPSHOTS,
                vec![Param::Id(tenant_id), Param::Id(room_id), Param::I64(epoch)],
            );
        }
        let anchor: Option<CurrentSnapshot> = match optional::<CurrentSnapshot>(&log[4]) {
            Ok(value) => value,
            Err(fault) => return stop(fault),
        };
        if anchor.is_some() && anchor.as_ref().unwrap().covered_sequence > covered_sequence {
            return Step::Fail(DatabaseError::StaleGeneration);
        }
        if anchor.is_some() && anchor.as_ref().unwrap().covered_sequence == covered_sequence {
            let current: CurrentSnapshot = anchor.unwrap();
            if log.len() <= 5 {
                return Step::Ask(Command::Commit);
            }
            if current.object_id == object_id {
                return Step::Done(current.id);
            }
            return Step::Fail(DatabaseError::Conflict);
        }
        if anchor.is_some() {
            let replaced: CurrentSnapshot = anchor.unwrap();
            if log.len() <= 5 {
                return ask_execute(
                    sql::COMMIT_SNAPSHOT_UPDATE_SNAPSHOTS,
                    vec![Param::Id(tenant_id), Param::Id(replaced.id)],
                );
            }
            if log.len() <= 6 {
                return ask_execute(
                    sql::COMMIT_SNAPSHOT_UPDATE_OBJECTS,
                    vec![Param::Id(tenant_id), Param::Id(replaced.object_id)],
                );
            }
        }
        let at: usize = if anchor.is_some() {
            7
        } else {
            5
        };
        if log.len() <= at {
            return Step::Ask(Command::DrawIds(1));
        }
        let drawn: &Vec<Uuid> = match drawn(&log[at], 1) {
            Ok(ids) => ids,
            Err(fault) => return stop(fault),
        };
        let snapshot_id: Uuid = drawn[0];
        if log.len() - at <= 1 {
            return ask_execute(
                sql::COMMIT_SNAPSHOT_INSERT_SNAPSHOTS,
                vec![
                    Param::Id(tenant_id), Param::Id(room_id), Param::I64(epoch),
                    Param::Id(snapshot_id), Param::Id(object_id), Param::I64(covered_sequence),
                    Param::Bytes(state_vector),
                ],
            );
        }
        if log.len() - at <= 2 {
            return ask_execute(
                sql::COMMIT_SNAPSHOT_UPDATE_OBJECTS_2,
                vec![
                    Param::Id(tenant_id), Param::Id(room_id), Param::I64(epoch),
                    Param::I64(covered_sequence),
                ],
            );
        }
        if log.len() - at <= 3 {
            return Step::Ask(Command::Commit);
        }
        Step::Done(snapshot_id)
    }

    /// `collaboration_commit_snapshot` runs in one transaction. Once its commit is acknowledged, it
    /// is done, or it reports the refusal that it has made durable.
    pub proof fn collaboration_commit_snapshot_is_atomic<'a>(
        tenant_id: Uuid, room_id: Uuid, epoch: i64, expected_fencing_token: i64,
        authorization: CollaborationAuthorizationContext, object_id: Uuid,
        covered_sequence: i64, state_vector: &'a [u8], log: Seq<Reply>,
    )
        ensures
            crate::step::is_atomic(
                Self::collaboration_commit_snapshot_script(
                    tenant_id, room_id, epoch, authorization, object_id, covered_sequence,
                    state_vector, log,
                ),
                0,
            ),
            crate::step::commit_acknowledged(
                Self::collaboration_commit_snapshot_fault(
                    expected_fencing_token, authorization, object_id, covered_sequence,
                    state_vector, log.drop_last(),
                ),
                Self::collaboration_commit_snapshot_script(
                    tenant_id, room_id, epoch, authorization, object_id, covered_sequence,
                    state_vector, log.drop_last(),
                ),
                log,
            ) ==> {
                ||| Self::collaboration_commit_snapshot_fault(
                    expected_fencing_token, authorization, object_id, covered_sequence,
                    state_vector, log,
                ) is None && log.len() == Self::collaboration_commit_snapshot_script(
                    tenant_id, room_id, epoch, authorization, object_id, covered_sequence,
                    state_vector, log,
                ).len()
                ||| Self::collaboration_commit_snapshot_fault(
                    expected_fencing_token, authorization, object_id, covered_sequence,
                    state_vector, log,
                ) == Some(Fault::Error(DatabaseError::Conflict))
            },
    {
    }

    /// `collaboration_commit_snapshot` goes past its fence only where the generations that it has
    /// locked are those that the caller was authorized under.
    pub proof fn collaboration_commit_snapshot_is_fenced<'a>(
        expected_fencing_token: i64, authorization: CollaborationAuthorizationContext,
        object_id: Uuid, covered_sequence: i64, state_vector: &'a [u8], log: Seq<Reply>,
    )
        ensures
            ({
                let fence =
                    log[1].required_row::<FenceGenerations>(DatabaseError::StaleGeneration)->Ok_0;
                Self::collaboration_commit_snapshot_fault(
                    expected_fencing_token, authorization, object_id, covered_sequence,
                    state_vector, log,
                ) is None && log.len() > 1
                    ==> log[1].required_row::<FenceGenerations>(
                        DatabaseError::StaleGeneration,
                    ) is Ok
                    && fence.agrees_with(authorization.expected())
            }),
    {
    }

    /// Every statement of `collaboration_commit_snapshot` is about its tenant.
    pub proof fn collaboration_commit_snapshot_is_scoped<'a>(
        tenant_id: Uuid,
        room_id: Uuid,
        epoch: i64,
        authorization: CollaborationAuthorizationContext,
        object_id: Uuid,
        covered_sequence: i64,
        state_vector: &'a [u8],
        log: Seq<Reply>,
    )
        ensures
            crate::step::is_scoped(
                Self::collaboration_commit_snapshot_script(
                    tenant_id, room_id, epoch, authorization, object_id, covered_sequence,
                    state_vector, log,
                ),
                tenant_id,
            ),
    {
    }

    /// What stops `collaboration_abandon_object`, in order.
    pub open spec fn collaboration_abandon_object_fault(log: Seq<Reply>) -> Option<Fault> {
        let object = log[1].required_row::<AbandonableObject>(DatabaseError::NotFound)->Ok_0;
        let referenced = log[2].single_row::<bool>()->Ok_0;
        let released = log[3].row_count()->Ok_0;
        let drive = log[4].row_count()->Ok_0;
        let quarantined = log[5].row_count()->Ok_0;
        let at = if object.state@ == "staging"@ {
            6int
        } else {
            3
        };
        let at2 = if object.state@ != "staging"@ {
            at + 1
        } else {
            at
        };
        if log.len() > 1
            && log[1].required_row::<AbandonableObject>(DatabaseError::NotFound) is Err {
            Fault::of(log[1].required_row::<AbandonableObject>(DatabaseError::NotFound))
        } else if log.len() > 1
            && (object.state@ == "quarantined"@
                    || object.state@ == "delete_intent"@
                    || object.state@ == "tombstoned"@
                    || object.state@ == "abandoned"@) {
            None
        } else if log.len() > 2 && log[2].single_row::<bool>() is Err {
            Fault::of(log[2].single_row::<bool>())
        } else if log.len() > 2 && referenced {
            Some(Fault::Error(DatabaseError::Conflict))
        } else if log.len() > 2
            && object.state@ != "staging"@
            && object.state@ != "durable"@
            && object.state@ != "superseded"@ {
            Some(Fault::Error(DatabaseError::Conflict))
        } else if object.state@ == "staging"@ && log.len() > 3 && log[3].row_count() is Err {
            Fault::of(log[3].row_count())
        } else if object.state@ == "staging"@ && log.len() > 3 && (released != 1
                || object.reservation_state@ != "active"@) {
            Some(Fault::Error(DatabaseError::StaleGeneration))
        } else if object.state@ == "staging"@ && log.len() > 4 && log[4].row_count() is Err {
            Fault::of(log[4].row_count())
        } else if object.state@ == "staging"@ && log.len() > 5 && log[5].row_count() is Err {
            Fault::of(log[5].row_count())
        } else if object.state@ == "staging"@
            && log.len() > 5
            && (drive != 1 || quarantined != 1) {
            Some(Fault::Error(DatabaseError::StaleGeneration))
        } else if object.state@ != "staging"@ && log.len() > at - 1
            && (object.reservation_state@ != "committed"@ || object.size_bytes is None) {
            Some(Fault::Error(DatabaseError::StaleGeneration))
        } else if object.state@ != "staging"@ && log.len() > at
            && log[at].one_affected(DatabaseError::StaleGeneration) is Err {
            Fault::of(log[at].one_affected(DatabaseError::StaleGeneration))
        } else if log.len() > at2 && log[at2].one_affected(DatabaseError::StaleGeneration) is Err {
            Fault::of(log[at2].one_affected(DatabaseError::StaleGeneration))
        } else {
            None
        }
    }

    /// The commands of `collaboration_abandon_object`, in order.
    pub open spec fn collaboration_abandon_object_script<'a>(
        tenant_id: Uuid, object_id: Uuid, log: Seq<Reply>,
    ) -> Seq<CommandView<'a>> {
        let object = log[1].required_row::<AbandonableObject>(DatabaseError::NotFound)->Ok_0;
        seq![
            CommandView::Begin,
            CommandView::optional(
                sql::ABANDON_OBJECT_SELECT_OBJECTS,
                seq![Param::Id(tenant_id), Param::Id(object_id)],
            ),
        ].add(
            if (object.state@ == "quarantined"@
                    || object.state@ == "delete_intent"@
                    || object.state@ == "tombstoned"@
                    || object.state@ == "abandoned"@) {
                seq![CommandView::Commit]
            } else {
                seq![
                    CommandView::one(
                        sql::ABANDON_OBJECT_EXISTS_UPDATE_GROUPS,
                        seq![Param::Id(tenant_id), Param::Id(object_id)],
                    ),
                ].add(
                    if object.state@ == "staging"@ {
                        seq![
                            CommandView::execute(
                                sql::ABANDON_OBJECT_UPDATE_OBJECT_RESERVATIONS,
                                seq![Param::Id(tenant_id), Param::Id(object_id)],
                            ),
                            CommandView::execute(
                                sql::ABANDON_OBJECT_UPDATE_DRIVES,
                                seq![
                                    Param::Id(tenant_id), Param::Id(object.drive_id),
                                    Param::I64(object.reserved_bytes),
                                ],
                            ),
                            CommandView::execute(
                                sql::ABANDON_OBJECT_UPDATE_OBJECTS,
                                seq![Param::Id(tenant_id), Param::Id(object_id)],
                            ),
                        ]
                    } else {
                        Seq::empty()
                    },
                ).add(
                    if object.state@ != "staging"@ {
                        seq![
                            CommandView::execute(
                                sql::ABANDON_OBJECT_UPDATE_OBJECTS_2,
                                seq![Param::Id(tenant_id), Param::Id(object_id)],
                            ),
                        ]
                    } else {
                        Seq::empty()
                    },
                ).add(
                    seq![
                        CommandView::execute(
                            sql::ABANDON_OBJECT_UPDATE_PAYLOAD_OBJECTS,
                            seq![
                                Param::Id(tenant_id), Param::Id(object.payload_id),
                                Param::Text(
                                    if object.state@ == "staging"@ { "abandoned" } else {
                                        "delete_intent"
                                    },
                                ),
                            ],
                        ),
                        CommandView::execute(
                            sql::ABANDON_OBJECT_INSERT_JOBS,
                            seq![
                                Param::Id(tenant_id), Param::FreshId,
                                Param::Id(object.payload_id),
                                Param::Label("collaboration-abandon:", object.payload_id),
                                Param::Object1("payload_id", Detail::Id(object.payload_id)),
                            ],
                        ),
                        CommandView::Commit,
                    ],
                )
            },
        )
    }

    /// Makes an object that never reached a room's manifest reclaimable. A staging object releases
    /// its reservation at once; a finalized one keeps its used bytes until its physical deletion is
    /// confirmed. An object that a manifest refers to is never abandoned.
    pub fn collaboration_abandon_object<'a>(
        tenant_id: Uuid, object_id: Uuid, log: &'a [Reply],
    ) -> (step: Step<'a, ()>)
        ensures
            step@ == StepView::proceed(
                Self::collaboration_abandon_object_fault(log@),
                Self::collaboration_abandon_object_script(tenant_id, object_id, log@),
                (),
                log@,
            ),
    {
        if log.len() == 0 {
            return Step::Ask(Command::Begin);
        }
        if log.len() <= 1 {
            return ask_optional(
                sql::ABANDON_OBJECT_SELECT_OBJECTS,
                vec![Param::Id(tenant_id), Param::Id(object_id)],
            );
        }
        let object: AbandonableObject = match required(&log[1], DatabaseError::NotFound) {
            Ok(value) => value,
            Err(fault) => return stop(fault),
        };
        if (text_eq(object.state.as_str(), "quarantined")
            || text_eq(object.state.as_str(), "delete_intent")
            || text_eq(object.state.as_str(), "tombstoned")
            || text_eq(object.state.as_str(), "abandoned")) {
            if log.len() <= 2 {
                return Step::Ask(Command::Commit);
            }
            return Step::Done(());
        }
        if log.len() <= 2 {
            return ask_one(
                sql::ABANDON_OBJECT_EXISTS_UPDATE_GROUPS,
                vec![Param::Id(tenant_id), Param::Id(object_id)],
            );
        }
        let referenced: bool = match single::<bool>(&log[2]) {
            Ok(value) => value,
            Err(fault) => return stop(fault),
        };
        if referenced {
            return Step::Fail(DatabaseError::Conflict);
        }
        if !text_eq(object.state.as_str(), "staging")
            && !text_eq(object.state.as_str(), "durable")
            && !text_eq(object.state.as_str(), "superseded") {
            return Step::Fail(DatabaseError::Conflict);
        }
        if text_eq(object.state.as_str(), "staging") {
            if log.len() <= 3 {
                return ask_execute(
                    sql::ABANDON_OBJECT_UPDATE_OBJECT_RESERVATIONS,
                    vec![Param::Id(tenant_id), Param::Id(object_id)],
                );
            }
            let released: u64 = match affected(&log[3]) {
                Ok(value) => value,
                Err(fault) => return stop(fault),
            };
            if released != 1 || !text_eq(object.reservation_state.as_str(), "active") {
                return Step::Fail(DatabaseError::StaleGeneration);
            }
            if log.len() <= 4 {
                return ask_execute(
                    sql::ABANDON_OBJECT_UPDATE_DRIVES,
                    vec![
                        Param::Id(tenant_id), Param::Id(object.drive_id),
                        Param::I64(object.reserved_bytes),
                    ],
                );
            }
            let drive: u64 = match affected(&log[4]) {
                Ok(value) => value,
                Err(fault) => return stop(fault),
            };
            if log.len() <= 5 {
                return ask_execute(
                    sql::ABANDON_OBJECT_UPDATE_OBJECTS,
                    vec![Param::Id(tenant_id), Param::Id(object_id)],
                );
            }
            let quarantined: u64 = match affected(&log[5]) {
                Ok(value) => value,
                Err(fault) => return stop(fault),
            };
            if drive != 1 || quarantined != 1 {
                return Step::Fail(DatabaseError::StaleGeneration);
            }
        }
        let at: usize = if text_eq(object.state.as_str(), "staging") {
            6
        } else {
            3
        };
        if !text_eq(object.state.as_str(), "staging") {
            if !text_eq(object.reservation_state.as_str(), "committed")
                || object.size_bytes.is_none() {
                return Step::Fail(DatabaseError::StaleGeneration);
            }
            if log.len() <= at {
                return ask_execute(
                    sql::ABANDON_OBJECT_UPDATE_OBJECTS_2,
                    vec![Param::Id(tenant_id), Param::Id(object_id)],
                );
            }
            if let Err(fault) = exactly_one(&log[at], DatabaseError::StaleGeneration) {
                return stop(fault);
            }
        }
        let at2: usize = if !text_eq(object.state.as_str(), "staging") {
            at + 1
        } else {
            at
        };
        if log.len() <= at2 {
            return ask_execute(
                sql::ABANDON_OBJECT_UPDATE_PAYLOAD_OBJECTS,
                vec![
                    Param::Id(tenant_id), Param::Id(object.payload_id),
                    Param::Text(
                        if text_eq(
                            object.state.as_str(),
                            "staging",
                        ) { "abandoned" } else { "delete_intent" },
                    ),
                ],
            );
        }
        if let Err(fault) = exactly_one(&log[at2], DatabaseError::StaleGeneration) {
            return stop(fault);
        }
        if log.len() - at2 <= 1 {
            return ask_execute(
                sql::ABANDON_OBJECT_INSERT_JOBS,
                vec![
                    Param::Id(tenant_id), Param::FreshId, Param::Id(object.payload_id),
                    Param::Label("collaboration-abandon:", object.payload_id),
                    Param::Object1("payload_id", Detail::Id(object.payload_id)),
                ],
            );
        }
        if log.len() - at2 <= 2 {
            return Step::Ask(Command::Commit);
        }
        Step::Done(())
    }

    /// `collaboration_abandon_object` runs in one transaction: it is done once its commit is
    /// acknowledged, and when it fails, nothing was committed.
    pub proof fn collaboration_abandon_object_is_atomic(
        tenant_id: Uuid, object_id: Uuid, log: Seq<Reply>,
    )
        ensures
            crate::step::is_atomic(
                Self::collaboration_abandon_object_script(tenant_id, object_id, log),
                0,
            ),
            crate::step::commit_acknowledged(
                Self::collaboration_abandon_object_fault(log.drop_last()),
                Self::collaboration_abandon_object_script(tenant_id, object_id, log.drop_last()),
                log,
            ) ==> {
                &&& Self::collaboration_abandon_object_fault(log) is None
                &&& log.len() == Self::collaboration_abandon_object_script(
                    tenant_id, object_id, log,
                ).len()
            },
    {
    }

    /// Every statement of `collaboration_abandon_object` is about its tenant.
    pub proof fn collaboration_abandon_object_is_scoped(
        tenant_id: Uuid, object_id: Uuid, log: Seq<Reply>,
    )
        ensures
            crate::step::is_scoped(
                Self::collaboration_abandon_object_script(tenant_id, object_id, log),
                tenant_id,
            ),
    {
    }

    /// What stops `complete_collaboration_payload_deletion`, in order.
    pub open spec fn complete_collaboration_payload_deletion_fault(
        log: Seq<Reply>,
    ) -> Option<Fault> {
        let object = log[1].required_row::<DeletedObject>(DatabaseError::StaleGeneration)->Ok_0;
        let payload = if object.payload_state@ == "deleting"@ {
            log[2].row_count()->Ok_0
        } else {
            1
        };
        let at = if object.payload_state@ == "deleting"@ {
            3int
        } else {
            2
        };
        let closed = log[at].row_count()->Ok_0;
        let drive = if object.size_bytes is Some {
            log[at + 1].row_count()->Ok_0
        } else {
            1
        };
        let at2 = if object.size_bytes is Some {
            at + 2
        } else {
            at + 1
        };
        if log.len() > 1
            && log[1].required_row::<DeletedObject>(DatabaseError::StaleGeneration) is Err {
            Fault::of(log[1].required_row::<DeletedObject>(DatabaseError::StaleGeneration))
        } else if log.len() > 1
            && (object.state@ == "tombstoned"@ || object.state@ == "abandoned"@) {
            None
        } else if log.len() > 1 && object.payload_state@ != "deleting"@
            && object.payload_state@ != "abandoned"@ {
            Some(Fault::Error(DatabaseError::StaleGeneration))
        } else if object.payload_state@ == "deleting"@ && log.len() > 2
            && log[2].row_count() is Err {
            Fault::of(log[2].row_count())
        } else if log.len() > at && log[at].row_count() is Err {
            Fault::of(log[at].row_count())
        } else if log.len() > at
            && object.reservation_state@ != if object.size_bytes is Some {
            "committed"
        } else { "released" }@ {
            Some(Fault::Error(DatabaseError::StaleGeneration))
        } else if object.size_bytes is Some && log.len() > at + 1
            && log[at + 1].row_count() is Err {
            Fault::of(log[at + 1].row_count())
        } else if log.len() > at2 - 1 && (payload != 1 || closed != 1 || drive != 1) {
            Some(Fault::Error(DatabaseError::StaleGeneration))
        } else {
            None
        }
    }

    /// The commands of `complete_collaboration_payload_deletion`, in order.
    pub open spec fn complete_collaboration_payload_deletion_script<'a>(
        tenant_id: Uuid, payload_id: Uuid, log: Seq<Reply>,
    ) -> Seq<CommandView<'a>> {
        let object = log[1].required_row::<DeletedObject>(DatabaseError::StaleGeneration)->Ok_0;
        seq![
            CommandView::Begin,
            CommandView::optional(
                sql::COMPLETE_COLLABORATION_PAYLOAD_DELETION_SELECT_OBJECTS,
                seq![Param::Id(tenant_id), Param::Id(payload_id)],
            ),
        ].add(
            if (object.state@ == "tombstoned"@ || object.state@ == "abandoned"@) {
                seq![CommandView::Commit]
            } else {
                if object.payload_state@ == "deleting"@ {
                    seq![
                        CommandView::execute(
                            sql::COMPLETE_COLLABORATION_PAYLOAD_DELETION_UPDATE_PAYLOAD_OBJECTS,
                            seq![Param::Id(tenant_id), Param::Id(payload_id)],
                        ),
                    ]
                } else {
                    Seq::empty()
                }.add(
                    seq![
                        CommandView::execute(
                            sql::COMPLETE_COLLABORATION_PAYLOAD_DELETION_UPDATE_OBJECTS,
                            seq![
                                Param::Id(tenant_id), Param::Id(object.id),
                                Param::Text(
                                    if object.size_bytes is Some {
                                        "tombstoned"
                                    } else { "abandoned" },
                                ),
                            ],
                        ),
                    ],
                ).add(
                    if object.size_bytes is Some {
                        seq![
                            CommandView::execute(
                                sql::COMPLETE_COLLABORATION_PAYLOAD_DELETION_UPDATE_DRIVES,
                                seq![
                                    Param::Id(tenant_id), Param::Id(object.drive_id),
                                    Param::I64(object.size_bytes->0),
                                ],
                            ),
                        ]
                    } else {
                        Seq::empty()
                    },
                ).add(seq![CommandView::Commit])
            },
        )
    }

    /// Records the physical deletion of an abandoned payload and returns committed bytes to the
    /// drive's quota exactly once. Staging reservations were released before their job was queued.
    pub fn complete_collaboration_payload_deletion<'a>(
        tenant_id: Uuid, payload_id: Uuid, log: &'a [Reply],
    ) -> (step: Step<'a, ()>)
        ensures
            step@ == StepView::proceed(
                Self::complete_collaboration_payload_deletion_fault(log@),
                Self::complete_collaboration_payload_deletion_script(tenant_id, payload_id, log@),
                (),
                log@,
            ),
    {
        if log.len() == 0 {
            return Step::Ask(Command::Begin);
        }
        if log.len() <= 1 {
            return ask_optional(
                sql::COMPLETE_COLLABORATION_PAYLOAD_DELETION_SELECT_OBJECTS,
                vec![Param::Id(tenant_id), Param::Id(payload_id)],
            );
        }
        let object: DeletedObject = match required(&log[1], DatabaseError::StaleGeneration) {
            Ok(value) => value,
            Err(fault) => return stop(fault),
        };
        if (text_eq(object.state.as_str(), "tombstoned")
            || text_eq(object.state.as_str(), "abandoned")) {
            if log.len() <= 2 {
                return Step::Ask(Command::Commit);
            }
            return Step::Done(());
        }
        if !text_eq(object.payload_state.as_str(), "deleting")
            && !text_eq(object.payload_state.as_str(), "abandoned") {
            return Step::Fail(DatabaseError::StaleGeneration);
        }
        let payload: u64 = if text_eq(object.payload_state.as_str(), "deleting") {
            if log.len() <= 2 {
                return ask_execute(
                    sql::COMPLETE_COLLABORATION_PAYLOAD_DELETION_UPDATE_PAYLOAD_OBJECTS,
                    vec![Param::Id(tenant_id), Param::Id(payload_id)],
                );
            }
            let payload: u64 = match affected(&log[2]) {
                Ok(value) => value,
                Err(fault) => return stop(fault),
            };
            payload
        } else {
            1
        };
        let at: usize = if text_eq(object.payload_state.as_str(), "deleting") {
            3
        } else {
            2
        };
        if log.len() <= at {
            return ask_execute(
                sql::COMPLETE_COLLABORATION_PAYLOAD_DELETION_UPDATE_OBJECTS,
                vec![
                    Param::Id(tenant_id), Param::Id(object.id),
                    Param::Text(
                        if object.size_bytes.is_some() { "tombstoned" } else { "abandoned" },
                    ),
                ],
            );
        }
        let closed: u64 = match affected(&log[at]) {
            Ok(value) => value,
            Err(fault) => return stop(fault),
        };
        if !text_eq(
            object.reservation_state.as_str(),
            if object.size_bytes.is_some() { "committed" } else { "released" },
        ) {
            return Step::Fail(DatabaseError::StaleGeneration);
        }
        let drive: u64 = if object.size_bytes.is_some() {
            if log.len() - at <= 1 {
                return ask_execute(
                    sql::COMPLETE_COLLABORATION_PAYLOAD_DELETION_UPDATE_DRIVES,
                    vec![
                        Param::Id(tenant_id), Param::Id(object.drive_id),
                        Param::I64(object.size_bytes.unwrap()),
                    ],
                );
            }
            let drive: u64 = match affected(&log[at + 1]) {
                Ok(value) => value,
                Err(fault) => return stop(fault),
            };
            drive
        } else {
            1
        };
        let at2: usize = if object.size_bytes.is_some() {
            at + 2
        } else {
            at + 1
        };
        if payload != 1 || closed != 1 || drive != 1 {
            return Step::Fail(DatabaseError::StaleGeneration);
        }
        if log.len() <= at2 {
            return Step::Ask(Command::Commit);
        }
        Step::Done(())
    }

    /// `complete_collaboration_payload_deletion` runs in one transaction: it is done once its
    /// commit is acknowledged, and when it fails, nothing was committed.
    pub proof fn complete_collaboration_payload_deletion_is_atomic(
        tenant_id: Uuid, payload_id: Uuid, log: Seq<Reply>,
    )
        ensures
            crate::step::is_atomic(
                Self::complete_collaboration_payload_deletion_script(tenant_id, payload_id, log),
                0,
            ),
            crate::step::commit_acknowledged(
                Self::complete_collaboration_payload_deletion_fault(log.drop_last()),
                Self::complete_collaboration_payload_deletion_script(
                    tenant_id, payload_id, log.drop_last(),
                ),
                log,
            ) ==> {
                &&& Self::complete_collaboration_payload_deletion_fault(log) is None
                &&& log.len() == Self::complete_collaboration_payload_deletion_script(
                    tenant_id, payload_id, log,
                ).len()
            },
    {
    }

    /// Every statement of `complete_collaboration_payload_deletion` is about its tenant.
    pub proof fn complete_collaboration_payload_deletion_is_scoped(
        tenant_id: Uuid, payload_id: Uuid, log: Seq<Reply>,
    )
        ensures
            crate::step::is_scoped(
                Self::complete_collaboration_payload_deletion_script(tenant_id, payload_id, log),
                tenant_id,
            ),
    {
    }

    /// What stops `collaboration_freeze`, in order.
    pub open spec fn collaboration_freeze_fault(log: Seq<Reply>) -> Option<Fault> {
        if log.len() > 0 && log[0].one_affected(DatabaseError::Conflict) is Err {
            Fault::of(log[0].one_affected(DatabaseError::Conflict))
        } else {
            None
        }
    }

    /// The commands of `collaboration_freeze`, in order.
    pub open spec fn collaboration_freeze_script<'a>(
        tenant_id: Uuid, room_id: Uuid, epoch: i64, reason: &'a str, log: Seq<Reply>,
    ) -> Seq<CommandView<'a>> {
        seq![
            CommandView::execute(
                sql::FREEZE,
                seq![
                    Param::Id(tenant_id), Param::Id(room_id), Param::I64(epoch),
                    Param::Text(reason),
                ],
            ),
        ]
    }

    /// Freezes an active epoch.
    pub fn collaboration_freeze<'a>(
        tenant_id: Uuid, room_id: Uuid, epoch: i64, reason: &'a str, log: &'a [Reply],
    ) -> (step: Step<'a, ()>)
        ensures
            step@ == StepView::proceed(
                Self::collaboration_freeze_fault(log@),
                Self::collaboration_freeze_script(tenant_id, room_id, epoch, reason, log@),
                (),
                log@,
            ),
    {
        if log.len() == 0 {
            return ask_execute(
                sql::FREEZE,
                vec![
                    Param::Id(tenant_id), Param::Id(room_id), Param::I64(epoch),
                    Param::Text(reason),
                ],
            );
        }
        if let Err(fault) = exactly_one(&log[0], DatabaseError::Conflict) {
            return stop(fault);
        }
        Step::Done(())
    }

    /// Every statement of `collaboration_freeze` is about its tenant.
    pub proof fn collaboration_freeze_is_scoped<'a>(
        tenant_id: Uuid, room_id: Uuid, epoch: i64, reason: &'a str, log: Seq<Reply>,
    )
        ensures
            crate::step::is_scoped(
                Self::collaboration_freeze_script(tenant_id, room_id, epoch, reason, log),
                tenant_id,
            ),
    {
    }

    /// What stops `collaboration_discard`, in order.
    pub open spec fn collaboration_discard_fault(
        authorization: CollaborationAuthorizationContext,
        log: Seq<Reply>,
    ) -> Option<Fault> {
        let fence = log[1].required_row::<FenceGenerations>(DatabaseError::StaleGeneration)->Ok_0;
        if log.len() > 1
            && log[1].required_row::<FenceGenerations>(DatabaseError::StaleGeneration) is Err {
            Fault::of(log[1].required_row::<FenceGenerations>(DatabaseError::StaleGeneration))
        } else if log.len() > 1 && !fence.agrees_with(authorization.expected()) {
            Some(Fault::Error(DatabaseError::StaleGeneration))
        } else if log.len() > 2 && log[2].one_affected(DatabaseError::Conflict) is Err {
            Fault::of(log[2].one_affected(DatabaseError::Conflict))
        } else {
            None
        }
    }

    /// The commands of `collaboration_discard`, in order.
    pub open spec fn collaboration_discard_script<'a>(
        tenant_id: Uuid, room_id: Uuid, epoch: i64,
        authorization: CollaborationAuthorizationContext, log: Seq<Reply>,
    ) -> Seq<CommandView<'a>> {
        seq![
            CommandView::Begin,
            CommandView::optional(
                catalog::LOCK_COLLABORATION_AUTHORIZATION_FENCE,
                seq![
                    Param::Id(tenant_id), Param::Id(authorization.session_id),
                    Param::Id(authorization.principal_id), Param::Id(authorization.drive_id),
                    Param::Id(authorization.node_id),
                ],
            ),
            CommandView::execute(
                sql::DISCARD,
                seq![
                    Param::Id(tenant_id), Param::Id(room_id), Param::I64(epoch),
                    Param::Id(authorization.drive_id), Param::Id(authorization.node_id),
                ],
            ),
            CommandView::Commit,
        ]
    }

    /// Discards an epoch under the current authorization. Dirty state is fenced for retention at
    /// once, clean state is closed.
    pub fn collaboration_discard<'a>(
        tenant_id: Uuid, room_id: Uuid, epoch: i64,
        authorization: CollaborationAuthorizationContext, log: &'a [Reply],
    ) -> (step: Step<'a, ()>)
        ensures
            step@ == StepView::proceed(
                Self::collaboration_discard_fault(authorization, log@),
                Self::collaboration_discard_script(tenant_id, room_id, epoch, authorization, log@),
                (),
                log@,
            ),
    {
        if log.len() == 0 {
            return Step::Ask(Command::Begin);
        }
        if log.len() <= 1 {
            return ask_optional(
                catalog::LOCK_COLLABORATION_AUTHORIZATION_FENCE,
                vec![
                    Param::Id(tenant_id), Param::Id(authorization.session_id),
                    Param::Id(authorization.principal_id), Param::Id(authorization.drive_id),
                    Param::Id(authorization.node_id),
                ],
            );
        }
        let fence: FenceGenerations = match required(&log[1], DatabaseError::StaleGeneration) {
            Ok(value) => value,
            Err(fault) => return stop(fault),
        };
        if !fence.agree(authorization.expected_generations()) {
            return Step::Fail(DatabaseError::StaleGeneration);
        }
        if log.len() <= 2 {
            return ask_execute(
                sql::DISCARD,
                vec![
                    Param::Id(tenant_id), Param::Id(room_id), Param::I64(epoch),
                    Param::Id(authorization.drive_id), Param::Id(authorization.node_id),
                ],
            );
        }
        if let Err(fault) = exactly_one(&log[2], DatabaseError::Conflict) {
            return stop(fault);
        }
        if log.len() <= 3 {
            return Step::Ask(Command::Commit);
        }
        Step::Done(())
    }

    /// `collaboration_discard` runs in one transaction: it is done once its commit is acknowledged,
    /// and when it fails, nothing was committed.
    pub proof fn collaboration_discard_is_atomic(
        tenant_id: Uuid, room_id: Uuid, epoch: i64,
        authorization: CollaborationAuthorizationContext, log: Seq<Reply>,
    )
        ensures
            crate::step::is_atomic(
                Self::collaboration_discard_script(tenant_id, room_id, epoch, authorization, log),
                0,
            ),
            crate::step::commit_acknowledged(
                Self::collaboration_discard_fault(authorization, log.drop_last()),
                Self::collaboration_discard_script(
                    tenant_id, room_id, epoch, authorization, log.drop_last(),
                ),
                log,
            ) ==> {
                &&& Self::collaboration_discard_fault(authorization, log) is None
                &&& log.len() == Self::collaboration_discard_script(
                    tenant_id, room_id, epoch, authorization, log,
                ).len()
            },
    {
    }

    /// `collaboration_discard` goes past its fence only where the generations that it has locked
    /// are those that the caller was authorized under.
    pub proof fn collaboration_discard_is_fenced(
        authorization: CollaborationAuthorizationContext,
        log: Seq<Reply>,
    )
        ensures
            ({
                let fence =
                    log[1].required_row::<FenceGenerations>(DatabaseError::StaleGeneration)->Ok_0;
                Self::collaboration_discard_fault(authorization, log) is None && log.len() > 1
                    ==> log[1].required_row::<FenceGenerations>(
                        DatabaseError::StaleGeneration,
                    ) is Ok
                    && fence.agrees_with(authorization.expected())
            }),
    {
    }

    /// Every statement of `collaboration_discard` is about its tenant.
    pub proof fn collaboration_discard_is_scoped(
        tenant_id: Uuid,
        room_id: Uuid,
        epoch: i64,
        authorization: CollaborationAuthorizationContext,
        log: Seq<Reply>,
    )
        ensures
            crate::step::is_scoped(
                Self::collaboration_discard_script(tenant_id, room_id, epoch, authorization, log),
                tenant_id,
            ),
    {
    }

    /// What stops `collaboration_create_import_intent`, in order.
    pub open spec fn collaboration_create_import_intent_fault(log: Seq<Reply>) -> Option<Fault> {
        if log.len() > 0
            && log[0].required_row::<CollaborationImportIntentRecord>(
                DatabaseError::NotFound,
            ) is Err {
                Fault::of(
                    log[0].required_row::<CollaborationImportIntentRecord>(DatabaseError::NotFound),
                )
            } else {
                None
            }
    }

    /// The commands of `collaboration_create_import_intent`, in order.
    pub open spec fn collaboration_create_import_intent_script<'a>(
        input: CollaborationImportIntentInput<'a>,
        log: Seq<Reply>,
    ) -> Seq<CommandView<'a>> {
        seq![
            CommandView::optional(
                sql::CREATE_IMPORT_INTENT,
                seq![
                    Param::Id(input.tenant_id), Param::FreshId, Param::Id(input.drive_id),
                    Param::Id(input.source_node_id), Param::Id(input.source_version_id),
                    Param::Text(input.target_display_name), Param::Text(input.target_name_key),
                    Param::Id(input.principal_id), Param::Id(input.session_id),
                    Param::I64(input.source_generations.membership),
                    Param::I64(input.source_generations.drive_acl),
                    Param::I64(input.source_generations.namespace),
                    Param::I64(input.source_generations.resource_acl),
                    Param::I64(input.target_generations.membership),
                    Param::I64(input.target_generations.drive_acl),
                    Param::I64(input.target_generations.namespace),
                    Param::I64(input.target_generations.resource_acl),
                ],
            ),
        ]
    }

    /// What `collaboration_create_import_intent` returns.
    pub open spec fn collaboration_create_import_intent_output(
        log: Seq<Reply>,
    ) -> CollaborationImportIntentRecord {
        let intent =
            log[0].required_row::<CollaborationImportIntentRecord>(DatabaseError::NotFound)->Ok_0;
        intent
    }

    /// Records the intent to import a file version next to its source.
    pub fn collaboration_create_import_intent<'a>(
        input: CollaborationImportIntentInput<'a>,
        log: &'a [Reply],
    ) -> (step: Step<'a, CollaborationImportIntentRecord>)
        ensures
            step@ == StepView::proceed(
                Self::collaboration_create_import_intent_fault(log@),
                Self::collaboration_create_import_intent_script(input, log@),
                Self::collaboration_create_import_intent_output(log@),
                log@,
            ),
    {
        if log.len() == 0 {
            return ask_optional(
                sql::CREATE_IMPORT_INTENT,
                vec![
                    Param::Id(input.tenant_id), Param::FreshId, Param::Id(input.drive_id),
                    Param::Id(input.source_node_id), Param::Id(input.source_version_id),
                    Param::Text(input.target_display_name), Param::Text(input.target_name_key),
                    Param::Id(input.principal_id), Param::Id(input.session_id),
                    Param::I64(input.source_generations.membership),
                    Param::I64(input.source_generations.drive_acl),
                    Param::I64(input.source_generations.namespace),
                    Param::I64(input.source_generations.resource_acl),
                    Param::I64(input.target_generations.membership),
                    Param::I64(input.target_generations.drive_acl),
                    Param::I64(input.target_generations.namespace),
                    Param::I64(input.target_generations.resource_acl),
                ],
            );
        }
        let intent: CollaborationImportIntentRecord = match required(
            &log[0],
            DatabaseError::NotFound,
        ) {
            Ok(value) => value,
            Err(fault) => return stop(fault),
        };
        Step::Done(intent)
    }

    /// Every statement of `collaboration_create_import_intent` is about its tenant.
    pub proof fn collaboration_create_import_intent_is_scoped<'a>(
        input: CollaborationImportIntentInput<'a>,
        log: Seq<Reply>,
    )
        ensures
            crate::step::is_scoped(
                Self::collaboration_create_import_intent_script(input, log),
                input.tenant_id,
            ),
    {
    }

    /// What stops `collaboration_consume_import_intent`, in order.
    pub open spec fn collaboration_consume_import_intent_fault(log: Seq<Reply>) -> Option<Fault> {
        if log.len() > 0
            && log[0].required_row::<CollaborationImportIntentRecord>(
                DatabaseError::NotFound,
            ) is Err {
                Fault::of(
                    log[0].required_row::<CollaborationImportIntentRecord>(DatabaseError::NotFound),
                )
            } else {
                None
            }
    }

    /// The commands of `collaboration_consume_import_intent`, in order.
    pub open spec fn collaboration_consume_import_intent_script<'a>(
        tenant_id: Uuid, id: Uuid, principal_id: Uuid, session_id: Uuid, log: Seq<Reply>,
    ) -> Seq<CommandView<'a>> {
        seq![
            CommandView::optional(
                sql::CONSUME_IMPORT_INTENT,
                seq![
                    Param::Id(tenant_id), Param::Id(id), Param::Id(principal_id),
                    Param::Id(session_id),
                ],
            ),
        ]
    }

    /// What `collaboration_consume_import_intent` returns.
    pub open spec fn collaboration_consume_import_intent_output(
        log: Seq<Reply>,
    ) -> CollaborationImportIntentRecord {
        let intent =
            log[0].required_row::<CollaborationImportIntentRecord>(DatabaseError::NotFound)->Ok_0;
        intent
    }

    /// Redeems an import intent.
    pub fn collaboration_consume_import_intent<'a>(
        tenant_id: Uuid, id: Uuid, principal_id: Uuid, session_id: Uuid, log: &'a [Reply],
    ) -> (step: Step<'a, CollaborationImportIntentRecord>)
        ensures
            step@ == StepView::proceed(
                Self::collaboration_consume_import_intent_fault(log@),
                Self::collaboration_consume_import_intent_script(
                    tenant_id, id, principal_id, session_id, log@,
                ),
                Self::collaboration_consume_import_intent_output(log@),
                log@,
            ),
    {
        if log.len() == 0 {
            return ask_optional(
                sql::CONSUME_IMPORT_INTENT,
                vec![
                    Param::Id(tenant_id), Param::Id(id), Param::Id(principal_id),
                    Param::Id(session_id),
                ],
            );
        }
        let intent: CollaborationImportIntentRecord = match required(
            &log[0],
            DatabaseError::NotFound,
        ) {
            Ok(value) => value,
            Err(fault) => return stop(fault),
        };
        Step::Done(intent)
    }

    /// Every statement of `collaboration_consume_import_intent` is about its tenant.
    pub proof fn collaboration_consume_import_intent_is_scoped(
        tenant_id: Uuid, id: Uuid, principal_id: Uuid, session_id: Uuid, log: Seq<Reply>,
    )
        ensures
            crate::step::is_scoped(
                Self::collaboration_consume_import_intent_script(
                    tenant_id, id, principal_id, session_id, log,
                ),
                tenant_id,
            ),
    {
    }

}

} // verus!
