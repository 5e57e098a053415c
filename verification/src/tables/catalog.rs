//! The rows of drives, nodes, uploads and jobs.

use vstd::prelude::*;

use crate::database::Database;
use crate::error::DatabaseError;
use crate::error::Fault;
use crate::fence::FenceGenerations;
use crate::id::Uuid;
use crate::json::Json;
use crate::namespace::NodeRecord;
use crate::namespace::TrashCandidate;
use crate::row::Reply;
use crate::sql::catalog as sql;
use crate::step::Detail;
use crate::step::Param;
use crate::tables::Course;
use crate::tables::Tables;
use crate::upload::OrphanedUpload;

verus! {

/// A drive.
pub struct DriveRow {
    pub kind: Seq<char>,
    pub display_name: Seq<char>,
    pub reserved_bytes: int,
    pub used_bytes: int,
    pub quota_bytes: int,
    pub owner_principal_id: Uuid,
    pub acl_generation: int,
    pub namespace_generation: int,
    pub trash_retention_days: i32,
}

/// A file or a directory.
pub struct NodeRow {
    pub drive_id: Uuid,
    pub parent_id: Option<Uuid>,
    pub kind: Seq<char>,
    pub display_name: Seq<char>,
    pub name_key: Seq<char>,
    pub owner_principal_id: Uuid,
    pub head_version_id: Option<Uuid>,
    pub namespace_generation: int,
    pub acl_generation: int,
    /// The node with which this one was moved into the trash.
    pub trash_root_id: Option<Uuid>,
}

/// A version of a file.
pub struct VersionRow {
    pub ordinal: i64,
    pub payload_id: Uuid,
    pub size_bytes: i64,
    pub blake3: Seq<u8>,
    pub media_type: Option<Seq<char>>,
    pub created_by: Uuid,
    /// How the version came to be.
    pub origin_kind: Seq<char>,
    /// The version that it was made from.
    pub source_version_id: Option<Uuid>,
    pub restored_from_version_id: Option<Uuid>,
    pub creator_display_name: Option<Seq<char>>,
    pub mcp_assisted: bool,
}

/// An upload.
pub struct UploadRow {
    pub owner_principal_id: Uuid,
    pub drive_id: Uuid,
    pub parent_id: Uuid,
    /// The file that it becomes a version of; a new file where there is none.
    pub node_id: Option<Uuid>,
    pub expected_head_version_id: Option<Uuid>,
    pub target_display_name: Seq<char>,
    pub target_name_key: Seq<char>,
    pub payload_id: Option<Uuid>,
    pub declared_size_bytes: i64,
    pub chunk_size_bytes: i32,
    pub part_count: i32,
    pub declared_media_type: Option<Seq<char>>,
    pub collaboration_checkpoint_id: Option<Uuid>,
    pub import_intent_id: Option<Uuid>,
    pub state: Seq<char>,
    pub fencing_token: int,
    pub expires_at: int,
    /// Who makes the payload whole, and until when.
    pub finalization_owner: Option<Uuid>,
    pub finalization_until: Option<int>,
}

/// A part of an upload.
pub struct PartRow {
    pub state: Seq<char>,
    pub size_bytes: i32,
    pub blake3: Option<Seq<u8>>,
}

/// Where the bytes of a payload lie.
pub struct PlaceRow {
    pub drive_id: Uuid,
    pub backend_id: Uuid,
    pub locator: Uuid,
}

/// An identity at an issuer, and the user whom it is linked to.
pub struct IdentityRow {
    pub user_id: Uuid,
    pub claims: Json,
}

/// A storage backend.
pub struct BackendRow {
    pub kind: Seq<char>,
    pub ready: bool,
    pub checked_at: int,
}

/// A user.
pub struct UserRow {
    pub principal_id: Uuid,
    pub display_name: Seq<char>,
    pub verified_email: Option<Seq<char>>,
    /// The address in lower case, by which it is compared.
    pub address: Option<Seq<char>>,
    pub status: Seq<char>,
}

/// A principal: a user, a group or a service.
pub struct PrincipalRow {
    pub kind: Seq<char>,
    pub generation: int,
    pub disabled: bool,
}

/// A session of a user with the API.
pub struct ApiSessionRow {
    pub user_id: Uuid,
    pub principal_id: Uuid,
    pub key_generation: i32,
    pub token_digest: Seq<u8>,
    pub csrf_digest: Seq<u8>,
    pub user_agent: Option<Seq<char>>,
    pub revoked: bool,
    pub idle_expires_at: int,
    pub absolute_expires_at: int,
    pub reauthenticated_at: int,
}

/// An attempt to log in.
pub struct AttemptRow {
    pub state_digest: Seq<u8>,
    pub nonce_digest: Seq<u8>,
    pub pkce_digest: Seq<u8>,
    pub nonce: Seq<char>,
    pub pkce_verifier: Seq<char>,
    pub return_path: Seq<char>,
    pub session_id: Option<Uuid>,
    pub expires_at: int,
    pub consumed: bool,
}

/// A group.
pub struct GroupRow {
    pub principal_id: Uuid,
}

/// The membership of a user in a group.
pub struct MembershipRow {
    pub role: Seq<char>,
    pub generation: i64,
}

/// An access control entry.
pub struct AclRow {
    pub drive_id: Uuid,
    pub resource_id: Uuid,
    pub principal_id: Uuid,
    pub action: Seq<char>,
    pub effect: Seq<char>,
    pub inheritance: Seq<char>,
    pub created_by: Uuid,
    pub generation: i64,
    pub direct_share_id: Option<Uuid>,
}

/// A share of a node with a principal.
pub struct ShareRow {
    pub drive_id: Uuid,
    pub resource_id: Uuid,
    pub target_principal_id: Uuid,
    pub preset: Seq<char>,
    pub inheritance: Seq<char>,
    pub created_by: Uuid,
    pub revoked: bool,
}

/// A value that accompanies an audit event.
pub enum Fact {
    Id(Uuid),
    OptId(Option<Uuid>),
    /// The identifiers in the rows of a reply.
    Listed(Reply),
    Int(i64),
    Text(Seq<char>),
}

/// An audit event.
pub struct AuditRow {
    pub actor: Option<Uuid>,
    pub target: Option<Uuid>,
    pub resource: Option<Uuid>,
    pub action: Seq<char>,
    pub outcome: Seq<char>,
    pub reason: Seq<char>,
    pub privacy_visible: bool,
    pub details: Seq<(Seq<char>, Fact)>,
}

/// An outbox event: the row itself, and the envelope that it carries.
pub struct OutboxRow {
    pub topic: Seq<char>,
    pub aggregate_type: Seq<char>,
    pub aggregate_id: Uuid,
    pub aggregate_generation: i64,
    /// The tenant and the aggregate by which events are kept in order.
    pub partition: (Uuid, Uuid),
    pub envelope_tenant: Uuid,
    pub envelope_aggregate: (Seq<char>, Uuid),
    pub envelope_generation: u64,
    pub envelope_type: Seq<char>,
    pub occurred_at_unix_seconds: i64,
}

/// A value of a small object that a statement binds.
pub open spec fn fact_of<'a>(detail: Detail<'a>) -> Fact {
    match detail {
        Detail::Id(id) => Fact::Id(id),
        Detail::OptId(id) => Fact::OptId(id),
        Detail::RowIds(reply) => Fact::Listed(*reply),
        Detail::Int(number) => Fact::Int(number),
        Detail::Text(text) => Fact::Text(text@),
    }
}

/// The members of a small object that a statement binds.
pub open spec fn facts_of<'a>(param: Param<'a>) -> Seq<(Seq<char>, Fact)> {
    match param {
        Param::Object1(name, detail) => seq![(name@, fact_of(detail))],
        Param::Object2(first, one, second, two) => seq![
            (first@, fact_of(one)),
            (second@, fact_of(two)),
        ],
        _ => Seq::empty(),
    }
}

/// The audit event that an insertion binds.
pub open spec fn audit_of<'a>(params: Seq<Param<'a>>) -> AuditRow {
    AuditRow {
        actor: params[2]->OptId_0,
        target: params[3]->OptId_0,
        resource: params[4]->OptId_0,
        action: params[5]->Text_0@,
        outcome: params[6]->Text_0@,
        reason: params[7]->Text_0@,
        privacy_visible: params[8]->Bool_0,
        details: facts_of(params[9]),
    }
}

/// The outbox event that an insertion binds.
pub open spec fn outbox_of<'a>(params: Seq<Param<'a>>) -> OutboxRow {
    let envelope = params[7]->Event_0;
    OutboxRow {
        topic: params[2]->Text_0@,
        aggregate_type: params[3]->Text_0@,
        aggregate_id: params[4]->Id_0,
        aggregate_generation: params[5]->I64_0,
        partition: (params[6]->Pair_0, params[6]->Pair_1),
        envelope_tenant: envelope.tenant_id,
        envelope_aggregate: (envelope.aggregate_type@, envelope.aggregate_id),
        envelope_generation: envelope.aggregate_generation,
        envelope_type: envelope.event_type@,
        occurred_at_unix_seconds: envelope.occurred_at_unix_seconds,
    }
}

/// Whether one event was added to the outbox which tells of a generation of an aggregate: the row
/// and its envelope say the same, and the time is that of the conversation, to the second.
pub open spec fn tells(
    before: CatalogTables,
    after: CatalogTables,
    tenant_id: Uuid,
    topic: Seq<char>,
    aggregate_type: Seq<char>,
    aggregate_id: Uuid,
    generation: i64,
    course: Course,
) -> bool {
    let row = after.outbox_events.last();
    &&& after.outbox_events == before.outbox_events.push(row)
    &&& row == (OutboxRow {
        topic,
        aggregate_type,
        aggregate_id,
        aggregate_generation: generation,
        partition: (tenant_id, aggregate_id),
        envelope_tenant: tenant_id,
        envelope_aggregate: (aggregate_type, aggregate_id),
        envelope_generation: generation as u64,
        envelope_type: topic,
        occurred_at_unix_seconds: row.occurred_at_unix_seconds,
    })
    &&& course.clock[0] - 1_000_000 <= row.occurred_at_unix_seconds * 1_000_000
        <= course.clock.last() + 1_000_000
}

/// The tables of the catalog.
#[verifier::ext_equal]
pub struct CatalogTables {
    pub drives: Map<Uuid, DriveRow>,
    pub nodes: Map<Uuid, NodeRow>,
    /// Each drive's pairs of a node and a node below it. A node is below itself.
    pub ancestry: Set<(Uuid, Uuid, Uuid)>,
    /// The versions, each by its node and its own identifier.
    pub versions: Map<(Uuid, Uuid), VersionRow>,
    /// The state of each payload.
    pub payloads: Map<Uuid, Seq<char>>,
    pub uploads: Map<Uuid, UploadRow>,
    /// The state of each upload's reservation.
    pub quotas: Map<Uuid, Seq<char>>,
    /// The jobs, each by its kind, its key and what it is about.
    pub jobs: Set<(Seq<char>, Seq<char>, Uuid, Uuid)>,
    /// The digest of each payload that is complete.
    pub digests: Map<Uuid, Seq<u8>>,
    /// The parts of the uploads, each by its upload and its number.
    pub parts: Map<(Uuid, i32), PartRow>,
    /// The size of each upload's payload that is complete.
    pub sizes: Map<Uuid, i64>,
    pub places: Map<Uuid, PlaceRow>,
    /// The identities, each by its issuer and its subject.
    pub identities: Map<(Seq<char>, Seq<char>), IdentityRow>,
    /// The identities that are bound as administrators.
    pub admins: Set<(Seq<char>, Seq<char>)>,
    pub attempts: Map<Uuid, AttemptRow>,
    /// The users with preferences.
    pub preferences: Set<Uuid>,
    pub backends: Map<Uuid, BackendRow>,
    /// When each node of the trash is to be purged.
    pub purges: Map<Uuid, int>,
    pub users: Map<Uuid, UserRow>,
    pub principals: Map<Uuid, PrincipalRow>,
    pub api_sessions: Map<Uuid, ApiSessionRow>,
    pub groups: Map<Uuid, GroupRow>,
    /// The memberships, each by its group and its user's principal.
    pub memberships: Map<(Uuid, Uuid), MembershipRow>,
    pub acl_entries: Map<Uuid, AclRow>,
    pub shares: Map<Uuid, ShareRow>,
    /// The principals that sessions act as.
    pub session_principals: Set<Uuid>,
    /// The audit events, in the order in which they were added.
    pub audit_events: Seq<AuditRow>,
    /// The outbox events, in the order in which they were added.
    pub outbox_events: Seq<OutboxRow>,
}

impl CatalogTables {
    /// The tables with a payload in another state.
    pub open spec fn disposed(
        self, hit: bool, payload_id: Uuid, state: Seq<char>,
    ) -> CatalogTables {
        CatalogTables {
            payloads: crate::tables::changed(self.payloads, hit, payload_id, state),
            ..self
        }
    }

    /// Whether a payload is in a state.
    pub open spec fn payload_is(self, payload_id: Uuid, state: Seq<char>) -> bool {
        self.payloads.contains_key(payload_id) && self.payloads[payload_id] == state
    }

    /// Whether a session lets its principal act on a node: the session and its user are live, the
    /// principal is not disabled, and the node is of the drive.
    pub open spec fn is_admitted(
        self,
        session_id: Uuid,
        principal_id: Uuid,
        drive_id: Uuid,
        node_id: Uuid,
        now: int,
    ) -> bool {
        let session = self.api_sessions[session_id];
        &&& self.api_sessions.contains_key(session_id)
        &&& session.principal_id == principal_id
        &&& !session.revoked
        &&& session.idle_expires_at > now
        &&& session.absolute_expires_at > now
        &&& self.users.contains_key(session.user_id)
        &&& self.users[session.user_id].status == "active"@
        &&& self.principals.contains_key(principal_id)
        &&& !self.principals[principal_id].disabled
        &&& self.drives.contains_key(drive_id)
        &&& self.nodes.contains_key(node_id)
        &&& self.nodes[node_id].drive_id == drive_id
    }

    /// Whether a session lets its principal act on a node under the generations at which the
    /// principal was authorized.
    pub open spec fn permits(
        self,
        session_id: Uuid,
        principal_id: Uuid,
        drive_id: Uuid,
        node_id: Uuid,
        under: FenceGenerations,
        now: int,
    ) -> bool {
        &&& self.is_admitted(session_id, principal_id, drive_id, node_id, now)
        &&& self.principals[principal_id].generation == under.membership
        &&& self.drives[drive_id].acl_generation == under.drive_acl
        &&& self.drives[drive_id].namespace_generation == under.namespace
        &&& self.nodes[node_id].acl_generation == under.resource_acl
    }

    /// The principals that users act as.
    pub open spec fn user_principals(self) -> Set<Uuid> {
        Set::new(
            |principal_id: Uuid|
                exists|id: Uuid| #[trigger]
                    self.users.contains_key(id) && self.users[id].principal_id == principal_id,
        )
    }

    /// Whether a node lies below another, or is it.
    pub open spec fn is_below(self, drive_id: Uuid, root: Uuid, id: Uuid) -> bool {
        self.nodes[id].drive_id == drive_id && self.ancestry.contains((drive_id, root, id))
    }

    /// The nodes once those below a root that bear one mark bear another. The generation of one of
    /// them goes up.
    pub open spec fn marked(
        self,
        drive_id: Uuid,
        root: Uuid,
        renewed: Uuid,
        from: Option<Uuid>,
        to: Option<Uuid>,
    ) -> Map<Uuid, NodeRow> {
        self.nodes.map_entries(
            |id: Uuid, node: NodeRow|
                if self.is_below(drive_id, root, id) && node.trash_root_id == from {
                    NodeRow {
                        trash_root_id: to,
                        namespace_generation: if id == renewed {
                            node.namespace_generation + 1
                        } else {
                            node.namespace_generation
                        },
                        ..node
                    }
                } else {
                    node
                },
        )
    }

    /// The times of purging once the live nodes below a root are to be purged at a time.
    pub open spec fn scheduled(self, drive_id: Uuid, root: Uuid, at: int) -> Map<Uuid, int> {
        Map::new(
            |id: Uuid|
                self.purges.contains_key(id) || self.nodes.contains_key(id) && self.is_below(
                    drive_id,
                    root,
                    id,
                ) && self.nodes[id].trash_root_id is None,
            |id: Uuid|
                if self.nodes.contains_key(id) && self.is_below(drive_id, root, id)
                    && self.nodes[id].trash_root_id is None {
                    at
                } else {
                    self.purges[id]
                },
        )
    }

    /// The times of purging once the nodes below a root that bear a mark are not to be purged.
    pub open spec fn unscheduled(self, drive_id: Uuid, root: Uuid, mark: Uuid) -> Map<Uuid, int> {
        self.purges.remove_keys(
            Set::new(
                |id: Uuid|
                    self.nodes.contains_key(id) && self.is_below(drive_id, root, id)
                        && self.nodes[id].trash_root_id == Some(mark),
            ),
        )
    }

    /// Whether an upload is an orphan: its payload is being deleted, and its bytes are still
    /// reserved.
    pub open spec fn is_orphan(self, upload_id: Uuid, payload_id: Uuid) -> bool {
        &&& self.payload_is(payload_id, "deleting"@)
        &&& self.uploads.contains_key(upload_id)
        &&& self.uploads[upload_id].payload_id == Some(payload_id)
        &&& self.uploads[upload_id].state == "finalized"@
        &&& self.quotas.contains_key(upload_id)
        &&& self.quotas[upload_id] == "active"@
    }
}

/// The tables with other rows of the catalog.
pub open spec fn with_catalog(tables: Tables, catalog: CatalogTables) -> Tables {
    Tables { catalog, ..tables }
}

/// The tables after a drive's reserved bytes have gone down and its used bytes up.
pub open spec fn charged(
    tables: Tables,
    hit: bool,
    drive_id: Uuid,
    released: int,
    used: int,
) -> Tables {
    let drive = tables.catalog.drives[drive_id];
    with_catalog(
        tables,
        CatalogTables {
            drives: crate::tables::changed(
                tables.catalog.drives,
                hit,
                drive_id,
                DriveRow {
                    reserved_bytes: drive.reserved_bytes - released,
                    used_bytes: drive.used_bytes + used,
                    ..drive
                },
            ),
            ..tables.catalog
        },
    )
}

/// Whether a drive has at least so many reserved bytes.
pub open spec fn reserves(tables: Tables, drive_id: Uuid, bytes: int) -> bool {
    &&& tables.catalog.drives.contains_key(drive_id)
    &&& tables.catalog.drives[drive_id].reserved_bytes >= bytes
}

/// The tables with the payload's deletion that an insertion queues. A job is known by its key, so
/// that a second one with the same key is the first.
pub open spec fn queued<'a>(tables: Tables, params: Seq<Param<'a>>) -> Tables {
    with_catalog(
        tables,
        CatalogTables {
            jobs: tables.catalog.jobs.insert(
                (
                    "payload_delete"@,
                    params[3]->Label_0@,
                    params[3]->Label_1,
                    params[2]->Id_0,
                ),
            ),
            ..tables.catalog
        },
    )
}

/// Whether a record is what a node and its head version hold, but for the time of its last change.
pub open spec fn is_node(found: NodeRecord, catalog: CatalogTables, id: Uuid) -> bool {
    let node = catalog.nodes[id];
    let key = (id, node.head_version_id->0);
    let known = node.head_version_id is Some && catalog.versions.contains_key(key);
    &&& found.id == id
    &&& found.drive_id == node.drive_id
    &&& found.parent_id == node.parent_id
    &&& found.kind@ == node.kind
    &&& found.display_name@ == node.display_name
    &&& found.name_key@ == node.name_key
    &&& found.head_version_id == node.head_version_id
    &&& found.namespace_generation == node.namespace_generation
    &&& found.acl_generation == node.acl_generation
    &&& found.trashed == (node.trash_root_id is Some)
    &&& known ==> {
        &&& found.size_bytes == Some(catalog.versions[key].size_bytes)
        &&& found.version_ordinal == Some(catalog.versions[key].ordinal)
        &&& crate::tables::document::text_of(found.head_media_type)
            == catalog.versions[key].media_type
    }
    &&& !known ==> {
        &&& found.size_bytes is None
        &&& found.version_ordinal is None
        &&& found.head_media_type is None
    }
}

/// What the statements of the catalog do.
#[verifier::opaque]
pub open spec fn means<'a>(
    sql: &'static str,
    params: Seq<Param<'a>>,
    reply: Reply,
    now: int,
    before: Tables,
    after: Tables,
) -> bool {
    let catalog = before.catalog;
    let id = params[1]->Id_0;
    &&& sql == sql::INSERT_AUDIT ==> {
        &&& after == with_catalog(
            before,
            CatalogTables {
                audit_events: catalog.audit_events.push(audit_of(params)),
                ..catalog
            },
        )
        &&& crate::tables::touches(reply, true)
    }
    &&& sql == sql::INSERT_OUTBOX_SELECT_VALUE ==> {
        &&& after == before
        &&& reply.single_row::<i64>() is Ok
        &&& now - 1_000_000 <= reply.single_row::<i64>()->Ok_0 * 1_000_000 <= now + 1_000_000
    }
    &&& sql == sql::LOCK_AUTHORIZATION_FENCE || sql
        == sql::LOCK_COLLABORATION_AUTHORIZATION_FENCE ==> {
        let principal_id = params[2]->Id_0;
        let drive_id = params[3]->Id_0;
        let node_id = params[4]->Id_0;
        &&& crate::tables::answers(
            reply,
            catalog.is_admitted(id, principal_id, drive_id, node_id, now),
        )
        &&& crate::tables::first_row(reply) matches Some(row) ==> {
            &&& crate::tables::has_number(
                row,
                "membership_generation"@,
                catalog.principals[principal_id].generation,
            )
            &&& crate::tables::has_number(
                row,
                "drive_acl_generation"@,
                catalog.drives[drive_id].acl_generation,
            )
            &&& crate::tables::has_number(
                row,
                "namespace_generation"@,
                catalog.drives[drive_id].namespace_generation,
            )
            &&& crate::tables::has_number(
                row,
                "resource_acl_generation"@,
                catalog.nodes[node_id].acl_generation,
            )
        }
    }
    &&& sql == sql::INSERT_OUTBOX_INSERT_OUTBOX_EVENTS ==> {
        &&& after == with_catalog(
            before,
            CatalogTables {
                outbox_events: catalog.outbox_events.push(outbox_of(params)),
                ..catalog
            },
        )
        &&& crate::tables::touches(reply, true)
    }
    &&& sql == sql::NODE ==> {
        let node_id = params[2]->Id_0;
        let hit = catalog.nodes.contains_key(node_id) && catalog.nodes[node_id].drive_id == id;
        match reply.optional_row::<NodeRecord>() {
            Ok(Some(found)) => hit && is_node(found, catalog, node_id),
            Ok(None) => !hit,
            Err(_) => false,
        }
    }
    &&& sql == sql::SET_NODE_TRASH_STATE_SELECT_NODES ==> {
        let node_id = params[2]->Id_0;
        let node = catalog.nodes[node_id];
        let hit = catalog.nodes.contains_key(node_id) && node.drive_id == id
            && catalog.drives.contains_key(id);
        &&& after == before
        &&& match reply.optional_row::<TrashCandidate>() {
            Ok(Some(found)) => hit && found.parent_id == node.parent_id
                && found.namespace_generation == node.namespace_generation && found.trash_root_id
                == node.trash_root_id && found.trash_retention_days
                == catalog.drives[id].trash_retention_days,
            Ok(None) => !hit,
            Err(_) => false,
        }
    }
    &&& sql == sql::SET_NODE_TRASH_STATE_UPDATE_NODES ==> after == with_catalog(
        before,
        CatalogTables {
            nodes: catalog.marked(
                id,
                params[2]->Id_0,
                params[3]->Id_0,
                None,
                Some(params[3]->Id_0),
            ),
            purges: catalog.scheduled(
                id,
                params[2]->Id_0,
                now + params[4]->I32_0 * 86_400_000_000,
            ),
            ..catalog
        },
    )
    &&& sql == sql::SET_NODE_TRASH_STATE_EXISTS_NODES ==> {
        let node_id = params[2]->Id_0;
        &&& after == before
        &&& reply.single_row::<bool>() == Ok::<bool, Fault>(is_live(catalog, id, node_id))
    }
    &&& sql == sql::SET_NODE_TRASH_STATE_UPDATE_NODES_2 ==> after == with_catalog(
        before,
        CatalogTables {
            nodes: catalog.marked(
                id,
                params[2]->Id_0,
                params[3]->Id_0,
                Some(params[3]->Id_0),
                None,
            ),
            purges: catalog.unscheduled(id, params[2]->Id_0, params[3]->Id_0),
            ..catalog
        },
    )
    &&& sql == sql::SET_NODE_TRASH_STATE_UPDATE_DRIVES ==> {
        let hit = catalog.drives.contains_key(id);
        let generation = catalog.drives[id].namespace_generation + 1;
        &&& after == with_catalog(
            before,
            CatalogTables {
                drives: crate::tables::changed(
                    catalog.drives,
                    hit,
                    id,
                    DriveRow { namespace_generation: generation, ..catalog.drives[id] },
                ),
                ..catalog
            },
        )
        &&& match reply.optional_row::<i64>() {
            Ok(Some(found)) => hit && found == generation,
            Ok(None) => !hit,
            Err(_) => false,
        }
    }
    &&& sql == sql::COMPLETE_ORPHAN_PAYLOAD_DELETION_SELECT_PAYLOAD_OBJECTS
        ==> match reply.optional_row::<OrphanedUpload>() {
        Ok(Some(found)) => catalog.is_orphan(found.upload_id, id) && found.drive_id
            == catalog.uploads[found.upload_id].drive_id && found.declared_size_bytes
            == catalog.uploads[found.upload_id].declared_size_bytes,
        Ok(None) => forall|upload_id: Uuid| !(#[trigger] catalog.is_orphan(upload_id, id)),
        Err(_) => false,
    }
    &&& sql == sql::COMPLETE_ORPHAN_PAYLOAD_DELETION_UPDATE_PAYLOAD_OBJECTS ==> {
        let hit = catalog.payload_is(id, "deleting"@);
        &&& after == with_catalog(before, catalog.disposed(hit, id, "deleted"@))
        &&& crate::tables::touches(reply, hit)
    }
    &&& sql == sql::COMPLETE_ORPHAN_PAYLOAD_DELETION_UPDATE_UPLOAD_SESSIONS ==> {
        let hit = catalog.uploads.contains_key(id) && catalog.uploads[id].state == "finalized"@;
        let row = UploadRow {
            state: "expired"@,
            fencing_token: catalog.uploads[id].fencing_token + 1,
            ..catalog.uploads[id]
        };
        &&& after == with_catalog(
            before,
            CatalogTables {
                uploads: crate::tables::changed(catalog.uploads, hit, id, row),
                ..catalog
            },
        )
        &&& crate::tables::touches(reply, hit)
    }
    &&& sql == sql::COMPLETE_ORPHAN_PAYLOAD_DELETION_UPDATE_QUOTA_RESERVATIONS ==> {
        let hit = catalog.quotas.contains_key(id) && catalog.quotas[id] == "active"@;
        &&& after == with_catalog(
            before,
            CatalogTables {
                quotas: crate::tables::changed(catalog.quotas, hit, id, "released"@),
                ..catalog
            },
        )
        &&& crate::tables::touches(reply, hit)
    }
    &&& sql == sql::COMPLETE_ORPHAN_PAYLOAD_DELETION_UPDATE_DRIVES ==> {
        let bytes = params[2]->I64_0 as int;
        let hit = reserves(before, id, bytes);
        &&& after == charged(before, hit, id, bytes, 0)
        &&& crate::tables::touches(reply, hit)
    }
}

/// Whether a node of a drive is not in the trash.
pub open spec fn is_live(catalog: CatalogTables, drive_id: Uuid, node_id: Uuid) -> bool {
    &&& catalog.nodes.contains_key(node_id)
    &&& catalog.nodes[node_id].drive_id == drive_id
    &&& catalog.nodes[node_id].trash_root_id is None
}

/// Trashing a live node that is no root, and then restoring it under the generation that the
/// trashing left, gives every node of the drive back as it was, but for the generation of the node
/// itself, which is two further. So what was trashed with the node is live again, and what was
/// trashed before, on its own, stays in the trash. The restoring goes through where the parent is
/// live. Before the trashing no node bears the mark of this one, which is not in the trash itself.
pub proof fn restored_nodes_are_as_before(
    tenant_id: Uuid,
    actor_principal_id: Uuid,
    session_id: Uuid,
    drive_id: Uuid,
    node_id: Uuid,
    expected_namespace_generation: i64,
    trashed_under: FenceGenerations,
    restored_under: FenceGenerations,
    first: Seq<Reply>,
    second: Seq<Reply>,
    one: Course,
    two: Course,
)
    requires
        crate::step::is_done(
            Database::set_node_trash_state_fault(
                node_id,
                expected_namespace_generation,
                trashed_under.membership,
                trashed_under.drive_acl,
                trashed_under.namespace,
                trashed_under.resource_acl,
                true,
                first,
            ),
            Database::set_node_trash_state_script(
                tenant_id,
                actor_principal_id,
                session_id,
                drive_id,
                node_id,
                true,
                first,
            ),
            first,
        ),
        one.follows(
            Database::set_node_trash_state_script(
                tenant_id,
                actor_principal_id,
                session_id,
                drive_id,
                node_id,
                true,
                first,
            ),
            first,
        ),
        one.start().catalog.ancestry.contains((drive_id, node_id, node_id)),
        forall|id: Uuid| #[trigger]
            one.start().catalog.nodes.contains_key(id)
                ==> one.start().catalog.nodes[id].trash_root_id != Some(node_id),
        two.follows(
            Database::set_node_trash_state_script(
                tenant_id,
                actor_principal_id,
                session_id,
                drive_id,
                node_id,
                false,
                second,
            ),
            second,
        ),
        second.len() == 11,
        second[1].required_row::<FenceGenerations>(DatabaseError::StaleGeneration) == Ok::<
            FenceGenerations,
            Fault,
        >(restored_under),
        two.start().catalog.nodes == one.end().catalog.nodes,
        two.start().catalog.ancestry == one.end().catalog.ancestry,
        two.start().catalog.drives.contains_key(drive_id),
        two.start().catalog.drives[drive_id].namespace_generation >= 0,
        is_live(two.start().catalog, drive_id, one.start().catalog.nodes[node_id].parent_id->0),
    ensures
        ({
            let catalog = one.start().catalog;
            let node = catalog.nodes[node_id];
            let trashed = Database::set_node_trash_state_output(true, first);
            let restored = Database::set_node_trash_state_output(false, second);
            &&& is_live(catalog, drive_id, node_id)
            &&& node.parent_id is Some
            &&& one.end().catalog.nodes == catalog.marked(
                drive_id,
                node_id,
                node_id,
                None,
                Some(node_id),
            )
            &&& is_node(trashed, one.end().catalog, node_id)
            &&& trashed.trashed
            &&& trashed.namespace_generation == node.namespace_generation + 1
            &&& crate::step::is_done(
                Database::set_node_trash_state_fault(
                    node_id,
                    trashed.namespace_generation,
                    restored_under.membership,
                    restored_under.drive_acl,
                    restored_under.namespace,
                    restored_under.resource_acl,
                    false,
                    second,
                ),
                Database::set_node_trash_state_script(
                    tenant_id,
                    actor_principal_id,
                    session_id,
                    drive_id,
                    node_id,
                    false,
                    second,
                ),
                second,
            )
            &&& two.end().catalog.nodes == catalog.nodes.insert(
                node_id,
                NodeRow { namespace_generation: node.namespace_generation + 2, ..node },
            )
            &&& is_node(restored, two.end().catalog, node_id)
            &&& !restored.trashed
        }),
{
    reveal(means);
    let script = Database::set_node_trash_state_script(
        tenant_id,
        actor_principal_id,
        session_id,
        drive_id,
        node_id,
        true,
        first,
    );
    let again = Database::set_node_trash_state_script(
        tenant_id,
        actor_principal_id,
        session_id,
        drive_id,
        node_id,
        false,
        second,
    );
    assert(one.performs(script, first, 0));
    assert(one.performs(script, first, 1));
    assert(one.performs(script, first, 2));
    assert(one.performs(script, first, 3));
    assert(one.performs(script, first, 4));
    assert(one.performs(script, first, 5));
    assert(one.performs(script, first, 6));
    assert(one.performs(script, first, 7));
    assert(one.performs(script, first, 8));
    assert(one.performs(script, first, 9));
    assert(one.end() == one.rows[10]);
    assert(two.performs(again, second, 0));
    assert(two.performs(again, second, 1));
    assert(two.performs(again, second, 2));
    assert(two.performs(again, second, 3));
    assert(two.performs(again, second, 4));
    assert(two.performs(again, second, 5));
    assert(two.performs(again, second, 6));
    assert(two.performs(again, second, 7));
    assert(two.performs(again, second, 8));
    assert(two.performs(again, second, 9));
    assert(two.performs(again, second, 10));
    assert(two.end() == two.rows[11]);
    let catalog = one.start().catalog;
    let node = catalog.nodes[node_id];
    assert(one.end().catalog.nodes =~= catalog.marked(
                drive_id,
                node_id,
                node_id,
                None,
                Some(node_id),
            ));
    assert(two.end().catalog.nodes =~= catalog.nodes.insert(
        node_id,
        NodeRow { namespace_generation: node.namespace_generation + 2, ..node },
    ));
}

/// Recording the deletion of an orphan accounts for its bytes once. The first call marks the
/// payload as deleted and the upload as expired, releases the reservation, and takes exactly the
/// declared bytes off what the drive has reserved. A second call fails as stale and changes
/// nothing.
pub proof fn orphans_are_returned_once(
    tenant_id: Uuid,
    payload_id: Uuid,
    first: Seq<Reply>,
    second: Seq<Reply>,
    one: Course,
    two: Course,
)
    requires
        crate::step::is_done(
            Database::complete_orphan_payload_deletion_fault(first),
            Database::complete_orphan_payload_deletion_script(tenant_id, payload_id, first),
            first,
        ),
        one.follows(
            Database::complete_orphan_payload_deletion_script(tenant_id, payload_id, first),
            first,
        ),
        two.follows(
            Database::complete_orphan_payload_deletion_script(tenant_id, payload_id, second),
            second,
        ),
        second.len() > 1,
        two.start().catalog.payloads[payload_id] == one.end().catalog.payloads[payload_id],
    ensures
        ({
            let catalog = one.start().catalog;
            let fault = Database::complete_orphan_payload_deletion_fault(second);
            &&& exists|upload_id: Uuid|
                {
                    let upload = catalog.uploads[upload_id];
                    &&& #[trigger] catalog.is_orphan(upload_id, payload_id)
                    &&& one.end() == charged(
                        with_catalog(
                            one.start(),
                            CatalogTables {
                                payloads: catalog.payloads.insert(payload_id, "deleted"@),
                                uploads: catalog.uploads.insert(
                                    upload_id,
                                    UploadRow {
                                        state: "expired"@,
                                        fencing_token: upload.fencing_token + 1,
                                        ..upload
                                    },
                                ),
                                quotas: catalog.quotas.insert(upload_id, "released"@),
                                ..catalog
                            },
                        ),
                        true,
                        upload.drive_id,
                        upload.declared_size_bytes as int,
                        0,
                    )
                }
            &&& fault == Some(Fault::Error(DatabaseError::StaleGeneration))
            &&& two.left(
                fault,
                Database::complete_orphan_payload_deletion_script(tenant_id, payload_id, second),
                second,
            ) == two.start()
        }),
{
    reveal(means);
    reveal_strlit("deleting");
    reveal_strlit("deleted");
    assert("deleting"@.len() != "deleted"@.len());
    let script = Database::complete_orphan_payload_deletion_script(tenant_id, payload_id, first);
    let again = Database::complete_orphan_payload_deletion_script(tenant_id, payload_id, second);
    let orphan = first[1].required_row::<OrphanedUpload>(DatabaseError::StaleGeneration)->Ok_0;
    assert(one.performs(script, first, 0));
    assert(one.performs(script, first, 1));
    assert(one.performs(script, first, 2));
    assert(one.performs(script, first, 3));
    assert(one.performs(script, first, 4));
    assert(one.performs(script, first, 5));
    assert(one.performs(script, first, 6));
    assert(one.end() == one.rows[7]);
    assert(one.start().catalog.is_orphan(orphan.upload_id, payload_id));
    assert(two.performs(again, second, 0));
    assert(two.performs(again, second, 1));
}

} // verus!
