//! The rows behind uploads that begin, and the law of what a beginning reserves.

use vstd::prelude::*;

use crate::database::Database;
use crate::error::DatabaseError;
use crate::error::Fault;
use crate::fence::FenceGenerations;
use crate::id::Uuid;
use crate::row::Reply;
use crate::sql::catalog as sql;
use crate::step::CommandView;
use crate::step::Param;
use crate::tables::answers;
use crate::tables::catalog::with_catalog;
use crate::tables::catalog::AuditRow;
use crate::tables::catalog::CatalogTables;
use crate::tables::catalog::DriveRow;
use crate::tables::catalog::Fact;
use crate::tables::catalog::PartRow;
use crate::tables::catalog::PlaceRow;
use crate::tables::catalog::UploadRow;
use crate::tables::changed;
use crate::tables::first_row;
use crate::tables::has;
use crate::tables::has_number;
use crate::tables::has_text;
use crate::tables::uploads::is_prepared;
use crate::tables::Course;
use crate::tables::Tables;
use crate::upload::ImportTarget;
use crate::upload::UploadParent;
use crate::upload::UploadRecordView;
use crate::upload::UploadTarget;

verus! {

/// A part with nothing written.
pub open spec fn empty_part() -> PartRow {
    PartRow { state: "allocated"@, size_bytes: 0, blake3: None }
}

/// The upload that an insertion binds.
pub open spec fn new_upload<'a>(params: Seq<Param<'a>>, now: int) -> UploadRow {
    UploadRow {
        owner_principal_id: params[5]->Id_0,
        drive_id: params[2]->Id_0,
        parent_id: params[4]->Id_0,
        node_id: params[3]->OptId_0,
        expected_head_version_id: params[7]->OptId_0,
        target_display_name: params[8]->Text_0@,
        target_name_key: params[9]->Text_0@,
        payload_id: Some(params[6]->Id_0),
        declared_size_bytes: params[10]->I64_0,
        chunk_size_bytes: params[11]->I32_0,
        part_count: params[12]->I32_0,
        declared_media_type: crate::text::borrowed_text(params[13]->OptText_0),
        collaboration_checkpoint_id: params[14]->OptId_0,
        import_intent_id: params[15]->OptId_0,
        state: "open"@,
        fencing_token: 1,
        expires_at: now + params[16]->I64_0 * 1_000_000,
        finalization_owner: None,
        finalization_until: None,
    }
}

/// What the statements that begin an upload do.
#[verifier::opaque]
pub open spec fn means<'a>(
    sql: &'static str,
    params: Seq<Param<'a>>,
    reply: Reply,
    now: int,
    before: Tables,
    after: Tables,
) -> bool {
    let catalog = before.catalog;
    let rooms = before.rooms;
    let id = params[1]->Id_0;
    &&& sql == sql::BEGIN_UPLOAD_SELECT_NODES ==> {
        let node = catalog.nodes[params[2]->Id_0];
        &&& after == before
        &&& answers(reply, catalog.nodes.contains_key(params[2]->Id_0) && node.drive_id == id)
        &&& first_row(reply) matches Some(row) ==> {
            &&& has::<Option<Uuid>>(row, "parent_id"@, node.parent_id)
            &&& has_text(row, "kind"@, node.kind)
            &&& has::<Option<Uuid>>(row, "head_version_id"@, node.head_version_id)
            &&& has::<Option<Uuid>>(row, "trash_root_id"@, node.trash_root_id)
        }
    }
    &&& sql == sql::BEGIN_UPLOAD_SELECT_NODES_2 ==> {
        let node = catalog.nodes[params[2]->Id_0];
        &&& after == before
        &&& answers(reply, catalog.nodes.contains_key(params[2]->Id_0) && node.drive_id == id)
        &&& first_row(reply) matches Some(row) ==> {
            &&& has_text(row, "kind"@, node.kind)
            &&& has_number(row, "namespace_generation"@, node.namespace_generation)
        }
    }
    &&& sql == sql::BEGIN_UPLOAD_SELECT_CHECKPOINTS ==> {
        &&& after == before
        &&& answers(
            reply,
            is_prepared(rooms, id, params[2]->Id_0, params[4]->Id_0, now)
                && rooms.checkpoints[id].base_version_id == params[3]->Id_0,
        )
    }
    &&& sql == sql::BEGIN_UPLOAD_SELECT_IMPORT_INTENTS ==> {
        let intent = rooms.intents[id];
        &&& after == before
        &&& answers(
            reply,
            rooms.intents.contains_key(id) && intent.drive_id == params[2]->Id_0 && intent.state
                == "active"@ && intent.expires_at > now,
        )
        &&& first_row(reply) matches Some(row) ==> {
            &&& has::<Uuid>(row, "source_node_id"@, intent.source_node_id)
            &&& has::<Uuid>(row, "target_parent_id"@, intent.target_parent_id)
            &&& has_text(row, "target_display_name"@, intent.target_display_name)
            &&& has_text(row, "target_name_key"@, intent.target_name_key)
            &&& has::<Uuid>(row, "principal_id"@, intent.principal_id)
            &&& has::<Uuid>(row, "session_id"@, intent.session_id)
            &&& has::<i64>(row, "source_membership_generation"@, intent.under.membership)
            &&& has::<i64>(row, "source_drive_acl_generation"@, intent.under.drive_acl)
            &&& has::<i64>(row, "source_namespace_generation"@, intent.under.namespace)
            &&& has::<i64>(row, "source_resource_acl_generation"@, intent.under.resource_acl)
            &&& has::<i64>(row, "target_membership_generation"@, intent.target_under.membership)
            &&& has::<i64>(row, "target_drive_acl_generation"@, intent.target_under.drive_acl)
            &&& has::<i64>(row, "target_namespace_generation"@, intent.target_under.namespace)
            &&& has::<i64>(
                row,
                "target_resource_acl_generation"@,
                intent.target_under.resource_acl,
            )
        }
    }
    &&& sql == sql::BOOTSTRAP_TENANT_SELECT_STORAGE_BACKENDS ==> {
        &&& after == before
        &&& reply.optional_row::<Uuid>() matches Ok(Some(backend_id))
            ==> catalog.backends.contains_key(backend_id) && catalog.backends[backend_id].kind
            == "posix"@
    }
    &&& sql == sql::BEGIN_UPLOAD_UPDATE_DRIVES ==> {
        let drive = catalog.drives[id];
        let bytes = params[2]->I64_0;
        let hit = catalog.drives.contains_key(id) && drive.used_bytes + drive.reserved_bytes
            + bytes <= drive.quota_bytes;
        &&& answers(reply, hit)
        &&& after == with_catalog(
            before,
            CatalogTables {
                drives: changed(
                    catalog.drives,
                    hit,
                    id,
                    DriveRow { reserved_bytes: drive.reserved_bytes + bytes, ..drive },
                ),
                ..catalog
            },
        )
    }
    &&& sql == sql::BEGIN_UPLOAD_SELECT_STORAGE_BACKENDS ==> {
        &&& after == before
        &&& first_row(reply) is Some ==> catalog.backends.contains_key(params[1]->Id_0)
            && catalog.backends[params[1]->Id_0].ready
    }
    &&& sql == sql::BEGIN_UPLOAD_INSERT_PAYLOAD_OBJECTS ==> {
        &&& !catalog.payloads.contains_key(id)
        &&& after == with_catalog(
            before,
            CatalogTables {
                payloads: catalog.payloads.insert(id, "staging"@),
                places: catalog.places.insert(
                    id,
                    PlaceRow {
                        drive_id: params[2]->Id_0,
                        backend_id: params[3]->Id_0,
                        locator: params[4]->Id_0,
                    },
                ),
                ..catalog
            },
        )
    }
    &&& sql == sql::BEGIN_UPLOAD_INSERT_UPLOAD_SESSIONS ==> {
        &&& !catalog.uploads.contains_key(id)
        &&& after == with_catalog(
            before,
            CatalogTables {
                uploads: catalog.uploads.insert(id, new_upload(params, now)),
                ..catalog
            },
        )
    }
    &&& sql == sql::BEGIN_UPLOAD_INSERT_QUOTA_RESERVATIONS ==> after == with_catalog(
        before,
        CatalogTables { quotas: catalog.quotas.insert(params[3]->Id_0, "active"@), ..catalog },
    )
    &&& sql == sql::BEGIN_UPLOAD_INSERT_UPLOAD_PARTS ==> after == with_catalog(
        before,
        CatalogTables {
            parts: catalog.parts.insert((id, params[2]->I32_0), empty_part()),
            ..catalog
        },
    )
}

/// An upload that is asked for.
pub struct UploadRequest<'a> {
    pub tenant_id: Uuid,
    pub actor: Uuid,
    pub session_id: Uuid,
    pub drive_id: Uuid,
    pub parent_id: Uuid,
    pub node_id: Option<Uuid>,
    pub expected_parent_generation: Option<i64>,
    pub expected_head: Option<Uuid>,
    pub display_name: &'a str,
    pub name_key: &'a str,
    pub declared_size: i64,
    pub chunk_size: i32,
    pub part_count: i32,
    pub layout: &'a str,
    pub declared_media_type: Option<&'a str>,
    pub collaboration_checkpoint_id: Option<Uuid>,
    pub import_intent_id: Option<Uuid>,
    pub ttl_seconds: i64,
    pub under: FenceGenerations,
}

impl<'a> UploadRequest<'a> {
    /// What stops the call with this request.
    pub open spec fn fault(self, log: Seq<Reply>) -> Option<Fault> {
        Database::begin_upload_fault(
            self.actor,
            self.session_id,
            self.parent_id,
            self.node_id,
            self.expected_parent_generation,
            self.expected_head,
            self.display_name,
            self.name_key,
            self.part_count,
            self.layout,
            self.declared_media_type,
            self.collaboration_checkpoint_id,
            self.import_intent_id,
            self.under.membership,
            self.under.drive_acl,
            self.under.namespace,
            self.under.resource_acl,
            log,
        )
    }

    /// The commands of the call with this request.
    pub open spec fn script(self, log: Seq<Reply>) -> Seq<CommandView<'a>> {
        Database::begin_upload_script(
            self.tenant_id,
            self.actor,
            self.session_id,
            self.drive_id,
            self.parent_id,
            self.node_id,
            self.expected_parent_generation,
            self.expected_head,
            self.display_name,
            self.name_key,
            self.declared_size,
            self.chunk_size,
            self.part_count,
            self.layout,
            self.declared_media_type,
            self.collaboration_checkpoint_id,
            self.import_intent_id,
            self.ttl_seconds,
            log,
        )
    }

    /// What the call with this request returns.
    pub open spec fn output(self, log: Seq<Reply>) -> UploadRecordView {
        Database::begin_upload_output(
            self.tenant_id,
            self.actor,
            self.drive_id,
            self.parent_id,
            self.node_id,
            self.expected_parent_generation,
            self.expected_head,
            self.display_name,
            self.name_key,
            self.declared_size,
            self.chunk_size,
            self.part_count,
            self.declared_media_type,
            self.collaboration_checkpoint_id,
            self.import_intent_id,
            log,
        )
    }

    /// The upload that the request makes at a time.
    pub open spec fn row(self, payload_id: Uuid, now: int) -> UploadRow {
        UploadRow {
            owner_principal_id: self.actor,
            drive_id: self.drive_id,
            parent_id: self.parent_id,
            node_id: self.node_id,
            expected_head_version_id: self.expected_head,
            target_display_name: self.display_name@,
            target_name_key: self.name_key@,
            payload_id: Some(payload_id),
            declared_size_bytes: self.declared_size,
            chunk_size_bytes: self.chunk_size,
            part_count: self.part_count,
            declared_media_type: crate::text::borrowed_text(self.declared_media_type),
            collaboration_checkpoint_id: self.collaboration_checkpoint_id,
            import_intent_id: self.import_intent_id,
            state: "open"@,
            fencing_token: 1,
            expires_at: now + self.ttl_seconds * 1_000_000,
            finalization_owner: None,
            finalization_until: None,
        }
    }

    /// Whether the rows are as the request expects them: the file is live, lies in the directory
    /// and has the expected head; the directory has the expected generation; a checkpoint is
    /// prepared from that head; an intent to import is the actor's and names this very target, and
    /// its source may still be read.
    pub open spec fn is_expected(self, before: Tables, now: int) -> bool {
        let catalog = before.catalog;
        let rooms = before.rooms;
        let resource = if self.node_id is Some {
            self.node_id->0
        } else {
            self.parent_id
        };
        let node = catalog.nodes[self.node_id->0];
        let parent = catalog.nodes[self.parent_id];
        let checkpoint_id = self.collaboration_checkpoint_id->0;
        let intent = rooms.intents[self.import_intent_id->0];
        &&& catalog.permits(self.session_id, self.actor, self.drive_id, resource, self.under, now)
        &&& self.node_id is Some ==> {
            &&& node.parent_id == Some(self.parent_id)
            &&& node.kind == "file"@
            &&& node.head_version_id == self.expected_head
            &&& node.trash_root_id is None
            &&& self.expected_head is Some
        }
        &&& self.node_id is None ==> self.expected_parent_generation is Some
            && self.expected_head is None
        &&& self.expected_parent_generation is Some ==> {
            &&& catalog.nodes.contains_key(self.parent_id)
            &&& parent.drive_id == self.drive_id
            &&& parent.kind == "directory"@
            &&& parent.namespace_generation == self.expected_parent_generation->0
        }
        &&& self.collaboration_checkpoint_id is Some ==> {
            &&& self.node_id is Some
            &&& is_prepared(rooms, checkpoint_id, self.node_id->0, self.actor, now)
            &&& Some(rooms.checkpoints[checkpoint_id].base_version_id) == self.expected_head
        }
        &&& self.import_intent_id is Some ==> {
            &&& self.node_id is None
            &&& rooms.intents.contains_key(self.import_intent_id->0)
            &&& intent.drive_id == self.drive_id
            &&& intent.state == "active"@
            &&& intent.expires_at > now
            &&& intent.principal_id == self.actor
            &&& intent.session_id == self.session_id
            &&& intent.target_parent_id == self.parent_id
            &&& intent.target_display_name == self.display_name@
            &&& intent.target_name_key == self.name_key@
            &&& intent.target_under == self.under
            &&& self.declared_media_type is Some
            &&& self.declared_media_type->0@ == "text/markdown"@
            &&& catalog.permits(
                self.session_id,
                self.actor,
                self.drive_id,
                intent.source_node_id,
                intent.under,
                now,
            )
        }
    }

    /// The place of the first write in the script.
    pub open spec fn writes_at(self) -> int {
        let at = if self.node_id is Some {
            3int
        } else {
            2
        };
        let at2 = if self.expected_parent_generation is Some {
            at + 1
        } else {
            at
        };
        let at3 = if self.collaboration_checkpoint_id is Some {
            at2 + 1
        } else {
            at2
        };
        if self.import_intent_id is Some {
            at3 + 2
        } else {
            at3
        }
    }
}

#[verifier::rlimit(80)]
#[verifier::spinoff_prover]
proof fn lemma_request_is_expected<'a>(
    request: UploadRequest<'a>,
    log: Seq<Reply>,
    course: Course,
)
    requires
        crate::step::is_done(request.fault(log), request.script(log), log),
        course.follows(request.script(log), log),
    ensures
        request.is_expected(course.start(), course.clock[0]),
        course.rows[request.writes_at()] == course.start(),
{
    reveal(means);
    reveal(crate::tables::catalog::means);
    reveal(UploadTarget::of_row);
    reveal(UploadParent::of_row);
    reveal(ImportTarget::of_row);
    let script = request.script(log);
    let before = course.start();
    assert(course.performs(script, log, 0));
    assert(course.performs(script, log, 1));
    assert(first_row(log[1]) is Some);
    assert(course.clock[0] <= course.clock[1]);
    let fence = log[1].required_row::<FenceGenerations>(DatabaseError::StaleGeneration);
    assert(fence is Ok);
    let under = request.under;
    let expected = seq![under.membership, under.drive_acl, under.namespace, under.resource_acl];
    assert(expected[0] == fence->Ok_0.membership);
    assert(expected[1] == fence->Ok_0.drive_acl);
    assert(expected[2] == fence->Ok_0.namespace);
    assert(expected[3] == fence->Ok_0.resource_acl);
    assert(course.rows[2] == before);
    let at = if request.node_id is Some {
        assert(course.performs(script, log, 2));
        assert(log[2].required_row::<UploadTarget>(DatabaseError::StaleGeneration) is Ok);
        assert(first_row(log[2]) is Some);
        3int
    } else {
        2
    };
    assert(course.rows[at] == before);
    let at2 = if request.expected_parent_generation is Some {
        assert(course.performs(script, log, at));
        assert(log[at].required_row::<UploadParent>(DatabaseError::StaleGeneration) is Ok);
        assert(first_row(log[at]) is Some);
        at + 1
    } else {
        at
    };
    assert(course.rows[at2] == before);
    let at3 = if request.collaboration_checkpoint_id is Some {
        assert(course.performs(script, log, at2));
        assert(course.clock[0] <= course.clock[at2]);
        assert(log[at2].required_row::<()>(DatabaseError::StaleGeneration) is Ok);
        assert(first_row(log[at2]) is Some);
        at2 + 1
    } else {
        at2
    };
    assert(course.rows[at3] == before);
    if request.import_intent_id is Some {
        assert(course.performs(script, log, at3));
        assert(course.clock[0] <= course.clock[at3]);
        let intent = log[at3].required_row::<ImportTarget>(DatabaseError::StaleGeneration);
        assert(intent is Ok);
        assert(first_row(log[at3]) is Some);
        let target = intent->Ok_0.target_spec();
        assert(expected[0] == target.membership);
        assert(expected[1] == target.drive_acl);
        assert(expected[2] == target.namespace);
        assert(expected[3] == target.resource_acl);
        assert(course.performs(script, log, at3 + 1));
        assert(course.clock[0] <= course.clock[at3 + 1]);
        let source = log[at3 + 1].required_row::<FenceGenerations>(
            DatabaseError::StaleGeneration,
        );
        assert(source is Ok);
        assert(first_row(log[at3 + 1]) is Some);
        assert(course.rows[at3 + 2] == before);
    }
}

/// The parts of an upload, as far as a count goes: each stands there once, with nothing written.
pub open spec fn allocated(
    parts: Map<(Uuid, i32), PartRow>,
    upload_id: Uuid,
    count: int,
) -> Map<(Uuid, i32), PartRow> {
    Map::new(
        |key: (Uuid, i32)| parts.contains_key(key) || key.0 == upload_id && 0 <= key.1 < count,
        |key: (Uuid, i32)|
            if key.0 == upload_id && 0 <= key.1 < count {
                empty_part()
            } else {
                parts[key]
            },
    )
}

/// Whether a part of an upload was allocated, and nothing else changed.
pub open spec fn allocates(before: Tables, after: Tables, upload_id: Uuid, part: int) -> bool {
    after == with_catalog(
        before,
        CatalogTables {
            parts: before.catalog.parts.insert((upload_id, part as i32), empty_part()),
            ..before.catalog
        },
    )
}

proof fn lemma_parts_are_allocated(course: Course, from: int, upload_id: Uuid, count: int)
    requires
        0 <= count <= i32::MAX,
        forall|part: int|
            0 <= part < count ==> #[trigger] allocates(
                course.rows[from + part],
                course.rows[from + part + 1],
                upload_id,
                part,
            ),
    ensures
        course.rows[from + count] == with_catalog(
            course.rows[from],
            CatalogTables {
                parts: allocated(course.rows[from].catalog.parts, upload_id, count),
                ..course.rows[from].catalog
            },
        ),
    decreases count,
{
    let before = course.rows[from].catalog.parts;
    if count > 0 {
        lemma_parts_are_allocated(course, from, upload_id, count - 1);
        assert(allocates(
            course.rows[from + (count - 1)],
            course.rows[from + (count - 1) + 1],
            upload_id,
            count - 1,
        ));
        assert(course.rows[from + count].catalog.parts =~= allocated(before, upload_id, count));
    } else {
        assert(allocated(before, upload_id, 0) =~= before);
    }
}

/// What a beginning leaves: the upload as it was asked for, open under its first fence, its payload
/// at a backend that is ready, all its parts, and its bytes reserved on the drive, within the
/// quota.
pub open spec fn is_begun<'a>(
    request: UploadRequest<'a>,
    out: UploadRecordView,
    course: Course,
) -> bool {
    let before = course.start().catalog;
    let after = course.end().catalog;
    let drive = before.drives[request.drive_id];
    &&& drive.used_bytes + drive.reserved_bytes + request.declared_size <= drive.quota_bytes
    &&& before.backends.contains_key(out.backend_id)
    &&& before.backends[out.backend_id].ready
    &&& before.backends[out.backend_id].kind == "posix"@
    &&& !before.uploads.contains_key(out.upload_id)
    &&& !before.payloads.contains_key(out.payload_id)
    &&& course.end() == with_catalog(
        course.start(),
        CatalogTables {
            drives: before.drives.insert(
                request.drive_id,
                DriveRow { reserved_bytes: drive.reserved_bytes + request.declared_size, ..drive },
            ),
            uploads: before.uploads.insert(
                out.upload_id,
                request.row(out.payload_id, course.clock[request.writes_at() + 5]),
            ),
            payloads: before.payloads.insert(out.payload_id, "staging"@),
            places: before.places.insert(
                out.payload_id,
                PlaceRow {
                    drive_id: request.drive_id,
                    backend_id: out.backend_id,
                    locator: out.payload_locator,
                },
            ),
            quotas: before.quotas.insert(out.upload_id, "active"@),
            parts: allocated(before.parts, out.upload_id, request.part_count as int),
            audit_events: before.audit_events.push(
                AuditRow {
                    actor: Some(request.actor),
                    target: None,
                    resource: request.node_id,
                    action: "upload.begin"@,
                    outcome: "allowed"@,
                    reason: "write_content_allowed"@,
                    privacy_visible: false,
                    details: seq![
                        ("upload_id"@, Fact::Id(out.upload_id)),
                        ("bytes"@, Fact::Int(request.declared_size)),
                    ],
                },
            ),
            ..before
        },
    )
}

/// Whether the record of a begun upload is what was asked for.
pub open spec fn is_recorded<'a>(request: UploadRequest<'a>, out: UploadRecordView) -> bool {
    &&& out.tenant_id == request.tenant_id
    &&& out.drive_id == request.drive_id
    &&& out.node_id == request.node_id
    &&& out.parent_id == request.parent_id
    &&& out.owner_principal_id == request.actor
    &&& out.expected_head_version_id == request.expected_head
    &&& out.target_display_name == request.display_name@
    &&& out.target_name_key == request.name_key@
    &&& out.declared_size_bytes == request.declared_size
    &&& out.chunk_size_bytes == request.chunk_size
    &&& out.part_count == request.part_count
    &&& out.fencing_token == 1
    &&& out.state == "open"@
    &&& out.declared_media_type == crate::text::borrowed_text(request.declared_media_type)
    &&& out.collaboration_checkpoint_id == request.collaboration_checkpoint_id
    &&& out.import_intent_id == request.import_intent_id
}


/// An upload that begins reserves what it declares: it goes through where the rows are as the
/// request expects them and the bytes fit the quota, and the record that is returned is what the
/// rows hold.
#[verifier::rlimit(100)]
#[verifier::spinoff_prover]
pub proof fn begun_uploads_are_reserved<'a>(
    request: UploadRequest<'a>,
    log: Seq<Reply>,
    course: Course,
)
    requires
        crate::step::is_done(request.fault(log), request.script(log), log),
        course.follows(request.script(log), log),
    ensures
        request.is_expected(course.start(), course.clock[0]),
        is_begun(request, request.output(log), course),
        is_recorded(request, request.output(log)),
        request.part_count >= 1,
{
    lemma_request_is_expected(request, log, course);
    reveal(means);
    reveal(crate::tables::catalog::means);
    let script = request.script(log);
    let at = request.writes_at();
    let out = request.output(log);
    let count = request.part_count as int;
    assert(script.len() == at + 7 + count + 2);
    assert(course.performs(script, log, at));
    assert(course.performs(script, log, at + 1));
    assert(log[at + 1].required_row::<()>(DatabaseError::QuotaExceeded) is Ok);
    assert(first_row(log[at + 1]) is Some);
    assert(course.performs(script, log, at + 2));
    assert(log[at + 2].required_row::<()>(DatabaseError::StorageUnavailable) is Ok);
    assert(first_row(log[at + 2]) is Some);
    assert(course.performs(script, log, at + 3));
    assert(course.performs(script, log, at + 4));
    assert(course.performs(script, log, at + 5));
    assert(course.performs(script, log, at + 6));
    assert forall|part: int| 0 <= part < count implies #[trigger] allocates(
        course.rows[at + 7 + part],
        course.rows[at + 7 + part + 1],
        out.upload_id,
        part,
    ) by {
        assert(course.performs(script, log, at + 7 + part));
    }
    lemma_parts_are_allocated(course, at + 7, out.upload_id, count);
    assert(course.performs(script, log, at + 7 + count));
    assert(course.performs(script, log, at + 8 + count));
    assert(course.end() == course.rows[at + 9 + count]);
}

} // verus!
