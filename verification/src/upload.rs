//! Uploads: reservation, staging, finalization and commit.

use std::sync::Arc;

use vstd::prelude::*;

use crate::database::Database;
use crate::error::DatabaseError;
use crate::error::Fault;
use crate::fence::FenceGenerations;
use crate::id::Uuid;
use crate::row::FromRow;
use crate::row::Reply;
use crate::row::Row;
use crate::row::affected;
use crate::row::drawn;
use crate::row::each_exactly_one;
use crate::row::exactly_one;
use crate::row::many;
use crate::row::required;
use crate::row::single;
use crate::sql::catalog as sql;
use crate::step::Command;
use crate::step::CommandView;
use crate::step::Detail;
use crate::step::Envelope;
use crate::step::ErrorRule;
use crate::step::Fetch;
use crate::step::Param;
use crate::step::Step;
use crate::step::StepView;
use crate::step::ask;
use crate::step::ask_all;
use crate::step::ask_execute;
use crate::step::ask_one;
use crate::step::ask_optional;
use crate::step::stop;
use crate::step::stop_deep;
use crate::step::stop_list;
use crate::text::bytes_eq;
use crate::text::text_eq;

verus! {

/// An upload, with where its bytes go and what it is to become.
#[derive(Debug)]
pub struct UploadRecord {
    pub tenant_id: Uuid,
    pub upload_id: Uuid,
    pub drive_id: Uuid,
    pub node_id: Option<Uuid>,
    pub parent_id: Uuid,
    pub owner_principal_id: Uuid,
    pub payload_id: Uuid,
    pub backend_id: Uuid,
    pub payload_locator: Uuid,
    pub expected_head_version_id: Option<Uuid>,
    pub target_display_name: String,
    pub target_name_key: String,
    pub declared_size_bytes: i64,
    pub chunk_size_bytes: i32,
    pub part_count: i32,
    pub fencing_token: i64,
    pub state: String,
    pub declared_media_type: Option<String>,
    pub collaboration_checkpoint_id: Option<Uuid>,
    pub import_intent_id: Option<Uuid>,
}

/// What a [`UploadRecord`] holds.
#[verifier::ext_equal]
pub struct UploadRecordView {
    pub tenant_id: Uuid,
    pub upload_id: Uuid,
    pub drive_id: Uuid,
    pub node_id: Option<Uuid>,
    pub parent_id: Uuid,
    pub owner_principal_id: Uuid,
    pub payload_id: Uuid,
    pub backend_id: Uuid,
    pub payload_locator: Uuid,
    pub expected_head_version_id: Option<Uuid>,
    pub target_display_name: Seq<char>,
    pub target_name_key: Seq<char>,
    pub declared_size_bytes: i64,
    pub chunk_size_bytes: i32,
    pub part_count: i32,
    pub fencing_token: i64,
    pub state: Seq<char>,
    pub declared_media_type: Option<Seq<char>>,
    pub collaboration_checkpoint_id: Option<Uuid>,
    pub import_intent_id: Option<Uuid>,
}

impl View for UploadRecord {
    type V = UploadRecordView;

    open spec fn view(&self) -> UploadRecordView {
        UploadRecordView {
            tenant_id: self.tenant_id,
            upload_id: self.upload_id,
            drive_id: self.drive_id,
            node_id: self.node_id,
            parent_id: self.parent_id,
            owner_principal_id: self.owner_principal_id,
            payload_id: self.payload_id,
            backend_id: self.backend_id,
            payload_locator: self.payload_locator,
            expected_head_version_id: self.expected_head_version_id,
            target_display_name: self.target_display_name@,
            target_name_key: self.target_name_key@,
            declared_size_bytes: self.declared_size_bytes,
            chunk_size_bytes: self.chunk_size_bytes,
            part_count: self.part_count,
            fencing_token: self.fencing_token,
            state: self.state@,
            declared_media_type: match self.declared_media_type {
                Some(value) => Some(value@),
                None => None,
            },
            collaboration_checkpoint_id: self.collaboration_checkpoint_id,
            import_intent_id: self.import_intent_id,
        }
    }
}

impl UploadRecord {
    /// What a row holds, read by its column names.
    #[verifier::opaque]
    pub open spec fn of_row(row: Row) -> Result<UploadRecord, Fault> {
        if row.column::<Uuid>("tenant_id"@) is Some
            && row.column::<Uuid>("id"@) is Some
            && row.column::<Uuid>("drive_id"@) is Some
            && row.column::<Option<Uuid>>("node_id"@) is Some
            && row.column::<Uuid>("parent_id"@) is Some
            && row.column::<Uuid>("owner_principal_id"@) is Some
            && row.column::<Uuid>("payload_id"@) is Some
            && row.column::<Uuid>("backend_id"@) is Some
            && row.column::<Uuid>("payload_locator"@) is Some
            && row.column::<Option<Uuid>>("expected_head_version_id"@) is Some
            && row.column::<String>("target_display_name"@) is Some
            && row.column::<String>("target_name_key"@) is Some
            && row.column::<i64>("declared_size_bytes"@) is Some
            && row.column::<i32>("chunk_size_bytes"@) is Some
            && row.column::<i32>("part_count"@) is Some
            && row.column::<i64>("fencing_token"@) is Some
            && row.column::<String>("state"@) is Some
            && row.column::<Option<String>>("declared_media_type"@) is Some
            && row.column::<Option<Uuid>>("collaboration_checkpoint_id"@) is Some
            && row.column::<Option<Uuid>>("import_intent_id"@) is Some {
            Ok(
                UploadRecord {
                    tenant_id: row.column::<Uuid>("tenant_id"@)->0,
                    upload_id: row.column::<Uuid>("id"@)->0,
                    drive_id: row.column::<Uuid>("drive_id"@)->0,
                    node_id: row.column::<Option<Uuid>>("node_id"@)->0,
                    parent_id: row.column::<Uuid>("parent_id"@)->0,
                    owner_principal_id: row.column::<Uuid>("owner_principal_id"@)->0,
                    payload_id: row.column::<Uuid>("payload_id"@)->0,
                    backend_id: row.column::<Uuid>("backend_id"@)->0,
                    payload_locator: row.column::<Uuid>("payload_locator"@)->0,
                    expected_head_version_id: row.column::<Option<Uuid>>(
                        "expected_head_version_id"@,
                    )->0,
                    target_display_name: row.column::<String>("target_display_name"@)->0,
                    target_name_key: row.column::<String>("target_name_key"@)->0,
                    declared_size_bytes: row.column::<i64>("declared_size_bytes"@)->0,
                    chunk_size_bytes: row.column::<i32>("chunk_size_bytes"@)->0,
                    part_count: row.column::<i32>("part_count"@)->0,
                    fencing_token: row.column::<i64>("fencing_token"@)->0,
                    state: row.column::<String>("state"@)->0,
                    declared_media_type: row.column::<Option<String>>("declared_media_type"@)->0,
                    collaboration_checkpoint_id: row.column::<Option<Uuid>>(
                        "collaboration_checkpoint_id"@,
                    )->0,
                    import_intent_id: row.column::<Option<Uuid>>("import_intent_id"@)->0,
                },
            )
        } else {
            Err(Fault::Malformed)
        }
    }
}

impl FromRow for UploadRecord {
    open spec fn row_spec(row: Row) -> Result<UploadRecord, Fault> {
        UploadRecord::of_row(row)
    }

    fn from_row(row: &Row) -> (r: Result<UploadRecord, Fault>) {
        proof {
            reveal(UploadRecord::of_row);
        }
        let tenant_id: Uuid = match row.get("tenant_id") {
            Some(v) => v,
            None => return Err(Fault::Malformed),
        };
        let upload_id: Uuid = match row.get("id") {
            Some(v) => v,
            None => return Err(Fault::Malformed),
        };
        let drive_id: Uuid = match row.get("drive_id") {
            Some(v) => v,
            None => return Err(Fault::Malformed),
        };
        let node_id: Option<Uuid> = match row.get("node_id") {
            Some(v) => v,
            None => return Err(Fault::Malformed),
        };
        let parent_id: Uuid = match row.get("parent_id") {
            Some(v) => v,
            None => return Err(Fault::Malformed),
        };
        let owner_principal_id: Uuid = match row.get("owner_principal_id") {
            Some(v) => v,
            None => return Err(Fault::Malformed),
        };
        let payload_id: Uuid = match row.get("payload_id") {
            Some(v) => v,
            None => return Err(Fault::Malformed),
        };
        let backend_id: Uuid = match row.get("backend_id") {
            Some(v) => v,
            None => return Err(Fault::Malformed),
        };
        let payload_locator: Uuid = match row.get("payload_locator") {
            Some(v) => v,
            None => return Err(Fault::Malformed),
        };
        let expected_head_version_id: Option<Uuid> = match row.get("expected_head_version_id") {
            Some(v) => v,
            None => return Err(Fault::Malformed),
        };
        let target_display_name: String = match row.get("target_display_name") {
            Some(v) => v,
            None => return Err(Fault::Malformed),
        };
        let target_name_key: String = match row.get("target_name_key") {
            Some(v) => v,
            None => return Err(Fault::Malformed),
        };
        let declared_size_bytes: i64 = match row.get("declared_size_bytes") {
            Some(v) => v,
            None => return Err(Fault::Malformed),
        };
        let chunk_size_bytes: i32 = match row.get("chunk_size_bytes") {
            Some(v) => v,
            None => return Err(Fault::Malformed),
        };
        let part_count: i32 = match row.get("part_count") {
            Some(v) => v,
            None => return Err(Fault::Malformed),
        };
        let fencing_token: i64 = match row.get("fencing_token") {
            Some(v) => v,
            None => return Err(Fault::Malformed),
        };
        let state: String = match row.get("state") {
            Some(v) => v,
            None => return Err(Fault::Malformed),
        };
        let declared_media_type: Option<String> = match row.get("declared_media_type") {
            Some(v) => v,
            None => return Err(Fault::Malformed),
        };
        let collaboration_checkpoint_id: Option<Uuid> = match row.get(
            "collaboration_checkpoint_id",
        ) {
            Some(v) => v,
            None => return Err(Fault::Malformed),
        };
        let import_intent_id: Option<Uuid> = match row.get("import_intent_id") {
            Some(v) => v,
            None => return Err(Fault::Malformed),
        };
        Ok(UploadRecord {
            tenant_id, upload_id, drive_id, node_id, parent_id, owner_principal_id, payload_id,
            backend_id, payload_locator, expected_head_version_id, target_display_name,
            target_name_key, declared_size_bytes, chunk_size_bytes, part_count, fencing_token,
            state, declared_media_type, collaboration_checkpoint_id, import_intent_id,
        })
    }
}

/// A part of an upload.
#[derive(Debug)]
pub struct UploadPartRecord {
    pub part_number: i32,
    pub locator: Uuid,
    pub state: String,
    pub size_bytes: i32,
    pub blake3: Option<Arc<Vec<u8>>>,
}

impl UploadPartRecord {
    /// What a row holds, read by its column names.
    #[verifier::opaque]
    pub open spec fn of_row(row: Row) -> Result<UploadPartRecord, Fault> {
        if row.column::<i32>("part_number"@) is Some
            && row.column::<Uuid>("locator"@) is Some
            && row.column::<String>("state"@) is Some
            && row.column::<i32>("size_bytes"@) is Some
            && row.column::<Option<Arc<Vec<u8>>>>("blake3"@) is Some {
            Ok(
                UploadPartRecord {
                    part_number: row.column::<i32>("part_number"@)->0,
                    locator: row.column::<Uuid>("locator"@)->0,
                    state: row.column::<String>("state"@)->0,
                    size_bytes: row.column::<i32>("size_bytes"@)->0,
                    blake3: row.column::<Option<Arc<Vec<u8>>>>("blake3"@)->0,
                },
            )
        } else {
            Err(Fault::Malformed)
        }
    }
}

impl FromRow for UploadPartRecord {
    open spec fn row_spec(row: Row) -> Result<UploadPartRecord, Fault> {
        UploadPartRecord::of_row(row)
    }

    fn from_row(row: &Row) -> (r: Result<UploadPartRecord, Fault>) {
        proof {
            reveal(UploadPartRecord::of_row);
        }
        let part_number: i32 = match row.get("part_number") {
            Some(v) => v,
            None => return Err(Fault::Malformed),
        };
        let locator: Uuid = match row.get("locator") {
            Some(v) => v,
            None => return Err(Fault::Malformed),
        };
        let state: String = match row.get("state") {
            Some(v) => v,
            None => return Err(Fault::Malformed),
        };
        let size_bytes: i32 = match row.get("size_bytes") {
            Some(v) => v,
            None => return Err(Fault::Malformed),
        };
        let blake3: Option<Arc<Vec<u8>>> = match row.get("blake3") {
            Some(v) => v,
            None => return Err(Fault::Malformed),
        };
        Ok(UploadPartRecord { part_number, locator, state, size_bytes, blake3 })
    }
}

/// Stored bytes and where they lie.
#[derive(Debug)]
pub struct PayloadRecord {
    pub tenant_id: Uuid,
    pub payload_id: Uuid,
    pub drive_id: Uuid,
    pub backend_id: Uuid,
    pub locator: Uuid,
    pub layout: String,
    pub state: String,
    pub size_bytes: i64,
    pub blake3: Option<Arc<Vec<u8>>>,
}

impl PayloadRecord {
    /// What a row holds, read by its column names.
    #[verifier::opaque]
    pub open spec fn of_row(row: Row) -> Result<PayloadRecord, Fault> {
        if row.column::<Uuid>("tenant_id"@) is Some
            && row.column::<Uuid>("payload_id"@) is Some
            && row.column::<Uuid>("drive_id"@) is Some
            && row.column::<Uuid>("backend_id"@) is Some
            && row.column::<Uuid>("locator"@) is Some
            && row.column::<String>("layout"@) is Some
            && row.column::<String>("state"@) is Some
            && row.column::<i64>("size_bytes"@) is Some
            && row.column::<Option<Arc<Vec<u8>>>>("blake3"@) is Some {
            Ok(
                PayloadRecord {
                    tenant_id: row.column::<Uuid>("tenant_id"@)->0,
                    payload_id: row.column::<Uuid>("payload_id"@)->0,
                    drive_id: row.column::<Uuid>("drive_id"@)->0,
                    backend_id: row.column::<Uuid>("backend_id"@)->0,
                    locator: row.column::<Uuid>("locator"@)->0,
                    layout: row.column::<String>("layout"@)->0,
                    state: row.column::<String>("state"@)->0,
                    size_bytes: row.column::<i64>("size_bytes"@)->0,
                    blake3: row.column::<Option<Arc<Vec<u8>>>>("blake3"@)->0,
                },
            )
        } else {
            Err(Fault::Malformed)
        }
    }
}

impl FromRow for PayloadRecord {
    open spec fn row_spec(row: Row) -> Result<PayloadRecord, Fault> {
        PayloadRecord::of_row(row)
    }

    fn from_row(row: &Row) -> (r: Result<PayloadRecord, Fault>) {
        proof {
            reveal(PayloadRecord::of_row);
        }
        let tenant_id: Uuid = match row.get("tenant_id") {
            Some(v) => v,
            None => return Err(Fault::Malformed),
        };
        let payload_id: Uuid = match row.get("payload_id") {
            Some(v) => v,
            None => return Err(Fault::Malformed),
        };
        let drive_id: Uuid = match row.get("drive_id") {
            Some(v) => v,
            None => return Err(Fault::Malformed),
        };
        let backend_id: Uuid = match row.get("backend_id") {
            Some(v) => v,
            None => return Err(Fault::Malformed),
        };
        let locator: Uuid = match row.get("locator") {
            Some(v) => v,
            None => return Err(Fault::Malformed),
        };
        let layout: String = match row.get("layout") {
            Some(v) => v,
            None => return Err(Fault::Malformed),
        };
        let state: String = match row.get("state") {
            Some(v) => v,
            None => return Err(Fault::Malformed),
        };
        let size_bytes: i64 = match row.get("size_bytes") {
            Some(v) => v,
            None => return Err(Fault::Malformed),
        };
        let blake3: Option<Arc<Vec<u8>>> = match row.get("blake3") {
            Some(v) => v,
            None => return Err(Fault::Malformed),
        };
        Ok(PayloadRecord {
            tenant_id, payload_id, drive_id, backend_id, locator, layout, state, size_bytes,
            blake3,
        })
    }
}

/// The file that an upload is to give a new version.
#[derive(Debug)]
pub struct UploadTarget {
    pub parent_id: Option<Uuid>,
    pub kind: String,
    pub head_version_id: Option<Uuid>,
    pub trash_root_id: Option<Uuid>,
}

impl UploadTarget {
    /// What a row holds, read by its column names.
    #[verifier::opaque]
    pub open spec fn of_row(row: Row) -> Result<UploadTarget, Fault> {
        if row.column::<Option<Uuid>>("parent_id"@) is Some
            && row.column::<String>("kind"@) is Some
            && row.column::<Option<Uuid>>("head_version_id"@) is Some
            && row.column::<Option<Uuid>>("trash_root_id"@) is Some {
            Ok(
                UploadTarget {
                    parent_id: row.column::<Option<Uuid>>("parent_id"@)->0,
                    kind: row.column::<String>("kind"@)->0,
                    head_version_id: row.column::<Option<Uuid>>("head_version_id"@)->0,
                    trash_root_id: row.column::<Option<Uuid>>("trash_root_id"@)->0,
                },
            )
        } else {
            Err(Fault::Malformed)
        }
    }
}

impl FromRow for UploadTarget {
    open spec fn row_spec(row: Row) -> Result<UploadTarget, Fault> {
        UploadTarget::of_row(row)
    }

    fn from_row(row: &Row) -> (r: Result<UploadTarget, Fault>) {
        proof {
            reveal(UploadTarget::of_row);
        }
        let parent_id: Option<Uuid> = match row.get("parent_id") {
            Some(v) => v,
            None => return Err(Fault::Malformed),
        };
        let kind: String = match row.get("kind") {
            Some(v) => v,
            None => return Err(Fault::Malformed),
        };
        let head_version_id: Option<Uuid> = match row.get("head_version_id") {
            Some(v) => v,
            None => return Err(Fault::Malformed),
        };
        let trash_root_id: Option<Uuid> = match row.get("trash_root_id") {
            Some(v) => v,
            None => return Err(Fault::Malformed),
        };
        Ok(UploadTarget { parent_id, kind, head_version_id, trash_root_id })
    }
}

/// The directory that an upload is to put a file into.
#[derive(Debug)]
pub struct UploadParent {
    pub kind: String,
    pub namespace_generation: i64,
}

impl UploadParent {
    /// What a row holds, read by its column names.
    #[verifier::opaque]
    pub open spec fn of_row(row: Row) -> Result<UploadParent, Fault> {
        if row.column::<String>("kind"@) is Some
            && row.column::<i64>("namespace_generation"@) is Some {
            Ok(
                UploadParent {
                    kind: row.column::<String>("kind"@)->0,
                    namespace_generation: row.column::<i64>("namespace_generation"@)->0,
                },
            )
        } else {
            Err(Fault::Malformed)
        }
    }
}

impl FromRow for UploadParent {
    open spec fn row_spec(row: Row) -> Result<UploadParent, Fault> {
        UploadParent::of_row(row)
    }

    fn from_row(row: &Row) -> (r: Result<UploadParent, Fault>) {
        proof {
            reveal(UploadParent::of_row);
        }
        let kind: String = match row.get("kind") {
            Some(v) => v,
            None => return Err(Fault::Malformed),
        };
        let namespace_generation: i64 = match row.get("namespace_generation") {
            Some(v) => v,
            None => return Err(Fault::Malformed),
        };
        Ok(UploadParent { kind, namespace_generation })
    }
}

/// What an import was allowed to make, by whom, and under which generations.
#[derive(Debug)]
pub struct ImportTarget {
    pub source_node_id: Uuid,
    pub target_parent_id: Uuid,
    pub target_display_name: String,
    pub target_name_key: String,
    pub principal_id: Uuid,
    pub session_id: Uuid,
    pub source_membership_generation: i64,
    pub source_drive_acl_generation: i64,
    pub source_namespace_generation: i64,
    pub source_resource_acl_generation: i64,
    pub target_membership_generation: i64,
    pub target_drive_acl_generation: i64,
    pub target_namespace_generation: i64,
    pub target_resource_acl_generation: i64,
}

impl ImportTarget {
    /// What a row holds, read by its column names.
    #[verifier::opaque]
    pub open spec fn of_row(row: Row) -> Result<ImportTarget, Fault> {
        if row.column::<Uuid>("source_node_id"@) is Some
            && row.column::<Uuid>("target_parent_id"@) is Some
            && row.column::<String>("target_display_name"@) is Some
            && row.column::<String>("target_name_key"@) is Some
            && row.column::<Uuid>("principal_id"@) is Some
            && row.column::<Uuid>("session_id"@) is Some
            && row.column::<i64>("source_membership_generation"@) is Some
            && row.column::<i64>("source_drive_acl_generation"@) is Some
            && row.column::<i64>("source_namespace_generation"@) is Some
            && row.column::<i64>("source_resource_acl_generation"@) is Some
            && row.column::<i64>("target_membership_generation"@) is Some
            && row.column::<i64>("target_drive_acl_generation"@) is Some
            && row.column::<i64>("target_namespace_generation"@) is Some
            && row.column::<i64>("target_resource_acl_generation"@) is Some {
            Ok(
                ImportTarget {
                    source_node_id: row.column::<Uuid>("source_node_id"@)->0,
                    target_parent_id: row.column::<Uuid>("target_parent_id"@)->0,
                    target_display_name: row.column::<String>("target_display_name"@)->0,
                    target_name_key: row.column::<String>("target_name_key"@)->0,
                    principal_id: row.column::<Uuid>("principal_id"@)->0,
                    session_id: row.column::<Uuid>("session_id"@)->0,
                    source_membership_generation: row.column::<i64>(
                        "source_membership_generation"@,
                    )->0,
                    source_drive_acl_generation: row.column::<i64>(
                        "source_drive_acl_generation"@,
                    )->0,
                    source_namespace_generation: row.column::<i64>(
                        "source_namespace_generation"@,
                    )->0,
                    source_resource_acl_generation: row.column::<i64>(
                        "source_resource_acl_generation"@,
                    )->0,
                    target_membership_generation: row.column::<i64>(
                        "target_membership_generation"@,
                    )->0,
                    target_drive_acl_generation: row.column::<i64>(
                        "target_drive_acl_generation"@,
                    )->0,
                    target_namespace_generation: row.column::<i64>(
                        "target_namespace_generation"@,
                    )->0,
                    target_resource_acl_generation: row.column::<i64>(
                        "target_resource_acl_generation"@,
                    )->0,
                },
            )
        } else {
            Err(Fault::Malformed)
        }
    }
}

impl FromRow for ImportTarget {
    open spec fn row_spec(row: Row) -> Result<ImportTarget, Fault> {
        ImportTarget::of_row(row)
    }

    fn from_row(row: &Row) -> (r: Result<ImportTarget, Fault>) {
        proof {
            reveal(ImportTarget::of_row);
        }
        let source_node_id: Uuid = match row.get("source_node_id") {
            Some(v) => v,
            None => return Err(Fault::Malformed),
        };
        let target_parent_id: Uuid = match row.get("target_parent_id") {
            Some(v) => v,
            None => return Err(Fault::Malformed),
        };
        let target_display_name: String = match row.get("target_display_name") {
            Some(v) => v,
            None => return Err(Fault::Malformed),
        };
        let target_name_key: String = match row.get("target_name_key") {
            Some(v) => v,
            None => return Err(Fault::Malformed),
        };
        let principal_id: Uuid = match row.get("principal_id") {
            Some(v) => v,
            None => return Err(Fault::Malformed),
        };
        let session_id: Uuid = match row.get("session_id") {
            Some(v) => v,
            None => return Err(Fault::Malformed),
        };
        let source_membership_generation: i64 = match row.get("source_membership_generation") {
            Some(v) => v,
            None => return Err(Fault::Malformed),
        };
        let source_drive_acl_generation: i64 = match row.get("source_drive_acl_generation") {
            Some(v) => v,
            None => return Err(Fault::Malformed),
        };
        let source_namespace_generation: i64 = match row.get("source_namespace_generation") {
            Some(v) => v,
            None => return Err(Fault::Malformed),
        };
        let source_resource_acl_generation: i64 = match row.get("source_resource_acl_generation") {
            Some(v) => v,
            None => return Err(Fault::Malformed),
        };
        let target_membership_generation: i64 = match row.get("target_membership_generation") {
            Some(v) => v,
            None => return Err(Fault::Malformed),
        };
        let target_drive_acl_generation: i64 = match row.get("target_drive_acl_generation") {
            Some(v) => v,
            None => return Err(Fault::Malformed),
        };
        let target_namespace_generation: i64 = match row.get("target_namespace_generation") {
            Some(v) => v,
            None => return Err(Fault::Malformed),
        };
        let target_resource_acl_generation: i64 = match row.get("target_resource_acl_generation") {
            Some(v) => v,
            None => return Err(Fault::Malformed),
        };
        Ok(ImportTarget {
            source_node_id, target_parent_id, target_display_name, target_name_key,
            principal_id, session_id, source_membership_generation, source_drive_acl_generation,
            source_namespace_generation, source_resource_acl_generation,
            target_membership_generation, target_drive_acl_generation,
            target_namespace_generation, target_resource_acl_generation,
        })
    }
}

/// An upload whose bytes are complete.
#[derive(Debug)]
pub struct FinalizedUpload {
    pub drive_id: Uuid,
    pub parent_id: Uuid,
    pub node_id: Option<Uuid>,
    pub expected_head_version_id: Option<Uuid>,
    pub target_display_name: String,
    pub target_name_key: String,
    pub payload_id: Uuid,
    pub declared_size_bytes: i64,
    pub blake3: Arc<Vec<u8>>,
    pub declared_media_type: Option<String>,
    pub collaboration_checkpoint_id: Option<Uuid>,
    pub import_intent_id: Option<Uuid>,
}

impl FinalizedUpload {
    /// What a row holds, read by its column names.
    #[verifier::opaque]
    pub open spec fn of_row(row: Row) -> Result<FinalizedUpload, Fault> {
        if row.column::<Uuid>("drive_id"@) is Some
            && row.column::<Uuid>("parent_id"@) is Some
            && row.column::<Option<Uuid>>("node_id"@) is Some
            && row.column::<Option<Uuid>>("expected_head_version_id"@) is Some
            && row.column::<String>("target_display_name"@) is Some
            && row.column::<String>("target_name_key"@) is Some
            && row.column::<Uuid>("payload_id"@) is Some
            && row.column::<i64>("declared_size_bytes"@) is Some
            && row.column::<Arc<Vec<u8>>>("blake3"@) is Some
            && row.column::<Option<String>>("declared_media_type"@) is Some
            && row.column::<Option<Uuid>>("collaboration_checkpoint_id"@) is Some
            && row.column::<Option<Uuid>>("import_intent_id"@) is Some {
            Ok(
                FinalizedUpload {
                    drive_id: row.column::<Uuid>("drive_id"@)->0,
                    parent_id: row.column::<Uuid>("parent_id"@)->0,
                    node_id: row.column::<Option<Uuid>>("node_id"@)->0,
                    expected_head_version_id: row.column::<Option<Uuid>>(
                        "expected_head_version_id"@,
                    )->0,
                    target_display_name: row.column::<String>("target_display_name"@)->0,
                    target_name_key: row.column::<String>("target_name_key"@)->0,
                    payload_id: row.column::<Uuid>("payload_id"@)->0,
                    declared_size_bytes: row.column::<i64>("declared_size_bytes"@)->0,
                    blake3: row.column::<Arc<Vec<u8>>>("blake3"@)->0,
                    declared_media_type: row.column::<Option<String>>("declared_media_type"@)->0,
                    collaboration_checkpoint_id: row.column::<Option<Uuid>>(
                        "collaboration_checkpoint_id"@,
                    )->0,
                    import_intent_id: row.column::<Option<Uuid>>("import_intent_id"@)->0,
                },
            )
        } else {
            Err(Fault::Malformed)
        }
    }
}

impl FromRow for FinalizedUpload {
    open spec fn row_spec(row: Row) -> Result<FinalizedUpload, Fault> {
        FinalizedUpload::of_row(row)
    }

    fn from_row(row: &Row) -> (r: Result<FinalizedUpload, Fault>) {
        proof {
            reveal(FinalizedUpload::of_row);
        }
        let drive_id: Uuid = match row.get("drive_id") {
            Some(v) => v,
            None => return Err(Fault::Malformed),
        };
        let parent_id: Uuid = match row.get("parent_id") {
            Some(v) => v,
            None => return Err(Fault::Malformed),
        };
        let node_id: Option<Uuid> = match row.get("node_id") {
            Some(v) => v,
            None => return Err(Fault::Malformed),
        };
        let expected_head_version_id: Option<Uuid> = match row.get("expected_head_version_id") {
            Some(v) => v,
            None => return Err(Fault::Malformed),
        };
        let target_display_name: String = match row.get("target_display_name") {
            Some(v) => v,
            None => return Err(Fault::Malformed),
        };
        let target_name_key: String = match row.get("target_name_key") {
            Some(v) => v,
            None => return Err(Fault::Malformed),
        };
        let payload_id: Uuid = match row.get("payload_id") {
            Some(v) => v,
            None => return Err(Fault::Malformed),
        };
        let declared_size_bytes: i64 = match row.get("declared_size_bytes") {
            Some(v) => v,
            None => return Err(Fault::Malformed),
        };
        let blake3: Arc<Vec<u8>> = match row.get("blake3") {
            Some(v) => v,
            None => return Err(Fault::Malformed),
        };
        let declared_media_type: Option<String> = match row.get("declared_media_type") {
            Some(v) => v,
            None => return Err(Fault::Malformed),
        };
        let collaboration_checkpoint_id: Option<Uuid> = match row.get(
            "collaboration_checkpoint_id",
        ) {
            Some(v) => v,
            None => return Err(Fault::Malformed),
        };
        let import_intent_id: Option<Uuid> = match row.get("import_intent_id") {
            Some(v) => v,
            None => return Err(Fault::Malformed),
        };
        Ok(FinalizedUpload {
            drive_id, parent_id, node_id, expected_head_version_id, target_display_name,
            target_name_key, payload_id, declared_size_bytes, blake3, declared_media_type,
            collaboration_checkpoint_id, import_intent_id,
        })
    }
}

/// What a prepared checkpoint says of the bytes that it became.
#[derive(Debug)]
pub struct CheckpointSource {
    pub base_version_id: Uuid,
    pub source_size_bytes: i64,
    pub source_blake3: Arc<Vec<u8>>,
    pub mcp_assisted: bool,
}

impl CheckpointSource {
    /// What a row holds, read by its column names.
    #[verifier::opaque]
    pub open spec fn of_row(row: Row) -> Result<CheckpointSource, Fault> {
        if row.column::<Uuid>("base_version_id"@) is Some
            && row.column::<i64>("source_size_bytes"@) is Some
            && row.column::<Arc<Vec<u8>>>("source_blake3"@) is Some
            && row.column::<bool>("mcp_assisted"@) is Some {
            Ok(
                CheckpointSource {
                    base_version_id: row.column::<Uuid>("base_version_id"@)->0,
                    source_size_bytes: row.column::<i64>("source_size_bytes"@)->0,
                    source_blake3: row.column::<Arc<Vec<u8>>>("source_blake3"@)->0,
                    mcp_assisted: row.column::<bool>("mcp_assisted"@)->0,
                },
            )
        } else {
            Err(Fault::Malformed)
        }
    }
}

impl FromRow for CheckpointSource {
    open spec fn row_spec(row: Row) -> Result<CheckpointSource, Fault> {
        CheckpointSource::of_row(row)
    }

    fn from_row(row: &Row) -> (r: Result<CheckpointSource, Fault>) {
        proof {
            reveal(CheckpointSource::of_row);
        }
        let base_version_id: Uuid = match row.get("base_version_id") {
            Some(v) => v,
            None => return Err(Fault::Malformed),
        };
        let source_size_bytes: i64 = match row.get("source_size_bytes") {
            Some(v) => v,
            None => return Err(Fault::Malformed),
        };
        let source_blake3: Arc<Vec<u8>> = match row.get("source_blake3") {
            Some(v) => v,
            None => return Err(Fault::Malformed),
        };
        let mcp_assisted: bool = match row.get("mcp_assisted") {
            Some(v) => v,
            None => return Err(Fault::Malformed),
        };
        Ok(CheckpointSource { 
            base_version_id, source_size_bytes, source_blake3, mcp_assisted,
         })
    }
}

/// What an import takes its text from, and under which generations.
#[derive(Clone, Copy, Debug, PartialEq, Eq, Structural)]
pub struct ImportSource {
    pub source_node_id: Uuid,
    pub source_version_id: Uuid,
    pub source_membership_generation: i64,
    pub source_drive_acl_generation: i64,
    pub source_namespace_generation: i64,
    pub source_resource_acl_generation: i64,
}

impl ImportSource {
    /// What a row holds, read by its column names.
    #[verifier::opaque]
    pub open spec fn of_row(row: Row) -> Result<ImportSource, Fault> {
        if row.column::<Uuid>("source_node_id"@) is Some
            && row.column::<Uuid>("source_version_id"@) is Some
            && row.column::<i64>("source_membership_generation"@) is Some
            && row.column::<i64>("source_drive_acl_generation"@) is Some
            && row.column::<i64>("source_namespace_generation"@) is Some
            && row.column::<i64>("source_resource_acl_generation"@) is Some {
            Ok(
                ImportSource {
                    source_node_id: row.column::<Uuid>("source_node_id"@)->0,
                    source_version_id: row.column::<Uuid>("source_version_id"@)->0,
                    source_membership_generation: row.column::<i64>(
                        "source_membership_generation"@,
                    )->0,
                    source_drive_acl_generation: row.column::<i64>(
                        "source_drive_acl_generation"@,
                    )->0,
                    source_namespace_generation: row.column::<i64>(
                        "source_namespace_generation"@,
                    )->0,
                    source_resource_acl_generation: row.column::<i64>(
                        "source_resource_acl_generation"@,
                    )->0,
                },
            )
        } else {
            Err(Fault::Malformed)
        }
    }
}

impl FromRow for ImportSource {
    open spec fn row_spec(row: Row) -> Result<ImportSource, Fault> {
        ImportSource::of_row(row)
    }

    fn from_row(row: &Row) -> (r: Result<ImportSource, Fault>) {
        proof {
            reveal(ImportSource::of_row);
        }
        let source_node_id: Uuid = match row.get("source_node_id") {
            Some(v) => v,
            None => return Err(Fault::Malformed),
        };
        let source_version_id: Uuid = match row.get("source_version_id") {
            Some(v) => v,
            None => return Err(Fault::Malformed),
        };
        let source_membership_generation: i64 = match row.get("source_membership_generation") {
            Some(v) => v,
            None => return Err(Fault::Malformed),
        };
        let source_drive_acl_generation: i64 = match row.get("source_drive_acl_generation") {
            Some(v) => v,
            None => return Err(Fault::Malformed),
        };
        let source_namespace_generation: i64 = match row.get("source_namespace_generation") {
            Some(v) => v,
            None => return Err(Fault::Malformed),
        };
        let source_resource_acl_generation: i64 = match row.get("source_resource_acl_generation") {
            Some(v) => v,
            None => return Err(Fault::Malformed),
        };
        Ok(ImportSource { 
            source_node_id, source_version_id, source_membership_generation,
            source_drive_acl_generation, source_namespace_generation,
            source_resource_acl_generation,
         })
    }
}

/// The payload of an upload that has been finalized.
#[derive(Clone, Copy, Debug, PartialEq, Eq, Structural)]
pub struct FinalizedPayload {
    pub payload_id: Uuid,
    pub declared_size_bytes: i64,
}

impl FinalizedPayload {
    /// What a row holds, read by its column names.
    #[verifier::opaque]
    pub open spec fn of_row(row: Row) -> Result<FinalizedPayload, Fault> {
        if row.column::<Uuid>("payload_id"@) is Some
            && row.column::<i64>("declared_size_bytes"@) is Some {
            Ok(
                FinalizedPayload {
                    payload_id: row.column::<Uuid>("payload_id"@)->0,
                    declared_size_bytes: row.column::<i64>("declared_size_bytes"@)->0,
                },
            )
        } else {
            Err(Fault::Malformed)
        }
    }
}

impl FromRow for FinalizedPayload {
    open spec fn row_spec(row: Row) -> Result<FinalizedPayload, Fault> {
        FinalizedPayload::of_row(row)
    }

    fn from_row(row: &Row) -> (r: Result<FinalizedPayload, Fault>) {
        proof {
            reveal(FinalizedPayload::of_row);
        }
        let payload_id: Uuid = match row.get("payload_id") {
            Some(v) => v,
            None => return Err(Fault::Malformed),
        };
        let declared_size_bytes: i64 = match row.get("declared_size_bytes") {
            Some(v) => v,
            None => return Err(Fault::Malformed),
        };
        Ok(FinalizedPayload { payload_id, declared_size_bytes })
    }
}

/// A finalized upload that never committed.
#[derive(Clone, Copy, Debug, PartialEq, Eq, Structural)]
pub struct OrphanedUpload {
    pub upload_id: Uuid,
    pub drive_id: Uuid,
    pub declared_size_bytes: i64,
}

impl OrphanedUpload {
    /// What a row holds, read by its column names.
    #[verifier::opaque]
    pub open spec fn of_row(row: Row) -> Result<OrphanedUpload, Fault> {
        if row.column::<Uuid>("upload_id"@) is Some
            && row.column::<Uuid>("drive_id"@) is Some
            && row.column::<i64>("declared_size_bytes"@) is Some {
            Ok(
                OrphanedUpload {
                    upload_id: row.column::<Uuid>("upload_id"@)->0,
                    drive_id: row.column::<Uuid>("drive_id"@)->0,
                    declared_size_bytes: row.column::<i64>("declared_size_bytes"@)->0,
                },
            )
        } else {
            Err(Fault::Malformed)
        }
    }
}

impl FromRow for OrphanedUpload {
    open spec fn row_spec(row: Row) -> Result<OrphanedUpload, Fault> {
        OrphanedUpload::of_row(row)
    }

    fn from_row(row: &Row) -> (r: Result<OrphanedUpload, Fault>) {
        proof {
            reveal(OrphanedUpload::of_row);
        }
        let upload_id: Uuid = match row.get("upload_id") {
            Some(v) => v,
            None => return Err(Fault::Malformed),
        };
        let drive_id: Uuid = match row.get("drive_id") {
            Some(v) => v,
            None => return Err(Fault::Malformed),
        };
        let declared_size_bytes: i64 = match row.get("declared_size_bytes") {
            Some(v) => v,
            None => return Err(Fault::Malformed),
        };
        Ok(OrphanedUpload { upload_id, drive_id, declared_size_bytes })
    }
}

/// An upload whose time has run out.
#[derive(Clone, Copy, Debug, PartialEq, Eq, Structural)]
pub struct ExpiredUpload {
    pub tenant_id: Uuid,
    pub id: Uuid,
    pub drive_id: Uuid,
    pub declared_size_bytes: i64,
}

impl ExpiredUpload {
    /// What a row holds, read by its column names.
    #[verifier::opaque]
    pub open spec fn of_row(row: Row) -> Result<ExpiredUpload, Fault> {
        if row.column::<Uuid>("tenant_id"@) is Some
            && row.column::<Uuid>("id"@) is Some
            && row.column::<Uuid>("drive_id"@) is Some
            && row.column::<i64>("declared_size_bytes"@) is Some {
            Ok(
                ExpiredUpload {
                    tenant_id: row.column::<Uuid>("tenant_id"@)->0,
                    id: row.column::<Uuid>("id"@)->0,
                    drive_id: row.column::<Uuid>("drive_id"@)->0,
                    declared_size_bytes: row.column::<i64>("declared_size_bytes"@)->0,
                },
            )
        } else {
            Err(Fault::Malformed)
        }
    }
}

impl FromRow for ExpiredUpload {
    open spec fn row_spec(row: Row) -> Result<ExpiredUpload, Fault> {
        ExpiredUpload::of_row(row)
    }

    fn from_row(row: &Row) -> (r: Result<ExpiredUpload, Fault>) {
        proof {
            reveal(ExpiredUpload::of_row);
        }
        let tenant_id: Uuid = match row.get("tenant_id") {
            Some(v) => v,
            None => return Err(Fault::Malformed),
        };
        let id: Uuid = match row.get("id") {
            Some(v) => v,
            None => return Err(Fault::Malformed),
        };
        let drive_id: Uuid = match row.get("drive_id") {
            Some(v) => v,
            None => return Err(Fault::Malformed),
        };
        let declared_size_bytes: i64 = match row.get("declared_size_bytes") {
            Some(v) => v,
            None => return Err(Fault::Malformed),
        };
        Ok(ExpiredUpload { tenant_id, id, drive_id, declared_size_bytes })
    }
}

impl UploadTarget {
    /// Whether the node is a live file in this directory with this head.
    pub open spec fn fits(self, parent_id: Uuid, head: Option<Uuid>) -> bool {
        &&& self.parent_id == Some(parent_id)
        &&& self.kind@ == "file"@
        &&& self.head_version_id == head
        &&& self.trash_root_id is None
    }

    /// Whether the node is a live file in this directory with this head.
    pub fn does_fit(&self, parent_id: Uuid, head: Option<Uuid>) -> (r: bool)
        ensures
            r == self.fits(parent_id, head),
    {
        self.parent_id == Some(parent_id) && text_eq(self.kind.as_str(), "file")
            && self.head_version_id == head && self.trash_root_id.is_none()
    }
}

impl UploadParent {
    /// Whether the node is a directory at this generation.
    pub open spec fn fits(self, generation: i64) -> bool {
        self.kind@ == "directory"@ && self.namespace_generation == generation
    }

    /// Whether the node is a directory at this generation.
    pub fn does_fit(&self, generation: i64) -> (r: bool)
        ensures
            r == self.fits(generation),
    {
        text_eq(self.kind.as_str(), "directory") && self.namespace_generation == generation
    }
}

impl ImportTarget {
    /// Whether the import was allowed to this session of this principal, into this directory
    /// under this name.
    pub open spec fn allows(
        self,
        principal_id: Uuid,
        session_id: Uuid,
        parent_id: Uuid,
        display_name: &str,
        name_key: &str,
    ) -> bool {
        &&& self.principal_id == principal_id
        &&& self.session_id == session_id
        &&& self.target_parent_id == parent_id
        &&& self.target_display_name@ == display_name@
        &&& self.target_name_key@ == name_key@
    }

    /// Whether the import was allowed to this session of this principal, into this directory
    /// under this name.
    pub fn does_allow(
        &self,
        principal_id: Uuid,
        session_id: Uuid,
        parent_id: Uuid,
        display_name: &str,
        name_key: &str,
    ) -> (r: bool)
        ensures
            r == self.allows(principal_id, session_id, parent_id, display_name, name_key),
    {
        self.principal_id == principal_id && self.session_id == session_id
            && self.target_parent_id == parent_id && text_eq(
            self.target_display_name.as_str(),
            display_name,
        ) && text_eq(self.target_name_key.as_str(), name_key)
    }

    /// The generations of the target under which the import was allowed.
    pub open spec fn target_spec(self) -> FenceGenerations {
        FenceGenerations {
            membership: self.target_membership_generation,
            drive_acl: self.target_drive_acl_generation,
            namespace: self.target_namespace_generation,
            resource_acl: self.target_resource_acl_generation,
        }
    }

    /// The generations of the target under which the import was allowed.
    pub fn target(&self) -> (r: FenceGenerations)
        ensures
            r == self.target_spec(),
    {
        FenceGenerations {
            membership: self.target_membership_generation,
            drive_acl: self.target_drive_acl_generation,
            namespace: self.target_namespace_generation,
            resource_acl: self.target_resource_acl_generation,
        }
    }

    /// The generations of the source under which the import was allowed.
    pub open spec fn source_spec(self) -> FenceGenerations {
        FenceGenerations {
            membership: self.source_membership_generation,
            drive_acl: self.source_drive_acl_generation,
            namespace: self.source_namespace_generation,
            resource_acl: self.source_resource_acl_generation,
        }
    }

    /// The generations of the source under which the import was allowed.
    pub fn source(&self) -> (r: FenceGenerations)
        ensures
            r == self.source_spec(),
    {
        FenceGenerations {
            membership: self.source_membership_generation,
            drive_acl: self.source_drive_acl_generation,
            namespace: self.source_namespace_generation,
            resource_acl: self.source_resource_acl_generation,
        }
    }
}

impl ImportSource {
    /// The generations of the source under which the import was allowed.
    pub open spec fn source_spec(self) -> FenceGenerations {
        FenceGenerations {
            membership: self.source_membership_generation,
            drive_acl: self.source_drive_acl_generation,
            namespace: self.source_namespace_generation,
            resource_acl: self.source_resource_acl_generation,
        }
    }

    /// The generations of the source under which the import was allowed.
    pub fn source(&self) -> (r: FenceGenerations)
        ensures
            r == self.source_spec(),
    {
        FenceGenerations {
            membership: self.source_membership_generation,
            drive_acl: self.source_drive_acl_generation,
            namespace: self.source_namespace_generation,
            resource_acl: self.source_resource_acl_generation,
        }
    }
}

/// Where a new version comes from.
#[derive(Clone, Copy, Debug)]
pub struct VersionOrigin {
    pub kind: &'static str,
    pub source_version_id: Option<Uuid>,
    pub mcp_assisted: bool,
}

impl VersionOrigin {
    /// The origin of a version that neither a checkpoint nor an import made: a saved Markdown
    /// file has the head that it replaces as its source.
    pub open spec fn direct_spec(saved: bool, head: Option<Uuid>) -> VersionOrigin {
        if saved {
            VersionOrigin { kind: "markdown_save", source_version_id: head, mcp_assisted: false }
        } else {
            VersionOrigin { kind: "upload", source_version_id: None, mcp_assisted: false }
        }
    }

    /// The origin of a version that neither a checkpoint nor an import made.
    pub fn direct(saved: bool, head: Option<Uuid>) -> (r: VersionOrigin)
        ensures
            r == Self::direct_spec(saved, head),
    {
        if saved {
            VersionOrigin { kind: "markdown_save", source_version_id: head, mcp_assisted: false }
        } else {
            VersionOrigin { kind: "upload", source_version_id: None, mcp_assisted: false }
        }
    }
}

/// Whether a media type is given and is that of Markdown.
pub open spec fn is_markdown_spec(media_type: Option<Seq<char>>) -> bool {
    media_type is Some && media_type->0 == "text/markdown"@
}

/// Whether a declared media type is that of Markdown.
pub fn is_markdown(media_type: Option<&str>) -> (r: bool)
    ensures
        r == is_markdown_spec(crate::text::borrowed_text(media_type)),
{
    match media_type {
        Some(media_type) => text_eq(media_type, "text/markdown"),
        None => false,
    }
}

/// Whether a stored media type is that of Markdown.
pub fn stored_is_markdown(media_type: &Option<String>) -> (r: bool)
    ensures
        r == is_markdown_spec(crate::text::optional_text(*media_type)),
{
    match media_type {
        Some(media_type) => text_eq(media_type.as_str(), "text/markdown"),
        None => false,
    }
}

/// Whether a layout has this many parts: a whole one has one, a chunked one several.
pub open spec fn layout_fits_spec(layout: Seq<char>, part_count: i32) -> bool {
    if layout == "whole"@ {
        part_count == 1
    } else {
        layout == "chunked"@ && part_count >= 2
    }
}

/// Whether a layout has this many parts.
pub fn layout_fits(layout: &str, part_count: i32) -> (r: bool)
    ensures
        r == layout_fits_spec(layout@, part_count),
        r ==> part_count >= 1,
{
    if text_eq(layout, "whole") {
        part_count == 1
    } else {
        text_eq(layout, "chunked") && part_count >= 2
    }
}

/// The verdict on what an upload expects to find: a new file names its parent's generation and
/// no head, a new version names its file's head; a generation is positive.
pub open spec fn expectation_shape(
    node_id: Option<Uuid>,
    expected_parent_generation: Option<i64>,
    expected_head: Option<Uuid>,
) -> Result<(), DatabaseError> {
    if (expected_parent_generation is Some ==> expected_parent_generation->0 > 0) && (if node_id
        is None {
        expected_parent_generation is Some && expected_head is None
    } else {
        expected_head is Some
    }) {
        Ok(())
    } else {
        Err(DatabaseError::InvalidPersistedValue)
    }
}

/// Refuses an upload whose expectations fit neither a new file nor a new version.
pub fn validate_upload_expectation_shape(
    node_id: Option<Uuid>,
    expected_parent_generation: Option<i64>,
    expected_head: Option<Uuid>,
) -> (r: Result<(), DatabaseError>)
    ensures
        r == expectation_shape(node_id, expected_parent_generation, expected_head),
{
    if let Some(generation) = expected_parent_generation {
        if generation <= 0 {
            return Err(DatabaseError::InvalidPersistedValue);
        }
    }
    if (node_id.is_none() && (expected_parent_generation.is_none() || expected_head.is_some()))
        || (node_id.is_some() && expected_head.is_none()) {
        return Err(DatabaseError::InvalidPersistedValue);
    }
    Ok(())
}

impl Database {

    /// What stops `begin_upload`, in order.
    pub open spec fn begin_upload_fault<'a>(
        actor: Uuid, session_id: Uuid, parent_id: Uuid, node_id: Option<Uuid>,
        expected_parent_generation: Option<i64>, expected_head: Option<Uuid>,
        display_name: &'a str, name_key: &'a str, part_count: i32, layout: &'a str,
        declared_media_type: Option<&'a str>, collaboration_checkpoint_id: Option<Uuid>,
        import_intent_id: Option<Uuid>, membership_generation: i64, drive_acl_generation: i64,
        namespace_generation: i64, resource_acl_generation: i64, log: Seq<Reply>,
    ) -> Option<Fault> {
        let fence = log[1].required_row::<FenceGenerations>(DatabaseError::StaleGeneration)->Ok_0;
        let node = log[2].required_row::<UploadTarget>(DatabaseError::StaleGeneration)->Ok_0;
        let at = if node_id is Some {
            3int
        } else {
            2
        };
        let parent = log[at].required_row::<UploadParent>(DatabaseError::StaleGeneration)->Ok_0;
        let at2 = if expected_parent_generation is Some {
            at + 1
        } else {
            at
        };
        let at3 = if collaboration_checkpoint_id is Some {
            at2 + 1
        } else {
            at2
        };
        let intent = log[at3].required_row::<ImportTarget>(DatabaseError::StaleGeneration)->Ok_0;
        let source_fence =
            log[at3 + 1].required_row::<FenceGenerations>(DatabaseError::StaleGeneration)->Ok_0;
        let at4 = if import_intent_id is Some {
            at3 + 2
        } else {
            at3
        };
        let drawn = log[at4 + 3].drawn_ids(3);
        if expectation_shape(node_id, expected_parent_generation, expected_head) is Err {
            Some(
                Fault::Error(
                    expectation_shape(node_id, expected_parent_generation, expected_head)->Err_0,
                ),
            )
        } else if !layout_fits_spec(layout@, part_count) {
            Some(Fault::Error(DatabaseError::InvalidPersistedValue))
        } else if (collaboration_checkpoint_id is Some && import_intent_id is Some)
            || (collaboration_checkpoint_id is Some && node_id is None)
            || (import_intent_id is Some && node_id is Some) {
            Some(Fault::Error(DatabaseError::InvalidPersistedValue))
        } else if log.len() > 1
            && log[1].required_row::<FenceGenerations>(DatabaseError::StaleGeneration) is Err {
            Fault::of(log[1].required_row::<FenceGenerations>(DatabaseError::StaleGeneration))
        } else if log.len() > 1
            && !fence.agrees_with(
                seq![
                    membership_generation, drive_acl_generation, namespace_generation,
                    resource_acl_generation,
                ],
            ) {
                Some(Fault::Error(DatabaseError::StaleGeneration))
            } else if node_id is Some && log.len() > 2
            && log[2].required_row::<UploadTarget>(DatabaseError::StaleGeneration) is Err {
            Fault::of(log[2].required_row::<UploadTarget>(DatabaseError::StaleGeneration))
        } else if node_id is Some && log.len() > 2 && !node.fits(parent_id, expected_head) {
            Some(Fault::Error(DatabaseError::StaleGeneration))
        } else if expected_parent_generation is Some && log.len() > at
            && log[at].required_row::<UploadParent>(DatabaseError::StaleGeneration) is Err {
            Fault::of(log[at].required_row::<UploadParent>(DatabaseError::StaleGeneration))
        } else if expected_parent_generation is Some && log.len() > at
            && !parent.fits(expected_parent_generation->0) {
            Some(Fault::Error(DatabaseError::StaleGeneration))
        } else if collaboration_checkpoint_id is Some && log.len() > at2
            && log[at2].required_row::<()>(DatabaseError::StaleGeneration) is Err {
            Fault::of(log[at2].required_row::<()>(DatabaseError::StaleGeneration))
        } else if import_intent_id is Some && log.len() > at3
            && log[at3].required_row::<ImportTarget>(DatabaseError::StaleGeneration) is Err {
            Fault::of(log[at3].required_row::<ImportTarget>(DatabaseError::StaleGeneration))
        } else if import_intent_id is Some && log.len() > at3
            && !intent.allows(actor, session_id, parent_id, display_name, name_key) {
            Some(Fault::Error(DatabaseError::StaleGeneration))
        } else if import_intent_id is Some && log.len() > at3
            && !intent.target_spec().agrees_with(
                seq![
                    membership_generation, drive_acl_generation, namespace_generation,
                    resource_acl_generation,
                ],
            ) {
                Some(Fault::Error(DatabaseError::StaleGeneration))
            } else if import_intent_id is Some && log.len() > at3
            && !is_markdown_spec(crate::text::borrowed_text(declared_media_type)) {
            Some(Fault::Error(DatabaseError::StaleGeneration))
        } else if import_intent_id is Some && log.len() > at3 + 1
            && log[at3 + 1].required_row::<FenceGenerations>(
                DatabaseError::StaleGeneration,
            ) is Err {
                Fault::of(
                    log[at3 + 1].required_row::<FenceGenerations>(DatabaseError::StaleGeneration),
                )
            } else if import_intent_id is Some && log.len() > at3 + 1
            && source_fence != intent.source_spec() {
            Some(Fault::Error(DatabaseError::StaleGeneration))
        } else if log.len() > at4
            && log[at4].required_row::<Uuid>(DatabaseError::StorageUnavailable) is Err {
            Fault::of(log[at4].required_row::<Uuid>(DatabaseError::StorageUnavailable))
        } else if log.len() > at4 + 1
            && log[at4 + 1].required_row::<()>(DatabaseError::QuotaExceeded) is Err {
            Fault::of(log[at4 + 1].required_row::<()>(DatabaseError::QuotaExceeded))
        } else if log.len() > at4 + 2
            && log[at4 + 2].required_row::<()>(DatabaseError::StorageUnavailable) is Err {
            Fault::of(log[at4 + 2].required_row::<()>(DatabaseError::StorageUnavailable))
        } else if log.len() > at4 + 3 && drawn is Err {
            Fault::of(drawn)
        } else {
            None
        }
    }

    /// The commands of `begin_upload`, in order.
    pub open spec fn begin_upload_script<'a>(
        tenant_id: Uuid, actor: Uuid, session_id: Uuid, drive_id: Uuid, parent_id: Uuid,
        node_id: Option<Uuid>, expected_parent_generation: Option<i64>,
        expected_head: Option<Uuid>, display_name: &'a str, name_key: &'a str,
        declared_size: i64, chunk_size: i32, part_count: i32, layout: &'a str,
        declared_media_type: Option<&'a str>, collaboration_checkpoint_id: Option<Uuid>,
        import_intent_id: Option<Uuid>, ttl_seconds: i64, log: Seq<Reply>,
    ) -> Seq<CommandView<'a>> {
        let resource = if node_id is Some { node_id->0 } else { parent_id };
        let at = if node_id is Some {
            3int
        } else {
            2
        };
        let at2 = if expected_parent_generation is Some {
            at + 1
        } else {
            at
        };
        let at3 = if collaboration_checkpoint_id is Some {
            at2 + 1
        } else {
            at2
        };
        let intent = log[at3].required_row::<ImportTarget>(DatabaseError::StaleGeneration)->Ok_0;
        let at4 = if import_intent_id is Some {
            at3 + 2
        } else {
            at3
        };
        let backend_id = log[at4].required_row::<Uuid>(DatabaseError::StorageUnavailable)->Ok_0;
        let drawn = log[at4 + 3].drawn_ids(3);
        let upload_id = drawn->Ok_0[0];
        let payload_id = drawn->Ok_0[1];
        let locator = drawn->Ok_0[2];
        seq![
            CommandView::Begin,
            CommandView::optional(
                sql::LOCK_AUTHORIZATION_FENCE,
                seq![
                    Param::Id(tenant_id), Param::Id(session_id), Param::Id(actor),
                    Param::Id(drive_id), Param::Id(resource),
                ],
            ),
        ].add(
            if node_id is Some {
                seq![
                    CommandView::optional(
                        sql::BEGIN_UPLOAD_SELECT_NODES,
                        seq![Param::Id(tenant_id), Param::Id(drive_id), Param::Id(node_id->0)],
                    ),
                ]
            } else {
                Seq::empty()
            },
        ).add(
            if expected_parent_generation is Some {
                seq![
                    CommandView::optional(
                        sql::BEGIN_UPLOAD_SELECT_NODES_2,
                        seq![Param::Id(tenant_id), Param::Id(drive_id), Param::Id(parent_id)],
                    ),
                ]
            } else {
                Seq::empty()
            },
        ).add(
            if collaboration_checkpoint_id is Some {
                seq![
                    CommandView::optional(
                        sql::BEGIN_UPLOAD_SELECT_CHECKPOINTS,
                        seq![
                            Param::Id(tenant_id), Param::Id(collaboration_checkpoint_id->0),
                            Param::Id(node_id->0), Param::Id(expected_head->0), Param::Id(actor),
                        ],
                    ),
                ]
            } else {
                Seq::empty()
            },
        ).add(
            if import_intent_id is Some {
                seq![
                    CommandView::optional(
                        sql::BEGIN_UPLOAD_SELECT_IMPORT_INTENTS,
                        seq![
                            Param::Id(tenant_id), Param::Id(import_intent_id->0),
                            Param::Id(drive_id),
                        ],
                    ),
                    CommandView::optional(
                        sql::LOCK_AUTHORIZATION_FENCE,
                        seq![
                            Param::Id(tenant_id), Param::Id(session_id), Param::Id(actor),
                            Param::Id(drive_id), Param::Id(intent.source_node_id),
                        ],
                    ),
                ]
            } else {
                Seq::empty()
            },
        ).add(
            seq![
                CommandView::optional(
                    sql::BOOTSTRAP_TENANT_SELECT_STORAGE_BACKENDS,
                    seq![Param::Id(tenant_id)],
                ),
                CommandView::optional(
                    sql::BEGIN_UPLOAD_UPDATE_DRIVES,
                    seq![Param::Id(tenant_id), Param::Id(drive_id), Param::I64(declared_size)],
                ),
                CommandView::optional(
                    sql::BEGIN_UPLOAD_SELECT_STORAGE_BACKENDS,
                    seq![Param::Id(tenant_id), Param::Id(backend_id)],
                ),
                CommandView::DrawIds(3),
                CommandView::execute(
                    sql::BEGIN_UPLOAD_INSERT_PAYLOAD_OBJECTS,
                    seq![
                        Param::Id(tenant_id), Param::Id(payload_id), Param::Id(drive_id),
                        Param::Id(backend_id), Param::Id(locator), Param::Text(layout),
                        Param::I64(declared_size),
                    ],
                ),
                CommandView::execute(
                    sql::BEGIN_UPLOAD_INSERT_UPLOAD_SESSIONS,
                    seq![
                        Param::Id(tenant_id), Param::Id(upload_id), Param::Id(drive_id),
                        Param::OptId(node_id), Param::Id(parent_id), Param::Id(actor),
                        Param::Id(payload_id), Param::OptId(expected_head),
                        Param::Text(display_name), Param::Text(name_key), Param::I64(declared_size),
                        Param::I32(chunk_size), Param::I32(part_count),
                        Param::OptText(declared_media_type),
                        Param::OptId(collaboration_checkpoint_id), Param::OptId(import_intent_id),
                        Param::I64(ttl_seconds),
                    ],
                ),
                CommandView::execute(
                    sql::BEGIN_UPLOAD_INSERT_QUOTA_RESERVATIONS,
                    seq![
                        Param::Id(tenant_id), Param::FreshId, Param::Id(drive_id),
                        Param::Id(upload_id), Param::I64(declared_size), Param::I64(ttl_seconds),
                    ],
                ),
            ],
        ).add(
            Seq::new(
                part_count as nat,
                |part: int| CommandView::execute(
                    sql::BEGIN_UPLOAD_INSERT_UPLOAD_PARTS,
                    seq![
                        Param::Id(tenant_id), Param::Id(upload_id), Param::I32(part as i32),
                        Param::FreshId,
                    ],
                ),
            ),
        ).add(
            seq![
                CommandView::execute(
                    sql::INSERT_AUDIT,
                    seq![
                        Param::Id(tenant_id), Param::FreshId, Param::OptId(Some(actor)),
                        Param::OptId(None), Param::OptId(node_id), Param::Text("upload.begin"),
                        Param::Text("allowed"), Param::Text("write_content_allowed"),
                        Param::Bool(false),
                        Param::Object2(
                            "upload_id", Detail::Id(upload_id), "bytes", Detail::Int(declared_size),
                        ),
                    ],
                ),
                CommandView::Commit,
            ],
        )
    }

    /// What `begin_upload` returns.
    pub open spec fn begin_upload_output<'a>(
        tenant_id: Uuid, actor: Uuid, drive_id: Uuid, parent_id: Uuid, node_id: Option<Uuid>,
        expected_parent_generation: Option<i64>, expected_head: Option<Uuid>,
        display_name: &'a str, name_key: &'a str, declared_size: i64, chunk_size: i32,
        part_count: i32, declared_media_type: Option<&'a str>,
        collaboration_checkpoint_id: Option<Uuid>, import_intent_id: Option<Uuid>,
        log: Seq<Reply>,
    ) -> UploadRecordView {
        let at = if node_id is Some {
            3int
        } else {
            2
        };
        let at2 = if expected_parent_generation is Some {
            at + 1
        } else {
            at
        };
        let at3 = if collaboration_checkpoint_id is Some {
            at2 + 1
        } else {
            at2
        };
        let at4 = if import_intent_id is Some {
            at3 + 2
        } else {
            at3
        };
        let backend_id = log[at4].required_row::<Uuid>(DatabaseError::StorageUnavailable)->Ok_0;
        let drawn = log[at4 + 3].drawn_ids(3);
        let upload_id = drawn->Ok_0[0];
        let payload_id = drawn->Ok_0[1];
        let locator = drawn->Ok_0[2];
        UploadRecordView {
            tenant_id,
            upload_id,
            drive_id,
            node_id,
            parent_id,
            owner_principal_id: actor,
            payload_id,
            backend_id,
            payload_locator: locator,
            expected_head_version_id: expected_head,
            target_display_name: display_name@,
            target_name_key: name_key@,
            declared_size_bytes: declared_size,
            chunk_size_bytes: chunk_size,
            part_count,
            fencing_token: 1,
            state: "open"@,
            declared_media_type: crate::text::borrowed_text(declared_media_type),
            collaboration_checkpoint_id,
            import_intent_id,
        }
    }

    /// Opens an upload: of a new file, of a new version, of what a collaboration checkpoint or an
    /// import makes. The backend is locked before the drive's quota is reserved, and nothing is
    /// reserved unless the caller's authorization still stands and everything is as expected.
    #[verifier::spinoff_prover]
    #[verifier::rlimit(100)]
    pub fn begin_upload<'a>(
        tenant_id: Uuid, actor: Uuid, session_id: Uuid, drive_id: Uuid, parent_id: Uuid,
        node_id: Option<Uuid>, expected_parent_generation: Option<i64>,
        expected_head: Option<Uuid>, display_name: &'a str, name_key: &'a str,
        declared_size: i64, chunk_size: i32, part_count: i32, layout: &'a str,
        declared_media_type: Option<&'a str>, collaboration_checkpoint_id: Option<Uuid>,
        import_intent_id: Option<Uuid>, ttl_seconds: i64, membership_generation: i64,
        drive_acl_generation: i64, namespace_generation: i64, resource_acl_generation: i64,
        log: &'a [Reply],
    ) -> (step: Step<'a, UploadRecord>)
        ensures
            step.deep() == StepView::proceed(
                Self::begin_upload_fault(
                    actor, session_id, parent_id, node_id, expected_parent_generation,
                    expected_head, display_name, name_key, part_count, layout,
                    declared_media_type, collaboration_checkpoint_id, import_intent_id,
                    membership_generation, drive_acl_generation, namespace_generation,
                    resource_acl_generation, log@,
                ),
                Self::begin_upload_script(
                    tenant_id, actor, session_id, drive_id, parent_id, node_id,
                    expected_parent_generation, expected_head, display_name, name_key,
                    declared_size, chunk_size, part_count, layout, declared_media_type,
                    collaboration_checkpoint_id, import_intent_id, ttl_seconds, log@,
                ),
                Self::begin_upload_output(
                    tenant_id, actor, drive_id, parent_id, node_id, expected_parent_generation,
                    expected_head, display_name, name_key, declared_size, chunk_size,
                    part_count, declared_media_type, collaboration_checkpoint_id,
                    import_intent_id, log@,
                ),
                log@,
            ),
    {
        let shape: () = match validate_upload_expectation_shape(
            node_id, expected_parent_generation, expected_head,
        ) {
            Ok(value) => value,
            Err(error) => return Step::Fail(error),
        };
        if !layout_fits(layout, part_count) {
            return Step::Fail(DatabaseError::InvalidPersistedValue);
        }
        if (collaboration_checkpoint_id.is_some() && import_intent_id.is_some())
            || (collaboration_checkpoint_id.is_some() && node_id.is_none())
            || (import_intent_id.is_some() && node_id.is_some()) {
            return Step::Fail(DatabaseError::InvalidPersistedValue);
        }
        if log.len() == 0 {
            return Step::Ask(Command::Begin);
        }
        let resource: Uuid = match node_id {
            Some(node_id) => node_id,
            None => parent_id,
        };
        if log.len() <= 1 {
            return ask_optional(
                sql::LOCK_AUTHORIZATION_FENCE,
                vec![
                    Param::Id(tenant_id), Param::Id(session_id), Param::Id(actor),
                    Param::Id(drive_id), Param::Id(resource),
                ],
            );
        }
        let fence: FenceGenerations = match required(&log[1], DatabaseError::StaleGeneration) {
            Ok(value) => value,
            Err(fault) => return stop_deep(fault),
        };
        if !fence.agree(
            [
                membership_generation, drive_acl_generation, namespace_generation,
                resource_acl_generation,
            ],
        ) {
            return Step::Fail(DatabaseError::StaleGeneration);
        }
        if node_id.is_some() {
            if log.len() <= 2 {
                return ask_optional(
                    sql::BEGIN_UPLOAD_SELECT_NODES,
                    vec![Param::Id(tenant_id), Param::Id(drive_id), Param::Id(node_id.unwrap())],
                );
            }
            let node: UploadTarget = match required(&log[2], DatabaseError::StaleGeneration) {
                Ok(value) => value,
                Err(fault) => return stop_deep(fault),
            };
            if !node.does_fit(parent_id, expected_head) {
                return Step::Fail(DatabaseError::StaleGeneration);
            }
        }
        let at: usize = if node_id.is_some() {
            3
        } else {
            2
        };
        if expected_parent_generation.is_some() {
            if log.len() <= at {
                return ask_optional(
                    sql::BEGIN_UPLOAD_SELECT_NODES_2,
                    vec![Param::Id(tenant_id), Param::Id(drive_id), Param::Id(parent_id)],
                );
            }
            let parent: UploadParent = match required(&log[at], DatabaseError::StaleGeneration) {
                Ok(value) => value,
                Err(fault) => return stop_deep(fault),
            };
            if !parent.does_fit(expected_parent_generation.unwrap()) {
                return Step::Fail(DatabaseError::StaleGeneration);
            }
        }
        let at2: usize = if expected_parent_generation.is_some() {
            at + 1
        } else {
            at
        };
        if collaboration_checkpoint_id.is_some() {
            if log.len() <= at2 {
                return ask_optional(
                    sql::BEGIN_UPLOAD_SELECT_CHECKPOINTS,
                    vec![
                        Param::Id(tenant_id), Param::Id(collaboration_checkpoint_id.unwrap()),
                        Param::Id(node_id.unwrap()), Param::Id(expected_head.unwrap()),
                        Param::Id(actor),
                    ],
                );
            }
            let checkpoint: () = match required::<()>(&log[at2], DatabaseError::StaleGeneration) {
                Ok(value) => value,
                Err(fault) => return stop_deep(fault),
            };
        }
        let at3: usize = if collaboration_checkpoint_id.is_some() {
            at2 + 1
        } else {
            at2
        };
        if import_intent_id.is_some() {
            if log.len() <= at3 {
                return ask_optional(
                    sql::BEGIN_UPLOAD_SELECT_IMPORT_INTENTS,
                    vec![
                        Param::Id(tenant_id), Param::Id(import_intent_id.unwrap()),
                        Param::Id(drive_id),
                    ],
                );
            }
            let intent: ImportTarget = match required(&log[at3], DatabaseError::StaleGeneration) {
                Ok(value) => value,
                Err(fault) => return stop_deep(fault),
            };
            if !intent.does_allow(actor, session_id, parent_id, display_name, name_key) {
                return Step::Fail(DatabaseError::StaleGeneration);
            }
            if !intent.target().agree(
                [
                    membership_generation, drive_acl_generation, namespace_generation,
                    resource_acl_generation,
                ],
            ) {
                return Step::Fail(DatabaseError::StaleGeneration);
            }
            if !is_markdown(declared_media_type) {
                return Step::Fail(DatabaseError::StaleGeneration);
            }
            if log.len() - at3 <= 1 {
                return ask_optional(
                    sql::LOCK_AUTHORIZATION_FENCE,
                    vec![
                        Param::Id(tenant_id), Param::Id(session_id), Param::Id(actor),
                        Param::Id(drive_id), Param::Id(intent.source_node_id),
                    ],
                );
            }
            let source_fence: FenceGenerations = match required(
                &log[at3 + 1],
                DatabaseError::StaleGeneration,
            ) {
                Ok(value) => value,
                Err(fault) => return stop_deep(fault),
            };
            if source_fence != intent.source() {
                return Step::Fail(DatabaseError::StaleGeneration);
            }
        }
        let at4: usize = if import_intent_id.is_some() {
            at3 + 2
        } else {
            at3
        };
        if log.len() <= at4 {
            return ask_optional(
                sql::BOOTSTRAP_TENANT_SELECT_STORAGE_BACKENDS,
                vec![Param::Id(tenant_id)],
            );
        }
        let backend_id: Uuid = match required(&log[at4], DatabaseError::StorageUnavailable) {
            Ok(value) => value,
            Err(fault) => return stop_deep(fault),
        };
        if log.len() - at4 <= 1 {
            return ask_optional(
                sql::BEGIN_UPLOAD_UPDATE_DRIVES,
                vec![Param::Id(tenant_id), Param::Id(drive_id), Param::I64(declared_size)],
            );
        }
        let reserved: () = match required::<()>(&log[at4 + 1], DatabaseError::QuotaExceeded) {
            Ok(value) => value,
            Err(fault) => return stop_deep(fault),
        };
        if log.len() - at4 <= 2 {
            return ask_optional(
                sql::BEGIN_UPLOAD_SELECT_STORAGE_BACKENDS,
                vec![Param::Id(tenant_id), Param::Id(backend_id)],
            );
        }
        let ready: () = match required::<()>(&log[at4 + 2], DatabaseError::StorageUnavailable) {
            Ok(value) => value,
            Err(fault) => return stop_deep(fault),
        };
        if log.len() - at4 <= 3 {
            return Step::Ask(Command::DrawIds(3));
        }
        let drawn: &Vec<Uuid> = match drawn(&log[at4 + 3], 3) {
            Ok(ids) => ids,
            Err(fault) => return stop_deep(fault),
        };
        let upload_id: Uuid = drawn[0];
        let payload_id: Uuid = drawn[1];
        let locator: Uuid = drawn[2];
        if log.len() - at4 <= 4 {
            return ask_execute(
                sql::BEGIN_UPLOAD_INSERT_PAYLOAD_OBJECTS,
                vec![
                    Param::Id(tenant_id), Param::Id(payload_id), Param::Id(drive_id),
                    Param::Id(backend_id), Param::Id(locator), Param::Text(layout),
                    Param::I64(declared_size),
                ],
            );
        }
        if log.len() - at4 <= 5 {
            return ask_execute(
                sql::BEGIN_UPLOAD_INSERT_UPLOAD_SESSIONS,
                vec![
                    Param::Id(tenant_id), Param::Id(upload_id), Param::Id(drive_id),
                    Param::OptId(node_id), Param::Id(parent_id), Param::Id(actor),
                    Param::Id(payload_id), Param::OptId(expected_head),
                    Param::Text(display_name), Param::Text(name_key), Param::I64(declared_size),
                    Param::I32(chunk_size), Param::I32(part_count),
                    Param::OptText(declared_media_type),
                    Param::OptId(collaboration_checkpoint_id), Param::OptId(import_intent_id),
                    Param::I64(ttl_seconds),
                ],
            );
        }
        if log.len() - at4 <= 6 {
            return ask_execute(
                sql::BEGIN_UPLOAD_INSERT_QUOTA_RESERVATIONS,
                vec![
                    Param::Id(tenant_id), Param::FreshId, Param::Id(drive_id),
                    Param::Id(upload_id), Param::I64(declared_size), Param::I64(ttl_seconds),
                ],
            );
        }
        let items5: usize = part_count as usize;
        if log.len() - (at4 + 7) < items5 {
            let part: usize = log.len() - (at4 + 7);
            return ask_execute(
                sql::BEGIN_UPLOAD_INSERT_UPLOAD_PARTS,
                vec![
                    Param::Id(tenant_id), Param::Id(upload_id), Param::I32(part as i32),
                    Param::FreshId,
                ],
            );
        }
        let at5: usize = at4 + 7 + items5;
        if log.len() <= at5 {
            return ask_execute(
                sql::INSERT_AUDIT,
                vec![
                    Param::Id(tenant_id), Param::FreshId, Param::OptId(Some(actor)),
                    Param::OptId(None), Param::OptId(node_id), Param::Text("upload.begin"),
                    Param::Text("allowed"), Param::Text("write_content_allowed"),
                    Param::Bool(false),
                    Param::Object2(
                        "upload_id", Detail::Id(upload_id), "bytes", Detail::Int(declared_size),
                    ),
                ],
            );
        }
        if log.len() - at5 <= 1 {
            return Step::Ask(Command::Commit);
        }
        Step::Done(
            UploadRecord {
                tenant_id,
                upload_id,
                drive_id,
                node_id,
                parent_id,
                owner_principal_id: actor,
                payload_id,
                backend_id,
                payload_locator: locator,
                expected_head_version_id: expected_head,
                target_display_name: display_name.to_owned(),
                target_name_key: name_key.to_owned(),
                declared_size_bytes: declared_size,
                chunk_size_bytes: chunk_size,
                part_count,
                fencing_token: 1,
                state: "open".to_owned(),
                declared_media_type: match declared_media_type {
                    Some(media_type) => Some(media_type.to_owned()),
                    None => None,
                },
                collaboration_checkpoint_id,
                import_intent_id,
            },
        )
    }

    /// `begin_upload` runs in one transaction: it is done once its commit is acknowledged, and when
    /// it fails, nothing was committed.
    #[verifier::spinoff_prover]
    #[verifier::rlimit(60)]
    pub proof fn begin_upload_is_atomic<'a>(
        tenant_id: Uuid, actor: Uuid, session_id: Uuid, drive_id: Uuid, parent_id: Uuid,
        node_id: Option<Uuid>, expected_parent_generation: Option<i64>,
        expected_head: Option<Uuid>, display_name: &'a str, name_key: &'a str,
        declared_size: i64, chunk_size: i32, part_count: i32, layout: &'a str,
        declared_media_type: Option<&'a str>, collaboration_checkpoint_id: Option<Uuid>,
        import_intent_id: Option<Uuid>, ttl_seconds: i64, membership_generation: i64,
        drive_acl_generation: i64, namespace_generation: i64, resource_acl_generation: i64,
        log: Seq<Reply>,
    )
        ensures
            crate::step::is_atomic(
                Self::begin_upload_script(
                    tenant_id, actor, session_id, drive_id, parent_id, node_id,
                    expected_parent_generation, expected_head, display_name, name_key,
                    declared_size, chunk_size, part_count, layout, declared_media_type,
                    collaboration_checkpoint_id, import_intent_id, ttl_seconds, log,
                ),
                0,
            ),
            crate::step::commit_acknowledged(
                Self::begin_upload_fault(
                    actor, session_id, parent_id, node_id, expected_parent_generation,
                    expected_head, display_name, name_key, part_count, layout,
                    declared_media_type, collaboration_checkpoint_id, import_intent_id,
                    membership_generation, drive_acl_generation, namespace_generation,
                    resource_acl_generation, log.drop_last(),
                ),
                Self::begin_upload_script(
                    tenant_id, actor, session_id, drive_id, parent_id, node_id,
                    expected_parent_generation, expected_head, display_name, name_key,
                    declared_size, chunk_size, part_count, layout, declared_media_type,
                    collaboration_checkpoint_id, import_intent_id, ttl_seconds, log.drop_last(),
                ),
                log,
            ) ==> {
                &&& Self::begin_upload_fault(
                    actor, session_id, parent_id, node_id, expected_parent_generation,
                    expected_head, display_name, name_key, part_count, layout,
                    declared_media_type, collaboration_checkpoint_id, import_intent_id,
                    membership_generation, drive_acl_generation, namespace_generation,
                    resource_acl_generation, log,
                ) is None
                &&& log.len() == Self::begin_upload_script(
                    tenant_id, actor, session_id, drive_id, parent_id, node_id,
                    expected_parent_generation, expected_head, display_name, name_key,
                    declared_size, chunk_size, part_count, layout, declared_media_type,
                    collaboration_checkpoint_id, import_intent_id, ttl_seconds, log,
                ).len()
            },
    {
    }

    /// `begin_upload` goes past its fence only where the generations that it has locked are those
    /// that the caller was authorized under.
    pub proof fn begin_upload_is_fenced<'a>(
        actor: Uuid, session_id: Uuid, parent_id: Uuid, node_id: Option<Uuid>,
        expected_parent_generation: Option<i64>, expected_head: Option<Uuid>,
        display_name: &'a str, name_key: &'a str, part_count: i32, layout: &'a str,
        declared_media_type: Option<&'a str>, collaboration_checkpoint_id: Option<Uuid>,
        import_intent_id: Option<Uuid>, membership_generation: i64, drive_acl_generation: i64,
        namespace_generation: i64, resource_acl_generation: i64, log: Seq<Reply>,
    )
        ensures
            ({
                let fence =
                    log[1].required_row::<FenceGenerations>(DatabaseError::StaleGeneration)->Ok_0;
                Self::begin_upload_fault(
                    actor, session_id, parent_id, node_id, expected_parent_generation,
                    expected_head, display_name, name_key, part_count, layout,
                    declared_media_type, collaboration_checkpoint_id, import_intent_id,
                    membership_generation, drive_acl_generation, namespace_generation,
                    resource_acl_generation, log,
                ) is None && log.len() > 1
                    ==> log[1].required_row::<FenceGenerations>(
                        DatabaseError::StaleGeneration,
                    ) is Ok
                    && fence.agrees_with(
                        seq![
                            membership_generation, drive_acl_generation, namespace_generation,
                            resource_acl_generation,
                        ],
                    )
            }),
    {
    }

    /// Every statement of `begin_upload` is about its tenant.
    #[verifier::spinoff_prover]
    #[verifier::rlimit(60)]
    pub proof fn begin_upload_is_scoped<'a>(
        tenant_id: Uuid, actor: Uuid, session_id: Uuid, drive_id: Uuid, parent_id: Uuid,
        node_id: Option<Uuid>, expected_parent_generation: Option<i64>, expected_head: Option<Uuid>,
        display_name: &'a str, name_key: &'a str, declared_size: i64, chunk_size: i32,
        part_count: i32, layout: &'a str, declared_media_type: Option<&'a str>,
        collaboration_checkpoint_id: Option<Uuid>, import_intent_id: Option<Uuid>, ttl_seconds: i64,
        log: Seq<Reply>,
    )
        ensures
            crate::step::is_scoped(
                Self::begin_upload_script(
                    tenant_id, actor, session_id, drive_id, parent_id, node_id,
                    expected_parent_generation, expected_head, display_name, name_key,
                    declared_size, chunk_size, part_count, layout, declared_media_type,
                    collaboration_checkpoint_id, import_intent_id, ttl_seconds, log,
                ),
                tenant_id,
            ),
    {
    }

    /// What stops `upload`, in order.
    pub open spec fn upload_fault(log: Seq<Reply>) -> Option<Fault> {
        if log.len() > 0 && log[0].required_row::<UploadRecord>(DatabaseError::NotFound) is Err {
            Fault::of(log[0].required_row::<UploadRecord>(DatabaseError::NotFound))
        } else {
            None
        }
    }

    /// The commands of `upload`, in order.
    pub open spec fn upload_script<'a>(
        tenant_id: Uuid, upload_id: Uuid, log: Seq<Reply>,
    ) -> Seq<CommandView<'a>> {
        seq![CommandView::optional(sql::UPLOAD, seq![Param::Id(tenant_id), Param::Id(upload_id)])]
    }

    /// What `upload` returns.
    pub open spec fn upload_output(log: Seq<Reply>) -> UploadRecord {
        let upload = log[0].required_row::<UploadRecord>(DatabaseError::NotFound)->Ok_0;
        upload
    }

    /// One upload.
    pub fn upload<'a>(
        tenant_id: Uuid, upload_id: Uuid, log: &'a [Reply],
    ) -> (step: Step<'a, UploadRecord>)
        ensures
            step@ == StepView::proceed(
                Self::upload_fault(log@),
                Self::upload_script(tenant_id, upload_id, log@),
                Self::upload_output(log@),
                log@,
            ),
    {
        if log.len() == 0 {
            return ask_optional(sql::UPLOAD, vec![Param::Id(tenant_id), Param::Id(upload_id)]);
        }
        let upload: UploadRecord = match required(&log[0], DatabaseError::NotFound) {
            Ok(value) => value,
            Err(fault) => return stop(fault),
        };
        Step::Done(upload)
    }

    /// Every statement of `upload` is about its tenant.
    pub proof fn upload_is_scoped(tenant_id: Uuid, upload_id: Uuid, log: Seq<Reply>)
        ensures
            crate::step::is_scoped(Self::upload_script(tenant_id, upload_id, log), tenant_id),
    {
    }

    /// What stops `upload_owned_by`, in order.
    pub open spec fn upload_owned_by_fault(log: Seq<Reply>) -> Option<Fault> {
        if log.len() > 0 && log[0].required_row::<UploadRecord>(DatabaseError::NotFound) is Err {
            Fault::of(log[0].required_row::<UploadRecord>(DatabaseError::NotFound))
        } else {
            None
        }
    }

    /// The commands of `upload_owned_by`, in order.
    pub open spec fn upload_owned_by_script<'a>(
        tenant_id: Uuid, upload_id: Uuid, owner_principal_id: Uuid, log: Seq<Reply>,
    ) -> Seq<CommandView<'a>> {
        seq![
            CommandView::optional(
                sql::UPLOAD_OWNED_BY,
                seq![Param::Id(tenant_id), Param::Id(upload_id), Param::Id(owner_principal_id)],
            ),
        ]
    }

    /// What `upload_owned_by` returns.
    pub open spec fn upload_owned_by_output(log: Seq<Reply>) -> UploadRecord {
        let upload = log[0].required_row::<UploadRecord>(DatabaseError::NotFound)->Ok_0;
        upload
    }

    /// One upload of a principal's own.
    pub fn upload_owned_by<'a>(
        tenant_id: Uuid, upload_id: Uuid, owner_principal_id: Uuid, log: &'a [Reply],
    ) -> (step: Step<'a, UploadRecord>)
        ensures
            step@ == StepView::proceed(
                Self::upload_owned_by_fault(log@),
                Self::upload_owned_by_script(tenant_id, upload_id, owner_principal_id, log@),
                Self::upload_owned_by_output(log@),
                log@,
            ),
    {
        if log.len() == 0 {
            return ask_optional(
                sql::UPLOAD_OWNED_BY,
                vec![Param::Id(tenant_id), Param::Id(upload_id), Param::Id(owner_principal_id)],
            );
        }
        let upload: UploadRecord = match required(&log[0], DatabaseError::NotFound) {
            Ok(value) => value,
            Err(fault) => return stop(fault),
        };
        Step::Done(upload)
    }

    /// Every statement of `upload_owned_by` is about its tenant.
    pub proof fn upload_owned_by_is_scoped(
        tenant_id: Uuid, upload_id: Uuid, owner_principal_id: Uuid, log: Seq<Reply>,
    )
        ensures
            crate::step::is_scoped(
                Self::upload_owned_by_script(tenant_id, upload_id, owner_principal_id, log),
                tenant_id,
            ),
    {
    }

    /// What stops `upload_for_payload`, in order.
    pub open spec fn upload_for_payload_fault(log: Seq<Reply>) -> Option<Fault> {
        if log.len() > 0 && log[0].required_row::<UploadRecord>(DatabaseError::NotFound) is Err {
            Fault::of(log[0].required_row::<UploadRecord>(DatabaseError::NotFound))
        } else {
            None
        }
    }

    /// The commands of `upload_for_payload`, in order.
    pub open spec fn upload_for_payload_script<'a>(
        tenant_id: Uuid, payload_id: Uuid, log: Seq<Reply>,
    ) -> Seq<CommandView<'a>> {
        seq![
            CommandView::optional(
                sql::UPLOAD_FOR_PAYLOAD,
                seq![Param::Id(tenant_id), Param::Id(payload_id)],
            ),
        ]
    }

    /// What `upload_for_payload` returns.
    pub open spec fn upload_for_payload_output(log: Seq<Reply>) -> UploadRecord {
        let upload = log[0].required_row::<UploadRecord>(DatabaseError::NotFound)->Ok_0;
        upload
    }

    /// The upload that a payload belongs to.
    pub fn upload_for_payload<'a>(
        tenant_id: Uuid, payload_id: Uuid, log: &'a [Reply],
    ) -> (step: Step<'a, UploadRecord>)
        ensures
            step@ == StepView::proceed(
                Self::upload_for_payload_fault(log@),
                Self::upload_for_payload_script(tenant_id, payload_id, log@),
                Self::upload_for_payload_output(log@),
                log@,
            ),
    {
        if log.len() == 0 {
            return ask_optional(
                sql::UPLOAD_FOR_PAYLOAD,
                vec![Param::Id(tenant_id), Param::Id(payload_id)],
            );
        }
        let upload: UploadRecord = match required(&log[0], DatabaseError::NotFound) {
            Ok(value) => value,
            Err(fault) => return stop(fault),
        };
        Step::Done(upload)
    }

    /// Every statement of `upload_for_payload` is about its tenant.
    pub proof fn upload_for_payload_is_scoped(tenant_id: Uuid, payload_id: Uuid, log: Seq<Reply>)
        ensures
            crate::step::is_scoped(
                Self::upload_for_payload_script(tenant_id, payload_id, log),
                tenant_id,
            ),
    {
    }

    /// What stops `upload_part`, in order.
    pub open spec fn upload_part_fault(log: Seq<Reply>) -> Option<Fault> {
        if log.len() > 0
            && log[0].required_row::<UploadPartRecord>(DatabaseError::NotFound) is Err {
            Fault::of(log[0].required_row::<UploadPartRecord>(DatabaseError::NotFound))
        } else {
            None
        }
    }

    /// The commands of `upload_part`, in order.
    pub open spec fn upload_part_script<'a>(
        tenant_id: Uuid, upload_id: Uuid, part: i32, log: Seq<Reply>,
    ) -> Seq<CommandView<'a>> {
        seq![
            CommandView::optional(
                sql::UPLOAD_PART,
                seq![Param::Id(tenant_id), Param::Id(upload_id), Param::I32(part)],
            ),
        ]
    }

    /// What `upload_part` returns.
    pub open spec fn upload_part_output(log: Seq<Reply>) -> UploadPartRecord {
        let found = log[0].required_row::<UploadPartRecord>(DatabaseError::NotFound)->Ok_0;
        found
    }

    /// One part of an upload.
    pub fn upload_part<'a>(
        tenant_id: Uuid, upload_id: Uuid, part: i32, log: &'a [Reply],
    ) -> (step: Step<'a, UploadPartRecord>)
        ensures
            step@ == StepView::proceed(
                Self::upload_part_fault(log@),
                Self::upload_part_script(tenant_id, upload_id, part, log@),
                Self::upload_part_output(log@),
                log@,
            ),
    {
        if log.len() == 0 {
            return ask_optional(
                sql::UPLOAD_PART,
                vec![Param::Id(tenant_id), Param::Id(upload_id), Param::I32(part)],
            );
        }
        let found: UploadPartRecord = match required(&log[0], DatabaseError::NotFound) {
            Ok(value) => value,
            Err(fault) => return stop(fault),
        };
        Step::Done(found)
    }

    /// Every statement of `upload_part` is about its tenant.
    pub proof fn upload_part_is_scoped(tenant_id: Uuid, upload_id: Uuid, part: i32, log: Seq<Reply>)
        ensures
            crate::step::is_scoped(
                Self::upload_part_script(tenant_id, upload_id, part, log),
                tenant_id,
            ),
    {
    }

    /// What stops `upload_parts`, in order.
    pub open spec fn upload_parts_fault(log: Seq<Reply>) -> Option<Fault> {
        if log.len() > 0 && log[0].all_rows::<UploadPartRecord>() is Err {
            Fault::of(log[0].all_rows::<UploadPartRecord>())
        } else {
            None
        }
    }

    /// The commands of `upload_parts`, in order.
    pub open spec fn upload_parts_script<'a>(
        tenant_id: Uuid, upload_id: Uuid, log: Seq<Reply>,
    ) -> Seq<CommandView<'a>> {
        seq![
            CommandView::all(sql::UPLOAD_PARTS, seq![Param::Id(tenant_id), Param::Id(upload_id)]),
        ]
    }

    /// What `upload_parts` returns.
    pub open spec fn upload_parts_output(log: Seq<Reply>) -> Seq<UploadPartRecord> {
        let parts = log[0].all_rows::<UploadPartRecord>()->Ok_0;
        parts
    }

    /// The parts of an upload.
    pub fn upload_parts<'a>(
        tenant_id: Uuid, upload_id: Uuid, log: &'a [Reply],
    ) -> (step: Step<'a, Vec<UploadPartRecord>>)
        ensures
            step.list() == StepView::proceed(
                Self::upload_parts_fault(log@),
                Self::upload_parts_script(tenant_id, upload_id, log@),
                Self::upload_parts_output(log@),
                log@,
            ),
    {
        if log.len() == 0 {
            return ask_all(sql::UPLOAD_PARTS, vec![Param::Id(tenant_id), Param::Id(upload_id)]);
        }
        let parts: Vec<UploadPartRecord> = match many::<UploadPartRecord>(&log[0]) {
            Ok(value) => value,
            Err(fault) => return stop_list(fault),
        };
        Step::Done(parts)
    }

    /// Every statement of `upload_parts` is about its tenant.
    pub proof fn upload_parts_is_scoped(tenant_id: Uuid, upload_id: Uuid, log: Seq<Reply>)
        ensures
            crate::step::is_scoped(Self::upload_parts_script(tenant_id, upload_id, log), tenant_id),
    {
    }

    /// What stops `uploads_needing_staging_cleanup`, in order.
    pub open spec fn uploads_needing_staging_cleanup_fault(log: Seq<Reply>) -> Option<Fault> {
        if log.len() > 0 && log[0].all_rows::<Uuid>() is Err {
            Fault::of(log[0].all_rows::<Uuid>())
        } else {
            None
        }
    }

    /// The commands of `uploads_needing_staging_cleanup`, in order.
    pub open spec fn uploads_needing_staging_cleanup_script<'a>(
        tenant_id: Uuid, backend_id: Uuid, limit: i64, log: Seq<Reply>,
    ) -> Seq<CommandView<'a>> {
        seq![
            CommandView::all(
                sql::UPLOADS_NEEDING_STAGING_CLEANUP,
                seq![Param::Id(tenant_id), Param::Id(backend_id), Param::I64(limit)],
            ),
        ]
    }

    /// What `uploads_needing_staging_cleanup` returns.
    pub open spec fn uploads_needing_staging_cleanup_output(log: Seq<Reply>) -> Seq<Uuid> {
        let uploads = log[0].all_rows::<Uuid>()->Ok_0;
        uploads
    }

    /// Uploads whose staged parts can go.
    pub fn uploads_needing_staging_cleanup<'a>(
        tenant_id: Uuid, backend_id: Uuid, limit: i64, log: &'a [Reply],
    ) -> (step: Step<'a, Vec<Uuid>>)
        ensures
            step.list() == StepView::proceed(
                Self::uploads_needing_staging_cleanup_fault(log@),
                Self::uploads_needing_staging_cleanup_script(tenant_id, backend_id, limit, log@),
                Self::uploads_needing_staging_cleanup_output(log@),
                log@,
            ),
    {
        if log.len() == 0 {
            return ask_all(
                sql::UPLOADS_NEEDING_STAGING_CLEANUP,
                vec![Param::Id(tenant_id), Param::Id(backend_id), Param::I64(limit)],
            );
        }
        let uploads: Vec<Uuid> = match many::<Uuid>(&log[0]) {
            Ok(value) => value,
            Err(fault) => return stop_list(fault),
        };
        Step::Done(uploads)
    }

    /// Every statement of `uploads_needing_staging_cleanup` is about its tenant.
    pub proof fn uploads_needing_staging_cleanup_is_scoped(
        tenant_id: Uuid, backend_id: Uuid, limit: i64, log: Seq<Reply>,
    )
        ensures
            crate::step::is_scoped(
                Self::uploads_needing_staging_cleanup_script(tenant_id, backend_id, limit, log),
                tenant_id,
            ),
    {
    }

    /// What stops `mark_upload_staging_cleaned`, in order.
    pub open spec fn mark_upload_staging_cleaned_fault(log: Seq<Reply>) -> Option<Fault> {
        if log.len() > 0 && log[0].one_affected(DatabaseError::Conflict) is Err {
            Fault::of(log[0].one_affected(DatabaseError::Conflict))
        } else {
            None
        }
    }

    /// The commands of `mark_upload_staging_cleaned`, in order.
    pub open spec fn mark_upload_staging_cleaned_script<'a>(
        tenant_id: Uuid, upload_id: Uuid, log: Seq<Reply>,
    ) -> Seq<CommandView<'a>> {
        seq![
            CommandView::execute(
                sql::MARK_UPLOAD_STAGING_CLEANED,
                seq![Param::Id(tenant_id), Param::Id(upload_id)],
            ),
        ]
    }

    /// Records that an upload's staged parts are gone.
    pub fn mark_upload_staging_cleaned<'a>(
        tenant_id: Uuid, upload_id: Uuid, log: &'a [Reply],
    ) -> (step: Step<'a, ()>)
        ensures
            step@ == StepView::proceed(
                Self::mark_upload_staging_cleaned_fault(log@),
                Self::mark_upload_staging_cleaned_script(tenant_id, upload_id, log@),
                (),
                log@,
            ),
    {
        if log.len() == 0 {
            return ask_execute(
                sql::MARK_UPLOAD_STAGING_CLEANED,
                vec![Param::Id(tenant_id), Param::Id(upload_id)],
            );
        }
        if let Err(fault) = exactly_one(&log[0], DatabaseError::Conflict) {
            return stop(fault);
        }
        Step::Done(())
    }

    /// Every statement of `mark_upload_staging_cleaned` is about its tenant.
    pub proof fn mark_upload_staging_cleaned_is_scoped(
        tenant_id: Uuid, upload_id: Uuid, log: Seq<Reply>,
    )
        ensures
            crate::step::is_scoped(
                Self::mark_upload_staging_cleaned_script(tenant_id, upload_id, log),
                tenant_id,
            ),
    {
    }

    /// What stops `consume_capability_nonce`, in order.
    pub open spec fn consume_capability_nonce_fault(log: Seq<Reply>) -> Option<Fault> {
        if log.len() > 0 && log[0].one_affected(DatabaseError::Conflict) is Err {
            Fault::of(log[0].one_affected(DatabaseError::Conflict))
        } else {
            None
        }
    }

    /// The commands of `consume_capability_nonce`, in order.
    pub open spec fn consume_capability_nonce_script<'a>(
        tenant_id: Uuid, nonce_digest: &'a [u8], operation: &'a str, expires_at_unix: i64,
        log: Seq<Reply>,
    ) -> Seq<CommandView<'a>> {
        seq![
            CommandView::execute(
                sql::CONSUME_CAPABILITY_NONCE,
                seq![
                    Param::Id(tenant_id), Param::Bytes(nonce_digest), Param::Text(operation),
                    Param::Seconds(expires_at_unix),
                ],
            ),
        ]
    }

    /// Uses up a capability's nonce; a second use is a conflict.
    pub fn consume_capability_nonce<'a>(
        tenant_id: Uuid, nonce_digest: &'a [u8], operation: &'a str, expires_at_unix: i64,
        log: &'a [Reply],
    ) -> (step: Step<'a, ()>)
        ensures
            step@ == StepView::proceed(
                Self::consume_capability_nonce_fault(log@),
                Self::consume_capability_nonce_script(
                    tenant_id, nonce_digest, operation, expires_at_unix, log@,
                ),
                (),
                log@,
            ),
    {
        if log.len() == 0 {
            return ask_execute(
                sql::CONSUME_CAPABILITY_NONCE,
                vec![
                    Param::Id(tenant_id), Param::Bytes(nonce_digest), Param::Text(operation),
                    Param::Seconds(expires_at_unix),
                ],
            );
        }
        if let Err(fault) = exactly_one(&log[0], DatabaseError::Conflict) {
            return stop(fault);
        }
        Step::Done(())
    }

    /// Every statement of `consume_capability_nonce` is about its tenant.
    pub proof fn consume_capability_nonce_is_scoped<'a>(
        tenant_id: Uuid, nonce_digest: &'a [u8], operation: &'a str, expires_at_unix: i64,
        log: Seq<Reply>,
    )
        ensures
            crate::step::is_scoped(
                Self::consume_capability_nonce_script(
                    tenant_id, nonce_digest, operation, expires_at_unix, log,
                ),
                tenant_id,
            ),
    {
    }

    /// What stops `mark_part_durable`, in order.
    pub open spec fn mark_part_durable_fault(log: Seq<Reply>) -> Option<Fault> {
        if log.len() > 0 && log[0].one_affected(DatabaseError::StaleGeneration) is Err {
            Fault::of(log[0].one_affected(DatabaseError::StaleGeneration))
        } else {
            None
        }
    }

    /// The commands of `mark_part_durable`, in order.
    pub open spec fn mark_part_durable_script<'a>(
        tenant_id: Uuid, upload_id: Uuid, part: i32, fencing_token: i64, size: i32,
        digest: &'a [u8], log: Seq<Reply>,
    ) -> Seq<CommandView<'a>> {
        seq![
            CommandView::execute(
                sql::MARK_PART_DURABLE,
                seq![
                    Param::Id(tenant_id), Param::Id(upload_id), Param::I32(part),
                    Param::I64(fencing_token), Param::I32(size), Param::Bytes(digest),
                ],
            ),
        ]
    }

    /// Records that a part's bytes are on disk.
    pub fn mark_part_durable<'a>(
        tenant_id: Uuid, upload_id: Uuid, part: i32, fencing_token: i64, size: i32,
        digest: &'a [u8], log: &'a [Reply],
    ) -> (step: Step<'a, ()>)
        ensures
            step@ == StepView::proceed(
                Self::mark_part_durable_fault(log@),
                Self::mark_part_durable_script(
                    tenant_id, upload_id, part, fencing_token, size, digest, log@,
                ),
                (),
                log@,
            ),
    {
        if log.len() == 0 {
            return ask_execute(
                sql::MARK_PART_DURABLE,
                vec![
                    Param::Id(tenant_id), Param::Id(upload_id), Param::I32(part),
                    Param::I64(fencing_token), Param::I32(size), Param::Bytes(digest),
                ],
            );
        }
        if let Err(fault) = exactly_one(&log[0], DatabaseError::StaleGeneration) {
            return stop(fault);
        }
        Step::Done(())
    }

    /// Every statement of `mark_part_durable` is about its tenant.
    pub proof fn mark_part_durable_is_scoped<'a>(
        tenant_id: Uuid, upload_id: Uuid, part: i32, fencing_token: i64, size: i32,
        digest: &'a [u8], log: Seq<Reply>,
    )
        ensures
            crate::step::is_scoped(
                Self::mark_part_durable_script(
                    tenant_id, upload_id, part, fencing_token, size, digest, log,
                ),
                tenant_id,
            ),
    {
    }

    /// What stops `mark_upload_finalized`, in order.
    pub open spec fn mark_upload_finalized_fault(log: Seq<Reply>) -> Option<Fault> {
        if log.len() > 1
            && log[1].required_row::<FinalizedPayload>(DatabaseError::StaleGeneration) is Err {
            Fault::of(log[1].required_row::<FinalizedPayload>(DatabaseError::StaleGeneration))
        } else if log.len() > 2 && log[2].one_affected(DatabaseError::StaleGeneration) is Err {
            Fault::of(log[2].one_affected(DatabaseError::StaleGeneration))
        } else {
            None
        }
    }

    /// The commands of `mark_upload_finalized`, in order.
    pub open spec fn mark_upload_finalized_script<'a>(
        tenant_id: Uuid, upload_id: Uuid, fencing_token: i64, finalization_owner: Uuid,
        digest: &'a [u8], log: Seq<Reply>,
    ) -> Seq<CommandView<'a>> {
        let done = log[1].required_row::<FinalizedPayload>(DatabaseError::StaleGeneration)->Ok_0;
        seq![
            CommandView::Begin,
            CommandView::optional(
                sql::MARK_UPLOAD_FINALIZED_UPDATE_UPLOAD_SESSIONS,
                seq![
                    Param::Id(tenant_id), Param::Id(upload_id), Param::I64(fencing_token),
                    Param::Id(finalization_owner),
                ],
            ),
            CommandView::execute(
                sql::MARK_UPLOAD_FINALIZED_UPDATE_PAYLOAD_OBJECTS,
                seq![
                    Param::Id(tenant_id), Param::Id(done.payload_id), Param::Bytes(digest),
                    Param::I64(done.declared_size_bytes),
                ],
            ),
            CommandView::Commit,
        ]
    }

    /// Records that the owner of the finalization has assembled the upload.
    pub fn mark_upload_finalized<'a>(
        tenant_id: Uuid, upload_id: Uuid, fencing_token: i64, finalization_owner: Uuid,
        digest: &'a [u8], log: &'a [Reply],
    ) -> (step: Step<'a, ()>)
        ensures
            step@ == StepView::proceed(
                Self::mark_upload_finalized_fault(log@),
                Self::mark_upload_finalized_script(
                    tenant_id, upload_id, fencing_token, finalization_owner, digest, log@,
                ),
                (),
                log@,
            ),
    {
        if log.len() == 0 {
            return Step::Ask(Command::Begin);
        }
        if log.len() <= 1 {
            return ask_optional(
                sql::MARK_UPLOAD_FINALIZED_UPDATE_UPLOAD_SESSIONS,
                vec![
                    Param::Id(tenant_id), Param::Id(upload_id), Param::I64(fencing_token),
                    Param::Id(finalization_owner),
                ],
            );
        }
        let done: FinalizedPayload = match required(&log[1], DatabaseError::StaleGeneration) {
            Ok(value) => value,
            Err(fault) => return stop(fault),
        };
        if log.len() <= 2 {
            return ask_execute(
                sql::MARK_UPLOAD_FINALIZED_UPDATE_PAYLOAD_OBJECTS,
                vec![
                    Param::Id(tenant_id), Param::Id(done.payload_id), Param::Bytes(digest),
                    Param::I64(done.declared_size_bytes),
                ],
            );
        }
        if let Err(fault) = exactly_one(&log[2], DatabaseError::StaleGeneration) {
            return stop(fault);
        }
        if log.len() <= 3 {
            return Step::Ask(Command::Commit);
        }
        Step::Done(())
    }

    /// `mark_upload_finalized` runs in one transaction: it is done once its commit is acknowledged,
    /// and when it fails, nothing was committed.
    pub proof fn mark_upload_finalized_is_atomic<'a>(
        tenant_id: Uuid, upload_id: Uuid, fencing_token: i64, finalization_owner: Uuid,
        digest: &'a [u8], log: Seq<Reply>,
    )
        ensures
            crate::step::is_atomic(
                Self::mark_upload_finalized_script(
                    tenant_id, upload_id, fencing_token, finalization_owner, digest, log,
                ),
                0,
            ),
            crate::step::commit_acknowledged(
                Self::mark_upload_finalized_fault(log.drop_last()),
                Self::mark_upload_finalized_script(
                    tenant_id, upload_id, fencing_token, finalization_owner, digest,
                    log.drop_last(),
                ),
                log,
            ) ==> {
                &&& Self::mark_upload_finalized_fault(log) is None
                &&& log.len() == Self::mark_upload_finalized_script(
                    tenant_id, upload_id, fencing_token, finalization_owner, digest, log,
                ).len()
            },
    {
    }

    /// Every statement of `mark_upload_finalized` is about its tenant.
    pub proof fn mark_upload_finalized_is_scoped<'a>(
        tenant_id: Uuid, upload_id: Uuid, fencing_token: i64, finalization_owner: Uuid,
        digest: &'a [u8], log: Seq<Reply>,
    )
        ensures
            crate::step::is_scoped(
                Self::mark_upload_finalized_script(
                    tenant_id, upload_id, fencing_token, finalization_owner, digest, log,
                ),
                tenant_id,
            ),
    {
    }

    /// What stops `claim_upload_finalization`, in order.
    pub open spec fn claim_upload_finalization_fault(log: Seq<Reply>) -> Option<Fault> {
        if log.len() > 1 && log[1].required_row::<Uuid>(DatabaseError::Conflict) is Err {
            Fault::of(log[1].required_row::<Uuid>(DatabaseError::Conflict))
        } else if log.len() > 2 && log[2].one_affected(DatabaseError::Conflict) is Err {
            Fault::of(log[2].one_affected(DatabaseError::Conflict))
        } else {
            None
        }
    }

    /// The commands of `claim_upload_finalization`, in order.
    pub open spec fn claim_upload_finalization_script<'a>(
        tenant_id: Uuid, upload_id: Uuid, fencing_token: i64, finalization_owner: Uuid,
        lease_seconds: i64, log: Seq<Reply>,
    ) -> Seq<CommandView<'a>> {
        let payload_id = log[1].required_row::<Uuid>(DatabaseError::Conflict)->Ok_0;
        seq![
            CommandView::Begin,
            CommandView::optional(
                sql::CLAIM_UPLOAD_FINALIZATION_UPDATE_UPLOAD_SESSIONS,
                seq![
                    Param::Id(tenant_id), Param::Id(upload_id), Param::I64(fencing_token),
                    Param::Id(finalization_owner), Param::I64(lease_seconds),
                ],
            ),
            CommandView::execute(
                sql::CLAIM_UPLOAD_FINALIZATION_UPDATE_PAYLOAD_OBJECTS,
                seq![Param::Id(tenant_id), Param::Id(payload_id)],
            ),
            CommandView::Commit,
        ]
    }

    /// Takes the finalization of an upload on lease.
    pub fn claim_upload_finalization<'a>(
        tenant_id: Uuid, upload_id: Uuid, fencing_token: i64, finalization_owner: Uuid,
        lease_seconds: i64, log: &'a [Reply],
    ) -> (step: Step<'a, ()>)
        ensures
            step@ == StepView::proceed(
                Self::claim_upload_finalization_fault(log@),
                Self::claim_upload_finalization_script(
                    tenant_id, upload_id, fencing_token, finalization_owner, lease_seconds,
                    log@,
                ),
                (),
                log@,
            ),
    {
        if log.len() == 0 {
            return Step::Ask(Command::Begin);
        }
        if log.len() <= 1 {
            return ask_optional(
                sql::CLAIM_UPLOAD_FINALIZATION_UPDATE_UPLOAD_SESSIONS,
                vec![
                    Param::Id(tenant_id), Param::Id(upload_id), Param::I64(fencing_token),
                    Param::Id(finalization_owner), Param::I64(lease_seconds),
                ],
            );
        }
        let payload_id: Uuid = match required::<Uuid>(&log[1], DatabaseError::Conflict) {
            Ok(value) => value,
            Err(fault) => return stop(fault),
        };
        if log.len() <= 2 {
            return ask_execute(
                sql::CLAIM_UPLOAD_FINALIZATION_UPDATE_PAYLOAD_OBJECTS,
                vec![Param::Id(tenant_id), Param::Id(payload_id)],
            );
        }
        if let Err(fault) = exactly_one(&log[2], DatabaseError::Conflict) {
            return stop(fault);
        }
        if log.len() <= 3 {
            return Step::Ask(Command::Commit);
        }
        Step::Done(())
    }

    /// `claim_upload_finalization` runs in one transaction: it is done once its commit is
    /// acknowledged, and when it fails, nothing was committed.
    pub proof fn claim_upload_finalization_is_atomic(
        tenant_id: Uuid, upload_id: Uuid, fencing_token: i64, finalization_owner: Uuid,
        lease_seconds: i64, log: Seq<Reply>,
    )
        ensures
            crate::step::is_atomic(
                Self::claim_upload_finalization_script(
                    tenant_id, upload_id, fencing_token, finalization_owner, lease_seconds,
                    log,
                ),
                0,
            ),
            crate::step::commit_acknowledged(
                Self::claim_upload_finalization_fault(log.drop_last()),
                Self::claim_upload_finalization_script(
                    tenant_id, upload_id, fencing_token, finalization_owner, lease_seconds,
                    log.drop_last(),
                ),
                log,
            ) ==> {
                &&& Self::claim_upload_finalization_fault(log) is None
                &&& log.len() == Self::claim_upload_finalization_script(
                    tenant_id, upload_id, fencing_token, finalization_owner, lease_seconds,
                    log,
                ).len()
            },
    {
    }

    /// Every statement of `claim_upload_finalization` is about its tenant.
    pub proof fn claim_upload_finalization_is_scoped(
        tenant_id: Uuid, upload_id: Uuid, fencing_token: i64, finalization_owner: Uuid,
        lease_seconds: i64, log: Seq<Reply>,
    )
        ensures
            crate::step::is_scoped(
                Self::claim_upload_finalization_script(
                    tenant_id, upload_id, fencing_token, finalization_owner, lease_seconds, log,
                ),
                tenant_id,
            ),
    {
    }

    /// What stops `heartbeat_upload_finalization`, in order.
    pub open spec fn heartbeat_upload_finalization_fault(log: Seq<Reply>) -> Option<Fault> {
        if log.len() > 0 && log[0].one_affected(DatabaseError::StaleGeneration) is Err {
            Fault::of(log[0].one_affected(DatabaseError::StaleGeneration))
        } else {
            None
        }
    }

    /// The commands of `heartbeat_upload_finalization`, in order.
    pub open spec fn heartbeat_upload_finalization_script<'a>(
        tenant_id: Uuid, upload_id: Uuid, fencing_token: i64, finalization_owner: Uuid,
        lease_seconds: i64, log: Seq<Reply>,
    ) -> Seq<CommandView<'a>> {
        seq![
            CommandView::execute(
                sql::HEARTBEAT_UPLOAD_FINALIZATION,
                seq![
                    Param::Id(tenant_id), Param::Id(upload_id), Param::I64(fencing_token),
                    Param::Id(finalization_owner), Param::I64(lease_seconds),
                ],
            ),
        ]
    }

    /// Extends the lease of a finalization.
    pub fn heartbeat_upload_finalization<'a>(
        tenant_id: Uuid, upload_id: Uuid, fencing_token: i64, finalization_owner: Uuid,
        lease_seconds: i64, log: &'a [Reply],
    ) -> (step: Step<'a, ()>)
        ensures
            step@ == StepView::proceed(
                Self::heartbeat_upload_finalization_fault(log@),
                Self::heartbeat_upload_finalization_script(
                    tenant_id, upload_id, fencing_token, finalization_owner, lease_seconds,
                    log@,
                ),
                (),
                log@,
            ),
    {
        if log.len() == 0 {
            return ask_execute(
                sql::HEARTBEAT_UPLOAD_FINALIZATION,
                vec![
                    Param::Id(tenant_id), Param::Id(upload_id), Param::I64(fencing_token),
                    Param::Id(finalization_owner), Param::I64(lease_seconds),
                ],
            );
        }
        if let Err(fault) = exactly_one(&log[0], DatabaseError::StaleGeneration) {
            return stop(fault);
        }
        Step::Done(())
    }

    /// Every statement of `heartbeat_upload_finalization` is about its tenant.
    pub proof fn heartbeat_upload_finalization_is_scoped(
        tenant_id: Uuid, upload_id: Uuid, fencing_token: i64, finalization_owner: Uuid,
        lease_seconds: i64, log: Seq<Reply>,
    )
        ensures
            crate::step::is_scoped(
                Self::heartbeat_upload_finalization_script(
                    tenant_id, upload_id, fencing_token, finalization_owner, lease_seconds, log,
                ),
                tenant_id,
            ),
    {
    }

    /// What stops `abort_upload_finalization`, in order.
    pub open spec fn abort_upload_finalization_fault(log: Seq<Reply>) -> Option<Fault> {
        if log.len() > 1 && log[1].required_row::<Uuid>(DatabaseError::StaleGeneration) is Err {
            Fault::of(log[1].required_row::<Uuid>(DatabaseError::StaleGeneration))
        } else if log.len() > 2 && log[2].one_affected(DatabaseError::StaleGeneration) is Err {
            Fault::of(log[2].one_affected(DatabaseError::StaleGeneration))
        } else {
            None
        }
    }

    /// The commands of `abort_upload_finalization`, in order.
    pub open spec fn abort_upload_finalization_script<'a>(
        tenant_id: Uuid, upload_id: Uuid, fencing_token: i64, finalization_owner: Uuid,
        log: Seq<Reply>,
    ) -> Seq<CommandView<'a>> {
        let payload_id = log[1].required_row::<Uuid>(DatabaseError::StaleGeneration)->Ok_0;
        seq![
            CommandView::Begin,
            CommandView::optional(
                sql::ABORT_UPLOAD_FINALIZATION_UPDATE_UPLOAD_SESSIONS,
                seq![
                    Param::Id(tenant_id), Param::Id(upload_id), Param::I64(fencing_token),
                    Param::Id(finalization_owner),
                ],
            ),
            CommandView::execute(
                sql::ABORT_UPLOAD_FINALIZATION_UPDATE_PAYLOAD_OBJECTS,
                seq![Param::Id(tenant_id), Param::Id(payload_id)],
            ),
            CommandView::Commit,
        ]
    }

    /// Gives up a finalization; the upload is open again.
    pub fn abort_upload_finalization<'a>(
        tenant_id: Uuid, upload_id: Uuid, fencing_token: i64, finalization_owner: Uuid,
        log: &'a [Reply],
    ) -> (step: Step<'a, ()>)
        ensures
            step@ == StepView::proceed(
                Self::abort_upload_finalization_fault(log@),
                Self::abort_upload_finalization_script(
                    tenant_id, upload_id, fencing_token, finalization_owner, log@,
                ),
                (),
                log@,
            ),
    {
        if log.len() == 0 {
            return Step::Ask(Command::Begin);
        }
        if log.len() <= 1 {
            return ask_optional(
                sql::ABORT_UPLOAD_FINALIZATION_UPDATE_UPLOAD_SESSIONS,
                vec![
                    Param::Id(tenant_id), Param::Id(upload_id), Param::I64(fencing_token),
                    Param::Id(finalization_owner),
                ],
            );
        }
        let payload_id: Uuid = match required::<Uuid>(&log[1], DatabaseError::StaleGeneration) {
            Ok(value) => value,
            Err(fault) => return stop(fault),
        };
        if log.len() <= 2 {
            return ask_execute(
                sql::ABORT_UPLOAD_FINALIZATION_UPDATE_PAYLOAD_OBJECTS,
                vec![Param::Id(tenant_id), Param::Id(payload_id)],
            );
        }
        if let Err(fault) = exactly_one(&log[2], DatabaseError::StaleGeneration) {
            return stop(fault);
        }
        if log.len() <= 3 {
            return Step::Ask(Command::Commit);
        }
        Step::Done(())
    }

    /// `abort_upload_finalization` runs in one transaction: it is done once its commit is
    /// acknowledged, and when it fails, nothing was committed.
    pub proof fn abort_upload_finalization_is_atomic(
        tenant_id: Uuid, upload_id: Uuid, fencing_token: i64, finalization_owner: Uuid,
        log: Seq<Reply>,
    )
        ensures
            crate::step::is_atomic(
                Self::abort_upload_finalization_script(
                    tenant_id, upload_id, fencing_token, finalization_owner, log,
                ),
                0,
            ),
            crate::step::commit_acknowledged(
                Self::abort_upload_finalization_fault(log.drop_last()),
                Self::abort_upload_finalization_script(
                    tenant_id, upload_id, fencing_token, finalization_owner, log.drop_last(),
                ),
                log,
            ) ==> {
                &&& Self::abort_upload_finalization_fault(log) is None
                &&& log.len() == Self::abort_upload_finalization_script(
                    tenant_id, upload_id, fencing_token, finalization_owner, log,
                ).len()
            },
    {
    }

    /// Every statement of `abort_upload_finalization` is about its tenant.
    pub proof fn abort_upload_finalization_is_scoped(
        tenant_id: Uuid, upload_id: Uuid, fencing_token: i64, finalization_owner: Uuid,
        log: Seq<Reply>,
    )
        ensures
            crate::step::is_scoped(
                Self::abort_upload_finalization_script(
                    tenant_id, upload_id, fencing_token, finalization_owner, log,
                ),
                tenant_id,
            ),
    {
    }

    /// What stops `reopen_expired_upload_finalizations`, in order.
    pub open spec fn reopen_expired_upload_finalizations_fault(log: Seq<Reply>) -> Option<Fault> {
        let payloads = log[1].all_rows::<Uuid>()->Ok_0;
        if log.len() > 1 && log[1].all_rows::<Uuid>() is Err {
            Fault::of(log[1].all_rows::<Uuid>())
        } else if log.len() > 2
            && Reply::each_affected_one(
                log, 2, (payloads.len()) as int, DatabaseError::StaleGeneration,
            ) is Err {
                Fault::of(
                    Reply::each_affected_one(
                        log, 2, (payloads.len()) as int, DatabaseError::StaleGeneration,
                    ),
                )
            } else {
                None
            }
    }

    /// The commands of `reopen_expired_upload_finalizations`, in order.
    pub open spec fn reopen_expired_upload_finalizations_script<'a>(
        tenant_id: Uuid,
        log: Seq<Reply>,
    ) -> Seq<CommandView<'a>> {
        let payloads = log[1].all_rows::<Uuid>()->Ok_0;
        seq![
            CommandView::Begin,
            CommandView::all(
                sql::REOPEN_EXPIRED_UPLOAD_FINALIZATIONS_UPDATE_UPLOAD_SESSIONS,
                seq![Param::Id(tenant_id)],
            ),
        ].add(
            Seq::new(
                payloads.len(),
                |j: int| CommandView::execute(
                    sql::ABORT_UPLOAD_FINALIZATION_UPDATE_PAYLOAD_OBJECTS,
                    seq![Param::Id(tenant_id), Param::Id(payloads[j])],
                ),
            ),
        ).add(seq![CommandView::Commit])
    }

    /// What `reopen_expired_upload_finalizations` returns.
    pub open spec fn reopen_expired_upload_finalizations_output(log: Seq<Reply>) -> u64 {
        let payloads = log[1].all_rows::<Uuid>()->Ok_0;
        payloads.len() as u64
    }

    /// Opens again every upload whose finalization outlived its lease; returns how many.
    pub fn reopen_expired_upload_finalizations<'a>(
        tenant_id: Uuid,
        log: &'a [Reply],
    ) -> (step: Step<'a, u64>)
        ensures
            step@ == StepView::proceed(
                Self::reopen_expired_upload_finalizations_fault(log@),
                Self::reopen_expired_upload_finalizations_script(tenant_id, log@),
                Self::reopen_expired_upload_finalizations_output(log@),
                log@,
            ),
    {
        if log.len() == 0 {
            return Step::Ask(Command::Begin);
        }
        if log.len() <= 1 {
            return ask_all(
                sql::REOPEN_EXPIRED_UPLOAD_FINALIZATIONS_UPDATE_UPLOAD_SESSIONS,
                vec![Param::Id(tenant_id)],
            );
        }
        let payloads: Vec<Uuid> = match many::<Uuid>(&log[1]) {
            Ok(value) => value,
            Err(fault) => return stop(fault),
        };
        let items: usize = payloads.len();
        if let Err(fault) = each_exactly_one(log, 2, items, DatabaseError::StaleGeneration) {
            return stop(fault);
        }
        if log.len() - 2 < items {
            let j: usize = log.len() - 2;
            return ask_execute(
                sql::ABORT_UPLOAD_FINALIZATION_UPDATE_PAYLOAD_OBJECTS,
                vec![Param::Id(tenant_id), Param::Id(payloads[j])],
            );
        }
        let at: usize = 2 + items;
        if log.len() <= at {
            return Step::Ask(Command::Commit);
        }
        Step::Done(payloads.len() as u64)
    }

    /// `reopen_expired_upload_finalizations` runs in one transaction: it is done once its commit is
    /// acknowledged, and when it fails, nothing was committed.
    pub proof fn reopen_expired_upload_finalizations_is_atomic(tenant_id: Uuid, log: Seq<Reply>)
        ensures
            crate::step::is_atomic(
                Self::reopen_expired_upload_finalizations_script(tenant_id, log),
                0,
            ),
            crate::step::commit_acknowledged(
                Self::reopen_expired_upload_finalizations_fault(log.drop_last()),
                Self::reopen_expired_upload_finalizations_script(tenant_id, log.drop_last()),
                log,
            ) ==> {
                &&& Self::reopen_expired_upload_finalizations_fault(log) is None
                &&& log.len() == Self::reopen_expired_upload_finalizations_script(
                    tenant_id,
                    log,
                ).len()
            },
    {
        crate::row::lemma_each_affected_one_settled(log);
    }

    /// Every statement of `reopen_expired_upload_finalizations` is about its tenant.
    pub proof fn reopen_expired_upload_finalizations_is_scoped(tenant_id: Uuid, log: Seq<Reply>)
        ensures
            crate::step::is_scoped(
                Self::reopen_expired_upload_finalizations_script(tenant_id, log),
                tenant_id,
            ),
    {
    }

    /// What stops `commit_upload` from the reply at `from` on, in order.
    pub open spec fn commit_upload_writes_fault(
        upload: FinalizedUpload, ordinal: i64, from: int, log: Seq<Reply>,
    ) -> Option<Fault> {
        let checkpointed = upload.collaboration_checkpoint_id is Some;
        let imported = upload.import_intent_id is Some;
        let checkpoints = log[from + 5].row_count()->Ok_0;
        let epochs = log[from + 6].row_count()->Ok_0;
        let at = if checkpointed {
            from + 7
        } else {
            from + 5
        };
        let at2 = if !checkpointed {
            at + 1
        } else {
            at
        };
        let at3 = if imported {
            at2 + 1
        } else {
            at2
        };
        if log.len() > from && log[from].single_row::<String>() is Err {
            Fault::of(log[from].single_row::<String>())
        } else if checkpointed && log.len() > from + 5 && log[from + 5].row_count() is Err {
            Fault::of(log[from + 5].row_count())
        } else if checkpointed && log.len() > from + 6 && log[from + 6].row_count() is Err {
            Fault::of(log[from + 6].row_count())
        } else if checkpointed && log.len() > from + 6 && (checkpoints != 1 || epochs != 1) {
            Some(Fault::Error(DatabaseError::Conflict))
        } else if imported && log.len() > at2
            && log[at2].one_affected(DatabaseError::Conflict) is Err {
            Fault::of(log[at2].one_affected(DatabaseError::Conflict))
        } else if log.len() > at3 + 3 && log[at3 + 3].single_row::<i64>() is Err {
            Fault::of(log[at3 + 3].single_row::<i64>())
        } else if log.len() > at3 + 3 && ordinal < 0 {
            Some(Fault::Error(DatabaseError::InvalidPersistedValue))
        } else {
            None
        }
    }

    /// The commands of `commit_upload` from the reply at `from` on, in order.
    pub open spec fn commit_upload_writes_script<'a>(
        tenant_id: Uuid, actor: Uuid, session_id: Uuid, upload_id: Uuid,
        upload: FinalizedUpload, node_id: Uuid, version_id: Uuid, ordinal: i64,
        origin: VersionOrigin, from: int, log: Seq<Reply>,
    ) -> Seq<CommandView<'a>> {
        let drive_id = upload.drive_id;
        let checkpointed = upload.collaboration_checkpoint_id is Some;
        let imported = upload.import_intent_id is Some;
        let creator = log[from].single_row::<String>()->Ok_0;
        let at = if checkpointed {
            from + 7
        } else {
            from + 5
        };
        let at2 = if !checkpointed {
            at + 1
        } else {
            at
        };
        let at3 = if imported {
            at2 + 1
        } else {
            at2
        };
        let occurred_at = log[at3 + 3].single_row::<i64>()->Ok_0;
        seq![
            CommandView::one(
                sql::COMMIT_UPLOAD_SELECT_API_SESSIONS,
                seq![Param::Id(tenant_id), Param::Id(session_id), Param::Id(actor)],
            ),
            CommandView::execute(
                sql::COMMIT_UPLOAD_INSERT_FILE_VERSIONS,
                seq![
                    Param::Id(tenant_id), Param::Id(node_id), Param::Id(version_id),
                    Param::I64(ordinal), Param::Id(upload.payload_id),
                    Param::I64(upload.declared_size_bytes), Param::Blob(upload.blake3),
                    Param::OptOwned(upload.declared_media_type), Param::Id(actor),
                    Param::Text(origin.kind), Param::OptId(origin.source_version_id),
                    Param::Owned(creator), Param::Bool(origin.mcp_assisted),
                ],
            ),
            CommandView::execute(
                sql::COMMIT_UPLOAD_UPDATE_NODES,
                seq![
                    Param::Id(tenant_id), Param::Id(drive_id), Param::Id(node_id),
                    Param::Id(version_id),
                ],
            ),
            CommandView::execute(
                sql::COMMIT_UPLOAD_UPDATE_PAYLOAD_OBJECTS,
                seq![Param::Id(tenant_id), Param::Id(upload.payload_id)],
            ),
            CommandView::execute(
                sql::COMMIT_UPLOAD_UPDATE_UPLOAD_SESSIONS,
                seq![Param::Id(tenant_id), Param::Id(upload_id)],
            ),
        ].add(
            if checkpointed {
                seq![
                    CommandView::execute(
                        sql::COMMIT_UPLOAD_UPDATE_CHECKPOINTS,
                        seq![
                            Param::Id(tenant_id), Param::Id(upload.collaboration_checkpoint_id->0),
                            Param::Id(version_id),
                        ],
                    ),
                    CommandView::execute(
                        sql::COMMIT_UPLOAD_UPDATE_EPOCHS,
                        seq![
                            Param::Id(tenant_id), Param::Id(upload.collaboration_checkpoint_id->0),
                        ],
                    ),
                ]
            } else {
                Seq::empty()
            },
        ).add(
            if !checkpointed {
                seq![
                    CommandView::execute(
                        sql::RESTORE_FILE_VERSION_UPDATE_EPOCHS,
                        seq![Param::Id(tenant_id), Param::Id(drive_id), Param::Id(node_id)],
                    ),
                ]
            } else {
                Seq::empty()
            },
        ).add(
            if imported {
                seq![
                    CommandView::execute(
                        sql::COMMIT_UPLOAD_UPDATE_IMPORT_INTENTS,
                        seq![
                            Param::Id(tenant_id), Param::Id(upload.import_intent_id->0),
                            Param::Id(actor), Param::Id(session_id),
                        ],
                    ),
                ]
            } else {
                Seq::empty()
            },
        ).add(
            seq![
                CommandView::execute(
                    sql::COMMIT_UPLOAD_UPDATE_QUOTA_RESERVATIONS,
                    seq![Param::Id(tenant_id), Param::Id(upload_id)],
                ),
                CommandView::execute(
                    sql::COMMIT_UPLOAD_UPDATE_DRIVES,
                    seq![
                        Param::Id(tenant_id), Param::Id(drive_id),
                        Param::I64(upload.declared_size_bytes),
                    ],
                ),
                CommandView::execute(
                    sql::INSERT_AUDIT,
                    seq![
                        Param::Id(tenant_id), Param::FreshId, Param::OptId(Some(actor)),
                        Param::OptId(None), Param::OptId(Some(node_id)),
                        Param::Text("version.commit"), Param::Text("allowed"),
                        Param::Text("create_version_allowed"), Param::Bool(false),
                        Param::Object1("version_id", Detail::Id(version_id)),
                    ],
                ),
                CommandView::one(sql::INSERT_OUTBOX_SELECT_VALUE, seq![]),
                CommandView::execute(
                    sql::INSERT_OUTBOX_INSERT_OUTBOX_EVENTS,
                    seq![
                        Param::Id(tenant_id), Param::FreshId,
                        Param::Text("filebelt.v1.namespace.changed"), Param::Text("node"),
                        Param::Id(node_id), Param::I64(ordinal), Param::Pair(tenant_id, node_id),
                        Param::Event(
                            Envelope {
                                tenant_id: tenant_id,
                                aggregate_type: "node",
                                aggregate_id: node_id,
                                aggregate_generation: ordinal as u64,
                                event_type: "filebelt.v1.namespace.changed",
                                occurred_at_unix_seconds: occurred_at,
                            },
                        ),
                    ],
                ),
                CommandView::Commit,
            ],
        )
    }

    /// `commit_upload`, from the reply at `from` on.
    #[verifier::spinoff_prover]
    fn commit_upload_writes<'a>(
        tenant_id: Uuid, actor: Uuid, session_id: Uuid, upload_id: Uuid,
        upload: FinalizedUpload, node_id: Uuid, version_id: Uuid, ordinal: i64,
        origin: VersionOrigin, from: usize, log: &'a [Reply],
    ) -> (step: Step<'a, (Uuid, Uuid)>)
        requires
            from <= log@.len(),
        ensures
            step@ == StepView::resume(
                Self::commit_upload_writes_fault(upload, ordinal, from as int, log@),
                Self::commit_upload_writes_script(
                    tenant_id, actor, session_id, upload_id, upload, node_id, version_id, ordinal,
                    origin, from as int, log@,
                ),
                (node_id, version_id),
                log@,
                from as int,
            ),
    {
        let drive_id: Uuid = upload.drive_id;
        let checkpointed: bool = upload.collaboration_checkpoint_id.is_some();
        let imported: bool = upload.import_intent_id.is_some();
        if log.len() <= from {
            return ask_one(
                sql::COMMIT_UPLOAD_SELECT_API_SESSIONS,
                vec![Param::Id(tenant_id), Param::Id(session_id), Param::Id(actor)],
            );
        }
        let creator: String = match single::<String>(&log[from]) {
            Ok(value) => value,
            Err(fault) => return stop(fault),
        };
        if log.len() - from <= 1 {
            return ask_execute(
                sql::COMMIT_UPLOAD_INSERT_FILE_VERSIONS,
                vec![
                    Param::Id(tenant_id), Param::Id(node_id), Param::Id(version_id),
                    Param::I64(ordinal), Param::Id(upload.payload_id),
                    Param::I64(upload.declared_size_bytes), Param::Blob(upload.blake3),
                    Param::OptOwned(upload.declared_media_type), Param::Id(actor),
                    Param::Text(origin.kind), Param::OptId(origin.source_version_id),
                    Param::Owned(creator), Param::Bool(origin.mcp_assisted),
                ],
            );
        }
        if log.len() - from <= 2 {
            return ask_execute(
                sql::COMMIT_UPLOAD_UPDATE_NODES,
                vec![
                    Param::Id(tenant_id), Param::Id(drive_id), Param::Id(node_id),
                    Param::Id(version_id),
                ],
            );
        }
        if log.len() - from <= 3 {
            return ask_execute(
                sql::COMMIT_UPLOAD_UPDATE_PAYLOAD_OBJECTS,
                vec![Param::Id(tenant_id), Param::Id(upload.payload_id)],
            );
        }
        if log.len() - from <= 4 {
            return ask_execute(
                sql::COMMIT_UPLOAD_UPDATE_UPLOAD_SESSIONS,
                vec![Param::Id(tenant_id), Param::Id(upload_id)],
            );
        }
        if checkpointed {
            if log.len() - from <= 5 {
                return ask_execute(
                    sql::COMMIT_UPLOAD_UPDATE_CHECKPOINTS,
                    vec![
                        Param::Id(tenant_id),
                        Param::Id(upload.collaboration_checkpoint_id.unwrap()),
                        Param::Id(version_id),
                    ],
                );
            }
            let checkpoints: u64 = match affected(&log[from + 5]) {
                Ok(value) => value,
                Err(fault) => return stop(fault),
            };
            if log.len() - from <= 6 {
                return ask_execute(
                    sql::COMMIT_UPLOAD_UPDATE_EPOCHS,
                    vec![
                        Param::Id(tenant_id),
                        Param::Id(upload.collaboration_checkpoint_id.unwrap()),
                    ],
                );
            }
            let epochs: u64 = match affected(&log[from + 6]) {
                Ok(value) => value,
                Err(fault) => return stop(fault),
            };
            if checkpoints != 1 || epochs != 1 {
                return Step::Fail(DatabaseError::Conflict);
            }
        }
        let at: usize = if checkpointed {
            from + 7
        } else {
            from + 5
        };
        if !checkpointed {
            if log.len() <= at {
                return ask_execute(
                    sql::RESTORE_FILE_VERSION_UPDATE_EPOCHS,
                    vec![Param::Id(tenant_id), Param::Id(drive_id), Param::Id(node_id)],
                );
            }
        }
        let at2: usize = if !checkpointed {
            at + 1
        } else {
            at
        };
        if imported {
            if log.len() <= at2 {
                return ask_execute(
                    sql::COMMIT_UPLOAD_UPDATE_IMPORT_INTENTS,
                    vec![
                        Param::Id(tenant_id), Param::Id(upload.import_intent_id.unwrap()),
                        Param::Id(actor), Param::Id(session_id),
                    ],
                );
            }
            if let Err(fault) = exactly_one(&log[at2], DatabaseError::Conflict) {
                return stop(fault);
            }
        }
        let at3: usize = if imported {
            at2 + 1
        } else {
            at2
        };
        if log.len() <= at3 {
            return ask_execute(
                sql::COMMIT_UPLOAD_UPDATE_QUOTA_RESERVATIONS,
                vec![Param::Id(tenant_id), Param::Id(upload_id)],
            );
        }
        if log.len() - at3 <= 1 {
            return ask_execute(
                sql::COMMIT_UPLOAD_UPDATE_DRIVES,
                vec![
                    Param::Id(tenant_id), Param::Id(drive_id),
                    Param::I64(upload.declared_size_bytes),
                ],
            );
        }
        if log.len() - at3 <= 2 {
            return ask_execute(
                sql::INSERT_AUDIT,
                vec![
                    Param::Id(tenant_id), Param::FreshId, Param::OptId(Some(actor)),
                    Param::OptId(None), Param::OptId(Some(node_id)),
                    Param::Text("version.commit"), Param::Text("allowed"),
                    Param::Text("create_version_allowed"), Param::Bool(false),
                    Param::Object1("version_id", Detail::Id(version_id)),
                ],
            );
        }
        if log.len() - at3 <= 3 {
            return ask_one(sql::INSERT_OUTBOX_SELECT_VALUE, vec![]);
        }
        let occurred_at: i64 = match single::<i64>(&log[at3 + 3]) {
            Ok(value) => value,
            Err(fault) => return stop(fault),
        };
        if ordinal < 0 {
            return Step::Fail(DatabaseError::InvalidPersistedValue);
        }
        if log.len() - at3 <= 4 {
            return ask_execute(
                sql::INSERT_OUTBOX_INSERT_OUTBOX_EVENTS,
                vec![
                    Param::Id(tenant_id), Param::FreshId,
                    Param::Text("filebelt.v1.namespace.changed"), Param::Text("node"),
                    Param::Id(node_id), Param::I64(ordinal), Param::Pair(tenant_id, node_id),
                    Param::Event(
                        Envelope {
                            tenant_id: tenant_id,
                            aggregate_type: "node",
                            aggregate_id: node_id,
                            aggregate_generation: ordinal as u64,
                            event_type: "filebelt.v1.namespace.changed",
                            occurred_at_unix_seconds: occurred_at,
                        },
                    ),
                ],
            );
        }
        if log.len() - at3 <= 5 {
            return Step::Ask(Command::Commit);
        }
        Step::Done((node_id, version_id))
    }

    /// What stops `commit_upload`, in order.
    pub open spec fn commit_upload_fault(
        membership_generation: i64, drive_acl_generation: i64, namespace_generation: i64,
        resource_acl_generation: i64, log: Seq<Reply>,
    ) -> Option<Fault> {
        let upload = log[1].required_row::<FinalizedUpload>(DatabaseError::StaleGeneration)->Ok_0;
        let expected = upload.expected_head_version_id;
        let markdown = is_markdown_spec(crate::text::optional_text(upload.declared_media_type));
        let fence = log[2].required_row::<FenceGenerations>(DatabaseError::StaleGeneration)->Ok_0;
        let current = log[3].required_row::<Option<Uuid>>(DatabaseError::NotFound)->Ok_0;
        let at = if upload.node_id is Some {
            4int
        } else {
            3
        };
        let drawn = log[at].drawn_ids(1);
        let at2 = if upload.node_id is None {
            at + 3
        } else {
            at
        };
        let drawn2 = log[at2].drawn_ids(1);
        let ordinal = log[at2 + 1].single_row::<i64>()->Ok_0;
        let checkpointed = upload.collaboration_checkpoint_id is Some;
        let imported = upload.import_intent_id is Some;
        let checkpoint =
            log[at2 + 2].required_row::<CheckpointSource>(DatabaseError::StaleGeneration)->Ok_0;
        let at3 = if checkpointed {
            at2 + 3
        } else {
            at2 + 2
        };
        let intent = log[at3].required_row::<ImportSource>(DatabaseError::StaleGeneration)->Ok_0;
        let source_fence =
            log[at3 + 1].required_row::<FenceGenerations>(DatabaseError::StaleGeneration)->Ok_0;
        let at4 = if !checkpointed && imported {
            at3 + 2
        } else {
            at3
        };
        if log.len() > 1
            && log[1].required_row::<FinalizedUpload>(DatabaseError::StaleGeneration) is Err {
            Fault::of(log[1].required_row::<FinalizedUpload>(DatabaseError::StaleGeneration))
        } else if log.len() > 2
            && log[2].required_row::<FenceGenerations>(DatabaseError::StaleGeneration) is Err {
            Fault::of(log[2].required_row::<FenceGenerations>(DatabaseError::StaleGeneration))
        } else if log.len() > 2
            && !fence.agrees_with(
                seq![
                    membership_generation, drive_acl_generation, namespace_generation,
                    resource_acl_generation,
                ],
            ) {
                Some(Fault::Error(DatabaseError::StaleGeneration))
            } else if upload.node_id is Some && log.len() > 3
            && log[3].required_row::<Option<Uuid>>(DatabaseError::NotFound) is Err {
            Fault::of(log[3].required_row::<Option<Uuid>>(DatabaseError::NotFound))
        } else if upload.node_id is Some && log.len() > 3 && current != expected {
            Some(Fault::Error(DatabaseError::Conflict))
        } else if upload.node_id is None && log.len() > at && drawn is Err {
            Fault::of(drawn)
        } else if log.len() > at2 && drawn2 is Err {
            Fault::of(drawn2)
        } else if log.len() > at2 + 1 && log[at2 + 1].single_row::<i64>() is Err {
            Fault::of(log[at2 + 1].single_row::<i64>())
        } else if checkpointed && log.len() > at2 + 2
            && log[at2 + 2].required_row::<CheckpointSource>(
                DatabaseError::StaleGeneration,
            ) is Err {
                Fault::of(
                    log[at2 + 2].required_row::<CheckpointSource>(DatabaseError::StaleGeneration),
                )
            } else if checkpointed && log.len() > at2 + 2 && expected is None {
                Some(Fault::Error(DatabaseError::StaleGeneration))
            } else if checkpointed && log.len() > at2 + 2
            && (checkpoint.base_version_id != expected->0
                    || checkpoint.source_size_bytes != upload.declared_size_bytes
                    || checkpoint.source_blake3@ != upload.blake3@ || !markdown) {
            Some(Fault::Error(DatabaseError::Conflict))
        } else if !checkpointed && imported && log.len() > at3
            && log[at3].required_row::<ImportSource>(DatabaseError::StaleGeneration) is Err {
            Fault::of(log[at3].required_row::<ImportSource>(DatabaseError::StaleGeneration))
        } else if !checkpointed && imported && log.len() > at3 && !markdown {
            Some(Fault::Error(DatabaseError::Conflict))
        } else if !checkpointed && imported && log.len() > at3 + 1
            && log[at3 + 1].required_row::<FenceGenerations>(
                DatabaseError::StaleGeneration,
            ) is Err {
                Fault::of(
                    log[at3 + 1].required_row::<FenceGenerations>(DatabaseError::StaleGeneration),
                )
            } else if !checkpointed && imported && log.len() > at3 + 1
            && source_fence != intent.source_spec() {
            Some(Fault::Error(DatabaseError::StaleGeneration))
        } else {
            Self::commit_upload_writes_fault(upload, ordinal, at4, log)
        }
    }

    /// The commands of `commit_upload`, in order.
    pub open spec fn commit_upload_script<'a>(
        tenant_id: Uuid, actor: Uuid, session_id: Uuid, upload_id: Uuid,
        expected_fencing_token: i64, log: Seq<Reply>,
    ) -> Seq<CommandView<'a>> {
        let upload = log[1].required_row::<FinalizedUpload>(DatabaseError::StaleGeneration)->Ok_0;
        let drive_id = upload.drive_id;
        let expected = upload.expected_head_version_id;
        let resource = if upload.node_id is Some { upload.node_id->0 } else { upload.parent_id };
        let markdown = is_markdown_spec(crate::text::optional_text(upload.declared_media_type));
        let at = if upload.node_id is Some {
            4int
        } else {
            3
        };
        let drawn = log[at].drawn_ids(1);
        let node_id = if upload.node_id is None {
            drawn->Ok_0[0]
        } else {
            upload.node_id->0
        };
        let at2 = if upload.node_id is None {
            at + 3
        } else {
            at
        };
        let drawn2 = log[at2].drawn_ids(1);
        let version_id = drawn2->Ok_0[0];
        let ordinal = log[at2 + 1].single_row::<i64>()->Ok_0;
        let checkpointed = upload.collaboration_checkpoint_id is Some;
        let imported = upload.import_intent_id is Some;
        let checkpoint =
            log[at2 + 2].required_row::<CheckpointSource>(DatabaseError::StaleGeneration)->Ok_0;
        let own_origin = if checkpointed {
            VersionOrigin {
                kind: "collaboration_checkpoint",
                source_version_id: Some(checkpoint.base_version_id),
                mcp_assisted: checkpoint.mcp_assisted,
            }
        } else {
            VersionOrigin::direct_spec(upload.node_id is Some && markdown, expected)
        };
        let at3 = if checkpointed {
            at2 + 3
        } else {
            at2 + 2
        };
        let intent = log[at3].required_row::<ImportSource>(DatabaseError::StaleGeneration)->Ok_0;
        let origin = if !checkpointed && imported {
            VersionOrigin {
                kind: "import",
                source_version_id: Some(intent.source_version_id),
                mcp_assisted: false,
            }
        } else {
            own_origin
        };
        let at4 = if !checkpointed && imported {
            at3 + 2
        } else {
            at3
        };
        seq![
            CommandView::Begin,
            CommandView::optional(
                sql::COMMIT_UPLOAD_SELECT_UPLOAD_SESSIONS,
                seq![
                    Param::Id(tenant_id), Param::Id(upload_id), Param::Id(actor),
                    Param::I64(expected_fencing_token),
                ],
            ),
            CommandView::optional(
                sql::LOCK_AUTHORIZATION_FENCE,
                seq![
                    Param::Id(tenant_id), Param::Id(session_id), Param::Id(actor),
                    Param::Id(drive_id), Param::Id(resource),
                ],
            ),
        ].add(
            if upload.node_id is Some {
                seq![
                    CommandView::optional(
                        sql::COMMIT_UPLOAD_SELECT_NODES,
                        seq![
                            Param::Id(tenant_id), Param::Id(drive_id), Param::Id(upload.node_id->0),
                        ],
                    ),
                ]
            } else {
                Seq::empty()
            },
        ).add(
            if upload.node_id is None {
                seq![
                    CommandView::DrawIds(1),
                    CommandView::ruled(
                        sql::COMMIT_UPLOAD_INSERT_NODES,
                        seq![
                            Param::Id(tenant_id), Param::Id(drive_id), Param::Id(node_id),
                            Param::Id(upload.parent_id), Param::Owned(upload.target_display_name),
                            Param::Owned(upload.target_name_key), Param::Id(actor),
                        ],
                        Fetch::Execute, ErrorRule::UniqueConflict,
                    ),
                    CommandView::execute(
                        sql::CREATE_DIRECTORY_INSERT_NODE_ANCESTRY,
                        seq![
                            Param::Id(tenant_id), Param::Id(drive_id), Param::Id(upload.parent_id),
                            Param::Id(node_id),
                        ],
                    ),
                ]
            } else {
                Seq::empty()
            },
        ).add(
            seq![
                CommandView::DrawIds(1),
                CommandView::one(
                    sql::RESTORE_FILE_VERSION_SELECT_FILE_VERSIONS,
                    seq![Param::Id(tenant_id), Param::Id(node_id)],
                ),
            ],
        ).add(
            if checkpointed {
                seq![
                    CommandView::optional(
                        sql::COMMIT_UPLOAD_SELECT_CHECKPOINTS,
                        seq![
                            Param::Id(tenant_id), Param::Id(upload.collaboration_checkpoint_id->0),
                            Param::Id(node_id), Param::Id(actor),
                        ],
                    ),
                ]
            } else {
                Seq::empty()
            },
        ).add(
            if !checkpointed && imported {
                seq![
                    CommandView::optional(
                        sql::COMMIT_UPLOAD_SELECT_IMPORT_INTENTS,
                        seq![
                            Param::Id(tenant_id), Param::Id(upload.import_intent_id->0),
                            Param::Id(actor), Param::Id(session_id),
                        ],
                    ),
                    CommandView::optional(
                        sql::LOCK_AUTHORIZATION_FENCE,
                        seq![
                            Param::Id(tenant_id), Param::Id(session_id), Param::Id(actor),
                            Param::Id(drive_id), Param::Id(intent.source_node_id),
                        ],
                    ),
                ]
            } else {
                Seq::empty()
            },
        ).add(
            Self::commit_upload_writes_script(
                tenant_id, actor, session_id, upload_id, upload, node_id, version_id, ordinal,
                origin, at4, log,
            ),
        )
    }

    /// What `commit_upload` returns.
    pub open spec fn commit_upload_output(log: Seq<Reply>) -> (Uuid, Uuid) {
        let upload = log[1].required_row::<FinalizedUpload>(DatabaseError::StaleGeneration)->Ok_0;
        let at = if upload.node_id is Some {
            4int
        } else {
            3
        };
        let drawn = log[at].drawn_ids(1);
        let node_id = if upload.node_id is None {
            drawn->Ok_0[0]
        } else {
            upload.node_id->0
        };
        let at2 = if upload.node_id is None {
            at + 3
        } else {
            at
        };
        let drawn2 = log[at2].drawn_ids(1);
        let version_id = drawn2->Ok_0[0];
        (node_id, version_id)
    }

    /// Makes a finalized upload the head version of its file, which it creates where the upload is
    /// of a new one. The version records where it comes from; the reserved bytes become used ones;
    /// a live collaboration epoch that did not bring the version about is frozen. Returns the file
    /// and the version.
    #[verifier::spinoff_prover]
    #[verifier::rlimit(100)]
    pub fn commit_upload<'a>(
        tenant_id: Uuid, actor: Uuid, session_id: Uuid, upload_id: Uuid,
        expected_fencing_token: i64, membership_generation: i64, drive_acl_generation: i64,
        namespace_generation: i64, resource_acl_generation: i64, log: &'a [Reply],
    ) -> (step: Step<'a, (Uuid, Uuid)>)
        ensures
            step@ == StepView::proceed(
                Self::commit_upload_fault(
                    membership_generation, drive_acl_generation, namespace_generation,
                    resource_acl_generation, log@,
                ),
                Self::commit_upload_script(
                    tenant_id, actor, session_id, upload_id, expected_fencing_token, log@,
                ),
                Self::commit_upload_output(log@),
                log@,
            ),
    {
        if log.len() == 0 {
            return Step::Ask(Command::Begin);
        }
        if log.len() <= 1 {
            return ask_optional(
                sql::COMMIT_UPLOAD_SELECT_UPLOAD_SESSIONS,
                vec![
                    Param::Id(tenant_id), Param::Id(upload_id), Param::Id(actor),
                    Param::I64(expected_fencing_token),
                ],
            );
        }
        let upload: FinalizedUpload = match required(&log[1], DatabaseError::StaleGeneration) {
            Ok(value) => value,
            Err(fault) => return stop(fault),
        };
        let drive_id: Uuid = upload.drive_id;
        let expected: Option<Uuid> = upload.expected_head_version_id;
        let resource: Uuid = match upload.node_id {
            Some(node_id) => node_id,
            None => upload.parent_id,
        };
        let markdown: bool = stored_is_markdown(&upload.declared_media_type);
        if log.len() <= 2 {
            return ask_optional(
                sql::LOCK_AUTHORIZATION_FENCE,
                vec![
                    Param::Id(tenant_id), Param::Id(session_id), Param::Id(actor),
                    Param::Id(drive_id), Param::Id(resource),
                ],
            );
        }
        let fence: FenceGenerations = match required(&log[2], DatabaseError::StaleGeneration) {
            Ok(value) => value,
            Err(fault) => return stop(fault),
        };
        if !fence.agree(
            [
                membership_generation, drive_acl_generation, namespace_generation,
                resource_acl_generation,
            ],
        ) {
            return Step::Fail(DatabaseError::StaleGeneration);
        }
        if upload.node_id.is_some() {
            if log.len() <= 3 {
                return ask_optional(
                    sql::COMMIT_UPLOAD_SELECT_NODES,
                    vec![
                        Param::Id(tenant_id), Param::Id(drive_id),
                        Param::Id(upload.node_id.unwrap()),
                    ],
                );
            }
            let current: Option<Uuid> = match required(&log[3], DatabaseError::NotFound) {
                Ok(value) => value,
                Err(fault) => return stop(fault),
            };
            if current != expected {
                return Step::Fail(DatabaseError::Conflict);
            }
        }
        let at: usize = if upload.node_id.is_some() {
            4
        } else {
            3
        };
        let node_id: Uuid = if upload.node_id.is_none() {
            if log.len() <= at {
                return Step::Ask(Command::DrawIds(1));
            }
            let drawn: &Vec<Uuid> = match drawn(&log[at], 1) {
                Ok(ids) => ids,
                Err(fault) => return stop(fault),
            };
            let node_id: Uuid = drawn[0];
            if log.len() - at <= 1 {
                return ask(
                    sql::COMMIT_UPLOAD_INSERT_NODES,
                    vec![
                        Param::Id(tenant_id), Param::Id(drive_id), Param::Id(node_id),
                        Param::Id(upload.parent_id), Param::Owned(upload.target_display_name),
                        Param::Owned(upload.target_name_key), Param::Id(actor),
                    ],
                    Fetch::Execute, ErrorRule::UniqueConflict,
                );
            }
            if log.len() - at <= 2 {
                return ask_execute(
                    sql::CREATE_DIRECTORY_INSERT_NODE_ANCESTRY,
                    vec![
                        Param::Id(tenant_id), Param::Id(drive_id), Param::Id(upload.parent_id),
                        Param::Id(node_id),
                    ],
                );
            }
            node_id
        } else {
            upload.node_id.unwrap()
        };
        let at2: usize = if upload.node_id.is_none() {
            at + 3
        } else {
            at
        };
        if log.len() <= at2 {
            return Step::Ask(Command::DrawIds(1));
        }
        let drawn: &Vec<Uuid> = match drawn(&log[at2], 1) {
            Ok(ids) => ids,
            Err(fault) => return stop(fault),
        };
        let version_id: Uuid = drawn[0];
        if log.len() - at2 <= 1 {
            return ask_one(
                sql::RESTORE_FILE_VERSION_SELECT_FILE_VERSIONS,
                vec![Param::Id(tenant_id), Param::Id(node_id)],
            );
        }
        let ordinal: i64 = match single::<i64>(&log[at2 + 1]) {
            Ok(value) => value,
            Err(fault) => return stop(fault),
        };
        let checkpointed: bool = upload.collaboration_checkpoint_id.is_some();
        let imported: bool = upload.import_intent_id.is_some();
        let own_origin: VersionOrigin = if checkpointed {
            if log.len() - at2 <= 2 {
                return ask_optional(
                    sql::COMMIT_UPLOAD_SELECT_CHECKPOINTS,
                    vec![
                        Param::Id(tenant_id),
                        Param::Id(upload.collaboration_checkpoint_id.unwrap()),
                        Param::Id(node_id), Param::Id(actor),
                    ],
                );
            }
            let checkpoint: CheckpointSource = match required(
                &log[at2 + 2],
                DatabaseError::StaleGeneration,
            ) {
                Ok(value) => value,
                Err(fault) => return stop(fault),
            };
            if expected.is_none() {
                return Step::Fail(DatabaseError::StaleGeneration);
            }
            if checkpoint.base_version_id != expected.unwrap()
                || checkpoint.source_size_bytes != upload.declared_size_bytes
                || !bytes_eq(checkpoint.source_blake3.as_slice(), upload.blake3.as_slice())
                || !markdown {
                return Step::Fail(DatabaseError::Conflict);
            }
            let own_origin: VersionOrigin = VersionOrigin {
                kind: "collaboration_checkpoint",
                source_version_id: Some(checkpoint.base_version_id),
                mcp_assisted: checkpoint.mcp_assisted,
            };
            own_origin
        } else {
            VersionOrigin::direct(upload.node_id.is_some() && markdown, expected)
        };
        let at3: usize = if checkpointed {
            at2 + 3
        } else {
            at2 + 2
        };
        let origin: VersionOrigin = if !checkpointed && imported {
            if log.len() <= at3 {
                return ask_optional(
                    sql::COMMIT_UPLOAD_SELECT_IMPORT_INTENTS,
                    vec![
                        Param::Id(tenant_id), Param::Id(upload.import_intent_id.unwrap()),
                        Param::Id(actor), Param::Id(session_id),
                    ],
                );
            }
            let intent: ImportSource = match required(&log[at3], DatabaseError::StaleGeneration) {
                Ok(value) => value,
                Err(fault) => return stop(fault),
            };
            if !markdown {
                return Step::Fail(DatabaseError::Conflict);
            }
            if log.len() - at3 <= 1 {
                return ask_optional(
                    sql::LOCK_AUTHORIZATION_FENCE,
                    vec![
                        Param::Id(tenant_id), Param::Id(session_id), Param::Id(actor),
                        Param::Id(drive_id), Param::Id(intent.source_node_id),
                    ],
                );
            }
            let source_fence: FenceGenerations = match required(
                &log[at3 + 1],
                DatabaseError::StaleGeneration,
            ) {
                Ok(value) => value,
                Err(fault) => return stop(fault),
            };
            if source_fence != intent.source() {
                return Step::Fail(DatabaseError::StaleGeneration);
            }
            let origin: VersionOrigin = VersionOrigin {
                kind: "import",
                source_version_id: Some(intent.source_version_id),
                mcp_assisted: false,
            };
            origin
        } else {
            own_origin
        };
        let at4: usize = if !checkpointed && imported {
            at3 + 2
        } else {
            at3
        };
        Self::commit_upload_writes(
            tenant_id, actor, session_id, upload_id, upload, node_id, version_id, ordinal, origin,
            at4, log,
        )
    }

    /// `commit_upload` goes past its fence only where the generations that it has locked are those
    /// that the caller was authorized under.
    pub proof fn commit_upload_is_fenced(
        membership_generation: i64, drive_acl_generation: i64, namespace_generation: i64,
        resource_acl_generation: i64, log: Seq<Reply>,
    )
        ensures
            ({
                let fence =
                    log[2].required_row::<FenceGenerations>(DatabaseError::StaleGeneration)->Ok_0;
                Self::commit_upload_fault(
                    membership_generation, drive_acl_generation, namespace_generation,
                    resource_acl_generation, log,
                ) is None && log.len() > 2
                    ==> log[2].required_row::<FenceGenerations>(
                        DatabaseError::StaleGeneration,
                    ) is Ok
                    && fence.agrees_with(
                        seq![
                            membership_generation, drive_acl_generation, namespace_generation,
                            resource_acl_generation,
                        ],
                    )
            }),
    {
    }

    /// The number of commands that `commit_upload` takes.
    pub open spec fn commit_upload_length(upload: FinalizedUpload) -> int {
        let placed: int = if upload.node_id is Some {
            1
        } else {
            3
        };
        let sourced: int = if upload.collaboration_checkpoint_id is Some {
            1
        } else if upload.import_intent_id is Some {
            2
        } else {
            0
        };
        let fenced: int = if upload.collaboration_checkpoint_id is Some {
            2
        } else {
            1
        };
        let redeemed: int = if upload.import_intent_id is Some {
            1
        } else {
            0
        };
        3 + placed + 2 + sourced + 5 + fenced + redeemed + 6
    }

    #[verifier::spinoff_prover]
    #[verifier::rlimit(60)]
    proof fn lemma_commit_upload_script(
        tenant_id: Uuid,
        actor: Uuid,
        session_id: Uuid,
        upload_id: Uuid,
        expected_fencing_token: i64,
        log: Seq<Reply>,
    )
        ensures
            crate::step::is_atomic(
                Self::commit_upload_script(
                    tenant_id,
                    actor,
                    session_id,
                    upload_id,
                    expected_fencing_token,
                    log,
                ),
                0,
            ),
            Self::commit_upload_script(
                tenant_id,
                actor,
                session_id,
                upload_id,
                expected_fencing_token,
                log,
            ).len() == Self::commit_upload_length(
                log[1].required_row::<FinalizedUpload>(DatabaseError::StaleGeneration)->Ok_0,
            ),
    {
    }

    #[verifier::spinoff_prover]
    #[verifier::rlimit(60)]
    proof fn lemma_commit_upload_fault(
        membership_generation: i64,
        drive_acl_generation: i64,
        namespace_generation: i64,
        resource_acl_generation: i64,
        log: Seq<Reply>,
    )
        requires
            log.len() == Self::commit_upload_length(
                log[1].required_row::<FinalizedUpload>(DatabaseError::StaleGeneration)->Ok_0,
            ),
        ensures
            Self::commit_upload_fault(
                membership_generation,
                drive_acl_generation,
                namespace_generation,
                resource_acl_generation,
                log.drop_last(),
            ) == Self::commit_upload_fault(
                membership_generation,
                drive_acl_generation,
                namespace_generation,
                resource_acl_generation,
                log,
            ),
    {
    }

    /// `commit_upload` runs in one transaction: it is done once its commit is acknowledged, and
    /// when it fails, nothing was committed.
    pub proof fn commit_upload_is_atomic(
        tenant_id: Uuid,
        actor: Uuid,
        session_id: Uuid,
        upload_id: Uuid,
        expected_fencing_token: i64,
        membership_generation: i64,
        drive_acl_generation: i64,
        namespace_generation: i64,
        resource_acl_generation: i64,
        log: Seq<Reply>,
    )
        ensures
            crate::step::is_atomic(
                Self::commit_upload_script(
                    tenant_id,
                    actor,
                    session_id,
                    upload_id,
                    expected_fencing_token,
                    log,
                ),
                0,
            ),
            crate::step::commit_acknowledged(
                Self::commit_upload_fault(
                    membership_generation,
                    drive_acl_generation,
                    namespace_generation,
                    resource_acl_generation,
                    log.drop_last(),
                ),
                Self::commit_upload_script(
                    tenant_id,
                    actor,
                    session_id,
                    upload_id,
                    expected_fencing_token,
                    log.drop_last(),
                ),
                log,
            ) ==> {
                &&& Self::commit_upload_fault(
                    membership_generation,
                    drive_acl_generation,
                    namespace_generation,
                    resource_acl_generation,
                    log,
                ) is None
                &&& log.len() == Self::commit_upload_script(
                    tenant_id,
                    actor,
                    session_id,
                    upload_id,
                    expected_fencing_token,
                    log,
                ).len()
            },
    {
        Self::lemma_commit_upload_script(
            tenant_id,
            actor,
            session_id,
            upload_id,
            expected_fencing_token,
            log,
        );
        let before = log.drop_last();
        Self::lemma_commit_upload_script(
            tenant_id,
            actor,
            session_id,
            upload_id,
            expected_fencing_token,
            before,
        );
        let script = Self::commit_upload_script(
            tenant_id,
            actor,
            session_id,
            upload_id,
            expected_fencing_token,
            before,
        );
        if 0 < log.len() <= script.len() && script[log.len() - 1] == CommandView::Commit {
            assert(log.len() == script.len());
            assert(before[1] == log[1]);
            Self::lemma_commit_upload_fault(
                membership_generation,
                drive_acl_generation,
                namespace_generation,
                resource_acl_generation,
                log,
            );
        }
    }

    /// Every statement of `commit_upload` is about its tenant.
    pub proof fn commit_upload_is_scoped(
        tenant_id: Uuid, actor: Uuid, session_id: Uuid, upload_id: Uuid,
        expected_fencing_token: i64, log: Seq<Reply>,
    )
        ensures
            crate::step::is_scoped(
                Self::commit_upload_script(
                    tenant_id, actor, session_id, upload_id, expected_fencing_token, log,
                ),
                tenant_id,
            ),
    {
    }

    /// What stops `payload_for_node`, in order.
    pub open spec fn payload_for_node_fault(log: Seq<Reply>) -> Option<Fault> {
        if log.len() > 0 && log[0].required_row::<PayloadRecord>(DatabaseError::NotFound) is Err {
            Fault::of(log[0].required_row::<PayloadRecord>(DatabaseError::NotFound))
        } else {
            None
        }
    }

    /// The commands of `payload_for_node`, in order.
    pub open spec fn payload_for_node_script<'a>(
        tenant_id: Uuid, node_id: Uuid, version_id: Option<Uuid>, log: Seq<Reply>,
    ) -> Seq<CommandView<'a>> {
        seq![
            CommandView::optional(
                sql::PAYLOAD_FOR_NODE,
                seq![Param::Id(tenant_id), Param::Id(node_id), Param::OptId(version_id)],
            ),
        ]
    }

    /// What `payload_for_node` returns.
    pub open spec fn payload_for_node_output(log: Seq<Reply>) -> PayloadRecord {
        let payload = log[0].required_row::<PayloadRecord>(DatabaseError::NotFound)->Ok_0;
        payload
    }

    /// The payload of a file's version, or of its head.
    pub fn payload_for_node<'a>(
        tenant_id: Uuid, node_id: Uuid, version_id: Option<Uuid>, log: &'a [Reply],
    ) -> (step: Step<'a, PayloadRecord>)
        ensures
            step@ == StepView::proceed(
                Self::payload_for_node_fault(log@),
                Self::payload_for_node_script(tenant_id, node_id, version_id, log@),
                Self::payload_for_node_output(log@),
                log@,
            ),
    {
        if log.len() == 0 {
            return ask_optional(
                sql::PAYLOAD_FOR_NODE,
                vec![Param::Id(tenant_id), Param::Id(node_id), Param::OptId(version_id)],
            );
        }
        let payload: PayloadRecord = match required(&log[0], DatabaseError::NotFound) {
            Ok(value) => value,
            Err(fault) => return stop(fault),
        };
        Step::Done(payload)
    }

    /// Every statement of `payload_for_node` is about its tenant.
    pub proof fn payload_for_node_is_scoped(
        tenant_id: Uuid, node_id: Uuid, version_id: Option<Uuid>, log: Seq<Reply>,
    )
        ensures
            crate::step::is_scoped(
                Self::payload_for_node_script(tenant_id, node_id, version_id, log),
                tenant_id,
            ),
    {
    }

    /// What stops `payload`, in order.
    pub open spec fn payload_fault(log: Seq<Reply>) -> Option<Fault> {
        if log.len() > 0 && log[0].required_row::<PayloadRecord>(DatabaseError::NotFound) is Err {
            Fault::of(log[0].required_row::<PayloadRecord>(DatabaseError::NotFound))
        } else {
            None
        }
    }

    /// The commands of `payload`, in order.
    pub open spec fn payload_script<'a>(
        tenant_id: Uuid, payload_id: Uuid, log: Seq<Reply>,
    ) -> Seq<CommandView<'a>> {
        seq![
            CommandView::optional(sql::PAYLOAD, seq![Param::Id(tenant_id), Param::Id(payload_id)]),
        ]
    }

    /// What `payload` returns.
    pub open spec fn payload_output(log: Seq<Reply>) -> PayloadRecord {
        let found = log[0].required_row::<PayloadRecord>(DatabaseError::NotFound)->Ok_0;
        found
    }

    /// One payload.
    pub fn payload<'a>(
        tenant_id: Uuid, payload_id: Uuid, log: &'a [Reply],
    ) -> (step: Step<'a, PayloadRecord>)
        ensures
            step@ == StepView::proceed(
                Self::payload_fault(log@),
                Self::payload_script(tenant_id, payload_id, log@),
                Self::payload_output(log@),
                log@,
            ),
    {
        if log.len() == 0 {
            return ask_optional(sql::PAYLOAD, vec![Param::Id(tenant_id), Param::Id(payload_id)]);
        }
        let found: PayloadRecord = match required(&log[0], DatabaseError::NotFound) {
            Ok(value) => value,
            Err(fault) => return stop(fault),
        };
        Step::Done(found)
    }

    /// Every statement of `payload` is about its tenant.
    pub proof fn payload_is_scoped(tenant_id: Uuid, payload_id: Uuid, log: Seq<Reply>)
        ensures
            crate::step::is_scoped(Self::payload_script(tenant_id, payload_id, log), tenant_id),
    {
    }

    /// What stops `complete_orphan_payload_deletion`, in order.
    pub open spec fn complete_orphan_payload_deletion_fault(log: Seq<Reply>) -> Option<Fault> {
        let payloads = log[2].row_count()->Ok_0;
        let uploads = log[3].row_count()->Ok_0;
        let reservations = log[4].row_count()->Ok_0;
        let drives = log[5].row_count()->Ok_0;
        if log.len() > 1
            && log[1].required_row::<OrphanedUpload>(DatabaseError::StaleGeneration) is Err {
            Fault::of(log[1].required_row::<OrphanedUpload>(DatabaseError::StaleGeneration))
        } else if log.len() > 2 && log[2].row_count() is Err {
            Fault::of(log[2].row_count())
        } else if log.len() > 3 && log[3].row_count() is Err {
            Fault::of(log[3].row_count())
        } else if log.len() > 4 && log[4].row_count() is Err {
            Fault::of(log[4].row_count())
        } else if log.len() > 5 && log[5].row_count() is Err {
            Fault::of(log[5].row_count())
        } else if log.len() > 5 && (payloads != 1 || uploads != 1 || reservations != 1
                || drives != 1) {
            Some(Fault::Error(DatabaseError::StaleGeneration))
        } else {
            None
        }
    }

    /// The commands of `complete_orphan_payload_deletion`, in order.
    pub open spec fn complete_orphan_payload_deletion_script<'a>(
        tenant_id: Uuid, payload_id: Uuid, log: Seq<Reply>,
    ) -> Seq<CommandView<'a>> {
        let orphan = log[1].required_row::<OrphanedUpload>(DatabaseError::StaleGeneration)->Ok_0;
        seq![
            CommandView::Begin,
            CommandView::optional(
                sql::COMPLETE_ORPHAN_PAYLOAD_DELETION_SELECT_PAYLOAD_OBJECTS,
                seq![Param::Id(tenant_id), Param::Id(payload_id)],
            ),
            CommandView::execute(
                sql::COMPLETE_ORPHAN_PAYLOAD_DELETION_UPDATE_PAYLOAD_OBJECTS,
                seq![Param::Id(tenant_id), Param::Id(payload_id)],
            ),
            CommandView::execute(
                sql::COMPLETE_ORPHAN_PAYLOAD_DELETION_UPDATE_UPLOAD_SESSIONS,
                seq![Param::Id(tenant_id), Param::Id(orphan.upload_id)],
            ),
            CommandView::execute(
                sql::COMPLETE_ORPHAN_PAYLOAD_DELETION_UPDATE_QUOTA_RESERVATIONS,
                seq![Param::Id(tenant_id), Param::Id(orphan.upload_id)],
            ),
            CommandView::execute(
                sql::COMPLETE_ORPHAN_PAYLOAD_DELETION_UPDATE_DRIVES,
                seq![
                    Param::Id(tenant_id), Param::Id(orphan.drive_id),
                    Param::I64(orphan.declared_size_bytes),
                ],
            ),
            CommandView::Commit,
        ]
    }

    /// Completes the physical deletion of a finalized upload that never committed. The payload's
    /// terminal state, the upload's fence, the reservation and the drive's accounting move
    /// together, so that a retry cannot release the same bytes twice.
    pub fn complete_orphan_payload_deletion<'a>(
        tenant_id: Uuid, payload_id: Uuid, log: &'a [Reply],
    ) -> (step: Step<'a, ()>)
        ensures
            step@ == StepView::proceed(
                Self::complete_orphan_payload_deletion_fault(log@),
                Self::complete_orphan_payload_deletion_script(tenant_id, payload_id, log@),
                (),
                log@,
            ),
    {
        if log.len() == 0 {
            return Step::Ask(Command::Begin);
        }
        if log.len() <= 1 {
            return ask_optional(
                sql::COMPLETE_ORPHAN_PAYLOAD_DELETION_SELECT_PAYLOAD_OBJECTS,
                vec![Param::Id(tenant_id), Param::Id(payload_id)],
            );
        }
        let orphan: OrphanedUpload = match required(&log[1], DatabaseError::StaleGeneration) {
            Ok(value) => value,
            Err(fault) => return stop(fault),
        };
        if log.len() <= 2 {
            return ask_execute(
                sql::COMPLETE_ORPHAN_PAYLOAD_DELETION_UPDATE_PAYLOAD_OBJECTS,
                vec![Param::Id(tenant_id), Param::Id(payload_id)],
            );
        }
        let payloads: u64 = match affected(&log[2]) {
            Ok(value) => value,
            Err(fault) => return stop(fault),
        };
        if log.len() <= 3 {
            return ask_execute(
                sql::COMPLETE_ORPHAN_PAYLOAD_DELETION_UPDATE_UPLOAD_SESSIONS,
                vec![Param::Id(tenant_id), Param::Id(orphan.upload_id)],
            );
        }
        let uploads: u64 = match affected(&log[3]) {
            Ok(value) => value,
            Err(fault) => return stop(fault),
        };
        if log.len() <= 4 {
            return ask_execute(
                sql::COMPLETE_ORPHAN_PAYLOAD_DELETION_UPDATE_QUOTA_RESERVATIONS,
                vec![Param::Id(tenant_id), Param::Id(orphan.upload_id)],
            );
        }
        let reservations: u64 = match affected(&log[4]) {
            Ok(value) => value,
            Err(fault) => return stop(fault),
        };
        if log.len() <= 5 {
            return ask_execute(
                sql::COMPLETE_ORPHAN_PAYLOAD_DELETION_UPDATE_DRIVES,
                vec![
                    Param::Id(tenant_id), Param::Id(orphan.drive_id),
                    Param::I64(orphan.declared_size_bytes),
                ],
            );
        }
        let drives: u64 = match affected(&log[5]) {
            Ok(value) => value,
            Err(fault) => return stop(fault),
        };
        if payloads != 1 || uploads != 1 || reservations != 1 || drives != 1 {
            return Step::Fail(DatabaseError::StaleGeneration);
        }
        if log.len() <= 6 {
            return Step::Ask(Command::Commit);
        }
        Step::Done(())
    }

    /// `complete_orphan_payload_deletion` runs in one transaction: it is done once its commit is
    /// acknowledged, and when it fails, nothing was committed.
    pub proof fn complete_orphan_payload_deletion_is_atomic(
        tenant_id: Uuid, payload_id: Uuid, log: Seq<Reply>,
    )
        ensures
            crate::step::is_atomic(
                Self::complete_orphan_payload_deletion_script(tenant_id, payload_id, log),
                0,
            ),
            crate::step::commit_acknowledged(
                Self::complete_orphan_payload_deletion_fault(log.drop_last()),
                Self::complete_orphan_payload_deletion_script(
                    tenant_id, payload_id, log.drop_last(),
                ),
                log,
            ) ==> {
                &&& Self::complete_orphan_payload_deletion_fault(log) is None
                &&& log.len() == Self::complete_orphan_payload_deletion_script(
                    tenant_id, payload_id, log,
                ).len()
            },
    {
    }

    /// Every statement of `complete_orphan_payload_deletion` is about its tenant.
    pub proof fn complete_orphan_payload_deletion_is_scoped(
        tenant_id: Uuid, payload_id: Uuid, log: Seq<Reply>,
    )
        ensures
            crate::step::is_scoped(
                Self::complete_orphan_payload_deletion_script(tenant_id, payload_id, log),
                tenant_id,
            ),
    {
    }

    /// What stops `expire_uploads`, in order.
    pub open spec fn expire_uploads_fault(log: Seq<Reply>) -> Option<Fault> {
        if log.len() > 1 && log[1].all_rows::<ExpiredUpload>() is Err {
            Fault::of(log[1].all_rows::<ExpiredUpload>())
        } else {
            None
        }
    }

    /// The commands of `expire_uploads`, in order.
    pub open spec fn expire_uploads_script<'a>(
        tenant_id: Uuid,
        log: Seq<Reply>,
    ) -> Seq<CommandView<'a>> {
        let expired = log[1].all_rows::<ExpiredUpload>()->Ok_0;
        seq![
            CommandView::Begin,
            CommandView::all(
                sql::EXPIRE_UPLOADS_UPDATE_UPLOAD_SESSIONS,
                seq![Param::Id(tenant_id)],
            ),
        ].add(
            Seq::new(
                expired.len() * 3,
                |at: int| {
                    let item = expired[at / 3];
                    if at % 3 == 0 {
                        CommandView::execute(
                            sql::COMPLETE_ORPHAN_PAYLOAD_DELETION_UPDATE_QUOTA_RESERVATIONS,
                            seq![Param::Id(item.tenant_id), Param::Id(item.id)],
                        )
                    } else if at % 3 == 1 {
                        CommandView::execute(
                            sql::EXPIRE_UPLOADS_UPDATE_DRIVES,
                            seq![
                                Param::Id(item.tenant_id), Param::Id(item.drive_id),
                                Param::I64(item.declared_size_bytes),
                            ],
                        )
                    } else {
                        CommandView::execute(
                            sql::EXPIRE_UPLOADS_INSERT_JOBS,
                            seq![
                                Param::Id(item.tenant_id), Param::FreshId, Param::Id(item.id),
                                Param::Label("expire:", item.id),
                                Param::Object1("upload_id", Detail::Id(item.id)),
                            ],
                        )
                    }
                },
            ),
        ).add(seq![CommandView::Commit])
    }

    /// What `expire_uploads` returns.
    pub open spec fn expire_uploads_output(log: Seq<Reply>) -> u64 {
        let expired = log[1].all_rows::<ExpiredUpload>()->Ok_0;
        expired.len() as u64
    }

    /// Ends every upload whose time has run out: its reservation is released, the drive gets its
    /// bytes back, and a job cleans up after it. Returns how many there were.
    pub fn expire_uploads<'a>(tenant_id: Uuid, log: &'a [Reply]) -> (step: Step<'a, u64>)
        ensures
            step@ == StepView::proceed(
                Self::expire_uploads_fault(log@),
                Self::expire_uploads_script(tenant_id, log@),
                Self::expire_uploads_output(log@),
                log@,
            ),
    {
        if log.len() == 0 {
            return Step::Ask(Command::Begin);
        }
        if log.len() <= 1 {
            return ask_all(
                sql::EXPIRE_UPLOADS_UPDATE_UPLOAD_SESSIONS,
                vec![Param::Id(tenant_id)],
            );
        }
        let expired: Vec<ExpiredUpload> = match many::<ExpiredUpload>(&log[1]) {
            Ok(value) => value,
            Err(fault) => return stop(fault),
        };
        let items: usize = expired.len();
        if (log.len() - 2) / 3 < items {
            let j: usize = (log.len() - 2) / 3;
            let item: ExpiredUpload = expired[j];
            let turn: usize = (log.len() - 2) % 3;
            if turn == 0 {
                return ask_execute(
                    sql::COMPLETE_ORPHAN_PAYLOAD_DELETION_UPDATE_QUOTA_RESERVATIONS,
                    vec![Param::Id(item.tenant_id), Param::Id(item.id)],
                );
            }
            if turn == 1 {
                return ask_execute(
                    sql::EXPIRE_UPLOADS_UPDATE_DRIVES,
                    vec![
                        Param::Id(item.tenant_id), Param::Id(item.drive_id),
                        Param::I64(item.declared_size_bytes),
                    ],
                );
            }
            return ask_execute(
                sql::EXPIRE_UPLOADS_INSERT_JOBS,
                vec![
                    Param::Id(item.tenant_id), Param::FreshId, Param::Id(item.id),
                    Param::Label("expire:", item.id),
                    Param::Object1("upload_id", Detail::Id(item.id)),
                ],
            );
        }
        let at: usize = 2 + items * 3;
        if log.len() <= at {
            return Step::Ask(Command::Commit);
        }
        Step::Done(expired.len() as u64)
    }

    /// `expire_uploads` runs in one transaction: it is done once its commit is acknowledged, and
    /// when it fails, nothing was committed.
    pub proof fn expire_uploads_is_atomic(tenant_id: Uuid, log: Seq<Reply>)
        ensures
            crate::step::is_atomic(Self::expire_uploads_script(tenant_id, log), 0),
            crate::step::commit_acknowledged(
                Self::expire_uploads_fault(log.drop_last()),
                Self::expire_uploads_script(tenant_id, log.drop_last()),
                log,
            ) ==> {
                &&& Self::expire_uploads_fault(log) is None
                &&& log.len() == Self::expire_uploads_script(tenant_id, log).len()
            },
    {
    }

    /// Every statement of `expire_uploads` is about its tenant, where the uploads that it has ended
    /// are the tenant's.
    pub proof fn expire_uploads_is_scoped(tenant_id: Uuid, log: Seq<Reply>)
        requires
            forall|j: int|
                #![trigger log[1].all_rows::<ExpiredUpload>()->Ok_0[j]]
                0 <= j < log[1].all_rows::<ExpiredUpload>()->Ok_0.len()
                    ==> log[1].all_rows::<ExpiredUpload>()->Ok_0[j].tenant_id == tenant_id,
        ensures
            crate::step::is_scoped(Self::expire_uploads_script(tenant_id, log), tenant_id),
    {
        let expired = log[1].all_rows::<ExpiredUpload>()->Ok_0;
        let script = Self::expire_uploads_script(tenant_id, log);
        assert forall|i: int| 0 <= i < script.len() implies crate::step::binds_tenant(
            #[trigger] script[i],
            tenant_id,
        ) by {
            if 2 <= i < script.len() - 1 {
                assert(0 <= (i - 2) / 3 < expired.len());
                assert(expired[(i - 2) / 3].tenant_id == tenant_id);
            }
        }
    }
}

} // verus!
