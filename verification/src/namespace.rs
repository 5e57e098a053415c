//! Drives, nodes and file versions.

use std::sync::Arc;

use vstd::prelude::*;

use crate::database::Database;
use crate::error::DatabaseError;
use crate::error::Fault;
use crate::fence::FenceGenerations;
use crate::id::Uuid;
use crate::row::FromRow;
use crate::row::Reply;
use crate::row::Row;
use crate::row::drawn;
use crate::row::many;
use crate::row::required;
use crate::row::single;
use crate::sql::catalog as sql;
use crate::step::Command;
use crate::step::CommandView;
use crate::step::Detail;
use crate::step::Envelope;
use crate::step::ErrorRule;
use crate::step::Fetch;
use crate::step::Param;
use crate::step::Step;
use crate::step::StepView;
use crate::step::ask;
use crate::step::ask_all;
use crate::step::ask_execute;
use crate::step::ask_one;
use crate::step::ask_optional;
use crate::step::stop;
use crate::step::stop_deep;
use crate::step::stop_list;

verus! {

/// A drive with what it has used of its quota.
#[derive(Debug)]
pub struct DriveRecord {
    pub id: Uuid,
    pub owner_principal_id: Uuid,
    pub kind: String,
    pub display_name: String,
    pub root_id: Uuid,
    pub namespace_generation: i64,
    pub acl_generation: i64,
    pub quota_bytes: i64,
    pub used_physical_bytes: i64,
    pub reserved_bytes: i64,
    pub owner_display_name: String,
}

impl DriveRecord {
    /// What a row holds, read by its column names.
    #[verifier::opaque]
    pub open spec fn of_row(row: Row) -> Result<DriveRecord, Fault> {
        if row.column::<Uuid>("id"@) is Some
            && row.column::<Uuid>("owner_principal_id"@) is Some
            && row.column::<String>("kind"@) is Some
            && row.column::<String>("display_name"@) is Some
            && row.column::<Uuid>("root_id"@) is Some
            && row.column::<i64>("namespace_generation"@) is Some
            && row.column::<i64>("acl_generation"@) is Some
            && row.column::<i64>("quota_bytes"@) is Some
            && row.column::<i64>("used_physical_bytes"@) is Some
            && row.column::<i64>("reserved_bytes"@) is Some
            && row.column::<String>("owner_display_name"@) is Some {
            Ok(
                DriveRecord {
                    id: row.column::<Uuid>("id"@)->0,
                    owner_principal_id: row.column::<Uuid>("owner_principal_id"@)->0,
                    kind: row.column::<String>("kind"@)->0,
                    display_name: row.column::<String>("display_name"@)->0,
                    root_id: row.column::<Uuid>("root_id"@)->0,
                    namespace_generation: row.column::<i64>("namespace_generation"@)->0,
                    acl_generation: row.column::<i64>("acl_generation"@)->0,
                    quota_bytes: row.column::<i64>("quota_bytes"@)->0,
                    used_physical_bytes: row.column::<i64>("used_physical_bytes"@)->0,
                    reserved_bytes: row.column::<i64>("reserved_bytes"@)->0,
                    owner_display_name: row.column::<String>("owner_display_name"@)->0,
                },
            )
        } else {
            Err(Fault::Malformed)
        }
    }
}

impl FromRow for DriveRecord {
    open spec fn row_spec(row: Row) -> Result<DriveRecord, Fault> {
        DriveRecord::of_row(row)
    }

    fn from_row(row: &Row) -> (r: Result<DriveRecord, Fault>) {
        proof {
            reveal(DriveRecord::of_row);
        }
        let id: Uuid = match row.get("id") {
            Some(v) => v,
            None => return Err(Fault::Malformed),
        };
        let owner_principal_id: Uuid = match row.get("owner_principal_id") {
            Some(v) => v,
            None => return Err(Fault::Malformed),
        };
        let kind: String = match row.get("kind") {
            Some(v) => v,
            None => return Err(Fault::Malformed),
        };
        let display_name: String = match row.get("display_name") {
            Some(v) => v,
            None => return Err(Fault::Malformed),
        };
        let root_id: Uuid = match row.get("root_id") {
            Some(v) => v,
            None => return Err(Fault::Malformed),
        };
        let namespace_generation: i64 = match row.get("namespace_generation") {
            Some(v) => v,
            None => return Err(Fault::Malformed),
        };
        let acl_generation: i64 = match row.get("acl_generation") {
            Some(v) => v,
            None => return Err(Fault::Malformed),
        };
        let quota_bytes: i64 = match row.get("quota_bytes") {
            Some(v) => v,
            None => return Err(Fault::Malformed),
        };
        let used_physical_bytes: i64 = match row.get("used_physical_bytes") {
            Some(v) => v,
            None => return Err(Fault::Malformed),
        };
        let reserved_bytes: i64 = match row.get("reserved_bytes") {
            Some(v) => v,
            None => return Err(Fault::Malformed),
        };
        let owner_display_name: String = match row.get("owner_display_name") {
            Some(v) => v,
            None => return Err(Fault::Malformed),
        };
        Ok(DriveRecord {
            id, owner_principal_id, kind, display_name, root_id, namespace_generation,
            acl_generation, quota_bytes, used_physical_bytes, reserved_bytes,
            owner_display_name,
        })
    }
}

/// A file or directory. It is trashed where it lies under a trashed root.
#[derive(Debug)]
pub struct NodeRecord {
    pub id: Uuid,
    pub drive_id: Uuid,
    pub parent_id: Option<Uuid>,
    pub kind: String,
    pub display_name: String,
    pub name_key: String,
    pub head_version_id: Option<Uuid>,
    pub namespace_generation: i64,
    pub acl_generation: i64,
    pub trashed: bool,
    pub updated_at: String,
    pub size_bytes: Option<i64>,
    pub version_ordinal: Option<i64>,
    pub head_media_type: Option<String>,
}

impl NodeRecord {
    /// What a row holds, read by its column names.
    #[verifier::opaque]
    pub open spec fn of_row(row: Row) -> Result<NodeRecord, Fault> {
        if row.column::<Uuid>("id"@) is Some
            && row.column::<Uuid>("drive_id"@) is Some
            && row.column::<Option<Uuid>>("parent_id"@) is Some
            && row.column::<String>("kind"@) is Some
            && row.column::<String>("display_name"@) is Some
            && row.column::<String>("name_key"@) is Some
            && row.column::<Option<Uuid>>("head_version_id"@) is Some
            && row.column::<i64>("namespace_generation"@) is Some
            && row.column::<i64>("acl_generation"@) is Some
            && row.column::<Option<Uuid>>("trash_root_id"@) is Some
            && row.column::<String>("updated_at_text"@) is Some
            && row.column::<Option<i64>>("size_bytes"@) is Some
            && row.column::<Option<i64>>("version_ordinal"@) is Some
            && row.column::<Option<String>>("head_media_type"@) is Some {
            Ok(
                NodeRecord {
                    id: row.column::<Uuid>("id"@)->0,
                    drive_id: row.column::<Uuid>("drive_id"@)->0,
                    parent_id: row.column::<Option<Uuid>>("parent_id"@)->0,
                    kind: row.column::<String>("kind"@)->0,
                    display_name: row.column::<String>("display_name"@)->0,
                    name_key: row.column::<String>("name_key"@)->0,
                    head_version_id: row.column::<Option<Uuid>>("head_version_id"@)->0,
                    namespace_generation: row.column::<i64>("namespace_generation"@)->0,
                    acl_generation: row.column::<i64>("acl_generation"@)->0,
                    trashed: row.column::<Option<Uuid>>("trash_root_id"@)->0 is Some,
                    updated_at: row.column::<String>("updated_at_text"@)->0,
                    size_bytes: row.column::<Option<i64>>("size_bytes"@)->0,
                    version_ordinal: row.column::<Option<i64>>("version_ordinal"@)->0,
                    head_media_type: row.column::<Option<String>>("head_media_type"@)->0,
                },
            )
        } else {
            Err(Fault::Malformed)
        }
    }
}

impl FromRow for NodeRecord {
    open spec fn row_spec(row: Row) -> Result<NodeRecord, Fault> {
        NodeRecord::of_row(row)
    }

    fn from_row(row: &Row) -> (r: Result<NodeRecord, Fault>) {
        proof {
            reveal(NodeRecord::of_row);
        }
        let id: Uuid = match row.get("id") {
            Some(v) => v,
            None => return Err(Fault::Malformed),
        };
        let drive_id: Uuid = match row.get("drive_id") {
            Some(v) => v,
            None => return Err(Fault::Malformed),
        };
        let parent_id: Option<Uuid> = match row.get("parent_id") {
            Some(v) => v,
            None => return Err(Fault::Malformed),
        };
        let kind: String = match row.get("kind") {
            Some(v) => v,
            None => return Err(Fault::Malformed),
        };
        let display_name: String = match row.get("display_name") {
            Some(v) => v,
            None => return Err(Fault::Malformed),
        };
        let name_key: String = match row.get("name_key") {
            Some(v) => v,
            None => return Err(Fault::Malformed),
        };
        let head_version_id: Option<Uuid> = match row.get("head_version_id") {
            Some(v) => v,
            None => return Err(Fault::Malformed),
        };
        let namespace_generation: i64 = match row.get("namespace_generation") {
            Some(v) => v,
            None => return Err(Fault::Malformed),
        };
        let acl_generation: i64 = match row.get("acl_generation") {
            Some(v) => v,
            None => return Err(Fault::Malformed),
        };
        let trashed: bool = match row.get::<Option<Uuid>>("trash_root_id") {
            Some(v) => v.is_some(),
            None => return Err(Fault::Malformed),
        };
        let updated_at: String = match row.get("updated_at_text") {
            Some(v) => v,
            None => return Err(Fault::Malformed),
        };
        let size_bytes: Option<i64> = match row.get("size_bytes") {
            Some(v) => v,
            None => return Err(Fault::Malformed),
        };
        let version_ordinal: Option<i64> = match row.get("version_ordinal") {
            Some(v) => v,
            None => return Err(Fault::Malformed),
        };
        let head_media_type: Option<String> = match row.get("head_media_type") {
            Some(v) => v,
            None => return Err(Fault::Malformed),
        };
        Ok(NodeRecord {
            id, drive_id, parent_id, kind, display_name, name_key, head_version_id,
            namespace_generation, acl_generation, trashed, updated_at, size_bytes,
            version_ordinal, head_media_type,
        })
    }
}

/// A version of a file.
#[derive(Debug)]
pub struct FileVersionRecord {
    pub id: Uuid,
    pub node_id: Uuid,
    pub ordinal: i64,
    pub size_bytes: i64,
    pub created_by: Uuid,
    pub restored_from_version_id: Option<Uuid>,
    pub created_at: String,
    pub current: bool,
    pub media_type: Option<String>,
    pub origin_kind: String,
    pub source_version_id: Option<Uuid>,
    pub creator_display_name: Option<String>,
    pub mcp_assisted: bool,
}

/// What a [`FileVersionRecord`] holds.
#[verifier::ext_equal]
pub struct FileVersionRecordView {
    pub id: Uuid,
    pub node_id: Uuid,
    pub ordinal: i64,
    pub size_bytes: i64,
    pub created_by: Uuid,
    pub restored_from_version_id: Option<Uuid>,
    pub created_at: Seq<char>,
    pub current: bool,
    pub media_type: Option<Seq<char>>,
    pub origin_kind: Seq<char>,
    pub source_version_id: Option<Uuid>,
    pub creator_display_name: Option<Seq<char>>,
    pub mcp_assisted: bool,
}

impl View for FileVersionRecord {
    type V = FileVersionRecordView;

    open spec fn view(&self) -> FileVersionRecordView {
        FileVersionRecordView {
            id: self.id,
            node_id: self.node_id,
            ordinal: self.ordinal,
            size_bytes: self.size_bytes,
            created_by: self.created_by,
            restored_from_version_id: self.restored_from_version_id,
            created_at: self.created_at@,
            current: self.current,
            media_type: match self.media_type {
                Some(value) => Some(value@),
                None => None,
            },
            origin_kind: self.origin_kind@,
            source_version_id: self.source_version_id,
            creator_display_name: match self.creator_display_name {
                Some(value) => Some(value@),
                None => None,
            },
            mcp_assisted: self.mcp_assisted,
        }
    }
}

impl FileVersionRecord {
    /// What a row holds, read by its column names.
    #[verifier::opaque]
    pub open spec fn of_row(row: Row) -> Result<FileVersionRecord, Fault> {
        if row.column::<Uuid>("id"@) is Some
            && row.column::<Uuid>("node_id"@) is Some
            && row.column::<i64>("ordinal"@) is Some
            && row.column::<i64>("size_bytes"@) is Some
            && row.column::<Uuid>("created_by"@) is Some
            && row.column::<Option<Uuid>>("restored_from_version_id"@) is Some
            && row.column::<String>("created_at"@) is Some
            && row.column::<bool>("current"@) is Some
            && row.column::<Option<String>>("media_type"@) is Some
            && row.column::<String>("origin_kind"@) is Some
            && row.column::<Option<Uuid>>("source_version_id"@) is Some
            && row.column::<Option<String>>("creator_display_name"@) is Some
            && row.column::<bool>("mcp_assisted"@) is Some {
            Ok(
                FileVersionRecord {
                    id: row.column::<Uuid>("id"@)->0,
                    node_id: row.column::<Uuid>("node_id"@)->0,
                    ordinal: row.column::<i64>("ordinal"@)->0,
                    size_bytes: row.column::<i64>("size_bytes"@)->0,
                    created_by: row.column::<Uuid>("created_by"@)->0,
                    restored_from_version_id: row.column::<Option<Uuid>>(
                        "restored_from_version_id"@,
                    )->0,
                    created_at: row.column::<String>("created_at"@)->0,
                    current: row.column::<bool>("current"@)->0,
                    media_type: row.column::<Option<String>>("media_type"@)->0,
                    origin_kind: row.column::<String>("origin_kind"@)->0,
                    source_version_id: row.column::<Option<Uuid>>("source_version_id"@)->0,
                    creator_display_name: row.column::<Option<String>>("creator_display_name"@)->0,
                    mcp_assisted: row.column::<bool>("mcp_assisted"@)->0,
                },
            )
        } else {
            Err(Fault::Malformed)
        }
    }
}

impl FromRow for FileVersionRecord {
    open spec fn row_spec(row: Row) -> Result<FileVersionRecord, Fault> {
        FileVersionRecord::of_row(row)
    }

    fn from_row(row: &Row) -> (r: Result<FileVersionRecord, Fault>) {
        proof {
            reveal(FileVersionRecord::of_row);
        }
        let id: Uuid = match row.get("id") {
            Some(v) => v,
            None => return Err(Fault::Malformed),
        };
        let node_id: Uuid = match row.get("node_id") {
            Some(v) => v,
            None => return Err(Fault::Malformed),
        };
        let ordinal: i64 = match row.get("ordinal") {
            Some(v) => v,
            None => return Err(Fault::Malformed),
        };
        let size_bytes: i64 = match row.get("size_bytes") {
            Some(v) => v,
            None => return Err(Fault::Malformed),
        };
        let created_by: Uuid = match row.get("created_by") {
            Some(v) => v,
            None => return Err(Fault::Malformed),
        };
        let restored_from_version_id: Option<Uuid> = match row.get("restored_from_version_id") {
            Some(v) => v,
            None => return Err(Fault::Malformed),
        };
        let created_at: String = match row.get("created_at") {
            Some(v) => v,
            None => return Err(Fault::Malformed),
        };
        let current: bool = match row.get("current") {
            Some(v) => v,
            None => return Err(Fault::Malformed),
        };
        let media_type: Option<String> = match row.get("media_type") {
            Some(v) => v,
            None => return Err(Fault::Malformed),
        };
        let origin_kind: String = match row.get("origin_kind") {
            Some(v) => v,
            None => return Err(Fault::Malformed),
        };
        let source_version_id: Option<Uuid> = match row.get("source_version_id") {
            Some(v) => v,
            None => return Err(Fault::Malformed),
        };
        let creator_display_name: Option<String> = match row.get("creator_display_name") {
            Some(v) => v,
            None => return Err(Fault::Malformed),
        };
        let mcp_assisted: bool = match row.get("mcp_assisted") {
            Some(v) => v,
            None => return Err(Fault::Malformed),
        };
        Ok(FileVersionRecord {
            id, node_id, ordinal, size_bytes, created_by, restored_from_version_id, created_at,
            current, media_type, origin_kind, source_version_id, creator_display_name,
            mcp_assisted,
        })
    }
}

/// The version that is to be restored, and the head that it would replace.
#[derive(Debug)]
pub struct RestoreSource {
    pub payload_id: Uuid,
    pub size_bytes: i64,
    pub blake3: Arc<Vec<u8>>,
    pub media_type: Option<String>,
    pub head_version_id: Option<Uuid>,
}

impl RestoreSource {
    /// What a row holds, read by its column names.
    #[verifier::opaque]
    pub open spec fn of_row(row: Row) -> Result<RestoreSource, Fault> {
        if row.column::<Uuid>("payload_id"@) is Some
            && row.column::<i64>("size_bytes"@) is Some
            && row.column::<Arc<Vec<u8>>>("blake3"@) is Some
            && row.column::<Option<String>>("media_type"@) is Some
            && row.column::<Option<Uuid>>("head_version_id"@) is Some {
            Ok(
                RestoreSource {
                    payload_id: row.column::<Uuid>("payload_id"@)->0,
                    size_bytes: row.column::<i64>("size_bytes"@)->0,
                    blake3: row.column::<Arc<Vec<u8>>>("blake3"@)->0,
                    media_type: row.column::<Option<String>>("media_type"@)->0,
                    head_version_id: row.column::<Option<Uuid>>("head_version_id"@)->0,
                },
            )
        } else {
            Err(Fault::Malformed)
        }
    }
}

impl FromRow for RestoreSource {
    open spec fn row_spec(row: Row) -> Result<RestoreSource, Fault> {
        RestoreSource::of_row(row)
    }

    fn from_row(row: &Row) -> (r: Result<RestoreSource, Fault>) {
        proof {
            reveal(RestoreSource::of_row);
        }
        let payload_id: Uuid = match row.get("payload_id") {
            Some(v) => v,
            None => return Err(Fault::Malformed),
        };
        let size_bytes: i64 = match row.get("size_bytes") {
            Some(v) => v,
            None => return Err(Fault::Malformed),
        };
        let blake3: Arc<Vec<u8>> = match row.get("blake3") {
            Some(v) => v,
            None => return Err(Fault::Malformed),
        };
        let media_type: Option<String> = match row.get("media_type") {
            Some(v) => v,
            None => return Err(Fault::Malformed),
        };
        let head_version_id: Option<Uuid> = match row.get("head_version_id") {
            Some(v) => v,
            None => return Err(Fault::Malformed),
        };
        Ok(RestoreSource { payload_id, size_bytes, blake3, media_type, head_version_id })
    }
}

/// What the database adds to a restored version.
#[derive(Debug)]
pub struct RestoredVersion {
    pub created_at: String,
    pub creator_display_name: Option<String>,
}

impl RestoredVersion {
    /// What a row holds, read by its column names.
    #[verifier::opaque]
    pub open spec fn of_row(row: Row) -> Result<RestoredVersion, Fault> {
        if row.column::<String>("created_at"@) is Some
            && row.column::<Option<String>>("creator_display_name"@) is Some {
            Ok(
                RestoredVersion {
                    created_at: row.column::<String>("created_at"@)->0,
                    creator_display_name: row.column::<Option<String>>("creator_display_name"@)->0,
                },
            )
        } else {
            Err(Fault::Malformed)
        }
    }
}

impl FromRow for RestoredVersion {
    open spec fn row_spec(row: Row) -> Result<RestoredVersion, Fault> {
        RestoredVersion::of_row(row)
    }

    fn from_row(row: &Row) -> (r: Result<RestoredVersion, Fault>) {
        proof {
            reveal(RestoredVersion::of_row);
        }
        let created_at: String = match row.get("created_at") {
            Some(v) => v,
            None => return Err(Fault::Malformed),
        };
        let creator_display_name: Option<String> = match row.get("creator_display_name") {
            Some(v) => v,
            None => return Err(Fault::Malformed),
        };
        Ok(RestoredVersion { created_at, creator_display_name })
    }
}

/// A node that is to be trashed or restored.
#[derive(Clone, Copy, Debug, PartialEq, Eq, Structural)]
pub struct TrashCandidate {
    pub parent_id: Option<Uuid>,
    pub namespace_generation: i64,
    pub trash_root_id: Option<Uuid>,
    pub trash_retention_days: i32,
}

impl TrashCandidate {
    /// What a row holds, read by its column names.
    #[verifier::opaque]
    pub open spec fn of_row(row: Row) -> Result<TrashCandidate, Fault> {
        if row.column::<Option<Uuid>>("parent_id"@) is Some
            && row.column::<i64>("namespace_generation"@) is Some
            && row.column::<Option<Uuid>>("trash_root_id"@) is Some
            && row.column::<i32>("trash_retention_days"@) is Some {
            Ok(
                TrashCandidate {
                    parent_id: row.column::<Option<Uuid>>("parent_id"@)->0,
                    namespace_generation: row.column::<i64>("namespace_generation"@)->0,
                    trash_root_id: row.column::<Option<Uuid>>("trash_root_id"@)->0,
                    trash_retention_days: row.column::<i32>("trash_retention_days"@)->0,
                },
            )
        } else {
            Err(Fault::Malformed)
        }
    }
}

impl FromRow for TrashCandidate {
    open spec fn row_spec(row: Row) -> Result<TrashCandidate, Fault> {
        TrashCandidate::of_row(row)
    }

    fn from_row(row: &Row) -> (r: Result<TrashCandidate, Fault>) {
        proof {
            reveal(TrashCandidate::of_row);
        }
        let parent_id: Option<Uuid> = match row.get("parent_id") {
            Some(v) => v,
            None => return Err(Fault::Malformed),
        };
        let namespace_generation: i64 = match row.get("namespace_generation") {
            Some(v) => v,
            None => return Err(Fault::Malformed),
        };
        let trash_root_id: Option<Uuid> = match row.get("trash_root_id") {
            Some(v) => v,
            None => return Err(Fault::Malformed),
        };
        let trash_retention_days: i32 = match row.get("trash_retention_days") {
            Some(v) => v,
            None => return Err(Fault::Malformed),
        };
        Ok(TrashCandidate { 
            parent_id, namespace_generation, trash_root_id, trash_retention_days,
         })
    }
}

impl TrashCandidate {
    /// Whether the node can change its trash state: it is at the expected generation, is no
    /// root, and is live when it is to be trashed, or is the root of what was trashed when it
    /// is to be restored.
    pub open spec fn may_change(
        self, node_id: Uuid, expected_generation: i64, trash: bool,
    ) -> bool {
        &&& self.namespace_generation == expected_generation
        &&& self.parent_id is Some
        &&& trash ==> self.trash_root_id is None
        &&& !trash ==> self.trash_root_id == Some(node_id)
    }

    /// Whether the node can change its trash state.
    pub fn can_change(self, node_id: Uuid, expected_generation: i64, trash: bool) -> (r: bool)
        ensures
            r == self.may_change(node_id, expected_generation, trash),
    {
        self.namespace_generation == expected_generation && self.parent_id.is_some() && (if trash {
            self.trash_root_id.is_none()
        } else {
            self.trash_root_id == Some(node_id)
        })
    }
}

impl Database {

    /// What stops `list_drives`, in order.
    pub open spec fn list_drives_fault(log: Seq<Reply>) -> Option<Fault> {
        if log.len() > 0 && log[0].all_rows::<DriveRecord>() is Err {
            Fault::of(log[0].all_rows::<DriveRecord>())
        } else {
            None
        }
    }

    /// The commands of `list_drives`, in order.
    pub open spec fn list_drives_script<'a>(
        tenant_id: Uuid, principal_id: Uuid, log: Seq<Reply>,
    ) -> Seq<CommandView<'a>> {
        seq![
            CommandView::all(
                sql::LIST_DRIVES,
                seq![Param::Id(tenant_id), Param::Id(principal_id)],
            ),
        ]
    }

    /// What `list_drives` returns.
    pub open spec fn list_drives_output(log: Seq<Reply>) -> Seq<DriveRecord> {
        let drives = log[0].all_rows::<DriveRecord>()->Ok_0;
        drives
    }

    /// The drives that a principal sees.
    pub fn list_drives<'a>(
        tenant_id: Uuid, principal_id: Uuid, log: &'a [Reply],
    ) -> (step: Step<'a, Vec<DriveRecord>>)
        ensures
            step.list() == StepView::proceed(
                Self::list_drives_fault(log@),
                Self::list_drives_script(tenant_id, principal_id, log@),
                Self::list_drives_output(log@),
                log@,
            ),
    {
        if log.len() == 0 {
            return ask_all(sql::LIST_DRIVES, vec![Param::Id(tenant_id), Param::Id(principal_id)]);
        }
        let drives: Vec<DriveRecord> = match many::<DriveRecord>(&log[0]) {
            Ok(value) => value,
            Err(fault) => return stop_list(fault),
        };
        Step::Done(drives)
    }

    /// Every statement of `list_drives` is about its tenant.
    pub proof fn list_drives_is_scoped(tenant_id: Uuid, principal_id: Uuid, log: Seq<Reply>)
        ensures
            crate::step::is_scoped(
                Self::list_drives_script(tenant_id, principal_id, log),
                tenant_id,
            ),
    {
    }

    /// What stops `node`, in order.
    pub open spec fn node_fault(log: Seq<Reply>) -> Option<Fault> {
        if log.len() > 0 && log[0].required_row::<NodeRecord>(DatabaseError::NotFound) is Err {
            Fault::of(log[0].required_row::<NodeRecord>(DatabaseError::NotFound))
        } else {
            None
        }
    }

    /// The commands of `node`, in order.
    pub open spec fn node_script<'a>(
        tenant_id: Uuid, drive_id: Uuid, node_id: Uuid, log: Seq<Reply>,
    ) -> Seq<CommandView<'a>> {
        seq![
            CommandView::optional(
                sql::NODE,
                seq![Param::Id(tenant_id), Param::Id(drive_id), Param::Id(node_id)],
            ),
        ]
    }

    /// What `node` returns.
    pub open spec fn node_output(log: Seq<Reply>) -> NodeRecord {
        let node = log[0].required_row::<NodeRecord>(DatabaseError::NotFound)->Ok_0;
        node
    }

    /// One node.
    pub fn node<'a>(
        tenant_id: Uuid, drive_id: Uuid, node_id: Uuid, log: &'a [Reply],
    ) -> (step: Step<'a, NodeRecord>)
        ensures
            step@ == StepView::proceed(
                Self::node_fault(log@),
                Self::node_script(tenant_id, drive_id, node_id, log@),
                Self::node_output(log@),
                log@,
            ),
    {
        if log.len() == 0 {
            return ask_optional(
                sql::NODE,
                vec![Param::Id(tenant_id), Param::Id(drive_id), Param::Id(node_id)],
            );
        }
        let node: NodeRecord = match required::<NodeRecord>(&log[0], DatabaseError::NotFound) {
            Ok(value) => value,
            Err(fault) => return stop(fault),
        };
        Step::Done(node)
    }

    /// Every statement of `node` is about its tenant.
    pub proof fn node_is_scoped(tenant_id: Uuid, drive_id: Uuid, node_id: Uuid, log: Seq<Reply>)
        ensures
            crate::step::is_scoped(Self::node_script(tenant_id, drive_id, node_id, log), tenant_id),
    {
    }

    /// What stops `list_children`, in order.
    pub open spec fn list_children_fault(log: Seq<Reply>) -> Option<Fault> {
        if log.len() > 0 && log[0].all_rows::<NodeRecord>() is Err {
            Fault::of(log[0].all_rows::<NodeRecord>())
        } else {
            None
        }
    }

    /// The commands of `list_children`, in order.
    pub open spec fn list_children_script<'a>(
        tenant_id: Uuid, drive_id: Uuid, parent_id: Uuid, log: Seq<Reply>,
    ) -> Seq<CommandView<'a>> {
        seq![
            CommandView::all(
                sql::LIST_CHILDREN,
                seq![Param::Id(tenant_id), Param::Id(drive_id), Param::Id(parent_id)],
            ),
        ]
    }

    /// What `list_children` returns.
    pub open spec fn list_children_output(log: Seq<Reply>) -> Seq<NodeRecord> {
        let nodes = log[0].all_rows::<NodeRecord>()->Ok_0;
        nodes
    }

    /// The live nodes in a directory.
    pub fn list_children<'a>(
        tenant_id: Uuid, drive_id: Uuid, parent_id: Uuid, log: &'a [Reply],
    ) -> (step: Step<'a, Vec<NodeRecord>>)
        ensures
            step.list() == StepView::proceed(
                Self::list_children_fault(log@),
                Self::list_children_script(tenant_id, drive_id, parent_id, log@),
                Self::list_children_output(log@),
                log@,
            ),
    {
        if log.len() == 0 {
            return ask_all(
                sql::LIST_CHILDREN,
                vec![Param::Id(tenant_id), Param::Id(drive_id), Param::Id(parent_id)],
            );
        }
        let nodes: Vec<NodeRecord> = match many::<NodeRecord>(&log[0]) {
            Ok(value) => value,
            Err(fault) => return stop_list(fault),
        };
        Step::Done(nodes)
    }

    /// Every statement of `list_children` is about its tenant.
    pub proof fn list_children_is_scoped(
        tenant_id: Uuid, drive_id: Uuid, parent_id: Uuid, log: Seq<Reply>,
    )
        ensures
            crate::step::is_scoped(
                Self::list_children_script(tenant_id, drive_id, parent_id, log),
                tenant_id,
            ),
    {
    }

    /// What stops `list_trashed_nodes`, in order.
    pub open spec fn list_trashed_nodes_fault(log: Seq<Reply>) -> Option<Fault> {
        if log.len() > 0 && log[0].all_rows::<NodeRecord>() is Err {
            Fault::of(log[0].all_rows::<NodeRecord>())
        } else {
            None
        }
    }

    /// The commands of `list_trashed_nodes`, in order.
    pub open spec fn list_trashed_nodes_script<'a>(
        tenant_id: Uuid, drive_id: Uuid, log: Seq<Reply>,
    ) -> Seq<CommandView<'a>> {
        seq![
            CommandView::all(
                sql::LIST_TRASHED_NODES,
                seq![Param::Id(tenant_id), Param::Id(drive_id)],
            ),
        ]
    }

    /// What `list_trashed_nodes` returns.
    pub open spec fn list_trashed_nodes_output(log: Seq<Reply>) -> Seq<NodeRecord> {
        let nodes = log[0].all_rows::<NodeRecord>()->Ok_0;
        nodes
    }

    /// The trashed roots of a drive.
    pub fn list_trashed_nodes<'a>(
        tenant_id: Uuid, drive_id: Uuid, log: &'a [Reply],
    ) -> (step: Step<'a, Vec<NodeRecord>>)
        ensures
            step.list() == StepView::proceed(
                Self::list_trashed_nodes_fault(log@),
                Self::list_trashed_nodes_script(tenant_id, drive_id, log@),
                Self::list_trashed_nodes_output(log@),
                log@,
            ),
    {
        if log.len() == 0 {
            return ask_all(
                sql::LIST_TRASHED_NODES,
                vec![Param::Id(tenant_id), Param::Id(drive_id)],
            );
        }
        let nodes: Vec<NodeRecord> = match many::<NodeRecord>(&log[0]) {
            Ok(value) => value,
            Err(fault) => return stop_list(fault),
        };
        Step::Done(nodes)
    }

    /// Every statement of `list_trashed_nodes` is about its tenant.
    pub proof fn list_trashed_nodes_is_scoped(tenant_id: Uuid, drive_id: Uuid, log: Seq<Reply>)
        ensures
            crate::step::is_scoped(
                Self::list_trashed_nodes_script(tenant_id, drive_id, log),
                tenant_id,
            ),
    {
    }

    /// What stops `list_shared_nodes`, in order.
    pub open spec fn list_shared_nodes_fault(log: Seq<Reply>) -> Option<Fault> {
        if log.len() > 0 && log[0].all_rows::<NodeRecord>() is Err {
            Fault::of(log[0].all_rows::<NodeRecord>())
        } else {
            None
        }
    }

    /// The commands of `list_shared_nodes`, in order.
    pub open spec fn list_shared_nodes_script<'a>(
        tenant_id: Uuid, principal_id: Uuid, log: Seq<Reply>,
    ) -> Seq<CommandView<'a>> {
        seq![
            CommandView::all(
                sql::LIST_SHARED_NODES,
                seq![Param::Id(tenant_id), Param::Id(principal_id)],
            ),
        ]
    }

    /// What `list_shared_nodes` returns.
    pub open spec fn list_shared_nodes_output(log: Seq<Reply>) -> Seq<NodeRecord> {
        let nodes = log[0].all_rows::<NodeRecord>()->Ok_0;
        nodes
    }

    /// The nodes that others share with a principal.
    pub fn list_shared_nodes<'a>(
        tenant_id: Uuid, principal_id: Uuid, log: &'a [Reply],
    ) -> (step: Step<'a, Vec<NodeRecord>>)
        ensures
            step.list() == StepView::proceed(
                Self::list_shared_nodes_fault(log@),
                Self::list_shared_nodes_script(tenant_id, principal_id, log@),
                Self::list_shared_nodes_output(log@),
                log@,
            ),
    {
        if log.len() == 0 {
            return ask_all(
                sql::LIST_SHARED_NODES,
                vec![Param::Id(tenant_id), Param::Id(principal_id)],
            );
        }
        let nodes: Vec<NodeRecord> = match many::<NodeRecord>(&log[0]) {
            Ok(value) => value,
            Err(fault) => return stop_list(fault),
        };
        Step::Done(nodes)
    }

    /// Every statement of `list_shared_nodes` is about its tenant.
    pub proof fn list_shared_nodes_is_scoped(tenant_id: Uuid, principal_id: Uuid, log: Seq<Reply>)
        ensures
            crate::step::is_scoped(
                Self::list_shared_nodes_script(tenant_id, principal_id, log),
                tenant_id,
            ),
    {
    }

    /// What stops `list_file_versions`, in order.
    pub open spec fn list_file_versions_fault(log: Seq<Reply>) -> Option<Fault> {
        if log.len() > 0 && log[0].all_rows::<FileVersionRecord>() is Err {
            Fault::of(log[0].all_rows::<FileVersionRecord>())
        } else {
            None
        }
    }

    /// The commands of `list_file_versions`, in order.
    pub open spec fn list_file_versions_script<'a>(
        tenant_id: Uuid, drive_id: Uuid, node_id: Uuid, log: Seq<Reply>,
    ) -> Seq<CommandView<'a>> {
        seq![
            CommandView::all(
                sql::LIST_FILE_VERSIONS,
                seq![Param::Id(tenant_id), Param::Id(drive_id), Param::Id(node_id)],
            ),
        ]
    }

    /// What `list_file_versions` returns.
    pub open spec fn list_file_versions_output(log: Seq<Reply>) -> Seq<FileVersionRecord> {
        let versions = log[0].all_rows::<FileVersionRecord>()->Ok_0;
        versions
    }

    /// The versions of a file, newest first.
    pub fn list_file_versions<'a>(
        tenant_id: Uuid, drive_id: Uuid, node_id: Uuid, log: &'a [Reply],
    ) -> (step: Step<'a, Vec<FileVersionRecord>>)
        ensures
            step.list() == StepView::proceed(
                Self::list_file_versions_fault(log@),
                Self::list_file_versions_script(tenant_id, drive_id, node_id, log@),
                Self::list_file_versions_output(log@),
                log@,
            ),
    {
        if log.len() == 0 {
            return ask_all(
                sql::LIST_FILE_VERSIONS,
                vec![Param::Id(tenant_id), Param::Id(drive_id), Param::Id(node_id)],
            );
        }
        let versions: Vec<FileVersionRecord> = match many::<FileVersionRecord>(&log[0]) {
            Ok(value) => value,
            Err(fault) => return stop_list(fault),
        };
        Step::Done(versions)
    }

    /// Every statement of `list_file_versions` is about its tenant.
    pub proof fn list_file_versions_is_scoped(
        tenant_id: Uuid, drive_id: Uuid, node_id: Uuid, log: Seq<Reply>,
    )
        ensures
            crate::step::is_scoped(
                Self::list_file_versions_script(tenant_id, drive_id, node_id, log),
                tenant_id,
            ),
    {
    }

    /// What stops `restore_file_version`, in order.
    pub open spec fn restore_file_version_fault(
        expected_head_version_id: Option<Uuid>, membership_generation: i64,
        drive_acl_generation: i64, namespace_generation: i64, resource_acl_generation: i64,
        log: Seq<Reply>,
    ) -> Option<Fault> {
        let fence = log[1].required_row::<FenceGenerations>(DatabaseError::StaleGeneration)->Ok_0;
        let source = log[2].required_row::<RestoreSource>(DatabaseError::NotFound)->Ok_0;
        let ordinal = log[3].single_row::<i64>()->Ok_0;
        let drawn = log[4].drawn_ids(1);
        if log.len() > 1
            && log[1].required_row::<FenceGenerations>(DatabaseError::StaleGeneration) is Err {
            Fault::of(log[1].required_row::<FenceGenerations>(DatabaseError::StaleGeneration))
        } else if log.len() > 1
            && !fence.agrees_with(
                seq![
                    membership_generation, drive_acl_generation, namespace_generation,
                    resource_acl_generation,
                ],
            ) {
                Some(Fault::Error(DatabaseError::StaleGeneration))
            } else if log.len() > 2
            && log[2].required_row::<RestoreSource>(DatabaseError::NotFound) is Err {
            Fault::of(log[2].required_row::<RestoreSource>(DatabaseError::NotFound))
        } else if log.len() > 2 && source.head_version_id != expected_head_version_id {
            Some(Fault::Error(DatabaseError::StaleGeneration))
        } else if log.len() > 3 && log[3].single_row::<i64>() is Err {
            Fault::of(log[3].single_row::<i64>())
        } else if log.len() > 4 && drawn is Err {
            Fault::of(drawn)
        } else if log.len() > 5 && log[5].single_row::<RestoredVersion>() is Err {
            Fault::of(log[5].single_row::<RestoredVersion>())
        } else if log.len() > 9 && log[9].single_row::<i64>() is Err {
            Fault::of(log[9].single_row::<i64>())
        } else if log.len() > 9 && ordinal < 0 {
            Some(Fault::Error(DatabaseError::InvalidPersistedValue))
        } else {
            None
        }
    }

    /// The commands of `restore_file_version`, in order.
    pub open spec fn restore_file_version_script<'a>(
        tenant_id: Uuid, actor_principal_id: Uuid, session_id: Uuid, drive_id: Uuid,
        node_id: Uuid, source_version_id: Uuid, log: Seq<Reply>,
    ) -> Seq<CommandView<'a>> {
        let source = log[2].required_row::<RestoreSource>(DatabaseError::NotFound)->Ok_0;
        let ordinal = log[3].single_row::<i64>()->Ok_0;
        let drawn = log[4].drawn_ids(1);
        let version_id = drawn->Ok_0[0];
        let occurred_at = log[9].single_row::<i64>()->Ok_0;
        seq![
            CommandView::Begin,
            CommandView::optional(
                sql::LOCK_AUTHORIZATION_FENCE,
                seq![
                    Param::Id(tenant_id), Param::Id(session_id), Param::Id(actor_principal_id),
                    Param::Id(drive_id), Param::Id(node_id),
                ],
            ),
            CommandView::optional(
                sql::RESTORE_FILE_VERSION_SELECT_NODES,
                seq![
                    Param::Id(tenant_id), Param::Id(drive_id), Param::Id(node_id),
                    Param::Id(source_version_id),
                ],
            ),
            CommandView::one(
                sql::RESTORE_FILE_VERSION_SELECT_FILE_VERSIONS,
                seq![Param::Id(tenant_id), Param::Id(node_id)],
            ),
            CommandView::DrawIds(1),
            CommandView::one(
                sql::RESTORE_FILE_VERSION_INSERT_FILE_VERSIONS,
                seq![
                    Param::Id(tenant_id), Param::Id(node_id), Param::Id(version_id),
                    Param::I64(ordinal), Param::Id(source.payload_id),
                    Param::I64(source.size_bytes), Param::Blob(source.blake3),
                    Param::OptOwned(source.media_type), Param::Id(actor_principal_id),
                    Param::Id(source_version_id), Param::Id(session_id),
                ],
            ),
            CommandView::execute(
                sql::RESTORE_FILE_VERSION_UPDATE_NODES,
                seq![
                    Param::Id(tenant_id), Param::Id(drive_id), Param::Id(node_id),
                    Param::Id(version_id),
                ],
            ),
            CommandView::execute(
                sql::RESTORE_FILE_VERSION_UPDATE_EPOCHS,
                seq![Param::Id(tenant_id), Param::Id(drive_id), Param::Id(node_id)],
            ),
            CommandView::execute(
                sql::INSERT_AUDIT,
                seq![
                    Param::Id(tenant_id), Param::FreshId,
                    Param::OptId(Some(actor_principal_id)), Param::OptId(None),
                    Param::OptId(Some(node_id)), Param::Text("version.restore"),
                    Param::Text("allowed"), Param::Text("create_version_allowed"),
                    Param::Bool(false),
                    Param::Object2(
                        "source_version_id", Detail::Id(source_version_id), "version_id",
                        Detail::Id(version_id),
                    ),
                ],
            ),
            CommandView::one(sql::INSERT_OUTBOX_SELECT_VALUE, seq![]),
            CommandView::execute(
                sql::INSERT_OUTBOX_INSERT_OUTBOX_EVENTS,
                seq![
                    Param::Id(tenant_id), Param::FreshId,
                    Param::Text("filebelt.v1.version.created"), Param::Text("node"),
                    Param::Id(node_id), Param::I64(ordinal), Param::Pair(tenant_id, node_id),
                    Param::Event(
                        Envelope {
                            tenant_id: tenant_id,
                            aggregate_type: "node",
                            aggregate_id: node_id,
                            aggregate_generation: ordinal as u64,
                            event_type: "filebelt.v1.version.created",
                            occurred_at_unix_seconds: occurred_at,
                        },
                    ),
                ],
            ),
            CommandView::Commit,
        ]
    }

    /// What `restore_file_version` returns.
    pub open spec fn restore_file_version_output(
        actor_principal_id: Uuid, node_id: Uuid, source_version_id: Uuid, log: Seq<Reply>,
    ) -> FileVersionRecordView {
        let source = log[2].required_row::<RestoreSource>(DatabaseError::NotFound)->Ok_0;
        let ordinal = log[3].single_row::<i64>()->Ok_0;
        let drawn = log[4].drawn_ids(1);
        let version_id = drawn->Ok_0[0];
        let created = log[5].single_row::<RestoredVersion>()->Ok_0;
        FileVersionRecordView {
            id: version_id,
            node_id,
            ordinal,
            size_bytes: source.size_bytes,
            created_by: actor_principal_id,
            restored_from_version_id: Some(source_version_id),
            created_at: created.created_at@,
            current: true,
            media_type: crate::text::optional_text(source.media_type),
            origin_kind: "restore"@,
            source_version_id: Some(source_version_id),
            creator_display_name: crate::text::optional_text(created.creator_display_name),
            mcp_assisted: false,
        }
    }

    /// Makes a new head version out of an older one. The history stays: the new version has the
    /// older one's payload and names it as its source.
    #[verifier::spinoff_prover]
    #[verifier::rlimit(60)]
    pub fn restore_file_version<'a>(
        tenant_id: Uuid, actor_principal_id: Uuid, session_id: Uuid, drive_id: Uuid,
        node_id: Uuid, source_version_id: Uuid, expected_head_version_id: Option<Uuid>,
        membership_generation: i64, drive_acl_generation: i64, namespace_generation: i64,
        resource_acl_generation: i64, log: &'a [Reply],
    ) -> (step: Step<'a, FileVersionRecord>)
        ensures
            step.deep() == StepView::proceed(
                Self::restore_file_version_fault(
                    expected_head_version_id, membership_generation, drive_acl_generation,
                    namespace_generation, resource_acl_generation, log@,
                ),
                Self::restore_file_version_script(
                    tenant_id, actor_principal_id, session_id, drive_id, node_id,
                    source_version_id, log@,
                ),
                Self::restore_file_version_output(
                    actor_principal_id, node_id, source_version_id, log@,
                ),
                log@,
            ),
    {
        if log.len() == 0 {
            return Step::Ask(Command::Begin);
        }
        if log.len() <= 1 {
            return ask_optional(
                sql::LOCK_AUTHORIZATION_FENCE,
                vec![
                    Param::Id(tenant_id), Param::Id(session_id), Param::Id(actor_principal_id),
                    Param::Id(drive_id), Param::Id(node_id),
                ],
            );
        }
        let fence: FenceGenerations = match required(&log[1], DatabaseError::StaleGeneration) {
            Ok(value) => value,
            Err(fault) => return stop_deep(fault),
        };
        if !fence.agree(
            [
                membership_generation, drive_acl_generation, namespace_generation,
                resource_acl_generation,
            ],
        ) {
            return Step::Fail(DatabaseError::StaleGeneration);
        }
        if log.len() <= 2 {
            return ask_optional(
                sql::RESTORE_FILE_VERSION_SELECT_NODES,
                vec![
                    Param::Id(tenant_id), Param::Id(drive_id), Param::Id(node_id),
                    Param::Id(source_version_id),
                ],
            );
        }
        let source: RestoreSource = match required(&log[2], DatabaseError::NotFound) {
            Ok(value) => value,
            Err(fault) => return stop_deep(fault),
        };
        if source.head_version_id != expected_head_version_id {
            return Step::Fail(DatabaseError::StaleGeneration);
        }
        if log.len() <= 3 {
            return ask_one(
                sql::RESTORE_FILE_VERSION_SELECT_FILE_VERSIONS,
                vec![Param::Id(tenant_id), Param::Id(node_id)],
            );
        }
        let ordinal: i64 = match single::<i64>(&log[3]) {
            Ok(value) => value,
            Err(fault) => return stop_deep(fault),
        };
        if log.len() <= 4 {
            return Step::Ask(Command::DrawIds(1));
        }
        let drawn: &Vec<Uuid> = match drawn(&log[4], 1) {
            Ok(ids) => ids,
            Err(fault) => return stop_deep(fault),
        };
        let version_id: Uuid = drawn[0];
        if log.len() <= 5 {
            return ask_one(
                sql::RESTORE_FILE_VERSION_INSERT_FILE_VERSIONS,
                vec![
                    Param::Id(tenant_id), Param::Id(node_id), Param::Id(version_id),
                    Param::I64(ordinal), Param::Id(source.payload_id),
                    Param::I64(source.size_bytes), Param::Blob(source.blake3),
                    Param::OptOwned(source.media_type), Param::Id(actor_principal_id),
                    Param::Id(source_version_id), Param::Id(session_id),
                ],
            );
        }
        let created: RestoredVersion = match single::<RestoredVersion>(&log[5]) {
            Ok(value) => value,
            Err(fault) => return stop_deep(fault),
        };
        if log.len() <= 6 {
            return ask_execute(
                sql::RESTORE_FILE_VERSION_UPDATE_NODES,
                vec![
                    Param::Id(tenant_id), Param::Id(drive_id), Param::Id(node_id),
                    Param::Id(version_id),
                ],
            );
        }
        if log.len() <= 7 {
            return ask_execute(
                sql::RESTORE_FILE_VERSION_UPDATE_EPOCHS,
                vec![Param::Id(tenant_id), Param::Id(drive_id), Param::Id(node_id)],
            );
        }
        if log.len() <= 8 {
            return ask_execute(
                sql::INSERT_AUDIT,
                vec![
                    Param::Id(tenant_id), Param::FreshId,
                    Param::OptId(Some(actor_principal_id)), Param::OptId(None),
                    Param::OptId(Some(node_id)), Param::Text("version.restore"),
                    Param::Text("allowed"), Param::Text("create_version_allowed"),
                    Param::Bool(false),
                    Param::Object2(
                        "source_version_id", Detail::Id(source_version_id), "version_id",
                        Detail::Id(version_id),
                    ),
                ],
            );
        }
        if log.len() <= 9 {
            return ask_one(sql::INSERT_OUTBOX_SELECT_VALUE, vec![]);
        }
        let occurred_at: i64 = match single::<i64>(&log[9]) {
            Ok(value) => value,
            Err(fault) => return stop_deep(fault),
        };
        if ordinal < 0 {
            return Step::Fail(DatabaseError::InvalidPersistedValue);
        }
        if log.len() <= 10 {
            return ask_execute(
                sql::INSERT_OUTBOX_INSERT_OUTBOX_EVENTS,
                vec![
                    Param::Id(tenant_id), Param::FreshId,
                    Param::Text("filebelt.v1.version.created"), Param::Text("node"),
                    Param::Id(node_id), Param::I64(ordinal), Param::Pair(tenant_id, node_id),
                    Param::Event(
                        Envelope {
                            tenant_id: tenant_id,
                            aggregate_type: "node",
                            aggregate_id: node_id,
                            aggregate_generation: ordinal as u64,
                            event_type: "filebelt.v1.version.created",
                            occurred_at_unix_seconds: occurred_at,
                        },
                    ),
                ],
            );
        }
        if log.len() <= 11 {
            return Step::Ask(Command::Commit);
        }
        Step::Done(
            FileVersionRecord {
                id: version_id,
                node_id,
                ordinal,
                size_bytes: source.size_bytes,
                created_by: actor_principal_id,
                restored_from_version_id: Some(source_version_id),
                created_at: created.created_at,
                current: true,
                media_type: source.media_type,
                origin_kind: "restore".to_owned(),
                source_version_id: Some(source_version_id),
                creator_display_name: created.creator_display_name,
                mcp_assisted: false,
            },
        )
    }

    /// `restore_file_version` runs in one transaction: it is done once its commit is acknowledged,
    /// and when it fails, nothing was committed.
    pub proof fn restore_file_version_is_atomic(
        tenant_id: Uuid, actor_principal_id: Uuid, session_id: Uuid, drive_id: Uuid,
        node_id: Uuid, source_version_id: Uuid, expected_head_version_id: Option<Uuid>,
        membership_generation: i64, drive_acl_generation: i64, namespace_generation: i64,
        resource_acl_generation: i64, log: Seq<Reply>,
    )
        ensures
            crate::step::is_atomic(
                Self::restore_file_version_script(
                    tenant_id, actor_principal_id, session_id, drive_id, node_id,
                    source_version_id, log,
                ),
                0,
            ),
            crate::step::commit_acknowledged(
                Self::restore_file_version_fault(
                    expected_head_version_id, membership_generation, drive_acl_generation,
                    namespace_generation, resource_acl_generation, log.drop_last(),
                ),
                Self::restore_file_version_script(
                    tenant_id, actor_principal_id, session_id, drive_id, node_id,
                    source_version_id, log.drop_last(),
                ),
                log,
            ) ==> {
                &&& Self::restore_file_version_fault(
                    expected_head_version_id, membership_generation, drive_acl_generation,
                    namespace_generation, resource_acl_generation, log,
                ) is None
                &&& log.len() == Self::restore_file_version_script(
                    tenant_id, actor_principal_id, session_id, drive_id, node_id,
                    source_version_id, log,
                ).len()
            },
    {
    }

    /// `restore_file_version` goes past its fence only where the generations that it has locked are
    /// those that the caller was authorized under.
    pub proof fn restore_file_version_is_fenced(
        expected_head_version_id: Option<Uuid>, membership_generation: i64,
        drive_acl_generation: i64, namespace_generation: i64, resource_acl_generation: i64,
        log: Seq<Reply>,
    )
        ensures
            ({
                let fence =
                    log[1].required_row::<FenceGenerations>(DatabaseError::StaleGeneration)->Ok_0;
                Self::restore_file_version_fault(
                    expected_head_version_id, membership_generation, drive_acl_generation,
                    namespace_generation, resource_acl_generation, log,
                ) is None && log.len() > 1
                    ==> log[1].required_row::<FenceGenerations>(
                        DatabaseError::StaleGeneration,
                    ) is Ok
                    && fence.agrees_with(
                        seq![
                            membership_generation, drive_acl_generation, namespace_generation,
                            resource_acl_generation,
                        ],
                    )
            }),
    {
    }

    /// Every statement of `restore_file_version` is about its tenant.
    pub proof fn restore_file_version_is_scoped(
        tenant_id: Uuid, actor_principal_id: Uuid, session_id: Uuid, drive_id: Uuid, node_id: Uuid,
        source_version_id: Uuid, log: Seq<Reply>,
    )
        ensures
            crate::step::is_scoped(
                Self::restore_file_version_script(
                    tenant_id, actor_principal_id, session_id, drive_id, node_id, source_version_id,
                    log,
                ),
                tenant_id,
            ),
    {
    }

    /// What stops `set_node_trash_state`, in order.
    pub open spec fn set_node_trash_state_fault(
        resource_id: Uuid, expected_namespace_generation: i64, membership_generation: i64,
        drive_acl_generation: i64, namespace_generation: i64, resource_acl_generation: i64,
        trash: bool, log: Seq<Reply>,
    ) -> Option<Fault> {
        let fence = log[1].required_row::<FenceGenerations>(DatabaseError::StaleGeneration)->Ok_0;
        let candidate = log[2].required_row::<TrashCandidate>(DatabaseError::NotFound)->Ok_0;
        let at = if trash {
            4int
        } else {
            3
        };
        let parent_live = log[at].single_row::<bool>()->Ok_0;
        let at2 = if !trash {
            at + 2
        } else {
            at
        };
        let drive_generation = log[at2].single_row::<i64>()->Ok_0;
        if log.len() > 1
            && log[1].required_row::<FenceGenerations>(DatabaseError::StaleGeneration) is Err {
            Fault::of(log[1].required_row::<FenceGenerations>(DatabaseError::StaleGeneration))
        } else if log.len() > 1
            && !fence.agrees_with(
                seq![
                    membership_generation, drive_acl_generation, namespace_generation,
                    resource_acl_generation,
                ],
            ) {
                Some(Fault::Error(DatabaseError::StaleGeneration))
            } else if log.len() > 2
            && log[2].required_row::<TrashCandidate>(DatabaseError::NotFound) is Err {
            Fault::of(log[2].required_row::<TrashCandidate>(DatabaseError::NotFound))
        } else if log.len() > 2
            && !candidate.may_change(resource_id, expected_namespace_generation, trash) {
            Some(Fault::Error(DatabaseError::StaleGeneration))
        } else if !trash && log.len() > at && log[at].single_row::<bool>() is Err {
            Fault::of(log[at].single_row::<bool>())
        } else if !trash && log.len() > at && !parent_live {
            Some(Fault::Error(DatabaseError::Conflict))
        } else if log.len() > at2 && log[at2].single_row::<i64>() is Err {
            Fault::of(log[at2].single_row::<i64>())
        } else if log.len() > at2 + 2 && log[at2 + 2].single_row::<i64>() is Err {
            Fault::of(log[at2 + 2].single_row::<i64>())
        } else if log.len() > at2 + 2 && drive_generation < 0 {
            Some(Fault::Error(DatabaseError::InvalidPersistedValue))
        } else if log.len() > at2 + 5
            && log[at2 + 5].required_row::<NodeRecord>(DatabaseError::NotFound) is Err {
            Fault::of(log[at2 + 5].required_row::<NodeRecord>(DatabaseError::NotFound))
        } else {
            None
        }
    }

    /// The commands of `set_node_trash_state`, in order.
    pub open spec fn set_node_trash_state_script<'a>(
        tenant_id: Uuid, actor_principal_id: Uuid, session_id: Uuid, drive_id: Uuid,
        resource_id: Uuid, trash: bool, log: Seq<Reply>,
    ) -> Seq<CommandView<'a>> {
        let candidate = log[2].required_row::<TrashCandidate>(DatabaseError::NotFound)->Ok_0;
        let at = if trash {
            4int
        } else {
            3
        };
        let at2 = if !trash {
            at + 2
        } else {
            at
        };
        let drive_generation = log[at2].single_row::<i64>()->Ok_0;
        let action = if trash { "node.trash" } else { "node.restore" };
        let reason = if trash { "delete_allowed" } else { "restore_allowed" };
        let occurred_at = log[at2 + 2].single_row::<i64>()->Ok_0;
        seq![
            CommandView::Begin,
            CommandView::optional(
                sql::LOCK_AUTHORIZATION_FENCE,
                seq![
                    Param::Id(tenant_id), Param::Id(session_id), Param::Id(actor_principal_id),
                    Param::Id(drive_id), Param::Id(resource_id),
                ],
            ),
            CommandView::optional(
                sql::SET_NODE_TRASH_STATE_SELECT_NODES,
                seq![Param::Id(tenant_id), Param::Id(drive_id), Param::Id(resource_id)],
            ),
        ].add(
            if trash {
                seq![
                    CommandView::execute(
                        sql::SET_NODE_TRASH_STATE_UPDATE_NODES,
                        seq![
                            Param::Id(tenant_id), Param::Id(drive_id), Param::Id(resource_id),
                            Param::Id(resource_id), Param::I32(candidate.trash_retention_days),
                        ],
                    ),
                ]
            } else {
                Seq::empty()
            },
        ).add(
            if !trash {
                seq![
                    CommandView::one(
                        sql::SET_NODE_TRASH_STATE_EXISTS_NODES,
                        seq![
                            Param::Id(tenant_id), Param::Id(drive_id),
                            Param::Id(candidate.parent_id->0),
                        ],
                    ),
                    CommandView::ruled(
                        sql::SET_NODE_TRASH_STATE_UPDATE_NODES_2,
                        seq![
                            Param::Id(tenant_id), Param::Id(drive_id), Param::Id(resource_id),
                            Param::Id(resource_id),
                        ],
                        Fetch::Execute, ErrorRule::UniqueConflict,
                    ),
                ]
            } else {
                Seq::empty()
            },
        ).add(
            seq![
                CommandView::one(
                    sql::SET_NODE_TRASH_STATE_UPDATE_DRIVES,
                    seq![Param::Id(tenant_id), Param::Id(drive_id)],
                ),
                CommandView::execute(
                    sql::INSERT_AUDIT,
                    seq![
                        Param::Id(tenant_id), Param::FreshId,
                        Param::OptId(Some(actor_principal_id)), Param::OptId(None),
                        Param::OptId(Some(resource_id)), Param::Text(action),
                        Param::Text("allowed"), Param::Text(reason), Param::Bool(false),
                        Param::Object0,
                    ],
                ),
                CommandView::one(sql::INSERT_OUTBOX_SELECT_VALUE, seq![]),
                CommandView::execute(
                    sql::INSERT_OUTBOX_INSERT_OUTBOX_EVENTS,
                    seq![
                        Param::Id(tenant_id), Param::FreshId,
                        Param::Text("filebelt.v1.namespace.changed"), Param::Text("node"),
                        Param::Id(resource_id), Param::I64(drive_generation),
                        Param::Pair(tenant_id, resource_id),
                        Param::Event(
                            Envelope {
                                tenant_id: tenant_id,
                                aggregate_type: "node",
                                aggregate_id: resource_id,
                                aggregate_generation: drive_generation as u64,
                                event_type: "filebelt.v1.namespace.changed",
                                occurred_at_unix_seconds: occurred_at,
                            },
                        ),
                    ],
                ),
                CommandView::Commit,
                CommandView::optional(
                    sql::NODE,
                    seq![Param::Id(tenant_id), Param::Id(drive_id), Param::Id(resource_id)],
                ),
            ],
        )
    }

    /// What `set_node_trash_state` returns.
    pub open spec fn set_node_trash_state_output(trash: bool, log: Seq<Reply>) -> NodeRecord {
        let at = if trash {
            4int
        } else {
            3
        };
        let at2 = if !trash {
            at + 2
        } else {
            at
        };
        let node = log[at2 + 5].required_row::<NodeRecord>(DatabaseError::NotFound)->Ok_0;
        node
    }

    /// Moves a node into the trash or out of it, with all that lies below it.
    #[verifier::spinoff_prover]
    #[verifier::rlimit(60)]
    pub fn set_node_trash_state<'a>(
        tenant_id: Uuid, actor_principal_id: Uuid, session_id: Uuid, drive_id: Uuid,
        resource_id: Uuid, expected_namespace_generation: i64, membership_generation: i64,
        drive_acl_generation: i64, namespace_generation: i64, resource_acl_generation: i64,
        trash: bool, log: &'a [Reply],
    ) -> (step: Step<'a, NodeRecord>)
        ensures
            step@ == StepView::proceed(
                Self::set_node_trash_state_fault(
                    resource_id, expected_namespace_generation, membership_generation,
                    drive_acl_generation, namespace_generation, resource_acl_generation, trash,
                    log@,
                ),
                Self::set_node_trash_state_script(
                    tenant_id, actor_principal_id, session_id, drive_id, resource_id, trash,
                    log@,
                ),
                Self::set_node_trash_state_output(trash, log@),
                log@,
            ),
    {
        if log.len() == 0 {
            return Step::Ask(Command::Begin);
        }
        if log.len() <= 1 {
            return ask_optional(
                sql::LOCK_AUTHORIZATION_FENCE,
                vec![
                    Param::Id(tenant_id), Param::Id(session_id), Param::Id(actor_principal_id),
                    Param::Id(drive_id), Param::Id(resource_id),
                ],
            );
        }
        let fence: FenceGenerations = match required(&log[1], DatabaseError::StaleGeneration) {
            Ok(value) => value,
            Err(fault) => return stop(fault),
        };
        if !fence.agree(
            [
                membership_generation, drive_acl_generation, namespace_generation,
                resource_acl_generation,
            ],
        ) {
            return Step::Fail(DatabaseError::StaleGeneration);
        }
        if log.len() <= 2 {
            return ask_optional(
                sql::SET_NODE_TRASH_STATE_SELECT_NODES,
                vec![Param::Id(tenant_id), Param::Id(drive_id), Param::Id(resource_id)],
            );
        }
        let candidate: TrashCandidate = match required(&log[2], DatabaseError::NotFound) {
            Ok(value) => value,
            Err(fault) => return stop(fault),
        };
        if !candidate.can_change(resource_id, expected_namespace_generation, trash) {
            return Step::Fail(DatabaseError::StaleGeneration);
        }
        if trash {
            if log.len() <= 3 {
                return ask_execute(
                    sql::SET_NODE_TRASH_STATE_UPDATE_NODES,
                    vec![
                        Param::Id(tenant_id), Param::Id(drive_id), Param::Id(resource_id),
                        Param::Id(resource_id), Param::I32(candidate.trash_retention_days),
                    ],
                );
            }
        }
        let at: usize = if trash {
            4
        } else {
            3
        };
        if !trash {
            if log.len() <= at {
                return ask_one(
                    sql::SET_NODE_TRASH_STATE_EXISTS_NODES,
                    vec![
                        Param::Id(tenant_id), Param::Id(drive_id),
                        Param::Id(candidate.parent_id.unwrap()),
                    ],
                );
            }
            let parent_live: bool = match single::<bool>(&log[at]) {
                Ok(value) => value,
                Err(fault) => return stop(fault),
            };
            if !parent_live {
                return Step::Fail(DatabaseError::Conflict);
            }
            if log.len() - at <= 1 {
                return ask(
                    sql::SET_NODE_TRASH_STATE_UPDATE_NODES_2,
                    vec![
                        Param::Id(tenant_id), Param::Id(drive_id), Param::Id(resource_id),
                        Param::Id(resource_id),
                    ],
                    Fetch::Execute, ErrorRule::UniqueConflict,
                );
            }
        }
        let at2: usize = if !trash {
            at + 2
        } else {
            at
        };
        if log.len() <= at2 {
            return ask_one(
                sql::SET_NODE_TRASH_STATE_UPDATE_DRIVES,
                vec![Param::Id(tenant_id), Param::Id(drive_id)],
            );
        }
        let drive_generation: i64 = match single::<i64>(&log[at2]) {
            Ok(value) => value,
            Err(fault) => return stop(fault),
        };
        let action: &'static str = if trash { "node.trash" } else { "node.restore" };
        let reason: &'static str = if trash { "delete_allowed" } else { "restore_allowed" };
        if log.len() - at2 <= 1 {
            return ask_execute(
                sql::INSERT_AUDIT,
                vec![
                    Param::Id(tenant_id), Param::FreshId,
                    Param::OptId(Some(actor_principal_id)), Param::OptId(None),
                    Param::OptId(Some(resource_id)), Param::Text(action),
                    Param::Text("allowed"), Param::Text(reason), Param::Bool(false),
                    Param::Object0,
                ],
            );
        }
        if log.len() - at2 <= 2 {
            return ask_one(sql::INSERT_OUTBOX_SELECT_VALUE, vec![]);
        }
        let occurred_at: i64 = match single::<i64>(&log[at2 + 2]) {
            Ok(value) => value,
            Err(fault) => return stop(fault),
        };
        if drive_generation < 0 {
            return Step::Fail(DatabaseError::InvalidPersistedValue);
        }
        if log.len() - at2 <= 3 {
            return ask_execute(
                sql::INSERT_OUTBOX_INSERT_OUTBOX_EVENTS,
                vec![
                    Param::Id(tenant_id), Param::FreshId,
                    Param::Text("filebelt.v1.namespace.changed"), Param::Text("node"),
                    Param::Id(resource_id), Param::I64(drive_generation),
                    Param::Pair(tenant_id, resource_id),
                    Param::Event(
                        Envelope {
                            tenant_id: tenant_id,
                            aggregate_type: "node",
                            aggregate_id: resource_id,
                            aggregate_generation: drive_generation as u64,
                            event_type: "filebelt.v1.namespace.changed",
                            occurred_at_unix_seconds: occurred_at,
                        },
                    ),
                ],
            );
        }
        if log.len() - at2 <= 4 {
            return Step::Ask(Command::Commit);
        }
        if log.len() - at2 <= 5 {
            return ask_optional(
                sql::NODE,
                vec![Param::Id(tenant_id), Param::Id(drive_id), Param::Id(resource_id)],
            );
        }
        let node: NodeRecord = match required(&log[at2 + 5], DatabaseError::NotFound) {
            Ok(value) => value,
            Err(fault) => return stop(fault),
        };
        Step::Done(node)
    }

    /// `set_node_trash_state` runs in one transaction and writes nothing after it. Once its commit
    /// is acknowledged, nothing but reading the result back can fail.
    pub proof fn set_node_trash_state_is_atomic(
        tenant_id: Uuid, actor_principal_id: Uuid, session_id: Uuid, drive_id: Uuid,
        resource_id: Uuid, expected_namespace_generation: i64, membership_generation: i64,
        drive_acl_generation: i64, namespace_generation: i64, resource_acl_generation: i64,
        trash: bool, log: Seq<Reply>,
    )
        ensures
            crate::step::is_atomic(
                Self::set_node_trash_state_script(
                    tenant_id, actor_principal_id, session_id, drive_id, resource_id, trash,
                    log,
                ),
                1,
            ),
            crate::step::commit_acknowledged(
                Self::set_node_trash_state_fault(
                    resource_id, expected_namespace_generation, membership_generation,
                    drive_acl_generation, namespace_generation, resource_acl_generation, trash,
                    log.drop_last(),
                ),
                Self::set_node_trash_state_script(
                    tenant_id, actor_principal_id, session_id, drive_id, resource_id, trash,
                    log.drop_last(),
                ),
                log,
            ) ==> {
                &&& Self::set_node_trash_state_fault(
                    resource_id, expected_namespace_generation, membership_generation,
                    drive_acl_generation, namespace_generation, resource_acl_generation, trash,
                    log,
                ) is None
                &&& log.len() + 1 == Self::set_node_trash_state_script(
                    tenant_id, actor_principal_id, session_id, drive_id, resource_id, trash,
                    log,
                ).len()
            },
    {
    }

    /// `set_node_trash_state` goes past its fence only where the generations that it has locked are
    /// those that the caller was authorized under.
    pub proof fn set_node_trash_state_is_fenced(
        resource_id: Uuid, expected_namespace_generation: i64, membership_generation: i64,
        drive_acl_generation: i64, namespace_generation: i64, resource_acl_generation: i64,
        trash: bool, log: Seq<Reply>,
    )
        ensures
            ({
                let fence =
                    log[1].required_row::<FenceGenerations>(DatabaseError::StaleGeneration)->Ok_0;
                Self::set_node_trash_state_fault(
                    resource_id, expected_namespace_generation, membership_generation,
                    drive_acl_generation, namespace_generation, resource_acl_generation, trash,
                    log,
                ) is None && log.len() > 1
                    ==> log[1].required_row::<FenceGenerations>(
                        DatabaseError::StaleGeneration,
                    ) is Ok
                    && fence.agrees_with(
                        seq![
                            membership_generation, drive_acl_generation, namespace_generation,
                            resource_acl_generation,
                        ],
                    )
            }),
    {
    }

    /// Every statement of `set_node_trash_state` is about its tenant.
    pub proof fn set_node_trash_state_is_scoped(
        tenant_id: Uuid, actor_principal_id: Uuid, session_id: Uuid, drive_id: Uuid,
        resource_id: Uuid, trash: bool, log: Seq<Reply>,
    )
        ensures
            crate::step::is_scoped(
                Self::set_node_trash_state_script(
                    tenant_id, actor_principal_id, session_id, drive_id, resource_id, trash, log,
                ),
                tenant_id,
            ),
    {
    }

    /// Moves a node and all below it into the trash.
    pub fn trash_node<'a>(
        tenant_id: Uuid, actor_principal_id: Uuid, session_id: Uuid, drive_id: Uuid,
        resource_id: Uuid, expected_namespace_generation: i64, membership_generation: i64,
        drive_acl_generation: i64, namespace_generation: i64, resource_acl_generation: i64,
        log: &'a [Reply],
    ) -> (step: Step<'a, NodeRecord>)
        ensures
            step@ == StepView::proceed(
                Self::set_node_trash_state_fault(
                    resource_id, expected_namespace_generation, membership_generation,
                    drive_acl_generation, namespace_generation, resource_acl_generation, true,
                    log@,
                ),
                Self::set_node_trash_state_script(
                    tenant_id, actor_principal_id, session_id, drive_id, resource_id, true, log@,
                ),
                Self::set_node_trash_state_output(true, log@),
                log@,
            ),
    {
        Self::set_node_trash_state(
            tenant_id, actor_principal_id, session_id, drive_id, resource_id,
            expected_namespace_generation, membership_generation, drive_acl_generation,
            namespace_generation, resource_acl_generation, true, log,
        )
    }

    /// Moves a trashed node and all below it back to where it lay.
    pub fn restore_node<'a>(
        tenant_id: Uuid, actor_principal_id: Uuid, session_id: Uuid, drive_id: Uuid,
        resource_id: Uuid, expected_namespace_generation: i64, membership_generation: i64,
        drive_acl_generation: i64, namespace_generation: i64, resource_acl_generation: i64,
        log: &'a [Reply],
    ) -> (step: Step<'a, NodeRecord>)
        ensures
            step@ == StepView::proceed(
                Self::set_node_trash_state_fault(
                    resource_id, expected_namespace_generation, membership_generation,
                    drive_acl_generation, namespace_generation, resource_acl_generation, false,
                    log@,
                ),
                Self::set_node_trash_state_script(
                    tenant_id, actor_principal_id, session_id, drive_id, resource_id, false, log@,
                ),
                Self::set_node_trash_state_output(false, log@),
                log@,
            ),
    {
        Self::set_node_trash_state(
            tenant_id, actor_principal_id, session_id, drive_id, resource_id,
            expected_namespace_generation, membership_generation, drive_acl_generation,
            namespace_generation, resource_acl_generation, false, log,
        )
    }

    /// What stops `create_directory`, in order.
    pub open spec fn create_directory_fault(
        expected_generation: i64, membership_generation: i64, drive_acl_generation: i64,
        namespace_generation: i64, resource_acl_generation: i64, log: Seq<Reply>,
    ) -> Option<Fault> {
        let fence = log[1].required_row::<FenceGenerations>(DatabaseError::StaleGeneration)->Ok_0;
        let generation = log[2].required_row::<i64>(DatabaseError::NotFound)->Ok_0;
        let drawn = log[3].drawn_ids(1);
        let next = (generation + 1) as i64;
        if log.len() > 1
            && log[1].required_row::<FenceGenerations>(DatabaseError::StaleGeneration) is Err {
            Fault::of(log[1].required_row::<FenceGenerations>(DatabaseError::StaleGeneration))
        } else if log.len() > 1
            && !fence.agrees_with(
                seq![
                    membership_generation, drive_acl_generation, namespace_generation,
                    resource_acl_generation,
                ],
            ) {
                Some(Fault::Error(DatabaseError::StaleGeneration))
            } else if log.len() > 2 && log[2].required_row::<i64>(DatabaseError::NotFound) is Err {
                Fault::of(log[2].required_row::<i64>(DatabaseError::NotFound))
            } else if log.len() > 2 && generation != expected_generation {
                Some(Fault::Error(DatabaseError::StaleGeneration))
            } else if log.len() > 3 && drawn is Err {
                Fault::of(drawn)
            } else if log.len() > 8 && generation == i64::MAX {
                Some(Fault::Malformed)
            } else if log.len() > 9 && log[9].single_row::<i64>() is Err {
                Fault::of(log[9].single_row::<i64>())
            } else if log.len() > 9 && next < 0 {
                Some(Fault::Error(DatabaseError::InvalidPersistedValue))
            } else if log.len() > 12
            && log[12].required_row::<NodeRecord>(DatabaseError::NotFound) is Err {
            Fault::of(log[12].required_row::<NodeRecord>(DatabaseError::NotFound))
        } else {
            None
        }
    }

    /// The commands of `create_directory`, in order.
    pub open spec fn create_directory_script<'a>(
        tenant_id: Uuid, actor: Uuid, session_id: Uuid, drive_id: Uuid, parent_id: Uuid,
        display_name: &'a str, name_key: &'a str, log: Seq<Reply>,
    ) -> Seq<CommandView<'a>> {
        let generation = log[2].required_row::<i64>(DatabaseError::NotFound)->Ok_0;
        let drawn = log[3].drawn_ids(1);
        let directory_id = drawn->Ok_0[0];
        let next = (generation + 1) as i64;
        let occurred_at = log[9].single_row::<i64>()->Ok_0;
        seq![
            CommandView::Begin,
            CommandView::optional(
                sql::LOCK_AUTHORIZATION_FENCE,
                seq![
                    Param::Id(tenant_id), Param::Id(session_id), Param::Id(actor),
                    Param::Id(drive_id), Param::Id(parent_id),
                ],
            ),
            CommandView::optional(
                sql::CREATE_DIRECTORY_SELECT_NODES,
                seq![Param::Id(tenant_id), Param::Id(drive_id), Param::Id(parent_id)],
            ),
            CommandView::DrawIds(1),
            CommandView::ruled(
                sql::CREATE_DIRECTORY_INSERT_NODES,
                seq![
                    Param::Id(tenant_id), Param::Id(drive_id), Param::Id(directory_id),
                    Param::Id(parent_id), Param::Text(display_name), Param::Text(name_key),
                    Param::Id(actor),
                ],
                Fetch::Execute, ErrorRule::UniqueConflict,
            ),
            CommandView::execute(
                sql::CREATE_DIRECTORY_INSERT_NODE_ANCESTRY,
                seq![
                    Param::Id(tenant_id), Param::Id(drive_id), Param::Id(parent_id),
                    Param::Id(directory_id),
                ],
            ),
            CommandView::execute(
                sql::CREATE_DIRECTORY_UPDATE_NODES,
                seq![Param::Id(tenant_id), Param::Id(drive_id), Param::Id(parent_id)],
            ),
            CommandView::execute(
                sql::CREATE_DIRECTORY_UPDATE_DRIVES,
                seq![Param::Id(tenant_id), Param::Id(drive_id)],
            ),
            CommandView::execute(
                sql::INSERT_AUDIT,
                seq![
                    Param::Id(tenant_id), Param::FreshId, Param::OptId(Some(actor)),
                    Param::OptId(None), Param::OptId(Some(directory_id)),
                    Param::Text("node.create"), Param::Text("allowed"),
                    Param::Text("create_child_allowed"), Param::Bool(false),
                    Param::Object1("parent_id", Detail::Id(parent_id)),
                ],
            ),
            CommandView::one(sql::INSERT_OUTBOX_SELECT_VALUE, seq![]),
            CommandView::execute(
                sql::INSERT_OUTBOX_INSERT_OUTBOX_EVENTS,
                seq![
                    Param::Id(tenant_id), Param::FreshId,
                    Param::Text("filebelt.v1.namespace.changed"), Param::Text("node"),
                    Param::Id(directory_id), Param::I64(next),
                    Param::Pair(tenant_id, directory_id),
                    Param::Event(
                        Envelope {
                            tenant_id: tenant_id,
                            aggregate_type: "node",
                            aggregate_id: directory_id,
                            aggregate_generation: next as u64,
                            event_type: "filebelt.v1.namespace.changed",
                            occurred_at_unix_seconds: occurred_at,
                        },
                    ),
                ],
            ),
            CommandView::Commit,
            CommandView::optional(
                sql::NODE,
                seq![Param::Id(tenant_id), Param::Id(drive_id), Param::Id(directory_id)],
            ),
        ]
    }

    /// What `create_directory` returns.
    pub open spec fn create_directory_output(log: Seq<Reply>) -> NodeRecord {
        let node = log[12].required_row::<NodeRecord>(DatabaseError::NotFound)->Ok_0;
        node
    }

    /// Makes a directory in a parent that is still at the expected generation.
    #[verifier::spinoff_prover]
    #[verifier::rlimit(60)]
    pub fn create_directory<'a>(
        tenant_id: Uuid, actor: Uuid, session_id: Uuid, drive_id: Uuid, parent_id: Uuid,
        display_name: &'a str, name_key: &'a str, expected_generation: i64,
        membership_generation: i64, drive_acl_generation: i64, namespace_generation: i64,
        resource_acl_generation: i64, log: &'a [Reply],
    ) -> (step: Step<'a, NodeRecord>)
        ensures
            step@ == StepView::proceed(
                Self::create_directory_fault(
                    expected_generation, membership_generation, drive_acl_generation,
                    namespace_generation, resource_acl_generation, log@,
                ),
                Self::create_directory_script(
                    tenant_id, actor, session_id, drive_id, parent_id, display_name, name_key,
                    log@,
                ),
                Self::create_directory_output(log@),
                log@,
            ),
    {
        if log.len() == 0 {
            return Step::Ask(Command::Begin);
        }
        if log.len() <= 1 {
            return ask_optional(
                sql::LOCK_AUTHORIZATION_FENCE,
                vec![
                    Param::Id(tenant_id), Param::Id(session_id), Param::Id(actor),
                    Param::Id(drive_id), Param::Id(parent_id),
                ],
            );
        }
        let fence: FenceGenerations = match required(&log[1], DatabaseError::StaleGeneration) {
            Ok(value) => value,
            Err(fault) => return stop(fault),
        };
        if !fence.agree(
            [
                membership_generation, drive_acl_generation, namespace_generation,
                resource_acl_generation,
            ],
        ) {
            return Step::Fail(DatabaseError::StaleGeneration);
        }
        if log.len() <= 2 {
            return ask_optional(
                sql::CREATE_DIRECTORY_SELECT_NODES,
                vec![Param::Id(tenant_id), Param::Id(drive_id), Param::Id(parent_id)],
            );
        }
        let generation: i64 = match required::<i64>(&log[2], DatabaseError::NotFound) {
            Ok(value) => value,
            Err(fault) => return stop(fault),
        };
        if generation != expected_generation {
            return Step::Fail(DatabaseError::StaleGeneration);
        }
        if log.len() <= 3 {
            return Step::Ask(Command::DrawIds(1));
        }
        let drawn: &Vec<Uuid> = match drawn(&log[3], 1) {
            Ok(ids) => ids,
            Err(fault) => return stop(fault),
        };
        let directory_id: Uuid = drawn[0];
        if log.len() <= 4 {
            return ask(
                sql::CREATE_DIRECTORY_INSERT_NODES,
                vec![
                    Param::Id(tenant_id), Param::Id(drive_id), Param::Id(directory_id),
                    Param::Id(parent_id), Param::Text(display_name), Param::Text(name_key),
                    Param::Id(actor),
                ],
                Fetch::Execute, ErrorRule::UniqueConflict,
            );
        }
        if log.len() <= 5 {
            return ask_execute(
                sql::CREATE_DIRECTORY_INSERT_NODE_ANCESTRY,
                vec![
                    Param::Id(tenant_id), Param::Id(drive_id), Param::Id(parent_id),
                    Param::Id(directory_id),
                ],
            );
        }
        if log.len() <= 6 {
            return ask_execute(
                sql::CREATE_DIRECTORY_UPDATE_NODES,
                vec![Param::Id(tenant_id), Param::Id(drive_id), Param::Id(parent_id)],
            );
        }
        if log.len() <= 7 {
            return ask_execute(
                sql::CREATE_DIRECTORY_UPDATE_DRIVES,
                vec![Param::Id(tenant_id), Param::Id(drive_id)],
            );
        }
        if log.len() <= 8 {
            return ask_execute(
                sql::INSERT_AUDIT,
                vec![
                    Param::Id(tenant_id), Param::FreshId, Param::OptId(Some(actor)),
                    Param::OptId(None), Param::OptId(Some(directory_id)),
                    Param::Text("node.create"), Param::Text("allowed"),
                    Param::Text("create_child_allowed"), Param::Bool(false),
                    Param::Object1("parent_id", Detail::Id(parent_id)),
                ],
            );
        }
        if generation == i64::MAX {
            return Step::Malformed;
        }
        let next: i64 = generation + 1;
        if log.len() <= 9 {
            return ask_one(sql::INSERT_OUTBOX_SELECT_VALUE, vec![]);
        }
        let occurred_at: i64 = match single::<i64>(&log[9]) {
            Ok(value) => value,
            Err(fault) => return stop(fault),
        };
        if next < 0 {
            return Step::Fail(DatabaseError::InvalidPersistedValue);
        }
        if log.len() <= 10 {
            return ask_execute(
                sql::INSERT_OUTBOX_INSERT_OUTBOX_EVENTS,
                vec![
                    Param::Id(tenant_id), Param::FreshId,
                    Param::Text("filebelt.v1.namespace.changed"), Param::Text("node"),
                    Param::Id(directory_id), Param::I64(next),
                    Param::Pair(tenant_id, directory_id),
                    Param::Event(
                        Envelope {
                            tenant_id: tenant_id,
                            aggregate_type: "node",
                            aggregate_id: directory_id,
                            aggregate_generation: next as u64,
                            event_type: "filebelt.v1.namespace.changed",
                            occurred_at_unix_seconds: occurred_at,
                        },
                    ),
                ],
            );
        }
        if log.len() <= 11 {
            return Step::Ask(Command::Commit);
        }
        if log.len() <= 12 {
            return ask_optional(
                sql::NODE,
                vec![Param::Id(tenant_id), Param::Id(drive_id), Param::Id(directory_id)],
            );
        }
        let node: NodeRecord = match required::<NodeRecord>(&log[12], DatabaseError::NotFound) {
            Ok(value) => value,
            Err(fault) => return stop(fault),
        };
        Step::Done(node)
    }

    /// `create_directory` runs in one transaction and writes nothing after it. Once its commit is
    /// acknowledged, nothing but reading the result back can fail.
    pub proof fn create_directory_is_atomic<'a>(
        tenant_id: Uuid, actor: Uuid, session_id: Uuid, drive_id: Uuid, parent_id: Uuid,
        display_name: &'a str, name_key: &'a str, expected_generation: i64,
        membership_generation: i64, drive_acl_generation: i64, namespace_generation: i64,
        resource_acl_generation: i64, log: Seq<Reply>,
    )
        ensures
            crate::step::is_atomic(
                Self::create_directory_script(
                    tenant_id, actor, session_id, drive_id, parent_id, display_name, name_key,
                    log,
                ),
                1,
            ),
            crate::step::commit_acknowledged(
                Self::create_directory_fault(
                    expected_generation, membership_generation, drive_acl_generation,
                    namespace_generation, resource_acl_generation, log.drop_last(),
                ),
                Self::create_directory_script(
                    tenant_id, actor, session_id, drive_id, parent_id, display_name, name_key,
                    log.drop_last(),
                ),
                log,
            ) ==> {
                &&& Self::create_directory_fault(
                    expected_generation, membership_generation, drive_acl_generation,
                    namespace_generation, resource_acl_generation, log,
                ) is None
                &&& log.len() + 1 == Self::create_directory_script(
                    tenant_id, actor, session_id, drive_id, parent_id, display_name, name_key,
                    log,
                ).len()
            },
    {
    }

    /// `create_directory` goes past its fence only where the generations that it has locked are
    /// those that the caller was authorized under.
    pub proof fn create_directory_is_fenced(
        expected_generation: i64, membership_generation: i64, drive_acl_generation: i64,
        namespace_generation: i64, resource_acl_generation: i64, log: Seq<Reply>,
    )
        ensures
            ({
                let fence =
                    log[1].required_row::<FenceGenerations>(DatabaseError::StaleGeneration)->Ok_0;
                Self::create_directory_fault(
                    expected_generation, membership_generation, drive_acl_generation,
                    namespace_generation, resource_acl_generation, log,
                ) is None && log.len() > 1
                    ==> log[1].required_row::<FenceGenerations>(
                        DatabaseError::StaleGeneration,
                    ) is Ok
                    && fence.agrees_with(
                        seq![
                            membership_generation, drive_acl_generation, namespace_generation,
                            resource_acl_generation,
                        ],
                    )
            }),
    {
    }

    /// Every statement of `create_directory` is about its tenant.
    pub proof fn create_directory_is_scoped<'a>(
        tenant_id: Uuid, actor: Uuid, session_id: Uuid, drive_id: Uuid, parent_id: Uuid,
        display_name: &'a str, name_key: &'a str, log: Seq<Reply>,
    )
        ensures
            crate::step::is_scoped(
                Self::create_directory_script(
                    tenant_id, actor, session_id, drive_id, parent_id, display_name, name_key, log,
                ),
                tenant_id,
            ),
    {
    }

}

} // verus!
