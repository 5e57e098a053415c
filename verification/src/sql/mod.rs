//! The statements of the repository. A statement that several operations share bears the name of
//! one of them.

pub mod catalog;
pub mod collaboration;
pub mod document;
pub mod mcp;
pub mod media;

use vstd::prelude::*;

verus! {

/// Whether a statement changes no row: it selects, and at most locks what it selects. Only
/// statements that a law speaks of are told apart.
pub open spec fn reads(sql: &'static str) -> bool {
    ||| sql == catalog::LOCK_AUTHORIZATION_FENCE
    ||| sql == catalog::LOCK_COLLABORATION_AUTHORIZATION_FENCE
    ||| sql == catalog::NODE
    ||| sql == catalog::BEGIN_UPLOAD_SELECT_NODES
    ||| sql == catalog::BEGIN_UPLOAD_SELECT_NODES_2
    ||| sql == catalog::BEGIN_UPLOAD_SELECT_CHECKPOINTS
    ||| sql == catalog::BEGIN_UPLOAD_SELECT_IMPORT_INTENTS
    ||| sql == catalog::BOOTSTRAP_TENANT_SELECT_STORAGE_BACKENDS
    ||| sql == catalog::COMPLETE_ORPHAN_PAYLOAD_DELETION_SELECT_PAYLOAD_OBJECTS
    ||| sql == collaboration::OBJECT
    ||| sql == collaboration::ABANDON_OBJECT_SELECT_OBJECTS
    ||| sql == collaboration::ABANDON_OBJECT_EXISTS_UPDATE_GROUPS
    ||| sql == collaboration::FINALIZE_OBJECT_SELECT_OBJECTS
    ||| sql == collaboration::PERSIST_UPDATE_GROUP_SELECT_EPOCHS
    ||| sql == collaboration::PERSIST_UPDATE_GROUP_EXISTS_INVOCATIONS
    ||| sql == collaboration::PERSIST_UPDATE_GROUP_SELECT_OBJECTS
    ||| sql == collaboration::PERSIST_UPDATE_GROUP_SELECT_UPDATE_GROUPS
    ||| sql == collaboration::COMMIT_SNAPSHOT_SELECT_EPOCHS
    ||| sql == collaboration::COMMIT_SNAPSHOT_SELECT_OBJECTS
    ||| sql == collaboration::COMMIT_SNAPSHOT_SELECT_SNAPSHOTS
    ||| sql == collaboration::COMPLETE_COLLABORATION_PAYLOAD_DELETION_SELECT_OBJECTS
    ||| sql == document::RECEIVE_DOCUMENT_CALLBACK_SELECT_SESSION_EVENTS
    ||| sql == document::RECEIVE_DOCUMENT_CALLBACK_SELECT_PARTICIPANTS
    ||| sql == document::RECEIVED_DOCUMENT_REVISION_BY_DIGEST
    ||| sql == document::DOCUMENT_OPERATION_REPLAY_SELECT_ADVISORY_LOCK
    ||| sql == document::DOCUMENT_OPERATION_REPLAY_SELECT_OPERATION_RECEIPTS
    ||| sql == document::ISSUE_DOCUMENT_LAUNCH_GRANT_SELECT_PARTICIPANTS
    ||| sql == document::ISSUE_DOCUMENT_LAUNCH_GRANT_EXISTS_LAUNCH_GRANTS
    ||| sql == document::BEGIN_DOCUMENT_REVISION_SELECT_PARTICIPANTS
    ||| sql == document::COMMIT_DOCUMENT_REVISION_SELECT_REVISIONS
    ||| sql == document::REJECT_DOCUMENT_REVISION_FOR_AUTHORIZATION_CHANGE_SELECT_REVISIONS
    ||| sql == document::COMPLETE_DOCUMENT_PAYLOAD_DELETION_SELECT_PAYLOAD_OBJECTS
    ||| sql == media::ADMIT_MEDIA_PREVIEW_SELECT_PREVIEWS
}

} // verus!
