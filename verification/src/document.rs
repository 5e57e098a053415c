//! Document editing sessions: provider-neutral persistence and commit fencing.

use std::sync::Arc;

use vstd::prelude::*;

use crate::database::Database;
use crate::error::DatabaseError;
use crate::error::Fault;
use crate::fence::FenceGenerations;
use crate::id::Uuid;
use crate::json::Json;
use crate::row::FromRow;
use crate::row::Reply;
use crate::row::Row;
use crate::row::affected;
use crate::row::drawn;
use crate::row::exactly_one;
use crate::row::many;
use crate::row::optional;
use crate::row::required;
use crate::row::single;
use crate::sql::catalog;
use crate::sql::document as sql;
use crate::step::Command;
use crate::step::CommandView;
use crate::step::Detail;
use crate::step::Envelope;
use crate::step::ErrorRule;
use crate::step::Fetch;
use crate::step::Param;
use crate::step::Step;
use crate::step::StepView;
use crate::step::ask;
use crate::step::ask_all;
use crate::step::ask_execute;
use crate::step::ask_one;
use crate::step::ask_optional;
use crate::step::stop;
use crate::step::stop_list;
use crate::text::bytes_eq;
use crate::text::same_digest;
use crate::text::text_eq;

verus! {

/// How many participants of one provider may be active at a time.
pub const DOCUMENT_MAX_ACTIVE_PARTICIPANTS: i64 = 20;

/// The size of the largest document that can be edited.
pub const DOCUMENT_MAX_BYTES: i64 = 104_857_600;

/// The generations under which a participant was authorized.
#[derive(Clone, Copy, Debug, PartialEq, Eq, Structural)]
pub struct DocumentAuthorizationGenerations {
    pub membership: i64,
    pub drive_acl: i64,
    pub namespace: i64,
    pub resource_acl: i64,
}

impl DocumentAuthorizationGenerations {
    /// What a row holds, read by its column names.
    #[verifier::opaque]
    pub open spec fn of_row(row: Row) -> Result<DocumentAuthorizationGenerations, Fault> {
        if row.column::<i64>("membership_generation"@) is Some
            && row.column::<i64>("drive_acl_generation"@) is Some
            && row.column::<i64>("namespace_generation"@) is Some
            && row.column::<i64>("resource_acl_generation"@) is Some {
            Ok(
                DocumentAuthorizationGenerations {
                    membership: row.column::<i64>("membership_generation"@)->0,
                    drive_acl: row.column::<i64>("drive_acl_generation"@)->0,
                    namespace: row.column::<i64>("namespace_generation"@)->0,
                    resource_acl: row.column::<i64>("resource_acl_generation"@)->0,
                },
            )
        } else {
            Err(Fault::Malformed)
        }
    }
}

impl FromRow for DocumentAuthorizationGenerations {
    open spec fn row_spec(row: Row) -> Result<DocumentAuthorizationGenerations, Fault> {
        DocumentAuthorizationGenerations::of_row(row)
    }

    fn from_row(row: &Row) -> (r: Result<DocumentAuthorizationGenerations, Fault>) {
        proof {
            reveal(DocumentAuthorizationGenerations::of_row);
        }
        let membership: i64 = match row.get("membership_generation") {
            Some(v) => v,
            None => return Err(Fault::Malformed),
        };
        let drive_acl: i64 = match row.get("drive_acl_generation") {
            Some(v) => v,
            None => return Err(Fault::Malformed),
        };
        let namespace: i64 = match row.get("namespace_generation") {
            Some(v) => v,
            None => return Err(Fault::Malformed),
        };
        let resource_acl: i64 = match row.get("resource_acl_generation") {
            Some(v) => v,
            None => return Err(Fault::Malformed),
        };
        Ok(DocumentAuthorizationGenerations { 
            membership, drive_acl, namespace, resource_acl,
         })
    }
}

impl DocumentAuthorizationGenerations {
    /// The generations in the order in which the fence compares them.
    pub open spec fn expected(self) -> Seq<i64> {
        seq![self.membership, self.drive_acl, self.namespace, self.resource_acl]
    }

    /// The generations in the order in which the fence compares them.
    pub fn as_array(self) -> (r: [i64; 4])
        ensures
            r@ == self.expected(),
    {
        let generations: [i64; 4] = [
            self.membership,
            self.drive_acl,
            self.namespace,
            self.resource_acl,
        ];
        assert(generations@ =~= self.expected());
        generations
    }
}

#[derive(Debug)]
pub struct CreateDocumentSessionInput<'a> {
    pub tenant_id: Uuid,
    pub actor_principal_id: Uuid,
    pub api_session_id: Uuid,
    pub drive_id: Uuid,
    pub node_id: Uuid,
    pub base_version_id: Uuid,
    pub provider_id: &'a str,
    pub mode: &'a str,
    pub generations: DocumentAuthorizationGenerations,
    pub maximum_active_participants: i64,
    pub maximum_document_bytes: i64,
    pub operation_digest: &'a [u8; 32],
    pub request_fingerprint: &'a [u8; 32],
}

/// An editing session on a file. `conflict_head_version_id` is the node's current head where the
/// session is conflicted.
#[derive(Debug)]
pub struct DocumentSessionRecord {
    pub id: Uuid,
    pub session_principal_id: Uuid,
    pub drive_id: Uuid,
    pub node_id: Uuid,
    pub base_version_id: Uuid,
    pub expected_head_version_id: Uuid,
    pub provider_id: String,
    pub state: String,
    pub fencing_token: i64,
    pub created_at: String,
    pub created_at_unix_microseconds: i64,
    pub absolute_expires_at: String,
    pub reconnect_until: String,
    pub closed_at: Option<String>,
    pub close_reason: Option<String>,
    pub conflict_head_version_id: Option<Uuid>,
}

impl DocumentSessionRecord {
    /// What a row holds, read by its column names.
    #[verifier::opaque]
    pub open spec fn of_row(row: Row) -> Result<DocumentSessionRecord, Fault> {
        if row.column::<Uuid>("id"@) is Some
            && row.column::<Uuid>("session_principal_id"@) is Some
            && row.column::<Uuid>("drive_id"@) is Some
            && row.column::<Uuid>("node_id"@) is Some
            && row.column::<Uuid>("base_version_id"@) is Some
            && row.column::<Uuid>("expected_head_version_id"@) is Some
            && row.column::<String>("provider_id"@) is Some
            && row.column::<String>("state"@) is Some
            && row.column::<i64>("fencing_token"@) is Some
            && row.column::<String>("created_at"@) is Some
            && row.column::<String>("absolute_expires_at"@) is Some
            && row.column::<String>("reconnect_until"@) is Some
            && row.column::<Option<String>>("close_reason"@) is Some {
            Ok(
                DocumentSessionRecord {
                    id: row.column::<Uuid>("id"@)->0,
                    session_principal_id: row.column::<Uuid>("session_principal_id"@)->0,
                    drive_id: row.column::<Uuid>("drive_id"@)->0,
                    node_id: row.column::<Uuid>("node_id"@)->0,
                    base_version_id: row.column::<Uuid>("base_version_id"@)->0,
                    expected_head_version_id: row.column::<Uuid>("expected_head_version_id"@)->0,
                    provider_id: row.column::<String>("provider_id"@)->0,
                    state: row.column::<String>("state"@)->0,
                    fencing_token: row.column::<i64>("fencing_token"@)->0,
                    created_at: row.column::<String>("created_at"@)->0,
                    created_at_unix_microseconds: match row.column::<i64>(
                        "created_at_unix_microseconds"@,
                    ) {
                        Some(value) => value,
                        None => 0,
                    },
                    absolute_expires_at: row.column::<String>("absolute_expires_at"@)->0,
                    reconnect_until: row.column::<String>("reconnect_until"@)->0,
                    closed_at: match row.column::<Option<String>>("closed_at"@) {
                        Some(value) => value,
                        None => None,
                    },
                    close_reason: row.column::<Option<String>>("close_reason"@)->0,
                    conflict_head_version_id: match row.column::<Option<Uuid>>(
                        "conflict_head_version_id"@,
                    ) {
                        Some(value) => value,
                        None => None,
                    },
                },
            )
        } else {
            Err(Fault::Malformed)
        }
    }
}

impl FromRow for DocumentSessionRecord {
    open spec fn row_spec(row: Row) -> Result<DocumentSessionRecord, Fault> {
        DocumentSessionRecord::of_row(row)
    }

    fn from_row(row: &Row) -> (r: Result<DocumentSessionRecord, Fault>) {
        proof {
            reveal(DocumentSessionRecord::of_row);
        }
        let id: Uuid = match row.get("id") {
            Some(v) => v,
            None => return Err(Fault::Malformed),
        };
        let session_principal_id: Uuid = match row.get("session_principal_id") {
            Some(v) => v,
            None => return Err(Fault::Malformed),
        };
        let drive_id: Uuid = match row.get("drive_id") {
            Some(v) => v,
            None => return Err(Fault::Malformed),
        };
        let node_id: Uuid = match row.get("node_id") {
            Some(v) => v,
            None => return Err(Fault::Malformed),
        };
        let base_version_id: Uuid = match row.get("base_version_id") {
            Some(v) => v,
            None => return Err(Fault::Malformed),
        };
        let expected_head_version_id: Uuid = match row.get("expected_head_version_id") {
            Some(v) => v,
            None => return Err(Fault::Malformed),
        };
        let provider_id: String = match row.get("provider_id") {
            Some(v) => v,
            None => return Err(Fault::Malformed),
        };
        let state: String = match row.get("state") {
            Some(v) => v,
            None => return Err(Fault::Malformed),
        };
        let fencing_token: i64 = match row.get("fencing_token") {
            Some(v) => v,
            None => return Err(Fault::Malformed),
        };
        let created_at: String = match row.get("created_at") {
            Some(v) => v,
            None => return Err(Fault::Malformed),
        };
        let created_at_unix_microseconds: i64 = match row.get("created_at_unix_microseconds") {
            Some(v) => v,
            None => 0,
        };
        let absolute_expires_at: String = match row.get("absolute_expires_at") {
            Some(v) => v,
            None => return Err(Fault::Malformed),
        };
        let reconnect_until: String = match row.get("reconnect_until") {
            Some(v) => v,
            None => return Err(Fault::Malformed),
        };
        let closed_at: Option<String> = match row.get("closed_at") {
            Some(v) => v,
            None => None,
        };
        let close_reason: Option<String> = match row.get("close_reason") {
            Some(v) => v,
            None => return Err(Fault::Malformed),
        };
        let conflict_head_version_id: Option<Uuid> = match row.get("conflict_head_version_id") {
            Some(v) => v,
            None => None,
        };
        Ok(DocumentSessionRecord {
            id, session_principal_id, drive_id, node_id, base_version_id,
            expected_head_version_id, provider_id, state, fencing_token, created_at,
            created_at_unix_microseconds, absolute_expires_at, reconnect_until, closed_at,
            close_reason, conflict_head_version_id,
        })
    }
}

/// A participant of a session, read from a row that joins it with its session. In a projection for
/// I/O the name and the time of joining are empty.
#[derive(Debug)]
pub struct DocumentParticipantRecord {
    pub id: Uuid,
    pub document_session_id: Uuid,
    pub user_principal_id: Uuid,
    pub api_session_id: Uuid,
    pub mode: String,
    pub state: String,
    pub display_name: String,
    pub created_at: String,
    pub last_activity_at: String,
    pub disconnected_until: Option<String>,
    pub generations: DocumentAuthorizationGenerations,
}

/// A participant, as contracts speak of one whose name or time of joining may be empty.
#[verifier::ext_equal]
pub struct DocumentParticipantView {
    pub id: Uuid,
    pub document_session_id: Uuid,
    pub user_principal_id: Uuid,
    pub api_session_id: Uuid,
    pub mode: String,
    pub state: String,
    pub display_name: Seq<char>,
    pub created_at: Seq<char>,
    pub last_activity_at: String,
    pub disconnected_until: Option<String>,
    pub generations: DocumentAuthorizationGenerations,
}

impl View for DocumentParticipantRecord {
    type V = DocumentParticipantView;

    open spec fn view(&self) -> DocumentParticipantView {
        DocumentParticipantView {
            id: self.id,
            document_session_id: self.document_session_id,
            user_principal_id: self.user_principal_id,
            api_session_id: self.api_session_id,
            mode: self.mode,
            state: self.state,
            display_name: self.display_name@,
            created_at: self.created_at@,
            last_activity_at: self.last_activity_at,
            disconnected_until: self.disconnected_until,
            generations: self.generations,
        }
    }
}

impl DocumentParticipantRecord {
    /// What a row holds, read by its column names.
    #[verifier::opaque]
    pub open spec fn of_row(row: Row) -> Result<DocumentParticipantRecord, Fault> {
        if row.column::<Uuid>("participant_id"@) is Some
            && row.column::<Uuid>("document_session_id"@) is Some
            && row.column::<Uuid>("user_principal_id"@) is Some
            && row.column::<Uuid>("api_session_id"@) is Some
            && row.column::<String>("mode"@) is Some
            && row.column::<String>("participant_state"@) is Some
            && row.column::<String>("display_name"@) is Some
            && row.column::<String>("participant_created_at"@) is Some
            && row.column::<String>("last_activity_at"@) is Some
            && row.column::<Option<String>>("disconnected_until"@) is Some
            && <DocumentAuthorizationGenerations as FromRow>::row_spec(row) is Ok {
            Ok(
                DocumentParticipantRecord {
                    id: row.column::<Uuid>("participant_id"@)->0,
                    document_session_id: row.column::<Uuid>("document_session_id"@)->0,
                    user_principal_id: row.column::<Uuid>("user_principal_id"@)->0,
                    api_session_id: row.column::<Uuid>("api_session_id"@)->0,
                    mode: row.column::<String>("mode"@)->0,
                    state: row.column::<String>("participant_state"@)->0,
                    display_name: row.column::<String>("display_name"@)->0,
                    created_at: row.column::<String>("participant_created_at"@)->0,
                    last_activity_at: row.column::<String>("last_activity_at"@)->0,
                    disconnected_until: row.column::<Option<String>>("disconnected_until"@)->0,
                    generations: <DocumentAuthorizationGenerations as FromRow>::row_spec(row)->Ok_0,
                },
            )
        } else {
            Err(Fault::Malformed)
        }
    }
}

impl FromRow for DocumentParticipantRecord {
    open spec fn row_spec(row: Row) -> Result<DocumentParticipantRecord, Fault> {
        DocumentParticipantRecord::of_row(row)
    }

    fn from_row(row: &Row) -> (r: Result<DocumentParticipantRecord, Fault>) {
        proof {
            reveal(DocumentParticipantRecord::of_row);
        }
        let id: Uuid = match row.get("participant_id") {
            Some(v) => v,
            None => return Err(Fault::Malformed),
        };
        let document_session_id: Uuid = match row.get("document_session_id") {
            Some(v) => v,
            None => return Err(Fault::Malformed),
        };
        let user_principal_id: Uuid = match row.get("user_principal_id") {
            Some(v) => v,
            None => return Err(Fault::Malformed),
        };
        let api_session_id: Uuid = match row.get("api_session_id") {
            Some(v) => v,
            None => return Err(Fault::Malformed),
        };
        let mode: String = match row.get("mode") {
            Some(v) => v,
            None => return Err(Fault::Malformed),
        };
        let state: String = match row.get("participant_state") {
            Some(v) => v,
            None => return Err(Fault::Malformed),
        };
        let display_name: String = match row.get("display_name") {
            Some(v) => v,
            None => return Err(Fault::Malformed),
        };
        let created_at: String = match row.get("participant_created_at") {
            Some(v) => v,
            None => return Err(Fault::Malformed),
        };
        let last_activity_at: String = match row.get("last_activity_at") {
            Some(v) => v,
            None => return Err(Fault::Malformed),
        };
        let disconnected_until: Option<String> = match row.get("disconnected_until") {
            Some(v) => v,
            None => return Err(Fault::Malformed),
        };
        let generations: DocumentAuthorizationGenerations = match FromRow::from_row(row) {
            Ok(v) => v,
            Err(_) => return Err(Fault::Malformed),
        };
        Ok(DocumentParticipantRecord {
            id, document_session_id, user_principal_id, api_session_id, mode, state,
            display_name, created_at, last_activity_at, disconnected_until, generations,
        })
    }
}

/// A participant, read from a row under its own column names.
#[derive(Debug)]
pub struct PlainParticipant {
    pub id: Uuid,
    pub document_session_id: Uuid,
    pub user_principal_id: Uuid,
    pub api_session_id: Uuid,
    pub mode: String,
    pub state: String,
    pub last_activity_at: String,
    pub disconnected_until: Option<String>,
    pub generations: DocumentAuthorizationGenerations,
}

impl PlainParticipant {
    /// What a row holds, read by its column names.
    #[verifier::opaque]
    pub open spec fn of_row(row: Row) -> Result<PlainParticipant, Fault> {
        if row.column::<Uuid>("id"@) is Some
            && row.column::<Uuid>("document_session_id"@) is Some
            && row.column::<Uuid>("user_principal_id"@) is Some
            && row.column::<Uuid>("api_session_id"@) is Some
            && row.column::<String>("mode"@) is Some
            && row.column::<String>("state"@) is Some
            && row.column::<String>("last_activity_at"@) is Some
            && row.column::<Option<String>>("disconnected_until"@) is Some
            && <DocumentAuthorizationGenerations as FromRow>::row_spec(row) is Ok {
            Ok(
                PlainParticipant {
                    id: row.column::<Uuid>("id"@)->0,
                    document_session_id: row.column::<Uuid>("document_session_id"@)->0,
                    user_principal_id: row.column::<Uuid>("user_principal_id"@)->0,
                    api_session_id: row.column::<Uuid>("api_session_id"@)->0,
                    mode: row.column::<String>("mode"@)->0,
                    state: row.column::<String>("state"@)->0,
                    last_activity_at: row.column::<String>("last_activity_at"@)->0,
                    disconnected_until: row.column::<Option<String>>("disconnected_until"@)->0,
                    generations: <DocumentAuthorizationGenerations as FromRow>::row_spec(row)->Ok_0,
                },
            )
        } else {
            Err(Fault::Malformed)
        }
    }
}

impl FromRow for PlainParticipant {
    open spec fn row_spec(row: Row) -> Result<PlainParticipant, Fault> {
        PlainParticipant::of_row(row)
    }

    fn from_row(row: &Row) -> (r: Result<PlainParticipant, Fault>) {
        proof {
            reveal(PlainParticipant::of_row);
        }
        let id: Uuid = match row.get("id") {
            Some(v) => v,
            None => return Err(Fault::Malformed),
        };
        let document_session_id: Uuid = match row.get("document_session_id") {
            Some(v) => v,
            None => return Err(Fault::Malformed),
        };
        let user_principal_id: Uuid = match row.get("user_principal_id") {
            Some(v) => v,
            None => return Err(Fault::Malformed),
        };
        let api_session_id: Uuid = match row.get("api_session_id") {
            Some(v) => v,
            None => return Err(Fault::Malformed),
        };
        let mode: String = match row.get("mode") {
            Some(v) => v,
            None => return Err(Fault::Malformed),
        };
        let state: String = match row.get("state") {
            Some(v) => v,
            None => return Err(Fault::Malformed),
        };
        let last_activity_at: String = match row.get("last_activity_at") {
            Some(v) => v,
            None => return Err(Fault::Malformed),
        };
        let disconnected_until: Option<String> = match row.get("disconnected_until") {
            Some(v) => v,
            None => return Err(Fault::Malformed),
        };
        let generations: DocumentAuthorizationGenerations = match FromRow::from_row(row) {
            Ok(v) => v,
            Err(_) => return Err(Fault::Malformed),
        };
        Ok(PlainParticipant {
            id, document_session_id, user_principal_id, api_session_id, mode, state,
            last_activity_at, disconnected_until, generations,
        })
    }
}

impl PlainParticipant {
    /// The participant in a projection for I/O, which names it but leaves out when it joined.
    pub open spec fn projected_spec(self, display_name: Seq<char>) -> DocumentParticipantView {
        DocumentParticipantView {
            id: self.id,
            document_session_id: self.document_session_id,
            user_principal_id: self.user_principal_id,
            api_session_id: self.api_session_id,
            mode: self.mode,
            state: self.state,
            display_name: display_name,
            created_at: Seq::empty(),
            last_activity_at: self.last_activity_at,
            disconnected_until: self.disconnected_until,
            generations: self.generations,
        }
    }

    /// The participant in a projection for I/O.
    pub fn projected(self, display_name: String) -> (r: DocumentParticipantRecord)
        ensures
            r@ == self.projected_spec(display_name@),
    {
        DocumentParticipantRecord {
            id: self.id,
            document_session_id: self.document_session_id,
            user_principal_id: self.user_principal_id,
            api_session_id: self.api_session_id,
            mode: self.mode,
            state: self.state,
            display_name,
            created_at: String::new(),
            last_activity_at: self.last_activity_at,
            disconnected_until: self.disconnected_until,
            generations: self.generations,
        }
    }
}

/// A participant with the time at which it joined.
#[derive(Debug)]
pub struct JoinedParticipant {
    pub participant: PlainParticipant,
    pub created_at: String,
}

impl FromRow for JoinedParticipant {
    open spec fn row_spec(row: Row) -> Result<JoinedParticipant, Fault> {
        if <PlainParticipant as FromRow>::row_spec(row) is Ok
            && row.column::<String>("participant_created_at"@) is Some {
            Ok(
                JoinedParticipant {
                    participant: <PlainParticipant as FromRow>::row_spec(row)->Ok_0,
                    created_at: row.column::<String>("participant_created_at"@)->0,
                },
            )
        } else {
            Err(Fault::Malformed)
        }
    }

    fn from_row(row: &Row) -> (r: Result<JoinedParticipant, Fault>) {
        let participant: PlainParticipant = match FromRow::from_row(row) {
            Ok(v) => v,
            Err(_) => return Err(Fault::Malformed),
        };
        let created_at: String = match row.get("participant_created_at") {
            Some(v) => v,
            None => return Err(Fault::Malformed),
        };
        Ok(JoinedParticipant { participant, created_at })
    }
}

impl JoinedParticipant {
    /// The participant's record under a display name.
    pub open spec fn named_spec(self, display_name: String) -> DocumentParticipantRecord {
        DocumentParticipantRecord {
            id: self.participant.id,
            document_session_id: self.participant.document_session_id,
            user_principal_id: self.participant.user_principal_id,
            api_session_id: self.participant.api_session_id,
            mode: self.participant.mode,
            state: self.participant.state,
            display_name: display_name,
            created_at: self.created_at,
            last_activity_at: self.participant.last_activity_at,
            disconnected_until: self.participant.disconnected_until,
            generations: self.participant.generations,
        }
    }

    /// Gives the participant's record a display name.
    pub fn named(self, display_name: String) -> (r: DocumentParticipantRecord)
        ensures
            r == self.named_spec(display_name),
    {
        DocumentParticipantRecord {
            id: self.participant.id,
            document_session_id: self.participant.document_session_id,
            user_principal_id: self.participant.user_principal_id,
            api_session_id: self.participant.api_session_id,
            mode: self.participant.mode,
            state: self.participant.state,
            display_name,
            created_at: self.created_at,
            last_activity_at: self.participant.last_activity_at,
            disconnected_until: self.participant.disconnected_until,
            generations: self.participant.generations,
        }
    }
}

/// What minting a document I/O capability needs. Payload locators are left out: only the I/O
/// worker resolves those.
#[derive(Debug)]
pub struct DocumentIoContext {
    pub session: DocumentSessionRecord,
    pub participant: DocumentParticipantRecord,
    pub revision: DocumentRevisionRecord,
    pub base_payload_id: Uuid,
    pub base_size_bytes: i64,
}

/// What a document I/O capability needs, as contracts speak of it.
#[verifier::ext_equal]
pub struct DocumentIoContextView {
    pub session: DocumentSessionRecord,
    pub participant: DocumentParticipantView,
    pub revision: DocumentRevisionRecord,
    pub base_payload_id: Uuid,
    pub base_size_bytes: i64,
}

impl View for DocumentIoContext {
    type V = DocumentIoContextView;

    open spec fn view(&self) -> DocumentIoContextView {
        DocumentIoContextView {
            session: self.session,
            participant: self.participant@,
            revision: self.revision,
            base_payload_id: self.base_payload_id,
            base_size_bytes: self.base_size_bytes,
        }
    }
}

#[derive(Debug)]
pub struct DocumentLaunchIoContext {
    pub session: DocumentSessionRecord,
    pub participant: DocumentParticipantRecord,
    pub base_payload_id: Uuid,
    pub base_size_bytes: i64,
    pub base_media_type: String,
    pub source_display_name: String,
}

/// What a launch needs, as contracts speak of it.
#[verifier::ext_equal]
pub struct DocumentLaunchIoContextView {
    pub session: DocumentSessionRecord,
    pub participant: DocumentParticipantView,
    pub base_payload_id: Uuid,
    pub base_size_bytes: i64,
    pub base_media_type: String,
    pub source_display_name: String,
}

impl View for DocumentLaunchIoContext {
    type V = DocumentLaunchIoContextView;

    open spec fn view(&self) -> DocumentLaunchIoContextView {
        DocumentLaunchIoContextView {
            session: self.session,
            participant: self.participant@,
            base_payload_id: self.base_payload_id,
            base_size_bytes: self.base_size_bytes,
            base_media_type: self.base_media_type,
            source_display_name: self.source_display_name,
        }
    }
}

/// A file that keeps a conflicted revision.
#[derive(Debug)]
pub struct DocumentConflictCopyRecord {
    pub drive_id: Uuid,
    pub node_id: Uuid,
    pub version_id: Uuid,
    pub display_name: String,
    pub media_type: String,
    pub size_bytes: i64,
    pub blake3: Arc<Vec<u8>>,
}

/// A participant's way into a session.
#[derive(Debug)]
pub struct DocumentLaunchRecord {
    pub grant_id: Uuid,
    pub participant: DocumentParticipantRecord,
    pub session: DocumentSessionRecord,
    pub expires_at: String,
}

/// The outcome of an operation that is recorded under its digest.
#[derive(Debug)]
pub enum Recorded<T> {
    /// It took effect now.
    Created(T),
    /// It took effect before; this is the response that was stored then.
    Replayed(Arc<Json>),
}

/// What the file-name rules make of a name.
#[derive(Debug)]
pub struct NormalizedName<'a> {
    pub display: &'a String,
    pub comparison_key: &'a str,
}

/// A revision of a document that a provider hands in.
#[derive(Debug)]
pub struct DocumentRevisionRecord {
    pub id: Uuid,
    pub document_session_id: Uuid,
    pub actor_participant_id: Uuid,
    pub kind: String,
    pub state: String,
    pub expected_head_version_id: Uuid,
    pub payload_id: Option<Uuid>,
    pub reserved_bytes: i64,
    pub size_bytes: Option<i64>,
    pub blake3: Option<Arc<Vec<u8>>>,
    pub media_type: Option<String>,
    pub committed_version_id: Option<Uuid>,
    pub retained_until: Option<String>,
}

impl DocumentRevisionRecord {
    /// What a row holds, read by its column names.
    #[verifier::opaque]
    pub open spec fn of_row(row: Row) -> Result<DocumentRevisionRecord, Fault> {
        if row.column::<Uuid>("id"@) is Some
            && row.column::<Uuid>("document_session_id"@) is Some
            && row.column::<Uuid>("actor_participant_id"@) is Some
            && row.column::<String>("kind"@) is Some
            && row.column::<String>("state"@) is Some
            && row.column::<Uuid>("expected_head_version_id"@) is Some
            && row.column::<Option<Uuid>>("payload_id"@) is Some
            && row.column::<i64>("reserved_bytes"@) is Some
            && row.column::<Option<i64>>("size_bytes"@) is Some
            && row.column::<Option<Arc<Vec<u8>>>>("blake3"@) is Some
            && row.column::<Option<String>>("media_type"@) is Some
            && row.column::<Option<Uuid>>("committed_version_id"@) is Some
            && row.column::<Option<String>>("retained_until"@) is Some {
            Ok(
                DocumentRevisionRecord {
                    id: row.column::<Uuid>("id"@)->0,
                    document_session_id: row.column::<Uuid>("document_session_id"@)->0,
                    actor_participant_id: row.column::<Uuid>("actor_participant_id"@)->0,
                    kind: row.column::<String>("kind"@)->0,
                    state: row.column::<String>("state"@)->0,
                    expected_head_version_id: row.column::<Uuid>("expected_head_version_id"@)->0,
                    payload_id: row.column::<Option<Uuid>>("payload_id"@)->0,
                    reserved_bytes: row.column::<i64>("reserved_bytes"@)->0,
                    size_bytes: row.column::<Option<i64>>("size_bytes"@)->0,
                    blake3: row.column::<Option<Arc<Vec<u8>>>>("blake3"@)->0,
                    media_type: row.column::<Option<String>>("media_type"@)->0,
                    committed_version_id: row.column::<Option<Uuid>>("committed_version_id"@)->0,
                    retained_until: row.column::<Option<String>>("retained_until"@)->0,
                },
            )
        } else {
            Err(Fault::Malformed)
        }
    }
}

impl FromRow for DocumentRevisionRecord {
    open spec fn row_spec(row: Row) -> Result<DocumentRevisionRecord, Fault> {
        DocumentRevisionRecord::of_row(row)
    }

    fn from_row(row: &Row) -> (r: Result<DocumentRevisionRecord, Fault>) {
        proof {
            reveal(DocumentRevisionRecord::of_row);
        }
        let id: Uuid = match row.get("id") {
            Some(v) => v,
            None => return Err(Fault::Malformed),
        };
        let document_session_id: Uuid = match row.get("document_session_id") {
            Some(v) => v,
            None => return Err(Fault::Malformed),
        };
        let actor_participant_id: Uuid = match row.get("actor_participant_id") {
            Some(v) => v,
            None => return Err(Fault::Malformed),
        };
        let kind: String = match row.get("kind") {
            Some(v) => v,
            None => return Err(Fault::Malformed),
        };
        let state: String = match row.get("state") {
            Some(v) => v,
            None => return Err(Fault::Malformed),
        };
        let expected_head_version_id: Uuid = match row.get("expected_head_version_id") {
            Some(v) => v,
            None => return Err(Fault::Malformed),
        };
        let payload_id: Option<Uuid> = match row.get("payload_id") {
            Some(v) => v,
            None => return Err(Fault::Malformed),
        };
        let reserved_bytes: i64 = match row.get("reserved_bytes") {
            Some(v) => v,
            None => return Err(Fault::Malformed),
        };
        let size_bytes: Option<i64> = match row.get("size_bytes") {
            Some(v) => v,
            None => return Err(Fault::Malformed),
        };
        let blake3: Option<Arc<Vec<u8>>> = match row.get("blake3") {
            Some(v) => v,
            None => return Err(Fault::Malformed),
        };
        let media_type: Option<String> = match row.get("media_type") {
            Some(v) => v,
            None => return Err(Fault::Malformed),
        };
        let committed_version_id: Option<Uuid> = match row.get("committed_version_id") {
            Some(v) => v,
            None => return Err(Fault::Malformed),
        };
        let retained_until: Option<String> = match row.get("retained_until") {
            Some(v) => v,
            None => return Err(Fault::Malformed),
        };
        Ok(DocumentRevisionRecord {
            id, document_session_id, actor_participant_id, kind, state,
            expected_head_version_id, payload_id, reserved_bytes, size_bytes, blake3,
            media_type, committed_version_id, retained_until,
        })
    }
}

/// A revision with the payload that was allocated for it.
#[derive(Debug)]
pub struct DocumentPayloadAllocation {
    pub revision: DocumentRevisionRecord,
    pub payload_id: Uuid,
    pub backend_id: Uuid,
    pub locator: Uuid,
    pub fencing_token: i64,
}

#[derive(Debug)]
pub struct BeginDocumentRevisionInput<'a> {
    pub tenant_id: Uuid,
    pub document_session_id: Uuid,
    pub participant_id: Uuid,
    pub provider_event_digest: &'a [u8; 32],
    pub kind: &'a str,
    pub reserved_bytes: i64,
    pub media_type: &'a str,
}

#[derive(Debug)]
pub struct ReceiveDocumentCallbackInput<'a> {
    pub tenant_id: Uuid,
    pub document_session_id: Uuid,
    pub participant_id: Uuid,
    pub provider_event_digest: &'a [u8; 32],
    pub callback_kind: &'a str,
    pub revision_kind: Option<&'a str>,
    pub activity: Option<&'a str>,
}

#[derive(Debug)]
pub struct ReceivedDocumentCallback {
    pub event_id: Uuid,
    pub revision: Option<ReceivedDocumentRevision>,
}

#[derive(Debug)]
pub struct ForceCloseDocumentSessionInput<'a> {
    pub tenant_id: Uuid,
    pub session_id: Uuid,
    pub actor_principal_id: Uuid,
    pub api_session_id: Uuid,
    pub drive_id: Uuid,
    pub node_id: Uuid,
    pub generations: DocumentAuthorizationGenerations,
    pub reason: &'a str,
}

/// A revision that a callback announced.
#[derive(Debug)]
pub struct ReceivedDocumentRevision {
    pub id: Uuid,
    pub document_session_id: Uuid,
    pub participant_id: Uuid,
    pub provider_event_digest: Arc<Vec<u8>>,
    pub kind: String,
    pub media_type: String,
    pub state: String,
}

impl ReceivedDocumentRevision {
    /// What a row holds, read by its column names.
    #[verifier::opaque]
    pub open spec fn of_row(row: Row) -> Result<ReceivedDocumentRevision, Fault> {
        if row.column::<Uuid>("id"@) is Some
            && row.column::<Uuid>("document_session_id"@) is Some
            && row.column::<Uuid>("actor_participant_id"@) is Some
            && row.column::<Arc<Vec<u8>>>("provider_event_digest"@) is Some
            && row.column::<String>("kind"@) is Some
            && row.column::<String>("media_type"@) is Some
            && row.column::<String>("state"@) is Some {
            Ok(
                ReceivedDocumentRevision {
                    id: row.column::<Uuid>("id"@)->0,
                    document_session_id: row.column::<Uuid>("document_session_id"@)->0,
                    participant_id: row.column::<Uuid>("actor_participant_id"@)->0,
                    provider_event_digest: row.column::<Arc<Vec<u8>>>("provider_event_digest"@)->0,
                    kind: row.column::<String>("kind"@)->0,
                    media_type: row.column::<String>("media_type"@)->0,
                    state: row.column::<String>("state"@)->0,
                },
            )
        } else {
            Err(Fault::Malformed)
        }
    }
}

impl FromRow for ReceivedDocumentRevision {
    open spec fn row_spec(row: Row) -> Result<ReceivedDocumentRevision, Fault> {
        ReceivedDocumentRevision::of_row(row)
    }

    fn from_row(row: &Row) -> (r: Result<ReceivedDocumentRevision, Fault>) {
        proof {
            reveal(ReceivedDocumentRevision::of_row);
        }
        let id: Uuid = match row.get("id") {
            Some(v) => v,
            None => return Err(Fault::Malformed),
        };
        let document_session_id: Uuid = match row.get("document_session_id") {
            Some(v) => v,
            None => return Err(Fault::Malformed),
        };
        let participant_id: Uuid = match row.get("actor_participant_id") {
            Some(v) => v,
            None => return Err(Fault::Malformed),
        };
        let provider_event_digest: Arc<Vec<u8>> = match row.get("provider_event_digest") {
            Some(v) => v,
            None => return Err(Fault::Malformed),
        };
        let kind: String = match row.get("kind") {
            Some(v) => v,
            None => return Err(Fault::Malformed),
        };
        let media_type: String = match row.get("media_type") {
            Some(v) => v,
            None => return Err(Fault::Malformed),
        };
        let state: String = match row.get("state") {
            Some(v) => v,
            None => return Err(Fault::Malformed),
        };
        Ok(ReceivedDocumentRevision { 
            id, document_session_id, participant_id, provider_event_digest, kind, media_type,
            state,
         })
    }
}

/// What closing disconnected participants and drained sessions did.
#[derive(Clone, Copy, Debug, PartialEq, Eq, Structural)]
pub struct DocumentReconnectSweepReport {
    pub participants_closed: u64,
    pub sessions_expired: u64,
}

/// What became of a revision that was to be committed.
#[derive(Debug)]
pub enum DocumentCommitResult {
    Committed { version_id: Uuid },
    NoOp { version_id: Uuid },
    Conflict { retained_until: String },
}

/// A callback event that was received before.
#[derive(Debug)]
pub struct CallbackEvent {
    pub id: Uuid,
    pub participant_id: Option<Uuid>,
    pub event_kind: String,
    pub mode: String,
}

impl CallbackEvent {
    /// What a row holds, read by its column names.
    #[verifier::opaque]
    pub open spec fn of_row(row: Row) -> Result<CallbackEvent, Fault> {
        if row.column::<Uuid>("id"@) is Some
            && row.column::<Option<Uuid>>("participant_id"@) is Some
            && row.column::<String>("event_kind"@) is Some
            && row.column::<String>("mode"@) is Some {
            Ok(
                CallbackEvent {
                    id: row.column::<Uuid>("id"@)->0,
                    participant_id: row.column::<Option<Uuid>>("participant_id"@)->0,
                    event_kind: row.column::<String>("event_kind"@)->0,
                    mode: row.column::<String>("mode"@)->0,
                },
            )
        } else {
            Err(Fault::Malformed)
        }
    }
}

impl FromRow for CallbackEvent {
    open spec fn row_spec(row: Row) -> Result<CallbackEvent, Fault> {
        CallbackEvent::of_row(row)
    }

    fn from_row(row: &Row) -> (r: Result<CallbackEvent, Fault>) {
        proof {
            reveal(CallbackEvent::of_row);
        }
        let id: Uuid = match row.get("id") {
            Some(v) => v,
            None => return Err(Fault::Malformed),
        };
        let participant_id: Option<Uuid> = match row.get("participant_id") {
            Some(v) => v,
            None => return Err(Fault::Malformed),
        };
        let event_kind: String = match row.get("event_kind") {
            Some(v) => v,
            None => return Err(Fault::Malformed),
        };
        let mode: String = match row.get("mode") {
            Some(v) => v,
            None => return Err(Fault::Malformed),
        };
        Ok(CallbackEvent { id, participant_id, event_kind, mode })
    }
}

/// The participant that a callback speaks for.
#[derive(Debug)]
pub struct CallbackParticipant {
    pub user_principal_id: Uuid,
    pub api_session_id: Uuid,
    pub mode: String,
    pub generations: DocumentAuthorizationGenerations,
    pub drive_id: Uuid,
    pub node_id: Uuid,
    pub expected_head_version_id: Uuid,
    pub media_type: String,
}

impl CallbackParticipant {
    /// What a row holds, read by its column names.
    #[verifier::opaque]
    pub open spec fn of_row(row: Row) -> Result<CallbackParticipant, Fault> {
        if row.column::<Uuid>("user_principal_id"@) is Some
            && row.column::<Uuid>("api_session_id"@) is Some
            && row.column::<String>("mode"@) is Some
            && <DocumentAuthorizationGenerations as FromRow>::row_spec(row) is Ok
            && row.column::<Uuid>("drive_id"@) is Some
            && row.column::<Uuid>("node_id"@) is Some
            && row.column::<Uuid>("expected_head_version_id"@) is Some
            && row.column::<String>("media_type"@) is Some {
            Ok(
                CallbackParticipant {
                    user_principal_id: row.column::<Uuid>("user_principal_id"@)->0,
                    api_session_id: row.column::<Uuid>("api_session_id"@)->0,
                    mode: row.column::<String>("mode"@)->0,
                    generations: <DocumentAuthorizationGenerations as FromRow>::row_spec(row)->Ok_0,
                    drive_id: row.column::<Uuid>("drive_id"@)->0,
                    node_id: row.column::<Uuid>("node_id"@)->0,
                    expected_head_version_id: row.column::<Uuid>("expected_head_version_id"@)->0,
                    media_type: row.column::<String>("media_type"@)->0,
                },
            )
        } else {
            Err(Fault::Malformed)
        }
    }
}

impl FromRow for CallbackParticipant {
    open spec fn row_spec(row: Row) -> Result<CallbackParticipant, Fault> {
        CallbackParticipant::of_row(row)
    }

    fn from_row(row: &Row) -> (r: Result<CallbackParticipant, Fault>) {
        proof {
            reveal(CallbackParticipant::of_row);
        }
        let user_principal_id: Uuid = match row.get("user_principal_id") {
            Some(v) => v,
            None => return Err(Fault::Malformed),
        };
        let api_session_id: Uuid = match row.get("api_session_id") {
            Some(v) => v,
            None => return Err(Fault::Malformed),
        };
        let mode: String = match row.get("mode") {
            Some(v) => v,
            None => return Err(Fault::Malformed),
        };
        let generations: DocumentAuthorizationGenerations = match FromRow::from_row(row) {
            Ok(v) => v,
            Err(_) => return Err(Fault::Malformed),
        };
        let drive_id: Uuid = match row.get("drive_id") {
            Some(v) => v,
            None => return Err(Fault::Malformed),
        };
        let node_id: Uuid = match row.get("node_id") {
            Some(v) => v,
            None => return Err(Fault::Malformed),
        };
        let expected_head_version_id: Uuid = match row.get("expected_head_version_id") {
            Some(v) => v,
            None => return Err(Fault::Malformed),
        };
        let media_type: String = match row.get("media_type") {
            Some(v) => v,
            None => return Err(Fault::Malformed),
        };
        Ok(CallbackParticipant {
            user_principal_id, api_session_id, mode, generations, drive_id, node_id,
            expected_head_version_id, media_type,
        })
    }
}

/// The version that a session starts from.
#[derive(Debug)]
pub struct BaseVersion {
    pub size_bytes: i64,
    pub media_type: Option<String>,
}

impl BaseVersion {
    /// What a row holds, read by its column names.
    #[verifier::opaque]
    pub open spec fn of_row(row: Row) -> Result<BaseVersion, Fault> {
        if row.column::<i64>("size_bytes"@) is Some
            && row.column::<Option<String>>("media_type"@) is Some {
            Ok(
                BaseVersion {
                    size_bytes: row.column::<i64>("size_bytes"@)->0,
                    media_type: row.column::<Option<String>>("media_type"@)->0,
                },
            )
        } else {
            Err(Fault::Malformed)
        }
    }
}

impl FromRow for BaseVersion {
    open spec fn row_spec(row: Row) -> Result<BaseVersion, Fault> {
        BaseVersion::of_row(row)
    }

    fn from_row(row: &Row) -> (r: Result<BaseVersion, Fault>) {
        proof {
            reveal(BaseVersion::of_row);
        }
        let size_bytes: i64 = match row.get("size_bytes") {
            Some(v) => v,
            None => return Err(Fault::Malformed),
        };
        let media_type: Option<String> = match row.get("media_type") {
            Some(v) => v,
            None => return Err(Fault::Malformed),
        };
        Ok(BaseVersion { size_bytes, media_type })
    }
}

/// A launch grant that was redeemed.
#[derive(Debug)]
pub struct GrantLaunch {
    pub grant_id: Uuid,
    pub expires_at: String,
    pub participant: DocumentParticipantRecord,
    pub session: DocumentSessionRecord,
}

impl GrantLaunch {
    /// What a row holds, read by its column names.
    #[verifier::opaque]
    pub open spec fn of_row(row: Row) -> Result<GrantLaunch, Fault> {
        if row.column::<Uuid>("grant_id"@) is Some
            && row.column::<String>("grant_expires_at"@) is Some
            && <DocumentParticipantRecord as FromRow>::row_spec(row) is Ok
            && <DocumentSessionRecord as FromRow>::row_spec(row) is Ok {
            Ok(
                GrantLaunch {
                    grant_id: row.column::<Uuid>("grant_id"@)->0,
                    expires_at: row.column::<String>("grant_expires_at"@)->0,
                    participant: <DocumentParticipantRecord as FromRow>::row_spec(row)->Ok_0,
                    session: <DocumentSessionRecord as FromRow>::row_spec(row)->Ok_0,
                },
            )
        } else {
            Err(Fault::Malformed)
        }
    }
}

impl FromRow for GrantLaunch {
    open spec fn row_spec(row: Row) -> Result<GrantLaunch, Fault> {
        GrantLaunch::of_row(row)
    }

    fn from_row(row: &Row) -> (r: Result<GrantLaunch, Fault>) {
        proof {
            reveal(GrantLaunch::of_row);
        }
        let grant_id: Uuid = match row.get("grant_id") {
            Some(v) => v,
            None => return Err(Fault::Malformed),
        };
        let expires_at: String = match row.get("grant_expires_at") {
            Some(v) => v,
            None => return Err(Fault::Malformed),
        };
        let participant: DocumentParticipantRecord = match FromRow::from_row(row) {
            Ok(v) => v,
            Err(_) => return Err(Fault::Malformed),
        };
        let session: DocumentSessionRecord = match DocumentSessionRecord::from_row(row) {
            Ok(v) => v,
            Err(_) => return Err(Fault::Malformed),
        };
        Ok(GrantLaunch { grant_id, expires_at, participant, session })
    }
}

/// Where a session's file lies.
#[derive(Clone, Copy, Debug, PartialEq, Eq, Structural)]
pub struct SessionPlace {
    pub drive_id: Uuid,
    pub node_id: Uuid,
}

impl SessionPlace {
    /// What a row holds, read by its column names.
    #[verifier::opaque]
    pub open spec fn of_row(row: Row) -> Result<SessionPlace, Fault> {
        if row.column::<Uuid>("drive_id"@) is Some
            && row.column::<Uuid>("node_id"@) is Some {
            Ok(
                SessionPlace {
                    drive_id: row.column::<Uuid>("drive_id"@)->0,
                    node_id: row.column::<Uuid>("node_id"@)->0,
                },
            )
        } else {
            Err(Fault::Malformed)
        }
    }
}

impl FromRow for SessionPlace {
    open spec fn row_spec(row: Row) -> Result<SessionPlace, Fault> {
        SessionPlace::of_row(row)
    }

    fn from_row(row: &Row) -> (r: Result<SessionPlace, Fault>) {
        proof {
            reveal(SessionPlace::of_row);
        }
        let drive_id: Uuid = match row.get("drive_id") {
            Some(v) => v,
            None => return Err(Fault::Malformed),
        };
        let node_id: Uuid = match row.get("node_id") {
            Some(v) => v,
            None => return Err(Fault::Malformed),
        };
        Ok(SessionPlace { drive_id, node_id })
    }
}

/// A conflicted revision that can still be copied.
#[derive(Debug)]
pub struct ConflictRevision {
    pub payload_id: Uuid,
    pub size_bytes: i64,
    pub blake3: Arc<Vec<u8>>,
    pub media_type: String,
    pub reserved_bytes: i64,
    pub drive_id: Uuid,
}

impl ConflictRevision {
    /// What a row holds, read by its column names.
    #[verifier::opaque]
    pub open spec fn of_row(row: Row) -> Result<ConflictRevision, Fault> {
        if row.column::<Uuid>("payload_id"@) is Some
            && row.column::<i64>("size_bytes"@) is Some
            && row.column::<Arc<Vec<u8>>>("blake3"@) is Some
            && row.column::<String>("media_type"@) is Some
            && row.column::<i64>("reserved_bytes"@) is Some
            && row.column::<Uuid>("drive_id"@) is Some {
            Ok(
                ConflictRevision {
                    payload_id: row.column::<Uuid>("payload_id"@)->0,
                    size_bytes: row.column::<i64>("size_bytes"@)->0,
                    blake3: row.column::<Arc<Vec<u8>>>("blake3"@)->0,
                    media_type: row.column::<String>("media_type"@)->0,
                    reserved_bytes: row.column::<i64>("reserved_bytes"@)->0,
                    drive_id: row.column::<Uuid>("drive_id"@)->0,
                },
            )
        } else {
            Err(Fault::Malformed)
        }
    }
}

impl FromRow for ConflictRevision {
    open spec fn row_spec(row: Row) -> Result<ConflictRevision, Fault> {
        ConflictRevision::of_row(row)
    }

    fn from_row(row: &Row) -> (r: Result<ConflictRevision, Fault>) {
        proof {
            reveal(ConflictRevision::of_row);
        }
        let payload_id: Uuid = match row.get("payload_id") {
            Some(v) => v,
            None => return Err(Fault::Malformed),
        };
        let size_bytes: i64 = match row.get("size_bytes") {
            Some(v) => v,
            None => return Err(Fault::Malformed),
        };
        let blake3: Arc<Vec<u8>> = match row.get("blake3") {
            Some(v) => v,
            None => return Err(Fault::Malformed),
        };
        let media_type: String = match row.get("media_type") {
            Some(v) => v,
            None => return Err(Fault::Malformed),
        };
        let reserved_bytes: i64 = match row.get("reserved_bytes") {
            Some(v) => v,
            None => return Err(Fault::Malformed),
        };
        let drive_id: Uuid = match row.get("drive_id") {
            Some(v) => v,
            None => return Err(Fault::Malformed),
        };
        Ok(ConflictRevision { 
            payload_id, size_bytes, blake3, media_type, reserved_bytes, drive_id,
         })
    }
}

/// The receipt of an operation that took effect before.
#[derive(Debug)]
pub struct OperationReceipt {
    pub request_fingerprint: Arc<Vec<u8>>,
    pub command_kind: String,
    pub response: Arc<Json>,
}

impl OperationReceipt {
    /// What a row holds, read by its column names.
    #[verifier::opaque]
    pub open spec fn of_row(row: Row) -> Result<OperationReceipt, Fault> {
        if row.column::<Arc<Vec<u8>>>("request_fingerprint"@) is Some
            && row.column::<String>("command_kind"@) is Some
            && row.column::<Arc<Json>>("response"@) is Some {
            Ok(
                OperationReceipt {
                    request_fingerprint: row.column::<Arc<Vec<u8>>>("request_fingerprint"@)->0,
                    command_kind: row.column::<String>("command_kind"@)->0,
                    response: row.column::<Arc<Json>>("response"@)->0,
                },
            )
        } else {
            Err(Fault::Malformed)
        }
    }
}

impl FromRow for OperationReceipt {
    open spec fn row_spec(row: Row) -> Result<OperationReceipt, Fault> {
        OperationReceipt::of_row(row)
    }

    fn from_row(row: &Row) -> (r: Result<OperationReceipt, Fault>) {
        proof {
            reveal(OperationReceipt::of_row);
        }
        let request_fingerprint: Arc<Vec<u8>> = match row.get("request_fingerprint") {
            Some(v) => v,
            None => return Err(Fault::Malformed),
        };
        let command_kind: String = match row.get("command_kind") {
            Some(v) => v,
            None => return Err(Fault::Malformed),
        };
        let response: Arc<Json> = match row.get("response") {
            Some(v) => v,
            None => return Err(Fault::Malformed),
        };
        Ok(OperationReceipt { request_fingerprint, command_kind, response })
    }
}

/// The session of a revision, joined with it under prefixed column names.
#[derive(Debug)]
pub struct RevisionSession {
    pub id: Uuid,
    pub session_principal_id: Uuid,
    pub drive_id: Uuid,
    pub node_id: Uuid,
    pub base_version_id: Uuid,
    pub expected_head_version_id: Uuid,
    pub provider_id: String,
    pub state: String,
    pub fencing_token: i64,
    pub created_at: String,
    pub absolute_expires_at: String,
    pub reconnect_until: String,
    pub close_reason: Option<String>,
}

impl RevisionSession {
    /// What a row holds, read by its column names.
    #[verifier::opaque]
    pub open spec fn of_row(row: Row) -> Result<RevisionSession, Fault> {
        if row.column::<Uuid>("session_id"@) is Some
            && row.column::<Uuid>("session_principal_id"@) is Some
            && row.column::<Uuid>("drive_id"@) is Some
            && row.column::<Uuid>("node_id"@) is Some
            && row.column::<Uuid>("base_version_id"@) is Some
            && row.column::<Uuid>("session_expected_head_version_id"@) is Some
            && row.column::<String>("provider_id"@) is Some
            && row.column::<String>("session_state"@) is Some
            && row.column::<i64>("fencing_token"@) is Some
            && row.column::<String>("session_created_at"@) is Some
            && row.column::<String>("session_absolute_expires_at"@) is Some
            && row.column::<String>("session_reconnect_until"@) is Some
            && row.column::<Option<String>>("session_close_reason"@) is Some {
            Ok(
                RevisionSession {
                    id: row.column::<Uuid>("session_id"@)->0,
                    session_principal_id: row.column::<Uuid>("session_principal_id"@)->0,
                    drive_id: row.column::<Uuid>("drive_id"@)->0,
                    node_id: row.column::<Uuid>("node_id"@)->0,
                    base_version_id: row.column::<Uuid>("base_version_id"@)->0,
                    expected_head_version_id: row.column::<Uuid>(
                        "session_expected_head_version_id"@,
                    )->0,
                    provider_id: row.column::<String>("provider_id"@)->0,
                    state: row.column::<String>("session_state"@)->0,
                    fencing_token: row.column::<i64>("fencing_token"@)->0,
                    created_at: row.column::<String>("session_created_at"@)->0,
                    absolute_expires_at: row.column::<String>("session_absolute_expires_at"@)->0,
                    reconnect_until: row.column::<String>("session_reconnect_until"@)->0,
                    close_reason: row.column::<Option<String>>("session_close_reason"@)->0,
                },
            )
        } else {
            Err(Fault::Malformed)
        }
    }
}

impl FromRow for RevisionSession {
    open spec fn row_spec(row: Row) -> Result<RevisionSession, Fault> {
        RevisionSession::of_row(row)
    }

    fn from_row(row: &Row) -> (r: Result<RevisionSession, Fault>) {
        proof {
            reveal(RevisionSession::of_row);
        }
        let id: Uuid = match row.get("session_id") {
            Some(v) => v,
            None => return Err(Fault::Malformed),
        };
        let session_principal_id: Uuid = match row.get("session_principal_id") {
            Some(v) => v,
            None => return Err(Fault::Malformed),
        };
        let drive_id: Uuid = match row.get("drive_id") {
            Some(v) => v,
            None => return Err(Fault::Malformed),
        };
        let node_id: Uuid = match row.get("node_id") {
            Some(v) => v,
            None => return Err(Fault::Malformed),
        };
        let base_version_id: Uuid = match row.get("base_version_id") {
            Some(v) => v,
            None => return Err(Fault::Malformed),
        };
        let expected_head_version_id: Uuid = match row.get("session_expected_head_version_id") {
            Some(v) => v,
            None => return Err(Fault::Malformed),
        };
        let provider_id: String = match row.get("provider_id") {
            Some(v) => v,
            None => return Err(Fault::Malformed),
        };
        let state: String = match row.get("session_state") {
            Some(v) => v,
            None => return Err(Fault::Malformed),
        };
        let fencing_token: i64 = match row.get("fencing_token") {
            Some(v) => v,
            None => return Err(Fault::Malformed),
        };
        let created_at: String = match row.get("session_created_at") {
            Some(v) => v,
            None => return Err(Fault::Malformed),
        };
        let absolute_expires_at: String = match row.get("session_absolute_expires_at") {
            Some(v) => v,
            None => return Err(Fault::Malformed),
        };
        let reconnect_until: String = match row.get("session_reconnect_until") {
            Some(v) => v,
            None => return Err(Fault::Malformed),
        };
        let close_reason: Option<String> = match row.get("session_close_reason") {
            Some(v) => v,
            None => return Err(Fault::Malformed),
        };
        Ok(RevisionSession {
            id, session_principal_id, drive_id, node_id, base_version_id,
            expected_head_version_id, provider_id, state, fencing_token, created_at,
            absolute_expires_at, reconnect_until, close_reason,
        })
    }
}

/// The participant of a revision, joined with it under prefixed column names.
#[derive(Debug)]
pub struct RevisionParticipant {
    pub id: Uuid,
    pub document_session_id: Uuid,
    pub user_principal_id: Uuid,
    pub api_session_id: Uuid,
    pub mode: String,
    pub state: String,
    pub last_activity_at: String,
    pub disconnected_until: Option<String>,
    pub generations: DocumentAuthorizationGenerations,
}

impl RevisionParticipant {
    /// What a row holds, read by its column names.
    #[verifier::opaque]
    pub open spec fn of_row(row: Row) -> Result<RevisionParticipant, Fault> {
        if row.column::<Uuid>("participant_id"@) is Some
            && row.column::<Uuid>("participant_document_session_id"@) is Some
            && row.column::<Uuid>("user_principal_id"@) is Some
            && row.column::<Uuid>("api_session_id"@) is Some
            && row.column::<String>("mode"@) is Some
            && row.column::<String>("participant_state"@) is Some
            && row.column::<String>("last_activity_at"@) is Some
            && row.column::<Option<String>>("disconnected_until"@) is Some
            && <DocumentAuthorizationGenerations as FromRow>::row_spec(row) is Ok {
            Ok(
                RevisionParticipant {
                    id: row.column::<Uuid>("participant_id"@)->0,
                    document_session_id: row.column::<Uuid>("participant_document_session_id"@)->0,
                    user_principal_id: row.column::<Uuid>("user_principal_id"@)->0,
                    api_session_id: row.column::<Uuid>("api_session_id"@)->0,
                    mode: row.column::<String>("mode"@)->0,
                    state: row.column::<String>("participant_state"@)->0,
                    last_activity_at: row.column::<String>("last_activity_at"@)->0,
                    disconnected_until: row.column::<Option<String>>("disconnected_until"@)->0,
                    generations: <DocumentAuthorizationGenerations as FromRow>::row_spec(row)->Ok_0,
                },
            )
        } else {
            Err(Fault::Malformed)
        }
    }
}

impl FromRow for RevisionParticipant {
    open spec fn row_spec(row: Row) -> Result<RevisionParticipant, Fault> {
        RevisionParticipant::of_row(row)
    }

    fn from_row(row: &Row) -> (r: Result<RevisionParticipant, Fault>) {
        proof {
            reveal(RevisionParticipant::of_row);
        }
        let id: Uuid = match row.get("participant_id") {
            Some(v) => v,
            None => return Err(Fault::Malformed),
        };
        let document_session_id: Uuid = match row.get("participant_document_session_id") {
            Some(v) => v,
            None => return Err(Fault::Malformed),
        };
        let user_principal_id: Uuid = match row.get("user_principal_id") {
            Some(v) => v,
            None => return Err(Fault::Malformed),
        };
        let api_session_id: Uuid = match row.get("api_session_id") {
            Some(v) => v,
            None => return Err(Fault::Malformed),
        };
        let mode: String = match row.get("mode") {
            Some(v) => v,
            None => return Err(Fault::Malformed),
        };
        let state: String = match row.get("participant_state") {
            Some(v) => v,
            None => return Err(Fault::Malformed),
        };
        let last_activity_at: String = match row.get("last_activity_at") {
            Some(v) => v,
            None => return Err(Fault::Malformed),
        };
        let disconnected_until: Option<String> = match row.get("disconnected_until") {
            Some(v) => v,
            None => return Err(Fault::Malformed),
        };
        let generations: DocumentAuthorizationGenerations = match FromRow::from_row(row) {
            Ok(v) => v,
            Err(_) => return Err(Fault::Malformed),
        };
        Ok(RevisionParticipant {
            id, document_session_id, user_principal_id, api_session_id, mode, state,
            last_activity_at, disconnected_until, generations,
        })
    }
}

/// The payload of a session's base version.
#[derive(Clone, Copy, Debug, PartialEq, Eq, Structural)]
pub struct BasePayload {
    pub base_payload_id: Uuid,
    pub base_size_bytes: i64,
}

impl BasePayload {
    /// What a row holds, read by its column names.
    #[verifier::opaque]
    pub open spec fn of_row(row: Row) -> Result<BasePayload, Fault> {
        if row.column::<Uuid>("base_payload_id"@) is Some
            && row.column::<i64>("base_size_bytes"@) is Some {
            Ok(
                BasePayload {
                    base_payload_id: row.column::<Uuid>("base_payload_id"@)->0,
                    base_size_bytes: row.column::<i64>("base_size_bytes"@)->0,
                },
            )
        } else {
            Err(Fault::Malformed)
        }
    }
}

impl FromRow for BasePayload {
    open spec fn row_spec(row: Row) -> Result<BasePayload, Fault> {
        BasePayload::of_row(row)
    }

    fn from_row(row: &Row) -> (r: Result<BasePayload, Fault>) {
        proof {
            reveal(BasePayload::of_row);
        }
        let base_payload_id: Uuid = match row.get("base_payload_id") {
            Some(v) => v,
            None => return Err(Fault::Malformed),
        };
        let base_size_bytes: i64 = match row.get("base_size_bytes") {
            Some(v) => v,
            None => return Err(Fault::Malformed),
        };
        Ok(BasePayload { base_payload_id, base_size_bytes })
    }
}

/// The source of a launch.
#[derive(Debug)]
pub struct LaunchSource {
    pub display_name: String,
    pub base_payload_id: Uuid,
    pub base_size_bytes: i64,
    pub base_media_type: String,
    pub source_display_name: String,
}

impl LaunchSource {
    /// What a row holds, read by its column names.
    #[verifier::opaque]
    pub open spec fn of_row(row: Row) -> Result<LaunchSource, Fault> {
        if row.column::<String>("display_name"@) is Some
            && row.column::<Uuid>("base_payload_id"@) is Some
            && row.column::<i64>("base_size_bytes"@) is Some
            && row.column::<String>("base_media_type"@) is Some
            && row.column::<String>("source_display_name"@) is Some {
            Ok(
                LaunchSource {
                    display_name: row.column::<String>("display_name"@)->0,
                    base_payload_id: row.column::<Uuid>("base_payload_id"@)->0,
                    base_size_bytes: row.column::<i64>("base_size_bytes"@)->0,
                    base_media_type: row.column::<String>("base_media_type"@)->0,
                    source_display_name: row.column::<String>("source_display_name"@)->0,
                },
            )
        } else {
            Err(Fault::Malformed)
        }
    }
}

impl FromRow for LaunchSource {
    open spec fn row_spec(row: Row) -> Result<LaunchSource, Fault> {
        LaunchSource::of_row(row)
    }

    fn from_row(row: &Row) -> (r: Result<LaunchSource, Fault>) {
        proof {
            reveal(LaunchSource::of_row);
        }
        let display_name: String = match row.get("display_name") {
            Some(v) => v,
            None => return Err(Fault::Malformed),
        };
        let base_payload_id: Uuid = match row.get("base_payload_id") {
            Some(v) => v,
            None => return Err(Fault::Malformed),
        };
        let base_size_bytes: i64 = match row.get("base_size_bytes") {
            Some(v) => v,
            None => return Err(Fault::Malformed),
        };
        let base_media_type: String = match row.get("base_media_type") {
            Some(v) => v,
            None => return Err(Fault::Malformed),
        };
        let source_display_name: String = match row.get("source_display_name") {
            Some(v) => v,
            None => return Err(Fault::Malformed),
        };
        Ok(LaunchSource { 
            display_name, base_payload_id, base_size_bytes, base_media_type,
            source_display_name,
         })
    }
}

/// The participant who begins a revision, with the session's fence.
#[derive(Debug)]
pub struct WritingParticipant {
    pub user_principal_id: Uuid,
    pub api_session_id: Uuid,
    pub mode: String,
    pub generations: DocumentAuthorizationGenerations,
    pub drive_id: Uuid,
    pub node_id: Uuid,
    pub expected_head_version_id: Uuid,
    pub fencing_token: i64,
}

impl WritingParticipant {
    /// What a row holds, read by its column names.
    #[verifier::opaque]
    pub open spec fn of_row(row: Row) -> Result<WritingParticipant, Fault> {
        if row.column::<Uuid>("user_principal_id"@) is Some
            && row.column::<Uuid>("api_session_id"@) is Some
            && row.column::<String>("mode"@) is Some
            && <DocumentAuthorizationGenerations as FromRow>::row_spec(row) is Ok
            && row.column::<Uuid>("drive_id"@) is Some
            && row.column::<Uuid>("node_id"@) is Some
            && row.column::<Uuid>("expected_head_version_id"@) is Some
            && row.column::<i64>("fencing_token"@) is Some {
            Ok(
                WritingParticipant {
                    user_principal_id: row.column::<Uuid>("user_principal_id"@)->0,
                    api_session_id: row.column::<Uuid>("api_session_id"@)->0,
                    mode: row.column::<String>("mode"@)->0,
                    generations: <DocumentAuthorizationGenerations as FromRow>::row_spec(row)->Ok_0,
                    drive_id: row.column::<Uuid>("drive_id"@)->0,
                    node_id: row.column::<Uuid>("node_id"@)->0,
                    expected_head_version_id: row.column::<Uuid>("expected_head_version_id"@)->0,
                    fencing_token: row.column::<i64>("fencing_token"@)->0,
                },
            )
        } else {
            Err(Fault::Malformed)
        }
    }
}

impl FromRow for WritingParticipant {
    open spec fn row_spec(row: Row) -> Result<WritingParticipant, Fault> {
        WritingParticipant::of_row(row)
    }

    fn from_row(row: &Row) -> (r: Result<WritingParticipant, Fault>) {
        proof {
            reveal(WritingParticipant::of_row);
        }
        let user_principal_id: Uuid = match row.get("user_principal_id") {
            Some(v) => v,
            None => return Err(Fault::Malformed),
        };
        let api_session_id: Uuid = match row.get("api_session_id") {
            Some(v) => v,
            None => return Err(Fault::Malformed),
        };
        let mode: String = match row.get("mode") {
            Some(v) => v,
            None => return Err(Fault::Malformed),
        };
        let generations: DocumentAuthorizationGenerations = match FromRow::from_row(row) {
            Ok(v) => v,
            Err(_) => return Err(Fault::Malformed),
        };
        let drive_id: Uuid = match row.get("drive_id") {
            Some(v) => v,
            None => return Err(Fault::Malformed),
        };
        let node_id: Uuid = match row.get("node_id") {
            Some(v) => v,
            None => return Err(Fault::Malformed),
        };
        let expected_head_version_id: Uuid = match row.get("expected_head_version_id") {
            Some(v) => v,
            None => return Err(Fault::Malformed),
        };
        let fencing_token: i64 = match row.get("fencing_token") {
            Some(v) => v,
            None => return Err(Fault::Malformed),
        };
        Ok(WritingParticipant {
            user_principal_id, api_session_id, mode, generations, drive_id, node_id,
            expected_head_version_id, fencing_token,
        })
    }
}

/// Where a payload is stored.
#[derive(Clone, Copy, Debug, PartialEq, Eq, Structural)]
pub struct PayloadPlace {
    pub backend_id: Uuid,
    pub locator: Uuid,
}

impl PayloadPlace {
    /// What a row holds, read by its column names.
    #[verifier::opaque]
    pub open spec fn of_row(row: Row) -> Result<PayloadPlace, Fault> {
        if row.column::<Uuid>("backend_id"@) is Some
            && row.column::<Uuid>("locator"@) is Some {
            Ok(
                PayloadPlace {
                    backend_id: row.column::<Uuid>("backend_id"@)->0,
                    locator: row.column::<Uuid>("locator"@)->0,
                },
            )
        } else {
            Err(Fault::Malformed)
        }
    }
}

impl FromRow for PayloadPlace {
    open spec fn row_spec(row: Row) -> Result<PayloadPlace, Fault> {
        PayloadPlace::of_row(row)
    }

    fn from_row(row: &Row) -> (r: Result<PayloadPlace, Fault>) {
        proof {
            reveal(PayloadPlace::of_row);
        }
        let backend_id: Uuid = match row.get("backend_id") {
            Some(v) => v,
            None => return Err(Fault::Malformed),
        };
        let locator: Uuid = match row.get("locator") {
            Some(v) => v,
            None => return Err(Fault::Malformed),
        };
        Ok(PayloadPlace { backend_id, locator })
    }
}

/// A drive's quota and what is used and reserved of it.
#[derive(Clone, Copy, Debug, PartialEq, Eq, Structural)]
pub struct DriveUsage {
    pub quota_bytes: i64,
    pub used_physical_bytes: i64,
    pub reserved_bytes: i64,
}

impl DriveUsage {
    /// What a row holds, read by its column names.
    #[verifier::opaque]
    pub open spec fn of_row(row: Row) -> Result<DriveUsage, Fault> {
        if row.column::<i64>("quota_bytes"@) is Some
            && row.column::<i64>("used_physical_bytes"@) is Some
            && row.column::<i64>("reserved_bytes"@) is Some {
            Ok(
                DriveUsage {
                    quota_bytes: row.column::<i64>("quota_bytes"@)->0,
                    used_physical_bytes: row.column::<i64>("used_physical_bytes"@)->0,
                    reserved_bytes: row.column::<i64>("reserved_bytes"@)->0,
                },
            )
        } else {
            Err(Fault::Malformed)
        }
    }
}

impl FromRow for DriveUsage {
    open spec fn row_spec(row: Row) -> Result<DriveUsage, Fault> {
        DriveUsage::of_row(row)
    }

    fn from_row(row: &Row) -> (r: Result<DriveUsage, Fault>) {
        proof {
            reveal(DriveUsage::of_row);
        }
        let quota_bytes: i64 = match row.get("quota_bytes") {
            Some(v) => v,
            None => return Err(Fault::Malformed),
        };
        let used_physical_bytes: i64 = match row.get("used_physical_bytes") {
            Some(v) => v,
            None => return Err(Fault::Malformed),
        };
        let reserved_bytes: i64 = match row.get("reserved_bytes") {
            Some(v) => v,
            None => return Err(Fault::Malformed),
        };
        Ok(DriveUsage { quota_bytes, used_physical_bytes, reserved_bytes })
    }
}

/// A revision's session and participant at the time when it is finalized.
#[derive(Debug)]
pub struct FinalizableRevision {
    pub fencing_token: i64,
    pub session_state: String,
    pub session_unexpired: bool,
    pub drive_id: Uuid,
    pub node_id: Uuid,
    pub user_principal_id: Uuid,
    pub api_session_id: Uuid,
    pub generations: DocumentAuthorizationGenerations,
}

impl FinalizableRevision {
    /// What a row holds, read by its column names.
    #[verifier::opaque]
    pub open spec fn of_row(row: Row) -> Result<FinalizableRevision, Fault> {
        if row.column::<i64>("fencing_token"@) is Some
            && row.column::<String>("session_state"@) is Some
            && row.column::<bool>("session_unexpired"@) is Some
            && row.column::<Uuid>("drive_id"@) is Some
            && row.column::<Uuid>("node_id"@) is Some
            && row.column::<Uuid>("user_principal_id"@) is Some
            && row.column::<Uuid>("api_session_id"@) is Some
            && <DocumentAuthorizationGenerations as FromRow>::row_spec(row) is Ok {
            Ok(
                FinalizableRevision {
                    fencing_token: row.column::<i64>("fencing_token"@)->0,
                    session_state: row.column::<String>("session_state"@)->0,
                    session_unexpired: row.column::<bool>("session_unexpired"@)->0,
                    drive_id: row.column::<Uuid>("drive_id"@)->0,
                    node_id: row.column::<Uuid>("node_id"@)->0,
                    user_principal_id: row.column::<Uuid>("user_principal_id"@)->0,
                    api_session_id: row.column::<Uuid>("api_session_id"@)->0,
                    generations: <DocumentAuthorizationGenerations as FromRow>::row_spec(row)->Ok_0,
                },
            )
        } else {
            Err(Fault::Malformed)
        }
    }
}

impl FromRow for FinalizableRevision {
    open spec fn row_spec(row: Row) -> Result<FinalizableRevision, Fault> {
        FinalizableRevision::of_row(row)
    }

    fn from_row(row: &Row) -> (r: Result<FinalizableRevision, Fault>) {
        proof {
            reveal(FinalizableRevision::of_row);
        }
        let fencing_token: i64 = match row.get("fencing_token") {
            Some(v) => v,
            None => return Err(Fault::Malformed),
        };
        let session_state: String = match row.get("session_state") {
            Some(v) => v,
            None => return Err(Fault::Malformed),
        };
        let session_unexpired: bool = match row.get("session_unexpired") {
            Some(v) => v,
            None => return Err(Fault::Malformed),
        };
        let drive_id: Uuid = match row.get("drive_id") {
            Some(v) => v,
            None => return Err(Fault::Malformed),
        };
        let node_id: Uuid = match row.get("node_id") {
            Some(v) => v,
            None => return Err(Fault::Malformed),
        };
        let user_principal_id: Uuid = match row.get("user_principal_id") {
            Some(v) => v,
            None => return Err(Fault::Malformed),
        };
        let api_session_id: Uuid = match row.get("api_session_id") {
            Some(v) => v,
            None => return Err(Fault::Malformed),
        };
        let generations: DocumentAuthorizationGenerations = match FromRow::from_row(row) {
            Ok(v) => v,
            Err(_) => return Err(Fault::Malformed),
        };
        Ok(FinalizableRevision {
            fencing_token, session_state, session_unexpired, drive_id, node_id,
            user_principal_id, api_session_id, generations,
        })
    }
}

/// A revision's session and participant at the time when it is committed.
#[derive(Debug)]
pub struct CommittableRevision {
    pub session_principal_id: Uuid,
    pub drive_id: Uuid,
    pub node_id: Uuid,
    pub session_state: String,
    pub session_unexpired: bool,
    pub user_principal_id: Uuid,
    pub api_session_id: Uuid,
    pub mode: String,
    pub generations: DocumentAuthorizationGenerations,
}

impl CommittableRevision {
    /// What a row holds, read by its column names.
    #[verifier::opaque]
    pub open spec fn of_row(row: Row) -> Result<CommittableRevision, Fault> {
        if row.column::<Uuid>("session_principal_id"@) is Some
            && row.column::<Uuid>("drive_id"@) is Some
            && row.column::<Uuid>("node_id"@) is Some
            && row.column::<String>("session_state"@) is Some
            && row.column::<bool>("session_unexpired"@) is Some
            && row.column::<Uuid>("user_principal_id"@) is Some
            && row.column::<Uuid>("api_session_id"@) is Some
            && row.column::<String>("mode"@) is Some
            && <DocumentAuthorizationGenerations as FromRow>::row_spec(row) is Ok {
            Ok(
                CommittableRevision {
                    session_principal_id: row.column::<Uuid>("session_principal_id"@)->0,
                    drive_id: row.column::<Uuid>("drive_id"@)->0,
                    node_id: row.column::<Uuid>("node_id"@)->0,
                    session_state: row.column::<String>("session_state"@)->0,
                    session_unexpired: row.column::<bool>("session_unexpired"@)->0,
                    user_principal_id: row.column::<Uuid>("user_principal_id"@)->0,
                    api_session_id: row.column::<Uuid>("api_session_id"@)->0,
                    mode: row.column::<String>("mode"@)->0,
                    generations: <DocumentAuthorizationGenerations as FromRow>::row_spec(row)->Ok_0,
                },
            )
        } else {
            Err(Fault::Malformed)
        }
    }
}

impl FromRow for CommittableRevision {
    open spec fn row_spec(row: Row) -> Result<CommittableRevision, Fault> {
        CommittableRevision::of_row(row)
    }

    fn from_row(row: &Row) -> (r: Result<CommittableRevision, Fault>) {
        proof {
            reveal(CommittableRevision::of_row);
        }
        let session_principal_id: Uuid = match row.get("session_principal_id") {
            Some(v) => v,
            None => return Err(Fault::Malformed),
        };
        let drive_id: Uuid = match row.get("drive_id") {
            Some(v) => v,
            None => return Err(Fault::Malformed),
        };
        let node_id: Uuid = match row.get("node_id") {
            Some(v) => v,
            None => return Err(Fault::Malformed),
        };
        let session_state: String = match row.get("session_state") {
            Some(v) => v,
            None => return Err(Fault::Malformed),
        };
        let session_unexpired: bool = match row.get("session_unexpired") {
            Some(v) => v,
            None => return Err(Fault::Malformed),
        };
        let user_principal_id: Uuid = match row.get("user_principal_id") {
            Some(v) => v,
            None => return Err(Fault::Malformed),
        };
        let api_session_id: Uuid = match row.get("api_session_id") {
            Some(v) => v,
            None => return Err(Fault::Malformed),
        };
        let mode: String = match row.get("mode") {
            Some(v) => v,
            None => return Err(Fault::Malformed),
        };
        let generations: DocumentAuthorizationGenerations = match FromRow::from_row(row) {
            Ok(v) => v,
            Err(_) => return Err(Fault::Malformed),
        };
        Ok(CommittableRevision {
            session_principal_id, drive_id, node_id, session_state, session_unexpired,
            user_principal_id, api_session_id, mode, generations,
        })
    }
}

/// A node's head version, where it has one.
#[derive(Debug)]
pub struct HeadVersion {
    pub head_version_id: Option<Uuid>,
    pub size_bytes: Option<i64>,
    pub blake3: Option<Arc<Vec<u8>>>,
    pub ordinal: Option<i64>,
}

impl HeadVersion {
    /// What a row holds, read by its column names.
    #[verifier::opaque]
    pub open spec fn of_row(row: Row) -> Result<HeadVersion, Fault> {
        if row.column::<Option<Uuid>>("head_version_id"@) is Some
            && row.column::<Option<i64>>("size_bytes"@) is Some
            && row.column::<Option<Arc<Vec<u8>>>>("blake3"@) is Some
            && row.column::<Option<i64>>("ordinal"@) is Some {
            Ok(
                HeadVersion {
                    head_version_id: row.column::<Option<Uuid>>("head_version_id"@)->0,
                    size_bytes: row.column::<Option<i64>>("size_bytes"@)->0,
                    blake3: row.column::<Option<Arc<Vec<u8>>>>("blake3"@)->0,
                    ordinal: row.column::<Option<i64>>("ordinal"@)->0,
                },
            )
        } else {
            Err(Fault::Malformed)
        }
    }
}

impl FromRow for HeadVersion {
    open spec fn row_spec(row: Row) -> Result<HeadVersion, Fault> {
        HeadVersion::of_row(row)
    }

    fn from_row(row: &Row) -> (r: Result<HeadVersion, Fault>) {
        proof {
            reveal(HeadVersion::of_row);
        }
        let head_version_id: Option<Uuid> = match row.get("head_version_id") {
            Some(v) => v,
            None => return Err(Fault::Malformed),
        };
        let size_bytes: Option<i64> = match row.get("size_bytes") {
            Some(v) => v,
            None => return Err(Fault::Malformed),
        };
        let blake3: Option<Arc<Vec<u8>>> = match row.get("blake3") {
            Some(v) => v,
            None => return Err(Fault::Malformed),
        };
        let ordinal: Option<i64> = match row.get("ordinal") {
            Some(v) => v,
            None => return Err(Fault::Malformed),
        };
        Ok(HeadVersion { head_version_id, size_bytes, blake3, ordinal })
    }
}

/// A revision whose authorization may have changed.
#[derive(Debug)]
pub struct RejectableRevision {
    pub document_session_id: Uuid,
    pub state: String,
    pub payload_id: Option<Uuid>,
    pub reserved_bytes: i64,
    pub drive_id: Uuid,
    pub node_id: Uuid,
    pub session_state: String,
    pub session_unexpired: bool,
    pub user_principal_id: Uuid,
    pub api_session_id: Uuid,
    pub generations: DocumentAuthorizationGenerations,
}

impl RejectableRevision {
    /// What a row holds, read by its column names.
    #[verifier::opaque]
    pub open spec fn of_row(row: Row) -> Result<RejectableRevision, Fault> {
        if row.column::<Uuid>("document_session_id"@) is Some
            && row.column::<String>("state"@) is Some
            && row.column::<Option<Uuid>>("payload_id"@) is Some
            && row.column::<i64>("reserved_bytes"@) is Some
            && row.column::<Uuid>("drive_id"@) is Some
            && row.column::<Uuid>("node_id"@) is Some
            && row.column::<String>("session_state"@) is Some
            && row.column::<bool>("session_unexpired"@) is Some
            && row.column::<Uuid>("user_principal_id"@) is Some
            && row.column::<Uuid>("api_session_id"@) is Some
            && <DocumentAuthorizationGenerations as FromRow>::row_spec(row) is Ok {
            Ok(
                RejectableRevision {
                    document_session_id: row.column::<Uuid>("document_session_id"@)->0,
                    state: row.column::<String>("state"@)->0,
                    payload_id: row.column::<Option<Uuid>>("payload_id"@)->0,
                    reserved_bytes: row.column::<i64>("reserved_bytes"@)->0,
                    drive_id: row.column::<Uuid>("drive_id"@)->0,
                    node_id: row.column::<Uuid>("node_id"@)->0,
                    session_state: row.column::<String>("session_state"@)->0,
                    session_unexpired: row.column::<bool>("session_unexpired"@)->0,
                    user_principal_id: row.column::<Uuid>("user_principal_id"@)->0,
                    api_session_id: row.column::<Uuid>("api_session_id"@)->0,
                    generations: <DocumentAuthorizationGenerations as FromRow>::row_spec(row)->Ok_0,
                },
            )
        } else {
            Err(Fault::Malformed)
        }
    }
}

impl FromRow for RejectableRevision {
    open spec fn row_spec(row: Row) -> Result<RejectableRevision, Fault> {
        RejectableRevision::of_row(row)
    }

    fn from_row(row: &Row) -> (r: Result<RejectableRevision, Fault>) {
        proof {
            reveal(RejectableRevision::of_row);
        }
        let document_session_id: Uuid = match row.get("document_session_id") {
            Some(v) => v,
            None => return Err(Fault::Malformed),
        };
        let state: String = match row.get("state") {
            Some(v) => v,
            None => return Err(Fault::Malformed),
        };
        let payload_id: Option<Uuid> = match row.get("payload_id") {
            Some(v) => v,
            None => return Err(Fault::Malformed),
        };
        let reserved_bytes: i64 = match row.get("reserved_bytes") {
            Some(v) => v,
            None => return Err(Fault::Malformed),
        };
        let drive_id: Uuid = match row.get("drive_id") {
            Some(v) => v,
            None => return Err(Fault::Malformed),
        };
        let node_id: Uuid = match row.get("node_id") {
            Some(v) => v,
            None => return Err(Fault::Malformed),
        };
        let session_state: String = match row.get("session_state") {
            Some(v) => v,
            None => return Err(Fault::Malformed),
        };
        let session_unexpired: bool = match row.get("session_unexpired") {
            Some(v) => v,
            None => return Err(Fault::Malformed),
        };
        let user_principal_id: Uuid = match row.get("user_principal_id") {
            Some(v) => v,
            None => return Err(Fault::Malformed),
        };
        let api_session_id: Uuid = match row.get("api_session_id") {
            Some(v) => v,
            None => return Err(Fault::Malformed),
        };
        let generations: DocumentAuthorizationGenerations = match FromRow::from_row(row) {
            Ok(v) => v,
            Err(_) => return Err(Fault::Malformed),
        };
        Ok(RejectableRevision {
            document_session_id, state, payload_id, reserved_bytes, drive_id, node_id,
            session_state, session_unexpired, user_principal_id, api_session_id, generations,
        })
    }
}

/// Whether a participant in this mode may write.
pub open spec fn can_write(mode: Seq<char>) -> bool {
    mode == "comment"@ || mode == "review"@ || mode == "edit"@
}

/// Whether a participant in this mode may write.
pub fn document_participant_can_write(mode: &str) -> (r: bool)
    ensures
        r == can_write(mode@),
{
    text_eq(mode, "comment") || text_eq(mode, "review") || text_eq(mode, "edit")
}

/// Whether documents of this media type can be edited.
pub open spec fn is_editable_type(media_type: Seq<char>) -> bool {
    media_type == "application/vnd.openxmlformats-officedocument.wordprocessingml.document"@
        || media_type == "application/vnd.openxmlformats-officedocument.spreadsheetml.sheet"@
        || media_type
        == "application/vnd.openxmlformats-officedocument.presentationml.presentation"@
}

/// Whether documents of this media type can be edited.
pub fn editable_type(media_type: &str) -> (r: bool)
    ensures
        r == is_editable_type(media_type@),
{
    text_eq(
        media_type,
        "application/vnd.openxmlformats-officedocument.wordprocessingml.document",
    ) || text_eq(media_type, "application/vnd.openxmlformats-officedocument.spreadsheetml.sheet")
        || text_eq(
        media_type,
        "application/vnd.openxmlformats-officedocument.presentationml.presentation",
    )
}

/// Whether a version can be opened for editing within a size limit.
pub open spec fn is_editable_base(base: BaseVersion, maximum_bytes: i64) -> bool {
    base.size_bytes <= maximum_bytes && base.media_type is Some && is_editable_type(
        base.media_type->0@,
    )
}

/// Whether a version can be opened for editing within a size limit.
pub fn editable_base(base: &BaseVersion, maximum_bytes: i64) -> (r: bool)
    ensures
        r == is_editable_base(*base, maximum_bytes),
{
    match &base.media_type {
        Some(media_type) => base.size_bytes <= maximum_bytes && editable_type(media_type.as_str()),
        None => false,
    }
}

/// Whether an optional word is the given one.
pub open spec fn is_word(word: Option<&str>, expected: Seq<char>) -> bool {
    word is Some && word->0@ == expected
}

/// Whether an optional word is the given one.
pub fn word_is(word: Option<&str>, expected: &str) -> (r: bool)
    ensures
        r == is_word(word, expected@),
{
    match word {
        Some(word) => text_eq(word, expected),
        None => false,
    }
}

/// Whether a callback is of a known kind and carries what its kind demands: a revision kind
/// where output is required, an activity while editing, and neither elsewhere.
pub open spec fn is_well_formed_callback(input: &ReceiveDocumentCallbackInput) -> bool {
    let kind = input.callback_kind@;
    &&& kind == "editing"@ || kind == "output_required"@ || kind == "corrupted"@ || kind
        == "closed_no_changes"@ || kind == "force_save_error"@
    &&& if kind == "output_required"@ {
        is_word(input.revision_kind, "checkpoint"@) || is_word(input.revision_kind, "user_save"@)
            || is_word(input.revision_kind, "final_save"@)
    } else {
        input.revision_kind is None
    }
    &&& if kind == "editing"@ {
        is_word(input.activity, "connected"@) || is_word(input.activity, "disconnected"@)
    } else {
        input.activity is None
    }
}

/// Whether a callback is of a known kind and carries what its kind demands.
pub fn well_formed_callback(input: &ReceiveDocumentCallbackInput) -> (r: bool)
    ensures
        r == is_well_formed_callback(input),
{
    let kind: &str = input.callback_kind;
    let known: bool = text_eq(kind, "editing") || text_eq(kind, "output_required") || text_eq(
        kind,
        "corrupted",
    ) || text_eq(kind, "closed_no_changes") || text_eq(kind, "force_save_error");
    let revision: bool = if text_eq(kind, "output_required") {
        word_is(input.revision_kind, "checkpoint") || word_is(input.revision_kind, "user_save")
            || word_is(input.revision_kind, "final_save")
    } else {
        input.revision_kind.is_none()
    };
    let activity: bool = if text_eq(kind, "editing") {
        word_is(input.activity, "connected") || word_is(input.activity, "disconnected")
    } else {
        input.activity.is_none()
    };
    known && revision && activity
}

/// Whether an event that was received before is at odds with a callback of the same digest:
/// another participant, another kind, or output from a participant who may not write.
pub open spec fn is_conflicting_event(
    event: Option<CallbackEvent>,
    input: &ReceiveDocumentCallbackInput,
) -> bool {
    event is Some && (event->0.participant_id != Some(input.participant_id)
        || event->0.event_kind@ != input.callback_kind@ || (input.callback_kind@
        == "output_required"@ && !can_write(event->0.mode@)))
}

/// Whether an event that was received before is at odds with a callback of the same digest.
pub fn conflicting_event(
    event: &Option<CallbackEvent>,
    input: &ReceiveDocumentCallbackInput,
) -> (r: bool)
    ensures
        r == is_conflicting_event(*event, input),
{
    match event {
        Some(event) => {
            let same: bool = match event.participant_id {
                Some(participant_id) => participant_id == input.participant_id,
                None => false,
            };
            !same || !text_eq(event.event_kind.as_str(), input.callback_kind) || (text_eq(
                input.callback_kind,
                "output_required",
            ) && !document_participant_can_write(event.mode.as_str()))
        },
        None => false,
    }
}

/// Whether a reservation fits a drive's quota.
pub open spec fn fits_quota(usage: DriveUsage, bytes: i64) -> bool {
    let held = usage.used_physical_bytes + usage.reserved_bytes;
    &&& i64::MIN <= held <= i64::MAX
    &&& i64::MIN <= held + bytes <= i64::MAX
    &&& held + bytes <= usage.quota_bytes
}

/// Whether a reservation fits a drive's quota.
pub fn quota_admits(usage: &DriveUsage, bytes: i64) -> (r: bool)
    ensures
        r == fits_quota(*usage, bytes),
{
    match usage.used_physical_bytes.checked_add(usage.reserved_bytes) {
        Some(held) => match held.checked_add(bytes) {
            Some(total) => total <= usage.quota_bytes,
            None => false,
        },
        None => false,
    }
}

impl Database {
    /// What stops `receive_document_callback`, in order.
    pub open spec fn receive_document_callback_fault<'a>(
        input: &'a ReceiveDocumentCallbackInput<'a>,
        log: Seq<Reply>,
    ) -> Option<Fault> {
        let event = log[1].optional_row::<CallbackEvent>()->Ok_0;
        let repeated =
            log[2].required_row::<ReceivedDocumentRevision>(DatabaseError::Conflict)->Ok_0;
        let participant = log[2].required_row::<CallbackParticipant>(DatabaseError::NotFound)->Ok_0;
        let fence = log[3].required_row::<FenceGenerations>(DatabaseError::StaleGeneration)->Ok_0;
        let connected = is_word(input.activity, "connected"@);
        let disconnected = is_word(input.activity, "disconnected"@)
            || input.callback_kind@ == "closed_no_changes"@;
        let at = if connected {
            7int
        } else {
            5
        };
        let at2 = if !connected && disconnected {
            at + 2
        } else {
            at
        };
        let at3 = if !connected && !disconnected {
            at2 + 1
        } else {
            at2
        };
        if !is_well_formed_callback(input) {
            Some(Fault::Error(DatabaseError::InvalidPersistedValue))
        } else if log.len() > 1 && log[1].optional_row::<CallbackEvent>() is Err {
            Fault::of(log[1].optional_row::<CallbackEvent>())
        } else if log.len() > 1 && is_conflicting_event(event, input) {
            Some(Fault::Error(DatabaseError::Conflict))
        } else if log.len() > 1 && event is Some && input.callback_kind@ == "output_required"@ {
            if log.len() > 2
                && log[2].required_row::<ReceivedDocumentRevision>(DatabaseError::Conflict) is Err {
                Fault::of(log[2].required_row::<ReceivedDocumentRevision>(DatabaseError::Conflict))
            } else if log.len() > 2 && !is_word(input.revision_kind, repeated.kind@) {
                Some(Fault::Error(DatabaseError::Conflict))
            } else {
                None
            }
        } else if log.len() > 1 && event is Some && input.callback_kind@ != "editing"@ {
            None
        } else if log.len() > 2
            && log[2].required_row::<CallbackParticipant>(DatabaseError::NotFound) is Err {
            Fault::of(log[2].required_row::<CallbackParticipant>(DatabaseError::NotFound))
        } else if log.len() > 3
            && log[3].required_row::<FenceGenerations>(DatabaseError::StaleGeneration) is Err {
            Fault::of(log[3].required_row::<FenceGenerations>(DatabaseError::StaleGeneration))
        } else if log.len() > 3 && !fence.agrees_with(participant.generations.expected()) {
            Some(Fault::Error(DatabaseError::StaleGeneration))
        } else if log.len() > 3 && input.callback_kind@ == "output_required"@
            && !can_write(participant.mode@) {
            Some(Fault::Error(DatabaseError::Conflict))
        } else if log.len() > 4 && log[4].required_row::<Uuid>(DatabaseError::Conflict) is Err {
            Fault::of(log[4].required_row::<Uuid>(DatabaseError::Conflict))
        } else if log.len() > at3 - 1 && input.callback_kind@ != "output_required"@ {
            None
        } else if log.len() > at3
            && log[at3].required_row::<ReceivedDocumentRevision>(DatabaseError::Conflict) is Err {
            Fault::of(log[at3].required_row::<ReceivedDocumentRevision>(DatabaseError::Conflict))
        } else {
            None
        }
    }

    /// The commands of `receive_document_callback`, in order.
    pub open spec fn receive_document_callback_script<'a>(
        input: &'a ReceiveDocumentCallbackInput<'a>,
        log: Seq<Reply>,
    ) -> Seq<CommandView<'a>> {
        let event = log[1].optional_row::<CallbackEvent>()->Ok_0;
        let participant = log[2].required_row::<CallbackParticipant>(DatabaseError::NotFound)->Ok_0;
        let connected = is_word(input.activity, "connected"@);
        let disconnected = is_word(input.activity, "disconnected"@)
            || input.callback_kind@ == "closed_no_changes"@;
        seq![
            CommandView::Begin,
            CommandView::optional(
                sql::RECEIVE_DOCUMENT_CALLBACK_SELECT_SESSION_EVENTS,
                seq![
                    Param::Id(input.tenant_id), Param::Id(input.document_session_id),
                    Param::Digest(input.provider_event_digest),
                ],
            ),
        ].add(
            if event is Some && input.callback_kind@ == "output_required"@ {
                seq![
                    CommandView::optional(
                        sql::RECEIVED_DOCUMENT_REVISION_BY_DIGEST,
                        seq![
                            Param::Id(input.tenant_id), Param::Id(input.document_session_id),
                            Param::Digest(input.provider_event_digest),
                        ],
                    ),
                    CommandView::Commit,
                ]
            } else {
                if event is Some && input.callback_kind@ != "editing"@ {
                    seq![CommandView::Commit]
                } else {
                    seq![
                        CommandView::optional(
                            sql::RECEIVE_DOCUMENT_CALLBACK_SELECT_PARTICIPANTS,
                            seq![
                                Param::Id(input.tenant_id), Param::Id(input.participant_id),
                                Param::Id(input.document_session_id),
                            ],
                        ),
                        CommandView::optional(
                            catalog::LOCK_AUTHORIZATION_FENCE,
                            seq![
                                Param::Id(input.tenant_id), Param::Id(participant.api_session_id),
                                Param::Id(participant.user_principal_id),
                                Param::Id(participant.drive_id),
                                Param::Id(participant.node_id),
                            ],
                        ),
                        CommandView::optional(
                            sql::RECEIVE_DOCUMENT_CALLBACK_INSERT_SESSION_EVENTS,
                            seq![
                                Param::Id(input.tenant_id), Param::FreshId,
                                Param::Id(input.document_session_id),
                                Param::Id(input.participant_id),
                                Param::Digest(input.provider_event_digest),
                                Param::Text(input.callback_kind),
                            ],
                        ),
                    ].add(
                        if connected {
                            seq![
                                CommandView::execute(
                                    sql::RECEIVE_DOCUMENT_CALLBACK_UPDATE_PARTICIPANTS,
                                    seq![
                                        Param::Id(input.tenant_id),
                                        Param::Id(input.participant_id),
                                    ],
                                ),
                                CommandView::execute(
                                    sql::RECEIVE_DOCUMENT_CALLBACK_UPDATE_SESSIONS,
                                    seq![
                                        Param::Id(input.tenant_id),
                                        Param::Id(input.document_session_id),
                                    ],
                                ),
                            ]
                        } else {
                            Seq::empty()
                        },
                    ).add(
                        if !connected && disconnected {
                            seq![
                                CommandView::execute(
                                    sql::RECEIVE_DOCUMENT_CALLBACK_UPDATE_PARTICIPANTS_2,
                                    seq![
                                        Param::Id(input.tenant_id),
                                        Param::Id(input.participant_id),
                                    ],
                                ),
                                CommandView::execute(
                                    sql::RECEIVE_DOCUMENT_CALLBACK_UPDATE_SESSIONS_2,
                                    seq![
                                        Param::Id(input.tenant_id),
                                        Param::Id(input.document_session_id),
                                    ],
                                ),
                            ]
                        } else {
                            Seq::empty()
                        },
                    ).add(
                        if !connected && !disconnected {
                            seq![
                                CommandView::execute(
                                    sql::RECEIVE_DOCUMENT_CALLBACK_UPDATE_PARTICIPANTS_3,
                                    seq![
                                        Param::Id(input.tenant_id),
                                        Param::Id(input.participant_id),
                                    ],
                                ),
                            ]
                        } else {
                            Seq::empty()
                        },
                    ).add(
                        if input.callback_kind@ != "output_required"@ {
                            seq![CommandView::Commit]
                        } else {
                            seq![
                                CommandView::optional(
                                    sql::RECEIVE_DOCUMENT_CALLBACK_INSERT_REVISIONS,
                                    seq![
                                        Param::Id(input.tenant_id), Param::FreshId,
                                        Param::Id(input.document_session_id),
                                        Param::Id(input.participant_id),
                                        Param::Digest(input.provider_event_digest),
                                        Param::OptText(input.revision_kind),
                                        Param::Id(participant.expected_head_version_id),
                                        Param::Owned(participant.media_type),
                                    ],
                                ),
                                CommandView::Commit,
                            ]
                        },
                    )
                }
            },
        )
    }

    /// What `receive_document_callback` returns.
    pub open spec fn receive_document_callback_output<'a>(
        input: &'a ReceiveDocumentCallbackInput<'a>,
        log: Seq<Reply>,
    ) -> ReceivedDocumentCallback {
        let event = log[1].optional_row::<CallbackEvent>()->Ok_0;
        let repeated =
            log[2].required_row::<ReceivedDocumentRevision>(DatabaseError::Conflict)->Ok_0;
        let event_id = log[4].required_row::<Uuid>(DatabaseError::Conflict)->Ok_0;
        let connected = is_word(input.activity, "connected"@);
        let disconnected = is_word(input.activity, "disconnected"@)
            || input.callback_kind@ == "closed_no_changes"@;
        let at = if connected {
            7int
        } else {
            5
        };
        let at2 = if !connected && disconnected {
            at + 2
        } else {
            at
        };
        let at3 = if !connected && !disconnected {
            at2 + 1
        } else {
            at2
        };
        let announced =
            log[at3].required_row::<ReceivedDocumentRevision>(DatabaseError::Conflict)->Ok_0;
        if event is Some && input.callback_kind@ == "output_required"@ {
            ReceivedDocumentCallback { event_id: event->0.id, revision: Some(repeated) }
        } else {
            if event is Some && input.callback_kind@ != "editing"@ {
                ReceivedDocumentCallback { event_id: event->0.id, revision: None }
            } else {
                if input.callback_kind@ != "output_required"@ {
                    ReceivedDocumentCallback { event_id, revision: None }
                } else {
                    ReceivedDocumentCallback { event_id, revision: Some(announced) }
                }
            }
        }
    }

    /// Receives a provider's callback. An event counts once under its digest; only an editing event
    /// is applied again. A revision is announced where output is required, and only by a
    /// participant who may write.
    #[verifier::spinoff_prover]
    #[verifier::rlimit(60)]
    pub fn receive_document_callback<'a>(
        input: &'a ReceiveDocumentCallbackInput<'a>,
        log: &'a [Reply],
    ) -> (step: Step<'a, ReceivedDocumentCallback>)
        ensures
            step@ == StepView::proceed(
                Self::receive_document_callback_fault(input, log@),
                Self::receive_document_callback_script(input, log@),
                Self::receive_document_callback_output(input, log@),
                log@,
            ),
    {
        if !well_formed_callback(input) {
            return Step::Fail(DatabaseError::InvalidPersistedValue);
        }
        if log.len() == 0 {
            return Step::Ask(Command::Begin);
        }
        if log.len() <= 1 {
            return ask_optional(
                sql::RECEIVE_DOCUMENT_CALLBACK_SELECT_SESSION_EVENTS,
                vec![
                    Param::Id(input.tenant_id), Param::Id(input.document_session_id),
                    Param::Digest(input.provider_event_digest),
                ],
            );
        }
        let event: Option<CallbackEvent> = match optional::<CallbackEvent>(&log[1]) {
            Ok(value) => value,
            Err(fault) => return stop(fault),
        };
        if conflicting_event(&event, input) {
            return Step::Fail(DatabaseError::Conflict);
        }
        if event.is_some() && text_eq(input.callback_kind, "output_required") {
            if log.len() <= 2 {
                return ask_optional(
                    sql::RECEIVED_DOCUMENT_REVISION_BY_DIGEST,
                    vec![
                        Param::Id(input.tenant_id), Param::Id(input.document_session_id),
                        Param::Digest(input.provider_event_digest),
                    ],
                );
            }
            let repeated: ReceivedDocumentRevision = match required(
                &log[2],
                DatabaseError::Conflict,
            ) {
                Ok(value) => value,
                Err(fault) => return stop(fault),
            };
            if !word_is(input.revision_kind, repeated.kind.as_str()) {
                return Step::Fail(DatabaseError::Conflict);
            }
            if log.len() <= 3 {
                return Step::Ask(Command::Commit);
            }
            return Step::Done(
                ReceivedDocumentCallback { event_id: event.unwrap().id, revision: Some(repeated) },
            );
        }
        if event.is_some() && !text_eq(input.callback_kind, "editing") {
            if log.len() <= 2 {
                return Step::Ask(Command::Commit);
            }
            return Step::Done(
                ReceivedDocumentCallback { event_id: event.unwrap().id, revision: None },
            );
        }
        if log.len() <= 2 {
            return ask_optional(
                sql::RECEIVE_DOCUMENT_CALLBACK_SELECT_PARTICIPANTS,
                vec![
                    Param::Id(input.tenant_id), Param::Id(input.participant_id),
                    Param::Id(input.document_session_id),
                ],
            );
        }
        let participant: CallbackParticipant = match required(&log[2], DatabaseError::NotFound) {
            Ok(value) => value,
            Err(fault) => return stop(fault),
        };
        if log.len() <= 3 {
            return ask_optional(
                catalog::LOCK_AUTHORIZATION_FENCE,
                vec![
                    Param::Id(input.tenant_id), Param::Id(participant.api_session_id),
                    Param::Id(participant.user_principal_id), Param::Id(participant.drive_id),
                    Param::Id(participant.node_id),
                ],
            );
        }
        let fence: FenceGenerations = match required(&log[3], DatabaseError::StaleGeneration) {
            Ok(value) => value,
            Err(fault) => return stop(fault),
        };
        if !fence.agree(participant.generations.as_array()) {
            return Step::Fail(DatabaseError::StaleGeneration);
        }
        if text_eq(input.callback_kind, "output_required")
            && !document_participant_can_write(participant.mode.as_str()) {
            return Step::Fail(DatabaseError::Conflict);
        }
        if log.len() <= 4 {
            return ask_optional(
                sql::RECEIVE_DOCUMENT_CALLBACK_INSERT_SESSION_EVENTS,
                vec![
                    Param::Id(input.tenant_id), Param::FreshId,
                    Param::Id(input.document_session_id), Param::Id(input.participant_id),
                    Param::Digest(input.provider_event_digest),
                    Param::Text(input.callback_kind),
                ],
            );
        }
        let event_id: Uuid = match required::<Uuid>(&log[4], DatabaseError::Conflict) {
            Ok(value) => value,
            Err(fault) => return stop(fault),
        };
        let connected: bool = word_is(input.activity, "connected");
        let disconnected: bool = word_is(input.activity, "disconnected")
            || text_eq(input.callback_kind, "closed_no_changes");
        if connected {
            if log.len() <= 5 {
                return ask_execute(
                    sql::RECEIVE_DOCUMENT_CALLBACK_UPDATE_PARTICIPANTS,
                    vec![Param::Id(input.tenant_id), Param::Id(input.participant_id)],
                );
            }
            if log.len() <= 6 {
                return ask_execute(
                    sql::RECEIVE_DOCUMENT_CALLBACK_UPDATE_SESSIONS,
                    vec![Param::Id(input.tenant_id), Param::Id(input.document_session_id)],
                );
            }
        }
        let at: usize = if connected {
            7
        } else {
            5
        };
        if !connected && disconnected {
            if log.len() <= at {
                return ask_execute(
                    sql::RECEIVE_DOCUMENT_CALLBACK_UPDATE_PARTICIPANTS_2,
                    vec![Param::Id(input.tenant_id), Param::Id(input.participant_id)],
                );
            }
            if log.len() - at <= 1 {
                return ask_execute(
                    sql::RECEIVE_DOCUMENT_CALLBACK_UPDATE_SESSIONS_2,
                    vec![Param::Id(input.tenant_id), Param::Id(input.document_session_id)],
                );
            }
        }
        let at2: usize = if !connected && disconnected {
            at + 2
        } else {
            at
        };
        if !connected && !disconnected {
            if log.len() <= at2 {
                return ask_execute(
                    sql::RECEIVE_DOCUMENT_CALLBACK_UPDATE_PARTICIPANTS_3,
                    vec![Param::Id(input.tenant_id), Param::Id(input.participant_id)],
                );
            }
        }
        let at3: usize = if !connected && !disconnected {
            at2 + 1
        } else {
            at2
        };
        if !text_eq(input.callback_kind, "output_required") {
            if log.len() <= at3 {
                return Step::Ask(Command::Commit);
            }
            return Step::Done(ReceivedDocumentCallback { event_id, revision: None });
        }
        if log.len() <= at3 {
            return ask_optional(
                sql::RECEIVE_DOCUMENT_CALLBACK_INSERT_REVISIONS,
                vec![
                    Param::Id(input.tenant_id), Param::FreshId,
                    Param::Id(input.document_session_id), Param::Id(input.participant_id),
                    Param::Digest(input.provider_event_digest),
                    Param::OptText(input.revision_kind),
                    Param::Id(participant.expected_head_version_id),
                    Param::Owned(participant.media_type),
                ],
            );
        }
        let announced: ReceivedDocumentRevision = match required(
            &log[at3],
            DatabaseError::Conflict,
        ) {
            Ok(value) => value,
            Err(fault) => return stop(fault),
        };
        if log.len() - at3 <= 1 {
            return Step::Ask(Command::Commit);
        }
        Step::Done(ReceivedDocumentCallback { event_id, revision: Some(announced) })
    }

    /// `receive_document_callback` runs in one transaction: it is done once its commit is
    /// acknowledged, and when it fails, nothing was committed.
    pub proof fn receive_document_callback_is_atomic<'a>(
        input: &'a ReceiveDocumentCallbackInput<'a>,
        log: Seq<Reply>,
    )
        ensures
            crate::step::is_atomic(Self::receive_document_callback_script(input, log), 0),
            crate::step::commit_acknowledged(
                Self::receive_document_callback_fault(input, log.drop_last()),
                Self::receive_document_callback_script(input, log.drop_last()),
                log,
            ) ==> {
                &&& Self::receive_document_callback_fault(input, log) is None
                &&& log.len() == Self::receive_document_callback_script(input, log).len()
            },
    {
    }

    /// `receive_document_callback` goes past its fence only where the generations that it has
    /// locked are those that the caller was authorized under. An event that was received before is
    /// answered without it, unless it is an editing event.
    pub proof fn receive_document_callback_is_fenced<'a>(
        input: &'a ReceiveDocumentCallbackInput<'a>,
        log: Seq<Reply>,
    )
        ensures
            ({
                let participant =
                    log[2].required_row::<CallbackParticipant>(DatabaseError::NotFound)->Ok_0;
                let fence =
                    log[3].required_row::<FenceGenerations>(DatabaseError::StaleGeneration)->Ok_0;
                Self::receive_document_callback_fault(input, log) is None
                    && !(log[1].optional_row::<CallbackEvent>()->Ok_0 is Some
                        && input.callback_kind@ != "editing"@)
                    && log.len() > 3
                    ==> log[3].required_row::<FenceGenerations>(
                        DatabaseError::StaleGeneration,
                    ) is Ok
                    && fence.agrees_with(participant.generations.expected())
            }),
    {
        reveal_strlit("output_required");
        reveal_strlit("editing");
        assert("output_required"@.len() != "editing"@.len());
    }

    /// Every statement of `receive_document_callback` is about its tenant.
    pub proof fn receive_document_callback_is_scoped<'a>(
        input: &'a ReceiveDocumentCallbackInput<'a>,
        log: Seq<Reply>,
    )
        ensures
            crate::step::is_scoped(
                Self::receive_document_callback_script(input, log),
                input.tenant_id,
            ),
    {
    }

    /// What stops `received_document_revision`, in order.
    pub open spec fn received_document_revision_fault(log: Seq<Reply>) -> Option<Fault> {
        if log.len() > 0
            && log[0].required_row::<ReceivedDocumentRevision>(DatabaseError::NotFound) is Err {
            Fault::of(log[0].required_row::<ReceivedDocumentRevision>(DatabaseError::NotFound))
        } else {
            None
        }
    }

    /// The commands of `received_document_revision`, in order.
    pub open spec fn received_document_revision_script<'a>(
        tenant_id: Uuid, revision_id: Uuid, log: Seq<Reply>,
    ) -> Seq<CommandView<'a>> {
        seq![
            CommandView::optional(
                sql::RECEIVED_DOCUMENT_REVISION,
                seq![Param::Id(tenant_id), Param::Id(revision_id)],
            ),
        ]
    }

    /// What `received_document_revision` returns.
    pub open spec fn received_document_revision_output(
        log: Seq<Reply>,
    ) -> ReceivedDocumentRevision {
        let revision =
            log[0].required_row::<ReceivedDocumentRevision>(DatabaseError::NotFound)->Ok_0;
        revision
    }

    /// Looks an announced revision up.
    pub fn received_document_revision<'a>(
        tenant_id: Uuid, revision_id: Uuid, log: &'a [Reply],
    ) -> (step: Step<'a, ReceivedDocumentRevision>)
        ensures
            step@ == StepView::proceed(
                Self::received_document_revision_fault(log@),
                Self::received_document_revision_script(tenant_id, revision_id, log@),
                Self::received_document_revision_output(log@),
                log@,
            ),
    {
        if log.len() == 0 {
            return ask_optional(
                sql::RECEIVED_DOCUMENT_REVISION,
                vec![Param::Id(tenant_id), Param::Id(revision_id)],
            );
        }
        let revision: ReceivedDocumentRevision = match required(&log[0], DatabaseError::NotFound) {
            Ok(value) => value,
            Err(fault) => return stop(fault),
        };
        Step::Done(revision)
    }

    /// Every statement of `received_document_revision` is about its tenant.
    pub proof fn received_document_revision_is_scoped(
        tenant_id: Uuid, revision_id: Uuid, log: Seq<Reply>,
    )
        ensures
            crate::step::is_scoped(
                Self::received_document_revision_script(tenant_id, revision_id, log),
                tenant_id,
            ),
    {
    }

    /// What stops `create_document_session`, in order.
    pub open spec fn create_document_session_fault<'a>(
        input: &'a CreateDocumentSessionInput<'a>,
        log: Seq<Reply>,
    ) -> Option<Fault> {
        let receipt = log[2].optional_row::<OperationReceipt>()->Ok_0;
        let stored = receipt->0;
        let fence = log[3].required_row::<FenceGenerations>(DatabaseError::StaleGeneration)->Ok_0;
        let active = log[5].single_row::<i64>()->Ok_0;
        let head = log[6].required_row::<Option<Uuid>>(DatabaseError::NotFound)->Ok_0;
        let base = log[7].required_row::<BaseVersion>(DatabaseError::NotFound)->Ok_0;
        let open = log[9].optional_row::<DocumentSessionRecord>()->Ok_0;
        let opens = open is None;
        let drawn = log[10].drawn_ids(2);
        let session = if opens {
            log[12].single_row::<DocumentSessionRecord>()->Ok_0
        } else {
            open->0
        };
        let at = if opens {
            13int
        } else {
            10
        };
        if input.provider_id.is_empty() || input.provider_id.len() > 64 || input.mode@ != "view"@
            && input.mode@ != "edit"@ && input.mode@ != "comment"@ && input.mode@ != "review"@
            || input.maximum_active_participants < 1
            || input.maximum_active_participants > DOCUMENT_MAX_ACTIVE_PARTICIPANTS
            || input.maximum_document_bytes < 1
            || input.maximum_document_bytes > DOCUMENT_MAX_BYTES {
            Some(Fault::Error(DatabaseError::InvalidPersistedValue))
        } else if log.len() > 2 && log[2].optional_row::<OperationReceipt>() is Err {
            Fault::of(log[2].optional_row::<OperationReceipt>())
        } else if log.len() > 2 && receipt is Some {
            if log.len() > 2 && (stored.request_fingerprint@ != input.request_fingerprint@
                    || stored.command_kind@ != "create_session"@) {
                Some(Fault::Error(DatabaseError::Conflict))
            } else {
                None
            }
        } else if log.len() > 3
            && log[3].required_row::<FenceGenerations>(DatabaseError::StaleGeneration) is Err {
            Fault::of(log[3].required_row::<FenceGenerations>(DatabaseError::StaleGeneration))
        } else if log.len() > 3 && !fence.agrees_with(input.generations.expected()) {
            Some(Fault::Error(DatabaseError::StaleGeneration))
        } else if log.len() > 5 && log[5].single_row::<i64>() is Err {
            Fault::of(log[5].single_row::<i64>())
        } else if log.len() > 5 && active >= input.maximum_active_participants {
            Some(Fault::Error(DatabaseError::AdmissionLimited))
        } else if log.len() > 6
            && log[6].required_row::<Option<Uuid>>(DatabaseError::NotFound) is Err {
            Fault::of(log[6].required_row::<Option<Uuid>>(DatabaseError::NotFound))
        } else if log.len() > 6 && head is None {
            Some(Fault::Error(DatabaseError::NotFound))
        } else if log.len() > 6 && head != Some(input.base_version_id) {
            Some(Fault::Error(DatabaseError::Conflict))
        } else if log.len() > 7
            && log[7].required_row::<BaseVersion>(DatabaseError::NotFound) is Err {
            Fault::of(log[7].required_row::<BaseVersion>(DatabaseError::NotFound))
        } else if log.len() > 7 && !is_editable_base(base, input.maximum_document_bytes) {
            Some(Fault::Error(DatabaseError::InvalidPersistedValue))
        } else if log.len() > 9 && log[9].optional_row::<DocumentSessionRecord>() is Err {
            Fault::of(log[9].optional_row::<DocumentSessionRecord>())
        } else if log.len() > 9 && open is Some && open->0.state@ == "draining"@ {
            Some(Fault::Error(DatabaseError::Conflict))
        } else if opens && log.len() > 10 && drawn is Err {
            Fault::of(drawn)
        } else if opens && log.len() > 12 && log[12].single_row::<DocumentSessionRecord>() is Err {
            Fault::of(log[12].single_row::<DocumentSessionRecord>())
        } else if log.len() > at && log[at].single_row::<JoinedParticipant>() is Err {
            Fault::of(log[at].single_row::<JoinedParticipant>())
        } else if log.len() > at + 1 && log[at + 1].single_row::<String>() is Err {
            Fault::of(log[at + 1].single_row::<String>())
        } else if log.len() > at + 3 && log[at + 3].single_row::<i64>() is Err {
            Fault::of(log[at + 3].single_row::<i64>())
        } else if log.len() > at + 3 && session.fencing_token < 0 {
            Some(Fault::Error(DatabaseError::InvalidPersistedValue))
        } else if log.len() > at + 5 && log[at + 5].one_affected(DatabaseError::Conflict) is Err {
            Fault::of(log[at + 5].one_affected(DatabaseError::Conflict))
        } else {
            None
        }
    }

    /// The commands of `create_document_session`, in order.
    pub open spec fn create_document_session_script<'a>(
        input: &'a CreateDocumentSessionInput<'a>,
        log: Seq<Reply>,
    ) -> Seq<CommandView<'a>> {
        let receipt = log[2].optional_row::<OperationReceipt>()->Ok_0;
        let open = log[9].optional_row::<DocumentSessionRecord>()->Ok_0;
        let opens = open is None;
        let drawn = log[10].drawn_ids(2);
        let session_id = drawn->Ok_0[0];
        let session_principal_id = drawn->Ok_0[1];
        let session = if opens {
            log[12].single_row::<DocumentSessionRecord>()->Ok_0
        } else {
            open->0
        };
        let at = if opens {
            13int
        } else {
            10
        };
        let joined = log[at].single_row::<JoinedParticipant>()->Ok_0;
        let display_name = log[at + 1].single_row::<String>()->Ok_0;
        let occurred_at = log[at + 3].single_row::<i64>()->Ok_0;
        let expires_at = session.absolute_expires_at;
        let launch = DocumentLaunchRecord {
            grant_id: Uuid { value: 0 },
            participant: joined.named_spec(display_name),
            session,
            expires_at,
        };
        seq![
            CommandView::Begin,
            CommandView::execute(
                sql::DOCUMENT_OPERATION_REPLAY_SELECT_ADVISORY_LOCK,
                seq![Param::Digest(input.operation_digest), Param::Id(input.tenant_id)],
            ),
            CommandView::optional(
                sql::DOCUMENT_OPERATION_REPLAY_SELECT_OPERATION_RECEIPTS,
                seq![Param::Id(input.tenant_id), Param::Digest(input.operation_digest)],
            ),
        ].add(
            if receipt is Some {
                seq![CommandView::Commit]
            } else {
                seq![
                    CommandView::optional(
                        catalog::LOCK_AUTHORIZATION_FENCE,
                        seq![
                            Param::Id(input.tenant_id), Param::Id(input.api_session_id),
                            Param::Id(input.actor_principal_id), Param::Id(input.drive_id),
                            Param::Id(input.node_id),
                        ],
                    ),
                    CommandView::execute(
                        sql::CREATE_DOCUMENT_SESSION_SELECT_ADVISORY_LOCK,
                        seq![Param::Scoped(input.tenant_id, input.provider_id)],
                    ),
                    CommandView::one(
                        sql::CREATE_DOCUMENT_SESSION_COUNT_PARTICIPANTS,
                        seq![Param::Id(input.tenant_id), Param::Text(input.provider_id)],
                    ),
                    CommandView::optional(
                        sql::CREATE_DOCUMENT_SESSION_SELECT_NODES,
                        seq![
                            Param::Id(input.tenant_id), Param::Id(input.drive_id),
                            Param::Id(input.node_id),
                        ],
                    ),
                    CommandView::optional(
                        sql::CREATE_DOCUMENT_SESSION_SELECT_FILE_VERSIONS,
                        seq![
                            Param::Id(input.tenant_id), Param::Id(input.node_id),
                            Param::Id(input.base_version_id),
                        ],
                    ),
                    CommandView::execute(
                        sql::CREATE_DOCUMENT_SESSION_UPDATE_SESSIONS,
                        seq![
                            Param::Id(input.tenant_id), Param::Text(input.provider_id),
                            Param::Id(input.node_id), Param::Id(input.base_version_id),
                        ],
                    ),
                    CommandView::optional(
                        sql::CREATE_DOCUMENT_SESSION_SELECT_SESSIONS,
                        seq![
                            Param::Id(input.tenant_id), Param::Text(input.provider_id),
                            Param::Id(input.node_id), Param::Id(input.base_version_id),
                        ],
                    ),
                ].add(
                    if opens {
                        seq![
                            CommandView::DrawIds(2),
                            CommandView::execute(
                                sql::CREATE_DOCUMENT_SESSION_SELECT_VALUE,
                                seq![Param::Id(input.tenant_id), Param::Id(session_principal_id)],
                            ),
                            CommandView::one(
                                sql::CREATE_DOCUMENT_SESSION_INSERT_SESSIONS,
                                seq![
                                    Param::Id(input.tenant_id), Param::Id(session_id),
                                    Param::Id(session_principal_id), Param::Id(input.drive_id),
                                    Param::Id(input.node_id), Param::Text(input.provider_id),
                                    Param::Id(input.base_version_id),
                                    Param::Id(input.actor_principal_id),
                                ],
                            ),
                        ]
                    } else {
                        Seq::empty()
                    },
                ).add(
                    seq![
                        CommandView::one(
                            sql::CREATE_DOCUMENT_SESSION_INSERT_PARTICIPANTS,
                            seq![
                                Param::Id(input.tenant_id), Param::FreshId, Param::Id(session.id),
                                Param::Id(input.actor_principal_id),
                                Param::Id(input.api_session_id),
                                Param::Text(input.mode), Param::I64(input.generations.membership),
                                Param::I64(input.generations.drive_acl),
                                Param::I64(input.generations.namespace),
                                Param::I64(input.generations.resource_acl),
                            ],
                        ),
                        CommandView::one(
                            sql::CREATE_DOCUMENT_SESSION_SELECT_USERS,
                            seq![Param::Id(input.tenant_id), Param::Id(input.actor_principal_id)],
                        ),
                        CommandView::execute(
                            catalog::INSERT_AUDIT,
                            seq![
                                Param::Id(input.tenant_id), Param::FreshId,
                                Param::OptId(Some(input.actor_principal_id)),
                                Param::OptId(Some(session.session_principal_id)),
                                Param::OptId(Some(input.node_id)),
                                Param::Text("document.session.create"),
                                Param::Text("allowed"), Param::Text("document_session_created"),
                                Param::Bool(true),
                                Param::Object2(
                                    "mode", Detail::Text(input.mode), "provider_id",
                                    Detail::Text(input.provider_id),
                                ),
                            ],
                        ),
                        CommandView::one(catalog::INSERT_OUTBOX_SELECT_VALUE, seq![]),
                        CommandView::execute(
                            catalog::INSERT_OUTBOX_INSERT_OUTBOX_EVENTS,
                            seq![
                                Param::Id(input.tenant_id), Param::FreshId,
                                Param::Text("filebelt.v1.document.session.changed"),
                                Param::Text("document_session"), Param::Id(session.id),
                                Param::I64(session.fencing_token),
                                Param::Pair(input.tenant_id, session.id),
                                Param::Event(
                                    Envelope {
                                        tenant_id: input.tenant_id,
                                        aggregate_type: "document_session",
                                        aggregate_id: session.id,
                                        aggregate_generation: session.fencing_token as u64,
                                        event_type: "filebelt.v1.document.session.changed",
                                        occurred_at_unix_seconds: occurred_at,
                                    },
                                ),
                            ],
                        ),
                        CommandView::execute(
                            sql::DOCUMENT_OPERATION_RECORD,
                            seq![
                                Param::Id(input.tenant_id), Param::Digest(input.operation_digest),
                                Param::Digest(input.request_fingerprint),
                                Param::Text("create_session"),
                                Param::Launch(launch),
                            ],
                        ),
                        CommandView::Commit,
                    ],
                )
            },
        )
    }

    /// What `create_document_session` returns.
    pub open spec fn create_document_session_output(
        log: Seq<Reply>,
    ) -> Recorded<DocumentLaunchRecord> {
        let receipt = log[2].optional_row::<OperationReceipt>()->Ok_0;
        let stored = receipt->0;
        let open = log[9].optional_row::<DocumentSessionRecord>()->Ok_0;
        let opens = open is None;
        let session = if opens {
            log[12].single_row::<DocumentSessionRecord>()->Ok_0
        } else {
            open->0
        };
        let at = if opens {
            13int
        } else {
            10
        };
        let joined = log[at].single_row::<JoinedParticipant>()->Ok_0;
        let display_name = log[at + 1].single_row::<String>()->Ok_0;
        let expires_at = session.absolute_expires_at;
        let launch = DocumentLaunchRecord {
            grant_id: Uuid { value: 0 },
            participant: joined.named_spec(display_name),
            session,
            expires_at,
        };
        if receipt is Some {
            Recorded::Replayed(stored.response)
        } else {
            Recorded::Created(launch)
        }
    }

    /// Opens a session on a file's head version, or joins the one that is open on it. The launch
    /// carries no token. The operation is recorded under its digest and replayed from there.
    #[verifier::spinoff_prover]
    #[verifier::rlimit(90)]
    pub fn create_document_session<'a>(
        input: &'a CreateDocumentSessionInput<'a>,
        log: &'a [Reply],
    ) -> (step: Step<'a, Recorded<DocumentLaunchRecord>>)
        ensures
            step@ == StepView::proceed(
                Self::create_document_session_fault(input, log@),
                Self::create_document_session_script(input, log@),
                Self::create_document_session_output(log@),
                log@,
            ),
    {
        if input.provider_id.is_empty() || input.provider_id.len() > 64
            || !text_eq(input.mode, "view") && !text_eq(input.mode, "edit")
            && !text_eq(input.mode, "comment") && !text_eq(input.mode, "review")
            || input.maximum_active_participants < 1
            || input.maximum_active_participants > DOCUMENT_MAX_ACTIVE_PARTICIPANTS
            || input.maximum_document_bytes < 1
            || input.maximum_document_bytes > DOCUMENT_MAX_BYTES {
            return Step::Fail(DatabaseError::InvalidPersistedValue);
        }
        if log.len() == 0 {
            return Step::Ask(Command::Begin);
        }
        if log.len() <= 1 {
            return ask_execute(
                sql::DOCUMENT_OPERATION_REPLAY_SELECT_ADVISORY_LOCK,
                vec![Param::Digest(input.operation_digest), Param::Id(input.tenant_id)],
            );
        }
        if log.len() <= 2 {
            return ask_optional(
                sql::DOCUMENT_OPERATION_REPLAY_SELECT_OPERATION_RECEIPTS,
                vec![Param::Id(input.tenant_id), Param::Digest(input.operation_digest)],
            );
        }
        let receipt: Option<OperationReceipt> = match optional::<OperationReceipt>(&log[2]) {
            Ok(value) => value,
            Err(fault) => return stop(fault),
        };
        if receipt.is_some() {
            let stored: OperationReceipt = receipt.unwrap();
            if !bytes_eq(stored.request_fingerprint.as_slice(), input.request_fingerprint)
                || !text_eq(stored.command_kind.as_str(), "create_session") {
                return Step::Fail(DatabaseError::Conflict);
            }
            if log.len() <= 3 {
                return Step::Ask(Command::Commit);
            }
            return Step::Done(Recorded::Replayed(stored.response));
        }
        if log.len() <= 3 {
            return ask_optional(
                catalog::LOCK_AUTHORIZATION_FENCE,
                vec![
                    Param::Id(input.tenant_id), Param::Id(input.api_session_id),
                    Param::Id(input.actor_principal_id), Param::Id(input.drive_id),
                    Param::Id(input.node_id),
                ],
            );
        }
        let fence: FenceGenerations = match required(&log[3], DatabaseError::StaleGeneration) {
            Ok(value) => value,
            Err(fault) => return stop(fault),
        };
        if !fence.agree(input.generations.as_array()) {
            return Step::Fail(DatabaseError::StaleGeneration);
        }
        if log.len() <= 4 {
            return ask_execute(
                sql::CREATE_DOCUMENT_SESSION_SELECT_ADVISORY_LOCK,
                vec![Param::Scoped(input.tenant_id, input.provider_id)],
            );
        }
        if log.len() <= 5 {
            return ask_one(
                sql::CREATE_DOCUMENT_SESSION_COUNT_PARTICIPANTS,
                vec![Param::Id(input.tenant_id), Param::Text(input.provider_id)],
            );
        }
        let active: i64 = match single::<i64>(&log[5]) {
            Ok(value) => value,
            Err(fault) => return stop(fault),
        };
        if active >= input.maximum_active_participants {
            return Step::Fail(DatabaseError::AdmissionLimited);
        }
        if log.len() <= 6 {
            return ask_optional(
                sql::CREATE_DOCUMENT_SESSION_SELECT_NODES,
                vec![
                    Param::Id(input.tenant_id), Param::Id(input.drive_id),
                    Param::Id(input.node_id),
                ],
            );
        }
        let head: Option<Uuid> = match required::<Option<Uuid>>(&log[6], DatabaseError::NotFound) {
            Ok(value) => value,
            Err(fault) => return stop(fault),
        };
        if head.is_none() {
            return Step::Fail(DatabaseError::NotFound);
        }
        if head != Some(input.base_version_id) {
            return Step::Fail(DatabaseError::Conflict);
        }
        if log.len() <= 7 {
            return ask_optional(
                sql::CREATE_DOCUMENT_SESSION_SELECT_FILE_VERSIONS,
                vec![
                    Param::Id(input.tenant_id), Param::Id(input.node_id),
                    Param::Id(input.base_version_id),
                ],
            );
        }
        let base: BaseVersion = match required::<BaseVersion>(&log[7], DatabaseError::NotFound) {
            Ok(value) => value,
            Err(fault) => return stop(fault),
        };
        if !editable_base(&base, input.maximum_document_bytes) {
            return Step::Fail(DatabaseError::InvalidPersistedValue);
        }
        if log.len() <= 8 {
            return ask_execute(
                sql::CREATE_DOCUMENT_SESSION_UPDATE_SESSIONS,
                vec![
                    Param::Id(input.tenant_id), Param::Text(input.provider_id),
                    Param::Id(input.node_id), Param::Id(input.base_version_id),
                ],
            );
        }
        if log.len() <= 9 {
            return ask_optional(
                sql::CREATE_DOCUMENT_SESSION_SELECT_SESSIONS,
                vec![
                    Param::Id(input.tenant_id), Param::Text(input.provider_id),
                    Param::Id(input.node_id), Param::Id(input.base_version_id),
                ],
            );
        }
        let open: Option<DocumentSessionRecord> = match optional::<DocumentSessionRecord>(&log[9]) {
            Ok(value) => value,
            Err(fault) => return stop(fault),
        };
        if open.is_some() && text_eq(open.as_ref().unwrap().state.as_str(), "draining") {
            return Step::Fail(DatabaseError::Conflict);
        }
        let opens: bool = open.is_none();
        let session: DocumentSessionRecord = if opens {
            if log.len() <= 10 {
                return Step::Ask(Command::DrawIds(2));
            }
            let drawn: &Vec<Uuid> = match drawn(&log[10], 2) {
                Ok(ids) => ids,
                Err(fault) => return stop(fault),
            };
            let session_id: Uuid = drawn[0];
            let session_principal_id: Uuid = drawn[1];
            if log.len() <= 11 {
                return ask_execute(
                    sql::CREATE_DOCUMENT_SESSION_SELECT_VALUE,
                    vec![Param::Id(input.tenant_id), Param::Id(session_principal_id)],
                );
            }
            if log.len() <= 12 {
                return ask_one(
                    sql::CREATE_DOCUMENT_SESSION_INSERT_SESSIONS,
                    vec![
                        Param::Id(input.tenant_id), Param::Id(session_id),
                        Param::Id(session_principal_id), Param::Id(input.drive_id),
                        Param::Id(input.node_id), Param::Text(input.provider_id),
                        Param::Id(input.base_version_id), Param::Id(input.actor_principal_id),
                    ],
                );
            }
            let session: DocumentSessionRecord = match single::<DocumentSessionRecord>(&log[12]) {
                Ok(value) => value,
                Err(fault) => return stop(fault),
            };
            session
        } else {
            open.unwrap()
        };
        let at: usize = if opens {
            13
        } else {
            10
        };
        if log.len() <= at {
            return ask_one(
                sql::CREATE_DOCUMENT_SESSION_INSERT_PARTICIPANTS,
                vec![
                    Param::Id(input.tenant_id), Param::FreshId, Param::Id(session.id),
                    Param::Id(input.actor_principal_id), Param::Id(input.api_session_id),
                    Param::Text(input.mode), Param::I64(input.generations.membership),
                    Param::I64(input.generations.drive_acl),
                    Param::I64(input.generations.namespace),
                    Param::I64(input.generations.resource_acl),
                ],
            );
        }
        let joined: JoinedParticipant = match single::<JoinedParticipant>(&log[at]) {
            Ok(value) => value,
            Err(fault) => return stop(fault),
        };
        if log.len() - at <= 1 {
            return ask_one(
                sql::CREATE_DOCUMENT_SESSION_SELECT_USERS,
                vec![Param::Id(input.tenant_id), Param::Id(input.actor_principal_id)],
            );
        }
        let display_name: String = match single::<String>(&log[at + 1]) {
            Ok(value) => value,
            Err(fault) => return stop(fault),
        };
        if log.len() - at <= 2 {
            return ask_execute(
                catalog::INSERT_AUDIT,
                vec![
                    Param::Id(input.tenant_id), Param::FreshId,
                    Param::OptId(Some(input.actor_principal_id)),
                    Param::OptId(Some(session.session_principal_id)),
                    Param::OptId(Some(input.node_id)), Param::Text("document.session.create"),
                    Param::Text("allowed"), Param::Text("document_session_created"),
                    Param::Bool(true),
                    Param::Object2(
                        "mode", Detail::Text(input.mode), "provider_id",
                        Detail::Text(input.provider_id),
                    ),
                ],
            );
        }
        if log.len() - at <= 3 {
            return ask_one(catalog::INSERT_OUTBOX_SELECT_VALUE, vec![]);
        }
        let occurred_at: i64 = match single::<i64>(&log[at + 3]) {
            Ok(value) => value,
            Err(fault) => return stop(fault),
        };
        if session.fencing_token < 0 {
            return Step::Fail(DatabaseError::InvalidPersistedValue);
        }
        if log.len() - at <= 4 {
            return ask_execute(
                catalog::INSERT_OUTBOX_INSERT_OUTBOX_EVENTS,
                vec![
                    Param::Id(input.tenant_id), Param::FreshId,
                    Param::Text("filebelt.v1.document.session.changed"),
                    Param::Text("document_session"), Param::Id(session.id),
                    Param::I64(session.fencing_token), Param::Pair(input.tenant_id, session.id),
                    Param::Event(
                        Envelope {
                            tenant_id: input.tenant_id,
                            aggregate_type: "document_session",
                            aggregate_id: session.id,
                            aggregate_generation: session.fencing_token as u64,
                            event_type: "filebelt.v1.document.session.changed",
                            occurred_at_unix_seconds: occurred_at,
                        },
                    ),
                ],
            );
        }
        let expires_at: String = session.absolute_expires_at.clone();
        let launch: DocumentLaunchRecord = DocumentLaunchRecord {
            grant_id: Uuid::nil(),
            participant: joined.named(display_name),
            session,
            expires_at,
        };
        if log.len() - at <= 5 {
            return ask_execute(
                sql::DOCUMENT_OPERATION_RECORD,
                vec![
                    Param::Id(input.tenant_id), Param::Digest(input.operation_digest),
                    Param::Digest(input.request_fingerprint), Param::Text("create_session"),
                    Param::Launch(launch),
                ],
            );
        }
        if let Err(fault) = exactly_one(&log[at + 5], DatabaseError::Conflict) {
            return stop(fault);
        }
        if log.len() - at <= 6 {
            return Step::Ask(Command::Commit);
        }
        Step::Done(Recorded::Created(launch))
    }

    /// `create_document_session` runs in one transaction: it is done once its commit is
    /// acknowledged, and when it fails, nothing was committed.
    pub proof fn create_document_session_is_atomic<'a>(
        input: &'a CreateDocumentSessionInput<'a>,
        log: Seq<Reply>,
    )
        ensures
            crate::step::is_atomic(Self::create_document_session_script(input, log), 0),
            crate::step::commit_acknowledged(
                Self::create_document_session_fault(input, log.drop_last()),
                Self::create_document_session_script(input, log.drop_last()),
                log,
            ) ==> {
                &&& Self::create_document_session_fault(input, log) is None
                &&& log.len() == Self::create_document_session_script(input, log).len()
            },
    {
    }

    /// `create_document_session` goes past its fence only where the generations that it has locked
    /// are those that the caller was authorized under. An operation that took effect before is
    /// replayed without it.
    pub proof fn create_document_session_is_fenced<'a>(
        input: &'a CreateDocumentSessionInput<'a>,
        log: Seq<Reply>,
    )
        ensures
            ({
                let fence =
                    log[3].required_row::<FenceGenerations>(DatabaseError::StaleGeneration)->Ok_0;
                Self::create_document_session_fault(input, log) is None
                    && !(log[2].optional_row::<OperationReceipt>()->Ok_0 is Some)
                    && log.len() > 3
                    ==> log[3].required_row::<FenceGenerations>(
                        DatabaseError::StaleGeneration,
                    ) is Ok
                    && fence.agrees_with(input.generations.expected())
            }),
    {
    }

    /// Every statement of `create_document_session` is about its tenant.
    pub proof fn create_document_session_is_scoped<'a>(
        input: &'a CreateDocumentSessionInput<'a>,
        log: Seq<Reply>,
    )
        ensures
            crate::step::is_scoped(
                Self::create_document_session_script(input, log),
                input.tenant_id,
            ),
    {
    }

    /// What stops `issue_document_launch_grant`, in order.
    pub open spec fn issue_document_launch_grant_fault(log: Seq<Reply>) -> Option<Fault> {
        let consumed = log[2].single_row::<bool>()->Ok_0;
        if log.len() > 1 && log[1].required_row::<Uuid>(DatabaseError::NotFound) is Err {
            Fault::of(log[1].required_row::<Uuid>(DatabaseError::NotFound))
        } else if log.len() > 2 && log[2].single_row::<bool>() is Err {
            Fault::of(log[2].single_row::<bool>())
        } else if log.len() > 2 && consumed {
            Some(Fault::Error(DatabaseError::Conflict))
        } else if log.len() > 4 && log[4].single_row::<i64>() is Err {
            Fault::of(log[4].single_row::<i64>())
        } else {
            None
        }
    }

    /// The commands of `issue_document_launch_grant`, in order.
    pub open spec fn issue_document_launch_grant_script<'a>(
        tenant_id: Uuid, document_session_id: Uuid, actor_principal_id: Uuid,
        api_session_id: Uuid, token_digest: &'a [u8; 32], log: Seq<Reply>,
    ) -> Seq<CommandView<'a>> {
        let participant_id = log[1].required_row::<Uuid>(DatabaseError::NotFound)->Ok_0;
        seq![
            CommandView::Begin,
            CommandView::optional(
                sql::ISSUE_DOCUMENT_LAUNCH_GRANT_SELECT_PARTICIPANTS,
                seq![
                    Param::Id(tenant_id), Param::Id(document_session_id),
                    Param::Id(actor_principal_id), Param::Id(api_session_id),
                ],
            ),
            CommandView::one(
                sql::ISSUE_DOCUMENT_LAUNCH_GRANT_EXISTS_LAUNCH_GRANTS,
                seq![Param::Id(tenant_id), Param::Id(participant_id)],
            ),
            CommandView::execute(
                sql::ISSUE_DOCUMENT_LAUNCH_GRANT_DELETE_LAUNCH_GRANTS,
                seq![Param::Id(tenant_id), Param::Id(participant_id)],
            ),
            CommandView::one(
                sql::ISSUE_DOCUMENT_LAUNCH_GRANT_INSERT_LAUNCH_GRANTS,
                seq![
                    Param::Id(tenant_id), Param::FreshId, Param::Id(participant_id),
                    Param::Digest(token_digest),
                ],
            ),
            CommandView::Commit,
        ]
    }

    /// What `issue_document_launch_grant` returns.
    pub open spec fn issue_document_launch_grant_output(log: Seq<Reply>) -> i64 {
        let expires_at = log[4].single_row::<i64>()->Ok_0;
        expires_at
    }

    /// Issues a handoff token, of which only the digest is kept, and returns when it expires. A
    /// token that was lost before its redemption is replaced; once one was redeemed, the
    /// participant gets no other.
    pub fn issue_document_launch_grant<'a>(
        tenant_id: Uuid, document_session_id: Uuid, actor_principal_id: Uuid,
        api_session_id: Uuid, token_digest: &'a [u8; 32], log: &'a [Reply],
    ) -> (step: Step<'a, i64>)
        ensures
            step@ == StepView::proceed(
                Self::issue_document_launch_grant_fault(log@),
                Self::issue_document_launch_grant_script(
                    tenant_id, document_session_id, actor_principal_id, api_session_id,
                    token_digest, log@,
                ),
                Self::issue_document_launch_grant_output(log@),
                log@,
            ),
    {
        if log.len() == 0 {
            return Step::Ask(Command::Begin);
        }
        if log.len() <= 1 {
            return ask_optional(
                sql::ISSUE_DOCUMENT_LAUNCH_GRANT_SELECT_PARTICIPANTS,
                vec![
                    Param::Id(tenant_id), Param::Id(document_session_id),
                    Param::Id(actor_principal_id), Param::Id(api_session_id),
                ],
            );
        }
        let participant_id: Uuid = match required::<Uuid>(&log[1], DatabaseError::NotFound) {
            Ok(value) => value,
            Err(fault) => return stop(fault),
        };
        if log.len() <= 2 {
            return ask_one(
                sql::ISSUE_DOCUMENT_LAUNCH_GRANT_EXISTS_LAUNCH_GRANTS,
                vec![Param::Id(tenant_id), Param::Id(participant_id)],
            );
        }
        let consumed: bool = match single::<bool>(&log[2]) {
            Ok(value) => value,
            Err(fault) => return stop(fault),
        };
        if consumed {
            return Step::Fail(DatabaseError::Conflict);
        }
        if log.len() <= 3 {
            return ask_execute(
                sql::ISSUE_DOCUMENT_LAUNCH_GRANT_DELETE_LAUNCH_GRANTS,
                vec![Param::Id(tenant_id), Param::Id(participant_id)],
            );
        }
        if log.len() <= 4 {
            return ask_one(
                sql::ISSUE_DOCUMENT_LAUNCH_GRANT_INSERT_LAUNCH_GRANTS,
                vec![
                    Param::Id(tenant_id), Param::FreshId, Param::Id(participant_id),
                    Param::Digest(token_digest),
                ],
            );
        }
        let expires_at: i64 = match single::<i64>(&log[4]) {
            Ok(value) => value,
            Err(fault) => return stop(fault),
        };
        if log.len() <= 5 {
            return Step::Ask(Command::Commit);
        }
        Step::Done(expires_at)
    }

    /// `issue_document_launch_grant` runs in one transaction: it is done once its commit is
    /// acknowledged, and when it fails, nothing was committed.
    pub proof fn issue_document_launch_grant_is_atomic<'a>(
        tenant_id: Uuid, document_session_id: Uuid, actor_principal_id: Uuid,
        api_session_id: Uuid, token_digest: &'a [u8; 32], log: Seq<Reply>,
    )
        ensures
            crate::step::is_atomic(
                Self::issue_document_launch_grant_script(
                    tenant_id, document_session_id, actor_principal_id, api_session_id,
                    token_digest, log,
                ),
                0,
            ),
            crate::step::commit_acknowledged(
                Self::issue_document_launch_grant_fault(log.drop_last()),
                Self::issue_document_launch_grant_script(
                    tenant_id, document_session_id, actor_principal_id, api_session_id,
                    token_digest, log.drop_last(),
                ),
                log,
            ) ==> {
                &&& Self::issue_document_launch_grant_fault(log) is None
                &&& log.len() == Self::issue_document_launch_grant_script(
                    tenant_id, document_session_id, actor_principal_id, api_session_id,
                    token_digest, log,
                ).len()
            },
    {
    }

    /// Every statement of `issue_document_launch_grant` is about its tenant.
    pub proof fn issue_document_launch_grant_is_scoped<'a>(
        tenant_id: Uuid, document_session_id: Uuid, actor_principal_id: Uuid, api_session_id: Uuid,
        token_digest: &'a [u8; 32], log: Seq<Reply>,
    )
        ensures
            crate::step::is_scoped(
                Self::issue_document_launch_grant_script(
                    tenant_id, document_session_id, actor_principal_id, api_session_id,
                    token_digest, log,
                ),
                tenant_id,
            ),
    {
    }

    /// What stops `consume_document_launch_grant`, in order.
    pub open spec fn consume_document_launch_grant_fault(log: Seq<Reply>) -> Option<Fault> {
        if log.len() > 1 && log[1].required_row::<GrantLaunch>(DatabaseError::NotFound) is Err {
            Fault::of(log[1].required_row::<GrantLaunch>(DatabaseError::NotFound))
        } else {
            None
        }
    }

    /// The commands of `consume_document_launch_grant`, in order.
    pub open spec fn consume_document_launch_grant_script<'a>(
        tenant_id: Uuid, token_digest: &'a [u8; 32], log: Seq<Reply>,
    ) -> Seq<CommandView<'a>> {
        seq![
            CommandView::Begin,
            CommandView::optional(
                sql::CONSUME_DOCUMENT_LAUNCH_GRANT,
                seq![Param::Id(tenant_id), Param::Digest(token_digest)],
            ),
            CommandView::Commit,
        ]
    }

    /// What `consume_document_launch_grant` returns.
    pub open spec fn consume_document_launch_grant_output(log: Seq<Reply>) -> DocumentLaunchRecord {
        let grant = log[1].required_row::<GrantLaunch>(DatabaseError::NotFound)->Ok_0;
        DocumentLaunchRecord {
            grant_id: grant.grant_id,
            participant: grant.participant,
            session: grant.session,
            expires_at: grant.expires_at,
        }
    }

    /// Redeems a handoff token.
    pub fn consume_document_launch_grant<'a>(
        tenant_id: Uuid, token_digest: &'a [u8; 32], log: &'a [Reply],
    ) -> (step: Step<'a, DocumentLaunchRecord>)
        ensures
            step@ == StepView::proceed(
                Self::consume_document_launch_grant_fault(log@),
                Self::consume_document_launch_grant_script(tenant_id, token_digest, log@),
                Self::consume_document_launch_grant_output(log@),
                log@,
            ),
    {
        if log.len() == 0 {
            return Step::Ask(Command::Begin);
        }
        if log.len() <= 1 {
            return ask_optional(
                sql::CONSUME_DOCUMENT_LAUNCH_GRANT,
                vec![Param::Id(tenant_id), Param::Digest(token_digest)],
            );
        }
        let grant: GrantLaunch = match required::<GrantLaunch>(&log[1], DatabaseError::NotFound) {
            Ok(value) => value,
            Err(fault) => return stop(fault),
        };
        if log.len() <= 2 {
            return Step::Ask(Command::Commit);
        }
        Step::Done(
            DocumentLaunchRecord {
                grant_id: grant.grant_id,
                participant: grant.participant,
                session: grant.session,
                expires_at: grant.expires_at,
            },
        )
    }

    /// `consume_document_launch_grant` runs in one transaction: it is done once its commit is
    /// acknowledged, and when it fails, nothing was committed.
    pub proof fn consume_document_launch_grant_is_atomic<'a>(
        tenant_id: Uuid, token_digest: &'a [u8; 32], log: Seq<Reply>,
    )
        ensures
            crate::step::is_atomic(
                Self::consume_document_launch_grant_script(tenant_id, token_digest, log),
                0,
            ),
            crate::step::commit_acknowledged(
                Self::consume_document_launch_grant_fault(log.drop_last()),
                Self::consume_document_launch_grant_script(
                    tenant_id, token_digest, log.drop_last(),
                ),
                log,
            ) ==> {
                &&& Self::consume_document_launch_grant_fault(log) is None
                &&& log.len() == Self::consume_document_launch_grant_script(
                    tenant_id, token_digest, log,
                ).len()
            },
    {
    }

    /// Every statement of `consume_document_launch_grant` is about its tenant.
    pub proof fn consume_document_launch_grant_is_scoped<'a>(
        tenant_id: Uuid, token_digest: &'a [u8; 32], log: Seq<Reply>,
    )
        ensures
            crate::step::is_scoped(
                Self::consume_document_launch_grant_script(tenant_id, token_digest, log),
                tenant_id,
            ),
    {
    }

    /// What stops `revoke_document_participant`, in order.
    pub open spec fn revoke_document_participant_fault<'a>(
        reason: &'a str,
        log: Seq<Reply>,
    ) -> Option<Fault> {
        if reason.is_empty() || reason.len() > 96 {
            Some(Fault::Error(DatabaseError::InvalidPersistedValue))
        } else if log.len() > 1 && log[1].optional_row::<SessionOfParticipant>() is Err {
            Fault::of(log[1].optional_row::<SessionOfParticipant>())
        } else {
            None
        }
    }

    /// The commands of `revoke_document_participant`, in order.
    pub open spec fn revoke_document_participant_script<'a>(
        tenant_id: Uuid, participant_id: Uuid, actor_principal_id: Uuid, reason: &'a str,
        log: Seq<Reply>,
    ) -> Seq<CommandView<'a>> {
        let revoked = log[1].optional_row::<SessionOfParticipant>()->Ok_0;
        let session_id = revoked->0.document_session_id;
        seq![
            CommandView::Begin,
            CommandView::optional(
                sql::REVOKE_DOCUMENT_PARTICIPANT_UPDATE_PARTICIPANTS,
                seq![
                    Param::Id(tenant_id), Param::Id(participant_id),
                    Param::Id(actor_principal_id), Param::Text(reason),
                ],
            ),
        ].add(
            if revoked is None {
                seq![CommandView::Commit]
            } else {
                seq![
                    CommandView::execute(
                        sql::REVOKE_DOCUMENT_PARTICIPANT_UPDATE_SESSIONS,
                        seq![Param::Id(tenant_id), Param::Id(session_id), Param::Text(reason)],
                    ),
                    CommandView::execute(
                        catalog::INSERT_AUDIT,
                        seq![
                            Param::Id(tenant_id), Param::FreshId,
                            Param::OptId(Some(actor_principal_id)), Param::OptId(None),
                            Param::OptId(None), Param::Text("document.participant.revoke"),
                            Param::Text("allowed"), Param::Text(reason), Param::Bool(true),
                            Param::Object2(
                                "participant_id", Detail::Id(participant_id), "document_session_id",
                                Detail::Id(session_id),
                            ),
                        ],
                    ),
                    CommandView::Commit,
                ]
            },
        )
    }

    /// What `revoke_document_participant` returns.
    pub open spec fn revoke_document_participant_output(log: Seq<Reply>) -> bool {
        let revoked = log[1].optional_row::<SessionOfParticipant>()->Ok_0;
        revoked is Some
    }

    /// Revokes a participant, and the session with its last one. Returns whether there was one.
    pub fn revoke_document_participant<'a>(
        tenant_id: Uuid, participant_id: Uuid, actor_principal_id: Uuid, reason: &'a str,
        log: &'a [Reply],
    ) -> (step: Step<'a, bool>)
        ensures
            step@ == StepView::proceed(
                Self::revoke_document_participant_fault(reason, log@),
                Self::revoke_document_participant_script(
                    tenant_id, participant_id, actor_principal_id, reason, log@,
                ),
                Self::revoke_document_participant_output(log@),
                log@,
            ),
    {
        if reason.is_empty() || reason.len() > 96 {
            return Step::Fail(DatabaseError::InvalidPersistedValue);
        }
        if log.len() == 0 {
            return Step::Ask(Command::Begin);
        }
        if log.len() <= 1 {
            return ask_optional(
                sql::REVOKE_DOCUMENT_PARTICIPANT_UPDATE_PARTICIPANTS,
                vec![
                    Param::Id(tenant_id), Param::Id(participant_id),
                    Param::Id(actor_principal_id), Param::Text(reason),
                ],
            );
        }
        let revoked: Option<SessionOfParticipant> = match optional(&log[1]) {
            Ok(value) => value,
            Err(fault) => return stop(fault),
        };
        if revoked.is_none() {
            if log.len() <= 2 {
                return Step::Ask(Command::Commit);
            }
            return Step::Done(false);
        }
        let session_id: Uuid = revoked.unwrap().document_session_id;
        if log.len() <= 2 {
            return ask_execute(
                sql::REVOKE_DOCUMENT_PARTICIPANT_UPDATE_SESSIONS,
                vec![Param::Id(tenant_id), Param::Id(session_id), Param::Text(reason)],
            );
        }
        if log.len() <= 3 {
            return ask_execute(
                catalog::INSERT_AUDIT,
                vec![
                    Param::Id(tenant_id), Param::FreshId,
                    Param::OptId(Some(actor_principal_id)), Param::OptId(None),
                    Param::OptId(None), Param::Text("document.participant.revoke"),
                    Param::Text("allowed"), Param::Text(reason), Param::Bool(true),
                    Param::Object2(
                        "participant_id", Detail::Id(participant_id), "document_session_id",
                        Detail::Id(session_id),
                    ),
                ],
            );
        }
        if log.len() <= 4 {
            return Step::Ask(Command::Commit);
        }
        Step::Done(true)
    }

    /// `revoke_document_participant` runs in one transaction: it is done once its commit is
    /// acknowledged, and when it fails, nothing was committed.
    pub proof fn revoke_document_participant_is_atomic<'a>(
        tenant_id: Uuid, participant_id: Uuid, actor_principal_id: Uuid, reason: &'a str,
        log: Seq<Reply>,
    )
        ensures
            crate::step::is_atomic(
                Self::revoke_document_participant_script(
                    tenant_id, participant_id, actor_principal_id, reason, log,
                ),
                0,
            ),
            crate::step::commit_acknowledged(
                Self::revoke_document_participant_fault(reason, log.drop_last()),
                Self::revoke_document_participant_script(
                    tenant_id, participant_id, actor_principal_id, reason, log.drop_last(),
                ),
                log,
            ) ==> {
                &&& Self::revoke_document_participant_fault(reason, log) is None
                &&& log.len() == Self::revoke_document_participant_script(
                    tenant_id, participant_id, actor_principal_id, reason, log,
                ).len()
            },
    {
    }

    /// Every statement of `revoke_document_participant` is about its tenant.
    pub proof fn revoke_document_participant_is_scoped<'a>(
        tenant_id: Uuid, participant_id: Uuid, actor_principal_id: Uuid, reason: &'a str,
        log: Seq<Reply>,
    )
        ensures
            crate::step::is_scoped(
                Self::revoke_document_participant_script(
                    tenant_id, participant_id, actor_principal_id, reason, log,
                ),
                tenant_id,
            ),
    {
    }

    /// What stops `force_close_document_session`, in order.
    pub open spec fn force_close_document_session_fault<'a>(
        input: &'a ForceCloseDocumentSessionInput<'a>,
        log: Seq<Reply>,
    ) -> Option<Fault> {
        let place = log[1].required_row::<SessionPlace>(DatabaseError::NotFound)->Ok_0;
        let fence = log[2].required_row::<FenceGenerations>(DatabaseError::StaleGeneration)->Ok_0;
        if input.reason.is_empty() || input.reason.len() > 96 {
            Some(Fault::Error(DatabaseError::InvalidPersistedValue))
        } else if log.len() > 1
            && log[1].required_row::<SessionPlace>(DatabaseError::NotFound) is Err {
            Fault::of(log[1].required_row::<SessionPlace>(DatabaseError::NotFound))
        } else if log.len() > 1 && (place.drive_id != input.drive_id
                || place.node_id != input.node_id) {
            Some(Fault::Error(DatabaseError::StaleGeneration))
        } else if log.len() > 2
            && log[2].required_row::<FenceGenerations>(DatabaseError::StaleGeneration) is Err {
            Fault::of(log[2].required_row::<FenceGenerations>(DatabaseError::StaleGeneration))
        } else if log.len() > 2 && !fence.agrees_with(input.generations.expected()) {
            Some(Fault::Error(DatabaseError::StaleGeneration))
        } else if log.len() > 3 && log[3].optional_row::<()>() is Err {
            Fault::of(log[3].optional_row::<()>())
        } else {
            None
        }
    }

    /// The commands of `force_close_document_session`, in order.
    pub open spec fn force_close_document_session_script<'a>(
        input: &'a ForceCloseDocumentSessionInput<'a>,
        log: Seq<Reply>,
    ) -> Seq<CommandView<'a>> {
        let closed = log[3].optional_row::<()>()->Ok_0;
        seq![
            CommandView::Begin,
            CommandView::optional(
                sql::FORCE_CLOSE_DOCUMENT_SESSION_SELECT_SESSIONS,
                seq![Param::Id(input.tenant_id), Param::Id(input.session_id)],
            ),
            CommandView::optional(
                catalog::LOCK_AUTHORIZATION_FENCE,
                seq![
                    Param::Id(input.tenant_id), Param::Id(input.api_session_id),
                    Param::Id(input.actor_principal_id), Param::Id(input.drive_id),
                    Param::Id(input.node_id),
                ],
            ),
            CommandView::optional(
                sql::FORCE_CLOSE_DOCUMENT_SESSION_UPDATE_SESSIONS,
                seq![
                    Param::Id(input.tenant_id), Param::Id(input.session_id),
                    Param::Text(input.reason),
                ],
            ),
        ].add(
            if closed is None {
                seq![CommandView::Commit]
            } else {
                seq![
                    CommandView::execute(
                        sql::FORCE_CLOSE_DOCUMENT_SESSION_UPDATE_PARTICIPANTS,
                        seq![
                            Param::Id(input.tenant_id), Param::Id(input.session_id),
                            Param::Text(input.reason),
                        ],
                    ),
                    CommandView::execute(
                        catalog::INSERT_AUDIT,
                        seq![
                            Param::Id(input.tenant_id), Param::FreshId,
                            Param::OptId(Some(input.actor_principal_id)), Param::OptId(None),
                            Param::OptId(None), Param::Text("document.session.force_close"),
                            Param::Text("allowed"), Param::Text(input.reason), Param::Bool(true),
                            Param::Object1("document_session_id", Detail::Id(input.session_id)),
                        ],
                    ),
                    CommandView::Commit,
                ]
            },
        )
    }

    /// What `force_close_document_session` returns.
    pub open spec fn force_close_document_session_output(log: Seq<Reply>) -> bool {
        let closed = log[3].optional_row::<()>()->Ok_0;
        closed is Some
    }

    /// Closes a session under the actor's authorization. Closing moves the session's fence on, so
    /// that every outstanding document I/O capability becomes unusable.
    pub fn force_close_document_session<'a>(
        input: &'a ForceCloseDocumentSessionInput<'a>,
        log: &'a [Reply],
    ) -> (step: Step<'a, bool>)
        ensures
            step@ == StepView::proceed(
                Self::force_close_document_session_fault(input, log@),
                Self::force_close_document_session_script(input, log@),
                Self::force_close_document_session_output(log@),
                log@,
            ),
    {
        if input.reason.is_empty() || input.reason.len() > 96 {
            return Step::Fail(DatabaseError::InvalidPersistedValue);
        }
        if log.len() == 0 {
            return Step::Ask(Command::Begin);
        }
        if log.len() <= 1 {
            return ask_optional(
                sql::FORCE_CLOSE_DOCUMENT_SESSION_SELECT_SESSIONS,
                vec![Param::Id(input.tenant_id), Param::Id(input.session_id)],
            );
        }
        let place: SessionPlace = match required::<SessionPlace>(&log[1], DatabaseError::NotFound) {
            Ok(value) => value,
            Err(fault) => return stop(fault),
        };
        if place.drive_id != input.drive_id || place.node_id != input.node_id {
            return Step::Fail(DatabaseError::StaleGeneration);
        }
        if log.len() <= 2 {
            return ask_optional(
                catalog::LOCK_AUTHORIZATION_FENCE,
                vec![
                    Param::Id(input.tenant_id), Param::Id(input.api_session_id),
                    Param::Id(input.actor_principal_id), Param::Id(input.drive_id),
                    Param::Id(input.node_id),
                ],
            );
        }
        let fence: FenceGenerations = match required(&log[2], DatabaseError::StaleGeneration) {
            Ok(value) => value,
            Err(fault) => return stop(fault),
        };
        if !fence.agree(input.generations.as_array()) {
            return Step::Fail(DatabaseError::StaleGeneration);
        }
        if log.len() <= 3 {
            return ask_optional(
                sql::FORCE_CLOSE_DOCUMENT_SESSION_UPDATE_SESSIONS,
                vec![
                    Param::Id(input.tenant_id), Param::Id(input.session_id),
                    Param::Text(input.reason),
                ],
            );
        }
        let closed: Option<()> = match optional::<()>(&log[3]) {
            Ok(value) => value,
            Err(fault) => return stop(fault),
        };
        if closed.is_none() {
            if log.len() <= 4 {
                return Step::Ask(Command::Commit);
            }
            return Step::Done(false);
        }
        if log.len() <= 4 {
            return ask_execute(
                sql::FORCE_CLOSE_DOCUMENT_SESSION_UPDATE_PARTICIPANTS,
                vec![
                    Param::Id(input.tenant_id), Param::Id(input.session_id),
                    Param::Text(input.reason),
                ],
            );
        }
        if log.len() <= 5 {
            return ask_execute(
                catalog::INSERT_AUDIT,
                vec![
                    Param::Id(input.tenant_id), Param::FreshId,
                    Param::OptId(Some(input.actor_principal_id)), Param::OptId(None),
                    Param::OptId(None), Param::Text("document.session.force_close"),
                    Param::Text("allowed"), Param::Text(input.reason), Param::Bool(true),
                    Param::Object1("document_session_id", Detail::Id(input.session_id)),
                ],
            );
        }
        if log.len() <= 6 {
            return Step::Ask(Command::Commit);
        }
        Step::Done(true)
    }

    /// `force_close_document_session` runs in one transaction: it is done once its commit is
    /// acknowledged, and when it fails, nothing was committed.
    pub proof fn force_close_document_session_is_atomic<'a>(
        input: &'a ForceCloseDocumentSessionInput<'a>,
        log: Seq<Reply>,
    )
        ensures
            crate::step::is_atomic(Self::force_close_document_session_script(input, log), 0),
            crate::step::commit_acknowledged(
                Self::force_close_document_session_fault(input, log.drop_last()),
                Self::force_close_document_session_script(input, log.drop_last()),
                log,
            ) ==> {
                &&& Self::force_close_document_session_fault(input, log) is None
                &&& log.len() == Self::force_close_document_session_script(input, log).len()
            },
    {
    }

    /// `force_close_document_session` goes past its fence only where the generations that it has
    /// locked are those that the caller was authorized under.
    pub proof fn force_close_document_session_is_fenced<'a>(
        input: &'a ForceCloseDocumentSessionInput<'a>,
        log: Seq<Reply>,
    )
        ensures
            ({
                let fence =
                    log[2].required_row::<FenceGenerations>(DatabaseError::StaleGeneration)->Ok_0;
                Self::force_close_document_session_fault(input, log) is None && log.len() > 2
                    ==> log[2].required_row::<FenceGenerations>(
                        DatabaseError::StaleGeneration,
                    ) is Ok
                    && fence.agrees_with(input.generations.expected())
            }),
    {
    }

    /// Every statement of `force_close_document_session` is about its tenant.
    pub proof fn force_close_document_session_is_scoped<'a>(
        input: &'a ForceCloseDocumentSessionInput<'a>,
        log: Seq<Reply>,
    )
        ensures
            crate::step::is_scoped(
                Self::force_close_document_session_script(input, log),
                input.tenant_id,
            ),
    {
    }

    /// What stops `create_document_conflict_copy`, in order.
    pub open spec fn create_document_conflict_copy_fault<'a>(
        expected_parent_namespace_generation: i64,
        generations: DocumentAuthorizationGenerations, name: Option<&'a NormalizedName<'a>>,
        request_fingerprint: &'a [u8; 32], log: Seq<Reply>,
    ) -> Option<Fault> {
        let receipt = log[2].optional_row::<OperationReceipt>()->Ok_0;
        let stored = receipt->0;
        let fence = log[4].required_row::<FenceGenerations>(DatabaseError::StaleGeneration)->Ok_0;
        let parent_generation = log[5].required_row::<i64>(DatabaseError::NotFound)->Ok_0;
        let drawn = log[6].drawn_ids(2);
        if name is None {
            Some(Fault::Error(DatabaseError::InvalidPersistedValue))
        } else if log.len() > 2 && log[2].optional_row::<OperationReceipt>() is Err {
            Fault::of(log[2].optional_row::<OperationReceipt>())
        } else if log.len() > 2 && receipt is Some {
            if log.len() > 2 && (stored.request_fingerprint@ != request_fingerprint@
                    || stored.command_kind@ != "conflict_copy"@) {
                Some(Fault::Error(DatabaseError::Conflict))
            } else {
                None
            }
        } else if log.len() > 3
            && log[3].required_row::<ConflictRevision>(DatabaseError::NotFound) is Err {
            Fault::of(log[3].required_row::<ConflictRevision>(DatabaseError::NotFound))
        } else if log.len() > 4
            && log[4].required_row::<FenceGenerations>(DatabaseError::StaleGeneration) is Err {
            Fault::of(log[4].required_row::<FenceGenerations>(DatabaseError::StaleGeneration))
        } else if log.len() > 4 && !fence.agrees_with(generations.expected()) {
            Some(Fault::Error(DatabaseError::StaleGeneration))
        } else if log.len() > 5 && log[5].required_row::<i64>(DatabaseError::NotFound) is Err {
            Fault::of(log[5].required_row::<i64>(DatabaseError::NotFound))
        } else if log.len() > 5 && parent_generation != expected_parent_namespace_generation {
            Some(Fault::Error(DatabaseError::StaleGeneration))
        } else if log.len() > 6 && drawn is Err {
            Fault::of(drawn)
        } else if log.len() > 11 && log[11].one_affected(DatabaseError::Conflict) is Err {
            Fault::of(log[11].one_affected(DatabaseError::Conflict))
        } else if log.len() > 14 && log[14].single_row::<i64>() is Err {
            Fault::of(log[14].single_row::<i64>())
        } else if log.len() > 16 && log[16].one_affected(DatabaseError::Conflict) is Err {
            Fault::of(log[16].one_affected(DatabaseError::Conflict))
        } else {
            None
        }
    }

    /// The commands of `create_document_conflict_copy`, in order.
    pub open spec fn create_document_conflict_copy_script<'a>(
        tenant_id: Uuid, document_session_id: Uuid, actor_principal_id: Uuid,
        api_session_id: Uuid, target_parent_id: Uuid, name: Option<&'a NormalizedName<'a>>,
        operation_digest: &'a [u8; 32], request_fingerprint: &'a [u8; 32], log: Seq<Reply>,
    ) -> Seq<CommandView<'a>> {
        let receipt = log[2].optional_row::<OperationReceipt>()->Ok_0;
        let revision = log[3].required_row::<ConflictRevision>(DatabaseError::NotFound)->Ok_0;
        let drawn = log[6].drawn_ids(2);
        let node_id = drawn->Ok_0[0];
        let version_id = drawn->Ok_0[1];
        let occurred_at = log[14].single_row::<i64>()->Ok_0;
        let copy = DocumentConflictCopyRecord {
            drive_id: revision.drive_id,
            node_id,
            version_id,
            display_name: *name->0.display,
            media_type: revision.media_type,
            size_bytes: revision.size_bytes,
            blake3: revision.blake3,
        };
        seq![
            CommandView::Begin,
            CommandView::execute(
                sql::DOCUMENT_OPERATION_REPLAY_SELECT_ADVISORY_LOCK,
                seq![Param::Digest(operation_digest), Param::Id(tenant_id)],
            ),
            CommandView::optional(
                sql::DOCUMENT_OPERATION_REPLAY_SELECT_OPERATION_RECEIPTS,
                seq![Param::Id(tenant_id), Param::Digest(operation_digest)],
            ),
        ].add(
            if receipt is Some {
                seq![CommandView::Commit]
            } else {
                seq![
                    CommandView::optional(
                        sql::CREATE_DOCUMENT_CONFLICT_COPY_SELECT_REVISIONS,
                        seq![
                            Param::Id(tenant_id), Param::Id(document_session_id),
                            Param::Id(actor_principal_id),
                        ],
                    ),
                    CommandView::optional(
                        catalog::LOCK_AUTHORIZATION_FENCE,
                        seq![
                            Param::Id(tenant_id), Param::Id(api_session_id),
                            Param::Id(actor_principal_id), Param::Id(revision.drive_id),
                            Param::Id(target_parent_id),
                        ],
                    ),
                    CommandView::optional(
                        sql::CREATE_DOCUMENT_CONFLICT_COPY_SELECT_NODES,
                        seq![
                            Param::Id(tenant_id), Param::Id(revision.drive_id),
                            Param::Id(target_parent_id),
                        ],
                    ),
                    CommandView::DrawIds(2),
                    CommandView::ruled(
                        sql::CREATE_DOCUMENT_CONFLICT_COPY_INSERT_NODES,
                        seq![
                            Param::Id(tenant_id), Param::Id(revision.drive_id), Param::Id(node_id),
                            Param::Id(target_parent_id), Param::Owned(*name->0.display),
                            Param::Text(name->0.comparison_key), Param::Id(actor_principal_id),
                        ],
                        Fetch::Execute, ErrorRule::UniqueConflict,
                    ),
                    CommandView::execute(
                        sql::CREATE_DOCUMENT_CONFLICT_COPY_INSERT_NODE_ANCESTRY,
                        seq![
                            Param::Id(tenant_id), Param::Id(revision.drive_id),
                            Param::Id(target_parent_id), Param::Id(node_id),
                        ],
                    ),
                    CommandView::execute(
                        sql::CREATE_DOCUMENT_CONFLICT_COPY_INSERT_FILE_VERSIONS,
                        seq![
                            Param::Id(tenant_id), Param::Id(node_id), Param::Id(version_id),
                            Param::Id(revision.payload_id), Param::I64(revision.size_bytes),
                            Param::Blob(revision.blake3), Param::Owned(revision.media_type),
                            Param::Id(actor_principal_id),
                        ],
                    ),
                    CommandView::execute(
                        sql::CREATE_DOCUMENT_CONFLICT_COPY_UPDATE_NODES,
                        seq![
                            Param::Id(tenant_id), Param::Id(revision.drive_id), Param::Id(node_id),
                            Param::Id(version_id),
                        ],
                    ),
                    CommandView::execute(
                        sql::CREATE_DOCUMENT_CONFLICT_COPY_UPDATE_PAYLOAD_OBJECTS,
                        seq![Param::Id(tenant_id), Param::Id(revision.payload_id)],
                    ),
                    CommandView::execute(
                        sql::CREATE_DOCUMENT_CONFLICT_COPY_UPDATE_DRIVES,
                        seq![
                            Param::Id(tenant_id), Param::Id(revision.drive_id),
                            Param::I64(revision.reserved_bytes), Param::I64(revision.size_bytes),
                        ],
                    ),
                    CommandView::execute(
                        catalog::INSERT_AUDIT,
                        seq![
                            Param::Id(tenant_id), Param::FreshId,
                            Param::OptId(Some(actor_principal_id)), Param::OptId(None),
                            Param::OptId(Some(node_id)),
                            Param::Text("document.conflict_copy.create"),
                            Param::Text("allowed"), Param::Text("document_conflict_copy_created"),
                            Param::Bool(true),
                            Param::Object2(
                                "document_session_id", Detail::Id(document_session_id),
                                "version_id", Detail::Id(version_id),
                            ),
                        ],
                    ),
                    CommandView::one(catalog::INSERT_OUTBOX_SELECT_VALUE, seq![]),
                    CommandView::execute(
                        catalog::INSERT_OUTBOX_INSERT_OUTBOX_EVENTS,
                        seq![
                            Param::Id(tenant_id), Param::FreshId,
                            Param::Text("filebelt.v1.file.version.committed"), Param::Text("node"),
                            Param::Id(node_id), Param::I64(1), Param::Pair(tenant_id, node_id),
                            Param::Event(
                                Envelope {
                                    tenant_id,
                                    aggregate_type: "node",
                                    aggregate_id: node_id,
                                    aggregate_generation: 1,
                                    event_type: "filebelt.v1.file.version.committed",
                                    occurred_at_unix_seconds: occurred_at,
                                },
                            ),
                        ],
                    ),
                    CommandView::execute(
                        sql::DOCUMENT_OPERATION_RECORD,
                        seq![
                            Param::Id(tenant_id), Param::Digest(operation_digest),
                            Param::Digest(request_fingerprint), Param::Text("conflict_copy"),
                            Param::ConflictCopy(copy),
                        ],
                    ),
                    CommandView::Commit,
                ]
            },
        )
    }

    /// What `create_document_conflict_copy` returns.
    pub open spec fn create_document_conflict_copy_output<'a>(
        name: Option<&'a NormalizedName<'a>>,
        log: Seq<Reply>,
    ) -> Recorded<DocumentConflictCopyRecord> {
        let receipt = log[2].optional_row::<OperationReceipt>()->Ok_0;
        let stored = receipt->0;
        let revision = log[3].required_row::<ConflictRevision>(DatabaseError::NotFound)->Ok_0;
        let drawn = log[6].drawn_ids(2);
        let node_id = drawn->Ok_0[0];
        let version_id = drawn->Ok_0[1];
        let copy = DocumentConflictCopyRecord {
            drive_id: revision.drive_id,
            node_id,
            version_id,
            display_name: *name->0.display,
            media_type: revision.media_type,
            size_bytes: revision.size_bytes,
            blake3: revision.blake3,
        };
        if receipt is Some {
            Recorded::Replayed(stored.response)
        } else {
            Recorded::Created(copy)
        }
    }

    /// Keeps a conflicted revision as a file of its own. `name` is what the file-name rules make of
    /// the requested name, where they accept it.
    #[verifier::spinoff_prover]
    #[verifier::rlimit(90)]
    pub fn create_document_conflict_copy<'a>(
        tenant_id: Uuid, document_session_id: Uuid, actor_principal_id: Uuid,
        api_session_id: Uuid, target_parent_id: Uuid, expected_parent_namespace_generation: i64,
        generations: DocumentAuthorizationGenerations, name: Option<&'a NormalizedName<'a>>,
        operation_digest: &'a [u8; 32], request_fingerprint: &'a [u8; 32], log: &'a [Reply],
    ) -> (step: Step<'a, Recorded<DocumentConflictCopyRecord>>)
        ensures
            step@ == StepView::proceed(
                Self::create_document_conflict_copy_fault(
                    expected_parent_namespace_generation, generations, name,
                    request_fingerprint, log@,
                ),
                Self::create_document_conflict_copy_script(
                    tenant_id, document_session_id, actor_principal_id, api_session_id,
                    target_parent_id, name, operation_digest, request_fingerprint, log@,
                ),
                Self::create_document_conflict_copy_output(name, log@),
                log@,
            ),
    {
        if name.is_none() {
            return Step::Fail(DatabaseError::InvalidPersistedValue);
        }
        if log.len() == 0 {
            return Step::Ask(Command::Begin);
        }
        if log.len() <= 1 {
            return ask_execute(
                sql::DOCUMENT_OPERATION_REPLAY_SELECT_ADVISORY_LOCK,
                vec![Param::Digest(operation_digest), Param::Id(tenant_id)],
            );
        }
        if log.len() <= 2 {
            return ask_optional(
                sql::DOCUMENT_OPERATION_REPLAY_SELECT_OPERATION_RECEIPTS,
                vec![Param::Id(tenant_id), Param::Digest(operation_digest)],
            );
        }
        let receipt: Option<OperationReceipt> = match optional::<OperationReceipt>(&log[2]) {
            Ok(value) => value,
            Err(fault) => return stop(fault),
        };
        if receipt.is_some() {
            let stored: OperationReceipt = receipt.unwrap();
            if !bytes_eq(stored.request_fingerprint.as_slice(), request_fingerprint)
                || !text_eq(stored.command_kind.as_str(), "conflict_copy") {
                return Step::Fail(DatabaseError::Conflict);
            }
            if log.len() <= 3 {
                return Step::Ask(Command::Commit);
            }
            return Step::Done(Recorded::Replayed(stored.response));
        }
        if log.len() <= 3 {
            return ask_optional(
                sql::CREATE_DOCUMENT_CONFLICT_COPY_SELECT_REVISIONS,
                vec![
                    Param::Id(tenant_id), Param::Id(document_session_id),
                    Param::Id(actor_principal_id),
                ],
            );
        }
        let revision: ConflictRevision = match required(&log[3], DatabaseError::NotFound) {
            Ok(value) => value,
            Err(fault) => return stop(fault),
        };
        if log.len() <= 4 {
            return ask_optional(
                catalog::LOCK_AUTHORIZATION_FENCE,
                vec![
                    Param::Id(tenant_id), Param::Id(api_session_id),
                    Param::Id(actor_principal_id), Param::Id(revision.drive_id),
                    Param::Id(target_parent_id),
                ],
            );
        }
        let fence: FenceGenerations = match required(&log[4], DatabaseError::StaleGeneration) {
            Ok(value) => value,
            Err(fault) => return stop(fault),
        };
        if !fence.agree(generations.as_array()) {
            return Step::Fail(DatabaseError::StaleGeneration);
        }
        if log.len() <= 5 {
            return ask_optional(
                sql::CREATE_DOCUMENT_CONFLICT_COPY_SELECT_NODES,
                vec![
                    Param::Id(tenant_id), Param::Id(revision.drive_id),
                    Param::Id(target_parent_id),
                ],
            );
        }
        let parent_generation: i64 = match required::<i64>(&log[5], DatabaseError::NotFound) {
            Ok(value) => value,
            Err(fault) => return stop(fault),
        };
        if parent_generation != expected_parent_namespace_generation {
            return Step::Fail(DatabaseError::StaleGeneration);
        }
        if log.len() <= 6 {
            return Step::Ask(Command::DrawIds(2));
        }
        let drawn: &Vec<Uuid> = match drawn(&log[6], 2) {
            Ok(ids) => ids,
            Err(fault) => return stop(fault),
        };
        let node_id: Uuid = drawn[0];
        let version_id: Uuid = drawn[1];
        if log.len() <= 7 {
            return ask(
                sql::CREATE_DOCUMENT_CONFLICT_COPY_INSERT_NODES,
                vec![
                    Param::Id(tenant_id), Param::Id(revision.drive_id), Param::Id(node_id),
                    Param::Id(target_parent_id), Param::Owned(name.unwrap().display.clone()),
                    Param::Text(name.unwrap().comparison_key), Param::Id(actor_principal_id),
                ],
                Fetch::Execute, ErrorRule::UniqueConflict,
            );
        }
        if log.len() <= 8 {
            return ask_execute(
                sql::CREATE_DOCUMENT_CONFLICT_COPY_INSERT_NODE_ANCESTRY,
                vec![
                    Param::Id(tenant_id), Param::Id(revision.drive_id),
                    Param::Id(target_parent_id), Param::Id(node_id),
                ],
            );
        }
        if log.len() <= 9 {
            return ask_execute(
                sql::CREATE_DOCUMENT_CONFLICT_COPY_INSERT_FILE_VERSIONS,
                vec![
                    Param::Id(tenant_id), Param::Id(node_id), Param::Id(version_id),
                    Param::Id(revision.payload_id), Param::I64(revision.size_bytes),
                    Param::Blob(revision.blake3.clone()),
                    Param::Owned(revision.media_type.clone()), Param::Id(actor_principal_id),
                ],
            );
        }
        if log.len() <= 10 {
            return ask_execute(
                sql::CREATE_DOCUMENT_CONFLICT_COPY_UPDATE_NODES,
                vec![
                    Param::Id(tenant_id), Param::Id(revision.drive_id), Param::Id(node_id),
                    Param::Id(version_id),
                ],
            );
        }
        if log.len() <= 11 {
            return ask_execute(
                sql::CREATE_DOCUMENT_CONFLICT_COPY_UPDATE_PAYLOAD_OBJECTS,
                vec![Param::Id(tenant_id), Param::Id(revision.payload_id)],
            );
        }
        if let Err(fault) = exactly_one(&log[11], DatabaseError::Conflict) {
            return stop(fault);
        }
        if log.len() <= 12 {
            return ask_execute(
                sql::CREATE_DOCUMENT_CONFLICT_COPY_UPDATE_DRIVES,
                vec![
                    Param::Id(tenant_id), Param::Id(revision.drive_id),
                    Param::I64(revision.reserved_bytes), Param::I64(revision.size_bytes),
                ],
            );
        }
        if log.len() <= 13 {
            return ask_execute(
                catalog::INSERT_AUDIT,
                vec![
                    Param::Id(tenant_id), Param::FreshId,
                    Param::OptId(Some(actor_principal_id)), Param::OptId(None),
                    Param::OptId(Some(node_id)), Param::Text("document.conflict_copy.create"),
                    Param::Text("allowed"), Param::Text("document_conflict_copy_created"),
                    Param::Bool(true),
                    Param::Object2(
                        "document_session_id", Detail::Id(document_session_id), "version_id",
                        Detail::Id(version_id),
                    ),
                ],
            );
        }
        if log.len() <= 14 {
            return ask_one(catalog::INSERT_OUTBOX_SELECT_VALUE, vec![]);
        }
        let occurred_at: i64 = match single::<i64>(&log[14]) {
            Ok(value) => value,
            Err(fault) => return stop(fault),
        };
        if log.len() <= 15 {
            return ask_execute(
                catalog::INSERT_OUTBOX_INSERT_OUTBOX_EVENTS,
                vec![
                    Param::Id(tenant_id), Param::FreshId,
                    Param::Text("filebelt.v1.file.version.committed"), Param::Text("node"),
                    Param::Id(node_id), Param::I64(1), Param::Pair(tenant_id, node_id),
                    Param::Event(
                        Envelope {
                            tenant_id,
                            aggregate_type: "node",
                            aggregate_id: node_id,
                            aggregate_generation: 1,
                            event_type: "filebelt.v1.file.version.committed",
                            occurred_at_unix_seconds: occurred_at,
                        },
                    ),
                ],
            );
        }
        let copy: DocumentConflictCopyRecord = DocumentConflictCopyRecord {
            drive_id: revision.drive_id,
            node_id,
            version_id,
            display_name: name.unwrap().display.clone(),
            media_type: revision.media_type,
            size_bytes: revision.size_bytes,
            blake3: revision.blake3,
        };
        if log.len() <= 16 {
            return ask_execute(
                sql::DOCUMENT_OPERATION_RECORD,
                vec![
                    Param::Id(tenant_id), Param::Digest(operation_digest),
                    Param::Digest(request_fingerprint), Param::Text("conflict_copy"),
                    Param::ConflictCopy(copy),
                ],
            );
        }
        if let Err(fault) = exactly_one(&log[16], DatabaseError::Conflict) {
            return stop(fault);
        }
        if log.len() <= 17 {
            return Step::Ask(Command::Commit);
        }
        Step::Done(Recorded::Created(copy))
    }

    /// `create_document_conflict_copy` runs in one transaction: it is done once its commit is
    /// acknowledged, and when it fails, nothing was committed.
    pub proof fn create_document_conflict_copy_is_atomic<'a>(
        tenant_id: Uuid, document_session_id: Uuid, actor_principal_id: Uuid,
        api_session_id: Uuid, target_parent_id: Uuid, expected_parent_namespace_generation: i64,
        generations: DocumentAuthorizationGenerations, name: Option<&'a NormalizedName<'a>>,
        operation_digest: &'a [u8; 32], request_fingerprint: &'a [u8; 32], log: Seq<Reply>,
    )
        ensures
            crate::step::is_atomic(
                Self::create_document_conflict_copy_script(
                    tenant_id, document_session_id, actor_principal_id, api_session_id,
                    target_parent_id, name, operation_digest, request_fingerprint, log,
                ),
                0,
            ),
            crate::step::commit_acknowledged(
                Self::create_document_conflict_copy_fault(
                    expected_parent_namespace_generation, generations, name,
                    request_fingerprint, log.drop_last(),
                ),
                Self::create_document_conflict_copy_script(
                    tenant_id, document_session_id, actor_principal_id, api_session_id,
                    target_parent_id, name, operation_digest, request_fingerprint, log.drop_last(),
                ),
                log,
            ) ==> {
                &&& Self::create_document_conflict_copy_fault(
                    expected_parent_namespace_generation, generations, name,
                    request_fingerprint, log,
                ) is None
                &&& log.len() == Self::create_document_conflict_copy_script(
                    tenant_id, document_session_id, actor_principal_id, api_session_id,
                    target_parent_id, name, operation_digest, request_fingerprint, log,
                ).len()
            },
    {
    }

    /// `create_document_conflict_copy` goes past its fence only where the generations that it has
    /// locked are those that the caller was authorized under. An operation that took effect before
    /// is replayed without it.
    pub proof fn create_document_conflict_copy_is_fenced<'a>(
        expected_parent_namespace_generation: i64,
        generations: DocumentAuthorizationGenerations, name: Option<&'a NormalizedName<'a>>,
        request_fingerprint: &'a [u8; 32], log: Seq<Reply>,
    )
        ensures
            ({
                let fence =
                    log[4].required_row::<FenceGenerations>(DatabaseError::StaleGeneration)->Ok_0;
                Self::create_document_conflict_copy_fault(
                    expected_parent_namespace_generation, generations, name,
                    request_fingerprint, log,
                ) is None
                    && !(log[2].optional_row::<OperationReceipt>()->Ok_0 is Some)
                    && log.len() > 4
                    ==> log[4].required_row::<FenceGenerations>(
                        DatabaseError::StaleGeneration,
                    ) is Ok
                    && fence.agrees_with(generations.expected())
            }),
    {
    }

    /// Every statement of `create_document_conflict_copy` is about its tenant.
    pub proof fn create_document_conflict_copy_is_scoped<'a>(
        tenant_id: Uuid, document_session_id: Uuid, actor_principal_id: Uuid, api_session_id: Uuid,
        target_parent_id: Uuid, name: Option<&'a NormalizedName<'a>>,
        operation_digest: &'a [u8; 32], request_fingerprint: &'a [u8; 32], log: Seq<Reply>,
    )
        ensures
            crate::step::is_scoped(
                Self::create_document_conflict_copy_script(
                    tenant_id, document_session_id, actor_principal_id, api_session_id,
                    target_parent_id, name, operation_digest, request_fingerprint, log,
                ),
                tenant_id,
            ),
    {
    }

    /// What stops `document_revision_io_context`, in order.
    pub open spec fn document_revision_io_context_fault(log: Seq<Reply>) -> Option<Fault> {
        if log.len() > 0
            && log[0].required_row::<DocumentRevisionRecord>(DatabaseError::NotFound) is Err {
            Fault::of(log[0].required_row::<DocumentRevisionRecord>(DatabaseError::NotFound))
        } else if log.len() > 0 && log[0].single_row::<RevisionSession>() is Err {
            Fault::of(log[0].single_row::<RevisionSession>())
        } else if log.len() > 0 && log[0].single_row::<RevisionParticipant>() is Err {
            Fault::of(log[0].single_row::<RevisionParticipant>())
        } else if log.len() > 0 && log[0].single_row::<BasePayload>() is Err {
            Fault::of(log[0].single_row::<BasePayload>())
        } else {
            None
        }
    }

    /// The commands of `document_revision_io_context`, in order.
    pub open spec fn document_revision_io_context_script<'a>(
        tenant_id: Uuid, revision_id: Uuid, log: Seq<Reply>,
    ) -> Seq<CommandView<'a>> {
        seq![
            CommandView::optional(
                sql::DOCUMENT_REVISION_IO_CONTEXT,
                seq![Param::Id(tenant_id), Param::Id(revision_id)],
            ),
        ]
    }

    /// What `document_revision_io_context` returns.
    pub open spec fn document_revision_io_context_output(log: Seq<Reply>) -> DocumentIoContextView {
        let revision = log[0].required_row::<DocumentRevisionRecord>(DatabaseError::NotFound)->Ok_0;
        let session = log[0].single_row::<RevisionSession>()->Ok_0;
        let participant = log[0].single_row::<RevisionParticipant>()->Ok_0;
        let base = log[0].single_row::<BasePayload>()->Ok_0;
        DocumentIoContextView {
            session: DocumentSessionRecord {
                id: session.id,
                session_principal_id: session.session_principal_id,
                drive_id: session.drive_id,
                node_id: session.node_id,
                base_version_id: session.base_version_id,
                expected_head_version_id: session.expected_head_version_id,
                provider_id: session.provider_id,
                state: session.state,
                fencing_token: session.fencing_token,
                created_at: session.created_at,
                created_at_unix_microseconds: 0,
                absolute_expires_at: session.absolute_expires_at,
                reconnect_until: session.reconnect_until,
                closed_at: None,
                close_reason: session.close_reason,
                conflict_head_version_id: None,
            },
            participant: DocumentParticipantView {
                id: participant.id,
                document_session_id: participant.document_session_id,
                user_principal_id: participant.user_principal_id,
                api_session_id: participant.api_session_id,
                mode: participant.mode,
                state: participant.state,
                display_name: Seq::empty(),
                created_at: Seq::empty(),
                last_activity_at: participant.last_activity_at,
                disconnected_until: participant.disconnected_until,
                generations: participant.generations,
            },
            revision,
            base_payload_id: base.base_payload_id,
            base_size_bytes: base.base_size_bytes,
        }
    }

    /// Returns the payload identifiers and the authorization that minting an exact document I/O
    /// capability needs.
    pub fn document_revision_io_context<'a>(
        tenant_id: Uuid, revision_id: Uuid, log: &'a [Reply],
    ) -> (step: Step<'a, DocumentIoContext>)
        ensures
            step.deep() == StepView::proceed(
                Self::document_revision_io_context_fault(log@),
                Self::document_revision_io_context_script(tenant_id, revision_id, log@),
                Self::document_revision_io_context_output(log@),
                log@,
            ),
    {
        if log.len() == 0 {
            return ask_optional(
                sql::DOCUMENT_REVISION_IO_CONTEXT,
                vec![Param::Id(tenant_id), Param::Id(revision_id)],
            );
        }
        let revision: DocumentRevisionRecord = match required(&log[0], DatabaseError::NotFound) {
            Ok(value) => value,
            Err(fault) => return stop(fault),
        };
        let session: RevisionSession = match single::<RevisionSession>(&log[0]) {
            Ok(value) => value,
            Err(fault) => return stop(fault),
        };
        let participant: RevisionParticipant = match single::<RevisionParticipant>(&log[0]) {
            Ok(value) => value,
            Err(fault) => return stop(fault),
        };
        let base: BasePayload = match single::<BasePayload>(&log[0]) {
            Ok(value) => value,
            Err(fault) => return stop(fault),
        };
        Step::Done(
            DocumentIoContext {
                session: DocumentSessionRecord {
                    id: session.id,
                    session_principal_id: session.session_principal_id,
                    drive_id: session.drive_id,
                    node_id: session.node_id,
                    base_version_id: session.base_version_id,
                    expected_head_version_id: session.expected_head_version_id,
                    provider_id: session.provider_id,
                    state: session.state,
                    fencing_token: session.fencing_token,
                    created_at: session.created_at,
                    created_at_unix_microseconds: 0,
                    absolute_expires_at: session.absolute_expires_at,
                    reconnect_until: session.reconnect_until,
                    closed_at: None,
                    close_reason: session.close_reason,
                    conflict_head_version_id: None,
                },
                participant: DocumentParticipantRecord {
                    id: participant.id,
                    document_session_id: participant.document_session_id,
                    user_principal_id: participant.user_principal_id,
                    api_session_id: participant.api_session_id,
                    mode: participant.mode,
                    state: participant.state,
                    display_name: String::new(),
                    created_at: String::new(),
                    last_activity_at: participant.last_activity_at,
                    disconnected_until: participant.disconnected_until,
                    generations: participant.generations,
                },
                revision,
                base_payload_id: base.base_payload_id,
                base_size_bytes: base.base_size_bytes,
            },
        )
    }

    /// Every statement of `document_revision_io_context` is about its tenant.
    pub proof fn document_revision_io_context_is_scoped(
        tenant_id: Uuid, revision_id: Uuid, log: Seq<Reply>,
    )
        ensures
            crate::step::is_scoped(
                Self::document_revision_io_context_script(tenant_id, revision_id, log),
                tenant_id,
            ),
    {
    }

    /// What stops `document_launch_io_context`, in order.
    pub open spec fn document_launch_io_context_fault(log: Seq<Reply>) -> Option<Fault> {
        if log.len() > 0
            && log[0].required_row::<DocumentSessionRecord>(DatabaseError::NotFound) is Err {
            Fault::of(log[0].required_row::<DocumentSessionRecord>(DatabaseError::NotFound))
        } else if log.len() > 0 && log[0].single_row::<PlainParticipant>() is Err {
            Fault::of(log[0].single_row::<PlainParticipant>())
        } else if log.len() > 0 && log[0].single_row::<LaunchSource>() is Err {
            Fault::of(log[0].single_row::<LaunchSource>())
        } else {
            None
        }
    }

    /// The commands of `document_launch_io_context`, in order.
    pub open spec fn document_launch_io_context_script<'a>(
        tenant_id: Uuid, session_id: Uuid, participant_id: Uuid, log: Seq<Reply>,
    ) -> Seq<CommandView<'a>> {
        seq![
            CommandView::optional(
                sql::DOCUMENT_LAUNCH_IO_CONTEXT,
                seq![Param::Id(tenant_id), Param::Id(session_id), Param::Id(participant_id)],
            ),
        ]
    }

    /// What `document_launch_io_context` returns.
    pub open spec fn document_launch_io_context_output(
        log: Seq<Reply>,
    ) -> DocumentLaunchIoContextView {
        let session = log[0].required_row::<DocumentSessionRecord>(DatabaseError::NotFound)->Ok_0;
        let participant = log[0].single_row::<PlainParticipant>()->Ok_0;
        let source = log[0].single_row::<LaunchSource>()->Ok_0;
        DocumentLaunchIoContextView {
            session,
            participant: participant.projected_spec(source.display_name@),
            base_payload_id: source.base_payload_id,
            base_size_bytes: source.base_size_bytes,
            base_media_type: source.base_media_type,
            source_display_name: source.source_display_name,
        }
    }

    /// Returns what launching an active participant into an active session needs.
    pub fn document_launch_io_context<'a>(
        tenant_id: Uuid, session_id: Uuid, participant_id: Uuid, log: &'a [Reply],
    ) -> (step: Step<'a, DocumentLaunchIoContext>)
        ensures
            step.deep() == StepView::proceed(
                Self::document_launch_io_context_fault(log@),
                Self::document_launch_io_context_script(
                    tenant_id, session_id, participant_id, log@,
                ),
                Self::document_launch_io_context_output(log@),
                log@,
            ),
    {
        if log.len() == 0 {
            return ask_optional(
                sql::DOCUMENT_LAUNCH_IO_CONTEXT,
                vec![Param::Id(tenant_id), Param::Id(session_id), Param::Id(participant_id)],
            );
        }
        let session: DocumentSessionRecord = match required(&log[0], DatabaseError::NotFound) {
            Ok(value) => value,
            Err(fault) => return stop(fault),
        };
        let participant: PlainParticipant = match single::<PlainParticipant>(&log[0]) {
            Ok(value) => value,
            Err(fault) => return stop(fault),
        };
        let source: LaunchSource = match single::<LaunchSource>(&log[0]) {
            Ok(value) => value,
            Err(fault) => return stop(fault),
        };
        Step::Done(
            DocumentLaunchIoContext {
                session,
                participant: participant.projected(source.display_name),
                base_payload_id: source.base_payload_id,
                base_size_bytes: source.base_size_bytes,
                base_media_type: source.base_media_type,
                source_display_name: source.source_display_name,
            },
        )
    }

    /// Every statement of `document_launch_io_context` is about its tenant.
    pub proof fn document_launch_io_context_is_scoped(
        tenant_id: Uuid, session_id: Uuid, participant_id: Uuid, log: Seq<Reply>,
    )
        ensures
            crate::step::is_scoped(
                Self::document_launch_io_context_script(tenant_id, session_id, participant_id, log),
                tenant_id,
            ),
    {
    }

    /// What stops `begin_document_revision`, in order.
    pub open spec fn begin_document_revision_fault<'a>(
        input: &'a BeginDocumentRevisionInput<'a>,
        log: Seq<Reply>,
    ) -> Option<Fault> {
        let participant = log[1].required_row::<WritingParticipant>(DatabaseError::NotFound)->Ok_0;
        let fence = log[2].required_row::<FenceGenerations>(DatabaseError::StaleGeneration)->Ok_0;
        let existing = log[3].optional_row::<DocumentRevisionRecord>()->Ok_0;
        let received = existing is Some && existing->0.state@ == "received"@;
        let staging = existing->0;
        let usage = log[4].single_row::<DriveUsage>()->Ok_0;
        let drawn = log[6].drawn_ids(3);
        if input.kind@ != "checkpoint"@ && input.kind@ != "user_save"@
            && input.kind@ != "final_save"@ || input.reserved_bytes < 0
            || input.reserved_bytes > DOCUMENT_MAX_BYTES
            || !is_editable_type(input.media_type@) {
            Some(Fault::Error(DatabaseError::InvalidPersistedValue))
        } else if log.len() > 1
            && log[1].required_row::<WritingParticipant>(DatabaseError::NotFound) is Err {
            Fault::of(log[1].required_row::<WritingParticipant>(DatabaseError::NotFound))
        } else if log.len() > 1 && !can_write(participant.mode@) {
            Some(Fault::Error(DatabaseError::Conflict))
        } else if log.len() > 2
            && log[2].required_row::<FenceGenerations>(DatabaseError::StaleGeneration) is Err {
            Fault::of(log[2].required_row::<FenceGenerations>(DatabaseError::StaleGeneration))
        } else if log.len() > 2 && !fence.agrees_with(participant.generations.expected()) {
            Some(Fault::Error(DatabaseError::StaleGeneration))
        } else if log.len() > 3 && log[3].optional_row::<DocumentRevisionRecord>() is Err {
            Fault::of(log[3].optional_row::<DocumentRevisionRecord>())
        } else if log.len() > 3 && existing is Some && existing->0.state@ == "staging"@ {
            if log.len() > 3 && staging.payload_id is None {
                Some(Fault::Error(DatabaseError::Conflict))
            } else if log.len() > 4 && log[4].single_row::<PayloadPlace>() is Err {
                Fault::of(log[4].single_row::<PayloadPlace>())
            } else {
                None
            }
        } else if log.len() > 3 && existing is Some && !received {
            Some(Fault::Error(DatabaseError::Conflict))
        } else if log.len() > 4 && log[4].single_row::<DriveUsage>() is Err {
            Fault::of(log[4].single_row::<DriveUsage>())
        } else if log.len() > 4 && !fits_quota(usage, input.reserved_bytes) {
            Some(Fault::Error(DatabaseError::QuotaExceeded))
        } else if log.len() > 5
            && log[5].required_row::<Uuid>(DatabaseError::StorageUnavailable) is Err {
            Fault::of(log[5].required_row::<Uuid>(DatabaseError::StorageUnavailable))
        } else if log.len() > 6 && drawn is Err {
            Fault::of(drawn)
        } else if log.len() > 8 && received {
            if log.len() > 9 && log[9].single_row::<DocumentRevisionRecord>() is Err {
                Fault::of(log[9].single_row::<DocumentRevisionRecord>())
            } else {
                None
            }
        } else if log.len() > 9 && log[9].single_row::<DocumentRevisionRecord>() is Err {
            Fault::of(log[9].single_row::<DocumentRevisionRecord>())
        } else {
            None
        }
    }

    /// The commands of `begin_document_revision`, in order.
    pub open spec fn begin_document_revision_script<'a>(
        input: &'a BeginDocumentRevisionInput<'a>,
        log: Seq<Reply>,
    ) -> Seq<CommandView<'a>> {
        let participant = log[1].required_row::<WritingParticipant>(DatabaseError::NotFound)->Ok_0;
        let existing = log[3].optional_row::<DocumentRevisionRecord>()->Ok_0;
        let received = existing is Some && existing->0.state@ == "received"@;
        let staging = existing->0;
        let backend_id = log[5].required_row::<Uuid>(DatabaseError::StorageUnavailable)->Ok_0;
        let drawn = log[6].drawn_ids(3);
        let fresh_revision_id = drawn->Ok_0[0];
        let payload_id = drawn->Ok_0[1];
        let locator = drawn->Ok_0[2];
        let revision_id = if received { existing->0.id } else { fresh_revision_id };
        seq![
            CommandView::Begin,
            CommandView::optional(
                sql::BEGIN_DOCUMENT_REVISION_SELECT_PARTICIPANTS,
                seq![
                    Param::Id(input.tenant_id), Param::Id(input.participant_id),
                    Param::Id(input.document_session_id),
                ],
            ),
            CommandView::optional(
                catalog::LOCK_AUTHORIZATION_FENCE,
                seq![
                    Param::Id(input.tenant_id), Param::Id(participant.api_session_id),
                    Param::Id(participant.user_principal_id), Param::Id(participant.drive_id),
                    Param::Id(participant.node_id),
                ],
            ),
            CommandView::optional(
                sql::BEGIN_DOCUMENT_REVISION_SELECT_REVISIONS,
                seq![
                    Param::Id(input.tenant_id), Param::Id(input.document_session_id),
                    Param::Digest(input.provider_event_digest),
                ],
            ),
        ].add(
            if existing is Some && existing->0.state@ == "staging"@ {
                seq![
                    CommandView::one(
                        sql::BEGIN_DOCUMENT_REVISION_SELECT_PAYLOAD_OBJECTS,
                        seq![Param::Id(input.tenant_id), Param::Id(staging.payload_id->0)],
                    ),
                    CommandView::Commit,
                ]
            } else {
                seq![
                    CommandView::one(
                        sql::BEGIN_DOCUMENT_REVISION_SELECT_DRIVES,
                        seq![Param::Id(input.tenant_id), Param::Id(participant.drive_id)],
                    ),
                    CommandView::optional(
                        sql::BEGIN_DOCUMENT_REVISION_SELECT_STORAGE_BACKENDS,
                        seq![Param::Id(input.tenant_id)],
                    ),
                    CommandView::DrawIds(3),
                    CommandView::execute(
                        sql::BEGIN_DOCUMENT_REVISION_UPDATE_DRIVES,
                        seq![
                            Param::Id(input.tenant_id), Param::Id(participant.drive_id),
                            Param::I64(input.reserved_bytes),
                        ],
                    ),
                    CommandView::execute(
                        sql::BEGIN_DOCUMENT_REVISION_INSERT_PAYLOAD_OBJECTS,
                        seq![
                            Param::Id(input.tenant_id), Param::Id(payload_id),
                            Param::Id(participant.drive_id), Param::Id(backend_id),
                            Param::Id(locator),
                        ],
                    ),
                ].add(
                    if received {
                        seq![
                            CommandView::one(
                                sql::BEGIN_DOCUMENT_REVISION_UPDATE_REVISIONS,
                                seq![
                                    Param::Id(input.tenant_id), Param::Id(revision_id),
                                    Param::Id(payload_id),
                                    Param::I64(input.reserved_bytes), Param::Text(input.media_type),
                                ],
                            ),
                            CommandView::execute(
                                sql::BEGIN_DOCUMENT_REVISION_INSERT_REVISION_CONTRIBUTORS,
                                seq![
                                    Param::Id(input.tenant_id), Param::Id(revision_id),
                                    Param::Id(participant.user_principal_id),
                                ],
                            ),
                            CommandView::Commit,
                        ]
                    } else {
                        seq![
                            CommandView::ruled(
                                sql::BEGIN_DOCUMENT_REVISION_INSERT_REVISIONS,
                                seq![
                                    Param::Id(input.tenant_id), Param::Id(revision_id),
                                    Param::Id(input.document_session_id),
                                    Param::Id(input.participant_id),
                                    Param::Digest(input.provider_event_digest),
                                    Param::Text(input.kind),
                                    Param::Id(participant.expected_head_version_id),
                                    Param::Id(payload_id),
                                    Param::I64(input.reserved_bytes), Param::Text(input.media_type),
                                ],
                                Fetch::One, ErrorRule::UniqueConflict,
                            ),
                            CommandView::execute(
                                sql::BEGIN_DOCUMENT_REVISION_INSERT_REVISION_CONTRIBUTORS,
                                seq![
                                    Param::Id(input.tenant_id), Param::Id(revision_id),
                                    Param::Id(participant.user_principal_id),
                                ],
                            ),
                            CommandView::Commit,
                        ]
                    },
                )
            },
        )
    }

    /// What `begin_document_revision` returns.
    pub open spec fn begin_document_revision_output(log: Seq<Reply>) -> DocumentPayloadAllocation {
        let participant = log[1].required_row::<WritingParticipant>(DatabaseError::NotFound)->Ok_0;
        let existing = log[3].optional_row::<DocumentRevisionRecord>()->Ok_0;
        let received = existing is Some && existing->0.state@ == "received"@;
        let staging = existing->0;
        let place = log[4].single_row::<PayloadPlace>()->Ok_0;
        let backend_id = log[5].required_row::<Uuid>(DatabaseError::StorageUnavailable)->Ok_0;
        let drawn = log[6].drawn_ids(3);
        let payload_id = drawn->Ok_0[1];
        let locator = drawn->Ok_0[2];
        let staged = log[9].single_row::<DocumentRevisionRecord>()->Ok_0;
        let created = log[9].single_row::<DocumentRevisionRecord>()->Ok_0;
        if existing is Some && existing->0.state@ == "staging"@ {
            DocumentPayloadAllocation {
                payload_id: staging.payload_id->0,
                backend_id: place.backend_id,
                locator: place.locator,
                fencing_token: participant.fencing_token,
                revision: staging,
            }
        } else {
            if received {
                DocumentPayloadAllocation {
                    revision: staged,
                    payload_id,
                    backend_id,
                    locator,
                    fencing_token: participant.fencing_token,
                }
            } else {
                DocumentPayloadAllocation {
                    revision: created,
                    payload_id,
                    backend_id,
                    locator,
                    fencing_token: participant.fencing_token,
                }
            }
        }
    }

    /// Reserves quota and a payload for a revision, under the authorization that the participant's
    /// record holds. A revision that is staging already keeps its payload.
    #[verifier::spinoff_prover]
    #[verifier::rlimit(90)]
    pub fn begin_document_revision<'a>(
        input: &'a BeginDocumentRevisionInput<'a>,
        log: &'a [Reply],
    ) -> (step: Step<'a, DocumentPayloadAllocation>)
        ensures
            step@ == StepView::proceed(
                Self::begin_document_revision_fault(input, log@),
                Self::begin_document_revision_script(input, log@),
                Self::begin_document_revision_output(log@),
                log@,
            ),
    {
        if !text_eq(input.kind, "checkpoint") && !text_eq(input.kind, "user_save")
            && !text_eq(input.kind, "final_save") || input.reserved_bytes < 0
            || input.reserved_bytes > DOCUMENT_MAX_BYTES || !editable_type(input.media_type) {
            return Step::Fail(DatabaseError::InvalidPersistedValue);
        }
        if log.len() == 0 {
            return Step::Ask(Command::Begin);
        }
        if log.len() <= 1 {
            return ask_optional(
                sql::BEGIN_DOCUMENT_REVISION_SELECT_PARTICIPANTS,
                vec![
                    Param::Id(input.tenant_id), Param::Id(input.participant_id),
                    Param::Id(input.document_session_id),
                ],
            );
        }
        let participant: WritingParticipant = match required(&log[1], DatabaseError::NotFound) {
            Ok(value) => value,
            Err(fault) => return stop(fault),
        };
        if !document_participant_can_write(participant.mode.as_str()) {
            return Step::Fail(DatabaseError::Conflict);
        }
        if log.len() <= 2 {
            return ask_optional(
                catalog::LOCK_AUTHORIZATION_FENCE,
                vec![
                    Param::Id(input.tenant_id), Param::Id(participant.api_session_id),
                    Param::Id(participant.user_principal_id), Param::Id(participant.drive_id),
                    Param::Id(participant.node_id),
                ],
            );
        }
        let fence: FenceGenerations = match required(&log[2], DatabaseError::StaleGeneration) {
            Ok(value) => value,
            Err(fault) => return stop(fault),
        };
        if !fence.agree(participant.generations.as_array()) {
            return Step::Fail(DatabaseError::StaleGeneration);
        }
        if log.len() <= 3 {
            return ask_optional(
                sql::BEGIN_DOCUMENT_REVISION_SELECT_REVISIONS,
                vec![
                    Param::Id(input.tenant_id), Param::Id(input.document_session_id),
                    Param::Digest(input.provider_event_digest),
                ],
            );
        }
        let existing: Option<DocumentRevisionRecord> = match optional(&log[3]) {
            Ok(value) => value,
            Err(fault) => return stop(fault),
        };
        let received: bool = existing.is_some()
            && text_eq(existing.as_ref().unwrap().state.as_str(), "received");
        if existing.is_some() && text_eq(existing.as_ref().unwrap().state.as_str(), "staging") {
            let staging: DocumentRevisionRecord = existing.unwrap();
            if staging.payload_id.is_none() {
                return Step::Fail(DatabaseError::Conflict);
            }
            if log.len() <= 4 {
                return ask_one(
                    sql::BEGIN_DOCUMENT_REVISION_SELECT_PAYLOAD_OBJECTS,
                    vec![Param::Id(input.tenant_id), Param::Id(staging.payload_id.unwrap())],
                );
            }
            let place: PayloadPlace = match single::<PayloadPlace>(&log[4]) {
                Ok(value) => value,
                Err(fault) => return stop(fault),
            };
            if log.len() <= 5 {
                return Step::Ask(Command::Commit);
            }
            return Step::Done(
                DocumentPayloadAllocation {
                    payload_id: staging.payload_id.unwrap(),
                    backend_id: place.backend_id,
                    locator: place.locator,
                    fencing_token: participant.fencing_token,
                    revision: staging,
                },
            );
        }
        if existing.is_some() && !received {
            return Step::Fail(DatabaseError::Conflict);
        }
        if log.len() <= 4 {
            return ask_one(
                sql::BEGIN_DOCUMENT_REVISION_SELECT_DRIVES,
                vec![Param::Id(input.tenant_id), Param::Id(participant.drive_id)],
            );
        }
        let usage: DriveUsage = match single::<DriveUsage>(&log[4]) {
            Ok(value) => value,
            Err(fault) => return stop(fault),
        };
        if !quota_admits(&usage, input.reserved_bytes) {
            return Step::Fail(DatabaseError::QuotaExceeded);
        }
        if log.len() <= 5 {
            return ask_optional(
                sql::BEGIN_DOCUMENT_REVISION_SELECT_STORAGE_BACKENDS,
                vec![Param::Id(input.tenant_id)],
            );
        }
        let backend_id: Uuid = match required::<Uuid>(&log[5], DatabaseError::StorageUnavailable) {
            Ok(value) => value,
            Err(fault) => return stop(fault),
        };
        if log.len() <= 6 {
            return Step::Ask(Command::DrawIds(3));
        }
        let drawn: &Vec<Uuid> = match drawn(&log[6], 3) {
            Ok(ids) => ids,
            Err(fault) => return stop(fault),
        };
        let fresh_revision_id: Uuid = drawn[0];
        let payload_id: Uuid = drawn[1];
        let locator: Uuid = drawn[2];
        let revision_id: Uuid =
            if received { existing.as_ref().unwrap().id } else { fresh_revision_id };
        if log.len() <= 7 {
            return ask_execute(
                sql::BEGIN_DOCUMENT_REVISION_UPDATE_DRIVES,
                vec![
                    Param::Id(input.tenant_id), Param::Id(participant.drive_id),
                    Param::I64(input.reserved_bytes),
                ],
            );
        }
        if log.len() <= 8 {
            return ask_execute(
                sql::BEGIN_DOCUMENT_REVISION_INSERT_PAYLOAD_OBJECTS,
                vec![
                    Param::Id(input.tenant_id), Param::Id(payload_id),
                    Param::Id(participant.drive_id), Param::Id(backend_id), Param::Id(locator),
                ],
            );
        }
        if received {
            if log.len() <= 9 {
                return ask_one(
                    sql::BEGIN_DOCUMENT_REVISION_UPDATE_REVISIONS,
                    vec![
                        Param::Id(input.tenant_id), Param::Id(revision_id),
                        Param::Id(payload_id), Param::I64(input.reserved_bytes),
                        Param::Text(input.media_type),
                    ],
                );
            }
            let staged: DocumentRevisionRecord = match single::<DocumentRevisionRecord>(&log[9]) {
                Ok(value) => value,
                Err(fault) => return stop(fault),
            };
            if log.len() <= 10 {
                return ask_execute(
                    sql::BEGIN_DOCUMENT_REVISION_INSERT_REVISION_CONTRIBUTORS,
                    vec![
                        Param::Id(input.tenant_id), Param::Id(revision_id),
                        Param::Id(participant.user_principal_id),
                    ],
                );
            }
            if log.len() <= 11 {
                return Step::Ask(Command::Commit);
            }
            return Step::Done(
                DocumentPayloadAllocation {
                    revision: staged,
                    payload_id,
                    backend_id,
                    locator,
                    fencing_token: participant.fencing_token,
                },
            );
        }
        if log.len() <= 9 {
            return ask(
                sql::BEGIN_DOCUMENT_REVISION_INSERT_REVISIONS,
                vec![
                    Param::Id(input.tenant_id), Param::Id(revision_id),
                    Param::Id(input.document_session_id), Param::Id(input.participant_id),
                    Param::Digest(input.provider_event_digest), Param::Text(input.kind),
                    Param::Id(participant.expected_head_version_id), Param::Id(payload_id),
                    Param::I64(input.reserved_bytes), Param::Text(input.media_type),
                ],
                Fetch::One, ErrorRule::UniqueConflict,
            );
        }
        let created: DocumentRevisionRecord = match single::<DocumentRevisionRecord>(&log[9]) {
            Ok(value) => value,
            Err(fault) => return stop(fault),
        };
        if log.len() <= 10 {
            return ask_execute(
                sql::BEGIN_DOCUMENT_REVISION_INSERT_REVISION_CONTRIBUTORS,
                vec![
                    Param::Id(input.tenant_id), Param::Id(revision_id),
                    Param::Id(participant.user_principal_id),
                ],
            );
        }
        if log.len() <= 11 {
            return Step::Ask(Command::Commit);
        }
        Step::Done(
            DocumentPayloadAllocation {
                revision: created,
                payload_id,
                backend_id,
                locator,
                fencing_token: participant.fencing_token,
            },
        )
    }

    /// `begin_document_revision` runs in one transaction: it is done once its commit is
    /// acknowledged, and when it fails, nothing was committed.
    pub proof fn begin_document_revision_is_atomic<'a>(
        input: &'a BeginDocumentRevisionInput<'a>,
        log: Seq<Reply>,
    )
        ensures
            crate::step::is_atomic(Self::begin_document_revision_script(input, log), 0),
            crate::step::commit_acknowledged(
                Self::begin_document_revision_fault(input, log.drop_last()),
                Self::begin_document_revision_script(input, log.drop_last()),
                log,
            ) ==> {
                &&& Self::begin_document_revision_fault(input, log) is None
                &&& log.len() == Self::begin_document_revision_script(input, log).len()
            },
    {
    }

    /// `begin_document_revision` goes past its fence only where the generations that it has locked
    /// are those that the caller was authorized under.
    pub proof fn begin_document_revision_is_fenced<'a>(
        input: &'a BeginDocumentRevisionInput<'a>,
        log: Seq<Reply>,
    )
        ensures
            ({
                let participant =
                    log[1].required_row::<WritingParticipant>(DatabaseError::NotFound)->Ok_0;
                let fence =
                    log[2].required_row::<FenceGenerations>(DatabaseError::StaleGeneration)->Ok_0;
                Self::begin_document_revision_fault(input, log) is None && log.len() > 2
                    ==> log[2].required_row::<FenceGenerations>(
                        DatabaseError::StaleGeneration,
                    ) is Ok
                    && fence.agrees_with(participant.generations.expected())
            }),
    {
    }

    /// Every statement of `begin_document_revision` is about its tenant.
    pub proof fn begin_document_revision_is_scoped<'a>(
        input: &'a BeginDocumentRevisionInput<'a>,
        log: Seq<Reply>,
    )
        ensures
            crate::step::is_scoped(
                Self::begin_document_revision_script(input, log),
                input.tenant_id,
            ),
    {
    }

    /// What stops `finalize_document_revision`, in order.
    pub open spec fn finalize_document_revision_fault<'a>(
        fencing_token: i64, size_bytes: i64, media_type: &'a str, log: Seq<Reply>,
    ) -> Option<Fault> {
        let owner = log[1].required_row::<FinalizableRevision>(DatabaseError::NotFound)->Ok_0;
        let existing = log[1].single_row::<DocumentRevisionRecord>()->Ok_0;
        let projection = log[2].optional_row::<()>()->Ok_0;
        let authorization_changed = projection is None;
        let checkpoint = existing.kind@ == "checkpoint"@ && !authorization_changed;
        let at = if checkpoint {
            5int
        } else {
            4
        };
        let at2 = if !checkpoint {
            at + 2
        } else {
            at + 1
        };
        if size_bytes < 0 || size_bytes > DOCUMENT_MAX_BYTES || !is_editable_type(media_type@) {
            Some(Fault::Error(DatabaseError::InvalidPersistedValue))
        } else if log.len() > 1
            && log[1].required_row::<FinalizableRevision>(DatabaseError::NotFound) is Err {
            Fault::of(log[1].required_row::<FinalizableRevision>(DatabaseError::NotFound))
        } else if log.len() > 1 && (owner.fencing_token != fencing_token
                || owner.session_state@ != "active"@ || !owner.session_unexpired) {
            Some(Fault::Error(DatabaseError::StaleGeneration))
        } else if log.len() > 1 && log[1].single_row::<DocumentRevisionRecord>() is Err {
            Fault::of(log[1].single_row::<DocumentRevisionRecord>())
        } else if log.len() > 1 && existing.state@ != "staging"@ {
            None
        } else if log.len() > 2 && log[2].optional_row::<()>() is Err {
            Fault::of(log[2].optional_row::<()>())
        } else if log.len() > 2 && size_bytes > existing.reserved_bytes {
            Some(Fault::Error(DatabaseError::QuotaExceeded))
        } else if log.len() > 2 && existing.payload_id is None {
            Some(Fault::Error(DatabaseError::InvalidPersistedValue))
        } else if log.len() > at && log[at].single_row::<DocumentRevisionRecord>() is Err {
            Fault::of(log[at].single_row::<DocumentRevisionRecord>())
        } else if log.len() > at2 && authorization_changed {
            Some(Fault::Error(DatabaseError::StaleGeneration))
        } else {
            None
        }
    }

    /// The commands of `finalize_document_revision`, in order.
    pub open spec fn finalize_document_revision_script<'a>(
        tenant_id: Uuid, revision_id: Uuid, size_bytes: i64, blake3: &'a [u8; 32],
        media_type: &'a str, log: Seq<Reply>,
    ) -> Seq<CommandView<'a>> {
        let owner = log[1].required_row::<FinalizableRevision>(DatabaseError::NotFound)->Ok_0;
        let existing = log[1].single_row::<DocumentRevisionRecord>()->Ok_0;
        let projection = log[2].optional_row::<()>()->Ok_0;
        let authorization_changed = projection is None;
        let checkpoint = existing.kind@ == "checkpoint"@ && !authorization_changed;
        seq![
            CommandView::Begin,
            CommandView::optional(
                sql::FINALIZE_DOCUMENT_REVISION_SELECT_REVISIONS,
                seq![Param::Id(tenant_id), Param::Id(revision_id)],
            ),
        ].add(
            if existing.state@ != "staging"@ {
                seq![CommandView::Commit]
            } else {
                seq![
                    CommandView::optional(
                        sql::LOCK_DOCUMENT_AUTHORIZATION_FENCE,
                        seq![
                            Param::Id(tenant_id), Param::Id(owner.api_session_id),
                            Param::Id(owner.user_principal_id), Param::Id(owner.drive_id),
                            Param::Id(owner.node_id), Param::I64(owner.generations.membership),
                            Param::I64(owner.generations.drive_acl),
                            Param::I64(owner.generations.namespace),
                            Param::I64(owner.generations.resource_acl),
                        ],
                    ),
                    CommandView::execute(
                        sql::FINALIZE_DOCUMENT_REVISION_UPDATE_PAYLOAD_OBJECTS,
                        seq![
                            Param::Id(tenant_id), Param::Id(existing.payload_id->0),
                            Param::I64(size_bytes), Param::Digest(blake3),
                        ],
                    ),
                ].add(
                    if checkpoint {
                        seq![
                            CommandView::execute(
                                sql::FINALIZE_DOCUMENT_REVISION_UPDATE_REVISIONS,
                                seq![
                                    Param::Id(tenant_id), Param::Id(existing.document_session_id),
                                    Param::Id(revision_id),
                                ],
                            ),
                        ]
                    } else {
                        Seq::empty()
                    },
                ).add(
                    seq![
                        CommandView::one(
                            sql::FINALIZE_DOCUMENT_REVISION_UPDATE_REVISIONS_2,
                            seq![
                                Param::Id(tenant_id), Param::Id(revision_id),
                                Param::Text(if checkpoint { "checkpoint" } else { "staged" }),
                                Param::I64(size_bytes), Param::Digest(blake3),
                                Param::Text(media_type),
                            ],
                        ),
                    ],
                ).add(
                    if !checkpoint {
                        seq![
                            CommandView::execute(
                                sql::FINALIZE_DOCUMENT_REVISION_INSERT_RECONCILIATION_JOBS,
                                seq![Param::Id(tenant_id), Param::Id(revision_id)],
                            ),
                        ]
                    } else {
                        Seq::empty()
                    },
                ).add(seq![CommandView::Commit])
            },
        )
    }

    /// What `finalize_document_revision` returns.
    pub open spec fn finalize_document_revision_output(log: Seq<Reply>) -> DocumentRevisionRecord {
        let existing = log[1].single_row::<DocumentRevisionRecord>()->Ok_0;
        let projection = log[2].optional_row::<()>()->Ok_0;
        let authorization_changed = projection is None;
        let checkpoint = existing.kind@ == "checkpoint"@ && !authorization_changed;
        let at = if checkpoint {
            5int
        } else {
            4
        };
        let finalized = log[at].single_row::<DocumentRevisionRecord>()->Ok_0;
        if existing.state@ != "staging"@ {
            existing
        } else {
            finalized
        }
    }

    /// Makes a staging revision's bytes durable under the exact authorization that its participant
    /// has. Where that authorization is gone, the bytes become durable all the same, so that they
    /// can be accounted for, and the caller is told that it is stale.
    pub fn finalize_document_revision<'a>(
        tenant_id: Uuid, revision_id: Uuid, fencing_token: i64, size_bytes: i64,
        blake3: &'a [u8; 32], media_type: &'a str, log: &'a [Reply],
    ) -> (step: Step<'a, DocumentRevisionRecord>)
        ensures
            step@ == StepView::proceed(
                Self::finalize_document_revision_fault(fencing_token, size_bytes, media_type, log@),
                Self::finalize_document_revision_script(
                    tenant_id, revision_id, size_bytes, blake3, media_type, log@,
                ),
                Self::finalize_document_revision_output(log@),
                log@,
            ),
    {
        if size_bytes < 0 || size_bytes > DOCUMENT_MAX_BYTES || !editable_type(media_type) {
            return Step::Fail(DatabaseError::InvalidPersistedValue);
        }
        if log.len() == 0 {
            return Step::Ask(Command::Begin);
        }
        if log.len() <= 1 {
            return ask_optional(
                sql::FINALIZE_DOCUMENT_REVISION_SELECT_REVISIONS,
                vec![Param::Id(tenant_id), Param::Id(revision_id)],
            );
        }
        let owner: FinalizableRevision = match required(&log[1], DatabaseError::NotFound) {
            Ok(value) => value,
            Err(fault) => return stop(fault),
        };
        if owner.fencing_token != fencing_token
            || !text_eq(owner.session_state.as_str(), "active") || !owner.session_unexpired {
            return Step::Fail(DatabaseError::StaleGeneration);
        }
        let existing: DocumentRevisionRecord = match single::<DocumentRevisionRecord>(&log[1]) {
            Ok(value) => value,
            Err(fault) => return stop(fault),
        };
        if !text_eq(existing.state.as_str(), "staging") {
            if log.len() <= 2 {
                return Step::Ask(Command::Commit);
            }
            return Step::Done(existing);
        }
        if log.len() <= 2 {
            return ask_optional(
                sql::LOCK_DOCUMENT_AUTHORIZATION_FENCE,
                vec![
                    Param::Id(tenant_id), Param::Id(owner.api_session_id),
                    Param::Id(owner.user_principal_id), Param::Id(owner.drive_id),
                    Param::Id(owner.node_id), Param::I64(owner.generations.membership),
                    Param::I64(owner.generations.drive_acl),
                    Param::I64(owner.generations.namespace),
                    Param::I64(owner.generations.resource_acl),
                ],
            );
        }
        let projection: Option<()> = match optional::<()>(&log[2]) {
            Ok(value) => value,
            Err(fault) => return stop(fault),
        };
        let authorization_changed: bool = projection.is_none();
        if size_bytes > existing.reserved_bytes {
            return Step::Fail(DatabaseError::QuotaExceeded);
        }
        if existing.payload_id.is_none() {
            return Step::Fail(DatabaseError::InvalidPersistedValue);
        }
        if log.len() <= 3 {
            return ask_execute(
                sql::FINALIZE_DOCUMENT_REVISION_UPDATE_PAYLOAD_OBJECTS,
                vec![
                    Param::Id(tenant_id), Param::Id(existing.payload_id.unwrap()),
                    Param::I64(size_bytes), Param::Digest(blake3),
                ],
            );
        }
        let checkpoint: bool = text_eq(existing.kind.as_str(), "checkpoint")
            && !authorization_changed;
        if checkpoint {
            if log.len() <= 4 {
                return ask_execute(
                    sql::FINALIZE_DOCUMENT_REVISION_UPDATE_REVISIONS,
                    vec![
                        Param::Id(tenant_id), Param::Id(existing.document_session_id),
                        Param::Id(revision_id),
                    ],
                );
            }
        }
        let at: usize = if checkpoint {
            5
        } else {
            4
        };
        if log.len() <= at {
            return ask_one(
                sql::FINALIZE_DOCUMENT_REVISION_UPDATE_REVISIONS_2,
                vec![
                    Param::Id(tenant_id), Param::Id(revision_id),
                    Param::Text(if checkpoint { "checkpoint" } else { "staged" }),
                    Param::I64(size_bytes), Param::Digest(blake3), Param::Text(media_type),
                ],
            );
        }
        let finalized: DocumentRevisionRecord = match single::<DocumentRevisionRecord>(&log[at]) {
            Ok(value) => value,
            Err(fault) => return stop(fault),
        };
        if !checkpoint {
            if log.len() - at <= 1 {
                return ask_execute(
                    sql::FINALIZE_DOCUMENT_REVISION_INSERT_RECONCILIATION_JOBS,
                    vec![Param::Id(tenant_id), Param::Id(revision_id)],
                );
            }
        }
        let at2: usize = if !checkpoint {
            at + 2
        } else {
            at + 1
        };
        if log.len() <= at2 {
            return Step::Ask(Command::Commit);
        }
        if authorization_changed {
            return Step::Fail(DatabaseError::StaleGeneration);
        }
        Step::Done(finalized)
    }

    /// `finalize_document_revision` runs in one transaction. Once its commit is acknowledged, it is
    /// done, or it reports the refusal that it has made durable.
    pub proof fn finalize_document_revision_is_atomic<'a>(
        tenant_id: Uuid, revision_id: Uuid, fencing_token: i64, size_bytes: i64,
        blake3: &'a [u8; 32], media_type: &'a str, log: Seq<Reply>,
    )
        ensures
            crate::step::is_atomic(
                Self::finalize_document_revision_script(
                    tenant_id, revision_id, size_bytes, blake3, media_type, log,
                ),
                0,
            ),
            crate::step::commit_acknowledged(
                Self::finalize_document_revision_fault(
                    fencing_token, size_bytes, media_type, log.drop_last(),
                ),
                Self::finalize_document_revision_script(
                    tenant_id, revision_id, size_bytes, blake3, media_type, log.drop_last(),
                ),
                log,
            ) ==> {
                ||| Self::finalize_document_revision_fault(
                    fencing_token, size_bytes, media_type, log,
                ) is None
                    && log.len() == Self::finalize_document_revision_script(
                        tenant_id, revision_id, size_bytes, blake3, media_type, log,
                    ).len()
                ||| Self::finalize_document_revision_fault(
                    fencing_token, size_bytes, media_type, log,
                ) == Some(Fault::Error(DatabaseError::StaleGeneration))
            },
    {
    }

    /// Every statement of `finalize_document_revision` is about its tenant.
    pub proof fn finalize_document_revision_is_scoped<'a>(
        tenant_id: Uuid, revision_id: Uuid, size_bytes: i64, blake3: &'a [u8; 32],
        media_type: &'a str, log: Seq<Reply>,
    )
        ensures
            crate::step::is_scoped(
                Self::finalize_document_revision_script(
                    tenant_id, revision_id, size_bytes, blake3, media_type, log,
                ),
                tenant_id,
            ),
    {
    }

    /// Whether the revision to commit has a lasting outcome already.
    pub open spec fn revision_is_settled(log: Seq<Reply>) -> bool {
        let revision = log[1].single_row::<DocumentRevisionRecord>()->Ok_0;
        ||| revision.state@ == "committed"@
        ||| revision.state@ == "no_op"@
        ||| revision.state@ == "conflict"@
    }

    /// What stops `commit_document_revision`, in order.
    pub open spec fn commit_document_revision_fault(log: Seq<Reply>) -> Option<Fault> {
        let owner = log[1].required_row::<CommittableRevision>(DatabaseError::NotFound)->Ok_0;
        let revision = log[1].single_row::<DocumentRevisionRecord>()->Ok_0;
        let fence = log[2].required_row::<FenceGenerations>(DatabaseError::StaleGeneration)->Ok_0;
        let current = log[3].single_row::<HeadVersion>()->Ok_0;
        let size_bytes = revision.size_bytes->0;
        let digest = revision.blake3->0;
        let ordinal = (match current.ordinal { Some(ordinal) => ordinal, None => 0 } + 1) as i64;
        let drawn = log[4].drawn_ids(1);
        if log.len() > 1
            && log[1].required_row::<CommittableRevision>(DatabaseError::NotFound) is Err {
            Fault::of(log[1].required_row::<CommittableRevision>(DatabaseError::NotFound))
        } else if log.len() > 1 && !can_write(owner.mode@) {
            Some(Fault::Error(DatabaseError::Conflict))
        } else if log.len() > 1 && log[1].single_row::<DocumentRevisionRecord>() is Err {
            Fault::of(log[1].single_row::<DocumentRevisionRecord>())
        } else if log.len() > 1 && revision.state@ == "committed"@ {
            if log.len() > 1 && revision.committed_version_id is None {
                Some(Fault::Error(DatabaseError::InvalidPersistedValue))
            } else {
                None
            }
        } else if log.len() > 1 && revision.state@ == "no_op"@ {
            None
        } else if log.len() > 1 && revision.state@ == "conflict"@ {
            if log.len() > 1 && revision.retained_until is None {
                Some(Fault::Error(DatabaseError::InvalidPersistedValue))
            } else {
                None
            }
        } else if log.len() > 1
            && revision.state@ != "staged"@
            && revision.state@ != "committing"@ {
            Some(Fault::Error(DatabaseError::Conflict))
        } else if log.len() > 1 && (owner.session_state@ != "active"@ || !owner.session_unexpired) {
            Some(Fault::Error(DatabaseError::StaleGeneration))
        } else if log.len() > 2
            && log[2].required_row::<FenceGenerations>(DatabaseError::StaleGeneration) is Err {
            Fault::of(log[2].required_row::<FenceGenerations>(DatabaseError::StaleGeneration))
        } else if log.len() > 2 && !fence.agrees_with(owner.generations.expected()) {
            Some(Fault::Error(DatabaseError::StaleGeneration))
        } else if log.len() > 3 && log[3].single_row::<HeadVersion>() is Err {
            Fault::of(log[3].single_row::<HeadVersion>())
        } else if log.len() > 3
            && current.head_version_id != Some(revision.expected_head_version_id) {
            if log.len() > 4 && log[4].single_row::<String>() is Err {
                Fault::of(log[4].single_row::<String>())
            } else {
                None
            }
        } else if log.len() > 3 && revision.size_bytes is None {
            Some(Fault::Error(DatabaseError::InvalidPersistedValue))
        } else if log.len() > 3 && revision.blake3 is None {
            Some(Fault::Error(DatabaseError::InvalidPersistedValue))
        } else if log.len() > 3 && revision.payload_id is None {
            Some(Fault::Error(DatabaseError::InvalidPersistedValue))
        } else if log.len() > 3
            && current.size_bytes == Some(size_bytes)
            && current.blake3 is Some
            && current.blake3->0@ == digest@ {
            if log.len() > 4 && log[4].one_affected(DatabaseError::StaleGeneration) is Err {
                Fault::of(log[4].one_affected(DatabaseError::StaleGeneration))
            } else if log.len() > 5 && log[5].one_affected(DatabaseError::StaleGeneration) is Err {
                Fault::of(log[5].one_affected(DatabaseError::StaleGeneration))
            } else {
                None
            }
        } else if log.len() > 3 && current.ordinal == Some(i64::MAX) {
            Some(Fault::Malformed)
        } else if log.len() > 4 && drawn is Err {
            Fault::of(drawn)
        } else if log.len() > 15 && log[15].single_row::<i64>() is Err {
            Fault::of(log[15].single_row::<i64>())
        } else if log.len() > 15 && ordinal < 0 {
            Some(Fault::Error(DatabaseError::InvalidPersistedValue))
        } else {
            None
        }
    }

    /// The commands of `commit_document_revision`, in order.
    pub open spec fn commit_document_revision_script<'a>(
        tenant_id: Uuid, revision_id: Uuid, log: Seq<Reply>,
    ) -> Seq<CommandView<'a>> {
        let owner = log[1].required_row::<CommittableRevision>(DatabaseError::NotFound)->Ok_0;
        let revision = log[1].single_row::<DocumentRevisionRecord>()->Ok_0;
        let current = log[3].single_row::<HeadVersion>()->Ok_0;
        let size_bytes = revision.size_bytes->0;
        let digest = revision.blake3->0;
        let payload_id = revision.payload_id->0;
        let ordinal = (match current.ordinal { Some(ordinal) => ordinal, None => 0 } + 1) as i64;
        let drawn = log[4].drawn_ids(1);
        let version_id = drawn->Ok_0[0];
        let occurred_at = log[15].single_row::<i64>()->Ok_0;
        seq![
            CommandView::Begin,
            CommandView::optional(
                sql::COMMIT_DOCUMENT_REVISION_SELECT_REVISIONS,
                seq![Param::Id(tenant_id), Param::Id(revision_id)],
            ),
        ].add(
            if revision.state@ == "committed"@ {
                Seq::<CommandView<'a>>::empty()
            } else {
                if revision.state@ == "no_op"@ {
                    Seq::<CommandView<'a>>::empty()
                } else {
                    if revision.state@ == "conflict"@ {
                        Seq::<CommandView<'a>>::empty()
                    } else {
                        seq![
                            CommandView::optional(
                                catalog::LOCK_AUTHORIZATION_FENCE,
                                seq![
                                    Param::Id(tenant_id), Param::Id(owner.api_session_id),
                                    Param::Id(owner.user_principal_id), Param::Id(owner.drive_id),
                                    Param::Id(owner.node_id),
                                ],
                            ),
                            CommandView::one(
                                sql::COMMIT_DOCUMENT_REVISION_SELECT_NODES,
                                seq![
                                    Param::Id(tenant_id), Param::Id(owner.drive_id),
                                    Param::Id(owner.node_id),
                                ],
                            ),
                        ].add(
                            if current.head_version_id != Some(revision.expected_head_version_id) {
                                seq![
                                    CommandView::one(
                                        sql::MARK_DOCUMENT_CONFLICT_UPDATE_REVISIONS,
                                        seq![
                                            Param::Id(tenant_id), Param::Id(revision_id),
                                            Param::Text("document_head_changed"),
                                        ],
                                    ),
                                    CommandView::execute(
                                        sql::MARK_DOCUMENT_CONFLICT_UPDATE_SESSIONS,
                                        seq![
                                            Param::Id(tenant_id),
                                            Param::Id(revision.document_session_id),
                                            Param::Text("document_head_changed"),
                                        ],
                                    ),
                                    CommandView::execute(
                                        sql::COMMIT_DOCUMENT_REVISION_UPDATE_RECONCILIATION_JOBS,
                                        seq![Param::Id(tenant_id), Param::Id(revision_id)],
                                    ),
                                    CommandView::execute(
                                        catalog::INSERT_AUDIT,
                                        seq![
                                            Param::Id(tenant_id), Param::FreshId,
                                            Param::OptId(Some(owner.user_principal_id)),
                                            Param::OptId(Some(owner.session_principal_id)),
                                            Param::OptId(Some(owner.node_id)),
                                            Param::Text("document.revision.commit"),
                                            Param::Text("conflict"),
                                            Param::Text("document_head_changed"),
                                            Param::Bool(true),
                                            Param::Object1("revision_id", Detail::Id(revision_id)),
                                        ],
                                    ),
                                    CommandView::Commit,
                                ]
                            } else {
                                if current.size_bytes == Some(size_bytes)
                                    && current.blake3 is Some
                                    && current.blake3->0@ == digest@ {
                                    seq![
                                        CommandView::execute(
                                            sql::RELEASE_DOCUMENT_PAYLOAD_UPDATE_PAYLOAD_OBJECTS,
                                            seq![Param::Id(tenant_id), Param::Id(payload_id)],
                                        ),
                                        CommandView::execute(
                                            sql::DOCUMENT_REVISION_RETENTION_SWEEP_UPDATE_DRIVES,
                                            seq![
                                                Param::Id(tenant_id), Param::Id(owner.drive_id),
                                                Param::I64(revision.reserved_bytes),
                                            ],
                                        ),
                                        CommandView::execute(
                                            sql::DOCUMENT_REVISION_RETENTION_SWEEP_INSERT_JOBS,
                                            seq![
                                                Param::Id(tenant_id), Param::FreshId,
                                                Param::Id(payload_id),
                                                Param::Label("document-release:", payload_id),
                                                Param::Object1(
                                                    "payload_id",
                                                    Detail::Id(payload_id),
                                                ),
                                            ],
                                        ),
                                        CommandView::execute(
                                            sql::COMMIT_DOCUMENT_REVISION_UPDATE_REVISIONS,
                                            seq![Param::Id(tenant_id), Param::Id(revision_id)],
                                        ),
                                        CommandView::execute(
                                            sql::COMMIT_DOCUMENT_REVISION_UPDATE_RECONCILIATION_JOBS,
                                            seq![Param::Id(tenant_id), Param::Id(revision_id)],
                                        ),
                                        CommandView::execute(
                                            catalog::INSERT_AUDIT,
                                            seq![
                                                Param::Id(tenant_id), Param::FreshId,
                                                Param::OptId(Some(owner.user_principal_id)),
                                                Param::OptId(Some(owner.session_principal_id)),
                                                Param::OptId(Some(owner.node_id)),
                                                Param::Text("document.revision.commit"),
                                                Param::Text("allowed"),
                                                Param::Text("document_save_noop"),
                                                Param::Bool(true),
                                                Param::Object2(
                                                    "revision_id",
                                                    Detail::Id(revision_id),
                                                    "version_id",
                                                    Detail::Id(revision.expected_head_version_id),
                                                ),
                                            ],
                                        ),
                                        CommandView::Commit,
                                    ]
                                } else {
                                    seq![
                                        CommandView::DrawIds(1),
                                        CommandView::execute(
                                            sql::COMMIT_DOCUMENT_REVISION_INSERT_FILE_VERSIONS,
                                            seq![
                                                Param::Id(tenant_id), Param::Id(owner.node_id),
                                                Param::Id(version_id),
                                                Param::I64(ordinal), Param::Id(payload_id),
                                                Param::I64(size_bytes),
                                                Param::Blob(digest),
                                                Param::OptOwned(revision.media_type),
                                                Param::Id(owner.session_principal_id),
                                            ],
                                        ),
                                        CommandView::execute(
                                            sql::CREATE_DOCUMENT_CONFLICT_COPY_UPDATE_PAYLOAD_OBJECTS,
                                            seq![Param::Id(tenant_id), Param::Id(payload_id)],
                                        ),
                                        CommandView::execute(
                                            sql::CREATE_DOCUMENT_CONFLICT_COPY_UPDATE_DRIVES,
                                            seq![
                                                Param::Id(tenant_id), Param::Id(owner.drive_id),
                                                Param::I64(revision.reserved_bytes),
                                                Param::I64(size_bytes),
                                            ],
                                        ),
                                        CommandView::execute(
                                            sql::CREATE_DOCUMENT_CONFLICT_COPY_UPDATE_NODES,
                                            seq![
                                                Param::Id(tenant_id), Param::Id(owner.drive_id),
                                                Param::Id(owner.node_id),
                                                Param::Id(version_id),
                                            ],
                                        ),
                                        CommandView::execute(
                                            sql::COMMIT_DOCUMENT_REVISION_UPDATE_REVISIONS_2,
                                            seq![
                                                Param::Id(tenant_id), Param::Id(revision_id),
                                                Param::Id(version_id),
                                            ],
                                        ),
                                        CommandView::execute(
                                            sql::COMMIT_DOCUMENT_REVISION_UPDATE_SESSIONS,
                                            seq![
                                                Param::Id(tenant_id),
                                                Param::Id(revision.document_session_id),
                                                Param::Id(version_id),
                                                Param::Bool(revision.kind@ == "final_save"@),
                                            ],
                                        ),
                                        CommandView::execute(
                                            sql::COMMIT_DOCUMENT_REVISION_UPDATE_RECONCILIATION_JOBS,
                                            seq![Param::Id(tenant_id), Param::Id(revision_id)],
                                        ),
                                        CommandView::execute(
                                            sql::COMMIT_DOCUMENT_REVISION_UPDATE_SESSIONS_2,
                                            seq![
                                                Param::Id(tenant_id), Param::Id(owner.drive_id),
                                                Param::Id(owner.node_id),
                                                Param::Id(revision.document_session_id),
                                            ],
                                        ),
                                        CommandView::execute(
                                            sql::COMMIT_DOCUMENT_REVISION_UPDATE_EPOCHS,
                                            seq![
                                                Param::Id(tenant_id), Param::Id(owner.drive_id),
                                                Param::Id(owner.node_id),
                                            ],
                                        ),
                                        CommandView::execute(
                                            catalog::INSERT_AUDIT,
                                            seq![
                                                Param::Id(tenant_id), Param::FreshId,
                                                Param::OptId(Some(owner.user_principal_id)),
                                                Param::OptId(Some(owner.session_principal_id)),
                                                Param::OptId(Some(owner.node_id)),
                                                Param::Text("document.revision.commit"),
                                                Param::Text("allowed"),
                                                Param::Text("document_version_committed"),
                                                Param::Bool(true),
                                                Param::Object2(
                                                    "revision_id", Detail::Id(revision_id),
                                                    "version_id", Detail::Id(version_id),
                                                ),
                                            ],
                                        ),
                                        CommandView::one(
                                            catalog::INSERT_OUTBOX_SELECT_VALUE,
                                            seq![],
                                        ),
                                        CommandView::execute(
                                            catalog::INSERT_OUTBOX_INSERT_OUTBOX_EVENTS,
                                            seq![
                                                Param::Id(tenant_id), Param::FreshId,
                                                Param::Text("filebelt.v1.file.version.committed"),
                                                Param::Text("node"),
                                                Param::Id(owner.node_id), Param::I64(ordinal),
                                                Param::Pair(tenant_id, owner.node_id),
                                                Param::Event(
                                                    Envelope {
                                                        tenant_id: tenant_id,
                                                        aggregate_type: "node",
                                                        aggregate_id: owner.node_id,
                                                        aggregate_generation: ordinal as u64,
                                                        event_type: "filebelt.v1.file.version.committed",
                                                        occurred_at_unix_seconds: occurred_at,
                                                    },
                                                ),
                                            ],
                                        ),
                                        CommandView::Commit,
                                    ]
                                }
                            },
                        )
                    }
                }
            },
        )
    }

    /// What `commit_document_revision` returns.
    pub open spec fn commit_document_revision_output(log: Seq<Reply>) -> DocumentCommitResult {
        let revision = log[1].single_row::<DocumentRevisionRecord>()->Ok_0;
        let current = log[3].single_row::<HeadVersion>()->Ok_0;
        let retained_until = log[4].single_row::<String>()->Ok_0;
        let size_bytes = revision.size_bytes->0;
        let digest = revision.blake3->0;
        let drawn = log[4].drawn_ids(1);
        let version_id = drawn->Ok_0[0];
        if revision.state@ == "committed"@ {
            DocumentCommitResult::Committed { version_id: revision.committed_version_id->0 }
        } else {
            if revision.state@ == "no_op"@ {
                DocumentCommitResult::NoOp { version_id: revision.expected_head_version_id }
            } else {
                if revision.state@ == "conflict"@ {
                    DocumentCommitResult::Conflict { retained_until: revision.retained_until->0 }
                } else {
                    if current.head_version_id != Some(revision.expected_head_version_id) {
                        DocumentCommitResult::Conflict { retained_until }
                    } else {
                        if current.size_bytes == Some(size_bytes)
                            && current.blake3 is Some
                            && current.blake3->0@ == digest@ {
                            DocumentCommitResult::NoOp {
                                version_id: revision.expected_head_version_id,
                            }
                        } else {
                            DocumentCommitResult::Committed { version_id }
                        }
                    }
                }
            }
        }
    }

    /// Makes a staged revision the head version of its file. A head that moved meanwhile makes it a
    /// conflict, the same bytes make it a no-op, and a revision that is settled keeps its outcome.
    #[verifier::spinoff_prover]
    #[verifier::rlimit(100)]
    pub fn commit_document_revision<'a>(
        tenant_id: Uuid, revision_id: Uuid, log: &'a [Reply],
    ) -> (step: Step<'a, DocumentCommitResult>)
        ensures
            step@ == StepView::proceed(
                Self::commit_document_revision_fault(log@),
                Self::commit_document_revision_script(tenant_id, revision_id, log@),
                Self::commit_document_revision_output(log@),
                log@,
            ),
    {
        if log.len() == 0 {
            return Step::Ask(Command::Begin);
        }
        if log.len() <= 1 {
            return ask_optional(
                sql::COMMIT_DOCUMENT_REVISION_SELECT_REVISIONS,
                vec![Param::Id(tenant_id), Param::Id(revision_id)],
            );
        }
        let owner: CommittableRevision = match required(&log[1], DatabaseError::NotFound) {
            Ok(value) => value,
            Err(fault) => return stop(fault),
        };
        if !document_participant_can_write(owner.mode.as_str()) {
            return Step::Fail(DatabaseError::Conflict);
        }
        let revision: DocumentRevisionRecord = match single::<DocumentRevisionRecord>(&log[1]) {
            Ok(value) => value,
            Err(fault) => return stop(fault),
        };
        if text_eq(revision.state.as_str(), "committed") {
            if revision.committed_version_id.is_none() {
                return Step::Fail(DatabaseError::InvalidPersistedValue);
            }
            return Step::Done(
                DocumentCommitResult::Committed {
                    version_id: revision.committed_version_id.unwrap(),
                },
            );
        }
        if text_eq(revision.state.as_str(), "no_op") {
            return Step::Done(
                DocumentCommitResult::NoOp { version_id: revision.expected_head_version_id },
            );
        }
        if text_eq(revision.state.as_str(), "conflict") {
            if revision.retained_until.is_none() {
                return Step::Fail(DatabaseError::InvalidPersistedValue);
            }
            return Step::Done(
                DocumentCommitResult::Conflict { retained_until: revision.retained_until.unwrap() },
            );
        }
        if !text_eq(revision.state.as_str(), "staged")
            && !text_eq(revision.state.as_str(), "committing") {
            return Step::Fail(DatabaseError::Conflict);
        }
        if !text_eq(owner.session_state.as_str(), "active") || !owner.session_unexpired {
            return Step::Fail(DatabaseError::StaleGeneration);
        }
        if log.len() <= 2 {
            return ask_optional(
                catalog::LOCK_AUTHORIZATION_FENCE,
                vec![
                    Param::Id(tenant_id), Param::Id(owner.api_session_id),
                    Param::Id(owner.user_principal_id), Param::Id(owner.drive_id),
                    Param::Id(owner.node_id),
                ],
            );
        }
        let fence: FenceGenerations = match required(&log[2], DatabaseError::StaleGeneration) {
            Ok(value) => value,
            Err(fault) => return stop(fault),
        };
        if !fence.agree(owner.generations.as_array()) {
            return Step::Fail(DatabaseError::StaleGeneration);
        }
        if log.len() <= 3 {
            return ask_one(
                sql::COMMIT_DOCUMENT_REVISION_SELECT_NODES,
                vec![Param::Id(tenant_id), Param::Id(owner.drive_id), Param::Id(owner.node_id)],
            );
        }
        let current: HeadVersion = match single::<HeadVersion>(&log[3]) {
            Ok(value) => value,
            Err(fault) => return stop(fault),
        };
        if current.head_version_id != Some(revision.expected_head_version_id) {
            if log.len() <= 4 {
                return ask_one(
                    sql::MARK_DOCUMENT_CONFLICT_UPDATE_REVISIONS,
                    vec![
                        Param::Id(tenant_id), Param::Id(revision_id),
                        Param::Text("document_head_changed"),
                    ],
                );
            }
            let retained_until: String = match single::<String>(&log[4]) {
                Ok(value) => value,
                Err(fault) => return stop(fault),
            };
            if log.len() <= 5 {
                return ask_execute(
                    sql::MARK_DOCUMENT_CONFLICT_UPDATE_SESSIONS,
                    vec![
                        Param::Id(tenant_id), Param::Id(revision.document_session_id),
                        Param::Text("document_head_changed"),
                    ],
                );
            }
            if log.len() <= 6 {
                return ask_execute(
                    sql::COMMIT_DOCUMENT_REVISION_UPDATE_RECONCILIATION_JOBS,
                    vec![Param::Id(tenant_id), Param::Id(revision_id)],
                );
            }
            if log.len() <= 7 {
                return ask_execute(
                    catalog::INSERT_AUDIT,
                    vec![
                        Param::Id(tenant_id), Param::FreshId,
                        Param::OptId(Some(owner.user_principal_id)),
                        Param::OptId(Some(owner.session_principal_id)),
                        Param::OptId(Some(owner.node_id)),
                        Param::Text("document.revision.commit"), Param::Text("conflict"),
                        Param::Text("document_head_changed"), Param::Bool(true),
                        Param::Object1("revision_id", Detail::Id(revision_id)),
                    ],
                );
            }
            if log.len() <= 8 {
                return Step::Ask(Command::Commit);
            }
            return Step::Done(DocumentCommitResult::Conflict { retained_until });
        }
        if revision.size_bytes.is_none() {
            return Step::Fail(DatabaseError::InvalidPersistedValue);
        }
        if revision.blake3.is_none() {
            return Step::Fail(DatabaseError::InvalidPersistedValue);
        }
        if revision.payload_id.is_none() {
            return Step::Fail(DatabaseError::InvalidPersistedValue);
        }
        let size_bytes: i64 = revision.size_bytes.unwrap();
        let digest: Arc<Vec<u8>> = revision.blake3.unwrap();
        let payload_id: Uuid = revision.payload_id.unwrap();
        if current.size_bytes == Some(size_bytes)
            && same_digest(&current.blake3, digest.as_slice()) {
            if log.len() <= 4 {
                return ask_execute(
                    sql::RELEASE_DOCUMENT_PAYLOAD_UPDATE_PAYLOAD_OBJECTS,
                    vec![Param::Id(tenant_id), Param::Id(payload_id)],
                );
            }
            if let Err(fault) = exactly_one(&log[4], DatabaseError::StaleGeneration) {
                return stop(fault);
            }
            if log.len() <= 5 {
                return ask_execute(
                    sql::DOCUMENT_REVISION_RETENTION_SWEEP_UPDATE_DRIVES,
                    vec![
                        Param::Id(tenant_id), Param::Id(owner.drive_id),
                        Param::I64(revision.reserved_bytes),
                    ],
                );
            }
            if let Err(fault) = exactly_one(&log[5], DatabaseError::StaleGeneration) {
                return stop(fault);
            }
            if log.len() <= 6 {
                return ask_execute(
                    sql::DOCUMENT_REVISION_RETENTION_SWEEP_INSERT_JOBS,
                    vec![
                        Param::Id(tenant_id), Param::FreshId, Param::Id(payload_id),
                        Param::Label("document-release:", payload_id),
                        Param::Object1("payload_id", Detail::Id(payload_id)),
                    ],
                );
            }
            if log.len() <= 7 {
                return ask_execute(
                    sql::COMMIT_DOCUMENT_REVISION_UPDATE_REVISIONS,
                    vec![Param::Id(tenant_id), Param::Id(revision_id)],
                );
            }
            if log.len() <= 8 {
                return ask_execute(
                    sql::COMMIT_DOCUMENT_REVISION_UPDATE_RECONCILIATION_JOBS,
                    vec![Param::Id(tenant_id), Param::Id(revision_id)],
                );
            }
            if log.len() <= 9 {
                return ask_execute(
                    catalog::INSERT_AUDIT,
                    vec![
                        Param::Id(tenant_id), Param::FreshId,
                        Param::OptId(Some(owner.user_principal_id)),
                        Param::OptId(Some(owner.session_principal_id)),
                        Param::OptId(Some(owner.node_id)),
                        Param::Text("document.revision.commit"), Param::Text("allowed"),
                        Param::Text("document_save_noop"), Param::Bool(true),
                        Param::Object2(
                            "revision_id",
                            Detail::Id(revision_id),
                            "version_id",
                            Detail::Id(revision.expected_head_version_id),
                        ),
                    ],
                );
            }
            if log.len() <= 10 {
                return Step::Ask(Command::Commit);
            }
            return Step::Done(
                DocumentCommitResult::NoOp { version_id: revision.expected_head_version_id },
            );
        }
        if current.ordinal == Some(i64::MAX) {
            return Step::Malformed;
        }
        let ordinal: i64 = match current.ordinal {
            Some(ordinal) => ordinal + 1,
            None => 1,
        };
        if log.len() <= 4 {
            return Step::Ask(Command::DrawIds(1));
        }
        let drawn: &Vec<Uuid> = match drawn(&log[4], 1) {
            Ok(ids) => ids,
            Err(fault) => return stop(fault),
        };
        let version_id: Uuid = drawn[0];
        if log.len() <= 5 {
            return ask_execute(
                sql::COMMIT_DOCUMENT_REVISION_INSERT_FILE_VERSIONS,
                vec![
                    Param::Id(tenant_id), Param::Id(owner.node_id), Param::Id(version_id),
                    Param::I64(ordinal), Param::Id(payload_id), Param::I64(size_bytes),
                    Param::Blob(digest), Param::OptOwned(revision.media_type),
                    Param::Id(owner.session_principal_id),
                ],
            );
        }
        if log.len() <= 6 {
            return ask_execute(
                sql::CREATE_DOCUMENT_CONFLICT_COPY_UPDATE_PAYLOAD_OBJECTS,
                vec![Param::Id(tenant_id), Param::Id(payload_id)],
            );
        }
        if log.len() <= 7 {
            return ask_execute(
                sql::CREATE_DOCUMENT_CONFLICT_COPY_UPDATE_DRIVES,
                vec![
                    Param::Id(tenant_id), Param::Id(owner.drive_id),
                    Param::I64(revision.reserved_bytes), Param::I64(size_bytes),
                ],
            );
        }
        if log.len() <= 8 {
            return ask_execute(
                sql::CREATE_DOCUMENT_CONFLICT_COPY_UPDATE_NODES,
                vec![
                    Param::Id(tenant_id), Param::Id(owner.drive_id), Param::Id(owner.node_id),
                    Param::Id(version_id),
                ],
            );
        }
        if log.len() <= 9 {
            return ask_execute(
                sql::COMMIT_DOCUMENT_REVISION_UPDATE_REVISIONS_2,
                vec![Param::Id(tenant_id), Param::Id(revision_id), Param::Id(version_id)],
            );
        }
        if log.len() <= 10 {
            return ask_execute(
                sql::COMMIT_DOCUMENT_REVISION_UPDATE_SESSIONS,
                vec![
                    Param::Id(tenant_id), Param::Id(revision.document_session_id),
                    Param::Id(version_id),
                    Param::Bool(text_eq(revision.kind.as_str(), "final_save")),
                ],
            );
        }
        if log.len() <= 11 {
            return ask_execute(
                sql::COMMIT_DOCUMENT_REVISION_UPDATE_RECONCILIATION_JOBS,
                vec![Param::Id(tenant_id), Param::Id(revision_id)],
            );
        }
        if log.len() <= 12 {
            return ask_execute(
                sql::COMMIT_DOCUMENT_REVISION_UPDATE_SESSIONS_2,
                vec![
                    Param::Id(tenant_id), Param::Id(owner.drive_id), Param::Id(owner.node_id),
                    Param::Id(revision.document_session_id),
                ],
            );
        }
        if log.len() <= 13 {
            return ask_execute(
                sql::COMMIT_DOCUMENT_REVISION_UPDATE_EPOCHS,
                vec![Param::Id(tenant_id), Param::Id(owner.drive_id), Param::Id(owner.node_id)],
            );
        }
        if log.len() <= 14 {
            return ask_execute(
                catalog::INSERT_AUDIT,
                vec![
                    Param::Id(tenant_id), Param::FreshId,
                    Param::OptId(Some(owner.user_principal_id)),
                    Param::OptId(Some(owner.session_principal_id)),
                    Param::OptId(Some(owner.node_id)), Param::Text("document.revision.commit"),
                    Param::Text("allowed"), Param::Text("document_version_committed"),
                    Param::Bool(true),
                    Param::Object2(
                        "revision_id", Detail::Id(revision_id), "version_id",
                        Detail::Id(version_id),
                    ),
                ],
            );
        }
        if log.len() <= 15 {
            return ask_one(catalog::INSERT_OUTBOX_SELECT_VALUE, vec![]);
        }
        let occurred_at: i64 = match single::<i64>(&log[15]) {
            Ok(value) => value,
            Err(fault) => return stop(fault),
        };
        if ordinal < 0 {
            return Step::Fail(DatabaseError::InvalidPersistedValue);
        }
        if log.len() <= 16 {
            return ask_execute(
                catalog::INSERT_OUTBOX_INSERT_OUTBOX_EVENTS,
                vec![
                    Param::Id(tenant_id), Param::FreshId,
                    Param::Text("filebelt.v1.file.version.committed"), Param::Text("node"),
                    Param::Id(owner.node_id), Param::I64(ordinal),
                    Param::Pair(tenant_id, owner.node_id),
                    Param::Event(
                        Envelope {
                            tenant_id: tenant_id,
                            aggregate_type: "node",
                            aggregate_id: owner.node_id,
                            aggregate_generation: ordinal as u64,
                            event_type: "filebelt.v1.file.version.committed",
                            occurred_at_unix_seconds: occurred_at,
                        },
                    ),
                ],
            );
        }
        if log.len() <= 17 {
            return Step::Ask(Command::Commit);
        }
        Step::Done(DocumentCommitResult::Committed { version_id })
    }

    /// `commit_document_revision` runs in one transaction: it is done once its commit is
    /// acknowledged, and when it fails, nothing was committed. A settled revision is only read.
    pub proof fn commit_document_revision_is_atomic(
        tenant_id: Uuid, revision_id: Uuid, log: Seq<Reply>,
    )
        ensures
            (!Self::revision_is_settled(log)) ==> crate::step::is_atomic(
                Self::commit_document_revision_script(tenant_id, revision_id, log),
                0,
            ),
            !(!Self::revision_is_settled(log))
                ==> crate::step::never_commits(
                    Self::commit_document_revision_script(tenant_id, revision_id, log),
                ),
            crate::step::commit_acknowledged(
                Self::commit_document_revision_fault(log.drop_last()),
                Self::commit_document_revision_script(tenant_id, revision_id, log.drop_last()),
                log,
            ) ==> {
                &&& Self::commit_document_revision_fault(log) is None
                &&& log.len() == Self::commit_document_revision_script(
                    tenant_id, revision_id, log,
                ).len()
            },
    {
    }

    /// `commit_document_revision` goes past its fence only where the generations that it has locked
    /// are those that the caller was authorized under. A settled revision is read without it.
    pub proof fn commit_document_revision_is_fenced(log: Seq<Reply>)
        ensures
            ({
                let owner =
                    log[1].required_row::<CommittableRevision>(DatabaseError::NotFound)->Ok_0;
                let fence =
                    log[2].required_row::<FenceGenerations>(DatabaseError::StaleGeneration)->Ok_0;
                Self::commit_document_revision_fault(log) is None
                    && !Self::revision_is_settled(log)
                    && log.len() > 2
                    ==> log[2].required_row::<FenceGenerations>(
                        DatabaseError::StaleGeneration,
                    ) is Ok
                    && fence.agrees_with(owner.generations.expected())
            }),
    {
    }

    /// Every statement of `commit_document_revision` is about its tenant.
    pub proof fn commit_document_revision_is_scoped(
        tenant_id: Uuid, revision_id: Uuid, log: Seq<Reply>,
    )
        ensures
            crate::step::is_scoped(
                Self::commit_document_revision_script(tenant_id, revision_id, log),
                tenant_id,
            ),
    {
    }

    /// What stops `reject_document_revision_for_authorization_change`, in order.
    pub open spec fn reject_document_revision_for_authorization_change_fault(
        log: Seq<Reply>,
    ) -> Option<Fault> {
        let revision = log[1].required_row::<RejectableRevision>(DatabaseError::NotFound)->Ok_0;
        let live = revision.session_state@ == "active"@ && revision.session_unexpired;
        let fence = log[2].optional_row::<FenceGenerations>()->Ok_0;
        let at = if live {
            3int
        } else {
            2
        };
        if log.len() > 1
            && log[1].required_row::<RejectableRevision>(DatabaseError::NotFound) is Err {
            Fault::of(log[1].required_row::<RejectableRevision>(DatabaseError::NotFound))
        } else if log.len() > 1
            && (revision.state@ == "checkpoint"@
                    || revision.state@ == "committed"@
                    || revision.state@ == "no_op"@
                    || revision.state@ == "conflict"@
                    || revision.state@ == "rejected"@
                    || revision.state@ == "failed"@) {
            None
        } else if log.len() > 1
            && revision.state@ != "staging"@
            && revision.state@ != "staged"@
            && revision.state@ != "committing"@ {
            Some(Fault::Error(DatabaseError::Conflict))
        } else if live && log.len() > 2 && log[2].optional_row::<FenceGenerations>() is Err {
            Fault::of(log[2].optional_row::<FenceGenerations>())
        } else if live && log.len() > 2 && fence is Some
            && fence->0.agrees_with(revision.generations.expected()) {
            Some(Fault::Error(DatabaseError::Conflict))
        } else if log.len() > at - 1 && revision.payload_id is None {
            Some(Fault::Error(DatabaseError::InvalidPersistedValue))
        } else if log.len() > at && log[at].one_affected(DatabaseError::StaleGeneration) is Err {
            Fault::of(log[at].one_affected(DatabaseError::StaleGeneration))
        } else if log.len() > at + 1
            && log[at + 1].one_affected(DatabaseError::StaleGeneration) is Err {
            Fault::of(log[at + 1].one_affected(DatabaseError::StaleGeneration))
        } else if log.len() > at + 3
            && log[at + 3].one_affected(DatabaseError::StaleGeneration) is Err {
            Fault::of(log[at + 3].one_affected(DatabaseError::StaleGeneration))
        } else {
            None
        }
    }

    /// The commands of `reject_document_revision_for_authorization_change`, in order.
    pub open spec fn reject_document_revision_for_authorization_change_script<'a>(
        tenant_id: Uuid, revision_id: Uuid, log: Seq<Reply>,
    ) -> Seq<CommandView<'a>> {
        let revision = log[1].required_row::<RejectableRevision>(DatabaseError::NotFound)->Ok_0;
        let live = revision.session_state@ == "active"@ && revision.session_unexpired;
        let payload_id = revision.payload_id->0;
        seq![
            CommandView::Begin,
            CommandView::optional(
                sql::REJECT_DOCUMENT_REVISION_FOR_AUTHORIZATION_CHANGE_SELECT_REVISIONS,
                seq![Param::Id(tenant_id), Param::Id(revision_id)],
            ),
        ].add(
            if (revision.state@ == "checkpoint"@
                    || revision.state@ == "committed"@
                    || revision.state@ == "no_op"@
                    || revision.state@ == "conflict"@
                    || revision.state@ == "rejected"@
                    || revision.state@ == "failed"@) {
                seq![CommandView::Commit]
            } else {
                if live {
                    seq![
                        CommandView::optional(
                            catalog::LOCK_AUTHORIZATION_FENCE,
                            seq![
                                Param::Id(tenant_id), Param::Id(revision.api_session_id),
                                Param::Id(revision.user_principal_id),
                                Param::Id(revision.drive_id),
                                Param::Id(revision.node_id),
                            ],
                        ),
                    ]
                } else {
                    Seq::empty()
                }.add(
                    seq![
                        CommandView::execute(
                            sql::RELEASE_DOCUMENT_PAYLOAD_UPDATE_PAYLOAD_OBJECTS,
                            seq![Param::Id(tenant_id), Param::Id(payload_id)],
                        ),
                        CommandView::execute(
                            sql::DOCUMENT_REVISION_RETENTION_SWEEP_UPDATE_DRIVES,
                            seq![
                                Param::Id(tenant_id), Param::Id(revision.drive_id),
                                Param::I64(revision.reserved_bytes),
                            ],
                        ),
                        CommandView::execute(
                            sql::DOCUMENT_REVISION_RETENTION_SWEEP_INSERT_JOBS,
                            seq![
                                Param::Id(tenant_id), Param::FreshId, Param::Id(payload_id),
                                Param::Label("document-release:", payload_id),
                                Param::Object1("payload_id", Detail::Id(payload_id)),
                            ],
                        ),
                        CommandView::execute(
                            sql::REJECT_DOCUMENT_REVISION_FOR_AUTHORIZATION_CHANGE_UPDATE_REVISIONS,
                            seq![Param::Id(tenant_id), Param::Id(revision_id)],
                        ),
                        CommandView::execute(
                            sql::REJECT_DOCUMENT_REVISION_FOR_AUTHORIZATION_CHANGE_UPDATE_RECONCILIATION_JOBS,
                            seq![Param::Id(tenant_id), Param::Id(revision_id)],
                        ),
                        CommandView::execute(
                            sql::REJECT_DOCUMENT_REVISION_FOR_AUTHORIZATION_CHANGE_UPDATE_PARTICIPANTS,
                            seq![Param::Id(tenant_id), Param::Id(revision.document_session_id)],
                        ),
                        CommandView::execute(
                            sql::REJECT_DOCUMENT_REVISION_FOR_AUTHORIZATION_CHANGE_UPDATE_SESSIONS,
                            seq![Param::Id(tenant_id), Param::Id(revision.document_session_id)],
                        ),
                        CommandView::Commit,
                    ],
                )
            },
        )
    }

    /// What `reject_document_revision_for_authorization_change` returns.
    pub open spec fn reject_document_revision_for_authorization_change_output(
        log: Seq<Reply>,
    ) -> bool {
        let revision = log[1].required_row::<RejectableRevision>(DatabaseError::NotFound)->Ok_0;
        if (revision.state@ == "checkpoint"@
                || revision.state@ == "committed"@
                || revision.state@ == "no_op"@
                || revision.state@ == "conflict"@
                || revision.state@ == "rejected"@
                || revision.state@ == "failed"@) {
            false
        } else {
            true
        }
    }

    /// Rejects a revision whose stored authorization has become stale: moves the session's fence
    /// on, releases the exact reservation once, and queues the deletion of the payload. A settled
    /// revision is left alone; one whose authorization still holds is a conflict.
    #[verifier::spinoff_prover]
    #[verifier::rlimit(60)]
    pub fn reject_document_revision_for_authorization_change<'a>(
        tenant_id: Uuid, revision_id: Uuid, log: &'a [Reply],
    ) -> (step: Step<'a, bool>)
        ensures
            step@ == StepView::proceed(
                Self::reject_document_revision_for_authorization_change_fault(log@),
                Self::reject_document_revision_for_authorization_change_script(
                    tenant_id, revision_id, log@,
                ),
                Self::reject_document_revision_for_authorization_change_output(log@),
                log@,
            ),
    {
        if log.len() == 0 {
            return Step::Ask(Command::Begin);
        }
        if log.len() <= 1 {
            return ask_optional(
                sql::REJECT_DOCUMENT_REVISION_FOR_AUTHORIZATION_CHANGE_SELECT_REVISIONS,
                vec![Param::Id(tenant_id), Param::Id(revision_id)],
            );
        }
        let revision: RejectableRevision = match required(&log[1], DatabaseError::NotFound) {
            Ok(value) => value,
            Err(fault) => return stop(fault),
        };
        if (text_eq(revision.state.as_str(), "checkpoint")
            || text_eq(revision.state.as_str(), "committed")
            || text_eq(revision.state.as_str(), "no_op")
            || text_eq(revision.state.as_str(), "conflict")
            || text_eq(revision.state.as_str(), "rejected")
            || text_eq(revision.state.as_str(), "failed")) {
            if log.len() <= 2 {
                return Step::Ask(Command::Commit);
            }
            return Step::Done(false);
        }
        if !text_eq(revision.state.as_str(), "staging")
            && !text_eq(revision.state.as_str(), "staged")
            && !text_eq(revision.state.as_str(), "committing") {
            return Step::Fail(DatabaseError::Conflict);
        }
        let live: bool = text_eq(revision.session_state.as_str(), "active")
            && revision.session_unexpired;
        if live {
            if log.len() <= 2 {
                return ask_optional(
                    catalog::LOCK_AUTHORIZATION_FENCE,
                    vec![
                        Param::Id(tenant_id), Param::Id(revision.api_session_id),
                        Param::Id(revision.user_principal_id), Param::Id(revision.drive_id),
                        Param::Id(revision.node_id),
                    ],
                );
            }
            let fence: Option<FenceGenerations> = match optional::<FenceGenerations>(&log[2]) {
                Ok(value) => value,
                Err(fault) => return stop(fault),
            };
            if fence.is_some() && fence.unwrap().agree(revision.generations.as_array()) {
                return Step::Fail(DatabaseError::Conflict);
            }
        }
        let at: usize = if live {
            3
        } else {
            2
        };
        if revision.payload_id.is_none() {
            return Step::Fail(DatabaseError::InvalidPersistedValue);
        }
        let payload_id: Uuid = revision.payload_id.unwrap();
        if log.len() <= at {
            return ask_execute(
                sql::RELEASE_DOCUMENT_PAYLOAD_UPDATE_PAYLOAD_OBJECTS,
                vec![Param::Id(tenant_id), Param::Id(payload_id)],
            );
        }
        if let Err(fault) = exactly_one(&log[at], DatabaseError::StaleGeneration) {
            return stop(fault);
        }
        if log.len() - at <= 1 {
            return ask_execute(
                sql::DOCUMENT_REVISION_RETENTION_SWEEP_UPDATE_DRIVES,
                vec![
                    Param::Id(tenant_id), Param::Id(revision.drive_id),
                    Param::I64(revision.reserved_bytes),
                ],
            );
        }
        if let Err(fault) = exactly_one(&log[at + 1], DatabaseError::StaleGeneration) {
            return stop(fault);
        }
        if log.len() - at <= 2 {
            return ask_execute(
                sql::DOCUMENT_REVISION_RETENTION_SWEEP_INSERT_JOBS,
                vec![
                    Param::Id(tenant_id), Param::FreshId, Param::Id(payload_id),
                    Param::Label("document-release:", payload_id),
                    Param::Object1("payload_id", Detail::Id(payload_id)),
                ],
            );
        }
        if log.len() - at <= 3 {
            return ask_execute(
                sql::REJECT_DOCUMENT_REVISION_FOR_AUTHORIZATION_CHANGE_UPDATE_REVISIONS,
                vec![Param::Id(tenant_id), Param::Id(revision_id)],
            );
        }
        if let Err(fault) = exactly_one(&log[at + 3], DatabaseError::StaleGeneration) {
            return stop(fault);
        }
        if log.len() - at <= 4 {
            return ask_execute(
                sql::REJECT_DOCUMENT_REVISION_FOR_AUTHORIZATION_CHANGE_UPDATE_RECONCILIATION_JOBS,
                vec![Param::Id(tenant_id), Param::Id(revision_id)],
            );
        }
        if log.len() - at <= 5 {
            return ask_execute(
                sql::REJECT_DOCUMENT_REVISION_FOR_AUTHORIZATION_CHANGE_UPDATE_PARTICIPANTS,
                vec![Param::Id(tenant_id), Param::Id(revision.document_session_id)],
            );
        }
        if log.len() - at <= 6 {
            return ask_execute(
                sql::REJECT_DOCUMENT_REVISION_FOR_AUTHORIZATION_CHANGE_UPDATE_SESSIONS,
                vec![Param::Id(tenant_id), Param::Id(revision.document_session_id)],
            );
        }
        if log.len() - at <= 7 {
            return Step::Ask(Command::Commit);
        }
        Step::Done(true)
    }

    /// `reject_document_revision_for_authorization_change` runs in one transaction: it is done once
    /// its commit is acknowledged, and when it fails, nothing was committed.
    pub proof fn reject_document_revision_for_authorization_change_is_atomic(
        tenant_id: Uuid, revision_id: Uuid, log: Seq<Reply>,
    )
        ensures
            crate::step::is_atomic(
                Self::reject_document_revision_for_authorization_change_script(
                    tenant_id, revision_id, log,
                ),
                0,
            ),
            crate::step::commit_acknowledged(
                Self::reject_document_revision_for_authorization_change_fault(log.drop_last()),
                Self::reject_document_revision_for_authorization_change_script(
                    tenant_id, revision_id, log.drop_last(),
                ),
                log,
            ) ==> {
                &&& Self::reject_document_revision_for_authorization_change_fault(log) is None
                &&& log.len() == Self::reject_document_revision_for_authorization_change_script(
                    tenant_id, revision_id, log,
                ).len()
            },
    {
    }

    /// Every statement of `reject_document_revision_for_authorization_change` is about its tenant.
    pub proof fn reject_document_revision_for_authorization_change_is_scoped(
        tenant_id: Uuid, revision_id: Uuid, log: Seq<Reply>,
    )
        ensures
            crate::step::is_scoped(
                Self::reject_document_revision_for_authorization_change_script(
                    tenant_id, revision_id, log,
                ),
                tenant_id,
            ),
    {
    }

    /// What stops `document_reconnect_sweep`, in order.
    pub open spec fn document_reconnect_sweep_fault(limit: i64, log: Seq<Reply>) -> Option<Fault> {
        if limit < 1 || limit > 1_000 {
            Some(Fault::Error(DatabaseError::InvalidPersistedValue))
        } else if log.len() > 1 && log[1].row_count() is Err {
            Fault::of(log[1].row_count())
        } else if log.len() > 2 && log[2].row_count() is Err {
            Fault::of(log[2].row_count())
        } else {
            None
        }
    }

    /// The commands of `document_reconnect_sweep`, in order.
    pub open spec fn document_reconnect_sweep_script<'a>(
        tenant_id: Uuid, limit: i64, log: Seq<Reply>,
    ) -> Seq<CommandView<'a>> {
        seq![
            CommandView::Begin,
            CommandView::execute(
                sql::DOCUMENT_RECONNECT_SWEEP_UPDATE_PARTICIPANTS,
                seq![Param::Id(tenant_id), Param::I64(limit)],
            ),
            CommandView::execute(
                sql::DOCUMENT_RECONNECT_SWEEP_UPDATE_SESSIONS,
                seq![Param::Id(tenant_id), Param::I64(limit)],
            ),
            CommandView::Commit,
        ]
    }

    /// What `document_reconnect_sweep` returns.
    pub open spec fn document_reconnect_sweep_output(
        log: Seq<Reply>,
    ) -> DocumentReconnectSweepReport {
        let participants_closed = log[1].row_count()->Ok_0;
        let sessions_expired = log[2].row_count()->Ok_0;
        DocumentReconnectSweepReport { participants_closed, sessions_expired }
    }

    /// Closes participants whose reconnect deadline has passed, then expires drained sessions that
    /// have no participant left.
    pub fn document_reconnect_sweep<'a>(
        tenant_id: Uuid, limit: i64, log: &'a [Reply],
    ) -> (step: Step<'a, DocumentReconnectSweepReport>)
        ensures
            step@ == StepView::proceed(
                Self::document_reconnect_sweep_fault(limit, log@),
                Self::document_reconnect_sweep_script(tenant_id, limit, log@),
                Self::document_reconnect_sweep_output(log@),
                log@,
            ),
    {
        if limit < 1 || limit > 1_000 {
            return Step::Fail(DatabaseError::InvalidPersistedValue);
        }
        if log.len() == 0 {
            return Step::Ask(Command::Begin);
        }
        if log.len() <= 1 {
            return ask_execute(
                sql::DOCUMENT_RECONNECT_SWEEP_UPDATE_PARTICIPANTS,
                vec![Param::Id(tenant_id), Param::I64(limit)],
            );
        }
        let participants_closed: u64 = match affected(&log[1]) {
            Ok(value) => value,
            Err(fault) => return stop(fault),
        };
        if log.len() <= 2 {
            return ask_execute(
                sql::DOCUMENT_RECONNECT_SWEEP_UPDATE_SESSIONS,
                vec![Param::Id(tenant_id), Param::I64(limit)],
            );
        }
        let sessions_expired: u64 = match affected(&log[2]) {
            Ok(value) => value,
            Err(fault) => return stop(fault),
        };
        if log.len() <= 3 {
            return Step::Ask(Command::Commit);
        }
        Step::Done(DocumentReconnectSweepReport { participants_closed, sessions_expired })
    }

    /// `document_reconnect_sweep` runs in one transaction: it is done once its commit is
    /// acknowledged, and when it fails, nothing was committed.
    pub proof fn document_reconnect_sweep_is_atomic(tenant_id: Uuid, limit: i64, log: Seq<Reply>)
        ensures
            crate::step::is_atomic(
                Self::document_reconnect_sweep_script(tenant_id, limit, log),
                0,
            ),
            crate::step::commit_acknowledged(
                Self::document_reconnect_sweep_fault(limit, log.drop_last()),
                Self::document_reconnect_sweep_script(tenant_id, limit, log.drop_last()),
                log,
            ) ==> {
                &&& Self::document_reconnect_sweep_fault(limit, log) is None
                &&& log.len() == Self::document_reconnect_sweep_script(tenant_id, limit, log).len()
            },
    {
    }

    /// Every statement of `document_reconnect_sweep` is about its tenant.
    pub proof fn document_reconnect_sweep_is_scoped(tenant_id: Uuid, limit: i64, log: Seq<Reply>)
        ensures
            crate::step::is_scoped(
                Self::document_reconnect_sweep_script(tenant_id, limit, log),
                tenant_id,
            ),
    {
    }

    /// What stops `document_finalized_staging_locators`, in order.
    pub open spec fn document_finalized_staging_locators_fault(
        limit: i64,
        log: Seq<Reply>,
    ) -> Option<Fault> {
        if limit < 1 || limit > 1_000 {
            Some(Fault::Error(DatabaseError::InvalidPersistedValue))
        } else if log.len() > 0 && log[0].all_rows::<Uuid>() is Err {
            Fault::of(log[0].all_rows::<Uuid>())
        } else {
            None
        }
    }

    /// The commands of `document_finalized_staging_locators`, in order.
    pub open spec fn document_finalized_staging_locators_script<'a>(
        tenant_id: Uuid, backend_id: Uuid, limit: i64, log: Seq<Reply>,
    ) -> Seq<CommandView<'a>> {
        seq![
            CommandView::all(
                sql::DOCUMENT_FINALIZED_STAGING_LOCATORS,
                seq![Param::Id(tenant_id), Param::Id(backend_id), Param::I64(limit)],
            ),
        ]
    }

    /// What `document_finalized_staging_locators` returns.
    pub open spec fn document_finalized_staging_locators_output(log: Seq<Reply>) -> Seq<Uuid> {
        let locators = log[0].all_rows::<Uuid>()->Ok_0;
        locators
    }

    /// Lists staging locators whose payloads are known to have their final bytes.
    pub fn document_finalized_staging_locators<'a>(
        tenant_id: Uuid, backend_id: Uuid, limit: i64, log: &'a [Reply],
    ) -> (step: Step<'a, Vec<Uuid>>)
        ensures
            step.list() == StepView::proceed(
                Self::document_finalized_staging_locators_fault(limit, log@),
                Self::document_finalized_staging_locators_script(
                    tenant_id, backend_id, limit, log@,
                ),
                Self::document_finalized_staging_locators_output(log@),
                log@,
            ),
    {
        if limit < 1 || limit > 1_000 {
            return Step::Fail(DatabaseError::InvalidPersistedValue);
        }
        if log.len() == 0 {
            return ask_all(
                sql::DOCUMENT_FINALIZED_STAGING_LOCATORS,
                vec![Param::Id(tenant_id), Param::Id(backend_id), Param::I64(limit)],
            );
        }
        let locators: Vec<Uuid> = match many::<Uuid>(&log[0]) {
            Ok(value) => value,
            Err(fault) => return stop_list(fault),
        };
        Step::Done(locators)
    }

    /// Every statement of `document_finalized_staging_locators` is about its tenant.
    pub proof fn document_finalized_staging_locators_is_scoped(
        tenant_id: Uuid, backend_id: Uuid, limit: i64, log: Seq<Reply>,
    )
        ensures
            crate::step::is_scoped(
                Self::document_finalized_staging_locators_script(tenant_id, backend_id, limit, log),
                tenant_id,
            ),
    {
    }

    /// What stops `document_payload_deletion_pending`, in order.
    pub open spec fn document_payload_deletion_pending_fault(log: Seq<Reply>) -> Option<Fault> {
        if log.len() > 0 && log[0].single_row::<bool>() is Err {
            Fault::of(log[0].single_row::<bool>())
        } else {
            None
        }
    }

    /// The commands of `document_payload_deletion_pending`, in order.
    pub open spec fn document_payload_deletion_pending_script<'a>(
        tenant_id: Uuid, payload_id: Uuid, log: Seq<Reply>,
    ) -> Seq<CommandView<'a>> {
        seq![
            CommandView::one(
                sql::DOCUMENT_PAYLOAD_DELETION_PENDING,
                seq![Param::Id(tenant_id), Param::Id(payload_id)],
            ),
        ]
    }

    /// What `document_payload_deletion_pending` returns.
    pub open spec fn document_payload_deletion_pending_output(log: Seq<Reply>) -> bool {
        let pending = log[0].single_row::<bool>()->Ok_0;
        pending
    }

    /// Whether a payload that is being deleted belongs to a failed revision.
    pub fn document_payload_deletion_pending<'a>(
        tenant_id: Uuid, payload_id: Uuid, log: &'a [Reply],
    ) -> (step: Step<'a, bool>)
        ensures
            step@ == StepView::proceed(
                Self::document_payload_deletion_pending_fault(log@),
                Self::document_payload_deletion_pending_script(tenant_id, payload_id, log@),
                Self::document_payload_deletion_pending_output(log@),
                log@,
            ),
    {
        if log.len() == 0 {
            return ask_one(
                sql::DOCUMENT_PAYLOAD_DELETION_PENDING,
                vec![Param::Id(tenant_id), Param::Id(payload_id)],
            );
        }
        let pending: bool = match single::<bool>(&log[0]) {
            Ok(value) => value,
            Err(fault) => return stop(fault),
        };
        Step::Done(pending)
    }

    /// Every statement of `document_payload_deletion_pending` is about its tenant.
    pub proof fn document_payload_deletion_pending_is_scoped(
        tenant_id: Uuid, payload_id: Uuid, log: Seq<Reply>,
    )
        ensures
            crate::step::is_scoped(
                Self::document_payload_deletion_pending_script(tenant_id, payload_id, log),
                tenant_id,
            ),
    {
    }

    /// What stops `complete_document_payload_deletion`, in order.
    pub open spec fn complete_document_payload_deletion_fault(log: Seq<Reply>) -> Option<Fault> {
        let payload = log[1].required_row::<PayloadState>(DatabaseError::StaleGeneration)->Ok_0;
        if log.len() > 1
            && log[1].required_row::<PayloadState>(DatabaseError::StaleGeneration) is Err {
            Fault::of(log[1].required_row::<PayloadState>(DatabaseError::StaleGeneration))
        } else if log.len() > 1 && payload.state@ == "deleted"@ {
            None
        } else if log.len() > 1 && payload.state@ != "deleting"@ && payload.state@ != "abandoned"@ {
            Some(Fault::Error(DatabaseError::StaleGeneration))
        } else if log.len() > 2 && log[2].one_affected(DatabaseError::StaleGeneration) is Err {
            Fault::of(log[2].one_affected(DatabaseError::StaleGeneration))
        } else {
            None
        }
    }

    /// The commands of `complete_document_payload_deletion`, in order.
    pub open spec fn complete_document_payload_deletion_script<'a>(
        tenant_id: Uuid, payload_id: Uuid, log: Seq<Reply>,
    ) -> Seq<CommandView<'a>> {
        let payload = log[1].required_row::<PayloadState>(DatabaseError::StaleGeneration)->Ok_0;
        seq![
            CommandView::Begin,
            CommandView::optional(
                sql::COMPLETE_DOCUMENT_PAYLOAD_DELETION_SELECT_PAYLOAD_OBJECTS,
                seq![Param::Id(tenant_id), Param::Id(payload_id)],
            ),
        ].add(
            if payload.state@ == "deleted"@ {
                seq![CommandView::Commit]
            } else {
                seq![
                    CommandView::execute(
                        sql::COMPLETE_DOCUMENT_PAYLOAD_DELETION_UPDATE_PAYLOAD_OBJECTS,
                        seq![Param::Id(tenant_id), Param::Id(payload_id)],
                    ),
                    CommandView::Commit,
                ]
            },
        )
    }

    /// Records the physical deletion of a stale output; repeating it changes nothing.
    pub fn complete_document_payload_deletion<'a>(
        tenant_id: Uuid, payload_id: Uuid, log: &'a [Reply],
    ) -> (step: Step<'a, ()>)
        ensures
            step@ == StepView::proceed(
                Self::complete_document_payload_deletion_fault(log@),
                Self::complete_document_payload_deletion_script(tenant_id, payload_id, log@),
                (),
                log@,
            ),
    {
        if log.len() == 0 {
            return Step::Ask(Command::Begin);
        }
        if log.len() <= 1 {
            return ask_optional(
                sql::COMPLETE_DOCUMENT_PAYLOAD_DELETION_SELECT_PAYLOAD_OBJECTS,
                vec![Param::Id(tenant_id), Param::Id(payload_id)],
            );
        }
        let payload: PayloadState = match required(&log[1], DatabaseError::StaleGeneration) {
            Ok(value) => value,
            Err(fault) => return stop(fault),
        };
        if text_eq(payload.state.as_str(), "deleted") {
            if log.len() <= 2 {
                return Step::Ask(Command::Commit);
            }
            return Step::Done(());
        }
        if !text_eq(payload.state.as_str(), "deleting")
            && !text_eq(payload.state.as_str(), "abandoned") {
            return Step::Fail(DatabaseError::StaleGeneration);
        }
        if log.len() <= 2 {
            return ask_execute(
                sql::COMPLETE_DOCUMENT_PAYLOAD_DELETION_UPDATE_PAYLOAD_OBJECTS,
                vec![Param::Id(tenant_id), Param::Id(payload_id)],
            );
        }
        if let Err(fault) = exactly_one(&log[2], DatabaseError::StaleGeneration) {
            return stop(fault);
        }
        if log.len() <= 3 {
            return Step::Ask(Command::Commit);
        }
        Step::Done(())
    }

    /// `complete_document_payload_deletion` runs in one transaction: it is done once its commit is
    /// acknowledged, and when it fails, nothing was committed.
    pub proof fn complete_document_payload_deletion_is_atomic(
        tenant_id: Uuid, payload_id: Uuid, log: Seq<Reply>,
    )
        ensures
            crate::step::is_atomic(
                Self::complete_document_payload_deletion_script(tenant_id, payload_id, log),
                0,
            ),
            crate::step::commit_acknowledged(
                Self::complete_document_payload_deletion_fault(log.drop_last()),
                Self::complete_document_payload_deletion_script(
                    tenant_id, payload_id, log.drop_last(),
                ),
                log,
            ) ==> {
                &&& Self::complete_document_payload_deletion_fault(log) is None
                &&& log.len() == Self::complete_document_payload_deletion_script(
                    tenant_id, payload_id, log,
                ).len()
            },
    {
    }

    /// Every statement of `complete_document_payload_deletion` is about its tenant.
    pub proof fn complete_document_payload_deletion_is_scoped(
        tenant_id: Uuid, payload_id: Uuid, log: Seq<Reply>,
    )
        ensures
            crate::step::is_scoped(
                Self::complete_document_payload_deletion_script(tenant_id, payload_id, log),
                tenant_id,
            ),
    {
    }

}

/// The session that a participant belongs to.
#[derive(Clone, Copy, Debug, PartialEq, Eq, Structural)]
pub struct SessionOfParticipant {
    pub document_session_id: Uuid,
}

impl SessionOfParticipant {
    /// What a row holds, read by its column names.
    #[verifier::opaque]
    pub open spec fn of_row(row: Row) -> Result<SessionOfParticipant, Fault> {
        if row.column::<Uuid>("document_session_id"@) is Some {
            Ok(
                SessionOfParticipant {
                    document_session_id: row.column::<Uuid>("document_session_id"@)->0,
                },
            )
        } else {
            Err(Fault::Malformed)
        }
    }
}

impl FromRow for SessionOfParticipant {
    open spec fn row_spec(row: Row) -> Result<SessionOfParticipant, Fault> {
        SessionOfParticipant::of_row(row)
    }

    fn from_row(row: &Row) -> (r: Result<SessionOfParticipant, Fault>) {
        proof {
            reveal(SessionOfParticipant::of_row);
        }
        let document_session_id: Uuid = match row.get("document_session_id") {
            Some(v) => v,
            None => return Err(Fault::Malformed),
        };
        Ok(SessionOfParticipant { document_session_id })
    }
}

/// A payload's state.
#[derive(Debug)]
pub struct PayloadState {
    pub state: String,
}

impl PayloadState {
    /// What a row holds, read by its column names.
    #[verifier::opaque]
    pub open spec fn of_row(row: Row) -> Result<PayloadState, Fault> {
        if row.column::<String>("state"@) is Some {
            Ok(
                PayloadState {
                    state: row.column::<String>("state"@)->0,
                },
            )
        } else {
            Err(Fault::Malformed)
        }
    }
}

impl FromRow for PayloadState {
    open spec fn row_spec(row: Row) -> Result<PayloadState, Fault> {
        PayloadState::of_row(row)
    }

    fn from_row(row: &Row) -> (r: Result<PayloadState, Fault>) {
        proof {
            reveal(PayloadState::of_row);
        }
        let state: String = match row.get("state") {
            Some(v) => v,
            None => return Err(Fault::Malformed),
        };
        Ok(PayloadState { state })
    }
}

} // verus!
