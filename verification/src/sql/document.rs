//! Statements on document editing sessions and revisions.

use vstd::prelude::*;

verus! {

pub const RECEIVE_DOCUMENT_CALLBACK_SELECT_SESSION_EVENTS: &'static str = "SELECT e.id,e.participant_id,e.event_kind,p.mode FROM filebelt_document.session_events e JOIN filebelt_document.participants p ON p.tenant_id=e.tenant_id AND p.id=e.participant_id WHERE e.tenant_id=$1 AND e.document_session_id=$2 AND e.provider_event_digest=$3 FOR UPDATE OF e,p";

pub const RECEIVE_DOCUMENT_CALLBACK_SELECT_PARTICIPANTS: &'static str = "SELECT p.user_principal_id,p.api_session_id,p.mode,p.state AS participant_state,p.membership_generation,p.drive_acl_generation,p.namespace_generation,p.resource_acl_generation,s.drive_id,s.node_id,s.expected_head_version_id,s.state AS session_state,b.media_type FROM filebelt_document.participants p JOIN filebelt_document.sessions s ON s.tenant_id=p.tenant_id AND s.id=p.document_session_id JOIN file_versions b ON b.tenant_id=s.tenant_id AND b.node_id=s.node_id AND b.id=s.base_version_id WHERE p.tenant_id=$1 AND p.id=$2 AND p.document_session_id=$3 AND p.state IN ('active','disconnected') AND s.state IN ('active','draining') AND s.absolute_expires_at>clock_timestamp() AND (s.state='active' OR s.reconnect_until>clock_timestamp()) FOR UPDATE OF p,s";

pub const RECEIVE_DOCUMENT_CALLBACK_INSERT_SESSION_EVENTS: &'static str = "INSERT INTO filebelt_document.session_events (tenant_id,id,document_session_id,participant_id,provider_event_digest,event_kind,outcome,reason_code) VALUES ($1,$2,$3,$4,$5,$6,'allowed',$6) ON CONFLICT (tenant_id,document_session_id,provider_event_digest) DO UPDATE SET id=filebelt_document.session_events.id WHERE filebelt_document.session_events.participant_id=EXCLUDED.participant_id AND filebelt_document.session_events.event_kind=EXCLUDED.event_kind RETURNING id";

pub const RECEIVE_DOCUMENT_CALLBACK_UPDATE_PARTICIPANTS: &'static str = "UPDATE filebelt_document.participants SET state='active',disconnected_until=NULL,closed_at=NULL,close_reason=NULL,last_activity_at=clock_timestamp() WHERE tenant_id=$1 AND id=$2 AND state IN ('active','disconnected')";

pub const RECEIVE_DOCUMENT_CALLBACK_UPDATE_SESSIONS: &'static str = "UPDATE filebelt_document.sessions SET state='active',fencing_token=fencing_token+1,reconnect_until=LEAST(absolute_expires_at,clock_timestamp()+interval '100 seconds'),closed_at=NULL,close_reason=NULL WHERE tenant_id=$1 AND id=$2 AND state IN ('active','draining') AND (state='active' OR reconnect_until>clock_timestamp())";

pub const RECEIVE_DOCUMENT_CALLBACK_UPDATE_PARTICIPANTS_2: &'static str = "UPDATE filebelt_document.participants SET state='disconnected',disconnected_until=clock_timestamp()+interval '100 seconds',last_activity_at=clock_timestamp(),close_reason='provider_disconnected' WHERE tenant_id=$1 AND id=$2 AND state IN ('active','disconnected')";

pub const RECEIVE_DOCUMENT_CALLBACK_UPDATE_SESSIONS_2: &'static str = "UPDATE filebelt_document.sessions s SET state='draining',fencing_token=fencing_token+1,reconnect_until=LEAST(s.absolute_expires_at,clock_timestamp()+interval '100 seconds'),close_reason='provider_reconnect_pending' WHERE tenant_id=$1 AND id=$2 AND state='active' AND NOT EXISTS (SELECT 1 FROM filebelt_document.participants p WHERE p.tenant_id=s.tenant_id AND p.document_session_id=s.id AND p.state='active')";

pub const RECEIVE_DOCUMENT_CALLBACK_UPDATE_PARTICIPANTS_3: &'static str = "UPDATE filebelt_document.participants SET last_activity_at=clock_timestamp() WHERE tenant_id=$1 AND id=$2 AND state='active'";

pub const RECEIVE_DOCUMENT_CALLBACK_INSERT_REVISIONS: &'static str = "INSERT INTO filebelt_document.revisions (tenant_id,id,document_session_id,actor_participant_id,provider_event_digest,kind,state,expected_head_version_id,media_type) VALUES ($1,$2,$3,$4,$5,$6,'received',$7,$8) ON CONFLICT (tenant_id,document_session_id,provider_event_digest) DO UPDATE SET id=filebelt_document.revisions.id WHERE filebelt_document.revisions.actor_participant_id=EXCLUDED.actor_participant_id AND filebelt_document.revisions.kind=EXCLUDED.kind AND filebelt_document.revisions.media_type=EXCLUDED.media_type RETURNING id,document_session_id,actor_participant_id,provider_event_digest,kind,media_type,state";

pub const RECEIVED_DOCUMENT_REVISION_BY_DIGEST: &'static str = "SELECT id,document_session_id,actor_participant_id,provider_event_digest,kind,media_type,state FROM filebelt_document.revisions WHERE tenant_id=$1 AND document_session_id=$2 AND provider_event_digest=$3";

pub const RECEIVED_DOCUMENT_REVISION: &'static str = "SELECT id,document_session_id,actor_participant_id,provider_event_digest,kind,media_type,state FROM filebelt_document.revisions WHERE tenant_id=$1 AND id=$2";

pub const CREATE_DOCUMENT_SESSION_SELECT_ADVISORY_LOCK: &'static str = "SELECT pg_advisory_xact_lock(hashtextextended($1,0))";

pub const CREATE_DOCUMENT_SESSION_COUNT_PARTICIPANTS: &'static str = "SELECT count(*) FROM filebelt_document.participants p JOIN filebelt_document.sessions s ON s.tenant_id=p.tenant_id AND s.id=p.document_session_id WHERE p.tenant_id=$1 AND s.provider_id=$2 AND (p.state='active' OR (p.state='disconnected' AND p.disconnected_until>clock_timestamp())) AND (s.state='active' OR (s.state='draining' AND s.reconnect_until>clock_timestamp())) AND s.absolute_expires_at>clock_timestamp()";

pub const CREATE_DOCUMENT_SESSION_SELECT_NODES: &'static str = "SELECT head_version_id FROM nodes WHERE tenant_id=$1 AND drive_id=$2 AND id=$3 AND kind='file' AND trash_root_id IS NULL FOR SHARE";

pub const CREATE_DOCUMENT_SESSION_SELECT_FILE_VERSIONS: &'static str = "SELECT size_bytes,media_type FROM file_versions WHERE tenant_id=$1 AND node_id=$2 AND id=$3";

pub const CREATE_DOCUMENT_SESSION_UPDATE_SESSIONS: &'static str = "UPDATE filebelt_document.sessions SET state='expired',fencing_token=fencing_token+1,closed_at=clock_timestamp(),close_reason='reconnect_deadline_elapsed' WHERE tenant_id=$1 AND provider_id=$2 AND node_id=$3 AND base_version_id=$4 AND state='draining' AND reconnect_until<=clock_timestamp()";

pub const CREATE_DOCUMENT_SESSION_SELECT_SESSIONS: &'static str = "SELECT id,session_principal_id,drive_id,node_id,base_version_id,expected_head_version_id,provider_id,state,fencing_token,created_at::text,absolute_expires_at::text,reconnect_until::text,close_reason FROM filebelt_document.sessions WHERE tenant_id=$1 AND provider_id=$2 AND node_id=$3 AND base_version_id=$4 AND state IN ('active','draining') FOR UPDATE";

pub const CREATE_DOCUMENT_SESSION_SELECT_VALUE: &'static str = "SELECT filebelt_document.create_session_principal($1,$2)";

pub const CREATE_DOCUMENT_SESSION_INSERT_SESSIONS: &'static str = "INSERT INTO filebelt_document.sessions (tenant_id,id,session_principal_id,drive_id,node_id,provider_id,base_version_id,expected_head_version_id,created_by) VALUES ($1,$2,$3,$4,$5,$6,$7,$7,$8) RETURNING id,session_principal_id,drive_id,node_id,base_version_id,expected_head_version_id,provider_id,state,fencing_token,created_at::text,(extract(epoch FROM created_at)*1000000)::bigint AS created_at_unix_microseconds,absolute_expires_at::text,reconnect_until::text,closed_at::text,close_reason";

pub const CREATE_DOCUMENT_SESSION_INSERT_PARTICIPANTS: &'static str = "INSERT INTO filebelt_document.participants (tenant_id,id,document_session_id,user_principal_id,api_session_id,mode,membership_generation,drive_acl_generation,namespace_generation,resource_acl_generation) VALUES ($1,$2,$3,$4,$5,$6,$7,$8,$9,$10) RETURNING id,document_session_id,user_principal_id,api_session_id,mode,state,created_at::text AS participant_created_at,last_activity_at::text,disconnected_until::text,membership_generation,drive_acl_generation,namespace_generation,resource_acl_generation";

pub const CREATE_DOCUMENT_SESSION_SELECT_USERS: &'static str = "SELECT display_name FROM users WHERE tenant_id=$1 AND principal_id=$2";

pub const ISSUE_DOCUMENT_LAUNCH_GRANT_SELECT_PARTICIPANTS: &'static str = "SELECT p.id FROM filebelt_document.participants p JOIN filebelt_document.sessions s ON s.tenant_id=p.tenant_id AND s.id=p.document_session_id WHERE p.tenant_id=$1 AND p.document_session_id=$2 AND p.user_principal_id=$3 AND p.api_session_id=$4 AND p.state='active' AND s.state='active' AND s.absolute_expires_at>clock_timestamp() FOR UPDATE OF p,s";

pub const ISSUE_DOCUMENT_LAUNCH_GRANT_EXISTS_LAUNCH_GRANTS: &'static str = "SELECT EXISTS (SELECT 1 FROM filebelt_document.launch_grants WHERE tenant_id=$1 AND participant_id=$2 AND consumed_at IS NOT NULL)";

pub const ISSUE_DOCUMENT_LAUNCH_GRANT_DELETE_LAUNCH_GRANTS: &'static str = "DELETE FROM filebelt_document.launch_grants WHERE tenant_id=$1 AND participant_id=$2 AND consumed_at IS NULL";

pub const ISSUE_DOCUMENT_LAUNCH_GRANT_INSERT_LAUNCH_GRANTS: &'static str = "INSERT INTO filebelt_document.launch_grants (tenant_id,id,participant_id,token_digest,expires_at) VALUES ($1,$2,$3,$4,clock_timestamp()+interval '60 seconds') RETURNING EXTRACT(EPOCH FROM expires_at)::bigint";

pub const CONSUME_DOCUMENT_LAUNCH_GRANT: &'static str = "UPDATE filebelt_document.launch_grants g SET consumed_at=clock_timestamp() FROM filebelt_document.participants p,filebelt_document.sessions s,users u WHERE g.tenant_id=$1 AND g.token_digest=$2 AND g.consumed_at IS NULL AND g.expires_at>clock_timestamp() AND p.tenant_id=g.tenant_id AND p.id=g.participant_id AND p.state='active' AND s.tenant_id=p.tenant_id AND s.id=p.document_session_id AND s.state='active' AND s.absolute_expires_at>clock_timestamp() AND u.tenant_id=p.tenant_id AND u.principal_id=p.user_principal_id RETURNING g.id AS grant_id,g.expires_at::text AS grant_expires_at,p.id AS participant_id,p.document_session_id,p.user_principal_id,p.api_session_id,p.mode,p.state AS participant_state,p.created_at::text AS participant_created_at,p.last_activity_at::text,p.disconnected_until::text,p.membership_generation,p.drive_acl_generation,p.namespace_generation,p.resource_acl_generation,u.display_name,s.id,s.session_principal_id,s.drive_id,s.node_id,s.base_version_id,s.expected_head_version_id,s.provider_id,s.state,s.fencing_token,s.created_at::text,(extract(epoch FROM s.created_at)*1000000)::bigint AS created_at_unix_microseconds,s.absolute_expires_at::text,s.reconnect_until::text,s.closed_at::text,s.close_reason,NULL::uuid AS conflict_head_version_id";

pub const LIST_DOCUMENT_SESSIONS_FOR_PRINCIPAL: &'static str = "WITH selected AS (SELECT s.id,s.created_at FROM filebelt_document.sessions s JOIN filebelt_document.participants owner ON owner.tenant_id=s.tenant_id AND owner.document_session_id=s.id AND owner.user_principal_id=$2 WHERE s.tenant_id=$1 AND ($3::bigint IS NULL OR (s.created_at,s.id)<(timestamptz 'epoch' + $3::bigint * interval '1 microsecond',$4)) ORDER BY s.created_at DESC,s.id DESC LIMIT $5) SELECT NULL::uuid AS grant_id,s.absolute_expires_at::text AS grant_expires_at,p.id AS participant_id,p.document_session_id,p.user_principal_id,p.api_session_id,p.mode,p.state AS participant_state,p.created_at::text AS participant_created_at,p.last_activity_at::text,p.disconnected_until::text,p.membership_generation,p.drive_acl_generation,p.namespace_generation,p.resource_acl_generation,u.display_name,s.id,s.session_principal_id,s.drive_id,s.node_id,s.base_version_id,s.expected_head_version_id,s.provider_id,s.state,s.fencing_token,s.created_at::text,(extract(epoch FROM s.created_at)*1000000)::bigint AS created_at_unix_microseconds,s.absolute_expires_at::text,s.reconnect_until::text,s.closed_at::text,s.close_reason,CASE WHEN s.state='conflict' THEN n.head_version_id ELSE NULL END AS conflict_head_version_id FROM selected x JOIN filebelt_document.sessions s ON s.id=x.id JOIN filebelt_document.participants p ON s.tenant_id=p.tenant_id AND s.id=p.document_session_id JOIN nodes n ON n.tenant_id=s.tenant_id AND n.drive_id=s.drive_id AND n.id=s.node_id JOIN users u ON u.tenant_id=p.tenant_id AND u.principal_id=p.user_principal_id ORDER BY s.created_at DESC,s.id DESC,p.created_at ASC";

pub const LIST_DOCUMENT_SESSIONS_FOR_NODE: &'static str = "WITH selected AS (SELECT s.id,s.created_at FROM filebelt_document.sessions s WHERE s.tenant_id=$1 AND s.drive_id=$2 AND s.node_id=$3 AND ($4::bigint IS NULL OR (s.created_at,s.id)<(timestamptz 'epoch' + $4::bigint * interval '1 microsecond',$5)) ORDER BY s.created_at DESC,s.id DESC LIMIT $6) SELECT NULL::uuid AS grant_id,s.absolute_expires_at::text AS grant_expires_at,p.id AS participant_id,p.document_session_id,p.user_principal_id,p.api_session_id,p.mode,p.state AS participant_state,p.created_at::text AS participant_created_at,p.last_activity_at::text,p.disconnected_until::text,p.membership_generation,p.drive_acl_generation,p.namespace_generation,p.resource_acl_generation,u.display_name,s.id,s.session_principal_id,s.drive_id,s.node_id,s.base_version_id,s.expected_head_version_id,s.provider_id,s.state,s.fencing_token,s.created_at::text,(extract(epoch FROM s.created_at)*1000000)::bigint AS created_at_unix_microseconds,s.absolute_expires_at::text,s.reconnect_until::text,s.closed_at::text,s.close_reason,CASE WHEN s.state='conflict' THEN n.head_version_id ELSE NULL END AS conflict_head_version_id FROM selected x JOIN filebelt_document.sessions s ON s.id=x.id JOIN filebelt_document.participants p ON s.tenant_id=p.tenant_id AND s.id=p.document_session_id JOIN nodes n ON n.tenant_id=s.tenant_id AND n.drive_id=s.drive_id AND n.id=s.node_id JOIN users u ON u.tenant_id=p.tenant_id AND u.principal_id=p.user_principal_id ORDER BY s.created_at DESC,s.id DESC,p.created_at ASC";

pub const DOCUMENT_SESSION_FOR_PRINCIPAL: &'static str = "SELECT NULL::uuid AS grant_id,s.absolute_expires_at::text AS grant_expires_at,p.id AS participant_id,p.document_session_id,p.user_principal_id,p.api_session_id,p.mode,p.state AS participant_state,p.created_at::text AS participant_created_at,p.last_activity_at::text,p.disconnected_until::text,p.membership_generation,p.drive_acl_generation,p.namespace_generation,p.resource_acl_generation,u.display_name,s.id,s.session_principal_id,s.drive_id,s.node_id,s.base_version_id,s.expected_head_version_id,s.provider_id,s.state,s.fencing_token,s.created_at::text,(extract(epoch FROM s.created_at)*1000000)::bigint AS created_at_unix_microseconds,s.absolute_expires_at::text,s.reconnect_until::text,s.closed_at::text,s.close_reason,CASE WHEN s.state='conflict' THEN n.head_version_id ELSE NULL END AS conflict_head_version_id FROM filebelt_document.sessions s JOIN filebelt_document.participants p ON p.tenant_id=s.tenant_id AND p.document_session_id=s.id JOIN nodes n ON n.tenant_id=s.tenant_id AND n.drive_id=s.drive_id AND n.id=s.node_id JOIN users u ON u.tenant_id=p.tenant_id AND u.principal_id=p.user_principal_id WHERE s.tenant_id=$1 AND s.id=$2 AND EXISTS (SELECT 1 FROM filebelt_document.participants owner WHERE owner.tenant_id=s.tenant_id AND owner.document_session_id=s.id AND owner.user_principal_id=$3) ORDER BY p.created_at ASC";

pub const REVOKE_DOCUMENT_PARTICIPANT_UPDATE_PARTICIPANTS: &'static str = "UPDATE filebelt_document.participants SET state='revoked',closed_at=clock_timestamp(),close_reason=$4 WHERE tenant_id=$1 AND id=$2 AND user_principal_id=$3 AND state IN ('active','disconnected') RETURNING document_session_id";

pub const REVOKE_DOCUMENT_PARTICIPANT_UPDATE_SESSIONS: &'static str = "UPDATE filebelt_document.sessions s SET state='revoked',fencing_token=fencing_token+1,closed_at=clock_timestamp(),close_reason=$3 WHERE tenant_id=$1 AND id=$2 AND state IN ('active','draining') AND NOT EXISTS (SELECT 1 FROM filebelt_document.participants p WHERE p.tenant_id=s.tenant_id AND p.document_session_id=s.id AND p.state IN ('active','disconnected'))";

pub const FORCE_CLOSE_DOCUMENT_SESSION_SELECT_SESSIONS: &'static str = "SELECT drive_id,node_id FROM filebelt_document.sessions WHERE tenant_id=$1 AND id=$2 AND state IN ('active','draining') FOR UPDATE";

pub const FORCE_CLOSE_DOCUMENT_SESSION_UPDATE_SESSIONS: &'static str = "UPDATE filebelt_document.sessions SET state='revoked',fencing_token=fencing_token+1,closed_at=clock_timestamp(),close_reason=$3 WHERE tenant_id=$1 AND id=$2 AND state IN ('active','draining') RETURNING id";

pub const FORCE_CLOSE_DOCUMENT_SESSION_UPDATE_PARTICIPANTS: &'static str = "UPDATE filebelt_document.participants SET state='closed',closed_at=clock_timestamp(),close_reason=$3 WHERE tenant_id=$1 AND document_session_id=$2 AND state IN ('active','disconnected')";

pub const CREATE_DOCUMENT_CONFLICT_COPY_SELECT_REVISIONS: &'static str = "SELECT r.id,r.payload_id,r.size_bytes,r.blake3,r.media_type,r.reserved_bytes,s.drive_id,s.node_id FROM filebelt_document.revisions r JOIN filebelt_document.sessions s ON s.tenant_id=r.tenant_id AND s.id=r.document_session_id WHERE r.tenant_id=$1 AND r.document_session_id=$2 AND s.created_by=$3 AND r.state='conflict' AND r.payload_id IS NOT NULL AND r.retained_until>clock_timestamp() ORDER BY r.finished_at DESC,r.id DESC FOR UPDATE OF r,s LIMIT 1";

pub const CREATE_DOCUMENT_CONFLICT_COPY_SELECT_NODES: &'static str = "SELECT namespace_generation FROM nodes WHERE tenant_id=$1 AND drive_id=$2 AND id=$3 AND kind='directory' AND trash_root_id IS NULL FOR UPDATE";

pub const CREATE_DOCUMENT_CONFLICT_COPY_INSERT_NODES: &'static str = "INSERT INTO nodes (tenant_id,drive_id,id,parent_id,kind,display_name,name_key,owner_principal_id) VALUES ($1,$2,$3,$4,'file',$5,$6,$7)";

pub const CREATE_DOCUMENT_CONFLICT_COPY_INSERT_NODE_ANCESTRY: &'static str = "INSERT INTO node_ancestry (tenant_id,drive_id,ancestor_id,descendant_id,depth) SELECT tenant_id,drive_id,ancestor_id,$4,depth+1 FROM node_ancestry WHERE tenant_id=$1 AND drive_id=$2 AND descendant_id=$3 UNION ALL SELECT $1,$2,$4,$4,0";

pub const CREATE_DOCUMENT_CONFLICT_COPY_INSERT_FILE_VERSIONS: &'static str = "INSERT INTO file_versions (tenant_id,node_id,id,ordinal,payload_id,size_bytes,blake3,media_type,created_by,origin_kind) VALUES ($1,$2,$3,1,$4,$5,$6,$7,$8,'external_document')";

pub const CREATE_DOCUMENT_CONFLICT_COPY_UPDATE_NODES: &'static str = "UPDATE nodes SET head_version_id=$4,updated_at=clock_timestamp() WHERE tenant_id=$1 AND drive_id=$2 AND id=$3";

pub const CREATE_DOCUMENT_CONFLICT_COPY_UPDATE_PAYLOAD_OBJECTS: &'static str = "UPDATE payload_objects SET state='referenced',referenced_at=clock_timestamp() WHERE tenant_id=$1 AND id=$2 AND state='finalized'";

pub const CREATE_DOCUMENT_CONFLICT_COPY_UPDATE_DRIVES: &'static str = "UPDATE drives SET reserved_bytes=reserved_bytes-$3,used_physical_bytes=used_physical_bytes+$4 WHERE tenant_id=$1 AND id=$2";

pub const DOCUMENT_REVISION_IO_CONTEXT: &'static str = "SELECT r.id,r.document_session_id,r.actor_participant_id,r.kind,r.state,r.expected_head_version_id,r.payload_id,r.reserved_bytes,r.size_bytes,r.blake3,r.media_type,r.committed_version_id,r.retained_until::text,s.id AS session_id,s.session_principal_id,s.drive_id,s.node_id,s.base_version_id,s.expected_head_version_id AS session_expected_head_version_id,s.provider_id,s.state AS session_state,s.fencing_token,s.created_at::text AS session_created_at,s.absolute_expires_at::text AS session_absolute_expires_at,s.reconnect_until::text AS session_reconnect_until,s.close_reason AS session_close_reason,p.id AS participant_id,p.document_session_id AS participant_document_session_id,p.user_principal_id,p.api_session_id,p.mode,p.state AS participant_state,p.last_activity_at::text,p.disconnected_until::text,p.membership_generation,p.drive_acl_generation,p.namespace_generation,p.resource_acl_generation,b.payload_id AS base_payload_id,b.size_bytes AS base_size_bytes FROM filebelt_document.revisions r JOIN filebelt_document.sessions s ON s.tenant_id=r.tenant_id AND s.id=r.document_session_id JOIN filebelt_document.participants p ON p.tenant_id=r.tenant_id AND p.id=r.actor_participant_id JOIN file_versions b ON b.tenant_id=s.tenant_id AND b.node_id=s.node_id AND b.id=s.base_version_id WHERE r.tenant_id=$1 AND r.id=$2";

pub const DOCUMENT_LAUNCH_IO_CONTEXT: &'static str = "SELECT s.id,s.session_principal_id,s.drive_id,s.node_id,s.base_version_id,s.expected_head_version_id,s.provider_id,s.state,s.fencing_token,s.created_at::text,s.absolute_expires_at::text,s.reconnect_until::text,s.close_reason,p.id AS participant_id,p.document_session_id,p.user_principal_id,p.api_session_id,p.mode,p.state AS participant_state,p.last_activity_at::text,p.disconnected_until::text,p.membership_generation,p.drive_acl_generation,p.namespace_generation,p.resource_acl_generation,u.display_name,b.payload_id AS base_payload_id,b.size_bytes AS base_size_bytes,b.media_type AS base_media_type,n.display_name AS source_display_name FROM filebelt_document.sessions s JOIN filebelt_document.participants p ON p.tenant_id=s.tenant_id AND p.document_session_id=s.id JOIN users u ON u.tenant_id=p.tenant_id AND u.principal_id=p.user_principal_id JOIN nodes n ON n.tenant_id=s.tenant_id AND n.drive_id=s.drive_id AND n.id=s.node_id JOIN file_versions b ON b.tenant_id=s.tenant_id AND b.node_id=s.node_id AND b.id=s.base_version_id WHERE s.tenant_id=$1 AND s.id=$2 AND p.id=$3 AND s.state='active' AND p.state='active' AND s.absolute_expires_at>clock_timestamp()";

pub const BEGIN_DOCUMENT_REVISION_SELECT_PARTICIPANTS: &'static str = "SELECT p.user_principal_id,p.api_session_id,p.mode,p.membership_generation,p.drive_acl_generation,p.namespace_generation,p.resource_acl_generation,s.drive_id,s.node_id,s.expected_head_version_id,s.session_principal_id,s.fencing_token FROM filebelt_document.participants p JOIN filebelt_document.sessions s ON s.tenant_id=p.tenant_id AND s.id=p.document_session_id WHERE p.tenant_id=$1 AND p.id=$2 AND p.document_session_id=$3 AND p.state='active' AND s.state='active' AND s.absolute_expires_at>clock_timestamp() FOR UPDATE OF p,s";

pub const BEGIN_DOCUMENT_REVISION_SELECT_REVISIONS: &'static str = "SELECT id,document_session_id,actor_participant_id,kind,state,expected_head_version_id,payload_id,reserved_bytes,size_bytes,blake3,media_type,committed_version_id,retained_until::text FROM filebelt_document.revisions WHERE tenant_id=$1 AND document_session_id=$2 AND provider_event_digest=$3";

pub const BEGIN_DOCUMENT_REVISION_SELECT_PAYLOAD_OBJECTS: &'static str = "SELECT backend_id,locator FROM payload_objects WHERE tenant_id=$1 AND id=$2";

pub const BEGIN_DOCUMENT_REVISION_SELECT_DRIVES: &'static str = "SELECT quota_bytes,used_physical_bytes,reserved_bytes FROM drives WHERE tenant_id=$1 AND id=$2 FOR UPDATE";

pub const BEGIN_DOCUMENT_REVISION_SELECT_STORAGE_BACKENDS: &'static str = "SELECT id FROM storage_backends WHERE tenant_id=$1 AND kind='posix' AND storage_ready=true AND capacity_checked_at>clock_timestamp()-interval '30 seconds'";

pub const BEGIN_DOCUMENT_REVISION_UPDATE_DRIVES: &'static str = "UPDATE drives SET reserved_bytes=reserved_bytes+$3 WHERE tenant_id=$1 AND id=$2";

pub const BEGIN_DOCUMENT_REVISION_INSERT_PAYLOAD_OBJECTS: &'static str = "INSERT INTO payload_objects (tenant_id,id,drive_id,backend_id,locator,layout,state,size_bytes) VALUES ($1,$2,$3,$4,$5,'whole','staging',0)";

pub const BEGIN_DOCUMENT_REVISION_UPDATE_REVISIONS: &'static str = "UPDATE filebelt_document.revisions SET state='staging',payload_id=$3,reserved_bytes=$4,media_type=$5 WHERE tenant_id=$1 AND id=$2 AND state='received' RETURNING id,document_session_id,actor_participant_id,kind,state,expected_head_version_id,payload_id,reserved_bytes,size_bytes,blake3,media_type,committed_version_id,retained_until::text";

pub const BEGIN_DOCUMENT_REVISION_INSERT_REVISIONS: &'static str = "INSERT INTO filebelt_document.revisions (tenant_id,id,document_session_id,actor_participant_id,provider_event_digest,kind,state,expected_head_version_id,payload_id,reserved_bytes,media_type) VALUES ($1,$2,$3,$4,$5,$6,'staging',$7,$8,$9,$10) RETURNING id,document_session_id,actor_participant_id,kind,state,expected_head_version_id,payload_id,reserved_bytes,size_bytes,blake3,media_type,committed_version_id,retained_until::text";

pub const BEGIN_DOCUMENT_REVISION_INSERT_REVISION_CONTRIBUTORS: &'static str = "INSERT INTO filebelt_document.revision_contributors (tenant_id,revision_id,principal_id) VALUES ($1,$2,$3)";

pub const FINALIZE_DOCUMENT_REVISION_SELECT_REVISIONS: &'static str = "SELECT r.id,r.document_session_id,r.actor_participant_id,r.kind,r.state,r.expected_head_version_id,r.payload_id,r.reserved_bytes,r.size_bytes,r.blake3,r.media_type,r.committed_version_id,r.retained_until::text,s.fencing_token,s.state AS session_state,s.absolute_expires_at>clock_timestamp() AS session_unexpired,s.drive_id,s.node_id,p.user_principal_id,p.api_session_id,p.membership_generation,p.drive_acl_generation,p.namespace_generation,p.resource_acl_generation FROM filebelt_document.revisions r JOIN filebelt_document.sessions s ON s.tenant_id=r.tenant_id AND s.id=r.document_session_id JOIN filebelt_document.participants p ON p.tenant_id=r.tenant_id AND p.id=r.actor_participant_id WHERE r.tenant_id=$1 AND r.id=$2 FOR UPDATE OF r,s,p";

pub const FINALIZE_DOCUMENT_REVISION_UPDATE_PAYLOAD_OBJECTS: &'static str = "UPDATE payload_objects SET state='finalized',size_bytes=$3,blake3=$4,finalized_at=clock_timestamp() WHERE tenant_id=$1 AND id=$2 AND state='staging'";

pub const FINALIZE_DOCUMENT_REVISION_UPDATE_REVISIONS: &'static str = "UPDATE filebelt_document.revisions SET state='failed',conflict_reason='checkpoint_superseded',retained_until=LEAST(COALESCE(retained_until,clock_timestamp()+interval '1 day'),clock_timestamp()+interval '1 day'),finished_at=clock_timestamp() WHERE tenant_id=$1 AND document_session_id=$2 AND id<>$3 AND state='checkpoint'";

pub const FINALIZE_DOCUMENT_REVISION_UPDATE_REVISIONS_2: &'static str = "UPDATE filebelt_document.revisions SET state=$3,size_bytes=$4,blake3=$5,media_type=$6,staged_at=clock_timestamp(),retained_until=CASE WHEN $3='checkpoint' THEN clock_timestamp()+interval '1 day' ELSE NULL END WHERE tenant_id=$1 AND id=$2 RETURNING id,document_session_id,actor_participant_id,kind,state,expected_head_version_id,payload_id,reserved_bytes,size_bytes,blake3,media_type,committed_version_id,retained_until::text";

pub const FINALIZE_DOCUMENT_REVISION_INSERT_RECONCILIATION_JOBS: &'static str = "INSERT INTO filebelt_document.reconciliation_jobs (tenant_id,revision_id) VALUES ($1,$2) ON CONFLICT (tenant_id,revision_id) DO NOTHING";

pub const COMMIT_DOCUMENT_REVISION_SELECT_REVISIONS: &'static str = "SELECT r.id,r.document_session_id,r.actor_participant_id,r.kind,r.state,r.expected_head_version_id,r.payload_id,r.reserved_bytes,r.size_bytes,r.blake3,r.media_type,r.committed_version_id,r.retained_until::text,s.session_principal_id,s.drive_id,s.node_id,s.fencing_token,s.state AS session_state,s.absolute_expires_at>clock_timestamp() AS session_unexpired,p.user_principal_id,p.api_session_id,p.mode,p.membership_generation,p.drive_acl_generation,p.namespace_generation,p.resource_acl_generation FROM filebelt_document.revisions r JOIN filebelt_document.sessions s ON s.tenant_id=r.tenant_id AND s.id=r.document_session_id JOIN filebelt_document.participants p ON p.tenant_id=r.tenant_id AND p.id=r.actor_participant_id WHERE r.tenant_id=$1 AND r.id=$2 FOR UPDATE OF r,s,p";

pub const COMMIT_DOCUMENT_REVISION_SELECT_NODES: &'static str = "SELECT n.head_version_id,v.size_bytes,v.blake3,v.ordinal FROM nodes n LEFT JOIN file_versions v ON v.tenant_id=n.tenant_id AND v.node_id=n.id AND v.id=n.head_version_id WHERE n.tenant_id=$1 AND n.drive_id=$2 AND n.id=$3 FOR UPDATE OF n";

pub const COMMIT_DOCUMENT_REVISION_UPDATE_REVISIONS: &'static str = "UPDATE filebelt_document.revisions SET state='no_op',finished_at=clock_timestamp(),retained_until=clock_timestamp()+interval '1 day' WHERE tenant_id=$1 AND id=$2";

pub const COMMIT_DOCUMENT_REVISION_UPDATE_RECONCILIATION_JOBS: &'static str = "UPDATE filebelt_document.reconciliation_jobs SET state='complete',updated_at=clock_timestamp() WHERE tenant_id=$1 AND revision_id=$2";

pub const COMMIT_DOCUMENT_REVISION_INSERT_FILE_VERSIONS: &'static str = "INSERT INTO file_versions (tenant_id,node_id,id,ordinal,payload_id,size_bytes,blake3,media_type,created_by,origin_kind) VALUES ($1,$2,$3,$4,$5,$6,$7,$8,$9,'external_document')";

pub const COMMIT_DOCUMENT_REVISION_UPDATE_REVISIONS_2: &'static str = "UPDATE filebelt_document.revisions SET state='committed',committed_version_id=$3,finished_at=clock_timestamp(),retained_until=NULL WHERE tenant_id=$1 AND id=$2";

pub const COMMIT_DOCUMENT_REVISION_UPDATE_SESSIONS: &'static str = "UPDATE filebelt_document.sessions SET expected_head_version_id=$3,state=CASE WHEN $4 THEN 'committed' ELSE state END,closed_at=CASE WHEN $4 THEN clock_timestamp() ELSE closed_at END,close_reason=CASE WHEN $4 THEN 'final_save' ELSE close_reason END WHERE tenant_id=$1 AND id=$2";

pub const COMMIT_DOCUMENT_REVISION_UPDATE_SESSIONS_2: &'static str = "UPDATE filebelt_document.sessions SET state='conflict',fencing_token=fencing_token+1,closed_at=clock_timestamp(),close_reason='external_head' WHERE tenant_id=$1 AND drive_id=$2 AND node_id=$3 AND id<>$4 AND state IN ('active','draining')";

pub const COMMIT_DOCUMENT_REVISION_UPDATE_EPOCHS: &'static str = "UPDATE filebelt_collaboration.epochs e SET state='frozen',freeze_reason='external_head',fencing_token=fencing_token+1 FROM filebelt_collaboration.rooms r WHERE r.tenant_id=$1 AND r.drive_id=$2 AND r.node_id=$3 AND e.tenant_id=r.tenant_id AND e.room_id=r.id AND e.epoch=r.current_epoch AND e.state='active'";

pub const REJECT_DOCUMENT_REVISION_FOR_AUTHORIZATION_CHANGE_SELECT_REVISIONS: &'static str = "SELECT r.id,r.document_session_id,r.actor_participant_id,r.state,r.payload_id,r.reserved_bytes,s.drive_id,s.node_id,s.state AS session_state,s.absolute_expires_at>clock_timestamp() AS session_unexpired,p.user_principal_id,p.api_session_id,p.membership_generation,p.drive_acl_generation,p.namespace_generation,p.resource_acl_generation FROM filebelt_document.revisions r JOIN filebelt_document.sessions s ON s.tenant_id=r.tenant_id AND s.id=r.document_session_id JOIN filebelt_document.participants p ON p.tenant_id=r.tenant_id AND p.id=r.actor_participant_id WHERE r.tenant_id=$1 AND r.id=$2 FOR UPDATE OF r,s,p";

pub const REJECT_DOCUMENT_REVISION_FOR_AUTHORIZATION_CHANGE_UPDATE_REVISIONS: &'static str = "UPDATE filebelt_document.revisions SET state='rejected',conflict_reason='authorization_changed',finished_at=clock_timestamp(),retained_until=LEAST(created_at+interval '7 days',clock_timestamp()+interval '1 day') WHERE tenant_id=$1 AND id=$2 AND state IN ('staging','staged','committing')";

pub const REJECT_DOCUMENT_REVISION_FOR_AUTHORIZATION_CHANGE_UPDATE_RECONCILIATION_JOBS: &'static str = "UPDATE filebelt_document.reconciliation_jobs SET state='terminal',last_error_code='authorization_changed',lease_owner=NULL,lease_expires_at=NULL,updated_at=clock_timestamp() WHERE tenant_id=$1 AND revision_id=$2";

pub const REJECT_DOCUMENT_REVISION_FOR_AUTHORIZATION_CHANGE_UPDATE_PARTICIPANTS: &'static str = "UPDATE filebelt_document.participants SET state='revoked',closed_at=clock_timestamp(),close_reason='authorization_changed' WHERE tenant_id=$1 AND document_session_id=$2 AND state IN ('active','disconnected')";

pub const REJECT_DOCUMENT_REVISION_FOR_AUTHORIZATION_CHANGE_UPDATE_SESSIONS: &'static str = "UPDATE filebelt_document.sessions SET state='revoked',fencing_token=fencing_token+1,closed_at=clock_timestamp(),close_reason='authorization_changed' WHERE tenant_id=$1 AND id=$2 AND state IN ('active','draining')";

pub const DOCUMENT_REVISION_RETENTION_SWEEP_SELECT_REVISIONS: &'static str = "SELECT r.id,r.payload_id,r.reserved_bytes,s.drive_id FROM filebelt_document.revisions r JOIN filebelt_document.sessions s ON s.tenant_id=r.tenant_id AND s.id=r.document_session_id WHERE r.tenant_id=$1 AND r.state IN ('received','staging') AND (s.state NOT IN ('active','draining') OR s.absolute_expires_at<=clock_timestamp()) ORDER BY r.created_at,r.id LIMIT $2 FOR UPDATE OF r,s SKIP LOCKED";

pub const DOCUMENT_REVISION_RETENTION_SWEEP_UPDATE_PAYLOAD_OBJECTS: &'static str = "UPDATE payload_objects SET state='delete_intent',deletion_intent_at=clock_timestamp() WHERE tenant_id=$1 AND id=$2 AND state='staging'";

pub const DOCUMENT_REVISION_RETENTION_SWEEP_UPDATE_DRIVES: &'static str = "UPDATE drives SET reserved_bytes=reserved_bytes-$3 WHERE tenant_id=$1 AND id=$2 AND reserved_bytes>=$3";

pub const DOCUMENT_REVISION_RETENTION_SWEEP_UPDATE_REVISIONS: &'static str = "UPDATE filebelt_document.revisions SET state='failed',conflict_reason='document_session_expired_before_finalize',finished_at=clock_timestamp(),retained_until=LEAST(created_at+interval '7 days',clock_timestamp()+interval '1 day') WHERE tenant_id=$1 AND id=$2 AND state='staging'";

pub const DOCUMENT_REVISION_RETENTION_SWEEP_INSERT_JOBS: &'static str = "INSERT INTO public.jobs (tenant_id,id,kind,state,priority,aggregate_id,idempotency_key,payload) VALUES ($1,$2,'payload_delete','queued',80,$3,$4,$5) ON CONFLICT DO NOTHING";

pub const DOCUMENT_REVISION_RETENTION_SWEEP_UPDATE_REVISIONS_2: &'static str = "UPDATE filebelt_document.revisions SET state='failed',conflict_reason='document_session_expired_before_output',finished_at=clock_timestamp(),retained_until=LEAST(created_at+interval '7 days',clock_timestamp()+interval '1 day') WHERE tenant_id=$1 AND id=$2 AND state='received'";

pub const DOCUMENT_REVISION_RETENTION_SWEEP_SELECT_REVISIONS_2: &'static str = "SELECT r.id,r.payload_id,r.reserved_bytes,s.drive_id FROM filebelt_document.revisions r JOIN filebelt_document.sessions s ON s.tenant_id=r.tenant_id AND s.id=r.document_session_id JOIN payload_objects p ON p.tenant_id=r.tenant_id AND p.id=r.payload_id WHERE r.tenant_id=$1 AND r.state IN ('checkpoint','conflict','rejected','failed','no_op') AND r.retained_until<=clock_timestamp() AND r.payload_id IS NOT NULL AND p.state='finalized' ORDER BY r.retained_until,r.id LIMIT $2 FOR UPDATE OF r,s,p SKIP LOCKED";

pub const DOCUMENT_REVISION_RETENTION_SWEEP_UPDATE_REVISIONS_3: &'static str = "UPDATE filebelt_document.revisions SET state='failed',conflict_reason=COALESCE(conflict_reason,'document_retention_expired'),finished_at=COALESCE(finished_at,clock_timestamp()),retained_until=NULL WHERE tenant_id=$1 AND id=$2 AND state IN ('checkpoint','conflict','rejected','failed','no_op')";

pub const DOCUMENT_RECONNECT_SWEEP_UPDATE_PARTICIPANTS: &'static str = "UPDATE filebelt_document.participants SET state='closed',closed_at=clock_timestamp(),close_reason='reconnect_deadline_elapsed' WHERE (tenant_id,id) IN (SELECT p.tenant_id,p.id FROM filebelt_document.participants p JOIN filebelt_document.sessions s ON s.tenant_id=p.tenant_id AND s.id=p.document_session_id WHERE p.tenant_id=$1 AND p.state='disconnected' AND (p.disconnected_until<=clock_timestamp() OR (s.state='draining' AND s.reconnect_until<=clock_timestamp())) ORDER BY p.disconnected_until,p.id LIMIT $2 FOR UPDATE OF p,s SKIP LOCKED)";

pub const DOCUMENT_RECONNECT_SWEEP_UPDATE_SESSIONS: &'static str = "UPDATE filebelt_document.sessions SET state='expired',fencing_token=fencing_token+1,closed_at=clock_timestamp(),close_reason='reconnect_deadline_elapsed' WHERE (tenant_id,id) IN (SELECT s.tenant_id,s.id FROM filebelt_document.sessions s WHERE s.tenant_id=$1 AND s.state='draining' AND s.reconnect_until<=clock_timestamp() AND NOT EXISTS (SELECT 1 FROM filebelt_document.participants p WHERE p.tenant_id=s.tenant_id AND p.document_session_id=s.id AND p.state IN ('active','disconnected')) ORDER BY s.reconnect_until,s.id LIMIT $2 FOR UPDATE OF s SKIP LOCKED)";

pub const DOCUMENT_FINALIZED_STAGING_LOCATORS: &'static str = "SELECT DISTINCT p.locator FROM filebelt_document.revisions r JOIN payload_objects p ON p.tenant_id=r.tenant_id AND p.id=r.payload_id WHERE r.tenant_id=$1 AND p.backend_id=$2 AND p.state IN ('finalized','referenced') AND r.state IN ('staged','committing','checkpoint','committed','no_op','conflict','failed','rejected') ORDER BY p.locator LIMIT $3";

pub const DOCUMENT_PAYLOAD_DELETION_PENDING: &'static str = "SELECT EXISTS (SELECT 1 FROM filebelt_document.revisions r JOIN payload_objects p ON p.tenant_id=r.tenant_id AND p.id=r.payload_id WHERE r.tenant_id=$1 AND r.payload_id=$2 AND r.state IN ('failed','no_op') AND p.state IN ('delete_intent','deleting','abandoned'))";

pub const COMPLETE_DOCUMENT_PAYLOAD_DELETION_SELECT_PAYLOAD_OBJECTS: &'static str = "SELECT p.state FROM payload_objects p WHERE p.tenant_id=$1 AND p.id=$2 AND EXISTS (SELECT 1 FROM filebelt_document.revisions r WHERE r.tenant_id=p.tenant_id AND r.payload_id=p.id AND r.state IN ('failed','no_op')) FOR UPDATE OF p";

pub const COMPLETE_DOCUMENT_PAYLOAD_DELETION_UPDATE_PAYLOAD_OBJECTS: &'static str = "UPDATE payload_objects SET state='deleted' WHERE tenant_id=$1 AND id=$2 AND state IN ('deleting','abandoned')";

pub const DOCUMENT_OPERATION_REPLAY_SELECT_ADVISORY_LOCK: &'static str = "SELECT pg_advisory_xact_lock(hashtextextended(encode($1,'hex') || ':' || $2::text, 0))";

pub const DOCUMENT_OPERATION_REPLAY_SELECT_OPERATION_RECEIPTS: &'static str = "SELECT request_fingerprint,command_kind,response FROM filebelt_document.operation_receipts WHERE tenant_id=$1 AND operation_digest=$2 FOR UPDATE";

pub const DOCUMENT_OPERATION_RECORD: &'static str = "INSERT INTO filebelt_document.operation_receipts (tenant_id,operation_digest,request_fingerprint,command_kind,response) VALUES ($1,$2,$3,$4,$5) ON CONFLICT DO NOTHING";

pub const BOUNDED_DOCUMENT_METADATA_DELETE_DELETE_LAUNCH_GRANTS: &'static str = "DELETE FROM filebelt_document.launch_grants WHERE ctid IN (SELECT g.ctid FROM filebelt_document.launch_grants g WHERE g.tenant_id=$1 AND (g.expires_at<=clock_timestamp() OR g.consumed_at IS NOT NULL) AND NOT (g.consumed_at IS NOT NULL AND EXISTS (SELECT 1 FROM filebelt_document.participants p WHERE p.tenant_id=g.tenant_id AND p.id=g.participant_id AND p.state IN ('active','disconnected'))) ORDER BY g.expires_at,g.id LIMIT $2 FOR UPDATE OF g SKIP LOCKED)";

pub const BOUNDED_DOCUMENT_METADATA_DELETE_DELETE_SESSION_EVENTS: &'static str = "DELETE FROM filebelt_document.session_events WHERE ctid IN (SELECT ctid FROM filebelt_document.session_events WHERE tenant_id=$1 AND purge_after<=clock_timestamp() ORDER BY purge_after,id LIMIT $2 FOR UPDATE SKIP LOCKED)";

pub const BOUNDED_DOCUMENT_METADATA_DELETE_DELETE_OPERATION_RECEIPTS: &'static str = "DELETE FROM filebelt_document.operation_receipts WHERE ctid IN (SELECT ctid FROM filebelt_document.operation_receipts WHERE tenant_id=$1 AND expires_at<=clock_timestamp() ORDER BY expires_at,operation_digest LIMIT $2 FOR UPDATE SKIP LOCKED)";

pub const MARK_DOCUMENT_CONFLICT_UPDATE_REVISIONS: &'static str = "UPDATE filebelt_document.revisions SET state='conflict',conflict_reason=$3,retained_until=clock_timestamp()+interval '7 days',finished_at=clock_timestamp() WHERE tenant_id=$1 AND id=$2 RETURNING retained_until::text";

pub const MARK_DOCUMENT_CONFLICT_UPDATE_SESSIONS: &'static str = "UPDATE filebelt_document.sessions SET state='conflict',fencing_token=fencing_token+1,closed_at=clock_timestamp(),close_reason=$3 WHERE tenant_id=$1 AND id=$2 AND state IN ('active','draining')";

pub const LOCK_DOCUMENT_AUTHORIZATION_FENCE: &'static str = "SELECT 1 FROM authorization_generations WHERE tenant_id=$1 AND session_id=$2 AND principal_id=$3 AND drive_id=$4 AND resource_id=$5 AND membership_generation=$6 AND drive_acl_generation=$7 AND namespace_generation=$8 AND resource_acl_generation=$9 AND session_expires_at>clock_timestamp() FOR SHARE";

pub const RELEASE_DOCUMENT_PAYLOAD_UPDATE_PAYLOAD_OBJECTS: &'static str = "UPDATE payload_objects SET state='delete_intent',deletion_intent_at=clock_timestamp() WHERE tenant_id=$1 AND id=$2 AND state IN ('staging','finalized')";

} // verus!
