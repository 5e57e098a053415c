//! Statements on tenants, identities, drives, access control, uploads and jobs.

use vstd::prelude::*;

verus! {

pub const HEALTH: &'static str = "SELECT 1";

pub const PHASE8_IS_ACTIVE: &'static str = "SELECT EXISTS (SELECT 1 FROM filebelt_phase8.activation_state WHERE tenant_id=$1 AND state='active')";

pub const BOOTSTRAP_TENANT_SELECT_TENANTS: &'static str = "SELECT id FROM tenants WHERE slug = $1 FOR UPDATE";

pub const BOOTSTRAP_TENANT_INSERT_TENANTS: &'static str = "INSERT INTO tenants (id,slug) VALUES ($1,$2) ON CONFLICT (slug) DO NOTHING";

pub const BOOTSTRAP_TENANT_SELECT_STORAGE_BACKENDS: &'static str = "SELECT id FROM storage_backends WHERE tenant_id=$1 AND kind='posix' FOR UPDATE";

pub const BOOTSTRAP_TENANT_INSERT_STORAGE_BACKENDS: &'static str = "INSERT INTO storage_backends (tenant_id,id) VALUES ($1,$2) ON CONFLICT (tenant_id,kind) DO NOTHING";

pub const BOOTSTRAP_TENANT_INSERT_TENANT_ADMIN_BINDINGS: &'static str = "INSERT INTO tenant_admin_bindings (tenant_id,issuer,subject) VALUES ($1,$2,$3) ON CONFLICT DO NOTHING";

pub const TENANT_BY_SLUG: &'static str = "SELECT id FROM tenants WHERE slug = $1";

pub const REPORT_STORAGE_CAPACITY: &'static str = "UPDATE storage_backends SET capacity_total_bytes=$3,capacity_free_bytes=$4,capacity_checked_at=clock_timestamp(),storage_ready=$5 WHERE tenant_id=$1 AND id=$2 AND kind='posix'";

pub const MARK_STORAGE_UNREADY: &'static str = "UPDATE storage_backends SET storage_ready=false,capacity_checked_at=clock_timestamp() WHERE tenant_id=$1 AND id=$2 AND kind='posix'";

pub const LINK_OIDC_IDENTITY_SELECT_EXTERNAL_IDENTITIES: &'static str = "SELECT ei.user_id,u.principal_id,u.status FROM external_identities ei JOIN users u ON u.tenant_id=ei.tenant_id AND u.id=ei.user_id WHERE ei.tenant_id=$1 AND ei.issuer=$2 AND ei.subject=$3 FOR UPDATE OF ei,u";

pub const LINK_OIDC_IDENTITY_UPDATE_EXTERNAL_IDENTITIES: &'static str = "UPDATE external_identities SET last_seen_at=clock_timestamp(),claims_snapshot=$4 WHERE tenant_id=$1 AND issuer=$2 AND subject=$3";

pub const LINK_OIDC_IDENTITY_UPDATE_USERS: &'static str = "UPDATE users SET display_name=$3,verified_email=$4,updated_at=clock_timestamp() WHERE tenant_id=$1 AND id=$2";

pub const LINK_OIDC_IDENTITY_INSERT_PRINCIPALS: &'static str = "INSERT INTO principals (tenant_id,id,kind) VALUES ($1,$2,'user')";

pub const LINK_OIDC_IDENTITY_INSERT_USERS: &'static str = "INSERT INTO users (tenant_id,id,principal_id,display_name,verified_email) VALUES ($1,$2,$3,$4,$5)";

pub const LINK_OIDC_IDENTITY_INSERT_EXTERNAL_IDENTITIES: &'static str = "INSERT INTO external_identities (tenant_id,id,user_id,issuer,subject,claims_snapshot) VALUES ($1,$2,$3,$4,$5,$6)";

pub const LINK_OIDC_IDENTITY_INSERT_USER_PREFERENCES: &'static str = "INSERT INTO user_preferences (tenant_id,user_id) VALUES ($1,$2)";

pub const LINK_OIDC_IDENTITY_INSERT_DRIVES: &'static str = "INSERT INTO drives (tenant_id,id,owner_principal_id,kind,display_name,quota_bytes) VALUES ($1,$2,$3,'private','My Drive',$4)";

pub const LINK_OIDC_IDENTITY_INSERT_NODES: &'static str = "INSERT INTO nodes (tenant_id,drive_id,id,parent_id,kind,display_name,name_key,owner_principal_id) VALUES ($1,$2,$3,NULL,'directory','','',$4)";

pub const LINK_OIDC_IDENTITY_INSERT_NODE_ANCESTRY: &'static str = "INSERT INTO node_ancestry (tenant_id,drive_id,ancestor_id,descendant_id,depth) VALUES ($1,$2,$3,$3,0)";

pub const CREATE_SESSION: &'static str = "INSERT INTO api_sessions (tenant_id,id,user_id,principal_id,token_key_generation,token_digest,csrf_digest,idle_expires_at,absolute_expires_at,user_agent) VALUES ($1,$2,$3,$4,$5,$6,$7,clock_timestamp()+make_interval(secs=>$8),clock_timestamp()+make_interval(secs=>$9),$10)";

pub const CREATE_OIDC_ATTEMPT_SELECT_TENANTS: &'static str = "SELECT id FROM tenants WHERE id=$1 FOR UPDATE";

pub const CREATE_OIDC_ATTEMPT_DELETE_OIDC_LOGIN_ATTEMPTS: &'static str = "DELETE FROM oidc_login_attempts WHERE tenant_id=$1 AND (expires_at<=clock_timestamp() OR consumed_at IS NOT NULL)";

pub const CREATE_OIDC_ATTEMPT_COUNT_OIDC_LOGIN_ATTEMPTS: &'static str = "SELECT count(*) FROM oidc_login_attempts WHERE tenant_id=$1";

pub const CREATE_OIDC_ATTEMPT_INSERT_OIDC_LOGIN_ATTEMPTS: &'static str = "INSERT INTO oidc_login_attempts (tenant_id,id,state_digest,nonce_digest,pkce_verifier_digest,nonce_secret,pkce_verifier_secret,return_path,session_id,expires_at) VALUES ($1,$2,$3,$4,$5,$6,$7,$8,$9,clock_timestamp()+interval '10 minutes')";

pub const CONSUME_OIDC_ATTEMPT: &'static str = "WITH selected AS (SELECT id,nonce_secret,pkce_verifier_secret,return_path,session_id FROM oidc_login_attempts WHERE tenant_id=$1 AND state_digest=$2 AND consumed_at IS NULL AND expires_at>clock_timestamp() FOR UPDATE), consumed AS (UPDATE oidc_login_attempts a SET consumed_at=clock_timestamp(),nonce_secret='',pkce_verifier_secret='' FROM selected s WHERE a.tenant_id=$1 AND a.id=s.id RETURNING a.id) SELECT s.nonce_secret,s.pkce_verifier_secret,s.return_path,s.session_id FROM selected s JOIN consumed c USING (id)";

pub const RESOLVE_SESSION_UPDATE_API_SESSIONS: &'static str = "UPDATE api_sessions s SET last_seen_at=clock_timestamp(),idle_expires_at=LEAST(s.absolute_expires_at,clock_timestamp()+make_interval(secs=>$4)) FROM users u WHERE s.tenant_id=$1 AND s.token_key_generation=$2 AND s.token_digest=$3 AND s.revoked_at IS NULL AND s.idle_expires_at>clock_timestamp() AND s.absolute_expires_at>clock_timestamp() AND u.tenant_id=s.tenant_id AND u.id=s.user_id AND u.status='active' RETURNING s.id,s.user_id,s.principal_id,s.csrf_digest,u.display_name,u.verified_email,(s.reauthenticated_at>clock_timestamp()-interval '10 minutes') AS fresh";

pub const RESOLVE_SESSION_EXISTS_EXTERNAL_IDENTITIES: &'static str = "SELECT EXISTS (SELECT 1 FROM external_identities ei JOIN tenant_admin_bindings a ON a.tenant_id=ei.tenant_id AND a.issuer=ei.issuer AND a.subject=ei.subject JOIN users u ON u.tenant_id=ei.tenant_id AND u.id=ei.user_id WHERE ei.tenant_id=$1 AND u.principal_id=$2)";

pub const REVOKE_SESSION: &'static str = "UPDATE api_sessions SET revoked_at=clock_timestamp() WHERE tenant_id=$1 AND id=$2 AND revoked_at IS NULL RETURNING principal_id";

pub const LIST_SESSIONS: &'static str = "SELECT id,created_at::text,last_seen_at::text,idle_expires_at::text,absolute_expires_at::text,(revoked_at IS NOT NULL) AS revoked,user_agent FROM api_sessions WHERE tenant_id=$1 AND user_id=$2 ORDER BY created_at DESC";

pub const REVOKE_ALL_SESSIONS: &'static str = "UPDATE api_sessions SET revoked_at=clock_timestamp() WHERE tenant_id=$1 AND user_id=$2 AND revoked_at IS NULL AND ($3::uuid IS NULL OR id<>$3) RETURNING id";

pub const IDEMPOTENCY_RECORD: &'static str = "SELECT request_fingerprint,response_status,response_body FROM idempotency_records WHERE tenant_id=$1 AND principal_id=$2 AND route=$3 AND key=$4 AND expires_at>clock_timestamp()";

pub const STORE_IDEMPOTENCY_RESPONSE: &'static str = "WITH inserted AS (INSERT INTO idempotency_records (tenant_id,principal_id,route,key,request_fingerprint,response_status,response_body) VALUES ($1,$2,$3,$4,$5,$6,$7) ON CONFLICT DO NOTHING RETURNING request_fingerprint,response_status,response_body) SELECT request_fingerprint,response_status,response_body FROM inserted UNION ALL SELECT request_fingerprint,response_status,response_body FROM idempotency_records WHERE tenant_id=$1 AND principal_id=$2 AND route=$3 AND key=$4 LIMIT 1";

pub const LIST_DRIVES: &'static str = "SELECT d.*,n.id AS root_id,COALESCE(u.display_name,g.display_name,d.owner_principal_id::text) AS owner_display_name FROM drives d JOIN nodes n ON n.tenant_id=d.tenant_id AND n.drive_id=d.id AND n.parent_id IS NULL LEFT JOIN users u ON u.tenant_id=d.tenant_id AND u.principal_id=d.owner_principal_id LEFT JOIN groups g ON g.tenant_id=d.tenant_id AND g.principal_id=d.owner_principal_id WHERE d.tenant_id=$1 AND (d.owner_principal_id=$2 OR d.owner_principal_id IN (SELECT g.principal_id FROM group_memberships m JOIN groups g ON g.tenant_id=m.tenant_id AND g.id=m.group_id WHERE m.tenant_id=$1 AND m.user_principal_id=$2) OR EXISTS (SELECT 1 FROM acl_entries a WHERE a.tenant_id=d.tenant_id AND a.drive_id=d.id AND a.effect='allow' AND a.action='READ_METADATA' AND (a.principal_id=$2 OR a.principal_id IN (SELECT g.principal_id FROM group_memberships m JOIN groups g ON g.tenant_id=m.tenant_id AND g.id=m.group_id WHERE m.tenant_id=$1 AND m.user_principal_id=$2)))) ORDER BY d.kind,d.display_name";

pub const NODE: &'static str = "SELECT n.*,n.updated_at::text AS updated_at_text,v.size_bytes,v.ordinal AS version_ordinal,v.media_type AS head_media_type FROM nodes n LEFT JOIN file_versions v ON v.tenant_id=n.tenant_id AND v.node_id=n.id AND v.id=n.head_version_id WHERE n.tenant_id=$1 AND n.drive_id=$2 AND n.id=$3";

pub const LIST_CHILDREN: &'static str = "SELECT n.*,n.updated_at::text AS updated_at_text,v.size_bytes,v.ordinal AS version_ordinal,v.media_type AS head_media_type FROM nodes n LEFT JOIN file_versions v ON v.tenant_id=n.tenant_id AND v.node_id=n.id AND v.id=n.head_version_id WHERE n.tenant_id=$1 AND n.drive_id=$2 AND n.parent_id=$3 AND n.trash_root_id IS NULL ORDER BY n.kind DESC,n.name_key,n.id";

pub const LIST_TRASHED_NODES: &'static str = "SELECT n.*,n.updated_at::text AS updated_at_text,v.size_bytes,v.ordinal AS version_ordinal,v.media_type AS head_media_type FROM nodes n LEFT JOIN file_versions v ON v.tenant_id=n.tenant_id AND v.node_id=n.id AND v.id=n.head_version_id WHERE n.tenant_id=$1 AND n.drive_id=$2 AND n.trash_root_id=n.id ORDER BY n.kind DESC,n.name_key,n.id";

pub const LIST_SHARED_NODES: &'static str = "SELECT DISTINCT n.*,n.updated_at::text AS updated_at_text,v.size_bytes,v.ordinal AS version_ordinal,v.media_type AS head_media_type FROM nodes n JOIN node_ancestry na ON na.tenant_id=n.tenant_id AND na.drive_id=n.drive_id AND na.descendant_id=n.id JOIN acl_entries a ON a.tenant_id=na.tenant_id AND a.drive_id=na.drive_id AND a.resource_id=na.ancestor_id LEFT JOIN file_versions v ON v.tenant_id=n.tenant_id AND v.node_id=n.id AND v.id=n.head_version_id WHERE n.tenant_id=$1 AND n.trash_root_id IS NULL AND a.effect='allow' AND a.action='READ_METADATA' AND (a.principal_id=$2 OR a.principal_id IN (SELECT g.principal_id FROM group_memberships m JOIN groups g ON g.tenant_id=m.tenant_id AND g.id=m.group_id WHERE m.tenant_id=$1 AND m.user_principal_id=$2)) AND ((na.depth=0 AND a.inheritance IN ('self','self_and_descendants')) OR (na.depth>0 AND a.inheritance IN ('descendants','self_and_descendants'))) ORDER BY n.kind DESC,n.name_key,n.id";

pub const LIST_FILE_VERSIONS: &'static str = "SELECT v.id,v.node_id,v.ordinal,v.size_bytes,v.created_by,v.restored_from_version_id,v.created_at::text,(n.head_version_id=v.id) AS current,v.media_type,v.origin_kind,v.source_version_id,v.creator_display_name,v.mcp_assisted FROM nodes n JOIN file_versions v ON v.tenant_id=n.tenant_id AND v.node_id=n.id WHERE n.tenant_id=$1 AND n.drive_id=$2 AND n.id=$3 AND n.kind='file' ORDER BY v.ordinal DESC,v.id";

pub const LIST_DIRECT_SHARES: &'static str = "SELECT s.target_principal_id,u.display_name,u.verified_email,s.preset,s.inheritance,s.created_at::text FROM direct_shares s JOIN nodes n ON n.tenant_id=s.tenant_id AND n.drive_id=s.drive_id AND n.id=s.resource_id JOIN users u ON u.tenant_id=s.tenant_id AND u.principal_id=s.target_principal_id WHERE s.tenant_id=$1 AND s.drive_id=$2 AND s.resource_id=$3 AND s.revoked_at IS NULL ORDER BY lower(u.verified_email),s.id";

pub const LIST_ADVANCED_ACL_ENTRIES: &'static str = "SELECT a.principal_id,p.kind AS principal_kind, COALESCE(u.display_name,g.display_name,a.principal_id::text) AS display_name, u.verified_email,a.action,a.effect,a.inheritance, CASE WHEN a.direct_share_id IS NULL THEN 'advanced' ELSE 'share' END AS source FROM acl_entries a JOIN principals p ON p.tenant_id=a.tenant_id AND p.id=a.principal_id LEFT JOIN users u ON u.tenant_id=p.tenant_id AND u.principal_id=p.id LEFT JOIN groups g ON g.tenant_id=p.tenant_id AND g.principal_id=p.id WHERE a.tenant_id=$1 AND a.drive_id=$2 AND a.resource_id=$3 ORDER BY p.kind,lower(COALESCE(u.display_name,g.display_name,a.principal_id::text)), a.principal_id,a.action,a.inheritance,a.effect";

pub const REPLACE_ADVANCED_ACL_ENTRIES_SELECT_DRIVES: &'static str = "SELECT owner_principal_id FROM drives WHERE tenant_id=$1 AND id=$2";

pub const REPLACE_ADVANCED_ACL_ENTRIES_DELETE_ACL_ENTRIES: &'static str = "DELETE FROM acl_entries WHERE tenant_id=$1 AND drive_id=$2 AND resource_id=$3 AND principal_id=$4 AND direct_share_id IS NULL";

pub const REPLACE_ADVANCED_ACL_ENTRIES_INSERT_ACL_ENTRIES: &'static str = "INSERT INTO acl_entries (tenant_id,drive_id,resource_id,id,principal_id,action,effect,inheritance,created_by,generation) VALUES ($1,$2,$3,$4,$5,$6,$7,$8,$9,1)";

pub const REPLACE_ADVANCED_ACL_ENTRIES_SELECT_NODES: &'static str = "SELECT acl_generation FROM nodes WHERE tenant_id=$1 AND drive_id=$2 AND id=$3";

pub const RESTORE_FILE_VERSION_SELECT_NODES: &'static str = "SELECT v.payload_id,v.size_bytes,v.blake3,v.media_type,n.head_version_id FROM nodes n JOIN file_versions v ON v.tenant_id=n.tenant_id AND v.node_id=n.id WHERE n.tenant_id=$1 AND n.drive_id=$2 AND n.id=$3 AND n.kind='file' AND n.trash_root_id IS NULL AND v.id=$4 FOR UPDATE OF n";

pub const RESTORE_FILE_VERSION_SELECT_FILE_VERSIONS: &'static str = "SELECT COALESCE(max(ordinal),0)+1 FROM file_versions WHERE tenant_id=$1 AND node_id=$2";

pub const RESTORE_FILE_VERSION_INSERT_FILE_VERSIONS: &'static str = "INSERT INTO file_versions (tenant_id,node_id,id,ordinal,payload_id,size_bytes,blake3,media_type,created_by,restored_from_version_id,origin_kind,source_version_id,creator_display_name) SELECT $1,$2,$3,$4,$5,$6,$7,$8,$9,$10,'restore',$10,u.display_name FROM api_sessions s JOIN users u ON u.tenant_id=s.tenant_id AND u.id=s.user_id WHERE s.tenant_id=$1 AND s.id=$11 RETURNING created_at::text,creator_display_name";

pub const RESTORE_FILE_VERSION_UPDATE_NODES: &'static str = "UPDATE nodes SET head_version_id=$4,updated_at=clock_timestamp() WHERE tenant_id=$1 AND drive_id=$2 AND id=$3";

pub const RESTORE_FILE_VERSION_UPDATE_EPOCHS: &'static str = "UPDATE filebelt_collaboration.epochs e SET state='frozen', freeze_reason='external_head',fencing_token=fencing_token+1 FROM filebelt_collaboration.rooms r WHERE r.tenant_id=$1 AND r.drive_id=$2 AND r.node_id=$3 AND e.tenant_id=r.tenant_id AND e.room_id=r.id AND e.state='active'";

pub const CREATE_DIRECT_SHARE_SELECT_USERS: &'static str = "SELECT u.principal_id,u.display_name,u.verified_email FROM users u JOIN principals p ON p.tenant_id=u.tenant_id AND p.id=u.principal_id WHERE u.tenant_id=$1 AND lower(u.verified_email)=$2 AND u.status='active' AND p.disabled_at IS NULL FOR SHARE OF u,p";

pub const CREATE_DIRECT_SHARE_INSERT_DIRECT_SHARES: &'static str = "INSERT INTO direct_shares (tenant_id,id,drive_id,resource_id,target_principal_id,preset,inheritance,created_by,authorization_model_version) VALUES ($1,$2,$3,$4,$5,$6,$7,$8,1) RETURNING created_at::text";

pub const CREATE_DIRECT_SHARE_INSERT_ACL_ENTRIES: &'static str = "INSERT INTO acl_entries (tenant_id,drive_id,resource_id,id,principal_id,action,effect,inheritance,created_by,generation,direct_share_id) VALUES ($1,$2,$3,$4,$5,$6,'allow',$7,$8,1,$9)";

pub const DESCENDANT_SHARE_ADMISSION_OPEN: &'static str = "SELECT filebelt_security.descendant_share_admission_open($1)";

pub const REVOKE_DIRECT_SHARE_SELECT_DIRECT_SHARES: &'static str = "SELECT id FROM direct_shares WHERE tenant_id=$1 AND drive_id=$2 AND resource_id=$3 AND target_principal_id=$4 AND revoked_at IS NULL FOR UPDATE";

pub const REVOKE_DIRECT_SHARE_DELETE_ACL_ENTRIES: &'static str = "DELETE FROM acl_entries WHERE tenant_id=$1 AND direct_share_id=$2";

pub const REVOKE_DIRECT_SHARE_UPDATE_DIRECT_SHARES: &'static str = "UPDATE direct_shares SET revoked_at=clock_timestamp() WHERE tenant_id=$1 AND id=$2";

pub const SET_NODE_TRASH_STATE_SELECT_NODES: &'static str = "SELECT n.parent_id,n.display_name,n.name_key,n.namespace_generation,n.trash_root_id,d.trash_retention_days FROM nodes n JOIN drives d ON d.tenant_id=n.tenant_id AND d.id=n.drive_id WHERE n.tenant_id=$1 AND n.drive_id=$2 AND n.id=$3 FOR UPDATE OF n";

pub const SET_NODE_TRASH_STATE_UPDATE_NODES: &'static str = "UPDATE nodes n SET trash_root_id=$4,trashed_original_parent_id=CASE WHEN n.id=$4 THEN n.parent_id ELSE n.trashed_original_parent_id END,trashed_original_name=CASE WHEN n.id=$4 THEN n.display_name ELSE n.trashed_original_name END,trashed_original_name_key=CASE WHEN n.id=$4 THEN n.name_key ELSE n.trashed_original_name_key END,purge_after=clock_timestamp()+make_interval(days=>$5),namespace_generation=CASE WHEN n.id=$4 THEN n.namespace_generation+1 ELSE n.namespace_generation END,updated_at=clock_timestamp() WHERE n.tenant_id=$1 AND n.drive_id=$2 AND EXISTS (SELECT 1 FROM node_ancestry a WHERE a.tenant_id=$1 AND a.drive_id=$2 AND a.ancestor_id=$3 AND a.descendant_id=n.id) AND n.trash_root_id IS NULL";

pub const SET_NODE_TRASH_STATE_EXISTS_NODES: &'static str = "SELECT EXISTS (SELECT 1 FROM nodes WHERE tenant_id=$1 AND drive_id=$2 AND id=$3 AND trash_root_id IS NULL)";

pub const SET_NODE_TRASH_STATE_UPDATE_NODES_2: &'static str = "UPDATE nodes n SET trash_root_id=NULL,trashed_original_parent_id=CASE WHEN n.id=$4 THEN NULL ELSE n.trashed_original_parent_id END,trashed_original_name=CASE WHEN n.id=$4 THEN NULL ELSE n.trashed_original_name END,trashed_original_name_key=CASE WHEN n.id=$4 THEN NULL ELSE n.trashed_original_name_key END,purge_after=NULL,namespace_generation=CASE WHEN n.id=$4 THEN n.namespace_generation+1 ELSE n.namespace_generation END,updated_at=clock_timestamp() WHERE n.tenant_id=$1 AND n.drive_id=$2 AND EXISTS (SELECT 1 FROM node_ancestry a WHERE a.tenant_id=$1 AND a.drive_id=$2 AND a.ancestor_id=$3 AND a.descendant_id=n.id) AND n.trash_root_id=$4";

pub const SET_NODE_TRASH_STATE_UPDATE_DRIVES: &'static str = "UPDATE drives SET namespace_generation=namespace_generation+1 WHERE tenant_id=$1 AND id=$2 RETURNING namespace_generation";

pub const AUTHORIZATION_SNAPSHOT_SET_ISOLATION: &'static str = "SET TRANSACTION ISOLATION LEVEL REPEATABLE READ";

pub const AUTHORIZATION_SNAPSHOT_SELECT_DRIVES: &'static str = "SELECT d.owner_principal_id,p.kind AS owner_kind,g.id AS owner_group_id,d.acl_generation AS drive_acl_generation,d.namespace_generation,n.namespace_generation AS resource_namespace_generation,n.acl_generation AS resource_acl_generation,actor.generation AS membership_generation FROM drives d JOIN principals p ON p.tenant_id=d.tenant_id AND p.id=d.owner_principal_id LEFT JOIN groups g ON g.tenant_id=p.tenant_id AND g.principal_id=p.id JOIN nodes n ON n.tenant_id=d.tenant_id AND n.drive_id=d.id JOIN principals actor ON actor.tenant_id=d.tenant_id AND actor.id=$4 AND actor.disabled_at IS NULL WHERE d.tenant_id=$1 AND d.id=$2 AND n.id=$3";

pub const AUTHORIZATION_SNAPSHOT_SELECT_GROUP_MEMBERSHIPS: &'static str = "SELECT g.id AS group_id,g.principal_id,m.role,m.generation FROM group_memberships m JOIN groups g ON g.tenant_id=m.tenant_id AND g.id=m.group_id WHERE m.tenant_id=$1 AND m.user_principal_id=$2";

pub const AUTHORIZATION_SNAPSHOT_WITH_GRAPH_PRINCIPALS: &'static str = "WITH RECURSIVE graph_principals(principal_id) AS ( SELECT $4::uuid UNION SELECT a.created_by FROM graph_principals graph JOIN principals current_principal ON current_principal.tenant_id=$1 AND current_principal.id=graph.principal_id AND current_principal.disabled_at IS NULL LEFT JOIN users current_user_record ON current_user_record.tenant_id=current_principal.tenant_id AND current_user_record.principal_id=current_principal.id LEFT JOIN group_memberships membership ON membership.tenant_id=$1 AND membership.user_principal_id=graph.principal_id LEFT JOIN groups local_group ON local_group.tenant_id=membership.tenant_id AND local_group.id=membership.group_id JOIN node_ancestry ancestry ON ancestry.tenant_id=$1 AND ancestry.drive_id=$2 AND ancestry.descendant_id=$3 JOIN acl_entries a ON a.tenant_id=ancestry.tenant_id AND a.drive_id=ancestry.drive_id AND a.resource_id=ancestry.ancestor_id JOIN direct_shares share ON share.tenant_id=a.tenant_id AND share.id=a.direct_share_id AND share.revoked_at IS NULL WHERE (current_user_record.id IS NULL OR current_user_record.status='active') AND (a.principal_id=graph.principal_id OR a.principal_id=local_group.principal_id) AND a.effect='allow' AND a.inheritance='self_and_descendants' ) SELECT graph.principal_id FROM graph_principals graph JOIN principals p ON p.tenant_id=$1 AND p.id=graph.principal_id AND p.disabled_at IS NULL LEFT JOIN users u ON u.tenant_id=p.tenant_id AND u.principal_id=p.id WHERE u.id IS NULL OR u.status='active'";

pub const AUTHORIZATION_SNAPSHOT_SELECT_GROUP_MEMBERSHIPS_2: &'static str = "SELECT m.user_principal_id,g.id AS group_id,g.principal_id,m.role,m.generation FROM group_memberships m JOIN groups g ON g.tenant_id=m.tenant_id AND g.id=m.group_id WHERE m.tenant_id=$1 AND m.user_principal_id=ANY($2)";

pub const AUTHORIZATION_SNAPSHOT_WITH_UNNEST: &'static str = "WITH subjects AS ( SELECT actor_principal_id,actor_principal_id AS acl_principal_id FROM unnest($3::uuid[]) actor(actor_principal_id) UNION SELECT membership.user_principal_id,local_group.principal_id FROM group_memberships membership JOIN groups local_group ON local_group.tenant_id=membership.tenant_id AND local_group.id=membership.group_id WHERE membership.tenant_id=$1 AND membership.user_principal_id=ANY($3) ) SELECT subjects.actor_principal_id,a.id,a.resource_id,a.principal_id,a.action,a.effect,a.inheritance,a.generation,a.created_by,a.direct_share_id,EXISTS (SELECT 1 FROM direct_shares share WHERE share.tenant_id=a.tenant_id AND share.id=a.direct_share_id AND share.revoked_at IS NULL) AS direct_share_active,ancestry.depth,(a.resource_id=$4) AS direct FROM subjects JOIN node_ancestry ancestry ON ancestry.tenant_id=$1 AND ancestry.drive_id=$2 AND ancestry.descendant_id=$4 JOIN acl_entries a ON a.tenant_id=ancestry.tenant_id AND a.drive_id=ancestry.drive_id AND a.resource_id=ancestry.ancestor_id AND a.principal_id=subjects.acl_principal_id AND (a.resource_id=$4 OR (ancestry.depth=1 AND a.inheritance IN ('children','descendants','self_and_descendants')) OR (ancestry.depth>1 AND a.inheritance IN ('descendants','self_and_descendants')))";

pub const PUBLISH_AUTHORIZATION_GENERATIONS_SELECT_API_SESSIONS: &'static str = "SELECT p.generation AS membership_generation,d.acl_generation AS drive_acl_generation,d.namespace_generation,n.acl_generation AS resource_acl_generation,LEAST(s.idle_expires_at,s.absolute_expires_at)::text AS session_expires_at FROM api_sessions s JOIN users u ON u.tenant_id=s.tenant_id AND u.id=s.user_id JOIN principals p ON p.tenant_id=s.tenant_id AND p.id=s.principal_id JOIN drives d ON d.tenant_id=s.tenant_id JOIN nodes n ON n.tenant_id=d.tenant_id AND n.drive_id=d.id WHERE s.tenant_id=$1 AND s.id=$2 AND s.principal_id=$3 AND s.revoked_at IS NULL AND s.idle_expires_at>clock_timestamp() AND s.absolute_expires_at>clock_timestamp() AND u.status='active' AND p.disabled_at IS NULL AND d.id=$4 AND n.id=$5 FOR SHARE OF s,u,p,d,n";

pub const PUBLISH_AUTHORIZATION_GENERATIONS_INSERT_AUTHORIZATION_GENERATIONS: &'static str = "INSERT INTO authorization_generations (tenant_id,session_id,principal_id,drive_id,resource_id,membership_generation,drive_acl_generation,namespace_generation,resource_acl_generation,session_expires_at) VALUES ($1,$2,$3,$4,$5,$6,$7,$8,$9,$10::timestamptz) ON CONFLICT (tenant_id,session_id,principal_id,resource_id) DO UPDATE SET drive_id=EXCLUDED.drive_id,membership_generation=EXCLUDED.membership_generation,drive_acl_generation=EXCLUDED.drive_acl_generation,namespace_generation=EXCLUDED.namespace_generation,resource_acl_generation=EXCLUDED.resource_acl_generation,session_expires_at=EXCLUDED.session_expires_at,updated_at=clock_timestamp()";

pub const CREATE_DIRECTORY_SELECT_NODES: &'static str = "SELECT namespace_generation FROM nodes WHERE tenant_id=$1 AND drive_id=$2 AND id=$3 FOR UPDATE";

pub const CREATE_DIRECTORY_INSERT_NODES: &'static str = "INSERT INTO nodes (tenant_id,drive_id,id,parent_id,kind,display_name,name_key,owner_principal_id) VALUES ($1,$2,$3,$4,'directory',$5,$6,$7)";

pub const CREATE_DIRECTORY_INSERT_NODE_ANCESTRY: &'static str = "INSERT INTO node_ancestry (tenant_id,drive_id,ancestor_id,descendant_id,depth) SELECT tenant_id,drive_id,ancestor_id,$4,depth+1 FROM node_ancestry WHERE tenant_id=$1 AND drive_id=$2 AND descendant_id=$3 UNION ALL SELECT $1,$2,$4,$4,0";

pub const CREATE_DIRECTORY_UPDATE_NODES: &'static str = "UPDATE nodes SET namespace_generation=namespace_generation+1,updated_at=clock_timestamp() WHERE tenant_id=$1 AND drive_id=$2 AND id=$3";

pub const CREATE_DIRECTORY_UPDATE_DRIVES: &'static str = "UPDATE drives SET namespace_generation=namespace_generation+1 WHERE tenant_id=$1 AND id=$2";

pub const BEGIN_UPLOAD_SELECT_NODES: &'static str = "SELECT parent_id,kind,head_version_id,trash_root_id FROM nodes WHERE tenant_id=$1 AND drive_id=$2 AND id=$3 FOR UPDATE";

pub const BEGIN_UPLOAD_SELECT_NODES_2: &'static str = "SELECT kind,namespace_generation FROM nodes WHERE tenant_id=$1 AND drive_id=$2 AND id=$3 FOR UPDATE";

pub const BEGIN_UPLOAD_SELECT_CHECKPOINTS: &'static str = "SELECT 1 FROM filebelt_collaboration.checkpoints WHERE tenant_id=$1 AND id=$2 AND node_id=$3 AND base_version_id=$4 AND created_by=$5 AND state='prepared' AND expires_at>clock_timestamp() FOR UPDATE";

pub const BEGIN_UPLOAD_SELECT_IMPORT_INTENTS: &'static str = "SELECT source_node_id,target_parent_id,target_display_name,target_name_key,principal_id,session_id, source_membership_generation,source_drive_acl_generation,source_namespace_generation,source_resource_acl_generation, target_membership_generation,target_drive_acl_generation,target_namespace_generation,target_resource_acl_generation FROM filebelt_collaboration.import_intents WHERE tenant_id=$1 AND id=$2 AND drive_id=$3 AND state='active' AND expires_at>clock_timestamp() FOR UPDATE";

pub const BEGIN_UPLOAD_UPDATE_DRIVES: &'static str = "UPDATE drives SET reserved_bytes=reserved_bytes+$3 WHERE tenant_id=$1 AND id=$2 AND used_physical_bytes+reserved_bytes+$3<=quota_bytes RETURNING namespace_generation";

pub const BEGIN_UPLOAD_SELECT_STORAGE_BACKENDS: &'static str = "SELECT 1 FROM storage_backends b WHERE b.tenant_id=$1 AND b.id=$2 AND b.storage_ready AND b.capacity_checked_at>clock_timestamp()-interval '2 minutes' AND b.capacity_free_bytes-(SELECT COALESCE(sum(d.reserved_bytes),0) FROM drives d WHERE d.tenant_id=$1)>=10737418240 AND (b.capacity_free_bytes-(SELECT COALESCE(sum(d.reserved_bytes),0) FROM drives d WHERE d.tenant_id=$1))::numeric>=b.capacity_total_bytes::numeric*0.05";

pub const BEGIN_UPLOAD_INSERT_PAYLOAD_OBJECTS: &'static str = "INSERT INTO payload_objects (tenant_id,id,drive_id,backend_id,locator,layout,state,size_bytes) VALUES ($1,$2,$3,$4,$5,$6,'staging',$7)";

pub const BEGIN_UPLOAD_INSERT_UPLOAD_SESSIONS: &'static str = "INSERT INTO upload_sessions (tenant_id,id,drive_id,node_id,parent_id,owner_principal_id,payload_id,expected_head_version_id,target_display_name,target_name_key,declared_size_bytes,chunk_size_bytes,part_count,declared_media_type,collaboration_checkpoint_id,import_intent_id,state,expires_at) VALUES ($1,$2,$3,$4,$5,$6,$7,$8,$9,$10,$11,$12,$13,$14,$15,$16,'open',clock_timestamp()+make_interval(secs=>$17))";

pub const BEGIN_UPLOAD_INSERT_QUOTA_RESERVATIONS: &'static str = "INSERT INTO quota_reservations (tenant_id,id,drive_id,upload_id,bytes,state,expires_at) VALUES ($1,$2,$3,$4,$5,'active',clock_timestamp()+make_interval(secs=>$6))";

pub const BEGIN_UPLOAD_INSERT_UPLOAD_PARTS: &'static str = "INSERT INTO upload_parts (tenant_id,upload_id,part_number,state,size_bytes,locator) VALUES ($1,$2,$3,'allocated',0,$4)";

pub const UPLOAD: &'static str = "SELECT u.*,p.backend_id,p.locator AS payload_locator FROM upload_sessions u JOIN payload_objects p ON p.tenant_id=u.tenant_id AND p.id=u.payload_id WHERE u.tenant_id=$1 AND u.id=$2";

pub const UPLOAD_OWNED_BY: &'static str = "SELECT u.*,p.backend_id,p.locator AS payload_locator FROM upload_sessions u JOIN payload_objects p ON p.tenant_id=u.tenant_id AND p.id=u.payload_id WHERE u.tenant_id=$1 AND u.id=$2 AND u.owner_principal_id=$3";

pub const UPLOAD_FOR_PAYLOAD: &'static str = "SELECT u.*,p.backend_id,p.locator AS payload_locator FROM upload_sessions u JOIN payload_objects p ON p.tenant_id=u.tenant_id AND p.id=u.payload_id WHERE u.tenant_id=$1 AND u.payload_id=$2";

pub const UPLOAD_PART: &'static str = "SELECT part_number,locator,state,size_bytes,blake3 FROM upload_parts WHERE tenant_id=$1 AND upload_id=$2 AND part_number=$3";

pub const UPLOAD_PARTS: &'static str = "SELECT part_number,locator,state,size_bytes,blake3 FROM upload_parts WHERE tenant_id=$1 AND upload_id=$2 ORDER BY part_number";

pub const UPLOADS_NEEDING_STAGING_CLEANUP: &'static str = "SELECT u.id FROM upload_sessions u JOIN payload_objects p ON p.tenant_id=u.tenant_id AND p.id=u.payload_id WHERE u.tenant_id=$1 AND p.backend_id=$2 AND u.state IN ('finalized','committed') AND u.staging_cleaned_at IS NULL AND EXISTS (SELECT 1 FROM upload_parts part WHERE part.tenant_id=u.tenant_id AND part.upload_id=u.id AND part.state='durable') ORDER BY u.created_at LIMIT $3";

pub const MARK_UPLOAD_STAGING_CLEANED: &'static str = "UPDATE upload_sessions SET staging_cleaned_at=COALESCE(staging_cleaned_at,clock_timestamp()) WHERE tenant_id=$1 AND id=$2 AND state IN ('finalized','committed')";

pub const CONSUME_CAPABILITY_NONCE: &'static str = "INSERT INTO capability_nonces (tenant_id,nonce_digest,operation,expires_at,consumed_at) VALUES ($1,$2,$3,to_timestamp($4),clock_timestamp()) ON CONFLICT DO NOTHING";

pub const AUTHORIZATION_GENERATIONS_MATCH: &'static str = "SELECT membership_generation,drive_acl_generation,namespace_generation,resource_acl_generation FROM authorization_generations WHERE tenant_id=$1 AND session_id=$2 AND principal_id=$3 AND drive_id=$4 AND resource_id=$5 AND session_expires_at>clock_timestamp()";

pub const MARK_PART_DURABLE: &'static str = "UPDATE upload_parts p SET state='durable',size_bytes=$5,blake3=$6,durable_at=clock_timestamp() FROM upload_sessions u WHERE p.tenant_id=$1 AND p.upload_id=$2 AND p.part_number=$3 AND u.tenant_id=p.tenant_id AND u.id=p.upload_id AND u.state='open' AND u.fencing_token=$4";

pub const MARK_UPLOAD_FINALIZED_UPDATE_UPLOAD_SESSIONS: &'static str = "UPDATE upload_sessions SET state='finalized',finalization_owner=NULL,finalization_lease_expires_at=NULL WHERE tenant_id=$1 AND id=$2 AND state='finalizing' AND fencing_token=$3 AND finalization_owner=$4 RETURNING payload_id,declared_size_bytes";

pub const MARK_UPLOAD_FINALIZED_UPDATE_PAYLOAD_OBJECTS: &'static str = "UPDATE payload_objects SET state='finalized',blake3=$3,size_bytes=$4,finalized_at=clock_timestamp() WHERE tenant_id=$1 AND id=$2 AND state='finalizing'";

pub const CLAIM_UPLOAD_FINALIZATION_UPDATE_UPLOAD_SESSIONS: &'static str = "UPDATE upload_sessions SET state='finalizing',finalization_owner=$4,finalization_lease_expires_at=clock_timestamp()+make_interval(secs=>$5) WHERE tenant_id=$1 AND id=$2 AND state='open' AND fencing_token=$3 AND expires_at>clock_timestamp() AND (SELECT count(*) FROM upload_parts WHERE tenant_id=$1 AND upload_id=$2 AND state='durable')=part_count RETURNING payload_id";

pub const CLAIM_UPLOAD_FINALIZATION_UPDATE_PAYLOAD_OBJECTS: &'static str = "UPDATE payload_objects SET state='finalizing' WHERE tenant_id=$1 AND id=$2 AND state='staging'";

pub const HEARTBEAT_UPLOAD_FINALIZATION: &'static str = "UPDATE upload_sessions SET finalization_lease_expires_at=clock_timestamp()+make_interval(secs=>$5) WHERE tenant_id=$1 AND id=$2 AND state='finalizing' AND fencing_token=$3 AND finalization_owner=$4";

pub const ABORT_UPLOAD_FINALIZATION_UPDATE_UPLOAD_SESSIONS: &'static str = "UPDATE upload_sessions SET state='open',fencing_token=fencing_token+1,finalization_owner=NULL,finalization_lease_expires_at=NULL WHERE tenant_id=$1 AND id=$2 AND state='finalizing' AND fencing_token=$3 AND finalization_owner=$4 RETURNING payload_id";

pub const ABORT_UPLOAD_FINALIZATION_UPDATE_PAYLOAD_OBJECTS: &'static str = "UPDATE payload_objects SET state='staging' WHERE tenant_id=$1 AND id=$2 AND state='finalizing'";

pub const REOPEN_EXPIRED_UPLOAD_FINALIZATIONS_UPDATE_UPLOAD_SESSIONS: &'static str = "UPDATE upload_sessions SET state='open',fencing_token=fencing_token+1,finalization_owner=NULL,finalization_lease_expires_at=NULL WHERE tenant_id=$1 AND state='finalizing' AND finalization_lease_expires_at<=clock_timestamp() RETURNING payload_id";

pub const COMMIT_UPLOAD_SELECT_UPLOAD_SESSIONS: &'static str = "SELECT u.*,p.blake3 FROM upload_sessions u JOIN payload_objects p ON p.tenant_id=u.tenant_id AND p.id=u.payload_id WHERE u.tenant_id=$1 AND u.id=$2 AND u.owner_principal_id=$3 AND u.fencing_token=$4 AND u.state='finalized' AND p.state='finalized' FOR UPDATE OF u,p";

pub const COMMIT_UPLOAD_SELECT_NODES: &'static str = "SELECT head_version_id FROM nodes WHERE tenant_id=$1 AND drive_id=$2 AND id=$3 FOR UPDATE";

pub const COMMIT_UPLOAD_INSERT_NODES: &'static str = "INSERT INTO nodes (tenant_id,drive_id,id,parent_id,kind,display_name,name_key,owner_principal_id) VALUES ($1,$2,$3,$4,'file',$5,$6,$7)";

pub const COMMIT_UPLOAD_SELECT_CHECKPOINTS: &'static str = "SELECT base_version_id,source_size_bytes,source_blake3,mcp_assisted FROM filebelt_collaboration.checkpoints WHERE tenant_id=$1 AND id=$2 AND node_id=$3 AND created_by=$4 AND state='prepared' AND expires_at>clock_timestamp() FOR UPDATE";

pub const COMMIT_UPLOAD_SELECT_IMPORT_INTENTS: &'static str = "SELECT source_node_id,source_version_id,source_membership_generation, source_drive_acl_generation,source_namespace_generation,source_resource_acl_generation FROM filebelt_collaboration.import_intents WHERE tenant_id=$1 AND id=$2 AND principal_id=$3 AND session_id=$4 AND state='active' AND expires_at>clock_timestamp() FOR UPDATE";

pub const COMMIT_UPLOAD_SELECT_API_SESSIONS: &'static str = "SELECT u.display_name FROM api_sessions s JOIN users u ON u.tenant_id=s.tenant_id AND u.id=s.user_id WHERE s.tenant_id=$1 AND s.id=$2 AND s.principal_id=$3";

pub const COMMIT_UPLOAD_INSERT_FILE_VERSIONS: &'static str = "INSERT INTO file_versions (tenant_id,node_id,id,ordinal,payload_id,size_bytes,blake3,media_type,created_by,origin_kind,source_version_id,creator_display_name,mcp_assisted) VALUES ($1,$2,$3,$4,$5,$6,$7,$8,$9,$10,$11,$12,$13)";

pub const COMMIT_UPLOAD_UPDATE_NODES: &'static str = "UPDATE nodes SET head_version_id=$4,namespace_generation=namespace_generation+1,updated_at=clock_timestamp() WHERE tenant_id=$1 AND drive_id=$2 AND id=$3";

pub const COMMIT_UPLOAD_UPDATE_PAYLOAD_OBJECTS: &'static str = "UPDATE payload_objects SET state='referenced',referenced_at=clock_timestamp() WHERE tenant_id=$1 AND id=$2";

pub const COMMIT_UPLOAD_UPDATE_UPLOAD_SESSIONS: &'static str = "UPDATE upload_sessions SET state='committed' WHERE tenant_id=$1 AND id=$2";

pub const COMMIT_UPLOAD_UPDATE_CHECKPOINTS: &'static str = "UPDATE filebelt_collaboration.checkpoints SET state='committed', committed_version_id=$3,consumed_at=clock_timestamp() WHERE tenant_id=$1 AND id=$2 AND state='prepared'";

pub const COMMIT_UPLOAD_UPDATE_EPOCHS: &'static str = "UPDATE filebelt_collaboration.epochs e SET state='closed',dirty=false, closed_at=clock_timestamp(),fencing_token=fencing_token+1 FROM filebelt_collaboration.checkpoints c WHERE c.tenant_id=$1 AND c.id=$2 AND e.tenant_id=c.tenant_id AND e.room_id=c.room_id AND e.epoch=c.epoch AND e.state='active'";

pub const COMMIT_UPLOAD_UPDATE_IMPORT_INTENTS: &'static str = "UPDATE filebelt_collaboration.import_intents SET state='consumed', consumed_at=clock_timestamp() WHERE tenant_id=$1 AND id=$2 AND principal_id=$3 AND session_id=$4 AND state='active'";

pub const COMMIT_UPLOAD_UPDATE_QUOTA_RESERVATIONS: &'static str = "UPDATE quota_reservations SET state='committed' WHERE tenant_id=$1 AND upload_id=$2";

pub const COMMIT_UPLOAD_UPDATE_DRIVES: &'static str = "UPDATE drives SET reserved_bytes=reserved_bytes-$3,used_physical_bytes=used_physical_bytes+$3,namespace_generation=namespace_generation+1 WHERE tenant_id=$1 AND id=$2";

pub const PAYLOAD_FOR_NODE: &'static str = "SELECT p.tenant_id,p.id AS payload_id,p.drive_id,p.backend_id,p.locator,p.layout,p.state,p.size_bytes,p.blake3 FROM file_versions v JOIN nodes n ON n.tenant_id=v.tenant_id AND n.id=v.node_id JOIN payload_objects p ON p.tenant_id=v.tenant_id AND p.id=v.payload_id WHERE v.tenant_id=$1 AND v.node_id=$2 AND v.id=COALESCE($3,n.head_version_id) AND p.state='referenced'";

pub const PAYLOAD: &'static str = "SELECT tenant_id,id AS payload_id,drive_id,backend_id,locator,layout,state,size_bytes,blake3 FROM payload_objects WHERE tenant_id=$1 AND id=$2";

pub const COMPLETE_ORPHAN_PAYLOAD_DELETION_SELECT_PAYLOAD_OBJECTS: &'static str = "SELECT u.id AS upload_id,u.drive_id,u.declared_size_bytes FROM payload_objects p JOIN upload_sessions u ON u.tenant_id=p.tenant_id AND u.payload_id=p.id JOIN quota_reservations q ON q.tenant_id=u.tenant_id AND q.upload_id=u.id WHERE p.tenant_id=$1 AND p.id=$2 AND p.state='deleting' AND u.state='finalized' AND q.state='active' FOR UPDATE OF p,u,q";

pub const COMPLETE_ORPHAN_PAYLOAD_DELETION_UPDATE_PAYLOAD_OBJECTS: &'static str = "UPDATE payload_objects SET state='deleted' WHERE tenant_id=$1 AND id=$2 AND state='deleting'";

pub const COMPLETE_ORPHAN_PAYLOAD_DELETION_UPDATE_UPLOAD_SESSIONS: &'static str = "UPDATE upload_sessions SET state='expired',fencing_token=fencing_token+1,staging_cleaned_at=NULL WHERE tenant_id=$1 AND id=$2 AND state='finalized'";

pub const COMPLETE_ORPHAN_PAYLOAD_DELETION_UPDATE_QUOTA_RESERVATIONS: &'static str = "UPDATE quota_reservations SET state='released' WHERE tenant_id=$1 AND upload_id=$2 AND state='active'";

pub const COMPLETE_ORPHAN_PAYLOAD_DELETION_UPDATE_DRIVES: &'static str = "UPDATE drives SET reserved_bytes=reserved_bytes-$3 WHERE tenant_id=$1 AND id=$2 AND reserved_bytes>=$3";

pub const EXPIRE_UPLOADS_UPDATE_UPLOAD_SESSIONS: &'static str = "UPDATE upload_sessions SET state='expired',fencing_token=fencing_token+1 WHERE tenant_id=$1 AND state='open' AND expires_at<=clock_timestamp() RETURNING tenant_id,id,drive_id,declared_size_bytes";

pub const EXPIRE_UPLOADS_UPDATE_DRIVES: &'static str = "UPDATE drives SET reserved_bytes=GREATEST(0,reserved_bytes-$3) WHERE tenant_id=$1 AND id=$2";

pub const EXPIRE_UPLOADS_INSERT_JOBS: &'static str = "INSERT INTO jobs (tenant_id,id,kind,state,priority,aggregate_id,idempotency_key,payload) VALUES ($1,$2,'upload_reconcile','queued',50,$3,$4,$5) ON CONFLICT DO NOTHING";

pub const COMPLETE_JOB_UPDATE_JOBS: &'static str = "UPDATE jobs SET state='complete',lease_owner=NULL,lease_expires_at=NULL,updated_at=clock_timestamp() WHERE tenant_id=$1 AND id=$2 AND state='running' AND fencing_token=$3";

pub const COMPLETE_JOB_UPDATE_JOB_ATTEMPTS: &'static str = "UPDATE job_attempts SET finished_at=clock_timestamp(),outcome=$4 WHERE tenant_id=$1 AND job_id=$2 AND attempt=$3";

pub const FAIL_JOB_UPDATE_JOBS: &'static str = "UPDATE jobs SET state=$4,last_error_code=$5,available_at=clock_timestamp()+make_interval(secs=>random()*$6::double precision),lease_owner=NULL,lease_expires_at=NULL,updated_at=clock_timestamp() WHERE tenant_id=$1 AND id=$2 AND state='running' AND fencing_token=$3";

pub const FAIL_JOB_UPDATE_JOB_ATTEMPTS: &'static str = "UPDATE job_attempts SET finished_at=clock_timestamp(),outcome=$4 WHERE tenant_id=$1 AND job_id=$2 AND attempt=$3 AND finished_at IS NULL";

pub const PENDING_OUTBOX: &'static str = "SELECT tenant_id,id,topic,payload FROM outbox_events WHERE tenant_id=$1 AND published_at IS NULL AND next_attempt_at<=clock_timestamp() ORDER BY occurred_at LIMIT $2";

pub const MARK_OUTBOX_PUBLISHED: &'static str = "UPDATE outbox_events SET published_at=clock_timestamp() WHERE tenant_id=$1 AND id=$2";

pub const MARK_OUTBOX_RETRY: &'static str = "UPDATE outbox_events SET publish_attempts=publish_attempts+1,next_attempt_at=clock_timestamp()+interval '5 seconds' WHERE tenant_id=$1 AND id=$2";

pub const CLAIM_JOB_UPDATE_JOB_ATTEMPTS: &'static str = "UPDATE job_attempts a SET finished_at=clock_timestamp(),outcome='lease_expired' FROM jobs j WHERE a.tenant_id=$1 AND j.tenant_id=$1 AND a.tenant_id=j.tenant_id AND a.job_id=j.id AND a.finished_at IS NULL AND j.state='running' AND j.lease_expires_at<=clock_timestamp() AND j.attempt_count>=8";

pub const CLAIM_JOB_UPDATE_JOBS: &'static str = "UPDATE jobs SET state='terminal',last_error_code='lease_attempts_exhausted',lease_owner=NULL,lease_expires_at=NULL,updated_at=clock_timestamp() WHERE tenant_id=$1 AND state='running' AND lease_expires_at<=clock_timestamp() AND attempt_count>=8";

pub const CLAIM_JOB_SELECT_JOBS: &'static str = "SELECT tenant_id,id,state,attempt_count FROM jobs WHERE tenant_id=$1 AND ((state IN ('queued','retry_wait') AND available_at<=clock_timestamp()) OR (state='running' AND lease_expires_at<=clock_timestamp() AND attempt_count<8)) ORDER BY priority,available_at,created_at FOR UPDATE SKIP LOCKED LIMIT 1";

pub const CLAIM_JOB_UPDATE_JOB_ATTEMPTS_2: &'static str = "UPDATE job_attempts SET finished_at=clock_timestamp(),outcome='lease_expired' WHERE tenant_id=$1 AND job_id=$2 AND attempt=$3 AND finished_at IS NULL";

pub const CLAIM_JOB_UPDATE_JOBS_2: &'static str = "UPDATE jobs SET state='running',lease_owner=$3,lease_expires_at=clock_timestamp()+make_interval(secs=>$4),fencing_token=fencing_token+1,attempt_count=attempt_count+1,updated_at=clock_timestamp() WHERE tenant_id=$1 AND id=$2 RETURNING kind,payload,attempt_count,fencing_token";

pub const CLAIM_JOB_INSERT_JOB_ATTEMPTS: &'static str = "INSERT INTO job_attempts (tenant_id,job_id,attempt,worker_id,fencing_token) VALUES ($1,$2,$3,$4,$5)";

pub const RESOLVE_ADVANCED_ACL_TARGET_SELECT_USERS: &'static str = "SELECT u.principal_id FROM users u JOIN principals p ON p.tenant_id=u.tenant_id AND p.id=u.principal_id WHERE u.tenant_id=$1 AND lower(u.verified_email)=lower($2) AND u.status='active' AND p.disabled_at IS NULL FOR SHARE OF u,p";

pub const RESOLVE_ADVANCED_ACL_TARGET_SELECT_GROUPS: &'static str = "SELECT g.principal_id FROM groups g JOIN principals p ON p.tenant_id=g.tenant_id AND p.id=g.principal_id WHERE g.tenant_id=$1 AND g.id=$2 AND p.disabled_at IS NULL FOR SHARE OF g,p";

pub const ADVANCED_ACL_ACTIONS_FOR_TARGET: &'static str = "SELECT action FROM acl_entries WHERE tenant_id=$1 AND drive_id=$2 AND resource_id=$3 AND principal_id=$4 AND direct_share_id IS NULL FOR SHARE";

pub const LOCK_AUTHORIZATION_FENCE: &'static str = "SELECT p.generation AS membership_generation,d.acl_generation AS drive_acl_generation,d.namespace_generation,n.acl_generation AS resource_acl_generation FROM api_sessions s JOIN users u ON u.tenant_id=s.tenant_id AND u.id=s.user_id JOIN principals p ON p.tenant_id=s.tenant_id AND p.id=s.principal_id JOIN drives d ON d.tenant_id=s.tenant_id JOIN nodes n ON n.tenant_id=d.tenant_id AND n.drive_id=d.id WHERE s.tenant_id=$1 AND s.id=$2 AND s.principal_id=$3 AND s.revoked_at IS NULL AND s.idle_expires_at>clock_timestamp() AND s.absolute_expires_at>clock_timestamp() AND u.status='active' AND p.disabled_at IS NULL AND d.id=$4 AND n.id=$5 FOR UPDATE OF s,u,p,d,n";

pub const LOCK_COLLABORATION_AUTHORIZATION_FENCE: &'static str = "SELECT p.generation AS membership_generation,d.acl_generation AS drive_acl_generation,d.namespace_generation,n.acl_generation AS resource_acl_generation FROM api_sessions s JOIN users u ON u.tenant_id=s.tenant_id AND u.id=s.user_id JOIN principals p ON p.tenant_id=s.tenant_id AND p.id=s.principal_id JOIN drives d ON d.tenant_id=s.tenant_id JOIN nodes n ON n.tenant_id=d.tenant_id AND n.drive_id=d.id WHERE s.tenant_id=$1 AND s.id=$2 AND s.principal_id=$3 AND s.revoked_at IS NULL AND s.idle_expires_at>clock_timestamp() AND s.absolute_expires_at>clock_timestamp() AND u.status='active' AND p.disabled_at IS NULL AND d.id=$4 AND n.id=$5 FOR SHARE OF s,u,p,d,n";

pub const IS_ADMIN: &'static str = "SELECT EXISTS (SELECT 1 FROM tenant_admin_bindings WHERE tenant_id=$1 AND issuer=$2 AND subject=$3)";

pub const PRIVATE_DRIVE_FOR_USER: &'static str = "SELECT d.id,n.id AS root_id FROM drives d JOIN nodes n ON n.tenant_id=d.tenant_id AND n.drive_id=d.id AND n.parent_id IS NULL WHERE d.tenant_id=$1 AND d.owner_principal_id=$2 AND d.kind='private'";

pub const INSERT_AUDIT: &'static str = "INSERT INTO audit_events (tenant_id,id,actor_principal_id,target_principal_id,resource_id,action,outcome,reason_code,privacy_visible,details) VALUES ($1,$2,$3,$4,$5,$6,$7,$8,$9,$10)";

pub const INSERT_OUTBOX_SELECT_VALUE: &'static str = "SELECT extract(epoch from clock_timestamp())::bigint";

pub const INSERT_OUTBOX_INSERT_OUTBOX_EVENTS: &'static str = "INSERT INTO outbox_events (tenant_id,id,topic,aggregate_type,aggregate_id,aggregate_generation,partition_key,payload) VALUES ($1,$2,$3,$4,$5,$6,$7,$8)";

pub const RESERVE_INSERT_IDEMPOTENCY_RECORDS: &'static str = "INSERT INTO public.idempotency_records (tenant_id,principal_id,route,key,request_fingerprint,response_status,response_body) VALUES ($1,$2,$3,$4,$5,102,$6) ON CONFLICT DO NOTHING";

pub const RESERVE_SELECT_IDEMPOTENCY_RECORDS: &'static str = "SELECT request_fingerprint,response_status,response_body,expires_at<=clock_timestamp() AS expired FROM public.idempotency_records WHERE tenant_id=$1 AND principal_id=$2 AND route=$3 AND key=$4 FOR UPDATE";

pub const RESERVE_UPDATE_IDEMPOTENCY_RECORDS: &'static str = "UPDATE public.idempotency_records SET request_fingerprint=$5,response_status=102,response_body=$6,created_at=clock_timestamp(),expires_at=clock_timestamp()+interval '24 hours' WHERE tenant_id=$1 AND principal_id=$2 AND route=$3 AND key=$4";

pub const FINALIZE: &'static str = "UPDATE public.idempotency_records SET response_status=$6,response_body=$7 WHERE tenant_id=$1 AND principal_id=$2 AND route=$3 AND key=$4 AND request_fingerprint=$5 RETURNING request_fingerprint,response_status,response_body";

} // verus!
