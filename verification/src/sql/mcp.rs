//! Statements on registrations, grants, invocations and their policy.

use vstd::prelude::*;

verus! {

pub const CREATE_REGISTRATION: &'static str = "INSERT INTO filebelt_mcp.registrations (tenant_id,id,owner_principal_id,owner_kind,source_kind,template_id,display_name,description,transport,endpoint_uri,trust_profile,catalog_entry,policy) VALUES ($1,$2,$3,$4,$5,$6,$7,$8,$9,$10,$11,$12,$13) RETURNING *,revoked_at IS NOT NULL AS is_revoked,created_at::text AS created_at_text,updated_at::text AS updated_at_text";

pub const REGISTRATION: &'static str = "SELECT *,revoked_at IS NOT NULL AS is_revoked,created_at::text AS created_at_text,updated_at::text AS updated_at_text FROM filebelt_mcp.registrations WHERE tenant_id=$1 AND owner_principal_id=$2 AND id=$3 AND deleted_at IS NULL";

pub const LIST_REGISTRATIONS: &'static str = "SELECT *,revoked_at IS NOT NULL AS is_revoked,created_at::text AS created_at_text,updated_at::text AS updated_at_text FROM filebelt_mcp.registrations WHERE tenant_id=$1 AND owner_principal_id=$2 AND deleted_at IS NULL ORDER BY updated_at DESC,id LIMIT $3";

pub const UPDATE_REGISTRATION_STATE: &'static str = "UPDATE filebelt_mcp.registrations SET validation_state=$4,authentication_state=$5,capability_state=$6,quarantine_state=$7,enabled=$8,protocol_version=$9,revision=revision+1,updated_at=clock_timestamp() WHERE tenant_id=$1 AND id=$2 AND revision=$3 AND deleted_at IS NULL RETURNING *,revoked_at IS NOT NULL AS is_revoked,created_at::text AS created_at_text,updated_at::text AS updated_at_text";

pub const REVOKE_REGISTRATION: &'static str = "UPDATE filebelt_mcp.registrations SET enabled=false,revoked_at=COALESCE(revoked_at,clock_timestamp()),revocation_generation=revocation_generation+1,revision=revision+1,updated_at=clock_timestamp() WHERE tenant_id=$1 AND id=$2 AND revision=$3 AND deleted_at IS NULL RETURNING revocation_generation";

pub const STORE_CAPABILITY_SNAPSHOT_SELECT_REGISTRATIONS: &'static str = "SELECT credential_generation FROM filebelt_mcp.registrations WHERE tenant_id=$1 AND id=$2 AND revoked_at IS NULL AND deleted_at IS NULL FOR UPDATE";

pub const STORE_CAPABILITY_SNAPSHOT_SELECT_CAPABILITY_SNAPSHOTS: &'static str = "SELECT fingerprint,credential_generation FROM filebelt_mcp.capability_snapshots WHERE tenant_id=$1 AND registration_id=$2 AND superseded_at IS NULL FOR UPDATE";

pub const STORE_CAPABILITY_SNAPSHOT_UPDATE_CAPABILITY_SNAPSHOTS: &'static str = "UPDATE filebelt_mcp.capability_snapshots SET superseded_at=clock_timestamp() WHERE tenant_id=$1 AND registration_id=$2 AND superseded_at IS NULL";

pub const STORE_CAPABILITY_SNAPSHOT_INSERT_CAPABILITY_SNAPSHOTS: &'static str = "INSERT INTO filebelt_mcp.capability_snapshots (tenant_id,id,registration_id,credential_generation,fingerprint,protocol_version,document) VALUES ($1,$2,$3,$4,$5,$6,$7)";

pub const STORE_CAPABILITY_SNAPSHOT_INSERT_CAPABILITIES: &'static str = "INSERT INTO filebelt_mcp.capabilities (tenant_id,snapshot_id,fingerprint,primitive,name,read_only_hint,descriptor) VALUES ($1,$2,$3,$4,$5,$6,$7)";

pub const STORE_CAPABILITY_SNAPSHOT_UPDATE_REGISTRATIONS: &'static str = "UPDATE filebelt_mcp.registrations SET capability_state=$3,enabled=false,revision=revision+1,updated_at=clock_timestamp() WHERE tenant_id=$1 AND id=$2";

pub const REPLACE_REGISTRATION_SECRET_SELECT_REGISTRATIONS: &'static str = "SELECT credential_generation FROM filebelt_mcp.registrations WHERE tenant_id=$1 AND id=$2 AND owner_principal_id=$3 AND revoked_at IS NULL AND deleted_at IS NULL FOR UPDATE";

pub const REPLACE_REGISTRATION_SECRET_DELETE_OAUTH_ATTEMPTS: &'static str = "DELETE FROM filebelt_mcp.oauth_attempts WHERE tenant_id=$1 AND registration_id=$2 AND owner_principal_id=$3";

pub const REPLACE_REGISTRATION_SECRET_DELETE_SECRET_ENVELOPES: &'static str = "DELETE FROM filebelt_mcp_vault.secret_envelopes WHERE tenant_id=$1 AND registration_id=$2 AND owner_principal_id=$3";

pub const REPLACE_REGISTRATION_SECRET_INSERT_SECRET_ENVELOPES: &'static str = "INSERT INTO filebelt_mcp_vault.secret_envelopes (tenant_id,registration_id,owner_principal_id,issuer,secret_kind,credential_generation,ciphertext,nonce,wrapped_dek,wrap_nonce,kek_generation,aad_version) VALUES ($1,$2,$3,$4,$5,$6,$7,$8,$9,$10,$11,$12) ON CONFLICT (tenant_id,registration_id,owner_principal_id,issuer,secret_kind) DO UPDATE SET credential_generation=EXCLUDED.credential_generation,ciphertext=EXCLUDED.ciphertext,nonce=EXCLUDED.nonce,wrapped_dek=EXCLUDED.wrapped_dek,wrap_nonce=EXCLUDED.wrap_nonce,kek_generation=EXCLUDED.kek_generation,aad_version=EXCLUDED.aad_version,updated_at=clock_timestamp(),deleted_at=NULL WHERE filebelt_mcp_vault.secret_envelopes.credential_generation < EXCLUDED.credential_generation RETURNING registration_id,owner_principal_id,issuer,secret_kind,credential_generation,kek_generation,created_at::text AS created_at,updated_at::text AS updated_at";

pub const REPLACE_REGISTRATION_SECRET_UPDATE_REGISTRATIONS: &'static str = "UPDATE filebelt_mcp.registrations SET enabled=false,authentication_state='authorized',capability_state='undiscovered',protocol_version=NULL,credential_generation=$4,credential_kind=$5,revocation_generation=revocation_generation+1,revision=revision+1,updated_at=clock_timestamp() WHERE tenant_id=$1 AND id=$2 AND owner_principal_id=$3 AND credential_generation=$4-1";

pub const SECRET_ENVELOPE: &'static str = "SELECT * FROM filebelt_mcp_vault.secret_envelopes WHERE tenant_id=$1 AND registration_id=$2 AND owner_principal_id=$3 AND issuer=$4 AND secret_kind=$5 AND deleted_at IS NULL";

pub const SECRET_METADATA: &'static str = "SELECT registration_id,owner_principal_id,issuer,secret_kind,credential_generation,kek_generation,created_at::text AS created_at,updated_at::text AS updated_at FROM filebelt_mcp_vault.secret_envelopes WHERE tenant_id=$1 AND registration_id=$2 AND owner_principal_id=$3 AND deleted_at IS NULL ORDER BY issuer,secret_kind";

pub const REPLACE_REGISTRATION_CONFIGURATION_AND_ERASE_SELECT_VALUE: &'static str = "SELECT filebelt_mcp.replace_registration_configuration_and_erase($1,$2,$3,$4,$5,$6,$7,$8,$9,$10)";

pub const REPLACE_REGISTRATION_CONFIGURATION_AND_ERASE_SELECT_REGISTRATIONS: &'static str = "SELECT *,revoked_at IS NOT NULL AS is_revoked,created_at::text AS created_at_text,updated_at::text AS updated_at_text FROM filebelt_mcp.registrations WHERE tenant_id=$1 AND id=$2 AND owner_principal_id=$3 AND deleted_at IS NULL";

pub const CRYPTOGRAPHICALLY_ERASE_REGISTRATION_AT_REVISION_SELECT_REGISTRATIONS: &'static str = "SELECT credential_generation FROM filebelt_mcp.registrations WHERE tenant_id=$1 AND id=$2 AND owner_principal_id=$3 AND revision=$4 AND deleted_at IS NULL FOR UPDATE";

pub const CRYPTOGRAPHICALLY_ERASE_REGISTRATION_AT_REVISION_UPDATE_REGISTRATIONS: &'static str = "UPDATE filebelt_mcp.registrations SET enabled=false,authentication_state='required',capability_state='undiscovered',protocol_version=NULL,credential_kind='none',revocation_generation=revocation_generation+1,credential_generation=credential_generation+1,revision=revision+1,updated_at=clock_timestamp() WHERE tenant_id=$1 AND id=$2 AND owner_principal_id=$3 AND revision=$4 RETURNING *,revoked_at IS NOT NULL AS is_revoked,created_at::text AS created_at_text,updated_at::text AS updated_at_text";

pub const AUTHORITY_SNAPSHOT: &'static str = "SELECT p.generation AS principal_generation,r.revocation_generation,d.acl_generation AS drive_acl_generation,n.acl_generation,n.namespace_generation,g.drive_acl_generation AS granted_drive_acl_generation,g.acl_generation AS granted_acl_generation,g.namespace_generation AS granted_namespace_generation,g.allow_metadata,g.allow_content FROM filebelt_mcp.data_grants g JOIN filebelt_mcp.registrations r ON r.tenant_id=g.tenant_id AND r.id=g.registration_id JOIN public.principals p ON p.tenant_id=g.tenant_id AND p.id=g.principal_id JOIN public.drives d ON d.tenant_id=g.tenant_id AND d.id=g.drive_id JOIN public.nodes n ON n.tenant_id=g.tenant_id AND n.drive_id=g.drive_id AND n.id=g.resource_id JOIN public.file_versions v ON v.tenant_id=g.tenant_id AND v.node_id=g.resource_id AND v.id=g.version_id WHERE g.tenant_id=$1 AND g.principal_id=$2 AND g.registration_id=$3 AND g.id=$4 AND g.registration_generation=r.revocation_generation AND g.revoked_at IS NULL AND g.expires_at>clock_timestamp() AND r.enabled AND r.revoked_at IS NULL AND r.deleted_at IS NULL AND p.disabled_at IS NULL";

pub const ATTACHMENT_METADATA: &'static str = "SELECT n.display_name,v.media_type FROM public.nodes n JOIN public.file_versions v ON v.tenant_id=n.tenant_id AND v.node_id=n.id AND v.id=$4 WHERE n.tenant_id=$1 AND n.drive_id=$2 AND n.id=$3 AND n.kind='file' AND n.trash_root_id IS NULL";

pub const RECORD_INVOCATION_ATTACHMENT: &'static str = "INSERT INTO filebelt_mcp.invocation_attachments (tenant_id,invocation_id,ordinal,version_id,sent_content,sent_basename,sent_media_type,sent_size,bytes_sent) VALUES ($1,$2,$3,$4,$5,$6,$7,$8,$9)";

pub const LOCK_DATA_GRANT_VERSION: &'static str = "SELECT d.acl_generation AS drive_acl_generation,n.acl_generation,n.namespace_generation FROM public.nodes n JOIN public.drives d ON d.tenant_id=n.tenant_id AND d.id=n.drive_id JOIN public.file_versions v ON v.tenant_id=n.tenant_id AND v.node_id=n.id AND v.id=$4 WHERE n.tenant_id=$1 AND n.drive_id=$2 AND n.id=$3 FOR SHARE OF d,n,v";

pub const INSERT_DATA_GRANT_SELECT_REGISTRATIONS: &'static str = "SELECT revocation_generation FROM filebelt_mcp.registrations WHERE tenant_id=$1 AND id=$2 AND owner_principal_id=$3 AND revoked_at IS NULL AND deleted_at IS NULL FOR SHARE";

pub const INSERT_DATA_GRANT_INSERT_DATA_GRANTS: &'static str = "INSERT INTO filebelt_mcp.data_grants (tenant_id,id,principal_id,registration_id,drive_id,resource_id,version_id,allow_metadata,allow_content,drive_acl_generation,acl_generation,namespace_generation,registration_generation,created_by,created_at,expires_at) VALUES ($1,$2,$3,$4,$5,$6,$7,$8,$9,$10,$11,$12,$13,$14,statement_timestamp(),statement_timestamp()+make_interval(secs=>$15))";

pub const MARK_BROKER_OPERATION_APPLIED: &'static str = "UPDATE filebelt_mcp.broker_operation_receipts SET api_completed_at=COALESCE(api_completed_at,clock_timestamp()) WHERE tenant_id=$1 AND principal_id=$2 AND operation_id=$3 AND result IS NOT NULL";

pub const UPDATE_REGISTRATION_STATE_2: &'static str = "UPDATE filebelt_mcp.registrations SET validation_state=$5,authentication_state=$6,capability_state=$7,quarantine_state=$8,enabled=$9,protocol_version=$10,revision=revision+1,updated_at=clock_timestamp() WHERE tenant_id=$1 AND owner_principal_id=$2 AND id=$3 AND revision=$4 AND deleted_at IS NULL RETURNING *,revoked_at IS NOT NULL AS is_revoked,created_at::text AS created_at_text,updated_at::text AS updated_at_text";

pub const REVOKE_REGISTRATION_2: &'static str = "UPDATE filebelt_mcp.registrations SET enabled=false,revoked_at=COALESCE(revoked_at,clock_timestamp()),revocation_generation=revocation_generation+1,revision=revision+1,updated_at=clock_timestamp() WHERE tenant_id=$1 AND owner_principal_id=$2 AND id=$3 AND revision=$4 AND deleted_at IS NULL RETURNING *,revoked_at IS NOT NULL AS is_revoked,created_at::text AS created_at_text,updated_at::text AS updated_at_text";

pub const DELETE_REGISTRATION_UPDATE_REGISTRATIONS: &'static str = "UPDATE filebelt_mcp.registrations SET enabled=false,revoked_at=COALESCE(revoked_at,clock_timestamp()),deleted_at=clock_timestamp(),revocation_generation=revocation_generation+1,revision=revision+1,updated_at=clock_timestamp() WHERE tenant_id=$1 AND owner_principal_id=$2 AND id=$3 AND revision=$4 AND deleted_at IS NULL RETURNING owner_principal_id,revocation_generation";

pub const DELETE_REGISTRATION_INSERT_DELETION_TOMBSTONES: &'static str = "INSERT INTO filebelt_mcp.deletion_tombstones (tenant_id,id,object_kind,object_id,owner_principal_id,revocation_generation,remote_revocation_deadline) VALUES ($1,$2,'registration',$3,$4,$5,clock_timestamp()+interval '15 minutes')";

pub const STORE_CAPABILITY_SNAPSHOT_SELECT_REGISTRATIONS_2: &'static str = "SELECT credential_generation FROM filebelt_mcp.registrations WHERE tenant_id=$1 AND owner_principal_id=$2 AND id=$3 AND revision=$4 AND revoked_at IS NULL AND deleted_at IS NULL FOR UPDATE";

pub const STORE_CAPABILITY_SNAPSHOT_SELECT_CAPABILITY_SNAPSHOTS_2: &'static str = "SELECT id,registration_id,credential_generation,fingerprint,protocol_version,document,discovered_at::text AS discovered_at FROM filebelt_mcp.capability_snapshots WHERE tenant_id=$1 AND registration_id=$2 AND superseded_at IS NULL FOR UPDATE";

pub const STORE_CAPABILITY_SNAPSHOT_INSERT_CAPABILITY_SNAPSHOTS_2: &'static str = "INSERT INTO filebelt_mcp.capability_snapshots (tenant_id,id,registration_id,credential_generation,fingerprint,protocol_version,document) VALUES ($1,$2,$3,$4,$5,$6,$7) RETURNING discovered_at::text";

pub const STORE_CAPABILITY_SNAPSHOT_UPDATE_REGISTRATIONS_2: &'static str = "UPDATE filebelt_mcp.registrations SET capability_state=$5,enabled=false,revision=revision+1,updated_at=clock_timestamp() WHERE tenant_id=$1 AND owner_principal_id=$2 AND id=$3 AND revision=$4";

pub const REVOKE_APPROVAL: &'static str = "UPDATE filebelt_mcp.approval_rules SET revoked_at=COALESCE(revoked_at,clock_timestamp()) WHERE tenant_id=$1 AND principal_id=$2 AND id=$3";

pub const REVIEW_CAPABILITIES_INSERT_CAPABILITY_REVIEWS: &'static str = "INSERT INTO filebelt_mcp.capability_reviews (tenant_id,registration_id,snapshot_id,capability_fingerprint,reviewer_principal_id,decision,constraints) SELECT $1,$2,$3,$4,$5,$6,$7 FROM filebelt_mcp.capability_snapshots s JOIN filebelt_mcp.registrations r ON r.tenant_id=s.tenant_id AND r.id=s.registration_id AND r.credential_generation=s.credential_generation WHERE s.tenant_id=$1 AND s.id=$3 AND s.registration_id=$2 AND s.superseded_at IS NULL AND r.owner_principal_id=$5 ON CONFLICT (tenant_id,snapshot_id,capability_fingerprint) DO UPDATE SET reviewer_principal_id=EXCLUDED.reviewer_principal_id,decision=EXCLUDED.decision,constraints=EXCLUDED.constraints,reviewed_at=clock_timestamp(),revoked_at=NULL";

pub const REVIEW_CAPABILITIES_SELECT_CAPABILITY_REVIEWS: &'static str = "SELECT snapshot_id,capability_fingerprint,reviewer_principal_id,decision,constraints,reviewed_at::text AS reviewed_at,revoked_at IS NOT NULL AS revoked FROM filebelt_mcp.capability_reviews WHERE tenant_id=$1 AND registration_id=$2 AND snapshot_id=$3 ORDER BY capability_fingerprint";

pub const CREATE_INVOCATION_INTENT: &'static str = "INSERT INTO filebelt_mcp.invocation_intents (tenant_id,id,registration_id,principal_id,session_id,application_id,primitive,capability_fingerprint,argument_digest,attachment_digest,request_digest,created_at,expires_at) VALUES ($1,$2,$3,$4,$5,$6,$7,$8,$9,$10,$11,statement_timestamp(),statement_timestamp()+interval '5 minutes') RETURNING extract(epoch FROM expires_at)::bigint";

pub const CANCEL_INVOCATION_SELECT_INVOCATIONS: &'static str = "SELECT state FROM filebelt_mcp.invocations WHERE tenant_id=$1 AND principal_id=$2 AND id=$3 FOR UPDATE";

pub const CANCEL_INVOCATION_UPDATE_INVOCATIONS: &'static str = "UPDATE filebelt_mcp.invocations SET state='cancelled',reason_code='mcp.cancelled_by_principal',finished_at=clock_timestamp() WHERE tenant_id=$1 AND principal_id=$2 AND id=$3";

pub const REVOKE_DATA_GRANT: &'static str = "UPDATE filebelt_mcp.data_grants g SET revoked_at=COALESCE(g.revoked_at,clock_timestamp()) WHERE g.tenant_id=$1 AND g.principal_id=$2 AND g.drive_id=$3 AND g.resource_id=$4 AND g.id=$5 AND EXISTS (SELECT 1 FROM public.nodes n WHERE n.tenant_id=g.tenant_id AND n.drive_id=g.drive_id AND n.id=g.resource_id AND n.namespace_generation=$6 AND n.acl_generation=$7)";

pub const CREATE_MANAGED_TEMPLATE: &'static str = "INSERT INTO filebelt_mcp.managed_templates (tenant_id,id,display_name,description,transport,endpoint_uri,trust_profile,catalog_entry,policy,created_by) VALUES ($1,$2,$3,$4,$5,$6,$7,$8,$9,$10) RETURNING *,created_at::text AS created_at_text,updated_at::text AS updated_at_text";

pub const UPDATE_MANAGED_TEMPLATE: &'static str = "UPDATE filebelt_mcp.managed_templates SET display_name=$4,description=$5,endpoint_uri=$6,trust_profile=$7,catalog_entry=$8,policy=$9,enabled=$10,revision=revision+1,revocation_generation=revocation_generation+1,updated_at=clock_timestamp() WHERE tenant_id=$1 AND id=$2 AND revision=$3 AND deleted_at IS NULL RETURNING *,created_at::text AS created_at_text,updated_at::text AS updated_at_text";

pub const DELETE_MANAGED_TEMPLATE: &'static str = "UPDATE filebelt_mcp.managed_templates SET enabled=false,deleted_at=clock_timestamp(),revision=revision+1,revocation_generation=revocation_generation+1,updated_at=clock_timestamp() WHERE tenant_id=$1 AND id=$2 AND revision=$3 AND deleted_at IS NULL";

pub const ASSIGN_TEMPLATE: &'static str = "INSERT INTO filebelt_mcp.template_assignments (tenant_id,template_id,subject_principal_id,subject_kind,created_by) SELECT $1,$2,$3,$4,$5 FROM filebelt_mcp.managed_templates t WHERE t.tenant_id=$1 AND t.id=$2 AND t.revision=$6 AND t.deleted_at IS NULL ON CONFLICT (tenant_id,template_id,subject_principal_id) DO UPDATE SET subject_kind=EXCLUDED.subject_kind,created_by=EXCLUDED.created_by,created_at=clock_timestamp(),revoked_at=NULL RETURNING extract(epoch FROM created_at)::bigint";

pub const REVOKE_TEMPLATE_ASSIGNMENT_SELECT_MANAGED_TEMPLATES: &'static str = "SELECT 1 FROM filebelt_mcp.managed_templates WHERE tenant_id=$1 AND id=$2 AND revision=$3 AND deleted_at IS NULL FOR SHARE";

pub const REVOKE_TEMPLATE_ASSIGNMENT_UPDATE_TEMPLATE_ASSIGNMENTS: &'static str = "UPDATE filebelt_mcp.template_assignments SET revoked_at=COALESCE(revoked_at,clock_timestamp()) WHERE tenant_id=$1 AND template_id=$2 AND subject_principal_id=$3";

pub const REVOKE_TEMPLATE_ASSIGNMENT_UPDATE_REGISTRATIONS: &'static str = "UPDATE filebelt_mcp.registrations SET enabled=false,revocation_generation=revocation_generation+1,revision=revision+1,updated_at=clock_timestamp() WHERE tenant_id=$1 AND template_id=$2 AND owner_principal_id=$3 AND deleted_at IS NULL";

pub const TEMPLATE_ASSIGNMENT_COUNT: &'static str = "SELECT count(*) FROM filebelt_mcp.template_assignments WHERE tenant_id=$1 AND template_id=$2 AND revoked_at IS NULL";

pub const CREATE_SERVICE_PRINCIPAL_INSERT_PRINCIPALS: &'static str = "INSERT INTO public.principals (tenant_id,id,kind) VALUES ($1,$2,'service')";

pub const CREATE_SERVICE_PRINCIPAL_INSERT_SERVICE_PRINCIPALS: &'static str = "INSERT INTO filebelt_mcp.service_principals (tenant_id,id,principal_id,display_name,created_by) VALUES ($1,$2,$3,$4,$5)";

pub const CREATE_SERVICE_PRINCIPAL_INSERT_SERVICE_IDENTITY_BINDINGS: &'static str = "INSERT INTO filebelt_mcp.service_identity_bindings (tenant_id,id,service_id,spiffe_uri) VALUES ($1,$2,$3,$4)";

pub const UPDATE_SERVICE_PRINCIPAL_UPDATE_SERVICE_PRINCIPALS: &'static str = "UPDATE filebelt_mcp.service_principals SET display_name=$4,status=$5,revocation_generation=revocation_generation+1,updated_at=clock_timestamp() WHERE tenant_id=$1 AND id=$2 AND revocation_generation=$3 AND status<>'deleted'";

pub const UPDATE_SERVICE_PRINCIPAL_UPDATE_SERVICE_IDENTITY_BINDINGS: &'static str = "UPDATE filebelt_mcp.service_identity_bindings SET revoked_at=COALESCE(revoked_at,clock_timestamp()),generation=generation+1 WHERE tenant_id=$1 AND service_id=$2 AND revoked_at IS NULL";

pub const UPDATE_SERVICE_PRINCIPAL_UPDATE_SERVICE_PRINCIPALS_2: &'static str = "UPDATE filebelt_mcp.service_principals SET revocation_generation=revocation_generation+1,updated_at=clock_timestamp() WHERE tenant_id=$1 AND id=$2 AND status<>'deleted'";

pub const DELETE_SERVICE_PRINCIPAL_UPDATE_SERVICE_PRINCIPALS: &'static str = "UPDATE filebelt_mcp.service_principals SET status='deleted',deleted_at=clock_timestamp(),revocation_generation=revocation_generation+1,updated_at=clock_timestamp() WHERE tenant_id=$1 AND id=$2 AND revocation_generation=$3 AND status<>'deleted'";

pub const REVOKE_SERVICE_GRANT: &'static str = "UPDATE filebelt_mcp.service_invocation_grants g SET revoked_at=COALESCE(g.revoked_at,clock_timestamp()) WHERE g.tenant_id=$1 AND g.service_id=$2 AND g.id=$3 AND EXISTS (SELECT 1 FROM filebelt_mcp.service_principals s WHERE s.tenant_id=g.tenant_id AND s.id=g.service_id AND s.revocation_generation=$4 AND s.status<>'deleted')";

pub const CREATE_ADMIN_BLOCK_RULE: &'static str = "INSERT INTO filebelt_mcp.admin_block_rules (tenant_id,id,scope,matcher,reason_code,created_by) VALUES ($1,$2,$3,$4,$5,$6) RETURNING id,scope,matcher,reason_code,enabled,revision,created_at::text AS created_at,updated_at::text AS updated_at";

pub const DELETE_ADMIN_BLOCK_RULE: &'static str = "UPDATE filebelt_mcp.admin_block_rules SET enabled=false,deleted_at=clock_timestamp(),revision=revision+1,updated_at=clock_timestamp() WHERE tenant_id=$1 AND id=$2 AND revision=$3 AND deleted_at IS NULL";

pub const BEGIN_BROKER_OPERATION_INSERT_BROKER_OPERATION_RECEIPTS: &'static str = "INSERT INTO filebelt_mcp.broker_operation_receipts (tenant_id,principal_id,registration_id,operation,operation_id,request_fingerprint) VALUES ($1,$2,$3,$4,$5,$6) ON CONFLICT DO NOTHING";

pub const BEGIN_BROKER_OPERATION_SELECT_BROKER_OPERATION_RECEIPTS: &'static str = "SELECT registration_id,operation,request_fingerprint,result,api_completed_at IS NOT NULL AS api_completed,expires_at<=clock_timestamp() AS expired FROM filebelt_mcp.broker_operation_receipts WHERE tenant_id=$1 AND principal_id=$2 AND operation_id=$3 FOR UPDATE";

pub const BEGIN_BROKER_OPERATION_UPDATE_BROKER_OPERATION_RECEIPTS: &'static str = "UPDATE filebelt_mcp.broker_operation_receipts SET registration_id=$4,operation=$5,request_fingerprint=$6,result=NULL,api_completed_at=NULL,created_at=clock_timestamp(),expires_at=clock_timestamp()+interval '24 hours' WHERE tenant_id=$1 AND principal_id=$2 AND operation_id=$3";

pub const PURGE_MCP_BROKER_OPERATION_RECEIPTS: &'static str = "DELETE FROM filebelt_mcp.broker_operation_receipts WHERE ctid IN (SELECT ctid FROM filebelt_mcp.broker_operation_receipts WHERE tenant_id=$1 AND result IS NOT NULL AND api_completed_at IS NOT NULL AND expires_at<=clock_timestamp() ORDER BY expires_at,operation_id LIMIT $2 FOR UPDATE SKIP LOCKED)";

pub const BEGIN_OAUTH_ATTEMPT_SELECT_REGISTRATIONS: &'static str = "SELECT credential_generation FROM filebelt_mcp.registrations WHERE tenant_id=$1 AND id=$2 AND owner_principal_id=$3 AND credential_generation=$4 AND revoked_at IS NULL AND deleted_at IS NULL FOR SHARE";

pub const BEGIN_OAUTH_ATTEMPT_INSERT_OAUTH_ATTEMPTS: &'static str = "INSERT INTO filebelt_mcp.oauth_attempts (tenant_id,id,registration_id,owner_principal_id,session_id,state_digest,credential_generation,issuer,redirect_path,created_at,expires_at) VALUES ($1,$2,$3,$4,$5,$6,$7,$8,$9,statement_timestamp(),statement_timestamp()+interval '10 minutes') RETURNING extract(epoch FROM expires_at)::bigint";

pub const BEGIN_OAUTH_ATTEMPT_INSERT_OAUTH_ATTEMPT_SECRETS: &'static str = "INSERT INTO filebelt_mcp_vault.oauth_attempt_secrets (tenant_id,attempt_id,registration_id,owner_principal_id,ciphertext,nonce,wrapped_dek,wrap_nonce,kek_generation) VALUES ($1,$2,$3,$4,$5,$6,$7,$8,$9)";

pub const FINALIZE: &'static str = "UPDATE filebelt_mcp.broker_operation_receipts SET result=$7 WHERE tenant_id=$1 AND principal_id=$2 AND operation_id=$3 AND registration_id=$4 AND operation=$5 AND request_fingerprint=$6 AND result IS NULL";

pub const BEGIN_OAUTH_ATTEMPT_INSERT_OAUTH_ATTEMPTS_2: &'static str = "INSERT INTO filebelt_mcp.oauth_attempts (tenant_id,id,registration_id,owner_principal_id,session_id,state_digest,credential_generation,issuer,redirect_path,created_at,expires_at) VALUES ($1,$2,$3,$4,$5,$6,$7,$8,$9,statement_timestamp(),statement_timestamp()+interval '10 minutes')";

pub const CONSUME_OAUTH_ATTEMPT_UPDATE_OAUTH_ATTEMPTS: &'static str = "UPDATE filebelt_mcp.oauth_attempts o SET consumed_at=clock_timestamp() FROM filebelt_mcp.registrations r WHERE o.tenant_id=$1 AND o.session_id=$2 AND o.state_digest=$3 AND o.consumed_at IS NULL AND o.expires_at>clock_timestamp() AND r.tenant_id=o.tenant_id AND r.id=o.registration_id AND r.owner_principal_id=o.owner_principal_id AND r.credential_generation=o.credential_generation AND r.revoked_at IS NULL AND r.deleted_at IS NULL RETURNING o.id,o.registration_id,o.owner_principal_id,o.issuer,o.redirect_path";

pub const CONSUME_OAUTH_ATTEMPT_SELECT_OAUTH_ATTEMPT_SECRETS: &'static str = "SELECT ciphertext,nonce,wrapped_dek,wrap_nonce,kek_generation FROM filebelt_mcp_vault.oauth_attempt_secrets WHERE tenant_id=$1 AND attempt_id=$2";

pub const CONSUME_OAUTH_ATTEMPT_DELETE_OAUTH_ATTEMPT_SECRETS: &'static str = "DELETE FROM filebelt_mcp_vault.oauth_attempt_secrets WHERE tenant_id=$1 AND attempt_id=$2";

pub const OAUTH_ATTEMPT_REGISTRATION: &'static str = "SELECT o.registration_id FROM filebelt_mcp.oauth_attempts o JOIN filebelt_mcp.registrations r ON r.tenant_id=o.tenant_id AND r.id=o.registration_id AND r.owner_principal_id=o.owner_principal_id AND r.credential_generation=o.credential_generation WHERE o.tenant_id=$1 AND o.session_id=$2 AND o.state_digest=$3 AND o.consumed_at IS NULL AND o.expires_at>clock_timestamp() AND r.revoked_at IS NULL AND r.deleted_at IS NULL";

pub const CREATE_INVOCATION_INTENT_2: &'static str = "INSERT INTO filebelt_mcp.invocation_intents (tenant_id,id,registration_id,principal_id,session_id,application_id,primitive,capability_fingerprint,argument_digest,attachment_digest,request_digest,created_at,expires_at) VALUES ($1,$2,$3,$4,$5,$6,$7,$8,$9,$10,$11,statement_timestamp(),statement_timestamp()+interval '5 minutes')";

pub const INVOCATION_INTENT_FOR_APPROVAL: &'static str = "SELECT registration_id,application_id,primitive,capability_fingerprint,argument_digest,attachment_digest FROM filebelt_mcp.invocation_intents WHERE tenant_id=$1 AND id=$2 AND principal_id=$3 AND session_id=$4 AND consumed_at IS NULL AND expires_at>clock_timestamp()";

pub const CONSUME_INVOCATION_INTENT: &'static str = "UPDATE filebelt_mcp.invocation_intents SET consumed_at=clock_timestamp() WHERE tenant_id=$1 AND id=$2 AND principal_id=$3 AND session_id=$4 AND application_id=$5 AND request_digest=$6 AND consumed_at IS NULL AND expires_at>clock_timestamp() RETURNING registration_id";

pub const START_INVOCATION_INSERT_POLICY_GENERATIONS: &'static str = "INSERT INTO filebelt_mcp.policy_generations (tenant_id) VALUES ($1) ON CONFLICT DO NOTHING";

pub const START_INVOCATION_SELECT_POLICY_GENERATIONS: &'static str = "SELECT admin_block_generation FROM filebelt_mcp.policy_generations WHERE tenant_id=$1 FOR SHARE";

pub const START_INVOCATION_INSERT_INVOCATIONS: &'static str = "INSERT INTO filebelt_mcp.invocations (tenant_id,id,registration_id,principal_id,application_id,primitive,capability_fingerprint,approval_id,registration_generation,authority_generation,admin_block_generation,state,request_bytes,semantic_node_id,semantic_base_version_id,semantic_input_digest,started_at) SELECT $1,$2,$3,$4,$5,$6,$7,$8,$9,$10,$11,'running',$12,$13,$14,$15,clock_timestamp() FROM filebelt_mcp.registrations r JOIN public.principals p ON p.tenant_id=r.tenant_id AND p.id=$4 WHERE r.tenant_id=$1 AND r.id=$3 AND r.enabled AND r.revocation_generation=$9 AND r.revoked_at IS NULL AND r.deleted_at IS NULL AND p.generation=$10 AND p.disabled_at IS NULL";

pub const FINISH_INVOCATION: &'static str = "UPDATE filebelt_mcp.invocations SET state=$3,response_bytes=$4,reason_code=$5,semantic_output_digest=$6,finished_at=clock_timestamp() WHERE tenant_id=$1 AND id=$2 AND state IN ('pending','running')";

pub const MARKDOWN_CONTEXT_DRIVE: &'static str = "SELECT n.drive_id FROM public.nodes n JOIN public.file_versions v ON v.tenant_id=n.tenant_id AND v.node_id=n.id WHERE n.tenant_id=$1 AND n.id=$2 AND n.kind='file' AND n.trash_root_id IS NULL AND v.id=$3";

pub const ACTIVITY: &'static str = "SELECT i.id,i.registration_id,i.principal_id,i.application_id,i.primitive,i.capability_fingerprint,i.approval_id,i.state,i.request_bytes,i.response_bytes,i.reason_code,i.created_at::text AS created_at,i.finished_at::text AS finished_at,COALESCE((SELECT array_agg(a.version_id ORDER BY a.ordinal) FROM filebelt_mcp.invocation_attachments a WHERE a.tenant_id=i.tenant_id AND a.invocation_id=i.id),ARRAY[]::uuid[]) AS attachment_version_ids,COALESCE((EXTRACT(EPOCH FROM (i.finished_at-i.started_at))*1000)::bigint,0) AS duration_ms FROM filebelt_mcp.invocations i WHERE i.tenant_id=$1 AND i.principal_id=$2 ORDER BY i.created_at DESC,i.id LIMIT $3";

pub const TAKE_RATE_LIMIT: &'static str = "INSERT INTO filebelt_mcp.rate_buckets (tenant_id,principal_id,bucket,window_started_at,used,limit_value,expires_at) VALUES ($1,$2,$3,to_timestamp($4),$5,$6,to_timestamp($4)+make_interval(secs=>$7)) ON CONFLICT (tenant_id,principal_id,bucket,window_started_at) DO UPDATE SET used=filebelt_mcp.rate_buckets.used+EXCLUDED.used,limit_value=EXCLUDED.limit_value,expires_at=EXCLUDED.expires_at RETURNING used";

pub const REVOCATION_GENERATIONS_SELECT_PRINCIPALS: &'static str = "SELECT p.generation AS principal,r.revocation_generation AS registration,r.credential_generation AS credential,g.admin_block_generation FROM public.principals p JOIN filebelt_mcp.registrations r ON r.tenant_id=p.tenant_id AND r.id=$3 JOIN filebelt_mcp.policy_generations g ON g.tenant_id=r.tenant_id WHERE p.tenant_id=$1 AND p.id=$2 AND p.disabled_at IS NULL AND r.revoked_at IS NULL AND r.deleted_at IS NULL";

pub const INVOCATION_IS_ACTIVE: &'static str = "SELECT EXISTS (SELECT 1 FROM filebelt_mcp.invocations WHERE tenant_id=$1 AND principal_id=$2 AND id=$3 AND state IN ('pending','running'))";

pub const INSERT_APPROVAL_RULE: &'static str = "INSERT INTO filebelt_mcp.approval_rules (tenant_id,id,registration_id,principal_id,intent_id,session_id,application_id,primitive,capability_name,capability_fingerprint,argument_digest,attachment_digest,single_use,created_at,expires_at) SELECT $1,$2,$3,$4,$5,$6,$7,$8,$9,$10,$11,$12,$13,statement_timestamp(),statement_timestamp()+make_interval(secs=>$14) FROM filebelt_mcp.invocation_intents i WHERE i.tenant_id=$1 AND i.id=$5 AND i.registration_id=$3 AND i.principal_id=$4 AND i.consumed_at IS NULL AND i.expires_at>clock_timestamp()";

pub const REGISTRATION_BY_ID: &'static str = "SELECT *,revoked_at IS NOT NULL AS is_revoked,created_at::text AS created_at_text,updated_at::text AS updated_at_text FROM filebelt_mcp.registrations WHERE tenant_id=$1 AND id=$2 AND deleted_at IS NULL";

pub const DELETE_REGISTRATION_UPDATE_REGISTRATIONS_2: &'static str = "UPDATE filebelt_mcp.registrations SET enabled=false,revoked_at=COALESCE(revoked_at,clock_timestamp()),deleted_at=clock_timestamp(),revocation_generation=revocation_generation+1,revision=revision+1,updated_at=clock_timestamp() WHERE tenant_id=$1 AND id=$2 AND revision=$3 AND deleted_at IS NULL RETURNING owner_principal_id,revocation_generation";

pub const CURRENT_CAPABILITY_SNAPSHOT: &'static str = "SELECT s.id,s.registration_id,s.credential_generation,s.fingerprint,s.protocol_version,s.document,s.discovered_at::text AS discovered_at FROM filebelt_mcp.capability_snapshots s JOIN filebelt_mcp.registrations r ON r.tenant_id=s.tenant_id AND r.id=s.registration_id AND r.credential_generation=s.credential_generation WHERE s.tenant_id=$1 AND s.registration_id=$2 AND s.superseded_at IS NULL";

pub const CAPABILITY_REVIEWS: &'static str = "SELECT cr.snapshot_id,cr.capability_fingerprint,cr.reviewer_principal_id,cr.decision,cr.constraints,cr.reviewed_at::text AS reviewed_at,cr.revoked_at IS NOT NULL AS revoked FROM filebelt_mcp.capability_reviews cr JOIN filebelt_mcp.capability_snapshots s ON s.tenant_id=cr.tenant_id AND s.id=cr.snapshot_id AND s.registration_id=cr.registration_id JOIN filebelt_mcp.registrations r ON r.tenant_id=s.tenant_id AND r.id=s.registration_id AND r.credential_generation=s.credential_generation WHERE cr.tenant_id=$1 AND cr.registration_id=$2 AND s.superseded_at IS NULL ORDER BY cr.reviewed_at,cr.capability_fingerprint";

pub const CAPABILITY_BY_FINGERPRINT: &'static str = "SELECT c.primitive,c.name,c.fingerprint,c.read_only_hint,c.descriptor FROM filebelt_mcp.capabilities c JOIN filebelt_mcp.capability_snapshots s ON s.tenant_id=c.tenant_id AND s.id=c.snapshot_id JOIN filebelt_mcp.registrations r ON r.tenant_id=s.tenant_id AND r.id=s.registration_id AND r.credential_generation=s.credential_generation WHERE c.tenant_id=$1 AND s.registration_id=$2 AND c.fingerprint=$3 AND s.superseded_at IS NULL";

pub const APPROVAL_RULES: &'static str = "SELECT id,registration_id,application_id,primitive,capability_name,capability_fingerprint,argument_digest,attachment_digest,single_use,consumed_at IS NOT NULL AS consumed,created_at::text AS created_at,expires_at::text AS expires_at,revoked_at IS NOT NULL AS revoked FROM filebelt_mcp.approval_rules WHERE tenant_id=$1 AND principal_id=$2 AND ($3::uuid IS NULL OR registration_id=$3) ORDER BY created_at DESC,id LIMIT 200";

pub const CONSUME_MATCHING_APPROVAL: &'static str = "WITH candidate AS (SELECT id FROM filebelt_mcp.approval_rules WHERE tenant_id=$1 AND registration_id=$2 AND principal_id=$3 AND session_id IS NOT DISTINCT FROM $4 AND application_id=$5 AND primitive=$6 AND capability_name=$7 AND capability_fingerprint=$8 AND argument_digest=$9 AND attachment_digest=$10 AND revoked_at IS NULL AND consumed_at IS NULL AND expires_at>clock_timestamp() ORDER BY expires_at,id LIMIT 1 FOR UPDATE SKIP LOCKED) UPDATE filebelt_mcp.approval_rules a SET consumed_at=CASE WHEN a.single_use THEN clock_timestamp() ELSE a.consumed_at END FROM candidate c WHERE a.tenant_id=$1 AND a.id=c.id RETURNING a.id";

pub const DATA_GRANTS: &'static str = "SELECT id,principal_id,registration_id,drive_id,resource_id,version_id,allow_metadata,allow_content,acl_generation,namespace_generation,registration_generation,created_at::text AS created_at,expires_at::text AS expires_at,revoked_at IS NOT NULL AS revoked FROM filebelt_mcp.data_grants WHERE tenant_id=$1 AND principal_id=$2 AND drive_id=$3 AND resource_id=$4 ORDER BY created_at DESC,id LIMIT 200";

pub const NODE_DATA_GRANTS: &'static str = "SELECT id,principal_id,registration_id,drive_id,resource_id,version_id,allow_metadata,allow_content,acl_generation,namespace_generation,registration_generation,created_at::text AS created_at,expires_at::text AS expires_at,revoked_at IS NOT NULL AS revoked FROM filebelt_mcp.data_grants WHERE tenant_id=$1 AND drive_id=$2 AND resource_id=$3 AND revoked_at IS NULL AND expires_at>clock_timestamp() ORDER BY created_at DESC,id LIMIT 200";

pub const REVOKE_DATA_GRANT_2: &'static str = "UPDATE filebelt_mcp.data_grants SET revoked_at=COALESCE(revoked_at,clock_timestamp()) WHERE tenant_id=$1 AND principal_id=$2 AND drive_id=$3 AND resource_id=$4 AND id=$5";

pub const MANAGED_TEMPLATE: &'static str = "SELECT *,created_at::text AS created_at_text,updated_at::text AS updated_at_text FROM filebelt_mcp.managed_templates WHERE tenant_id=$1 AND id=$2 AND deleted_at IS NULL";

pub const TEMPLATE_ASSIGNMENTS: &'static str = "SELECT template_id,subject_principal_id AS principal_id,subject_kind AS principal_kind,created_at::text AS created_at FROM filebelt_mcp.template_assignments WHERE tenant_id=$1 AND template_id=$2 AND revoked_at IS NULL ORDER BY created_at,subject_principal_id";

pub const SERVICE_PRINCIPALS: &'static str = "SELECT s.*,b.spiffe_uri,s.created_at::text AS created_at_text,s.updated_at::text AS updated_at_text FROM filebelt_mcp.service_principals s JOIN filebelt_mcp.service_identity_bindings b ON b.tenant_id=s.tenant_id AND b.service_id=s.id AND b.revoked_at IS NULL WHERE s.tenant_id=$1 AND s.status<>'deleted' ORDER BY s.display_name,s.id";

pub const SERVICE_PRINCIPAL: &'static str = "SELECT s.*,b.spiffe_uri,s.created_at::text AS created_at_text,s.updated_at::text AS updated_at_text FROM filebelt_mcp.service_principals s JOIN filebelt_mcp.service_identity_bindings b ON b.tenant_id=s.tenant_id AND b.service_id=s.id AND b.revoked_at IS NULL WHERE s.tenant_id=$1 AND s.id=$2 AND s.status<>'deleted'";

pub const UPDATE_SERVICE_PRINCIPAL_UPDATE_SERVICE_PRINCIPALS_3: &'static str = "UPDATE filebelt_mcp.service_principals SET display_name=$3,status=$4,revocation_generation=revocation_generation+1,updated_at=clock_timestamp() WHERE tenant_id=$1 AND id=$2 AND status<>'deleted'";

pub const DELETE_SERVICE_PRINCIPAL_UPDATE_SERVICE_PRINCIPALS_2: &'static str = "UPDATE filebelt_mcp.service_principals SET status='deleted',deleted_at=clock_timestamp(),revocation_generation=revocation_generation+1,updated_at=clock_timestamp() WHERE tenant_id=$1 AND id=$2 AND status<>'deleted'";

pub const SERVICE_GRANTS: &'static str = "SELECT g.id,g.service_id,g.registration_id,g.capability_fingerprint,g.primitive,g.capability_name,g.constraints,g.application_id,g.quota,g.max_invocations_per_hour,g.created_at::text AS created_at,g.expires_at::text AS expires_at,g.revoked_at IS NOT NULL AS revoked,COALESCE(array_agg(d.data_grant_id) FILTER (WHERE d.data_grant_id IS NOT NULL),'{}'::uuid[]) AS data_grant_ids FROM filebelt_mcp.service_invocation_grants g LEFT JOIN filebelt_mcp.service_grant_data_grants d ON d.tenant_id=g.tenant_id AND d.service_grant_id=g.id WHERE g.tenant_id=$1 AND g.service_id=$2 GROUP BY g.tenant_id,g.id ORDER BY g.created_at DESC,g.id LIMIT 200";

pub const REVOKE_SERVICE_GRANT_2: &'static str = "UPDATE filebelt_mcp.service_invocation_grants SET revoked_at=COALESCE(revoked_at,clock_timestamp()) WHERE tenant_id=$1 AND service_id=$2 AND id=$3";

pub const ADMIN_BLOCK_RULES: &'static str = "SELECT id,scope,matcher,reason_code,enabled,revision,created_at::text AS created_at,updated_at::text AS updated_at FROM filebelt_mcp.admin_block_rules WHERE tenant_id=$1 AND deleted_at IS NULL ORDER BY scope,matcher,id";

pub const UPDATE_ADMIN_BLOCK_RULE: &'static str = "UPDATE filebelt_mcp.admin_block_rules SET matcher=$4,reason_code=$5,enabled=$6,revision=revision+1,updated_at=clock_timestamp() WHERE tenant_id=$1 AND id=$2 AND revision=$3 AND deleted_at IS NULL RETURNING id,scope,matcher,reason_code,enabled,revision,created_at::text AS created_at,updated_at::text AS updated_at";

pub const DELETE_ADMIN_BLOCK_RULE_BY_ID: &'static str = "UPDATE filebelt_mcp.admin_block_rules SET enabled=false,deleted_at=clock_timestamp(),revision=revision+1,updated_at=clock_timestamp() WHERE tenant_id=$1 AND id=$2 AND deleted_at IS NULL";

pub const ADVANCE_ADMIN_BLOCK_POLICY_INSERT_POLICY_GENERATIONS: &'static str = "INSERT INTO filebelt_mcp.policy_generations (tenant_id,admin_block_generation) VALUES ($1,2) ON CONFLICT (tenant_id) DO UPDATE SET admin_block_generation=filebelt_mcp.policy_generations.admin_block_generation+1,updated_at=clock_timestamp()";

pub const ADVANCE_ADMIN_BLOCK_POLICY_UPDATE_INVOCATIONS: &'static str = "UPDATE filebelt_mcp.invocations SET state='cancelled',finished_at=clock_timestamp(),reason_code='mcp.admin_block_changed' WHERE tenant_id=$1 AND state IN ('pending','running')";

pub const MANAGED_TEMPLATES: &'static str = "SELECT *,created_at::text AS created_at_text,updated_at::text AS updated_at_text FROM filebelt_mcp.managed_templates WHERE tenant_id=$1 AND deleted_at IS NULL ORDER BY display_name,id";

pub const ASSIGN_TEMPLATE_2: &'static str = "INSERT INTO filebelt_mcp.template_assignments (tenant_id,template_id,subject_principal_id,subject_kind,created_by) VALUES ($1,$2,$3,$4,$5) ON CONFLICT (tenant_id,template_id,subject_principal_id) DO UPDATE SET subject_kind=EXCLUDED.subject_kind,created_by=EXCLUDED.created_by,created_at=clock_timestamp(),revoked_at=NULL";

pub const REVIEW_CAPABILITY: &'static str = "INSERT INTO filebelt_mcp.capability_reviews (tenant_id,registration_id,snapshot_id,capability_fingerprint,reviewer_principal_id,decision,constraints) SELECT $1,$2,$3,$4,$5,$6,$7 FROM filebelt_mcp.capability_snapshots s JOIN filebelt_mcp.registrations r ON r.tenant_id=s.tenant_id AND r.id=s.registration_id AND r.credential_generation=s.credential_generation WHERE s.tenant_id=$1 AND s.id=$3 AND s.registration_id=$2 AND s.superseded_at IS NULL ON CONFLICT (tenant_id,snapshot_id,capability_fingerprint) DO UPDATE SET reviewer_principal_id=EXCLUDED.reviewer_principal_id,decision=EXCLUDED.decision,constraints=EXCLUDED.constraints,reviewed_at=clock_timestamp(),revoked_at=NULL";

pub const INSERT_SERVICE_GRANT_INSERT_SERVICE_INVOCATION_GRANTS: &'static str = "INSERT INTO filebelt_mcp.service_invocation_grants (tenant_id,id,service_id,registration_id,capability_fingerprint,primitive,capability_name,constraints,application_id,quota,max_invocations_per_hour,created_by,created_at,expires_at) SELECT $1,$2,$3,$4,$5,$6,$7,$8,$9,$10,$11,$12,statement_timestamp(),statement_timestamp()+make_interval(secs=>$13) FROM filebelt_mcp.service_principals s JOIN filebelt_mcp.registrations r ON r.tenant_id=s.tenant_id AND r.owner_principal_id=s.principal_id AND r.id=$4 WHERE s.tenant_id=$1 AND s.id=$3 AND s.status='active' AND s.revocation_generation=$14 AND r.revoked_at IS NULL AND r.deleted_at IS NULL";

pub const INSERT_SERVICE_GRANT_INSERT_SERVICE_GRANT_DATA_GRANTS: &'static str = "INSERT INTO filebelt_mcp.service_grant_data_grants (tenant_id,service_grant_id,data_grant_id) SELECT $1,$2,g.id FROM filebelt_mcp.data_grants g JOIN filebelt_mcp.service_invocation_grants sg ON sg.tenant_id=g.tenant_id AND sg.id=$2 AND sg.registration_id=g.registration_id JOIN filebelt_mcp.service_principals s ON s.tenant_id=g.tenant_id AND s.id=$4 AND s.principal_id=g.principal_id WHERE g.tenant_id=$1 AND g.id=$3 AND g.revoked_at IS NULL AND g.expires_at>clock_timestamp()";

pub const SERVICE_ROW: &'static str = "SELECT s.*,b.spiffe_uri,s.created_at::text AS created_at_text,s.updated_at::text AS updated_at_text FROM filebelt_mcp.service_principals s JOIN filebelt_mcp.service_identity_bindings b ON b.tenant_id=s.tenant_id AND b.service_id=s.id AND b.revoked_at IS NULL WHERE s.tenant_id=$1 AND s.id=$2";

pub const RESERVE_RUNNER_SLOT_INSERT_RUNNER_SLOT_ADMISSION: &'static str = "INSERT INTO filebelt_mcp.runner_slot_admission (tenant_id) VALUES ($1) ON CONFLICT DO NOTHING";

pub const RESERVE_RUNNER_SLOT_SELECT_RUNNER_SLOT_ADMISSION: &'static str = "SELECT tenant_id FROM filebelt_mcp.runner_slot_admission WHERE tenant_id=$1 FOR UPDATE";

pub const RESERVE_RUNNER_SLOT_SELECT_RUNNER_SLOT_RESERVATIONS: &'static str = "SELECT tenant_id,invocation_id,principal_id,lease_expires_at::text AS lease_expires_at,created_at::text AS created_at,released_at IS NOT NULL AS released FROM filebelt_mcp.runner_slot_reservations WHERE tenant_id=$1 AND invocation_id=$2";

pub const RESERVE_RUNNER_SLOT_COUNT_RUNNER_SLOT_RESERVATIONS: &'static str = "SELECT count(*)::bigint AS tenant_used,count(*) FILTER (WHERE principal_id=$2)::bigint AS principal_used FROM filebelt_mcp.runner_slot_reservations WHERE tenant_id=$1 AND released_at IS NULL";

pub const RESERVE_RUNNER_SLOT_INSERT_RUNNER_SLOT_RESERVATIONS: &'static str = "INSERT INTO filebelt_mcp.runner_slot_reservations (tenant_id,invocation_id,principal_id,lease_expires_at) VALUES ($1,$2,$3,statement_timestamp()+make_interval(secs=>$4)) RETURNING tenant_id,invocation_id,principal_id,lease_expires_at::text AS lease_expires_at,created_at::text AS created_at,false AS released";

pub const RENEW_RUNNER_SLOT: &'static str = "UPDATE filebelt_mcp.runner_slot_reservations SET lease_expires_at=statement_timestamp()+make_interval(secs=>$4),updated_at=clock_timestamp() WHERE tenant_id=$1 AND invocation_id=$2 AND principal_id=$3 AND released_at IS NULL";

pub const EXPIRED_RUNNER_SLOTS: &'static str = "SELECT tenant_id,invocation_id,principal_id,lease_expires_at::text AS lease_expires_at,created_at::text AS created_at,false AS released FROM filebelt_mcp.runner_slot_reservations WHERE released_at IS NULL AND lease_expires_at<=clock_timestamp() ORDER BY lease_expires_at,tenant_id,invocation_id LIMIT $1";

pub const RELEASE_RUNNER_SLOT_AFTER_CONFIRMED_DELETE: &'static str = "UPDATE filebelt_mcp.runner_slot_reservations SET released_at=COALESCE(released_at,clock_timestamp()),updated_at=clock_timestamp() WHERE tenant_id=$1 AND invocation_id=$2 AND principal_id=$3";

} // verus!
