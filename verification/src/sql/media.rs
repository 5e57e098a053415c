//! Statements on media previews.

use vstd::prelude::*;

verus! {

pub const MEDIA_PREVIEW: &'static str = "SELECT id,drive_id,node_id,source_version_id,state,attempt_count,job_epoch,cache_key FROM filebelt_media.previews WHERE tenant_id=$1 AND id=$2";

pub const CANCEL_MEDIA_PREVIEW: &'static str = "UPDATE filebelt_media.previews SET cancellation_requested_at=COALESCE(cancellation_requested_at,clock_timestamp()),state=CASE WHEN state='requested' THEN 'cancelled' ELSE state END,updated_at=clock_timestamp() WHERE tenant_id=$1 AND id=$2 AND state IN ('requested','running','verifying') RETURNING id,drive_id,node_id,source_version_id,state,attempt_count,job_epoch,cache_key";

pub const ADMIT_MEDIA_PREVIEW_SELECT_PREVIEWS: &'static str = "SELECT id,drive_id,node_id,source_version_id,state,attempt_count,job_epoch,cache_key,request_fingerprint FROM filebelt_media.previews WHERE tenant_id=$1 AND requester_session_id=$2 AND idempotency_key=$3 FOR UPDATE";

pub const ADMIT_MEDIA_PREVIEW_INSERT_PREVIEWS: &'static str = "INSERT INTO filebelt_media.previews (tenant_id,id,drive_id,node_id,source_version_id,requester_principal_id,requester_session_id,idempotency_key,request_fingerprint,cache_key,profile_id,profile_digest,transcoder_build_identity) VALUES ($1,$2,$3,$4,$5,$6,$7,$8,$9,$10,$11,$12,$13) RETURNING id,drive_id,node_id,source_version_id,state,attempt_count,job_epoch,cache_key";

pub const START_MEDIA_ATTEMPT_UPDATE_PREVIEWS: &'static str = "UPDATE filebelt_media.previews SET state='running',attempt_count=attempt_count+1,job_epoch=job_epoch+1,updated_at=clock_timestamp() WHERE tenant_id=$1 AND id=$2 AND state='requested' AND cancellation_requested_at IS NULL AND attempt_count<$3 RETURNING job_epoch";

pub const START_MEDIA_ATTEMPT_INSERT_ATTEMPTS: &'static str = "INSERT INTO filebelt_media.attempts (tenant_id,id,preview_id,job_epoch,source_capability_digest,output_capability_digest,callback_capability_digest) VALUES ($1,$2,$3,$4,$5,$6,$7)";

pub const RECORD_VERIFIED_MEDIA_SEGMENT_UPDATE_ATTEMPTS: &'static str = "UPDATE filebelt_media.attempts a SET state='verifying' FROM filebelt_media.previews p WHERE a.tenant_id=$1 AND a.id=$2 AND a.preview_id=$3 AND a.job_epoch=$4 AND a.state IN ('running','verifying') AND p.tenant_id=a.tenant_id AND p.id=a.preview_id AND p.state IN ('running','verifying') AND p.job_epoch=a.job_epoch AND p.cancellation_requested_at IS NULL";

pub const RECORD_VERIFIED_MEDIA_SEGMENT_INSERT_SEGMENT_RECEIPTS: &'static str = "INSERT INTO filebelt_media.segment_receipts (tenant_id,preview_id,attempt_id,job_epoch,ordinal,segment_id,blake3,byte_length,start_time_milliseconds,duration_milliseconds,initialization_segment) VALUES ($1,$2,$3,$4,$5,$6,$7,$8,$9,$10,$11) ON CONFLICT DO NOTHING";

pub const PUBLISH_MEDIA_MANIFEST_COUNT_SEGMENT_RECEIPTS: &'static str = "SELECT count(*) AS count FROM filebelt_media.segment_receipts WHERE tenant_id=$1 AND preview_id=$2 AND attempt_id=$3 AND job_epoch=$4";

pub const PUBLISH_MEDIA_MANIFEST_UPDATE_PREVIEWS: &'static str = "UPDATE filebelt_media.previews p SET state='ready',ready_at=clock_timestamp(),last_accessed_at=clock_timestamp(),expires_at=clock_timestamp()+interval '30 days',updated_at=clock_timestamp() FROM filebelt_media.attempts a WHERE p.tenant_id=$1 AND p.id=$2 AND p.job_epoch=$3 AND p.state IN ('running','verifying') AND a.tenant_id=p.tenant_id AND a.id=$4 AND a.preview_id=p.id AND a.job_epoch=p.job_epoch AND a.state='verifying' AND p.cancellation_requested_at IS NULL RETURNING p.id";

pub const PUBLISH_MEDIA_MANIFEST_SELECT_MANIFEST_REVISIONS: &'static str = "SELECT COALESCE(max(revision),0)+1 AS revision FROM filebelt_media.manifest_revisions WHERE tenant_id=$1 AND preview_id=$2";

pub const PUBLISH_MEDIA_MANIFEST_INSERT_MANIFEST_REVISIONS: &'static str = "INSERT INTO filebelt_media.manifest_revisions (tenant_id,preview_id,revision,attempt_id,job_epoch,manifest_id,manifest_blake3,manifest_byte_length) VALUES ($1,$2,$3,$4,$5,$6,$7,$8)";

pub const PUBLISH_MEDIA_MANIFEST_INSERT_CACHE_ARTIFACTS: &'static str = "INSERT INTO filebelt_media.cache_artifacts (tenant_id,id,preview_id,manifest_revision,charged_bytes,expires_at) VALUES ($1,$2,$3,$4,$5,clock_timestamp()+interval '30 days')";

pub const PUBLISH_MEDIA_MANIFEST_UPDATE_ATTEMPTS: &'static str = "UPDATE filebelt_media.attempts SET state='complete',finished_at=clock_timestamp() WHERE tenant_id=$1 AND id=$2 AND job_epoch=$3 AND state='verifying'";

} // verus!
