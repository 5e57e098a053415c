//! Statements on collaborative rooms and their objects.

use vstd::prelude::*;

verus! {

pub const PREPARE_CHECKPOINT_SELECT_EPOCHS: &'static str = "SELECT node_id,base_version_id,durable_sequence,fencing_token FROM filebelt_collaboration.epochs WHERE tenant_id=$1 AND room_id=$2 AND epoch=$3 AND state='active' FOR UPDATE";

pub const PREPARE_CHECKPOINT_EXISTS_UPDATE_GROUPS: &'static str = "SELECT EXISTS (SELECT 1 FROM filebelt_collaboration.update_groups g JOIN filebelt_mcp.invocations i ON i.tenant_id=g.tenant_id AND i.id=g.mcp_invocation_id WHERE g.tenant_id=$1 AND g.room_id=$2 AND g.epoch=$3 AND g.origin_kind='mcp' AND g.last_sequence<=$4 AND i.principal_id=g.actor_principal_id AND i.application_id='filebelt-web-markdown-proposal' AND i.state='succeeded' AND i.semantic_node_id=$5 AND i.semantic_base_version_id=$6 AND i.semantic_input_digest=g.source_before_digest AND i.semantic_output_digest=g.source_after_digest)";

pub const PREPARE_CHECKPOINT_UPDATE_CHECKPOINTS: &'static str = "UPDATE filebelt_collaboration.checkpoints SET state='expired' WHERE tenant_id=$1 AND room_id=$2 AND epoch=$3 AND state='prepared'";

pub const PREPARE_CHECKPOINT_INSERT_CHECKPOINTS: &'static str = "INSERT INTO filebelt_collaboration.checkpoints (tenant_id,id,room_id,epoch,node_id,base_version_id,durable_sequence, state_vector,source_size_bytes,source_blake3,created_by,mcp_assisted,expires_at) VALUES ($1,$2,$3,$4,$5,$6,$7,$8,$9,$10,$11,$12, clock_timestamp()+interval '5 minutes')";

pub const JOIN_PARTICIPANT_SELECT_EPOCHS: &'static str = "SELECT 1 FROM filebelt_collaboration.epochs WHERE tenant_id=$1 AND room_id=$2 AND epoch=$3 AND state='active' FOR UPDATE";

pub const JOIN_PARTICIPANT_DELETE_PARTICIPANTS: &'static str = "DELETE FROM filebelt_collaboration.participants WHERE tenant_id=$1 AND room_id=$2 AND epoch=$3 AND expires_at<=clock_timestamp()";

pub const JOIN_PARTICIPANT_COUNT_PARTICIPANTS: &'static str = "SELECT count(*) FROM filebelt_collaboration.participants WHERE tenant_id=$1 AND room_id=$2 AND epoch=$3";

pub const JOIN_PARTICIPANT_INSERT_PARTICIPANTS: &'static str = "INSERT INTO filebelt_collaboration.participants (tenant_id,room_id,epoch,client_id,connection_id,principal_id,session_id,expires_at) VALUES ($1,$2,$3,$4,$5,$6,$7,clock_timestamp()+interval '90 seconds') ON CONFLICT (tenant_id,room_id,epoch,client_id) DO NOTHING";

pub const HEARTBEAT_PARTICIPANT: &'static str = "UPDATE filebelt_collaboration.participants SET last_seen_at=clock_timestamp(),expires_at=clock_timestamp()+interval '90 seconds' WHERE tenant_id=$1 AND connection_id=$2 AND expires_at>clock_timestamp()";

pub const LEAVE_PARTICIPANT: &'static str = "DELETE FROM filebelt_collaboration.participants WHERE tenant_id=$1 AND connection_id=$2";

pub const EPOCH_IS_CURRENT: &'static str = "SELECT EXISTS(SELECT 1 FROM filebelt_collaboration.epochs e JOIN public.nodes n ON n.tenant_id=e.tenant_id AND n.drive_id=e.drive_id AND n.id=e.node_id WHERE e.tenant_id=$1 AND e.room_id=$2 AND e.epoch=$3 AND e.state='active' AND e.fencing_token=$4 AND e.base_version_id=$5 AND n.head_version_id=$5 AND n.trash_root_id IS NULL)";

pub const ROOM: &'static str = "SELECT e.room_id,e.epoch,e.drive_id,e.node_id,e.base_version_id,e.state,e.durable_sequence,e.fencing_token,e.expires_at::text AS expires_at,e.warning_at::text AS warning_at FROM filebelt_collaboration.rooms r JOIN filebelt_collaboration.epochs e ON e.tenant_id=r.tenant_id AND e.room_id=r.id AND e.epoch=r.current_epoch WHERE r.tenant_id=$1 AND r.drive_id=$2 AND r.node_id=$3";

pub const GET_OR_CREATE_ROOM_SELECT_ROOMS: &'static str = "SELECT e.room_id,e.epoch,e.drive_id,e.node_id,e.base_version_id,e.state,e.durable_sequence,e.fencing_token,e.expires_at::text AS expires_at,e.warning_at::text AS warning_at FROM filebelt_collaboration.rooms r JOIN filebelt_collaboration.epochs e ON e.tenant_id=r.tenant_id AND e.room_id=r.id AND e.epoch=r.current_epoch WHERE r.tenant_id=$1 AND r.drive_id=$2 AND r.node_id=$3 FOR UPDATE OF r,e";

pub const GET_OR_CREATE_ROOM_UPDATE_EPOCHS: &'static str = "UPDATE filebelt_collaboration.epochs SET state='frozen',freeze_reason='external_head',fencing_token=fencing_token+1 WHERE tenant_id=$1 AND room_id=$2 AND epoch=$3 AND state='active'";

pub const GET_OR_CREATE_ROOM_INSERT_EPOCHS: &'static str = "INSERT INTO filebelt_collaboration.epochs (tenant_id,room_id,epoch,drive_id,node_id,base_version_id) VALUES ($1,$2,$3,$4,$5,$6) RETURNING room_id,epoch,drive_id,node_id,base_version_id,state,durable_sequence,fencing_token,expires_at::text AS expires_at,warning_at::text AS warning_at";

pub const GET_OR_CREATE_ROOM_UPDATE_ROOMS: &'static str = "UPDATE filebelt_collaboration.rooms SET current_epoch=$3,updated_at=clock_timestamp() WHERE tenant_id=$1 AND id=$2";

pub const GET_OR_CREATE_ROOM_INSERT_ROOMS: &'static str = "INSERT INTO filebelt_collaboration.rooms (tenant_id,id,drive_id,node_id,created_by) VALUES ($1,$2,$3,$4,$5)";

pub const GET_OR_CREATE_ROOM_INSERT_EPOCHS_2: &'static str = "INSERT INTO filebelt_collaboration.epochs (tenant_id,room_id,epoch,drive_id,node_id,base_version_id) VALUES ($1,$2,1,$3,$4,$5) RETURNING room_id,epoch,drive_id,node_id,base_version_id,state,durable_sequence,fencing_token,expires_at::text AS expires_at,warning_at::text AS warning_at";

pub const CREATE_JOIN_GRANT: &'static str = "INSERT INTO filebelt_collaboration.join_grants (tenant_id,id,token_digest,room_id,epoch,principal_id,session_id,client_id,presence_mode,presence_label,resource_acl_generation,drive_acl_generation,membership_generation,namespace_generation,can_checkpoint,expires_at) SELECT $1,$2,$3,$4,$5,$6,$7,$8,$9,$10,$11,$12,$13,$14,$15,clock_timestamp()+interval '60 seconds' FROM filebelt_collaboration.epochs WHERE tenant_id=$1 AND room_id=$4 AND epoch=$5 AND state='active' RETURNING id,room_id,epoch,principal_id,session_id,client_id,presence_mode,presence_label,can_checkpoint,expires_at::text AS expires_at";

pub const CONSUME_JOIN_GRANT: &'static str = "UPDATE filebelt_collaboration.join_grants g SET consumed_at=clock_timestamp() FROM filebelt_collaboration.epochs e WHERE g.tenant_id=$1 AND g.token_digest=$2 AND g.consumed_at IS NULL AND g.expires_at>clock_timestamp() AND e.tenant_id=g.tenant_id AND e.room_id=g.room_id AND e.epoch=g.epoch AND e.state='active' RETURNING g.id,g.room_id,g.epoch,g.principal_id,g.session_id,g.client_id,g.presence_mode,g.presence_label,g.can_checkpoint,g.expires_at::text AS expires_at";

pub const RESERVE_OBJECT_SELECT_EPOCHS: &'static str = "SELECT node_id,fencing_token FROM filebelt_collaboration.epochs WHERE tenant_id=$1 AND room_id=$2 AND epoch=$3 AND drive_id=$4 AND state='active' FOR UPDATE";

pub const RESERVE_OBJECT_UPDATE_DRIVES: &'static str = "UPDATE public.drives SET reserved_bytes=reserved_bytes+$3 WHERE tenant_id=$1 AND id=$2 AND used_physical_bytes+reserved_bytes+$3<=quota_bytes RETURNING id";

pub const RESERVE_OBJECT_SELECT_STORAGE_BACKENDS: &'static str = "SELECT id FROM public.storage_backends WHERE tenant_id=$1 AND kind='posix' AND storage_ready AND capacity_checked_at>clock_timestamp()-interval '2 minutes' AND capacity_free_bytes-(SELECT COALESCE(sum(reserved_bytes),0) FROM public.drives WHERE tenant_id=$1)>=10737418240 AND (capacity_free_bytes-(SELECT COALESCE(sum(reserved_bytes),0) FROM public.drives WHERE tenant_id=$1))::numeric>=capacity_total_bytes::numeric*0.05 FOR SHARE";

pub const RESERVE_OBJECT_INSERT_PAYLOAD_OBJECTS: &'static str = "INSERT INTO filebelt_collaboration.payload_objects (tenant_id,id,drive_id,backend_id,locator,layout,state,size_bytes,authority_kind) VALUES ($1,$2,$3,$4,$5,'whole','staging',$6,'collaboration')";

pub const RESERVE_OBJECT_INSERT_OBJECTS: &'static str = "INSERT INTO filebelt_collaboration.objects (tenant_id,id,room_id,epoch,drive_id,payload_id,purpose,reserved_bytes) VALUES ($1,$2,$3,$4,$5,$6,$7,$8)";

pub const RESERVE_OBJECT_INSERT_OBJECT_RESERVATIONS: &'static str = "INSERT INTO filebelt_collaboration.object_reservations (tenant_id,object_id,drive_id,bytes,expires_at) VALUES ($1,$2,$3,$4,clock_timestamp()+interval '5 minutes')";

pub const OBJECT: &'static str = "SELECT o.id,o.room_id,o.epoch,o.drive_id,e.node_id,e.fencing_token,o.payload_id,p.backend_id,p.locator AS payload_locator,o.purpose,o.state,o.reserved_bytes,o.size_bytes,o.blake3 FROM filebelt_collaboration.objects o JOIN filebelt_collaboration.epochs e ON e.tenant_id=o.tenant_id AND e.room_id=o.room_id AND e.epoch=o.epoch JOIN filebelt_collaboration.payload_objects p ON p.tenant_id=o.tenant_id AND p.id=o.payload_id WHERE o.tenant_id=$1 AND o.id=$2";

pub const FINALIZE_OBJECT_SELECT_OBJECTS: &'static str = "SELECT o.state,o.reserved_bytes,o.size_bytes,o.blake3, e.node_id,e.drive_id,e.state AS epoch_state,e.fencing_token, r.state AS reservation_state FROM filebelt_collaboration.objects o JOIN filebelt_collaboration.epochs e ON e.tenant_id=o.tenant_id AND e.room_id=o.room_id AND e.epoch=o.epoch JOIN filebelt_collaboration.object_reservations r ON r.tenant_id=o.tenant_id AND r.object_id=o.id JOIN filebelt_collaboration.payload_objects p ON p.tenant_id=o.tenant_id AND p.id=o.payload_id WHERE o.tenant_id=$1 AND o.id=$2 FOR UPDATE OF o,e,r,p";

pub const FINALIZE_OBJECT_UPDATE_PAYLOAD_OBJECTS: &'static str = "UPDATE filebelt_collaboration.payload_objects p SET state='finalized',size_bytes=$3,blake3=$4,finalized_at=clock_timestamp() FROM filebelt_collaboration.objects o WHERE o.tenant_id=$1 AND o.id=$2 AND p.tenant_id=o.tenant_id AND p.id=o.payload_id AND p.state='staging'";

pub const FINALIZE_OBJECT_UPDATE_OBJECTS: &'static str = "UPDATE filebelt_collaboration.objects SET state='durable',size_bytes=$3,blake3=$4,durable_at=clock_timestamp() WHERE tenant_id=$1 AND id=$2 AND state='staging'";

pub const FINALIZE_OBJECT_UPDATE_OBJECT_RESERVATIONS: &'static str = "UPDATE filebelt_collaboration.object_reservations SET state='committed' WHERE tenant_id=$1 AND object_id=$2 AND state='active'";

pub const FINALIZE_OBJECT_UPDATE_DRIVES: &'static str = "UPDATE public.drives d SET reserved_bytes=reserved_bytes-$3,used_physical_bytes=used_physical_bytes+$4 FROM filebelt_collaboration.objects o WHERE o.tenant_id=$1 AND o.id=$2 AND d.tenant_id=o.tenant_id AND d.id=o.drive_id AND d.reserved_bytes >= $3";

pub const PERSIST_UPDATE_GROUP_SELECT_EPOCHS: &'static str = "SELECT durable_sequence,fencing_token,base_version_id FROM filebelt_collaboration.epochs WHERE tenant_id=$1 AND room_id=$2 AND epoch=$3 AND drive_id=$4 AND node_id=$5 AND state='active' FOR UPDATE";

pub const PERSIST_UPDATE_GROUP_EXISTS_INVOCATIONS: &'static str = "SELECT EXISTS (SELECT 1 FROM filebelt_mcp.invocations WHERE tenant_id=$1 AND id=$2 AND principal_id=$3 AND application_id='filebelt-web-markdown-proposal' AND state='succeeded' AND semantic_node_id=$4 AND semantic_base_version_id=$5 AND semantic_input_digest=$6 AND semantic_output_digest=$7)";

pub const PERSIST_UPDATE_GROUP_SELECT_OBJECTS: &'static str = "SELECT blake3 FROM filebelt_collaboration.objects WHERE tenant_id=$1 AND id=$2 AND room_id=$3 AND epoch=$4 AND state='durable' FOR UPDATE";

pub const PERSIST_UPDATE_GROUP_SELECT_UPDATE_GROUPS: &'static str = "SELECT g.object_id,g.first_sequence,g.last_sequence,g.state_digest,g.mcp_invocation_id,g.source_before_digest,g.source_after_digest,o.blake3 FROM filebelt_collaboration.update_groups g JOIN filebelt_collaboration.objects o ON o.tenant_id=g.tenant_id AND o.id=g.object_id WHERE g.tenant_id=$1 AND g.room_id=$2 AND g.epoch=$3 AND g.client_id=$4 AND g.client_update_id=$5";

pub const PERSIST_UPDATE_GROUP_UPDATE_OBJECTS: &'static str = "UPDATE filebelt_collaboration.objects SET state='superseded',delete_after=clock_timestamp()+interval '1 day' WHERE tenant_id=$1 AND id=$2 AND state='durable'";

pub const PERSIST_UPDATE_GROUP_INSERT_UPDATE_GROUPS: &'static str = "INSERT INTO filebelt_collaboration.update_groups (tenant_id,room_id,epoch,id,client_id,client_update_id,actor_principal_id,origin_kind,mcp_invocation_id,source_before_digest,source_after_digest,object_id,chunk_count,total_bytes,first_sequence,last_sequence,state_vector,state_digest) SELECT $1,$2,$3,$4,$5,$6,$7,$8,$9,$10,$11,$12,$13,$14,$15,$16,$17,$18 WHERE EXISTS (SELECT 1 FROM filebelt_collaboration.objects WHERE tenant_id=$1 AND id=$12 AND room_id=$2 AND epoch=$3 AND state='durable')";

pub const PERSIST_UPDATE_GROUP_SELECT_UPDATE_GROUPS_2: &'static str = "SELECT id FROM filebelt_collaboration.update_groups WHERE tenant_id=$1 AND room_id=$2 AND epoch=$3 AND client_id=$4 AND client_update_id=$5";

pub const PERSIST_UPDATE_GROUP_INSERT_UPDATE_CHUNKS: &'static str = "INSERT INTO filebelt_collaboration.update_chunks (tenant_id,group_id,chunk_index,object_offset,size_bytes,blake3) VALUES ($1,$2,$3,$4,$5,$6)";

pub const PERSIST_UPDATE_GROUP_UPDATE_EPOCHS: &'static str = "UPDATE filebelt_collaboration.epochs SET durable_sequence=$4,dirty=true,last_content_activity_at=clock_timestamp(),expires_at=clock_timestamp()+interval '30 days',warning_at=clock_timestamp()+interval '23 days' WHERE tenant_id=$1 AND room_id=$2 AND epoch=$3";

pub const REPLAY_GROUPS_SELECT_UPDATE_GROUPS: &'static str = "SELECT o.id,o.room_id,o.epoch,o.drive_id,e.node_id,e.fencing_token, o.payload_id,p.backend_id,p.locator AS payload_locator,o.purpose,o.state, o.reserved_bytes,o.size_bytes,o.blake3,g.first_sequence,g.last_sequence FROM filebelt_collaboration.update_groups g JOIN filebelt_collaboration.objects o ON o.tenant_id=g.tenant_id AND o.id=g.object_id JOIN filebelt_collaboration.epochs e ON e.tenant_id=o.tenant_id AND e.room_id=o.room_id AND e.epoch=o.epoch JOIN filebelt_collaboration.payload_objects p ON p.tenant_id=o.tenant_id AND p.id=o.payload_id WHERE g.tenant_id=$1 AND g.room_id=$2 AND g.epoch=$3 AND g.last_sequence>$4 AND o.state='durable' ORDER BY g.first_sequence";

pub const REPLAY_GROUPS_SELECT_UPDATE_GROUPS_2: &'static str = "SELECT c.chunk_index,c.object_offset,c.size_bytes,c.blake3 FROM filebelt_collaboration.update_groups g JOIN filebelt_collaboration.update_chunks c ON c.tenant_id=g.tenant_id AND c.group_id=g.id WHERE g.tenant_id=$1 AND g.room_id=$2 AND g.epoch=$3 AND g.object_id=$4 ORDER BY c.chunk_index";

pub const CURRENT_SNAPSHOT: &'static str = "SELECT o.id,o.room_id,o.epoch,o.drive_id,e.node_id,e.fencing_token, o.payload_id,p.backend_id,p.locator AS payload_locator,o.purpose,o.state, o.reserved_bytes,o.size_bytes,o.blake3,s.covered_sequence,s.state_vector FROM filebelt_collaboration.snapshots s JOIN filebelt_collaboration.objects o ON o.tenant_id=s.tenant_id AND o.id=s.object_id JOIN filebelt_collaboration.epochs e ON e.tenant_id=o.tenant_id AND e.room_id=o.room_id AND e.epoch=o.epoch JOIN filebelt_collaboration.payload_objects p ON p.tenant_id=o.tenant_id AND p.id=o.payload_id WHERE s.tenant_id=$1 AND s.room_id=$2 AND s.epoch=$3 AND s.superseded_at IS NULL AND o.state='durable' AND p.state='finalized'";

pub const COMMIT_SNAPSHOT_SELECT_EPOCHS: &'static str = "SELECT durable_sequence,fencing_token FROM filebelt_collaboration.epochs WHERE tenant_id=$1 AND room_id=$2 AND epoch=$3 AND drive_id=$4 AND node_id=$5 AND state='active' FOR UPDATE";

pub const COMMIT_SNAPSHOT_SELECT_OBJECTS: &'static str = "SELECT 1 FROM filebelt_collaboration.objects WHERE tenant_id=$1 AND id=$2 AND room_id=$3 AND epoch=$4 AND purpose='snapshot' AND state='durable' FOR UPDATE";

pub const COMMIT_SNAPSHOT_SELECT_SNAPSHOTS: &'static str = "SELECT id,object_id,covered_sequence FROM filebelt_collaboration.snapshots WHERE tenant_id=$1 AND room_id=$2 AND epoch=$3 AND superseded_at IS NULL FOR UPDATE";

pub const COMMIT_SNAPSHOT_UPDATE_SNAPSHOTS: &'static str = "UPDATE filebelt_collaboration.snapshots SET superseded_at=clock_timestamp() WHERE tenant_id=$1 AND id=$2 AND superseded_at IS NULL";

pub const COMMIT_SNAPSHOT_UPDATE_OBJECTS: &'static str = "UPDATE filebelt_collaboration.objects SET state='superseded', delete_after=clock_timestamp()+interval '1 day' WHERE tenant_id=$1 AND id=$2 AND state='durable'";

pub const COMMIT_SNAPSHOT_INSERT_SNAPSHOTS: &'static str = "INSERT INTO filebelt_collaboration.snapshots (tenant_id,room_id,epoch,id,object_id,covered_sequence,state_vector) VALUES ($1,$2,$3,$4,$5,$6,$7)";

pub const COMMIT_SNAPSHOT_UPDATE_OBJECTS_2: &'static str = "UPDATE filebelt_collaboration.objects o SET state='superseded', delete_after=clock_timestamp()+interval '1 day' FROM filebelt_collaboration.update_groups g WHERE o.tenant_id=$1 AND o.tenant_id=g.tenant_id AND o.id=g.object_id AND g.room_id=$2 AND g.epoch=$3 AND g.last_sequence<=$4 AND o.state='durable'";

pub const ABANDON_OBJECT_SELECT_OBJECTS: &'static str = "SELECT o.id,o.payload_id,o.drive_id,o.state,o.reserved_bytes,o.size_bytes, r.state AS reservation_state FROM filebelt_collaboration.objects o JOIN filebelt_collaboration.object_reservations r ON r.tenant_id=o.tenant_id AND r.object_id=o.id JOIN filebelt_collaboration.payload_objects p ON p.tenant_id=o.tenant_id AND p.id=o.payload_id WHERE o.tenant_id=$1 AND o.id=$2 FOR UPDATE OF o,r,p";

pub const ABANDON_OBJECT_EXISTS_UPDATE_GROUPS: &'static str = "SELECT EXISTS (SELECT 1 FROM filebelt_collaboration.update_groups WHERE tenant_id=$1 AND object_id=$2) OR EXISTS ( SELECT 1 FROM filebelt_collaboration.snapshots WHERE tenant_id=$1 AND object_id=$2)";

pub const ABANDON_OBJECT_UPDATE_OBJECT_RESERVATIONS: &'static str = "UPDATE filebelt_collaboration.object_reservations SET state='released' WHERE tenant_id=$1 AND object_id=$2 AND state='active'";

pub const ABANDON_OBJECT_UPDATE_DRIVES: &'static str = "UPDATE public.drives SET reserved_bytes=reserved_bytes-$3 WHERE tenant_id=$1 AND id=$2 AND reserved_bytes>=$3";

pub const ABANDON_OBJECT_UPDATE_OBJECTS: &'static str = "UPDATE filebelt_collaboration.objects SET state='quarantined' WHERE tenant_id=$1 AND id=$2 AND state='staging'";

pub const ABANDON_OBJECT_UPDATE_OBJECTS_2: &'static str = "UPDATE filebelt_collaboration.objects SET state='delete_intent',delete_after=clock_timestamp() WHERE tenant_id=$1 AND id=$2 AND state IN ('durable','superseded')";

pub const ABANDON_OBJECT_UPDATE_PAYLOAD_OBJECTS: &'static str = "UPDATE filebelt_collaboration.payload_objects SET state=$3, deletion_intent_at=clock_timestamp() WHERE tenant_id=$1 AND id=$2 AND state IN ('staging','finalized')";

pub const ABANDON_OBJECT_INSERT_JOBS: &'static str = "INSERT INTO public.jobs (tenant_id,id,kind,state,priority,aggregate_id,idempotency_key,payload) VALUES ($1,$2,'payload_delete','queued',80,$3,$4,$5) ON CONFLICT DO NOTHING";

pub const RETENTION_SWEEP_SELECT_OBJECTS: &'static str = "SELECT o.id FROM filebelt_collaboration.objects o JOIN filebelt_collaboration.object_reservations r ON r.tenant_id=o.tenant_id AND r.object_id=o.id WHERE o.tenant_id=$1 AND ( (o.state='staging' AND r.state='active' AND r.expires_at<=clock_timestamp()) OR (o.state='durable' AND o.durable_at<=clock_timestamp()-interval '5 minutes' AND NOT EXISTS (SELECT 1 FROM filebelt_collaboration.update_groups g WHERE g.tenant_id=o.tenant_id AND g.object_id=o.id) AND NOT EXISTS (SELECT 1 FROM filebelt_collaboration.snapshots s WHERE s.tenant_id=o.tenant_id AND s.object_id=o.id)) ) ORDER BY o.created_at LIMIT $2";

pub const RETENTION_SWEEP_UPDATE_EPOCHS: &'static str = "UPDATE filebelt_collaboration.epochs SET warning_emitted_at=clock_timestamp() WHERE (tenant_id,room_id,epoch) IN ( SELECT tenant_id,room_id,epoch FROM filebelt_collaboration.epochs WHERE tenant_id=$1 AND dirty AND state IN ('active','frozen') AND warning_at<=clock_timestamp() AND expires_at>clock_timestamp() AND warning_emitted_at IS NULL ORDER BY warning_at LIMIT $2 FOR UPDATE SKIP LOCKED )";

pub const RETENTION_SWEEP_UPDATE_EPOCHS_2: &'static str = "UPDATE filebelt_collaboration.epochs SET state='tombstoned',dirty=false, freeze_reason=NULL,closed_at=clock_timestamp(),fencing_token=fencing_token+1 WHERE (tenant_id,room_id,epoch) IN ( SELECT tenant_id,room_id,epoch FROM filebelt_collaboration.epochs WHERE tenant_id=$1 AND dirty AND state IN ('active','frozen') AND expires_at<=clock_timestamp() ORDER BY expires_at LIMIT $2 FOR UPDATE SKIP LOCKED ) RETURNING room_id,epoch";

pub const RETENTION_SWEEP_UPDATE_PAYLOAD_OBJECTS: &'static str = "UPDATE filebelt_collaboration.payload_objects p SET state='delete_intent',deletion_intent_at=clock_timestamp() FROM filebelt_collaboration.objects o WHERE p.tenant_id=$1 AND p.tenant_id=o.tenant_id AND p.id=o.payload_id AND o.room_id=$2 AND o.epoch=$3 AND o.state IN ('durable','superseded') AND p.state='finalized' RETURNING p.id";

pub const RETENTION_SWEEP_UPDATE_OBJECTS: &'static str = "UPDATE filebelt_collaboration.objects SET state='delete_intent',delete_after=clock_timestamp() WHERE tenant_id=$1 AND room_id=$2 AND epoch=$3 AND state IN ('durable','superseded')";

pub const RETENTION_SWEEP_SELECT_OBJECTS_2: &'static str = "SELECT id,payload_id FROM filebelt_collaboration.objects WHERE tenant_id=$1 AND state='superseded' AND delete_after<=clock_timestamp() ORDER BY delete_after LIMIT $2 FOR UPDATE SKIP LOCKED";

pub const RETENTION_SWEEP_UPDATE_PAYLOAD_OBJECTS_2: &'static str = "UPDATE filebelt_collaboration.payload_objects SET state='delete_intent', deletion_intent_at=clock_timestamp() WHERE tenant_id=$1 AND id=$2 AND state='finalized'";

pub const RETENTION_SWEEP_UPDATE_OBJECTS_2: &'static str = "UPDATE filebelt_collaboration.objects SET state='delete_intent' WHERE tenant_id=$1 AND id=$2 AND state='superseded'";

pub const COMPLETE_COLLABORATION_PAYLOAD_DELETION_SELECT_OBJECTS: &'static str = "SELECT o.id,o.drive_id,o.size_bytes,o.state,p.state AS payload_state, r.state AS reservation_state FROM filebelt_collaboration.objects o JOIN filebelt_collaboration.payload_objects p ON p.tenant_id=o.tenant_id AND p.id=o.payload_id JOIN filebelt_collaboration.object_reservations r ON r.tenant_id=o.tenant_id AND r.object_id=o.id WHERE o.tenant_id=$1 AND o.payload_id=$2 AND o.state IN ('delete_intent','quarantined','tombstoned','abandoned') AND p.state IN ('deleting','deleted','abandoned') FOR UPDATE OF o,p,r";

pub const COMPLETE_COLLABORATION_PAYLOAD_DELETION_UPDATE_PAYLOAD_OBJECTS: &'static str = "UPDATE filebelt_collaboration.payload_objects SET state='deleted' WHERE tenant_id=$1 AND id=$2 AND state='deleting'";

pub const COMPLETE_COLLABORATION_PAYLOAD_DELETION_UPDATE_OBJECTS: &'static str = "UPDATE filebelt_collaboration.objects SET state=$3 WHERE tenant_id=$1 AND id=$2 AND state IN ('delete_intent','quarantined')";

pub const COMPLETE_COLLABORATION_PAYLOAD_DELETION_UPDATE_DRIVES: &'static str = "UPDATE public.drives SET used_physical_bytes=used_physical_bytes-$3 WHERE tenant_id=$1 AND id=$2 AND used_physical_bytes>=$3";

pub const FREEZE: &'static str = "UPDATE filebelt_collaboration.epochs SET state='frozen',freeze_reason=$4,fencing_token=fencing_token+1 WHERE tenant_id=$1 AND room_id=$2 AND epoch=$3 AND state='active'";

pub const DISCARD: &'static str = "UPDATE filebelt_collaboration.epochs SET state=CASE WHEN dirty THEN 'frozen' ELSE 'closed' END, freeze_reason=CASE WHEN dirty THEN 'discarded' ELSE NULL END, closed_at=CASE WHEN dirty THEN NULL ELSE clock_timestamp() END, warning_at=CASE WHEN dirty THEN clock_timestamp()-interval '1 microsecond' ELSE warning_at END, expires_at=CASE WHEN dirty THEN clock_timestamp() ELSE expires_at END, fencing_token=fencing_token+1 WHERE tenant_id=$1 AND room_id=$2 AND epoch=$3 AND drive_id=$4 AND node_id=$5 AND state IN ('active','frozen')";

pub const CREATE_IMPORT_INTENT: &'static str = "INSERT INTO filebelt_collaboration.import_intents (tenant_id,id,drive_id,source_node_id,source_version_id,target_parent_id,target_display_name,target_name_key,principal_id,session_id,source_membership_generation,source_drive_acl_generation,source_namespace_generation,source_resource_acl_generation,target_membership_generation,target_drive_acl_generation,target_namespace_generation,target_resource_acl_generation,expires_at) SELECT $1,$2,$3,$4,$5,n.parent_id,$6,$7,$8,$9,$10,$11,$12,$13,$14,$15,$16,$17,clock_timestamp()+interval '15 minutes' FROM public.nodes n JOIN public.file_versions v ON v.tenant_id=n.tenant_id AND v.node_id=n.id AND v.id=$5 WHERE n.tenant_id=$1 AND n.drive_id=$3 AND n.id=$4 AND n.kind='file' AND n.parent_id IS NOT NULL AND n.trash_root_id IS NULL RETURNING id,drive_id,source_node_id,source_version_id,target_parent_id,target_display_name,target_name_key,expires_at::text AS expires_at";

pub const CONSUME_IMPORT_INTENT: &'static str = "UPDATE filebelt_collaboration.import_intents SET state='consumed',consumed_at=clock_timestamp() WHERE tenant_id=$1 AND id=$2 AND principal_id=$3 AND session_id=$4 AND state='active' AND expires_at>clock_timestamp() RETURNING id,drive_id,source_node_id,source_version_id,target_parent_id,target_display_name,target_name_key,expires_at::text AS expires_at";

} // verus!
