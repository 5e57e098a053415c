//! Durable, fenced media-preview metadata. Payload and cache locators remain absent: only the
//! I/O service resolves physical storage.

use std::sync::Arc;

use vstd::prelude::*;

use crate::database::Database;
use crate::error::DatabaseError;
use crate::error::Fault;
use crate::id::Uuid;
use crate::row::FromRow;
use crate::row::Reply;
use crate::row::Row;
use crate::row::exactly_one;
use crate::row::optional;
use crate::row::required;
use crate::row::single;
use crate::sql::media as sql;
use crate::step::Command;
use crate::step::CommandView;
use crate::step::Param;
use crate::step::Step;
use crate::step::StepView;
use crate::step::ask_execute;
use crate::step::ask_one;
use crate::step::ask_optional;
use crate::step::stop;
use crate::text::bytes_eq;
use crate::text::digest_of;
use crate::text::text_eq;
use crate::text;

verus! {

/// How often a preview may be attempted.
pub const MEDIA_MAX_ATTEMPTS: i32 = 3;

/// How long a playback admission lasts.
pub const MEDIA_PLAYBACK_LIFETIME_SECONDS: i64 = 60;

/// The states of a media preview.
#[derive(Clone, Copy, Debug, PartialEq, Eq, Structural)]
pub enum MediaPreviewState {
    Requested,
    Running,
    Verifying,
    Ready,
    Failed,
    Quarantined,
    Cancelled,
    Evicting,
    Evicted,
}

impl MediaPreviewState {
    /// The state's stored name.
    pub open spec fn name(self) -> &'static str {
        match self {
            MediaPreviewState::Requested => "requested",
            MediaPreviewState::Running => "running",
            MediaPreviewState::Verifying => "verifying",
            MediaPreviewState::Ready => "ready",
            MediaPreviewState::Failed => "failed",
            MediaPreviewState::Quarantined => "quarantined",
            MediaPreviewState::Cancelled => "cancelled",
            MediaPreviewState::Evicting => "evicting",
            MediaPreviewState::Evicted => "evicted",
        }
    }

    /// The state with this stored name; an error where there is none.
    pub open spec fn parse_spec(value: Seq<char>) -> Result<MediaPreviewState, DatabaseError> {
        if exists|state: MediaPreviewState| (#[trigger] state.name())@ == value {
            Ok(choose|state: MediaPreviewState| (#[trigger] state.name())@ == value)
        } else {
            Err(DatabaseError::InvalidPersistedValue)
        }
    }

    /// Reads a stored state.
    pub fn parse(value: &str) -> (r: Result<MediaPreviewState, DatabaseError>)
        ensures
            r == Self::parse_spec(value@),
            r is Ok ==> r->Ok_0.name()@ == value@,
    {
        proof {
            lemma_state_names_differ();
        }
        let states: [MediaPreviewState; 9] = [
            MediaPreviewState::Requested,
            MediaPreviewState::Running,
            MediaPreviewState::Verifying,
            MediaPreviewState::Ready,
            MediaPreviewState::Failed,
            MediaPreviewState::Quarantined,
            MediaPreviewState::Cancelled,
            MediaPreviewState::Evicting,
            MediaPreviewState::Evicted,
        ];
        let mut at: usize = 0;
        while at < 9
            invariant
                at <= 9,
                states@ == seq![
                    MediaPreviewState::Requested,
                    MediaPreviewState::Running,
                    MediaPreviewState::Verifying,
                    MediaPreviewState::Ready,
                    MediaPreviewState::Failed,
                    MediaPreviewState::Quarantined,
                    MediaPreviewState::Cancelled,
                    MediaPreviewState::Evicting,
                    MediaPreviewState::Evicted,
                ],
                forall|i: int| 0 <= i < at ==> (#[trigger] states@[i]).name()@ != value@,
                forall|a: MediaPreviewState, b: MediaPreviewState|
                    (#[trigger] a.name())@ == (#[trigger] b.name())@ ==> a == b,
            decreases 9 - at,
        {
            if text_eq(states[at].as_str(), value) {
                return Ok(states[at]);
            }
            at = at + 1;
        }
        assert forall|state: MediaPreviewState| (#[trigger] state.name())@ != value@ by {
            let i: int = match state {
                MediaPreviewState::Requested => 0,
                MediaPreviewState::Running => 1,
                MediaPreviewState::Verifying => 2,
                MediaPreviewState::Ready => 3,
                MediaPreviewState::Failed => 4,
                MediaPreviewState::Quarantined => 5,
                MediaPreviewState::Cancelled => 6,
                MediaPreviewState::Evicting => 7,
                MediaPreviewState::Evicted => 8,
            };
            assert(states@[i] == state);
        }
        Err(DatabaseError::InvalidPersistedValue)
    }

    /// The state's stored name.
    #[must_use]
    pub fn as_str(self) -> (text: &'static str)
        ensures
            text == self.name(),
    {
        match self {
            MediaPreviewState::Requested => "requested",
            MediaPreviewState::Running => "running",
            MediaPreviewState::Verifying => "verifying",
            MediaPreviewState::Ready => "ready",
            MediaPreviewState::Failed => "failed",
            MediaPreviewState::Quarantined => "quarantined",
            MediaPreviewState::Cancelled => "cancelled",
            MediaPreviewState::Evicting => "evicting",
            MediaPreviewState::Evicted => "evicted",
        }
    }
}

/// Distinct states have distinct stored names.
proof fn lemma_state_names_differ()
    ensures
        forall|a: MediaPreviewState, b: MediaPreviewState|
            (#[trigger] a.name())@ == (#[trigger] b.name())@ ==> a == b,
{
    reveal_strlit("requested");
    reveal_strlit("running");
    reveal_strlit("verifying");
    reveal_strlit("ready");
    reveal_strlit("failed");
    reveal_strlit("quarantined");
    reveal_strlit("cancelled");
    reveal_strlit("evicting");
    reveal_strlit("evicted");
    assert("requested"@.len() == 9 && "running"@.len() == 7 && "verifying"@.len() == 9);
    assert("ready"@.len() == 5 && "failed"@.len() == 6 && "quarantined"@.len() == 11);
    assert("cancelled"@.len() == 9 && "evicting"@.len() == 8 && "evicted"@.len() == 7);
    assert("requested"@[0] == 'r' && "verifying"@[0] == 'v' && "cancelled"@[0] == 'c');
    assert("running"@[0] == 'r' && "evicted"@[0] == 'e');
}

/// A stored state reads back as the state that was stored, and nothing else reads as it.
pub proof fn state_names_round_trip(state: MediaPreviewState, value: Seq<char>)
    ensures
        MediaPreviewState::parse_spec(value) == Ok::<MediaPreviewState, DatabaseError>(state)
            <==> value == state.name()@,
{
    lemma_state_names_differ();
    if value == state.name()@ {
        assert(MediaPreviewState::parse_spec(value) is Ok);
    }
}

/// A stored preview.
#[derive(Debug)]
pub struct MediaPreviewRecord {
    pub id: Uuid,
    pub drive_id: Uuid,
    pub node_id: Uuid,
    pub source_version_id: Uuid,
    pub state: MediaPreviewState,
    pub attempt_count: i32,
    pub job_epoch: i64,
    pub cache_key: [u8; 32],
}

impl MediaPreviewRecord {
    /// What a row holds, read by its column names.
    #[verifier::opaque]
    pub open spec fn of_row(row: Row) -> Result<MediaPreviewRecord, Fault> {
        if row.column::<Uuid>("id"@) is Some
            && row.column::<Uuid>("drive_id"@) is Some
            && row.column::<Uuid>("node_id"@) is Some
            && row.column::<Uuid>("source_version_id"@) is Some
            && row.column::<String>("state"@) is Some
            && row.column::<i32>("attempt_count"@) is Some
            && row.column::<i64>("job_epoch"@) is Some
            && row.column::<Arc<Vec<u8>>>("cache_key"@) is Some {
            if MediaPreviewState::parse_spec(row.column::<String>("state"@)->0@) is Err {
                Err(
                    Fault::Error(
                        MediaPreviewState::parse_spec(row.column::<String>("state"@)->0@)->Err_0,
                    ),
                )
            } else {
                if text::digest_spec(row.column::<Arc<Vec<u8>>>("cache_key"@)->0@) is Err {
                    Err(
                        Fault::Error(
                            text::digest_spec(row.column::<Arc<Vec<u8>>>("cache_key"@)->0@)->Err_0,
                        ),
                    )
                } else {
                    Ok(
                        MediaPreviewRecord {
                            id: row.column::<Uuid>("id"@)->0,
                            drive_id: row.column::<Uuid>("drive_id"@)->0,
                            node_id: row.column::<Uuid>("node_id"@)->0,
                            source_version_id: row.column::<Uuid>("source_version_id"@)->0,
                            state: MediaPreviewState::parse_spec(
                                row.column::<String>("state"@)->0@,
                            )->Ok_0,
                            attempt_count: row.column::<i32>("attempt_count"@)->0,
                            job_epoch: row.column::<i64>("job_epoch"@)->0,
                            cache_key: text::digest_spec(
                                row.column::<Arc<Vec<u8>>>("cache_key"@)->0@,
                            )->Ok_0,
                        },
                    )
                }
            }
        } else {
            Err(Fault::Malformed)
        }
    }
}

impl FromRow for MediaPreviewRecord {
    open spec fn row_spec(row: Row) -> Result<MediaPreviewRecord, Fault> {
        MediaPreviewRecord::of_row(row)
    }

    fn from_row(row: &Row) -> (r: Result<MediaPreviewRecord, Fault>) {
        proof {
            reveal(MediaPreviewRecord::of_row);
        }
        let id: Uuid = match row.get("id") {
            Some(v) => v,
            None => return Err(Fault::Malformed),
        };
        let drive_id: Uuid = match row.get("drive_id") {
            Some(v) => v,
            None => return Err(Fault::Malformed),
        };
        let node_id: Uuid = match row.get("node_id") {
            Some(v) => v,
            None => return Err(Fault::Malformed),
        };
        let source_version_id: Uuid = match row.get("source_version_id") {
            Some(v) => v,
            None => return Err(Fault::Malformed),
        };
        let state: String = match row.get("state") {
            Some(v) => v,
            None => return Err(Fault::Malformed),
        };
        let attempt_count: i32 = match row.get("attempt_count") {
            Some(v) => v,
            None => return Err(Fault::Malformed),
        };
        let job_epoch: i64 = match row.get("job_epoch") {
            Some(v) => v,
            None => return Err(Fault::Malformed),
        };
        let cache_key: Arc<Vec<u8>> = match row.get("cache_key") {
            Some(v) => v,
            None => return Err(Fault::Malformed),
        };
        let state: MediaPreviewState = match MediaPreviewState::parse(state.as_str()) {
            Ok(value) => value,
            Err(error) => return Err(Fault::Error(error)),
        };
        let cache_key: [u8; 32] = match digest_of(cache_key.as_slice()) {
            Ok(value) => value,
            Err(error) => return Err(Fault::Error(error)),
        };
        Ok(MediaPreviewRecord {
            id, drive_id, node_id, source_version_id, state, attempt_count, job_epoch,
            cache_key,
        })
    }
}

/// The fingerprint of a request that was seen before.
#[derive(Debug)]
pub struct RequestFingerprint {
    pub request_fingerprint: Arc<Vec<u8>>,
}

impl RequestFingerprint {
    /// What a row holds, read by its column names.
    #[verifier::opaque]
    pub open spec fn of_row(row: Row) -> Result<RequestFingerprint, Fault> {
        if row.column::<Arc<Vec<u8>>>("request_fingerprint"@) is Some {
            Ok(
                RequestFingerprint {
                    request_fingerprint: row.column::<Arc<Vec<u8>>>("request_fingerprint"@)->0,
                },
            )
        } else {
            Err(Fault::Malformed)
        }
    }
}

impl FromRow for RequestFingerprint {
    open spec fn row_spec(row: Row) -> Result<RequestFingerprint, Fault> {
        RequestFingerprint::of_row(row)
    }

    fn from_row(row: &Row) -> (r: Result<RequestFingerprint, Fault>) {
        proof {
            reveal(RequestFingerprint::of_row);
        }
        let request_fingerprint: Arc<Vec<u8>> = match row.get("request_fingerprint") {
            Some(v) => v,
            None => return Err(Fault::Malformed),
        };
        Ok(RequestFingerprint { request_fingerprint })
    }
}

#[derive(Debug)]
pub struct AdmitMediaPreviewInput<'a> {
    pub tenant_id: Uuid,
    pub preview_id: Uuid,
    pub drive_id: Uuid,
    pub node_id: Uuid,
    pub source_version_id: Uuid,
    pub requester_principal_id: Uuid,
    pub requester_session_id: Uuid,
    pub idempotency_key: &'a str,
    pub request_fingerprint: &'a [u8; 32],
    pub cache_key: &'a [u8; 32],
    pub profile_id: &'a str,
    pub profile_digest: &'a [u8; 32],
    pub transcoder_build_identity: &'a [u8; 32],
}

#[derive(Debug)]
pub struct StartMediaAttemptInput<'a> {
    pub tenant_id: Uuid,
    pub preview_id: Uuid,
    pub attempt_id: Uuid,
    pub source_capability_digest: &'a [u8; 32],
    pub output_capability_digest: &'a [u8; 32],
    pub callback_capability_digest: &'a [u8; 32],
}

/// An attempt that was started, with the epoch that fences it.
#[derive(Clone, Copy, Debug, PartialEq, Eq, Structural)]
pub struct MediaAttemptRecord {
    pub id: Uuid,
    pub preview_id: Uuid,
    pub job_epoch: i64,
}

#[derive(Debug)]
pub struct RecordVerifiedSegmentInput<'a> {
    pub tenant_id: Uuid,
    pub preview_id: Uuid,
    pub attempt_id: Uuid,
    pub job_epoch: i64,
    pub ordinal: i64,
    pub segment_id: Uuid,
    pub blake3: &'a [u8; 32],
    pub byte_length: i64,
    pub start_time_milliseconds: i64,
    pub duration_milliseconds: i64,
    pub initialization_segment: bool,
}

#[derive(Debug)]
pub struct PublishMediaManifestInput<'a> {
    pub tenant_id: Uuid,
    pub preview_id: Uuid,
    pub attempt_id: Uuid,
    pub job_epoch: i64,
    pub manifest_id: Uuid,
    pub manifest_blake3: &'a [u8; 32],
    pub manifest_byte_length: i64,
    pub cache_artifact_id: Uuid,
    pub charged_bytes: i64,
}

/// Whether a preview request's texts are within their bounds.
pub open spec fn admissible(input: &AdmitMediaPreviewInput) -> bool {
    0 < input.idempotency_key.len() <= 256 && 0 < input.profile_id.len() <= 128
}

/// Demands that a preview request's texts are within their bounds.
pub fn validate_admission(input: &AdmitMediaPreviewInput) -> (r: Result<(), DatabaseError>)
    ensures
        r == (if admissible(input) {
            Ok::<(), DatabaseError>(())
        } else {
            Err(DatabaseError::InvalidPersistedValue)
        }),
{
    if input.idempotency_key.len() == 0 || input.idempotency_key.len() > 256
        || input.profile_id.len() == 0 || input.profile_id.len() > 128 {
        return Err(DatabaseError::InvalidPersistedValue);
    }
    Ok(())
}

impl Database {
    /// What stops `media_preview`, in order.
    pub open spec fn media_preview_fault(log: Seq<Reply>) -> Option<Fault> {
        if log.len() > 0
            && log[0].required_row::<MediaPreviewRecord>(DatabaseError::NotFound) is Err {
            Fault::of(log[0].required_row::<MediaPreviewRecord>(DatabaseError::NotFound))
        } else {
            None
        }
    }

    /// The commands of `media_preview`, in order.
    pub open spec fn media_preview_script<'a>(
        tenant_id: Uuid, preview_id: Uuid, log: Seq<Reply>,
    ) -> Seq<CommandView<'a>> {
        seq![
            CommandView::optional(
                sql::MEDIA_PREVIEW,
                seq![Param::Id(tenant_id), Param::Id(preview_id)],
            ),
        ]
    }

    /// What `media_preview` returns.
    pub open spec fn media_preview_output(log: Seq<Reply>) -> MediaPreviewRecord {
        let preview = log[0].required_row::<MediaPreviewRecord>(DatabaseError::NotFound)->Ok_0;
        preview
    }

    /// Looks a preview up.
    pub fn media_preview<'a>(
        tenant_id: Uuid, preview_id: Uuid, log: &'a [Reply],
    ) -> (step: Step<'a, MediaPreviewRecord>)
        ensures
            step@ == StepView::proceed(
                Self::media_preview_fault(log@),
                Self::media_preview_script(tenant_id, preview_id, log@),
                Self::media_preview_output(log@),
                log@,
            ),
    {
        if log.len() == 0 {
            return ask_optional(
                sql::MEDIA_PREVIEW,
                vec![Param::Id(tenant_id), Param::Id(preview_id)],
            );
        }
        let preview: MediaPreviewRecord = match required(&log[0], DatabaseError::NotFound) {
            Ok(value) => value,
            Err(fault) => return stop(fault),
        };
        Step::Done(preview)
    }

    /// Every statement of `media_preview` is about its tenant.
    pub proof fn media_preview_is_scoped(tenant_id: Uuid, preview_id: Uuid, log: Seq<Reply>)
        ensures
            crate::step::is_scoped(
                Self::media_preview_script(tenant_id, preview_id, log),
                tenant_id,
            ),
    {
    }

    /// What stops `cancel_media_preview`, in order.
    pub open spec fn cancel_media_preview_fault(log: Seq<Reply>) -> Option<Fault> {
        if log.len() > 0
            && log[0].required_row::<MediaPreviewRecord>(DatabaseError::Conflict) is Err {
            Fault::of(log[0].required_row::<MediaPreviewRecord>(DatabaseError::Conflict))
        } else {
            None
        }
    }

    /// The commands of `cancel_media_preview`, in order.
    pub open spec fn cancel_media_preview_script<'a>(
        tenant_id: Uuid, preview_id: Uuid, log: Seq<Reply>,
    ) -> Seq<CommandView<'a>> {
        seq![
            CommandView::optional(
                sql::CANCEL_MEDIA_PREVIEW,
                seq![Param::Id(tenant_id), Param::Id(preview_id)],
            ),
        ]
    }

    /// What `cancel_media_preview` returns.
    pub open spec fn cancel_media_preview_output(log: Seq<Reply>) -> MediaPreviewRecord {
        let preview = log[0].required_row::<MediaPreviewRecord>(DatabaseError::Conflict)->Ok_0;
        preview
    }

    /// Asks for a preview to be cancelled; one that has not started is cancelled at once.
    pub fn cancel_media_preview<'a>(
        tenant_id: Uuid, preview_id: Uuid, log: &'a [Reply],
    ) -> (step: Step<'a, MediaPreviewRecord>)
        ensures
            step@ == StepView::proceed(
                Self::cancel_media_preview_fault(log@),
                Self::cancel_media_preview_script(tenant_id, preview_id, log@),
                Self::cancel_media_preview_output(log@),
                log@,
            ),
    {
        if log.len() == 0 {
            return ask_optional(
                sql::CANCEL_MEDIA_PREVIEW,
                vec![Param::Id(tenant_id), Param::Id(preview_id)],
            );
        }
        let preview: MediaPreviewRecord = match required(&log[0], DatabaseError::Conflict) {
            Ok(value) => value,
            Err(fault) => return stop(fault),
        };
        Step::Done(preview)
    }

    /// Every statement of `cancel_media_preview` is about its tenant.
    pub proof fn cancel_media_preview_is_scoped(tenant_id: Uuid, preview_id: Uuid, log: Seq<Reply>)
        ensures
            crate::step::is_scoped(
                Self::cancel_media_preview_script(tenant_id, preview_id, log),
                tenant_id,
            ),
    {
    }

    /// What stops `start_media_attempt`, in order.
    pub open spec fn start_media_attempt_fault(log: Seq<Reply>) -> Option<Fault> {
        if log.len() > 1
            && log[1].required_row::<JobEpoch>(DatabaseError::StaleGeneration) is Err {
            Fault::of(log[1].required_row::<JobEpoch>(DatabaseError::StaleGeneration))
        } else {
            None
        }
    }

    /// The commands of `start_media_attempt`, in order.
    pub open spec fn start_media_attempt_script<'a>(
        input: &'a StartMediaAttemptInput<'a>,
        log: Seq<Reply>,
    ) -> Seq<CommandView<'a>> {
        let epoch = log[1].required_row::<JobEpoch>(DatabaseError::StaleGeneration)->Ok_0;
        seq![
            CommandView::Begin,
            CommandView::optional(
                sql::START_MEDIA_ATTEMPT_UPDATE_PREVIEWS,
                seq![
                    Param::Id(input.tenant_id), Param::Id(input.preview_id),
                    Param::I32(MEDIA_MAX_ATTEMPTS),
                ],
            ),
            CommandView::execute(
                sql::START_MEDIA_ATTEMPT_INSERT_ATTEMPTS,
                seq![
                    Param::Id(input.tenant_id), Param::Id(input.attempt_id),
                    Param::Id(input.preview_id), Param::I64(epoch.job_epoch),
                    Param::Digest(input.source_capability_digest),
                    Param::Digest(input.output_capability_digest),
                    Param::Digest(input.callback_capability_digest),
                ],
            ),
            CommandView::Commit,
        ]
    }

    /// What `start_media_attempt` returns.
    pub open spec fn start_media_attempt_output<'a>(
        input: &'a StartMediaAttemptInput<'a>,
        log: Seq<Reply>,
    ) -> MediaAttemptRecord {
        let epoch = log[1].required_row::<JobEpoch>(DatabaseError::StaleGeneration)->Ok_0;
        MediaAttemptRecord {
            id: input.attempt_id,
            preview_id: input.preview_id,
            job_epoch: epoch.job_epoch,
        }
    }

    /// Starts a fenced attempt. A stale or cancelled preview never receives a new capability set,
    /// and attempts are capped at [`MEDIA_MAX_ATTEMPTS`].
    pub fn start_media_attempt<'a>(
        input: &'a StartMediaAttemptInput<'a>,
        log: &'a [Reply],
    ) -> (step: Step<'a, MediaAttemptRecord>)
        ensures
            step@ == StepView::proceed(
                Self::start_media_attempt_fault(log@),
                Self::start_media_attempt_script(input, log@),
                Self::start_media_attempt_output(input, log@),
                log@,
            ),
    {
        if log.len() == 0 {
            return Step::Ask(Command::Begin);
        }
        if log.len() <= 1 {
            return ask_optional(
                sql::START_MEDIA_ATTEMPT_UPDATE_PREVIEWS,
                vec![
                    Param::Id(input.tenant_id), Param::Id(input.preview_id),
                    Param::I32(MEDIA_MAX_ATTEMPTS),
                ],
            );
        }
        let epoch: JobEpoch = match required::<JobEpoch>(&log[1], DatabaseError::StaleGeneration) {
            Ok(value) => value,
            Err(fault) => return stop(fault),
        };
        if log.len() <= 2 {
            return ask_execute(
                sql::START_MEDIA_ATTEMPT_INSERT_ATTEMPTS,
                vec![
                    Param::Id(input.tenant_id), Param::Id(input.attempt_id),
                    Param::Id(input.preview_id), Param::I64(epoch.job_epoch),
                    Param::Digest(input.source_capability_digest),
                    Param::Digest(input.output_capability_digest),
                    Param::Digest(input.callback_capability_digest),
                ],
            );
        }
        if log.len() <= 3 {
            return Step::Ask(Command::Commit);
        }
        Step::Done(
            MediaAttemptRecord {
                id: input.attempt_id,
                preview_id: input.preview_id,
                job_epoch: epoch.job_epoch,
            },
        )
    }

    /// `start_media_attempt` runs in one transaction: it is done once its commit is acknowledged,
    /// and when it fails, nothing was committed.
    pub proof fn start_media_attempt_is_atomic<'a>(
        input: &'a StartMediaAttemptInput<'a>,
        log: Seq<Reply>,
    )
        ensures
            crate::step::is_atomic(Self::start_media_attempt_script(input, log), 0),
            crate::step::commit_acknowledged(
                Self::start_media_attempt_fault(log.drop_last()),
                Self::start_media_attempt_script(input, log.drop_last()),
                log,
            ) ==> {
                &&& Self::start_media_attempt_fault(log) is None
                &&& log.len() == Self::start_media_attempt_script(input, log).len()
            },
    {
    }

    /// Every statement of `start_media_attempt` is about its tenant.
    pub proof fn start_media_attempt_is_scoped<'a>(
        input: &'a StartMediaAttemptInput<'a>,
        log: Seq<Reply>,
    )
        ensures
            crate::step::is_scoped(Self::start_media_attempt_script(input, log), input.tenant_id),
    {
    }

    /// What stops `record_verified_media_segment`, in order.
    pub open spec fn record_verified_media_segment_fault<'a>(
        input: &'a RecordVerifiedSegmentInput<'a>,
        log: Seq<Reply>,
    ) -> Option<Fault> {
        if input.ordinal < 0 || input.byte_length <= 0 || input.start_time_milliseconds < 0
            || input.duration_milliseconds <= 0 || input.job_epoch <= 0 {
            Some(Fault::Error(DatabaseError::InvalidPersistedValue))
        } else if log.len() > 1 && log[1].one_affected(DatabaseError::StaleGeneration) is Err {
            Fault::of(log[1].one_affected(DatabaseError::StaleGeneration))
        } else if log.len() > 2 && log[2].one_affected(DatabaseError::Conflict) is Err {
            Fault::of(log[2].one_affected(DatabaseError::Conflict))
        } else {
            None
        }
    }

    /// The commands of `record_verified_media_segment`, in order.
    pub open spec fn record_verified_media_segment_script<'a>(
        input: &'a RecordVerifiedSegmentInput<'a>,
        log: Seq<Reply>,
    ) -> Seq<CommandView<'a>> {
        seq![
            CommandView::Begin,
            CommandView::execute(
                sql::RECORD_VERIFIED_MEDIA_SEGMENT_UPDATE_ATTEMPTS,
                seq![
                    Param::Id(input.tenant_id), Param::Id(input.attempt_id),
                    Param::Id(input.preview_id), Param::I64(input.job_epoch),
                ],
            ),
            CommandView::execute(
                sql::RECORD_VERIFIED_MEDIA_SEGMENT_INSERT_SEGMENT_RECEIPTS,
                seq![
                    Param::Id(input.tenant_id), Param::Id(input.preview_id),
                    Param::Id(input.attempt_id), Param::I64(input.job_epoch),
                    Param::I64(input.ordinal), Param::Id(input.segment_id),
                    Param::Digest(input.blake3), Param::I64(input.byte_length),
                    Param::I64(input.start_time_milliseconds),
                    Param::I64(input.duration_milliseconds),
                    Param::Bool(input.initialization_segment),
                ],
            ),
            CommandView::Commit,
        ]
    }

    /// Records a segment whose immutable receipt the I/O layer has verified.
    pub fn record_verified_media_segment<'a>(
        input: &'a RecordVerifiedSegmentInput<'a>,
        log: &'a [Reply],
    ) -> (step: Step<'a, ()>)
        ensures
            step@ == StepView::proceed(
                Self::record_verified_media_segment_fault(input, log@),
                Self::record_verified_media_segment_script(input, log@),
                (),
                log@,
            ),
    {
        if input.ordinal < 0 || input.byte_length <= 0 || input.start_time_milliseconds < 0
            || input.duration_milliseconds <= 0 || input.job_epoch <= 0 {
            return Step::Fail(DatabaseError::InvalidPersistedValue);
        }
        if log.len() == 0 {
            return Step::Ask(Command::Begin);
        }
        if log.len() <= 1 {
            return ask_execute(
                sql::RECORD_VERIFIED_MEDIA_SEGMENT_UPDATE_ATTEMPTS,
                vec![
                    Param::Id(input.tenant_id), Param::Id(input.attempt_id),
                    Param::Id(input.preview_id), Param::I64(input.job_epoch),
                ],
            );
        }
        if let Err(fault) = exactly_one(&log[1], DatabaseError::StaleGeneration) {
            return stop(fault);
        }
        if log.len() <= 2 {
            return ask_execute(
                sql::RECORD_VERIFIED_MEDIA_SEGMENT_INSERT_SEGMENT_RECEIPTS,
                vec![
                    Param::Id(input.tenant_id), Param::Id(input.preview_id),
                    Param::Id(input.attempt_id), Param::I64(input.job_epoch),
                    Param::I64(input.ordinal), Param::Id(input.segment_id),
                    Param::Digest(input.blake3), Param::I64(input.byte_length),
                    Param::I64(input.start_time_milliseconds),
                    Param::I64(input.duration_milliseconds),
                    Param::Bool(input.initialization_segment),
                ],
            );
        }
        if let Err(fault) = exactly_one(&log[2], DatabaseError::Conflict) {
            return stop(fault);
        }
        if log.len() <= 3 {
            return Step::Ask(Command::Commit);
        }
        Step::Done(())
    }

    /// `record_verified_media_segment` runs in one transaction: it is done once its commit is
    /// acknowledged, and when it fails, nothing was committed.
    pub proof fn record_verified_media_segment_is_atomic<'a>(
        input: &'a RecordVerifiedSegmentInput<'a>,
        log: Seq<Reply>,
    )
        ensures
            crate::step::is_atomic(Self::record_verified_media_segment_script(input, log), 0),
            crate::step::commit_acknowledged(
                Self::record_verified_media_segment_fault(input, log.drop_last()),
                Self::record_verified_media_segment_script(input, log.drop_last()),
                log,
            ) ==> {
                &&& Self::record_verified_media_segment_fault(input, log) is None
                &&& log.len() == Self::record_verified_media_segment_script(input, log).len()
            },
    {
    }

    /// Every statement of `record_verified_media_segment` is about its tenant.
    pub proof fn record_verified_media_segment_is_scoped<'a>(
        input: &'a RecordVerifiedSegmentInput<'a>,
        log: Seq<Reply>,
    )
        ensures
            crate::step::is_scoped(
                Self::record_verified_media_segment_script(input, log),
                input.tenant_id,
            ),
    {
    }

    /// What stops `publish_media_manifest`, in order.
    pub open spec fn publish_media_manifest_fault<'a>(
        input: &'a PublishMediaManifestInput<'a>,
        log: Seq<Reply>,
    ) -> Option<Fault> {
        let receipts = log[1].single_row::<i64>()->Ok_0;
        if input.job_epoch <= 0 || input.manifest_byte_length <= 0 || input.charged_bytes <= 0 {
            Some(Fault::Error(DatabaseError::InvalidPersistedValue))
        } else if log.len() > 1 && log[1].single_row::<i64>() is Err {
            Fault::of(log[1].single_row::<i64>())
        } else if log.len() > 1 && receipts == 0 {
            Some(Fault::Error(DatabaseError::Conflict))
        } else if log.len() > 2
            && log[2].required_row::<Uuid>(DatabaseError::StaleGeneration) is Err {
            Fault::of(log[2].required_row::<Uuid>(DatabaseError::StaleGeneration))
        } else if log.len() > 3 && log[3].single_row::<i64>() is Err {
            Fault::of(log[3].single_row::<i64>())
        } else {
            None
        }
    }

    /// The commands of `publish_media_manifest`, in order.
    pub open spec fn publish_media_manifest_script<'a>(
        input: &'a PublishMediaManifestInput<'a>,
        log: Seq<Reply>,
    ) -> Seq<CommandView<'a>> {
        let revision = log[3].single_row::<i64>()->Ok_0;
        seq![
            CommandView::Begin,
            CommandView::one(
                sql::PUBLISH_MEDIA_MANIFEST_COUNT_SEGMENT_RECEIPTS,
                seq![
                    Param::Id(input.tenant_id), Param::Id(input.preview_id),
                    Param::Id(input.attempt_id), Param::I64(input.job_epoch),
                ],
            ),
            CommandView::optional(
                sql::PUBLISH_MEDIA_MANIFEST_UPDATE_PREVIEWS,
                seq![
                    Param::Id(input.tenant_id), Param::Id(input.preview_id),
                    Param::I64(input.job_epoch), Param::Id(input.attempt_id),
                ],
            ),
            CommandView::one(
                sql::PUBLISH_MEDIA_MANIFEST_SELECT_MANIFEST_REVISIONS,
                seq![Param::Id(input.tenant_id), Param::Id(input.preview_id)],
            ),
            CommandView::execute(
                sql::PUBLISH_MEDIA_MANIFEST_INSERT_MANIFEST_REVISIONS,
                seq![
                    Param::Id(input.tenant_id), Param::Id(input.preview_id),
                    Param::I64(revision), Param::Id(input.attempt_id),
                    Param::I64(input.job_epoch), Param::Id(input.manifest_id),
                    Param::Digest(input.manifest_blake3),
                    Param::I64(input.manifest_byte_length),
                ],
            ),
            CommandView::execute(
                sql::PUBLISH_MEDIA_MANIFEST_INSERT_CACHE_ARTIFACTS,
                seq![
                    Param::Id(input.tenant_id), Param::Id(input.cache_artifact_id),
                    Param::Id(input.preview_id), Param::I64(revision),
                    Param::I64(input.charged_bytes),
                ],
            ),
            CommandView::execute(
                sql::PUBLISH_MEDIA_MANIFEST_UPDATE_ATTEMPTS,
                seq![
                    Param::Id(input.tenant_id), Param::Id(input.attempt_id),
                    Param::I64(input.job_epoch),
                ],
            ),
            CommandView::Commit,
        ]
    }

    /// What `publish_media_manifest` returns.
    pub open spec fn publish_media_manifest_output(log: Seq<Reply>) -> i64 {
        let revision = log[3].single_row::<i64>()->Ok_0;
        revision
    }

    /// Publishes a manifest revision, one above the preview's last, where this exact fenced attempt
    /// has durable verified segment receipts.
    pub fn publish_media_manifest<'a>(
        input: &'a PublishMediaManifestInput<'a>,
        log: &'a [Reply],
    ) -> (step: Step<'a, i64>)
        ensures
            step@ == StepView::proceed(
                Self::publish_media_manifest_fault(input, log@),
                Self::publish_media_manifest_script(input, log@),
                Self::publish_media_manifest_output(log@),
                log@,
            ),
    {
        if input.job_epoch <= 0 || input.manifest_byte_length <= 0 || input.charged_bytes <= 0 {
            return Step::Fail(DatabaseError::InvalidPersistedValue);
        }
        if log.len() == 0 {
            return Step::Ask(Command::Begin);
        }
        if log.len() <= 1 {
            return ask_one(
                sql::PUBLISH_MEDIA_MANIFEST_COUNT_SEGMENT_RECEIPTS,
                vec![
                    Param::Id(input.tenant_id), Param::Id(input.preview_id),
                    Param::Id(input.attempt_id), Param::I64(input.job_epoch),
                ],
            );
        }
        let receipts: i64 = match single::<i64>(&log[1]) {
            Ok(value) => value,
            Err(fault) => return stop(fault),
        };
        if receipts == 0 {
            return Step::Fail(DatabaseError::Conflict);
        }
        if log.len() <= 2 {
            return ask_optional(
                sql::PUBLISH_MEDIA_MANIFEST_UPDATE_PREVIEWS,
                vec![
                    Param::Id(input.tenant_id), Param::Id(input.preview_id),
                    Param::I64(input.job_epoch), Param::Id(input.attempt_id),
                ],
            );
        }
        let preview: Uuid = match required::<Uuid>(&log[2], DatabaseError::StaleGeneration) {
            Ok(value) => value,
            Err(fault) => return stop(fault),
        };
        if log.len() <= 3 {
            return ask_one(
                sql::PUBLISH_MEDIA_MANIFEST_SELECT_MANIFEST_REVISIONS,
                vec![Param::Id(input.tenant_id), Param::Id(input.preview_id)],
            );
        }
        let revision: i64 = match single::<i64>(&log[3]) {
            Ok(value) => value,
            Err(fault) => return stop(fault),
        };
        if log.len() <= 4 {
            return ask_execute(
                sql::PUBLISH_MEDIA_MANIFEST_INSERT_MANIFEST_REVISIONS,
                vec![
                    Param::Id(input.tenant_id), Param::Id(input.preview_id),
                    Param::I64(revision), Param::Id(input.attempt_id),
                    Param::I64(input.job_epoch), Param::Id(input.manifest_id),
                    Param::Digest(input.manifest_blake3),
                    Param::I64(input.manifest_byte_length),
                ],
            );
        }
        if log.len() <= 5 {
            return ask_execute(
                sql::PUBLISH_MEDIA_MANIFEST_INSERT_CACHE_ARTIFACTS,
                vec![
                    Param::Id(input.tenant_id), Param::Id(input.cache_artifact_id),
                    Param::Id(input.preview_id), Param::I64(revision),
                    Param::I64(input.charged_bytes),
                ],
            );
        }
        if log.len() <= 6 {
            return ask_execute(
                sql::PUBLISH_MEDIA_MANIFEST_UPDATE_ATTEMPTS,
                vec![
                    Param::Id(input.tenant_id), Param::Id(input.attempt_id),
                    Param::I64(input.job_epoch),
                ],
            );
        }
        if log.len() <= 7 {
            return Step::Ask(Command::Commit);
        }
        Step::Done(revision)
    }

    /// `publish_media_manifest` runs in one transaction: it is done once its commit is
    /// acknowledged, and when it fails, nothing was committed.
    pub proof fn publish_media_manifest_is_atomic<'a>(
        input: &'a PublishMediaManifestInput<'a>,
        log: Seq<Reply>,
    )
        ensures
            crate::step::is_atomic(Self::publish_media_manifest_script(input, log), 0),
            crate::step::commit_acknowledged(
                Self::publish_media_manifest_fault(input, log.drop_last()),
                Self::publish_media_manifest_script(input, log.drop_last()),
                log,
            ) ==> {
                &&& Self::publish_media_manifest_fault(input, log) is None
                &&& log.len() == Self::publish_media_manifest_script(input, log).len()
            },
    {
    }

    /// Every statement of `publish_media_manifest` is about its tenant.
    pub proof fn publish_media_manifest_is_scoped<'a>(
        input: &'a PublishMediaManifestInput<'a>,
        log: Seq<Reply>,
    )
        ensures
            crate::step::is_scoped(
                Self::publish_media_manifest_script(input, log),
                input.tenant_id,
            ),
    {
    }

    /// What stops `admit_media_preview`, in order.
    pub open spec fn admit_media_preview_fault<'a>(
        input: &'a AdmitMediaPreviewInput<'a>,
        log: Seq<Reply>,
    ) -> Option<Fault> {
        let earlier = log[1].optional_row::<RequestFingerprint>()->Ok_0;
        let earlier_request = earlier->0;
        if !admissible(input) {
            Some(Fault::Error(DatabaseError::InvalidPersistedValue))
        } else if log.len() > 1 && log[1].optional_row::<RequestFingerprint>() is Err {
            Fault::of(log[1].optional_row::<RequestFingerprint>())
        } else if log.len() > 1 && earlier is Some {
            if log.len() > 1
                && earlier_request.request_fingerprint@ != input.request_fingerprint@ {
                Some(Fault::Error(DatabaseError::Conflict))
            } else if log.len() > 1 && log[1].single_row::<MediaPreviewRecord>() is Err {
                Fault::of(log[1].single_row::<MediaPreviewRecord>())
            } else {
                None
            }
        } else if log.len() > 2 && log[2].single_row::<MediaPreviewRecord>() is Err {
            Fault::of(log[2].single_row::<MediaPreviewRecord>())
        } else {
            None
        }
    }

    /// The commands of `admit_media_preview`, in order.
    pub open spec fn admit_media_preview_script<'a>(
        input: &'a AdmitMediaPreviewInput<'a>,
        log: Seq<Reply>,
    ) -> Seq<CommandView<'a>> {
        let earlier = log[1].optional_row::<RequestFingerprint>()->Ok_0;
        seq![
            CommandView::Begin,
            CommandView::optional(
                sql::ADMIT_MEDIA_PREVIEW_SELECT_PREVIEWS,
                seq![
                    Param::Id(input.tenant_id), Param::Id(input.requester_session_id),
                    Param::Text(input.idempotency_key),
                ],
            ),
        ].add(
            if earlier is Some {
                seq![CommandView::Commit]
            } else {
                seq![
                    CommandView::one(
                        sql::ADMIT_MEDIA_PREVIEW_INSERT_PREVIEWS,
                        seq![
                            Param::Id(input.tenant_id), Param::Id(input.preview_id),
                            Param::Id(input.drive_id), Param::Id(input.node_id),
                            Param::Id(input.source_version_id),
                            Param::Id(input.requester_principal_id),
                            Param::Id(input.requester_session_id),
                            Param::Text(input.idempotency_key),
                            Param::Digest(input.request_fingerprint),
                            Param::Digest(input.cache_key),
                            Param::Text(input.profile_id), Param::Digest(input.profile_digest),
                            Param::Digest(input.transcoder_build_identity),
                        ],
                    ),
                    CommandView::Commit,
                ]
            },
        )
    }

    /// What `admit_media_preview` returns.
    pub open spec fn admit_media_preview_output(log: Seq<Reply>) -> MediaPreviewRecord {
        let earlier = log[1].optional_row::<RequestFingerprint>()->Ok_0;
        let stored = log[1].single_row::<MediaPreviewRecord>()->Ok_0;
        let created = log[2].single_row::<MediaPreviewRecord>()->Ok_0;
        if earlier is Some {
            stored
        } else {
            created
        }
    }

    /// Creates exactly one durable request for an API session and idempotency key. A repeated
    /// request gets the stored preview; another request under the same key is a conflict.
    pub fn admit_media_preview<'a>(
        input: &'a AdmitMediaPreviewInput<'a>,
        log: &'a [Reply],
    ) -> (step: Step<'a, MediaPreviewRecord>)
        ensures
            step@ == StepView::proceed(
                Self::admit_media_preview_fault(input, log@),
                Self::admit_media_preview_script(input, log@),
                Self::admit_media_preview_output(log@),
                log@,
            ),
    {
        if validate_admission(input).is_err() {
            return Step::Fail(DatabaseError::InvalidPersistedValue);
        }
        if log.len() == 0 {
            return Step::Ask(Command::Begin);
        }
        if log.len() <= 1 {
            return ask_optional(
                sql::ADMIT_MEDIA_PREVIEW_SELECT_PREVIEWS,
                vec![
                    Param::Id(input.tenant_id), Param::Id(input.requester_session_id),
                    Param::Text(input.idempotency_key),
                ],
            );
        }
        let earlier: Option<RequestFingerprint> = match optional::<RequestFingerprint>(&log[1]) {
            Ok(value) => value,
            Err(fault) => return stop(fault),
        };
        if earlier.is_some() {
            let earlier_request: RequestFingerprint = earlier.unwrap();
            if !bytes_eq(
                earlier_request.request_fingerprint.as_slice(),
                input.request_fingerprint,
            ) {
                return Step::Fail(DatabaseError::Conflict);
            }
            let stored: MediaPreviewRecord = match single::<MediaPreviewRecord>(&log[1]) {
                Ok(value) => value,
                Err(fault) => return stop(fault),
            };
            if log.len() <= 2 {
                return Step::Ask(Command::Commit);
            }
            return Step::Done(stored);
        }
        if log.len() <= 2 {
            return ask_one(
                sql::ADMIT_MEDIA_PREVIEW_INSERT_PREVIEWS,
                vec![
                    Param::Id(input.tenant_id), Param::Id(input.preview_id),
                    Param::Id(input.drive_id), Param::Id(input.node_id),
                    Param::Id(input.source_version_id), Param::Id(input.requester_principal_id),
                    Param::Id(input.requester_session_id), Param::Text(input.idempotency_key),
                    Param::Digest(input.request_fingerprint), Param::Digest(input.cache_key),
                    Param::Text(input.profile_id), Param::Digest(input.profile_digest),
                    Param::Digest(input.transcoder_build_identity),
                ],
            );
        }
        let created: MediaPreviewRecord = match single::<MediaPreviewRecord>(&log[2]) {
            Ok(value) => value,
            Err(fault) => return stop(fault),
        };
        if log.len() <= 3 {
            return Step::Ask(Command::Commit);
        }
        Step::Done(created)
    }

    /// `admit_media_preview` runs in one transaction: it is done once its commit is acknowledged,
    /// and when it fails, nothing was committed.
    pub proof fn admit_media_preview_is_atomic<'a>(
        input: &'a AdmitMediaPreviewInput<'a>,
        log: Seq<Reply>,
    )
        ensures
            crate::step::is_atomic(Self::admit_media_preview_script(input, log), 0),
            crate::step::commit_acknowledged(
                Self::admit_media_preview_fault(input, log.drop_last()),
                Self::admit_media_preview_script(input, log.drop_last()),
                log,
            ) ==> {
                &&& Self::admit_media_preview_fault(input, log) is None
                &&& log.len() == Self::admit_media_preview_script(input, log).len()
            },
    {
    }

    /// Every statement of `admit_media_preview` is about its tenant.
    pub proof fn admit_media_preview_is_scoped<'a>(
        input: &'a AdmitMediaPreviewInput<'a>,
        log: Seq<Reply>,
    )
        ensures
            crate::step::is_scoped(Self::admit_media_preview_script(input, log), input.tenant_id),
    {
    }

}

/// The epoch that a started attempt runs under.
#[derive(Clone, Copy, Debug, PartialEq, Eq, Structural)]
pub struct JobEpoch {
    pub job_epoch: i64,
}

impl JobEpoch {
    /// What a row holds, read by its column names.
    #[verifier::opaque]
    pub open spec fn of_row(row: Row) -> Result<JobEpoch, Fault> {
        if row.column::<i64>("job_epoch"@) is Some {
            Ok(
                JobEpoch {
                    job_epoch: row.column::<i64>("job_epoch"@)->0,
                },
            )
        } else {
            Err(Fault::Malformed)
        }
    }
}

impl FromRow for JobEpoch {
    open spec fn row_spec(row: Row) -> Result<JobEpoch, Fault> {
        JobEpoch::of_row(row)
    }

    fn from_row(row: &Row) -> (r: Result<JobEpoch, Fault>) {
        proof {
            reveal(JobEpoch::of_row);
        }
        let job_epoch: i64 = match row.get("job_epoch") {
            Some(v) => v,
            None => return Err(Fault::Malformed),
        };
        Ok(JobEpoch { job_epoch })
    }
}

} // verus!
