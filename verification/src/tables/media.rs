//! The rows of media previews.

use vstd::prelude::*;

use crate::database::Database;
use crate::error::DatabaseError;
use crate::error::Fault;
use crate::id::Uuid;
use crate::media::AdmitMediaPreviewInput;
use crate::media::JobEpoch;
use crate::media::MediaPreviewRecord;
use crate::media::MediaPreviewState;
use crate::media::PublishMediaManifestInput;
use crate::media::RequestFingerprint;
use crate::media::StartMediaAttemptInput;
use crate::row::Reply;
use crate::sql::media as sql;
use crate::step::Param;
use crate::tables::Course;
use crate::tables::Tables;

verus! {

/// A preview.
pub struct PreviewRow {
    pub drive_id: Uuid,
    pub node_id: Uuid,
    pub source_version_id: Uuid,
    pub requester_session_id: Uuid,
    pub idempotency_key: Seq<char>,
    pub request_fingerprint: Seq<u8>,
    pub cache_key: Seq<u8>,
    pub state: MediaPreviewState,
    pub attempt_count: int,
    pub job_epoch: int,
    pub cancelled: bool,
}

/// An attempt at a preview.
pub struct AttemptRow {
    pub preview_id: Uuid,
    pub job_epoch: int,
    pub verifying: bool,
}

/// The tables of media previews.
#[verifier::ext_equal]
pub struct MediaTables {
    pub previews: Map<Uuid, PreviewRow>,
    pub attempts: Map<Uuid, AttemptRow>,
    /// The published manifests, each by its preview and its revision.
    pub manifests: Map<(Uuid, i64), Uuid>,
    /// The cached artifacts, each with its preview, its manifest's revision and its charge.
    pub artifacts: Map<Uuid, (Uuid, i64, i64)>,
}

impl MediaTables {
    /// Whether a preview was admitted for a session under a key.
    pub open spec fn is_admitted(self, id: Uuid, session_id: Uuid, key: Seq<char>) -> bool {
        &&& self.previews.contains_key(id)
        &&& self.previews[id].requester_session_id == session_id
        &&& self.previews[id].idempotency_key == key
    }

    /// Whether an attempt at a preview can start.
    pub open spec fn is_startable(self, id: Uuid, cap: int) -> bool {
        &&& self.previews.contains_key(id)
        &&& self.previews[id].state is Requested
        &&& !self.previews[id].cancelled
        &&& self.previews[id].attempt_count < cap
    }

    /// Whether an attempt's manifest can be published.
    pub open spec fn is_publishable(self, id: Uuid, job_epoch: int, attempt_id: Uuid) -> bool {
        &&& self.previews.contains_key(id)
        &&& self.previews[id].job_epoch == job_epoch
        &&& self.previews[id].state is Running || self.previews[id].state is Verifying
        &&& !self.previews[id].cancelled
        &&& self.attempts.contains_key(attempt_id)
        &&& self.attempts[attempt_id].preview_id == id
        &&& self.attempts[attempt_id].job_epoch == job_epoch
        &&& self.attempts[attempt_id].verifying
    }

    /// Whether a number is the next revision of a preview's manifest: one past the highest, or one
    /// where there is none.
    pub open spec fn is_next(self, id: Uuid, next: i64) -> bool {
        &&& forall|revision: i64| #[trigger]
            self.manifests.contains_key((id, revision)) ==> revision < next
        &&& {
            ||| next > i64::MIN && self.manifests.contains_key((id, (next - 1) as i64))
            ||| next == 1 && forall|revision: i64|
                !(#[trigger] self.manifests.contains_key((id, revision)))
        }
    }
}

/// The tables with other rows of media previews.
pub open spec fn with_media(tables: Tables, media: MediaTables) -> Tables {
    Tables { media, ..tables }
}

/// Whether a record is what a preview holds.
pub open spec fn is_preview(found: MediaPreviewRecord, id: Uuid, row: PreviewRow) -> bool {
    &&& found.id == id
    &&& found.drive_id == row.drive_id
    &&& found.node_id == row.node_id
    &&& found.source_version_id == row.source_version_id
    &&& found.state == row.state
    &&& found.attempt_count == row.attempt_count
    &&& found.job_epoch == row.job_epoch
    &&& found.cache_key@ == row.cache_key
}

/// Whether a preview is what an insertion binds.
pub open spec fn is_bound<'a>(row: PreviewRow, params: Seq<Param<'a>>) -> bool {
    &&& row.drive_id == params[2]->Id_0
    &&& row.node_id == params[3]->Id_0
    &&& row.source_version_id == params[4]->Id_0
    &&& row.requester_session_id == params[6]->Id_0
    &&& row.idempotency_key == params[7]->Text_0@
    &&& row.request_fingerprint == params[8]->Digest_0@
    &&& row.cache_key == params[9]->Digest_0@
}

/// Whether an attempt is what an insertion binds.
pub open spec fn is_started<'a>(row: AttemptRow, params: Seq<Param<'a>>) -> bool {
    row.preview_id == params[2]->Id_0 && row.job_epoch == params[3]->I64_0
}

/// What the statements of media previews do.
#[verifier::opaque]
pub open spec fn means<'a>(
    sql: &'static str,
    params: Seq<Param<'a>>,
    reply: Reply,
    now: int,
    before: Tables,
    after: Tables,
) -> bool {
    let media = before.media;
    let id = params[1]->Id_0;
    &&& sql == sql::ADMIT_MEDIA_PREVIEW_SELECT_PREVIEWS ==> {
        let key = params[2]->Text_0@;
        match reply.optional_row::<RequestFingerprint>() {
            Ok(Some(found)) => exists|preview: Uuid|
                {
                    &&& #[trigger] media.is_admitted(preview, id, key)
                    &&& found.request_fingerprint@ == media.previews[preview].request_fingerprint
                    &&& reply.single_row::<MediaPreviewRecord>() is Ok
                    &&& is_preview(
                        reply.single_row::<MediaPreviewRecord>()->Ok_0,
                        preview,
                        media.previews[preview],
                    )
                },
            Ok(None) => forall|preview: Uuid| !(#[trigger] media.is_admitted(preview, id, key)),
            Err(_) => false,
        }
    }
    &&& sql == sql::ADMIT_MEDIA_PREVIEW_INSERT_PREVIEWS ==> exists|row: PreviewRow|
        {
            &&& #[trigger] is_bound(row, params)
            &&& !media.previews.contains_key(id)
            &&& after == with_media(
                before,
                MediaTables { previews: media.previews.insert(id, row), ..media },
            )
            &&& reply.single_row::<MediaPreviewRecord>() is Ok
            &&& is_preview(reply.single_row::<MediaPreviewRecord>()->Ok_0, id, row)
        }
    &&& sql == sql::START_MEDIA_ATTEMPT_UPDATE_PREVIEWS ==> {
        let hit = media.is_startable(id, params[2]->I32_0 as int);
        let row = PreviewRow {
            state: MediaPreviewState::Running,
            attempt_count: media.previews[id].attempt_count + 1,
            job_epoch: media.previews[id].job_epoch + 1,
            ..media.previews[id]
        };
        &&& after == with_media(
            before,
            MediaTables {
                previews: crate::tables::changed(media.previews, hit, id, row),
                ..media
            },
        )
        &&& match reply.optional_row::<JobEpoch>() {
            Ok(Some(found)) => hit && found.job_epoch == row.job_epoch,
            Ok(None) => !hit,
            Err(_) => false,
        }
    }
    &&& sql == sql::START_MEDIA_ATTEMPT_INSERT_ATTEMPTS ==> exists|row: AttemptRow|
        {
            &&& #[trigger] is_started(row, params)
            &&& !media.attempts.contains_key(id)
            &&& after == with_media(
                before,
                MediaTables { attempts: media.attempts.insert(id, row), ..media },
            )
        }
    &&& sql == sql::PUBLISH_MEDIA_MANIFEST_COUNT_SEGMENT_RECEIPTS ==> after == before
    &&& sql == sql::PUBLISH_MEDIA_MANIFEST_UPDATE_PREVIEWS ==> {
        let hit = media.is_publishable(id, params[2]->I64_0 as int, params[3]->Id_0);
        &&& after == with_media(
            before,
            MediaTables {
                previews: crate::tables::changed(
                    media.previews,
                    hit,
                    id,
                    PreviewRow { state: MediaPreviewState::Ready, ..media.previews[id] },
                ),
                ..media
            },
        )
        &&& match reply.optional_row::<Uuid>() {
            Ok(Some(found)) => hit && found == id,
            Ok(None) => !hit,
            Err(_) => false,
        }
    }
    &&& sql == sql::PUBLISH_MEDIA_MANIFEST_SELECT_MANIFEST_REVISIONS ==> {
        &&& after == before
        &&& reply.single_row::<i64>() is Ok
        &&& media.is_next(id, reply.single_row::<i64>()->Ok_0)
    }
    &&& sql == sql::PUBLISH_MEDIA_MANIFEST_INSERT_MANIFEST_REVISIONS ==> {
        let key = (id, params[2]->I64_0);
        &&& !media.manifests.contains_key(key)
        &&& after == with_media(
            before,
            MediaTables { manifests: media.manifests.insert(key, params[5]->Id_0), ..media },
        )
    }
    &&& sql == sql::PUBLISH_MEDIA_MANIFEST_INSERT_CACHE_ARTIFACTS ==> after == with_media(
        before,
        MediaTables {
            artifacts: media.artifacts.insert(
                id,
                (params[2]->Id_0, params[3]->I64_0, params[4]->I64_0),
            ),
            ..media
        },
    )
    &&& sql == sql::PUBLISH_MEDIA_MANIFEST_UPDATE_ATTEMPTS ==> {
        let hit = media.attempts.contains_key(id) && media.attempts[id].job_epoch
            == params[2]->I64_0 && media.attempts[id].verifying;
        after == with_media(
            before,
            MediaTables {
                attempts: crate::tables::changed(
                    media.attempts,
                    hit,
                    id,
                    AttemptRow { verifying: false, ..media.attempts[id] },
                ),
                ..media
            },
        )
    }
}

/// The first admission of a preview for a session under a key adds one preview, with what the
/// request binds. Another admission for the same session and key adds nothing: it returns the
/// preview that stands there where the fingerprint is the same, and is a conflict where it is
/// another.
pub proof fn admitted_previews_stand_alone<'a>(
    input: &'a AdmitMediaPreviewInput<'a>,
    again: &'a AdmitMediaPreviewInput<'a>,
    first: Seq<Reply>,
    second: Seq<Reply>,
    one: Course,
    two: Course,
)
    requires
        crate::step::is_done(
            Database::admit_media_preview_fault(input, first),
            Database::admit_media_preview_script(input, first),
            first,
        ),
        one.follows(Database::admit_media_preview_script(input, first), first),
        forall|id: Uuid|
            !(#[trigger] one.start().media.is_admitted(
                id,
                input.requester_session_id,
                input.idempotency_key@,
            )),
        crate::media::admissible(again),
        again.requester_session_id == input.requester_session_id,
        again.idempotency_key@ == input.idempotency_key@,
        two.follows(Database::admit_media_preview_script(again, second), second),
        second.len() >= 3,
        two.start().media.previews == one.end().media.previews,
    ensures
        ({
            let row = one.end().media.previews[input.preview_id];
            let fault = Database::admit_media_preview_fault(again, second);
            let script = Database::admit_media_preview_script(again, second);
            let same = again.request_fingerprint@ == input.request_fingerprint@;
            &&& one.end() == with_media(
                one.start(),
                MediaTables {
                    previews: one.start().media.previews.insert(input.preview_id, row),
                    ..one.start().media
                },
            )
            &&& row.request_fingerprint == input.request_fingerprint@
            &&& is_preview(Database::admit_media_preview_output(first), input.preview_id, row)
            &&& same ==> crate::step::is_done(fault, script, second) && is_preview(
                Database::admit_media_preview_output(second),
                input.preview_id,
                row,
            )
            &&& !same ==> fault == Some(Fault::Error(DatabaseError::Conflict))
            &&& two.left(fault, script, second) == two.start()
        }),
{
    reveal(means);
    let script = Database::admit_media_preview_script(input, first);
    let repeated = Database::admit_media_preview_script(again, second);
    let session_id = input.requester_session_id;
    let key = input.idempotency_key@;
    assert(one.performs(script, first, 0));
    assert(one.performs(script, first, 1));
    let found = first[1].optional_row::<RequestFingerprint>();
    assert(one.rows[1] == one.start());
    assert(found is Ok);
    assert(found->Ok_0 is None);
    assert(one.performs(script, first, 2));
    assert(one.performs(script, first, 3));
    assert(one.end() == one.rows[4]);
    let row = one.end().media.previews[input.preview_id];
    assert(two.performs(repeated, second, 0));
    assert(two.performs(repeated, second, 1));
    assert(two.start().media.is_admitted(input.preview_id, session_id, key));
    assert forall|id: Uuid| two.start().media.is_admitted(id, session_id, key) implies id
        == input.preview_id by {
        if id != input.preview_id {
            assert(one.start().media.is_admitted(id, session_id, key));
        }
    }
    assert(two.performs(repeated, second, 2));
}

/// Attempts on a preview stop at their cap: an attempt counts one further, and never past the cap.
/// At the cap, the call is stale and changes nothing.
pub proof fn attempts_stay_within_their_cap<'a>(
    input: &'a StartMediaAttemptInput<'a>,
    log: Seq<Reply>,
    course: Course,
)
    requires
        course.follows(Database::start_media_attempt_script(input, log), log),
        log.len() > 1,
    ensures
        ({
            let fault = Database::start_media_attempt_fault(log);
            let script = Database::start_media_attempt_script(input, log);
            let previews = course.start().media.previews;
            let preview = previews[input.preview_id];
            let left = course.left(fault, script, log);
            &&& previews.contains_key(input.preview_id) && preview.attempt_count
                >= crate::media::MEDIA_MAX_ATTEMPTS ==> fault == Some(
                Fault::Error(DatabaseError::StaleGeneration),
            ) && left == course.start()
            &&& crate::step::is_done(fault, script, log) ==> {
                &&& course.start().media.is_startable(
                    input.preview_id,
                    crate::media::MEDIA_MAX_ATTEMPTS as int,
                )
                &&& left.media.previews == previews.insert(
                    input.preview_id,
                    PreviewRow {
                        state: MediaPreviewState::Running,
                        attempt_count: preview.attempt_count + 1,
                        job_epoch: preview.job_epoch + 1,
                        ..preview
                    },
                )
                &&& left.media.attempts.contains_key(input.attempt_id)
                &&& !course.start().media.attempts.contains_key(input.attempt_id)
                &&& left.media.attempts[input.attempt_id].preview_id == input.preview_id
                &&& left.media.attempts[input.attempt_id].job_epoch == preview.job_epoch + 1
            }
            &&& previews.contains_key(input.preview_id) && preview.attempt_count
                <= crate::media::MEDIA_MAX_ATTEMPTS
                ==> left.media.previews[input.preview_id].attempt_count
                <= crate::media::MEDIA_MAX_ATTEMPTS
        }),
{
    reveal(means);
    let script = Database::start_media_attempt_script(input, log);
    assert(course.performs(script, log, 0));
    assert(course.performs(script, log, 1));
    if log.len() == 4 {
        assert(course.performs(script, log, 2));
        assert(course.performs(script, log, 3));
        assert(course.end() == course.rows[4]);
    }
}

/// The revisions of a preview's manifest grow: what a call publishes bears a number past every
/// number that was published before, and the call returns that number. So a later call returns a
/// higher one.
pub proof fn published_revisions_grow<'a>(
    earlier: &'a PublishMediaManifestInput<'a>,
    input: &'a PublishMediaManifestInput<'a>,
    first: Seq<Reply>,
    second: Seq<Reply>,
    one: Course,
    two: Course,
)
    requires
        crate::step::is_done(
            Database::publish_media_manifest_fault(earlier, first),
            Database::publish_media_manifest_script(earlier, first),
            first,
        ),
        one.follows(Database::publish_media_manifest_script(earlier, first), first),
        crate::step::is_done(
            Database::publish_media_manifest_fault(input, second),
            Database::publish_media_manifest_script(input, second),
            second,
        ),
        two.follows(Database::publish_media_manifest_script(input, second), second),
        input.preview_id == earlier.preview_id,
        two.start().media.manifests == one.end().media.manifests,
    ensures
        ({
            let published = Database::publish_media_manifest_output(first);
            &&& one.end().media.manifests == one.start().media.manifests.insert(
                (earlier.preview_id, published),
                earlier.manifest_id,
            )
            &&& one.start().media.is_next(earlier.preview_id, published)
            &&& one.end().media.previews[earlier.preview_id].state is Ready
            &&& Database::publish_media_manifest_output(second) == published + 1
        }),
{
    reveal(means);
    let script = Database::publish_media_manifest_script(earlier, first);
    let again = Database::publish_media_manifest_script(input, second);
    let published = Database::publish_media_manifest_output(first);
    let next = Database::publish_media_manifest_output(second);
    assert(one.performs(script, first, 0));
    assert(one.performs(script, first, 1));
    assert(one.performs(script, first, 2));
    assert(one.performs(script, first, 3));
    assert(one.performs(script, first, 4));
    assert(one.performs(script, first, 5));
    assert(one.performs(script, first, 6));
    assert(one.performs(script, first, 7));
    assert(one.end() == one.rows[8]);
    assert(two.performs(again, second, 0));
    assert(two.performs(again, second, 1));
    assert(two.performs(again, second, 2));
    assert(two.performs(again, second, 3));
    let seen = two.rows[3].media;
    assert(seen.manifests == one.end().media.manifests);
    assert(seen.manifests.contains_key((input.preview_id, published)));
    assert(seen.is_next(input.preview_id, next));
    assert(one.start().media.is_next(input.preview_id, published));
}

} // verus!
