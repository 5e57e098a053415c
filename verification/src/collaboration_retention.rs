//! Retention of collaborative editing: unreachable objects are abandoned, unsaved work is warned
//! about and then expires, and superseded objects are released.

use vstd::prelude::*;
use vstd::slice::slice_subrange;

use crate::database::Database;
use crate::error::DatabaseError;
use crate::error::Fault;
use crate::id::Uuid;
use crate::progress::Progress;
use crate::progress::ProgressView;
use crate::progress::all;
use crate::progress::execute;
use crate::progress::pass_any;
use crate::progress::pass_count;
use crate::progress::pass_rows;
use crate::progress::sum;
use crate::row::FromRow;
use crate::row::Reply;
use crate::row::Row;
use crate::sql::collaboration as sql;
use crate::step::Command;
use crate::step::CommandView;
use crate::step::Detail;
use crate::step::Param;
use crate::step::Step;
use crate::step::StepView;

verus! {

/// What a sweep did.
#[derive(Clone, Copy, Debug, PartialEq, Eq, Structural)]
pub struct CollaborationRetentionReport {
    pub warnings_emitted: u64,
    pub epochs_expired: u64,
    pub payload_deletions_enqueued: u64,
    pub objects_abandoned: u64,
}

impl Default for CollaborationRetentionReport {
    fn default() -> (r: CollaborationRetentionReport)
        ensures
            r.warnings_emitted == 0,
            r.epochs_expired == 0,
            r.payload_deletions_enqueued == 0,
            r.objects_abandoned == 0,
    {
        CollaborationRetentionReport {
            warnings_emitted: 0,
            epochs_expired: 0,
            payload_deletions_enqueued: 0,
            objects_abandoned: 0,
        }
    }
}

/// An epoch whose unsaved work has expired.
#[derive(Clone, Copy, Debug, PartialEq, Eq, Structural)]
pub struct ExpiredEpoch {
    pub room_id: Uuid,
    pub epoch: i64,
}

impl ExpiredEpoch {
    /// What a row holds, read by its column names.
    #[verifier::opaque]
    pub open spec fn of_row(row: Row) -> Result<ExpiredEpoch, Fault> {
        if row.column::<Uuid>("room_id"@) is Some
            && row.column::<i64>("epoch"@) is Some {
            Ok(
                ExpiredEpoch {
                    room_id: row.column::<Uuid>("room_id"@)->0,
                    epoch: row.column::<i64>("epoch"@)->0,
                },
            )
        } else {
            Err(Fault::Malformed)
        }
    }
}

impl FromRow for ExpiredEpoch {
    open spec fn row_spec(row: Row) -> Result<ExpiredEpoch, Fault> {
        ExpiredEpoch::of_row(row)
    }

    fn from_row(row: &Row) -> (r: Result<ExpiredEpoch, Fault>) {
        proof {
            reveal(ExpiredEpoch::of_row);
        }
        let room_id: Uuid = match row.get("room_id") {
            Some(v) => v,
            None => return Err(Fault::Malformed),
        };
        let epoch: i64 = match row.get("epoch") {
            Some(v) => v,
            None => return Err(Fault::Malformed),
        };
        Ok(ExpiredEpoch { room_id, epoch })
    }
}

/// A payload that is to be deleted.
#[derive(Clone, Copy, Debug, PartialEq, Eq, Structural)]
pub struct ExpiredPayload {
    pub id: Uuid,
}

impl ExpiredPayload {
    /// What a row holds, read by its column names.
    #[verifier::opaque]
    pub open spec fn of_row(row: Row) -> Result<ExpiredPayload, Fault> {
        if row.column::<Uuid>("id"@) is Some {
            Ok(
                ExpiredPayload {
                    id: row.column::<Uuid>("id"@)->0,
                },
            )
        } else {
            Err(Fault::Malformed)
        }
    }
}

impl FromRow for ExpiredPayload {
    open spec fn row_spec(row: Row) -> Result<ExpiredPayload, Fault> {
        ExpiredPayload::of_row(row)
    }

    fn from_row(row: &Row) -> (r: Result<ExpiredPayload, Fault>) {
        proof {
            reveal(ExpiredPayload::of_row);
        }
        let id: Uuid = match row.get("id") {
            Some(v) => v,
            None => return Err(Fault::Malformed),
        };
        Ok(ExpiredPayload { id })
    }
}

/// An object that a newer one has replaced for long enough.
#[derive(Clone, Copy, Debug, PartialEq, Eq, Structural)]
pub struct SupersededObject {
    pub id: Uuid,
    pub payload_id: Uuid,
}

impl SupersededObject {
    /// What a row holds, read by its column names.
    #[verifier::opaque]
    pub open spec fn of_row(row: Row) -> Result<SupersededObject, Fault> {
        if row.column::<Uuid>("id"@) is Some
            && row.column::<Uuid>("payload_id"@) is Some {
            Ok(
                SupersededObject {
                    id: row.column::<Uuid>("id"@)->0,
                    payload_id: row.column::<Uuid>("payload_id"@)->0,
                },
            )
        } else {
            Err(Fault::Malformed)
        }
    }
}

impl FromRow for SupersededObject {
    open spec fn row_spec(row: Row) -> Result<SupersededObject, Fault> {
        SupersededObject::of_row(row)
    }

    fn from_row(row: &Row) -> (r: Result<SupersededObject, Fault>) {
        proof {
            reveal(SupersededObject::of_row);
        }
        let id: Uuid = match row.get("id") {
            Some(v) => v,
            None => return Err(Fault::Malformed),
        };
        let payload_id: Uuid = match row.get("payload_id") {
            Some(v) => v,
            None => return Err(Fault::Malformed),
        };
        Ok(SupersededObject { id, payload_id })
    }
}

/// Whether a sweep passes over a candidate that this error refuses: it was taken up, changed or
/// removed since it was listed.
pub open spec fn is_passed_over(error: DatabaseError) -> bool {
    error == DatabaseError::Conflict || error == DatabaseError::StaleGeneration || error
        == DatabaseError::NotFound
}

/// Whether a sweep passes over a candidate that this error refuses.
pub fn passed_over(error: DatabaseError) -> (r: bool)
    ensures
        r == is_passed_over(error),
{
    match error {
        DatabaseError::Conflict | DatabaseError::StaleGeneration | DatabaseError::NotFound => true,
        _ => false,
    }
}

/// What abandoning an object does next, after replies of its own.
pub open spec fn abandon_step<'a>(tenant_id: Uuid, object_id: Uuid, log: Seq<Reply>) -> StepView<
    'a,
    (),
> {
    StepView::proceed(
        Database::collaboration_abandon_object_fault(log),
        Database::collaboration_abandon_object_script(tenant_id, object_id, log),
        (),
        log,
    )
}

/// How many of the replies, of which the first `count` are known to be, belong to abandoning an
/// object: as long as it asks, it takes one more.
pub open spec fn abandon_span(
    tenant_id: Uuid,
    object_id: Uuid,
    replies: Seq<Reply>,
    count: int,
) -> int
    decreases replies.len() - count,
{
    if count < replies.len() && abandon_step(tenant_id, object_id, replies.take(count)) is Ask {
        abandon_span(tenant_id, object_id, replies, count + 1)
    } else {
        count
    }
}

/// Abandons a candidate in a transaction of its own, and counts it. A candidate that is no longer
/// one is passed over after its transaction is undone.
pub open spec fn abandon_round<'a>(
    tenant_id: Uuid,
    object_id: Uuid,
    log: Seq<Reply>,
    at: int,
    abandoned: u64,
) -> ProgressView<'a, u64> {
    let span = abandon_span(tenant_id, object_id, log.skip(at), 0);
    match abandon_step(tenant_id, object_id, log.skip(at).take(span)) {
        StepView::Ask(command) => ProgressView::Ask(command),
        StepView::Done(_) => ProgressView::total(
            at + span,
            crate::progress::sum_spec(abandoned, 1),
        ),
        StepView::Fail(error) => if is_passed_over(error) {
            crate::progress::after_any(log, at + span, CommandView::Rollback).next(
                |at: int, _done: ()| ProgressView::At(at, abandoned),
            )
        } else {
            ProgressView::Stop(Fault::Error(error))
        },
        StepView::Malformed => ProgressView::Stop(Fault::Malformed),
    }
}

/// Abandons candidates one after the other.
pub open spec fn abandon_all<'a>(
    tenant_id: Uuid,
    objects: Seq<Uuid>,
    log: Seq<Reply>,
    at: int,
    abandoned: u64,
) -> ProgressView<'a, u64>
    decreases objects.len(),
{
    if objects.len() == 0 {
        ProgressView::At(at, abandoned)
    } else {
        match abandon_round(tenant_id, objects[0], log, at, abandoned) {
            ProgressView::At(at, abandoned) => abandon_all(
                tenant_id,
                objects.skip(1),
                log,
                at,
                abandoned,
            ),
            other => other,
        }
    }
}

/// The statement that queues the deletion of a payload.
pub open spec fn deletion_job<'a>(
    tenant_id: Uuid,
    reason: &'static str,
    payload_id: Uuid,
) -> CommandView<'a> {
    CommandView::execute(
        sql::ABANDON_OBJECT_INSERT_JOBS,
        seq![
            Param::Id(tenant_id),
            Param::FreshId,
            Param::Id(payload_id),
            Param::Label(reason, payload_id),
            Param::Object1("payload_id", Detail::Id(payload_id)),
        ],
    )
}

/// Queues the deletion of payloads one after the other.
pub open spec fn enqueue_all<'a>(
    tenant_id: Uuid,
    payloads: Seq<ExpiredPayload>,
    log: Seq<Reply>,
    at: int,
    enqueued: u64,
) -> ProgressView<'a, u64>
    decreases payloads.len(),
{
    if payloads.len() == 0 {
        ProgressView::At(at, enqueued)
    } else {
        match crate::progress::after_count(
            log,
            at,
            deletion_job(tenant_id, "collaboration-expire:", payloads[0].id),
        ) {
            ProgressView::At(at, added) => match crate::progress::sum_spec(enqueued, added) {
                Ok(enqueued) => enqueue_all(tenant_id, payloads.skip(1), log, at, enqueued),
                Err(fault) => ProgressView::Stop(fault),
            },
            other => other,
        }
    }
}

/// Expires an epoch's objects: their payloads turn into delete intent, then the objects do, and
/// each deletion is queued.
pub open spec fn expire_round<'a>(
    tenant_id: Uuid,
    expired: ExpiredEpoch,
    log: Seq<Reply>,
    at: int,
    enqueued: u64,
) -> ProgressView<'a, u64> {
    crate::progress::after_rows::<ExpiredPayload>(
        log,
        at,
        CommandView::all(
            sql::RETENTION_SWEEP_UPDATE_PAYLOAD_OBJECTS,
            seq![Param::Id(tenant_id), Param::Id(expired.room_id), Param::I64(expired.epoch)],
        ),
    ).next(
        |at: int, payloads: Seq<ExpiredPayload>|
            crate::progress::after_any(
                log,
                at,
                CommandView::execute(
                    sql::RETENTION_SWEEP_UPDATE_OBJECTS,
                    seq![
                        Param::Id(tenant_id),
                        Param::Id(expired.room_id),
                        Param::I64(expired.epoch),
                    ],
                ),
            ).next(|at: int, _done: ()| enqueue_all(tenant_id, payloads, log, at, enqueued)),
    )
}

/// Expires epochs one after the other.
pub open spec fn expire_all<'a>(
    tenant_id: Uuid,
    epochs: Seq<ExpiredEpoch>,
    log: Seq<Reply>,
    at: int,
    enqueued: u64,
) -> ProgressView<'a, u64>
    decreases epochs.len(),
{
    if epochs.len() == 0 {
        ProgressView::At(at, enqueued)
    } else {
        match expire_round(tenant_id, epochs[0], log, at, enqueued) {
            ProgressView::At(at, enqueued) => expire_all(
                tenant_id,
                epochs.skip(1),
                log,
                at,
                enqueued,
            ),
            other => other,
        }
    }
}

/// Releases a superseded object. Where its payload is no longer finalized, the object is left as
/// it is.
pub open spec fn release_round<'a>(
    tenant_id: Uuid,
    object: SupersededObject,
    log: Seq<Reply>,
    at: int,
    enqueued: u64,
) -> ProgressView<'a, u64> {
    crate::progress::after_count(
        log,
        at,
        CommandView::execute(
            sql::RETENTION_SWEEP_UPDATE_PAYLOAD_OBJECTS_2,
            seq![Param::Id(tenant_id), Param::Id(object.payload_id)],
        ),
    ).next(
        |at: int, payloads: u64|
            if payloads != 1 {
                ProgressView::At(at, enqueued)
            } else {
                crate::progress::after_any(
                    log,
                    at,
                    CommandView::execute(
                        sql::RETENTION_SWEEP_UPDATE_OBJECTS_2,
                        seq![Param::Id(tenant_id), Param::Id(object.id)],
                    ),
                ).next(
                    |at: int, _done: ()|
                        crate::progress::after_count(
                            log,
                            at,
                            deletion_job(
                                tenant_id,
                                "collaboration-superseded:",
                                object.payload_id,
                            ),
                        ),
                ).next(
                    |at: int, added: u64|
                        ProgressView::total(at, crate::progress::sum_spec(enqueued, added)),
                )
            },
    )
}

/// Releases superseded objects one after the other.
pub open spec fn release_all<'a>(
    tenant_id: Uuid,
    objects: Seq<SupersededObject>,
    log: Seq<Reply>,
    at: int,
    enqueued: u64,
) -> ProgressView<'a, u64>
    decreases objects.len(),
{
    if objects.len() == 0 {
        ProgressView::At(at, enqueued)
    } else {
        match release_round(tenant_id, objects[0], log, at, enqueued) {
            ProgressView::At(at, enqueued) => release_all(
                tenant_id,
                objects.skip(1),
                log,
                at,
                enqueued,
            ),
            other => other,
        }
    }
}

/// The part of a sweep that runs in one transaction: warnings, expiry and release.
pub open spec fn retire<'a>(
    tenant_id: Uuid,
    limit: i64,
    log: Seq<Reply>,
    at: int,
    objects_abandoned: u64,
) -> ProgressView<'a, CollaborationRetentionReport> {
    crate::progress::after_any(log, at, CommandView::Begin).next(
        |at: int, _done: ()|
            crate::progress::after_count(
                log,
                at,
                CommandView::execute(
                    sql::RETENTION_SWEEP_UPDATE_EPOCHS,
                    seq![Param::Id(tenant_id), Param::I64(limit)],
                ),
            ),
    ).next(
        |at: int, warnings_emitted: u64|
            crate::progress::after_rows::<ExpiredEpoch>(
                log,
                at,
                CommandView::all(
                    sql::RETENTION_SWEEP_UPDATE_EPOCHS_2,
                    seq![Param::Id(tenant_id), Param::I64(limit)],
                ),
            ).next(
                |at: int, epochs: Seq<ExpiredEpoch>|
                    expire_all(tenant_id, epochs, log, at, 0).next(
                        |at: int, enqueued: u64|
                            crate::progress::after_rows::<SupersededObject>(
                                log,
                                at,
                                CommandView::all(
                                    sql::RETENTION_SWEEP_SELECT_OBJECTS_2,
                                    seq![Param::Id(tenant_id), Param::I64(limit)],
                                ),
                            ).next(
                                |at: int, objects: Seq<SupersededObject>|
                                    release_all(tenant_id, objects, log, at, enqueued),
                            ),
                    ).next(
                        |at: int, payload_deletions_enqueued: u64|
                            crate::progress::after_any(log, at, CommandView::Commit).next(
                                |at: int, _done: ()|
                                    ProgressView::At(
                                        at,
                                        CollaborationRetentionReport {
                                            warnings_emitted,
                                            epochs_expired: epochs.len() as u64,
                                            payload_deletions_enqueued,
                                            objects_abandoned,
                                        },
                                    ),
                            ),
                    ),
            ),
    )
}

/// A whole sweep.
pub open spec fn sweep<'a>(tenant_id: Uuid, limit: i64, log: Seq<Reply>) -> ProgressView<
    'a,
    CollaborationRetentionReport,
> {
    crate::progress::after_rows::<Uuid>(
        log,
        0,
        CommandView::all(
            sql::RETENTION_SWEEP_SELECT_OBJECTS,
            seq![Param::Id(tenant_id), Param::I64(limit)],
        ),
    ).next(
        |at: int, objects: Seq<Uuid>| abandon_all(tenant_id, objects, log, at, 0),
    ).next(|at: int, abandoned: u64| retire(tenant_id, limit, log, at, abandoned))
}

/// Abandons a candidate.
fn abandon_one<'a>(
    tenant_id: Uuid,
    object_id: Uuid,
    log: &'a [Reply],
    at: usize,
    abandoned: u64,
) -> (r: Progress<'a, u64>)
    requires
        at <= log@.len(),
    ensures
        r@ == abandon_round(tenant_id, object_id, log@, at as int, abandoned),
        r matches Progress::At(later, _) ==> later <= log@.len(),
{
    let ghost tail = log@.skip(at as int);
    let length: usize = log.len();
    let mut count: usize = 0;
    loop
        invariant
            length == log@.len(),
            at + count <= length,
            tail == log@.skip(at as int),
            abandon_span(tenant_id, object_id, tail, 0) == abandon_span(
                tenant_id,
                object_id,
                tail,
                count as int,
            ),
        decreases length - at - count,
    {
        proof {
            assert(tail.take(count as int) =~= log@.subrange(at as int, at + count));
        }
        match Database::collaboration_abandon_object(
            tenant_id,
            object_id,
            slice_subrange(log, at, at + count),
        ) {
            Step::Ask(command) => {
                if at + count >= length {
                    return Progress::Ask(command);
                }
                count = count + 1;
            },
            Step::Done(_) => {
                return match sum(abandoned, 1) {
                    Ok(abandoned) => Progress::At(at + count, abandoned),
                    Err(fault) => Progress::Stop(fault),
                };
            },
            Step::Fail(error) => {
                if !passed_over(error) {
                    return Progress::Stop(Fault::Error(error));
                }
                return match pass_any(log, at + count, Command::Rollback) {
                    Progress::At(later, _) => Progress::At(later, abandoned),
                    Progress::Ask(command) => Progress::Ask(command),
                    Progress::Stop(fault) => Progress::Stop(fault),
                };
            },
            Step::Malformed => return Progress::Stop(Fault::Malformed),
        }
    }
}

/// Abandons candidates one after the other.
fn abandon_each<'a>(
    tenant_id: Uuid,
    objects: &Vec<Uuid>,
    log: &'a [Reply],
    from: usize,
) -> (r: Progress<'a, u64>)
    requires
        from <= log@.len(),
    ensures
        r@ == abandon_all(tenant_id, objects@, log@, from as int, 0),
{
    let mut at: usize = from;
    let mut abandoned: u64 = 0;
    let mut next: usize = 0;
    proof {
        assert(objects@.skip(0) =~= objects@);
    }
    while next < objects.len()
        invariant
            at <= log@.len(),
            next <= objects@.len(),
            abandon_all(tenant_id, objects@, log@, from as int, 0) == abandon_all(
                tenant_id,
                objects@.skip(next as int),
                log@,
                at as int,
                abandoned,
            ),
        decreases objects@.len() - next,
    {
        proof {
            assert(objects@.skip(next as int)[0] == objects@[next as int]);
            assert(objects@.skip(next as int).skip(1) =~= objects@.skip(next + 1));
        }
        match abandon_one(tenant_id, objects[next], log, at, abandoned) {
            Progress::At(later, more) => {
                at = later;
                abandoned = more;
            },
            Progress::Ask(command) => return Progress::Ask(command),
            Progress::Stop(fault) => return Progress::Stop(fault),
        }
        next = next + 1;
    }
    Progress::At(at, abandoned)
}

/// The statement that queues the deletion of a payload.
fn job<'a>(tenant_id: Uuid, reason: &'static str, payload_id: Uuid) -> (command: Command<'a>)
    ensures
        command@ == deletion_job(tenant_id, reason, payload_id),
{
    execute(
        sql::ABANDON_OBJECT_INSERT_JOBS,
        vec![
            Param::Id(tenant_id),
            Param::FreshId,
            Param::Id(payload_id),
            Param::Label(reason, payload_id),
            Param::Object1("payload_id", Detail::Id(payload_id)),
        ],
    )
}

/// Queues the deletion of payloads one after the other.
fn enqueue_each<'a>(
    tenant_id: Uuid,
    payloads: &Vec<ExpiredPayload>,
    log: &'a [Reply],
    from: usize,
    initial: u64,
) -> (r: Progress<'a, u64>)
    ensures
        r@ == enqueue_all(tenant_id, payloads@, log@, from as int, initial),
{
    let mut at: usize = from;
    let mut enqueued: u64 = initial;
    let mut next: usize = 0;
    proof {
        assert(payloads@.skip(0) =~= payloads@);
    }
    while next < payloads.len()
        invariant
            next <= payloads@.len(),
            enqueue_all(tenant_id, payloads@, log@, from as int, initial) == enqueue_all(
                tenant_id,
                payloads@.skip(next as int),
                log@,
                at as int,
                enqueued,
            ),
        decreases payloads@.len() - next,
    {
        proof {
            assert(payloads@.skip(next as int)[0] == payloads@[next as int]);
            assert(payloads@.skip(next as int).skip(1) =~= payloads@.skip(next + 1));
        }
        match pass_count(log, at, job(tenant_id, "collaboration-expire:", payloads[next].id)) {
            Progress::At(later, added) => match sum(enqueued, added) {
                Ok(more) => {
                    at = later;
                    enqueued = more;
                },
                Err(fault) => return Progress::Stop(fault),
            },
            Progress::Ask(command) => return Progress::Ask(command),
            Progress::Stop(fault) => return Progress::Stop(fault),
        }
        next = next + 1;
    }
    Progress::At(at, enqueued)
}

/// Expires an epoch's objects.
fn expire_one<'a>(
    tenant_id: Uuid,
    expired: ExpiredEpoch,
    log: &'a [Reply],
    at: usize,
    enqueued: u64,
) -> (r: Progress<'a, u64>)
    ensures
        r@ == expire_round(tenant_id, expired, log@, at as int, enqueued),
{
    let (at, payloads): (usize, Vec<ExpiredPayload>) = match pass_rows::<ExpiredPayload>(
        log,
        at,
        all(
            sql::RETENTION_SWEEP_UPDATE_PAYLOAD_OBJECTS,
            vec![Param::Id(tenant_id), Param::Id(expired.room_id), Param::I64(expired.epoch)],
        ),
    ) {
        Progress::At(at, payloads) => (at, payloads),
        Progress::Ask(command) => return Progress::Ask(command),
        Progress::Stop(fault) => return Progress::Stop(fault),
    };
    let at: usize = match pass_any(
        log,
        at,
        execute(
            sql::RETENTION_SWEEP_UPDATE_OBJECTS,
            vec![Param::Id(tenant_id), Param::Id(expired.room_id), Param::I64(expired.epoch)],
        ),
    ) {
        Progress::At(at, _) => at,
        Progress::Ask(command) => return Progress::Ask(command),
        Progress::Stop(fault) => return Progress::Stop(fault),
    };
    enqueue_each(tenant_id, &payloads, log, at, enqueued)
}

/// Expires epochs one after the other.
fn expire_each<'a>(
    tenant_id: Uuid,
    epochs: &Vec<ExpiredEpoch>,
    log: &'a [Reply],
    from: usize,
) -> (r: Progress<'a, u64>)
    ensures
        r@ == expire_all(tenant_id, epochs@, log@, from as int, 0),
{
    let mut at: usize = from;
    let mut enqueued: u64 = 0;
    let mut next: usize = 0;
    proof {
        assert(epochs@.skip(0) =~= epochs@);
    }
    while next < epochs.len()
        invariant
            next <= epochs@.len(),
            expire_all(tenant_id, epochs@, log@, from as int, 0) == expire_all(
                tenant_id,
                epochs@.skip(next as int),
                log@,
                at as int,
                enqueued,
            ),
        decreases epochs@.len() - next,
    {
        proof {
            assert(epochs@.skip(next as int)[0] == epochs@[next as int]);
            assert(epochs@.skip(next as int).skip(1) =~= epochs@.skip(next + 1));
        }
        match expire_one(tenant_id, epochs[next], log, at, enqueued) {
            Progress::At(later, more) => {
                at = later;
                enqueued = more;
            },
            Progress::Ask(command) => return Progress::Ask(command),
            Progress::Stop(fault) => return Progress::Stop(fault),
        }
        next = next + 1;
    }
    Progress::At(at, enqueued)
}

/// Releases a superseded object.
fn release_one<'a>(
    tenant_id: Uuid,
    object: SupersededObject,
    log: &'a [Reply],
    at: usize,
    enqueued: u64,
) -> (r: Progress<'a, u64>)
    ensures
        r@ == release_round(tenant_id, object, log@, at as int, enqueued),
{
    let (at, payloads): (usize, u64) = match pass_count(
        log,
        at,
        execute(
            sql::RETENTION_SWEEP_UPDATE_PAYLOAD_OBJECTS_2,
            vec![Param::Id(tenant_id), Param::Id(object.payload_id)],
        ),
    ) {
        Progress::At(at, payloads) => (at, payloads),
        Progress::Ask(command) => return Progress::Ask(command),
        Progress::Stop(fault) => return Progress::Stop(fault),
    };
    if payloads != 1 {
        return Progress::At(at, enqueued);
    }
    let at: usize = match pass_any(
        log,
        at,
        execute(
            sql::RETENTION_SWEEP_UPDATE_OBJECTS_2,
            vec![Param::Id(tenant_id), Param::Id(object.id)],
        ),
    ) {
        Progress::At(at, _) => at,
        Progress::Ask(command) => return Progress::Ask(command),
        Progress::Stop(fault) => return Progress::Stop(fault),
    };
    let (at, added): (usize, u64) = match pass_count(
        log,
        at,
        job(tenant_id, "collaboration-superseded:", object.payload_id),
    ) {
        Progress::At(at, added) => (at, added),
        Progress::Ask(command) => return Progress::Ask(command),
        Progress::Stop(fault) => return Progress::Stop(fault),
    };
    match sum(enqueued, added) {
        Ok(enqueued) => Progress::At(at, enqueued),
        Err(fault) => Progress::Stop(fault),
    }
}

/// Releases superseded objects one after the other.
fn release_each<'a>(
    tenant_id: Uuid,
    objects: &Vec<SupersededObject>,
    log: &'a [Reply],
    from: usize,
    initial: u64,
) -> (r: Progress<'a, u64>)
    ensures
        r@ == release_all(tenant_id, objects@, log@, from as int, initial),
{
    let mut at: usize = from;
    let mut enqueued: u64 = initial;
    let mut next: usize = 0;
    proof {
        assert(objects@.skip(0) =~= objects@);
    }
    while next < objects.len()
        invariant
            next <= objects@.len(),
            release_all(tenant_id, objects@, log@, from as int, initial) == release_all(
                tenant_id,
                objects@.skip(next as int),
                log@,
                at as int,
                enqueued,
            ),
        decreases objects@.len() - next,
    {
        proof {
            assert(objects@.skip(next as int)[0] == objects@[next as int]);
            assert(objects@.skip(next as int).skip(1) =~= objects@.skip(next + 1));
        }
        match release_one(tenant_id, objects[next], log, at, enqueued) {
            Progress::At(later, more) => {
                at = later;
                enqueued = more;
            },
            Progress::Ask(command) => return Progress::Ask(command),
            Progress::Stop(fault) => return Progress::Stop(fault),
        }
        next = next + 1;
    }
    Progress::At(at, enqueued)
}

/// The part of a sweep that runs in one transaction.
fn retire_expired<'a>(
    tenant_id: Uuid,
    limit: i64,
    log: &'a [Reply],
    at: usize,
    objects_abandoned: u64,
) -> (r: Progress<'a, CollaborationRetentionReport>)
    ensures
        r@ == retire(tenant_id, limit, log@, at as int, objects_abandoned),
{
    let at: usize = match pass_any(log, at, Command::Begin) {
        Progress::At(at, _) => at,
        Progress::Ask(command) => return Progress::Ask(command),
        Progress::Stop(fault) => return Progress::Stop(fault),
    };
    let (at, warnings_emitted): (usize, u64) = match pass_count(
        log,
        at,
        execute(
            sql::RETENTION_SWEEP_UPDATE_EPOCHS,
            vec![Param::Id(tenant_id), Param::I64(limit)],
        ),
    ) {
        Progress::At(at, warnings_emitted) => (at, warnings_emitted),
        Progress::Ask(command) => return Progress::Ask(command),
        Progress::Stop(fault) => return Progress::Stop(fault),
    };
    let (at, epochs): (usize, Vec<ExpiredEpoch>) = match pass_rows::<ExpiredEpoch>(
        log,
        at,
        all(sql::RETENTION_SWEEP_UPDATE_EPOCHS_2, vec![Param::Id(tenant_id), Param::I64(limit)]),
    ) {
        Progress::At(at, epochs) => (at, epochs),
        Progress::Ask(command) => return Progress::Ask(command),
        Progress::Stop(fault) => return Progress::Stop(fault),
    };
    let (at, enqueued): (usize, u64) = match expire_each(tenant_id, &epochs, log, at) {
        Progress::At(at, enqueued) => (at, enqueued),
        Progress::Ask(command) => return Progress::Ask(command),
        Progress::Stop(fault) => return Progress::Stop(fault),
    };
    let (at, objects): (usize, Vec<SupersededObject>) = match pass_rows::<SupersededObject>(
        log,
        at,
        all(sql::RETENTION_SWEEP_SELECT_OBJECTS_2, vec![Param::Id(tenant_id), Param::I64(limit)]),
    ) {
        Progress::At(at, objects) => (at, objects),
        Progress::Ask(command) => return Progress::Ask(command),
        Progress::Stop(fault) => return Progress::Stop(fault),
    };
    let (at, payload_deletions_enqueued): (usize, u64) = match release_each(
        tenant_id, &objects, log, at, enqueued,
    ) {
        Progress::At(at, payload_deletions_enqueued) => (at, payload_deletions_enqueued),
        Progress::Ask(command) => return Progress::Ask(command),
        Progress::Stop(fault) => return Progress::Stop(fault),
    };
    let at: usize = match pass_any(log, at, Command::Commit) {
        Progress::At(at, _) => at,
        Progress::Ask(command) => return Progress::Ask(command),
        Progress::Stop(fault) => return Progress::Stop(fault),
    };
    Progress::At(
        at,
        CollaborationRetentionReport {
            warnings_emitted,
            epochs_expired: epochs.len() as u64,
            payload_deletions_enqueued,
            objects_abandoned,
        },
    )
}

/// A whole sweep.
fn sweep_progress<'a>(tenant_id: Uuid, limit: i64, log: &'a [Reply]) -> (r: Progress<
    'a,
    CollaborationRetentionReport,
>)
    ensures
        r@ == sweep(tenant_id, limit, log@),
{
    let (at, objects): (usize, Vec<Uuid>) = match pass_rows::<Uuid>(
        log,
        0,
        all(sql::RETENTION_SWEEP_SELECT_OBJECTS, vec![Param::Id(tenant_id), Param::I64(limit)]),
    ) {
        Progress::At(at, objects) => (at, objects),
        Progress::Ask(command) => return Progress::Ask(command),
        Progress::Stop(fault) => return Progress::Stop(fault),
    };
    let (at, abandoned): (usize, u64) = match abandon_each(tenant_id, &objects, log, at) {
        Progress::At(at, abandoned) => (at, abandoned),
        Progress::Ask(command) => return Progress::Ask(command),
        Progress::Stop(fault) => return Progress::Stop(fault),
    };
    retire_expired(tenant_id, limit, log, at, abandoned)
}

proof fn lemma_abandon_span_forward(
    tenant_id: Uuid,
    object_id: Uuid,
    replies: Seq<Reply>,
    count: int,
)
    requires
        0 <= count <= replies.len(),
    ensures
        count <= abandon_span(tenant_id, object_id, replies, count) <= replies.len(),
    decreases replies.len() - count,
{
    if count < replies.len() && abandon_step(tenant_id, object_id, replies.take(count)) is Ask {
        lemma_abandon_span_forward(tenant_id, object_id, replies, count + 1);
    }
}

proof fn lemma_abandon_span_settled(
    tenant_id: Uuid,
    object_id: Uuid,
    replies: Seq<Reply>,
    count: int,
    end: int,
)
    requires
        0 <= count <= replies.len(),
        abandon_span(tenant_id, object_id, replies, count) <= end <= replies.len(),
        !(abandon_step(
            tenant_id,
            object_id,
            replies.take(abandon_span(tenant_id, object_id, replies, count)),
        ) is Ask),
    ensures
        abandon_span(tenant_id, object_id, replies.take(end), count) == abandon_span(
            tenant_id,
            object_id,
            replies,
            count,
        ),
    decreases replies.len() - count,
{
    lemma_abandon_span_forward(tenant_id, object_id, replies, count);
    assert(replies.take(end).take(count) =~= replies.take(count));
    if count < replies.len() && abandon_step(tenant_id, object_id, replies.take(count)) is Ask {
        lemma_abandon_span_forward(tenant_id, object_id, replies, count + 1);
        lemma_abandon_span_settled(tenant_id, object_id, replies, count + 1, end);
    }
}

proof fn lemma_abandon_round_forward(
    tenant_id: Uuid,
    object_id: Uuid,
    log: Seq<Reply>,
    at: int,
    abandoned: u64,
)
    requires
        0 <= at <= log.len(),
        abandon_round(tenant_id, object_id, log, at, abandoned) is At,
    ensures
        at <= abandon_round(tenant_id, object_id, log, at, abandoned)->At_0 <= log.len(),
{
    lemma_abandon_span_forward(tenant_id, object_id, log.skip(at), 0);
}

proof fn lemma_abandon_round_settled(
    tenant_id: Uuid,
    object_id: Uuid,
    log: Seq<Reply>,
    at: int,
    abandoned: u64,
    end: int,
)
    requires
        0 <= at <= log.len(),
        abandon_round(tenant_id, object_id, log, at, abandoned) is At,
        abandon_round(tenant_id, object_id, log, at, abandoned)->At_0 <= end <= log.len(),
    ensures
        abandon_round(tenant_id, object_id, log.take(end), at, abandoned) == abandon_round(
            tenant_id,
            object_id,
            log,
            at,
            abandoned,
        ),
{
    let tail = log.skip(at);
    let span = abandon_span(tenant_id, object_id, tail, 0);
    lemma_abandon_span_forward(tenant_id, object_id, tail, 0);
    assert(log.take(end).skip(at) =~= tail.take(end - at));
    lemma_abandon_span_settled(tenant_id, object_id, tail, 0, end - at);
    assert(tail.take(end - at).take(span) =~= tail.take(span));
}

proof fn lemma_abandon_all_forward(
    tenant_id: Uuid,
    objects: Seq<Uuid>,
    log: Seq<Reply>,
    at: int,
    abandoned: u64,
)
    requires
        0 <= at <= log.len(),
    ensures
        abandon_all(tenant_id, objects, log, at, abandoned) is At ==> at <= abandon_all(
            tenant_id,
            objects,
            log,
            at,
            abandoned,
        )->At_0 <= log.len(),
    decreases objects.len(),
{
    if objects.len() > 0 {
        let round = abandon_round(tenant_id, objects[0], log, at, abandoned);
        if round is At {
            lemma_abandon_round_forward(tenant_id, objects[0], log, at, abandoned);
            lemma_abandon_all_forward(tenant_id, objects.skip(1), log, round->At_0, round->At_1);
        }
    }
}

proof fn lemma_abandon_all_settled(
    tenant_id: Uuid,
    objects: Seq<Uuid>,
    log: Seq<Reply>,
    at: int,
    abandoned: u64,
    end: int,
)
    requires
        0 <= at <= log.len(),
        abandon_all(tenant_id, objects, log, at, abandoned) is At,
        abandon_all(tenant_id, objects, log, at, abandoned)->At_0 <= end <= log.len(),
    ensures
        abandon_all(tenant_id, objects, log.take(end), at, abandoned) == abandon_all(
            tenant_id,
            objects,
            log,
            at,
            abandoned,
        ),
    decreases objects.len(),
{
    if objects.len() > 0 {
        let round = abandon_round(tenant_id, objects[0], log, at, abandoned);
        lemma_abandon_round_forward(tenant_id, objects[0], log, at, abandoned);
        lemma_abandon_all_forward(tenant_id, objects.skip(1), log, round->At_0, round->At_1);
        lemma_abandon_round_settled(tenant_id, objects[0], log, at, abandoned, end);
        lemma_abandon_all_settled(tenant_id, objects.skip(1), log, round->At_0, round->At_1, end);
    }
}

proof fn lemma_enqueue_all_forward(
    tenant_id: Uuid,
    payloads: Seq<ExpiredPayload>,
    log: Seq<Reply>,
    at: int,
    enqueued: u64,
)
    ensures
        enqueue_all(tenant_id, payloads, log, at, enqueued) is At ==> at <= enqueue_all(
            tenant_id,
            payloads,
            log,
            at,
            enqueued,
        )->At_0,
    decreases payloads.len(),
{
    if payloads.len() > 0 && at < log.len() && log[at].row_count() is Ok {
        let added = log[at].row_count()->Ok_0;
        if crate::progress::sum_spec(enqueued, added) is Ok {
            lemma_enqueue_all_forward(
                tenant_id,
                payloads.skip(1),
                log,
                at + 1,
                crate::progress::sum_spec(enqueued, added)->Ok_0,
            );
        }
    }
}

proof fn lemma_enqueue_all_settled(
    tenant_id: Uuid,
    payloads: Seq<ExpiredPayload>,
    log: Seq<Reply>,
    at: int,
    enqueued: u64,
    end: int,
)
    requires
        0 <= at,
        enqueue_all(tenant_id, payloads, log, at, enqueued) is At,
        enqueue_all(tenant_id, payloads, log, at, enqueued)->At_0 <= end <= log.len(),
    ensures
        enqueue_all(tenant_id, payloads, log.take(end), at, enqueued) == enqueue_all(
            tenant_id,
            payloads,
            log,
            at,
            enqueued,
        ),
    decreases payloads.len(),
{
    if payloads.len() > 0 {
        let added = log[at].row_count()->Ok_0;
        let more = crate::progress::sum_spec(enqueued, added)->Ok_0;
        lemma_enqueue_all_forward(tenant_id, payloads.skip(1), log, at + 1, more);
        assert(log.take(end)[at] == log[at]);
        lemma_enqueue_all_settled(tenant_id, payloads.skip(1), log, at + 1, more, end);
    }
}

proof fn lemma_expire_round_forward(
    tenant_id: Uuid,
    expired: ExpiredEpoch,
    log: Seq<Reply>,
    at: int,
    enqueued: u64,
)
    requires
        expire_round(tenant_id, expired, log, at, enqueued) is At,
    ensures
        at + 2 <= expire_round(tenant_id, expired, log, at, enqueued)->At_0,
{
    let payloads = log[at].all_rows::<ExpiredPayload>()->Ok_0;
    lemma_enqueue_all_forward(tenant_id, payloads, log, at + 2, enqueued);
}

proof fn lemma_expire_round_settled(
    tenant_id: Uuid,
    expired: ExpiredEpoch,
    log: Seq<Reply>,
    at: int,
    enqueued: u64,
    end: int,
)
    requires
        0 <= at,
        expire_round(tenant_id, expired, log, at, enqueued) is At,
        expire_round(tenant_id, expired, log, at, enqueued)->At_0 <= end <= log.len(),
    ensures
        expire_round(tenant_id, expired, log.take(end), at, enqueued) == expire_round(
            tenant_id,
            expired,
            log,
            at,
            enqueued,
        ),
{
    let payloads = log[at].all_rows::<ExpiredPayload>()->Ok_0;
    lemma_enqueue_all_forward(tenant_id, payloads, log, at + 2, enqueued);
    assert(log.take(end)[at] == log[at]);
    lemma_enqueue_all_settled(tenant_id, payloads, log, at + 2, enqueued, end);
}

proof fn lemma_expire_all_forward(
    tenant_id: Uuid,
    epochs: Seq<ExpiredEpoch>,
    log: Seq<Reply>,
    at: int,
    enqueued: u64,
)
    ensures
        expire_all(tenant_id, epochs, log, at, enqueued) is At ==> at <= expire_all(
            tenant_id,
            epochs,
            log,
            at,
            enqueued,
        )->At_0,
    decreases epochs.len(),
{
    if epochs.len() > 0 {
        let round = expire_round(tenant_id, epochs[0], log, at, enqueued);
        if round is At {
            lemma_expire_round_forward(tenant_id, epochs[0], log, at, enqueued);
            lemma_expire_all_forward(tenant_id, epochs.skip(1), log, round->At_0, round->At_1);
        }
    }
}

proof fn lemma_expire_all_settled(
    tenant_id: Uuid,
    epochs: Seq<ExpiredEpoch>,
    log: Seq<Reply>,
    at: int,
    enqueued: u64,
    end: int,
)
    requires
        0 <= at,
        expire_all(tenant_id, epochs, log, at, enqueued) is At,
        expire_all(tenant_id, epochs, log, at, enqueued)->At_0 <= end <= log.len(),
    ensures
        expire_all(tenant_id, epochs, log.take(end), at, enqueued) == expire_all(
            tenant_id,
            epochs,
            log,
            at,
            enqueued,
        ),
    decreases epochs.len(),
{
    if epochs.len() > 0 {
        let round = expire_round(tenant_id, epochs[0], log, at, enqueued);
        lemma_expire_round_forward(tenant_id, epochs[0], log, at, enqueued);
        lemma_expire_all_forward(tenant_id, epochs.skip(1), log, round->At_0, round->At_1);
        lemma_expire_round_settled(tenant_id, epochs[0], log, at, enqueued, end);
        lemma_expire_all_settled(tenant_id, epochs.skip(1), log, round->At_0, round->At_1, end);
    }
}

proof fn lemma_release_round_settled(
    tenant_id: Uuid,
    object: SupersededObject,
    log: Seq<Reply>,
    at: int,
    enqueued: u64,
    end: int,
)
    requires
        0 <= at,
        release_round(tenant_id, object, log, at, enqueued) is At,
        release_round(tenant_id, object, log, at, enqueued)->At_0 <= end <= log.len(),
    ensures
        release_round(tenant_id, object, log.take(end), at, enqueued) == release_round(
            tenant_id,
            object,
            log,
            at,
            enqueued,
        ),
{
}

proof fn lemma_release_all_forward(
    tenant_id: Uuid,
    objects: Seq<SupersededObject>,
    log: Seq<Reply>,
    at: int,
    enqueued: u64,
)
    ensures
        release_all(tenant_id, objects, log, at, enqueued) is At ==> at <= release_all(
            tenant_id,
            objects,
            log,
            at,
            enqueued,
        )->At_0,
    decreases objects.len(),
{
    if objects.len() > 0 {
        let round = release_round(tenant_id, objects[0], log, at, enqueued);
        if round is At {
            lemma_release_all_forward(tenant_id, objects.skip(1), log, round->At_0, round->At_1);
        }
    }
}

proof fn lemma_release_all_settled(
    tenant_id: Uuid,
    objects: Seq<SupersededObject>,
    log: Seq<Reply>,
    at: int,
    enqueued: u64,
    end: int,
)
    requires
        0 <= at,
        release_all(tenant_id, objects, log, at, enqueued) is At,
        release_all(tenant_id, objects, log, at, enqueued)->At_0 <= end <= log.len(),
    ensures
        release_all(tenant_id, objects, log.take(end), at, enqueued) == release_all(
            tenant_id,
            objects,
            log,
            at,
            enqueued,
        ),
    decreases objects.len(),
{
    if objects.len() > 0 {
        let round = release_round(tenant_id, objects[0], log, at, enqueued);
        lemma_release_all_forward(tenant_id, objects.skip(1), log, round->At_0, round->At_1);
        lemma_release_round_settled(tenant_id, objects[0], log, at, enqueued, end);
        lemma_release_all_settled(tenant_id, objects.skip(1), log, round->At_0, round->At_1, end);
    }
}

/// A sweep reports its result only after its commit was acknowledged: the last reply that it
/// reads answers the commit.
pub proof fn sweeps_end_with_their_commit(tenant_id: Uuid, limit: i64, log: Seq<Reply>)
    ensures
        sweep(tenant_id, limit, log) matches ProgressView::At(end, _) ==> {
            &&& 0 < end <= log.len()
            &&& sweep(tenant_id, limit, log.take(end - 1)) == ProgressView::<
                CollaborationRetentionReport,
            >::Ask(CommandView::Commit)
        },
{
    if sweep(tenant_id, limit, log) is At {
        let end = sweep(tenant_id, limit, log)->At_0;
        let candidates = log[0].all_rows::<Uuid>()->Ok_0;
        let abandoned = abandon_all(tenant_id, candidates, log, 1, 0);
        lemma_abandon_all_forward(tenant_id, candidates, log, 1, 0);
        let at = abandoned->At_0;
        let epochs = log[at + 2].all_rows::<ExpiredEpoch>()->Ok_0;
        let expired = expire_all(tenant_id, epochs, log, at + 3, 0);
        lemma_expire_all_forward(tenant_id, epochs, log, at + 3, 0);
        let objects = log[expired->At_0].all_rows::<SupersededObject>()->Ok_0;
        let released = release_all(tenant_id, objects, log, expired->At_0 + 1, expired->At_1);
        lemma_release_all_forward(tenant_id, objects, log, expired->At_0 + 1, expired->At_1);
        assert(end == released->At_0 + 1);
        lemma_abandon_all_settled(tenant_id, candidates, log, 1, 0, end - 1);
        lemma_expire_all_settled(tenant_id, epochs, log, at + 3, 0, end - 1);
        lemma_release_all_settled(
            tenant_id,
            objects,
            log,
            expired->At_0 + 1,
            expired->At_1,
            end - 1,
        );
        let before = log.take(end - 1);
        assert(before[0] == log[0]);
        assert(before[at] == log[at]);
        assert(before[at + 1] == log[at + 1]);
        assert(before[at + 2] == log[at + 2]);
        assert(before[expired->At_0] == log[expired->At_0]);
    }
}

proof fn lemma_abandon_step_is_scoped(tenant_id: Uuid, object_id: Uuid, log: Seq<Reply>)
    ensures
        abandon_step(tenant_id, object_id, log) matches StepView::Ask(command)
            ==> crate::step::binds_tenant(command, tenant_id),
{
    Database::collaboration_abandon_object_is_scoped(tenant_id, object_id, log);
}

proof fn lemma_abandon_all_is_scoped(
    tenant_id: Uuid,
    objects: Seq<Uuid>,
    log: Seq<Reply>,
    at: int,
    abandoned: u64,
)
    ensures
        abandon_all(tenant_id, objects, log, at, abandoned) matches ProgressView::Ask(command)
            ==> crate::step::binds_tenant(command, tenant_id),
    decreases objects.len(),
{
    if objects.len() > 0 {
        let span = abandon_span(tenant_id, objects[0], log.skip(at), 0);
        lemma_abandon_step_is_scoped(tenant_id, objects[0], log.skip(at).take(span));
        match abandon_round(tenant_id, objects[0], log, at, abandoned) {
            ProgressView::At(at, more) => {
                lemma_abandon_all_is_scoped(tenant_id, objects.skip(1), log, at, more);
            },
            _ => {},
        }
    }
}

proof fn lemma_enqueue_all_is_scoped(
    tenant_id: Uuid,
    payloads: Seq<ExpiredPayload>,
    log: Seq<Reply>,
    at: int,
    enqueued: u64,
)
    ensures
        enqueue_all(tenant_id, payloads, log, at, enqueued) matches ProgressView::Ask(command)
            ==> crate::step::binds_tenant(command, tenant_id),
    decreases payloads.len(),
{
    if payloads.len() > 0 && log[at].row_count() is Ok {
        let total = crate::progress::sum_spec(enqueued, log[at].row_count()->Ok_0);
        lemma_enqueue_all_is_scoped(tenant_id, payloads.skip(1), log, at + 1, total->Ok_0);
    }
}

proof fn lemma_expire_all_is_scoped(
    tenant_id: Uuid,
    epochs: Seq<ExpiredEpoch>,
    log: Seq<Reply>,
    at: int,
    enqueued: u64,
)
    ensures
        expire_all(tenant_id, epochs, log, at, enqueued) matches ProgressView::Ask(command)
            ==> crate::step::binds_tenant(command, tenant_id),
    decreases epochs.len(),
{
    if epochs.len() > 0 {
        let payloads = log[at].all_rows::<ExpiredPayload>()->Ok_0;
        lemma_enqueue_all_is_scoped(tenant_id, payloads, log, at + 2, enqueued);
        match expire_round(tenant_id, epochs[0], log, at, enqueued) {
            ProgressView::At(at, more) => {
                lemma_expire_all_is_scoped(tenant_id, epochs.skip(1), log, at, more);
            },
            _ => {},
        }
    }
}

proof fn lemma_release_all_is_scoped(
    tenant_id: Uuid,
    objects: Seq<SupersededObject>,
    log: Seq<Reply>,
    at: int,
    enqueued: u64,
)
    ensures
        release_all(tenant_id, objects, log, at, enqueued) matches ProgressView::Ask(command)
            ==> crate::step::binds_tenant(command, tenant_id),
    decreases objects.len(),
{
    if objects.len() > 0 {
        match release_round(tenant_id, objects[0], log, at, enqueued) {
            ProgressView::At(at, more) => {
                lemma_release_all_is_scoped(tenant_id, objects.skip(1), log, at, more);
            },
            _ => {},
        }
    }
}

/// Every statement of a sweep is about its tenant.
pub proof fn sweeps_are_scoped(tenant_id: Uuid, limit: i64, log: Seq<Reply>)
    ensures
        sweep(tenant_id, limit, log) matches ProgressView::Ask(command)
            ==> crate::step::binds_tenant(command, tenant_id),
{
    let candidates = log[0].all_rows::<Uuid>()->Ok_0;
    lemma_abandon_all_is_scoped(tenant_id, candidates, log, 1, 0);
    let at = abandon_all(tenant_id, candidates, log, 1, 0)->At_0;
    let epochs = log[at + 2].all_rows::<ExpiredEpoch>()->Ok_0;
    lemma_expire_all_is_scoped(tenant_id, epochs, log, at + 3, 0);
    let expired = expire_all(tenant_id, epochs, log, at + 3, 0);
    let objects = log[expired->At_0].all_rows::<SupersededObject>()->Ok_0;
    lemma_release_all_is_scoped(tenant_id, objects, log, expired->At_0 + 1, expired->At_1);
}

/// A sweep queues the deletion of an object's bytes only after it has fenced the epochs that
/// expire: the statement that does so was asked for, and answered, before.
pub proof fn epochs_are_fenced_before_deletions_are_queued<'a>(
    tenant_id: Uuid,
    limit: i64,
    log: Seq<Reply>,
    at: int,
    abandoned: u64,
    reason: &'static str,
    payload_id: Uuid,
)
    requires
        0 <= at <= log.len(),
        retire(tenant_id, limit, log, at, abandoned) == ProgressView::<
            'a,
            CollaborationRetentionReport,
        >::Ask(deletion_job(tenant_id, reason, payload_id)),
    ensures
        at + 2 < log.len(),
        retire(tenant_id, limit, log.take(at + 2), at, abandoned) == ProgressView::<
            'a,
            CollaborationRetentionReport,
        >::Ask(
            CommandView::all(
                sql::RETENTION_SWEEP_UPDATE_EPOCHS_2,
                seq![Param::Id(tenant_id), Param::I64(limit)],
            ),
        ),
{
    let job: CommandView<'a> = deletion_job(tenant_id, reason, payload_id);
    assert(job->params.len() == 5);
    if at + 2 < log.len() {
        assert(log.take(at + 2)[at + 1] == log[at + 1]);
    }
}

impl Database {
    /// What [`Database::collaboration_retention_sweep`] does next. A limit outside 1 to 1000 is
    /// refused before anything is asked.
    pub open spec fn collaboration_retention_sweep_step<'a>(
        tenant_id: Uuid,
        limit: i64,
        log: Seq<Reply>,
    ) -> StepView<'a, CollaborationRetentionReport> {
        if 1 <= limit <= 1_000 {
            sweep(tenant_id, limit, log).next_step()
        } else {
            StepView::Fail(DatabaseError::InvalidPersistedValue)
        }
    }

    /// Abandons objects that no manifest will ever refer to, then, in one transaction, marks
    /// epochs whose unsaved work is about to expire, expires those whose time has come, and
    /// releases superseded objects. No bytes return to a quota here: that waits for the confirmed
    /// physical deletion.
    pub fn collaboration_retention_sweep<'a>(
        tenant_id: Uuid,
        limit: i64,
        log: &'a [Reply],
    ) -> (step: Step<'a, CollaborationRetentionReport>)
        ensures
            step@ == Self::collaboration_retention_sweep_step(tenant_id, limit, log@),
    {
        if limit < 1 || limit > 1_000 {
            return Step::Fail(DatabaseError::InvalidPersistedValue);
        }
        sweep_progress(tenant_id, limit, log).step()
    }
}

} // verus!
