//! Background jobs and the outbox.

use std::sync::Arc;

use vstd::prelude::*;

use crate::database::Database;
use crate::error::DatabaseError;
use crate::error::Fault;
use crate::id::Uuid;
use crate::json::Json;
use crate::row::FromRow;
use crate::row::Reply;
use crate::row::Row;
use crate::row::exactly_one;
use crate::row::many;
use crate::row::optional;
use crate::row::single;
use crate::sql::catalog as sql;
use crate::step::Command;
use crate::step::CommandView;
use crate::step::Param;
use crate::step::Step;
use crate::step::StepView;
use crate::step::ask_all;
use crate::step::ask_execute;
use crate::step::ask_one;
use crate::step::ask_optional;
use crate::step::stop;
use crate::step::stop_list;
use crate::text::text_eq;

verus! {

/// How often a job is attempted.
pub const MAX_JOB_ATTEMPTS: i32 = 8;

/// A job that a worker holds.
#[derive(Debug)]
pub struct JobRecord {
    pub tenant_id: Uuid,
    pub id: Uuid,
    pub kind: String,
    pub payload: Arc<Json>,
    pub attempt: i32,
    pub fencing_token: i64,
}

/// A job that can be claimed.
#[derive(Debug)]
pub struct WaitingJob {
    pub id: Uuid,
    pub state: String,
    pub attempt_count: i32,
}

impl WaitingJob {
    /// What a row holds, read by its column names.
    #[verifier::opaque]
    pub open spec fn of_row(row: Row) -> Result<WaitingJob, Fault> {
        if row.column::<Uuid>("id"@) is Some
            && row.column::<String>("state"@) is Some
            && row.column::<i32>("attempt_count"@) is Some {
            Ok(
                WaitingJob {
                    id: row.column::<Uuid>("id"@)->0,
                    state: row.column::<String>("state"@)->0,
                    attempt_count: row.column::<i32>("attempt_count"@)->0,
                },
            )
        } else {
            Err(Fault::Malformed)
        }
    }
}

impl FromRow for WaitingJob {
    open spec fn row_spec(row: Row) -> Result<WaitingJob, Fault> {
        WaitingJob::of_row(row)
    }

    fn from_row(row: &Row) -> (r: Result<WaitingJob, Fault>) {
        proof {
            reveal(WaitingJob::of_row);
        }
        let id: Uuid = match row.get("id") {
            Some(v) => v,
            None => return Err(Fault::Malformed),
        };
        let state: String = match row.get("state") {
            Some(v) => v,
            None => return Err(Fault::Malformed),
        };
        let attempt_count: i32 = match row.get("attempt_count") {
            Some(v) => v,
            None => return Err(Fault::Malformed),
        };
        Ok(WaitingJob { id, state, attempt_count })
    }
}

/// What a claim makes of a job.
#[derive(Debug)]
pub struct ClaimedJob {
    pub kind: String,
    pub payload: Arc<Json>,
    pub attempt_count: i32,
    pub fencing_token: i64,
}

impl ClaimedJob {
    /// What a row holds, read by its column names.
    #[verifier::opaque]
    pub open spec fn of_row(row: Row) -> Result<ClaimedJob, Fault> {
        if row.column::<String>("kind"@) is Some
            && row.column::<Arc<Json>>("payload"@) is Some
            && row.column::<i32>("attempt_count"@) is Some
            && row.column::<i64>("fencing_token"@) is Some {
            Ok(
                ClaimedJob {
                    kind: row.column::<String>("kind"@)->0,
                    payload: row.column::<Arc<Json>>("payload"@)->0,
                    attempt_count: row.column::<i32>("attempt_count"@)->0,
                    fencing_token: row.column::<i64>("fencing_token"@)->0,
                },
            )
        } else {
            Err(Fault::Malformed)
        }
    }
}

impl FromRow for ClaimedJob {
    open spec fn row_spec(row: Row) -> Result<ClaimedJob, Fault> {
        ClaimedJob::of_row(row)
    }

    fn from_row(row: &Row) -> (r: Result<ClaimedJob, Fault>) {
        proof {
            reveal(ClaimedJob::of_row);
        }
        let kind: String = match row.get("kind") {
            Some(v) => v,
            None => return Err(Fault::Malformed),
        };
        let payload: Arc<Json> = match row.get("payload") {
            Some(v) => v,
            None => return Err(Fault::Malformed),
        };
        let attempt_count: i32 = match row.get("attempt_count") {
            Some(v) => v,
            None => return Err(Fault::Malformed),
        };
        let fencing_token: i64 = match row.get("fencing_token") {
            Some(v) => v,
            None => return Err(Fault::Malformed),
        };
        Ok(ClaimedJob { kind, payload, attempt_count, fencing_token })
    }
}

/// A power of two.
pub open spec fn doubled(times: nat) -> int
    decreases times,
{
    if times == 0 {
        1
    } else {
        2 * doubled((times - 1) as nat)
    }
}

/// How many seconds a job waits after its failed attempt: they double with each attempt, up to
/// the last. An attempt number below zero waits as long as the last.
pub open spec fn retry_delay_spec(attempt: i32) -> int {
    doubled(
        if 0 <= attempt < MAX_JOB_ATTEMPTS {
            attempt as nat
        } else {
            MAX_JOB_ATTEMPTS as nat
        },
    )
}

proof fn lemma_doubled_bound(times: nat)
    requires
        times <= 8,
    ensures
        1 <= doubled(times) <= 256,
{
    reveal_with_fuel(doubled, 10);
}

/// A failed job waits at least a second and at most 256, and no less after a later attempt.
pub proof fn retry_delays_grow(earlier: i32, later: i32)
    requires
        0 <= earlier <= later,
    ensures
        1 <= retry_delay_spec(earlier) <= retry_delay_spec(later) <= 256,
{
    lemma_doubled_bound(
        if earlier < 8 {
            earlier as nat
        } else {
            8
        },
    );
    reveal_with_fuel(doubled, 10);
}

/// How many seconds a job waits after its failed attempt.
pub fn retry_delay(attempt: i32) -> (seconds: i64)
    ensures
        seconds == retry_delay_spec(attempt),
{
    let times: i32 = if 0 <= attempt && attempt < MAX_JOB_ATTEMPTS {
        attempt
    } else {
        MAX_JOB_ATTEMPTS
    };
    let mut seconds: i64 = 1;
    let mut at: i32 = 0;
    while at < times
        invariant
            0 <= at <= times <= 8,
            seconds == doubled(at as nat),
        decreases times - at,
    {
        proof {
            lemma_doubled_bound(at as nat);
        }
        seconds = seconds * 2;
        at = at + 1;
    }
    seconds
}

/// The state of a job after a failed attempt: it waits for another one where the failure may
/// pass and attempts are left.
pub open spec fn failed_state_spec(retryable: bool, attempt: i32) -> &'static str {
    if retryable && attempt < MAX_JOB_ATTEMPTS {
        "retry_wait"
    } else {
        "terminal"
    }
}

/// The state of a job after a failed attempt.
pub fn failed_state(retryable: bool, attempt: i32) -> (state: &'static str)
    ensures
        state == failed_state_spec(retryable, attempt),
{
    if retryable && attempt < MAX_JOB_ATTEMPTS {
        "retry_wait"
    } else {
        "terminal"
    }
}

impl FromRow for (Uuid, Uuid, String, Arc<Vec<u8>>) {
    open spec fn row_spec(row: Row) -> Result<(Uuid, Uuid, String, Arc<Vec<u8>>), Fault> {
        match (
            row.column::<Uuid>("tenant_id"@),
            row.column::<Uuid>("id"@),
            row.column::<String>("topic"@),
            row.column::<Arc<Vec<u8>>>("payload"@),
        ) {
            (Some(tenant_id), Some(id), Some(topic), Some(payload)) => Ok(
                (tenant_id, id, topic, payload),
            ),
            _ => Err(Fault::Malformed),
        }
    }

    fn from_row(row: &Row) -> (r: Result<(Uuid, Uuid, String, Arc<Vec<u8>>), Fault>) {
        match (
            row.get::<Uuid>("tenant_id"),
            row.get::<Uuid>("id"),
            row.get::<String>("topic"),
            row.get::<Arc<Vec<u8>>>("payload"),
        ) {
            (Some(tenant_id), Some(id), Some(topic), Some(payload)) => Ok(
                (tenant_id, id, topic, payload),
            ),
            _ => Err(Fault::Malformed),
        }
    }
}

impl Database {

    /// What stops `complete_job`, in order.
    pub open spec fn complete_job_fault(log: Seq<Reply>) -> Option<Fault> {
        if log.len() > 1 && log[1].one_affected(DatabaseError::StaleGeneration) is Err {
            Fault::of(log[1].one_affected(DatabaseError::StaleGeneration))
        } else {
            None
        }
    }

    /// The commands of `complete_job`, in order.
    pub open spec fn complete_job_script<'a>(
        job: &'a JobRecord, outcome: &'a str, log: Seq<Reply>,
    ) -> Seq<CommandView<'a>> {
        seq![
            CommandView::Begin,
            CommandView::execute(
                sql::COMPLETE_JOB_UPDATE_JOBS,
                seq![Param::Id(job.tenant_id), Param::Id(job.id), Param::I64(job.fencing_token)],
            ),
            CommandView::execute(
                sql::COMPLETE_JOB_UPDATE_JOB_ATTEMPTS,
                seq![
                    Param::Id(job.tenant_id), Param::Id(job.id), Param::I32(job.attempt),
                    Param::Text(outcome),
                ],
            ),
            CommandView::Commit,
        ]
    }

    /// Records a job as done, while its worker still holds it.
    pub fn complete_job<'a>(
        job: &'a JobRecord, outcome: &'a str, log: &'a [Reply],
    ) -> (step: Step<'a, ()>)
        ensures
            step@ == StepView::proceed(
                Self::complete_job_fault(log@),
                Self::complete_job_script(job, outcome, log@),
                (),
                log@,
            ),
    {
        if log.len() == 0 {
            return Step::Ask(Command::Begin);
        }
        if log.len() <= 1 {
            return ask_execute(
                sql::COMPLETE_JOB_UPDATE_JOBS,
                vec![Param::Id(job.tenant_id), Param::Id(job.id), Param::I64(job.fencing_token)],
            );
        }
        if let Err(fault) = exactly_one(&log[1], DatabaseError::StaleGeneration) {
            return stop(fault);
        }
        if log.len() <= 2 {
            return ask_execute(
                sql::COMPLETE_JOB_UPDATE_JOB_ATTEMPTS,
                vec![
                    Param::Id(job.tenant_id), Param::Id(job.id), Param::I32(job.attempt),
                    Param::Text(outcome),
                ],
            );
        }
        if log.len() <= 3 {
            return Step::Ask(Command::Commit);
        }
        Step::Done(())
    }

    /// `complete_job` runs in one transaction: it is done once its commit is acknowledged, and when
    /// it fails, nothing was committed.
    pub proof fn complete_job_is_atomic<'a>(job: &'a JobRecord, outcome: &'a str, log: Seq<Reply>)
        ensures
            crate::step::is_atomic(Self::complete_job_script(job, outcome, log), 0),
            crate::step::commit_acknowledged(
                Self::complete_job_fault(log.drop_last()),
                Self::complete_job_script(job, outcome, log.drop_last()),
                log,
            ) ==> {
                &&& Self::complete_job_fault(log) is None
                &&& log.len() == Self::complete_job_script(job, outcome, log).len()
            },
    {
    }

    /// Every statement of `complete_job` is about its tenant.
    pub proof fn complete_job_is_scoped<'a>(job: &'a JobRecord, outcome: &'a str, log: Seq<Reply>)
        ensures
            crate::step::is_scoped(Self::complete_job_script(job, outcome, log), job.tenant_id),
    {
    }

    /// What stops `fail_job`, in order.
    pub open spec fn fail_job_fault(log: Seq<Reply>) -> Option<Fault> {
        if log.len() > 1 && log[1].one_affected(DatabaseError::StaleGeneration) is Err {
            Fault::of(log[1].one_affected(DatabaseError::StaleGeneration))
        } else {
            None
        }
    }

    /// The commands of `fail_job`, in order.
    pub open spec fn fail_job_script<'a>(
        job: &'a JobRecord, error_code: &'a str, retryable: bool, log: Seq<Reply>,
    ) -> Seq<CommandView<'a>> {
        let state = failed_state_spec(retryable, job.attempt);
        let seconds = retry_delay_spec(job.attempt) as i64;
        seq![
            CommandView::Begin,
            CommandView::execute(
                sql::FAIL_JOB_UPDATE_JOBS,
                seq![
                    Param::Id(job.tenant_id), Param::Id(job.id), Param::I64(job.fencing_token),
                    Param::Text(state), Param::Text(error_code), Param::I64(seconds),
                ],
            ),
            CommandView::execute(
                sql::FAIL_JOB_UPDATE_JOB_ATTEMPTS,
                seq![
                    Param::Id(job.tenant_id), Param::Id(job.id), Param::I32(job.attempt),
                    Param::Text(error_code),
                ],
            ),
            CommandView::Commit,
        ]
    }

    /// Records a failed attempt, while its worker still holds the job: the job waits and is tried
    /// again, or it is over.
    pub fn fail_job<'a>(
        job: &'a JobRecord, error_code: &'a str, retryable: bool, log: &'a [Reply],
    ) -> (step: Step<'a, ()>)
        ensures
            step@ == StepView::proceed(
                Self::fail_job_fault(log@),
                Self::fail_job_script(job, error_code, retryable, log@),
                (),
                log@,
            ),
    {
        let state: &'static str = failed_state(retryable, job.attempt);
        let seconds: i64 = retry_delay(job.attempt);
        if log.len() == 0 {
            return Step::Ask(Command::Begin);
        }
        if log.len() <= 1 {
            return ask_execute(
                sql::FAIL_JOB_UPDATE_JOBS,
                vec![
                    Param::Id(job.tenant_id), Param::Id(job.id), Param::I64(job.fencing_token),
                    Param::Text(state), Param::Text(error_code), Param::I64(seconds),
                ],
            );
        }
        if let Err(fault) = exactly_one(&log[1], DatabaseError::StaleGeneration) {
            return stop(fault);
        }
        if log.len() <= 2 {
            return ask_execute(
                sql::FAIL_JOB_UPDATE_JOB_ATTEMPTS,
                vec![
                    Param::Id(job.tenant_id), Param::Id(job.id), Param::I32(job.attempt),
                    Param::Text(error_code),
                ],
            );
        }
        if log.len() <= 3 {
            return Step::Ask(Command::Commit);
        }
        Step::Done(())
    }

    /// `fail_job` runs in one transaction: it is done once its commit is acknowledged, and when it
    /// fails, nothing was committed.
    pub proof fn fail_job_is_atomic<'a>(
        job: &'a JobRecord, error_code: &'a str, retryable: bool, log: Seq<Reply>,
    )
        ensures
            crate::step::is_atomic(Self::fail_job_script(job, error_code, retryable, log), 0),
            crate::step::commit_acknowledged(
                Self::fail_job_fault(log.drop_last()),
                Self::fail_job_script(job, error_code, retryable, log.drop_last()),
                log,
            ) ==> {
                &&& Self::fail_job_fault(log) is None
                &&& log.len() == Self::fail_job_script(job, error_code, retryable, log).len()
            },
    {
    }

    /// Every statement of `fail_job` is about its tenant.
    pub proof fn fail_job_is_scoped<'a>(
        job: &'a JobRecord, error_code: &'a str, retryable: bool, log: Seq<Reply>,
    )
        ensures
            crate::step::is_scoped(
                Self::fail_job_script(job, error_code, retryable, log),
                job.tenant_id,
            ),
    {
    }

    /// What stops `pending_outbox`, in order.
    pub open spec fn pending_outbox_fault(log: Seq<Reply>) -> Option<Fault> {
        if log.len() > 0 && log[0].all_rows::<(Uuid, Uuid, String, Arc<Vec<u8>>)>() is Err {
            Fault::of(log[0].all_rows::<(Uuid, Uuid, String, Arc<Vec<u8>>)>())
        } else {
            None
        }
    }

    /// The commands of `pending_outbox`, in order.
    pub open spec fn pending_outbox_script<'a>(
        tenant_id: Uuid, limit: i64, log: Seq<Reply>,
    ) -> Seq<CommandView<'a>> {
        seq![CommandView::all(sql::PENDING_OUTBOX, seq![Param::Id(tenant_id), Param::I64(limit)])]
    }

    /// What `pending_outbox` returns.
    pub open spec fn pending_outbox_output(log: Seq<Reply>) -> Seq<(
        Uuid, Uuid, String, Arc<Vec<u8>>,
    )> {
        let events = log[0].all_rows::<(Uuid, Uuid, String, Arc<Vec<u8>>)>()->Ok_0;
        events
    }

    /// Events that wait to be published: tenant, identifier, topic and encoded envelope.
    pub fn pending_outbox<'a>(
        tenant_id: Uuid, limit: i64, log: &'a [Reply],
    ) -> (step: Step<'a, Vec<(Uuid, Uuid, String, Arc<Vec<u8>>)>>)
        ensures
            step.list() == StepView::proceed(
                Self::pending_outbox_fault(log@),
                Self::pending_outbox_script(tenant_id, limit, log@),
                Self::pending_outbox_output(log@),
                log@,
            ),
    {
        if log.len() == 0 {
            return ask_all(sql::PENDING_OUTBOX, vec![Param::Id(tenant_id), Param::I64(limit)]);
        }
        let events: Vec<(
            Uuid, Uuid, String, Arc<Vec<u8>>,
        )> = match many::<(Uuid, Uuid, String, Arc<Vec<u8>>)>(&log[0]) {
            Ok(value) => value,
            Err(fault) => return stop_list(fault),
        };
        Step::Done(events)
    }

    /// Every statement of `pending_outbox` is about its tenant.
    pub proof fn pending_outbox_is_scoped(tenant_id: Uuid, limit: i64, log: Seq<Reply>)
        ensures
            crate::step::is_scoped(Self::pending_outbox_script(tenant_id, limit, log), tenant_id),
    {
    }

    /// The commands of `mark_outbox_published`, in order.
    pub open spec fn mark_outbox_published_script<'a>(
        tenant_id: Uuid, event_id: Uuid, log: Seq<Reply>,
    ) -> Seq<CommandView<'a>> {
        seq![
            CommandView::execute(
                sql::MARK_OUTBOX_PUBLISHED,
                seq![Param::Id(tenant_id), Param::Id(event_id)],
            ),
        ]
    }

    /// Records an event as published.
    pub fn mark_outbox_published<'a>(
        tenant_id: Uuid, event_id: Uuid, log: &'a [Reply],
    ) -> (step: Step<'a, ()>)
        ensures
            step@ == StepView::proceed(
                None,
                Self::mark_outbox_published_script(tenant_id, event_id, log@),
                (),
                log@,
            ),
    {
        if log.len() == 0 {
            return ask_execute(
                sql::MARK_OUTBOX_PUBLISHED,
                vec![Param::Id(tenant_id), Param::Id(event_id)],
            );
        }
        Step::Done(())
    }

    /// Every statement of `mark_outbox_published` is about its tenant.
    pub proof fn mark_outbox_published_is_scoped(tenant_id: Uuid, event_id: Uuid, log: Seq<Reply>)
        ensures
            crate::step::is_scoped(
                Self::mark_outbox_published_script(tenant_id, event_id, log),
                tenant_id,
            ),
    {
    }

    /// The commands of `mark_outbox_retry`, in order.
    pub open spec fn mark_outbox_retry_script<'a>(
        tenant_id: Uuid, event_id: Uuid, log: Seq<Reply>,
    ) -> Seq<CommandView<'a>> {
        seq![
            CommandView::execute(
                sql::MARK_OUTBOX_RETRY,
                seq![Param::Id(tenant_id), Param::Id(event_id)],
            ),
        ]
    }

    /// Puts an event off.
    pub fn mark_outbox_retry<'a>(
        tenant_id: Uuid, event_id: Uuid, log: &'a [Reply],
    ) -> (step: Step<'a, ()>)
        ensures
            step@ == StepView::proceed(
                None,
                Self::mark_outbox_retry_script(tenant_id, event_id, log@),
                (),
                log@,
            ),
    {
        if log.len() == 0 {
            return ask_execute(
                sql::MARK_OUTBOX_RETRY,
                vec![Param::Id(tenant_id), Param::Id(event_id)],
            );
        }
        Step::Done(())
    }

    /// Every statement of `mark_outbox_retry` is about its tenant.
    pub proof fn mark_outbox_retry_is_scoped(tenant_id: Uuid, event_id: Uuid, log: Seq<Reply>)
        ensures
            crate::step::is_scoped(
                Self::mark_outbox_retry_script(tenant_id, event_id, log),
                tenant_id,
            ),
    {
    }

    /// What stops `claim_job`, in order.
    pub open spec fn claim_job_fault(log: Seq<Reply>) -> Option<Fault> {
        let waiting = log[3].optional_row::<WaitingJob>()->Ok_0;
        let job = waiting->0;
        let at = if job.state@ == "running"@ {
            5int
        } else {
            4
        };
        if log.len() > 3 && log[3].optional_row::<WaitingJob>() is Err {
            Fault::of(log[3].optional_row::<WaitingJob>())
        } else if log.len() > 3 && waiting is None {
            None
        } else if log.len() > at && log[at].single_row::<ClaimedJob>() is Err {
            Fault::of(log[at].single_row::<ClaimedJob>())
        } else {
            None
        }
    }

    /// The commands of `claim_job`, in order.
    pub open spec fn claim_job_script<'a>(
        tenant_id: Uuid, worker_id: Uuid, lease_seconds: i64, log: Seq<Reply>,
    ) -> Seq<CommandView<'a>> {
        let waiting = log[3].optional_row::<WaitingJob>()->Ok_0;
        let job = waiting->0;
        let at = if job.state@ == "running"@ {
            5int
        } else {
            4
        };
        let claimed = log[at].single_row::<ClaimedJob>()->Ok_0;
        seq![
            CommandView::Begin,
            CommandView::execute(sql::CLAIM_JOB_UPDATE_JOB_ATTEMPTS, seq![Param::Id(tenant_id)]),
            CommandView::execute(sql::CLAIM_JOB_UPDATE_JOBS, seq![Param::Id(tenant_id)]),
            CommandView::optional(sql::CLAIM_JOB_SELECT_JOBS, seq![Param::Id(tenant_id)]),
        ].add(
            if waiting is None {
                seq![CommandView::Commit]
            } else {
                if job.state@ == "running"@ {
                    seq![
                        CommandView::execute(
                            sql::CLAIM_JOB_UPDATE_JOB_ATTEMPTS_2,
                            seq![
                                Param::Id(tenant_id), Param::Id(job.id),
                                Param::I32(job.attempt_count),
                            ],
                        ),
                    ]
                } else {
                    Seq::empty()
                }.add(
                    seq![
                        CommandView::one(
                            sql::CLAIM_JOB_UPDATE_JOBS_2,
                            seq![
                                Param::Id(tenant_id), Param::Id(job.id), Param::Id(worker_id),
                                Param::I64(lease_seconds),
                            ],
                        ),
                        CommandView::execute(
                            sql::CLAIM_JOB_INSERT_JOB_ATTEMPTS,
                            seq![
                                Param::Id(tenant_id), Param::Id(job.id),
                                Param::I32(claimed.attempt_count),
                                Param::Id(worker_id), Param::I64(claimed.fencing_token),
                            ],
                        ),
                        CommandView::Commit,
                    ],
                )
            },
        )
    }

    /// What `claim_job` returns.
    pub open spec fn claim_job_output(tenant_id: Uuid, log: Seq<Reply>) -> Option<JobRecord> {
        let waiting = log[3].optional_row::<WaitingJob>()->Ok_0;
        let job = waiting->0;
        let at = if job.state@ == "running"@ {
            5int
        } else {
            4
        };
        let claimed = log[at].single_row::<ClaimedJob>()->Ok_0;
        if waiting is None {
            None
        } else {
            Some(
                JobRecord {
                    tenant_id,
                    id: job.id,
                    kind: claimed.kind,
                    payload: claimed.payload,
                    attempt: claimed.attempt_count,
                    fencing_token: claimed.fencing_token,
                },
            )
        }
    }

    /// Claims the next job on lease, if there is one. A job that another worker left running is
    /// claimed over its expired lease; one that has used up its attempts ends.
    pub fn claim_job<'a>(
        tenant_id: Uuid, worker_id: Uuid, lease_seconds: i64, log: &'a [Reply],
    ) -> (step: Step<'a, Option<JobRecord>>)
        ensures
            step@ == StepView::proceed(
                Self::claim_job_fault(log@),
                Self::claim_job_script(tenant_id, worker_id, lease_seconds, log@),
                Self::claim_job_output(tenant_id, log@),
                log@,
            ),
    {
        if log.len() == 0 {
            return Step::Ask(Command::Begin);
        }
        if log.len() <= 1 {
            return ask_execute(sql::CLAIM_JOB_UPDATE_JOB_ATTEMPTS, vec![Param::Id(tenant_id)]);
        }
        if log.len() <= 2 {
            return ask_execute(sql::CLAIM_JOB_UPDATE_JOBS, vec![Param::Id(tenant_id)]);
        }
        if log.len() <= 3 {
            return ask_optional(sql::CLAIM_JOB_SELECT_JOBS, vec![Param::Id(tenant_id)]);
        }
        let waiting: Option<WaitingJob> = match optional::<WaitingJob>(&log[3]) {
            Ok(value) => value,
            Err(fault) => return stop(fault),
        };
        if waiting.is_none() {
            if log.len() <= 4 {
                return Step::Ask(Command::Commit);
            }
            return Step::Done(None);
        }
        let job: WaitingJob = waiting.unwrap();
        if text_eq(job.state.as_str(), "running") {
            if log.len() <= 4 {
                return ask_execute(
                    sql::CLAIM_JOB_UPDATE_JOB_ATTEMPTS_2,
                    vec![Param::Id(tenant_id), Param::Id(job.id), Param::I32(job.attempt_count)],
                );
            }
        }
        let at: usize = if text_eq(job.state.as_str(), "running") {
            5
        } else {
            4
        };
        if log.len() <= at {
            return ask_one(
                sql::CLAIM_JOB_UPDATE_JOBS_2,
                vec![
                    Param::Id(tenant_id), Param::Id(job.id), Param::Id(worker_id),
                    Param::I64(lease_seconds),
                ],
            );
        }
        let claimed: ClaimedJob = match single::<ClaimedJob>(&log[at]) {
            Ok(value) => value,
            Err(fault) => return stop(fault),
        };
        if log.len() - at <= 1 {
            return ask_execute(
                sql::CLAIM_JOB_INSERT_JOB_ATTEMPTS,
                vec![
                    Param::Id(tenant_id), Param::Id(job.id), Param::I32(claimed.attempt_count),
                    Param::Id(worker_id), Param::I64(claimed.fencing_token),
                ],
            );
        }
        if log.len() - at <= 2 {
            return Step::Ask(Command::Commit);
        }
        Step::Done(
            Some(
                JobRecord {
                    tenant_id,
                    id: job.id,
                    kind: claimed.kind,
                    payload: claimed.payload,
                    attempt: claimed.attempt_count,
                    fencing_token: claimed.fencing_token,
                },
            ),
        )
    }

    /// `claim_job` runs in one transaction: it is done once its commit is acknowledged, and when it
    /// fails, nothing was committed.
    pub proof fn claim_job_is_atomic(
        tenant_id: Uuid, worker_id: Uuid, lease_seconds: i64, log: Seq<Reply>,
    )
        ensures
            crate::step::is_atomic(
                Self::claim_job_script(tenant_id, worker_id, lease_seconds, log),
                0,
            ),
            crate::step::commit_acknowledged(
                Self::claim_job_fault(log.drop_last()),
                Self::claim_job_script(tenant_id, worker_id, lease_seconds, log.drop_last()),
                log,
            ) ==> {
                &&& Self::claim_job_fault(log) is None
                &&& log.len() == Self::claim_job_script(
                    tenant_id, worker_id, lease_seconds, log,
                ).len()
            },
    {
    }

    /// Every statement of `claim_job` is about its tenant.
    pub proof fn claim_job_is_scoped(
        tenant_id: Uuid, worker_id: Uuid, lease_seconds: i64, log: Seq<Reply>,
    )
        ensures
            crate::step::is_scoped(
                Self::claim_job_script(tenant_id, worker_id, lease_seconds, log),
                tenant_id,
            ),
    {
    }

}

} // verus!
