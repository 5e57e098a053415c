//! Retention of document revisions: what an ended session left behind is given up, and what has
//! outlived its recovery window is released.

use vstd::prelude::*;

use crate::database::Database;
use crate::error::DatabaseError;
use crate::error::Fault;
use crate::id::Uuid;
use crate::progress::Progress;
use crate::progress::ProgressView;
use crate::progress::all;
use crate::progress::execute;
use crate::progress::pass_any;
use crate::progress::pass_count;
use crate::progress::pass_one;
use crate::progress::pass_rows;
use crate::progress::sum;
use crate::row::FromRow;
use crate::row::Reply;
use crate::row::Row;
use crate::sql::document as sql;
use crate::step::Command;
use crate::step::CommandView;
use crate::step::Detail;
use crate::step::Param;
use crate::step::Step;
use crate::step::StepView;

verus! {

/// What a sweep did.
#[derive(Clone, Copy, Debug, PartialEq, Eq, Structural)]
pub struct DocumentRevisionRetentionReport {
    pub received_abandoned: u64,
    pub staging_abandoned: u64,
    pub terminal_revisions_released: u64,
    pub payload_deletions_enqueued: u64,
    pub launch_grants_purged: u64,
    pub session_events_purged: u64,
    pub operation_receipts_purged: u64,
}

impl Default for DocumentRevisionRetentionReport {
    fn default() -> (r: DocumentRevisionRetentionReport)
        ensures
            r == Self::nothing(),
    {
        DocumentRevisionRetentionReport {
            received_abandoned: 0,
            staging_abandoned: 0,
            terminal_revisions_released: 0,
            payload_deletions_enqueued: 0,
            launch_grants_purged: 0,
            session_events_purged: 0,
            operation_receipts_purged: 0,
        }
    }
}

impl DocumentRevisionRetentionReport {
    /// The report of a sweep that found nothing.
    pub open spec fn nothing() -> DocumentRevisionRetentionReport {
        DocumentRevisionRetentionReport {
            received_abandoned: 0,
            staging_abandoned: 0,
            terminal_revisions_released: 0,
            payload_deletions_enqueued: 0,
            launch_grants_purged: 0,
            session_events_purged: 0,
            operation_receipts_purged: 0,
        }
    }

    /// The report with one more revision given up before it had an output.
    pub open spec fn with_received(self) -> Result<DocumentRevisionRetentionReport, Fault> {
        match crate::progress::sum_spec(self.received_abandoned, 1) {
            Ok(received_abandoned) => Ok(
                DocumentRevisionRetentionReport { received_abandoned, ..self },
            ),
            Err(fault) => Err(fault),
        }
    }

    fn add_received(self) -> (r: Result<DocumentRevisionRetentionReport, Fault>)
        ensures
            r == self.with_received(),
    {
        match sum(self.received_abandoned, 1) {
            Ok(received_abandoned) => Ok(
                DocumentRevisionRetentionReport { received_abandoned, ..self },
            ),
            Err(fault) => Err(fault),
        }
    }

    /// The report with one more staged revision given up, and `enqueued` more deletions.
    pub open spec fn with_staging(self, enqueued: u64) -> Result<
        DocumentRevisionRetentionReport,
        Fault,
    > {
        match (
            crate::progress::sum_spec(self.staging_abandoned, 1),
            crate::progress::sum_spec(self.payload_deletions_enqueued, enqueued),
        ) {
            (Ok(staging_abandoned), Ok(payload_deletions_enqueued)) => Ok(
                DocumentRevisionRetentionReport {
                    staging_abandoned,
                    payload_deletions_enqueued,
                    ..self
                },
            ),
            _ => Err(Fault::Malformed),
        }
    }

    fn add_staging(self, enqueued: u64) -> (r: Result<DocumentRevisionRetentionReport, Fault>)
        ensures
            r == self.with_staging(enqueued),
    {
        match (sum(self.staging_abandoned, 1), sum(self.payload_deletions_enqueued, enqueued)) {
            (Ok(staging_abandoned), Ok(payload_deletions_enqueued)) => Ok(
                DocumentRevisionRetentionReport {
                    staging_abandoned,
                    payload_deletions_enqueued,
                    ..self
                },
            ),
            _ => Err(Fault::Malformed),
        }
    }

    /// The report with one more ended revision released, and `enqueued` more deletions.
    pub open spec fn with_released(self, enqueued: u64) -> Result<
        DocumentRevisionRetentionReport,
        Fault,
    > {
        match (
            crate::progress::sum_spec(self.terminal_revisions_released, 1),
            crate::progress::sum_spec(self.payload_deletions_enqueued, enqueued),
        ) {
            (Ok(terminal_revisions_released), Ok(payload_deletions_enqueued)) => Ok(
                DocumentRevisionRetentionReport {
                    terminal_revisions_released,
                    payload_deletions_enqueued,
                    ..self
                },
            ),
            _ => Err(Fault::Malformed),
        }
    }

    fn add_released(self, enqueued: u64) -> (r: Result<DocumentRevisionRetentionReport, Fault>)
        ensures
            r == self.with_released(enqueued),
    {
        match (
            sum(self.terminal_revisions_released, 1),
            sum(self.payload_deletions_enqueued, enqueued),
        ) {
            (Ok(terminal_revisions_released), Ok(payload_deletions_enqueued)) => Ok(
                DocumentRevisionRetentionReport {
                    terminal_revisions_released,
                    payload_deletions_enqueued,
                    ..self
                },
            ),
            _ => Err(Fault::Malformed),
        }
    }
}

/// A revision that its ended session never finished.
#[derive(Clone, Copy, Debug, PartialEq, Eq, Structural)]
pub struct UnfinishedRevision {
    pub id: Uuid,
    pub payload_id: Option<Uuid>,
    pub reserved_bytes: i64,
    pub drive_id: Uuid,
}

impl UnfinishedRevision {
    /// What a row holds, read by its column names.
    #[verifier::opaque]
    pub open spec fn of_row(row: Row) -> Result<UnfinishedRevision, Fault> {
        if row.column::<Uuid>("id"@) is Some
            && row.column::<Option<Uuid>>("payload_id"@) is Some
            && row.column::<i64>("reserved_bytes"@) is Some
            && row.column::<Uuid>("drive_id"@) is Some {
            Ok(
                UnfinishedRevision {
                    id: row.column::<Uuid>("id"@)->0,
                    payload_id: row.column::<Option<Uuid>>("payload_id"@)->0,
                    reserved_bytes: row.column::<i64>("reserved_bytes"@)->0,
                    drive_id: row.column::<Uuid>("drive_id"@)->0,
                },
            )
        } else {
            Err(Fault::Malformed)
        }
    }
}

impl FromRow for UnfinishedRevision {
    open spec fn row_spec(row: Row) -> Result<UnfinishedRevision, Fault> {
        UnfinishedRevision::of_row(row)
    }

    fn from_row(row: &Row) -> (r: Result<UnfinishedRevision, Fault>) {
        proof {
            reveal(UnfinishedRevision::of_row);
        }
        let id: Uuid = match row.get("id") {
            Some(v) => v,
            None => return Err(Fault::Malformed),
        };
        let payload_id: Option<Uuid> = match row.get("payload_id") {
            Some(v) => v,
            None => return Err(Fault::Malformed),
        };
        let reserved_bytes: i64 = match row.get("reserved_bytes") {
            Some(v) => v,
            None => return Err(Fault::Malformed),
        };
        let drive_id: Uuid = match row.get("drive_id") {
            Some(v) => v,
            None => return Err(Fault::Malformed),
        };
        Ok(UnfinishedRevision { id, payload_id, reserved_bytes, drive_id })
    }
}

/// An ended revision whose recovery window has closed.
#[derive(Clone, Copy, Debug, PartialEq, Eq, Structural)]
pub struct OutlivedRevision {
    pub id: Uuid,
    pub payload_id: Uuid,
    pub reserved_bytes: i64,
    pub drive_id: Uuid,
}

impl OutlivedRevision {
    /// What a row holds, read by its column names.
    #[verifier::opaque]
    pub open spec fn of_row(row: Row) -> Result<OutlivedRevision, Fault> {
        if row.column::<Uuid>("id"@) is Some
            && row.column::<Uuid>("payload_id"@) is Some
            && row.column::<i64>("reserved_bytes"@) is Some
            && row.column::<Uuid>("drive_id"@) is Some {
            Ok(
                OutlivedRevision {
                    id: row.column::<Uuid>("id"@)->0,
                    payload_id: row.column::<Uuid>("payload_id"@)->0,
                    reserved_bytes: row.column::<i64>("reserved_bytes"@)->0,
                    drive_id: row.column::<Uuid>("drive_id"@)->0,
                },
            )
        } else {
            Err(Fault::Malformed)
        }
    }
}

impl FromRow for OutlivedRevision {
    open spec fn row_spec(row: Row) -> Result<OutlivedRevision, Fault> {
        OutlivedRevision::of_row(row)
    }

    fn from_row(row: &Row) -> (r: Result<OutlivedRevision, Fault>) {
        proof {
            reveal(OutlivedRevision::of_row);
        }
        let id: Uuid = match row.get("id") {
            Some(v) => v,
            None => return Err(Fault::Malformed),
        };
        let payload_id: Uuid = match row.get("payload_id") {
            Some(v) => v,
            None => return Err(Fault::Malformed),
        };
        let reserved_bytes: i64 = match row.get("reserved_bytes") {
            Some(v) => v,
            None => return Err(Fault::Malformed),
        };
        let drive_id: Uuid = match row.get("drive_id") {
            Some(v) => v,
            None => return Err(Fault::Malformed),
        };
        Ok(OutlivedRevision { id, payload_id, reserved_bytes, drive_id })
    }
}

/// Gives up an unfinished revision. A staged payload turns into delete intent and its
/// reservation returns to the drive before the revision fails and the deletion is queued.
pub open spec fn abandon_round<'a>(
    tenant_id: Uuid,
    revision: UnfinishedRevision,
    log: Seq<Reply>,
    at: int,
    report: DocumentRevisionRetentionReport,
) -> ProgressView<'a, DocumentRevisionRetentionReport> {
    match revision.payload_id {
        Some(payload_id) => crate::progress::after_one(
            log,
            at,
            CommandView::execute(
                sql::DOCUMENT_REVISION_RETENTION_SWEEP_UPDATE_PAYLOAD_OBJECTS,
                seq![Param::Id(tenant_id), Param::Id(payload_id)],
            ),
            DatabaseError::StaleGeneration,
        ).next(
            |at: int, _done: ()|
                crate::progress::after_one(
                    log,
                    at,
                    CommandView::execute(
                        sql::DOCUMENT_REVISION_RETENTION_SWEEP_UPDATE_DRIVES,
                        seq![
                            Param::Id(tenant_id),
                            Param::Id(revision.drive_id),
                            Param::I64(revision.reserved_bytes),
                        ],
                    ),
                    DatabaseError::StaleGeneration,
                ),
        ).next(
            |at: int, _done: ()|
                crate::progress::after_one(
                    log,
                    at,
                    CommandView::execute(
                        sql::DOCUMENT_REVISION_RETENTION_SWEEP_UPDATE_REVISIONS,
                        seq![Param::Id(tenant_id), Param::Id(revision.id)],
                    ),
                    DatabaseError::StaleGeneration,
                ),
        ).next(
            |at: int, _done: ()|
                crate::progress::after_count(
                    log,
                    at,
                    CommandView::execute(
                        sql::DOCUMENT_REVISION_RETENTION_SWEEP_INSERT_JOBS,
                        seq![
                            Param::Id(tenant_id),
                            Param::FreshId,
                            Param::Id(payload_id),
                            Param::Label("document-expire:", payload_id),
                            Param::Object1("payload_id", Detail::Id(payload_id)),
                        ],
                    ),
                ),
        ).next(|at: int, enqueued: u64| ProgressView::total(at, report.with_staging(enqueued))),
        None => crate::progress::after_one(
            log,
            at,
            CommandView::execute(
                sql::DOCUMENT_REVISION_RETENTION_SWEEP_UPDATE_REVISIONS_2,
                seq![Param::Id(tenant_id), Param::Id(revision.id)],
            ),
            DatabaseError::StaleGeneration,
        ).next(|at: int, _done: ()| ProgressView::total(at, report.with_received())),
    }
}

/// Gives up unfinished revisions one after the other.
pub open spec fn abandon_all<'a>(
    tenant_id: Uuid,
    revisions: Seq<UnfinishedRevision>,
    log: Seq<Reply>,
    at: int,
    report: DocumentRevisionRetentionReport,
) -> ProgressView<'a, DocumentRevisionRetentionReport>
    decreases revisions.len(),
{
    if revisions.len() == 0 {
        ProgressView::At(at, report)
    } else {
        match abandon_round(tenant_id, revisions[0], log, at, report) {
            ProgressView::At(at, report) => abandon_all(
                tenant_id,
                revisions.skip(1),
                log,
                at,
                report,
            ),
            other => other,
        }
    }
}

/// Releases an ended revision: its payload turns into delete intent, its reservation returns to
/// the drive, the deletion is queued, and the revision and its reconciliation are closed.
pub open spec fn release_round<'a>(
    tenant_id: Uuid,
    revision: OutlivedRevision,
    log: Seq<Reply>,
    at: int,
    report: DocumentRevisionRetentionReport,
) -> ProgressView<'a, DocumentRevisionRetentionReport> {
    crate::progress::after_one(
        log,
        at,
        CommandView::execute(
            sql::RELEASE_DOCUMENT_PAYLOAD_UPDATE_PAYLOAD_OBJECTS,
            seq![Param::Id(tenant_id), Param::Id(revision.payload_id)],
        ),
        DatabaseError::StaleGeneration,
    ).next(
        |at: int, _done: ()|
            crate::progress::after_one(
                log,
                at,
                CommandView::execute(
                    sql::DOCUMENT_REVISION_RETENTION_SWEEP_UPDATE_DRIVES,
                    seq![
                        Param::Id(tenant_id),
                        Param::Id(revision.drive_id),
                        Param::I64(revision.reserved_bytes),
                    ],
                ),
                DatabaseError::StaleGeneration,
            ),
    ).next(
        |at: int, _done: ()|
            crate::progress::after_count(
                log,
                at,
                CommandView::execute(
                    sql::DOCUMENT_REVISION_RETENTION_SWEEP_INSERT_JOBS,
                    seq![
                        Param::Id(tenant_id),
                        Param::FreshId,
                        Param::Id(revision.payload_id),
                        Param::Label("document-release:", revision.payload_id),
                        Param::Object1("payload_id", Detail::Id(revision.payload_id)),
                    ],
                ),
            ),
    ).next(
        |at: int, enqueued: u64|
            crate::progress::after_one(
                log,
                at,
                CommandView::execute(
                    sql::DOCUMENT_REVISION_RETENTION_SWEEP_UPDATE_REVISIONS_3,
                    seq![Param::Id(tenant_id), Param::Id(revision.id)],
                ),
                DatabaseError::StaleGeneration,
            ).next(
                |at: int, _done: ()|
                    crate::progress::after_any(
                        log,
                        at,
                        CommandView::execute(
                            sql::COMMIT_DOCUMENT_REVISION_UPDATE_RECONCILIATION_JOBS,
                            seq![Param::Id(tenant_id), Param::Id(revision.id)],
                        ),
                    ),
            ).next(|at: int, _done: ()| ProgressView::total(at, report.with_released(enqueued))),
    )
}

/// Releases ended revisions one after the other.
pub open spec fn release_all<'a>(
    tenant_id: Uuid,
    revisions: Seq<OutlivedRevision>,
    log: Seq<Reply>,
    at: int,
    report: DocumentRevisionRetentionReport,
) -> ProgressView<'a, DocumentRevisionRetentionReport>
    decreases revisions.len(),
{
    if revisions.len() == 0 {
        ProgressView::At(at, report)
    } else {
        match release_round(tenant_id, revisions[0], log, at, report) {
            ProgressView::At(at, report) => release_all(
                tenant_id,
                revisions.skip(1),
                log,
                at,
                report,
            ),
            other => other,
        }
    }
}

/// Deletes expired grants, events and receipts, up to the limit of each.
pub open spec fn purge<'a>(
    tenant_id: Uuid,
    limit: i64,
    log: Seq<Reply>,
    at: int,
    report: DocumentRevisionRetentionReport,
) -> ProgressView<'a, DocumentRevisionRetentionReport> {
    crate::progress::after_count(
        log,
        at,
        CommandView::execute(
            sql::BOUNDED_DOCUMENT_METADATA_DELETE_DELETE_LAUNCH_GRANTS,
            seq![Param::Id(tenant_id), Param::I64(limit)],
        ),
    ).next(
        |at: int, launch_grants_purged: u64|
            crate::progress::after_count(
                log,
                at,
                CommandView::execute(
                    sql::BOUNDED_DOCUMENT_METADATA_DELETE_DELETE_SESSION_EVENTS,
                    seq![Param::Id(tenant_id), Param::I64(limit)],
                ),
            ).next(
                |at: int, session_events_purged: u64|
                    crate::progress::after_count(
                        log,
                        at,
                        CommandView::execute(
                            sql::BOUNDED_DOCUMENT_METADATA_DELETE_DELETE_OPERATION_RECEIPTS,
                            seq![Param::Id(tenant_id), Param::I64(limit)],
                        ),
                    ).next(
                        |at: int, operation_receipts_purged: u64|
                            ProgressView::At(
                                at,
                                DocumentRevisionRetentionReport {
                                    launch_grants_purged,
                                    session_events_purged,
                                    operation_receipts_purged,
                                    ..report
                                },
                            ),
                    ),
            ),
    )
}

/// A whole sweep, in one transaction.
pub open spec fn sweep<'a>(tenant_id: Uuid, limit: i64, log: Seq<Reply>) -> ProgressView<
    'a,
    DocumentRevisionRetentionReport,
> {
    crate::progress::after_any(log, 0, CommandView::Begin).next(
        |at: int, _done: ()|
            crate::progress::after_rows::<UnfinishedRevision>(
                log,
                at,
                CommandView::all(
                    sql::DOCUMENT_REVISION_RETENTION_SWEEP_SELECT_REVISIONS,
                    seq![Param::Id(tenant_id), Param::I64(limit)],
                ),
            ),
    ).next(
        |at: int, revisions: Seq<UnfinishedRevision>|
            abandon_all(
                tenant_id,
                revisions,
                log,
                at,
                DocumentRevisionRetentionReport::nothing(),
            ),
    ).next(
        |at: int, report: DocumentRevisionRetentionReport|
            crate::progress::after_rows::<OutlivedRevision>(
                log,
                at,
                CommandView::all(
                    sql::DOCUMENT_REVISION_RETENTION_SWEEP_SELECT_REVISIONS_2,
                    seq![Param::Id(tenant_id), Param::I64(limit)],
                ),
            ).next(
                |at: int, revisions: Seq<OutlivedRevision>|
                    release_all(tenant_id, revisions, log, at, report),
            ),
    ).next(
        |at: int, report: DocumentRevisionRetentionReport| purge(tenant_id, limit, log, at, report),
    ).next(
        |at: int, report: DocumentRevisionRetentionReport|
            crate::progress::after_any(log, at, CommandView::Commit).next(
                |at: int, _done: ()| ProgressView::At(at, report),
            ),
    )
}

/// Gives up an unfinished revision.
fn abandon_one<'a>(
    tenant_id: Uuid,
    revision: UnfinishedRevision,
    log: &'a [Reply],
    at: usize,
    report: DocumentRevisionRetentionReport,
) -> (r: Progress<'a, DocumentRevisionRetentionReport>)
    ensures
        r@ == abandon_round(tenant_id, revision, log@, at as int, report),
{
    match revision.payload_id {
        Some(payload_id) => {
            let at: usize = match pass_one(
                log,
                at,
                execute(
                    sql::DOCUMENT_REVISION_RETENTION_SWEEP_UPDATE_PAYLOAD_OBJECTS,
                    vec![Param::Id(tenant_id), Param::Id(payload_id)],
                ),
                DatabaseError::StaleGeneration,
            ) {
                Progress::At(at, _) => at,
                Progress::Ask(command) => return Progress::Ask(command),
                Progress::Stop(fault) => return Progress::Stop(fault),
            };
            let at: usize = match pass_one(
                log,
                at,
                execute(
                    sql::DOCUMENT_REVISION_RETENTION_SWEEP_UPDATE_DRIVES,
                    vec![
                        Param::Id(tenant_id),
                        Param::Id(revision.drive_id),
                        Param::I64(revision.reserved_bytes),
                    ],
                ),
                DatabaseError::StaleGeneration,
            ) {
                Progress::At(at, _) => at,
                Progress::Ask(command) => return Progress::Ask(command),
                Progress::Stop(fault) => return Progress::Stop(fault),
            };
            let at: usize = match pass_one(
                log,
                at,
                execute(
                    sql::DOCUMENT_REVISION_RETENTION_SWEEP_UPDATE_REVISIONS,
                    vec![Param::Id(tenant_id), Param::Id(revision.id)],
                ),
                DatabaseError::StaleGeneration,
            ) {
                Progress::At(at, _) => at,
                Progress::Ask(command) => return Progress::Ask(command),
                Progress::Stop(fault) => return Progress::Stop(fault),
            };
            let (at, enqueued): (usize, u64) = match pass_count(
                log,
                at,
                execute(
                    sql::DOCUMENT_REVISION_RETENTION_SWEEP_INSERT_JOBS,
                    vec![
                        Param::Id(tenant_id),
                        Param::FreshId,
                        Param::Id(payload_id),
                        Param::Label("document-expire:", payload_id),
                        Param::Object1("payload_id", Detail::Id(payload_id)),
                    ],
                ),
            ) {
                Progress::At(at, enqueued) => (at, enqueued),
                Progress::Ask(command) => return Progress::Ask(command),
                Progress::Stop(fault) => return Progress::Stop(fault),
            };
            match report.add_staging(enqueued) {
                Ok(report) => Progress::At(at, report),
                Err(fault) => Progress::Stop(fault),
            }
        },
        None => {
            let at: usize = match pass_one(
                log,
                at,
                execute(
                    sql::DOCUMENT_REVISION_RETENTION_SWEEP_UPDATE_REVISIONS_2,
                    vec![Param::Id(tenant_id), Param::Id(revision.id)],
                ),
                DatabaseError::StaleGeneration,
            ) {
                Progress::At(at, _) => at,
                Progress::Ask(command) => return Progress::Ask(command),
                Progress::Stop(fault) => return Progress::Stop(fault),
            };
            match report.add_received() {
                Ok(report) => Progress::At(at, report),
                Err(fault) => Progress::Stop(fault),
            }
        },
    }
}

/// Releases an ended revision.
fn release_one<'a>(
    tenant_id: Uuid,
    revision: OutlivedRevision,
    log: &'a [Reply],
    at: usize,
    report: DocumentRevisionRetentionReport,
) -> (r: Progress<'a, DocumentRevisionRetentionReport>)
    ensures
        r@ == release_round(tenant_id, revision, log@, at as int, report),
{
    let at: usize = match pass_one(
        log,
        at,
        execute(
            sql::RELEASE_DOCUMENT_PAYLOAD_UPDATE_PAYLOAD_OBJECTS,
            vec![Param::Id(tenant_id), Param::Id(revision.payload_id)],
        ),
        DatabaseError::StaleGeneration,
    ) {
        Progress::At(at, _) => at,
        Progress::Ask(command) => return Progress::Ask(command),
        Progress::Stop(fault) => return Progress::Stop(fault),
    };
    let at: usize = match pass_one(
        log,
        at,
        execute(
            sql::DOCUMENT_REVISION_RETENTION_SWEEP_UPDATE_DRIVES,
            vec![
                Param::Id(tenant_id),
                Param::Id(revision.drive_id),
                Param::I64(revision.reserved_bytes),
            ],
        ),
        DatabaseError::StaleGeneration,
    ) {
        Progress::At(at, _) => at,
        Progress::Ask(command) => return Progress::Ask(command),
        Progress::Stop(fault) => return Progress::Stop(fault),
    };
    let (at, enqueued): (usize, u64) = match pass_count(
        log,
        at,
        execute(
            sql::DOCUMENT_REVISION_RETENTION_SWEEP_INSERT_JOBS,
            vec![
                Param::Id(tenant_id),
                Param::FreshId,
                Param::Id(revision.payload_id),
                Param::Label("document-release:", revision.payload_id),
                Param::Object1("payload_id", Detail::Id(revision.payload_id)),
            ],
        ),
    ) {
        Progress::At(at, enqueued) => (at, enqueued),
        Progress::Ask(command) => return Progress::Ask(command),
        Progress::Stop(fault) => return Progress::Stop(fault),
    };
    let at: usize = match pass_one(
        log,
        at,
        execute(
            sql::DOCUMENT_REVISION_RETENTION_SWEEP_UPDATE_REVISIONS_3,
            vec![Param::Id(tenant_id), Param::Id(revision.id)],
        ),
        DatabaseError::StaleGeneration,
    ) {
        Progress::At(at, _) => at,
        Progress::Ask(command) => return Progress::Ask(command),
        Progress::Stop(fault) => return Progress::Stop(fault),
    };
    let at: usize = match pass_any(
        log,
        at,
        execute(
            sql::COMMIT_DOCUMENT_REVISION_UPDATE_RECONCILIATION_JOBS,
            vec![Param::Id(tenant_id), Param::Id(revision.id)],
        ),
    ) {
        Progress::At(at, _) => at,
        Progress::Ask(command) => return Progress::Ask(command),
        Progress::Stop(fault) => return Progress::Stop(fault),
    };
    match report.add_released(enqueued) {
        Ok(report) => Progress::At(at, report),
        Err(fault) => Progress::Stop(fault),
    }
}

/// Gives up unfinished revisions one after the other.
fn abandon_each<'a>(
    tenant_id: Uuid,
    revisions: &Vec<UnfinishedRevision>,
    log: &'a [Reply],
    from: usize,
    initial: DocumentRevisionRetentionReport,
) -> (r: Progress<'a, DocumentRevisionRetentionReport>)
    ensures
        r@ == abandon_all(tenant_id, revisions@, log@, from as int, initial),
{
    let mut at: usize = from;
    let mut report: DocumentRevisionRetentionReport = initial;
    let mut next: usize = 0;
    proof {
        assert(revisions@.skip(0) =~= revisions@);
    }
    while next < revisions.len()
        invariant
            next <= revisions@.len(),
            abandon_all(tenant_id, revisions@, log@, from as int, initial) == abandon_all(
                tenant_id,
                revisions@.skip(next as int),
                log@,
                at as int,
                report,
            ),
        decreases revisions@.len() - next,
    {
        proof {
            assert(revisions@.skip(next as int)[0] == revisions@[next as int]);
            assert(revisions@.skip(next as int).skip(1) =~= revisions@.skip(next + 1));
        }
        match abandon_one(tenant_id, revisions[next], log, at, report) {
            Progress::At(later, more) => {
                at = later;
                report = more;
            },
            Progress::Ask(command) => return Progress::Ask(command),
            Progress::Stop(fault) => return Progress::Stop(fault),
        }
        next = next + 1;
    }
    Progress::At(at, report)
}

/// Releases ended revisions one after the other.
fn release_each<'a>(
    tenant_id: Uuid,
    revisions: &Vec<OutlivedRevision>,
    log: &'a [Reply],
    from: usize,
    initial: DocumentRevisionRetentionReport,
) -> (r: Progress<'a, DocumentRevisionRetentionReport>)
    ensures
        r@ == release_all(tenant_id, revisions@, log@, from as int, initial),
{
    let mut at: usize = from;
    let mut report: DocumentRevisionRetentionReport = initial;
    let mut next: usize = 0;
    proof {
        assert(revisions@.skip(0) =~= revisions@);
    }
    while next < revisions.len()
        invariant
            next <= revisions@.len(),
            release_all(tenant_id, revisions@, log@, from as int, initial) == release_all(
                tenant_id,
                revisions@.skip(next as int),
                log@,
                at as int,
                report,
            ),
        decreases revisions@.len() - next,
    {
        proof {
            assert(revisions@.skip(next as int)[0] == revisions@[next as int]);
            assert(revisions@.skip(next as int).skip(1) =~= revisions@.skip(next + 1));
        }
        match release_one(tenant_id, revisions[next], log, at, report) {
            Progress::At(later, more) => {
                at = later;
                report = more;
            },
            Progress::Ask(command) => return Progress::Ask(command),
            Progress::Stop(fault) => return Progress::Stop(fault),
        }
        next = next + 1;
    }
    Progress::At(at, report)
}

/// Deletes expired grants, events and receipts.
fn purge_expired<'a>(
    tenant_id: Uuid,
    limit: i64,
    log: &'a [Reply],
    at: usize,
    report: DocumentRevisionRetentionReport,
) -> (r: Progress<'a, DocumentRevisionRetentionReport>)
    ensures
        r@ == purge(tenant_id, limit, log@, at as int, report),
{
    let (at, launch_grants_purged): (usize, u64) = match pass_count(
        log,
        at,
        execute(
            sql::BOUNDED_DOCUMENT_METADATA_DELETE_DELETE_LAUNCH_GRANTS,
            vec![Param::Id(tenant_id), Param::I64(limit)],
        ),
    ) {
        Progress::At(at, launch_grants_purged) => (at, launch_grants_purged),
        Progress::Ask(command) => return Progress::Ask(command),
        Progress::Stop(fault) => return Progress::Stop(fault),
    };
    let (at, session_events_purged): (usize, u64) = match pass_count(
        log,
        at,
        execute(
            sql::BOUNDED_DOCUMENT_METADATA_DELETE_DELETE_SESSION_EVENTS,
            vec![Param::Id(tenant_id), Param::I64(limit)],
        ),
    ) {
        Progress::At(at, session_events_purged) => (at, session_events_purged),
        Progress::Ask(command) => return Progress::Ask(command),
        Progress::Stop(fault) => return Progress::Stop(fault),
    };
    let (at, operation_receipts_purged): (usize, u64) = match pass_count(
        log,
        at,
        execute(
            sql::BOUNDED_DOCUMENT_METADATA_DELETE_DELETE_OPERATION_RECEIPTS,
            vec![Param::Id(tenant_id), Param::I64(limit)],
        ),
    ) {
        Progress::At(at, operation_receipts_purged) => (at, operation_receipts_purged),
        Progress::Ask(command) => return Progress::Ask(command),
        Progress::Stop(fault) => return Progress::Stop(fault),
    };
    Progress::At(
        at,
        DocumentRevisionRetentionReport {
            launch_grants_purged,
            session_events_purged,
            operation_receipts_purged,
            ..report
        },
    )
}

/// A whole sweep.
fn sweep_progress<'a>(tenant_id: Uuid, limit: i64, log: &'a [Reply]) -> (r: Progress<
    'a,
    DocumentRevisionRetentionReport,
>)
    ensures
        r@ == sweep(tenant_id, limit, log@),
{
    let at: usize = match pass_any(log, 0, Command::Begin) {
        Progress::At(at, _) => at,
        Progress::Ask(command) => return Progress::Ask(command),
        Progress::Stop(fault) => return Progress::Stop(fault),
    };
    let (at, unfinished): (usize, Vec<UnfinishedRevision>) = match pass_rows::<UnfinishedRevision>(
        log,
        at,
        all(
            sql::DOCUMENT_REVISION_RETENTION_SWEEP_SELECT_REVISIONS,
            vec![Param::Id(tenant_id), Param::I64(limit)],
        ),
    ) {
        Progress::At(at, unfinished) => (at, unfinished),
        Progress::Ask(command) => return Progress::Ask(command),
        Progress::Stop(fault) => return Progress::Stop(fault),
    };
    let (at, report): (usize, DocumentRevisionRetentionReport) = match abandon_each(
        tenant_id,
        &unfinished,
        log,
        at,
        DocumentRevisionRetentionReport::default(),
    ) {
        Progress::At(at, report) => (at, report),
        Progress::Ask(command) => return Progress::Ask(command),
        Progress::Stop(fault) => return Progress::Stop(fault),
    };
    let (at, outlived): (usize, Vec<OutlivedRevision>) = match pass_rows::<OutlivedRevision>(
        log,
        at,
        all(
            sql::DOCUMENT_REVISION_RETENTION_SWEEP_SELECT_REVISIONS_2,
            vec![Param::Id(tenant_id), Param::I64(limit)],
        ),
    ) {
        Progress::At(at, outlived) => (at, outlived),
        Progress::Ask(command) => return Progress::Ask(command),
        Progress::Stop(fault) => return Progress::Stop(fault),
    };
    let (at, report): (
        usize,
        DocumentRevisionRetentionReport,
    ) = match release_each(tenant_id, &outlived, log, at, report) {
        Progress::At(at, report) => (at, report),
        Progress::Ask(command) => return Progress::Ask(command),
        Progress::Stop(fault) => return Progress::Stop(fault),
    };
    let (at, report): (
        usize,
        DocumentRevisionRetentionReport,
    ) = match purge_expired(tenant_id, limit, log, at, report) {
        Progress::At(at, report) => (at, report),
        Progress::Ask(command) => return Progress::Ask(command),
        Progress::Stop(fault) => return Progress::Stop(fault),
    };
    let at: usize = match pass_any(log, at, Command::Commit) {
        Progress::At(at, _) => at,
        Progress::Ask(command) => return Progress::Ask(command),
        Progress::Stop(fault) => return Progress::Stop(fault),
    };
    Progress::At(at, report)
}

proof fn lemma_abandon_round_settled(
    tenant_id: Uuid,
    revision: UnfinishedRevision,
    log: Seq<Reply>,
    at: int,
    report: DocumentRevisionRetentionReport,
    end: int,
)
    requires
        0 <= at,
        abandon_round(tenant_id, revision, log, at, report) is At,
        abandon_round(tenant_id, revision, log, at, report)->At_0 <= end <= log.len(),
    ensures
        at <= abandon_round(tenant_id, revision, log, at, report)->At_0,
        abandon_round(tenant_id, revision, log.take(end), at, report) == abandon_round(
            tenant_id,
            revision,
            log,
            at,
            report,
        ),
{
}

proof fn lemma_abandon_all_settled(
    tenant_id: Uuid,
    revisions: Seq<UnfinishedRevision>,
    log: Seq<Reply>,
    at: int,
    report: DocumentRevisionRetentionReport,
    end: int,
)
    requires
        0 <= at,
        abandon_all(tenant_id, revisions, log, at, report) is At,
        abandon_all(tenant_id, revisions, log, at, report)->At_0 <= end <= log.len(),
    ensures
        at <= abandon_all(tenant_id, revisions, log, at, report)->At_0,
        abandon_all(tenant_id, revisions, log.take(end), at, report) == abandon_all(
            tenant_id,
            revisions,
            log,
            at,
            report,
        ),
    decreases revisions.len(),
{
    if revisions.len() > 0 {
        let round = abandon_round(tenant_id, revisions[0], log, at, report);
        lemma_abandon_all_forward(tenant_id, revisions.skip(1), log, round->At_0, round->At_1);
        lemma_abandon_round_settled(tenant_id, revisions[0], log, at, report, end);
        lemma_abandon_all_settled(
            tenant_id,
            revisions.skip(1),
            log,
            round->At_0,
            round->At_1,
            end,
        );
    }
}

proof fn lemma_abandon_all_forward(
    tenant_id: Uuid,
    revisions: Seq<UnfinishedRevision>,
    log: Seq<Reply>,
    at: int,
    report: DocumentRevisionRetentionReport,
)
    ensures
        abandon_all(tenant_id, revisions, log, at, report) is At ==> at <= abandon_all(
            tenant_id,
            revisions,
            log,
            at,
            report,
        )->At_0,
    decreases revisions.len(),
{
    if revisions.len() > 0 {
        let round = abandon_round(tenant_id, revisions[0], log, at, report);
        if round is At {
            lemma_abandon_all_forward(tenant_id, revisions.skip(1), log, round->At_0, round->At_1);
        }
    }
}

proof fn lemma_release_round_settled(
    tenant_id: Uuid,
    revision: OutlivedRevision,
    log: Seq<Reply>,
    at: int,
    report: DocumentRevisionRetentionReport,
    end: int,
)
    requires
        0 <= at,
        release_round(tenant_id, revision, log, at, report) is At,
        release_round(tenant_id, revision, log, at, report)->At_0 <= end <= log.len(),
    ensures
        at <= release_round(tenant_id, revision, log, at, report)->At_0,
        release_round(tenant_id, revision, log.take(end), at, report) == release_round(
            tenant_id,
            revision,
            log,
            at,
            report,
        ),
{
}

proof fn lemma_release_all_forward(
    tenant_id: Uuid,
    revisions: Seq<OutlivedRevision>,
    log: Seq<Reply>,
    at: int,
    report: DocumentRevisionRetentionReport,
)
    ensures
        release_all(tenant_id, revisions, log, at, report) is At ==> at <= release_all(
            tenant_id,
            revisions,
            log,
            at,
            report,
        )->At_0,
    decreases revisions.len(),
{
    if revisions.len() > 0 {
        let round = release_round(tenant_id, revisions[0], log, at, report);
        if round is At {
            lemma_release_all_forward(tenant_id, revisions.skip(1), log, round->At_0, round->At_1);
        }
    }
}

proof fn lemma_release_all_settled(
    tenant_id: Uuid,
    revisions: Seq<OutlivedRevision>,
    log: Seq<Reply>,
    at: int,
    report: DocumentRevisionRetentionReport,
    end: int,
)
    requires
        0 <= at,
        release_all(tenant_id, revisions, log, at, report) is At,
        release_all(tenant_id, revisions, log, at, report)->At_0 <= end <= log.len(),
    ensures
        at <= release_all(tenant_id, revisions, log, at, report)->At_0,
        release_all(tenant_id, revisions, log.take(end), at, report) == release_all(
            tenant_id,
            revisions,
            log,
            at,
            report,
        ),
    decreases revisions.len(),
{
    if revisions.len() > 0 {
        let round = release_round(tenant_id, revisions[0], log, at, report);
        lemma_release_all_forward(tenant_id, revisions.skip(1), log, round->At_0, round->At_1);
        lemma_release_round_settled(tenant_id, revisions[0], log, at, report, end);
        lemma_release_all_settled(
            tenant_id,
            revisions.skip(1),
            log,
            round->At_0,
            round->At_1,
            end,
        );
    }
}

/// A sweep reports its result only after its commit was acknowledged: the last reply that it
/// reads answers the commit.
pub proof fn sweeps_end_with_their_commit(tenant_id: Uuid, limit: i64, log: Seq<Reply>)
    ensures
        sweep(tenant_id, limit, log) matches ProgressView::At(end, _) ==> {
            &&& 0 < end <= log.len()
            &&& sweep(tenant_id, limit, log.take(end - 1)) == ProgressView::<
                DocumentRevisionRetentionReport,
            >::Ask(CommandView::Commit)
        },
{
    if sweep(tenant_id, limit, log) is At {
        let end = sweep(tenant_id, limit, log)->At_0;
        let unfinished = log[1].all_rows::<UnfinishedRevision>()->Ok_0;
        let given_up = abandon_all(
            tenant_id,
            unfinished,
            log,
            2,
            DocumentRevisionRetentionReport::nothing(),
        );
        let at = given_up->At_0;
        lemma_abandon_all_forward(
            tenant_id,
            unfinished,
            log,
            2,
            DocumentRevisionRetentionReport::nothing(),
        );
        let outlived = log[at].all_rows::<OutlivedRevision>()->Ok_0;
        let released = release_all(tenant_id, outlived, log, at + 1, given_up->At_1);
        lemma_release_all_forward(tenant_id, outlived, log, at + 1, given_up->At_1);
        assert(end == released->At_0 + 4);
        lemma_abandon_all_settled(
            tenant_id,
            unfinished,
            log,
            2,
            DocumentRevisionRetentionReport::nothing(),
            end - 1,
        );
        lemma_release_all_settled(tenant_id, outlived, log, at + 1, given_up->At_1, end - 1);
        let before = log.take(end - 1);
        assert(before[1] == log[1] && before[at] == log[at]);
        assert(before[released->At_0] == log[released->At_0]);
        assert(before[released->At_0 + 1] == log[released->At_0 + 1]);
        assert(before[released->At_0 + 2] == log[released->At_0 + 2]);
    }
}

proof fn lemma_abandon_all_is_scoped(
    tenant_id: Uuid,
    revisions: Seq<UnfinishedRevision>,
    log: Seq<Reply>,
    at: int,
    report: DocumentRevisionRetentionReport,
)
    ensures
        abandon_all(tenant_id, revisions, log, at, report) matches ProgressView::Ask(command)
            ==> crate::step::binds_tenant(command, tenant_id),
    decreases revisions.len(),
{
    if revisions.len() > 0 {
        match abandon_round(tenant_id, revisions[0], log, at, report) {
            ProgressView::At(at, more) => {
                lemma_abandon_all_is_scoped(tenant_id, revisions.skip(1), log, at, more);
            },
            _ => {},
        }
    }
}

proof fn lemma_release_all_is_scoped(
    tenant_id: Uuid,
    revisions: Seq<OutlivedRevision>,
    log: Seq<Reply>,
    at: int,
    report: DocumentRevisionRetentionReport,
)
    ensures
        release_all(tenant_id, revisions, log, at, report) matches ProgressView::Ask(command)
            ==> crate::step::binds_tenant(command, tenant_id),
    decreases revisions.len(),
{
    if revisions.len() > 0 {
        match release_round(tenant_id, revisions[0], log, at, report) {
            ProgressView::At(at, more) => {
                lemma_release_all_is_scoped(tenant_id, revisions.skip(1), log, at, more);
            },
            _ => {},
        }
    }
}

/// Every statement of a sweep is about its tenant.
pub proof fn sweeps_are_scoped(tenant_id: Uuid, limit: i64, log: Seq<Reply>)
    ensures
        sweep(tenant_id, limit, log) matches ProgressView::Ask(command)
            ==> crate::step::binds_tenant(command, tenant_id),
{
    let nothing = DocumentRevisionRetentionReport::nothing();
    let unfinished = log[1].all_rows::<UnfinishedRevision>()->Ok_0;
    lemma_abandon_all_is_scoped(tenant_id, unfinished, log, 2, nothing);
    let given_up = abandon_all(tenant_id, unfinished, log, 2, nothing);
    let at = given_up->At_0;
    let outlived = log[at].all_rows::<OutlivedRevision>()->Ok_0;
    lemma_release_all_is_scoped(tenant_id, outlived, log, at + 1, given_up->At_1);
}

/// The identifier that a command names behind its tenant, where it names one.
pub open spec fn named<'a>(command: CommandView<'a>) -> Option<Uuid> {
    match command {
        CommandView::Query { params, .. } => if params.len() > 1 {
            match params[1] {
                Param::Id(id) => Some(id),
                _ => None,
            }
        } else {
            None
        },
        _ => None,
    }
}

/// Whether a command names nothing but one of these unfinished revisions, its payload or its
/// drive.
pub open spec fn touches_unfinished<'a>(
    command: CommandView<'a>,
    revisions: Seq<UnfinishedRevision>,
) -> bool {
    named(command) is Some ==> exists|j: int|
        0 <= j < revisions.len() && {
            ||| (#[trigger] revisions[j]).id == named(command)->0
            ||| revisions[j].payload_id == named(command)
            ||| revisions[j].drive_id == named(command)->0
        }
}

/// Whether a command names nothing but one of these ended revisions, its payload or its drive.
pub open spec fn touches_outlived<'a>(
    command: CommandView<'a>,
    revisions: Seq<OutlivedRevision>,
) -> bool {
    named(command) is Some ==> exists|j: int|
        0 <= j < revisions.len() && {
            ||| (#[trigger] revisions[j]).id == named(command)->0
            ||| revisions[j].payload_id == named(command)->0
            ||| revisions[j].drive_id == named(command)->0
        }
}

proof fn lemma_abandon_all_touches_listed(
    tenant_id: Uuid,
    revisions: Seq<UnfinishedRevision>,
    log: Seq<Reply>,
    at: int,
    report: DocumentRevisionRetentionReport,
)
    ensures
        abandon_all(tenant_id, revisions, log, at, report) matches ProgressView::Ask(command)
            ==> touches_unfinished(command, revisions),
    decreases revisions.len(),
{
    if revisions.len() > 0 {
        match abandon_round(tenant_id, revisions[0], log, at, report) {
            ProgressView::At(at, more) => {
                let rest = revisions.skip(1);
                lemma_abandon_all_touches_listed(tenant_id, rest, log, at, more);
                assert(forall|j: int| 0 <= j < rest.len() ==> rest[j] == revisions[j + 1]);
            },
            _ => {
                assert(revisions[0] == revisions[0]);
            },
        }
    }
}

proof fn lemma_release_all_touches_listed(
    tenant_id: Uuid,
    revisions: Seq<OutlivedRevision>,
    log: Seq<Reply>,
    at: int,
    report: DocumentRevisionRetentionReport,
)
    ensures
        release_all(tenant_id, revisions, log, at, report) matches ProgressView::Ask(command)
            ==> touches_outlived(command, revisions),
    decreases revisions.len(),
{
    if revisions.len() > 0 {
        match release_round(tenant_id, revisions[0], log, at, report) {
            ProgressView::At(at, more) => {
                let rest = revisions.skip(1);
                lemma_release_all_touches_listed(tenant_id, rest, log, at, more);
                assert(forall|j: int| 0 <= j < rest.len() ==> rest[j] == revisions[j + 1]);
            },
            _ => {
                assert(revisions[0] == revisions[0]);
            },
        }
    }
}

/// A sweep touches only what it has listed: a revision that is on neither of its two lists is left
/// as it is, with its payload. So a live session's revisions, which the first list leaves out, stay
/// unchanged; and what an earlier sweep has given up or released, which is on no list any more, is
/// not released again.
pub proof fn sweeps_touch_only_what_they_list(tenant_id: Uuid, limit: i64, log: Seq<Reply>)
    ensures
        ({
            let unfinished = log[1].all_rows::<UnfinishedRevision>()->Ok_0;
            let given_up = abandon_all(
                tenant_id,
                unfinished,
                log,
                2,
                DocumentRevisionRetentionReport::nothing(),
            );
            let outlived = log[given_up->At_0].all_rows::<OutlivedRevision>()->Ok_0;
            sweep(tenant_id, limit, log) matches ProgressView::Ask(command) ==> {
                ||| touches_unfinished(command, unfinished)
                ||| touches_outlived(command, outlived)
            }
        }),
{
    let nothing = DocumentRevisionRetentionReport::nothing();
    let unfinished = log[1].all_rows::<UnfinishedRevision>()->Ok_0;
    lemma_abandon_all_touches_listed(tenant_id, unfinished, log, 2, nothing);
    let given_up = abandon_all(tenant_id, unfinished, log, 2, nothing);
    let at = given_up->At_0;
    let outlived = log[at].all_rows::<OutlivedRevision>()->Ok_0;
    lemma_release_all_touches_listed(tenant_id, outlived, log, at + 1, given_up->At_1);
}

/// An unfinished revision with a payload is given up by four writes, each once: its payload turns
/// into delete intent, exactly its reserved bytes return to the drive, the revision fails, and the
/// deletion is queued. The first three must each touch one row.
pub proof fn staged_revisions_are_given_up_exactly<'a>(
    tenant_id: Uuid,
    revision: UnfinishedRevision,
    log: Seq<Reply>,
    at: int,
    report: DocumentRevisionRetentionReport,
)
    requires
        revision.payload_id is Some,
        0 <= at <= log.len(),
        abandon_round(tenant_id, revision, log, at, report) is At,
    ensures
        ({
            let round = |count: int|
                abandon_round::<'a>(tenant_id, revision, log.take(at + count), at, report);
            &&& abandon_round(tenant_id, revision, log, at, report)->At_0 == at + 4 <= log.len()
            &&& round(0) == ProgressView::<'a, DocumentRevisionRetentionReport>::Ask(
                CommandView::execute(
                    sql::DOCUMENT_REVISION_RETENTION_SWEEP_UPDATE_PAYLOAD_OBJECTS,
                    seq![Param::Id(tenant_id), Param::Id(revision.payload_id->0)],
                ),
            )
            &&& round(1) == ProgressView::<'a, DocumentRevisionRetentionReport>::Ask(
                CommandView::execute(
                    sql::DOCUMENT_REVISION_RETENTION_SWEEP_UPDATE_DRIVES,
                    seq![
                        Param::Id(tenant_id),
                        Param::Id(revision.drive_id),
                        Param::I64(revision.reserved_bytes),
                    ],
                ),
            )
            &&& round(2) == ProgressView::<'a, DocumentRevisionRetentionReport>::Ask(
                CommandView::execute(
                    sql::DOCUMENT_REVISION_RETENTION_SWEEP_UPDATE_REVISIONS,
                    seq![Param::Id(tenant_id), Param::Id(revision.id)],
                ),
            )
            &&& log[at].one_affected(DatabaseError::StaleGeneration) is Ok
            &&& log[at + 1].one_affected(DatabaseError::StaleGeneration) is Ok
            &&& log[at + 2].one_affected(DatabaseError::StaleGeneration) is Ok
        }),
{
    assert(log.take(at + 1)[at] == log[at]);
    assert(log.take(at + 2)[at] == log[at]);
    assert(log.take(at + 2)[at + 1] == log[at + 1]);
}

/// A sweep gives up no more revisions than its limit, and releases no more, where its two lists
/// are as long as the limit at most.
pub proof fn sweeps_stay_within_their_limit(tenant_id: Uuid, limit: i64, log: Seq<Reply>)
    requires
        log[1].all_rows::<UnfinishedRevision>()->Ok_0.len() <= limit,
        log[abandon_all(
            tenant_id,
            log[1].all_rows::<UnfinishedRevision>()->Ok_0,
            log,
            2,
            DocumentRevisionRetentionReport::nothing(),
        )->At_0].all_rows::<OutlivedRevision>()->Ok_0.len() <= limit,
    ensures
        sweep(tenant_id, limit, log) matches ProgressView::At(_, report) ==> {
            &&& report.received_abandoned + report.staging_abandoned <= limit
            &&& report.terminal_revisions_released <= limit
        },
{
    let nothing = DocumentRevisionRetentionReport::nothing();
    let unfinished = log[1].all_rows::<UnfinishedRevision>()->Ok_0;
    crate::laws::swept_revisions_are_all_given_up(tenant_id, unfinished, log, 2, nothing);
    let given_up = abandon_all(tenant_id, unfinished, log, 2, nothing);
    let at = given_up->At_0;
    let outlived = log[at].all_rows::<OutlivedRevision>()->Ok_0;
    crate::laws::swept_revisions_are_all_released(
        tenant_id,
        outlived,
        log,
        at + 1,
        given_up->At_1,
    );
}

/// The commands that give up an unfinished revision, in order.
pub open spec fn abandon_commands<'a>(
    tenant_id: Uuid,
    revision: UnfinishedRevision,
) -> Seq<CommandView<'a>> {
    match revision.payload_id {
        Some(payload_id) => seq![
            CommandView::execute(
                sql::DOCUMENT_REVISION_RETENTION_SWEEP_UPDATE_PAYLOAD_OBJECTS,
                seq![Param::Id(tenant_id), Param::Id(payload_id)],
            ),
            CommandView::execute(
                sql::DOCUMENT_REVISION_RETENTION_SWEEP_UPDATE_DRIVES,
                seq![
                    Param::Id(tenant_id),
                    Param::Id(revision.drive_id),
                    Param::I64(revision.reserved_bytes),
                ],
            ),
            CommandView::execute(
                sql::DOCUMENT_REVISION_RETENTION_SWEEP_UPDATE_REVISIONS,
                seq![Param::Id(tenant_id), Param::Id(revision.id)],
            ),
            CommandView::execute(
                sql::DOCUMENT_REVISION_RETENTION_SWEEP_INSERT_JOBS,
                seq![
                    Param::Id(tenant_id),
                    Param::FreshId,
                    Param::Id(payload_id),
                    Param::Label("document-expire:", payload_id),
                    Param::Object1("payload_id", Detail::Id(payload_id)),
                ],
            ),
        ],
        None => seq![
            CommandView::execute(
                sql::DOCUMENT_REVISION_RETENTION_SWEEP_UPDATE_REVISIONS_2,
                seq![Param::Id(tenant_id), Param::Id(revision.id)],
            ),
        ],
    }
}

/// The commands that give up unfinished revisions, in order.
pub open spec fn abandon_script<'a>(
    tenant_id: Uuid,
    revisions: Seq<UnfinishedRevision>,
) -> Seq<CommandView<'a>>
    decreases revisions.len(),
{
    if revisions.len() == 0 {
        Seq::empty()
    } else {
        abandon_commands(tenant_id, revisions[0]).add(abandon_script(tenant_id, revisions.skip(1)))
    }
}

/// The commands that release an ended revision, in order.
pub open spec fn release_commands<'a>(
    tenant_id: Uuid,
    revision: OutlivedRevision,
) -> Seq<CommandView<'a>> {
    seq![
        CommandView::execute(
            sql::RELEASE_DOCUMENT_PAYLOAD_UPDATE_PAYLOAD_OBJECTS,
            seq![Param::Id(tenant_id), Param::Id(revision.payload_id)],
        ),
        CommandView::execute(
            sql::DOCUMENT_REVISION_RETENTION_SWEEP_UPDATE_DRIVES,
            seq![
                Param::Id(tenant_id),
                Param::Id(revision.drive_id),
                Param::I64(revision.reserved_bytes),
            ],
        ),
        CommandView::execute(
            sql::DOCUMENT_REVISION_RETENTION_SWEEP_INSERT_JOBS,
            seq![
                Param::Id(tenant_id),
                Param::FreshId,
                Param::Id(revision.payload_id),
                Param::Label("document-release:", revision.payload_id),
                Param::Object1("payload_id", Detail::Id(revision.payload_id)),
            ],
        ),
        CommandView::execute(
            sql::DOCUMENT_REVISION_RETENTION_SWEEP_UPDATE_REVISIONS_3,
            seq![Param::Id(tenant_id), Param::Id(revision.id)],
        ),
        CommandView::execute(
            sql::COMMIT_DOCUMENT_REVISION_UPDATE_RECONCILIATION_JOBS,
            seq![Param::Id(tenant_id), Param::Id(revision.id)],
        ),
    ]
}

/// The commands that release ended revisions, in order.
pub open spec fn release_script<'a>(
    tenant_id: Uuid,
    revisions: Seq<OutlivedRevision>,
) -> Seq<CommandView<'a>>
    decreases revisions.len(),
{
    if revisions.len() == 0 {
        Seq::empty()
    } else {
        release_commands(tenant_id, revisions[0]).add(release_script(tenant_id, revisions.skip(1)))
    }
}

/// The unfinished revisions that a sweep has listed.
pub open spec fn listed_unfinished(log: Seq<Reply>) -> Seq<UnfinishedRevision> {
    log[1].all_rows::<UnfinishedRevision>()->Ok_0
}

/// Where a sweep lists the ended revisions.
pub open spec fn outlived_at(tenant_id: Uuid, log: Seq<Reply>) -> int {
    2 + abandon_script(tenant_id, listed_unfinished(log)).len() as int
}

/// The ended revisions that a sweep has listed.
pub open spec fn listed_outlived(tenant_id: Uuid, log: Seq<Reply>) -> Seq<OutlivedRevision> {
    log[outlived_at(tenant_id, log)].all_rows::<OutlivedRevision>()->Ok_0
}

/// The commands of a sweep, in order.
pub open spec fn sweep_script<'a>(
    tenant_id: Uuid,
    limit: i64,
    log: Seq<Reply>,
) -> Seq<CommandView<'a>> {
    seq![
        CommandView::Begin,
        CommandView::all(
            sql::DOCUMENT_REVISION_RETENTION_SWEEP_SELECT_REVISIONS,
            seq![Param::Id(tenant_id), Param::I64(limit)],
        ),
    ].add(abandon_script(tenant_id, listed_unfinished(log))).add(
        seq![
            CommandView::all(
                sql::DOCUMENT_REVISION_RETENTION_SWEEP_SELECT_REVISIONS_2,
                seq![Param::Id(tenant_id), Param::I64(limit)],
            ),
        ],
    ).add(release_script(tenant_id, listed_outlived(tenant_id, log))).add(
        seq![
            CommandView::execute(
                sql::BOUNDED_DOCUMENT_METADATA_DELETE_DELETE_LAUNCH_GRANTS,
                seq![Param::Id(tenant_id), Param::I64(limit)],
            ),
            CommandView::execute(
                sql::BOUNDED_DOCUMENT_METADATA_DELETE_DELETE_SESSION_EVENTS,
                seq![Param::Id(tenant_id), Param::I64(limit)],
            ),
            CommandView::execute(
                sql::BOUNDED_DOCUMENT_METADATA_DELETE_DELETE_OPERATION_RECEIPTS,
                seq![Param::Id(tenant_id), Param::I64(limit)],
            ),
            CommandView::Commit,
        ],
    )
}

pub(crate) proof fn lemma_abandon_round_asks<'a>(
    tenant_id: Uuid,
    revision: UnfinishedRevision,
    log: Seq<Reply>,
    at: int,
    report: DocumentRevisionRetentionReport,
    m: int,
)
    requires
        0 <= at <= m,
        abandon_round::<'a>(tenant_id, revision, log, at, report) is At,
    ensures
        ({
            let commands = abandon_commands::<'a>(tenant_id, revision);
            &&& abandon_round::<'a>(tenant_id, revision, log, at, report)->At_0 == at
                + commands.len() <= log.len()
            &&& m < at + commands.len() ==> abandon_round::<'a>(
                tenant_id,
                revision,
                log.take(m),
                at,
                report,
            ) == ProgressView::<'a, DocumentRevisionRetentionReport>::Ask(commands[m - at])
        }),
{
    let before = log.take(m);
    if m < at + abandon_commands::<'a>(tenant_id, revision).len() && m <= log.len() {
        assert(m > at ==> before[at] == log[at]);
        assert(m > at + 1 ==> before[at + 1] == log[at + 1]);
        assert(m > at + 2 ==> before[at + 2] == log[at + 2]);
    }
}

pub(crate) proof fn lemma_abandon_all_asks<'a>(
    tenant_id: Uuid,
    revisions: Seq<UnfinishedRevision>,
    log: Seq<Reply>,
    at: int,
    report: DocumentRevisionRetentionReport,
    m: int,
)
    requires
        0 <= at <= m,
        at <= log.len(),
        abandon_all::<'a>(tenant_id, revisions, log, at, report) is At,
    ensures
        ({
            let commands = abandon_script::<'a>(tenant_id, revisions);
            &&& abandon_all::<'a>(tenant_id, revisions, log, at, report)->At_0 == at
                + commands.len() <= log.len()
            &&& m < at + commands.len() ==> abandon_all::<'a>(
                tenant_id,
                revisions,
                log.take(m),
                at,
                report,
            ) == ProgressView::<'a, DocumentRevisionRetentionReport>::Ask(commands[m - at])
        }),
    decreases revisions.len(),
{
    if revisions.len() > 0 {
        lemma_abandon_round_asks(tenant_id, revisions[0], log, at, report, m);
        let round = abandon_round::<'a>(tenant_id, revisions[0], log, at, report);
        let later = if m < round->At_0 {
            round->At_0
        } else {
            m
        };
        lemma_abandon_all_asks(
            tenant_id,
            revisions.skip(1),
            log,
            round->At_0,
            round->At_1,
            later,
        );
        if round->At_0 <= m <= log.len() {
            lemma_abandon_round_settled(tenant_id, revisions[0], log, at, report, m);
        }
    }
}

pub(crate) proof fn lemma_release_round_asks<'a>(
    tenant_id: Uuid,
    revision: OutlivedRevision,
    log: Seq<Reply>,
    at: int,
    report: DocumentRevisionRetentionReport,
    m: int,
)
    requires
        0 <= at <= m,
        release_round::<'a>(tenant_id, revision, log, at, report) is At,
    ensures
        ({
            let commands = release_commands::<'a>(tenant_id, revision);
            &&& release_round::<'a>(tenant_id, revision, log, at, report)->At_0 == at
                + commands.len() <= log.len()
            &&& m < at + commands.len() ==> release_round::<'a>(
                tenant_id,
                revision,
                log.take(m),
                at,
                report,
            ) == ProgressView::<'a, DocumentRevisionRetentionReport>::Ask(commands[m - at])
        }),
{
    let before = log.take(m);
    if m < at + 5 && m <= log.len() {
        assert(m > at ==> before[at] == log[at]);
        assert(m > at + 1 ==> before[at + 1] == log[at + 1]);
        assert(m > at + 2 ==> before[at + 2] == log[at + 2]);
        assert(m > at + 3 ==> before[at + 3] == log[at + 3]);
    }
}

pub(crate) proof fn lemma_release_all_asks<'a>(
    tenant_id: Uuid,
    revisions: Seq<OutlivedRevision>,
    log: Seq<Reply>,
    at: int,
    report: DocumentRevisionRetentionReport,
    m: int,
)
    requires
        0 <= at <= m,
        at <= log.len(),
        release_all::<'a>(tenant_id, revisions, log, at, report) is At,
    ensures
        ({
            let commands = release_script::<'a>(tenant_id, revisions);
            &&& release_all::<'a>(tenant_id, revisions, log, at, report)->At_0 == at
                + commands.len() <= log.len()
            &&& m < at + commands.len() ==> release_all::<'a>(
                tenant_id,
                revisions,
                log.take(m),
                at,
                report,
            ) == ProgressView::<'a, DocumentRevisionRetentionReport>::Ask(commands[m - at])
        }),
    decreases revisions.len(),
{
    if revisions.len() > 0 {
        lemma_release_round_asks(tenant_id, revisions[0], log, at, report, m);
        let round = release_round::<'a>(tenant_id, revisions[0], log, at, report);
        let later = if m < round->At_0 {
            round->At_0
        } else {
            m
        };
        lemma_release_all_asks(
            tenant_id,
            revisions.skip(1),
            log,
            round->At_0,
            round->At_1,
            later,
        );
        if round->At_0 <= m <= log.len() {
            lemma_release_round_settled(tenant_id, revisions[0], log, at, report, m);
        }
    }
}

/// A sweep that comes to its end has gone through its script: it has asked for each command of the
/// script in turn, and for nothing else.
pub proof fn sweeps_follow_their_script<'a>(
    tenant_id: Uuid,
    limit: i64,
    log: Seq<Reply>,
    m: int,
)
    requires
        sweep::<'a>(tenant_id, limit, log) is At,
        0 <= m < sweep::<'a>(tenant_id, limit, log)->At_0,
    ensures
        sweep::<'a>(tenant_id, limit, log)->At_0 == sweep_script::<'a>(
            tenant_id,
            limit,
            log,
        ).len() <= log.len(),
        sweep::<'a>(tenant_id, limit, log.take(m)) == ProgressView::<
            'a,
            DocumentRevisionRetentionReport,
        >::Ask(sweep_script::<'a>(tenant_id, limit, log)[m]),
{
    let nothing = DocumentRevisionRetentionReport::nothing();
    let before = log.take(m);
    let unfinished = listed_unfinished(log);
    let first = if m < 2 {
        2
    } else {
        m
    };
    lemma_abandon_all_asks(tenant_id, unfinished, log, 2, nothing, first);
    let given_up = abandon_all::<'a>(tenant_id, unfinished, log, 2, nothing);
    let at = given_up->At_0;
    let outlived = listed_outlived(tenant_id, log);
    let second = if m < at + 1 {
        at + 1
    } else {
        m
    };
    lemma_release_all_asks(tenant_id, outlived, log, at + 1, given_up->At_1, second);
    let released = release_all::<'a>(tenant_id, outlived, log, at + 1, given_up->At_1);
    let end = released->At_0;
    assert(m > 1 ==> before[1] == log[1]);
    if m >= at {
        lemma_abandon_all_settled(tenant_id, unfinished, log, 2, nothing, m);
    }
    if m > at {
        assert(before[at] == log[at]);
    }
    if m >= end {
        lemma_release_all_settled(tenant_id, outlived, log, at + 1, given_up->At_1, m);
        assert(m > end ==> before[end] == log[end]);
        assert(m > end + 1 ==> before[end + 1] == log[end + 1]);
        assert(m > end + 2 ==> before[end + 2] == log[end + 2]);
    }
}

impl Database {
    /// What [`Database::document_revision_retention_sweep`] does next. A limit outside 1 to 1000
    /// is refused before anything is asked.
    pub open spec fn document_revision_retention_sweep_step<'a>(
        tenant_id: Uuid,
        limit: i64,
        log: Seq<Reply>,
    ) -> StepView<'a, DocumentRevisionRetentionReport> {
        if 1 <= limit <= 1_000 {
            sweep(tenant_id, limit, log).next_step()
        } else {
            StepView::Fail(DatabaseError::InvalidPersistedValue)
        }
    }

    /// Gives up what ended sessions left behind, releases ended revisions whose recovery window
    /// has closed, and purges expired metadata, all in one transaction. Referenced committed and
    /// conflict-copy payloads are never touched.
    pub fn document_revision_retention_sweep<'a>(
        tenant_id: Uuid,
        limit: i64,
        log: &'a [Reply],
    ) -> (step: Step<'a, DocumentRevisionRetentionReport>)
        ensures
            step@ == Self::document_revision_retention_sweep_step(tenant_id, limit, log@),
    {
        if limit < 1 || limit > 1_000 {
            return Step::Fail(DatabaseError::InvalidPersistedValue);
        }
        sweep_progress(tenant_id, limit, log).step()
    }
}

} // verus!
