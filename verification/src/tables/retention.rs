//! Laws about the rows that the retention sweep of document sessions touches.

use vstd::prelude::*;

use crate::document_retention::abandon_all;
use crate::document_retention::abandon_commands;
use crate::document_retention::abandon_round;
use crate::document_retention::abandon_script;
use crate::document_retention::listed_outlived;
use crate::document_retention::listed_unfinished;
use crate::document_retention::outlived_at;
use crate::document_retention::release_all;
use crate::document_retention::release_commands;
use crate::document_retention::release_round;
use crate::document_retention::release_script;
use crate::document_retention::sweep;
use crate::document_retention::sweep_script;
use crate::document_retention::DocumentRevisionRetentionReport;
use crate::document_retention::OutlivedRevision;
use crate::document_retention::UnfinishedRevision;
use crate::error::DatabaseError;
use crate::id::Uuid;
use crate::row::Reply;
use crate::step::CommandView;
use crate::tables::catalog::CatalogTables;
use crate::tables::catalog::DriveRow;
use crate::tables::document::retains;
use crate::tables::document::settles;
use crate::tables::document::DocumentTables;
use crate::tables::Course;
use crate::tables::Tables;

verus! {

/// The reserved bytes that revisions with a payload give back to a drive.
pub open spec fn freed(revisions: Seq<UnfinishedRevision>, drive_id: Uuid) -> int
    decreases revisions.len(),
{
    if revisions.len() == 0 {
        0
    } else {
        freed(revisions.skip(1), drive_id) + if revisions[0].payload_id is Some
            && revisions[0].drive_id == drive_id {
            revisions[0].reserved_bytes as int
        } else {
            0
        }
    }
}

/// Whether a revision is on a list.
pub open spec fn lists(revisions: Seq<UnfinishedRevision>, id: Uuid) -> bool {
    exists|j: int| 0 <= j < revisions.len() && (#[trigger] revisions[j]).id == id
}

/// Whether every payload is as it was, but for staged and finalized ones that are now to be
/// deleted.
pub open spec fn payloads_only_go(before: CatalogTables, after: CatalogTables) -> bool {
    &&& after.payloads.dom() == before.payloads.dom()
    &&& forall|id: Uuid| #[trigger]
        before.payloads.contains_key(id) ==> {
            ||| after.payloads[id] == before.payloads[id]
            ||| after.payloads[id] == "delete_intent"@ && (before.payloads[id] == "staging"@
                || before.payloads[id] == "finalized"@)
        }
}

/// What giving up a list of revisions does: each of them has failed, each payload of theirs is to
/// be deleted, each drive has exactly the reserved bytes of its own back, and no other revision,
/// no session and no participant has changed.
pub open spec fn are_given_up(
    before: Tables,
    after: Tables,
    revisions: Seq<UnfinishedRevision>,
) -> bool {
    &&& after == (Tables {
        documents: DocumentTables {
            revisions: after.documents.revisions,
            reconciliations: after.documents.reconciliations,
            ..before.documents
        },
        catalog: CatalogTables {
            payloads: after.catalog.payloads,
            drives: after.catalog.drives,
            jobs: after.catalog.jobs,
            ..before.catalog
        },
        ..before
    })
    &&& after.documents.revisions.dom() == before.documents.revisions.dom()
    &&& forall|id: Uuid| #[trigger]
        before.documents.revisions.contains_key(id) && !lists(revisions, id)
            ==> after.documents.revisions[id] == before.documents.revisions[id]
    &&& forall|j: int|
        0 <= j < revisions.len() ==> {
            let id = (#[trigger] revisions[j]).id;
            &&& before.documents.revisions.contains_key(id)
            &&& after.documents.revisions[id].state == "failed"@
            &&& after.documents.revisions[id].payload_id
                == before.documents.revisions[id].payload_id
            &&& revisions[j].payload_id is Some ==> after.catalog.payload_is(
                revisions[j].payload_id->0,
                "delete_intent"@,
            )
        }
    &&& payloads_only_go(before.catalog, after.catalog)
    &&& after.catalog.drives.dom() == before.catalog.drives.dom()
    &&& forall|id: Uuid| #[trigger]
        before.catalog.drives.contains_key(id) ==> after.catalog.drives[id] == (DriveRow {
            reserved_bytes: before.catalog.drives[id].reserved_bytes - freed(revisions, id),
            ..before.catalog.drives[id]
        })
}

proof fn lemma_payload_states_differ()
    ensures
        "delete_intent"@ != "staging"@,
        "delete_intent"@ != "finalized"@,
{
    reveal_strlit("delete_intent");
    reveal_strlit("staging");
    reveal_strlit("finalized");
    assert("delete_intent"@.len() == 13);
    assert("staging"@.len() == 7);
    assert("finalized"@.len() == 9);
}

/// Whether the commands of a script from a position on are these.
pub open spec fn holds<'a>(
    script: Seq<CommandView<'a>>,
    at: int,
    commands: Seq<CommandView<'a>>,
) -> bool {
    forall|k: int| 0 <= k < commands.len() ==> script[at + k] == #[trigger] commands[k]
}

proof fn lemma_given_up_one<'a>(
    tenant_id: Uuid,
    revision: UnfinishedRevision,
    script: Seq<CommandView<'a>>,
    log: Seq<Reply>,
    course: Course,
    at: int,
)
    requires
        course.follows(script, log),
        0 <= at,
        at + abandon_commands::<'a>(tenant_id, revision).len() <= log.len(),
        holds(script, at, abandon_commands::<'a>(tenant_id, revision)),
        log[at].one_affected(DatabaseError::StaleGeneration) is Ok,
        revision.payload_id is Some ==> log[at + 1].one_affected(
            DatabaseError::StaleGeneration,
        ) is Ok && log[at + 2].one_affected(DatabaseError::StaleGeneration) is Ok,
    ensures
        are_given_up(
            course.rows[at],
            course.rows[at + abandon_commands::<'a>(tenant_id, revision).len()],
            seq![revision],
        ),
{
    reveal(retains);
    reveal(settles);
    lemma_payload_states_differ();
    let commands = abandon_commands::<'a>(tenant_id, revision);
    let revisions = seq![revision];
    assert(revisions[0] == revision);
    assert(revisions.skip(1).len() == 0);
    reveal_with_fuel(freed, 2);
    assert(script[at + 0] == commands[0]);
    assert(course.performs(script, log, at));
    assert(lists(revisions, revision.id));
    if revision.payload_id is Some {
        assert(script[at + 1] == commands[1]);
        assert(script[at + 2] == commands[2]);
        assert(script[at + 3] == commands[3]);
        assert(course.performs(script, log, at + 1));
        assert(course.performs(script, log, at + 2));
        assert(course.performs(script, log, at + 3));
    }
    let before = course.rows[at];
    let after = course.rows[at + commands.len()];
    assert(after.documents.revisions.dom() =~= before.documents.revisions.dom());
    assert(after.catalog.payloads.dom() =~= before.catalog.payloads.dom());
    assert(after.catalog.drives.dom() =~= before.catalog.drives.dom());
}

proof fn lemma_released_one<'a>(
    tenant_id: Uuid,
    revision: OutlivedRevision,
    script: Seq<CommandView<'a>>,
    log: Seq<Reply>,
    course: Course,
    at: int,
)
    requires
        course.follows(script, log),
        0 <= at,
        at + 5 <= log.len(),
        holds(script, at, release_commands::<'a>(tenant_id, revision)),
        log[at].one_affected(DatabaseError::StaleGeneration) is Ok,
        log[at + 1].one_affected(DatabaseError::StaleGeneration) is Ok,
        log[at + 3].one_affected(DatabaseError::StaleGeneration) is Ok,
    ensures
        are_given_up(
            course.rows[at],
            course.rows[at + 5],
            seq![crate::tables::document::as_unfinished(revision)],
        ),
{
    reveal(retains);
    reveal(settles);
    lemma_payload_states_differ();
    let commands = release_commands::<'a>(tenant_id, revision);
    let found = crate::tables::document::as_unfinished(revision);
    let revisions = seq![found];
    assert(revisions[0] == found);
    assert(revisions.skip(1).len() == 0);
    reveal_with_fuel(freed, 2);
    assert(lists(revisions, revision.id));
    assert(script[at + 0] == commands[0]);
    assert(script[at + 1] == commands[1]);
    assert(script[at + 2] == commands[2]);
    assert(script[at + 3] == commands[3]);
    assert(script[at + 4] == commands[4]);
    assert(course.performs(script, log, at));
    assert(course.performs(script, log, at + 1));
    assert(course.performs(script, log, at + 2));
    assert(course.performs(script, log, at + 3));
    assert(course.performs(script, log, at + 4));
    let before = course.rows[at];
    let after = course.rows[at + 5];
    assert(after.documents.revisions.dom() =~= before.documents.revisions.dom());
    assert(after.catalog.payloads.dom() =~= before.catalog.payloads.dom());
    assert(after.catalog.drives.dom() =~= before.catalog.drives.dom());
}

proof fn lemma_given_up_join(
    before: Tables,
    middle: Tables,
    after: Tables,
    revisions: Seq<UnfinishedRevision>,
)
    requires
        revisions.len() > 0,
        are_given_up(before, middle, seq![revisions[0]]),
        are_given_up(middle, after, revisions.skip(1)),
        crate::tables::document::are_distinct(revisions),
    ensures
        are_given_up(before, after, revisions),
{
    lemma_payload_states_differ();
    let head = seq![revisions[0]];
    let rest = revisions.skip(1);
    assert(head[0] == revisions[0]);
    assert(head.skip(1).len() == 0);
    reveal_with_fuel(freed, 2);
    assert forall|id: Uuid| #[trigger]
        before.documents.revisions.contains_key(id) && !lists(
            revisions,
            id,
        ) implies after.documents.revisions[id] == before.documents.revisions[id] by {
        assert(middle.documents.revisions.dom().contains(id));
        assert(middle.documents.revisions.contains_key(id));
        if lists(head, id) {
            assert(revisions[0].id == id);
        }
        if lists(rest, id) {
            let j = choose|j: int| 0 <= j < rest.len() && (#[trigger] rest[j]).id == id;
            assert(revisions[j + 1].id == id);
        }
    }
    assert forall|j: int| 0 <= j < revisions.len() implies {
        let id = (#[trigger] revisions[j]).id;
        &&& before.documents.revisions.contains_key(id)
        &&& after.documents.revisions[id].state == "failed"@
        &&& after.documents.revisions[id].payload_id == before.documents.revisions[id].payload_id
        &&& revisions[j].payload_id is Some ==> after.catalog.payload_is(
            revisions[j].payload_id->0,
            "delete_intent"@,
        )
    } by {
        let id = revisions[j].id;
        if j == 0 {
            assert(head[0].id == id);
            assert(middle.documents.revisions.dom().contains(id));
            assert(middle.documents.revisions.contains_key(id));
            if lists(rest, id) {
                let k = choose|k: int| 0 <= k < rest.len() && (#[trigger] rest[k]).id == id;
                assert(revisions[k + 1].id == id);
            }
            if revisions[j].payload_id is Some {
                assert(middle.catalog.payloads.contains_key(revisions[j].payload_id->0));
                assert(after.catalog.payloads.dom().contains(revisions[j].payload_id->0));
            }
        } else {
            assert(rest[j - 1] == revisions[j]);
            assert(middle.documents.revisions.contains_key(id));
            assert(before.documents.revisions.dom().contains(id));
            if lists(head, id) {
                assert(revisions[0].id == id);
            }
        }
    }
    assert forall|id: Uuid| #[trigger] before.catalog.payloads.contains_key(id) implies {
        ||| after.catalog.payloads[id] == before.catalog.payloads[id]
        ||| after.catalog.payloads[id] == "delete_intent"@ && (before.catalog.payloads[id]
            == "staging"@ || before.catalog.payloads[id] == "finalized"@)
    } by {
        assert(middle.catalog.payloads.dom().contains(id));
        assert(middle.catalog.payloads.contains_key(id));
    }
    assert forall|id: Uuid| #[trigger]
        before.catalog.drives.contains_key(id) implies after.catalog.drives[id] == (DriveRow {
        reserved_bytes: before.catalog.drives[id].reserved_bytes - freed(revisions, id),
        ..before.catalog.drives[id]
    }) by {
        assert(middle.catalog.drives.dom().contains(id));
        assert(middle.catalog.drives.contains_key(id));
    }
}

proof fn lemma_all_given_up<'a>(
    tenant_id: Uuid,
    revisions: Seq<UnfinishedRevision>,
    script: Seq<CommandView<'a>>,
    log: Seq<Reply>,
    course: Course,
    at: int,
    report: DocumentRevisionRetentionReport,
)
    requires
        course.follows(script, log),
        0 <= at <= log.len(),
        abandon_all::<'a>(tenant_id, revisions, log, at, report) is At,
        holds(script, at, abandon_script::<'a>(tenant_id, revisions)),
        crate::tables::document::are_distinct(revisions),
    ensures
        at + abandon_script::<'a>(tenant_id, revisions).len() <= log.len(),
        are_given_up(
            course.rows[at],
            course.rows[at + abandon_script::<'a>(tenant_id, revisions).len()],
            revisions,
        ),
    decreases revisions.len(),
{
    let commands = abandon_script::<'a>(tenant_id, revisions);
    crate::document_retention::lemma_abandon_all_asks(tenant_id, revisions, log, at, report, at);
    if revisions.len() > 0 {
        let head = abandon_commands::<'a>(tenant_id, revisions[0]);
        let rest = abandon_script::<'a>(tenant_id, revisions.skip(1));
        let round = abandon_round::<'a>(tenant_id, revisions[0], log, at, report);
        crate::document_retention::lemma_abandon_round_asks(
            tenant_id,
            revisions[0],
            log,
            at,
            report,
            at,
        );
        assert forall|k: int| 0 <= k < head.len() implies script[at + k] == #[trigger] head[k] by {
            assert(commands[k] == head[k]);
        }
        lemma_given_up_one(tenant_id, revisions[0], script, log, course, at);
        let next = at + head.len();
        assert forall|k: int| 0 <= k < rest.len() implies script[next + k]
            == #[trigger] rest[k] by {
            assert(commands[head.len() + k] == rest[k]);
        }
        lemma_all_given_up(tenant_id, revisions.skip(1), script, log, course, next, round->At_1);
        lemma_given_up_join(
            course.rows[at],
            course.rows[next],
            course.rows[next + rest.len()],
            revisions,
        );
        assert(commands.len() == head.len() + rest.len());
    } else {
        assert(abandon_script::<'a>(tenant_id, revisions).len() == 0);
    }
}

/// Ended revisions, each with its payload as one that may be missing.
pub open spec fn released(revisions: Seq<OutlivedRevision>) -> Seq<UnfinishedRevision> {
    revisions.map_values(
        |revision: OutlivedRevision| crate::tables::document::as_unfinished(revision),
    )
}

proof fn lemma_all_released<'a>(
    tenant_id: Uuid,
    revisions: Seq<OutlivedRevision>,
    script: Seq<CommandView<'a>>,
    log: Seq<Reply>,
    course: Course,
    at: int,
    report: DocumentRevisionRetentionReport,
)
    requires
        course.follows(script, log),
        0 <= at <= log.len(),
        release_all::<'a>(tenant_id, revisions, log, at, report) is At,
        holds(script, at, release_script::<'a>(tenant_id, revisions)),
        crate::tables::document::are_distinct(released(revisions)),
    ensures
        at + release_script::<'a>(tenant_id, revisions).len() <= log.len(),
        are_given_up(
            course.rows[at],
            course.rows[at + release_script::<'a>(tenant_id, revisions).len()],
            released(revisions),
        ),
    decreases revisions.len(),
{
    let commands = release_script::<'a>(tenant_id, revisions);
    crate::document_retention::lemma_release_all_asks(tenant_id, revisions, log, at, report, at);
    if revisions.len() > 0 {
        let head = release_commands::<'a>(tenant_id, revisions[0]);
        let rest = release_script::<'a>(tenant_id, revisions.skip(1));
        let round = release_round::<'a>(tenant_id, revisions[0], log, at, report);
        crate::document_retention::lemma_release_round_asks(
            tenant_id,
            revisions[0],
            log,
            at,
            report,
            at,
        );
        assert forall|k: int| 0 <= k < head.len() implies script[at + k] == #[trigger] head[k] by {
            assert(commands[k] == head[k]);
        }
        lemma_released_one(tenant_id, revisions[0], script, log, course, at);
        let next = at + head.len();
        assert forall|k: int| 0 <= k < rest.len() implies script[next + k]
            == #[trigger] rest[k] by {
            assert(commands[head.len() + k] == rest[k]);
        }
        assert(released(revisions.skip(1)) =~= released(revisions).skip(1));
        lemma_all_released(tenant_id, revisions.skip(1), script, log, course, next, round->At_1);
        lemma_given_up_join(
            course.rows[at],
            course.rows[next],
            course.rows[next + rest.len()],
            released(revisions),
        );
        assert(commands.len() == head.len() + rest.len());
    } else {
        assert(release_script::<'a>(tenant_id, revisions).len() == 0);
    }
}

/// The rows between the two parts of a sweep, where it lists the ended revisions.
pub open spec fn between(tenant_id: Uuid, log: Seq<Reply>, course: Course) -> Tables {
    course.rows[outlived_at(tenant_id, log)]
}

/// What a whole sweep does, in its two parts: it gives up what it lists first, then releases what
/// it lists second, and what it purges after that leaves revisions, sessions, participants and
/// the catalog as they are.
pub open spec fn is_swept(
    tenant_id: Uuid,
    limit: i64,
    log: Seq<Reply>,
    course: Course,
) -> bool {
    let at = outlived_at(tenant_id, log);
    let unfinished = listed_unfinished(log);
    let outlived = listed_outlived(tenant_id, log);
    let middle = between(tenant_id, log, course);
    let settled = course.rows[at + 1 + release_script(tenant_id, outlived).len()];
    &&& at < log.len()
    &&& unfinished.len() <= limit
    &&& outlived.len() <= limit
    &&& forall|j: int|
        0 <= j < unfinished.len() ==> crate::tables::document::is_unfinished(
            course.start().documents,
            (#[trigger] unfinished[j]).id,
            course.clock[1],
        ) && crate::tables::document::is_listed(unfinished[j], course.start().documents)
    &&& forall|j: int|
        0 <= j < outlived.len() ==> crate::tables::document::is_outlived(
            middle.documents,
            middle.catalog,
            (#[trigger] outlived[j]).id,
            course.clock[at],
        ) && crate::tables::document::is_listed(
            crate::tables::document::as_unfinished(outlived[j]),
            middle.documents,
        )
    &&& are_given_up(course.start(), middle, unfinished)
    &&& are_given_up(middle, settled, released(outlived))
    &&& course.end().catalog == settled.catalog
    &&& course.end().documents == (DocumentTables {
        grants: course.end().documents.grants,
        events: course.end().documents.events,
        receipts: course.end().documents.receipts,
        ..settled.documents
    })
    &&& forall|id: Uuid| #[trigger]
        course.start().documents.grants.contains_key(id) && is_kept(course.start().documents, id)
            ==> course.end().documents.grants.contains_key(id)
            && course.end().documents.grants[id] == course.start().documents.grants[id]
}

/// Whether a grant was consumed by a participant who is still present.
pub open spec fn is_kept(documents: DocumentTables, id: Uuid) -> bool {
    let grant = documents.grants[id];
    &&& grant.consumed
    &&& documents.participants.contains_key(grant.participant_id)
    &&& crate::tables::document::is_present(documents.participants[grant.participant_id].state)
}

#[verifier::rlimit(60)]
proof fn lemma_is_swept<'a>(tenant_id: Uuid, limit: i64, log: Seq<Reply>, course: Course)
    requires
        sweep::<'a>(tenant_id, limit, log) is At,
        sweep::<'a>(tenant_id, limit, log)->At_0 == log.len(),
        course.follows(sweep_script::<'a>(tenant_id, limit, log), log),
    ensures
        is_swept(tenant_id, limit, log, course),
{
    reveal(retains);
    let script = sweep_script::<'a>(tenant_id, limit, log);
    let nothing = DocumentRevisionRetentionReport::nothing();
    let unfinished = listed_unfinished(log);
    let at = outlived_at(tenant_id, log);
    let outlived = listed_outlived(tenant_id, log);
    let given_up = abandon_all::<'a>(tenant_id, unfinished, log, 2, nothing);
    crate::document_retention::sweeps_follow_their_script(tenant_id, limit, log, 0);
    assert(script[0] == CommandView::<'a>::Begin);
    assert(course.performs(script, log, 0));
    assert(course.performs(script, log, 1));
    assert(course.rows[1] == course.start());
    let abandoning = abandon_script::<'a>(tenant_id, unfinished);
    assert forall|k: int| 0 <= k < abandoning.len() implies script[2 + k]
        == #[trigger] abandoning[k] by {}
    crate::document_retention::lemma_abandon_all_asks(tenant_id, unfinished, log, 2, nothing, 2);
    lemma_all_given_up(tenant_id, unfinished, script, log, course, 2, nothing);
    assert(course.performs(script, log, at));
    let releasing = release_script::<'a>(tenant_id, outlived);
    assert forall|k: int| 0 <= k < releasing.len() implies script[at + 1 + k]
        == #[trigger] releasing[k] by {}
    assert(released(outlived) =~= outlived.map_values(
        |found: OutlivedRevision| crate::tables::document::as_unfinished(found),
    ));
    lemma_all_released(tenant_id, outlived, script, log, course, at + 1, given_up->At_1);
    let end = at + 1 + releasing.len();
    assert(course.performs(script, log, end));
    assert(course.performs(script, log, end + 1));
    assert(course.performs(script, log, end + 2));
    assert(course.performs(script, log, end + 3));
    assert(course.end() == course.rows[end + 4]);
}

proof fn lemma_unsettled_states_have_not_ended()
    ensures
        !crate::tables::document::is_ended("received"@),
        !crate::tables::document::is_ended("staging"@),
        !crate::tables::document::is_unsettled("failed"@),
        "referenced"@ != "staging"@,
        "referenced"@ != "finalized"@,
{
    reveal_strlit("received");
    reveal_strlit("staging");
    reveal_strlit("checkpoint");
    reveal_strlit("conflict");
    reveal_strlit("rejected");
    reveal_strlit("failed");
    reveal_strlit("no_op");
    reveal_strlit("referenced");
    reveal_strlit("finalized");
    assert("received"@.len() == 8 && "received"@[0] == 'r' && "received"@[2] == 'c');
    assert("staging"@.len() == 7);
    assert("checkpoint"@.len() == 10);
    assert("conflict"@.len() == 8 && "conflict"@[0] == 'c');
    assert("rejected"@.len() == 8 && "rejected"@[2] == 'j');
    assert("failed"@.len() == 6);
    assert("no_op"@.len() == 5);
    assert("referenced"@.len() == 10);
    assert("finalized"@.len() == 9);
}

/// A retention sweep leaves alone what a live session still writes: a revision that was announced
/// or is staging, whose session is open and has not run out when the sweep lists, stays as it is.
/// Each revision that it lists has failed in the end, its payload is to be deleted, and its drive
/// has exactly the reserved bytes of the listed ones back. Payloads that are referenced stay. It
/// gives up no more than its limit, and releases no more. The grants by which participants who are
/// still present have entered stay.
pub proof fn swept_rows_are_those_listed(
    tenant_id: Uuid,
    limit: i64,
    log: Seq<Reply>,
    course: Course,
)
    requires
        sweep(tenant_id, limit, log) is At,
        sweep(tenant_id, limit, log)->At_0 == log.len(),
        course.follows(sweep_script(tenant_id, limit, log), log),
    ensures
        ({
            let before = course.start();
            let after = course.end();
            let report = sweep(tenant_id, limit, log)->At_1;
            let unfinished = listed_unfinished(log);
            let outlived = released(listed_outlived(tenant_id, log));
            &&& report.received_abandoned + report.staging_abandoned == unfinished.len() <= limit
            &&& report.terminal_revisions_released == outlived.len() <= limit
            &&& forall|id: Uuid| #[trigger]
                before.documents.revisions.contains_key(id) && is_in_use(
                    before.documents,
                    id,
                    course.clock[1],
                ) ==> after.documents.revisions[id] == before.documents.revisions[id]
            &&& forall|j: int|
                0 <= j < unfinished.len() ==> after.documents.revisions[(#[trigger]
                unfinished[j]).id].state == "failed"@ && (unfinished[j].payload_id is Some
                    ==> after.catalog.payload_is(unfinished[j].payload_id->0, "delete_intent"@))
            &&& forall|j: int|
                0 <= j < outlived.len() ==> after.documents.revisions[(#[trigger]
                outlived[j]).id].state == "failed"@ && after.catalog.payload_is(
                    outlived[j].payload_id->0,
                    "delete_intent"@,
                )
            &&& forall|id: Uuid| #[trigger]
                before.catalog.drives.contains_key(id) ==> after.catalog.drives[id] == (DriveRow {
                    reserved_bytes: before.catalog.drives[id].reserved_bytes - freed(
                        unfinished,
                        id,
                    ) - freed(outlived, id),
                    ..before.catalog.drives[id]
                })
            &&& forall|id: Uuid|
                before.catalog.payload_is(id, "referenced"@)
                    ==> #[trigger] after.catalog.payload_is(id, "referenced"@)
            &&& after.documents.sessions == before.documents.sessions
            &&& after.documents.participants == before.documents.participants
            &&& forall|id: Uuid| #[trigger]
                before.documents.grants.contains_key(id) && is_kept(before.documents, id)
                    ==> after.documents.grants.contains_key(id)
        }),
{
    lemma_is_swept(tenant_id, limit, log, course);
    lemma_payload_states_differ();
    lemma_unsettled_states_have_not_ended();
    let nothing = DocumentRevisionRetentionReport::nothing();
    let at = outlived_at(tenant_id, log);
    let unfinished = listed_unfinished(log);
    let found = listed_outlived(tenant_id, log);
    let outlived = released(found);
    let middle = between(tenant_id, log, course);
    let settled = course.rows[at + 1 + release_script(tenant_id, found).len()];
    let before = course.start();
    let after = course.end();
    let given_up = abandon_all(tenant_id, unfinished, log, 2, nothing);
    crate::document_retention::lemma_abandon_all_asks(tenant_id, unfinished, log, 2, nothing, 2);
    crate::laws::swept_revisions_are_all_given_up(tenant_id, unfinished, log, 2, nothing);
    crate::laws::swept_revisions_are_all_released(tenant_id, found, log, at + 1, given_up->At_1);
    assert forall|id: Uuid| #[trigger]
        before.documents.revisions.contains_key(id) && is_in_use(
            before.documents,
            id,
            course.clock[1],
        ) implies after.documents.revisions[id] == before.documents.revisions[id] by {
        if lists(unfinished, id) {
            let j = choose|j: int| 0 <= j < unfinished.len() && (#[trigger] unfinished[j]).id == id;
        }
        assert(middle.documents.revisions.dom().contains(id));
        assert(middle.documents.revisions.contains_key(id));
        if lists(outlived, id) {
            let j = choose|j: int| 0 <= j < outlived.len() && (#[trigger] outlived[j]).id == id;
            assert(found[j].id == id);
        }
    }
    assert forall|j: int| 0 <= j < unfinished.len() implies after.documents.revisions[(#[trigger]
    unfinished[j]).id].state == "failed"@ && (unfinished[j].payload_id is Some
        ==> after.catalog.payload_is(unfinished[j].payload_id->0, "delete_intent"@)) by {
        let id = unfinished[j].id;
        assert(middle.documents.revisions.dom().contains(id));
        assert(middle.documents.revisions.contains_key(id));
        if lists(outlived, id) {
            let k = choose|k: int| 0 <= k < outlived.len() && (#[trigger] outlived[k]).id == id;
        }
        if unfinished[j].payload_id is Some {
            assert(middle.catalog.payloads.contains_key(unfinished[j].payload_id->0));
            assert(settled.catalog.payloads.dom().contains(unfinished[j].payload_id->0));
        }
    }
    assert forall|id: Uuid| #[trigger]
        before.catalog.drives.contains_key(id) implies after.catalog.drives[id] == (DriveRow {
        reserved_bytes: before.catalog.drives[id].reserved_bytes - freed(unfinished, id) - freed(
            outlived,
            id,
        ),
        ..before.catalog.drives[id]
    }) by {
        assert(middle.catalog.drives.dom().contains(id));
        assert(middle.catalog.drives.contains_key(id));
    }
    assert forall|id: Uuid|
        before.catalog.payload_is(id, "referenced"@) implies #[trigger] after.catalog.payload_is(
        id,
        "referenced"@,
    ) by {
        assert(before.catalog.payloads.contains_key(id));
        assert(middle.catalog.payloads.dom().contains(id));
        assert(middle.catalog.payloads.contains_key(id));
        assert(settled.catalog.payloads.dom().contains(id));
    }
}

/// Whether a revision is still to be written in a session that is open and has not run out.
pub open spec fn is_in_use(documents: DocumentTables, id: Uuid, now: int) -> bool {
    &&& crate::tables::document::is_unsettled(documents.revisions[id].state)
    &&& documents.sessions.contains_key(documents.revisions[id].document_session_id)
    &&& crate::tables::document::is_open(documents.session_of(id).state)
    &&& documents.session_of(id).absolute_expires_at > now
}

/// A later sweep releases nothing more for what an earlier one has given up: it lists none of
/// those revisions, so that their bytes are among none that it frees.
pub proof fn swept_revisions_are_released_once(
    tenant_id: Uuid,
    limit: i64,
    first: Seq<Reply>,
    second: Seq<Reply>,
    one: Course,
    two: Course,
    id: Uuid,
)
    requires
        sweep(tenant_id, limit, first) is At,
        sweep(tenant_id, limit, first)->At_0 == first.len(),
        one.follows(sweep_script(tenant_id, limit, first), first),
        sweep(tenant_id, limit, second) is At,
        sweep(tenant_id, limit, second)->At_0 == second.len(),
        two.follows(sweep_script(tenant_id, limit, second), second),
        two.start().documents.revisions == one.end().documents.revisions,
        two.start().catalog.payloads == one.end().catalog.payloads,
        lists(listed_unfinished(first), id) || lists(
            released(listed_outlived(tenant_id, first)),
            id,
        ),
    ensures
        !lists(listed_unfinished(second), id),
        !lists(released(listed_outlived(tenant_id, second)), id),
        two.end().documents.revisions[id] == one.end().documents.revisions[id],
{
    lemma_is_swept(tenant_id, limit, first, one);
    lemma_is_swept(tenant_id, limit, second, two);
    swept_rows_are_those_listed(tenant_id, limit, first, one);
    lemma_payload_states_differ();
    lemma_unsettled_states_have_not_ended();
    let unfinished = listed_unfinished(first);
    let found = listed_outlived(tenant_id, first);
    let outlived = released(found);
    let middle = between(tenant_id, first, one);
    let settled = one.rows[outlived_at(tenant_id, first) + 1 + release_script(
        tenant_id,
        found,
    ).len()];
    let payload_id = one.end().documents.revisions[id].payload_id;
    if lists(unfinished, id) {
        let j = choose|j: int| 0 <= j < unfinished.len() && (#[trigger] unfinished[j]).id == id;
        assert(middle.documents.revisions.dom().contains(id));
        assert(middle.documents.revisions.contains_key(id));
        if lists(outlived, id) {
            let k = choose|k: int| 0 <= k < outlived.len() && (#[trigger] outlived[k]).id == id;
        }
        assert(payload_id == unfinished[j].payload_id);
        assert(settled.documents.revisions.dom().contains(id));
    } else {
        let j = choose|j: int| 0 <= j < outlived.len() && (#[trigger] outlived[j]).id == id;
        assert(found[j].id == id);
        assert(payload_id == outlived[j].payload_id);
        assert(settled.documents.revisions.dom().contains(id));
    }
    assert(two.start().documents.revisions.contains_key(id));
    assert(two.start().documents.revisions[id].state == "failed"@);
    let later = listed_unfinished(second);
    if lists(later, id) {
        let k = choose|k: int| 0 <= k < later.len() && (#[trigger] later[k]).id == id;
    }
    let halfway = between(tenant_id, second, two);
    assert(halfway.documents.revisions[id] == two.start().documents.revisions[id]);
    let latest = listed_outlived(tenant_id, second);
    if payload_id is Some {
        assert(two.start().catalog.payloads.contains_key(payload_id->0));
        assert(halfway.catalog.payloads[payload_id->0] == "delete_intent"@);
    }
    if lists(released(latest), id) {
        let k = choose|k: int|
            0 <= k < released(latest).len() && (#[trigger] released(latest)[k]).id == id;
        assert(latest[k].id == id);
    }
    assert(halfway.documents.revisions.dom().contains(id));
    assert(halfway.documents.revisions.contains_key(id));
}

} // verus!
