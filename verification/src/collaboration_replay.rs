//! Replaying a room: the durable update groups that follow a sequence number.

use vstd::prelude::*;

use crate::collaboration::CollaborationObjectRecord;
use crate::collaboration::CollaborationUpdateChunkInput;
use crate::database::Database;
use crate::error::Fault;
use crate::id::Uuid;
use crate::progress::Progress;
use crate::progress::ProgressView;
use crate::progress::all;
use crate::progress::pass_rows;
use crate::row::FromRow;
use crate::row::Reply;
use crate::row::Row;
use crate::sql::collaboration as sql;
use crate::step::CommandView;
use crate::step::Param;
use crate::step::Step;
use crate::step::StepView;
use crate::step::stop_list;

verus! {

/// A durable group of updates: the object that holds them, the sequence numbers that they
/// cover, and where each lies in the object.
#[derive(Debug)]
pub struct CollaborationReplayGroupRecord {
    pub object: CollaborationObjectRecord,
    pub first_sequence: i64,
    pub last_sequence: i64,
    pub chunks: Vec<CollaborationUpdateChunkInput>,
}

/// What a [`CollaborationReplayGroupRecord`] holds.
#[verifier::ext_equal]
pub struct CollaborationReplayGroupRecordView {
    pub object: CollaborationObjectRecord,
    pub first_sequence: i64,
    pub last_sequence: i64,
    pub chunks: Seq<CollaborationUpdateChunkInput>,
}

impl View for CollaborationReplayGroupRecord {
    type V = CollaborationReplayGroupRecordView;

    open spec fn view(&self) -> CollaborationReplayGroupRecordView {
        CollaborationReplayGroupRecordView {
            object: self.object,
            first_sequence: self.first_sequence,
            last_sequence: self.last_sequence,
            chunks: self.chunks@,
        }
    }
}

/// A group without its chunks.
#[derive(Debug)]
pub struct ReplayedGroup {
    pub object: CollaborationObjectRecord,
    pub first_sequence: i64,
    pub last_sequence: i64,
}

impl ReplayedGroup {
    /// What a row holds, read by its column names.
    #[verifier::opaque]
    pub open spec fn of_row(row: Row) -> Result<ReplayedGroup, Fault> {
        if <CollaborationObjectRecord as FromRow>::row_spec(row) is Ok
            && row.column::<i64>("first_sequence"@) is Some
            && row.column::<i64>("last_sequence"@) is Some {
            Ok(
                ReplayedGroup {
                    object: <CollaborationObjectRecord as FromRow>::row_spec(row)->Ok_0,
                    first_sequence: row.column::<i64>("first_sequence"@)->0,
                    last_sequence: row.column::<i64>("last_sequence"@)->0,
                },
            )
        } else {
            Err(Fault::Malformed)
        }
    }
}

impl FromRow for ReplayedGroup {
    open spec fn row_spec(row: Row) -> Result<ReplayedGroup, Fault> {
        ReplayedGroup::of_row(row)
    }

    fn from_row(row: &Row) -> (r: Result<ReplayedGroup, Fault>) {
        proof {
            reveal(ReplayedGroup::of_row);
        }
        let object: CollaborationObjectRecord = match CollaborationObjectRecord::from_row(row) {
            Ok(v) => v,
            Err(_) => return Err(Fault::Malformed),
        };
        let first_sequence: i64 = match row.get("first_sequence") {
            Some(v) => v,
            None => return Err(Fault::Malformed),
        };
        let last_sequence: i64 = match row.get("last_sequence") {
            Some(v) => v,
            None => return Err(Fault::Malformed),
        };
        Ok(ReplayedGroup { object, first_sequence, last_sequence })
    }
}

impl ReplayedGroup {
    /// The group with its chunks.
    pub open spec fn with_chunks(
        self,
        chunks: Seq<CollaborationUpdateChunkInput>,
    ) -> CollaborationReplayGroupRecordView {
        CollaborationReplayGroupRecordView {
            object: self.object,
            first_sequence: self.first_sequence,
            last_sequence: self.last_sequence,
            chunks,
        }
    }
}

/// The groups of a list.
pub open spec fn group_views(groups: Seq<CollaborationReplayGroupRecord>) -> Seq<
    CollaborationReplayGroupRecordView,
> {
    groups.map_values(|group: CollaborationReplayGroupRecord| group@)
}

/// The step of an operation that returns groups.
pub open spec fn replay_view<'a>(step: Step<'a, Vec<CollaborationReplayGroupRecord>>) -> StepView<
    'a,
    Seq<CollaborationReplayGroupRecordView>,
> {
    match step {
        Step::Ask(command) => StepView::Ask(command@),
        Step::Done(groups) => StepView::Done(group_views(groups@)),
        Step::Fail(error) => StepView::Fail(error),
        Step::Malformed => StepView::Malformed,
    }
}

/// The statement that returns a group's chunks.
pub open spec fn chunk_query<'a>(
    tenant_id: Uuid,
    room_id: Uuid,
    epoch: i64,
    object_id: Uuid,
) -> CommandView<'a> {
    CommandView::all(
        sql::REPLAY_GROUPS_SELECT_UPDATE_GROUPS_2,
        seq![Param::Id(tenant_id), Param::Id(room_id), Param::I64(epoch), Param::Id(object_id)],
    )
}

/// Reads the chunks of each group in turn.
pub open spec fn read_chunks<'a>(
    tenant_id: Uuid,
    room_id: Uuid,
    epoch: i64,
    groups: Seq<ReplayedGroup>,
    log: Seq<Reply>,
    at: int,
    read: Seq<CollaborationReplayGroupRecordView>,
) -> ProgressView<'a, Seq<CollaborationReplayGroupRecordView>>
    decreases groups.len(),
{
    if groups.len() == 0 {
        ProgressView::At(at, read)
    } else {
        match crate::progress::after_rows::<CollaborationUpdateChunkInput>(
            log,
            at,
            chunk_query(tenant_id, room_id, epoch, groups[0].object.id),
        ) {
            ProgressView::At(at, chunks) => read_chunks(
                tenant_id,
                room_id,
                epoch,
                groups.skip(1),
                log,
                at,
                read.push(groups[0].with_chunks(chunks)),
            ),
            ProgressView::Ask(command) => ProgressView::Ask(command),
            ProgressView::Stop(fault) => ProgressView::Stop(fault),
        }
    }
}

impl Database {
    /// What [`Database::collaboration_replay_groups`] does next: it lists the groups after the
    /// sequence number, then asks for the chunks of each, and returns the groups in that order.
    pub open spec fn collaboration_replay_groups_step<'a>(
        tenant_id: Uuid,
        room_id: Uuid,
        epoch: i64,
        after_sequence: i64,
        log: Seq<Reply>,
    ) -> StepView<'a, Seq<CollaborationReplayGroupRecordView>> {
        crate::progress::after_rows::<ReplayedGroup>(
            log,
            0,
            CommandView::all(
                sql::REPLAY_GROUPS_SELECT_UPDATE_GROUPS,
                seq![
                    Param::Id(tenant_id),
                    Param::Id(room_id),
                    Param::I64(epoch),
                    Param::I64(after_sequence),
                ],
            ),
        ).next(
            |at: int, groups: Seq<ReplayedGroup>|
            read_chunks(tenant_id, room_id, epoch, groups, log, at, Seq::empty()),
        ).next_step()
    }

    /// The durable groups of an epoch that end after a sequence number, in order, each with its
    /// chunks.
    pub fn collaboration_replay_groups<'a>(
        tenant_id: Uuid,
        room_id: Uuid,
        epoch: i64,
        after_sequence: i64,
        log: &'a [Reply],
    ) -> (step: Step<'a, Vec<CollaborationReplayGroupRecord>>)
        ensures
            replay_view(step) == Self::collaboration_replay_groups_step(
                tenant_id,
                room_id,
                epoch,
                after_sequence,
                log@,
            ),
    {
        let command = all(
            sql::REPLAY_GROUPS_SELECT_UPDATE_GROUPS,
            vec![
                Param::Id(tenant_id),
                Param::Id(room_id),
                Param::I64(epoch),
                Param::I64(after_sequence),
            ],
        );
        let mut at: usize = 1;
        let mut rest: Vec<ReplayedGroup> = match pass_rows::<ReplayedGroup>(log, 0, command) {
            Progress::At(_, groups) => groups,
            Progress::Ask(command) => return Step::Ask(command),
            Progress::Stop(fault) => return stop_list(fault),
        };
        let ghost groups = rest@;
        let mut read: Vec<CollaborationReplayGroupRecord> = Vec::new();
        proof {
            assert(group_views(read@) =~= Seq::empty());
        }
        while rest.len() > 0
            invariant
                Self::collaboration_replay_groups_step(
                    tenant_id,
                    room_id,
                    epoch,
                    after_sequence,
                    log@,
                ) == read_chunks(
                    tenant_id,
                    room_id,
                    epoch,
                    rest@,
                    log@,
                    at as int,
                    group_views(read@),
                ).next_step(),
            decreases rest@.len(),
        {
            let ghost before = rest@;
            let group: ReplayedGroup = rest.remove(0);
            proof {
                assert(rest@ =~= before.skip(1));
            }
            let command = all(
                sql::REPLAY_GROUPS_SELECT_UPDATE_GROUPS_2,
                vec![
                    Param::Id(tenant_id),
                    Param::Id(room_id),
                    Param::I64(epoch),
                    Param::Id(group.object.id),
                ],
            );
            match pass_rows::<CollaborationUpdateChunkInput>(log, at, command) {
                Progress::At(later, chunks) => {
                    let ghost so_far = read@;
                    at = later;
                    read.push(
                        CollaborationReplayGroupRecord {
                            object: group.object,
                            first_sequence: group.first_sequence,
                            last_sequence: group.last_sequence,
                            chunks,
                        },
                    );
                    proof {
                        assert(group_views(read@) =~= group_views(so_far).push(
                            group.with_chunks(chunks@),
                        ));
                    }
                },
                Progress::Ask(command) => return Step::Ask(command),
                Progress::Stop(fault) => return stop_list(fault),
            }
        }
        Step::Done(read)
    }
}

/// Every group is returned once, in the order in which the groups were listed, with the chunks
/// that were read for it.
pub proof fn replay_keeps_every_group(
    tenant_id: Uuid,
    room_id: Uuid,
    epoch: i64,
    groups: Seq<ReplayedGroup>,
    log: Seq<Reply>,
    at: int,
    read: Seq<CollaborationReplayGroupRecordView>,
)
    ensures
        read_chunks(tenant_id, room_id, epoch, groups, log, at, read) matches ProgressView::At(
            end,
            all_read,
        ) ==> {
            &&& end == at + groups.len()
            &&& all_read.len() == read.len() + groups.len()
            &&& forall|i: int|
                0 <= i < read.len() ==> #[trigger] all_read[i] == read[i]
            &&& forall|i: int|
                #![trigger groups[i]]
                0 <= i < groups.len() ==> {
                    &&& log[at + i].all_rows::<CollaborationUpdateChunkInput>() is Ok
                    &&& all_read[read.len() + i] == groups[i].with_chunks(
                        log[at + i].all_rows::<CollaborationUpdateChunkInput>()->Ok_0,
                    )
                }
        },
    decreases groups.len(),
{
    if groups.len() > 0 {
        match crate::progress::after_rows::<CollaborationUpdateChunkInput>(
            log,
            at,
            chunk_query(tenant_id, room_id, epoch, groups[0].object.id),
        ) {
            ProgressView::At(next, chunks) => {
                let more = read.push(groups[0].with_chunks(chunks));
                replay_keeps_every_group(
                    tenant_id,
                    room_id,
                    epoch,
                    groups.skip(1),
                    log,
                    next,
                    more,
                );
                if read_chunks(
                    tenant_id,
                    room_id,
                    epoch,
                    groups.skip(1),
                    log,
                    next,
                    more,
                ) is At {
                    let all_read = read_chunks(
                        tenant_id,
                        room_id,
                        epoch,
                        groups.skip(1),
                        log,
                        next,
                        more,
                    )->At_1;
                    assert(all_read[read.len() as int] == more[read.len() as int]);
                    assert forall|i: int| 0 <= i < read.len() implies #[trigger] all_read[i]
                        == read[i] by {
                        assert(more[i] == read[i]);
                    }
                    assert forall|i: int|
                        #![trigger groups[i]]
                        0 <= i < groups.len() implies {
                        &&& log[at + i].all_rows::<CollaborationUpdateChunkInput>() is Ok
                        &&& all_read[read.len() + i] == groups[i].with_chunks(
                            log[at + i].all_rows::<CollaborationUpdateChunkInput>()->Ok_0,
                        )
                    } by {
                        if i > 0 {
                            assert(groups.skip(1)[i - 1] == groups[i]);
                        }
                    }
                }
            },
            _ => {},
        }
    }
}

proof fn lemma_read_chunks_is_scoped(
    tenant_id: Uuid,
    room_id: Uuid,
    epoch: i64,
    groups: Seq<ReplayedGroup>,
    log: Seq<Reply>,
    at: int,
    read: Seq<CollaborationReplayGroupRecordView>,
)
    ensures
        read_chunks(tenant_id, room_id, epoch, groups, log, at, read) matches ProgressView::Ask(
            command,
        ) ==> crate::step::binds_tenant(command, tenant_id),
    decreases groups.len(),
{
    if groups.len() > 0 {
        let chunks = log[at].all_rows::<CollaborationUpdateChunkInput>()->Ok_0;
        lemma_read_chunks_is_scoped(
            tenant_id,
            room_id,
            epoch,
            groups.skip(1),
            log,
            at + 1,
            read.push(groups[0].with_chunks(chunks)),
        );
    }
}

/// Every statement of a replay is about its tenant.
pub proof fn replays_are_scoped(
    tenant_id: Uuid,
    room_id: Uuid,
    epoch: i64,
    after_sequence: i64,
    log: Seq<Reply>,
)
    ensures
        Database::collaboration_replay_groups_step(
            tenant_id,
            room_id,
            epoch,
            after_sequence,
            log,
        ) matches StepView::Ask(command) ==> crate::step::binds_tenant(command, tenant_id),
{
    let groups = log[0].all_rows::<ReplayedGroup>()->Ok_0;
    lemma_read_chunks_is_scoped(tenant_id, room_id, epoch, groups, log, 1, Seq::empty());
}

} // verus!
