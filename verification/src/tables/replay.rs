//! The rows behind the replay of a room, and the law that it returns what was made durable.

use vstd::prelude::*;

use crate::collaboration::CollaborationUpdateChunkInput;
use crate::collaboration_replay::chunk_query;
use crate::collaboration_replay::read_chunks;
use crate::collaboration_replay::CollaborationReplayGroupRecordView;
use crate::collaboration_replay::ReplayedGroup;
use crate::database::Database;
use crate::id::Uuid;
use crate::progress::ProgressView;
use crate::row::Reply;
use crate::row::Row;
use crate::sql::collaboration as sql;
use crate::step::Param;
use crate::tables::access::lemma_rows_are_read;
use crate::tables::collaboration::RoomTables;
use crate::tables::collaboration::UpdateGroup;
use crate::tables::collaboration::UpdatePlace;
use crate::tables::has;
use crate::tables::has_bytes;
use crate::tables::performed;
use crate::tables::Course;
use crate::tables::Tables;

verus! {

/// Whether a group is replayed after a sequence number: its object is durable.
pub open spec fn is_replayable(
    rooms: RoomTables,
    group: Uuid,
    room_id: Uuid,
    epoch: i64,
    after_sequence: i64,
) -> bool {
    let row = rooms.groups[group];
    let object = rooms.objects[row.object_id];
    &&& rooms.groups.contains_key(group)
    &&& row.room_id == room_id
    &&& row.epoch == epoch
    &&& row.last_sequence > after_sequence
    &&& rooms.objects.contains_key(row.object_id)
    &&& object.state == "durable"@
    &&& rooms.epochs.contains_key((object.room_id, object.epoch))
    &&& rooms.payloads.contains_key(object.payload_id)
}

/// Whether a row of a reply is of a group.
pub open spec fn is_replayed(row: Row, rooms: RoomTables, group: Uuid) -> bool {
    &&& has::<Uuid>(row, "id"@, rooms.groups[group].object_id)
    &&& has::<i64>(row, "first_sequence"@, rooms.groups[group].first_sequence)
    &&& has::<i64>(row, "last_sequence"@, rooms.groups[group].last_sequence)
}

/// Whether a chunk is of a group that is made of an object.
pub open spec fn is_chunk_of(
    rooms: RoomTables,
    key: (Uuid, i32),
    room_id: Uuid,
    epoch: i64,
    object_id: Uuid,
) -> bool {
    &&& rooms.chunks.contains_key(key)
    &&& rooms.groups.contains_key(key.0)
    &&& rooms.groups[key.0].room_id == room_id
    &&& rooms.groups[key.0].epoch == epoch
    &&& rooms.groups[key.0].object_id == object_id
}

/// Whether rows of a reply are the chunks under some keys, in the order of their indices.
pub open spec fn are_chunks(
    rows: Seq<Row>,
    rooms: RoomTables,
    keys: Seq<(Uuid, i32)>,
    room_id: Uuid,
    epoch: i64,
    object_id: Uuid,
) -> bool {
    &&& keys.len() == rows.len()
    &&& keys.no_duplicates()
    &&& forall|key: (Uuid, i32)|
        keys.contains(key) <==> #[trigger] is_chunk_of(rooms, key, room_id, epoch, object_id)
    &&& forall|i: int, j: int| 0 <= i < j < keys.len() ==> keys[i].1 <= keys[j].1
    &&& forall|i: int|
        0 <= i < keys.len() ==> {
            &&& has::<i32>(#[trigger] rows[i], "chunk_index"@, keys[i].1)
            &&& has::<i64>(rows[i], "object_offset"@, rooms.chunks[keys[i]].object_offset)
            &&& has::<i32>(rows[i], "size_bytes"@, rooms.chunks[keys[i]].size_bytes)
            &&& has_bytes(rows[i], "blake3"@, rooms.chunks[keys[i]].blake3)
        }
}

/// What the statements of a replay do.
#[verifier::opaque]
pub open spec fn means<'a>(
    sql: &'static str,
    params: Seq<Param<'a>>,
    reply: Reply,
    now: int,
    before: Tables,
    after: Tables,
) -> bool {
    let rooms = before.rooms;
    let room_id = params[1]->Id_0;
    let epoch = params[2]->I64_0;
    &&& sql == sql::REPLAY_GROUPS_SELECT_UPDATE_GROUPS ==> {
        let after_sequence = params[3]->I64_0;
        let rows = reply->Rows_0@;
        &&& after == before
        &&& reply is Rows
        &&& forall|i: int|
            0 <= i < rows.len() ==> exists|group: Uuid| #[trigger]
                is_replayable(rooms, group, room_id, epoch, after_sequence) && is_replayed(
                    #[trigger] rows[i],
                    rooms,
                    group,
                )
        &&& forall|group: Uuid| #[trigger]
            is_replayable(rooms, group, room_id, epoch, after_sequence) ==> exists|i: int|
                0 <= i < rows.len() && is_replayed(#[trigger] rows[i], rooms, group)
    }
    &&& sql == sql::REPLAY_GROUPS_SELECT_UPDATE_GROUPS_2 ==> {
        &&& after == before
        &&& reply is Rows
        &&& exists|keys: Seq<(Uuid, i32)>| #[trigger]
            are_chunks(reply->Rows_0@, rooms, keys, room_id, epoch, params[3]->Id_0)
    }
}

/// Whether a replay is answered from rows: each command that it asks for is performed on them.
pub open spec fn is_answered(
    tenant_id: Uuid,
    room_id: Uuid,
    epoch: i64,
    after_sequence: i64,
    log: Seq<Reply>,
    rooms: RoomTables,
    course: Course,
) -> bool {
    &&& course.start().rooms == rooms
    &&& forall|i: int|
        0 <= i < log.len() ==> {
            let step = Database::collaboration_replay_groups_step(
                tenant_id,
                room_id,
                epoch,
                after_sequence,
                #[trigger] log.take(i),
            );
            &&& step is Ask
            &&& performed(
                step->Ask_0,
                log[i],
                course.clock[i],
                course.rows[i],
                course.rows[i + 1],
            )
        }
}

/// Whether chunks are those that were submitted, one for one.
pub open spec fn are_submitted(
    found: Seq<CollaborationUpdateChunkInput>,
    chunks: Seq<CollaborationUpdateChunkInput>,
) -> bool {
    &&& found.len() == chunks.len()
    &&& forall|j: int|
        0 <= j < chunks.len() ==> {
            &&& (#[trigger] found[j]).chunk_index == chunks[j].chunk_index
            &&& found[j].object_offset == chunks[j].object_offset
            &&& found[j].size_bytes == chunks[j].size_bytes
            &&& found[j].blake3@ == chunks[j].blake3@
        }
}

/// Whether chunks tile an object of some size: the first begins at 0, each ends where the next
/// begins, and the last ends with the object.
pub open spec fn do_tile(chunks: Seq<CollaborationUpdateChunkInput>, size_bytes: int) -> bool {
    &&& chunks.len() > 0
    &&& chunks[0].object_offset == 0
    &&& forall|j: int|
        0 < j < chunks.len() ==> (#[trigger] chunks[j]).object_offset == chunks[j
            - 1].object_offset + chunks[j - 1].size_bytes
    &&& chunks.last().object_offset + chunks.last().size_bytes == size_bytes
}

proof fn lemma_keys_are_indices(keys: Seq<(Uuid, i32)>, group: Uuid, count: int, at: int)
    requires
        keys.no_duplicates(),
        0 <= count <= i32::MAX,
        forall|key: (Uuid, i32)| #[trigger]
            keys.contains(key) <==> key.0 == group && 0 <= key.1 < count,
        forall|i: int, j: int| 0 <= i < j < keys.len() ==> keys[i].1 <= keys[j].1,
        0 <= at < keys.len(),
    ensures
        keys[at] == (group, at as i32),
        at < count,
        at + 1 == keys.len() ==> keys.len() == count,
    decreases at,
{
    assert(keys.contains(keys[at]));
    if at > 0 {
        lemma_keys_are_indices(keys, group, count, at - 1);
        assert(keys[at - 1] != keys[at]);
        assert(keys[at - 1].1 < keys[at].1);
    }
    let value = at as i32;
    assert(at <= keys[at].1);
    assert(keys.contains((group, value)));
    let p = choose|p: int| 0 <= p < keys.len() && keys[p] == (group, value);
    if p < at {
        lemma_keys_are_indices(keys, group, count, p);
    } else if p > at {
        assert(keys[at].1 <= keys[p].1);
        assert(keys[at] != keys[p]);
    }
    if at + 1 == keys.len() && keys.len() < count {
        let next = (at + 1) as i32;
        assert(keys.contains((group, next)));
        let q = choose|q: int| 0 <= q < keys.len() && keys[q] == (group, next);
        assert(q <= at);
        if q < at {
            lemma_keys_are_indices(keys, group, count, q);
        }
    }
}

proof fn lemma_chunks_are_asked_for(
    tenant_id: Uuid,
    room_id: Uuid,
    epoch: i64,
    groups: Seq<ReplayedGroup>,
    log: Seq<Reply>,
    at: int,
    read: Seq<CollaborationReplayGroupRecordView>,
    place: int,
)
    requires
        read_chunks(tenant_id, room_id, epoch, groups, log, at, read) is At,
        0 <= at,
        0 <= place < groups.len(),
    ensures
        at + place < log.len(),
        read_chunks(tenant_id, room_id, epoch, groups, log.take(at + place), at, read)
            == ProgressView::<Seq<CollaborationReplayGroupRecordView>>::Ask(
            chunk_query(tenant_id, room_id, epoch, groups[place].object.id),
        ),
    decreases place,
{
    if place > 0 {
        let chunks = log[at].all_rows::<CollaborationUpdateChunkInput>()->Ok_0;
        lemma_chunks_are_asked_for(
            tenant_id,
            room_id,
            epoch,
            groups.skip(1),
            log,
            at + 1,
            read.push(groups[0].with_chunks(chunks)),
            place - 1,
        );
        assert(groups.skip(1)[place - 1] == groups[place]);
        assert(log.take(at + place)[at] == log[at]);
    }
}

/// The reply to the query for a group's chunks, where the group is the only one of its object.
proof fn lemma_chunks_are_returned<'a>(
    update: UpdateGroup<'a>,
    rooms: RoomTables,
    room_id: Uuid,
    epoch: i64,
    group: Uuid,
    reply: Reply,
)
    requires
        reply is Rows,
        reply.all_rows::<CollaborationUpdateChunkInput>() is Ok,
        exists|keys: Seq<(Uuid, i32)>| #[trigger]
            are_chunks(reply->Rows_0@, rooms, keys, room_id, epoch, update.object_id),
        crate::collaboration::chunks_make_a_group(update.chunks@),
        forall|key: (Uuid, i32)| #[trigger]
            is_chunk_of(rooms, key, room_id, epoch, update.object_id) <==> key.0 == group && 0
                <= key.1 < update.chunks@.len(),
        forall|j: int|
            0 <= j < update.chunks@.len() ==> {
                let row = rooms.chunks[(group, j as i32)];
                let chunk = #[trigger] update.chunks@[j];
                &&& row.object_offset == chunk.object_offset
                &&& row.size_bytes == chunk.size_bytes
                &&& row.blake3 == chunk.blake3@
            },
    ensures
        are_submitted(reply.all_rows::<CollaborationUpdateChunkInput>()->Ok_0, update.chunks@),
{
    reveal(CollaborationUpdateChunkInput::of_row);
    let rows = reply->Rows_0@;
    let chunks = update.chunks@;
    let count = chunks.len() as int;
    let found = reply.all_rows::<CollaborationUpdateChunkInput>()->Ok_0;
    let keys = choose|keys: Seq<(Uuid, i32)>| #[trigger]
        are_chunks(rows, rooms, keys, room_id, epoch, update.object_id);
    lemma_rows_are_read::<CollaborationUpdateChunkInput>(rows);
    assert forall|key: (Uuid, i32)| #[trigger] keys.contains(key) <==> key.0 == group && 0
        <= key.1 < count by {
        assert(keys.contains(key) <==> is_chunk_of(rooms, key, room_id, epoch, update.object_id));
    }
    assert(keys.contains((group, 0)));
    lemma_keys_are_indices(keys, group, count, keys.len() - 1);
    assert forall|j: int| 0 <= j < count implies {
        &&& (#[trigger] found[j]).chunk_index == chunks[j].chunk_index
        &&& found[j].object_offset == chunks[j].object_offset
        &&& found[j].size_bytes == chunks[j].size_bytes
        &&& found[j].blake3@ == chunks[j].blake3@
    } by {
        lemma_keys_are_indices(keys, group, count, j);
        assert(<CollaborationUpdateChunkInput as crate::row::FromRow>::row_spec(rows[j]) is Ok);
        assert(chunks[j].chunk_index == j);
    }
}

/// A replay returns an update as it was made durable: after the first call with an update, a replay
/// of the epoch from before it lists the update's object, with the sequence number that the call
/// returned and the very chunks that were submitted, which tile the object. Every chunk that stood
/// there was of a group, and no group was made of that object yet; the object keeps its payload.
pub proof fn replays_return_what_was_submitted<'a>(
    place: UpdatePlace,
    update: UpdateGroup<'a>,
    after_sequence: i64,
    first: Seq<Reply>,
    log: Seq<Reply>,
    one: Course,
    two: Course,
)
    requires
        crate::step::is_done(update.fault(first), update.script(place, first), first),
        one.follows(update.script(place, first), first),
        forall|id: Uuid| !(#[trigger] place.holds(one.start().rooms, id)),
        forall|key: (Uuid, i32)| #[trigger]
            one.start().rooms.chunks.contains_key(key) ==> one.start().rooms.groups.contains_key(
                key.0,
            ),
        forall|id: Uuid| #[trigger]
            one.start().rooms.groups.contains_key(id) ==> one.start().rooms.groups[id].object_id
                != update.object_id,
        one.start().rooms.payloads.contains_key(
            one.start().rooms.objects[update.object_id].payload_id,
        ),
        after_sequence < update.output(first).2,
        is_answered(
            place.tenant_id,
            place.room_id,
            place.epoch,
            after_sequence,
            log,
            one.end().rooms,
            two,
        ),
        Database::collaboration_replay_groups_step(
            place.tenant_id,
            place.room_id,
            place.epoch,
            after_sequence,
            log,
        ) is Done,
    ensures
        ({
            let out = Database::collaboration_replay_groups_step(
                place.tenant_id,
                place.room_id,
                place.epoch,
                after_sequence,
                log,
            )->Done_0;
            let sequence = update.output(first).2;
            &&& exists|i: int|
                0 <= i < out.len() && (#[trigger] out[i]).object.id == update.object_id
            &&& forall|i: int|
                0 <= i < out.len() && (#[trigger] out[i]).object.id == update.object_id ==> {
                    &&& out[i].first_sequence == sequence
                    &&& out[i].last_sequence == sequence
                    &&& are_submitted(out[i].chunks, update.chunks@)
                    &&& do_tile(
                        out[i].chunks,
                        crate::collaboration::bytes_before(
                            update.chunks@,
                            update.chunks@.len() as int,
                        ),
                    )
                }
        }),
{
    let id = crate::tables::collaboration::lemma_first_update(place, update, first, one);
    let before = one.start().rooms;
    let rooms = one.end().rooms;
    assert(rooms.chunks == crate::tables::collaboration::laid(
        before.chunks,
        id,
        update.chunks@,
        update.chunks@.len() as int,
    ));
    assert forall|key: (Uuid, i32)| #[trigger]
        is_chunk_of(
            rooms,
            key,
            place.room_id,
            place.epoch,
            update.object_id,
        ) <==> key.0 == id && 0 <= key.1 < update.chunks@.len() by {
        if before.chunks.contains_key(key) {
            assert(before.groups.contains_key(key.0));
        }
    }
    assert forall|group: Uuid| #[trigger]
        rooms.groups.contains_key(group) && rooms.groups[group].object_id
            == update.object_id implies group == id by {
        if group != id {
            assert(before.groups.contains_key(group));
        }
    }
    lemma_update_is_replayed(
        place,
        update,
        rooms,
        id,
        update.output(first).2,
        after_sequence,
        log,
        two,
    );
}

#[verifier::rlimit(40)]
proof fn lemma_update_is_replayed<'a>(
    place: UpdatePlace,
    update: UpdateGroup<'a>,
    rooms: RoomTables,
    id: Uuid,
    sequence: i64,
    after_sequence: i64,
    log: Seq<Reply>,
    two: Course,
)
    requires
        crate::collaboration::chunks_make_a_group(update.chunks@),
        rooms.groups[id] == update.row(place, sequence),
        is_replayable(rooms, id, place.room_id, place.epoch, after_sequence),
        forall|group: Uuid| #[trigger]
            rooms.groups.contains_key(group) && rooms.groups[group].object_id == update.object_id
                ==> group == id,
        forall|key: (Uuid, i32)| #[trigger]
            is_chunk_of(
                rooms,
                key,
                place.room_id,
                place.epoch,
                update.object_id,
            ) <==> key.0 == id && 0 <= key.1 < update.chunks@.len(),
        forall|j: int|
            0 <= j < update.chunks@.len() ==> {
                let row = rooms.chunks[(id, j as i32)];
                let chunk = #[trigger] update.chunks@[j];
                &&& row.object_offset == chunk.object_offset
                &&& row.size_bytes == chunk.size_bytes
                &&& row.blake3 == chunk.blake3@
            },
        is_answered(place.tenant_id, place.room_id, place.epoch, after_sequence, log, rooms, two),
        Database::collaboration_replay_groups_step(
            place.tenant_id,
            place.room_id,
            place.epoch,
            after_sequence,
            log,
        ) is Done,
    ensures
        ({
            let out = Database::collaboration_replay_groups_step(
                place.tenant_id,
                place.room_id,
                place.epoch,
                after_sequence,
                log,
            )->Done_0;
            &&& exists|i: int|
                0 <= i < out.len() && (#[trigger] out[i]).object.id == update.object_id
            &&& forall|i: int|
                0 <= i < out.len() && (#[trigger] out[i]).object.id == update.object_id ==> {
                    &&& out[i].first_sequence == sequence
                    &&& out[i].last_sequence == sequence
                    &&& are_submitted(out[i].chunks, update.chunks@)
                    &&& do_tile(
                        out[i].chunks,
                        crate::collaboration::bytes_before(
                            update.chunks@,
                            update.chunks@.len() as int,
                        ),
                    )
                }
        }),
{
    let groups = log[0].all_rows::<ReplayedGroup>()->Ok_0;
    let rows = log[0]->Rows_0@;
    let out = Database::collaboration_replay_groups_step(
        place.tenant_id,
        place.room_id,
        place.epoch,
        after_sequence,
        log,
    )->Done_0;
    crate::collaboration_replay::replay_keeps_every_group(
        place.tenant_id,
        place.room_id,
        place.epoch,
        groups,
        log,
        1,
        Seq::empty(),
    );
    lemma_groups_are_listed(place, after_sequence, log, rooms, two);
    lemma_rows_are_read::<ReplayedGroup>(rows);
    let at = choose|i: int| 0 <= i < rows.len() && is_replayed(#[trigger] rows[i], rooms, id);
    lemma_group_is_read(rows, groups, rooms, id, at);
    assert(out[at].object.id == update.object_id);
    assert forall|i: int|
        0 <= i < out.len() && (#[trigger] out[i]).object.id == update.object_id implies {
        &&& out[i].first_sequence == sequence
        &&& out[i].last_sequence == sequence
        &&& are_submitted(out[i].chunks, update.chunks@)
        &&& do_tile(
            out[i].chunks,
            crate::collaboration::bytes_before(update.chunks@, update.chunks@.len() as int),
        )
    } by {
        lemma_group_is_replayed(place, update, rooms, id, sequence, after_sequence, log, two, i);
    }
}

#[verifier::rlimit(60)]
#[verifier::spinoff_prover]
proof fn lemma_group_is_replayed<'a>(
    place: UpdatePlace,
    update: UpdateGroup<'a>,
    rooms: RoomTables,
    id: Uuid,
    sequence: i64,
    after_sequence: i64,
    log: Seq<Reply>,
    two: Course,
    i: int,
)
    requires
        crate::collaboration::chunks_make_a_group(update.chunks@),
        rooms.groups[id] == update.row(place, sequence),
        is_replayable(rooms, id, place.room_id, place.epoch, after_sequence),
        forall|group: Uuid| #[trigger]
            rooms.groups.contains_key(group) && rooms.groups[group].object_id == update.object_id
                ==> group == id,
        forall|key: (Uuid, i32)| #[trigger]
            is_chunk_of(
                rooms,
                key,
                place.room_id,
                place.epoch,
                update.object_id,
            ) <==> key.0 == id && 0 <= key.1 < update.chunks@.len(),
        forall|j: int|
            0 <= j < update.chunks@.len() ==> {
                let row = rooms.chunks[(id, j as i32)];
                let chunk = #[trigger] update.chunks@[j];
                &&& row.object_offset == chunk.object_offset
                &&& row.size_bytes == chunk.size_bytes
                &&& row.blake3 == chunk.blake3@
            },
        is_answered(place.tenant_id, place.room_id, place.epoch, after_sequence, log, rooms, two),
        Database::collaboration_replay_groups_step(
            place.tenant_id,
            place.room_id,
            place.epoch,
            after_sequence,
            log,
        ) is Done,
        ({
            let out = Database::collaboration_replay_groups_step(
                place.tenant_id,
                place.room_id,
                place.epoch,
                after_sequence,
                log,
            )->Done_0;
            0 <= i < out.len() && out[i].object.id == update.object_id
        }),
    ensures
        ({
            let out = Database::collaboration_replay_groups_step(
                place.tenant_id,
                place.room_id,
                place.epoch,
                after_sequence,
                log,
            )->Done_0;
            &&& out[i].first_sequence == sequence
            &&& out[i].last_sequence == sequence
            &&& are_submitted(out[i].chunks, update.chunks@)
            &&& do_tile(
                out[i].chunks,
                crate::collaboration::bytes_before(update.chunks@, update.chunks@.len() as int),
            )
        }),
{
    let groups = log[0].all_rows::<ReplayedGroup>()->Ok_0;
    let rows = log[0]->Rows_0@;
    let out = Database::collaboration_replay_groups_step(
        place.tenant_id,
        place.room_id,
        place.epoch,
        after_sequence,
        log,
    )->Done_0;
    crate::collaboration_replay::replay_keeps_every_group(
        place.tenant_id,
        place.room_id,
        place.epoch,
        groups,
        log,
        1,
        Seq::empty(),
    );
    lemma_groups_are_listed(place, after_sequence, log, rooms, two);
    lemma_rows_are_read::<ReplayedGroup>(rows);
    lemma_rest_is_unchanged(place, after_sequence, log, rooms, two, groups.len() as int);
    assert(out[i] == groups[i].with_chunks(
        log[1 + i].all_rows::<CollaborationUpdateChunkInput>()->Ok_0,
    ));
    assert(is_replayed(rows[i], rooms, listed(rows[i], rooms, place, after_sequence)));
    let group = listed(rows[i], rooms, place, after_sequence);
    lemma_group_is_read(rows, groups, rooms, group, i);
    assert(group == id);
    lemma_chunks_are_asked_for(
        place.tenant_id,
        place.room_id,
        place.epoch,
        groups,
        log,
        1,
        Seq::empty(),
        i,
    );
    assert(log.take(1 + i)[0] == log[0]);
    assert(two.rows[1 + i].rooms == rooms);
    reveal(means);
    lemma_chunks_are_returned(update, rooms, place.room_id, place.epoch, id, log[1 + i]);
    lemma_submitted_chunks_tile(out[i].chunks, update.chunks@);
}

/// The group that a row of a replay is read from.
spec fn listed(row: Row, rooms: RoomTables, place: UpdatePlace, after_sequence: i64) -> Uuid {
    choose|group: Uuid| #[trigger]
        is_replayable(rooms, group, place.room_id, place.epoch, after_sequence) && is_replayed(
            row,
            rooms,
            group,
        )
}

proof fn lemma_groups_are_listed(
    place: UpdatePlace,
    after_sequence: i64,
    log: Seq<Reply>,
    rooms: RoomTables,
    two: Course,
)
    requires
        is_answered(place.tenant_id, place.room_id, place.epoch, after_sequence, log, rooms, two),
        Database::collaboration_replay_groups_step(
            place.tenant_id,
            place.room_id,
            place.epoch,
            after_sequence,
            log,
        ) is Done,
    ensures
        log[0] is Rows,
        ({
            let rows = log[0]->Rows_0@;
            &&& forall|i: int|
                0 <= i < rows.len() ==> {
                    let group = listed(#[trigger] rows[i], rooms, place, after_sequence);
                    &&& is_replayable(rooms, group, place.room_id, place.epoch, after_sequence)
                    &&& is_replayed(rows[i], rooms, group)
                }
            &&& forall|group: Uuid| #[trigger]
                is_replayable(rooms, group, place.room_id, place.epoch, after_sequence)
                    ==> exists|i: int|
                    0 <= i < rows.len() && is_replayed(#[trigger] rows[i], rooms, group)
        }),
{
    reveal(means);
    assert(log.take(0).len() == 0);
    assert(two.rows[1] == two.rows[0]);
}

proof fn lemma_submitted_chunks_tile(
    found: Seq<CollaborationUpdateChunkInput>,
    chunks: Seq<CollaborationUpdateChunkInput>,
)
    requires
        are_submitted(found, chunks),
        crate::collaboration::chunks_make_a_group(chunks),
    ensures
        do_tile(found, crate::collaboration::bytes_before(chunks, chunks.len() as int)),
{
    assert(found[0].object_offset == chunks[0].object_offset);
    assert forall|j: int| 0 < j < found.len() implies (#[trigger] found[j]).object_offset
        == found[j - 1].object_offset + found[j - 1].size_bytes by {
        assert(chunks[j].chunk_index == j);
        assert(chunks[j - 1].chunk_index == j - 1);
        assert(found[j - 1].object_offset == chunks[j - 1].object_offset);
    }
    let last = found.len() - 1;
    assert(chunks[last].chunk_index == last);
    assert(found[last].object_offset == chunks[last].object_offset);
}

proof fn lemma_group_is_read(
    rows: Seq<Row>,
    groups: Seq<ReplayedGroup>,
    rooms: RoomTables,
    group: Uuid,
    at: int,
)
    requires
        0 <= at < rows.len(),
        <ReplayedGroup as crate::row::FromRow>::row_spec(rows[at]) == Ok::<
            ReplayedGroup,
            crate::error::Fault,
        >(groups[at]),
        is_replayed(rows[at], rooms, group),
    ensures
        groups[at].object.id == rooms.groups[group].object_id,
        groups[at].first_sequence == rooms.groups[group].first_sequence,
        groups[at].last_sequence == rooms.groups[group].last_sequence,
{
    reveal(ReplayedGroup::of_row);
    reveal(crate::collaboration::CollaborationObjectRecord::of_row);
}

proof fn lemma_rest_is_unchanged(
    place: UpdatePlace,
    after_sequence: i64,
    log: Seq<Reply>,
    rooms: RoomTables,
    two: Course,
    count: int,
)
    requires
        is_answered(place.tenant_id, place.room_id, place.epoch, after_sequence, log, rooms, two),
        Database::collaboration_replay_groups_step(
            place.tenant_id,
            place.room_id,
            place.epoch,
            after_sequence,
            log,
        ) is Done,
        0 <= count <= log[0].all_rows::<ReplayedGroup>()->Ok_0.len(),
    ensures
        forall|i: int| 0 <= i <= count ==> (#[trigger] two.rows[1 + i]).rooms == rooms,
    decreases count,
{
    reveal(means);
    let groups = log[0].all_rows::<ReplayedGroup>()->Ok_0;
    assert(log.take(0).len() == 0);
    assert(two.rows[1] == two.rows[0]);
    if count > 0 {
        lemma_rest_is_unchanged(place, after_sequence, log, rooms, two, count - 1);
        lemma_chunks_are_asked_for(
            place.tenant_id,
            place.room_id,
            place.epoch,
            groups,
            log,
            1,
            Seq::empty(),
            count - 1,
        );
        assert(log.take(count)[0] == log[0]);
        assert(two.rows[1 + (count - 1)].rooms == rooms);
        assert(two.rows[count + 1].rooms == rooms);
    }
}

} // verus!
