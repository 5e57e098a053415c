//! The rows behind authorization snapshots, and laws about what a snapshot holds of them.

use vstd::prelude::*;

use crate::authorization::AclInputRow;
use crate::authorization::EntryFact;
use crate::authorization::GroupFact;
use crate::authorization::GroupInputRow;
use crate::authorization::ResourceFacts;
use crate::database::Database;
use crate::error::Fault;
use crate::id::Uuid;
use crate::row::rows_spec;
use crate::row::FromRow;
use crate::row::Reply;
use crate::row::Row;
use crate::sql::catalog as sql;
use crate::step::Param;
use crate::tables::answers;
use crate::tables::catalog::CatalogTables;
use crate::tables::first_row;
use crate::tables::has;
use crate::tables::has_number;
use crate::tables::has_text;
use crate::tables::Course;
use crate::tables::Tables;

verus! {

/// Whether a principal is a member of a group.
pub open spec fn is_member(catalog: CatalogTables, group_id: Uuid, principal_id: Uuid) -> bool {
    &&& catalog.memberships.contains_key((group_id, principal_id))
    &&& catalog.groups.contains_key(group_id)
}

/// Whether a row of a reply is a principal's membership in a group.
pub open spec fn is_membership(
    row: Row,
    catalog: CatalogTables,
    group_id: Uuid,
    principal_id: Uuid,
) -> bool {
    let membership = catalog.memberships[(group_id, principal_id)];
    &&& is_member(catalog, group_id, principal_id)
    &&& has::<Uuid>(row, "group_id"@, group_id)
    &&& has::<Uuid>(row, "principal_id"@, catalog.groups[group_id].principal_id)
    &&& has_text(row, "role"@, membership.role)
    &&& has_number(row, "generation"@, membership.generation as int)
}

/// Whether the rows of a reply are a principal's memberships, each once.
pub open spec fn are_memberships(
    rows: Seq<Row>,
    catalog: CatalogTables,
    principal_id: Uuid,
) -> bool {
    &&& forall|i: int|
        0 <= i < rows.len() ==> exists|group_id: Uuid| #[trigger]
            is_membership(#[trigger] rows[i], catalog, group_id, principal_id)
    &&& forall|group_id: Uuid| #[trigger]
        is_member(catalog, group_id, principal_id) ==> exists|i: int|
            0 <= i < rows.len() && has::<Uuid>(#[trigger] rows[i], "group_id"@, group_id)
    &&& forall|i: int, j: int|
        0 <= i < j < rows.len() ==> (#[trigger] rows[i]).column::<Uuid>("group_id"@) != (
        #[trigger] rows[j]).column::<Uuid>("group_id"@)
}

/// Whether a group owns a drive through its principal.
pub open spec fn is_owning_group(
    catalog: CatalogTables,
    group_id: Option<Uuid>,
    principal_id: Uuid,
) -> bool {
    match group_id {
        Some(id) => catalog.groups.contains_key(id) && catalog.groups[id].principal_id
            == principal_id,
        None => forall|id: Uuid| #[trigger]
            catalog.groups.contains_key(id) ==> catalog.groups[id].principal_id != principal_id,
    }
}

/// What the statements of authorization snapshots do.
#[verifier::opaque]
pub open spec fn means<'a>(
    sql: &'static str,
    params: Seq<Param<'a>>,
    reply: Reply,
    now: int,
    before: Tables,
    after: Tables,
) -> bool {
    let catalog = before.catalog;
    let id = params[1]->Id_0;
    &&& sql == sql::AUTHORIZATION_SNAPSHOT_SET_ISOLATION ==> after == before
    &&& sql == sql::AUTHORIZATION_SNAPSHOT_SELECT_DRIVES ==> {
        let drive = catalog.drives[id];
        let node_id = params[2]->Id_0;
        let actor = params[3]->Id_0;
        &&& after == before
        &&& answers(
            reply,
            catalog.drives.contains_key(id) && catalog.principals.contains_key(
                drive.owner_principal_id,
            ) && catalog.nodes.contains_key(node_id) && catalog.nodes[node_id].drive_id == id
                && catalog.principals.contains_key(actor) && !catalog.principals[actor].disabled,
        )
        &&& first_row(reply) matches Some(row) ==> {
            &&& has::<Uuid>(row, "owner_principal_id"@, drive.owner_principal_id)
            &&& has_text(row, "owner_kind"@, catalog.principals[drive.owner_principal_id].kind)
            &&& row.column::<Option<Uuid>>("owner_group_id"@) is Some
            &&& is_owning_group(
                catalog,
                row.column::<Option<Uuid>>("owner_group_id"@)->0,
                drive.owner_principal_id,
            )
            &&& has_number(row, "drive_acl_generation"@, drive.acl_generation)
            &&& has_number(row, "namespace_generation"@, drive.namespace_generation)
            &&& has_number(
                row,
                "resource_namespace_generation"@,
                catalog.nodes[node_id].namespace_generation,
            )
            &&& has_number(row, "resource_acl_generation"@, catalog.nodes[node_id].acl_generation)
            &&& has_number(row, "membership_generation"@, catalog.principals[actor].generation)
        }
    }
    &&& sql == sql::AUTHORIZATION_SNAPSHOT_SELECT_GROUP_MEMBERSHIPS ==> {
        &&& after == before
        &&& reply is Rows
        &&& are_memberships(reply->Rows_0@, catalog, id)
    }
    &&& sql == sql::AUTHORIZATION_SNAPSHOT_WITH_GRAPH_PRINCIPALS ==> after == before
    &&& sql == sql::AUTHORIZATION_SNAPSHOT_SELECT_GROUP_MEMBERSHIPS_2 ==> after == before
    &&& sql == sql::AUTHORIZATION_SNAPSHOT_WITH_UNNEST ==> after == before
}

/// The rows that have an identifier under a column name, in order.
pub open spec fn rows_of(rows: Seq<Row>, name: Seq<char>, id: Uuid) -> Seq<Row> {
    rows.filter(|row: Row| row.column::<Uuid>(name) == Some(id))
}

/// Whether a group is what a row holds.
pub open spec fn is_group(found: GroupInputRow, row: Row) -> bool {
    &&& has::<Uuid>(row, "group_id"@, found.group_id)
    &&& has::<Uuid>(row, "principal_id"@, found.principal_id)
    &&& has::<String>(row, "role"@, found.role)
    &&& has::<i64>(row, "generation"@, found.generation)
}

/// Whether groups are what rows hold, in order.
pub open spec fn are_groups(found: Seq<GroupInputRow>, rows: Seq<Row>) -> bool {
    &&& found.len() == rows.len()
    &&& forall|i: int| 0 <= i < rows.len() ==> is_group(#[trigger] found[i], rows[i])
}

/// Whether an access control entry is what a row holds.
pub open spec fn is_entry(found: AclInputRow, row: Row) -> bool {
    &&& has::<Uuid>(row, "id"@, found.id)
    &&& has::<Uuid>(row, "resource_id"@, found.resource_id)
    &&& has::<Uuid>(row, "principal_id"@, found.principal_id)
    &&& has::<String>(row, "action"@, found.action)
    &&& has::<String>(row, "effect"@, found.effect)
    &&& has::<String>(row, "inheritance"@, found.inheritance)
    &&& has::<i32>(row, "depth"@, found.depth)
    &&& has::<bool>(row, "direct"@, found.direct)
    &&& has::<i64>(row, "generation"@, found.generation)
    &&& has::<Uuid>(row, "created_by"@, found.created_by)
    &&& has::<Option<Uuid>>(row, "direct_share_id"@, found.direct_share_id)
    &&& has::<bool>(row, "direct_share_active"@, found.direct_share_active)
}

/// Whether access control entries are what rows hold, in order.
pub open spec fn are_entries(found: Seq<AclInputRow>, rows: Seq<Row>) -> bool {
    &&& found.len() == rows.len()
    &&& forall|i: int| 0 <= i < rows.len() ==> is_entry(#[trigger] found[i], rows[i])
}

/// Each row of a list that can be read is read at its place.
pub proof fn lemma_rows_are_read<T: FromRow>(rows: Seq<Row>)
    requires
        rows_spec::<T>(rows) is Ok,
    ensures
        rows_spec::<T>(rows)->Ok_0.len() == rows.len(),
        forall|i: int|
            0 <= i < rows.len() ==> T::row_spec(#[trigger] rows[i]) == Ok::<T, Fault>(
                rows_spec::<T>(rows)->Ok_0[i],
            ),
    decreases rows.len(),
{
    if rows.len() > 0 {
        lemma_rows_are_read::<T>(rows.drop_last());
        assert forall|i: int| 0 <= i < rows.len() implies T::row_spec(#[trigger] rows[i]) == Ok::<
            T,
            Fault,
        >(rows_spec::<T>(rows)->Ok_0[i]) by {
            if i < rows.len() - 1 {
                assert(rows.drop_last()[i] == rows[i]);
            }
        }
    }
}

proof fn lemma_groups_of(rows: Seq<Row>, principal_id: Uuid)
    requires
        rows_spec::<GroupFact>(rows) is Ok,
    ensures
        are_groups(
            crate::authorization::groups_of(rows_spec::<GroupFact>(rows)->Ok_0, principal_id),
            rows_of(rows, "user_principal_id"@, principal_id),
        ),
    decreases rows.len(),
{
    reveal(Seq::filter);
    reveal(GroupFact::of_row);
    reveal(GroupInputRow::of_row);
    if rows.len() > 0 {
        lemma_groups_of(rows.drop_last(), principal_id);
        let read = rows_spec::<GroupFact>(rows)->Ok_0;
        assert(read.drop_last() =~= rows_spec::<GroupFact>(rows.drop_last())->Ok_0);
    }
}

proof fn lemma_entries_of(rows: Seq<Row>, principal_id: Uuid)
    requires
        rows_spec::<EntryFact>(rows) is Ok,
    ensures
        are_entries(
            crate::authorization::entries_of(rows_spec::<EntryFact>(rows)->Ok_0, principal_id),
            rows_of(rows, "actor_principal_id"@, principal_id),
        ),
    decreases rows.len(),
{
    reveal(Seq::filter);
    reveal(EntryFact::of_row);
    reveal(AclInputRow::of_row);
    if rows.len() > 0 {
        lemma_entries_of(rows.drop_last(), principal_id);
        let read = rows_spec::<EntryFact>(rows)->Ok_0;
        assert(read.drop_last() =~= rows_spec::<EntryFact>(rows.drop_last())->Ok_0);
    }
}

/// A snapshot holds the groups of the actor: a group is among them exactly where the actor is a
/// member of it, with the role and the generation of the membership, and each stands there once.
/// The drive's owner and the generations are those of the rows.
pub proof fn snapshots_hold_the_actors_groups(
    tenant_id: Uuid,
    actor_principal_id: Uuid,
    drive_id: Uuid,
    resource_id: Uuid,
    log: Seq<Reply>,
    course: Course,
)
    requires
        crate::step::is_done(
            Database::authorization_snapshot_fault(actor_principal_id, log),
            Database::authorization_snapshot_script(
                tenant_id,
                actor_principal_id,
                drive_id,
                resource_id,
                log,
            ),
            log,
        ),
        course.follows(
            Database::authorization_snapshot_script(
                tenant_id,
                actor_principal_id,
                drive_id,
                resource_id,
                log,
            ),
            log,
        ),
    ensures
        ({
            let catalog = course.start().catalog;
            let out = Database::authorization_snapshot_output(
                tenant_id,
                actor_principal_id,
                drive_id,
                resource_id,
                log,
            );
            let drive = catalog.drives[drive_id];
            let owner = drive.owner_principal_id;
            &&& out.tenant_id == tenant_id
            &&& out.drive_id == drive_id
            &&& out.resource_id == resource_id
            &&& out.actor_principal_id == actor_principal_id
            &&& forall|group_id: Uuid|
                (exists|i: int|
                    0 <= i < out.actor_groups.len() && (#[trigger] out.actor_groups[i]).group_id
                        == group_id) <==> #[trigger] is_member(
                    catalog,
                    group_id,
                    actor_principal_id,
                )
            &&& forall|i: int|
                0 <= i < out.actor_groups.len() ==> {
                    let group = #[trigger] out.actor_groups[i];
                    let membership = catalog.memberships[(group.group_id, actor_principal_id)];
                    &&& group.principal_id == catalog.groups[group.group_id].principal_id
                    &&& group.role@ == membership.role
                    &&& group.generation == membership.generation
                }
            &&& forall|i: int, j: int|
                0 <= i < j < out.actor_groups.len() ==> (#[trigger] out.actor_groups[i]).group_id
                    != (#[trigger] out.actor_groups[j]).group_id
            &&& catalog.drives.contains_key(drive_id)
            &&& catalog.nodes.contains_key(resource_id)
            &&& catalog.nodes[resource_id].drive_id == drive_id
            &&& !catalog.principals[actor_principal_id].disabled
            &&& out.owner_principal_id == owner
            &&& out.owner_kind@ == catalog.principals[owner].kind
            &&& is_owning_group(catalog, out.owner_group_id, owner)
            &&& out.membership_generation == catalog.principals[actor_principal_id].generation
            &&& out.drive_acl_generation == drive.acl_generation
            &&& out.namespace_generation == drive.namespace_generation
            &&& out.resource_namespace_generation
                == catalog.nodes[resource_id].namespace_generation
            &&& out.resource_acl_generation == catalog.nodes[resource_id].acl_generation
            &&& course.end() == course.start()
        }),
{
    reveal(means);
    reveal(ResourceFacts::of_row);
    reveal(GroupInputRow::of_row);
    let script = Database::authorization_snapshot_script(
        tenant_id,
        actor_principal_id,
        drive_id,
        resource_id,
        log,
    );
    let catalog = course.start().catalog;
    let out = Database::authorization_snapshot_output(
        tenant_id,
        actor_principal_id,
        drive_id,
        resource_id,
        log,
    );
    assert(course.performs(script, log, 0));
    assert(course.performs(script, log, 1));
    assert(course.performs(script, log, 2));
    assert(first_row(log[2]) is Some);
    assert(course.performs(script, log, 3));
    assert(course.performs(script, log, 4));
    assert(course.performs(script, log, 5));
    assert(course.performs(script, log, 6));
    assert(course.performs(script, log, 7));
    assert(course.end() == course.rows[8]);
    let rows = log[3]->Rows_0@;
    lemma_rows_are_read::<GroupInputRow>(rows);
    assert forall|i: int| 0 <= i < rows.len() implies is_membership(
        rows[i],
        catalog,
        (#[trigger] out.actor_groups[i]).group_id,
        actor_principal_id,
    ) && is_group(out.actor_groups[i], rows[i]) by {
        assert(GroupInputRow::row_spec(rows[i]) is Ok);
        let group_id = choose|group_id: Uuid| #[trigger]
            is_membership(rows[i], catalog, group_id, actor_principal_id);
        assert(is_membership(rows[i], catalog, group_id, actor_principal_id));
    }
    assert forall|group_id: Uuid| #[trigger]
        is_member(catalog, group_id, actor_principal_id) implies exists|i: int|
        0 <= i < out.actor_groups.len() && (#[trigger] out.actor_groups[i]).group_id
            == group_id by {
        let i = choose|i: int|
            0 <= i < rows.len() && has::<Uuid>(#[trigger] rows[i], "group_id"@, group_id);
        assert(is_group(out.actor_groups[i], rows[i]));
    }
    assert forall|i: int, j: int| 0 <= i < j < out.actor_groups.len() implies (
    #[trigger] out.actor_groups[i]).group_id != (#[trigger] out.actor_groups[j]).group_id by {
        assert(is_group(out.actor_groups[i], rows[i]));
        assert(is_group(out.actor_groups[j], rows[j]));
    }
}

/// A snapshot is read row by row. The actor's groups are the rows of the reply to the query for the
/// actor's memberships, in order. The entries are those rows of the reply to the query for entries
/// that name the actor, in order. For each principal in the reply to the query for the actor and
/// those whom a chain of shares leads to there is one fact, in ascending order, with the groups and
/// the entries in whose rows that principal stands.
pub proof fn snapshots_are_read_row_by_row<'a>(
    tenant_id: Uuid,
    actor_principal_id: Uuid,
    drive_id: Uuid,
    resource_id: Uuid,
    log: Seq<Reply>,
)
    requires
        crate::step::is_done(
            Database::authorization_snapshot_fault(actor_principal_id, log),
            Database::authorization_snapshot_script(
                tenant_id,
                actor_principal_id,
                drive_id,
                resource_id,
                log,
            ),
            log,
        ),
    ensures
        ({
            let script = Database::authorization_snapshot_script(
                tenant_id,
                actor_principal_id,
                drive_id,
                resource_id,
                log,
            );
            let out = Database::authorization_snapshot_output(
                tenant_id,
                actor_principal_id,
                drive_id,
                resource_id,
                log,
            );
            let principals = log[4].all_rows::<Uuid>()->Ok_0;
            &&& script[3] == crate::step::CommandView::all(
                sql::AUTHORIZATION_SNAPSHOT_SELECT_GROUP_MEMBERSHIPS,
                seq![Param::Id(tenant_id), Param::Id(actor_principal_id)],
            )
            &&& are_groups(out.actor_groups, log[3]->Rows_0@)
            &&& are_entries(
                out.entries,
                rows_of(log[6]->Rows_0@, "actor_principal_id"@, actor_principal_id),
            )
            &&& principals.contains(actor_principal_id)
            &&& forall|i: int, j: int|
                0 <= i < j < out.creator_facts.len() ==> (
                #[trigger] out.creator_facts[i]).principal_id.value < (
                #[trigger] out.creator_facts[j]).principal_id.value
            &&& forall|id: Uuid|
                (exists|i: int|
                    0 <= i < out.creator_facts.len() && (
                    #[trigger] out.creator_facts[i]).principal_id == id)
                    <==> #[trigger] principals.contains(id)
            &&& forall|i: int|
                0 <= i < out.creator_facts.len() ==> {
                    let fact = #[trigger] out.creator_facts[i];
                    &&& are_groups(
                        fact.groups,
                        rows_of(log[5]->Rows_0@, "user_principal_id"@, fact.principal_id),
                    )
                    &&& are_entries(
                        fact.entries,
                        rows_of(log[6]->Rows_0@, "actor_principal_id"@, fact.principal_id),
                    )
                }
        }),
{
    reveal(GroupInputRow::of_row);
    let out = Database::authorization_snapshot_output(
        tenant_id,
        actor_principal_id,
        drive_id,
        resource_id,
        log,
    );
    let rows = log[3]->Rows_0@;
    let principals = log[4].all_rows::<Uuid>()->Ok_0;
    let sorted = crate::authorization::ordered(principals);
    lemma_rows_are_read::<GroupInputRow>(rows);
    assert forall|i: int| 0 <= i < rows.len() implies is_group(
        #[trigger] out.actor_groups[i],
        rows[i],
    ) by {
        assert(GroupInputRow::row_spec(rows[i]) is Ok);
    }
    lemma_entries_of(log[6]->Rows_0@, actor_principal_id);
    crate::authorization::ordered_is_sorted_and_complete(principals);
    assert forall|i: int| 0 <= i < out.creator_facts.len() implies ({
        let fact = #[trigger] out.creator_facts[i];
        &&& fact.principal_id == sorted[i]
        &&& are_groups(
            fact.groups,
            rows_of(log[5]->Rows_0@, "user_principal_id"@, fact.principal_id),
        )
        &&& are_entries(
            fact.entries,
            rows_of(log[6]->Rows_0@, "actor_principal_id"@, fact.principal_id),
        )
    }) by {
        lemma_groups_of(log[5]->Rows_0@, sorted[i]);
        lemma_entries_of(log[6]->Rows_0@, sorted[i]);
    }
    assert forall|id: Uuid| #[trigger] principals.contains(id) implies exists|i: int|
        0 <= i < out.creator_facts.len() && (#[trigger] out.creator_facts[i]).principal_id
            == id by {
        assert(sorted.contains(id));
        let i = choose|i: int| 0 <= i < sorted.len() && sorted[i] == id;
        assert(out.creator_facts[i].principal_id == id);
    }
    assert forall|id: Uuid|
        (exists|i: int|
            0 <= i < out.creator_facts.len() && (#[trigger] out.creator_facts[i]).principal_id
                == id) implies #[trigger] principals.contains(id) by {
        let i = choose|i: int|
            0 <= i < out.creator_facts.len() && (#[trigger] out.creator_facts[i]).principal_id
                == id;
        assert(sorted[i] == id);
        assert(sorted.contains(id));
    }
}

} // verus!
