//! Authorization snapshots: what a decision about one actor and one node rests on.

use vstd::prelude::*;

use crate::database::Database;
use crate::error::DatabaseError;
use crate::error::Fault;
use crate::fence::FenceGenerations;
use crate::id::Uuid;
use crate::row::FromRow;
use crate::row::Reply;
use crate::row::Row;
use crate::row::many;
use crate::row::optional;
use crate::row::required;
use crate::sql::catalog as sql;
use crate::step::Command;
use crate::step::CommandView;
use crate::step::Param;
use crate::step::Step;
use crate::step::StepView;
use crate::step::ask_all;
use crate::step::ask_execute;
use crate::step::ask_optional;
use crate::step::stop;
use crate::step::stop_deep;

verus! {

/// An access control entry that reaches the node.
#[derive(Debug)]
pub struct AclInputRow {
    pub id: Uuid,
    pub resource_id: Uuid,
    pub principal_id: Uuid,
    pub action: String,
    pub effect: String,
    pub inheritance: String,
    pub depth: i32,
    pub direct: bool,
    pub generation: i64,
    pub created_by: Uuid,
    pub direct_share_id: Option<Uuid>,
    pub direct_share_active: bool,
}

impl AclInputRow {
    /// What a row holds, read by its column names.
    #[verifier::opaque]
    pub open spec fn of_row(row: Row) -> Result<AclInputRow, Fault> {
        if row.column::<Uuid>("id"@) is Some
            && row.column::<Uuid>("resource_id"@) is Some
            && row.column::<Uuid>("principal_id"@) is Some
            && row.column::<String>("action"@) is Some
            && row.column::<String>("effect"@) is Some
            && row.column::<String>("inheritance"@) is Some
            && row.column::<i32>("depth"@) is Some
            && row.column::<bool>("direct"@) is Some
            && row.column::<i64>("generation"@) is Some
            && row.column::<Uuid>("created_by"@) is Some
            && row.column::<Option<Uuid>>("direct_share_id"@) is Some
            && row.column::<bool>("direct_share_active"@) is Some {
            Ok(
                AclInputRow {
                    id: row.column::<Uuid>("id"@)->0,
                    resource_id: row.column::<Uuid>("resource_id"@)->0,
                    principal_id: row.column::<Uuid>("principal_id"@)->0,
                    action: row.column::<String>("action"@)->0,
                    effect: row.column::<String>("effect"@)->0,
                    inheritance: row.column::<String>("inheritance"@)->0,
                    depth: row.column::<i32>("depth"@)->0,
                    direct: row.column::<bool>("direct"@)->0,
                    generation: row.column::<i64>("generation"@)->0,
                    created_by: row.column::<Uuid>("created_by"@)->0,
                    direct_share_id: row.column::<Option<Uuid>>("direct_share_id"@)->0,
                    direct_share_active: row.column::<bool>("direct_share_active"@)->0,
                },
            )
        } else {
            Err(Fault::Malformed)
        }
    }
}

impl FromRow for AclInputRow {
    open spec fn row_spec(row: Row) -> Result<AclInputRow, Fault> {
        AclInputRow::of_row(row)
    }

    fn from_row(row: &Row) -> (r: Result<AclInputRow, Fault>) {
        proof {
            reveal(AclInputRow::of_row);
        }
        let id: Uuid = match row.get("id") {
            Some(v) => v,
            None => return Err(Fault::Malformed),
        };
        let resource_id: Uuid = match row.get("resource_id") {
            Some(v) => v,
            None => return Err(Fault::Malformed),
        };
        let principal_id: Uuid = match row.get("principal_id") {
            Some(v) => v,
            None => return Err(Fault::Malformed),
        };
        let action: String = match row.get("action") {
            Some(v) => v,
            None => return Err(Fault::Malformed),
        };
        let effect: String = match row.get("effect") {
            Some(v) => v,
            None => return Err(Fault::Malformed),
        };
        let inheritance: String = match row.get("inheritance") {
            Some(v) => v,
            None => return Err(Fault::Malformed),
        };
        let depth: i32 = match row.get("depth") {
            Some(v) => v,
            None => return Err(Fault::Malformed),
        };
        let direct: bool = match row.get("direct") {
            Some(v) => v,
            None => return Err(Fault::Malformed),
        };
        let generation: i64 = match row.get("generation") {
            Some(v) => v,
            None => return Err(Fault::Malformed),
        };
        let created_by: Uuid = match row.get("created_by") {
            Some(v) => v,
            None => return Err(Fault::Malformed),
        };
        let direct_share_id: Option<Uuid> = match row.get("direct_share_id") {
            Some(v) => v,
            None => return Err(Fault::Malformed),
        };
        let direct_share_active: bool = match row.get("direct_share_active") {
            Some(v) => v,
            None => return Err(Fault::Malformed),
        };
        Ok(AclInputRow {
            id, resource_id, principal_id, action, effect, inheritance, depth, direct,
            generation, created_by, direct_share_id, direct_share_active,
        })
    }
}

/// A group that a principal belongs to.
#[derive(Debug)]
pub struct GroupInputRow {
    pub group_id: Uuid,
    pub principal_id: Uuid,
    pub role: String,
    pub generation: i64,
}

impl GroupInputRow {
    /// What a row holds, read by its column names.
    #[verifier::opaque]
    pub open spec fn of_row(row: Row) -> Result<GroupInputRow, Fault> {
        if row.column::<Uuid>("group_id"@) is Some
            && row.column::<Uuid>("principal_id"@) is Some
            && row.column::<String>("role"@) is Some
            && row.column::<i64>("generation"@) is Some {
            Ok(
                GroupInputRow {
                    group_id: row.column::<Uuid>("group_id"@)->0,
                    principal_id: row.column::<Uuid>("principal_id"@)->0,
                    role: row.column::<String>("role"@)->0,
                    generation: row.column::<i64>("generation"@)->0,
                },
            )
        } else {
            Err(Fault::Malformed)
        }
    }
}

impl FromRow for GroupInputRow {
    open spec fn row_spec(row: Row) -> Result<GroupInputRow, Fault> {
        GroupInputRow::of_row(row)
    }

    fn from_row(row: &Row) -> (r: Result<GroupInputRow, Fault>) {
        proof {
            reveal(GroupInputRow::of_row);
        }
        let group_id: Uuid = match row.get("group_id") {
            Some(v) => v,
            None => return Err(Fault::Malformed),
        };
        let principal_id: Uuid = match row.get("principal_id") {
            Some(v) => v,
            None => return Err(Fault::Malformed),
        };
        let role: String = match row.get("role") {
            Some(v) => v,
            None => return Err(Fault::Malformed),
        };
        let generation: i64 = match row.get("generation") {
            Some(v) => v,
            None => return Err(Fault::Malformed),
        };
        Ok(GroupInputRow { group_id, principal_id, role, generation })
    }
}

impl AclInputRow {
    /// The same entry.
    pub fn copied(&self) -> (r: AclInputRow)
        ensures
            r == *self,
    {
        AclInputRow {
            id: self.id,
            resource_id: self.resource_id,
            principal_id: self.principal_id,
            action: self.action.clone(),
            effect: self.effect.clone(),
            inheritance: self.inheritance.clone(),
            depth: self.depth,
            direct: self.direct,
            generation: self.generation,
            created_by: self.created_by,
            direct_share_id: self.direct_share_id,
            direct_share_active: self.direct_share_active,
        }
    }
}

impl GroupInputRow {
    /// The same group.
    pub fn copied(&self) -> (r: GroupInputRow)
        ensures
            r == *self,
    {
        GroupInputRow {
            group_id: self.group_id,
            principal_id: self.principal_id,
            role: self.role.clone(),
            generation: self.generation,
        }
    }
}

/// What is known of one principal: its groups, and the entries that name it or one of them.
#[derive(Debug)]
pub struct AuthorizationPrincipalFact {
    pub principal_id: Uuid,
    pub groups: Vec<GroupInputRow>,
    pub entries: Vec<AclInputRow>,
}

/// What an [`AuthorizationPrincipalFact`] holds.
#[verifier::ext_equal]
pub struct AuthorizationPrincipalFactView {
    pub principal_id: Uuid,
    pub groups: Seq<GroupInputRow>,
    pub entries: Seq<AclInputRow>,
}

impl View for AuthorizationPrincipalFact {
    type V = AuthorizationPrincipalFactView;

    open spec fn view(&self) -> AuthorizationPrincipalFactView {
        AuthorizationPrincipalFactView {
            principal_id: self.principal_id,
            groups: self.groups@,
            entries: self.entries@,
        }
    }
}

/// Everything that a decision about an actor and a node rests on, read in one transaction.
#[derive(Debug)]
pub struct AuthorizationSnapshot {
    pub tenant_id: Uuid,
    pub drive_id: Uuid,
    pub resource_id: Uuid,
    pub owner_principal_id: Uuid,
    pub owner_kind: String,
    pub owner_group_id: Option<Uuid>,
    pub actor_principal_id: Uuid,
    pub actor_groups: Vec<GroupInputRow>,
    /// The entries that name the actor or one of its groups.
    pub entries: Vec<AclInputRow>,
    /// One fact for the actor and for each principal that a chain of shares leads to, in
    /// ascending order of their identifiers.
    pub creator_facts: Vec<AuthorizationPrincipalFact>,
    pub membership_generation: i64,
    pub drive_acl_generation: i64,
    /// Namespace generation of the drive containing `resource_id`.
    pub namespace_generation: i64,
    /// Namespace generation of the exact node identified by `resource_id`.
    pub resource_namespace_generation: i64,
    pub resource_acl_generation: i64,
}

/// What an [`AuthorizationSnapshot`] holds.
#[verifier::ext_equal]
pub struct AuthorizationSnapshotView {
    pub tenant_id: Uuid,
    pub drive_id: Uuid,
    pub resource_id: Uuid,
    pub owner_principal_id: Uuid,
    pub owner_kind: String,
    pub owner_group_id: Option<Uuid>,
    pub actor_principal_id: Uuid,
    pub actor_groups: Seq<GroupInputRow>,
    pub entries: Seq<AclInputRow>,
    pub creator_facts: Seq<AuthorizationPrincipalFactView>,
    pub membership_generation: i64,
    pub drive_acl_generation: i64,
    pub namespace_generation: i64,
    pub resource_namespace_generation: i64,
    pub resource_acl_generation: i64,
}

impl View for AuthorizationSnapshot {
    type V = AuthorizationSnapshotView;

    open spec fn view(&self) -> AuthorizationSnapshotView {
        AuthorizationSnapshotView {
            tenant_id: self.tenant_id,
            drive_id: self.drive_id,
            resource_id: self.resource_id,
            owner_principal_id: self.owner_principal_id,
            owner_kind: self.owner_kind,
            owner_group_id: self.owner_group_id,
            actor_principal_id: self.actor_principal_id,
            actor_groups: self.actor_groups@,
            entries: self.entries@,
            creator_facts: self.creator_facts@.map_values(
                |fact: AuthorizationPrincipalFact| fact@,
            ),
            membership_generation: self.membership_generation,
            drive_acl_generation: self.drive_acl_generation,
            namespace_generation: self.namespace_generation,
            resource_namespace_generation: self.resource_namespace_generation,
            resource_acl_generation: self.resource_acl_generation,
        }
    }
}

/// The node's drive and its owner, with the generations of the moment.
#[derive(Debug)]
pub struct ResourceFacts {
    pub owner_principal_id: Uuid,
    pub owner_kind: String,
    pub owner_group_id: Option<Uuid>,
    pub membership_generation: i64,
    pub drive_acl_generation: i64,
    pub namespace_generation: i64,
    pub resource_namespace_generation: i64,
    pub resource_acl_generation: i64,
}

impl ResourceFacts {
    /// What a row holds, read by its column names.
    #[verifier::opaque]
    pub open spec fn of_row(row: Row) -> Result<ResourceFacts, Fault> {
        if row.column::<Uuid>("owner_principal_id"@) is Some
            && row.column::<String>("owner_kind"@) is Some
            && row.column::<Option<Uuid>>("owner_group_id"@) is Some
            && row.column::<i64>("membership_generation"@) is Some
            && row.column::<i64>("drive_acl_generation"@) is Some
            && row.column::<i64>("namespace_generation"@) is Some
            && row.column::<i64>("resource_namespace_generation"@) is Some
            && row.column::<i64>("resource_acl_generation"@) is Some {
            Ok(
                ResourceFacts {
                    owner_principal_id: row.column::<Uuid>("owner_principal_id"@)->0,
                    owner_kind: row.column::<String>("owner_kind"@)->0,
                    owner_group_id: row.column::<Option<Uuid>>("owner_group_id"@)->0,
                    membership_generation: row.column::<i64>("membership_generation"@)->0,
                    drive_acl_generation: row.column::<i64>("drive_acl_generation"@)->0,
                    namespace_generation: row.column::<i64>("namespace_generation"@)->0,
                    resource_namespace_generation: row.column::<i64>(
                        "resource_namespace_generation"@,
                    )->0,
                    resource_acl_generation: row.column::<i64>("resource_acl_generation"@)->0,
                },
            )
        } else {
            Err(Fault::Malformed)
        }
    }
}

impl FromRow for ResourceFacts {
    open spec fn row_spec(row: Row) -> Result<ResourceFacts, Fault> {
        ResourceFacts::of_row(row)
    }

    fn from_row(row: &Row) -> (r: Result<ResourceFacts, Fault>) {
        proof {
            reveal(ResourceFacts::of_row);
        }
        let owner_principal_id: Uuid = match row.get("owner_principal_id") {
            Some(v) => v,
            None => return Err(Fault::Malformed),
        };
        let owner_kind: String = match row.get("owner_kind") {
            Some(v) => v,
            None => return Err(Fault::Malformed),
        };
        let owner_group_id: Option<Uuid> = match row.get("owner_group_id") {
            Some(v) => v,
            None => return Err(Fault::Malformed),
        };
        let membership_generation: i64 = match row.get("membership_generation") {
            Some(v) => v,
            None => return Err(Fault::Malformed),
        };
        let drive_acl_generation: i64 = match row.get("drive_acl_generation") {
            Some(v) => v,
            None => return Err(Fault::Malformed),
        };
        let namespace_generation: i64 = match row.get("namespace_generation") {
            Some(v) => v,
            None => return Err(Fault::Malformed),
        };
        let resource_namespace_generation: i64 = match row.get("resource_namespace_generation") {
            Some(v) => v,
            None => return Err(Fault::Malformed),
        };
        let resource_acl_generation: i64 = match row.get("resource_acl_generation") {
            Some(v) => v,
            None => return Err(Fault::Malformed),
        };
        Ok(ResourceFacts {
            owner_principal_id, owner_kind, owner_group_id, membership_generation,
            drive_acl_generation, namespace_generation, resource_namespace_generation,
            resource_acl_generation,
        })
    }
}

/// A group of one of the principals.
#[derive(Debug)]
pub struct GroupFact {
    pub user_principal_id: Uuid,
    pub group: GroupInputRow,
}

impl GroupFact {
    /// What a row holds, read by its column names.
    #[verifier::opaque]
    pub open spec fn of_row(row: Row) -> Result<GroupFact, Fault> {
        if row.column::<Uuid>("user_principal_id"@) is Some
            && <GroupInputRow as FromRow>::row_spec(row) is Ok {
            Ok(
                GroupFact {
                    user_principal_id: row.column::<Uuid>("user_principal_id"@)->0,
                    group: <GroupInputRow as FromRow>::row_spec(row)->Ok_0,
                },
            )
        } else {
            Err(Fault::Malformed)
        }
    }
}

impl FromRow for GroupFact {
    open spec fn row_spec(row: Row) -> Result<GroupFact, Fault> {
        GroupFact::of_row(row)
    }

    fn from_row(row: &Row) -> (r: Result<GroupFact, Fault>) {
        proof {
            reveal(GroupFact::of_row);
        }
        let user_principal_id: Uuid = match row.get("user_principal_id") {
            Some(v) => v,
            None => return Err(Fault::Malformed),
        };
        let group: GroupInputRow = match GroupInputRow::from_row(row) {
            Ok(v) => v,
            Err(_) => return Err(Fault::Malformed),
        };
        Ok(GroupFact { user_principal_id, group })
    }
}

/// An entry that reaches one of the principals.
#[derive(Debug)]
pub struct EntryFact {
    pub actor_principal_id: Uuid,
    pub entry: AclInputRow,
}

impl EntryFact {
    /// What a row holds, read by its column names.
    #[verifier::opaque]
    pub open spec fn of_row(row: Row) -> Result<EntryFact, Fault> {
        if row.column::<Uuid>("actor_principal_id"@) is Some
            && <AclInputRow as FromRow>::row_spec(row) is Ok {
            Ok(
                EntryFact {
                    actor_principal_id: row.column::<Uuid>("actor_principal_id"@)->0,
                    entry: <AclInputRow as FromRow>::row_spec(row)->Ok_0,
                },
            )
        } else {
            Err(Fault::Malformed)
        }
    }
}

impl FromRow for EntryFact {
    open spec fn row_spec(row: Row) -> Result<EntryFact, Fault> {
        EntryFact::of_row(row)
    }

    fn from_row(row: &Row) -> (r: Result<EntryFact, Fault>) {
        proof {
            reveal(EntryFact::of_row);
        }
        let actor_principal_id: Uuid = match row.get("actor_principal_id") {
            Some(v) => v,
            None => return Err(Fault::Malformed),
        };
        let entry: AclInputRow = match AclInputRow::from_row(row) {
            Ok(v) => v,
            Err(_) => return Err(Fault::Malformed),
        };
        Ok(EntryFact { actor_principal_id, entry })
    }
}

/// The generations of the moment, and when the session ends.
#[derive(Debug)]
pub struct CurrentGenerations {
    pub generations: FenceGenerations,
    pub session_expires_at: String,
}

impl CurrentGenerations {
    /// What a row holds, read by its column names.
    #[verifier::opaque]
    pub open spec fn of_row(row: Row) -> Result<CurrentGenerations, Fault> {
        if <FenceGenerations as FromRow>::row_spec(row) is Ok
            && row.column::<String>("session_expires_at"@) is Some {
            Ok(
                CurrentGenerations {
                    generations: <FenceGenerations as FromRow>::row_spec(row)->Ok_0,
                    session_expires_at: row.column::<String>("session_expires_at"@)->0,
                },
            )
        } else {
            Err(Fault::Malformed)
        }
    }
}

impl FromRow for CurrentGenerations {
    open spec fn row_spec(row: Row) -> Result<CurrentGenerations, Fault> {
        CurrentGenerations::of_row(row)
    }

    fn from_row(row: &Row) -> (r: Result<CurrentGenerations, Fault>) {
        proof {
            reveal(CurrentGenerations::of_row);
        }
        let generations: FenceGenerations = match FenceGenerations::from_row(row) {
            Ok(v) => v,
            Err(_) => return Err(Fault::Malformed),
        };
        let session_expires_at: String = match row.get("session_expires_at") {
            Some(v) => v,
            None => return Err(Fault::Malformed),
        };
        Ok(CurrentGenerations { generations, session_expires_at })
    }
}

/// A sequence with an identifier put before the first larger one; it stays as it is where the
/// identifier comes up before that.
pub open spec fn inserted(ids: Seq<Uuid>, id: Uuid) -> Seq<Uuid>
    decreases ids.len(),
{
    if ids.len() == 0 {
        seq![id]
    } else if id.value < ids[0].value {
        seq![id].add(ids)
    } else if id == ids[0] {
        ids
    } else {
        seq![ids[0]].add(inserted(ids.drop_first(), id))
    }
}

/// The identifiers of a sequence in ascending order, each once.
pub open spec fn ordered(ids: Seq<Uuid>) -> Seq<Uuid>
    decreases ids.len(),
{
    if ids.len() == 0 {
        Seq::empty()
    } else {
        inserted(ordered(ids.drop_last()), ids.last())
    }
}

/// Whether identifiers are in strictly ascending order.
pub open spec fn is_ascending(ids: Seq<Uuid>) -> bool {
    forall|i: int, j: int| 0 <= i < j < ids.len() ==> ids[i].value < ids[j].value
}

proof fn lemma_inserted(ids: Seq<Uuid>, id: Uuid)
    requires
        is_ascending(ids),
    ensures
        is_ascending(inserted(ids, id)),
        forall|x: Uuid| #[trigger] inserted(ids, id).contains(x) <==> ids.contains(x) || x == id,
    decreases ids.len(),
{
    let out = inserted(ids, id);
    if ids.len() == 0 {
        assert(out[0] == id);
    } else if id.value < ids[0].value {
        assert(out[0] == id);
        assert forall|x: Uuid| out.contains(x) <==> ids.contains(x) || x == id by {
            if ids.contains(x) {
                let k = ids.index_of(x);
                assert(out[k + 1] == x);
            }
            if out.contains(x) {
                let k = out.index_of(x);
                if k > 0 {
                    assert(ids[k - 1] == x);
                }
            }
        }
    } else if id == ids[0] {
    } else {
        let rest = ids.drop_first();
        assert forall|i: int, j: int| 0 <= i < j < rest.len() implies rest[i].value
            < rest[j].value by {
            assert(rest[i] == ids[i + 1] && rest[j] == ids[j + 1]);
        }
        lemma_inserted(rest, id);
        let tail = inserted(rest, id);
        assert forall|x: Uuid| out.contains(x) <==> ids.contains(x) || x == id by {
            if ids.contains(x) {
                let k = ids.index_of(x);
                if k == 0 {
                    assert(out[0] == x);
                } else {
                    assert(rest[k - 1] == x);
                    assert(tail.contains(x));
                    assert(out[tail.index_of(x) + 1] == x);
                }
            }
            if x == id {
                assert(tail.contains(x));
                assert(out[tail.index_of(x) + 1] == x);
            }
            if out.contains(x) {
                let k = out.index_of(x);
                if k == 0 {
                    assert(ids[0] == x);
                } else {
                    assert(tail[k - 1] == x);
                    assert(tail.contains(x));
                    if rest.contains(x) {
                        assert(ids[rest.index_of(x) + 1] == x);
                    }
                }
            }
        }
        assert forall|i: int, j: int| 0 <= i < j < out.len() implies out[i].value
            < out[j].value by {
            if i == 0 {
                assert(tail.contains(tail[j - 1]));
                if tail[j - 1] != id {
                    let k = rest.index_of(tail[j - 1]);
                    assert(ids[k + 1] == tail[j - 1]);
                }
            } else {
                assert(out[i] == tail[i - 1] && out[j] == tail[j - 1]);
            }
        }
    }
}

/// Ordering identifiers keeps exactly those that there are, each once, in ascending order.
pub proof fn ordered_is_sorted_and_complete(ids: Seq<Uuid>)
    ensures
        is_ascending(ordered(ids)),
        forall|x: Uuid| #[trigger] ordered(ids).contains(x) <==> ids.contains(x),
    decreases ids.len(),
{
    if ids.len() > 0 {
        let rest = ids.drop_last();
        ordered_is_sorted_and_complete(rest);
        lemma_inserted(ordered(rest), ids.last());
        assert forall|x: Uuid| ordered(ids).contains(x) <==> ids.contains(x) by {
            if ids.contains(x) {
                let k = ids.index_of(x);
                if k < rest.len() {
                    assert(rest[k] == x);
                }
            }
            if rest.contains(x) {
                assert(ids[rest.index_of(x)] == x);
            }
            assert(ids[ids.len() - 1] == ids.last());
        }
    }
}

/// Puts an identifier into its place.
fn insert(ids: &mut Vec<Uuid>, id: Uuid)
    ensures
        final(ids)@ == inserted(old(ids)@, id),
{
    let ghost before = ids@;
    let mut at: usize = 0;
    proof {
        assert(before.skip(0) =~= before);
        assert(before.take(0).add(inserted(before, id)) =~= inserted(before, id));
    }
    while at < ids.len()
        invariant
            at <= ids@.len(),
            ids@ == before,
            before == old(ids)@,
            inserted(before, id) == before.take(at as int).add(
                inserted(before.skip(at as int), id),
            ),
        decreases ids@.len() - at,
    {
        let ghost rest = before.skip(at as int);
        assert(rest[0] == before[at as int]);
        if id.value < ids[at].value {
            ids.insert(at, id);
            assert(ids@ =~= before.take(at as int).add(seq![id].add(rest)));
            return;
        }
        if id == ids[at] {
            assert(before.take(at as int).add(rest) =~= before);
            return;
        }
        proof {
            assert(rest.drop_first() =~= before.skip(at + 1));
            assert(before.take(at as int).add(
                seq![rest[0]].add(inserted(before.skip(at + 1), id)),
            ) =~= before.take(at + 1).add(inserted(before.skip(at + 1), id)));
        }
        at = at + 1;
    }
    ids.push(id);
    proof {
        assert(before.skip(at as int) =~= Seq::empty());
        assert(ids@ =~= before.take(at as int).add(seq![id]));
    }
}

/// Orders identifiers and drops repetitions.
pub fn order(ids: &Vec<Uuid>) -> (r: Vec<Uuid>)
    ensures
        r@ == ordered(ids@),
{
    let mut out: Vec<Uuid> = Vec::new();
    let mut at: usize = 0;
    while at < ids.len()
        invariant
            at <= ids@.len(),
            out@ == ordered(ids@.take(at as int)),
        decreases ids@.len() - at,
    {
        proof {
            assert(ids@.take(at + 1).drop_last() =~= ids@.take(at as int));
        }
        insert(&mut out, ids[at]);
        at = at + 1;
    }
    assert(ids@.take(at as int) =~= ids@);
    out
}

/// The groups of one principal, in the order of the rows.
pub open spec fn groups_of(rows: Seq<GroupFact>, principal_id: Uuid) -> Seq<GroupInputRow>
    decreases rows.len(),
{
    if rows.len() == 0 {
        Seq::empty()
    } else {
        let groups = groups_of(rows.drop_last(), principal_id);
        if rows.last().user_principal_id == principal_id {
            groups.push(rows.last().group)
        } else {
            groups
        }
    }
}

/// The entries of one principal, in the order of the rows.
pub open spec fn entries_of(rows: Seq<EntryFact>, principal_id: Uuid) -> Seq<AclInputRow>
    decreases rows.len(),
{
    if rows.len() == 0 {
        Seq::empty()
    } else {
        let entries = entries_of(rows.drop_last(), principal_id);
        if rows.last().actor_principal_id == principal_id {
            entries.push(rows.last().entry)
        } else {
            entries
        }
    }
}

/// The facts of each principal, in ascending order of their identifiers.
pub open spec fn facts_of(
    principals: Seq<Uuid>,
    groups: Seq<GroupFact>,
    entries: Seq<EntryFact>,
) -> Seq<AuthorizationPrincipalFactView> {
    ordered(principals).map_values(
        |principal_id: Uuid|
            AuthorizationPrincipalFactView {
                principal_id,
                groups: groups_of(groups, principal_id),
                entries: entries_of(entries, principal_id),
            },
    )
}

/// Collects the groups of one principal.
pub fn collect_groups(rows: &Vec<GroupFact>, principal_id: Uuid) -> (r: Vec<GroupInputRow>)
    ensures
        r@ == groups_of(rows@, principal_id),
{
    let mut out: Vec<GroupInputRow> = Vec::new();
    let mut at: usize = 0;
    while at < rows.len()
        invariant
            at <= rows@.len(),
            out@ == groups_of(rows@.take(at as int), principal_id),
        decreases rows@.len() - at,
    {
        proof {
            assert(rows@.take(at + 1).drop_last() =~= rows@.take(at as int));
        }
        if rows[at].user_principal_id == principal_id {
            out.push(rows[at].group.copied());
        }
        at = at + 1;
    }
    assert(rows@.take(at as int) =~= rows@);
    out
}

/// Collects the entries of one principal.
pub fn collect_entries(rows: &Vec<EntryFact>, principal_id: Uuid) -> (r: Vec<AclInputRow>)
    ensures
        r@ == entries_of(rows@, principal_id),
{
    let mut out: Vec<AclInputRow> = Vec::new();
    let mut at: usize = 0;
    while at < rows.len()
        invariant
            at <= rows@.len(),
            out@ == entries_of(rows@.take(at as int), principal_id),
        decreases rows@.len() - at,
    {
        proof {
            assert(rows@.take(at + 1).drop_last() =~= rows@.take(at as int));
        }
        if rows[at].actor_principal_id == principal_id {
            out.push(rows[at].entry.copied());
        }
        at = at + 1;
    }
    assert(rows@.take(at as int) =~= rows@);
    out
}

/// Collects the facts of each principal.
pub fn collect_facts(
    principals: &Vec<Uuid>,
    groups: &Vec<GroupFact>,
    entries: &Vec<EntryFact>,
) -> (r: Vec<AuthorizationPrincipalFact>)
    ensures
        r@.map_values(|fact: AuthorizationPrincipalFact| fact@) == facts_of(
            principals@,
            groups@,
            entries@,
        ),
{
    let ids: Vec<Uuid> = order(principals);
    let mut out: Vec<AuthorizationPrincipalFact> = Vec::new();
    let mut at: usize = 0;
    while at < ids.len()
        invariant
            at <= ids@.len(),
            ids@ == ordered(principals@),
            out@.len() == at,
            forall|i: int| 0 <= i < at ==> (#[trigger] out@[i])@ == facts_of(
                principals@,
                groups@,
                entries@,
            )[i],
        decreases ids@.len() - at,
    {
        let fact: AuthorizationPrincipalFact = AuthorizationPrincipalFact {
            principal_id: ids[at],
            groups: collect_groups(groups, ids[at]),
            entries: collect_entries(entries, ids[at]),
        };
        out.push(fact);
        at = at + 1;
    }
    assert(out@.map_values(|fact: AuthorizationPrincipalFact| fact@) =~= facts_of(
        principals@,
        groups@,
        entries@,
    ));
    out
}

/// Whether an identifier is among others.
fn has_id(ids: &Vec<Uuid>, id: Uuid) -> (r: bool)
    ensures
        r == ids@.contains(id),
{
    let mut at: usize = 0;
    while at < ids.len()
        invariant
            at <= ids@.len(),
            forall|i: int| 0 <= i < at ==> ids@[i] != id,
        decreases ids@.len() - at,
    {
        if ids[at] == id {
            return true;
        }
        at = at + 1;
    }
    false
}

impl Database {

    /// What stops `authorization_snapshot`, in order.
    pub open spec fn authorization_snapshot_fault(
        actor_principal_id: Uuid,
        log: Seq<Reply>,
    ) -> Option<Fault> {
        let principals = log[4].all_rows::<Uuid>()->Ok_0;
        if log.len() > 2 && log[2].required_row::<ResourceFacts>(DatabaseError::NotFound) is Err {
            Fault::of(log[2].required_row::<ResourceFacts>(DatabaseError::NotFound))
        } else if log.len() > 3 && log[3].all_rows::<GroupInputRow>() is Err {
            Fault::of(log[3].all_rows::<GroupInputRow>())
        } else if log.len() > 4 && log[4].all_rows::<Uuid>() is Err {
            Fault::of(log[4].all_rows::<Uuid>())
        } else if log.len() > 4 && principals.len() == 0 {
            Some(Fault::Error(DatabaseError::NotFound))
        } else if log.len() > 5 && log[5].all_rows::<GroupFact>() is Err {
            Fault::of(log[5].all_rows::<GroupFact>())
        } else if log.len() > 6 && log[6].all_rows::<EntryFact>() is Err {
            Fault::of(log[6].all_rows::<EntryFact>())
        } else if log.len() > 6 && !principals.contains(actor_principal_id) {
            Some(Fault::Error(DatabaseError::NotFound))
        } else {
            None
        }
    }

    /// The commands of `authorization_snapshot`, in order.
    pub open spec fn authorization_snapshot_script<'a>(
        tenant_id: Uuid, actor_principal_id: Uuid, drive_id: Uuid, resource_id: Uuid,
        log: Seq<Reply>,
    ) -> Seq<CommandView<'a>> {
        seq![
            CommandView::Begin,
            CommandView::execute(sql::AUTHORIZATION_SNAPSHOT_SET_ISOLATION, seq![]),
            CommandView::optional(
                sql::AUTHORIZATION_SNAPSHOT_SELECT_DRIVES,
                seq![
                    Param::Id(tenant_id), Param::Id(drive_id), Param::Id(resource_id),
                    Param::Id(actor_principal_id),
                ],
            ),
            CommandView::all(
                sql::AUTHORIZATION_SNAPSHOT_SELECT_GROUP_MEMBERSHIPS,
                seq![Param::Id(tenant_id), Param::Id(actor_principal_id)],
            ),
            CommandView::all(
                sql::AUTHORIZATION_SNAPSHOT_WITH_GRAPH_PRINCIPALS,
                seq![
                    Param::Id(tenant_id), Param::Id(drive_id), Param::Id(resource_id),
                    Param::Id(actor_principal_id),
                ],
            ),
            CommandView::all(
                sql::AUTHORIZATION_SNAPSHOT_SELECT_GROUP_MEMBERSHIPS_2,
                seq![Param::Id(tenant_id), Param::RowIds(&log[4])],
            ),
            CommandView::all(
                sql::AUTHORIZATION_SNAPSHOT_WITH_UNNEST,
                seq![
                    Param::Id(tenant_id), Param::Id(drive_id), Param::RowIds(&log[4]),
                    Param::Id(resource_id),
                ],
            ),
            CommandView::Commit,
        ]
    }

    /// What `authorization_snapshot` returns.
    pub open spec fn authorization_snapshot_output(
        tenant_id: Uuid, actor_principal_id: Uuid, drive_id: Uuid, resource_id: Uuid,
        log: Seq<Reply>,
    ) -> AuthorizationSnapshotView {
        let resource = log[2].required_row::<ResourceFacts>(DatabaseError::NotFound)->Ok_0;
        let actor_groups = log[3].all_rows::<GroupInputRow>()->Ok_0;
        let principals = log[4].all_rows::<Uuid>()->Ok_0;
        let groups = log[5].all_rows::<GroupFact>()->Ok_0;
        let entries = log[6].all_rows::<EntryFact>()->Ok_0;
        AuthorizationSnapshotView {
            tenant_id,
            drive_id,
            resource_id,
            owner_principal_id: resource.owner_principal_id,
            owner_kind: resource.owner_kind,
            owner_group_id: resource.owner_group_id,
            actor_principal_id,
            actor_groups,
            entries: entries_of(entries, actor_principal_id),
            creator_facts: facts_of(principals, groups, entries),
            membership_generation: resource.membership_generation,
            drive_acl_generation: resource.drive_acl_generation,
            namespace_generation: resource.namespace_generation,
            resource_namespace_generation: resource.resource_namespace_generation,
            resource_acl_generation: resource.resource_acl_generation,
        }
    }

    /// Reads, in one transaction, what a decision about the actor and the node rests on. Beside the
    /// actor's own groups and entries these are the facts of every principal that a chain of shares
    /// leads to, so that a share counts only as far as its creator's rights still reach.
    #[verifier::spinoff_prover]
    #[verifier::rlimit(60)]
    pub fn authorization_snapshot<'a>(
        tenant_id: Uuid, actor_principal_id: Uuid, drive_id: Uuid, resource_id: Uuid,
        log: &'a [Reply],
    ) -> (step: Step<'a, AuthorizationSnapshot>)
        ensures
            step.deep() == StepView::proceed(
                Self::authorization_snapshot_fault(actor_principal_id, log@),
                Self::authorization_snapshot_script(
                    tenant_id, actor_principal_id, drive_id, resource_id, log@,
                ),
                Self::authorization_snapshot_output(
                    tenant_id, actor_principal_id, drive_id, resource_id, log@,
                ),
                log@,
            ),
    {
        if log.len() == 0 {
            return Step::Ask(Command::Begin);
        }
        if log.len() <= 1 {
            return ask_execute(sql::AUTHORIZATION_SNAPSHOT_SET_ISOLATION, vec![]);
        }
        if log.len() <= 2 {
            return ask_optional(
                sql::AUTHORIZATION_SNAPSHOT_SELECT_DRIVES,
                vec![
                    Param::Id(tenant_id), Param::Id(drive_id), Param::Id(resource_id),
                    Param::Id(actor_principal_id),
                ],
            );
        }
        let resource: ResourceFacts = match required(&log[2], DatabaseError::NotFound) {
            Ok(value) => value,
            Err(fault) => return stop_deep(fault),
        };
        if log.len() <= 3 {
            return ask_all(
                sql::AUTHORIZATION_SNAPSHOT_SELECT_GROUP_MEMBERSHIPS,
                vec![Param::Id(tenant_id), Param::Id(actor_principal_id)],
            );
        }
        let actor_groups: Vec<GroupInputRow> = match many::<GroupInputRow>(&log[3]) {
            Ok(value) => value,
            Err(fault) => return stop_deep(fault),
        };
        if log.len() <= 4 {
            return ask_all(
                sql::AUTHORIZATION_SNAPSHOT_WITH_GRAPH_PRINCIPALS,
                vec![
                    Param::Id(tenant_id), Param::Id(drive_id), Param::Id(resource_id),
                    Param::Id(actor_principal_id),
                ],
            );
        }
        let principals: Vec<Uuid> = match many::<Uuid>(&log[4]) {
            Ok(value) => value,
            Err(fault) => return stop_deep(fault),
        };
        if principals.len() == 0 {
            return Step::Fail(DatabaseError::NotFound);
        }
        if log.len() <= 5 {
            return ask_all(
                sql::AUTHORIZATION_SNAPSHOT_SELECT_GROUP_MEMBERSHIPS_2,
                vec![Param::Id(tenant_id), Param::RowIds(&log[4])],
            );
        }
        let groups: Vec<GroupFact> = match many::<GroupFact>(&log[5]) {
            Ok(value) => value,
            Err(fault) => return stop_deep(fault),
        };
        if log.len() <= 6 {
            return ask_all(
                sql::AUTHORIZATION_SNAPSHOT_WITH_UNNEST,
                vec![
                    Param::Id(tenant_id), Param::Id(drive_id), Param::RowIds(&log[4]),
                    Param::Id(resource_id),
                ],
            );
        }
        let entries: Vec<EntryFact> = match many::<EntryFact>(&log[6]) {
            Ok(value) => value,
            Err(fault) => return stop_deep(fault),
        };
        if !has_id(&principals, actor_principal_id) {
            return Step::Fail(DatabaseError::NotFound);
        }
        if log.len() <= 7 {
            return Step::Ask(Command::Commit);
        }
        Step::Done(
            AuthorizationSnapshot {
                tenant_id,
                drive_id,
                resource_id,
                owner_principal_id: resource.owner_principal_id,
                owner_kind: resource.owner_kind,
                owner_group_id: resource.owner_group_id,
                actor_principal_id,
                actor_groups,
                entries: collect_entries(&entries, actor_principal_id),
                creator_facts: collect_facts(&principals, &groups, &entries),
                membership_generation: resource.membership_generation,
                drive_acl_generation: resource.drive_acl_generation,
                namespace_generation: resource.namespace_generation,
                resource_namespace_generation: resource.resource_namespace_generation,
                resource_acl_generation: resource.resource_acl_generation,
            },
        )
    }

    /// `authorization_snapshot` runs in one transaction: it is done once its commit is
    /// acknowledged, and when it fails, nothing was committed.
    pub proof fn authorization_snapshot_is_atomic(
        tenant_id: Uuid, actor_principal_id: Uuid, drive_id: Uuid, resource_id: Uuid,
        log: Seq<Reply>,
    )
        ensures
            crate::step::is_atomic(
                Self::authorization_snapshot_script(
                    tenant_id, actor_principal_id, drive_id, resource_id, log,
                ),
                0,
            ),
            crate::step::commit_acknowledged(
                Self::authorization_snapshot_fault(actor_principal_id, log.drop_last()),
                Self::authorization_snapshot_script(
                    tenant_id, actor_principal_id, drive_id, resource_id, log.drop_last(),
                ),
                log,
            ) ==> {
                &&& Self::authorization_snapshot_fault(actor_principal_id, log) is None
                &&& log.len() == Self::authorization_snapshot_script(
                    tenant_id, actor_principal_id, drive_id, resource_id, log,
                ).len()
            },
    {
    }

    /// Every statement of `authorization_snapshot` is about its tenant.
    pub proof fn authorization_snapshot_is_scoped(
        tenant_id: Uuid, actor_principal_id: Uuid, drive_id: Uuid, resource_id: Uuid,
        log: Seq<Reply>,
    )
        ensures
            crate::step::is_scoped(
                Self::authorization_snapshot_script(
                    tenant_id, actor_principal_id, drive_id, resource_id, log,
                ),
                tenant_id,
            ),
    {
    }

    /// What stops `publish_authorization_generations`, in order.
    pub open spec fn publish_authorization_generations_fault<'a>(
        snapshot: &'a AuthorizationSnapshot,
        log: Seq<Reply>,
    ) -> Option<Fault> {
        let current =
            log[1].required_row::<CurrentGenerations>(DatabaseError::StaleGeneration)->Ok_0;
        if log.len() > 1
            && log[1].required_row::<CurrentGenerations>(DatabaseError::StaleGeneration) is Err {
            Fault::of(log[1].required_row::<CurrentGenerations>(DatabaseError::StaleGeneration))
        } else if log.len() > 1
            && !current.generations.agrees_with(
                seq![
                    snapshot.membership_generation, snapshot.drive_acl_generation,
                    snapshot.namespace_generation, snapshot.resource_acl_generation,
                ],
            ) {
                Some(Fault::Error(DatabaseError::StaleGeneration))
            } else {
                None
            }
    }

    /// The commands of `publish_authorization_generations`, in order.
    pub open spec fn publish_authorization_generations_script<'a>(
        snapshot: &'a AuthorizationSnapshot, session_id: Uuid, log: Seq<Reply>,
    ) -> Seq<CommandView<'a>> {
        let current =
            log[1].required_row::<CurrentGenerations>(DatabaseError::StaleGeneration)->Ok_0;
        seq![
            CommandView::Begin,
            CommandView::optional(
                sql::PUBLISH_AUTHORIZATION_GENERATIONS_SELECT_API_SESSIONS,
                seq![
                    Param::Id(snapshot.tenant_id), Param::Id(session_id),
                    Param::Id(snapshot.actor_principal_id), Param::Id(snapshot.drive_id),
                    Param::Id(snapshot.resource_id),
                ],
            ),
            CommandView::execute(
                sql::PUBLISH_AUTHORIZATION_GENERATIONS_INSERT_AUTHORIZATION_GENERATIONS,
                seq![
                    Param::Id(snapshot.tenant_id), Param::Id(session_id),
                    Param::Id(snapshot.actor_principal_id), Param::Id(snapshot.drive_id),
                    Param::Id(snapshot.resource_id), Param::I64(snapshot.membership_generation),
                    Param::I64(snapshot.drive_acl_generation),
                    Param::I64(snapshot.namespace_generation),
                    Param::I64(snapshot.resource_acl_generation),
                    Param::Owned(current.session_expires_at),
                ],
            ),
            CommandView::Commit,
        ]
    }

    /// Records the generations under which a session was authorized, unless they have moved on.
    pub fn publish_authorization_generations<'a>(
        snapshot: &'a AuthorizationSnapshot, session_id: Uuid, log: &'a [Reply],
    ) -> (step: Step<'a, ()>)
        ensures
            step@ == StepView::proceed(
                Self::publish_authorization_generations_fault(snapshot, log@),
                Self::publish_authorization_generations_script(snapshot, session_id, log@),
                (),
                log@,
            ),
    {
        if log.len() == 0 {
            return Step::Ask(Command::Begin);
        }
        if log.len() <= 1 {
            return ask_optional(
                sql::PUBLISH_AUTHORIZATION_GENERATIONS_SELECT_API_SESSIONS,
                vec![
                    Param::Id(snapshot.tenant_id), Param::Id(session_id),
                    Param::Id(snapshot.actor_principal_id), Param::Id(snapshot.drive_id),
                    Param::Id(snapshot.resource_id),
                ],
            );
        }
        let current: CurrentGenerations = match required(&log[1], DatabaseError::StaleGeneration) {
            Ok(value) => value,
            Err(fault) => return stop(fault),
        };
        if !current.generations.agree(
            [
                snapshot.membership_generation, snapshot.drive_acl_generation,
                snapshot.namespace_generation, snapshot.resource_acl_generation,
            ],
        ) {
            return Step::Fail(DatabaseError::StaleGeneration);
        }
        if log.len() <= 2 {
            return ask_execute(
                sql::PUBLISH_AUTHORIZATION_GENERATIONS_INSERT_AUTHORIZATION_GENERATIONS,
                vec![
                    Param::Id(snapshot.tenant_id), Param::Id(session_id),
                    Param::Id(snapshot.actor_principal_id), Param::Id(snapshot.drive_id),
                    Param::Id(snapshot.resource_id), Param::I64(snapshot.membership_generation),
                    Param::I64(snapshot.drive_acl_generation),
                    Param::I64(snapshot.namespace_generation),
                    Param::I64(snapshot.resource_acl_generation),
                    Param::Owned(current.session_expires_at),
                ],
            );
        }
        if log.len() <= 3 {
            return Step::Ask(Command::Commit);
        }
        Step::Done(())
    }

    /// `publish_authorization_generations` runs in one transaction: it is done once its commit is
    /// acknowledged, and when it fails, nothing was committed.
    pub proof fn publish_authorization_generations_is_atomic<'a>(
        snapshot: &'a AuthorizationSnapshot, session_id: Uuid, log: Seq<Reply>,
    )
        ensures
            crate::step::is_atomic(
                Self::publish_authorization_generations_script(snapshot, session_id, log),
                0,
            ),
            crate::step::commit_acknowledged(
                Self::publish_authorization_generations_fault(snapshot, log.drop_last()),
                Self::publish_authorization_generations_script(
                    snapshot, session_id, log.drop_last(),
                ),
                log,
            ) ==> {
                &&& Self::publish_authorization_generations_fault(snapshot, log) is None
                &&& log.len() == Self::publish_authorization_generations_script(
                    snapshot, session_id, log,
                ).len()
            },
    {
    }

    /// Every statement of `publish_authorization_generations` is about its tenant.
    pub proof fn publish_authorization_generations_is_scoped<'a>(
        snapshot: &'a AuthorizationSnapshot, session_id: Uuid, log: Seq<Reply>,
    )
        ensures
            crate::step::is_scoped(
                Self::publish_authorization_generations_script(snapshot, session_id, log),
                snapshot.tenant_id,
            ),
    {
    }

    /// What stops `authorization_generations_match`, in order.
    pub open spec fn authorization_generations_match_fault(log: Seq<Reply>) -> Option<Fault> {
        if log.len() > 0 && log[0].optional_row::<FenceGenerations>() is Err {
            Fault::of(log[0].optional_row::<FenceGenerations>())
        } else {
            None
        }
    }

    /// The commands of `authorization_generations_match`, in order.
    pub open spec fn authorization_generations_match_script<'a>(
        tenant_id: Uuid, session_id: Uuid, principal_id: Uuid, drive_id: Uuid,
        resource_id: Uuid, log: Seq<Reply>,
    ) -> Seq<CommandView<'a>> {
        seq![
            CommandView::optional(
                sql::AUTHORIZATION_GENERATIONS_MATCH,
                seq![
                    Param::Id(tenant_id), Param::Id(session_id), Param::Id(principal_id),
                    Param::Id(drive_id), Param::Id(resource_id),
                ],
            ),
        ]
    }

    /// What `authorization_generations_match` returns.
    pub open spec fn authorization_generations_match_output(
        membership_generation: i64, drive_acl_generation: i64, namespace_generation: i64,
        resource_acl_generation: i64, log: Seq<Reply>,
    ) -> bool {
        let stored = log[0].optional_row::<FenceGenerations>()->Ok_0;
        stored is Some
            && stored->0.agrees_with(
                seq![
                    membership_generation, drive_acl_generation, namespace_generation,
                    resource_acl_generation,
                ],
            )
    }

    /// Whether these are the generations on record for a session that has not ended.
    pub fn authorization_generations_match<'a>(
        tenant_id: Uuid, session_id: Uuid, principal_id: Uuid, drive_id: Uuid,
        resource_id: Uuid, membership_generation: i64, drive_acl_generation: i64,
        namespace_generation: i64, resource_acl_generation: i64, log: &'a [Reply],
    ) -> (step: Step<'a, bool>)
        ensures
            step@ == StepView::proceed(
                Self::authorization_generations_match_fault(log@),
                Self::authorization_generations_match_script(
                    tenant_id, session_id, principal_id, drive_id, resource_id, log@,
                ),
                Self::authorization_generations_match_output(
                    membership_generation, drive_acl_generation, namespace_generation,
                    resource_acl_generation, log@,
                ),
                log@,
            ),
    {
        if log.len() == 0 {
            return ask_optional(
                sql::AUTHORIZATION_GENERATIONS_MATCH,
                vec![
                    Param::Id(tenant_id), Param::Id(session_id), Param::Id(principal_id),
                    Param::Id(drive_id), Param::Id(resource_id),
                ],
            );
        }
        let stored: Option<FenceGenerations> = match optional::<FenceGenerations>(&log[0]) {
            Ok(value) => value,
            Err(fault) => return stop(fault),
        };
        Step::Done(
            stored.is_some()
                && stored.unwrap().agree(
                    [
                        membership_generation, drive_acl_generation, namespace_generation,
                        resource_acl_generation,
                    ],
                ),
        )
    }

    /// Every statement of `authorization_generations_match` is about its tenant.
    pub proof fn authorization_generations_match_is_scoped(
        tenant_id: Uuid, session_id: Uuid, principal_id: Uuid, drive_id: Uuid, resource_id: Uuid,
        log: Seq<Reply>,
    )
        ensures
            crate::step::is_scoped(
                Self::authorization_generations_match_script(
                    tenant_id, session_id, principal_id, drive_id, resource_id, log,
                ),
                tenant_id,
            ),
    {
    }

}

} // verus!
