//! The rows behind shares and access control entries, and laws about who gets what.

use vstd::prelude::*;

use crate::acl::AdvancedAclEntryInput;
use crate::acl::ShareTarget;
use crate::database::Database;
use crate::error::DatabaseError;
use crate::error::Fault;
use crate::fence::FenceGenerations;
use crate::id::Uuid;
use crate::row::Reply;
use crate::row::Row;
use crate::sql::catalog as sql;
use crate::step::Param;
use crate::tables::access::lemma_rows_are_read;
use crate::tables::catalog::tells;
use crate::tables::catalog::with_catalog;
use crate::tables::catalog::AclRow;
use crate::tables::catalog::AuditRow;
use crate::tables::catalog::CatalogTables;
use crate::tables::catalog::DriveRow;
use crate::tables::catalog::Fact;
use crate::tables::catalog::NodeRow;
use crate::tables::catalog::ShareRow;
use crate::tables::changed;
use crate::tables::first_row;
use crate::tables::has;
use crate::tables::has_text;
use crate::tables::Course;
use crate::tables::Tables;

verus! {

/// Whether a user can be given a share under an address: active, with a principal that is not
/// disabled.
pub open spec fn is_addressee(catalog: CatalogTables, user_id: Uuid, address: Seq<char>) -> bool {
    let user = catalog.users[user_id];
    &&& catalog.users.contains_key(user_id)
    &&& user.address == Some(address)
    &&& user.verified_email is Some
    &&& user.status == "active"@
    &&& catalog.principals.contains_key(user.principal_id)
    &&& !catalog.principals[user.principal_id].disabled
}

/// Whether drives and nodes are as they were, but for their generations of access control, which a
/// change of entries or shares renews.
pub open spec fn renewed(before: CatalogTables, after: CatalogTables) -> bool {
    &&& after.drives.dom() == before.drives.dom()
    &&& after.nodes.dom() == before.nodes.dom()
    &&& forall|id: Uuid| #[trigger]
        before.drives.contains_key(id) ==> after.drives[id] == (DriveRow {
            acl_generation: after.drives[id].acl_generation,
            ..before.drives[id]
        })
    &&& forall|id: Uuid| #[trigger]
        before.nodes.contains_key(id) ==> after.nodes[id] == (NodeRow {
            acl_generation: after.nodes[id].acl_generation,
            ..before.nodes[id]
        })
}

/// The tables with other entries and shares, and generations that may be renewed.
pub open spec fn is_regranted(
    before: Tables,
    after: Tables,
    acl_entries: Map<Uuid, AclRow>,
    shares: Map<Uuid, ShareRow>,
) -> bool {
    &&& renewed(before.catalog, after.catalog)
    &&& after == with_catalog(
        before,
        CatalogTables {
            acl_entries,
            shares,
            drives: after.catalog.drives,
            nodes: after.catalog.nodes,
            ..before.catalog
        },
    )
}

/// Whether an entry was added, under a new identifier.
pub open spec fn grants(before: Tables, after: Tables, row: AclRow) -> bool {
    exists|id: Uuid|
        {
            &&& !(#[trigger] before.catalog.acl_entries.contains_key(id))
            &&& is_regranted(
                before,
                after,
                before.catalog.acl_entries.insert(id, row),
                before.catalog.shares,
            )
        }
}

/// Whether a group can be given entries.
pub open spec fn is_grantable(catalog: CatalogTables, group_id: Uuid) -> bool {
    let principal_id = catalog.groups[group_id].principal_id;
    &&& catalog.groups.contains_key(group_id)
    &&& catalog.principals.contains_key(principal_id)
    &&& !catalog.principals[principal_id].disabled
}

/// What the statements of shares and access control entries do.
#[verifier::opaque]
pub open spec fn means<'a>(
    sql: &'static str,
    params: Seq<Param<'a>>,
    reply: Reply,
    now: int,
    before: Tables,
    after: Tables,
) -> bool {
    let catalog = before.catalog;
    let id = params[1]->Id_0;
    &&& sql == sql::CREATE_DIRECT_SHARE_SELECT_USERS ==> {
        let address = crate::text::email_key(params[1]->Email_0@);
        &&& after == before
        &&& reply is Rows
        &&& first_row(reply) is None ==> forall|user_id: Uuid|
            !(#[trigger] is_addressee(catalog, user_id, address))
        &&& first_row(reply) matches Some(row) ==> exists|user_id: Uuid|
            {
                &&& #[trigger] is_addressee(catalog, user_id, address)
                &&& has::<Uuid>(row, "principal_id"@, catalog.users[user_id].principal_id)
                &&& has_text(row, "display_name"@, catalog.users[user_id].display_name)
                &&& has_text(row, "verified_email"@, catalog.users[user_id].verified_email->0)
            }
    }
    &&& sql == sql::RESOLVE_ADVANCED_ACL_TARGET_SELECT_USERS ==> {
        let address = crate::text::email_key(params[1]->Trimmed_0@);
        &&& after == before
        &&& match reply.optional_row::<Uuid>() {
            Ok(Some(found)) => exists|user_id: Uuid| #[trigger]
                is_addressee(catalog, user_id, address) && catalog.users[user_id].principal_id
                    == found,
            Ok(None) => forall|user_id: Uuid| !(#[trigger] is_addressee(catalog, user_id, address)),
            Err(_) => false,
        }
    }
    &&& sql == sql::RESOLVE_ADVANCED_ACL_TARGET_SELECT_GROUPS ==> {
        &&& after == before
        &&& reply.optional_row::<Uuid>() == Ok::<Option<Uuid>, Fault>(
            if is_grantable(catalog, id) {
                Some(catalog.groups[id].principal_id)
            } else {
                None
            },
        )
    }
    &&& sql == sql::ADVANCED_ACL_ACTIONS_FOR_TARGET ==> {
        let rows = reply->Rows_0@;
        &&& after == before
        &&& reply is Rows
        &&& forall|entry_id: Uuid| #[trigger]
            catalog.acl_entries.contains_key(entry_id) && is_own(
                catalog.acl_entries[entry_id],
                id,
                params[2]->Id_0,
                params[3]->Id_0,
            ) ==> exists|i: int|
                0 <= i < rows.len() && has_first(
                    #[trigger] rows[i],
                    catalog.acl_entries[entry_id].action,
                )
    }
    &&& sql == sql::CREATE_DIRECT_SHARE_INSERT_DIRECT_SHARES ==> {
        let row = ShareRow {
            drive_id: params[2]->Id_0,
            resource_id: params[3]->Id_0,
            target_principal_id: params[4]->Id_0,
            preset: params[5]->Text_0@,
            inheritance: params[6]->Text_0@,
            created_by: params[7]->Id_0,
            revoked: false,
        };
        &&& !catalog.shares.contains_key(id)
        &&& is_regranted(before, after, catalog.acl_entries, catalog.shares.insert(id, row))
    }
    &&& sql == sql::CREATE_DIRECT_SHARE_INSERT_ACL_ENTRIES ==> grants(
        before,
        after,
        AclRow {
            drive_id: params[1]->Id_0,
            resource_id: params[2]->Id_0,
            principal_id: params[4]->Id_0,
            action: params[5]->Text_0@,
            effect: "allow"@,
            inheritance: params[6]->Text_0@,
            created_by: params[7]->Id_0,
            generation: 1,
            direct_share_id: Some(params[8]->Id_0),
        },
    )
    &&& sql == sql::REPLACE_ADVANCED_ACL_ENTRIES_INSERT_ACL_ENTRIES ==> grants(
        before,
        after,
        AclRow {
            drive_id: params[1]->Id_0,
            resource_id: params[2]->Id_0,
            principal_id: params[4]->Id_0,
            action: params[5]->Text_0@,
            effect: params[6]->Text_0@,
            inheritance: params[7]->Text_0@,
            created_by: params[8]->Id_0,
            generation: 1,
            direct_share_id: None,
        },
    )
    &&& sql == sql::REPLACE_ADVANCED_ACL_ENTRIES_DELETE_ACL_ENTRIES ==> is_regranted(
        before,
        after,
        catalog.acl_entries.remove_keys(
            Set::new(
                |entry_id: Uuid|
                    catalog.acl_entries.contains_key(entry_id) && is_own(
                        catalog.acl_entries[entry_id],
                        id,
                        params[2]->Id_0,
                        params[3]->Id_0,
                    ),
            ),
        ),
        catalog.shares,
    )
    &&& sql == sql::REPLACE_ADVANCED_ACL_ENTRIES_SELECT_NODES ==> {
        let node_id = params[2]->Id_0;
        &&& after == before
        &&& catalog.nodes.contains_key(node_id) && catalog.nodes[node_id].drive_id == id
            && reply.single_row::<i64>() is Ok ==> reply.single_row::<i64>()->Ok_0
            == catalog.nodes[node_id].acl_generation
    }
    &&& sql == sql::REPLACE_ADVANCED_ACL_ENTRIES_SELECT_DRIVES ==> {
        &&& after == before
        &&& reply.optional_row::<Uuid>() == Ok::<Option<Uuid>, Fault>(
            if catalog.drives.contains_key(id) {
                Some(catalog.drives[id].owner_principal_id)
            } else {
                None
            },
        )
    }
    &&& sql == sql::REVOKE_DIRECT_SHARE_SELECT_DIRECT_SHARES ==> {
        &&& after == before
        &&& match reply.optional_row::<Uuid>() {
            Ok(Some(share_id)) => is_shared(
                catalog,
                share_id,
                id,
                params[2]->Id_0,
                params[3]->Id_0,
            ),
            Ok(None) => forall|share_id: Uuid|
                !(#[trigger] is_shared(catalog, share_id, id, params[2]->Id_0, params[3]->Id_0)),
            Err(_) => false,
        }
    }
    &&& sql == sql::REVOKE_DIRECT_SHARE_DELETE_ACL_ENTRIES ==> is_regranted(
        before,
        after,
        catalog.acl_entries.remove_keys(
            Set::new(
                |entry_id: Uuid|
                    catalog.acl_entries.contains_key(entry_id)
                        && catalog.acl_entries[entry_id].direct_share_id == Some(id),
            ),
        ),
        catalog.shares,
    )
    &&& sql == sql::REVOKE_DIRECT_SHARE_UPDATE_DIRECT_SHARES ==> is_regranted(
        before,
        after,
        catalog.acl_entries,
        changed(
            catalog.shares,
            catalog.shares.contains_key(id),
            id,
            ShareRow { revoked: true, ..catalog.shares[id] },
        ),
    )
}

/// Whether a row's first column has a text.
pub open spec fn has_first(row: Row, text: Seq<char>) -> bool {
    crate::row::first_column::<String>(row) matches Ok(found) && found@ == text
}

/// Whether an entry is a principal's own on a node: not by a share.
pub open spec fn is_own(
    entry: AclRow,
    drive_id: Uuid,
    resource_id: Uuid,
    principal_id: Uuid,
) -> bool {
    &&& entry.drive_id == drive_id
    &&& entry.resource_id == resource_id
    &&& entry.principal_id == principal_id
    &&& entry.direct_share_id is None
}

/// Whether a share of a node with a principal is in force.
pub open spec fn is_shared(
    catalog: CatalogTables,
    share_id: Uuid,
    drive_id: Uuid,
    resource_id: Uuid,
    principal_id: Uuid,
) -> bool {
    &&& catalog.shares.contains_key(share_id)
    &&& catalog.shares[share_id].drive_id == drive_id
    &&& catalog.shares[share_id].resource_id == resource_id
    &&& catalog.shares[share_id].target_principal_id == principal_id
    &&& !catalog.shares[share_id].revoked
}

/// Whether entries were added under new identifiers, one for each row, and nothing else changed.
pub open spec fn are_added(
    before: Map<Uuid, AclRow>,
    after: Map<Uuid, AclRow>,
    rows: Seq<AclRow>,
    ids: Seq<Uuid>,
) -> bool {
    &&& ids.len() == rows.len()
    &&& ids.no_duplicates()
    &&& forall|j: int|
        0 <= j < ids.len() ==> !before.contains_key(#[trigger] ids[j]) && after.contains_key(ids[j])
            && after[ids[j]] == rows[j]
    &&& forall|id: Uuid| #[trigger]
        after.contains_key(id) <==> before.contains_key(id) || ids.contains(id)
    &&& forall|id: Uuid| #[trigger] before.contains_key(id) ==> after[id] == before[id]
}

proof fn lemma_one_more(
    before: Map<Uuid, AclRow>,
    middle: Map<Uuid, AclRow>,
    rows: Seq<AclRow>,
    ids: Seq<Uuid>,
    id: Uuid,
    row: AclRow,
)
    requires
        are_added(before, middle, rows, ids),
        !middle.contains_key(id),
    ensures
        are_added(before, middle.insert(id, row), rows.push(row), ids.push(id)),
{
    let after = middle.insert(id, row);
    let more = ids.push(id);
    assert(forall|j: int| 0 <= j < ids.len() ==> middle.contains_key(#[trigger] ids[j]));
    assert(!ids.contains(id));
    assert forall|other: Uuid| #[trigger]
        after.contains_key(other) <==> before.contains_key(other) || more.contains(other) by {
        if ids.contains(other) {
            let j = ids.index_of(other);
            assert(more[j] == other);
        }
        assert(more[ids.len() as int] == id);
        if more.contains(other) && other != id {
            let j = more.index_of(other);
            assert(ids[j] == other);
        }
    }
}

proof fn lemma_regranted_again(first: Tables, second: Tables, third: Tables)
    requires
        is_regranted(first, second, second.catalog.acl_entries, second.catalog.shares),
        is_regranted(second, third, third.catalog.acl_entries, third.catalog.shares),
    ensures
        is_regranted(first, third, third.catalog.acl_entries, third.catalog.shares),
{
    assert forall|id: Uuid| #[trigger] first.catalog.drives.contains_key(id) implies third
        .catalog.drives[id] == (DriveRow {
        acl_generation: third.catalog.drives[id].acl_generation,
        ..first.catalog.drives[id]
    }) by {
        assert(second.catalog.drives.contains_key(id));
    }
    assert forall|id: Uuid| #[trigger] first.catalog.nodes.contains_key(id) implies third
        .catalog.nodes[id] == (NodeRow {
        acl_generation: third.catalog.nodes[id].acl_generation,
        ..first.catalog.nodes[id]
    }) by {
        assert(second.catalog.nodes.contains_key(id));
    }
}

/// Whether the entries between two places of a course are those of some rows.
pub open spec fn grants_all(course: Course, from: int, to: int, rows: Seq<AclRow>) -> bool {
    let before = course.rows[from];
    let after = course.rows[to];
    &&& is_regranted(before, after, after.catalog.acl_entries, before.catalog.shares)
    &&& exists|ids: Seq<Uuid>| #[trigger]
        are_added(before.catalog.acl_entries, after.catalog.acl_entries, rows, ids)
}

proof fn lemma_grants_all(course: Course, from: int, rows: Seq<AclRow>)
    requires
        forall|j: int|
            0 <= j < rows.len() ==> grants(
                course.rows[from + j],
                course.rows[from + j + 1],
                #[trigger] rows[j],
            ),
    ensures
        grants_all(course, from, from + rows.len(), rows),
    decreases rows.len(),
{
    let before = course.rows[from];
    if rows.len() == 0 {
        assert(are_added(
            before.catalog.acl_entries,
            before.catalog.acl_entries,
            rows,
            Seq::empty(),
        ));
    } else {
        let fewer = rows.drop_last();
        assert forall|j: int| 0 <= j < fewer.len() implies grants(
            course.rows[from + j],
            course.rows[from + j + 1],
            #[trigger] fewer[j],
        ) by {
            assert(fewer[j] == rows[j]);
        }
        lemma_grants_all(course, from, fewer);
        let last = rows.len() - 1;
        let middle = course.rows[from + last];
        let after = course.rows[from + rows.len()];
        assert(grants(course.rows[from + last], course.rows[from + last + 1], rows[last]));
        let ids = choose|ids: Seq<Uuid>| #[trigger]
            are_added(before.catalog.acl_entries, middle.catalog.acl_entries, fewer, ids);
        let id = choose|id: Uuid|
            {
                &&& !(#[trigger] middle.catalog.acl_entries.contains_key(id))
                &&& is_regranted(
                    middle,
                    after,
                    middle.catalog.acl_entries.insert(id, rows[last]),
                    middle.catalog.shares,
                )
            };
        lemma_one_more(
            before.catalog.acl_entries,
            middle.catalog.acl_entries,
            fewer,
            ids,
            id,
            rows[last],
        );
        assert(fewer.push(rows[last]) =~= rows);
        lemma_regranted_again(before, middle, after);
    }
}

/// The entries of a share: one for each action, which allows it to the principal that the node is
/// shared with.
pub open spec fn share_rows(
    share_id: Uuid,
    share: ShareRow,
    actions: Seq<&'static str>,
) -> Seq<AclRow> {
    Seq::new(
        actions.len(),
        |j: int|
            AclRow {
                drive_id: share.drive_id,
                resource_id: share.resource_id,
                principal_id: share.target_principal_id,
                action: actions[j]@,
                effect: "allow"@,
                inheritance: share.inheritance,
                created_by: share.created_by,
                generation: 1,
                direct_share_id: Some(share_id),
            },
    )
}

/// Sharing a node gives the user who is found under the address, and no one else, one entry for
/// each action of the preset, under the new share. It goes through where the actor is authorized as
/// when they were checked, and is not that user. The record that is returned names the user. The
/// other entries and shares stay, an audit event names actor, user and node, and an outbox event
/// tells of the node's new generation.
pub proof fn shares_grant_their_target<'a>(
    tenant_id: Uuid,
    actor_principal_id: Uuid,
    session_id: Uuid,
    drive_id: Uuid,
    resource_id: Uuid,
    verified_email: &'a str,
    preset: &'a str,
    inheritance: &'a str,
    under: FenceGenerations,
    log: Seq<Reply>,
    course: Course,
)
    requires
        crate::step::is_done(
            Database::create_direct_share_fault(
                actor_principal_id,
                verified_email,
                preset,
                inheritance,
                under.membership,
                under.drive_acl,
                under.namespace,
                under.resource_acl,
                log,
            ),
            Database::create_direct_share_script(
                tenant_id,
                actor_principal_id,
                session_id,
                drive_id,
                resource_id,
                verified_email,
                preset,
                inheritance,
                log,
            ),
            log,
        ),
        course.follows(
            Database::create_direct_share_script(
                tenant_id,
                actor_principal_id,
                session_id,
                drive_id,
                resource_id,
                verified_email,
                preset,
                inheritance,
                log,
            ),
            log,
        ),
    ensures
        ({
            let before = course.start();
            let after = course.end();
            let out = Database::create_direct_share_output(
                verified_email,
                preset,
                inheritance,
                log,
            );
            let actions = crate::acl::preset_actions(preset@)->Ok_0;
            let share_id = log[3].drawn_ids(1)->Ok_0[0];
            let share = ShareRow {
                drive_id,
                resource_id,
                target_principal_id: out.principal_id,
                preset: preset@,
                inheritance: inheritance@,
                created_by: actor_principal_id,
                revoked: false,
            };
            &&& crate::acl::preset_actions(preset@) is Ok
            &&& inheritance@ == "self"@ || inheritance@ == "self_and_descendants"@
            &&& before.catalog.permits(
                session_id,
                actor_principal_id,
                drive_id,
                resource_id,
                under,
                course.clock[0],
            )
            &&& exists|user_id: Uuid|
                {
                    let user = before.catalog.users[user_id];
                    &&& #[trigger] is_addressee(
                        before.catalog,
                        user_id,
                        crate::text::email_key(verified_email@),
                    )
                    &&& out.principal_id == user.principal_id
                    &&& out.display_name == user.display_name
                    &&& Some(out.verified_email) == user.verified_email
                }
            &&& out.principal_id != actor_principal_id
            &&& out.preset == preset@
            &&& out.inheritance == inheritance@
            &&& !before.catalog.shares.contains_key(share_id)
            &&& after.catalog.shares == before.catalog.shares.insert(share_id, share)
            &&& exists|ids: Seq<Uuid>| #[trigger]
                are_added(
                    before.catalog.acl_entries,
                    after.catalog.acl_entries,
                    share_rows(share_id, share, actions),
                    ids,
                )
            &&& renewed(before.catalog, after.catalog)
            &&& after.catalog.audit_events == before.catalog.audit_events.push(
                AuditRow {
                    actor: Some(actor_principal_id),
                    target: Some(out.principal_id),
                    resource: Some(resource_id),
                    action: "share.create"@,
                    outcome: "allowed"@,
                    reason: "share_allowed"@,
                    privacy_visible: true,
                    details: seq![
                        ("preset"@, Fact::Text(preset@)),
                        ("inheritance"@, Fact::Text(inheritance@)),
                    ],
                },
            )
            &&& tells(
                before.catalog,
                after.catalog,
                tenant_id,
                "filebelt.v1.acl.changed"@,
                "node"@,
                resource_id,
                after.catalog.nodes[resource_id].acl_generation as i64,
                course,
            )
            &&& after == with_catalog(
                before,
                CatalogTables {
                    acl_entries: after.catalog.acl_entries,
                    shares: after.catalog.shares,
                    drives: after.catalog.drives,
                    nodes: after.catalog.nodes,
                    audit_events: after.catalog.audit_events,
                    outbox_events: after.catalog.outbox_events,
                    ..before.catalog
                },
            )
        }),
{
    reveal(means);
    reveal(crate::tables::catalog::means);
    reveal(ShareTarget::of_row);
    let script = Database::create_direct_share_script(
        tenant_id,
        actor_principal_id,
        session_id,
        drive_id,
        resource_id,
        verified_email,
        preset,
        inheritance,
        log,
    );
    let before = course.start();
    let actions = crate::acl::preset_actions(preset@)->Ok_0;
    let share_id = log[3].drawn_ids(1)->Ok_0[0];
    let target = log[2].required_row::<ShareTarget>(DatabaseError::NotFound)->Ok_0;
    let share = ShareRow {
        drive_id,
        resource_id,
        target_principal_id: target.principal_id,
        preset: preset@,
        inheritance: inheritance@,
        created_by: actor_principal_id,
        revoked: false,
    };
    let rows = share_rows(share_id, share, actions);
    let at = 5 + actions.len() as int;
    assert(course.performs(script, log, 0));
    assert(course.performs(script, log, 1));
    let fence = log[1].required_row::<FenceGenerations>(DatabaseError::StaleGeneration);
    assert(fence is Ok);
    assert(first_row(log[1]) is Some);
    let expected = seq![under.membership, under.drive_acl, under.namespace, under.resource_acl];
    assert(expected[0] == fence->Ok_0.membership);
    assert(expected[1] == fence->Ok_0.drive_acl);
    assert(expected[2] == fence->Ok_0.namespace);
    assert(expected[3] == fence->Ok_0.resource_acl);
    assert(course.clock[0] <= course.clock[1]);
    assert(course.performs(script, log, 2));
    assert(first_row(log[2]) is Some);
    assert(course.performs(script, log, 3));
    assert(course.performs(script, log, 4));
    assert forall|j: int| 0 <= j < rows.len() implies grants(
        course.rows[5 + j],
        course.rows[5 + j + 1],
        #[trigger] rows[j],
    ) by {
        assert(course.performs(script, log, 5 + j));
    }
    lemma_grants_all(course, 5, rows);
    lemma_regranted_again(before, course.rows[5], course.rows[at]);
    assert(course.rows[at].catalog.nodes.contains_key(resource_id));
    assert(course.performs(script, log, at));
    assert(course.performs(script, log, at + 1));
    assert(course.performs(script, log, at + 2));
    assert(course.performs(script, log, at + 3));
    assert(course.performs(script, log, at + 4));
    assert(course.clock[0] <= course.clock[at + 2]);
    assert(course.clock[at + 2] <= course.clock[at + 4]);
    assert(course.end() == course.rows[at + 5]);
}

/// The audit event of a change of access.
pub open spec fn access_audit(
    actor: Uuid,
    target: Uuid,
    resource: Uuid,
    action: Seq<char>,
    reason: Seq<char>,
    details: Seq<(Seq<char>, Fact)>,
) -> AuditRow {
    AuditRow {
        actor: Some(actor),
        target: Some(target),
        resource: Some(resource),
        action,
        outcome: "allowed"@,
        reason,
        privacy_visible: true,
        details,
    }
}

/// Revoking a share takes every entry of that share away, and no other entry, and the share is no
/// longer in force. It goes through where the actor is authorized as when they were checked and a
/// share of the node with the principal is in force.
#[verifier::rlimit(40)]
pub proof fn revoked_shares_take_their_entries(
    tenant_id: Uuid,
    actor_principal_id: Uuid,
    session_id: Uuid,
    drive_id: Uuid,
    resource_id: Uuid,
    target_principal_id: Uuid,
    under: FenceGenerations,
    log: Seq<Reply>,
    course: Course,
)
    requires
        crate::step::is_done(
            Database::revoke_direct_share_fault(
                under.membership,
                under.drive_acl,
                under.namespace,
                under.resource_acl,
                log,
            ),
            Database::revoke_direct_share_script(
                tenant_id,
                actor_principal_id,
                session_id,
                drive_id,
                resource_id,
                target_principal_id,
                log,
            ),
            log,
        ),
        course.follows(
            Database::revoke_direct_share_script(
                tenant_id,
                actor_principal_id,
                session_id,
                drive_id,
                resource_id,
                target_principal_id,
                log,
            ),
            log,
        ),
    ensures
        ({
            let before = course.start();
            let after = course.end();
            let catalog = before.catalog;
            &&& catalog.permits(
                session_id,
                actor_principal_id,
                drive_id,
                resource_id,
                under,
                course.clock[0],
            )
            &&& exists|share_id: Uuid|
                {
                    &&& #[trigger] is_shared(
                        catalog,
                        share_id,
                        drive_id,
                        resource_id,
                        target_principal_id,
                    )
                    &&& after.catalog.shares == catalog.shares.insert(
                        share_id,
                        ShareRow { revoked: true, ..catalog.shares[share_id] },
                    )
                    &&& forall|id: Uuid| #[trigger]
                        after.catalog.acl_entries.contains_key(id)
                            <==> catalog.acl_entries.contains_key(id)
                            && catalog.acl_entries[id].direct_share_id != Some(share_id)
                }
            &&& forall|id: Uuid| #[trigger]
                after.catalog.acl_entries.contains_key(id) ==> after.catalog.acl_entries[id]
                    == catalog.acl_entries[id]
            &&& renewed(catalog, after.catalog)
            &&& after.catalog.audit_events == catalog.audit_events.push(
                access_audit(
                    actor_principal_id,
                    target_principal_id,
                    resource_id,
                    "share.revoke"@,
                    "share_allowed"@,
                    Seq::empty(),
                ),
            )
            &&& tells(
                catalog,
                after.catalog,
                tenant_id,
                "filebelt.v1.acl.changed"@,
                "node"@,
                resource_id,
                after.catalog.nodes[resource_id].acl_generation as i64,
                course,
            )
            &&& after == with_catalog(
                before,
                CatalogTables {
                    acl_entries: after.catalog.acl_entries,
                    shares: after.catalog.shares,
                    drives: after.catalog.drives,
                    nodes: after.catalog.nodes,
                    audit_events: after.catalog.audit_events,
                    outbox_events: after.catalog.outbox_events,
                    ..catalog
                },
            )
        }),
{
    reveal(means);
    reveal(crate::tables::catalog::means);
    let script = Database::revoke_direct_share_script(
        tenant_id,
        actor_principal_id,
        session_id,
        drive_id,
        resource_id,
        target_principal_id,
        log,
    );
    let before = course.start();
    assert(course.performs(script, log, 0));
    assert(course.performs(script, log, 1));
    let fence = log[1].required_row::<FenceGenerations>(DatabaseError::StaleGeneration);
    assert(fence is Ok);
    assert(first_row(log[1]) is Some);
    let expected = seq![under.membership, under.drive_acl, under.namespace, under.resource_acl];
    assert(expected[0] == fence->Ok_0.membership);
    assert(expected[1] == fence->Ok_0.drive_acl);
    assert(expected[2] == fence->Ok_0.namespace);
    assert(expected[3] == fence->Ok_0.resource_acl);
    assert(course.clock[0] <= course.clock[1]);
    assert(course.performs(script, log, 2));
    assert(log[2].required_row::<Uuid>(DatabaseError::NotFound) is Ok);
    let share_id = log[2].required_row::<Uuid>(DatabaseError::NotFound)->Ok_0;
    assert(is_shared(before.catalog, share_id, drive_id, resource_id, target_principal_id));
    assert(course.performs(script, log, 3));
    assert(course.performs(script, log, 4));
    lemma_regranted_again(before, course.rows[4], course.rows[5]);
    assert(course.rows[5].catalog.nodes.contains_key(resource_id));
    assert(course.performs(script, log, 5));
    assert(course.performs(script, log, 6));
    assert(course.performs(script, log, 7));
    assert(course.performs(script, log, 8));
    assert(course.performs(script, log, 9));
    assert(course.clock[0] <= course.clock[7]);
    assert(course.clock[7] <= course.clock[9]);
    assert(course.end() == course.rows[10]);
}

/// Revoking undoes sharing: where a share was created and is then revoked, the entries are those
/// from before it was created. No entry stood there under the identifier of the share.
pub proof fn revoking_undoes_sharing(
    before: Map<Uuid, AclRow>,
    shared: Map<Uuid, AclRow>,
    revoked: Map<Uuid, AclRow>,
    share_id: Uuid,
    share: ShareRow,
    actions: Seq<&'static str>,
    ids: Seq<Uuid>,
)
    requires
        are_added(before, shared, share_rows(share_id, share, actions), ids),
        forall|id: Uuid| #[trigger]
            before.contains_key(id) ==> before[id].direct_share_id != Some(share_id),
        forall|id: Uuid| #[trigger]
            revoked.contains_key(id) <==> shared.contains_key(id) && shared[id].direct_share_id
                != Some(share_id),
        forall|id: Uuid| #[trigger] revoked.contains_key(id) ==> revoked[id] == shared[id],
    ensures
        revoked == before,
{
    assert forall|id: Uuid| revoked.contains_key(id) == before.contains_key(id) by {
        if ids.contains(id) {
            let j = ids.index_of(id);
            assert(ids[j] == id);
        }
    }
    assert(revoked =~= before);
}

/// The entries that a replacement asks for.
pub open spec fn wanted_rows<'a>(
    drive_id: Uuid,
    resource_id: Uuid,
    principal_id: Uuid,
    actor_principal_id: Uuid,
    entries: Seq<AdvancedAclEntryInput<'a>>,
) -> Seq<AclRow> {
    Seq::new(
        entries.len(),
        |j: int|
            AclRow {
                drive_id,
                resource_id,
                principal_id,
                action: entries[j].action@,
                effect: entries[j].effect@,
                inheritance: entries[j].inheritance@,
                created_by: actor_principal_id,
                generation: 1,
                direct_share_id: None,
            },
    )
}

/// The entries without a principal's own on a node.
pub open spec fn without_own(
    entries: Map<Uuid, AclRow>,
    drive_id: Uuid,
    resource_id: Uuid,
    principal_id: Uuid,
) -> Map<Uuid, AclRow> {
    entries.remove_keys(
        Set::new(
            |id: Uuid|
                entries.contains_key(id) && is_own(
                    entries[id],
                    drive_id,
                    resource_id,
                    principal_id,
                ),
        ),
    )
}

/// Replacing a principal's entries on a node leaves that principal, on that node, the submitted
/// entries and no other of its own; the entries of shares, of other principals and of other nodes
/// stay. It goes through where the actor is authorized as when they were checked, and the principal
/// is the expected one and not the drive's owner, whose access no entry limits.
#[verifier::rlimit(60)]
pub proof fn replaced_entries_are_the_submitted<'a>(
    tenant_id: Uuid,
    actor_principal_id: Uuid,
    session_id: Uuid,
    drive_id: Uuid,
    resource_id: Uuid,
    vocabulary: &'a [&'a str],
    target_kind: &'a str,
    verified_email: Option<&'a str>,
    group_id: Option<Uuid>,
    expected_target_principal_id: Uuid,
    entries: &'a [AdvancedAclEntryInput<'a>],
    covered_actions: &'a [&'a str],
    under: FenceGenerations,
    log: Seq<Reply>,
    course: Course,
)
    requires
        crate::step::is_done(
            Database::replace_advanced_acl_entries_fault(
                vocabulary,
                target_kind,
                verified_email,
                group_id,
                expected_target_principal_id,
                entries,
                covered_actions,
                under.membership,
                under.drive_acl,
                under.namespace,
                under.resource_acl,
                log,
            ),
            Database::replace_advanced_acl_entries_script(
                tenant_id,
                actor_principal_id,
                session_id,
                drive_id,
                resource_id,
                target_kind,
                verified_email,
                group_id,
                entries,
                log,
            ),
            log,
        ),
        course.follows(
            Database::replace_advanced_acl_entries_script(
                tenant_id,
                actor_principal_id,
                session_id,
                drive_id,
                resource_id,
                target_kind,
                verified_email,
                group_id,
                entries,
                log,
            ),
            log,
        ),
    ensures
        ({
            let before = course.start();
            let after = course.end();
            let catalog = before.catalog;
            let out = Database::replace_advanced_acl_entries_output(entries, log);
            &&& catalog.permits(
                session_id,
                actor_principal_id,
                drive_id,
                resource_id,
                under,
                course.clock[0],
            )
            &&& crate::acl::texts(covered_actions@).contains("MANAGE_ACL"@)
            &&& forall|j: int|
                0 <= j < entries@.len() ==> crate::acl::texts(covered_actions@).contains(
                    (#[trigger] entries@[j]).action@,
                )
            &&& forall|id: Uuid| #[trigger]
                catalog.acl_entries.contains_key(id) && is_own(
                    catalog.acl_entries[id],
                    drive_id,
                    resource_id,
                    out.0,
                ) ==> crate::acl::texts(covered_actions@).contains(catalog.acl_entries[id].action)
            &&& out.0 == expected_target_principal_id
            &&& out.0 != catalog.drives[drive_id].owner_principal_id
            &&& target_kind@ == "user"@ ==> verified_email is Some && exists|user_id: Uuid|
                {
                    &&& #[trigger] is_addressee(
                        catalog,
                        user_id,
                        crate::text::email_key(verified_email->0@),
                    )
                    &&& catalog.users[user_id].principal_id == out.0
                }
            &&& target_kind@ != "user"@ ==> group_id is Some && catalog.groups.contains_key(
                group_id->0,
            ) && catalog.groups[group_id->0].principal_id == out.0
            &&& exists|ids: Seq<Uuid>| #[trigger]
                are_added(
                    without_own(catalog.acl_entries, drive_id, resource_id, out.0),
                    after.catalog.acl_entries,
                    wanted_rows(drive_id, resource_id, out.0, actor_principal_id, entries@),
                    ids,
                )
            &&& after.catalog.shares == catalog.shares
            &&& renewed(catalog, after.catalog)
            &&& out.1 == after.catalog.nodes[resource_id].acl_generation
            &&& after.catalog.audit_events == catalog.audit_events.push(
                access_audit(
                    actor_principal_id,
                    out.0,
                    resource_id,
                    "acl.replace"@,
                    "manage_acl_allowed"@,
                    seq![
                        ("entry_count"@, Fact::Int(entries@.len() as i64)),
                        ("target_kind"@, Fact::Text(target_kind@)),
                    ],
                ),
            )
            &&& tells(
                catalog,
                after.catalog,
                tenant_id,
                "filebelt.v1.acl.changed"@,
                "node"@,
                resource_id,
                out.1,
                course,
            )
            &&& after == with_catalog(
                before,
                CatalogTables {
                    acl_entries: after.catalog.acl_entries,
                    drives: after.catalog.drives,
                    nodes: after.catalog.nodes,
                    audit_events: after.catalog.audit_events,
                    outbox_events: after.catalog.outbox_events,
                    ..catalog
                },
            )
        }),
{
    reveal(means);
    reveal(crate::tables::catalog::means);
    let script = Database::replace_advanced_acl_entries_script(
        tenant_id,
        actor_principal_id,
        session_id,
        drive_id,
        resource_id,
        target_kind,
        verified_email,
        group_id,
        entries,
        log,
    );
    let before = course.start();
    let catalog = before.catalog;
    let target = log[2].required_row::<Uuid>(DatabaseError::StaleGeneration)->Ok_0;
    let rows = wanted_rows(drive_id, resource_id, target, actor_principal_id, entries@);
    let at = 6 + entries@.len() as int;
    assert(course.performs(script, log, 0));
    assert(course.performs(script, log, 1));
    let fence = log[1].required_row::<FenceGenerations>(DatabaseError::StaleGeneration);
    assert(fence is Ok);
    assert(first_row(log[1]) is Some);
    let expected = seq![under.membership, under.drive_acl, under.namespace, under.resource_acl];
    assert(expected[0] == fence->Ok_0.membership);
    assert(expected[1] == fence->Ok_0.drive_acl);
    assert(expected[2] == fence->Ok_0.namespace);
    assert(expected[3] == fence->Ok_0.resource_acl);
    assert(course.clock[0] <= course.clock[1]);
    assert(course.performs(script, log, 2));
    assert(course.performs(script, log, 3));
    let covered = crate::acl::texts(covered_actions@);
    let stored = log[3].all_rows::<String>()->Ok_0;
    assert(log[3].all_rows::<String>() is Ok);
    lemma_rows_are_read::<String>(log[3]->Rows_0@);
    assert forall|id: Uuid| #[trigger]
        catalog.acl_entries.contains_key(id) && is_own(
            catalog.acl_entries[id],
            drive_id,
            resource_id,
            target,
        ) implies covered.contains(catalog.acl_entries[id].action) by {
        let i = choose|i: int|
            0 <= i < log[3]->Rows_0@.len() && has_first(
                #[trigger] log[3]->Rows_0@[i],
                catalog.acl_entries[id].action,
            );
        assert(<String as crate::row::FromRow>::row_spec(log[3]->Rows_0@[i]) is Ok);
        assert(crate::acl::stored_texts(stored)[i] == catalog.acl_entries[id].action);
    }
    assert forall|j: int| 0 <= j < entries@.len() implies covered.contains(
        (#[trigger] entries@[j]).action@,
    ) by {
        assert(crate::acl::entry_texts(entries@)[j] == entries@[j].action@);
    }
    assert(course.performs(script, log, 4));
    assert(course.rows[5] == before);
    assert(course.performs(script, log, 5));
    assert(course.rows[6].catalog.acl_entries =~= without_own(
        catalog.acl_entries,
        drive_id,
        resource_id,
        target,
    ));
    assert forall|j: int| 0 <= j < rows.len() implies grants(
        course.rows[6 + j],
        course.rows[6 + j + 1],
        #[trigger] rows[j],
    ) by {
        assert(course.performs(script, log, 6 + j));
    }
    lemma_grants_all(course, 6, rows);
    lemma_regranted_again(before, course.rows[6], course.rows[at]);
    assert(course.rows[at].catalog.nodes.contains_key(resource_id));
    assert(course.performs(script, log, at));
    assert(course.performs(script, log, at + 1));
    assert(course.performs(script, log, at + 2));
    assert(course.performs(script, log, at + 3));
    assert(course.performs(script, log, at + 4));
    assert(course.clock[0] <= course.clock[at + 2]);
    assert(course.clock[at + 2] <= course.clock[at + 4]);
    assert(course.end() == course.rows[at + 5]);
}

} // verus!
