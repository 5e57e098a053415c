//! The rows behind identities, and the law of what linking one leaves.

use vstd::prelude::*;

use crate::database::Database;
use crate::error::DatabaseError;
use crate::error::Fault;
use crate::id::Uuid;
use crate::identity::IdentityRecord;
use crate::identity::LinkedIdentity;
use crate::identity::PrivateDrive;
use crate::json::Json;
use crate::row::Reply;
use crate::sql::catalog as sql;
use crate::step::Param;
use crate::tables::answers;
use crate::tables::catalog::with_catalog;
use crate::tables::catalog::AuditRow;
use crate::tables::catalog::CatalogTables;
use crate::tables::catalog::DriveRow;
use crate::tables::catalog::IdentityRow;
use crate::tables::catalog::NodeRow;
use crate::tables::catalog::PrincipalRow;
use crate::tables::catalog::UserRow;
use crate::tables::changed;
use crate::tables::first_row;
use crate::tables::has;
use crate::tables::has_text;
use crate::tables::Course;
use crate::tables::Tables;

verus! {

/// Whether an identity is linked to a user.
pub open spec fn is_linked(
    catalog: CatalogTables,
    issuer: Seq<char>,
    subject: Seq<char>,
) -> bool {
    let key = (issuer, subject);
    catalog.identities.contains_key(key) && catalog.users.contains_key(
        catalog.identities[key].user_id,
    )
}

/// Whether a drive and a root are a principal's own.
pub open spec fn is_private(
    catalog: CatalogTables,
    drive_id: Uuid,
    root_id: Uuid,
    principal_id: Uuid,
) -> bool {
    &&& catalog.drives.contains_key(drive_id)
    &&& catalog.drives[drive_id].owner_principal_id == principal_id
    &&& catalog.drives[drive_id].kind == "private"@
    &&& catalog.nodes.contains_key(root_id)
    &&& catalog.nodes[root_id].drive_id == drive_id
    &&& catalog.nodes[root_id].parent_id is None
}

/// Whether a row is a principal's new drive: nothing is used or reserved on it.
pub open spec fn is_new_drive(row: DriveRow, principal_id: Uuid, quota_bytes: i64) -> bool {
    &&& row.owner_principal_id == principal_id
    &&& row.kind == "private"@
    &&& row.display_name == "My Drive"@
    &&& row.quota_bytes == quota_bytes
    &&& row.used_bytes == 0
    &&& row.reserved_bytes == 0
}

/// Whether a row is the root of a drive.
pub open spec fn is_root(row: NodeRow, drive_id: Uuid, principal_id: Uuid) -> bool {
    &&& row.drive_id == drive_id
    &&& row.parent_id is None
    &&& row.kind == "directory"@
    &&& row.display_name == ""@
    &&& row.name_key == ""@
    &&& row.owner_principal_id == principal_id
    &&& row.head_version_id is None
    &&& row.trash_root_id is None
}

/// The address by which a user is found.
pub open spec fn address_of(verified_email: Option<Seq<char>>) -> Option<Seq<char>> {
    match verified_email {
        Some(address) => Some(crate::text::lowercased(address)),
        None => None,
    }
}

/// What the statements that link identities do.
#[verifier::opaque]
pub open spec fn means<'a>(
    sql: &'static str,
    params: Seq<Param<'a>>,
    reply: Reply,
    now: int,
    before: Tables,
    after: Tables,
) -> bool {
    let catalog = before.catalog;
    let id = params[1]->Id_0;
    let key = (params[1]->Text_0@, params[2]->Text_0@);
    &&& sql == sql::LINK_OIDC_IDENTITY_SELECT_EXTERNAL_IDENTITIES ==> {
        let user_id = catalog.identities[key].user_id;
        &&& after == before
        &&& answers(reply, is_linked(catalog, key.0, key.1))
        &&& first_row(reply) matches Some(row) ==> {
            &&& has::<Uuid>(row, "user_id"@, user_id)
            &&& has::<Uuid>(row, "principal_id"@, catalog.users[user_id].principal_id)
            &&& has_text(row, "status"@, catalog.users[user_id].status)
        }
    }
    &&& sql == sql::LINK_OIDC_IDENTITY_UPDATE_EXTERNAL_IDENTITIES ==> after == with_catalog(
        before,
        CatalogTables {
            identities: changed(
                catalog.identities,
                catalog.identities.contains_key(key),
                key,
                IdentityRow { claims: *params[3]->Json_0, ..catalog.identities[key] },
            ),
            ..catalog
        },
    )
    &&& sql == sql::LINK_OIDC_IDENTITY_UPDATE_USERS ==> {
        let user_id = id;
        let verified_email = Some(params[3]->Text_0@);
        after == with_catalog(
            before,
            CatalogTables {
                users: changed(
                    catalog.users,
                    catalog.users.contains_key(user_id),
                    user_id,
                    UserRow {
                        display_name: params[2]->Text_0@,
                        verified_email,
                        address: address_of(verified_email),
                        ..catalog.users[user_id]
                    },
                ),
                ..catalog
            },
        )
    }
    &&& sql == sql::PRIVATE_DRIVE_FOR_USER ==> {
        &&& after == before
        &&& reply is Rows
        &&& first_row(reply) matches Some(row) ==> exists|drive_id: Uuid, root_id: Uuid| #[trigger]
            is_private(catalog, drive_id, root_id, id) && has::<Uuid>(row, "id"@, drive_id)
                && has::<Uuid>(row, "root_id"@, root_id)
    }
    &&& sql == sql::IS_ADMIN ==> {
        &&& after == before
        &&& reply.single_row::<bool>() == Ok::<bool, Fault>(catalog.admins.contains(key))
    }
    &&& sql == sql::LINK_OIDC_IDENTITY_INSERT_PRINCIPALS ==> {
        &&& !catalog.principals.contains_key(id)
        &&& exists|row: PrincipalRow|
            {
                &&& (#[trigger] row.kind) == "user"@
                &&& !row.disabled
                &&& after == with_catalog(
                    before,
                    CatalogTables { principals: catalog.principals.insert(id, row), ..catalog },
                )
            }
    }
    &&& sql == sql::LINK_OIDC_IDENTITY_INSERT_USERS ==> {
        let verified_email = crate::text::borrowed_text(params[4]->OptText_0);
        let row = UserRow {
            principal_id: params[2]->Id_0,
            display_name: params[3]->Text_0@,
            verified_email,
            address: address_of(verified_email),
            status: "active"@,
        };
        &&& !catalog.users.contains_key(id)
        &&& after == with_catalog(
            before,
            CatalogTables { users: catalog.users.insert(id, row), ..catalog },
        )
    }
    &&& sql == sql::LINK_OIDC_IDENTITY_INSERT_EXTERNAL_IDENTITIES ==> {
        let linked = (params[3]->Text_0@, params[4]->Text_0@);
        let row = IdentityRow { user_id: params[2]->Id_0, claims: *params[5]->Json_0 };
        after == with_catalog(
            before,
            CatalogTables { identities: catalog.identities.insert(linked, row), ..catalog },
        )
    }
    &&& sql == sql::LINK_OIDC_IDENTITY_INSERT_USER_PREFERENCES ==> after == with_catalog(
        before,
        CatalogTables { preferences: catalog.preferences.insert(id), ..catalog },
    )
    &&& sql == sql::LINK_OIDC_IDENTITY_INSERT_DRIVES ==> {
        &&& !catalog.drives.contains_key(id)
        &&& exists|row: DriveRow|
            {
                &&& #[trigger] is_new_drive(row, params[2]->Id_0, params[3]->I64_0)
                &&& after == with_catalog(
                    before,
                    CatalogTables { drives: catalog.drives.insert(id, row), ..catalog },
                )
            }
    }
    &&& sql == sql::LINK_OIDC_IDENTITY_INSERT_NODES ==> {
        &&& !catalog.nodes.contains_key(params[2]->Id_0)
        &&& exists|row: NodeRow|
            {
                &&& #[trigger] is_root(row, id, params[3]->Id_0)
                &&& after == with_catalog(
                    before,
                    CatalogTables { nodes: catalog.nodes.insert(params[2]->Id_0, row), ..catalog },
                )
            }
    }
    &&& sql == sql::LINK_OIDC_IDENTITY_INSERT_NODE_ANCESTRY ==> after == with_catalog(
        before,
        CatalogTables {
            ancestry: catalog.ancestry.insert((id, params[2]->Id_0, params[2]->Id_0)),
            ..catalog
        },
    )
}

/// What linking an identity that is not linked yet leaves: a user with a principal, who is active,
/// the identity of that user, and a private drive of that principal with an empty root.
pub open spec fn is_new_user<'a>(
    issuer: Seq<char>,
    subject: Seq<char>,
    display_name: Seq<char>,
    verified_email: Option<Seq<char>>,
    claims: Json,
    out: IdentityRecord,
    before: CatalogTables,
    after: CatalogTables,
) -> bool {
    let drive = after.drives[out.private_drive_id];
    let root = after.nodes[out.private_root_id];
    let principal = after.principals[out.principal_id];
    &&& !before.users.contains_key(out.user_id)
    &&& !before.principals.contains_key(out.principal_id)
    &&& !before.drives.contains_key(out.private_drive_id)
    &&& !before.nodes.contains_key(out.private_root_id)
    &&& principal.kind == "user"@
    &&& !principal.disabled
    &&& is_new_drive(drive, out.principal_id, crate::identity::PRIVATE_DRIVE_QUOTA_BYTES)
    &&& is_root(root, out.private_drive_id, out.principal_id)
    &&& !out.suspended
    &&& after == (CatalogTables {
        principals: before.principals.insert(out.principal_id, principal),
        users: before.users.insert(
            out.user_id,
            UserRow {
                principal_id: out.principal_id,
                display_name,
                verified_email,
                address: address_of(verified_email),
                status: "active"@,
            },
        ),
        identities: before.identities.insert(
            (issuer, subject),
            IdentityRow { user_id: out.user_id, claims },
        ),
        preferences: before.preferences.insert(out.user_id),
        drives: before.drives.insert(out.private_drive_id, drive),
        nodes: before.nodes.insert(out.private_root_id, root),
        ancestry: before.ancestry.insert(
            (out.private_drive_id, out.private_root_id, out.private_root_id),
        ),
        audit_events: before.audit_events.push(
            AuditRow {
                actor: Some(out.principal_id),
                target: Some(out.principal_id),
                resource: Some(out.private_root_id),
                action: "identity.link"@,
                outcome: "allowed"@,
                reason: "oidc_identity_created"@,
                privacy_visible: false,
                details: Seq::empty(),
            },
        ),
        ..before
    })
}

/// What linking an identity that is linked already leaves: its claims are those of now, and the
/// user's name and address too where an address is verified. It is the same user, with the same
/// principal and drive, and suspended where it was.
pub open spec fn is_known_user<'a>(
    issuer: Seq<char>,
    subject: Seq<char>,
    display_name: Seq<char>,
    verified_email: Option<Seq<char>>,
    claims: Json,
    out: IdentityRecord,
    before: CatalogTables,
    after: CatalogTables,
) -> bool {
    let key = (issuer, subject);
    let user = before.users[out.user_id];
    &&& before.identities[key].user_id == out.user_id
    &&& out.principal_id == user.principal_id
    &&& is_private(before, out.private_drive_id, out.private_root_id, out.principal_id)
    &&& out.suspended == (user.status == "suspended"@)
    &&& after == (CatalogTables {
        identities: before.identities.insert(
            key,
            IdentityRow { claims, ..before.identities[key] },
        ),
        users: changed(
            before.users,
            verified_email is Some,
            out.user_id,
            UserRow { display_name, verified_email, address: address_of(verified_email), ..user },
        ),
        ..before
    })
}

/// An identity is linked to one user for good: the first time a user is made for it, with a drive
/// of its own; every later time it is that user again. An administrator is who is bound as one.
#[verifier::rlimit(80)]
pub proof fn identities_are_linked_once<'a>(
    tenant_id: Uuid,
    issuer: &'a str,
    subject: &'a str,
    display_name: &'a str,
    verified_email: Option<&'a str>,
    claims: &'a Json,
    log: Seq<Reply>,
    course: Course,
)
    requires
        crate::step::is_done(
            Database::link_oidc_identity_fault(verified_email, log),
            Database::link_oidc_identity_script(
                tenant_id,
                issuer,
                subject,
                display_name,
                verified_email,
                claims,
                log,
            ),
            log,
        ),
        course.follows(
            Database::link_oidc_identity_script(
                tenant_id,
                issuer,
                subject,
                display_name,
                verified_email,
                claims,
                log,
            ),
            log,
        ),
    ensures
        ({
            let before = course.start();
            let after = course.end();
            let out = Database::link_oidc_identity_output(tenant_id, verified_email, log);
            let linked = is_linked(before.catalog, issuer@, subject@);
            &&& out.tenant_id == tenant_id
            &&& out.tenant_admin == before.catalog.admins.contains((issuer@, subject@))
            &&& linked ==> is_known_user(
                issuer@,
                subject@,
                display_name@,
                crate::text::borrowed_text(verified_email),
                *claims,
                out,
                before.catalog,
                after.catalog,
            )
            &&& !linked ==> is_new_user(
                issuer@,
                subject@,
                display_name@,
                crate::text::borrowed_text(verified_email),
                *claims,
                out,
                before.catalog,
                after.catalog,
            )
            &&& after == with_catalog(before, after.catalog)
        }),
{
    reveal(means);
    reveal(crate::tables::catalog::means);
    reveal(LinkedIdentity::of_row);
    reveal(PrivateDrive::of_row);
    let script = Database::link_oidc_identity_script(
        tenant_id,
        issuer,
        subject,
        display_name,
        verified_email,
        claims,
        log,
    );
    let before = course.start();
    assert(course.performs(script, log, 0));
    assert(course.performs(script, log, 1));
    let found = log[1].optional_row::<LinkedIdentity>();
    assert(found is Ok);
    assert(course.rows[2] == before);
    assert(course.performs(script, log, 2));
    assert(course.performs(script, log, 3));
    assert(course.performs(script, log, 4));
    if found->Ok_0 is Some {
        assert(first_row(log[1]) is Some);
        let at = if verified_email is Some {
            4int
        } else {
            3
        };
        assert(course.performs(script, log, at));
        assert(log[at].required_row::<PrivateDrive>(DatabaseError::NotFound) is Ok);
        assert(first_row(log[at]) is Some);
        assert(course.performs(script, log, at + 1));
        assert(course.performs(script, log, at + 2));
        assert(course.end() == course.rows[at + 3]);
        let row = first_row(log[at])->0;
        let principal_id = found->Ok_0->0.principal_id;
        let (drive_id, root_id) = choose|drive_id: Uuid, root_id: Uuid| #[trigger]
            is_private(course.rows[at].catalog, drive_id, root_id, principal_id) && has::<Uuid>(
                row,
                "id"@,
                drive_id,
            ) && has::<Uuid>(row, "root_id"@, root_id);
        assert(is_private(before.catalog, drive_id, root_id, principal_id));
    } else {
        assert(first_row(log[1]) is None);
        assert(course.performs(script, log, 5));
        assert(course.performs(script, log, 6));
        assert(course.performs(script, log, 7));
        assert(course.performs(script, log, 8));
        assert(course.performs(script, log, 9));
        assert(course.performs(script, log, 10));
        assert(course.performs(script, log, 11));
        assert(course.performs(script, log, 12));
        assert(course.end() == course.rows[13]);
    }
}

} // verus!
