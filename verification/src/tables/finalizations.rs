//! The rows behind uploads that are made whole, and laws about who may do so and what it leaves.

use vstd::prelude::*;

use crate::database::Database;
use crate::error::DatabaseError;
use crate::id::Uuid;
use crate::row::Reply;
use crate::sql::catalog as sql;
use crate::step::Param;
use crate::tables::answers;
use crate::tables::catalog::with_catalog;
use crate::tables::catalog::CatalogTables;
use crate::tables::catalog::PartRow;
use crate::tables::catalog::UploadRow;
use crate::tables::changed;
use crate::tables::first_row;
use crate::tables::has;
use crate::tables::touches;
use crate::tables::Course;
use crate::tables::Tables;
use crate::upload::FinalizedPayload;

verus! {

/// The numbers of an upload's parts that are durable.
pub open spec fn durable_parts(catalog: CatalogTables, upload_id: Uuid) -> Set<i32> {
    Set::new(
        |part: i32|
            catalog.parts.contains_key((upload_id, part)) && catalog.parts[(upload_id, part)].state
                == "durable"@,
    )
}

/// Whether an upload is open under a fence.
pub open spec fn is_open_under(catalog: CatalogTables, upload_id: Uuid, fence: i64) -> bool {
    &&& catalog.uploads.contains_key(upload_id)
    &&& catalog.uploads[upload_id].state == "open"@
    &&& catalog.uploads[upload_id].fencing_token == fence
}

/// Whether an upload is being made whole by an owner under a fence.
pub open spec fn is_finalizing(
    catalog: CatalogTables,
    upload_id: Uuid,
    fence: i64,
    owner: Uuid,
) -> bool {
    &&& catalog.uploads.contains_key(upload_id)
    &&& catalog.uploads[upload_id].state == "finalizing"@
    &&& catalog.uploads[upload_id].fencing_token == fence
    &&& catalog.uploads[upload_id].finalization_owner == Some(owner)
}

/// The tables with an upload changed, where there is one to change.
pub open spec fn with_upload(before: Tables, hit: bool, id: Uuid, row: UploadRow) -> Tables {
    with_catalog(
        before,
        CatalogTables {
            uploads: changed(before.catalog.uploads, hit, id, row),
            ..before.catalog
        },
    )
}

/// What the statements that make uploads whole do.
#[verifier::opaque]
pub open spec fn means<'a>(
    sql: &'static str,
    params: Seq<Param<'a>>,
    reply: Reply,
    now: int,
    before: Tables,
    after: Tables,
) -> bool {
    let catalog = before.catalog;
    let id = params[1]->Id_0;
    let upload = catalog.uploads[id];
    &&& sql == sql::MARK_PART_DURABLE ==> {
        let key = (id, params[2]->I32_0);
        let hit = is_open_under(catalog, id, params[3]->I64_0) && catalog.parts.contains_key(key);
        let row = PartRow {
            state: "durable"@,
            size_bytes: params[4]->I32_0,
            blake3: Some(params[5]->Bytes_0@),
        };
        &&& touches(reply, hit)
        &&& after == with_catalog(
            before,
            CatalogTables { parts: changed(catalog.parts, hit, key, row), ..catalog },
        )
    }
    &&& sql == sql::CLAIM_UPLOAD_FINALIZATION_UPDATE_UPLOAD_SESSIONS ==> {
        let hit = is_open_under(catalog, id, params[2]->I64_0) && upload.expires_at > now
            && durable_parts(catalog, id).len() == upload.part_count;
        let row = UploadRow {
            state: "finalizing"@,
            finalization_owner: Some(params[3]->Id_0),
            finalization_until: Some(now + params[4]->I64_0 * 1_000_000),
            ..upload
        };
        &&& answers(reply, hit)
        &&& after == with_upload(before, hit, id, row)
        &&& reply.optional_row::<Uuid>() matches Ok(Some(payload_id)) ==> upload.payload_id
            == Some(payload_id)
    }
    &&& sql == sql::HEARTBEAT_UPLOAD_FINALIZATION ==> {
        let hit = is_finalizing(catalog, id, params[2]->I64_0, params[3]->Id_0);
        let row = UploadRow {
            finalization_until: Some(now + params[4]->I64_0 * 1_000_000),
            ..upload
        };
        &&& touches(reply, hit)
        &&& after == with_upload(before, hit, id, row)
    }
    &&& sql == sql::MARK_UPLOAD_FINALIZED_UPDATE_UPLOAD_SESSIONS ==> {
        let hit = is_finalizing(catalog, id, params[2]->I64_0, params[3]->Id_0);
        let row = UploadRow {
            state: "finalized"@,
            finalization_owner: None,
            finalization_until: None,
            ..upload
        };
        &&& answers(reply, hit)
        &&& after == with_upload(before, hit, id, row)
        &&& first_row(reply) matches Some(found) ==> {
            &&& upload.payload_id is Some
            &&& has::<Uuid>(found, "payload_id"@, upload.payload_id->0)
            &&& has::<i64>(found, "declared_size_bytes"@, upload.declared_size_bytes)
        }
    }
    &&& sql == sql::ABORT_UPLOAD_FINALIZATION_UPDATE_UPLOAD_SESSIONS ==> {
        let hit = is_finalizing(catalog, id, params[2]->I64_0, params[3]->Id_0);
        let row = UploadRow {
            state: "open"@,
            fencing_token: upload.fencing_token + 1,
            finalization_owner: None,
            finalization_until: None,
            ..upload
        };
        &&& answers(reply, hit)
        &&& after == with_upload(before, hit, id, row)
        &&& reply.optional_row::<Uuid>() matches Ok(Some(payload_id)) ==> upload.payload_id
            == Some(payload_id)
    }
    &&& sql == sql::CLAIM_UPLOAD_FINALIZATION_UPDATE_PAYLOAD_OBJECTS ==> {
        let hit = catalog.payload_is(id, "staging"@);
        &&& touches(reply, hit)
        &&& after == with_catalog(before, catalog.disposed(hit, id, "finalizing"@))
    }
    &&& sql == sql::ABORT_UPLOAD_FINALIZATION_UPDATE_PAYLOAD_OBJECTS ==> {
        let hit = catalog.payload_is(id, "finalizing"@);
        &&& touches(reply, hit)
        &&& after == with_catalog(before, catalog.disposed(hit, id, "staging"@))
    }
    &&& sql == sql::MARK_UPLOAD_FINALIZED_UPDATE_PAYLOAD_OBJECTS ==> {
        let hit = catalog.payload_is(id, "finalizing"@);
        &&& touches(reply, hit)
        &&& after == with_catalog(
            before,
            CatalogTables {
                payloads: changed(catalog.payloads, hit, id, "finalized"@),
                digests: changed(catalog.digests, hit, id, params[2]->Bytes_0@),
                sizes: changed(catalog.sizes, hit, id, params[3]->I64_0),
                ..catalog
            },
        )
    }
}

/// A part that becomes durable holds the size and the digest that were given. It does so only while
/// its upload is open under the fence that the writer knows, and no other part changes.
pub proof fn parts_become_durable_in_an_open_upload<'a>(
    tenant_id: Uuid,
    upload_id: Uuid,
    part: i32,
    fencing_token: i64,
    size: i32,
    digest: &'a [u8],
    log: Seq<Reply>,
    course: Course,
)
    requires
        crate::step::is_done(
            Database::mark_part_durable_fault(log),
            Database::mark_part_durable_script(
                tenant_id,
                upload_id,
                part,
                fencing_token,
                size,
                digest,
                log,
            ),
            log,
        ),
        course.follows(
            Database::mark_part_durable_script(
                tenant_id,
                upload_id,
                part,
                fencing_token,
                size,
                digest,
                log,
            ),
            log,
        ),
    ensures
        ({
            let before = course.start();
            let catalog = before.catalog;
            let key = (upload_id, part);
            &&& is_open_under(catalog, upload_id, fencing_token)
            &&& catalog.parts.contains_key(key)
            &&& course.end() == with_catalog(
                before,
                CatalogTables {
                    parts: catalog.parts.insert(
                        key,
                        PartRow { state: "durable"@, size_bytes: size, blake3: Some(digest@) },
                    ),
                    ..catalog
                },
            )
        }),
{
    reveal(means);
    let script = Database::mark_part_durable_script(
        tenant_id,
        upload_id,
        part,
        fencing_token,
        size,
        digest,
        log,
    );
    assert(course.performs(script, log, 0));
    assert(course.end() == course.rows[1]);
}

/// An upload is claimed by one owner, for as long as was asked for: it is open under the fence that
/// the owner knows, its time has not passed, and every part of it is durable. Its payload is
/// claimed with it.
pub proof fn whole_uploads_are_claimed(
    tenant_id: Uuid,
    upload_id: Uuid,
    fencing_token: i64,
    finalization_owner: Uuid,
    lease_seconds: i64,
    log: Seq<Reply>,
    course: Course,
)
    requires
        crate::step::is_done(
            Database::claim_upload_finalization_fault(log),
            Database::claim_upload_finalization_script(
                tenant_id,
                upload_id,
                fencing_token,
                finalization_owner,
                lease_seconds,
                log,
            ),
            log,
        ),
        course.follows(
            Database::claim_upload_finalization_script(
                tenant_id,
                upload_id,
                fencing_token,
                finalization_owner,
                lease_seconds,
                log,
            ),
            log,
        ),
    ensures
        ({
            let before = course.start();
            let catalog = before.catalog;
            let upload = catalog.uploads[upload_id];
            &&& is_open_under(catalog, upload_id, fencing_token)
            &&& upload.expires_at > course.clock[1]
            &&& durable_parts(catalog, upload_id).len() == upload.part_count
            &&& upload.payload_id is Some
            &&& catalog.payload_is(upload.payload_id->0, "staging"@)
            &&& course.end() == with_catalog(
                before,
                CatalogTables {
                    uploads: catalog.uploads.insert(
                        upload_id,
                        UploadRow {
                            state: "finalizing"@,
                            finalization_owner: Some(finalization_owner),
                            finalization_until: Some(course.clock[1] + lease_seconds * 1_000_000),
                            ..upload
                        },
                    ),
                    payloads: catalog.payloads.insert(upload.payload_id->0, "finalizing"@),
                    ..catalog
                },
            )
        }),
{
    reveal(means);
    let script = Database::claim_upload_finalization_script(
        tenant_id,
        upload_id,
        fencing_token,
        finalization_owner,
        lease_seconds,
        log,
    );
    assert(course.performs(script, log, 0));
    assert(course.performs(script, log, 1));
    assert(log[1].required_row::<Uuid>(DatabaseError::Conflict) is Ok);
    assert(first_row(log[1]) is Some);
    assert(course.performs(script, log, 2));
    assert(course.performs(script, log, 3));
    assert(course.end() == course.rows[4]);
}

/// An owner keeps its claim for as long as it asks for, while the claim is its own under the fence.
/// Nothing else changes.
pub proof fn owners_keep_their_claim(
    tenant_id: Uuid,
    upload_id: Uuid,
    fencing_token: i64,
    finalization_owner: Uuid,
    lease_seconds: i64,
    log: Seq<Reply>,
    course: Course,
)
    requires
        crate::step::is_done(
            Database::heartbeat_upload_finalization_fault(log),
            Database::heartbeat_upload_finalization_script(
                tenant_id,
                upload_id,
                fencing_token,
                finalization_owner,
                lease_seconds,
                log,
            ),
            log,
        ),
        course.follows(
            Database::heartbeat_upload_finalization_script(
                tenant_id,
                upload_id,
                fencing_token,
                finalization_owner,
                lease_seconds,
                log,
            ),
            log,
        ),
    ensures
        ({
            let before = course.start();
            let catalog = before.catalog;
            let upload = catalog.uploads[upload_id];
            &&& is_finalizing(catalog, upload_id, fencing_token, finalization_owner)
            &&& course.end() == with_upload(
                before,
                true,
                upload_id,
                UploadRow {
                    finalization_until: Some(course.clock[0] + lease_seconds * 1_000_000),
                    ..upload
                },
            )
        }),
{
    reveal(means);
    let script = Database::heartbeat_upload_finalization_script(
        tenant_id,
        upload_id,
        fencing_token,
        finalization_owner,
        lease_seconds,
        log,
    );
    assert(course.performs(script, log, 0));
    assert(course.end() == course.rows[1]);
}

/// An owner makes its upload whole: the payload is complete, with the digest that was given and the
/// size that the upload declared, and the claim is over. Only the owner can do so, under the fence
/// of its claim.
pub proof fn owners_make_uploads_whole<'a>(
    tenant_id: Uuid,
    upload_id: Uuid,
    fencing_token: i64,
    finalization_owner: Uuid,
    digest: &'a [u8],
    log: Seq<Reply>,
    course: Course,
)
    requires
        crate::step::is_done(
            Database::mark_upload_finalized_fault(log),
            Database::mark_upload_finalized_script(
                tenant_id,
                upload_id,
                fencing_token,
                finalization_owner,
                digest,
                log,
            ),
            log,
        ),
        course.follows(
            Database::mark_upload_finalized_script(
                tenant_id,
                upload_id,
                fencing_token,
                finalization_owner,
                digest,
                log,
            ),
            log,
        ),
    ensures
        ({
            let before = course.start();
            let catalog = before.catalog;
            let upload = catalog.uploads[upload_id];
            let payload_id = upload.payload_id->0;
            &&& is_finalizing(catalog, upload_id, fencing_token, finalization_owner)
            &&& upload.payload_id is Some
            &&& catalog.payload_is(payload_id, "finalizing"@)
            &&& course.end() == with_catalog(
                before,
                CatalogTables {
                    uploads: catalog.uploads.insert(
                        upload_id,
                        UploadRow {
                            state: "finalized"@,
                            finalization_owner: None,
                            finalization_until: None,
                            ..upload
                        },
                    ),
                    payloads: catalog.payloads.insert(payload_id, "finalized"@),
                    digests: catalog.digests.insert(payload_id, digest@),
                    sizes: catalog.sizes.insert(payload_id, upload.declared_size_bytes),
                    ..catalog
                },
            )
        }),
{
    reveal(means);
    reveal(FinalizedPayload::of_row);
    let script = Database::mark_upload_finalized_script(
        tenant_id,
        upload_id,
        fencing_token,
        finalization_owner,
        digest,
        log,
    );
    assert(course.performs(script, log, 0));
    assert(course.performs(script, log, 1));
    assert(log[1].required_row::<FinalizedPayload>(DatabaseError::StaleGeneration) is Ok);
    assert(first_row(log[1]) is Some);
    assert(course.performs(script, log, 2));
    assert(course.performs(script, log, 3));
    assert(course.end() == course.rows[4]);
}

/// An owner who gives its claim up leaves the upload open again, under the next fence, so that
/// whoever knew the last one is too late. The payload is as before the claim.
pub proof fn owners_give_their_claim_up(
    tenant_id: Uuid,
    upload_id: Uuid,
    fencing_token: i64,
    finalization_owner: Uuid,
    log: Seq<Reply>,
    course: Course,
)
    requires
        crate::step::is_done(
            Database::abort_upload_finalization_fault(log),
            Database::abort_upload_finalization_script(
                tenant_id,
                upload_id,
                fencing_token,
                finalization_owner,
                log,
            ),
            log,
        ),
        course.follows(
            Database::abort_upload_finalization_script(
                tenant_id,
                upload_id,
                fencing_token,
                finalization_owner,
                log,
            ),
            log,
        ),
    ensures
        ({
            let before = course.start();
            let catalog = before.catalog;
            let upload = catalog.uploads[upload_id];
            &&& is_finalizing(catalog, upload_id, fencing_token, finalization_owner)
            &&& upload.payload_id is Some
            &&& catalog.payload_is(upload.payload_id->0, "finalizing"@)
            &&& !is_open_under(course.end().catalog, upload_id, fencing_token)
            &&& course.end() == with_catalog(
                before,
                CatalogTables {
                    uploads: catalog.uploads.insert(
                        upload_id,
                        UploadRow {
                            state: "open"@,
                            fencing_token: fencing_token + 1,
                            finalization_owner: None,
                            finalization_until: None,
                            ..upload
                        },
                    ),
                    payloads: catalog.payloads.insert(upload.payload_id->0, "staging"@),
                    ..catalog
                },
            )
        }),
{
    reveal(means);
    let script = Database::abort_upload_finalization_script(
        tenant_id,
        upload_id,
        fencing_token,
        finalization_owner,
        log,
    );
    assert(course.performs(script, log, 0));
    assert(course.performs(script, log, 1));
    assert(log[1].required_row::<Uuid>(DatabaseError::StaleGeneration) is Ok);
    assert(first_row(log[1]) is Some);
    assert(course.performs(script, log, 2));
    assert(course.performs(script, log, 3));
    assert(course.end() == course.rows[4]);
}

} // verus!
