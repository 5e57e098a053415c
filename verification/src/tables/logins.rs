//! The rows behind logins and sessions, and laws about what they hold and how they end.

use vstd::prelude::*;

use crate::database::Database;
use crate::error::DatabaseError;
use crate::id::Uuid;
use crate::identity::IdentityRecord;
use crate::identity::OidcAttemptRecord;
use crate::identity::TouchedSession;
use crate::row::Reply;
use crate::row::Row;
use crate::sql::catalog as sql;
use crate::step::Param;
use crate::tables::answers;
use crate::tables::catalog::with_catalog;
use crate::tables::catalog::ApiSessionRow;
use crate::tables::catalog::AttemptRow;
use crate::tables::catalog::AuditRow;
use crate::tables::catalog::CatalogTables;
use crate::tables::catalog::Fact;
use crate::tables::changed;
use crate::tables::first_row;
use crate::tables::has;
use crate::tables::has_bytes;
use crate::tables::has_optional_text;
use crate::tables::has_text;
use crate::tables::Course;
use crate::tables::Tables;

verus! {

/// Whether a token resolves to a session at a time: the session is the token's, it has not ended,
/// and its user is active.
pub open spec fn is_resolved(
    catalog: CatalogTables,
    id: Uuid,
    key_generation: i32,
    token_digest: Seq<u8>,
    now: int,
) -> bool {
    let session = catalog.api_sessions[id];
    &&& catalog.api_sessions.contains_key(id)
    &&& session.key_generation == key_generation
    &&& session.token_digest == token_digest
    &&& !session.revoked
    &&& session.idle_expires_at > now
    &&& session.absolute_expires_at > now
    &&& catalog.users.contains_key(session.user_id)
    &&& catalog.users[session.user_id].status == "active"@
}

/// Whether an identity of a principal's user is bound as an administrator.
pub open spec fn administers(
    catalog: CatalogTables,
    key: (Seq<char>, Seq<char>),
    principal_id: Uuid,
) -> bool {
    let user_id = catalog.identities[key].user_id;
    &&& catalog.identities.contains_key(key)
    &&& catalog.admins.contains(key)
    &&& catalog.users.contains_key(user_id)
    &&& catalog.users[user_id].principal_id == principal_id
}

/// The time at which a session goes idle when it is used.
pub open spec fn idle_from(session: ApiSessionRow, now: int, idle_seconds: i64) -> int {
    let idle = now + idle_seconds * 1_000_000;
    if idle < session.absolute_expires_at {
        idle
    } else {
        session.absolute_expires_at
    }
}

/// The sessions once those that a token resolves to are used.
pub open spec fn used(
    catalog: CatalogTables,
    key_generation: i32,
    token_digest: Seq<u8>,
    idle_seconds: i64,
    now: int,
) -> Map<Uuid, ApiSessionRow> {
    catalog.api_sessions.map_entries(
        |id: Uuid, row: ApiSessionRow|
            if is_resolved(catalog, id, key_generation, token_digest, now) {
                ApiSessionRow { idle_expires_at: idle_from(row, now, idle_seconds), ..row }
            } else {
                row
            },
    )
}

/// Whether a session is one of a user's that have not been revoked, but for one that is spared.
pub open spec fn is_revocable(
    catalog: CatalogTables,
    id: Uuid,
    user_id: Uuid,
    spared: Option<Uuid>,
) -> bool {
    &&& catalog.api_sessions.contains_key(id)
    &&& catalog.api_sessions[id].user_id == user_id
    &&& !catalog.api_sessions[id].revoked
    &&& spared != Some(id)
}

/// The sessions once those of a user are revoked, but for one that is spared.
pub open spec fn without_sessions(
    catalog: CatalogTables,
    user_id: Uuid,
    spared: Option<Uuid>,
) -> Map<Uuid, ApiSessionRow> {
    catalog.api_sessions.map_entries(
        |id: Uuid, row: ApiSessionRow|
            if is_revocable(catalog, id, user_id, spared) {
                ApiSessionRow { revoked: true, ..row }
            } else {
                row
            },
    )
}

/// The attempts that can still be used.
pub open spec fn open_attempts(catalog: CatalogTables, now: int) -> Map<Uuid, AttemptRow> {
    catalog.attempts.remove_keys(
        Set::new(
            |id: Uuid|
                catalog.attempts.contains_key(id) && (catalog.attempts[id].expires_at <= now
                    || catalog.attempts[id].consumed),
        ),
    )
}

/// Whether an attempt has a state and can still be used.
pub open spec fn is_attempt_of(
    catalog: CatalogTables,
    id: Uuid,
    state_digest: Seq<u8>,
    now: int,
) -> bool {
    &&& catalog.attempts.contains_key(id)
    &&& catalog.attempts[id].state_digest == state_digest
    &&& !catalog.attempts[id].consumed
    &&& catalog.attempts[id].expires_at > now
}

/// The attempts once those of a state are used: their secrets are gone.
pub open spec fn without_attempts(
    catalog: CatalogTables,
    state_digest: Seq<u8>,
    now: int,
) -> Map<Uuid, AttemptRow> {
    catalog.attempts.map_entries(
        |id: Uuid, row: AttemptRow|
            if is_attempt_of(catalog, id, state_digest, now) {
                AttemptRow { consumed: true, nonce: ""@, pkce_verifier: ""@, ..row }
            } else {
                row
            },
    )
}

/// Whether a row of a reply is what a session and its user hold.
pub open spec fn is_touched(row: Row, catalog: CatalogTables, id: Uuid, now: int) -> bool {
    let session = catalog.api_sessions[id];
    let user = catalog.users[session.user_id];
    &&& has::<Uuid>(row, "id"@, id)
    &&& has::<Uuid>(row, "user_id"@, session.user_id)
    &&& has::<Uuid>(row, "principal_id"@, session.principal_id)
    &&& has_bytes(row, "csrf_digest"@, session.csrf_digest)
    &&& has_text(row, "display_name"@, user.display_name)
    &&& has_optional_text(row, "verified_email"@, user.verified_email)
    &&& has::<bool>(row, "fresh"@, session.reauthenticated_at > now - 600_000_000)
}

/// Whether a row of a reply is what an attempt holds.
pub open spec fn is_used_attempt(row: Row, attempt: AttemptRow) -> bool {
    &&& has_text(row, "nonce_secret"@, attempt.nonce)
    &&& has_text(row, "pkce_verifier_secret"@, attempt.pkce_verifier)
    &&& has_text(row, "return_path"@, attempt.return_path)
    &&& has::<Option<Uuid>>(row, "session_id"@, attempt.session_id)
}

/// What the statements of logins and sessions do.
#[verifier::opaque]
pub open spec fn means<'a>(
    sql: &'static str,
    params: Seq<Param<'a>>,
    reply: Reply,
    now: int,
    before: Tables,
    after: Tables,
) -> bool {
    let catalog = before.catalog;
    let id = params[1]->Id_0;
    &&& sql == sql::CREATE_SESSION ==> {
        &&& !catalog.api_sessions.contains_key(id)
        &&& exists|reauthenticated_at: int|
            #![trigger catalog.api_sessions.insert(
                id,
                session_of(params, now, reauthenticated_at),
            )]
            after == with_catalog(
                before,
                CatalogTables {
                    api_sessions: catalog.api_sessions.insert(
                        id,
                        session_of(params, now, reauthenticated_at),
                    ),
                    ..catalog
                },
            )
    }
    &&& sql == sql::RESOLVE_SESSION_UPDATE_API_SESSIONS ==> {
        let key_generation = params[1]->I32_0;
        let token_digest = params[2]->Bytes_0@;
        &&& reply is Rows
        &&& after == with_catalog(
            before,
            CatalogTables {
                api_sessions: used(catalog, key_generation, token_digest, params[3]->I64_0, now),
                ..catalog
            },
        )
        &&& first_row(reply) matches Some(row) ==> exists|session_id: Uuid| #[trigger]
            is_resolved(catalog, session_id, key_generation, token_digest, now) && is_touched(
                row,
                catalog,
                session_id,
                now,
            )
        &&& first_row(reply) is None ==> forall|session_id: Uuid|
            !#[trigger] is_resolved(catalog, session_id, key_generation, token_digest, now)
    }
    &&& sql == sql::RESOLVE_SESSION_EXISTS_EXTERNAL_IDENTITIES ==> {
        &&& after == before
        &&& reply.single_row::<bool>() is Ok ==> (reply.single_row::<bool>()->Ok_0
            <==> exists|key: (Seq<char>, Seq<char>)| administers(catalog, key, id))
    }
    &&& sql == sql::REVOKE_SESSION ==> {
        let hit = catalog.api_sessions.contains_key(id) && !catalog.api_sessions[id].revoked;
        &&& after == with_catalog(
            before,
            CatalogTables {
                api_sessions: changed(
                    catalog.api_sessions,
                    hit,
                    id,
                    ApiSessionRow { revoked: true, ..catalog.api_sessions[id] },
                ),
                ..catalog
            },
        )
        &&& answers(reply, hit)
        &&& reply.optional_row::<Uuid>() matches Ok(Some(principal_id)) ==> principal_id
            == catalog.api_sessions[id].principal_id
    }
    &&& sql == sql::REVOKE_ALL_SESSIONS ==> {
        let spared = params[2]->OptId_0;
        &&& after == with_catalog(
            before,
            CatalogTables { api_sessions: without_sessions(catalog, id, spared), ..catalog },
        )
        &&& reply.all_rows::<Uuid>() matches Ok(ids) ==> {
            &&& ids.no_duplicates()
            &&& forall|session_id: Uuid|
                ids.contains(session_id) <==> #[trigger] is_revocable(
                    catalog,
                    session_id,
                    id,
                    spared,
                )
        }
    }
    &&& sql == sql::CREATE_OIDC_ATTEMPT_SELECT_TENANTS ==> after == before
    &&& sql == sql::CREATE_OIDC_ATTEMPT_DELETE_OIDC_LOGIN_ATTEMPTS ==> after == with_catalog(
        before,
        CatalogTables { attempts: open_attempts(catalog, now), ..catalog },
    )
    &&& sql == sql::CREATE_OIDC_ATTEMPT_COUNT_OIDC_LOGIN_ATTEMPTS ==> {
        &&& after == before
        &&& reply.single_row::<i64>() is Ok ==> reply.single_row::<i64>()->Ok_0
            == catalog.attempts.dom().len()
    }
    &&& sql == sql::CREATE_OIDC_ATTEMPT_INSERT_OIDC_LOGIN_ATTEMPTS ==> exists|attempt_id: Uuid|
        !(#[trigger] catalog.attempts.contains_key(attempt_id)) && after == with_catalog(
            before,
            CatalogTables {
                attempts: catalog.attempts.insert(
                    attempt_id,
                    AttemptRow {
                        state_digest: params[2]->Bytes_0@,
                        nonce_digest: params[3]->Bytes_0@,
                        pkce_digest: params[4]->Bytes_0@,
                        nonce: params[5]->Text_0@,
                        pkce_verifier: params[6]->Text_0@,
                        return_path: params[7]->Text_0@,
                        session_id: params[8]->OptId_0,
                        expires_at: now + 600_000_000,
                        consumed: false,
                    },
                ),
                ..catalog
            },
        )
    &&& sql == sql::CONSUME_OIDC_ATTEMPT ==> {
        let state_digest = params[1]->Bytes_0@;
        &&& reply is Rows
        &&& after == with_catalog(
            before,
            CatalogTables { attempts: without_attempts(catalog, state_digest, now), ..catalog },
        )
        &&& first_row(reply) matches Some(row) ==> exists|attempt_id: Uuid| #[trigger]
            is_attempt_of(catalog, attempt_id, state_digest, now) && is_used_attempt(
                row,
                catalog.attempts[attempt_id],
            )
        &&& first_row(reply) is None ==> forall|attempt_id: Uuid|
            !#[trigger] is_attempt_of(catalog, attempt_id, state_digest, now)
    }
}

/// The session that an insertion binds.
pub open spec fn session_of<'a>(
    params: Seq<Param<'a>>,
    now: int,
    reauthenticated_at: int,
) -> ApiSessionRow {
    ApiSessionRow {
        user_id: params[2]->Id_0,
        principal_id: params[3]->Id_0,
        key_generation: params[4]->I32_0,
        token_digest: params[5]->Bytes_0@,
        csrf_digest: params[6]->Bytes_0@,
        user_agent: crate::text::borrowed_text(params[9]->OptText_0),
        revoked: false,
        idle_expires_at: now + params[7]->I64_0 * 1_000_000,
        absolute_expires_at: now + params[8]->I64_0 * 1_000_000,
        reauthenticated_at,
    }
}

/// A session that is created is the user's and the principal's of the identity, under the token
/// and the agent that were given, and lasts as long as was asked for. The log of events names it.
pub proof fn sessions_hold_what_they_were_made_with<'a>(
    identity: &'a IdentityRecord,
    key_generation: i32,
    token_digest: &'a [u8],
    csrf_digest: &'a [u8],
    idle_seconds: i64,
    absolute_seconds: i64,
    user_agent: Option<&'a str>,
    log: Seq<Reply>,
    course: Course,
)
    requires
        crate::step::is_done(
            Database::create_session_fault(log),
            Database::create_session_script(
                identity,
                key_generation,
                token_digest,
                csrf_digest,
                idle_seconds,
                absolute_seconds,
                user_agent,
                log,
            ),
            log,
        ),
        course.follows(
            Database::create_session_script(
                identity,
                key_generation,
                token_digest,
                csrf_digest,
                idle_seconds,
                absolute_seconds,
                user_agent,
                log,
            ),
            log,
        ),
    ensures
        ({
            let before = course.start();
            let catalog = before.catalog;
            let id = Database::create_session_output(log);
            let row = course.end().catalog.api_sessions[id];
            &&& !catalog.api_sessions.contains_key(id)
            &&& row == (ApiSessionRow {
                user_id: identity.user_id,
                principal_id: identity.principal_id,
                key_generation,
                token_digest: token_digest@,
                csrf_digest: csrf_digest@,
                user_agent: crate::text::borrowed_text(user_agent),
                revoked: false,
                idle_expires_at: course.clock[2] + idle_seconds * 1_000_000,
                absolute_expires_at: course.clock[2] + absolute_seconds * 1_000_000,
                reauthenticated_at: row.reauthenticated_at,
            })
            &&& course.end() == with_catalog(
                before,
                CatalogTables {
                    api_sessions: catalog.api_sessions.insert(id, row),
                    audit_events: catalog.audit_events.push(
                        AuditRow {
                            actor: Some(identity.principal_id),
                            target: Some(identity.principal_id),
                            resource: None,
                            action: "session.create"@,
                            outcome: "allowed"@,
                            reason: "oidc_authenticated"@,
                            privacy_visible: true,
                            details: seq![("session_id"@, Fact::Id(id))],
                        },
                    ),
                    ..catalog
                },
            )
        }),
{
    reveal(means);
    reveal(crate::tables::catalog::means);
    let script = Database::create_session_script(
        identity,
        key_generation,
        token_digest,
        csrf_digest,
        idle_seconds,
        absolute_seconds,
        user_agent,
        log,
    );
    assert(course.performs(script, log, 0));
    assert(course.performs(script, log, 1));
    assert(course.performs(script, log, 2));
    assert(course.performs(script, log, 3));
    assert(course.performs(script, log, 4));
    assert(course.end() == course.rows[5]);
    assert(course.end().catalog.audit_events.last().details =~= seq![
        ("session_id"@, Fact::Id(Database::create_session_output(log))),
    ]);
}

/// A token resolves to a session of its own that has not ended and whose user is active, with what
/// that session and user hold. The session then goes idle later, though never past its end.
pub proof fn tokens_resolve_to_their_session<'a>(
    tenant_id: Uuid,
    key_generation: i32,
    token_digest: &'a [u8],
    idle_seconds: i64,
    log: Seq<Reply>,
    course: Course,
)
    requires
        crate::step::is_done(
            Database::resolve_session_fault(log),
            Database::resolve_session_script(
                tenant_id,
                key_generation,
                token_digest,
                idle_seconds,
                log,
            ),
            log,
        ),
        course.follows(
            Database::resolve_session_script(
                tenant_id,
                key_generation,
                token_digest,
                idle_seconds,
                log,
            ),
            log,
        ),
    ensures
        ({
            let before = course.start();
            let catalog = before.catalog;
            let out = Database::resolve_session_output(tenant_id, log);
            let session = catalog.api_sessions[out.session_id];
            let user = catalog.users[session.user_id];
            let now = course.clock[0];
            &&& is_resolved(catalog, out.session_id, key_generation, token_digest@, now)
            &&& out.tenant_id == tenant_id
            &&& out.user_id == session.user_id
            &&& out.principal_id == session.principal_id
            &&& out.csrf_digest@ == session.csrf_digest
            &&& out.display_name@ == user.display_name
            &&& crate::text::optional_text(out.verified_email) == user.verified_email
            &&& out.reauthenticated_recently <==> session.reauthenticated_at > now - 600_000_000
            &&& out.tenant_admin <==> exists|key: (Seq<char>, Seq<char>)|
                administers(catalog, key, out.principal_id)
            &&& course.end() == with_catalog(
                before,
                CatalogTables {
                    api_sessions: used(catalog, key_generation, token_digest@, idle_seconds, now),
                    ..catalog
                },
            )
        }),
{
    reveal(means);
    reveal(TouchedSession::of_row);
    let script = Database::resolve_session_script(
        tenant_id,
        key_generation,
        token_digest,
        idle_seconds,
        log,
    );
    let catalog = course.start().catalog;
    assert(course.performs(script, log, 0));
    assert(log[0].required_row::<TouchedSession>(DatabaseError::NotFound) is Ok);
    assert(first_row(log[0]) is Some);
    let id = choose|id: Uuid| #[trigger]
        is_resolved(catalog, id, key_generation, token_digest@, course.clock[0]) && is_touched(
            first_row(log[0])->0,
            catalog,
            id,
            course.clock[0],
        );
    let out = Database::resolve_session_output(tenant_id, log);
    assert(out.session_id == id);
    assert(out.csrf_digest@ == catalog.api_sessions[id].csrf_digest);
    assert(out.display_name@ == catalog.users[out.user_id].display_name);
    assert(crate::text::optional_text(out.verified_email)
        == catalog.users[out.user_id].verified_email);
    assert(out.reauthenticated_recently <==> catalog.api_sessions[id].reauthenticated_at
        > course.clock[0] - 600_000_000);
    assert(course.performs(script, log, 1));
    assert(log[1].single_row::<bool>() is Ok);
    assert(course.rows[2] == course.rows[1]);
    assert(course.end() == course.rows[2]);
    assert(out.tenant_admin <==> exists|key: (Seq<char>, Seq<char>)|
                administers(course.rows[1].catalog, key, out.principal_id));
    let after = course.rows[1].catalog;
    if exists|key: (Seq<char>, Seq<char>)| administers(after, key, out.principal_id) {
        let key = choose|key: (Seq<char>, Seq<char>)| administers(after, key, out.principal_id);
        assert(administers(catalog, key, out.principal_id));
    }
    if exists|key: (Seq<char>, Seq<char>)| administers(catalog, key, out.principal_id) {
        let key = choose|key: (Seq<char>, Seq<char>)| administers(catalog, key, out.principal_id);
        assert(administers(after, key, out.principal_id));
    }
}

/// Revoking a session ends that session and no other, and tells whether there was one to end. The
/// log of events names who did so, and whose session it was.
pub proof fn revoking_ends_one_session(
    tenant_id: Uuid,
    actor: Uuid,
    session_id: Uuid,
    log: Seq<Reply>,
    course: Course,
)
    requires
        crate::step::is_done(
            Database::revoke_session_fault(log),
            Database::revoke_session_script(tenant_id, actor, session_id, log),
            log,
        ),
        course.follows(Database::revoke_session_script(tenant_id, actor, session_id, log), log),
    ensures
        ({
            let before = course.start();
            let catalog = before.catalog;
            let session = catalog.api_sessions[session_id];
            let hit = Database::revoke_session_output(log);
            &&& hit <==> catalog.api_sessions.contains_key(session_id) && !session.revoked
            &&& !hit ==> course.end() == before
            &&& hit ==> course.end() == with_catalog(
                before,
                CatalogTables {
                    api_sessions: catalog.api_sessions.insert(
                        session_id,
                        ApiSessionRow { revoked: true, ..session },
                    ),
                    audit_events: catalog.audit_events.push(
                        AuditRow {
                            actor: Some(actor),
                            target: Some(session.principal_id),
                            resource: None,
                            action: "session.revoke"@,
                            outcome: "allowed"@,
                            reason: "session_revoked"@,
                            privacy_visible: true,
                            details: seq![("session_id"@, Fact::Id(session_id))],
                        },
                    ),
                    ..catalog
                },
            )
        }),
{
    reveal(means);
    reveal(crate::tables::catalog::means);
    let script = Database::revoke_session_script(tenant_id, actor, session_id, log);
    assert(course.performs(script, log, 0));
    assert(course.performs(script, log, 1));
    let found = log[1].optional_row::<Uuid>();
    assert(found is Ok);
    if found->Ok_0 is Some {
        assert(first_row(log[1]) is Some);
        assert(course.performs(script, log, 2));
        assert(course.performs(script, log, 3));
        assert(course.end() == course.rows[4]);
        assert(course.end().catalog.audit_events.last().details =~= seq![
            ("session_id"@, Fact::Id(session_id)),
        ]);
    } else {
        assert(first_row(log[1]) is None);
        assert(course.end() == course.rows[2]);
    }
}

/// Revoking a user's sessions ends all of them but for the one that is spared, and no other user's.
/// The number that comes back is that of the sessions that ended.
pub proof fn revoking_all_spares_one_session(
    tenant_id: Uuid,
    actor: Uuid,
    user_id: Uuid,
    except_session_id: Option<Uuid>,
    log: Seq<Reply>,
    course: Course,
)
    requires
        crate::step::is_done(
            Database::revoke_all_sessions_fault(log),
            Database::revoke_all_sessions_script(
                tenant_id,
                actor,
                user_id,
                except_session_id,
                log,
            ),
            log,
        ),
        course.follows(
            Database::revoke_all_sessions_script(
                tenant_id,
                actor,
                user_id,
                except_session_id,
                log,
            ),
            log,
        ),
        log[1].all_rows::<Uuid>()->Ok_0.len() <= u64::MAX,
    ensures
        ({
            let before = course.start();
            let after = course.end();
            let catalog = before.catalog;
            let count = Database::revoke_all_sessions_output(log);
            &&& after.catalog.api_sessions == without_sessions(
                catalog,
                user_id,
                except_session_id,
            )
            &&& exists|ids: Seq<Uuid>|
                {
                    &&& #[trigger] ids.len() == count
                    &&& ids.no_duplicates()
                    &&& forall|id: Uuid|
                        ids.contains(id) <==> #[trigger] is_revocable(
                            catalog,
                            id,
                            user_id,
                            except_session_id,
                        )
                }
            &&& count == 0 ==> after.catalog.audit_events == catalog.audit_events
            &&& count > 0 ==> {
                let event = after.catalog.audit_events.last();
                &&& after.catalog.audit_events == catalog.audit_events.push(event)
                &&& event.actor == Some(actor)
                &&& event.target == Some(actor)
                &&& event.action == "session.revoke_all"@
                &&& event.outcome == "allowed"@
            }
            &&& after == with_catalog(
                before,
                CatalogTables {
                    api_sessions: after.catalog.api_sessions,
                    audit_events: after.catalog.audit_events,
                    ..catalog
                },
            )
        }),
{
    reveal(means);
    reveal(crate::tables::catalog::means);
    let script = Database::revoke_all_sessions_script(
        tenant_id,
        actor,
        user_id,
        except_session_id,
        log,
    );
    assert(course.performs(script, log, 0));
    assert(course.performs(script, log, 1));
    let found = log[1].all_rows::<Uuid>();
    assert(found is Ok);
    let ids = found->Ok_0;
    assert(ids.len() == Database::revoke_all_sessions_output(log));
    assert(course.performs(script, log, 2));
    if ids.len() > 0 {
        assert(course.performs(script, log, 3));
        assert(course.end() == course.rows[4]);
    } else {
        assert(course.end() == course.rows[3]);
    }
}

/// An attempt to log in that begins holds the secrets and the way back that were given, for ten
/// minutes. Attempts that are over are gone; the others stay, and there are fewer than the limit.
pub proof fn attempts_begin_with_their_secrets<'a>(
    tenant_id: Uuid,
    state_digest: &'a [u8],
    nonce_digest: &'a [u8],
    pkce_digest: &'a [u8],
    nonce: &'a str,
    pkce_verifier: &'a str,
    return_path: &'a str,
    session_id: Option<Uuid>,
    log: Seq<Reply>,
    course: Course,
)
    requires
        crate::step::is_done(
            Database::create_oidc_attempt_fault(log),
            Database::create_oidc_attempt_script(
                tenant_id,
                state_digest,
                nonce_digest,
                pkce_digest,
                nonce,
                pkce_verifier,
                return_path,
                session_id,
                log,
            ),
            log,
        ),
        course.follows(
            Database::create_oidc_attempt_script(
                tenant_id,
                state_digest,
                nonce_digest,
                pkce_digest,
                nonce,
                pkce_verifier,
                return_path,
                session_id,
                log,
            ),
            log,
        ),
    ensures
        ({
            let before = course.start();
            let catalog = before.catalog;
            let kept = open_attempts(catalog, course.clock[2]);
            &&& kept.dom().len() < crate::identity::MAX_OPEN_LOGIN_ATTEMPTS
            &&& exists|id: Uuid|
                !(#[trigger] kept.contains_key(id)) && course.end() == with_catalog(
                    before,
                    CatalogTables {
                        attempts: kept.insert(
                            id,
                            AttemptRow {
                                state_digest: state_digest@,
                                nonce_digest: nonce_digest@,
                                pkce_digest: pkce_digest@,
                                nonce: nonce@,
                                pkce_verifier: pkce_verifier@,
                                return_path: return_path@,
                                session_id,
                                expires_at: course.clock[4] + 600_000_000,
                                consumed: false,
                            },
                        ),
                        ..catalog
                    },
                )
        }),
{
    reveal(means);
    let script = Database::create_oidc_attempt_script(
        tenant_id,
        state_digest,
        nonce_digest,
        pkce_digest,
        nonce,
        pkce_verifier,
        return_path,
        session_id,
        log,
    );
    assert(course.performs(script, log, 0));
    assert(course.performs(script, log, 1));
    assert(course.performs(script, log, 2));
    assert(course.performs(script, log, 3));
    assert(course.performs(script, log, 4));
    assert(course.performs(script, log, 5));
    assert(course.end() == course.rows[6]);
    let catalog = course.start().catalog;
    let kept = open_attempts(catalog, course.clock[2]);
    let held = course.rows[4].catalog;
    assert(held == (CatalogTables { attempts: kept, ..catalog }));
    let added = course.end().catalog.attempts;
    let id = choose|id: Uuid|
        !(#[trigger] held.attempts.contains_key(id)) && added == held.attempts.insert(
            id,
            added[id],
        );
    assert(!kept.contains_key(id));
}

/// An attempt gives its secrets back once, to the one who brings its state while it is open.
/// Afterwards no attempt of that state is open, and none holds its secrets.
pub proof fn attempts_are_used_once<'a>(
    tenant_id: Uuid,
    state_digest: &'a [u8],
    log: Seq<Reply>,
    course: Course,
)
    requires
        crate::step::is_done(
            Database::consume_oidc_attempt_fault(log),
            Database::consume_oidc_attempt_script(tenant_id, state_digest, log),
            log,
        ),
        course.follows(Database::consume_oidc_attempt_script(tenant_id, state_digest, log), log),
    ensures
        ({
            let before = course.start();
            let catalog = before.catalog;
            let now = course.clock[0];
            let out = Database::consume_oidc_attempt_output(log);
            &&& exists|id: Uuid|
                {
                    &&& #[trigger] is_attempt_of(catalog, id, state_digest@, now)
                    &&& out.nonce@ == catalog.attempts[id].nonce
                    &&& out.pkce_verifier@ == catalog.attempts[id].pkce_verifier
                    &&& out.return_path@ == catalog.attempts[id].return_path
                    &&& out.session_id == catalog.attempts[id].session_id
                }
            &&& course.end() == with_catalog(
                before,
                CatalogTables {
                    attempts: without_attempts(catalog, state_digest@, now),
                    ..catalog
                },
            )
            &&& forall|id: Uuid, later: int|
                later >= now ==> !#[trigger] is_attempt_of(
                    course.end().catalog,
                    id,
                    state_digest@,
                    later,
                )
        }),
{
    reveal(means);
    reveal(OidcAttemptRecord::of_row);
    let script = Database::consume_oidc_attempt_script(tenant_id, state_digest, log);
    assert(course.performs(script, log, 0));
    assert(log[0].required_row::<OidcAttemptRecord>(DatabaseError::NotFound) is Ok);
    assert(first_row(log[0]) is Some);
    let catalog = course.start().catalog;
    let id = choose|id: Uuid| #[trigger]
        is_attempt_of(catalog, id, state_digest@, course.clock[0]) && is_used_attempt(
            first_row(log[0])->0,
            catalog.attempts[id],
        );
    assert(is_attempt_of(catalog, id, state_digest@, course.clock[0]));
    assert(course.end() == course.rows[1]);
}

} // verus!
