//! Identities, browser sessions and OIDC login attempts.

use std::sync::Arc;

use vstd::prelude::*;

use crate::database::Database;
use crate::error::DatabaseError;
use crate::error::Fault;
use crate::id::Uuid;
use crate::json::Json;
use crate::row::FromRow;
use crate::row::Reply;
use crate::row::Row;
use crate::row::drawn;
use crate::row::many;
use crate::row::optional;
use crate::row::required;
use crate::row::single;
use crate::sql::catalog as sql;
use crate::step::Command;
use crate::step::CommandView;
use crate::step::Detail;
use crate::step::Param;
use crate::step::Step;
use crate::step::StepView;
use crate::step::ask_all;
use crate::step::ask_execute;
use crate::step::ask_one;
use crate::step::ask_optional;
use crate::step::stop;
use crate::step::stop_list;
use crate::text::text_eq;

verus! {

/// The quota of a drive that one user owns: one tebibyte.
pub const PRIVATE_DRIVE_QUOTA_BYTES: i64 = 1_099_511_627_776;

/// The quota of a drive that is shared: ten tebibytes.
pub const SHARED_DRIVE_QUOTA_BYTES: i64 = 10_995_116_277_760;

/// How many login attempts of one tenant may be open at a time.
pub const MAX_OPEN_LOGIN_ATTEMPTS: i64 = 4096;

/// A user as a login finds or makes them.
#[derive(Clone, Copy, Debug, PartialEq, Eq, Structural)]
pub struct IdentityRecord {
    pub tenant_id: Uuid,
    pub user_id: Uuid,
    pub principal_id: Uuid,
    pub private_drive_id: Uuid,
    pub private_root_id: Uuid,
    pub tenant_admin: bool,
    pub suspended: bool,
}

/// A live session.
#[derive(Debug)]
pub struct SessionRecord {
    pub tenant_id: Uuid,
    pub session_id: Uuid,
    pub user_id: Uuid,
    pub principal_id: Uuid,
    pub tenant_admin: bool,
    pub reauthenticated_recently: bool,
    pub csrf_digest: Arc<Vec<u8>>,
    pub display_name: String,
    pub verified_email: Option<String>,
}

/// A session in a user's list of sessions.
#[derive(Debug)]
pub struct SessionSummary {
    pub session_id: Uuid,
    pub created_at: String,
    pub last_seen_at: String,
    pub idle_expires_at: String,
    pub absolute_expires_at: String,
    pub revoked: bool,
    pub user_agent: Option<String>,
}

impl SessionSummary {
    /// What a row holds, read by its column names.
    #[verifier::opaque]
    pub open spec fn of_row(row: Row) -> Result<SessionSummary, Fault> {
        if row.column::<Uuid>("id"@) is Some
            && row.column::<String>("created_at"@) is Some
            && row.column::<String>("last_seen_at"@) is Some
            && row.column::<String>("idle_expires_at"@) is Some
            && row.column::<String>("absolute_expires_at"@) is Some
            && row.column::<bool>("revoked"@) is Some
            && row.column::<Option<String>>("user_agent"@) is Some {
            Ok(
                SessionSummary {
                    session_id: row.column::<Uuid>("id"@)->0,
                    created_at: row.column::<String>("created_at"@)->0,
                    last_seen_at: row.column::<String>("last_seen_at"@)->0,
                    idle_expires_at: row.column::<String>("idle_expires_at"@)->0,
                    absolute_expires_at: row.column::<String>("absolute_expires_at"@)->0,
                    revoked: row.column::<bool>("revoked"@)->0,
                    user_agent: row.column::<Option<String>>("user_agent"@)->0,
                },
            )
        } else {
            Err(Fault::Malformed)
        }
    }
}

impl FromRow for SessionSummary {
    open spec fn row_spec(row: Row) -> Result<SessionSummary, Fault> {
        SessionSummary::of_row(row)
    }

    fn from_row(row: &Row) -> (r: Result<SessionSummary, Fault>) {
        proof {
            reveal(SessionSummary::of_row);
        }
        let session_id: Uuid = match row.get("id") {
            Some(v) => v,
            None => return Err(Fault::Malformed),
        };
        let created_at: String = match row.get("created_at") {
            Some(v) => v,
            None => return Err(Fault::Malformed),
        };
        let last_seen_at: String = match row.get("last_seen_at") {
            Some(v) => v,
            None => return Err(Fault::Malformed),
        };
        let idle_expires_at: String = match row.get("idle_expires_at") {
            Some(v) => v,
            None => return Err(Fault::Malformed),
        };
        let absolute_expires_at: String = match row.get("absolute_expires_at") {
            Some(v) => v,
            None => return Err(Fault::Malformed),
        };
        let revoked: bool = match row.get("revoked") {
            Some(v) => v,
            None => return Err(Fault::Malformed),
        };
        let user_agent: Option<String> = match row.get("user_agent") {
            Some(v) => v,
            None => return Err(Fault::Malformed),
        };
        Ok(SessionSummary { 
            session_id, created_at, last_seen_at, idle_expires_at, absolute_expires_at, revoked,
            user_agent,
         })
    }
}

/// A login attempt that has been used up.
#[derive(Debug)]
pub struct OidcAttemptRecord {
    pub nonce: String,
    pub pkce_verifier: String,
    pub return_path: String,
    pub session_id: Option<Uuid>,
}

impl OidcAttemptRecord {
    /// What a row holds, read by its column names.
    #[verifier::opaque]
    pub open spec fn of_row(row: Row) -> Result<OidcAttemptRecord, Fault> {
        if row.column::<String>("nonce_secret"@) is Some
            && row.column::<String>("pkce_verifier_secret"@) is Some
            && row.column::<String>("return_path"@) is Some
            && row.column::<Option<Uuid>>("session_id"@) is Some {
            Ok(
                OidcAttemptRecord {
                    nonce: row.column::<String>("nonce_secret"@)->0,
                    pkce_verifier: row.column::<String>("pkce_verifier_secret"@)->0,
                    return_path: row.column::<String>("return_path"@)->0,
                    session_id: row.column::<Option<Uuid>>("session_id"@)->0,
                },
            )
        } else {
            Err(Fault::Malformed)
        }
    }
}

impl FromRow for OidcAttemptRecord {
    open spec fn row_spec(row: Row) -> Result<OidcAttemptRecord, Fault> {
        OidcAttemptRecord::of_row(row)
    }

    fn from_row(row: &Row) -> (r: Result<OidcAttemptRecord, Fault>) {
        proof {
            reveal(OidcAttemptRecord::of_row);
        }
        let nonce: String = match row.get("nonce_secret") {
            Some(v) => v,
            None => return Err(Fault::Malformed),
        };
        let pkce_verifier: String = match row.get("pkce_verifier_secret") {
            Some(v) => v,
            None => return Err(Fault::Malformed),
        };
        let return_path: String = match row.get("return_path") {
            Some(v) => v,
            None => return Err(Fault::Malformed),
        };
        let session_id: Option<Uuid> = match row.get("session_id") {
            Some(v) => v,
            None => return Err(Fault::Malformed),
        };
        Ok(OidcAttemptRecord { nonce, pkce_verifier, return_path, session_id })
    }
}

/// The user that an external identity belongs to.
#[derive(Debug)]
pub struct LinkedIdentity {
    pub user_id: Uuid,
    pub principal_id: Uuid,
    pub status: String,
}

impl LinkedIdentity {
    /// What a row holds, read by its column names.
    #[verifier::opaque]
    pub open spec fn of_row(row: Row) -> Result<LinkedIdentity, Fault> {
        if row.column::<Uuid>("user_id"@) is Some
            && row.column::<Uuid>("principal_id"@) is Some
            && row.column::<String>("status"@) is Some {
            Ok(
                LinkedIdentity {
                    user_id: row.column::<Uuid>("user_id"@)->0,
                    principal_id: row.column::<Uuid>("principal_id"@)->0,
                    status: row.column::<String>("status"@)->0,
                },
            )
        } else {
            Err(Fault::Malformed)
        }
    }
}

impl FromRow for LinkedIdentity {
    open spec fn row_spec(row: Row) -> Result<LinkedIdentity, Fault> {
        LinkedIdentity::of_row(row)
    }

    fn from_row(row: &Row) -> (r: Result<LinkedIdentity, Fault>) {
        proof {
            reveal(LinkedIdentity::of_row);
        }
        let user_id: Uuid = match row.get("user_id") {
            Some(v) => v,
            None => return Err(Fault::Malformed),
        };
        let principal_id: Uuid = match row.get("principal_id") {
            Some(v) => v,
            None => return Err(Fault::Malformed),
        };
        let status: String = match row.get("status") {
            Some(v) => v,
            None => return Err(Fault::Malformed),
        };
        Ok(LinkedIdentity { user_id, principal_id, status })
    }
}

/// A user's own drive and its root.
#[derive(Clone, Copy, Debug, PartialEq, Eq, Structural)]
pub struct PrivateDrive {
    pub id: Uuid,
    pub root_id: Uuid,
}

impl PrivateDrive {
    /// What a row holds, read by its column names.
    #[verifier::opaque]
    pub open spec fn of_row(row: Row) -> Result<PrivateDrive, Fault> {
        if row.column::<Uuid>("id"@) is Some
            && row.column::<Uuid>("root_id"@) is Some {
            Ok(
                PrivateDrive {
                    id: row.column::<Uuid>("id"@)->0,
                    root_id: row.column::<Uuid>("root_id"@)->0,
                },
            )
        } else {
            Err(Fault::Malformed)
        }
    }
}

impl FromRow for PrivateDrive {
    open spec fn row_spec(row: Row) -> Result<PrivateDrive, Fault> {
        PrivateDrive::of_row(row)
    }

    fn from_row(row: &Row) -> (r: Result<PrivateDrive, Fault>) {
        proof {
            reveal(PrivateDrive::of_row);
        }
        let id: Uuid = match row.get("id") {
            Some(v) => v,
            None => return Err(Fault::Malformed),
        };
        let root_id: Uuid = match row.get("root_id") {
            Some(v) => v,
            None => return Err(Fault::Malformed),
        };
        Ok(PrivateDrive { id, root_id })
    }
}

/// A live session, read while its idle limit is moved.
#[derive(Debug)]
pub struct TouchedSession {
    pub id: Uuid,
    pub user_id: Uuid,
    pub principal_id: Uuid,
    pub fresh: bool,
    pub csrf_digest: Arc<Vec<u8>>,
    pub display_name: String,
    pub verified_email: Option<String>,
}

impl TouchedSession {
    /// What a row holds, read by its column names.
    #[verifier::opaque]
    pub open spec fn of_row(row: Row) -> Result<TouchedSession, Fault> {
        if row.column::<Uuid>("id"@) is Some
            && row.column::<Uuid>("user_id"@) is Some
            && row.column::<Uuid>("principal_id"@) is Some
            && row.column::<bool>("fresh"@) is Some
            && row.column::<Arc<Vec<u8>>>("csrf_digest"@) is Some
            && row.column::<String>("display_name"@) is Some
            && row.column::<Option<String>>("verified_email"@) is Some {
            Ok(
                TouchedSession {
                    id: row.column::<Uuid>("id"@)->0,
                    user_id: row.column::<Uuid>("user_id"@)->0,
                    principal_id: row.column::<Uuid>("principal_id"@)->0,
                    fresh: row.column::<bool>("fresh"@)->0,
                    csrf_digest: row.column::<Arc<Vec<u8>>>("csrf_digest"@)->0,
                    display_name: row.column::<String>("display_name"@)->0,
                    verified_email: row.column::<Option<String>>("verified_email"@)->0,
                },
            )
        } else {
            Err(Fault::Malformed)
        }
    }
}

impl FromRow for TouchedSession {
    open spec fn row_spec(row: Row) -> Result<TouchedSession, Fault> {
        TouchedSession::of_row(row)
    }

    fn from_row(row: &Row) -> (r: Result<TouchedSession, Fault>) {
        proof {
            reveal(TouchedSession::of_row);
        }
        let id: Uuid = match row.get("id") {
            Some(v) => v,
            None => return Err(Fault::Malformed),
        };
        let user_id: Uuid = match row.get("user_id") {
            Some(v) => v,
            None => return Err(Fault::Malformed),
        };
        let principal_id: Uuid = match row.get("principal_id") {
            Some(v) => v,
            None => return Err(Fault::Malformed),
        };
        let fresh: bool = match row.get("fresh") {
            Some(v) => v,
            None => return Err(Fault::Malformed),
        };
        let csrf_digest: Arc<Vec<u8>> = match row.get("csrf_digest") {
            Some(v) => v,
            None => return Err(Fault::Malformed),
        };
        let display_name: String = match row.get("display_name") {
            Some(v) => v,
            None => return Err(Fault::Malformed),
        };
        let verified_email: Option<String> = match row.get("verified_email") {
            Some(v) => v,
            None => return Err(Fault::Malformed),
        };
        Ok(TouchedSession { 
            id, user_id, principal_id, fresh, csrf_digest, display_name, verified_email,
         })
    }
}

impl Database {

    /// What stops `link_oidc_identity`, in order.
    pub open spec fn link_oidc_identity_fault<'a>(
        verified_email: Option<&'a str>,
        log: Seq<Reply>,
    ) -> Option<Fault> {
        let found = log[1].optional_row::<LinkedIdentity>()->Ok_0;
        let at = if verified_email is Some {
            4int
        } else {
            3
        };
        let drawn = log[2].drawn_ids(5);
        if log.len() > 1 && log[1].optional_row::<LinkedIdentity>() is Err {
            Fault::of(log[1].optional_row::<LinkedIdentity>())
        } else if log.len() > 1 && found is Some {
            if log.len() > at
                && log[at].required_row::<PrivateDrive>(DatabaseError::NotFound) is Err {
                Fault::of(log[at].required_row::<PrivateDrive>(DatabaseError::NotFound))
            } else if log.len() > at + 1 && log[at + 1].single_row::<bool>() is Err {
                Fault::of(log[at + 1].single_row::<bool>())
            } else {
                None
            }
        } else if log.len() > 2 && drawn is Err {
            Fault::of(drawn)
        } else if log.len() > 10 && log[10].single_row::<bool>() is Err {
            Fault::of(log[10].single_row::<bool>())
        } else {
            None
        }
    }

    /// The commands of `link_oidc_identity`, in order.
    pub open spec fn link_oidc_identity_script<'a>(
        tenant_id: Uuid, issuer: &'a str, subject: &'a str, display_name: &'a str,
        verified_email: Option<&'a str>, claims: &'a Json, log: Seq<Reply>,
    ) -> Seq<CommandView<'a>> {
        let found = log[1].optional_row::<LinkedIdentity>()->Ok_0;
        let known = found->0;
        let drawn = log[2].drawn_ids(5);
        let user_id = drawn->Ok_0[0];
        let principal_id = drawn->Ok_0[1];
        let identity_id = drawn->Ok_0[2];
        let drive_id = drawn->Ok_0[3];
        let root_id = drawn->Ok_0[4];
        seq![
            CommandView::Begin,
            CommandView::optional(
                sql::LINK_OIDC_IDENTITY_SELECT_EXTERNAL_IDENTITIES,
                seq![Param::Id(tenant_id), Param::Text(issuer), Param::Text(subject)],
            ),
        ].add(
            if found is Some {
                seq![
                    CommandView::execute(
                        sql::LINK_OIDC_IDENTITY_UPDATE_EXTERNAL_IDENTITIES,
                        seq![
                            Param::Id(tenant_id), Param::Text(issuer), Param::Text(subject),
                            Param::Json(claims),
                        ],
                    ),
                ].add(
                    if verified_email is Some {
                        seq![
                            CommandView::execute(
                                sql::LINK_OIDC_IDENTITY_UPDATE_USERS,
                                seq![
                                    Param::Id(tenant_id), Param::Id(known.user_id),
                                    Param::Text(display_name),
                                    Param::Text(verified_email->0),
                                ],
                            ),
                        ]
                    } else {
                        Seq::empty()
                    },
                ).add(
                    seq![
                        CommandView::optional(
                            sql::PRIVATE_DRIVE_FOR_USER,
                            seq![Param::Id(tenant_id), Param::Id(known.principal_id)],
                        ),
                        CommandView::one(
                            sql::IS_ADMIN,
                            seq![Param::Id(tenant_id), Param::Text(issuer), Param::Text(subject)],
                        ),
                        CommandView::Commit,
                    ],
                )
            } else {
                seq![
                    CommandView::DrawIds(5),
                    CommandView::execute(
                        sql::LINK_OIDC_IDENTITY_INSERT_PRINCIPALS,
                        seq![Param::Id(tenant_id), Param::Id(principal_id)],
                    ),
                    CommandView::execute(
                        sql::LINK_OIDC_IDENTITY_INSERT_USERS,
                        seq![
                            Param::Id(tenant_id), Param::Id(user_id), Param::Id(principal_id),
                            Param::Text(display_name), Param::OptText(verified_email),
                        ],
                    ),
                    CommandView::execute(
                        sql::LINK_OIDC_IDENTITY_INSERT_EXTERNAL_IDENTITIES,
                        seq![
                            Param::Id(tenant_id), Param::Id(identity_id), Param::Id(user_id),
                            Param::Text(issuer), Param::Text(subject), Param::Json(claims),
                        ],
                    ),
                    CommandView::execute(
                        sql::LINK_OIDC_IDENTITY_INSERT_USER_PREFERENCES,
                        seq![Param::Id(tenant_id), Param::Id(user_id)],
                    ),
                    CommandView::execute(
                        sql::LINK_OIDC_IDENTITY_INSERT_DRIVES,
                        seq![
                            Param::Id(tenant_id), Param::Id(drive_id), Param::Id(principal_id),
                            Param::I64(PRIVATE_DRIVE_QUOTA_BYTES),
                        ],
                    ),
                    CommandView::execute(
                        sql::LINK_OIDC_IDENTITY_INSERT_NODES,
                        seq![
                            Param::Id(tenant_id), Param::Id(drive_id), Param::Id(root_id),
                            Param::Id(principal_id),
                        ],
                    ),
                    CommandView::execute(
                        sql::LINK_OIDC_IDENTITY_INSERT_NODE_ANCESTRY,
                        seq![Param::Id(tenant_id), Param::Id(drive_id), Param::Id(root_id)],
                    ),
                    CommandView::one(
                        sql::IS_ADMIN,
                        seq![Param::Id(tenant_id), Param::Text(issuer), Param::Text(subject)],
                    ),
                    CommandView::execute(
                        sql::INSERT_AUDIT,
                        seq![
                            Param::Id(tenant_id), Param::FreshId, Param::OptId(Some(principal_id)),
                            Param::OptId(Some(principal_id)), Param::OptId(Some(root_id)),
                            Param::Text("identity.link"), Param::Text("allowed"),
                            Param::Text("oidc_identity_created"), Param::Bool(false),
                            Param::Object0,
                        ],
                    ),
                    CommandView::Commit,
                ]
            },
        )
    }

    /// What `link_oidc_identity` returns.
    pub open spec fn link_oidc_identity_output<'a>(
        tenant_id: Uuid, verified_email: Option<&'a str>, log: Seq<Reply>,
    ) -> IdentityRecord {
        let found = log[1].optional_row::<LinkedIdentity>()->Ok_0;
        let known = found->0;
        let at = if verified_email is Some {
            4int
        } else {
            3
        };
        let home = log[at].required_row::<PrivateDrive>(DatabaseError::NotFound)->Ok_0;
        let known_admin = log[at + 1].single_row::<bool>()->Ok_0;
        let drawn = log[2].drawn_ids(5);
        let user_id = drawn->Ok_0[0];
        let principal_id = drawn->Ok_0[1];
        let drive_id = drawn->Ok_0[3];
        let root_id = drawn->Ok_0[4];
        let tenant_admin = log[10].single_row::<bool>()->Ok_0;
        if found is Some {
            IdentityRecord {
                tenant_id,
                user_id: known.user_id,
                principal_id: known.principal_id,
                private_drive_id: home.id,
                private_root_id: home.root_id,
                tenant_admin: known_admin,
                suspended: known.status@ == "suspended"@,
            }
        } else {
            IdentityRecord {
                tenant_id,
                user_id,
                principal_id,
                private_drive_id: drive_id,
                private_root_id: root_id,
                tenant_admin,
                suspended: false,
            }
        }
    }

    /// Finds the user of an external identity, or makes one with a private drive of its own. The
    /// claims replace those on record; a known user's name and address change only with a verified
    /// address.
    #[verifier::spinoff_prover]
    #[verifier::rlimit(60)]
    pub fn link_oidc_identity<'a>(
        tenant_id: Uuid, issuer: &'a str, subject: &'a str, display_name: &'a str,
        verified_email: Option<&'a str>, claims: &'a Json, log: &'a [Reply],
    ) -> (step: Step<'a, IdentityRecord>)
        ensures
            step@ == StepView::proceed(
                Self::link_oidc_identity_fault(verified_email, log@),
                Self::link_oidc_identity_script(
                    tenant_id, issuer, subject, display_name, verified_email, claims, log@,
                ),
                Self::link_oidc_identity_output(tenant_id, verified_email, log@),
                log@,
            ),
    {
        if log.len() == 0 {
            return Step::Ask(Command::Begin);
        }
        if log.len() <= 1 {
            return ask_optional(
                sql::LINK_OIDC_IDENTITY_SELECT_EXTERNAL_IDENTITIES,
                vec![Param::Id(tenant_id), Param::Text(issuer), Param::Text(subject)],
            );
        }
        let found: Option<LinkedIdentity> = match optional::<LinkedIdentity>(&log[1]) {
            Ok(value) => value,
            Err(fault) => return stop(fault),
        };
        if found.is_some() {
            let known: LinkedIdentity = found.unwrap();
            if log.len() <= 2 {
                return ask_execute(
                    sql::LINK_OIDC_IDENTITY_UPDATE_EXTERNAL_IDENTITIES,
                    vec![
                        Param::Id(tenant_id), Param::Text(issuer), Param::Text(subject),
                        Param::Json(claims),
                    ],
                );
            }
            if verified_email.is_some() {
                if log.len() <= 3 {
                    return ask_execute(
                        sql::LINK_OIDC_IDENTITY_UPDATE_USERS,
                        vec![
                            Param::Id(tenant_id), Param::Id(known.user_id),
                            Param::Text(display_name), Param::Text(verified_email.unwrap()),
                        ],
                    );
                }
            }
            let at: usize = if verified_email.is_some() {
                4
            } else {
                3
            };
            if log.len() <= at {
                return ask_optional(
                    sql::PRIVATE_DRIVE_FOR_USER,
                    vec![Param::Id(tenant_id), Param::Id(known.principal_id)],
                );
            }
            let home: PrivateDrive = match required(&log[at], DatabaseError::NotFound) {
                Ok(value) => value,
                Err(fault) => return stop(fault),
            };
            if log.len() - at <= 1 {
                return ask_one(
                    sql::IS_ADMIN,
                    vec![Param::Id(tenant_id), Param::Text(issuer), Param::Text(subject)],
                );
            }
            let known_admin: bool = match single::<bool>(&log[at + 1]) {
                Ok(value) => value,
                Err(fault) => return stop(fault),
            };
            if log.len() - at <= 2 {
                return Step::Ask(Command::Commit);
            }
            return Step::Done(
                IdentityRecord {
                    tenant_id,
                    user_id: known.user_id,
                    principal_id: known.principal_id,
                    private_drive_id: home.id,
                    private_root_id: home.root_id,
                    tenant_admin: known_admin,
                    suspended: text_eq(known.status.as_str(), "suspended"),
                },
            );
        }
        if log.len() <= 2 {
            return Step::Ask(Command::DrawIds(5));
        }
        let drawn: &Vec<Uuid> = match drawn(&log[2], 5) {
            Ok(ids) => ids,
            Err(fault) => return stop(fault),
        };
        let user_id: Uuid = drawn[0];
        let principal_id: Uuid = drawn[1];
        let identity_id: Uuid = drawn[2];
        let drive_id: Uuid = drawn[3];
        let root_id: Uuid = drawn[4];
        if log.len() <= 3 {
            return ask_execute(
                sql::LINK_OIDC_IDENTITY_INSERT_PRINCIPALS,
                vec![Param::Id(tenant_id), Param::Id(principal_id)],
            );
        }
        if log.len() <= 4 {
            return ask_execute(
                sql::LINK_OIDC_IDENTITY_INSERT_USERS,
                vec![
                    Param::Id(tenant_id), Param::Id(user_id), Param::Id(principal_id),
                    Param::Text(display_name), Param::OptText(verified_email),
                ],
            );
        }
        if log.len() <= 5 {
            return ask_execute(
                sql::LINK_OIDC_IDENTITY_INSERT_EXTERNAL_IDENTITIES,
                vec![
                    Param::Id(tenant_id), Param::Id(identity_id), Param::Id(user_id),
                    Param::Text(issuer), Param::Text(subject), Param::Json(claims),
                ],
            );
        }
        if log.len() <= 6 {
            return ask_execute(
                sql::LINK_OIDC_IDENTITY_INSERT_USER_PREFERENCES,
                vec![Param::Id(tenant_id), Param::Id(user_id)],
            );
        }
        if log.len() <= 7 {
            return ask_execute(
                sql::LINK_OIDC_IDENTITY_INSERT_DRIVES,
                vec![
                    Param::Id(tenant_id), Param::Id(drive_id), Param::Id(principal_id),
                    Param::I64(PRIVATE_DRIVE_QUOTA_BYTES),
                ],
            );
        }
        if log.len() <= 8 {
            return ask_execute(
                sql::LINK_OIDC_IDENTITY_INSERT_NODES,
                vec![
                    Param::Id(tenant_id), Param::Id(drive_id), Param::Id(root_id),
                    Param::Id(principal_id),
                ],
            );
        }
        if log.len() <= 9 {
            return ask_execute(
                sql::LINK_OIDC_IDENTITY_INSERT_NODE_ANCESTRY,
                vec![Param::Id(tenant_id), Param::Id(drive_id), Param::Id(root_id)],
            );
        }
        if log.len() <= 10 {
            return ask_one(
                sql::IS_ADMIN,
                vec![Param::Id(tenant_id), Param::Text(issuer), Param::Text(subject)],
            );
        }
        let tenant_admin: bool = match single::<bool>(&log[10]) {
            Ok(value) => value,
            Err(fault) => return stop(fault),
        };
        if log.len() <= 11 {
            return ask_execute(
                sql::INSERT_AUDIT,
                vec![
                    Param::Id(tenant_id), Param::FreshId, Param::OptId(Some(principal_id)),
                    Param::OptId(Some(principal_id)), Param::OptId(Some(root_id)),
                    Param::Text("identity.link"), Param::Text("allowed"),
                    Param::Text("oidc_identity_created"), Param::Bool(false), Param::Object0,
                ],
            );
        }
        if log.len() <= 12 {
            return Step::Ask(Command::Commit);
        }
        Step::Done(
            IdentityRecord {
                tenant_id,
                user_id,
                principal_id,
                private_drive_id: drive_id,
                private_root_id: root_id,
                tenant_admin,
                suspended: false,
            },
        )
    }

    /// `link_oidc_identity` runs in one transaction: it is done once its commit is acknowledged,
    /// and when it fails, nothing was committed.
    pub proof fn link_oidc_identity_is_atomic<'a>(
        tenant_id: Uuid, issuer: &'a str, subject: &'a str, display_name: &'a str,
        verified_email: Option<&'a str>, claims: &'a Json, log: Seq<Reply>,
    )
        ensures
            crate::step::is_atomic(
                Self::link_oidc_identity_script(
                    tenant_id, issuer, subject, display_name, verified_email, claims, log,
                ),
                0,
            ),
            crate::step::commit_acknowledged(
                Self::link_oidc_identity_fault(verified_email, log.drop_last()),
                Self::link_oidc_identity_script(
                    tenant_id, issuer, subject, display_name, verified_email, claims,
                    log.drop_last(),
                ),
                log,
            ) ==> {
                &&& Self::link_oidc_identity_fault(verified_email, log) is None
                &&& log.len() == Self::link_oidc_identity_script(
                    tenant_id, issuer, subject, display_name, verified_email, claims, log,
                ).len()
            },
    {
    }

    /// Every statement of `link_oidc_identity` is about its tenant.
    pub proof fn link_oidc_identity_is_scoped<'a>(
        tenant_id: Uuid, issuer: &'a str, subject: &'a str, display_name: &'a str,
        verified_email: Option<&'a str>, claims: &'a Json, log: Seq<Reply>,
    )
        ensures
            crate::step::is_scoped(
                Self::link_oidc_identity_script(
                    tenant_id, issuer, subject, display_name, verified_email, claims, log,
                ),
                tenant_id,
            ),
    {
    }

    /// What stops `create_session`, in order.
    pub open spec fn create_session_fault(log: Seq<Reply>) -> Option<Fault> {
        let drawn = log[0].drawn_ids(1);
        if log.len() > 0 && drawn is Err {
            Fault::of(drawn)
        } else {
            None
        }
    }

    /// The commands of `create_session`, in order.
    pub open spec fn create_session_script<'a>(
        identity: &'a IdentityRecord, key_generation: i32, token_digest: &'a [u8],
        csrf_digest: &'a [u8], idle_seconds: i64, absolute_seconds: i64,
        user_agent: Option<&'a str>, log: Seq<Reply>,
    ) -> Seq<CommandView<'a>> {
        let drawn = log[0].drawn_ids(1);
        let session_id = drawn->Ok_0[0];
        seq![
            CommandView::DrawIds(1),
            CommandView::Begin,
            CommandView::execute(
                sql::CREATE_SESSION,
                seq![
                    Param::Id(identity.tenant_id), Param::Id(session_id),
                    Param::Id(identity.user_id), Param::Id(identity.principal_id),
                    Param::I32(key_generation), Param::Bytes(token_digest),
                    Param::Bytes(csrf_digest), Param::I64(idle_seconds),
                    Param::I64(absolute_seconds), Param::OptText(user_agent),
                ],
            ),
            CommandView::execute(
                sql::INSERT_AUDIT,
                seq![
                    Param::Id(identity.tenant_id), Param::FreshId,
                    Param::OptId(Some(identity.principal_id)),
                    Param::OptId(Some(identity.principal_id)), Param::OptId(None),
                    Param::Text("session.create"), Param::Text("allowed"),
                    Param::Text("oidc_authenticated"), Param::Bool(true),
                    Param::Object1("session_id", Detail::Id(session_id)),
                ],
            ),
            CommandView::Commit,
        ]
    }

    /// What `create_session` returns.
    pub open spec fn create_session_output(log: Seq<Reply>) -> Uuid {
        let drawn = log[0].drawn_ids(1);
        let session_id = drawn->Ok_0[0];
        session_id
    }

    /// Opens a session for a user who has just logged in.
    pub fn create_session<'a>(
        identity: &'a IdentityRecord, key_generation: i32, token_digest: &'a [u8],
        csrf_digest: &'a [u8], idle_seconds: i64, absolute_seconds: i64,
        user_agent: Option<&'a str>, log: &'a [Reply],
    ) -> (step: Step<'a, Uuid>)
        ensures
            step@ == StepView::proceed(
                Self::create_session_fault(log@),
                Self::create_session_script(
                    identity, key_generation, token_digest, csrf_digest, idle_seconds,
                    absolute_seconds, user_agent, log@,
                ),
                Self::create_session_output(log@),
                log@,
            ),
    {
        if log.len() == 0 {
            return Step::Ask(Command::DrawIds(1));
        }
        let drawn: &Vec<Uuid> = match drawn(&log[0], 1) {
            Ok(ids) => ids,
            Err(fault) => return stop(fault),
        };
        let session_id: Uuid = drawn[0];
        if log.len() <= 1 {
            return Step::Ask(Command::Begin);
        }
        if log.len() <= 2 {
            return ask_execute(
                sql::CREATE_SESSION,
                vec![
                    Param::Id(identity.tenant_id), Param::Id(session_id),
                    Param::Id(identity.user_id), Param::Id(identity.principal_id),
                    Param::I32(key_generation), Param::Bytes(token_digest),
                    Param::Bytes(csrf_digest), Param::I64(idle_seconds),
                    Param::I64(absolute_seconds), Param::OptText(user_agent),
                ],
            );
        }
        if log.len() <= 3 {
            return ask_execute(
                sql::INSERT_AUDIT,
                vec![
                    Param::Id(identity.tenant_id), Param::FreshId,
                    Param::OptId(Some(identity.principal_id)),
                    Param::OptId(Some(identity.principal_id)), Param::OptId(None),
                    Param::Text("session.create"), Param::Text("allowed"),
                    Param::Text("oidc_authenticated"), Param::Bool(true),
                    Param::Object1("session_id", Detail::Id(session_id)),
                ],
            );
        }
        if log.len() <= 4 {
            return Step::Ask(Command::Commit);
        }
        Step::Done(session_id)
    }

    /// Every statement of `create_session` is about its tenant.
    pub proof fn create_session_is_scoped<'a>(
        identity: &'a IdentityRecord, key_generation: i32, token_digest: &'a [u8],
        csrf_digest: &'a [u8], idle_seconds: i64, absolute_seconds: i64,
        user_agent: Option<&'a str>, log: Seq<Reply>,
    )
        ensures
            crate::step::is_scoped(
                Self::create_session_script(
                    identity, key_generation, token_digest, csrf_digest, idle_seconds,
                    absolute_seconds, user_agent, log,
                ),
                identity.tenant_id,
            ),
    {
    }

    /// What stops `create_oidc_attempt`, in order.
    pub open spec fn create_oidc_attempt_fault(log: Seq<Reply>) -> Option<Fault> {
        let active = log[3].single_row::<i64>()->Ok_0;
        if log.len() > 1 && log[1].required_row::<()>(DatabaseError::NotFound) is Err {
            Fault::of(log[1].required_row::<()>(DatabaseError::NotFound))
        } else if log.len() > 3 && log[3].single_row::<i64>() is Err {
            Fault::of(log[3].single_row::<i64>())
        } else if log.len() > 3 && active >= MAX_OPEN_LOGIN_ATTEMPTS {
            Some(Fault::Error(DatabaseError::AdmissionLimited))
        } else {
            None
        }
    }

    /// The commands of `create_oidc_attempt`, in order.
    pub open spec fn create_oidc_attempt_script<'a>(
        tenant_id: Uuid, state_digest: &'a [u8], nonce_digest: &'a [u8], pkce_digest: &'a [u8],
        nonce: &'a str, pkce_verifier: &'a str, return_path: &'a str, session_id: Option<Uuid>,
        log: Seq<Reply>,
    ) -> Seq<CommandView<'a>> {
        seq![
            CommandView::Begin,
            CommandView::optional(
                sql::CREATE_OIDC_ATTEMPT_SELECT_TENANTS,
                seq![Param::Id(tenant_id)],
            ),
            CommandView::execute(
                sql::CREATE_OIDC_ATTEMPT_DELETE_OIDC_LOGIN_ATTEMPTS,
                seq![Param::Id(tenant_id)],
            ),
            CommandView::one(
                sql::CREATE_OIDC_ATTEMPT_COUNT_OIDC_LOGIN_ATTEMPTS,
                seq![Param::Id(tenant_id)],
            ),
            CommandView::execute(
                sql::CREATE_OIDC_ATTEMPT_INSERT_OIDC_LOGIN_ATTEMPTS,
                seq![
                    Param::Id(tenant_id), Param::FreshId, Param::Bytes(state_digest),
                    Param::Bytes(nonce_digest), Param::Bytes(pkce_digest), Param::Text(nonce),
                    Param::Text(pkce_verifier), Param::Text(return_path),
                    Param::OptId(session_id),
                ],
            ),
            CommandView::Commit,
        ]
    }

    /// Opens a login attempt, unless the tenant has too many open ones.
    pub fn create_oidc_attempt<'a>(
        tenant_id: Uuid, state_digest: &'a [u8], nonce_digest: &'a [u8], pkce_digest: &'a [u8],
        nonce: &'a str, pkce_verifier: &'a str, return_path: &'a str, session_id: Option<Uuid>,
        log: &'a [Reply],
    ) -> (step: Step<'a, ()>)
        ensures
            step@ == StepView::proceed(
                Self::create_oidc_attempt_fault(log@),
                Self::create_oidc_attempt_script(
                    tenant_id, state_digest, nonce_digest, pkce_digest, nonce, pkce_verifier,
                    return_path, session_id, log@,
                ),
                (),
                log@,
            ),
    {
        if log.len() == 0 {
            return Step::Ask(Command::Begin);
        }
        if log.len() <= 1 {
            return ask_optional(
                sql::CREATE_OIDC_ATTEMPT_SELECT_TENANTS,
                vec![Param::Id(tenant_id)],
            );
        }
        let tenant: () = match required::<()>(&log[1], DatabaseError::NotFound) {
            Ok(value) => value,
            Err(fault) => return stop(fault),
        };
        if log.len() <= 2 {
            return ask_execute(
                sql::CREATE_OIDC_ATTEMPT_DELETE_OIDC_LOGIN_ATTEMPTS,
                vec![Param::Id(tenant_id)],
            );
        }
        if log.len() <= 3 {
            return ask_one(
                sql::CREATE_OIDC_ATTEMPT_COUNT_OIDC_LOGIN_ATTEMPTS,
                vec![Param::Id(tenant_id)],
            );
        }
        let active: i64 = match single::<i64>(&log[3]) {
            Ok(value) => value,
            Err(fault) => return stop(fault),
        };
        if active >= MAX_OPEN_LOGIN_ATTEMPTS {
            return Step::Fail(DatabaseError::AdmissionLimited);
        }
        if log.len() <= 4 {
            return ask_execute(
                sql::CREATE_OIDC_ATTEMPT_INSERT_OIDC_LOGIN_ATTEMPTS,
                vec![
                    Param::Id(tenant_id), Param::FreshId, Param::Bytes(state_digest),
                    Param::Bytes(nonce_digest), Param::Bytes(pkce_digest), Param::Text(nonce),
                    Param::Text(pkce_verifier), Param::Text(return_path),
                    Param::OptId(session_id),
                ],
            );
        }
        if log.len() <= 5 {
            return Step::Ask(Command::Commit);
        }
        Step::Done(())
    }

    /// `create_oidc_attempt` runs in one transaction: it is done once its commit is acknowledged,
    /// and when it fails, nothing was committed.
    pub proof fn create_oidc_attempt_is_atomic<'a>(
        tenant_id: Uuid, state_digest: &'a [u8], nonce_digest: &'a [u8], pkce_digest: &'a [u8],
        nonce: &'a str, pkce_verifier: &'a str, return_path: &'a str, session_id: Option<Uuid>,
        log: Seq<Reply>,
    )
        ensures
            crate::step::is_atomic(
                Self::create_oidc_attempt_script(
                    tenant_id, state_digest, nonce_digest, pkce_digest, nonce, pkce_verifier,
                    return_path, session_id, log,
                ),
                0,
            ),
            crate::step::commit_acknowledged(
                Self::create_oidc_attempt_fault(log.drop_last()),
                Self::create_oidc_attempt_script(
                    tenant_id, state_digest, nonce_digest, pkce_digest, nonce, pkce_verifier,
                    return_path, session_id, log.drop_last(),
                ),
                log,
            ) ==> {
                &&& Self::create_oidc_attempt_fault(log) is None
                &&& log.len() == Self::create_oidc_attempt_script(
                    tenant_id, state_digest, nonce_digest, pkce_digest, nonce, pkce_verifier,
                    return_path, session_id, log,
                ).len()
            },
    {
    }

    /// Every statement of `create_oidc_attempt` is about its tenant.
    pub proof fn create_oidc_attempt_is_scoped<'a>(
        tenant_id: Uuid, state_digest: &'a [u8], nonce_digest: &'a [u8], pkce_digest: &'a [u8],
        nonce: &'a str, pkce_verifier: &'a str, return_path: &'a str, session_id: Option<Uuid>,
        log: Seq<Reply>,
    )
        ensures
            crate::step::is_scoped(
                Self::create_oidc_attempt_script(
                    tenant_id, state_digest, nonce_digest, pkce_digest, nonce, pkce_verifier,
                    return_path, session_id, log,
                ),
                tenant_id,
            ),
    {
    }

    /// What stops `consume_oidc_attempt`, in order.
    pub open spec fn consume_oidc_attempt_fault(log: Seq<Reply>) -> Option<Fault> {
        if log.len() > 0
            && log[0].required_row::<OidcAttemptRecord>(DatabaseError::NotFound) is Err {
            Fault::of(log[0].required_row::<OidcAttemptRecord>(DatabaseError::NotFound))
        } else {
            None
        }
    }

    /// The commands of `consume_oidc_attempt`, in order.
    pub open spec fn consume_oidc_attempt_script<'a>(
        tenant_id: Uuid, state_digest: &'a [u8], log: Seq<Reply>,
    ) -> Seq<CommandView<'a>> {
        seq![
            CommandView::optional(
                sql::CONSUME_OIDC_ATTEMPT,
                seq![Param::Id(tenant_id), Param::Bytes(state_digest)],
            ),
        ]
    }

    /// What `consume_oidc_attempt` returns.
    pub open spec fn consume_oidc_attempt_output(log: Seq<Reply>) -> OidcAttemptRecord {
        let attempt = log[0].required_row::<OidcAttemptRecord>(DatabaseError::NotFound)->Ok_0;
        attempt
    }

    /// Uses up the login attempt with this state.
    pub fn consume_oidc_attempt<'a>(
        tenant_id: Uuid, state_digest: &'a [u8], log: &'a [Reply],
    ) -> (step: Step<'a, OidcAttemptRecord>)
        ensures
            step@ == StepView::proceed(
                Self::consume_oidc_attempt_fault(log@),
                Self::consume_oidc_attempt_script(tenant_id, state_digest, log@),
                Self::consume_oidc_attempt_output(log@),
                log@,
            ),
    {
        if log.len() == 0 {
            return ask_optional(
                sql::CONSUME_OIDC_ATTEMPT,
                vec![Param::Id(tenant_id), Param::Bytes(state_digest)],
            );
        }
        let attempt: OidcAttemptRecord = match required(&log[0], DatabaseError::NotFound) {
            Ok(value) => value,
            Err(fault) => return stop(fault),
        };
        Step::Done(attempt)
    }

    /// Every statement of `consume_oidc_attempt` is about its tenant.
    pub proof fn consume_oidc_attempt_is_scoped<'a>(
        tenant_id: Uuid, state_digest: &'a [u8], log: Seq<Reply>,
    )
        ensures
            crate::step::is_scoped(
                Self::consume_oidc_attempt_script(tenant_id, state_digest, log),
                tenant_id,
            ),
    {
    }

    /// What stops `resolve_session`, in order.
    pub open spec fn resolve_session_fault(log: Seq<Reply>) -> Option<Fault> {
        if log.len() > 0 && log[0].required_row::<TouchedSession>(DatabaseError::NotFound) is Err {
            Fault::of(log[0].required_row::<TouchedSession>(DatabaseError::NotFound))
        } else if log.len() > 1 && log[1].single_row::<bool>() is Err {
            Fault::of(log[1].single_row::<bool>())
        } else {
            None
        }
    }

    /// The commands of `resolve_session`, in order.
    pub open spec fn resolve_session_script<'a>(
        tenant_id: Uuid, key_generation: i32, token_digest: &'a [u8], idle_seconds: i64,
        log: Seq<Reply>,
    ) -> Seq<CommandView<'a>> {
        let session = log[0].required_row::<TouchedSession>(DatabaseError::NotFound)->Ok_0;
        seq![
            CommandView::optional(
                sql::RESOLVE_SESSION_UPDATE_API_SESSIONS,
                seq![
                    Param::Id(tenant_id), Param::I32(key_generation),
                    Param::Bytes(token_digest), Param::I64(idle_seconds),
                ],
            ),
            CommandView::one(
                sql::RESOLVE_SESSION_EXISTS_EXTERNAL_IDENTITIES,
                seq![Param::Id(tenant_id), Param::Id(session.principal_id)],
            ),
        ]
    }

    /// What `resolve_session` returns.
    pub open spec fn resolve_session_output(tenant_id: Uuid, log: Seq<Reply>) -> SessionRecord {
        let session = log[0].required_row::<TouchedSession>(DatabaseError::NotFound)->Ok_0;
        let tenant_admin = log[1].single_row::<bool>()->Ok_0;
        SessionRecord {
            tenant_id,
            session_id: session.id,
            user_id: session.user_id,
            principal_id: session.principal_id,
            tenant_admin,
            reauthenticated_recently: session.fresh,
            csrf_digest: session.csrf_digest,
            display_name: session.display_name,
            verified_email: session.verified_email,
        }
    }

    /// The live session with this token; its idle limit moves.
    pub fn resolve_session<'a>(
        tenant_id: Uuid, key_generation: i32, token_digest: &'a [u8], idle_seconds: i64,
        log: &'a [Reply],
    ) -> (step: Step<'a, SessionRecord>)
        ensures
            step@ == StepView::proceed(
                Self::resolve_session_fault(log@),
                Self::resolve_session_script(
                    tenant_id, key_generation, token_digest, idle_seconds, log@,
                ),
                Self::resolve_session_output(tenant_id, log@),
                log@,
            ),
    {
        if log.len() == 0 {
            return ask_optional(
                sql::RESOLVE_SESSION_UPDATE_API_SESSIONS,
                vec![
                    Param::Id(tenant_id), Param::I32(key_generation),
                    Param::Bytes(token_digest), Param::I64(idle_seconds),
                ],
            );
        }
        let session: TouchedSession = match required(&log[0], DatabaseError::NotFound) {
            Ok(value) => value,
            Err(fault) => return stop(fault),
        };
        if log.len() <= 1 {
            return ask_one(
                sql::RESOLVE_SESSION_EXISTS_EXTERNAL_IDENTITIES,
                vec![Param::Id(tenant_id), Param::Id(session.principal_id)],
            );
        }
        let tenant_admin: bool = match single::<bool>(&log[1]) {
            Ok(value) => value,
            Err(fault) => return stop(fault),
        };
        Step::Done(
            SessionRecord {
                tenant_id,
                session_id: session.id,
                user_id: session.user_id,
                principal_id: session.principal_id,
                tenant_admin,
                reauthenticated_recently: session.fresh,
                csrf_digest: session.csrf_digest,
                display_name: session.display_name,
                verified_email: session.verified_email,
            },
        )
    }

    /// Every statement of `resolve_session` is about its tenant.
    pub proof fn resolve_session_is_scoped<'a>(
        tenant_id: Uuid, key_generation: i32, token_digest: &'a [u8], idle_seconds: i64,
        log: Seq<Reply>,
    )
        ensures
            crate::step::is_scoped(
                Self::resolve_session_script(
                    tenant_id, key_generation, token_digest, idle_seconds, log,
                ),
                tenant_id,
            ),
    {
    }

    /// What stops `revoke_session`, in order.
    pub open spec fn revoke_session_fault(log: Seq<Reply>) -> Option<Fault> {
        if log.len() > 1 && log[1].optional_row::<Uuid>() is Err {
            Fault::of(log[1].optional_row::<Uuid>())
        } else {
            None
        }
    }

    /// The commands of `revoke_session`, in order.
    pub open spec fn revoke_session_script<'a>(
        tenant_id: Uuid, actor: Uuid, session_id: Uuid, log: Seq<Reply>,
    ) -> Seq<CommandView<'a>> {
        let target = log[1].optional_row::<Uuid>()->Ok_0;
        seq![
            CommandView::Begin,
            CommandView::optional(
                sql::REVOKE_SESSION,
                seq![Param::Id(tenant_id), Param::Id(session_id)],
            ),
        ].add(
            if target is None {
                Seq::<CommandView<'a>>::empty()
            } else {
                seq![
                    CommandView::execute(
                        sql::INSERT_AUDIT,
                        seq![
                            Param::Id(tenant_id), Param::FreshId, Param::OptId(Some(actor)),
                            Param::OptId(target), Param::OptId(None), Param::Text("session.revoke"),
                            Param::Text("allowed"), Param::Text("session_revoked"),
                            Param::Bool(true),
                            Param::Object1("session_id", Detail::Id(session_id)),
                        ],
                    ),
                    CommandView::Commit,
                ]
            },
        )
    }

    /// What `revoke_session` returns.
    pub open spec fn revoke_session_output(log: Seq<Reply>) -> bool {
        let target = log[1].optional_row::<Uuid>()->Ok_0;
        target is Some
    }

    /// Revokes a session; says whether there was one to revoke.
    pub fn revoke_session<'a>(
        tenant_id: Uuid, actor: Uuid, session_id: Uuid, log: &'a [Reply],
    ) -> (step: Step<'a, bool>)
        ensures
            step@ == StepView::proceed(
                Self::revoke_session_fault(log@),
                Self::revoke_session_script(tenant_id, actor, session_id, log@),
                Self::revoke_session_output(log@),
                log@,
            ),
    {
        if log.len() == 0 {
            return Step::Ask(Command::Begin);
        }
        if log.len() <= 1 {
            return ask_optional(
                sql::REVOKE_SESSION,
                vec![Param::Id(tenant_id), Param::Id(session_id)],
            );
        }
        let target: Option<Uuid> = match optional::<Uuid>(&log[1]) {
            Ok(value) => value,
            Err(fault) => return stop(fault),
        };
        if target.is_none() {
            return Step::Done(false);
        }
        if log.len() <= 2 {
            return ask_execute(
                sql::INSERT_AUDIT,
                vec![
                    Param::Id(tenant_id), Param::FreshId, Param::OptId(Some(actor)),
                    Param::OptId(target), Param::OptId(None), Param::Text("session.revoke"),
                    Param::Text("allowed"), Param::Text("session_revoked"), Param::Bool(true),
                    Param::Object1("session_id", Detail::Id(session_id)),
                ],
            );
        }
        if log.len() <= 3 {
            return Step::Ask(Command::Commit);
        }
        Step::Done(true)
    }

    /// `revoke_session` runs in one transaction: it is done once its commit is acknowledged, and
    /// when it fails, nothing was committed. Where there is no session to revoke, nothing is
    /// committed.
    pub proof fn revoke_session_is_atomic(
        tenant_id: Uuid, actor: Uuid, session_id: Uuid, log: Seq<Reply>,
    )
        ensures
            (log[1].optional_row::<Uuid>()->Ok_0 is Some) ==> crate::step::is_atomic(
                Self::revoke_session_script(tenant_id, actor, session_id, log),
                0,
            ),
            !(log[1].optional_row::<Uuid>()->Ok_0 is Some)
                ==> crate::step::never_commits(
                    Self::revoke_session_script(tenant_id, actor, session_id, log),
                ),
            crate::step::commit_acknowledged(
                Self::revoke_session_fault(log.drop_last()),
                Self::revoke_session_script(tenant_id, actor, session_id, log.drop_last()),
                log,
            ) ==> {
                &&& Self::revoke_session_fault(log) is None
                &&& log.len() == Self::revoke_session_script(
                    tenant_id, actor, session_id, log,
                ).len()
            },
    {
    }

    /// Every statement of `revoke_session` is about its tenant.
    pub proof fn revoke_session_is_scoped(
        tenant_id: Uuid, actor: Uuid, session_id: Uuid, log: Seq<Reply>,
    )
        ensures
            crate::step::is_scoped(
                Self::revoke_session_script(tenant_id, actor, session_id, log),
                tenant_id,
            ),
    {
    }

    /// What stops `list_sessions`, in order.
    pub open spec fn list_sessions_fault(log: Seq<Reply>) -> Option<Fault> {
        if log.len() > 0 && log[0].all_rows::<SessionSummary>() is Err {
            Fault::of(log[0].all_rows::<SessionSummary>())
        } else {
            None
        }
    }

    /// The commands of `list_sessions`, in order.
    pub open spec fn list_sessions_script<'a>(
        tenant_id: Uuid, user_id: Uuid, log: Seq<Reply>,
    ) -> Seq<CommandView<'a>> {
        seq![CommandView::all(sql::LIST_SESSIONS, seq![Param::Id(tenant_id), Param::Id(user_id)])]
    }

    /// What `list_sessions` returns.
    pub open spec fn list_sessions_output(log: Seq<Reply>) -> Seq<SessionSummary> {
        let sessions = log[0].all_rows::<SessionSummary>()->Ok_0;
        sessions
    }

    /// A user's sessions.
    pub fn list_sessions<'a>(
        tenant_id: Uuid, user_id: Uuid, log: &'a [Reply],
    ) -> (step: Step<'a, Vec<SessionSummary>>)
        ensures
            step.list() == StepView::proceed(
                Self::list_sessions_fault(log@),
                Self::list_sessions_script(tenant_id, user_id, log@),
                Self::list_sessions_output(log@),
                log@,
            ),
    {
        if log.len() == 0 {
            return ask_all(sql::LIST_SESSIONS, vec![Param::Id(tenant_id), Param::Id(user_id)]);
        }
        let sessions: Vec<SessionSummary> = match many::<SessionSummary>(&log[0]) {
            Ok(value) => value,
            Err(fault) => return stop_list(fault),
        };
        Step::Done(sessions)
    }

    /// Every statement of `list_sessions` is about its tenant.
    pub proof fn list_sessions_is_scoped(tenant_id: Uuid, user_id: Uuid, log: Seq<Reply>)
        ensures
            crate::step::is_scoped(Self::list_sessions_script(tenant_id, user_id, log), tenant_id),
    {
    }

    /// What stops `revoke_all_sessions`, in order.
    pub open spec fn revoke_all_sessions_fault(log: Seq<Reply>) -> Option<Fault> {
        if log.len() > 1 && log[1].all_rows::<Uuid>() is Err {
            Fault::of(log[1].all_rows::<Uuid>())
        } else {
            None
        }
    }

    /// The commands of `revoke_all_sessions`, in order.
    pub open spec fn revoke_all_sessions_script<'a>(
        tenant_id: Uuid, actor: Uuid, user_id: Uuid, except_session_id: Option<Uuid>,
        log: Seq<Reply>,
    ) -> Seq<CommandView<'a>> {
        let revoked = log[1].all_rows::<Uuid>()->Ok_0;
        seq![
            CommandView::Begin,
            CommandView::all(
                sql::REVOKE_ALL_SESSIONS,
                seq![Param::Id(tenant_id), Param::Id(user_id), Param::OptId(except_session_id)],
            ),
        ].add(
            if revoked.len() > 0 {
                seq![
                    CommandView::execute(
                        sql::INSERT_AUDIT,
                        seq![
                            Param::Id(tenant_id), Param::FreshId, Param::OptId(Some(actor)),
                            Param::OptId(Some(actor)), Param::OptId(None),
                            Param::Text("session.revoke_all"), Param::Text("allowed"),
                            Param::Text("all_sessions_revoked"), Param::Bool(true),
                            Param::Object2(
                                "except_session_id", Detail::OptId(except_session_id),
                                "revoked_session_ids", Detail::RowIds(&log[1]),
                            ),
                        ],
                    ),
                ]
            } else {
                Seq::empty()
            },
        ).add(seq![CommandView::Commit])
    }

    /// What `revoke_all_sessions` returns.
    pub open spec fn revoke_all_sessions_output(log: Seq<Reply>) -> u64 {
        let revoked = log[1].all_rows::<Uuid>()->Ok_0;
        revoked.len() as u64
    }

    /// Revokes a user's sessions, but for one that may be named, and returns how many there were.
    pub fn revoke_all_sessions<'a>(
        tenant_id: Uuid, actor: Uuid, user_id: Uuid, except_session_id: Option<Uuid>,
        log: &'a [Reply],
    ) -> (step: Step<'a, u64>)
        ensures
            step@ == StepView::proceed(
                Self::revoke_all_sessions_fault(log@),
                Self::revoke_all_sessions_script(
                    tenant_id, actor, user_id, except_session_id, log@,
                ),
                Self::revoke_all_sessions_output(log@),
                log@,
            ),
    {
        if log.len() == 0 {
            return Step::Ask(Command::Begin);
        }
        if log.len() <= 1 {
            return ask_all(
                sql::REVOKE_ALL_SESSIONS,
                vec![Param::Id(tenant_id), Param::Id(user_id), Param::OptId(except_session_id)],
            );
        }
        let revoked: Vec<Uuid> = match many::<Uuid>(&log[1]) {
            Ok(value) => value,
            Err(fault) => return stop(fault),
        };
        if revoked.len() > 0 {
            if log.len() <= 2 {
                return ask_execute(
                    sql::INSERT_AUDIT,
                    vec![
                        Param::Id(tenant_id), Param::FreshId, Param::OptId(Some(actor)),
                        Param::OptId(Some(actor)), Param::OptId(None),
                        Param::Text("session.revoke_all"), Param::Text("allowed"),
                        Param::Text("all_sessions_revoked"), Param::Bool(true),
                        Param::Object2(
                            "except_session_id", Detail::OptId(except_session_id),
                            "revoked_session_ids", Detail::RowIds(&log[1]),
                        ),
                    ],
                );
            }
        }
        let at: usize = if revoked.len() > 0 {
            3
        } else {
            2
        };
        if log.len() <= at {
            return Step::Ask(Command::Commit);
        }
        Step::Done(revoked.len() as u64)
    }

    /// `revoke_all_sessions` runs in one transaction: it is done once its commit is acknowledged,
    /// and when it fails, nothing was committed.
    pub proof fn revoke_all_sessions_is_atomic(
        tenant_id: Uuid, actor: Uuid, user_id: Uuid, except_session_id: Option<Uuid>,
        log: Seq<Reply>,
    )
        ensures
            crate::step::is_atomic(
                Self::revoke_all_sessions_script(tenant_id, actor, user_id, except_session_id, log),
                0,
            ),
            crate::step::commit_acknowledged(
                Self::revoke_all_sessions_fault(log.drop_last()),
                Self::revoke_all_sessions_script(
                    tenant_id, actor, user_id, except_session_id, log.drop_last(),
                ),
                log,
            ) ==> {
                &&& Self::revoke_all_sessions_fault(log) is None
                &&& log.len() == Self::revoke_all_sessions_script(
                    tenant_id, actor, user_id, except_session_id, log,
                ).len()
            },
    {
    }

    /// Every statement of `revoke_all_sessions` is about its tenant.
    pub proof fn revoke_all_sessions_is_scoped(
        tenant_id: Uuid, actor: Uuid, user_id: Uuid, except_session_id: Option<Uuid>,
        log: Seq<Reply>,
    )
        ensures
            crate::step::is_scoped(
                Self::revoke_all_sessions_script(tenant_id, actor, user_id, except_session_id, log),
                tenant_id,
            ),
    {
    }

}

/// A shared drive has ten times the room of a private one.
pub proof fn shared_quota_is_ten_private_quotas()
    ensures
        SHARED_DRIVE_QUOTA_BYTES == 10 * PRIVATE_DRIVE_QUOTA_BYTES,
{
}

} // verus!
