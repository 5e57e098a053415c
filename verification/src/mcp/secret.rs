//! Encrypted credentials of registrations.

use std::sync::Arc;

use vstd::prelude::*;

use crate::database::Database;
use crate::error::DatabaseError;
use crate::error::Fault;
use crate::id::Uuid;
use crate::mcp::management::RegistrationConfigurationUpdate;
use crate::mcp::registration::McpRegistrationRecord;
use crate::row::FromRow;
use crate::row::Reply;
use crate::row::Row;
use crate::row::exactly_one;
use crate::row::many;
use crate::row::required;
use crate::row::single;
use crate::sql::mcp as sql;
use crate::step::Command;
use crate::step::CommandView;
use crate::step::Param;
use crate::step::Step;
use crate::step::StepView;
use crate::step::ask_all;
use crate::step::ask_execute;
use crate::step::ask_one;
use crate::step::ask_optional;
use crate::step::stop;
use crate::step::stop_list;
use crate::text::sized;
use crate::text::text_eq;

verus! {

/// A credential, encrypted under a key that is itself encrypted.
#[derive(Debug)]
pub struct McpSecretEnvelope {
    pub tenant_id: Uuid,
    pub registration_id: Uuid,
    pub owner_principal_id: Uuid,
    pub issuer: String,
    pub secret_kind: String,
    pub credential_generation: i64,
    pub ciphertext: Arc<Vec<u8>>,
    pub nonce: Arc<Vec<u8>>,
    pub wrapped_dek: Arc<Vec<u8>>,
    pub wrap_nonce: Arc<Vec<u8>>,
    pub kek_generation: i32,
    pub aad_version: i32,
}

impl McpSecretEnvelope {
    /// What a row holds, read by its column names.
    #[verifier::opaque]
    pub open spec fn of_row(row: Row) -> Result<McpSecretEnvelope, Fault> {
        if row.column::<Uuid>("tenant_id"@) is Some
            && row.column::<Uuid>("registration_id"@) is Some
            && row.column::<Uuid>("owner_principal_id"@) is Some
            && row.column::<String>("issuer"@) is Some
            && row.column::<String>("secret_kind"@) is Some
            && row.column::<i64>("credential_generation"@) is Some
            && row.column::<Arc<Vec<u8>>>("ciphertext"@) is Some
            && row.column::<Arc<Vec<u8>>>("nonce"@) is Some
            && row.column::<Arc<Vec<u8>>>("wrapped_dek"@) is Some
            && row.column::<Arc<Vec<u8>>>("wrap_nonce"@) is Some
            && row.column::<i32>("kek_generation"@) is Some
            && row.column::<i32>("aad_version"@) is Some {
            Ok(
                McpSecretEnvelope {
                    tenant_id: row.column::<Uuid>("tenant_id"@)->0,
                    registration_id: row.column::<Uuid>("registration_id"@)->0,
                    owner_principal_id: row.column::<Uuid>("owner_principal_id"@)->0,
                    issuer: row.column::<String>("issuer"@)->0,
                    secret_kind: row.column::<String>("secret_kind"@)->0,
                    credential_generation: row.column::<i64>("credential_generation"@)->0,
                    ciphertext: row.column::<Arc<Vec<u8>>>("ciphertext"@)->0,
                    nonce: row.column::<Arc<Vec<u8>>>("nonce"@)->0,
                    wrapped_dek: row.column::<Arc<Vec<u8>>>("wrapped_dek"@)->0,
                    wrap_nonce: row.column::<Arc<Vec<u8>>>("wrap_nonce"@)->0,
                    kek_generation: row.column::<i32>("kek_generation"@)->0,
                    aad_version: row.column::<i32>("aad_version"@)->0,
                },
            )
        } else {
            Err(Fault::Malformed)
        }
    }
}

impl FromRow for McpSecretEnvelope {
    open spec fn row_spec(row: Row) -> Result<McpSecretEnvelope, Fault> {
        McpSecretEnvelope::of_row(row)
    }

    fn from_row(row: &Row) -> (r: Result<McpSecretEnvelope, Fault>) {
        proof {
            reveal(McpSecretEnvelope::of_row);
        }
        let tenant_id: Uuid = match row.get("tenant_id") {
            Some(v) => v,
            None => return Err(Fault::Malformed),
        };
        let registration_id: Uuid = match row.get("registration_id") {
            Some(v) => v,
            None => return Err(Fault::Malformed),
        };
        let owner_principal_id: Uuid = match row.get("owner_principal_id") {
            Some(v) => v,
            None => return Err(Fault::Malformed),
        };
        let issuer: String = match row.get("issuer") {
            Some(v) => v,
            None => return Err(Fault::Malformed),
        };
        let secret_kind: String = match row.get("secret_kind") {
            Some(v) => v,
            None => return Err(Fault::Malformed),
        };
        let credential_generation: i64 = match row.get("credential_generation") {
            Some(v) => v,
            None => return Err(Fault::Malformed),
        };
        let ciphertext: Arc<Vec<u8>> = match row.get("ciphertext") {
            Some(v) => v,
            None => return Err(Fault::Malformed),
        };
        let nonce: Arc<Vec<u8>> = match row.get("nonce") {
            Some(v) => v,
            None => return Err(Fault::Malformed),
        };
        let wrapped_dek: Arc<Vec<u8>> = match row.get("wrapped_dek") {
            Some(v) => v,
            None => return Err(Fault::Malformed),
        };
        let wrap_nonce: Arc<Vec<u8>> = match row.get("wrap_nonce") {
            Some(v) => v,
            None => return Err(Fault::Malformed),
        };
        let kek_generation: i32 = match row.get("kek_generation") {
            Some(v) => v,
            None => return Err(Fault::Malformed),
        };
        let aad_version: i32 = match row.get("aad_version") {
            Some(v) => v,
            None => return Err(Fault::Malformed),
        };
        Ok(McpSecretEnvelope {
            tenant_id, registration_id, owner_principal_id, issuer, secret_kind,
            credential_generation, ciphertext, nonce, wrapped_dek, wrap_nonce, kek_generation,
            aad_version,
        })
    }
}

/// What may be told of a credential.
#[derive(Debug)]
pub struct McpCredentialMetadata {
    pub registration_id: Uuid,
    pub owner_principal_id: Uuid,
    pub issuer: String,
    pub secret_kind: String,
    pub credential_generation: i64,
    pub kek_generation: i32,
    pub created_at: String,
    pub updated_at: String,
}

impl McpCredentialMetadata {
    /// What a row holds, read by its column names.
    #[verifier::opaque]
    pub open spec fn of_row(row: Row) -> Result<McpCredentialMetadata, Fault> {
        if row.column::<Uuid>("registration_id"@) is Some
            && row.column::<Uuid>("owner_principal_id"@) is Some
            && row.column::<String>("issuer"@) is Some
            && row.column::<String>("secret_kind"@) is Some
            && row.column::<i64>("credential_generation"@) is Some
            && row.column::<i32>("kek_generation"@) is Some
            && row.column::<String>("created_at"@) is Some
            && row.column::<String>("updated_at"@) is Some {
            Ok(
                McpCredentialMetadata {
                    registration_id: row.column::<Uuid>("registration_id"@)->0,
                    owner_principal_id: row.column::<Uuid>("owner_principal_id"@)->0,
                    issuer: row.column::<String>("issuer"@)->0,
                    secret_kind: row.column::<String>("secret_kind"@)->0,
                    credential_generation: row.column::<i64>("credential_generation"@)->0,
                    kek_generation: row.column::<i32>("kek_generation"@)->0,
                    created_at: row.column::<String>("created_at"@)->0,
                    updated_at: row.column::<String>("updated_at"@)->0,
                },
            )
        } else {
            Err(Fault::Malformed)
        }
    }
}

impl FromRow for McpCredentialMetadata {
    open spec fn row_spec(row: Row) -> Result<McpCredentialMetadata, Fault> {
        McpCredentialMetadata::of_row(row)
    }

    fn from_row(row: &Row) -> (r: Result<McpCredentialMetadata, Fault>) {
        proof {
            reveal(McpCredentialMetadata::of_row);
        }
        let registration_id: Uuid = match row.get("registration_id") {
            Some(v) => v,
            None => return Err(Fault::Malformed),
        };
        let owner_principal_id: Uuid = match row.get("owner_principal_id") {
            Some(v) => v,
            None => return Err(Fault::Malformed),
        };
        let issuer: String = match row.get("issuer") {
            Some(v) => v,
            None => return Err(Fault::Malformed),
        };
        let secret_kind: String = match row.get("secret_kind") {
            Some(v) => v,
            None => return Err(Fault::Malformed),
        };
        let credential_generation: i64 = match row.get("credential_generation") {
            Some(v) => v,
            None => return Err(Fault::Malformed),
        };
        let kek_generation: i32 = match row.get("kek_generation") {
            Some(v) => v,
            None => return Err(Fault::Malformed),
        };
        let created_at: String = match row.get("created_at") {
            Some(v) => v,
            None => return Err(Fault::Malformed),
        };
        let updated_at: String = match row.get("updated_at") {
            Some(v) => v,
            None => return Err(Fault::Malformed),
        };
        Ok(McpCredentialMetadata {
            registration_id, owner_principal_id, issuer, secret_kind, credential_generation,
            kek_generation, created_at, updated_at,
        })
    }
}

/// Whether a kind of secret belongs to an OAuth exchange.
pub open spec fn is_oauth_spec(kind: Seq<char>) -> bool {
    kind == "oauth_client"@ || kind == "oauth_access"@ || kind == "oauth_refresh"@
}

/// Whether a kind of secret belongs to an OAuth exchange.
pub fn is_oauth(kind: &str) -> (r: bool)
    ensures
        r == is_oauth_spec(kind@),
{
    text_eq(kind, "oauth_client") || text_eq(kind, "oauth_access") || text_eq(kind, "oauth_refresh")
}

impl McpSecretEnvelope {
    /// Whether the envelope can be stored: both nonces have twelve bytes, both ciphertexts have
    /// some, the generations are positive, and the kind of secret is a known one.
    pub open spec fn is_valid(&self) -> bool {
        &&& self.nonce@.len() == 12
        &&& self.wrap_nonce@.len() == 12
        &&& self.ciphertext@.len() > 0
        &&& self.wrapped_dek@.len() > 0
        &&& self.credential_generation > 0
        &&& self.kek_generation > 0
        &&& self.aad_version == 1
        &&& crate::text::is_sized(self.issuer@, 0, 2048)
        &&& is_oauth_spec(self.secret_kind@) || self.secret_kind@ == "bearer"@ || self.secret_kind@
            == "api_key"@
    }
}

/// The verdict on an envelope.
pub open spec fn envelope_verdict(envelope: McpSecretEnvelope) -> Result<(), DatabaseError> {
    if envelope.is_valid() {
        Ok(())
    } else {
        Err(DatabaseError::InvalidPersistedValue)
    }
}

/// Refuses an envelope that cannot be stored.
pub fn validate_secret_envelope(envelope: &McpSecretEnvelope) -> (r: Result<(), DatabaseError>)
    ensures
        r == envelope_verdict(*envelope),
{
    if envelope.nonce.len() == 12 && envelope.wrap_nonce.len() == 12 && envelope.ciphertext.len()
        > 0 && envelope.wrapped_dek.len() > 0 && envelope.credential_generation > 0
        && envelope.kek_generation > 0 && envelope.aad_version == 1 && sized(
        envelope.issuer.as_str(),
        0,
        2048,
    ) && (is_oauth(envelope.secret_kind.as_str()) || text_eq(
        envelope.secret_kind.as_str(),
        "bearer",
    ) || text_eq(envelope.secret_kind.as_str(), "api_key")) {
        Ok(())
    } else {
        Err(DatabaseError::InvalidPersistedValue)
    }
}

/// Whether a generation comes right after another.
pub open spec fn follows(next: i64, current: i64) -> bool {
    next == current + 1
}

/// Whether a generation comes right after another.
pub fn does_follow(next: i64, current: i64) -> (r: bool)
    ensures
        r == follows(next, current),
{
    current < i64::MAX && next == current + 1
}

impl Database {

    /// What stops `mcp_replace_registration_secret`, in order.
    pub open spec fn mcp_replace_registration_secret_fault<'a>(
        envelope: &'a McpSecretEnvelope,
        log: Seq<Reply>,
    ) -> Option<Fault> {
        let current = log[1].required_row::<i64>(DatabaseError::NotFound)->Ok_0;
        if envelope_verdict(*envelope) is Err {
            Some(Fault::Error(envelope_verdict(*envelope)->Err_0))
        } else if log.len() > 1 && log[1].required_row::<i64>(DatabaseError::NotFound) is Err {
            Fault::of(log[1].required_row::<i64>(DatabaseError::NotFound))
        } else if log.len() > 1 && !follows(envelope.credential_generation, current) {
            Some(Fault::Error(DatabaseError::StaleGeneration))
        } else if log.len() > 4
            && log[4].required_row::<McpCredentialMetadata>(DatabaseError::StaleGeneration) is Err {
            Fault::of(log[4].required_row::<McpCredentialMetadata>(DatabaseError::StaleGeneration))
        } else if log.len() > 5 && log[5].one_affected(DatabaseError::StaleGeneration) is Err {
            Fault::of(log[5].one_affected(DatabaseError::StaleGeneration))
        } else {
            None
        }
    }

    /// The commands of `mcp_replace_registration_secret`, in order.
    pub open spec fn mcp_replace_registration_secret_script<'a>(
        envelope: &'a McpSecretEnvelope,
        log: Seq<Reply>,
    ) -> Seq<CommandView<'a>> {
        seq![
            CommandView::Begin,
            CommandView::optional(
                sql::REPLACE_REGISTRATION_SECRET_SELECT_REGISTRATIONS,
                seq![
                    Param::Id(envelope.tenant_id), Param::Id(envelope.registration_id),
                    Param::Id(envelope.owner_principal_id),
                ],
            ),
            CommandView::execute(
                sql::REPLACE_REGISTRATION_SECRET_DELETE_OAUTH_ATTEMPTS,
                seq![
                    Param::Id(envelope.tenant_id), Param::Id(envelope.registration_id),
                    Param::Id(envelope.owner_principal_id),
                ],
            ),
            CommandView::execute(
                sql::REPLACE_REGISTRATION_SECRET_DELETE_SECRET_ENVELOPES,
                seq![
                    Param::Id(envelope.tenant_id), Param::Id(envelope.registration_id),
                    Param::Id(envelope.owner_principal_id),
                ],
            ),
            CommandView::optional(
                sql::REPLACE_REGISTRATION_SECRET_INSERT_SECRET_ENVELOPES,
                seq![
                    Param::Id(envelope.tenant_id), Param::Id(envelope.registration_id),
                    Param::Id(envelope.owner_principal_id), Param::Owned(envelope.issuer),
                    Param::Owned(envelope.secret_kind),
                    Param::I64(envelope.credential_generation),
                    Param::Blob(envelope.ciphertext), Param::Blob(envelope.nonce),
                    Param::Blob(envelope.wrapped_dek), Param::Blob(envelope.wrap_nonce),
                    Param::I32(envelope.kek_generation), Param::I32(envelope.aad_version),
                ],
            ),
            CommandView::execute(
                sql::REPLACE_REGISTRATION_SECRET_UPDATE_REGISTRATIONS,
                seq![
                    Param::Id(envelope.tenant_id), Param::Id(envelope.registration_id),
                    Param::Id(envelope.owner_principal_id),
                    Param::I64(envelope.credential_generation),
                    if is_oauth_spec(envelope.secret_kind@) { Param::Text("oauth") } else {
                        Param::Owned(envelope.secret_kind)
                    },
                ],
            ),
            CommandView::Commit,
        ]
    }

    /// What `mcp_replace_registration_secret` returns.
    pub open spec fn mcp_replace_registration_secret_output(
        log: Seq<Reply>,
    ) -> McpCredentialMetadata {
        let metadata =
            log[4].required_row::<McpCredentialMetadata>(DatabaseError::StaleGeneration)->Ok_0;
        metadata
    }

    /// Replaces all credentials of a registration by one of the next generation. The registration
    /// is disabled and forgets what was discovered with the old ones.
    pub fn mcp_replace_registration_secret<'a>(
        envelope: &'a McpSecretEnvelope,
        log: &'a [Reply],
    ) -> (step: Step<'a, McpCredentialMetadata>)
        ensures
            step@ == StepView::proceed(
                Self::mcp_replace_registration_secret_fault(envelope, log@),
                Self::mcp_replace_registration_secret_script(envelope, log@),
                Self::mcp_replace_registration_secret_output(log@),
                log@,
            ),
    {
        let shape: () = match validate_secret_envelope(envelope) {
            Ok(value) => value,
            Err(error) => return Step::Fail(error),
        };
        if log.len() == 0 {
            return Step::Ask(Command::Begin);
        }
        if log.len() <= 1 {
            return ask_optional(
                sql::REPLACE_REGISTRATION_SECRET_SELECT_REGISTRATIONS,
                vec![
                    Param::Id(envelope.tenant_id), Param::Id(envelope.registration_id),
                    Param::Id(envelope.owner_principal_id),
                ],
            );
        }
        let current: i64 = match required::<i64>(&log[1], DatabaseError::NotFound) {
            Ok(value) => value,
            Err(fault) => return stop(fault),
        };
        if !does_follow(envelope.credential_generation, current) {
            return Step::Fail(DatabaseError::StaleGeneration);
        }
        if log.len() <= 2 {
            return ask_execute(
                sql::REPLACE_REGISTRATION_SECRET_DELETE_OAUTH_ATTEMPTS,
                vec![
                    Param::Id(envelope.tenant_id), Param::Id(envelope.registration_id),
                    Param::Id(envelope.owner_principal_id),
                ],
            );
        }
        if log.len() <= 3 {
            return ask_execute(
                sql::REPLACE_REGISTRATION_SECRET_DELETE_SECRET_ENVELOPES,
                vec![
                    Param::Id(envelope.tenant_id), Param::Id(envelope.registration_id),
                    Param::Id(envelope.owner_principal_id),
                ],
            );
        }
        if log.len() <= 4 {
            return ask_optional(
                sql::REPLACE_REGISTRATION_SECRET_INSERT_SECRET_ENVELOPES,
                vec![
                    Param::Id(envelope.tenant_id), Param::Id(envelope.registration_id),
                    Param::Id(envelope.owner_principal_id),
                    Param::Owned(envelope.issuer.clone()),
                    Param::Owned(envelope.secret_kind.clone()),
                    Param::I64(envelope.credential_generation),
                    Param::Blob(envelope.ciphertext.clone()),
                    Param::Blob(envelope.nonce.clone()),
                    Param::Blob(envelope.wrapped_dek.clone()),
                    Param::Blob(envelope.wrap_nonce.clone()),
                    Param::I32(envelope.kek_generation), Param::I32(envelope.aad_version),
                ],
            );
        }
        let metadata: McpCredentialMetadata = match required(
            &log[4],
            DatabaseError::StaleGeneration,
        ) {
            Ok(value) => value,
            Err(fault) => return stop(fault),
        };
        if log.len() <= 5 {
            return ask_execute(
                sql::REPLACE_REGISTRATION_SECRET_UPDATE_REGISTRATIONS,
                vec![
                    Param::Id(envelope.tenant_id), Param::Id(envelope.registration_id),
                    Param::Id(envelope.owner_principal_id),
                    Param::I64(envelope.credential_generation),
                    if is_oauth(envelope.secret_kind.as_str()) { Param::Text("oauth") } else {
                        Param::Owned(envelope.secret_kind.clone())
                    },
                ],
            );
        }
        if let Err(fault) = exactly_one(&log[5], DatabaseError::StaleGeneration) {
            return stop(fault);
        }
        if log.len() <= 6 {
            return Step::Ask(Command::Commit);
        }
        Step::Done(metadata)
    }

    /// `mcp_replace_registration_secret` runs in one transaction: it is done once its commit is
    /// acknowledged, and when it fails, nothing was committed.
    pub proof fn mcp_replace_registration_secret_is_atomic<'a>(
        envelope: &'a McpSecretEnvelope,
        log: Seq<Reply>,
    )
        ensures
            crate::step::is_atomic(
                Self::mcp_replace_registration_secret_script(envelope, log),
                0,
            ),
            crate::step::commit_acknowledged(
                Self::mcp_replace_registration_secret_fault(envelope, log.drop_last()),
                Self::mcp_replace_registration_secret_script(envelope, log.drop_last()),
                log,
            ) ==> {
                &&& Self::mcp_replace_registration_secret_fault(envelope, log) is None
                &&& log.len() == Self::mcp_replace_registration_secret_script(envelope, log).len()
            },
    {
    }

    /// Every statement of `mcp_replace_registration_secret` is about its tenant.
    pub proof fn mcp_replace_registration_secret_is_scoped<'a>(
        envelope: &'a McpSecretEnvelope,
        log: Seq<Reply>,
    )
        ensures
            crate::step::is_scoped(
                Self::mcp_replace_registration_secret_script(envelope, log),
                envelope.tenant_id,
            ),
    {
    }

    /// What stops `mcp_secret_envelope`, in order.
    pub open spec fn mcp_secret_envelope_fault(log: Seq<Reply>) -> Option<Fault> {
        if log.len() > 0
            && log[0].required_row::<McpSecretEnvelope>(DatabaseError::NotFound) is Err {
            Fault::of(log[0].required_row::<McpSecretEnvelope>(DatabaseError::NotFound))
        } else {
            None
        }
    }

    /// The commands of `mcp_secret_envelope`, in order.
    pub open spec fn mcp_secret_envelope_script<'a>(
        tenant_id: Uuid, registration_id: Uuid, owner_principal_id: Uuid, issuer: &'a str,
        secret_kind: &'a str, log: Seq<Reply>,
    ) -> Seq<CommandView<'a>> {
        seq![
            CommandView::optional(
                sql::SECRET_ENVELOPE,
                seq![
                    Param::Id(tenant_id), Param::Id(registration_id),
                    Param::Id(owner_principal_id), Param::Text(issuer),
                    Param::Text(secret_kind),
                ],
            ),
        ]
    }

    /// What `mcp_secret_envelope` returns.
    pub open spec fn mcp_secret_envelope_output(log: Seq<Reply>) -> McpSecretEnvelope {
        let envelope = log[0].required_row::<McpSecretEnvelope>(DatabaseError::NotFound)->Ok_0;
        envelope
    }

    /// One credential.
    pub fn mcp_secret_envelope<'a>(
        tenant_id: Uuid, registration_id: Uuid, owner_principal_id: Uuid, issuer: &'a str,
        secret_kind: &'a str, log: &'a [Reply],
    ) -> (step: Step<'a, McpSecretEnvelope>)
        ensures
            step@ == StepView::proceed(
                Self::mcp_secret_envelope_fault(log@),
                Self::mcp_secret_envelope_script(
                    tenant_id, registration_id, owner_principal_id, issuer, secret_kind, log@,
                ),
                Self::mcp_secret_envelope_output(log@),
                log@,
            ),
    {
        if log.len() == 0 {
            return ask_optional(
                sql::SECRET_ENVELOPE,
                vec![
                    Param::Id(tenant_id), Param::Id(registration_id),
                    Param::Id(owner_principal_id), Param::Text(issuer),
                    Param::Text(secret_kind),
                ],
            );
        }
        let envelope: McpSecretEnvelope = match required(&log[0], DatabaseError::NotFound) {
            Ok(value) => value,
            Err(fault) => return stop(fault),
        };
        Step::Done(envelope)
    }

    /// Every statement of `mcp_secret_envelope` is about its tenant.
    pub proof fn mcp_secret_envelope_is_scoped<'a>(
        tenant_id: Uuid, registration_id: Uuid, owner_principal_id: Uuid, issuer: &'a str,
        secret_kind: &'a str, log: Seq<Reply>,
    )
        ensures
            crate::step::is_scoped(
                Self::mcp_secret_envelope_script(
                    tenant_id, registration_id, owner_principal_id, issuer, secret_kind, log,
                ),
                tenant_id,
            ),
    {
    }

    /// What stops `mcp_secret_metadata`, in order.
    pub open spec fn mcp_secret_metadata_fault(log: Seq<Reply>) -> Option<Fault> {
        if log.len() > 0 && log[0].all_rows::<McpCredentialMetadata>() is Err {
            Fault::of(log[0].all_rows::<McpCredentialMetadata>())
        } else {
            None
        }
    }

    /// The commands of `mcp_secret_metadata`, in order.
    pub open spec fn mcp_secret_metadata_script<'a>(
        tenant_id: Uuid, registration_id: Uuid, owner_principal_id: Uuid, log: Seq<Reply>,
    ) -> Seq<CommandView<'a>> {
        seq![
            CommandView::all(
                sql::SECRET_METADATA,
                seq![
                    Param::Id(tenant_id), Param::Id(registration_id),
                    Param::Id(owner_principal_id),
                ],
            ),
        ]
    }

    /// What `mcp_secret_metadata` returns.
    pub open spec fn mcp_secret_metadata_output(log: Seq<Reply>) -> Seq<McpCredentialMetadata> {
        let metadata = log[0].all_rows::<McpCredentialMetadata>()->Ok_0;
        metadata
    }

    /// What may be told of a registration's credentials.
    pub fn mcp_secret_metadata<'a>(
        tenant_id: Uuid, registration_id: Uuid, owner_principal_id: Uuid, log: &'a [Reply],
    ) -> (step: Step<'a, Vec<McpCredentialMetadata>>)
        ensures
            step.list() == StepView::proceed(
                Self::mcp_secret_metadata_fault(log@),
                Self::mcp_secret_metadata_script(
                    tenant_id, registration_id, owner_principal_id, log@,
                ),
                Self::mcp_secret_metadata_output(log@),
                log@,
            ),
    {
        if log.len() == 0 {
            return ask_all(
                sql::SECRET_METADATA,
                vec![
                    Param::Id(tenant_id), Param::Id(registration_id),
                    Param::Id(owner_principal_id),
                ],
            );
        }
        let metadata: Vec<McpCredentialMetadata> = match many::<McpCredentialMetadata>(&log[0]) {
            Ok(value) => value,
            Err(fault) => return stop_list(fault),
        };
        Step::Done(metadata)
    }

    /// Every statement of `mcp_secret_metadata` is about its tenant.
    pub proof fn mcp_secret_metadata_is_scoped(
        tenant_id: Uuid, registration_id: Uuid, owner_principal_id: Uuid, log: Seq<Reply>,
    )
        ensures
            crate::step::is_scoped(
                Self::mcp_secret_metadata_script(
                    tenant_id, registration_id, owner_principal_id, log,
                ),
                tenant_id,
            ),
    {
    }

    /// What stops `mcp_replace_registration_configuration_and_erase`, in order.
    pub open spec fn mcp_replace_registration_configuration_and_erase_fault<'a>(
        input: &'a RegistrationConfigurationUpdate<'a>,
        log: Seq<Reply>,
    ) -> Option<Fault> {
        if !input.is_valid() {
            Some(Fault::Error(DatabaseError::InvalidPersistedValue))
        } else if log.len() > 2 && log[2].single_row::<McpRegistrationRecord>() is Err {
            Fault::of(log[2].single_row::<McpRegistrationRecord>())
        } else {
            None
        }
    }

    /// The commands of `mcp_replace_registration_configuration_and_erase`, in order.
    pub open spec fn mcp_replace_registration_configuration_and_erase_script<'a>(
        input: &'a RegistrationConfigurationUpdate<'a>,
        log: Seq<Reply>,
    ) -> Seq<CommandView<'a>> {
        seq![
            CommandView::Begin,
            CommandView::execute(
                sql::REPLACE_REGISTRATION_CONFIGURATION_AND_ERASE_SELECT_VALUE,
                seq![
                    Param::Id(input.tenant_id), Param::Id(input.registration_id),
                    Param::Id(input.owner_principal_id), Param::I64(input.expected_revision),
                    Param::Text(input.display_name), Param::Text(input.description),
                    Param::OptText(input.endpoint_uri), Param::OptText(input.trust_profile),
                    Param::OptText(input.catalog_entry), Param::Json(input.policy),
                ],
            ),
            CommandView::one(
                sql::REPLACE_REGISTRATION_CONFIGURATION_AND_ERASE_SELECT_REGISTRATIONS,
                seq![
                    Param::Id(input.tenant_id), Param::Id(input.registration_id),
                    Param::Id(input.owner_principal_id),
                ],
            ),
            CommandView::Commit,
        ]
    }

    /// What `mcp_replace_registration_configuration_and_erase` returns.
    pub open spec fn mcp_replace_registration_configuration_and_erase_output(
        log: Seq<Reply>,
    ) -> McpRegistrationRecord {
        let registration = log[2].single_row::<McpRegistrationRecord>()->Ok_0;
        registration
    }

    /// Replaces a registration's configuration and erases its credentials with it.
    pub fn mcp_replace_registration_configuration_and_erase<'a>(
        input: &'a RegistrationConfigurationUpdate<'a>,
        log: &'a [Reply],
    ) -> (step: Step<'a, McpRegistrationRecord>)
        ensures
            step@ == StepView::proceed(
                Self::mcp_replace_registration_configuration_and_erase_fault(input, log@),
                Self::mcp_replace_registration_configuration_and_erase_script(input, log@),
                Self::mcp_replace_registration_configuration_and_erase_output(log@),
                log@,
            ),
    {
        if !input.valid() {
            return Step::Fail(DatabaseError::InvalidPersistedValue);
        }
        if log.len() == 0 {
            return Step::Ask(Command::Begin);
        }
        if log.len() <= 1 {
            return ask_execute(
                sql::REPLACE_REGISTRATION_CONFIGURATION_AND_ERASE_SELECT_VALUE,
                vec![
                    Param::Id(input.tenant_id), Param::Id(input.registration_id),
                    Param::Id(input.owner_principal_id), Param::I64(input.expected_revision),
                    Param::Text(input.display_name), Param::Text(input.description),
                    Param::OptText(input.endpoint_uri), Param::OptText(input.trust_profile),
                    Param::OptText(input.catalog_entry), Param::Json(input.policy),
                ],
            );
        }
        if log.len() <= 2 {
            return ask_one(
                sql::REPLACE_REGISTRATION_CONFIGURATION_AND_ERASE_SELECT_REGISTRATIONS,
                vec![
                    Param::Id(input.tenant_id), Param::Id(input.registration_id),
                    Param::Id(input.owner_principal_id),
                ],
            );
        }
        let registration: McpRegistrationRecord = match single::<McpRegistrationRecord>(&log[2]) {
            Ok(value) => value,
            Err(fault) => return stop(fault),
        };
        if log.len() <= 3 {
            return Step::Ask(Command::Commit);
        }
        Step::Done(registration)
    }

    /// `mcp_replace_registration_configuration_and_erase` runs in one transaction: it is done once
    /// its commit is acknowledged, and when it fails, nothing was committed.
    pub proof fn mcp_replace_registration_configuration_and_erase_is_atomic<'a>(
        input: &'a RegistrationConfigurationUpdate<'a>,
        log: Seq<Reply>,
    )
        ensures
            crate::step::is_atomic(
                Self::mcp_replace_registration_configuration_and_erase_script(input, log),
                0,
            ),
            crate::step::commit_acknowledged(
                Self::mcp_replace_registration_configuration_and_erase_fault(
                    input,
                    log.drop_last(),
                ),
                Self::mcp_replace_registration_configuration_and_erase_script(
                    input,
                    log.drop_last(),
                ),
                log,
            ) ==> {
                &&& Self::mcp_replace_registration_configuration_and_erase_fault(input, log) is None
                &&& log.len()
                    == Self::mcp_replace_registration_configuration_and_erase_script(input, log).len()
            },
    {
    }

    /// Every statement of `mcp_replace_registration_configuration_and_erase` is about its tenant.
    pub proof fn mcp_replace_registration_configuration_and_erase_is_scoped<'a>(
        input: &'a RegistrationConfigurationUpdate<'a>,
        log: Seq<Reply>,
    )
        ensures
            crate::step::is_scoped(
                Self::mcp_replace_registration_configuration_and_erase_script(input, log),
                input.tenant_id,
            ),
    {
    }

    /// What stops `mcp_cryptographically_erase_registration_at_revision`, in order.
    pub open spec fn mcp_cryptographically_erase_registration_at_revision_fault(
        log: Seq<Reply>,
    ) -> Option<Fault> {
        if log.len() > 1 && log[1].required_row::<i64>(DatabaseError::Conflict) is Err {
            Fault::of(log[1].required_row::<i64>(DatabaseError::Conflict))
        } else if log.len() > 4
            && log[4].required_row::<McpRegistrationRecord>(DatabaseError::NotFound) is Err {
            Fault::of(log[4].required_row::<McpRegistrationRecord>(DatabaseError::NotFound))
        } else {
            None
        }
    }

    /// The commands of `mcp_cryptographically_erase_registration_at_revision`, in order.
    pub open spec fn mcp_cryptographically_erase_registration_at_revision_script<'a>(
        tenant_id: Uuid, registration_id: Uuid, owner_principal_id: Uuid,
        expected_revision: i64, log: Seq<Reply>,
    ) -> Seq<CommandView<'a>> {
        seq![
            CommandView::Begin,
            CommandView::optional(
                sql::CRYPTOGRAPHICALLY_ERASE_REGISTRATION_AT_REVISION_SELECT_REGISTRATIONS,
                seq![
                    Param::Id(tenant_id), Param::Id(registration_id),
                    Param::Id(owner_principal_id), Param::I64(expected_revision),
                ],
            ),
            CommandView::execute(
                sql::REPLACE_REGISTRATION_SECRET_DELETE_OAUTH_ATTEMPTS,
                seq![
                    Param::Id(tenant_id), Param::Id(registration_id),
                    Param::Id(owner_principal_id),
                ],
            ),
            CommandView::execute(
                sql::REPLACE_REGISTRATION_SECRET_DELETE_SECRET_ENVELOPES,
                seq![
                    Param::Id(tenant_id), Param::Id(registration_id),
                    Param::Id(owner_principal_id),
                ],
            ),
            CommandView::optional(
                sql::CRYPTOGRAPHICALLY_ERASE_REGISTRATION_AT_REVISION_UPDATE_REGISTRATIONS,
                seq![
                    Param::Id(tenant_id), Param::Id(registration_id),
                    Param::Id(owner_principal_id), Param::I64(expected_revision),
                ],
            ),
            CommandView::Commit,
        ]
    }

    /// What `mcp_cryptographically_erase_registration_at_revision` returns.
    pub open spec fn mcp_cryptographically_erase_registration_at_revision_output(
        log: Seq<Reply>,
    ) -> McpRegistrationRecord {
        let registration =
            log[4].required_row::<McpRegistrationRecord>(DatabaseError::NotFound)->Ok_0;
        registration
    }

    /// Erases the credentials of a registration that is still at the expected revision.
    pub fn mcp_cryptographically_erase_registration_at_revision<'a>(
        tenant_id: Uuid, registration_id: Uuid, owner_principal_id: Uuid,
        expected_revision: i64, log: &'a [Reply],
    ) -> (step: Step<'a, McpRegistrationRecord>)
        ensures
            step@ == StepView::proceed(
                Self::mcp_cryptographically_erase_registration_at_revision_fault(log@),
                Self::mcp_cryptographically_erase_registration_at_revision_script(
                    tenant_id, registration_id, owner_principal_id, expected_revision, log@,
                ),
                Self::mcp_cryptographically_erase_registration_at_revision_output(log@),
                log@,
            ),
    {
        if log.len() == 0 {
            return Step::Ask(Command::Begin);
        }
        if log.len() <= 1 {
            return ask_optional(
                sql::CRYPTOGRAPHICALLY_ERASE_REGISTRATION_AT_REVISION_SELECT_REGISTRATIONS,
                vec![
                    Param::Id(tenant_id), Param::Id(registration_id),
                    Param::Id(owner_principal_id), Param::I64(expected_revision),
                ],
            );
        }
        let generation: i64 = match required::<i64>(&log[1], DatabaseError::Conflict) {
            Ok(value) => value,
            Err(fault) => return stop(fault),
        };
        if log.len() <= 2 {
            return ask_execute(
                sql::REPLACE_REGISTRATION_SECRET_DELETE_OAUTH_ATTEMPTS,
                vec![
                    Param::Id(tenant_id), Param::Id(registration_id),
                    Param::Id(owner_principal_id),
                ],
            );
        }
        if log.len() <= 3 {
            return ask_execute(
                sql::REPLACE_REGISTRATION_SECRET_DELETE_SECRET_ENVELOPES,
                vec![
                    Param::Id(tenant_id), Param::Id(registration_id),
                    Param::Id(owner_principal_id),
                ],
            );
        }
        if log.len() <= 4 {
            return ask_optional(
                sql::CRYPTOGRAPHICALLY_ERASE_REGISTRATION_AT_REVISION_UPDATE_REGISTRATIONS,
                vec![
                    Param::Id(tenant_id), Param::Id(registration_id),
                    Param::Id(owner_principal_id), Param::I64(expected_revision),
                ],
            );
        }
        let registration: McpRegistrationRecord = match required(&log[4], DatabaseError::NotFound) {
            Ok(value) => value,
            Err(fault) => return stop(fault),
        };
        if log.len() <= 5 {
            return Step::Ask(Command::Commit);
        }
        Step::Done(registration)
    }

    /// `mcp_cryptographically_erase_registration_at_revision` runs in one transaction: it is done
    /// once its commit is acknowledged, and when it fails, nothing was committed.
    pub proof fn mcp_cryptographically_erase_registration_at_revision_is_atomic(
        tenant_id: Uuid, registration_id: Uuid, owner_principal_id: Uuid,
        expected_revision: i64, log: Seq<Reply>,
    )
        ensures
            crate::step::is_atomic(
                Self::mcp_cryptographically_erase_registration_at_revision_script(
                    tenant_id, registration_id, owner_principal_id, expected_revision, log,
                ),
                0,
            ),
            crate::step::commit_acknowledged(
                Self::mcp_cryptographically_erase_registration_at_revision_fault(log.drop_last()),
                Self::mcp_cryptographically_erase_registration_at_revision_script(
                    tenant_id, registration_id, owner_principal_id, expected_revision,
                    log.drop_last(),
                ),
                log,
            ) ==> {
                &&& Self::mcp_cryptographically_erase_registration_at_revision_fault(log) is None
                &&& log.len() == Self::mcp_cryptographically_erase_registration_at_revision_script(
                    tenant_id, registration_id, owner_principal_id, expected_revision, log,
                ).len()
            },
    {
    }

    /// Every statement of `mcp_cryptographically_erase_registration_at_revision` is about its
    /// tenant.
    pub proof fn mcp_cryptographically_erase_registration_at_revision_is_scoped(
        tenant_id: Uuid, registration_id: Uuid, owner_principal_id: Uuid, expected_revision: i64,
        log: Seq<Reply>,
    )
        ensures
            crate::step::is_scoped(
                Self::mcp_cryptographically_erase_registration_at_revision_script(
                    tenant_id, registration_id, owner_principal_id, expected_revision, log,
                ),
                tenant_id,
            ),
    {
    }

}

} // verus!
