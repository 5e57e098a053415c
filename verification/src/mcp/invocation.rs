//! Approvals, OAuth attempts, invocations and rate limits.

use std::sync::Arc;

use vstd::prelude::*;

use crate::database::Database;
use crate::error::DatabaseError;
use crate::error::Fault;
use crate::id::Uuid;
use crate::row::FromRow;
use crate::row::Reply;
use crate::row::Row;
use crate::row::exactly_one;
use crate::row::many;
use crate::row::required;
use crate::row::single;
use crate::sql::mcp as sql;
use crate::step::Command;
use crate::step::CommandView;
use crate::step::Param;
use crate::step::Step;
use crate::step::StepView;
use crate::step::ask_all;
use crate::step::ask_execute;
use crate::step::ask_one;
use crate::step::ask_optional;
use crate::step::stop;
use crate::step::stop_list;
use crate::text::text_eq;

verus! {

#[derive(Debug)]
pub struct NewMcpApprovalRule<'a> {
    pub tenant_id: Uuid,
    pub id: Uuid,
    pub registration_id: Uuid,
    pub principal_id: Uuid,
    pub intent_id: Uuid,
    pub session_id: Option<Uuid>,
    pub application_id: &'a str,
    pub primitive: &'a str,
    pub capability_name: &'a str,
    pub capability_fingerprint: &'a [u8; 32],
    pub argument_digest: &'a [u8; 32],
    pub attachment_digest: &'a [u8; 32],
    pub single_use: bool,
    pub lifetime_seconds: i64,
}

/// Whether a primitive is one that can be invoked.
pub open spec fn is_primitive(primitive: Seq<char>) -> bool {
    primitive == "resource_read"@ || primitive == "prompt_get"@ || primitive == "tool_call"@
}

/// Whether a primitive is one that can be invoked.
pub fn known_primitive(primitive: &str) -> (r: bool)
    ensures
        r == is_primitive(primitive@),
{
    text_eq(primitive, "resource_read") || text_eq(primitive, "prompt_get") || text_eq(
        primitive,
        "tool_call",
    )
}

impl<'a> NewMcpApprovalRule<'a> {
    /// Whether the rule can be stored: it lasts at most an hour and is for a known primitive.
    pub open spec fn is_valid(&self) -> bool {
        1 <= self.lifetime_seconds <= 3_600 && is_primitive(self.primitive@)
    }

    /// Whether the rule can be stored.
    pub fn valid(&self) -> (r: bool)
        ensures
            r == self.is_valid(),
    {
        1 <= self.lifetime_seconds && self.lifetime_seconds <= 3_600 && known_primitive(
            self.primitive,
        )
    }
}

#[derive(Debug)]
pub struct NewMcpOAuthAttempt<'a> {
    pub tenant_id: Uuid,
    pub id: Uuid,
    pub registration_id: Uuid,
    pub owner_principal_id: Uuid,
    pub credential_generation: i64,
    pub session_id: Uuid,
    pub state_digest: &'a [u8],
    pub issuer: &'a str,
    pub redirect_path: &'a str,
    pub ciphertext: &'a [u8],
    pub nonce: &'a [u8; 12],
    pub wrapped_dek: &'a [u8],
    pub wrap_nonce: &'a [u8; 12],
    pub kek_generation: i32,
}

impl<'a> NewMcpOAuthAttempt<'a> {
    /// Whether the attempt can be stored.
    pub open spec fn is_valid(&self) -> bool {
        &&& self.state_digest@.len() == 32
        &&& self.ciphertext@.len() > 0
        &&& self.wrapped_dek@.len() > 0
        &&& self.kek_generation > 0
    }

    /// Whether the attempt can be stored.
    pub fn valid(&self) -> (r: bool)
        ensures
            r == self.is_valid(),
    {
        self.state_digest.len() == 32 && self.ciphertext.len() > 0 && self.wrapped_dek.len() > 0
            && self.kek_generation > 0
    }
}

/// The secret of an OAuth attempt that has been used up.
#[derive(Debug)]
pub struct McpOAuthAttemptSecret {
    pub registration_id: Uuid,
    pub owner_principal_id: Uuid,
    pub issuer: String,
    pub redirect_path: String,
    pub ciphertext: Arc<Vec<u8>>,
    pub nonce: Arc<Vec<u8>>,
    pub wrapped_dek: Arc<Vec<u8>>,
    pub wrap_nonce: Arc<Vec<u8>>,
    pub kek_generation: i32,
}

/// An OAuth attempt that has just been used up.
#[derive(Debug)]
pub struct ConsumedAttempt {
    pub id: Uuid,
    pub registration_id: Uuid,
    pub owner_principal_id: Uuid,
    pub issuer: String,
    pub redirect_path: String,
}

impl ConsumedAttempt {
    /// What a row holds, read by its column names.
    #[verifier::opaque]
    pub open spec fn of_row(row: Row) -> Result<ConsumedAttempt, Fault> {
        if row.column::<Uuid>("id"@) is Some
            && row.column::<Uuid>("registration_id"@) is Some
            && row.column::<Uuid>("owner_principal_id"@) is Some
            && row.column::<String>("issuer"@) is Some
            && row.column::<String>("redirect_path"@) is Some {
            Ok(
                ConsumedAttempt {
                    id: row.column::<Uuid>("id"@)->0,
                    registration_id: row.column::<Uuid>("registration_id"@)->0,
                    owner_principal_id: row.column::<Uuid>("owner_principal_id"@)->0,
                    issuer: row.column::<String>("issuer"@)->0,
                    redirect_path: row.column::<String>("redirect_path"@)->0,
                },
            )
        } else {
            Err(Fault::Malformed)
        }
    }
}

impl FromRow for ConsumedAttempt {
    open spec fn row_spec(row: Row) -> Result<ConsumedAttempt, Fault> {
        ConsumedAttempt::of_row(row)
    }

    fn from_row(row: &Row) -> (r: Result<ConsumedAttempt, Fault>) {
        proof {
            reveal(ConsumedAttempt::of_row);
        }
        let id: Uuid = match row.get("id") {
            Some(v) => v,
            None => return Err(Fault::Malformed),
        };
        let registration_id: Uuid = match row.get("registration_id") {
            Some(v) => v,
            None => return Err(Fault::Malformed),
        };
        let owner_principal_id: Uuid = match row.get("owner_principal_id") {
            Some(v) => v,
            None => return Err(Fault::Malformed),
        };
        let issuer: String = match row.get("issuer") {
            Some(v) => v,
            None => return Err(Fault::Malformed),
        };
        let redirect_path: String = match row.get("redirect_path") {
            Some(v) => v,
            None => return Err(Fault::Malformed),
        };
        Ok(ConsumedAttempt { 
            id, registration_id, owner_principal_id, issuer, redirect_path,
         })
    }
}

/// The encrypted part of an OAuth attempt.
#[derive(Debug)]
pub struct AttemptSecret {
    pub ciphertext: Arc<Vec<u8>>,
    pub nonce: Arc<Vec<u8>>,
    pub wrapped_dek: Arc<Vec<u8>>,
    pub wrap_nonce: Arc<Vec<u8>>,
    pub kek_generation: i32,
}

impl AttemptSecret {
    /// What a row holds, read by its column names.
    #[verifier::opaque]
    pub open spec fn of_row(row: Row) -> Result<AttemptSecret, Fault> {
        if row.column::<Arc<Vec<u8>>>("ciphertext"@) is Some
            && row.column::<Arc<Vec<u8>>>("nonce"@) is Some
            && row.column::<Arc<Vec<u8>>>("wrapped_dek"@) is Some
            && row.column::<Arc<Vec<u8>>>("wrap_nonce"@) is Some
            && row.column::<i32>("kek_generation"@) is Some {
            Ok(
                AttemptSecret {
                    ciphertext: row.column::<Arc<Vec<u8>>>("ciphertext"@)->0,
                    nonce: row.column::<Arc<Vec<u8>>>("nonce"@)->0,
                    wrapped_dek: row.column::<Arc<Vec<u8>>>("wrapped_dek"@)->0,
                    wrap_nonce: row.column::<Arc<Vec<u8>>>("wrap_nonce"@)->0,
                    kek_generation: row.column::<i32>("kek_generation"@)->0,
                },
            )
        } else {
            Err(Fault::Malformed)
        }
    }
}

impl FromRow for AttemptSecret {
    open spec fn row_spec(row: Row) -> Result<AttemptSecret, Fault> {
        AttemptSecret::of_row(row)
    }

    fn from_row(row: &Row) -> (r: Result<AttemptSecret, Fault>) {
        proof {
            reveal(AttemptSecret::of_row);
        }
        let ciphertext: Arc<Vec<u8>> = match row.get("ciphertext") {
            Some(v) => v,
            None => return Err(Fault::Malformed),
        };
        let nonce: Arc<Vec<u8>> = match row.get("nonce") {
            Some(v) => v,
            None => return Err(Fault::Malformed),
        };
        let wrapped_dek: Arc<Vec<u8>> = match row.get("wrapped_dek") {
            Some(v) => v,
            None => return Err(Fault::Malformed),
        };
        let wrap_nonce: Arc<Vec<u8>> = match row.get("wrap_nonce") {
            Some(v) => v,
            None => return Err(Fault::Malformed),
        };
        let kek_generation: i32 = match row.get("kek_generation") {
            Some(v) => v,
            None => return Err(Fault::Malformed),
        };
        Ok(AttemptSecret { ciphertext, nonce, wrapped_dek, wrap_nonce, kek_generation })
    }
}

/// What an approval of an intended invocation is about.
#[derive(Debug)]
pub struct McpInvocationIntentApprovalContext {
    pub registration_id: Uuid,
    pub application_id: String,
    pub primitive: String,
    pub capability_fingerprint: Arc<Vec<u8>>,
    pub argument_digest: Arc<Vec<u8>>,
    pub attachment_digest: Arc<Vec<u8>>,
}

impl McpInvocationIntentApprovalContext {
    /// What a row holds, read by its column names.
    #[verifier::opaque]
    pub open spec fn of_row(row: Row) -> Result<McpInvocationIntentApprovalContext, Fault> {
        if row.column::<Uuid>("registration_id"@) is Some
            && row.column::<String>("application_id"@) is Some
            && row.column::<String>("primitive"@) is Some
            && row.column::<Arc<Vec<u8>>>("capability_fingerprint"@) is Some
            && row.column::<Arc<Vec<u8>>>("argument_digest"@) is Some
            && row.column::<Arc<Vec<u8>>>("attachment_digest"@) is Some {
            Ok(
                McpInvocationIntentApprovalContext {
                    registration_id: row.column::<Uuid>("registration_id"@)->0,
                    application_id: row.column::<String>("application_id"@)->0,
                    primitive: row.column::<String>("primitive"@)->0,
                    capability_fingerprint: row.column::<Arc<Vec<u8>>>(
                        "capability_fingerprint"@,
                    )->0,
                    argument_digest: row.column::<Arc<Vec<u8>>>("argument_digest"@)->0,
                    attachment_digest: row.column::<Arc<Vec<u8>>>("attachment_digest"@)->0,
                },
            )
        } else {
            Err(Fault::Malformed)
        }
    }
}

impl FromRow for McpInvocationIntentApprovalContext {
    open spec fn row_spec(row: Row) -> Result<McpInvocationIntentApprovalContext, Fault> {
        McpInvocationIntentApprovalContext::of_row(row)
    }

    fn from_row(row: &Row) -> (r: Result<McpInvocationIntentApprovalContext, Fault>) {
        proof {
            reveal(McpInvocationIntentApprovalContext::of_row);
        }
        let registration_id: Uuid = match row.get("registration_id") {
            Some(v) => v,
            None => return Err(Fault::Malformed),
        };
        let application_id: String = match row.get("application_id") {
            Some(v) => v,
            None => return Err(Fault::Malformed),
        };
        let primitive: String = match row.get("primitive") {
            Some(v) => v,
            None => return Err(Fault::Malformed),
        };
        let capability_fingerprint: Arc<Vec<u8>> = match row.get("capability_fingerprint") {
            Some(v) => v,
            None => return Err(Fault::Malformed),
        };
        let argument_digest: Arc<Vec<u8>> = match row.get("argument_digest") {
            Some(v) => v,
            None => return Err(Fault::Malformed),
        };
        let attachment_digest: Arc<Vec<u8>> = match row.get("attachment_digest") {
            Some(v) => v,
            None => return Err(Fault::Malformed),
        };
        Ok(McpInvocationIntentApprovalContext { 
            registration_id, application_id, primitive, capability_fingerprint, argument_digest,
            attachment_digest,
         })
    }
}

#[derive(Debug)]
pub struct NewMcpInvocation<'a> {
    pub tenant_id: Uuid,
    pub id: Uuid,
    pub registration_id: Uuid,
    pub principal_id: Uuid,
    pub application_id: &'a str,
    pub primitive: &'a str,
    pub capability_fingerprint: &'a [u8; 32],
    pub approval_id: Option<Uuid>,
    pub registration_generation: i64,
    pub authority_generation: i64,
    pub admin_block_generation: i64,
    pub request_bytes: i64,
    /// Provenance evidence for a Markdown semantic proposal. These are only
    /// normalized-source digests and immutable identifiers, never Markdown.
    pub semantic_node_id: Option<Uuid>,
    pub semantic_base_version_id: Option<Uuid>,
    pub semantic_input_digest: Option<&'a [u8; 32]>,
}

impl<'a> NewMcpInvocation<'a> {
    /// Whether the invocation can be stored: its size is no negative number, its primitive is a
    /// known one, and its provenance is given in full or not at all.
    pub open spec fn is_valid(&self) -> bool {
        &&& self.request_bytes >= 0
        &&& is_primitive(self.primitive@)
        &&& self.semantic_node_id is Some <==> self.semantic_base_version_id is Some
        &&& self.semantic_node_id is Some <==> self.semantic_input_digest is Some
    }

    /// Whether the invocation can be stored.
    pub fn valid(&self) -> (r: bool)
        ensures
            r == self.is_valid(),
    {
        self.request_bytes >= 0 && known_primitive(self.primitive)
            && self.semantic_node_id.is_some() == self.semantic_base_version_id.is_some()
            && self.semantic_node_id.is_some() == self.semantic_input_digest.is_some()
    }
}

/// What may be told of an invocation: who, what, how much and how it ended, never what was said.
#[derive(Debug)]
pub struct McpActivityRecord {
    pub id: Uuid,
    pub registration_id: Uuid,
    pub principal_id: Uuid,
    pub application_id: String,
    pub primitive: String,
    pub capability_fingerprint: Arc<Vec<u8>>,
    pub attachment_version_ids: Arc<Vec<Uuid>>,
    pub approval_id: Option<Uuid>,
    pub state: String,
    pub request_bytes: i64,
    pub response_bytes: i64,
    pub reason_code: Option<String>,
    pub created_at: String,
    pub finished_at: Option<String>,
    pub duration_ms: i64,
}

impl McpActivityRecord {
    /// What a row holds, read by its column names.
    #[verifier::opaque]
    pub open spec fn of_row(row: Row) -> Result<McpActivityRecord, Fault> {
        if row.column::<Uuid>("id"@) is Some
            && row.column::<Uuid>("registration_id"@) is Some
            && row.column::<Uuid>("principal_id"@) is Some
            && row.column::<String>("application_id"@) is Some
            && row.column::<String>("primitive"@) is Some
            && row.column::<Arc<Vec<u8>>>("capability_fingerprint"@) is Some
            && row.column::<Arc<Vec<Uuid>>>("attachment_version_ids"@) is Some
            && row.column::<Option<Uuid>>("approval_id"@) is Some
            && row.column::<String>("state"@) is Some
            && row.column::<i64>("request_bytes"@) is Some
            && row.column::<i64>("response_bytes"@) is Some
            && row.column::<Option<String>>("reason_code"@) is Some
            && row.column::<String>("created_at"@) is Some
            && row.column::<Option<String>>("finished_at"@) is Some
            && row.column::<i64>("duration_ms"@) is Some {
            Ok(
                McpActivityRecord {
                    id: row.column::<Uuid>("id"@)->0,
                    registration_id: row.column::<Uuid>("registration_id"@)->0,
                    principal_id: row.column::<Uuid>("principal_id"@)->0,
                    application_id: row.column::<String>("application_id"@)->0,
                    primitive: row.column::<String>("primitive"@)->0,
                    capability_fingerprint: row.column::<Arc<Vec<u8>>>(
                        "capability_fingerprint"@,
                    )->0,
                    attachment_version_ids: row.column::<Arc<Vec<Uuid>>>(
                        "attachment_version_ids"@,
                    )->0,
                    approval_id: row.column::<Option<Uuid>>("approval_id"@)->0,
                    state: row.column::<String>("state"@)->0,
                    request_bytes: row.column::<i64>("request_bytes"@)->0,
                    response_bytes: row.column::<i64>("response_bytes"@)->0,
                    reason_code: row.column::<Option<String>>("reason_code"@)->0,
                    created_at: row.column::<String>("created_at"@)->0,
                    finished_at: row.column::<Option<String>>("finished_at"@)->0,
                    duration_ms: row.column::<i64>("duration_ms"@)->0,
                },
            )
        } else {
            Err(Fault::Malformed)
        }
    }
}

impl FromRow for McpActivityRecord {
    open spec fn row_spec(row: Row) -> Result<McpActivityRecord, Fault> {
        McpActivityRecord::of_row(row)
    }

    fn from_row(row: &Row) -> (r: Result<McpActivityRecord, Fault>) {
        proof {
            reveal(McpActivityRecord::of_row);
        }
        let id: Uuid = match row.get("id") {
            Some(v) => v,
            None => return Err(Fault::Malformed),
        };
        let registration_id: Uuid = match row.get("registration_id") {
            Some(v) => v,
            None => return Err(Fault::Malformed),
        };
        let principal_id: Uuid = match row.get("principal_id") {
            Some(v) => v,
            None => return Err(Fault::Malformed),
        };
        let application_id: String = match row.get("application_id") {
            Some(v) => v,
            None => return Err(Fault::Malformed),
        };
        let primitive: String = match row.get("primitive") {
            Some(v) => v,
            None => return Err(Fault::Malformed),
        };
        let capability_fingerprint: Arc<Vec<u8>> = match row.get("capability_fingerprint") {
            Some(v) => v,
            None => return Err(Fault::Malformed),
        };
        let attachment_version_ids: Arc<Vec<Uuid>> = match row.get("attachment_version_ids") {
            Some(v) => v,
            None => return Err(Fault::Malformed),
        };
        let approval_id: Option<Uuid> = match row.get("approval_id") {
            Some(v) => v,
            None => return Err(Fault::Malformed),
        };
        let state: String = match row.get("state") {
            Some(v) => v,
            None => return Err(Fault::Malformed),
        };
        let request_bytes: i64 = match row.get("request_bytes") {
            Some(v) => v,
            None => return Err(Fault::Malformed),
        };
        let response_bytes: i64 = match row.get("response_bytes") {
            Some(v) => v,
            None => return Err(Fault::Malformed),
        };
        let reason_code: Option<String> = match row.get("reason_code") {
            Some(v) => v,
            None => return Err(Fault::Malformed),
        };
        let created_at: String = match row.get("created_at") {
            Some(v) => v,
            None => return Err(Fault::Malformed),
        };
        let finished_at: Option<String> = match row.get("finished_at") {
            Some(v) => v,
            None => return Err(Fault::Malformed),
        };
        let duration_ms: i64 = match row.get("duration_ms") {
            Some(v) => v,
            None => return Err(Fault::Malformed),
        };
        Ok(McpActivityRecord {
            id, registration_id, principal_id, application_id, primitive,
            capability_fingerprint, attachment_version_ids, approval_id, state, request_bytes,
            response_bytes, reason_code, created_at, finished_at, duration_ms,
        })
    }
}

/// What has been used of a rate limit, and whether that is still within it.
#[derive(Clone, Copy, Debug, PartialEq, Eq, Structural)]
pub struct McpRateDecision {
    pub allowed: bool,
    pub used: i64,
    pub limit: i64,
}

/// The generations whose change ends a running invocation.
#[derive(Clone, Copy, Debug, PartialEq, Eq, Structural)]
pub struct McpRevocationGenerations {
    pub principal: i64,
    pub registration: i64,
    pub credential: i64,
    pub admin_block: i64,
}

impl McpRevocationGenerations {
    /// What a row holds, read by its column names.
    #[verifier::opaque]
    pub open spec fn of_row(row: Row) -> Result<McpRevocationGenerations, Fault> {
        if row.column::<i64>("principal"@) is Some
            && row.column::<i64>("registration"@) is Some
            && row.column::<i64>("credential"@) is Some
            && row.column::<i64>("admin_block_generation"@) is Some {
            Ok(
                McpRevocationGenerations {
                    principal: row.column::<i64>("principal"@)->0,
                    registration: row.column::<i64>("registration"@)->0,
                    credential: row.column::<i64>("credential"@)->0,
                    admin_block: row.column::<i64>("admin_block_generation"@)->0,
                },
            )
        } else {
            Err(Fault::Malformed)
        }
    }
}

impl FromRow for McpRevocationGenerations {
    open spec fn row_spec(row: Row) -> Result<McpRevocationGenerations, Fault> {
        McpRevocationGenerations::of_row(row)
    }

    fn from_row(row: &Row) -> (r: Result<McpRevocationGenerations, Fault>) {
        proof {
            reveal(McpRevocationGenerations::of_row);
        }
        let principal: i64 = match row.get("principal") {
            Some(v) => v,
            None => return Err(Fault::Malformed),
        };
        let registration: i64 = match row.get("registration") {
            Some(v) => v,
            None => return Err(Fault::Malformed),
        };
        let credential: i64 = match row.get("credential") {
            Some(v) => v,
            None => return Err(Fault::Malformed),
        };
        let admin_block: i64 = match row.get("admin_block_generation") {
            Some(v) => v,
            None => return Err(Fault::Malformed),
        };
        Ok(McpRevocationGenerations { principal, registration, credential, admin_block })
    }
}

/// Whether an invocation can end like this: in a final state, with a size that is no negative
/// number, and with an output digest only where it succeeded.
pub open spec fn finish_is_valid_spec(
    state: Seq<char>,
    response_bytes: i64,
    has_output_digest: bool,
) -> bool {
    &&& response_bytes >= 0
    &&& state == "succeeded"@ || state == "denied"@ || state == "failed"@ || state == "cancelled"@
        || state == "interrupted"@
    &&& has_output_digest ==> state == "succeeded"@
}

/// Whether an invocation can end like this.
pub fn finish_is_valid(state: &str, response_bytes: i64, has_output_digest: bool) -> (r: bool)
    ensures
        r == finish_is_valid_spec(state@, response_bytes, has_output_digest),
{
    let succeeded: bool = text_eq(state, "succeeded");
    let over: bool = succeeded || text_eq(state, "denied") || text_eq(state, "failed") || text_eq(
        state,
        "cancelled",
    ) || text_eq(state, "interrupted");
    response_bytes >= 0 && over && (!has_output_digest || succeeded)
}

impl Database {

    /// What stops `mcp_create_approval_rule`, in order.
    pub open spec fn mcp_create_approval_rule_fault<'a>(
        input: &'a NewMcpApprovalRule<'a>,
        log: Seq<Reply>,
    ) -> Option<Fault> {
        if !input.is_valid() {
            Some(Fault::Error(DatabaseError::InvalidPersistedValue))
        } else if log.len() > 1 && log[1].one_affected(DatabaseError::NotFound) is Err {
            Fault::of(log[1].one_affected(DatabaseError::NotFound))
        } else {
            None
        }
    }

    /// The commands of `mcp_create_approval_rule`, in order.
    pub open spec fn mcp_create_approval_rule_script<'a>(
        input: &'a NewMcpApprovalRule<'a>,
        log: Seq<Reply>,
    ) -> Seq<CommandView<'a>> {
        seq![
            CommandView::Begin,
            CommandView::execute(
                sql::INSERT_APPROVAL_RULE,
                seq![
                    Param::Id(input.tenant_id), Param::Id(input.id),
                    Param::Id(input.registration_id), Param::Id(input.principal_id),
                    Param::Id(input.intent_id), Param::OptId(input.session_id),
                    Param::Text(input.application_id), Param::Text(input.primitive),
                    Param::Text(input.capability_name),
                    Param::Digest(input.capability_fingerprint),
                    Param::Digest(input.argument_digest),
                    Param::Digest(input.attachment_digest), Param::Bool(input.single_use),
                    Param::I64(input.lifetime_seconds),
                ],
            ),
            CommandView::Commit,
        ]
    }

    /// Approves an intended invocation.
    pub fn mcp_create_approval_rule<'a>(
        input: &'a NewMcpApprovalRule<'a>,
        log: &'a [Reply],
    ) -> (step: Step<'a, ()>)
        ensures
            step@ == StepView::proceed(
                Self::mcp_create_approval_rule_fault(input, log@),
                Self::mcp_create_approval_rule_script(input, log@),
                (),
                log@,
            ),
    {
        if !input.valid() {
            return Step::Fail(DatabaseError::InvalidPersistedValue);
        }
        if log.len() == 0 {
            return Step::Ask(Command::Begin);
        }
        if log.len() <= 1 {
            return ask_execute(
                sql::INSERT_APPROVAL_RULE,
                vec![
                    Param::Id(input.tenant_id), Param::Id(input.id),
                    Param::Id(input.registration_id), Param::Id(input.principal_id),
                    Param::Id(input.intent_id), Param::OptId(input.session_id),
                    Param::Text(input.application_id), Param::Text(input.primitive),
                    Param::Text(input.capability_name),
                    Param::Digest(input.capability_fingerprint),
                    Param::Digest(input.argument_digest),
                    Param::Digest(input.attachment_digest), Param::Bool(input.single_use),
                    Param::I64(input.lifetime_seconds),
                ],
            );
        }
        if let Err(fault) = exactly_one(&log[1], DatabaseError::NotFound) {
            return stop(fault);
        }
        if log.len() <= 2 {
            return Step::Ask(Command::Commit);
        }
        Step::Done(())
    }

    /// `mcp_create_approval_rule` runs in one transaction: it is done once its commit is
    /// acknowledged, and when it fails, nothing was committed.
    pub proof fn mcp_create_approval_rule_is_atomic<'a>(
        input: &'a NewMcpApprovalRule<'a>,
        log: Seq<Reply>,
    )
        ensures
            crate::step::is_atomic(Self::mcp_create_approval_rule_script(input, log), 0),
            crate::step::commit_acknowledged(
                Self::mcp_create_approval_rule_fault(input, log.drop_last()),
                Self::mcp_create_approval_rule_script(input, log.drop_last()),
                log,
            ) ==> {
                &&& Self::mcp_create_approval_rule_fault(input, log) is None
                &&& log.len() == Self::mcp_create_approval_rule_script(input, log).len()
            },
    {
    }

    /// Every statement of `mcp_create_approval_rule` is about its tenant.
    pub proof fn mcp_create_approval_rule_is_scoped<'a>(
        input: &'a NewMcpApprovalRule<'a>,
        log: Seq<Reply>,
    )
        ensures
            crate::step::is_scoped(
                Self::mcp_create_approval_rule_script(input, log),
                input.tenant_id,
            ),
    {
    }

    /// What stops `mcp_begin_oauth_attempt`, in order.
    pub open spec fn mcp_begin_oauth_attempt_fault<'a>(
        input: &'a NewMcpOAuthAttempt<'a>,
        log: Seq<Reply>,
    ) -> Option<Fault> {
        if !input.is_valid() {
            Some(Fault::Error(DatabaseError::InvalidPersistedValue))
        } else if log.len() > 1 && log[1].required_row::<i64>(DatabaseError::NotFound) is Err {
            Fault::of(log[1].required_row::<i64>(DatabaseError::NotFound))
        } else {
            None
        }
    }

    /// The commands of `mcp_begin_oauth_attempt`, in order.
    pub open spec fn mcp_begin_oauth_attempt_script<'a>(
        input: &'a NewMcpOAuthAttempt<'a>,
        log: Seq<Reply>,
    ) -> Seq<CommandView<'a>> {
        seq![
            CommandView::Begin,
            CommandView::optional(
                sql::BEGIN_OAUTH_ATTEMPT_SELECT_REGISTRATIONS,
                seq![
                    Param::Id(input.tenant_id), Param::Id(input.registration_id),
                    Param::Id(input.owner_principal_id),
                    Param::I64(input.credential_generation),
                ],
            ),
            CommandView::execute(
                sql::BEGIN_OAUTH_ATTEMPT_INSERT_OAUTH_ATTEMPTS_2,
                seq![
                    Param::Id(input.tenant_id), Param::Id(input.id),
                    Param::Id(input.registration_id), Param::Id(input.owner_principal_id),
                    Param::Id(input.session_id), Param::Bytes(input.state_digest),
                    Param::I64(input.credential_generation), Param::Text(input.issuer),
                    Param::Text(input.redirect_path),
                ],
            ),
            CommandView::execute(
                sql::BEGIN_OAUTH_ATTEMPT_INSERT_OAUTH_ATTEMPT_SECRETS,
                seq![
                    Param::Id(input.tenant_id), Param::Id(input.id),
                    Param::Id(input.registration_id), Param::Id(input.owner_principal_id),
                    Param::Bytes(input.ciphertext), Param::Nonce(input.nonce),
                    Param::Bytes(input.wrapped_dek), Param::Nonce(input.wrap_nonce),
                    Param::I32(input.kek_generation),
                ],
            ),
            CommandView::Commit,
        ]
    }

    /// Opens an OAuth attempt for a registration whose credentials have not moved on.
    pub fn mcp_begin_oauth_attempt<'a>(
        input: &'a NewMcpOAuthAttempt<'a>,
        log: &'a [Reply],
    ) -> (step: Step<'a, ()>)
        ensures
            step@ == StepView::proceed(
                Self::mcp_begin_oauth_attempt_fault(input, log@),
                Self::mcp_begin_oauth_attempt_script(input, log@),
                (),
                log@,
            ),
    {
        if !input.valid() {
            return Step::Fail(DatabaseError::InvalidPersistedValue);
        }
        if log.len() == 0 {
            return Step::Ask(Command::Begin);
        }
        if log.len() <= 1 {
            return ask_optional(
                sql::BEGIN_OAUTH_ATTEMPT_SELECT_REGISTRATIONS,
                vec![
                    Param::Id(input.tenant_id), Param::Id(input.registration_id),
                    Param::Id(input.owner_principal_id),
                    Param::I64(input.credential_generation),
                ],
            );
        }
        let generation: i64 = match required::<i64>(&log[1], DatabaseError::NotFound) {
            Ok(value) => value,
            Err(fault) => return stop(fault),
        };
        if log.len() <= 2 {
            return ask_execute(
                sql::BEGIN_OAUTH_ATTEMPT_INSERT_OAUTH_ATTEMPTS_2,
                vec![
                    Param::Id(input.tenant_id), Param::Id(input.id),
                    Param::Id(input.registration_id), Param::Id(input.owner_principal_id),
                    Param::Id(input.session_id), Param::Bytes(input.state_digest),
                    Param::I64(input.credential_generation), Param::Text(input.issuer),
                    Param::Text(input.redirect_path),
                ],
            );
        }
        if log.len() <= 3 {
            return ask_execute(
                sql::BEGIN_OAUTH_ATTEMPT_INSERT_OAUTH_ATTEMPT_SECRETS,
                vec![
                    Param::Id(input.tenant_id), Param::Id(input.id),
                    Param::Id(input.registration_id), Param::Id(input.owner_principal_id),
                    Param::Bytes(input.ciphertext), Param::Nonce(input.nonce),
                    Param::Bytes(input.wrapped_dek), Param::Nonce(input.wrap_nonce),
                    Param::I32(input.kek_generation),
                ],
            );
        }
        if log.len() <= 4 {
            return Step::Ask(Command::Commit);
        }
        Step::Done(())
    }

    /// `mcp_begin_oauth_attempt` runs in one transaction: it is done once its commit is
    /// acknowledged, and when it fails, nothing was committed.
    pub proof fn mcp_begin_oauth_attempt_is_atomic<'a>(
        input: &'a NewMcpOAuthAttempt<'a>,
        log: Seq<Reply>,
    )
        ensures
            crate::step::is_atomic(Self::mcp_begin_oauth_attempt_script(input, log), 0),
            crate::step::commit_acknowledged(
                Self::mcp_begin_oauth_attempt_fault(input, log.drop_last()),
                Self::mcp_begin_oauth_attempt_script(input, log.drop_last()),
                log,
            ) ==> {
                &&& Self::mcp_begin_oauth_attempt_fault(input, log) is None
                &&& log.len() == Self::mcp_begin_oauth_attempt_script(input, log).len()
            },
    {
    }

    /// Every statement of `mcp_begin_oauth_attempt` is about its tenant.
    pub proof fn mcp_begin_oauth_attempt_is_scoped<'a>(
        input: &'a NewMcpOAuthAttempt<'a>,
        log: Seq<Reply>,
    )
        ensures
            crate::step::is_scoped(
                Self::mcp_begin_oauth_attempt_script(input, log),
                input.tenant_id,
            ),
    {
    }

    /// What stops `mcp_consume_oauth_attempt`, in order.
    pub open spec fn mcp_consume_oauth_attempt_fault(log: Seq<Reply>) -> Option<Fault> {
        if log.len() > 1
            && log[1].required_row::<ConsumedAttempt>(DatabaseError::NotFound) is Err {
            Fault::of(log[1].required_row::<ConsumedAttempt>(DatabaseError::NotFound))
        } else if log.len() > 2 && log[2].single_row::<AttemptSecret>() is Err {
            Fault::of(log[2].single_row::<AttemptSecret>())
        } else {
            None
        }
    }

    /// The commands of `mcp_consume_oauth_attempt`, in order.
    pub open spec fn mcp_consume_oauth_attempt_script<'a>(
        tenant_id: Uuid, session_id: Uuid, state_digest: &'a [u8], log: Seq<Reply>,
    ) -> Seq<CommandView<'a>> {
        let attempt = log[1].required_row::<ConsumedAttempt>(DatabaseError::NotFound)->Ok_0;
        seq![
            CommandView::Begin,
            CommandView::optional(
                sql::CONSUME_OAUTH_ATTEMPT_UPDATE_OAUTH_ATTEMPTS,
                seq![Param::Id(tenant_id), Param::Id(session_id), Param::Bytes(state_digest)],
            ),
            CommandView::one(
                sql::CONSUME_OAUTH_ATTEMPT_SELECT_OAUTH_ATTEMPT_SECRETS,
                seq![Param::Id(tenant_id), Param::Id(attempt.id)],
            ),
            CommandView::execute(
                sql::CONSUME_OAUTH_ATTEMPT_DELETE_OAUTH_ATTEMPT_SECRETS,
                seq![Param::Id(tenant_id), Param::Id(attempt.id)],
            ),
            CommandView::Commit,
        ]
    }

    /// What `mcp_consume_oauth_attempt` returns.
    pub open spec fn mcp_consume_oauth_attempt_output(log: Seq<Reply>) -> McpOAuthAttemptSecret {
        let attempt = log[1].required_row::<ConsumedAttempt>(DatabaseError::NotFound)->Ok_0;
        let secret = log[2].single_row::<AttemptSecret>()->Ok_0;
        McpOAuthAttemptSecret {
            registration_id: attempt.registration_id,
            owner_principal_id: attempt.owner_principal_id,
            issuer: attempt.issuer,
            redirect_path: attempt.redirect_path,
            ciphertext: secret.ciphertext,
            nonce: secret.nonce,
            wrapped_dek: secret.wrapped_dek,
            wrap_nonce: secret.wrap_nonce,
            kek_generation: secret.kek_generation,
        }
    }

    /// Uses up an OAuth attempt; its secret is handed out once and deleted.
    pub fn mcp_consume_oauth_attempt<'a>(
        tenant_id: Uuid, session_id: Uuid, state_digest: &'a [u8], log: &'a [Reply],
    ) -> (step: Step<'a, McpOAuthAttemptSecret>)
        ensures
            step@ == StepView::proceed(
                Self::mcp_consume_oauth_attempt_fault(log@),
                Self::mcp_consume_oauth_attempt_script(tenant_id, session_id, state_digest, log@),
                Self::mcp_consume_oauth_attempt_output(log@),
                log@,
            ),
    {
        if log.len() == 0 {
            return Step::Ask(Command::Begin);
        }
        if log.len() <= 1 {
            return ask_optional(
                sql::CONSUME_OAUTH_ATTEMPT_UPDATE_OAUTH_ATTEMPTS,
                vec![Param::Id(tenant_id), Param::Id(session_id), Param::Bytes(state_digest)],
            );
        }
        let attempt: ConsumedAttempt = match required(&log[1], DatabaseError::NotFound) {
            Ok(value) => value,
            Err(fault) => return stop(fault),
        };
        if log.len() <= 2 {
            return ask_one(
                sql::CONSUME_OAUTH_ATTEMPT_SELECT_OAUTH_ATTEMPT_SECRETS,
                vec![Param::Id(tenant_id), Param::Id(attempt.id)],
            );
        }
        let secret: AttemptSecret = match single::<AttemptSecret>(&log[2]) {
            Ok(value) => value,
            Err(fault) => return stop(fault),
        };
        if log.len() <= 3 {
            return ask_execute(
                sql::CONSUME_OAUTH_ATTEMPT_DELETE_OAUTH_ATTEMPT_SECRETS,
                vec![Param::Id(tenant_id), Param::Id(attempt.id)],
            );
        }
        if log.len() <= 4 {
            return Step::Ask(Command::Commit);
        }
        Step::Done(
            McpOAuthAttemptSecret {
                registration_id: attempt.registration_id,
                owner_principal_id: attempt.owner_principal_id,
                issuer: attempt.issuer,
                redirect_path: attempt.redirect_path,
                ciphertext: secret.ciphertext,
                nonce: secret.nonce,
                wrapped_dek: secret.wrapped_dek,
                wrap_nonce: secret.wrap_nonce,
                kek_generation: secret.kek_generation,
            },
        )
    }

    /// `mcp_consume_oauth_attempt` runs in one transaction: it is done once its commit is
    /// acknowledged, and when it fails, nothing was committed.
    pub proof fn mcp_consume_oauth_attempt_is_atomic<'a>(
        tenant_id: Uuid, session_id: Uuid, state_digest: &'a [u8], log: Seq<Reply>,
    )
        ensures
            crate::step::is_atomic(
                Self::mcp_consume_oauth_attempt_script(tenant_id, session_id, state_digest, log),
                0,
            ),
            crate::step::commit_acknowledged(
                Self::mcp_consume_oauth_attempt_fault(log.drop_last()),
                Self::mcp_consume_oauth_attempt_script(
                    tenant_id, session_id, state_digest, log.drop_last(),
                ),
                log,
            ) ==> {
                &&& Self::mcp_consume_oauth_attempt_fault(log) is None
                &&& log.len() == Self::mcp_consume_oauth_attempt_script(
                    tenant_id, session_id, state_digest, log,
                ).len()
            },
    {
    }

    /// Every statement of `mcp_consume_oauth_attempt` is about its tenant.
    pub proof fn mcp_consume_oauth_attempt_is_scoped<'a>(
        tenant_id: Uuid, session_id: Uuid, state_digest: &'a [u8], log: Seq<Reply>,
    )
        ensures
            crate::step::is_scoped(
                Self::mcp_consume_oauth_attempt_script(tenant_id, session_id, state_digest, log),
                tenant_id,
            ),
    {
    }

    /// What stops `mcp_oauth_attempt_registration`, in order.
    pub open spec fn mcp_oauth_attempt_registration_fault(log: Seq<Reply>) -> Option<Fault> {
        if log.len() > 0 && log[0].required_row::<Uuid>(DatabaseError::NotFound) is Err {
            Fault::of(log[0].required_row::<Uuid>(DatabaseError::NotFound))
        } else {
            None
        }
    }

    /// The commands of `mcp_oauth_attempt_registration`, in order.
    pub open spec fn mcp_oauth_attempt_registration_script<'a>(
        tenant_id: Uuid, session_id: Uuid, state_digest: &'a [u8; 32], log: Seq<Reply>,
    ) -> Seq<CommandView<'a>> {
        seq![
            CommandView::optional(
                sql::OAUTH_ATTEMPT_REGISTRATION,
                seq![Param::Id(tenant_id), Param::Id(session_id), Param::Digest(state_digest)],
            ),
        ]
    }

    /// What `mcp_oauth_attempt_registration` returns.
    pub open spec fn mcp_oauth_attempt_registration_output(log: Seq<Reply>) -> Uuid {
        let registration_id = log[0].required_row::<Uuid>(DatabaseError::NotFound)->Ok_0;
        registration_id
    }

    /// The registration that an open OAuth attempt is for.
    pub fn mcp_oauth_attempt_registration<'a>(
        tenant_id: Uuid, session_id: Uuid, state_digest: &'a [u8; 32], log: &'a [Reply],
    ) -> (step: Step<'a, Uuid>)
        ensures
            step@ == StepView::proceed(
                Self::mcp_oauth_attempt_registration_fault(log@),
                Self::mcp_oauth_attempt_registration_script(
                    tenant_id, session_id, state_digest, log@,
                ),
                Self::mcp_oauth_attempt_registration_output(log@),
                log@,
            ),
    {
        if log.len() == 0 {
            return ask_optional(
                sql::OAUTH_ATTEMPT_REGISTRATION,
                vec![Param::Id(tenant_id), Param::Id(session_id), Param::Digest(state_digest)],
            );
        }
        let registration_id: Uuid = match required::<Uuid>(&log[0], DatabaseError::NotFound) {
            Ok(value) => value,
            Err(fault) => return stop(fault),
        };
        Step::Done(registration_id)
    }

    /// Every statement of `mcp_oauth_attempt_registration` is about its tenant.
    pub proof fn mcp_oauth_attempt_registration_is_scoped<'a>(
        tenant_id: Uuid, session_id: Uuid, state_digest: &'a [u8; 32], log: Seq<Reply>,
    )
        ensures
            crate::step::is_scoped(
                Self::mcp_oauth_attempt_registration_script(
                    tenant_id, session_id, state_digest, log,
                ),
                tenant_id,
            ),
    {
    }

    /// What stops `mcp_create_invocation_intent`, in order.
    pub open spec fn mcp_create_invocation_intent_fault<'a>(
        primitive: &'a str,
        log: Seq<Reply>,
    ) -> Option<Fault> {
        if !is_primitive(primitive@) {
            Some(Fault::Error(DatabaseError::InvalidPersistedValue))
        } else {
            None
        }
    }

    /// The commands of `mcp_create_invocation_intent`, in order.
    pub open spec fn mcp_create_invocation_intent_script<'a>(
        tenant_id: Uuid, id: Uuid, registration_id: Uuid, principal_id: Uuid, session_id: Uuid,
        application_id: &'a str, primitive: &'a str, capability_fingerprint: &'a [u8; 32],
        argument_digest: &'a [u8; 32], attachment_digest: &'a [u8; 32],
        request_digest: &'a [u8; 32], log: Seq<Reply>,
    ) -> Seq<CommandView<'a>> {
        seq![
            CommandView::execute(
                sql::CREATE_INVOCATION_INTENT_2,
                seq![
                    Param::Id(tenant_id), Param::Id(id), Param::Id(registration_id),
                    Param::Id(principal_id), Param::Id(session_id), Param::Text(application_id),
                    Param::Text(primitive), Param::Digest(capability_fingerprint),
                    Param::Digest(argument_digest), Param::Digest(attachment_digest),
                    Param::Digest(request_digest),
                ],
            ),
        ]
    }

    /// Records that an invocation is intended.
    pub fn mcp_create_invocation_intent<'a>(
        tenant_id: Uuid, id: Uuid, registration_id: Uuid, principal_id: Uuid, session_id: Uuid,
        application_id: &'a str, primitive: &'a str, capability_fingerprint: &'a [u8; 32],
        argument_digest: &'a [u8; 32], attachment_digest: &'a [u8; 32],
        request_digest: &'a [u8; 32], log: &'a [Reply],
    ) -> (step: Step<'a, ()>)
        ensures
            step@ == StepView::proceed(
                Self::mcp_create_invocation_intent_fault(primitive, log@),
                Self::mcp_create_invocation_intent_script(
                    tenant_id, id, registration_id, principal_id, session_id, application_id,
                    primitive, capability_fingerprint, argument_digest, attachment_digest,
                    request_digest, log@,
                ),
                (),
                log@,
            ),
    {
        if !known_primitive(primitive) {
            return Step::Fail(DatabaseError::InvalidPersistedValue);
        }
        if log.len() == 0 {
            return ask_execute(
                sql::CREATE_INVOCATION_INTENT_2,
                vec![
                    Param::Id(tenant_id), Param::Id(id), Param::Id(registration_id),
                    Param::Id(principal_id), Param::Id(session_id), Param::Text(application_id),
                    Param::Text(primitive), Param::Digest(capability_fingerprint),
                    Param::Digest(argument_digest), Param::Digest(attachment_digest),
                    Param::Digest(request_digest),
                ],
            );
        }
        Step::Done(())
    }

    /// Every statement of `mcp_create_invocation_intent` is about its tenant.
    pub proof fn mcp_create_invocation_intent_is_scoped<'a>(
        tenant_id: Uuid, id: Uuid, registration_id: Uuid, principal_id: Uuid, session_id: Uuid,
        application_id: &'a str, primitive: &'a str, capability_fingerprint: &'a [u8; 32],
        argument_digest: &'a [u8; 32], attachment_digest: &'a [u8; 32],
        request_digest: &'a [u8; 32], log: Seq<Reply>,
    )
        ensures
            crate::step::is_scoped(
                Self::mcp_create_invocation_intent_script(
                    tenant_id, id, registration_id, principal_id, session_id, application_id,
                    primitive, capability_fingerprint, argument_digest, attachment_digest,
                    request_digest, log,
                ),
                tenant_id,
            ),
    {
    }

    /// What stops `mcp_invocation_intent_for_approval`, in order.
    pub open spec fn mcp_invocation_intent_for_approval_fault(log: Seq<Reply>) -> Option<Fault> {
        if log.len() > 0
            && log[0].required_row::<McpInvocationIntentApprovalContext>(
                DatabaseError::NotFound,
            ) is Err {
                Fault::of(
                    log[0].required_row::<McpInvocationIntentApprovalContext>(
                        DatabaseError::NotFound,
                    ),
                )
            } else {
                None
            }
    }

    /// The commands of `mcp_invocation_intent_for_approval`, in order.
    pub open spec fn mcp_invocation_intent_for_approval_script<'a>(
        tenant_id: Uuid, intent_id: Uuid, principal_id: Uuid, session_id: Uuid, log: Seq<Reply>,
    ) -> Seq<CommandView<'a>> {
        seq![
            CommandView::optional(
                sql::INVOCATION_INTENT_FOR_APPROVAL,
                seq![
                    Param::Id(tenant_id), Param::Id(intent_id), Param::Id(principal_id),
                    Param::Id(session_id),
                ],
            ),
        ]
    }

    /// What `mcp_invocation_intent_for_approval` returns.
    pub open spec fn mcp_invocation_intent_for_approval_output(
        log: Seq<Reply>,
    ) -> McpInvocationIntentApprovalContext {
        let intent = log[0].required_row::<McpInvocationIntentApprovalContext>(
            DatabaseError::NotFound,
        )->Ok_0;
        intent
    }

    /// What an approval of an open intent is about.
    pub fn mcp_invocation_intent_for_approval<'a>(
        tenant_id: Uuid, intent_id: Uuid, principal_id: Uuid, session_id: Uuid,
        log: &'a [Reply],
    ) -> (step: Step<'a, McpInvocationIntentApprovalContext>)
        ensures
            step@ == StepView::proceed(
                Self::mcp_invocation_intent_for_approval_fault(log@),
                Self::mcp_invocation_intent_for_approval_script(
                    tenant_id, intent_id, principal_id, session_id, log@,
                ),
                Self::mcp_invocation_intent_for_approval_output(log@),
                log@,
            ),
    {
        if log.len() == 0 {
            return ask_optional(
                sql::INVOCATION_INTENT_FOR_APPROVAL,
                vec![
                    Param::Id(tenant_id), Param::Id(intent_id), Param::Id(principal_id),
                    Param::Id(session_id),
                ],
            );
        }
        let intent: McpInvocationIntentApprovalContext = match required(
            &log[0],
            DatabaseError::NotFound,
        ) {
            Ok(value) => value,
            Err(fault) => return stop(fault),
        };
        Step::Done(intent)
    }

    /// Every statement of `mcp_invocation_intent_for_approval` is about its tenant.
    pub proof fn mcp_invocation_intent_for_approval_is_scoped(
        tenant_id: Uuid, intent_id: Uuid, principal_id: Uuid, session_id: Uuid, log: Seq<Reply>,
    )
        ensures
            crate::step::is_scoped(
                Self::mcp_invocation_intent_for_approval_script(
                    tenant_id, intent_id, principal_id, session_id, log,
                ),
                tenant_id,
            ),
    {
    }

    /// What stops `mcp_consume_invocation_intent`, in order.
    pub open spec fn mcp_consume_invocation_intent_fault(log: Seq<Reply>) -> Option<Fault> {
        if log.len() > 0 && log[0].required_row::<Uuid>(DatabaseError::NotFound) is Err {
            Fault::of(log[0].required_row::<Uuid>(DatabaseError::NotFound))
        } else {
            None
        }
    }

    /// The commands of `mcp_consume_invocation_intent`, in order.
    pub open spec fn mcp_consume_invocation_intent_script<'a>(
        tenant_id: Uuid, id: Uuid, principal_id: Uuid, session_id: Uuid,
        application_id: &'a str, request_digest: &'a [u8; 32], log: Seq<Reply>,
    ) -> Seq<CommandView<'a>> {
        seq![
            CommandView::optional(
                sql::CONSUME_INVOCATION_INTENT,
                seq![
                    Param::Id(tenant_id), Param::Id(id), Param::Id(principal_id),
                    Param::Id(session_id), Param::Text(application_id),
                    Param::Digest(request_digest),
                ],
            ),
        ]
    }

    /// What `mcp_consume_invocation_intent` returns.
    pub open spec fn mcp_consume_invocation_intent_output(log: Seq<Reply>) -> Uuid {
        let registration_id = log[0].required_row::<Uuid>(DatabaseError::NotFound)->Ok_0;
        registration_id
    }

    /// Uses up an intent by the very request that it was for, and returns its registration.
    pub fn mcp_consume_invocation_intent<'a>(
        tenant_id: Uuid, id: Uuid, principal_id: Uuid, session_id: Uuid,
        application_id: &'a str, request_digest: &'a [u8; 32], log: &'a [Reply],
    ) -> (step: Step<'a, Uuid>)
        ensures
            step@ == StepView::proceed(
                Self::mcp_consume_invocation_intent_fault(log@),
                Self::mcp_consume_invocation_intent_script(
                    tenant_id, id, principal_id, session_id, application_id, request_digest,
                    log@,
                ),
                Self::mcp_consume_invocation_intent_output(log@),
                log@,
            ),
    {
        if log.len() == 0 {
            return ask_optional(
                sql::CONSUME_INVOCATION_INTENT,
                vec![
                    Param::Id(tenant_id), Param::Id(id), Param::Id(principal_id),
                    Param::Id(session_id), Param::Text(application_id),
                    Param::Digest(request_digest),
                ],
            );
        }
        let registration_id: Uuid = match required::<Uuid>(&log[0], DatabaseError::NotFound) {
            Ok(value) => value,
            Err(fault) => return stop(fault),
        };
        Step::Done(registration_id)
    }

    /// Every statement of `mcp_consume_invocation_intent` is about its tenant.
    pub proof fn mcp_consume_invocation_intent_is_scoped<'a>(
        tenant_id: Uuid, id: Uuid, principal_id: Uuid, session_id: Uuid, application_id: &'a str,
        request_digest: &'a [u8; 32], log: Seq<Reply>,
    )
        ensures
            crate::step::is_scoped(
                Self::mcp_consume_invocation_intent_script(
                    tenant_id, id, principal_id, session_id, application_id, request_digest, log,
                ),
                tenant_id,
            ),
    {
    }

    /// What stops `mcp_start_invocation`, in order.
    pub open spec fn mcp_start_invocation_fault<'a>(
        input: &'a NewMcpInvocation<'a>,
        log: Seq<Reply>,
    ) -> Option<Fault> {
        let block_generation = log[2].single_row::<i64>()->Ok_0;
        if !input.is_valid() {
            Some(Fault::Error(DatabaseError::InvalidPersistedValue))
        } else if log.len() > 2 && log[2].single_row::<i64>() is Err {
            Fault::of(log[2].single_row::<i64>())
        } else if log.len() > 2 && block_generation != input.admin_block_generation {
            Some(Fault::Error(DatabaseError::StaleGeneration))
        } else if log.len() > 3 && log[3].one_affected(DatabaseError::StaleGeneration) is Err {
            Fault::of(log[3].one_affected(DatabaseError::StaleGeneration))
        } else {
            None
        }
    }

    /// The commands of `mcp_start_invocation`, in order.
    pub open spec fn mcp_start_invocation_script<'a>(
        input: &'a NewMcpInvocation<'a>,
        log: Seq<Reply>,
    ) -> Seq<CommandView<'a>> {
        seq![
            CommandView::Begin,
            CommandView::execute(
                sql::START_INVOCATION_INSERT_POLICY_GENERATIONS,
                seq![Param::Id(input.tenant_id)],
            ),
            CommandView::one(
                sql::START_INVOCATION_SELECT_POLICY_GENERATIONS,
                seq![Param::Id(input.tenant_id)],
            ),
            CommandView::execute(
                sql::START_INVOCATION_INSERT_INVOCATIONS,
                seq![
                    Param::Id(input.tenant_id), Param::Id(input.id),
                    Param::Id(input.registration_id), Param::Id(input.principal_id),
                    Param::Text(input.application_id), Param::Text(input.primitive),
                    Param::Digest(input.capability_fingerprint),
                    Param::OptId(input.approval_id), Param::I64(input.registration_generation),
                    Param::I64(input.authority_generation),
                    Param::I64(input.admin_block_generation), Param::I64(input.request_bytes),
                    Param::OptId(input.semantic_node_id),
                    Param::OptId(input.semantic_base_version_id),
                    Param::OptDigest(input.semantic_input_digest),
                ],
            ),
            CommandView::Commit,
        ]
    }

    /// Starts an invocation, unless the tenant's blocks, the registration or the principal have
    /// moved on since it was authorized.
    pub fn mcp_start_invocation<'a>(
        input: &'a NewMcpInvocation<'a>,
        log: &'a [Reply],
    ) -> (step: Step<'a, ()>)
        ensures
            step@ == StepView::proceed(
                Self::mcp_start_invocation_fault(input, log@),
                Self::mcp_start_invocation_script(input, log@),
                (),
                log@,
            ),
    {
        if !input.valid() {
            return Step::Fail(DatabaseError::InvalidPersistedValue);
        }
        if log.len() == 0 {
            return Step::Ask(Command::Begin);
        }
        if log.len() <= 1 {
            return ask_execute(
                sql::START_INVOCATION_INSERT_POLICY_GENERATIONS,
                vec![Param::Id(input.tenant_id)],
            );
        }
        if log.len() <= 2 {
            return ask_one(
                sql::START_INVOCATION_SELECT_POLICY_GENERATIONS,
                vec![Param::Id(input.tenant_id)],
            );
        }
        let block_generation: i64 = match single::<i64>(&log[2]) {
            Ok(value) => value,
            Err(fault) => return stop(fault),
        };
        if block_generation != input.admin_block_generation {
            return Step::Fail(DatabaseError::StaleGeneration);
        }
        if log.len() <= 3 {
            return ask_execute(
                sql::START_INVOCATION_INSERT_INVOCATIONS,
                vec![
                    Param::Id(input.tenant_id), Param::Id(input.id),
                    Param::Id(input.registration_id), Param::Id(input.principal_id),
                    Param::Text(input.application_id), Param::Text(input.primitive),
                    Param::Digest(input.capability_fingerprint),
                    Param::OptId(input.approval_id), Param::I64(input.registration_generation),
                    Param::I64(input.authority_generation),
                    Param::I64(input.admin_block_generation), Param::I64(input.request_bytes),
                    Param::OptId(input.semantic_node_id),
                    Param::OptId(input.semantic_base_version_id),
                    Param::OptDigest(input.semantic_input_digest),
                ],
            );
        }
        if let Err(fault) = exactly_one(&log[3], DatabaseError::StaleGeneration) {
            return stop(fault);
        }
        if log.len() <= 4 {
            return Step::Ask(Command::Commit);
        }
        Step::Done(())
    }

    /// `mcp_start_invocation` runs in one transaction: it is done once its commit is acknowledged,
    /// and when it fails, nothing was committed.
    pub proof fn mcp_start_invocation_is_atomic<'a>(
        input: &'a NewMcpInvocation<'a>,
        log: Seq<Reply>,
    )
        ensures
            crate::step::is_atomic(Self::mcp_start_invocation_script(input, log), 0),
            crate::step::commit_acknowledged(
                Self::mcp_start_invocation_fault(input, log.drop_last()),
                Self::mcp_start_invocation_script(input, log.drop_last()),
                log,
            ) ==> {
                &&& Self::mcp_start_invocation_fault(input, log) is None
                &&& log.len() == Self::mcp_start_invocation_script(input, log).len()
            },
    {
    }

    /// Every statement of `mcp_start_invocation` is about its tenant.
    pub proof fn mcp_start_invocation_is_scoped<'a>(
        input: &'a NewMcpInvocation<'a>,
        log: Seq<Reply>,
    )
        ensures
            crate::step::is_scoped(Self::mcp_start_invocation_script(input, log), input.tenant_id),
    {
    }

    /// What stops `mcp_finish_invocation`, in order.
    pub open spec fn mcp_finish_invocation_fault<'a>(
        state: &'a str, response_bytes: i64, semantic_output_digest: Option<&'a [u8; 32]>,
        log: Seq<Reply>,
    ) -> Option<Fault> {
        if !finish_is_valid_spec(state@, response_bytes, semantic_output_digest is Some) {
            Some(Fault::Error(DatabaseError::InvalidPersistedValue))
        } else if log.len() > 0 && log[0].one_affected(DatabaseError::Conflict) is Err {
            Fault::of(log[0].one_affected(DatabaseError::Conflict))
        } else {
            None
        }
    }

    /// The commands of `mcp_finish_invocation`, in order.
    pub open spec fn mcp_finish_invocation_script<'a>(
        tenant_id: Uuid, id: Uuid, state: &'a str, response_bytes: i64,
        reason_code: Option<&'a str>, semantic_output_digest: Option<&'a [u8; 32]>,
        log: Seq<Reply>,
    ) -> Seq<CommandView<'a>> {
        seq![
            CommandView::execute(
                sql::FINISH_INVOCATION,
                seq![
                    Param::Id(tenant_id), Param::Id(id), Param::Text(state),
                    Param::I64(response_bytes), Param::OptText(reason_code),
                    Param::OptDigest(semantic_output_digest),
                ],
            ),
        ]
    }

    /// Ends an invocation that is not over yet.
    pub fn mcp_finish_invocation<'a>(
        tenant_id: Uuid, id: Uuid, state: &'a str, response_bytes: i64,
        reason_code: Option<&'a str>, semantic_output_digest: Option<&'a [u8; 32]>,
        log: &'a [Reply],
    ) -> (step: Step<'a, ()>)
        ensures
            step@ == StepView::proceed(
                Self::mcp_finish_invocation_fault(
                    state, response_bytes, semantic_output_digest, log@,
                ),
                Self::mcp_finish_invocation_script(
                    tenant_id, id, state, response_bytes, reason_code, semantic_output_digest,
                    log@,
                ),
                (),
                log@,
            ),
    {
        if !finish_is_valid(state, response_bytes, semantic_output_digest.is_some()) {
            return Step::Fail(DatabaseError::InvalidPersistedValue);
        }
        if log.len() == 0 {
            return ask_execute(
                sql::FINISH_INVOCATION,
                vec![
                    Param::Id(tenant_id), Param::Id(id), Param::Text(state),
                    Param::I64(response_bytes), Param::OptText(reason_code),
                    Param::OptDigest(semantic_output_digest),
                ],
            );
        }
        if let Err(fault) = exactly_one(&log[0], DatabaseError::Conflict) {
            return stop(fault);
        }
        Step::Done(())
    }

    /// Every statement of `mcp_finish_invocation` is about its tenant.
    pub proof fn mcp_finish_invocation_is_scoped<'a>(
        tenant_id: Uuid,
        id: Uuid,
        state: &'a str,
        response_bytes: i64,
        reason_code: Option<&'a str>,
        semantic_output_digest: Option<&'a [u8; 32]>,
        log: Seq<Reply>,
    )
        ensures
            crate::step::is_scoped(
                Self::mcp_finish_invocation_script(
                    tenant_id, id, state, response_bytes, reason_code, semantic_output_digest, log,
                ),
                tenant_id,
            ),
    {
    }

    /// What stops `mcp_markdown_context_drive`, in order.
    pub open spec fn mcp_markdown_context_drive_fault(log: Seq<Reply>) -> Option<Fault> {
        if log.len() > 0 && log[0].required_row::<Uuid>(DatabaseError::NotFound) is Err {
            Fault::of(log[0].required_row::<Uuid>(DatabaseError::NotFound))
        } else {
            None
        }
    }

    /// The commands of `mcp_markdown_context_drive`, in order.
    pub open spec fn mcp_markdown_context_drive_script<'a>(
        tenant_id: Uuid, node_id: Uuid, base_version_id: Uuid, log: Seq<Reply>,
    ) -> Seq<CommandView<'a>> {
        seq![
            CommandView::optional(
                sql::MARKDOWN_CONTEXT_DRIVE,
                seq![Param::Id(tenant_id), Param::Id(node_id), Param::Id(base_version_id)],
            ),
        ]
    }

    /// What `mcp_markdown_context_drive` returns.
    pub open spec fn mcp_markdown_context_drive_output(log: Seq<Reply>) -> Uuid {
        let drive_id = log[0].required_row::<Uuid>(DatabaseError::NotFound)->Ok_0;
        drive_id
    }

    /// The drive of a Markdown proposal's target, only where its claimed immutable base version
    /// belongs to that exact live file. Authorization is for the caller to decide; no source bytes
    /// are returned.
    pub fn mcp_markdown_context_drive<'a>(
        tenant_id: Uuid, node_id: Uuid, base_version_id: Uuid, log: &'a [Reply],
    ) -> (step: Step<'a, Uuid>)
        ensures
            step@ == StepView::proceed(
                Self::mcp_markdown_context_drive_fault(log@),
                Self::mcp_markdown_context_drive_script(tenant_id, node_id, base_version_id, log@),
                Self::mcp_markdown_context_drive_output(log@),
                log@,
            ),
    {
        if log.len() == 0 {
            return ask_optional(
                sql::MARKDOWN_CONTEXT_DRIVE,
                vec![Param::Id(tenant_id), Param::Id(node_id), Param::Id(base_version_id)],
            );
        }
        let drive_id: Uuid = match required::<Uuid>(&log[0], DatabaseError::NotFound) {
            Ok(value) => value,
            Err(fault) => return stop(fault),
        };
        Step::Done(drive_id)
    }

    /// Every statement of `mcp_markdown_context_drive` is about its tenant.
    pub proof fn mcp_markdown_context_drive_is_scoped(
        tenant_id: Uuid, node_id: Uuid, base_version_id: Uuid, log: Seq<Reply>,
    )
        ensures
            crate::step::is_scoped(
                Self::mcp_markdown_context_drive_script(tenant_id, node_id, base_version_id, log),
                tenant_id,
            ),
    {
    }

    /// What stops `mcp_activity`, in order.
    pub open spec fn mcp_activity_fault(limit: i64, log: Seq<Reply>) -> Option<Fault> {
        if limit < 1 || limit > 200 {
            Some(Fault::Error(DatabaseError::InvalidPersistedValue))
        } else if log.len() > 0 && log[0].all_rows::<McpActivityRecord>() is Err {
            Fault::of(log[0].all_rows::<McpActivityRecord>())
        } else {
            None
        }
    }

    /// The commands of `mcp_activity`, in order.
    pub open spec fn mcp_activity_script<'a>(
        tenant_id: Uuid, principal_id: Uuid, limit: i64, log: Seq<Reply>,
    ) -> Seq<CommandView<'a>> {
        seq![
            CommandView::all(
                sql::ACTIVITY,
                seq![Param::Id(tenant_id), Param::Id(principal_id), Param::I64(limit)],
            ),
        ]
    }

    /// What `mcp_activity` returns.
    pub open spec fn mcp_activity_output(log: Seq<Reply>) -> Seq<McpActivityRecord> {
        let activity = log[0].all_rows::<McpActivityRecord>()->Ok_0;
        activity
    }

    /// A principal's invocations, the latest first.
    pub fn mcp_activity<'a>(
        tenant_id: Uuid, principal_id: Uuid, limit: i64, log: &'a [Reply],
    ) -> (step: Step<'a, Vec<McpActivityRecord>>)
        ensures
            step.list() == StepView::proceed(
                Self::mcp_activity_fault(limit, log@),
                Self::mcp_activity_script(tenant_id, principal_id, limit, log@),
                Self::mcp_activity_output(log@),
                log@,
            ),
    {
        if limit < 1 || limit > 200 {
            return Step::Fail(DatabaseError::InvalidPersistedValue);
        }
        if log.len() == 0 {
            return ask_all(
                sql::ACTIVITY,
                vec![Param::Id(tenant_id), Param::Id(principal_id), Param::I64(limit)],
            );
        }
        let activity: Vec<McpActivityRecord> = match many::<McpActivityRecord>(&log[0]) {
            Ok(value) => value,
            Err(fault) => return stop_list(fault),
        };
        Step::Done(activity)
    }

    /// Every statement of `mcp_activity` is about its tenant.
    pub proof fn mcp_activity_is_scoped(
        tenant_id: Uuid, principal_id: Uuid, limit: i64, log: Seq<Reply>,
    )
        ensures
            crate::step::is_scoped(
                Self::mcp_activity_script(tenant_id, principal_id, limit, log),
                tenant_id,
            ),
    {
    }

    /// What stops `mcp_take_rate_limit`, in order.
    pub open spec fn mcp_take_rate_limit_fault<'a>(
        bucket: &'a str, window_seconds: i64, cost: i64, limit: i64, log: Seq<Reply>,
    ) -> Option<Fault> {
        if bucket@.len() == 0 || window_seconds <= 0 || cost <= 0 || limit <= 0 {
            Some(Fault::Error(DatabaseError::InvalidPersistedValue))
        } else if log.len() > 0 && log[0].single_row::<i64>() is Err {
            Fault::of(log[0].single_row::<i64>())
        } else {
            None
        }
    }

    /// The commands of `mcp_take_rate_limit`, in order.
    pub open spec fn mcp_take_rate_limit_script<'a>(
        tenant_id: Uuid, principal_id: Uuid, bucket: &'a str, window_epoch_seconds: i64,
        window_seconds: i64, cost: i64, limit: i64, log: Seq<Reply>,
    ) -> Seq<CommandView<'a>> {
        seq![
            CommandView::one(
                sql::TAKE_RATE_LIMIT,
                seq![
                    Param::Id(tenant_id), Param::Id(principal_id), Param::Text(bucket),
                    Param::I64(window_epoch_seconds), Param::I64(cost), Param::I64(limit),
                    Param::I64(window_seconds),
                ],
            ),
        ]
    }

    /// What `mcp_take_rate_limit` returns.
    pub open spec fn mcp_take_rate_limit_output(limit: i64, log: Seq<Reply>) -> McpRateDecision {
        let used = log[0].single_row::<i64>()->Ok_0;
        McpRateDecision { allowed: used <= limit, used, limit }
    }

    /// Counts a cost against a rate limit, and says whether what is used is still within it.
    pub fn mcp_take_rate_limit<'a>(
        tenant_id: Uuid, principal_id: Uuid, bucket: &'a str, window_epoch_seconds: i64,
        window_seconds: i64, cost: i64, limit: i64, log: &'a [Reply],
    ) -> (step: Step<'a, McpRateDecision>)
        ensures
            step@ == StepView::proceed(
                Self::mcp_take_rate_limit_fault(bucket, window_seconds, cost, limit, log@),
                Self::mcp_take_rate_limit_script(
                    tenant_id, principal_id, bucket, window_epoch_seconds, window_seconds, cost,
                    limit, log@,
                ),
                Self::mcp_take_rate_limit_output(limit, log@),
                log@,
            ),
    {
        if bucket.is_empty() || window_seconds <= 0 || cost <= 0 || limit <= 0 {
            return Step::Fail(DatabaseError::InvalidPersistedValue);
        }
        if log.len() == 0 {
            return ask_one(
                sql::TAKE_RATE_LIMIT,
                vec![
                    Param::Id(tenant_id), Param::Id(principal_id), Param::Text(bucket),
                    Param::I64(window_epoch_seconds), Param::I64(cost), Param::I64(limit),
                    Param::I64(window_seconds),
                ],
            );
        }
        let used: i64 = match single::<i64>(&log[0]) {
            Ok(value) => value,
            Err(fault) => return stop(fault),
        };
        Step::Done(McpRateDecision { allowed: used <= limit, used, limit })
    }

    /// Every statement of `mcp_take_rate_limit` is about its tenant.
    pub proof fn mcp_take_rate_limit_is_scoped<'a>(
        tenant_id: Uuid, principal_id: Uuid, bucket: &'a str, window_epoch_seconds: i64,
        window_seconds: i64, cost: i64, limit: i64, log: Seq<Reply>,
    )
        ensures
            crate::step::is_scoped(
                Self::mcp_take_rate_limit_script(
                    tenant_id, principal_id, bucket, window_epoch_seconds, window_seconds, cost,
                    limit, log,
                ),
                tenant_id,
            ),
    {
    }

    /// What stops `mcp_revocation_generations`, in order.
    pub open spec fn mcp_revocation_generations_fault(log: Seq<Reply>) -> Option<Fault> {
        if log.len() > 1
            && log[1].required_row::<McpRevocationGenerations>(DatabaseError::NotFound) is Err {
            Fault::of(log[1].required_row::<McpRevocationGenerations>(DatabaseError::NotFound))
        } else {
            None
        }
    }

    /// The commands of `mcp_revocation_generations`, in order.
    pub open spec fn mcp_revocation_generations_script<'a>(
        tenant_id: Uuid, principal_id: Uuid, registration_id: Uuid, log: Seq<Reply>,
    ) -> Seq<CommandView<'a>> {
        seq![
            CommandView::execute(
                sql::START_INVOCATION_INSERT_POLICY_GENERATIONS,
                seq![Param::Id(tenant_id)],
            ),
            CommandView::optional(
                sql::REVOCATION_GENERATIONS_SELECT_PRINCIPALS,
                seq![Param::Id(tenant_id), Param::Id(principal_id), Param::Id(registration_id)],
            ),
        ]
    }

    /// What `mcp_revocation_generations` returns.
    pub open spec fn mcp_revocation_generations_output(
        log: Seq<Reply>,
    ) -> McpRevocationGenerations {
        let generations =
            log[1].required_row::<McpRevocationGenerations>(DatabaseError::NotFound)->Ok_0;
        generations
    }

    /// The generations whose change ends a running invocation.
    pub fn mcp_revocation_generations<'a>(
        tenant_id: Uuid, principal_id: Uuid, registration_id: Uuid, log: &'a [Reply],
    ) -> (step: Step<'a, McpRevocationGenerations>)
        ensures
            step@ == StepView::proceed(
                Self::mcp_revocation_generations_fault(log@),
                Self::mcp_revocation_generations_script(
                    tenant_id, principal_id, registration_id, log@,
                ),
                Self::mcp_revocation_generations_output(log@),
                log@,
            ),
    {
        if log.len() == 0 {
            return ask_execute(
                sql::START_INVOCATION_INSERT_POLICY_GENERATIONS,
                vec![Param::Id(tenant_id)],
            );
        }
        if log.len() <= 1 {
            return ask_optional(
                sql::REVOCATION_GENERATIONS_SELECT_PRINCIPALS,
                vec![Param::Id(tenant_id), Param::Id(principal_id), Param::Id(registration_id)],
            );
        }
        let generations: McpRevocationGenerations = match required(
            &log[1],
            DatabaseError::NotFound,
        ) {
            Ok(value) => value,
            Err(fault) => return stop(fault),
        };
        Step::Done(generations)
    }

    /// Every statement of `mcp_revocation_generations` is about its tenant.
    pub proof fn mcp_revocation_generations_is_scoped(
        tenant_id: Uuid, principal_id: Uuid, registration_id: Uuid, log: Seq<Reply>,
    )
        ensures
            crate::step::is_scoped(
                Self::mcp_revocation_generations_script(
                    tenant_id, principal_id, registration_id, log,
                ),
                tenant_id,
            ),
    {
    }

    /// What stops `mcp_invocation_is_active`, in order.
    pub open spec fn mcp_invocation_is_active_fault(log: Seq<Reply>) -> Option<Fault> {
        if log.len() > 0 && log[0].single_row::<bool>() is Err {
            Fault::of(log[0].single_row::<bool>())
        } else {
            None
        }
    }

    /// The commands of `mcp_invocation_is_active`, in order.
    pub open spec fn mcp_invocation_is_active_script<'a>(
        tenant_id: Uuid, principal_id: Uuid, invocation_id: Uuid, log: Seq<Reply>,
    ) -> Seq<CommandView<'a>> {
        seq![
            CommandView::one(
                sql::INVOCATION_IS_ACTIVE,
                seq![Param::Id(tenant_id), Param::Id(principal_id), Param::Id(invocation_id)],
            ),
        ]
    }

    /// What `mcp_invocation_is_active` returns.
    pub open spec fn mcp_invocation_is_active_output(log: Seq<Reply>) -> bool {
        let active = log[0].single_row::<bool>()->Ok_0;
        active
    }

    /// Whether an invocation is not over yet.
    pub fn mcp_invocation_is_active<'a>(
        tenant_id: Uuid, principal_id: Uuid, invocation_id: Uuid, log: &'a [Reply],
    ) -> (step: Step<'a, bool>)
        ensures
            step@ == StepView::proceed(
                Self::mcp_invocation_is_active_fault(log@),
                Self::mcp_invocation_is_active_script(tenant_id, principal_id, invocation_id, log@),
                Self::mcp_invocation_is_active_output(log@),
                log@,
            ),
    {
        if log.len() == 0 {
            return ask_one(
                sql::INVOCATION_IS_ACTIVE,
                vec![Param::Id(tenant_id), Param::Id(principal_id), Param::Id(invocation_id)],
            );
        }
        let active: bool = match single::<bool>(&log[0]) {
            Ok(value) => value,
            Err(fault) => return stop(fault),
        };
        Step::Done(active)
    }

    /// Every statement of `mcp_invocation_is_active` is about its tenant.
    pub proof fn mcp_invocation_is_active_is_scoped(
        tenant_id: Uuid, principal_id: Uuid, invocation_id: Uuid, log: Seq<Reply>,
    )
        ensures
            crate::step::is_scoped(
                Self::mcp_invocation_is_active_script(tenant_id, principal_id, invocation_id, log),
                tenant_id,
            ),
    {
    }

}

} // verus!
