//! Durable replay of the broker's management operations and probes.

use std::sync::Arc;

use vstd::prelude::*;

use crate::database::Database;
use crate::error::DatabaseError;
use crate::error::Fault;
use crate::id::Uuid;
use crate::json::Json;
use crate::json::Member;
use crate::json::encoded_length;
use crate::mcp::invocation::NewMcpOAuthAttempt;
use crate::mcp::management::RegistrationConfigurationUpdate;
use crate::mcp::registration::McpRegistrationRecord;
use crate::mcp::secret::McpCredentialMetadata;
use crate::mcp::secret::McpSecretEnvelope;
use crate::mcp::secret::does_follow;
use crate::mcp::secret::is_oauth;
use crate::mcp::secret::validate_secret_envelope;
use crate::row::FromRow;
use crate::row::Reply;
use crate::row::Row;
use crate::row::affected;
use crate::row::exactly_one;
use crate::row::required;
use crate::row::single;
use crate::sql::mcp as sql;
use crate::step::Command;
use crate::step::CommandView;
use crate::step::Param;
use crate::step::Step;
use crate::step::StepView;
use crate::step::ask_execute;
use crate::step::ask_one;
use crate::step::ask_optional;
use crate::step::stop;
use crate::step::stop_deep;
use crate::text::bytes_eq;
use crate::text::sized;
use crate::text::text_eq;

verus! {

/// The size of the largest discovered document, in bytes.
pub const MAX_DISCOVERY_BYTES: usize = 16_777_216;

/// The key of a broker operation.
#[derive(Debug)]
pub struct McpBrokerOperationIdempotency<'a> {
    pub tenant_id: Uuid,
    pub principal_id: Uuid,
    pub registration_id: Uuid,
    pub operation: &'a str,
    pub operation_id: Uuid,
    pub request_fingerprint: &'a [u8; 32],
}

/// How a broker operation begins.
#[derive(Debug)]
pub enum McpBrokerOperationStart {
    /// Its transaction is open.
    Started(McpBrokerOperationTransaction),
    /// It was done before, with this result.
    Replayed(Arc<Json>),
    /// Its identifier belongs to another operation.
    KeyReused,
}

/// A broker operation whose transaction is open. Its steps run inside that transaction, which
/// stays open after each of them, also where one fails:
/// [`McpBrokerOperationTransaction::finalize`] commits it, and whoever gives the operation up
/// undoes it.
#[derive(Debug)]
pub struct McpBrokerOperationTransaction {
    pub tenant_id: Uuid,
    pub principal_id: Uuid,
    pub registration_id: Uuid,
    pub operation: String,
    pub operation_id: Uuid,
    pub request_fingerprint: [u8; 32],
}

/// What an [`McpBrokerOperationTransaction`] holds.
#[verifier::ext_equal]
pub struct McpBrokerOperationTransactionView {
    pub tenant_id: Uuid,
    pub principal_id: Uuid,
    pub registration_id: Uuid,
    pub operation: Seq<char>,
    pub operation_id: Uuid,
    pub request_fingerprint: [u8; 32],
}

impl View for McpBrokerOperationTransaction {
    type V = McpBrokerOperationTransactionView;

    open spec fn view(&self) -> McpBrokerOperationTransactionView {
        McpBrokerOperationTransactionView {
            tenant_id: self.tenant_id,
            principal_id: self.principal_id,
            registration_id: self.registration_id,
            operation: self.operation@,
            operation_id: self.operation_id,
            request_fingerprint: self.request_fingerprint,
        }
    }
}

/// What an [`McpBrokerOperationStart`] holds.
#[verifier::ext_equal]
pub enum McpBrokerOperationStartView {
    Started(McpBrokerOperationTransactionView),
    Replayed(Arc<Json>),
    KeyReused,
}

impl View for McpBrokerOperationStart {
    type V = McpBrokerOperationStartView;

    open spec fn view(&self) -> McpBrokerOperationStartView {
        match self {
            McpBrokerOperationStart::Started(operation) => McpBrokerOperationStartView::Started(
                operation@,
            ),
            McpBrokerOperationStart::Replayed(result) => McpBrokerOperationStartView::Replayed(
                *result,
            ),
            McpBrokerOperationStart::KeyReused => McpBrokerOperationStartView::KeyReused,
        }
    }
}

impl<'a> McpBrokerOperationIdempotency<'a> {
    /// The operation that begins under this key.
    pub open spec fn started_spec(&self) -> McpBrokerOperationTransactionView {
        McpBrokerOperationTransactionView {
            tenant_id: self.tenant_id,
            principal_id: self.principal_id,
            registration_id: self.registration_id,
            operation: self.operation@,
            operation_id: self.operation_id,
            request_fingerprint: *self.request_fingerprint,
        }
    }

    /// The operation that begins under this key.
    pub fn started(&self) -> (r: McpBrokerOperationTransaction)
        ensures
            r@ == self.started_spec(),
    {
        McpBrokerOperationTransaction {
            tenant_id: self.tenant_id,
            principal_id: self.principal_id,
            registration_id: self.registration_id,
            operation: self.operation.to_owned(),
            operation_id: self.operation_id,
            request_fingerprint: *self.request_fingerprint,
        }
    }
}

/// The receipt of a broker operation, as it stands when it is locked.
#[derive(Debug)]
pub struct BrokerReceipt {
    pub registration_id: Uuid,
    pub operation: String,
    pub request_fingerprint: Arc<Vec<u8>>,
    pub result: Option<Arc<Json>>,
    pub api_completed: bool,
    pub expired: bool,
}

impl BrokerReceipt {
    /// What a row holds, read by its column names.
    #[verifier::opaque]
    pub open spec fn of_row(row: Row) -> Result<BrokerReceipt, Fault> {
        if row.column::<Uuid>("registration_id"@) is Some
            && row.column::<String>("operation"@) is Some
            && row.column::<Arc<Vec<u8>>>("request_fingerprint"@) is Some
            && row.column::<Option<Arc<Json>>>("result"@) is Some
            && row.column::<bool>("api_completed"@) is Some
            && row.column::<bool>("expired"@) is Some {
            Ok(
                BrokerReceipt {
                    registration_id: row.column::<Uuid>("registration_id"@)->0,
                    operation: row.column::<String>("operation"@)->0,
                    request_fingerprint: row.column::<Arc<Vec<u8>>>("request_fingerprint"@)->0,
                    result: row.column::<Option<Arc<Json>>>("result"@)->0,
                    api_completed: row.column::<bool>("api_completed"@)->0,
                    expired: row.column::<bool>("expired"@)->0,
                },
            )
        } else {
            Err(Fault::Malformed)
        }
    }
}

impl FromRow for BrokerReceipt {
    open spec fn row_spec(row: Row) -> Result<BrokerReceipt, Fault> {
        BrokerReceipt::of_row(row)
    }

    fn from_row(row: &Row) -> (r: Result<BrokerReceipt, Fault>) {
        proof {
            reveal(BrokerReceipt::of_row);
        }
        let registration_id: Uuid = match row.get("registration_id") {
            Some(v) => v,
            None => return Err(Fault::Malformed),
        };
        let operation: String = match row.get("operation") {
            Some(v) => v,
            None => return Err(Fault::Malformed),
        };
        let request_fingerprint: Arc<Vec<u8>> = match row.get("request_fingerprint") {
            Some(v) => v,
            None => return Err(Fault::Malformed),
        };
        let result: Option<Arc<Json>> = match row.get("result") {
            Some(v) => v,
            None => return Err(Fault::Malformed),
        };
        let api_completed: bool = match row.get("api_completed") {
            Some(v) => v,
            None => return Err(Fault::Malformed),
        };
        let expired: bool = match row.get("expired") {
            Some(v) => v,
            None => return Err(Fault::Malformed),
        };
        Ok(BrokerReceipt { 
            registration_id, operation, request_fingerprint, result, api_completed, expired,
         })
    }
}

impl BrokerReceipt {
    /// Whether the receipt is of this operation.
    pub open spec fn is_of<'a>(self, input: &McpBrokerOperationIdempotency<'a>) -> bool {
        &&& self.registration_id == input.registration_id
        &&& self.operation@ == input.operation@
        &&& self.request_fingerprint@ == input.request_fingerprint@
    }

    /// Whether the receipt is of this operation.
    pub fn belongs_to<'a>(&self, input: &McpBrokerOperationIdempotency<'a>) -> (r: bool)
        ensures
            r == self.is_of(input),
    {
        self.registration_id == input.registration_id && text_eq(
            self.operation.as_str(),
            input.operation,
        ) && bytes_eq(self.request_fingerprint.as_slice(), input.request_fingerprint)
    }
}

/// The verdict on the name of an operation.
pub open spec fn operation_verdict(operation: Seq<char>) -> Result<(), DatabaseError> {
    if operation == "registration_configure"@ || operation == "credential_replace"@ || operation
        == "credential_erase"@ || operation == "oauth_begin"@ || operation == "test"@ || operation
        == "discover"@ {
        Ok(())
    } else {
        Err(DatabaseError::InvalidPersistedValue)
    }
}

/// Refuses the name of an unknown operation.
pub fn validate_operation(operation: &str) -> (r: Result<(), DatabaseError>)
    ensures
        r == operation_verdict(operation@),
{
    if text_eq(operation, "registration_configure") || text_eq(operation, "credential_replace")
        || text_eq(operation, "credential_erase") || text_eq(operation, "oauth_begin") || text_eq(
        operation,
        "test",
    ) || text_eq(operation, "discover") {
        Ok(())
    } else {
        Err(DatabaseError::InvalidPersistedValue)
    }
}

/// The tenant, owner and identifier of a registration that a result describes.
#[derive(Clone, Copy, Debug, PartialEq, Eq, Structural)]
pub struct RegistrationIdentity {
    pub tenant_id: Uuid,
    pub owner_principal_id: Uuid,
    pub id: Uuid,
}

/// Whether every member's key is one of these names.
pub open spec fn keys_are(members: Seq<Member>, names: Seq<&str>) -> bool {
    forall|i: int|
        0 <= i < members.len() ==> crate::acl::texts(names).contains((#[trigger] members[i]).key@)
}

/// Whether every member's key is one of these names.
pub fn keys_within(members: &Vec<Member>, names: &[&str]) -> (r: bool)
    ensures
        r == keys_are(members@, names@),
{
    let mut at: usize = 0;
    while at < members.len()
        invariant
            at <= members@.len(),
            forall|i: int|
                0 <= i < at ==> crate::acl::texts(names@).contains((#[trigger] members@[i]).key@),
        decreases members@.len() - at,
    {
        if !crate::acl::has_name(names, members[at].key.as_str()) {
            assert(!crate::acl::texts(names@).contains(members@[at as int].key@));
            return false;
        }
        at = at + 1;
    }
    true
}

/// Whether every member's value is a positive whole number.
pub open spec fn values_are_positive(members: Seq<Member>) -> bool {
    forall|i: int|
        0 <= i < members.len() ==> (#[trigger] members[i]).value.as_i64_spec() is Some
            && members[i].value.as_i64_spec()->0 > 0
}

/// Whether every member's value is a positive whole number.
pub fn values_positive(members: &Vec<Member>) -> (r: bool)
    ensures
        r == values_are_positive(members@),
{
    let mut at: usize = 0;
    while at < members.len()
        invariant
            at <= members@.len(),
            forall|i: int|
                0 <= i < at ==> (#[trigger] members@[i]).value.as_i64_spec() is Some
                    && members@[i].value.as_i64_spec()->0 > 0,
        decreases members@.len() - at,
    {
        let positive: bool = match members[at].value.as_i64() {
            Some(value) => value > 0,
            None => false,
        };
        if !positive {
            assert(!(members@[at as int].value.as_i64_spec() is Some
                && members@[at as int].value.as_i64_spec()->0 > 0));
            return false;
        }
        at = at + 1;
    }
    true
}

/// Whether an object has a text under a key, neither empty nor longer than `most` bytes.
pub open spec fn has_text(result: Json, key: Seq<char>, most: int) -> bool {
    result.get_spec(key) is Some && result.get_spec(key)->0.as_text_spec() is Some
        && crate::text::is_sized(result.get_spec(key)->0.as_text_spec()->0@, 1, most)
}

/// Whether an object has a text under a key, neither empty nor longer than `most` bytes.
pub fn text_under(result: &Json, key: &str, most: usize) -> (r: bool)
    ensures
        r == has_text(*result, key@, most as int),
{
    match result.get(key) {
        Some(value) => match value.as_text() {
            Some(text) => sized(text.as_str(), 1, most),
            None => false,
        },
        None => false,
    }
}

/// Whether an object has a whole number under a key.
pub open spec fn has_number(result: Json, key: Seq<char>) -> bool {
    result.get_spec(key) is Some && result.get_spec(key)->0.as_i64_spec() is Some
}

/// Whether an object has a whole number under a key.
pub fn number_under(result: &Json, key: &str) -> (r: bool)
    ensures
        r == has_number(*result, key@),
{
    match result.get(key) {
        Some(value) => value.as_i64().is_some(),
        None => false,
    }
}

/// Whether an object has a duration of at most two minutes under `duration_ms`.
pub open spec fn has_duration(result: Json) -> bool {
    result.get_spec("duration_ms"@) is Some && result.get_spec("duration_ms"@)->0.as_u64_spec()
        is Some && result.get_spec("duration_ms"@)->0.as_u64_spec()->0 <= 120_000
}

/// Whether an object has a duration of at most two minutes under `duration_ms`.
pub fn duration_given(result: &Json) -> (r: bool)
    ensures
        r == has_duration(*result),
{
    match result.get("duration_ms") {
        Some(value) => match value.as_u64() {
            Some(duration) => duration <= 120_000,
            None => false,
        },
        None => false,
    }
}

/// Whether an object has an object under `document`.
pub open spec fn has_document(result: Json) -> bool {
    result.get_spec("document"@) is Some && result.get_spec("document"@)->0 is Object
}

/// Whether an object has an object under `document`.
pub fn document_given(result: &Json) -> (r: bool)
    ensures
        r == has_document(*result),
{
    match result.get("document") {
        Some(value) => value.is_object(),
        None => false,
    }
}

/// Whether the result of replacing credentials names the new revision and generation, and
/// nothing else.
pub open spec fn is_replacement_result(members: Seq<Member>, result: Json) -> bool {
    &&& members.len() == 2
    &&& keys_are(members, seq!["revision", "credential_generation"])
    &&& result.get_spec("revision"@) is Some
    &&& result.get_spec("credential_generation"@) is Some
    &&& values_are_positive(members)
}

/// Whether the result of an OAuth attempt names where to go and until when, and nothing else: no
/// state, no verifier, no token.
pub open spec fn is_oauth_result(members: Seq<Member>, result: Json) -> bool {
    &&& members.len() == 5
    &&& keys_are(
        members,
        seq!["issuer", "authorization_endpoint", "client_id", "resource", "expires_at"],
    )
    &&& has_number(result, "expires_at"@)
    &&& has_text(result, "issuer"@, 4_096)
    &&& has_text(result, "authorization_endpoint"@, 4_096)
    &&& has_text(result, "client_id"@, 4_096)
    &&& has_text(result, "resource"@, 4_096)
}

/// Whether the result of a test names the protocol, the time and how long it took, and nothing
/// else.
pub open spec fn is_test_result(members: Seq<Member>, result: Json) -> bool {
    &&& members.len() == 3
    &&& keys_are(members, seq!["protocol_version", "checked_at", "duration_ms"])
    &&& has_text(result, "protocol_version"@, 64)
    &&& has_number(result, "checked_at"@)
    &&& has_duration(result)
}

/// Whether the result of a discovery names the protocol and holds a document, and nothing else,
/// and is not too large.
pub open spec fn is_discovery_result(
    members: Seq<Member>,
    result: Json,
    encoded_bytes: Option<nat>,
) -> bool {
    &&& members.len() == 2
    &&& keys_are(members, seq!["protocol_version", "document"])
    &&& has_text(result, "protocol_version"@, 64)
    &&& has_document(result)
    &&& encoded_bytes is Some && encoded_bytes->0 <= MAX_DISCOVERY_BYTES
}

/// Whether a result may be stored and replayed for an operation on a registration.
pub open spec fn is_safe_result(
    operation: Seq<char>,
    expected: RegistrationIdentity,
    result: Json,
    described: Option<RegistrationIdentity>,
    encoded_bytes: Option<nat>,
) -> bool {
    match result {
        Json::Object(members) => if operation == "registration_configure"@ || operation
            == "credential_erase"@ {
            described == Some(expected)
        } else if operation == "credential_replace"@ {
            is_replacement_result(members@, result)
        } else if operation == "oauth_begin"@ {
            is_oauth_result(members@, result)
        } else if operation == "test"@ {
            is_test_result(members@, result)
        } else if operation == "discover"@ {
            is_discovery_result(members@, result, encoded_bytes)
        } else {
            false
        },
        _ => false,
    }
}

/// The verdict on a result that is to be stored and replayed.
pub open spec fn safe_result_verdict(
    operation: Seq<char>,
    expected: RegistrationIdentity,
    result: Json,
    described: Option<RegistrationIdentity>,
    encoded_bytes: Option<nat>,
) -> Result<(), DatabaseError> {
    if is_safe_result(operation, expected, result, described, encoded_bytes) {
        Ok(())
    } else {
        Err(DatabaseError::InvalidPersistedValue)
    }
}

/// Whether the result of an OAuth attempt is what it may be.
fn oauth_result(members: &Vec<Member>, result: &Json) -> (r: bool)
    ensures
        r == is_oauth_result(members@, *result),
{
    let names: [&str; 5] = [
        "issuer",
        "authorization_endpoint",
        "client_id",
        "resource",
        "expires_at",
    ];
    assert(names@ =~= seq![
        "issuer",
        "authorization_endpoint",
        "client_id",
        "resource",
        "expires_at",
    ]);
    members.len() == 5 && keys_within(members, &names) && number_under(result, "expires_at")
        && text_under(result, "issuer", 4_096) && text_under(
        result,
        "authorization_endpoint",
        4_096,
    ) && text_under(result, "client_id", 4_096) && text_under(result, "resource", 4_096)
}

/// Whether the result of a test is what it may be.
fn test_result(members: &Vec<Member>, result: &Json) -> (r: bool)
    ensures
        r == is_test_result(members@, *result),
{
    let names: [&str; 3] = ["protocol_version", "checked_at", "duration_ms"];
    assert(names@ =~= seq!["protocol_version", "checked_at", "duration_ms"]);
    members.len() == 3 && keys_within(members, &names) && text_under(
        result,
        "protocol_version",
        64,
    ) && number_under(result, "checked_at") && duration_given(result)
}

/// Whether the result of a discovery is what it may be.
fn discovery_result(
    members: &Vec<Member>,
    result: &Json,
    encoded_bytes: Option<usize>,
) -> (r: bool)
    ensures
        r == is_discovery_result(members@, *result, crate::json::length_view(encoded_bytes)),
{
    let names: [&str; 2] = ["protocol_version", "document"];
    assert(names@ =~= seq!["protocol_version", "document"]);
    let small: bool = match encoded_bytes {
        Some(bytes) => bytes <= MAX_DISCOVERY_BYTES,
        None => false,
    };
    members.len() == 2 && keys_within(members, &names) && text_under(
        result,
        "protocol_version",
        64,
    ) && document_given(result) && small
}

/// Refuses a result that may not be stored and replayed. `described` is the identity of the
/// registration that the result reads as, if it reads as one, and `encoded_bytes` the length of
/// the result's written form, if it has one.
pub fn validate_measured_result(
    operation: &str,
    tenant_id: Uuid,
    principal_id: Uuid,
    registration_id: Uuid,
    result: &Json,
    described: Option<RegistrationIdentity>,
    encoded_bytes: Option<usize>,
) -> (r: Result<(), DatabaseError>)
    ensures
        r == safe_result_verdict(
            operation@,
            RegistrationIdentity {
                tenant_id,
                owner_principal_id: principal_id,
                id: registration_id,
            },
            *result,
            described,
            crate::json::length_view(encoded_bytes),
        ),
{
    let expected: RegistrationIdentity = RegistrationIdentity {
        tenant_id,
        owner_principal_id: principal_id,
        id: registration_id,
    };
    let safe: bool = match result {
        Json::Object(members) => {
            if text_eq(operation, "registration_configure") || text_eq(
                operation,
                "credential_erase",
            ) {
                described == Some(expected)
            } else if text_eq(operation, "credential_replace") {
                let names: [&str; 2] = ["revision", "credential_generation"];
                assert(names@ =~= seq!["revision", "credential_generation"]);
                members.len() == 2 && keys_within(members, &names) && result.get(
                    "revision",
                ).is_some() && result.get("credential_generation").is_some() && values_positive(
                    members,
                )
            } else if text_eq(operation, "oauth_begin") {
                oauth_result(members, result)
            } else if text_eq(operation, "test") {
                test_result(members, result)
            } else if text_eq(operation, "discover") {
                discovery_result(members, result, encoded_bytes)
            } else {
                false
            }
        },
        _ => false,
    };
    if safe {
        Ok(())
    } else {
        Err(DatabaseError::InvalidPersistedValue)
    }
}

/// Refuses a result that may not be stored and replayed. `described` is the identity of the
/// registration that the result reads as, if it reads as one.
pub fn validate_safe_result(
    operation: &str,
    tenant_id: Uuid,
    principal_id: Uuid,
    registration_id: Uuid,
    result: &Json,
    described: Option<RegistrationIdentity>,
) -> (r: Result<(), DatabaseError>)
    ensures
        r == safe_result_verdict(
            operation@,
            RegistrationIdentity {
                tenant_id,
                owner_principal_id: principal_id,
                id: registration_id,
            },
            *result,
            described,
            crate::json::written_length(*result),
        ),
{
    let encoded_bytes: Option<usize> = if text_eq(operation, "discover") {
        encoded_length(result)
    } else {
        None
    };
    validate_measured_result(
        operation,
        tenant_id,
        principal_id,
        registration_id,
        result,
        described,
        encoded_bytes,
    )
}

/// No member of a stored OAuth result has any other name than the five that it may have: what
/// could open a session is never stored.
pub proof fn oauth_results_hold_no_bearer_material(
    expected: RegistrationIdentity,
    members: Vec<Member>,
    described: Option<RegistrationIdentity>,
    encoded_bytes: Option<nat>,
    at: int,
)
    requires
        is_safe_result("oauth_begin"@, expected, Json::Object(members), described, encoded_bytes),
        0 <= at < members@.len(),
    ensures
        members@[at].key@ == "issuer"@ || members@[at].key@ == "authorization_endpoint"@
            || members@[at].key@ == "client_id"@ || members@[at].key@ == "resource"@
            || members@[at].key@ == "expires_at"@,
{
    reveal_strlit("oauth_begin");
    reveal_strlit("registration_configure");
    reveal_strlit("credential_erase");
    reveal_strlit("credential_replace");
    assert("oauth_begin"@.len() == 11);
    assert("registration_configure"@.len() == 22);
    assert("credential_erase"@.len() == 16);
    assert("credential_replace"@.len() == 18);
    let names = seq!["issuer", "authorization_endpoint", "client_id", "resource", "expires_at"];
    let texts = crate::acl::texts(names);
    assert(texts.contains(members@[at].key@));
    let k = texts.index_of(members@[at].key@);
    assert(texts[k] == names[k]@);
}

impl Database {

    /// Whether a broker operation starts: its identifier is new, or free again.
    pub open spec fn broker_operation_starts(
        input: &McpBrokerOperationIdempotency<'_>,
        log: Seq<Reply>,
    ) -> bool {
        let inserted = log[1].row_count()->Ok_0;
        let receipt = log[2].single_row::<BrokerReceipt>()->Ok_0;
        ||| receipt.expired && receipt.api_completed
        ||| receipt.is_of(input) && inserted == 1
    }

    /// What stops `mcp_begin_broker_operation`, in order.
    pub open spec fn mcp_begin_broker_operation_fault<'a>(
        input: &'a McpBrokerOperationIdempotency<'a>,
        log: Seq<Reply>,
    ) -> Option<Fault> {
        let inserted = log[1].row_count()->Ok_0;
        let receipt = log[2].single_row::<BrokerReceipt>()->Ok_0;
        if operation_verdict(input.operation@) is Err {
            Some(Fault::Error(operation_verdict(input.operation@)->Err_0))
        } else if log.len() > 1 && log[1].row_count() is Err {
            Fault::of(log[1].row_count())
        } else if log.len() > 2 && log[2].single_row::<BrokerReceipt>() is Err {
            Fault::of(log[2].single_row::<BrokerReceipt>())
        } else if log.len() > 2 && receipt.expired && receipt.api_completed {
            None
        } else if log.len() > 2 && !receipt.is_of(input) {
            None
        } else if log.len() > 2 && inserted == 1 {
            None
        } else if log.len() > 2 && receipt.result is None {
            Some(Fault::Error(DatabaseError::Conflict))
        } else {
            None
        }
    }

    /// The commands of `mcp_begin_broker_operation`, in order.
    pub open spec fn mcp_begin_broker_operation_script<'a>(
        input: &'a McpBrokerOperationIdempotency<'a>,
        log: Seq<Reply>,
    ) -> Seq<CommandView<'a>> {
        let inserted = log[1].row_count()->Ok_0;
        let receipt = log[2].single_row::<BrokerReceipt>()->Ok_0;
        seq![
            CommandView::Begin,
            CommandView::execute(
                sql::BEGIN_BROKER_OPERATION_INSERT_BROKER_OPERATION_RECEIPTS,
                seq![
                    Param::Id(input.tenant_id), Param::Id(input.principal_id),
                    Param::Id(input.registration_id), Param::Text(input.operation),
                    Param::Id(input.operation_id), Param::Digest(input.request_fingerprint),
                ],
            ),
            CommandView::one(
                sql::BEGIN_BROKER_OPERATION_SELECT_BROKER_OPERATION_RECEIPTS,
                seq![
                    Param::Id(input.tenant_id), Param::Id(input.principal_id),
                    Param::Id(input.operation_id),
                ],
            ),
        ].add(
            if receipt.expired && receipt.api_completed {
                seq![
                    CommandView::execute(
                        sql::BEGIN_BROKER_OPERATION_UPDATE_BROKER_OPERATION_RECEIPTS,
                        seq![
                            Param::Id(input.tenant_id), Param::Id(input.principal_id),
                            Param::Id(input.operation_id), Param::Id(input.registration_id),
                            Param::Text(input.operation), Param::Digest(input.request_fingerprint),
                        ],
                    ),
                ]
            } else {
                if !receipt.is_of(input) {
                    seq![CommandView::Commit]
                } else {
                    if inserted == 1 {
                        Seq::<CommandView<'a>>::empty()
                    } else {
                        seq![CommandView::Commit]
                    }
                }
            },
        )
    }

    /// What `mcp_begin_broker_operation` returns.
    pub open spec fn mcp_begin_broker_operation_output<'a>(
        input: &'a McpBrokerOperationIdempotency<'a>,
        log: Seq<Reply>,
    ) -> McpBrokerOperationStartView {
        let inserted = log[1].row_count()->Ok_0;
        let receipt = log[2].single_row::<BrokerReceipt>()->Ok_0;
        if receipt.expired && receipt.api_completed {
            McpBrokerOperationStartView::Started(input.started_spec())
        } else {
            if !receipt.is_of(input) {
                McpBrokerOperationStartView::KeyReused
            } else {
                if inserted == 1 {
                    McpBrokerOperationStartView::Started(input.started_spec())
                } else {
                    McpBrokerOperationStartView::Replayed(receipt.result->0)
                }
            }
        }
    }

    /// Begins a broker operation, unless its identifier was used before. An identifier is free
    /// again once its receipt has expired and its result has been applied.
    pub fn mcp_begin_broker_operation<'a>(
        input: &'a McpBrokerOperationIdempotency<'a>,
        log: &'a [Reply],
    ) -> (step: Step<'a, McpBrokerOperationStart>)
        ensures
            step.deep() == StepView::proceed(
                Self::mcp_begin_broker_operation_fault(input, log@),
                Self::mcp_begin_broker_operation_script(input, log@),
                Self::mcp_begin_broker_operation_output(input, log@),
                log@,
            ),
    {
        let known: () = match validate_operation(input.operation) {
            Ok(value) => value,
            Err(error) => return Step::Fail(error),
        };
        if log.len() == 0 {
            return Step::Ask(Command::Begin);
        }
        if log.len() <= 1 {
            return ask_execute(
                sql::BEGIN_BROKER_OPERATION_INSERT_BROKER_OPERATION_RECEIPTS,
                vec![
                    Param::Id(input.tenant_id), Param::Id(input.principal_id),
                    Param::Id(input.registration_id), Param::Text(input.operation),
                    Param::Id(input.operation_id), Param::Digest(input.request_fingerprint),
                ],
            );
        }
        let inserted: u64 = match affected(&log[1]) {
            Ok(value) => value,
            Err(fault) => return stop_deep(fault),
        };
        if log.len() <= 2 {
            return ask_one(
                sql::BEGIN_BROKER_OPERATION_SELECT_BROKER_OPERATION_RECEIPTS,
                vec![
                    Param::Id(input.tenant_id), Param::Id(input.principal_id),
                    Param::Id(input.operation_id),
                ],
            );
        }
        let receipt: BrokerReceipt = match single::<BrokerReceipt>(&log[2]) {
            Ok(value) => value,
            Err(fault) => return stop_deep(fault),
        };
        if receipt.expired && receipt.api_completed {
            if log.len() <= 3 {
                return ask_execute(
                    sql::BEGIN_BROKER_OPERATION_UPDATE_BROKER_OPERATION_RECEIPTS,
                    vec![
                        Param::Id(input.tenant_id), Param::Id(input.principal_id),
                        Param::Id(input.operation_id), Param::Id(input.registration_id),
                        Param::Text(input.operation), Param::Digest(input.request_fingerprint),
                    ],
                );
            }
            return Step::Done(McpBrokerOperationStart::Started(input.started()));
        }
        if !receipt.belongs_to(input) {
            if log.len() <= 3 {
                return Step::Ask(Command::Commit);
            }
            return Step::Done(McpBrokerOperationStart::KeyReused);
        }
        if inserted == 1 {
            return Step::Done(McpBrokerOperationStart::Started(input.started()));
        }
        if receipt.result.is_none() {
            return Step::Fail(DatabaseError::Conflict);
        }
        if log.len() <= 3 {
            return Step::Ask(Command::Commit);
        }
        Step::Done(McpBrokerOperationStart::Replayed(receipt.result.unwrap()))
    }

    /// `mcp_begin_broker_operation` runs in one transaction: it is done once its commit is
    /// acknowledged, and when it fails, nothing was committed. An operation that starts leaves the
    /// transaction open for what follows.
    pub proof fn mcp_begin_broker_operation_is_atomic<'a>(
        input: &'a McpBrokerOperationIdempotency<'a>,
        log: Seq<Reply>,
    )
        ensures
            (!Self::broker_operation_starts(input, log)) ==> crate::step::is_atomic(
                Self::mcp_begin_broker_operation_script(input, log),
                0,
            ),
            !(!Self::broker_operation_starts(input, log))
                ==> crate::step::never_commits(Self::mcp_begin_broker_operation_script(input, log)),
            crate::step::commit_acknowledged(
                Self::mcp_begin_broker_operation_fault(input, log.drop_last()),
                Self::mcp_begin_broker_operation_script(input, log.drop_last()),
                log,
            ) ==> {
                &&& Self::mcp_begin_broker_operation_fault(input, log) is None
                &&& log.len() == Self::mcp_begin_broker_operation_script(input, log).len()
            },
    {
    }

    /// Every statement of `mcp_begin_broker_operation` is about its tenant.
    pub proof fn mcp_begin_broker_operation_is_scoped<'a>(
        input: &'a McpBrokerOperationIdempotency<'a>,
        log: Seq<Reply>,
    )
        ensures
            crate::step::is_scoped(
                Self::mcp_begin_broker_operation_script(input, log),
                input.tenant_id,
            ),
    {
    }

    /// What stops `purge_mcp_broker_operation_receipts`, in order.
    pub open spec fn purge_mcp_broker_operation_receipts_fault(
        limit: i64,
        log: Seq<Reply>,
    ) -> Option<Fault> {
        if limit < 1 || limit > 1_000 {
            Some(Fault::Error(DatabaseError::InvalidPersistedValue))
        } else if log.len() > 0 && log[0].row_count() is Err {
            Fault::of(log[0].row_count())
        } else {
            None
        }
    }

    /// The commands of `purge_mcp_broker_operation_receipts`, in order.
    pub open spec fn purge_mcp_broker_operation_receipts_script<'a>(
        tenant_id: Uuid, limit: i64, log: Seq<Reply>,
    ) -> Seq<CommandView<'a>> {
        seq![
            CommandView::execute(
                sql::PURGE_MCP_BROKER_OPERATION_RECEIPTS,
                seq![Param::Id(tenant_id), Param::I64(limit)],
            ),
        ]
    }

    /// What `purge_mcp_broker_operation_receipts` returns.
    pub open spec fn purge_mcp_broker_operation_receipts_output(log: Seq<Reply>) -> u64 {
        let removed = log[0].row_count()->Ok_0;
        removed
    }

    /// Removes receipts whose results have been applied and which have expired; returns how many.
    pub fn purge_mcp_broker_operation_receipts<'a>(
        tenant_id: Uuid, limit: i64, log: &'a [Reply],
    ) -> (step: Step<'a, u64>)
        ensures
            step@ == StepView::proceed(
                Self::purge_mcp_broker_operation_receipts_fault(limit, log@),
                Self::purge_mcp_broker_operation_receipts_script(tenant_id, limit, log@),
                Self::purge_mcp_broker_operation_receipts_output(log@),
                log@,
            ),
    {
        if limit < 1 || limit > 1_000 {
            return Step::Fail(DatabaseError::InvalidPersistedValue);
        }
        if log.len() == 0 {
            return ask_execute(
                sql::PURGE_MCP_BROKER_OPERATION_RECEIPTS,
                vec![Param::Id(tenant_id), Param::I64(limit)],
            );
        }
        let removed: u64 = match affected(&log[0]) {
            Ok(value) => value,
            Err(fault) => return stop(fault),
        };
        Step::Done(removed)
    }

    /// Every statement of `purge_mcp_broker_operation_receipts` is about its tenant.
    pub proof fn purge_mcp_broker_operation_receipts_is_scoped(
        tenant_id: Uuid, limit: i64, log: Seq<Reply>,
    )
        ensures
            crate::step::is_scoped(
                Self::purge_mcp_broker_operation_receipts_script(tenant_id, limit, log),
                tenant_id,
            ),
    {
    }

}

impl McpBrokerOperationTransaction {
    /// Whether the operation is on this registration of this owner.
    pub open spec fn is_on(
        &self,
        tenant_id: Uuid,
        principal_id: Uuid,
        registration_id: Uuid,
    ) -> bool {
        self.tenant_id == tenant_id && self.principal_id == principal_id && self.registration_id
            == registration_id
    }

    /// Whether the operation is on this registration of this owner.
    pub fn concerns(&self, tenant_id: Uuid, principal_id: Uuid, registration_id: Uuid) -> (r: bool)
        ensures
            r == self.is_on(tenant_id, principal_id, registration_id),
    {
        self.tenant_id == tenant_id && self.principal_id == principal_id && self.registration_id
            == registration_id
    }

    /// What stops `configure_registration`, in order.
    pub open spec fn configure_registration_fault<'a>(
        &'a self,
        input: &'a RegistrationConfigurationUpdate<'a>,
        log: Seq<Reply>,
    ) -> Option<Fault> {
        if !self.is_on(input.tenant_id, input.owner_principal_id, input.registration_id) {
            Some(Fault::Error(DatabaseError::InvalidPersistedValue))
        } else if self.operation@ != "registration_configure"@ {
            Some(Fault::Error(DatabaseError::InvalidPersistedValue))
        } else if !input.is_valid() {
            Some(Fault::Error(DatabaseError::InvalidPersistedValue))
        } else if log.len() > 1 && log[1].single_row::<McpRegistrationRecord>() is Err {
            Fault::of(log[1].single_row::<McpRegistrationRecord>())
        } else {
            None
        }
    }

    /// The commands of `configure_registration`, in order.
    pub open spec fn configure_registration_script<'a>(
        input: &'a RegistrationConfigurationUpdate<'a>,
        log: Seq<Reply>,
    ) -> Seq<CommandView<'a>> {
        seq![
            CommandView::execute(
                sql::REPLACE_REGISTRATION_CONFIGURATION_AND_ERASE_SELECT_VALUE,
                seq![
                    Param::Id(input.tenant_id), Param::Id(input.registration_id),
                    Param::Id(input.owner_principal_id), Param::I64(input.expected_revision),
                    Param::Text(input.display_name), Param::Text(input.description),
                    Param::OptText(input.endpoint_uri), Param::OptText(input.trust_profile),
                    Param::OptText(input.catalog_entry), Param::Json(input.policy),
                ],
            ),
            CommandView::one(
                sql::REPLACE_REGISTRATION_CONFIGURATION_AND_ERASE_SELECT_REGISTRATIONS,
                seq![
                    Param::Id(input.tenant_id), Param::Id(input.registration_id),
                    Param::Id(input.owner_principal_id),
                ],
            ),
        ]
    }

    /// What `configure_registration` returns.
    pub open spec fn configure_registration_output(log: Seq<Reply>) -> McpRegistrationRecord {
        let registration = log[1].single_row::<McpRegistrationRecord>()->Ok_0;
        registration
    }

    /// Replaces the registration's configuration and erases its credentials with it.
    pub fn configure_registration<'a>(
        &'a self,
        input: &'a RegistrationConfigurationUpdate<'a>,
        log: &'a [Reply],
    ) -> (step: Step<'a, McpRegistrationRecord>)
        ensures
            step@ == StepView::proceed(
                Self::configure_registration_fault(self, input, log@),
                Self::configure_registration_script(input, log@),
                Self::configure_registration_output(log@),
                log@,
            ),
    {
        if !self.concerns(input.tenant_id, input.owner_principal_id, input.registration_id) {
            return Step::Fail(DatabaseError::InvalidPersistedValue);
        }
        if !text_eq(self.operation.as_str(), "registration_configure") {
            return Step::Fail(DatabaseError::InvalidPersistedValue);
        }
        if !input.valid() {
            return Step::Fail(DatabaseError::InvalidPersistedValue);
        }
        if log.len() == 0 {
            return ask_execute(
                sql::REPLACE_REGISTRATION_CONFIGURATION_AND_ERASE_SELECT_VALUE,
                vec![
                    Param::Id(input.tenant_id), Param::Id(input.registration_id),
                    Param::Id(input.owner_principal_id), Param::I64(input.expected_revision),
                    Param::Text(input.display_name), Param::Text(input.description),
                    Param::OptText(input.endpoint_uri), Param::OptText(input.trust_profile),
                    Param::OptText(input.catalog_entry), Param::Json(input.policy),
                ],
            );
        }
        if log.len() <= 1 {
            return ask_one(
                sql::REPLACE_REGISTRATION_CONFIGURATION_AND_ERASE_SELECT_REGISTRATIONS,
                vec![
                    Param::Id(input.tenant_id), Param::Id(input.registration_id),
                    Param::Id(input.owner_principal_id),
                ],
            );
        }
        let registration: McpRegistrationRecord = match single::<McpRegistrationRecord>(&log[1]) {
            Ok(value) => value,
            Err(fault) => return stop(fault),
        };
        Step::Done(registration)
    }

    /// Every statement of `configure_registration` is about its tenant.
    pub proof fn configure_registration_is_scoped<'a>(
        &'a self,
        input: &'a RegistrationConfigurationUpdate<'a>,
        log: Seq<Reply>,
    )
        ensures
            Self::configure_registration_fault(self, input, log) is None
                ==> crate::step::is_scoped(
                    Self::configure_registration_script(input, log),
                    self.tenant_id,
                ),
    {
    }

    /// What stops `replace_registration_secret`, in order.
    pub open spec fn replace_registration_secret_fault<'a>(
        &'a self, envelope: &'a McpSecretEnvelope, log: Seq<Reply>,
    ) -> Option<Fault> {
        let current = log[0].required_row::<i64>(DatabaseError::NotFound)->Ok_0;
        if !self.is_on(envelope.tenant_id, envelope.owner_principal_id, envelope.registration_id) {
            Some(Fault::Error(DatabaseError::InvalidPersistedValue))
        } else if self.operation@ != "credential_replace"@ {
            Some(Fault::Error(DatabaseError::InvalidPersistedValue))
        } else if crate::mcp::secret::envelope_verdict(*envelope) is Err {
            Some(Fault::Error(crate::mcp::secret::envelope_verdict(*envelope)->Err_0))
        } else if log.len() > 0 && log[0].required_row::<i64>(DatabaseError::NotFound) is Err {
            Fault::of(log[0].required_row::<i64>(DatabaseError::NotFound))
        } else if log.len() > 0
            && !crate::mcp::secret::follows(envelope.credential_generation, current) {
            Some(Fault::Error(DatabaseError::StaleGeneration))
        } else if log.len() > 3
            && log[3].required_row::<McpCredentialMetadata>(DatabaseError::StaleGeneration) is Err {
            Fault::of(log[3].required_row::<McpCredentialMetadata>(DatabaseError::StaleGeneration))
        } else if log.len() > 4 && log[4].one_affected(DatabaseError::StaleGeneration) is Err {
            Fault::of(log[4].one_affected(DatabaseError::StaleGeneration))
        } else {
            None
        }
    }

    /// The commands of `replace_registration_secret`, in order.
    pub open spec fn replace_registration_secret_script<'a>(
        envelope: &'a McpSecretEnvelope,
        log: Seq<Reply>,
    ) -> Seq<CommandView<'a>> {
        seq![
            CommandView::optional(
                sql::REPLACE_REGISTRATION_SECRET_SELECT_REGISTRATIONS,
                seq![
                    Param::Id(envelope.tenant_id), Param::Id(envelope.registration_id),
                    Param::Id(envelope.owner_principal_id),
                ],
            ),
            CommandView::execute(
                sql::REPLACE_REGISTRATION_SECRET_DELETE_OAUTH_ATTEMPTS,
                seq![
                    Param::Id(envelope.tenant_id), Param::Id(envelope.registration_id),
                    Param::Id(envelope.owner_principal_id),
                ],
            ),
            CommandView::execute(
                sql::REPLACE_REGISTRATION_SECRET_DELETE_SECRET_ENVELOPES,
                seq![
                    Param::Id(envelope.tenant_id), Param::Id(envelope.registration_id),
                    Param::Id(envelope.owner_principal_id),
                ],
            ),
            CommandView::optional(
                sql::REPLACE_REGISTRATION_SECRET_INSERT_SECRET_ENVELOPES,
                seq![
                    Param::Id(envelope.tenant_id), Param::Id(envelope.registration_id),
                    Param::Id(envelope.owner_principal_id), Param::Owned(envelope.issuer),
                    Param::Owned(envelope.secret_kind),
                    Param::I64(envelope.credential_generation),
                    Param::Blob(envelope.ciphertext), Param::Blob(envelope.nonce),
                    Param::Blob(envelope.wrapped_dek), Param::Blob(envelope.wrap_nonce),
                    Param::I32(envelope.kek_generation), Param::I32(envelope.aad_version),
                ],
            ),
            CommandView::execute(
                sql::REPLACE_REGISTRATION_SECRET_UPDATE_REGISTRATIONS,
                seq![
                    Param::Id(envelope.tenant_id), Param::Id(envelope.registration_id),
                    Param::Id(envelope.owner_principal_id),
                    Param::I64(envelope.credential_generation),
                    if crate::mcp::secret::is_oauth_spec(envelope.secret_kind@) {
                        Param::Text("oauth")
                    } else { Param::Owned(envelope.secret_kind) },
                ],
            ),
        ]
    }

    /// What `replace_registration_secret` returns.
    pub open spec fn replace_registration_secret_output(log: Seq<Reply>) -> McpCredentialMetadata {
        let metadata =
            log[3].required_row::<McpCredentialMetadata>(DatabaseError::StaleGeneration)->Ok_0;
        metadata
    }

    /// Replaces all credentials of the registration by one of the next generation.
    pub fn replace_registration_secret<'a>(
        &'a self, envelope: &'a McpSecretEnvelope, log: &'a [Reply],
    ) -> (step: Step<'a, McpCredentialMetadata>)
        ensures
            step@ == StepView::proceed(
                Self::replace_registration_secret_fault(self, envelope, log@),
                Self::replace_registration_secret_script(envelope, log@),
                Self::replace_registration_secret_output(log@),
                log@,
            ),
    {
        if !self.concerns(
            envelope.tenant_id, envelope.owner_principal_id, envelope.registration_id,
        ) {
            return Step::Fail(DatabaseError::InvalidPersistedValue);
        }
        if !text_eq(self.operation.as_str(), "credential_replace") {
            return Step::Fail(DatabaseError::InvalidPersistedValue);
        }
        let shape: () = match validate_secret_envelope(envelope) {
            Ok(value) => value,
            Err(error) => return Step::Fail(error),
        };
        if log.len() == 0 {
            return ask_optional(
                sql::REPLACE_REGISTRATION_SECRET_SELECT_REGISTRATIONS,
                vec![
                    Param::Id(envelope.tenant_id), Param::Id(envelope.registration_id),
                    Param::Id(envelope.owner_principal_id),
                ],
            );
        }
        let current: i64 = match required::<i64>(&log[0], DatabaseError::NotFound) {
            Ok(value) => value,
            Err(fault) => return stop(fault),
        };
        if !does_follow(envelope.credential_generation, current) {
            return Step::Fail(DatabaseError::StaleGeneration);
        }
        if log.len() <= 1 {
            return ask_execute(
                sql::REPLACE_REGISTRATION_SECRET_DELETE_OAUTH_ATTEMPTS,
                vec![
                    Param::Id(envelope.tenant_id), Param::Id(envelope.registration_id),
                    Param::Id(envelope.owner_principal_id),
                ],
            );
        }
        if log.len() <= 2 {
            return ask_execute(
                sql::REPLACE_REGISTRATION_SECRET_DELETE_SECRET_ENVELOPES,
                vec![
                    Param::Id(envelope.tenant_id), Param::Id(envelope.registration_id),
                    Param::Id(envelope.owner_principal_id),
                ],
            );
        }
        if log.len() <= 3 {
            return ask_optional(
                sql::REPLACE_REGISTRATION_SECRET_INSERT_SECRET_ENVELOPES,
                vec![
                    Param::Id(envelope.tenant_id), Param::Id(envelope.registration_id),
                    Param::Id(envelope.owner_principal_id),
                    Param::Owned(envelope.issuer.clone()),
                    Param::Owned(envelope.secret_kind.clone()),
                    Param::I64(envelope.credential_generation),
                    Param::Blob(envelope.ciphertext.clone()),
                    Param::Blob(envelope.nonce.clone()),
                    Param::Blob(envelope.wrapped_dek.clone()),
                    Param::Blob(envelope.wrap_nonce.clone()),
                    Param::I32(envelope.kek_generation), Param::I32(envelope.aad_version),
                ],
            );
        }
        let metadata: McpCredentialMetadata = match required(
            &log[3],
            DatabaseError::StaleGeneration,
        ) {
            Ok(value) => value,
            Err(fault) => return stop(fault),
        };
        if log.len() <= 4 {
            return ask_execute(
                sql::REPLACE_REGISTRATION_SECRET_UPDATE_REGISTRATIONS,
                vec![
                    Param::Id(envelope.tenant_id), Param::Id(envelope.registration_id),
                    Param::Id(envelope.owner_principal_id),
                    Param::I64(envelope.credential_generation),
                    if is_oauth(envelope.secret_kind.as_str()) { Param::Text("oauth") } else {
                        Param::Owned(envelope.secret_kind.clone())
                    },
                ],
            );
        }
        if let Err(fault) = exactly_one(&log[4], DatabaseError::StaleGeneration) {
            return stop(fault);
        }
        Step::Done(metadata)
    }

    /// Every statement of `replace_registration_secret` is about its tenant.
    pub proof fn replace_registration_secret_is_scoped<'a>(
        &'a self, envelope: &'a McpSecretEnvelope, log: Seq<Reply>,
    )
        ensures
            Self::replace_registration_secret_fault(self, envelope, log) is None
                ==> crate::step::is_scoped(
                    Self::replace_registration_secret_script(envelope, log),
                    self.tenant_id,
                ),
    {
    }

    /// What stops `erase_registration_at_revision`, in order.
    pub open spec fn erase_registration_at_revision_fault<'a>(
        &'a self,
        log: Seq<Reply>,
    ) -> Option<Fault> {
        if self.operation@ != "credential_erase"@ {
            Some(Fault::Error(DatabaseError::InvalidPersistedValue))
        } else if log.len() > 0 && log[0].required_row::<i64>(DatabaseError::Conflict) is Err {
            Fault::of(log[0].required_row::<i64>(DatabaseError::Conflict))
        } else if log.len() > 3
            && log[3].required_row::<McpRegistrationRecord>(DatabaseError::NotFound) is Err {
            Fault::of(log[3].required_row::<McpRegistrationRecord>(DatabaseError::NotFound))
        } else {
            None
        }
    }

    /// The commands of `erase_registration_at_revision`, in order.
    pub open spec fn erase_registration_at_revision_script<'a>(
        &'a self, expected_revision: i64, log: Seq<Reply>,
    ) -> Seq<CommandView<'a>> {
        seq![
            CommandView::optional(
                sql::CRYPTOGRAPHICALLY_ERASE_REGISTRATION_AT_REVISION_SELECT_REGISTRATIONS,
                seq![
                    Param::Id(self.tenant_id), Param::Id(self.registration_id),
                    Param::Id(self.principal_id), Param::I64(expected_revision),
                ],
            ),
            CommandView::execute(
                sql::REPLACE_REGISTRATION_SECRET_DELETE_OAUTH_ATTEMPTS,
                seq![
                    Param::Id(self.tenant_id), Param::Id(self.registration_id),
                    Param::Id(self.principal_id),
                ],
            ),
            CommandView::execute(
                sql::REPLACE_REGISTRATION_SECRET_DELETE_SECRET_ENVELOPES,
                seq![
                    Param::Id(self.tenant_id), Param::Id(self.registration_id),
                    Param::Id(self.principal_id),
                ],
            ),
            CommandView::optional(
                sql::CRYPTOGRAPHICALLY_ERASE_REGISTRATION_AT_REVISION_UPDATE_REGISTRATIONS,
                seq![
                    Param::Id(self.tenant_id), Param::Id(self.registration_id),
                    Param::Id(self.principal_id), Param::I64(expected_revision),
                ],
            ),
        ]
    }

    /// What `erase_registration_at_revision` returns.
    pub open spec fn erase_registration_at_revision_output(
        log: Seq<Reply>,
    ) -> McpRegistrationRecord {
        let registration =
            log[3].required_row::<McpRegistrationRecord>(DatabaseError::NotFound)->Ok_0;
        registration
    }

    /// Erases the credentials of the registration, which is still at the expected revision.
    pub fn erase_registration_at_revision<'a>(
        &'a self, expected_revision: i64, log: &'a [Reply],
    ) -> (step: Step<'a, McpRegistrationRecord>)
        ensures
            step@ == StepView::proceed(
                Self::erase_registration_at_revision_fault(self, log@),
                Self::erase_registration_at_revision_script(self, expected_revision, log@),
                Self::erase_registration_at_revision_output(log@),
                log@,
            ),
    {
        if !text_eq(self.operation.as_str(), "credential_erase") {
            return Step::Fail(DatabaseError::InvalidPersistedValue);
        }
        if log.len() == 0 {
            return ask_optional(
                sql::CRYPTOGRAPHICALLY_ERASE_REGISTRATION_AT_REVISION_SELECT_REGISTRATIONS,
                vec![
                    Param::Id(self.tenant_id), Param::Id(self.registration_id),
                    Param::Id(self.principal_id), Param::I64(expected_revision),
                ],
            );
        }
        let generation: i64 = match required::<i64>(&log[0], DatabaseError::Conflict) {
            Ok(value) => value,
            Err(fault) => return stop(fault),
        };
        if log.len() <= 1 {
            return ask_execute(
                sql::REPLACE_REGISTRATION_SECRET_DELETE_OAUTH_ATTEMPTS,
                vec![
                    Param::Id(self.tenant_id), Param::Id(self.registration_id),
                    Param::Id(self.principal_id),
                ],
            );
        }
        if log.len() <= 2 {
            return ask_execute(
                sql::REPLACE_REGISTRATION_SECRET_DELETE_SECRET_ENVELOPES,
                vec![
                    Param::Id(self.tenant_id), Param::Id(self.registration_id),
                    Param::Id(self.principal_id),
                ],
            );
        }
        if log.len() <= 3 {
            return ask_optional(
                sql::CRYPTOGRAPHICALLY_ERASE_REGISTRATION_AT_REVISION_UPDATE_REGISTRATIONS,
                vec![
                    Param::Id(self.tenant_id), Param::Id(self.registration_id),
                    Param::Id(self.principal_id), Param::I64(expected_revision),
                ],
            );
        }
        let registration: McpRegistrationRecord = match required(&log[3], DatabaseError::NotFound) {
            Ok(value) => value,
            Err(fault) => return stop(fault),
        };
        Step::Done(registration)
    }

    /// Every statement of `erase_registration_at_revision` is about its tenant.
    pub proof fn erase_registration_at_revision_is_scoped<'a>(
        &'a self, expected_revision: i64, log: Seq<Reply>,
    )
        ensures
            crate::step::is_scoped(
                Self::erase_registration_at_revision_script(self, expected_revision, log),
                self.tenant_id,
            ),
    {
    }

    /// What stops `begin_oauth_attempt`, in order.
    pub open spec fn begin_oauth_attempt_fault<'a>(
        &'a self, input: &'a NewMcpOAuthAttempt<'a>, log: Seq<Reply>,
    ) -> Option<Fault> {
        if !self.is_on(input.tenant_id, input.owner_principal_id, input.registration_id) {
            Some(Fault::Error(DatabaseError::InvalidPersistedValue))
        } else if self.operation@ != "oauth_begin"@ {
            Some(Fault::Error(DatabaseError::InvalidPersistedValue))
        } else if !input.is_valid() {
            Some(Fault::Error(DatabaseError::InvalidPersistedValue))
        } else if log.len() > 0 && log[0].required_row::<i64>(DatabaseError::NotFound) is Err {
            Fault::of(log[0].required_row::<i64>(DatabaseError::NotFound))
        } else if log.len() > 1 && log[1].single_row::<i64>() is Err {
            Fault::of(log[1].single_row::<i64>())
        } else {
            None
        }
    }

    /// The commands of `begin_oauth_attempt`, in order.
    pub open spec fn begin_oauth_attempt_script<'a>(
        input: &'a NewMcpOAuthAttempt<'a>,
        log: Seq<Reply>,
    ) -> Seq<CommandView<'a>> {
        seq![
            CommandView::optional(
                sql::BEGIN_OAUTH_ATTEMPT_SELECT_REGISTRATIONS,
                seq![
                    Param::Id(input.tenant_id), Param::Id(input.registration_id),
                    Param::Id(input.owner_principal_id),
                    Param::I64(input.credential_generation),
                ],
            ),
            CommandView::one(
                sql::BEGIN_OAUTH_ATTEMPT_INSERT_OAUTH_ATTEMPTS,
                seq![
                    Param::Id(input.tenant_id), Param::Id(input.id),
                    Param::Id(input.registration_id), Param::Id(input.owner_principal_id),
                    Param::Id(input.session_id), Param::Bytes(input.state_digest),
                    Param::I64(input.credential_generation), Param::Text(input.issuer),
                    Param::Text(input.redirect_path),
                ],
            ),
            CommandView::execute(
                sql::BEGIN_OAUTH_ATTEMPT_INSERT_OAUTH_ATTEMPT_SECRETS,
                seq![
                    Param::Id(input.tenant_id), Param::Id(input.id),
                    Param::Id(input.registration_id), Param::Id(input.owner_principal_id),
                    Param::Bytes(input.ciphertext), Param::Nonce(input.nonce),
                    Param::Bytes(input.wrapped_dek), Param::Nonce(input.wrap_nonce),
                    Param::I32(input.kek_generation),
                ],
            ),
        ]
    }

    /// What `begin_oauth_attempt` returns.
    pub open spec fn begin_oauth_attempt_output(log: Seq<Reply>) -> i64 {
        let expires_at = log[1].single_row::<i64>()->Ok_0;
        expires_at
    }

    /// Opens an OAuth attempt for the registration, whose credentials have not moved on, and
    /// returns when it expires.
    pub fn begin_oauth_attempt<'a>(
        &'a self, input: &'a NewMcpOAuthAttempt<'a>, log: &'a [Reply],
    ) -> (step: Step<'a, i64>)
        ensures
            step@ == StepView::proceed(
                Self::begin_oauth_attempt_fault(self, input, log@),
                Self::begin_oauth_attempt_script(input, log@),
                Self::begin_oauth_attempt_output(log@),
                log@,
            ),
    {
        if !self.concerns(input.tenant_id, input.owner_principal_id, input.registration_id) {
            return Step::Fail(DatabaseError::InvalidPersistedValue);
        }
        if !text_eq(self.operation.as_str(), "oauth_begin") {
            return Step::Fail(DatabaseError::InvalidPersistedValue);
        }
        if !input.valid() {
            return Step::Fail(DatabaseError::InvalidPersistedValue);
        }
        if log.len() == 0 {
            return ask_optional(
                sql::BEGIN_OAUTH_ATTEMPT_SELECT_REGISTRATIONS,
                vec![
                    Param::Id(input.tenant_id), Param::Id(input.registration_id),
                    Param::Id(input.owner_principal_id),
                    Param::I64(input.credential_generation),
                ],
            );
        }
        let generation: i64 = match required::<i64>(&log[0], DatabaseError::NotFound) {
            Ok(value) => value,
            Err(fault) => return stop(fault),
        };
        if log.len() <= 1 {
            return ask_one(
                sql::BEGIN_OAUTH_ATTEMPT_INSERT_OAUTH_ATTEMPTS,
                vec![
                    Param::Id(input.tenant_id), Param::Id(input.id),
                    Param::Id(input.registration_id), Param::Id(input.owner_principal_id),
                    Param::Id(input.session_id), Param::Bytes(input.state_digest),
                    Param::I64(input.credential_generation), Param::Text(input.issuer),
                    Param::Text(input.redirect_path),
                ],
            );
        }
        let expires_at: i64 = match single::<i64>(&log[1]) {
            Ok(value) => value,
            Err(fault) => return stop(fault),
        };
        if log.len() <= 2 {
            return ask_execute(
                sql::BEGIN_OAUTH_ATTEMPT_INSERT_OAUTH_ATTEMPT_SECRETS,
                vec![
                    Param::Id(input.tenant_id), Param::Id(input.id),
                    Param::Id(input.registration_id), Param::Id(input.owner_principal_id),
                    Param::Bytes(input.ciphertext), Param::Nonce(input.nonce),
                    Param::Bytes(input.wrapped_dek), Param::Nonce(input.wrap_nonce),
                    Param::I32(input.kek_generation),
                ],
            );
        }
        Step::Done(expires_at)
    }

    /// Every statement of `begin_oauth_attempt` is about its tenant.
    pub proof fn begin_oauth_attempt_is_scoped<'a>(
        &'a self, input: &'a NewMcpOAuthAttempt<'a>, log: Seq<Reply>,
    )
        ensures
            Self::begin_oauth_attempt_fault(self, input, log) is None
                ==> crate::step::is_scoped(
                    Self::begin_oauth_attempt_script(input, log),
                    self.tenant_id,
                ),
    {
    }

    /// What stops `finalize`, in order.
    pub open spec fn finalize_fault<'a>(
        &'a self, result: &'a Json, described: Option<RegistrationIdentity>,
        log: Seq<Reply>,
    ) -> Option<Fault> {
        if safe_result_verdict(
            self.operation@,
            RegistrationIdentity {
                tenant_id: self.tenant_id,
                owner_principal_id: self.principal_id,
                id: self.registration_id,
            },
            *result,
            described,
            crate::json::written_length(*result),
        ) is Err {
            Some(
                Fault::Error(
                    safe_result_verdict(
                        self.operation@,
                        RegistrationIdentity {
                            tenant_id: self.tenant_id,
                            owner_principal_id: self.principal_id,
                            id: self.registration_id,
                        },
                        *result,
                        described,
                        crate::json::written_length(*result),
                    )->Err_0,
                ),
            )
        } else if log.len() > 0 && log[0].one_affected(DatabaseError::Conflict) is Err {
            Fault::of(log[0].one_affected(DatabaseError::Conflict))
        } else {
            None
        }
    }

    /// The commands of `finalize`, in order.
    pub open spec fn finalize_script<'a>(
        &'a self, result: &'a Json, log: Seq<Reply>,
    ) -> Seq<CommandView<'a>> {
        seq![
            CommandView::execute(
                sql::FINALIZE,
                seq![
                    Param::Id(self.tenant_id), Param::Id(self.principal_id),
                    Param::Id(self.operation_id), Param::Id(self.registration_id),
                    Param::Owned(self.operation), Param::Digest(&self.request_fingerprint),
                    Param::Json(result),
                ],
            ),
            CommandView::Commit,
        ]
    }

    /// Puts the result on record, where it may be, and commits the operation. `described` is as
    /// in [`validate_safe_result`].
    pub fn finalize<'a>(
        &'a self, result: &'a Json, described: Option<RegistrationIdentity>,
        log: &'a [Reply],
    ) -> (step: Step<'a, ()>)
        ensures
            step@ == StepView::proceed(
                Self::finalize_fault(self, result, described, log@),
                Self::finalize_script(self, result, log@),
                (),
                log@,
            ),
    {
        let safe: () = match validate_safe_result(
            self.operation.as_str(), self.tenant_id, self.principal_id, self.registration_id,
            result, described,
        ) {
            Ok(value) => value,
            Err(error) => return Step::Fail(error),
        };
        if log.len() == 0 {
            return ask_execute(
                sql::FINALIZE,
                vec![
                    Param::Id(self.tenant_id), Param::Id(self.principal_id),
                    Param::Id(self.operation_id), Param::Id(self.registration_id),
                    Param::Owned(self.operation.clone()),
                    Param::Digest(&self.request_fingerprint), Param::Json(result),
                ],
            );
        }
        if let Err(fault) = exactly_one(&log[0], DatabaseError::Conflict) {
            return stop(fault);
        }
        if log.len() <= 1 {
            return Step::Ask(Command::Commit);
        }
        Step::Done(())
    }

    /// Every statement of `finalize` is about its tenant.
    pub proof fn finalize_is_scoped<'a>(
        &'a self, result: &'a Json, log: Seq<Reply>,
    )
        ensures
            crate::step::is_scoped(Self::finalize_script(self, result, log), self.tenant_id),
    {
    }

}

} // verus!
