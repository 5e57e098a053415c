//! Idempotent writes that create authority, and mutations that end with one response.

use std::sync::Arc;

use vstd::prelude::*;

use crate::database::Database;
use crate::error::DatabaseError;
use crate::error::Fault;
use crate::id::Uuid;
use crate::idempotency::IdempotencyReceipt;
use crate::idempotency::IdempotencyRecord;
use crate::idempotency::reservable;
use crate::json::Json;
use crate::mcp::capability::CapabilityPlan;
use crate::mcp::capability::plan;
use crate::mcp::grant::LockedGenerations;
use crate::mcp::grant::NewMcpDataGrant;
use crate::mcp::invocation::NewMcpApprovalRule;
use crate::mcp::invocation::known_primitive;
use crate::mcp::management::DeletedRegistration;
use crate::mcp::management::McpAdminBlockRuleRecord;
use crate::mcp::management::McpCapabilityReviewRecord;
use crate::mcp::management::McpCapabilitySnapshotRecord;
use crate::mcp::management::McpCapabilitySnapshotRecordView;
use crate::mcp::management::TemplateConfigurationUpdate;
use crate::mcp::management::service_update_is_valid;
use crate::mcp::management::validate_block_rule;
use crate::mcp::operations::McpManagedTemplateRecord;
use crate::mcp::operations::McpServicePrincipalRecord;
use crate::mcp::operations::NewMcpManagedTemplate;
use crate::mcp::operations::NewMcpServiceGrant;
use crate::mcp::operations::NewMcpServicePrincipal;
use crate::mcp::operations::known_subject_kind;
use crate::mcp::operations::valid_review;
use crate::mcp::operations::valid_spiffe_uri;
use crate::mcp::policy::RegistrationPolicyState;
use crate::mcp::policy::authentication_text;
use crate::mcp::policy::capability_text;
use crate::mcp::policy::quarantine_text;
use crate::mcp::policy::validation_text;
use crate::mcp::registration::McpRegistrationRecord;
use crate::mcp::registration::NewCapabilitySnapshot;
use crate::mcp::registration::NewMcpRegistration;
use crate::mcp::registration::discovered_state;
use crate::row::Reply;
use crate::row::affected;
use crate::row::each_exactly_one;
use crate::row::exactly_one;
use crate::row::many;
use crate::row::optional;
use crate::row::required;
use crate::row::single;
use crate::sql::catalog;
use crate::sql::mcp as sql;
use crate::step::Command;
use crate::step::CommandView;
use crate::step::ErrorRule;
use crate::step::Fetch;
use crate::step::Param;
use crate::step::Step;
use crate::step::StepView;
use crate::step::ask;
use crate::step::ask_all;
use crate::step::ask_execute;
use crate::step::ask_one;
use crate::step::ask_optional;
use crate::step::stop;
use crate::step::stop_deep;
use crate::text::bytes_eq;
use crate::text::owned_bytes;
use crate::text::text_eq;

verus! {

/// The key of a request, its fingerprint, and the response that it gets.
#[derive(Debug)]
pub struct McpIdempotency<'a> {
    pub principal_id: Uuid,
    pub route: &'a str,
    pub key: &'a str,
    pub request_fingerprint: &'a [u8; 32],
    pub response_status: i32,
    pub response_body: &'a Json,
}

impl<'a> McpIdempotency<'a> {
    /// Whether the request is by this principal and has a response with a status.
    pub open spec fn is_by(&self, principal_id: Uuid) -> bool {
        self.principal_id == principal_id && 100 <= self.response_status <= 599
    }

    /// Whether the request is by this principal and has a response with a status.
    pub fn made_by(&self, principal_id: Uuid) -> (r: bool)
        ensures
            r == self.is_by(principal_id),
    {
        self.principal_id == principal_id && 100 <= self.response_status && self.response_status
            <= 599
    }
}

/// What became of an idempotent write.
#[derive(Debug)]
pub enum McpIdempotentWrite {
    /// It was done, and this response is on record for it.
    Created(IdempotencyRecord),
    /// It was done before, and got this response.
    Replayed(IdempotencyRecord),
    /// Its key belongs to another request.
    KeyReused,
}

/// The key of a mutation whose response is not known yet.
#[derive(Debug)]
pub struct McpMutationIdempotency<'a> {
    pub tenant_id: Uuid,
    pub principal_id: Uuid,
    pub route: &'a str,
    pub key: &'a str,
    pub request_fingerprint: &'a [u8; 32],
    /// One other fingerprint that an unexpired receipt of the same request may have. What is
    /// stored is always `request_fingerprint`.
    pub legacy_request_fingerprint: Option<&'a [u8; 32]>,
}

#[derive(Debug)]
pub struct McpCapabilityDecision<'a> {
    pub fingerprint: &'a [u8; 32],
    pub decision: &'a str,
    pub constraints: &'a Json,
}

/// How a mutation begins.
#[derive(Debug)]
pub enum McpMutationStart {
    /// Its transaction is open.
    Started(McpMutationTransaction),
    /// It was done before, and got this response.
    Replayed(IdempotencyRecord),
    /// Its key belongs to another request.
    KeyReused,
}

/// A mutation whose transaction is open. Its operations run inside that transaction, which stays
/// open after each of them, also where one fails: [`McpMutationTransaction::finalize`] commits it,
/// and whoever gives the mutation up undoes it.
#[derive(Debug)]
pub struct McpMutationTransaction {
    pub tenant_id: Uuid,
    pub principal_id: Uuid,
    pub route: String,
    pub key: String,
    pub request_fingerprint: [u8; 32],
}

/// What an [`McpMutationTransaction`] holds.
#[verifier::ext_equal]
pub struct McpMutationTransactionView {
    pub tenant_id: Uuid,
    pub principal_id: Uuid,
    pub route: Seq<char>,
    pub key: Seq<char>,
    pub request_fingerprint: [u8; 32],
}

impl View for McpMutationTransaction {
    type V = McpMutationTransactionView;

    open spec fn view(&self) -> McpMutationTransactionView {
        McpMutationTransactionView {
            tenant_id: self.tenant_id,
            principal_id: self.principal_id,
            route: self.route@,
            key: self.key@,
            request_fingerprint: self.request_fingerprint,
        }
    }
}

/// What an [`McpMutationStart`] holds.
#[verifier::ext_equal]
pub enum McpMutationStartView {
    Started(McpMutationTransactionView),
    Replayed(IdempotencyRecord),
    KeyReused,
}

impl View for McpMutationStart {
    type V = McpMutationStartView;

    open spec fn view(&self) -> McpMutationStartView {
        match self {
            McpMutationStart::Started(mutation) => McpMutationStartView::Started(mutation@),
            McpMutationStart::Replayed(record) => McpMutationStartView::Replayed(*record),
            McpMutationStart::KeyReused => McpMutationStartView::KeyReused,
        }
    }
}

/// Whether the current snapshot, if there is one, is of the same document under the same
/// credentials.
pub open spec fn is_same_snapshot(
    current: Option<McpCapabilitySnapshotRecord>,
    credential_generation: i64,
    fingerprint: &[u8; 32],
) -> bool {
    current is Some && current->0.credential_generation == credential_generation
        && current->0.fingerprint@ == fingerprint@
}

/// Whether the current snapshot is of the same document under the same credentials.
pub fn same_snapshot(
    current: &Option<McpCapabilitySnapshotRecord>,
    credential_generation: i64,
    fingerprint: &[u8; 32],
) -> (r: bool)
    ensures
        r == is_same_snapshot(*current, credential_generation, fingerprint),
{
    match current {
        Some(current) => current.credential_generation == credential_generation && bytes_eq(
            current.fingerprint.as_slice(),
            fingerprint,
        ),
        None => false,
    }
}

/// Whether there are decisions, and each is a review.
pub open spec fn are_reviews(decisions: Seq<McpCapabilityDecision>) -> bool {
    &&& decisions.len() > 0
    &&& forall|i: int|
        0 <= i < decisions.len() ==> crate::mcp::operations::is_review(
            (#[trigger] decisions[i]).decision@,
            *decisions[i].constraints,
        )
}

/// Whether there are decisions, and each is a review.
pub fn valid_reviews(decisions: &[McpCapabilityDecision]) -> (r: bool)
    ensures
        r == are_reviews(decisions@),
{
    if decisions.len() == 0 {
        return false;
    }
    let mut at: usize = 0;
    while at < decisions.len()
        invariant
            at <= decisions@.len(),
            forall|i: int|
                0 <= i < at ==> crate::mcp::operations::is_review(
                    (#[trigger] decisions@[i]).decision@,
                    *decisions@[i].constraints,
                ),
        decreases decisions@.len() - at,
    {
        if !valid_review(decisions[at].decision, decisions[at].constraints) {
            assert(!crate::mcp::operations::is_review(
                decisions@[at as int].decision@,
                *decisions@[at as int].constraints,
            ));
            return false;
        }
        at = at + 1;
    }
    true
}

/// Whether a replacement identity, where there is one, is a SPIFFE identifier.
pub open spec fn is_replacement(identity: Option<(Uuid, &str)>) -> bool {
    identity is Some ==> crate::mcp::operations::is_spiffe_uri((identity->0).1@)
}

/// Whether a replacement identity, where there is one, is a SPIFFE identifier.
pub fn valid_replacement(identity: Option<(Uuid, &str)>) -> (r: bool)
    ensures
        r == is_replacement(identity),
{
    match identity {
        Some((_, uri)) => valid_spiffe_uri(uri),
        None => true,
    }
}

impl Database {

    /// What stops `mcp_begin_mutation`, in order.
    pub open spec fn mcp_begin_mutation_fault<'a>(
        idempotency: &'a McpMutationIdempotency<'a>,
        log: Seq<Reply>,
    ) -> Option<Fault> {
        if log.len() > 0
            && !crate::idempotency::is_reservable(idempotency.route@, idempotency.key@) {
            Some(Fault::Error(DatabaseError::InvalidPersistedValue))
        } else if log.len() > 1 && log[1].row_count() is Err {
            Fault::of(log[1].row_count())
        } else if log.len() > 2 && log[2].single_row::<IdempotencyReceipt>() is Err {
            Fault::of(log[2].single_row::<IdempotencyReceipt>())
        } else {
            None
        }
    }

    /// The commands of `mcp_begin_mutation`, in order.
    pub open spec fn mcp_begin_mutation_script<'a>(
        idempotency: &'a McpMutationIdempotency<'a>,
        log: Seq<Reply>,
    ) -> Seq<CommandView<'a>> {
        let inserted = log[1].row_count()->Ok_0;
        let receipt = log[2].single_row::<IdempotencyReceipt>()->Ok_0;
        let same = receipt.matches(
            idempotency.request_fingerprint,
            idempotency.legacy_request_fingerprint,
        );
        seq![
            CommandView::Begin,
            CommandView::execute(
                catalog::RESERVE_INSERT_IDEMPOTENCY_RECORDS,
                seq![
                    Param::Id(idempotency.tenant_id), Param::Id(idempotency.principal_id),
                    Param::Text(idempotency.route), Param::Text(idempotency.key),
                    Param::Digest(idempotency.request_fingerprint), Param::JsonNull,
                ],
            ),
            CommandView::one(
                catalog::RESERVE_SELECT_IDEMPOTENCY_RECORDS,
                seq![
                    Param::Id(idempotency.tenant_id), Param::Id(idempotency.principal_id),
                    Param::Text(idempotency.route), Param::Text(idempotency.key),
                ],
            ),
        ].add(
            if receipt.expired {
                seq![
                    CommandView::execute(
                        catalog::RESERVE_UPDATE_IDEMPOTENCY_RECORDS,
                        seq![
                            Param::Id(idempotency.tenant_id), Param::Id(idempotency.principal_id),
                            Param::Text(idempotency.route), Param::Text(idempotency.key),
                            Param::Digest(idempotency.request_fingerprint), Param::JsonNull,
                        ],
                    ),
                ]
            } else {
                Seq::empty()
            },
        ).add(
            if !receipt.expired && !same {
                seq![CommandView::Commit]
            } else {
                if !receipt.expired && inserted != 1 {
                    seq![CommandView::Commit]
                } else {
                    Seq::<CommandView<'a>>::empty()
                }
            },
        )
    }

    /// What `mcp_begin_mutation` returns.
    pub open spec fn mcp_begin_mutation_output<'a>(
        idempotency: &'a McpMutationIdempotency<'a>,
        log: Seq<Reply>,
    ) -> McpMutationStartView {
        let inserted = log[1].row_count()->Ok_0;
        let receipt = log[2].single_row::<IdempotencyReceipt>()->Ok_0;
        let same = receipt.matches(
            idempotency.request_fingerprint,
            idempotency.legacy_request_fingerprint,
        );
        if !receipt.expired && !same {
            McpMutationStartView::KeyReused
        } else {
            if !receipt.expired && inserted != 1 {
                McpMutationStartView::Replayed(receipt.record)
            } else {
                McpMutationStartView::Started(
                    McpMutationTransactionView {
                        tenant_id: idempotency.tenant_id,
                        principal_id: idempotency.principal_id,
                        route: idempotency.route@,
                        key: idempotency.key@,
                        request_fingerprint: *idempotency.request_fingerprint,
                    },
                )
            }
        }
    }

    /// Begins a mutation, unless its key was used before. A key that has expired is free again.
    pub fn mcp_begin_mutation<'a>(
        idempotency: &'a McpMutationIdempotency<'a>,
        log: &'a [Reply],
    ) -> (step: Step<'a, McpMutationStart>)
        ensures
            step.deep() == StepView::proceed(
                Self::mcp_begin_mutation_fault(idempotency, log@),
                Self::mcp_begin_mutation_script(idempotency, log@),
                Self::mcp_begin_mutation_output(idempotency, log@),
                log@,
            ),
    {
        if log.len() == 0 {
            return Step::Ask(Command::Begin);
        }
        if !reservable(idempotency.route, idempotency.key) {
            return Step::Fail(DatabaseError::InvalidPersistedValue);
        }
        if log.len() <= 1 {
            return ask_execute(
                catalog::RESERVE_INSERT_IDEMPOTENCY_RECORDS,
                vec![
                    Param::Id(idempotency.tenant_id), Param::Id(idempotency.principal_id),
                    Param::Text(idempotency.route), Param::Text(idempotency.key),
                    Param::Digest(idempotency.request_fingerprint), Param::JsonNull,
                ],
            );
        }
        let inserted: u64 = match affected(&log[1]) {
            Ok(value) => value,
            Err(fault) => return stop_deep(fault),
        };
        if log.len() <= 2 {
            return ask_one(
                catalog::RESERVE_SELECT_IDEMPOTENCY_RECORDS,
                vec![
                    Param::Id(idempotency.tenant_id), Param::Id(idempotency.principal_id),
                    Param::Text(idempotency.route), Param::Text(idempotency.key),
                ],
            );
        }
        let receipt: IdempotencyReceipt = match single::<IdempotencyReceipt>(&log[2]) {
            Ok(value) => value,
            Err(fault) => return stop_deep(fault),
        };
        if receipt.expired {
            if log.len() <= 3 {
                return ask_execute(
                    catalog::RESERVE_UPDATE_IDEMPOTENCY_RECORDS,
                    vec![
                        Param::Id(idempotency.tenant_id), Param::Id(idempotency.principal_id),
                        Param::Text(idempotency.route), Param::Text(idempotency.key),
                        Param::Digest(idempotency.request_fingerprint), Param::JsonNull,
                    ],
                );
            }
        }
        let at: usize = if receipt.expired {
            4
        } else {
            3
        };
        let same: bool = receipt.is_match(
            idempotency.request_fingerprint,
            idempotency.legacy_request_fingerprint,
        );
        if !receipt.expired && !same {
            if log.len() <= at {
                return Step::Ask(Command::Commit);
            }
            return Step::Done(McpMutationStart::KeyReused);
        }
        if !receipt.expired && inserted != 1 {
            if log.len() <= at {
                return Step::Ask(Command::Commit);
            }
            return Step::Done(McpMutationStart::Replayed(receipt.record));
        }
        Step::Done(
            McpMutationStart::Started(
                McpMutationTransaction {
                    tenant_id: idempotency.tenant_id,
                    principal_id: idempotency.principal_id,
                    route: idempotency.route.to_owned(),
                    key: idempotency.key.to_owned(),
                    request_fingerprint: *idempotency.request_fingerprint,
                },
            ),
        )
    }

    /// Every statement of `mcp_begin_mutation` is about its tenant.
    pub proof fn mcp_begin_mutation_is_scoped<'a>(
        idempotency: &'a McpMutationIdempotency<'a>,
        log: Seq<Reply>,
    )
        ensures
            crate::step::is_scoped(
                Self::mcp_begin_mutation_script(idempotency, log),
                idempotency.tenant_id,
            ),
    {
    }

    /// What stops `mcp_create_approval_rule_idempotent`, in order.
    pub open spec fn mcp_create_approval_rule_idempotent_fault<'a>(
        input: &'a NewMcpApprovalRule<'a>, idempotency: &'a McpIdempotency<'a>, log: Seq<Reply>,
    ) -> Option<Fault> {
        let inserted = log[1].row_count()->Ok_0;
        let receipt = log[2].single_row::<IdempotencyReceipt>()->Ok_0;
        let at = if receipt.expired {
            4int
        } else {
            3
        };
        let same = receipt.matches(idempotency.request_fingerprint, None);
        if !idempotency.is_by(input.principal_id) || !input.is_valid() {
            Some(Fault::Error(DatabaseError::InvalidPersistedValue))
        } else if log.len() > 0
            && !crate::idempotency::is_reservable(idempotency.route@, idempotency.key@) {
            Some(Fault::Error(DatabaseError::InvalidPersistedValue))
        } else if log.len() > 1 && log[1].row_count() is Err {
            Fault::of(log[1].row_count())
        } else if log.len() > 2 && log[2].single_row::<IdempotencyReceipt>() is Err {
            Fault::of(log[2].single_row::<IdempotencyReceipt>())
        } else if log.len() > at - 1 && !receipt.expired && !same {
            None
        } else if log.len() > at - 1 && !receipt.expired && inserted != 1 {
            None
        } else if log.len() > at && log[at].one_affected(DatabaseError::NotFound) is Err {
            Fault::of(log[at].one_affected(DatabaseError::NotFound))
        } else if log.len() > at && (idempotency.response_status < 100
                || idempotency.response_status > 599) {
            Some(Fault::Error(DatabaseError::InvalidPersistedValue))
        } else if log.len() > at + 1
            && log[at + 1].required_row::<IdempotencyRecord>(DatabaseError::Conflict) is Err {
            Fault::of(log[at + 1].required_row::<IdempotencyRecord>(DatabaseError::Conflict))
        } else {
            None
        }
    }

    /// The commands of `mcp_create_approval_rule_idempotent`, in order.
    pub open spec fn mcp_create_approval_rule_idempotent_script<'a>(
        input: &'a NewMcpApprovalRule<'a>, idempotency: &'a McpIdempotency<'a>, log: Seq<Reply>,
    ) -> Seq<CommandView<'a>> {
        let inserted = log[1].row_count()->Ok_0;
        let receipt = log[2].single_row::<IdempotencyReceipt>()->Ok_0;
        let same = receipt.matches(idempotency.request_fingerprint, None);
        seq![
            CommandView::Begin,
            CommandView::execute(
                catalog::RESERVE_INSERT_IDEMPOTENCY_RECORDS,
                seq![
                    Param::Id(input.tenant_id), Param::Id(idempotency.principal_id),
                    Param::Text(idempotency.route), Param::Text(idempotency.key),
                    Param::Digest(idempotency.request_fingerprint), Param::JsonNull,
                ],
            ),
            CommandView::one(
                catalog::RESERVE_SELECT_IDEMPOTENCY_RECORDS,
                seq![
                    Param::Id(input.tenant_id), Param::Id(idempotency.principal_id),
                    Param::Text(idempotency.route), Param::Text(idempotency.key),
                ],
            ),
        ].add(
            if receipt.expired {
                seq![
                    CommandView::execute(
                        catalog::RESERVE_UPDATE_IDEMPOTENCY_RECORDS,
                        seq![
                            Param::Id(input.tenant_id), Param::Id(idempotency.principal_id),
                            Param::Text(idempotency.route), Param::Text(idempotency.key),
                            Param::Digest(idempotency.request_fingerprint), Param::JsonNull,
                        ],
                    ),
                ]
            } else {
                Seq::empty()
            },
        ).add(
            if !receipt.expired && !same {
                seq![CommandView::Commit]
            } else {
                if !receipt.expired && inserted != 1 {
                    seq![CommandView::Commit]
                } else {
                    seq![
                        CommandView::execute(
                            sql::INSERT_APPROVAL_RULE,
                            seq![
                                Param::Id(input.tenant_id), Param::Id(input.id),
                                Param::Id(input.registration_id), Param::Id(input.principal_id),
                                Param::Id(input.intent_id), Param::OptId(input.session_id),
                                Param::Text(input.application_id), Param::Text(input.primitive),
                                Param::Text(input.capability_name),
                                Param::Digest(input.capability_fingerprint),
                                Param::Digest(input.argument_digest),
                                Param::Digest(input.attachment_digest),
                                Param::Bool(input.single_use),
                                Param::I64(input.lifetime_seconds),
                            ],
                        ),
                        CommandView::optional(
                            catalog::FINALIZE,
                            seq![
                                Param::Id(input.tenant_id), Param::Id(idempotency.principal_id),
                                Param::Text(idempotency.route), Param::Text(idempotency.key),
                                Param::Digest(idempotency.request_fingerprint),
                                Param::I32(idempotency.response_status),
                                Param::Json(idempotency.response_body),
                            ],
                        ),
                        CommandView::Commit,
                    ]
                }
            },
        )
    }

    /// What `mcp_create_approval_rule_idempotent` returns.
    pub open spec fn mcp_create_approval_rule_idempotent_output<'a>(
        idempotency: &'a McpIdempotency<'a>,
        log: Seq<Reply>,
    ) -> McpIdempotentWrite {
        let inserted = log[1].row_count()->Ok_0;
        let receipt = log[2].single_row::<IdempotencyReceipt>()->Ok_0;
        let at = if receipt.expired {
            4int
        } else {
            3
        };
        let same = receipt.matches(idempotency.request_fingerprint, None);
        let record = log[at + 1].required_row::<IdempotencyRecord>(DatabaseError::Conflict)->Ok_0;
        if !receipt.expired && !same {
            McpIdempotentWrite::KeyReused
        } else {
            if !receipt.expired && inserted != 1 {
                McpIdempotentWrite::Replayed(receipt.record)
            } else {
                McpIdempotentWrite::Created(record)
            }
        }
    }

    /// Approves an intended invocation, once for each key.
    pub fn mcp_create_approval_rule_idempotent<'a>(
        input: &'a NewMcpApprovalRule<'a>, idempotency: &'a McpIdempotency<'a>,
        log: &'a [Reply],
    ) -> (step: Step<'a, McpIdempotentWrite>)
        ensures
            step@ == StepView::proceed(
                Self::mcp_create_approval_rule_idempotent_fault(input, idempotency, log@),
                Self::mcp_create_approval_rule_idempotent_script(input, idempotency, log@),
                Self::mcp_create_approval_rule_idempotent_output(idempotency, log@),
                log@,
            ),
    {
        if !idempotency.made_by(input.principal_id) || !input.valid() {
            return Step::Fail(DatabaseError::InvalidPersistedValue);
        }
        if log.len() == 0 {
            return Step::Ask(Command::Begin);
        }
        if !reservable(idempotency.route, idempotency.key) {
            return Step::Fail(DatabaseError::InvalidPersistedValue);
        }
        if log.len() <= 1 {
            return ask_execute(
                catalog::RESERVE_INSERT_IDEMPOTENCY_RECORDS,
                vec![
                    Param::Id(input.tenant_id), Param::Id(idempotency.principal_id),
                    Param::Text(idempotency.route), Param::Text(idempotency.key),
                    Param::Digest(idempotency.request_fingerprint), Param::JsonNull,
                ],
            );
        }
        let inserted: u64 = match affected(&log[1]) {
            Ok(value) => value,
            Err(fault) => return stop(fault),
        };
        if log.len() <= 2 {
            return ask_one(
                catalog::RESERVE_SELECT_IDEMPOTENCY_RECORDS,
                vec![
                    Param::Id(input.tenant_id), Param::Id(idempotency.principal_id),
                    Param::Text(idempotency.route), Param::Text(idempotency.key),
                ],
            );
        }
        let receipt: IdempotencyReceipt = match single::<IdempotencyReceipt>(&log[2]) {
            Ok(value) => value,
            Err(fault) => return stop(fault),
        };
        if receipt.expired {
            if log.len() <= 3 {
                return ask_execute(
                    catalog::RESERVE_UPDATE_IDEMPOTENCY_RECORDS,
                    vec![
                        Param::Id(input.tenant_id), Param::Id(idempotency.principal_id),
                        Param::Text(idempotency.route), Param::Text(idempotency.key),
                        Param::Digest(idempotency.request_fingerprint), Param::JsonNull,
                    ],
                );
            }
        }
        let at: usize = if receipt.expired {
            4
        } else {
            3
        };
        let same: bool = receipt.is_match(idempotency.request_fingerprint, None);
        if !receipt.expired && !same {
            if log.len() <= at {
                return Step::Ask(Command::Commit);
            }
            return Step::Done(McpIdempotentWrite::KeyReused);
        }
        if !receipt.expired && inserted != 1 {
            if log.len() <= at {
                return Step::Ask(Command::Commit);
            }
            return Step::Done(McpIdempotentWrite::Replayed(receipt.record));
        }
        if log.len() <= at {
            return ask_execute(
                sql::INSERT_APPROVAL_RULE,
                vec![
                    Param::Id(input.tenant_id), Param::Id(input.id),
                    Param::Id(input.registration_id), Param::Id(input.principal_id),
                    Param::Id(input.intent_id), Param::OptId(input.session_id),
                    Param::Text(input.application_id), Param::Text(input.primitive),
                    Param::Text(input.capability_name),
                    Param::Digest(input.capability_fingerprint),
                    Param::Digest(input.argument_digest),
                    Param::Digest(input.attachment_digest), Param::Bool(input.single_use),
                    Param::I64(input.lifetime_seconds),
                ],
            );
        }
        if let Err(fault) = exactly_one(&log[at], DatabaseError::NotFound) {
            return stop(fault);
        }
        if idempotency.response_status < 100 || idempotency.response_status > 599 {
            return Step::Fail(DatabaseError::InvalidPersistedValue);
        }
        if log.len() - at <= 1 {
            return ask_optional(
                catalog::FINALIZE,
                vec![
                    Param::Id(input.tenant_id), Param::Id(idempotency.principal_id),
                    Param::Text(idempotency.route), Param::Text(idempotency.key),
                    Param::Digest(idempotency.request_fingerprint),
                    Param::I32(idempotency.response_status),
                    Param::Json(idempotency.response_body),
                ],
            );
        }
        let record: IdempotencyRecord = match required(&log[at + 1], DatabaseError::Conflict) {
            Ok(value) => value,
            Err(fault) => return stop(fault),
        };
        if log.len() - at <= 2 {
            return Step::Ask(Command::Commit);
        }
        Step::Done(McpIdempotentWrite::Created(record))
    }

    /// `mcp_create_approval_rule_idempotent` runs in one transaction: it is done once its commit is
    /// acknowledged, and when it fails, nothing was committed.
    pub proof fn mcp_create_approval_rule_idempotent_is_atomic<'a>(
        input: &'a NewMcpApprovalRule<'a>, idempotency: &'a McpIdempotency<'a>, log: Seq<Reply>,
    )
        ensures
            crate::step::is_atomic(
                Self::mcp_create_approval_rule_idempotent_script(input, idempotency, log),
                0,
            ),
            crate::step::commit_acknowledged(
                Self::mcp_create_approval_rule_idempotent_fault(
                    input, idempotency, log.drop_last(),
                ),
                Self::mcp_create_approval_rule_idempotent_script(
                    input, idempotency, log.drop_last(),
                ),
                log,
            ) ==> {
                &&& Self::mcp_create_approval_rule_idempotent_fault(input, idempotency, log) is None
                &&& log.len() == Self::mcp_create_approval_rule_idempotent_script(
                    input, idempotency, log,
                ).len()
            },
    {
    }

    /// Every statement of `mcp_create_approval_rule_idempotent` is about its tenant.
    pub proof fn mcp_create_approval_rule_idempotent_is_scoped<'a>(
        input: &'a NewMcpApprovalRule<'a>, idempotency: &'a McpIdempotency<'a>, log: Seq<Reply>,
    )
        ensures
            crate::step::is_scoped(
                Self::mcp_create_approval_rule_idempotent_script(input, idempotency, log),
                input.tenant_id,
            ),
    {
    }

    /// What stops `mcp_create_data_grant_idempotent`, in order.
    pub open spec fn mcp_create_data_grant_idempotent_fault<'a>(
        input: &'a NewMcpDataGrant, idempotency: &'a McpIdempotency<'a>, log: Seq<Reply>,
    ) -> Option<Fault> {
        let inserted = log[1].row_count()->Ok_0;
        let receipt = log[2].single_row::<IdempotencyReceipt>()->Ok_0;
        let at = if receipt.expired {
            4int
        } else {
            3
        };
        let same = receipt.matches(idempotency.request_fingerprint, None);
        let locked = log[at + 1].required_row::<LockedGenerations>(DatabaseError::NotFound)->Ok_0;
        if !idempotency.is_by(input.principal_id) || !input.is_valid() {
            Some(Fault::Error(DatabaseError::InvalidPersistedValue))
        } else if log.len() > 0
            && !crate::idempotency::is_reservable(idempotency.route@, idempotency.key@) {
            Some(Fault::Error(DatabaseError::InvalidPersistedValue))
        } else if log.len() > 1 && log[1].row_count() is Err {
            Fault::of(log[1].row_count())
        } else if log.len() > 2 && log[2].single_row::<IdempotencyReceipt>() is Err {
            Fault::of(log[2].single_row::<IdempotencyReceipt>())
        } else if log.len() > at - 1 && !receipt.expired && !same {
            None
        } else if log.len() > at - 1 && !receipt.expired && inserted != 1 {
            None
        } else if log.len() > at && log[at].required_row::<i64>(DatabaseError::NotFound) is Err {
            Fault::of(log[at].required_row::<i64>(DatabaseError::NotFound))
        } else if log.len() > at && (input.drive_acl_generation <= 0 || input.acl_generation <= 0
                || input.namespace_generation <= 0) {
            Some(Fault::Error(DatabaseError::InvalidPersistedValue))
        } else if log.len() > at + 1
            && log[at + 1].required_row::<LockedGenerations>(DatabaseError::NotFound) is Err {
            Fault::of(log[at + 1].required_row::<LockedGenerations>(DatabaseError::NotFound))
        } else if log.len() > at + 1 && (locked.drive_acl_generation != input.drive_acl_generation
                || locked.acl_generation != input.acl_generation
                || locked.namespace_generation != input.namespace_generation) {
            Some(Fault::Error(DatabaseError::StaleGeneration))
        } else if log.len() > at + 2 && (idempotency.response_status < 100
                || idempotency.response_status > 599) {
            Some(Fault::Error(DatabaseError::InvalidPersistedValue))
        } else if log.len() > at + 3
            && log[at + 3].required_row::<IdempotencyRecord>(DatabaseError::Conflict) is Err {
            Fault::of(log[at + 3].required_row::<IdempotencyRecord>(DatabaseError::Conflict))
        } else {
            None
        }
    }

    /// The commands of `mcp_create_data_grant_idempotent`, in order.
    pub open spec fn mcp_create_data_grant_idempotent_script<'a>(
        input: &'a NewMcpDataGrant, idempotency: &'a McpIdempotency<'a>, log: Seq<Reply>,
    ) -> Seq<CommandView<'a>> {
        let inserted = log[1].row_count()->Ok_0;
        let receipt = log[2].single_row::<IdempotencyReceipt>()->Ok_0;
        let at = if receipt.expired {
            4int
        } else {
            3
        };
        let same = receipt.matches(idempotency.request_fingerprint, None);
        let registration_generation = log[at].required_row::<i64>(DatabaseError::NotFound)->Ok_0;
        seq![
            CommandView::Begin,
            CommandView::execute(
                catalog::RESERVE_INSERT_IDEMPOTENCY_RECORDS,
                seq![
                    Param::Id(input.tenant_id), Param::Id(idempotency.principal_id),
                    Param::Text(idempotency.route), Param::Text(idempotency.key),
                    Param::Digest(idempotency.request_fingerprint), Param::JsonNull,
                ],
            ),
            CommandView::one(
                catalog::RESERVE_SELECT_IDEMPOTENCY_RECORDS,
                seq![
                    Param::Id(input.tenant_id), Param::Id(idempotency.principal_id),
                    Param::Text(idempotency.route), Param::Text(idempotency.key),
                ],
            ),
        ].add(
            if receipt.expired {
                seq![
                    CommandView::execute(
                        catalog::RESERVE_UPDATE_IDEMPOTENCY_RECORDS,
                        seq![
                            Param::Id(input.tenant_id), Param::Id(idempotency.principal_id),
                            Param::Text(idempotency.route), Param::Text(idempotency.key),
                            Param::Digest(idempotency.request_fingerprint), Param::JsonNull,
                        ],
                    ),
                ]
            } else {
                Seq::empty()
            },
        ).add(
            if !receipt.expired && !same {
                seq![CommandView::Commit]
            } else {
                if !receipt.expired && inserted != 1 {
                    seq![CommandView::Commit]
                } else {
                    seq![
                        CommandView::optional(
                            sql::INSERT_DATA_GRANT_SELECT_REGISTRATIONS,
                            seq![
                                Param::Id(input.tenant_id), Param::Id(input.registration_id),
                                Param::Id(input.principal_id),
                            ],
                        ),
                        CommandView::optional(
                            sql::LOCK_DATA_GRANT_VERSION,
                            seq![
                                Param::Id(input.tenant_id), Param::Id(input.drive_id),
                                Param::Id(input.resource_id), Param::Id(input.version_id),
                            ],
                        ),
                        CommandView::ruled(
                            sql::INSERT_DATA_GRANT_INSERT_DATA_GRANTS,
                            seq![
                                Param::Id(input.tenant_id), Param::Id(input.id),
                                Param::Id(input.principal_id), Param::Id(input.registration_id),
                                Param::Id(input.drive_id), Param::Id(input.resource_id),
                                Param::Id(input.version_id), Param::Bool(input.allow_metadata),
                                Param::Bool(input.allow_content),
                                Param::I64(input.drive_acl_generation),
                                Param::I64(input.acl_generation),
                                Param::I64(input.namespace_generation),
                                Param::I64(registration_generation), Param::Id(input.created_by),
                                Param::I64(input.lifetime_seconds),
                            ],
                            Fetch::Execute, ErrorRule::SecurityAdmission,
                        ),
                        CommandView::optional(
                            catalog::FINALIZE,
                            seq![
                                Param::Id(input.tenant_id), Param::Id(idempotency.principal_id),
                                Param::Text(idempotency.route), Param::Text(idempotency.key),
                                Param::Digest(idempotency.request_fingerprint),
                                Param::I32(idempotency.response_status),
                                Param::Json(idempotency.response_body),
                            ],
                        ),
                        CommandView::Commit,
                    ]
                }
            },
        )
    }

    /// What `mcp_create_data_grant_idempotent` returns.
    pub open spec fn mcp_create_data_grant_idempotent_output<'a>(
        idempotency: &'a McpIdempotency<'a>,
        log: Seq<Reply>,
    ) -> McpIdempotentWrite {
        let inserted = log[1].row_count()->Ok_0;
        let receipt = log[2].single_row::<IdempotencyReceipt>()->Ok_0;
        let at = if receipt.expired {
            4int
        } else {
            3
        };
        let same = receipt.matches(idempotency.request_fingerprint, None);
        let record = log[at + 3].required_row::<IdempotencyRecord>(DatabaseError::Conflict)->Ok_0;
        if !receipt.expired && !same {
            McpIdempotentWrite::KeyReused
        } else {
            if !receipt.expired && inserted != 1 {
                McpIdempotentWrite::Replayed(receipt.record)
            } else {
                McpIdempotentWrite::Created(record)
            }
        }
    }

    /// Grants a file version, once for each key.
    #[verifier::spinoff_prover]
    #[verifier::rlimit(40)]
    pub fn mcp_create_data_grant_idempotent<'a>(
        input: &'a NewMcpDataGrant, idempotency: &'a McpIdempotency<'a>, log: &'a [Reply],
    ) -> (step: Step<'a, McpIdempotentWrite>)
        ensures
            step@ == StepView::proceed(
                Self::mcp_create_data_grant_idempotent_fault(input, idempotency, log@),
                Self::mcp_create_data_grant_idempotent_script(input, idempotency, log@),
                Self::mcp_create_data_grant_idempotent_output(idempotency, log@),
                log@,
            ),
    {
        if !idempotency.made_by(input.principal_id) || !input.valid() {
            return Step::Fail(DatabaseError::InvalidPersistedValue);
        }
        if log.len() == 0 {
            return Step::Ask(Command::Begin);
        }
        if !reservable(idempotency.route, idempotency.key) {
            return Step::Fail(DatabaseError::InvalidPersistedValue);
        }
        if log.len() <= 1 {
            return ask_execute(
                catalog::RESERVE_INSERT_IDEMPOTENCY_RECORDS,
                vec![
                    Param::Id(input.tenant_id), Param::Id(idempotency.principal_id),
                    Param::Text(idempotency.route), Param::Text(idempotency.key),
                    Param::Digest(idempotency.request_fingerprint), Param::JsonNull,
                ],
            );
        }
        let inserted: u64 = match affected(&log[1]) {
            Ok(value) => value,
            Err(fault) => return stop(fault),
        };
        if log.len() <= 2 {
            return ask_one(
                catalog::RESERVE_SELECT_IDEMPOTENCY_RECORDS,
                vec![
                    Param::Id(input.tenant_id), Param::Id(idempotency.principal_id),
                    Param::Text(idempotency.route), Param::Text(idempotency.key),
                ],
            );
        }
        let receipt: IdempotencyReceipt = match single::<IdempotencyReceipt>(&log[2]) {
            Ok(value) => value,
            Err(fault) => return stop(fault),
        };
        if receipt.expired {
            if log.len() <= 3 {
                return ask_execute(
                    catalog::RESERVE_UPDATE_IDEMPOTENCY_RECORDS,
                    vec![
                        Param::Id(input.tenant_id), Param::Id(idempotency.principal_id),
                        Param::Text(idempotency.route), Param::Text(idempotency.key),
                        Param::Digest(idempotency.request_fingerprint), Param::JsonNull,
                    ],
                );
            }
        }
        let at: usize = if receipt.expired {
            4
        } else {
            3
        };
        let same: bool = receipt.is_match(idempotency.request_fingerprint, None);
        if !receipt.expired && !same {
            if log.len() <= at {
                return Step::Ask(Command::Commit);
            }
            return Step::Done(McpIdempotentWrite::KeyReused);
        }
        if !receipt.expired && inserted != 1 {
            if log.len() <= at {
                return Step::Ask(Command::Commit);
            }
            return Step::Done(McpIdempotentWrite::Replayed(receipt.record));
        }
        if log.len() <= at {
            return ask_optional(
                sql::INSERT_DATA_GRANT_SELECT_REGISTRATIONS,
                vec![
                    Param::Id(input.tenant_id), Param::Id(input.registration_id),
                    Param::Id(input.principal_id),
                ],
            );
        }
        let registration_generation: i64 = match required(&log[at], DatabaseError::NotFound) {
            Ok(value) => value,
            Err(fault) => return stop(fault),
        };
        if input.drive_acl_generation <= 0 || input.acl_generation <= 0
            || input.namespace_generation <= 0 {
            return Step::Fail(DatabaseError::InvalidPersistedValue);
        }
        if log.len() - at <= 1 {
            return ask_optional(
                sql::LOCK_DATA_GRANT_VERSION,
                vec![
                    Param::Id(input.tenant_id), Param::Id(input.drive_id),
                    Param::Id(input.resource_id), Param::Id(input.version_id),
                ],
            );
        }
        let locked: LockedGenerations = match required(&log[at + 1], DatabaseError::NotFound) {
            Ok(value) => value,
            Err(fault) => return stop(fault),
        };
        if locked.drive_acl_generation != input.drive_acl_generation
            || locked.acl_generation != input.acl_generation
            || locked.namespace_generation != input.namespace_generation {
            return Step::Fail(DatabaseError::StaleGeneration);
        }
        if log.len() - at <= 2 {
            return ask(
                sql::INSERT_DATA_GRANT_INSERT_DATA_GRANTS,
                vec![
                    Param::Id(input.tenant_id), Param::Id(input.id),
                    Param::Id(input.principal_id), Param::Id(input.registration_id),
                    Param::Id(input.drive_id), Param::Id(input.resource_id),
                    Param::Id(input.version_id), Param::Bool(input.allow_metadata),
                    Param::Bool(input.allow_content), Param::I64(input.drive_acl_generation),
                    Param::I64(input.acl_generation), Param::I64(input.namespace_generation),
                    Param::I64(registration_generation), Param::Id(input.created_by),
                    Param::I64(input.lifetime_seconds),
                ],
                Fetch::Execute, ErrorRule::SecurityAdmission,
            );
        }
        if idempotency.response_status < 100 || idempotency.response_status > 599 {
            return Step::Fail(DatabaseError::InvalidPersistedValue);
        }
        if log.len() - at <= 3 {
            return ask_optional(
                catalog::FINALIZE,
                vec![
                    Param::Id(input.tenant_id), Param::Id(idempotency.principal_id),
                    Param::Text(idempotency.route), Param::Text(idempotency.key),
                    Param::Digest(idempotency.request_fingerprint),
                    Param::I32(idempotency.response_status),
                    Param::Json(idempotency.response_body),
                ],
            );
        }
        let record: IdempotencyRecord = match required(&log[at + 3], DatabaseError::Conflict) {
            Ok(value) => value,
            Err(fault) => return stop(fault),
        };
        if log.len() - at <= 4 {
            return Step::Ask(Command::Commit);
        }
        Step::Done(McpIdempotentWrite::Created(record))
    }

    /// `mcp_create_data_grant_idempotent` runs in one transaction: it is done once its commit is
    /// acknowledged, and when it fails, nothing was committed.
    pub proof fn mcp_create_data_grant_idempotent_is_atomic<'a>(
        input: &'a NewMcpDataGrant, idempotency: &'a McpIdempotency<'a>, log: Seq<Reply>,
    )
        ensures
            crate::step::is_atomic(
                Self::mcp_create_data_grant_idempotent_script(input, idempotency, log),
                0,
            ),
            crate::step::commit_acknowledged(
                Self::mcp_create_data_grant_idempotent_fault(input, idempotency, log.drop_last()),
                Self::mcp_create_data_grant_idempotent_script(input, idempotency, log.drop_last()),
                log,
            ) ==> {
                &&& Self::mcp_create_data_grant_idempotent_fault(input, idempotency, log) is None
                &&& log.len() == Self::mcp_create_data_grant_idempotent_script(
                    input, idempotency, log,
                ).len()
            },
    {
    }

    /// Every statement of `mcp_create_data_grant_idempotent` is about its tenant.
    pub proof fn mcp_create_data_grant_idempotent_is_scoped<'a>(
        input: &'a NewMcpDataGrant, idempotency: &'a McpIdempotency<'a>, log: Seq<Reply>,
    )
        ensures
            crate::step::is_scoped(
                Self::mcp_create_data_grant_idempotent_script(input, idempotency, log),
                input.tenant_id,
            ),
    {
    }

    /// What stops `mcp_create_service_grant_idempotent`, in order.
    pub open spec fn mcp_create_service_grant_idempotent_fault<'a>(
        input: &'a NewMcpServiceGrant<'a>, idempotency: &'a McpIdempotency<'a>, log: Seq<Reply>,
    ) -> Option<Fault> {
        let inserted = log[1].row_count()->Ok_0;
        let receipt = log[2].single_row::<IdempotencyReceipt>()->Ok_0;
        let at = if receipt.expired {
            4int
        } else {
            3
        };
        let same = receipt.matches(idempotency.request_fingerprint, None);
        let at2 = (at + 1 + input.data_grant_ids@.len()) as int;
        if !idempotency.is_by(input.created_by) || !input.is_valid() {
            Some(Fault::Error(DatabaseError::InvalidPersistedValue))
        } else if log.len() > 0
            && !crate::idempotency::is_reservable(idempotency.route@, idempotency.key@) {
            Some(Fault::Error(DatabaseError::InvalidPersistedValue))
        } else if log.len() > 1 && log[1].row_count() is Err {
            Fault::of(log[1].row_count())
        } else if log.len() > 2 && log[2].single_row::<IdempotencyReceipt>() is Err {
            Fault::of(log[2].single_row::<IdempotencyReceipt>())
        } else if log.len() > at - 1 && !receipt.expired && !same {
            None
        } else if log.len() > at - 1 && !receipt.expired && inserted != 1 {
            None
        } else if log.len() > at && log[at].one_affected(DatabaseError::NotFound) is Err {
            Fault::of(log[at].one_affected(DatabaseError::NotFound))
        } else if log.len() > at + 1
            && Reply::each_affected_one(
                log, at + 1, (input.data_grant_ids@.len()) as int, DatabaseError::NotFound,
            ) is Err {
                Fault::of(
                    Reply::each_affected_one(
                        log, at + 1, (input.data_grant_ids@.len()) as int, DatabaseError::NotFound,
                    ),
                )
            } else if log.len() > at2 - 1 && (idempotency.response_status < 100
                    || idempotency.response_status > 599) {
            Some(Fault::Error(DatabaseError::InvalidPersistedValue))
        } else if log.len() > at2
            && log[at2].required_row::<IdempotencyRecord>(DatabaseError::Conflict) is Err {
            Fault::of(log[at2].required_row::<IdempotencyRecord>(DatabaseError::Conflict))
        } else {
            None
        }
    }

    /// The commands of `mcp_create_service_grant_idempotent`, in order.
    pub open spec fn mcp_create_service_grant_idempotent_script<'a>(
        input: &'a NewMcpServiceGrant<'a>, idempotency: &'a McpIdempotency<'a>, log: Seq<Reply>,
    ) -> Seq<CommandView<'a>> {
        let inserted = log[1].row_count()->Ok_0;
        let receipt = log[2].single_row::<IdempotencyReceipt>()->Ok_0;
        let same = receipt.matches(idempotency.request_fingerprint, None);
        seq![
            CommandView::Begin,
            CommandView::execute(
                catalog::RESERVE_INSERT_IDEMPOTENCY_RECORDS,
                seq![
                    Param::Id(input.tenant_id), Param::Id(idempotency.principal_id),
                    Param::Text(idempotency.route), Param::Text(idempotency.key),
                    Param::Digest(idempotency.request_fingerprint), Param::JsonNull,
                ],
            ),
            CommandView::one(
                catalog::RESERVE_SELECT_IDEMPOTENCY_RECORDS,
                seq![
                    Param::Id(input.tenant_id), Param::Id(idempotency.principal_id),
                    Param::Text(idempotency.route), Param::Text(idempotency.key),
                ],
            ),
        ].add(
            if receipt.expired {
                seq![
                    CommandView::execute(
                        catalog::RESERVE_UPDATE_IDEMPOTENCY_RECORDS,
                        seq![
                            Param::Id(input.tenant_id), Param::Id(idempotency.principal_id),
                            Param::Text(idempotency.route), Param::Text(idempotency.key),
                            Param::Digest(idempotency.request_fingerprint), Param::JsonNull,
                        ],
                    ),
                ]
            } else {
                Seq::empty()
            },
        ).add(
            if !receipt.expired && !same {
                seq![CommandView::Commit]
            } else {
                if !receipt.expired && inserted != 1 {
                    seq![CommandView::Commit]
                } else {
                    seq![
                        CommandView::execute(
                            sql::INSERT_SERVICE_GRANT_INSERT_SERVICE_INVOCATION_GRANTS,
                            seq![
                                Param::Id(input.tenant_id), Param::Id(input.id),
                                Param::Id(input.service_id), Param::Id(input.registration_id),
                                Param::Digest(input.capability_fingerprint),
                                Param::Text(input.primitive),
                                Param::Text(input.capability_name), Param::Json(input.constraints),
                                Param::Text(input.application_id), Param::Json(input.quota),
                                Param::I32(input.max_invocations_per_hour),
                                Param::Id(input.created_by),
                                Param::I64(input.lifetime_seconds),
                                Param::I64(input.expected_service_generation),
                            ],
                        ),
                    ].add(
                        Seq::new(
                            input.data_grant_ids@.len(),
                            |j: int| CommandView::execute(
                                sql::INSERT_SERVICE_GRANT_INSERT_SERVICE_GRANT_DATA_GRANTS,
                                seq![
                                    Param::Id(input.tenant_id), Param::Id(input.id),
                                    Param::Id(input.data_grant_ids[j]), Param::Id(input.service_id),
                                ],
                            ),
                        ),
                    ).add(
                        seq![
                            CommandView::optional(
                                catalog::FINALIZE,
                                seq![
                                    Param::Id(input.tenant_id), Param::Id(idempotency.principal_id),
                                    Param::Text(idempotency.route), Param::Text(idempotency.key),
                                    Param::Digest(idempotency.request_fingerprint),
                                    Param::I32(idempotency.response_status),
                                    Param::Json(idempotency.response_body),
                                ],
                            ),
                            CommandView::Commit,
                        ],
                    )
                }
            },
        )
    }

    /// What `mcp_create_service_grant_idempotent` returns.
    pub open spec fn mcp_create_service_grant_idempotent_output<'a>(
        input: &'a NewMcpServiceGrant<'a>, idempotency: &'a McpIdempotency<'a>, log: Seq<Reply>,
    ) -> McpIdempotentWrite {
        let inserted = log[1].row_count()->Ok_0;
        let receipt = log[2].single_row::<IdempotencyReceipt>()->Ok_0;
        let at = if receipt.expired {
            4int
        } else {
            3
        };
        let same = receipt.matches(idempotency.request_fingerprint, None);
        let at2 = (at + 1 + input.data_grant_ids@.len()) as int;
        let record = log[at2].required_row::<IdempotencyRecord>(DatabaseError::Conflict)->Ok_0;
        if !receipt.expired && !same {
            McpIdempotentWrite::KeyReused
        } else {
            if !receipt.expired && inserted != 1 {
                McpIdempotentWrite::Replayed(receipt.record)
            } else {
                McpIdempotentWrite::Created(record)
            }
        }
    }

    /// Lets a service invoke a capability, once for each key.
    #[verifier::spinoff_prover]
    #[verifier::rlimit(40)]
    pub fn mcp_create_service_grant_idempotent<'a>(
        input: &'a NewMcpServiceGrant<'a>, idempotency: &'a McpIdempotency<'a>,
        log: &'a [Reply],
    ) -> (step: Step<'a, McpIdempotentWrite>)
        ensures
            step@ == StepView::proceed(
                Self::mcp_create_service_grant_idempotent_fault(input, idempotency, log@),
                Self::mcp_create_service_grant_idempotent_script(input, idempotency, log@),
                Self::mcp_create_service_grant_idempotent_output(input, idempotency, log@),
                log@,
            ),
    {
        if !idempotency.made_by(input.created_by) || !input.valid() {
            return Step::Fail(DatabaseError::InvalidPersistedValue);
        }
        if log.len() == 0 {
            return Step::Ask(Command::Begin);
        }
        if !reservable(idempotency.route, idempotency.key) {
            return Step::Fail(DatabaseError::InvalidPersistedValue);
        }
        if log.len() <= 1 {
            return ask_execute(
                catalog::RESERVE_INSERT_IDEMPOTENCY_RECORDS,
                vec![
                    Param::Id(input.tenant_id), Param::Id(idempotency.principal_id),
                    Param::Text(idempotency.route), Param::Text(idempotency.key),
                    Param::Digest(idempotency.request_fingerprint), Param::JsonNull,
                ],
            );
        }
        let inserted: u64 = match affected(&log[1]) {
            Ok(value) => value,
            Err(fault) => return stop(fault),
        };
        if log.len() <= 2 {
            return ask_one(
                catalog::RESERVE_SELECT_IDEMPOTENCY_RECORDS,
                vec![
                    Param::Id(input.tenant_id), Param::Id(idempotency.principal_id),
                    Param::Text(idempotency.route), Param::Text(idempotency.key),
                ],
            );
        }
        let receipt: IdempotencyReceipt = match single::<IdempotencyReceipt>(&log[2]) {
            Ok(value) => value,
            Err(fault) => return stop(fault),
        };
        if receipt.expired {
            if log.len() <= 3 {
                return ask_execute(
                    catalog::RESERVE_UPDATE_IDEMPOTENCY_RECORDS,
                    vec![
                        Param::Id(input.tenant_id), Param::Id(idempotency.principal_id),
                        Param::Text(idempotency.route), Param::Text(idempotency.key),
                        Param::Digest(idempotency.request_fingerprint), Param::JsonNull,
                    ],
                );
            }
        }
        let at: usize = if receipt.expired {
            4
        } else {
            3
        };
        let same: bool = receipt.is_match(idempotency.request_fingerprint, None);
        if !receipt.expired && !same {
            if log.len() <= at {
                return Step::Ask(Command::Commit);
            }
            return Step::Done(McpIdempotentWrite::KeyReused);
        }
        if !receipt.expired && inserted != 1 {
            if log.len() <= at {
                return Step::Ask(Command::Commit);
            }
            return Step::Done(McpIdempotentWrite::Replayed(receipt.record));
        }
        if log.len() <= at {
            return ask_execute(
                sql::INSERT_SERVICE_GRANT_INSERT_SERVICE_INVOCATION_GRANTS,
                vec![
                    Param::Id(input.tenant_id), Param::Id(input.id),
                    Param::Id(input.service_id), Param::Id(input.registration_id),
                    Param::Digest(input.capability_fingerprint), Param::Text(input.primitive),
                    Param::Text(input.capability_name), Param::Json(input.constraints),
                    Param::Text(input.application_id), Param::Json(input.quota),
                    Param::I32(input.max_invocations_per_hour), Param::Id(input.created_by),
                    Param::I64(input.lifetime_seconds),
                    Param::I64(input.expected_service_generation),
                ],
            );
        }
        if let Err(fault) = exactly_one(&log[at], DatabaseError::NotFound) {
            return stop(fault);
        }
        let items2: usize = input.data_grant_ids.len();
        if let Err(fault) = each_exactly_one(log, at + 1, items2, DatabaseError::NotFound) {
            return stop(fault);
        }
        if log.len() - (at + 1) < items2 {
            let j: usize = log.len() - (at + 1);
            return ask_execute(
                sql::INSERT_SERVICE_GRANT_INSERT_SERVICE_GRANT_DATA_GRANTS,
                vec![
                    Param::Id(input.tenant_id), Param::Id(input.id),
                    Param::Id(input.data_grant_ids[j]), Param::Id(input.service_id),
                ],
            );
        }
        let at2: usize = at + 1 + items2;
        if idempotency.response_status < 100 || idempotency.response_status > 599 {
            return Step::Fail(DatabaseError::InvalidPersistedValue);
        }
        if log.len() <= at2 {
            return ask_optional(
                catalog::FINALIZE,
                vec![
                    Param::Id(input.tenant_id), Param::Id(idempotency.principal_id),
                    Param::Text(idempotency.route), Param::Text(idempotency.key),
                    Param::Digest(idempotency.request_fingerprint),
                    Param::I32(idempotency.response_status),
                    Param::Json(idempotency.response_body),
                ],
            );
        }
        let record: IdempotencyRecord = match required(&log[at2], DatabaseError::Conflict) {
            Ok(value) => value,
            Err(fault) => return stop(fault),
        };
        if log.len() - at2 <= 1 {
            return Step::Ask(Command::Commit);
        }
        Step::Done(McpIdempotentWrite::Created(record))
    }

    /// `mcp_create_service_grant_idempotent` runs in one transaction: it is done once its commit is
    /// acknowledged, and when it fails, nothing was committed.
    pub proof fn mcp_create_service_grant_idempotent_is_atomic<'a>(
        input: &'a NewMcpServiceGrant<'a>, idempotency: &'a McpIdempotency<'a>, log: Seq<Reply>,
    )
        ensures
            crate::step::is_atomic(
                Self::mcp_create_service_grant_idempotent_script(input, idempotency, log),
                0,
            ),
            crate::step::commit_acknowledged(
                Self::mcp_create_service_grant_idempotent_fault(
                    input, idempotency, log.drop_last(),
                ),
                Self::mcp_create_service_grant_idempotent_script(
                    input, idempotency, log.drop_last(),
                ),
                log,
            ) ==> {
                &&& Self::mcp_create_service_grant_idempotent_fault(input, idempotency, log) is None
                &&& log.len() == Self::mcp_create_service_grant_idempotent_script(
                    input, idempotency, log,
                ).len()
            },
    {
        crate::row::lemma_each_affected_one_settled(log);
    }

    /// Every statement of `mcp_create_service_grant_idempotent` is about its tenant.
    pub proof fn mcp_create_service_grant_idempotent_is_scoped<'a>(
        input: &'a NewMcpServiceGrant<'a>, idempotency: &'a McpIdempotency<'a>, log: Seq<Reply>,
    )
        ensures
            crate::step::is_scoped(
                Self::mcp_create_service_grant_idempotent_script(input, idempotency, log),
                input.tenant_id,
            ),
    {
    }

}

impl McpMutationTransaction {

    /// What stops `mark_broker_operation_applied`, in order.
    pub open spec fn mark_broker_operation_applied_fault(log: Seq<Reply>) -> Option<Fault> {
        if log.len() > 0 && log[0].one_affected(DatabaseError::NotFound) is Err {
            Fault::of(log[0].one_affected(DatabaseError::NotFound))
        } else {
            None
        }
    }

    /// The commands of `mark_broker_operation_applied`, in order.
    pub open spec fn mark_broker_operation_applied_script<'a>(
        &'a self, operation_id: Uuid, log: Seq<Reply>,
    ) -> Seq<CommandView<'a>> {
        seq![
            CommandView::execute(
                sql::MARK_BROKER_OPERATION_APPLIED,
                seq![
                    Param::Id(self.tenant_id), Param::Id(self.principal_id),
                    Param::Id(operation_id),
                ],
            ),
        ]
    }

    /// Records that the result of a broker operation has been applied.
    pub fn mark_broker_operation_applied<'a>(
        &'a self, operation_id: Uuid, log: &'a [Reply],
    ) -> (step: Step<'a, ()>)
        ensures
            step@ == StepView::proceed(
                Self::mark_broker_operation_applied_fault(log@),
                Self::mark_broker_operation_applied_script(self, operation_id, log@),
                (),
                log@,
            ),
    {
        if log.len() == 0 {
            return ask_execute(
                sql::MARK_BROKER_OPERATION_APPLIED,
                vec![
                    Param::Id(self.tenant_id), Param::Id(self.principal_id),
                    Param::Id(operation_id),
                ],
            );
        }
        if let Err(fault) = exactly_one(&log[0], DatabaseError::NotFound) {
            return stop(fault);
        }
        Step::Done(())
    }

    /// Every statement of `mark_broker_operation_applied` is about its tenant.
    pub proof fn mark_broker_operation_applied_is_scoped<'a>(
        &'a self, operation_id: Uuid, log: Seq<Reply>,
    )
        ensures
            crate::step::is_scoped(
                Self::mark_broker_operation_applied_script(self, operation_id, log),
                self.tenant_id,
            ),
    {
    }

    /// What stops `create_registration`, in order.
    pub open spec fn create_registration_fault<'a>(
        &'a self, input: &'a NewMcpRegistration<'a>, log: Seq<Reply>,
    ) -> Option<Fault> {
        if input.tenant_id != self.tenant_id {
            Some(Fault::Error(DatabaseError::InvalidPersistedValue))
        } else if input.owner_principal_id != self.principal_id || !input.is_valid() {
            Some(Fault::Error(DatabaseError::InvalidPersistedValue))
        } else if log.len() > 0 && log[0].single_row::<McpRegistrationRecord>() is Err {
            Fault::of(log[0].single_row::<McpRegistrationRecord>())
        } else {
            None
        }
    }

    /// The commands of `create_registration`, in order.
    pub open spec fn create_registration_script<'a>(
        input: &'a NewMcpRegistration<'a>,
        log: Seq<Reply>,
    ) -> Seq<CommandView<'a>> {
        seq![
            CommandView::one(
                sql::CREATE_REGISTRATION,
                seq![
                    Param::Id(input.tenant_id), Param::Id(input.id),
                    Param::Id(input.owner_principal_id), Param::Text(input.owner_kind),
                    Param::Text(input.source_kind), Param::OptId(input.template_id),
                    Param::Text(input.display_name), Param::Text(input.description),
                    Param::Text(input.transport), Param::OptText(input.endpoint_uri),
                    Param::OptText(input.trust_profile), Param::OptText(input.catalog_entry),
                    Param::Json(input.policy),
                ],
            ),
        ]
    }

    /// What `create_registration` returns.
    pub open spec fn create_registration_output(log: Seq<Reply>) -> McpRegistrationRecord {
        let registration = log[0].single_row::<McpRegistrationRecord>()->Ok_0;
        registration
    }

    /// Stores a registration of the mutation's own principal.
    pub fn create_registration<'a>(
        &'a self, input: &'a NewMcpRegistration<'a>, log: &'a [Reply],
    ) -> (step: Step<'a, McpRegistrationRecord>)
        ensures
            step@ == StepView::proceed(
                Self::create_registration_fault(self, input, log@),
                Self::create_registration_script(input, log@),
                Self::create_registration_output(log@),
                log@,
            ),
    {
        if input.tenant_id != self.tenant_id {
            return Step::Fail(DatabaseError::InvalidPersistedValue);
        }
        if input.owner_principal_id != self.principal_id || !input.valid() {
            return Step::Fail(DatabaseError::InvalidPersistedValue);
        }
        if log.len() == 0 {
            return ask_one(
                sql::CREATE_REGISTRATION,
                vec![
                    Param::Id(input.tenant_id), Param::Id(input.id),
                    Param::Id(input.owner_principal_id), Param::Text(input.owner_kind),
                    Param::Text(input.source_kind), Param::OptId(input.template_id),
                    Param::Text(input.display_name), Param::Text(input.description),
                    Param::Text(input.transport), Param::OptText(input.endpoint_uri),
                    Param::OptText(input.trust_profile), Param::OptText(input.catalog_entry),
                    Param::Json(input.policy),
                ],
            );
        }
        let registration: McpRegistrationRecord = match single::<McpRegistrationRecord>(&log[0]) {
            Ok(value) => value,
            Err(fault) => return stop(fault),
        };
        Step::Done(registration)
    }

    /// Every statement of `create_registration` is about its tenant.
    pub proof fn create_registration_is_scoped<'a>(
        &'a self, input: &'a NewMcpRegistration<'a>, log: Seq<Reply>,
    )
        ensures
            Self::create_registration_fault(self, input, log) is None
                ==> crate::step::is_scoped(
                    Self::create_registration_script(input, log),
                    self.tenant_id,
                ),
    {
    }

    /// What stops `update_registration_state`, in order.
    pub open spec fn update_registration_state_fault(
        state: RegistrationPolicyState, can_enable: bool, log: Seq<Reply>,
    ) -> Option<Fault> {
        if state.enabled && !can_enable {
            Some(Fault::Error(DatabaseError::InvalidPersistedValue))
        } else if log.len() > 0
            && log[0].required_row::<McpRegistrationRecord>(DatabaseError::Conflict) is Err {
            Fault::of(log[0].required_row::<McpRegistrationRecord>(DatabaseError::Conflict))
        } else {
            None
        }
    }

    /// The commands of `update_registration_state`, in order.
    pub open spec fn update_registration_state_script<'a>(
        &'a self, registration_id: Uuid, expected_revision: i64, state: RegistrationPolicyState,
        protocol_version: Option<&'a str>, log: Seq<Reply>,
    ) -> Seq<CommandView<'a>> {
        seq![
            CommandView::optional(
                sql::UPDATE_REGISTRATION_STATE_2,
                seq![
                    Param::Id(self.tenant_id), Param::Id(self.principal_id),
                    Param::Id(registration_id), Param::I64(expected_revision),
                    Param::Text(crate::mcp::policy::validation_name(state.validation)),
                    Param::Text(crate::mcp::policy::authentication_name(state.authentication)),
                    Param::Text(crate::mcp::policy::capability_name(state.capabilities)),
                    Param::Text(crate::mcp::policy::quarantine_name(state.quarantine)),
                    Param::Bool(state.enabled), Param::OptText(protocol_version),
                ],
            ),
        ]
    }

    /// What `update_registration_state` returns.
    pub open spec fn update_registration_state_output(log: Seq<Reply>) -> McpRegistrationRecord {
        let registration =
            log[0].required_row::<McpRegistrationRecord>(DatabaseError::Conflict)->Ok_0;
        registration
    }

    /// Moves a registration of the principal's own to a policy state, from the expected revision.
    /// `can_enable` is the policy's verdict on whether a registration in that state may be enabled.
    pub fn update_registration_state<'a>(
        &'a self, registration_id: Uuid, expected_revision: i64, state: RegistrationPolicyState,
        can_enable: bool, protocol_version: Option<&'a str>, log: &'a [Reply],
    ) -> (step: Step<'a, McpRegistrationRecord>)
        ensures
            step@ == StepView::proceed(
                Self::update_registration_state_fault(state, can_enable, log@),
                Self::update_registration_state_script(
                    self, registration_id, expected_revision, state, protocol_version, log@,
                ),
                Self::update_registration_state_output(log@),
                log@,
            ),
    {
        if state.enabled && !can_enable {
            return Step::Fail(DatabaseError::InvalidPersistedValue);
        }
        if log.len() == 0 {
            return ask_optional(
                sql::UPDATE_REGISTRATION_STATE_2,
                vec![
                    Param::Id(self.tenant_id), Param::Id(self.principal_id),
                    Param::Id(registration_id), Param::I64(expected_revision),
                    Param::Text(validation_text(state.validation)),
                    Param::Text(authentication_text(state.authentication)),
                    Param::Text(capability_text(state.capabilities)),
                    Param::Text(quarantine_text(state.quarantine)), Param::Bool(state.enabled),
                    Param::OptText(protocol_version),
                ],
            );
        }
        let registration: McpRegistrationRecord = match required(&log[0], DatabaseError::Conflict) {
            Ok(value) => value,
            Err(fault) => return stop(fault),
        };
        Step::Done(registration)
    }

    /// Every statement of `update_registration_state` is about its tenant.
    pub proof fn update_registration_state_is_scoped<'a>(
        &'a self, registration_id: Uuid, expected_revision: i64, state: RegistrationPolicyState,
        protocol_version: Option<&'a str>, can_enable: bool, log: Seq<Reply>,
    )
        ensures
            crate::step::is_scoped(
                Self::update_registration_state_script(
                    self, registration_id, expected_revision, state, protocol_version, log,
                ),
                self.tenant_id,
            ),
    {
    }

    /// What stops `revoke_registration`, in order.
    pub open spec fn revoke_registration_fault(log: Seq<Reply>) -> Option<Fault> {
        if log.len() > 0
            && log[0].required_row::<McpRegistrationRecord>(DatabaseError::Conflict) is Err {
            Fault::of(log[0].required_row::<McpRegistrationRecord>(DatabaseError::Conflict))
        } else {
            None
        }
    }

    /// The commands of `revoke_registration`, in order.
    pub open spec fn revoke_registration_script<'a>(
        &'a self, registration_id: Uuid, expected_revision: i64, log: Seq<Reply>,
    ) -> Seq<CommandView<'a>> {
        seq![
            CommandView::optional(
                sql::REVOKE_REGISTRATION_2,
                seq![
                    Param::Id(self.tenant_id), Param::Id(self.principal_id),
                    Param::Id(registration_id), Param::I64(expected_revision),
                ],
            ),
        ]
    }

    /// What `revoke_registration` returns.
    pub open spec fn revoke_registration_output(log: Seq<Reply>) -> McpRegistrationRecord {
        let registration =
            log[0].required_row::<McpRegistrationRecord>(DatabaseError::Conflict)->Ok_0;
        registration
    }

    /// Revokes a registration of the principal's own at the expected revision.
    pub fn revoke_registration<'a>(
        &'a self, registration_id: Uuid, expected_revision: i64, log: &'a [Reply],
    ) -> (step: Step<'a, McpRegistrationRecord>)
        ensures
            step@ == StepView::proceed(
                Self::revoke_registration_fault(log@),
                Self::revoke_registration_script(self, registration_id, expected_revision, log@),
                Self::revoke_registration_output(log@),
                log@,
            ),
    {
        if log.len() == 0 {
            return ask_optional(
                sql::REVOKE_REGISTRATION_2,
                vec![
                    Param::Id(self.tenant_id), Param::Id(self.principal_id),
                    Param::Id(registration_id), Param::I64(expected_revision),
                ],
            );
        }
        let registration: McpRegistrationRecord = match required(&log[0], DatabaseError::Conflict) {
            Ok(value) => value,
            Err(fault) => return stop(fault),
        };
        Step::Done(registration)
    }

    /// Every statement of `revoke_registration` is about its tenant.
    pub proof fn revoke_registration_is_scoped<'a>(
        &'a self, registration_id: Uuid, expected_revision: i64, log: Seq<Reply>,
    )
        ensures
            crate::step::is_scoped(
                Self::revoke_registration_script(self, registration_id, expected_revision, log),
                self.tenant_id,
            ),
    {
    }

    /// What stops `delete_registration`, in order.
    pub open spec fn delete_registration_fault(log: Seq<Reply>) -> Option<Fault> {
        if log.len() > 0
            && log[0].required_row::<DeletedRegistration>(DatabaseError::Conflict) is Err {
            Fault::of(log[0].required_row::<DeletedRegistration>(DatabaseError::Conflict))
        } else {
            None
        }
    }

    /// The commands of `delete_registration`, in order.
    pub open spec fn delete_registration_script<'a>(
        &'a self, registration_id: Uuid, expected_revision: i64, tombstone_id: Uuid,
        log: Seq<Reply>,
    ) -> Seq<CommandView<'a>> {
        let deleted = log[0].required_row::<DeletedRegistration>(DatabaseError::Conflict)->Ok_0;
        seq![
            CommandView::optional(
                sql::DELETE_REGISTRATION_UPDATE_REGISTRATIONS,
                seq![
                    Param::Id(self.tenant_id), Param::Id(self.principal_id),
                    Param::Id(registration_id), Param::I64(expected_revision),
                ],
            ),
            CommandView::execute(
                sql::DELETE_REGISTRATION_INSERT_DELETION_TOMBSTONES,
                seq![
                    Param::Id(self.tenant_id), Param::Id(tombstone_id),
                    Param::Id(registration_id), Param::Id(deleted.owner_principal_id),
                    Param::I64(deleted.revocation_generation),
                ],
            ),
        ]
    }

    /// Deletes a registration of the principal's own at the expected revision, and leaves a
    /// tombstone.
    pub fn delete_registration<'a>(
        &'a self, registration_id: Uuid, expected_revision: i64, tombstone_id: Uuid,
        log: &'a [Reply],
    ) -> (step: Step<'a, ()>)
        ensures
            step@ == StepView::proceed(
                Self::delete_registration_fault(log@),
                Self::delete_registration_script(
                    self, registration_id, expected_revision, tombstone_id, log@,
                ),
                (),
                log@,
            ),
    {
        if log.len() == 0 {
            return ask_optional(
                sql::DELETE_REGISTRATION_UPDATE_REGISTRATIONS,
                vec![
                    Param::Id(self.tenant_id), Param::Id(self.principal_id),
                    Param::Id(registration_id), Param::I64(expected_revision),
                ],
            );
        }
        let deleted: DeletedRegistration = match required(&log[0], DatabaseError::Conflict) {
            Ok(value) => value,
            Err(fault) => return stop(fault),
        };
        if log.len() <= 1 {
            return ask_execute(
                sql::DELETE_REGISTRATION_INSERT_DELETION_TOMBSTONES,
                vec![
                    Param::Id(self.tenant_id), Param::Id(tombstone_id),
                    Param::Id(registration_id), Param::Id(deleted.owner_principal_id),
                    Param::I64(deleted.revocation_generation),
                ],
            );
        }
        Step::Done(())
    }

    /// Every statement of `delete_registration` is about its tenant.
    pub proof fn delete_registration_is_scoped<'a>(
        &'a self, registration_id: Uuid, expected_revision: i64, tombstone_id: Uuid,
        log: Seq<Reply>,
    )
        ensures
            crate::step::is_scoped(
                Self::delete_registration_script(
                    self, registration_id, expected_revision, tombstone_id, log,
                ),
                self.tenant_id,
            ),
    {
    }

    /// What stops `store_capability_snapshot`, in order.
    pub open spec fn store_capability_snapshot_fault<'a>(
        &'a self, input: &'a NewCapabilitySnapshot<'a>,
        fingerprints: &'a [Option<&'a [u8; 32]>], log: Seq<Reply>,
    ) -> Option<Fault> {
        let generation = log[0].required_row::<i64>(DatabaseError::Conflict)->Ok_0;
        let current = log[1].optional_row::<McpCapabilitySnapshotRecord>()->Ok_0;
        let planned = crate::mcp::capability::plan_spec(false, **input.document, fingerprints@);
        let at = (4 + planned.rows.len()) as int;
        if input.tenant_id != self.tenant_id {
            Some(Fault::Error(DatabaseError::InvalidPersistedValue))
        } else if !input.is_valid() {
            Some(Fault::Error(DatabaseError::InvalidPersistedValue))
        } else if log.len() > 0 && log[0].required_row::<i64>(DatabaseError::Conflict) is Err {
            Fault::of(log[0].required_row::<i64>(DatabaseError::Conflict))
        } else if log.len() > 0 && generation != input.credential_generation {
            Some(Fault::Error(DatabaseError::StaleGeneration))
        } else if log.len() > 1 && log[1].optional_row::<McpCapabilitySnapshotRecord>() is Err {
            Fault::of(log[1].optional_row::<McpCapabilitySnapshotRecord>())
        } else if log.len() > 1
            && is_same_snapshot(current, input.credential_generation, input.fingerprint) {
            None
        } else if log.len() > 3 && log[3].single_row::<String>() is Err {
            Fault::of(log[3].single_row::<String>())
        } else if log.len() > at - 1 && !planned.complete {
            Some(Fault::Error(DatabaseError::InvalidPersistedValue))
        } else if log.len() > at && log[at].one_affected(DatabaseError::Conflict) is Err {
            Fault::of(log[at].one_affected(DatabaseError::Conflict))
        } else {
            None
        }
    }

    /// The commands of `store_capability_snapshot`, in order.
    pub open spec fn store_capability_snapshot_script<'a>(
        &'a self, input: &'a NewCapabilitySnapshot<'a>, expected_revision: i64,
        fingerprints: &'a [Option<&'a [u8; 32]>], log: Seq<Reply>,
    ) -> Seq<CommandView<'a>> {
        let current = log[1].optional_row::<McpCapabilitySnapshotRecord>()->Ok_0;
        let replaces = current is Some;
        let planned = crate::mcp::capability::plan_spec(false, **input.document, fingerprints@);
        let state = crate::mcp::registration::discovered_state_spec(replaces);
        seq![
            CommandView::optional(
                sql::STORE_CAPABILITY_SNAPSHOT_SELECT_REGISTRATIONS_2,
                seq![
                    Param::Id(input.tenant_id), Param::Id(self.principal_id),
                    Param::Id(input.registration_id), Param::I64(expected_revision),
                ],
            ),
            CommandView::optional(
                sql::STORE_CAPABILITY_SNAPSHOT_SELECT_CAPABILITY_SNAPSHOTS_2,
                seq![Param::Id(input.tenant_id), Param::Id(input.registration_id)],
            ),
        ].add(
            if is_same_snapshot(current, input.credential_generation, input.fingerprint) {
                Seq::<CommandView<'a>>::empty()
            } else {
                seq![
                    CommandView::execute(
                        sql::STORE_CAPABILITY_SNAPSHOT_UPDATE_CAPABILITY_SNAPSHOTS,
                        seq![Param::Id(input.tenant_id), Param::Id(input.registration_id)],
                    ),
                    CommandView::one(
                        sql::STORE_CAPABILITY_SNAPSHOT_INSERT_CAPABILITY_SNAPSHOTS_2,
                        seq![
                            Param::Id(input.tenant_id), Param::Id(input.id),
                            Param::Id(input.registration_id),
                            Param::I64(input.credential_generation),
                            Param::Digest(input.fingerprint), Param::Text(input.protocol_version),
                            Param::Json(input.document),
                        ],
                    ),
                ].add(
                    Seq::new(
                        planned.rows.len(),
                        |j: int| CommandView::execute(
                            sql::STORE_CAPABILITY_SNAPSHOT_INSERT_CAPABILITIES,
                            seq![
                                Param::Id(input.tenant_id), Param::Id(input.id),
                                Param::Digest(planned.rows[j].fingerprint),
                                Param::Text(planned.rows[j].primitive),
                                Param::Owned(*planned.rows[j].name),
                                Param::OptBool(planned.rows[j].read_only_hint),
                                Param::Json(planned.rows[j].descriptor),
                            ],
                        ),
                    ),
                ).add(
                    seq![
                        CommandView::execute(
                            sql::STORE_CAPABILITY_SNAPSHOT_UPDATE_REGISTRATIONS_2,
                            seq![
                                Param::Id(input.tenant_id), Param::Id(self.principal_id),
                                Param::Id(input.registration_id), Param::I64(expected_revision),
                                Param::Text(state),
                            ],
                        ),
                    ],
                )
            },
        )
    }

    /// What `store_capability_snapshot` returns.
    pub open spec fn store_capability_snapshot_output<'a>(
        input: &'a NewCapabilitySnapshot<'a>,
        log: Seq<Reply>,
    ) -> McpCapabilitySnapshotRecordView {
        let current = log[1].optional_row::<McpCapabilitySnapshotRecord>()->Ok_0;
        let discovered_at = log[3].single_row::<String>()->Ok_0;
        if is_same_snapshot(current, input.credential_generation, input.fingerprint) {
            current->0@
        } else {
            McpCapabilitySnapshotRecordView {
                id: input.id,
                registration_id: input.registration_id,
                credential_generation: input.credential_generation,
                fingerprint: input.fingerprint@,
                protocol_version: input.protocol_version@,
                document: *input.document,
                discovered_at: discovered_at@,
            }
        }
    }

    /// Stores what was discovered of a registration of the principal's own, and returns the
    /// snapshot that is current then. `fingerprints` has the digests of the document's descriptors:
    /// see [`crate::mcp::capability::plan_spec`].
    #[verifier::spinoff_prover]
    #[verifier::rlimit(60)]
    pub fn store_capability_snapshot<'a>(
        &'a self, input: &'a NewCapabilitySnapshot<'a>, expected_revision: i64,
        fingerprints: &'a [Option<&'a [u8; 32]>], log: &'a [Reply],
    ) -> (step: Step<'a, McpCapabilitySnapshotRecord>)
        ensures
            step.deep() == StepView::proceed(
                Self::store_capability_snapshot_fault(self, input, fingerprints, log@),
                Self::store_capability_snapshot_script(
                    self, input, expected_revision, fingerprints, log@,
                ),
                Self::store_capability_snapshot_output(input, log@),
                log@,
            ),
    {
        if input.tenant_id != self.tenant_id {
            return Step::Fail(DatabaseError::InvalidPersistedValue);
        }
        if !input.valid() {
            return Step::Fail(DatabaseError::InvalidPersistedValue);
        }
        if log.len() == 0 {
            return ask_optional(
                sql::STORE_CAPABILITY_SNAPSHOT_SELECT_REGISTRATIONS_2,
                vec![
                    Param::Id(input.tenant_id), Param::Id(self.principal_id),
                    Param::Id(input.registration_id), Param::I64(expected_revision),
                ],
            );
        }
        let generation: i64 = match required::<i64>(&log[0], DatabaseError::Conflict) {
            Ok(value) => value,
            Err(fault) => return stop_deep(fault),
        };
        if generation != input.credential_generation {
            return Step::Fail(DatabaseError::StaleGeneration);
        }
        if log.len() <= 1 {
            return ask_optional(
                sql::STORE_CAPABILITY_SNAPSHOT_SELECT_CAPABILITY_SNAPSHOTS_2,
                vec![Param::Id(input.tenant_id), Param::Id(input.registration_id)],
            );
        }
        let current: Option<McpCapabilitySnapshotRecord> = match optional(&log[1]) {
            Ok(value) => value,
            Err(fault) => return stop_deep(fault),
        };
        if same_snapshot(&current, input.credential_generation, input.fingerprint) {
            return Step::Done(current.unwrap());
        }
        let replaces: bool = current.is_some();
        let planned: CapabilityPlan<'a> = plan(false, input.document, fingerprints);
        let state: &'static str = discovered_state(replaces);
        if log.len() <= 2 {
            return ask_execute(
                sql::STORE_CAPABILITY_SNAPSHOT_UPDATE_CAPABILITY_SNAPSHOTS,
                vec![Param::Id(input.tenant_id), Param::Id(input.registration_id)],
            );
        }
        if log.len() <= 3 {
            return ask_one(
                sql::STORE_CAPABILITY_SNAPSHOT_INSERT_CAPABILITY_SNAPSHOTS_2,
                vec![
                    Param::Id(input.tenant_id), Param::Id(input.id),
                    Param::Id(input.registration_id), Param::I64(input.credential_generation),
                    Param::Digest(input.fingerprint), Param::Text(input.protocol_version),
                    Param::Json(input.document),
                ],
            );
        }
        let discovered_at: String = match single::<String>(&log[3]) {
            Ok(value) => value,
            Err(fault) => return stop_deep(fault),
        };
        let items: usize = planned.rows.len();
        if log.len() - 4 < items {
            let j: usize = log.len() - 4;
            return ask_execute(
                sql::STORE_CAPABILITY_SNAPSHOT_INSERT_CAPABILITIES,
                vec![
                    Param::Id(input.tenant_id), Param::Id(input.id),
                    Param::Digest(planned.rows[j].fingerprint),
                    Param::Text(planned.rows[j].primitive),
                    Param::Owned(planned.rows[j].name.clone()),
                    Param::OptBool(planned.rows[j].read_only_hint),
                    Param::Json(planned.rows[j].descriptor),
                ],
            );
        }
        let at: usize = 4 + items;
        if !planned.complete {
            return Step::Fail(DatabaseError::InvalidPersistedValue);
        }
        if log.len() <= at {
            return ask_execute(
                sql::STORE_CAPABILITY_SNAPSHOT_UPDATE_REGISTRATIONS_2,
                vec![
                    Param::Id(input.tenant_id), Param::Id(self.principal_id),
                    Param::Id(input.registration_id), Param::I64(expected_revision),
                    Param::Text(state),
                ],
            );
        }
        if let Err(fault) = exactly_one(&log[at], DatabaseError::Conflict) {
            return stop_deep(fault);
        }
        Step::Done(
            McpCapabilitySnapshotRecord {
                id: input.id,
                registration_id: input.registration_id,
                credential_generation: input.credential_generation,
                fingerprint: Arc::new(owned_bytes(input.fingerprint)),
                protocol_version: input.protocol_version.to_owned(),
                document: input.document.clone(),
                discovered_at,
            },
        )
    }

    /// Every statement of `store_capability_snapshot` is about its tenant.
    pub proof fn store_capability_snapshot_is_scoped<'a>(
        &'a self, input: &'a NewCapabilitySnapshot<'a>, expected_revision: i64,
        fingerprints: &'a [Option<&'a [u8; 32]>], log: Seq<Reply>,
    )
        ensures
            Self::store_capability_snapshot_fault(
                self, input, fingerprints, log,
            ) is None ==> crate::step::is_scoped(
                Self::store_capability_snapshot_script(
                    self, input, expected_revision, fingerprints, log,
                ),
                self.tenant_id,
            ),
    {
    }

    /// What stops `revoke_approval`, in order.
    pub open spec fn revoke_approval_fault(log: Seq<Reply>) -> Option<Fault> {
        if log.len() > 0 && log[0].one_affected(DatabaseError::NotFound) is Err {
            Fault::of(log[0].one_affected(DatabaseError::NotFound))
        } else {
            None
        }
    }

    /// The commands of `revoke_approval`, in order.
    pub open spec fn revoke_approval_script<'a>(
        &'a self, approval_id: Uuid, log: Seq<Reply>,
    ) -> Seq<CommandView<'a>> {
        seq![
            CommandView::execute(
                sql::REVOKE_APPROVAL,
                seq![
                    Param::Id(self.tenant_id), Param::Id(self.principal_id),
                    Param::Id(approval_id),
                ],
            ),
        ]
    }

    /// Revokes an approval of the principal's own.
    pub fn revoke_approval<'a>(
        &'a self, approval_id: Uuid, log: &'a [Reply],
    ) -> (step: Step<'a, ()>)
        ensures
            step@ == StepView::proceed(
                Self::revoke_approval_fault(log@),
                Self::revoke_approval_script(self, approval_id, log@),
                (),
                log@,
            ),
    {
        if log.len() == 0 {
            return ask_execute(
                sql::REVOKE_APPROVAL,
                vec![
                    Param::Id(self.tenant_id), Param::Id(self.principal_id),
                    Param::Id(approval_id),
                ],
            );
        }
        if let Err(fault) = exactly_one(&log[0], DatabaseError::NotFound) {
            return stop(fault);
        }
        Step::Done(())
    }

    /// Every statement of `revoke_approval` is about its tenant.
    pub proof fn revoke_approval_is_scoped<'a>(&'a self, approval_id: Uuid, log: Seq<Reply>)
        ensures
            crate::step::is_scoped(
                Self::revoke_approval_script(self, approval_id, log),
                self.tenant_id,
            ),
    {
    }

    /// What stops `review_capabilities`, in order.
    pub open spec fn review_capabilities_fault<'a>(
        decisions: &'a [McpCapabilityDecision<'a>], state: RegistrationPolicyState,
        can_enable: bool, log: Seq<Reply>,
    ) -> Option<Fault> {
        let at = (0 + decisions@.len()) as int;
        if !are_reviews(decisions@) {
            Some(Fault::Error(DatabaseError::InvalidPersistedValue))
        } else if log.len() > 0
            && Reply::each_affected_one(
                log, 0, (decisions@.len()) as int, DatabaseError::StaleGeneration,
            ) is Err {
                Fault::of(
                    Reply::each_affected_one(
                        log, 0, (decisions@.len()) as int, DatabaseError::StaleGeneration,
                    ),
                )
            } else if log.len() > at - 1 && state.enabled && !can_enable {
                Some(Fault::Error(DatabaseError::InvalidPersistedValue))
            } else if log.len() > at
            && log[at].required_row::<McpRegistrationRecord>(DatabaseError::Conflict) is Err {
            Fault::of(log[at].required_row::<McpRegistrationRecord>(DatabaseError::Conflict))
        } else if log.len() > at + 1 && log[at + 1].all_rows::<McpCapabilityReviewRecord>() is Err {
            Fault::of(log[at + 1].all_rows::<McpCapabilityReviewRecord>())
        } else {
            None
        }
    }

    /// The commands of `review_capabilities`, in order.
    pub open spec fn review_capabilities_script<'a>(
        &'a self, registration_id: Uuid, expected_revision: i64, snapshot_id: Uuid,
        decisions: &'a [McpCapabilityDecision<'a>], state: RegistrationPolicyState,
        protocol_version: Option<&'a str>, log: Seq<Reply>,
    ) -> Seq<CommandView<'a>> {
        Seq::new(
            decisions@.len(),
            |j: int| CommandView::execute(
                sql::REVIEW_CAPABILITIES_INSERT_CAPABILITY_REVIEWS,
                seq![
                    Param::Id(self.tenant_id), Param::Id(registration_id),
                    Param::Id(snapshot_id), Param::Digest(decisions[j].fingerprint),
                    Param::Id(self.principal_id), Param::Text(decisions[j].decision),
                    Param::Json(decisions[j].constraints),
                ],
            ),
        ).add(
            seq![
                CommandView::optional(
                    sql::UPDATE_REGISTRATION_STATE_2,
                    seq![
                        Param::Id(self.tenant_id), Param::Id(self.principal_id),
                        Param::Id(registration_id), Param::I64(expected_revision),
                        Param::Text(crate::mcp::policy::validation_name(state.validation)),
                        Param::Text(crate::mcp::policy::authentication_name(state.authentication)),
                        Param::Text(crate::mcp::policy::capability_name(state.capabilities)),
                        Param::Text(crate::mcp::policy::quarantine_name(state.quarantine)),
                        Param::Bool(state.enabled), Param::OptText(protocol_version),
                    ],
                ),
                CommandView::all(
                    sql::REVIEW_CAPABILITIES_SELECT_CAPABILITY_REVIEWS,
                    seq![
                        Param::Id(self.tenant_id), Param::Id(registration_id),
                        Param::Id(snapshot_id),
                    ],
                ),
            ],
        )
    }

    /// What `review_capabilities` returns.
    pub open spec fn review_capabilities_output<'a>(
        decisions: &'a [McpCapabilityDecision<'a>],
        log: Seq<Reply>,
    ) -> (McpRegistrationRecord, Seq<McpCapabilityReviewRecord>) {
        let at = (0 + decisions@.len()) as int;
        let registration =
            log[at].required_row::<McpRegistrationRecord>(DatabaseError::Conflict)->Ok_0;
        let reviews = log[at + 1].all_rows::<McpCapabilityReviewRecord>()->Ok_0;
        (registration, reviews)
    }

    /// Reviews capabilities of the current snapshot and moves the registration to the policy state
    /// that follows. `can_enable` is the policy's verdict on that state.
    #[verifier::spinoff_prover]
    #[verifier::rlimit(40)]
    pub fn review_capabilities<'a>(
        &'a self, registration_id: Uuid, expected_revision: i64, snapshot_id: Uuid,
        decisions: &'a [McpCapabilityDecision<'a>], state: RegistrationPolicyState,
        can_enable: bool, protocol_version: Option<&'a str>, log: &'a [Reply],
    ) -> (step: Step<'a, (McpRegistrationRecord, Vec<McpCapabilityReviewRecord>)>)
        ensures
            step.deep() == StepView::proceed(
                Self::review_capabilities_fault(decisions, state, can_enable, log@),
                Self::review_capabilities_script(
                    self, registration_id, expected_revision, snapshot_id, decisions, state,
                    protocol_version, log@,
                ),
                Self::review_capabilities_output(decisions, log@),
                log@,
            ),
    {
        if !valid_reviews(decisions) {
            return Step::Fail(DatabaseError::InvalidPersistedValue);
        }
        let items: usize = decisions.len();
        if let Err(fault) = each_exactly_one(log, 0, items, DatabaseError::StaleGeneration) {
            return stop_deep(fault);
        }
        if log.len() - 0 < items {
            let j: usize = log.len() - 0;
            return ask_execute(
                sql::REVIEW_CAPABILITIES_INSERT_CAPABILITY_REVIEWS,
                vec![
                    Param::Id(self.tenant_id), Param::Id(registration_id),
                    Param::Id(snapshot_id), Param::Digest(decisions[j].fingerprint),
                    Param::Id(self.principal_id), Param::Text(decisions[j].decision),
                    Param::Json(decisions[j].constraints),
                ],
            );
        }
        let at: usize = 0 + items;
        if state.enabled && !can_enable {
            return Step::Fail(DatabaseError::InvalidPersistedValue);
        }
        if log.len() <= at {
            return ask_optional(
                sql::UPDATE_REGISTRATION_STATE_2,
                vec![
                    Param::Id(self.tenant_id), Param::Id(self.principal_id),
                    Param::Id(registration_id), Param::I64(expected_revision),
                    Param::Text(validation_text(state.validation)),
                    Param::Text(authentication_text(state.authentication)),
                    Param::Text(capability_text(state.capabilities)),
                    Param::Text(quarantine_text(state.quarantine)), Param::Bool(state.enabled),
                    Param::OptText(protocol_version),
                ],
            );
        }
        let registration: McpRegistrationRecord = match required(
            &log[at],
            DatabaseError::Conflict,
        ) {
            Ok(value) => value,
            Err(fault) => return stop_deep(fault),
        };
        if log.len() - at <= 1 {
            return ask_all(
                sql::REVIEW_CAPABILITIES_SELECT_CAPABILITY_REVIEWS,
                vec![
                    Param::Id(self.tenant_id), Param::Id(registration_id),
                    Param::Id(snapshot_id),
                ],
            );
        }
        let reviews: Vec<McpCapabilityReviewRecord> = match many(&log[at + 1]) {
            Ok(value) => value,
            Err(fault) => return stop_deep(fault),
        };
        Step::Done((registration, reviews))
    }

    /// Every statement of `review_capabilities` is about its tenant.
    pub proof fn review_capabilities_is_scoped<'a>(
        &'a self, registration_id: Uuid, expected_revision: i64, snapshot_id: Uuid,
        decisions: &'a [McpCapabilityDecision<'a>], state: RegistrationPolicyState,
        protocol_version: Option<&'a str>, can_enable: bool, log: Seq<Reply>,
    )
        ensures
            crate::step::is_scoped(
                Self::review_capabilities_script(
                    self, registration_id, expected_revision, snapshot_id, decisions, state,
                    protocol_version, log,
                ),
                self.tenant_id,
            ),
    {
    }

    /// What stops `create_invocation_intent`, in order.
    pub open spec fn create_invocation_intent_fault<'a>(
        primitive: &'a str,
        log: Seq<Reply>,
    ) -> Option<Fault> {
        if !crate::mcp::invocation::is_primitive(primitive@) {
            Some(Fault::Error(DatabaseError::InvalidPersistedValue))
        } else if log.len() > 0 && log[0].single_row::<i64>() is Err {
            Fault::of(log[0].single_row::<i64>())
        } else {
            None
        }
    }

    /// The commands of `create_invocation_intent`, in order.
    pub open spec fn create_invocation_intent_script<'a>(
        &'a self, id: Uuid, registration_id: Uuid, session_id: Uuid, application_id: &'a str,
        primitive: &'a str, capability_fingerprint: &'a [u8; 32], argument_digest: &'a [u8; 32],
        attachment_digest: &'a [u8; 32], request_digest: &'a [u8; 32], log: Seq<Reply>,
    ) -> Seq<CommandView<'a>> {
        seq![
            CommandView::one(
                sql::CREATE_INVOCATION_INTENT,
                seq![
                    Param::Id(self.tenant_id), Param::Id(id), Param::Id(registration_id),
                    Param::Id(self.principal_id), Param::Id(session_id),
                    Param::Text(application_id), Param::Text(primitive),
                    Param::Digest(capability_fingerprint), Param::Digest(argument_digest),
                    Param::Digest(attachment_digest), Param::Digest(request_digest),
                ],
            ),
        ]
    }

    /// What `create_invocation_intent` returns.
    pub open spec fn create_invocation_intent_output(log: Seq<Reply>) -> i64 {
        let expires_at = log[0].single_row::<i64>()->Ok_0;
        expires_at
    }

    /// Records that an invocation is intended, and returns when the intent expires.
    pub fn create_invocation_intent<'a>(
        &'a self, id: Uuid, registration_id: Uuid, session_id: Uuid, application_id: &'a str,
        primitive: &'a str, capability_fingerprint: &'a [u8; 32], argument_digest: &'a [u8; 32],
        attachment_digest: &'a [u8; 32], request_digest: &'a [u8; 32], log: &'a [Reply],
    ) -> (step: Step<'a, i64>)
        ensures
            step@ == StepView::proceed(
                Self::create_invocation_intent_fault(primitive, log@),
                Self::create_invocation_intent_script(
                    self, id, registration_id, session_id, application_id, primitive,
                    capability_fingerprint, argument_digest, attachment_digest, request_digest,
                    log@,
                ),
                Self::create_invocation_intent_output(log@),
                log@,
            ),
    {
        if !known_primitive(primitive) {
            return Step::Fail(DatabaseError::InvalidPersistedValue);
        }
        if log.len() == 0 {
            return ask_one(
                sql::CREATE_INVOCATION_INTENT,
                vec![
                    Param::Id(self.tenant_id), Param::Id(id), Param::Id(registration_id),
                    Param::Id(self.principal_id), Param::Id(session_id),
                    Param::Text(application_id), Param::Text(primitive),
                    Param::Digest(capability_fingerprint), Param::Digest(argument_digest),
                    Param::Digest(attachment_digest), Param::Digest(request_digest),
                ],
            );
        }
        let expires_at: i64 = match single::<i64>(&log[0]) {
            Ok(value) => value,
            Err(fault) => return stop(fault),
        };
        Step::Done(expires_at)
    }

    /// Every statement of `create_invocation_intent` is about its tenant.
    pub proof fn create_invocation_intent_is_scoped<'a>(
        &'a self, id: Uuid, registration_id: Uuid, session_id: Uuid, application_id: &'a str,
        primitive: &'a str, capability_fingerprint: &'a [u8; 32], argument_digest: &'a [u8; 32],
        attachment_digest: &'a [u8; 32], request_digest: &'a [u8; 32], log: Seq<Reply>,
    )
        ensures
            crate::step::is_scoped(
                Self::create_invocation_intent_script(
                    self, id, registration_id, session_id, application_id, primitive,
                    capability_fingerprint, argument_digest, attachment_digest, request_digest, log,
                ),
                self.tenant_id,
            ),
    {
    }

    /// What stops `cancel_invocation`, in order.
    pub open spec fn cancel_invocation_fault(log: Seq<Reply>) -> Option<Fault> {
        let state = log[0].required_row::<String>(DatabaseError::NotFound)->Ok_0;
        if log.len() > 0 && log[0].required_row::<String>(DatabaseError::NotFound) is Err {
            Fault::of(log[0].required_row::<String>(DatabaseError::NotFound))
        } else if log.len() > 0 && state@ == "cancelled"@ {
            None
        } else if log.len() > 0 && state@ != "pending"@ && state@ != "running"@ {
            Some(Fault::Error(DatabaseError::Conflict))
        } else {
            None
        }
    }

    /// The commands of `cancel_invocation`, in order.
    pub open spec fn cancel_invocation_script<'a>(
        &'a self, invocation_id: Uuid, log: Seq<Reply>,
    ) -> Seq<CommandView<'a>> {
        let state = log[0].required_row::<String>(DatabaseError::NotFound)->Ok_0;
        seq![
            CommandView::optional(
                sql::CANCEL_INVOCATION_SELECT_INVOCATIONS,
                seq![
                    Param::Id(self.tenant_id), Param::Id(self.principal_id),
                    Param::Id(invocation_id),
                ],
            ),
        ].add(
            if state@ == "cancelled"@ {
                Seq::<CommandView<'a>>::empty()
            } else {
                seq![
                    CommandView::execute(
                        sql::CANCEL_INVOCATION_UPDATE_INVOCATIONS,
                        seq![
                            Param::Id(self.tenant_id), Param::Id(self.principal_id),
                            Param::Id(invocation_id),
                        ],
                    ),
                ]
            },
        )
    }

    /// Cancels an invocation of the principal's own that is not over yet; one that was cancelled
    /// before stays so.
    pub fn cancel_invocation<'a>(
        &'a self, invocation_id: Uuid, log: &'a [Reply],
    ) -> (step: Step<'a, ()>)
        ensures
            step@ == StepView::proceed(
                Self::cancel_invocation_fault(log@),
                Self::cancel_invocation_script(self, invocation_id, log@),
                (),
                log@,
            ),
    {
        if log.len() == 0 {
            return ask_optional(
                sql::CANCEL_INVOCATION_SELECT_INVOCATIONS,
                vec![
                    Param::Id(self.tenant_id), Param::Id(self.principal_id),
                    Param::Id(invocation_id),
                ],
            );
        }
        let state: String = match required::<String>(&log[0], DatabaseError::NotFound) {
            Ok(value) => value,
            Err(fault) => return stop(fault),
        };
        if text_eq(state.as_str(), "cancelled") {
            return Step::Done(());
        }
        if !text_eq(state.as_str(), "pending") && !text_eq(state.as_str(), "running") {
            return Step::Fail(DatabaseError::Conflict);
        }
        if log.len() <= 1 {
            return ask_execute(
                sql::CANCEL_INVOCATION_UPDATE_INVOCATIONS,
                vec![
                    Param::Id(self.tenant_id), Param::Id(self.principal_id),
                    Param::Id(invocation_id),
                ],
            );
        }
        Step::Done(())
    }

    /// Every statement of `cancel_invocation` is about its tenant.
    pub proof fn cancel_invocation_is_scoped<'a>(&'a self, invocation_id: Uuid, log: Seq<Reply>)
        ensures
            crate::step::is_scoped(
                Self::cancel_invocation_script(self, invocation_id, log),
                self.tenant_id,
            ),
    {
    }

    /// What stops `revoke_data_grant`, in order.
    pub open spec fn revoke_data_grant_fault(log: Seq<Reply>) -> Option<Fault> {
        if log.len() > 0 && log[0].one_affected(DatabaseError::NotFound) is Err {
            Fault::of(log[0].one_affected(DatabaseError::NotFound))
        } else {
            None
        }
    }

    /// The commands of `revoke_data_grant`, in order.
    pub open spec fn revoke_data_grant_script<'a>(
        &'a self, drive_id: Uuid, resource_id: Uuid, grant_id: Uuid, namespace_generation: i64,
        acl_generation: i64, log: Seq<Reply>,
    ) -> Seq<CommandView<'a>> {
        seq![
            CommandView::execute(
                sql::REVOKE_DATA_GRANT,
                seq![
                    Param::Id(self.tenant_id), Param::Id(self.principal_id),
                    Param::Id(drive_id), Param::Id(resource_id), Param::Id(grant_id),
                    Param::I64(namespace_generation), Param::I64(acl_generation),
                ],
            ),
        ]
    }

    /// Revokes a grant of the principal's own, where the file is as it was when that was
    /// authorized.
    pub fn revoke_data_grant<'a>(
        &'a self, drive_id: Uuid, resource_id: Uuid, grant_id: Uuid, namespace_generation: i64,
        acl_generation: i64, log: &'a [Reply],
    ) -> (step: Step<'a, ()>)
        ensures
            step@ == StepView::proceed(
                Self::revoke_data_grant_fault(log@),
                Self::revoke_data_grant_script(
                    self, drive_id, resource_id, grant_id, namespace_generation, acl_generation,
                    log@,
                ),
                (),
                log@,
            ),
    {
        if log.len() == 0 {
            return ask_execute(
                sql::REVOKE_DATA_GRANT,
                vec![
                    Param::Id(self.tenant_id), Param::Id(self.principal_id),
                    Param::Id(drive_id), Param::Id(resource_id), Param::Id(grant_id),
                    Param::I64(namespace_generation), Param::I64(acl_generation),
                ],
            );
        }
        if let Err(fault) = exactly_one(&log[0], DatabaseError::NotFound) {
            return stop(fault);
        }
        Step::Done(())
    }

    /// Every statement of `revoke_data_grant` is about its tenant.
    pub proof fn revoke_data_grant_is_scoped<'a>(
        &'a self, drive_id: Uuid, resource_id: Uuid, grant_id: Uuid, namespace_generation: i64,
        acl_generation: i64, log: Seq<Reply>,
    )
        ensures
            crate::step::is_scoped(
                Self::revoke_data_grant_script(
                    self, drive_id, resource_id, grant_id, namespace_generation, acl_generation,
                    log,
                ),
                self.tenant_id,
            ),
    {
    }

    /// What stops `create_managed_template`, in order.
    pub open spec fn create_managed_template_fault<'a>(
        &'a self, input: &'a NewMcpManagedTemplate<'a>, log: Seq<Reply>,
    ) -> Option<Fault> {
        if input.tenant_id != self.tenant_id {
            Some(Fault::Error(DatabaseError::InvalidPersistedValue))
        } else if input.created_by != self.principal_id || !input.is_valid() {
            Some(Fault::Error(DatabaseError::InvalidPersistedValue))
        } else if log.len() > 0 && log[0].single_row::<McpManagedTemplateRecord>() is Err {
            Fault::of(log[0].single_row::<McpManagedTemplateRecord>())
        } else {
            None
        }
    }

    /// The commands of `create_managed_template`, in order.
    pub open spec fn create_managed_template_script<'a>(
        input: &'a NewMcpManagedTemplate<'a>,
        log: Seq<Reply>,
    ) -> Seq<CommandView<'a>> {
        seq![
            CommandView::one(
                sql::CREATE_MANAGED_TEMPLATE,
                seq![
                    Param::Id(input.tenant_id), Param::Id(input.id),
                    Param::Text(input.display_name), Param::Text(input.description),
                    Param::Text(input.transport), Param::OptText(input.endpoint_uri),
                    Param::OptText(input.trust_profile), Param::OptText(input.catalog_entry),
                    Param::Json(input.policy), Param::Id(input.created_by),
                ],
            ),
        ]
    }

    /// What `create_managed_template` returns.
    pub open spec fn create_managed_template_output(log: Seq<Reply>) -> McpManagedTemplateRecord {
        let template = log[0].single_row::<McpManagedTemplateRecord>()->Ok_0;
        template
    }

    /// Stores a template by the mutation's own principal.
    pub fn create_managed_template<'a>(
        &'a self, input: &'a NewMcpManagedTemplate<'a>, log: &'a [Reply],
    ) -> (step: Step<'a, McpManagedTemplateRecord>)
        ensures
            step@ == StepView::proceed(
                Self::create_managed_template_fault(self, input, log@),
                Self::create_managed_template_script(input, log@),
                Self::create_managed_template_output(log@),
                log@,
            ),
    {
        if input.tenant_id != self.tenant_id {
            return Step::Fail(DatabaseError::InvalidPersistedValue);
        }
        if input.created_by != self.principal_id || !input.valid() {
            return Step::Fail(DatabaseError::InvalidPersistedValue);
        }
        if log.len() == 0 {
            return ask_one(
                sql::CREATE_MANAGED_TEMPLATE,
                vec![
                    Param::Id(input.tenant_id), Param::Id(input.id),
                    Param::Text(input.display_name), Param::Text(input.description),
                    Param::Text(input.transport), Param::OptText(input.endpoint_uri),
                    Param::OptText(input.trust_profile), Param::OptText(input.catalog_entry),
                    Param::Json(input.policy), Param::Id(input.created_by),
                ],
            );
        }
        let template: McpManagedTemplateRecord = match single::<McpManagedTemplateRecord>(&log[0]) {
            Ok(value) => value,
            Err(fault) => return stop(fault),
        };
        Step::Done(template)
    }

    /// Every statement of `create_managed_template` is about its tenant.
    pub proof fn create_managed_template_is_scoped<'a>(
        &'a self, input: &'a NewMcpManagedTemplate<'a>, log: Seq<Reply>,
    )
        ensures
            Self::create_managed_template_fault(self, input, log) is None
                ==> crate::step::is_scoped(
                    Self::create_managed_template_script(input, log),
                    self.tenant_id,
                ),
    {
    }

    /// What stops `update_managed_template`, in order.
    pub open spec fn update_managed_template_fault<'a>(
        &'a self, input: &'a TemplateConfigurationUpdate<'a>, log: Seq<Reply>,
    ) -> Option<Fault> {
        if input.tenant_id != self.tenant_id {
            Some(Fault::Error(DatabaseError::InvalidPersistedValue))
        } else if !input.is_valid() {
            Some(Fault::Error(DatabaseError::InvalidPersistedValue))
        } else if log.len() > 0
            && log[0].required_row::<McpManagedTemplateRecord>(DatabaseError::Conflict) is Err {
            Fault::of(log[0].required_row::<McpManagedTemplateRecord>(DatabaseError::Conflict))
        } else {
            None
        }
    }

    /// The commands of `update_managed_template`, in order.
    pub open spec fn update_managed_template_script<'a>(
        input: &'a TemplateConfigurationUpdate<'a>,
        log: Seq<Reply>,
    ) -> Seq<CommandView<'a>> {
        seq![
            CommandView::optional(
                sql::UPDATE_MANAGED_TEMPLATE,
                seq![
                    Param::Id(input.tenant_id), Param::Id(input.template_id),
                    Param::I64(input.expected_revision), Param::Text(input.display_name),
                    Param::Text(input.description), Param::OptText(input.endpoint_uri),
                    Param::OptText(input.trust_profile), Param::OptText(input.catalog_entry),
                    Param::Json(input.policy), Param::Bool(input.enabled),
                ],
            ),
        ]
    }

    /// What `update_managed_template` returns.
    pub open spec fn update_managed_template_output(log: Seq<Reply>) -> McpManagedTemplateRecord {
        let template =
            log[0].required_row::<McpManagedTemplateRecord>(DatabaseError::Conflict)->Ok_0;
        template
    }

    /// Replaces a template's configuration at the expected revision.
    pub fn update_managed_template<'a>(
        &'a self, input: &'a TemplateConfigurationUpdate<'a>, log: &'a [Reply],
    ) -> (step: Step<'a, McpManagedTemplateRecord>)
        ensures
            step@ == StepView::proceed(
                Self::update_managed_template_fault(self, input, log@),
                Self::update_managed_template_script(input, log@),
                Self::update_managed_template_output(log@),
                log@,
            ),
    {
        if input.tenant_id != self.tenant_id {
            return Step::Fail(DatabaseError::InvalidPersistedValue);
        }
        if !input.valid() {
            return Step::Fail(DatabaseError::InvalidPersistedValue);
        }
        if log.len() == 0 {
            return ask_optional(
                sql::UPDATE_MANAGED_TEMPLATE,
                vec![
                    Param::Id(input.tenant_id), Param::Id(input.template_id),
                    Param::I64(input.expected_revision), Param::Text(input.display_name),
                    Param::Text(input.description), Param::OptText(input.endpoint_uri),
                    Param::OptText(input.trust_profile), Param::OptText(input.catalog_entry),
                    Param::Json(input.policy), Param::Bool(input.enabled),
                ],
            );
        }
        let template: McpManagedTemplateRecord = match required(&log[0], DatabaseError::Conflict) {
            Ok(value) => value,
            Err(fault) => return stop(fault),
        };
        Step::Done(template)
    }

    /// Every statement of `update_managed_template` is about its tenant.
    pub proof fn update_managed_template_is_scoped<'a>(
        &'a self, input: &'a TemplateConfigurationUpdate<'a>, log: Seq<Reply>,
    )
        ensures
            Self::update_managed_template_fault(self, input, log) is None
                ==> crate::step::is_scoped(
                    Self::update_managed_template_script(input, log),
                    self.tenant_id,
                ),
    {
    }

    /// What stops `delete_managed_template`, in order.
    pub open spec fn delete_managed_template_fault(log: Seq<Reply>) -> Option<Fault> {
        if log.len() > 0 && log[0].one_affected(DatabaseError::NotFound) is Err {
            Fault::of(log[0].one_affected(DatabaseError::NotFound))
        } else {
            None
        }
    }

    /// The commands of `delete_managed_template`, in order.
    pub open spec fn delete_managed_template_script<'a>(
        &'a self, template_id: Uuid, expected_revision: i64, log: Seq<Reply>,
    ) -> Seq<CommandView<'a>> {
        seq![
            CommandView::execute(
                sql::DELETE_MANAGED_TEMPLATE,
                seq![
                    Param::Id(self.tenant_id), Param::Id(template_id),
                    Param::I64(expected_revision),
                ],
            ),
        ]
    }

    /// Deletes a template at the expected revision.
    pub fn delete_managed_template<'a>(
        &'a self, template_id: Uuid, expected_revision: i64, log: &'a [Reply],
    ) -> (step: Step<'a, ()>)
        ensures
            step@ == StepView::proceed(
                Self::delete_managed_template_fault(log@),
                Self::delete_managed_template_script(self, template_id, expected_revision, log@),
                (),
                log@,
            ),
    {
        if log.len() == 0 {
            return ask_execute(
                sql::DELETE_MANAGED_TEMPLATE,
                vec![
                    Param::Id(self.tenant_id), Param::Id(template_id),
                    Param::I64(expected_revision),
                ],
            );
        }
        if let Err(fault) = exactly_one(&log[0], DatabaseError::NotFound) {
            return stop(fault);
        }
        Step::Done(())
    }

    /// Every statement of `delete_managed_template` is about its tenant.
    pub proof fn delete_managed_template_is_scoped<'a>(
        &'a self, template_id: Uuid, expected_revision: i64, log: Seq<Reply>,
    )
        ensures
            crate::step::is_scoped(
                Self::delete_managed_template_script(self, template_id, expected_revision, log),
                self.tenant_id,
            ),
    {
    }

    /// What stops `assign_template`, in order.
    pub open spec fn assign_template_fault<'a>(
        subject_kind: &'a str,
        log: Seq<Reply>,
    ) -> Option<Fault> {
        if !crate::mcp::operations::is_subject_kind(subject_kind@) {
            Some(Fault::Error(DatabaseError::InvalidPersistedValue))
        } else if log.len() > 0 && log[0].required_row::<i64>(DatabaseError::Conflict) is Err {
            Fault::of(log[0].required_row::<i64>(DatabaseError::Conflict))
        } else {
            None
        }
    }

    /// The commands of `assign_template`, in order.
    pub open spec fn assign_template_script<'a>(
        &'a self, template_id: Uuid, subject_principal_id: Uuid, subject_kind: &'a str,
        expected_template_revision: i64, log: Seq<Reply>,
    ) -> Seq<CommandView<'a>> {
        seq![
            CommandView::optional(
                sql::ASSIGN_TEMPLATE,
                seq![
                    Param::Id(self.tenant_id), Param::Id(template_id),
                    Param::Id(subject_principal_id), Param::Text(subject_kind),
                    Param::Id(self.principal_id), Param::I64(expected_template_revision),
                ],
            ),
        ]
    }

    /// What `assign_template` returns.
    pub open spec fn assign_template_output(log: Seq<Reply>) -> i64 {
        let created_at = log[0].required_row::<i64>(DatabaseError::Conflict)->Ok_0;
        created_at
    }

    /// Assigns a template at the expected revision to a principal, and returns when.
    pub fn assign_template<'a>(
        &'a self, template_id: Uuid, subject_principal_id: Uuid, subject_kind: &'a str,
        expected_template_revision: i64, log: &'a [Reply],
    ) -> (step: Step<'a, i64>)
        ensures
            step@ == StepView::proceed(
                Self::assign_template_fault(subject_kind, log@),
                Self::assign_template_script(
                    self, template_id, subject_principal_id, subject_kind,
                    expected_template_revision, log@,
                ),
                Self::assign_template_output(log@),
                log@,
            ),
    {
        if !known_subject_kind(subject_kind) {
            return Step::Fail(DatabaseError::InvalidPersistedValue);
        }
        if log.len() == 0 {
            return ask_optional(
                sql::ASSIGN_TEMPLATE,
                vec![
                    Param::Id(self.tenant_id), Param::Id(template_id),
                    Param::Id(subject_principal_id), Param::Text(subject_kind),
                    Param::Id(self.principal_id), Param::I64(expected_template_revision),
                ],
            );
        }
        let created_at: i64 = match required::<i64>(&log[0], DatabaseError::Conflict) {
            Ok(value) => value,
            Err(fault) => return stop(fault),
        };
        Step::Done(created_at)
    }

    /// Every statement of `assign_template` is about its tenant.
    pub proof fn assign_template_is_scoped<'a>(
        &'a self, template_id: Uuid, subject_principal_id: Uuid, subject_kind: &'a str,
        expected_template_revision: i64, log: Seq<Reply>,
    )
        ensures
            crate::step::is_scoped(
                Self::assign_template_script(
                    self, template_id, subject_principal_id, subject_kind,
                    expected_template_revision, log,
                ),
                self.tenant_id,
            ),
    {
    }

    /// What stops `revoke_template_assignment`, in order.
    pub open spec fn revoke_template_assignment_fault(log: Seq<Reply>) -> Option<Fault> {
        if log.len() > 0 && log[0].required_row::<()>(DatabaseError::Conflict) is Err {
            Fault::of(log[0].required_row::<()>(DatabaseError::Conflict))
        } else if log.len() > 1 && log[1].one_affected(DatabaseError::NotFound) is Err {
            Fault::of(log[1].one_affected(DatabaseError::NotFound))
        } else {
            None
        }
    }

    /// The commands of `revoke_template_assignment`, in order.
    pub open spec fn revoke_template_assignment_script<'a>(
        &'a self, template_id: Uuid, subject_principal_id: Uuid,
        expected_template_revision: i64, log: Seq<Reply>,
    ) -> Seq<CommandView<'a>> {
        seq![
            CommandView::optional(
                sql::REVOKE_TEMPLATE_ASSIGNMENT_SELECT_MANAGED_TEMPLATES,
                seq![
                    Param::Id(self.tenant_id), Param::Id(template_id),
                    Param::I64(expected_template_revision),
                ],
            ),
            CommandView::execute(
                sql::REVOKE_TEMPLATE_ASSIGNMENT_UPDATE_TEMPLATE_ASSIGNMENTS,
                seq![
                    Param::Id(self.tenant_id), Param::Id(template_id),
                    Param::Id(subject_principal_id),
                ],
            ),
            CommandView::execute(
                sql::REVOKE_TEMPLATE_ASSIGNMENT_UPDATE_REGISTRATIONS,
                seq![
                    Param::Id(self.tenant_id), Param::Id(template_id),
                    Param::Id(subject_principal_id),
                ],
            ),
        ]
    }

    /// Takes a template at the expected revision away from a principal, and disables what that
    /// principal registered from it.
    pub fn revoke_template_assignment<'a>(
        &'a self, template_id: Uuid, subject_principal_id: Uuid,
        expected_template_revision: i64, log: &'a [Reply],
    ) -> (step: Step<'a, ()>)
        ensures
            step@ == StepView::proceed(
                Self::revoke_template_assignment_fault(log@),
                Self::revoke_template_assignment_script(
                    self, template_id, subject_principal_id, expected_template_revision, log@,
                ),
                (),
                log@,
            ),
    {
        if log.len() == 0 {
            return ask_optional(
                sql::REVOKE_TEMPLATE_ASSIGNMENT_SELECT_MANAGED_TEMPLATES,
                vec![
                    Param::Id(self.tenant_id), Param::Id(template_id),
                    Param::I64(expected_template_revision),
                ],
            );
        }
        let template: () = match required::<()>(&log[0], DatabaseError::Conflict) {
            Ok(value) => value,
            Err(fault) => return stop(fault),
        };
        if log.len() <= 1 {
            return ask_execute(
                sql::REVOKE_TEMPLATE_ASSIGNMENT_UPDATE_TEMPLATE_ASSIGNMENTS,
                vec![
                    Param::Id(self.tenant_id), Param::Id(template_id),
                    Param::Id(subject_principal_id),
                ],
            );
        }
        if let Err(fault) = exactly_one(&log[1], DatabaseError::NotFound) {
            return stop(fault);
        }
        if log.len() <= 2 {
            return ask_execute(
                sql::REVOKE_TEMPLATE_ASSIGNMENT_UPDATE_REGISTRATIONS,
                vec![
                    Param::Id(self.tenant_id), Param::Id(template_id),
                    Param::Id(subject_principal_id),
                ],
            );
        }
        Step::Done(())
    }

    /// Every statement of `revoke_template_assignment` is about its tenant.
    pub proof fn revoke_template_assignment_is_scoped<'a>(
        &'a self, template_id: Uuid, subject_principal_id: Uuid, expected_template_revision: i64,
        log: Seq<Reply>,
    )
        ensures
            crate::step::is_scoped(
                Self::revoke_template_assignment_script(
                    self, template_id, subject_principal_id, expected_template_revision, log,
                ),
                self.tenant_id,
            ),
    {
    }

    /// What stops `template_assignment_count`, in order.
    pub open spec fn template_assignment_count_fault(log: Seq<Reply>) -> Option<Fault> {
        if log.len() > 0 && log[0].single_row::<i64>() is Err {
            Fault::of(log[0].single_row::<i64>())
        } else {
            None
        }
    }

    /// The commands of `template_assignment_count`, in order.
    pub open spec fn template_assignment_count_script<'a>(
        &'a self, template_id: Uuid, log: Seq<Reply>,
    ) -> Seq<CommandView<'a>> {
        seq![
            CommandView::one(
                sql::TEMPLATE_ASSIGNMENT_COUNT,
                seq![Param::Id(self.tenant_id), Param::Id(template_id)],
            ),
        ]
    }

    /// What `template_assignment_count` returns.
    pub open spec fn template_assignment_count_output(log: Seq<Reply>) -> i64 {
        let count = log[0].single_row::<i64>()->Ok_0;
        count
    }

    /// How many principals a template is assigned to.
    pub fn template_assignment_count<'a>(
        &'a self, template_id: Uuid, log: &'a [Reply],
    ) -> (step: Step<'a, i64>)
        ensures
            step@ == StepView::proceed(
                Self::template_assignment_count_fault(log@),
                Self::template_assignment_count_script(self, template_id, log@),
                Self::template_assignment_count_output(log@),
                log@,
            ),
    {
        if log.len() == 0 {
            return ask_one(
                sql::TEMPLATE_ASSIGNMENT_COUNT,
                vec![Param::Id(self.tenant_id), Param::Id(template_id)],
            );
        }
        let count: i64 = match single::<i64>(&log[0]) {
            Ok(value) => value,
            Err(fault) => return stop(fault),
        };
        Step::Done(count)
    }

    /// Every statement of `template_assignment_count` is about its tenant.
    pub proof fn template_assignment_count_is_scoped<'a>(
        &'a self, template_id: Uuid, log: Seq<Reply>,
    )
        ensures
            crate::step::is_scoped(
                Self::template_assignment_count_script(self, template_id, log),
                self.tenant_id,
            ),
    {
    }

    /// What stops `create_service_principal`, in order.
    pub open spec fn create_service_principal_fault<'a>(
        &'a self, input: &'a NewMcpServicePrincipal<'a>, log: Seq<Reply>,
    ) -> Option<Fault> {
        if input.tenant_id != self.tenant_id {
            Some(Fault::Error(DatabaseError::InvalidPersistedValue))
        } else if input.created_by != self.principal_id || !input.is_valid() {
            Some(Fault::Error(DatabaseError::InvalidPersistedValue))
        } else if log.len() > 3 && log[3].single_row::<McpServicePrincipalRecord>() is Err {
            Fault::of(log[3].single_row::<McpServicePrincipalRecord>())
        } else {
            None
        }
    }

    /// The commands of `create_service_principal`, in order.
    pub open spec fn create_service_principal_script<'a>(
        input: &'a NewMcpServicePrincipal<'a>,
        log: Seq<Reply>,
    ) -> Seq<CommandView<'a>> {
        seq![
            CommandView::execute(
                sql::CREATE_SERVICE_PRINCIPAL_INSERT_PRINCIPALS,
                seq![Param::Id(input.tenant_id), Param::Id(input.principal_id)],
            ),
            CommandView::execute(
                sql::CREATE_SERVICE_PRINCIPAL_INSERT_SERVICE_PRINCIPALS,
                seq![
                    Param::Id(input.tenant_id), Param::Id(input.service_id),
                    Param::Id(input.principal_id), Param::Text(input.display_name),
                    Param::Id(input.created_by),
                ],
            ),
            CommandView::execute(
                sql::CREATE_SERVICE_PRINCIPAL_INSERT_SERVICE_IDENTITY_BINDINGS,
                seq![
                    Param::Id(input.tenant_id), Param::Id(input.identity_binding_id),
                    Param::Id(input.service_id), Param::Text(input.spiffe_uri),
                ],
            ),
            CommandView::one(
                sql::SERVICE_ROW,
                seq![Param::Id(input.tenant_id), Param::Id(input.service_id)],
            ),
        ]
    }

    /// What `create_service_principal` returns.
    pub open spec fn create_service_principal_output(log: Seq<Reply>) -> McpServicePrincipalRecord {
        let service = log[3].single_row::<McpServicePrincipalRecord>()->Ok_0;
        service
    }

    /// Stores a service with its principal and its identity.
    pub fn create_service_principal<'a>(
        &'a self, input: &'a NewMcpServicePrincipal<'a>, log: &'a [Reply],
    ) -> (step: Step<'a, McpServicePrincipalRecord>)
        ensures
            step@ == StepView::proceed(
                Self::create_service_principal_fault(self, input, log@),
                Self::create_service_principal_script(input, log@),
                Self::create_service_principal_output(log@),
                log@,
            ),
    {
        if input.tenant_id != self.tenant_id {
            return Step::Fail(DatabaseError::InvalidPersistedValue);
        }
        if input.created_by != self.principal_id || !input.valid() {
            return Step::Fail(DatabaseError::InvalidPersistedValue);
        }
        if log.len() == 0 {
            return ask_execute(
                sql::CREATE_SERVICE_PRINCIPAL_INSERT_PRINCIPALS,
                vec![Param::Id(input.tenant_id), Param::Id(input.principal_id)],
            );
        }
        if log.len() <= 1 {
            return ask_execute(
                sql::CREATE_SERVICE_PRINCIPAL_INSERT_SERVICE_PRINCIPALS,
                vec![
                    Param::Id(input.tenant_id), Param::Id(input.service_id),
                    Param::Id(input.principal_id), Param::Text(input.display_name),
                    Param::Id(input.created_by),
                ],
            );
        }
        if log.len() <= 2 {
            return ask_execute(
                sql::CREATE_SERVICE_PRINCIPAL_INSERT_SERVICE_IDENTITY_BINDINGS,
                vec![
                    Param::Id(input.tenant_id), Param::Id(input.identity_binding_id),
                    Param::Id(input.service_id), Param::Text(input.spiffe_uri),
                ],
            );
        }
        if log.len() <= 3 {
            return ask_one(
                sql::SERVICE_ROW,
                vec![Param::Id(input.tenant_id), Param::Id(input.service_id)],
            );
        }
        let service: McpServicePrincipalRecord = match single(&log[3]) {
            Ok(value) => value,
            Err(fault) => return stop(fault),
        };
        Step::Done(service)
    }

    /// Every statement of `create_service_principal` is about its tenant.
    pub proof fn create_service_principal_is_scoped<'a>(
        &'a self, input: &'a NewMcpServicePrincipal<'a>, log: Seq<Reply>,
    )
        ensures
            Self::create_service_principal_fault(self, input, log) is None
                ==> crate::step::is_scoped(
                    Self::create_service_principal_script(input, log),
                    self.tenant_id,
                ),
    {
    }

    /// What stops `update_service_principal`, in order.
    pub open spec fn update_service_principal_fault<'a>(
        display_name: &'a str, status: &'a str, replacement_identity: Option<(Uuid, &'a str)>,
        log: Seq<Reply>,
    ) -> Option<Fault> {
        let at = if replacement_identity is Some {
            4int
        } else {
            1
        };
        if !crate::mcp::management::service_update_is_valid_spec(display_name@, status@)
            || !is_replacement(replacement_identity) {
            Some(Fault::Error(DatabaseError::InvalidPersistedValue))
        } else if log.len() > 0 && log[0].one_affected(DatabaseError::Conflict) is Err {
            Fault::of(log[0].one_affected(DatabaseError::Conflict))
        } else if replacement_identity is Some && log.len() > 3
            && log[3].one_affected(DatabaseError::NotFound) is Err {
            Fault::of(log[3].one_affected(DatabaseError::NotFound))
        } else if log.len() > at && log[at].single_row::<McpServicePrincipalRecord>() is Err {
            Fault::of(log[at].single_row::<McpServicePrincipalRecord>())
        } else {
            None
        }
    }

    /// The commands of `update_service_principal`, in order.
    pub open spec fn update_service_principal_script<'a>(
        &'a self, service_id: Uuid, expected_generation: i64, display_name: &'a str,
        status: &'a str, replacement_identity: Option<(Uuid, &'a str)>, log: Seq<Reply>,
    ) -> Seq<CommandView<'a>> {
        seq![
            CommandView::execute(
                sql::UPDATE_SERVICE_PRINCIPAL_UPDATE_SERVICE_PRINCIPALS,
                seq![
                    Param::Id(self.tenant_id), Param::Id(service_id),
                    Param::I64(expected_generation), Param::Text(display_name),
                    Param::Text(status),
                ],
            ),
        ].add(
            if replacement_identity is Some {
                seq![
                    CommandView::execute(
                        sql::UPDATE_SERVICE_PRINCIPAL_UPDATE_SERVICE_IDENTITY_BINDINGS,
                        seq![Param::Id(self.tenant_id), Param::Id(service_id)],
                    ),
                    CommandView::execute(
                        sql::CREATE_SERVICE_PRINCIPAL_INSERT_SERVICE_IDENTITY_BINDINGS,
                        seq![
                            Param::Id(self.tenant_id), Param::Id((replacement_identity->0).0),
                            Param::Id(service_id), Param::Text((replacement_identity->0).1),
                        ],
                    ),
                    CommandView::execute(
                        sql::UPDATE_SERVICE_PRINCIPAL_UPDATE_SERVICE_PRINCIPALS_2,
                        seq![Param::Id(self.tenant_id), Param::Id(service_id)],
                    ),
                ]
            } else {
                Seq::empty()
            },
        ).add(
            seq![
                CommandView::one(
                    sql::SERVICE_ROW,
                    seq![Param::Id(self.tenant_id), Param::Id(service_id)],
                ),
            ],
        )
    }

    /// What `update_service_principal` returns.
    pub open spec fn update_service_principal_output<'a>(
        replacement_identity: Option<(Uuid, &'a str)>,
        log: Seq<Reply>,
    ) -> McpServicePrincipalRecord {
        let at = if replacement_identity is Some {
            4int
        } else {
            1
        };
        let service = log[at].single_row::<McpServicePrincipalRecord>()->Ok_0;
        service
    }

    /// Changes a service at the expected generation, with another identity where one is given.
    pub fn update_service_principal<'a>(
        &'a self, service_id: Uuid, expected_generation: i64, display_name: &'a str,
        status: &'a str, replacement_identity: Option<(Uuid, &'a str)>, log: &'a [Reply],
    ) -> (step: Step<'a, McpServicePrincipalRecord>)
        ensures
            step@ == StepView::proceed(
                Self::update_service_principal_fault(
                    display_name, status, replacement_identity, log@,
                ),
                Self::update_service_principal_script(
                    self, service_id, expected_generation, display_name, status,
                    replacement_identity, log@,
                ),
                Self::update_service_principal_output(replacement_identity, log@),
                log@,
            ),
    {
        if !service_update_is_valid(display_name, status)
            || !valid_replacement(replacement_identity) {
            return Step::Fail(DatabaseError::InvalidPersistedValue);
        }
        if log.len() == 0 {
            return ask_execute(
                sql::UPDATE_SERVICE_PRINCIPAL_UPDATE_SERVICE_PRINCIPALS,
                vec![
                    Param::Id(self.tenant_id), Param::Id(service_id),
                    Param::I64(expected_generation), Param::Text(display_name),
                    Param::Text(status),
                ],
            );
        }
        if let Err(fault) = exactly_one(&log[0], DatabaseError::Conflict) {
            return stop(fault);
        }
        if replacement_identity.is_some() {
            if log.len() <= 1 {
                return ask_execute(
                    sql::UPDATE_SERVICE_PRINCIPAL_UPDATE_SERVICE_IDENTITY_BINDINGS,
                    vec![Param::Id(self.tenant_id), Param::Id(service_id)],
                );
            }
            if log.len() <= 2 {
                return ask_execute(
                    sql::CREATE_SERVICE_PRINCIPAL_INSERT_SERVICE_IDENTITY_BINDINGS,
                    vec![
                        Param::Id(self.tenant_id), Param::Id(replacement_identity.unwrap().0),
                        Param::Id(service_id), Param::Text(replacement_identity.unwrap().1),
                    ],
                );
            }
            if log.len() <= 3 {
                return ask_execute(
                    sql::UPDATE_SERVICE_PRINCIPAL_UPDATE_SERVICE_PRINCIPALS_2,
                    vec![Param::Id(self.tenant_id), Param::Id(service_id)],
                );
            }
            if let Err(fault) = exactly_one(&log[3], DatabaseError::NotFound) {
                return stop(fault);
            }
        }
        let at: usize = if replacement_identity.is_some() {
            4
        } else {
            1
        };
        if log.len() <= at {
            return ask_one(
                sql::SERVICE_ROW,
                vec![Param::Id(self.tenant_id), Param::Id(service_id)],
            );
        }
        let service: McpServicePrincipalRecord = match single(&log[at]) {
            Ok(value) => value,
            Err(fault) => return stop(fault),
        };
        Step::Done(service)
    }

    /// Every statement of `update_service_principal` is about its tenant.
    pub proof fn update_service_principal_is_scoped<'a>(
        &'a self,
        service_id: Uuid,
        expected_generation: i64,
        display_name: &'a str,
        status: &'a str,
        replacement_identity: Option<(Uuid, &'a str)>,
        log: Seq<Reply>,
    )
        ensures
            crate::step::is_scoped(
                Self::update_service_principal_script(
                    self, service_id, expected_generation, display_name, status,
                    replacement_identity, log,
                ),
                self.tenant_id,
            ),
    {
    }

    /// What stops `delete_service_principal`, in order.
    pub open spec fn delete_service_principal_fault(log: Seq<Reply>) -> Option<Fault> {
        if log.len() > 1 && log[1].one_affected(DatabaseError::NotFound) is Err {
            Fault::of(log[1].one_affected(DatabaseError::NotFound))
        } else {
            None
        }
    }

    /// The commands of `delete_service_principal`, in order.
    pub open spec fn delete_service_principal_script<'a>(
        &'a self, service_id: Uuid, expected_generation: i64, log: Seq<Reply>,
    ) -> Seq<CommandView<'a>> {
        seq![
            CommandView::execute(
                sql::UPDATE_SERVICE_PRINCIPAL_UPDATE_SERVICE_IDENTITY_BINDINGS,
                seq![Param::Id(self.tenant_id), Param::Id(service_id)],
            ),
            CommandView::execute(
                sql::DELETE_SERVICE_PRINCIPAL_UPDATE_SERVICE_PRINCIPALS,
                seq![
                    Param::Id(self.tenant_id), Param::Id(service_id),
                    Param::I64(expected_generation),
                ],
            ),
        ]
    }

    /// Deletes a service at the expected generation and revokes its identity.
    pub fn delete_service_principal<'a>(
        &'a self, service_id: Uuid, expected_generation: i64, log: &'a [Reply],
    ) -> (step: Step<'a, ()>)
        ensures
            step@ == StepView::proceed(
                Self::delete_service_principal_fault(log@),
                Self::delete_service_principal_script(self, service_id, expected_generation, log@),
                (),
                log@,
            ),
    {
        if log.len() == 0 {
            return ask_execute(
                sql::UPDATE_SERVICE_PRINCIPAL_UPDATE_SERVICE_IDENTITY_BINDINGS,
                vec![Param::Id(self.tenant_id), Param::Id(service_id)],
            );
        }
        if log.len() <= 1 {
            return ask_execute(
                sql::DELETE_SERVICE_PRINCIPAL_UPDATE_SERVICE_PRINCIPALS,
                vec![
                    Param::Id(self.tenant_id), Param::Id(service_id),
                    Param::I64(expected_generation),
                ],
            );
        }
        if let Err(fault) = exactly_one(&log[1], DatabaseError::NotFound) {
            return stop(fault);
        }
        Step::Done(())
    }

    /// Every statement of `delete_service_principal` is about its tenant.
    pub proof fn delete_service_principal_is_scoped<'a>(
        &'a self, service_id: Uuid, expected_generation: i64, log: Seq<Reply>,
    )
        ensures
            crate::step::is_scoped(
                Self::delete_service_principal_script(self, service_id, expected_generation, log),
                self.tenant_id,
            ),
    {
    }

    /// What stops `revoke_service_grant`, in order.
    pub open spec fn revoke_service_grant_fault(log: Seq<Reply>) -> Option<Fault> {
        if log.len() > 0 && log[0].one_affected(DatabaseError::NotFound) is Err {
            Fault::of(log[0].one_affected(DatabaseError::NotFound))
        } else {
            None
        }
    }

    /// The commands of `revoke_service_grant`, in order.
    pub open spec fn revoke_service_grant_script<'a>(
        &'a self, service_id: Uuid, grant_id: Uuid, expected_service_generation: i64,
        log: Seq<Reply>,
    ) -> Seq<CommandView<'a>> {
        seq![
            CommandView::execute(
                sql::REVOKE_SERVICE_GRANT,
                seq![
                    Param::Id(self.tenant_id), Param::Id(service_id), Param::Id(grant_id),
                    Param::I64(expected_service_generation),
                ],
            ),
        ]
    }

    /// Revokes the grant of a service at the expected generation.
    pub fn revoke_service_grant<'a>(
        &'a self, service_id: Uuid, grant_id: Uuid, expected_service_generation: i64,
        log: &'a [Reply],
    ) -> (step: Step<'a, ()>)
        ensures
            step@ == StepView::proceed(
                Self::revoke_service_grant_fault(log@),
                Self::revoke_service_grant_script(
                    self, service_id, grant_id, expected_service_generation, log@,
                ),
                (),
                log@,
            ),
    {
        if log.len() == 0 {
            return ask_execute(
                sql::REVOKE_SERVICE_GRANT,
                vec![
                    Param::Id(self.tenant_id), Param::Id(service_id), Param::Id(grant_id),
                    Param::I64(expected_service_generation),
                ],
            );
        }
        if let Err(fault) = exactly_one(&log[0], DatabaseError::NotFound) {
            return stop(fault);
        }
        Step::Done(())
    }

    /// Every statement of `revoke_service_grant` is about its tenant.
    pub proof fn revoke_service_grant_is_scoped<'a>(
        &'a self, service_id: Uuid, grant_id: Uuid, expected_service_generation: i64,
        log: Seq<Reply>,
    )
        ensures
            crate::step::is_scoped(
                Self::revoke_service_grant_script(
                    self, service_id, grant_id, expected_service_generation, log,
                ),
                self.tenant_id,
            ),
    {
    }

    /// What stops `create_admin_block_rule`, in order.
    pub open spec fn create_admin_block_rule_fault<'a>(
        scope: &'a str, matcher: &'a str, reason_code: &'a str, log: Seq<Reply>,
    ) -> Option<Fault> {
        if crate::mcp::management::block_rule_verdict(scope@, matcher@, reason_code@) is Err {
            Some(
                Fault::Error(
                    crate::mcp::management::block_rule_verdict(
                        scope@, matcher@, reason_code@,
                    )->Err_0,
                ),
            )
        } else if log.len() > 2 && log[2].single_row::<McpAdminBlockRuleRecord>() is Err {
            Fault::of(log[2].single_row::<McpAdminBlockRuleRecord>())
        } else {
            None
        }
    }

    /// The commands of `create_admin_block_rule`, in order.
    pub open spec fn create_admin_block_rule_script<'a>(
        &'a self, id: Uuid, scope: &'a str, matcher: &'a str, reason_code: &'a str,
        log: Seq<Reply>,
    ) -> Seq<CommandView<'a>> {
        seq![
            CommandView::execute(
                sql::ADVANCE_ADMIN_BLOCK_POLICY_INSERT_POLICY_GENERATIONS,
                seq![Param::Id(self.tenant_id)],
            ),
            CommandView::execute(
                sql::ADVANCE_ADMIN_BLOCK_POLICY_UPDATE_INVOCATIONS,
                seq![Param::Id(self.tenant_id)],
            ),
            CommandView::one(
                sql::CREATE_ADMIN_BLOCK_RULE,
                seq![
                    Param::Id(self.tenant_id), Param::Id(id), Param::Text(scope),
                    Param::Text(matcher), Param::Text(reason_code),
                    Param::Id(self.principal_id),
                ],
            ),
        ]
    }

    /// What `create_admin_block_rule` returns.
    pub open spec fn create_admin_block_rule_output(log: Seq<Reply>) -> McpAdminBlockRuleRecord {
        let record = log[2].single_row::<McpAdminBlockRuleRecord>()->Ok_0;
        record
    }

    /// Adds a block rule by the mutation's own principal.
    pub fn create_admin_block_rule<'a>(
        &'a self, id: Uuid, scope: &'a str, matcher: &'a str, reason_code: &'a str,
        log: &'a [Reply],
    ) -> (step: Step<'a, McpAdminBlockRuleRecord>)
        ensures
            step@ == StepView::proceed(
                Self::create_admin_block_rule_fault(scope, matcher, reason_code, log@),
                Self::create_admin_block_rule_script(self, id, scope, matcher, reason_code, log@),
                Self::create_admin_block_rule_output(log@),
                log@,
            ),
    {
        let rule: () = match validate_block_rule(scope, matcher, reason_code) {
            Ok(value) => value,
            Err(error) => return Step::Fail(error),
        };
        if log.len() == 0 {
            return ask_execute(
                sql::ADVANCE_ADMIN_BLOCK_POLICY_INSERT_POLICY_GENERATIONS,
                vec![Param::Id(self.tenant_id)],
            );
        }
        if log.len() <= 1 {
            return ask_execute(
                sql::ADVANCE_ADMIN_BLOCK_POLICY_UPDATE_INVOCATIONS,
                vec![Param::Id(self.tenant_id)],
            );
        }
        if log.len() <= 2 {
            return ask_one(
                sql::CREATE_ADMIN_BLOCK_RULE,
                vec![
                    Param::Id(self.tenant_id), Param::Id(id), Param::Text(scope),
                    Param::Text(matcher), Param::Text(reason_code),
                    Param::Id(self.principal_id),
                ],
            );
        }
        let record: McpAdminBlockRuleRecord = match single::<McpAdminBlockRuleRecord>(&log[2]) {
            Ok(value) => value,
            Err(fault) => return stop(fault),
        };
        Step::Done(record)
    }

    /// Every statement of `create_admin_block_rule` is about its tenant.
    pub proof fn create_admin_block_rule_is_scoped<'a>(
        &'a self, id: Uuid, scope: &'a str, matcher: &'a str, reason_code: &'a str, log: Seq<Reply>,
    )
        ensures
            crate::step::is_scoped(
                Self::create_admin_block_rule_script(self, id, scope, matcher, reason_code, log),
                self.tenant_id,
            ),
    {
    }

    /// What stops `delete_admin_block_rule`, in order.
    pub open spec fn delete_admin_block_rule_fault(log: Seq<Reply>) -> Option<Fault> {
        if log.len() > 2 && log[2].one_affected(DatabaseError::NotFound) is Err {
            Fault::of(log[2].one_affected(DatabaseError::NotFound))
        } else {
            None
        }
    }

    /// The commands of `delete_admin_block_rule`, in order.
    pub open spec fn delete_admin_block_rule_script<'a>(
        &'a self, id: Uuid, expected_revision: i64, log: Seq<Reply>,
    ) -> Seq<CommandView<'a>> {
        seq![
            CommandView::execute(
                sql::ADVANCE_ADMIN_BLOCK_POLICY_INSERT_POLICY_GENERATIONS,
                seq![Param::Id(self.tenant_id)],
            ),
            CommandView::execute(
                sql::ADVANCE_ADMIN_BLOCK_POLICY_UPDATE_INVOCATIONS,
                seq![Param::Id(self.tenant_id)],
            ),
            CommandView::execute(
                sql::DELETE_ADMIN_BLOCK_RULE,
                seq![Param::Id(self.tenant_id), Param::Id(id), Param::I64(expected_revision)],
            ),
        ]
    }

    /// Deletes a block rule at the expected revision.
    pub fn delete_admin_block_rule<'a>(
        &'a self, id: Uuid, expected_revision: i64, log: &'a [Reply],
    ) -> (step: Step<'a, ()>)
        ensures
            step@ == StepView::proceed(
                Self::delete_admin_block_rule_fault(log@),
                Self::delete_admin_block_rule_script(self, id, expected_revision, log@),
                (),
                log@,
            ),
    {
        if log.len() == 0 {
            return ask_execute(
                sql::ADVANCE_ADMIN_BLOCK_POLICY_INSERT_POLICY_GENERATIONS,
                vec![Param::Id(self.tenant_id)],
            );
        }
        if log.len() <= 1 {
            return ask_execute(
                sql::ADVANCE_ADMIN_BLOCK_POLICY_UPDATE_INVOCATIONS,
                vec![Param::Id(self.tenant_id)],
            );
        }
        if log.len() <= 2 {
            return ask_execute(
                sql::DELETE_ADMIN_BLOCK_RULE,
                vec![Param::Id(self.tenant_id), Param::Id(id), Param::I64(expected_revision)],
            );
        }
        if let Err(fault) = exactly_one(&log[2], DatabaseError::NotFound) {
            return stop(fault);
        }
        Step::Done(())
    }

    /// Every statement of `delete_admin_block_rule` is about its tenant.
    pub proof fn delete_admin_block_rule_is_scoped<'a>(
        &'a self, id: Uuid, expected_revision: i64, log: Seq<Reply>,
    )
        ensures
            crate::step::is_scoped(
                Self::delete_admin_block_rule_script(self, id, expected_revision, log),
                self.tenant_id,
            ),
    {
    }

    /// What stops `finalize`, in order.
    pub open spec fn finalize_fault(response_status: i32, log: Seq<Reply>) -> Option<Fault> {
        if response_status < 100 || response_status > 599 {
            Some(Fault::Error(DatabaseError::InvalidPersistedValue))
        } else if log.len() > 0
            && log[0].required_row::<IdempotencyRecord>(DatabaseError::Conflict) is Err {
            Fault::of(log[0].required_row::<IdempotencyRecord>(DatabaseError::Conflict))
        } else {
            None
        }
    }

    /// The commands of `finalize`, in order.
    pub open spec fn finalize_script<'a>(
        &'a self, response_status: i32, response_body: &'a Json, log: Seq<Reply>,
    ) -> Seq<CommandView<'a>> {
        seq![
            CommandView::optional(
                catalog::FINALIZE,
                seq![
                    Param::Id(self.tenant_id), Param::Id(self.principal_id),
                    Param::Owned(self.route), Param::Owned(self.key),
                    Param::Digest(&self.request_fingerprint), Param::I32(response_status),
                    Param::Json(response_body),
                ],
            ),
            CommandView::Commit,
        ]
    }

    /// What `finalize` returns.
    pub open spec fn finalize_output(log: Seq<Reply>) -> McpIdempotentWrite {
        let record = log[0].required_row::<IdempotencyRecord>(DatabaseError::Conflict)->Ok_0;
        McpIdempotentWrite::Created(record)
    }

    /// Puts the response on record and commits the mutation.
    pub fn finalize<'a>(
        &'a self, response_status: i32, response_body: &'a Json, log: &'a [Reply],
    ) -> (step: Step<'a, McpIdempotentWrite>)
        ensures
            step@ == StepView::proceed(
                Self::finalize_fault(response_status, log@),
                Self::finalize_script(self, response_status, response_body, log@),
                Self::finalize_output(log@),
                log@,
            ),
    {
        if response_status < 100 || response_status > 599 {
            return Step::Fail(DatabaseError::InvalidPersistedValue);
        }
        if log.len() == 0 {
            return ask_optional(
                catalog::FINALIZE,
                vec![
                    Param::Id(self.tenant_id), Param::Id(self.principal_id),
                    Param::Owned(self.route.clone()), Param::Owned(self.key.clone()),
                    Param::Digest(&self.request_fingerprint), Param::I32(response_status),
                    Param::Json(response_body),
                ],
            );
        }
        let record: IdempotencyRecord = match required(&log[0], DatabaseError::Conflict) {
            Ok(value) => value,
            Err(fault) => return stop(fault),
        };
        if log.len() <= 1 {
            return Step::Ask(Command::Commit);
        }
        Step::Done(McpIdempotentWrite::Created(record))
    }

    /// Every statement of `finalize` is about its tenant.
    pub proof fn finalize_is_scoped<'a>(
        &'a self, response_status: i32, response_body: &'a Json, log: Seq<Reply>,
    )
        ensures
            crate::step::is_scoped(
                Self::finalize_script(self, response_status, response_body, log),
                self.tenant_id,
            ),
    {
    }

}

} // verus!
