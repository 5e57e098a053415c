//! The rows behind calls of tools, and laws about what is intended, approved and called.

use vstd::prelude::*;

use crate::database::Database;
use crate::error::DatabaseError;
use crate::id::Uuid;
use crate::mcp::invocation::NewMcpApprovalRule;
use crate::mcp::invocation::NewMcpInvocation;
use crate::row::Reply;
use crate::sql::mcp as sql;
use crate::step::Param;
use crate::tables::answers;
use crate::tables::changed;
use crate::tables::first_row;
use crate::tables::touches;
use crate::tables::Course;
use crate::tables::Tables;

verus! {

/// What is called: a primitive of a registration, by a principal for an application.
pub struct Calling {
    pub registration_id: Uuid,
    pub principal_id: Uuid,
    pub application_id: Seq<char>,
    pub primitive: Seq<char>,
    pub capability_fingerprint: Seq<u8>,
}

/// The intent to make a call, which waits to be approved.
pub struct IntentRow {
    pub calling: Calling,
    pub session_id: Uuid,
    pub argument_digest: Seq<u8>,
    pub attachment_digest: Seq<u8>,
    pub request_digest: Seq<u8>,
    pub expires_at: int,
    pub consumed: bool,
}

/// The approval of calls with given arguments.
pub struct ApprovalRow {
    pub calling: Calling,
    pub intent_id: Uuid,
    pub session_id: Option<Uuid>,
    pub capability_name: Seq<char>,
    pub argument_digest: Seq<u8>,
    pub attachment_digest: Seq<u8>,
    pub single_use: bool,
    pub expires_at: int,
    pub revoked: bool,
    pub consumed: bool,
}

/// The registration of a server of tools.
pub struct RegistrationRow {
    pub enabled: bool,
    pub revoked: bool,
    pub deleted: bool,
    pub revocation_generation: int,
}

/// A call of a tool, and what it read and wrote.
pub struct InvocationRow {
    pub registration_id: Uuid,
    pub principal_id: Uuid,
    pub application_id: Seq<char>,
    pub primitive: Seq<char>,
    pub capability_fingerprint: Seq<u8>,
    pub approval_id: Option<Uuid>,
    pub registration_generation: i64,
    pub authority_generation: i64,
    pub admin_block_generation: i64,
    pub state: Seq<char>,
    pub request_bytes: i64,
    pub response_bytes: Option<i64>,
    pub reason_code: Option<Seq<char>>,
    pub semantic_node_id: Option<Uuid>,
    pub semantic_base_version_id: Option<Uuid>,
    pub semantic_input_digest: Option<Seq<u8>>,
    pub semantic_output_digest: Option<Seq<u8>>,
}

/// The tables of tools.
#[verifier::ext_equal]
pub struct ToolTables {
    pub registrations: Map<Uuid, RegistrationRow>,
    pub intents: Map<Uuid, IntentRow>,
    pub approvals: Map<Uuid, ApprovalRow>,
    pub invocations: Map<Uuid, InvocationRow>,
    /// The generation of the rules by which calls are blocked.
    pub block_generation: int,
}

/// The tables with other rows of tools.
pub open spec fn with_tools(tables: Tables, tools: ToolTables) -> Tables {
    Tables { tools, ..tables }
}

/// Whether an intent can still be approved or carried out.
pub open spec fn is_intended(tools: ToolTables, id: Uuid, now: int) -> bool {
    &&& tools.intents.contains_key(id)
    &&& !tools.intents[id].consumed
    &&& tools.intents[id].expires_at > now
}

/// Whether an approval holds at a time.
pub open spec fn is_approved(tools: ToolTables, id: Uuid, now: int) -> bool {
    &&& tools.approvals.contains_key(id)
    &&& !tools.approvals[id].revoked
    &&& !tools.approvals[id].consumed
    &&& tools.approvals[id].expires_at > now
}

/// Whether an approval is for a call with given arguments.
pub open spec fn is_approval_of(
    row: ApprovalRow,
    calling: Calling,
    session_id: Option<Uuid>,
    capability_name: Seq<char>,
    argument_digest: Seq<u8>,
    attachment_digest: Seq<u8>,
) -> bool {
    &&& row.calling == calling
    &&& row.session_id == session_id
    &&& row.capability_name == capability_name
    &&& row.argument_digest == argument_digest
    &&& row.attachment_digest == attachment_digest
}

/// The tables once an approval is used: one for a single use is used up.
pub open spec fn approved(tools: ToolTables, id: Uuid) -> ToolTables {
    let row = tools.approvals[id];
    ToolTables {
        approvals: tools.approvals.insert(
            id,
            ApprovalRow { consumed: row.consumed || row.single_use, ..row },
        ),
        ..tools
    }
}

/// Whether a registration serves under a generation.
pub open spec fn serves(tools: ToolTables, id: Uuid, generation: i64) -> bool {
    &&& tools.registrations.contains_key(id)
    &&& tools.registrations[id].enabled
    &&& !tools.registrations[id].revoked
    &&& !tools.registrations[id].deleted
    &&& tools.registrations[id].revocation_generation == generation
}

/// Whether a principal acts under a generation.
pub open spec fn acts(tables: Tables, id: Uuid, generation: i64) -> bool {
    &&& tables.catalog.principals.contains_key(id)
    &&& !tables.catalog.principals[id].disabled
    &&& tables.catalog.principals[id].generation == generation
}

/// The bytes of a digest, if there is one.
pub open spec fn digest_of(digest: Option<&[u8; 32]>) -> Option<Seq<u8>> {
    match digest {
        Some(digest) => Some(digest@),
        None => None,
    }
}

/// What the statements of calls do.
#[verifier::opaque]
pub open spec fn means<'a>(
    sql: &'static str,
    params: Seq<Param<'a>>,
    reply: Reply,
    now: int,
    before: Tables,
    after: Tables,
) -> bool {
    let tools = before.tools;
    let id = params[1]->Id_0;
    &&& sql == sql::CREATE_INVOCATION_INTENT_2 ==> {
        let row = IntentRow {
            calling: Calling {
                registration_id: params[2]->Id_0,
                principal_id: params[3]->Id_0,
                application_id: params[5]->Text_0@,
                primitive: params[6]->Text_0@,
                capability_fingerprint: params[7]->Digest_0@,
            },
            session_id: params[4]->Id_0,
            argument_digest: params[8]->Digest_0@,
            attachment_digest: params[9]->Digest_0@,
            request_digest: params[10]->Digest_0@,
            expires_at: now + 300_000_000,
            consumed: false,
        };
        &&& !tools.intents.contains_key(id)
        &&& after == with_tools(
            before,
            ToolTables { intents: tools.intents.insert(id, row), ..tools },
        )
    }
    &&& sql == sql::CONSUME_INVOCATION_INTENT ==> {
        let row = tools.intents[id];
        let hit = is_intended(tools, id, now) && row.calling.principal_id == params[2]->Id_0
            && row.session_id == params[3]->Id_0 && row.calling.application_id
            == params[4]->Text_0@ && row.request_digest == params[5]->Digest_0@;
        &&& answers(reply, hit)
        &&& after == with_tools(
            before,
            ToolTables {
                intents: changed(tools.intents, hit, id, IntentRow { consumed: true, ..row }),
                ..tools
            },
        )
        &&& reply.optional_row::<Uuid>() matches Ok(Some(registration_id)) ==> registration_id
            == row.calling.registration_id
    }
    &&& sql == sql::INSERT_APPROVAL_RULE ==> {
        let intent_id = params[4]->Id_0;
        let calling = Calling {
            registration_id: params[2]->Id_0,
            principal_id: params[3]->Id_0,
            application_id: params[6]->Text_0@,
            primitive: params[7]->Text_0@,
            capability_fingerprint: params[9]->Digest_0@,
        };
        let intent = tools.intents[intent_id].calling;
        let hit = is_intended(tools, intent_id, now) && intent.registration_id
            == calling.registration_id && intent.principal_id == calling.principal_id;
        let row = ApprovalRow {
            calling,
            intent_id,
            session_id: params[5]->OptId_0,
            capability_name: params[8]->Text_0@,
            argument_digest: params[10]->Digest_0@,
            attachment_digest: params[11]->Digest_0@,
            single_use: params[12]->Bool_0,
            expires_at: now + params[13]->I64_0 * 1_000_000,
            revoked: false,
            consumed: false,
        };
        &&& hit ==> !tools.approvals.contains_key(id)
        &&& touches(reply, hit)
        &&& after == with_tools(
            before,
            ToolTables { approvals: changed(tools.approvals, hit, id, row), ..tools },
        )
    }
    &&& sql == sql::CONSUME_MATCHING_APPROVAL ==> {
        let calling = Calling {
            registration_id: id,
            principal_id: params[2]->Id_0,
            application_id: params[4]->Text_0@,
            primitive: params[5]->Text_0@,
            capability_fingerprint: params[7]->Digest_0@,
        };
        &&& first_row(reply) is None ==> after == before
        &&& reply.optional_row::<Uuid>() matches Ok(Some(approval_id)) ==> {
            &&& is_approved(tools, approval_id, now)
            &&& is_approval_of(
                tools.approvals[approval_id],
                calling,
                params[3]->OptId_0,
                params[6]->Text_0@,
                params[8]->Digest_0@,
                params[9]->Digest_0@,
            )
            &&& after == with_tools(before, approved(tools, approval_id))
        }
    }
    &&& sql == sql::START_INVOCATION_INSERT_POLICY_GENERATIONS ==> after == before
    &&& sql == sql::START_INVOCATION_SELECT_POLICY_GENERATIONS ==> {
        &&& after == before
        &&& reply.single_row::<i64>() is Ok ==> reply.single_row::<i64>()->Ok_0
            == tools.block_generation
    }
    &&& sql == sql::START_INVOCATION_INSERT_INVOCATIONS ==> {
        let row = InvocationRow {
            registration_id: params[2]->Id_0,
            principal_id: params[3]->Id_0,
            application_id: params[4]->Text_0@,
            primitive: params[5]->Text_0@,
            capability_fingerprint: params[6]->Digest_0@,
            approval_id: params[7]->OptId_0,
            registration_generation: params[8]->I64_0,
            authority_generation: params[9]->I64_0,
            admin_block_generation: params[10]->I64_0,
            state: "running"@,
            request_bytes: params[11]->I64_0,
            response_bytes: None,
            reason_code: None,
            semantic_node_id: params[12]->OptId_0,
            semantic_base_version_id: params[13]->OptId_0,
            semantic_input_digest: digest_of(params[14]->OptDigest_0),
            semantic_output_digest: None,
        };
        let hit = serves(tools, row.registration_id, row.registration_generation) && acts(
            before,
            row.principal_id,
            row.authority_generation,
        );
        &&& hit ==> !tools.invocations.contains_key(id)
        &&& touches(reply, hit)
        &&& after == with_tools(
            before,
            ToolTables { invocations: changed(tools.invocations, hit, id, row), ..tools },
        )
    }
    &&& sql == sql::FINISH_INVOCATION ==> {
        let row = tools.invocations[id];
        let hit = tools.invocations.contains_key(id) && (row.state == "pending"@ || row.state
            == "running"@);
        &&& touches(reply, hit)
        &&& after == with_tools(
            before,
            ToolTables {
                invocations: changed(
                    tools.invocations,
                    hit,
                    id,
                    InvocationRow {
                        state: params[2]->Text_0@,
                        response_bytes: Some(params[3]->I64_0),
                        reason_code: crate::text::borrowed_text(params[4]->OptText_0),
                        semantic_output_digest: digest_of(params[5]->OptDigest_0),
                        ..row
                    },
                ),
                ..tools
            },
        )
    }
}

/// An intent holds the call that it is for: who would call what, from which session and with which
/// arguments. It lasts five minutes.
pub proof fn intents_hold_what_is_to_be_called<'a>(
    tenant_id: Uuid,
    id: Uuid,
    registration_id: Uuid,
    principal_id: Uuid,
    session_id: Uuid,
    application_id: &'a str,
    primitive: &'a str,
    capability_fingerprint: &'a [u8; 32],
    argument_digest: &'a [u8; 32],
    attachment_digest: &'a [u8; 32],
    request_digest: &'a [u8; 32],
    log: Seq<Reply>,
    course: Course,
)
    requires
        crate::step::is_done(
            Database::mcp_create_invocation_intent_fault(primitive, log),
            Database::mcp_create_invocation_intent_script(
                tenant_id,
                id,
                registration_id,
                principal_id,
                session_id,
                application_id,
                primitive,
                capability_fingerprint,
                argument_digest,
                attachment_digest,
                request_digest,
                log,
            ),
            log,
        ),
        course.follows(
            Database::mcp_create_invocation_intent_script(
                tenant_id,
                id,
                registration_id,
                principal_id,
                session_id,
                application_id,
                primitive,
                capability_fingerprint,
                argument_digest,
                attachment_digest,
                request_digest,
                log,
            ),
            log,
        ),
    ensures
        ({
            let before = course.start();
            let tools = before.tools;
            &&& !tools.intents.contains_key(id)
            &&& course.end() == with_tools(
                before,
                ToolTables {
                    intents: tools.intents.insert(
                        id,
                        IntentRow {
                            calling: Calling {
                                registration_id,
                                principal_id,
                                application_id: application_id@,
                                primitive: primitive@,
                                capability_fingerprint: capability_fingerprint@,
                            },
                            session_id,
                            argument_digest: argument_digest@,
                            attachment_digest: attachment_digest@,
                            request_digest: request_digest@,
                            expires_at: course.clock[0] + 300_000_000,
                            consumed: false,
                        },
                    ),
                    ..tools
                },
            )
        }),
{
    reveal(means);
    let script = Database::mcp_create_invocation_intent_script(
        tenant_id,
        id,
        registration_id,
        principal_id,
        session_id,
        application_id,
        primitive,
        capability_fingerprint,
        argument_digest,
        attachment_digest,
        request_digest,
        log,
    );
    assert(course.performs(script, log, 0));
    assert(course.end() == course.rows[1]);
}

/// An intent is carried out once, by the principal, the session and the application that it was
/// made for, with the very request. What comes back is the registration that it names. Afterwards
/// it can be carried out no more.
pub proof fn intents_are_carried_out_once<'a>(
    tenant_id: Uuid,
    id: Uuid,
    principal_id: Uuid,
    session_id: Uuid,
    application_id: &'a str,
    request_digest: &'a [u8; 32],
    log: Seq<Reply>,
    course: Course,
)
    requires
        crate::step::is_done(
            Database::mcp_consume_invocation_intent_fault(log),
            Database::mcp_consume_invocation_intent_script(
                tenant_id,
                id,
                principal_id,
                session_id,
                application_id,
                request_digest,
                log,
            ),
            log,
        ),
        course.follows(
            Database::mcp_consume_invocation_intent_script(
                tenant_id,
                id,
                principal_id,
                session_id,
                application_id,
                request_digest,
                log,
            ),
            log,
        ),
    ensures
        ({
            let before = course.start();
            let tools = before.tools;
            let row = tools.intents[id];
            &&& is_intended(tools, id, course.clock[0])
            &&& row.calling.principal_id == principal_id
            &&& row.session_id == session_id
            &&& row.calling.application_id == application_id@
            &&& row.request_digest == request_digest@
            &&& Database::mcp_consume_invocation_intent_output(log) == row.calling.registration_id
            &&& course.end() == with_tools(
                before,
                ToolTables {
                    intents: tools.intents.insert(id, IntentRow { consumed: true, ..row }),
                    ..tools
                },
            )
            &&& forall|later: int| !#[trigger] is_intended(course.end().tools, id, later)
        }),
{
    reveal(means);
    let script = Database::mcp_consume_invocation_intent_script(
        tenant_id,
        id,
        principal_id,
        session_id,
        application_id,
        request_digest,
        log,
    );
    assert(course.performs(script, log, 0));
    assert(log[0].required_row::<Uuid>(DatabaseError::NotFound) is Ok);
    assert(first_row(log[0]) is Some);
    assert(course.end() == course.rows[1]);
}

/// An approval is for the call that it was given for, as long as it was given for, and once only
/// where it is for a single use. It is given where an intent of the same principal for the same
/// registration is open.
pub proof fn approvals_follow_an_intent<'a>(
    input: &'a NewMcpApprovalRule<'a>,
    log: Seq<Reply>,
    course: Course,
)
    requires
        crate::step::is_done(
            Database::mcp_create_approval_rule_fault(input, log),
            Database::mcp_create_approval_rule_script(input, log),
            log,
        ),
        course.follows(Database::mcp_create_approval_rule_script(input, log), log),
    ensures
        ({
            let before = course.start();
            let tools = before.tools;
            let intent = tools.intents[input.intent_id];
            &&& is_intended(tools, input.intent_id, course.clock[1])
            &&& intent.calling.registration_id == input.registration_id
            &&& intent.calling.principal_id == input.principal_id
            &&& !tools.approvals.contains_key(input.id)
            &&& course.end() == with_tools(
                before,
                ToolTables {
                    approvals: tools.approvals.insert(
                        input.id,
                        ApprovalRow {
                            calling: Calling {
                                registration_id: input.registration_id,
                                principal_id: input.principal_id,
                                application_id: input.application_id@,
                                primitive: input.primitive@,
                                capability_fingerprint: input.capability_fingerprint@,
                            },
                            intent_id: input.intent_id,
                            session_id: input.session_id,
                            capability_name: input.capability_name@,
                            argument_digest: input.argument_digest@,
                            attachment_digest: input.attachment_digest@,
                            single_use: input.single_use,
                            expires_at: course.clock[1] + input.lifetime_seconds * 1_000_000,
                            revoked: false,
                            consumed: false,
                        },
                    ),
                    ..tools
                },
            )
        }),
{
    reveal(means);
    let script = Database::mcp_create_approval_rule_script(input, log);
    assert(course.performs(script, log, 0));
    assert(course.performs(script, log, 1));
    assert(course.performs(script, log, 2));
    assert(course.end() == course.rows[3]);
}

/// An approval that is used holds at that time and is for this very call: the same registration,
/// principal, session, application, primitive, capability and arguments. One for a single use then
/// holds no more; any other holds as before.
pub proof fn approvals_cover_only_their_call<'a>(
    tenant_id: Uuid,
    registration_id: Uuid,
    principal_id: Uuid,
    session_id: Option<Uuid>,
    application_id: &'a str,
    primitive: &'a str,
    capability_name: &'a str,
    capability_fingerprint: &'a [u8; 32],
    argument_digest: &'a [u8; 32],
    attachment_digest: &'a [u8; 32],
    log: Seq<Reply>,
    course: Course,
)
    requires
        crate::step::is_done(
            Database::mcp_consume_matching_approval_fault(primitive, log),
            Database::mcp_consume_matching_approval_script(
                tenant_id,
                registration_id,
                principal_id,
                session_id,
                application_id,
                primitive,
                capability_name,
                capability_fingerprint,
                argument_digest,
                attachment_digest,
                log,
            ),
            log,
        ),
        course.follows(
            Database::mcp_consume_matching_approval_script(
                tenant_id,
                registration_id,
                principal_id,
                session_id,
                application_id,
                primitive,
                capability_name,
                capability_fingerprint,
                argument_digest,
                attachment_digest,
                log,
            ),
            log,
        ),
    ensures
        ({
            let before = course.start();
            let tools = before.tools;
            let id = Database::mcp_consume_matching_approval_output(log);
            &&& is_approved(tools, id, course.clock[0])
            &&& is_approval_of(
                tools.approvals[id],
                Calling {
                    registration_id,
                    principal_id,
                    application_id: application_id@,
                    primitive: primitive@,
                    capability_fingerprint: capability_fingerprint@,
                },
                session_id,
                capability_name@,
                argument_digest@,
                attachment_digest@,
            )
            &&& course.end() == with_tools(before, approved(tools, id))
            &&& tools.approvals[id].single_use ==> forall|later: int|
                !#[trigger] is_approved(course.end().tools, id, later)
            &&& !tools.approvals[id].single_use ==> course.end().tools.approvals[id]
                == tools.approvals[id]
        }),
{
    reveal(means);
    let script = Database::mcp_consume_matching_approval_script(
        tenant_id,
        registration_id,
        principal_id,
        session_id,
        application_id,
        primitive,
        capability_name,
        capability_fingerprint,
        argument_digest,
        attachment_digest,
        log,
    );
    assert(course.performs(script, log, 0));
    assert(log[0].required_row::<Uuid>(DatabaseError::NotFound) is Ok);
    assert(first_row(log[0]) is Some);
    assert(course.end() == course.rows[1]);
}

/// A call starts where its registration serves and its principal acts under the generations that it
/// names, and no rule by which calls are blocked has changed since. It is recorded as it was asked
/// for, and runs.
#[verifier::rlimit(40)]
pub proof fn calls_start_under_the_generations_they_name<'a>(
    input: &'a NewMcpInvocation<'a>,
    log: Seq<Reply>,
    course: Course,
)
    requires
        crate::step::is_done(
            Database::mcp_start_invocation_fault(input, log),
            Database::mcp_start_invocation_script(input, log),
            log,
        ),
        course.follows(Database::mcp_start_invocation_script(input, log), log),
    ensures
        ({
            let before = course.start();
            let tools = before.tools;
            &&& serves(tools, input.registration_id, input.registration_generation)
            &&& acts(before, input.principal_id, input.authority_generation)
            &&& tools.block_generation == input.admin_block_generation
            &&& !tools.invocations.contains_key(input.id)
            &&& course.end() == with_tools(
                before,
                ToolTables {
                    invocations: tools.invocations.insert(
                        input.id,
                        InvocationRow {
                            registration_id: input.registration_id,
                            principal_id: input.principal_id,
                            application_id: input.application_id@,
                            primitive: input.primitive@,
                            capability_fingerprint: input.capability_fingerprint@,
                            approval_id: input.approval_id,
                            registration_generation: input.registration_generation,
                            authority_generation: input.authority_generation,
                            admin_block_generation: input.admin_block_generation,
                            state: "running"@,
                            request_bytes: input.request_bytes,
                            response_bytes: None,
                            reason_code: None,
                            semantic_node_id: input.semantic_node_id,
                            semantic_base_version_id: input.semantic_base_version_id,
                            semantic_input_digest: digest_of(input.semantic_input_digest),
                            semantic_output_digest: None,
                        },
                    ),
                    ..tools
                },
            )
        }),
{
    reveal(means);
    let script = Database::mcp_start_invocation_script(input, log);
    assert(course.performs(script, log, 0));
    assert(course.performs(script, log, 1));
    assert(course.performs(script, log, 2));
    assert(course.performs(script, log, 3));
    assert(course.performs(script, log, 4));
    assert(course.end() == course.rows[5]);
}

/// A call that ends has the state, the size, the reason and the digest that were given, and all
/// else as it started. Only a call that has not ended can end.
pub proof fn calls_end_once<'a>(
    tenant_id: Uuid,
    id: Uuid,
    state: &'a str,
    response_bytes: i64,
    reason_code: Option<&'a str>,
    semantic_output_digest: Option<&'a [u8; 32]>,
    log: Seq<Reply>,
    course: Course,
)
    requires
        crate::step::is_done(
            Database::mcp_finish_invocation_fault(
                state,
                response_bytes,
                semantic_output_digest,
                log,
            ),
            Database::mcp_finish_invocation_script(
                tenant_id,
                id,
                state,
                response_bytes,
                reason_code,
                semantic_output_digest,
                log,
            ),
            log,
        ),
        course.follows(
            Database::mcp_finish_invocation_script(
                tenant_id,
                id,
                state,
                response_bytes,
                reason_code,
                semantic_output_digest,
                log,
            ),
            log,
        ),
    ensures
        ({
            let before = course.start();
            let tools = before.tools;
            let row = tools.invocations[id];
            &&& tools.invocations.contains_key(id)
            &&& row.state == "pending"@ || row.state == "running"@
            &&& course.end() == with_tools(
                before,
                ToolTables {
                    invocations: tools.invocations.insert(
                        id,
                        InvocationRow {
                            state: state@,
                            response_bytes: Some(response_bytes),
                            reason_code: crate::text::borrowed_text(reason_code),
                            semantic_output_digest: digest_of(semantic_output_digest),
                            ..row
                        },
                    ),
                    ..tools
                },
            )
        }),
{
    reveal(means);
    let script = Database::mcp_finish_invocation_script(
        tenant_id,
        id,
        state,
        response_bytes,
        reason_code,
        semantic_output_digest,
        log,
    );
    assert(course.performs(script, log, 0));
    assert(course.end() == course.rows[1]);
}

} // verus!
