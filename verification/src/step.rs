//! Conversations with the database, one step at a time.

use std::sync::Arc;

use vstd::prelude::*;

use crate::document::DocumentConflictCopyRecord;
use crate::document::DocumentLaunchRecord;
use crate::error::DatabaseError;
use crate::error::Fault;
use crate::id::Uuid;
use crate::json::Json;
use crate::row::Reply;

verus! {

/// A value in a small JSON object that accompanies a statement.
#[derive(Debug)]
pub enum Detail<'a> {
    Id(Uuid),
    OptId(Option<Uuid>),
    /// The `id` column of each row of a reply, in order.
    RowIds(&'a Reply),
    Int(i64),
    Text(&'a str),
}

/// The fields of an outbox event. Its `event_id` is the identifier that is drawn for the
/// statement.
#[derive(Debug)]
pub struct Envelope<'a> {
    pub tenant_id: Uuid,
    pub aggregate_type: &'a str,
    pub aggregate_id: Uuid,
    pub aggregate_generation: u64,
    pub event_type: &'a str,
    pub occurred_at_unix_seconds: i64,
}

/// A bound value of a statement.
#[derive(Debug)]
pub enum Param<'a> {
    Id(Uuid),
    OptId(Option<Uuid>),
    Ids(&'a [Uuid]),
    /// The identifiers in the first column of a reply's rows, in order.
    RowIds(&'a Reply),
    /// An identifier drawn for this statement alone, the same wherever the statement names it.
    FreshId,
    Text(&'a str),
    OptText(Option<&'a str>),
    /// A text without the white space at its ends: see [`crate::text::trimmed_text`].
    Trimmed(&'a str),
    /// An address as it is compared: see [`crate::text::normalized_email`].
    Email(&'a str),
    Owned(String),
    OptOwned(Option<String>),
    /// A prefix followed by an identifier: see [`crate::id::label_text`].
    Label(&'static str, Uuid),
    /// Two identifiers with a colon between them: see [`crate::id::pair_text`].
    Pair(Uuid, Uuid),
    /// An identifier, a colon and a name: see [`crate::id::scoped_text`].
    Scoped(Uuid, &'a str),
    Bool(bool),
    OptBool(Option<bool>),
    I32(i32),
    OptI32(Option<i32>),
    I64(i64),
    OptI64(Option<i64>),
    /// A point in time, in whole seconds since 1970, bound as a floating-point number.
    Seconds(i64),
    Digest(&'a [u8; 32]),
    OptDigest(Option<&'a [u8; 32]>),
    Bytes(&'a [u8]),
    OptBytes(Option<&'a [u8]>),
    Nonce(&'a [u8; 12]),
    Blob(Arc<Vec<u8>>),
    Json(&'a Json),
    /// The JSON value `null`.
    JsonNull,
    /// An empty JSON object.
    Object0,
    /// A JSON object of one member.
    Object1(&'static str, Detail<'a>),
    /// A JSON object of two members.
    Object2(&'static str, Detail<'a>, &'static str, Detail<'a>),
    Event(Envelope<'a>),
    /// The JSON form of a launch.
    Launch(DocumentLaunchRecord),
    /// The JSON form of a conflict copy.
    ConflictCopy(DocumentConflictCopyRecord),
}

/// What a statement is asked to return.
#[derive(Clone, Copy, Debug, PartialEq, Eq, Structural)]
pub enum Fetch {
    /// The number of rows it touched.
    Execute,
    /// Its one row; it fails where there is none.
    One,
    /// Its first row, or none.
    Optional,
    /// All its rows.
    All,
}

/// How a statement's failure reads as an error.
#[derive(Clone, Copy, Debug, PartialEq, Eq, Structural)]
pub enum ErrorRule {
    /// As a database failure.
    Plain,
    /// By [`crate::error::map_conflict`].
    UniqueConflict,
    /// By [`crate::error::map_security_admission`].
    SecurityAdmission,
}

/// A statement with its bound values.
#[derive(Debug)]
pub struct Query<'a> {
    pub sql: &'static str,
    pub params: Vec<Param<'a>>,
    pub fetch: Fetch,
    pub rule: ErrorRule,
}

/// Something that the owner of the connection is asked to do.
#[derive(Debug)]
pub enum Command<'a> {
    /// Open a transaction; statements that follow run inside it.
    Begin,
    /// Make the open transaction durable and close it.
    Commit,
    /// Undo the open transaction and close it.
    Rollback,
    /// Draw this many new identifiers.
    DrawIds(usize),
    Query(Query<'a>),
}

/// What an operation does next.
#[derive(Debug)]
pub enum Step<'a, T> {
    /// It wants a command performed.
    Ask(Command<'a>),
    /// It has succeeded.
    Done(T),
    /// It has failed, and an open transaction is to be undone.
    Fail(DatabaseError),
    /// A reply lacks the shape that its statement gives it; the conversation cannot go on.
    Malformed,
}

/// A command, as contracts speak of it.
#[verifier::ext_equal]
pub enum CommandView<'a> {
    Begin,
    Commit,
    Rollback,
    DrawIds(nat),
    Query { sql: &'static str, params: Seq<Param<'a>>, fetch: Fetch, rule: ErrorRule },
}

/// A step, as contracts speak of it.
#[verifier::ext_equal]
pub enum StepView<'a, T> {
    Ask(CommandView<'a>),
    Done(T),
    Fail(DatabaseError),
    Malformed,
}

impl<'a> Command<'a> {
    pub open spec fn view(self) -> CommandView<'a> {
        match self {
            Command::Begin => CommandView::Begin,
            Command::Commit => CommandView::Commit,
            Command::Rollback => CommandView::Rollback,
            Command::DrawIds(count) => CommandView::DrawIds(count as nat),
            Command::Query(query) => CommandView::Query {
                sql: query.sql,
                params: query.params@,
                fetch: query.fetch,
                rule: query.rule,
            },
        }
    }
}

impl<'a, T> Step<'a, T> {
    /// The step of an operation with a plain result.
    pub open spec fn view(self) -> StepView<'a, T> {
        match self {
            Step::Ask(command) => StepView::Ask(command.view()),
            Step::Done(value) => StepView::Done(value),
            Step::Fail(error) => StepView::Fail(error),
            Step::Malformed => StepView::Malformed,
        }
    }
}

impl<'a, T> Step<'a, Vec<T>> {
    /// The step of an operation that returns a list.
    pub open spec fn list(self) -> StepView<'a, Seq<T>> {
        match self {
            Step::Ask(command) => StepView::Ask(command.view()),
            Step::Done(value) => StepView::Done(value@),
            Step::Fail(error) => StepView::Fail(error),
            Step::Malformed => StepView::Malformed,
        }
    }
}

impl<'a, T: View> Step<'a, T> {
    /// The step of an operation whose result is spoken of by its view.
    pub open spec fn deep(self) -> StepView<'a, T::V> {
        match self {
            Step::Ask(command) => StepView::Ask(command.view()),
            Step::Done(value) => StepView::Done(value@),
            Step::Fail(error) => StepView::Fail(error),
            Step::Malformed => StepView::Malformed,
        }
    }
}

impl<'a> CommandView<'a> {
    /// A statement that is run for its effect.
    pub open spec fn execute(sql: &'static str, params: Seq<Param<'a>>) -> CommandView<'a> {
        CommandView::Query { sql, params, fetch: Fetch::Execute, rule: ErrorRule::Plain }
    }

    /// A statement that returns one row.
    pub open spec fn one(sql: &'static str, params: Seq<Param<'a>>) -> CommandView<'a> {
        CommandView::Query { sql, params, fetch: Fetch::One, rule: ErrorRule::Plain }
    }

    /// A statement that returns a row or none.
    pub open spec fn optional(sql: &'static str, params: Seq<Param<'a>>) -> CommandView<'a> {
        CommandView::Query { sql, params, fetch: Fetch::Optional, rule: ErrorRule::Plain }
    }

    /// A statement that returns a list of rows.
    pub open spec fn all(sql: &'static str, params: Seq<Param<'a>>) -> CommandView<'a> {
        CommandView::Query { sql, params, fetch: Fetch::All, rule: ErrorRule::Plain }
    }

    /// A statement with its own reading of failures.
    pub open spec fn ruled(
        sql: &'static str,
        params: Seq<Param<'a>>,
        fetch: Fetch,
        rule: ErrorRule,
    ) -> CommandView<'a> {
        CommandView::Query { sql, params, fetch, rule }
    }
}

impl<'a, T> StepView<'a, T> {
    /// The step that a fault ends with.
    pub open spec fn fault(fault: Fault) -> StepView<'a, T> {
        match fault {
            Fault::Error(error) => StepView::Fail(error),
            Fault::Malformed => StepView::Malformed,
        }
    }

    /// The next step of an operation that stops at the first fault, and else runs its script
    /// to the end and returns its output. The script's later commands may depend on earlier
    /// replies.
    pub open spec fn proceed(
        fault: Option<Fault>,
        script: Seq<CommandView<'a>>,
        output: T,
        log: Seq<Reply>,
    ) -> StepView<'a, T> {
        match fault {
            Some(fault) => Self::fault(fault),
            None => if log.len() < script.len() {
                StepView::Ask(script[log.len() as int])
            } else {
                StepView::Done(output)
            },
        }
    }
}

impl<'a, T> StepView<'a, T> {
    /// The next step of the part of an operation whose replies begin at `from`.
    pub open spec fn resume(
        fault: Option<Fault>,
        script: Seq<CommandView<'a>>,
        output: T,
        log: Seq<Reply>,
        from: int,
    ) -> StepView<'a, T> {
        match fault {
            Some(fault) => Self::fault(fault),
            None => if log.len() - from < script.len() {
                StepView::Ask(script[log.len() - from])
            } else {
                StepView::Done(output)
            },
        }
    }
}

/// Whether a script is one transaction: it begins with opening it, and all that follows are
/// statements but for one commit, with exactly `reads` statements after it, none of which changes
/// a row.
pub open spec fn is_atomic<'a>(script: Seq<CommandView<'a>>, reads: int) -> bool {
    let commit = script.len() - 1 - reads;
    &&& 0 < commit < script.len()
    &&& script[0] == CommandView::Begin
    &&& script[commit] == CommandView::Commit
    &&& forall|i: int|
        0 < i < script.len() && i != commit ==> is_statement(#[trigger] script[i])
    &&& forall|i: int|
        commit < i < script.len() ==> is_read(#[trigger] script[i])
}

/// Whether every statement of a script is about this tenant.
pub open spec fn is_scoped<'a>(script: Seq<CommandView<'a>>, tenant_id: Uuid) -> bool {
    forall|i: int| 0 <= i < script.len() ==> binds_tenant(#[trigger] script[i], tenant_id)
}

/// Whether a command is about this tenant: where it binds values, the tenant's identifier is one
/// of the first two, or the scope of the first.
pub open spec fn binds_tenant<'a>(command: CommandView<'a>, tenant_id: Uuid) -> bool {
    command matches CommandView::Query { params, .. } ==> {
        ||| params.len() == 0
        ||| params[0] == Param::Id(tenant_id)
        ||| params[0] matches Param::Scoped(scope, _) && scope == tenant_id
        ||| params.len() > 1 && params[1] == Param::Id(tenant_id)
    }
}

/// Whether a script opens a transaction and leaves it open.
pub open spec fn never_commits<'a>(script: Seq<CommandView<'a>>) -> bool {
    &&& script.len() > 0
    &&& script[0] == CommandView::Begin
    &&& forall|i: int| 0 < i < script.len() ==> is_statement(#[trigger] script[i])
}

/// Whether a command leaves the transaction as it is: no opening, no commit and no rollback.
pub open spec fn is_statement<'a>(command: CommandView<'a>) -> bool {
    command is Query || command is DrawIds
}

/// Whether a command is a statement that changes no row.
pub open spec fn is_read<'a>(command: CommandView<'a>) -> bool {
    command matches CommandView::Query { sql, .. } && crate::sql::reads(sql)
}

/// Whether the first `count` commands of a script change no row.
pub open spec fn writes_nothing_before<'a>(script: Seq<CommandView<'a>>, count: int) -> bool {
    forall|i: int|
        0 <= i < count && i < script.len() ==> {
            ||| !((#[trigger] script[i]) is Query)
            ||| is_read(script[i])
        }
}

/// Whether a script changes no row.
pub open spec fn writes_nothing<'a>(script: Seq<CommandView<'a>>) -> bool {
    writes_nothing_before(script, script.len() as int)
}

/// Whether an operation has gone through its whole script.
pub open spec fn is_done<'a>(
    fault: Option<Fault>,
    script: Seq<CommandView<'a>>,
    log: Seq<Reply>,
) -> bool {
    fault is None && log.len() >= script.len()
}

/// Whether the last reply of a log answers a commit, where `fault` and `script` are those after
/// the replies before it.
pub open spec fn commit_acknowledged<'a>(
    fault: Option<Fault>,
    script: Seq<CommandView<'a>>,
    log: Seq<Reply>,
) -> bool {
    &&& fault is None
    &&& 0 < log.len() <= script.len()
    &&& script[log.len() - 1] == CommandView::Commit
}

impl Fault {
    /// The fault of an unusable or refused reply.
    pub open spec fn of<T>(r: Result<T, Fault>) -> Option<Fault> {
        match r {
            Ok(_) => None,
            Err(fault) => Some(fault),
        }
    }
}

/// Stops with a fault.
pub fn stop<'a, T>(fault: Fault) -> (step: Step<'a, T>)
    ensures
        step@ == StepView::<T>::fault(fault),
{
    match fault {
        Fault::Error(error) => Step::Fail(error),
        Fault::Malformed => Step::Malformed,
    }
}

/// Stops with a fault.
pub fn stop_list<'a, T>(fault: Fault) -> (step: Step<'a, Vec<T>>)
    ensures
        step.list() == StepView::<Seq<T>>::fault(fault),
{
    match fault {
        Fault::Error(error) => Step::Fail(error),
        Fault::Malformed => Step::Malformed,
    }
}

/// Stops with a fault.
pub fn stop_deep<'a, T: View>(fault: Fault) -> (step: Step<'a, T>)
    ensures
        step.deep() == StepView::<T::V>::fault(fault),
{
    match fault {
        Fault::Error(error) => Step::Fail(error),
        Fault::Malformed => Step::Malformed,
    }
}

/// Asks for a statement to be run.
pub fn ask<'a, T>(
    sql: &'static str,
    params: Vec<Param<'a>>,
    fetch: Fetch,
    rule: ErrorRule,
) -> (step: Step<'a, T>)
    ensures
        step matches Step::Ask(command)
            && command@ == CommandView::ruled(sql, params@, fetch, rule),
{
    Step::Ask(Command::Query(Query { sql, params, fetch, rule }))
}

/// Asks for a statement to be run for its effect.
pub fn ask_execute<'a, T>(sql: &'static str, params: Vec<Param<'a>>) -> (step: Step<'a, T>)
    ensures
        step matches Step::Ask(command) && command@ == CommandView::execute(sql, params@),
{
    ask(sql, params, Fetch::Execute, ErrorRule::Plain)
}

/// Asks for the one row of a statement.
pub fn ask_one<'a, T>(sql: &'static str, params: Vec<Param<'a>>) -> (step: Step<'a, T>)
    ensures
        step matches Step::Ask(command) && command@ == CommandView::one(sql, params@),
{
    ask(sql, params, Fetch::One, ErrorRule::Plain)
}

/// Asks for the first row of a statement, if there is one.
pub fn ask_optional<'a, T>(sql: &'static str, params: Vec<Param<'a>>) -> (step: Step<'a, T>)
    ensures
        step matches Step::Ask(command) && command@ == CommandView::optional(sql, params@),
{
    ask(sql, params, Fetch::Optional, ErrorRule::Plain)
}

/// Asks for all rows of a statement.
pub fn ask_all<'a, T>(sql: &'static str, params: Vec<Param<'a>>) -> (step: Step<'a, T>)
    ensures
        step matches Step::Ask(command) && command@ == CommandView::all(sql, params@),
{
    ask(sql, params, Fetch::All, ErrorRule::Plain)
}

} // verus!
