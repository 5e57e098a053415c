//! Long conversations that are told piece by piece: how far a log of replies carries one.

use vstd::prelude::*;

use crate::error::DatabaseError;
use crate::error::Fault;
use crate::row::FromRow;
use crate::row::Reply;
use crate::row::affected;
use crate::row::exactly_one;
use crate::row::many;
use crate::step::Command;
use crate::step::CommandView;
use crate::step::ErrorRule;
use crate::step::Fetch;
use crate::step::Param;
use crate::step::Query;
use crate::step::Step;
use crate::step::StepView;
use crate::step::stop;

verus! {

/// Where a conversation stands once its replies are used up.
#[derive(Debug)]
pub enum Progress<'a, T> {
    /// It waits for this command.
    Ask(Command<'a>),
    /// It cannot go on.
    Stop(Fault),
    /// It has read the replies before this position, and what they amount to.
    At(usize, T),
}

/// A [`Progress`], as contracts speak of it.
#[verifier::ext_equal]
pub enum ProgressView<'a, T> {
    Ask(CommandView<'a>),
    Stop(Fault),
    At(int, T),
}

impl<'a, T> Progress<'a, T> {
    pub open spec fn view(self) -> ProgressView<'a, T> {
        match self {
            Progress::Ask(command) => ProgressView::Ask(command.view()),
            Progress::Stop(fault) => ProgressView::Stop(fault),
            Progress::At(at, value) => ProgressView::At(at as int, value),
        }
    }

    /// The step at which the conversation stands, where it ends with what it has read.
    pub fn step(self) -> (step: Step<'a, T>)
        ensures
            step@ == self@.next_step(),
    {
        match self {
            Progress::Ask(command) => Step::Ask(command),
            Progress::Stop(fault) => stop(fault),
            Progress::At(_, value) => Step::Done(value),
        }
    }
}

impl<'a, T> Progress<'a, Vec<T>> {
    /// The progress of a conversation that reads a list.
    pub open spec fn list(self) -> ProgressView<'a, Seq<T>> {
        match self {
            Progress::Ask(command) => ProgressView::Ask(command.view()),
            Progress::Stop(fault) => ProgressView::Stop(fault),
            Progress::At(at, value) => ProgressView::At(at as int, value@),
        }
    }
}

impl<'a, T> ProgressView<'a, T> {
    /// What follows, where the conversation has come this far.
    pub open spec fn next<U>(self, rest: spec_fn(int, T) -> ProgressView<'a, U>) -> ProgressView<
        'a,
        U,
    > {
        match self {
            ProgressView::Ask(command) => ProgressView::Ask(command),
            ProgressView::Stop(fault) => ProgressView::Stop(fault),
            ProgressView::At(at, value) => rest(at, value),
        }
    }

    /// The progress at a position, where what was read adds up.
    pub open spec fn total(at: int, r: Result<T, Fault>) -> ProgressView<'a, T> {
        match r {
            Ok(value) => ProgressView::At(at, value),
            Err(fault) => ProgressView::Stop(fault),
        }
    }

    /// The step at which the conversation stands, where it ends with what it has read.
    pub open spec fn next_step(self) -> StepView<'a, T> {
        match self {
            ProgressView::Ask(command) => StepView::Ask(command),
            ProgressView::Stop(fault) => StepView::fault(fault),
            ProgressView::At(_, value) => StepView::Done(value),
        }
    }
}

/// The sum of two counts; the conversation cannot go on where it does not fit.
pub open spec fn sum_spec(total: u64, added: u64) -> Result<u64, Fault> {
    if total + added <= u64::MAX {
        Ok((total + added) as u64)
    } else {
        Err(Fault::Malformed)
    }
}

/// The sum of two counts.
pub fn sum(total: u64, added: u64) -> (r: Result<u64, Fault>)
    ensures
        r == sum_spec(total, added),
{
    if added <= u64::MAX - total {
        Ok(total + added)
    } else {
        Err(Fault::Malformed)
    }
}

/// A command whose reply reports nothing of use.
pub open spec fn after_any<'a>(
    log: Seq<Reply>,
    at: int,
    command: CommandView<'a>,
) -> ProgressView<'a, ()> {
    if at >= log.len() {
        ProgressView::Ask(command)
    } else {
        ProgressView::At(at + 1, ())
    }
}

/// A write that must touch exactly one row.
pub open spec fn after_one<'a>(
    log: Seq<Reply>,
    at: int,
    command: CommandView<'a>,
    otherwise: DatabaseError,
) -> ProgressView<'a, ()> {
    if at >= log.len() {
        ProgressView::Ask(command)
    } else {
        ProgressView::total(at + 1, log[at].one_affected(otherwise))
    }
}

/// A write whose count matters.
pub open spec fn after_count<'a>(
    log: Seq<Reply>,
    at: int,
    command: CommandView<'a>,
) -> ProgressView<'a, u64> {
    if at >= log.len() {
        ProgressView::Ask(command)
    } else {
        ProgressView::total(at + 1, log[at].row_count())
    }
}

/// A statement that returns a list of rows.
pub open spec fn after_rows<'a, T: FromRow>(
    log: Seq<Reply>,
    at: int,
    command: CommandView<'a>,
) -> ProgressView<'a, Seq<T>> {
    if at >= log.len() {
        ProgressView::Ask(command)
    } else {
        ProgressView::total(at + 1, log[at].all_rows::<T>())
    }
}

/// A statement that is run for its effect.
pub fn execute<'a>(sql: &'static str, params: Vec<Param<'a>>) -> (command: Command<'a>)
    ensures
        command@ == CommandView::execute(sql, params@),
{
    Command::Query(Query { sql, params, fetch: Fetch::Execute, rule: ErrorRule::Plain })
}

/// A statement that returns a list of rows.
pub fn all<'a>(sql: &'static str, params: Vec<Param<'a>>) -> (command: Command<'a>)
    ensures
        command@ == CommandView::all(sql, params@),
{
    Command::Query(Query { sql, params, fetch: Fetch::All, rule: ErrorRule::Plain })
}

/// Goes past a command whose reply reports nothing of use.
pub fn pass_any<'a>(log: &'a [Reply], at: usize, command: Command<'a>) -> (r: Progress<'a, ()>)
    ensures
        r@ == after_any(log@, at as int, command@),
{
    if at >= log.len() {
        Progress::Ask(command)
    } else {
        Progress::At(at + 1, ())
    }
}

/// Goes past a write that must touch exactly one row.
pub fn pass_one<'a>(
    log: &'a [Reply],
    at: usize,
    command: Command<'a>,
    otherwise: DatabaseError,
) -> (r: Progress<'a, ()>)
    ensures
        r@ == after_one(log@, at as int, command@, otherwise),
{
    if at >= log.len() {
        return Progress::Ask(command);
    }
    match exactly_one(&log[at], otherwise) {
        Ok(_) => Progress::At(at + 1, ()),
        Err(fault) => Progress::Stop(fault),
    }
}

/// Goes past a write whose count matters.
pub fn pass_count<'a>(log: &'a [Reply], at: usize, command: Command<'a>) -> (r: Progress<'a, u64>)
    ensures
        r@ == after_count(log@, at as int, command@),
{
    if at >= log.len() {
        return Progress::Ask(command);
    }
    match affected(&log[at]) {
        Ok(count) => Progress::At(at + 1, count),
        Err(fault) => Progress::Stop(fault),
    }
}

/// Goes past a statement that returns a list of rows.
pub fn pass_rows<'a, T: FromRow>(
    log: &'a [Reply],
    at: usize,
    command: Command<'a>,
) -> (r: Progress<'a, Vec<T>>)
    ensures
        r.list() == after_rows::<T>(log@, at as int, command@),
{
    if at >= log.len() {
        return Progress::Ask(command);
    }
    match many::<T>(&log[at]) {
        Ok(rows) => Progress::At(at + 1, rows),
        Err(fault) => Progress::Stop(fault),
    }
}

} // verus!
