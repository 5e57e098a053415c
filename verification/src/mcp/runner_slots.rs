//! Admission of runners.

use vstd::prelude::*;

use crate::database::Database;
use crate::error::DatabaseError;
use crate::error::Fault;
use crate::id::Uuid;
use crate::row::FromRow;
use crate::row::Reply;
use crate::row::Row;
use crate::row::exactly_one;
use crate::row::many;
use crate::row::optional;
use crate::row::single;
use crate::sql::mcp as sql;
use crate::step::Command;
use crate::step::CommandView;
use crate::step::Param;
use crate::step::Step;
use crate::step::StepView;
use crate::step::ask_all;
use crate::step::ask_execute;
use crate::step::ask_one;
use crate::step::ask_optional;
use crate::step::stop;
use crate::step::stop_list;

verus! {

#[derive(Clone, Copy, Debug)]
pub struct NewMcpRunnerSlotReservation {
    pub tenant_id: Uuid,
    pub invocation_id: Uuid,
    pub principal_id: Uuid,
    pub tenant_limit: i64,
    pub principal_limit: i64,
    pub lease_seconds: i64,
}

/// A runner slot that an invocation holds.
#[derive(Debug)]
pub struct McpRunnerSlotReservation {
    pub tenant_id: Uuid,
    pub invocation_id: Uuid,
    pub principal_id: Uuid,
    pub lease_expires_at: String,
    pub created_at: String,
    pub released: bool,
}

impl McpRunnerSlotReservation {
    /// What a row holds, read by its column names.
    #[verifier::opaque]
    pub open spec fn of_row(row: Row) -> Result<McpRunnerSlotReservation, Fault> {
        if row.column::<Uuid>("tenant_id"@) is Some
            && row.column::<Uuid>("invocation_id"@) is Some
            && row.column::<Uuid>("principal_id"@) is Some
            && row.column::<String>("lease_expires_at"@) is Some
            && row.column::<String>("created_at"@) is Some
            && row.column::<bool>("released"@) is Some {
            Ok(
                McpRunnerSlotReservation {
                    tenant_id: row.column::<Uuid>("tenant_id"@)->0,
                    invocation_id: row.column::<Uuid>("invocation_id"@)->0,
                    principal_id: row.column::<Uuid>("principal_id"@)->0,
                    lease_expires_at: row.column::<String>("lease_expires_at"@)->0,
                    created_at: row.column::<String>("created_at"@)->0,
                    released: row.column::<bool>("released"@)->0,
                },
            )
        } else {
            Err(Fault::Malformed)
        }
    }
}

impl FromRow for McpRunnerSlotReservation {
    open spec fn row_spec(row: Row) -> Result<McpRunnerSlotReservation, Fault> {
        McpRunnerSlotReservation::of_row(row)
    }

    fn from_row(row: &Row) -> (r: Result<McpRunnerSlotReservation, Fault>) {
        proof {
            reveal(McpRunnerSlotReservation::of_row);
        }
        let tenant_id: Uuid = match row.get("tenant_id") {
            Some(v) => v,
            None => return Err(Fault::Malformed),
        };
        let invocation_id: Uuid = match row.get("invocation_id") {
            Some(v) => v,
            None => return Err(Fault::Malformed),
        };
        let principal_id: Uuid = match row.get("principal_id") {
            Some(v) => v,
            None => return Err(Fault::Malformed),
        };
        let lease_expires_at: String = match row.get("lease_expires_at") {
            Some(v) => v,
            None => return Err(Fault::Malformed),
        };
        let created_at: String = match row.get("created_at") {
            Some(v) => v,
            None => return Err(Fault::Malformed),
        };
        let released: bool = match row.get("released") {
            Some(v) => v,
            None => return Err(Fault::Malformed),
        };
        Ok(McpRunnerSlotReservation { 
            tenant_id, invocation_id, principal_id, lease_expires_at, created_at, released,
         })
    }
}

/// How many slots are held.
#[derive(Clone, Copy, Debug, PartialEq, Eq, Structural)]
pub struct SlotUsage {
    pub tenant_used: i64,
    pub principal_used: i64,
}

impl SlotUsage {
    /// What a row holds, read by its column names.
    #[verifier::opaque]
    pub open spec fn of_row(row: Row) -> Result<SlotUsage, Fault> {
        if row.column::<i64>("tenant_used"@) is Some
            && row.column::<i64>("principal_used"@) is Some {
            Ok(
                SlotUsage {
                    tenant_used: row.column::<i64>("tenant_used"@)->0,
                    principal_used: row.column::<i64>("principal_used"@)->0,
                },
            )
        } else {
            Err(Fault::Malformed)
        }
    }
}

impl FromRow for SlotUsage {
    open spec fn row_spec(row: Row) -> Result<SlotUsage, Fault> {
        SlotUsage::of_row(row)
    }

    fn from_row(row: &Row) -> (r: Result<SlotUsage, Fault>) {
        proof {
            reveal(SlotUsage::of_row);
        }
        let tenant_used: i64 = match row.get("tenant_used") {
            Some(v) => v,
            None => return Err(Fault::Malformed),
        };
        let principal_used: i64 = match row.get("principal_used") {
            Some(v) => v,
            None => return Err(Fault::Malformed),
        };
        Ok(SlotUsage { tenant_used, principal_used })
    }
}

/// The verdict on limits: both are between one and ten thousand, a principal's is no higher than
/// its tenant's, and a lease lasts at most a quarter of an hour.
pub open spec fn limits_verdict(
    tenant: i64, principal: i64, lease: i64,
) -> Result<(), DatabaseError> {
    if 1 <= principal <= tenant <= 10_000 && 1 <= lease <= 900 {
        Ok(())
    } else {
        Err(DatabaseError::InvalidPersistedValue)
    }
}

/// Refuses limits and leases that are out of range.
pub fn validate_limits(tenant: i64, principal: i64, lease: i64) -> (r: Result<(), DatabaseError>)
    ensures
        r == limits_verdict(tenant, principal, lease),
{
    if tenant < 1 || tenant > 10_000 || principal < 1 || principal > 10_000 || principal > tenant
        || lease < 1 || lease > 900 {
        Err(DatabaseError::InvalidPersistedValue)
    } else {
        Ok(())
    }
}

impl Database {

    /// What stops `mcp_reserve_runner_slot`, in order.
    pub open spec fn mcp_reserve_runner_slot_fault(
        input: NewMcpRunnerSlotReservation,
        log: Seq<Reply>,
    ) -> Option<Fault> {
        let held = log[3].optional_row::<McpRunnerSlotReservation>()->Ok_0;
        let kept = held->0;
        let usage = log[4].single_row::<SlotUsage>()->Ok_0;
        if limits_verdict(input.tenant_limit, input.principal_limit, input.lease_seconds) is Err {
            Some(
                Fault::Error(
                    limits_verdict(
                        input.tenant_limit, input.principal_limit, input.lease_seconds,
                    )->Err_0,
                ),
            )
        } else if log.len() > 2 && log[2].single_row::<()>() is Err {
            Fault::of(log[2].single_row::<()>())
        } else if log.len() > 3 && log[3].optional_row::<McpRunnerSlotReservation>() is Err {
            Fault::of(log[3].optional_row::<McpRunnerSlotReservation>())
        } else if log.len() > 3 && held is Some {
            if log.len() > 3 && (kept.principal_id != input.principal_id || kept.released) {
                Some(Fault::Error(DatabaseError::Conflict))
            } else {
                None
            }
        } else if log.len() > 4 && log[4].single_row::<SlotUsage>() is Err {
            Fault::of(log[4].single_row::<SlotUsage>())
        } else if log.len() > 4 && (usage.tenant_used >= input.tenant_limit
                || usage.principal_used >= input.principal_limit) {
            Some(Fault::Error(DatabaseError::AdmissionLimited))
        } else if log.len() > 5 && log[5].single_row::<McpRunnerSlotReservation>() is Err {
            Fault::of(log[5].single_row::<McpRunnerSlotReservation>())
        } else {
            None
        }
    }

    /// The commands of `mcp_reserve_runner_slot`, in order.
    pub open spec fn mcp_reserve_runner_slot_script<'a>(
        input: NewMcpRunnerSlotReservation,
        log: Seq<Reply>,
    ) -> Seq<CommandView<'a>> {
        let held = log[3].optional_row::<McpRunnerSlotReservation>()->Ok_0;
        seq![
            CommandView::Begin,
            CommandView::execute(
                sql::RESERVE_RUNNER_SLOT_INSERT_RUNNER_SLOT_ADMISSION,
                seq![Param::Id(input.tenant_id)],
            ),
            CommandView::one(
                sql::RESERVE_RUNNER_SLOT_SELECT_RUNNER_SLOT_ADMISSION,
                seq![Param::Id(input.tenant_id)],
            ),
            CommandView::optional(
                sql::RESERVE_RUNNER_SLOT_SELECT_RUNNER_SLOT_RESERVATIONS,
                seq![Param::Id(input.tenant_id), Param::Id(input.invocation_id)],
            ),
        ].add(
            if held is Some {
                seq![CommandView::Commit]
            } else {
                seq![
                    CommandView::one(
                        sql::RESERVE_RUNNER_SLOT_COUNT_RUNNER_SLOT_RESERVATIONS,
                        seq![Param::Id(input.tenant_id), Param::Id(input.principal_id)],
                    ),
                    CommandView::one(
                        sql::RESERVE_RUNNER_SLOT_INSERT_RUNNER_SLOT_RESERVATIONS,
                        seq![
                            Param::Id(input.tenant_id), Param::Id(input.invocation_id),
                            Param::Id(input.principal_id), Param::I64(input.lease_seconds),
                        ],
                    ),
                    CommandView::Commit,
                ]
            },
        )
    }

    /// What `mcp_reserve_runner_slot` returns.
    pub open spec fn mcp_reserve_runner_slot_output(log: Seq<Reply>) -> McpRunnerSlotReservation {
        let held = log[3].optional_row::<McpRunnerSlotReservation>()->Ok_0;
        let kept = held->0;
        let reservation = log[5].single_row::<McpRunnerSlotReservation>()->Ok_0;
        if held is Some {
            kept
        } else {
            reservation
        }
    }

    /// Reserves a runner slot for an invocation, within the limits of its tenant and principal. An
    /// invocation that holds a slot keeps it; one that has given it back gets no other.
    pub fn mcp_reserve_runner_slot<'a>(
        input: NewMcpRunnerSlotReservation,
        log: &'a [Reply],
    ) -> (step: Step<'a, McpRunnerSlotReservation>)
        ensures
            step@ == StepView::proceed(
                Self::mcp_reserve_runner_slot_fault(input, log@),
                Self::mcp_reserve_runner_slot_script(input, log@),
                Self::mcp_reserve_runner_slot_output(log@),
                log@,
            ),
    {
        let limits: () = match validate_limits(
            input.tenant_limit, input.principal_limit, input.lease_seconds,
        ) {
            Ok(value) => value,
            Err(error) => return Step::Fail(error),
        };
        if log.len() == 0 {
            return Step::Ask(Command::Begin);
        }
        if log.len() <= 1 {
            return ask_execute(
                sql::RESERVE_RUNNER_SLOT_INSERT_RUNNER_SLOT_ADMISSION,
                vec![Param::Id(input.tenant_id)],
            );
        }
        if log.len() <= 2 {
            return ask_one(
                sql::RESERVE_RUNNER_SLOT_SELECT_RUNNER_SLOT_ADMISSION,
                vec![Param::Id(input.tenant_id)],
            );
        }
        let admission: () = match single::<()>(&log[2]) {
            Ok(value) => value,
            Err(fault) => return stop(fault),
        };
        if log.len() <= 3 {
            return ask_optional(
                sql::RESERVE_RUNNER_SLOT_SELECT_RUNNER_SLOT_RESERVATIONS,
                vec![Param::Id(input.tenant_id), Param::Id(input.invocation_id)],
            );
        }
        let held: Option<McpRunnerSlotReservation> = match optional(&log[3]) {
            Ok(value) => value,
            Err(fault) => return stop(fault),
        };
        if held.is_some() {
            let kept: McpRunnerSlotReservation = held.unwrap();
            if kept.principal_id != input.principal_id || kept.released {
                return Step::Fail(DatabaseError::Conflict);
            }
            if log.len() <= 4 {
                return Step::Ask(Command::Commit);
            }
            return Step::Done(kept);
        }
        if log.len() <= 4 {
            return ask_one(
                sql::RESERVE_RUNNER_SLOT_COUNT_RUNNER_SLOT_RESERVATIONS,
                vec![Param::Id(input.tenant_id), Param::Id(input.principal_id)],
            );
        }
        let usage: SlotUsage = match single::<SlotUsage>(&log[4]) {
            Ok(value) => value,
            Err(fault) => return stop(fault),
        };
        if usage.tenant_used >= input.tenant_limit
            || usage.principal_used >= input.principal_limit {
            return Step::Fail(DatabaseError::AdmissionLimited);
        }
        if log.len() <= 5 {
            return ask_one(
                sql::RESERVE_RUNNER_SLOT_INSERT_RUNNER_SLOT_RESERVATIONS,
                vec![
                    Param::Id(input.tenant_id), Param::Id(input.invocation_id),
                    Param::Id(input.principal_id), Param::I64(input.lease_seconds),
                ],
            );
        }
        let reservation: McpRunnerSlotReservation = match single(&log[5]) {
            Ok(value) => value,
            Err(fault) => return stop(fault),
        };
        if log.len() <= 6 {
            return Step::Ask(Command::Commit);
        }
        Step::Done(reservation)
    }

    /// `mcp_reserve_runner_slot` runs in one transaction: it is done once its commit is
    /// acknowledged, and when it fails, nothing was committed.
    pub proof fn mcp_reserve_runner_slot_is_atomic(
        input: NewMcpRunnerSlotReservation,
        log: Seq<Reply>,
    )
        ensures
            crate::step::is_atomic(Self::mcp_reserve_runner_slot_script(input, log), 0),
            crate::step::commit_acknowledged(
                Self::mcp_reserve_runner_slot_fault(input, log.drop_last()),
                Self::mcp_reserve_runner_slot_script(input, log.drop_last()),
                log,
            ) ==> {
                &&& Self::mcp_reserve_runner_slot_fault(input, log) is None
                &&& log.len() == Self::mcp_reserve_runner_slot_script(input, log).len()
            },
    {
    }

    /// Every statement of `mcp_reserve_runner_slot` is about its tenant.
    pub proof fn mcp_reserve_runner_slot_is_scoped(
        input: NewMcpRunnerSlotReservation,
        log: Seq<Reply>,
    )
        ensures
            crate::step::is_scoped(
                Self::mcp_reserve_runner_slot_script(input, log),
                input.tenant_id,
            ),
    {
    }

    /// What stops `mcp_renew_runner_slot`, in order.
    pub open spec fn mcp_renew_runner_slot_fault(
        lease_seconds: i64,
        log: Seq<Reply>,
    ) -> Option<Fault> {
        if limits_verdict(1, 1, lease_seconds) is Err {
            Some(Fault::Error(limits_verdict(1, 1, lease_seconds)->Err_0))
        } else if log.len() > 0 && log[0].one_affected(DatabaseError::NotFound) is Err {
            Fault::of(log[0].one_affected(DatabaseError::NotFound))
        } else {
            None
        }
    }

    /// The commands of `mcp_renew_runner_slot`, in order.
    pub open spec fn mcp_renew_runner_slot_script<'a>(
        tenant_id: Uuid, invocation_id: Uuid, principal_id: Uuid, lease_seconds: i64,
        log: Seq<Reply>,
    ) -> Seq<CommandView<'a>> {
        seq![
            CommandView::execute(
                sql::RENEW_RUNNER_SLOT,
                seq![
                    Param::Id(tenant_id), Param::Id(invocation_id), Param::Id(principal_id),
                    Param::I64(lease_seconds),
                ],
            ),
        ]
    }

    /// Extends the lease of a held slot.
    pub fn mcp_renew_runner_slot<'a>(
        tenant_id: Uuid, invocation_id: Uuid, principal_id: Uuid, lease_seconds: i64,
        log: &'a [Reply],
    ) -> (step: Step<'a, ()>)
        ensures
            step@ == StepView::proceed(
                Self::mcp_renew_runner_slot_fault(lease_seconds, log@),
                Self::mcp_renew_runner_slot_script(
                    tenant_id, invocation_id, principal_id, lease_seconds, log@,
                ),
                (),
                log@,
            ),
    {
        let limits: () = match validate_limits(1, 1, lease_seconds) {
            Ok(value) => value,
            Err(error) => return Step::Fail(error),
        };
        if log.len() == 0 {
            return ask_execute(
                sql::RENEW_RUNNER_SLOT,
                vec![
                    Param::Id(tenant_id), Param::Id(invocation_id), Param::Id(principal_id),
                    Param::I64(lease_seconds),
                ],
            );
        }
        if let Err(fault) = exactly_one(&log[0], DatabaseError::NotFound) {
            return stop(fault);
        }
        Step::Done(())
    }

    /// Every statement of `mcp_renew_runner_slot` is about its tenant.
    pub proof fn mcp_renew_runner_slot_is_scoped(
        tenant_id: Uuid, invocation_id: Uuid, principal_id: Uuid, lease_seconds: i64,
        log: Seq<Reply>,
    )
        ensures
            crate::step::is_scoped(
                Self::mcp_renew_runner_slot_script(
                    tenant_id, invocation_id, principal_id, lease_seconds, log,
                ),
                tenant_id,
            ),
    {
    }

    /// What stops `mcp_expired_runner_slots`, in order.
    pub open spec fn mcp_expired_runner_slots_fault(limit: i64, log: Seq<Reply>) -> Option<Fault> {
        if limit < 1 || limit > 200 {
            Some(Fault::Error(DatabaseError::InvalidPersistedValue))
        } else if log.len() > 0 && log[0].all_rows::<McpRunnerSlotReservation>() is Err {
            Fault::of(log[0].all_rows::<McpRunnerSlotReservation>())
        } else {
            None
        }
    }

    /// The commands of `mcp_expired_runner_slots`, in order.
    pub open spec fn mcp_expired_runner_slots_script<'a>(
        limit: i64,
        log: Seq<Reply>,
    ) -> Seq<CommandView<'a>> {
        seq![CommandView::all(sql::EXPIRED_RUNNER_SLOTS, seq![Param::I64(limit)])]
    }

    /// What `mcp_expired_runner_slots` returns.
    pub open spec fn mcp_expired_runner_slots_output(
        log: Seq<Reply>,
    ) -> Seq<McpRunnerSlotReservation> {
        let slots = log[0].all_rows::<McpRunnerSlotReservation>()->Ok_0;
        slots
    }

    /// Held slots whose leases have run out.
    pub fn mcp_expired_runner_slots<'a>(
        limit: i64,
        log: &'a [Reply],
    ) -> (step: Step<'a, Vec<McpRunnerSlotReservation>>)
        ensures
            step.list() == StepView::proceed(
                Self::mcp_expired_runner_slots_fault(limit, log@),
                Self::mcp_expired_runner_slots_script(limit, log@),
                Self::mcp_expired_runner_slots_output(log@),
                log@,
            ),
    {
        if limit < 1 || limit > 200 {
            return Step::Fail(DatabaseError::InvalidPersistedValue);
        }
        if log.len() == 0 {
            return ask_all(sql::EXPIRED_RUNNER_SLOTS, vec![Param::I64(limit)]);
        }
        let slots: Vec<McpRunnerSlotReservation> = match many::<McpRunnerSlotReservation>(&log[0]) {
            Ok(value) => value,
            Err(fault) => return stop_list(fault),
        };
        Step::Done(slots)
    }

    /// What stops `mcp_release_runner_slot_after_confirmed_delete`, in order.
    pub open spec fn mcp_release_runner_slot_after_confirmed_delete_fault(
        log: Seq<Reply>,
    ) -> Option<Fault> {
        if log.len() > 0 && log[0].one_affected(DatabaseError::NotFound) is Err {
            Fault::of(log[0].one_affected(DatabaseError::NotFound))
        } else {
            None
        }
    }

    /// The commands of `mcp_release_runner_slot_after_confirmed_delete`, in order.
    pub open spec fn mcp_release_runner_slot_after_confirmed_delete_script<'a>(
        tenant_id: Uuid, invocation_id: Uuid, principal_id: Uuid, log: Seq<Reply>,
    ) -> Seq<CommandView<'a>> {
        seq![
            CommandView::execute(
                sql::RELEASE_RUNNER_SLOT_AFTER_CONFIRMED_DELETE,
                seq![Param::Id(tenant_id), Param::Id(invocation_id), Param::Id(principal_id)],
            ),
        ]
    }

    /// Gives a slot back once its runner is known to be gone.
    pub fn mcp_release_runner_slot_after_confirmed_delete<'a>(
        tenant_id: Uuid, invocation_id: Uuid, principal_id: Uuid, log: &'a [Reply],
    ) -> (step: Step<'a, ()>)
        ensures
            step@ == StepView::proceed(
                Self::mcp_release_runner_slot_after_confirmed_delete_fault(log@),
                Self::mcp_release_runner_slot_after_confirmed_delete_script(
                    tenant_id, invocation_id, principal_id, log@,
                ),
                (),
                log@,
            ),
    {
        if log.len() == 0 {
            return ask_execute(
                sql::RELEASE_RUNNER_SLOT_AFTER_CONFIRMED_DELETE,
                vec![Param::Id(tenant_id), Param::Id(invocation_id), Param::Id(principal_id)],
            );
        }
        if let Err(fault) = exactly_one(&log[0], DatabaseError::NotFound) {
            return stop(fault);
        }
        Step::Done(())
    }

    /// Every statement of `mcp_release_runner_slot_after_confirmed_delete` is about its tenant.
    pub proof fn mcp_release_runner_slot_after_confirmed_delete_is_scoped(
        tenant_id: Uuid, invocation_id: Uuid, principal_id: Uuid, log: Seq<Reply>,
    )
        ensures
            crate::step::is_scoped(
                Self::mcp_release_runner_slot_after_confirmed_delete_script(
                    tenant_id, invocation_id, principal_id, log,
                ),
                tenant_id,
            ),
    {
    }

}

} // verus!
