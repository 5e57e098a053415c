//! Tenants and their storage backends.

use vstd::prelude::*;

use crate::database::Database;
use crate::error::DatabaseError;
use crate::error::Fault;
use crate::id::Uuid;
use crate::row::Reply;
use crate::row::drawn;
use crate::row::exactly_one;
use crate::row::optional;
use crate::row::required;
use crate::row::single;
use crate::sql::catalog as sql;
use crate::step::Command;
use crate::step::CommandView;
use crate::step::Param;
use crate::step::Step;
use crate::step::StepView;
use crate::step::ask_execute;
use crate::step::ask_one;
use crate::step::ask_optional;
use crate::step::stop;

verus! {

impl Database {

    /// The commands of `health`, in order.
    pub open spec fn health_script<'a>(log: Seq<Reply>) -> Seq<CommandView<'a>> {
        seq![CommandView::execute(sql::HEALTH, seq![])]
    }

    /// Asks the database for a sign of life.
    pub fn health<'a>(log: &'a [Reply]) -> (step: Step<'a, ()>)
        ensures
            step@ == StepView::proceed(None, Self::health_script(log@), (), log@),
    {
        if log.len() == 0 {
            return ask_execute(sql::HEALTH, vec![]);
        }
        Step::Done(())
    }

    /// What stops `phase8_is_active`, in order.
    pub open spec fn phase8_is_active_fault(log: Seq<Reply>) -> Option<Fault> {
        if log.len() > 0 && log[0].single_row::<bool>() is Err {
            Fault::of(log[0].single_row::<bool>())
        } else {
            None
        }
    }

    /// The commands of `phase8_is_active`, in order.
    pub open spec fn phase8_is_active_script<'a>(
        tenant_id: Uuid,
        log: Seq<Reply>,
    ) -> Seq<CommandView<'a>> {
        seq![CommandView::one(sql::PHASE8_IS_ACTIVE, seq![Param::Id(tenant_id)])]
    }

    /// What `phase8_is_active` returns.
    pub open spec fn phase8_is_active_output(log: Seq<Reply>) -> bool {
        let active = log[0].single_row::<bool>()->Ok_0;
        active
    }

    /// Whether the tenant's activation record says that it is active.
    pub fn phase8_is_active<'a>(tenant_id: Uuid, log: &'a [Reply]) -> (step: Step<'a, bool>)
        ensures
            step@ == StepView::proceed(
                Self::phase8_is_active_fault(log@),
                Self::phase8_is_active_script(tenant_id, log@),
                Self::phase8_is_active_output(log@),
                log@,
            ),
    {
        if log.len() == 0 {
            return ask_one(sql::PHASE8_IS_ACTIVE, vec![Param::Id(tenant_id)]);
        }
        let active: bool = match single::<bool>(&log[0]) {
            Ok(value) => value,
            Err(fault) => return stop(fault),
        };
        Step::Done(active)
    }

    /// Every statement of `phase8_is_active` is about its tenant.
    pub proof fn phase8_is_active_is_scoped(tenant_id: Uuid, log: Seq<Reply>)
        ensures
            crate::step::is_scoped(Self::phase8_is_active_script(tenant_id, log), tenant_id),
    {
    }

    /// What stops `bootstrap_tenant`, in order.
    pub open spec fn bootstrap_tenant_fault(backend_id: Uuid, log: Seq<Reply>) -> Option<Fault> {
        let known = log[1].optional_row::<Uuid>()->Ok_0;
        let drawn = log[2].drawn_ids(1);
        let at = if known is None {
            3int
        } else {
            2
        };
        let backend = log[at + 1].optional_row::<Uuid>()->Ok_0;
        if log.len() > 1 && log[1].optional_row::<Uuid>() is Err {
            Fault::of(log[1].optional_row::<Uuid>())
        } else if known is None && log.len() > 2 && drawn is Err {
            Fault::of(drawn)
        } else if log.len() > at + 1 && log[at + 1].optional_row::<Uuid>() is Err {
            Fault::of(log[at + 1].optional_row::<Uuid>())
        } else if log.len() > at + 1 && backend is Some && backend->0 != backend_id {
            Some(Fault::Error(DatabaseError::Conflict))
        } else {
            None
        }
    }

    /// The commands of `bootstrap_tenant`, in order.
    pub open spec fn bootstrap_tenant_script<'a>(
        slug: &'a str, backend_id: Uuid, admin_bindings: &'a [(String, String)],
        log: Seq<Reply>,
    ) -> Seq<CommandView<'a>> {
        let known = log[1].optional_row::<Uuid>()->Ok_0;
        let drawn = log[2].drawn_ids(1);
        let tenant_id = if known is None {
            drawn->Ok_0[0]
        } else {
            known->0
        };
        seq![
            CommandView::Begin,
            CommandView::optional(sql::BOOTSTRAP_TENANT_SELECT_TENANTS, seq![Param::Text(slug)]),
        ].add(
            if known is None {
                seq![CommandView::DrawIds(1)]
            } else {
                Seq::empty()
            },
        ).add(
            seq![
                CommandView::execute(
                    sql::BOOTSTRAP_TENANT_INSERT_TENANTS,
                    seq![Param::Id(tenant_id), Param::Text(slug)],
                ),
                CommandView::optional(
                    sql::BOOTSTRAP_TENANT_SELECT_STORAGE_BACKENDS,
                    seq![Param::Id(tenant_id)],
                ),
                CommandView::execute(
                    sql::BOOTSTRAP_TENANT_INSERT_STORAGE_BACKENDS,
                    seq![Param::Id(tenant_id), Param::Id(backend_id)],
                ),
            ],
        ).add(
            Seq::new(
                admin_bindings@.len(),
                |j: int| CommandView::execute(
                    sql::BOOTSTRAP_TENANT_INSERT_TENANT_ADMIN_BINDINGS,
                    seq![
                        Param::Id(tenant_id), Param::Owned(admin_bindings[j].0),
                        Param::Owned(admin_bindings[j].1),
                    ],
                ),
            ),
        ).add(seq![CommandView::Commit])
    }

    /// What `bootstrap_tenant` returns.
    pub open spec fn bootstrap_tenant_output(log: Seq<Reply>) -> Uuid {
        let known = log[1].optional_row::<Uuid>()->Ok_0;
        let drawn = log[2].drawn_ids(1);
        let tenant_id = if known is None {
            drawn->Ok_0[0]
        } else {
            known->0
        };
        tenant_id
    }

    /// Registers a tenant, its one storage backend and its administrators, and returns the tenant's
    /// identifier. What is registered already stays; another backend is a conflict.
    pub fn bootstrap_tenant<'a>(
        slug: &'a str, backend_id: Uuid, admin_bindings: &'a [(String, String)],
        log: &'a [Reply],
    ) -> (step: Step<'a, Uuid>)
        ensures
            step@ == StepView::proceed(
                Self::bootstrap_tenant_fault(backend_id, log@),
                Self::bootstrap_tenant_script(slug, backend_id, admin_bindings, log@),
                Self::bootstrap_tenant_output(log@),
                log@,
            ),
    {
        if log.len() == 0 {
            return Step::Ask(Command::Begin);
        }
        if log.len() <= 1 {
            return ask_optional(sql::BOOTSTRAP_TENANT_SELECT_TENANTS, vec![Param::Text(slug)]);
        }
        let known: Option<Uuid> = match optional::<Uuid>(&log[1]) {
            Ok(value) => value,
            Err(fault) => return stop(fault),
        };
        let tenant_id: Uuid = if known.is_none() {
            if log.len() <= 2 {
                return Step::Ask(Command::DrawIds(1));
            }
            let drawn: &Vec<Uuid> = match drawn(&log[2], 1) {
                Ok(ids) => ids,
                Err(fault) => return stop(fault),
            };
            let tenant_id: Uuid = drawn[0];
            tenant_id
        } else {
            known.unwrap()
        };
        let at: usize = if known.is_none() {
            3
        } else {
            2
        };
        if log.len() <= at {
            return ask_execute(
                sql::BOOTSTRAP_TENANT_INSERT_TENANTS,
                vec![Param::Id(tenant_id), Param::Text(slug)],
            );
        }
        if log.len() - at <= 1 {
            return ask_optional(
                sql::BOOTSTRAP_TENANT_SELECT_STORAGE_BACKENDS,
                vec![Param::Id(tenant_id)],
            );
        }
        let backend: Option<Uuid> = match optional::<Uuid>(&log[at + 1]) {
            Ok(value) => value,
            Err(fault) => return stop(fault),
        };
        if backend.is_some() && backend.unwrap() != backend_id {
            return Step::Fail(DatabaseError::Conflict);
        }
        if log.len() - at <= 2 {
            return ask_execute(
                sql::BOOTSTRAP_TENANT_INSERT_STORAGE_BACKENDS,
                vec![Param::Id(tenant_id), Param::Id(backend_id)],
            );
        }
        let items2: usize = admin_bindings.len();
        if log.len() - (at + 3) < items2 {
            let j: usize = log.len() - (at + 3);
            return ask_execute(
                sql::BOOTSTRAP_TENANT_INSERT_TENANT_ADMIN_BINDINGS,
                vec![
                    Param::Id(tenant_id), Param::Owned(admin_bindings[j].0.clone()),
                    Param::Owned(admin_bindings[j].1.clone()),
                ],
            );
        }
        let at2: usize = at + 3 + items2;
        if log.len() <= at2 {
            return Step::Ask(Command::Commit);
        }
        Step::Done(tenant_id)
    }

    /// `bootstrap_tenant` runs in one transaction: it is done once its commit is acknowledged, and
    /// when it fails, nothing was committed.
    pub proof fn bootstrap_tenant_is_atomic<'a>(
        slug: &'a str, backend_id: Uuid, admin_bindings: &'a [(String, String)],
        log: Seq<Reply>,
    )
        ensures
            crate::step::is_atomic(
                Self::bootstrap_tenant_script(slug, backend_id, admin_bindings, log),
                0,
            ),
            crate::step::commit_acknowledged(
                Self::bootstrap_tenant_fault(backend_id, log.drop_last()),
                Self::bootstrap_tenant_script(slug, backend_id, admin_bindings, log.drop_last()),
                log,
            ) ==> {
                &&& Self::bootstrap_tenant_fault(backend_id, log) is None
                &&& log.len() == Self::bootstrap_tenant_script(
                    slug, backend_id, admin_bindings, log,
                ).len()
            },
    {
    }

    /// What stops `tenant_by_slug`, in order.
    pub open spec fn tenant_by_slug_fault(log: Seq<Reply>) -> Option<Fault> {
        if log.len() > 0 && log[0].required_row::<Uuid>(DatabaseError::NotFound) is Err {
            Fault::of(log[0].required_row::<Uuid>(DatabaseError::NotFound))
        } else {
            None
        }
    }

    /// The commands of `tenant_by_slug`, in order.
    pub open spec fn tenant_by_slug_script<'a>(
        slug: &'a str,
        log: Seq<Reply>,
    ) -> Seq<CommandView<'a>> {
        seq![CommandView::optional(sql::TENANT_BY_SLUG, seq![Param::Text(slug)])]
    }

    /// What `tenant_by_slug` returns.
    pub open spec fn tenant_by_slug_output(log: Seq<Reply>) -> Uuid {
        let tenant_id = log[0].required_row::<Uuid>(DatabaseError::NotFound)->Ok_0;
        tenant_id
    }

    /// The tenant with this slug.
    pub fn tenant_by_slug<'a>(slug: &'a str, log: &'a [Reply]) -> (step: Step<'a, Uuid>)
        ensures
            step@ == StepView::proceed(
                Self::tenant_by_slug_fault(log@),
                Self::tenant_by_slug_script(slug, log@),
                Self::tenant_by_slug_output(log@),
                log@,
            ),
    {
        if log.len() == 0 {
            return ask_optional(sql::TENANT_BY_SLUG, vec![Param::Text(slug)]);
        }
        let tenant_id: Uuid = match required::<Uuid>(&log[0], DatabaseError::NotFound) {
            Ok(value) => value,
            Err(fault) => return stop(fault),
        };
        Step::Done(tenant_id)
    }

    /// What stops `report_storage_capacity`, in order.
    pub open spec fn report_storage_capacity_fault(
        total_bytes: i64, free_bytes: i64, log: Seq<Reply>,
    ) -> Option<Fault> {
        if total_bytes <= 0 || free_bytes < 0 || free_bytes > total_bytes {
            Some(Fault::Error(DatabaseError::InvalidPersistedValue))
        } else if log.len() > 0 && log[0].one_affected(DatabaseError::NotFound) is Err {
            Fault::of(log[0].one_affected(DatabaseError::NotFound))
        } else {
            None
        }
    }

    /// The commands of `report_storage_capacity`, in order.
    pub open spec fn report_storage_capacity_script<'a>(
        tenant_id: Uuid, backend_id: Uuid, total_bytes: i64, free_bytes: i64, ready: bool,
        log: Seq<Reply>,
    ) -> Seq<CommandView<'a>> {
        seq![
            CommandView::execute(
                sql::REPORT_STORAGE_CAPACITY,
                seq![
                    Param::Id(tenant_id), Param::Id(backend_id), Param::I64(total_bytes),
                    Param::I64(free_bytes), Param::Bool(ready),
                ],
            ),
        ]
    }

    /// Records how much room a storage backend has, and whether it takes writes.
    pub fn report_storage_capacity<'a>(
        tenant_id: Uuid, backend_id: Uuid, total_bytes: i64, free_bytes: i64, ready: bool,
        log: &'a [Reply],
    ) -> (step: Step<'a, ()>)
        ensures
            step@ == StepView::proceed(
                Self::report_storage_capacity_fault(total_bytes, free_bytes, log@),
                Self::report_storage_capacity_script(
                    tenant_id, backend_id, total_bytes, free_bytes, ready, log@,
                ),
                (),
                log@,
            ),
    {
        if total_bytes <= 0 || free_bytes < 0 || free_bytes > total_bytes {
            return Step::Fail(DatabaseError::InvalidPersistedValue);
        }
        if log.len() == 0 {
            return ask_execute(
                sql::REPORT_STORAGE_CAPACITY,
                vec![
                    Param::Id(tenant_id), Param::Id(backend_id), Param::I64(total_bytes),
                    Param::I64(free_bytes), Param::Bool(ready),
                ],
            );
        }
        if let Err(fault) = exactly_one(&log[0], DatabaseError::NotFound) {
            return stop(fault);
        }
        Step::Done(())
    }

    /// Every statement of `report_storage_capacity` is about its tenant.
    pub proof fn report_storage_capacity_is_scoped(
        tenant_id: Uuid, backend_id: Uuid, total_bytes: i64, free_bytes: i64, ready: bool,
        log: Seq<Reply>,
    )
        ensures
            crate::step::is_scoped(
                Self::report_storage_capacity_script(
                    tenant_id, backend_id, total_bytes, free_bytes, ready, log,
                ),
                tenant_id,
            ),
    {
    }

    /// What stops `mark_storage_unready`, in order.
    pub open spec fn mark_storage_unready_fault(log: Seq<Reply>) -> Option<Fault> {
        if log.len() > 0 && log[0].one_affected(DatabaseError::NotFound) is Err {
            Fault::of(log[0].one_affected(DatabaseError::NotFound))
        } else {
            None
        }
    }

    /// The commands of `mark_storage_unready`, in order.
    pub open spec fn mark_storage_unready_script<'a>(
        tenant_id: Uuid, backend_id: Uuid, log: Seq<Reply>,
    ) -> Seq<CommandView<'a>> {
        seq![
            CommandView::execute(
                sql::MARK_STORAGE_UNREADY,
                seq![Param::Id(tenant_id), Param::Id(backend_id)],
            ),
        ]
    }

    /// Records that a storage backend takes no writes.
    pub fn mark_storage_unready<'a>(
        tenant_id: Uuid, backend_id: Uuid, log: &'a [Reply],
    ) -> (step: Step<'a, ()>)
        ensures
            step@ == StepView::proceed(
                Self::mark_storage_unready_fault(log@),
                Self::mark_storage_unready_script(tenant_id, backend_id, log@),
                (),
                log@,
            ),
    {
        if log.len() == 0 {
            return ask_execute(
                sql::MARK_STORAGE_UNREADY,
                vec![Param::Id(tenant_id), Param::Id(backend_id)],
            );
        }
        if let Err(fault) = exactly_one(&log[0], DatabaseError::NotFound) {
            return stop(fault);
        }
        Step::Done(())
    }

    /// Every statement of `mark_storage_unready` is about its tenant.
    pub proof fn mark_storage_unready_is_scoped(tenant_id: Uuid, backend_id: Uuid, log: Seq<Reply>)
        ensures
            crate::step::is_scoped(
                Self::mark_storage_unready_script(tenant_id, backend_id, log),
                tenant_id,
            ),
    {
    }

}

} // verus!
