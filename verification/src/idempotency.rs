//! Recorded responses of idempotent requests.

use std::sync::Arc;

use vstd::prelude::*;

use crate::database::Database;
use crate::error::DatabaseError;
use crate::error::Fault;
use crate::id::Uuid;
use crate::json::Json;
use crate::row::FromRow;
use crate::row::Reply;
use crate::row::Row;
use crate::row::optional;
use crate::row::single;
use crate::sql::catalog as sql;
use crate::step::CommandView;
use crate::step::Param;
use crate::step::Step;
use crate::step::StepView;
use crate::step::ask_one;
use crate::step::ask_optional;
use crate::step::stop;
use crate::text::ascii_graphic;
use crate::text::bytes_eq;
use crate::text::sized;

verus! {

/// The response that a request got, with the fingerprint of the request.
#[derive(Debug)]
pub struct IdempotencyRecord {
    pub request_fingerprint: Arc<Vec<u8>>,
    pub response_status: i32,
    pub response_body: Arc<Json>,
}

impl IdempotencyRecord {
    /// What a row holds, read by its column names.
    #[verifier::opaque]
    pub open spec fn of_row(row: Row) -> Result<IdempotencyRecord, Fault> {
        if row.column::<Arc<Vec<u8>>>("request_fingerprint"@) is Some
            && row.column::<i32>("response_status"@) is Some
            && row.column::<Arc<Json>>("response_body"@) is Some {
            Ok(
                IdempotencyRecord {
                    request_fingerprint: row.column::<Arc<Vec<u8>>>("request_fingerprint"@)->0,
                    response_status: row.column::<i32>("response_status"@)->0,
                    response_body: row.column::<Arc<Json>>("response_body"@)->0,
                },
            )
        } else {
            Err(Fault::Malformed)
        }
    }
}

impl FromRow for IdempotencyRecord {
    open spec fn row_spec(row: Row) -> Result<IdempotencyRecord, Fault> {
        IdempotencyRecord::of_row(row)
    }

    fn from_row(row: &Row) -> (r: Result<IdempotencyRecord, Fault>) {
        proof {
            reveal(IdempotencyRecord::of_row);
        }
        let request_fingerprint: Arc<Vec<u8>> = match row.get("request_fingerprint") {
            Some(v) => v,
            None => return Err(Fault::Malformed),
        };
        let response_status: i32 = match row.get("response_status") {
            Some(v) => v,
            None => return Err(Fault::Malformed),
        };
        let response_body: Arc<Json> = match row.get("response_body") {
            Some(v) => v,
            None => return Err(Fault::Malformed),
        };
        Ok(IdempotencyRecord { request_fingerprint, response_status, response_body })
    }
}

/// A reservation of a key, as it stands when it is locked.
#[derive(Debug)]
pub struct IdempotencyReceipt {
    pub record: IdempotencyRecord,
    pub expired: bool,
}

impl IdempotencyReceipt {
    /// What a row holds, read by its column names.
    #[verifier::opaque]
    pub open spec fn of_row(row: Row) -> Result<IdempotencyReceipt, Fault> {
        if <IdempotencyRecord as FromRow>::row_spec(row) is Ok
            && row.column::<bool>("expired"@) is Some {
            Ok(
                IdempotencyReceipt {
                    record: <IdempotencyRecord as FromRow>::row_spec(row)->Ok_0,
                    expired: row.column::<bool>("expired"@)->0,
                },
            )
        } else {
            Err(Fault::Malformed)
        }
    }
}

impl FromRow for IdempotencyReceipt {
    open spec fn row_spec(row: Row) -> Result<IdempotencyReceipt, Fault> {
        IdempotencyReceipt::of_row(row)
    }

    fn from_row(row: &Row) -> (r: Result<IdempotencyReceipt, Fault>) {
        proof {
            reveal(IdempotencyReceipt::of_row);
        }
        let record: IdempotencyRecord = match IdempotencyRecord::from_row(row) {
            Ok(v) => v,
            Err(_) => return Err(Fault::Malformed),
        };
        let expired: bool = match row.get("expired") {
            Some(v) => v,
            None => return Err(Fault::Malformed),
        };
        Ok(IdempotencyReceipt { record, expired })
    }
}

impl IdempotencyReceipt {
    /// Whether the receipt is of this request. One older fingerprint of the same request may
    /// stand for it.
    pub open spec fn matches(self, fingerprint: &[u8; 32], legacy: Option<&[u8; 32]>) -> bool {
        ||| self.record.request_fingerprint@ == fingerprint@
        ||| legacy is Some && self.record.request_fingerprint@ == legacy->0@
    }

    /// Whether the receipt is of this request.
    pub fn is_match(&self, fingerprint: &[u8; 32], legacy: Option<&[u8; 32]>) -> (r: bool)
        ensures
            r == self.matches(fingerprint, legacy),
    {
        if bytes_eq(self.record.request_fingerprint.as_slice(), fingerprint) {
            return true;
        }
        match legacy {
            Some(legacy) => bytes_eq(self.record.request_fingerprint.as_slice(), legacy),
            None => false,
        }
    }
}

/// Whether a key of a route can be reserved: both are given and not too long, and the key is
/// made of visible ASCII characters.
pub open spec fn is_reservable(route: Seq<char>, key: Seq<char>) -> bool {
    &&& crate::text::is_sized(route, 1, 255)
    &&& crate::text::is_sized(key, 1, 128)
    &&& crate::text::is_ascii_graphic(key)
}

/// Whether a key of a route can be reserved.
pub fn reservable(route: &str, key: &str) -> (r: bool)
    ensures
        r == is_reservable(route@, key@),
{
    sized(route, 1, 255) && sized(key, 1, 128) && ascii_graphic(key)
}

impl Database {

    /// What stops `idempotency_record`, in order.
    pub open spec fn idempotency_record_fault(log: Seq<Reply>) -> Option<Fault> {
        if log.len() > 0 && log[0].optional_row::<IdempotencyRecord>() is Err {
            Fault::of(log[0].optional_row::<IdempotencyRecord>())
        } else {
            None
        }
    }

    /// The commands of `idempotency_record`, in order.
    pub open spec fn idempotency_record_script<'a>(
        tenant_id: Uuid, principal_id: Uuid, route: &'a str, key: &'a str, log: Seq<Reply>,
    ) -> Seq<CommandView<'a>> {
        seq![
            CommandView::optional(
                sql::IDEMPOTENCY_RECORD,
                seq![
                    Param::Id(tenant_id), Param::Id(principal_id), Param::Text(route),
                    Param::Text(key),
                ],
            ),
        ]
    }

    /// What `idempotency_record` returns.
    pub open spec fn idempotency_record_output(log: Seq<Reply>) -> Option<IdempotencyRecord> {
        let record = log[0].optional_row::<IdempotencyRecord>()->Ok_0;
        record
    }

    /// The response on record for a key of a route, if there is one.
    pub fn idempotency_record<'a>(
        tenant_id: Uuid, principal_id: Uuid, route: &'a str, key: &'a str, log: &'a [Reply],
    ) -> (step: Step<'a, Option<IdempotencyRecord>>)
        ensures
            step@ == StepView::proceed(
                Self::idempotency_record_fault(log@),
                Self::idempotency_record_script(tenant_id, principal_id, route, key, log@),
                Self::idempotency_record_output(log@),
                log@,
            ),
    {
        if log.len() == 0 {
            return ask_optional(
                sql::IDEMPOTENCY_RECORD,
                vec![
                    Param::Id(tenant_id), Param::Id(principal_id), Param::Text(route),
                    Param::Text(key),
                ],
            );
        }
        let record: Option<IdempotencyRecord> = match optional::<IdempotencyRecord>(&log[0]) {
            Ok(value) => value,
            Err(fault) => return stop(fault),
        };
        Step::Done(record)
    }

    /// Every statement of `idempotency_record` is about its tenant.
    pub proof fn idempotency_record_is_scoped<'a>(
        tenant_id: Uuid, principal_id: Uuid, route: &'a str, key: &'a str, log: Seq<Reply>,
    )
        ensures
            crate::step::is_scoped(
                Self::idempotency_record_script(tenant_id, principal_id, route, key, log),
                tenant_id,
            ),
    {
    }

    /// What stops `store_idempotency_response`, in order.
    pub open spec fn store_idempotency_response_fault(log: Seq<Reply>) -> Option<Fault> {
        if log.len() > 0 && log[0].single_row::<IdempotencyRecord>() is Err {
            Fault::of(log[0].single_row::<IdempotencyRecord>())
        } else {
            None
        }
    }

    /// The commands of `store_idempotency_response`, in order.
    pub open spec fn store_idempotency_response_script<'a>(
        tenant_id: Uuid, principal_id: Uuid, route: &'a str, key: &'a str,
        request_fingerprint: &'a [u8], response_status: i32, response_body: &'a Json,
        log: Seq<Reply>,
    ) -> Seq<CommandView<'a>> {
        seq![
            CommandView::one(
                sql::STORE_IDEMPOTENCY_RESPONSE,
                seq![
                    Param::Id(tenant_id), Param::Id(principal_id), Param::Text(route),
                    Param::Text(key), Param::Bytes(request_fingerprint),
                    Param::I32(response_status), Param::Json(response_body),
                ],
            ),
        ]
    }

    /// What `store_idempotency_response` returns.
    pub open spec fn store_idempotency_response_output(log: Seq<Reply>) -> IdempotencyRecord {
        let record = log[0].single_row::<IdempotencyRecord>()->Ok_0;
        record
    }

    /// Records a response, and returns the one on record: an earlier one stays.
    pub fn store_idempotency_response<'a>(
        tenant_id: Uuid, principal_id: Uuid, route: &'a str, key: &'a str,
        request_fingerprint: &'a [u8], response_status: i32, response_body: &'a Json,
        log: &'a [Reply],
    ) -> (step: Step<'a, IdempotencyRecord>)
        ensures
            step@ == StepView::proceed(
                Self::store_idempotency_response_fault(log@),
                Self::store_idempotency_response_script(
                    tenant_id, principal_id, route, key, request_fingerprint, response_status,
                    response_body, log@,
                ),
                Self::store_idempotency_response_output(log@),
                log@,
            ),
    {
        if log.len() == 0 {
            return ask_one(
                sql::STORE_IDEMPOTENCY_RESPONSE,
                vec![
                    Param::Id(tenant_id), Param::Id(principal_id), Param::Text(route),
                    Param::Text(key), Param::Bytes(request_fingerprint),
                    Param::I32(response_status), Param::Json(response_body),
                ],
            );
        }
        let record: IdempotencyRecord = match single::<IdempotencyRecord>(&log[0]) {
            Ok(value) => value,
            Err(fault) => return stop(fault),
        };
        Step::Done(record)
    }

    /// Every statement of `store_idempotency_response` is about its tenant.
    pub proof fn store_idempotency_response_is_scoped<'a>(
        tenant_id: Uuid, principal_id: Uuid, route: &'a str, key: &'a str,
        request_fingerprint: &'a [u8], response_status: i32, response_body: &'a Json,
        log: Seq<Reply>,
    )
        ensures
            crate::step::is_scoped(
                Self::store_idempotency_response_script(
                    tenant_id, principal_id, route, key, request_fingerprint, response_status,
                    response_body, log,
                ),
                tenant_id,
            ),
    {
    }

}

} // verus!
