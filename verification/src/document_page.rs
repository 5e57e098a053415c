//! Listing editing sessions, a page at a time.

use vstd::prelude::*;

use crate::database::Database;
use crate::document::DocumentAuthorizationGenerations;
use crate::document::DocumentLaunchRecord;
use crate::document::DocumentParticipantRecord;
use crate::document::DocumentSessionRecord;
use crate::error::DatabaseError;
use crate::error::Fault;
use crate::fence::FenceGenerations;
use crate::id::Uuid;
use crate::row::FromRow;
use crate::row::Reply;
use crate::row::Row;
use crate::row::many;
use crate::row::required;
use crate::sql::catalog;
use crate::sql::document as sql;
use crate::step::Command;
use crate::step::CommandView;
use crate::step::Param;
use crate::step::Step;
use crate::step::StepView;
use crate::step::ask_all;
use crate::step::ask_optional;
use crate::step::stop_deep;
use crate::step::stop_list;

verus! {

/// The most sessions on a page.
pub const MAX_PAGE_SESSIONS: u32 = 200;

/// The session after which a page begins.
#[derive(Clone, Copy, Debug, PartialEq, Eq, Structural)]
pub struct DocumentSessionPageAnchor {
    pub created_at_unix_microseconds: i64,
    pub session_id: Uuid,
}

/// A page of sessions, with one launch for each of their participants.
#[derive(Debug)]
pub struct DocumentSessionPageRecord {
    pub launches: Vec<DocumentLaunchRecord>,
    /// Where the next page begins, if there is one.
    pub next_anchor: Option<DocumentSessionPageAnchor>,
}

/// What a [`DocumentSessionPageRecord`] holds.
#[verifier::ext_equal]
pub struct DocumentSessionPageRecordView {
    pub launches: Seq<DocumentLaunchRecord>,
    pub next_anchor: Option<DocumentSessionPageAnchor>,
}

impl View for DocumentSessionPageRecord {
    type V = DocumentSessionPageRecordView;

    open spec fn view(&self) -> DocumentSessionPageRecordView {
        DocumentSessionPageRecordView {
            launches: self.launches@,
            next_anchor: self.next_anchor,
        }
    }
}

/// The complete, session-bound authorization context for one node-wide manager listing. Keeping
/// it as one input prevents a caller from losing a fencing value when the paging surface evolves.
#[derive(Debug)]
pub struct ListDocumentSessionsForNodeInput {
    pub tenant_id: Uuid,
    pub actor_principal_id: Uuid,
    pub api_session_id: Uuid,
    pub drive_id: Uuid,
    pub node_id: Uuid,
    pub generations: DocumentAuthorizationGenerations,
    pub limit: u32,
    pub anchor: Option<DocumentSessionPageAnchor>,
}

/// A participant of a listed session.
#[derive(Debug)]
pub struct ListedParticipant {
    pub participant: DocumentParticipantRecord,
    pub session: DocumentSessionRecord,
    pub expires_at: String,
}

impl ListedParticipant {
    /// What a row holds, read by its column names.
    #[verifier::opaque]
    pub open spec fn of_row(row: Row) -> Result<ListedParticipant, Fault> {
        if <DocumentParticipantRecord as FromRow>::row_spec(row) is Ok
            && <DocumentSessionRecord as FromRow>::row_spec(row) is Ok
            && row.column::<String>("grant_expires_at"@) is Some {
            Ok(
                ListedParticipant {
                    participant: <DocumentParticipantRecord as FromRow>::row_spec(row)->Ok_0,
                    session: <DocumentSessionRecord as FromRow>::row_spec(row)->Ok_0,
                    expires_at: row.column::<String>("grant_expires_at"@)->0,
                },
            )
        } else {
            Err(Fault::Malformed)
        }
    }
}

impl FromRow for ListedParticipant {
    open spec fn row_spec(row: Row) -> Result<ListedParticipant, Fault> {
        ListedParticipant::of_row(row)
    }

    fn from_row(row: &Row) -> (r: Result<ListedParticipant, Fault>) {
        proof {
            reveal(ListedParticipant::of_row);
        }
        let participant: DocumentParticipantRecord = match FromRow::from_row(row) {
            Ok(v) => v,
            Err(_) => return Err(Fault::Malformed),
        };
        let session: DocumentSessionRecord = match DocumentSessionRecord::from_row(row) {
            Ok(v) => v,
            Err(_) => return Err(Fault::Malformed),
        };
        let expires_at: String = match row.get("grant_expires_at") {
            Some(v) => v,
            None => return Err(Fault::Malformed),
        };
        Ok(ListedParticipant { participant, session, expires_at })
    }
}

impl ListedParticipant {
    /// The participant's launch, which no grant stands behind.
    pub open spec fn launch_spec(self) -> DocumentLaunchRecord {
        DocumentLaunchRecord {
            grant_id: Uuid { value: 0 },
            participant: self.participant,
            session: self.session,
            expires_at: self.expires_at,
        }
    }

    /// The participant's launch.
    pub fn launch(self) -> (r: DocumentLaunchRecord)
        ensures
            r == self.launch_spec(),
    {
        DocumentLaunchRecord {
            grant_id: Uuid::nil(),
            participant: self.participant,
            session: self.session,
            expires_at: self.expires_at,
        }
    }

    /// Where a page would begin after this participant's session.
    pub open spec fn anchor_spec(self) -> DocumentSessionPageAnchor {
        DocumentSessionPageAnchor {
            created_at_unix_microseconds: self.session.created_at_unix_microseconds,
            session_id: self.session.id,
        }
    }

    /// Where a page would begin after this participant's session.
    pub fn anchor(&self) -> (r: DocumentSessionPageAnchor)
        ensures
            r == self.anchor_spec(),
    {
        DocumentSessionPageAnchor {
            created_at_unix_microseconds: self.session.created_at_unix_microseconds,
            session_id: self.session.id,
        }
    }
}

/// The number of sessions that a page may hold, where it is allowed.
pub open spec fn page_limit_spec(limit: u32) -> Result<usize, DatabaseError> {
    if 1 <= limit <= MAX_PAGE_SESSIONS {
        Ok(limit as usize)
    } else {
        Err(DatabaseError::InvalidPersistedValue)
    }
}

/// Refuses a page that would be empty or too long.
pub fn page_limit(limit: u32) -> (r: Result<usize, DatabaseError>)
    ensures
        r == page_limit_spec(limit),
{
    if 1 <= limit && limit <= MAX_PAGE_SESSIONS {
        Ok(limit as usize)
    } else {
        Err(DatabaseError::InvalidPersistedValue)
    }
}

/// The time of an anchor.
pub open spec fn anchor_time_spec(anchor: Option<DocumentSessionPageAnchor>) -> Option<i64> {
    match anchor {
        Some(anchor) => Some(anchor.created_at_unix_microseconds),
        None => None,
    }
}

/// The time of an anchor.
pub fn anchor_time(anchor: Option<DocumentSessionPageAnchor>) -> (r: Option<i64>)
    ensures
        r == anchor_time_spec(anchor),
{
    match anchor {
        Some(anchor) => Some(anchor.created_at_unix_microseconds),
        None => None,
    }
}

/// The session of an anchor.
pub open spec fn anchor_session_spec(anchor: Option<DocumentSessionPageAnchor>) -> Option<Uuid> {
    match anchor {
        Some(anchor) => Some(anchor.session_id),
        None => None,
    }
}

/// The session of an anchor.
pub fn anchor_session(anchor: Option<DocumentSessionPageAnchor>) -> (r: Option<Uuid>)
    ensures
        r == anchor_session_spec(anchor),
{
    match anchor {
        Some(anchor) => Some(anchor.session_id),
        None => None,
    }
}

/// Whether one of the first `count` anchors is at this session.
pub open spec fn has_session(
    anchors: Seq<DocumentSessionPageAnchor>,
    count: int,
    session_id: Uuid,
) -> bool {
    exists|i: int| 0 <= i < count && i < anchors.len() && (#[trigger] anchors[i]).session_id
        == session_id
}

/// The sessions of listed participants, each once, in the order in which they first come up.
pub open spec fn sessions_of(rows: Seq<ListedParticipant>) -> Seq<DocumentSessionPageAnchor>
    decreases rows.len(),
{
    if rows.len() == 0 {
        Seq::empty()
    } else {
        let sessions = sessions_of(rows.drop_last());
        if has_session(sessions, sessions.len() as int, rows.last().session.id) {
            sessions
        } else {
            sessions.push(rows.last().anchor_spec())
        }
    }
}

/// The launches of the participants whose sessions are among the first `count`.
pub open spec fn launches_of(
    rows: Seq<ListedParticipant>,
    sessions: Seq<DocumentSessionPageAnchor>,
    count: int,
) -> Seq<DocumentLaunchRecord>
    decreases rows.len(),
{
    if rows.len() == 0 {
        Seq::empty()
    } else {
        let launches = launches_of(rows.drop_last(), sessions, count);
        if has_session(sessions, count, rows.last().session.id) {
            launches.push(rows.last().launch_spec())
        } else {
            launches
        }
    }
}

/// The page of listed participants: those of the first `limit` sessions, and the last of these
/// as the anchor of the next page where there are more.
pub open spec fn page_spec(
    rows: Seq<ListedParticipant>,
    limit: int,
) -> DocumentSessionPageRecordView {
    let sessions = sessions_of(rows);
    if sessions.len() > limit {
        DocumentSessionPageRecordView {
            launches: launches_of(rows, sessions, limit),
            next_anchor: Some(sessions[limit - 1]),
        }
    } else {
        DocumentSessionPageRecordView {
            launches: rows.map_values(|row: ListedParticipant| row.launch_spec()),
            next_anchor: None,
        }
    }
}

/// Looks for a session among the first `count` anchors.
fn find_session(
    anchors: &Vec<DocumentSessionPageAnchor>,
    count: usize,
    session_id: Uuid,
) -> (r: bool)
    requires
        count <= anchors@.len(),
    ensures
        r == has_session(anchors@, count as int, session_id),
{
    let mut at: usize = 0;
    while at < count
        invariant
            at <= count <= anchors@.len(),
            forall|i: int| 0 <= i < at ==> (#[trigger] anchors@[i]).session_id != session_id,
        decreases count - at,
    {
        if anchors[at].session_id == session_id {
            return true;
        }
        at = at + 1;
    }
    false
}

/// Collects the sessions of listed participants.
fn collect_sessions(rows: &Vec<ListedParticipant>) -> (r: Vec<DocumentSessionPageAnchor>)
    ensures
        r@ == sessions_of(rows@),
{
    let mut sessions: Vec<DocumentSessionPageAnchor> = Vec::new();
    let mut at: usize = 0;
    while at < rows.len()
        invariant
            at <= rows@.len(),
            sessions@ == sessions_of(rows@.take(at as int)),
        decreases rows@.len() - at,
    {
        proof {
            assert(rows@.take(at + 1).drop_last() =~= rows@.take(at as int));
        }
        if !find_session(&sessions, sessions.len(), rows[at].session.id) {
            sessions.push(rows[at].anchor());
        }
        at = at + 1;
    }
    assert(rows@.take(at as int) =~= rows@);
    sessions
}

/// The page of listed participants.
pub fn document_session_page_from_rows(
    rows: Vec<ListedParticipant>,
    limit: usize,
) -> (page: DocumentSessionPageRecord)
    requires
        limit >= 1,
    ensures
        page@ == page_spec(rows@, limit as int),
{
    let ghost all = rows@;
    let sessions: Vec<DocumentSessionPageAnchor> = collect_sessions(&rows);
    let more: bool = sessions.len() > limit;
    let count: usize = if more {
        limit
    } else {
        sessions.len()
    };
    let mut rest: Vec<ListedParticipant> = rows;
    let mut launches: Vec<DocumentLaunchRecord> = Vec::new();
    let ghost mut taken: int = 0;
    proof {
        assert(all.skip(0) =~= all);
    }
    while rest.len() > 0
        invariant
            0 <= taken <= all.len(),
            rest@ == all.skip(taken),
            count <= sessions@.len(),
            more ==> launches@ == launches_of(all.take(taken), sessions@, count as int),
            !more ==> launches@ == all.take(taken).map_values(
                |row: ListedParticipant| row.launch_spec(),
            ),
        decreases rest@.len(),
    {
        let row: ListedParticipant = rest.remove(0);
        proof {
            assert(row == all[taken]);
            assert(rest@ =~= all.skip(taken + 1));
            assert(all.take(taken + 1).drop_last() =~= all.take(taken));
            assert(all.take(taken + 1).map_values(|row: ListedParticipant| row.launch_spec())
                =~= all.take(taken).map_values(|row: ListedParticipant| row.launch_spec()).push(
                row.launch_spec(),
            ));
            taken = taken + 1;
        }
        if !more || find_session(&sessions, count, row.session.id) {
            launches.push(row.launch());
        }
    }
    proof {
        assert(all.take(taken) =~= all);
    }
    let next_anchor: Option<DocumentSessionPageAnchor> = if more {
        Some(sessions[limit - 1])
    } else {
        None
    };
    DocumentSessionPageRecord { launches, next_anchor }
}

impl Database {

    /// What stops `list_document_sessions_for_principal`, in order.
    pub open spec fn list_document_sessions_for_principal_fault(
        limit: u32,
        log: Seq<Reply>,
    ) -> Option<Fault> {
        if page_limit_spec(limit) is Err {
            Some(Fault::Error(page_limit_spec(limit)->Err_0))
        } else if log.len() > 0 && log[0].all_rows::<ListedParticipant>() is Err {
            Fault::of(log[0].all_rows::<ListedParticipant>())
        } else {
            None
        }
    }

    /// The commands of `list_document_sessions_for_principal`, in order.
    pub open spec fn list_document_sessions_for_principal_script<'a>(
        tenant_id: Uuid, principal_id: Uuid, limit: u32,
        anchor: Option<DocumentSessionPageAnchor>, log: Seq<Reply>,
    ) -> Seq<CommandView<'a>> {
        let count = page_limit_spec(limit)->Ok_0;
        seq![
            CommandView::all(
                sql::LIST_DOCUMENT_SESSIONS_FOR_PRINCIPAL,
                seq![
                    Param::Id(tenant_id), Param::Id(principal_id),
                    Param::OptI64(anchor_time_spec(anchor)),
                    Param::OptId(anchor_session_spec(anchor)), Param::I64((count + 1) as i64),
                ],
            ),
        ]
    }

    /// What `list_document_sessions_for_principal` returns.
    pub open spec fn list_document_sessions_for_principal_output(
        limit: u32,
        log: Seq<Reply>,
    ) -> DocumentSessionPageRecordView {
        let count = page_limit_spec(limit)->Ok_0;
        let rows = log[0].all_rows::<ListedParticipant>()->Ok_0;
        page_spec(rows, count as int)
    }

    /// A page of the sessions that a principal takes part in, the latest first.
    pub fn list_document_sessions_for_principal<'a>(
        tenant_id: Uuid, principal_id: Uuid, limit: u32,
        anchor: Option<DocumentSessionPageAnchor>, log: &'a [Reply],
    ) -> (step: Step<'a, DocumentSessionPageRecord>)
        ensures
            step.deep() == StepView::proceed(
                Self::list_document_sessions_for_principal_fault(limit, log@),
                Self::list_document_sessions_for_principal_script(
                    tenant_id, principal_id, limit, anchor, log@,
                ),
                Self::list_document_sessions_for_principal_output(limit, log@),
                log@,
            ),
    {
        let count: usize = match page_limit(limit) {
            Ok(value) => value,
            Err(error) => return Step::Fail(error),
        };
        if log.len() == 0 {
            return ask_all(
                sql::LIST_DOCUMENT_SESSIONS_FOR_PRINCIPAL,
                vec![
                    Param::Id(tenant_id), Param::Id(principal_id),
                    Param::OptI64(anchor_time(anchor)), Param::OptId(anchor_session(anchor)),
                    Param::I64(count as i64 + 1),
                ],
            );
        }
        let rows: Vec<ListedParticipant> = match many::<ListedParticipant>(&log[0]) {
            Ok(value) => value,
            Err(fault) => return stop_deep(fault),
        };
        Step::Done(document_session_page_from_rows(rows, count))
    }

    /// Every statement of `list_document_sessions_for_principal` is about its tenant.
    pub proof fn list_document_sessions_for_principal_is_scoped(
        tenant_id: Uuid, principal_id: Uuid, limit: u32, anchor: Option<DocumentSessionPageAnchor>,
        log: Seq<Reply>,
    )
        ensures
            crate::step::is_scoped(
                Self::list_document_sessions_for_principal_script(
                    tenant_id, principal_id, limit, anchor, log,
                ),
                tenant_id,
            ),
    {
    }

    /// What stops `list_document_sessions_for_node`, in order.
    pub open spec fn list_document_sessions_for_node_fault<'a>(
        input: &'a ListDocumentSessionsForNodeInput,
        log: Seq<Reply>,
    ) -> Option<Fault> {
        let fence = log[1].required_row::<FenceGenerations>(DatabaseError::StaleGeneration)->Ok_0;
        if page_limit_spec(input.limit) is Err {
            Some(Fault::Error(page_limit_spec(input.limit)->Err_0))
        } else if log.len() > 1
            && log[1].required_row::<FenceGenerations>(DatabaseError::StaleGeneration) is Err {
            Fault::of(log[1].required_row::<FenceGenerations>(DatabaseError::StaleGeneration))
        } else if log.len() > 1 && !fence.agrees_with(input.generations.expected()) {
            Some(Fault::Error(DatabaseError::StaleGeneration))
        } else if log.len() > 2 && log[2].all_rows::<ListedParticipant>() is Err {
            Fault::of(log[2].all_rows::<ListedParticipant>())
        } else {
            None
        }
    }

    /// The commands of `list_document_sessions_for_node`, in order.
    pub open spec fn list_document_sessions_for_node_script<'a>(
        input: &'a ListDocumentSessionsForNodeInput,
        log: Seq<Reply>,
    ) -> Seq<CommandView<'a>> {
        let count = page_limit_spec(input.limit)->Ok_0;
        seq![
            CommandView::Begin,
            CommandView::optional(
                catalog::LOCK_AUTHORIZATION_FENCE,
                seq![
                    Param::Id(input.tenant_id), Param::Id(input.api_session_id),
                    Param::Id(input.actor_principal_id), Param::Id(input.drive_id),
                    Param::Id(input.node_id),
                ],
            ),
            CommandView::all(
                sql::LIST_DOCUMENT_SESSIONS_FOR_NODE,
                seq![
                    Param::Id(input.tenant_id), Param::Id(input.drive_id),
                    Param::Id(input.node_id), Param::OptI64(anchor_time_spec(input.anchor)),
                    Param::OptId(anchor_session_spec(input.anchor)),
                    Param::I64((count + 1) as i64),
                ],
            ),
            CommandView::Commit,
        ]
    }

    /// What `list_document_sessions_for_node` returns.
    pub open spec fn list_document_sessions_for_node_output<'a>(
        input: &'a ListDocumentSessionsForNodeInput,
        log: Seq<Reply>,
    ) -> DocumentSessionPageRecordView {
        let count = page_limit_spec(input.limit)->Ok_0;
        let rows = log[2].all_rows::<ListedParticipant>()->Ok_0;
        page_spec(rows, count as int)
    }

    /// A page of a node's sessions, only after taking the exact API-session
    /// authorization-generation lock. This keeps the manager-list response in the same revocation
    /// fence as its admission.
    pub fn list_document_sessions_for_node<'a>(
        input: &'a ListDocumentSessionsForNodeInput,
        log: &'a [Reply],
    ) -> (step: Step<'a, DocumentSessionPageRecord>)
        ensures
            step.deep() == StepView::proceed(
                Self::list_document_sessions_for_node_fault(input, log@),
                Self::list_document_sessions_for_node_script(input, log@),
                Self::list_document_sessions_for_node_output(input, log@),
                log@,
            ),
    {
        let count: usize = match page_limit(input.limit) {
            Ok(value) => value,
            Err(error) => return Step::Fail(error),
        };
        if log.len() == 0 {
            return Step::Ask(Command::Begin);
        }
        if log.len() <= 1 {
            return ask_optional(
                catalog::LOCK_AUTHORIZATION_FENCE,
                vec![
                    Param::Id(input.tenant_id), Param::Id(input.api_session_id),
                    Param::Id(input.actor_principal_id), Param::Id(input.drive_id),
                    Param::Id(input.node_id),
                ],
            );
        }
        let fence: FenceGenerations = match required(&log[1], DatabaseError::StaleGeneration) {
            Ok(value) => value,
            Err(fault) => return stop_deep(fault),
        };
        if !fence.agree(input.generations.as_array()) {
            return Step::Fail(DatabaseError::StaleGeneration);
        }
        if log.len() <= 2 {
            return ask_all(
                sql::LIST_DOCUMENT_SESSIONS_FOR_NODE,
                vec![
                    Param::Id(input.tenant_id), Param::Id(input.drive_id),
                    Param::Id(input.node_id), Param::OptI64(anchor_time(input.anchor)),
                    Param::OptId(anchor_session(input.anchor)), Param::I64(count as i64 + 1),
                ],
            );
        }
        let rows: Vec<ListedParticipant> = match many::<ListedParticipant>(&log[2]) {
            Ok(value) => value,
            Err(fault) => return stop_deep(fault),
        };
        if log.len() <= 3 {
            return Step::Ask(Command::Commit);
        }
        Step::Done(document_session_page_from_rows(rows, count))
    }

    /// `list_document_sessions_for_node` runs in one transaction: it is done once its commit is
    /// acknowledged, and when it fails, nothing was committed.
    pub proof fn list_document_sessions_for_node_is_atomic<'a>(
        input: &'a ListDocumentSessionsForNodeInput,
        log: Seq<Reply>,
    )
        ensures
            crate::step::is_atomic(Self::list_document_sessions_for_node_script(input, log), 0),
            crate::step::commit_acknowledged(
                Self::list_document_sessions_for_node_fault(input, log.drop_last()),
                Self::list_document_sessions_for_node_script(input, log.drop_last()),
                log,
            ) ==> {
                &&& Self::list_document_sessions_for_node_fault(input, log) is None
                &&& log.len() == Self::list_document_sessions_for_node_script(input, log).len()
            },
    {
    }

    /// `list_document_sessions_for_node` goes past its fence only where the generations that it has
    /// locked are those that the caller was authorized under.
    pub proof fn list_document_sessions_for_node_is_fenced<'a>(
        input: &'a ListDocumentSessionsForNodeInput,
        log: Seq<Reply>,
    )
        ensures
            ({
                let fence =
                    log[1].required_row::<FenceGenerations>(DatabaseError::StaleGeneration)->Ok_0;
                Self::list_document_sessions_for_node_fault(input, log) is None && log.len() > 1
                    ==> log[1].required_row::<FenceGenerations>(
                        DatabaseError::StaleGeneration,
                    ) is Ok
                    && fence.agrees_with(input.generations.expected())
            }),
    {
    }

    /// Every statement of `list_document_sessions_for_node` is about its tenant.
    pub proof fn list_document_sessions_for_node_is_scoped<'a>(
        input: &'a ListDocumentSessionsForNodeInput,
        log: Seq<Reply>,
    )
        ensures
            crate::step::is_scoped(
                Self::list_document_sessions_for_node_script(input, log),
                input.tenant_id,
            ),
    {
    }

    /// What stops `document_session_for_principal`, in order.
    pub open spec fn document_session_for_principal_fault(log: Seq<Reply>) -> Option<Fault> {
        let rows = log[0].all_rows::<ListedParticipant>()->Ok_0;
        if log.len() > 0 && log[0].all_rows::<ListedParticipant>() is Err {
            Fault::of(log[0].all_rows::<ListedParticipant>())
        } else if log.len() > 0 && rows.len() == 0 {
            Some(Fault::Error(DatabaseError::NotFound))
        } else {
            None
        }
    }

    /// The commands of `document_session_for_principal`, in order.
    pub open spec fn document_session_for_principal_script<'a>(
        tenant_id: Uuid, principal_id: Uuid, session_id: Uuid, log: Seq<Reply>,
    ) -> Seq<CommandView<'a>> {
        seq![
            CommandView::all(
                sql::DOCUMENT_SESSION_FOR_PRINCIPAL,
                seq![Param::Id(tenant_id), Param::Id(session_id), Param::Id(principal_id)],
            ),
        ]
    }

    /// What `document_session_for_principal` returns.
    pub open spec fn document_session_for_principal_output(
        log: Seq<Reply>,
    ) -> Seq<DocumentLaunchRecord> {
        let rows = log[0].all_rows::<ListedParticipant>()->Ok_0;
        page_spec(rows, 1).launches
    }

    /// One exact owned session and every durable participant. This is separate from paging, so that
    /// old owned sessions remain addressable after they fall behind the first page.
    pub fn document_session_for_principal<'a>(
        tenant_id: Uuid, principal_id: Uuid, session_id: Uuid, log: &'a [Reply],
    ) -> (step: Step<'a, Vec<DocumentLaunchRecord>>)
        ensures
            step.list() == StepView::proceed(
                Self::document_session_for_principal_fault(log@),
                Self::document_session_for_principal_script(
                    tenant_id, principal_id, session_id, log@,
                ),
                Self::document_session_for_principal_output(log@),
                log@,
            ),
    {
        if log.len() == 0 {
            return ask_all(
                sql::DOCUMENT_SESSION_FOR_PRINCIPAL,
                vec![Param::Id(tenant_id), Param::Id(session_id), Param::Id(principal_id)],
            );
        }
        let rows: Vec<ListedParticipant> = match many::<ListedParticipant>(&log[0]) {
            Ok(value) => value,
            Err(fault) => return stop_list(fault),
        };
        if rows.len() == 0 {
            return Step::Fail(DatabaseError::NotFound);
        }
        Step::Done(document_session_page_from_rows(rows, 1).launches)
    }

    /// Every statement of `document_session_for_principal` is about its tenant.
    pub proof fn document_session_for_principal_is_scoped(
        tenant_id: Uuid, principal_id: Uuid, session_id: Uuid, log: Seq<Reply>,
    )
        ensures
            crate::step::is_scoped(
                Self::document_session_for_principal_script(
                    tenant_id, principal_id, session_id, log,
                ),
                tenant_id,
            ),
    {
    }

}

proof fn lemma_sessions_are_listed(rows: Seq<ListedParticipant>, at: int)
    requires
        0 <= at < rows.len(),
    ensures
        has_session(sessions_of(rows), sessions_of(rows).len() as int, rows[at].session.id),
    decreases rows.len(),
{
    let before = sessions_of(rows.drop_last());
    let sessions = sessions_of(rows);
    if at < rows.len() - 1 {
        lemma_sessions_are_listed(rows.drop_last(), at);
        let i = choose|i: int|
            0 <= i < before.len() && (#[trigger] before[i]).session_id == rows[at].session.id;
        assert(sessions[i] == before[i]);
    } else if !has_session(before, before.len() as int, rows[at].session.id) {
        assert(sessions[before.len() as int].session_id == rows[at].session.id);
    }
}

proof fn lemma_launches_are_of_the_page(
    rows: Seq<ListedParticipant>,
    sessions: Seq<DocumentSessionPageAnchor>,
    count: int,
)
    ensures
        forall|i: int|
            0 <= i < launches_of(rows, sessions, count).len() ==> has_session(
                sessions,
                count,
                (#[trigger] launches_of(rows, sessions, count)[i]).session.id,
            ),
        forall|at: int|
            #![trigger rows[at]]
            0 <= at < rows.len() && has_session(sessions, count, rows[at].session.id)
                ==> launches_of(rows, sessions, count).contains(rows[at].launch_spec()),
    decreases rows.len(),
{
    if rows.len() > 0 {
        let before = launches_of(rows.drop_last(), sessions, count);
        let launches = launches_of(rows, sessions, count);
        lemma_launches_are_of_the_page(rows.drop_last(), sessions, count);
        assert forall|at: int|
            #![trigger rows[at]]
            0 <= at < rows.len() && has_session(
                sessions,
                count,
                rows[at].session.id,
            ) implies launches.contains(rows[at].launch_spec()) by {
            if at < rows.len() - 1 {
                assert(rows.drop_last()[at] == rows[at]);
                let k = before.index_of(rows[at].launch_spec());
                assert(launches[k] == rows[at].launch_spec());
            } else {
                assert(launches[launches.len() - 1] == rows[at].launch_spec());
            }
        }
    }
}

/// A page never cuts a session apart: it holds every participant of each of its sessions, and
/// none of any other. Where a next page follows, the anchor is the last session on this one.
pub proof fn pages_hold_whole_sessions(rows: Seq<ListedParticipant>, limit: int)
    requires
        limit >= 1,
    ensures
        ({
            let sessions = sessions_of(rows);
            let page = page_spec(rows, limit);
            &&& forall|i: int|
                0 <= i < page.launches.len() ==> has_session(
                    sessions,
                    limit,
                    (#[trigger] page.launches[i]).session.id,
                )
            &&& forall|at: int|
                #![trigger rows[at]]
                0 <= at < rows.len() && has_session(sessions, limit, rows[at].session.id)
                    ==> page.launches.contains(rows[at].launch_spec())
            &&& page.next_anchor is Some <==> sessions.len() > limit
            &&& page.next_anchor is Some ==> page.next_anchor->0 == sessions[limit - 1]
        }),
{
    let sessions = sessions_of(rows);
    let page = page_spec(rows, limit);
    if sessions.len() > limit {
        lemma_launches_are_of_the_page(rows, sessions, limit);
    } else {
        assert forall|i: int| 0 <= i < page.launches.len() implies has_session(
            sessions,
            limit,
            (#[trigger] page.launches[i]).session.id,
        ) by {
            lemma_sessions_are_listed(rows, i);
            let k = choose|k: int|
                0 <= k < sessions.len() && (#[trigger] sessions[k]).session_id
                    == rows[i].session.id;
            assert(sessions[k].session_id == page.launches[i].session.id);
        }
        assert forall|at: int|
            #![trigger rows[at]]
            0 <= at < rows.len() && has_session(
                sessions,
                limit,
                rows[at].session.id,
            ) implies page.launches.contains(rows[at].launch_spec()) by {
            assert(page.launches[at] == rows[at].launch_spec());
        }
    }
}

} // verus!
