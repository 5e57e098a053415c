//! Access control entries and direct shares.

use vstd::prelude::*;

use crate::database::Database;
use crate::error::DatabaseError;
use crate::error::Fault;
use crate::fence::FenceGenerations;
use crate::id::Uuid;
use crate::row::FromRow;
use crate::row::Reply;
use crate::row::Row;
use crate::row::drawn;
use crate::row::many;
use crate::row::required;
use crate::row::single;
use crate::sql::catalog as sql;
use crate::step::Command;
use crate::step::CommandView;
use crate::step::Detail;
use crate::step::Envelope;
use crate::step::ErrorRule;
use crate::step::Fetch;
use crate::step::Param;
use crate::step::Step;
use crate::step::StepView;
use crate::step::ask;
use crate::step::ask_all;
use crate::step::ask_execute;
use crate::step::ask_one;
use crate::step::ask_optional;
use crate::step::stop;
use crate::step::stop_deep;
use crate::step::stop_list;
use crate::text::email_sized;
use crate::text::normalized_email;
use crate::text::text_eq;
use crate::text::trimmed_text;

verus! {

/// The action that lets a principal change access control entries.
pub const MANAGE_ACL: &'static str = "MANAGE_ACL";

/// A share of a node with one user.
#[derive(Debug)]
pub struct DirectShareRecord {
    pub principal_id: Uuid,
    pub display_name: String,
    pub verified_email: String,
    pub preset: String,
    pub inheritance: String,
    pub created_at: String,
}

/// What a [`DirectShareRecord`] holds.
#[verifier::ext_equal]
pub struct DirectShareRecordView {
    pub principal_id: Uuid,
    pub display_name: Seq<char>,
    pub verified_email: Seq<char>,
    pub preset: Seq<char>,
    pub inheritance: Seq<char>,
    pub created_at: Seq<char>,
}

impl View for DirectShareRecord {
    type V = DirectShareRecordView;

    open spec fn view(&self) -> DirectShareRecordView {
        DirectShareRecordView {
            principal_id: self.principal_id,
            display_name: self.display_name@,
            verified_email: self.verified_email@,
            preset: self.preset@,
            inheritance: self.inheritance@,
            created_at: self.created_at@,
        }
    }
}

impl DirectShareRecord {
    /// What a row holds, read by its column names.
    #[verifier::opaque]
    pub open spec fn of_row(row: Row) -> Result<DirectShareRecord, Fault> {
        if row.column::<Uuid>("target_principal_id"@) is Some
            && row.column::<String>("display_name"@) is Some
            && row.column::<String>("verified_email"@) is Some
            && row.column::<String>("preset"@) is Some
            && row.column::<String>("inheritance"@) is Some
            && row.column::<String>("created_at"@) is Some {
            Ok(
                DirectShareRecord {
                    principal_id: row.column::<Uuid>("target_principal_id"@)->0,
                    display_name: row.column::<String>("display_name"@)->0,
                    verified_email: row.column::<String>("verified_email"@)->0,
                    preset: row.column::<String>("preset"@)->0,
                    inheritance: row.column::<String>("inheritance"@)->0,
                    created_at: row.column::<String>("created_at"@)->0,
                },
            )
        } else {
            Err(Fault::Malformed)
        }
    }
}

impl FromRow for DirectShareRecord {
    open spec fn row_spec(row: Row) -> Result<DirectShareRecord, Fault> {
        DirectShareRecord::of_row(row)
    }

    fn from_row(row: &Row) -> (r: Result<DirectShareRecord, Fault>) {
        proof {
            reveal(DirectShareRecord::of_row);
        }
        let principal_id: Uuid = match row.get("target_principal_id") {
            Some(v) => v,
            None => return Err(Fault::Malformed),
        };
        let display_name: String = match row.get("display_name") {
            Some(v) => v,
            None => return Err(Fault::Malformed),
        };
        let verified_email: String = match row.get("verified_email") {
            Some(v) => v,
            None => return Err(Fault::Malformed),
        };
        let preset: String = match row.get("preset") {
            Some(v) => v,
            None => return Err(Fault::Malformed),
        };
        let inheritance: String = match row.get("inheritance") {
            Some(v) => v,
            None => return Err(Fault::Malformed),
        };
        let created_at: String = match row.get("created_at") {
            Some(v) => v,
            None => return Err(Fault::Malformed),
        };
        Ok(DirectShareRecord { 
            principal_id, display_name, verified_email, preset, inheritance, created_at,
         })
    }
}

/// An access control entry, with the name of its principal and with where it comes from.
#[derive(Debug)]
pub struct AdvancedAclEntryRecord {
    pub principal_id: Uuid,
    pub principal_kind: String,
    pub display_name: String,
    pub verified_email: Option<String>,
    pub action: String,
    pub effect: String,
    pub inheritance: String,
    pub source: String,
}

impl AdvancedAclEntryRecord {
    /// What a row holds, read by its column names.
    #[verifier::opaque]
    pub open spec fn of_row(row: Row) -> Result<AdvancedAclEntryRecord, Fault> {
        if row.column::<Uuid>("principal_id"@) is Some
            && row.column::<String>("principal_kind"@) is Some
            && row.column::<String>("display_name"@) is Some
            && row.column::<Option<String>>("verified_email"@) is Some
            && row.column::<String>("action"@) is Some
            && row.column::<String>("effect"@) is Some
            && row.column::<String>("inheritance"@) is Some
            && row.column::<String>("source"@) is Some {
            Ok(
                AdvancedAclEntryRecord {
                    principal_id: row.column::<Uuid>("principal_id"@)->0,
                    principal_kind: row.column::<String>("principal_kind"@)->0,
                    display_name: row.column::<String>("display_name"@)->0,
                    verified_email: row.column::<Option<String>>("verified_email"@)->0,
                    action: row.column::<String>("action"@)->0,
                    effect: row.column::<String>("effect"@)->0,
                    inheritance: row.column::<String>("inheritance"@)->0,
                    source: row.column::<String>("source"@)->0,
                },
            )
        } else {
            Err(Fault::Malformed)
        }
    }
}

impl FromRow for AdvancedAclEntryRecord {
    open spec fn row_spec(row: Row) -> Result<AdvancedAclEntryRecord, Fault> {
        AdvancedAclEntryRecord::of_row(row)
    }

    fn from_row(row: &Row) -> (r: Result<AdvancedAclEntryRecord, Fault>) {
        proof {
            reveal(AdvancedAclEntryRecord::of_row);
        }
        let principal_id: Uuid = match row.get("principal_id") {
            Some(v) => v,
            None => return Err(Fault::Malformed),
        };
        let principal_kind: String = match row.get("principal_kind") {
            Some(v) => v,
            None => return Err(Fault::Malformed),
        };
        let display_name: String = match row.get("display_name") {
            Some(v) => v,
            None => return Err(Fault::Malformed),
        };
        let verified_email: Option<String> = match row.get("verified_email") {
            Some(v) => v,
            None => return Err(Fault::Malformed),
        };
        let action: String = match row.get("action") {
            Some(v) => v,
            None => return Err(Fault::Malformed),
        };
        let effect: String = match row.get("effect") {
            Some(v) => v,
            None => return Err(Fault::Malformed),
        };
        let inheritance: String = match row.get("inheritance") {
            Some(v) => v,
            None => return Err(Fault::Malformed),
        };
        let source: String = match row.get("source") {
            Some(v) => v,
            None => return Err(Fault::Malformed),
        };
        Ok(AdvancedAclEntryRecord {
            principal_id, principal_kind, display_name, verified_email, action, effect,
            inheritance, source,
        })
    }
}

/// An access control entry that is to be written.
#[derive(Clone, Copy, Debug)]
pub struct AdvancedAclEntryInput<'a> {
    pub action: &'a str,
    pub effect: &'a str,
    pub inheritance: &'a str,
}

/// What replacing a target's entries would touch: the principal that the target names, and the
/// actions of the entries that it has, in the order of the vocabulary.
#[derive(Debug)]
pub struct AdvancedAclReplacementPreflight<'a> {
    pub target_principal_id: Uuid,
    pub actions: Vec<&'a str>,
}

/// What an [`AdvancedAclReplacementPreflight`] holds.
#[verifier::ext_equal]
pub struct AdvancedAclReplacementPreflightView {
    pub target_principal_id: Uuid,
    pub actions: Seq<Seq<char>>,
}

impl<'a> View for AdvancedAclReplacementPreflight<'a> {
    type V = AdvancedAclReplacementPreflightView;

    open spec fn view(&self) -> AdvancedAclReplacementPreflightView {
        AdvancedAclReplacementPreflightView {
            target_principal_id: self.target_principal_id,
            actions: texts(self.actions@),
        }
    }
}

/// The user that an address belongs to.
#[derive(Debug)]
pub struct ShareTarget {
    pub principal_id: Uuid,
    pub display_name: String,
    pub verified_email: String,
}

impl ShareTarget {
    /// What a row holds, read by its column names.
    #[verifier::opaque]
    pub open spec fn of_row(row: Row) -> Result<ShareTarget, Fault> {
        if row.column::<Uuid>("principal_id"@) is Some
            && row.column::<String>("display_name"@) is Some
            && row.column::<String>("verified_email"@) is Some {
            Ok(
                ShareTarget {
                    principal_id: row.column::<Uuid>("principal_id"@)->0,
                    display_name: row.column::<String>("display_name"@)->0,
                    verified_email: row.column::<String>("verified_email"@)->0,
                },
            )
        } else {
            Err(Fault::Malformed)
        }
    }
}

impl FromRow for ShareTarget {
    open spec fn row_spec(row: Row) -> Result<ShareTarget, Fault> {
        ShareTarget::of_row(row)
    }

    fn from_row(row: &Row) -> (r: Result<ShareTarget, Fault>) {
        proof {
            reveal(ShareTarget::of_row);
        }
        let principal_id: Uuid = match row.get("principal_id") {
            Some(v) => v,
            None => return Err(Fault::Malformed),
        };
        let display_name: String = match row.get("display_name") {
            Some(v) => v,
            None => return Err(Fault::Malformed),
        };
        let verified_email: String = match row.get("verified_email") {
            Some(v) => v,
            None => return Err(Fault::Malformed),
        };
        Ok(ShareTarget { principal_id, display_name, verified_email })
    }
}

/// The characters of each name.
pub open spec fn texts(names: Seq<&str>) -> Seq<Seq<char>> {
    names.map_values(|name: &str| name@)
}

/// The characters of each stored name.
pub open spec fn stored_texts(names: Seq<String>) -> Seq<Seq<char>> {
    names.map_values(|name: String| name@)
}

/// The actions of a list of entries.
pub open spec fn entry_texts(entries: Seq<AdvancedAclEntryInput>) -> Seq<Seq<char>> {
    entries.map_values(|entry: AdvancedAclEntryInput| entry.action@)
}

/// Whether a list of names has this one.
pub fn has_name(names: &[&str], name: &str) -> (r: bool)
    ensures
        r == texts(names@).contains(name@),
{
    let mut at: usize = 0;
    while at < names.len()
        invariant
            at <= names@.len(),
            forall|i: int| 0 <= i < at ==> texts(names@)[i] != name@,
        decreases names@.len() - at,
    {
        if text_eq(names[at], name) {
            assert(texts(names@)[at as int] == name@);
            return true;
        }
        at = at + 1;
    }
    false
}

/// Whether every name of one list is in another.
pub open spec fn all_named(names: Seq<Seq<char>>, list: Seq<Seq<char>>) -> bool {
    forall|i: int| 0 <= i < names.len() ==> list.contains(#[trigger] names[i])
}

/// Whether every name of one list is in another.
pub fn names_within(names: &[&str], list: &[&str]) -> (r: bool)
    ensures
        r == all_named(texts(names@), texts(list@)),
{
    let mut at: usize = 0;
    while at < names.len()
        invariant
            at <= names@.len(),
            forall|i: int| 0 <= i < at ==> texts(list@).contains(#[trigger] texts(names@)[i]),
        decreases names@.len() - at,
    {
        if !has_name(list, names[at]) {
            assert(!texts(list@).contains(texts(names@)[at as int]));
            return false;
        }
        at = at + 1;
    }
    true
}

/// The names that rows hold, borrowed.
pub fn borrowed<'b>(names: &'b Vec<String>) -> (r: Vec<&'b str>)
    ensures
        texts(r@) == stored_texts(names@),
{
    let mut out: Vec<&'b str> = Vec::new();
    let mut at: usize = 0;
    while at < names.len()
        invariant
            at <= names@.len(),
            out@.len() == at,
            forall|i: int| 0 <= i < at ==> (#[trigger] out@[i])@ == names@[i]@,
        decreases names@.len() - at,
    {
        out.push(names[at].as_str());
        at = at + 1;
    }
    assert(texts(out@) =~= stored_texts(names@));
    out
}

/// The actions that a list of entries asks for.
pub fn advanced_acl_actions<'a>(entries: &[AdvancedAclEntryInput<'a>]) -> (r: Vec<&'a str>)
    ensures
        texts(r@) == entry_texts(entries@),
{
    let mut out: Vec<&'a str> = Vec::new();
    let mut at: usize = 0;
    while at < entries.len()
        invariant
            at <= entries@.len(),
            out@.len() == at,
            forall|i: int| 0 <= i < at ==> (#[trigger] out@[i])@ == entries@[i].action@,
        decreases entries@.len() - at,
    {
        out.push(entries[at].action);
        at = at + 1;
    }
    assert(texts(out@) =~= entry_texts(entries@));
    out
}

/// The actions of a vocabulary that some entry has.
pub open spec fn held_spec(vocabulary: Seq<&str>, actions: Seq<Seq<char>>) -> Seq<Seq<char>>
    decreases vocabulary.len(),
{
    if vocabulary.len() == 0 {
        Seq::empty()
    } else {
        let held = held_spec(vocabulary.drop_last(), actions);
        if actions.contains(vocabulary.last()@) {
            held.push(vocabulary.last()@)
        } else {
            held
        }
    }
}

/// The actions of a vocabulary that some entry has, each once.
pub fn held_actions<'a>(vocabulary: &'a [&'a str], actions: &[&str]) -> (r: Vec<&'a str>)
    ensures
        texts(r@) == held_spec(vocabulary@, texts(actions@)),
{
    let mut out: Vec<&'a str> = Vec::new();
    let mut at: usize = 0;
    while at < vocabulary.len()
        invariant
            at <= vocabulary@.len(),
            texts(out@) == held_spec(vocabulary@.take(at as int), texts(actions@)),
        decreases vocabulary@.len() - at,
    {
        proof {
            assert(vocabulary@.take(at + 1).drop_last() =~= vocabulary@.take(at as int));
        }
        if has_name(actions, vocabulary[at]) {
            let ghost before = out@;
            out.push(vocabulary[at]);
            assert(texts(out@) =~= texts(before).push(vocabulary@[at as int]@));
        }
        at = at + 1;
    }
    assert(vocabulary@.take(at as int) =~= vocabulary@);
    out
}

/// Whether an authorization covers a replacement: it lets the caller change entries, and it has
/// every action that an entry to be written or an entry to be deleted names.
pub open spec fn covers(
    covered: Seq<Seq<char>>,
    submitted: Seq<Seq<char>>,
    current: Seq<Seq<char>>,
) -> bool {
    covered.contains(MANAGE_ACL@) && all_named(submitted, covered) && all_named(current, covered)
}

/// Whether an authorization covers a replacement.
pub fn replacement_actions_are_covered(
    covered_actions: &[&str],
    submitted_actions: &[&str],
    current_actions: &[&str],
) -> (r: bool)
    ensures
        r == covers(texts(covered_actions@), texts(submitted_actions@), texts(current_actions@)),
{
    has_name(covered_actions, MANAGE_ACL) && names_within(submitted_actions, covered_actions)
        && names_within(current_actions, covered_actions)
}

/// The outcome of comparing a target with the one that was expected.
pub open spec fn exact_target(expected: Uuid, found: Uuid) -> Result<(), DatabaseError> {
    if expected == found {
        Ok(())
    } else {
        Err(DatabaseError::StaleGeneration)
    }
}

/// Refuses a target other than the one that was expected.
pub fn require_exact_advanced_acl_target(
    expected_target_principal_id: Uuid,
    target_principal_id: Uuid,
) -> (r: Result<(), DatabaseError>)
    ensures
        r == exact_target(expected_target_principal_id, target_principal_id),
{
    if expected_target_principal_id == target_principal_id {
        Ok(())
    } else {
        Err(DatabaseError::StaleGeneration)
    }
}

/// Whether an entry can be stored: its action is in the vocabulary, and its effect and
/// inheritance are known ones.
pub open spec fn entry_is_valid(vocabulary: Seq<&str>, entry: AdvancedAclEntryInput) -> bool {
    &&& texts(vocabulary).contains(entry.action@)
    &&& entry.effect@ == "allow"@ || entry.effect@ == "deny"@
    &&& entry.inheritance@ == "self"@ || entry.inheritance@ == "descendants"@
        || entry.inheritance@ == "self_and_descendants"@
}

/// Whether a list of entries can be stored.
pub open spec fn entries_are_valid_spec(
    vocabulary: Seq<&str>,
    entries: Seq<AdvancedAclEntryInput>,
) -> bool {
    &&& entries.len() <= vocabulary.len()
    &&& forall|i: int| 0 <= i < entries.len() ==> entry_is_valid(vocabulary, #[trigger] entries[i])
}

/// Whether a list of entries can be stored.
pub fn entries_are_valid(vocabulary: &[&str], entries: &[AdvancedAclEntryInput]) -> (r: bool)
    ensures
        r == entries_are_valid_spec(vocabulary@, entries@),
{
    if entries.len() > vocabulary.len() {
        return false;
    }
    let mut at: usize = 0;
    while at < entries.len()
        invariant
            at <= entries@.len() <= vocabulary@.len(),
            forall|i: int| 0 <= i < at ==> entry_is_valid(vocabulary@, #[trigger] entries@[i]),
        decreases entries@.len() - at,
    {
        let entry: &AdvancedAclEntryInput = &entries[at];
        let effect: bool = text_eq(entry.effect, "allow") || text_eq(entry.effect, "deny");
        let inheritance: bool = text_eq(entry.inheritance, "self") || text_eq(
            entry.inheritance,
            "descendants",
        ) || text_eq(entry.inheritance, "self_and_descendants");
        if !has_name(vocabulary, entry.action) || !effect || !inheritance {
            assert(!entry_is_valid(vocabulary@, entries@[at as int]));
            return false;
        }
        at = at + 1;
    }
    true
}

/// Whether a target is named: a user by an address, or a group by its identifier.
pub open spec fn target_is_named_spec(
    target_kind: &str,
    verified_email: Option<&str>,
    group_id: Option<Uuid>,
) -> bool {
    if target_kind@ == "user"@ {
        verified_email is Some && crate::text::is_email_sized(
            crate::text::trimmed(verified_email->0@),
        )
    } else {
        target_kind@ == "group"@ && group_id is Some
    }
}

/// Whether a target is named, with the trimmed address at hand.
pub fn target_is_named_by(
    target_kind: &str,
    trimmed_email: Option<&str>,
    group_id: Option<Uuid>,
) -> (r: bool)
    ensures
        r == (if target_kind@ == "user"@ {
            trimmed_email is Some && crate::text::is_email_sized(trimmed_email->0@)
        } else {
            target_kind@ == "group"@ && group_id is Some
        }),
{
    if text_eq(target_kind, "user") {
        match trimmed_email {
            Some(email) => email_sized(email),
            None => false,
        }
    } else {
        text_eq(target_kind, "group") && group_id.is_some()
    }
}

/// Whether a target is named.
pub fn target_is_named(
    target_kind: &str,
    verified_email: Option<&str>,
    group_id: Option<Uuid>,
) -> (r: bool)
    ensures
        r == target_is_named_spec(target_kind, verified_email, group_id),
{
    match verified_email {
        Some(email) => target_is_named_by(target_kind, Some(trimmed_text(email)), group_id),
        None => target_is_named_by(target_kind, None, group_id),
    }
}

/// The actions of a preset.
pub open spec fn preset_actions(preset: Seq<char>) -> Result<Seq<&'static str>, DatabaseError> {
    if preset == "viewer"@ {
        Ok(seq!["READ_METADATA", "LIST_CHILDREN", "READ_CONTENT", "USE_EXTERNAL_EDITOR"])
    } else if preset == "contributor"@ {
        Ok(
            seq![
                "READ_METADATA",
                "LIST_CHILDREN",
                "READ_CONTENT",
                "CREATE_CHILD",
                "WRITE_CONTENT",
                "CREATE_VERSION",
                "RENAME",
                "MOVE",
                "DELETE",
                "RESTORE",
                "SET_ATTRIBUTES",
                "USE_EXTERNAL_EDITOR",
                "COMMENT",
                "REVIEW",
            ],
        )
    } else if preset == "manager"@ {
        Ok(
            seq![
                "READ_METADATA",
                "LIST_CHILDREN",
                "READ_CONTENT",
                "CREATE_CHILD",
                "WRITE_CONTENT",
                "CREATE_VERSION",
                "RENAME",
                "MOVE",
                "DELETE",
                "RESTORE",
                "SET_ATTRIBUTES",
                "SHARE",
                "MANAGE_ACL",
                "USE_EXTERNAL_EDITOR",
                "COMMENT",
                "REVIEW",
            ],
        )
    } else {
        Err(DatabaseError::InvalidPersistedValue)
    }
}

/// The actions that a share of a preset allows.
pub fn share_preset_actions(preset: &str) -> (r: Result<Vec<&'static str>, DatabaseError>)
    ensures
        r is Ok <==> preset_actions(preset@) is Ok,
        r is Ok ==> r->Ok_0@ == preset_actions(preset@)->Ok_0,
        r is Err ==> r->Err_0 == preset_actions(preset@)->Err_0,
{
    if text_eq(preset, "viewer") {
        Ok(vec!["READ_METADATA", "LIST_CHILDREN", "READ_CONTENT", "USE_EXTERNAL_EDITOR"])
    } else if text_eq(preset, "contributor") {
        Ok(
            vec![
                "READ_METADATA",
                "LIST_CHILDREN",
                "READ_CONTENT",
                "CREATE_CHILD",
                "WRITE_CONTENT",
                "CREATE_VERSION",
                "RENAME",
                "MOVE",
                "DELETE",
                "RESTORE",
                "SET_ATTRIBUTES",
                "USE_EXTERNAL_EDITOR",
                "COMMENT",
                "REVIEW",
            ],
        )
    } else if text_eq(preset, "manager") {
        Ok(
            vec![
                "READ_METADATA",
                "LIST_CHILDREN",
                "READ_CONTENT",
                "CREATE_CHILD",
                "WRITE_CONTENT",
                "CREATE_VERSION",
                "RENAME",
                "MOVE",
                "DELETE",
                "RESTORE",
                "SET_ATTRIBUTES",
                "SHARE",
                "MANAGE_ACL",
                "USE_EXTERNAL_EDITOR",
                "COMMENT",
                "REVIEW",
            ],
        )
    } else {
        Err(DatabaseError::InvalidPersistedValue)
    }
}

impl Database {

    /// What stops `list_direct_shares`, in order.
    pub open spec fn list_direct_shares_fault(log: Seq<Reply>) -> Option<Fault> {
        if log.len() > 0 && log[0].all_rows::<DirectShareRecord>() is Err {
            Fault::of(log[0].all_rows::<DirectShareRecord>())
        } else {
            None
        }
    }

    /// The commands of `list_direct_shares`, in order.
    pub open spec fn list_direct_shares_script<'a>(
        tenant_id: Uuid, drive_id: Uuid, resource_id: Uuid, log: Seq<Reply>,
    ) -> Seq<CommandView<'a>> {
        seq![
            CommandView::all(
                sql::LIST_DIRECT_SHARES,
                seq![Param::Id(tenant_id), Param::Id(drive_id), Param::Id(resource_id)],
            ),
        ]
    }

    /// What `list_direct_shares` returns.
    pub open spec fn list_direct_shares_output(log: Seq<Reply>) -> Seq<DirectShareRecord> {
        let shares = log[0].all_rows::<DirectShareRecord>()->Ok_0;
        shares
    }

    /// The shares of a node.
    pub fn list_direct_shares<'a>(
        tenant_id: Uuid, drive_id: Uuid, resource_id: Uuid, log: &'a [Reply],
    ) -> (step: Step<'a, Vec<DirectShareRecord>>)
        ensures
            step.list() == StepView::proceed(
                Self::list_direct_shares_fault(log@),
                Self::list_direct_shares_script(tenant_id, drive_id, resource_id, log@),
                Self::list_direct_shares_output(log@),
                log@,
            ),
    {
        if log.len() == 0 {
            return ask_all(
                sql::LIST_DIRECT_SHARES,
                vec![Param::Id(tenant_id), Param::Id(drive_id), Param::Id(resource_id)],
            );
        }
        let shares: Vec<DirectShareRecord> = match many::<DirectShareRecord>(&log[0]) {
            Ok(value) => value,
            Err(fault) => return stop_list(fault),
        };
        Step::Done(shares)
    }

    /// Every statement of `list_direct_shares` is about its tenant.
    pub proof fn list_direct_shares_is_scoped(
        tenant_id: Uuid, drive_id: Uuid, resource_id: Uuid, log: Seq<Reply>,
    )
        ensures
            crate::step::is_scoped(
                Self::list_direct_shares_script(tenant_id, drive_id, resource_id, log),
                tenant_id,
            ),
    {
    }

    /// What stops `list_advanced_acl_entries`, in order.
    pub open spec fn list_advanced_acl_entries_fault(log: Seq<Reply>) -> Option<Fault> {
        if log.len() > 0 && log[0].all_rows::<AdvancedAclEntryRecord>() is Err {
            Fault::of(log[0].all_rows::<AdvancedAclEntryRecord>())
        } else {
            None
        }
    }

    /// The commands of `list_advanced_acl_entries`, in order.
    pub open spec fn list_advanced_acl_entries_script<'a>(
        tenant_id: Uuid, drive_id: Uuid, resource_id: Uuid, log: Seq<Reply>,
    ) -> Seq<CommandView<'a>> {
        seq![
            CommandView::all(
                sql::LIST_ADVANCED_ACL_ENTRIES,
                seq![Param::Id(tenant_id), Param::Id(drive_id), Param::Id(resource_id)],
            ),
        ]
    }

    /// What `list_advanced_acl_entries` returns.
    pub open spec fn list_advanced_acl_entries_output(
        log: Seq<Reply>,
    ) -> Seq<AdvancedAclEntryRecord> {
        let entries = log[0].all_rows::<AdvancedAclEntryRecord>()->Ok_0;
        entries
    }

    /// The access control entries of a node.
    pub fn list_advanced_acl_entries<'a>(
        tenant_id: Uuid, drive_id: Uuid, resource_id: Uuid, log: &'a [Reply],
    ) -> (step: Step<'a, Vec<AdvancedAclEntryRecord>>)
        ensures
            step.list() == StepView::proceed(
                Self::list_advanced_acl_entries_fault(log@),
                Self::list_advanced_acl_entries_script(tenant_id, drive_id, resource_id, log@),
                Self::list_advanced_acl_entries_output(log@),
                log@,
            ),
    {
        if log.len() == 0 {
            return ask_all(
                sql::LIST_ADVANCED_ACL_ENTRIES,
                vec![Param::Id(tenant_id), Param::Id(drive_id), Param::Id(resource_id)],
            );
        }
        let entries: Vec<AdvancedAclEntryRecord> = match many::<AdvancedAclEntryRecord>(&log[0]) {
            Ok(value) => value,
            Err(fault) => return stop_list(fault),
        };
        Step::Done(entries)
    }

    /// Every statement of `list_advanced_acl_entries` is about its tenant.
    pub proof fn list_advanced_acl_entries_is_scoped(
        tenant_id: Uuid, drive_id: Uuid, resource_id: Uuid, log: Seq<Reply>,
    )
        ensures
            crate::step::is_scoped(
                Self::list_advanced_acl_entries_script(tenant_id, drive_id, resource_id, log),
                tenant_id,
            ),
    {
    }

    /// What stops `preflight_advanced_acl_replacement`, in order.
    pub open spec fn preflight_advanced_acl_replacement_fault<'a>(
        vocabulary: &'a [&'a str], target_kind: &'a str, verified_email: Option<&'a str>,
        group_id: Option<Uuid>, log: Seq<Reply>,
    ) -> Option<Fault> {
        let stored = log[2].all_rows::<String>()->Ok_0;
        let current = stored_texts(stored);
        if log.len() > 0 && !target_is_named_spec(target_kind, verified_email, group_id) {
            Some(Fault::Error(DatabaseError::InvalidPersistedValue))
        } else if log.len() > 1 && log[1].required_row::<Uuid>(DatabaseError::NotFound) is Err {
            Fault::of(log[1].required_row::<Uuid>(DatabaseError::NotFound))
        } else if log.len() > 2 && log[2].all_rows::<String>() is Err {
            Fault::of(log[2].all_rows::<String>())
        } else if log.len() > 2 && !all_named(current, texts(vocabulary@)) {
            Some(Fault::Error(DatabaseError::InvalidPersistedValue))
        } else {
            None
        }
    }

    /// The commands of `preflight_advanced_acl_replacement`, in order.
    pub open spec fn preflight_advanced_acl_replacement_script<'a>(
        tenant_id: Uuid, drive_id: Uuid, resource_id: Uuid, target_kind: &'a str,
        verified_email: Option<&'a str>, group_id: Option<Uuid>, log: Seq<Reply>,
    ) -> Seq<CommandView<'a>> {
        let by_address = target_kind@ == "user"@;
        let statement = if by_address { sql::RESOLVE_ADVANCED_ACL_TARGET_SELECT_USERS } else {
            sql::RESOLVE_ADVANCED_ACL_TARGET_SELECT_GROUPS
        };
        let target = log[1].required_row::<Uuid>(DatabaseError::NotFound)->Ok_0;
        seq![
            CommandView::Begin,
            CommandView::optional(
                statement,
                seq![
                    Param::Id(tenant_id),
                    if by_address {
                        Param::Trimmed(verified_email->0)
                    } else { Param::Id(group_id->0) },
                ],
            ),
            CommandView::all(
                sql::ADVANCED_ACL_ACTIONS_FOR_TARGET,
                seq![
                    Param::Id(tenant_id), Param::Id(drive_id), Param::Id(resource_id),
                    Param::Id(target),
                ],
            ),
            CommandView::Commit,
        ]
    }

    /// What `preflight_advanced_acl_replacement` returns.
    pub open spec fn preflight_advanced_acl_replacement_output<'a>(
        vocabulary: &'a [&'a str],
        log: Seq<Reply>,
    ) -> AdvancedAclReplacementPreflightView {
        let target = log[1].required_row::<Uuid>(DatabaseError::NotFound)->Ok_0;
        let stored = log[2].all_rows::<String>()->Ok_0;
        let current = stored_texts(stored);
        AdvancedAclReplacementPreflightView {
            target_principal_id: target,
            actions: held_spec(vocabulary@, current),
        }
    }

    /// Finds the principal that a target names and the actions of its entries on a node, so that
    /// the caller can be authorized for all of them. `vocabulary` has the name of every action.
    pub fn preflight_advanced_acl_replacement<'a>(
        vocabulary: &'a [&'a str], tenant_id: Uuid, drive_id: Uuid, resource_id: Uuid,
        target_kind: &'a str, verified_email: Option<&'a str>, group_id: Option<Uuid>,
        log: &'a [Reply],
    ) -> (step: Step<'a, AdvancedAclReplacementPreflight<'a>>)
        ensures
            step.deep() == StepView::proceed(
                Self::preflight_advanced_acl_replacement_fault(
                    vocabulary, target_kind, verified_email, group_id, log@,
                ),
                Self::preflight_advanced_acl_replacement_script(
                    tenant_id, drive_id, resource_id, target_kind, verified_email, group_id,
                    log@,
                ),
                Self::preflight_advanced_acl_replacement_output(vocabulary, log@),
                log@,
            ),
    {
        if log.len() == 0 {
            return Step::Ask(Command::Begin);
        }
        if !target_is_named(target_kind, verified_email, group_id) {
            return Step::Fail(DatabaseError::InvalidPersistedValue);
        }
        let by_address: bool = text_eq(target_kind, "user");
        let statement: &'static str = if by_address {
            sql::RESOLVE_ADVANCED_ACL_TARGET_SELECT_USERS
        } else { sql::RESOLVE_ADVANCED_ACL_TARGET_SELECT_GROUPS };
        if log.len() <= 1 {
            return ask_optional(
                statement,
                vec![
                    Param::Id(tenant_id),
                    if by_address {
                        Param::Trimmed(verified_email.unwrap())
                    } else { Param::Id(group_id.unwrap()) },
                ],
            );
        }
        let target: Uuid = match required::<Uuid>(&log[1], DatabaseError::NotFound) {
            Ok(value) => value,
            Err(fault) => return stop_deep(fault),
        };
        if log.len() <= 2 {
            return ask_all(
                sql::ADVANCED_ACL_ACTIONS_FOR_TARGET,
                vec![
                    Param::Id(tenant_id), Param::Id(drive_id), Param::Id(resource_id),
                    Param::Id(target),
                ],
            );
        }
        let stored: Vec<String> = match many::<String>(&log[2]) {
            Ok(value) => value,
            Err(fault) => return stop_deep(fault),
        };
        let current: Vec<&str> = borrowed(&stored);
        if !names_within(current.as_slice(), vocabulary) {
            return Step::Fail(DatabaseError::InvalidPersistedValue);
        }
        if log.len() <= 3 {
            return Step::Ask(Command::Commit);
        }
        Step::Done(
            AdvancedAclReplacementPreflight {
                target_principal_id: target,
                actions: held_actions(vocabulary, current.as_slice()),
            },
        )
    }

    /// `preflight_advanced_acl_replacement` runs in one transaction: it is done once its commit is
    /// acknowledged, and when it fails, nothing was committed.
    pub proof fn preflight_advanced_acl_replacement_is_atomic<'a>(
        vocabulary: &'a [&'a str], tenant_id: Uuid, drive_id: Uuid, resource_id: Uuid,
        target_kind: &'a str, verified_email: Option<&'a str>, group_id: Option<Uuid>,
        log: Seq<Reply>,
    )
        ensures
            crate::step::is_atomic(
                Self::preflight_advanced_acl_replacement_script(
                    tenant_id, drive_id, resource_id, target_kind, verified_email, group_id,
                    log,
                ),
                0,
            ),
            crate::step::commit_acknowledged(
                Self::preflight_advanced_acl_replacement_fault(
                    vocabulary, target_kind, verified_email, group_id, log.drop_last(),
                ),
                Self::preflight_advanced_acl_replacement_script(
                    tenant_id, drive_id, resource_id, target_kind, verified_email, group_id,
                    log.drop_last(),
                ),
                log,
            ) ==> {
                &&& Self::preflight_advanced_acl_replacement_fault(
                    vocabulary, target_kind, verified_email, group_id, log,
                ) is None
                &&& log.len() == Self::preflight_advanced_acl_replacement_script(
                    tenant_id, drive_id, resource_id, target_kind, verified_email, group_id,
                    log,
                ).len()
            },
    {
    }

    /// Every statement of `preflight_advanced_acl_replacement` is about its tenant.
    pub proof fn preflight_advanced_acl_replacement_is_scoped<'a>(
        tenant_id: Uuid, drive_id: Uuid, resource_id: Uuid, target_kind: &'a str,
        verified_email: Option<&'a str>, group_id: Option<Uuid>, log: Seq<Reply>,
    )
        ensures
            crate::step::is_scoped(
                Self::preflight_advanced_acl_replacement_script(
                    tenant_id, drive_id, resource_id, target_kind, verified_email, group_id, log,
                ),
                tenant_id,
            ),
    {
    }

    /// What stops `replace_advanced_acl_entries`, in order.
    pub open spec fn replace_advanced_acl_entries_fault<'a>(
        vocabulary: &'a [&'a str], target_kind: &'a str, verified_email: Option<&'a str>,
        group_id: Option<Uuid>, expected_target_principal_id: Uuid,
        entries: &'a [AdvancedAclEntryInput<'a>], covered_actions: &'a [&'a str],
        membership_generation: i64, drive_acl_generation: i64, namespace_generation: i64,
        resource_acl_generation: i64, log: Seq<Reply>,
    ) -> Option<Fault> {
        let submitted = entry_texts(entries@);
        let nothing = Seq::<Seq<char>>::empty();
        let fence = log[1].required_row::<FenceGenerations>(DatabaseError::StaleGeneration)->Ok_0;
        let target = log[2].required_row::<Uuid>(DatabaseError::StaleGeneration)->Ok_0;
        let stored = log[3].all_rows::<String>()->Ok_0;
        let current = stored_texts(stored);
        let owner = log[4].required_row::<Uuid>(DatabaseError::NotFound)->Ok_0;
        let at = (6 + entries@.len()) as int;
        let generation = log[at].single_row::<i64>()->Ok_0;
        if !entries_are_valid_spec(vocabulary@, entries@) {
            Some(Fault::Error(DatabaseError::InvalidPersistedValue))
        } else if !covers(texts(covered_actions@), submitted, nothing) {
            Some(Fault::Error(DatabaseError::StaleGeneration))
        } else if log.len() > 1
            && log[1].required_row::<FenceGenerations>(DatabaseError::StaleGeneration) is Err {
            Fault::of(log[1].required_row::<FenceGenerations>(DatabaseError::StaleGeneration))
        } else if log.len() > 1
            && !fence.agrees_with(
                seq![
                    membership_generation, drive_acl_generation, namespace_generation,
                    resource_acl_generation,
                ],
            ) {
                Some(Fault::Error(DatabaseError::StaleGeneration))
            } else if log.len() > 1
            && !target_is_named_spec(target_kind, verified_email, group_id) {
            Some(Fault::Error(DatabaseError::InvalidPersistedValue))
        } else if log.len() > 2
            && log[2].required_row::<Uuid>(DatabaseError::StaleGeneration) is Err {
            Fault::of(log[2].required_row::<Uuid>(DatabaseError::StaleGeneration))
        } else if log.len() > 2 && exact_target(expected_target_principal_id, target) is Err {
            Some(Fault::Error(exact_target(expected_target_principal_id, target)->Err_0))
        } else if log.len() > 3 && log[3].all_rows::<String>() is Err {
            Fault::of(log[3].all_rows::<String>())
        } else if log.len() > 3 && !all_named(current, texts(vocabulary@)) {
            Some(Fault::Error(DatabaseError::InvalidPersistedValue))
        } else if log.len() > 3 && !covers(texts(covered_actions@), submitted, current) {
            Some(Fault::Error(DatabaseError::StaleGeneration))
        } else if log.len() > 4 && log[4].required_row::<Uuid>(DatabaseError::NotFound) is Err {
            Fault::of(log[4].required_row::<Uuid>(DatabaseError::NotFound))
        } else if log.len() > 4 && target == owner {
            Some(Fault::Error(DatabaseError::Conflict))
        } else if log.len() > at && log[at].single_row::<i64>() is Err {
            Fault::of(log[at].single_row::<i64>())
        } else if log.len() > at + 2 && log[at + 2].single_row::<i64>() is Err {
            Fault::of(log[at + 2].single_row::<i64>())
        } else if log.len() > at + 2 && generation < 0 {
            Some(Fault::Error(DatabaseError::InvalidPersistedValue))
        } else {
            None
        }
    }

    /// The commands of `replace_advanced_acl_entries`, in order.
    pub open spec fn replace_advanced_acl_entries_script<'a>(
        tenant_id: Uuid, actor_principal_id: Uuid, session_id: Uuid, drive_id: Uuid,
        resource_id: Uuid, target_kind: &'a str, verified_email: Option<&'a str>,
        group_id: Option<Uuid>, entries: &'a [AdvancedAclEntryInput<'a>], log: Seq<Reply>,
    ) -> Seq<CommandView<'a>> {
        let by_address = target_kind@ == "user"@;
        let statement = if by_address { sql::RESOLVE_ADVANCED_ACL_TARGET_SELECT_USERS } else {
            sql::RESOLVE_ADVANCED_ACL_TARGET_SELECT_GROUPS
        };
        let target = log[2].required_row::<Uuid>(DatabaseError::StaleGeneration)->Ok_0;
        let at = (6 + entries@.len()) as int;
        let generation = log[at].single_row::<i64>()->Ok_0;
        let occurred_at = log[at + 2].single_row::<i64>()->Ok_0;
        seq![
            CommandView::Begin,
            CommandView::optional(
                sql::LOCK_AUTHORIZATION_FENCE,
                seq![
                    Param::Id(tenant_id), Param::Id(session_id), Param::Id(actor_principal_id),
                    Param::Id(drive_id), Param::Id(resource_id),
                ],
            ),
            CommandView::optional(
                statement,
                seq![
                    Param::Id(tenant_id),
                    if by_address {
                        Param::Trimmed(verified_email->0)
                    } else { Param::Id(group_id->0) },
                ],
            ),
            CommandView::all(
                sql::ADVANCED_ACL_ACTIONS_FOR_TARGET,
                seq![
                    Param::Id(tenant_id), Param::Id(drive_id), Param::Id(resource_id),
                    Param::Id(target),
                ],
            ),
            CommandView::optional(
                sql::REPLACE_ADVANCED_ACL_ENTRIES_SELECT_DRIVES,
                seq![Param::Id(tenant_id), Param::Id(drive_id)],
            ),
            CommandView::execute(
                sql::REPLACE_ADVANCED_ACL_ENTRIES_DELETE_ACL_ENTRIES,
                seq![
                    Param::Id(tenant_id), Param::Id(drive_id), Param::Id(resource_id),
                    Param::Id(target),
                ],
            ),
        ].add(
            Seq::new(
                entries@.len(),
                |j: int| CommandView::ruled(
                    sql::REPLACE_ADVANCED_ACL_ENTRIES_INSERT_ACL_ENTRIES,
                    seq![
                        Param::Id(tenant_id), Param::Id(drive_id), Param::Id(resource_id),
                        Param::FreshId, Param::Id(target), Param::Text(entries[j].action),
                        Param::Text(entries[j].effect), Param::Text(entries[j].inheritance),
                        Param::Id(actor_principal_id),
                    ],
                    Fetch::Execute, ErrorRule::UniqueConflict,
                ),
            ),
        ).add(
            seq![
                CommandView::one(
                    sql::REPLACE_ADVANCED_ACL_ENTRIES_SELECT_NODES,
                    seq![Param::Id(tenant_id), Param::Id(drive_id), Param::Id(resource_id)],
                ),
                CommandView::execute(
                    sql::INSERT_AUDIT,
                    seq![
                        Param::Id(tenant_id), Param::FreshId,
                        Param::OptId(Some(actor_principal_id)), Param::OptId(Some(target)),
                        Param::OptId(Some(resource_id)), Param::Text("acl.replace"),
                        Param::Text("allowed"), Param::Text("manage_acl_allowed"),
                        Param::Bool(true),
                        Param::Object2(
                            "entry_count", Detail::Int(entries@.len() as i64), "target_kind",
                            Detail::Text(target_kind),
                        ),
                    ],
                ),
                CommandView::one(sql::INSERT_OUTBOX_SELECT_VALUE, seq![]),
                CommandView::execute(
                    sql::INSERT_OUTBOX_INSERT_OUTBOX_EVENTS,
                    seq![
                        Param::Id(tenant_id), Param::FreshId,
                        Param::Text("filebelt.v1.acl.changed"), Param::Text("node"),
                        Param::Id(resource_id), Param::I64(generation),
                        Param::Pair(tenant_id, resource_id),
                        Param::Event(
                            Envelope {
                                tenant_id: tenant_id,
                                aggregate_type: "node",
                                aggregate_id: resource_id,
                                aggregate_generation: generation as u64,
                                event_type: "filebelt.v1.acl.changed",
                                occurred_at_unix_seconds: occurred_at,
                            },
                        ),
                    ],
                ),
                CommandView::Commit,
            ],
        )
    }

    /// What `replace_advanced_acl_entries` returns.
    pub open spec fn replace_advanced_acl_entries_output<'a>(
        entries: &'a [AdvancedAclEntryInput<'a>],
        log: Seq<Reply>,
    ) -> (Uuid, i64) {
        let target = log[2].required_row::<Uuid>(DatabaseError::StaleGeneration)->Ok_0;
        let at = (6 + entries@.len()) as int;
        let generation = log[at].single_row::<i64>()->Ok_0;
        (target, generation)
    }

    /// Replaces a target's own entries on a node; entries that come from shares stay. The caller's
    /// authorization has to cover every action that is written or deleted, the target has to be the
    /// one that was looked at before, and the drive's owner is no target. Returns the target and
    /// the node's new access control generation. `vocabulary` has the name of every action.
    #[verifier::spinoff_prover]
    #[verifier::rlimit(100)]
    pub fn replace_advanced_acl_entries<'a>(
        vocabulary: &'a [&'a str], tenant_id: Uuid, actor_principal_id: Uuid, session_id: Uuid,
        drive_id: Uuid, resource_id: Uuid, target_kind: &'a str,
        verified_email: Option<&'a str>, group_id: Option<Uuid>,
        expected_target_principal_id: Uuid, entries: &'a [AdvancedAclEntryInput<'a>],
        covered_actions: &'a [&'a str], membership_generation: i64, drive_acl_generation: i64,
        namespace_generation: i64, resource_acl_generation: i64, log: &'a [Reply],
    ) -> (step: Step<'a, (Uuid, i64)>)
        ensures
            step@ == StepView::proceed(
                Self::replace_advanced_acl_entries_fault(
                    vocabulary, target_kind, verified_email, group_id,
                    expected_target_principal_id, entries, covered_actions,
                    membership_generation, drive_acl_generation, namespace_generation,
                    resource_acl_generation, log@,
                ),
                Self::replace_advanced_acl_entries_script(
                    tenant_id, actor_principal_id, session_id, drive_id, resource_id,
                    target_kind, verified_email, group_id, entries, log@,
                ),
                Self::replace_advanced_acl_entries_output(entries, log@),
                log@,
            ),
    {
        if !entries_are_valid(vocabulary, entries) {
            return Step::Fail(DatabaseError::InvalidPersistedValue);
        }
        let submitted: Vec<&'a str> = advanced_acl_actions(entries);
        let nothing: Vec<&'a str> = Vec::new();
        if !replacement_actions_are_covered(
            covered_actions, submitted.as_slice(), nothing.as_slice(),
        ) {
            return Step::Fail(DatabaseError::StaleGeneration);
        }
        if log.len() == 0 {
            return Step::Ask(Command::Begin);
        }
        if log.len() <= 1 {
            return ask_optional(
                sql::LOCK_AUTHORIZATION_FENCE,
                vec![
                    Param::Id(tenant_id), Param::Id(session_id), Param::Id(actor_principal_id),
                    Param::Id(drive_id), Param::Id(resource_id),
                ],
            );
        }
        let fence: FenceGenerations = match required(&log[1], DatabaseError::StaleGeneration) {
            Ok(value) => value,
            Err(fault) => return stop(fault),
        };
        if !fence.agree(
            [
                membership_generation, drive_acl_generation, namespace_generation,
                resource_acl_generation,
            ],
        ) {
            return Step::Fail(DatabaseError::StaleGeneration);
        }
        if !target_is_named(target_kind, verified_email, group_id) {
            return Step::Fail(DatabaseError::InvalidPersistedValue);
        }
        let by_address: bool = text_eq(target_kind, "user");
        let statement: &'static str = if by_address {
            sql::RESOLVE_ADVANCED_ACL_TARGET_SELECT_USERS
        } else { sql::RESOLVE_ADVANCED_ACL_TARGET_SELECT_GROUPS };
        if log.len() <= 2 {
            return ask_optional(
                statement,
                vec![
                    Param::Id(tenant_id),
                    if by_address {
                        Param::Trimmed(verified_email.unwrap())
                    } else { Param::Id(group_id.unwrap()) },
                ],
            );
        }
        let target: Uuid = match required::<Uuid>(&log[2], DatabaseError::StaleGeneration) {
            Ok(value) => value,
            Err(fault) => return stop(fault),
        };
        let exact: () = match require_exact_advanced_acl_target(
            expected_target_principal_id,
            target,
        ) {
            Ok(value) => value,
            Err(error) => return Step::Fail(error),
        };
        if log.len() <= 3 {
            return ask_all(
                sql::ADVANCED_ACL_ACTIONS_FOR_TARGET,
                vec![
                    Param::Id(tenant_id), Param::Id(drive_id), Param::Id(resource_id),
                    Param::Id(target),
                ],
            );
        }
        let stored: Vec<String> = match many::<String>(&log[3]) {
            Ok(value) => value,
            Err(fault) => return stop(fault),
        };
        let current: Vec<&str> = borrowed(&stored);
        if !names_within(current.as_slice(), vocabulary) {
            return Step::Fail(DatabaseError::InvalidPersistedValue);
        }
        if !replacement_actions_are_covered(
            covered_actions, submitted.as_slice(), current.as_slice(),
        ) {
            return Step::Fail(DatabaseError::StaleGeneration);
        }
        if log.len() <= 4 {
            return ask_optional(
                sql::REPLACE_ADVANCED_ACL_ENTRIES_SELECT_DRIVES,
                vec![Param::Id(tenant_id), Param::Id(drive_id)],
            );
        }
        let owner: Uuid = match required::<Uuid>(&log[4], DatabaseError::NotFound) {
            Ok(value) => value,
            Err(fault) => return stop(fault),
        };
        if target == owner {
            return Step::Fail(DatabaseError::Conflict);
        }
        if log.len() <= 5 {
            return ask_execute(
                sql::REPLACE_ADVANCED_ACL_ENTRIES_DELETE_ACL_ENTRIES,
                vec![
                    Param::Id(tenant_id), Param::Id(drive_id), Param::Id(resource_id),
                    Param::Id(target),
                ],
            );
        }
        let items: usize = entries.len();
        if log.len() - 6 < items {
            let j: usize = log.len() - 6;
            return ask(
                sql::REPLACE_ADVANCED_ACL_ENTRIES_INSERT_ACL_ENTRIES,
                vec![
                    Param::Id(tenant_id), Param::Id(drive_id), Param::Id(resource_id),
                    Param::FreshId, Param::Id(target), Param::Text(entries[j].action),
                    Param::Text(entries[j].effect), Param::Text(entries[j].inheritance),
                    Param::Id(actor_principal_id),
                ],
                Fetch::Execute, ErrorRule::UniqueConflict,
            );
        }
        let at: usize = 6 + items;
        if log.len() <= at {
            return ask_one(
                sql::REPLACE_ADVANCED_ACL_ENTRIES_SELECT_NODES,
                vec![Param::Id(tenant_id), Param::Id(drive_id), Param::Id(resource_id)],
            );
        }
        let generation: i64 = match single::<i64>(&log[at]) {
            Ok(value) => value,
            Err(fault) => return stop(fault),
        };
        if log.len() - at <= 1 {
            return ask_execute(
                sql::INSERT_AUDIT,
                vec![
                    Param::Id(tenant_id), Param::FreshId,
                    Param::OptId(Some(actor_principal_id)), Param::OptId(Some(target)),
                    Param::OptId(Some(resource_id)), Param::Text("acl.replace"),
                    Param::Text("allowed"), Param::Text("manage_acl_allowed"),
                    Param::Bool(true),
                    Param::Object2(
                        "entry_count", Detail::Int(entries.len() as i64), "target_kind",
                        Detail::Text(target_kind),
                    ),
                ],
            );
        }
        if log.len() - at <= 2 {
            return ask_one(sql::INSERT_OUTBOX_SELECT_VALUE, vec![]);
        }
        let occurred_at: i64 = match single::<i64>(&log[at + 2]) {
            Ok(value) => value,
            Err(fault) => return stop(fault),
        };
        if generation < 0 {
            return Step::Fail(DatabaseError::InvalidPersistedValue);
        }
        if log.len() - at <= 3 {
            return ask_execute(
                sql::INSERT_OUTBOX_INSERT_OUTBOX_EVENTS,
                vec![
                    Param::Id(tenant_id), Param::FreshId,
                    Param::Text("filebelt.v1.acl.changed"), Param::Text("node"),
                    Param::Id(resource_id), Param::I64(generation),
                    Param::Pair(tenant_id, resource_id),
                    Param::Event(
                        Envelope {
                            tenant_id: tenant_id,
                            aggregate_type: "node",
                            aggregate_id: resource_id,
                            aggregate_generation: generation as u64,
                            event_type: "filebelt.v1.acl.changed",
                            occurred_at_unix_seconds: occurred_at,
                        },
                    ),
                ],
            );
        }
        if log.len() - at <= 4 {
            return Step::Ask(Command::Commit);
        }
        Step::Done((target, generation))
    }

    /// `replace_advanced_acl_entries` runs in one transaction: it is done once its commit is
    /// acknowledged, and when it fails, nothing was committed.
    pub proof fn replace_advanced_acl_entries_is_atomic<'a>(
        vocabulary: &'a [&'a str], tenant_id: Uuid, actor_principal_id: Uuid, session_id: Uuid,
        drive_id: Uuid, resource_id: Uuid, target_kind: &'a str,
        verified_email: Option<&'a str>, group_id: Option<Uuid>,
        expected_target_principal_id: Uuid, entries: &'a [AdvancedAclEntryInput<'a>],
        covered_actions: &'a [&'a str], membership_generation: i64, drive_acl_generation: i64,
        namespace_generation: i64, resource_acl_generation: i64, log: Seq<Reply>,
    )
        ensures
            crate::step::is_atomic(
                Self::replace_advanced_acl_entries_script(
                    tenant_id, actor_principal_id, session_id, drive_id, resource_id,
                    target_kind, verified_email, group_id, entries, log,
                ),
                0,
            ),
            crate::step::commit_acknowledged(
                Self::replace_advanced_acl_entries_fault(
                    vocabulary, target_kind, verified_email, group_id,
                    expected_target_principal_id, entries, covered_actions,
                    membership_generation, drive_acl_generation, namespace_generation,
                    resource_acl_generation, log.drop_last(),
                ),
                Self::replace_advanced_acl_entries_script(
                    tenant_id, actor_principal_id, session_id, drive_id, resource_id,
                    target_kind, verified_email, group_id, entries, log.drop_last(),
                ),
                log,
            ) ==> {
                &&& Self::replace_advanced_acl_entries_fault(
                    vocabulary, target_kind, verified_email, group_id,
                    expected_target_principal_id, entries, covered_actions,
                    membership_generation, drive_acl_generation, namespace_generation,
                    resource_acl_generation, log,
                ) is None
                &&& log.len() == Self::replace_advanced_acl_entries_script(
                    tenant_id, actor_principal_id, session_id, drive_id, resource_id,
                    target_kind, verified_email, group_id, entries, log,
                ).len()
            },
    {
    }

    /// `replace_advanced_acl_entries` goes past its fence only where the generations that it has
    /// locked are those that the caller was authorized under.
    pub proof fn replace_advanced_acl_entries_is_fenced<'a>(
        vocabulary: &'a [&'a str], target_kind: &'a str, verified_email: Option<&'a str>,
        group_id: Option<Uuid>, expected_target_principal_id: Uuid,
        entries: &'a [AdvancedAclEntryInput<'a>], covered_actions: &'a [&'a str],
        membership_generation: i64, drive_acl_generation: i64, namespace_generation: i64,
        resource_acl_generation: i64, log: Seq<Reply>,
    )
        ensures
            ({
                let fence =
                    log[1].required_row::<FenceGenerations>(DatabaseError::StaleGeneration)->Ok_0;
                Self::replace_advanced_acl_entries_fault(
                    vocabulary, target_kind, verified_email, group_id,
                    expected_target_principal_id, entries, covered_actions,
                    membership_generation, drive_acl_generation, namespace_generation,
                    resource_acl_generation, log,
                ) is None && log.len() > 1
                    ==> log[1].required_row::<FenceGenerations>(
                        DatabaseError::StaleGeneration,
                    ) is Ok
                    && fence.agrees_with(
                        seq![
                            membership_generation, drive_acl_generation, namespace_generation,
                            resource_acl_generation,
                        ],
                    )
            }),
    {
    }

    /// Every statement of `replace_advanced_acl_entries` is about its tenant.
    pub proof fn replace_advanced_acl_entries_is_scoped<'a>(
        tenant_id: Uuid, actor_principal_id: Uuid, session_id: Uuid, drive_id: Uuid,
        resource_id: Uuid, target_kind: &'a str, verified_email: Option<&'a str>,
        group_id: Option<Uuid>, entries: &'a [AdvancedAclEntryInput<'a>], log: Seq<Reply>,
    )
        ensures
            crate::step::is_scoped(
                Self::replace_advanced_acl_entries_script(
                    tenant_id, actor_principal_id, session_id, drive_id, resource_id, target_kind,
                    verified_email, group_id, entries, log,
                ),
                tenant_id,
            ),
    {
    }

    /// What stops `create_direct_share`, in order.
    pub open spec fn create_direct_share_fault<'a>(
        actor_principal_id: Uuid, verified_email: &'a str, preset: &'a str,
        inheritance: &'a str, membership_generation: i64, drive_acl_generation: i64,
        namespace_generation: i64, resource_acl_generation: i64, log: Seq<Reply>,
    ) -> Option<Fault> {
        let actions = preset_actions(preset@)->Ok_0;
        let fence = log[1].required_row::<FenceGenerations>(DatabaseError::StaleGeneration)->Ok_0;
        let target = log[2].required_row::<ShareTarget>(DatabaseError::NotFound)->Ok_0;
        let drawn = log[3].drawn_ids(1);
        let at = (5 + actions.len()) as int;
        let generation = log[at].single_row::<i64>()->Ok_0;
        if preset_actions(preset@) is Err {
            Some(Fault::Error(preset_actions(preset@)->Err_0))
        } else if inheritance@ != "self"@ && inheritance@ != "self_and_descendants"@ {
            Some(Fault::Error(DatabaseError::InvalidPersistedValue))
        } else if !crate::text::is_email_sized(crate::text::email_key(verified_email@)) {
            Some(Fault::Error(DatabaseError::NotFound))
        } else if log.len() > 1
            && log[1].required_row::<FenceGenerations>(DatabaseError::StaleGeneration) is Err {
            Fault::of(log[1].required_row::<FenceGenerations>(DatabaseError::StaleGeneration))
        } else if log.len() > 1
            && !fence.agrees_with(
                seq![
                    membership_generation, drive_acl_generation, namespace_generation,
                    resource_acl_generation,
                ],
            ) {
                Some(Fault::Error(DatabaseError::StaleGeneration))
            } else if log.len() > 2
            && log[2].required_row::<ShareTarget>(DatabaseError::NotFound) is Err {
            Fault::of(log[2].required_row::<ShareTarget>(DatabaseError::NotFound))
        } else if log.len() > 2 && target.principal_id == actor_principal_id {
            Some(Fault::Error(DatabaseError::Conflict))
        } else if log.len() > 3 && drawn is Err {
            Fault::of(drawn)
        } else if log.len() > 4 && log[4].single_row::<String>() is Err {
            Fault::of(log[4].single_row::<String>())
        } else if log.len() > at && log[at].single_row::<i64>() is Err {
            Fault::of(log[at].single_row::<i64>())
        } else if log.len() > at + 2 && log[at + 2].single_row::<i64>() is Err {
            Fault::of(log[at + 2].single_row::<i64>())
        } else if log.len() > at + 2 && generation < 0 {
            Some(Fault::Error(DatabaseError::InvalidPersistedValue))
        } else {
            None
        }
    }

    /// The commands of `create_direct_share`, in order.
    pub open spec fn create_direct_share_script<'a>(
        tenant_id: Uuid, actor_principal_id: Uuid, session_id: Uuid, drive_id: Uuid,
        resource_id: Uuid, verified_email: &'a str, preset: &'a str, inheritance: &'a str,
        log: Seq<Reply>,
    ) -> Seq<CommandView<'a>> {
        let actions = preset_actions(preset@)->Ok_0;
        let target = log[2].required_row::<ShareTarget>(DatabaseError::NotFound)->Ok_0;
        let drawn = log[3].drawn_ids(1);
        let share_id = drawn->Ok_0[0];
        let at = (5 + actions.len()) as int;
        let generation = log[at].single_row::<i64>()->Ok_0;
        let occurred_at = log[at + 2].single_row::<i64>()->Ok_0;
        seq![
            CommandView::Begin,
            CommandView::optional(
                sql::LOCK_AUTHORIZATION_FENCE,
                seq![
                    Param::Id(tenant_id), Param::Id(session_id), Param::Id(actor_principal_id),
                    Param::Id(drive_id), Param::Id(resource_id),
                ],
            ),
            CommandView::optional(
                sql::CREATE_DIRECT_SHARE_SELECT_USERS,
                seq![Param::Id(tenant_id), Param::Email(verified_email)],
            ),
            CommandView::DrawIds(1),
            CommandView::ruled(
                sql::CREATE_DIRECT_SHARE_INSERT_DIRECT_SHARES,
                seq![
                    Param::Id(tenant_id), Param::Id(share_id), Param::Id(drive_id),
                    Param::Id(resource_id), Param::Id(target.principal_id), Param::Text(preset),
                    Param::Text(inheritance), Param::Id(actor_principal_id),
                ],
                Fetch::One, ErrorRule::SecurityAdmission,
            ),
        ].add(
            Seq::new(
                actions.len(),
                |j: int| CommandView::ruled(
                    sql::CREATE_DIRECT_SHARE_INSERT_ACL_ENTRIES,
                    seq![
                        Param::Id(tenant_id), Param::Id(drive_id), Param::Id(resource_id),
                        Param::FreshId, Param::Id(target.principal_id), Param::Text(actions[j]),
                        Param::Text(inheritance), Param::Id(actor_principal_id),
                        Param::Id(share_id),
                    ],
                    Fetch::Execute, ErrorRule::UniqueConflict,
                ),
            ),
        ).add(
            seq![
                CommandView::one(
                    sql::REPLACE_ADVANCED_ACL_ENTRIES_SELECT_NODES,
                    seq![Param::Id(tenant_id), Param::Id(drive_id), Param::Id(resource_id)],
                ),
                CommandView::execute(
                    sql::INSERT_AUDIT,
                    seq![
                        Param::Id(tenant_id), Param::FreshId,
                        Param::OptId(Some(actor_principal_id)),
                        Param::OptId(Some(target.principal_id)), Param::OptId(Some(resource_id)),
                        Param::Text("share.create"), Param::Text("allowed"),
                        Param::Text("share_allowed"), Param::Bool(true),
                        Param::Object2(
                            "preset", Detail::Text(preset), "inheritance",
                            Detail::Text(inheritance),
                        ),
                    ],
                ),
                CommandView::one(sql::INSERT_OUTBOX_SELECT_VALUE, seq![]),
                CommandView::execute(
                    sql::INSERT_OUTBOX_INSERT_OUTBOX_EVENTS,
                    seq![
                        Param::Id(tenant_id), Param::FreshId,
                        Param::Text("filebelt.v1.acl.changed"), Param::Text("node"),
                        Param::Id(resource_id), Param::I64(generation),
                        Param::Pair(tenant_id, resource_id),
                        Param::Event(
                            Envelope {
                                tenant_id: tenant_id,
                                aggregate_type: "node",
                                aggregate_id: resource_id,
                                aggregate_generation: generation as u64,
                                event_type: "filebelt.v1.acl.changed",
                                occurred_at_unix_seconds: occurred_at,
                            },
                        ),
                    ],
                ),
                CommandView::Commit,
            ],
        )
    }

    /// What `create_direct_share` returns.
    pub open spec fn create_direct_share_output<'a>(
        verified_email: &'a str, preset: &'a str, inheritance: &'a str, log: Seq<Reply>,
    ) -> DirectShareRecordView {
        let target = log[2].required_row::<ShareTarget>(DatabaseError::NotFound)->Ok_0;
        let created_at = log[4].single_row::<String>()->Ok_0;
        DirectShareRecordView {
            principal_id: target.principal_id,
            display_name: target.display_name@,
            verified_email: target.verified_email@,
            preset: preset@,
            inheritance: inheritance@,
            created_at: created_at@,
        }
    }

    /// Shares a node with the user whose verified address this is, with every action of a preset.
    /// Nobody shares with themselves.
    #[verifier::spinoff_prover]
    #[verifier::rlimit(100)]
    pub fn create_direct_share<'a>(
        tenant_id: Uuid, actor_principal_id: Uuid, session_id: Uuid, drive_id: Uuid,
        resource_id: Uuid, verified_email: &'a str, preset: &'a str, inheritance: &'a str,
        membership_generation: i64, drive_acl_generation: i64, namespace_generation: i64,
        resource_acl_generation: i64, log: &'a [Reply],
    ) -> (step: Step<'a, DirectShareRecord>)
        ensures
            step.deep() == StepView::proceed(
                Self::create_direct_share_fault(
                    actor_principal_id, verified_email, preset, inheritance,
                    membership_generation, drive_acl_generation, namespace_generation,
                    resource_acl_generation, log@,
                ),
                Self::create_direct_share_script(
                    tenant_id, actor_principal_id, session_id, drive_id, resource_id,
                    verified_email, preset, inheritance, log@,
                ),
                Self::create_direct_share_output(verified_email, preset, inheritance, log@),
                log@,
            ),
    {
        let actions: Vec<&'static str> = match share_preset_actions(preset) {
            Ok(value) => value,
            Err(error) => return Step::Fail(error),
        };
        if !text_eq(inheritance, "self") && !text_eq(inheritance, "self_and_descendants") {
            return Step::Fail(DatabaseError::InvalidPersistedValue);
        }
        if !email_sized(normalized_email(verified_email).as_str()) {
            return Step::Fail(DatabaseError::NotFound);
        }
        if log.len() == 0 {
            return Step::Ask(Command::Begin);
        }
        if log.len() <= 1 {
            return ask_optional(
                sql::LOCK_AUTHORIZATION_FENCE,
                vec![
                    Param::Id(tenant_id), Param::Id(session_id), Param::Id(actor_principal_id),
                    Param::Id(drive_id), Param::Id(resource_id),
                ],
            );
        }
        let fence: FenceGenerations = match required(&log[1], DatabaseError::StaleGeneration) {
            Ok(value) => value,
            Err(fault) => return stop_deep(fault),
        };
        if !fence.agree(
            [
                membership_generation, drive_acl_generation, namespace_generation,
                resource_acl_generation,
            ],
        ) {
            return Step::Fail(DatabaseError::StaleGeneration);
        }
        if log.len() <= 2 {
            return ask_optional(
                sql::CREATE_DIRECT_SHARE_SELECT_USERS,
                vec![Param::Id(tenant_id), Param::Email(verified_email)],
            );
        }
        let target: ShareTarget = match required::<ShareTarget>(&log[2], DatabaseError::NotFound) {
            Ok(value) => value,
            Err(fault) => return stop_deep(fault),
        };
        if target.principal_id == actor_principal_id {
            return Step::Fail(DatabaseError::Conflict);
        }
        if log.len() <= 3 {
            return Step::Ask(Command::DrawIds(1));
        }
        let drawn: &Vec<Uuid> = match drawn(&log[3], 1) {
            Ok(ids) => ids,
            Err(fault) => return stop_deep(fault),
        };
        let share_id: Uuid = drawn[0];
        if log.len() <= 4 {
            return ask(
                sql::CREATE_DIRECT_SHARE_INSERT_DIRECT_SHARES,
                vec![
                    Param::Id(tenant_id), Param::Id(share_id), Param::Id(drive_id),
                    Param::Id(resource_id), Param::Id(target.principal_id), Param::Text(preset),
                    Param::Text(inheritance), Param::Id(actor_principal_id),
                ],
                Fetch::One, ErrorRule::SecurityAdmission,
            );
        }
        let created_at: String = match single::<String>(&log[4]) {
            Ok(value) => value,
            Err(fault) => return stop_deep(fault),
        };
        let items: usize = actions.len();
        if log.len() - 5 < items {
            let j: usize = log.len() - 5;
            return ask(
                sql::CREATE_DIRECT_SHARE_INSERT_ACL_ENTRIES,
                vec![
                    Param::Id(tenant_id), Param::Id(drive_id), Param::Id(resource_id),
                    Param::FreshId, Param::Id(target.principal_id), Param::Text(actions[j]),
                    Param::Text(inheritance), Param::Id(actor_principal_id),
                    Param::Id(share_id),
                ],
                Fetch::Execute, ErrorRule::UniqueConflict,
            );
        }
        let at: usize = 5 + items;
        if log.len() <= at {
            return ask_one(
                sql::REPLACE_ADVANCED_ACL_ENTRIES_SELECT_NODES,
                vec![Param::Id(tenant_id), Param::Id(drive_id), Param::Id(resource_id)],
            );
        }
        let generation: i64 = match single::<i64>(&log[at]) {
            Ok(value) => value,
            Err(fault) => return stop_deep(fault),
        };
        if log.len() - at <= 1 {
            return ask_execute(
                sql::INSERT_AUDIT,
                vec![
                    Param::Id(tenant_id), Param::FreshId,
                    Param::OptId(Some(actor_principal_id)),
                    Param::OptId(Some(target.principal_id)), Param::OptId(Some(resource_id)),
                    Param::Text("share.create"), Param::Text("allowed"),
                    Param::Text("share_allowed"), Param::Bool(true),
                    Param::Object2(
                        "preset", Detail::Text(preset), "inheritance", Detail::Text(inheritance),
                    ),
                ],
            );
        }
        if log.len() - at <= 2 {
            return ask_one(sql::INSERT_OUTBOX_SELECT_VALUE, vec![]);
        }
        let occurred_at: i64 = match single::<i64>(&log[at + 2]) {
            Ok(value) => value,
            Err(fault) => return stop_deep(fault),
        };
        if generation < 0 {
            return Step::Fail(DatabaseError::InvalidPersistedValue);
        }
        if log.len() - at <= 3 {
            return ask_execute(
                sql::INSERT_OUTBOX_INSERT_OUTBOX_EVENTS,
                vec![
                    Param::Id(tenant_id), Param::FreshId,
                    Param::Text("filebelt.v1.acl.changed"), Param::Text("node"),
                    Param::Id(resource_id), Param::I64(generation),
                    Param::Pair(tenant_id, resource_id),
                    Param::Event(
                        Envelope {
                            tenant_id: tenant_id,
                            aggregate_type: "node",
                            aggregate_id: resource_id,
                            aggregate_generation: generation as u64,
                            event_type: "filebelt.v1.acl.changed",
                            occurred_at_unix_seconds: occurred_at,
                        },
                    ),
                ],
            );
        }
        if log.len() - at <= 4 {
            return Step::Ask(Command::Commit);
        }
        Step::Done(
            DirectShareRecord {
                principal_id: target.principal_id,
                display_name: target.display_name,
                verified_email: target.verified_email,
                preset: preset.to_owned(),
                inheritance: inheritance.to_owned(),
                created_at,
            },
        )
    }

    /// `create_direct_share` runs in one transaction: it is done once its commit is acknowledged,
    /// and when it fails, nothing was committed.
    pub proof fn create_direct_share_is_atomic<'a>(
        tenant_id: Uuid, actor_principal_id: Uuid, session_id: Uuid, drive_id: Uuid,
        resource_id: Uuid, verified_email: &'a str, preset: &'a str, inheritance: &'a str,
        membership_generation: i64, drive_acl_generation: i64, namespace_generation: i64,
        resource_acl_generation: i64, log: Seq<Reply>,
    )
        ensures
            crate::step::is_atomic(
                Self::create_direct_share_script(
                    tenant_id, actor_principal_id, session_id, drive_id, resource_id,
                    verified_email, preset, inheritance, log,
                ),
                0,
            ),
            crate::step::commit_acknowledged(
                Self::create_direct_share_fault(
                    actor_principal_id, verified_email, preset, inheritance,
                    membership_generation, drive_acl_generation, namespace_generation,
                    resource_acl_generation, log.drop_last(),
                ),
                Self::create_direct_share_script(
                    tenant_id, actor_principal_id, session_id, drive_id, resource_id,
                    verified_email, preset, inheritance, log.drop_last(),
                ),
                log,
            ) ==> {
                &&& Self::create_direct_share_fault(
                    actor_principal_id, verified_email, preset, inheritance,
                    membership_generation, drive_acl_generation, namespace_generation,
                    resource_acl_generation, log,
                ) is None
                &&& log.len() == Self::create_direct_share_script(
                    tenant_id, actor_principal_id, session_id, drive_id, resource_id,
                    verified_email, preset, inheritance, log,
                ).len()
            },
    {
    }

    /// `create_direct_share` goes past its fence only where the generations that it has locked are
    /// those that the caller was authorized under.
    pub proof fn create_direct_share_is_fenced<'a>(
        actor_principal_id: Uuid, verified_email: &'a str, preset: &'a str,
        inheritance: &'a str, membership_generation: i64, drive_acl_generation: i64,
        namespace_generation: i64, resource_acl_generation: i64, log: Seq<Reply>,
    )
        ensures
            ({
                let fence =
                    log[1].required_row::<FenceGenerations>(DatabaseError::StaleGeneration)->Ok_0;
                Self::create_direct_share_fault(
                    actor_principal_id, verified_email, preset, inheritance,
                    membership_generation, drive_acl_generation, namespace_generation,
                    resource_acl_generation, log,
                ) is None && log.len() > 1
                    ==> log[1].required_row::<FenceGenerations>(
                        DatabaseError::StaleGeneration,
                    ) is Ok
                    && fence.agrees_with(
                        seq![
                            membership_generation, drive_acl_generation, namespace_generation,
                            resource_acl_generation,
                        ],
                    )
            }),
    {
    }

    /// Every statement of `create_direct_share` is about its tenant.
    pub proof fn create_direct_share_is_scoped<'a>(
        tenant_id: Uuid, actor_principal_id: Uuid, session_id: Uuid, drive_id: Uuid,
        resource_id: Uuid, verified_email: &'a str, preset: &'a str, inheritance: &'a str,
        log: Seq<Reply>,
    )
        ensures
            crate::step::is_scoped(
                Self::create_direct_share_script(
                    tenant_id, actor_principal_id, session_id, drive_id, resource_id,
                    verified_email, preset, inheritance, log,
                ),
                tenant_id,
            ),
    {
    }

    /// What stops `descendant_share_admission_open`, in order.
    pub open spec fn descendant_share_admission_open_fault(log: Seq<Reply>) -> Option<Fault> {
        if log.len() > 0 && log[0].single_row::<bool>() is Err {
            Fault::of(log[0].single_row::<bool>())
        } else {
            None
        }
    }

    /// The commands of `descendant_share_admission_open`, in order.
    pub open spec fn descendant_share_admission_open_script<'a>(
        tenant_id: Uuid,
        log: Seq<Reply>,
    ) -> Seq<CommandView<'a>> {
        seq![
            CommandView::ruled(
                sql::DESCENDANT_SHARE_ADMISSION_OPEN,
                seq![Param::Id(tenant_id)],
                Fetch::One, ErrorRule::SecurityAdmission,
            ),
        ]
    }

    /// What `descendant_share_admission_open` returns.
    pub open spec fn descendant_share_admission_open_output(log: Seq<Reply>) -> bool {
        let open = log[0].single_row::<bool>()->Ok_0;
        open
    }

    /// Whether the tenant takes new shares that reach below a node.
    pub fn descendant_share_admission_open<'a>(
        tenant_id: Uuid,
        log: &'a [Reply],
    ) -> (step: Step<'a, bool>)
        ensures
            step@ == StepView::proceed(
                Self::descendant_share_admission_open_fault(log@),
                Self::descendant_share_admission_open_script(tenant_id, log@),
                Self::descendant_share_admission_open_output(log@),
                log@,
            ),
    {
        if log.len() == 0 {
            return ask(
                sql::DESCENDANT_SHARE_ADMISSION_OPEN,
                vec![Param::Id(tenant_id)],
                Fetch::One, ErrorRule::SecurityAdmission,
            );
        }
        let open: bool = match single::<bool>(&log[0]) {
            Ok(value) => value,
            Err(fault) => return stop(fault),
        };
        Step::Done(open)
    }

    /// Every statement of `descendant_share_admission_open` is about its tenant.
    pub proof fn descendant_share_admission_open_is_scoped(tenant_id: Uuid, log: Seq<Reply>)
        ensures
            crate::step::is_scoped(
                Self::descendant_share_admission_open_script(tenant_id, log),
                tenant_id,
            ),
    {
    }

    /// What stops `revoke_direct_share`, in order.
    pub open spec fn revoke_direct_share_fault(
        membership_generation: i64, drive_acl_generation: i64, namespace_generation: i64,
        resource_acl_generation: i64, log: Seq<Reply>,
    ) -> Option<Fault> {
        let fence = log[1].required_row::<FenceGenerations>(DatabaseError::StaleGeneration)->Ok_0;
        let generation = log[5].single_row::<i64>()->Ok_0;
        if log.len() > 1
            && log[1].required_row::<FenceGenerations>(DatabaseError::StaleGeneration) is Err {
            Fault::of(log[1].required_row::<FenceGenerations>(DatabaseError::StaleGeneration))
        } else if log.len() > 1
            && !fence.agrees_with(
                seq![
                    membership_generation, drive_acl_generation, namespace_generation,
                    resource_acl_generation,
                ],
            ) {
                Some(Fault::Error(DatabaseError::StaleGeneration))
            } else if log.len() > 2 && log[2].required_row::<Uuid>(DatabaseError::NotFound) is Err {
                Fault::of(log[2].required_row::<Uuid>(DatabaseError::NotFound))
            } else if log.len() > 5 && log[5].single_row::<i64>() is Err {
                Fault::of(log[5].single_row::<i64>())
            } else if log.len() > 7 && log[7].single_row::<i64>() is Err {
                Fault::of(log[7].single_row::<i64>())
            } else if log.len() > 7 && generation < 0 {
                Some(Fault::Error(DatabaseError::InvalidPersistedValue))
            } else {
                None
            }
    }

    /// The commands of `revoke_direct_share`, in order.
    pub open spec fn revoke_direct_share_script<'a>(
        tenant_id: Uuid, actor_principal_id: Uuid, session_id: Uuid, drive_id: Uuid,
        resource_id: Uuid, target_principal_id: Uuid, log: Seq<Reply>,
    ) -> Seq<CommandView<'a>> {
        let share_id = log[2].required_row::<Uuid>(DatabaseError::NotFound)->Ok_0;
        let generation = log[5].single_row::<i64>()->Ok_0;
        let occurred_at = log[7].single_row::<i64>()->Ok_0;
        seq![
            CommandView::Begin,
            CommandView::optional(
                sql::LOCK_AUTHORIZATION_FENCE,
                seq![
                    Param::Id(tenant_id), Param::Id(session_id), Param::Id(actor_principal_id),
                    Param::Id(drive_id), Param::Id(resource_id),
                ],
            ),
            CommandView::optional(
                sql::REVOKE_DIRECT_SHARE_SELECT_DIRECT_SHARES,
                seq![
                    Param::Id(tenant_id), Param::Id(drive_id), Param::Id(resource_id),
                    Param::Id(target_principal_id),
                ],
            ),
            CommandView::execute(
                sql::REVOKE_DIRECT_SHARE_DELETE_ACL_ENTRIES,
                seq![Param::Id(tenant_id), Param::Id(share_id)],
            ),
            CommandView::execute(
                sql::REVOKE_DIRECT_SHARE_UPDATE_DIRECT_SHARES,
                seq![Param::Id(tenant_id), Param::Id(share_id)],
            ),
            CommandView::one(
                sql::REPLACE_ADVANCED_ACL_ENTRIES_SELECT_NODES,
                seq![Param::Id(tenant_id), Param::Id(drive_id), Param::Id(resource_id)],
            ),
            CommandView::execute(
                sql::INSERT_AUDIT,
                seq![
                    Param::Id(tenant_id), Param::FreshId,
                    Param::OptId(Some(actor_principal_id)),
                    Param::OptId(Some(target_principal_id)), Param::OptId(Some(resource_id)),
                    Param::Text("share.revoke"), Param::Text("allowed"),
                    Param::Text("share_allowed"), Param::Bool(true), Param::Object0,
                ],
            ),
            CommandView::one(sql::INSERT_OUTBOX_SELECT_VALUE, seq![]),
            CommandView::execute(
                sql::INSERT_OUTBOX_INSERT_OUTBOX_EVENTS,
                seq![
                    Param::Id(tenant_id), Param::FreshId,
                    Param::Text("filebelt.v1.acl.changed"), Param::Text("node"),
                    Param::Id(resource_id), Param::I64(generation),
                    Param::Pair(tenant_id, resource_id),
                    Param::Event(
                        Envelope {
                            tenant_id: tenant_id,
                            aggregate_type: "node",
                            aggregate_id: resource_id,
                            aggregate_generation: generation as u64,
                            event_type: "filebelt.v1.acl.changed",
                            occurred_at_unix_seconds: occurred_at,
                        },
                    ),
                ],
            ),
            CommandView::Commit,
        ]
    }

    /// Ends the share of a node with a user, and its entries with it.
    pub fn revoke_direct_share<'a>(
        tenant_id: Uuid, actor_principal_id: Uuid, session_id: Uuid, drive_id: Uuid,
        resource_id: Uuid, target_principal_id: Uuid, membership_generation: i64,
        drive_acl_generation: i64, namespace_generation: i64, resource_acl_generation: i64,
        log: &'a [Reply],
    ) -> (step: Step<'a, ()>)
        ensures
            step@ == StepView::proceed(
                Self::revoke_direct_share_fault(
                    membership_generation, drive_acl_generation, namespace_generation,
                    resource_acl_generation, log@,
                ),
                Self::revoke_direct_share_script(
                    tenant_id, actor_principal_id, session_id, drive_id, resource_id,
                    target_principal_id, log@,
                ),
                (),
                log@,
            ),
    {
        if log.len() == 0 {
            return Step::Ask(Command::Begin);
        }
        if log.len() <= 1 {
            return ask_optional(
                sql::LOCK_AUTHORIZATION_FENCE,
                vec![
                    Param::Id(tenant_id), Param::Id(session_id), Param::Id(actor_principal_id),
                    Param::Id(drive_id), Param::Id(resource_id),
                ],
            );
        }
        let fence: FenceGenerations = match required(&log[1], DatabaseError::StaleGeneration) {
            Ok(value) => value,
            Err(fault) => return stop(fault),
        };
        if !fence.agree(
            [
                membership_generation, drive_acl_generation, namespace_generation,
                resource_acl_generation,
            ],
        ) {
            return Step::Fail(DatabaseError::StaleGeneration);
        }
        if log.len() <= 2 {
            return ask_optional(
                sql::REVOKE_DIRECT_SHARE_SELECT_DIRECT_SHARES,
                vec![
                    Param::Id(tenant_id), Param::Id(drive_id), Param::Id(resource_id),
                    Param::Id(target_principal_id),
                ],
            );
        }
        let share_id: Uuid = match required::<Uuid>(&log[2], DatabaseError::NotFound) {
            Ok(value) => value,
            Err(fault) => return stop(fault),
        };
        if log.len() <= 3 {
            return ask_execute(
                sql::REVOKE_DIRECT_SHARE_DELETE_ACL_ENTRIES,
                vec![Param::Id(tenant_id), Param::Id(share_id)],
            );
        }
        if log.len() <= 4 {
            return ask_execute(
                sql::REVOKE_DIRECT_SHARE_UPDATE_DIRECT_SHARES,
                vec![Param::Id(tenant_id), Param::Id(share_id)],
            );
        }
        if log.len() <= 5 {
            return ask_one(
                sql::REPLACE_ADVANCED_ACL_ENTRIES_SELECT_NODES,
                vec![Param::Id(tenant_id), Param::Id(drive_id), Param::Id(resource_id)],
            );
        }
        let generation: i64 = match single::<i64>(&log[5]) {
            Ok(value) => value,
            Err(fault) => return stop(fault),
        };
        if log.len() <= 6 {
            return ask_execute(
                sql::INSERT_AUDIT,
                vec![
                    Param::Id(tenant_id), Param::FreshId,
                    Param::OptId(Some(actor_principal_id)),
                    Param::OptId(Some(target_principal_id)), Param::OptId(Some(resource_id)),
                    Param::Text("share.revoke"), Param::Text("allowed"),
                    Param::Text("share_allowed"), Param::Bool(true), Param::Object0,
                ],
            );
        }
        if log.len() <= 7 {
            return ask_one(sql::INSERT_OUTBOX_SELECT_VALUE, vec![]);
        }
        let occurred_at: i64 = match single::<i64>(&log[7]) {
            Ok(value) => value,
            Err(fault) => return stop(fault),
        };
        if generation < 0 {
            return Step::Fail(DatabaseError::InvalidPersistedValue);
        }
        if log.len() <= 8 {
            return ask_execute(
                sql::INSERT_OUTBOX_INSERT_OUTBOX_EVENTS,
                vec![
                    Param::Id(tenant_id), Param::FreshId,
                    Param::Text("filebelt.v1.acl.changed"), Param::Text("node"),
                    Param::Id(resource_id), Param::I64(generation),
                    Param::Pair(tenant_id, resource_id),
                    Param::Event(
                        Envelope {
                            tenant_id: tenant_id,
                            aggregate_type: "node",
                            aggregate_id: resource_id,
                            aggregate_generation: generation as u64,
                            event_type: "filebelt.v1.acl.changed",
                            occurred_at_unix_seconds: occurred_at,
                        },
                    ),
                ],
            );
        }
        if log.len() <= 9 {
            return Step::Ask(Command::Commit);
        }
        Step::Done(())
    }

    /// `revoke_direct_share` runs in one transaction: it is done once its commit is acknowledged,
    /// and when it fails, nothing was committed.
    pub proof fn revoke_direct_share_is_atomic(
        tenant_id: Uuid, actor_principal_id: Uuid, session_id: Uuid, drive_id: Uuid,
        resource_id: Uuid, target_principal_id: Uuid, membership_generation: i64,
        drive_acl_generation: i64, namespace_generation: i64, resource_acl_generation: i64,
        log: Seq<Reply>,
    )
        ensures
            crate::step::is_atomic(
                Self::revoke_direct_share_script(
                    tenant_id, actor_principal_id, session_id, drive_id, resource_id,
                    target_principal_id, log,
                ),
                0,
            ),
            crate::step::commit_acknowledged(
                Self::revoke_direct_share_fault(
                    membership_generation, drive_acl_generation, namespace_generation,
                    resource_acl_generation, log.drop_last(),
                ),
                Self::revoke_direct_share_script(
                    tenant_id, actor_principal_id, session_id, drive_id, resource_id,
                    target_principal_id, log.drop_last(),
                ),
                log,
            ) ==> {
                &&& Self::revoke_direct_share_fault(
                    membership_generation, drive_acl_generation, namespace_generation,
                    resource_acl_generation, log,
                ) is None
                &&& log.len() == Self::revoke_direct_share_script(
                    tenant_id, actor_principal_id, session_id, drive_id, resource_id,
                    target_principal_id, log,
                ).len()
            },
    {
    }

    /// `revoke_direct_share` goes past its fence only where the generations that it has locked are
    /// those that the caller was authorized under.
    pub proof fn revoke_direct_share_is_fenced(
        membership_generation: i64, drive_acl_generation: i64, namespace_generation: i64,
        resource_acl_generation: i64, log: Seq<Reply>,
    )
        ensures
            ({
                let fence =
                    log[1].required_row::<FenceGenerations>(DatabaseError::StaleGeneration)->Ok_0;
                Self::revoke_direct_share_fault(
                    membership_generation, drive_acl_generation, namespace_generation,
                    resource_acl_generation, log,
                ) is None && log.len() > 1
                    ==> log[1].required_row::<FenceGenerations>(
                        DatabaseError::StaleGeneration,
                    ) is Ok
                    && fence.agrees_with(
                        seq![
                            membership_generation, drive_acl_generation, namespace_generation,
                            resource_acl_generation,
                        ],
                    )
            }),
    {
    }

    /// Every statement of `revoke_direct_share` is about its tenant.
    pub proof fn revoke_direct_share_is_scoped(
        tenant_id: Uuid, actor_principal_id: Uuid, session_id: Uuid, drive_id: Uuid,
        resource_id: Uuid, target_principal_id: Uuid, log: Seq<Reply>,
    )
        ensures
            crate::step::is_scoped(
                Self::revoke_direct_share_script(
                    tenant_id, actor_principal_id, session_id, drive_id, resource_id,
                    target_principal_id, log,
                ),
                tenant_id,
            ),
    {
    }

}

/// A viewer can do nothing that a contributor cannot, a contributor nothing that a manager
/// cannot, and a manager alone shares and changes entries.
pub proof fn presets_are_nested()
    ensures
        ({
            let viewer = preset_actions("viewer"@)->Ok_0;
            let contributor = preset_actions("contributor"@)->Ok_0;
            let manager = preset_actions("manager"@)->Ok_0;
            &&& all_named(texts(viewer), texts(contributor))
            &&& all_named(texts(contributor), texts(manager))
            &&& texts(manager).contains("SHARE"@) && !texts(contributor).contains("SHARE"@)
            &&& texts(manager).contains(MANAGE_ACL@) && !texts(contributor).contains(MANAGE_ACL@)
        }),
{
    reveal_strlit("viewer");
    reveal_strlit("contributor");
    reveal_strlit("manager");
    assert("viewer"@.len() == 6);
    assert("contributor"@.len() == 11);
    assert("manager"@.len() == 7);
    let viewer = preset_actions("viewer"@)->Ok_0;
    let contributor = preset_actions("contributor"@)->Ok_0;
    let manager = preset_actions("manager"@)->Ok_0;
    assert forall|i: int| 0 <= i < texts(viewer).len() implies texts(contributor).contains(
        #[trigger] texts(viewer)[i],
    ) by {
        assert(texts(contributor)[if i == 3 { 11 } else { i }] == texts(viewer)[i]);
    }
    assert forall|i: int| 0 <= i < texts(contributor).len() implies texts(manager).contains(
        #[trigger] texts(contributor)[i],
    ) by {
        assert(texts(manager)[if i < 11 { i } else { i + 2 }] == texts(contributor)[i]);
    }
    assert(texts(manager)[11] == "SHARE"@);
    assert(texts(manager)[12] == MANAGE_ACL@);
    reveal_strlit("READ_METADATA");
    reveal_strlit("LIST_CHILDREN");
    reveal_strlit("READ_CONTENT");
    reveal_strlit("CREATE_CHILD");
    reveal_strlit("WRITE_CONTENT");
    reveal_strlit("CREATE_VERSION");
    reveal_strlit("RENAME");
    reveal_strlit("MOVE");
    reveal_strlit("DELETE");
    reveal_strlit("RESTORE");
    reveal_strlit("SET_ATTRIBUTES");
    reveal_strlit("USE_EXTERNAL_EDITOR");
    reveal_strlit("COMMENT");
    reveal_strlit("REVIEW");
    reveal_strlit("SHARE");
    reveal_strlit("MANAGE_ACL");
    assert forall|i: int| 0 <= i < texts(contributor).len() implies texts(contributor)[i]
        != "SHARE"@ by {
        assert(texts(contributor)[i].len() != 5);
    }
    assert forall|i: int| 0 <= i < texts(contributor).len() implies texts(contributor)[i]
        != MANAGE_ACL@ by {
        assert(texts(contributor)[i].len() != 10);
    }
}

} // verus!
