//! Capability documents: which capabilities a discovered document lists.

use vstd::prelude::*;

use crate::json::Json;
use crate::text::sized;

verus! {

/// A capability that a document lists, with the digest of its descriptor.
#[derive(Clone, Copy, Debug)]
pub struct CapabilityRow<'a> {
    pub primitive: &'static str,
    pub name: &'a String,
    pub read_only_hint: Option<bool>,
    pub fingerprint: &'a [u8; 32],
    pub descriptor: &'a Json,
}

/// The capabilities that are stored of a document, and whether those are all that it lists: the
/// first one that is refused ends the list.
#[derive(Debug)]
pub struct CapabilityPlan<'a> {
    pub rows: Vec<CapabilityRow<'a>>,
    pub complete: bool,
}

/// What a [`CapabilityPlan`] holds.
#[verifier::ext_equal]
pub struct CapabilityPlanView<'a> {
    pub rows: Seq<CapabilityRow<'a>>,
    pub complete: bool,
}

impl<'a> View for CapabilityPlan<'a> {
    type V = CapabilityPlanView<'a>;

    open spec fn view(&self) -> CapabilityPlanView<'a> {
        CapabilityPlanView { rows: self.rows@, complete: self.complete }
    }
}

/// The list of descriptors that a document has under a key, inside the member of the same key.
pub open spec fn descriptors_spec(document: Json, key: Seq<char>) -> Option<Vec<Json>> {
    match document.path_spec(key, key) {
        Some(list) => list.as_array_spec(),
        None => None,
    }
}

/// The list of descriptors that a document has under a key.
pub fn descriptors<'a>(document: &'a Json, key: &str) -> (r: Option<&'a Vec<Json>>)
    ensures
        r == (match descriptors_spec(*document, key@) {
            Some(list) => Some(&list),
            None => None,
        }),
{
    match document.path(key, key) {
        Some(list) => list.as_array(),
        None => None,
    }
}

/// Whether a descriptor says that its tool only reads.
pub open spec fn read_only_hint_spec(descriptor: Json) -> Option<bool> {
    match descriptor.path_spec("annotations"@, "readOnlyHint"@) {
        Some(hint) => hint.as_bool_spec(),
        None => None,
    }
}

/// Whether a descriptor says that its tool only reads.
pub fn read_only_hint(descriptor: &Json) -> (r: Option<bool>)
    ensures
        r == read_only_hint_spec(*descriptor),
{
    match descriptor.path("annotations", "readOnlyHint") {
        Some(hint) => hint.as_bool(),
        None => None,
    }
}

/// The name that a descriptor gives.
pub open spec fn name_spec(descriptor: Json) -> Option<String> {
    match descriptor.get_spec("name"@) {
        Some(name) => name.as_text_spec(),
        None => None,
    }
}

/// The name that a descriptor gives.
pub fn name<'a>(descriptor: &'a Json) -> (r: Option<&'a String>)
    ensures
        r == (match name_spec(*descriptor) {
            Some(name) => Some(&name),
            None => None,
        }),
{
    match descriptor.get("name") {
        Some(name) => name.as_text(),
        None => None,
    }
}

/// The capability that a descriptor describes. It needs a name and a digest; where the rules are
/// strict the name is neither empty nor too long, and a tool has to say that it only reads.
pub open spec fn capability_row<'a>(
    strict: bool,
    tool: bool,
    primitive: &'static str,
    descriptor: Json,
    fingerprint: Option<&'a [u8; 32]>,
) -> Option<CapabilityRow<'a>> {
    let name = name_spec(descriptor);
    let hint = read_only_hint_spec(descriptor);
    if name is None || fingerprint is None {
        None
    } else if strict && (!crate::text::is_sized(name->0@, 1, 255) || (tool && hint != Some(true))) {
        None
    } else {
        Some(
            CapabilityRow {
                primitive,
                name: &name->0,
                read_only_hint: hint,
                fingerprint: fingerprint->0,
                descriptor: &descriptor,
            },
        )
    }
}

/// The capability that a descriptor describes.
pub fn read_capability<'a>(
    strict: bool,
    tool: bool,
    primitive: &'static str,
    descriptor: &'a Json,
    fingerprint: Option<&'a [u8; 32]>,
) -> (r: Option<CapabilityRow<'a>>)
    ensures
        r == capability_row(strict, tool, primitive, *descriptor, fingerprint),
{
    let hint: Option<bool> = read_only_hint(descriptor);
    match (name(descriptor), fingerprint) {
        (Some(name), Some(fingerprint)) => {
            if strict && (!sized(name.as_str(), 1, 255) || (tool && hint != Some(true))) {
                None
            } else {
                Some(
                    CapabilityRow {
                        primitive,
                        name,
                        read_only_hint: hint,
                        fingerprint,
                        descriptor,
                    },
                )
            }
        },
        _ => None,
    }
}

/// The digest at a position, where there is one.
pub open spec fn digest_at<'a>(
    fingerprints: Seq<Option<&'a [u8; 32]>>,
    at: int,
) -> Option<&'a [u8; 32]> {
    if 0 <= at < fingerprints.len() {
        fingerprints[at]
    } else {
        None
    }
}

/// The capabilities of a list of descriptors, up to the first that is refused. The digests of
/// the list begin at `offset`.
pub open spec fn accepted<'a>(
    strict: bool,
    tool: bool,
    primitive: &'static str,
    descriptors: Seq<Json>,
    fingerprints: Seq<Option<&'a [u8; 32]>>,
    offset: int,
) -> Seq<CapabilityRow<'a>>
    decreases descriptors.len(),
{
    if descriptors.len() == 0 {
        Seq::empty()
    } else {
        let last = descriptors.len() - 1;
        let rows = accepted(strict, tool, primitive, descriptors.drop_last(), fingerprints, offset);
        let row = capability_row(
            strict,
            tool,
            primitive,
            descriptors[last],
            digest_at(fingerprints, offset + last),
        );
        if rows.len() == last && row is Some {
            rows.push(row->0)
        } else {
            rows
        }
    }
}

/// Once a descriptor is refused, those after it change nothing.
proof fn lemma_accepted_stops<'a>(
    strict: bool,
    tool: bool,
    primitive: &'static str,
    descriptors: Seq<Json>,
    fingerprints: Seq<Option<&'a [u8; 32]>>,
    offset: int,
    at: int,
)
    requires
        0 <= at <= descriptors.len(),
        accepted(strict, tool, primitive, descriptors.take(at), fingerprints, offset).len() < at,
    ensures
        accepted(strict, tool, primitive, descriptors, fingerprints, offset) == accepted(
            strict,
            tool,
            primitive,
            descriptors.take(at),
            fingerprints,
            offset,
        ),
    decreases descriptors.len() - at,
{
    if at < descriptors.len() {
        assert(descriptors.take(at + 1).drop_last() =~= descriptors.take(at));
        lemma_accepted_stops(strict, tool, primitive, descriptors, fingerprints, offset, at + 1);
    } else {
        assert(descriptors.take(at) =~= descriptors);
    }
}

/// A plan with the capabilities of one more list. A missing list is refused where the rules are
/// strict, and else empty.
pub open spec fn extended<'a>(
    strict: bool,
    plan: CapabilityPlanView<'a>,
    tool: bool,
    primitive: &'static str,
    list: Option<Vec<Json>>,
    fingerprints: Seq<Option<&'a [u8; 32]>>,
) -> CapabilityPlanView<'a> {
    if !plan.complete {
        plan
    } else {
        match list {
            None => CapabilityPlanView { rows: plan.rows, complete: !strict },
            Some(list) => {
                let rows = accepted(
                    strict,
                    tool,
                    primitive,
                    list@,
                    fingerprints,
                    plan.rows.len() as int,
                );
                CapabilityPlanView {
                    rows: plan.rows.add(rows),
                    complete: rows.len() == list@.len(),
                }
            },
        }
    }
}

/// What is stored of a document: its tools, then its resources, then its prompts. `fingerprints`
/// has the digest of each descriptor in that order, or nothing where it has none.
pub open spec fn plan_spec<'a>(
    strict: bool,
    document: Json,
    fingerprints: Seq<Option<&'a [u8; 32]>>,
) -> CapabilityPlanView<'a> {
    let none = CapabilityPlanView { rows: Seq::empty(), complete: true };
    let tools = extended(
        strict,
        none,
        true,
        "tool_call",
        descriptors_spec(document, "tools"@),
        fingerprints,
    );
    let resources = extended(
        strict,
        tools,
        false,
        "resource_read",
        descriptors_spec(document, "resources"@),
        fingerprints,
    );
    extended(
        strict,
        resources,
        false,
        "prompt_get",
        descriptors_spec(document, "prompts"@),
        fingerprints,
    )
}

/// Adds the capabilities of one more list to a plan.
fn extend<'a>(
    strict: bool,
    plan: CapabilityPlan<'a>,
    tool: bool,
    primitive: &'static str,
    list: Option<&'a Vec<Json>>,
    fingerprints: &'a [Option<&'a [u8; 32]>],
) -> (r: CapabilityPlan<'a>)
    ensures
        r@ == extended(
            strict,
            plan@,
            tool,
            primitive,
            match list {
                Some(list) => Some(*list),
                None => None,
            },
            fingerprints@,
        ),
{
    if !plan.complete {
        return plan;
    }
    let items: &'a Vec<Json> = match list {
        Some(items) => items,
        None => return CapabilityPlan { rows: plan.rows, complete: !strict },
    };
    let ghost before = plan.rows@;
    let ghost offset = plan.rows@.len() as int;
    let mut rows: Vec<CapabilityRow<'a>> = plan.rows;
    let mut at: usize = 0;
    while at < items.len()
        invariant
            at <= items@.len(),
            offset == before.len(),
            before == plan@.rows,
            plan@.complete,
            list == Some(items),
            accepted(strict, tool, primitive, items@.take(at as int), fingerprints@, offset).len()
                == at,
            rows@ == before.add(
                accepted(strict, tool, primitive, items@.take(at as int), fingerprints@, offset),
            ),
        decreases items@.len() - at,
    {
        let ghost done = accepted(
            strict,
            tool,
            primitive,
            items@.take(at as int),
            fingerprints@,
            offset,
        );
        proof {
            assert(items@.take(at + 1).drop_last() =~= items@.take(at as int));
            assert(items@.take(at + 1)[at as int] == items@[at as int]);
        }
        let fingerprint: Option<&'a [u8; 32]> = if rows.len() < fingerprints.len() {
            fingerprints[rows.len()]
        } else {
            None
        };
        match read_capability(strict, tool, primitive, &items[at], fingerprint) {
            Some(row) => {
                rows.push(row);
                assert(rows@ =~= before.add(done.push(row)));
            },
            None => {
                proof {
                    lemma_accepted_stops(
                        strict,
                        tool,
                        primitive,
                        items@,
                        fingerprints@,
                        offset,
                        at + 1,
                    );
                }
                return CapabilityPlan { rows, complete: false };
            },
        }
        at = at + 1;
    }
    assert(items@.take(at as int) =~= items@);
    CapabilityPlan { rows, complete: true }
}

/// What is stored of a document.
pub fn plan<'a>(
    strict: bool,
    document: &'a Json,
    fingerprints: &'a [Option<&'a [u8; 32]>],
) -> (r: CapabilityPlan<'a>)
    ensures
        r@ == plan_spec(strict, *document, fingerprints@),
{
    let none: CapabilityPlan<'a> = CapabilityPlan { rows: Vec::new(), complete: true };
    let tools: CapabilityPlan<'a> = extend(
        strict,
        none,
        true,
        "tool_call",
        descriptors(document, "tools"),
        fingerprints,
    );
    let resources: CapabilityPlan<'a> = extend(
        strict,
        tools,
        false,
        "resource_read",
        descriptors(document, "resources"),
        fingerprints,
    );
    extend(strict, resources, false, "prompt_get", descriptors(document, "prompts"), fingerprints)
}

/// Under the strict rules every stored tool says that it only reads, and every stored name is of
/// a fitting size.
pub proof fn strict_plans_hold_read_only_tools<'a>(
    document: Json,
    fingerprints: Seq<Option<&'a [u8; 32]>>,
)
    ensures
        forall|i: int|
            0 <= i < plan_spec(true, document, fingerprints).rows.len() ==> {
                let row = #[trigger] plan_spec(true, document, fingerprints).rows[i];
                &&& row.primitive == "tool_call" ==> row.read_only_hint == Some(true)
                &&& crate::text::is_sized(row.name@, 1, 255)
            },
{
    reveal_strlit("tool_call");
    reveal_strlit("resource_read");
    reveal_strlit("prompt_get");
    assert("tool_call"@.len() == 9);
    assert("resource_read"@.len() == 13);
    assert("prompt_get"@.len() == 10);
    let none = CapabilityPlanView::<'a> { rows: Seq::empty(), complete: true };
    let tools = extended(
        true,
        none,
        true,
        "tool_call",
        descriptors_spec(document, "tools"@),
        fingerprints,
    );
    lemma_extended_rows(
        none, true, "tool_call", descriptors_spec(document, "tools"@), fingerprints,
    );
    let resources = extended(
        true,
        tools,
        false,
        "resource_read",
        descriptors_spec(document, "resources"@),
        fingerprints,
    );
    lemma_extended_rows(
        tools,
        false,
        "resource_read",
        descriptors_spec(document, "resources"@),
        fingerprints,
    );
    lemma_extended_rows(
        resources,
        false,
        "prompt_get",
        descriptors_spec(document, "prompts"@),
        fingerprints,
    );
}

proof fn lemma_accepted_rows<'a>(
    tool: bool,
    primitive: &'static str,
    descriptors: Seq<Json>,
    fingerprints: Seq<Option<&'a [u8; 32]>>,
    offset: int,
)
    ensures
        forall|i: int|
            0 <= i < accepted(true, tool, primitive, descriptors, fingerprints, offset).len() ==> {
                let row = #[trigger] accepted(
                    true,
                    tool,
                    primitive,
                    descriptors,
                    fingerprints,
                    offset,
                )[i];
                &&& row.primitive == primitive
                &&& tool ==> row.read_only_hint == Some(true)
                &&& crate::text::is_sized(row.name@, 1, 255)
            },
    decreases descriptors.len(),
{
    if descriptors.len() > 0 {
        lemma_accepted_rows(tool, primitive, descriptors.drop_last(), fingerprints, offset);
    }
}

proof fn lemma_extended_rows<'a>(
    plan: CapabilityPlanView<'a>,
    tool: bool,
    primitive: &'static str,
    list: Option<Vec<Json>>,
    fingerprints: Seq<Option<&'a [u8; 32]>>,
)
    requires
        tool || primitive != "tool_call",
        forall|i: int|
            0 <= i < plan.rows.len() ==> {
                let row = #[trigger] plan.rows[i];
                &&& row.primitive == "tool_call" ==> row.read_only_hint == Some(true)
                &&& crate::text::is_sized(row.name@, 1, 255)
            },
    ensures
        forall|i: int|
            0 <= i < extended(true, plan, tool, primitive, list, fingerprints).rows.len() ==> {
                let row = #[trigger] extended(
                    true,
                    plan,
                    tool,
                    primitive,
                    list,
                    fingerprints,
                ).rows[i];
                &&& row.primitive == "tool_call" ==> row.read_only_hint == Some(true)
                &&& crate::text::is_sized(row.name@, 1, 255)
            },
{
    match list {
        Some(list) => {
            lemma_accepted_rows(tool, primitive, list@, fingerprints, plan.rows.len() as int);
        },
        None => {},
    }
}

} // verus!
