//! Entity identifiers.

use vstd::arithmetic::div_mod::*;
use vstd::arithmetic::power::*;
use vstd::prelude::*;

verus! {

/// A 128-bit entity identifier.
#[derive(Clone, Copy, Debug, PartialEq, Eq, Structural)]
pub struct Uuid {
    pub value: u128,
}

/// The hexadecimal digit of `value` at `place`, where place 0 is the most significant of 32.
pub open spec fn hex_digit(value: u128, place: int) -> int {
    (value as int / pow(16, (31 - place) as nat)) % 16
}

/// The lower-case character of a hexadecimal digit.
pub open spec fn hex_char(digit: int) -> char {
    if digit < 10 {
        (48 + digit) as char
    } else {
        (87 + digit) as char
    }
}

/// Whether an identifier's text has a hyphen at this position.
pub open spec fn is_hyphen_at(i: int) -> bool {
    i == 8 || i == 13 || i == 18 || i == 23
}

/// The place of the hexadecimal digit that stands at position `i` of an identifier's text.
pub open spec fn digit_place(i: int) -> int {
    if i < 8 {
        i
    } else if i < 13 {
        i - 1
    } else if i < 18 {
        i - 2
    } else if i < 23 {
        i - 3
    } else {
        i - 4
    }
}

/// The canonical text of an identifier: 32 lower-case hexadecimal digits in groups of
/// 8, 4, 4, 4 and 12, with hyphens between them.
pub open spec fn hyphenated(value: u128) -> Seq<char> {
    Seq::new(
        36,
        |i: int|
            if is_hyphen_at(i) {
                '-'
            } else {
                hex_char(hex_digit(value, digit_place(i)))
            },
    )
}

/// Whether an identifier is marked as a random one: version 4, in the standard variant.
pub open spec fn is_random_id(value: u128) -> bool {
    hex_digit(value, 12) == 4 && 8 <= hex_digit(value, 16) <= 11
}

/// `uuid::Uuid::to_string`: the hyphenated lower-case text of the identifier whose big-endian
/// value is `value`.
#[verifier::external_body]
fn uuid_text(value: u128) -> (text: String)
    ensures
        text@ == hyphenated(value),
{
    uuid::Uuid::from_u128(value).to_string()
}

/// `uuid::Uuid::new_v4`: a new identifier from the operating system's source of randomness.
/// Which one is left open; every one carries the mark of a random identifier.
#[verifier::external_body]
fn random_uuid() -> (value: u128)
    ensures
        is_random_id(value),
{
    uuid::Uuid::new_v4().as_u128()
}

impl Uuid {
    /// The identifier with all bits zero, which names no entity.
    pub fn nil() -> (id: Uuid)
        ensures
            id.value == 0,
    {
        Uuid { value: 0 }
    }

    /// Draws a new random identifier.
    pub fn new_v4() -> (id: Uuid)
        ensures
            is_random_id(id.value),
    {
        Uuid { value: random_uuid() }
    }

    /// The identifier's canonical text.
    pub fn text(self) -> (text: String)
        ensures
            text@ == hyphenated(self.value),
    {
        uuid_text(self.value)
    }
}

/// Draws `count` new random identifiers.
pub fn draw_ids(count: usize) -> (ids: Vec<Uuid>)
    ensures
        ids@.len() == count,
        forall|i: int| 0 <= i < count ==> is_random_id((#[trigger] ids@[i]).value),
{
    let mut ids: Vec<Uuid> = Vec::new();
    while ids.len() < count
        invariant
            ids@.len() <= count,
            forall|i: int| 0 <= i < ids@.len() ==> is_random_id((#[trigger] ids@[i]).value),
        decreases count - ids@.len(),
    {
        ids.push(Uuid::new_v4());
    }
    ids
}

/// The text of a label: a prefix, then an identifier.
pub open spec fn label_text(prefix: Seq<char>, id: Uuid) -> Seq<char> {
    prefix + hyphenated(id.value)
}

/// Writes a label: a prefix, then an identifier.
pub fn render_label(prefix: &str, id: Uuid) -> (text: String)
    ensures
        text@ == label_text(prefix@, id),
{
    let mut text: String = prefix.to_owned();
    text.append(id.text().as_str());
    text
}

/// The text of two identifiers with a colon between them.
pub open spec fn pair_text(left: Uuid, right: Uuid) -> Seq<char> {
    hyphenated(left.value) + seq![':'] + hyphenated(right.value)
}

/// The text of an identifier, a colon and a name.
pub open spec fn scoped_text(scope: Uuid, name: Seq<char>) -> Seq<char> {
    hyphenated(scope.value) + seq![':'] + name
}

/// Writes an identifier, a colon and a name.
pub fn render_scoped(scope: Uuid, name: &str) -> (text: String)
    ensures
        text@ == scoped_text(scope, name@),
{
    let mut text: String = scope.text();
    text.append(":");
    text.append(name);
    proof {
        reveal_strlit(":");
        assert(":"@ =~= seq![':']);
    }
    text
}

/// Writes two identifiers with a colon between them.
pub fn render_pair(left: Uuid, right: Uuid) -> (text: String)
    ensures
        text@ == pair_text(left, right),
{
    let mut text: String = left.text();
    text.append(":");
    text.append(right.text().as_str());
    proof {
        reveal_strlit(":");
        assert(":"@ =~= seq![':']);
    }
    text
}

/// The position of the digit at `place` in an identifier's text.
spec fn position_of(place: int) -> int {
    if place < 8 {
        place
    } else if place < 12 {
        place + 1
    } else if place < 16 {
        place + 2
    } else if place < 20 {
        place + 3
    } else {
        place + 4
    }
}

proof fn lemma_pow_16_32()
    ensures
        pow(16, 32) == 0x1_0000_0000_0000_0000_0000_0000_0000_0000int,
{
    lemma_pow1(16);
    lemma_pow_adds(16, 1, 1);
    assert(pow(16, 2) == 256);
    lemma_pow_adds(16, 2, 2);
    assert(pow(16, 4) == 0x1_0000int) by (nonlinear_arith)
        requires
            pow(16, 2) == 256,
            pow(16, 4) == pow(16, 2) * pow(16, 2),
    ;
    lemma_pow_adds(16, 4, 4);
    assert(pow(16, 8) == 0x1_0000_0000int) by (nonlinear_arith)
        requires
            pow(16, 4) == 0x1_0000int,
            pow(16, 8) == pow(16, 4) * pow(16, 4),
    ;
    lemma_pow_adds(16, 8, 8);
    assert(pow(16, 16) == 0x1_0000_0000_0000_0000int) by (nonlinear_arith)
        requires
            pow(16, 8) == 0x1_0000_0000int,
            pow(16, 16) == pow(16, 8) * pow(16, 8),
    ;
    lemma_pow_adds(16, 16, 16);
    assert(pow(16, 32) == 0x1_0000_0000_0000_0000_0000_0000_0000_0000int) by (nonlinear_arith)
        requires
            pow(16, 16) == 0x1_0000_0000_0000_0000int,
            pow(16, 32) == pow(16, 16) * pow(16, 16),
    ;
}

proof fn lemma_digits_determine(a: u128, b: u128, low: nat)
    requires
        low <= 32,
        forall|place: int| 0 <= place < 32
            ==> #[trigger] hex_digit(a, place) == hex_digit(b, place),
    ensures
        a as int / pow(16, low) == b as int / pow(16, low),
    decreases 32 - low,
{
    lemma_pow_positive(16, low);
    if low == 32 {
        lemma_pow_16_32();
        lemma_basic_div(a as int, pow(16, 32));
        lemma_basic_div(b as int, pow(16, 32));
    } else {
        lemma_digits_determine(a, b, low + 1);
        lemma_pow1(16);
        lemma_pow_adds(16, low, 1);
        lemma_div_denominator(a as int, pow(16, low), 16);
        lemma_div_denominator(b as int, pow(16, low), 16);
        let high_a = a as int / pow(16, low);
        let high_b = b as int / pow(16, low);
        lemma_fundamental_div_mod(high_a, 16);
        lemma_fundamental_div_mod(high_b, 16);
        assert(hex_digit(a, 31 - low) == high_a % 16);
        assert(hex_digit(b, 31 - low) == high_b % 16);
    }
}

/// Two identifiers with the same text are the same identifier.
pub proof fn identifiers_have_distinct_texts(left: Uuid, right: Uuid)
    requires
        hyphenated(left.value) == hyphenated(right.value),
    ensures
        left == right,
{
    let a = left.value;
    let b = right.value;
    assert forall|place: int| 0 <= place < 32 implies #[trigger] hex_digit(a, place) == hex_digit(
        b,
        place,
    ) by {
        let i = position_of(place);
        assert(digit_place(i) == place && !is_hyphen_at(i));
        assert(hyphenated(a)[i] == hex_char(hex_digit(a, place)));
        assert(hyphenated(b)[i] == hex_char(hex_digit(b, place)));
    }
    lemma_digits_determine(a, b, 0);
    lemma_pow0(16);
}

/// Labels with the same prefix are the same only where they are of the same identifier, so that
/// work which is queued under one is queued once for each.
pub proof fn labels_are_distinct(prefix: Seq<char>, left: Uuid, right: Uuid)
    requires
        label_text(prefix, left) == label_text(prefix, right),
    ensures
        left == right,
{
    let a = label_text(prefix, left);
    let b = label_text(prefix, right);
    assert(hyphenated(left.value) =~= a.skip(prefix.len() as int));
    assert(hyphenated(right.value) =~= b.skip(prefix.len() as int));
    identifiers_have_distinct_texts(left, right);
}

/// Pairs with the same text are of the same two identifiers, in the same order.
pub proof fn pairs_are_distinct(left: (Uuid, Uuid), right: (Uuid, Uuid))
    requires
        pair_text(left.0, left.1) == pair_text(right.0, right.1),
    ensures
        left == right,
{
    let a = pair_text(left.0, left.1);
    let b = pair_text(right.0, right.1);
    assert(hyphenated(left.0.value) =~= a.take(36));
    assert(hyphenated(right.0.value) =~= b.take(36));
    assert(hyphenated(left.1.value) =~= a.skip(37));
    assert(hyphenated(right.1.value) =~= b.skip(37));
    identifiers_have_distinct_texts(left.0, right.0);
    identifiers_have_distinct_texts(left.1, right.1);
}

/// Scoped names with the same text are of the same scope and the same name.
pub proof fn scoped_names_are_distinct(
    left: Uuid,
    left_name: Seq<char>,
    right: Uuid,
    right_name: Seq<char>,
)
    requires
        scoped_text(left, left_name) == scoped_text(right, right_name),
    ensures
        left == right,
        left_name == right_name,
{
    let a = scoped_text(left, left_name);
    let b = scoped_text(right, right_name);
    assert(hyphenated(left.value) =~= a.take(36));
    assert(hyphenated(right.value) =~= b.take(36));
    assert(left_name =~= a.skip(37));
    assert(right_name =~= b.skip(37));
    identifiers_have_distinct_texts(left, right);
}

} // verus!
