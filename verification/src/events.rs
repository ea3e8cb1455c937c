//! Versioned structured events for simulation truth and persistence.

use vstd::prelude::*;

use crate::entity::EntityId;
use crate::text::{decimal_text, is_blank, text_is_blank, u64_to_decimal};
use vstd::string::{StrSliceExecFns, StringExecFns};
use crate::time::SimInstant;

verus! {

/// A structured JSON metadata value, carried through unchanged.
#[verifier::external_type_specification]
#[verifier::external_body]
pub struct ExValue(serde_json::Value);

/// `serde_json::Value`'s derived `clone`: the copy is the same JSON value.
pub assume_specification[ <serde_json::Value as Clone>::clone ](value: &serde_json::Value) -> (copy:
    serde_json::Value)
    ensures
        copy == *value,
;

/// Current structured-event schema version.
pub const EVENT_SCHEMA_VERSION: u16 = 1;

/// Stable persistent identity of one event.
#[derive(Clone, Copy, Debug, PartialEq, Eq, Structural, PartialOrd, Ord, Hash)]
pub struct EventId(u64);

impl EventId {
    /// An event identity is never zero.
    #[verifier::type_invariant]
    closed spec fn non_zero(self) -> bool {
        self.0 != 0
    }
}

impl View for EventId {
    type V = u64;

    closed spec fn view(&self) -> u64 {
        self.0
    }
}

/// Two event identities with the same number are the same identity.
pub broadcast proof fn lemma_event_id_view_injective(a: EventId, b: EventId)
    ensures
        #[trigger] a@ == #[trigger] b@ ==> a == b,
{
}

impl EventId {
    /// Creates an ID when `raw` is non-zero.
    pub fn new(raw: u64) -> (id: Option<EventId>)
        ensures
            match id {
                Some(id) => raw != 0 && id@ == raw,
                None => raw == 0,
            },
    {
        if raw == 0 {
            None
        } else {
            Some(EventId(raw))
        }
    }

    /// Returns its numeric representation.
    pub fn get(self) -> (raw: u64)
        ensures
            raw == self@,
            raw != 0,
    {
        proof {
            use_type_invariant(&self);
        }
        self.0
    }
}

/// Visibility within world-internal information systems.
#[derive(Clone, Copy, Debug, PartialEq, Eq, Structural)]
pub enum Visibility {
    /// Observable without a restricted source.
    Public,
    /// Known only through limited observations or sources.
    Restricted,
    /// Simulation truth not directly observed in-world.
    Hidden,
}

/// The highest historical significance.
pub const SIGNIFICANCE_LIMIT: u16 = 1_000;

/// Bounded historical significance from 0 through 1,000.
#[derive(Clone, Copy, Debug, PartialEq, Eq, Structural, PartialOrd, Ord)]
pub struct SignificanceScore(u16);

impl SignificanceScore {
    /// A score never exceeds the limit.
    #[verifier::type_invariant]
    closed spec fn bounded(self) -> bool {
        self.0 <= SIGNIFICANCE_LIMIT
    }
}

impl View for SignificanceScore {
    type V = u16;

    closed spec fn view(&self) -> u16 {
        self.0
    }
}

impl SignificanceScore {
    /// Minimum significance.
    pub fn lowest() -> (score: SignificanceScore)
        ensures
            score@ == 0,
    {
        SignificanceScore(0)
    }

    /// Maximum significance.
    pub fn highest() -> (score: SignificanceScore)
        ensures
            score@ == SIGNIFICANCE_LIMIT,
    {
        SignificanceScore(SIGNIFICANCE_LIMIT)
    }

    /// Returns the numeric score.
    pub fn get(self) -> (value: u16)
        ensures
            value == self@,
            value <= SIGNIFICANCE_LIMIT,
    {
        proof {
            use_type_invariant(&self);
        }
        self.0
    }

    /// Accepts scores from 0 through 1,000.
    pub fn try_from_u16(value: u16) -> (score: Result<SignificanceScore, InvalidSignificanceScore>)
        ensures
            match score {
                Ok(s) => value <= SIGNIFICANCE_LIMIT && s@ == value,
                Err(e) => value > SIGNIFICANCE_LIMIT && e == InvalidSignificanceScore(value),
            },
    {
        if value <= SIGNIFICANCE_LIMIT {
            Ok(SignificanceScore(value))
        } else {
            Err(InvalidSignificanceScore(value))
        }
    }
}

/// A significance above 1,000 was offered.
#[derive(Clone, Copy, Debug, PartialEq, Eq, Structural)]
pub struct InvalidSignificanceScore(pub u16);

/// Event schema or reference violation.
#[derive(Clone, Debug, PartialEq, Eq, Structural)]
pub enum EventValidationError {
    /// Unknown schema.
    UnsupportedSchemaVersion(u16),
    /// Missing type.
    EmptyEventType,
    /// Duplicate actor.
    DuplicateActor(EntityId),
    /// Duplicate target.
    DuplicateTarget(EntityId),
    /// Duplicate cause.
    DuplicateCause(EventId),
    /// Duplicate consequence.
    DuplicateConsequence(EventId),
    /// Self cause.
    SelfCause,
    /// Self consequence.
    SelfConsequence,
}

/// The derived debug form of a validation failure, as std writes it.
pub open spec fn validation_debug(error: EventValidationError) -> Seq<char> {
    match error {
        EventValidationError::UnsupportedSchemaVersion(v) => "UnsupportedSchemaVersion("@
            + decimal_text(v as nat) + ")"@,
        EventValidationError::EmptyEventType => "EmptyEventType"@,
        EventValidationError::DuplicateActor(id) => "DuplicateActor(EntityId("@ + decimal_text(
            id@ as nat,
        ) + "))"@,
        EventValidationError::DuplicateTarget(id) => "DuplicateTarget(EntityId("@ + decimal_text(
            id@ as nat,
        ) + "))"@,
        EventValidationError::DuplicateCause(id) => "DuplicateCause(EventId("@ + decimal_text(
            id@ as nat,
        ) + "))"@,
        EventValidationError::DuplicateConsequence(id) => "DuplicateConsequence(EventId("@
            + decimal_text(id@ as nat) + "))"@,
        EventValidationError::SelfCause => "SelfCause"@,
        EventValidationError::SelfConsequence => "SelfConsequence"@,
    }
}

/// The message of a validation failure.
pub open spec fn validation_text(error: EventValidationError) -> Seq<char> {
    "invalid structured event: "@ + validation_debug(error)
}

/// `prefix`, then the decimal text of `value`, then `suffix`.
fn wrap_decimal(prefix: &str, value: u64, suffix: &str) -> (text: String)
    ensures
        text@ == prefix@ + decimal_text(value as nat) + suffix@,
{
    let digits = u64_to_decimal(value);
    prefix.to_owned().concat(digits.as_str()).concat(suffix)
}

impl EventValidationError {
    /// The message of this failure: `invalid structured event: ` followed by
    /// its debug form.
    pub fn to_string(&self) -> (text: String)
        ensures
            text@ == validation_text(*self),
    {
        let debug = match self {
            EventValidationError::UnsupportedSchemaVersion(v) => wrap_decimal(
                "UnsupportedSchemaVersion(",
                *v as u64,
                ")",
            ),
            EventValidationError::EmptyEventType => "EmptyEventType".to_owned(),
            EventValidationError::DuplicateActor(id) => wrap_decimal(
                "DuplicateActor(EntityId(",
                id.get(),
                "))",
            ),
            EventValidationError::DuplicateTarget(id) => wrap_decimal(
                "DuplicateTarget(EntityId(",
                id.get(),
                "))",
            ),
            EventValidationError::DuplicateCause(id) => wrap_decimal(
                "DuplicateCause(EventId(",
                id.get(),
                "))",
            ),
            EventValidationError::DuplicateConsequence(id) => wrap_decimal(
                "DuplicateConsequence(EventId(",
                id.get(),
                "))",
            ),
            EventValidationError::SelfCause => "SelfCause".to_owned(),
            EventValidationError::SelfConsequence => "SelfConsequence".to_owned(),
        };
        "invalid structured event: ".to_owned().concat(debug.as_str())
    }
}

/// The first value of `s` that repeats an earlier one, in order.
pub open spec fn first_repeat<A>(s: Seq<A>) -> Option<A>
    decreases s.len(),
{
    if s.len() == 0 {
        None
    } else {
        match first_repeat(s.drop_last()) {
            Some(v) => Some(v),
            None => if s.drop_last().contains(s.last()) {
                Some(s.last())
            } else {
                None
            },
        }
    }
}

/// The first structured-metadata value stored under `key`.
pub open spec fn metadata_lookup(
    metadata: Seq<(Seq<char>, serde_json::Value)>,
    key: Seq<char>,
) -> Option<serde_json::Value>
    decreases metadata.len(),
{
    if metadata.len() == 0 {
        None
    } else if metadata[0].0 == key {
        Some(metadata[0].1)
    } else {
        metadata_lookup(metadata.drop_first(), key)
    }
}

/// Whether `a` sorts before `b` from position `i` on, comparing characters
/// by code point and a proper prefix first; this is the order of `String`,
/// since UTF-8 byte order agrees with code-point order.
pub open spec fn key_lt_from(a: Seq<char>, b: Seq<char>, i: int) -> bool
    decreases a.len() - i,
{
    if i >= a.len() {
        i < b.len()
    } else if i >= b.len() {
        false
    } else if a[i] != b[i] {
        (a[i] as int) < (b[i] as int)
    } else {
        key_lt_from(a, b, i + 1)
    }
}

/// Whether key `a` sorts before key `b`.
pub open spec fn key_lt(a: Seq<char>, b: Seq<char>) -> bool {
    key_lt_from(a, b, 0)
}

/// Whether metadata keys are strictly increasing.
pub open spec fn metadata_sorted(metadata: Seq<(Seq<char>, serde_json::Value)>) -> bool {
    forall|i: int, j: int|
        0 <= i < j < metadata.len() ==> key_lt(#[trigger] metadata[i].0, #[trigger] metadata[j].0)
}

/// The metadata after storing `value` under `key`: the value replaces the
/// entry with that key in place, or is inserted before the first entry
/// whose key sorts after it.
pub open spec fn metadata_insert(
    metadata: Seq<(Seq<char>, serde_json::Value)>,
    key: Seq<char>,
    value: serde_json::Value,
) -> Seq<(Seq<char>, serde_json::Value)>
    decreases metadata.len(),
{
    if metadata.len() == 0 {
        seq![(key, value)]
    } else if metadata[0].0 == key {
        metadata.update(0, (key, value))
    } else if key_lt(key, metadata[0].0) {
        seq![(key, value)] + metadata
    } else {
        seq![metadata[0]] + metadata_insert(metadata.drop_first(), key, value)
    }
}

/// The key order is irreflexive.
proof fn lemma_key_lt_irreflexive(a: Seq<char>, i: int)
    requires
        0 <= i,
    ensures
        !key_lt_from(a, a, i),
    decreases a.len() - i,
{
    if i < a.len() {
        lemma_key_lt_irreflexive(a, i + 1);
    }
}

/// The key order is total on distinct keys agreeing before `i`.
proof fn lemma_key_lt_total(a: Seq<char>, b: Seq<char>, i: int)
    requires
        0 <= i <= a.len(),
        i <= b.len(),
        a.subrange(0, i) == b.subrange(0, i),
        a != b,
    ensures
        key_lt_from(a, b, i) || key_lt_from(b, a, i),
    decreases a.len() - i,
{
    if i >= a.len() && i >= b.len() {
        assert(a =~= a.subrange(0, i));
        assert(b =~= b.subrange(0, i));
    } else if i < a.len() && i < b.len() && a[i] == b[i] {
        assert(a.subrange(0, i + 1) =~= a.subrange(0, i).push(a[i]));
        assert(b.subrange(0, i + 1) =~= b.subrange(0, i).push(b[i]));
        lemma_key_lt_total(a, b, i + 1);
    }
}

/// The key order is transitive.
proof fn lemma_key_lt_transitive(a: Seq<char>, b: Seq<char>, c: Seq<char>, i: int)
    requires
        0 <= i,
        key_lt_from(a, b, i),
        key_lt_from(b, c, i),
    ensures
        key_lt_from(a, c, i),
    decreases a.len() - i,
{
    if i < a.len() && i < b.len() && i < c.len() && a[i] == b[i] && b[i] == c[i] {
        lemma_key_lt_transitive(a, b, c, i + 1);
    }
}

/// Distinct keys are ordered one way or the other; no key precedes itself;
/// and the order is transitive.
proof fn lemma_key_order(a: Seq<char>, b: Seq<char>, c: Seq<char>)
    ensures
        !key_lt(a, a),
        a != b ==> key_lt(a, b) || key_lt(b, a),
        key_lt(a, b) && key_lt(b, c) ==> key_lt(a, c),
{
    lemma_key_lt_irreflexive(a, 0);
    if a != b {
        assert(a.subrange(0, 0) =~= b.subrange(0, 0));
        lemma_key_lt_total(a, b, 0);
    }
    if key_lt(a, b) && key_lt(b, c) {
        lemma_key_lt_transitive(a, b, c, 0);
    }
}

/// Inserting where position `i` is the first whose key is `key` or sorts
/// after it replaces entry `i` or inserts before it.
proof fn lemma_metadata_insert_at(
    metadata: Seq<(Seq<char>, serde_json::Value)>,
    key: Seq<char>,
    value: serde_json::Value,
    i: int,
)
    requires
        0 <= i <= metadata.len(),
        forall|j: int|
            0 <= j < i ==> (#[trigger] metadata[j]).0 != key && !key_lt(key, metadata[j].0),
        i < metadata.len() ==> metadata[i].0 == key || key_lt(key, metadata[i].0),
    ensures
        metadata_insert(metadata, key, value) == if i < metadata.len() && metadata[i].0 == key {
            metadata.update(i, (key, value))
        } else {
            metadata.insert(i, (key, value))
        },
    decreases i,
{
    if i == 0 {
        if metadata.len() == 0 {
            assert(seq![(key, value)] =~= metadata.insert(0, (key, value)));
        } else if metadata[0].0 != key {
            assert(seq![(key, value)] + metadata =~= metadata.insert(0, (key, value)));
        }
    } else {
        let rest = metadata.drop_first();
        assert(metadata[0].0 != key && !key_lt(key, metadata[0].0));
        assert forall|j: int| 0 <= j < i - 1 implies (#[trigger] rest[j]).0 != key && !key_lt(
            key,
            rest[j].0,
        ) by {
            assert(rest[j] == metadata[j + 1]);
        }
        lemma_metadata_insert_at(rest, key, value, i - 1);
        if i < metadata.len() && metadata[i].0 == key {
            assert(seq![metadata[0]] + rest.update(i - 1, (key, value)) =~= metadata.update(
                i,
                (key, value),
            ));
        } else {
            assert(seq![metadata[0]] + rest.insert(i - 1, (key, value)) =~= metadata.insert(
                i,
                (key, value),
            ));
        }
    }
}

/// In sorted metadata, with `i` the first position whose key is `key` or
/// sorts after it: the lookup finds entry `i` exactly when its key is
/// `key`, and storing `key` keeps the metadata sorted.
proof fn lemma_sorted_insert_at(
    metadata: Seq<(Seq<char>, serde_json::Value)>,
    key: Seq<char>,
    value: serde_json::Value,
    i: int,
)
    requires
        metadata_sorted(metadata),
        0 <= i <= metadata.len(),
        forall|j: int|
            0 <= j < i ==> (#[trigger] metadata[j]).0 != key && !key_lt(key, metadata[j].0),
        i < metadata.len() ==> metadata[i].0 == key || key_lt(key, metadata[i].0),
    ensures
        metadata_lookup(metadata, key) == if i < metadata.len() && metadata[i].0 == key {
            Some(metadata[i].1)
        } else {
            None::<serde_json::Value>
        },
        metadata_sorted(metadata_insert(metadata, key, value)),
{
    lemma_metadata_insert_at(metadata, key, value, i);
    assert forall|j: int| i <= j < metadata.len() && metadata[j].0 != key implies key_lt(
        key,
        #[trigger] metadata[j].0,
    ) by {
        lemma_key_order(key, metadata[i].0, metadata[j].0);
        if j > i {
            assert(key_lt(metadata[i].0, metadata[j].0));
        } else {
            assert(metadata[i].0 != key);
        }
    }
    assert forall|j: int| i < j < metadata.len() implies (#[trigger] metadata[j]).0 != key by {
        lemma_key_order(key, metadata[i].0, metadata[j].0);
        lemma_key_order(metadata[j].0, metadata[j].0, metadata[j].0);
        assert(key_lt(metadata[i].0, metadata[j].0));
    }
    lemma_lookup_first(metadata, key, i);
    let result = metadata_insert(metadata, key, value);
    assert forall|p: int, q: int| 0 <= p < q < result.len() implies key_lt(
        #[trigger] result[p].0,
        #[trigger] result[q].0,
    ) by {
        if i < metadata.len() && metadata[i].0 == key {
            assert(key_lt(metadata[p].0, metadata[q].0));
        } else {
            if q < i {
                assert(key_lt(metadata[p].0, metadata[q].0));
            } else if p > i {
                assert(key_lt(metadata[p - 1].0, metadata[q - 1].0));
            } else if p == i {
                assert(result[p].0 == key);
                assert(metadata[q - 1].0 != key) by {
                    if q - 1 == i {
                    }
                }
            } else {
                assert(result[q].0 == metadata[q - 1].0 || q == i);
                lemma_key_order(metadata[p].0, key, key);
                if q == i {
                    assert(metadata[p].0 != key && !key_lt(key, metadata[p].0));
                } else {
                    lemma_key_order(metadata[p].0, metadata[i].0, metadata[q - 1].0);
                    assert(key_lt(metadata[p].0, metadata[q - 1].0));
                }
            }
        }
    }
}

/// The position at which `key` is stored: the first entry whose key is
/// `key` or sorts after it, or the end.
pub open spec fn insert_position(metadata: Seq<(Seq<char>, serde_json::Value)>, key: Seq<char>) -> int
    decreases metadata.len(),
{
    if metadata.len() == 0 {
        0
    } else if metadata[0].0 == key || key_lt(key, metadata[0].0) {
        0
    } else {
        1 + insert_position(metadata.drop_first(), key)
    }
}

/// The insert position is the first entry whose key is `key` or sorts
/// after it.
proof fn lemma_insert_position(metadata: Seq<(Seq<char>, serde_json::Value)>, key: Seq<char>)
    ensures
        0 <= insert_position(metadata, key) <= metadata.len(),
        forall|j: int|
            0 <= j < insert_position(metadata, key) ==> (#[trigger] metadata[j]).0 != key
                && !key_lt(key, metadata[j].0),
        insert_position(metadata, key) < metadata.len() ==> metadata[insert_position(
            metadata,
            key,
        )].0 == key || key_lt(key, metadata[insert_position(metadata, key)].0),
    decreases metadata.len(),
{
    if metadata.len() > 0 && !(metadata[0].0 == key || key_lt(key, metadata[0].0)) {
        let rest = metadata.drop_first();
        lemma_insert_position(rest, key);
        assert forall|j: int| 0 <= j < insert_position(metadata, key) implies (
        #[trigger] metadata[j]).0 != key && !key_lt(key, metadata[j].0) by {
            if j > 0 {
                assert(metadata[j] == rest[j - 1]);
            }
        }
    }
}

/// Storing a value keeps metadata keys strictly increasing, and what was
/// stored under the key before is what a lookup found: the entry with that
/// key if there is one, and nothing otherwise.
pub proof fn law_metadata_stays_sorted(
    metadata: Seq<(Seq<char>, serde_json::Value)>,
    key: Seq<char>,
    value: serde_json::Value,
)
    requires
        metadata_sorted(metadata),
    ensures
        metadata_sorted(metadata_insert(metadata, key, value)),
        metadata_insert(metadata, key, value).len() == metadata.len() + if metadata_lookup(
            metadata,
            key,
        ) is Some {
            0int
        } else {
            1int
        },
{
    lemma_insert_position(metadata, key);
    let i = insert_position(metadata, key);
    lemma_sorted_insert_at(metadata, key, value, i);
    lemma_metadata_insert_at(metadata, key, value, i);
}

/// Unfolds one step of storing under `key` when the metadata starts with
/// `head`.
proof fn lemma_insert_head(
    head: (Seq<char>, serde_json::Value),
    rest: Seq<(Seq<char>, serde_json::Value)>,
    key: Seq<char>,
    value: serde_json::Value,
)
    ensures
        metadata_insert(seq![head] + rest, key, value) == if head.0 == key {
            seq![(key, value)] + rest
        } else if key_lt(key, head.0) {
            seq![(key, value), head] + rest
        } else {
            seq![head] + metadata_insert(rest, key, value)
        },
{
    let m = seq![head] + rest;
    assert(m[0] == head);
    assert(m.drop_first() =~= rest);
    if head.0 == key {
        assert(m.update(0, (key, value)) =~= seq![(key, value)] + rest);
    } else if key_lt(key, head.0) {
        assert(seq![(key, value)] + m =~= seq![(key, value), head] + rest);
    }
}

/// Storing under two different keys gives the same metadata in either
/// order, so records that received the same pairs compare equal however
/// the pairs were inserted.
pub proof fn law_metadata_insert_commutes(
    metadata: Seq<(Seq<char>, serde_json::Value)>,
    k1: Seq<char>,
    v1: serde_json::Value,
    k2: Seq<char>,
    v2: serde_json::Value,
)
    requires
        metadata_sorted(metadata),
        k1 != k2,
    ensures
        metadata_insert(metadata_insert(metadata, k1, v1), k2, v2) == metadata_insert(
            metadata_insert(metadata, k2, v2),
            k1,
            v1,
        ),
    decreases metadata.len(),
{
    lemma_key_order(k1, k2, k1);
    lemma_key_order(k2, k1, k2);
    let e1 = (k1, v1);
    let e2 = (k2, v2);
    if metadata.len() == 0 {
        let empty = Seq::<(Seq<char>, serde_json::Value)>::empty();
        assert(metadata_insert(metadata, k1, v1) =~= seq![e1] + empty);
        assert(metadata_insert(metadata, k2, v2) =~= seq![e2] + empty);
        lemma_insert_head(e1, empty, k2, v2);
        lemma_insert_head(e2, empty, k1, v1);
        assert(metadata_insert(empty, k2, v2) =~= seq![e2]);
        assert(metadata_insert(empty, k1, v1) =~= seq![e1]);
        assert(seq![e1] + seq![e2] =~= seq![e1, e2] + empty);
        assert(seq![e2] + seq![e1] =~= seq![e2, e1] + empty);
    } else {
        let head = metadata[0];
        let h = head.0;
        let rest = metadata.drop_first();
        assert(metadata =~= seq![head] + rest);
        assert(metadata_sorted(rest)) by {
            assert forall|i: int, j: int| 0 <= i < j < rest.len() implies key_lt(
                #[trigger] rest[i].0,
                #[trigger] rest[j].0,
            ) by {
                assert(rest[i] == metadata[i + 1] && rest[j] == metadata[j + 1]);
            }
        }
        lemma_key_order(k1, h, k2);
        lemma_key_order(k2, h, k1);
        lemma_key_order(h, k1, k2);
        lemma_key_order(h, k2, k1);
        lemma_key_order(k1, k2, h);
        lemma_key_order(k2, k1, h);
        lemma_insert_head(head, rest, k1, v1);
        lemma_insert_head(head, rest, k2, v2);
        if h == k1 {
            lemma_insert_head(e1, rest, k2, v2);
            if key_lt(k2, h) {
                lemma_insert_head(e2, seq![head] + rest, k1, v1);
                assert(seq![e2, head] + rest =~= seq![e2] + (seq![head] + rest));
                assert(seq![e2] + (seq![e1] + rest) =~= seq![e2, e1] + rest);
            } else {
                lemma_insert_head(head, metadata_insert(rest, k2, v2), k1, v1);
            }
        } else if h == k2 {
            lemma_insert_head(e2, rest, k1, v1);
            if key_lt(k1, h) {
                lemma_insert_head(e1, seq![head] + rest, k2, v2);
                assert(seq![e1, head] + rest =~= seq![e1] + (seq![head] + rest));
                assert(seq![e1] + (seq![e2] + rest) =~= seq![e1, e2] + rest);
            } else {
                lemma_insert_head(head, metadata_insert(rest, k1, v1), k2, v2);
            }
        } else if key_lt(k1, h) && key_lt(k2, h) {
            lemma_insert_head(e1, seq![head] + rest, k2, v2);
            lemma_insert_head(e2, seq![head] + rest, k1, v1);
            assert(seq![e1, head] + rest =~= seq![e1] + (seq![head] + rest));
            assert(seq![e2, head] + rest =~= seq![e2] + (seq![head] + rest));
            if key_lt(k2, k1) {
                assert(seq![e2] + (seq![e1] + (seq![head] + rest)) =~= seq![e2, e1] + (seq![head]
                    + rest));
                assert(seq![e2, e1] + (seq![head] + rest) =~= seq![e2] + (seq![e1, head] + rest));
            } else {
                assert(seq![e1] + (seq![e2] + (seq![head] + rest)) =~= seq![e1, e2] + (seq![head]
                    + rest));
                assert(seq![e1, e2] + (seq![head] + rest) =~= seq![e1] + (seq![e2, head] + rest));
            }
        } else if key_lt(k1, h) {
            lemma_insert_head(e1, seq![head] + rest, k2, v2);
            assert(seq![e1, head] + rest =~= seq![e1] + (seq![head] + rest));
            lemma_insert_head(head, metadata_insert(rest, k2, v2), k1, v1);
            assert(seq![e1, head] + metadata_insert(rest, k2, v2) =~= seq![e1] + (seq![head]
                + metadata_insert(rest, k2, v2)));
        } else if key_lt(k2, h) {
            lemma_insert_head(e2, seq![head] + rest, k1, v1);
            assert(seq![e2, head] + rest =~= seq![e2] + (seq![head] + rest));
            lemma_insert_head(head, metadata_insert(rest, k1, v1), k2, v2);
            assert(seq![e2, head] + metadata_insert(rest, k1, v1) =~= seq![e2] + (seq![head]
                + metadata_insert(rest, k1, v1)));
        } else {
            lemma_insert_head(head, metadata_insert(rest, k1, v1), k2, v2);
            lemma_insert_head(head, metadata_insert(rest, k2, v2), k1, v1);
            law_metadata_insert_commutes(rest, k1, v1, k2, v2);
        }
    }
}

/// The lookup of `key` in metadata whose first `i` keys differ from it,
/// and whose keys from `i + 1` on differ from it too.
proof fn lemma_lookup_first(metadata: Seq<(Seq<char>, serde_json::Value)>, key: Seq<char>, i: int)
    requires
        0 <= i <= metadata.len(),
        forall|j: int| 0 <= j < i ==> (#[trigger] metadata[j]).0 != key,
        forall|j: int| i < j < metadata.len() ==> (#[trigger] metadata[j]).0 != key,
    ensures
        metadata_lookup(metadata, key) == if i < metadata.len() && metadata[i].0 == key {
            Some(metadata[i].1)
        } else {
            None::<serde_json::Value>
        },
    decreases metadata.len(),
{
    if metadata.len() > 0 {
        let rest = metadata.drop_first();
        if i == 0 {
            if metadata[0].0 != key {
                assert forall|j: int| 0 <= j < rest.len() implies (#[trigger] rest[j]).0 != key by {
                    assert(rest[j] == metadata[j + 1]);
                }
                lemma_lookup_first(rest, key, rest.len() as int);
            }
        } else {
            assert forall|j: int| 0 <= j < i - 1 implies (#[trigger] rest[j]).0 != key by {
                assert(rest[j] == metadata[j + 1]);
            }
            assert forall|j: int| i - 1 < j < rest.len() implies (#[trigger] rest[j]).0 != key by {
                assert(rest[j] == metadata[j + 1]);
            }
            lemma_lookup_first(rest, key, i - 1);
        }
    }
}

/// The abstract content of an [`EventRecord`].
pub struct EventRecordView {
    pub schema_version: u16,
    pub event_id: EventId,
    pub timestamp: SimInstant,
    pub event_type: Seq<char>,
    pub actors: Seq<EntityId>,
    pub targets: Seq<EntityId>,
    pub location: Option<EntityId>,
    pub causes: Seq<EventId>,
    pub consequences: Seq<EventId>,
    pub visibility: Visibility,
    pub significance: SignificanceScore,
    pub metadata: Seq<(Seq<char>, serde_json::Value)>,
}

/// The first schema, type, duplicate, or self-reference violation of an
/// event, checked in that order; `None` for a valid event.
pub open spec fn validation_error(v: EventRecordView) -> Option<EventValidationError> {
    if v.schema_version != EVENT_SCHEMA_VERSION {
        Some(EventValidationError::UnsupportedSchemaVersion(v.schema_version))
    } else if is_blank(v.event_type) {
        Some(EventValidationError::EmptyEventType)
    } else if first_repeat(v.actors) is Some {
        Some(EventValidationError::DuplicateActor(first_repeat(v.actors)->Some_0))
    } else if first_repeat(v.targets) is Some {
        Some(EventValidationError::DuplicateTarget(first_repeat(v.targets)->Some_0))
    } else if first_repeat(v.causes) is Some {
        Some(EventValidationError::DuplicateCause(first_repeat(v.causes)->Some_0))
    } else if first_repeat(v.consequences) is Some {
        Some(EventValidationError::DuplicateConsequence(first_repeat(v.consequences)->Some_0))
    } else if v.causes.contains(v.event_id) {
        Some(EventValidationError::SelfCause)
    } else if v.consequences.contains(v.event_id) {
        Some(EventValidationError::SelfConsequence)
    } else {
        None
    }
}

/// A versioned, structured simulation-truth event.
#[derive(Clone, Debug, PartialEq)]
pub struct EventRecord {
    schema_version: u16,
    event_id: EventId,
    timestamp: SimInstant,
    event_type: String,
    actors: Vec<EntityId>,
    targets: Vec<EntityId>,
    location: Option<EntityId>,
    causes: Vec<EventId>,
    consequences: Vec<EventId>,
    visibility: Visibility,
    significance: SignificanceScore,
    metadata: Metadata,
}

/// Structured metadata pairs, kept in strictly increasing key order.
#[derive(Debug, PartialEq)]
struct Metadata {
    entries: Vec<(String, serde_json::Value)>,
}

impl Metadata {
    /// The keys are strictly increasing.
    #[verifier::type_invariant]
    closed spec fn sorted(self) -> bool {
        metadata_sorted(metadata_view(self.entries@))
    }

    /// No metadata.
    fn empty() -> (metadata: Metadata)
        ensures
            metadata.entries@.len() == 0,
    {
        Metadata { entries: Vec::new() }
    }

    /// Stores `value` under `key`, keeping the keys in order, and returns
    /// the value it replaces.
    fn insert(&mut self, key: &str, value: serde_json::Value) -> (previous: Option<
        serde_json::Value,
    >)
        ensures
            previous == metadata_lookup(metadata_view(old(self).entries@), key@),
            metadata_view(final(self).entries@) == metadata_insert(
                metadata_view(old(self).entries@),
                key@,
                value,
            ),
    {
        proof {
            use_type_invariant(&*self);
        }
        let mut entries: Vec<(String, serde_json::Value)> = Vec::new();
        std::mem::swap(&mut entries, &mut self.entries);
        let ghost m = metadata_view(entries@);
        let wanted = key.to_owned();
        let mut i: usize = 0;
        while i < entries.len()
            invariant
                0 <= i <= entries.len(),
                wanted@ == key@,
                m == metadata_view(entries@),
                metadata_sorted(m),
                forall|j: int|
                    0 <= j < i ==> (#[trigger] m[j]).0 != key@ && !key_lt(key@, m[j].0),
            ensures
                0 <= i <= entries.len(),
                m == metadata_view(entries@),
                metadata_sorted(m),
                forall|j: int|
                    0 <= j < i ==> (#[trigger] m[j]).0 != key@ && !key_lt(key@, m[j].0),
                i < entries.len() ==> m[i as int].0 == key@ || key_lt(key@, m[i as int].0),
            decreases entries.len() - i,
        {
            assert(m[i as int].0 == entries@[i as int].0@);
            if entries[i].0 == wanted {
                break;
            }
            if key_less(key, entries[i].0.as_str()) {
                break;
            }
            i = i + 1;
        }
        proof {
            lemma_metadata_insert_at(m, key@, value, i as int);
            lemma_sorted_insert_at(m, key@, value, i as int);
        }
        let found = i < entries.len() && entries[i].0 == wanted;
        let previous = if found {
            let (_, previous) = entries.remove(i);
            entries.insert(i, (wanted, value));
            assert(metadata_view(entries@) =~= m.update(i as int, (key@, value)));
            Some(previous)
        } else {
            entries.insert(i, (wanted, value));
            assert(metadata_view(entries@) =~= m.insert(i as int, (key@, value)));
            None
        };
        self.entries = entries;
        previous
    }
}

impl Clone for Metadata {
    /// A copy with the same keys in the same order.
    fn clone(&self) -> (copy: Metadata) {
        proof {
            use_type_invariant(self);
        }
        let mut entries: Vec<(String, serde_json::Value)> = Vec::new();
        let mut i: usize = 0;
        while i < self.entries.len()
            invariant
                0 <= i <= self.entries.len(),
                entries@.len() == i,
                forall|j: int| 0 <= j < i ==> (#[trigger] entries@[j]).0@ == self.entries@[j].0@,
            decreases self.entries.len() - i,
        {
            let key = self.entries[i].0.clone();
            let value = self.entries[i].1.clone();
            entries.push((key, value));
            i = i + 1;
        }
        proof {
            let m = metadata_view(self.entries@);
            let c = metadata_view(entries@);
            assert forall|p: int, q: int| 0 <= p < q < c.len() implies key_lt(
                #[trigger] c[p].0,
                #[trigger] c[q].0,
            ) by {
                assert(c[p].0 == m[p].0 && c[q].0 == m[q].0);
                assert(key_lt(m[p].0, m[q].0));
            }
        }
        Metadata { entries }
    }
}

/// Whether `a` sorts before `b` in `String` order.
fn key_less(a: &str, b: &str) -> (less: bool)
    ensures
        less == key_lt(a@, b@),
{
    let la = a.unicode_len();
    let lb = b.unicode_len();
    let mut i: usize = 0;
    while i < la && i < lb
        invariant
            0 <= i <= la,
            i <= lb,
            la == a@.len(),
            lb == b@.len(),
            key_lt(a@, b@) == key_lt_from(a@, b@, i as int),
        decreases la - i,
    {
        let x = a.get_char(i);
        let y = b.get_char(i);
        if x != y {
            return (x as u32) < (y as u32);
        }
        i = i + 1;
    }
    i < lb
}

/// The abstract view of stored metadata pairs.
pub open spec fn metadata_view(
    metadata: Seq<(String, serde_json::Value)>,
) -> Seq<(Seq<char>, serde_json::Value)> {
    metadata.map_values(|entry: (String, serde_json::Value)| (entry.0@, entry.1))
}

impl View for EventRecord {
    type V = EventRecordView;

    closed spec fn view(&self) -> EventRecordView {
        EventRecordView {
            schema_version: self.schema_version,
            event_id: self.event_id,
            timestamp: self.timestamp,
            event_type: self.event_type@,
            actors: self.actors@,
            targets: self.targets@,
            location: self.location,
            causes: self.causes@,
            consequences: self.consequences@,
            visibility: self.visibility,
            significance: self.significance,
            metadata: metadata_view(self.metadata.entries@),
        }
    }
}

/// Identities whose equality is equality of their values.
pub(crate) trait SameIdentity: Copy + Sized {
    /// Whether two identities are the same.
    fn same(&self, other: &Self) -> (same: bool)
        ensures
            same == (*self == *other),
    ;
}

impl SameIdentity for EntityId {
    fn same(&self, other: &Self) -> (same: bool) {
        *self == *other
    }
}

impl SameIdentity for EventId {
    fn same(&self, other: &Self) -> (same: bool) {
        *self == *other
    }
}

/// Returns the first identity that repeats an earlier one.
pub(crate) fn first_repeated<T: SameIdentity>(values: &Vec<T>) -> (found: Option<T>)
    ensures
        found == first_repeat(values@),
{
    let mut j: usize = 0;
    while j < values.len()
        invariant
            0 <= j <= values.len(),
            first_repeat(values@.subrange(0, j as int)) is None,
        decreases values.len() - j,
    {
        let candidate = values[j];
        let mut i: usize = 0;
        let mut seen = false;
        while i < j
            invariant
                0 <= i <= j < values.len(),
                candidate == values@[j as int],
                seen == exists|k: int| 0 <= k < i && values@[k] == candidate,
            decreases j - i,
        {
            if values[i].same(&candidate) {
                seen = true;
            }
            i = i + 1;
        }
        let ghost prefix = values@.subrange(0, j as int);
        let ghost next = values@.subrange(0, j as int + 1);
        assert(next.drop_last() =~= prefix);
        if seen {
            proof {
                let k = choose|k: int| 0 <= k < j && values@[k] == candidate;
                assert(prefix[k] == candidate);
            }
            assert(first_repeat(values@) == Some(candidate)) by {
                lemma_first_repeat_prefix(values@, j as int + 1);
            }
            return Some(candidate);
        }
        proof {
            if prefix.contains(candidate) {
                let k = choose|k: int| 0 <= k < prefix.len() && prefix[k] == candidate;
                assert(values@[k] == candidate);
            }
        }
        j = j + 1;
    }
    assert(values@.subrange(0, values@.len() as int) =~= values@);
    None
}

/// A repeat found in a prefix is the first repeat of the whole sequence.
proof fn lemma_first_repeat_prefix<A>(s: Seq<A>, n: int)
    requires
        0 <= n <= s.len(),
        first_repeat(s.subrange(0, n)) is Some,
    ensures
        first_repeat(s) == first_repeat(s.subrange(0, n)),
    decreases s.len() - n,
{
    if n < s.len() {
        let next = s.subrange(0, n + 1);
        assert(next.drop_last() =~= s.subrange(0, n));
        lemma_first_repeat_prefix(s, n + 1);
    } else {
        assert(s.subrange(0, n) =~= s);
    }
}

/// Whether `id` occurs in `values`.
fn contains_identity<T: SameIdentity>(values: &Vec<T>, id: T) -> (found: bool)
    ensures
        found == values@.contains(id),
{
    let mut i: usize = 0;
    while i < values.len()
        invariant
            0 <= i <= values.len(),
            forall|k: int| 0 <= k < i ==> values@[k] != id,
        decreases values.len() - i,
    {
        if values[i].same(&id) {
            assert(values@[i as int] == id);
            return true;
        }
        i = i + 1;
    }
    false
}

impl EventRecord {
    /// Creates a minimal schema-version-1 event: no references, no location,
    /// hidden, minimum significance, and no metadata.
    ///
    /// Fails with [`EventValidationError::EmptyEventType`] for a blank type.
    pub fn new(event_id: EventId, timestamp: SimInstant, event_type: &str) -> (record: Result<
        EventRecord,
        EventValidationError,
    >)
        ensures
            match record {
                Ok(r) => {
                    &&& !is_blank(event_type@)
                    &&& r@.schema_version == EVENT_SCHEMA_VERSION
                    &&& r@.event_id == event_id
                    &&& r@.timestamp == timestamp
                    &&& r@.event_type == event_type@
                    &&& r@.actors.len() == 0
                    &&& r@.targets.len() == 0
                    &&& r@.location is None
                    &&& r@.causes.len() == 0
                    &&& r@.consequences.len() == 0
                    &&& r@.visibility == Visibility::Hidden
                    &&& r@.significance@ == 0
                    &&& r@.metadata.len() == 0
                },
                Err(e) => is_blank(event_type@) && e == EventValidationError::EmptyEventType,
            },
    {
        let record = EventRecord {
            schema_version: EVENT_SCHEMA_VERSION,
            event_id,
            timestamp,
            event_type: event_type.to_string(),
            actors: Vec::new(),
            targets: Vec::new(),
            location: None,
            causes: Vec::new(),
            consequences: Vec::new(),
            visibility: Visibility::Hidden,
            significance: SignificanceScore::lowest(),
            metadata: Metadata::empty(),
        };
        assert(record@.actors =~= Seq::<EntityId>::empty());
        assert(record@.targets =~= Seq::<EntityId>::empty());
        assert(record@.causes =~= Seq::<EventId>::empty());
        assert(record@.consequences =~= Seq::<EventId>::empty());
        match record.validate() {
            Ok(()) => Ok(record),
            Err(error) => Err(error),
        }
    }

    /// Returns the ID.
    pub fn event_id(&self) -> (id: EventId)
        ensures
            id == self@.event_id,
    {
        self.event_id
    }

    /// Returns the timestamp.
    pub fn timestamp(&self) -> (at: SimInstant)
        ensures
            at == self@.timestamp,
    {
        self.timestamp
    }

    /// Returns the event-type key.
    pub fn event_type(&self) -> (kind: &str)
        ensures
            kind@ == self@.event_type,
    {
        self.event_type.as_str()
    }

    /// Returns actors.
    pub fn actors(&self) -> (actors: &[EntityId])
        ensures
            actors@ == self@.actors,
    {
        self.actors.as_slice()
    }

    /// Returns targets.
    pub fn targets(&self) -> (targets: &[EntityId])
        ensures
            targets@ == self@.targets,
    {
        self.targets.as_slice()
    }

    /// Returns causes.
    pub fn causes(&self) -> (causes: &[EventId])
        ensures
            causes@ == self@.causes,
    {
        self.causes.as_slice()
    }

    /// The record's schema version.
    pub fn schema_version(&self) -> (version: u16)
        ensures
            version == self@.schema_version,
    {
        self.schema_version
    }

    /// Downstream consequences.
    pub fn consequences(&self) -> (consequences: &[EventId])
        ensures
            consequences@ == self@.consequences,
    {
        self.consequences.as_slice()
    }

    /// Every metadata pair, in increasing key order.
    pub fn metadata_entries(&self) -> (entries: &[(String, serde_json::Value)])
        ensures
            metadata_view(entries@) == self@.metadata,
            metadata_sorted(self@.metadata),
    {
        proof {
            use_type_invariant(&self.metadata);
        }
        self.metadata.entries.as_slice()
    }

    /// Returns the location.
    pub fn location(&self) -> (location: Option<EntityId>)
        ensures
            location == self@.location,
    {
        self.location
    }

    /// Returns the visibility.
    pub fn visibility(&self) -> (visibility: Visibility)
        ensures
            visibility == self@.visibility,
    {
        self.visibility
    }

    /// Returns the significance.
    pub fn significance(&self) -> (significance: SignificanceScore)
        ensures
            significance == self@.significance,
    {
        self.significance
    }

    /// Returns the metadata value stored under `key`, if any.
    pub fn metadata_value(&self, key: &str) -> (value: Option<&serde_json::Value>)
        ensures
            match value {
                Some(v) => metadata_lookup(self@.metadata, key@) == Some(*v),
                None => metadata_lookup(self@.metadata, key@) is None,
            },
    {
        let wanted = key.to_owned();
        assert(self@.metadata.subrange(0, self@.metadata.len() as int) =~= self@.metadata);
        let mut i: usize = 0;
        while i < self.metadata.entries.len()
            invariant
                0 <= i <= self.metadata.entries.len(),
                wanted@ == key@,
                metadata_lookup(self@.metadata, key@) == metadata_lookup(
                    self@.metadata.subrange(i as int, self@.metadata.len() as int),
                    key@,
                ),
            decreases self.metadata.entries.len() - i,
        {
            let ghost rest = self@.metadata.subrange(i as int, self@.metadata.len() as int);
            assert(rest[0] == (self.metadata.entries@[i as int].0@, self.metadata.entries@[i as int].1));
            if self.metadata.entries[i].0 == wanted {
                return Some(&self.metadata.entries[i].1);
            }
            assert(rest.drop_first() =~= self@.metadata.subrange(
                i as int + 1,
                self@.metadata.len() as int,
            ));
            i = i + 1;
        }
        None
    }

    /// Inserts structured metadata under `key`, returning the value it
    /// replaced, if any.
    pub fn insert_metadata(&mut self, key: &str, value: serde_json::Value) -> (previous: Option<
        serde_json::Value,
    >)
        ensures
            previous == metadata_lookup(old(self)@.metadata, key@),
            final(self)@ == (EventRecordView {
                metadata: metadata_insert(old(self)@.metadata, key@, value),
                ..old(self)@
            }),
    {
        self.metadata.insert(key, value)
    }

    /// Adds a unique actor.
    ///
    /// Fails with [`EventValidationError::DuplicateActor`], changing nothing,
    /// when the actor is already present.
    pub fn add_actor(&mut self, actor: EntityId) -> (result: Result<(), EventValidationError>)
        ensures
            match result {
                Ok(()) => !old(self)@.actors.contains(actor) && final(self)@ == (EventRecordView {
                    actors: old(self)@.actors.push(actor),
                    ..old(self)@
                }),
                Err(e) => old(self)@.actors.contains(actor) && e
                    == EventValidationError::DuplicateActor(actor) && final(self)@ == old(self)@,
            },
    {
        if contains_identity(&self.actors, actor) {
            return Err(EventValidationError::DuplicateActor(actor));
        }
        self.actors.push(actor);
        Ok(())
    }

    /// Adds a unique target.
    ///
    /// Fails with [`EventValidationError::DuplicateTarget`], changing
    /// nothing, when the target is already present.
    pub fn add_target(&mut self, target: EntityId) -> (result: Result<(), EventValidationError>)
        ensures
            match result {
                Ok(()) => !old(self)@.targets.contains(target) && final(self)@ == (EventRecordView {
                    targets: old(self)@.targets.push(target),
                    ..old(self)@
                }),
                Err(e) => old(self)@.targets.contains(target) && e
                    == EventValidationError::DuplicateTarget(target) && final(self)@ == old(self)@,
            },
    {
        if contains_identity(&self.targets, target) {
            return Err(EventValidationError::DuplicateTarget(target));
        }
        self.targets.push(target);
        Ok(())
    }

    /// Adds a unique, non-self cause.
    ///
    /// Fails with [`EventValidationError::SelfCause`] when `cause` is this
    /// event, else with [`EventValidationError::DuplicateCause`] when it is
    /// already present; nothing changes on failure.
    pub fn add_cause(&mut self, cause: EventId) -> (result: Result<(), EventValidationError>)
        ensures
            match result {
                Ok(()) => {
                    &&& cause != old(self)@.event_id
                    &&& !old(self)@.causes.contains(cause)
                    &&& final(self)@ == (EventRecordView {
                        causes: old(self)@.causes.push(cause),
                        ..old(self)@
                    })
                },
                Err(e) => final(self)@ == old(self)@ && if cause == old(self)@.event_id {
                    e == EventValidationError::SelfCause
                } else {
                    old(self)@.causes.contains(cause) && e == EventValidationError::DuplicateCause(
                        cause,
                    )
                },
            },
    {
        if cause == self.event_id {
            return Err(EventValidationError::SelfCause);
        }
        if contains_identity(&self.causes, cause) {
            return Err(EventValidationError::DuplicateCause(cause));
        }
        self.causes.push(cause);
        Ok(())
    }

    /// Sets location.
    pub fn set_location(&mut self, value: Option<EntityId>)
        ensures
            final(self)@ == (EventRecordView { location: value, ..old(self)@ }),
    {
        self.location = value;
    }

    /// Sets visibility.
    pub fn set_visibility(&mut self, value: Visibility)
        ensures
            final(self)@ == (EventRecordView { visibility: value, ..old(self)@ }),
    {
        self.visibility = value;
    }

    /// Sets significance.
    pub fn set_significance(&mut self, value: SignificanceScore)
        ensures
            final(self)@ == (EventRecordView { significance: value, ..old(self)@ }),
    {
        self.significance = value;
    }

    /// Rebuilds a record from its serialized fields, metadata aside, and
    /// accepts it only when it validates; the first violation is returned
    /// otherwise.
    pub fn from_wire(
        schema_version: u16,
        event_id: EventId,
        timestamp: SimInstant,
        event_type: String,
        actors: Vec<EntityId>,
        targets: Vec<EntityId>,
        location: Option<EntityId>,
        causes: Vec<EventId>,
        consequences: Vec<EventId>,
        visibility: Visibility,
        significance: SignificanceScore,
    ) -> (record: Result<EventRecord, EventValidationError>)
        ensures
            ({
                let v = EventRecordView {
                    schema_version,
                    event_id,
                    timestamp,
                    event_type: event_type@,
                    actors: actors@,
                    targets: targets@,
                    location,
                    causes: causes@,
                    consequences: consequences@,
                    visibility,
                    significance,
                    metadata: Seq::empty(),
                };
                match record {
                    Ok(r) => r@ == v && validation_error(v) is None,
                    Err(e) => validation_error(v) == Some(e),
                }
            }),
    {
        let record = EventRecord {
            schema_version,
            event_id,
            timestamp,
            event_type,
            actors,
            targets,
            location,
            causes,
            consequences,
            visibility,
            significance,
            metadata: Metadata::empty(),
        };
        assert(metadata_view(record.metadata.entries@) =~= Seq::empty());
        match record.validate() {
            Ok(()) => Ok(record),
            Err(error) => Err(error),
        }
    }

    /// Validates schema and reference invariants.
    ///
    /// Returns the first schema, type, duplicate, or self-reference violation.
    pub fn validate(&self) -> (result: Result<(), EventValidationError>)
        ensures
            match result {
                Ok(()) => validation_error(self@) is None,
                Err(e) => validation_error(self@) == Some(e),
            },
    {
        if self.schema_version != EVENT_SCHEMA_VERSION {
            return Err(EventValidationError::UnsupportedSchemaVersion(self.schema_version));
        }
        if text_is_blank(self.event_type.as_str()) {
            return Err(EventValidationError::EmptyEventType);
        }
        if let Some(actor) = first_repeated(&self.actors) {
            return Err(EventValidationError::DuplicateActor(actor));
        }
        if let Some(target) = first_repeated(&self.targets) {
            return Err(EventValidationError::DuplicateTarget(target));
        }
        if let Some(cause) = first_repeated(&self.causes) {
            return Err(EventValidationError::DuplicateCause(cause));
        }
        if let Some(consequence) = first_repeated(&self.consequences) {
            return Err(EventValidationError::DuplicateConsequence(consequence));
        }
        if contains_identity(&self.causes, self.event_id) {
            return Err(EventValidationError::SelfCause);
        }
        if contains_identity(&self.consequences, self.event_id) {
            return Err(EventValidationError::SelfConsequence);
        }
        Ok(())
    }
}

/// Appending a value that is not yet present introduces no repeat.
proof fn lemma_push_fresh_keeps_no_repeat<A>(s: Seq<A>, a: A)
    requires
        first_repeat(s) is None,
        !s.contains(a),
    ensures
        first_repeat(s.push(a)) is None,
{
    assert(s.push(a).drop_last() =~= s);
}

/// The builders keep a valid record valid: adding an absent actor or
/// target, adding an absent cause other than the record itself, setting the
/// location, visibility or significance, and inserting metadata.
pub proof fn law_builders_keep_records_valid(
    v: EventRecordView,
    entity: EntityId,
    cause: EventId,
    location: Option<EntityId>,
    visibility: Visibility,
    significance: SignificanceScore,
    key: Seq<char>,
    value: serde_json::Value,
)
    requires
        validation_error(v) is None,
    ensures
        !v.actors.contains(entity) ==> validation_error(
            EventRecordView { actors: v.actors.push(entity), ..v },
        ) is None,
        !v.targets.contains(entity) ==> validation_error(
            EventRecordView { targets: v.targets.push(entity), ..v },
        ) is None,
        cause != v.event_id && !v.causes.contains(cause) ==> validation_error(
            EventRecordView { causes: v.causes.push(cause), ..v },
        ) is None,
        validation_error(EventRecordView { location, visibility, significance, ..v }) is None,
        validation_error(EventRecordView { metadata: metadata_insert(v.metadata, key, value), ..v })
            is None,
{
    if !v.actors.contains(entity) {
        lemma_push_fresh_keeps_no_repeat(v.actors, entity);
    }
    if !v.targets.contains(entity) {
        lemma_push_fresh_keeps_no_repeat(v.targets, entity);
    }
    if cause != v.event_id && !v.causes.contains(cause) {
        lemma_push_fresh_keeps_no_repeat(v.causes, cause);
        let pushed = v.causes.push(cause);
        assert forall|i: int| 0 <= i < pushed.len() implies pushed[i] != v.event_id by {
            if i < v.causes.len() {
                assert(v.causes[i] == pushed[i]);
            }
        }
    }
}

impl InvalidSignificanceScore {
    /// The message of this failure.
    pub fn to_string(&self) -> (text: String)
        ensures
            text@ == "significance "@ + decimal_text(self.0 as nat) + " exceeds maximum 1000"@,
    {
        wrap_decimal("significance ", self.0 as u64, " exceeds maximum 1000")
    }
}

/// A sequence in which nothing repeats has no duplicates.
proof fn lemma_no_repeat_no_duplicates<A>(s: Seq<A>)
    requires
        first_repeat(s) is None,
    ensures
        s.no_duplicates(),
    decreases s.len(),
{
    if s.len() > 0 {
        let earlier = s.drop_last();
        lemma_no_repeat_no_duplicates(earlier);
        assert forall|a: int, b: int| 0 <= a < b < s.len() implies s[a] != s[b] by {
            if b == s.len() - 1 {
                assert(earlier[a] == s[a]);
            } else {
                assert(earlier[a] == s[a] && earlier[b] == s[b]);
            }
        }
    }
}

/// A valid event has the current schema and a non-blank type, never lists
/// an actor, target, cause or consequence twice, and is neither its own
/// cause nor its own consequence; an event that lists its own identity
/// among its causes or consequences is always rejected.
pub proof fn law_valid_events_are_well_formed(v: EventRecordView)
    ensures
        validation_error(v) is None ==> {
            &&& v.schema_version == EVENT_SCHEMA_VERSION
            &&& !is_blank(v.event_type)
            &&& v.actors.no_duplicates()
            &&& v.targets.no_duplicates()
            &&& v.causes.no_duplicates()
            &&& v.consequences.no_duplicates()
            &&& !v.causes.contains(v.event_id)
            &&& !v.consequences.contains(v.event_id)
        },
        v.causes.contains(v.event_id) ==> validation_error(v) is Some,
        v.consequences.contains(v.event_id) ==> validation_error(v) is Some,
{
    if validation_error(v) is None {
        lemma_no_repeat_no_duplicates(v.actors);
        lemma_no_repeat_no_duplicates(v.targets);
        lemma_no_repeat_no_duplicates(v.causes);
        lemma_no_repeat_no_duplicates(v.consequences);
    }
}

} // verus!
