//! The heuristic that names the kind of a message.

use vstd::prelude::*;
use crate::base::{first_element_attr, Lookup};
use crate::detail::{parse, parsed, texts, CotUnparsedDetail};
use crate::xml::tokenized;
use crate::CotError;
use crate::text::{contains, has_substring};

verus! {

/// The kinds of message that the heuristic tells apart.
#[derive(Copy, Clone, Debug, PartialEq, Eq, Structural)]
pub enum TakCotType {
    GeoFence,
    Marker,
    RangeBearing,
    Route,
    Shape,
    /// None of the known kinds was recognised: unclassified, not "known to be generic".
    Other,
}

/// A rule of the heuristic as mathematical values: the text to look for, and the kind of
/// message that finding it implies.
pub type RuleView = (Seq<char>, TakCotType);

/// The rules tried on each fragment of `detail`, in order of precedence.
pub open spec fn detail_rules() -> Seq<RuleView> {
    seq![("__geofence"@, TakCotType::GeoFence), ("usericon"@, TakCotType::Marker)]
}

/// The rules tried on the type code, in order of precedence.
pub open spec fn type_rules() -> Seq<RuleView> {
    seq![
        ("u-r-b-"@, TakCotType::RangeBearing),
        ("u-rb-"@, TakCotType::RangeBearing),
        ("b-m-r"@, TakCotType::Route),
        ("u-d-"@, TakCotType::Shape),
    ]
}

/// The kind implied by the first of `rules` whose text stands in `text`.
pub open spec fn first_rule(rules: Seq<RuleView>, text: Seq<char>) -> Option<TakCotType>
    decreases rules.len(),
{
    if rules.len() == 0 {
        None
    } else if has_substring(text, rules[0].0) {
        Some(rules[0].1)
    } else {
        first_rule(rules.skip(1), text)
    }
}

/// The kind implied by the first of `fragments` that any detail rule matches.
pub open spec fn detail_category(fragments: Seq<Seq<char>>) -> Option<TakCotType>
    decreases fragments.len(),
{
    if fragments.len() == 0 {
        None
    } else {
        match first_rule(detail_rules(), fragments[0]) {
            Some(kind) => Some(kind),
            None => detail_category(fragments.skip(1)),
        }
    }
}

/// The kind implied by the type code alone.
pub open spec fn type_category(cot_type: Seq<char>) -> TakCotType {
    match first_rule(type_rules(), cot_type) {
        Some(kind) => kind,
        None => TakCotType::Other,
    }
}

/// The kind of a message with these detail fragments and this type code: what the detail
/// rules find, else what the type rules find, else `Other`.
pub open spec fn category_of(fragments: Seq<Seq<char>>, cot_type: Seq<char>) -> TakCotType {
    match detail_category(fragments) {
        Some(kind) => kind,
        None => type_category(cot_type),
    }
}

/// The views of a table of rules.
pub open spec fn rule_views(rules: Seq<(&'static str, TakCotType)>) -> Seq<RuleView> {
    rules.map_values(|rule: (&'static str, TakCotType)| (rule.0@, rule.1))
}

/// The rules tried on each fragment of `detail`.
fn detail_table() -> (rules: Vec<(&'static str, TakCotType)>)
    ensures
        rule_views(rules@) == detail_rules(),
{
    let rules = vec![("__geofence", TakCotType::GeoFence), ("usericon", TakCotType::Marker)];
    assert(rule_views(rules@) =~= detail_rules());
    rules
}

/// The rules tried on the type code.
fn type_table() -> (rules: Vec<(&'static str, TakCotType)>)
    ensures
        rule_views(rules@) == type_rules(),
{
    let rules = vec![
        ("u-r-b-", TakCotType::RangeBearing),
        ("u-rb-", TakCotType::RangeBearing),
        ("b-m-r", TakCotType::Route),
        ("u-d-", TakCotType::Shape),
    ];
    assert(rule_views(rules@) =~= type_rules());
    rules
}

/// The kind implied by the first of `rules` whose text stands in `text`.
fn first_match(rules: &Vec<(&'static str, TakCotType)>, text: &str) -> (kind: Option<TakCotType>)
    ensures
        kind == first_rule(rule_views(rules@), text@),
{
    let ghost all = rule_views(rules@);
    assert(all.skip(0) =~= all);
    let mut i: usize = 0;
    while i < rules.len()
        invariant
            i <= rules.len(),
            all == rule_views(rules@),
            first_rule(all, text@) == first_rule(all.skip(i as int), text@),
        decreases rules.len() - i,
    {
        assert(all.skip(i as int)[0] == (rules@[i as int].0@, rules@[i as int].1));
        assert(all.skip(i as int).skip(1) =~= all.skip(i + 1));
        if contains(text, rules[i].0) {
            return Some(rules[i].1);
        }
        i += 1;
    }
    None
}

/// The kind of message that `msg` is taken for. A pure function of the detail fragments and
/// the type code: the first fragment, in order, that a detail rule matches decides; where
/// none does, the first type rule that matches the type code; where none does, `Other`.
pub fn classify(msg: &CotUnparsedDetail) -> (kind: TakCotType)
    ensures
        kind == category_of(texts(msg.detail@), msg.cot_type@),
{
    let detail_rules = detail_table();
    let ghost fragments = texts(msg.detail@);
    assert(fragments.skip(0) =~= fragments);
    let mut i: usize = 0;
    while i < msg.detail.len()
        invariant
            i <= msg.detail.len(),
            fragments == texts(msg.detail@),
            rule_views(detail_rules@) == self::detail_rules(),
            detail_category(fragments) == detail_category(fragments.skip(i as int)),
        decreases msg.detail.len() - i,
    {
        assert(fragments.skip(i as int)[0] == msg.detail@[i as int]@);
        assert(fragments.skip(i as int).skip(1) =~= fragments.skip(i + 1));
        match first_match(&detail_rules, msg.detail[i].as_str()) {
            Some(kind) => {
                return kind;
            },
            None => {},
        }
        i += 1;
    }
    match first_match(&type_table(), msg.cot_type.as_str()) {
        Some(kind) => kind,
        None => TakCotType::Other,
    }
}

/// A message and the kind that the heuristic takes it for. The `detail` section stays raw:
/// reading it further is up to the caller, who knows what the kind implies.
#[derive(Clone, Debug, PartialEq)]
pub struct TakCotMessage {
    pub cot_type: TakCotType,
    pub cot_msg: CotUnparsedDetail,
}

/// Reads a message from its XML text and names its kind. Fails exactly where `parse` fails,
/// with the same error; the heuristic itself cannot fail.
pub fn detect_tak_cot_type(input: &str) -> (res: Result<TakCotMessage, CotError>)
    ensures
        match parsed(tokenized(input@)) {
            Ok((envelope, fragments)) => {
                &&& res matches Ok(msg)
                &&& msg.cot_msg.envelope() == envelope
                &&& texts(msg.cot_msg.detail@) == fragments
                &&& msg.cot_type == category_of(fragments, envelope.cot_type)
            },
            Err(fault) => res matches Err(e) && e@ == fault,
        },
{
    let cot_msg = parse(input)?;
    let cot_type = classify(&cot_msg);
    Ok(TakCotMessage { cot_type, cot_msg })
}

/// The type code of a message: attribute `type` of its `event` element, as written.
pub fn parse_cot_msg_type(text: &str) -> (res: Result<String, CotError>)
    ensures
        match first_element_attr(tokenized(text@).events, "event"@, "type"@) {
            Lookup::Found(value) => res matches Ok(v) && v@ == value,
            _ => res matches Err(CotError::MissingField(name)) && name@ == "type"@,
        },
{
    crate::base::parse_cot_msg_type(text)
}

/// The value, as written, of attribute `attr_name` of the first start tag named `elt_name`
/// in `text` that has such an attribute: see the function of this name in `base`.
pub fn xml_first_element_w_attr(text: &str, elt_name: &str, attr_name: &str) -> (res: Result<
    Option<String>,
    CotError,
>)
    ensures
        match first_element_attr(tokenized(text@).events, elt_name@, attr_name@) {
            Lookup::Found(value) => res matches Ok(Some(v)) && v@ == value,
            Lookup::Malformed => res matches Err(e) && e is Xml,
            Lookup::Absent => (if tokenized(text@).failed {
                res matches Err(e) && e is Xml
            } else {
                res matches Ok(None)
            }),
        },
{
    crate::base::xml_first_element_w_attr(text, elt_name, attr_name)
}

/// What the detail rules make of one fragment, written out: a geofence if the fragment
/// mentions one, else a marker if it mentions a user icon, else nothing.
pub proof fn lemma_detail_rules(fragment: Seq<char>)
    ensures
        first_rule(detail_rules(), fragment) == if has_substring(fragment, "__geofence"@) {
            Some(TakCotType::GeoFence)
        } else if has_substring(fragment, "usericon"@) {
            Some(TakCotType::Marker)
        } else {
            None
        },
{
    reveal_with_fuel(first_rule, 3);
    let rules = detail_rules();
    assert(rules.skip(1) =~= seq![("usericon"@, TakCotType::Marker)]);
    assert(rules.skip(1).skip(1) =~= Seq::<RuleView>::empty());
}

/// What the type rules make of a type code, written out.
pub proof fn lemma_type_rules(cot_type: Seq<char>)
    ensures
        type_category(cot_type) == if has_substring(cot_type, "u-r-b-"@) {
            TakCotType::RangeBearing
        } else if has_substring(cot_type, "u-rb-"@) {
            TakCotType::RangeBearing
        } else if has_substring(cot_type, "b-m-r"@) {
            TakCotType::Route
        } else if has_substring(cot_type, "u-d-"@) {
            TakCotType::Shape
        } else {
            TakCotType::Other
        },
{
    reveal_with_fuel(first_rule, 5);
    let r0 = type_rules();
    let r1 = r0.skip(1);
    let r2 = r1.skip(1);
    let r3 = r2.skip(1);
    assert(r1 =~= seq![
        ("u-rb-"@, TakCotType::RangeBearing),
        ("b-m-r"@, TakCotType::Route),
        ("u-d-"@, TakCotType::Shape),
    ]);
    assert(r2 =~= seq![("b-m-r"@, TakCotType::Route), ("u-d-"@, TakCotType::Shape)]);
    assert(r3 =~= seq![("u-d-"@, TakCotType::Shape)]);
    assert(r3.skip(1) =~= Seq::<RuleView>::empty());
}

/// Classification is a function of what a message holds: two messages with the same detail
/// fragments and the same type code are of the same kind, whatever else differs.
pub proof fn lemma_same_input_same_kind(a: CotUnparsedDetail, b: CotUnparsedDetail)
    requires
        texts(a.detail@) == texts(b.detail@),
        a.cot_type@ == b.cot_type@,
    ensures
        category_of(texts(a.detail@), a.cot_type@) == category_of(texts(b.detail@), b.cot_type@),
{
}

/// The first fragment that a detail rule matches decides: the fragments before it, and all
/// that come after, do not matter.
pub proof fn lemma_first_matching_fragment(fragments: Seq<Seq<char>>, at: int)
    requires
        0 <= at < fragments.len(),
        first_rule(detail_rules(), fragments[at]) is Some,
        forall|k: int| 0 <= k < at ==> first_rule(detail_rules(), #[trigger] fragments[k]) is None,
    ensures
        detail_category(fragments) == first_rule(detail_rules(), fragments[at]),
    decreases at,
{
    if at > 0 {
        let rest = fragments.skip(1);
        assert(rest[at - 1] == fragments[at]);
        assert forall|k: int| 0 <= k < at - 1 implies first_rule(
            detail_rules(),
            #[trigger] rest[k],
        ) is None by {
            assert(rest[k] == fragments[k + 1]);
        }
        lemma_first_matching_fragment(rest, at - 1);
    }
}

/// Detail rules come before type rules: a message with a fragment that mentions a user icon,
/// and with no mention of a geofence in that fragment or any before it, is a marker, whatever
/// its type code says.
pub proof fn lemma_marker_whatever_the_type(fragments: Seq<Seq<char>>, cot_type: Seq<char>, at: int)
    requires
        0 <= at < fragments.len(),
        has_substring(fragments[at], "usericon"@),
        forall|k: int| 0 <= k <= at ==> !has_substring(#[trigger] fragments[k], "__geofence"@),
    ensures
        category_of(fragments, cot_type) == TakCotType::Marker,
    decreases at,
{
    lemma_detail_rules(fragments[0]);
    if has_substring(fragments[0], "usericon"@) {
    } else {
        let rest = fragments.skip(1);
        assert(rest[at - 1] == fragments[at]);
        assert forall|k: int| 0 <= k <= at - 1 implies !has_substring(
            #[trigger] rest[k],
            "__geofence"@,
        ) by {
            assert(rest[k] == fragments[k + 1]);
        }
        lemma_marker_whatever_the_type(rest, cot_type, at - 1);
    }
}

/// Where a detail rule matches some fragment, the type code has no say.
pub proof fn lemma_detail_match_ignores_type(
    fragments: Seq<Seq<char>>,
    one_type: Seq<char>,
    other_type: Seq<char>,
)
    requires
        detail_category(fragments) is Some,
    ensures
        category_of(fragments, one_type) == category_of(fragments, other_type),
{
}

/// A geofence in an earlier fragment wins over a user icon in a later one.
pub proof fn lemma_geofence_first(fragments: Seq<Seq<char>>, cot_type: Seq<char>, at: int)
    requires
        0 <= at < fragments.len(),
        has_substring(fragments[at], "__geofence"@),
        forall|k: int|
            0 <= k < at ==> !has_substring(#[trigger] fragments[k], "__geofence"@)
                && !has_substring(fragments[k], "usericon"@),
    ensures
        category_of(fragments, cot_type) == TakCotType::GeoFence,
{
    lemma_detail_rules(fragments[at]);
    assert forall|k: int| 0 <= k < at implies first_rule(
        detail_rules(),
        #[trigger] fragments[k],
    ) is None by {
        lemma_detail_rules(fragments[k]);
    }
    lemma_first_matching_fragment(fragments, at);
}

/// With no fragment that a detail rule matches, and so with no fragments at all, the type
/// code alone decides.
pub proof fn lemma_falls_through_to_type(fragments: Seq<Seq<char>>, cot_type: Seq<char>)
    requires
        forall|k: int|
            0 <= k < fragments.len() ==> first_rule(detail_rules(), #[trigger] fragments[k])
                is None,
    ensures
        category_of(fragments, cot_type) == type_category(cot_type),
    decreases fragments.len(),
{
    if fragments.len() > 0 {
        let rest = fragments.skip(1);
        assert forall|k: int| 0 <= k < rest.len() implies first_rule(
            detail_rules(),
            #[trigger] rest[k],
        ) is None by {
            assert(rest[k] == fragments[k + 1]);
        }
        lemma_falls_through_to_type(rest, cot_type);
    }
}

} // verus!
