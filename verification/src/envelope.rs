//! The envelope codec: between the fields of an envelope and the attributes of the `event`
//! and `point` elements, and between those and XML text.

use vstd::prelude::*;
use vstd::string::StringExecFns;
use crate::detail::{texts, CotUnparsedDetail};
use crate::base::{Cot, CotBase, Envelope, NoDetail, Point, PointView};
use crate::text::{opt_text, same_text};
use crate::time::{reads_back, rfc3339_instant, rfc3339_millis, Instant, Timestamp};
use crate::xml::{
    attr_outcome, attributes_in, describe, escape_text, escaped, next_event, open_reader,
    pending, read_attributes,
    tokenized, unescape_text, unescaped, AttrView, EventView, TagView, Tokens, XmlAttr, XmlEvent,
    XmlTag,
};
use crate::{CotError, Fault};

verus! {

/// One attribute of the envelope in its attribute form: a name and a value, the value being
/// the text meant, with no XML escapes.
#[derive(Clone, Debug, PartialEq)]
pub struct Field {
    pub name: String,
    pub value: String,
}

/// A field as mathematical values.
pub ghost struct FieldView {
    pub name: Seq<char>,
    pub value: Seq<char>,
}

impl View for Field {
    type V = FieldView;

    open spec fn view(&self) -> FieldView {
        FieldView { name: self.name@, value: self.value@ }
    }
}

/// The views of a list of fields.
pub open spec fn field_views(fields: Seq<Field>) -> Seq<FieldView> {
    fields.map_values(|f: Field| f@)
}

/// The value of the first field named `name`.
pub open spec fn field_value(fields: Seq<FieldView>, name: Seq<char>) -> Option<Seq<char>>
    decreases fields.len(),
{
    if fields.len() == 0 {
        None
    } else if fields[0].name == name {
        Some(fields[0].value)
    } else {
        field_value(fields.skip(1), name)
    }
}

/// The value of the first field named `name`.
pub fn get_field(fields: &Vec<Field>, name: &str) -> (value: Option<String>)
    ensures
        opt_text(value) == field_value(field_views(fields@), name@),
{
    let ghost all = field_views(fields@);
    assert(all.skip(0) =~= all);
    let mut i: usize = 0;
    while i < fields.len()
        invariant
            i <= fields.len(),
            all == field_views(fields@),
            field_value(all, name@) == field_value(all.skip(i as int), name@),
        decreases fields.len() - i,
    {
        assert(all.skip(i as int)[0] == fields@[i as int]@);
        assert(all.skip(i as int).skip(1) =~= all.skip(i + 1));
        if same_text(fields[i].name.as_str(), name) {
            return Some(fields[i].value.clone());
        }
        i += 1;
    }
    None
}

/// The first thing wrong with the attributes of `event`, if anything is, looking at them in
/// the order version, uid, type, time, start, stale.
pub open spec fn event_fault(event: Seq<FieldView>) -> Option<Fault> {
    if field_value(event, "version"@) is None {
        Some(Fault::MissingField("version"@))
    } else if field_value(event, "uid"@) is None {
        Some(Fault::MissingField("uid"@))
    } else if field_value(event, "type"@) is None {
        Some(Fault::MissingField("type"@))
    } else if time_fault(event, "time"@) is Some {
        time_fault(event, "time"@)
    } else if time_fault(event, "start"@) is Some {
        time_fault(event, "start"@)
    } else {
        time_fault(event, "stale"@)
    }
}

/// The first thing wrong with the attributes of `point`, if anything is, looking at them in
/// the order lat, lon, ce, hae, le.
pub open spec fn point_fault(point: Seq<FieldView>) -> Option<Fault> {
    if field_value(point, "lat"@) is None {
        Some(Fault::MissingField("lat"@))
    } else if field_value(point, "lon"@) is None {
        Some(Fault::MissingField("lon"@))
    } else if field_value(point, "ce"@) is None {
        Some(Fault::MissingField("ce"@))
    } else if field_value(point, "hae"@) is None {
        Some(Fault::MissingField("hae"@))
    } else if field_value(point, "le"@) is None {
        Some(Fault::MissingField("le"@))
    } else {
        None
    }
}

/// The first thing wrong with the attribute form of an envelope: with `event`, else with
/// `point`.
pub open spec fn fault_of(event: Seq<FieldView>, point: Seq<FieldView>) -> Option<Fault> {
    if event_fault(event) is Some {
        event_fault(event)
    } else {
        point_fault(point)
    }
}

/// What is wrong with the timestamp field `name`: absent, or not RFC 3339.
pub open spec fn time_fault(fields: Seq<FieldView>, name: Seq<char>) -> Option<Fault> {
    match field_value(fields, name) {
        None => Some(Fault::MissingField(name)),
        Some(text) => if rfc3339_instant(text) is None {
            Some(Fault::MalformedTimestamp(name))
        } else {
            None
        },
    }
}

/// The instant that the timestamp field `name` holds.
pub open spec fn time_value(fields: Seq<FieldView>, name: Seq<char>) -> Instant {
    rfc3339_instant(field_value(fields, name)->0)->0
}

/// The position that the attribute form of a `point` element holds.
pub open spec fn point_values(point: Seq<FieldView>) -> PointView {
    PointView {
        lat: field_value(point, "lat"@)->0,
        lon: field_value(point, "lon"@)->0,
        ce: field_value(point, "ce"@)->0,
        hae: field_value(point, "hae"@)->0,
        le: field_value(point, "le"@)->0,
    }
}

/// The envelope that a faultless attribute form holds. Attributes that the envelope does not
/// know are passed over; `how` may be absent.
pub open spec fn envelope_values(event: Seq<FieldView>, point: Seq<FieldView>) -> Envelope {
    Envelope {
        version: field_value(event, "version"@)->0,
        uid: field_value(event, "uid"@)->0,
        cot_type: field_value(event, "type"@)->0,
        time: time_value(event, "time"@),
        start: time_value(event, "start"@),
        stale: time_value(event, "stale"@),
        how: field_value(event, "how"@),
        point: point_values(point),
    }
}

/// The envelope that an attribute form holds, or the first thing wrong with it.
pub open spec fn envelope_of(event: Seq<FieldView>, point: Seq<FieldView>) -> Result<Envelope, Fault> {
    match fault_of(event, point) {
        Some(fault) => Err(fault),
        None => Ok(envelope_values(event, point)),
    }
}

/// The value of field `name`, which has to be there.
fn require(fields: &Vec<Field>, name: &str) -> (res: Result<String, CotError>)
    ensures
        match field_value(field_views(fields@), name@) {
            Some(value) => res matches Ok(v) && v@ == value,
            None => res matches Err(e) && e@ == Fault::MissingField(name@),
        },
{
    match get_field(fields, name) {
        Some(value) => Ok(value),
        None => Err(CotError::MissingField(name.to_owned())),
    }
}

/// The instant of timestamp field `name`, which has to be there and be RFC 3339.
fn require_time(fields: &Vec<Field>, name: &str) -> (res: Result<Timestamp, CotError>)
    ensures
        match time_fault(field_views(fields@), name@) {
            Some(fault) => res matches Err(e) && e@ == fault,
            None => res matches Ok(t) && t@ == time_value(field_views(fields@), name@),
        },
{
    let text = require(fields, name)?;
    match Timestamp::parse_rfc3339(text.as_str()) {
        Some(t) => Ok(t),
        None => Err(CotError::MalformedTimestamp(name.to_owned())),
    }
}

/// The position that the attribute form of a `point` element holds; fails with the first of
/// lat, lon, ce, hae, le that is absent.
pub fn point_from_fields(point: &Vec<Field>) -> (res: Result<Point, CotError>)
    ensures
        match point_fault(field_views(point@)) {
            Some(fault) => res matches Err(e) && e@ == fault,
            None => res matches Ok(p) && p@ == point_values(field_views(point@)),
        },
{
    let lat = require(point, "lat")?;
    let lon = require(point, "lon")?;
    let ce = require(point, "ce")?;
    let hae = require(point, "hae")?;
    let le = require(point, "le")?;
    Ok(Point { lat, lon, ce, hae, le })
}

/// The envelope that an attribute form holds: the codec from attributes to fields. Fails
/// with `MissingField` for the first required attribute that is absent and with
/// `MalformedTimestamp` for the first timestamp that is not RFC 3339, in the order that
/// `event_fault` and `point_fault` give.
pub fn envelope_from_fields(event: &Vec<Field>, point: &Vec<Field>) -> (res: Result<
    CotBase,
    CotError,
>)
    ensures
        match envelope_of(field_views(event@), field_views(point@)) {
            Ok(envelope) => res matches Ok(cot) && cot.envelope() == envelope,
            Err(fault) => res matches Err(e) && e@ == fault,
        },
{
    let version = require(event, "version")?;
    let uid = require(event, "uid")?;
    let cot_type = require(event, "type")?;
    let time = require_time(event, "time")?;
    let start = require_time(event, "start")?;
    let stale = require_time(event, "stale")?;
    let how = get_field(event, "how");
    let point = point_from_fields(point)?;
    Ok(Cot { version, uid, cot_type, time, start, stale, how, detail: NoDetail {  }, point })
}

/// A field of the attribute form.
pub open spec fn field(name: Seq<char>, value: Seq<char>) -> FieldView {
    FieldView { name, value }
}

/// The wire form of an instant, where it has one.
pub open spec fn wire_time(at: Instant) -> Seq<char> {
    rfc3339_millis(at.secs, at.nanos)->0
}

/// The attributes of `event` that an envelope is written as, in order; `how` is left out,
/// not written empty, where the envelope has none.
pub open spec fn event_fields(e: Envelope) -> Seq<FieldView> {
    let fixed = seq![
        field("version"@, e.version),
        field("uid"@, e.uid),
        field("type"@, e.cot_type),
        field("time"@, wire_time(e.time)),
        field("start"@, wire_time(e.start)),
        field("stale"@, wire_time(e.stale)),
    ];
    match e.how {
        Some(how) => fixed.push(field("how"@, how)),
        None => fixed,
    }
}

/// The attributes of `point` that a position is written as, in order.
pub open spec fn point_fields(p: PointView) -> Seq<FieldView> {
    seq![
        field("lat"@, p.lat),
        field("lon"@, p.lon),
        field("ce"@, p.ce),
        field("hae"@, p.hae),
        field("le"@, p.le),
    ]
}

/// A field with this name and value.
fn make_field(name: &str, value: &str) -> (f: Field)
    ensures
        f@ == field(name@, value@),
{
    Field { name: name.to_owned(), value: value.to_owned() }
}

/// The attributes of `event` that the envelope of `cot` is written as: the codec from fields
/// to attributes. Never fails.
pub fn event_to_fields<D>(cot: &Cot<D>) -> (fields: Vec<Field>)
    ensures
        field_views(fields@) == event_fields(cot.envelope()),
{
    let time = cot.time.to_rfc3339_millis();
    let start = cot.start.to_rfc3339_millis();
    let stale = cot.stale.to_rfc3339_millis();
    let mut fields = vec![
        make_field("version", cot.version.as_str()),
        make_field("uid", cot.uid.as_str()),
        make_field("type", cot.cot_type.as_str()),
        make_field("time", time.as_str()),
        make_field("start", start.as_str()),
        make_field("stale", stale.as_str()),
    ];
    match &cot.how {
        Some(how) => {
            fields.push(make_field("how", how.as_str()));
        },
        None => {},
    }
    assert(field_views(fields@) =~= event_fields(cot.envelope()));
    fields
}

/// The attributes of `point` that a position is written as.
pub fn point_to_fields(point: &Point) -> (fields: Vec<Field>)
    ensures
        field_views(fields@) == point_fields(point@),
{
    let fields = vec![
        make_field("lat", point.lat.as_str()),
        make_field("lon", point.lon.as_str()),
        make_field("ce", point.ce.as_str()),
        make_field("hae", point.hae.as_str()),
        make_field("le", point.le.as_str()),
    ];
    assert(field_views(fields@) =~= point_fields(point@));
    fields
}

/// The names of the envelope attributes differ from one another, and so do those of the
/// attributes of a position.
pub proof fn lemma_names_differ()
    ensures
        "version"@ != "uid"@,
        "version"@ != "type"@,
        "version"@ != "time"@,
        "version"@ != "start"@,
        "version"@ != "stale"@,
        "version"@ != "how"@,
        "uid"@ != "type"@,
        "uid"@ != "time"@,
        "uid"@ != "start"@,
        "uid"@ != "stale"@,
        "uid"@ != "how"@,
        "type"@ != "time"@,
        "type"@ != "start"@,
        "type"@ != "stale"@,
        "type"@ != "how"@,
        "time"@ != "start"@,
        "time"@ != "stale"@,
        "time"@ != "how"@,
        "start"@ != "stale"@,
        "start"@ != "how"@,
        "stale"@ != "how"@,
        "lat"@ != "lon"@,
        "lat"@ != "ce"@,
        "lat"@ != "hae"@,
        "lat"@ != "le"@,
        "lon"@ != "ce"@,
        "lon"@ != "hae"@,
        "lon"@ != "le"@,
        "ce"@ != "hae"@,
        "ce"@ != "le"@,
        "hae"@ != "le"@,
{
    reveal_strlit("version");
    reveal_strlit("uid");
    reveal_strlit("type");
    reveal_strlit("time");
    reveal_strlit("start");
    reveal_strlit("stale");
    reveal_strlit("how");
    reveal_strlit("lat");
    reveal_strlit("lon");
    reveal_strlit("ce");
    reveal_strlit("hae");
    reveal_strlit("le");
    assert("uid"@[0] != "how"@[0]);
    assert("type"@[1] != "time"@[1]);
    assert("start"@[3] != "stale"@[3]);
    assert("lat"@[1] != "lon"@[1]);
    assert("lat"@[0] != "hae"@[0]);
    assert("lon"@[0] != "hae"@[0]);
    assert("ce"@[0] != "le"@[0]);
}

/// A position written as attributes reads back as itself.
pub proof fn lemma_point_round_trip(p: PointView)
    ensures
        point_fault(point_fields(p)) is None,
        point_values(point_fields(p)) == p,
{
    lemma_names_differ();
    reveal_with_fuel(field_value, 6);
}

/// Round trip of the envelope codec: an envelope written as attributes reads back as itself,
/// field for field, provided that each of its three timestamps reads back from its wire form.
/// (The wire form keeps milliseconds, so a timestamp with a finer fraction does not.)
pub proof fn lemma_envelope_round_trip(e: Envelope)
    requires
        reads_back(e.time),
        reads_back(e.start),
        reads_back(e.stale),
    ensures
        envelope_of(event_fields(e), point_fields(e.point)) == Ok::<Envelope, Fault>(e),
{
    lemma_names_differ();
    lemma_point_round_trip(e.point);
    reveal_with_fuel(field_value, 8);
    let fields = event_fields(e);
    assert(field_value(fields, "version"@) == Some(e.version));
    assert(field_value(fields, "uid"@) == Some(e.uid));
    assert(field_value(fields, "type"@) == Some(e.cot_type));
    assert(field_value(fields, "time"@) == Some(wire_time(e.time)));
    assert(field_value(fields, "start"@) == Some(wire_time(e.start)));
    assert(field_value(fields, "stale"@) == Some(wire_time(e.stale)));
    assert(field_value(fields, "how"@) == e.how);
}

/// The field that one item of a tag's attributes stands for: key and value with the value's
/// references resolved; `None` where the item is malformed or a reference in it is.
pub open spec fn item_field(item: Option<AttrView>) -> Option<FieldView> {
    match item {
        Some(attr) => match unescaped(attr.value) {
            Some(value) => Some(field(attr.key, value)),
            None => None,
        },
        None => None,
    }
}

/// The attribute form of a tag with `rest` behind its name; `None` where any attribute is
/// malformed.
pub open spec fn tag_fields(rest: Seq<char>) -> Option<Seq<FieldView>> {
    let items = attributes_in(rest);
    if forall|i: int| 0 <= i < items.len() ==> item_field(#[trigger] items[i]) is Some {
        Some(items.map_values(|item: Option<AttrView>| item_field(item)->0))
    } else {
        None
    }
}

/// The field that one item of a tag's attributes stands for.
fn field_of_item(item: &Result<XmlAttr, quick_xml::errors::Error>) -> (res: Result<Field, CotError>)
    ensures
        match item_field(attr_outcome(*item)) {
            Some(f) => res matches Ok(got) && got@ == f,
            None => res matches Err(e) && e@ == Fault::Xml,
        },
{
    match item {
        Ok(attr) => match unescape_text(attr.value.as_str()) {
            Ok(value) => Ok(Field { name: attr.key.clone(), value }),
            Err(e) => Err(CotError::Xml(describe(&e))),
        },
        Err(e) => Err(CotError::Xml(describe(e))),
    }
}

/// The attribute form of `tag`.
pub fn fields_of_tag(tag: &XmlTag) -> (res: Result<Vec<Field>, CotError>)
    ensures
        match tag_fields(tag@.rest) {
            Some(fields) => res matches Ok(got) && field_views(got@) == fields,
            None => res matches Err(e) && e@ == Fault::Xml,
        },
{
    let items = read_attributes(tag.rest.as_str());
    let ghost all = attributes_in(tag@.rest);
    let mut fields: Vec<Field> = Vec::new();
    let mut i: usize = 0;
    while i < items.len()
        invariant
            i <= items.len(),
            all == items@.map_values(|item| attr_outcome(item)),
            all == attributes_in(tag@.rest),
            fields@.len() == i,
            forall|k: int| 0 <= k < i ==> item_field(#[trigger] all[k]) == Some(fields@[k]@),
        decreases items.len() - i,
    {
        assert(all[i as int] == attr_outcome(items@[i as int]));
        let f = field_of_item(&items[i])?;
        fields.push(f);
        i += 1;
    }
    assert(field_views(fields@) =~= tag_fields(tag@.rest)->0);
    Ok(fields)
}

/// Where a scan for the elements of the envelope stands.
pub ghost struct EnvelopeScanView {
    /// How many elements are open.
    pub depth: nat,
    /// Directly or further inside the `event` element that was found.
    pub inside: bool,
    /// The tag of `event`: the first element that is opened outside all others under that name.
    pub event: Option<TagView>,
    /// The tag of the first child of `event` named `point`.
    pub point: Option<TagView>,
    /// Whether `event` has a child named `detail`.
    pub detail: bool,
}

/// The scan before any event.
pub open spec fn envelope_scan_start() -> EnvelopeScanView {
    EnvelopeScanView { depth: 0, inside: false, event: None, point: None, detail: false }
}

/// The scan with what a tag at the top level adds: the `event` element, if it is the first.
pub open spec fn with_root(s: EnvelopeScanView, tag: TagView, opens: bool) -> EnvelopeScanView {
    if s.event is None && tag.name == "event"@ {
        EnvelopeScanView { event: Some(tag), inside: opens, ..s }
    } else {
        s
    }
}

/// The scan with what the tag of a child of `event` adds.
pub open spec fn with_child(s: EnvelopeScanView, tag: TagView) -> EnvelopeScanView {
    if tag.name == "point"@ && s.point is None {
        EnvelopeScanView { point: Some(tag), ..s }
    } else if tag.name == "detail"@ {
        EnvelopeScanView { detail: true, ..s }
    } else {
        s
    }
}

/// The scan with what a tag adds, be it a start tag (`opens`) or a self-closing one.
pub open spec fn with_tag(s: EnvelopeScanView, tag: TagView, opens: bool) -> EnvelopeScanView {
    if s.depth == 0 {
        with_root(s, tag, opens)
    } else if s.depth == 1 && s.inside {
        with_child(s, tag)
    } else {
        s
    }
}

/// The scan after one more event.
pub open spec fn envelope_scan_step(s: EnvelopeScanView, event: EventView) -> EnvelopeScanView {
    match event {
        EventView::Start(tag) => EnvelopeScanView { depth: s.depth + 1, ..with_tag(s, tag, true) },
        EventView::Empty(tag) => with_tag(s, tag, false),
        EventView::End(_) => if s.depth <= 1 {
            EnvelopeScanView { depth: 0, inside: false, ..s }
        } else {
            EnvelopeScanView { depth: (s.depth - 1) as nat, ..s }
        },
        _ => s,
    }
}

/// The scan after all of `events`, in order.
pub open spec fn envelope_scan_all(s: EnvelopeScanView, events: Seq<EventView>) -> EnvelopeScanView
    decreases events.len(),
{
    if events.len() == 0 {
        s
    } else {
        envelope_scan_all(envelope_scan_step(s, events[0]), events.skip(1))
    }
}

/// The view of an optional tag.
pub open spec fn opt_tag(tag: Option<XmlTag>) -> Option<TagView> {
    match tag {
        Some(tag) => Some(tag@),
        None => None,
    }
}

/// A scan for the elements of the envelope, fed one event at a time.
pub struct EnvelopeScan {
    /// The names of the elements that are open, outermost first.
    open: Vec<String>,
    /// Directly or further inside the `event` element that was found.
    inside: bool,
    /// The tag of `event`.
    event: Option<XmlTag>,
    /// The tag of the first child of `event` named `point`.
    point: Option<XmlTag>,
    /// Whether `event` has a child named `detail`.
    detail: bool,
}

impl View for EnvelopeScan {
    type V = EnvelopeScanView;

    closed spec fn view(&self) -> EnvelopeScanView {
        EnvelopeScanView {
            depth: self.open@.len(),
            inside: self.inside,
            event: opt_tag(self.event),
            point: opt_tag(self.point),
            detail: self.detail,
        }
    }
}

/// A copy of `tag`.
fn copy_tag(tag: &XmlTag) -> (copy: XmlTag)
    ensures
        copy@ == tag@,
{
    XmlTag { name: tag.name.clone(), rest: tag.rest.clone() }
}

impl EnvelopeScan {
    /// A scan that has seen no event.
    pub fn new() -> (scan: EnvelopeScan)
        ensures
            scan@ == envelope_scan_start(),
    {
        EnvelopeScan { open: Vec::new(), inside: false, event: None, point: None, detail: false }
    }

    /// Takes the tag of a start tag (`opens`) or of a self-closing one.
    fn take_tag(&mut self, tag: &XmlTag, opens: bool)
        ensures
            final(self)@ == with_tag(old(self)@, tag@, opens),
    {
        if self.open.len() == 0 {
            if self.event.is_none() && same_text(tag.name.as_str(), "event") {
                self.event = Some(copy_tag(tag));
                self.inside = opens;
            }
        } else if self.open.len() == 1 && self.inside {
            if same_text(tag.name.as_str(), "point") && self.point.is_none() {
                self.point = Some(copy_tag(tag));
            } else if same_text(tag.name.as_str(), "detail") {
                self.detail = true;
            }
        }
    }

    /// Takes one more event.
    pub fn step(&mut self, event: &XmlEvent)
        ensures
            final(self)@ == envelope_scan_step(old(self)@, event@),
    {
        match event {
            XmlEvent::Start(tag) => {
                self.take_tag(tag, true);
                self.open.push(tag.name.clone());
            },
            XmlEvent::Empty(tag) => {
                self.take_tag(tag, false);
            },
            XmlEvent::End(_) => {
                self.open.pop();
                if self.open.len() == 0 {
                    self.inside = false;
                }
            },
            _ => {},
        }
    }
}

/// What a scan that has run to the end of a document gives: the envelope, or what is wrong.
/// The `event` element and its children `point` and `detail` have to be there; then the
/// attributes of `event` and of `point` have to be well-formed; then `envelope_of` decides.
pub open spec fn scanned(scan: EnvelopeScanView) -> Result<Envelope, Fault> {
    if scan.event is None {
        Err(Fault::MissingField("event"@))
    } else if scan.point is None {
        Err(Fault::MissingField("point"@))
    } else if !scan.detail {
        Err(Fault::MissingField("detail"@))
    } else if tag_fields(scan.event->0.rest) is None || tag_fields(scan.point->0.rest) is None {
        Err(Fault::Xml)
    } else {
        envelope_of(tag_fields(scan.event->0.rest)->0, tag_fields(scan.point->0.rest)->0)
    }
}

/// The envelope of a document with these tokens, or what is wrong with it. A document that
/// the tokenizer rejects is wrong for that reason, whatever else holds of it.
pub open spec fn decoded(tokens: Tokens) -> Result<Envelope, Fault> {
    if tokens.failed {
        Err(Fault::Xml)
    } else {
        scanned(envelope_scan_all(envelope_scan_start(), tokens.events))
    }
}

impl EnvelopeScan {
    /// The envelope that the events seen so far hold.
    pub fn finish(self) -> (res: Result<CotBase, CotError>)
        ensures
            match scanned(self@) {
                Ok(envelope) => res matches Ok(cot) && cot.envelope() == envelope,
                Err(fault) => res matches Err(e) && e@ == fault,
            },
    {
        let event = match self.event {
            Some(tag) => tag,
            None => {
                return Err(CotError::MissingField("event".to_owned()));
            },
        };
        let point = match self.point {
            Some(tag) => tag,
            None => {
                return Err(CotError::MissingField("point".to_owned()));
            },
        };
        if !self.detail {
            return Err(CotError::MissingField("detail".to_owned()));
        }
        let event_fields = fields_of_tag(&event)?;
        let point_fields = fields_of_tag(&point)?;
        envelope_from_fields(&event_fields, &point_fields)
    }
}

/// Reads the envelope of a message from its XML text.
///
/// Fails with `Xml` where the tokenizer rejects the text or an attribute of `event` or `point`
/// is malformed, with `MissingField` where `event`, its child `point`, its child `detail` or
/// a required attribute is absent, and with `MalformedTimestamp` where `time`, `start` or
/// `stale` is not RFC 3339. Timestamps are taken as instants, whatever offset they are
/// written with.
pub fn decode(text: &str) -> (res: Result<CotBase, CotError>)
    ensures
        match decoded(tokenized(text@)) {
            Ok(envelope) => res matches Ok(cot) && cot.envelope() == envelope,
            Err(fault) => res matches Err(e) && e@ == fault,
        },
{
    let mut reader = open_reader(text);
    let mut scan = EnvelopeScan::new();
    loop
        invariant
            pending(&reader).failed == tokenized(text@).failed,
            envelope_scan_all(scan@, pending(&reader).events) == envelope_scan_all(
                envelope_scan_start(),
                tokenized(text@).events,
            ),
        decreases pending(&reader).events.len(),
    {
        match next_event(&mut reader) {
            Ok(XmlEvent::Eof) => {
                return scan.finish();
            },
            Ok(event) => {
                scan.step(&event);
            },
            Err(e) => {
                return Err(CotError::Xml(describe(&e)));
            },
        }
    }
}

/// The text of one attribute: a space, the name, and the escaped value between double quotes.
pub open spec fn attr_text(f: FieldView) -> Seq<char> {
    " "@ + f.name + "=\""@ + escaped(f.value) + "\""@
}

/// The text of a list of attributes, in order.
pub open spec fn attrs_text(fields: Seq<FieldView>) -> Seq<char>
    decreases fields.len(),
{
    if fields.len() == 0 {
        Seq::empty()
    } else {
        attrs_text(fields.drop_last()) + attr_text(fields.last())
    }
}

/// The texts of `parts` one after the other.
pub open spec fn joined(parts: Seq<Seq<char>>) -> Seq<char>
    decreases parts.len(),
{
    if parts.len() == 0 {
        Seq::empty()
    } else {
        joined(parts.drop_last()) + parts.last()
    }
}

/// The text of a `detail` element with these fragments as children.
pub open spec fn detail_text(fragments: Seq<Seq<char>>) -> Seq<char> {
    if fragments.len() == 0 {
        "<detail/>"@
    } else {
        "<detail>"@ + joined(fragments) + "</detail>"@
    }
}

/// The XML text of a message with this envelope and these detail fragments: `event` with its
/// attributes, then `detail`, then `point` with its attributes.
pub open spec fn encoded(e: Envelope, fragments: Seq<Seq<char>>) -> Seq<char> {
    "<event"@ + attrs_text(event_fields(e)) + ">"@ + detail_text(fragments) + "<point"@
        + attrs_text(point_fields(e.point)) + "/>"@ + "</event>"@
}

/// The events of a message as `encoded` writes it with no fragments: the start tag of
/// `event`, the two self-closing children, and the end tag.
pub open spec fn events_as_written(e: Envelope) -> Seq<EventView> {
    seq![
        EventView::Start(TagView { name: "event"@, rest: attrs_text(event_fields(e)) }),
        EventView::Empty(TagView { name: "detail"@, rest: Seq::empty() }),
        EventView::Empty(TagView { name: "point"@, rest: attrs_text(point_fields(e.point)) }),
        EventView::End("event"@),
    ]
}

/// Round trip through text, as far as this library goes: where the tokenizer reads the text
/// of an envelope as the events that were written, and the attributes of the two tags as
/// the fields that were written, decoding the text gives the envelope back, provided that
/// its three timestamps read back from their wire form.
pub proof fn lemma_text_round_trip(e: Envelope)
    requires
        reads_back(e.time),
        reads_back(e.start),
        reads_back(e.stale),
        tokenized(encoded(e, Seq::empty())) == (Tokens {
            events: events_as_written(e),
            failed: false,
        }),
        tag_fields(attrs_text(event_fields(e))) == Some(event_fields(e)),
        tag_fields(attrs_text(point_fields(e.point))) == Some(point_fields(e.point)),
    ensures
        decoded(tokenized(encoded(e, Seq::empty()))) == Ok::<Envelope, Fault>(e),
{
    let events = events_as_written(e);
    reveal_strlit("event");
    reveal_strlit("detail");
    reveal_strlit("point");
    assert("detail"@[0] != "point"@[0]);
    let s0 = envelope_scan_start();
    let s1 = envelope_scan_step(s0, events[0]);
    let s2 = envelope_scan_step(s1, events[1]);
    let s3 = envelope_scan_step(s2, events[2]);
    let s4 = envelope_scan_step(s3, events[3]);
    assert(envelope_scan_all(s0, events) == s4) by {
        reveal_with_fuel(envelope_scan_all, 5);
        assert(events.skip(1)[0] == events[1]);
        assert(events.skip(1).skip(1)[0] == events[2]);
        assert(events.skip(1).skip(1).skip(1)[0] == events[3]);
        assert(events.skip(1).skip(1).skip(1).skip(1) =~= Seq::<EventView>::empty());
    }
    lemma_envelope_round_trip(e);
}

/// Appends the text of `fields` to `out`.
fn write_attrs(out: &mut String, fields: &Vec<Field>)
    ensures
        final(out)@ == old(out)@ + attrs_text(field_views(fields@)),
{
    let ghost all = field_views(fields@);
    let mut i: usize = 0;
    assert(all.take(0) =~= Seq::<FieldView>::empty());
    while i < fields.len()
        invariant
            i <= fields.len(),
            all == field_views(fields@),
            out@ == old(out)@ + attrs_text(all.take(i as int)),
        decreases fields.len() - i,
    {
        let value = escape_text(fields[i].value.as_str());
        out.append(" ");
        out.append(fields[i].name.as_str());
        out.append("=\"");
        out.append(value.as_str());
        out.append("\"");
        proof {
            let next = all.take(i + 1);
            assert(next.drop_last() =~= all.take(i as int));
            assert(next.last() == fields@[i as int]@);
            assert(out@ =~= old(out)@ + attrs_text(next));
        }
        i += 1;
    }
    assert(all.take(fields.len() as int) =~= all);
}

/// Appends a `detail` element with these fragments to `out`.
fn write_detail(out: &mut String, fragments: &Vec<String>)
    ensures
        final(out)@ == old(out)@ + detail_text(texts(fragments@)),
{
    if fragments.len() == 0 {
        out.append("<detail/>");
        return ;
    }
    out.append("<detail>");
    let ghost all = texts(fragments@);
    let ghost base = out@;
    let mut i: usize = 0;
    assert(all.take(0) =~= Seq::<Seq<char>>::empty());
    while i < fragments.len()
        invariant
            i <= fragments.len(),
            all == texts(fragments@),
            out@ == base + joined(all.take(i as int)),
        decreases fragments.len() - i,
    {
        out.append(fragments[i].as_str());
        proof {
            let next = all.take(i + 1);
            assert(next.drop_last() =~= all.take(i as int));
            assert(next.last() == fragments@[i as int]@);
            assert(out@ =~= base + joined(next));
        }
        i += 1;
    }
    assert(all.take(fragments.len() as int) =~= all);
    out.append("</detail>");
    assert(out@ =~= old(out)@ + detail_text(all));
}

/// The text of the envelope of `cot` around these fragments.
fn write_message<D>(cot: &Cot<D>, fragments: &Vec<String>) -> (text: String)
    ensures
        text@ == encoded(cot.envelope(), texts(fragments@)),
{
    let mut text = String::new();
    text.append("<event");
    write_attrs(&mut text, &event_to_fields(cot));
    text.append(">");
    write_detail(&mut text, fragments);
    text.append("<point");
    write_attrs(&mut text, &point_to_fields(&cot.point));
    text.append("/>");
    text.append("</event>");
    assert(text@ =~= encoded(cot.envelope(), texts(fragments@)));
    text
}

/// Writes the envelope of a message as XML text, with an empty `detail` element. Timestamps
/// are written in UTC with milliseconds and a `Z`; `how` is left out where there is none.
/// Never fails.
pub fn encode(cot: &CotBase) -> (text: String)
    ensures
        text@ == encoded(cot.envelope(), Seq::empty()),
{
    let none: Vec<String> = Vec::new();
    assert(texts(none@) =~= Seq::<Seq<char>>::empty());
    write_message(cot, &none)
}

/// Writes a message with raw detail as XML text: the envelope as `encode` writes it, and the
/// fragments, untouched and in order, as the children of `detail`.
pub fn encode_unparsed(cot: &CotUnparsedDetail) -> (text: String)
    ensures
        text@ == encoded(cot.envelope(), texts(cot.detail@)),
{
    write_message(cot, &cot.detail)
}

} // verus!
