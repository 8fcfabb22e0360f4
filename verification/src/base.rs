//! The message and its envelope, and the quick look-up of one attribute in a document.

use vstd::prelude::*;
use crate::text::{opt_text, same_text};
use crate::time::{Instant, Timestamp};
use crate::xml::{
    attr_outcome, attributes_in, describe, next_event, open_reader, pending, read_attributes,
    tokenized, AttrView, EventView, XmlAttr, XmlEvent,
};
use crate::CotError;

verus! {

/// A position. The five numbers are kept as the decimal text that the message holds; this
/// layer neither reads them as numbers nor checks their ranges.
#[derive(Clone, Debug, PartialEq)]
pub struct Point {
    /// Latitude in degrees.
    pub lat: String,
    /// Longitude in degrees.
    pub lon: String,
    /// Circular error.
    pub ce: String,
    /// Height above the ellipsoid.
    pub hae: String,
    /// Linear error.
    pub le: String,
}

/// A position as mathematical values.
pub ghost struct PointView {
    pub lat: Seq<char>,
    pub lon: Seq<char>,
    pub ce: Seq<char>,
    pub hae: Seq<char>,
    pub le: Seq<char>,
}

impl View for Point {
    type V = PointView;

    open spec fn view(&self) -> PointView {
        PointView { lat: self.lat@, lon: self.lon@, ce: self.ce@, hae: self.hae@, le: self.le@ }
    }
}

impl Point {
    /// The north pole, at zero height and with no error.
    pub open spec fn north_pole_spec() -> PointView {
        PointView { lat: "90.0"@, lon: "0.0"@, ce: "0.0"@, hae: "0.0"@, le: "0.0"@ }
    }

    /// The north pole, at zero height and with no error.
    pub fn north_pole() -> (p: Point)
        ensures
            p@ == Point::north_pole_spec(),
    {
        Point {
            lat: "90.0".to_owned(),
            lon: "0.0".to_owned(),
            ce: "0.0".to_owned(),
            hae: "0.0".to_owned(),
            le: "0.0".to_owned(),
        }
    }
}

/// The detail of a message whose `detail` section is not looked at.
#[derive(Clone, Copy, Debug, PartialEq, Eq, Structural)]
pub struct NoDetail {}

/// A message: the fixed envelope, and a detail payload of type `D`.
#[derive(Clone, Debug, PartialEq)]
pub struct Cot<D> {
    /// Protocol version, at present "2.0".
    pub version: String,
    /// The identifier that the producer gave the object.
    pub uid: String,
    /// Hierarchical type code, such as `a-f-A-M-F-Q`.
    pub cot_type: String,
    /// When the message was made.
    pub time: Timestamp,
    /// When the message starts to hold.
    pub start: Timestamp,
    /// When the message stops holding.
    pub stale: Timestamp,
    /// How the position was come by, if the producer says.
    pub how: Option<String>,
    /// The detail payload.
    pub detail: D,
    /// Where the object is.
    pub point: Point,
}

/// A message with an envelope only.
pub type CotBase = Cot<NoDetail>;

/// The envelope of a message as mathematical values.
pub ghost struct Envelope {
    pub version: Seq<char>,
    pub uid: Seq<char>,
    pub cot_type: Seq<char>,
    pub time: Instant,
    pub start: Instant,
    pub stale: Instant,
    pub how: Option<Seq<char>>,
    pub point: PointView,
}

impl<D> Cot<D> {
    /// The envelope of this message.
    pub open spec fn envelope(&self) -> Envelope {
        Envelope {
            version: self.version@,
            uid: self.uid@,
            cot_type: self.cot_type@,
            time: self.time@,
            start: self.start@,
            stale: self.stale@,
            how: opt_text(self.how),
            point: self.point@,
        }
    }
}

/// What looking for an attribute came to.
pub ghost enum Lookup {
    /// The attribute, with its raw value.
    Found(Seq<char>),
    /// A malformed attribute stands where the search would have gone on.
    Malformed,
    /// No attribute of that name.
    Absent,
}

/// The first attribute named `key` among `items`, unless a malformed item stands before it.
pub open spec fn find_attr(items: Seq<Option<AttrView>>, key: Seq<char>) -> Lookup
    decreases items.len(),
{
    if items.len() == 0 {
        Lookup::Absent
    } else {
        match items[0] {
            None => Lookup::Malformed,
            Some(attr) => if attr.key == key {
                Lookup::Found(attr.value)
            } else {
                find_attr(items.skip(1), key)
            },
        }
    }
}

/// What `first_element_attr` finds at one event.
pub open spec fn event_attr(event: EventView, elt: Seq<char>, attr: Seq<char>) -> Lookup {
    match event {
        EventView::Start(tag) => if tag.name == elt {
            find_attr(attributes_in(tag.rest), attr)
        } else {
            Lookup::Absent
        },
        _ => Lookup::Absent,
    }
}

/// The attribute `attr` of the first start tag named `elt` that has one, going through the
/// start tags named `elt` in document order and stopping at a malformed attribute.
pub open spec fn first_element_attr(events: Seq<EventView>, elt: Seq<char>, attr: Seq<char>) -> Lookup
    decreases events.len(),
{
    if events.len() == 0 {
        Lookup::Absent
    } else {
        match event_attr(events[0], elt, attr) {
            Lookup::Absent => first_element_attr(events.skip(1), elt, attr),
            found => found,
        }
    }
}

/// The raw value of attribute `key` among `items`: see `find_attr`.
fn lookup_attr(items: &Vec<Result<XmlAttr, quick_xml::errors::Error>>, key: &str) -> (res: Result<
    Option<String>,
    CotError,
>)
    ensures
        match find_attr(items@.map_values(|item| attr_outcome(item)), key@) {
            Lookup::Found(value) => res matches Ok(Some(v)) && v@ == value,
            Lookup::Malformed => res matches Err(e) && e is Xml,
            Lookup::Absent => res matches Ok(None),
        },
{
    let ghost all = items@.map_values(|item| attr_outcome(item));
    let mut i: usize = 0;
    assert(all.skip(0) =~= all);
    while i < items.len()
        invariant
            i <= items.len(),
            all == items@.map_values(|item| attr_outcome(item)),
            find_attr(all, key@) == find_attr(all.skip(i as int), key@),
        decreases items.len() - i,
    {
        assert(all.skip(i as int)[0] == attr_outcome(items@[i as int]));
        assert(all.skip(i as int).skip(1) =~= all.skip(i + 1));
        match &items[i] {
            Ok(attr) => {
                if same_text(attr.key.as_str(), key) {
                    return Ok(Some(attr.value.clone()));
                }
            },
            Err(e) => {
                return Err(CotError::Xml(describe(e)));
            },
        }
        i += 1;
    }
    Ok(None)
}

/// What `event_attr` finds at `event`.
fn attr_of_event(event: &XmlEvent, elt_name: &str, attr_name: &str) -> (res: Result<
    Option<String>,
    CotError,
>)
    ensures
        match event_attr(event@, elt_name@, attr_name@) {
            Lookup::Found(value) => res matches Ok(Some(v)) && v@ == value,
            Lookup::Malformed => res matches Err(e) && e is Xml,
            Lookup::Absent => res matches Ok(None),
        },
{
    match event {
        XmlEvent::Start(tag) => {
            if same_text(tag.name.as_str(), elt_name) {
                let items = read_attributes(tag.rest.as_str());
                lookup_attr(&items, attr_name)
            } else {
                Ok(None)
            }
        },
        _ => Ok(None),
    }
}

/// The value, as written, of attribute `attr_name` of the first start tag named `elt_name`
/// in `text` that has such an attribute; `None` where there is none. Fails where a malformed
/// attribute stands in the way, or where the tokenizer fails before an answer is found.
pub fn xml_first_element_w_attr(text: &str, elt_name: &str, attr_name: &str) -> (res: Result<
    Option<String>,
    CotError,
>)
    ensures
        match first_element_attr(tokenized(text@).events, elt_name@, attr_name@) {
            Lookup::Found(value) => res matches Ok(Some(v)) && v@ == value,
            Lookup::Malformed => res matches Err(e) && e is Xml,
            Lookup::Absent => if tokenized(text@).failed {
                res matches Err(e) && e is Xml
            } else {
                res matches Ok(None)
            },
        },
{
    let mut reader = open_reader(text);
    loop
        invariant
            pending(&reader).failed == tokenized(text@).failed,
            first_element_attr(pending(&reader).events, elt_name@, attr_name@)
                == first_element_attr(tokenized(text@).events, elt_name@, attr_name@),
        decreases pending(&reader).events.len(),
    {
        let event = match next_event(&mut reader) {
            Ok(event) => event,
            Err(e) => {
                return Err(CotError::Xml(describe(&e)));
            },
        };
        match attr_of_event(&event, elt_name, attr_name) {
            Ok(None) => {},
            found => {
                return found;
            },
        }
        if let XmlEvent::Eof = event {
            return Ok(None);
        }
    }
}

/// The type code of a message: attribute `type` of its `event` element, as written.
pub fn parse_cot_msg_type(text: &str) -> (res: Result<String, CotError>)
    ensures
        match first_element_attr(tokenized(text@).events, "event"@, "type"@) {
            Lookup::Found(value) => res matches Ok(v) && v@ == value,
            _ => res matches Err(CotError::MissingField(name)) && name@ == "type"@,
        },
{
    match xml_first_element_w_attr(text, "event", "type") {
        Ok(Some(value)) => Ok(value),
        _ => Err(CotError::MissingField("type".to_owned())),
    }
}

} // verus!
