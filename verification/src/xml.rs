//! The XML tokenizer of quick-xml as this library sees it: events and attributes as plain
//! values, and the contracts under which the tokenizer is called.

use vstd::prelude::*;
use quick_xml::events::attributes::Attributes;
use quick_xml::events::{BytesStart, Event};

verus! {

/// The pull tokenizer of quick-xml. Nothing inside it is visible here: `pending` names what
/// it has yet to deliver.
#[verifier::external_type_specification]
#[verifier::external_body]
#[verifier::reject_recursive_types(R)]
pub struct ExReader<R>(quick_xml::Reader<R>);

/// The error of quick-xml. It is carried from the tokenizer to `describe` and not looked into.
#[verifier::external_type_specification]
#[verifier::external_body]
pub struct ExXmlError(quick_xml::errors::Error);

/// A start tag or a self-closing tag, as it stood between `<` and `>` (or `/>`): the element's
/// name, then whatever followed the name (white space and attributes), both untouched.
#[derive(Clone, Debug, PartialEq)]
pub struct XmlTag {
    /// The name of the element.
    pub name: String,
    /// What stands between the name and the end of the tag.
    pub rest: String,
}

/// One attribute of a tag: its key and its value as written, escapes still in place.
#[derive(Clone, Debug, PartialEq)]
pub struct XmlAttr {
    pub key: String,
    pub value: String,
}

/// One event of the tokenizer, holding what this library reads of it.
#[derive(Clone, Debug, PartialEq)]
pub enum XmlEvent {
    /// `<name ...>`
    Start(XmlTag),
    /// `<name .../>`
    Empty(XmlTag),
    /// `</name>`: the name.
    End(String),
    /// Character data between tags, escapes still in place.
    Text(String),
    /// The inside of a `<![CDATA[...]]>` section.
    CData(String),
    /// A comment, declaration, processing instruction or document type.
    Other,
    /// The end of the document.
    Eof,
}

/// A tag as mathematical values.
pub ghost struct TagView {
    pub name: Seq<char>,
    pub rest: Seq<char>,
}

/// An attribute as mathematical values.
pub ghost struct AttrView {
    pub key: Seq<char>,
    pub value: Seq<char>,
}

/// An event as mathematical values.
pub ghost enum EventView {
    Start(TagView),
    Empty(TagView),
    End(Seq<char>),
    Text(Seq<char>),
    CData(Seq<char>),
    Other,
    Eof,
}

impl View for XmlTag {
    type V = TagView;

    open spec fn view(&self) -> TagView {
        TagView { name: self.name@, rest: self.rest@ }
    }
}

impl View for XmlAttr {
    type V = AttrView;

    open spec fn view(&self) -> AttrView {
        AttrView { key: self.key@, value: self.value@ }
    }
}

impl View for XmlEvent {
    type V = EventView;

    open spec fn view(&self) -> EventView {
        match self {
            XmlEvent::Start(tag) => EventView::Start(tag@),
            XmlEvent::Empty(tag) => EventView::Empty(tag@),
            XmlEvent::End(name) => EventView::End(name@),
            XmlEvent::Text(text) => EventView::Text(text@),
            XmlEvent::CData(text) => EventView::CData(text@),
            XmlEvent::Other => EventView::Other,
            XmlEvent::Eof => EventView::Eof,
        }
    }
}

/// What a tokenizer has yet to deliver: the events before the end of the document or the first
/// error, and whether it is an error that ends them.
pub ghost struct Tokens {
    pub events: Seq<EventView>,
    pub failed: bool,
}

/// What `reader` has yet to deliver. A reader over a byte slice is a deterministic machine, so
/// this is a function of its state; each event uses up input, so the events are finitely many.
pub uninterp spec fn pending(reader: &quick_xml::Reader<&[u8]>) -> Tokens;

/// What a fresh reader over `text`, set to trim white space around character data, delivers.
pub uninterp spec fn tokenized(text: Seq<char>) -> Tokens;

/// The attributes that quick-xml's attribute iterator finds in `raw`, the part of a tag behind
/// its name, in order; `None` stands for an item that the iterator reports as malformed or as
/// a repeated key.
pub uninterp spec fn attributes_in(raw: Seq<char>) -> Seq<Option<AttrView>>;

/// The text that `raw` stands for once its character and entity references are resolved;
/// `None` where a reference in it is unknown, unfinished or names no character.
pub uninterp spec fn unescaped(raw: Seq<char>) -> Option<Seq<char>>;

/// What one character becomes when text is made safe for an attribute value.
pub open spec fn escaped_char(c: char) -> Seq<char> {
    if seq![c] == "<"@ {
        "&lt;"@
    } else if seq![c] == ">"@ {
        "&gt;"@
    } else if seq![c] == "&"@ {
        "&amp;"@
    } else if seq![c] == "'"@ {
        "&apos;"@
    } else if seq![c] == "\""@ {
        "&quot;"@
    } else {
        seq![c]
    }
}

/// `text` with each of `<`, `>`, `&`, `'` and `"` replaced by its entity reference.
pub open spec fn escaped(text: Seq<char>) -> Seq<char>
    decreases text.len(),
{
    if text.len() == 0 {
        Seq::empty()
    } else {
        escaped_char(text[0]) + escaped(text.skip(1))
    }
}

/// What one item of the attribute iterator stands for in `attributes_in`.
pub open spec fn attr_outcome(item: Result<XmlAttr, quick_xml::errors::Error>) -> Option<AttrView> {
    match item {
        Ok(attr) => Some(attr@),
        Err(_) => None,
    }
}

/// A reader over `input` that trims white space around character data.
///
/// Trusted: `quick_xml::Reader::from_str`, then `Config::trim_text(true)`. The claim is only
/// that the reader's events are a function of the text, which `tokenized` names.
#[verifier::external_body]
pub(crate) fn open_reader<'a>(input: &'a str) -> (reader: quick_xml::Reader<&'a [u8]>)
    ensures
        pending(&reader) == tokenized(input@),
{
    let mut reader = quick_xml::Reader::from_str(input);
    reader.config_mut().trim_text(true);
    reader
}

/// The next event of `reader`.
///
/// Trusted: `quick_xml::Reader::read_event` on a slice reader. The call hands out the first
/// pending event and leaves the rest pending; it reports the end of the document, from then on
/// at every call, exactly when no event is pending and no error ends them; it fails exactly
/// when no event is pending and an error does. Names and text are decoded as UTF-8, with the
/// replacement character for bytes that are not.
#[verifier::external_body]
pub(crate) fn next_event(reader: &mut quick_xml::Reader<&[u8]>) -> (res: Result<
    XmlEvent,
    quick_xml::errors::Error,
>)
    ensures
        match res {
            Ok(XmlEvent::Eof) => {
                &&& pending(old(reader)) == (Tokens { events: Seq::empty(), failed: false })
                &&& pending(final(reader)) == pending(old(reader))
            },
            Ok(event) => {
                &&& pending(old(reader)).events.len() > 0
                &&& pending(old(reader)).events[0] == event@
                &&& pending(final(reader)) == (Tokens {
                    events: pending(old(reader)).events.skip(1),
                    failed: pending(old(reader)).failed,
                })
            },
            Err(_) => pending(old(reader)).events.len() == 0 && pending(old(reader)).failed,
        },
{
    let text = |raw: &[u8]| String::from_utf8_lossy(raw).into_owned();
    let tag = |e: &BytesStart| XmlTag { name: text(e.name().as_ref()), rest: text(e.attributes_raw()) };
    Ok(match reader.read_event()? {
        Event::Start(e) => XmlEvent::Start(tag(&e)),
        Event::Empty(e) => XmlEvent::Empty(tag(&e)),
        Event::End(e) => XmlEvent::End(text(e.name().as_ref())),
        Event::Text(e) => XmlEvent::Text(text(&e)),
        Event::CData(e) => XmlEvent::CData(text(&e)),
        Event::Eof => XmlEvent::Eof,
        _ => XmlEvent::Other,
    })
}

/// `text` made safe to stand between the quotes of an attribute value.
///
/// Trusted: `quick_xml::escape::escape`, which its documentation gives as the replacement of
/// the five characters `<`, `>`, `&`, `'`, `"` by `&lt;`, `&gt;`, `&amp;`, `&apos;`, `&quot;`.
#[verifier::external_body]
pub(crate) fn escape_text(text: &str) -> (res: String)
    ensures
        res@ == escaped(text@),
{
    quick_xml::escape::escape(text).into_owned()
}

/// An attribute value as written, with its references resolved.
///
/// Trusted: `quick_xml::escape::unescape`, with the predefined XML entities and numeric
/// character references.
#[verifier::external_body]
pub(crate) fn unescape_text(raw: &str) -> (res: Result<String, quick_xml::errors::Error>)
    ensures
        match res {
            Ok(text) => unescaped(raw@) == Some(text@),
            Err(_) => unescaped(raw@) is None,
        },
{
    match quick_xml::escape::unescape(raw) {
        Ok(text) => Ok(text.into_owned()),
        Err(e) => Err(quick_xml::errors::Error::Escape(e)),
    }
}

/// The message of a tokenizer error.
///
/// Trusted: `Display` of `quick_xml::errors::Error`. Nothing is claimed of the text.
#[verifier::external_body]
pub(crate) fn describe(error: &quick_xml::errors::Error) -> String {
    error.to_string()
}

/// The attributes written in `raw`, the part of a tag behind its name.
///
/// Trusted: `quick_xml::events::attributes::Attributes::new` over `raw`, walked to its end.
/// Each item becomes the attribute's key and raw value, or the iterator's error.
#[verifier::external_body]
pub(crate) fn read_attributes(raw: &str) -> (items: Vec<Result<XmlAttr, quick_xml::errors::Error>>)
    ensures
        items@.map_values(|item| attr_outcome(item)) == attributes_in(raw@),
{
    let text = |raw: &[u8]| String::from_utf8_lossy(raw).into_owned();
    Attributes::new(raw, 0)
        .map(|item| match item {
            Ok(a) => Ok(XmlAttr { key: text(a.key.as_ref()), value: text(&a.value) }),
            Err(e) => Err(quick_xml::errors::Error::InvalidAttr(e)),
        })
        .collect()
}

} // verus!
