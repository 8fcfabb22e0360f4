//! The raw `detail` section: its child elements, gathered as text in document order, and
//! the parser that keeps them beside the typed envelope.

use vstd::prelude::*;
use vstd::string::StringExecFns;
use crate::base::{Cot, CotBase, Envelope};
use crate::envelope::{decode, decoded};
use crate::text::same_text;
use crate::xml::{
    describe, next_event, open_reader, pending, tokenized, EventView, TagView, Tokens, XmlEvent,
    XmlTag,
};
use crate::{CotError, Fault};

verus! {

/// A message whose `detail` section is kept as raw fragments, one per child element.
pub type CotUnparsedDetail = Cot<Vec<String>>;

/// The text of a start tag.
pub open spec fn start_text(tag: TagView) -> Seq<char> {
    "<"@ + tag.name + tag.rest + ">"@
}

/// The text of a self-closing tag.
pub open spec fn empty_text(tag: TagView) -> Seq<char> {
    "<"@ + tag.name + tag.rest + "/>"@
}

/// The text of an end tag.
pub open spec fn end_text(name: Seq<char>) -> Seq<char> {
    "</"@ + name + ">"@
}

/// The text of a character-data section.
pub open spec fn cdata_text(text: Seq<char>) -> Seq<char> {
    "<![CDATA["@ + text + "]]>"@
}

/// The views of a list of strings.
pub open spec fn texts(list: Seq<String>) -> Seq<Seq<char>> {
    list.map_values(|s: String| s@)
}

/// Where a scan for `detail` fragments stands.
///
/// Policy: every child element of `detail` becomes one fragment that holds the whole element,
/// its own tags as written and everything between them: nested tags, character data with its
/// escapes, character-data sections. White space at either end of character data, comments
/// and processing instructions are not kept. Text directly under `detail` is ignored.
pub ghost struct ScanView {
    /// Inside a `detail` element.
    pub inside: bool,
    /// How many elements below `detail` are open.
    pub depth: nat,
    /// The text gathered so far of the child element that is open.
    pub current: Seq<char>,
    /// The fragments completed so far.
    pub fragments: Seq<Seq<char>>,
}

/// The scan before any event.
pub open spec fn scan_start() -> ScanView {
    ScanView { inside: false, depth: 0, current: Seq::empty(), fragments: Seq::empty() }
}

/// The scan after one more event. Outside `detail`, only a start tag of that name matters: it
/// enters. Between the children of `detail`, a start tag opens a child, a self-closing tag is
/// a child of its own, and an end tag leaves `detail`. Inside a child, every event adds its
/// text, and the end tag that closes the child completes the fragment.
pub open spec fn scan_step(s: ScanView, event: EventView) -> ScanView {
    if !s.inside {
        match event {
            EventView::Start(tag) => ScanView { inside: tag.name == "detail"@, ..s },
            _ => s,
        }
    } else if s.depth == 0 {
        match event {
            EventView::Start(tag) => ScanView { depth: 1, current: start_text(tag), ..s },
            EventView::Empty(tag) => ScanView { fragments: s.fragments.push(empty_text(tag)), ..s },
            EventView::End(_) => ScanView { inside: false, ..s },
            _ => s,
        }
    } else {
        match event {
            EventView::Start(tag) => ScanView {
                depth: s.depth + 1,
                current: s.current + start_text(tag),
                ..s
            },
            EventView::Empty(tag) => ScanView { current: s.current + empty_text(tag), ..s },
            EventView::End(name) => if s.depth == 1 {
                ScanView {
                    depth: 0,
                    current: Seq::empty(),
                    fragments: s.fragments.push(s.current + end_text(name)),
                    ..s
                }
            } else {
                ScanView {
                    depth: (s.depth - 1) as nat,
                    current: s.current + end_text(name),
                    ..s
                }
            },
            EventView::Text(text) => ScanView { current: s.current + text, ..s },
            EventView::CData(text) => ScanView { current: s.current + cdata_text(text), ..s },
            _ => s,
        }
    }
}

/// The scan after all of `events`, in order.
pub open spec fn scan_all(s: ScanView, events: Seq<EventView>) -> ScanView
    decreases events.len(),
{
    if events.len() == 0 {
        s
    } else {
        scan_all(scan_step(s, events[0]), events.skip(1))
    }
}

/// The fragments of the `detail` section of a document with these events.
pub open spec fn detail_fragments(events: Seq<EventView>) -> Seq<Seq<char>> {
    scan_all(scan_start(), events).fragments
}

/// A scan for the fragments of `detail`, fed one event at a time.
pub struct DetailScan {
    /// Inside a `detail` element.
    inside: bool,
    /// The names of the elements that are open below `detail`, outermost first.
    open: Vec<String>,
    /// The text gathered so far of the child element that is open.
    current: String,
    /// The fragments completed so far.
    fragments: Vec<String>,
}

impl View for DetailScan {
    type V = ScanView;

    closed spec fn view(&self) -> ScanView {
        ScanView {
            inside: self.inside,
            depth: self.open@.len(),
            current: self.current@,
            fragments: texts(self.fragments@),
        }
    }
}

/// The text of a tag that ends with `close`.
fn tag_text(tag: &XmlTag, close: &str) -> (text: String)
    ensures
        text@ == "<"@ + tag@.name + tag@.rest + close@,
{
    let mut text = String::new();
    text.append("<");
    text.append(tag.name.as_str());
    text.append(tag.rest.as_str());
    text.append(close);
    assert(text@ =~= "<"@ + tag@.name + tag@.rest + close@);
    text
}

impl DetailScan {
    /// A scan that has seen no event.
    pub fn new() -> (scan: DetailScan)
        ensures
            scan@ == scan_start(),
    {
        let scan = DetailScan {
            inside: false,
            open: Vec::new(),
            current: String::new(),
            fragments: Vec::new(),
        };
        assert(texts(scan.fragments@) =~= Seq::<Seq<char>>::empty());
        scan
    }

    /// Takes one more event.
    pub fn step(&mut self, event: &XmlEvent)
        ensures
            final(self)@ == scan_step(old(self)@, event@),
    {
        let ghost before = self@;
        if !self.inside {
            match event {
                XmlEvent::Start(tag) => {
                    self.inside = same_text(tag.name.as_str(), "detail");
                },
                _ => {},
            }
        } else if self.open.len() == 0 {
            match event {
                XmlEvent::Start(tag) => {
                    self.open.push(tag.name.clone());
                    self.current = tag_text(tag, ">");
                },
                XmlEvent::Empty(tag) => {
                    self.fragments.push(tag_text(tag, "/>"));
                    assert(texts(self.fragments@) =~= before.fragments.push(empty_text(tag@)));
                },
                XmlEvent::End(_) => {
                    self.inside = false;
                },
                _ => {},
            }
        } else {
            match event {
                XmlEvent::Start(tag) => {
                    self.open.push(tag.name.clone());
                    let text = tag_text(tag, ">");
                    self.current.append(text.as_str());
                },
                XmlEvent::Empty(tag) => {
                    let text = tag_text(tag, "/>");
                    self.current.append(text.as_str());
                },
                XmlEvent::End(name) => {
                    self.open.pop();
                    self.current.append("</");
                    self.current.append(name.as_str());
                    self.current.append(">");
                    assert(self.current@ =~= before.current + end_text(name@));
                    if self.open.len() == 0 {
                        let mut done = String::new();
                        std::mem::swap(&mut self.current, &mut done);
                        self.fragments.push(done);
                        assert(texts(self.fragments@) =~= before.fragments.push(
                            before.current + end_text(name@),
                        ));
                    }
                },
                XmlEvent::Text(text) => {
                    self.current.append(text.as_str());
                },
                XmlEvent::CData(text) => {
                    self.current.append("<![CDATA[");
                    self.current.append(text.as_str());
                    self.current.append("]]>");
                    assert(self.current@ =~= before.current + cdata_text(text@));
                },
                _ => {},
            }
        }
    }

    /// The fragments completed so far.
    pub fn into_fragments(self) -> (fragments: Vec<String>)
        ensures
            texts(fragments@) == self@.fragments,
    {
        self.fragments
    }
}

/// The fragments of the `detail` section of the document that `reader` has yet to deliver, one
/// per child element, in document order and with repeated tags kept. Fails, with no partial
/// result, exactly when the tokenizer fails before the end of the document.
pub fn extract_detail(reader: quick_xml::Reader<&[u8]>) -> (res: Result<Vec<String>, CotError>)
    ensures
        match res {
            Ok(detail) => {
                &&& !pending(&reader).failed
                &&& texts(detail@) == detail_fragments(pending(&reader).events)
            },
            Err(e) => pending(&reader).failed && e is Xml,
        },
{
    let ghost whole = pending(&reader);
    let mut tokens = reader;
    let mut scan = DetailScan::new();
    loop
        invariant
            whole == pending(&reader),
            pending(&tokens).failed == whole.failed,
            scan_all(scan@, pending(&tokens).events) == scan_all(scan_start(), whole.events),
        decreases pending(&tokens).events.len(),
    {
        match next_event(&mut tokens) {
            Ok(XmlEvent::Eof) => {
                return Ok(scan.into_fragments());
            },
            Ok(event) => {
                scan.step(&event);
            },
            Err(e) => {
                return Err(CotError::Xml(describe(&e)));
            },
        }
    }
}

/// The text that an event stands for in a fragment; a comment, a declaration or a processing
/// instruction stands for none.
pub open spec fn event_text(event: EventView) -> Seq<char> {
    match event {
        EventView::Start(tag) => start_text(tag),
        EventView::Empty(tag) => empty_text(tag),
        EventView::End(name) => end_text(name),
        EventView::Text(text) => text,
        EventView::CData(text) => cdata_text(text),
        _ => Seq::empty(),
    }
}

/// The texts of `events`, one after the other.
pub open spec fn written(events: Seq<EventView>) -> Seq<char>
    decreases events.len(),
{
    if events.len() == 0 {
        Seq::empty()
    } else {
        event_text(events[0]) + written(events.skip(1))
    }
}

/// With `depth` elements open, `events` end with the end tag that closes the outermost of
/// them, and no earlier event does.
pub open spec fn closes(events: Seq<EventView>, depth: nat) -> bool
    decreases events.len(),
{
    if events.len() == 0 || depth == 0 {
        false
    } else {
        match events[0] {
            EventView::Start(_) => closes(events.skip(1), depth + 1),
            EventView::End(_) => if depth == 1 {
                events.len() == 1
            } else {
                closes(events.skip(1), (depth - 1) as nat)
            },
            _ => closes(events.skip(1), depth),
        }
    }
}

/// The events of one child element: one self-closing tag, or a start tag and all that
/// follows up to the end tag that closes it.
pub open spec fn is_child(events: Seq<EventView>) -> bool {
    events.len() > 0 && match events[0] {
        EventView::Empty(_) => events.len() == 1,
        EventView::Start(_) => closes(events.skip(1), 1),
        _ => false,
    }
}

/// The events of `children`, one child after the other.
pub open spec fn all_events(children: Seq<Seq<EventView>>) -> Seq<EventView>
    decreases children.len(),
{
    if children.len() == 0 {
        Seq::empty()
    } else {
        children[0] + all_events(children.skip(1))
    }
}

/// Inside a child element, the events up to the end tag that closes it complete one
/// fragment: the text gathered before, then the text of these events.
pub proof fn lemma_scan_closes(s: ScanView, events: Seq<EventView>, then: Seq<EventView>)
    requires
        s.inside,
        closes(events, s.depth),
    ensures
        scan_all(s, events + then) == scan_all(
            ScanView {
                depth: 0,
                current: Seq::empty(),
                fragments: s.fragments.push(s.current + written(events)),
                ..s
            },
            then,
        ),
    decreases events.len(),
{
    let all = events + then;
    let next = scan_step(s, events[0]);
    let rest = events.skip(1);
    assert(all[0] == events[0]);
    assert(all.skip(1) =~= rest + then);
    reveal_with_fuel(closes, 2);
    reveal_with_fuel(written, 2);
    if events.len() == 1 {
        assert(rest =~= Seq::<EventView>::empty());
        assert(s.current + written(events) =~= s.current + event_text(events[0]));
        assert(all.skip(1) =~= then);
    } else {
        assert(next.current =~= s.current + event_text(events[0]));
        assert(closes(rest, next.depth));
        lemma_scan_closes(next, rest, then);
        assert(next.current + written(rest) =~= s.current + written(events));
    }
}

/// Between the children of `detail`, the events of one more child add one fragment: the
/// text of those events.
pub proof fn lemma_scan_child(s: ScanView, child: Seq<EventView>, then: Seq<EventView>)
    requires
        s.inside,
        s.depth == 0,
        s.current == Seq::<char>::empty(),
        is_child(child),
    ensures
        scan_all(s, child + then) == scan_all(
            ScanView { fragments: s.fragments.push(written(child)), ..s },
            then,
        ),
{
    let all = child + then;
    let next = scan_step(s, child[0]);
    let rest = child.skip(1);
    assert(all[0] == child[0]);
    assert(all.skip(1) =~= rest + then);
    match child[0] {
        EventView::Start(tag) => {
            lemma_scan_closes(next, rest, then);
        },
        _ => {
            reveal_with_fuel(written, 2);
            assert(rest =~= Seq::<EventView>::empty());
            assert(written(child) =~= event_text(child[0]));
            assert(all.skip(1) =~= then);
        },
    }
}

/// Between the children of `detail`, a run of children adds one fragment for each, in the
/// order in which they stand.
pub proof fn lemma_scan_children(s: ScanView, children: Seq<Seq<EventView>>, then: Seq<EventView>)
    requires
        s.inside,
        s.depth == 0,
        s.current == Seq::<char>::empty(),
        forall|i: int| 0 <= i < children.len() ==> is_child(#[trigger] children[i]),
    ensures
        scan_all(s, all_events(children) + then) == scan_all(
            ScanView {
                fragments: s.fragments + children.map_values(|c: Seq<EventView>| written(c)),
                ..s
            },
            then,
        ),
    decreases children.len(),
{
    let texts = children.map_values(|c: Seq<EventView>| written(c));
    if children.len() == 0 {
        assert(all_events(children) + then =~= then);
        assert(s.fragments + texts =~= s.fragments);
    } else {
        let rest = children.skip(1);
        let next = ScanView { fragments: s.fragments.push(written(children[0])), ..s };
        assert(all_events(children) + then =~= children[0] + (all_events(rest) + then));
        lemma_scan_child(s, children[0], all_events(rest) + then);
        assert forall|i: int| 0 <= i < rest.len() implies is_child(#[trigger] rest[i]) by {
            assert(rest[i] == children[i + 1]);
        }
        lemma_scan_children(next, rest, then);
        assert(next.fragments + rest.map_values(|c: Seq<EventView>| written(c)) =~= s.fragments
            + texts);
    }
}

/// Fragment fidelity: a document whose `detail` element, opened with `rest` behind its name
/// inside an element `outer`, holds these children gives one fragment for each child, in
/// document order, each the text of its child. A child that stands twice gives two
/// fragments; none is dropped, merged or moved.
pub proof fn lemma_fragments_of_children(
    outer: TagView,
    rest: Seq<char>,
    children: Seq<Seq<EventView>>,
)
    requires
        outer.name != "detail"@,
        forall|i: int| 0 <= i < children.len() ==> is_child(#[trigger] children[i]),
    ensures
        detail_fragments(
            seq![EventView::Start(outer), EventView::Start(TagView { name: "detail"@, rest })]
                + all_events(children) + seq![
                EventView::End("detail"@),
                EventView::End(outer.name),
            ],
        ) == children.map_values(|c: Seq<EventView>| written(c)),
{
    let head = seq![EventView::Start(outer), EventView::Start(TagView { name: "detail"@, rest })];
    let tail = seq![EventView::End("detail"@), EventView::End(outer.name)];
    let events = head + all_events(children) + tail;
    let s0 = scan_start();
    let s1 = scan_step(s0, events[0]);
    let s2 = scan_step(s1, events[1]);
    assert(events.skip(1).skip(1) =~= all_events(children) + tail);
    assert(scan_all(s0, events) == scan_all(s2, all_events(children) + tail)) by {
        reveal_with_fuel(scan_all, 3);
        assert(events.skip(1)[0] == events[1]);
    }
    lemma_scan_children(s2, children, tail);
    let texts = children.map_values(|c: Seq<EventView>| written(c));
    let s3 = ScanView { fragments: s2.fragments + texts, ..s2 };
    assert(s3.fragments =~= texts);
    assert(scan_all(s3, tail).fragments == s3.fragments) by {
        reveal_with_fuel(scan_all, 3);
        assert(tail.skip(1).skip(1) =~= Seq::<EventView>::empty());
    }
}

/// An empty `detail` element, written as a pair of tags or as one self-closing tag, gives
/// no fragments.
pub proof fn lemma_empty_detail(rest: Seq<char>)
    ensures
        detail_fragments(
            seq![EventView::Start(TagView { name: "detail"@, rest }), EventView::End("detail"@)],
        ) == Seq::<Seq<char>>::empty(),
        detail_fragments(seq![EventView::Empty(TagView { name: "detail"@, rest })]) == Seq::<
            Seq<char>,
        >::empty(),
{
    reveal_with_fuel(scan_all, 3);
    let pair = seq![EventView::Start(TagView { name: "detail"@, rest }), EventView::End("detail"@)];
    assert(pair.skip(1).skip(1) =~= Seq::<EventView>::empty());
    let one = seq![EventView::Empty(TagView { name: "detail"@, rest })];
    assert(one.skip(1) =~= Seq::<EventView>::empty());
}

impl From<CotBase> for CotUnparsedDetail {
    /// The same envelope, with no detail fragments.
    fn from(cot: CotBase) -> (res: CotUnparsedDetail)
        ensures
            res.envelope() == cot.envelope(),
            res.detail@ == Seq::<String>::empty(),
    {
        Cot {
            version: cot.version,
            uid: cot.uid,
            cot_type: cot.cot_type,
            time: cot.time,
            start: cot.start,
            stale: cot.stale,
            how: cot.how,
            detail: Vec::new(),
            point: cot.point,
        }
    }
}

impl vstd::std_specs::convert::FromSpecImpl<CotBase> for CotUnparsedDetail {
    /// The conversion is stated in the contract of `from`, over views: a list of strings
    /// has no value in specifications that `from_spec` could name.
    open spec fn obeys_from_spec() -> bool {
        false
    }

    open spec fn from_spec(cot: CotBase) -> CotUnparsedDetail {
        arbitrary()
    }
}

/// What a document with these tokens parses to: its envelope and the fragments of its
/// `detail`, or what is wrong with it.
pub open spec fn parsed(tokens: Tokens) -> Result<(Envelope, Seq<Seq<char>>), Fault> {
    match decoded(tokens) {
        Ok(envelope) => Ok((envelope, detail_fragments(tokens.events))),
        Err(fault) => Err(fault),
    }
}

/// Reads a message from its XML text, keeping the `detail` section as raw fragments. The
/// text is gone through twice, once for the fragments and once for the envelope; a failure
/// of either is the failure of the whole.
pub fn parse(input: &str) -> (res: Result<CotUnparsedDetail, CotError>)
    ensures
        match parsed(tokenized(input@)) {
            Ok((envelope, fragments)) => {
                &&& res matches Ok(cot)
                &&& cot.envelope() == envelope
                &&& texts(cot.detail@) == fragments
            },
            Err(fault) => res matches Err(e) && e@ == fault,
        },
{
    let detail = extract_detail(open_reader(input))?;
    let base = decode(input)?;
    let mut cot = CotUnparsedDetail::from(base);
    cot.detail = detail;
    Ok(cot)
}

} // verus!
