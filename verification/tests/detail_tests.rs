use std::collections::HashSet;

use cot_proto::detail::{extract_detail, parse, CotUnparsedDetail, DetailScan};
use cot_proto::examples::{
    COT_BASE_EXAMPLE, COT_STRIKE_DETAIL_LINES, COT_STRIKE_EXAMPLE, COT_TRACK_DETAIL_LINES,
    COT_TRACK_EXAMPLE,
};
use cot_proto::xml::{XmlEvent, XmlTag};
use cot_proto::CotError;

fn reader_over(text: &str) -> quick_xml::Reader<&[u8]> {
    let mut reader = quick_xml::Reader::from_str(text);
    reader.config_mut().trim_text(true);
    reader
}

fn check_expected_detail(input: &str, expected_lines: &[&str]) {
    let cot = parse(input).unwrap();
    let mut expected_lines: HashSet<&str> = HashSet::from_iter(expected_lines.iter().cloned());
    for line in &cot.detail {
        let removed = expected_lines.remove(&line.as_str());
        if !removed {
            panic!("Unexpected line: {:?}\n  not in: {:?}", line, expected_lines);
        }
    }
    assert_eq!(expected_lines.len(), 0);
}

#[test]
fn test_detail_parse_track2() {
    check_expected_detail(COT_TRACK_EXAMPLE, &COT_TRACK_DETAIL_LINES)
}

#[test]
fn test_detail_parse_strike() {
    check_expected_detail(COT_STRIKE_EXAMPLE, &COT_STRIKE_DETAIL_LINES)
}

#[test]
fn track_fragments_come_in_document_order() {
    let cot = parse(COT_TRACK_EXAMPLE).unwrap();
    assert_eq!(cot.detail, COT_TRACK_DETAIL_LINES.to_vec());
}

#[test]
fn fragments_keep_order_and_duplicates() {
    let text = "<event><detail><a x=\"1\"/><b/><a x=\"1\"/></detail></event>";
    let detail = extract_detail(reader_over(text)).unwrap();
    assert_eq!(detail, vec!["<a x=\"1\"/>", "<b/>", "<a x=\"1\"/>"]);
}

#[test]
fn nested_child_is_captured_whole() {
    let text =
        "<event><detail><link uid=\"u\"><p q=\"1\"/>some &amp; text<q><![CDATA[x<y]]></q></link>\n  <z/></detail></event>";
    let detail = extract_detail(reader_over(text)).unwrap();
    assert_eq!(
        detail,
        vec!["<link uid=\"u\"><p q=\"1\"/>some &amp; text<q><![CDATA[x<y]]></q></link>", "<z/>"]
    );
}

#[test]
fn empty_detail_gives_no_fragments() {
    let detail = extract_detail(reader_over("<event><detail></detail></event>")).unwrap();
    assert!(detail.is_empty());
    let detail = extract_detail(reader_over("<event><detail/></event>")).unwrap();
    assert!(detail.is_empty());
    let cot = parse(COT_BASE_EXAMPLE).unwrap();
    assert!(cot.detail.is_empty());
}

#[test]
fn elements_outside_detail_are_not_fragments() {
    let text = "<event><point lat=\"1\"/><detail><a/></detail><after/></event>";
    let detail = extract_detail(reader_over(text)).unwrap();
    assert_eq!(detail, vec!["<a/>"]);
}

#[test]
fn text_and_comments_under_detail_are_ignored() {
    let text = "<event><detail>loose text<!-- note --><a/>more</detail></event>";
    let detail = extract_detail(reader_over(text)).unwrap();
    assert_eq!(detail, vec!["<a/>"]);
}

#[test]
fn a_second_detail_is_entered_again() {
    let text = "<event><detail><a/></detail><detail><b/></detail></event>";
    let detail = extract_detail(reader_over(text)).unwrap();
    assert_eq!(detail, vec!["<a/>", "<b/>"]);
}

#[test]
fn malformed_xml_gives_no_partial_result() {
    let text = "<event><detail><a/></wrong></event>";
    let res = extract_detail(reader_over(text));
    assert!(matches!(res, Err(CotError::Xml(_))));
    let res = extract_detail(reader_over("<event><detail><a/><unclosed"));
    match res {
        Err(CotError::Xml(message)) => assert!(!message.is_empty()),
        other => panic!("expected a tokenizer error, got {:?}", other),
    }
}

#[test]
fn scan_steps_by_hand() {
    let tag = |name: &str, rest: &str| XmlTag { name: name.to_string(), rest: rest.to_string() };
    let mut scan = DetailScan::new();
    scan.step(&XmlEvent::Empty(tag("before", "")));
    scan.step(&XmlEvent::Start(tag("detail", "")));
    scan.step(&XmlEvent::Text("ignored".to_string()));
    scan.step(&XmlEvent::Empty(tag("a", " k=\"v\" ")));
    scan.step(&XmlEvent::Start(tag("b", "")));
    scan.step(&XmlEvent::Text("t".to_string()));
    scan.step(&XmlEvent::CData("c".to_string()));
    scan.step(&XmlEvent::Other);
    scan.step(&XmlEvent::Start(tag("b", " n=\"1\"")));
    scan.step(&XmlEvent::End("b".to_string()));
    scan.step(&XmlEvent::End("b".to_string()));
    scan.step(&XmlEvent::End("detail".to_string()));
    scan.step(&XmlEvent::Empty(tag("after", "")));
    assert_eq!(
        scan.into_fragments(),
        vec!["<a k=\"v\" />", "<b>t<![CDATA[c]]><b n=\"1\"></b></b>"]
    );
}

#[test]
fn parse_fills_envelope_and_detail() {
    let cot: CotUnparsedDetail = parse(COT_TRACK_EXAMPLE).unwrap();
    assert_eq!(cot.version, "2.0");
    assert_eq!(cot.uid, "1228717");
    assert_eq!(cot.cot_type, "a-f-A-M-F-Q");
    assert_eq!(cot.how.as_deref(), Some("m-g"));
    assert_eq!(cot.point.lat, "-23.14187321890312");
    assert_eq!(cot.point.hae, "1321.29992675781");
    assert_eq!(cot.detail.len(), 3);
}

#[test]
fn parse_fails_as_either_pass_fails() {
    assert!(matches!(parse("<event><detail></event>"), Err(CotError::Xml(_))));
    let no_uid = "<event version=\"2.0\" type=\"a\"><detail/><point/></event>";
    assert_eq!(parse(no_uid).unwrap_err(), CotError::MissingField("uid".to_string()));
}

#[test]
fn from_base_drops_nothing_but_detail() {
    let base = cot_proto::envelope::decode(COT_TRACK_EXAMPLE).unwrap();
    let copy = base.clone();
    let raw = CotUnparsedDetail::from(base);
    assert!(raw.detail.is_empty());
    assert_eq!(raw.uid, copy.uid);
    assert_eq!(raw.how, copy.how);
    assert_eq!(raw.time, copy.time);
    assert_eq!(raw.point, copy.point);
}
