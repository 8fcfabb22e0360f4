use cot_proto::base::{Cot, Point};
use cot_proto::detail::CotUnparsedDetail;
use cot_proto::examples::{COT_BASE_EXAMPLE, COT_TRACK_EXAMPLE};
use cot_proto::tak::detect::{
    classify, detect_tak_cot_type, parse_cot_msg_type, xml_first_element_w_attr, TakCotType,
};
use cot_proto::time::Timestamp;
use cot_proto::CotError;

fn message(cot_type: &str, detail: &[&str]) -> CotUnparsedDetail {
    let t = Timestamp::new(1692622022, 0).unwrap();
    Cot {
        version: "2.0".to_string(),
        uid: "u".to_string(),
        cot_type: cot_type.to_string(),
        time: t,
        start: t,
        stale: t,
        how: None,
        detail: detail.iter().map(|s| s.to_string()).collect(),
        point: Point::north_pole(),
    }
}

fn document(cot_type: &str, detail: &str) -> String {
    format!(
        "<event version=\"2.0\" uid=\"u\" type=\"{}\" time=\"2023-08-21T12:47:02Z\" \
         start=\"2023-08-21T12:47:02Z\" stale=\"2023-08-21T12:57:02Z\">\
         <point lat=\"1\" lon=\"2\" ce=\"3\" hae=\"4\" le=\"5\"/><detail>{}</detail></event>",
        cot_type, detail
    )
}

#[test]
fn marker_by_user_icon() {
    let msg = message("a-f-A-M-F-Q", &["<contact callsign=\"x\"/>", "<usericon iconsetpath=\"p\"/>"]);
    assert_eq!(classify(&msg), TakCotType::Marker);
}

#[test]
fn geofence_in_an_earlier_fragment_wins() {
    let msg = message("a-f-A-M-F-Q", &["<__geofence elevationMonitored=\"false\"/>", "<usericon iconsetpath=\"p\"/>"]);
    assert_eq!(classify(&msg), TakCotType::GeoFence);
}

#[test]
fn user_icon_in_an_earlier_fragment_wins() {
    let msg = message("a-f-A-M-F-Q", &["<usericon iconsetpath=\"p\"/>", "<__geofence/>"]);
    assert_eq!(classify(&msg), TakCotType::Marker);
}

#[test]
fn geofence_wins_within_one_fragment() {
    let msg = message("a-f-A-M-F-Q", &["<mix><usericon/><__geofence/></mix>"]);
    assert_eq!(classify(&msg), TakCotType::GeoFence);
}

#[test]
fn shape_by_type_code() {
    assert_eq!(classify(&message("u-d-f-m", &["<contact callsign=\"x\"/>"])), TakCotType::Shape);
}

#[test]
fn unknown_is_other() {
    assert_eq!(classify(&message("a-h-A-M-F-U-M", &["<contact callsign=\"x\"/>"])), TakCotType::Other);
    assert_eq!(classify(&message("", &[])), TakCotType::Other);
}

#[test]
fn detail_rules_come_before_type_rules() {
    let msg = message("u-d-f-m", &["<usericon iconsetpath=\"p\"/>"]);
    assert_eq!(classify(&msg), TakCotType::Marker);
}

#[test]
fn type_rules_in_their_order() {
    assert_eq!(classify(&message("u-r-b-c-c", &[])), TakCotType::RangeBearing);
    assert_eq!(classify(&message("u-rb-a", &[])), TakCotType::RangeBearing);
    assert_eq!(classify(&message("b-m-r", &[])), TakCotType::Route);
    assert_eq!(classify(&message("u-d-r", &[])), TakCotType::Shape);
    assert_eq!(classify(&message("x-b-m-r-u-d-", &[])), TakCotType::Route);
    assert_eq!(classify(&message("u-d-x-u-rb-", &[])), TakCotType::RangeBearing);
    assert_eq!(classify(&message("u-r-b", &[])), TakCotType::Other);
}

#[test]
fn empty_detail_falls_through_to_the_type() {
    assert_eq!(classify(&message("u-d-f-m", &[])), TakCotType::Shape);
    let found = detect_tak_cot_type(&document("b-m-r", "")).unwrap();
    assert_eq!(found.cot_type, TakCotType::Route);
    assert!(found.cot_msg.detail.is_empty());
}

#[test]
fn classification_does_not_depend_on_the_call() {
    let a = message("u-d-f-m", &["<x/>", "<usericon/>"]);
    let mut b = message("u-d-f-m", &["<x/>", "<usericon/>"]);
    b.uid = "another".to_string();
    b.point.lat = "12".to_string();
    assert_eq!(classify(&a), classify(&a));
    assert_eq!(classify(&a), classify(&b));
}

#[test]
fn detection_reads_and_classifies() {
    let found = detect_tak_cot_type(&document("a-f-A-M-F-Q", "<usericon iconsetpath=\"p\"/>")).unwrap();
    assert_eq!(found.cot_type, TakCotType::Marker);
    assert_eq!(found.cot_msg.detail, vec!["<usericon iconsetpath=\"p\"/>"]);
    assert_eq!(found.cot_msg.cot_type, "a-f-A-M-F-Q");
    let found = detect_tak_cot_type(&document("u-d-f-m", "<link><usericon/></link>")).unwrap();
    assert_eq!(found.cot_type, TakCotType::Marker);
    let found = detect_tak_cot_type(COT_TRACK_EXAMPLE).unwrap();
    assert_eq!(found.cot_type, TakCotType::Other);
    let found = detect_tak_cot_type(COT_BASE_EXAMPLE).unwrap();
    assert_eq!(found.cot_type, TakCotType::Other);
}

#[test]
fn detection_fails_as_parsing_fails() {
    assert!(matches!(detect_tak_cot_type("<event>"), Err(CotError::MissingField(_))));
    assert!(matches!(detect_tak_cot_type("<event></x>"), Err(CotError::Xml(_))));
    let bad_time = document("a", "").replacen("time=\"2023-08-21T12:47:02Z\"", "time=\"noon\"", 1);
    assert_eq!(
        detect_tak_cot_type(&bad_time).unwrap_err(),
        CotError::MalformedTimestamp("time".to_string())
    );
}

#[test]
fn type_code_is_read_without_the_rest() {
    assert_eq!(parse_cot_msg_type(COT_BASE_EXAMPLE).unwrap(), "a-h-A-M-F-U-M");
    assert_eq!(parse_cot_msg_type(COT_TRACK_EXAMPLE).unwrap(), "a-f-A-M-F-Q");
    assert_eq!(cot_proto::base::parse_cot_msg_type("<event type=\"t\">").unwrap(), "t");
    assert_eq!(
        parse_cot_msg_type("<event uid=\"u\"></event>").unwrap_err(),
        CotError::MissingField("type".to_string())
    );
    assert_eq!(
        parse_cot_msg_type("<event type=\"t\"/>").unwrap_err(),
        CotError::MissingField("type".to_string())
    );
    assert_eq!(
        parse_cot_msg_type("<event type=t>").unwrap_err(),
        CotError::MissingField("type".to_string())
    );
}

#[test]
fn first_element_with_attribute() {
    let text = "<a k=\"0\"/><a x=\"1\"><b k=\"2\"/><a k=\"3 &amp; 4\" k2=\"5\"></a></a>";
    assert_eq!(xml_first_element_w_attr(text, "a", "k").unwrap(), Some("3 &amp; 4".to_string()));
    assert_eq!(xml_first_element_w_attr(text, "a", "x").unwrap(), Some("1".to_string()));
    assert_eq!(xml_first_element_w_attr(text, "a", "k2").unwrap(), Some("5".to_string()));
    assert_eq!(xml_first_element_w_attr(text, "b", "k").unwrap(), None);
    assert_eq!(xml_first_element_w_attr(text, "c", "k").unwrap(), None);
    assert_eq!(cot_proto::base::xml_first_element_w_attr(text, "a", "none").unwrap(), None);
}

#[test]
fn first_element_with_attribute_fails_on_bad_xml() {
    assert!(matches!(xml_first_element_w_attr("<a x=1 k=\"2\">", "a", "k"), Err(CotError::Xml(_))));
    assert_eq!(xml_first_element_w_attr("<a k=\"2\" x=1>", "a", "k").unwrap(), Some("2".to_string()));
    assert!(matches!(xml_first_element_w_attr("<b></c><a k=\"2\">", "a", "k"), Err(CotError::Xml(_))));
    assert_eq!(xml_first_element_w_attr("<a k=\"2\"><b></c>", "a", "k").unwrap(), Some("2".to_string()));
}
