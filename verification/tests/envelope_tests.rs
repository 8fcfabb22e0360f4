use cot_proto::base::{Cot, CotBase, NoDetail, Point};
use cot_proto::detail::{parse, CotUnparsedDetail};
use cot_proto::envelope::{
    decode, encode, encode_unparsed, envelope_from_fields, event_to_fields, fields_of_tag,
    get_field, point_from_fields, point_to_fields, EnvelopeScan, Field,
};
use cot_proto::examples::{COT_BASE_EXAMPLE, COT_STRIKE_EXAMPLE, COT_TRACK_EXAMPLE};
use cot_proto::time::Timestamp;
use cot_proto::xml::{XmlEvent, XmlTag};
use cot_proto::CotError;

fn field(name: &str, value: &str) -> Field {
    Field { name: name.to_string(), value: value.to_string() }
}

fn sample() -> CotBase {
    Cot {
        version: "2.0".to_string(),
        uid: "J-01334".to_string(),
        cot_type: "a-h-A-M-F-U-M".to_string(),
        time: Timestamp::new(1112701418, 70_000_000).unwrap(),
        start: Timestamp::new(1112701418, 70_000_000).unwrap(),
        stale: Timestamp::new(1112701538, 70_000_000).unwrap(),
        how: None,
        detail: NoDetail {},
        point: Point {
            lat: "30.0090027".to_string(),
            lon: "-85.9578735".to_string(),
            ce: "45.3".to_string(),
            hae: "-42.6".to_string(),
            le: "99.5".to_string(),
        },
    }
}

#[test]
fn test_serde_roundtrip() {
    // Create two Cot objects, one from example string and another from a round trip from that
    // to a string and back again. Validate values match.
    let cot0: CotBase = decode(COT_BASE_EXAMPLE).unwrap();
    let cot_str = encode(&cot0);
    let cot1: CotBase = decode(&cot_str).unwrap();
    assert_eq!(cot0, cot1);
}

#[test]
fn decode_reads_every_field() {
    assert_eq!(decode(COT_BASE_EXAMPLE).unwrap(), sample());
}

#[test]
fn encode_writes_the_wire_form() {
    assert_eq!(
        encode(&sample()),
        "<event version=\"2.0\" uid=\"J-01334\" type=\"a-h-A-M-F-U-M\" \
         time=\"2005-04-05T11:43:38.070Z\" start=\"2005-04-05T11:43:38.070Z\" \
         stale=\"2005-04-05T11:45:38.070Z\"><detail/>\
         <point lat=\"30.0090027\" lon=\"-85.9578735\" ce=\"45.3\" hae=\"-42.6\" le=\"99.5\"/>\
         </event>"
    );
}

#[test]
fn how_is_written_only_where_present() {
    let mut cot = sample();
    assert!(!encode(&cot).contains("how"));
    cot.how = Some("m-g".to_string());
    assert!(encode(&cot).contains(" stale=\"2005-04-05T11:45:38.070Z\" how=\"m-g\">"));
    assert_eq!(decode(&encode(&cot)).unwrap(), cot);
}

#[test]
fn values_are_escaped_and_read_back() {
    let mut cot = sample();
    cot.uid = "a<b>&\"c'".to_string();
    let text = encode(&cot);
    assert!(text.contains(" uid=\"a&lt;b&gt;&amp;&quot;c&apos;\""));
    assert_eq!(decode(&text).unwrap(), cot);
}

#[test]
fn offsets_are_normalised_to_utc() {
    let text = COT_BASE_EXAMPLE.replace("stale=\"2005-04-05T11:45:38.07Z\"", "stale=\"2005-04-05T13:45:38.07+02:00\"");
    let cot = decode(&text).unwrap();
    assert_eq!(cot, sample());
    assert!(encode(&cot).contains("stale=\"2005-04-05T11:45:38.070Z\""));
}

#[test]
fn finer_fractions_do_not_survive_the_wire_form() {
    let cot = decode(COT_STRIKE_EXAMPLE).unwrap();
    assert_eq!(cot.time.nanos(), 897_441_000);
    let again = decode(&encode(&cot)).unwrap();
    assert_eq!(again.time.nanos(), 897_000_000);
    assert_eq!(again.time.secs(), cot.time.secs());
    assert_eq!(again.uid, cot.uid);
    assert_eq!(decode(&encode(&again)).unwrap(), again);
}

#[test]
fn unknown_attributes_and_elements_are_passed_over() {
    let cot = decode(COT_TRACK_EXAMPLE).unwrap();
    assert_eq!(cot.uid, "1228717");
    assert_eq!(cot.how.as_deref(), Some("m-g"));
    assert_eq!(cot.time, Timestamp::new(1692618468, 0).unwrap());
    assert_eq!(cot.start, Timestamp::new(1692622022, 283_000_000).unwrap());
    assert_eq!(cot.point.ce, "10.0");
}

#[test]
fn missing_attributes_are_named_in_order() {
    let full = "<event version=\"2.0\" uid=\"u\" type=\"t\" time=\"2005-04-05T11:43:38Z\" \
                start=\"2005-04-05T11:43:38Z\" stale=\"2005-04-05T11:45:38Z\">\
                <detail/><point lat=\"1\" lon=\"2\" ce=\"3\" hae=\"4\" le=\"5\"/></event>";
    assert!(decode(full).is_ok());
    for name in ["version", "uid", "type", "time", "start", "stale", "lat", "lon", "ce", "hae", "le"] {
        let cut = full.replacen(&format!(" {}=", name), &format!(" x{}=", name), 1);
        assert_eq!(decode(&cut).unwrap_err(), CotError::MissingField(name.to_string()));
    }
    let two = full.replacen(" uid=", " xuid=", 1).replacen(" lat=", " xlat=", 1);
    assert_eq!(decode(&two).unwrap_err(), CotError::MissingField("uid".to_string()));
}

#[test]
fn malformed_timestamps_are_named() {
    for name in ["time", "start", "stale"] {
        let text = COT_BASE_EXAMPLE.replacen(&format!("{}=\"2005-04-05T", name), &format!("{}=\"2005/04/05T", name), 1);
        assert_eq!(decode(&text).unwrap_err(), CotError::MalformedTimestamp(name.to_string()));
    }
}

#[test]
fn missing_elements_are_named() {
    assert_eq!(decode("<other/>").unwrap_err(), CotError::MissingField("event".to_string()));
    assert_eq!(decode("").unwrap_err(), CotError::MissingField("event".to_string()));
    let no_point = "<event version=\"2.0\"><detail/></event>";
    assert_eq!(decode(no_point).unwrap_err(), CotError::MissingField("point".to_string()));
    let no_detail = "<event version=\"2.0\"><point/></event>";
    assert_eq!(decode(no_detail).unwrap_err(), CotError::MissingField("detail".to_string()));
    let nested_only = "<event version=\"2.0\"><detail><point lat=\"1\"/></detail></event>";
    assert_eq!(decode(nested_only).unwrap_err(), CotError::MissingField("point".to_string()));
}

#[test]
fn tokenizer_errors_come_first() {
    assert!(matches!(decode("<event><detail></event>"), Err(CotError::Xml(_))));
    assert!(matches!(decode("<event version=\"2.0\""), Err(CotError::Xml(_))));
    let bad_attr = COT_BASE_EXAMPLE.replacen("uid=\"J-01334\"", "uid=J-01334", 1);
    assert!(matches!(decode(&bad_attr), Err(CotError::Xml(_))));
    let twice = COT_BASE_EXAMPLE.replacen("uid=\"J-01334\"", "uid=\"a\" uid=\"b\"", 1);
    assert!(matches!(decode(&twice), Err(CotError::Xml(_))));
    let bad_ref = COT_BASE_EXAMPLE.replacen("uid=\"J-01334\"", "uid=\"a&nosuch;\"", 1);
    assert!(matches!(decode(&bad_ref), Err(CotError::Xml(_))));
}

#[test]
fn fields_round_trip_without_text() {
    let mut cot = sample();
    cot.how = Some("h-e".to_string());
    let event = event_to_fields(&cot);
    let point = point_to_fields(&cot.point);
    let names: Vec<&str> = event.iter().map(|f| f.name.as_str()).collect();
    assert_eq!(names, vec!["version", "uid", "type", "time", "start", "stale", "how"]);
    assert_eq!(event[3].value, "2005-04-05T11:43:38.070Z");
    assert_eq!(envelope_from_fields(&event, &point).unwrap(), cot);
}

#[test]
fn field_lookup_takes_the_first() {
    let fields = vec![field("a", "1"), field("b", "2"), field("a", "3")];
    assert_eq!(get_field(&fields, "a"), Some("1".to_string()));
    assert_eq!(get_field(&fields, "b"), Some("2".to_string()));
    assert_eq!(get_field(&fields, "c"), None);
    assert_eq!(get_field(&Vec::new(), "a"), None);
}

#[test]
fn point_fields_are_all_required() {
    let p = sample().point;
    let mut fields = point_to_fields(&p);
    assert_eq!(point_from_fields(&fields).unwrap(), p);
    fields.remove(2);
    assert_eq!(point_from_fields(&fields).unwrap_err(), CotError::MissingField("ce".to_string()));
}

#[test]
fn tag_fields_resolve_references() {
    let tag = XmlTag { name: "event".to_string(), rest: " a=\"x &amp; y\" b='&#65;' ".to_string() };
    assert_eq!(fields_of_tag(&tag).unwrap(), vec![field("a", "x & y"), field("b", "A")]);
    let bad = XmlTag { name: "event".to_string(), rest: " a=\"1\" b ".to_string() };
    assert!(matches!(fields_of_tag(&bad), Err(CotError::Xml(_))));
}

#[test]
fn envelope_scan_by_hand() {
    let tag = |name: &str, rest: &str| XmlTag { name: name.to_string(), rest: rest.to_string() };
    let all = " version=\"2.0\" uid=\"u\" type=\"t\" time=\"2005-04-05T11:43:38Z\" start=\"2005-04-05T11:43:38Z\" stale=\"2005-04-05T11:45:38Z\"";
    let mut scan = EnvelopeScan::new();
    scan.step(&XmlEvent::Other);
    scan.step(&XmlEvent::Start(tag("event", all)));
    scan.step(&XmlEvent::Start(tag("detail", "")));
    scan.step(&XmlEvent::Empty(tag("point", " lat=\"nested\"")));
    scan.step(&XmlEvent::End("detail".to_string()));
    scan.step(&XmlEvent::Empty(tag("point", " lat=\"1\" lon=\"2\" ce=\"3\" hae=\"4\" le=\"5\"")));
    scan.step(&XmlEvent::Empty(tag("point", " lat=\"second\"")));
    scan.step(&XmlEvent::End("event".to_string()));
    scan.step(&XmlEvent::Start(tag("event", " version=\"other\"")));
    let cot = scan.finish().unwrap();
    assert_eq!(cot.uid, "u");
    assert_eq!(cot.point.lat, "1");
}

#[test]
fn raw_detail_is_written_back() {
    let cot: CotUnparsedDetail = parse(COT_TRACK_EXAMPLE).unwrap();
    let text = encode_unparsed(&cot);
    assert!(text.contains("<detail><track course=\"0\" speed=\"0\" version=\"0.2\"/><contact callsign=\"BLAMO-IDM1-3V\"/><_flow-tags_ TAK-Server-ae386e25da33412635239519c6f0e1ae=\"2023-07-21T11:52:33Z\"/></detail>"));
    assert_eq!(parse(&text).unwrap(), cot);
}
