use quick_xml::events::Event;

use cot_proto::examples::COT_TRACK_EXAMPLE;

#[test]
fn test_fastxml_extract() {
    let mut reader = quick_xml::Reader::from_reader(COT_TRACK_EXAMPLE.as_bytes());
    reader.config_mut().trim_text(true);
    let mut detail: Vec<String> = vec![];
    let mut is_detail = false;
    loop {
        match reader.read_event() {
            Ok(Event::Start(ref e)) => {
                if e.name().as_ref() == b"detail" {
                    is_detail = true;
                }
            }
            Ok(Event::Empty(ref e)) => {
                if is_detail {
                    detail.push(String::from_utf8_lossy(e).to_string());
                }
            }
            Ok(Event::Text(_e)) => {
                //println!("Event::Text: {:?}", e);
            }
            Ok(Event::End(ref e)) => {
                if e.name().as_ref() == b"detail" {
                    is_detail = false;
                }
            }
            Err(e) => panic!("Error at position {}: {:?}", reader.buffer_position(), e),
            Ok(Event::Eof) => break,
            _ => println!("Event: {:?}", reader.read_event()),
        }
    }
}
