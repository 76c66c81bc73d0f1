//! The remote-debugging packet format: JSON and bulk packets.

use marionette::debugger::{readpacket, sendpacket, ListTabsRequest, Packet, ServerPacket};
use marionette::error::MarionetteError;
use marionette::json::JsonData;

#[test]
fn bulk_packet() {
    let pkt = b"bulk actor type 3:123".to_vec();

    let (parsed_pkd, used) = readpacket(&pkt).unwrap();
    assert_eq!(used, pkt.len());
    assert_eq!(
        parsed_pkd,
        Packet::BulkData("actor".to_string(), "type".to_string(), b"123".to_vec())
    );

    let out = sendpacket(&parsed_pkd);
    assert_eq!(pkt, out);
}

#[test]
fn json_packet() {
    let pkt = b"2:{}".to_vec();

    let (parsed_pkd, used) = readpacket(&pkt).unwrap();
    assert_eq!(used, pkt.len());
    assert_eq!(parsed_pkd, Packet::Json(JsonData::Obj(vec![])));

    let out = sendpacket(&parsed_pkd);
    assert_eq!(pkt, out);
}

#[test]
fn bulk_packet_with_bad_header_is_an_error() {
    assert_eq!(readpacket(b"bulk:x"), Err(MarionetteError::Frame));
    assert_eq!(readpacket(b"bulk actor:x"), Err(MarionetteError::Frame));
    assert_eq!(readpacket(b"bulk actor type:x"), Err(MarionetteError::Frame));
    assert_eq!(
        readpacket(b"bulk actor type nan:x"),
        Err(MarionetteError::Frame)
    );
    assert_eq!(readpacket(b"bulkier 1:x"), Err(MarionetteError::Frame));
}

#[test]
fn truncated_bulk_payload_is_an_error() {
    assert_eq!(
        readpacket(b"bulk actor type 9:123"),
        Err(MarionetteError::Frame)
    );
}

#[test]
fn json_packet_that_does_not_parse_is_a_json_error() {
    assert_eq!(readpacket(b"3:{{{"), Err(MarionetteError::JSON));
}

#[test]
fn list_tabs_request_serializes_exactly() {
    let mut out: Vec<u8> = Vec::new();
    ListTabsRequest::new().write_json(&mut out);
    assert_eq!(
        String::from_utf8(out).unwrap(),
        "{\"to\":\"root\",\"type\":\"listTabs\"}"
    );
}

#[test]
fn server_packet_decodes_from_and_optional_error() {
    let d = JsonData::Obj(vec![
        ("from".to_string(), JsonData::Str("root".to_string())),
        ("error".to_string(), JsonData::Str("unknownActor".to_string())),
    ]);
    let p = ServerPacket::from_json(&d).unwrap();
    assert_eq!(p.from, "root");
    assert_eq!(p.error, Some("unknownActor".to_string()));
    assert_eq!(p.message, None);
    let bare = JsonData::Obj(vec![(
        "from".to_string(),
        JsonData::Str("tab1".to_string()),
    )]);
    let p = ServerPacket::from_json(&bare).unwrap();
    assert_eq!(p.error, None);
    assert_eq!(ServerPacket::from_json(&JsonData::Null), None);
}
