use order_book_engine::parser::{L3Parser, MessageType};
use order_book_engine::schema::itchformat::{ItchMessage, UnknownMessage};

fn system_event_frame(ts: u8) -> Vec<u8> {
    vec![0x00, 0x0C, 0x53, 0x00, 0x01, 0x00, 0x02, 0x00, 0x00, 0x00, 0x00, 0x00, ts, 0x4F]
}

#[test]
fn test_message_type_from_bytes() {
    assert_eq!(MessageType::from(b'S'), MessageType::SystemEvent);
    assert_eq!(MessageType::from(b'R'), MessageType::StockDirectory);
    assert_eq!(MessageType::from(b'A'), MessageType::AddOrder);
    assert_eq!(MessageType::from(b'E'), MessageType::OrderExecuted);
    assert_eq!(MessageType::from(b'X'), MessageType::OrderCancel);
    assert_eq!(MessageType::from(b'F'), MessageType::AddOrderMPID);
    assert_eq!(MessageType::from(b'C'), MessageType::OrderExecutedWithPrice);
    assert_eq!(MessageType::from(b'Q'), MessageType::CrossTrade);
    assert_eq!(MessageType::from(b'P'), MessageType::Trade);
    assert_eq!(MessageType::from(b'D'), MessageType::OrderDelete);
    assert_eq!(MessageType::from(b'U'), MessageType::OrderReplace);
    assert_eq!(MessageType::from(b'H'), MessageType::StockTradingAction);
    assert_eq!(MessageType::from(b'Y'), MessageType::OrderPriorityUpdateY);
    assert_eq!(MessageType::from(b'I'), MessageType::NetOrderImbalanceIndicator);
    assert_eq!(MessageType::from(b'L'), MessageType::MarketParticipantPosition);
    assert_eq!(MessageType::from(b'Z'), MessageType::Unknown);
    assert_eq!(MessageType::from(0u8), MessageType::Unknown);
}

#[test]
fn test_unknown_frame_keeps_its_bytes() {
    // Type 'Z' is unknown: the message holds the type and the frame's bytes.
    let data: Vec<u8> = vec![0x00, 0x04, b'Z', 9, 8, 7];
    let mut parser = L3Parser::new(&data);
    let msg = parser.parse_next().unwrap();
    assert_eq!(
        msg,
        ItchMessage::Unknown(UnknownMessage { message_type: b'Z', body: vec![b'Z', 9, 8, 7] })
    );
    assert_eq!(parser.position(), 6);
    assert!(parser.parse_next().is_none());
}

#[test]
fn test_short_length_prefix_stops() {
    // Two bytes cannot hold a length and a type.
    let data: Vec<u8> = vec![0x00, 0x01];
    let mut parser = L3Parser::new(&data);
    assert!(parser.parse_next().is_none());
    assert_eq!(parser.position(), 0);
}

#[test]
fn test_frames_advance_by_their_length_prefix() {
    // A System Event frame that announces 14 bytes: the decoder reads 12, the
    // parser moves on by 2 + 14.
    let mut data = vec![0x00, 0x0E, 0x53, 0x00, 0x01, 0x00, 0x02, 0, 0, 0, 0, 0, 5, 0x4F, 0xAA, 0xBB];
    data.extend_from_slice(&system_event_frame(6));
    let mut parser = L3Parser::new(&data);
    match parser.parse_next().unwrap() {
        ItchMessage::SystemEvent(e) => assert_eq!(e.timestamp, 5),
        _ => panic!("Expected SystemEvent"),
    }
    assert_eq!(parser.position(), 16);
    match parser.parse_next().unwrap() {
        ItchMessage::SystemEvent(e) => assert_eq!(e.timestamp, 6),
        _ => panic!("Expected SystemEvent"),
    }
    assert_eq!(parser.position(), 30);
}

#[test]
fn test_parse_all_stops_at_incomplete_tail() {
    let mut data = system_event_frame(1);
    data.extend_from_slice(&system_event_frame(2));
    data.extend_from_slice(&[0x00, 0x0C, 0x53, 0x00]);
    let mut parser = L3Parser::new(&data);
    let messages = parser.parse_all();
    assert_eq!(messages.len(), 2);
    assert_eq!(parser.position(), 28);
    assert_eq!(messages[1].timestamp(), Some(2));
}

#[test]
fn test_short_priority_update_frame() {
    // A 'Y' frame of 3 bytes at the end of the buffer decodes to an unknown
    // message that holds the rest of the buffer.
    let data: Vec<u8> = vec![0x00, 0x03, b'Y', 1, 2];
    let mut parser = L3Parser::new(&data);
    let msg = parser.parse_next().unwrap();
    assert_eq!(
        msg,
        ItchMessage::Unknown(UnknownMessage { message_type: b'Y', body: vec![b'Y', 1, 2] })
    );
    assert_eq!(parser.position(), 5);
}

#[test]
fn test_message_names_and_timestamps() {
    let data = system_event_frame(3);
    let mut parser = L3Parser::new(&data);
    let msg = parser.parse_next().unwrap();
    assert_eq!(msg.name(), "SystemEvent");
    assert_eq!(msg.timestamp(), Some(3));
    let unknown = ItchMessage::Unknown(UnknownMessage { message_type: b'Z', body: vec![] });
    assert_eq!(unknown.name(), "Unknown");
    assert_eq!(unknown.timestamp(), None);
}

#[test]
fn test_decoded_timestamps_fit_48_bits() {
    let data: Vec<u8> = vec![0x00, 0x0C, 0x53, 0, 1, 0, 2, 0xFF, 0xFF, 0xFF, 0xFF, 0xFF, 0xFF, 0x4F];
    let mut parser = L3Parser::new(&data);
    let ts = parser.parse_next().unwrap().timestamp().unwrap();
    assert_eq!(ts, (1u64 << 48) - 1);
    assert!(ts < 1u64 << 48);
}

#[test]
fn test_parse_all_equals_repeated_parse_next() {
    let mut data = system_event_frame(1);
    data.extend_from_slice(&[0x00, 0x03, b'Z', 1, 2]);
    data.extend_from_slice(&system_event_frame(3));
    data.extend_from_slice(&[0x00, 0x09, b'A']);
    let mut whole = L3Parser::new(&data);
    let mut stepwise = L3Parser::new(&data);
    let all = whole.parse_all();
    let mut one_by_one = Vec::new();
    while let Some(m) = stepwise.parse_next() {
        one_by_one.push(m);
    }
    assert_eq!(all.len(), 3);
    assert_eq!(all, one_by_one);
    assert_eq!(whole.position(), stepwise.position());
    assert_eq!(whole.position(), 33);
    assert!(whole.parse_next().is_none());
    assert!(whole.parse_all().is_empty());
    assert_eq!(whole.position(), 33);
}

#[test]
fn test_stream_fits_checks_every_frame() {
    let mut data = system_event_frame(1);
    data.extend_from_slice(&system_event_frame(2));
    let parser = L3Parser::new(&data);
    assert!(parser.stream_fits());
    // A second frame that announces 3 bytes of a System Event, which needs 12.
    let mut bad = system_event_frame(1);
    bad.extend_from_slice(&[0x00, 0x03, 0x53, 0x00, 0x01]);
    let parser = L3Parser::new(&bad);
    assert!(parser.next_frame_fits());
    assert!(!parser.stream_fits());
    // An incomplete tail is no frame, so it cannot fail the check.
    let mut tail = system_event_frame(1);
    tail.extend_from_slice(&[0x00, 0x0C, 0x53]);
    assert!(L3Parser::new(&tail).stream_fits());
    assert!(L3Parser::new(&[]).stream_fits());
}
