use order_book_engine::parser::common::parse_timestamp;
use order_book_engine::parser::{add_order, system_event};
use order_book_engine::schema::itchformat::ItchMessage;

#[test]
fn test_parse_timestamp() {
    // Test with known values
    let bytes = [0x00, 0x00, 0x00, 0x00, 0x00, 0x01];
    assert_eq!(parse_timestamp(&bytes), 1);

    let bytes = [0x00, 0x00, 0x00, 0x00, 0x01, 0x00];
    assert_eq!(parse_timestamp(&bytes), 256);

    let bytes = [0x00, 0x00, 0x00, 0x01, 0x00, 0x00];
    assert_eq!(parse_timestamp(&bytes), 65536);

    let bytes = [0x00, 0x00, 0x01, 0x00, 0x00, 0x00];
    assert_eq!(parse_timestamp(&bytes), 16777216);

    let bytes = [0x00, 0x01, 0x00, 0x00, 0x00, 0x00];
    assert_eq!(parse_timestamp(&bytes), 4294967296);

    let bytes = [0x01, 0x00, 0x00, 0x00, 0x00, 0x00];
    assert_eq!(parse_timestamp(&bytes), 1099511627776);
}

#[test]
fn test_parse_timestamp_max_value() {
    // Test with all bytes set to 0xFF
    let bytes = [0xFF, 0xFF, 0xFF, 0xFF, 0xFF, 0xFF];
    assert_eq!(parse_timestamp(&bytes), 281474976710655);
}

#[test]
fn test_parse_timestamp_zero() {
    let bytes = [0x00, 0x00, 0x00, 0x00, 0x00, 0x00];
    assert_eq!(parse_timestamp(&bytes), 0);
}

#[test]
fn test_parse_add_order() {
    // A valid AddOrder message (36 bytes): type 'A', stock locate 1000,
    // tracking number 2000, timestamp 1, order reference 123456789,
    // side 'B', 500 shares of "AAPL    " at 15000.
    let data: [u8; 36] = [
        0x41, // message_type
        0x03, 0xE8, // stock_locate (1000 in big-endian)
        0x07, 0xD0, // tracking_number (2000 in big-endian)
        0x00, 0x00, 0x00, 0x00, 0x00, 0x01, // timestamp
        0x00, 0x00, 0x00, 0x00, 0x07, 0x5B, 0xCD,
        0x15, // order_reference_number (123456789 in big-endian)
        0x42, // buy_sell_indicator ('B')
        0x00, 0x00, 0x01, 0xF4, // shares (500 in big-endian)
        0x41, 0x41, 0x50, 0x4C, 0x20, 0x20, 0x20, 0x20, // stock ("AAPL    ")
        0x00, 0x00, 0x3A, 0x98, // price (15000 in big-endian)
    ];

    let (bytes_consumed, msg) = add_order::parse_at(&data, 0);

    assert_eq!(bytes_consumed, 36);

    match msg {
        ItchMessage::AddOrder(add_order) => {
            assert_eq!(add_order.stock_locate, 1000);
            assert_eq!(add_order.tracking_number, 2000);
            assert_eq!(add_order.timestamp, 1);
            assert_eq!(add_order.order_reference_number, 123456789);
            assert_eq!(add_order.buy_sell_indicator, 0x42);
            assert_eq!(add_order.shares, 500);
            assert_eq!(add_order.stock, *b"AAPL    ");
            assert_eq!(add_order.price, 15000);
        }
        _ => panic!("Expected AddOrder message"),
    }
}

#[test]
fn test_parse_add_order_sell_indicator() {
    // Test with sell indicator
    let mut data: [u8; 36] = [0; 36];
    data[0] = 0x41; // message_type
    data[1] = 0x00;
    data[2] = 0x01; // stock_locate
    data[3] = 0x00;
    data[4] = 0x02; // tracking_number
    data[5] = 0x00;
    data[6] = 0x00;
    data[7] = 0x00;
    data[8] = 0x00;
    data[9] = 0x00;
    data[10] = 0x01; // timestamp
    data[11] = 0x00;
    data[12] = 0x00;
    data[13] = 0x00;
    data[14] = 0x00;
    data[15] = 0x00;
    data[16] = 0x00;
    data[17] = 0x00;
    data[18] = 0x01; // order_reference_number
    data[19] = 0x53; // buy_sell_indicator ('S' for sell)
    data[20] = 0x00;
    data[21] = 0x00;
    data[22] = 0x00;
    data[23] = 0x01; // shares
    data[24] = 0x54;
    data[25] = 0x45;
    data[26] = 0x53;
    data[27] = 0x54;
    data[28] = 0x20;
    data[29] = 0x20;
    data[30] = 0x20;
    data[31] = 0x20; // stock ("TEST    ")
    data[32] = 0x00;
    data[33] = 0x00;
    data[34] = 0x00;
    data[35] = 0x01; // price

    let (bytes_consumed, msg) = add_order::parse_at(&data, 0);

    assert_eq!(bytes_consumed, 36);

    match msg {
        ItchMessage::AddOrder(add_order) => {
            assert_eq!(add_order.buy_sell_indicator, 0x53); // 'S'
            assert_eq!(add_order.stock, *b"TEST    ");
        }
        _ => panic!("Expected AddOrder message"),
    }
}

#[test]
fn test_parse_system_event() {
    // A valid SystemEvent message (12 bytes): type 'S', stock locate 1234,
    // tracking number 5678, timestamp 1, event code 'O'.
    let data: [u8; 12] = [
        0x53, // message_type
        0x04, 0xD2, // stock_locate (1234 in big-endian)
        0x16, 0x2E, // tracking_number (5678 in big-endian)
        0x00, 0x00, 0x00, 0x00, 0x00, 0x01, // timestamp
        0x4F, // event_code ('O')
    ];

    let (bytes_consumed, msg) = system_event::parse_at(&data, 0);

    assert_eq!(bytes_consumed, 12);

    match msg {
        ItchMessage::SystemEvent(sys_event) => {
            assert_eq!(sys_event.stock_locate, 1234);
            assert_eq!(sys_event.tracking_number, 5678);
            assert_eq!(sys_event.timestamp, 1);
            assert_eq!(sys_event.event_code, 0x4F);
        }
        _ => panic!("Expected SystemEvent message"),
    }
}

#[test]
fn test_parse_system_event_at_offset() {
    // Test parsing at a non-zero offset
    let mut data: [u8; 20] = [0; 20];
    // Insert SystemEvent at offset 5
    data[5] = 0x53; // message_type
    data[6] = 0x00;
    data[7] = 0x01; // stock_locate
    data[8] = 0x00;
    data[9] = 0x02; // tracking_number
    data[10] = 0x00;
    data[11] = 0x00;
    data[12] = 0x00;
    data[13] = 0x00;
    data[14] = 0x00;
    data[15] = 0x01; // timestamp
    data[16] = 0x4F; // event_code

    let (bytes_consumed, msg) = system_event::parse_at(&data, 5);

    assert_eq!(bytes_consumed, 12);

    match msg {
        ItchMessage::SystemEvent(sys_event) => {
            assert_eq!(sys_event.stock_locate, 1);
            assert_eq!(sys_event.tracking_number, 2);
            assert_eq!(sys_event.timestamp, 1);
            assert_eq!(sys_event.event_code, 0x4F);
        }
        _ => panic!("Expected SystemEvent message"),
    }
}
