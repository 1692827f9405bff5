use order_book_engine::parser::{
    add_order_mpid, cross_trade, market_participant_position, net_order_imbalance_indicator,
    order_cancel, order_delete, order_executed, order_executed_with_price,
    order_priority_update_y, order_replace, stock_directory, stock_trading_action, trade,
};
use order_book_engine::schema::itchformat::ItchMessage;

/// A message body: the type byte, stock locate 0x0102, tracking number 0x0304
/// and timestamp 0x0000_0A0B_0C0D, followed by `rest`.
fn with_header(t: u8, rest: &[u8]) -> Vec<u8> {
    let mut v = vec![t, 0x01, 0x02, 0x03, 0x04, 0x00, 0x00, 0x0A, 0x0B, 0x0C, 0x0D];
    v.extend_from_slice(rest);
    v
}

const TS: u64 = 0x0A0B_0C0D;

#[test]
fn test_decode_add_order_mpid() {
    let mut rest = vec![0, 0, 0, 0, 0, 0, 0x10, 0x01]; // order ref 0x1001
    rest.push(b'S');
    rest.extend_from_slice(&[0, 0, 0x01, 0x00]); // shares 256
    rest.extend_from_slice(b"MSFT    ");
    rest.extend_from_slice(&[0xFF, 0xFF, 0xFF, 0xFF]); // price u32::MAX
    rest.extend_from_slice(b"GSCO");
    let data = with_header(b'F', &rest);
    assert_eq!(data.len(), 40);
    let (n, msg) = add_order_mpid::parse_at(&data, 0);
    assert_eq!(n, 40);
    match msg {
        ItchMessage::AddOrderMPID(m) => {
            assert_eq!(m.stock_locate, 0x0102);
            assert_eq!(m.tracking_number, 0x0304);
            assert_eq!(m.timestamp, TS);
            assert_eq!(m.order_reference_number, 0x1001);
            assert_eq!(m.buy_sell_indicator, b'S');
            assert_eq!(m.shares, 256);
            assert_eq!(m.stock, *b"MSFT    ");
            assert_eq!(m.price, u32::MAX);
            assert_eq!(m.attribution, *b"GSCO");
        }
        _ => panic!("Expected AddOrderMPID"),
    }
}

#[test]
fn test_decode_cross_trade() {
    let mut rest = vec![0, 0, 0, 0, 0, 0x01, 0x00, 0x00]; // shares 65536
    rest.extend_from_slice(b"IBM     ");
    rest.extend_from_slice(&[0, 0, 0x30, 0x39]); // cross price 12345
    rest.extend_from_slice(&[0x80, 0, 0, 0, 0, 0, 0, 0x01]); // match number
    rest.push(b'O');
    let data = with_header(b'Q', &rest);
    let (n, msg) = cross_trade::parse_at(&data, 0);
    assert_eq!(n, 40);
    match msg {
        ItchMessage::CrossTrade(m) => {
            assert_eq!(m.timestamp, TS);
            assert_eq!(m.shares, 65536);
            assert_eq!(m.stock, *b"IBM     ");
            assert_eq!(m.cross_price, 12345);
            assert_eq!(m.match_number, 0x8000_0000_0000_0001);
            assert_eq!(m.cross_type, b'O');
        }
        _ => panic!("Expected CrossTrade"),
    }
}

#[test]
fn test_decode_market_participant_position() {
    let mut rest = b"ABCD".to_vec(); // MPID, not kept
    rest.extend_from_slice(b"ZVZZT   ");
    rest.extend_from_slice(&[b'Y', b'N', b'A']);
    let data = with_header(b'L', &rest);
    let (n, msg) = market_participant_position::parse_at(&data, 0);
    assert_eq!(n, 26);
    match msg {
        ItchMessage::MarketParticipantPosition(m) => {
            assert_eq!(m.stock_locate, 0x0102);
            assert_eq!(m.tracking_number, 0x0304);
            assert_eq!(m.timestamp, TS);
            assert_eq!(m.stock, *b"ZVZZT   ");
            assert_eq!(m.primary_market_maker, b'Y');
            assert_eq!(m.market_maker_mode, b'N');
            assert_eq!(m.market_participant_state, b'A');
        }
        _ => panic!("Expected MarketParticipantPosition"),
    }
}

#[test]
fn test_decode_net_order_imbalance_indicator() {
    let mut rest = vec![0, 0, 0, 0, 0, 0, 0x03, 0xE8]; // paired 1000
    rest.extend_from_slice(&[0, 0, 0, 0, 0, 0, 0x01, 0xF4]); // imbalance 500
    rest.extend_from_slice(&[0, 0x01, 0x86, 0xA0]); // reference price 100000
    rest.extend_from_slice(&[b'B', b'O', b'1', b'S']);
    rest.extend_from_slice(b"AAPL    ");
    let data = with_header(b'I', &rest);
    assert_eq!(data.len(), 43);
    let (n, msg) = net_order_imbalance_indicator::parse_at(&data, 0);
    assert_eq!(n, 43);
    match msg {
        ItchMessage::NetOrderImbalanceIndicator(m) => {
            assert_eq!(m.timestamp, TS);
            assert_eq!(m.paired_shares, 1000);
            assert_eq!(m.imbalance_shares, 500);
            assert_eq!(m.current_reference_price, 100000);
            assert_eq!(m.cross_type, b'O');
            assert_eq!(m.price_variation_indicator, b'1');
            assert_eq!(m.imbalance_direction, b'S');
            assert_eq!(m.stock, *b"AAPL    ");
            assert_eq!(m.far_price, 0);
            assert_eq!(m.near_price, 0);
        }
        _ => panic!("Expected NetOrderImbalanceIndicator"),
    }
}

#[test]
fn test_decode_order_cancel() {
    let mut rest = vec![0, 0, 0, 0, 0, 0, 0, 0x07];
    rest.extend_from_slice(&[0, 0, 0, 0x32]);
    let data = with_header(b'X', &rest);
    let (n, msg) = order_cancel::parse_at(&data, 0);
    assert_eq!(n, 23);
    match msg {
        ItchMessage::OrderCancel(m) => {
            assert_eq!(m.order_reference_number, 7);
            assert_eq!(m.cancelled_shares, 50);
            assert_eq!(m.timestamp, TS);
        }
        _ => panic!("Expected OrderCancel"),
    }
}

#[test]
fn test_decode_order_delete() {
    let data = with_header(b'D', &[0x01, 0, 0, 0, 0, 0, 0, 0]);
    let (n, msg) = order_delete::parse_at(&data, 0);
    assert_eq!(n, 19);
    match msg {
        ItchMessage::OrderDelete(m) => {
            assert_eq!(m.order_reference_number, 1 << 56);
            assert_eq!(m.stock_locate, 0x0102);
        }
        _ => panic!("Expected OrderDelete"),
    }
}

#[test]
fn test_decode_order_executed() {
    let mut rest = vec![0, 0, 0, 0, 0, 0, 0, 0x09];
    rest.extend_from_slice(&[0, 0, 0x01, 0x2C]); // 300
    rest.extend_from_slice(&[0, 0, 0, 0, 0, 0, 0x12, 0x34]);
    let data = with_header(b'E', &rest);
    let (n, msg) = order_executed::parse_at(&data, 0);
    assert_eq!(n, 31);
    match msg {
        ItchMessage::OrderExecuted(m) => {
            assert_eq!(m.order_reference_number, 9);
            assert_eq!(m.executed_shares, 300);
            assert_eq!(m.match_number, 0x1234);
        }
        _ => panic!("Expected OrderExecuted"),
    }
}

#[test]
fn test_decode_order_executed_with_price() {
    let mut rest = vec![0, 0, 0, 0, 0, 0, 0, 0x09];
    rest.extend_from_slice(&[0, 0, 0x01, 0x2C]); // 300
    rest.extend_from_slice(&[0, 0, 0, 0, 0, 0, 0x12, 0x34]);
    rest.push(b'Y');
    rest.extend_from_slice(&[0, 0, 0x27, 0x10]); // 10000
    let data = with_header(b'C', &rest);
    let (n, msg) = order_executed_with_price::parse_at(&data, 0);
    assert_eq!(n, 36);
    match msg {
        ItchMessage::OrderExecutedWithPrice(m) => {
            assert_eq!(m.executed_shares, 300);
            assert_eq!(m.match_number, 0x1234);
            assert_eq!(m.printable, b'Y');
            assert_eq!(m.execution_price, 10000);
        }
        _ => panic!("Expected OrderExecutedWithPrice"),
    }
}

#[test]
fn test_decode_order_priority_update() {
    // Stock locate 7, a 4-byte tracking number, timestamp at offset 7.
    let data: Vec<u8> = vec![
        b'Y', 0x00, 0x07, 0x00, 0x01, 0x00, 0x02, 0x00, 0x00, 0x00, 0x00, 0x01, 0x00, 1, 2, 3, 4,
        5, 6, 7,
    ];
    let (n, msg) = order_priority_update_y::parse_at(&data, 0);
    assert_eq!(n, 20);
    match msg {
        ItchMessage::OrderPriorityUpdateY(m) => {
            assert_eq!(m.stock_locate, 7);
            assert_eq!(m.tracking_number, 0x0001_0002);
            assert_eq!(m.timestamp, 256);
            assert_eq!(m.payload, [1, 2, 3, 4, 5, 6, 7]);
        }
        _ => panic!("Expected OrderPriorityUpdateY"),
    }
}

#[test]
fn test_decode_order_priority_update_short() {
    // Fewer than 20 bytes: nothing consumed, the rest kept as an unknown message.
    let data: Vec<u8> = vec![0xEE, b'Y', 1, 2, 3];
    let (n, msg) = order_priority_update_y::parse_at(&data, 1);
    assert_eq!(n, 0);
    match msg {
        ItchMessage::Unknown(u) => {
            assert_eq!(u.message_type, b'Y');
            assert_eq!(u.body, vec![b'Y', 1, 2, 3]);
        }
        _ => panic!("Expected Unknown"),
    }
}

#[test]
fn test_decode_order_replace() {
    let mut rest = vec![0, 0, 0, 0, 0, 0, 0, 0x0A];
    rest.extend_from_slice(&[0, 0, 0, 0, 0, 0, 0, 0x0B]);
    rest.extend_from_slice(&[0, 0, 0, 0x64]);
    rest.extend_from_slice(&[0, 0, 0x03, 0xE8]);
    let data = with_header(b'U', &rest);
    let (n, msg) = order_replace::parse_at(&data, 0);
    assert_eq!(n, 35);
    match msg {
        ItchMessage::OrderReplace(m) => {
            assert_eq!(m.original_order_reference_number, 10);
            assert_eq!(m.new_order_reference_number, 11);
            assert_eq!(m.shares, 100);
            assert_eq!(m.price, 1000);
        }
        _ => panic!("Expected OrderReplace"),
    }
}

#[test]
fn test_decode_stock_directory() {
    let mut rest = b"QQQ     ".to_vec();
    rest.extend_from_slice(&[b'Q', b'N']);
    rest.extend_from_slice(&[0, 0, 0, 0x64]); // round lot 100
    rest.push(b'N');
    let data = with_header(b'R', &rest);
    let (n, msg) = stock_directory::parse_at(&data, 0);
    assert_eq!(n, 26);
    match msg {
        ItchMessage::StockDirectory(m) => {
            assert_eq!(m.symbol, *b"QQQ     ");
            assert_eq!(m.market_category, b'Q');
            assert_eq!(m.financial_status, b'N');
            assert_eq!(m.round_lot_size, 100);
            assert_eq!(m.round_lots_only, b'N');
        }
        _ => panic!("Expected StockDirectory"),
    }
}

#[test]
fn test_decode_stock_trading_action() {
    let mut rest = b"SPY     ".to_vec();
    rest.extend_from_slice(&[b'H', b' ', b'X']);
    let data = with_header(b'H', &rest);
    let (n, msg) = stock_trading_action::parse_at(&data, 0);
    assert_eq!(n, 22);
    match msg {
        ItchMessage::StockTradingAction(m) => {
            assert_eq!(m.stock, *b"SPY     ");
            assert_eq!(m.trading_state, b'H');
            assert_eq!(m.reserved, b' ');
            assert_eq!(m.reason, b'X');
        }
        _ => panic!("Expected StockTradingAction"),
    }
}

#[test]
fn test_decode_trade() {
    let mut rest = vec![0, 0, 0, 0, 0, 0, 0, 0x05];
    rest.push(b'B');
    rest.extend_from_slice(&[0, 0, 0, 0x0A]);
    rest.extend_from_slice(b"TSLA    ");
    rest.extend_from_slice(&[0, 0, 0x4E, 0x20]); // 20000
    rest.extend_from_slice(&[0, 0, 0, 0, 0, 0, 0, 0x63]);
    let data = with_header(b'P', &rest);
    let (n, msg) = trade::parse_at(&data, 0);
    assert_eq!(n, 44);
    match msg {
        ItchMessage::Trade(m) => {
            assert_eq!(m.order_reference_number, 5);
            assert_eq!(m.buy_sell_indicator, b'B');
            assert_eq!(m.shares, 10);
            assert_eq!(m.stock, *b"TSLA    ");
            assert_eq!(m.price, 20000);
            assert_eq!(m.match_number, 99);
        }
        _ => panic!("Expected Trade"),
    }
}
