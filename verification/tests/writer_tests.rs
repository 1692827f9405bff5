use order_book_engine::schema::itchformat::{
    AddOrderMessage, ItchMessage, StockDirectoryMessage, SystemEventMessage, UnknownMessage,
};
use order_book_engine::utils::l3_writer::{kind_name_of, Column, ColumnData};
use order_book_engine::utils::L3Writer;

fn add_order(locate: u16, ts: u64, price: u32, shares: u32) -> ItchMessage {
    ItchMessage::AddOrder(AddOrderMessage {
        stock_locate: locate,
        tracking_number: 0,
        timestamp: ts,
        order_reference_number: 1,
        buy_sell_indicator: b'B',
        shares,
        stock: *b"AAPL    ",
        price,
    })
}

fn event(ts: u64, code: u8) -> ItchMessage {
    ItchMessage::SystemEvent(SystemEventMessage {
        stock_locate: 0,
        tracking_number: 0,
        timestamp: ts,
        event_code: code,
    })
}

#[test]
fn test_l3_writer_emits_full_batch() {
    let mut writer = L3Writer::new("./out".to_string(), 2);
    assert_eq!(writer.output_dir(), "./out");
    assert_eq!(writer.batch_size(), 2);
    assert!(writer.add_message(add_order(1, 10, 100, 5)).is_none());
    let batch = writer.add_message(add_order(2, 20, 200, 6)).unwrap();
    assert_eq!(batch.kind, 2);
    assert_eq!(kind_name_of(batch.kind), "AddOrder");
    assert_eq!(batch.file_index, 0);
    assert_eq!(
        batch.columns,
        vec![
            Column { name: "stock_locate", data: ColumnData::Int32(vec![1, 2]) },
            Column { name: "timestamp", data: ColumnData::Int64(vec![10, 20]) },
            Column { name: "price", data: ColumnData::Int32(vec![100, 200]) },
            Column { name: "shares", data: ColumnData::Int32(vec![5, 6]) },
        ]
    );
    assert_eq!(writer.file_counter(2), 1);
    assert!(writer.flush_remaining().is_empty());
}

#[test]
fn test_l3_writer_casts_like_the_columns() {
    // Prices and shares above i32::MAX wrap into the 32-bit signed columns.
    let mut writer = L3Writer::new("o".to_string(), 1);
    let batch = writer.add_message(add_order(7, 1, u32::MAX, 0x8000_0000)).unwrap();
    assert_eq!(batch.columns[2].data, ColumnData::Int32(vec![-1]));
    assert_eq!(batch.columns[3].data, ColumnData::Int32(vec![i32::MIN]));
}

#[test]
fn test_l3_writer_symbol_as_little_endian_i64() {
    let mut writer = L3Writer::new("o".to_string(), 1);
    let msg = ItchMessage::StockDirectory(StockDirectoryMessage {
        stock_locate: 3,
        tracking_number: 4,
        timestamp: 5,
        symbol: *b"AAPL    ",
        market_category: b'Q',
        financial_status: b'N',
        round_lot_size: 100,
        round_lots_only: b'N',
    });
    let batch = writer.add_message(msg).unwrap();
    assert_eq!(batch.kind, 1);
    assert_eq!(
        batch.columns,
        vec![
            Column { name: "stock_locate", data: ColumnData::Int32(vec![3]) },
            Column { name: "tracking_number", data: ColumnData::Int32(vec![4]) },
            Column { name: "timestamp", data: ColumnData::Int64(vec![5]) },
            Column {
                name: "symbol_raw_i64",
                data: ColumnData::Int64(vec![i64::from_le_bytes(*b"AAPL    ")]),
            },
        ]
    );
}

#[test]
fn test_l3_writer_drops_unknown_messages() {
    let mut writer = L3Writer::new("o".to_string(), 1);
    let unknown = ItchMessage::Unknown(UnknownMessage { message_type: b'Z', body: vec![1] });
    assert!(writer.add_message(unknown).is_none());
    assert!(writer.flush_remaining().is_empty());
}

#[test]
fn test_l3_writer_flush_remaining_in_kind_order() {
    let mut writer = L3Writer::new("o".to_string(), 10);
    assert!(writer.add_message(add_order(1, 1, 1, 1)).is_none());
    assert!(writer.add_message(event(2, b'O')).is_none());
    assert!(writer.add_message(event(3, b'C')).is_none());
    let batches = writer.flush_remaining();
    assert_eq!(batches.len(), 2);
    assert_eq!(batches[0].kind, 0);
    assert_eq!(
        batches[0].columns,
        vec![
            Column { name: "timestamp", data: ColumnData::Int64(vec![2, 3]) },
            Column { name: "event_code", data: ColumnData::Int32(vec![b'O' as i32, b'C' as i32]) },
        ]
    );
    assert_eq!(batches[1].kind, 2);
    assert_eq!(batches[1].file_index, 0);
    assert_eq!(writer.file_counter(0), 1);
    assert!(writer.flush_remaining().is_empty());
}

#[test]
fn test_l3_writer_numbers_files_consecutively() {
    // Every added row is written once, in order, and files count up.
    let mut writer = L3Writer::new("o".to_string(), 2);
    let mut batches = Vec::new();
    for ts in 0..5u64 {
        if let Some(b) = writer.add_message(event(ts, b'X')) {
            batches.push(b);
        }
    }
    batches.extend(writer.flush_remaining());
    assert_eq!(batches.iter().map(|b| b.file_index).collect::<Vec<_>>(), vec![0, 1, 2]);
    let mut timestamps = Vec::new();
    for b in &batches {
        match &b.columns[0].data {
            ColumnData::Int64(v) => timestamps.extend_from_slice(v),
            _ => panic!("timestamp column is 64-bit"),
        }
    }
    assert_eq!(timestamps, vec![0, 1, 2, 3, 4]);
}

#[test]
fn test_l3_writer_batch_size_zero_emits_each_row() {
    let mut writer = L3Writer::new("o".to_string(), 0);
    let b = writer.add_message(event(1, b'O')).unwrap();
    assert_eq!(b.columns[0].data, ColumnData::Int64(vec![1]));
    let b = writer.add_message(event(2, b'O')).unwrap();
    assert_eq!(b.file_index, 1);
}

#[test]
fn test_kind_names_match_message_names() {
    let names: Vec<&str> = (0..15).map(kind_name_of).collect();
    assert_eq!(names[0], event(0, 0).name());
    assert_eq!(names[2], add_order(0, 0, 0, 0).name());
    assert_eq!(names[14], "MarketParticipantPosition");
}

#[test]
fn test_l3_writer_batch_count_and_second_flush() {
    let mut writer = L3Writer::new("./out".to_string(), 3);
    let mut emitted = 0;
    for i in 0..8u64 {
        if writer.add_message(add_order(1, i, 100, 1)).is_some() {
            emitted += 1;
        }
        writer.add_message(event(i, b'O'));
    }
    // 8 add orders in runs of 3: two files, two rows pending.
    assert_eq!(emitted, 2);
    assert_eq!(writer.file_counter(2), 2);
    assert_eq!(writer.file_counter(0), 2);
    let rest = writer.flush_remaining();
    assert_eq!(rest.len(), 2);
    assert_eq!(rest[1].kind, 2);
    assert_eq!(rest[1].file_index, 2);
    match &rest[1].columns[0].data {
        ColumnData::Int32(v) => assert_eq!(v.len(), 2),
        ColumnData::Int64(_) => panic!("stock_locate is an Int32 column"),
    }
    assert!(writer.flush_remaining().is_empty());
    assert_eq!(writer.file_counter(2), 3);
    assert_eq!(writer.file_counter(0), 3);
}
