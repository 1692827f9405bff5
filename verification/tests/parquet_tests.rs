use order_book_engine::schema::itchformat::{
    ItchMessage, OrderDeleteMessage, StockDirectoryMessage, UnknownMessage,
};
use order_book_engine::utils::parquet_writer::{MessageBatch, ParquetColumn, ParquetData};
use order_book_engine::utils::ParquetWriter;

fn directory(locate: u16, symbol: [u8; 8]) -> ItchMessage {
    ItchMessage::StockDirectory(StockDirectoryMessage {
        stock_locate: locate,
        tracking_number: 9,
        timestamp: 77,
        symbol,
        market_category: b'Q',
        financial_status: b'N',
        round_lot_size: 100,
        round_lots_only: b'N',
    })
}

fn delete(locate: u16) -> ItchMessage {
    ItchMessage::OrderDelete(OrderDeleteMessage {
        stock_locate: locate,
        tracking_number: 0,
        timestamp: 11,
        order_reference_number: 3,
    })
}

#[test]
fn test_parquet_writer_groups_by_kind() {
    let mut writer = ParquetWriter::new("p".to_string(), 2);
    assert_eq!(writer.output_dir(), "p");
    assert!(writer.add_message(delete(1)).is_none());
    assert!(writer.add_message(directory(5, *b"AAPL    ")).is_none());
    let batch = writer.add_message(delete(2)).unwrap();
    assert_eq!(batch.group, 9);
    assert_eq!(batch.file_index, 0);
    assert_eq!(batch.messages, vec![delete(1), delete(2)]);
    let rest = writer.flush_remaining();
    assert_eq!(rest.len(), 1);
    assert_eq!(rest[0].group, 1);
    assert_eq!(rest[0].messages, vec![directory(5, *b"AAPL    ")]);
}

#[test]
fn test_parquet_writer_keeps_unknown_group() {
    let mut writer = ParquetWriter::new("p".to_string(), 1);
    let unknown = ItchMessage::Unknown(UnknownMessage { message_type: b'Z', body: vec![] });
    let batch = writer.add_message(unknown).unwrap();
    assert_eq!(batch.group, 15);
    assert!(batch.parquet_columns().is_none());
}

#[test]
fn test_parquet_columns_of_deletes() {
    let mut writer = ParquetWriter::new("p".to_string(), 2);
    writer.add_message(delete(1));
    let batch = writer.add_message(delete(2)).unwrap();
    assert_eq!(
        batch.parquet_columns().unwrap(),
        vec![
            ParquetColumn { name: "stock_locate", data: ParquetData::Int32(vec![1, 2]) },
            ParquetColumn { name: "timestamp", data: ParquetData::Int64(vec![11, 11]) },
        ]
    );
}

#[test]
fn test_parquet_columns_of_directory_symbols() {
    let mut writer = ParquetWriter::new("p".to_string(), 2);
    writer.add_message(directory(1, *b"AAPL    "));
    let batch = writer.add_message(directory(2, [0xFF, b'X', b' ', b' ', b' ', b' ', b' ', b' '])).unwrap();
    assert_eq!(
        batch.parquet_columns().unwrap(),
        vec![
            ParquetColumn { name: "stock_locate", data: ParquetData::Int32(vec![1, 2]) },
            ParquetColumn { name: "tracking_number", data: ParquetData::Int32(vec![9, 9]) },
            ParquetColumn { name: "timestamp", data: ParquetData::Int64(vec![77, 77]) },
            ParquetColumn {
                name: "symbol",
                data: ParquetData::Utf8(vec!["AAPL    ".to_string(), "\u{FFFD}X      ".to_string()]),
            },
        ]
    );
}

#[test]
fn test_parquet_writer_counts_files_per_group() {
    let mut writer = ParquetWriter::new("p".to_string(), 1);
    assert_eq!(writer.add_message(delete(1)).unwrap().file_index, 0);
    assert_eq!(writer.add_message(directory(1, *b"A       ")).unwrap().file_index, 0);
    assert_eq!(writer.add_message(delete(2)).unwrap().file_index, 1);
}

#[test]
fn test_parquet_writer_writes_every_message_once() {
    let mut writer = ParquetWriter::new("p".to_string(), 2);
    let stream = vec![delete(1), directory(1, *b"A       "), delete(2), delete(3), directory(2, *b"B       ")];
    let mut batches = Vec::new();
    for m in stream.clone() {
        if let Some(b) = writer.add_message(m) {
            batches.push(b);
        }
    }
    batches.extend(writer.flush_remaining());
    let deletes: Vec<ItchMessage> =
        batches.iter().filter(|b| b.group == 9).flat_map(|b| b.messages.clone()).collect();
    let directories: Vec<ItchMessage> =
        batches.iter().filter(|b| b.group == 1).flat_map(|b| b.messages.clone()).collect();
    assert_eq!(deletes, vec![delete(1), delete(2), delete(3)]);
    assert_eq!(directories, vec![directory(1, *b"A       "), directory(2, *b"B       ")]);
    let delete_indices: Vec<usize> = batches.iter().filter(|b| b.group == 9).map(|b| b.file_index).collect();
    assert_eq!(delete_indices, vec![0, 1]);
    assert_eq!(writer.file_counter(9), 2);
    assert!(writer.flush_remaining().is_empty());
}

#[test]
fn test_parquet_columns_skip_other_kinds() {
    let batch = MessageBatch {
        group: 1,
        file_index: 0,
        messages: vec![directory(4, *b"MSFT    "), delete(7), directory(5, *b"IBM     ")],
    };
    assert_eq!(
        batch.parquet_columns().unwrap(),
        vec![
            ParquetColumn { name: "stock_locate", data: ParquetData::Int32(vec![4, 5]) },
            ParquetColumn { name: "tracking_number", data: ParquetData::Int32(vec![9, 9]) },
            ParquetColumn { name: "timestamp", data: ParquetData::Int64(vec![77, 77]) },
            ParquetColumn {
                name: "symbol",
                data: ParquetData::Utf8(vec!["MSFT    ".to_string(), "IBM     ".to_string()]),
            },
        ]
    );
    let unknown = MessageBatch { group: 15, file_index: 0, messages: vec![delete(1)] };
    assert!(unknown.parquet_columns().is_none());
}

#[test]
fn test_parquet_writer_batch_count_and_second_flush() {
    let mut writer = ParquetWriter::new("p".to_string(), 3);
    let mut emitted = 0;
    for i in 0..7u16 {
        if writer.add_message(delete(i)).is_some() {
            emitted += 1;
        }
        writer.add_message(directory(i, *b"A       "));
    }
    // 7 deletes in runs of 3: two files, one pending message.
    assert_eq!(emitted, 2);
    assert_eq!(writer.file_counter(9), 2);
    assert_eq!(writer.file_counter(1), 2);
    let rest = writer.flush_remaining();
    assert_eq!(rest.len(), 2);
    assert_eq!(rest[0].messages.len(), 1);
    assert_eq!(writer.file_counter(9), 3);
    assert!(writer.flush_remaining().is_empty());
    assert_eq!(writer.file_counter(9), 3);
    assert_eq!(writer.file_counter(1), 3);
}
