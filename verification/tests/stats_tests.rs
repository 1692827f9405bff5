use order_book_engine::schema::itchformat::{ItchMessage, SystemEventMessage, UnknownMessage};
use order_book_engine::utils::StatsCollector;

fn event(ts: u64) -> ItchMessage {
    ItchMessage::SystemEvent(SystemEventMessage {
        stock_locate: 1,
        tracking_number: 2,
        timestamp: ts,
        event_code: b'O',
    })
}

fn unknown(t: u8) -> ItchMessage {
    ItchMessage::Unknown(UnknownMessage { message_type: t, body: vec![t] })
}

#[test]
fn test_stats_new_is_empty() {
    let stats = StatsCollector::new();
    assert_eq!(stats.total_messages(), 0);
    assert_eq!(stats.unknown_count(), 0);
    assert_eq!(stats.max_unknown_streak(), 0);
    assert_eq!(stats.timestamp_regressions(), 0);
    assert!(stats.unknown_type_counts().is_empty());
}

#[test]
fn test_stats_counts_stream() {
    let msgs = vec![
        event(10),
        unknown(b'Z'),
        unknown(b'Z'),
        unknown(b'W'),
        event(5),
        unknown(b'W'),
        event(7),
        event(3),
    ];
    let mut stats = StatsCollector::new();
    for m in &msgs {
        stats.process_message(m);
    }
    assert_eq!(stats.total_messages(), 8);
    assert_eq!(stats.unknown_count(), 4);
    assert_eq!(stats.max_unknown_streak(), 3);
    assert_eq!(stats.unknown_streak(), 0);
    // 10 -> 5 goes back, 5 -> 7 does not, 7 -> 3 goes back.
    assert_eq!(stats.timestamp_regressions(), 2);
    assert_eq!(stats.unknown_type_counts(), vec![(b'W', 2), (b'Z', 2)]);
}

#[test]
fn test_stats_unknown_streak_at_end() {
    let mut stats = StatsCollector::new();
    stats.process_message(&unknown(1));
    stats.process_message(&event(1));
    stats.process_message(&unknown(2));
    stats.process_message(&unknown(2));
    assert_eq!(stats.unknown_streak(), 2);
    assert_eq!(stats.max_unknown_streak(), 2);
}

#[test]
fn test_stats_type_report_order() {
    let mut stats = StatsCollector::new();
    for t in [b'C', b'A', b'C', b'B', b'C', b'A'] {
        stats.process_message(&unknown(t));
    }
    assert_eq!(stats.unknown_type_counts(), vec![(b'C', 3), (b'A', 2), (b'B', 1)]);
}

#[test]
fn test_stats_equal_timestamps_do_not_regress() {
    let mut stats = StatsCollector::new();
    stats.process_message(&event(4));
    stats.process_message(&unknown(9));
    stats.process_message(&event(4));
    assert_eq!(stats.timestamp_regressions(), 0);
}

#[test]
fn test_stats_type_report_sums_to_unknown_count() {
    let mut stats = StatsCollector::new();
    for m in [unknown(b'Z'), event(1), unknown(b'Z'), unknown(0), unknown(255), unknown(b'Z'), unknown(0)] {
        stats.process_message(&m);
    }
    let report = stats.unknown_type_counts();
    assert_eq!(report, vec![(b'Z', 3), (0, 2), (255, 1)]);
    let total: usize = report.iter().map(|(_, c)| *c).sum();
    assert_eq!(total, stats.unknown_count());
    assert_eq!(total, 6);
}
