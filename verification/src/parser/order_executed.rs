use vstd::prelude::*;

use super::common::{read_timestamp, read_u16, read_u32, read_u64, be_field};
use crate::schema::itchformat::{OrderExecutedMessage, ItchMessage};

verus! {

/// Bytes in a Order Executed message, type byte included.
pub const ORDER_EXECUTED_LEN: usize = 31;

/// `m` is the Order Executed message laid out at `q` in `s`: type byte at offset 0, stock
/// locate at 1, tracking number at 3, timestamp at 5, order reference number at 11, executed
/// shares at 19, match number at 23.
pub open spec fn order_executed_at(s: Seq<u8>, q: int, m: ItchMessage) -> bool {
    match m {
        ItchMessage::OrderExecuted(e) => {
            &&& e.stock_locate == be_field(s, q + 1, 2)
            &&& e.tracking_number == be_field(s, q + 3, 2)
            &&& e.timestamp == be_field(s, q + 5, 6)
            &&& e.order_reference_number == be_field(s, q + 11, 8)
            &&& e.executed_shares == be_field(s, q + 19, 4)
            &&& e.match_number == be_field(s, q + 23, 8)
        },
        _ => false,
    }
}

/// Parses the Order Executed message that starts at `pos`, returning the bytes it
/// spans and the message.
pub fn parse_at(data: &[u8], pos: usize) -> (r: (usize, ItchMessage))
    requires
        pos + ORDER_EXECUTED_LEN <= data.len(),
    ensures
        r.0 == ORDER_EXECUTED_LEN,
        order_executed_at(data@, pos as int, r.1),
{
    let stock_locate = read_u16(data, pos + 1);
    let tracking_number = read_u16(data, pos + 3);
    let timestamp = read_timestamp(data, pos + 5);
    let order_reference_number = read_u64(data, pos + 11);
    let executed_shares = read_u32(data, pos + 19);
    let match_number = read_u64(data, pos + 23);
    (
        ORDER_EXECUTED_LEN,
        ItchMessage::OrderExecuted(
            OrderExecutedMessage { stock_locate, tracking_number, timestamp, order_reference_number, executed_shares, match_number },
        ),
    )
}

} // verus!
