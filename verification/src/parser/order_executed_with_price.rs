use vstd::prelude::*;

use super::common::{read_timestamp, read_u16, read_u32, read_u64, be_field};
use crate::schema::itchformat::{OrderExecutedWithPriceMessage, ItchMessage};

verus! {

/// Bytes in a Order Executed With Price message, type byte included.
pub const ORDER_EXECUTED_WITH_PRICE_LEN: usize = 36;

/// `m` is the Order Executed With Price message laid out at `q` in `s`: type byte at offset 0,
/// stock locate at 1, tracking number at 3, timestamp at 5, order reference number at 11,
/// executed shares at 19, match number at 23, printable at 31, execution price at 32.
pub open spec fn order_executed_with_price_at(s: Seq<u8>, q: int, m: ItchMessage) -> bool {
    match m {
        ItchMessage::OrderExecutedWithPrice(e) => {
            &&& e.stock_locate == be_field(s, q + 1, 2)
            &&& e.tracking_number == be_field(s, q + 3, 2)
            &&& e.timestamp == be_field(s, q + 5, 6)
            &&& e.order_reference_number == be_field(s, q + 11, 8)
            &&& e.executed_shares == be_field(s, q + 19, 4)
            &&& e.match_number == be_field(s, q + 23, 8)
            &&& e.printable == s[q + 31]
            &&& e.execution_price == be_field(s, q + 32, 4)
        },
        _ => false,
    }
}

/// Parses the Order Executed With Price message that starts at `pos`, returning the bytes it
/// spans and the message.
pub fn parse_at(data: &[u8], pos: usize) -> (r: (usize, ItchMessage))
    requires
        pos + ORDER_EXECUTED_WITH_PRICE_LEN <= data.len(),
    ensures
        r.0 == ORDER_EXECUTED_WITH_PRICE_LEN,
        order_executed_with_price_at(data@, pos as int, r.1),
{
    let stock_locate = read_u16(data, pos + 1);
    let tracking_number = read_u16(data, pos + 3);
    let timestamp = read_timestamp(data, pos + 5);
    let order_reference_number = read_u64(data, pos + 11);
    let executed_shares = read_u32(data, pos + 19);
    let match_number = read_u64(data, pos + 23);
    let printable = data[pos + 31];
    let execution_price = read_u32(data, pos + 32);
    (
        ORDER_EXECUTED_WITH_PRICE_LEN,
        ItchMessage::OrderExecutedWithPrice(
            OrderExecutedWithPriceMessage { stock_locate, tracking_number, timestamp, order_reference_number, executed_shares, match_number, printable, execution_price },
        ),
    )
}

} // verus!
