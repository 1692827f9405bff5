use vstd::prelude::*;

use super::common::{read_bytes8, read_timestamp, read_u16, read_u32, read_u64, be_field};
use crate::schema::itchformat::{AddOrderMessage, ItchMessage};

verus! {

/// Bytes in a Add Order message, type byte included.
pub const ADD_ORDER_LEN: usize = 36;

/// `m` is the Add Order message laid out at `q` in `s`: type byte at offset 0, stock locate at
/// 1, tracking number at 3, timestamp at 5, order reference number at 11, buy sell indicator at
/// 19, shares at 20, stock at 24, price at 32.
pub open spec fn add_order_at(s: Seq<u8>, q: int, m: ItchMessage) -> bool {
    match m {
        ItchMessage::AddOrder(e) => {
            &&& e.stock_locate == be_field(s, q + 1, 2)
            &&& e.tracking_number == be_field(s, q + 3, 2)
            &&& e.timestamp == be_field(s, q + 5, 6)
            &&& e.order_reference_number == be_field(s, q + 11, 8)
            &&& e.buy_sell_indicator == s[q + 19]
            &&& e.shares == be_field(s, q + 20, 4)
            &&& e.stock@ == s.subrange(q + 24, q + 32)
            &&& e.price == be_field(s, q + 32, 4)
        },
        _ => false,
    }
}

/// Parses the Add Order message that starts at `pos`, returning the bytes it
/// spans and the message.
pub fn parse_at(data: &[u8], pos: usize) -> (r: (usize, ItchMessage))
    requires
        pos + ADD_ORDER_LEN <= data.len(),
    ensures
        r.0 == ADD_ORDER_LEN,
        add_order_at(data@, pos as int, r.1),
{
    let stock_locate = read_u16(data, pos + 1);
    let tracking_number = read_u16(data, pos + 3);
    let timestamp = read_timestamp(data, pos + 5);
    let order_reference_number = read_u64(data, pos + 11);
    let buy_sell_indicator = data[pos + 19];
    let shares = read_u32(data, pos + 20);
    let stock = read_bytes8(data, pos + 24);
    let price = read_u32(data, pos + 32);
    (
        ADD_ORDER_LEN,
        ItchMessage::AddOrder(
            AddOrderMessage { stock_locate, tracking_number, timestamp, order_reference_number, buy_sell_indicator, shares, stock, price },
        ),
    )
}

} // verus!
