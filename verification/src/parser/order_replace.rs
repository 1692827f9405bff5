use vstd::prelude::*;

use super::common::{read_timestamp, read_u16, read_u32, read_u64, be_field};
use crate::schema::itchformat::{OrderReplaceMessage, ItchMessage};

verus! {

/// Bytes in a Order Replace message, type byte included.
pub const ORDER_REPLACE_LEN: usize = 35;

/// `m` is the Order Replace message laid out at `q` in `s`: type byte at offset 0, stock locate
/// at 1, tracking number at 3, timestamp at 5, original order reference number at 11, new order
/// reference number at 19, shares at 27, price at 31.
pub open spec fn order_replace_at(s: Seq<u8>, q: int, m: ItchMessage) -> bool {
    match m {
        ItchMessage::OrderReplace(e) => {
            &&& e.stock_locate == be_field(s, q + 1, 2)
            &&& e.tracking_number == be_field(s, q + 3, 2)
            &&& e.timestamp == be_field(s, q + 5, 6)
            &&& e.original_order_reference_number == be_field(s, q + 11, 8)
            &&& e.new_order_reference_number == be_field(s, q + 19, 8)
            &&& e.shares == be_field(s, q + 27, 4)
            &&& e.price == be_field(s, q + 31, 4)
        },
        _ => false,
    }
}

/// Parses the Order Replace message that starts at `pos`, returning the bytes it
/// spans and the message.
pub fn parse_at(data: &[u8], pos: usize) -> (r: (usize, ItchMessage))
    requires
        pos + ORDER_REPLACE_LEN <= data.len(),
    ensures
        r.0 == ORDER_REPLACE_LEN,
        order_replace_at(data@, pos as int, r.1),
{
    let stock_locate = read_u16(data, pos + 1);
    let tracking_number = read_u16(data, pos + 3);
    let timestamp = read_timestamp(data, pos + 5);
    let original_order_reference_number = read_u64(data, pos + 11);
    let new_order_reference_number = read_u64(data, pos + 19);
    let shares = read_u32(data, pos + 27);
    let price = read_u32(data, pos + 31);
    (
        ORDER_REPLACE_LEN,
        ItchMessage::OrderReplace(
            OrderReplaceMessage { stock_locate, tracking_number, timestamp, original_order_reference_number, new_order_reference_number, shares, price },
        ),
    )
}

} // verus!
