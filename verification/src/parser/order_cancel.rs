use vstd::prelude::*;

use super::common::{read_timestamp, read_u16, read_u32, read_u64, be_field};
use crate::schema::itchformat::{OrderCancelMessage, ItchMessage};

verus! {

/// Bytes in a Order Cancel message, type byte included.
pub const ORDER_CANCEL_LEN: usize = 23;

/// `m` is the Order Cancel message laid out at `q` in `s`: type byte at offset 0, stock locate
/// at 1, tracking number at 3, timestamp at 5, order reference number at 11, cancelled shares
/// at 19.
pub open spec fn order_cancel_at(s: Seq<u8>, q: int, m: ItchMessage) -> bool {
    match m {
        ItchMessage::OrderCancel(e) => {
            &&& e.stock_locate == be_field(s, q + 1, 2)
            &&& e.tracking_number == be_field(s, q + 3, 2)
            &&& e.timestamp == be_field(s, q + 5, 6)
            &&& e.order_reference_number == be_field(s, q + 11, 8)
            &&& e.cancelled_shares == be_field(s, q + 19, 4)
        },
        _ => false,
    }
}

/// Parses the Order Cancel message that starts at `pos`, returning the bytes it
/// spans and the message.
pub fn parse_at(data: &[u8], pos: usize) -> (r: (usize, ItchMessage))
    requires
        pos + ORDER_CANCEL_LEN <= data.len(),
    ensures
        r.0 == ORDER_CANCEL_LEN,
        order_cancel_at(data@, pos as int, r.1),
{
    let stock_locate = read_u16(data, pos + 1);
    let tracking_number = read_u16(data, pos + 3);
    let timestamp = read_timestamp(data, pos + 5);
    let order_reference_number = read_u64(data, pos + 11);
    let cancelled_shares = read_u32(data, pos + 19);
    (
        ORDER_CANCEL_LEN,
        ItchMessage::OrderCancel(
            OrderCancelMessage { stock_locate, tracking_number, timestamp, order_reference_number, cancelled_shares },
        ),
    )
}

} // verus!
