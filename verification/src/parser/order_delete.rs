use vstd::prelude::*;

use super::common::{read_timestamp, read_u16, read_u64, be_field};
use crate::schema::itchformat::{OrderDeleteMessage, ItchMessage};

verus! {

/// Bytes in a Order Delete message, type byte included.
pub const ORDER_DELETE_LEN: usize = 19;

/// `m` is the Order Delete message laid out at `q` in `s`: type byte at offset 0, stock locate
/// at 1, tracking number at 3, timestamp at 5, order reference number at 11.
pub open spec fn order_delete_at(s: Seq<u8>, q: int, m: ItchMessage) -> bool {
    match m {
        ItchMessage::OrderDelete(e) => {
            &&& e.stock_locate == be_field(s, q + 1, 2)
            &&& e.tracking_number == be_field(s, q + 3, 2)
            &&& e.timestamp == be_field(s, q + 5, 6)
            &&& e.order_reference_number == be_field(s, q + 11, 8)
        },
        _ => false,
    }
}

/// Parses the Order Delete message that starts at `pos`, returning the bytes it
/// spans and the message.
pub fn parse_at(data: &[u8], pos: usize) -> (r: (usize, ItchMessage))
    requires
        pos + ORDER_DELETE_LEN <= data.len(),
    ensures
        r.0 == ORDER_DELETE_LEN,
        order_delete_at(data@, pos as int, r.1),
{
    let stock_locate = read_u16(data, pos + 1);
    let tracking_number = read_u16(data, pos + 3);
    let timestamp = read_timestamp(data, pos + 5);
    let order_reference_number = read_u64(data, pos + 11);
    (
        ORDER_DELETE_LEN,
        ItchMessage::OrderDelete(
            OrderDeleteMessage { stock_locate, tracking_number, timestamp, order_reference_number },
        ),
    )
}

} // verus!
