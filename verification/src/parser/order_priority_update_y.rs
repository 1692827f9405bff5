use vstd::prelude::*;

use super::common::{be_field, copy_range, read_bytes7, read_timestamp, read_u16, read_u32};
use crate::schema::itchformat::{ItchMessage, OrderPriorityUpdateYMessage, UnknownMessage};

verus! {

/// Bytes in an Order Priority Update message, type byte included.
pub const ORDER_PRIORITY_UPDATE_Y_LEN: usize = 20;

/// `m` is what the bytes of `s` from `q` on decode to as an Order Priority
/// Update message. Where all 20 bytes are there: stock locate at offset 1, a
/// 4-byte tracking number at 3, timestamp at 7 and a 7-byte payload at 13.
/// Where fewer remain, an unknown message of type `b'Y'` whose body is the rest
/// of `s`.
pub open spec fn order_priority_update_y_at(s: Seq<u8>, q: int, m: ItchMessage) -> bool {
    if q + ORDER_PRIORITY_UPDATE_Y_LEN <= s.len() {
        match m {
            ItchMessage::OrderPriorityUpdateY(e) => {
                &&& e.stock_locate == be_field(s, q + 1, 2)
                &&& e.tracking_number == be_field(s, q + 3, 4)
                &&& e.timestamp == be_field(s, q + 7, 6)
                &&& e.payload@ == s.subrange(q + 13, q + 20)
            },
            _ => false,
        }
    } else {
        match m {
            ItchMessage::Unknown(u) => {
                &&& u.message_type == 0x59u8
                &&& u.body@ == s.subrange(q, s.len() as int)
            },
            _ => false,
        }
    }
}

/// Parses the Order Priority Update message that starts at `pos`, returning
/// the bytes it spans and the message. Where the buffer ends before the
/// message does, it consumes nothing and returns an unknown message of type
/// `b'Y'` that holds the remaining bytes.
pub fn parse_at(data: &[u8], pos: usize) -> (r: (usize, ItchMessage))
    requires
        pos <= data.len(),
    ensures
        r.0 == (if pos + ORDER_PRIORITY_UPDATE_Y_LEN <= data.len() {
            ORDER_PRIORITY_UPDATE_Y_LEN
        } else {
            0
        }),
        order_priority_update_y_at(data@, pos as int, r.1),
{
    if data.len() - pos < ORDER_PRIORITY_UPDATE_Y_LEN {
        return (0, ItchMessage::Unknown(UnknownMessage { message_type: 0x59u8, body: copy_range(data, pos, data.len()) }));
    }
    let stock_locate = read_u16(data, pos + 1);
    let tracking_number = read_u32(data, pos + 3);
    let timestamp = read_timestamp(data, pos + 7);
    let payload = read_bytes7(data, pos + 13);
    (
        ORDER_PRIORITY_UPDATE_Y_LEN,
        ItchMessage::OrderPriorityUpdateY(
            OrderPriorityUpdateYMessage { stock_locate, tracking_number, timestamp, payload },
        ),
    )
}

} // verus!
