use vstd::prelude::*;

use super::common::{read_bytes8, read_timestamp, read_u16, read_u32, read_u64, be_field};
use crate::schema::itchformat::{CrossTradeMessage, ItchMessage};

verus! {

/// Bytes in a Cross Trade message, type byte included.
pub const CROSS_TRADE_LEN: usize = 40;

/// `m` is the Cross Trade message laid out at `q` in `s`: type byte at offset 0, stock locate
/// at 1, tracking number at 3, timestamp at 5, shares at 11, stock at 19, cross price at 27,
/// match number at 31, cross type at 39.
pub open spec fn cross_trade_at(s: Seq<u8>, q: int, m: ItchMessage) -> bool {
    match m {
        ItchMessage::CrossTrade(e) => {
            &&& e.stock_locate == be_field(s, q + 1, 2)
            &&& e.tracking_number == be_field(s, q + 3, 2)
            &&& e.timestamp == be_field(s, q + 5, 6)
            &&& e.shares == be_field(s, q + 11, 8)
            &&& e.stock@ == s.subrange(q + 19, q + 27)
            &&& e.cross_price == be_field(s, q + 27, 4)
            &&& e.match_number == be_field(s, q + 31, 8)
            &&& e.cross_type == s[q + 39]
        },
        _ => false,
    }
}

/// Parses the Cross Trade message that starts at `pos`, returning the bytes it
/// spans and the message.
pub fn parse_at(data: &[u8], pos: usize) -> (r: (usize, ItchMessage))
    requires
        pos + CROSS_TRADE_LEN <= data.len(),
    ensures
        r.0 == CROSS_TRADE_LEN,
        cross_trade_at(data@, pos as int, r.1),
{
    let stock_locate = read_u16(data, pos + 1);
    let tracking_number = read_u16(data, pos + 3);
    let timestamp = read_timestamp(data, pos + 5);
    let shares = read_u64(data, pos + 11);
    let stock = read_bytes8(data, pos + 19);
    let cross_price = read_u32(data, pos + 27);
    let match_number = read_u64(data, pos + 31);
    let cross_type = data[pos + 39];
    (
        CROSS_TRADE_LEN,
        ItchMessage::CrossTrade(
            CrossTradeMessage { stock_locate, tracking_number, timestamp, shares, stock, cross_price, match_number, cross_type },
        ),
    )
}

} // verus!
