use vstd::prelude::*;

use super::common::{read_bytes8, read_timestamp, read_u16, be_field};
use crate::schema::itchformat::{StockTradingActionMessage, ItchMessage};

verus! {

/// Bytes in a Stock Trading Action message, type byte included.
pub const STOCK_TRADING_ACTION_LEN: usize = 22;

/// `m` is the Stock Trading Action message laid out at `q` in `s`: type byte at offset 0, stock
/// locate at 1, tracking number at 3, timestamp at 5, stock at 11, trading state at 19,
/// reserved at 20, reason at 21.
pub open spec fn stock_trading_action_at(s: Seq<u8>, q: int, m: ItchMessage) -> bool {
    match m {
        ItchMessage::StockTradingAction(e) => {
            &&& e.stock_locate == be_field(s, q + 1, 2)
            &&& e.tracking_number == be_field(s, q + 3, 2)
            &&& e.timestamp == be_field(s, q + 5, 6)
            &&& e.stock@ == s.subrange(q + 11, q + 19)
            &&& e.trading_state == s[q + 19]
            &&& e.reserved == s[q + 20]
            &&& e.reason == s[q + 21]
        },
        _ => false,
    }
}

/// Parses the Stock Trading Action message that starts at `pos`, returning the bytes it
/// spans and the message.
pub fn parse_at(data: &[u8], pos: usize) -> (r: (usize, ItchMessage))
    requires
        pos + STOCK_TRADING_ACTION_LEN <= data.len(),
    ensures
        r.0 == STOCK_TRADING_ACTION_LEN,
        stock_trading_action_at(data@, pos as int, r.1),
{
    let stock_locate = read_u16(data, pos + 1);
    let tracking_number = read_u16(data, pos + 3);
    let timestamp = read_timestamp(data, pos + 5);
    let stock = read_bytes8(data, pos + 11);
    let trading_state = data[pos + 19];
    let reserved = data[pos + 20];
    let reason = data[pos + 21];
    (
        STOCK_TRADING_ACTION_LEN,
        ItchMessage::StockTradingAction(
            StockTradingActionMessage { stock_locate, tracking_number, timestamp, stock, trading_state, reserved, reason },
        ),
    )
}

} // verus!
