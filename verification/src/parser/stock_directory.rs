use vstd::prelude::*;

use super::common::{read_bytes8, read_timestamp, read_u16, read_u32, be_field};
use crate::schema::itchformat::{StockDirectoryMessage, ItchMessage};

verus! {

/// Bytes in a Stock Directory message, type byte included.
pub const STOCK_DIRECTORY_LEN: usize = 26;

/// `m` is the Stock Directory message laid out at `q` in `s`: type byte at offset 0, stock
/// locate at 1, tracking number at 3, timestamp at 5, symbol at 11, market category at 19,
/// financial status at 20, round lot size at 21, round lots only at 25.
pub open spec fn stock_directory_at(s: Seq<u8>, q: int, m: ItchMessage) -> bool {
    match m {
        ItchMessage::StockDirectory(e) => {
            &&& e.stock_locate == be_field(s, q + 1, 2)
            &&& e.tracking_number == be_field(s, q + 3, 2)
            &&& e.timestamp == be_field(s, q + 5, 6)
            &&& e.symbol@ == s.subrange(q + 11, q + 19)
            &&& e.market_category == s[q + 19]
            &&& e.financial_status == s[q + 20]
            &&& e.round_lot_size == be_field(s, q + 21, 4)
            &&& e.round_lots_only == s[q + 25]
        },
        _ => false,
    }
}

/// Parses the Stock Directory message that starts at `pos`, returning the bytes it
/// spans and the message.
pub fn parse_at(data: &[u8], pos: usize) -> (r: (usize, ItchMessage))
    requires
        pos + STOCK_DIRECTORY_LEN <= data.len(),
    ensures
        r.0 == STOCK_DIRECTORY_LEN,
        stock_directory_at(data@, pos as int, r.1),
{
    let stock_locate = read_u16(data, pos + 1);
    let tracking_number = read_u16(data, pos + 3);
    let timestamp = read_timestamp(data, pos + 5);
    let symbol = read_bytes8(data, pos + 11);
    let market_category = data[pos + 19];
    let financial_status = data[pos + 20];
    let round_lot_size = read_u32(data, pos + 21);
    let round_lots_only = data[pos + 25];
    (
        STOCK_DIRECTORY_LEN,
        ItchMessage::StockDirectory(
            StockDirectoryMessage { stock_locate, tracking_number, timestamp, symbol, market_category, financial_status, round_lot_size, round_lots_only },
        ),
    )
}

} // verus!
