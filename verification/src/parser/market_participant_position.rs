use vstd::prelude::*;

use super::common::{read_bytes8, read_timestamp, read_u16, be_field};
use crate::schema::itchformat::{MarketParticipantPositionMessage, ItchMessage};

verus! {

/// Bytes in a Market Participant Position message, type byte included.
pub const MARKET_PARTICIPANT_POSITION_LEN: usize = 26;

/// `m` is the Market Participant Position message laid out at `q` in `s`: type byte at offset
/// 0, stock locate at 1, tracking number at 3, timestamp at 5, stock at 15, primary market
/// maker at 23, market maker mode at 24, market participant state at 25.
pub open spec fn market_participant_position_at(s: Seq<u8>, q: int, m: ItchMessage) -> bool {
    match m {
        ItchMessage::MarketParticipantPosition(e) => {
            &&& e.stock_locate == be_field(s, q + 1, 2)
            &&& e.tracking_number == be_field(s, q + 3, 2)
            &&& e.timestamp == be_field(s, q + 5, 6)
            &&& e.stock@ == s.subrange(q + 15, q + 23)
            &&& e.primary_market_maker == s[q + 23]
            &&& e.market_maker_mode == s[q + 24]
            &&& e.market_participant_state == s[q + 25]
        },
        _ => false,
    }
}

/// Parses the Market Participant Position message that starts at `pos`, returning the bytes it
/// spans and the message.
pub fn parse_at(data: &[u8], pos: usize) -> (r: (usize, ItchMessage))
    requires
        pos + MARKET_PARTICIPANT_POSITION_LEN <= data.len(),
    ensures
        r.0 == MARKET_PARTICIPANT_POSITION_LEN,
        market_participant_position_at(data@, pos as int, r.1),
{
    let stock_locate = read_u16(data, pos + 1);
    let tracking_number = read_u16(data, pos + 3);
    let timestamp = read_timestamp(data, pos + 5);
    let stock = read_bytes8(data, pos + 15);
    let primary_market_maker = data[pos + 23];
    let market_maker_mode = data[pos + 24];
    let market_participant_state = data[pos + 25];
    (
        MARKET_PARTICIPANT_POSITION_LEN,
        ItchMessage::MarketParticipantPosition(
            MarketParticipantPositionMessage { stock_locate, tracking_number, timestamp, stock, primary_market_maker, market_maker_mode, market_participant_state },
        ),
    )
}

} // verus!
