use vstd::prelude::*;

use super::common::{read_bytes8, read_timestamp, read_u16, read_u32, read_u64, be_field};
use crate::schema::itchformat::{NetOrderImbalanceIndicatorMessage, ItchMessage};

verus! {

/// Bytes in a Net Order Imbalance Indicator message, type byte included.
pub const NET_ORDER_IMBALANCE_INDICATOR_LEN: usize = 43;

/// `m` is the Net Order Imbalance Indicator message laid out at `q` in `s`: type byte at offset
/// 0, stock locate at 1, tracking number at 3, timestamp at 5, paired shares at 11, imbalance
/// shares at 19, imbalance direction at 34, stock at 35, far and near prices always 0,
/// current reference price at 27, cross type at 32, price variation indicator at 33.
pub open spec fn net_order_imbalance_indicator_at(s: Seq<u8>, q: int, m: ItchMessage) -> bool {
    match m {
        ItchMessage::NetOrderImbalanceIndicator(e) => {
            &&& e.stock_locate == be_field(s, q + 1, 2)
            &&& e.tracking_number == be_field(s, q + 3, 2)
            &&& e.timestamp == be_field(s, q + 5, 6)
            &&& e.paired_shares == be_field(s, q + 11, 8)
            &&& e.imbalance_shares == be_field(s, q + 19, 8)
            &&& e.imbalance_direction == s[q + 34]
            &&& e.stock@ == s.subrange(q + 35, q + 43)
            &&& e.far_price == 0
            &&& e.near_price == 0
            &&& e.current_reference_price == be_field(s, q + 27, 4)
            &&& e.cross_type == s[q + 32]
            &&& e.price_variation_indicator == s[q + 33]
        },
        _ => false,
    }
}

/// Parses the Net Order Imbalance Indicator message that starts at `pos`, returning the bytes it
/// spans and the message.
pub fn parse_at(data: &[u8], pos: usize) -> (r: (usize, ItchMessage))
    requires
        pos + NET_ORDER_IMBALANCE_INDICATOR_LEN <= data.len(),
    ensures
        r.0 == NET_ORDER_IMBALANCE_INDICATOR_LEN,
        net_order_imbalance_indicator_at(data@, pos as int, r.1),
{
    let stock_locate = read_u16(data, pos + 1);
    let tracking_number = read_u16(data, pos + 3);
    let timestamp = read_timestamp(data, pos + 5);
    let paired_shares = read_u64(data, pos + 11);
    let imbalance_shares = read_u64(data, pos + 19);
    let imbalance_direction = data[pos + 34];
    let stock = read_bytes8(data, pos + 35);
    let far_price: u32 = 0;
    let near_price: u32 = 0;
    let current_reference_price = read_u32(data, pos + 27);
    let cross_type = data[pos + 32];
    let price_variation_indicator = data[pos + 33];
    (
        NET_ORDER_IMBALANCE_INDICATOR_LEN,
        ItchMessage::NetOrderImbalanceIndicator(
            NetOrderImbalanceIndicatorMessage { stock_locate, tracking_number, timestamp, paired_shares, imbalance_shares, imbalance_direction, stock, far_price, near_price, current_reference_price, cross_type, price_variation_indicator },
        ),
    )
}

} // verus!
