use vstd::prelude::*;

use super::common::{be_field, read_timestamp, read_u16};
use crate::schema::itchformat::{ItchMessage, SystemEventMessage};

verus! {

/// Bytes in a System Event message, type byte included.
pub const SYSTEM_EVENT_LEN: usize = 12;

/// `m` is the System Event message laid out at `q` in `s`: type byte at
/// offset 0, stock locate at 1, tracking number at 3, timestamp at 5 and
/// event code at 11.
pub open spec fn system_event_at(s: Seq<u8>, q: int, m: ItchMessage) -> bool {
    match m {
        ItchMessage::SystemEvent(e) => {
            &&& e.stock_locate == be_field(s, q + 1, 2)
            &&& e.tracking_number == be_field(s, q + 3, 2)
            &&& e.timestamp == be_field(s, q + 5, 6)
            &&& e.event_code == s[q + 11]
        },
        _ => false,
    }
}

/// Parses the System Event message that starts at `pos`, returning the
/// bytes it spans and the message.
pub fn parse_at(data: &[u8], pos: usize) -> (r: (usize, ItchMessage))
    requires
        pos + SYSTEM_EVENT_LEN <= data.len(),
    ensures
        r.0 == SYSTEM_EVENT_LEN,
        system_event_at(data@, pos as int, r.1),
{
    let stock_locate = read_u16(data, pos + 1);
    let tracking_number = read_u16(data, pos + 3);
    let timestamp = read_timestamp(data, pos + 5);
    let event_code = data[pos + 11];
    (
        SYSTEM_EVENT_LEN,
        ItchMessage::SystemEvent(
            SystemEventMessage { stock_locate, tracking_number, timestamp, event_code },
        ),
    )
}

} // verus!
