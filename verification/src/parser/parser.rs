use vstd::prelude::*;

use super::add_order::{add_order_at, ADD_ORDER_LEN};
use super::add_order_mpid::{add_order_mpid_at, ADD_ORDER_MPID_LEN};
use super::common::{be_field, copy_range, read_u16};
use super::cross_trade::{cross_trade_at, CROSS_TRADE_LEN};
use super::market_participant_position::{
    market_participant_position_at,
    MARKET_PARTICIPANT_POSITION_LEN,
};
use super::net_order_imbalance_indicator::{
    net_order_imbalance_indicator_at,
    NET_ORDER_IMBALANCE_INDICATOR_LEN,
};
use super::order_cancel::{order_cancel_at, ORDER_CANCEL_LEN};
use super::order_delete::{order_delete_at, ORDER_DELETE_LEN};
use super::order_executed::{order_executed_at, ORDER_EXECUTED_LEN};
use super::order_executed_with_price::{
    order_executed_with_price_at,
    ORDER_EXECUTED_WITH_PRICE_LEN,
};
use super::order_priority_update_y::order_priority_update_y_at;
use super::order_replace::{order_replace_at, ORDER_REPLACE_LEN};
use super::stock_directory::{stock_directory_at, STOCK_DIRECTORY_LEN};
use super::stock_trading_action::{stock_trading_action_at, STOCK_TRADING_ACTION_LEN};
use super::system_event::{system_event_at, SYSTEM_EVENT_LEN};
use super::trade::{trade_at, TRADE_LEN};
use super::{
    add_order,
    add_order_mpid,
    cross_trade,
    market_participant_position,
    net_order_imbalance_indicator,
    order_cancel,
    order_delete,
    order_executed,
    order_executed_with_price,
    order_priority_update_y,
    order_replace,
    stock_directory,
    stock_trading_action,
    system_event,
    trade,
};
use crate::schema::itchformat::{ItchMessage, UnknownMessage};

verus! {

/// The kind of an ITCH message, as its type byte tells it.
#[derive(Clone, Copy, Debug, PartialEq, Eq, Structural)]
pub enum MessageType {
    SystemEvent,
    StockDirectory,
    AddOrder,
    OrderExecuted,
    OrderCancel,
    AddOrderMPID,
    OrderExecutedWithPrice,
    CrossTrade,
    Trade,
    OrderDelete,
    OrderReplace,
    StockTradingAction,
    OrderPriorityUpdateY,
    NetOrderImbalanceIndicator,
    MarketParticipantPosition,
    Unknown,
}

/// The message kind that the type byte `b` names.
pub open spec fn message_type_of(b: u8) -> MessageType {
    if b == 0x53 {
        MessageType::SystemEvent
    } else if b == 0x52 {
        MessageType::StockDirectory
    } else if b == 0x41 {
        MessageType::AddOrder
    } else if b == 0x45 {
        MessageType::OrderExecuted
    } else if b == 0x58 {
        MessageType::OrderCancel
    } else if b == 0x46 {
        MessageType::AddOrderMPID
    } else if b == 0x43 {
        MessageType::OrderExecutedWithPrice
    } else if b == 0x51 {
        MessageType::CrossTrade
    } else if b == 0x50 {
        MessageType::Trade
    } else if b == 0x44 {
        MessageType::OrderDelete
    } else if b == 0x55 {
        MessageType::OrderReplace
    } else if b == 0x48 {
        MessageType::StockTradingAction
    } else if b == 0x59 {
        MessageType::OrderPriorityUpdateY
    } else if b == 0x49 {
        MessageType::NetOrderImbalanceIndicator
    } else if b == 0x4c {
        MessageType::MarketParticipantPosition
    } else {
        MessageType::Unknown
    }
}

impl From<u8> for MessageType {
    fn from(b: u8) -> (r: Self) {
        match b {
            0x53u8 => MessageType::SystemEvent,  // b'S'
            0x52u8 => MessageType::StockDirectory,  // b'R'
            0x41u8 => MessageType::AddOrder,  // b'A'
            0x45u8 => MessageType::OrderExecuted,  // b'E'
            0x58u8 => MessageType::OrderCancel,  // b'X'
            0x46u8 => MessageType::AddOrderMPID,  // b'F'
            0x43u8 => MessageType::OrderExecutedWithPrice,  // b'C'
            0x51u8 => MessageType::CrossTrade,  // b'Q'
            0x50u8 => MessageType::Trade,  // b'P'
            0x44u8 => MessageType::OrderDelete,  // b'D'
            0x55u8 => MessageType::OrderReplace,  // b'U'
            0x48u8 => MessageType::StockTradingAction,  // b'H'
            0x59u8 => MessageType::OrderPriorityUpdateY,  // b'Y'
            0x49u8 => MessageType::NetOrderImbalanceIndicator,  // b'I'
            0x4cu8 => MessageType::MarketParticipantPosition,  // b'L'
            _ => MessageType::Unknown,
        }
    }
}

impl vstd::std_specs::convert::FromSpecImpl<u8> for MessageType {
    open spec fn obeys_from_spec() -> bool {
        true
    }

    open spec fn from_spec(b: u8) -> Self {
        message_type_of(b)
    }
}

/// The number of bytes, type byte included, that the decoder of the kind
/// named by `t` reads. An Order Priority Update or an unknown message can be
/// decoded from however many bytes remain.
pub open spec fn body_len(t: u8) -> nat {
    match message_type_of(t) {
        MessageType::SystemEvent => SYSTEM_EVENT_LEN as nat,
        MessageType::StockDirectory => STOCK_DIRECTORY_LEN as nat,
        MessageType::AddOrder => ADD_ORDER_LEN as nat,
        MessageType::OrderExecuted => ORDER_EXECUTED_LEN as nat,
        MessageType::OrderCancel => ORDER_CANCEL_LEN as nat,
        MessageType::AddOrderMPID => ADD_ORDER_MPID_LEN as nat,
        MessageType::OrderExecutedWithPrice => ORDER_EXECUTED_WITH_PRICE_LEN as nat,
        MessageType::CrossTrade => CROSS_TRADE_LEN as nat,
        MessageType::Trade => TRADE_LEN as nat,
        MessageType::OrderDelete => ORDER_DELETE_LEN as nat,
        MessageType::OrderReplace => ORDER_REPLACE_LEN as nat,
        MessageType::StockTradingAction => STOCK_TRADING_ACTION_LEN as nat,
        MessageType::OrderPriorityUpdateY => 0,
        MessageType::NetOrderImbalanceIndicator => NET_ORDER_IMBALANCE_INDICATOR_LEN as nat,
        MessageType::MarketParticipantPosition => MARKET_PARTICIPANT_POSITION_LEN as nat,
        MessageType::Unknown => 0,
    }
}

/// The length that the 2-byte big-endian prefix of the frame at `p` gives
/// to the message that follows it (the prefix not included).
pub open spec fn frame_len(s: Seq<u8>, p: int) -> nat {
    be_field(s, p, 2)
}

/// The length prefix of a frame is its first two bytes, high byte first, so
/// the next frame starts that many bytes after them.
pub proof fn lemma_frame_len_prefix(s: Seq<u8>, p: int)
    requires
        0 <= p,
        p + 2 <= s.len(),
    ensures
        frame_len(s, p) == (s[p] as nat) * 256 + (s[p + 1] as nat),
        next_frame(s, p) == p + 2 + (s[p] as nat) * 256 + (s[p + 1] as nat),
{
    crate::parser::common::lemma_be_field_two(s, p);
}

/// A complete frame starts at `p`: its length prefix and type byte are
/// there, and so are all the bytes that the prefix announces.
pub open spec fn has_frame(s: Seq<u8>, p: int) -> bool {
    &&& 0 <= p
    &&& p + 3 <= s.len()
    &&& p + 2 + frame_len(s, p) <= s.len()
}

/// Where the frame after the one at `p` starts.
pub open spec fn next_frame(s: Seq<u8>, p: int) -> int {
    p + 2 + frame_len(s, p)
}

/// Where there is a complete frame at `p`, the bytes that its decoder reads
/// are all in `s`.
pub open spec fn frame_in_bounds(s: Seq<u8>, p: int) -> bool {
    has_frame(s, p) ==> p + 2 + body_len(s[p + 2]) <= s.len()
}

/// `m` is the message that the frame at `p` decodes to: the decoder is the
/// one that the type byte at `p + 2` names; an unknown type gives an unknown
/// message that holds the type byte and the frame's bytes from the type byte on.
pub open spec fn decodes_frame(s: Seq<u8>, p: int, m: ItchMessage) -> bool {
    let q = p + 2;
    match message_type_of(s[q]) {
        MessageType::SystemEvent => system_event_at(s, q, m),
        MessageType::StockDirectory => stock_directory_at(s, q, m),
        MessageType::AddOrder => add_order_at(s, q, m),
        MessageType::OrderExecuted => order_executed_at(s, q, m),
        MessageType::OrderCancel => order_cancel_at(s, q, m),
        MessageType::AddOrderMPID => add_order_mpid_at(s, q, m),
        MessageType::OrderExecutedWithPrice => order_executed_with_price_at(s, q, m),
        MessageType::CrossTrade => cross_trade_at(s, q, m),
        MessageType::Trade => trade_at(s, q, m),
        MessageType::OrderDelete => order_delete_at(s, q, m),
        MessageType::OrderReplace => order_replace_at(s, q, m),
        MessageType::StockTradingAction => stock_trading_action_at(s, q, m),
        MessageType::OrderPriorityUpdateY => order_priority_update_y_at(s, q, m),
        MessageType::NetOrderImbalanceIndicator => net_order_imbalance_indicator_at(s, q, m),
        MessageType::MarketParticipantPosition => market_participant_position_at(s, q, m),
        MessageType::Unknown => match m {
            ItchMessage::Unknown(u) => {
                &&& u.message_type == s[q]
                &&& u.body@ == s.subrange(q, q + frame_len(s, p))
            },
            _ => false,
        },
    }
}

/// Every complete frame of the chain that starts at `p` stays in bounds.
pub open spec fn stream_in_bounds(s: Seq<u8>, p: int) -> bool
    decreases s.len() - p,
{
    if has_frame(s, p) {
        frame_in_bounds(s, p) && stream_in_bounds(s, next_frame(s, p))
    } else {
        true
    }
}

/// The starts of the complete frames of the chain that starts at `p`, in order.
pub open spec fn frame_starts(s: Seq<u8>, p: int) -> Seq<int>
    decreases s.len() - p,
{
    if has_frame(s, p) {
        seq![p] + frame_starts(s, next_frame(s, p))
    } else {
        seq![]
    }
}

/// Where the chain of complete frames that starts at `p` ends.
pub open spec fn stream_end(s: Seq<u8>, p: int) -> int
    decreases s.len() - p,
{
    if has_frame(s, p) {
        stream_end(s, next_frame(s, p))
    } else {
        p
    }
}

/// The frames of the chain from `p` on follow one another: each is complete,
/// the first starts at `p`, each next one starts where the one before it ends
/// (after its 2-byte prefix and the length that the prefix gives), and the
/// chain ends, inside the buffer, at the first offset where no complete frame
/// starts.
pub proof fn lemma_frame_chain(s: Seq<u8>, p: int)
    requires
        0 <= p <= s.len(),
    ensures
        forall|i: int|
            0 <= i < frame_starts(s, p).len() ==> has_frame(s, #[trigger] frame_starts(s, p)[i]),
        frame_starts(s, p).len() > 0 ==> frame_starts(s, p)[0] == p,
        forall|i: int|
            0 <= i < frame_starts(s, p).len() - 1 ==> #[trigger] frame_starts(s, p)[i + 1]
                == next_frame(s, frame_starts(s, p)[i]),
        stream_end(s, p) == if frame_starts(s, p).len() == 0 {
            p
        } else {
            next_frame(s, frame_starts(s, p).last())
        },
        p <= stream_end(s, p) <= s.len(),
        !has_frame(s, stream_end(s, p)),
    decreases s.len() - p,
{
    if has_frame(s, p) {
        let q = next_frame(s, p);
        lemma_frame_chain(s, q);
        let rest = frame_starts(s, q);
        let fs = frame_starts(s, p);
        assert(fs == seq![p] + rest);
        assert forall|i: int| 0 <= i < fs.len() implies has_frame(s, #[trigger] fs[i]) by {
            if i > 0 {
                assert(fs[i] == rest[i - 1]);
            }
        }
        assert forall|i: int| 0 <= i < fs.len() - 1 implies #[trigger] fs[i + 1] == next_frame(
            s,
            fs[i],
        ) by {
            assert(fs[i + 1] == rest[i]);
            if i > 0 {
                let k = i - 1;
                assert(fs[i] == rest[k]);
                assert(rest[k + 1] == next_frame(s, rest[k]));
            }
        }
        if rest.len() > 0 {
            assert(fs.last() == rest.last());
        }
    }
}

/// Where the parser stands after `n` successive frames from `p`: each step
/// moves past one frame, as [`L3Parser::parse_next`] does.
pub open spec fn frame_after(s: Seq<u8>, p: int, n: nat) -> int
    decreases n,
{
    if n == 0 {
        p
    } else {
        frame_after(s, next_frame(s, p), (n - 1) as nat)
    }
}

/// Parsing the whole stream is parsing it frame by frame: the `i`-th message
/// that [`L3Parser::parse_all`] returns is decoded from the frame at which the
/// `i`-th call of [`L3Parser::parse_next`] from the same position starts, and
/// that call finds a complete frame there; after as many calls as there are
/// messages, the parser stands where `parse_all` leaves it, no complete frame
/// starts there, so a further `parse_next` gives `None` and a further
/// `parse_all` gives no message. The stream fits exactly where each of those
/// frames fits.
pub proof fn lemma_parse_all_is_repeated_parse_next(s: Seq<u8>, p: int)
    requires
        0 <= p <= s.len(),
    ensures
        forall|i: int|
            0 <= i < frame_starts(s, p).len() ==> {
                &&& #[trigger] frame_starts(s, p)[i] == frame_after(s, p, i as nat)
                &&& has_frame(s, frame_after(s, p, i as nat))
                &&& frame_after(s, p, (i + 1) as nat) == next_frame(s, frame_after(s, p, i as nat))
            },
        frame_after(s, p, frame_starts(s, p).len()) == stream_end(s, p),
        !has_frame(s, stream_end(s, p)),
        frame_starts(s, stream_end(s, p)).len() == 0,
        stream_end(s, stream_end(s, p)) == stream_end(s, p),
        stream_in_bounds(s, p) <==> (forall|i: int|
            0 <= i < frame_starts(s, p).len() ==> frame_in_bounds(
                s,
                #[trigger] frame_starts(s, p)[i],
            )),
    decreases s.len() - p,
{
    lemma_frame_chain(s, p);
    let e = stream_end(s, p);
    assert(!has_frame(s, e));
    assert(frame_starts(s, e) =~= seq![]);
    if has_frame(s, p) {
        let q = next_frame(s, p);
        lemma_parse_all_is_repeated_parse_next(s, q);
        let fs = frame_starts(s, p);
        let rest = frame_starts(s, q);
        assert(fs == seq![p] + rest);
        assert forall|i: int| 0 <= i < fs.len() implies {
            &&& #[trigger] fs[i] == frame_after(s, p, i as nat)
            &&& has_frame(s, frame_after(s, p, i as nat))
            &&& frame_after(s, p, (i + 1) as nat) == next_frame(s, frame_after(s, p, i as nat))
        } by {
            if i > 0 {
                assert(fs[i] == rest[i - 1]);
                assert(frame_after(s, p, i as nat) == frame_after(s, q, (i - 1) as nat));
                assert(frame_after(s, p, (i + 1) as nat) == frame_after(s, q, i as nat));
            } else {
                assert(frame_after(s, p, 1) == frame_after(s, q, 0));
            }
        }
        assert(frame_after(s, p, fs.len()) == frame_after(s, q, rest.len()));
        if stream_in_bounds(s, p) {
            assert forall|i: int| 0 <= i < fs.len() implies frame_in_bounds(s, #[trigger] fs[i]) by {
                if i > 0 {
                    assert(fs[i] == rest[i - 1]);
                }
            }
        }
        if forall|i: int| 0 <= i < fs.len() ==> frame_in_bounds(s, #[trigger] fs[i]) {
            assert(fs[0] == p);
            assert forall|i: int| 0 <= i < rest.len() implies frame_in_bounds(s, #[trigger] rest[i]) by {
                assert(fs[i + 1] == rest[i]);
            }
        }
    } else {
        assert(frame_starts(s, p) =~= seq![]);
    }
}

/// What a frame decodes to follows the ITCH layout of its header: the message
/// has the kind that the frame's type byte names (an unknown type is kept as
/// it was read), and a message that is not unknown takes its stock locate from
/// the 2 bytes after the type byte, its tracking number from the 2 after those
/// and its 6-byte timestamp from the bytes after that (an Order Priority
/// Update carries a 4-byte tracking number, which moves its timestamp on by
/// 2). An Add Order with MPID frame gives an Add Order with MPID message whose
/// attribution is the 4 bytes at offset 36 of the message. A frame decodes to
/// an unknown message only where its type byte is the letter of no kind, or
/// it is an Order Priority Update too short to hold its 20 bytes.
pub proof fn lemma_decoded_header(s: Seq<u8>, p: int, m: ItchMessage)
    requires
        has_frame(s, p),
        frame_in_bounds(s, p),
        decodes_frame(s, p, m),
    ensures
        m.spec_type_byte() == s[p + 2],
        m !is Unknown && m !is OrderPriorityUpdateY ==> {
            &&& m.spec_stock_locate() == Some(be_field(s, p + 3, 2) as u16)
            &&& m.spec_tracking_number() == Some(be_field(s, p + 5, 2) as u32)
            &&& m.spec_timestamp() == Some(be_field(s, p + 7, 6) as u64)
        },
        m is OrderPriorityUpdateY ==> {
            &&& m.spec_stock_locate() == Some(be_field(s, p + 3, 2) as u16)
            &&& m.spec_tracking_number() == Some(be_field(s, p + 5, 4) as u32)
            &&& m.spec_timestamp() == Some(be_field(s, p + 9, 6) as u64)
        },
        s[p + 2] == 0x46u8 ==> (m matches ItchMessage::AddOrderMPID(e) && e.attribution@
            == s.subrange(p + 2 + 36, p + 2 + 40)),
        m is Unknown ==> forall|x: ItchMessage|
            x !is Unknown && #[trigger] x.spec_type_byte() == s[p + 2] ==> x is OrderPriorityUpdateY,
        m is Unknown && s[p + 2] == 0x59u8 ==> p + 2 + 20 > s.len(),
{
}

/// Where the fields of a decoded message come from, field by field across the
/// message kinds that carry them, by offset from the type byte: integers are
/// big-endian, stock symbols and other byte strings are copied as they are. A
/// frame of a type that is not known decodes to an unknown message that keeps
/// the frame's bytes from the type byte on.
pub proof fn lemma_decoded_fields(s: Seq<u8>, p: int, m: ItchMessage)
    requires
        has_frame(s, p),
        frame_in_bounds(s, p),
        decodes_frame(s, p, m),
    ensures
        m matches ItchMessage::AddOrder(e) ==> e.order_reference_number == be_field(s, p + 2 + 11, 8),
        m matches ItchMessage::AddOrderMPID(e) ==> e.order_reference_number == be_field(s, p + 2 + 11, 8),
        m matches ItchMessage::OrderCancel(e) ==> e.order_reference_number == be_field(s, p + 2 + 11, 8),
        m matches ItchMessage::OrderDelete(e) ==> e.order_reference_number == be_field(s, p + 2 + 11, 8),
        m matches ItchMessage::OrderExecuted(e) ==> e.order_reference_number == be_field(s, p + 2 + 11, 8),
        m matches ItchMessage::OrderExecutedWithPrice(e) ==> e.order_reference_number == be_field(s, p + 2 + 11, 8),
        m matches ItchMessage::Trade(e) ==> e.order_reference_number == be_field(s, p + 2 + 11, 8),
        m matches ItchMessage::AddOrder(e) ==> e.buy_sell_indicator == s[p + 2 + 19],
        m matches ItchMessage::AddOrderMPID(e) ==> e.buy_sell_indicator == s[p + 2 + 19],
        m matches ItchMessage::Trade(e) ==> e.buy_sell_indicator == s[p + 2 + 19],
        m matches ItchMessage::AddOrder(e) ==> e.shares == be_field(s, p + 2 + 20, 4),
        m matches ItchMessage::AddOrderMPID(e) ==> e.shares == be_field(s, p + 2 + 20, 4),
        m matches ItchMessage::CrossTrade(e) ==> e.shares == be_field(s, p + 2 + 11, 8),
        m matches ItchMessage::OrderReplace(e) ==> e.shares == be_field(s, p + 2 + 27, 4),
        m matches ItchMessage::Trade(e) ==> e.shares == be_field(s, p + 2 + 20, 4),
        m matches ItchMessage::AddOrder(e) ==> e.stock@ == s.subrange(p + 2 + 24, p + 2 + 32),
        m matches ItchMessage::AddOrderMPID(e) ==> e.stock@ == s.subrange(p + 2 + 24, p + 2 + 32),
        m matches ItchMessage::CrossTrade(e) ==> e.stock@ == s.subrange(p + 2 + 19, p + 2 + 27),
        m matches ItchMessage::MarketParticipantPosition(e) ==> e.stock@ == s.subrange(p + 2 + 15, p + 2 + 23),
        m matches ItchMessage::NetOrderImbalanceIndicator(e) ==> e.stock@ == s.subrange(p + 2 + 35, p + 2 + 43),
        m matches ItchMessage::StockTradingAction(e) ==> e.stock@ == s.subrange(p + 2 + 11, p + 2 + 19),
        m matches ItchMessage::Trade(e) ==> e.stock@ == s.subrange(p + 2 + 24, p + 2 + 32),
        m matches ItchMessage::AddOrder(e) ==> e.price == be_field(s, p + 2 + 32, 4),
        m matches ItchMessage::AddOrderMPID(e) ==> e.price == be_field(s, p + 2 + 32, 4),
        m matches ItchMessage::OrderReplace(e) ==> e.price == be_field(s, p + 2 + 31, 4),
        m matches ItchMessage::Trade(e) ==> e.price == be_field(s, p + 2 + 32, 4),
        m matches ItchMessage::AddOrderMPID(e) ==> e.attribution@ == s.subrange(p + 2 + 36, p + 2 + 40),
        m matches ItchMessage::CrossTrade(e) ==> e.cross_price == be_field(s, p + 2 + 27, 4),
        m matches ItchMessage::CrossTrade(e) ==> e.match_number == be_field(s, p + 2 + 31, 8),
        m matches ItchMessage::OrderExecuted(e) ==> e.match_number == be_field(s, p + 2 + 23, 8),
        m matches ItchMessage::OrderExecutedWithPrice(e) ==> e.match_number == be_field(s, p + 2 + 23, 8),
        m matches ItchMessage::Trade(e) ==> e.match_number == be_field(s, p + 2 + 36, 8),
        m matches ItchMessage::CrossTrade(e) ==> e.cross_type == s[p + 2 + 39],
        m matches ItchMessage::NetOrderImbalanceIndicator(e) ==> e.cross_type == s[p + 2 + 32],
        m matches ItchMessage::MarketParticipantPosition(e) ==> e.primary_market_maker == s[p + 2 + 23],
        m matches ItchMessage::MarketParticipantPosition(e) ==> e.market_maker_mode == s[p + 2 + 24],
        m matches ItchMessage::MarketParticipantPosition(e) ==> e.market_participant_state == s[p + 2 + 25],
        m matches ItchMessage::NetOrderImbalanceIndicator(e) ==> e.paired_shares == be_field(s, p + 2 + 11, 8),
        m matches ItchMessage::NetOrderImbalanceIndicator(e) ==> e.imbalance_shares == be_field(s, p + 2 + 19, 8),
        m matches ItchMessage::NetOrderImbalanceIndicator(e) ==> e.imbalance_direction == s[p + 2 + 34],
        m matches ItchMessage::NetOrderImbalanceIndicator(e) ==> e.far_price == 0,
        m matches ItchMessage::NetOrderImbalanceIndicator(e) ==> e.near_price == 0,
        m matches ItchMessage::NetOrderImbalanceIndicator(e) ==> e.current_reference_price == be_field(s, p + 2 + 27, 4),
        m matches ItchMessage::NetOrderImbalanceIndicator(e) ==> e.price_variation_indicator == s[p + 2 + 33],
        m matches ItchMessage::OrderCancel(e) ==> e.cancelled_shares == be_field(s, p + 2 + 19, 4),
        m matches ItchMessage::OrderExecuted(e) ==> e.executed_shares == be_field(s, p + 2 + 19, 4),
        m matches ItchMessage::OrderExecutedWithPrice(e) ==> e.executed_shares == be_field(s, p + 2 + 19, 4),
        m matches ItchMessage::OrderExecutedWithPrice(e) ==> e.printable == s[p + 2 + 31],
        m matches ItchMessage::OrderExecutedWithPrice(e) ==> e.execution_price == be_field(s, p + 2 + 32, 4),
        m matches ItchMessage::OrderPriorityUpdateY(e) ==> e.payload@ == s.subrange(p + 2 + 13, p + 2 + 20),
        m matches ItchMessage::OrderReplace(e) ==> e.original_order_reference_number == be_field(s, p + 2 + 11, 8),
        m matches ItchMessage::OrderReplace(e) ==> e.new_order_reference_number == be_field(s, p + 2 + 19, 8),
        m matches ItchMessage::StockDirectory(e) ==> e.symbol@ == s.subrange(p + 2 + 11, p + 2 + 19),
        m matches ItchMessage::StockDirectory(e) ==> e.market_category == s[p + 2 + 19],
        m matches ItchMessage::StockDirectory(e) ==> e.financial_status == s[p + 2 + 20],
        m matches ItchMessage::StockDirectory(e) ==> e.round_lot_size == be_field(s, p + 2 + 21, 4),
        m matches ItchMessage::StockDirectory(e) ==> e.round_lots_only == s[p + 2 + 25],
        m matches ItchMessage::StockTradingAction(e) ==> e.trading_state == s[p + 2 + 19],
        m matches ItchMessage::StockTradingAction(e) ==> e.reserved == s[p + 2 + 20],
        m matches ItchMessage::StockTradingAction(e) ==> e.reason == s[p + 2 + 21],
        m matches ItchMessage::SystemEvent(e) ==> e.event_code == s[p + 2 + 11],
        message_type_of(s[p + 2]) is Unknown ==> (m matches ItchMessage::Unknown(u) && u.body@
            == s.subrange(p + 2, p + 2 + frame_len(s, p))),
{
}

/// Every message decoded from a frame that carries a timestamp carries one of
/// 48 bits: ITCH timestamps take 6 bytes.
pub proof fn lemma_decoded_timestamp_fits(s: Seq<u8>, p: int, m: ItchMessage)
    requires
        has_frame(s, p),
        frame_in_bounds(s, p),
        decodes_frame(s, p, m),
    ensures
        m.spec_timestamp() matches Some(ts) ==> ts < 0x1_0000_0000_0000,
{
    let q = p + 2;
    reveal_with_fuel(crate::parser::common::pow256, 7);
    if q + 11 <= s.len() {
        crate::parser::common::lemma_be_value_bound(s.subrange(q + 5, q + 11));
    }
    if q + 13 <= s.len() {
        crate::parser::common::lemma_be_value_bound(s.subrange(q + 7, q + 13));
    }
}

/// Tells whether the frame at `pos`, if complete, holds every byte that its
/// decoder reads.
fn frame_fits_at(data: &[u8], pos: usize) -> (r: bool)
    requires
        pos <= data@.len(),
    ensures
        r == frame_in_bounds(data@, pos as int),
{
    let len = data.len();
    if len - pos < 3 {
        return true;
    }
    let msg_len = read_u16(data, pos) as usize;
    if len - pos - 2 < msg_len {
        return true;
    }
    let needed: usize = match MessageType::from(data[pos + 2]) {
        MessageType::SystemEvent => SYSTEM_EVENT_LEN,
        MessageType::StockDirectory => STOCK_DIRECTORY_LEN,
        MessageType::AddOrder => ADD_ORDER_LEN,
        MessageType::OrderExecuted => ORDER_EXECUTED_LEN,
        MessageType::OrderCancel => ORDER_CANCEL_LEN,
        MessageType::AddOrderMPID => ADD_ORDER_MPID_LEN,
        MessageType::OrderExecutedWithPrice => ORDER_EXECUTED_WITH_PRICE_LEN,
        MessageType::CrossTrade => CROSS_TRADE_LEN,
        MessageType::Trade => TRADE_LEN,
        MessageType::OrderDelete => ORDER_DELETE_LEN,
        MessageType::OrderReplace => ORDER_REPLACE_LEN,
        MessageType::StockTradingAction => STOCK_TRADING_ACTION_LEN,
        MessageType::OrderPriorityUpdateY => 0,
        MessageType::NetOrderImbalanceIndicator => NET_ORDER_IMBALANCE_INDICATOR_LEN,
        MessageType::MarketParticipantPosition => MARKET_PARTICIPANT_POSITION_LEN,
        MessageType::Unknown => 0,
    };
    needed <= len - pos - 2
}

/// A cursor over a buffer of length-prefixed ITCH frames.
pub struct L3Parser<'a> {
    data: &'a [u8],
    pos: usize,
}

impl<'a> L3Parser<'a> {
    #[verifier::type_invariant]
    spec fn inv(self) -> bool {
        self.pos <= self.data@.len()
    }

    /// The buffer that the parser reads.
    pub closed spec fn bytes(self) -> Seq<u8> {
        self.data@
    }

    /// The offset of the next frame to parse.
    pub closed spec fn spec_position(self) -> int {
        self.pos as int
    }

    /// Creates a parser at the start of `data`.
    pub fn new(data: &'a [u8]) -> (r: Self)
        ensures
            r.bytes() == data@,
            r.spec_position() == 0,
    {
        Self { data, pos: 0 }
    }

    /// Returns the offset of the next frame to parse.
    pub fn position(&self) -> (r: usize)
        ensures
            r == self.spec_position(),
            r <= self.bytes().len(),
    {
        proof {
            use_type_invariant(self);
        }
        self.pos
    }

    /// Tells whether the frame at the current position, if complete, holds
    /// every byte that its decoder reads: what [`Self::parse_next`] needs.
    pub fn next_frame_fits(&self) -> (r: bool)
        ensures
            r == frame_in_bounds(self.bytes(), self.spec_position()),
    {
        proof {
            use_type_invariant(self);
        }
        frame_fits_at(self.data, self.pos)
    }

    /// Tells whether every complete frame from the current position on holds
    /// every byte that its decoder reads: what [`Self::parse_all`] needs.
    pub fn stream_fits(&self) -> (r: bool)
        ensures
            r == stream_in_bounds(self.bytes(), self.spec_position()),
    {
        proof {
            use_type_invariant(self);
        }
        let data = self.data;
        let ghost s = data@;
        let ghost p0 = self.pos as int;
        let len = data.len();
        let mut pos = self.pos;
        loop
            invariant
                s == data@,
                s == self.bytes(),
                p0 == self.spec_position(),
                len == data.len(),
                pos <= len,
                stream_in_bounds(s, p0) == stream_in_bounds(s, pos as int),
            decreases len - pos,
        {
            if len - pos < 3 {
                assert(!has_frame(s, pos as int));
                assert(stream_in_bounds(s, pos as int));
                return true;
            }
            let msg_len = read_u16(data, pos) as usize;
            if len - pos - 2 < msg_len {
                assert(!has_frame(s, pos as int));
                assert(stream_in_bounds(s, pos as int));
                return true;
            }
            assert(has_frame(s, pos as int));
            if !frame_fits_at(data, pos) {
                assert(!stream_in_bounds(s, pos as int));
                return false;
            }
            assert(stream_in_bounds(s, pos as int) == stream_in_bounds(s, next_frame(s, pos as int)));
            pos = pos + 2 + msg_len;
        }
    }

    /// Parses every complete frame from the current position on and returns
    /// the messages in order; the position ends after the last of them.
    pub fn parse_all(&mut self) -> (out: Vec<ItchMessage>)
        requires
            stream_in_bounds(old(self).bytes(), old(self).spec_position()),
        ensures
            final(self).bytes() == old(self).bytes(),
            final(self).spec_position() == stream_end(
                old(self).bytes(),
                old(self).spec_position(),
            ),
            !has_frame(final(self).bytes(), final(self).spec_position()),
            out@.len() == frame_starts(old(self).bytes(), old(self).spec_position()).len(),
            forall|i: int|
                0 <= i < out@.len() ==> decodes_frame(
                    old(self).bytes(),
                    #[trigger] frame_starts(old(self).bytes(), old(self).spec_position())[i],
                    out@[i],
                ),
    {
        let ghost s = self.bytes();
        let ghost p0 = self.spec_position();
        let ghost mut starts: Seq<int> = seq![];
        let mut out: Vec<ItchMessage> = Vec::new();
        proof {
            use_type_invariant(&*self);
            lemma_frame_chain(s, p0);
        }
        loop
            invariant
                self.bytes() == s,
                0 <= self.spec_position() <= s.len(),
                stream_in_bounds(s, self.spec_position()),
                frame_starts(s, p0) == starts + frame_starts(s, self.spec_position()),
                stream_end(s, p0) == stream_end(s, self.spec_position()),
                out@.len() == starts.len(),
                forall|i: int| 0 <= i < out@.len() ==> decodes_frame(s, starts[i], out@[i]),
            ensures
                self.bytes() == s,
                self.spec_position() == stream_end(s, p0),
                out@.len() == frame_starts(s, p0).len(),
                forall|i: int|
                    0 <= i < out@.len() ==> decodes_frame(s, #[trigger] frame_starts(s, p0)[i], out@[i]),
            decreases s.len() - self.spec_position(),
        {
            let ghost p = self.spec_position();
            match self.parse_next() {
                Some(msg) => {
                    proof {
                        assert(starts.push(p) + frame_starts(s, next_frame(s, p)) =~= starts
                            + frame_starts(s, p));
                    }
                    out.push(msg);
                    proof {
                        starts = starts.push(p);
                    }
                },
                None => {
                    assert(frame_starts(s, p) =~= seq![]);
                    assert(starts + frame_starts(s, p) =~= starts);
                    break ;
                },
            }
        }
        out
    }

    /// Parses the frame at the current position and moves past it. Returns
    /// `None`, and stays put, where the buffer does not hold a complete frame
    /// there.
    pub fn parse_next(&mut self) -> (r: Option<ItchMessage>)
        requires
            frame_in_bounds(old(self).bytes(), old(self).spec_position()),
        ensures
            final(self).bytes() == old(self).bytes(),
            0 <= final(self).spec_position() <= final(self).bytes().len(),
            match r {
                None => {
                    &&& !has_frame(old(self).bytes(), old(self).spec_position())
                    &&& final(self).spec_position() == old(self).spec_position()
                },
                Some(m) => {
                    &&& has_frame(old(self).bytes(), old(self).spec_position())
                    &&& decodes_frame(old(self).bytes(), old(self).spec_position(), m)
                    &&& final(self).spec_position() == next_frame(
                        old(self).bytes(),
                        old(self).spec_position(),
                    )
                },
            },
    {
        proof {
            use_type_invariant(&*self);
        }
        let data = self.data;
        let pos = self.pos;
        let len = data.len();
        // Need at least the 2-byte length and the 1-byte type.
        if len - pos < 3 {
            return None;
        }
        // The length of the message, not counting the 2-byte length field.
        let msg_len = read_u16(data, pos) as usize;
        // The whole message must be in the buffer.
        if len - pos - 2 < msg_len {
            return None;
        }
        let msg_start = pos + 2;
        let type_byte = data[msg_start];
        let msg_type = MessageType::from(type_byte);
        let (_, msg) = match msg_type {
            MessageType::SystemEvent => system_event::parse_at(data, msg_start),
            MessageType::StockDirectory => stock_directory::parse_at(data, msg_start),
            MessageType::AddOrder => add_order::parse_at(data, msg_start),
            MessageType::OrderExecuted => order_executed::parse_at(data, msg_start),
            MessageType::OrderCancel => order_cancel::parse_at(data, msg_start),
            MessageType::AddOrderMPID => add_order_mpid::parse_at(data, msg_start),
            MessageType::OrderExecutedWithPrice => order_executed_with_price::parse_at(
                data,
                msg_start,
            ),
            MessageType::CrossTrade => cross_trade::parse_at(data, msg_start),
            MessageType::Trade => trade::parse_at(data, msg_start),
            MessageType::OrderDelete => order_delete::parse_at(data, msg_start),
            MessageType::OrderReplace => order_replace::parse_at(data, msg_start),
            MessageType::StockTradingAction => stock_trading_action::parse_at(data, msg_start),
            MessageType::OrderPriorityUpdateY => order_priority_update_y::parse_at(
                data,
                msg_start,
            ),
            MessageType::NetOrderImbalanceIndicator => net_order_imbalance_indicator::parse_at(
                data,
                msg_start,
            ),
            MessageType::MarketParticipantPosition => market_participant_position::parse_at(
                data,
                msg_start,
            ),
            MessageType::Unknown => (
                msg_len,
                ItchMessage::Unknown(
                    UnknownMessage {
                        message_type: type_byte,
                        body: copy_range(data, msg_start, msg_start + msg_len),
                    },
                ),
            ),
        };
        // Move on by the length that the prefix gives.
        self.pos = pos + msg_len + 2;
        Some(msg)
    }
}

} // verus!
