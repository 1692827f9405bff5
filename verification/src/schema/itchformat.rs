use vstd::prelude::*;

verus! {

/// One decoded ITCH message.
#[derive(Debug, Clone, PartialEq, Eq)]
pub enum ItchMessage {
    SystemEvent(SystemEventMessage),
    StockDirectory(StockDirectoryMessage),
    StockTradingAction(StockTradingActionMessage),
    AddOrder(AddOrderMessage),
    AddOrderMPID(AddOrderMPIDMessage),
    OrderExecuted(OrderExecutedMessage),
    OrderExecutedWithPrice(OrderExecutedWithPriceMessage),
    OrderCancel(OrderCancelMessage),
    OrderDelete(OrderDeleteMessage),
    OrderReplace(OrderReplaceMessage),
    Trade(TradeMessage),
    CrossTrade(CrossTradeMessage),
    OrderPriorityUpdateY(OrderPriorityUpdateYMessage),
    NetOrderImbalanceIndicator(NetOrderImbalanceIndicatorMessage),
    MarketParticipantPosition(MarketParticipantPositionMessage),
    Unknown(UnknownMessage),
}

impl ItchMessage {
    /// The name of the message's variant, as it appears in output file names.
    pub open spec fn spec_name(self) -> Seq<char> {
        match self {
            ItchMessage::SystemEvent(_) => "SystemEvent"@,
            ItchMessage::StockDirectory(_) => "StockDirectory"@,
            ItchMessage::StockTradingAction(_) => "StockTradingAction"@,
            ItchMessage::AddOrder(_) => "AddOrder"@,
            ItchMessage::AddOrderMPID(_) => "AddOrderMPID"@,
            ItchMessage::OrderExecuted(_) => "OrderExecuted"@,
            ItchMessage::OrderExecutedWithPrice(_) => "OrderExecutedWithPrice"@,
            ItchMessage::OrderCancel(_) => "OrderCancel"@,
            ItchMessage::OrderDelete(_) => "OrderDelete"@,
            ItchMessage::OrderReplace(_) => "OrderReplace"@,
            ItchMessage::Trade(_) => "Trade"@,
            ItchMessage::CrossTrade(_) => "CrossTrade"@,
            ItchMessage::OrderPriorityUpdateY(_) => "OrderPriorityUpdateY"@,
            ItchMessage::NetOrderImbalanceIndicator(_) => "NetOrderImbalanceIndicator"@,
            ItchMessage::MarketParticipantPosition(_) => "MarketParticipantPosition"@,
            ItchMessage::Unknown(_) => "Unknown"@,
        }
    }

    /// The timestamp that every decoded message carries; an unknown message has none.
    pub open spec fn spec_timestamp(self) -> Option<u64> {
        match self {
            ItchMessage::SystemEvent(m) => Some(m.timestamp),
            ItchMessage::StockDirectory(m) => Some(m.timestamp),
            ItchMessage::StockTradingAction(m) => Some(m.timestamp),
            ItchMessage::AddOrder(m) => Some(m.timestamp),
            ItchMessage::AddOrderMPID(m) => Some(m.timestamp),
            ItchMessage::OrderExecuted(m) => Some(m.timestamp),
            ItchMessage::OrderExecutedWithPrice(m) => Some(m.timestamp),
            ItchMessage::OrderCancel(m) => Some(m.timestamp),
            ItchMessage::OrderDelete(m) => Some(m.timestamp),
            ItchMessage::OrderReplace(m) => Some(m.timestamp),
            ItchMessage::Trade(m) => Some(m.timestamp),
            ItchMessage::CrossTrade(m) => Some(m.timestamp),
            ItchMessage::OrderPriorityUpdateY(m) => Some(m.timestamp),
            ItchMessage::NetOrderImbalanceIndicator(m) => Some(m.timestamp),
            ItchMessage::MarketParticipantPosition(m) => Some(m.timestamp),
            ItchMessage::Unknown(_) => None,
        }
    }

    /// The stock locate of the message's header; an unknown message has none.
    pub open spec fn spec_stock_locate(self) -> Option<u16> {
        match self {
            ItchMessage::SystemEvent(m) => Some(m.stock_locate),
            ItchMessage::StockDirectory(m) => Some(m.stock_locate),
            ItchMessage::StockTradingAction(m) => Some(m.stock_locate),
            ItchMessage::AddOrder(m) => Some(m.stock_locate),
            ItchMessage::AddOrderMPID(m) => Some(m.stock_locate),
            ItchMessage::OrderExecuted(m) => Some(m.stock_locate),
            ItchMessage::OrderExecutedWithPrice(m) => Some(m.stock_locate),
            ItchMessage::OrderCancel(m) => Some(m.stock_locate),
            ItchMessage::OrderDelete(m) => Some(m.stock_locate),
            ItchMessage::OrderReplace(m) => Some(m.stock_locate),
            ItchMessage::Trade(m) => Some(m.stock_locate),
            ItchMessage::CrossTrade(m) => Some(m.stock_locate),
            ItchMessage::OrderPriorityUpdateY(m) => Some(m.stock_locate),
            ItchMessage::NetOrderImbalanceIndicator(m) => Some(m.stock_locate),
            ItchMessage::MarketParticipantPosition(m) => Some(m.stock_locate),
            ItchMessage::Unknown(_) => None,
        }
    }

    /// The tracking number of the message's header; an unknown message has none.
    pub open spec fn spec_tracking_number(self) -> Option<u32> {
        match self {
            ItchMessage::SystemEvent(m) => Some(m.tracking_number as u32),
            ItchMessage::StockDirectory(m) => Some(m.tracking_number as u32),
            ItchMessage::StockTradingAction(m) => Some(m.tracking_number as u32),
            ItchMessage::AddOrder(m) => Some(m.tracking_number as u32),
            ItchMessage::AddOrderMPID(m) => Some(m.tracking_number as u32),
            ItchMessage::OrderExecuted(m) => Some(m.tracking_number as u32),
            ItchMessage::OrderExecutedWithPrice(m) => Some(m.tracking_number as u32),
            ItchMessage::OrderCancel(m) => Some(m.tracking_number as u32),
            ItchMessage::OrderDelete(m) => Some(m.tracking_number as u32),
            ItchMessage::OrderReplace(m) => Some(m.tracking_number as u32),
            ItchMessage::Trade(m) => Some(m.tracking_number as u32),
            ItchMessage::CrossTrade(m) => Some(m.tracking_number as u32),
            ItchMessage::OrderPriorityUpdateY(m) => Some(m.tracking_number as u32),
            ItchMessage::NetOrderImbalanceIndicator(m) => Some(m.tracking_number as u32),
            ItchMessage::MarketParticipantPosition(m) => Some(m.tracking_number as u32),
            ItchMessage::Unknown(_) => None,
        }
    }

    /// The ITCH type byte of the message: the letter of its kind, or, for an
    /// unknown message, the type byte it was read with.
    pub open spec fn spec_type_byte(self) -> u8 {
        match self {
            ItchMessage::SystemEvent(_) => 0x53u8,
            ItchMessage::StockDirectory(_) => 0x52u8,
            ItchMessage::StockTradingAction(_) => 0x48u8,
            ItchMessage::AddOrder(_) => 0x41u8,
            ItchMessage::AddOrderMPID(_) => 0x46u8,
            ItchMessage::OrderExecuted(_) => 0x45u8,
            ItchMessage::OrderExecutedWithPrice(_) => 0x43u8,
            ItchMessage::OrderCancel(_) => 0x58u8,
            ItchMessage::OrderDelete(_) => 0x44u8,
            ItchMessage::OrderReplace(_) => 0x55u8,
            ItchMessage::Trade(_) => 0x50u8,
            ItchMessage::CrossTrade(_) => 0x51u8,
            ItchMessage::OrderPriorityUpdateY(_) => 0x59u8,
            ItchMessage::NetOrderImbalanceIndicator(_) => 0x49u8,
            ItchMessage::MarketParticipantPosition(_) => 0x4Cu8,
            ItchMessage::Unknown(u) => u.message_type,
        }
    }

    /// Returns the name of the message's variant.
    pub fn name(&self) -> (r: &'static str)
        ensures
            r@ == self.spec_name(),
    {
        match self {
            ItchMessage::SystemEvent(_) => "SystemEvent",
            ItchMessage::StockDirectory(_) => "StockDirectory",
            ItchMessage::StockTradingAction(_) => "StockTradingAction",
            ItchMessage::AddOrder(_) => "AddOrder",
            ItchMessage::AddOrderMPID(_) => "AddOrderMPID",
            ItchMessage::OrderExecuted(_) => "OrderExecuted",
            ItchMessage::OrderExecutedWithPrice(_) => "OrderExecutedWithPrice",
            ItchMessage::OrderCancel(_) => "OrderCancel",
            ItchMessage::OrderDelete(_) => "OrderDelete",
            ItchMessage::OrderReplace(_) => "OrderReplace",
            ItchMessage::Trade(_) => "Trade",
            ItchMessage::CrossTrade(_) => "CrossTrade",
            ItchMessage::OrderPriorityUpdateY(_) => "OrderPriorityUpdateY",
            ItchMessage::NetOrderImbalanceIndicator(_) => "NetOrderImbalanceIndicator",
            ItchMessage::MarketParticipantPosition(_) => "MarketParticipantPosition",
            ItchMessage::Unknown(_) => "Unknown",
        }
    }

    /// Returns the message's timestamp, or `None` for an unknown message.
    pub fn timestamp(&self) -> (r: Option<u64>)
        ensures
            r == self.spec_timestamp(),
    {
        match self {
            ItchMessage::SystemEvent(m) => Some(m.timestamp),
            ItchMessage::StockDirectory(m) => Some(m.timestamp),
            ItchMessage::StockTradingAction(m) => Some(m.timestamp),
            ItchMessage::AddOrder(m) => Some(m.timestamp),
            ItchMessage::AddOrderMPID(m) => Some(m.timestamp),
            ItchMessage::OrderExecuted(m) => Some(m.timestamp),
            ItchMessage::OrderExecutedWithPrice(m) => Some(m.timestamp),
            ItchMessage::OrderCancel(m) => Some(m.timestamp),
            ItchMessage::OrderDelete(m) => Some(m.timestamp),
            ItchMessage::OrderReplace(m) => Some(m.timestamp),
            ItchMessage::Trade(m) => Some(m.timestamp),
            ItchMessage::CrossTrade(m) => Some(m.timestamp),
            ItchMessage::OrderPriorityUpdateY(m) => Some(m.timestamp),
            ItchMessage::NetOrderImbalanceIndicator(m) => Some(m.timestamp),
            ItchMessage::MarketParticipantPosition(m) => Some(m.timestamp),
            ItchMessage::Unknown(_) => None,
        }
    }
}

/* =========================
   CORE MESSAGES
   ========================= */

#[derive(Debug, Clone, Copy, PartialEq, Eq)]
pub struct SystemEventMessage {
    pub stock_locate: u16,
    pub tracking_number: u16,
    pub timestamp: u64,
    pub event_code: u8,
}

#[derive(Debug, Clone, Copy, PartialEq, Eq)]
pub struct StockDirectoryMessage {
    pub stock_locate: u16,
    pub tracking_number: u16,
    pub timestamp: u64,
    pub symbol: [u8; 8],
    pub market_category: u8,
    pub financial_status: u8,
    pub round_lot_size: u32,
    pub round_lots_only: u8,
}

#[derive(Debug, Clone, Copy, PartialEq, Eq)]
pub struct StockTradingActionMessage {
    pub stock_locate: u16,
    pub tracking_number: u16,
    pub timestamp: u64,
    pub stock: [u8; 8],
    pub trading_state: u8,
    pub reserved: u8,
    pub reason: u8,
}

/* =========================
   ORDER ENTRY
   ========================= */

#[derive(Debug, Clone, Copy, PartialEq, Eq)]
pub struct AddOrderMessage {
    pub stock_locate: u16,
    pub tracking_number: u16,
    pub timestamp: u64,
    pub order_reference_number: u64,
    pub buy_sell_indicator: u8,
    pub shares: u32,
    pub stock: [u8; 8],
    pub price: u32,
}

#[derive(Debug, Clone, Copy, PartialEq, Eq)]
pub struct AddOrderMPIDMessage {
    pub stock_locate: u16,
    pub tracking_number: u16,
    pub timestamp: u64,
    pub order_reference_number: u64,
    pub buy_sell_indicator: u8,
    pub shares: u32,
    pub stock: [u8; 8],
    pub price: u32,
    pub attribution: [u8; 4],
}

/* =========================
   ORDER EVENTS
   ========================= */

#[derive(Debug, Clone, Copy, PartialEq, Eq)]
pub struct OrderExecutedMessage {
    pub stock_locate: u16,
    pub tracking_number: u16,
    pub timestamp: u64,
    pub order_reference_number: u64,
    pub executed_shares: u32,
    pub match_number: u64,
}

#[derive(Debug, Clone, Copy, PartialEq, Eq)]
pub struct OrderExecutedWithPriceMessage {
    pub stock_locate: u16,
    pub tracking_number: u16,
    pub timestamp: u64,
    pub order_reference_number: u64,
    pub executed_shares: u32,
    pub match_number: u64,
    pub printable: u8,
    pub execution_price: u32,
}

#[derive(Debug, Clone, Copy, PartialEq, Eq)]
pub struct OrderCancelMessage {
    pub stock_locate: u16,
    pub tracking_number: u16,
    pub timestamp: u64,
    pub order_reference_number: u64,
    pub cancelled_shares: u32,
}

#[derive(Debug, Clone, Copy, PartialEq, Eq)]
pub struct OrderDeleteMessage {
    pub stock_locate: u16,
    pub tracking_number: u16,
    pub timestamp: u64,
    pub order_reference_number: u64,
}

#[derive(Debug, Clone, Copy, PartialEq, Eq)]
pub struct OrderReplaceMessage {
    pub stock_locate: u16,
    pub tracking_number: u16,
    pub timestamp: u64,
    pub original_order_reference_number: u64,
    pub new_order_reference_number: u64,
    pub shares: u32,
    pub price: u32,
}

/* =========================
   TRADE MESSAGES
   ========================= */

#[derive(Debug, Clone, Copy, PartialEq, Eq)]
pub struct TradeMessage {
    pub stock_locate: u16,
    pub tracking_number: u16,
    pub timestamp: u64,
    pub order_reference_number: u64,
    pub buy_sell_indicator: u8,
    pub shares: u32,
    pub stock: [u8; 8],
    pub price: u32,
    pub match_number: u64,
}

#[derive(Debug, Clone, Copy, PartialEq, Eq)]
pub struct CrossTradeMessage {
    pub stock_locate: u16,
    pub tracking_number: u16,
    pub timestamp: u64,
    pub shares: u64,
    pub stock: [u8; 8],
    pub cross_price: u32,
    pub match_number: u64,
    pub cross_type: u8,
}

/* =========================
   AUXILIARY MESSAGES
   ========================= */

#[derive(Debug, Clone, Copy, PartialEq, Eq)]
pub struct OrderPriorityUpdateYMessage {
    pub stock_locate: u16,
    pub tracking_number: u32,
    pub timestamp: u64,
    pub payload: [u8; 7],
}

#[derive(Debug, Clone, Copy, PartialEq, Eq)]
pub struct NetOrderImbalanceIndicatorMessage {
    pub stock_locate: u16,
    pub tracking_number: u16,
    pub timestamp: u64,
    pub paired_shares: u64,
    pub imbalance_shares: u64,
    pub imbalance_direction: u8,
    pub stock: [u8; 8],
    pub far_price: u32,
    pub near_price: u32,
    pub current_reference_price: u32,
    pub cross_type: u8,
    pub price_variation_indicator: u8,
}

#[derive(Debug, Clone, Copy, PartialEq, Eq)]
pub struct MarketParticipantPositionMessage {
    pub stock_locate: u16,
    pub tracking_number: u16,
    pub timestamp: u64,
    pub stock: [u8; 8],
    pub primary_market_maker: u8,
    pub market_maker_mode: u8,
    pub market_participant_state: u8,
}

/* =========================
   UNKNOWN
   ========================= */

#[derive(Debug, Clone, PartialEq, Eq)]
pub struct UnknownMessage {
    pub message_type: u8,
    pub body: Vec<u8>,
}

/// Every message that is not unknown reports its own timestamp field, and
/// only unknown messages report none.
pub proof fn lemma_timestamp_is_the_field(m: ItchMessage)
    ensures
        m.spec_timestamp() is None <==> m is Unknown,
        m matches ItchMessage::SystemEvent(e) ==> m.spec_timestamp() == Some(e.timestamp),
        m matches ItchMessage::StockDirectory(e) ==> m.spec_timestamp() == Some(e.timestamp),
        m matches ItchMessage::StockTradingAction(e) ==> m.spec_timestamp() == Some(e.timestamp),
        m matches ItchMessage::AddOrder(e) ==> m.spec_timestamp() == Some(e.timestamp),
        m matches ItchMessage::AddOrderMPID(e) ==> m.spec_timestamp() == Some(e.timestamp),
        m matches ItchMessage::OrderExecuted(e) ==> m.spec_timestamp() == Some(e.timestamp),
        m matches ItchMessage::OrderExecutedWithPrice(e) ==> m.spec_timestamp() == Some(e.timestamp),
        m matches ItchMessage::OrderCancel(e) ==> m.spec_timestamp() == Some(e.timestamp),
        m matches ItchMessage::OrderDelete(e) ==> m.spec_timestamp() == Some(e.timestamp),
        m matches ItchMessage::OrderReplace(e) ==> m.spec_timestamp() == Some(e.timestamp),
        m matches ItchMessage::Trade(e) ==> m.spec_timestamp() == Some(e.timestamp),
        m matches ItchMessage::CrossTrade(e) ==> m.spec_timestamp() == Some(e.timestamp),
        m matches ItchMessage::OrderPriorityUpdateY(e) ==> m.spec_timestamp() == Some(e.timestamp),
        m matches ItchMessage::NetOrderImbalanceIndicator(e) ==> m.spec_timestamp() == Some(e.timestamp),
        m matches ItchMessage::MarketParticipantPosition(e) ==> m.spec_timestamp() == Some(e.timestamp),
{
}

} // verus!
