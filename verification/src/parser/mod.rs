pub mod common;
pub mod parser;

pub mod add_order;
pub mod add_order_mpid;
pub mod cross_trade;
pub mod market_participant_position;
pub mod net_order_imbalance_indicator;
pub mod order_cancel;
pub mod order_delete;
pub mod order_executed;
pub mod order_executed_with_price;
pub mod order_priority_update_y;
pub mod order_replace;
pub mod stock_directory;
pub mod stock_trading_action;
pub mod system_event;
pub mod trade;

pub use parser::L3Parser;
pub use parser::MessageType;
