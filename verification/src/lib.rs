//! A parser for NASDAQ ITCH order book messages, together with the
//! bookkeeping that batches parsed messages into columnar record batches
//! and collects integrity statistics over a message stream.

pub mod parser;
pub mod schema;
pub mod utils;
