//! Market making and arbitrage framework: the data model of exchange messages, the
//! in-memory storages, the order book kept from an exchange feed and the quoting rules
//! of the Avellaneda-Stoikov strategy.

pub mod decimal;
pub mod decimal_order;
pub mod ccxt;
pub mod exchange;
pub mod keyed;
pub mod clock;
pub mod common_data_representation;
pub mod config;
pub mod types;
pub mod strategy;
pub mod mqtt;
pub mod data;
