pub mod asmm_quote;
pub mod position_update;
pub mod trade_update;
