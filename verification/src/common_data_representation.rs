//! `common_data_representation` holds the data classes that the raw data of every exchange
//! is turned into, and the storages they are kept in.

pub mod memory_storage;
pub mod message;
pub mod price_update;
