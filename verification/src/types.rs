//! The data classes that the raw data of every exchange is standardized into.

pub mod message;
pub mod portfolio;
