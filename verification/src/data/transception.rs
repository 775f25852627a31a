pub mod mqtt;
