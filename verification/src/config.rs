//! `config` holds the configuration that changes the behaviour of the system at runtime,
//! without recompilation.

use vstd::prelude::*;
use crate::decimal::Decimal;

verus! {

/// The whole configuration.
#[derive(Debug, Clone)]
pub struct AppConfig {
    pub runtime: RuntimeConfig,
    pub exchange: ExchangeConfigs,
    pub strategy: StrategyConfigs,
    pub disruptor: DisruptorConfig,
    pub mqtt: MqttConfig,
    pub memory_storage: MemoryStorageConfig,
}

/// Which exchanges and which strategy run.
#[derive(Debug, Clone)]
pub struct RuntimeConfig {
    pub exchanges: Vec<String>,
    pub strategy: String,
}

/// The configuration of each exchange, where it is given.
#[derive(Debug, Clone)]
pub struct ExchangeConfigs {
    pub hyperliquid: Option<HyperliquidConfig>,
    pub dydx: Option<DydxConfig>,
}

/// The Hyperliquid exchange: the coins to trade, the network and the account address.
#[derive(Debug, Clone)]
pub struct HyperliquidConfig {
    pub coins: Vec<String>,
    pub mainnet: bool,
    pub address: String,
}

/// The dYdX exchange: the markets, the indexer, the wallet and the subaccount.
#[derive(Debug, Clone)]
pub struct DydxConfig {
    pub tickers: Vec<String>,
    pub indexer_ws_endpoint: String,
    pub mnemonic: String,
    pub subaccount_number: u32,
    pub chain_id: String,
}

/// The backend of the memory storage (`hashmap` or `redis`).
#[derive(Debug, Clone)]
pub struct MemoryStorageConfig {
    pub backend: String,
    pub redis: Option<RedisConfig>,
}

/// Where the Redis server listens.
#[derive(Debug, Clone)]
pub struct RedisConfig {
    pub socket_path: String,
}

/// The MQTT broker that messages are published to.
#[derive(Debug, Clone)]
pub struct MqttConfig {
    pub enabled: bool,
    pub broker: String,
    pub port: u16,
    pub topic_prefix: String,
    pub client_id: String,
}

/// The size of the disruptor's ring buffer.
#[derive(Debug, Clone)]
pub struct DisruptorConfig {
    pub buffer_size: usize,
}

/// The configuration of each strategy, where it is given.
#[derive(Debug, Clone)]
pub struct StrategyConfigs {
    pub avellaneda_stoikov_market_making: Option<AvellanedaStoikovConfig>,
}

/// The parameters of the Avellaneda-Stoikov strategy: risk aversion (γ), order book
/// liquidity (κ) and volatility (σ).
#[derive(Debug, Clone)]
pub struct AvellanedaStoikovConfig {
    pub gamma: Decimal,
    pub kappa: Decimal,
    pub sigma: Decimal,
}

} // verus!
