# mma

A framework for market making on crypto exchanges, with its core verified by Verus.

## Layout

- `src/` is the verified library:
  - `decimal` — decimal numbers (mantissa and scale); arithmetic is done by `rust_decimal`,
    ordering and equality are proved against the numbers the decimals denote.
  - `exchange::dydx` — the order book kept from the dYdX orders feed (both sides sorted by
    price, viewed as maps from price to level), and the conversion of the trades, orders and
    subaccount feeds into the unified (`ccxt`) model.
  - `exchange::hyperliquid` — subscriptions, balance requests and the parsing of the
    Hyperliquid trades and best-bid-and-offer feeds into messages.
  - `strategy::avellaneda_stoikov_market_making` — the reservation price, the optimal spread
    and the state the strategy keeps per symbol.
  - `common_data_representation::memory_storage` — key-value storages: a hash map, a buffer
    whose values expire after a time to live, and a Redis-backed cache that queues its writes.
  - `mqtt`, `data` — topics and publications for the MQTT broker, Redis command arguments and
    keys.
- `app/` is the program around it: configuration loading, websocket and indexer
  connections, the disruptor, Redis and MQTT I/O.
- `tests/` exercise the library on concrete values.
