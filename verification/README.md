# omnibook_quoter

A market-making bot for Omnibook's one-minute BTC up/down rounds, with its
decision logic verified in Verus.

- `src/` — the verified library
  - `text.rs`: string equality, decimal formatting, `u64` parsing
  - `auth.rs`: HMAC-SHA256 request signing (hex secret, base64 signature)
  - `models.rs`: events and orders; prices are binary64 bit patterns
  - `state.rs`: the market state machine and its laws
  - `strategy.rs`: the quoting decision and the bids it rests
  - `controller.rs`: the event loop's cancel/place decisions and their laws
  - `feed.rs`: WebSocket and REST field reading, reconnect back-off
- `app/` — the program: configuration, HTTP and WebSocket I/O, the
  real-valued pricing model (fair value, jump guard, time to freeze)
- `tests/` — tests of the library on concrete values
