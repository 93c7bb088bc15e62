# mostrix

The decision logic of a terminal client for Mostro, the peer-to-peer Bitcoin/Lightning
exchange on Nostr, written in Verus and proved against its contracts.

- `src/` is the verified library. Each module holds the rules of one part of the client:
  relay and URL parsing (`network`, `blossom`), attachment checks (`file_validation`),
  instance-information tags (`mostro_info`), order statuses and protocol payloads
  (`order`), reply checks for taking, creating and restoring orders (`protocol`,
  `new_order`, `restore`, `admin`), trade-DM folding and replay (`trade_dm`,
  `dm_batch`), the pending-waiter registry and the reply wait (`waiters`, `wait_dm`),
  push-server wakes with their debounce (`push`), chat routing (`chat`), relay
  filters (`filters`), the order book and its live feed (`order_book`, `order_feed`),
  bonds (`bond`), session wiping (`session_wipe`) and user-facing texts (`ui_rules`).
  Calls into `nostr-sdk`, `mostro-core`, `uuid`, `lightning-invoice`, `lnurl-rs`,
  `chacha20poly1305`, `serde_json` and `tokio` stand behind small trusted wrappers whose
  contracts name what the call returns.
- `app/` is ordinary Rust around the library: file and network I/O, conversions from
  `mostro-core` and `nostr-sdk` types, and the floating-point fee.
- `tests/` runs the library on concrete values, with the outside crates linked.
