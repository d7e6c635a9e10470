# IGRA RPC provider

A JSON-RPC server between Ethereum wallets and the IGRA execution layer. Reads
are forwarded to the execution layer; raw transactions are checked, framed and
submitted through a KASPA wallet to the base layer.

- `src/` is the library, written in Verus: every rule by which requests are
  admitted, routed, priced, framed and answered, with its contract and proof.
  What each function promises stands in its `ensures`; what holds of several
  functions together stands in public proof functions beside them.
- `src/outside.rs` holds the calls into other crates. Their contracts are
  believed, not proved.
- `app/` is the server around the library: sockets, configuration files, the
  queue of transactions and the client of the wallet daemon.
- `tests/` runs the library on concrete values, with the other crates linked.

| Module | What it decides |
|---|---|
| `api` | admission, routing, batches and WebSocket connections |
| `clients` | wallet errors, retries, and which transactions may be signed |
| `config` | which configurations are valid |
| `services::gas_price`, `services::proxy` | the gas price floor and the base fee |
| `services::transaction` | decoding, fees, payloads, processing and workers |
| `types` | messages, amounts, wallet transactions and the whitelist |
