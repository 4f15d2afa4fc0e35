# dispatch

The rules of a paid RPC gateway and of the indexer service behind it, verified with Verus.

A gateway signs a receipt for each query that it sends to an indexer. The indexer stores the
receipts and has the gateway aggregate them, from time to time, into one voucher (RAV), whose
value only ever grows. The library decides; signing, HTTP, the database and the configuration
file are the application's work.

## Layout

- `src/primitives.rs`: addresses, 32-byte words, hexadecimal texts.
- `src/text.rs`, `src/decimal.rs`: strings as character sequences, unsigned decimal numbers.
- `src/config.rs`: configuration types, defaults, amounts.
- `src/tap.rs`: receipts and vouchers.
- `src/aggregate.rs`: the gateway's aggregation of a batch.
- `src/receipts.rs`: the statements on the receipt and voucher tables, and their rows.
- `src/tokens_collected.rs`: the on-chain high-water mark, asked over JSON-RPC.
- `src/tap_aggregator.rs`, `src/payer_run.rs`: the service's side of aggregation; a run for one
  payer is a state machine from events to actions.
- `src/seahorn.rs`: the proxy for Solana queries, a state machine too.
- `src/laws.rs`: what holds across these parts.
- `app/`: configuration files, routes, PostgreSQL and the aggregation loop.
- `tests/`: the library on concrete values.

## What is trusted

The library calls alloy-primitives, alloy-sol-types, hex, serde_json and reqwest through small
wrappers marked `external_body`. Each one's doc comment names the function behind it and says
what the contract claims of it. Three results have a name in place of a definition: the
Keccak-256 digest, what a JSON text is read as, and why a text is not hexadecimal, in words.
