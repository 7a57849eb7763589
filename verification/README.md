# coro-engine

A block engine for a single sequencer over a data-availability layer, written and
proved in Verus.

- A **sequencer** executes batches of transfers, and publishes each batch as a
  block.
- **Replicas** replay the published blocks. They execute every transfer themselves,
  and reject a block whose header is not the one that they derive, so a faulty
  sequencer cannot corrupt a replica unnoticed.

## Layout

| Path | What it holds |
|---|---|
| `src/chain.rs` | chain state, headers, state root, block metadata |
| `src/builder.rs`, `src/applier.rs` | block production and replay |
| `src/accounts.rs` | account state in key order |
| `src/backend.rs` | blob publication and reads over JSON-RPC |
| `src/source.rs` | what a sequencer serves to replicas |
| `src/mempool.rs` | the rules of the mempool's HTTP interface |
| `src/config.rs`, `src/keys.rs` | configuration, defaults, keys and genesis |
| `src/node.rs` | the sequencer's loop as a state machine |
| `src/laws.rs` | what holds of the library as a whole |
| `src/codec.rs`, `src/hash.rs`, `src/hex.rs`, `src/json.rs`, `src/blob.rs` | calls into outside crates, each with what is trusted of it |
| `app/` | the program: files, HTTP, the executor and the block codec |

The executor, the block codec and the network are handed in: as closures, or as the
outcome of a call. A contract then speaks of every outcome.

## A node

`run` starts a sequencer and `replica` a replica, each from a YAML file. The Celestia
token is read from the environment variable that `auth_token_env` names.

A block that a replica rejects changes nothing: neither its accounts nor its head.
