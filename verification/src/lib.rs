//! A single-sequencer block engine over a data-availability layer.
//!
//! A sequencer turns batches of transactions into blocks and publishes them as
//! blobs; replicas replay the blocks, and reject one whose header is not the one
//! that they derive themselves. The engine's rules stand here, with their proofs.
//! Executing transfers, encoding blocks, sending requests and waiting for replies
//! happen outside, and hand their outcomes in.

pub mod accounts;
pub mod applier;
pub mod backend;
pub mod blob;
pub mod builder;
pub mod bytes;
pub mod chain;
pub mod codec;
pub mod config;
pub mod hash;
pub mod hex;
pub mod json;
pub mod keys;
pub mod laws;
pub mod mempool;
pub mod node;
pub mod source;
pub mod text;

pub use crate::applier::BlockApplier;
pub use crate::backend::{GasConfig, NodeRpcBackend};
pub use crate::builder::BlockBuilder;
pub use crate::chain::{BlockMeta, ChainState, EngineError, Tx};
pub use crate::source::SequencerSource;
