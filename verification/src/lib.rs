//! A metered contract-execution runtime for a blockchain node.
//!
//! The library deploys opaque contract code into a per-runtime registry and
//! executes it inside a cycle-metered sandbox.  Running code reaches the chain
//! only through a fixed set of host primitives: per-contract key/value
//! storage, event emission, context queries (origin, caller, height,
//! timestamp, transaction hash, nonce, cycle accounting, extra bytes), and
//! nested contract or service calls that share one cycle budget and one event
//! log across the whole call chain.

pub mod args;
pub mod bytestr;
pub mod context;
pub mod meter;
pub mod runtime;
pub mod stack;
pub mod storage;
pub mod types;
