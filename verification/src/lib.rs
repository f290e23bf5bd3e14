//! Adaptive multi-digest file hashing with an integrity-checked result cache.
//!
//! The crate holds the decision logic of the hashing engine, the cache rules,
//! the progress accounting and the scheduling protocol. Every function is
//! verified; reading files, talking to the store and moving messages between
//! threads is left to the program that embeds the crate.
//!
//! - [`hash`] and [`engine`]: the four digests of a byte stream, the strategy
//!   by file size, and the cadence of progress reports.
//! - [`cache`], [`pool`], [`lookup`] and [`store`]: cache entries, the rules
//!   that admit and trust them, batched lookups, and the statements and the
//!   model of the durable store.
//! - [`progress`]: the progress of a batch as one fraction.
//! - [`scanner`] and [`worker`]: discovery of files in batches, the job of
//!   each file of a batch, and the multiplexing of progress.
//! - [`error`]: the failures that are told apart.

pub mod cache;
pub mod engine;
pub mod error;
pub mod font;
pub mod hash;
pub mod lookup;
pub mod numbers;
pub mod pathmap;
pub mod pool;
pub mod progress;
pub mod scanner;
pub mod status;
pub mod store;
pub mod text;
pub mod timestamp;
pub mod utils;
pub mod worker;
