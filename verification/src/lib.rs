//! Download orchestration and metadata-aggregation engine for bulk audio
//! track acquisition: a task queue with a verified state machine and
//! concurrency gate, a match scorer and merge policy for multi-provider
//! metadata search, bounded caches, and the retry policies of the
//! connection pool and of the fetch pipeline.

pub mod aggregate;
pub mod api;
pub mod cache;
pub mod config;
pub mod crypto;
pub mod errors;
pub mod importer;
pub mod manager;
pub mod merge;
pub mod metadata;
pub mod pipeline;
pub mod pool;
pub mod processing;
pub mod scorer;
pub mod search;
pub mod status;
pub mod strategy;
pub mod task;
pub mod text;
pub mod validate;

pub use status::DownloadStatus;
