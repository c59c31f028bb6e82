//! Reports the storage footprint of object-storage buckets, broken down by
//! storage tier.
//!
//! The crate holds the verified core of the tool: storage-tier
//! classification, metric-series grouping, the shared pagination protocol,
//! the two sizing backends' computations, and region-aware discovery
//! filtering. The surrounding binary performs the network calls and feeds
//! their responses into these functions.

pub mod cloudwatch;
pub mod common;
pub mod discovery;
pub mod metrics;
pub mod pagination;
pub mod s3;
pub mod storage_class;
pub mod text;
