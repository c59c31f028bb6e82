//! The shared vocabulary of the two sizing backends: regions, buckets,
//! client configuration, and the error taxonomy of the sizing contract.

use vstd::prelude::*;

use crate::storage_class::{StorageClass, StorageClassTag};

verus! {

/// A provider region, by its name.
#[derive(Debug, Clone, PartialEq, Eq)]
pub struct Region {
    pub name: String,
}

impl DeepView for Region {
    type V = Seq<char>;

    open spec fn deep_view(&self) -> Seq<char> {
        self.name@
    }
}

/// One discovered bucket. The region is resolved during discovery; the
/// storage tiers are known only on the metrics-driven path, where the
/// tier breakdown is a byproduct of discovery.
#[derive(Debug, Clone, PartialEq, Eq)]
pub struct Bucket {
    pub name: String,
    pub region: Option<Region>,
    pub storage_types: Option<Vec<StorageClass>>,
}

/// The model of a `Bucket`.
pub struct BucketModel {
    pub name: Seq<char>,
    pub region: Option<Seq<char>>,
    pub storage_types: Option<Seq<StorageClassTag>>,
}

impl DeepView for Bucket {
    type V = BucketModel;

    open spec fn deep_view(&self) -> BucketModel {
        BucketModel {
            name: self.name@,
            region: self.region.deep_view(),
            storage_types: self.storage_types.deep_view(),
        }
    }
}

/// Which object versions the enumeration-driven backend counts: only the
/// current objects, or every stored version.
#[derive(Debug, Clone, Copy, PartialEq, Eq)]
pub enum S3ObjectVersions {
    Current,
    AllVersions,
}

/// Which backend computes bucket sizes: pre-aggregated monitoring
/// statistics, or direct enumeration of every object.
#[derive(Debug, Clone, Copy, PartialEq, Eq)]
pub enum SizerBackend {
    Metrics,
    Enumeration,
}

/// Immutable configuration fixed at backend construction.
#[derive(Debug, Clone, PartialEq, Eq)]
pub struct ClientConfig {
    pub region: Region,
    pub object_versions: S3ObjectVersions,
    pub bucket_name: Option<String>,
}

/// Bucket discovery failed: the bucket listing or a region resolution
/// call did not succeed.
#[derive(Debug, Clone, PartialEq, Eq)]
pub struct DiscoveryError {
    pub message: String,
}

/// A size computation failed partway: a listing page or the statistics
/// query did not succeed.
#[derive(Debug, Clone, PartialEq, Eq)]
pub struct SizeComputationError {
    pub message: String,
}

} // verus!
