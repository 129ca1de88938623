//! The declarative description of an index.

use vstd::prelude::*;
use crate::error::IndexError;

verus! {

/// How the engine measures the distance between two vectors.
#[derive(Clone, Copy, Debug, PartialEq, Eq, Structural)]
pub enum MetricType {
    /// Euclidean distance.
    L2,
    /// Inner product.
    InnerProduct,
}

impl MetricType {
    /// The number under which the metric is handed to the engine.
    pub open spec fn spec_code(self) -> i32 {
        match self {
            MetricType::L2 => 1,
            MetricType::InnerProduct => 2,
        }
    }

    /// The number under which the metric is handed to the engine.
    #[verifier::when_used_as_spec(spec_code)]
    pub fn code(self) -> (code: i32)
        ensures
            code == self.spec_code(),
    {
        match self {
            MetricType::L2 => 1,
            MetricType::InnerProduct => 2,
        }
    }
}

/// What an index is built from.
#[derive(Debug)]
pub struct Config {
    /// Number of components of every vector; positive, and fixed for the life
    /// of the index.
    pub dimension: i32,
    /// Structural recipe that the engine assembles the index from.
    pub description: String,
    /// Metric that distances are measured in.
    pub metric_type: MetricType,
    /// Where the index is persisted.
    pub path: String,
}

impl Config {
    /// A configuration that the factory accepts: a positive dimension and a
    /// description that is not empty.
    pub open spec fn valid(&self) -> bool {
        self.dimension > 0 && self.description@.len() > 0
    }

    /// The default configuration for vectors of `dimension` components: a
    /// clustered, product-quantized recipe under the Euclidean metric,
    /// persisted at `temp.index`.
    pub fn new(dimension: i32) -> (conf: Config)
        ensures
            conf.dimension == dimension,
            conf.description@ == "PCA32,IVF100,PQ8"@,
            conf.metric_type == MetricType::L2,
            conf.path@ == "temp.index"@,
    {
        Config {
            dimension: dimension,
            description: "PCA32,IVF100,PQ8".to_owned(),
            metric_type: MetricType::L2,
            path: "temp.index".to_owned(),
        }
    }

    /// Accepts the configuration exactly when it is `valid`.
    pub fn validate(&self) -> (checked: Result<(), IndexError>)
        ensures
            checked == if self.valid() {
                Ok::<(), IndexError>(())
            } else {
                Err::<(), IndexError>(IndexError::Configuration)
            },
    {
        if self.dimension > 0 && !self.description.as_str().is_empty() {
            Ok(())
        } else {
            Err(IndexError::Configuration)
        }
    }
}

} // verus!
