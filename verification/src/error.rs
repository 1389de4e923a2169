//! The errors a values node can return: none of them is retried internally,
//! and construction either yields a fully valid node or no node at all.

use vstd::prelude::*;

use arrow::datatypes::SchemaRef;
use datafusion_common::DataFusionError;

verus! {

/// Why constructing or executing a values node failed.
#[derive(Debug)]
pub enum ValuesError {
    /// No rows or no batches were supplied.
    EmptyInput,
    /// A literal evaluated to an array whose length is not one.
    InvalidLiteralShape { length: usize },
    /// A supplied batch does not structurally match the declared schema;
    /// both schemas are carried for diagnosis.
    SchemaMismatch { expected: SchemaRef, actual: SchemaRef },
    /// An error propagated unchanged from the expression evaluator or from
    /// the array and batch primitives.
    Evaluation(DataFusionError),
    /// A partition other than 0 was requested of a single-partition node.
    InvalidPartition { requested: usize },
}

impl ValuesError {
    /// A short fixed description of the error kind.
    pub fn message(&self) -> (r: &'static str)
        ensures
            *self matches ValuesError::EmptyInput ==> r@ == "values list cannot be empty"@,
            *self matches ValuesError::InvalidLiteralShape { .. } ==> r@
                == "array values are not permitted in a values list"@,
            *self matches ValuesError::SchemaMismatch { .. } ==> r@
                == "batch does not match the declared schema"@,
            *self matches ValuesError::Evaluation(_) ==> r@ == "evaluation failed"@,
            *self matches ValuesError::InvalidPartition { .. } ==> r@
                == "invalid partition: a values node has a single partition 0"@,
    {
        match self {
            ValuesError::EmptyInput => "values list cannot be empty",
            ValuesError::InvalidLiteralShape { .. } => {
                "array values are not permitted in a values list"
            },
            ValuesError::SchemaMismatch { .. } => "batch does not match the declared schema",
            ValuesError::Evaluation(_) => "evaluation failed",
            ValuesError::InvalidPartition { .. } => {
                "invalid partition: a values node has a single partition 0"
            },
        }
    }
}

} // verus!
