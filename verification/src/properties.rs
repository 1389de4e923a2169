//! Cached, schema-derived plan properties: partitioning scheme, emission
//! mode, boundedness and the engine's equivalence facts. They are computed
//! once per construction and never mutated afterwards.

use vstd::prelude::*;

use arrow::datatypes::{Schema, SchemaRef};
use datafusion_physical_expr::EquivalenceProperties;

use crate::columnar::PhysExpr;

verus! {

/// How a node's output rows are spread over partitions.
#[derive(Debug)]
pub enum Partitioning {
    /// Batches dealt out to `n` partitions in turn.
    RoundRobinBatch(usize),
    /// Rows spread over `n` partitions by hashing the given expressions.
    Hash(Vec<PhysExpr>, usize),
    /// `n` partitions with no known distribution scheme.
    UnknownPartitioning(usize),
}

impl Partitioning {
    /// How many partitions the scheme spreads rows over.
    pub open spec fn count(self) -> nat {
        match self {
            Partitioning::RoundRobinBatch(n) => n as nat,
            Partitioning::Hash(_, n) => n as nat,
            Partitioning::UnknownPartitioning(n) => n as nat,
        }
    }

    /// The number of partitions.
    pub fn partition_count(&self) -> (n: usize)
        ensures
            n as nat == self.count(),
    {
        match self {
            Partitioning::RoundRobinBatch(n) => *n,
            Partitioning::Hash(_, n) => *n,
            Partitioning::UnknownPartitioning(n) => *n,
        }
    }
}

/// Whether a node emits rows while it works or only once it is done.
#[derive(Debug)]
pub enum EmissionType {
    Incremental,
    Final,
    Both,
}

/// Whether a node's output is finite with a known end.
#[derive(Debug)]
pub enum Boundedness {
    Bounded,
    Unbounded,
}

/// Cached facts about a node's output, derived from its schema alone.
#[derive(Debug)]
pub struct PlanProperties {
    /// The schema the properties were derived from.
    pub schema: SchemaRef,
    /// The engine's equivalence and ordering facts over that schema.
    pub eq_properties: EquivalenceProperties,
    /// The output partitioning scheme.
    pub partitioning: Partitioning,
    /// The emission mode.
    pub emission_type: EmissionType,
    /// Whether the output is finite.
    pub boundedness: Boundedness,
}

impl PlanProperties {
    /// What a values node's cached properties look like for a schema: one
    /// unknown output partition, incremental emission, bounded output.
    pub open spec fn is_for(self, schema: Schema) -> bool {
        &&& *self.schema == schema
        &&& self.partitioning matches Partitioning::UnknownPartitioning(n) && n == 1
        &&& self.emission_type is Incremental
        &&& self.boundedness is Bounded
    }
}

} // verus!
