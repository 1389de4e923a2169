//! The constant-values execution node: it owns an immutable schema, a
//! non-empty run of schema-conformant column batches, and cached plan
//! properties, and exposes the execution-node surface over them.

use vstd::prelude::*;

use arrow::datatypes::{Schema, SchemaRef};
use datafusion_common::ScalarValue;

use crate::columnar::{
    arr_len, array_from_scalars, array_len, array_scalar, base_equivalences, batch_matches,
    batch_null_count, batch_rows, batch_schema, batch_schema_ref, clone_batches, clone_schema,
    column_byte_size, evaluate_expr, field_count, make_batch, nulls_of, one_row_context,
    rows_of, schema_len, Batch, ColumnArray, EvaluatedValue, PhysExpr,
};
use crate::error::ValuesError;
use crate::properties::{Boundedness, EmissionType, Partitioning, PlanProperties};
use crate::stats::{ColumnStatistics, CountPrecision, Statistics};
use crate::stream::BatchStream;

verus! {

/// Every batch in the run reports exactly the given schema.
pub open spec fn all_match(batches: Seq<Batch>, s: Schema) -> bool {
    forall|i: int| 0 <= i < batches.len() ==> batch_schema(#[trigger] batches[i]) == s
}

/// The rows of the first `k` batches, added up.
pub open spec fn rows_up_to(batches: Seq<Batch>, k: int) -> int
    decreases k,
{
    if k <= 0 {
        0
    } else {
        rows_up_to(batches, k - 1) + rows_of(batches[k - 1])
    }
}

/// The nulls of column `j` over the first `k` batches, added up.
pub open spec fn nulls_up_to(batches: Seq<Batch>, j: int, k: int) -> int
    decreases k,
{
    if k <= 0 {
        0
    } else {
        nulls_up_to(batches, j, k - 1) + nulls_of(batches[k - 1], j)
    }
}

/// Prefix sums of row counts only grow: every term is a count.
pub proof fn lemma_rows_up_to_mono(batches: Seq<Batch>, k: int, n: int)
    requires
        0 <= k <= n,
    ensures
        rows_up_to(batches, k) <= rows_up_to(batches, n),
    decreases n - k,
{
    if k < n {
        lemma_rows_up_to_mono(batches, k, n - 1);
    }
}

/// Collapses what evaluating one cell of a values grid produced into a
/// scalar: a scalar passes through unchanged, a one-value column collapses
/// to its single value, and any longer or shorter column is rejected, since
/// array values are not permitted in a values list.
pub fn scalar_from_value(value: EvaluatedValue) -> (r: Result<ScalarValue, ValuesError>)
    ensures
        value matches EvaluatedValue::Scalar(s) ==> r == Ok::<ScalarValue, ValuesError>(s),
        (r matches Err(e) && e is InvalidLiteralShape) <==> (value matches EvaluatedValue::Array(a)
            && arr_len(a) != 1),
        r matches Err(ValuesError::InvalidLiteralShape { length }) ==> (
        value matches EvaluatedValue::Array(a) && length as nat == arr_len(a)),
        (value matches EvaluatedValue::Array(a) && arr_len(a) == 1) ==> (r matches Ok(_) || (
        r matches Err(e) && e is Evaluation)),
{
    match value {
        EvaluatedValue::Scalar(s) => Ok(s),
        EvaluatedValue::Array(a) => {
            let n = array_len(&a);
            if n == 1 {
                match array_scalar(&a, 0) {
                    Ok(s) => Ok(s),
                    Err(e) => Err(ValuesError::Evaluation(e)),
                }
            } else {
                Err(ValuesError::InvalidLiteralShape { length: n })
            }
        },
    }
}

/// How the node is asked to render itself.
#[derive(Debug)]
pub enum DisplayFormatType {
    Default,
    Verbose,
    TreeRender,
}

/// An execution-plan node for a values-list relation: it produces a fixed,
/// literal-defined table as one run of in-memory column batches.
#[derive(Debug)]
pub struct ValuesExec {
    /// The declared schema.
    schema: SchemaRef,
    /// The materialized batches, each schema-conformant and never empty as
    /// a run.
    data: Vec<Batch>,
    /// Cached plan properties, a pure function of the schema.
    cache: PlanProperties,
}

impl ValuesExec {
    /// The declared schema.
    pub closed spec fn schema_spec(self) -> Schema {
        *self.schema
    }

    /// The stored batches, in order.
    pub closed spec fn batches(self) -> Seq<Batch> {
        self.data@
    }

    /// The cached plan properties.
    pub closed spec fn cache_spec(self) -> PlanProperties {
        self.cache
    }

    /// The node's invariant: at least one batch, every batch conformant to
    /// the declared schema, and the cache derived from that same schema.
    pub closed spec fn wf(self) -> bool {
        &&& self.data@.len() > 0
        &&& all_match(self.data@, *self.schema)
        &&& self.cache.is_for(*self.schema)
    }

    /// Derives the cached plan properties from a schema: one unknown output
    /// partition, incremental emission, bounded output, and the engine's
    /// base equivalence facts over the schema.
    fn compute_properties(schema: SchemaRef) -> (r: PlanProperties)
        ensures
            r.is_for(*schema),
    {
        let eq_properties = base_equivalences(&schema);
        PlanProperties {
            schema,
            eq_properties,
            partitioning: Partitioning::UnknownPartitioning(1),
            emission_type: EmissionType::Incremental,
            boundedness: Boundedness::Bounded,
        }
    }

    /// Builds a node from a target schema and a grid of scalar-producing
    /// expressions: one row of the grid per output row, one column per
    /// schema field. Every expression is evaluated against a fixed
    /// single-row, zero-column context; each must yield a scalar or a
    /// one-value column. The collected scalars become one typed column per
    /// field, the columns one batch, and the batch is then validated
    /// against the schema like any pre-built batch.
    pub fn try_new(schema: SchemaRef, data: Vec<Vec<PhysExpr>>) -> (r: Result<
        ValuesExec,
        ValuesError,
    >)
        requires
            forall|i: int| 0 <= i < data@.len() ==> (#[trigger] data@[i])@.len() == schema_len(
                *schema,
            ),
        ensures
            (r matches Err(e) && e is EmptyInput) <==> data@.len() == 0,
            r matches Err(e) ==> (e is EmptyInput || e is InvalidLiteralShape || e is Evaluation),
            r matches Ok(node) ==> {
                &&& node.wf()
                &&& node.schema_spec() == *schema
                &&& node.batches().len() == 1
                &&& rows_of(node.batches()[0]) == data@.len()
                &&& batch_schema(node.batches()[0]) == *schema
            },
    {
        if data.len() == 0 {
            return Err(ValuesError::EmptyInput);
        }
        let n_row = data.len();
        let n_col = field_count(&schema);
        let context = one_row_context();
        let mut columns: Vec<ColumnArray> = Vec::new();
        let mut j: usize = 0;
        while j < n_col
            invariant
                n_col as nat == schema_len(*schema),
                n_row == data@.len(),
                n_row > 0,
                forall|i: int| 0 <= i < data@.len() ==> (#[trigger] data@[i])@.len() == schema_len(
                    *schema,
                ),
                columns@.len() == j,
            decreases n_col - j,
        {
            let mut scalars: Vec<ScalarValue> = Vec::new();
            let mut i: usize = 0;
            while i < n_row
                invariant
                    j < n_col,
                    n_col as nat == schema_len(*schema),
                    n_row == data@.len(),
                    forall|row: int| 0 <= row < data@.len() ==> (#[trigger] data@[row])@.len()
                        == schema_len(*schema),
                    scalars@.len() == i,
                    i <= n_row,
                decreases n_row - i,
            {
                let value = match evaluate_expr(&data[i][j], &context) {
                    Ok(v) => v,
                    Err(e) => {
                        return Err(ValuesError::Evaluation(e));
                    },
                };
                let s = match scalar_from_value(value) {
                    Ok(s) => s,
                    Err(e) => {
                        return Err(e);
                    },
                };
                scalars.push(s);
                i += 1;
            }
            let column = match array_from_scalars(scalars) {
                Ok(a) => a,
                Err(e) => {
                    return Err(ValuesError::Evaluation(e));
                },
            };
            columns.push(column);
            j += 1;
        }
        let batch = match make_batch(&schema, columns, n_row) {
            Ok(b) => b,
            Err(e) => {
                return Err(ValuesError::Evaluation(e));
            },
        };
        Self::try_new_from_batches(schema, vec![batch])
    }

    /// Builds a node from a target schema and pre-built batches. Fails with
    /// `EmptyInput` when no batch is supplied, and with `SchemaMismatch` on
    /// the first batch whose own schema differs structurally from the
    /// target; on success the node stores exactly the given batches, in
    /// order, with fresh cached properties.
    pub fn try_new_from_batches(schema: SchemaRef, batches: Vec<Batch>) -> (r: Result<
        ValuesExec,
        ValuesError,
    >)
        ensures
            (r matches Ok(_)) <==> (batches@.len() > 0 && all_match(batches@, *schema)),
            r matches Ok(node) ==> {
                &&& node.wf()
                &&& node.schema_spec() == *schema
                &&& node.batches() == batches@
            },
            (r matches Err(e) && e is EmptyInput) <==> batches@.len() == 0,
            r matches Err(ValuesError::SchemaMismatch { expected, actual }) ==> {
                &&& *expected == *schema
                &&& exists|i: int|
                    {
                        &&& 0 <= i < batches@.len()
                        &&& batch_schema(#[trigger] batches@[i]) == *actual
                        &&& batch_schema(batches@[i]) != *schema
                        &&& forall|k: int| 0 <= k < i ==> batch_schema(#[trigger] batches@[k])
                            == *schema
                    }
            },
            r matches Err(e) ==> (e is EmptyInput || e is SchemaMismatch),
    {
        if batches.len() == 0 {
            return Err(ValuesError::EmptyInput);
        }
        let n = batches.len();
        let mut k: usize = 0;
        while k < n
            invariant
                n == batches@.len(),
                k <= n,
                forall|m: int| 0 <= m < k ==> batch_schema(#[trigger] batches@[m]) == *schema,
            decreases n - k,
        {
            if !batch_matches(&batches[k], &schema) {
                let expected = clone_schema(&schema);
                let actual = batch_schema_ref(&batches[k]);
                return Err(ValuesError::SchemaMismatch { expected, actual });
            }
            k += 1;
        }
        let cache = Self::compute_properties(clone_schema(&schema));
        Ok(ValuesExec { schema, data: batches, cache })
    }

    /// Hands out the stored batches, in order; the arrays behind them stay
    /// shared, not duplicated.
    pub fn data(&self) -> (r: Vec<Batch>)
        ensures
            r@ == self.batches(),
    {
        clone_batches(&self.data)
    }

    /// The fixed node-kind name, for display and plan trees.
    pub fn name(&self) -> (r: &'static str)
        ensures
            r@ == "ValuesExec"@,
    {
        "ValuesExec"
    }

    /// Renders the node: a short fixed label in the default and verbose
    /// forms; the detailed tree-render form is deliberately left empty.
    pub fn fmt_as(&self, t: DisplayFormatType) -> (r: &'static str)
        ensures
            !(t is TreeRender) ==> r@ == "ValuesExec"@,
            t is TreeRender ==> r@ == ""@,
    {
        match t {
            DisplayFormatType::Default | DisplayFormatType::Verbose => "ValuesExec",
            DisplayFormatType::TreeRender => "",
        }
    }

    /// The cached plan properties; never recomputed here.
    pub fn properties(&self) -> (r: &PlanProperties)
        ensures
            *r == self.cache_spec(),
    {
        &self.cache
    }

    /// The number of output partitions: always one.
    pub fn output_partition_count(&self) -> (n: usize)
        requires
            self.wf(),
        ensures
            n == 1,
    {
        self.cache.partitioning.partition_count()
    }

    /// A values node is a leaf: it has no children.
    pub fn children(&self) -> (r: Vec<&ValuesExec>)
        ensures
            r@.len() == 0,
    {
        Vec::new()
    }

    /// Re-parents the node. A values node has no children, so any supplied
    /// list is discarded and the node is rebuilt from its own schema and
    /// batches, re-running the batch validation path so the cached
    /// properties stay consistent with the schema.
    pub fn with_new_children(&self, _children: Vec<ValuesExec>) -> (r: Result<
        ValuesExec,
        ValuesError,
    >)
        requires
            self.wf(),
        ensures
            r matches Ok(node) && node.wf() && node.schema_spec() == self.schema_spec()
                && node.batches() == self.batches(),
    {
        Self::try_new_from_batches(clone_schema(&self.schema), clone_batches(&self.data))
    }

    /// Starts one execution of the node's single output partition: a stream
    /// that yields the stored batches in their original order, then ends.
    /// Any partition index other than 0 is a caller bug and is rejected
    /// with `InvalidPartition`.
    pub fn execute(&self, partition: usize) -> (r: Result<BatchStream, ValuesError>)
        requires
            self.wf(),
        ensures
            partition == 0 ==> (r matches Ok(s) && s.wf() && s.schema_spec() == self.schema_spec()
                && s.remaining() == self.batches()),
            partition != 0 ==> (r matches Err(ValuesError::InvalidPartition { requested })
                && requested == partition),
    {
        if partition != 0 {
            return Err(ValuesError::InvalidPartition { requested: partition });
        }
        Ok(BatchStream::new(self.data(), clone_schema(&self.schema)))
    }

    /// Derives exact statistics for the fully materialized relation: the
    /// exact total row count, an exact (allocator-reported, saturating)
    /// byte size, and per column an exact null count with min, max, sum and
    /// distinct count left absent.
    pub fn statistics(&self) -> (r: Result<Statistics, ValuesError>)
        requires
            self.wf(),
            rows_up_to(self.batches(), self.batches().len() as int) <= usize::MAX as int,
        ensures
            r is Ok,
            r matches Ok(stats) ==> {
                &&& stats.num_rows matches CountPrecision::Exact(total) && total as int
                    == rows_up_to(self.batches(), self.batches().len() as int)
                &&& stats.total_byte_size is Exact
                &&& stats.column_statistics@.len() == schema_len(self.schema_spec())
                &&& forall|j: int|
                    0 <= j < stats.column_statistics@.len() ==> {
                        &&& (#[trigger] stats.column_statistics@[j]).null_count
                            matches CountPrecision::Exact(nulls) && nulls as int == nulls_up_to(
                            self.batches(),
                            j,
                            self.batches().len() as int,
                        )
                        &&& stats.column_statistics@[j].max_value is Absent
                        &&& stats.column_statistics@[j].min_value is Absent
                        &&& stats.column_statistics@[j].sum_value is Absent
                        &&& stats.column_statistics@[j].distinct_count is Absent
                    }
            },
    {
        let n = self.data.len();
        let mut total: usize = 0;
        let mut k: usize = 0;
        while k < n
            invariant
                n == self.data@.len(),
                k <= n,
                total as int == rows_up_to(self.data@, k as int),
                rows_up_to(self.data@, n as int) <= usize::MAX as int,
            decreases n - k,
        {
            let r = batch_rows(&self.data[k]);
            proof {
                lemma_rows_up_to_mono(self.data@, k as int + 1, n as int);
            }
            total = total + r;
            k += 1;
        }
        let mut bytes: usize = 0;
        let n_col = field_count(&self.schema);
        let mut k2: usize = 0;
        while k2 < n
            invariant
                self.wf(),
                n == self.data@.len(),
                n_col as nat == schema_len(*self.schema),
                k2 <= n,
            decreases n - k2,
        {
            let mut j: usize = 0;
            while j < n_col
                invariant
                    self.wf(),
                    n == self.data@.len(),
                    n_col as nat == schema_len(*self.schema),
                    k2 < n,
                    j <= n_col,
                decreases n_col - j,
            {
                assert(batch_schema(self.data@[k2 as int]) == *self.schema);
                let sz = column_byte_size(&self.data[k2], j);
                if sz <= usize::MAX - bytes {
                    bytes = bytes + sz;
                } else {
                    bytes = usize::MAX;
                }
                j += 1;
            }
            k2 += 1;
        }
        let mut cols: Vec<ColumnStatistics> = Vec::new();
        let mut j: usize = 0;
        while j < n_col
            invariant
                self.wf(),
                n == self.data@.len(),
                n_col as nat == schema_len(*self.schema),
                j <= n_col,
                cols@.len() == j,
                rows_up_to(self.data@, n as int) <= usize::MAX as int,
                forall|c: int|
                    0 <= c < j ==> {
                        &&& (#[trigger] cols@[c]).null_count matches CountPrecision::Exact(nulls)
                            && nulls as int == nulls_up_to(self.data@, c, n as int)
                        &&& cols@[c].max_value is Absent
                        &&& cols@[c].min_value is Absent
                        &&& cols@[c].sum_value is Absent
                        &&& cols@[c].distinct_count is Absent
                    },
            decreases n_col - j,
        {
            let mut nulls: usize = 0;
            let mut k3: usize = 0;
            while k3 < n
                invariant
                    self.wf(),
                    n == self.data@.len(),
                    n_col as nat == schema_len(*self.schema),
                    j < n_col,
                    k3 <= n,
                    nulls as int == nulls_up_to(self.data@, j as int, k3 as int),
                    nulls as int <= rows_up_to(self.data@, k3 as int),
                    rows_up_to(self.data@, n as int) <= usize::MAX as int,
                decreases n - k3,
            {
                assert(batch_schema(self.data@[k3 as int]) == *self.schema);
                let c = batch_null_count(&self.data[k3], j);
                proof {
                    lemma_rows_up_to_mono(self.data@, k3 as int + 1, n as int);
                }
                nulls = nulls + c;
                k3 += 1;
            }
            let mut cs = ColumnStatistics::new_unknown();
            cs.null_count = CountPrecision::Exact(nulls);
            cols.push(cs);
            j += 1;
        }
        Ok(
            Statistics {
                num_rows: CountPrecision::Exact(total),
                total_byte_size: CountPrecision::Exact(bytes),
                column_statistics: cols,
            },
        )
    }
}

} // verus!
