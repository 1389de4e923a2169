//! Declarations of, and thin trusted wrappers over, the arrow and DataFusion
//! primitives that the values node drives: schemas, record batches, scalar
//! values, typed columns and physical expressions.
//!
//! A record batch, a typed column and a physical expression are held whole
//! inside opaque structs: the verifier cannot declare arrow's `RecordBatch`
//! (its trait impls mention the undeclarable `dyn Array`), nor a trait
//! object itself.

use vstd::prelude::*;

use std::sync::Arc;
use arrow::array::ArrayRef;
use arrow::datatypes::{Schema, SchemaRef};
use arrow::record_batch::{RecordBatch, RecordBatchOptions};
use datafusion_common::{DataFusionError, ScalarValue};
use datafusion_expr_common::columnar_value::ColumnarValue;
use datafusion_physical_expr::expressions::Literal;
use datafusion_physical_expr::{EquivalenceProperties, PhysicalExpr};

verus! {

#[verifier::external_type_specification]
#[verifier::external_body]
pub struct ExSchema(Schema);

#[verifier::external_type_specification]
#[verifier::external_body]
pub struct ExScalarValue(ScalarValue);

#[verifier::external_type_specification]
#[verifier::external_body]
pub struct ExDataFusionError(DataFusionError);

#[verifier::external_type_specification]
#[verifier::external_body]
pub struct ExEquivalenceProperties(EquivalenceProperties);

/// One column batch: a column-oriented container of typed arrays that all
/// share one declared row count.
#[verifier::external_body]
#[derive(Debug)]
pub struct Batch {
    inner: RecordBatch,
}

/// One physical expression, boxed behind the engine's expression trait.
#[verifier::external_body]
#[derive(Debug)]
pub struct PhysExpr {
    inner: Arc<dyn PhysicalExpr>,
}

/// One typed arrow column: an ordered run of values of a single data type.
#[verifier::external_body]
#[derive(Debug)]
pub struct ColumnArray {
    inner: ArrayRef,
}

/// What evaluating one cell of the values grid produced: either a scalar
/// directly, or a typed column that still has to collapse to a single value.
#[derive(Debug)]
pub enum EvaluatedValue {
    Scalar(ScalarValue),
    Array(ColumnArray),
}

/// The schema a column batch reports for itself.
pub uninterp spec fn batch_schema(b: Batch) -> Schema;

/// The row count a column batch reports.
pub uninterp spec fn rows_of(b: Batch) -> nat;

/// The number of logically null values in column `j` of a batch.
pub uninterp spec fn nulls_of(b: Batch, j: int) -> nat;

/// The number of column descriptors a schema holds.
pub uninterp spec fn schema_len(s: Schema) -> nat;

/// The number of values a typed column holds.
pub uninterp spec fn arr_len(a: ColumnArray) -> nat;

/// Relies on `Schema::fields` and `Fields::len`: the field count of a schema.
#[verifier::external_body]
pub(crate) fn field_count(s: &SchemaRef) -> (n: usize)
    ensures
        n as nat == schema_len(**s),
{
    s.fields().len()
}

/// Relies on `RecordBatch::num_rows`: the row count the batch was built with.
#[verifier::external_body]
pub fn batch_rows(b: &Batch) -> (n: usize)
    ensures
        n as nat == rows_of(*b),
{
    b.inner.num_rows()
}

/// Relies on `RecordBatch::schema` and the derived structural equality of
/// arrow's `Schema`: the batch's schema compared field-by-field (name, type,
/// nullability, metadata) with the given one.
#[verifier::external_body]
pub(crate) fn batch_matches(b: &Batch, s: &SchemaRef) -> (r: bool)
    ensures
        r == (batch_schema(*b) == **s),
{
    b.inner.schema() == *s
}

/// Relies on `RecordBatch::schema`: hands out the schema the batch reports.
#[verifier::external_body]
pub(crate) fn batch_schema_ref(b: &Batch) -> (s: SchemaRef)
    ensures
        *s == batch_schema(*b),
{
    b.inner.schema()
}

/// Relies on the derived structural equality of `RecordBatch`: equal schemas
/// and equal column contents.
#[verifier::external_body]
pub fn batch_eq(a: &Batch, b: &Batch) -> (r: bool)
    ensures
        r == (*a == *b),
{
    a.inner == b.inner
}

/// Relies on `Arc::clone`: the clone is the same schema value.
#[verifier::external_body]
pub(crate) fn clone_schema(s: &SchemaRef) -> (r: SchemaRef)
    ensures
        *r == **s,
{
    Arc::clone(s)
}

/// Relies on `RecordBatch::clone`: batches share their immutable columns by
/// reference count, so the clone is the same batch value.
#[verifier::external_body]
pub fn clone_batch(b: &Batch) -> (r: Batch)
    ensures
        r == *b,
{
    Batch { inner: b.inner.clone() }
}

/// Clones a whole run of batches, in order; the arrays behind them stay
/// shared, not duplicated.
pub fn clone_batches(v: &Vec<Batch>) -> (r: Vec<Batch>)
    ensures
        r@ == v@,
{
    let mut out: Vec<Batch> = Vec::new();
    let mut i: usize = 0;
    while i < v.len()
        invariant
            i <= v@.len(),
            out@ == v@.take(i as int),
        decreases v@.len() - i,
    {
        out.push(clone_batch(&v[i]));
        proof {
            assert(out@ =~= v@.take(i as int + 1));
        }
        i += 1;
    }
    proof {
        assert(v@.take(v@.len() as int) =~= v@);
    }
    out
}

/// Relies on `RecordBatch::column` and `Array::logical_null_count`: the null
/// count of one column, which can never exceed the batch's row count.
#[verifier::external_body]
pub(crate) fn batch_null_count(b: &Batch, j: usize) -> (n: usize)
    requires
        j < schema_len(batch_schema(*b)),
    ensures
        n as nat == nulls_of(*b, j as int),
        n as nat <= rows_of(*b),
{
    b.inner.column(j).logical_null_count()
}

/// Relies on `RecordBatch::column` and `Array::get_array_memory_size`. The
/// size reflects what the allocator handed out, so nothing is claimed of it.
#[verifier::external_body]
pub(crate) fn column_byte_size(b: &Batch, j: usize) -> usize
    requires
        j < schema_len(batch_schema(*b)),
{
    b.inner.column(j).get_array_memory_size()
}

/// Relies on `RecordBatch::column`: hands out column `j`, whose length is the
/// batch's row count.
#[verifier::external_body]
pub fn batch_column(b: &Batch, j: usize) -> (a: ColumnArray)
    requires
        j < schema_len(batch_schema(*b)),
    ensures
        arr_len(a) == rows_of(*b),
{
    ColumnArray { inner: Arc::clone(b.inner.column(j)) }
}

/// Relies on `Array::len`: the number of values in the column.
#[verifier::external_body]
pub(crate) fn array_len(a: &ColumnArray) -> (n: usize)
    ensures
        n as nat == arr_len(*a),
{
    a.inner.len()
}

/// Relies on `ScalarValue::try_from_array`: reads the value at index `i` back
/// out of a column. Fails only on data types the engine cannot collapse to a
/// scalar.
#[verifier::external_body]
pub fn array_scalar(a: &ColumnArray, i: usize) -> Result<ScalarValue, DataFusionError>
    requires
        i < arr_len(*a),
{
    ScalarValue::try_from_array(a.inner.as_ref(), i)
}

/// Relies on `ScalarValue::iter_to_array`: builds one typed column out of an
/// ordered run of scalars, one value per scalar, so on success the column's
/// length equals the number of scalars handed in.
#[verifier::external_body]
pub fn array_from_scalars(scalars: Vec<ScalarValue>) -> (r: Result<
    ColumnArray,
    DataFusionError,
>)
    ensures
        r matches Ok(a) ==> arr_len(a) == scalars@.len(),
{
    Ok(ColumnArray { inner: ScalarValue::iter_to_array(scalars)? })
}

/// Relies on `RecordBatch::try_new_with_options` with an explicit row count:
/// on success the batch reports exactly the given schema and the given row
/// count, every column having been validated against both.
#[verifier::external_body]
pub fn make_batch(schema: &SchemaRef, columns: Vec<ColumnArray>, rows: usize) -> (r: Result<
    Batch,
    DataFusionError,
>)
    ensures
        r matches Ok(b) ==> batch_schema(b) == **schema && rows_of(b) == rows as nat,
{
    let arrays: Vec<ArrayRef> = columns.into_iter().map(|c| c.inner).collect();
    let options = RecordBatchOptions::new().with_row_count(Some(rows));
    let inner = RecordBatch::try_new_with_options(Arc::clone(schema), arrays, &options)?;
    Ok(Batch { inner })
}

/// Relies on `RecordBatch::try_new_with_options`: a batch with no columns and
/// an explicit row count of one always passes validation, and serves as the
/// fixed single-row context that constant expressions are evaluated against.
#[verifier::external_body]
pub(crate) fn one_row_context() -> Batch {
    let options = RecordBatchOptions::new().with_row_count(Some(1));
    let inner = RecordBatch::try_new_with_options(Arc::new(Schema::empty()), vec![], &options)
        .expect("an empty batch with an explicit row count passes validation");
    Batch { inner }
}

/// Relies on `PhysicalExpr::evaluate`: what comes back is whatever the
/// expression's own implementation produces, so nothing is claimed of it.
#[verifier::external_body]
pub(crate) fn evaluate_expr(e: &PhysExpr, context: &Batch) -> Result<
    EvaluatedValue,
    DataFusionError,
> {
    match e.inner.evaluate(&context.inner)? {
        ColumnarValue::Scalar(s) => Ok(EvaluatedValue::Scalar(s)),
        ColumnarValue::Array(a) => Ok(EvaluatedValue::Array(ColumnArray { inner: a })),
    }
}

/// Relies on `EquivalenceProperties::new`: the empty set of equivalence and
/// ordering facts over the given schema.
#[verifier::external_body]
pub(crate) fn base_equivalences(schema: &SchemaRef) -> EquivalenceProperties {
    EquivalenceProperties::new(Arc::clone(schema))
}

impl PhysExpr {
    /// Relies on `Literal::new`: an expression that evaluates to the given
    /// scalar on any input batch.
    #[verifier::external_body]
    pub fn literal(value: ScalarValue) -> PhysExpr {
        PhysExpr { inner: Arc::new(Literal::new(value)) }
    }
}

} // verus!
