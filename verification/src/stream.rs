//! A pull-based handle over already materialized batches: it yields them in
//! their original order, then signals completion. Each handle owns its own
//! cursor over data that is shared by reference count, so concurrent
//! consumers never disturb one another.

use vstd::prelude::*;

use arrow::datatypes::{Schema, SchemaRef};

use crate::columnar::{clone_batch, clone_schema, Batch};

verus! {

/// A sequence-producing handle over buffered batches.
#[derive(Debug)]
pub struct BatchStream {
    schema: SchemaRef,
    data: Vec<Batch>,
    index: usize,
}

impl BatchStream {
    /// The cursor never runs past the end of the data.
    pub closed spec fn wf(self) -> bool {
        self.index as int <= self.data@.len()
    }

    /// The schema the stream reports.
    pub closed spec fn schema_spec(self) -> Schema {
        *self.schema
    }

    /// The batches the stream has not yielded yet, in order.
    pub closed spec fn remaining(self) -> Seq<Batch> {
        self.data@.skip(self.index as int)
    }

    /// A fresh handle that will yield `data` in order.
    pub fn new(data: Vec<Batch>, schema: SchemaRef) -> (s: BatchStream)
        ensures
            s.wf(),
            s.schema_spec() == *schema,
            s.remaining() == data@,
    {
        let s = BatchStream { schema, data, index: 0 };
        proof {
            assert(s.remaining() =~= s.data@);
        }
        s
    }

    /// The schema of the batches the stream yields.
    pub fn schema(&self) -> (s: SchemaRef)
        ensures
            *s == self.schema_spec(),
    {
        clone_schema(&self.schema)
    }

    /// Hands out the next batch in order, or nothing once every batch has
    /// been yielded. No recomputation: the shared, immutable batch is handed
    /// over as it is stored.
    pub fn next_batch(&mut self) -> (r: Option<Batch>)
        requires
            old(self).wf(),
        ensures
            final(self).wf(),
            final(self).schema_spec() == old(self).schema_spec(),
            old(self).remaining().len() == 0 ==> r is None && *final(self) == *old(self),
            old(self).remaining().len() > 0 ==> r == Some(old(self).remaining()[0])
                && final(self).remaining() == old(self).remaining().skip(1),
    {
        if self.index < self.data.len() {
            let b = clone_batch(&self.data[self.index]);
            self.index = self.index + 1;
            proof {
                assert(final(self).remaining() =~= old(self).remaining().skip(1));
            }
            Some(b)
        } else {
            None
        }
    }
}

} // verus!
