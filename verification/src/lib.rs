//! A verified constant-values execution node: it materializes a literal-defined
//! table into column batches and exposes the usual execution-node surface
//! (properties, children, streaming execution by partition, statistics).

pub mod columnar;
pub mod error;
pub mod properties;
pub mod stats;
pub mod stream;
pub mod values;
