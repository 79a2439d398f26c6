//! Schema reconciliation: decide which expected tables or constraints are
//! missing from an introspection result, and select the creation statements
//! that bring them into being.
//!
//! The database itself is not touched here. A caller runs the batch built by
//! `introspection_batch` and hands the driver's answer to `existence_results`;
//! it runs the batch built by `create_tables_batch` and hands the answer to
//! `create_tables_result`.

pub mod model;
pub mod existence;
pub mod apply;
pub mod laws;

pub use model::{
    ColumnValue, DdlDefinition, ExecutionState, ExpectedObject, MissingDbObjects, ObjectKind,
    ObservedRow, QueryAndParams, QueryOutcome, ReconciliationResult, RowSet, TransportError,
};
pub use existence::{
    existence_results, failure_message, introspection_batch, is_truthy, observed_names,
    row_object_name,
};
pub use apply::{create_tables_batch, create_tables_result};
