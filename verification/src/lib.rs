//! Declarative database provisioning: compiles a schema configuration into
//! table-definition statements, applies them idempotently, and seeds rows.

pub mod apply;
pub mod compile;
pub mod config;
pub mod seed;
mod storage;
pub mod text;

use vstd::prelude::*;

verus! {

/// The failures the library reports.
///
/// `ConfigMalformed` covers a configuration whose shape is wrong (a table
/// without a column list, a column without a name, a seed row naming an
/// undeclared column). `StorageExecutionFailed` covers a statement the
/// storage engine rejected. `StorageUnavailable` covers a connection that
/// could not be opened or closed; it is reported by callers that own the
/// connection, never by this library's own functions.
#[derive(Clone, Copy, Debug, PartialEq, Eq, Structural)]
pub enum DbError {
    ConfigMalformed,
    StorageExecutionFailed,
    StorageUnavailable,
}

} // verus!
