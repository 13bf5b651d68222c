//! Actions on tables, and the attempts to commit them.

pub mod attempts;
pub mod fast_append;
pub mod laws;
pub mod remove_snapshots;
pub mod rewrite_files;
pub mod row_delta;
pub mod snapshot_producer;
pub mod upgrade_format_version;

use crate::error::{Error, ErrorView};
use crate::table::{ActionCommit, ActionCommitView, Table, TableView};
use crate::views::outcome;
use vstd::prelude::*;

verus! {

/// A change that a transaction makes to a table.
pub trait TransactionAction {
    /// Whether planning the action on a table, with an ID for the snapshot that it may add, may
    /// give the result. The caller made the action from what the table held when its main branch
    /// pointed to `base`.
    spec fn plans(
        &self,
        base: Option<i64>,
        table: TableView,
        snapshot_id: i64,
        result: Result<ActionCommitView, ErrorView>,
    ) -> bool;

    /// Plans the action on a table. `base` is what the main branch pointed to when the caller
    /// read the table. A snapshot that the action adds gets the ID.
    fn commit(&self, base: Option<i64>, table: &Table, snapshot_id: i64) -> (result: Result<
        ActionCommit,
        Error,
    >)
        ensures
            self.plans(base, table@, snapshot_id, outcome(result)),
    ;
}

} // verus!
