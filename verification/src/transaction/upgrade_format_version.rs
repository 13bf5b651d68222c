//! Takes a table to another format version.

use crate::error::{Error, ErrorView};
use crate::lineage::FormatVersion;
use crate::table::{ActionCommit, ActionCommitView, Table, TableUpdate, TableUpdateView, TableView};
use crate::transaction::TransactionAction;
use vstd::prelude::*;

verus! {

/// Takes a table to a format version; only metadata changes.
pub struct UpgradeFormatVersionAction {
    pub format_version: FormatVersion,
}

/// The commit that takes a table to the version.
pub open spec fn upgrade(format_version: FormatVersion) -> ActionCommitView {
    ActionCommitView {
        updates: seq![TableUpdateView::UpgradeFormatVersion { format_version }],
        requirements: Seq::empty(),
    }
}

impl TransactionAction for UpgradeFormatVersionAction {
    open spec fn plans(
        &self,
        base: Option<i64>,
        table: TableView,
        snapshot_id: i64,
        result: Result<ActionCommitView, ErrorView>,
    ) -> bool {
        result == Ok::<ActionCommitView, ErrorView>(upgrade(self.format_version))
    }

    fn commit(&self, base: Option<i64>, table: &Table, snapshot_id: i64) -> (result: Result<
        ActionCommit,
        Error,
    >)
        ensures
            result matches Ok(commit) && commit.requirements.len() == 0 && commit.updates.len() == 1
                && commit.updates@[0] == (TableUpdate::UpgradeFormatVersion {
                format_version: self.format_version,
            }),
    {
        let updates = vec![
            TableUpdate::UpgradeFormatVersion { format_version: self.format_version },
        ];
        let commit = ActionCommit::new(updates, Vec::new());
        assert(commit@.updates =~= upgrade(self.format_version).updates);
        Ok(commit)
    }
}

} // verus!
