//! Snapshot expiry: removes snapshots from table metadata. The files that only they referred to
//! are left to whoever maintains the table.

use crate::error::{Error, ErrorView};
use crate::table::{ActionCommit, ActionCommitView, Table, TableUpdate, TableUpdateView, TableView};
use crate::transaction::TransactionAction;
use vstd::prelude::*;

verus! {

/// Removes the given snapshot IDs from table metadata.
pub struct RemoveSnapshotsAction {
    snapshot_ids: Vec<i64>,
}

impl View for RemoveSnapshotsAction {
    type V = Seq<i64>;

    closed spec fn view(&self) -> Seq<i64> {
        self.snapshot_ids@
    }
}

/// The commit that removes the snapshots: one update, which requires nothing of the table.
pub open spec fn removal(ids: Seq<i64>) -> ActionCommitView {
    ActionCommitView {
        updates: seq![TableUpdateView::RemoveSnapshots { snapshot_ids: ids }],
        requirements: Seq::empty(),
    }
}

impl RemoveSnapshotsAction {
    /// An action that removes nothing yet.
    pub fn new() -> (action: Self)
        ensures
            action@ == Seq::<i64>::empty(),
    {
        Self { snapshot_ids: Vec::new() }
    }

    /// Snapshot IDs to remove, after those given before.
    pub fn remove(self, ids: Vec<i64>) -> (action: Self)
        ensures
            action@ == self@ + ids@,
    {
        let mut snapshot_ids = self.snapshot_ids;
        let mut ids = ids;
        snapshot_ids.append(&mut ids);
        Self { snapshot_ids }
    }
}

impl TransactionAction for RemoveSnapshotsAction {
    open spec fn plans(
        &self,
        base: Option<i64>,
        table: TableView,
        snapshot_id: i64,
        result: Result<ActionCommitView, ErrorView>,
    ) -> bool {
        result == Ok::<ActionCommitView, ErrorView>(removal(self@))
    }

    fn commit(&self, base: Option<i64>, table: &Table, snapshot_id: i64) -> (result: Result<
        ActionCommit,
        Error,
    >)
        ensures
            result matches Ok(commit) && commit.requirements.len() == 0 && commit.updates.len() == 1
                && (commit.updates@[0] matches TableUpdate::RemoveSnapshots { snapshot_ids }
                && snapshot_ids@ == self@),
    {
        let snapshot_ids = self.snapshot_ids.clone();
        assert(snapshot_ids@ =~= self@);
        let updates = vec![TableUpdate::RemoveSnapshots { snapshot_ids }];
        let commit = ActionCommit::new(updates, Vec::new());
        assert(commit@.updates =~= removal(self@).updates);
        Ok(commit)
    }
}

} // verus!
