//! Upgrades of the format version: what is planned for one, and what any table makes of it.

use crate::error::{ErrorKind, ErrorView};
use crate::laws::tables::{
    law_commit_is_taken_where_main_is_required, law_updates_follow_one_another,
    law_upgrade_format_version,
};
use crate::lineage::FormatVersion;
use crate::table::{ActionCommitView, TableUpdateView, TableView, CANNOT_DOWNGRADE};
use crate::transaction::upgrade_format_version::UpgradeFormatVersionAction;
use crate::transaction::TransactionAction;
use vstd::prelude::*;

verus! {

/// An upgrade can always be planned, whatever the table holds that it is planned on and wherever
/// the caller found the main branch. It names the version that the action was given, and requires
/// nothing of the table.
pub proof fn law_upgrade_plans(
    action: UpgradeFormatVersionAction,
    base: Option<i64>,
    table: TableView,
    snapshot_id: i64,
    result: Result<ActionCommitView, ErrorView>,
)
    requires
        action.plans(base, table, snapshot_id, result),
    ensures
        result matches Ok(commit) && {
            &&& commit.updates.len() == 1
            &&& commit.updates[0] == (TableUpdateView::UpgradeFormatVersion {
                format_version: action.format_version,
            })
            &&& commit.requirements.len() == 0
        },
{
}

/// A table of version 2 that takes the upgrade to version 3 has its row IDs start at zero. Its
/// snapshots, its main branch and its partition spec stay as they are. A table that has the version
/// already does not change. No table goes back.
pub proof fn law_upgrade_is_taken(
    action: UpgradeFormatVersionAction,
    base: Option<i64>,
    table: TableView,
    snapshot_id: i64,
    result: Result<ActionCommitView, ErrorView>,
    now: TableView,
)
    requires
        action.plans(base, table, snapshot_id, result),
    ensures
        result matches Ok(commit) && match (now.format_version, action.format_version) {
            (FormatVersion::V2, FormatVersion::V3) => now.committed(commit) matches Ok(after) && {
                &&& after.format_version == FormatVersion::V3
                &&& after.next_row_id == 0
                &&& after.snapshots == now.snapshots
                &&& after.current_snapshot_id == now.current_snapshot_id
                &&& after.default_partition_spec_id == now.default_partition_spec_id
                &&& after.partition_type == now.partition_type
            },
            (FormatVersion::V3, FormatVersion::V2) => now.committed(commit) == Err::<
                TableView,
                ErrorView,
            >(
                ErrorView {
                    kind: ErrorKind::DataInvalid,
                    message: CANNOT_DOWNGRADE@,
                    retryable: false,
                },
            ),
            (FormatVersion::V2, FormatVersion::V2) => now.committed(commit) == Ok::<
                TableView,
                ErrorView,
            >(now),
            (FormatVersion::V3, FormatVersion::V3) => now.committed(commit) == Ok::<
                TableView,
                ErrorView,
            >(now),
        },
{
    law_upgrade_plans(action, base, table, snapshot_id, result);
    let commit = result->Ok_0;
    let update = TableUpdateView::UpgradeFormatVersion { format_version: action.format_version };
    assert(commit.updates =~= Seq::empty().push(update));
    law_commit_is_taken_where_main_is_required(now, commit);
    law_updates_follow_one_another(now, Seq::empty(), update);
    law_upgrade_format_version(now, action.format_version);
}

} // verus!
