//! Rewrites: what is planned for one, when, and what the table makes of it.

use crate::commit_uuid::uuid_version;
use crate::data_file::{DataContentType, DataFileView};
use crate::error::{ErrorKind, ErrorView};
use crate::laws::files::lemma_files_pass;
use crate::laws::producers::{
    law_produced_row_ids, law_produced_snapshot, law_producing_succeeds_where_the_rows_fit,
};
use crate::laws::tables::law_adding_commit_applies;
use crate::lineage::{FormatVersion, RowRangeView, ROW_ID_OVERFLOW};
use crate::manifest::{
    ManifestContentType, ManifestEntryView, ManifestFileView, ManifestStatus, ROW_COUNT_OVERFLOW,
};
use crate::snapshot::Operation;
use crate::table::{
    ActionCommitView, TableRequirement, TableUpdateView, TableView, REF_MOVED,
};
use crate::transaction::rewrite_files::{
    RewriteFilesAction, RewriteFilesActionView, RewriteFilesOperation,
};
use crate::transaction::snapshot_producer::{first_file_error, SnapshotProduceOperation};
use crate::transaction::TransactionAction;
use uuid::Uuid;
use vstd::prelude::*;

verus! {

/// A rewrite replaces: it marks nothing deleted and carries no manifest forward.
pub proof fn law_rewrite_operation(operation: RewriteFilesOperation, table: TableView)
    ensures
        operation.kind() == Operation::Replace,
        operation.deletes().len() == 0,
        operation.carries(table) == Seq::<ManifestFileView>::empty(),
{
}

/// A rewrite that is planned adds a `replace` snapshot to the table, under the ID and the commit
/// UUID that it was given and with the action's properties, and points the main branch to it,
/// provided that the main branch has not moved. The snapshot holds nothing of what the table held.
/// It has no manifest if no file was added, else one data manifest with an entry for each of the
/// files, in their order. This holds at every version. At version 3 all rows of the files get new
/// row IDs.
pub proof fn law_rewrite_planned_under_a_uuid(
    action: RewriteFilesActionView,
    base: Option<i64>,
    table: TableView,
    snapshot_id: i64,
    commit_uuid: Uuid,
    commit: ActionCommitView,
)
    requires
        action.planned(base, table, snapshot_id, commit_uuid) == Ok::<
            ActionCommitView,
            ErrorView,
        >(commit),
    ensures
        ({
            let data_files = action.added_data_files;
            let rows = |sum: nat, file: DataFileView| sum + file.record_count;
            let at_data: int = 0int;
            &&& commit.updates.len() == 2
            &&& commit.updates[1] == (TableUpdateView::SetSnapshotRef { snapshot_id })
            &&& commit.requirements == seq![
                TableRequirement::RefSnapshotIdMatch { snapshot_id: table.current_snapshot_id },
            ]
            &&& commit.updates[0] matches TableUpdateView::AddSnapshot { snapshot } && {
                &&& snapshot.snapshot_id == snapshot_id
                &&& snapshot.operation == Operation::Replace
                &&& snapshot.commit_uuid == commit_uuid
                &&& snapshot.properties == action.snapshot_properties
                &&& snapshot.manifests.len() == at_data + if data_files.len() > 0 {
                    1int
                } else {
                    0
                }
                &&& data_files.len() > 0 ==> {
                    let manifest = snapshot.manifests[at_data];
                    &&& manifest.content == ManifestContentType::Data
                    &&& manifest.entries.len() == data_files.len()
                    &&& forall|j: int|
                        0 <= j < data_files.len() ==> manifest.entries[j] == (ManifestEntryView {
                            status: ManifestStatus::Added,
                            data_file: DataFileView {
                                first_row_id: None,
                                ..#[trigger] data_files[j]
                            },
                        })
                    &&& manifest.existing_rows_count == 0
                    &&& manifest.added_rows_count == data_files.fold_left(0, rows)
                }
                &&& table.format_version == FormatVersion::V2 ==> {
                    &&& snapshot.row_range is None
                    &&& forall|i: int|
                        0 <= i < snapshot.manifests.len()
                            ==> (#[trigger] snapshot.manifests[i]).first_row_id is None
                }
                &&& table.format_version == FormatVersion::V3 ==> {
                    &&& snapshot.row_range == Some(
                        RowRangeView {
                            first_row_id: table.next_row_id,
                            added_rows: data_files.fold_left(0, rows),
                        },
                    )
                    &&& data_files.len() > 0
                        ==> snapshot.manifests[at_data].first_row_id == Some(
                            table.next_row_id,
                        )
                }
            }
        }),
{
    let producer = action.producer(table, snapshot_id, commit_uuid);
    law_produced_snapshot(
        producer,
        Operation::Replace,
        Seq::empty(),
        Seq::empty(),
        commit,
    );
    law_produced_row_ids(
        producer,
        Operation::Replace,
        Seq::empty(),
        Seq::empty(),
        commit,
    );
}

/// The same holds of whatever plan a rewrite makes of its own accord. The commit UUID then is the
/// one that was set, or else one of version 7.
pub proof fn law_rewrite_plans(
    action: RewriteFilesAction,
    base: Option<i64>,
    table: TableView,
    snapshot_id: i64,
    commit: ActionCommitView,
)
    requires
        action.plans(base, table, snapshot_id, Ok(commit)),
    ensures
        ({
            let data_files = action@.added_data_files;
            let rows = |sum: nat, file: DataFileView| sum + file.record_count;
            let at_data: int = 0int;
            &&& commit.updates.len() == 2
            &&& commit.updates[1] == (TableUpdateView::SetSnapshotRef { snapshot_id })
            &&& commit.requirements == seq![
                TableRequirement::RefSnapshotIdMatch { snapshot_id: table.current_snapshot_id },
            ]
            &&& commit.updates[0] matches TableUpdateView::AddSnapshot { snapshot } && {
                &&& snapshot.snapshot_id == snapshot_id
                &&& snapshot.operation == Operation::Replace
                &&& match action@.commit_uuid {
                    Some(commit_uuid) => snapshot.commit_uuid == commit_uuid,
                    None => uuid_version(snapshot.commit_uuid) == 7,
                }
                &&& snapshot.properties == action@.snapshot_properties
                &&& snapshot.manifests.len() == at_data + if data_files.len() > 0 {
                    1int
                } else {
                    0
                }
                &&& data_files.len() > 0 ==> {
                    let manifest = snapshot.manifests[at_data];
                    &&& manifest.content == ManifestContentType::Data
                    &&& manifest.entries.len() == data_files.len()
                    &&& forall|j: int|
                        0 <= j < data_files.len() ==> manifest.entries[j] == (ManifestEntryView {
                            status: ManifestStatus::Added,
                            data_file: DataFileView {
                                first_row_id: None,
                                ..#[trigger] data_files[j]
                            },
                        })
                    &&& manifest.existing_rows_count == 0
                    &&& manifest.added_rows_count == data_files.fold_left(0, rows)
                }
                &&& table.format_version == FormatVersion::V2 ==> {
                    &&& snapshot.row_range is None
                    &&& forall|i: int|
                        0 <= i < snapshot.manifests.len()
                            ==> (#[trigger] snapshot.manifests[i]).first_row_id is None
                }
                &&& table.format_version == FormatVersion::V3 ==> {
                    &&& snapshot.row_range == Some(
                        RowRangeView {
                            first_row_id: table.next_row_id,
                            added_rows: data_files.fold_left(0, rows),
                        },
                    )
                    &&& data_files.len() > 0
                        ==> snapshot.manifests[at_data].first_row_id == Some(
                            table.next_row_id,
                        )
                }
            }
        }),
{
    let commit_uuid = match action@.commit_uuid {
        Some(commit_uuid) => commit_uuid,
        None => choose|commit_uuid: Uuid|
            uuid_version(commit_uuid) == 7 && Ok::<ActionCommitView, ErrorView>(commit)
                == #[trigger] action@.planned(base, table, snapshot_id, commit_uuid),
    };
    law_rewrite_planned_under_a_uuid(action@, base, table, snapshot_id, commit_uuid, commit);
}

/// A rewrite can be planned exactly where the main branch of the table is where the caller found
/// it, each of its files is a data file of the table's default partition spec with values that fit
/// it, the rows of the files fit a count and, at version 3, there are row IDs enough. Else it is
/// the main branch that decides, or the first file that does not pass, or the count, or the row
/// IDs. No retry mends these errors.
pub proof fn law_rewrite_planned_succeeds(
    action: RewriteFilesActionView,
    base: Option<i64>,
    table: TableView,
    snapshot_id: i64,
    commit_uuid: Uuid,
)
    ensures
        ({
            let result = action.planned(base, table, snapshot_id, commit_uuid);
            let data_files = action.added_data_files;
            let rows = |sum: nat, file: DataFileView| sum + file.record_count;
            let data_files_pass = forall|i: int|
                0 <= i < data_files.len() ==> {
                    &&& (#[trigger] data_files[i]).content == DataContentType::Data
                    &&& data_files[i].partition_spec_id == table.default_partition_spec_id
                    &&& data_files[i].partition.len() == table.partition_type.len()
                    &&& forall|k: int|
                        0 <= k < data_files[i].partition.len()
                            ==> (#[trigger] data_files[i].partition[k] matches Some(value)
                                    ==> value.has_type(table.partition_type[k]))
                };
            let data_error = first_file_error(table, ManifestContentType::Data, data_files);
            let counts_fit = data_files.fold_left(0, rows) <= u64::MAX;
            let row_ids_fit = table.format_version == FormatVersion::V3 ==> table.next_row_id
                + data_files.fold_left(0, rows) <= u64::MAX;
            &&& base != table.current_snapshot_id
                ==> result == Err::<ActionCommitView, ErrorView>(
                    ErrorView {
                        kind: ErrorKind::CatalogCommitConflicts,
                        message: REF_MOVED@,
                        retryable: false,
                    },
                )
            &&& result is Ok
                <==> base == table.current_snapshot_id && data_files_pass && counts_fit
                && row_ids_fit
            &&& base == table.current_snapshot_id && !data_files_pass
                ==> (data_error matches Some(error) && result == Err::<
                    ActionCommitView,
                    ErrorView,
                    >(error))
            &&& base == table.current_snapshot_id && data_files_pass && !counts_fit
                ==> result == Err::<ActionCommitView, ErrorView>(
                    ErrorView {
                        kind: ErrorKind::DataInvalid,
                        message: ROW_COUNT_OVERFLOW@,
                        retryable: false,
                    },
                )
            &&& base == table.current_snapshot_id && data_files_pass && counts_fit && !row_ids_fit
                ==> result == Err::<ActionCommitView, ErrorView>(
                    ErrorView {
                        kind: ErrorKind::DataInvalid,
                        message: ROW_ID_OVERFLOW@,
                        retryable: false,
                    },
                )
        }),
{
    let producer = action.producer(table, snapshot_id, commit_uuid);
    lemma_files_pass(table, ManifestContentType::Data, action.added_data_files);
    law_producing_succeeds_where_the_rows_fit(
        producer,
        Operation::Replace,
        Seq::empty(),
        Seq::empty(),
    );
}

/// The same holds of whatever plan a rewrite makes of its own accord.
pub proof fn law_rewrite_plan_succeeds(
    action: RewriteFilesAction,
    base: Option<i64>,
    table: TableView,
    snapshot_id: i64,
    result: Result<ActionCommitView, ErrorView>,
)
    requires
        action.plans(base, table, snapshot_id, result),
    ensures
        ({
            let data_files = action@.added_data_files;
            let rows = |sum: nat, file: DataFileView| sum + file.record_count;
            let data_files_pass = forall|i: int|
                0 <= i < data_files.len() ==> {
                    &&& (#[trigger] data_files[i]).content == DataContentType::Data
                    &&& data_files[i].partition_spec_id == table.default_partition_spec_id
                    &&& data_files[i].partition.len() == table.partition_type.len()
                    &&& forall|k: int|
                        0 <= k < data_files[i].partition.len()
                            ==> (#[trigger] data_files[i].partition[k] matches Some(value)
                                    ==> value.has_type(table.partition_type[k]))
                };
            let data_error = first_file_error(table, ManifestContentType::Data, data_files);
            let counts_fit = data_files.fold_left(0, rows) <= u64::MAX;
            let row_ids_fit = table.format_version == FormatVersion::V3 ==> table.next_row_id
                + data_files.fold_left(0, rows) <= u64::MAX;
            &&& base != table.current_snapshot_id
                ==> result == Err::<ActionCommitView, ErrorView>(
                    ErrorView {
                        kind: ErrorKind::CatalogCommitConflicts,
                        message: REF_MOVED@,
                        retryable: false,
                    },
                )
            &&& result is Ok
                <==> base == table.current_snapshot_id && data_files_pass && counts_fit
                && row_ids_fit
            &&& base == table.current_snapshot_id && !data_files_pass
                ==> (data_error matches Some(error) && result == Err::<
                    ActionCommitView,
                    ErrorView,
                    >(error))
            &&& base == table.current_snapshot_id && data_files_pass && !counts_fit
                ==> result == Err::<ActionCommitView, ErrorView>(
                    ErrorView {
                        kind: ErrorKind::DataInvalid,
                        message: ROW_COUNT_OVERFLOW@,
                        retryable: false,
                    },
                )
            &&& base == table.current_snapshot_id && data_files_pass && counts_fit && !row_ids_fit
                ==> result == Err::<ActionCommitView, ErrorView>(
                    ErrorView {
                        kind: ErrorKind::DataInvalid,
                        message: ROW_ID_OVERFLOW@,
                        retryable: false,
                    },
                )
        }),
{
    let commit_uuid = match action@.commit_uuid {
        Some(commit_uuid) => commit_uuid,
        None => choose|commit_uuid: Uuid|
            uuid_version(commit_uuid) == 7 && result
                == #[trigger] action@.planned(base, table, snapshot_id, commit_uuid),
    };
    law_rewrite_planned_succeeds(action@, base, table, snapshot_id, commit_uuid);
}

/// The table that a rewrite was planned on takes it, unless the snapshot ID is in use. The snapshot
/// is added behind the others, which stay, and is the current one. At version 3 the next row ID
/// moves on by the rows of the added files.
pub proof fn law_rewrite_is_taken(
    action: RewriteFilesAction,
    base: Option<i64>,
    table: TableView,
    snapshot_id: i64,
    commit: ActionCommitView,
)
    requires
        action.plans(base, table, snapshot_id, Ok(commit)),
        forall|i: int|
            0 <= i < table.snapshots.len() ==> (#[trigger] table.snapshots[i]).snapshot_id
                != snapshot_id,
    ensures
        ({
            let rows = |sum: nat, file: DataFileView| sum + file.record_count;
            &&& commit.updates[0] matches TableUpdateView::AddSnapshot { snapshot }
            &&& table.committed(commit) matches Ok(after)
            &&& after.snapshots == table.snapshots.push(snapshot)
            &&& after.current_snapshot_id == Some(snapshot_id)
            &&& after.format_version == table.format_version
            &&& after.default_partition_spec_id == table.default_partition_spec_id
            &&& after.partition_type == table.partition_type
            &&& table.format_version == FormatVersion::V2
                ==> after.next_row_id == table.next_row_id
            &&& table.format_version == FormatVersion::V3
                ==> after.next_row_id == table.next_row_id
                + action@.added_data_files.fold_left(0, rows)
        }),
{
    law_rewrite_plans(action, base, table, snapshot_id, commit);
    law_rewrite_plan_succeeds(action, base, table, snapshot_id, Ok(commit));
    let snapshot = commit.updates[0]->snapshot;
    assert(commit.updates =~= seq![
        TableUpdateView::AddSnapshot { snapshot },
        TableUpdateView::SetSnapshotRef { snapshot_id },
    ]);
    law_adding_commit_applies(table, snapshot, table.current_snapshot_id, commit);
}

} // verus!
