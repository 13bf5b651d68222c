//! Appends: what is planned for one, when, and what the table makes of it.

use crate::commit_uuid::uuid_version;
use crate::data_file::{DataContentType, DataFileView};
use crate::error::{ErrorKind, ErrorView};
use crate::laws::files::lemma_files_pass;
use crate::laws::producers::{
    law_produced_row_ids, law_produced_snapshot, law_producing_succeeds_where_the_rows_fit,
};
use crate::laws::tables::{
    law_adding_commit_applies, law_current_snapshot_is_where_main_points,
    lemma_nothing_owed_where_assigned,
};
use crate::lineage::{FormatVersion, RowRangeView, ROW_ID_OVERFLOW};
use crate::manifest::{
    ManifestContentType, ManifestEntryView, ManifestFileView, ManifestStatus, ROW_COUNT_OVERFLOW,
};
use crate::snapshot::Operation;
use crate::table::{
    ActionCommitView, TableRequirement, TableUpdateView, TableView,
};
use crate::transaction::fast_append::{
    FastAppendAction, FastAppendActionView, FastAppendOperation,
};
use crate::transaction::snapshot_producer::{first_file_error, SnapshotProduceOperation};
use crate::transaction::TransactionAction;
use uuid::Uuid;
use vstd::prelude::*;

verus! {

/// An append is an append: it marks nothing deleted and carries the current manifests forward, all
/// of them.
pub proof fn law_append_operation(operation: FastAppendOperation, table: TableView)
    ensures
        operation.kind() == Operation::Append,
        operation.deletes().len() == 0,
        operation.carries(table) == table.current_manifests(),
{
}

/// An append that is planned adds a snapshot to the table, under the ID and the commit UUID that it
/// was given, and points the main branch to it, provided that the main branch has not moved. The
/// snapshot holds the manifests of the table's current snapshot, all of them and in their order,
/// with the entries and counts that they had, and behind them, if files were added, one data
/// manifest with an entry for each of the files, in their order. At version 3 a data manifest that
/// has no row IDs yet gets one for each row, and the snapshot's row range is made of these.
pub proof fn law_append_planned_under_a_uuid(
    action: FastAppendActionView,
    table: TableView,
    snapshot_id: i64,
    commit_uuid: Uuid,
    commit: ActionCommitView,
)
    requires
        action.planned(table, snapshot_id, commit_uuid) == Ok::<
            ActionCommitView,
            ErrorView,
        >(commit),
    ensures
        ({
            let carried = table.current_manifests();
            let data_files = action.added_data_files;
            let rows = |sum: nat, file: DataFileView| sum + file.record_count;
            let owed = |sum: nat, manifest: ManifestFileView|
                if manifest.content == ManifestContentType::Data && manifest.first_row_id is None {
                    sum + manifest.existing_rows_count + manifest.added_rows_count
                } else {
                    sum
                };
            let at_data: int = carried.len() as int;
            &&& commit.updates.len() == 2
            &&& commit.updates[1] == (TableUpdateView::SetSnapshotRef { snapshot_id })
            &&& commit.requirements == seq![
                TableRequirement::RefSnapshotIdMatch { snapshot_id: table.current_snapshot_id },
            ]
            &&& commit.updates[0] matches TableUpdateView::AddSnapshot { snapshot } && {
                &&& snapshot.snapshot_id == snapshot_id
                &&& snapshot.operation == Operation::Append
                &&& snapshot.commit_uuid == commit_uuid
                &&& snapshot.properties == Map::<String, String>::empty()
                &&& snapshot.manifests.len() == at_data + if data_files.len() > 0 {
                    1int
                } else {
                    0
                }
                &&& forall|i: int|
                    0 <= i < carried.len() ==> {
                        &&& (#[trigger] snapshot.manifests[i]).content == carried[i].content
                        &&& snapshot.manifests[i].entries == carried[i].entries
                        &&& snapshot.manifests[i].existing_rows_count
                            == carried[i].existing_rows_count
                        &&& snapshot.manifests[i].added_rows_count == carried[i].added_rows_count
                    }
                &&& data_files.len() > 0 ==> {
                    let manifest = snapshot.manifests[at_data];
                    &&& manifest.content == ManifestContentType::Data
                    &&& manifest.entries.len() == data_files.len()
                    &&& forall|j: int|
                        0 <= j < data_files.len() ==> manifest.entries[j] == (ManifestEntryView {
                            status: ManifestStatus::Added,
                            data_file: DataFileView {
                                first_row_id: None,
                                ..#[trigger] data_files[j]
                            },
                        })
                    &&& manifest.existing_rows_count == 0
                    &&& manifest.added_rows_count == data_files.fold_left(0, rows)
                }
                &&& table.format_version == FormatVersion::V2 ==> {
                    &&& snapshot.row_range is None
                    &&& forall|i: int|
                        0 <= i < snapshot.manifests.len()
                            ==> (#[trigger] snapshot.manifests[i]).first_row_id is None
                }
                &&& table.format_version == FormatVersion::V3 ==> {
                    &&& snapshot.row_range == Some(
                        RowRangeView {
                            first_row_id: table.next_row_id,
                            added_rows: carried.fold_left(0, owed)
                                + data_files.fold_left(0, rows),
                        },
                    )
                    &&& forall|i: int|
                        0 <= i < carried.len() ==> (#[trigger] snapshot.manifests[i]).first_row_id
                            == (match (carried[i].content, carried[i].first_row_id) {
                                (ManifestContentType::Deletes, _) => None,
                                (ManifestContentType::Data, Some(kept)) => Some(kept),
                                (ManifestContentType::Data, None) => Some(
                                    table.next_row_id + carried.take(i).fold_left(0, owed),
                                ),
                            })
                    &&& data_files.len() > 0
                        ==> snapshot.manifests[at_data].first_row_id == Some(
                            table.next_row_id + carried.fold_left(0, owed),
                        )
                }
            }
        }),
{
    let producer = action.producer(table, snapshot_id, commit_uuid);
    law_produced_snapshot(
        producer,
        Operation::Append,
        table.current_manifests(),
        Seq::empty(),
        commit,
    );
    law_produced_row_ids(
        producer,
        Operation::Append,
        table.current_manifests(),
        Seq::empty(),
        commit,
    );
}

/// The same holds of whatever plan an append makes of its own accord, be the base what it may. The
/// commit UUID then is of version 7.
pub proof fn law_append_plans(
    action: FastAppendAction,
    base: Option<i64>,
    table: TableView,
    snapshot_id: i64,
    commit: ActionCommitView,
)
    requires
        action.plans(base, table, snapshot_id, Ok(commit)),
    ensures
        ({
            let carried = table.current_manifests();
            let data_files = action@.added_data_files;
            let rows = |sum: nat, file: DataFileView| sum + file.record_count;
            let owed = |sum: nat, manifest: ManifestFileView|
                if manifest.content == ManifestContentType::Data && manifest.first_row_id is None {
                    sum + manifest.existing_rows_count + manifest.added_rows_count
                } else {
                    sum
                };
            let at_data: int = carried.len() as int;
            &&& commit.updates.len() == 2
            &&& commit.updates[1] == (TableUpdateView::SetSnapshotRef { snapshot_id })
            &&& commit.requirements == seq![
                TableRequirement::RefSnapshotIdMatch { snapshot_id: table.current_snapshot_id },
            ]
            &&& commit.updates[0] matches TableUpdateView::AddSnapshot { snapshot } && {
                &&& snapshot.snapshot_id == snapshot_id
                &&& snapshot.operation == Operation::Append
                &&& uuid_version(snapshot.commit_uuid) == 7
                &&& snapshot.properties == Map::<String, String>::empty()
                &&& snapshot.manifests.len() == at_data + if data_files.len() > 0 {
                    1int
                } else {
                    0
                }
                &&& forall|i: int|
                    0 <= i < carried.len() ==> {
                        &&& (#[trigger] snapshot.manifests[i]).content == carried[i].content
                        &&& snapshot.manifests[i].entries == carried[i].entries
                        &&& snapshot.manifests[i].existing_rows_count
                            == carried[i].existing_rows_count
                        &&& snapshot.manifests[i].added_rows_count == carried[i].added_rows_count
                    }
                &&& data_files.len() > 0 ==> {
                    let manifest = snapshot.manifests[at_data];
                    &&& manifest.content == ManifestContentType::Data
                    &&& manifest.entries.len() == data_files.len()
                    &&& forall|j: int|
                        0 <= j < data_files.len() ==> manifest.entries[j] == (ManifestEntryView {
                            status: ManifestStatus::Added,
                            data_file: DataFileView {
                                first_row_id: None,
                                ..#[trigger] data_files[j]
                            },
                        })
                    &&& manifest.existing_rows_count == 0
                    &&& manifest.added_rows_count == data_files.fold_left(0, rows)
                }
                &&& table.format_version == FormatVersion::V2 ==> {
                    &&& snapshot.row_range is None
                    &&& forall|i: int|
                        0 <= i < snapshot.manifests.len()
                            ==> (#[trigger] snapshot.manifests[i]).first_row_id is None
                }
                &&& table.format_version == FormatVersion::V3 ==> {
                    &&& snapshot.row_range == Some(
                        RowRangeView {
                            first_row_id: table.next_row_id,
                            added_rows: carried.fold_left(0, owed)
                                + data_files.fold_left(0, rows),
                        },
                    )
                    &&& forall|i: int|
                        0 <= i < carried.len() ==> (#[trigger] snapshot.manifests[i]).first_row_id
                            == (match (carried[i].content, carried[i].first_row_id) {
                                (ManifestContentType::Deletes, _) => None,
                                (ManifestContentType::Data, Some(kept)) => Some(kept),
                                (ManifestContentType::Data, None) => Some(
                                    table.next_row_id + carried.take(i).fold_left(0, owed),
                                ),
                            })
                    &&& data_files.len() > 0
                        ==> snapshot.manifests[at_data].first_row_id == Some(
                            table.next_row_id + carried.fold_left(0, owed),
                        )
                }
            }
        }),
{
    let commit_uuid = choose|commit_uuid: Uuid|
        uuid_version(commit_uuid) == 7 && Ok::<ActionCommitView, ErrorView>(commit)
            == #[trigger] action@.planned(table, snapshot_id, commit_uuid);
    law_append_planned_under_a_uuid(action@, table, snapshot_id, commit_uuid, commit);
}

/// The snapshot that an append adds begins with the manifests of the snapshot that the main
/// branch points to. Each of them is as it was; where it had row IDs, these are the same too.
pub proof fn law_append_keeps_the_current_snapshot(
    action: FastAppendAction,
    base: Option<i64>,
    table: TableView,
    current: int,
    snapshot_id: i64,
    commit: ActionCommitView,
    i: int,
)
    requires
        action.plans(base, table, snapshot_id, Ok(commit)),
        0 <= current < table.snapshots.len(),
        table.current_snapshot_id == Some(table.snapshots[current].snapshot_id),
        forall|j: int|
            0 <= j < current ==> (#[trigger] table.snapshots[j]).snapshot_id
                != table.snapshots[current].snapshot_id,
        0 <= i < table.snapshots[current].manifests.len(),
    ensures
        commit.updates[0] matches TableUpdateView::AddSnapshot { snapshot } && {
            let before = table.snapshots[current].manifests;
            &&& before.len() <= snapshot.manifests.len()
            &&& snapshot.manifests[i].content == before[i].content
            &&& snapshot.manifests[i].entries == before[i].entries
            &&& snapshot.manifests[i].existing_rows_count == before[i].existing_rows_count
            &&& snapshot.manifests[i].added_rows_count == before[i].added_rows_count
            &&& table.format_version == FormatVersion::V3 && before[i].content
                == ManifestContentType::Data && before[i].first_row_id is Some
                ==> snapshot.manifests[i].first_row_id == before[i].first_row_id
        },
{
    law_current_snapshot_is_where_main_points(table, current);
    law_append_plans(action, base, table, snapshot_id, commit);
    assert(commit.updates[0]->snapshot.manifests[i].content
        == table.current_manifests()[i].content);
}

/// An append can be planned exactly where each of its files is a data file of the table's default
/// partition spec with values that fit it, the rows of the files fit a count and, at version 3,
/// there are row IDs enough. Else the first file that does not pass decides, or the count, or the
/// row IDs.
pub proof fn law_append_planned_succeeds(
    action: FastAppendActionView,
    table: TableView,
    snapshot_id: i64,
    commit_uuid: Uuid,
)
    ensures
        ({
            let result = action.planned(table, snapshot_id, commit_uuid);
            let data_files = action.added_data_files;
            let rows = |sum: nat, file: DataFileView| sum + file.record_count;
            let owed = |sum: nat, manifest: ManifestFileView|
                if manifest.content == ManifestContentType::Data && manifest.first_row_id is None {
                    sum + manifest.existing_rows_count + manifest.added_rows_count
                } else {
                    sum
                };
            let data_files_pass = forall|i: int|
                0 <= i < data_files.len() ==> {
                    &&& (#[trigger] data_files[i]).content == DataContentType::Data
                    &&& data_files[i].partition_spec_id == table.default_partition_spec_id
                    &&& data_files[i].partition.len() == table.partition_type.len()
                    &&& forall|k: int|
                        0 <= k < data_files[i].partition.len()
                            ==> (#[trigger] data_files[i].partition[k] matches Some(value)
                                    ==> value.has_type(table.partition_type[k]))
                };
            let data_error = first_file_error(table, ManifestContentType::Data, data_files);
            let counts_fit = data_files.fold_left(0, rows) <= u64::MAX;
            let row_ids_fit = table.format_version == FormatVersion::V3 ==> table.next_row_id
                + table.current_manifests().fold_left(0, owed)
                + data_files.fold_left(0, rows) <= u64::MAX;
            &&& result is Ok
                <==> data_files_pass && counts_fit
                && row_ids_fit
            &&& !data_files_pass
                ==> (data_error matches Some(error) && result == Err::<
                    ActionCommitView,
                    ErrorView,
                    >(error))
            &&& data_files_pass && !counts_fit
                ==> result == Err::<ActionCommitView, ErrorView>(
                    ErrorView {
                        kind: ErrorKind::DataInvalid,
                        message: ROW_COUNT_OVERFLOW@,
                        retryable: false,
                    },
                )
            &&& data_files_pass && counts_fit && !row_ids_fit
                ==> result == Err::<ActionCommitView, ErrorView>(
                    ErrorView {
                        kind: ErrorKind::DataInvalid,
                        message: ROW_ID_OVERFLOW@,
                        retryable: false,
                    },
                )
        }),
{
    let producer = action.producer(table, snapshot_id, commit_uuid);
    lemma_files_pass(table, ManifestContentType::Data, action.added_data_files);
    law_producing_succeeds_where_the_rows_fit(
        producer,
        Operation::Append,
        table.current_manifests(),
        Seq::empty(),
    );
}

/// The same holds of whatever plan an append makes of its own accord.
pub proof fn law_append_plan_succeeds(
    action: FastAppendAction,
    base: Option<i64>,
    table: TableView,
    snapshot_id: i64,
    result: Result<ActionCommitView, ErrorView>,
)
    requires
        action.plans(base, table, snapshot_id, result),
    ensures
        ({
            let data_files = action@.added_data_files;
            let rows = |sum: nat, file: DataFileView| sum + file.record_count;
            let owed = |sum: nat, manifest: ManifestFileView|
                if manifest.content == ManifestContentType::Data && manifest.first_row_id is None {
                    sum + manifest.existing_rows_count + manifest.added_rows_count
                } else {
                    sum
                };
            let data_files_pass = forall|i: int|
                0 <= i < data_files.len() ==> {
                    &&& (#[trigger] data_files[i]).content == DataContentType::Data
                    &&& data_files[i].partition_spec_id == table.default_partition_spec_id
                    &&& data_files[i].partition.len() == table.partition_type.len()
                    &&& forall|k: int|
                        0 <= k < data_files[i].partition.len()
                            ==> (#[trigger] data_files[i].partition[k] matches Some(value)
                                    ==> value.has_type(table.partition_type[k]))
                };
            let data_error = first_file_error(table, ManifestContentType::Data, data_files);
            let counts_fit = data_files.fold_left(0, rows) <= u64::MAX;
            let row_ids_fit = table.format_version == FormatVersion::V3 ==> table.next_row_id
                + table.current_manifests().fold_left(0, owed)
                + data_files.fold_left(0, rows) <= u64::MAX;
            &&& result is Ok
                <==> data_files_pass && counts_fit
                && row_ids_fit
            &&& !data_files_pass
                ==> (data_error matches Some(error) && result == Err::<
                    ActionCommitView,
                    ErrorView,
                    >(error))
            &&& data_files_pass && !counts_fit
                ==> result == Err::<ActionCommitView, ErrorView>(
                    ErrorView {
                        kind: ErrorKind::DataInvalid,
                        message: ROW_COUNT_OVERFLOW@,
                        retryable: false,
                    },
                )
            &&& data_files_pass && counts_fit && !row_ids_fit
                ==> result == Err::<ActionCommitView, ErrorView>(
                    ErrorView {
                        kind: ErrorKind::DataInvalid,
                        message: ROW_ID_OVERFLOW@,
                        retryable: false,
                    },
                )
        }),
{
    let commit_uuid = choose|commit_uuid: Uuid|
        uuid_version(commit_uuid) == 7 && result
            == #[trigger] action@.planned(table, snapshot_id, commit_uuid);
    law_append_planned_succeeds(action@, table, snapshot_id, commit_uuid);
}

/// The table that an append was planned on takes it, unless the snapshot ID is in use. The snapshot
/// is added behind the others and is the current one. At version 3 the next row ID moves on by the
/// rows of the added files, and by those of current data manifests that had no row IDs, if there
/// are any.
pub proof fn law_append_is_taken(
    action: FastAppendAction,
    base: Option<i64>,
    table: TableView,
    snapshot_id: i64,
    commit: ActionCommitView,
)
    requires
        action.plans(base, table, snapshot_id, Ok(commit)),
        forall|i: int|
            0 <= i < table.snapshots.len() ==> (#[trigger] table.snapshots[i]).snapshot_id
                != snapshot_id,
    ensures
        ({
            let rows = |sum: nat, file: DataFileView| sum + file.record_count;
            let carried = table.current_manifests();
            let owed = |sum: nat, manifest: ManifestFileView|
                if manifest.content == ManifestContentType::Data && manifest.first_row_id is None {
                    sum + manifest.existing_rows_count + manifest.added_rows_count
                } else {
                    sum
                };
            let all_assigned = forall|i: int|
                0 <= i < carried.len() && (#[trigger] carried[i]).content
                    == ManifestContentType::Data ==> carried[i].first_row_id is Some;
            &&& commit.updates[0] matches TableUpdateView::AddSnapshot { snapshot }
            &&& table.committed(commit) matches Ok(after)
            &&& after.snapshots == table.snapshots.push(snapshot)
            &&& after.current_snapshot_id == Some(snapshot_id)
            &&& after.format_version == table.format_version
            &&& after.default_partition_spec_id == table.default_partition_spec_id
            &&& after.partition_type == table.partition_type
            &&& table.format_version == FormatVersion::V2
                ==> after.next_row_id == table.next_row_id
            &&& table.format_version == FormatVersion::V3
                ==> after.next_row_id == table.next_row_id
                + carried.fold_left(0, owed)
                + action@.added_data_files.fold_left(0, rows)
            &&& table.format_version == FormatVersion::V3 && all_assigned
                ==> after.next_row_id == table.next_row_id
                + action@.added_data_files.fold_left(0, rows)
        }),
{
    law_append_plans(action, base, table, snapshot_id, commit);
    law_append_plan_succeeds(action, base, table, snapshot_id, Ok(commit));
    let snapshot = commit.updates[0]->snapshot;
    assert(commit.updates =~= seq![
        TableUpdateView::AddSnapshot { snapshot },
        TableUpdateView::SetSnapshotRef { snapshot_id },
    ]);
    law_adding_commit_applies(table, snapshot, table.current_snapshot_id, commit);
    lemma_nothing_owed_where_assigned(table.current_manifests());
}

} // verus!
