//! What a producer of snapshots makes.

use crate::data_file::DataFileView;
use crate::error::{ErrorKind, ErrorView};
use crate::laws::lists::lemma_owed_is_the_sum;
use crate::laws::manifests::{lemma_new_rows_are_the_sum, lemma_rows_are_the_sum};
use crate::lineage::{
    listed, owed, owed_before, FormatVersion, RowRangeView,
    ROW_ID_OVERFLOW,
};
use crate::manifest::{
    added_entries, manifest_of, rows_of, ManifestContentType, ManifestEntryView, ManifestFileView,
    ManifestStatus, ROW_COUNT_OVERFLOW,
};
use crate::snapshot::Operation;
use crate::table::{ActionCommitView, TableRequirement, TableUpdateView};
use crate::transaction::snapshot_producer::{manifests_of, SnapshotProducerView};
use vstd::prelude::*;

verus! {

/// What the first manifests are owed does not depend on those behind them.
proof fn lemma_owed_of_front(left: Seq<ManifestFileView>, right: Seq<ManifestFileView>, n: int)
    requires
        0 <= n <= left.len(),
    ensures
        owed_before(left + right, n) == owed_before(left, n),
    decreases n,
{
    if n > 0 {
        lemma_owed_of_front(left, right, n - 1);
    }
}

/// What two lists of manifests are owed adds up.
proof fn lemma_owed_of_both(left: Seq<ManifestFileView>, right: Seq<ManifestFileView>, n: int)
    requires
        0 <= n <= right.len(),
    ensures
        owed_before(left + right, left.len() + n) == owed(left) + owed_before(right, n),
    decreases n,
{
    if n == 0 {
        lemma_owed_of_front(left, right, left.len() as int);
    } else {
        lemma_owed_of_both(left, right, n - 1);
    }
}

/// What the manifest of entries, if there is one, is owed.
proof fn lemma_owed_of_new(content: ManifestContentType, entries: Seq<ManifestEntryView>)
    ensures
        owed(manifests_of(content, entries)) == (match content {
            ManifestContentType::Data => rows_of(entries, ManifestStatus::Existing) + rows_of(
                entries,
                ManifestStatus::Added,
            ),
            ManifestContentType::Deletes => 0,
        }),
{
    reveal_with_fuel(owed_before, 2);
}

/// The manifests that a producer writes to the list, one by one.
proof fn lemma_written_manifests(
    producer: SnapshotProducerView,
    carried: Seq<ManifestFileView>,
    deletes: Seq<ManifestEntryView>,
)
    ensures
        ({
            let data = added_entries(producer.added_data_files);
            let delete = added_entries(producer.added_delete_files);
            let all = producer.manifests(carried, deletes);
            let at_deletes: int = carried.len() + if data.len() > 0 {
                1int
            } else {
                0
            };
            let at_marked: int = at_deletes + if delete.len() > 0 {
                1int
            } else {
                0
            };
            &&& all.len() == at_marked + if deletes.len() > 0 {
                1int
            } else {
                0
            }
            &&& forall|i: int| 0 <= i < carried.len() ==> #[trigger] all[i] == carried[i]
            &&& data.len() > 0 ==> all[carried.len() as int] == manifest_of(
                ManifestContentType::Data,
                data,
            )
            &&& delete.len() > 0 ==> all[at_deletes] == manifest_of(
                ManifestContentType::Deletes,
                delete,
            )
            &&& deletes.len() > 0 ==> all[at_marked] == manifest_of(
                ManifestContentType::Data,
                deletes,
            )
            &&& forall|i: int|
                0 <= i <= carried.len() ==> #[trigger] owed_before(all, i) == owed_before(
                    carried,
                    i,
                )
            &&& owed_before(all, at_marked) == owed(carried) + rows_of(
                data,
                ManifestStatus::Existing,
            ) + rows_of(data, ManifestStatus::Added)
            &&& owed(all) == owed_before(all, at_marked) + rows_of(
                deletes,
                ManifestStatus::Existing,
            ) + rows_of(deletes, ManifestStatus::Added)
        }),
{
    let data = manifests_of(ManifestContentType::Data, added_entries(producer.added_data_files));
    let delete = manifests_of(
        ManifestContentType::Deletes,
        added_entries(producer.added_delete_files),
    );
    let marked = manifests_of(ManifestContentType::Data, deletes);
    let all = producer.manifests(carried, deletes);
    lemma_owed_of_new(ManifestContentType::Data, added_entries(producer.added_data_files));
    lemma_owed_of_new(ManifestContentType::Deletes, added_entries(producer.added_delete_files));
    lemma_owed_of_new(ManifestContentType::Data, deletes);
    assert(all =~= carried + (data + delete + marked));
    assert forall|i: int| 0 <= i <= carried.len() implies #[trigger] owed_before(all, i)
        == owed_before(carried, i) by {
        lemma_owed_of_front(carried, data + delete + marked, i);
    }
    let front = carried + data + delete;
    assert(all =~= front + marked);
    lemma_owed_of_both(carried, data, data.len() as int);
    lemma_owed_of_both(carried + data, delete, delete.len() as int);
    lemma_owed_of_front(front, marked, front.len() as int);
    lemma_owed_of_both(front, marked, marked.len() as int);
}

/// A snapshot that is produced for a table goes to the table in two updates: it is added, and the
/// main branch is pointed to it, provided that the main branch is still where it was. The snapshot
/// has the ID, the commit UUID and the properties that the producer was given. Its manifests are
/// those that are carried, with their contents, entries and counts as they were, then one of the
/// data files, one of the delete files and one of the entries that are marked deleted, as far as
/// there are any. New files have an entry each, in their order, and their rows are counted.
pub proof fn law_produced_snapshot(
    producer: SnapshotProducerView,
    operation: Operation,
    carried: Seq<ManifestFileView>,
    deletes: Seq<ManifestEntryView>,
    commit: ActionCommitView,
)
    requires
        producer.produced(operation, carried, deletes) == Ok::<ActionCommitView, ErrorView>(commit),
    ensures
        ({
            let data_files = producer.added_data_files;
            let delete_files = producer.added_delete_files;
            let rows = |sum: nat, file: DataFileView| sum + file.record_count;
            let owed = |sum: nat, manifest: ManifestFileView|
                if manifest.content == ManifestContentType::Data && manifest.first_row_id is None {
                    sum + manifest.existing_rows_count + manifest.added_rows_count
                } else {
                    sum
                };
            let added = |sum: nat, entry: ManifestEntryView|
                if entry.status == ManifestStatus::Added {
                    sum + entry.data_file.record_count
                } else {
                    sum
                };
            let existing = |sum: nat, entry: ManifestEntryView|
                if entry.status == ManifestStatus::Existing {
                    sum + entry.data_file.record_count
                } else {
                    sum
                };
            let at_data: int = carried.len() as int;
            let at_deletes: int = at_data + if data_files.len() > 0 {
                1int
            } else {
                0
            };
            let at_marked: int = at_deletes + if delete_files.len() > 0 {
                1int
            } else {
                0
            };
            &&& commit.updates.len() == 2
            &&& commit.updates[1] == (TableUpdateView::SetSnapshotRef {
                snapshot_id: producer.snapshot_id,
            })
            &&& commit.requirements == seq![
                TableRequirement::RefSnapshotIdMatch {
                    snapshot_id: producer.table.current_snapshot_id,
                },
            ]
            &&& commit.updates[0] matches TableUpdateView::AddSnapshot { snapshot } && {
                &&& snapshot.snapshot_id == producer.snapshot_id
                &&& snapshot.operation == operation
                &&& snapshot.commit_uuid == producer.commit_uuid
                &&& snapshot.properties == producer.snapshot_properties
                &&& snapshot.manifests.len() == at_marked + if deletes.len() > 0 {
                    1int
                } else {
                    0
                }
                &&& forall|i: int|
                    0 <= i < carried.len() ==> {
                        &&& (#[trigger] snapshot.manifests[i]).content == carried[i].content
                        &&& snapshot.manifests[i].entries == carried[i].entries
                        &&& snapshot.manifests[i].existing_rows_count
                            == carried[i].existing_rows_count
                        &&& snapshot.manifests[i].added_rows_count == carried[i].added_rows_count
                    }
                &&& data_files.len() > 0 ==> {
                    let manifest = snapshot.manifests[at_data];
                    &&& manifest.content == ManifestContentType::Data
                    &&& manifest.entries.len() == data_files.len()
                    &&& forall|j: int|
                        0 <= j < data_files.len() ==> manifest.entries[j] == (ManifestEntryView {
                            status: ManifestStatus::Added,
                            data_file: DataFileView {
                                first_row_id: None,
                                ..#[trigger] data_files[j]
                            },
                        })
                    &&& manifest.existing_rows_count == 0
                    &&& manifest.added_rows_count == data_files.fold_left(0, rows)
                }
                &&& delete_files.len() > 0 ==> {
                    let manifest = snapshot.manifests[at_deletes];
                    &&& manifest.content == ManifestContentType::Deletes
                    &&& manifest.entries.len() == delete_files.len()
                    &&& forall|j: int|
                        0 <= j < delete_files.len() ==> manifest.entries[j] == (ManifestEntryView {
                            status: ManifestStatus::Added,
                            data_file: DataFileView {
                                first_row_id: None,
                                ..#[trigger] delete_files[j]
                            },
                        })
                    &&& manifest.existing_rows_count == 0
                    &&& manifest.added_rows_count == delete_files.fold_left(0, rows)
                }
                &&& deletes.len() > 0 ==> {
                    let manifest = snapshot.manifests[at_marked];
                    &&& manifest.content == ManifestContentType::Data
                    &&& manifest.entries == deletes
                    &&& manifest.existing_rows_count == deletes.fold_left(0, existing)
                    &&& manifest.added_rows_count == deletes.fold_left(0, added)
                }
            }
        }),
{
    let rows = |sum: nat, file: DataFileView| sum + file.record_count;
    let added = |sum: nat, entry: ManifestEntryView|
        if entry.status == ManifestStatus::Added {
            sum + entry.data_file.record_count
        } else {
            sum
        };
    let existing = |sum: nat, entry: ManifestEntryView|
        if entry.status == ManifestStatus::Existing {
            sum + entry.data_file.record_count
        } else {
            sum
        };
    lemma_written_manifests(producer, carried, deletes);
    lemma_new_rows_are_the_sum(producer.added_data_files, rows);
    lemma_new_rows_are_the_sum(producer.added_delete_files, rows);
    lemma_rows_are_the_sum(deletes, ManifestStatus::Added, added);
    lemma_rows_are_the_sum(deletes, ManifestStatus::Existing, existing);
    let all = producer.manifests(carried, deletes);
    assert(commit.updates[0]->snapshot.manifests == listed(
        producer.table.format_version,
        all,
        producer.table.next_row_id,
    ));
}

/// Row IDs are handed out at version 3 only. There a manifest of a produced snapshot that holds
/// data and came with row IDs keeps them. One that came without gets one for each row that it
/// counts, existing or added, in the order of the list and without a gap. The snapshot's row range
/// is made of these.
pub proof fn law_produced_row_ids(
    producer: SnapshotProducerView,
    operation: Operation,
    carried: Seq<ManifestFileView>,
    deletes: Seq<ManifestEntryView>,
    commit: ActionCommitView,
)
    requires
        producer.produced(operation, carried, deletes) == Ok::<ActionCommitView, ErrorView>(commit),
    ensures
        ({
            let data_files = producer.added_data_files;
            let delete_files = producer.added_delete_files;
            let rows = |sum: nat, file: DataFileView| sum + file.record_count;
            let owed = |sum: nat, manifest: ManifestFileView|
                if manifest.content == ManifestContentType::Data && manifest.first_row_id is None {
                    sum + manifest.existing_rows_count + manifest.added_rows_count
                } else {
                    sum
                };
            let added = |sum: nat, entry: ManifestEntryView|
                if entry.status == ManifestStatus::Added {
                    sum + entry.data_file.record_count
                } else {
                    sum
                };
            let existing = |sum: nat, entry: ManifestEntryView|
                if entry.status == ManifestStatus::Existing {
                    sum + entry.data_file.record_count
                } else {
                    sum
                };
            let at_data: int = carried.len() as int;
            let at_deletes: int = at_data + if data_files.len() > 0 {
                1int
            } else {
                0
            };
            let at_marked: int = at_deletes + if delete_files.len() > 0 {
                1int
            } else {
                0
            };
            &&& commit.updates[0] matches TableUpdateView::AddSnapshot { snapshot } && {
                &&& producer.table.format_version == FormatVersion::V2 ==> {
                    &&& snapshot.row_range is None
                    &&& forall|i: int|
                        0 <= i < snapshot.manifests.len()
                            ==> (#[trigger] snapshot.manifests[i]).first_row_id is None
                }
                &&& producer.table.format_version == FormatVersion::V3 ==> {
                    &&& snapshot.row_range == Some(
                        RowRangeView {
                            first_row_id: producer.table.next_row_id,
                            added_rows: carried.fold_left(0, owed)
                                + data_files.fold_left(0, rows)
                                + deletes.fold_left(0, existing)
                                + deletes.fold_left(0, added),
                        },
                    )
                    &&& forall|i: int|
                        0 <= i < carried.len() ==> (#[trigger] snapshot.manifests[i]).first_row_id
                            == (match (carried[i].content, carried[i].first_row_id) {
                                (ManifestContentType::Deletes, _) => None,
                                (ManifestContentType::Data, Some(kept)) => Some(kept),
                                (ManifestContentType::Data, None) => Some(
                                    producer.table.next_row_id + carried.take(i).fold_left(0, owed),
                                ),
                            })
                    &&& data_files.len() > 0
                        ==> snapshot.manifests[at_data].first_row_id == Some(
                            producer.table.next_row_id + carried.fold_left(0, owed),
                        )
                    &&& delete_files.len() > 0
                        ==> snapshot.manifests[at_deletes].first_row_id is None
                    &&& deletes.len() > 0
                        ==> snapshot.manifests[at_marked].first_row_id == Some(
                            producer.table.next_row_id + carried.fold_left(0, owed)
                                + data_files.fold_left(0, rows),
                        )
                }
            }
        }),
{
    let rows = |sum: nat, file: DataFileView| sum + file.record_count;
    let owed_step = |sum: nat, manifest: ManifestFileView|
        if manifest.content == ManifestContentType::Data && manifest.first_row_id is None {
            sum + manifest.existing_rows_count + manifest.added_rows_count
        } else {
            sum
        };
    let added = |sum: nat, entry: ManifestEntryView|
        if entry.status == ManifestStatus::Added {
            sum + entry.data_file.record_count
        } else {
            sum
        };
    let existing = |sum: nat, entry: ManifestEntryView|
        if entry.status == ManifestStatus::Existing {
            sum + entry.data_file.record_count
        } else {
            sum
        };
    lemma_written_manifests(producer, carried, deletes);
    lemma_new_rows_are_the_sum(producer.added_data_files, rows);
    lemma_new_rows_are_the_sum(producer.added_delete_files, rows);
    lemma_rows_are_the_sum(deletes, ManifestStatus::Added, added);
    lemma_rows_are_the_sum(deletes, ManifestStatus::Existing, existing);
    let all = producer.manifests(carried, deletes);
    assert(commit.updates[0]->snapshot.manifests == listed(
        producer.table.format_version,
        all,
        producer.table.next_row_id,
    ));
    assert(carried.take(carried.len() as int) =~= carried);
    lemma_owed_is_the_sum(carried, carried.len() as int, owed_step);
    assert forall|i: int| 0 <= i < carried.len() implies owed_before(all, i)
        == #[trigger] carried.take(i).fold_left(0, owed_step) by {
        lemma_owed_is_the_sum(carried, i, owed_step);
    }
    assert(owed_before(all, carried.len() as int) == owed(carried));
}

/// A snapshot is produced exactly where the row counts of each new manifest fit and, at version 3,
/// there are row IDs enough for the manifests that come without: for those that are carried, for
/// that of the data files and for that of the entries that are marked deleted. No retry mends the
/// errors that come where they do not.
pub proof fn law_producing_succeeds_where_the_rows_fit(
    producer: SnapshotProducerView,
    operation: Operation,
    carried: Seq<ManifestFileView>,
    deletes: Seq<ManifestEntryView>,
)
    ensures
        ({
            let result = producer.produced(operation, carried, deletes);
            let rows = |sum: nat, file: DataFileView| sum + file.record_count;
            let owed = |sum: nat, manifest: ManifestFileView|
                if manifest.content == ManifestContentType::Data && manifest.first_row_id is None {
                    sum + manifest.existing_rows_count + manifest.added_rows_count
                } else {
                    sum
                };
            let added = |sum: nat, entry: ManifestEntryView|
                if entry.status == ManifestStatus::Added {
                    sum + entry.data_file.record_count
                } else {
                    sum
                };
            let existing = |sum: nat, entry: ManifestEntryView|
                if entry.status == ManifestStatus::Existing {
                    sum + entry.data_file.record_count
                } else {
                    sum
                };
            let data_rows = producer.added_data_files.fold_left(0, rows);
            let delete_rows = producer.added_delete_files.fold_left(0, rows);
            let added_rows = deletes.fold_left(0, added);
            let existing_rows = deletes.fold_left(0, existing);
            let counts_fit = data_rows <= u64::MAX && delete_rows <= u64::MAX && added_rows
                <= u64::MAX && existing_rows <= u64::MAX;
            let row_ids_fit = producer.table.format_version == FormatVersion::V3
                ==> producer.table.next_row_id + carried.fold_left(0, owed) + data_rows
                + existing_rows + added_rows <= u64::MAX;
            &&& result is Ok <==> counts_fit && row_ids_fit
            &&& !counts_fit ==> result == Err::<ActionCommitView, ErrorView>(
                ErrorView {
                    kind: ErrorKind::DataInvalid,
                    message: ROW_COUNT_OVERFLOW@,
                    retryable: false,
                },
            )
            &&& counts_fit && !row_ids_fit ==> result == Err::<ActionCommitView, ErrorView>(
                ErrorView {
                    kind: ErrorKind::DataInvalid,
                    message: ROW_ID_OVERFLOW@,
                    retryable: false,
                },
            )
        }),
{
    let rows = |sum: nat, file: DataFileView| sum + file.record_count;
    let owed_step = |sum: nat, manifest: ManifestFileView|
        if manifest.content == ManifestContentType::Data && manifest.first_row_id is None {
            sum + manifest.existing_rows_count + manifest.added_rows_count
        } else {
            sum
        };
    let added = |sum: nat, entry: ManifestEntryView|
        if entry.status == ManifestStatus::Added {
            sum + entry.data_file.record_count
        } else {
            sum
        };
    let existing = |sum: nat, entry: ManifestEntryView|
        if entry.status == ManifestStatus::Existing {
            sum + entry.data_file.record_count
        } else {
            sum
        };
    lemma_written_manifests(producer, carried, deletes);
    lemma_new_rows_are_the_sum(producer.added_data_files, rows);
    lemma_new_rows_are_the_sum(producer.added_delete_files, rows);
    lemma_rows_are_the_sum(deletes, ManifestStatus::Added, added);
    lemma_rows_are_the_sum(deletes, ManifestStatus::Existing, existing);
    assert(carried.take(carried.len() as int) =~= carried);
    lemma_owed_is_the_sum(carried, carried.len() as int, owed_step);
}

} // verus!
