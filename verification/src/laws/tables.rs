//! Tables: what each update and each commit does to one, and what it leaves alone.

use crate::error::{ErrorKind, ErrorView};
use crate::laws::manifests::lemma_rows_are_the_sum;
use crate::lineage::{row_ids_apart, FormatVersion};
use crate::manifest::{
    ManifestContentType, ManifestEntryView, ManifestFileView, ManifestStatus,
};
use crate::snapshot::SnapshotView;
use crate::table::{
    find_snapshot, ActionCommitView, TableRequirement, TableUpdateView, TableView,
    CANNOT_DOWNGRADE, NEXT_ROW_ID_OVERFLOW, REF_MOVED, ROW_RANGE_BEHIND, ROW_RANGE_MISSING,
    SNAPSHOT_EXISTS, SNAPSHOT_UNKNOWN,
};
use vstd::prelude::*;

verus! {

/// The snapshot found under an ID is the first in the list that has it.
pub proof fn law_found_snapshot_is_the_first(snapshots: Seq<SnapshotView>, id: i64, i: int)
    requires
        0 <= i < snapshots.len(),
        snapshots[i].snapshot_id == id,
        forall|j: int| 0 <= j < i ==> (#[trigger] snapshots[j]).snapshot_id != id,
    ensures
        find_snapshot(snapshots, id) == Some(snapshots[i]),
    decreases i,
{
    if i > 0 {
        let rest = snapshots.drop_first();
        assert forall|j: int| 0 <= j < i - 1 implies (#[trigger] rest[j]).snapshot_id != id by {
            assert(rest[j] == snapshots[j + 1]);
        }
        law_found_snapshot_is_the_first(rest, id, i - 1);
    }
}

/// Nothing is found under an ID that no snapshot has.
pub proof fn law_unknown_snapshot_is_not_found(snapshots: Seq<SnapshotView>, id: i64)
    requires
        forall|j: int|
            0 <= j < snapshots.len() ==> (#[trigger] snapshots[j]).snapshot_id != id,
    ensures
        find_snapshot(snapshots, id) is None,
    decreases snapshots.len(),
{
    if snapshots.len() > 0 {
        let rest = snapshots.drop_first();
        assert forall|j: int| 0 <= j < rest.len() implies (#[trigger] rest[j]).snapshot_id
            != id by {
            assert(rest[j] == snapshots[j + 1]);
        }
        law_unknown_snapshot_is_not_found(rest, id);
    }
}

/// The current snapshot of a table is the first that has the ID that the main branch points to,
/// and the current manifests are that snapshot's.
pub proof fn law_current_snapshot_is_where_main_points(table: TableView, i: int)
    requires
        0 <= i < table.snapshots.len(),
        table.current_snapshot_id == Some(table.snapshots[i].snapshot_id),
        forall|j: int|
            0 <= j < i ==> (#[trigger] table.snapshots[j]).snapshot_id
                != table.snapshots[i].snapshot_id,
    ensures
        table.current_snapshot() == Some(table.snapshots[i]),
        table.current_manifests() == table.snapshots[i].manifests,
{
    law_found_snapshot_is_the_first(table.snapshots, table.snapshots[i].snapshot_id, i);
}

/// A table whose main branch points nowhere, or to a snapshot that is not there, has no current
/// snapshot and no current manifests.
pub proof fn law_no_current_snapshot_without_main(table: TableView)
    requires
        forall|j: int|
            0 <= j < table.snapshots.len() ==> table.current_snapshot_id != Some(
                (#[trigger] table.snapshots[j]).snapshot_id,
            ),
    ensures
        table.current_snapshot() is None,
        table.current_manifests().len() == 0,
{
    if let Some(id) = table.current_snapshot_id {
        law_unknown_snapshot_is_not_found(table.snapshots, id);
    }
}

/// A table has a snapshot with an ID exactly where one of its snapshots has that ID.
pub proof fn law_table_has_the_snapshots_in_its_list(table: TableView, id: i64)
    ensures
        table.has_snapshot(id) <==> exists|i: int|
            0 <= i < table.snapshots.len() && (#[trigger] table.snapshots[i]).snapshot_id == id,
{
}

/// A snapshot is added behind those that are there, and all else but the next row ID stays as it
/// is. Before version 3 the next row ID stays too; from version 3 on it is the one behind the
/// snapshot's row range. A snapshot is turned down if its ID is taken. From version 3 on it is
/// also turned down if it has no row range, if its row range starts before the table's next row ID
/// or if no row ID is left behind the range. No retry mends these errors.
pub proof fn law_add_snapshot(table: TableView, snapshot: SnapshotView)
    ensures
        ({
            let result = table.updated(TableUpdateView::AddSnapshot { snapshot });
            let taken = exists|i: int|
                0 <= i < table.snapshots.len() && (#[trigger] table.snapshots[i]).snapshot_id
                    == snapshot.snapshot_id;
            &&& taken ==> result == Err::<TableView, ErrorView>(
                ErrorView {
                    kind: ErrorKind::DataInvalid,
                    message: SNAPSHOT_EXISTS@,
                    retryable: false,
                },
            )
            &&& !taken && table.format_version == FormatVersion::V2 ==> (result matches Ok(after)
                && after.snapshots == table.snapshots.push(snapshot) && after.next_row_id
                == table.next_row_id)
            &&& !taken && table.format_version == FormatVersion::V3 ==> match snapshot.row_range {
                None => result == Err::<TableView, ErrorView>(
                    ErrorView {
                        kind: ErrorKind::DataInvalid,
                        message: ROW_RANGE_MISSING@,
                        retryable: false,
                    },
                ),
                Some(range) => {
                    &&& range.first_row_id < table.next_row_id ==> result == Err::<
                        TableView,
                        ErrorView,
                    >(
                        ErrorView {
                            kind: ErrorKind::DataInvalid,
                            message: ROW_RANGE_BEHIND@,
                            retryable: false,
                        },
                    )
                    &&& table.next_row_id <= range.first_row_id && u64::MAX < range.first_row_id
                        + range.added_rows ==> result == Err::<TableView, ErrorView>(
                        ErrorView {
                            kind: ErrorKind::DataInvalid,
                            message: NEXT_ROW_ID_OVERFLOW@,
                            retryable: false,
                        },
                    )
                    &&& table.next_row_id <= range.first_row_id && range.first_row_id
                        + range.added_rows <= u64::MAX ==> (result matches Ok(after)
                        && after.snapshots == table.snapshots.push(snapshot) && after.next_row_id
                        == range.first_row_id + range.added_rows)
                },
            }
            &&& result matches Ok(after) ==> {
                &&& after.format_version == table.format_version
                &&& after.default_partition_spec_id == table.default_partition_spec_id
                &&& after.partition_type == table.partition_type
                &&& after.current_snapshot_id == table.current_snapshot_id
            }
        }),
{
}

/// The main branch goes to a snapshot that is there, and all else stays as it is. It does not go to
/// one that is not there, whatever retry follows.
pub proof fn law_set_main(table: TableView, id: i64)
    ensures
        ({
            let result = table.updated(TableUpdateView::SetSnapshotRef { snapshot_id: id });
            let there = exists|i: int|
                0 <= i < table.snapshots.len() && (#[trigger] table.snapshots[i]).snapshot_id == id;
            &&& there ==> (result matches Ok(after) && {
                &&& after.current_snapshot_id == Some(id)
                &&& after.snapshots == table.snapshots
                &&& after.next_row_id == table.next_row_id
                &&& after.format_version == table.format_version
                &&& after.default_partition_spec_id == table.default_partition_spec_id
                &&& after.partition_type == table.partition_type
            })
            &&& !there ==> result == Err::<TableView, ErrorView>(
                ErrorView {
                    kind: ErrorKind::DataInvalid,
                    message: SNAPSHOT_UNKNOWN@,
                    retryable: false,
                },
            )
        }),
{
}

/// Snapshots are removed by their IDs: the others stay, in their order. The main branch points
/// nowhere if its snapshot was removed, else where it pointed. All else stays as it is. No ID is
/// an error, not even one that no snapshot has.
pub proof fn law_remove_snapshots(table: TableView, ids: Seq<i64>)
    ensures
        table.updated(TableUpdateView::RemoveSnapshots { snapshot_ids: ids }) matches Ok(after) && {
            &&& after.snapshots == table.snapshots.filter(
                |s: SnapshotView| !ids.contains(s.snapshot_id),
            )
            &&& table.current_snapshot_id is None ==> after.current_snapshot_id is None
            &&& table.current_snapshot_id matches Some(id) ==> (ids.contains(id)
                ==> after.current_snapshot_id is None) && (!ids.contains(id)
                ==> after.current_snapshot_id == Some(id))
            &&& after.next_row_id == table.next_row_id
            &&& after.format_version == table.format_version
            &&& after.default_partition_spec_id == table.default_partition_spec_id
            &&& after.partition_type == table.partition_type
        },
{
}

/// A table goes to the format version that it has, and nothing changes. It goes from version 2 to
/// version 3, where its row IDs start at zero, and all else stays as it is. It does not go back.
pub proof fn law_upgrade_format_version(table: TableView, version: FormatVersion)
    ensures
        ({
            let result = table.updated(
                TableUpdateView::UpgradeFormatVersion { format_version: version },
            );
            &&& table.format_version == version ==> result == Ok::<TableView, ErrorView>(table)
            &&& table.format_version == FormatVersion::V2 && version == FormatVersion::V3 ==> (
            result matches Ok(after) && {
                &&& after.format_version == FormatVersion::V3
                &&& after.next_row_id == 0
                &&& after.snapshots == table.snapshots
                &&& after.current_snapshot_id == table.current_snapshot_id
                &&& after.default_partition_spec_id == table.default_partition_spec_id
                &&& after.partition_type == table.partition_type
            })
            &&& table.format_version == FormatVersion::V3 && version == FormatVersion::V2
                ==> result == Err::<TableView, ErrorView>(
                ErrorView {
                    kind: ErrorKind::DataInvalid,
                    message: CANNOT_DOWNGRADE@,
                    retryable: false,
                },
            )
        }),
{
}

/// Updates are made one after the other, each on what the one before it left; the first error ends
/// them. No update leaves the table as it is.
pub proof fn law_updates_follow_one_another(
    table: TableView,
    updates: Seq<TableUpdateView>,
    last: TableUpdateView,
)
    ensures
        table.updated_all(Seq::empty()) == Ok::<TableView, ErrorView>(table),
        table.updated_all(updates.push(last)) == (match table.updated_all(updates) {
            Ok(before) => before.updated(last),
            Err(error) => Err(error),
        }),
{
    assert(updates.push(last).drop_last() =~= updates);
}

/// A table takes a commit's updates exactly where its main branch is at each of the snapshots that
/// the commit requires it to be at. Where it is not, the table takes none of them, and the error
/// says that a fresh attempt may succeed. A commit that requires nothing is not turned down for
/// the main branch.
pub proof fn law_commit_is_taken_where_main_is_required(table: TableView, commit: ActionCommitView)
    ensures
        (forall|i: int|
            0 <= i < commit.requirements.len() ==> (#[trigger] commit.requirements[i] matches
            TableRequirement::RefSnapshotIdMatch { snapshot_id } && snapshot_id
                == table.current_snapshot_id)) ==> table.committed(commit) == table.updated_all(
            commit.updates,
        ),
        (exists|i: int|
            0 <= i < commit.requirements.len() && (#[trigger] commit.requirements[i] matches
            TableRequirement::RefSnapshotIdMatch { snapshot_id } && snapshot_id
                != table.current_snapshot_id)) ==> table.committed(commit) == Err::<
            TableView,
            ErrorView,
        >(
            ErrorView {
                kind: ErrorKind::CatalogCommitConflicts,
                message: REF_MOVED@,
                retryable: true,
            },
        ),
{
    if forall|i: int|
        0 <= i < commit.requirements.len() ==> (#[trigger] commit.requirements[i] matches
        TableRequirement::RefSnapshotIdMatch { snapshot_id } && snapshot_id
            == table.current_snapshot_id) {
        assert(table.meets_all(commit.requirements));
    }
    if exists|i: int|
        0 <= i < commit.requirements.len() && (#[trigger] commit.requirements[i] matches
        TableRequirement::RefSnapshotIdMatch { snapshot_id } && snapshot_id
            != table.current_snapshot_id) {
        let i = choose|i: int|
            0 <= i < commit.requirements.len() && (#[trigger] commit.requirements[i] matches
            TableRequirement::RefSnapshotIdMatch { snapshot_id } && snapshot_id
                != table.current_snapshot_id);
        assert(!table.meets(commit.requirements[i]));
    }
}

/// A commit that adds a snapshot and points the main branch to it is taken by a table whose main
/// branch is where the commit requires it, if the snapshot's ID is free and, at version 3, its row
/// range starts at or behind the next row ID and leaves a row ID behind. The snapshot then stands
/// behind the others, the main branch points to it, and at version 3 the next row ID is the one
/// behind the range. All else stays as it is.
pub proof fn law_adding_commit_applies(
    table: TableView,
    snapshot: SnapshotView,
    required: Option<i64>,
    commit: ActionCommitView,
)
    requires
        commit.updates == seq![
            TableUpdateView::AddSnapshot { snapshot },
            TableUpdateView::SetSnapshotRef { snapshot_id: snapshot.snapshot_id },
        ],
        commit.requirements == seq![
            TableRequirement::RefSnapshotIdMatch { snapshot_id: required },
        ],
    ensures
        required != table.current_snapshot_id ==> table.committed(commit) == Err::<
            TableView,
            ErrorView,
        >(
            ErrorView {
                kind: ErrorKind::CatalogCommitConflicts,
                message: REF_MOVED@,
                retryable: true,
            },
        ),
        required == table.current_snapshot_id && (forall|i: int|
            0 <= i < table.snapshots.len() ==> (#[trigger] table.snapshots[i]).snapshot_id
                != snapshot.snapshot_id) && (table.format_version == FormatVersion::V3 ==> (
        snapshot.row_range matches Some(range) && table.next_row_id <= range.first_row_id
            && range.first_row_id + range.added_rows <= u64::MAX)) ==> (table.committed(
            commit,
        ) matches Ok(after) && {
            &&& after.snapshots == table.snapshots.push(snapshot)
            &&& after.current_snapshot_id == Some(snapshot.snapshot_id)
            &&& after.next_row_id == (match (table.format_version, snapshot.row_range) {
                (FormatVersion::V3, Some(range)) => range.first_row_id + range.added_rows,
                _ => table.next_row_id,
            })
            &&& after.format_version == table.format_version
            &&& after.default_partition_spec_id == table.default_partition_spec_id
            &&& after.partition_type == table.partition_type
        }),
{
    let add = TableUpdateView::AddSnapshot { snapshot };
    let set = TableUpdateView::SetSnapshotRef { snapshot_id: snapshot.snapshot_id };
    law_commit_is_taken_where_main_is_required(table, commit);
    assert(commit.requirements[0] == (TableRequirement::RefSnapshotIdMatch {
        snapshot_id: required,
    }));
    assert(Seq::empty().push(add) =~= seq![add]);
    assert(seq![add].push(set) =~= commit.updates);
    law_updates_follow_one_another(table, Seq::empty(), add);
    law_updates_follow_one_another(table, seq![add], set);
    law_add_snapshot(table, snapshot);
    if let Ok(added) = table.updated(add) {
        assert(added.snapshots[table.snapshots.len() as int] == snapshot);
        law_set_main(added, snapshot.snapshot_id);
    }
}

/// Manifests that have their row IDs are owed none.
pub(crate) proof fn lemma_nothing_owed_where_assigned(manifests: Seq<ManifestFileView>)
    ensures
        (forall|i: int|
            0 <= i < manifests.len() && (#[trigger] manifests[i]).content
                == ManifestContentType::Data ==> manifests[i].first_row_id is Some)
            ==> manifests.fold_left(
            0,
            |sum: nat, manifest: ManifestFileView|
                if manifest.content == ManifestContentType::Data
                    && manifest.first_row_id is None {
                    sum + manifest.existing_rows_count + manifest.added_rows_count
                } else {
                    sum
                },
        ) == 0,
    decreases manifests.len(),
{
    if manifests.len() > 0 && (forall|i: int|
        0 <= i < manifests.len() && (#[trigger] manifests[i]).content == ManifestContentType::Data
            ==> manifests[i].first_row_id is Some) {
        let front = manifests.drop_last();
        assert forall|i: int|
            0 <= i < front.len() && (#[trigger] front[i]).content
                == ManifestContentType::Data implies front[i].first_row_id is Some by {
            assert(front[i] == manifests[i]);
        }
        assert(manifests.last() == manifests[manifests.len() - 1]);
        lemma_nothing_owed_where_assigned(front);
    }
}

/// A well-formed table: its snapshots have IDs of their own, and its main branch points to one of
/// them or nowhere. Each manifest counts the rows of its entries. Before version 3 no snapshot has
/// row IDs. From version 3 on, in each snapshot, the row IDs of the manifests are below the table's
/// next row ID and apart from one another, delete manifests have none, and a snapshot with a row
/// range has row IDs for all its data manifests.
pub proof fn law_well_formed_table(table: TableView, k: int, i: int, j: int)
    requires
        table.wf(),
        0 <= k < table.snapshots.len(),
        0 <= i < table.snapshots[k].manifests.len(),
        0 <= j < table.snapshots[k].manifests.len(),
    ensures
        table.next_row_id <= u64::MAX,
        forall|l: int|
            0 <= l < table.snapshots.len() && l != k ==> (
            #[trigger] table.snapshots[l]).snapshot_id != table.snapshots[k].snapshot_id,
        table.current_snapshot_id matches Some(id) ==> exists|l: int|
            0 <= l < table.snapshots.len() && (#[trigger] table.snapshots[l]).snapshot_id == id,
        ({
            let snapshot = table.snapshots[k];
            let left = snapshot.manifests[i];
            let right = snapshot.manifests[j];
            &&& left.added_rows_count == left.entries.fold_left(
                0,
                |sum: nat, entry: ManifestEntryView|
                    if entry.status == ManifestStatus::Added {
                        sum + entry.data_file.record_count
                    } else {
                        sum
                    },
            )
            &&& left.existing_rows_count == left.entries.fold_left(
                0,
                |sum: nat, entry: ManifestEntryView|
                    if entry.status == ManifestStatus::Existing {
                        sum + entry.data_file.record_count
                    } else {
                        sum
                    },
            )
            &&& table.format_version == FormatVersion::V2 ==> snapshot.row_range is None
                && left.first_row_id is None
            &&& left.first_row_id matches Some(first) ==> {
                &&& left.content == ManifestContentType::Data
                &&& first + left.existing_rows_count + left.added_rows_count <= table.next_row_id
                &&& right.first_row_id matches Some(second) ==> i == j || first
                    + left.existing_rows_count + left.added_rows_count <= second || second
                    + right.existing_rows_count + right.added_rows_count <= first
            }
            &&& snapshot.row_range matches Some(range) ==> {
                &&& range.first_row_id + range.added_rows <= table.next_row_id
                &&& left.content == ManifestContentType::Data ==> left.first_row_id is Some
            }
        }),
{
    let snapshot = table.snapshots[k];
    assert(table.admits(table.snapshots[k]));
    assert forall|l: int| 0 <= l < table.snapshots.len() && l != k implies (
    #[trigger] table.snapshots[l]).snapshot_id != table.snapshots[k].snapshot_id by {
        if l < k {
            assert(table.snapshots[l].snapshot_id != table.snapshots[k].snapshot_id);
        } else {
            assert(table.snapshots[k].snapshot_id != table.snapshots[l].snapshot_id);
        }
    }
    assert(snapshot.manifests[i].counts_agree());
    lemma_rows_are_the_sum(
        snapshot.manifests[i].entries,
        ManifestStatus::Added,
        |sum: nat, entry: ManifestEntryView|
            if entry.status == ManifestStatus::Added {
                sum + entry.data_file.record_count
            } else {
                sum
            },
    );
    lemma_rows_are_the_sum(
        snapshot.manifests[i].entries,
        ManifestStatus::Existing,
        |sum: nat, entry: ManifestEntryView|
            if entry.status == ManifestStatus::Existing {
                sum + entry.data_file.record_count
            } else {
                sum
            },
    );
    if i != j {
        assert(row_ids_apart(snapshot.manifests[i], snapshot.manifests[j]));
    }
}

} // verus!
