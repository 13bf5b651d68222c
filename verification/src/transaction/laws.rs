//! What holds of tables, snapshots and commits throughout.

use crate::error::{conflict, ErrorView};
use crate::lineage::{
    all_assigned, assignments_in_order, has_row_id, lemma_listed_in_order, lemma_owed_monotone,
    listed, none_assigned, owed, owed_before, owed_rows, FormatVersion, RowRangeView,
};
use crate::manifest::{added_entries, ManifestContentType, ManifestFileView, ManifestStatus};
use crate::snapshot::{Operation, SnapshotView};
use crate::table::{
    find_snapshot, lemma_find_snapshot, without_snapshots, ActionCommitView, TableUpdateView,
    TableView, REF_MOVED,
};
use crate::transaction::attempts::{after_plan, leads_to, CommitEventView, CommitStepView};
use crate::transaction::fast_append::FastAppendAction;
use crate::transaction::remove_snapshots::removal;
use crate::transaction::rewrite_files::{
    moved_since_read, RewriteFilesAction, RewriteFilesActionView,
};
use crate::transaction::row_delta::{RowDeltaAction, RowDeltaActionView};
use crate::transaction::snapshot_producer::{manifests_of, SnapshotProducerView};
use crate::transaction::upgrade_format_version::upgrade;
use crate::transaction::TransactionAction;
use uuid::Uuid;
use vstd::prelude::*;

verus! {

/// Whether the producer makes the commit on the table, and carries `carried` forward: nothing, or
/// all the manifests of the table's current snapshot.
pub open spec fn makes(
    producer: SnapshotProducerView,
    operation: Operation,
    carried: Seq<ManifestFileView>,
    table: TableView,
    commit: ActionCommitView,
) -> bool {
    &&& producer.table == table
    &&& carried == Seq::<ManifestFileView>::empty() || carried == table.current_manifests()
    &&& producer.produced(operation, carried, Seq::empty()) == Ok::<ActionCommitView, ErrorView>(
        commit,
    )
}

/// Whether the commit is one that adds a snapshot to the table.
pub open spec fn is_snapshot_commit(table: TableView, commit: ActionCommitView) -> bool {
    exists|
        producer: SnapshotProducerView,
        operation: Operation,
        carried: Seq<ManifestFileView>,
    |
        makes(producer, operation, carried, table, commit)
}

/// The snapshot that a commit adds.
pub open spec fn added_snapshot(commit: ActionCommitView) -> SnapshotView {
    commit.updates[0]->snapshot
}

/// The manifests that go into the snapshot's manifest list are in order.
proof fn lemma_manifests_in_order(
    producer: SnapshotProducerView,
    carried: Seq<ManifestFileView>,
    table: TableView,
)
    requires
        table.wf(),
        producer.table == table,
        carried == Seq::<ManifestFileView>::empty() || carried == table.current_manifests(),
    ensures
        table.format_version == FormatVersion::V3 ==> assignments_in_order(
            producer.manifests(carried, Seq::empty()),
            table.next_row_id,
        ),
        forall|i: int|
            0 <= i < producer.manifests(carried, Seq::empty()).len() ==> (
            #[trigger] producer.manifests(carried, Seq::empty())[i]).counts_agree(),
{
    lemma_current_manifests(table);
    let fresh = producer.new_manifests(Seq::empty());
    let all = producer.manifests(carried, Seq::empty());
    assert forall|i: int| 0 <= i < fresh.len() implies (#[trigger] fresh[i]).first_row_id is None
        && fresh[i].counts_agree() by {}
    assert forall|i: int| 0 <= i < all.len() implies #[trigger] all[i] == (if i < carried.len() {
        carried[i]
    } else {
        fresh[i - carried.len()]
    }) by {}
}

/// The current snapshot of a well-formed table may stand in it.
proof fn lemma_current_manifests(table: TableView)
    requires
        table.wf(),
    ensures
        table.format_version == FormatVersion::V3 ==> assignments_in_order(
            table.current_manifests(),
            table.next_row_id,
        ),
        forall|i: int|
            0 <= i < table.current_manifests().len() ==> (
            #[trigger] table.current_manifests()[i]).counts_agree(),
{
    if let Some(id) = table.current_snapshot_id {
        lemma_find_snapshot(table.snapshots, id);
        if let Some(snapshot) = find_snapshot(table.snapshots, id) {
            let i = choose|i: int|
                0 <= i < table.snapshots.len() && table.snapshots[i] == snapshot;
            assert(table.admits(table.snapshots[i]));
        }
    }
}

/// The two updates of a commit that adds a snapshot, one after the other.
proof fn lemma_two_updates(table: TableView, first: TableUpdateView, second: TableUpdateView)
    ensures
        table.updated_all(seq![first, second]) == (match table.updated(first) {
            Ok(next) => next.updated(second),
            Err(error) => Err(error),
        }),
{
    reveal_with_fuel(TableView::updated_all, 3);
    assert(seq![first, second].drop_last() =~= seq![first]);
    assert(seq![first].drop_last() =~= Seq::empty());
}

/// One update.
proof fn lemma_one_update(table: TableView, update: TableUpdateView)
    ensures
        table.updated_all(seq![update]) == table.updated(update),
{
    reveal_with_fuel(TableView::updated_all, 2);
    assert(seq![update].drop_last() =~= Seq::empty());
}

/// The snapshot that a commit adds, and the row IDs that it is given. At version 3 they start at
/// the table's next row ID, as the table was when the commit was planned; this holds of a commit
/// that assigns none, too. Before version 3 there are none.
pub proof fn law_row_range_starts_at_next_row_id(table: TableView, commit: ActionCommitView)
    requires
        is_snapshot_commit(table, commit),
    ensures
        table.format_version == FormatVersion::V3 ==> (added_snapshot(commit).row_range matches Some(
            range,
        ) && range.first_row_id == table.next_row_id),
        table.format_version == FormatVersion::V2 ==> added_snapshot(commit).row_range is None,
{
}

/// A table that a commit was planned on takes the commit, provided that the snapshot's ID is not
/// in use. The snapshot then is the table's current one. The other snapshots stay as they are.
/// The next row ID moves on by the rows that the snapshot added. At version 3 no data manifest of
/// the current snapshot is left without row IDs. The table stays well formed.
pub proof fn law_commit_applies(table: TableView, commit: ActionCommitView)
    requires
        table.wf(),
        is_snapshot_commit(table, commit),
        !table.has_snapshot(added_snapshot(commit).snapshot_id),
    ensures
        table.committed(commit) matches Ok(after) && {
            &&& after.wf()
            &&& after.format_version == table.format_version
            &&& after.snapshots == table.snapshots.push(added_snapshot(commit))
            &&& after.current_snapshot() == Some(added_snapshot(commit))
            &&& after.next_row_id == table.next_row_id + match added_snapshot(commit).row_range {
                Some(range) => range.added_rows,
                None => 0,
            }
            &&& after.format_version == FormatVersion::V3 ==> all_assigned(
                after.current_manifests(),
            )
        },
{
    let (producer, operation, carried) = choose|
        producer: SnapshotProducerView,
        operation: Operation,
        carried: Seq<ManifestFileView>,
    |
        makes(producer, operation, carried, table, commit);
    let manifests = producer.manifests(carried, Seq::empty());
    let snapshot = added_snapshot(commit);
    let id = snapshot.snapshot_id;
    assert(snapshot == producer.snapshot(operation, manifests));
    lemma_manifests_in_order(producer, carried, table);
    lemma_two_updates(
        table,
        TableUpdateView::AddSnapshot { snapshot },
        TableUpdateView::SetSnapshotRef { snapshot_id: id },
    );
    assert(table.meets_all(commit.requirements));
    let after_add = table.with_snapshot(snapshot)->Ok_0;
    assert(after_add.snapshots[table.snapshots.len() as int] == snapshot);
    assert(after_add.has_snapshot(id));
    let after = table.committed(commit)->Ok_0;
    assert(after.snapshots == table.snapshots.push(snapshot));
    if table.format_version == FormatVersion::V3 {
        lemma_listed_in_order(manifests, table.next_row_id);
    }
    assert forall|i: int| 0 <= i < snapshot.manifests.len() implies (
    #[trigger] snapshot.manifests[i]).counts_agree() by {
        assert(manifests[i].counts_agree());
    }
    assert(after.admits(snapshot));
    assert forall|i: int| 0 <= i < after.snapshots.len() implies after.admits(
        #[trigger] after.snapshots[i],
    ) by {
        if i < table.snapshots.len() {
            assert(after.snapshots[i] == table.snapshots[i]);
            assert(table.admits(table.snapshots[i]));
            lemma_in_order_monotone(
                table.snapshots[i].manifests,
                table.next_row_id,
                after.next_row_id,
            );
        }
    }
    lemma_find_last(table.snapshots, snapshot);
}

/// Row ranges chain: the range of the next snapshot starts where that of the one before it ends.
pub proof fn law_row_ranges_chain(
    table: TableView,
    first: ActionCommitView,
    between: TableView,
    second: ActionCommitView,
)
    requires
        table.wf(),
        table.format_version == FormatVersion::V3,
        is_snapshot_commit(table, first),
        table.committed(first) == Ok::<TableView, ErrorView>(between),
        is_snapshot_commit(between, second),
    ensures
        added_snapshot(first).row_range matches Some(one) && added_snapshot(
            second,
        ).row_range matches Some(two) && two.first_row_id == one.first_row_id + one.added_rows,
{
    let snapshot = added_snapshot(first);
    lemma_two_updates(
        table,
        TableUpdateView::AddSnapshot { snapshot },
        TableUpdateView::SetSnapshotRef { snapshot_id: snapshot.snapshot_id },
    );
    law_row_range_starts_at_next_row_id(table, first);
    law_row_range_starts_at_next_row_id(between, second);
}

/// Assignments stay in order when row IDs are taken.
proof fn lemma_in_order_monotone(manifests: Seq<ManifestFileView>, before: nat, after: nat)
    requires
        before <= after,
    ensures
        assignments_in_order(manifests, before) ==> assignments_in_order(manifests, after),
{
}

/// A snapshot with an ID of its own is found by it.
proof fn lemma_find_last(snapshots: Seq<SnapshotView>, last: SnapshotView)
    requires
        forall|i: int|
            0 <= i < snapshots.len() ==> (#[trigger] snapshots[i]).snapshot_id != last.snapshot_id,
    ensures
        find_snapshot(snapshots.push(last), last.snapshot_id) == Some(last),
    decreases snapshots.len(),
{
    if snapshots.len() > 0 {
        let rest = snapshots.drop_first();
        assert(snapshots.push(last).drop_first() =~= rest.push(last));
        assert forall|i: int| 0 <= i < rest.len() implies (#[trigger] rest[i]).snapshot_id
            != last.snapshot_id by {
            assert(rest[i] == snapshots[i + 1]);
        }
        lemma_find_last(rest, last);
    }
}

/// What an append plans is a commit that adds a snapshot with the given ID.
pub proof fn law_fast_append_adds_snapshot(
    action: FastAppendAction,
    base: Option<i64>,
    table: TableView,
    snapshot_id: i64,
    commit: ActionCommitView,
)
    requires
        action.plans(base, table, snapshot_id, Ok(commit)),
    ensures
        is_snapshot_commit(table, commit),
        added_snapshot(commit).snapshot_id == snapshot_id,
{
    let commit_uuid = choose|commit_uuid: Uuid|
        Ok::<ActionCommitView, ErrorView>(commit) == #[trigger] action@.planned(
            table,
            snapshot_id,
            commit_uuid,
        );
    let producer = action@.producer(table, snapshot_id, commit_uuid);
    assert(makes(producer, Operation::Append, table.current_manifests(), table, commit));
}

/// What a row delta plans is a commit that adds a snapshot with the given ID.
pub proof fn law_row_delta_adds_snapshot(
    action: RowDeltaAction,
    base: Option<i64>,
    table: TableView,
    snapshot_id: i64,
    commit: ActionCommitView,
)
    requires
        action.plans(base, table, snapshot_id, Ok(commit)),
    ensures
        is_snapshot_commit(table, commit),
        added_snapshot(commit).snapshot_id == snapshot_id,
{
    let commit_uuid = choose|commit_uuid: Uuid|
        Ok::<ActionCommitView, ErrorView>(commit) == #[trigger] action@.planned(
            table,
            snapshot_id,
            commit_uuid,
        );
    let producer = action@.producer(table, snapshot_id, commit_uuid);
    assert(makes(producer, Operation::Overwrite, table.current_manifests(), table, commit));
}

/// What a rewrite plans is a commit that adds a snapshot with the given ID.
pub proof fn law_rewrite_adds_snapshot(
    action: RewriteFilesAction,
    base: Option<i64>,
    table: TableView,
    snapshot_id: i64,
    commit: ActionCommitView,
)
    requires
        action.plans(base, table, snapshot_id, Ok(commit)),
    ensures
        is_snapshot_commit(table, commit),
        added_snapshot(commit).snapshot_id == snapshot_id,
{
    let commit_uuid = match action@.commit_uuid {
        Some(commit_uuid) => commit_uuid,
        None => choose|commit_uuid: Uuid|
            Ok::<ActionCommitView, ErrorView>(commit) == #[trigger] action@.planned(
                base,
                table,
                snapshot_id,
                commit_uuid,
            ),
    };
    let producer = action@.producer(table, snapshot_id, commit_uuid);
    assert(makes(producer, Operation::Replace, Seq::empty(), table, commit));
}

/// At version 3 a snapshot's data manifests all have row IDs and its delete manifests have none.
/// A data manifest that had row IDs when it came in keeps them. The others take theirs in the
/// order of the list, each after the rows of those before it.
pub proof fn law_manifest_row_ids(
    producer: SnapshotProducerView,
    operation: Operation,
    carried: Seq<ManifestFileView>,
    table: TableView,
    commit: ActionCommitView,
    i: int,
)
    requires
        makes(producer, operation, carried, table, commit),
        table.format_version == FormatVersion::V3,
        0 <= i < added_snapshot(commit).manifests.len(),
    ensures
        ({
            let before = producer.manifests(carried, Seq::empty());
            let manifest = added_snapshot(commit).manifests[i];
            &&& before.len() == added_snapshot(commit).manifests.len()
            &&& manifest == (ManifestFileView { first_row_id: manifest.first_row_id, ..before[i] })
            &&& manifest.content == ManifestContentType::Deletes ==> manifest.first_row_id is None
            &&& manifest.content == ManifestContentType::Data ==> manifest.first_row_id == Some(
                match before[i].first_row_id {
                    Some(kept) => kept,
                    None => table.next_row_id + owed_before(before, i),
                },
            )
        }),
        all_assigned(added_snapshot(commit).manifests),
{
    let before = producer.manifests(carried, Seq::empty());
    assert(added_snapshot(commit).manifests == listed(
        FormatVersion::V3,
        before,
        table.next_row_id,
    ));
}

/// Once a snapshot has row IDs for all its data manifests, those that are carried forward stand
/// unchanged at the front of the next snapshot's list.
pub proof fn law_carried_manifests_unchanged(
    producer: SnapshotProducerView,
    operation: Operation,
    carried: Seq<ManifestFileView>,
    table: TableView,
    commit: ActionCommitView,
)
    requires
        table.wf(),
        table.format_version == FormatVersion::V3,
        makes(producer, operation, carried, table, commit),
        all_assigned(table.current_manifests()),
    ensures
        added_snapshot(commit).manifests.take(carried.len() as int) == carried,
{
    lemma_current_manifests(table);
    let before = producer.manifests(carried, Seq::empty());
    let written = added_snapshot(commit).manifests;
    assert(written == listed(FormatVersion::V3, before, table.next_row_id));
    assert forall|i: int| 0 <= i < carried.len() implies written[i] == carried[i] by {
        assert(before[i] == carried[i]);
    }
    assert(written.take(carried.len() as int) =~= carried);
}

/// The entries of new files name no row ID of their own.
pub proof fn law_new_entries_inherit_row_ids(
    producer: SnapshotProducerView,
    operation: Operation,
    carried: Seq<ManifestFileView>,
    table: TableView,
    commit: ActionCommitView,
    i: int,
    j: int,
)
    requires
        makes(producer, operation, carried, table, commit),
        carried.len() <= i < added_snapshot(commit).manifests.len(),
        0 <= j < added_snapshot(commit).manifests[i].entries.len(),
    ensures
        added_snapshot(commit).manifests[i].entries[j].status == ManifestStatus::Added,
        added_snapshot(commit).manifests[i].entries[j].data_file.first_row_id is None,
{
    let before = producer.manifests(carried, Seq::empty());
    let fresh = producer.new_manifests(Seq::empty());
    assert(before[i] == fresh[i - carried.len()]);
    assert(added_snapshot(commit).manifests[i].entries == fresh[i - carried.len()].entries);
}

/// Every row ID of a well-formed table, in whatever snapshot, is below the next row ID; and no
/// two manifests of a snapshot share one.
pub proof fn law_row_ids_below_next_and_unique(
    table: TableView,
    snapshot: SnapshotView,
    i: int,
    j: int,
    id: nat,
)
    requires
        table.wf(),
        table.snapshots.contains(snapshot),
        0 <= i < snapshot.manifests.len(),
        0 <= j < snapshot.manifests.len(),
        has_row_id(snapshot.manifests[i], id),
    ensures
        id < table.next_row_id,
        has_row_id(snapshot.manifests[j], id) ==> i == j,
{
    let k = choose|k: int| 0 <= k < table.snapshots.len() && table.snapshots[k] == snapshot;
    assert(table.admits(table.snapshots[k]));
}

/// The manifest that a row ID falls to, among those that are owed row IDs.
proof fn lemma_owner(manifests: Seq<ManifestFileView>, offset: nat, n: int) -> (i: int)
    requires
        0 <= n <= manifests.len(),
        offset < owed_before(manifests, n),
    ensures
        0 <= i < n,
        owed_before(manifests, i) <= offset < owed_before(manifests, i) + owed_rows(manifests[i]),
    decreases n,
{
    if offset < owed_before(manifests, n - 1) {
        lemma_owner(manifests, offset, n - 1)
    } else {
        n - 1
    }
}

/// The row IDs that a commit assigns leave no gap and no remainder: those that its snapshot's
/// manifests have, and that were free before, are exactly those of the snapshot's row range.
pub proof fn law_assigned_row_ids_are_the_range(
    table: TableView,
    commit: ActionCommitView,
    id: nat,
)
    requires
        table.wf(),
        table.format_version == FormatVersion::V3,
        is_snapshot_commit(table, commit),
    ensures
        added_snapshot(commit).row_range matches Some(range) && ((table.next_row_id <= id
            && exists|i: int|
            0 <= i < added_snapshot(commit).manifests.len() && has_row_id(
                #[trigger] added_snapshot(commit).manifests[i],
                id,
            )) <==> range.first_row_id <= id < range.first_row_id + range.added_rows),
{
    let (producer, operation, carried) = choose|
        producer: SnapshotProducerView,
        operation: Operation,
        carried: Seq<ManifestFileView>,
    |
        makes(producer, operation, carried, table, commit);
    let before = producer.manifests(carried, Seq::empty());
    let next = table.next_row_id;
    let n = before.len() as int;
    let written = added_snapshot(commit).manifests;
    assert(written == listed(FormatVersion::V3, before, next));
    lemma_manifests_in_order(producer, carried, table);
    if next <= id < next + owed(before) {
        let i = lemma_owner(before, (id - next) as nat, n);
        assert(has_row_id(written[i], id));
    }
    if next <= id && exists|i: int|
        0 <= i < written.len() && has_row_id(#[trigger] written[i], id) {
        let i = choose|i: int| 0 <= i < written.len() && has_row_id(#[trigger] written[i], id);
        assert(before[i].rows() == written[i].rows());
        lemma_owed_monotone(before, i + 1, n);
    }
}

/// Manifests that are owed nothing.
proof fn lemma_nothing_owed(manifests: Seq<ManifestFileView>, n: int)
    requires
        0 <= n <= manifests.len(),
        forall|i: int| 0 <= i < n ==> owed_rows(#[trigger] manifests[i]) == 0,
    ensures
        owed_before(manifests, n) == 0,
    decreases n,
{
    if n > 0 {
        lemma_nothing_owed(manifests, n - 1);
    }
}

/// A row delta that only adds delete files, on a table whose data manifests have their row IDs,
/// still names the first row ID that it could have assigned, assigns none, and leaves the next
/// row ID where it is.
pub proof fn law_delete_only_commit_takes_no_row_ids(
    action: RowDeltaActionView,
    table: TableView,
    snapshot_id: i64,
    commit_uuid: Uuid,
    commit: ActionCommitView,
)
    requires
        table.wf(),
        table.format_version == FormatVersion::V3,
        all_assigned(table.current_manifests()),
        action.added_data_files.len() == 0,
        action.planned(table, snapshot_id, commit_uuid) == Ok::<ActionCommitView, ErrorView>(commit),
        !table.has_snapshot(snapshot_id),
    ensures
        added_snapshot(commit).row_range == Some(
            RowRangeView { first_row_id: table.next_row_id, added_rows: 0 },
        ),
        table.committed(commit) matches Ok(after) && after.next_row_id == table.next_row_id,
{
    let carried = table.current_manifests();
    let producer = action.producer(table, snapshot_id, commit_uuid);
    assert(makes(producer, Operation::Overwrite, carried, table, commit));
    let before = producer.manifests(carried, Seq::empty());
    assert forall|i: int| 0 <= i < before.len() implies owed_rows(#[trigger] before[i]) == 0 by {
        if i < carried.len() {
            assert(before[i] == carried[i]);
        } else {
            assert(before[i] == producer.new_manifests(Seq::empty())[i - carried.len()]);
        }
    }
    lemma_nothing_owed(before, before.len() as int);
    law_commit_applies(table, commit);
}

/// Before version 3 a commit writes no lineage: the snapshot has no row range, and none of its
/// manifests a row ID.
pub proof fn law_version_two_writes_no_lineage(table: TableView, commit: ActionCommitView)
    requires
        table.format_version == FormatVersion::V2,
        is_snapshot_commit(table, commit),
    ensures
        added_snapshot(commit).row_range is None,
        none_assigned(added_snapshot(commit).manifests),
{
    let (producer, operation, carried) = choose|
        producer: SnapshotProducerView,
        operation: Operation,
        carried: Seq<ManifestFileView>,
    |
        makes(producer, operation, carried, table, commit);
    assert(added_snapshot(commit).manifests == listed(
        FormatVersion::V2,
        producer.manifests(carried, Seq::empty()),
        table.next_row_id,
    ));
}

/// The upgrade to version 3 starts the row IDs at zero and leaves all snapshots as they are.
pub proof fn law_upgrade_starts_row_ids_at_zero(table: TableView)
    requires
        table.wf(),
        table.format_version == FormatVersion::V2,
    ensures
        table.committed(upgrade(FormatVersion::V3)) == Ok::<TableView, ErrorView>(
            TableView { format_version: FormatVersion::V3, next_row_id: 0, ..table },
        ),
        (TableView { format_version: FormatVersion::V3, next_row_id: 0, ..table }).wf(),
{
    lemma_one_update(
        table,
        TableUpdateView::UpgradeFormatVersion { format_version: FormatVersion::V3 },
    );
    let after = TableView { format_version: FormatVersion::V3, next_row_id: 0, ..table };
    assert(table.meets_all(upgrade(FormatVersion::V3).requirements));
    assert forall|i: int| 0 <= i < after.snapshots.len() implies after.admits(
        #[trigger] after.snapshots[i],
    ) by {
        assert(table.admits(table.snapshots[i]));
    }
    if let Some(id) = table.current_snapshot_id {
        let i = choose|i: int|
            0 <= i < table.snapshots.len() && (#[trigger] table.snapshots[i]).snapshot_id == id;
        assert(after.snapshots[i].snapshot_id == id);
    }
}

/// How many rows the data manifests among the first `n` hold.
pub open spec fn data_rows_before(manifests: Seq<ManifestFileView>, n: int) -> nat
    decreases n,
{
    if n <= 0 {
        0
    } else {
        data_rows_before(manifests, n - 1) + if manifests[n - 1].content
            == ManifestContentType::Data {
            manifests[n - 1].rows()
        } else {
            0
        }
    }
}

/// Where no manifest has row IDs, the data manifests are owed all their rows.
proof fn lemma_all_owed(manifests: Seq<ManifestFileView>, n: int)
    requires
        0 <= n <= manifests.len(),
        none_assigned(manifests),
    ensures
        owed_before(manifests, n) == data_rows_before(manifests, n),
    decreases n,
{
    if n > 0 {
        lemma_all_owed(manifests, n - 1);
    }
}

/// Counting rows does not look at row IDs.
proof fn lemma_data_rows_agree(
    left: Seq<ManifestFileView>,
    right: Seq<ManifestFileView>,
    n: int,
)
    requires
        0 <= n <= left.len(),
        left.len() == right.len(),
        forall|i: int|
            0 <= i < n ==> (#[trigger] left[i]).content == right[i].content && left[i].rows()
                == right[i].rows(),
    ensures
        data_rows_before(left, n) == data_rows_before(right, n),
    decreases n,
{
    if n > 0 {
        lemma_data_rows_agree(left, right, n - 1);
    }
}

/// The first commit after the upgrade to version 3 gives row IDs to all data manifests, those
/// from before the upgrade too: in the order of the list, from zero on, each after the rows of
/// the data manifests before it. The snapshot's row range covers them all.
pub proof fn law_first_commit_after_upgrade_assigns_all(
    old_table: TableView,
    table: TableView,
    commit: ActionCommitView,
)
    requires
        old_table.wf(),
        old_table.format_version == FormatVersion::V2,
        old_table.committed(upgrade(FormatVersion::V3)) == Ok::<TableView, ErrorView>(table),
        is_snapshot_commit(table, commit),
    ensures
        forall|i: int|
            0 <= i < added_snapshot(commit).manifests.len() && (
            #[trigger] added_snapshot(commit).manifests[i]).content == ManifestContentType::Data
                ==> added_snapshot(commit).manifests[i].first_row_id == Some(
                data_rows_before(added_snapshot(commit).manifests, i),
            ),
        added_snapshot(commit).row_range == Some(
            RowRangeView {
                first_row_id: 0,
                added_rows: data_rows_before(
                    added_snapshot(commit).manifests,
                    added_snapshot(commit).manifests.len() as int,
                ),
            },
        ),
{
    law_upgrade_starts_row_ids_at_zero(old_table);
    let (producer, operation, carried) = choose|
        producer: SnapshotProducerView,
        operation: Operation,
        carried: Seq<ManifestFileView>,
    |
        makes(producer, operation, carried, table, commit);
    let before = producer.manifests(carried, Seq::empty());
    let written = added_snapshot(commit).manifests;
    assert(written == listed(FormatVersion::V3, before, 0));
    assert(none_assigned(table.current_manifests())) by {
        if let Some(id) = table.current_snapshot_id {
            lemma_find_snapshot(table.snapshots, id);
            if let Some(snapshot) = find_snapshot(table.snapshots, id) {
                let i = choose|i: int|
                    0 <= i < table.snapshots.len() && table.snapshots[i] == snapshot;
                assert(old_table.admits(old_table.snapshots[i]));
            }
        }
    }
    assert(none_assigned(before)) by {
        assert forall|i: int| 0 <= i < before.len() implies (
        #[trigger] before[i]).first_row_id is None by {
            if i < carried.len() {
                assert(before[i] == carried[i]);
            } else {
                assert(before[i] == producer.new_manifests(Seq::empty())[i - carried.len()]);
            }
        }
    }
    assert forall|i: int| 0 <= i <= written.len() implies owed_before(before, i)
        == #[trigger] data_rows_before(written, i) by {
        lemma_all_owed(before, i);
        lemma_data_rows_agree(before, written, i);
    }
    assert(owed_before(before, written.len() as int) == data_rows_before(
        written,
        written.len() as int,
    ));
}

/// The snapshot of a rewrite is a `replace` snapshot that holds the added files and nothing else:
/// no manifest is carried forward, and no delete file. It has the action's properties and commit
/// UUID.
pub proof fn law_rewrite_holds_exactly_the_added_files(
    action: RewriteFilesActionView,
    base: Option<i64>,
    table: TableView,
    snapshot_id: i64,
    commit_uuid: Uuid,
    commit: ActionCommitView,
)
    requires
        action.planned(base, table, snapshot_id, commit_uuid) == Ok::<ActionCommitView, ErrorView>(
            commit,
        ),
    ensures
        added_snapshot(commit).operation == Operation::Replace,
        added_snapshot(commit).properties == action.snapshot_properties,
        added_snapshot(commit).commit_uuid == commit_uuid,
        action.added_data_files.len() == 0 ==> added_snapshot(commit).manifests.len() == 0,
        action.added_data_files.len() > 0 ==> {
            &&& added_snapshot(commit).manifests.len() == 1
            &&& added_snapshot(commit).manifests[0].content == ManifestContentType::Data
            &&& added_snapshot(commit).manifests[0].entries == added_entries(
                action.added_data_files,
            )
        },
{
    let producer = action.producer(table, snapshot_id, commit_uuid);
    let before = producer.manifests(Seq::empty(), Seq::empty());
    assert(before =~= manifests_of(
        ManifestContentType::Data,
        added_entries(action.added_data_files),
    ));
    assert(added_snapshot(commit).manifests == listed(
        table.format_version,
        before,
        table.next_row_id,
    ));
}

/// A snapshot that a table has is still found after another is added behind.
proof fn lemma_find_in_push(snapshots: Seq<SnapshotView>, last: SnapshotView, id: i64)
    requires
        find_snapshot(snapshots, id) is Some,
    ensures
        find_snapshot(snapshots.push(last), id) == find_snapshot(snapshots, id),
    decreases snapshots.len(),
{
    if snapshots.len() > 0 && snapshots[0].snapshot_id != id {
        assert(snapshots.push(last).drop_first() =~= snapshots.drop_first().push(last));
        lemma_find_in_push(snapshots.drop_first(), last, id);
    }
}

/// Adding a snapshot leaves history alone: each earlier snapshot is still found under its ID, with
/// the manifests and files that it had.
pub proof fn law_history_survives_commits(table: TableView, commit: ActionCommitView, id: i64)
    requires
        table.wf(),
        is_snapshot_commit(table, commit),
        !table.has_snapshot(added_snapshot(commit).snapshot_id),
        table.has_snapshot(id),
    ensures
        table.committed(commit) matches Ok(after) && find_snapshot(after.snapshots, id)
            == find_snapshot(table.snapshots, id) && find_snapshot(table.snapshots, id) is Some,
{
    law_commit_applies(table, commit);
    lemma_find_snapshot(table.snapshots, id);
    lemma_find_in_push(table.snapshots, added_snapshot(commit), id);
}

/// A commit that adds a snapshot is rejected by a table whose main branch has moved since the
/// commit was planned; the error says that a fresh attempt may succeed.
pub proof fn law_moved_table_rejects_commit(
    table: TableView,
    commit: ActionCommitView,
    now: TableView,
)
    requires
        is_snapshot_commit(table, commit),
        now.current_snapshot_id != table.current_snapshot_id,
    ensures
        now.committed(commit) == Err::<TableView, ErrorView>(conflict(REF_MOVED)),
{
    assert(!now.meets(commit.requirements[0]));
}

/// Removing snapshots removes exactly those with the given IDs. IDs that no snapshot has are
/// passed over. The others stay as they are, the next row ID does not move, and the table stays
/// well formed.
pub proof fn law_removal_removes_exactly_the_ids(table: TableView, ids: Seq<i64>)
    requires
        table.wf(),
    ensures
        table.committed(removal(ids)) matches Ok(after) && {
            &&& after.wf()
            &&& after.next_row_id == table.next_row_id
            &&& after.format_version == table.format_version
            &&& forall|s: SnapshotView|
                #[trigger] after.snapshots.contains(s) <==> table.snapshots.contains(s)
                    && !ids.contains(s.snapshot_id)
        },
{
    lemma_one_update(table, TableUpdateView::RemoveSnapshots { snapshot_ids: ids });
    assert(table.meets_all(removal(ids).requirements));
    let after = table.without(ids);
    lemma_without_wf(table, ids);
    assert forall|s: SnapshotView| #[trigger] after.snapshots.contains(s) <==>
        table.snapshots.contains(s) && !ids.contains(s.snapshot_id) by {
        lemma_without_contains(table.snapshots, ids, s);
    }
}

/// Which snapshots are left.
proof fn lemma_without_contains(snapshots: Seq<SnapshotView>, ids: Seq<i64>, s: SnapshotView)
    ensures
        without_snapshots(snapshots, ids).contains(s) <==> snapshots.contains(s) && !ids.contains(
            s.snapshot_id,
        ),
    decreases snapshots.len(),
{
    reveal(Seq::filter);
    if snapshots.len() > 0 {
        let front = snapshots.drop_last();
        let last = snapshots.last();
        lemma_without_contains(front, ids, s);
        assert(snapshots =~= front.push(last));
        assert(front.push(last).contains(s) <==> front.contains(s) || s == last) by {
            if front.contains(s) {
                let i = choose|i: int| 0 <= i < front.len() && front[i] == s;
                assert(front.push(last)[i] == s);
            }
            assert(front.push(last)[front.len() as int] == last);
        }
        let kept = without_snapshots(front, ids);
        assert(kept.push(last).contains(s) <==> kept.contains(s) || s == last) by {
            if kept.contains(s) {
                let i = choose|i: int| 0 <= i < kept.len() && kept[i] == s;
                assert(kept.push(last)[i] == s);
            }
            assert(kept.push(last)[kept.len() as int] == last);
        }
    }
}

/// A well-formed table stays so when snapshots are removed.
proof fn lemma_without_wf(table: TableView, ids: Seq<i64>)
    requires
        table.wf(),
    ensures
        table.without(ids).wf(),
{
    let after = table.without(ids);
    lemma_without_distinct(table.snapshots, ids);
    assert forall|i: int| 0 <= i < after.snapshots.len() implies after.admits(
        #[trigger] after.snapshots[i],
    ) by {
        lemma_without_contains(table.snapshots, ids, after.snapshots[i]);
        assert(after.snapshots.contains(after.snapshots[i]));
        let k = choose|k: int|
            0 <= k < table.snapshots.len() && table.snapshots[k] == after.snapshots[i];
        assert(table.admits(table.snapshots[k]));
    }
    if let Some(id) = after.current_snapshot_id {
        let k = choose|k: int|
            0 <= k < table.snapshots.len() && (#[trigger] table.snapshots[k]).snapshot_id == id;
        lemma_without_contains(table.snapshots, ids, table.snapshots[k]);
        assert(table.snapshots.contains(table.snapshots[k]));
        let i = choose|i: int|
            0 <= i < after.snapshots.len() && after.snapshots[i] == table.snapshots[k];
        assert(after.snapshots[i].snapshot_id == id);
    }
}

/// The snapshots that are left have IDs of their own.
proof fn lemma_without_distinct(snapshots: Seq<SnapshotView>, ids: Seq<i64>)
    requires
        forall|i: int, j: int|
            0 <= i < j < snapshots.len() ==> (#[trigger] snapshots[i]).snapshot_id != (
            #[trigger] snapshots[j]).snapshot_id,
    ensures
        forall|i: int, j: int|
            0 <= i < j < without_snapshots(snapshots, ids).len() ==> (
            #[trigger] without_snapshots(snapshots, ids)[i]).snapshot_id != (
            #[trigger] without_snapshots(snapshots, ids)[j]).snapshot_id,
    decreases snapshots.len(),
{
    reveal(Seq::filter);
    if snapshots.len() > 0 {
        let front = snapshots.drop_last();
        let last = snapshots.last();
        lemma_without_distinct(front, ids);
        let kept = without_snapshots(front, ids);
        assert forall|i: int| 0 <= i < kept.len() implies (#[trigger] kept[i]).snapshot_id
            != last.snapshot_id by {
            lemma_without_contains(front, ids, kept[i]);
            assert(kept.contains(kept[i]));
            let k = choose|k: int| 0 <= k < front.len() && front[k] == kept[i];
            assert(snapshots[k].snapshot_id != snapshots[snapshots.len() - 1].snapshot_id);
        }
    }
}

/// Removing snapshots in two commits is removing them in one.
pub proof fn law_removals_add_up(table: TableView, first: Seq<i64>, second: Seq<i64>)
    ensures
        table.without(first).without(second) == table.without(first + second),
{
    lemma_without_twice(table.snapshots, first, second);
    assert forall|id: i64| (first + second).contains(id) <==> first.contains(id)
        || second.contains(id) by {
        lemma_contains_add(first, second, id);
    }
}

/// Concatenation and membership.
proof fn lemma_contains_add(first: Seq<i64>, second: Seq<i64>, id: i64)
    ensures
        (first + second).contains(id) <==> first.contains(id) || second.contains(id),
{
    if first.contains(id) {
        let i = choose|i: int| 0 <= i < first.len() && first[i] == id;
        assert((first + second)[i] == id);
    }
    if second.contains(id) {
        let i = choose|i: int| 0 <= i < second.len() && second[i] == id;
        assert((first + second)[first.len() + i] == id);
    }
}

/// Removing twice, on the snapshots.
proof fn lemma_without_twice(snapshots: Seq<SnapshotView>, first: Seq<i64>, second: Seq<i64>)
    ensures
        without_snapshots(without_snapshots(snapshots, first), second) == without_snapshots(
            snapshots,
            first + second,
        ),
    decreases snapshots.len(),
{
    reveal(Seq::filter);
    if snapshots.len() > 0 {
        let front = snapshots.drop_last();
        let last = snapshots.last();
        lemma_without_twice(front, first, second);
        lemma_contains_add(first, second, last.snapshot_id);
        let kept = without_snapshots(front, first);
        assert(kept.push(last).drop_last() =~= kept);
    }
}

/// A run of attempts: events, the steps that they led to, and the retries left before each event
/// and at the end.
pub open spec fn runs<A: TransactionAction>(
    action: A,
    base: Option<i64>,
    events: Seq<CommitEventView>,
    steps: Seq<CommitStepView>,
    left: Seq<nat>,
) -> bool {
    &&& events.len() == steps.len()
    &&& left.len() == events.len() + 1
    &&& forall|i: int|
        0 <= i < events.len() ==> leads_to(
            action,
            base,
            #[trigger] left[i],
            #[trigger] events[i],
            #[trigger] steps[i],
            left[i + 1],
        )
}

/// Whether all that the action plans are commits that add a snapshot.
pub open spec fn adds_snapshots<A: TransactionAction>(action: A) -> bool {
    forall|base: Option<i64>, table: TableView, snapshot_id: i64, commit: ActionCommitView|
        #[trigger] action.plans(base, table, snapshot_id, Ok(commit)) ==> is_snapshot_commit(
            table,
            commit,
        )
}

/// The result of planning that a step after a loaded table comes from.
proof fn lemma_planned_result<A: TransactionAction>(
    action: A,
    base: Option<i64>,
    table: TableView,
    snapshot_id: i64,
    retries: nat,
    step: CommitStepView,
    left: nat,
) -> (result: Result<ActionCommitView, ErrorView>)
    requires
        leads_to(
            action,
            base,
            retries,
            CommitEventView::Loaded { table, snapshot_id },
            step,
            left,
        ),
    ensures
        action.plans(base, table, snapshot_id, result),
        after_plan(retries, result, step, left),
{
    choose|result: Result<ActionCommitView, ErrorView>|
        action.plans(base, table, snapshot_id, result) && #[trigger] after_plan(
            retries,
            result,
            step,
            left,
        )
}

/// Every commit that goes to the catalog in a run of attempts, a retry's as well as the first,
/// takes its first row ID from the table that was loaded just before: from its next row ID, not
/// from one that an earlier attempt saw.
pub proof fn law_attempts_restamp_first_row_id<A: TransactionAction>(
    action: A,
    base: Option<i64>,
    events: Seq<CommitEventView>,
    steps: Seq<CommitStepView>,
    left: Seq<nat>,
    i: int,
)
    requires
        adds_snapshots(action),
        runs(action, base, events, steps, left),
        0 <= i < steps.len(),
        steps[i] is Update,
    ensures
        events[i] matches CommitEventView::Loaded { table, snapshot_id } && (table.format_version
            == FormatVersion::V3 ==> (added_snapshot(steps[i]->commit).row_range matches Some(range)
            && range.first_row_id == table.next_row_id)),
{
    assert(leads_to(action, base, left[i], events[i], steps[i], left[i + 1]));
    match events[i] {
        CommitEventView::Loaded { table, snapshot_id } => {
            let result = lemma_planned_result(
                action,
                base,
                table,
                snapshot_id,
                left[i],
                steps[i],
                left[i + 1],
            );
            assert(result == Ok::<ActionCommitView, ErrorView>(steps[i]->commit));
            law_row_range_starts_at_next_row_id(table, steps[i]->commit);
        },
        _ => {},
    }
}

/// Appends, row deltas and rewrites add snapshots, each time they are planned.
pub proof fn law_snapshot_actions_add_snapshots(
    append: FastAppendAction,
    row_delta: RowDeltaAction,
    rewrite: RewriteFilesAction,
)
    ensures
        adds_snapshots(append),
        adds_snapshots(row_delta),
        adds_snapshots(rewrite),
{
    assert forall|base: Option<i64>, table: TableView, snapshot_id: i64, commit: ActionCommitView|
        #[trigger] append.plans(base, table, snapshot_id, Ok(commit)) implies is_snapshot_commit(
        table,
        commit,
    ) by {
        law_fast_append_adds_snapshot(append, base, table, snapshot_id, commit);
    }
    assert forall|base: Option<i64>, table: TableView, snapshot_id: i64, commit: ActionCommitView|
        #[trigger] row_delta.plans(base, table, snapshot_id, Ok(commit)) implies is_snapshot_commit(
        table,
        commit,
    ) by {
        law_row_delta_adds_snapshot(row_delta, base, table, snapshot_id, commit);
    }
    assert forall|base: Option<i64>, table: TableView, snapshot_id: i64, commit: ActionCommitView|
        #[trigger] rewrite.plans(base, table, snapshot_id, Ok(commit)) implies is_snapshot_commit(
        table,
        commit,
    ) by {
        law_rewrite_adds_snapshot(rewrite, base, table, snapshot_id, commit);
    }
}

/// A rewrite is rejected by a table that moved after the caller read it: planned on a table whose
/// main branch is not where the caller found it, it gives an error that no retry mends.
pub proof fn law_rewrite_of_moved_table_is_an_error(
    action: RewriteFilesAction,
    base: Option<i64>,
    table: TableView,
    snapshot_id: i64,
    result: Result<ActionCommitView, ErrorView>,
)
    requires
        action.plans(base, table, snapshot_id, result),
        base != table.current_snapshot_id,
    ensures
        result == Err::<ActionCommitView, ErrorView>(moved_since_read()),
{
}

/// No table takes a rewrite but one whose main branch is where the caller found it.
pub proof fn law_rewrite_only_applies_where_it_was_read(
    action: RewriteFilesAction,
    base: Option<i64>,
    table: TableView,
    snapshot_id: i64,
    commit: ActionCommitView,
    now: TableView,
)
    requires
        action.plans(base, table, snapshot_id, Ok(commit)),
        now.current_snapshot_id != base,
    ensures
        now.committed(commit) == Err::<TableView, ErrorView>(conflict(REF_MOVED)),
{
    law_rewrite_adds_snapshot(action, base, table, snapshot_id, commit);
    law_moved_table_rejects_commit(table, commit, now);
}

/// In a run of attempts a rewrite goes to the catalog only after the table was loaded with its
/// main branch where the caller found it. Where it was loaded with the main branch elsewhere, the
/// attempts end with an error.
pub proof fn law_attempts_reject_rewrite_of_moved_table(
    action: RewriteFilesAction,
    base: Option<i64>,
    events: Seq<CommitEventView>,
    steps: Seq<CommitStepView>,
    left: Seq<nat>,
    i: int,
)
    requires
        runs(action, base, events, steps, left),
        0 <= i < steps.len(),
    ensures
        steps[i] is Update ==> (events[i] matches CommitEventView::Loaded { table, snapshot_id }
            && table.current_snapshot_id == base),
        events[i] matches CommitEventView::Loaded { table, snapshot_id } ==> (
        table.current_snapshot_id != base ==> steps[i] == (CommitStepView::Fail {
            error: moved_since_read(),
        })),
{
    assert(leads_to(action, base, left[i], events[i], steps[i], left[i + 1]));
    if let CommitEventView::Loaded { table, snapshot_id } = events[i] {
        let result = lemma_planned_result(
            action,
            base,
            table,
            snapshot_id,
            left[i],
            steps[i],
            left[i + 1],
        );
    }
}

/// In a run of attempts no commit of a rewrite is taken by a table whose main branch is not where
/// the caller found it, however the table moves between the plan and the commit.
pub proof fn law_attempts_never_overwrite_other_writers(
    action: RewriteFilesAction,
    base: Option<i64>,
    events: Seq<CommitEventView>,
    steps: Seq<CommitStepView>,
    left: Seq<nat>,
    i: int,
    now: TableView,
)
    requires
        runs(action, base, events, steps, left),
        0 <= i < steps.len(),
        steps[i] is Update,
        now.current_snapshot_id != base,
    ensures
        now.committed(steps[i]->commit) == Err::<TableView, ErrorView>(conflict(REF_MOVED)),
{
    assert(leads_to(action, base, left[i], events[i], steps[i], left[i + 1]));
    if let CommitEventView::Loaded { table, snapshot_id } = events[i] {
        let result = lemma_planned_result(
            action,
            base,
            table,
            snapshot_id,
            left[i],
            steps[i],
            left[i + 1],
        );
        law_rewrite_only_applies_where_it_was_read(
            action,
            base,
            table,
            snapshot_id,
            steps[i]->commit,
            now,
        );
    }
}

/// How many of the steps start a new attempt.
pub open spec fn retries_in(steps: Seq<CommitStepView>) -> nat
    decreases steps.len(),
{
    if steps.len() == 0 {
        0
    } else {
        retries_in(steps.drop_last()) + if steps.last() is Load {
            1nat
        } else {
            0
        }
    }
}

/// A run of attempts retries no more often than it may, and every retry uses one up.
pub proof fn law_retries_are_bounded<A: TransactionAction>(
    action: A,
    base: Option<i64>,
    events: Seq<CommitEventView>,
    steps: Seq<CommitStepView>,
    left: Seq<nat>,
)
    requires
        runs(action, base, events, steps, left),
    ensures
        retries_in(steps) + left.last() == left[0],
    decreases steps.len(),
{
    if steps.len() > 0 {
        let n = steps.len() as int;
        let front_events = events.drop_last();
        let front_steps = steps.drop_last();
        let front_left = left.drop_last();
        assert forall|i: int| 0 <= i < front_events.len() implies leads_to(
            action,
            base,
            #[trigger] front_left[i],
            #[trigger] front_events[i],
            #[trigger] front_steps[i],
            front_left[i + 1],
        ) by {
            assert(leads_to(action, base, left[i], events[i], steps[i], left[i + 1]));
        }
        law_retries_are_bounded(action, base, front_events, front_steps, front_left);
        assert(leads_to(action, base, left[n - 1], events[n - 1], steps[n - 1], left[n]));
    }
}

} // verus!
