//! Removals of snapshots: what is planned for one, and what any table makes of it.

use crate::error::ErrorView;
use crate::laws::tables::{
    law_commit_is_taken_where_main_is_required, law_remove_snapshots,
    law_updates_follow_one_another,
};
use crate::snapshot::SnapshotView;
use crate::table::{ActionCommitView, TableUpdateView, TableView};
use crate::transaction::laws::{law_removal_removes_exactly_the_ids, law_removals_add_up};
use crate::transaction::remove_snapshots::{removal, RemoveSnapshotsAction};
use crate::transaction::TransactionAction;
use vstd::prelude::*;

verus! {

/// The removal of snapshots can always be planned, whatever the table holds that it is planned on
/// and wherever the caller found the main branch. It names all the IDs that the action was given,
/// and requires nothing of the table.
pub proof fn law_removal_plans(
    action: RemoveSnapshotsAction,
    base: Option<i64>,
    table: TableView,
    snapshot_id: i64,
    result: Result<ActionCommitView, ErrorView>,
)
    requires
        action.plans(base, table, snapshot_id, result),
    ensures
        result matches Ok(commit) && {
            &&& commit.updates.len() == 1
            &&& commit.updates[0] == (TableUpdateView::RemoveSnapshots { snapshot_ids: action@ })
            &&& commit.requirements.len() == 0
        },
{
}

/// Any table takes the removal that was planned, be it another than the one that it was planned on.
/// It is left with exactly the snapshots whose IDs are not among all those that the action was
/// given, in their order and as they were. The main branch points nowhere if its snapshot is gone,
/// else where it pointed. All else stays as it is, and a well-formed table stays well formed.
pub proof fn law_removal_is_taken(
    action: RemoveSnapshotsAction,
    base: Option<i64>,
    table: TableView,
    snapshot_id: i64,
    result: Result<ActionCommitView, ErrorView>,
    now: TableView,
)
    requires
        action.plans(base, table, snapshot_id, result),
    ensures
        ({
            &&& result matches Ok(commit)
            &&& now.committed(commit) matches Ok(after)
            &&& after.snapshots == now.snapshots.filter(
                |s: SnapshotView| !action@.contains(s.snapshot_id),
            )
            &&& forall|i: int|
                0 <= i < after.snapshots.len() ==> !action@.contains(
                    (#[trigger] after.snapshots[i]).snapshot_id,
                ) && now.snapshots.contains(after.snapshots[i])
            &&& forall|i: int|
                0 <= i < now.snapshots.len() && !action@.contains(
                    (#[trigger] now.snapshots[i]).snapshot_id,
                ) ==> after.snapshots.contains(now.snapshots[i])
            &&& match now.current_snapshot_id {
                None => after.current_snapshot_id is None,
                Some(id) => if action@.contains(id) {
                    after.current_snapshot_id is None
                } else {
                    after.current_snapshot_id == Some(id)
                },
            }
            &&& after.next_row_id == now.next_row_id
            &&& after.format_version == now.format_version
            &&& after.default_partition_spec_id == now.default_partition_spec_id
            &&& after.partition_type == now.partition_type
            &&& now.wf() ==> after.wf()
        }),
{
    let ids = action@;
    law_removal_plans(action, base, table, snapshot_id, result);
    let commit = result->Ok_0;
    let update = TableUpdateView::RemoveSnapshots { snapshot_ids: ids };
    assert(commit.updates =~= Seq::empty().push(update));
    law_commit_is_taken_where_main_is_required(now, commit);
    law_updates_follow_one_another(now, Seq::empty(), update);
    law_remove_snapshots(now, ids);
    let after = now.committed(commit)->Ok_0;
    lemma_kept(now.snapshots, ids);
    if now.wf() {
        law_removal_removes_exactly_the_ids(now, ids);
        assert(removal(ids).updates =~= commit.updates);
        assert(removal(ids).requirements =~= commit.requirements);
    }
}

/// Which snapshots are kept.
proof fn lemma_kept(snapshots: Seq<SnapshotView>, ids: Seq<i64>)
    ensures
        ({
            let kept = snapshots.filter(|s: SnapshotView| !ids.contains(s.snapshot_id));
            &&& forall|i: int|
                0 <= i < kept.len() ==> !ids.contains((#[trigger] kept[i]).snapshot_id)
                    && snapshots.contains(kept[i])
            &&& forall|i: int|
                0 <= i < snapshots.len() && !ids.contains((#[trigger] snapshots[i]).snapshot_id)
                    ==> kept.contains(snapshots[i])
        }),
    decreases snapshots.len(),
{
    reveal(Seq::filter);
    if snapshots.len() > 0 {
        let front = snapshots.drop_last();
        let last = snapshots.last();
        lemma_kept(front, ids);
        let before = front.filter(|s: SnapshotView| !ids.contains(s.snapshot_id));
        let kept = snapshots.filter(|s: SnapshotView| !ids.contains(s.snapshot_id));
        assert forall|i: int| 0 <= i < kept.len() implies !ids.contains(
            (#[trigger] kept[i]).snapshot_id,
        ) && snapshots.contains(kept[i]) by {
            if i < before.len() {
                assert(kept[i] == before[i]);
                let k = choose|k: int| 0 <= k < front.len() && front[k] == before[i];
                assert(snapshots[k] == kept[i]);
            } else {
                assert(snapshots[snapshots.len() - 1] == kept[i]);
            }
        }
        assert forall|i: int|
            0 <= i < snapshots.len() && !ids.contains(
                (#[trigger] snapshots[i]).snapshot_id,
            ) implies kept.contains(snapshots[i]) by {
            if i < front.len() {
                assert(front[i] == snapshots[i]);
                let k = choose|k: int| 0 <= k < before.len() && before[k] == front[i];
                assert(kept[k] == snapshots[i]);
            } else {
                assert(kept[kept.len() - 1] == snapshots[i]);
            }
        }
    }
}

/// Two plans of a removal are the same plan.
pub proof fn law_removal_does_not_depend_on_the_table(
    action: RemoveSnapshotsAction,
    base: Option<i64>,
    table: TableView,
    snapshot_id: i64,
    result: Result<ActionCommitView, ErrorView>,
    other_base: Option<i64>,
    other_table: TableView,
    other_snapshot_id: i64,
    other_result: Result<ActionCommitView, ErrorView>,
)
    requires
        action.plans(base, table, snapshot_id, result),
        action.plans(other_base, other_table, other_snapshot_id, other_result),
    ensures
        result == other_result,
{
}

/// Two removals, one after the other, do what the removal of the IDs of both does.
pub proof fn law_removal_after_removal(
    first: RemoveSnapshotsAction,
    second: RemoveSnapshotsAction,
    both: RemoveSnapshotsAction,
    table: TableView,
    one: ActionCommitView,
    two: ActionCommitView,
    at_once: ActionCommitView,
    now: TableView,
)
    requires
        both@ == first@ + second@,
        first.plans(table.current_snapshot_id, table, 0, Ok(one)),
        second.plans(table.current_snapshot_id, table, 0, Ok(two)),
        both.plans(table.current_snapshot_id, table, 0, Ok(at_once)),
    ensures
        now.committed(one) matches Ok(between) && between.committed(two) == now.committed(at_once),
{
    law_removal_is_taken(first, table.current_snapshot_id, table, 0, Ok(one), now);
    let between = now.committed(one)->Ok_0;
    law_removal_is_taken(second, table.current_snapshot_id, table, 0, Ok(two), between);
    law_removal_is_taken(both, table.current_snapshot_id, table, 0, Ok(at_once), now);
    law_removals_add_up(now, first@, second@);
    lemma_removed(now, first@);
    lemma_removed(between, second@);
    lemma_removed(now, both@);
}

/// What committing a removal leaves.
proof fn lemma_removed(table: TableView, ids: Seq<i64>)
    ensures
        table.committed(removal(ids)) == Ok::<TableView, ErrorView>(table.without(ids)),
{
    let update = TableUpdateView::RemoveSnapshots { snapshot_ids: ids };
    assert(removal(ids).updates =~= Seq::empty().push(update));
    law_commit_is_taken_where_main_is_required(table, removal(ids));
    law_updates_follow_one_another(table, Seq::empty(), update);
}

} // verus!
