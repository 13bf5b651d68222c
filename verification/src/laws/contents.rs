//! Contents: what the contracts' views of the library's values say of the values themselves.

use crate::data_file::{partition_view, DataFile, Literal, LiteralView};
use crate::error::{conflict, invalid, Error, ErrorKind, ErrorView};
use crate::lineage::{opt_range, ManifestList, RowRange};
use crate::manifest::{ManifestEntry, ManifestFile};
use crate::snapshot::Snapshot;
use crate::table::{ActionCommit, Table, TableUpdate, TableUpdateView};
use crate::transaction::attempts::{CommitEvent, CommitEventView, CommitStep, CommitStepView};
use crate::transaction::snapshot_producer::SnapshotProducer;
use crate::views::{opt_nat, outcome, views};
use vstd::prelude::*;

verus! {

/// The views of a list are those of its items, one each and in their order.
pub proof fn law_views_are_those_of_the_items<T: View>(items: Seq<T>, i: int)
    requires
        0 <= i < items.len(),
    ensures
        views(items).len() == items.len(),
        views(items)[i] == items[i]@,
{
}

/// Two lists with the same views have as many items, and item by item the same views.
pub proof fn law_equal_views_are_equal_item_by_item<T: View>(left: Seq<T>, right: Seq<T>)
    ensures
        views(left) == views(right) <==> left.len() == right.len() && forall|i: int|
            0 <= i < left.len() ==> (#[trigger] left[i])@ == right[i]@,
{
    if views(left) == views(right) {
        assert(views(left).len() == views(right).len());
        assert forall|i: int| 0 <= i < left.len() implies (#[trigger] left[i])@ == right[i]@ by {
            assert(views(left)[i] == views(right)[i]);
        }
    } else if left.len() == right.len() && (forall|i: int|
        0 <= i < left.len() ==> (#[trigger] left[i])@ == right[i]@) {
        assert(views(left) =~= views(right));
    }
}

/// The outcome of a call is a success with the value's contents or an error with the error's.
pub proof fn law_outcome_is_the_result<T: View>(value: T, error: Error)
    ensures
        outcome(Ok::<T, Error>(value)) == Ok::<T::V, ErrorView>(value@),
        outcome(Err::<T, Error>(error)) == Err::<T::V, ErrorView>(error@),
{
}

/// What there is of a number or of a row range is kept.
pub proof fn law_optional_contents(number: u64, range: RowRange)
    ensures
        opt_nat(None) is None,
        opt_nat(Some(number)) == Some(number as nat),
        opt_range(None) is None,
        opt_range(Some(range)) matches Some(contents) && contents.first_row_id
            == range.first_row_id && contents.added_rows == range.added_rows,
{
}

/// An error's contents are its fields. A value that is not valid gives an error that no retry
/// mends; a commit that came too late gives one that a retry may mend.
pub proof fn law_contents_of_error(error: Error, message: &str)
    ensures
        error@.kind == error.kind,
        error@.message == error.message@,
        error@.retryable == error.retryable,
        invalid(message).kind == ErrorKind::DataInvalid,
        invalid(message).message == message@,
        !invalid(message).retryable,
        conflict(message).kind == ErrorKind::CatalogCommitConflicts,
        conflict(message).message == message@,
        conflict(message).retryable,
{
}

/// A literal's contents are its kind and its value.
pub proof fn law_contents_of_literal(literal: Literal)
    ensures
        match literal {
            Literal::Boolean(value) => literal@ == LiteralView::Boolean(value),
            Literal::Int(value) => literal@ == LiteralView::Int(value as int),
            Literal::Long(value) => literal@ == LiteralView::Long(value as int),
            Literal::Float(bits) => literal@ == LiteralView::Float(bits),
            Literal::Double(bits) => literal@ == LiteralView::Double(bits),
            Literal::Int128(value) => literal@ == LiteralView::Int128(value as int),
            Literal::UInt128(value) => literal@ == LiteralView::UInt128(value as int),
            Literal::String(value) => literal@ == LiteralView::String(value@),
            Literal::Binary(bytes) => literal@ == LiteralView::Binary(bytes@),
        },
{
}

/// A partition's contents are those of its values, one each; a null stays a null.
pub proof fn law_contents_of_partition(partition: Seq<Option<Literal>>, i: int)
    requires
        0 <= i < partition.len(),
    ensures
        partition_view(partition).len() == partition.len(),
        partition[i] is None ==> partition_view(partition)[i] is None,
        partition[i] matches Some(literal) ==> partition_view(partition)[i] == Some(literal@),
{
}

/// A data file's contents are its fields.
pub proof fn law_contents_of_data_file(file: DataFile)
    ensures
        file@.content == file.content,
        file@.file_path == file.file_path@,
        file@.file_format == file.file_format,
        file@.file_size_in_bytes == file.file_size_in_bytes,
        file@.record_count == file.record_count,
        file@.partition == partition_view(file.partition@),
        file@.partition_spec_id == file.partition_spec_id,
        file.equality_ids is None ==> file@.equality_ids is None,
        file.equality_ids matches Some(ids) ==> file@.equality_ids == Some(ids@),
        file@.first_row_id == file.first_row_id,
{
}

/// A manifest's contents are its fields, and an entry's are its status and its file.
pub proof fn law_contents_of_manifest(manifest: ManifestFile, entry: ManifestEntry)
    ensures
        entry@.status == entry.status,
        entry@.data_file == entry.data_file@,
        manifest@.content == manifest.content,
        manifest@.entries == views(manifest.entries@),
        manifest@.existing_rows_count == manifest.existing_rows_count,
        manifest@.added_rows_count == manifest.added_rows_count,
        manifest.first_row_id is None ==> manifest@.first_row_id is None,
        manifest.first_row_id matches Some(id) ==> manifest@.first_row_id == Some(id as nat),
{
}

/// A manifest list's contents are its manifests and the row IDs that it took.
pub proof fn law_contents_of_manifest_list(list: ManifestList)
    ensures
        list@.manifests == views(list.manifests@),
        list.row_range is None ==> list@.row_range is None,
        list.row_range matches Some(range) ==> (list@.row_range matches Some(contents)
            && contents.first_row_id == range.first_row_id && contents.added_rows
            == range.added_rows),
{
}

/// A snapshot's contents are its fields.
pub proof fn law_contents_of_snapshot(snapshot: Snapshot)
    ensures
        snapshot@.snapshot_id == snapshot.snapshot_id,
        snapshot@.commit_uuid == snapshot.commit_uuid,
        snapshot@.operation == snapshot.operation,
        snapshot@.properties == snapshot.properties@,
        snapshot@.manifests == views(snapshot.manifests@),
        snapshot.row_range is None ==> snapshot@.row_range is None,
        snapshot.row_range matches Some(range) ==> (snapshot@.row_range matches Some(contents)
            && contents.first_row_id == range.first_row_id && contents.added_rows
            == range.added_rows),
{
}

/// A table's contents are its fields.
pub proof fn law_contents_of_table(table: Table)
    ensures
        table@.format_version == table.format_version,
        table@.next_row_id == table.next_row_id,
        table@.default_partition_spec_id == table.default_partition_spec_id,
        table@.partition_type == table.partition_type@,
        table@.snapshots.len() == table.snapshots@.len(),
        forall|i: int|
            0 <= i < table.snapshots@.len() ==> #[trigger] table@.snapshots[i]
                == table.snapshots@[i]@,
        table@.current_snapshot_id == table.current_snapshot_id,
{
}

/// An update's contents are its kind and what it is to add, point to, remove or take the table to;
/// a commit's are its updates, in their order, and what they require.
pub proof fn law_contents_of_commit(update: TableUpdate, commit: ActionCommit)
    ensures
        match update {
            TableUpdate::AddSnapshot { snapshot } => update@ == (TableUpdateView::AddSnapshot {
                snapshot: snapshot@,
            }),
            TableUpdate::SetSnapshotRef { snapshot_id } => update@ == (
            TableUpdateView::SetSnapshotRef { snapshot_id }),
            TableUpdate::RemoveSnapshots { snapshot_ids } => update@ == (
            TableUpdateView::RemoveSnapshots { snapshot_ids: snapshot_ids@ }),
            TableUpdate::UpgradeFormatVersion { format_version } => update@ == (
            TableUpdateView::UpgradeFormatVersion { format_version }),
        },
        commit@.updates == views(commit.updates@),
        commit@.requirements == commit.requirements@,
{
}

/// A producer's contents are its fields.
pub proof fn law_contents_of_producer(producer: SnapshotProducer)
    ensures
        producer@.table == producer.table@,
        producer@.snapshot_id == producer.snapshot_id,
        producer@.commit_uuid == producer.commit_uuid,
        producer@.snapshot_properties == producer.snapshot_properties@,
        producer@.added_data_files == views(producer.added_data_files@),
        producer@.added_delete_files == views(producer.added_delete_files@),
{
}

/// An event's contents are its kind and what came with it, and so are a step's.
pub proof fn law_contents_of_event_and_step(event: CommitEvent, step: CommitStep)
    ensures
        match event {
            CommitEvent::Loaded { table, snapshot_id } => event@ == (CommitEventView::Loaded {
                table: table@,
                snapshot_id,
            }),
            CommitEvent::Updated { table } => event@ == (CommitEventView::Updated {
                table: table@,
            }),
            CommitEvent::Failed { error } => event@ == (CommitEventView::Failed { error: error@ }),
        },
        match step {
            CommitStep::Load => step@ == CommitStepView::Load,
            CommitStep::Update { commit } => step@ == (CommitStepView::Update { commit: commit@ }),
            CommitStep::Done { table } => step@ == (CommitStepView::Done { table: table@ }),
            CommitStep::Fail { error } => step@ == (CommitStepView::Fail { error: error@ }),
        },
{
}

} // verus!
