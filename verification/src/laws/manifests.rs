//! Manifests: the entries that new files get, and the rows that a manifest counts.

use crate::data_file::DataFileView;
use crate::manifest::{
    added_entries, added_entry, counts_fit, manifest_of, rows_of, ManifestContentType,
    ManifestEntryView, ManifestStatus,
};
use vstd::prelude::*;

verus! {

/// Adding up the rows of one status, entry by entry.
pub(crate) proof fn lemma_rows_are_the_sum(
    entries: Seq<ManifestEntryView>,
    status: ManifestStatus,
    step: spec_fn(nat, ManifestEntryView) -> nat,
)
    requires
        forall|sum: nat, entry: ManifestEntryView| #[trigger]
            step(sum, entry) == (if entry.status == status {
                sum + entry.data_file.record_count
            } else {
                sum
            }),
    ensures
        rows_of(entries, status) == entries.fold_left(0, step),
    decreases entries.len(),
{
    if entries.len() > 0 {
        lemma_rows_are_the_sum(entries.drop_last(), status, step);
    }
}

/// A manifest counts as added the rows of all its entries of status added, and as existing those
/// of all its entries of status existing, whatever else the entries say. It holds the entries as
/// they are, and has no row IDs yet. There is such a manifest exactly where both counts fit.
pub proof fn law_manifest_counts_the_rows_of_its_entries(
    content: ManifestContentType,
    entries: Seq<ManifestEntryView>,
)
    ensures
        manifest_of(content, entries).content == content,
        manifest_of(content, entries).entries == entries,
        manifest_of(content, entries).first_row_id is None,
        manifest_of(content, entries).added_rows_count == entries.fold_left(
            0,
            |sum: nat, entry: ManifestEntryView|
                if entry.status == ManifestStatus::Added {
                    sum + entry.data_file.record_count
                } else {
                    sum
                },
        ),
        manifest_of(content, entries).existing_rows_count == entries.fold_left(
            0,
            |sum: nat, entry: ManifestEntryView|
                if entry.status == ManifestStatus::Existing {
                    sum + entry.data_file.record_count
                } else {
                    sum
                },
        ),
        counts_fit(entries) <==> (manifest_of(content, entries).added_rows_count <= u64::MAX
            && manifest_of(content, entries).existing_rows_count <= u64::MAX),
{
    lemma_rows_are_the_sum(
        entries,
        ManifestStatus::Added,
        |sum: nat, entry: ManifestEntryView|
            if entry.status == ManifestStatus::Added {
                sum + entry.data_file.record_count
            } else {
                sum
            },
    );
    lemma_rows_are_the_sum(
        entries,
        ManifestStatus::Existing,
        |sum: nat, entry: ManifestEntryView|
            if entry.status == ManifestStatus::Existing {
                sum + entry.data_file.record_count
            } else {
                sum
            },
    );
}

/// The row counts of two lists of entries add up.
proof fn lemma_rows_add_up(
    left: Seq<ManifestEntryView>,
    right: Seq<ManifestEntryView>,
    status: ManifestStatus,
)
    ensures
        rows_of(left + right, status) == rows_of(left, status) + rows_of(right, status),
    decreases right.len(),
{
    if right.len() == 0 {
        assert(left + right =~= left);
    } else {
        assert((left + right).drop_last() =~= left + right.drop_last());
        lemma_rows_add_up(left, right.drop_last(), status);
    }
}

/// The manifest of no entries counts no rows. That of one entry counts the rows of its file, under
/// the entry's status; those of a deleted file it does not count. The manifest of two lists of
/// entries, one behind the other, counts what the manifests of the two count together.
pub proof fn law_manifest_counts_add_up(
    content: ManifestContentType,
    left: Seq<ManifestEntryView>,
    right: Seq<ManifestEntryView>,
    entry: ManifestEntryView,
)
    ensures
        manifest_of(content, Seq::empty()).added_rows_count == 0,
        manifest_of(content, Seq::empty()).existing_rows_count == 0,
        manifest_of(content, seq![entry]).added_rows_count == (match entry.status {
            ManifestStatus::Added => entry.data_file.record_count,
            ManifestStatus::Existing => 0,
            ManifestStatus::Deleted => 0,
        }),
        manifest_of(content, seq![entry]).existing_rows_count == (match entry.status {
            ManifestStatus::Added => 0,
            ManifestStatus::Existing => entry.data_file.record_count,
            ManifestStatus::Deleted => 0,
        }),
        manifest_of(content, left + right).added_rows_count == manifest_of(
            content,
            left,
        ).added_rows_count + manifest_of(content, right).added_rows_count,
        manifest_of(content, left + right).existing_rows_count == manifest_of(
            content,
            left,
        ).existing_rows_count + manifest_of(content, right).existing_rows_count,
{
    reveal_with_fuel(rows_of, 2);
    assert(seq![entry].drop_last() =~= Seq::empty());
    lemma_rows_add_up(left, right, ManifestStatus::Added);
    lemma_rows_add_up(left, right, ManifestStatus::Existing);
}

/// New files get one entry each, in their order. The entry has the status added and says of the
/// file all that the file says of itself, but for the row ID of its first row, which it leaves
/// open.
pub proof fn law_new_files_get_an_entry_each(files: Seq<DataFileView>, i: int)
    requires
        0 <= i < files.len(),
    ensures
        added_entries(files).len() == files.len(),
        added_entries(files)[i] == added_entry(files[i]),
        added_entries(files)[i].status == ManifestStatus::Added,
        added_entries(files)[i].data_file.content == files[i].content,
        added_entries(files)[i].data_file.file_path == files[i].file_path,
        added_entries(files)[i].data_file.file_format == files[i].file_format,
        added_entries(files)[i].data_file.file_size_in_bytes == files[i].file_size_in_bytes,
        added_entries(files)[i].data_file.record_count == files[i].record_count,
        added_entries(files)[i].data_file.partition == files[i].partition,
        added_entries(files)[i].data_file.partition_spec_id == files[i].partition_spec_id,
        added_entries(files)[i].data_file.equality_ids == files[i].equality_ids,
        added_entries(files)[i].data_file.first_row_id is None,
{
}

/// Adding up the rows of new files, file by file.
pub(crate) proof fn lemma_new_rows_are_the_sum(
    files: Seq<DataFileView>,
    step: spec_fn(nat, DataFileView) -> nat,
)
    requires
        forall|sum: nat, file: DataFileView| #[trigger]
            step(sum, file) == sum + file.record_count,
    ensures
        rows_of(added_entries(files), ManifestStatus::Added) == files.fold_left(0, step),
        rows_of(added_entries(files), ManifestStatus::Existing) == 0,
    decreases files.len(),
{
    if files.len() > 0 {
        assert(added_entries(files).drop_last() =~= added_entries(files.drop_last()));
        lemma_new_rows_are_the_sum(files.drop_last(), step);
    }
}

/// The manifest of new files counts as added the rows of all of them, and none as existing.
pub proof fn law_manifest_of_new_files_counts_their_rows(
    content: ManifestContentType,
    files: Seq<DataFileView>,
)
    ensures
        manifest_of(content, added_entries(files)).added_rows_count == files.fold_left(
            0,
            |sum: nat, file: DataFileView| sum + file.record_count,
        ),
        manifest_of(content, added_entries(files)).existing_rows_count == 0,
{
    lemma_new_rows_are_the_sum(files, |sum: nat, file: DataFileView| sum + file.record_count);
}

} // verus!
