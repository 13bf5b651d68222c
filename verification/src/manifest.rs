//! Manifests: lists of files with the row counts that lineage is reckoned from.

use crate::data_file::{DataFile, DataFileView};
use crate::error::{invalid, Error, ErrorKind, ErrorView};
use crate::views::{opt_nat, outcome, views};
use std::sync::Arc;
use vstd::prelude::*;

verus! {

/// The row counts of a manifest do not fit.
pub const ROW_COUNT_OVERFLOW: &'static str = "Row count overflow in manifest";

/// What the files of a manifest hold.
#[derive(Clone, Copy, PartialEq, Eq, Structural, Debug)]
pub enum ManifestContentType {
    Data,
    Deletes,
}

/// What a snapshot did to the file of an entry.
#[derive(Clone, Copy, PartialEq, Eq, Structural, Debug)]
pub enum ManifestStatus {
    Existing,
    Added,
    Deleted,
}

/// A file in a manifest.
#[derive(Debug)]
pub struct ManifestEntry {
    pub status: ManifestStatus,
    pub data_file: DataFile,
}

/// The contents of a [`ManifestEntry`].
pub struct ManifestEntryView {
    pub status: ManifestStatus,
    pub data_file: DataFileView,
}

impl View for ManifestEntry {
    type V = ManifestEntryView;

    open spec fn view(&self) -> ManifestEntryView {
        ManifestEntryView { status: self.status, data_file: self.data_file@ }
    }
}

/// The entry that a new file gets. It names no row ID of its own: the rows take theirs from the
/// manifest.
pub open spec fn added_entry(file: DataFileView) -> ManifestEntryView {
    ManifestEntryView {
        status: ManifestStatus::Added,
        data_file: DataFileView { first_row_id: None, ..file },
    }
}

/// The entries that new files get.
pub open spec fn added_entries(files: Seq<DataFileView>) -> Seq<ManifestEntryView> {
    Seq::new(files.len(), |i: int| added_entry(files[i]))
}

impl ManifestEntry {
    /// The entry of a new file.
    pub fn added(file: &DataFile) -> (entry: ManifestEntry)
        ensures
            entry@ == added_entry(file@),
            entry.status == ManifestStatus::Added,
            entry.data_file.record_count == file.record_count,
            entry.data_file.first_row_id is None,
    {
        let mut data_file = file.clone();
        data_file.first_row_id = None;
        ManifestEntry { status: ManifestStatus::Added, data_file }
    }
}

/// The entries of new files.
pub fn make_added_entries(files: &Vec<DataFile>) -> (entries: Vec<ManifestEntry>)
    ensures
        views(entries@) == added_entries(views(files@)),
        entries.len() == files.len(),
{
    let mut entries: Vec<ManifestEntry> = Vec::new();
    let mut i: usize = 0;
    while i < files.len()
        invariant
            i <= files.len(),
            entries.len() == i,
            forall|j: int| 0 <= j < i ==> (#[trigger] entries@[j])@ == added_entry(files@[j]@),
        decreases files.len() - i,
    {
        entries.push(ManifestEntry::added(&files[i]));
        i += 1;
    }
    assert(views(entries@) =~= added_entries(views(files@)));
    entries
}

/// How many rows the files of one status hold.
pub open spec fn rows_of(entries: Seq<ManifestEntryView>, status: ManifestStatus) -> nat
    decreases entries.len(),
{
    if entries.len() == 0 {
        0
    } else {
        let last = entries.last();
        rows_of(entries.drop_last(), status) + if last.status == status {
            last.data_file.record_count
        } else {
            0
        }
    }
}

/// A manifest, and the row IDs that the manifest list gave it.
#[derive(Debug)]
pub struct ManifestFile {
    pub content: ManifestContentType,
    pub entries: Arc<Vec<ManifestEntry>>,
    pub existing_rows_count: u64,
    pub added_rows_count: u64,
    /// The row ID of the first row; the others follow. Null until it is assigned.
    pub first_row_id: Option<u64>,
}

/// The contents of a [`ManifestFile`].
pub struct ManifestFileView {
    pub content: ManifestContentType,
    pub entries: Seq<ManifestEntryView>,
    pub existing_rows_count: nat,
    pub added_rows_count: nat,
    pub first_row_id: Option<nat>,
}

impl View for ManifestFile {
    type V = ManifestFileView;

    open spec fn view(&self) -> ManifestFileView {
        ManifestFileView {
            content: self.content,
            entries: views(self.entries@),
            existing_rows_count: self.existing_rows_count as nat,
            added_rows_count: self.added_rows_count as nat,
            first_row_id: opt_nat(self.first_row_id),
        }
    }
}

impl ManifestFileView {
    /// How many row IDs the manifest's rows take.
    pub open spec fn rows(self) -> nat {
        self.existing_rows_count + self.added_rows_count
    }

    /// The counts are those of the entries.
    pub open spec fn counts_agree(self) -> bool {
        &&& self.existing_rows_count == rows_of(self.entries, ManifestStatus::Existing)
        &&& self.added_rows_count == rows_of(self.entries, ManifestStatus::Added)
    }
}

/// The manifest that holds the entries, with no row ID assigned.
pub open spec fn manifest_of(
    content: ManifestContentType,
    entries: Seq<ManifestEntryView>,
) -> ManifestFileView {
    ManifestFileView {
        content,
        entries,
        existing_rows_count: rows_of(entries, ManifestStatus::Existing),
        added_rows_count: rows_of(entries, ManifestStatus::Added),
        first_row_id: None,
    }
}

/// Whether the row counts fit a manifest's fields.
pub open spec fn counts_fit(entries: Seq<ManifestEntryView>) -> bool {
    &&& rows_of(entries, ManifestStatus::Existing) <= u64::MAX
    &&& rows_of(entries, ManifestStatus::Added) <= u64::MAX
}

/// A prefix holds no more rows than the whole.
proof fn lemma_rows_of_prefix(entries: Seq<ManifestEntryView>, status: ManifestStatus, n: int)
    requires
        0 <= n <= entries.len(),
    ensures
        rows_of(entries.take(n), status) <= rows_of(entries, status),
    decreases entries.len(),
{
    if n == entries.len() {
        assert(entries.take(n) =~= entries);
    } else {
        lemma_rows_of_prefix(entries.drop_last(), status, n);
        assert(entries.drop_last().take(n) =~= entries.take(n));
    }
}

/// The rows of one status, added up over the entries themselves.
proof fn lemma_rows_of_entries(
    entries: Seq<ManifestEntry>,
    status: ManifestStatus,
    step: spec_fn(nat, ManifestEntry) -> nat,
)
    requires
        forall|sum: nat, entry: ManifestEntry| #[trigger]
            step(sum, entry) == (if entry.status == status {
                sum + entry.data_file.record_count as nat
            } else {
                sum
            }),
    ensures
        rows_of(views(entries), status) == entries.fold_left(0, step),
    decreases entries.len(),
{
    if entries.len() > 0 {
        assert(views(entries).drop_last() =~= views(entries.drop_last()));
        lemma_rows_of_entries(entries.drop_last(), status, step);
    }
}

/// The rows that are added and those that exist, added up over the entries themselves.
proof fn lemma_counts_of_entries(entries: Seq<ManifestEntry>)
    ensures
        rows_of(views(entries), ManifestStatus::Added) == entries.fold_left(
            0,
            |sum: nat, entry: ManifestEntry|
                if entry.status == ManifestStatus::Added {
                    sum + entry.data_file.record_count as nat
                } else {
                    sum
                },
        ),
        rows_of(views(entries), ManifestStatus::Existing) == entries.fold_left(
            0,
            |sum: nat, entry: ManifestEntry|
                if entry.status == ManifestStatus::Existing {
                    sum + entry.data_file.record_count as nat
                } else {
                    sum
                },
        ),
{
    lemma_rows_of_entries(
        entries,
        ManifestStatus::Added,
        |sum: nat, entry: ManifestEntry|
            if entry.status == ManifestStatus::Added {
                sum + entry.data_file.record_count as nat
            } else {
                sum
            },
    );
    lemma_rows_of_entries(
        entries,
        ManifestStatus::Existing,
        |sum: nat, entry: ManifestEntry|
            if entry.status == ManifestStatus::Existing {
                sum + entry.data_file.record_count as nat
            } else {
                sum
            },
    );
}

impl ManifestFile {
    /// A manifest of the entries. Its row IDs are not assigned yet.
    pub fn new(content: ManifestContentType, entries: Vec<ManifestEntry>) -> (manifest: Result<
        ManifestFile,
        Error,
    >)
        ensures
            outcome(manifest) == (if counts_fit(views(entries@)) {
                Ok::<ManifestFileView, ErrorView>(manifest_of(content, views(entries@)))
            } else {
                Err(invalid(ROW_COUNT_OVERFLOW))
            }),
            ({
                let added = entries@.fold_left(
                    0,
                    |sum: nat, entry: ManifestEntry|
                        if entry.status == ManifestStatus::Added {
                            sum + entry.data_file.record_count as nat
                        } else {
                            sum
                        },
                );
                let existing = entries@.fold_left(
                    0,
                    |sum: nat, entry: ManifestEntry|
                        if entry.status == ManifestStatus::Existing {
                            sum + entry.data_file.record_count as nat
                        } else {
                            sum
                        },
                );
                &&& manifest is Ok <==> added <= u64::MAX && existing <= u64::MAX
                &&& manifest matches Ok(made) ==> {
                    &&& made.content == content
                    &&& made.entries@ == entries@
                    &&& made.added_rows_count == added
                    &&& made.existing_rows_count == existing
                    &&& made.first_row_id is None
                }
            }),
    {
        proof {
            lemma_counts_of_entries(entries@);
        }
        let ghost all = views(entries@);
        let mut existing: u64 = 0;
        let mut added: u64 = 0;
        let mut i: usize = 0;
        while i < entries.len()
            invariant
                i <= entries.len(),
                all == views(entries@),
                existing == rows_of(all.take(i as int), ManifestStatus::Existing),
                added == rows_of(all.take(i as int), ManifestStatus::Added),
            decreases entries.len() - i,
        {
            let rows: u64 = entries[i].data_file.record_count;
            proof {
                assert(all.take(i + 1).drop_last() =~= all.take(i as int));
                assert(all.take(i + 1).last() == entries@[i as int]@);
                lemma_rows_of_prefix(all, ManifestStatus::Existing, i + 1);
                lemma_rows_of_prefix(all, ManifestStatus::Added, i + 1);
                lemma_counts_of_entries(entries@);
            }
            match entries[i].status {
                ManifestStatus::Existing => match existing.checked_add(rows) {
                    Some(sum) => {
                        existing = sum;
                    },
                    None => {
                        return Err(Error::new(ErrorKind::DataInvalid, ROW_COUNT_OVERFLOW));
                    },
                },
                ManifestStatus::Added => match added.checked_add(rows) {
                    Some(sum) => {
                        added = sum;
                    },
                    None => {
                        return Err(Error::new(ErrorKind::DataInvalid, ROW_COUNT_OVERFLOW));
                    },
                },
                ManifestStatus::Deleted => {},
            }
            i += 1;
        }
        assert(all.take(i as int) =~= all);
        Ok(
            ManifestFile {
                content,
                entries: Arc::new(entries),
                existing_rows_count: existing,
                added_rows_count: added,
                first_row_id: None,
            },
        )
    }

    /// The same manifest with other row IDs.
    pub fn with_first_row_id(&self, first_row_id: Option<u64>) -> (manifest: ManifestFile)
        ensures
            manifest@ == (ManifestFileView { first_row_id: opt_nat(first_row_id), ..self@ }),
            manifest == (ManifestFile { first_row_id, ..*self }),
    {
        ManifestFile {
            content: self.content,
            entries: self.entries.clone(),
            existing_rows_count: self.existing_rows_count,
            added_rows_count: self.added_rows_count,
            first_row_id,
        }
    }
}

/// A copy of a list of manifests.
pub fn clone_manifests(manifests: &Vec<ManifestFile>) -> (copy: Vec<ManifestFile>)
    ensures
        views(copy@) == views(manifests@),
{
    let mut copy: Vec<ManifestFile> = Vec::new();
    let mut i: usize = 0;
    while i < manifests.len()
        invariant
            i <= manifests.len(),
            copy.len() == i,
            forall|j: int| 0 <= j < i ==> (#[trigger] copy@[j])@ == manifests@[j]@,
        decreases manifests.len() - i,
    {
        copy.push(manifests[i].with_first_row_id(manifests[i].first_row_id));
        i += 1;
    }
    assert(views(copy@) =~= views(manifests@));
    copy
}

} // verus!
