//! Makes the snapshot that an action adds to a table.

use crate::data_file::{
    partition_view, DataContentType, DataFile, DataFileView, Literal, LiteralView, PrimitiveType,
};
use crate::error::{invalid, Error, ErrorKind, ErrorView};
use crate::lineage::{listed, listed_range, row_ids_fit, ManifestList, ROW_ID_OVERFLOW};
use crate::manifest::{
    added_entries, clone_manifests, counts_fit, make_added_entries, manifest_of,
    ManifestContentType, ManifestEntry, ManifestEntryView, ManifestFile, ManifestFileView,
    ROW_COUNT_OVERFLOW,
};
use crate::snapshot::{Operation, Snapshot, SnapshotView};
use crate::table::{
    ActionCommit, ActionCommitView, Table, TableRequirement, TableUpdate, TableUpdateView,
    TableView,
};
use crate::views::{lemma_views_push, outcome, views};
use std::collections::HashMap;
use std::sync::Arc;
use uuid::Uuid;
use vstd::prelude::*;

verus! {

/// A file of deletes stands among the data files.
pub const NOT_DATA: &'static str = "Only data content type is allowed for data files";

/// A file of rows stands among the delete files.
pub const NOT_DELETES: &'static str = "Only delete content types are allowed for delete files";

/// A file belongs to another partition spec.
pub const PARTITION_SPEC_MISMATCH: &'static str =
    "Data file partition spec id does not match table default partition spec id";

/// A file's partition is not one of the table's.
pub const PARTITION_MISMATCH: &'static str =
    "Partition value is not compatible with partition type";

/// How an action turns a table's files into those of the snapshot that it adds.
pub trait SnapshotProduceOperation {
    /// What kind of change it is.
    spec fn kind(&self) -> Operation;

    /// The entries that the snapshot marks deleted.
    spec fn deletes(&self) -> Seq<ManifestEntryView>;

    /// The manifests that the snapshot takes over from the table.
    spec fn carries(&self, table: TableView) -> Seq<ManifestFileView>;

    /// What kind of change it is.
    fn operation(&self) -> (operation: Operation)
        ensures
            operation == self.kind(),
    ;

    /// The entries that the snapshot marks deleted.
    fn delete_entries(&self, producer: &SnapshotProducer) -> (entries: Result<
        Vec<ManifestEntry>,
        Error,
    >)
        ensures
            entries matches Ok(list) && views(list@) == self.deletes(),
    ;

    /// The manifests that the snapshot takes over from the table.
    fn existing_manifest(&self, producer: &SnapshotProducer) -> (manifests: Result<
        Vec<ManifestFile>,
        Error,
    >)
        ensures
            manifests matches Ok(list) && views(list@) == self.carries(producer@.table),
    ;
}

/// What a snapshot is made of.
pub struct SnapshotProducer<'a> {
    pub table: &'a Table,
    pub snapshot_id: i64,
    pub commit_uuid: Uuid,
    pub snapshot_properties: HashMap<String, String>,
    pub added_data_files: Vec<DataFile>,
    pub added_delete_files: Vec<DataFile>,
}

/// The contents of a [`SnapshotProducer`].
pub struct SnapshotProducerView {
    pub table: TableView,
    pub snapshot_id: i64,
    pub commit_uuid: Uuid,
    pub snapshot_properties: Map<String, String>,
    pub added_data_files: Seq<DataFileView>,
    pub added_delete_files: Seq<DataFileView>,
}

impl<'a> View for SnapshotProducer<'a> {
    type V = SnapshotProducerView;

    open spec fn view(&self) -> SnapshotProducerView {
        SnapshotProducerView {
            table: self.table@,
            snapshot_id: self.snapshot_id,
            commit_uuid: self.commit_uuid,
            snapshot_properties: self.snapshot_properties@,
            added_data_files: views(self.added_data_files@),
            added_delete_files: views(self.added_delete_files@),
        }
    }
}

/// Whether a partition has a value, of the right type or null, for each field.
pub open spec fn partition_fits(
    partition: Seq<Option<LiteralView>>,
    types: Seq<PrimitiveType>,
) -> bool {
    &&& partition.len() == types.len()
    &&& forall|i: int|
        0 <= i < partition.len() ==> (#[trigger] partition[i] matches Some(value)
            ==> value.has_type(types[i]))
}

/// The manifests that a file of the content goes to.
pub open spec fn manifest_content(content: DataContentType) -> ManifestContentType {
    match content {
        DataContentType::Data => ManifestContentType::Data,
        _ => ManifestContentType::Deletes,
    }
}

/// Why a file cannot be added to the table as a file of the content, if it cannot.
pub open spec fn file_error(
    table: TableView,
    content: ManifestContentType,
    file: DataFileView,
) -> Option<ErrorView> {
    if manifest_content(file.content) != content {
        match content {
            ManifestContentType::Data => Some(invalid(NOT_DATA)),
            ManifestContentType::Deletes => Some(invalid(NOT_DELETES)),
        }
    } else if file.partition_spec_id != table.default_partition_spec_id {
        Some(invalid(PARTITION_SPEC_MISMATCH))
    } else if !partition_fits(file.partition, table.partition_type) {
        Some(invalid(PARTITION_MISMATCH))
    } else {
        None
    }
}

/// The error of the first file that cannot be added, if there is one.
pub open spec fn first_file_error(
    table: TableView,
    content: ManifestContentType,
    files: Seq<DataFileView>,
) -> Option<ErrorView>
    decreases files.len(),
{
    if files.len() == 0 {
        None
    } else {
        match file_error(table, content, files[0]) {
            Some(error) => Some(error),
            None => first_file_error(table, content, files.drop_first()),
        }
    }
}

/// Success, or the error if there is one.
pub open spec fn unless_error(error: Option<ErrorView>) -> Result<(), ErrorView> {
    match error {
        Some(error) => Err(error),
        None => Ok(()),
    }
}

/// The manifest of the entries; none for no entries.
pub open spec fn manifests_of(
    content: ManifestContentType,
    entries: Seq<ManifestEntryView>,
) -> Seq<ManifestFileView> {
    if entries.len() == 0 {
        Seq::empty()
    } else {
        seq![manifest_of(content, entries)]
    }
}

impl SnapshotProducerView {
    /// The manifests that the snapshot adds: of the data files, of the delete files, and of the
    /// entries marked deleted.
    pub open spec fn new_manifests(self, deletes: Seq<ManifestEntryView>) -> Seq<ManifestFileView> {
        manifests_of(ManifestContentType::Data, added_entries(self.added_data_files))
            + manifests_of(ManifestContentType::Deletes, added_entries(self.added_delete_files))
            + manifests_of(ManifestContentType::Data, deletes)
    }

    /// The manifests of the snapshot: those it carries, then those it adds.
    pub open spec fn manifests(
        self,
        carried: Seq<ManifestFileView>,
        deletes: Seq<ManifestEntryView>,
    ) -> Seq<ManifestFileView> {
        carried + self.new_manifests(deletes)
    }

    /// The snapshot.
    pub open spec fn snapshot(
        self,
        operation: Operation,
        manifests: Seq<ManifestFileView>,
    ) -> SnapshotView {
        let version = self.table.format_version;
        let next = self.table.next_row_id;
        SnapshotView {
            snapshot_id: self.snapshot_id,
            commit_uuid: self.commit_uuid,
            operation,
            properties: self.snapshot_properties,
            manifests: listed(version, manifests, next),
            row_range: listed_range(version, manifests, next),
        }
    }

    /// The commit that adds the snapshot and points the main branch to it, provided that the
    /// main branch has not moved.
    pub open spec fn adding(self, snapshot: SnapshotView) -> ActionCommitView {
        ActionCommitView {
            updates: seq![
                TableUpdateView::AddSnapshot { snapshot },
                TableUpdateView::SetSnapshotRef { snapshot_id: self.snapshot_id },
            ],
            requirements: seq![
                TableRequirement::RefSnapshotIdMatch {
                    snapshot_id: self.table.current_snapshot_id,
                },
            ],
        }
    }

    /// Whether the row counts of the new manifests fit.
    pub open spec fn new_counts_fit(self, deletes: Seq<ManifestEntryView>) -> bool {
        &&& counts_fit(added_entries(self.added_data_files))
        &&& counts_fit(added_entries(self.added_delete_files))
        &&& counts_fit(deletes)
    }

    /// What producing the snapshot gives.
    pub open spec fn produced(
        self,
        operation: Operation,
        carried: Seq<ManifestFileView>,
        deletes: Seq<ManifestEntryView>,
    ) -> Result<ActionCommitView, ErrorView> {
        let manifests = self.manifests(carried, deletes);
        if !self.new_counts_fit(deletes) {
            Err(invalid(ROW_COUNT_OVERFLOW))
        } else if !row_ids_fit(self.table.format_version, manifests, self.table.next_row_id) {
            Err(invalid(ROW_ID_OVERFLOW))
        } else {
            Ok(self.adding(self.snapshot(operation, manifests)))
        }
    }
}

/// Whether a partition has a value, of the right type or null, for each field.
fn check_partition(partition: &Vec<Option<Literal>>, types: &Vec<PrimitiveType>) -> (fits: bool)
    ensures
        fits == partition_fits(partition_view(partition@), types@),
{
    let ghost values = partition_view(partition@);
    if partition.len() != types.len() {
        return false;
    }
    let mut i: usize = 0;
    while i < partition.len()
        invariant
            i <= partition.len(),
            partition.len() == types.len(),
            values == partition_view(partition@),
            forall|j: int|
                0 <= j < i ==> (#[trigger] values[j] matches Some(value) ==> value.has_type(
                    types@[j],
                )),
        decreases partition.len() - i,
    {
        let fits: bool = match &partition[i] {
            Some(literal) => literal.compatible(types[i]),
            None => true,
        };
        if !fits {
            assert(values[i as int] is Some);
            return false;
        }
        i += 1;
    }
    true
}

/// Whether the file goes to the manifests of the content.
fn has_content(file: &DataFile, content: ManifestContentType) -> (answer: bool)
    ensures
        answer == (manifest_content(file.content) == content),
{
    let own = match file.content {
        DataContentType::Data => ManifestContentType::Data,
        _ => ManifestContentType::Deletes,
    };
    own == content
}

impl<'a> SnapshotProducer<'a> {
    /// A producer of a snapshot of the table.
    pub fn new(
        table: &'a Table,
        snapshot_id: i64,
        commit_uuid: Uuid,
        snapshot_properties: HashMap<String, String>,
        added_data_files: Vec<DataFile>,
        added_delete_files: Vec<DataFile>,
    ) -> (producer: Self)
        ensures
            producer@ == (SnapshotProducerView {
                table: table@,
                snapshot_id,
                commit_uuid,
                snapshot_properties: snapshot_properties@,
                added_data_files: views(added_data_files@),
                added_delete_files: views(added_delete_files@),
            }),
    {
        SnapshotProducer {
            table,
            snapshot_id,
            commit_uuid,
            snapshot_properties,
            added_data_files,
            added_delete_files,
        }
    }

    /// Checks that the files can be added to the table.
    fn validate(&self, content: ManifestContentType, files: &Vec<DataFile>) -> (result: Result<
        (),
        Error,
    >)
        ensures
            outcome(result) == unless_error(
                first_file_error(self@.table, content, views(files@)),
            ),
    {
        let ghost all = views(files@);
        assert(all.skip(0) =~= all);
        let mut i: usize = 0;
        while i < files.len()
            invariant
                i <= files.len(),
                all == views(files@),
                first_file_error(self@.table, content, all) == first_file_error(
                    self@.table,
                    content,
                    all.skip(i as int),
                ),
            decreases files.len() - i,
        {
            let file = &files[i];
            proof {
                assert(all.skip(i as int)[0] == file@);
                assert(all.skip(i as int).drop_first() =~= all.skip(i + 1));
            }
            if !has_content(file, content) {
                return match content {
                    ManifestContentType::Data => Err(Error::new(ErrorKind::DataInvalid, NOT_DATA)),
                    ManifestContentType::Deletes => Err(
                        Error::new(ErrorKind::DataInvalid, NOT_DELETES),
                    ),
                };
            }
            if file.partition_spec_id != self.table.default_partition_spec_id {
                return Err(Error::new(ErrorKind::DataInvalid, PARTITION_SPEC_MISMATCH));
            }
            if !check_partition(&file.partition, &self.table.partition_type) {
                return Err(Error::new(ErrorKind::DataInvalid, PARTITION_MISMATCH));
            }
            i += 1;
        }
        Ok(())
    }

    /// Checks that the data files are data files of the table.
    pub fn validate_added_data_files(&self) -> (result: Result<(), Error>)
        ensures
            outcome(result) == unless_error(
                first_file_error(
                    self@.table,
                    ManifestContentType::Data,
                    self@.added_data_files,
                ),
            ),
    {
        self.validate(ManifestContentType::Data, &self.added_data_files)
    }

    /// Checks that the delete files are delete files of the table.
    pub fn validate_added_delete_files(&self) -> (result: Result<(), Error>)
        ensures
            outcome(result) == unless_error(
                first_file_error(
                    self@.table,
                    ManifestContentType::Deletes,
                    self@.added_delete_files,
                ),
            ),
    {
        self.validate(ManifestContentType::Deletes, &self.added_delete_files)
    }

    /// The manifests of the table's current snapshot.
    pub fn current_manifests(&self) -> (manifests: Vec<ManifestFile>)
        ensures
            views(manifests@) == self@.table.current_manifests(),
    {
        match self.table.current_snapshot() {
            Some(snapshot) => clone_manifests(&snapshot.manifests),
            None => {
                let none: Vec<ManifestFile> = Vec::new();
                assert(views(none@) =~= Seq::empty());
                none
            },
        }
    }

    /// Produces the snapshot, and the commit that adds it to the table.
    pub fn commit<O: SnapshotProduceOperation>(&self, operation: &O) -> (result: Result<
        ActionCommit,
        Error,
    >)
        ensures
            outcome(result) == self@.produced(
                operation.kind(),
                operation.carries(self@.table),
                operation.deletes(),
            ),
    {
        let mut manifests = match operation.existing_manifest(self) {
            Ok(manifests) => manifests,
            Err(error) => {
                return Err(error);
            },
        };
        let deleted = match operation.delete_entries(self) {
            Ok(entries) => entries,
            Err(error) => {
                return Err(error);
            },
        };
        let ghost carried = views(manifests@);
        let ghost deletes = views(deleted@);
        let data = make_added_entries(&self.added_data_files);
        let delete = make_added_entries(&self.added_delete_files);
        if let Err(error) = push_manifest(&mut manifests, ManifestContentType::Data, data) {
            return Err(error);
        }
        if let Err(error) = push_manifest(&mut manifests, ManifestContentType::Deletes, delete) {
            return Err(error);
        }
        if let Err(error) = push_manifest(&mut manifests, ManifestContentType::Data, deleted) {
            return Err(error);
        }
        assert(views(manifests@) =~= self@.manifests(carried, deletes));
        let list = match ManifestList::write(
            self.table.format_version,
            self.table.next_row_id,
            &manifests,
        ) {
            Ok(list) => list,
            Err(error) => {
                return Err(error);
            },
        };
        let snapshot = Arc::new(
            Snapshot {
                snapshot_id: self.snapshot_id,
                commit_uuid: self.commit_uuid,
                operation: operation.operation(),
                properties: self.snapshot_properties.clone(),
                manifests: list.manifests,
                row_range: list.row_range,
            },
        );
        let ghost expected = self@.snapshot(operation.kind(), self@.manifests(carried, deletes));
        assert(snapshot@ == expected);
        let updates = vec![
            TableUpdate::AddSnapshot { snapshot },
            TableUpdate::SetSnapshotRef { snapshot_id: self.snapshot_id },
        ];
        let requirements = vec![
            TableRequirement::RefSnapshotIdMatch { snapshot_id: self.table.current_snapshot_id },
        ];
        let commit = ActionCommit::new(updates, requirements);
        assert(commit@.updates =~= self@.adding(expected).updates);
        assert(commit@.requirements =~= self@.adding(expected).requirements);
        Ok(commit)
    }
}

/// Appends the manifest of the entries, if there are entries.
fn push_manifest(
    manifests: &mut Vec<ManifestFile>,
    content: ManifestContentType,
    entries: Vec<ManifestEntry>,
) -> (result: Result<(), Error>)
    ensures
        outcome(result) == (if counts_fit(views(entries@)) {
            Ok::<(), ErrorView>(())
        } else {
            Err(invalid(ROW_COUNT_OVERFLOW))
        }),
        result is Ok ==> views(final(manifests)@) == views(old(manifests)@) + manifests_of(
            content,
            views(entries@),
        ),
        result is Err ==> final(manifests)@ == old(manifests)@,
{
    if entries.len() == 0 {
        assert(views(manifests@) =~= views(manifests@) + manifests_of(content, views(entries@)));
        return Ok(());
    }
    match ManifestFile::new(content, entries) {
        Ok(manifest) => {
            proof {
                lemma_views_push(manifests@, manifest);
            }
            manifests.push(manifest);
            assert(views(manifests@) =~= views(old(manifests)@) + manifests_of(
                content,
                views(entries@),
            ));
            Ok(())
        },
        Err(error) => Err(error),
    }
}

} // verus!
