//! Row delta: adds data files and delete files in one snapshot.

use crate::commit_uuid::uuid_version;
use crate::data_file::{clone_files, DataFile, DataFileView};
use crate::error::{Error, ErrorView};
use crate::manifest::{
    ManifestContentType, ManifestEntry, ManifestEntryView, ManifestFile, ManifestFileView,
};
use crate::snapshot::Operation;
use crate::table::{ActionCommit, ActionCommitView, Table, TableView};
use crate::transaction::snapshot_producer::{
    first_file_error, SnapshotProduceOperation, SnapshotProducer, SnapshotProducerView,
};
use crate::transaction::TransactionAction;
use crate::views::{lemma_views_add, outcome, views};
use std::collections::HashMap;
use uuid::Uuid;
use vstd::prelude::*;

verus! {

/// A transaction action adding data files and delete files.
pub struct RowDeltaAction {
    added_data_files: Vec<DataFile>,
    added_delete_files: Vec<DataFile>,
}

/// The contents of a [`RowDeltaAction`].
pub struct RowDeltaActionView {
    pub added_data_files: Seq<DataFileView>,
    pub added_delete_files: Seq<DataFileView>,
}

impl View for RowDeltaAction {
    type V = RowDeltaActionView;

    closed spec fn view(&self) -> RowDeltaActionView {
        RowDeltaActionView {
            added_data_files: views(self.added_data_files@),
            added_delete_files: views(self.added_delete_files@),
        }
    }
}

impl RowDeltaActionView {
    /// What the snapshot is made of.
    pub open spec fn producer(
        self,
        table: TableView,
        snapshot_id: i64,
        commit_uuid: Uuid,
    ) -> SnapshotProducerView {
        SnapshotProducerView {
            table,
            snapshot_id,
            commit_uuid,
            snapshot_properties: Map::empty(),
            added_data_files: self.added_data_files,
            added_delete_files: self.added_delete_files,
        }
    }

    /// What planning the action gives, under a commit UUID.
    pub open spec fn planned(
        self,
        table: TableView,
        snapshot_id: i64,
        commit_uuid: Uuid,
    ) -> Result<ActionCommitView, ErrorView> {
        match first_file_error(table, ManifestContentType::Data, self.added_data_files) {
            Some(error) => Err(error),
            None => match first_file_error(
                table,
                ManifestContentType::Deletes,
                self.added_delete_files,
            ) {
                Some(error) => Err(error),
                None => self.producer(table, snapshot_id, commit_uuid).produced(
                    Operation::Overwrite,
                    table.current_manifests(),
                    Seq::empty(),
                ),
            },
        }
    }
}

impl RowDeltaAction {
    /// An action that adds nothing yet.
    pub fn new() -> (action: Self)
        ensures
            action@ == (RowDeltaActionView {
                added_data_files: Seq::empty(),
                added_delete_files: Seq::empty(),
            }),
    {
        let action = Self { added_data_files: Vec::new(), added_delete_files: Vec::new() };
        assert(action@.added_data_files =~= Seq::empty());
        assert(action@.added_delete_files =~= Seq::empty());
        action
    }

    /// Add data files, after those added before.
    pub fn add_data_files(self, data_files: Vec<DataFile>) -> (action: Self)
        ensures
            action@ == (RowDeltaActionView {
                added_data_files: self@.added_data_files + views(data_files@),
                ..self@
            }),
    {
        let mut added_data_files = self.added_data_files;
        let mut data_files = data_files;
        proof {
            lemma_views_add(added_data_files@, data_files@);
        }
        added_data_files.append(&mut data_files);
        Self { added_data_files, added_delete_files: self.added_delete_files }
    }

    /// Add delete files, after those added before.
    pub fn add_delete_files(self, delete_files: Vec<DataFile>) -> (action: Self)
        ensures
            action@ == (RowDeltaActionView {
                added_delete_files: self@.added_delete_files + views(delete_files@),
                ..self@
            }),
    {
        let mut added_delete_files = self.added_delete_files;
        let mut delete_files = delete_files;
        proof {
            lemma_views_add(added_delete_files@, delete_files@);
        }
        added_delete_files.append(&mut delete_files);
        Self { added_data_files: self.added_data_files, added_delete_files }
    }

    /// Plans the action under a commit UUID.
    pub fn commit_under(&self, table: &Table, snapshot_id: i64, commit_uuid: Uuid) -> (result:
        Result<ActionCommit, Error>)
        ensures
            outcome(result) == self@.planned(table@, snapshot_id, commit_uuid),
    {
        let producer = SnapshotProducer::new(
            table,
            snapshot_id,
            commit_uuid,
            HashMap::new(),
            clone_files(&self.added_data_files),
            clone_files(&self.added_delete_files),
        );
        if let Err(error) = producer.validate_added_data_files() {
            return Err(error);
        }
        if let Err(error) = producer.validate_added_delete_files() {
            return Err(error);
        }
        producer.commit(&RowDeltaOperation)
    }
}

impl TransactionAction for RowDeltaAction {
    /// Under a version 7 UUID.
    open spec fn plans(
        &self,
        base: Option<i64>,
        table: TableView,
        snapshot_id: i64,
        result: Result<ActionCommitView, ErrorView>,
    ) -> bool {
        exists|commit_uuid: Uuid|
            uuid_version(commit_uuid) == 7 && result == #[trigger] self@.planned(
                table,
                snapshot_id,
                commit_uuid,
            )
    }

    fn commit(&self, base: Option<i64>, table: &Table, snapshot_id: i64) -> (result: Result<
        ActionCommit,
        Error,
    >) {
        self.commit_under(table, snapshot_id, Uuid::now_v7())
    }
}

/// A row delta.
pub struct RowDeltaOperation;

impl SnapshotProduceOperation for RowDeltaOperation {
    open spec fn kind(&self) -> Operation {
        Operation::Overwrite
    }

    open spec fn deletes(&self) -> Seq<ManifestEntryView> {
        Seq::empty()
    }

    /// All manifests carry forward.
    open spec fn carries(&self, table: TableView) -> Seq<ManifestFileView> {
        table.current_manifests()
    }

    fn operation(&self) -> (operation: Operation) {
        Operation::Overwrite
    }

    fn delete_entries(&self, producer: &SnapshotProducer) -> (entries: Result<
        Vec<ManifestEntry>,
        Error,
    >) {
        let entries: Vec<ManifestEntry> = Vec::new();
        assert(views(entries@) =~= Seq::empty());
        Ok(entries)
    }

    fn existing_manifest(&self, producer: &SnapshotProducer) -> (manifests: Result<
        Vec<ManifestFile>,
        Error,
    >) {
        Ok(producer.current_manifests())
    }
}

} // verus!
