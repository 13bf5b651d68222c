//! Append: adds data files and leaves all else as it is.

use crate::commit_uuid::uuid_version;
use crate::data_file::{clone_files, DataFile, DataFileView};
use crate::error::{Error, ErrorView};
use crate::manifest::{
    ManifestContentType, ManifestEntry, ManifestEntryView, ManifestFile, ManifestFileView,
};
use crate::snapshot::Operation;
use crate::table::{ActionCommit, ActionCommitView, Table, TableView};
use crate::transaction::snapshot_producer::{
    first_file_error, SnapshotProduceOperation, SnapshotProducer, SnapshotProducerView,
};
use crate::transaction::TransactionAction;
use crate::views::{lemma_views_add, outcome, views};
use std::collections::HashMap;
use uuid::Uuid;
use vstd::prelude::*;

verus! {

/// A transaction action adding data files.
pub struct FastAppendAction {
    added_data_files: Vec<DataFile>,
}

/// The contents of a [`FastAppendAction`].
pub struct FastAppendActionView {
    pub added_data_files: Seq<DataFileView>,
}

impl View for FastAppendAction {
    type V = FastAppendActionView;

    closed spec fn view(&self) -> FastAppendActionView {
        FastAppendActionView { added_data_files: views(self.added_data_files@) }
    }
}

impl FastAppendActionView {
    /// What the snapshot is made of.
    pub open spec fn producer(
        self,
        table: TableView,
        snapshot_id: i64,
        commit_uuid: Uuid,
    ) -> SnapshotProducerView {
        SnapshotProducerView {
            table,
            snapshot_id,
            commit_uuid,
            snapshot_properties: Map::empty(),
            added_data_files: self.added_data_files,
            added_delete_files: Seq::empty(),
        }
    }

    /// What planning the action gives, under a commit UUID.
    pub open spec fn planned(
        self,
        table: TableView,
        snapshot_id: i64,
        commit_uuid: Uuid,
    ) -> Result<ActionCommitView, ErrorView> {
        match first_file_error(table, ManifestContentType::Data, self.added_data_files) {
            Some(error) => Err(error),
            None => self.producer(table, snapshot_id, commit_uuid).produced(
                Operation::Append,
                table.current_manifests(),
                Seq::empty(),
            ),
        }
    }
}

impl FastAppendAction {
    /// An action that adds nothing yet.
    pub fn new() -> (action: Self)
        ensures
            action@ == (FastAppendActionView { added_data_files: Seq::empty() }),
    {
        let action = Self { added_data_files: Vec::new() };
        assert(action@.added_data_files =~= Seq::empty());
        action
    }

    /// Add data files, after those added before.
    pub fn add_data_files(self, data_files: Vec<DataFile>) -> (action: Self)
        ensures
            action@ == (FastAppendActionView {
                added_data_files: self@.added_data_files + views(data_files@),
            }),
    {
        let mut added_data_files = self.added_data_files;
        let mut data_files = data_files;
        proof {
            lemma_views_add(added_data_files@, data_files@);
        }
        added_data_files.append(&mut data_files);
        Self { added_data_files }
    }

    /// Plans the action under a commit UUID.
    pub fn commit_under(&self, table: &Table, snapshot_id: i64, commit_uuid: Uuid) -> (result:
        Result<ActionCommit, Error>)
        ensures
            outcome(result) == self@.planned(table@, snapshot_id, commit_uuid),
    {
        let no_delete_files: Vec<DataFile> = Vec::new();
        assert(views(no_delete_files@) =~= Seq::empty());
        let producer = SnapshotProducer::new(
            table,
            snapshot_id,
            commit_uuid,
            HashMap::new(),
            clone_files(&self.added_data_files),
            no_delete_files,
        );
        if let Err(error) = producer.validate_added_data_files() {
            return Err(error);
        }
        producer.commit(&FastAppendOperation)
    }
}

impl TransactionAction for FastAppendAction {
    /// Under a version 7 UUID.
    open spec fn plans(
        &self,
        base: Option<i64>,
        table: TableView,
        snapshot_id: i64,
        result: Result<ActionCommitView, ErrorView>,
    ) -> bool {
        exists|commit_uuid: Uuid|
            uuid_version(commit_uuid) == 7 && result == #[trigger] self@.planned(
                table,
                snapshot_id,
                commit_uuid,
            )
    }

    fn commit(&self, base: Option<i64>, table: &Table, snapshot_id: i64) -> (result: Result<
        ActionCommit,
        Error,
    >) {
        self.commit_under(table, snapshot_id, Uuid::now_v7())
    }
}

/// An append.
pub struct FastAppendOperation;

impl SnapshotProduceOperation for FastAppendOperation {
    open spec fn kind(&self) -> Operation {
        Operation::Append
    }

    open spec fn deletes(&self) -> Seq<ManifestEntryView> {
        Seq::empty()
    }

    /// All manifests carry forward.
    open spec fn carries(&self, table: TableView) -> Seq<ManifestFileView> {
        table.current_manifests()
    }

    fn operation(&self) -> (operation: Operation) {
        Operation::Append
    }

    fn delete_entries(&self, producer: &SnapshotProducer) -> (entries: Result<
        Vec<ManifestEntry>,
        Error,
    >) {
        let entries: Vec<ManifestEntry> = Vec::new();
        assert(views(entries@) =~= Seq::empty());
        Ok(entries)
    }

    fn existing_manifest(&self, producer: &SnapshotProducer) -> (manifests: Result<
        Vec<ManifestFile>,
        Error,
    >) {
        Ok(producer.current_manifests())
    }
}

} // verus!
