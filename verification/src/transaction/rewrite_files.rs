//! Full-table rewrite: a `replace` snapshot whose data is exactly the added files. No manifest
//! carries forward. The table's live rows are rewritten into fewer or sorted files, and the
//! delete files that piled up fall away, their effect being baked into the rewritten data.
//! Earlier snapshots keep their files, so that history can be read until the snapshots are
//! removed.
//!
//! That the added files hold exactly the table's live rows, as the caller read them, is up to the
//! caller. The rewrite is rejected if the table moved after that, be it before the rewrite is
//! planned or between the plan and the commit.

use crate::commit_uuid::uuid_version;
use crate::data_file::{clone_files, DataFile, DataFileView};
use crate::error::{Error, ErrorKind, ErrorView};
use crate::manifest::{
    ManifestContentType, ManifestEntry, ManifestEntryView, ManifestFile, ManifestFileView,
};
use crate::snapshot::Operation;
use crate::table::{same_ref, ActionCommit, ActionCommitView, Table, TableView, REF_MOVED};
use crate::transaction::snapshot_producer::{
    first_file_error, SnapshotProduceOperation, SnapshotProducer, SnapshotProducerView,
};
use crate::transaction::TransactionAction;
use crate::views::{lemma_views_add, outcome, views};
use std::collections::HashMap;
use uuid::Uuid;
use vstd::prelude::*;

verus! {

/// A transaction action replacing the table's entire live file set with the added data files, as
/// a `replace` snapshot (compaction, re-clustering).
pub struct RewriteFilesAction {
    commit_uuid: Option<Uuid>,
    snapshot_properties: HashMap<String, String>,
    added_data_files: Vec<DataFile>,
}

/// The contents of a [`RewriteFilesAction`].
pub struct RewriteFilesActionView {
    pub commit_uuid: Option<Uuid>,
    pub snapshot_properties: Map<String, String>,
    pub added_data_files: Seq<DataFileView>,
}

impl View for RewriteFilesAction {
    type V = RewriteFilesActionView;

    closed spec fn view(&self) -> RewriteFilesActionView {
        RewriteFilesActionView {
            commit_uuid: self.commit_uuid,
            snapshot_properties: self.snapshot_properties@,
            added_data_files: views(self.added_data_files@),
        }
    }
}

/// The error of a rewrite whose files were taken from another state of the table. A fresh attempt
/// with the same files cannot succeed.
pub open spec fn moved_since_read() -> ErrorView {
    ErrorView {
        kind: ErrorKind::CatalogCommitConflicts,
        message: REF_MOVED@,
        retryable: false,
    }
}

impl RewriteFilesActionView {
    /// What the snapshot is made of.
    pub open spec fn producer(
        self,
        table: TableView,
        snapshot_id: i64,
        commit_uuid: Uuid,
    ) -> SnapshotProducerView {
        SnapshotProducerView {
            table,
            snapshot_id,
            commit_uuid,
            snapshot_properties: self.snapshot_properties,
            added_data_files: self.added_data_files,
            added_delete_files: Seq::empty(),
        }
    }

    /// What planning the action gives, under a commit UUID, where the caller took the files from
    /// the table with its main branch at `base`.
    pub open spec fn planned(
        self,
        base: Option<i64>,
        table: TableView,
        snapshot_id: i64,
        commit_uuid: Uuid,
    ) -> Result<ActionCommitView, ErrorView> {
        if base != table.current_snapshot_id {
            Err(moved_since_read())
        } else {
            match first_file_error(table, ManifestContentType::Data, self.added_data_files) {
                Some(error) => Err(error),
                None => self.producer(table, snapshot_id, commit_uuid).produced(
                    Operation::Replace,
                    Seq::empty(),
                    Seq::empty(),
                ),
            }
        }
    }
}

impl RewriteFilesAction {
    /// An action that adds nothing yet.
    pub fn new() -> (action: Self)
        ensures
            action@ == (RewriteFilesActionView {
                commit_uuid: None,
                snapshot_properties: Map::empty(),
                added_data_files: Seq::empty(),
            }),
    {
        let action = Self {
            commit_uuid: None,
            snapshot_properties: HashMap::new(),
            added_data_files: Vec::new(),
        };
        assert(action@.added_data_files =~= Seq::empty());
        action
    }

    /// Add the rewritten data files (the table's complete new contents), after those added
    /// before.
    pub fn add_data_files(self, data_files: Vec<DataFile>) -> (action: Self)
        ensures
            action@ == (RewriteFilesActionView {
                added_data_files: self@.added_data_files + views(data_files@),
                ..self@
            }),
    {
        let mut added_data_files = self.added_data_files;
        let mut data_files = data_files;
        proof {
            lemma_views_add(added_data_files@, data_files@);
        }
        added_data_files.append(&mut data_files);
        Self {
            commit_uuid: self.commit_uuid,
            snapshot_properties: self.snapshot_properties,
            added_data_files,
        }
    }

    /// Set commit UUID for the snapshot.
    pub fn set_commit_uuid(self, commit_uuid: Uuid) -> (action: Self)
        ensures
            action@ == (RewriteFilesActionView { commit_uuid: Some(commit_uuid), ..self@ }),
    {
        Self {
            commit_uuid: Some(commit_uuid),
            snapshot_properties: self.snapshot_properties,
            added_data_files: self.added_data_files,
        }
    }

    /// Set snapshot summary properties, in place of those set before.
    pub fn set_snapshot_properties(self, snapshot_properties: HashMap<String, String>) -> (action:
        Self)
        ensures
            action@ == (RewriteFilesActionView {
                snapshot_properties: snapshot_properties@,
                ..self@
            }),
    {
        Self {
            commit_uuid: self.commit_uuid,
            snapshot_properties,
            added_data_files: self.added_data_files,
        }
    }

    /// Plans the action under a commit UUID.
    pub fn commit_under(
        &self,
        base: Option<i64>,
        table: &Table,
        snapshot_id: i64,
        commit_uuid: Uuid,
    ) -> (result: Result<ActionCommit, Error>)
        ensures
            outcome(result) == self@.planned(base, table@, snapshot_id, commit_uuid),
    {
        if !same_ref(base, table.current_snapshot_id) {
            return Err(Error::new(ErrorKind::CatalogCommitConflicts, REF_MOVED));
        }
        let no_delete_files: Vec<DataFile> = Vec::new();
        assert(views(no_delete_files@) =~= Seq::empty());
        let producer = SnapshotProducer::new(
            table,
            snapshot_id,
            commit_uuid,
            self.snapshot_properties.clone(),
            clone_files(&self.added_data_files),
            no_delete_files,
        );
        if let Err(error) = producer.validate_added_data_files() {
            return Err(error);
        }
        producer.commit(&RewriteFilesOperation)
    }
}

impl TransactionAction for RewriteFilesAction {
    /// Under the commit UUID that was set, else under a version 7 UUID.
    open spec fn plans(
        &self,
        base: Option<i64>,
        table: TableView,
        snapshot_id: i64,
        result: Result<ActionCommitView, ErrorView>,
    ) -> bool {
        match self@.commit_uuid {
            Some(commit_uuid) => result == self@.planned(base, table, snapshot_id, commit_uuid),
            None => exists|commit_uuid: Uuid|
                uuid_version(commit_uuid) == 7 && result == #[trigger] self@.planned(
                    base,
                    table,
                    snapshot_id,
                    commit_uuid,
                ),
        }
    }

    fn commit(&self, base: Option<i64>, table: &Table, snapshot_id: i64) -> (result: Result<
        ActionCommit,
        Error,
    >) {
        let commit_uuid = match self.commit_uuid {
            Some(commit_uuid) => commit_uuid,
            None => Uuid::now_v7(),
        };
        self.commit_under(base, table, snapshot_id, commit_uuid)
    }
}

/// The rewrite of a whole table.
pub struct RewriteFilesOperation;

impl SnapshotProduceOperation for RewriteFilesOperation {
    open spec fn kind(&self) -> Operation {
        Operation::Replace
    }

    open spec fn deletes(&self) -> Seq<ManifestEntryView> {
        Seq::empty()
    }

    /// Nothing carries forward: the new snapshot's contents are exactly the added files.
    open spec fn carries(&self, table: TableView) -> Seq<ManifestFileView> {
        Seq::empty()
    }

    fn operation(&self) -> (operation: Operation) {
        Operation::Replace
    }

    fn delete_entries(&self, producer: &SnapshotProducer) -> (entries: Result<
        Vec<ManifestEntry>,
        Error,
    >) {
        let entries: Vec<ManifestEntry> = Vec::new();
        assert(views(entries@) =~= Seq::empty());
        Ok(entries)
    }

    fn existing_manifest(&self, producer: &SnapshotProducer) -> (manifests: Result<
        Vec<ManifestFile>,
        Error,
    >) {
        let manifests: Vec<ManifestFile> = Vec::new();
        assert(views(manifests@) =~= Seq::empty());
        Ok(manifests)
    }
}

} // verus!
