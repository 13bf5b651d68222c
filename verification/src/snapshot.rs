//! Snapshots: the states that a table went through.

use crate::commit_uuid::uuid_version;
use crate::lineage::{opt_range, RowRange, RowRangeView};
use crate::manifest::{ManifestFile, ManifestFileView};
use crate::views::views;
use std::collections::HashMap;
use uuid::Uuid;
use vstd::prelude::*;

verus! {

/// What kind of change made a snapshot.
#[derive(Clone, Copy, PartialEq, Eq, Structural, Debug)]
pub enum Operation {
    /// Rows were added.
    Append,
    /// Files were exchanged for others that hold the same rows.
    Replace,
    /// Rows were added and deleted.
    Overwrite,
}

/// A state of a table.
#[derive(Debug)]
pub struct Snapshot {
    pub snapshot_id: i64,
    pub commit_uuid: Uuid,
    pub operation: Operation,
    /// The summary's properties.
    pub properties: HashMap<String, String>,
    /// The manifests, in the order of the manifest list.
    pub manifests: Vec<ManifestFile>,
    /// The row IDs that the snapshot assigned; none before version 3.
    pub row_range: Option<RowRange>,
}

/// The contents of a [`Snapshot`].
pub struct SnapshotView {
    pub snapshot_id: i64,
    pub commit_uuid: Uuid,
    pub operation: Operation,
    pub properties: Map<String, String>,
    pub manifests: Seq<ManifestFileView>,
    pub row_range: Option<RowRangeView>,
}

impl View for Snapshot {
    type V = SnapshotView;

    open spec fn view(&self) -> SnapshotView {
        SnapshotView {
            snapshot_id: self.snapshot_id,
            commit_uuid: self.commit_uuid,
            operation: self.operation,
            properties: self.properties@,
            manifests: views(self.manifests@),
            row_range: opt_range(self.row_range),
        }
    }
}

impl Snapshot {
    /// The version of the UUID that the snapshot was committed under.
    pub fn commit_uuid_version(&self) -> (version: usize)
        ensures
            version == uuid_version(self.commit_uuid),
    {
        self.commit_uuid.get_version_num()
    }

    /// The first row ID that the snapshot could assign.
    pub fn first_row_id(&self) -> (id: Option<u64>)
        ensures
            id == (match self.row_range {
                Some(range) => Some(range.first_row_id),
                None => None,
            }),
    {
        match self.row_range {
            Some(range) => Some(range.first_row_id),
            None => None,
        }
    }

    /// How many row IDs the snapshot assigned.
    pub fn added_rows_count(&self) -> (count: Option<u64>)
        ensures
            count == (match self.row_range {
                Some(range) => Some(range.added_rows),
                None => None,
            }),
    {
        match self.row_range {
            Some(range) => Some(range.added_rows),
            None => None,
        }
    }
}

} // verus!
