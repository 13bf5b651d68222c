//! Table metadata, and what updates do to it.

use crate::data_file::PrimitiveType;
use crate::error::{conflict, invalid, Error, ErrorKind, ErrorView};
use crate::lineage::{all_assigned, assignments_in_order, none_assigned, FormatVersion};
use crate::manifest::ManifestFileView;
use crate::snapshot::{Snapshot, SnapshotView};
use crate::views::{lemma_views_push, outcome, views};
use std::sync::Arc;
use vstd::prelude::*;

verus! {

/// A snapshot with the ID is there already.
pub const SNAPSHOT_EXISTS: &'static str = "Snapshot already exists";

/// A table with row lineage is given a snapshot without a row range.
pub const ROW_RANGE_MISSING: &'static str = "Cannot add a snapshot without first-row-id";

/// The snapshot's row IDs are taken.
pub const ROW_RANGE_BEHIND: &'static str =
    "Cannot add a snapshot, first-row-id is behind table next-row-id";

/// The row IDs run out.
pub const NEXT_ROW_ID_OVERFLOW: &'static str = "Next row ID overflow";

/// The main branch is set to a snapshot that is not there.
pub const SNAPSHOT_UNKNOWN: &'static str = "Cannot set main to unknown snapshot";

/// A table goes back to an older format.
pub const CANNOT_DOWNGRADE: &'static str = "Cannot downgrade format version";

/// The main branch moved.
pub const REF_MOVED: &'static str = "Requirement failed: main has changed";

/// A table: its format, its snapshots, and the next row ID that is free.
#[derive(Debug)]
pub struct Table {
    pub format_version: FormatVersion,
    pub next_row_id: u64,
    pub default_partition_spec_id: i32,
    /// The types of the default partition spec's fields; none for an unpartitioned table.
    pub partition_type: Vec<PrimitiveType>,
    pub snapshots: Vec<Arc<Snapshot>>,
    /// The snapshot that the main branch points to.
    pub current_snapshot_id: Option<i64>,
}

/// The contents of a [`Table`].
pub struct TableView {
    pub format_version: FormatVersion,
    pub next_row_id: nat,
    pub default_partition_spec_id: int,
    pub partition_type: Seq<PrimitiveType>,
    pub snapshots: Seq<SnapshotView>,
    pub current_snapshot_id: Option<i64>,
}

impl View for Table {
    type V = TableView;

    open spec fn view(&self) -> TableView {
        TableView {
            format_version: self.format_version,
            next_row_id: self.next_row_id as nat,
            default_partition_spec_id: self.default_partition_spec_id as int,
            partition_type: self.partition_type@,
            snapshots: views(self.snapshots@),
            current_snapshot_id: self.current_snapshot_id,
        }
    }
}

/// A change to a table's metadata.
#[derive(Debug)]
pub enum TableUpdate {
    AddSnapshot { snapshot: Arc<Snapshot> },
    /// Points the main branch to a snapshot.
    SetSnapshotRef { snapshot_id: i64 },
    RemoveSnapshots { snapshot_ids: Vec<i64> },
    UpgradeFormatVersion { format_version: FormatVersion },
}

/// The contents of a [`TableUpdate`].
pub enum TableUpdateView {
    AddSnapshot { snapshot: SnapshotView },
    SetSnapshotRef { snapshot_id: i64 },
    RemoveSnapshots { snapshot_ids: Seq<i64> },
    UpgradeFormatVersion { format_version: FormatVersion },
}

impl View for TableUpdate {
    type V = TableUpdateView;

    open spec fn view(&self) -> TableUpdateView {
        match self {
            TableUpdate::AddSnapshot { snapshot } => TableUpdateView::AddSnapshot {
                snapshot: snapshot@,
            },
            TableUpdate::SetSnapshotRef { snapshot_id } => TableUpdateView::SetSnapshotRef {
                snapshot_id: *snapshot_id,
            },
            TableUpdate::RemoveSnapshots { snapshot_ids } => TableUpdateView::RemoveSnapshots {
                snapshot_ids: snapshot_ids@,
            },
            TableUpdate::UpgradeFormatVersion { format_version } => {
                TableUpdateView::UpgradeFormatVersion { format_version: *format_version }
            },
        }
    }
}

/// What must hold of a table for a commit to be applied to it.
#[derive(Clone, Copy, PartialEq, Eq, Structural, Debug)]
pub enum TableRequirement {
    /// The main branch points to the snapshot; `None` if it points nowhere.
    RefSnapshotIdMatch { snapshot_id: Option<i64> },
}

/// The updates that an action asks for, and what they require of the table.
#[derive(Debug)]
pub struct ActionCommit {
    pub updates: Vec<TableUpdate>,
    pub requirements: Vec<TableRequirement>,
}

/// The contents of an [`ActionCommit`].
pub struct ActionCommitView {
    pub updates: Seq<TableUpdateView>,
    pub requirements: Seq<TableRequirement>,
}

impl View for ActionCommit {
    type V = ActionCommitView;

    open spec fn view(&self) -> ActionCommitView {
        ActionCommitView { updates: views(self.updates@), requirements: self.requirements@ }
    }
}

impl ActionCommit {
    /// A commit of the updates under the requirements.
    pub fn new(updates: Vec<TableUpdate>, requirements: Vec<TableRequirement>) -> (commit:
        ActionCommit)
        ensures
            commit@ == (ActionCommitView {
                updates: views(updates@),
                requirements: requirements@,
            }),
            commit.updates == updates,
            commit.requirements == requirements,
    {
        ActionCommit { updates, requirements }
    }
}

/// The first snapshot with the ID.
pub open spec fn find_snapshot(snapshots: Seq<SnapshotView>, id: i64) -> Option<SnapshotView>
    decreases snapshots.len(),
{
    if snapshots.len() == 0 {
        None
    } else if snapshots[0].snapshot_id == id {
        Some(snapshots[0])
    } else {
        find_snapshot(snapshots.drop_first(), id)
    }
}

/// The snapshots whose IDs are not among those given.
pub open spec fn without_snapshots(snapshots: Seq<SnapshotView>, ids: Seq<i64>) -> Seq<
    SnapshotView,
> {
    snapshots.filter(|s: SnapshotView| !ids.contains(s.snapshot_id))
}

impl TableView {
    /// Whether a snapshot has the ID.
    pub open spec fn has_snapshot(self, id: i64) -> bool {
        exists|i: int|
            0 <= i < self.snapshots.len() && (#[trigger] self.snapshots[i]).snapshot_id == id
    }

    /// The snapshot that the main branch points to.
    pub open spec fn current_snapshot(self) -> Option<SnapshotView> {
        match self.current_snapshot_id {
            Some(id) => find_snapshot(self.snapshots, id),
            None => None,
        }
    }

    /// The manifests of the snapshot that the main branch points to.
    pub open spec fn current_manifests(self) -> Seq<ManifestFileView> {
        match self.current_snapshot() {
            Some(snapshot) => snapshot.manifests,
            None => Seq::empty(),
        }
    }

    /// Whether a snapshot may stand in the table. Before version 3 it names no row ID. From
    /// version 3 on its manifests' row IDs are in order and taken; if it assigned row IDs, these
    /// are taken, and none of its data manifests is without. (A snapshot from before the upgrade
    /// assigned none.)
    pub open spec fn admits(self, snapshot: SnapshotView) -> bool {
        &&& forall|i: int|
            0 <= i < snapshot.manifests.len() ==> (
            #[trigger] snapshot.manifests[i]).counts_agree()
        &&& match self.format_version {
            FormatVersion::V2 => snapshot.row_range is None && none_assigned(snapshot.manifests),
            FormatVersion::V3 => {
                &&& assignments_in_order(snapshot.manifests, self.next_row_id)
                &&& snapshot.row_range matches Some(range) ==> {
                    &&& range.first_row_id + range.added_rows <= self.next_row_id
                    &&& all_assigned(snapshot.manifests)
                }
            },
        }
    }

    /// The table is well formed: no two snapshots share an ID, the main branch points to a
    /// snapshot that is there, and each snapshot may stand in the table.
    pub open spec fn wf(self) -> bool {
        &&& self.next_row_id <= u64::MAX
        &&& forall|i: int, j: int|
            0 <= i < j < self.snapshots.len() ==> (#[trigger] self.snapshots[i]).snapshot_id != (
            #[trigger] self.snapshots[j]).snapshot_id
        &&& self.current_snapshot_id matches Some(id) ==> self.has_snapshot(id)
        &&& forall|i: int|
            0 <= i < self.snapshots.len() ==> self.admits(#[trigger] self.snapshots[i])
    }

    /// The table with a snapshot more. With row lineage, the snapshot's row IDs must be free,
    /// and those after them are free from then on.
    pub open spec fn with_snapshot(self, snapshot: SnapshotView) -> Result<TableView, ErrorView> {
        let snapshots = self.snapshots.push(snapshot);
        if self.has_snapshot(snapshot.snapshot_id) {
            Err(invalid(SNAPSHOT_EXISTS))
        } else {
            match self.format_version {
                FormatVersion::V2 => Ok(TableView { snapshots, ..self }),
                FormatVersion::V3 => match snapshot.row_range {
                    None => Err(invalid(ROW_RANGE_MISSING)),
                    Some(range) => if range.first_row_id < self.next_row_id {
                        Err(invalid(ROW_RANGE_BEHIND))
                    } else if range.first_row_id + range.added_rows > u64::MAX {
                        Err(invalid(NEXT_ROW_ID_OVERFLOW))
                    } else {
                        Ok(
                            TableView {
                                snapshots,
                                next_row_id: range.first_row_id + range.added_rows,
                                ..self
                            },
                        )
                    },
                },
            }
        }
    }

    /// The table with its main branch at a snapshot.
    pub open spec fn with_main(self, id: i64) -> Result<TableView, ErrorView> {
        if self.has_snapshot(id) {
            Ok(TableView { current_snapshot_id: Some(id), ..self })
        } else {
            Err(invalid(SNAPSHOT_UNKNOWN))
        }
    }

    /// The table without the snapshots. A main branch that pointed to one of them points nowhere.
    pub open spec fn without(self, ids: Seq<i64>) -> TableView {
        TableView {
            snapshots: without_snapshots(self.snapshots, ids),
            current_snapshot_id: match self.current_snapshot_id {
                Some(id) => if ids.contains(id) {
                    None
                } else {
                    Some(id)
                },
                None => None,
            },
            ..self
        }
    }

    /// The table at a format version. Row IDs start at zero when they come in.
    pub open spec fn at_version(self, version: FormatVersion) -> Result<TableView, ErrorView> {
        match (self.format_version, version) {
            (FormatVersion::V3, FormatVersion::V2) => Err(invalid(CANNOT_DOWNGRADE)),
            (FormatVersion::V2, FormatVersion::V3) => Ok(
                TableView { format_version: version, next_row_id: 0, ..self },
            ),
            _ => Ok(self),
        }
    }

    /// The table after an update.
    pub open spec fn updated(self, update: TableUpdateView) -> Result<TableView, ErrorView> {
        match update {
            TableUpdateView::AddSnapshot { snapshot } => self.with_snapshot(snapshot),
            TableUpdateView::SetSnapshotRef { snapshot_id } => self.with_main(snapshot_id),
            TableUpdateView::RemoveSnapshots { snapshot_ids } => Ok(self.without(snapshot_ids)),
            TableUpdateView::UpgradeFormatVersion { format_version } => self.at_version(
                format_version,
            ),
        }
    }

    /// The table after updates, one after the other; the first error ends them.
    pub open spec fn updated_all(self, updates: Seq<TableUpdateView>) -> Result<
        TableView,
        ErrorView,
    >
        decreases updates.len(),
    {
        if updates.len() == 0 {
            Ok(self)
        } else {
            match self.updated_all(updates.drop_last()) {
                Ok(table) => table.updated(updates.last()),
                Err(error) => Err(error),
            }
        }
    }

    /// Whether a requirement holds.
    pub open spec fn meets(self, requirement: TableRequirement) -> bool {
        match requirement {
            TableRequirement::RefSnapshotIdMatch { snapshot_id } => self.current_snapshot_id
                == snapshot_id,
        }
    }

    /// Whether all requirements hold.
    pub open spec fn meets_all(self, requirements: Seq<TableRequirement>) -> bool {
        forall|i: int| 0 <= i < requirements.len() ==> self.meets(#[trigger] requirements[i])
    }

    /// The table after a commit. Where a requirement does not hold the commit is rejected, and a
    /// fresh attempt may succeed.
    pub open spec fn committed(self, commit: ActionCommitView) -> Result<TableView, ErrorView> {
        if self.meets_all(commit.requirements) {
            self.updated_all(commit.updates)
        } else {
            Err(conflict(REF_MOVED))
        }
    }
}

/// An error is passed on by all updates that follow.
pub proof fn lemma_updated_all_error(table: TableView, updates: Seq<TableUpdateView>, n: int)
    requires
        0 <= n <= updates.len(),
        table.updated_all(updates.take(n)) is Err,
    ensures
        table.updated_all(updates) == table.updated_all(updates.take(n)),
    decreases updates.len(),
{
    if n == updates.len() {
        assert(updates.take(n) =~= updates);
    } else {
        assert(updates.drop_last().take(n) =~= updates.take(n));
        lemma_updated_all_error(table, updates.drop_last(), n);
    }
}

/// Looking up an ID finds a snapshot exactly where one has it.
pub proof fn lemma_find_snapshot(snapshots: Seq<SnapshotView>, id: i64)
    ensures
        find_snapshot(snapshots, id) is Some <==> exists|i: int|
            0 <= i < snapshots.len() && (#[trigger] snapshots[i]).snapshot_id == id,
        find_snapshot(snapshots, id) matches Some(s) ==> s.snapshot_id == id && snapshots.contains(
            s,
        ),
    decreases snapshots.len(),
{
    if snapshots.len() > 0 {
        let rest = snapshots.drop_first();
        lemma_find_snapshot(rest, id);
        assert forall|i: int| 0 <= i < rest.len() implies rest[i] == #[trigger] snapshots[i + 1] by {}
        if snapshots[0].snapshot_id == id {
        } else {
            if exists|i: int|
                0 <= i < snapshots.len() && (#[trigger] snapshots[i]).snapshot_id == id {
                let i = choose|i: int|
                    0 <= i < snapshots.len() && (#[trigger] snapshots[i]).snapshot_id == id;
                assert(rest[i - 1].snapshot_id == id);
            }
            if let Some(s) = find_snapshot(rest, id) {
                let i = choose|i: int| 0 <= i < rest.len() && rest[i] == s;
                assert(snapshots[i + 1] == s);
            }
        }
    }
}

/// Whether the ID is in the list.
fn contains_id(ids: &Vec<i64>, id: i64) -> (answer: bool)
    ensures
        answer == ids@.contains(id),
{
    let mut i: usize = 0;
    while i < ids.len()
        invariant
            i <= ids.len(),
            forall|j: int| 0 <= j < i ==> ids@[j] != id,
        decreases ids.len() - i,
    {
        if ids[i] == id {
            assert(ids@[i as int] == id);
            return true;
        }
        i += 1;
    }
    false
}

impl Clone for Table {
    fn clone(&self) -> (table: Table)
        ensures
            table@ == self@,
    {
        let mut snapshots: Vec<Arc<Snapshot>> = Vec::new();
        let mut i: usize = 0;
        while i < self.snapshots.len()
            invariant
                i <= self.snapshots.len(),
                snapshots@ =~= self.snapshots@.take(i as int),
            decreases self.snapshots.len() - i,
        {
            snapshots.push(self.snapshots[i].clone());
            i += 1;
        }
        assert(snapshots@ =~= self.snapshots@);
        let partition_type = self.partition_type.clone();
        assert(partition_type@ =~= self.partition_type@);
        Table {
            format_version: self.format_version,
            next_row_id: self.next_row_id,
            default_partition_spec_id: self.default_partition_spec_id,
            partition_type,
            snapshots,
            current_snapshot_id: self.current_snapshot_id,
        }
    }
}

impl Table {
    /// A table without snapshots.
    pub fn new(
        format_version: FormatVersion,
        default_partition_spec_id: i32,
        partition_type: Vec<PrimitiveType>,
    ) -> (table: Table)
        ensures
            table@ == (TableView {
                format_version,
                next_row_id: 0,
                default_partition_spec_id: default_partition_spec_id as int,
                partition_type: partition_type@,
                snapshots: Seq::empty(),
                current_snapshot_id: None,
            }),
            table@.wf(),
    {
        let table = Table {
            format_version,
            next_row_id: 0,
            default_partition_spec_id,
            partition_type,
            snapshots: Vec::new(),
            current_snapshot_id: None,
        };
        assert(table@.snapshots =~= Seq::empty());
        table
    }

    /// The snapshot with the ID.
    pub fn snapshot_by_id(&self, id: i64) -> (snapshot: Option<&Snapshot>)
        ensures
            snapshot is Some <==> self@.has_snapshot(id),
            snapshot matches Some(s) ==> find_snapshot(self@.snapshots, id) == Some(s@),
            snapshot matches Some(s) ==> s.snapshot_id == id && exists|i: int|
                0 <= i < self.snapshots.len() && *s == *(#[trigger] self.snapshots@[i]) && forall|
                    j: int,
                |
                    0 <= j < i ==> (#[trigger] self.snapshots@[j]).snapshot_id != id,
            snapshot is None ==> forall|i: int|
                0 <= i < self.snapshots.len() ==> (#[trigger] self.snapshots@[i]).snapshot_id != id,
    {
        proof {
            lemma_find_snapshot(self@.snapshots, id);
            assert(self@.snapshots.skip(0) =~= self@.snapshots);
        }
        let mut i: usize = 0;
        while i < self.snapshots.len()
            invariant
                i <= self.snapshots.len(),
                find_snapshot(self@.snapshots, id) == find_snapshot(
                    self@.snapshots.skip(i as int),
                    id,
                ),
                find_snapshot(self@.snapshots, id) is Some <==> self@.has_snapshot(id),
                forall|j: int| 0 <= j < i ==> (#[trigger] self.snapshots@[j]).snapshot_id != id,
            decreases self.snapshots.len() - i,
        {
            let ghost rest = self@.snapshots.skip(i as int);
            assert(rest[0] == self.snapshots@[i as int]@);
            assert(rest.drop_first() =~= self@.snapshots.skip(i + 1));
            if self.snapshots[i].snapshot_id == id {
                return Some(&self.snapshots[i]);
            }
            i += 1;
        }
        None
    }

    /// The snapshot that the main branch points to.
    pub fn current_snapshot(&self) -> (snapshot: Option<&Snapshot>)
        ensures
            self@.current_snapshot() == (match snapshot {
                Some(s) => Some(s@),
                None => None,
            }),
            snapshot matches Some(s) ==> self.current_snapshot_id == Some(s.snapshot_id)
                && exists|i: int|
                0 <= i < self.snapshots.len() && *s == *(#[trigger] self.snapshots@[i]),
            snapshot is None ==> forall|i: int|
                0 <= i < self.snapshots.len() ==> self.current_snapshot_id != Some(
                    (#[trigger] self.snapshots@[i]).snapshot_id,
                ),
    {
        proof {
            if let Some(id) = self.current_snapshot_id {
                lemma_find_snapshot(self@.snapshots, id);
            }
        }
        match self.current_snapshot_id {
            Some(id) => self.snapshot_by_id(id),
            None => None,
        }
    }

    /// The table without the snapshots.
    fn remove_snapshots(self, ids: &Vec<i64>) -> (table: Table)
        ensures
            table@ == self@.without(ids@),
    {
        let ghost all = self@.snapshots;
        let ghost keep = |s: SnapshotView| !ids@.contains(s.snapshot_id);
        let mut kept: Vec<Arc<Snapshot>> = Vec::new();
        let mut i: usize = 0;
        while i < self.snapshots.len()
            invariant
                i <= self.snapshots.len(),
                all == views(self.snapshots@),
                keep == (|s: SnapshotView| !ids@.contains(s.snapshot_id)),
                views(kept@) == all.take(i as int).filter(keep),
            decreases self.snapshots.len() - i,
        {
            proof {
                reveal(Seq::filter);
                assert(all.take(i + 1).drop_last() =~= all.take(i as int));
                assert(all.take(i + 1).last() == self.snapshots@[i as int]@);
            }
            if !contains_id(ids, self.snapshots[i].snapshot_id) {
                proof {
                    lemma_views_push(kept@, self.snapshots@[i as int]);
                }
                kept.push(self.snapshots[i].clone());
            }
            i += 1;
        }
        assert(all.take(i as int) =~= all);
        let current_snapshot_id = match self.current_snapshot_id {
            Some(id) => if contains_id(ids, id) {
                None
            } else {
                Some(id)
            },
            None => None,
        };
        Table {
            format_version: self.format_version,
            next_row_id: self.next_row_id,
            default_partition_spec_id: self.default_partition_spec_id,
            partition_type: self.partition_type,
            snapshots: kept,
            current_snapshot_id,
        }
    }

    /// The table with a snapshot more.
    fn add_snapshot(self, snapshot: &Arc<Snapshot>) -> (table: Result<Table, Error>)
        ensures
            outcome(table) == self@.with_snapshot(snapshot@),
    {
        if self.snapshot_by_id(snapshot.snapshot_id).is_some() {
            return Err(Error::new(ErrorKind::DataInvalid, SNAPSHOT_EXISTS));
        }
        let next_row_id: u64 = match self.format_version {
            FormatVersion::V2 => self.next_row_id,
            FormatVersion::V3 => match snapshot.row_range {
                None => {
                    return Err(Error::new(ErrorKind::DataInvalid, ROW_RANGE_MISSING));
                },
                Some(range) => {
                    if range.first_row_id < self.next_row_id {
                        return Err(Error::new(ErrorKind::DataInvalid, ROW_RANGE_BEHIND));
                    }
                    match range.first_row_id.checked_add(range.added_rows) {
                        Some(next) => next,
                        None => {
                            return Err(Error::new(ErrorKind::DataInvalid, NEXT_ROW_ID_OVERFLOW));
                        },
                    }
                },
            },
        };
        let mut snapshots = self.snapshots;
        proof {
            lemma_views_push(snapshots@, *snapshot);
        }
        snapshots.push(snapshot.clone());
        Ok(
            Table {
                format_version: self.format_version,
                next_row_id,
                default_partition_spec_id: self.default_partition_spec_id,
                partition_type: self.partition_type,
                snapshots,
                current_snapshot_id: self.current_snapshot_id,
            },
        )
    }

    /// The table after an update.
    pub fn apply_update(self, update: &TableUpdate) -> (table: Result<Table, Error>)
        ensures
            outcome(table) == self@.updated(update@),
    {
        match update {
            TableUpdate::AddSnapshot { snapshot } => self.add_snapshot(snapshot),
            TableUpdate::SetSnapshotRef { snapshot_id } => {
                if self.snapshot_by_id(*snapshot_id).is_none() {
                    return Err(Error::new(ErrorKind::DataInvalid, SNAPSHOT_UNKNOWN));
                }
                let mut table = self;
                table.current_snapshot_id = Some(*snapshot_id);
                Ok(table)
            },
            TableUpdate::RemoveSnapshots { snapshot_ids } => Ok(
                self.remove_snapshots(snapshot_ids),
            ),
            TableUpdate::UpgradeFormatVersion { format_version } => {
                let mut table = self;
                match (table.format_version, *format_version) {
                    (FormatVersion::V3, FormatVersion::V2) => {
                        return Err(Error::new(ErrorKind::DataInvalid, CANNOT_DOWNGRADE));
                    },
                    (FormatVersion::V2, FormatVersion::V3) => {
                        table.format_version = FormatVersion::V3;
                        table.next_row_id = 0;
                    },
                    _ => {},
                }
                Ok(table)
            },
        }
    }

    /// The table after a commit, if the commit's requirements hold of it.
    pub fn apply(&self, commit: &ActionCommit) -> (table: Result<Table, Error>)
        ensures
            outcome(table) == self@.committed(commit@),
    {
        let mut i: usize = 0;
        while i < commit.requirements.len()
            invariant
                i <= commit.requirements.len(),
                forall|j: int| 0 <= j < i ==> self@.meets(#[trigger] commit.requirements@[j]),
            decreases commit.requirements.len() - i,
        {
            let met: bool = match commit.requirements[i] {
                TableRequirement::RefSnapshotIdMatch { snapshot_id } => same_ref(
                    self.current_snapshot_id,
                    snapshot_id,
                ),
            };
            if !met {
                assert(!self@.meets(commit@.requirements[i as int]));
                return Err(
                    Error::new(ErrorKind::CatalogCommitConflicts, REF_MOVED).with_retryable(true),
                );
            }
            i += 1;
        }
        let ghost updates = commit@.updates;
        let mut table = self.clone();
        assert(updates.take(0) =~= Seq::empty());
        let mut k: usize = 0;
        while k < commit.updates.len()
            invariant
                k <= commit.updates.len(),
                updates == views(commit.updates@),
                self@.updated_all(updates.take(k as int)) == Ok::<TableView, ErrorView>(table@),
                self@.meets_all(commit@.requirements),
                commit@.updates == updates,
            decreases commit.updates.len() - k,
        {
            proof {
                assert(updates.take(k + 1).drop_last() =~= updates.take(k as int));
                assert(updates.take(k + 1).last() == commit.updates@[k as int]@);
            }
            match table.apply_update(&commit.updates[k]) {
                Ok(next) => {
                    table = next;
                },
                Err(error) => {
                    proof {
                        lemma_updated_all_error(self@, updates, k + 1);
                    }
                    return Err(error);
                },
            }
            k += 1;
        }
        assert(updates.take(k as int) =~= updates);
        Ok(table)
    }
}

/// Whether two references agree.
pub(crate) fn same_ref(left: Option<i64>, right: Option<i64>) -> (same: bool)
    ensures
        same == (left == right),
{
    match (left, right) {
        (Some(a), Some(b)) => a == b,
        (None, None) => true,
        _ => false,
    }
}

} // verus!
