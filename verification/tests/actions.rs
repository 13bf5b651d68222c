//! The actions, the commits that they plan, and what tables make of them.

use iceberg_transaction::data_file::{
    DataContentType, DataFile, DataFileFormat, Literal, PrimitiveType,
};
use iceberg_transaction::error::{Error, ErrorKind};
use iceberg_transaction::lineage::{FormatVersion, ManifestList, RowRange, ROW_ID_OVERFLOW};
use iceberg_transaction::manifest::{
    ManifestContentType, ManifestEntry, ManifestFile, ManifestStatus, ROW_COUNT_OVERFLOW,
};
use iceberg_transaction::snapshot::{Operation, Snapshot};
use iceberg_transaction::table::{
    ActionCommit, Table, TableRequirement, TableUpdate, CANNOT_DOWNGRADE, NEXT_ROW_ID_OVERFLOW,
    REF_MOVED, ROW_RANGE_BEHIND, ROW_RANGE_MISSING, SNAPSHOT_EXISTS, SNAPSHOT_UNKNOWN,
};
use iceberg_transaction::transaction::attempts::{CommitAttempts, CommitEvent, CommitStep};
use iceberg_transaction::transaction::fast_append::FastAppendAction;
use iceberg_transaction::transaction::remove_snapshots::RemoveSnapshotsAction;
use iceberg_transaction::transaction::rewrite_files::{RewriteFilesAction, RewriteFilesOperation};
use iceberg_transaction::transaction::row_delta::RowDeltaAction;
use iceberg_transaction::transaction::snapshot_producer::{
    SnapshotProduceOperation, SnapshotProducer, NOT_DATA, NOT_DELETES, PARTITION_MISMATCH,
    PARTITION_SPEC_MISMATCH,
};
use iceberg_transaction::transaction::upgrade_format_version::UpgradeFormatVersionAction;
use iceberg_transaction::transaction::TransactionAction;
use std::collections::HashMap;
use std::sync::Arc;
use uuid::Uuid;

fn file(content: DataContentType, path: &str, rows: u64) -> DataFile {
    DataFile {
        content,
        file_path: path.to_string(),
        file_format: DataFileFormat::Parquet,
        file_size_in_bytes: 100,
        record_count: rows,
        partition: vec![],
        partition_spec_id: 0,
        equality_ids: None,
        first_row_id: None,
    }
}

fn data(path: &str, rows: u64) -> DataFile {
    file(DataContentType::Data, path, rows)
}

fn deletes(path: &str, rows: u64) -> DataFile {
    file(DataContentType::EqualityDeletes, path, rows)
}

fn table(version: FormatVersion) -> Table {
    Table::new(version, 0, vec![])
}

fn commit<A: TransactionAction>(table: &Table, action: &A, snapshot_id: i64) -> Table {
    table.apply(&action.commit(table.current_snapshot_id, table, snapshot_id).unwrap()).unwrap()
}

fn added(commit: &ActionCommit) -> Arc<Snapshot> {
    match &commit.updates[0] {
        TableUpdate::AddSnapshot { snapshot } => snapshot.clone(),
        _ => panic!("no snapshot added"),
    }
}

fn paths(manifest: &ManifestFile) -> Vec<String> {
    manifest.entries.iter().map(|e| e.data_file.file_path.clone()).collect()
}

fn assert_invalid<T>(result: Result<T, Error>, message: &str) {
    match result {
        Ok(_) => panic!("no error"),
        Err(error) => {
            assert_eq!(error.kind, ErrorKind::DataInvalid);
            assert_eq!(error.message, message);
            assert!(!error.retryable);
        }
    }
}

/// A table with a data manifest of 30 rows and a delete manifest, in snapshot 1.
fn table_with_deletes(version: FormatVersion) -> Table {
    commit(
        &table(version),
        &RowDeltaAction::new()
            .add_data_files(vec![data("a", 10), data("b", 20)])
            .add_delete_files(vec![deletes("d", 4)]),
        1,
    )
}

#[test]
fn rewrite_replaces_all_files() {
    let before = table_with_deletes(FormatVersion::V3);
    let action = RewriteFilesAction::new()
        .add_data_files(vec![data("r1", 11)])
        .add_data_files(vec![data("r2", 15)]);
    let after = commit(&before, &action, 2);

    let snapshot = after.current_snapshot().unwrap();
    assert_eq!(snapshot.snapshot_id, 2);
    assert_eq!(snapshot.operation, Operation::Replace);
    assert_eq!(snapshot.manifests.len(), 1);
    assert_eq!(snapshot.manifests[0].content, ManifestContentType::Data);
    assert_eq!(paths(&snapshot.manifests[0]), vec!["r1".to_string(), "r2".to_string()]);
    assert!(snapshot.manifests[0].entries.iter().all(|e| e.status == ManifestStatus::Added));
    assert_eq!(snapshot.manifests[0].added_rows_count, 26);
    assert_eq!(snapshot.manifests[0].existing_rows_count, 0);
    assert_eq!(snapshot.manifests[0].first_row_id, Some(30));
    assert_eq!(snapshot.row_range, Some(RowRange { first_row_id: 30, added_rows: 26 }));
    assert_eq!(after.next_row_id, 56);
}

#[test]
fn rewrite_keeps_history() {
    let before = table_with_deletes(FormatVersion::V2);
    let after = commit(&before, &RewriteFilesAction::new().add_data_files(vec![data("r", 26)]), 2);
    let old = after.snapshot_by_id(1).unwrap();
    assert_eq!(old.manifests.len(), 2);
    assert_eq!(paths(&old.manifests[0]), vec!["a".to_string(), "b".to_string()]);
    assert_eq!(paths(&old.manifests[1]), vec!["d".to_string()]);

    // Until expiry.
    let expired = commit(&after, &RemoveSnapshotsAction::new().remove(vec![1]), 3);
    assert!(expired.snapshot_by_id(1).is_none());
    assert_eq!(expired.current_snapshot().unwrap().snapshot_id, 2);
}

#[test]
fn rewrite_without_files_empties_the_table() {
    let before = table_with_deletes(FormatVersion::V3);
    let after = commit(&before, &RewriteFilesAction::new(), 2);
    assert_eq!(after.current_snapshot().unwrap().manifests.len(), 0);
    assert_eq!(after.next_row_id, 30);
}

#[test]
fn rewrite_commit_requires_that_main_has_not_moved() {
    let before = table_with_deletes(FormatVersion::V3);
    let action = RewriteFilesAction::new().add_data_files(vec![data("r", 26)]);
    let planned = action.commit(before.current_snapshot_id, &before, 2).unwrap();
    assert_eq!(
        planned.requirements,
        vec![TableRequirement::RefSnapshotIdMatch { snapshot_id: Some(1) }]
    );
    assert_eq!(planned.updates.len(), 2);
    assert!(matches!(planned.updates[1], TableUpdate::SetSnapshotRef { snapshot_id: 2 }));

    let moved = commit(&before, &FastAppendAction::new().add_data_files(vec![data("c", 1)]), 3);
    let error = moved.apply(&planned).unwrap_err();
    assert_eq!(error.kind, ErrorKind::CatalogCommitConflicts);
    assert_eq!(error.message, REF_MOVED);
    assert!(error.retryable);

    let first = action.commit(None, &table(FormatVersion::V3), 2).unwrap();
    assert_eq!(
        first.requirements,
        vec![TableRequirement::RefSnapshotIdMatch { snapshot_id: None }]
    );
}

fn assert_moved(error: Error) {
    assert_eq!(error.kind, ErrorKind::CatalogCommitConflicts);
    assert_eq!(error.message, REF_MOVED);
    assert!(!error.retryable);
}

#[test]
fn rewrite_of_a_table_that_moved_is_rejected() {
    let read = table_with_deletes(FormatVersion::V3);
    let rewrite = RewriteFilesAction::new().add_data_files(vec![data("r", 26)]);
    let moved = commit(&read, &FastAppendAction::new().add_data_files(vec![data("c", 5)]), 2);

    assert_moved(rewrite.commit(Some(1), &moved, 3).unwrap_err());
    assert_moved(rewrite.commit(None, &read, 3).unwrap_err());
    assert_moved(rewrite.commit(Some(1), &table(FormatVersion::V3), 3).unwrap_err());
    // That the table moved is said before a file is looked at.
    let wrong = RewriteFilesAction::new().add_data_files(vec![deletes("d", 1)]);
    assert_moved(wrong.commit(Some(1), &moved, 3).unwrap_err());

    assert!(rewrite.commit(Some(1), &read, 3).is_ok());
    assert!(rewrite.commit(None, &table(FormatVersion::V3), 3).is_ok());

    // Appends and row deltas do not depend on what the table held.
    let append = FastAppendAction::new().add_data_files(vec![data("e", 1)]);
    assert!(append.commit(Some(1), &moved, 3).is_ok());
    let delta = RowDeltaAction::new().add_data_files(vec![data("e", 1)]);
    assert!(delta.commit(Some(1), &moved, 3).is_ok());
    assert!(RemoveSnapshotsAction::new().commit(Some(1), &moved, 3).is_ok());
}

#[test]
fn attempts_do_not_carry_a_rewrite_over_other_writers_rows() {
    let read = table_with_deletes(FormatVersion::V3);
    let rewrite = RewriteFilesAction::new().add_data_files(vec![data("r", 26)]);
    let mut attempts = CommitAttempts::new(rewrite, read.current_snapshot_id, 3);

    // The first attempt sees the table as it was read.
    let planned = match attempts.step(CommitEvent::Loaded { table: read.clone(), snapshot_id: 3 }) {
        CommitStep::Update { commit } => commit,
        _ => panic!("not planned"),
    };
    // Another writer comes first, and the catalog answers with a conflict.
    let moved = commit(&read, &FastAppendAction::new().add_data_files(vec![data("c", 5)]), 2);
    let error = moved.apply(&planned).unwrap_err();
    assert!(error.retryable);
    assert!(matches!(attempts.step(CommitEvent::Failed { error }), CommitStep::Load));
    // The next attempt sees the other writer's rows and ends.
    match attempts.step(CommitEvent::Loaded { table: moved, snapshot_id: 3 }) {
        CommitStep::Fail { error } => assert_moved(error),
        _ => panic!("the other writer's rows would be lost"),
    }
}

#[test]
fn attempts_do_not_plan_a_rewrite_on_a_table_that_moved_before_the_first() {
    let read = table_with_deletes(FormatVersion::V2);
    let moved = commit(&read, &FastAppendAction::new().add_data_files(vec![data("c", 5)]), 2);
    let rewrite = RewriteFilesAction::new().add_data_files(vec![data("r", 26)]);
    let mut attempts = CommitAttempts::new(rewrite, read.current_snapshot_id, 3);
    match attempts.step(CommitEvent::Loaded { table: moved, snapshot_id: 3 }) {
        CommitStep::Fail { error } => assert_moved(error),
        _ => panic!("planned"),
    }
    assert_eq!(attempts.retries_left, 3);
    assert_eq!(attempts.base, Some(1));
}

#[test]
fn attempts_retry_a_rewrite_while_the_table_stays() {
    let read = table_with_deletes(FormatVersion::V3);
    let rewrite = RewriteFilesAction::new().add_data_files(vec![data("r", 26)]);
    let mut attempts = CommitAttempts::new(rewrite, read.current_snapshot_id, 1);
    let error =
        Error::new(ErrorKind::CatalogCommitConflicts, "Commit conflict").with_retryable(true);
    assert!(matches!(attempts.step(CommitEvent::Failed { error }), CommitStep::Load));
    match attempts.step(CommitEvent::Loaded { table: read.clone(), snapshot_id: 3 }) {
        CommitStep::Update { commit } => assert_eq!(read.apply(&commit).unwrap().next_row_id, 56),
        _ => panic!("not planned"),
    }
}

#[test]
fn rewrite_operation_carries_nothing_forward() {
    let table = table_with_deletes(FormatVersion::V3);
    let producer = SnapshotProducer::new(&table, 2, Uuid::nil(), HashMap::new(), vec![], vec![]);
    assert_eq!(RewriteFilesOperation.operation(), Operation::Replace);
    assert_eq!(RewriteFilesOperation.delete_entries(&producer).unwrap().len(), 0);
    assert_eq!(RewriteFilesOperation.existing_manifest(&producer).unwrap().len(), 0);
    assert_eq!(producer.current_manifests().len(), 2);
}

#[test]
fn commit_uuid_is_the_one_that_was_set() {
    let id = Uuid::from_u128(0x0123_4567_89ab_cdef_0123_4567_89ab_cdef);
    let action = RewriteFilesAction::new().set_commit_uuid(Uuid::nil()).set_commit_uuid(id);
    let planned = action.commit(None, &table(FormatVersion::V3), 1).unwrap();
    assert_eq!(added(&planned).commit_uuid, id);
}

#[test]
fn commit_uuid_defaults_to_version_seven() {
    let table = table(FormatVersion::V3);
    let rewrite = RewriteFilesAction::new();
    let first = added(&rewrite.commit(None, &table, 1).unwrap()).commit_uuid;
    let second = added(&rewrite.commit(None, &table, 1).unwrap()).commit_uuid;
    assert_eq!(first.get_version_num(), 7);
    assert_eq!(second.get_version_num(), 7);
    assert_ne!(first, second);
    let append = added(&FastAppendAction::new().commit(None, &table, 1).unwrap()).commit_uuid;
    assert_eq!(append.get_version_num(), 7);
    assert_eq!(added(&rewrite.commit(None, &table, 1).unwrap()).commit_uuid_version(), 7);
    let set = rewrite.set_commit_uuid(Uuid::new_v4());
    assert_eq!(added(&set.commit(None, &table, 1).unwrap()).commit_uuid_version(), 4);
    let delta = added(&RowDeltaAction::new().commit(None, &table, 1).unwrap()).commit_uuid;
    assert_eq!(delta.get_version_num(), 7);
}

#[test]
fn snapshot_properties_are_replaced_as_a_whole() {
    let mut first = HashMap::new();
    first.insert("k".to_string(), "v".to_string());
    let mut second = HashMap::new();
    second.insert("l".to_string(), "w".to_string());
    let action = RewriteFilesAction::new()
        .set_snapshot_properties(first)
        .set_snapshot_properties(second.clone());
    let planned = action.commit(None, &table(FormatVersion::V2), 1).unwrap();
    assert_eq!(added(&planned).properties, second);

    let planned = RewriteFilesAction::new().commit(None, &table(FormatVersion::V2), 1).unwrap();
    assert!(added(&planned).properties.is_empty());
}

#[test]
fn remove_snapshots_collects_ids_in_order() {
    let action = RemoveSnapshotsAction::new().remove(vec![3, 1]).remove(vec![]).remove(vec![3, 7]);
    let planned = action.commit(None, &table(FormatVersion::V3), 9).unwrap();
    assert!(planned.requirements.is_empty());
    assert_eq!(planned.updates.len(), 1);
    match &planned.updates[0] {
        TableUpdate::RemoveSnapshots { snapshot_ids } => {
            assert_eq!(*snapshot_ids, vec![3, 1, 3, 7])
        }
        _ => panic!("no removal"),
    }

    let nothing = RemoveSnapshotsAction::new().commit(None, &table(FormatVersion::V3), 9).unwrap();
    match &nothing.updates[0] {
        TableUpdate::RemoveSnapshots { snapshot_ids } => assert!(snapshot_ids.is_empty()),
        _ => panic!("no removal"),
    }
}

#[test]
fn removal_removes_exactly_the_given_snapshots() {
    let mut table = table(FormatVersion::V3);
    for id in 1..5 {
        table = commit(&table, &FastAppendAction::new().add_data_files(vec![data("f", 10)]), id);
    }
    let after = commit(&table, &RemoveSnapshotsAction::new().remove(vec![3, 1, 99]), 0);
    let left: Vec<i64> = after.snapshots.iter().map(|s| s.snapshot_id).collect();
    assert_eq!(left, vec![2, 4]);
    assert_eq!(after.current_snapshot_id, Some(4));
    assert_eq!(after.next_row_id, 40);

    // In two commits as in one.
    let one = commit(&table, &RemoveSnapshotsAction::new().remove(vec![3]), 0);
    let two = commit(&one, &RemoveSnapshotsAction::new().remove(vec![1]), 0);
    let left: Vec<i64> = two.snapshots.iter().map(|s| s.snapshot_id).collect();
    assert_eq!(left, vec![2, 4]);

    // The current one.
    let after = commit(&table, &RemoveSnapshotsAction::new().remove(vec![4]), 0);
    assert_eq!(after.current_snapshot_id, None);
    assert!(after.current_snapshot().is_none());
}

#[test]
fn files_that_do_not_fit_the_table_are_rejected() {
    let table = table(FormatVersion::V3);
    assert_invalid(
        RewriteFilesAction::new().add_data_files(vec![data("a", 1), deletes("d", 1)]).commit(None, &table, 1),
        NOT_DATA,
    );
    assert_invalid(
        FastAppendAction::new()
            .add_data_files(vec![file(DataContentType::PositionDeletes, "d", 1)])
            .commit(None, &table, 1),
        NOT_DATA,
    );
    assert_invalid(
        RowDeltaAction::new().add_delete_files(vec![data("a", 1)]).commit(None, &table, 1),
        NOT_DELETES,
    );

    let mut other_spec = data("a", 1);
    other_spec.partition_spec_id = 2;
    assert_invalid(
        RewriteFilesAction::new().add_data_files(vec![other_spec.clone()]).commit(None, &table, 1),
        PARTITION_SPEC_MISMATCH,
    );
    // The first file that does not fit decides.
    assert_invalid(
        RewriteFilesAction::new().add_data_files(vec![other_spec, deletes("d", 1)]).commit(None, &table, 1),
        PARTITION_SPEC_MISMATCH,
    );

    let mut partitioned = data("a", 1);
    partitioned.partition = vec![Some(Literal::Long(0))];
    assert_invalid(
        RewriteFilesAction::new().add_data_files(vec![partitioned]).commit(None, &table, 1),
        PARTITION_MISMATCH,
    );
}

#[test]
fn partition_values_match_the_partition_type() {
    let table =
        Table::new(FormatVersion::V3, 0, vec![PrimitiveType::Long, PrimitiveType::String]);
    let with = |partition: Vec<Option<Literal>>| {
        let mut f = data("a", 1);
        f.partition = partition;
        FastAppendAction::new().add_data_files(vec![f]).commit(None, &table, 1)
    };
    assert!(with(vec![Some(Literal::Long(0)), Some(Literal::String("x".to_string()))]).is_ok());
    assert!(with(vec![None, None]).is_ok());
    assert_invalid(with(vec![]), PARTITION_MISMATCH);
    assert_invalid(with(vec![Some(Literal::Long(0)), Some(Literal::Long(0))]), PARTITION_MISMATCH);
    assert_invalid(
        with(vec![Some(Literal::String("x".to_string())), None]),
        PARTITION_MISMATCH,
    );
}

#[test]
fn literals_go_with_the_types_they_hold() {
    let literals = || {
        vec![
            Literal::Boolean(true),
            Literal::Int(1),
            Literal::Long(1),
            Literal::Float(0x3f80_0000),
            Literal::Double(0x3ff0_0000_0000_0000),
            Literal::Int128(-5),
            Literal::UInt128(7),
            Literal::String("x".to_string()),
            Literal::Binary(vec![1, 2]),
        ]
    };
    let fits = |primitive: PrimitiveType| -> Vec<usize> {
        let table = Table::new(FormatVersion::V3, 0, vec![primitive]);
        let mut found = Vec::new();
        for (i, literal) in literals().into_iter().enumerate() {
            let mut f = data("a", 1);
            f.partition = vec![Some(literal)];
            let action = FastAppendAction::new().add_data_files(vec![f]);
            if action.commit(None, &table, 1).is_ok() {
                found.push(i);
            }
        }
        found
    };
    assert_eq!(fits(PrimitiveType::Boolean), vec![0]);
    assert_eq!(fits(PrimitiveType::Int), vec![1]);
    assert_eq!(fits(PrimitiveType::Date), vec![1]);
    assert_eq!(fits(PrimitiveType::Long), vec![2]);
    assert_eq!(fits(PrimitiveType::Time), vec![2]);
    assert_eq!(fits(PrimitiveType::Timestamp), vec![2]);
    assert_eq!(fits(PrimitiveType::Timestamptz), vec![2]);
    assert_eq!(fits(PrimitiveType::TimestampNs), vec![2]);
    assert_eq!(fits(PrimitiveType::TimestamptzNs), vec![2]);
    assert_eq!(fits(PrimitiveType::Float), vec![3]);
    assert_eq!(fits(PrimitiveType::Double), vec![4]);
    assert_eq!(fits(PrimitiveType::Decimal { precision: 9, scale: 2 }), vec![5]);
    assert_eq!(fits(PrimitiveType::Uuid), vec![6]);
    assert_eq!(fits(PrimitiveType::String), vec![7]);
    assert_eq!(fits(PrimitiveType::Fixed(2)), vec![8]);
    assert_eq!(fits(PrimitiveType::Binary), vec![8]);
}

#[test]
fn new_entries_inherit_their_row_ids() {
    let mut assigned = data("a", 5);
    assigned.first_row_id = Some(77);
    let after = commit(
        &table(FormatVersion::V3),
        &FastAppendAction::new().add_data_files(vec![assigned]),
        1,
    );
    let manifest = &after.current_snapshot().unwrap().manifests[0];
    assert_eq!(manifest.entries[0].data_file.first_row_id, None);
    assert_eq!(manifest.first_row_id, Some(0));
}

fn manifest(content: ManifestContentType, existing: u64, added: u64) -> ManifestFile {
    let entry = |status: ManifestStatus, rows: u64| ManifestEntry {
        status,
        data_file: data("f", rows),
    };
    ManifestFile::new(
        content,
        vec![
            entry(ManifestStatus::Existing, existing),
            entry(ManifestStatus::Added, added),
            entry(ManifestStatus::Deleted, 1000),
        ],
    )
    .unwrap()
}

#[test]
fn manifest_list_assigns_existing_and_added_rows_in_order() {
    let kept = manifest(ManifestContentType::Data, 1, 2).with_first_row_id(Some(5));
    let manifests = vec![
        manifest(ManifestContentType::Data, 3, 4),
        manifest(ManifestContentType::Deletes, 6, 6).with_first_row_id(Some(1)),
        kept,
        manifest(ManifestContentType::Data, 10, 0),
        manifest(ManifestContentType::Data, 0, 1),
    ];
    let list = ManifestList::write(FormatVersion::V3, 100, &manifests).unwrap();
    let ids: Vec<Option<u64>> = list.manifests.iter().map(|m| m.first_row_id).collect();
    assert_eq!(ids, vec![Some(100), None, Some(5), Some(107), Some(117)]);
    assert_eq!(list.row_range, Some(RowRange { first_row_id: 100, added_rows: 18 }));

    let list = ManifestList::write(FormatVersion::V2, 100, &manifests).unwrap();
    assert!(list.manifests.iter().all(|m| m.first_row_id.is_none()));
    assert_eq!(list.row_range, None);
}

#[test]
fn manifest_list_runs_out_of_row_ids() {
    let manifests = vec![manifest(ManifestContentType::Data, 2, 3)];
    assert!(ManifestList::write(FormatVersion::V3, u64::MAX - 5, &manifests).is_ok());
    assert_invalid(
        ManifestList::write(FormatVersion::V3, u64::MAX - 4, &manifests),
        ROW_ID_OVERFLOW,
    );
    assert_invalid(
        ManifestList::write(FormatVersion::V3, u64::MAX - 1, &manifests),
        ROW_ID_OVERFLOW,
    );
    assert!(ManifestList::write(FormatVersion::V2, u64::MAX, &manifests).is_ok());
}

#[test]
fn manifest_counts_do_not_wrap() {
    let action = RewriteFilesAction::new().add_data_files(vec![data("a", u64::MAX), data("b", 1)]);
    assert_invalid(action.commit(None, &table(FormatVersion::V2), 1), ROW_COUNT_OVERFLOW);
    let action = RewriteFilesAction::new().add_data_files(vec![data("a", u64::MAX), data("b", 0)]);
    assert!(action.commit(None, &table(FormatVersion::V3), 1).is_ok());
    let existing = |rows: u64| ManifestEntry {
        status: ManifestStatus::Existing,
        data_file: data("f", rows),
    };
    assert_invalid(
        ManifestFile::new(ManifestContentType::Data, vec![existing(1), existing(u64::MAX)]),
        ROW_COUNT_OVERFLOW,
    );
}

fn snapshot(id: i64, row_range: Option<RowRange>) -> TableUpdate {
    TableUpdate::AddSnapshot {
        snapshot: Arc::new(Snapshot {
            snapshot_id: id,
            commit_uuid: Uuid::nil(),
            operation: Operation::Append,
            properties: HashMap::new(),
            manifests: vec![],
            row_range,
        }),
    }
}

#[test]
fn tables_reject_snapshots_out_of_line() {
    let before = table_with_deletes(FormatVersion::V3);
    let range = |first_row_id: u64, added_rows: u64| Some(RowRange { first_row_id, added_rows });
    let apply = |update: TableUpdate| before.clone().apply_update(&update);

    assert_invalid(apply(snapshot(1, range(30, 0))), SNAPSHOT_EXISTS);
    assert_invalid(apply(snapshot(2, None)), ROW_RANGE_MISSING);
    assert_invalid(apply(snapshot(2, range(29, 5))), ROW_RANGE_BEHIND);
    assert_invalid(apply(snapshot(2, range(30, u64::MAX - 29))), NEXT_ROW_ID_OVERFLOW);
    assert_invalid(apply(TableUpdate::SetSnapshotRef { snapshot_id: 2 }), SNAPSHOT_UNKNOWN);
    assert_eq!(apply(snapshot(2, range(30, 5))).unwrap().next_row_id, 35);
    assert_eq!(apply(snapshot(2, range(40, 5))).unwrap().next_row_id, 45);

    // The first error ends a commit, and the table stays what it was.
    let planned = ActionCommit::new(
        vec![snapshot(2, range(30, 5)), snapshot(2, range(35, 5)), snapshot(3, None)],
        vec![],
    );
    assert_invalid(before.apply(&planned), SNAPSHOT_EXISTS);
    assert_eq!(before.next_row_id, 30);
}

#[test]
fn format_versions_only_go_up() {
    let before = table_with_deletes(FormatVersion::V3);
    let down = UpgradeFormatVersionAction { format_version: FormatVersion::V2 };
    assert_invalid(before.apply(&down.commit(before.current_snapshot_id, &before, 0).unwrap()), CANNOT_DOWNGRADE);
    let same = UpgradeFormatVersionAction { format_version: FormatVersion::V3 };
    let after = before.apply(&same.commit(before.current_snapshot_id, &before, 0).unwrap()).unwrap();
    assert_eq!(after.next_row_id, 30);
}

#[test]
fn row_ids_are_unique_and_below_the_next() {
    let mut table = table_with_deletes(FormatVersion::V2);
    table = commit(&table, &UpgradeFormatVersionAction { format_version: FormatVersion::V3 }, 0);
    for id in 2..6 {
        table = commit(&table, &FastAppendAction::new().add_data_files(vec![data("f", 7)]), id);
    }
    let mut ids: Vec<u64> = Vec::new();
    for m in &table.current_snapshot().unwrap().manifests {
        if let Some(first) = m.first_row_id {
            ids.extend(first..first + m.existing_rows_count + m.added_rows_count);
        }
    }
    assert_eq!(ids.len(), 58);
    assert!(ids.iter().all(|id| *id < table.next_row_id));
    ids.sort();
    ids.dedup();
    assert_eq!(ids.len(), 58);
}

#[test]
fn appends_carry_manifests_unchanged() {
    let before = table_with_deletes(FormatVersion::V3);
    let after = commit(&before, &FastAppendAction::new().add_data_files(vec![data("c", 3)]), 2);
    let old = &before.current_snapshot().unwrap().manifests;
    let new = &after.current_snapshot().unwrap().manifests;
    assert_eq!(after.current_snapshot().unwrap().operation, Operation::Append);
    assert_eq!(new.len(), 3);
    for i in 0..2 {
        assert_eq!(new[i].content, old[i].content);
        assert_eq!(new[i].first_row_id, old[i].first_row_id);
        assert_eq!(paths(&new[i]), paths(&old[i]));
    }
    assert_eq!(new[2].first_row_id, Some(30));
}

#[test]
fn attempts_end_when_retries_run_out() {
    let retryable =
        || Error::new(ErrorKind::CatalogCommitConflicts, "Commit conflict").with_retryable(true);
    let mut attempts = CommitAttempts::new(RemoveSnapshotsAction::new(), None, 2);
    assert!(matches!(attempts.step(CommitEvent::Failed { error: retryable() }), CommitStep::Load));
    assert!(matches!(attempts.step(CommitEvent::Failed { error: retryable() }), CommitStep::Load));
    match attempts.step(CommitEvent::Failed { error: retryable() }) {
        CommitStep::Fail { error } => assert_eq!(error.message, "Commit conflict"),
        _ => panic!("retried too often"),
    }
}

#[test]
fn attempts_end_on_errors_that_no_retry_mends() {
    let mut attempts = CommitAttempts::new(
        FastAppendAction::new().add_data_files(vec![deletes("d", 1)]),
        None,
        5,
    );
    let error = Error::new(ErrorKind::CatalogCommitConflicts, "gone");
    assert!(matches!(attempts.step(CommitEvent::Failed { error }), CommitStep::Fail { .. }));
    match attempts.step(CommitEvent::Loaded { table: table(FormatVersion::V3), snapshot_id: 1 }) {
        CommitStep::Fail { error } => assert_eq!(error.message, NOT_DATA),
        _ => panic!("planned"),
    }
    assert_eq!(attempts.retries_left, 5);
}
