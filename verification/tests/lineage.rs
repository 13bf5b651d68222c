//! Row lineage through the snapshot actions.

use iceberg_transaction::data_file::{
    DataContentType, DataFile, DataFileFormat, Literal, PrimitiveType,
};
use iceberg_transaction::error::{Error, ErrorKind};
use iceberg_transaction::lineage::FormatVersion;
use iceberg_transaction::manifest::{ManifestContentType, ManifestFile};
use iceberg_transaction::table::{Table, TableUpdate};
use iceberg_transaction::transaction::attempts::{CommitAttempts, CommitEvent, CommitStep};
use iceberg_transaction::transaction::fast_append::FastAppendAction;
use iceberg_transaction::transaction::row_delta::RowDeltaAction;
use iceberg_transaction::transaction::upgrade_format_version::UpgradeFormatVersionAction;
use iceberg_transaction::transaction::TransactionAction;
use uuid::Uuid;

fn make_unpartitioned_table(version: FormatVersion) -> Table {
    Table::new(version, 0, vec![])
}

fn data_file(rows: u64) -> DataFile {
    DataFile {
        content: DataContentType::Data,
        file_path: format!("test/data-{}-{rows}.parquet", Uuid::new_v4()),
        file_format: DataFileFormat::Parquet,
        file_size_in_bytes: 100,
        record_count: rows,
        partition: vec![],
        partition_spec_id: 0,
        equality_ids: None,
        first_row_id: None,
    }
}

fn equality_delete_file(rows: u64) -> DataFile {
    DataFile {
        content: DataContentType::EqualityDeletes,
        file_path: format!("test/del-{}-{rows}.parquet", Uuid::new_v4()),
        file_format: DataFileFormat::Parquet,
        file_size_in_bytes: 50,
        record_count: rows,
        partition: vec![],
        partition_spec_id: 0,
        equality_ids: Some(vec![1]),
        first_row_id: None,
    }
}

fn fresh_snapshot_id(table: &Table) -> i64 {
    let mut id: i64 = 1;
    while table.snapshot_by_id(id).is_some() {
        id += 1;
    }
    id
}

/// Commits the action to a catalog that holds the table in memory.
fn commit<A: TransactionAction>(table: Table, action: A) -> Table {
    let mut attempts = CommitAttempts::new(action, table.current_snapshot_id, 3);
    let mut step = CommitStep::Load;
    loop {
        let event = match step {
            CommitStep::Load => CommitEvent::Loaded {
                table: table.clone(),
                snapshot_id: fresh_snapshot_id(&table),
            },
            CommitStep::Update { commit } => match table.apply(&commit) {
                Ok(table) => CommitEvent::Updated { table },
                Err(error) => CommitEvent::Failed { error },
            },
            CommitStep::Done { table } => return table,
            CommitStep::Fail { error } => panic!("{:?}", error),
        };
        step = attempts.step(event);
    }
}

#[test]
fn row_delta_v3_lineage_data_and_delete_manifests() {
    let table = make_unpartitioned_table(FormatVersion::V3);
    assert_eq!(table.next_row_id, 0);

    // Commit 1: 30 upsert rows and their tombstones.
    let table = commit(
        table,
        RowDeltaAction::new()
            .add_data_files(vec![data_file(30)])
            .add_delete_files(vec![equality_delete_file(30)]),
    );

    let snap1 = table.current_snapshot().unwrap();
    assert_eq!(snap1.first_row_id(), Some(0), "first-row-id = next-row-id at commit");
    assert_eq!(snap1.added_rows_count(), Some(30), "added-rows recorded");
    assert_eq!(table.next_row_id, 30, "next-row-id > all assigned IDs");

    let (data1, del1): (Vec<&ManifestFile>, Vec<&ManifestFile>) =
        snap1.manifests.iter().partition(|m| m.content == ManifestContentType::Data);
    assert_eq!((data1.len(), del1.len()), (1, 1));
    assert_eq!(data1[0].first_row_id, Some(0), "data manifest assigned");
    assert_eq!(del1[0].first_row_id, None, "delete manifest always null");

    for entry in data1[0].entries.iter() {
        assert_eq!(
            entry.data_file.first_row_id, None,
            "added data entries written with null first_row_id"
        );
    }

    // Commit 2: 17 more rows and tombstones. Carried-forward manifests keep their assignment;
    // the new manifest continues the ID space.
    let table = commit(
        table,
        RowDeltaAction::new()
            .add_data_files(vec![data_file(17)])
            .add_delete_files(vec![equality_delete_file(17)]),
    );

    let snap2 = table.current_snapshot().unwrap();
    assert_eq!(snap2.first_row_id(), Some(30));
    assert_eq!(snap2.added_rows_count(), Some(17));
    assert_eq!(table.next_row_id, 47);

    let mut data_ids: Vec<Option<u64>> = snap2
        .manifests
        .iter()
        .filter(|m| m.content == ManifestContentType::Data)
        .map(|m| m.first_row_id)
        .collect();
    data_ids.sort();
    assert_eq!(
        data_ids,
        vec![Some(0), Some(30)],
        "existing assignment preserved, new manifest appended after it"
    );
    assert!(
        snap2
            .manifests
            .iter()
            .filter(|m| m.content == ManifestContentType::Deletes)
            .all(|m| m.first_row_id.is_none()),
        "all delete manifests null"
    );
}

#[test]
fn row_delta_v3_delete_only_commit_zero_added_rows() {
    let table = make_unpartitioned_table(FormatVersion::V3);
    let table = commit(
        table,
        RowDeltaAction::new()
            .add_data_files(vec![data_file(30)])
            .add_delete_files(vec![equality_delete_file(30)]),
    );
    assert_eq!(table.next_row_id, 30);

    // Tombstones, no new row images.
    let table = commit(
        table,
        RowDeltaAction::new().add_delete_files(vec![equality_delete_file(5)]),
    );

    let snap = table.current_snapshot().unwrap();
    assert_eq!(
        snap.first_row_id(),
        Some(30),
        "first-row-id required even when no ID space is assigned"
    );
    assert_eq!(snap.added_rows_count(), Some(0), "added-rows = 0");
    assert_eq!(table.next_row_id, 30, "no advance");
}

#[test]
fn upgrade_v2_to_v3_first_commit_assigns_all_data_manifests() {
    let table = make_unpartitioned_table(FormatVersion::V2);
    assert_eq!(table.format_version, FormatVersion::V2);

    // Two appends before the upgrade: manifests of 100 and of 50 rows, no lineage.
    let table = commit(table, FastAppendAction::new().add_data_files(vec![data_file(100)]));
    let table = commit(table, FastAppendAction::new().add_data_files(vec![data_file(50)]));
    let v2_snap_id = table.current_snapshot().unwrap().snapshot_id;
    assert_eq!(
        table.current_snapshot().unwrap().first_row_id(),
        None,
        "v2 snapshots carry no row range"
    );

    let table = commit(table, UpgradeFormatVersionAction { format_version: FormatVersion::V3 });
    assert_eq!(table.format_version, FormatVersion::V3);
    assert_eq!(table.next_row_id, 0, "next-row-id init 0");
    let old_snap = table.snapshot_by_id(v2_snap_id).unwrap();
    assert_eq!(old_snap.first_row_id(), None, "old snapshots untouched");

    // First commit after the upgrade: a manifest of 20 rows; the two before it must be assigned
    // too, in order, before it.
    let table = commit(table, FastAppendAction::new().add_data_files(vec![data_file(20)]));

    let snap = table.current_snapshot().unwrap();
    assert_eq!(snap.first_row_id(), Some(0), "on the upgrade boundary");
    assert_eq!(
        snap.added_rows_count(),
        Some(170),
        "upper bound covers all newly assigned IDs (100+50 existing + 20 added)"
    );
    assert_eq!(table.next_row_id, 170);

    let ids: Vec<Option<u64>> = snap
        .manifests
        .iter()
        .filter(|m| m.content == ManifestContentType::Data)
        .map(|m| m.first_row_id)
        .collect();
    let mut sorted = ids.clone();
    sorted.sort();
    assert_eq!(
        sorted,
        vec![Some(0), Some(100), Some(150)],
        "every data manifest assigned, ID space dense: got {ids:?}"
    );
    assert_eq!(ids, sorted, "in the order of the list");
}

#[test]
fn v2_row_delta_writes_no_lineage_fields() {
    let table = make_unpartitioned_table(FormatVersion::V2);
    let table = commit(
        table,
        RowDeltaAction::new()
            .add_data_files(vec![data_file(30)])
            .add_delete_files(vec![equality_delete_file(30)]),
    );

    assert_eq!(table.format_version, FormatVersion::V2);
    let snap = table.current_snapshot().unwrap();
    assert_eq!(snap.first_row_id(), None);
    assert_eq!(snap.added_rows_count(), None);
    assert!(
        snap.manifests.iter().all(|m| m.first_row_id.is_none()),
        "v2 manifest-list entries must carry no first_row_id"
    );
}

#[test]
fn v3_commit_retry_restamps_first_row_id_from_refreshed_metadata() {
    fn v3_table_with_next_row_id(next_row_id: u64) -> Table {
        Table {
            format_version: FormatVersion::V3,
            next_row_id,
            default_partition_spec_id: 0,
            partition_type: vec![PrimitiveType::Long],
            snapshots: vec![],
            current_snapshot_id: None,
        }
    }

    // The table is partitioned on one field: data files need a partition of one field.
    fn partitioned_data_file(rows: u64) -> DataFile {
        DataFile {
            content: DataContentType::Data,
            file_path: format!("memory://root/argon_retry/data/{rows}.parquet"),
            file_format: DataFileFormat::Parquet,
            file_size_in_bytes: 100,
            record_count: rows,
            partition: vec![Some(Literal::Long(0))],
            partition_spec_id: 0,
            equality_ids: None,
            first_row_id: None,
        }
    }

    let mut seen: Vec<Option<u64>> = Vec::new();
    let mut load_calls = 0;
    let mut update_calls = 0;

    let action = FastAppendAction::new().add_data_files(vec![partitioned_data_file(30)]);
    let mut attempts = CommitAttempts::new(action, None, 3);
    let mut step = CommitStep::Load;
    let committed = loop {
        let event = match step {
            CommitStep::Load => {
                // The refresh after the conflict sees that another writer advanced the table.
                let next_row_id = if load_calls == 0 { 100 } else { 150 };
                load_calls += 1;
                CommitEvent::Loaded {
                    table: v3_table_with_next_row_id(next_row_id),
                    snapshot_id: 1,
                }
            }
            CommitStep::Update { commit } => {
                for update in &commit.updates {
                    if let TableUpdate::AddSnapshot { snapshot } = update {
                        seen.push(snapshot.first_row_id());
                    }
                }
                update_calls += 1;
                if update_calls == 1 {
                    CommitEvent::Failed {
                        error: Error::new(ErrorKind::CatalogCommitConflicts, "Commit conflict")
                            .with_retryable(true),
                    }
                } else {
                    CommitEvent::Updated { table: v3_table_with_next_row_id(180) }
                }
            }
            CommitStep::Done { table } => break table,
            CommitStep::Fail { error } => panic!("{:?}", error),
        };
        step = attempts.step(event);
    };

    assert_eq!(update_calls, 2);
    assert_eq!(committed.next_row_id, 180);
    assert_eq!(
        seen,
        vec![Some(100), Some(150)],
        "retried commit must re-stamp first-row-id from refreshed next-row-id"
    );
}
