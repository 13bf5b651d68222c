//! Transaction actions for Iceberg tables and the row lineage they record.
//!
//! A table is a list of snapshots, each of them a list of manifests. An action looks at the table
//! and answers with the metadata updates that it wants and with what must still hold of the table
//! when they are applied. Tables at format version 3 number their rows: each data manifest gets
//! the first of a block of row IDs, and the table keeps the next ID that is free.

pub mod commit_uuid;
pub mod data_file;
pub mod error;
pub mod laws;
pub mod lineage;
pub mod manifest;
pub mod snapshot;
pub mod table;
pub mod transaction;
pub mod views;
