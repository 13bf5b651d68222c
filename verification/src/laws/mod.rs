//! What the parts of the library do, told by what goes in and what comes out.

pub mod appends;
pub mod contents;
pub mod files;
pub mod lists;
pub mod manifests;
pub mod producers;
pub mod removals;
pub mod rewrites;
pub mod row_deltas;
pub mod steps;
pub mod tables;
pub mod upgrades;
