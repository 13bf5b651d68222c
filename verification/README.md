# iceberg_transaction

Transaction actions for Iceberg tables, with row lineage, written and proved in Verus.

- `src/table.rs`: table metadata, the updates to it, and when a table is well formed.
- `src/manifest.rs`, `src/lineage.rs`: manifests, and how a manifest list hands out row IDs.
- `src/transaction/`: the actions (full rewrite, snapshot expiry, append, row delta, format
  upgrade), the producer of the snapshots that they add, and the attempts to commit them.
- `src/transaction/laws.rs`: what holds throughout, as proof functions.
- `app/`: the asynchronous part, which talks to a catalog.

Manifests and manifest lists are plain values here; reading them from files and writing them to
files is left to the caller. So is the choice of snapshot IDs.
