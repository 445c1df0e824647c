# Komora

A toy relational database: its catalog of tables, their schemas, and the
layout of a database directory, as a library verified with Verus, and a small
command (`init`, `info`) around it.

A database directory holds `catalog.toml` (engine, storage type, version,
the next table id, and the map from table names to table ids) and a directory
`tables` with `<id>.schema.toml` and `<id>.data` for each table.

- `src/catalog`: the catalog, the table map kept in name order, schema
  validation, the catalog metadata file, and the laws of the catalog.
- `src/storage`: the paths of a database, and the storage operations
  (create the catalog, create, drop, open, describe and list tables).
- `src/driver.rs`: the requests that an operation hands out and the replies
  that it takes. Each operation is a state machine; whoever drives it does
  the file system work.
- `src/text.rs`: the order of names, decimal numbers, joining paths.
- `app/`: the command, the TOML documents, and the driver that works on the
  real file system.
