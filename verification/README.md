# reliquary

A small data layer over SQLite (through `rusqlite`): tables whose columns are
defined by row types, a connection that opens, sets up, reads, writes and
deletes rows, and the text forms in which fields are stored and shown.

- `src/` is the verified library (Verus):
  - `connection.rs`: `DbConnection`, its view (whether it is open, the SQLite
    connection, the file, the tables, and the record of every call it made
    into SQLite) and the row operations, whose contracts name the statements
    and parameters they send and what they make of SQLite's answers;
  - `table.rs`: `TableRow`, `TableConfig`, `FieldTypeInfo`;
  - `field.rs`: `TableField` and `ColumnValue` for the supported field types;
  - `row_id.rs`: `RowId`, its text forms, and comma-separated lists of ids;
  - `text.rs`: decimal text of integers and comma-separated pieces;
  - `sql.rs`: the SQL statements the connection sends;
  - `error.rs`: `DbError`;
  - `sqlite.rs`: the calls into `rusqlite`, `chrono` and `std`, with the
    contracts that are believed of them; each call into SQLite appends what
    was sent and what came back to the connection's ghost record.
- `app/` holds what runs around the library: the Bevy plugin that opens the
  database at startup, and the file-system work of creating the database's
  directory and erasing its file.
- `tests/` exercises the library on an in-memory database.

Errors are reported as `DbError`; the crate has no crate-wide `Error` type and
no prelude module. Glue for the `dolmen` application framework (a plugin, a
context extension, a configuration resource and a source type for it) is not
part of this crate, and `dolmen` is not a dependency; `DbConnection::open_at`
takes the decision such glue makes (an in-memory database or a file), and
`DbTableConfigsRes` collects table configurations in the order they are added.
