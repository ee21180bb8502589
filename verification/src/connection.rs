//! A connection to the underlying SQLite database and the row operations on
//! it.
use vstd::prelude::*;
use std::path::PathBuf;
use rusqlite::{Connection, Row};
use rusqlite::types::Value;
use crate::error::DbError;
use crate::field::ColumnValue;
use crate::row_id::RowId;
use crate::sql::{
    assignments_sql, assignments_statement, delete_row_sql, delete_row_statement,
    insert_row_sql, insert_row_statement, select_field_sql, select_field_statement,
    select_ids_sql, select_ids_statement, update_field_sql, update_field_statement,
    update_row_sql, update_row_statement,
};
use crate::sqlite::{
    close_connection, copy_path, execute_statement, first_column_i64, last_inserted_row_id,
    open_file_connection, open_memory_connection, prepare_statement, query_one_row, query_rows,
    sqlite_error_message, sqlite_error_text, SqlEvent, SqlLog,
};
use crate::table::{FieldTypeInfo, TableConfig, TableRow};

verus! {

/// What a connection is, seen from outside: whether it is open, the SQLite
/// connection (while open), the file it was opened from (none for an
/// in-memory database), the tables it was opened with, and the record of the
/// calls it made into SQLite.
pub struct DbConnectionView {
    pub open: bool,
    pub connection: Option<Connection>,
    pub db_path: Option<PathBuf>,
    pub tables: Seq<TableConfig>,
    pub log: Seq<SqlEvent>,
}

/// Where a database lives: in memory, or in a file at a path.
pub enum DbLocation {
    Memory,
    File(PathBuf),
}

/// A connection to the underlying SQLite database.
pub struct DbConnection {
    // The SQLite connection; `None` once it is closed.
    connection: Option<Connection>,
    // The file the database was opened from; `None` for an in-memory
    // database.
    db_path: Option<PathBuf>,
    // The tables this connection was opened with.
    tables: Vec<TableConfig>,
    // The calls made into SQLite for this connection.
    log: SqlLog,
}

impl View for DbConnection {
    type V = DbConnectionView;

    closed spec fn view(&self) -> DbConnectionView {
        DbConnectionView {
            open: self.connection is Some,
            connection: self.connection,
            db_path: self.db_path,
            tables: self.tables@,
            log: self.log@,
        }
    }
}

/// `e` is the error for SQLite's failure `failure`: its `Display` text.
pub open spec fn failure_of(e: DbError, failure: rusqlite::Error) -> bool {
    e matches DbError::Sqlite(text) && text@ == sqlite_error_message(failure)
}

/// The error for a failure that SQLite reported.
pub fn sqlite_failure(error: &rusqlite::Error) -> (r: DbError)
    ensures
        failure_of(r, *error),
{
    DbError::Sqlite(sqlite_error_text(error))
}

/// `after` is `before` with the calls of one operation added after it.
pub open spec fn log_extends(before: Seq<SqlEvent>, after: Seq<SqlEvent>, added: nat) -> bool {
    &&& after.len() == before.len() + added
    &&& forall|i: int| 0 <= i < before.len() ==> after[i] == before[i]
}

/// `event` executed `sql` with `params` on `connection`.
pub open spec fn executed(
    event: SqlEvent,
    connection: Connection,
    sql: Seq<char>,
    params: Seq<Value>,
) -> bool {
    event matches SqlEvent::Execute { connection: c, sql: s, params: p, .. } && c == connection && s
        == sql && p == params
}

/// `event` prepared `sql` on `connection`.
pub open spec fn prepared(event: SqlEvent, connection: Connection, sql: Seq<char>) -> bool {
    event matches SqlEvent::Prepare { connection: c, sql: s, .. } && c == connection && s == sql
}

/// A row operation leaves the connection, its file and its tables as they
/// were; only the record of calls grows.
pub open spec fn same_connection(before: DbConnectionView, after: DbConnectionView) -> bool {
    &&& after.open == before.open
    &&& after.connection == before.connection
    &&& after.db_path == before.db_path
    &&& after.tables == before.tables
}

/// The values of the rows that were read, in order, skipping those that
/// failed.
pub open spec fn ok_values<T, E>(rows: Seq<Result<T, E>>) -> Seq<T>
    decreases rows.len(),
{
    if rows.len() == 0 {
        Seq::empty()
    } else {
        match rows.last() {
            Ok(value) => ok_values(rows.drop_last()).push(value),
            Err(_) => ok_values(rows.drop_last()),
        }
    }
}

/// The ids of the rows that could be read, in the order they came; rows
/// whose id could not be read are left out.
pub fn readable_row_ids(rows: Vec<Result<i64, rusqlite::Error>>) -> (r: Vec<i64>)
    ensures
        r@ == ok_values(rows@),
{
    let mut ids: Vec<i64> = Vec::new();
    let mut i: usize = 0;
    while i < rows.len()
        invariant
            i <= rows.len(),
            ids@ == ok_values(rows@.subrange(0, i as int)),
        decreases rows.len() - i,
    {
        assert(rows@.subrange(0, i + 1).drop_last() =~= rows@.subrange(0, i as int));
        match &rows[i] {
            Ok(id) => {
                ids.push(*id);
            },
            Err(_) => {},
        }
        i = i + 1;
    }
    assert(rows@.subrange(0, rows.len() as int) =~= rows@);
    ids
}

/// The id of a result row: its first column, read as an `i64`.
pub fn read_row_id(row: &Row) -> (r: Result<i64, rusqlite::Error>)
    ensures
        call_ensures(first_column_i64, (row,), r),
{
    first_column_i64(row)
}

/// `id` is what the `i64` reader of the first column gives for some result
/// row.
pub open spec fn id_read_as_i64(id: i64) -> bool {
    exists|row: &Row<'_>| call_ensures(first_column_i64, (row,), Ok::<i64, rusqlite::Error>(id))
}

/// Each value kept by `ok_values` is the value of one of the rows.
pub proof fn lemma_ok_values_come_from_rows<T, E>(rows: Seq<Result<T, E>>, j: int)
    requires
        0 <= j < ok_values(rows).len(),
    ensures
        exists|i: int| 0 <= i < rows.len() && rows[i] == Ok::<T, E>(ok_values(rows)[j]),
    decreases rows.len(),
{
    let init = rows.drop_last();
    match rows.last() {
        Ok(value) => {
            if j == ok_values(init).len() {
                assert(rows[rows.len() - 1] == Ok::<T, E>(ok_values(rows)[j]));
            } else {
                lemma_ok_values_come_from_rows(init, j);
                let i = choose|i: int| 0 <= i < init.len() && init[i] == Ok::<T, E>(ok_values(init)[j]);
                assert(rows[i] == init[i]);
            }
        },
        Err(_) => {
            lemma_ok_values_come_from_rows(init, j);
            let i = choose|i: int| 0 <= i < init.len() && init[i] == Ok::<T, E>(ok_values(init)[j]);
            assert(rows[i] == init[i]);
        },
    }
}

/// Every value that a row read gave is kept: the value of each row that was
/// read is among the listed values, and those are listed in the order of
/// the rows; when every row was read, all of them are listed.
pub proof fn law_ok_values_keep_every_read(rows: Seq<Result<i64, rusqlite::Error>>, i: int)
    requires
        0 <= i < rows.len(),
    ensures
        rows[i] matches Ok(value) ==> ok_values(rows).contains(value),
        ok_values(rows).len() <= rows.len(),
        (forall|k: int| 0 <= k < rows.len() ==> (#[trigger] rows[k]) is Ok) ==> ok_values(rows).len()
            == rows.len() && ok_values(rows)[i] == rows[i]->Ok_0,
    decreases rows.len(),
{
    let init = rows.drop_last();
    assert(ok_values(rows).len() <= rows.len()) by {
        lemma_ok_values_len(rows);
    }
    if i < rows.len() - 1 {
        law_ok_values_keep_every_read(init, i);
        assert(init[i] == rows[i]);
        if rows.last() is Ok {
            assert(ok_values(rows) == ok_values(init).push(rows.last()->Ok_0));
            if init[i] is Ok {
                let value = init[i]->Ok_0;
                let k = choose|k: int| 0 <= k < ok_values(init).len() && ok_values(init)[k] == value;
                assert(ok_values(rows)[k] == value);
            }
        }
        if forall|k: int| 0 <= k < rows.len() ==> (#[trigger] rows[k]) is Ok {
            assert forall|k: int| 0 <= k < init.len() implies (#[trigger] init[k]) is Ok by {
                assert(init[k] == rows[k]);
            }
            assert(rows[rows.len() - 1] is Ok);
        }
    } else {
        if rows.last() is Ok {
            assert(ok_values(rows).last() == rows.last()->Ok_0);
            assert(ok_values(rows)[ok_values(rows).len() - 1] == rows[i]->Ok_0);
        }
        if forall|k: int| 0 <= k < rows.len() ==> (#[trigger] rows[k]) is Ok {
            assert forall|k: int| 0 <= k < init.len() implies (#[trigger] init[k]) is Ok by {
                assert(init[k] == rows[k]);
            }
            if init.len() > 0 {
                law_ok_values_keep_every_read(init, 0);
            }
            assert(rows[rows.len() - 1] is Ok);
        }
    }
}

/// Reading rows never gives more values than there were rows.
proof fn lemma_ok_values_len<T, E>(rows: Seq<Result<T, E>>)
    ensures
        ok_values(rows).len() <= rows.len(),
    decreases rows.len(),
{
    if rows.len() > 0 {
        lemma_ok_values_len(rows.drop_last());
    }
}

/// The first column of a result row, read as an `F`.
pub fn read_column<F: ColumnValue>(row: &Row) -> (r: Result<F, rusqlite::Error>)
    ensures
        call_ensures(F::from_row, (row,), r),
{
    F::from_row(row)
}

/// `value` is one that `F`'s reader gives for some result row. Which value
/// a row holds is up to the database, so nothing more is known of it.
pub open spec fn read_from_row<F: ColumnValue>(value: F) -> bool {
    exists|row: &Row<'_>| call_ensures(F::from_row, (row,), Ok::<F, rusqlite::Error>(value))
}

/// `r` is what reading `field` of the row `row_id` of `table` as an `F`
/// gave, the connection going from `before` to `after`: with no open
/// connection, `NoActiveConnection` and nothing else; otherwise the select
/// statement of that field is prepared, and SQLite's refusal of it is the
/// error; once prepared, it is queried with the row id bound, and the
/// failure of that query (no such row, or a value of another type) is the
/// error, while its success gives a value that `F` reads from a row.
pub open spec fn field_lookup<F: ColumnValue>(
    before: DbConnectionView,
    after: DbConnectionView,
    table: Seq<char>,
    row_id: RowId,
    field: Seq<char>,
    r: Result<F, DbError>,
) -> bool {
    &&& same_connection(before, after)
    &&& !before.open ==> r == Err::<F, DbError>(DbError::NoActiveConnection) && after == before
    &&& before.open ==> {
        let n = before.log.len() as int;
        let log = after.log;
        &&& log.len() > n
        &&& prepared(log[n], before.connection->Some_0, select_field_sql(table, field))
        &&& match log[n]->Prepare_error {
            Some(failure) => log_extends(before.log, log, 1) && (r matches Err(e) && failure_of(
                e,
                failure,
            )),
            None => {
                &&& log_extends(before.log, log, 2)
                &&& log[n + 1] matches SqlEvent::QueryOne { row_id: id, error }
                &&& id == row_id.0
                &&& match error {
                    Some(failure) => r matches Err(e) && failure_of(e, failure),
                    None => r matches Ok(value) && read_from_row(value),
                }
            },
        }
    }
}

/// The setups of `configs` ran in order, the `j`-th on the connection
/// `steps[j]` with its table's name: every one with success when `r` is
/// `Ok`; otherwise every one before the last with success, the last one
/// giving `r`'s error, and none after it.
pub open spec fn setup_chain(
    configs: Seq<TableConfig>,
    steps: Seq<&mut Connection>,
    r: Result<(), DbError>,
) -> bool {
    &&& r is Ok ==> steps.len() == configs.len()
    &&& r is Err ==> 1 <= steps.len() <= configs.len()
    &&& forall|j: int|
        #![trigger steps[j]]
        0 <= j < steps.len() ==> configs[j].setup_call(
            steps[j],
            configs[j].table_name_value(),
            if r is Err && j == steps.len() - 1 {
                r
            } else {
                Ok(())
            },
        )
}

/// The connection that an opening call gave, if it gave one.
pub open spec fn opened_connection(event: SqlEvent) -> Option<Connection> {
    match event {
        SqlEvent::OpenMemory { opened: Ok(c) } => Some(c),
        SqlEvent::OpenFile { opened: Ok(c), .. } => Some(c),
        _ => None,
    }
}

/// The names of the given fields.
pub open spec fn field_names(fields: Seq<FieldTypeInfo>) -> Seq<Seq<char>> {
    fields.map_values(|f: FieldTypeInfo| f.name@)
}

/// The tables of a connection stay those it was opened with.
pub open spec fn keeps_tables(before: DbConnectionView, after: DbConnectionView) -> bool {
    after.tables == before.tables
}

/// Whatever operations run on a connection one after another, each keeping
/// its tables, the connection ends with the tables it started with.
pub proof fn law_tables_never_change(views: Seq<DbConnectionView>)
    requires
        views.len() > 0,
        forall|i: int| 0 <= i < views.len() - 1 ==> keeps_tables(#[trigger] views[i], views[i + 1]),
    ensures
        views.last().tables == views[0].tables,
    decreases views.len(),
{
    if views.len() > 1 {
        let init = views.drop_last();
        assert forall|i: int| 0 <= i < init.len() - 1 implies keeps_tables(
            #[trigger] init[i],
            init[i + 1],
        ) by {
            assert(init[i] == views[i] && init[i + 1] == views[i + 1]);
        }
        law_tables_never_change(init);
        assert(keeps_tables(views[views.len() - 2], views[views.len() - 1]));
    }
}

impl DbConnection {
    /// Returns true if the connection is open.
    pub fn is_open(&self) -> (r: bool)
        ensures
            r == self@.open,
    {
        self.connection.is_some()
    }

    /// The path of the database file opened by this connection (`None` for
    /// an in-memory database, and once the file has been deleted).
    pub fn db_path(&self) -> (r: &Option<PathBuf>)
        ensures
            *r == self@.db_path,
    {
        &self.db_path
    }

    /// The table configurations this connection was opened with.
    pub fn tables(&self) -> (r: &Vec<TableConfig>)
        ensures
            r@ == self@.tables,
    {
        &self.tables
    }

    /// Runs the setups of `table_configs` from the `start`-th on, in order,
    /// each with its table's name and on the connection as the one before it
    /// left it, stopping at the first that fails and giving its error.
    fn setup_tables_from(
        connection: &mut Connection,
        table_configs: &Vec<TableConfig>,
        start: usize,
    ) -> (r: Result<(), DbError>)
        requires
            start <= table_configs.len(),
        ensures
            exists|steps: Seq<&mut Connection>|
                {
                    &&& setup_chain(table_configs@.skip(start as int), steps, r)
                    &&& steps.len() == 0 ==> *final(connection) == *old(connection)
                    &&& steps.len() > 0 ==> *steps[0] == *old(connection)
                    &&& steps.len() > 0 ==> *final(steps[steps.len() - 1]) == *final(connection)
                    &&& forall|j: int|
                        0 <= j < steps.len() - 1 ==> *final(#[trigger] steps[j]) == *steps[j + 1]
                },
        decreases table_configs.len() - start,
    {
        let ghost configs = table_configs@.skip(start as int);
        if start == table_configs.len() {
            assert(setup_chain(configs, Seq::<&mut Connection>::empty(), Ok(())));
            return Ok(());
        }
        let config = &table_configs[start];
        let name = config.name().clone();
        let ghost before = *connection;
        let outcome = config.setup(connection, name);
        let ghost after = *connection;
        assert(configs[0] == *config);
        match outcome {
            Ok(()) => {},
            Err(e) => {
                assert(exists|steps: Seq<&mut Connection>|
                    {
                        &&& setup_chain(configs, steps, Err(e))
                        &&& steps.len() > 0 ==> *steps[0] == before
                        &&& steps.len() > 0 ==> *final(steps[steps.len() - 1]) == after
                        &&& forall|j: int|
                            0 <= j < steps.len() - 1 ==> *final(#[trigger] steps[j]) == *steps[j
                                + 1]
                    }) by {
                    let m = choose|m: &mut Connection|
                        *m == before && *final(m) == after && config.setup_call(m, name, outcome);
                    let steps = seq![m];
                    assert(steps[0] == m);
                    assert(outcome == Err::<(), DbError>(e));
                    assert(name == configs[0].table_name_value());
                    assert(configs[0].setup_call(steps[0], configs[0].table_name_value(), Err(e)));
                    assert(setup_chain(configs, steps, Err(e)));
                }
                return Err(e);
            },
        }
        let rest = Self::setup_tables_from(connection, table_configs, start + 1);
        proof {
            let later = table_configs@.skip(start + 1);
            assert(configs.skip(1) =~= later);
            assert(exists|steps: Seq<&mut Connection>|
                {
                    &&& setup_chain(configs, steps, rest)
                    &&& *steps[0] == before
                    &&& *final(steps[steps.len() - 1]) == *final(connection)
                    &&& forall|j: int|
                        0 <= j < steps.len() - 1 ==> *final(#[trigger] steps[j]) == *steps[j + 1]
                }) by {
                let m = choose|m: &mut Connection|
                    *m == before && *final(m) == after && config.setup_call(m, name, outcome);
                let tail = choose|steps: Seq<&mut Connection>|
                    {
                        &&& setup_chain(later, steps, rest)
                        &&& steps.len() == 0 ==> *final(connection) == after
                        &&& steps.len() > 0 ==> *steps[0] == after
                        &&& steps.len() > 0 ==> *final(steps[steps.len() - 1]) == *final(connection)
                        &&& forall|j: int|
                            0 <= j < steps.len() - 1 ==> *final(#[trigger] steps[j]) == *steps[j + 1]
                    };
                let steps = seq![m] + tail;
                assert(steps[0] == m);
                assert(name == configs[0].table_name_value());
                assert forall|j: int| 1 <= j < steps.len() implies steps[j] == tail[j - 1]
                    && configs[j] == later[j - 1] by {}
                assert forall|j: int| #![trigger steps[j]] 0 <= j < steps.len() implies configs[j].setup_call(
                    steps[j],
                    configs[j].table_name_value(),
                    if rest is Err && j == steps.len() - 1 {
                        rest
                    } else {
                        Ok(())
                    },
                ) by {
                    if j > 0 {
                        assert(steps[j] == tail[j - 1]);
                        assert(configs[j] == later[j - 1]);
                    } else {
                        assert(outcome->Ok_0 == ());
                        assert(outcome == Ok::<(), DbError>(()));
                        assert(rest is Err ==> tail.len() >= 1);
                    }
                }
                assert(setup_chain(configs, steps, rest));
                assert forall|j: int|
                    0 <= j < steps.len() - 1 implies *final(#[trigger] steps[j]) == *steps[j + 1] by {
                    if j > 0 {
                        assert(steps[j] == tail[j - 1]);
                        assert(steps[j + 1] == tail[j]);
                    } else if tail.len() > 0 {
                        assert(steps[1] == tail[0]);
                    }
                }
            }
        }
        rest
    }

    /// Runs the setup of every table configuration on `connection`, in
    /// order, each with its table's name, stopping at the first that fails
    /// and giving its error.
    fn setup_connection(connection: &mut Connection, table_configs: &Vec<TableConfig>) -> (r: Result<
        (),
        DbError,
    >)
        ensures
            exists|steps: Seq<&mut Connection>|
                {
                    &&& setup_chain(table_configs@, steps, r)
                    &&& steps.len() == 0 ==> *final(connection) == *old(connection)
                    &&& steps.len() > 0 ==> *steps[0] == *old(connection)
                    &&& steps.len() > 0 ==> *final(steps[steps.len() - 1]) == *final(connection)
                    &&& forall|j: int|
                        0 <= j < steps.len() - 1 ==> *final(#[trigger] steps[j]) == *steps[j + 1]
                },
    {
        let r = Self::setup_tables_from(connection, table_configs, 0);
        assert(table_configs@.skip(0) =~= table_configs@);
        r
    }

    /// Makes a database connection of what SQLite's opening call gave.
    /// SQLite's refusal to open is the error. Otherwise the setups of the
    /// given tables run on the opened connection, in order, each on the
    /// connection as the one before left it; the first failing setup's error
    /// is the error, and when all succeed the connection that comes back is
    /// open, with that connection as the setups left it, the file
    /// `db_path`, the table configurations and the record `log`.
    pub fn set_up_opened(
        opened: Result<Connection, rusqlite::Error>,
        db_path: Option<PathBuf>,
        table_configs: Vec<TableConfig>,
        log: SqlLog,
    ) -> (r: Result<DbConnection, DbError>)
        ensures
            opened matches Err(failure) ==> r matches Err(e) && failure_of(e, failure),
            opened matches Ok(c) ==> match r {
                Ok(db) => {
                    &&& db@.open
                    &&& db@.db_path == db_path
                    &&& db@.tables == table_configs@
                    &&& db@.log == log@
                    &&& exists|steps: Seq<&mut Connection>|
                        {
                            &&& setup_chain(table_configs@, steps, Ok(()))
                            &&& steps.len() == 0 ==> db@.connection == Some(c)
                            &&& steps.len() > 0 ==> *steps[0] == c
                            &&& steps.len() > 0 ==> Some(*final(steps[steps.len() - 1])) == db@.connection
                            &&& forall|j: int|
                                0 <= j < steps.len() - 1 ==> *final(#[trigger] steps[j]) == *steps[j + 1]
                        }
                },
                Err(e) => exists|steps: Seq<&mut Connection>|
                    {
                        &&& setup_chain(table_configs@, steps, Err(e))
                        &&& *steps[0] == c
                        &&& forall|j: int|
                            0 <= j < steps.len() - 1 ==> *final(#[trigger] steps[j]) == *steps[j + 1]
                    },
            },
    {
        let mut connection = match opened {
            Ok(c) => c,
            Err(failure) => {
                return Err(sqlite_failure(&failure));
            },
        };
        match Self::setup_connection(&mut connection, &table_configs) {
            Ok(()) => {},
            Err(e) => {
                return Err(e);
            },
        }
        Ok(DbConnection { connection: Some(connection), db_path, tables: table_configs, log })
    }

    /// Opens a new in-memory database and sets up the given tables on it,
    /// in order (see `set_up_opened`). The connection that comes back is
    /// open, has no file, keeps the table configurations, and is the opened
    /// one as all the setups left it; an error is SQLite's (its refusal to
    /// open) or the first failing setup's.
    pub fn open_in_memory(table_configs: Vec<TableConfig>) -> (r: Result<DbConnection, DbError>)
        ensures
            r matches Ok(db) ==> {
                &&& db@.db_path is None
                &&& db@.log[0] is OpenMemory
                &&& db@.open
                &&& db@.tables == table_configs@
                &&& db@.log.len() == 1
                &&& exists|steps: Seq<&mut Connection>|
                    {
                        &&& setup_chain(table_configs@, steps, Ok(()))
                        &&& steps.len() == 0 ==> db@.connection == opened_connection(db@.log[0])
                        &&& steps.len() > 0 ==> Some(*steps[0]) == opened_connection(db@.log[0])
                        &&& steps.len() > 0 ==> Some(*final(steps[steps.len() - 1])) == db@.connection
                        &&& forall|j: int|
                            0 <= j < steps.len() - 1 ==> *final(#[trigger] steps[j]) == *steps[j + 1]
                    }
            },
            r matches Err(e) ==> {
                ||| exists|failure: rusqlite::Error| failure_of(e, failure)
                ||| exists|steps: Seq<&mut Connection>|
                    setup_chain(table_configs@, steps, Err(e)) && forall|j: int|
                        0 <= j < steps.len() - 1 ==> *final(#[trigger] steps[j]) == *steps[j + 1]
            },
    {
        let mut log = SqlLog::new();
        let opened = open_memory_connection(&mut log);
        let ghost outcome = opened;
        let r = Self::set_up_opened(opened, None, table_configs, log);
        proof {
            if outcome is Err {
                assert(failure_of(r->Err_0, outcome->Err_0));
            }
        }
        r
    }

    /// Opens the database file at `path` and sets up the given tables on it,
    /// in order (see `set_up_opened`).
    ///
    /// `create_parent_dirs` is first given `path` and must create the
    /// directories that lead to it; its failure, with its reason, is this
    /// function's `Io` error and nothing is opened. The connection that comes
    /// back is open, keeps the path and the table configurations, and is the
    /// one SQLite opened for the file at `path` as all the setups left it.
    pub fn open_from_path<F: FnOnce(&PathBuf) -> Result<(), String>>(
        path: &PathBuf,
        table_configs: Vec<TableConfig>,
        create_parent_dirs: F,
    ) -> (r: Result<DbConnection, DbError>)
        requires
            create_parent_dirs.requires((path,)),
        ensures
            match r {
                Ok(db) => {
                    &&& create_parent_dirs.ensures((path,), Ok::<(), String>(()))
                    &&& db@.db_path == Some(*path)
                    &&& db@.log[0] matches SqlEvent::OpenFile { path: p, .. } && p == *path
                    &&& db@.open
                    &&& db@.tables == table_configs@
                    &&& db@.log.len() == 1
                    &&& exists|steps: Seq<&mut Connection>|
                        {
                            &&& setup_chain(table_configs@, steps, Ok(()))
                            &&& steps.len() == 0 ==> db@.connection == opened_connection(db@.log[0])
                            &&& steps.len() > 0 ==> Some(*steps[0]) == opened_connection(db@.log[0])
                            &&& steps.len() > 0 ==> Some(*final(steps[steps.len() - 1])) == db@.connection
                            &&& forall|j: int|
                                0 <= j < steps.len() - 1 ==> *final(#[trigger] steps[j]) == *steps[j + 1]
                        }
                },
                Err(e) => {
                    ||| e matches DbError::Io(reason) && create_parent_dirs.ensures((path,), Err(reason))
                    ||| {
                        &&& create_parent_dirs.ensures((path,), Ok::<(), String>(()))
                        &&& {
                            ||| exists|failure: rusqlite::Error| failure_of(e, failure)
                            ||| exists|steps: Seq<&mut Connection>|
                                setup_chain(table_configs@, steps, Err(e)) && forall|j: int|
                                    0 <= j < steps.len() - 1 ==> *final(#[trigger] steps[j]) == *steps[j + 1]
                        }
                    }
                },
            },
    {
        let prepared = create_parent_dirs(path);
        match prepared {
            Ok(()) => {},
            Err(reason) => {
                return Err(DbError::Io(reason));
            },
        }
        assert(prepared->Ok_0 == ());
        let mut log = SqlLog::new();
        let opened = open_file_connection(path, &mut log);
        let ghost outcome = opened;
        let r = Self::set_up_opened(opened, Some(copy_path(path)), table_configs, log);
        proof {
            if outcome is Err {
                assert(failure_of(r->Err_0, outcome->Err_0));
            }
        }
        r
    }

    /// Opens the database at `location` (see `open_in_memory` and
    /// `open_from_path`) and sets up the given tables on it.
    pub fn open_at<F: FnOnce(&PathBuf) -> Result<(), String>>(
        location: DbLocation,
        table_configs: Vec<TableConfig>,
        create_parent_dirs: F,
    ) -> (r: Result<DbConnection, DbError>)
        requires
            forall|p: &PathBuf| create_parent_dirs.requires((p,)),
        ensures
            r matches Ok(db) ==> {
                &&& match location {
                    DbLocation::Memory => db@.db_path is None && db@.log[0] is OpenMemory,
                    DbLocation::File(path) => db@.db_path == Some(path) && (db@.log[0] matches SqlEvent::OpenFile { path: p, .. } && p == path),
                }
                &&& db@.open
                &&& db@.tables == table_configs@
                &&& db@.log.len() == 1
                &&& exists|steps: Seq<&mut Connection>|
                    {
                        &&& setup_chain(table_configs@, steps, Ok(()))
                        &&& steps.len() == 0 ==> db@.connection == opened_connection(db@.log[0])
                        &&& steps.len() > 0 ==> Some(*steps[0]) == opened_connection(db@.log[0])
                        &&& steps.len() > 0 ==> Some(*final(steps[steps.len() - 1])) == db@.connection
                        &&& forall|j: int|
                            0 <= j < steps.len() - 1 ==> *final(#[trigger] steps[j]) == *steps[j + 1]
                    }
            },
            r matches Err(e) ==> {
                ||| location matches DbLocation::File(path) && (e matches DbError::Io(reason)
                    && create_parent_dirs.ensures((&path,), Err(reason)))
                ||| exists|failure: rusqlite::Error| failure_of(e, failure)
                ||| exists|steps: Seq<&mut Connection>|
                    setup_chain(table_configs@, steps, Err(e)) && forall|j: int|
                        0 <= j < steps.len() - 1 ==> *final(#[trigger] steps[j]) == *steps[j + 1]
            },
    {
        match location {
            DbLocation::Memory => Self::open_in_memory(table_configs),
            DbLocation::File(path) => Self::open_from_path(&path, table_configs, create_parent_dirs),
        }
    }

    /// Closes the connection: the first step of deleting the database, which
    /// requires an open connection and closes it before its file is
    /// deleted. When SQLite closed the connection, what comes back is the
    /// path of the database file to remove (`None` for an in-memory
    /// database, which closing deletes); the outcome of removing it is then
    /// handed to `db_file_erased`. When there is no open connection, or
    /// SQLite does not close it, that is the error and no path comes back.
    pub fn delete_db(&mut self) -> (r: Result<Option<PathBuf>, DbError>)
        ensures
            !old(self)@.open ==> r == Err::<Option<PathBuf>, DbError>(DbError::NoActiveConnection)
                && final(self)@ == old(self)@,
            old(self)@.open ==> {
                &&& !final(self)@.open
                &&& final(self)@.tables == old(self)@.tables
                &&& final(self)@.db_path == old(self)@.db_path
                &&& log_extends(old(self)@.log, final(self)@.log, 1)
                &&& final(self)@.log.last() matches SqlEvent::Close { connection: c, closed }
                &&& c == old(self)@.connection->Some_0
                &&& match closed {
                    Err(failure) => r matches Err(e) && failure_of(e, failure),
                    Ok(_) => r == Ok::<Option<PathBuf>, DbError>(old(self)@.db_path),
                }
            },
    {
        let connection = match self.connection.take() {
            Some(c) => c,
            None => {
                return Err(DbError::NoActiveConnection);
            },
        };
        match close_connection(connection, &mut self.log) {
            Ok(()) => {},
            Err(e) => {
                return Err(sqlite_failure(&e));
            },
        }
        match &self.db_path {
            Some(path) => Ok(Some(copy_path(path))),
            None => Ok(None),
        }
    }

    /// Takes the outcome of removing the database file whose path
    /// `delete_db` gave. When it was removed, the connection no longer knows
    /// a file; when it was not, its reason is the `EraseDbFile` error and the
    /// connection still knows the path.
    pub fn db_file_erased(&mut self, erased: Result<(), String>) -> (r: Result<(), DbError>)
        ensures
            match erased {
                Ok(_) => {
                    &&& r is Ok
                    &&& final(self)@.db_path is None
                    &&& final(self)@.open == old(self)@.open
                    &&& final(self)@.connection == old(self)@.connection
                    &&& final(self)@.tables == old(self)@.tables
                    &&& final(self)@.log == old(self)@.log
                },
                Err(reason) => {
                    &&& r == Err::<(), DbError>(DbError::EraseDbFile(reason))
                    &&& final(self)@ == old(self)@
                },
            },
    {
        match erased {
            Ok(()) => {
                self.db_path = None;
                Ok(())
            },
            Err(reason) => Err(DbError::EraseDbFile(reason)),
        }
    }

    /// Inserts a new row of default values into `table` and gives its row
    /// id, the one SQLite reports for the insert.
    pub fn new_row_in_table(&mut self, table: &str) -> (r: Result<RowId, DbError>)
        ensures
            same_connection(old(self)@, final(self)@),
            !old(self)@.open ==> r == Err::<RowId, DbError>(DbError::NoActiveConnection)
                && final(self)@ == old(self)@,
            old(self)@.open ==> {
                let n = old(self)@.log.len() as int;
                let log = final(self)@.log;
                &&& log.len() > n
                &&& executed(log[n], old(self)@.connection->Some_0, insert_row_sql(table@), seq![])
                &&& match log[n]->changed {
                    Ok(_) => {
                        &&& log_extends(old(self)@.log, log, 2)
                        &&& log[n + 1] matches SqlEvent::LastInsertRowId { connection: c, id }
                        &&& c == old(self)@.connection->Some_0
                        &&& r == Ok::<RowId, DbError>(RowId(id))
                    },
                    Err(failure) => log_extends(old(self)@.log, log, 1) && (r matches Err(e)
                        && failure_of(e, failure)),
                }
            },
    {
        let connection = match &self.connection {
            Some(c) => c,
            None => {
                return Err(DbError::NoActiveConnection);
            },
        };
        let sql = insert_row_statement(table);
        match execute_statement(connection, sql.as_str(), Vec::new(), &mut self.log) {
            Ok(_) => {},
            Err(e) => {
                return Err(sqlite_failure(&e));
            },
        }
        Ok(RowId(last_inserted_row_id(connection, &mut self.log)))
    }

    /// Sets `field` of the row `row_id` of `table` to `value`: the update
    /// statement with `value` bound first and the row id second.
    pub fn set_field_in_table(&mut self, table: &str, row_id: RowId, field: &str, value: Value) -> (r:
        Result<(), DbError>)
        ensures
            same_connection(old(self)@, final(self)@),
            !old(self)@.open ==> r == Err::<(), DbError>(DbError::NoActiveConnection)
                && final(self)@ == old(self)@,
            old(self)@.open ==> {
                let n = old(self)@.log.len() as int;
                let log = final(self)@.log;
                &&& log_extends(old(self)@.log, log, 1)
                &&& executed(
                    log[n],
                    old(self)@.connection->Some_0,
                    update_field_sql(table@, field@),
                    seq![value, Value::Integer(row_id.0)],
                )
                &&& match log[n]->changed {
                    Ok(_) => r is Ok,
                    Err(failure) => r matches Err(e) && failure_of(e, failure),
                }
            },
    {
        let connection = match &self.connection {
            Some(c) => c,
            None => {
                return Err(DbError::NoActiveConnection);
            },
        };
        let sql = update_field_statement(table, field);
        let mut params: Vec<Value> = Vec::new();
        params.push(value);
        params.push(Value::Integer(row_id.0));
        assert(params@ =~= seq![value, Value::Integer(row_id.0)]);
        match execute_statement(connection, sql.as_str(), params, &mut self.log) {
            Ok(_) => Ok(()),
            Err(e) => Err(sqlite_failure(&e)),
        }
    }

    /// Updates the row `row_id` of `table` with one assignment per field of
    /// the row type `R`, each bound to the second parameter; the row id is
    /// bound as the only parameter.
    pub fn set_row_in_table<R: TableRow>(&mut self, table: &str, row_id: RowId, _data: &R) -> (r:
        Result<(), DbError>)
        ensures
            same_connection(old(self)@, final(self)@),
            !old(self)@.open ==> r == Err::<(), DbError>(DbError::NoActiveConnection)
                && final(self)@ == old(self)@,
            old(self)@.open ==> {
                let n = old(self)@.log.len() as int;
                let log = final(self)@.log;
                &&& log_extends(old(self)@.log, log, 1)
                &&& exists|fields: Vec<FieldTypeInfo>|
                    call_ensures(R::field_types, (), fields) && executed(
                        log[n],
                        old(self)@.connection->Some_0,
                        update_row_sql(table@, assignments_sql(field_names(fields@), 2)),
                        seq![Value::Integer(row_id.0)],
                    )
                &&& match log[n]->changed {
                    Ok(_) => r is Ok,
                    Err(failure) => r matches Err(e) && failure_of(e, failure),
                }
            },
    {
        let connection = match &self.connection {
            Some(c) => c,
            None => {
                return Err(DbError::NoActiveConnection);
            },
        };
        let mut params: Vec<Value> = Vec::new();
        params.push(Value::Integer(row_id.0));
        let fields = R::field_types();
        let mut names: Vec<String> = Vec::new();
        let mut i: usize = 0;
        while i < fields.len()
            invariant
                i <= fields.len(),
                names.len() == i,
                forall|k: int| 0 <= k < i ==> (#[trigger] names@[k])@ == fields@[k].name@,
            decreases fields.len() - i,
        {
            let name = fields[i].name.clone();
            names.push(name);
            i = i + 1;
        }
        assert(names@.map_values(|n: String| n@) =~= field_names(fields@));
        // Each assignment names the parameter after those already bound.
        let position: u64 = params.len() as u64 + 1;
        let assignments = assignments_statement(&names, position);
        let sql = update_row_statement(table, assignments.as_str());
        assert(params@ =~= seq![Value::Integer(row_id.0)]);
        match execute_statement(connection, sql.as_str(), params, &mut self.log) {
            Ok(_) => Ok(()),
            Err(e) => Err(sqlite_failure(&e)),
        }
    }

    /// The ids of the rows of `table` whose id could be read, in the order
    /// SQLite gives them.
    pub fn get_table_row_ids(&mut self, table: &str) -> (r: Result<Vec<i64>, DbError>)
        ensures
            same_connection(old(self)@, final(self)@),
            !old(self)@.open ==> r == Err::<Vec<i64>, DbError>(DbError::NoActiveConnection)
                && final(self)@ == old(self)@,
            old(self)@.open ==> {
                let n = old(self)@.log.len() as int;
                let log = final(self)@.log;
                &&& log.len() > n
                &&& prepared(log[n], old(self)@.connection->Some_0, select_ids_sql(table@))
                &&& match log[n]->Prepare_error {
                    Some(failure) => log_extends(old(self)@.log, log, 1) && (r matches Err(e)
                        && failure_of(e, failure)),
                    None => {
                        &&& log_extends(old(self)@.log, log, 2)
                        &&& log[n + 1] matches SqlEvent::QueryRows { rows: queried }
                        &&& match queried {
                            Ok(rows) => r matches Ok(ids) && ids@ == ok_values(rows) && forall|i: int|
                                0 <= i < ids@.len() ==> id_read_as_i64(#[trigger] ids@[i]),
                            Err(failure) => r matches Err(e) && failure_of(e, failure),
                        }
                    },
                }
            },
    {
        let connection = match &self.connection {
            Some(c) => c,
            None => {
                return Err(DbError::NoActiveConnection);
            },
        };
        let sql = select_ids_statement(table);
        let mut statement = match prepare_statement(connection, sql.as_str(), &mut self.log) {
            Ok(s) => s,
            Err(e) => {
                return Err(sqlite_failure(&e));
            },
        };
        match query_rows(&mut statement, read_row_id, &mut self.log) {
            Ok(rows) => {
                let ids = readable_row_ids(rows);
                proof {
                    assert forall|i: int| 0 <= i < ids@.len() implies id_read_as_i64(
                        #[trigger] ids@[i],
                    ) by {
                        lemma_ok_values_come_from_rows(rows@, i);
                        let k = choose|k: int|
                            0 <= k < rows@.len() && rows@[k] == Ok::<i64, rusqlite::Error>(ids@[i]);
                        assert(rows@[k] matches Ok(value) && value == ids@[i]);
                        let row = choose|row: &Row<'_>|
                            call_ensures(read_row_id, (row,), Ok::<i64, rusqlite::Error>(ids@[i]));
                        assert(call_ensures(first_column_i64, (row,), Ok::<i64, rusqlite::Error>(ids@[i])));
                    }
                }
                Ok(ids)
            },
            Err(e) => Err(sqlite_failure(&e)),
        }
    }

    /// Gets `field_name` of the row `row_id` of `table`, read as an `F`.
    /// When the query cannot be prepared (no such table or field), when the
    /// row is missing, or when its field is not of type `F`, that is an
    /// error.
    pub fn get_field_in_table_row<F: ColumnValue>(
        &mut self,
        table: &str,
        row_id: RowId,
        field_name: &str,
    ) -> (r: Result<F, DbError>)
        ensures
            field_lookup(old(self)@, final(self)@, table@, row_id, field_name@, r),
    {
        let connection = match &self.connection {
            Some(c) => c,
            None => {
                return Err(DbError::NoActiveConnection);
            },
        };
        let sql = select_field_statement(table, field_name);
        let mut statement = match prepare_statement(connection, sql.as_str(), &mut self.log) {
            Ok(s) => s,
            Err(e) => {
                return Err(sqlite_failure(&e));
            },
        };
        let read = query_one_row(
            &mut statement,
            row_id.0,
            read_column::<F>,
            &mut self.log,
        );
        match read {
            Ok(value) => {
                proof {
                    let row = choose|row: &Row<'_>|
                        call_ensures(read_column::<F>, (row,), Ok::<F, rusqlite::Error>(value));
                    assert(call_ensures(F::from_row, (row,), Ok::<F, rusqlite::Error>(value)));
                    assert(read_from_row(value));
                }
                Ok(value)
            },
            Err(e) => Err(sqlite_failure(&e)),
        }
    }

    /// Removes the row `row_id` from `table`: `Ok` when SQLite removed a
    /// row, `NoSuchRow` when there was none to remove.
    pub fn remove_row_in_table(&mut self, table: &str, row_id: RowId) -> (r: Result<(), DbError>)
        ensures
            same_connection(old(self)@, final(self)@),
            !old(self)@.open ==> r == Err::<(), DbError>(DbError::NoActiveConnection)
                && final(self)@ == old(self)@,
            old(self)@.open ==> {
                let n = old(self)@.log.len() as int;
                let log = final(self)@.log;
                &&& log_extends(old(self)@.log, log, 1)
                &&& executed(
                    log[n],
                    old(self)@.connection->Some_0,
                    delete_row_sql(table@),
                    seq![Value::Integer(row_id.0)],
                )
                &&& match log[n]->changed {
                    Ok(changed) => if changed == 0 {
                        r == Err::<(), DbError>(DbError::NoSuchRow)
                    } else {
                        r is Ok
                    },
                    Err(failure) => r matches Err(e) && failure_of(e, failure),
                }
            },
    {
        let connection = match &self.connection {
            Some(c) => c,
            None => {
                return Err(DbError::NoActiveConnection);
            },
        };
        let sql = delete_row_statement(table);
        let mut params: Vec<Value> = Vec::new();
        params.push(Value::Integer(row_id.0));
        assert(params@ =~= seq![Value::Integer(row_id.0)]);
        match execute_statement(connection, sql.as_str(), params, &mut self.log) {
            Ok(changed) => if changed == 0 {
                Err(DbError::NoSuchRow)
            } else {
                Ok(())
            },
            Err(e) => Err(sqlite_failure(&e)),
        }
    }
}

} // verus!
