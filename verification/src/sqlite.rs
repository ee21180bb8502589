//! The calls into `rusqlite`, `chrono` and `std` that the data layer makes.
//!
//! Each function here makes one outside call and converts its arguments and
//! result; its contract is believed, not proved. Where nothing is stated of a
//! result, the result depends on what the database holds, on the file system,
//! or on SQLite's own checks of a statement, which no short statement covers.
use vstd::prelude::*;
use std::path::PathBuf;
use rusqlite::{Connection, Row, Statement};
use rusqlite::types::Value;

verus! {

#[verifier::external_type_specification]
#[verifier::external_body]
pub struct ExConnection(rusqlite::Connection);

#[verifier::external_type_specification]
#[verifier::external_body]
pub struct ExStatement<'conn>(rusqlite::Statement<'conn>);

#[verifier::external_type_specification]
#[verifier::external_body]
pub struct ExRow<'stmt>(rusqlite::Row<'stmt>);

#[verifier::external_type_specification]
#[verifier::external_body]
pub struct ExSqliteError(rusqlite::Error);

#[verifier::external_type_specification]
pub struct ExValue(rusqlite::types::Value);

#[verifier::external_type_specification]
#[verifier::external_body]
pub struct ExPathBuf(std::path::PathBuf);

#[verifier::external_type_specification]
#[verifier::external_body]
pub struct ExTypeId(std::any::TypeId);

#[verifier::external_type_specification]
#[verifier::external_body]
pub struct ExNaiveDate(chrono::NaiveDate);

#[verifier::external_type_specification]
#[verifier::external_body]
pub struct ExBuilder(tabled::builder::Builder);

/// What `str::parse::<chrono::NaiveDate>` gives for a text: the date it
/// spells, or `None`. chrono reads a year (with an optional sign), a month
/// and a day, separated by dashes, with whitespace allowed between the
/// parts and at the end.
pub uninterp spec fn naive_date_of_text(text: Seq<char>) -> Option<chrono::NaiveDate>;

/// The text that `chrono::NaiveDate`'s `Debug` formatting writes for a date.
pub uninterp spec fn naive_date_debug_text(date: chrono::NaiveDate) -> Seq<char>;

/// The text that a `rusqlite::Error`'s `Display` formatting writes.
pub uninterp spec fn sqlite_error_message(error: rusqlite::Error) -> Seq<char>;

/// One call that the data layer made into SQLite, with what was handed to
/// it and what came back.
pub enum SqlEvent {
    /// `Connection::open_in_memory`; `opened` is the new connection, or
    /// SQLite's error.
    OpenMemory { opened: Result<Connection, rusqlite::Error> },
    /// `Connection::open` of the file at `path`; `opened` is the new
    /// connection, or SQLite's error.
    OpenFile { path: PathBuf, opened: Result<Connection, rusqlite::Error> },
    /// `Connection::execute` of `sql` with the positional parameters
    /// `params`; `changed` is the number of rows it changed, or SQLite's
    /// error.
    Execute {
        connection: Connection,
        sql: Seq<char>,
        params: Seq<Value>,
        changed: Result<usize, rusqlite::Error>,
    },
    /// `Connection::last_insert_rowid`.
    LastInsertRowId { connection: Connection, id: i64 },
    /// `Connection::prepare` of `sql`; `error` is SQLite's refusal, if any.
    Prepare { connection: Connection, sql: Seq<char>, error: Option<rusqlite::Error> },
    /// `Statement::query_map` of the statement prepared last, without
    /// parameters, every row read as an `i64`.
    QueryRows { rows: Result<Seq<Result<i64, rusqlite::Error>>, rusqlite::Error> },
    /// `Statement::query_one` of the statement prepared last, with `row_id`
    /// bound; `error` is the failure, if any (no row, or a value of another
    /// type).
    QueryOne { row_id: i64, error: Option<rusqlite::Error> },
    /// `Connection::close` of `connection`; `closed` is its outcome.
    Close { connection: Connection, closed: Result<(), rusqlite::Error> },
}

/// The record of the calls into SQLite made for one connection, in order.
pub struct SqlLog {
    events: Ghost<Seq<SqlEvent>>,
}

impl View for SqlLog {
    type V = Seq<SqlEvent>;

    closed spec fn view(&self) -> Seq<SqlEvent> {
        self.events@
    }
}

impl SqlLog {
    /// A record of no calls.
    pub fn new() -> (r: SqlLog)
        ensures
            r@ == Seq::<SqlEvent>::empty(),
    {
        SqlLog { events: Ghost(Seq::empty()) }
    }
}

/// `rusqlite::Connection::open_in_memory`: opens a new in-memory database.
/// Whether SQLite succeeds is not stated; the call is recorded in `log`.
#[verifier::external_body]
pub fn open_memory_connection(log: &mut SqlLog) -> (r: Result<Connection, rusqlite::Error>)
    ensures
        final(log)@ == old(log)@.push(SqlEvent::OpenMemory { opened: r }),
{
    Connection::open_in_memory()
}

/// `rusqlite::Connection::open`: opens (or creates) the database file at
/// `path`. Whether SQLite succeeds is not stated; the call is recorded in
/// `log`.
#[verifier::external_body]
pub fn open_file_connection(path: &PathBuf, log: &mut SqlLog) -> (r: Result<
    Connection,
    rusqlite::Error,
>)
    ensures
        final(log)@ == old(log)@.push(SqlEvent::OpenFile { path: *path, opened: r }),
{
    Connection::open(path)
}

/// `rusqlite::Connection::execute`: runs one statement with the given
/// positional parameters and gives the number of rows it changed. What the
/// statement does and whether it succeeds is up to SQLite and is not stated;
/// the call is recorded in `log`.
#[verifier::external_body]
pub fn execute_statement(
    connection: &Connection,
    sql: &str,
    params: Vec<Value>,
    log: &mut SqlLog,
) -> (r: Result<usize, rusqlite::Error>)
    ensures
        final(log)@ == old(log)@.push(
            SqlEvent::Execute { connection: *connection, sql: sql@, params: params@, changed: r },
        ),
{
    connection.execute(sql, rusqlite::params_from_iter(params))
}

/// `rusqlite::Connection::last_insert_rowid`: the row id of the most recent
/// successful insert on this connection; the call is recorded in `log`.
#[verifier::external_body]
pub fn last_inserted_row_id(connection: &Connection, log: &mut SqlLog) -> (r: i64)
    ensures
        final(log)@ == old(log)@.push(SqlEvent::LastInsertRowId { connection: *connection, id: r }),
{
    connection.last_insert_rowid()
}

/// `rusqlite::Connection::prepare`: compiles one statement. Whether SQLite
/// accepts it (the table and column exist) is not stated; the call is
/// recorded in `log`.
#[verifier::external_body]
pub fn prepare_statement<'conn>(connection: &'conn Connection, sql: &str, log: &mut SqlLog) -> (r:
    Result<Statement<'conn>, rusqlite::Error>)
    ensures
        final(log)@ == old(log)@.push(
            SqlEvent::Prepare {
                connection: *connection,
                sql: sql@,
                error: match r {
                    Ok(_) => None,
                    Err(e) => Some(e),
                },
            },
        ),
{
    connection.prepare(sql)
}

/// `rusqlite::Statement::query_map` without parameters: every result row,
/// in order, read by `read`, collected. Which rows come back is up to the
/// database; a value that comes back is one `read` gave for a row (the
/// failures may also be SQLite's, when a row cannot be fetched). The call is
/// recorded in `log`.
#[verifier::external_body]
pub fn query_rows<F: Fn(&Row<'_>) -> Result<i64, rusqlite::Error>>(
    statement: &mut Statement,
    read: F,
    log: &mut SqlLog,
) -> (r: Result<Vec<Result<i64, rusqlite::Error>>, rusqlite::Error>)
    requires
        forall|row: &Row<'_>| read.requires((row,)),
    ensures
        final(log)@ == old(log)@.push(
            SqlEvent::QueryRows {
                rows: match r {
                    Ok(rows) => Ok(rows@),
                    Err(e) => Err(e),
                },
            },
        ),
        r matches Ok(rows) ==> forall|i: int|
            0 <= i < rows@.len() ==> (#[trigger] rows@[i] matches Ok(value) ==> exists|row: &Row<'_>|
                read.ensures((row,), Ok::<i64, rusqlite::Error>(value))),
{
    statement.query_map([], read).map(|rows| rows.collect())
}

/// `rusqlite::Statement::query_one` with the row id as the only parameter:
/// the one result row, read by `read`, whose value is then what `read` gave
/// for a row. Whether there is exactly one row is up to the database; the
/// call is recorded in `log`.
#[verifier::external_body]
pub fn query_one_row<T, F: FnOnce(&Row<'_>) -> Result<T, rusqlite::Error>>(
    statement: &mut Statement,
    row_id: i64,
    read: F,
    log: &mut SqlLog,
) -> (r: Result<T, rusqlite::Error>)
    requires
        forall|row: &Row<'_>| read.requires((row,)),
    ensures
        final(log)@ == old(log)@.push(
            SqlEvent::QueryOne {
                row_id,
                error: match r {
                    Ok(_) => None,
                    Err(e) => Some(e),
                },
            },
        ),
        r matches Ok(value) ==> exists|row: &Row<'_>| read.ensures((row,), Ok::<T, rusqlite::Error>(value)),
{
    statement.query_one([row_id], read)
}

/// `rusqlite::Row::get` of the first column as a `String` (a `TEXT` value).
#[verifier::external_body]
pub fn first_column_text(row: &Row<'_>) -> (r: Result<String, rusqlite::Error>) {
    row.get(0)
}

/// `rusqlite::Row::get` of the first column as an `i64` (an `INTEGER` value).
#[verifier::external_body]
pub fn first_column_i64(row: &Row<'_>) -> (r: Result<i64, rusqlite::Error>) {
    row.get(0)
}

/// `rusqlite::Row::get` of the first column as an `i32` (an `INTEGER` value
/// in range).
#[verifier::external_body]
pub fn first_column_i32(row: &Row<'_>) -> (r: Result<i32, rusqlite::Error>) {
    row.get(0)
}

/// `rusqlite::Row::get` of the first column as a `u32` (an `INTEGER` value
/// in range).
#[verifier::external_body]
pub fn first_column_u32(row: &Row<'_>) -> (r: Result<u32, rusqlite::Error>) {
    row.get(0)
}

/// `rusqlite::Row::get` of the first column as an `i8` (an `INTEGER` value
/// in range).
#[verifier::external_body]
pub fn first_column_i8(row: &Row<'_>) -> (r: Result<i8, rusqlite::Error>) {
    row.get(0)
}

/// `rusqlite::Row::get` of the first column as an `i16` (an `INTEGER` value
/// in range).
#[verifier::external_body]
pub fn first_column_i16(row: &Row<'_>) -> (r: Result<i16, rusqlite::Error>) {
    row.get(0)
}

/// `rusqlite::Row::get` of the first column as a `u8` (an `INTEGER` value
/// in range).
#[verifier::external_body]
pub fn first_column_u8(row: &Row<'_>) -> (r: Result<u8, rusqlite::Error>) {
    row.get(0)
}

/// `rusqlite::Row::get` of the first column as a `u16` (an `INTEGER` value
/// in range).
#[verifier::external_body]
pub fn first_column_u16(row: &Row<'_>) -> (r: Result<u16, rusqlite::Error>) {
    row.get(0)
}

/// `rusqlite::Row::get` of the first column as a `bool` (an `INTEGER` value,
/// zero for `false`).
#[verifier::external_body]
pub fn first_column_bool(row: &Row<'_>) -> (r: Result<bool, rusqlite::Error>) {
    row.get(0)
}

/// `rusqlite::Connection::close`: closes the connection, giving SQLite's
/// error when closing fails (the connection that comes back with it is
/// dropped); the call is recorded in `log`.
#[verifier::external_body]
pub fn close_connection(connection: Connection, log: &mut SqlLog) -> (r: Result<(), rusqlite::Error>)
    ensures
        final(log)@ == old(log)@.push(SqlEvent::Close { connection, closed: r }),
{
    connection.close().map_err(|failure| failure.1)
}

/// The `Display` text of a `rusqlite::Error` (`ToString::to_string`).
#[verifier::external_body]
pub fn sqlite_error_text(error: &rusqlite::Error) -> (r: String)
    ensures
        r@ == sqlite_error_message(*error),
{
    error.to_string()
}

/// `PathBuf::clone`: a copy of the path.
#[verifier::external_body]
pub fn copy_path(path: &PathBuf) -> (r: PathBuf)
    ensures
        r == *path,
{
    path.clone()
}

/// `str::parse::<chrono::NaiveDate>`: the date a text spells (year, month
/// and day separated by dashes), if it spells one.
#[verifier::external_body]
pub fn parse_naive_date(text: &str) -> (r: Option<chrono::NaiveDate>)
    ensures
        r == naive_date_of_text(text@),
{
    text.parse::<chrono::NaiveDate>().ok()
}

/// `chrono::NaiveDate`'s `Debug` formatting, `YYYY-MM-DD`.
#[verifier::external_body]
pub fn naive_date_debug(date: &chrono::NaiveDate) -> (r: String)
    ensures
        r@ == naive_date_debug_text(*date),
{
    format!("{:?}", date)
}

} // verus!
