//! Field types: how a value of a column is read from a table and how it is
//! shown in table output.
use vstd::prelude::*;
use rusqlite::Row;
use crate::connection::{field_lookup, read_from_row, DbConnection, DbConnectionView};
use crate::error::DbError;
use crate::row_id::{
    parse_row_id_list, row_id_debug_text, row_id_list_debug, row_id_list_debug_text,
    row_ids_of_text, RowId,
};
use crate::sqlite::{
    first_column_bool, first_column_i16, first_column_i32, first_column_i64, first_column_i8,
    first_column_text, first_column_u16, first_column_u32, first_column_u8, naive_date_debug,
    naive_date_debug_text, naive_date_of_text, parse_naive_date,
};
use crate::text::{debug_quoted, debug_text_of_str, i64_text, int_text, push_i64_text};

verus! {

/// A type whose values can be read from one column of a query result.
pub trait ColumnValue: Sized {
    /// The `Debug` text of a value.
    spec fn debug_spec(value: Self) -> Seq<char>;

    /// Reads the first column of a result row as a value of this type.
    fn from_row(row: &Row) -> Result<Self, rusqlite::Error>;

    /// The `Debug` text of the value.
    fn debug_text(&self) -> (r: String)
        ensures
            r@ == Self::debug_spec(*self),
    ;
}

impl ColumnValue for String {
    open spec fn debug_spec(value: String) -> Seq<char> {
        debug_quoted(value@)
    }

    /// What `Row::get` gives for the first column.
    fn from_row(row: &Row) -> (r: Result<String, rusqlite::Error>)
        ensures
            call_ensures(first_column_text, (row,), r),
    {
        first_column_text(row)
    }

    fn debug_text(&self) -> (r: String) {
        debug_text_of_str(self.as_str())
    }
}

impl ColumnValue for i64 {
    open spec fn debug_spec(value: i64) -> Seq<char> {
        int_text(value as int)
    }

    /// What `Row::get` gives for the first column.
    fn from_row(row: &Row) -> (r: Result<i64, rusqlite::Error>)
        ensures
            call_ensures(first_column_i64, (row,), r),
    {
        first_column_i64(row)
    }

    fn debug_text(&self) -> (r: String) {
        i64_text(*self)
    }
}

impl ColumnValue for i32 {
    open spec fn debug_spec(value: i32) -> Seq<char> {
        int_text(value as int)
    }

    /// What `Row::get` gives for the first column.
    fn from_row(row: &Row) -> (r: Result<i32, rusqlite::Error>)
        ensures
            call_ensures(first_column_i32, (row,), r),
    {
        first_column_i32(row)
    }

    fn debug_text(&self) -> (r: String) {
        i64_text(*self as i64)
    }
}

impl ColumnValue for u32 {
    open spec fn debug_spec(value: u32) -> Seq<char> {
        int_text(value as int)
    }

    /// What `Row::get` gives for the first column.
    fn from_row(row: &Row) -> (r: Result<u32, rusqlite::Error>)
        ensures
            call_ensures(first_column_u32, (row,), r),
    {
        first_column_u32(row)
    }

    fn debug_text(&self) -> (r: String) {
        i64_text(*self as i64)
    }
}

impl ColumnValue for i8 {
    open spec fn debug_spec(value: i8) -> Seq<char> {
        int_text(value as int)
    }

    /// What `Row::get` gives for the first column.
    fn from_row(row: &Row) -> (r: Result<i8, rusqlite::Error>)
        ensures
            call_ensures(first_column_i8, (row,), r),
    {
        first_column_i8(row)
    }

    fn debug_text(&self) -> (r: String) {
        i64_text(*self as i64)
    }
}

impl ColumnValue for i16 {
    open spec fn debug_spec(value: i16) -> Seq<char> {
        int_text(value as int)
    }

    /// What `Row::get` gives for the first column.
    fn from_row(row: &Row) -> (r: Result<i16, rusqlite::Error>)
        ensures
            call_ensures(first_column_i16, (row,), r),
    {
        first_column_i16(row)
    }

    fn debug_text(&self) -> (r: String) {
        i64_text(*self as i64)
    }
}

impl ColumnValue for u8 {
    open spec fn debug_spec(value: u8) -> Seq<char> {
        int_text(value as int)
    }

    /// What `Row::get` gives for the first column.
    fn from_row(row: &Row) -> (r: Result<u8, rusqlite::Error>)
        ensures
            call_ensures(first_column_u8, (row,), r),
    {
        first_column_u8(row)
    }

    fn debug_text(&self) -> (r: String) {
        i64_text(*self as i64)
    }
}

impl ColumnValue for u16 {
    open spec fn debug_spec(value: u16) -> Seq<char> {
        int_text(value as int)
    }

    /// What `Row::get` gives for the first column.
    fn from_row(row: &Row) -> (r: Result<u16, rusqlite::Error>)
        ensures
            call_ensures(first_column_u16, (row,), r),
    {
        first_column_u16(row)
    }

    fn debug_text(&self) -> (r: String) {
        i64_text(*self as i64)
    }
}

/// The `Debug` text of a `bool`.
pub open spec fn bool_text(value: bool) -> Seq<char> {
    if value {
        "true"@
    } else {
        "false"@
    }
}

impl ColumnValue for bool {
    open spec fn debug_spec(value: bool) -> Seq<char> {
        bool_text(value)
    }

    /// What `Row::get` gives for the first column.
    fn from_row(row: &Row) -> (r: Result<bool, rusqlite::Error>)
        ensures
            call_ensures(first_column_bool, (row,), r),
    {
        first_column_bool(row)
    }

    fn debug_text(&self) -> (r: String) {
        if *self {
            let r = String::from_str("true");
            proof {
                reveal_strlit("true");
            }
            r
        } else {
            let r = String::from_str("false");
            proof {
                reveal_strlit("false");
            }
            r
        }
    }
}

/// The shown text of a `bool` tells its value: `true` shows as `true` and
/// `false` as `false`, as Rust's `Debug` writes them, so two flags show the
/// same only when they are the same.
pub proof fn law_bool_text_tells_value(value: bool, other: bool)
    ensures
        bool_text(true) == "true"@,
        bool_text(false) == "false"@,
        bool_text(value) == bool_text(other) <==> value == other,
{
    reveal_strlit("true");
    reveal_strlit("false");
    if bool_text(value) == bool_text(other) && value != other {
        assert(bool_text(value).len() != bool_text(other).len());
    }
}

/// The row id of an integer that was read, or the error of the read.
pub open spec fn row_id_of_read(read: Result<i64, rusqlite::Error>) -> Result<RowId, rusqlite::Error> {
    match read {
        Ok(value) => Ok(RowId(value)),
        Err(e) => Err(e),
    }
}

impl ColumnValue for RowId {
    open spec fn debug_spec(value: RowId) -> Seq<char> {
        row_id_debug_text(value)
    }

    /// A row id column holds an integer: the `i64` that `Row::get` gives for
    /// the first column, as a row id.
    fn from_row(row: &Row) -> (r: Result<RowId, rusqlite::Error>)
        ensures
            exists|read: Result<i64, rusqlite::Error>|
                call_ensures(first_column_i64, (row,), read) && r == row_id_of_read(read),
            r matches Ok(id) ==> call_ensures(
                first_column_i64,
                (row,),
                Ok::<i64, rusqlite::Error>(id.0),
            ),
            r matches Err(e) ==> call_ensures(
                first_column_i64,
                (row,),
                Err::<i64, rusqlite::Error>(e),
            ),
    {
        let read = first_column_i64(row);
        let r = match read {
            Ok(value) => Ok(RowId(value)),
            Err(e) => Err(e),
        };
        assert(r == row_id_of_read(read));
        r
    }

    fn debug_text(&self) -> (r: String) {
        self.debug_text()
    }
}

/// Reading a row id keeps the integer that the column holds: whatever the
/// row id reader gives for a row, the `i64` reader gives for that row too,
/// the id's integer for a row id and the same error for a failure.
pub proof fn law_row_id_read_keeps_integer(row: &Row, r: Result<RowId, rusqlite::Error>)
    requires
        call_ensures(<RowId as ColumnValue>::from_row, (row,), r),
    ensures
        r matches Ok(id) ==> call_ensures(first_column_i64, (row,), Ok::<i64, rusqlite::Error>(id.0)),
        r matches Err(e) ==> call_ensures(first_column_i64, (row,), Err::<i64, rusqlite::Error>(e)),
{
}

/// A row id read from a field is the integer that the `i64` reader gives
/// for the result row: the field's value is not replaced or rewritten.
pub proof fn law_row_id_field_is_its_integer(
    before: DbConnectionView,
    after: DbConnectionView,
    table: Seq<char>,
    row_id: RowId,
    field: Seq<char>,
    r: Result<RowId, DbError>,
)
    requires
        field_lookup(before, after, table, row_id, field, r),
    ensures
        r matches Ok(id) ==> exists|row: &Row<'_>|
            call_ensures(first_column_i64, (row,), Ok::<i64, rusqlite::Error>(id.0)),
{
    if r is Ok {
        let id = r->Ok_0;
        assert(read_from_row(id));
        let row = choose|row: &Row<'_>|
            call_ensures(<RowId as ColumnValue>::from_row, (row,), Ok::<RowId, rusqlite::Error>(id));
        law_row_id_read_keeps_integer(row, Ok(id));
    }
}

/// Arguments for `TableField::to_display_string`.
pub struct TableFieldDisplayStringArgs<'a> {
    /// A connection to the database.
    pub db_connection: &'a mut DbConnection,
    /// If applicable, a table and column to show for a `RowId`, instead of its
    /// numeric id.
    pub display_table: Option<(String, String)>,
}

/// A type stored in one column of a SQL table.
pub trait TableField: Sized {
    /// The SQL data type of the column (`INTEGER`, `TEXT`).
    fn sql_type() -> &'static str;

    /// Reads the value of `field_name` of the row `row_id` of `table_name`.
    fn from_table_field(
        db_connection: &mut DbConnection,
        table_name: String,
        row_id: RowId,
        field_name: String,
    ) -> Result<Self, DbError>;

    /// The text that shows this value in table output.
    fn to_display_string(&self, args: TableFieldDisplayStringArgs) -> String;
}

/// `INTEGER`
pub open spec fn integer_type_text() -> Seq<char> {
    "INTEGER"@
}

/// `TEXT`
pub open spec fn text_type_text() -> Seq<char> {
    "TEXT"@
}

impl TableField for String {
    fn sql_type() -> (r: &'static str)
        ensures
            r@ == text_type_text(),
    {
        "TEXT"
    }

    fn from_table_field(
        db_connection: &mut DbConnection,
        table_name: String,
        row_id: RowId,
        field_name: String,
    ) -> (r: Result<String, DbError>)
        ensures
            field_lookup(
                old(db_connection)@,
                final(db_connection)@,
                table_name@,
                row_id,
                field_name@,
                r,
            ),
    {
        db_connection.get_field_in_table_row::<String>(
            table_name.as_str(),
            row_id,
            field_name.as_str(),
        )
    }

    fn to_display_string(&self, _args: TableFieldDisplayStringArgs) -> (r: String)
        ensures
            r@ == debug_quoted(self@),
    {
        debug_text_of_str(self.as_str())
    }
}

impl TableField for i32 {
    fn sql_type() -> (r: &'static str)
        ensures
            r@ == integer_type_text(),
    {
        "INTEGER"
    }

    fn from_table_field(
        db_connection: &mut DbConnection,
        table_name: String,
        row_id: RowId,
        field_name: String,
    ) -> (r: Result<i32, DbError>)
        ensures
            field_lookup(
                old(db_connection)@,
                final(db_connection)@,
                table_name@,
                row_id,
                field_name@,
                r,
            ),
    {
        db_connection.get_field_in_table_row::<i32>(table_name.as_str(), row_id, field_name.as_str())
    }

    fn to_display_string(&self, _args: TableFieldDisplayStringArgs) -> (r: String)
        ensures
            r@ == int_text(*self as int),
    {
        i64_text(*self as i64)
    }
}

impl TableField for u32 {
    fn sql_type() -> (r: &'static str)
        ensures
            r@ == integer_type_text(),
    {
        "INTEGER"
    }

    fn from_table_field(
        db_connection: &mut DbConnection,
        table_name: String,
        row_id: RowId,
        field_name: String,
    ) -> (r: Result<u32, DbError>)
        ensures
            field_lookup(
                old(db_connection)@,
                final(db_connection)@,
                table_name@,
                row_id,
                field_name@,
                r,
            ),
    {
        db_connection.get_field_in_table_row::<u32>(table_name.as_str(), row_id, field_name.as_str())
    }

    fn to_display_string(&self, _args: TableFieldDisplayStringArgs) -> (r: String)
        ensures
            r@ == int_text(*self as int),
    {
        i64_text(*self as i64)
    }
}

impl TableField for i64 {
    fn sql_type() -> (r: &'static str)
        ensures
            r@ == integer_type_text(),
    {
        "INTEGER"
    }

    fn from_table_field(
        db_connection: &mut DbConnection,
        table_name: String,
        row_id: RowId,
        field_name: String,
    ) -> (r: Result<i64, DbError>)
        ensures
            field_lookup(
                old(db_connection)@,
                final(db_connection)@,
                table_name@,
                row_id,
                field_name@,
                r,
            ),
    {
        db_connection.get_field_in_table_row::<i64>(table_name.as_str(), row_id, field_name.as_str())
    }

    fn to_display_string(&self, _args: TableFieldDisplayStringArgs) -> (r: String)
        ensures
            r@ == int_text(*self as int),
    {
        i64_text(*self)
    }
}

/// The row id that a field read gave: the integer it holds.
pub fn row_id_from_field(read: Result<i64, DbError>) -> (r: Result<RowId, DbError>)
    ensures
        match read {
            Ok(value) => r == Ok::<RowId, DbError>(RowId(value)),
            Err(e) => r == Err::<RowId, DbError>(e),
        },
{
    match read {
        Ok(value) => Ok(RowId(value)),
        Err(e) => Err(e),
    }
}

/// The text shown for a row id whose linked row was looked up in `table`:
/// the looked-up field text when the lookup succeeded, otherwise a note
/// that names the row, the column and the table.
pub open spec fn linked_row_text(
    id: RowId,
    table: Seq<char>,
    column: Seq<char>,
    looked_up: Result<String, DbError>,
) -> Seq<char> {
    match looked_up {
        Ok(text) => text@,
        Err(_) => "invalid row "@ + int_text(id.0 as int) + ", column "@ + debug_quoted(column)
            + " in table "@ + debug_quoted(table),
    }
}

/// The text shown for a row id, given the outcome of looking up its linked
/// row's field.
pub fn describe_linked_row(
    id: RowId,
    table: &String,
    column: &String,
    looked_up: Result<String, DbError>,
) -> (r: String)
    ensures
        r@ == linked_row_text(id, table@, column@, looked_up),
{
    match looked_up {
        Ok(text) => text,
        Err(_) => {
            let mut s = String::from_str("invalid row ");
            push_i64_text(&mut s, id.0);
            s.append(", column ");
            let column_text = debug_text_of_str(column.as_str());
            s.append(column_text.as_str());
            s.append(" in table ");
            let table_text = debug_text_of_str(table.as_str());
            s.append(table_text.as_str());
            s
        },
    }
}

impl TableField for RowId {
    fn sql_type() -> (r: &'static str)
        ensures
            r@ == integer_type_text(),
    {
        "INTEGER"
    }

    fn from_table_field(
        db_connection: &mut DbConnection,
        table_name: String,
        row_id: RowId,
        field_name: String,
    ) -> (r: Result<RowId, DbError>)
        ensures
            exists|read: Result<i64, DbError>|
                field_lookup(
                    old(db_connection)@,
                    final(db_connection)@,
                    table_name@,
                    row_id,
                    field_name@,
                    read,
                ) && call_ensures(row_id_from_field, (read,), r),
    {
        let read = db_connection.get_field_in_table_row::<i64>(
            table_name.as_str(),
            row_id,
            field_name.as_str(),
        );
        row_id_from_field(read)
    }

    /// With a display table, the text of the linked row's field in that table
    /// (or a note that it is missing); without one, the `Debug` text.
    fn to_display_string(&self, args: TableFieldDisplayStringArgs) -> (r: String)
        ensures
            args.display_table is None ==> r@ == row_id_debug_text(*self),
            args.display_table matches Some((table, column)) ==> exists|
                looked_up: Result<String, DbError>,
            |
                field_lookup(
                    (*old(args.db_connection))@,
                    (*final(args.db_connection))@,
                    table@,
                    *self,
                    column@,
                    looked_up,
                ) && r@ == linked_row_text(*self, table@, column@, looked_up),
    {
        match args.display_table {
            Some((table, column)) => {
                let looked_up = args.db_connection.get_field_in_table_row::<String>(
                    table.as_str(),
                    *self,
                    column.as_str(),
                );
                describe_linked_row(*self, &table, &column, looked_up)
            },
            None => self.debug_text(),
        }
    }
}

/// The row ids that a field read gave, from its comma-separated text.
pub fn row_ids_from_field(read: Result<String, DbError>) -> (r: Result<Vec<RowId>, DbError>)
    ensures
        match read {
            Ok(text) => match row_ids_of_text(text@) {
                Some(ids) => r matches Ok(v) && v@ == ids,
                None => r matches Err(e) && e is InvalidRowIdList,
            },
            Err(e) => r matches Err(f) && f == e,
        },
{
    match read {
        Ok(text) => match parse_row_id_list(text.as_str()) {
            Some(ids) => Ok(ids),
            None => Err(DbError::InvalidRowIdList),
        },
        Err(e) => Err(e),
    }
}

impl TableField for Vec<RowId> {
    fn sql_type() -> (r: &'static str)
        ensures
            r@ == text_type_text(),
    {
        "TEXT"
    }

    /// The field holds the ids as text, separated by commas.
    fn from_table_field(
        db_connection: &mut DbConnection,
        table_name: String,
        row_id: RowId,
        field_name: String,
    ) -> (r: Result<Vec<RowId>, DbError>)
        ensures
            exists|read: Result<String, DbError>|
                field_lookup(
                    old(db_connection)@,
                    final(db_connection)@,
                    table_name@,
                    row_id,
                    field_name@,
                    read,
                ) && call_ensures(row_ids_from_field, (read,), r),
    {
        let read = db_connection.get_field_in_table_row::<String>(
            table_name.as_str(),
            row_id,
            field_name.as_str(),
        );
        row_ids_from_field(read)
    }

    fn to_display_string(&self, _args: TableFieldDisplayStringArgs) -> (r: String)
        ensures
            r@ == row_id_list_debug_text(self@),
    {
        row_id_list_debug(self)
    }
}

/// The date that a field read gave, from its `YYYY-MM-DD` text.
pub fn date_from_field(read: Result<String, DbError>) -> (r: Result<chrono::NaiveDate, DbError>)
    ensures
        match read {
            Ok(text) => match naive_date_of_text(text@) {
                Some(date) => r == Ok::<chrono::NaiveDate, DbError>(date),
                None => r matches Err(e) && e is InvalidDate,
            },
            Err(e) => r matches Err(f) && f == e,
        },
{
    match read {
        Ok(text) => match parse_naive_date(text.as_str()) {
            Some(date) => Ok(date),
            None => Err(DbError::InvalidDate),
        },
        Err(e) => Err(e),
    }
}

impl TableField for chrono::NaiveDate {
    fn sql_type() -> (r: &'static str)
        ensures
            r@ == text_type_text(),
    {
        "TEXT"
    }

    /// The field holds the date as `YYYY-MM-DD` text.
    fn from_table_field(
        db_connection: &mut DbConnection,
        table_name: String,
        row_id: RowId,
        field_name: String,
    ) -> (r: Result<chrono::NaiveDate, DbError>)
        ensures
            exists|read: Result<String, DbError>|
                field_lookup(
                    old(db_connection)@,
                    final(db_connection)@,
                    table_name@,
                    row_id,
                    field_name@,
                    read,
                ) && call_ensures(date_from_field, (read,), r),
    {
        let read = db_connection.get_field_in_table_row::<String>(
            table_name.as_str(),
            row_id,
            field_name.as_str(),
        );
        date_from_field(read)
    }

    fn to_display_string(&self, _args: TableFieldDisplayStringArgs) -> (r: String)
        ensures
            r@ == naive_date_debug_text(*self),
    {
        naive_date_debug(self)
    }
}

/// The optional value that a field read gave: the value when the read
/// succeeded, `None` when it failed.
pub fn optional_from_field<T>(read: Result<T, DbError>) -> (r: Result<Option<T>, DbError>)
    ensures
        match read {
            Ok(value) => r == Ok::<Option<T>, DbError>(Some(value)),
            Err(_) => r == Ok::<Option<T>, DbError>(None),
        },
{
    match read {
        Ok(value) => Ok(Some(value)),
        Err(_) => Ok(None),
    }
}

/// The `Debug` text of an optional value, `Some(<value>)` or `None`.
pub open spec fn optional_debug_text<T: ColumnValue>(value: Option<T>) -> Seq<char> {
    match value {
        Some(v) => "Some("@ + T::debug_spec(v) + ")"@,
        None => "None"@,
    }
}

impl<T: ColumnValue> TableField for Option<T> {
    fn sql_type() -> (r: &'static str)
        ensures
            r@ == text_type_text(),
    {
        "TEXT"
    }

    /// The value read, or `None` when the field cannot be read (no
    /// connection, no such table, field or row, or a value of another type).
    fn from_table_field(
        db_connection: &mut DbConnection,
        table_name: String,
        row_id: RowId,
        field_name: String,
    ) -> (r: Result<Option<T>, DbError>)
        ensures
            exists|read: Result<T, DbError>|
                field_lookup(
                    old(db_connection)@,
                    final(db_connection)@,
                    table_name@,
                    row_id,
                    field_name@,
                    read,
                ) && call_ensures(optional_from_field::<T>, (read,), r),
    {
        let read = db_connection.get_field_in_table_row::<T>(
            table_name.as_str(),
            row_id,
            field_name.as_str(),
        );
        optional_from_field(read)
    }

    fn to_display_string(&self, _args: TableFieldDisplayStringArgs) -> (r: String)
        ensures
            r@ == optional_debug_text(*self),
    {
        match self {
            Some(value) => {
                let mut s = String::from_str("Some(");
                let inner = value.debug_text();
                s.append(inner.as_str());
                s.append(")");
                s
            },
            None => String::from_str("None"),
        }
    }
}

/// An optional flag is shown as `Some(true)`, `Some(false)` or `None`, as
/// Rust's `Debug` writes it, so two optional flags show the same only when
/// they are the same.
pub proof fn law_optional_bool_text_tells_value(value: Option<bool>, other: Option<bool>)
    ensures
        optional_debug_text(Some(true)) == "Some(true)"@,
        optional_debug_text(Some(false)) == "Some(false)"@,
        optional_debug_text::<bool>(None) == "None"@,
        optional_debug_text(value) == optional_debug_text(other) <==> value == other,
{
    reveal_strlit("Some(");
    reveal_strlit(")");
    reveal_strlit("None");
    reveal_strlit("true");
    reveal_strlit("false");
    reveal_strlit("Some(true)");
    reveal_strlit("Some(false)");
    assert("Some("@ + "true"@ + ")"@ =~= "Some(true)"@);
    assert("Some("@ + "false"@ + ")"@ =~= "Some(false)"@);
    let texts = optional_debug_text(value);
    let other_texts = optional_debug_text(other);
    if texts == other_texts && value != other {
        match (value, other) {
            (Some(a), Some(b)) => {
                assert(texts.len() != other_texts.len());
            },
            (Some(_), None) => {
                assert(texts.len() != other_texts.len());
            },
            (None, Some(_)) => {
                assert(texts.len() != other_texts.len());
            },
            (None, None) => {},
        }
    }
}

} // verus!
