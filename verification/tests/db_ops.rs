use std::any::TypeId;
use std::path::PathBuf;

use reliquary::{
    DbConnection, DbError, FieldTypeInfo, RowId, TableConfig, TableField,
    TableFieldDisplayStringArgs, TableRow,
};
use rusqlite::types::Value;
use reliquary::sqlite::SqlLog;
use rusqlite::Connection;
use tabled::builder::Builder;

#[derive(Debug)]
struct TestTableRow {
    bar: String,
}

impl TableRow for TestTableRow {
    fn setup(connection: &mut Connection, table_name: String) -> Result<(), DbError> {
        connection
            .execute(
                format!("CREATE TABLE IF NOT EXISTS {} (id INTEGER PRIMARY KEY, bar TEXT)", table_name)
                    .as_str(),
                [],
            )
            .map(|_| ())
            .map_err(|e| DbError::Sqlite(e.to_string()))
    }

    fn from_table_row(
        db_connection: &mut DbConnection,
        table_name: String,
        row_id: RowId,
    ) -> Result<Self, DbError> {
        Ok(TestTableRow {
            bar: String::from_table_field(db_connection, table_name, row_id, "bar".to_string())?,
        })
    }

    fn push_tabled_header(builder: &mut Builder) {
        builder.push_record(["bar"]);
    }

    fn push_tabled_record(
        builder: &mut Builder,
        db_connection: &mut DbConnection,
        table_name: String,
        row_id: RowId,
    ) {
        builder.push_record(Self::get_fields_as_strings(db_connection, table_name, row_id));
    }

    fn get_fields_as_strings(
        db_connection: &mut DbConnection,
        table_name: String,
        row_id: RowId,
    ) -> Vec<String> {
        let bar = String::from_table_field(db_connection, table_name, row_id, "bar".to_string())
            .unwrap_or_default();
        vec![bar.to_display_string(TableFieldDisplayStringArgs {
            db_connection,
            display_table: None,
        })]
    }

    fn field_types() -> Vec<FieldTypeInfo> {
        vec![FieldTypeInfo { name: "bar".to_string(), type_id: TypeId::of::<String>() }]
    }
}

fn test_db() -> DbConnection {
    DbConnection::open_in_memory(vec![TableConfig::new::<TestTableRow>("foo")]).unwrap()
}

#[test]
fn db_table_ops_test() -> Result<(), DbError> {
    let mut db_connection = test_db();

    // check the db connection is open
    assert!(db_connection.is_open());

    // an in-memory connection has no file path
    assert!(db_connection.db_path().is_none());

    // field type info
    let field_types = db_connection
        .tables()
        .iter()
        .find(|t| t.table_name == "foo")
        .ok_or(DbError::Message("no table foo".to_string()))?
        .field_types();
    assert_eq!(field_types.len(), 1);
    assert_eq!(field_types[0].name(), "bar");
    assert_eq!(field_types[0].type_id(), TypeId::of::<String>());

    // the first row of an empty table is row 1
    let inserted_row = db_connection.new_row_in_table("foo")?;
    assert_eq!(inserted_row.0, 1);

    // the table holds just that row
    let table_row_ids = db_connection.get_table_row_ids("foo")?;
    assert_eq!(table_row_ids, vec![1]);

    // set a field of the row and read it back
    db_connection.set_field_in_table("foo", inserted_row, "bar", Value::Text("foobar".to_string()))?;
    let field = db_connection.get_field_in_table_row::<String>("foo", inserted_row, "bar")?;
    assert_eq!(field, "foobar");

    // read the whole row
    let table_row = TestTableRow::from_table_row(&mut db_connection, "foo".into(), inserted_row)?;
    assert_eq!(table_row.bar, "foobar");

    // delete the row
    db_connection.remove_row_in_table("foo", inserted_row)?;
    let table_row_ids_2 = db_connection.get_table_row_ids("foo")?;
    assert_eq!(table_row_ids_2.len(), 0);

    // an in-memory database is only closed
    db_connection.delete_db()?;
    assert!(!db_connection.is_open());

    Ok(())
}

#[test]
fn closed_connection_refuses_operations() {
    let mut db = test_db();
    assert_eq!(db.delete_db().unwrap(), None);
    assert!(!db.is_open());
    assert!(matches!(db.new_row_in_table("foo"), Err(DbError::NoActiveConnection)));
    assert!(matches!(db.get_table_row_ids("foo"), Err(DbError::NoActiveConnection)));
    assert!(matches!(
        db.get_field_in_table_row::<String>("foo", RowId(1), "bar"),
        Err(DbError::NoActiveConnection)
    ));
    assert!(matches!(db.remove_row_in_table("foo", RowId(1)), Err(DbError::NoActiveConnection)));
    assert!(matches!(
        db.set_field_in_table("foo", RowId(1), "bar", Value::Integer(3)),
        Err(DbError::NoActiveConnection)
    ));
    assert!(matches!(db.delete_db(), Err(DbError::NoActiveConnection)));
    assert_eq!(DbError::NoActiveConnection.message(), "no active db connection");
}

#[test]
fn missing_row_and_missing_column_fail() {
    let mut db = test_db();
    // no row 7: the field is not found
    assert!(matches!(
        db.get_field_in_table_row::<String>("foo", RowId(7), "bar"),
        Err(DbError::Sqlite(_))
    ));
    assert!(matches!(
        db.get_field_in_table_row::<i64>("foo", RowId(7), "bar"),
        Err(DbError::Sqlite(_))
    ));
    // no such column: the query cannot be prepared
    assert!(matches!(
        db.get_field_in_table_row::<String>("foo", RowId(1), "nope"),
        Err(DbError::Sqlite(_))
    ));
    // no such table
    assert!(matches!(db.get_table_row_ids("nothing"), Err(DbError::Sqlite(_))));
    assert!(matches!(
        db.set_field_in_table("nothing", RowId(1), "bar", Value::Integer(1)),
        Err(DbError::Sqlite(_))
    ));
}

#[test]
fn removing_a_missing_row_fails() {
    let mut db = test_db();
    let row = db.new_row_in_table("foo").unwrap();
    assert!(matches!(db.remove_row_in_table("foo", RowId(row.0 + 10)), Err(DbError::NoSuchRow)));
    assert_eq!(DbError::NoSuchRow.message(), "no such row");
    db.remove_row_in_table("foo", row).unwrap();
    assert!(matches!(db.remove_row_in_table("foo", row), Err(DbError::NoSuchRow)));
    assert_eq!(db.get_table_row_ids("foo").unwrap(), Vec::<i64>::new());
}

#[test]
fn new_rows_get_consecutive_ids() {
    let mut db = test_db();
    let first = db.new_row_in_table("foo").unwrap();
    let second = db.new_row_in_table("foo").unwrap();
    assert_eq!(first, RowId(1));
    assert_eq!(second, RowId(2));
    assert_eq!(db.get_table_row_ids("foo").unwrap(), vec![1, 2]);
    assert_eq!(db.tables().len(), 1);
    assert_eq!(db.tables()[0].table_name, "foo");
}

#[test]
fn optional_field_reads() {
    let mut db = test_db();
    let row = db.new_row_in_table("foo").unwrap();
    // a NULL text field cannot be read as text: None
    let v = Option::<String>::from_table_field(&mut db, "foo".into(), row, "bar".into()).unwrap();
    assert_eq!(v, None);
    // a field that cannot be queried reads as None
    let w = Option::<String>::from_table_field(&mut db, "foo".into(), row, "nope".into()).unwrap();
    assert_eq!(w, None);
    // a missing row reads as None
    let x = Option::<String>::from_table_field(&mut db, "foo".into(), RowId(9), "bar".into()).unwrap();
    assert_eq!(x, None);
    // a value that is there
    db.set_field_in_table("foo", row, "bar", Value::Text("here".to_string())).unwrap();
    let y = Option::<String>::from_table_field(&mut db, "foo".into(), row, "bar".into()).unwrap();
    assert_eq!(y, Some("here".to_string()));
}

#[test]
fn row_id_list_field() {
    let mut db = test_db();
    let row = db.new_row_in_table("foo").unwrap();
    db.set_field_in_table("foo", row, "bar", Value::Text("3,1,2".to_string())).unwrap();
    let ids = Vec::<RowId>::from_table_field(&mut db, "foo".into(), row, "bar".into()).unwrap();
    assert_eq!(ids, vec![RowId(3), RowId(1), RowId(2)]);
    db.set_field_in_table("foo", row, "bar", Value::Text("3,x".to_string())).unwrap();
    assert!(matches!(
        Vec::<RowId>::from_table_field(&mut db, "foo".into(), row, "bar".into()),
        Err(DbError::InvalidRowIdList)
    ));
}

#[test]
fn row_id_field_and_display() {
    let mut db = test_db();
    let row = db.new_row_in_table("foo").unwrap();
    db.set_field_in_table("foo", row, "bar", Value::Text("linked".to_string())).unwrap();
    let shown = row.to_display_string(TableFieldDisplayStringArgs {
        db_connection: &mut db,
        display_table: Some(("foo".to_string(), "bar".to_string())),
    });
    assert_eq!(shown, "linked");
    let plain = RowId(5).to_display_string(TableFieldDisplayStringArgs {
        db_connection: &mut db,
        display_table: None,
    });
    assert_eq!(plain, "RowId(5)");
    let bad_column = RowId(5).to_display_string(TableFieldDisplayStringArgs {
        db_connection: &mut db,
        display_table: Some(("foo".to_string(), "nope".to_string())),
    });
    assert_eq!(bad_column, "invalid row 5, column \"nope\" in table \"foo\"");
    // no row 5: the linked row is missing
    let missing = RowId(5).to_display_string(TableFieldDisplayStringArgs {
        db_connection: &mut db,
        display_table: Some(("foo".to_string(), "bar".to_string())),
    });
    assert_eq!(missing, "invalid row 5, column \"bar\" in table \"foo\"");
}

#[test]
fn date_field() {
    let mut db = test_db();
    let row = db.new_row_in_table("foo").unwrap();
    db.set_field_in_table("foo", row, "bar", Value::Text("2015-09-18".to_string())).unwrap();
    let date = chrono::NaiveDate::from_table_field(&mut db, "foo".into(), row, "bar".into()).unwrap();
    assert_eq!(date, chrono::NaiveDate::from_ymd_opt(2015, 9, 18).unwrap());
    let shown = date.to_display_string(TableFieldDisplayStringArgs {
        db_connection: &mut db,
        display_table: None,
    });
    assert_eq!(shown, "2015-09-18");
    db.set_field_in_table("foo", row, "bar", Value::Text("not a date".to_string())).unwrap();
    let bad = chrono::NaiveDate::from_table_field(&mut db, "foo".into(), row, "bar".into());
    assert!(matches!(bad, Err(DbError::InvalidDate)));
    assert_eq!(DbError::InvalidDate.message(), "failed to parse date");
}

#[test]
fn set_row_binds_only_the_row_id() {
    let mut db = test_db();
    let row = db.new_row_in_table("foo").unwrap();
    let data = TestTableRow { bar: "x".to_string() };
    // the assignment names the second parameter, which is never bound
    assert!(matches!(db.set_row_in_table("foo", row, &data), Err(DbError::Sqlite(_))));
}

#[test]
fn open_from_path_keeps_the_path() {
    let path = PathBuf::from("/tmp/reliquary_open_from_path_test.db");
    // the directory exists already
    let mut db = DbConnection::open_from_path(
        &path,
        vec![TableConfig::new::<TestTableRow>("foo")],
        |_p: &PathBuf| -> Result<(), String> { Ok(()) },
    )
    .unwrap();
    assert!(db.is_open());
    assert_eq!(db.db_path(), &Some(path.clone()));
    let row = db.new_row_in_table("foo").unwrap();
    assert!(row.0 >= 1);
    // closing gives the file to remove; a refused erase leaves the
    // connection closed but still knowing its file
    let to_erase = db.delete_db().unwrap();
    assert_eq!(to_erase, Some(path.clone()));
    let refused = db.db_file_erased(Err("denied".to_string()));
    match refused {
        Err(e) => assert_eq!(e.message(), "couldn't erase db file: denied"),
        Ok(()) => panic!("the erase was refused"),
    }
    assert!(!db.is_open());
    assert_eq!(db.db_path(), &Some(path.clone()));
    // a second delete gives no file to remove
    assert!(matches!(db.delete_db(), Err(DbError::NoActiveConnection)));
    // a successful erase forgets the file
    assert!(db.db_file_erased(Ok(())).is_ok());
    assert_eq!(db.db_path(), &None);
}

#[test]
fn open_from_path_reports_directory_failure() {
    let path = PathBuf::from("/tmp/reliquary_no_such_dir/data.db");
    let opened = DbConnection::open_from_path(
        &path,
        vec![],
        |_p: &PathBuf| -> Result<(), String> { Err("cannot create".to_string()) },
    );
    match opened {
        Err(DbError::Io(reason)) => assert_eq!(reason, "cannot create"),
        _ => panic!("the directory could not be made"),
    }
}

#[derive(Debug)]
struct RefusingRow;

impl TableRow for RefusingRow {
    fn setup(_connection: &mut Connection, table_name: String) -> Result<(), DbError> {
        Err(DbError::Message(format!("refused {}", table_name)))
    }

    fn from_table_row(
        _db_connection: &mut DbConnection,
        _table_name: String,
        _row_id: RowId,
    ) -> Result<Self, DbError> {
        Ok(RefusingRow)
    }

    fn push_tabled_header(_builder: &mut Builder) {}

    fn push_tabled_record(
        _builder: &mut Builder,
        _db_connection: &mut DbConnection,
        _table_name: String,
        _row_id: RowId,
    ) {
    }

    fn get_fields_as_strings(
        _db_connection: &mut DbConnection,
        _table_name: String,
        _row_id: RowId,
    ) -> Vec<String> {
        Vec::new()
    }

    fn field_types() -> Vec<FieldTypeInfo> {
        Vec::new()
    }
}

#[test]
fn first_failing_setup_is_the_error() {
    let opened = DbConnection::open_in_memory(vec![
        TableConfig::new::<TestTableRow>("foo"),
        TableConfig::new::<RefusingRow>("first"),
        TableConfig::new::<RefusingRow>("second"),
    ]);
    match opened {
        Err(DbError::Message(text)) => assert_eq!(text, "refused first"),
        _ => panic!("the second table's setup fails"),
    }
}

#[test]
fn setups_run_on_the_returned_connection() {
    let mut db = DbConnection::open_in_memory(vec![
        TableConfig::new::<TestTableRow>("foo"),
        TableConfig::new::<TestTableRow>("other"),
    ])
    .unwrap();
    assert_eq!(db.tables().len(), 2);
    assert_eq!(db.tables()[1].table_name, "other");
    // both tables exist on the connection that came back, and start empty
    assert_eq!(db.get_table_row_ids("foo").unwrap(), Vec::<i64>::new());
    assert_eq!(db.get_table_row_ids("other").unwrap(), Vec::<i64>::new());
    let row = db.new_row_in_table("other").unwrap();
    assert_eq!(row, RowId(1));
}

#[test]
fn set_up_opened_reports_the_refused_open() {
    let refusal = rusqlite::Error::InvalidQuery;
    let text = refusal.to_string();
    let opened = DbConnection::set_up_opened(
        Err(refusal),
        None,
        vec![TableConfig::new::<TestTableRow>("foo")],
        SqlLog::new(),
    );
    match opened {
        Err(DbError::Sqlite(message)) => assert_eq!(message, text),
        _ => panic!("SQLite refused to open"),
    }
}

#[test]
fn set_up_opened_sets_up_the_given_connection() {
    let connection = Connection::open_in_memory().unwrap();
    let mut db = DbConnection::set_up_opened(
        Ok(connection),
        None,
        vec![TableConfig::new::<TestTableRow>("foo")],
        SqlLog::new(),
    )
    .unwrap();
    assert!(db.is_open());
    assert!(db.db_path().is_none());
    assert_eq!(db.get_table_row_ids("foo").unwrap(), Vec::<i64>::new());
    let failed = DbConnection::set_up_opened(
        Ok(Connection::open_in_memory().unwrap()),
        None,
        vec![TableConfig::new::<RefusingRow>("only")],
        SqlLog::new(),
    );
    assert!(matches!(failed, Err(DbError::Message(text)) if text == "refused only"));
}

#[test]
fn optional_small_integers_and_flags() {
    let mut db = test_db();
    let row = db.new_row_in_table("foo").unwrap();
    // the id column holds integers
    let a = Option::<u8>::from_table_field(&mut db, "foo".into(), row, "id".into()).unwrap();
    assert_eq!(a, Some(1u8));
    let b = Option::<i16>::from_table_field(&mut db, "foo".into(), row, "id".into()).unwrap();
    assert_eq!(b, Some(1i16));
    let c = Option::<bool>::from_table_field(&mut db, "foo".into(), row, "id".into()).unwrap();
    assert_eq!(c, Some(true));
    db.set_field_in_table("foo", row, "id", Value::Integer(300)).unwrap();
    let moved = RowId(300);
    let d = Option::<u8>::from_table_field(&mut db, "foo".into(), moved, "id".into()).unwrap();
    assert_eq!(d, None);
    let e = Option::<u16>::from_table_field(&mut db, "foo".into(), moved, "id".into()).unwrap();
    assert_eq!(e, Some(300u16));
    let f = Option::<i8>::from_table_field(&mut db, "foo".into(), moved, "id".into()).unwrap();
    assert_eq!(f, None);
    // a text value is not a number
    db.set_field_in_table("foo", moved, "bar", Value::Text("x".to_string())).unwrap();
    let g = Option::<u8>::from_table_field(&mut db, "foo".into(), moved, "bar".into()).unwrap();
    assert_eq!(g, None);
    assert_eq!(
        Some(true).to_display_string(TableFieldDisplayStringArgs {
            db_connection: &mut db,
            display_table: None,
        }),
        "Some(true)"
    );
    assert_eq!(
        Some(-3i8).to_display_string(TableFieldDisplayStringArgs {
            db_connection: &mut db,
            display_table: None,
        }),
        "Some(-3)"
    );
}
